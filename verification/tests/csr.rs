use rv64_emulator::emulator::state::rv64_cpu_context::{
    CSRAddress, CSRFile, Exception, PrivilegeMode,
};

const ALL: [CSRAddress; 36] = [
    CSRAddress::FFlags,
    CSRAddress::FRM,
    CSRAddress::FCSR,
    CSRAddress::MVendorID,
    CSRAddress::MArchID,
    CSRAddress::MImpID,
    CSRAddress::MHartID,
    CSRAddress::MStatus,
    CSRAddress::MIsa,
    CSRAddress::MEDeleg,
    CSRAddress::MIDeleg,
    CSRAddress::MIE,
    CSRAddress::MTVec,
    CSRAddress::MCounterEn,
    CSRAddress::MScratch,
    CSRAddress::MEPC,
    CSRAddress::MCause,
    CSRAddress::MTVal,
    CSRAddress::MIP,
    CSRAddress::SStatus,
    CSRAddress::SIE,
    CSRAddress::STVec,
    CSRAddress::SCounterEn,
    CSRAddress::SScratch,
    CSRAddress::SEPC,
    CSRAddress::SCause,
    CSRAddress::STVal,
    CSRAddress::SIP,
    CSRAddress::SATP,
    CSRAddress::SContext,
    CSRAddress::SStateEn0,
    CSRAddress::SStateEn1,
    CSRAddress::SStateEn2,
    CSRAddress::SStateEn3,
    CSRAddress::MCycle,
    CSRAddress::MInstRet,
];

#[test]
fn cause_codes_are_the_architectural_ones() {
    assert_eq!(Exception::InstructionAddressMisaligned.code(), 0);
    assert_eq!(Exception::InstructionAccessFault.code(), 1);
    assert_eq!(Exception::IllegalInstruction.code(), 2);
    assert_eq!(Exception::Breakpoint.code(), 3);
    assert_eq!(Exception::LoadAddressMisaligned.code(), 4);
    assert_eq!(Exception::LoadAccessFault.code(), 5);
    assert_eq!(Exception::StoreAddressMisaligned.code(), 6);
    assert_eq!(Exception::StoreAccessFault.code(), 7);
    assert_eq!(Exception::EnvironmentCallFromUMode.code(), 8);
    assert_eq!(Exception::EnvironmentCallFromSMode.code(), 9);
    assert_eq!(Exception::EnvironmentCallFromMMode.code(), 11);
    assert_eq!(Exception::InstructionPageFault.code(), 12);
    assert_eq!(Exception::LoadPageFault.code(), 13);
    assert_eq!(Exception::StorePageFault.code(), 15);
}

#[test]
fn privilege_levels_are_ordered_by_their_encoding() {
    assert_eq!(PrivilegeMode::User.level(), 0);
    assert_eq!(PrivilegeMode::Supervisor.level(), 1);
    assert_eq!(PrivilegeMode::Machine.level(), 3);
}

#[test]
fn csr_numbers_name_their_registers() {
    assert_eq!(CSRAddress::MStatus.address(), 0x300);
    assert_eq!(CSRAddress::MHartID.address(), 0xf14);
    assert_eq!(CSRAddress::SContext.address(), 0x5a8);
    assert_eq!(CSRAddress::SStateEn3.address(), 0x110);
    assert_eq!(CSRAddress::MInstRet.address(), 0xb02);
    for register in ALL {
        assert_eq!(CSRAddress::from_address(register.address()), Some(register));
    }
    let mut known = 0;
    for number in 0..0x1000u16 {
        if let Some(register) = CSRAddress::from_address(number) {
            assert_eq!(register.address(), number);
            known += 1;
        }
    }
    assert_eq!(known, 36);
    assert_eq!(CSRAddress::from_address(0x1000 + 0x300), None);
}

#[test]
fn a_new_file_is_zero_in_machine_mode() {
    let csrs = CSRFile::new();
    assert_eq!(csrs.get_current_privilege(), PrivilegeMode::Machine);
    for register in ALL {
        assert_eq!(csrs.read_csr(register.address(), false), Ok(0));
    }
}

#[test]
fn plain_registers_read_back_what_was_written() {
    let mut csrs = CSRFile::new();
    let value = 0xfedc_ba98_7654_3211;
    for register in [
        CSRAddress::FFlags,
        CSRAddress::FRM,
        CSRAddress::FCSR,
        CSRAddress::MEDeleg,
        CSRAddress::MIDeleg,
        CSRAddress::MTVec,
        CSRAddress::MCounterEn,
        CSRAddress::MScratch,
        CSRAddress::MCause,
        CSRAddress::MTVal,
        CSRAddress::STVec,
        CSRAddress::SCounterEn,
        CSRAddress::SScratch,
        CSRAddress::SCause,
        CSRAddress::STVal,
        CSRAddress::SATP,
        CSRAddress::SContext,
        CSRAddress::SStateEn0,
        CSRAddress::SStateEn1,
        CSRAddress::SStateEn2,
        CSRAddress::SStateEn3,
        CSRAddress::MCycle,
        CSRAddress::MInstRet,
    ] {
        assert_eq!(csrs.write_csr(register.address(), value, false), Ok(()));
        assert_eq!(csrs.read_csr(register.address(), false), Ok(value), "{:?}", register);
    }
}

#[test]
fn the_exception_program_counters_drop_bit_zero() {
    let mut csrs = CSRFile::new();
    assert_eq!(csrs.write_csr(CSRAddress::MEPC.address(), 0x1235, false), Ok(()));
    assert_eq!(csrs.read_csr(CSRAddress::MEPC.address(), false), Ok(0x1234));
    assert_eq!(csrs.write_csr(CSRAddress::SEPC.address(), u64::MAX, false), Ok(()));
    assert_eq!(csrs.read_csr(CSRAddress::SEPC.address(), false), Ok(u64::MAX - 1));
}

#[test]
fn mstatus_keeps_its_writable_bits_and_summarises_the_dirty_state() {
    let mut csrs = CSRFile::new();
    assert_eq!(csrs.write_csr(CSRAddress::MStatus.address(), u64::MAX, false), Ok(()));
    assert_eq!(
        csrs.read_csr(CSRAddress::MStatus.address(), false),
        Ok(0x8000_0000_0001_ffea)
    );
    // FS = 3 alone sets SD, FS = 2 does not
    assert_eq!(csrs.write_csr(CSRAddress::MStatus.address(), 0x6000, false), Ok(()));
    assert_eq!(csrs.read_csr(CSRAddress::MStatus.address(), false), Ok(0x8000_0000_0000_6000));
    assert_eq!(csrs.write_csr(CSRAddress::MStatus.address(), 0x4000, false), Ok(()));
    assert_eq!(csrs.read_csr(CSRAddress::MStatus.address(), false), Ok(0x4000));
    // XS = 3 sets SD too
    assert_eq!(csrs.write_csr(CSRAddress::MStatus.address(), 0x1_8000, false), Ok(()));
    assert_eq!(csrs.read_csr(CSRAddress::MStatus.address(), false), Ok(0x8000_0000_0001_8000));
    // SD cannot be written
    assert_eq!(csrs.write_csr(CSRAddress::MStatus.address(), 0x8000_0000_0000_0008, false), Ok(()));
    assert_eq!(csrs.read_csr(CSRAddress::MStatus.address(), false), Ok(0x8));
    assert_eq!(csrs.read_mstatus(), 0x8);
}

#[test]
fn sstatus_is_the_supervisor_view_of_mstatus() {
    let mut csrs = CSRFile::new();
    assert_eq!(csrs.write_csr(CSRAddress::MStatus.address(), u64::MAX, false), Ok(()));
    assert_eq!(
        csrs.read_csr(CSRAddress::SStatus.address(), false),
        Ok(0x8000_0000_0001_e362)
    );
    assert_eq!(csrs.read_sstatus(), 0x8000_0000_0001_e362);
    // a write of zero clears the supervisor's bits and keeps XS and the machine's bits
    assert_eq!(csrs.write_csr(CSRAddress::SStatus.address(), 0, false), Ok(()));
    assert_eq!(
        csrs.read_csr(CSRAddress::MStatus.address(), false),
        Ok(0x8000_0000_0001_9c88)
    );
    assert_eq!(csrs.read_csr(CSRAddress::SStatus.address(), false), Ok(0x8000_0000_0001_8000));
    // a write of ones sets only the supervisor's bits
    assert_eq!(csrs.write_csr(CSRAddress::MStatus.address(), 0, false), Ok(()));
    assert_eq!(csrs.write_csr(CSRAddress::SStatus.address(), u64::MAX, false), Ok(()));
    assert_eq!(
        csrs.read_csr(CSRAddress::MStatus.address(), false),
        Ok(0x8000_0000_0000_6362)
    );
    assert_eq!(
        csrs.read_csr(CSRAddress::SStatus.address(), false),
        Ok(0x8000_0000_0000_6362)
    );
}

#[test]
fn the_interrupt_registers_keep_the_implemented_bits() {
    let mut csrs = CSRFile::new();
    assert_eq!(csrs.write_csr(CSRAddress::MIE.address(), u64::MAX, false), Ok(()));
    assert_eq!(csrs.read_csr(CSRAddress::MIE.address(), false), Ok(0xbbb));
    assert_eq!(csrs.write_csr(CSRAddress::MIP.address(), 0xf0f, false), Ok(()));
    assert_eq!(csrs.read_csr(CSRAddress::MIP.address(), false), Ok(0xb0b));
}

#[test]
fn sie_and_sip_show_the_delegated_bits() {
    let mut csrs = CSRFile::new();
    assert_eq!(csrs.write_csr(CSRAddress::MIE.address(), 0xbbb, false), Ok(()));
    assert_eq!(csrs.write_csr(CSRAddress::MIP.address(), 0xbbb, false), Ok(()));
    assert_eq!(csrs.read_csr(CSRAddress::SIE.address(), false), Ok(0));
    assert_eq!(csrs.read_csr(CSRAddress::SIP.address(), false), Ok(0));
    assert_eq!(csrs.write_csr(CSRAddress::MIDeleg.address(), 0x222, false), Ok(()));
    assert_eq!(csrs.read_csr(CSRAddress::SIE.address(), false), Ok(0x222));
    assert_eq!(csrs.read_csr(CSRAddress::SIP.address(), false), Ok(0x222));
    assert_eq!(csrs.read_sie(), 0x222);
    assert_eq!(csrs.read_sip(), 0x222);
    // a write through sie reaches the delegated bits only
    assert_eq!(csrs.write_csr(CSRAddress::SIE.address(), 0x020, false), Ok(()));
    assert_eq!(csrs.read_csr(CSRAddress::SIE.address(), false), Ok(0x020));
    assert_eq!(csrs.read_csr(CSRAddress::MIE.address(), false), Ok(0x9b9));
    // a write through sip reaches the delegated software bits only
    assert_eq!(csrs.write_csr(CSRAddress::SIP.address(), 0, false), Ok(()));
    assert_eq!(csrs.read_csr(CSRAddress::MIP.address(), false), Ok(0xbb9));
    assert_eq!(csrs.read_csr(CSRAddress::SIP.address(), false), Ok(0x220));
    assert_eq!(csrs.write_csr(CSRAddress::MIDeleg.address(), 0x3, false), Ok(()));
    assert_eq!(csrs.write_csr(CSRAddress::SIP.address(), 0xfff, false), Ok(()));
    assert_eq!(csrs.read_csr(CSRAddress::MIP.address(), false), Ok(0xbbb));
    assert_eq!(csrs.read_csr(CSRAddress::SIP.address(), false), Ok(0x3));
}

#[test]
fn read_only_and_unknown_registers_refuse_writes() {
    let mut csrs = CSRFile::new();
    for register in [
        CSRAddress::MVendorID,
        CSRAddress::MArchID,
        CSRAddress::MImpID,
        CSRAddress::MHartID,
        CSRAddress::MIsa,
    ] {
        for override_privs in [false, true] {
            assert_eq!(
                csrs.write_csr(register.address(), 1, override_privs),
                Err(Exception::IllegalInstruction)
            );
        }
        assert_eq!(csrs.read_csr(register.address(), false), Ok(0));
    }
    for number in [0x000u16, 0x7c0, 0xc00, 0xc01, 0xc02, 0xfff, 0x345] {
        assert_eq!(csrs.read_csr(number, true), Err(Exception::IllegalInstruction));
        assert_eq!(csrs.write_csr(number, 1, true), Err(Exception::IllegalInstruction));
    }
    assert!(csrs.is_csr_read_only(0xf11));
    assert!(csrs.is_csr_read_only(0xc00));
    assert!(!csrs.is_csr_read_only(0x300));
    assert!(!csrs.is_csr_read_only(0xb00));
}

#[test]
fn the_privilege_gates_the_access() {
    let mut csrs = CSRFile::new();
    assert_eq!(csrs.write_csr(CSRAddress::MScratch.address(), 5, false), Ok(()));
    assert_eq!(csrs.write_csr(CSRAddress::SScratch.address(), 6, false), Ok(()));
    assert_eq!(csrs.get_required_privilege_for_csr(0x001), PrivilegeMode::User);
    assert_eq!(csrs.get_required_privilege_for_csr(0x140), PrivilegeMode::User);
    assert_eq!(csrs.get_required_privilege_for_csr(0x5a8), PrivilegeMode::Supervisor);
    assert_eq!(csrs.get_required_privilege_for_csr(0xb00), PrivilegeMode::Machine);
    assert_eq!(csrs.get_required_privilege_for_csr(0xf11), PrivilegeMode::Machine);

    csrs.change_privilege(PrivilegeMode::Supervisor);
    assert_eq!(csrs.get_current_privilege(), PrivilegeMode::Supervisor);
    assert_eq!(csrs.read_csr(CSRAddress::SContext.address(), false), Ok(0));
    assert_eq!(csrs.write_csr(CSRAddress::SContext.address(), 3, false), Ok(()));
    assert_eq!(
        csrs.read_csr(CSRAddress::MCycle.address(), false),
        Err(Exception::IllegalInstruction)
    );
    assert_eq!(
        csrs.write_csr(CSRAddress::MCycle.address(), 1, false),
        Err(Exception::IllegalInstruction)
    );
    assert_eq!(csrs.read_csr(CSRAddress::MCycle.address(), true), Ok(0));
    assert_eq!(csrs.write_csr(CSRAddress::MCycle.address(), 1, true), Ok(()));
    assert_eq!(csrs.read_csr(CSRAddress::MVendorID.address(), false), Err(Exception::IllegalInstruction));

    csrs.change_privilege(PrivilegeMode::User);
    assert_eq!(
        csrs.read_csr(CSRAddress::SContext.address(), false),
        Err(Exception::IllegalInstruction)
    );
    assert_eq!(
        csrs.write_csr(CSRAddress::SContext.address(), 4, false),
        Err(Exception::IllegalInstruction)
    );
    assert_eq!(csrs.read_csr(CSRAddress::SContext.address(), true), Ok(3));
    assert_eq!(csrs.read_csr(CSRAddress::FRM.address(), false), Ok(0));
    assert_eq!(csrs.read_csr(CSRAddress::MCycle.address(), true), Ok(1));
}

#[test]
fn satp_is_open_to_the_supervisor_while_tvm_is_clear() {
    let mut csrs = CSRFile::new();
    // TVM is no writable bit of mstatus, so it stays clear
    assert_eq!(csrs.write_csr(CSRAddress::MStatus.address(), 1 << 20, false), Ok(()));
    assert_eq!(csrs.read_csr(CSRAddress::MStatus.address(), false), Ok(0));
    csrs.change_privilege(PrivilegeMode::Supervisor);
    assert_eq!(csrs.write_csr(CSRAddress::SATP.address(), 0x8000_0000_0000_1234, true), Ok(()));
    assert_eq!(csrs.read_csr(CSRAddress::SATP.address(), true), Ok(0x8000_0000_0000_1234));
}

#[test]
fn counters_are_gated_by_the_counter_enables() {
    let mut csrs = CSRFile::new();
    assert!(csrs.is_csr_accessible(0xc00));
    assert!(csrs.is_csr_accessible(0x300));
    assert!(csrs.is_counter_accessible(0xc00));
    csrs.change_privilege(PrivilegeMode::Supervisor);
    assert!(!csrs.is_csr_accessible(0xc00));
    assert!(csrs.is_csr_accessible(0x300));
    assert!(csrs.is_csr_accessible(0x5a8));
    assert!(!csrs.is_csr_accessible(0xb00));
    assert!(!csrs.is_counter_accessible(0xc00));
    assert!(!csrs.is_counter_accessible(0xc02));
    assert!(csrs.is_counter_accessible(0xc03));
    assert_eq!(csrs.write_csr(CSRAddress::MCounterEn.address(), 0b101, true), Ok(()));
    assert!(csrs.is_counter_accessible(0xc00));
    assert!(!csrs.is_counter_accessible(0xc01));
    assert!(csrs.is_counter_accessible(0xc02));
    csrs.change_privilege(PrivilegeMode::User);
    assert!(!csrs.is_counter_accessible(0xc00));
    assert_eq!(csrs.write_csr(CSRAddress::SCounterEn.address(), 0b001, true), Ok(()));
    assert!(csrs.is_counter_accessible(0xc00));
    assert!(!csrs.is_counter_accessible(0xc02));
    assert!(csrs.is_csr_accessible(0x001));
    assert!(!csrs.is_csr_accessible(0x5a8));
    assert!(!csrs.is_csr_accessible(0xc00));
}

#[test]
fn a_refused_write_changes_nothing() {
    let mut csrs = CSRFile::new();
    assert_eq!(csrs.write_csr(CSRAddress::MCycle.address(), 7, false), Ok(()));
    csrs.change_privilege(PrivilegeMode::User);
    assert_eq!(
        csrs.write_csr(CSRAddress::MCycle.address(), 9, false),
        Err(Exception::IllegalInstruction)
    );
    assert_eq!(csrs.read_csr(CSRAddress::MCycle.address(), true), Ok(7));
    for register in ALL {
        let expected = if register == CSRAddress::MCycle { 7 } else { 0 };
        assert_eq!(csrs.read_csr(register.address(), true), Ok(expected));
    }
    // the machine trap registers lie in the quarter that user mode may access
    assert_eq!(csrs.write_csr(CSRAddress::MScratch.address(), 9, false), Ok(()));
    assert_eq!(csrs.read_csr(CSRAddress::MScratch.address(), false), Ok(9));
}

#[test]
fn the_direct_writers_agree_with_the_numbered_writes() {
    let mut csrs = CSRFile::new();
    csrs.write_mstatus(0x6008);
    assert_eq!(csrs.read_mstatus(), 0x8000_0000_0000_6008);
    csrs.write_sstatus(0x2);
    assert_eq!(csrs.read_mstatus(), 0xa);
    csrs.write_mie(0xfff);
    csrs.write_mip(0x444);
    assert_eq!(csrs.read_csr(CSRAddress::MIE.address(), false), Ok(0xbbb));
    assert_eq!(csrs.read_csr(CSRAddress::MIP.address(), false), Ok(0));
    assert_eq!(csrs.write_csr(CSRAddress::MIDeleg.address(), 0x22, false), Ok(()));
    csrs.write_sie(0);
    assert_eq!(csrs.read_csr(CSRAddress::MIE.address(), false), Ok(0xb99));
    csrs.write_sip(0x22);
    assert_eq!(csrs.read_csr(CSRAddress::MIP.address(), false), Ok(0x2));
    csrs.update_sd_bit();
    assert_eq!(csrs.read_mstatus(), 0xa);
}
