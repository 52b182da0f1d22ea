use rv64_emulator::emulator::interpreter::{HostError, Interpreter};
use rv64_emulator::emulator::state::memory::{Device, MemoryManagementUnit};
use rv64_emulator::emulator::state::rv64_cpu_context::{
    CSRAddress, Exception, PrivilegeMode,
};

type Unit = MemoryManagementUnit<Box<dyn Device>>;

fn load_program(words: &[u32]) -> (Interpreter, Unit) {
    let mut memory = MemoryManagementUnit::new(0x4000);
    for (i, word) in words.iter().enumerate() {
        assert_eq!(memory.write_word(0x1000 + 4 * i, *word), Ok(()));
    }
    (Interpreter::new(0x1000), memory)
}

fn set_csr(interpreter: &mut Interpreter, register: CSRAddress, value: u64) {
    assert_eq!(interpreter.cpu_context.write_csr(register.address(), value, true), Ok(()));
}

fn get_csr(interpreter: &Interpreter, register: CSRAddress) -> u64 {
    interpreter.cpu_context.read_csr(register.address(), true).unwrap()
}

const ADDI_X5_X0_7: u32 = 0x00700293;
const ADDI_X5_X5_1: u32 = 0x00128293;
const JAL_X0_8: u32 = 0x0080006f;
const JAL_X0_0: u32 = 0x0000006f;
const ECALL: u32 = 0x00000073;
const EBREAK: u32 = 0x00100073;

#[test]
fn a_step_retires_one_instruction_and_advances_by_four() {
    let (mut interpreter, mut memory) = load_program(&[ADDI_X5_X0_7, ADDI_X5_X5_1]);
    assert_eq!(interpreter.cycles, 0);
    assert_eq!(interpreter.step(&mut memory), Ok(None));
    assert_eq!(interpreter.cpu_context.read_register(5), 7);
    assert_eq!(interpreter.cpu_context.pc(), 0x1004);
    assert_eq!(interpreter.cycles, 1);
    assert_eq!(interpreter.step(&mut memory), Ok(None));
    assert_eq!(interpreter.cpu_context.read_register(5), 8);
    assert_eq!(interpreter.cpu_context.pc(), 0x1008);
    assert_eq!(interpreter.cycles, 2);
}

#[test]
fn a_jump_leaves_the_program_counter_at_its_target() {
    let (mut interpreter, mut memory) = load_program(&[JAL_X0_8, ADDI_X5_X0_7, ADDI_X5_X5_1]);
    assert_eq!(interpreter.step(&mut memory), Ok(None));
    assert_eq!(interpreter.cpu_context.pc(), 0x1008);
    assert_eq!(interpreter.step(&mut memory), Ok(None));
    assert_eq!(interpreter.cpu_context.read_register(5), 1);
    assert_eq!(interpreter.cpu_context.pc(), 0x100c);
}

#[test]
fn a_jump_to_itself_is_taken_for_no_jump() {
    let (mut interpreter, mut memory) = load_program(&[JAL_X0_0]);
    assert_eq!(interpreter.step(&mut memory), Ok(None));
    assert_eq!(interpreter.cpu_context.pc(), 0x1004);
}

#[test]
fn a_taken_branch_and_one_not_taken() {
    // BEQ x0, x0, 12 ; BNE x0, x0, 12
    let (mut interpreter, mut memory) = load_program(&[0x00000663, 0, 0, 0x00001663]);
    assert_eq!(interpreter.step(&mut memory), Ok(None));
    assert_eq!(interpreter.cpu_context.pc(), 0x100c);
    assert_eq!(interpreter.step(&mut memory), Ok(None));
    assert_eq!(interpreter.cpu_context.pc(), 0x1010);
}

#[test]
fn the_program_counter_stays_a_multiple_of_four() {
    // a loop: x5 counts up to 3, then falls through
    // ADDI x6, x0, 3 ; ADDI x5, x5, 1 ; BNE x5, x6, -4 ; ADDI x7, x0, 1
    let (mut interpreter, mut memory) =
        load_program(&[0x00300313, ADDI_X5_X5_1, 0xfe629ee3, 0x00100393]);
    for _ in 0..8 {
        assert_eq!(interpreter.step(&mut memory), Ok(None));
        assert_eq!(interpreter.cpu_context.pc() % 4, 0);
        assert_eq!(interpreter.cpu_context.read_register(0), 0);
    }
    assert_eq!(interpreter.cpu_context.read_register(5), 3);
    assert_eq!(interpreter.cpu_context.read_register(7), 1);
    assert_eq!(interpreter.cpu_context.pc(), 0x1010);
}

#[test]
fn a_jump_by_two_leaves_the_program_counter_off_the_grid() {
    // JAL x5, 2
    let (mut interpreter, mut memory) = load_program(&[0x002002ef]);
    assert_eq!(interpreter.step(&mut memory), Ok(None));
    assert_eq!(interpreter.cpu_context.pc(), 0x1002);
}

#[test]
fn a_step_that_traps_leaves_the_program_counter() {
    let (mut interpreter, mut memory) = load_program(&[ECALL, EBREAK, 0xffff_ffff]);
    assert_eq!(interpreter.step(&mut memory), Err(Exception::EnvironmentCallFromMMode));
    assert_eq!(interpreter.cpu_context.pc(), 0x1000);
    assert_eq!(interpreter.cycles, 1);
    interpreter.cpu_context.set_pc(0x1004);
    assert_eq!(interpreter.step(&mut memory), Err(Exception::Breakpoint));
    assert_eq!(interpreter.cpu_context.pc(), 0x1004);
    interpreter.cpu_context.set_pc(0x1008);
    assert_eq!(interpreter.step(&mut memory), Err(Exception::IllegalInstruction));
    assert_eq!(interpreter.cpu_context.pc(), 0x1008);
    interpreter.cpu_context.change_privilege(PrivilegeMode::Supervisor);
    interpreter.cpu_context.set_pc(0x1000);
    assert_eq!(interpreter.step(&mut memory), Err(Exception::EnvironmentCallFromSMode));
    interpreter.cpu_context.change_privilege(PrivilegeMode::User);
    assert_eq!(interpreter.step(&mut memory), Err(Exception::EnvironmentCallFromUMode));
}

#[test]
fn a_fetch_outside_memory_is_an_instruction_access_fault() {
    let mut memory = MemoryManagementUnit::new(0x100);
    let mut interpreter = Interpreter::new(0x1000);
    assert_eq!(interpreter.step(&mut memory), Err(Exception::InstructionAccessFault));
    assert_eq!(interpreter.cpu_context.pc(), 0x1000);
    interpreter.cpu_context.set_pc(0xfe);
    assert_eq!(interpreter.step(&mut memory), Err(Exception::InstructionAccessFault));
    interpreter.cpu_context.set_pc(0xfc);
    assert_eq!(interpreter.step(&mut memory), Err(Exception::IllegalInstruction));
}

#[test]
fn a_machine_trap_enters_at_the_direct_vector() {
    let (mut interpreter, _memory) = load_program(&[]);
    set_csr(&mut interpreter, CSRAddress::MStatus, 0x8 | 0x80);
    set_csr(&mut interpreter, CSRAddress::MTVec, 0x2000);
    interpreter.cpu_context.set_pc(0x1234);
    assert_eq!(interpreter.handle_exception(Exception::IllegalInstruction), Ok(()));
    assert_eq!(get_csr(&interpreter, CSRAddress::MEPC), 0x1234);
    assert_eq!(get_csr(&interpreter, CSRAddress::MCause), 2);
    assert_eq!(get_csr(&interpreter, CSRAddress::MStatus), 0x80);
    assert_eq!(interpreter.cpu_context.pc(), 0x2000);
    assert_eq!(interpreter.cpu_context.csrs().get_current_privilege(), PrivilegeMode::Machine);
}

#[test]
fn a_machine_trap_enters_at_the_vectored_entry() {
    let (mut interpreter, _memory) = load_program(&[]);
    set_csr(&mut interpreter, CSRAddress::MTVec, 0x2001);
    assert_eq!(interpreter.handle_exception(Exception::StoreAccessFault), Ok(()));
    assert_eq!(interpreter.cpu_context.pc(), 0x2000 + 4 * 7);
    assert_eq!(get_csr(&interpreter, CSRAddress::MCause), 7);
    assert_eq!(get_csr(&interpreter, CSRAddress::MEPC), 0x1000);
    assert_eq!(Interpreter::trap_vector(0x2001, 11), Some(0x202c));
    assert_eq!(Interpreter::trap_vector(0x2000, 11), Some(0x2000));
    assert_eq!(Interpreter::trap_vector(0xffff_ffff_ffff_fffd, 1), Some(0));
}

#[test]
fn a_reserved_vector_mode_is_an_error_of_the_host() {
    let (mut interpreter, _memory) = load_program(&[]);
    for mode in [2u64, 3] {
        set_csr(&mut interpreter, CSRAddress::MTVec, 0x2000 + mode);
        set_csr(&mut interpreter, CSRAddress::MStatus, 0x8);
        assert_eq!(
            interpreter.handle_exception(Exception::Breakpoint),
            Err(HostError::ReservedTrapVector)
        );
        assert_eq!(interpreter.cpu_context.pc(), 0x1000);
        assert_eq!(get_csr(&interpreter, CSRAddress::MCause), 0);
        assert_eq!(get_csr(&interpreter, CSRAddress::MEPC), 0);
        assert_eq!(get_csr(&interpreter, CSRAddress::MStatus), 0x8);
        assert_eq!(Interpreter::trap_vector(0x2000 + mode, 3), None);
    }
}

#[test]
fn a_delegated_trap_from_user_mode_goes_to_the_supervisor() {
    let (mut interpreter, _memory) = load_program(&[]);
    set_csr(&mut interpreter, CSRAddress::MStatus, 0x2 | 0x8);
    set_csr(&mut interpreter, CSRAddress::MEDeleg, 1 << 8);
    set_csr(&mut interpreter, CSRAddress::STVec, 0x3001);
    set_csr(&mut interpreter, CSRAddress::MTVec, 0x2000);
    interpreter.cpu_context.change_privilege(PrivilegeMode::User);
    interpreter.cpu_context.set_pc(0x1230);
    assert_eq!(interpreter.handle_exception(Exception::EnvironmentCallFromUMode), Ok(()));
    assert_eq!(interpreter.cpu_context.csrs().get_current_privilege(), PrivilegeMode::Supervisor);
    assert_eq!(get_csr(&interpreter, CSRAddress::SEPC), 0x1230);
    assert_eq!(get_csr(&interpreter, CSRAddress::SCause), 8);
    assert_eq!(get_csr(&interpreter, CSRAddress::MStatus), 0x8);
    assert_eq!(get_csr(&interpreter, CSRAddress::MEPC), 0);
    assert_eq!(get_csr(&interpreter, CSRAddress::MCause), 0);
    assert_eq!(interpreter.cpu_context.pc(), 0x3000 + 4 * 8);
}

#[test]
fn a_trap_that_is_not_delegated_goes_to_the_machine() {
    let (mut interpreter, _memory) = load_program(&[]);
    set_csr(&mut interpreter, CSRAddress::MStatus, 0x2 | 0x8);
    set_csr(&mut interpreter, CSRAddress::MEDeleg, 1 << 8);
    set_csr(&mut interpreter, CSRAddress::STVec, 0x3000);
    set_csr(&mut interpreter, CSRAddress::MTVec, 0x2000);
    interpreter.cpu_context.change_privilege(PrivilegeMode::User);
    assert_eq!(interpreter.handle_exception(Exception::IllegalInstruction), Ok(()));
    assert_eq!(interpreter.cpu_context.csrs().get_current_privilege(), PrivilegeMode::Machine);
    assert_eq!(get_csr(&interpreter, CSRAddress::MCause), 2);
    assert_eq!(get_csr(&interpreter, CSRAddress::MStatus), 0x2);
    assert_eq!(get_csr(&interpreter, CSRAddress::SCause), 0);
    assert_eq!(interpreter.cpu_context.pc(), 0x2000);

    // delegation counts for user mode only
    let (mut interpreter, _memory) = load_program(&[]);
    set_csr(&mut interpreter, CSRAddress::MEDeleg, u64::MAX);
    set_csr(&mut interpreter, CSRAddress::STVec, 0x3000);
    set_csr(&mut interpreter, CSRAddress::MTVec, 0x2000);
    interpreter.cpu_context.change_privilege(PrivilegeMode::Supervisor);
    assert_eq!(interpreter.handle_exception(Exception::Breakpoint), Ok(()));
    assert_eq!(interpreter.cpu_context.pc(), 0x2000);
    assert_eq!(interpreter.cpu_context.csrs().get_current_privilege(), PrivilegeMode::Machine);
    assert_eq!(interpreter.handle_exception_supervisor(Exception::Breakpoint), Ok(()));
    assert_eq!(interpreter.cpu_context.pc(), 0x3000);
    assert_eq!(get_csr(&interpreter, CSRAddress::SEPC), 0x2000);
    assert_eq!(interpreter.handle_exception_machine(Exception::Breakpoint), Ok(()));
    assert_eq!(get_csr(&interpreter, CSRAddress::MEPC), 0x3000);
}

#[test]
fn interrupts_are_polled_after_a_step_that_retired() {
    let (mut interpreter, mut memory) = load_program(&[ADDI_X5_X0_7; 6]);
    set_csr(&mut interpreter, CSRAddress::MIE, 0x888);
    set_csr(&mut interpreter, CSRAddress::MIP, 0x880);
    assert_eq!(interpreter.check_for_interrupt(), None);
    // pending and enabled, but MIE is clear
    assert_eq!(interpreter.step(&mut memory), Ok(None));
    set_csr(&mut interpreter, CSRAddress::MStatus, 0x8);
    assert_eq!(interpreter.check_for_interrupt(), Some(7));
    assert_eq!(interpreter.step(&mut memory), Ok(Some(7)));
    assert_eq!(interpreter.cpu_context.pc(), 0x1008);
    // the lowest number goes first
    set_csr(&mut interpreter, CSRAddress::MIP, 0x888);
    assert_eq!(interpreter.step(&mut memory), Ok(Some(3)));
    // pending but not enabled
    set_csr(&mut interpreter, CSRAddress::MIE, 0x800);
    set_csr(&mut interpreter, CSRAddress::MIP, 0x088);
    assert_eq!(interpreter.step(&mut memory), Ok(None));
    // only in machine mode
    set_csr(&mut interpreter, CSRAddress::MIP, 0x800);
    assert_eq!(interpreter.check_for_interrupt(), Some(11));
    interpreter.cpu_context.change_privilege(PrivilegeMode::Supervisor);
    assert_eq!(interpreter.check_for_interrupt(), None);
    assert_eq!(interpreter.step(&mut memory), Ok(None));
    assert_eq!(Interpreter::lowest_set_bit(0), None);
    assert_eq!(Interpreter::lowest_set_bit(1), Some(0));
    assert_eq!(Interpreter::lowest_set_bit(0x8000_0000_0000_0000), Some(63));
    assert_eq!(Interpreter::lowest_set_bit(0xff00), Some(8));
}

#[test]
fn csr_instructions_read_and_write() {
    // CSRRW x5, mscratch, x6 ; CSRRS x7, mscratch, x8 ; CSRRC x9, mscratch, x6 ;
    // CSRRWI x10, mscratch, 21 ; CSRRSI x11, mscratch, 8 ; CSRRCI x12, mscratch, 1 ;
    // CSRRS x13, mscratch, x0
    let (mut interpreter, mut memory) = load_program(&[
        0x340312f3, 0x340423f3, 0x340334f3, 0x340ad573, 0x340465f3, 0x3400f673, 0x340026f3,
    ]);
    interpreter.cpu_context.set_register(6, 0xf0);
    interpreter.cpu_context.set_register(8, 0x0f);
    for _ in 0..7 {
        assert_eq!(interpreter.step(&mut memory), Ok(None));
    }
    let x = |i| interpreter.cpu_context.read_register(i);
    assert_eq!(x(5), 0);
    assert_eq!(x(7), 0xf0);
    assert_eq!(x(9), 0xff);
    assert_eq!(x(10), 0x0f);
    assert_eq!(x(11), 21);
    assert_eq!(x(12), 29);
    assert_eq!(x(13), 28);
    assert_eq!(get_csr(&interpreter, CSRAddress::MScratch), 28);
}

#[test]
fn a_csr_instruction_on_a_closed_register_traps() {
    // CSRRW x5, mcycle, x6 ; CSRRS x5, mvendorid, x0 ; CSRRS x5, mvendorid, x6 ;
    // CSRRW x5, 0x7c0, x6
    let (mut interpreter, mut memory) =
        load_program(&[0xb00312f3, 0xf11022f3, 0xf11322f3, 0x7c0312f3]);
    interpreter.cpu_context.set_register(5, 77);
    interpreter.cpu_context.set_register(6, 1);
    interpreter.cpu_context.change_privilege(PrivilegeMode::User);
    assert_eq!(interpreter.step(&mut memory), Err(Exception::IllegalInstruction));
    assert_eq!(interpreter.cpu_context.read_register(5), 77);
    interpreter.cpu_context.change_privilege(PrivilegeMode::Machine);
    assert_eq!(interpreter.step(&mut memory), Ok(None));
    assert_eq!(get_csr(&interpreter, CSRAddress::MCycle), 1);
    assert_eq!(interpreter.cpu_context.read_register(5), 0);
    // a read of a read-only register goes through
    interpreter.cpu_context.set_register(5, 77);
    assert_eq!(interpreter.step(&mut memory), Ok(None));
    assert_eq!(interpreter.cpu_context.read_register(5), 0);
    // a write to it traps, after the destination took the old value
    interpreter.cpu_context.set_register(5, 77);
    assert_eq!(interpreter.step(&mut memory), Err(Exception::IllegalInstruction));
    assert_eq!(interpreter.cpu_context.read_register(5), 0);
    assert_eq!(interpreter.cpu_context.pc(), 0x1008);
    interpreter.cpu_context.set_pc(0x100c);
    interpreter.cpu_context.set_register(5, 77);
    assert_eq!(interpreter.step(&mut memory), Err(Exception::IllegalInstruction));
    assert_eq!(interpreter.cpu_context.read_register(5), 77);
}

#[test]
fn the_main_loop_runs_and_delivers_traps() {
    // 0x1000: ADDI x5, x0, 7 ; ECALL ; ADDI x5, x5, 1 (skipped)
    // 0x2000: ADDI x6, x0, 1 ; JAL x0, 0x2004 -> itself, taken for no jump
    let (mut interpreter, mut memory) = load_program(&[ADDI_X5_X0_7, ECALL, ADDI_X5_X5_1]);
    assert_eq!(memory.write_word(0x2000, 0x00100313), Ok(()));
    set_csr(&mut interpreter, CSRAddress::MTVec, 0x2000);
    assert_eq!(interpreter.main_loop(&mut memory, 0), Ok(None));
    assert_eq!(interpreter.cycles, 0);
    assert_eq!(interpreter.main_loop(&mut memory, 3), Ok(None));
    assert_eq!(interpreter.cycles, 3);
    assert_eq!(interpreter.cpu_context.read_register(5), 7);
    assert_eq!(interpreter.cpu_context.read_register(6), 1);
    assert_eq!(interpreter.cpu_context.pc(), 0x2004);
    assert_eq!(get_csr(&interpreter, CSRAddress::MEPC), 0x1004);
    assert_eq!(get_csr(&interpreter, CSRAddress::MCause), 11);
}

#[test]
fn the_main_loop_stops_for_an_interrupt_and_for_a_reserved_vector() {
    let (mut interpreter, mut memory) = load_program(&[ADDI_X5_X0_7, ADDI_X5_X5_1, ADDI_X5_X5_1]);
    set_csr(&mut interpreter, CSRAddress::MIE, 0x80);
    set_csr(&mut interpreter, CSRAddress::MIP, 0x80);
    set_csr(&mut interpreter, CSRAddress::MStatus, 0x8);
    assert_eq!(interpreter.main_loop(&mut memory, 10), Ok(Some(7)));
    assert_eq!(interpreter.cycles, 1);
    assert_eq!(interpreter.cpu_context.pc(), 0x1004);

    let (mut interpreter, mut memory) = load_program(&[ADDI_X5_X0_7, ECALL, ADDI_X5_X5_1]);
    set_csr(&mut interpreter, CSRAddress::MTVec, 0x2002);
    assert_eq!(interpreter.main_loop(&mut memory, 10), Err(HostError::ReservedTrapVector));
    assert_eq!(interpreter.cycles, 2);
    assert_eq!(interpreter.cpu_context.pc(), 0x1004);
    assert_eq!(interpreter.cpu_context.read_register(5), 7);
}

#[test]
fn a_store_then_a_load_through_the_step_loop() {
    // ADDI x3, x0, 0x7ff ; SD x3, 0x100(x3) ; LD x5, 0x100(x3) ; LB x6, 0x100(x3) ; LBU x7, 0x100(x3)
    let (mut interpreter, mut memory) =
        load_program(&[0x7ff00193, 0x1031b023, 0x1001b283, 0x10018303, 0x1001c383]);
    for _ in 0..5 {
        assert_eq!(interpreter.step(&mut memory), Ok(None));
    }
    assert_eq!(memory.read_double_word(0x8ff), Ok(0x7ff));
    assert_eq!(interpreter.cpu_context.read_register(5), 0x7ff);
    assert_eq!(interpreter.cpu_context.read_register(6), 0xffff_ffff_ffff_ffff);
    assert_eq!(interpreter.cpu_context.read_register(7), 0xff);
}

#[test]
fn a_csr_instruction_writes_its_destination_before_it_reads_its_source() {
    // CSRRW x6, mscratch, x6
    let (mut interpreter, mut memory) = load_program(&[0x34031373]);
    set_csr(&mut interpreter, CSRAddress::MScratch, 0x55);
    interpreter.cpu_context.set_register(6, 0xaa);
    assert_eq!(interpreter.step(&mut memory), Ok(None));
    assert_eq!(interpreter.cpu_context.read_register(6), 0x55);
    assert_eq!(get_csr(&interpreter, CSRAddress::MScratch), 0x55);
}
