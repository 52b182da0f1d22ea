use rv64_emulator::emulator::instructions::rv64::RV64InstructionParser;
use rv64_emulator::emulator::state::memory::MemoryManagementUnit;
use rv64_emulator::emulator::state::rv64_cpu_context::{Exception, RV64CPUContext};

fn execute_amo_32(instr: u32, addr: u64, initial_mem: u32, rs2: u32, reserve: bool) -> (u64, u32) {
    let mut cpu = RV64CPUContext::new(0x1000);
    let mut memory = MemoryManagementUnit::new(16384);
    cpu.set_register(3, addr);
    cpu.set_register(4, rs2 as i32 as i64 as u64);
    assert_eq!(memory.write_word(addr as usize, initial_mem), Ok(()));
    if reserve {
        memory.set_reservation(0, addr);
    } else {
        memory.clear_reservations_for_addr(addr);
    }
    let instr_fn = RV64InstructionParser::parse(instr);
    let result: Result<(), Exception> = instr_fn.call(&mut cpu, &mut memory, instr);
    assert!(result.is_ok(), "exception {:?}", result);
    (cpu.read_register(5), memory.read_word(addr as usize).unwrap())
}

fn execute_amo_64(instr: u32, addr: u64, initial_mem: u64, rs2: u64, reserve: bool) -> (u64, u64) {
    let mut cpu = RV64CPUContext::new(0x1000);
    let mut memory = MemoryManagementUnit::new(16384);
    cpu.set_register(3, addr);
    cpu.set_register(4, rs2);
    assert_eq!(memory.write_double_word(addr as usize, initial_mem), Ok(()));
    if reserve {
        memory.set_reservation(0, addr);
    } else {
        memory.clear_reservations_for_addr(addr);
    }
    let instr_fn = RV64InstructionParser::parse(instr);
    let result: Result<(), Exception> = instr_fn.call(&mut cpu, &mut memory, instr);
    assert!(result.is_ok(), "exception {:?}", result);
    (cpu.read_register(5), memory.read_double_word(addr as usize).unwrap())
}

#[test]
fn test_amo_32_lr_w() {
    assert_eq!(execute_amo_32(0x1001a2af, 0x1000, 0x2a, 0x0, false), (0x2a, 0x2a));
}

#[test]
fn test_amo_32_sc_w() {
    assert_eq!(execute_amo_32(0x1841a2af, 0x1000, 0x2a, 0x18, true), (0x0, 0x18));
}

#[test]
fn test_amo_32_sc_w_fail() {
    assert_eq!(execute_amo_32(0x1841a2af, 0x1000, 0x2a, 0x18, false), (0x1, 0x2a));
}

#[test]
fn test_amo_32_amoswap_w() {
    assert_eq!(execute_amo_32(0x0841a2af, 0x1000, 0x2a, 0x18, false), (0x2a, 0x18));
}

#[test]
fn test_amo_32_amoadd_w() {
    assert_eq!(execute_amo_32(0x0041a2af, 0x1000, 0x2a, 0x18, false), (0x2a, 0x42));
}

#[test]
fn test_amo_32_amoxor_w() {
    assert_eq!(execute_amo_32(0x2041a2af, 0x1000, 0x2a, 0x18, false), (0x2a, 0x32));
}

#[test]
fn test_amo_32_amoor_w() {
    assert_eq!(execute_amo_32(0x4041a2af, 0x1000, 0x2a, 0x18, false), (0x2a, 0x3a));
}

#[test]
fn test_amo_32_amoand_w() {
    assert_eq!(execute_amo_32(0x6041a2af, 0x1000, 0x2a, 0x18, false), (0x2a, 0x8));
}

#[test]
fn test_amo_32_amomin_w() {
    assert_eq!(execute_amo_32(0x8041a2af, 0x1000, 0x2a, 0x18, false), (0x2a, 0x18));
}

#[test]
fn test_amo_32_amomin_w_neg() {
    assert_eq!(execute_amo_32(0x8041a2af, 0x1000, 0xffffffff, 0x18, false), (0xffffffffffffffff, 0xffffffff));
}

#[test]
fn test_amo_32_amomax_w() {
    assert_eq!(execute_amo_32(0xa041a2af, 0x1000, 0x2a, 0x64, false), (0x2a, 0x64));
}

#[test]
fn test_amo_32_amominu_w() {
    assert_eq!(execute_amo_32(0xc041a2af, 0x1000, 0x2a, 0x18, false), (0x2a, 0x18));
}

#[test]
fn test_amo_32_amomaxu_w() {
    assert_eq!(execute_amo_32(0xe041a2af, 0x1000, 0x2a, 0x64, false), (0x2a, 0x64));
}

#[test]
fn test_amo_64_lr_d() {
    assert_eq!(
        execute_amo_64(0x1001b2af, 0x1000, 0xabcdef1234567890, 0xabcdef1234567890, false),
        (0xabcdef1234567890, 0xabcdef1234567890)
    );
}

#[test]
fn test_amo_64_sc_d() {
    assert_eq!(
        execute_amo_64(0x1841b2af, 0x1000, 0xabcdef1234567890, 0x1122334455667788, true),
        (0x0, 0x1122334455667788)
    );
}

#[test]
fn test_amo_64_sc_d_fail() {
    assert_eq!(
        execute_amo_64(0x1841b2af, 0x1000, 0xabcdef1234567890, 0x1122334455667788, false),
        (0x1, 0xabcdef1234567890)
    );
}

#[test]
fn test_amo_64_amoswap_d() {
    assert_eq!(
        execute_amo_64(0x0841b2af, 0x1000, 0xabcdef1234567890, 0x1122334455667788, false),
        (0xabcdef1234567890, 0x1122334455667788)
    );
}

#[test]
fn test_amo_64_amoadd_d() {
    assert_eq!(
        execute_amo_64(0x0041b2af, 0x1000, 0xabcdef1234567890, 0x1122334455667788, false),
        (0xabcdef1234567890, 0xbcf0225689bcf018)
    );
}

#[test]
fn test_amo_64_amoxor_d() {
    assert_eq!(
        execute_amo_64(0x2041b2af, 0x1000, 0xabcdef1234567890, 0x1122334455667788, false),
        (0xabcdef1234567890, 0xbaefdc5661300f18)
    );
}

#[test]
fn test_amo_64_amoor_d() {
    assert_eq!(
        execute_amo_64(0x4041b2af, 0x1000, 0xabcdef1234567890, 0x1122334455667788, false),
        (0xabcdef1234567890, 0xbbefff5675767f98)
    );
}

#[test]
fn test_amo_64_amoand_d() {
    assert_eq!(
        execute_amo_64(0x6041b2af, 0x1000, 0xabcdef1234567890, 0x1122334455667788, false),
        (0xabcdef1234567890, 0x100230014467080)
    );
}

#[test]
fn test_amo_64_amomin_d() {
    assert_eq!(
        execute_amo_64(0x8041b2af, 0x1000, 0x8000000000000000, 0x1, false),
        (0x8000000000000000, 0x8000000000000000)
    );
}

#[test]
fn test_amo_64_amomax_d() {
    assert_eq!(
        execute_amo_64(0xa041b2af, 0x1000, 0x1, 0x2, false),
        (0x1, 0x2)
    );
}

#[test]
fn test_amo_64_amominu_d() {
    assert_eq!(
        execute_amo_64(0xc041b2af, 0x1000, 0x8000000000000000, 0x1, false),
        (0x8000000000000000, 0x1)
    );
}

#[test]
fn test_amo_64_amomaxu_d() {
    assert_eq!(
        execute_amo_64(0xe041b2af, 0x1000, 0x1, 0x8000000000000000, false),
        (0x1, 0x8000000000000000)
    );
}

fn execute_misaligned(instr: u32, addr: u64, rs2: u64) -> Result<(), Exception> {
    let mut cpu = RV64CPUContext::new(0x1000);
    let mut memory = MemoryManagementUnit::new(16384);
    cpu.set_register(3, addr);
    cpu.set_register(4, rs2);
    let instr_fn = RV64InstructionParser::parse(instr);
    let result = instr_fn.call(&mut cpu, &mut memory, instr);
    assert_eq!(cpu.read_register(5), 0);
    assert_eq!(memory.read_double_word(0x1000), Ok(0));
    result
}

#[test]
fn test_amo_misaligned_w() {
    let result = execute_misaligned(0x0041a2af, 0x1001, 24);
    assert!(result.is_err(), "expected misaligned exception but got success");
    assert!(matches!(result.unwrap_err(), Exception::LoadAddressMisaligned));
}

#[test]
fn test_amo_misaligned_d() {
    let result = execute_misaligned(0x0041b2af, 0x1004, 0x1122334455667788);
    assert!(result.is_err(), "expected misaligned exception but got success");
    assert!(matches!(result.unwrap_err(), Exception::LoadAddressMisaligned));
}

#[test]
fn misaligned_load_reserved_and_store_conditional_trap() {
    for instr in [0x1001a2afu32, 0x1841a2af] {
        assert_eq!(execute_misaligned(instr, 0x1002, 0), Err(Exception::LoadAddressMisaligned));
    }
    for instr in [0x1001b2afu32, 0x1841b2af] {
        assert_eq!(execute_misaligned(instr, 0x1004, 0), Err(Exception::LoadAddressMisaligned));
    }
}

#[test]
fn word_atomics_sign_extend_what_they_loaded() {
    // AMOMAXU.W and AMOMINU.W on a word with its top bit set
    assert_eq!(
        execute_amo_32(0xe041a2af, 0x1000, 0x8000_0001, 5, false),
        (0xffff_ffff_8000_0001, 0x8000_0001)
    );
    assert_eq!(execute_amo_32(0xc041a2af, 0x1000, 0x8000_0001, 5, false), (0xffff_ffff_8000_0001, 5));
    // LR.W
    assert_eq!(
        execute_amo_32(0x1001a2af, 0x1000, 0xffff_fffe, 0, false),
        (0xffff_ffff_ffff_fffe, 0xffff_fffe)
    );
    // AMOADD.W wraps in 32 bits
    assert_eq!(execute_amo_32(0x0041a2af, 0x1000, 0xffff_ffff, 2, false), (u64::MAX, 1));
}

#[test]
fn an_atomic_outside_memory_faults() {
    let mut cpu = RV64CPUContext::new(0x1000);
    let mut memory = MemoryManagementUnit::new(1024);
    cpu.set_register(3, 0x1000);
    cpu.set_register(4, 1);
    let lr = 0x1001a2af;
    assert_eq!(
        RV64InstructionParser::parse(lr).call(&mut cpu, &mut memory, lr),
        Err(Exception::LoadAccessFault)
    );
    assert!(!memory.check_reservation(0, 0x1000));
    let amoadd = 0x0041a2af;
    assert_eq!(
        RV64InstructionParser::parse(amoadd).call(&mut cpu, &mut memory, amoadd),
        Err(Exception::StoreAccessFault)
    );
    // a store-conditional without a reservation only reports failure
    let sc = 0x1841a2af;
    assert_eq!(RV64InstructionParser::parse(sc).call(&mut cpu, &mut memory, sc), Ok(()));
    assert_eq!(cpu.read_register(5), 1);
    // with one it faults, and the reservation stays
    memory.set_reservation(0, 0x1000);
    assert_eq!(
        RV64InstructionParser::parse(sc).call(&mut cpu, &mut memory, sc),
        Err(Exception::StoreAccessFault)
    );
    assert!(memory.check_reservation(0, 0x1000));
}

#[test]
fn a_store_conditional_clears_every_reservation_on_its_address() {
    let mut cpu = RV64CPUContext::new(0x1000);
    let mut memory = MemoryManagementUnit::new(16384);
    cpu.set_hart_id(2);
    cpu.set_register(3, 0x1000);
    cpu.set_register(4, 9);
    memory.set_reservation(1, 0x1000);
    memory.set_reservation(2, 0x1000);
    memory.set_reservation(3, 0x2000);
    let sc = 0x1841b2af;
    assert_eq!(RV64InstructionParser::parse(sc).call(&mut cpu, &mut memory, sc), Ok(()));
    assert_eq!(cpu.read_register(5), 0);
    assert_eq!(memory.read_double_word(0x1000), Ok(9));
    assert!(!memory.check_reservation(1, 0x1000));
    assert!(!memory.check_reservation(2, 0x1000));
    assert!(memory.check_reservation(3, 0x2000));
    // the second attempt fails
    assert_eq!(RV64InstructionParser::parse(sc).call(&mut cpu, &mut memory, sc), Ok(()));
    assert_eq!(cpu.read_register(5), 1);
}

#[test]
fn a_reservation_of_another_hart_does_not_count() {
    let mut cpu = RV64CPUContext::new(0x1000);
    let mut memory = MemoryManagementUnit::new(16384);
    cpu.set_register(3, 0x1000);
    cpu.set_register(4, 9);
    memory.set_reservation(1, 0x1000);
    let sc = 0x1841a2af;
    assert_eq!(RV64InstructionParser::parse(sc).call(&mut cpu, &mut memory, sc), Ok(()));
    assert_eq!(cpu.read_register(5), 1);
    assert_eq!(memory.read_word(0x1000), Ok(0));
    assert!(memory.check_reservation(1, 0x1000));
}

#[test]
fn unknown_atomics_are_illegal() {
    let mut cpu = RV64CPUContext::new(0x1000);
    let mut memory = MemoryManagementUnit::new(1024);
    for instr in [0x0041_92afu32, 0x2841_a2af, 0xf841_b2af] {
        assert_eq!(
            RV64InstructionParser::parse(instr).call(&mut cpu, &mut memory, instr),
            Err(Exception::IllegalInstruction)
        );
    }
}
