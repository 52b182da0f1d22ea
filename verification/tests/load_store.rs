use rv64_emulator::emulator::instructions::rv64::RV64InstructionParser;
use rv64_emulator::emulator::state::memory::MemoryManagementUnit;
use rv64_emulator::emulator::state::rv64_cpu_context::{Exception, RV64CPUContext};

fn execute_load(instr: u32, rs1: u64, load: u64) -> u64 {
    let mut cpu = RV64CPUContext::new(0x1000);
    let mut memory = MemoryManagementUnit::new(16384);
    cpu.set_register(3, rs1);
    assert_eq!(memory.write_double_word(0x1000, load), Ok(()));
    let instr_fn = RV64InstructionParser::parse(instr);
    let instr_result: Result<(), Exception> = instr_fn.call(&mut cpu, &mut memory, instr);
    assert!(instr_result.is_ok(), "exception {:?}", instr_result);
    cpu.read_register(5)
}

#[test]
fn test_load_lb() {
    assert_eq!(execute_load(0x40018283, 0xc00, 0x2), 0x2);
}

#[test]
fn test_load_lh() {
    assert_eq!(execute_load(0x40019283, 0xc00, 0xffff), 0xffffffffffffffff);
}

#[test]
fn test_load_lw() {
    assert_eq!(execute_load(0x4001a283, 0xc00, 0xffffffff), 0xffffffffffffffff);
}

#[test]
fn test_load_ld() {
    assert_eq!(execute_load(0x4001b283, 0xc00, 0xffffffffffffffff), 0xffffffffffffffff);
}

#[test]
fn test_load_lbu() {
    assert_eq!(execute_load(0x4001c283, 0xc00, 0xff), 0xff);
}

#[test]
fn test_load_lhu() {
    assert_eq!(execute_load(0x4001d283, 0xc00, 0xffff), 0xffff);
}

#[test]
fn test_load_lwu() {
    assert_eq!(execute_load(0x4001e283, 0xc00, 0xffffffff), 0xffffffff);
}

#[test]
fn lb_sign_extends_a_negative_byte() {
    assert_eq!(execute_load(0x40018283, 0xc00, 0x80), 0xffff_ffff_ffff_ff80);
    assert_eq!(execute_load(0x40018283, 0xc00, 0x7f), 0x7f);
}

#[test]
fn loads_take_negative_offsets() {
    // LBU x5, -1(x3)
    assert_eq!(execute_load(0xfff1c283, 0x1002, 0xaabb), 0xaa);
    // LW x5, -4(x3)
    assert_eq!(execute_load(0xffc1a283, 0x1008, 0x9234_5678_0000_0000), 0xffff_ffff_9234_5678);
}

#[test]
fn loads_read_little_endian() {
    assert_eq!(execute_load(0x4001e283, 0xc00, 0x0807_0605_0403_0201), 0x0403_0201);
    assert_eq!(execute_load(0x4001d283, 0xc00, 0x0807_0605_0403_0201), 0x0201);
    assert_eq!(execute_load(0x4001b283, 0xc00, 0x0807_0605_0403_0201), 0x0807_0605_0403_0201);
}

fn execute_store(instr: u32, value: u64) -> u64 {
    let mut cpu = RV64CPUContext::new(0x1000);
    let mut memory = MemoryManagementUnit::new(16384);
    cpu.set_register(3, 0x1000);
    cpu.set_register(4, value);
    assert_eq!(memory.write_double_word(0x1008, 0x1111_1111_1111_1111), Ok(()));
    let instr_fn = RV64InstructionParser::parse(instr);
    assert_eq!(instr_fn.call(&mut cpu, &mut memory, instr), Ok(()));
    memory.read_double_word(0x1008).unwrap()
}

#[test]
fn stores_write_the_low_order_bytes() {
    let value = 0x8877_6655_4433_2211;
    // SB x4, 8(x3)
    assert_eq!(execute_store(0x00418423, value), 0x1111_1111_1111_1111 & !0xff | 0x11);
    // SH x4, 8(x3)
    assert_eq!(execute_store(0x00419423, value), 0x1111_1111_1111_2211);
    // SW x4, 8(x3)
    assert_eq!(execute_store(0x0041a423, value), 0x1111_1111_4433_2211);
    // SD x4, 8(x3)
    assert_eq!(execute_store(0x0041b423, value), value);
}

#[test]
fn a_store_takes_a_negative_offset() {
    let mut cpu = RV64CPUContext::new(0x1000);
    let mut memory = MemoryManagementUnit::new(16384);
    cpu.set_register(3, 0x1010);
    cpu.set_register(4, 0xab);
    // SB x4, -16(x3)
    let instr = 0xfe418823;
    assert_eq!(RV64InstructionParser::parse(instr).call(&mut cpu, &mut memory, instr), Ok(()));
    assert_eq!(memory.read_byte(0x1000), Ok(0xab));
}

#[test]
fn an_access_past_the_end_of_memory_faults() {
    let mut cpu = RV64CPUContext::new(0x1000);
    let mut memory = MemoryManagementUnit::new(1024);
    cpu.set_register(4, 7);
    // the last byte is at 1023
    cpu.set_register(3, 1023);
    // LB x5, 0(x3) goes through, LH x5, 0(x3) does not
    let lb = 0x00018283;
    assert_eq!(RV64InstructionParser::parse(lb).call(&mut cpu, &mut memory, lb), Ok(()));
    let lh = 0x00019283;
    assert_eq!(
        RV64InstructionParser::parse(lh).call(&mut cpu, &mut memory, lh),
        Err(Exception::LoadAccessFault)
    );
    cpu.set_register(3, 1021);
    let lw = 0x0001a283;
    assert_eq!(
        RV64InstructionParser::parse(lw).call(&mut cpu, &mut memory, lw),
        Err(Exception::LoadAccessFault)
    );
    cpu.set_register(3, 1017);
    let ld = 0x0001b283;
    assert_eq!(
        RV64InstructionParser::parse(ld).call(&mut cpu, &mut memory, ld),
        Err(Exception::LoadAccessFault)
    );
    cpu.set_register(3, 1016);
    assert_eq!(RV64InstructionParser::parse(ld).call(&mut cpu, &mut memory, ld), Ok(()));
    // stores
    cpu.set_register(3, 1024);
    let sb = 0x00418023;
    assert_eq!(
        RV64InstructionParser::parse(sb).call(&mut cpu, &mut memory, sb),
        Err(Exception::StoreAccessFault)
    );
    cpu.set_register(3, 1020);
    let sd = 0x0041b023;
    assert_eq!(
        RV64InstructionParser::parse(sd).call(&mut cpu, &mut memory, sd),
        Err(Exception::StoreAccessFault)
    );
    assert_eq!(memory.read_word(1020), Ok(0));
    // an address that wraps around
    cpu.set_register(3, u64::MAX);
    assert_eq!(
        RV64InstructionParser::parse(lh).call(&mut cpu, &mut memory, lh),
        Err(Exception::LoadAccessFault)
    );
    assert_eq!(cpu.read_register(5), 0);
}

#[test]
fn unknown_widths_are_illegal() {
    let mut cpu = RV64CPUContext::new(0x1000);
    let mut memory = MemoryManagementUnit::new(1024);
    for instr in [0x0001f283u32, 0x0041c023, 0x0041f023] {
        assert_eq!(
            RV64InstructionParser::parse(instr).call(&mut cpu, &mut memory, instr),
            Err(Exception::IllegalInstruction)
        );
    }
}

#[test]
fn fence_changes_nothing() {
    let mut cpu = RV64CPUContext::new(0x1000);
    let mut memory = MemoryManagementUnit::new(1024);
    cpu.set_register(3, 5);
    // FENCE and FENCE.I
    for instr in [0x0ff0000fu32, 0x0000100f] {
        assert_eq!(RV64InstructionParser::parse(instr).call(&mut cpu, &mut memory, instr), Ok(()));
    }
    assert_eq!(cpu.pc(), 0x1000);
    assert_eq!(cpu.read_register(3), 5);
}
