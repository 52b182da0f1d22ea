use rv64_emulator::emulator::instructions::rv64::RV64InstructionParser;
use rv64_emulator::emulator::state::memory::MemoryManagementUnit;
use rv64_emulator::emulator::state::rv64_cpu_context::{Exception, RV64CPUContext};

fn execute_jump(instr: u32, rs1: u64, rs2: u64) -> RV64CPUContext {
    let mut cpu = RV64CPUContext::new(0x1000);
    let mut memory = MemoryManagementUnit::new(1024);
    cpu.set_register(3, rs1);
    cpu.set_register(4, rs2);
    let instr_fn = RV64InstructionParser::parse(instr);
    let instr_result: Result<(), Exception> = instr_fn.call(&mut cpu, &mut memory, instr);
    assert!(instr_result.is_ok(), "exception {:?}", instr_result);
    cpu
}

#[test]
fn test_jump_branch_jal() {
    assert_eq!(execute_jump(0x002002ef, 0x0, 0x0).pc(), 0x1002);
}

#[test]
fn test_jump_branch_jalr() {
    assert_eq!(execute_jump(0x002182e7, 0x1020, 0x0).pc(), 0x1022);
}

#[test]
fn test_jump_branch_beq() {
    assert_eq!(execute_jump(0x0c418463, 0x1, 0x1).pc(), 0x10c8);
}

#[test]
fn test_jump_branch_beq_2() {
    assert_eq!(execute_jump(0x0c418463, 0x1, 0x2).pc(), 0x1000);
}

#[test]
fn test_jump_branch_bne() {
    assert_eq!(execute_jump(0x0c419463, 0x1020, 0x0).pc(), 0x10c8);
}

#[test]
fn test_jump_branch_bge() {
    assert_eq!(execute_jump(0x0c41d463, 0x1020, 0x0).pc(), 0x10c8);
}

#[test]
fn test_jump_branch_bge_2() {
    assert_eq!(execute_jump(0x0c41d463, 0x0, 0x1020).pc(), 0x1000);
}

#[test]
fn test_jump_branch_bgeu() {
    assert_eq!(execute_jump(0x0c419463, 0x8000000000000000, 0x1020).pc(), 0x10c8);
}

#[test]
fn test_jump_branch_blt() {
    assert_eq!(execute_jump(0x0c41c463, 0x1020, 0x0).pc(), 0x1000);
}

#[test]
fn test_jump_branch_bltu() {
    assert_eq!(execute_jump(0x0c41e463, 0x1020, 0x8000000000000000).pc(), 0x10c8);
}

#[test]
fn jalr_clears_bit_zero_and_links() {
    // JALR x5, 3(x3)
    let cpu = execute_jump(0x003182e7, 0x2000, 0);
    assert_eq!(cpu.pc(), 0x2002);
    assert_eq!(cpu.read_register(5), 0x1004);
}

#[test]
fn jalr_reads_rs1_before_it_links_the_same_register() {
    // JALR x3, 8(x3)
    let cpu = execute_jump(0x008181e7, 0x2000, 0);
    assert_eq!(cpu.pc(), 0x2008);
    assert_eq!(cpu.read_register(3), 0x1004);
}

#[test]
fn branches_and_jumps_go_backwards() {
    // BEQ x3, x4, -8
    assert_eq!(execute_jump(0xfe418ce3, 5, 5).pc(), 0x0ff8);
    // JAL x5, -4
    assert_eq!(execute_jump(0xffdff2ef, 0, 0).pc(), 0x0ffc);
    // BGEU x3, x4, -4096
    assert_eq!(execute_jump(0x8041f063, 9, 9).pc(), 0x0000);
}

#[test]
fn signed_and_unsigned_branches_differ_across_the_sign_bit() {
    let negative = 0xffff_ffff_ffff_fff0u64;
    // BLT taken, BLTU not
    assert_eq!(execute_jump(0x0c41c463, negative, 1).pc(), 0x10c8);
    assert_eq!(execute_jump(0x0c41e463, negative, 1).pc(), 0x1000);
    // BGE not taken, BGEU taken
    assert_eq!(execute_jump(0x0c41d463, negative, 1).pc(), 0x1000);
    assert_eq!(execute_jump(0x0c41f463, negative, 1).pc(), 0x10c8);
}

#[test]
fn branches_on_equal_operands() {
    for a in [0u64, 0x8000_0000_0000_0000, u64::MAX] {
        assert_eq!(execute_jump(0x0c41c463, a, a).pc(), 0x1000);
        assert_eq!(execute_jump(0x0c41e463, a, a).pc(), 0x1000);
        assert_eq!(execute_jump(0x0c41d463, a, a).pc(), 0x10c8);
        assert_eq!(execute_jump(0x0c41f463, a, a).pc(), 0x10c8);
    }
}

#[test]
fn unknown_branch_conditions_are_illegal() {
    let mut cpu = RV64CPUContext::new(0x1000);
    let mut memory = MemoryManagementUnit::new(1024);
    for instr in [0x0c41a463u32, 0x0c41b463] {
        assert_eq!(
            RV64InstructionParser::parse(instr).call(&mut cpu, &mut memory, instr),
            Err(Exception::IllegalInstruction)
        );
    }
}
