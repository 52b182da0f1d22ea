use rv64_emulator::emulator::instructions::rv64::RV64InstructionParser;
use rv64_emulator::emulator::state::memory::MemoryManagementUnit;
use rv64_emulator::emulator::state::rv64_cpu_context::{Exception, RV64CPUContext};

fn execute_integer(instr: u32, x3: u64, x4: u64) -> u64 {
    let mut cpu = RV64CPUContext::new(0x1000);
    let mut memory = MemoryManagementUnit::new(1024);
    cpu.set_register(3, x3);
    cpu.set_register(4, x4);
    let instr_fn = RV64InstructionParser::parse(instr);
    let instr_result: Result<(), Exception> = instr_fn.call(&mut cpu, &mut memory, instr);
    assert!(instr_result.is_ok(), "exception {:?}", instr_result);
    cpu.read_register(5)
}

fn extend(value: u32) -> u64 {
    value as i32 as i64 as u64
}

#[test]
fn test_integer_ops_add() {
    assert_eq!(execute_integer(0x004182b3, 0x2, 0x2), 0x4);
}

#[test]
fn test_integer_ops_sub() {
    assert_eq!(execute_integer(0x404182b3, 0x4, 0x2), 0x2);
}

#[test]
fn test_integer_ops_xor() {
    assert_eq!(execute_integer(0x0041c2b3, 0x1, 0x1), 0x0);
}

#[test]
fn test_integer_ops_or() {
    assert_eq!(execute_integer(0x0041e2b3, 0x1, 0x2), 0x3);
}

#[test]
fn test_integer_ops_and() {
    assert_eq!(execute_integer(0x0041f2b3, 0x2, 0x1), 0x0);
}

#[test]
fn test_integer_ops_sll() {
    assert_eq!(execute_integer(0x004192b3, 0x2, 0x1), 0x4);
}

#[test]
fn test_integer_ops_srl() {
    assert_eq!(execute_integer(0x0041d2b3, 0x4, 0x1), 0x2);
}

#[test]
fn test_integer_ops_sra() {
    assert_eq!(execute_integer(0x4041d2b3, 0x8000000000000000, 0x1), 0xc000000000000000);
}

#[test]
fn test_integer_ops_slt() {
    assert_eq!(execute_integer(0x0041a2b3, 0x8000000000000000, 0x2), 0x1);
}

#[test]
fn test_integer_ops_sltu() {
    assert_eq!(execute_integer(0x0041b2b3, 0x8000000000000000, 0x2), 0x0);
}

#[test]
fn test_integer_ops_mul() {
    assert_eq!(execute_integer(0x024182b3, 0x7fffffffffffffff, 0x2), 0xfffffffffffffffe);
}

#[test]
fn test_integer_ops_mulh() {
    assert_eq!(execute_integer(0x024192b3, 0xffffffffffffffff, 0x2), 0xffffffffffffffff);
}

#[test]
fn test_integer_ops_mulhu() {
    assert_eq!(execute_integer(0x0241b2b3, 0xffffffffffffffff, 0x2), 0x1);
}

#[test]
fn test_integer_ops_mulhsu() {
    assert_eq!(execute_integer(0x0241a2b3, 0x2, 0xffffffffffffffff), 0x1);
}

#[test]
fn test_integer_ops_32_addw() {
    assert_eq!(execute_integer(0x004182bb, extend(0x2), extend(0x2)), extend(0x4));
}

#[test]
fn test_integer_ops_32_subw() {
    assert_eq!(execute_integer(0x404182bb, extend(0x4), extend(0x2)), extend(0x2));
}

#[test]
fn test_integer_ops_32_sllw() {
    assert_eq!(execute_integer(0x004192bb, extend(0x2), extend(0x1)), extend(0x4));
}

#[test]
fn test_integer_ops_32_srlw() {
    assert_eq!(execute_integer(0x0041d2bb, extend(0x4), extend(0x1)), extend(0x2));
}

#[test]
fn test_integer_ops_32_sraw() {
    assert_eq!(execute_integer(0x4041d2bb, extend(0x80000000), extend(0x1)), extend(0xc0000000));
}

#[test]
fn test_integer_ops_imm_addi() {
    assert_eq!(execute_integer(0x0c818293, 0x2, 0), 0xca);
}

#[test]
fn test_integer_ops_imm_xori() {
    assert_eq!(execute_integer(0x0011c293, 0x1, 0), 0x0);
}

#[test]
fn test_integer_ops_imm_ori() {
    assert_eq!(execute_integer(0x0021e293, 0x1, 0), 0x3);
}

#[test]
fn test_integer_ops_imm_andi() {
    assert_eq!(execute_integer(0x0011f293, 0x2, 0), 0x0);
}

#[test]
fn test_integer_ops_imm_slli() {
    assert_eq!(execute_integer(0x00119293, 0x2, 0), 0x4);
}

#[test]
fn test_integer_ops_imm_srli() {
    assert_eq!(execute_integer(0x0011d293, 0x4, 0), 0x2);
}

#[test]
fn test_integer_ops_imm_srai() {
    assert_eq!(execute_integer(0x4011d293, 0x8000000000000000, 0), 0xc000000000000000);
}

#[test]
fn test_integer_ops_imm_slti() {
    assert_eq!(execute_integer(0x0021a293, 0x8000000000000000, 0), 0x1);
}

#[test]
fn test_integer_ops_imm_sltui() {
    assert_eq!(execute_integer(0x0021b293, 0x8000000000000000, 0), 0x0);
}

#[test]
fn test_integer_ops_imm_32_addiw() {
    assert_eq!(execute_integer(0x0c818293, extend(0x2), 0), extend(0xca));
}

#[test]
fn test_integer_ops_imm_32_slliw() {
    assert_eq!(execute_integer(0x0011929b, extend(0x2), 0), extend(0x4));
}

#[test]
fn test_integer_ops_imm_32_srliw() {
    assert_eq!(execute_integer(0x0011d29b, extend(0x4), 0), extend(0x2));
}

#[test]
fn test_integer_ops_imm_32_sraiw() {
    assert_eq!(execute_integer(0x4011d29b, extend(0x80000000), 0), extend(0xc0000000));
}

#[test]
fn test_lui() {
    assert_eq!(execute_integer(0x000c82b7, 0, 0), 0xc8000);
}

#[test]
fn test_auipc() {
    assert_eq!(execute_integer(0x000c8297, 0, 0), 0xc9000);
}

// ADDIW proper: opcode 0x1B, imm = -1
#[test]
fn addiw_wraps_and_sign_extends() {
    // ADDIW x5, x3, -1 with x3 = 0x1_0000_0000 gives 0xFFFF_FFFF sign-extended
    assert_eq!(execute_integer(0xfff1829b, 0x1_0000_0000, 0), 0xffff_ffff_ffff_ffff);
    // ADDIW x5, x3, 1 with low word 0x7fffffff overflows to the most negative word
    assert_eq!(execute_integer(0x0011829b, 0x7fff_ffff, 0), 0xffff_ffff_8000_0000);
}

#[test]
fn add_wraps_modulo_two_to_the_64() {
    assert_eq!(execute_integer(0x004182b3, u64::MAX, 1), 0);
    assert_eq!(execute_integer(0x404182b3, 0, 1), u64::MAX);
}

#[test]
fn shifts_take_the_low_six_bits_of_rs2() {
    assert_eq!(execute_integer(0x004192b3, 1, 64), 1);
    assert_eq!(execute_integer(0x004192b3, 1, 65), 2);
    assert_eq!(execute_integer(0x004192b3, 1, 63), 0x8000_0000_0000_0000);
    assert_eq!(execute_integer(0x0041d2b3, 0x8000_0000_0000_0000, 63), 1);
    assert_eq!(execute_integer(0x4041d2b3, 0x8000_0000_0000_0000, 63), u64::MAX);
}

#[test]
fn word_shifts_take_the_low_five_bits_of_rs2() {
    assert_eq!(execute_integer(0x004192bb, 1, 32), 1);
    assert_eq!(execute_integer(0x004192bb, 1, 31), 0xffff_ffff_8000_0000);
    assert_eq!(execute_integer(0x0041d2bb, 0xffff_ffff_8000_0000, 31), 1);
    assert_eq!(execute_integer(0x4041d2bb, 0x8000_0000, 31), u64::MAX);
}

#[test]
fn slli_and_srli_take_six_bits_of_the_immediate() {
    // SLLI x5, x3, 63
    assert_eq!(execute_integer(0x03f19293, 1, 0), 0x8000_0000_0000_0000);
    // SRLI x5, x3, 63
    assert_eq!(execute_integer(0x03f1d293, 0x8000_0000_0000_0000, 0), 1);
    // SRAI x5, x3, 63
    assert_eq!(execute_integer(0x43f1d293, 0x8000_0000_0000_0000, 0), u64::MAX);
    // SRAI x5, x3, 32
    assert_eq!(execute_integer(0x4201d293, 0x8000_0000_0000_0000, 0), 0xffff_ffff_8000_0000);
}

#[test]
fn addi_sign_extends_its_immediate() {
    // ADDI x5, x3, -1
    assert_eq!(execute_integer(0xfff18293, 5, 0), 4);
    // SLTIU x5, x3, -1 compares with the largest unsigned number
    assert_eq!(execute_integer(0xfff1b293, 5, 0), 1);
    // SLTI x5, x3, -1
    assert_eq!(execute_integer(0xfff1a293, 5, 0), 0);
}

#[test]
fn division_by_zero_gives_all_ones_and_the_dividend() {
    // DIV x5, x3, x4
    assert_eq!(execute_integer(0x0241c2b3, 77, 0), u64::MAX);
    // REM
    assert_eq!(execute_integer(0x0241e2b3, 77, 0), 77);
    // DIVU
    assert_eq!(execute_integer(0x0241d2b3, 77, 0), u64::MAX);
    // REMU
    assert_eq!(execute_integer(0x0241f2b3, 77, 0), 77);
}

#[test]
fn the_overflowing_division_gives_the_dividend_and_zero() {
    assert_eq!(execute_integer(0x0241c2b3, 0x8000_0000_0000_0000, u64::MAX), 0x8000_0000_0000_0000);
    assert_eq!(execute_integer(0x0241e2b3, 0x8000_0000_0000_0000, u64::MAX), 0);
}

#[test]
fn signed_division_rounds_towards_zero() {
    let minus = |v: i64| v as u64;
    assert_eq!(execute_integer(0x0241c2b3, minus(-7), 2), minus(-3));
    assert_eq!(execute_integer(0x0241e2b3, minus(-7), 2), minus(-1));
    assert_eq!(execute_integer(0x0241c2b3, 7, minus(-2)), minus(-3));
    assert_eq!(execute_integer(0x0241e2b3, 7, minus(-2)), 1);
    assert_eq!(execute_integer(0x0241c2b3, minus(-7), minus(-2)), 3);
    assert_eq!(execute_integer(0x0241e2b3, minus(-7), minus(-2)), minus(-1));
    assert_eq!(execute_integer(0x0241d2b3, minus(-7), 2), 0x7fff_ffff_ffff_fffc);
    assert_eq!(execute_integer(0x0241f2b3, 7, 4), 3);
}

#[test]
fn word_division_works_on_the_low_words_and_sign_extends() {
    // DIVW
    assert_eq!(execute_integer(0x0241c2bb, 0xdead_0000_0000_0007, 0), u64::MAX);
    assert_eq!(execute_integer(0x0241c2bb, 0x8000_0000, 0xffff_ffff), 0xffff_ffff_8000_0000);
    assert_eq!(execute_integer(0x0241c2bb, 0xffff_fff9, 2), 0xffff_ffff_ffff_fffd);
    // DIVUW
    assert_eq!(execute_integer(0x0241d2bb, 7, 0x1_0000_0000), u64::MAX);
    assert_eq!(execute_integer(0x0241d2bb, 0xffff_fffe, 1), 0xffff_ffff_ffff_fffe);
    assert_eq!(execute_integer(0x0241d2bb, 9, 2), 4);
    // REMW
    assert_eq!(execute_integer(0x0241e2bb, 0x1_8000_0001, 0), 0xffff_ffff_8000_0001);
    assert_eq!(execute_integer(0x0241e2bb, 0x8000_0000, 0xffff_ffff), 0);
    assert_eq!(execute_integer(0x0241e2bb, 0xffff_fff9, 2), u64::MAX);
    // REMUW
    assert_eq!(execute_integer(0x0241f2bb, 0x1_8000_0001, 0), 0xffff_ffff_8000_0001);
    assert_eq!(execute_integer(0x0241f2bb, 9, 2), 1);
}

#[test]
fn mulw_takes_the_low_word_of_the_product() {
    assert_eq!(execute_integer(0x024182bb, 0x10000, 0x8000), 0xffff_ffff_8000_0000);
    assert_eq!(execute_integer(0x024182bb, 0xffff_ffff, 0xffff_ffff), 1);
}

#[test]
fn high_products_complete_the_low_product() {
    let pairs: [(u64, u64); 6] = [
        (0xffff_ffff_ffff_ffff, 0xffff_ffff_ffff_ffff),
        (0x8000_0000_0000_0000, 0x8000_0000_0000_0000),
        (0x8000_0000_0000_0000, 3),
        (3, 0x8000_0000_0000_0000),
        (0x1234_5678_9abc_def0, 0xfedc_ba98_7654_3210),
        (0, 0xffff_ffff_ffff_ffff),
    ];
    for (a, b) in pairs {
        let low = execute_integer(0x024182b3, a, b);
        let unsigned = (a as u128) * (b as u128);
        assert_eq!(low, unsigned as u64);
        assert_eq!(execute_integer(0x0241b2b3, a, b), (unsigned >> 64) as u64);
        let signed = (a as i64 as i128) * (b as i64 as i128);
        assert_eq!(execute_integer(0x024192b3, a, b), (signed >> 64) as u64);
        let mixed = (a as i64 as i128).wrapping_mul(b as i128);
        assert_eq!(execute_integer(0x0241a2b3, a, b), (mixed >> 64) as u64);
    }
}

#[test]
fn arithmetic_laws_on_chosen_values() {
    let (a, b, c) = (0xffff_ffff_ffff_fff0u64, 0x20u64, 0x8000_0000_0000_0001u64);
    let add = |x, y| execute_integer(0x004182b3, x, y);
    assert_eq!(add(a, b), add(b, a));
    assert_eq!(add(add(a, b), c), add(a, add(b, c)));
    assert_eq!(execute_integer(0x404182b3, a, a), 0);
    assert_eq!(execute_integer(0x0041c2b3, a, a), 0);
    assert_eq!(execute_integer(0x004192b3, a, 0), a);
    for k in 0..64 {
        assert_eq!(execute_integer(0x4041d2b3, u64::MAX, k), u64::MAX);
    }
}

#[test]
fn comparisons_agree_on_equal_operands() {
    for a in [0u64, 1, 0x7fff_ffff_ffff_ffff, 0x8000_0000_0000_0000, u64::MAX] {
        assert_eq!(execute_integer(0x0041a2b3, a, a), 0);
        assert_eq!(execute_integer(0x0041b2b3, a, a), 0);
    }
}

#[test]
fn a_write_to_x0_is_dropped() {
    let mut cpu = RV64CPUContext::new(0x1000);
    let mut memory = MemoryManagementUnit::new(1024);
    cpu.set_register(3, 2);
    cpu.set_register(4, 2);
    cpu.set_register(0, 99);
    assert_eq!(cpu.read_register(0), 0);
    cpu.set_register(32, 99);
    // ADD x0, x3, x4
    let instr = 0x00418033;
    assert_eq!(RV64InstructionParser::parse(instr).call(&mut cpu, &mut memory, instr), Ok(()));
    assert_eq!(cpu.read_register(0), 0);
    for register in 1..32 {
        let expected = if register == 3 || register == 4 { 2 } else { 0 };
        assert_eq!(cpu.read_register(register), expected);
    }
}

#[test]
fn unknown_encodings_are_illegal() {
    let mut cpu = RV64CPUContext::new(0x1000);
    let mut memory = MemoryManagementUnit::new(1024);
    for instr in [0xffff_ffffu32, 0x0000_0000, 0x0241_92bb, 0x8041_82b3, 0x0041_a2bb, 0x0000_205b] {
        assert_eq!(
            RV64InstructionParser::parse(instr).call(&mut cpu, &mut memory, instr),
            Err(Exception::IllegalInstruction),
            "{:#x}",
            instr
        );
    }
    assert_eq!(cpu.pc(), 0x1000);
}
