use rv64_emulator::emulator::constants::{
    GPR_COUNT, ILEN, SATP_MODE_BARE, SATP_MODE_SV32, SATP_MODE_SV39, SATP_MODE_SV48, XLEN,
};
use rv64_emulator::emulator::instructions::rv64::amo::AtomicOpcodeGroup;
use rv64_emulator::emulator::instructions::rv64::fp::{
    FloatingPointOpcodeGroup, FusedMultiplyAddOpcodeGroup, FusedMultiplySubOpcodeGroup,
    LoadFloatingPointOpcodeGroup, StoreFloatingPointOpcodeGroup,
};
use rv64_emulator::emulator::instructions::rv64::int_op::{IntOp32OpcodeGroup, IntOpOpcodeGroup};
use rv64_emulator::emulator::instructions::rv64::int_op_imm::{
    AuipcOpcodeGroup, IntOpImm32OpcodeGroup, IntOpImmOpcodeGroup, LuiOpcodeGroup,
};
use rv64_emulator::emulator::instructions::rv64::jump_branch::{
    BranchOpcodeGroup, JalOpcodeGroup, JalrOpcodeGroup,
};
use rv64_emulator::emulator::instructions::rv64::load_store::{
    FenceOpcodeGroup, LoadOpcodeGroup, StoreOpcodeGroup,
};
use rv64_emulator::emulator::instructions::rv64::system::SystemOpcodeGroup;
use rv64_emulator::emulator::instructions::rv64::RV64InstructionParser;
use rv64_emulator::emulator::instructions::{
    funct12, funct3, funct5, funct7, opcode, wrap_b_type, wrap_i_type, wrap_i_type_sh,
    wrap_j_type, wrap_r_type, wrap_s_type, wrap_u_type, InstructionFn, ParsableInstructionGroup,
    OPCODE_MASK,
};

#[test]
fn the_constants_of_the_architecture() {
    assert_eq!(XLEN, 64);
    assert_eq!(ILEN, 32);
    assert_eq!(GPR_COUNT, 32);
    assert_eq!(SATP_MODE_BARE, 0);
    assert_eq!(SATP_MODE_SV32, 1);
    assert_eq!(SATP_MODE_SV39, 8);
    assert_eq!(SATP_MODE_SV48, 9);
    assert_eq!(OPCODE_MASK, 0x7f);
}

#[test]
fn the_fields_of_a_word() {
    let instr = 0b1010101_11011_10101_110_01010_0110011u32;
    assert_eq!(opcode(instr), 0b0110011);
    assert_eq!(opcode(instr) as u32, instr & OPCODE_MASK);
    assert_eq!(funct3(instr), 0b110);
    assert_eq!(funct7(instr), 0b1010101);
    assert_eq!(funct5(instr), 0b10101);
    assert_eq!(funct12(instr), 0b1010101_11011);
    let r = wrap_r_type(instr);
    assert_eq!((r.rd, r.rs1, r.rs2), (0b01010, 0b10101, 0b11011));
    let all = wrap_r_type(0xffff_ffff);
    assert_eq!((all.rd, all.rs1, all.rs2), (31, 31, 31));
    assert_eq!(funct7(0xffff_ffff), 0x7f);
    assert_eq!(funct12(0xffff_ffff), 0xfff);
}

#[test]
fn the_i_type_immediate_is_sign_extended() {
    let positive = wrap_i_type(0x7ff18293);
    assert_eq!((positive.rd, positive.rs1, positive.imm), (5, 3, 0x7ff));
    let negative = wrap_i_type(0x80018293);
    assert_eq!(negative.imm, 0xffff_ffff_ffff_f800);
    assert_eq!(wrap_i_type(0xfff18293).imm, u64::MAX);
    assert_eq!(wrap_i_type(0x00018293).imm, 0);
    let shift = wrap_i_type_sh(0xfff18293);
    assert_eq!((shift.rd, shift.rs1, shift.imm), (5, 3, 0xfff));
    assert_eq!(wrap_i_type_sh(0x80018293).imm, 0x800);
}

#[test]
fn the_s_type_immediate_is_sign_extended() {
    // SB x4, 8(x3)
    let store = wrap_s_type(0x00418423);
    assert_eq!((store.rs1, store.rs2, store.imm), (3, 4, 8));
    // imm = 0x7ff
    assert_eq!(wrap_s_type(0x7e418fa3).imm, 0x7ff);
    // imm = -2048
    assert_eq!(wrap_s_type(0x80418023).imm, 0xffff_ffff_ffff_f800);
    // imm = -1
    assert_eq!(wrap_s_type(0xfe418fa3).imm, u64::MAX);
    // bit 30 of the word is bit 10 of the immediate
    assert_eq!(wrap_s_type(0x40418023).imm, 0x400);
}

#[test]
fn the_b_type_immediate_is_put_together_and_sign_extended() {
    let branch = wrap_b_type(0x0c418463);
    assert_eq!((branch.rs1, branch.rs2, branch.imm), (3, 4, 0xc8));
    // each bit of the offset on its own
    assert_eq!(wrap_b_type(0x00000163).imm, 2);
    assert_eq!(wrap_b_type(0x00000863).imm, 16);
    assert_eq!(wrap_b_type(0x02000063).imm, 32);
    assert_eq!(wrap_b_type(0x40000063).imm, 1024);
    assert_eq!(wrap_b_type(0x000000e3).imm, 2048);
    assert_eq!(wrap_b_type(0x80000063).imm, 0xffff_ffff_ffff_f000);
    // all of them: -2
    assert_eq!(wrap_b_type(0xfe000fe3).imm, 0xffff_ffff_ffff_fffe);
}

#[test]
fn the_u_type_immediate_keeps_its_place() {
    let upper = wrap_u_type(0x000c82b7);
    assert_eq!((upper.rd, upper.imm), (5, 0xc8000));
    assert_eq!(wrap_u_type(0xfffff2b7).imm, 0xffff_f000);
    assert_eq!(wrap_u_type(0x00000fb7).imm, 0);
    assert_eq!(wrap_u_type(0x00000fb7).rd, 31);
}

#[test]
fn the_j_type_immediate_is_put_together_and_sign_extended() {
    let jump = wrap_j_type(0x002002ef);
    assert_eq!((jump.rd, jump.imm), (5, 2));
    assert_eq!(wrap_j_type(0x7fe0006f).imm, 0x7fe);
    assert_eq!(wrap_j_type(0x0010006f).imm, 0x800);
    assert_eq!(wrap_j_type(0x0000106f).imm, 0x1000);
    assert_eq!(wrap_j_type(0x000ff06f).imm, 0xff000);
    assert_eq!(wrap_j_type(0x8000006f).imm, 0xffff_ffff_fff0_0000);
    assert_eq!(wrap_j_type(0xfffff06f).imm, 0xffff_ffff_ffff_fffe);
}

fn r_word(opcode: u32, funct3: u32, funct7: u32) -> u32 {
    opcode | (5 << 7) | (funct3 << 12) | (3 << 15) | (4 << 20) | (funct7 << 25)
}

#[test]
fn the_integer_group_decodes_by_funct3_and_funct7() {
    let expected = [
        (0, 0x00, InstructionFn::Add),
        (0, 0x20, InstructionFn::Sub),
        (1, 0x00, InstructionFn::Sll),
        (2, 0x00, InstructionFn::Slt),
        (3, 0x00, InstructionFn::Sltu),
        (4, 0x00, InstructionFn::Xor),
        (5, 0x00, InstructionFn::Srl),
        (5, 0x20, InstructionFn::Sra),
        (6, 0x00, InstructionFn::Or),
        (7, 0x00, InstructionFn::And),
        (0, 0x01, InstructionFn::Mul),
        (1, 0x01, InstructionFn::Mulh),
        (2, 0x01, InstructionFn::Mulhsu),
        (3, 0x01, InstructionFn::Mulhu),
        (4, 0x01, InstructionFn::Div),
        (5, 0x01, InstructionFn::Divu),
        (6, 0x01, InstructionFn::Rem),
        (7, 0x01, InstructionFn::Remu),
    ];
    for funct3 in 0..8u32 {
        for funct7 in 0..128u32 {
            let word = r_word(0x33, funct3, funct7);
            let found = expected.iter().find(|e| e.0 == funct3 && e.1 == funct7);
            let decoded = found.map(|e| e.2).unwrap_or(InstructionFn::Illegal);
            assert_eq!(IntOpOpcodeGroup::parse(word), decoded);
            assert_eq!(RV64InstructionParser::parse(word), decoded);
        }
    }
}

#[test]
fn the_word_group_decodes_by_funct3_and_funct7() {
    let expected = [
        (0, 0x00, InstructionFn::Addw),
        (0, 0x20, InstructionFn::Subw),
        (1, 0x00, InstructionFn::Sllw),
        (5, 0x00, InstructionFn::Srlw),
        (5, 0x20, InstructionFn::Sraw),
        (0, 0x01, InstructionFn::Mulw),
        (4, 0x01, InstructionFn::Divw),
        (5, 0x01, InstructionFn::Divuw),
        (6, 0x01, InstructionFn::Remw),
        (7, 0x01, InstructionFn::Remuw),
    ];
    for funct3 in 0..8u32 {
        for funct7 in 0..128u32 {
            let word = r_word(0x3b, funct3, funct7);
            let found = expected.iter().find(|e| e.0 == funct3 && e.1 == funct7);
            let decoded = found.map(|e| e.2).unwrap_or(InstructionFn::Illegal);
            assert_eq!(IntOp32OpcodeGroup::parse(word), decoded);
            assert_eq!(RV64InstructionParser::parse(word), decoded);
        }
    }
}

#[test]
fn the_immediate_groups_decode_by_funct3() {
    let wide = [
        InstructionFn::Addi,
        InstructionFn::Slli,
        InstructionFn::Slti,
        InstructionFn::Sltiu,
        InstructionFn::Xori,
        InstructionFn::SrliSrai,
        InstructionFn::Ori,
        InstructionFn::Andi,
    ];
    let narrow = [
        InstructionFn::Addiw,
        InstructionFn::Slliw,
        InstructionFn::Illegal,
        InstructionFn::Illegal,
        InstructionFn::Illegal,
        InstructionFn::SrliwSraiw,
        InstructionFn::Illegal,
        InstructionFn::Illegal,
    ];
    for funct3 in 0..8usize {
        let word = r_word(0x13, funct3 as u32, 0x55);
        assert_eq!(IntOpImmOpcodeGroup::parse(word), wide[funct3]);
        assert_eq!(RV64InstructionParser::parse(word), wide[funct3]);
        let word = r_word(0x1b, funct3 as u32, 0x55);
        assert_eq!(IntOpImm32OpcodeGroup::parse(word), narrow[funct3]);
        assert_eq!(RV64InstructionParser::parse(word), narrow[funct3]);
    }
    assert_eq!(LuiOpcodeGroup::parse(0x000c82b7), InstructionFn::Lui);
    assert_eq!(AuipcOpcodeGroup::parse(0x000c8297), InstructionFn::Auipc);
    assert_eq!(RV64InstructionParser::parse(0x000c82b7), InstructionFn::Lui);
    assert_eq!(RV64InstructionParser::parse(0x000c8297), InstructionFn::Auipc);
}

#[test]
fn the_jump_load_and_store_groups_decode_by_funct3() {
    let branches = [
        InstructionFn::Beq,
        InstructionFn::Bne,
        InstructionFn::Illegal,
        InstructionFn::Illegal,
        InstructionFn::Blt,
        InstructionFn::Bge,
        InstructionFn::Bltu,
        InstructionFn::Bgeu,
    ];
    let loads = [
        InstructionFn::LoadByte,
        InstructionFn::LoadHword,
        InstructionFn::LoadWord,
        InstructionFn::LoadDword,
        InstructionFn::LoadByteUnsigned,
        InstructionFn::LoadHwordUnsigned,
        InstructionFn::LoadWordUnsigned,
        InstructionFn::Illegal,
    ];
    let stores = [
        InstructionFn::StoreByte,
        InstructionFn::StoreHalfWord,
        InstructionFn::StoreWord,
        InstructionFn::StoreDword,
        InstructionFn::Illegal,
        InstructionFn::Illegal,
        InstructionFn::Illegal,
        InstructionFn::Illegal,
    ];
    for funct3 in 0..8usize {
        let word = r_word(0x63, funct3 as u32, 0);
        assert_eq!(BranchOpcodeGroup::parse(word), branches[funct3]);
        assert_eq!(RV64InstructionParser::parse(word), branches[funct3]);
        let word = r_word(0x03, funct3 as u32, 0);
        assert_eq!(LoadOpcodeGroup::parse(word), loads[funct3]);
        assert_eq!(RV64InstructionParser::parse(word), loads[funct3]);
        let word = r_word(0x23, funct3 as u32, 0);
        assert_eq!(StoreOpcodeGroup::parse(word), stores[funct3]);
        assert_eq!(RV64InstructionParser::parse(word), stores[funct3]);
    }
    assert_eq!(JalOpcodeGroup::parse(0x002002ef), InstructionFn::Jal);
    assert_eq!(JalrOpcodeGroup::parse(0x002182e7), InstructionFn::Jalr);
    assert_eq!(FenceOpcodeGroup::parse(0x0ff0000f), InstructionFn::Fence);
    assert_eq!(RV64InstructionParser::parse(0x002002ef), InstructionFn::Jal);
    assert_eq!(RV64InstructionParser::parse(0x002182e7), InstructionFn::Jalr);
    assert_eq!(RV64InstructionParser::parse(0x0ff0000f), InstructionFn::Fence);
}

#[test]
fn the_system_group_decodes_by_funct3_and_funct12() {
    assert_eq!(SystemOpcodeGroup::parse(0x00000073), InstructionFn::Ecall);
    assert_eq!(SystemOpcodeGroup::parse(0x00100073), InstructionFn::Ebreak);
    assert_eq!(SystemOpcodeGroup::parse(0x00200073), InstructionFn::Illegal);
    assert_eq!(SystemOpcodeGroup::parse(0x30200073), InstructionFn::Illegal);
    let by_funct3 = [
        InstructionFn::Illegal,
        InstructionFn::Csrrw,
        InstructionFn::Csrrs,
        InstructionFn::Csrrc,
        InstructionFn::Illegal,
        InstructionFn::Csrrwi,
        InstructionFn::Csrrsi,
        InstructionFn::Csrrci,
    ];
    for funct3 in 0..8usize {
        let word = r_word(0x73, funct3 as u32, 0x1a);
        assert_eq!(SystemOpcodeGroup::parse(word), by_funct3[funct3]);
        assert_eq!(RV64InstructionParser::parse(word), by_funct3[funct3]);
    }
}

#[test]
fn the_atomic_group_decodes_by_funct3_and_funct5() {
    let words = [
        (0x02, InstructionFn::LrW, InstructionFn::LrD),
        (0x03, InstructionFn::ScW, InstructionFn::ScD),
        (0x01, InstructionFn::AmoswapW, InstructionFn::AmoswapD),
        (0x00, InstructionFn::AmoaddW, InstructionFn::AmoaddD),
        (0x04, InstructionFn::AmoxorW, InstructionFn::AmoxorD),
        (0x08, InstructionFn::AmoorW, InstructionFn::AmoorD),
        (0x0c, InstructionFn::AmoandW, InstructionFn::AmoandD),
        (0x10, InstructionFn::AmominW, InstructionFn::AmominD),
        (0x14, InstructionFn::AmomaxW, InstructionFn::AmomaxD),
        (0x18, InstructionFn::AmominuW, InstructionFn::AmominuD),
        (0x1c, InstructionFn::AmomaxuW, InstructionFn::AmomaxuD),
    ];
    for funct5 in 0..32u32 {
        let found = words.iter().find(|w| w.0 == funct5);
        // the two ordering bits below funct5 do not matter
        for ordering in 0..4u32 {
            let funct7 = (funct5 << 2) | ordering;
            let word = r_word(0x2f, 2, funct7);
            let decoded = found.map(|w| w.1).unwrap_or(InstructionFn::Illegal);
            assert_eq!(AtomicOpcodeGroup::parse(word), decoded);
            assert_eq!(RV64InstructionParser::parse(word), decoded);
            let word = r_word(0x2f, 3, funct7);
            let decoded = found.map(|w| w.2).unwrap_or(InstructionFn::Illegal);
            assert_eq!(AtomicOpcodeGroup::parse(word), decoded);
            for funct3 in [0u32, 1, 4, 5, 6, 7] {
                assert_eq!(
                    AtomicOpcodeGroup::parse(r_word(0x2f, funct3, funct7)),
                    InstructionFn::Illegal
                );
            }
        }
    }
}

#[test]
fn the_float_groups_decode_by_funct5() {
    let by_funct5 = [
        (0x0, InstructionFn::Fadd),
        (0x1, InstructionFn::Fsub),
        (0x2, InstructionFn::Fmul),
        (0x3, InstructionFn::Fdiv),
        (0x5, InstructionFn::Fminmax),
        (0xb, InstructionFn::Fsqrt),
    ];
    for funct5 in 0..32u32 {
        let word = r_word(0x53, 7, funct5 << 2);
        let found = by_funct5.iter().find(|w| w.0 == funct5);
        let decoded = found.map(|w| w.1).unwrap_or(InstructionFn::Illegal);
        assert_eq!(FloatingPointOpcodeGroup::parse(word), decoded);
        assert_eq!(RV64InstructionParser::parse(word), decoded);
    }
    assert_eq!(LoadFloatingPointOpcodeGroup::parse(0x0001b287), InstructionFn::LoadFp);
    assert_eq!(StoreFloatingPointOpcodeGroup::parse(0x0041b027), InstructionFn::StoreFp);
    assert_eq!(FusedMultiplyAddOpcodeGroup::parse(0x00000043), InstructionFn::Fmadd);
    assert_eq!(FusedMultiplySubOpcodeGroup::parse(0x00000047), InstructionFn::Fmsub);
    assert_eq!(RV64InstructionParser::parse(0x0001b287), InstructionFn::LoadFp);
    assert_eq!(RV64InstructionParser::parse(0x0041b027), InstructionFn::StoreFp);
    assert_eq!(RV64InstructionParser::parse(0x00000043), InstructionFn::Fmadd);
    assert_eq!(RV64InstructionParser::parse(0x00000047), InstructionFn::Fmsub);
}

#[test]
fn unknown_opcodes_decode_to_no_instruction() {
    let known = [
        0x33u32, 0x3b, 0x13, 0x1b, 0x37, 0x17, 0x6f, 0x67, 0x63, 0x03, 0x23, 0x0f, 0x73, 0x2f,
        0x07, 0x27, 0x53, 0x43, 0x47,
    ];
    for opcode in 0..128u32 {
        if !known.contains(&opcode) {
            assert_eq!(RV64InstructionParser::parse(opcode), InstructionFn::Illegal);
            assert_eq!(RV64InstructionParser::parse(0xffff_ff80 | opcode), InstructionFn::Illegal);
        }
    }
}
