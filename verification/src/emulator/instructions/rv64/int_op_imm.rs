use crate::emulator::instructions::arith::{
    low32, low_word, sext32, shift_right_arithmetic, shift_right_arithmetic_word,
    sign_extend_word, signed64, signed_less_than, sra32, sra64, wrap32, wrap64,
};
use crate::emulator::instructions::{
    funct3, funct3_of, InstructionFn, ParsableInstructionGroup,
};
use crate::emulator::state::rv64_cpu_context::{Exception, RV64CPUContext};
use vstd::prelude::*;

verus! {

/// The opcode of the register-immediate integer operations.
pub const OP_IMM_OPCODE: u8 = 0x13;

/// The opcode of the register-immediate operations on the low 32 bits.
pub const OP_IMM_32_OPCODE: u8 = 0x1B;

/// The opcode of `LUI`.
pub const LUI_OPCODE: u8 = 0x37;

/// The opcode of `AUIPC`.
pub const AUIPC_OPCODE: u8 = 0x17;

/// The register-immediate integer operations.
pub struct IntOpImmOpcodeGroup {}

/// The register-immediate operations on the low 32 bits.
pub struct IntOpImm32OpcodeGroup {}

/// `LUI`.
pub struct LuiOpcodeGroup {}

/// `AUIPC`.
pub struct AuipcOpcodeGroup {}

/// Whether bit 10 of a shift immediate is set: the mark of an arithmetic
/// right shift.
pub open spec fn is_arithmetic_shift(imm: u64) -> bool {
    (imm / 0x400) % 2 == 1
}

/// What a register-immediate operation writes to its destination, given
/// the value `a` of `rs1` and the immediate.
///
/// The 64-bit shifts take their amount from the low six bits of the
/// immediate, the 32-bit shifts from its low five bits; a right shift is
/// arithmetic where bit 10 of the immediate is set; the `W` forms work on
/// the low 32 bits and sign-extend the 32-bit result.
pub open spec fn int_op_imm_value(op: InstructionFn, a: u64, imm: u64) -> u64 {
    match op {
        InstructionFn::Addi => wrap64(a + imm),
        InstructionFn::Xori => a ^ imm,
        InstructionFn::Ori => a | imm,
        InstructionFn::Andi => a & imm,
        InstructionFn::Slli => a << (imm % 64),
        InstructionFn::SrliSrai => if is_arithmetic_shift(imm) {
            sra64(a, imm % 64)
        } else {
            a >> (imm % 64)
        },
        InstructionFn::Slti => if signed64(a) < signed64(imm) {
            1
        } else {
            0
        },
        InstructionFn::Sltiu => if a < imm {
            1
        } else {
            0
        },
        InstructionFn::Addiw => sext32(wrap32(low32(a) + low32(imm))),
        InstructionFn::Slliw => sext32(low32(a) << ((imm % 32) as u32)),
        InstructionFn::SrliwSraiw => if is_arithmetic_shift(imm) {
            sext32(sra32(low32(a), (imm % 32) as u32))
        } else {
            sext32(low32(a) >> ((imm % 32) as u32))
        },
        _ => 0,
    }
}

/// `ADDI`: the sum of `rs1` and the immediate, modulo 2^64.
pub fn exec_addi(cpu_context: &mut RV64CPUContext, instr: u32, rd: u8, rs1: u8, imm: u64) -> (r:
    Result<(), Exception>)
    requires
        old(cpu_context).wf(),
        rs1 < 32,
    ensures
        r == Ok::<(), Exception>(()),
        final(cpu_context).wf(),
        final(cpu_context)@ == old(cpu_context)@.set_x(
            rd as int,
            int_op_imm_value(InstructionFn::Addi, old(cpu_context)@.x[rs1 as int], imm),
        ),
{
    let a = cpu_context.read_register(rs1 as usize);
    let result = a.wrapping_add(imm);
    cpu_context.set_register(rd as usize, result);
    Ok(())
}

/// `XORI`: the bitwise exclusive or of `rs1` and the immediate.
pub fn exec_xori(cpu_context: &mut RV64CPUContext, instr: u32, rd: u8, rs1: u8, imm: u64) -> (r:
    Result<(), Exception>)
    requires
        old(cpu_context).wf(),
        rs1 < 32,
    ensures
        r == Ok::<(), Exception>(()),
        final(cpu_context).wf(),
        final(cpu_context)@ == old(cpu_context)@.set_x(
            rd as int,
            int_op_imm_value(InstructionFn::Xori, old(cpu_context)@.x[rs1 as int], imm),
        ),
{
    let a = cpu_context.read_register(rs1 as usize);
    let result = a ^ imm;
    cpu_context.set_register(rd as usize, result);
    Ok(())
}

/// `ORI`: the bitwise or of `rs1` and the immediate.
pub fn exec_ori(cpu_context: &mut RV64CPUContext, instr: u32, rd: u8, rs1: u8, imm: u64) -> (r:
    Result<(), Exception>)
    requires
        old(cpu_context).wf(),
        rs1 < 32,
    ensures
        r == Ok::<(), Exception>(()),
        final(cpu_context).wf(),
        final(cpu_context)@ == old(cpu_context)@.set_x(
            rd as int,
            int_op_imm_value(InstructionFn::Ori, old(cpu_context)@.x[rs1 as int], imm),
        ),
{
    let a = cpu_context.read_register(rs1 as usize);
    let result = a | imm;
    cpu_context.set_register(rd as usize, result);
    Ok(())
}

/// `ANDI`: the bitwise and of `rs1` and the immediate.
pub fn exec_andi(cpu_context: &mut RV64CPUContext, instr: u32, rd: u8, rs1: u8, imm: u64) -> (r:
    Result<(), Exception>)
    requires
        old(cpu_context).wf(),
        rs1 < 32,
    ensures
        r == Ok::<(), Exception>(()),
        final(cpu_context).wf(),
        final(cpu_context)@ == old(cpu_context)@.set_x(
            rd as int,
            int_op_imm_value(InstructionFn::Andi, old(cpu_context)@.x[rs1 as int], imm),
        ),
{
    let a = cpu_context.read_register(rs1 as usize);
    let result = a & imm;
    cpu_context.set_register(rd as usize, result);
    Ok(())
}

/// `SLLI`: `rs1` shifted left by the low six bits of the immediate.
pub fn exec_slli(cpu_context: &mut RV64CPUContext, instr: u32, rd: u8, rs1: u8, imm: u64) -> (r:
    Result<(), Exception>)
    requires
        old(cpu_context).wf(),
        rs1 < 32,
    ensures
        r == Ok::<(), Exception>(()),
        final(cpu_context).wf(),
        final(cpu_context)@ == old(cpu_context)@.set_x(
            rd as int,
            int_op_imm_value(InstructionFn::Slli, old(cpu_context)@.x[rs1 as int], imm),
        ),
{
    let a = cpu_context.read_register(rs1 as usize);
    let shift = imm % 64;
    if shift >= 64 {
        return Err(Exception::IllegalInstruction);
    }
    let result = a << shift;
    cpu_context.set_register(rd as usize, result);
    Ok(())
}

/// `SRLI` and `SRAI`: `rs1` shifted right by the low six bits of the immediate; bit 10 of the immediate selects the arithmetic shift.
pub fn exec_srli_srai(cpu_context: &mut RV64CPUContext, instr: u32, rd: u8, rs1: u8, imm: u64) -> (r:
    Result<(), Exception>)
    requires
        old(cpu_context).wf(),
        rs1 < 32,
    ensures
        r == Ok::<(), Exception>(()),
        final(cpu_context).wf(),
        final(cpu_context)@ == old(cpu_context)@.set_x(
            rd as int,
            int_op_imm_value(InstructionFn::SrliSrai, old(cpu_context)@.x[rs1 as int], imm),
        ),
{
    let a = cpu_context.read_register(rs1 as usize);
    let shift = imm % 64;
    if shift >= 64 {
        return Err(Exception::IllegalInstruction);
    }
    let is_arith = (imm / 0x400) % 2 == 1;
    let result = if !is_arith {
        a >> shift
    } else {
        shift_right_arithmetic(a, shift)
    };
    cpu_context.set_register(rd as usize, result);
    Ok(())
}

/// `SLTI`: 1 where `rs1` is below the immediate as signed numbers, else 0.
pub fn exec_slti(cpu_context: &mut RV64CPUContext, instr: u32, rd: u8, rs1: u8, imm: u64) -> (r:
    Result<(), Exception>)
    requires
        old(cpu_context).wf(),
        rs1 < 32,
    ensures
        r == Ok::<(), Exception>(()),
        final(cpu_context).wf(),
        final(cpu_context)@ == old(cpu_context)@.set_x(
            rd as int,
            int_op_imm_value(InstructionFn::Slti, old(cpu_context)@.x[rs1 as int], imm),
        ),
{
    let a = cpu_context.read_register(rs1 as usize);
    let result: u64 = if signed_less_than(a, imm) {
        1
    } else {
        0
    };
    cpu_context.set_register(rd as usize, result);
    Ok(())
}

/// `SLTIU`: 1 where `rs1` is below the immediate as unsigned numbers, else 0.
pub fn exec_sltiu(cpu_context: &mut RV64CPUContext, instr: u32, rd: u8, rs1: u8, imm: u64) -> (r:
    Result<(), Exception>)
    requires
        old(cpu_context).wf(),
        rs1 < 32,
    ensures
        r == Ok::<(), Exception>(()),
        final(cpu_context).wf(),
        final(cpu_context)@ == old(cpu_context)@.set_x(
            rd as int,
            int_op_imm_value(InstructionFn::Sltiu, old(cpu_context)@.x[rs1 as int], imm),
        ),
{
    let a = cpu_context.read_register(rs1 as usize);
    let result: u64 = if a < imm {
        1
    } else {
        0
    };
    cpu_context.set_register(rd as usize, result);
    Ok(())
}

/// `ADDIW`: the sum of the low words of `rs1` and the immediate, sign-extended.
pub fn exec_addiw(cpu_context: &mut RV64CPUContext, instr: u32, rd: u8, rs1: u8, imm: u64) -> (r:
    Result<(), Exception>)
    requires
        old(cpu_context).wf(),
        rs1 < 32,
    ensures
        r == Ok::<(), Exception>(()),
        final(cpu_context).wf(),
        final(cpu_context)@ == old(cpu_context)@.set_x(
            rd as int,
            int_op_imm_value(InstructionFn::Addiw, old(cpu_context)@.x[rs1 as int], imm),
        ),
{
    let a = cpu_context.read_register(rs1 as usize);
    let result = sign_extend_word(low_word(a).wrapping_add(low_word(imm)));
    cpu_context.set_register(rd as usize, result);
    Ok(())
}

/// `SLLIW`: the low word of `rs1` shifted left by the low five bits of the immediate, sign-extended.
pub fn exec_slliw(cpu_context: &mut RV64CPUContext, instr: u32, rd: u8, rs1: u8, imm: u64) -> (r:
    Result<(), Exception>)
    requires
        old(cpu_context).wf(),
        rs1 < 32,
    ensures
        r == Ok::<(), Exception>(()),
        final(cpu_context).wf(),
        final(cpu_context)@ == old(cpu_context)@.set_x(
            rd as int,
            int_op_imm_value(InstructionFn::Slliw, old(cpu_context)@.x[rs1 as int], imm),
        ),
{
    let a = cpu_context.read_register(rs1 as usize);
    let result = sign_extend_word(low_word(a) << ((imm % 32) as u32));
    cpu_context.set_register(rd as usize, result);
    Ok(())
}

/// `SRLIW` and `SRAIW`: the low word of `rs1` shifted right by the low five bits of the immediate, sign-extended; bit 10 of the immediate selects the arithmetic shift.
pub fn exec_srliw_sraiw(cpu_context: &mut RV64CPUContext, instr: u32, rd: u8, rs1: u8, imm: u64) -> (r:
    Result<(), Exception>)
    requires
        old(cpu_context).wf(),
        rs1 < 32,
    ensures
        r == Ok::<(), Exception>(()),
        final(cpu_context).wf(),
        final(cpu_context)@ == old(cpu_context)@.set_x(
            rd as int,
            int_op_imm_value(InstructionFn::SrliwSraiw, old(cpu_context)@.x[rs1 as int], imm),
        ),
{
    let a = cpu_context.read_register(rs1 as usize);
    let shift = (imm % 32) as u32;
    let is_arith = (imm / 0x400) % 2 == 1;
    let result = if !is_arith {
        sign_extend_word(low_word(a) >> shift)
    } else {
        sign_extend_word(shift_right_arithmetic_word(low_word(a), shift))
    };
    cpu_context.set_register(rd as usize, result);
    Ok(())
}

/// `LUI`: writes the upper immediate to `rd`.
pub fn exec_lui(cpu_context: &mut RV64CPUContext, instr: u32, rd: u8, imm: u64) -> (r: Result<
    (),
    Exception,
>)
    requires
        old(cpu_context).wf(),
    ensures
        r == Ok::<(), Exception>(()),
        final(cpu_context).wf(),
        final(cpu_context)@ == old(cpu_context)@.set_x(rd as int, imm),
{
    cpu_context.set_register(rd as usize, imm);
    Ok(())
}

/// `AUIPC`: writes the sum of the program counter and the upper
/// immediate, modulo 2^64, to `rd`.
pub fn exec_auipc(cpu_context: &mut RV64CPUContext, instr: u32, rd: u8, imm: u64) -> (r: Result<
    (),
    Exception,
>)
    requires
        old(cpu_context).wf(),
    ensures
        r == Ok::<(), Exception>(()),
        final(cpu_context).wf(),
        final(cpu_context)@ == old(cpu_context)@.set_x(
            rd as int,
            wrap64(old(cpu_context)@.pc + imm),
        ),
{
    let old_pc = cpu_context.pc();
    cpu_context.set_register(rd as usize, old_pc.wrapping_add(imm));
    Ok(())
}

/// The register-immediate operation that `funct3` selects.
pub open spec fn int_op_imm_decoded(funct3: u8) -> InstructionFn {
    if funct3 == 0x0 {
        InstructionFn::Addi
    } else if funct3 == 0x1 {
        InstructionFn::Slli
    } else if funct3 == 0x2 {
        InstructionFn::Slti
    } else if funct3 == 0x3 {
        InstructionFn::Sltiu
    } else if funct3 == 0x4 {
        InstructionFn::Xori
    } else if funct3 == 0x5 {
        InstructionFn::SrliSrai
    } else if funct3 == 0x6 {
        InstructionFn::Ori
    } else if funct3 == 0x7 {
        InstructionFn::Andi
    } else {
        InstructionFn::Illegal
    }
}

/// The 32-bit register-immediate operation that `funct3` selects.
pub open spec fn int_op_imm_32_decoded(funct3: u8) -> InstructionFn {
    if funct3 == 0x0 {
        InstructionFn::Addiw
    } else if funct3 == 0x1 {
        InstructionFn::Slliw
    } else if funct3 == 0x5 {
        InstructionFn::SrliwSraiw
    } else {
        InstructionFn::Illegal
    }
}

impl ParsableInstructionGroup for IntOpImmOpcodeGroup {
    open spec fn decoded(instr: u32) -> InstructionFn {
        int_op_imm_decoded(funct3_of(instr))
    }

    fn parse(instr: u32) -> (decoded: InstructionFn) {
        let funct3 = funct3(instr);
        match funct3 {
            0x0 => InstructionFn::Addi,
            0x4 => InstructionFn::Xori,
            0x6 => InstructionFn::Ori,
            0x7 => InstructionFn::Andi,
            0x1 => InstructionFn::Slli,
            0x5 => InstructionFn::SrliSrai,
            0x2 => InstructionFn::Slti,
            0x3 => InstructionFn::Sltiu,
            _ => InstructionFn::Illegal,
        }
    }
}

impl ParsableInstructionGroup for IntOpImm32OpcodeGroup {
    open spec fn decoded(instr: u32) -> InstructionFn {
        int_op_imm_32_decoded(funct3_of(instr))
    }

    fn parse(instr: u32) -> (decoded: InstructionFn) {
        let funct3 = funct3(instr);
        match funct3 {
            0x0 => InstructionFn::Addiw,
            0x1 => InstructionFn::Slliw,
            0x5 => InstructionFn::SrliwSraiw,
            _ => InstructionFn::Illegal,
        }
    }
}

impl ParsableInstructionGroup for LuiOpcodeGroup {
    open spec fn decoded(instr: u32) -> InstructionFn {
        InstructionFn::Lui
    }

    fn parse(instr: u32) -> (decoded: InstructionFn) {
        InstructionFn::Lui
    }
}

impl ParsableInstructionGroup for AuipcOpcodeGroup {
    open spec fn decoded(instr: u32) -> InstructionFn {
        InstructionFn::Auipc
    }

    fn parse(instr: u32) -> (decoded: InstructionFn) {
        InstructionFn::Auipc
    }
}

} // verus!
