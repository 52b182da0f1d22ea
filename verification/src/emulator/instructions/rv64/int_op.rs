use crate::emulator::instructions::arith::{
    high_product, low32, low_word, sext32, shift_right_arithmetic, shift_right_arithmetic_word,
    sign_extend_word, signed32, signed64, signed_less_than, signed_quotient, signed_quotient_word,
    signed_remainder, signed_remainder_word,
    sra32, sra64, trunc_div, trunc_rem, wrap32, wrap64,
};
use crate::emulator::instructions::{
    funct3, funct3_of, funct7, funct7_of, InstructionFn, ParsableInstructionGroup,
};
use crate::emulator::state::rv64_cpu_context::{Exception, RV64CPUContext};
use vstd::arithmetic::div_mod::lemma_hoist_over_denominator;
use vstd::prelude::*;

verus! {

/// The opcode of the register-register integer operations.
pub const OP_OPCODE: u8 = 0x33;

/// The opcode of the register-register operations on the low 32 bits.
pub const OP_32_OPCODE: u8 = 0x3B;

/// The register-register integer operations.
pub struct IntOpOpcodeGroup {}

/// The register-register operations on the low 32 bits.
pub struct IntOp32OpcodeGroup {}

/// What a register-register operation writes to its destination, given
/// the values `a` of `rs1` and `b` of `rs2`.
///
/// Sums, differences and products wrap modulo 2^64; shifts take their
/// amount from the low six bits of `b`; the high products are the upper
/// half of the 128-bit product; a division by zero gives all ones and a
/// remainder by zero the dividend; the `W` forms work on the low 32 bits
/// (shift amount: the low five bits of `b`) and sign-extend the 32-bit
/// result.
pub open spec fn int_op_value(op: InstructionFn, a: u64, b: u64) -> u64 {
    match op {
        InstructionFn::Add => wrap64(a + b),
        InstructionFn::Sub => wrap64(a - b),
        InstructionFn::Xor => a ^ b,
        InstructionFn::Or => a | b,
        InstructionFn::And => a & b,
        InstructionFn::Sll => a << (b % 64),
        InstructionFn::Srl => a >> (b % 64),
        InstructionFn::Sra => sra64(a, b % 64),
        InstructionFn::Slt => if signed64(a) < signed64(b) {
            1
        } else {
            0
        },
        InstructionFn::Sltu => if a < b {
            1
        } else {
            0
        },
        InstructionFn::Mul => wrap64(a * b),
        InstructionFn::Mulh => wrap64((signed64(a) * signed64(b)) / 0x1_0000_0000_0000_0000),
        InstructionFn::Mulhsu => wrap64((signed64(a) * b) / 0x1_0000_0000_0000_0000),
        InstructionFn::Mulhu => ((a * b) / 0x1_0000_0000_0000_0000) as u64,
        InstructionFn::Div => if b == 0 {
            0xFFFF_FFFF_FFFF_FFFF
        } else {
            wrap64(trunc_div(signed64(a), signed64(b)))
        },
        InstructionFn::Divu => if b == 0 {
            0xFFFF_FFFF_FFFF_FFFF
        } else {
            a / b
        },
        InstructionFn::Rem => if b == 0 {
            a
        } else {
            wrap64(trunc_rem(signed64(a), signed64(b)))
        },
        InstructionFn::Remu => if b == 0 {
            a
        } else {
            a % b
        },
        InstructionFn::Addw => sext32(wrap32(low32(a) + low32(b))),
        InstructionFn::Subw => sext32(wrap32(low32(a) - low32(b))),
        InstructionFn::Sllw => sext32(low32(a) << ((b % 32) as u32)),
        InstructionFn::Srlw => sext32(low32(a) >> ((b % 32) as u32)),
        InstructionFn::Sraw => sext32(sra32(low32(a), (b % 32) as u32)),
        InstructionFn::Mulw => sext32(wrap32(low32(a) * low32(b))),
        InstructionFn::Divw => if low32(b) == 0 {
            0xFFFF_FFFF_FFFF_FFFF
        } else {
            sext32(wrap32(trunc_div(signed32(low32(a)), signed32(low32(b)))))
        },
        InstructionFn::Divuw => if low32(b) == 0 {
            0xFFFF_FFFF_FFFF_FFFF
        } else {
            sext32(low32(a) / low32(b))
        },
        InstructionFn::Remw => if low32(b) == 0 {
            sext32(low32(a))
        } else {
            sext32(wrap32(trunc_rem(signed32(low32(a)), signed32(low32(b)))))
        },
        InstructionFn::Remuw => if low32(b) == 0 {
            sext32(low32(a))
        } else {
            sext32(low32(a) % low32(b))
        },
        _ => 0,
    }
}

/// The product of two numbers, one or both reduced by 2^64, in terms of
/// the product of the numbers themselves.
proof fn lemma_signed_product(a: int, b: int)
    by (nonlinear_arith)
    ensures
        (a - 0x1_0000_0000_0000_0000) * b == a * b + (-b) * 0x1_0000_0000_0000_0000,
        a * (b - 0x1_0000_0000_0000_0000) == a * b + (-a) * 0x1_0000_0000_0000_0000,
        (a - 0x1_0000_0000_0000_0000) * (b - 0x1_0000_0000_0000_0000) == a * b + (
        0x1_0000_0000_0000_0000 - a - b) * 0x1_0000_0000_0000_0000,
{
}

/// Returns the upper 64 bits of the product of `a` and `b`, `a` read as a
/// two's-complement number and `b` as it stands.
fn high_product_signed_unsigned(a: u64, b: u64) -> (high: u64)
    ensures
        high == int_op_value(InstructionFn::Mulhsu, a, b),
{
    let unsigned = high_product(a, b);
    proof {
        lemma_signed_product(a as int, b as int);
        lemma_hoist_over_denominator(a * b, -(b as int), 0x1_0000_0000_0000_0000);
    }
    if a >= 0x8000_0000_0000_0000 {
        unsigned.wrapping_sub(b)
    } else {
        unsigned
    }
}

/// Returns the upper 64 bits of the product of `a` and `b`, both read as
/// two's-complement numbers.
fn high_product_signed(a: u64, b: u64) -> (high: u64)
    ensures
        high == int_op_value(InstructionFn::Mulh, a, b),
{
    let unsigned = high_product(a, b);
    proof {
        lemma_signed_product(a as int, b as int);
        lemma_hoist_over_denominator(a * b, -(b as int), 0x1_0000_0000_0000_0000);
        lemma_hoist_over_denominator(a * b, -(a as int), 0x1_0000_0000_0000_0000);
        lemma_hoist_over_denominator(
            a * b,
            0x1_0000_0000_0000_0000 - a - b,
            0x1_0000_0000_0000_0000,
        );
    }
    let a_negative = a >= 0x8000_0000_0000_0000;
    let b_negative = b >= 0x8000_0000_0000_0000;
    if a_negative && b_negative {
        unsigned.wrapping_sub(a).wrapping_sub(b)
    } else if a_negative {
        unsigned.wrapping_sub(b)
    } else if b_negative {
        unsigned.wrapping_sub(a)
    } else {
        unsigned
    }
}

/// `ADD`: the sum of `rs1` and `rs2`, modulo 2^64.
pub fn exec_add(cpu_context: &mut RV64CPUContext, instr: u32, rd: u8, rs1: u8, rs2: u8) -> (r:
    Result<(), Exception>)
    requires
        old(cpu_context).wf(),
        rs1 < 32,
        rs2 < 32,
    ensures
        r == Ok::<(), Exception>(()),
        final(cpu_context).wf(),
        final(cpu_context)@ == old(cpu_context)@.set_x(
            rd as int,
            int_op_value(
                InstructionFn::Add,
                old(cpu_context)@.x[rs1 as int],
                old(cpu_context)@.x[rs2 as int],
            ),
        ),
{
    let a = cpu_context.read_register(rs1 as usize);
    let b = cpu_context.read_register(rs2 as usize);
    let result = a.wrapping_add(b);
    cpu_context.set_register(rd as usize, result);
    Ok(())
}

/// `SUB`: the difference of `rs1` and `rs2`, modulo 2^64.
pub fn exec_sub(cpu_context: &mut RV64CPUContext, instr: u32, rd: u8, rs1: u8, rs2: u8) -> (r:
    Result<(), Exception>)
    requires
        old(cpu_context).wf(),
        rs1 < 32,
        rs2 < 32,
    ensures
        r == Ok::<(), Exception>(()),
        final(cpu_context).wf(),
        final(cpu_context)@ == old(cpu_context)@.set_x(
            rd as int,
            int_op_value(
                InstructionFn::Sub,
                old(cpu_context)@.x[rs1 as int],
                old(cpu_context)@.x[rs2 as int],
            ),
        ),
{
    let a = cpu_context.read_register(rs1 as usize);
    let b = cpu_context.read_register(rs2 as usize);
    let result = a.wrapping_sub(b);
    cpu_context.set_register(rd as usize, result);
    Ok(())
}

/// `XOR`: the bitwise exclusive or of `rs1` and `rs2`.
pub fn exec_xor(cpu_context: &mut RV64CPUContext, instr: u32, rd: u8, rs1: u8, rs2: u8) -> (r:
    Result<(), Exception>)
    requires
        old(cpu_context).wf(),
        rs1 < 32,
        rs2 < 32,
    ensures
        r == Ok::<(), Exception>(()),
        final(cpu_context).wf(),
        final(cpu_context)@ == old(cpu_context)@.set_x(
            rd as int,
            int_op_value(
                InstructionFn::Xor,
                old(cpu_context)@.x[rs1 as int],
                old(cpu_context)@.x[rs2 as int],
            ),
        ),
{
    let a = cpu_context.read_register(rs1 as usize);
    let b = cpu_context.read_register(rs2 as usize);
    let result = a ^ b;
    cpu_context.set_register(rd as usize, result);
    Ok(())
}

/// `OR`: the bitwise or of `rs1` and `rs2`.
pub fn exec_or(cpu_context: &mut RV64CPUContext, instr: u32, rd: u8, rs1: u8, rs2: u8) -> (r:
    Result<(), Exception>)
    requires
        old(cpu_context).wf(),
        rs1 < 32,
        rs2 < 32,
    ensures
        r == Ok::<(), Exception>(()),
        final(cpu_context).wf(),
        final(cpu_context)@ == old(cpu_context)@.set_x(
            rd as int,
            int_op_value(
                InstructionFn::Or,
                old(cpu_context)@.x[rs1 as int],
                old(cpu_context)@.x[rs2 as int],
            ),
        ),
{
    let a = cpu_context.read_register(rs1 as usize);
    let b = cpu_context.read_register(rs2 as usize);
    let result = a | b;
    cpu_context.set_register(rd as usize, result);
    Ok(())
}

/// `AND`: the bitwise and of `rs1` and `rs2`.
pub fn exec_and(cpu_context: &mut RV64CPUContext, instr: u32, rd: u8, rs1: u8, rs2: u8) -> (r:
    Result<(), Exception>)
    requires
        old(cpu_context).wf(),
        rs1 < 32,
        rs2 < 32,
    ensures
        r == Ok::<(), Exception>(()),
        final(cpu_context).wf(),
        final(cpu_context)@ == old(cpu_context)@.set_x(
            rd as int,
            int_op_value(
                InstructionFn::And,
                old(cpu_context)@.x[rs1 as int],
                old(cpu_context)@.x[rs2 as int],
            ),
        ),
{
    let a = cpu_context.read_register(rs1 as usize);
    let b = cpu_context.read_register(rs2 as usize);
    let result = a & b;
    cpu_context.set_register(rd as usize, result);
    Ok(())
}

/// `SLL`: `rs1` shifted left by the low six bits of `rs2`.
pub fn exec_sll(cpu_context: &mut RV64CPUContext, instr: u32, rd: u8, rs1: u8, rs2: u8) -> (r:
    Result<(), Exception>)
    requires
        old(cpu_context).wf(),
        rs1 < 32,
        rs2 < 32,
    ensures
        r == Ok::<(), Exception>(()),
        final(cpu_context).wf(),
        final(cpu_context)@ == old(cpu_context)@.set_x(
            rd as int,
            int_op_value(
                InstructionFn::Sll,
                old(cpu_context)@.x[rs1 as int],
                old(cpu_context)@.x[rs2 as int],
            ),
        ),
{
    let a = cpu_context.read_register(rs1 as usize);
    let b = cpu_context.read_register(rs2 as usize);
    let result = a << (b % 64);
    cpu_context.set_register(rd as usize, result);
    Ok(())
}

/// `SRL`: `rs1` shifted right by the low six bits of `rs2`, zeros shifted in.
pub fn exec_srl(cpu_context: &mut RV64CPUContext, instr: u32, rd: u8, rs1: u8, rs2: u8) -> (r:
    Result<(), Exception>)
    requires
        old(cpu_context).wf(),
        rs1 < 32,
        rs2 < 32,
    ensures
        r == Ok::<(), Exception>(()),
        final(cpu_context).wf(),
        final(cpu_context)@ == old(cpu_context)@.set_x(
            rd as int,
            int_op_value(
                InstructionFn::Srl,
                old(cpu_context)@.x[rs1 as int],
                old(cpu_context)@.x[rs2 as int],
            ),
        ),
{
    let a = cpu_context.read_register(rs1 as usize);
    let b = cpu_context.read_register(rs2 as usize);
    let result = a >> (b % 64);
    cpu_context.set_register(rd as usize, result);
    Ok(())
}

/// `SRA`: `rs1` shifted right by the low six bits of `rs2`, the sign bit shifted in.
pub fn exec_sra(cpu_context: &mut RV64CPUContext, instr: u32, rd: u8, rs1: u8, rs2: u8) -> (r:
    Result<(), Exception>)
    requires
        old(cpu_context).wf(),
        rs1 < 32,
        rs2 < 32,
    ensures
        r == Ok::<(), Exception>(()),
        final(cpu_context).wf(),
        final(cpu_context)@ == old(cpu_context)@.set_x(
            rd as int,
            int_op_value(
                InstructionFn::Sra,
                old(cpu_context)@.x[rs1 as int],
                old(cpu_context)@.x[rs2 as int],
            ),
        ),
{
    let a = cpu_context.read_register(rs1 as usize);
    let b = cpu_context.read_register(rs2 as usize);
    let result = shift_right_arithmetic(a, b % 64);
    cpu_context.set_register(rd as usize, result);
    Ok(())
}

/// `SLT`: 1 where `rs1` is below `rs2` as signed numbers, else 0.
pub fn exec_slt(cpu_context: &mut RV64CPUContext, instr: u32, rd: u8, rs1: u8, rs2: u8) -> (r:
    Result<(), Exception>)
    requires
        old(cpu_context).wf(),
        rs1 < 32,
        rs2 < 32,
    ensures
        r == Ok::<(), Exception>(()),
        final(cpu_context).wf(),
        final(cpu_context)@ == old(cpu_context)@.set_x(
            rd as int,
            int_op_value(
                InstructionFn::Slt,
                old(cpu_context)@.x[rs1 as int],
                old(cpu_context)@.x[rs2 as int],
            ),
        ),
{
    let a = cpu_context.read_register(rs1 as usize);
    let b = cpu_context.read_register(rs2 as usize);
    let result: u64 = if signed_less_than(a, b) {
        1
    } else {
        0
    };
    cpu_context.set_register(rd as usize, result);
    Ok(())
}

/// `SLTU`: 1 where `rs1` is below `rs2` as unsigned numbers, else 0.
pub fn exec_sltu(cpu_context: &mut RV64CPUContext, instr: u32, rd: u8, rs1: u8, rs2: u8) -> (r:
    Result<(), Exception>)
    requires
        old(cpu_context).wf(),
        rs1 < 32,
        rs2 < 32,
    ensures
        r == Ok::<(), Exception>(()),
        final(cpu_context).wf(),
        final(cpu_context)@ == old(cpu_context)@.set_x(
            rd as int,
            int_op_value(
                InstructionFn::Sltu,
                old(cpu_context)@.x[rs1 as int],
                old(cpu_context)@.x[rs2 as int],
            ),
        ),
{
    let a = cpu_context.read_register(rs1 as usize);
    let b = cpu_context.read_register(rs2 as usize);
    let result: u64 = if a < b {
        1
    } else {
        0
    };
    cpu_context.set_register(rd as usize, result);
    Ok(())
}

/// `ADDW`: the sum of the low words of `rs1` and `rs2`, sign-extended.
pub fn exec_addw(cpu_context: &mut RV64CPUContext, instr: u32, rd: u8, rs1: u8, rs2: u8) -> (r:
    Result<(), Exception>)
    requires
        old(cpu_context).wf(),
        rs1 < 32,
        rs2 < 32,
    ensures
        r == Ok::<(), Exception>(()),
        final(cpu_context).wf(),
        final(cpu_context)@ == old(cpu_context)@.set_x(
            rd as int,
            int_op_value(
                InstructionFn::Addw,
                old(cpu_context)@.x[rs1 as int],
                old(cpu_context)@.x[rs2 as int],
            ),
        ),
{
    let a = cpu_context.read_register(rs1 as usize);
    let b = cpu_context.read_register(rs2 as usize);
    let result = sign_extend_word(low_word(a).wrapping_add(low_word(b)));
    cpu_context.set_register(rd as usize, result);
    Ok(())
}

/// `SUBW`: the difference of the low words of `rs1` and `rs2`, sign-extended.
pub fn exec_subw(cpu_context: &mut RV64CPUContext, instr: u32, rd: u8, rs1: u8, rs2: u8) -> (r:
    Result<(), Exception>)
    requires
        old(cpu_context).wf(),
        rs1 < 32,
        rs2 < 32,
    ensures
        r == Ok::<(), Exception>(()),
        final(cpu_context).wf(),
        final(cpu_context)@ == old(cpu_context)@.set_x(
            rd as int,
            int_op_value(
                InstructionFn::Subw,
                old(cpu_context)@.x[rs1 as int],
                old(cpu_context)@.x[rs2 as int],
            ),
        ),
{
    let a = cpu_context.read_register(rs1 as usize);
    let b = cpu_context.read_register(rs2 as usize);
    let result = sign_extend_word(low_word(a).wrapping_sub(low_word(b)));
    cpu_context.set_register(rd as usize, result);
    Ok(())
}

/// `SLLW`: the low word of `rs1` shifted left by the low five bits of `rs2`, sign-extended.
pub fn exec_sllw(cpu_context: &mut RV64CPUContext, instr: u32, rd: u8, rs1: u8, rs2: u8) -> (r:
    Result<(), Exception>)
    requires
        old(cpu_context).wf(),
        rs1 < 32,
        rs2 < 32,
    ensures
        r == Ok::<(), Exception>(()),
        final(cpu_context).wf(),
        final(cpu_context)@ == old(cpu_context)@.set_x(
            rd as int,
            int_op_value(
                InstructionFn::Sllw,
                old(cpu_context)@.x[rs1 as int],
                old(cpu_context)@.x[rs2 as int],
            ),
        ),
{
    let a = cpu_context.read_register(rs1 as usize);
    let b = cpu_context.read_register(rs2 as usize);
    let result = sign_extend_word(low_word(a) << ((b % 32) as u32));
    cpu_context.set_register(rd as usize, result);
    Ok(())
}

/// `SRLW`: the low word of `rs1` shifted right by the low five bits of `rs2`, sign-extended.
pub fn exec_srlw(cpu_context: &mut RV64CPUContext, instr: u32, rd: u8, rs1: u8, rs2: u8) -> (r:
    Result<(), Exception>)
    requires
        old(cpu_context).wf(),
        rs1 < 32,
        rs2 < 32,
    ensures
        r == Ok::<(), Exception>(()),
        final(cpu_context).wf(),
        final(cpu_context)@ == old(cpu_context)@.set_x(
            rd as int,
            int_op_value(
                InstructionFn::Srlw,
                old(cpu_context)@.x[rs1 as int],
                old(cpu_context)@.x[rs2 as int],
            ),
        ),
{
    let a = cpu_context.read_register(rs1 as usize);
    let b = cpu_context.read_register(rs2 as usize);
    let result = sign_extend_word(low_word(a) >> ((b % 32) as u32));
    cpu_context.set_register(rd as usize, result);
    Ok(())
}

/// `SRAW`: the low word of `rs1` shifted right arithmetically by the low five bits of `rs2`, sign-extended.
pub fn exec_sraw(cpu_context: &mut RV64CPUContext, instr: u32, rd: u8, rs1: u8, rs2: u8) -> (r:
    Result<(), Exception>)
    requires
        old(cpu_context).wf(),
        rs1 < 32,
        rs2 < 32,
    ensures
        r == Ok::<(), Exception>(()),
        final(cpu_context).wf(),
        final(cpu_context)@ == old(cpu_context)@.set_x(
            rd as int,
            int_op_value(
                InstructionFn::Sraw,
                old(cpu_context)@.x[rs1 as int],
                old(cpu_context)@.x[rs2 as int],
            ),
        ),
{
    let a = cpu_context.read_register(rs1 as usize);
    let b = cpu_context.read_register(rs2 as usize);
    let result = sign_extend_word(shift_right_arithmetic_word(low_word(a), (b % 32) as u32));
    cpu_context.set_register(rd as usize, result);
    Ok(())
}

/// `MUL`: the low 64 bits of the product of `rs1` and `rs2`.
pub fn exec_mul(cpu_context: &mut RV64CPUContext, instr: u32, rd: u8, rs1: u8, rs2: u8) -> (r:
    Result<(), Exception>)
    requires
        old(cpu_context).wf(),
        rs1 < 32,
        rs2 < 32,
    ensures
        r == Ok::<(), Exception>(()),
        final(cpu_context).wf(),
        final(cpu_context)@ == old(cpu_context)@.set_x(
            rd as int,
            int_op_value(
                InstructionFn::Mul,
                old(cpu_context)@.x[rs1 as int],
                old(cpu_context)@.x[rs2 as int],
            ),
        ),
{
    let a = cpu_context.read_register(rs1 as usize);
    let b = cpu_context.read_register(rs2 as usize);
    let result = a.wrapping_mul(b);
    cpu_context.set_register(rd as usize, result);
    Ok(())
}

/// `MULH`: the upper 64 bits of the signed-by-signed product.
pub fn exec_mulh(cpu_context: &mut RV64CPUContext, instr: u32, rd: u8, rs1: u8, rs2: u8) -> (r:
    Result<(), Exception>)
    requires
        old(cpu_context).wf(),
        rs1 < 32,
        rs2 < 32,
    ensures
        r == Ok::<(), Exception>(()),
        final(cpu_context).wf(),
        final(cpu_context)@ == old(cpu_context)@.set_x(
            rd as int,
            int_op_value(
                InstructionFn::Mulh,
                old(cpu_context)@.x[rs1 as int],
                old(cpu_context)@.x[rs2 as int],
            ),
        ),
{
    let a = cpu_context.read_register(rs1 as usize);
    let b = cpu_context.read_register(rs2 as usize);
    let result = high_product_signed(a, b);
    cpu_context.set_register(rd as usize, result);
    Ok(())
}

/// `MULHU`: the upper 64 bits of the unsigned-by-unsigned product.
pub fn exec_mulhu(cpu_context: &mut RV64CPUContext, instr: u32, rd: u8, rs1: u8, rs2: u8) -> (r:
    Result<(), Exception>)
    requires
        old(cpu_context).wf(),
        rs1 < 32,
        rs2 < 32,
    ensures
        r == Ok::<(), Exception>(()),
        final(cpu_context).wf(),
        final(cpu_context)@ == old(cpu_context)@.set_x(
            rd as int,
            int_op_value(
                InstructionFn::Mulhu,
                old(cpu_context)@.x[rs1 as int],
                old(cpu_context)@.x[rs2 as int],
            ),
        ),
{
    let a = cpu_context.read_register(rs1 as usize);
    let b = cpu_context.read_register(rs2 as usize);
    let result = high_product(a, b);
    cpu_context.set_register(rd as usize, result);
    Ok(())
}

/// `MULHSU`: the upper 64 bits of the signed-by-unsigned product.
pub fn exec_mulhsu(cpu_context: &mut RV64CPUContext, instr: u32, rd: u8, rs1: u8, rs2: u8) -> (r:
    Result<(), Exception>)
    requires
        old(cpu_context).wf(),
        rs1 < 32,
        rs2 < 32,
    ensures
        r == Ok::<(), Exception>(()),
        final(cpu_context).wf(),
        final(cpu_context)@ == old(cpu_context)@.set_x(
            rd as int,
            int_op_value(
                InstructionFn::Mulhsu,
                old(cpu_context)@.x[rs1 as int],
                old(cpu_context)@.x[rs2 as int],
            ),
        ),
{
    let a = cpu_context.read_register(rs1 as usize);
    let b = cpu_context.read_register(rs2 as usize);
    let result = high_product_signed_unsigned(a, b);
    cpu_context.set_register(rd as usize, result);
    Ok(())
}

/// `MULW`: the low word of the product of the low words, sign-extended.
pub fn exec_mulw(cpu_context: &mut RV64CPUContext, instr: u32, rd: u8, rs1: u8, rs2: u8) -> (r:
    Result<(), Exception>)
    requires
        old(cpu_context).wf(),
        rs1 < 32,
        rs2 < 32,
    ensures
        r == Ok::<(), Exception>(()),
        final(cpu_context).wf(),
        final(cpu_context)@ == old(cpu_context)@.set_x(
            rd as int,
            int_op_value(
                InstructionFn::Mulw,
                old(cpu_context)@.x[rs1 as int],
                old(cpu_context)@.x[rs2 as int],
            ),
        ),
{
    let a = cpu_context.read_register(rs1 as usize);
    let b = cpu_context.read_register(rs2 as usize);
    let result = sign_extend_word(low_word(a).wrapping_mul(low_word(b)));
    cpu_context.set_register(rd as usize, result);
    Ok(())
}

/// `DIV`: the signed quotient rounded towards zero; all ones where `rs2` is zero, and the dividend where the most negative number is divided by -1.
pub fn exec_div(cpu_context: &mut RV64CPUContext, instr: u32, rd: u8, rs1: u8, rs2: u8) -> (r:
    Result<(), Exception>)
    requires
        old(cpu_context).wf(),
        rs1 < 32,
        rs2 < 32,
    ensures
        r == Ok::<(), Exception>(()),
        final(cpu_context).wf(),
        final(cpu_context)@ == old(cpu_context)@.set_x(
            rd as int,
            int_op_value(
                InstructionFn::Div,
                old(cpu_context)@.x[rs1 as int],
                old(cpu_context)@.x[rs2 as int],
            ),
        ),
{
    let a = cpu_context.read_register(rs1 as usize);
    let b = cpu_context.read_register(rs2 as usize);
    let result = if b == 0 {
        0xFFFF_FFFF_FFFF_FFFF
    } else if a == 0x8000_0000_0000_0000 && b == 0xFFFF_FFFF_FFFF_FFFF {
        a
    } else {
        signed_quotient(a, b)
    };
    cpu_context.set_register(rd as usize, result);
    Ok(())
}

/// `DIVU`: the unsigned quotient; all ones where `rs2` is zero.
pub fn exec_divu(cpu_context: &mut RV64CPUContext, instr: u32, rd: u8, rs1: u8, rs2: u8) -> (r:
    Result<(), Exception>)
    requires
        old(cpu_context).wf(),
        rs1 < 32,
        rs2 < 32,
    ensures
        r == Ok::<(), Exception>(()),
        final(cpu_context).wf(),
        final(cpu_context)@ == old(cpu_context)@.set_x(
            rd as int,
            int_op_value(
                InstructionFn::Divu,
                old(cpu_context)@.x[rs1 as int],
                old(cpu_context)@.x[rs2 as int],
            ),
        ),
{
    let a = cpu_context.read_register(rs1 as usize);
    let b = cpu_context.read_register(rs2 as usize);
    let result = if b == 0 {
        0xFFFF_FFFF_FFFF_FFFF
    } else {
        a / b
    };
    cpu_context.set_register(rd as usize, result);
    Ok(())
}

/// `DIVW`: the signed quotient of the low words, sign-extended; all ones where the divisor is zero.
pub fn exec_divw(cpu_context: &mut RV64CPUContext, instr: u32, rd: u8, rs1: u8, rs2: u8) -> (r:
    Result<(), Exception>)
    requires
        old(cpu_context).wf(),
        rs1 < 32,
        rs2 < 32,
    ensures
        r == Ok::<(), Exception>(()),
        final(cpu_context).wf(),
        final(cpu_context)@ == old(cpu_context)@.set_x(
            rd as int,
            int_op_value(
                InstructionFn::Divw,
                old(cpu_context)@.x[rs1 as int],
                old(cpu_context)@.x[rs2 as int],
            ),
        ),
{
    let a = cpu_context.read_register(rs1 as usize);
    let b = cpu_context.read_register(rs2 as usize);
    let dividend = low_word(a);
    let divisor = low_word(b);
    let result = if divisor == 0 {
        0xFFFF_FFFF_FFFF_FFFF
    } else if dividend == 0x8000_0000 && divisor == 0xFFFF_FFFF {
        sign_extend_word(dividend)
    } else {
        sign_extend_word(signed_quotient_word(dividend, divisor))
    };
    cpu_context.set_register(rd as usize, result);
    Ok(())
}

/// `DIVUW`: the unsigned quotient of the low words, sign-extended; all ones where the divisor is zero.
pub fn exec_divuw(cpu_context: &mut RV64CPUContext, instr: u32, rd: u8, rs1: u8, rs2: u8) -> (r:
    Result<(), Exception>)
    requires
        old(cpu_context).wf(),
        rs1 < 32,
        rs2 < 32,
    ensures
        r == Ok::<(), Exception>(()),
        final(cpu_context).wf(),
        final(cpu_context)@ == old(cpu_context)@.set_x(
            rd as int,
            int_op_value(
                InstructionFn::Divuw,
                old(cpu_context)@.x[rs1 as int],
                old(cpu_context)@.x[rs2 as int],
            ),
        ),
{
    let a = cpu_context.read_register(rs1 as usize);
    let b = cpu_context.read_register(rs2 as usize);
    let dividend = low_word(a);
    let divisor = low_word(b);
    let result = if divisor == 0 {
        0xFFFF_FFFF_FFFF_FFFF
    } else {
        sign_extend_word(dividend / divisor)
    };
    cpu_context.set_register(rd as usize, result);
    Ok(())
}

/// `REM`: the signed remainder, with the sign of the dividend; the dividend where `rs2` is zero, and zero where the most negative number is divided by -1.
pub fn exec_rem(cpu_context: &mut RV64CPUContext, instr: u32, rd: u8, rs1: u8, rs2: u8) -> (r:
    Result<(), Exception>)
    requires
        old(cpu_context).wf(),
        rs1 < 32,
        rs2 < 32,
    ensures
        r == Ok::<(), Exception>(()),
        final(cpu_context).wf(),
        final(cpu_context)@ == old(cpu_context)@.set_x(
            rd as int,
            int_op_value(
                InstructionFn::Rem,
                old(cpu_context)@.x[rs1 as int],
                old(cpu_context)@.x[rs2 as int],
            ),
        ),
{
    let a = cpu_context.read_register(rs1 as usize);
    let b = cpu_context.read_register(rs2 as usize);
    let result = if b == 0 {
        a
    } else if a == 0x8000_0000_0000_0000 && b == 0xFFFF_FFFF_FFFF_FFFF {
        0
    } else {
        signed_remainder(a, b)
    };
    cpu_context.set_register(rd as usize, result);
    Ok(())
}

/// `REMU`: the unsigned remainder; the dividend where `rs2` is zero.
pub fn exec_remu(cpu_context: &mut RV64CPUContext, instr: u32, rd: u8, rs1: u8, rs2: u8) -> (r:
    Result<(), Exception>)
    requires
        old(cpu_context).wf(),
        rs1 < 32,
        rs2 < 32,
    ensures
        r == Ok::<(), Exception>(()),
        final(cpu_context).wf(),
        final(cpu_context)@ == old(cpu_context)@.set_x(
            rd as int,
            int_op_value(
                InstructionFn::Remu,
                old(cpu_context)@.x[rs1 as int],
                old(cpu_context)@.x[rs2 as int],
            ),
        ),
{
    let a = cpu_context.read_register(rs1 as usize);
    let b = cpu_context.read_register(rs2 as usize);
    let result = if b == 0 {
        a
    } else {
        a % b
    };
    cpu_context.set_register(rd as usize, result);
    Ok(())
}

/// `REMW`: the signed remainder of the low words, sign-extended; the dividend's low word where the divisor is zero.
pub fn exec_remw(cpu_context: &mut RV64CPUContext, instr: u32, rd: u8, rs1: u8, rs2: u8) -> (r:
    Result<(), Exception>)
    requires
        old(cpu_context).wf(),
        rs1 < 32,
        rs2 < 32,
    ensures
        r == Ok::<(), Exception>(()),
        final(cpu_context).wf(),
        final(cpu_context)@ == old(cpu_context)@.set_x(
            rd as int,
            int_op_value(
                InstructionFn::Remw,
                old(cpu_context)@.x[rs1 as int],
                old(cpu_context)@.x[rs2 as int],
            ),
        ),
{
    let a = cpu_context.read_register(rs1 as usize);
    let b = cpu_context.read_register(rs2 as usize);
    let dividend = low_word(a);
    let divisor = low_word(b);
    let result = if divisor == 0 {
        sign_extend_word(dividend)
    } else if dividend == 0x8000_0000 && divisor == 0xFFFF_FFFF {
        0
    } else {
        sign_extend_word(signed_remainder_word(dividend, divisor))
    };
    cpu_context.set_register(rd as usize, result);
    Ok(())
}

/// `REMUW`: the unsigned remainder of the low words, sign-extended; the dividend's low word where the divisor is zero.
pub fn exec_remuw(cpu_context: &mut RV64CPUContext, instr: u32, rd: u8, rs1: u8, rs2: u8) -> (r:
    Result<(), Exception>)
    requires
        old(cpu_context).wf(),
        rs1 < 32,
        rs2 < 32,
    ensures
        r == Ok::<(), Exception>(()),
        final(cpu_context).wf(),
        final(cpu_context)@ == old(cpu_context)@.set_x(
            rd as int,
            int_op_value(
                InstructionFn::Remuw,
                old(cpu_context)@.x[rs1 as int],
                old(cpu_context)@.x[rs2 as int],
            ),
        ),
{
    let a = cpu_context.read_register(rs1 as usize);
    let b = cpu_context.read_register(rs2 as usize);
    let dividend = low_word(a);
    let divisor = low_word(b);
    let result = if divisor == 0 {
        sign_extend_word(dividend)
    } else {
        sign_extend_word(dividend % divisor)
    };
    cpu_context.set_register(rd as usize, result);
    Ok(())
}

/// The register-register operation that the function fields select.
pub open spec fn int_op_decoded(funct3: u8, funct7: u8) -> InstructionFn {
    if funct7 == 0x00 {
        if funct3 == 0x0 {
            InstructionFn::Add
        } else if funct3 == 0x1 {
            InstructionFn::Sll
        } else if funct3 == 0x2 {
            InstructionFn::Slt
        } else if funct3 == 0x3 {
            InstructionFn::Sltu
        } else if funct3 == 0x4 {
            InstructionFn::Xor
        } else if funct3 == 0x5 {
            InstructionFn::Srl
        } else if funct3 == 0x6 {
            InstructionFn::Or
        } else if funct3 == 0x7 {
            InstructionFn::And
        } else {
            InstructionFn::Illegal
        }
    } else if funct7 == 0x20 {
        if funct3 == 0x0 {
            InstructionFn::Sub
        } else if funct3 == 0x5 {
            InstructionFn::Sra
        } else {
            InstructionFn::Illegal
        }
    } else if funct7 == 0x01 {
        if funct3 == 0x0 {
            InstructionFn::Mul
        } else if funct3 == 0x1 {
            InstructionFn::Mulh
        } else if funct3 == 0x2 {
            InstructionFn::Mulhsu
        } else if funct3 == 0x3 {
            InstructionFn::Mulhu
        } else if funct3 == 0x4 {
            InstructionFn::Div
        } else if funct3 == 0x5 {
            InstructionFn::Divu
        } else if funct3 == 0x6 {
            InstructionFn::Rem
        } else if funct3 == 0x7 {
            InstructionFn::Remu
        } else {
            InstructionFn::Illegal
        }
    } else {
        InstructionFn::Illegal
    }
}

/// The 32-bit register-register operation that the function fields
/// select.
pub open spec fn int_op_32_decoded(funct3: u8, funct7: u8) -> InstructionFn {
    if funct7 == 0x00 {
        if funct3 == 0x0 {
            InstructionFn::Addw
        } else if funct3 == 0x1 {
            InstructionFn::Sllw
        } else if funct3 == 0x5 {
            InstructionFn::Srlw
        } else {
            InstructionFn::Illegal
        }
    } else if funct7 == 0x20 {
        if funct3 == 0x0 {
            InstructionFn::Subw
        } else if funct3 == 0x5 {
            InstructionFn::Sraw
        } else {
            InstructionFn::Illegal
        }
    } else if funct7 == 0x01 {
        if funct3 == 0x0 {
            InstructionFn::Mulw
        } else if funct3 == 0x4 {
            InstructionFn::Divw
        } else if funct3 == 0x5 {
            InstructionFn::Divuw
        } else if funct3 == 0x6 {
            InstructionFn::Remw
        } else if funct3 == 0x7 {
            InstructionFn::Remuw
        } else {
            InstructionFn::Illegal
        }
    } else {
        InstructionFn::Illegal
    }
}

impl ParsableInstructionGroup for IntOpOpcodeGroup {
    open spec fn decoded(instr: u32) -> InstructionFn {
        int_op_decoded(funct3_of(instr), funct7_of(instr))
    }

    fn parse(instr: u32) -> (decoded: InstructionFn) {
        let funct3 = funct3(instr);
        let funct7 = funct7(instr);
        match (funct3, funct7) {
            (0x0, 0x0) => InstructionFn::Add,
            (0x0, 0x20) => InstructionFn::Sub,
            (0x4, 0x0) => InstructionFn::Xor,
            (0x6, 0x0) => InstructionFn::Or,
            (0x7, 0x0) => InstructionFn::And,
            (0x1, 0x0) => InstructionFn::Sll,
            (0x5, 0x0) => InstructionFn::Srl,
            (0x5, 0x20) => InstructionFn::Sra,
            (0x2, 0x0) => InstructionFn::Slt,
            (0x3, 0x0) => InstructionFn::Sltu,
            (0x0, 0x01) => InstructionFn::Mul,
            (0x1, 0x01) => InstructionFn::Mulh,
            (0x2, 0x01) => InstructionFn::Mulhsu,
            (0x3, 0x01) => InstructionFn::Mulhu,
            (0x4, 0x01) => InstructionFn::Div,
            (0x5, 0x01) => InstructionFn::Divu,
            (0x6, 0x01) => InstructionFn::Rem,
            (0x7, 0x01) => InstructionFn::Remu,
            _ => InstructionFn::Illegal,
        }
    }
}

impl ParsableInstructionGroup for IntOp32OpcodeGroup {
    open spec fn decoded(instr: u32) -> InstructionFn {
        int_op_32_decoded(funct3_of(instr), funct7_of(instr))
    }

    fn parse(instr: u32) -> (decoded: InstructionFn) {
        let funct3 = funct3(instr);
        let funct7 = funct7(instr);
        match (funct3, funct7) {
            (0x0, 0x0) => InstructionFn::Addw,
            (0x0, 0x20) => InstructionFn::Subw,
            (0x1, 0x0) => InstructionFn::Sllw,
            (0x5, 0x0) => InstructionFn::Srlw,
            (0x5, 0x20) => InstructionFn::Sraw,
            (0x0, 0x01) => InstructionFn::Mulw,
            (0x4, 0x01) => InstructionFn::Divw,
            (0x5, 0x01) => InstructionFn::Divuw,
            (0x6, 0x01) => InstructionFn::Remw,
            (0x7, 0x01) => InstructionFn::Remuw,
            _ => InstructionFn::Illegal,
        }
    }
}

} // verus!

verus! {

proof fn lemma_bit_identities(a: u64, k: u64)
    by (bit_vector)
    requires
        k < 64,
    ensures
        a ^ a == 0,
        a << 0u64 == a,
        (0xFFFF_FFFF_FFFF_FFFFu64 >> k) | !(0xFFFF_FFFF_FFFF_FFFFu64 >> k)
            == 0xFFFF_FFFF_FFFF_FFFFu64,
{
}

/// Adding modulo 2^64 is associative.
proof fn lemma_wrapped_sum(a: u64, b: u64, c: u64)
    ensures
        wrap64(wrap64(a + b) + c) == wrap64(a + wrap64(b + c)),
        wrap64(a + b) == wrap64(b + a),
        wrap64(a - a) == 0,
{
    let m = 0x1_0000_0000_0000_0000int;
    let ab = wrap64(a + b);
    let bc = wrap64(b + c);
    assert(ab == a + b || ab == a + b - m);
    assert(bc == b + c || bc == b + c - m);
}

/// `ADD` is commutative and associative modulo 2^64; subtracting a value
/// from itself, and xoring it with itself, gives zero; a left shift by
/// zero changes nothing; and an arithmetic right shift of -1 by any
/// amount gives -1.
pub proof fn lemma_arithmetic_laws(a: u64, b: u64, c: u64, k: u64)
    requires
        k <= 63,
    ensures
        int_op_value(InstructionFn::Add, a, b) == int_op_value(InstructionFn::Add, b, a),
        int_op_value(InstructionFn::Add, int_op_value(InstructionFn::Add, a, b), c)
            == int_op_value(InstructionFn::Add, a, int_op_value(InstructionFn::Add, b, c)),
        int_op_value(InstructionFn::Sub, a, a) == 0,
        int_op_value(InstructionFn::Xor, a, a) == 0,
        int_op_value(InstructionFn::Sll, a, 0) == a,
        int_op_value(InstructionFn::Sra, 0xFFFF_FFFF_FFFF_FFFF, k) == 0xFFFF_FFFF_FFFF_FFFF,
        signed64(0xFFFF_FFFF_FFFF_FFFF) == -1,
{
    lemma_bit_identities(a, k);
    lemma_wrapped_sum(a, b, c);
    assert(int_op_value(InstructionFn::Add, a, b) == wrap64(a + b));
    assert(int_op_value(InstructionFn::Add, b, c) == wrap64(b + c));
    assert(int_op_value(InstructionFn::Add, wrap64(a + b), c) == wrap64(wrap64(a + b) + c));
    assert(int_op_value(InstructionFn::Add, a, wrap64(b + c)) == wrap64(a + wrap64(b + c)));
    assert(k % 64 == k);
    assert(0u64 % 64 == 0);
}

/// The high products complete `MUL`: the upper half that `MULHU`,
/// `MULH` or `MULHSU` gives, put above the lower half that `MUL` gives,
/// is the full 128-bit product of the operands as each of the three
/// reads them.
pub proof fn lemma_high_products_complete_mul(a: u64, b: u64)
    ensures
        int_op_value(InstructionFn::Mulhu, a, b) * 0x1_0000_0000_0000_0000 + int_op_value(
            InstructionFn::Mul,
            a,
            b,
        ) == a * b,
        signed64(int_op_value(InstructionFn::Mulh, a, b)) * 0x1_0000_0000_0000_0000
            + int_op_value(InstructionFn::Mul, a, b) == signed64(a) * signed64(b),
        signed64(int_op_value(InstructionFn::Mulhsu, a, b)) * 0x1_0000_0000_0000_0000
            + int_op_value(InstructionFn::Mul, a, b) == signed64(a) * b,
{
    let m = 0x1_0000_0000_0000_0000int;
    let p = a * b;
    assert(0 <= p <= 0xFFFF_FFFF_FFFF_FFFF * 0xFFFF_FFFF_FFFF_FFFF) by (nonlinear_arith)
        requires
            p == a * b,
            0 <= a <= 0xFFFF_FFFF_FFFF_FFFF,
            0 <= b <= 0xFFFF_FFFF_FFFF_FFFF,
    ;
    vstd::arithmetic::div_mod::lemma_fundamental_div_mod(p, m);
    lemma_signed_product(a as int, b as int);
    lemma_hoist_over_denominator(p, -(b as int), m as nat);
    lemma_hoist_over_denominator(p, -(a as int), m as nat);
    lemma_hoist_over_denominator(p, m - a - b, m as nat);
    let high = p / m;
    assert(0 <= high < m);
    // the signed by signed product
    let ss = signed64(a) * signed64(b);
    let qs = ss / m;
    assert(qs == high + (if a >= 0x8000_0000_0000_0000 && b >= 0x8000_0000_0000_0000 {
        m - a - b
    } else if a >= 0x8000_0000_0000_0000 {
        -(b as int)
    } else if b >= 0x8000_0000_0000_0000 {
        -(a as int)
    } else {
        0
    }));
    vstd::arithmetic::div_mod::lemma_fundamental_div_mod(ss, m);
    assert(-0x4000_0000_0000_0000_0000_0000_0000_0000 <= ss
        <= 0x4000_0000_0000_0000_0000_0000_0000_0000) by (nonlinear_arith)
        requires
            ss == signed64(a) * signed64(b),
            -0x8000_0000_0000_0000 <= signed64(a) < 0x8000_0000_0000_0000,
            -0x8000_0000_0000_0000 <= signed64(b) < 0x8000_0000_0000_0000,
    ;
    assert(-0x4000_0000_0000_0000 <= qs <= 0x4000_0000_0000_0000);
    assert(ss % m == p % m);
    // the signed by unsigned product
    let su = signed64(a) * b;
    let qu = su / m;
    assert(qu == high + (if a >= 0x8000_0000_0000_0000 {
        -(b as int)
    } else {
        0
    }));
    vstd::arithmetic::div_mod::lemma_fundamental_div_mod(su, m);
    assert(-0x8000_0000_0000_0000_0000_0000_0000_0000 <= su
        < 0x8000_0000_0000_0000_0000_0000_0000_0000) by (nonlinear_arith)
        requires
            su == signed64(a) * b,
            -0x8000_0000_0000_0000 <= signed64(a) < 0x8000_0000_0000_0000,
            0 <= b < 0x1_0000_0000_0000_0000,
    ;
    assert(-0x8000_0000_0000_0000 <= qu < 0x8000_0000_0000_0000);
    assert(su % m == p % m);
}

/// Division by zero and the one overflowing division raise no trap and
/// give fixed results: a quotient by zero is all ones (-1), a remainder
/// by zero is the dividend, the most negative number divided by -1 is
/// itself with remainder zero; and so for the 32-bit forms, on the low
/// words and sign-extended.
pub proof fn lemma_division_edge_cases(x: u64, y: u64)
    ensures
        int_op_value(InstructionFn::Div, x, 0) == 0xFFFF_FFFF_FFFF_FFFF,
        signed64(int_op_value(InstructionFn::Div, x, 0)) == -1,
        int_op_value(InstructionFn::Rem, x, 0) == x,
        int_op_value(InstructionFn::Divu, x, 0) == 0x1_0000_0000_0000_0000 - 1,
        int_op_value(InstructionFn::Remu, x, 0) == x,
        int_op_value(InstructionFn::Div, 0x8000_0000_0000_0000, 0xFFFF_FFFF_FFFF_FFFF)
            == 0x8000_0000_0000_0000,
        int_op_value(InstructionFn::Rem, 0x8000_0000_0000_0000, 0xFFFF_FFFF_FFFF_FFFF) == 0,
        low32(y) == 0 ==> int_op_value(InstructionFn::Divw, x, y) == 0xFFFF_FFFF_FFFF_FFFF,
        low32(y) == 0 ==> int_op_value(InstructionFn::Remw, x, y) == sext32(low32(x)),
        low32(y) == 0 ==> int_op_value(InstructionFn::Divuw, x, y) == 0xFFFF_FFFF_FFFF_FFFF,
        low32(y) == 0 ==> int_op_value(InstructionFn::Remuw, x, y) == sext32(low32(x)),
        low32(x) == 0x8000_0000 && low32(y) == 0xFFFF_FFFF ==> int_op_value(
            InstructionFn::Divw,
            x,
            y,
        ) == 0xFFFF_FFFF_8000_0000,
        low32(x) == 0x8000_0000 && low32(y) == 0xFFFF_FFFF ==> int_op_value(
            InstructionFn::Remw,
            x,
            y,
        ) == 0,
{
}

} // verus!
