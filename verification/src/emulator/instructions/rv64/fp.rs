use crate::emulator::instructions::arith::{low32, low_word};
use crate::emulator::instructions::rv64::load_store::{
    accessible, effective_address, in_bounds,
};
use crate::emulator::instructions::{
    funct3, funct3_of, funct5, funct5_of, rd_of, rs1_of, rs2_of, wrap_r_type, InstructionFn,
    Outcome, ParsableInstructionGroup,
};
use crate::emulator::state::memory::{
    le_bytes_u32, le_bytes_u64, le_u32, le_u64, Device, MemoryManagementUnit, MemoryState,
};
use crate::emulator::state::rv64_cpu_context::{
    CSRAddress, CpuState, CsrState, Exception, RV64CPUContext,
};
use vstd::prelude::*;

verus! {

/// The opcode of the floating-point loads.
pub const LOAD_FP_OPCODE: u8 = 0x07;

/// The opcode of the floating-point stores.
pub const STORE_FP_OPCODE: u8 = 0x27;

/// The opcode of the floating-point computations.
pub const OP_FP_OPCODE: u8 = 0x53;

/// The opcode of the fused multiply-add.
pub const FMADD_OPCODE: u8 = 0x43;

/// The opcode of the fused multiply-subtract.
pub const FMSUB_OPCODE: u8 = 0x47;

/// `fflags.UF`: the result is subnormal.
pub const FFLAGS_UF: u64 = 0x02;

/// `fflags.OF`: the result is infinite though no operand is.
pub const FFLAGS_OF: u64 = 0x04;

/// `fflags.DZ`: a division by zero.
pub const FFLAGS_DZ: u64 = 0x08;

/// `fflags.NV`: the result is not a number though no operand is.
pub const FFLAGS_NV: u64 = 0x10;

/// The floating-point computations.
pub struct FloatingPointOpcodeGroup {}

/// The floating-point loads.
pub struct LoadFloatingPointOpcodeGroup {}

/// The floating-point stores.
pub struct StoreFloatingPointOpcodeGroup {}

/// The fused multiply-add.
pub struct FusedMultiplyAddOpcodeGroup {}

/// The fused multiply-subtract.
pub struct FusedMultiplySubOpcodeGroup {}

/// A computation that a float unit is asked for.
#[derive(Debug, Clone, Copy, PartialEq, Eq, Structural)]
pub enum FloatOp {
    Add,
    Sub,
    Mul,
    Div,
    Sqrt,
    Min,
    Max,
    /// `a * b + c`
    MulAdd,
    /// `a * b - c`
    MulSub,
}

/// How a result is rounded.
#[derive(Debug, Clone, Copy, PartialEq, Eq, Structural)]
pub enum RoundingMode {
    /// To the nearest value, ties to the even one.
    NearestEven,
    /// Towards zero.
    TowardsZero,
    /// Towards minus infinity.
    Down,
    /// Towards plus infinity.
    Up,
    /// To the nearest value, ties away from zero.
    NearestMaxMagnitude,
}

/// What a float unit needs to know to compute: the operation, the
/// precision, the rounding mode and the operands as bit patterns. In
/// single precision an operand is the low word of its register.
#[derive(Debug, Clone, Copy, PartialEq, Eq, Structural)]
pub struct FloatRequest {
    pub op: FloatOp,
    pub single: bool,
    pub rounding: RoundingMode,
    pub a: u64,
    pub b: u64,
    pub c: u64,
    pub rd: u8,
}

/// What a floating-point computation needs next.
#[derive(Debug, Clone, Copy, PartialEq, Eq, Structural)]
pub enum FloatDecision {
    /// The float unit has to compute, and the result to be committed.
    Compute(FloatRequest),
    /// Nothing is computed and no register written; the flags given are
    /// raised.
    Raise(u64),
}

/// The rounding mode that a three-bit field names: 0 to 3 the four
/// directed modes in their order, and any other value the nearest with
/// ties away from zero.
pub open spec fn rounding_of(field: u64) -> RoundingMode {
    if field == 0 {
        RoundingMode::NearestEven
    } else if field == 1 {
        RoundingMode::TowardsZero
    } else if field == 2 {
        RoundingMode::Down
    } else if field == 3 {
        RoundingMode::Up
    } else {
        RoundingMode::NearestMaxMagnitude
    }
}

/// The rounding mode of an instruction: the one its `rm` field names,
/// or, where the field is 7, the one that `frm` holds.
pub open spec fn resolved_rounding(rm: u8, frm: u64) -> RoundingMode {
    if rm == 7 {
        rounding_of(frm % 0x100)
    } else {
        rounding_of(rm as u64)
    }
}

/// Bits 26:25 of the word: the precision, 0 single and 1 double.
pub open spec fn fmt_of(instr: u32) -> u8 {
    ((instr / 0x200_0000) % 4) as u8
}

/// Whether a double-precision pattern is not a number.
pub open spec fn is_nan64(bits: u64) -> bool {
    (bits / 0x10_0000_0000_0000) % 0x800 == 0x7FF && bits % 0x10_0000_0000_0000 != 0
}

/// Whether a double-precision pattern is an infinity.
pub open spec fn is_infinite64(bits: u64) -> bool {
    (bits / 0x10_0000_0000_0000) % 0x800 == 0x7FF && bits % 0x10_0000_0000_0000 == 0
}

/// Whether a double-precision pattern is subnormal.
pub open spec fn is_subnormal64(bits: u64) -> bool {
    (bits / 0x10_0000_0000_0000) % 0x800 == 0 && bits % 0x10_0000_0000_0000 != 0
}

/// Whether a double-precision pattern is plus or minus zero.
pub open spec fn is_zero64(bits: u64) -> bool {
    bits % 0x8000_0000_0000_0000 == 0
}

/// Whether a single-precision pattern is not a number.
pub open spec fn is_nan32(bits: u32) -> bool {
    (bits / 0x80_0000) % 0x100 == 0xFF && bits % 0x80_0000 != 0
}

/// Whether a single-precision pattern is an infinity.
pub open spec fn is_infinite32(bits: u32) -> bool {
    (bits / 0x80_0000) % 0x100 == 0xFF && bits % 0x80_0000 == 0
}

/// Whether a single-precision pattern is subnormal.
pub open spec fn is_subnormal32(bits: u32) -> bool {
    (bits / 0x80_0000) % 0x100 == 0 && bits % 0x80_0000 != 0
}

/// Whether a single-precision pattern is plus or minus zero.
pub open spec fn is_zero32(bits: u32) -> bool {
    bits % 0x8000_0000 == 0
}

/// Whether a register holds not-a-number, at the precision given.
pub open spec fn is_nan(bits: u64, single: bool) -> bool {
    if single {
        is_nan32(low32(bits))
    } else {
        is_nan64(bits)
    }
}

/// Whether a register holds an infinity, at the precision given.
pub open spec fn is_infinite(bits: u64, single: bool) -> bool {
    if single {
        is_infinite32(low32(bits))
    } else {
        is_infinite64(bits)
    }
}

/// Whether a register holds a subnormal number, at the precision given.
pub open spec fn is_subnormal(bits: u64, single: bool) -> bool {
    if single {
        is_subnormal32(low32(bits))
    } else {
        is_subnormal64(bits)
    }
}

/// Whether a register holds a zero, at the precision given.
pub open spec fn is_zero(bits: u64, single: bool) -> bool {
    if single {
        is_zero32(low32(bits))
    } else {
        is_zero64(bits)
    }
}

/// The flags that an operation raises, given its two operands and its
/// result: `NV` where the result is not a number though neither operand
/// is, `DZ` where it divides by zero, `OF` where the result is infinite
/// though neither operand is, `UF` where the result is subnormal. Each
/// flag is a bit of its own, so the sum is their union.
pub open spec fn fp_flags(divides: bool, rs1_val: u64, rs2_val: u64, result: u64, single: bool)
    -> u64 {
    ((if is_nan(result, single) && !is_nan(rs1_val, single) && !is_nan(rs2_val, single) {
        FFLAGS_NV
    } else {
        0
    }) + (if divides && is_zero(rs2_val, single) {
        FFLAGS_DZ
    } else {
        0
    }) + (if is_infinite(result, single) && !is_infinite(rs1_val, single) && !is_infinite(
        rs2_val,
        single,
    ) {
        FFLAGS_OF
    } else {
        0
    }) + (if is_subnormal(result, single) {
        FFLAGS_UF
    } else {
        0
    })) as u64
}

/// The CSR file with `flags` raised in `fflags`; the flags that were up
/// stay up.
pub open spec fn with_flags(csrs: CsrState, flags: u64) -> CsrState {
    if flags == 0 {
        csrs
    } else {
        CsrState { fflags: csrs.fflags | flags, ..csrs }
    }
}

/// A single-precision pattern as it stands in a register: in the low
/// word, under an upper word of ones.
pub open spec fn boxed(word: u32) -> u64 {
    (0xFFFF_FFFF_0000_0000 + word) as u64
}

/// The pattern that a result leaves in its register, at the precision
/// given.
pub open spec fn register_pattern(result: u64, single: bool) -> u64 {
    if single {
        boxed(low32(result))
    } else {
        result
    }
}

/// Returns whether the pattern, at the precision given, is not a number.
fn pattern_is_nan(bits: u64, single: bool) -> (r: bool)
    ensures
        r == is_nan(bits, single),
{
    if single {
        let word = low_word(bits);
        (word / 0x80_0000) % 0x100 == 0xFF && word % 0x80_0000 != 0
    } else {
        (bits / 0x10_0000_0000_0000) % 0x800 == 0x7FF && bits % 0x10_0000_0000_0000 != 0
    }
}

/// Returns whether the pattern, at the precision given, is an infinity.
fn pattern_is_infinite(bits: u64, single: bool) -> (r: bool)
    ensures
        r == is_infinite(bits, single),
{
    if single {
        let word = low_word(bits);
        (word / 0x80_0000) % 0x100 == 0xFF && word % 0x80_0000 == 0
    } else {
        (bits / 0x10_0000_0000_0000) % 0x800 == 0x7FF && bits % 0x10_0000_0000_0000 == 0
    }
}

/// Returns whether the pattern, at the precision given, is subnormal.
fn pattern_is_subnormal(bits: u64, single: bool) -> (r: bool)
    ensures
        r == is_subnormal(bits, single),
{
    if single {
        let word = low_word(bits);
        (word / 0x80_0000) % 0x100 == 0 && word % 0x80_0000 != 0
    } else {
        (bits / 0x10_0000_0000_0000) % 0x800 == 0 && bits % 0x10_0000_0000_0000 != 0
    }
}

/// Returns whether the pattern, at the precision given, is a zero.
fn pattern_is_zero(bits: u64, single: bool) -> (r: bool)
    ensures
        r == is_zero(bits, single),
{
    if single {
        low_word(bits) % 0x8000_0000 == 0
    } else {
        bits % 0x8000_0000_0000_0000 == 0
    }
}

/// Returns the flags that an operation raises, given its operands and
/// its result as bit patterns.
pub fn classify_fp_flags(divides: bool, rs1_val: u64, rs2_val: u64, result: u64, is_f32: bool)
    -> (flags: u64)
    ensures
        flags == fp_flags(divides, rs1_val, rs2_val, result, is_f32),
        flags < 0x20,
{
    let mut flags: u64 = 0;
    if pattern_is_nan(result, is_f32) && !pattern_is_nan(rs1_val, is_f32) && !pattern_is_nan(
        rs2_val,
        is_f32,
    ) {
        flags = flags + FFLAGS_NV;
    }
    if divides && pattern_is_zero(rs2_val, is_f32) {
        flags = flags + FFLAGS_DZ;
    }
    if pattern_is_infinite(result, is_f32) && !pattern_is_infinite(rs1_val, is_f32)
        && !pattern_is_infinite(rs2_val, is_f32) {
        flags = flags + FFLAGS_OF;
    }
    if pattern_is_subnormal(result, is_f32) {
        flags = flags + FFLAGS_UF;
    }
    flags
}

/// Raises `flags` in `fflags`; a call without a flag changes nothing.
pub fn raise_fp_flags(cpu_context: &mut RV64CPUContext, flags: u64) -> (r: Result<(), Exception>)
    requires
        old(cpu_context).wf(),
    ensures
        r == Ok::<(), Exception>(()),
        final(cpu_context).wf(),
        final(cpu_context)@ == old(cpu_context)@.set_csrs(
            with_flags(old(cpu_context)@.csrs, flags),
        ),
{
    if flags != 0 {
        let current_flags = cpu_context.read_csr(CSRAddress::FFlags.address(), false)?;
        cpu_context.write_csr(CSRAddress::FFlags.address(), current_flags | flags, false)?;
    }
    Ok(())
}

/// Raises in `fflags` the flags of an operation with the operands
/// `rs1_val` and `rs2_val` and the result `result`. `divides` says
/// whether the operation is a division.
pub fn update_fp_flags(
    cpu_context: &mut RV64CPUContext,
    divides: bool,
    rs1_val: u64,
    rs2_val: u64,
    result: u64,
    is_f32: bool,
) -> (r: Result<(), Exception>)
    requires
        old(cpu_context).wf(),
    ensures
        r == Ok::<(), Exception>(()),
        final(cpu_context).wf(),
        final(cpu_context)@ == old(cpu_context)@.set_csrs(
            with_flags(
                old(cpu_context)@.csrs,
                fp_flags(divides, rs1_val, rs2_val, result, is_f32),
            ),
        ),
{
    let flags = classify_fp_flags(divides, rs1_val, rs2_val, result, is_f32);
    raise_fp_flags(cpu_context, flags)
}

/// The number of bytes that a floating-point load or store moves: four
/// where `funct3` is 2, eight where it is 3; no other width exists.
pub open spec fn fp_access_width(instr: u32) -> Option<int> {
    if funct3_of(instr) == 2 {
        Some(4)
    } else if funct3_of(instr) == 3 {
        Some(8)
    } else {
        None
    }
}

/// The outcome of a floating-point load: the pattern at `rs1 + imm`
/// goes to the floating-point register `rd`, a word under an upper word
/// of ones. An unknown width is an illegal instruction.
pub open spec fn load_fp_effect(
    cpu: CpuState,
    memory: MemoryState,
    instr: u32,
    rd: u8,
    rs1: u8,
    imm: u64,
) -> Outcome {
    let address = effective_address(cpu.x[rs1 as int], imm);
    match fp_access_width(instr) {
        None => Outcome::trap(cpu, memory, Exception::IllegalInstruction),
        Some(width) => if !accessible(memory, address, width) {
            Outcome::trap(cpu, memory, Exception::LoadAccessFault)
        } else if width == 4 {
            Outcome::retire(
                cpu.set_f(rd as int, boxed(le_u32(memory.window(address as int, 4)))),
                memory,
            )
        } else {
            Outcome::retire(cpu.set_f(rd as int, le_u64(memory.window(address as int, 8))), memory)
        },
    }
}

/// The outcome of a floating-point store: the pattern in the
/// floating-point register `rs2`, its low word or all of it, goes to
/// `rs1 + imm`. An unknown width is an illegal instruction.
pub open spec fn store_fp_effect(
    cpu: CpuState,
    memory: MemoryState,
    instr: u32,
    rs1: u8,
    rs2: u8,
    imm: u64,
) -> Outcome {
    let address = effective_address(cpu.x[rs1 as int], imm);
    match fp_access_width(instr) {
        None => Outcome::trap(cpu, memory, Exception::IllegalInstruction),
        Some(width) => if !accessible(memory, address, width) {
            Outcome::trap(cpu, memory, Exception::StoreAccessFault)
        } else if width == 4 {
            Outcome::retire(
                cpu,
                memory.patched(address as int, le_bytes_u32(low32(cpu.f[rs2 as int]))),
            )
        } else {
            Outcome::retire(cpu, memory.patched(address as int, le_bytes_u64(cpu.f[rs2 as int])))
        },
    }
}

/// `FLW` and `FLD`: loads a bit pattern into a floating-point register.
pub fn exec_load_fp<D: Device>(
    cpu_context: &mut RV64CPUContext,
    memory: &MemoryManagementUnit<D>,
    instr: u32,
    rd: u8,
    rs1: u8,
    imm: u64,
) -> (r: Result<(), Exception>)
    requires
        old(cpu_context).wf(),
        memory.wf(),
        rs1 < 32,
    ensures
        final(cpu_context).wf(),
        final(cpu_context)@ == load_fp_effect(old(cpu_context)@, memory@, instr, rd, rs1, imm).cpu,
        r == load_fp_effect(old(cpu_context)@, memory@, instr, rd, rs1, imm).result,
{
    let address = cpu_context.read_register(rs1 as usize).wrapping_add(imm);
    let width = funct3(instr);
    if width == 2 {
        if !in_bounds(memory, address, 4) {
            return Err(Exception::LoadAccessFault);
        }
        match memory.read_word(address as usize) {
            Ok(word) => {
                cpu_context.set_register_float(rd as usize, 0xFFFF_FFFF_0000_0000 + (word as u64));
                Ok(())
            },
            Err(_) => Err(Exception::LoadAccessFault),
        }
    } else if width == 3 {
        if !in_bounds(memory, address, 8) {
            return Err(Exception::LoadAccessFault);
        }
        match memory.read_double_word(address as usize) {
            Ok(value) => {
                cpu_context.set_register_float(rd as usize, value);
                Ok(())
            },
            Err(_) => Err(Exception::LoadAccessFault),
        }
    } else {
        Err(Exception::IllegalInstruction)
    }
}

/// Stores the low word of `pattern` at `address`.
fn store_fp_word<D: Device>(memory: &mut MemoryManagementUnit<D>, address: u64, pattern: u64) -> (r:
    Result<(), Exception>)
    requires
        old(memory).wf(),
    ensures
        final(memory).wf(),
        if accessible(old(memory)@, address, 4) {
            &&& r == Ok::<(), Exception>(())
            &&& final(memory)@ == old(memory)@.patched(
                address as int,
                le_bytes_u32(low32(pattern)),
            )
        } else {
            &&& r == Err::<(), Exception>(Exception::StoreAccessFault)
            &&& final(memory)@ == old(memory)@
        },
{
    if !in_bounds(memory, address, 4) {
        return Err(Exception::StoreAccessFault);
    }
    match memory.write_word(address as usize, low_word(pattern)) {
        Ok(()) => Ok(()),
        Err(_) => Err(Exception::StoreAccessFault),
    }
}

/// Stores `pattern` at `address`.
fn store_fp_double<D: Device>(memory: &mut MemoryManagementUnit<D>, address: u64, pattern: u64)
    -> (r: Result<(), Exception>)
    requires
        old(memory).wf(),
    ensures
        final(memory).wf(),
        if accessible(old(memory)@, address, 8) {
            &&& r == Ok::<(), Exception>(())
            &&& final(memory)@ == old(memory)@.patched(address as int, le_bytes_u64(pattern))
        } else {
            &&& r == Err::<(), Exception>(Exception::StoreAccessFault)
            &&& final(memory)@ == old(memory)@
        },
{
    if !in_bounds(memory, address, 8) {
        return Err(Exception::StoreAccessFault);
    }
    match memory.write_double_word(address as usize, pattern) {
        Ok(()) => Ok(()),
        Err(_) => Err(Exception::StoreAccessFault),
    }
}

/// `FSW` and `FSD`: stores the bit pattern of a floating-point register.
pub fn exec_store_fp<D: Device>(
    cpu_context: &mut RV64CPUContext,
    memory: &mut MemoryManagementUnit<D>,
    instr: u32,
    rs1: u8,
    rs2: u8,
    imm: u64,
) -> (r: Result<(), Exception>)
    requires
        old(cpu_context).wf(),
        old(memory).wf(),
        rs1 < 32,
        rs2 < 32,
    ensures
        final(cpu_context).wf(),
        final(memory).wf(),
        final(cpu_context)@ == old(cpu_context)@,
        final(memory)@ == store_fp_effect(
            old(cpu_context)@,
            old(memory)@,
            instr,
            rs1,
            rs2,
            imm,
        ).memory,
        r == store_fp_effect(old(cpu_context)@, old(memory)@, instr, rs1, rs2, imm).result,
{
    let address = cpu_context.read_register(rs1 as usize).wrapping_add(imm);
    let pattern = cpu_context.read_register_float(rs2 as usize);
    let width = funct3(instr);
    if width == 2 {
        store_fp_word(memory, address, pattern)
    } else if width == 3 {
        store_fp_double(memory, address, pattern)
    } else {
        Err(Exception::IllegalInstruction)
    }
}

/// Whether `op` is a floating-point computation.
pub open spec fn is_float_computation(op: InstructionFn) -> bool {
    match op {
        InstructionFn::Fadd | InstructionFn::Fsub | InstructionFn::Fmul | InstructionFn::Fdiv
        | InstructionFn::Fsqrt | InstructionFn::Fminmax | InstructionFn::Fmadd
        | InstructionFn::Fmsub => true,
        _ => false,
    }
}

impl InstructionFn {
    /// Returns whether the instruction is a floating-point computation.
    pub fn is_float(self) -> (r: bool)
        ensures
            r == is_float_computation(self),
    {
        match self {
            InstructionFn::Fadd | InstructionFn::Fsub | InstructionFn::Fmul | InstructionFn::Fdiv
            | InstructionFn::Fsqrt | InstructionFn::Fminmax | InstructionFn::Fmadd
            | InstructionFn::Fmsub => true,
            _ => false,
        }
    }
}

/// The operation that the float unit is asked for by the instruction
/// `op`; the minimum and the maximum share an instruction and are told
/// apart by `funct3` (0 and 1). `None` where `funct3` names neither.
pub open spec fn float_op_of(op: InstructionFn, instr: u32) -> Option<FloatOp> {
    match op {
        InstructionFn::Fadd => Some(FloatOp::Add),
        InstructionFn::Fsub => Some(FloatOp::Sub),
        InstructionFn::Fmul => Some(FloatOp::Mul),
        InstructionFn::Fdiv => Some(FloatOp::Div),
        InstructionFn::Fsqrt => Some(FloatOp::Sqrt),
        InstructionFn::Fmadd => Some(FloatOp::MulAdd),
        InstructionFn::Fmsub => Some(FloatOp::MulSub),
        _ => if funct3_of(instr) == 0 {
            Some(FloatOp::Min)
        } else if funct3_of(instr) == 1 {
            Some(FloatOp::Max)
        } else {
            None
        },
    }
}

/// What the floating-point computation `op`, encoded by `instr`, needs
/// on the hart `cpu`.
///
/// The precision field selects single (0) or double (1). Any other
/// precision raises `NV` and computes nothing (for the minimum and
/// maximum it raises nothing), and so does a minimum or maximum whose
/// `funct3` names neither. A division by zero computes nothing either:
/// it raises the flags that go with the operands and with what the
/// destination holds. Everything else is handed to the float unit, with
/// the rounding mode resolved.
pub open spec fn float_decision(op: InstructionFn, cpu: CpuState, instr: u32) -> FloatDecision {
    let fmt = fmt_of(instr);
    let single = fmt == 0;
    let rd = rd_of(instr);
    let a = cpu.f[rs1_of(instr) as int];
    let b = cpu.f[rs2_of(instr) as int];
    let c = cpu.f[funct5_of(instr) as int];
    if fmt > 1 {
        if op == InstructionFn::Fminmax {
            FloatDecision::Raise(0)
        } else {
            FloatDecision::Raise(FFLAGS_NV)
        }
    } else {
        match float_op_of(op, instr) {
            None => FloatDecision::Raise(FFLAGS_NV),
            Some(operation) => if operation == FloatOp::Div && is_zero(b, single) {
                FloatDecision::Raise(fp_flags(true, a, b, cpu.f[rd as int], single))
            } else {
                FloatDecision::Compute(
                    FloatRequest {
                        op: operation,
                        single,
                        rounding: if operation == FloatOp::Min || operation == FloatOp::Max {
                            RoundingMode::NearestEven
                        } else {
                            resolved_rounding(funct3_of(instr), cpu.csrs.frm)
                        },
                        a,
                        b,
                        c,
                        rd,
                    },
                )
            },
        }
    }
}

/// The hart after the result `computed` of the request `request` is
/// committed: the destination holds the result, and the flags that go
/// with the operands and the result are raised.
pub open spec fn float_commit_effect(cpu: CpuState, request: FloatRequest, computed: u64)
    -> CpuState {
    let result = register_pattern(computed, request.single);
    let written = cpu.set_f(request.rd as int, result);
    written.set_csrs(
        with_flags(
            written.csrs,
            fp_flags(request.op == FloatOp::Div, request.a, request.b, result, request.single),
        ),
    )
}

/// The hart after the floating-point computation `op`, encoded by
/// `instr`, whose float unit answered `computed`.
pub open spec fn float_effect(op: InstructionFn, cpu: CpuState, instr: u32, computed: u64)
    -> CpuState {
    match float_decision(op, cpu, instr) {
        FloatDecision::Raise(flags) => cpu.set_csrs(with_flags(cpu.csrs, flags)),
        FloatDecision::Compute(request) => float_commit_effect(cpu, request, computed),
    }
}

/// Returns the rounding mode that the field `field` names.
pub fn rounding_mode(field: u64) -> (mode: RoundingMode)
    ensures
        mode == rounding_of(field),
{
    if field == 0 {
        RoundingMode::NearestEven
    } else if field == 1 {
        RoundingMode::TowardsZero
    } else if field == 2 {
        RoundingMode::Down
    } else if field == 3 {
        RoundingMode::Up
    } else {
        RoundingMode::NearestMaxMagnitude
    }
}

/// Decides what the floating-point computation `op`, encoded by
/// `instr`, needs next: a result from the float unit, or only flags.
pub fn float_prepare(cpu_context: &RV64CPUContext, op: InstructionFn, instr: u32) -> (decision:
    FloatDecision)
    requires
        cpu_context.wf(),
        is_float_computation(op),
    ensures
        decision == float_decision(op, cpu_context@, instr),
{
    let fmt = ((instr / 0x200_0000) % 4) as u8;
    let single = fmt == 0;
    let fields = wrap_r_type(instr);
    let rs3 = funct5(instr);
    let a = cpu_context.read_register_float(fields.rs1 as usize);
    let b = cpu_context.read_register_float(fields.rs2 as usize);
    let c = cpu_context.read_register_float(rs3 as usize);
    if fmt > 1 {
        return if op == InstructionFn::Fminmax {
            FloatDecision::Raise(0)
        } else {
            FloatDecision::Raise(FFLAGS_NV)
        };
    }
    let mode = funct3(instr);
    let operation = match op {
        InstructionFn::Fadd => FloatOp::Add,
        InstructionFn::Fsub => FloatOp::Sub,
        InstructionFn::Fmul => FloatOp::Mul,
        InstructionFn::Fdiv => FloatOp::Div,
        InstructionFn::Fsqrt => FloatOp::Sqrt,
        InstructionFn::Fmadd => FloatOp::MulAdd,
        InstructionFn::Fmsub => FloatOp::MulSub,
        _ => {
            if mode == 0 {
                FloatOp::Min
            } else if mode == 1 {
                FloatOp::Max
            } else {
                return FloatDecision::Raise(FFLAGS_NV);
            }
        },
    };
    if operation == FloatOp::Div && pattern_is_zero(b, single) {
        let held = cpu_context.read_register_float(fields.rd as usize);
        return FloatDecision::Raise(classify_fp_flags(true, a, b, held, single));
    }
    let rounding = if operation == FloatOp::Min || operation == FloatOp::Max {
        RoundingMode::NearestEven
    } else if mode == 7 {
        let frm = match cpu_context.read_csr(CSRAddress::FRM.address(), false) {
            Ok(value) => value,
            Err(_) => 0,
        };
        rounding_mode(frm % 0x100)
    } else {
        rounding_mode(mode as u64)
    };
    FloatDecision::Compute(FloatRequest { op: operation, single, rounding, a, b, c, rd: fields.rd })
}

/// Commits the result `computed` that the float unit gave for
/// `request`: writes it to the destination register and raises the
/// flags that go with it.
pub fn float_commit(cpu_context: &mut RV64CPUContext, request: FloatRequest, computed: u64) -> (r:
    Result<(), Exception>)
    requires
        old(cpu_context).wf(),
    ensures
        r == Ok::<(), Exception>(()),
        final(cpu_context).wf(),
        final(cpu_context)@ == float_commit_effect(old(cpu_context)@, request, computed),
{
    let result = if request.single {
        0xFFFF_FFFF_0000_0000 + (low_word(computed) as u64)
    } else {
        computed
    };
    cpu_context.set_register_float(request.rd as usize, result);
    let divides = request.op == FloatOp::Div;
    update_fp_flags(cpu_context, divides, request.a, request.b, result, request.single)
}

/// Executes the floating-point computation `op`, encoded by `instr`,
/// with `computed` as the answer of the float unit; the answer is not
/// looked at where nothing is to be computed.
pub fn exec_float(cpu_context: &mut RV64CPUContext, op: InstructionFn, instr: u32, computed: u64)
    -> (r: Result<(), Exception>)
    requires
        old(cpu_context).wf(),
        is_float_computation(op),
    ensures
        r == Ok::<(), Exception>(()),
        final(cpu_context).wf(),
        final(cpu_context)@ == float_effect(op, old(cpu_context)@, instr, computed),
{
    match float_prepare(cpu_context, op, instr) {
        FloatDecision::Raise(flags) => raise_fp_flags(cpu_context, flags),
        FloatDecision::Compute(request) => float_commit(cpu_context, request, computed),
    }
}

/// The floating-point computation that `funct5` selects.
pub open spec fn float_decoded(funct5: u8) -> InstructionFn {
    if funct5 == 0x0 {
        InstructionFn::Fadd
    } else if funct5 == 0x1 {
        InstructionFn::Fsub
    } else if funct5 == 0x2 {
        InstructionFn::Fmul
    } else if funct5 == 0x3 {
        InstructionFn::Fdiv
    } else if funct5 == 0x5 {
        InstructionFn::Fminmax
    } else if funct5 == 0xB {
        InstructionFn::Fsqrt
    } else {
        InstructionFn::Illegal
    }
}

impl ParsableInstructionGroup for FloatingPointOpcodeGroup {
    open spec fn decoded(instr: u32) -> InstructionFn {
        float_decoded(funct5_of(instr))
    }

    fn parse(instr: u32) -> (decoded: InstructionFn) {
        let funct5 = funct5(instr);
        match funct5 {
            0x0 => InstructionFn::Fadd,
            0x1 => InstructionFn::Fsub,
            0x2 => InstructionFn::Fmul,
            0x3 => InstructionFn::Fdiv,
            0x5 => InstructionFn::Fminmax,
            0xB => InstructionFn::Fsqrt,
            _ => InstructionFn::Illegal,
        }
    }
}

impl ParsableInstructionGroup for LoadFloatingPointOpcodeGroup {
    open spec fn decoded(instr: u32) -> InstructionFn {
        InstructionFn::LoadFp
    }

    fn parse(instr: u32) -> (decoded: InstructionFn) {
        InstructionFn::LoadFp
    }
}

impl ParsableInstructionGroup for StoreFloatingPointOpcodeGroup {
    open spec fn decoded(instr: u32) -> InstructionFn {
        InstructionFn::StoreFp
    }

    fn parse(instr: u32) -> (decoded: InstructionFn) {
        InstructionFn::StoreFp
    }
}

impl ParsableInstructionGroup for FusedMultiplyAddOpcodeGroup {
    open spec fn decoded(instr: u32) -> InstructionFn {
        InstructionFn::Fmadd
    }

    fn parse(instr: u32) -> (decoded: InstructionFn) {
        InstructionFn::Fmadd
    }
}

impl ParsableInstructionGroup for FusedMultiplySubOpcodeGroup {
    open spec fn decoded(instr: u32) -> InstructionFn {
        InstructionFn::Fmsub
    }

    fn parse(instr: u32) -> (decoded: InstructionFn) {
        InstructionFn::Fmsub
    }
}

} // verus!
