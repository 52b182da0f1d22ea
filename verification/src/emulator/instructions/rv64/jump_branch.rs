use crate::emulator::instructions::arith::{signed64, signed_less_than, wrap64};
use crate::emulator::instructions::rv64::int_op::int_op_value;
use crate::emulator::instructions::{funct3, funct3_of, InstructionFn, ParsableInstructionGroup};
use crate::emulator::state::rv64_cpu_context::{CpuState, Exception, RV64CPUContext};
use vstd::prelude::*;

verus! {

/// The opcode of `JAL`.
pub const JAL_OPCODE: u8 = 0x6F;

/// The opcode of `JALR`.
pub const JALR_OPCODE: u8 = 0x67;

/// The opcode of the conditional branches.
pub const BRANCH_OPCODE: u8 = 0x63;

/// `JAL`.
pub struct JalOpcodeGroup {}

/// `JALR`.
pub struct JalrOpcodeGroup {}

/// The conditional branches.
pub struct BranchOpcodeGroup {}

/// The address `base + offset`, modulo 2^64.
pub open spec fn jump_target(base: u64, offset: u64) -> u64 {
    wrap64(base + offset)
}

/// The target of `JALR`: `base + offset` modulo 2^64, with bit 0 cleared.
pub open spec fn indirect_target(base: u64, offset: u64) -> u64 {
    (wrap64(base + offset) - wrap64(base + offset) % 2) as u64
}

/// The hart after `JAL`: `rd` holds the address of the next instruction
/// and the program counter is at `pc + imm`.
pub open spec fn jal_effect(state: CpuState, rd: int, imm: u64) -> CpuState {
    state.set_x(rd, wrap64(state.pc + 4)).set_pc(jump_target(state.pc, imm))
}

/// The hart after `JALR`: `rd` holds the address of the next instruction
/// and the program counter is at `rs1 + imm` with bit 0 cleared, `rs1`
/// read before `rd` is written.
pub open spec fn jalr_effect(state: CpuState, rd: int, rs1: int, imm: u64) -> CpuState {
    state.set_x(rd, wrap64(state.pc + 4)).set_pc(indirect_target(state.x[rs1], imm))
}

/// Whether the branch `op` is taken on the values `a` of `rs1` and `b` of
/// `rs2`.
pub open spec fn branch_taken(op: InstructionFn, a: u64, b: u64) -> bool {
    match op {
        InstructionFn::Beq => a == b,
        InstructionFn::Bne => a != b,
        InstructionFn::Blt => signed64(a) < signed64(b),
        InstructionFn::Bge => signed64(a) >= signed64(b),
        InstructionFn::Bltu => a < b,
        InstructionFn::Bgeu => a >= b,
        _ => false,
    }
}

/// The hart after the branch `op`: the program counter at `pc + imm`
/// where the branch is taken, and nothing changed where it is not.
pub open spec fn branch_effect(op: InstructionFn, state: CpuState, rs1: int, rs2: int, imm: u64)
    -> CpuState {
    if branch_taken(op, state.x[rs1], state.x[rs2]) {
        state.set_pc(jump_target(state.pc, imm))
    } else {
        state
    }
}

/// `JAL`: jumps to `pc + imm` and links `rd`.
pub fn exec_jal(cpu_context: &mut RV64CPUContext, instr: u32, rd: u8, imm: u64) -> (r: Result<
    (),
    Exception,
>)
    requires
        old(cpu_context).wf(),
    ensures
        r == Ok::<(), Exception>(()),
        final(cpu_context).wf(),
        final(cpu_context)@ == jal_effect(old(cpu_context)@, rd as int, imm),
{
    let old_pc = cpu_context.pc();
    cpu_context.set_register(rd as usize, old_pc.wrapping_add(4));
    cpu_context.set_pc(old_pc.wrapping_add(imm));
    Ok(())
}

/// `JALR`: jumps to `rs1 + imm` with bit 0 cleared and links `rd`.
pub fn exec_jalr(cpu_context: &mut RV64CPUContext, instr: u32, rd: u8, rs1: u8, imm: u64) -> (r:
    Result<(), Exception>)
    requires
        old(cpu_context).wf(),
        rs1 < 32,
    ensures
        r == Ok::<(), Exception>(()),
        final(cpu_context).wf(),
        final(cpu_context)@ == jalr_effect(old(cpu_context)@, rd as int, rs1 as int, imm),
{
    let sum = cpu_context.read_register(rs1 as usize).wrapping_add(imm);
    let target = sum - sum % 2;
    let old_pc = cpu_context.pc();
    cpu_context.set_register(rd as usize, old_pc.wrapping_add(4));
    cpu_context.set_pc(target);
    Ok(())
}

/// `BEQ`: branches to `pc + imm` where `rs1` equals `rs2`.
pub fn exec_beq(cpu_context: &mut RV64CPUContext, instr: u32, rs1: u8, rs2: u8, imm: u64) -> (r:
    Result<(), Exception>)
    requires
        old(cpu_context).wf(),
        rs1 < 32,
        rs2 < 32,
    ensures
        r == Ok::<(), Exception>(()),
        final(cpu_context).wf(),
        final(cpu_context)@ == branch_effect(
            InstructionFn::Beq,
            old(cpu_context)@,
            rs1 as int,
            rs2 as int,
            imm,
        ),
{
    if cpu_context.read_register(rs1 as usize) == cpu_context.read_register(rs2 as usize) {
        let target = cpu_context.pc().wrapping_add(imm);
        cpu_context.set_pc(target);
    }
    Ok(())
}

/// `BNE`: branches to `pc + imm` where `rs1` differs from `rs2`.
pub fn exec_bne(cpu_context: &mut RV64CPUContext, instr: u32, rs1: u8, rs2: u8, imm: u64) -> (r:
    Result<(), Exception>)
    requires
        old(cpu_context).wf(),
        rs1 < 32,
        rs2 < 32,
    ensures
        r == Ok::<(), Exception>(()),
        final(cpu_context).wf(),
        final(cpu_context)@ == branch_effect(
            InstructionFn::Bne,
            old(cpu_context)@,
            rs1 as int,
            rs2 as int,
            imm,
        ),
{
    if cpu_context.read_register(rs1 as usize) != cpu_context.read_register(rs2 as usize) {
        let target = cpu_context.pc().wrapping_add(imm);
        cpu_context.set_pc(target);
    }
    Ok(())
}

/// `BLT`: branches to `pc + imm` where `rs1` is below `rs2` as signed
/// numbers.
pub fn exec_blt(cpu_context: &mut RV64CPUContext, instr: u32, rs1: u8, rs2: u8, imm: u64) -> (r:
    Result<(), Exception>)
    requires
        old(cpu_context).wf(),
        rs1 < 32,
        rs2 < 32,
    ensures
        r == Ok::<(), Exception>(()),
        final(cpu_context).wf(),
        final(cpu_context)@ == branch_effect(
            InstructionFn::Blt,
            old(cpu_context)@,
            rs1 as int,
            rs2 as int,
            imm,
        ),
{
    if signed_less_than(
        cpu_context.read_register(rs1 as usize),
        cpu_context.read_register(rs2 as usize),
    ) {
        let target = cpu_context.pc().wrapping_add(imm);
        cpu_context.set_pc(target);
    }
    Ok(())
}

/// `BLTU`: branches to `pc + imm` where `rs1` is below `rs2` as unsigned
/// numbers.
pub fn exec_bltu(cpu_context: &mut RV64CPUContext, instr: u32, rs1: u8, rs2: u8, imm: u64) -> (r:
    Result<(), Exception>)
    requires
        old(cpu_context).wf(),
        rs1 < 32,
        rs2 < 32,
    ensures
        r == Ok::<(), Exception>(()),
        final(cpu_context).wf(),
        final(cpu_context)@ == branch_effect(
            InstructionFn::Bltu,
            old(cpu_context)@,
            rs1 as int,
            rs2 as int,
            imm,
        ),
{
    if cpu_context.read_register(rs1 as usize) < cpu_context.read_register(rs2 as usize) {
        let target = cpu_context.pc().wrapping_add(imm);
        cpu_context.set_pc(target);
    }
    Ok(())
}

/// `BGE`: branches to `pc + imm` where `rs1` is not below `rs2` as
/// signed numbers.
pub fn exec_bge(cpu_context: &mut RV64CPUContext, instr: u32, rs1: u8, rs2: u8, imm: u64) -> (r:
    Result<(), Exception>)
    requires
        old(cpu_context).wf(),
        rs1 < 32,
        rs2 < 32,
    ensures
        r == Ok::<(), Exception>(()),
        final(cpu_context).wf(),
        final(cpu_context)@ == branch_effect(
            InstructionFn::Bge,
            old(cpu_context)@,
            rs1 as int,
            rs2 as int,
            imm,
        ),
{
    if !signed_less_than(
        cpu_context.read_register(rs1 as usize),
        cpu_context.read_register(rs2 as usize),
    ) {
        let target = cpu_context.pc().wrapping_add(imm);
        cpu_context.set_pc(target);
    }
    Ok(())
}

/// `BGEU`: branches to `pc + imm` where `rs1` is not below `rs2` as
/// unsigned numbers.
pub fn exec_bgeu(cpu_context: &mut RV64CPUContext, instr: u32, rs1: u8, rs2: u8, imm: u64) -> (r:
    Result<(), Exception>)
    requires
        old(cpu_context).wf(),
        rs1 < 32,
        rs2 < 32,
    ensures
        r == Ok::<(), Exception>(()),
        final(cpu_context).wf(),
        final(cpu_context)@ == branch_effect(
            InstructionFn::Bgeu,
            old(cpu_context)@,
            rs1 as int,
            rs2 as int,
            imm,
        ),
{
    if cpu_context.read_register(rs1 as usize) >= cpu_context.read_register(rs2 as usize) {
        let target = cpu_context.pc().wrapping_add(imm);
        cpu_context.set_pc(target);
    }
    Ok(())
}

/// The branch that `funct3` selects.
pub open spec fn branch_decoded(funct3: u8) -> InstructionFn {
    if funct3 == 0x0 {
        InstructionFn::Beq
    } else if funct3 == 0x1 {
        InstructionFn::Bne
    } else if funct3 == 0x4 {
        InstructionFn::Blt
    } else if funct3 == 0x5 {
        InstructionFn::Bge
    } else if funct3 == 0x6 {
        InstructionFn::Bltu
    } else if funct3 == 0x7 {
        InstructionFn::Bgeu
    } else {
        InstructionFn::Illegal
    }
}

impl ParsableInstructionGroup for JalOpcodeGroup {
    open spec fn decoded(instr: u32) -> InstructionFn {
        InstructionFn::Jal
    }

    fn parse(instr: u32) -> (decoded: InstructionFn) {
        InstructionFn::Jal
    }
}

impl ParsableInstructionGroup for JalrOpcodeGroup {
    open spec fn decoded(instr: u32) -> InstructionFn {
        InstructionFn::Jalr
    }

    fn parse(instr: u32) -> (decoded: InstructionFn) {
        InstructionFn::Jalr
    }
}

impl ParsableInstructionGroup for BranchOpcodeGroup {
    open spec fn decoded(instr: u32) -> InstructionFn {
        branch_decoded(funct3_of(instr))
    }

    fn parse(instr: u32) -> (decoded: InstructionFn) {
        let funct3 = funct3(instr);
        match funct3 {
            0x0 => InstructionFn::Beq,
            0x1 => InstructionFn::Bne,
            0x4 => InstructionFn::Blt,
            0x6 => InstructionFn::Bltu,
            0x5 => InstructionFn::Bge,
            0x7 => InstructionFn::Bgeu,
            _ => InstructionFn::Illegal,
        }
    }
}

/// On equal operands the signed and the unsigned comparisons agree: the
/// strict ones (`SLT`, `SLTU`, `BLT`, `BLTU`) say no, and the others
/// (`BGE`, `BGEU`) say yes.
pub proof fn lemma_equal_operands(a: u64)
    ensures
        int_op_value(InstructionFn::Slt, a, a) == 0,
        int_op_value(InstructionFn::Sltu, a, a) == 0,
        !branch_taken(InstructionFn::Blt, a, a),
        !branch_taken(InstructionFn::Bltu, a, a),
        branch_taken(InstructionFn::Bge, a, a),
        branch_taken(InstructionFn::Bgeu, a, a),
{
}

/// Where a jump or a taken branch leaves the program counter, and `None`
/// for every other instruction and for a branch that is not taken.
pub open spec fn transfer_target(op: InstructionFn, state: CpuState, rs1: int, rs2: int, imm: u64)
    -> Option<u64> {
    match op {
        InstructionFn::Jal => Some(jump_target(state.pc, imm)),
        InstructionFn::Jalr => Some(indirect_target(state.x[rs1], imm)),
        InstructionFn::Beq | InstructionFn::Bne | InstructionFn::Blt | InstructionFn::Bltu
        | InstructionFn::Bge | InstructionFn::Bgeu => if branch_taken(
            op,
            state.x[rs1],
            state.x[rs2],
        ) {
            Some(jump_target(state.pc, imm))
        } else {
            None
        },
        _ => None,
    }
}

} // verus!
