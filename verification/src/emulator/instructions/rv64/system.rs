use crate::emulator::instructions::{
    funct12, funct12_of, funct3, funct3_of, InstructionFn, ParsableInstructionGroup,
};
use crate::emulator::state::rv64_cpu_context::{
    CpuState, Exception, PrivilegeMode, RV64CPUContext,
};
use vstd::prelude::*;

verus! {

/// The opcode of the system instructions.
pub const SYSTEM_OPCODE: u8 = 0x73;

/// The system instructions: environment call, breakpoint and the CSR
/// accesses.
pub struct SystemOpcodeGroup {}

/// The trap that `ECALL` raises at `privilege`.
pub open spec fn environment_call(privilege: PrivilegeMode) -> Exception {
    match privilege {
        PrivilegeMode::Machine => Exception::EnvironmentCallFromMMode,
        PrivilegeMode::Supervisor => Exception::EnvironmentCallFromSMode,
        PrivilegeMode::User => Exception::EnvironmentCallFromUMode,
    }
}

/// The number of the register that a CSR instruction names: the low
/// twelve bits of its immediate.
pub open spec fn csr_number(imm: u64) -> u16 {
    (imm % 0x1000) as u16
}

/// Whether the CSR instruction `op` writes the register at all: the
/// set and clear forms skip the write where their `rs1` field is zero.
pub open spec fn csr_writes(op: InstructionFn, rs1: u8) -> bool {
    match op {
        InstructionFn::Csrrw | InstructionFn::Csrrwi => true,
        _ => rs1 != 0,
    }
}

/// The second operand of the CSR instruction `op`: the value of register
/// `rs1`, or for the immediate forms the `rs1` field itself.
pub open spec fn csr_operand(op: InstructionFn, state: CpuState, rs1: u8) -> u64 {
    match op {
        InstructionFn::Csrrw | InstructionFn::Csrrs | InstructionFn::Csrrc => state.x[rs1 as int],
        _ => rs1 as u64,
    }
}

/// The value that the CSR instruction `op` writes, given what the
/// register held: the operand itself, the old value with the operand's
/// bits set, or the old value with the operand's bits cleared.
pub open spec fn csr_new_value(op: InstructionFn, old_value: u64, operand: u64) -> u64 {
    match op {
        InstructionFn::Csrrw | InstructionFn::Csrrwi => operand,
        InstructionFn::Csrrs | InstructionFn::Csrrsi => old_value | operand,
        _ => old_value & !operand,
    }
}

/// The hart after the CSR instruction `op`, and whether it trapped.
///
/// The register is read first; where the read is refused nothing
/// changes. Else `rd` takes the old value, and then, unless the write is
/// skipped, the operand is taken and the register written; where the
/// write is refused the instruction traps with `rd` already written.
pub open spec fn csr_effect(op: InstructionFn, state: CpuState, rd: u8, rs1: u8, imm: u64) -> (
    CpuState,
    Result<(), Exception>,
) {
    let number = csr_number(imm);
    match state.csrs.read(number, false) {
        Err(e) => (state, Err(e)),
        Ok(old_value) => {
            let read = state.set_x(rd as int, old_value);
            if !csr_writes(op, rs1) {
                (read, Ok(()))
            } else if !read.csrs.write_allowed(number, false) {
                (read, Err(Exception::IllegalInstruction))
            } else {
                (
                    read.set_csrs(
                        read.csrs.write(
                            number,
                            csr_new_value(op, old_value, csr_operand(op, read, rs1)),
                            false,
                        ),
                    ),
                    Ok(()),
                )
            }
        },
    }
}

/// `ECALL`: raises the environment call of the current privilege.
pub fn exec_ecall(cpu_context: &mut RV64CPUContext, instr: u32, rd: u8, rs1: u8, imm: u64) -> (r:
    Result<(), Exception>)
    ensures
        r == Err::<(), Exception>(environment_call(old(cpu_context)@.csrs.privilege)),
        final(cpu_context)@ == old(cpu_context)@,
{
    match cpu_context.csrs().get_current_privilege() {
        PrivilegeMode::Machine => Err(Exception::EnvironmentCallFromMMode),
        PrivilegeMode::Supervisor => Err(Exception::EnvironmentCallFromSMode),
        PrivilegeMode::User => Err(Exception::EnvironmentCallFromUMode),
    }
}

/// `EBREAK`: raises a breakpoint.
pub fn exec_ebreak(cpu_context: &mut RV64CPUContext, instr: u32, rd: u8, rs1: u8, imm: u64) -> (r:
    Result<(), Exception>)
    ensures
        r == Err::<(), Exception>(Exception::Breakpoint),
        final(cpu_context)@ == old(cpu_context)@,
{
    Err(Exception::Breakpoint)
}

/// `CSRRW`: reads the CSR into `rd` and writes `rs1` to it.
pub fn exec_csrrw(cpu_context: &mut RV64CPUContext, instr: u32, rd: u8, rs1: u8, imm: u64) -> (r:
    Result<(), Exception>)
    requires
        old(cpu_context).wf(),
        rs1 < 32,
    ensures
        final(cpu_context).wf(),
        (final(cpu_context)@, r) == csr_effect(InstructionFn::Csrrw, old(cpu_context)@, rd, rs1, imm),
{
    let number = (imm % 0x1000) as u16;
    let old_value = cpu_context.read_csr(number, false)?;
    cpu_context.set_register(rd as usize, old_value);
    let value = cpu_context.read_register(rs1 as usize);
    cpu_context.write_csr(number, value, false)?;
    Ok(())
}

/// `CSRRS`: reads the CSR into `rd` and sets the bits of `rs1` in it; no write where `rs1` is `x0`.
pub fn exec_csrrs(cpu_context: &mut RV64CPUContext, instr: u32, rd: u8, rs1: u8, imm: u64) -> (r:
    Result<(), Exception>)
    requires
        old(cpu_context).wf(),
        rs1 < 32,
    ensures
        final(cpu_context).wf(),
        (final(cpu_context)@, r) == csr_effect(InstructionFn::Csrrs, old(cpu_context)@, rd, rs1, imm),
{
    let number = (imm % 0x1000) as u16;
    let old_value = cpu_context.read_csr(number, false)?;
    cpu_context.set_register(rd as usize, old_value);
    if rs1 == 0 {
        return Ok(());
    }
    let value = old_value | cpu_context.read_register(rs1 as usize);
    cpu_context.write_csr(number, value, false)?;
    Ok(())
}

/// `CSRRC`: reads the CSR into `rd` and clears the bits of `rs1` in it; no write where `rs1` is `x0`.
pub fn exec_csrrc(cpu_context: &mut RV64CPUContext, instr: u32, rd: u8, rs1: u8, imm: u64) -> (r:
    Result<(), Exception>)
    requires
        old(cpu_context).wf(),
        rs1 < 32,
    ensures
        final(cpu_context).wf(),
        (final(cpu_context)@, r) == csr_effect(InstructionFn::Csrrc, old(cpu_context)@, rd, rs1, imm),
{
    let number = (imm % 0x1000) as u16;
    let old_value = cpu_context.read_csr(number, false)?;
    cpu_context.set_register(rd as usize, old_value);
    if rs1 == 0 {
        return Ok(());
    }
    let value = old_value & !cpu_context.read_register(rs1 as usize);
    cpu_context.write_csr(number, value, false)?;
    Ok(())
}

/// `CSRRWI`: reads the CSR into `rd` and writes the five-bit immediate to it.
pub fn exec_csrrwi(cpu_context: &mut RV64CPUContext, instr: u32, rd: u8, rs1: u8, imm: u64) -> (r:
    Result<(), Exception>)
    requires
        old(cpu_context).wf(),
        rs1 < 32,
    ensures
        final(cpu_context).wf(),
        (final(cpu_context)@, r) == csr_effect(InstructionFn::Csrrwi, old(cpu_context)@, rd, rs1, imm),
{
    let number = (imm % 0x1000) as u16;
    let old_value = cpu_context.read_csr(number, false)?;
    cpu_context.set_register(rd as usize, old_value);
    let value = rs1 as u64;
    cpu_context.write_csr(number, value, false)?;
    Ok(())
}

/// `CSRRSI`: reads the CSR into `rd` and sets the bits of the five-bit immediate in it; no write where the immediate is zero.
pub fn exec_csrrsi(cpu_context: &mut RV64CPUContext, instr: u32, rd: u8, rs1: u8, imm: u64) -> (r:
    Result<(), Exception>)
    requires
        old(cpu_context).wf(),
        rs1 < 32,
    ensures
        final(cpu_context).wf(),
        (final(cpu_context)@, r) == csr_effect(InstructionFn::Csrrsi, old(cpu_context)@, rd, rs1, imm),
{
    let number = (imm % 0x1000) as u16;
    let old_value = cpu_context.read_csr(number, false)?;
    cpu_context.set_register(rd as usize, old_value);
    if rs1 == 0 {
        return Ok(());
    }
    let value = old_value | (rs1 as u64);
    cpu_context.write_csr(number, value, false)?;
    Ok(())
}

/// `CSRRCI`: reads the CSR into `rd` and clears the bits of the five-bit immediate in it; no write where the immediate is zero.
pub fn exec_csrrci(cpu_context: &mut RV64CPUContext, instr: u32, rd: u8, rs1: u8, imm: u64) -> (r:
    Result<(), Exception>)
    requires
        old(cpu_context).wf(),
        rs1 < 32,
    ensures
        final(cpu_context).wf(),
        (final(cpu_context)@, r) == csr_effect(InstructionFn::Csrrci, old(cpu_context)@, rd, rs1, imm),
{
    let number = (imm % 0x1000) as u16;
    let old_value = cpu_context.read_csr(number, false)?;
    cpu_context.set_register(rd as usize, old_value);
    if rs1 == 0 {
        return Ok(());
    }
    let value = old_value & !(rs1 as u64);
    cpu_context.write_csr(number, value, false)?;
    Ok(())
}

/// The system instruction that the function fields select.
pub open spec fn system_decoded(funct3: u8, funct12: u16) -> InstructionFn {
    if funct3 == 0x0 {
        if funct12 == 0x0 {
            InstructionFn::Ecall
        } else if funct12 == 0x1 {
            InstructionFn::Ebreak
        } else {
            InstructionFn::Illegal
        }
    } else if funct3 == 0x1 {
        InstructionFn::Csrrw
    } else if funct3 == 0x2 {
        InstructionFn::Csrrs
    } else if funct3 == 0x3 {
        InstructionFn::Csrrc
    } else if funct3 == 0x5 {
        InstructionFn::Csrrwi
    } else if funct3 == 0x6 {
        InstructionFn::Csrrsi
    } else if funct3 == 0x7 {
        InstructionFn::Csrrci
    } else {
        InstructionFn::Illegal
    }
}

impl ParsableInstructionGroup for SystemOpcodeGroup {
    open spec fn decoded(instr: u32) -> InstructionFn {
        system_decoded(funct3_of(instr), funct12_of(instr))
    }

    fn parse(instr: u32) -> (decoded: InstructionFn) {
        let funct3 = funct3(instr);
        match funct3 {
            0x0 => {
                let funct12 = funct12(instr);
                match funct12 {
                    0x0 => InstructionFn::Ecall,
                    0x1 => InstructionFn::Ebreak,
                    _ => InstructionFn::Illegal,
                }
            },
            0x1 => InstructionFn::Csrrw,
            0x2 => InstructionFn::Csrrs,
            0x3 => InstructionFn::Csrrc,
            0x5 => InstructionFn::Csrrwi,
            0x6 => InstructionFn::Csrrsi,
            0x7 => InstructionFn::Csrrci,
            _ => InstructionFn::Illegal,
        }
    }
}

} // verus!
