use crate::emulator::instructions::arith::{
    low32, low_word, sext32, sign_extend_word, signed32, signed64, signed_less_than,
    signed_less_than_word, wrap32, wrap64,
};
use crate::emulator::instructions::{
    funct3, funct3_of, funct5, funct5_of, InstructionFn, Outcome, ParsableInstructionGroup,
};
use crate::emulator::state::memory::{
    le_bytes_u32, le_bytes_u64, le_u32, le_u64, Device, MemoryManagementUnit, MemoryState,
};
use crate::emulator::state::rv64_cpu_context::{CpuState, Exception, RV64CPUContext};
use vstd::prelude::*;

verus! {

/// The opcode of the atomic memory operations.
pub const ATOMIC_OPCODE: u8 = 0x2F;

/// The atomic memory operations.
pub struct AtomicOpcodeGroup {}

/// Whether `op` works on a word; the other atomics work on a double
/// word.
pub open spec fn is_word_atomic(op: InstructionFn) -> bool {
    match op {
        InstructionFn::LrW | InstructionFn::ScW | InstructionFn::AmoswapW | InstructionFn::AmoaddW
        | InstructionFn::AmoxorW | InstructionFn::AmoorW | InstructionFn::AmoandW
        | InstructionFn::AmominW | InstructionFn::AmomaxW | InstructionFn::AmominuW
        | InstructionFn::AmomaxuW => true,
        _ => false,
    }
}

/// The number of bytes that the atomic `op` accesses, to which its
/// address must be aligned.
pub open spec fn atomic_width(op: InstructionFn) -> int {
    if is_word_atomic(op) {
        4
    } else {
        8
    }
}

/// Whether one region covers the `width` bytes at `address`.
pub open spec fn reachable(memory: MemoryState, address: u64, width: int) -> bool {
    address <= usize::MAX && memory.covered(address as int, width)
}

/// The word that a read-modify-write on a word stores, given the word
/// `old` in memory and the low word `src` of `rs2`.
pub open spec fn amo_word_value(op: InstructionFn, old: u32, src: u32) -> u32 {
    match op {
        InstructionFn::AmoswapW => src,
        InstructionFn::AmoaddW => wrap32(old + src),
        InstructionFn::AmoxorW => old ^ src,
        InstructionFn::AmoorW => old | src,
        InstructionFn::AmoandW => old & src,
        InstructionFn::AmominW => if signed32(src) < signed32(old) {
            src
        } else {
            old
        },
        InstructionFn::AmomaxW => if signed32(old) < signed32(src) {
            src
        } else {
            old
        },
        InstructionFn::AmominuW => if src < old {
            src
        } else {
            old
        },
        InstructionFn::AmomaxuW => if old < src {
            src
        } else {
            old
        },
        _ => old,
    }
}

/// The double word that a read-modify-write on a double word stores,
/// given the double word `old` in memory and the value `src` of `rs2`.
pub open spec fn amo_double_value(op: InstructionFn, old: u64, src: u64) -> u64 {
    match op {
        InstructionFn::AmoswapD => src,
        InstructionFn::AmoaddD => wrap64(old + src),
        InstructionFn::AmoxorD => old ^ src,
        InstructionFn::AmoorD => old | src,
        InstructionFn::AmoandD => old & src,
        InstructionFn::AmominD => if signed64(src) < signed64(old) {
            src
        } else {
            old
        },
        InstructionFn::AmomaxD => if signed64(old) < signed64(src) {
            src
        } else {
            old
        },
        InstructionFn::AmominuD => if src < old {
            src
        } else {
            old
        },
        InstructionFn::AmomaxuD => if old < src {
            src
        } else {
            old
        },
        _ => old,
    }
}

/// What an atomic writes to `rd` when it has loaded `bytes`: their
/// little-endian value, a word sign-extended.
pub open spec fn atomic_loaded(op: InstructionFn, bytes: Seq<u8>) -> u64 {
    if is_word_atomic(op) {
        sext32(le_u32(bytes))
    } else {
        le_u64(bytes)
    }
}

/// The bytes that a store-conditional writes: the low word, or all, of
/// the value of `rs2`.
pub open spec fn conditional_data(op: InstructionFn, src: u64) -> Seq<u8> {
    if is_word_atomic(op) {
        le_bytes_u32(low32(src))
    } else {
        le_bytes_u64(src)
    }
}

/// The bytes that a read-modify-write stores, given the `bytes` in
/// memory and the value `src` of `rs2`.
pub open spec fn amo_data(op: InstructionFn, bytes: Seq<u8>, src: u64) -> Seq<u8> {
    if is_word_atomic(op) {
        le_bytes_u32(amo_word_value(op, le_u32(bytes), low32(src)))
    } else {
        le_bytes_u64(amo_double_value(op, le_u64(bytes), src))
    }
}

/// The outcome of a load-reserved: the value at the address in `rs1`
/// goes to `rd`, and the hart holds a reservation on the address. A
/// misaligned address traps, and so does one that no region covers.
pub open spec fn load_reserved_effect(
    op: InstructionFn,
    cpu: CpuState,
    memory: MemoryState,
    rd: u8,
    rs1: u8,
) -> Outcome {
    let address = cpu.x[rs1 as int];
    let width = atomic_width(op);
    if address % (width as u64) != 0 {
        Outcome::trap(cpu, memory, Exception::LoadAddressMisaligned)
    } else if !reachable(memory, address, width) {
        Outcome::trap(cpu, memory, Exception::LoadAccessFault)
    } else {
        Outcome::retire(
            cpu.set_x(rd as int, atomic_loaded(op, memory.window(address as int, width))),
            MemoryState {
                reservations: memory.reservations.insert(cpu.hart_id, address),
                ..memory
            },
        )
    }
}

/// The outcome of a store-conditional. Where the hart holds a
/// reservation on the address in `rs1`, the value of `rs2` is stored,
/// every reservation on the address is dropped, and `rd` becomes 0; where
/// it holds none, memory stays as it is and `rd` becomes 1. A misaligned
/// address traps, and so does a reserved one that no region covers.
pub open spec fn store_conditional_effect(
    op: InstructionFn,
    cpu: CpuState,
    memory: MemoryState,
    rd: u8,
    rs1: u8,
    rs2: u8,
) -> Outcome {
    let address = cpu.x[rs1 as int];
    let width = atomic_width(op);
    if address % (width as u64) != 0 {
        Outcome::trap(cpu, memory, Exception::LoadAddressMisaligned)
    } else if !memory.reserved(cpu.hart_id, address) {
        Outcome::retire(cpu.set_x(rd as int, 1), memory)
    } else if !reachable(memory, address, width) {
        Outcome::trap(cpu, memory, Exception::StoreAccessFault)
    } else {
        let stored = memory.patched(address as int, conditional_data(op, cpu.x[rs2 as int]));
        Outcome::retire(
            cpu.set_x(rd as int, 0),
            MemoryState { reservations: stored.reservations_off(address), ..stored },
        )
    }
}

/// The outcome of a read-modify-write: the old value at the address in
/// `rs1` goes to `rd`, and the old value combined with `rs2` goes back
/// to memory. A misaligned address traps, and so does one that no region
/// covers.
pub open spec fn amo_effect(
    op: InstructionFn,
    cpu: CpuState,
    memory: MemoryState,
    rd: u8,
    rs1: u8,
    rs2: u8,
) -> Outcome {
    let address = cpu.x[rs1 as int];
    let width = atomic_width(op);
    if address % (width as u64) != 0 {
        Outcome::trap(cpu, memory, Exception::LoadAddressMisaligned)
    } else if !reachable(memory, address, width) {
        Outcome::trap(cpu, memory, Exception::StoreAccessFault)
    } else {
        let bytes = memory.window(address as int, width);
        Outcome::retire(
            cpu.set_x(rd as int, atomic_loaded(op, bytes)),
            memory.patched(address as int, amo_data(op, bytes, cpu.x[rs2 as int])),
        )
    }
}

/// The outcome that a call left behind: the hart, the memory and the
/// result.
pub open spec fn outcome_of<D: Device>(
    cpu_context: RV64CPUContext,
    memory: MemoryManagementUnit<D>,
    result: Result<(), Exception>,
) -> Outcome {
    Outcome { cpu: cpu_context@, memory: memory@, result }
}

/// `LR.W`: loads the word at the address in `rs1` and reserves the address for the hart.
pub fn exec_lr_w<D: Device>(
    cpu_context: &mut RV64CPUContext,
    memory: &mut MemoryManagementUnit<D>,
    instr: u32,
    rd: u8,
    rs1: u8,
    rs2: u8,
) -> (r: Result<(), Exception>)
    requires
        old(cpu_context).wf(),
        old(memory).wf(),
        rs1 < 32,
        rs2 < 32,
    ensures
        final(cpu_context).wf(),
        final(memory).wf(),
        outcome_of(*final(cpu_context), *final(memory), r) == load_reserved_effect(
            InstructionFn::LrW,
            old(cpu_context)@,
            old(memory)@,
            rd,
            rs1,
        ),
{
    let addr = cpu_context.read_register(rs1 as usize);
    if addr % 4 != 0 {
        return Err(Exception::LoadAddressMisaligned);
    }
    if addr > usize::MAX as u64 {
        return Err(Exception::LoadAccessFault);
    }
    let value = match memory.read_word(addr as usize) {
        Ok(value) => value,
        Err(_) => {
            return Err(Exception::LoadAccessFault);
        },
    };
    memory.set_reservation(cpu_context.hart_id(), addr);
    cpu_context.set_register(rd as usize, sign_extend_word(value));
    Ok(())
}

/// `SC.W`: stores the word of `rs2` at the address in `rs1` if the hart holds a reservation on it, and reports in `rd` whether it did (0) or not (1).
pub fn exec_sc_w<D: Device>(
    cpu_context: &mut RV64CPUContext,
    memory: &mut MemoryManagementUnit<D>,
    instr: u32,
    rd: u8,
    rs1: u8,
    rs2: u8,
) -> (r: Result<(), Exception>)
    requires
        old(cpu_context).wf(),
        old(memory).wf(),
        rs1 < 32,
        rs2 < 32,
    ensures
        final(cpu_context).wf(),
        final(memory).wf(),
        outcome_of(*final(cpu_context), *final(memory), r) == store_conditional_effect(
            InstructionFn::ScW,
            old(cpu_context)@,
            old(memory)@,
            rd,
            rs1,
            rs2,
        ),
{
    let addr = cpu_context.read_register(rs1 as usize);
    let src = cpu_context.read_register(rs2 as usize);
    if addr % 4 != 0 {
        return Err(Exception::LoadAddressMisaligned);
    }
    if !memory.check_reservation(cpu_context.hart_id(), addr) {
        cpu_context.set_register(rd as usize, 1);
        return Ok(());
    }
    if addr > usize::MAX as u64 {
        return Err(Exception::StoreAccessFault);
    }
    match memory.write_word(addr as usize, low_word(src)) {
        Ok(()) => {},
        Err(_) => {
            return Err(Exception::StoreAccessFault);
        },
    }
    memory.clear_reservations_for_addr(addr);
    cpu_context.set_register(rd as usize, 0);
    Ok(())
}

/// `AMOSWAP.W`: swaps `rs2` with the word in memory; `rd` takes what was there.
pub fn exec_amoswap_w<D: Device>(
    cpu_context: &mut RV64CPUContext,
    memory: &mut MemoryManagementUnit<D>,
    instr: u32,
    rd: u8,
    rs1: u8,
    rs2: u8,
) -> (r: Result<(), Exception>)
    requires
        old(cpu_context).wf(),
        old(memory).wf(),
        rs1 < 32,
        rs2 < 32,
    ensures
        final(cpu_context).wf(),
        final(memory).wf(),
        outcome_of(*final(cpu_context), *final(memory), r) == amo_effect(
            InstructionFn::AmoswapW,
            old(cpu_context)@,
            old(memory)@,
            rd,
            rs1,
            rs2,
        ),
{
    let addr = cpu_context.read_register(rs1 as usize);
    let src = low_word(cpu_context.read_register(rs2 as usize));
    if addr % 4 != 0 {
        return Err(Exception::LoadAddressMisaligned);
    }
    if addr > usize::MAX as u64 {
        return Err(Exception::StoreAccessFault);
    }
    let old_value = match memory.read_word(addr as usize) {
        Ok(value) => value,
        Err(_) => {
            return Err(Exception::StoreAccessFault);
        },
    };
    let value = src;
    match memory.write_word(addr as usize, value) {
        Ok(()) => {},
        Err(_) => {
            return Err(Exception::StoreAccessFault);
        },
    }
    cpu_context.set_register(rd as usize, sign_extend_word(old_value));
    Ok(())
}

/// `AMOADD.W`: adds `rs2` to the word in memory; `rd` takes what was there.
pub fn exec_amoadd_w<D: Device>(
    cpu_context: &mut RV64CPUContext,
    memory: &mut MemoryManagementUnit<D>,
    instr: u32,
    rd: u8,
    rs1: u8,
    rs2: u8,
) -> (r: Result<(), Exception>)
    requires
        old(cpu_context).wf(),
        old(memory).wf(),
        rs1 < 32,
        rs2 < 32,
    ensures
        final(cpu_context).wf(),
        final(memory).wf(),
        outcome_of(*final(cpu_context), *final(memory), r) == amo_effect(
            InstructionFn::AmoaddW,
            old(cpu_context)@,
            old(memory)@,
            rd,
            rs1,
            rs2,
        ),
{
    let addr = cpu_context.read_register(rs1 as usize);
    let src = low_word(cpu_context.read_register(rs2 as usize));
    if addr % 4 != 0 {
        return Err(Exception::LoadAddressMisaligned);
    }
    if addr > usize::MAX as u64 {
        return Err(Exception::StoreAccessFault);
    }
    let old_value = match memory.read_word(addr as usize) {
        Ok(value) => value,
        Err(_) => {
            return Err(Exception::StoreAccessFault);
        },
    };
    let value = old_value.wrapping_add(src);
    match memory.write_word(addr as usize, value) {
        Ok(()) => {},
        Err(_) => {
            return Err(Exception::StoreAccessFault);
        },
    }
    cpu_context.set_register(rd as usize, sign_extend_word(old_value));
    Ok(())
}

/// `AMOXOR.W`: xors `rs2` into the word in memory; `rd` takes what was there.
pub fn exec_amoxor_w<D: Device>(
    cpu_context: &mut RV64CPUContext,
    memory: &mut MemoryManagementUnit<D>,
    instr: u32,
    rd: u8,
    rs1: u8,
    rs2: u8,
) -> (r: Result<(), Exception>)
    requires
        old(cpu_context).wf(),
        old(memory).wf(),
        rs1 < 32,
        rs2 < 32,
    ensures
        final(cpu_context).wf(),
        final(memory).wf(),
        outcome_of(*final(cpu_context), *final(memory), r) == amo_effect(
            InstructionFn::AmoxorW,
            old(cpu_context)@,
            old(memory)@,
            rd,
            rs1,
            rs2,
        ),
{
    let addr = cpu_context.read_register(rs1 as usize);
    let src = low_word(cpu_context.read_register(rs2 as usize));
    if addr % 4 != 0 {
        return Err(Exception::LoadAddressMisaligned);
    }
    if addr > usize::MAX as u64 {
        return Err(Exception::StoreAccessFault);
    }
    let old_value = match memory.read_word(addr as usize) {
        Ok(value) => value,
        Err(_) => {
            return Err(Exception::StoreAccessFault);
        },
    };
    let value = old_value ^ src;
    match memory.write_word(addr as usize, value) {
        Ok(()) => {},
        Err(_) => {
            return Err(Exception::StoreAccessFault);
        },
    }
    cpu_context.set_register(rd as usize, sign_extend_word(old_value));
    Ok(())
}

/// `AMOOR.W`: ors `rs2` into the word in memory; `rd` takes what was there.
pub fn exec_amoor_w<D: Device>(
    cpu_context: &mut RV64CPUContext,
    memory: &mut MemoryManagementUnit<D>,
    instr: u32,
    rd: u8,
    rs1: u8,
    rs2: u8,
) -> (r: Result<(), Exception>)
    requires
        old(cpu_context).wf(),
        old(memory).wf(),
        rs1 < 32,
        rs2 < 32,
    ensures
        final(cpu_context).wf(),
        final(memory).wf(),
        outcome_of(*final(cpu_context), *final(memory), r) == amo_effect(
            InstructionFn::AmoorW,
            old(cpu_context)@,
            old(memory)@,
            rd,
            rs1,
            rs2,
        ),
{
    let addr = cpu_context.read_register(rs1 as usize);
    let src = low_word(cpu_context.read_register(rs2 as usize));
    if addr % 4 != 0 {
        return Err(Exception::LoadAddressMisaligned);
    }
    if addr > usize::MAX as u64 {
        return Err(Exception::StoreAccessFault);
    }
    let old_value = match memory.read_word(addr as usize) {
        Ok(value) => value,
        Err(_) => {
            return Err(Exception::StoreAccessFault);
        },
    };
    let value = old_value | src;
    match memory.write_word(addr as usize, value) {
        Ok(()) => {},
        Err(_) => {
            return Err(Exception::StoreAccessFault);
        },
    }
    cpu_context.set_register(rd as usize, sign_extend_word(old_value));
    Ok(())
}

/// `AMOAND.W`: ands `rs2` into the word in memory; `rd` takes what was there.
pub fn exec_amoand_w<D: Device>(
    cpu_context: &mut RV64CPUContext,
    memory: &mut MemoryManagementUnit<D>,
    instr: u32,
    rd: u8,
    rs1: u8,
    rs2: u8,
) -> (r: Result<(), Exception>)
    requires
        old(cpu_context).wf(),
        old(memory).wf(),
        rs1 < 32,
        rs2 < 32,
    ensures
        final(cpu_context).wf(),
        final(memory).wf(),
        outcome_of(*final(cpu_context), *final(memory), r) == amo_effect(
            InstructionFn::AmoandW,
            old(cpu_context)@,
            old(memory)@,
            rd,
            rs1,
            rs2,
        ),
{
    let addr = cpu_context.read_register(rs1 as usize);
    let src = low_word(cpu_context.read_register(rs2 as usize));
    if addr % 4 != 0 {
        return Err(Exception::LoadAddressMisaligned);
    }
    if addr > usize::MAX as u64 {
        return Err(Exception::StoreAccessFault);
    }
    let old_value = match memory.read_word(addr as usize) {
        Ok(value) => value,
        Err(_) => {
            return Err(Exception::StoreAccessFault);
        },
    };
    let value = old_value & src;
    match memory.write_word(addr as usize, value) {
        Ok(()) => {},
        Err(_) => {
            return Err(Exception::StoreAccessFault);
        },
    }
    cpu_context.set_register(rd as usize, sign_extend_word(old_value));
    Ok(())
}

/// `AMOMIN.W`: replaces the word in memory by the signed minimum of it and `rs2`; `rd` takes what was there.
pub fn exec_amomin_w<D: Device>(
    cpu_context: &mut RV64CPUContext,
    memory: &mut MemoryManagementUnit<D>,
    instr: u32,
    rd: u8,
    rs1: u8,
    rs2: u8,
) -> (r: Result<(), Exception>)
    requires
        old(cpu_context).wf(),
        old(memory).wf(),
        rs1 < 32,
        rs2 < 32,
    ensures
        final(cpu_context).wf(),
        final(memory).wf(),
        outcome_of(*final(cpu_context), *final(memory), r) == amo_effect(
            InstructionFn::AmominW,
            old(cpu_context)@,
            old(memory)@,
            rd,
            rs1,
            rs2,
        ),
{
    let addr = cpu_context.read_register(rs1 as usize);
    let src = low_word(cpu_context.read_register(rs2 as usize));
    if addr % 4 != 0 {
        return Err(Exception::LoadAddressMisaligned);
    }
    if addr > usize::MAX as u64 {
        return Err(Exception::StoreAccessFault);
    }
    let old_value = match memory.read_word(addr as usize) {
        Ok(value) => value,
        Err(_) => {
            return Err(Exception::StoreAccessFault);
        },
    };
    let value = if signed_less_than_word(src, old_value) {
        src
    } else {
        old_value
    };
    match memory.write_word(addr as usize, value) {
        Ok(()) => {},
        Err(_) => {
            return Err(Exception::StoreAccessFault);
        },
    }
    cpu_context.set_register(rd as usize, sign_extend_word(old_value));
    Ok(())
}

/// `AMOMAX.W`: replaces the word in memory by the signed maximum of it and `rs2`; `rd` takes what was there.
pub fn exec_amomax_w<D: Device>(
    cpu_context: &mut RV64CPUContext,
    memory: &mut MemoryManagementUnit<D>,
    instr: u32,
    rd: u8,
    rs1: u8,
    rs2: u8,
) -> (r: Result<(), Exception>)
    requires
        old(cpu_context).wf(),
        old(memory).wf(),
        rs1 < 32,
        rs2 < 32,
    ensures
        final(cpu_context).wf(),
        final(memory).wf(),
        outcome_of(*final(cpu_context), *final(memory), r) == amo_effect(
            InstructionFn::AmomaxW,
            old(cpu_context)@,
            old(memory)@,
            rd,
            rs1,
            rs2,
        ),
{
    let addr = cpu_context.read_register(rs1 as usize);
    let src = low_word(cpu_context.read_register(rs2 as usize));
    if addr % 4 != 0 {
        return Err(Exception::LoadAddressMisaligned);
    }
    if addr > usize::MAX as u64 {
        return Err(Exception::StoreAccessFault);
    }
    let old_value = match memory.read_word(addr as usize) {
        Ok(value) => value,
        Err(_) => {
            return Err(Exception::StoreAccessFault);
        },
    };
    let value = if signed_less_than_word(old_value, src) {
        src
    } else {
        old_value
    };
    match memory.write_word(addr as usize, value) {
        Ok(()) => {},
        Err(_) => {
            return Err(Exception::StoreAccessFault);
        },
    }
    cpu_context.set_register(rd as usize, sign_extend_word(old_value));
    Ok(())
}

/// `AMOMINU.W`: replaces the word in memory by the unsigned minimum of it and `rs2`; `rd` takes what was there.
pub fn exec_amominu_w<D: Device>(
    cpu_context: &mut RV64CPUContext,
    memory: &mut MemoryManagementUnit<D>,
    instr: u32,
    rd: u8,
    rs1: u8,
    rs2: u8,
) -> (r: Result<(), Exception>)
    requires
        old(cpu_context).wf(),
        old(memory).wf(),
        rs1 < 32,
        rs2 < 32,
    ensures
        final(cpu_context).wf(),
        final(memory).wf(),
        outcome_of(*final(cpu_context), *final(memory), r) == amo_effect(
            InstructionFn::AmominuW,
            old(cpu_context)@,
            old(memory)@,
            rd,
            rs1,
            rs2,
        ),
{
    let addr = cpu_context.read_register(rs1 as usize);
    let src = low_word(cpu_context.read_register(rs2 as usize));
    if addr % 4 != 0 {
        return Err(Exception::LoadAddressMisaligned);
    }
    if addr > usize::MAX as u64 {
        return Err(Exception::StoreAccessFault);
    }
    let old_value = match memory.read_word(addr as usize) {
        Ok(value) => value,
        Err(_) => {
            return Err(Exception::StoreAccessFault);
        },
    };
    let value = if src < old_value {
        src
    } else {
        old_value
    };
    match memory.write_word(addr as usize, value) {
        Ok(()) => {},
        Err(_) => {
            return Err(Exception::StoreAccessFault);
        },
    }
    cpu_context.set_register(rd as usize, sign_extend_word(old_value));
    Ok(())
}

/// `AMOMAXU.W`: replaces the word in memory by the unsigned maximum of it and `rs2`; `rd` takes what was there.
pub fn exec_amomaxu_w<D: Device>(
    cpu_context: &mut RV64CPUContext,
    memory: &mut MemoryManagementUnit<D>,
    instr: u32,
    rd: u8,
    rs1: u8,
    rs2: u8,
) -> (r: Result<(), Exception>)
    requires
        old(cpu_context).wf(),
        old(memory).wf(),
        rs1 < 32,
        rs2 < 32,
    ensures
        final(cpu_context).wf(),
        final(memory).wf(),
        outcome_of(*final(cpu_context), *final(memory), r) == amo_effect(
            InstructionFn::AmomaxuW,
            old(cpu_context)@,
            old(memory)@,
            rd,
            rs1,
            rs2,
        ),
{
    let addr = cpu_context.read_register(rs1 as usize);
    let src = low_word(cpu_context.read_register(rs2 as usize));
    if addr % 4 != 0 {
        return Err(Exception::LoadAddressMisaligned);
    }
    if addr > usize::MAX as u64 {
        return Err(Exception::StoreAccessFault);
    }
    let old_value = match memory.read_word(addr as usize) {
        Ok(value) => value,
        Err(_) => {
            return Err(Exception::StoreAccessFault);
        },
    };
    let value = if old_value < src {
        src
    } else {
        old_value
    };
    match memory.write_word(addr as usize, value) {
        Ok(()) => {},
        Err(_) => {
            return Err(Exception::StoreAccessFault);
        },
    }
    cpu_context.set_register(rd as usize, sign_extend_word(old_value));
    Ok(())
}

/// `LR.D`: loads the double word at the address in `rs1` and reserves the address for the hart.
pub fn exec_lr_d<D: Device>(
    cpu_context: &mut RV64CPUContext,
    memory: &mut MemoryManagementUnit<D>,
    instr: u32,
    rd: u8,
    rs1: u8,
    rs2: u8,
) -> (r: Result<(), Exception>)
    requires
        old(cpu_context).wf(),
        old(memory).wf(),
        rs1 < 32,
        rs2 < 32,
    ensures
        final(cpu_context).wf(),
        final(memory).wf(),
        outcome_of(*final(cpu_context), *final(memory), r) == load_reserved_effect(
            InstructionFn::LrD,
            old(cpu_context)@,
            old(memory)@,
            rd,
            rs1,
        ),
{
    let addr = cpu_context.read_register(rs1 as usize);
    if addr % 8 != 0 {
        return Err(Exception::LoadAddressMisaligned);
    }
    if addr > usize::MAX as u64 {
        return Err(Exception::LoadAccessFault);
    }
    let value = match memory.read_double_word(addr as usize) {
        Ok(value) => value,
        Err(_) => {
            return Err(Exception::LoadAccessFault);
        },
    };
    memory.set_reservation(cpu_context.hart_id(), addr);
    cpu_context.set_register(rd as usize, value);
    Ok(())
}

/// `SC.D`: stores the double word of `rs2` at the address in `rs1` if the hart holds a reservation on it, and reports in `rd` whether it did (0) or not (1).
pub fn exec_sc_d<D: Device>(
    cpu_context: &mut RV64CPUContext,
    memory: &mut MemoryManagementUnit<D>,
    instr: u32,
    rd: u8,
    rs1: u8,
    rs2: u8,
) -> (r: Result<(), Exception>)
    requires
        old(cpu_context).wf(),
        old(memory).wf(),
        rs1 < 32,
        rs2 < 32,
    ensures
        final(cpu_context).wf(),
        final(memory).wf(),
        outcome_of(*final(cpu_context), *final(memory), r) == store_conditional_effect(
            InstructionFn::ScD,
            old(cpu_context)@,
            old(memory)@,
            rd,
            rs1,
            rs2,
        ),
{
    let addr = cpu_context.read_register(rs1 as usize);
    let src = cpu_context.read_register(rs2 as usize);
    if addr % 8 != 0 {
        return Err(Exception::LoadAddressMisaligned);
    }
    if !memory.check_reservation(cpu_context.hart_id(), addr) {
        cpu_context.set_register(rd as usize, 1);
        return Ok(());
    }
    if addr > usize::MAX as u64 {
        return Err(Exception::StoreAccessFault);
    }
    match memory.write_double_word(addr as usize, src) {
        Ok(()) => {},
        Err(_) => {
            return Err(Exception::StoreAccessFault);
        },
    }
    memory.clear_reservations_for_addr(addr);
    cpu_context.set_register(rd as usize, 0);
    Ok(())
}

/// `AMOSWAP.D`: swaps `rs2` with the double word in memory; `rd` takes what was there.
pub fn exec_amoswap_d<D: Device>(
    cpu_context: &mut RV64CPUContext,
    memory: &mut MemoryManagementUnit<D>,
    instr: u32,
    rd: u8,
    rs1: u8,
    rs2: u8,
) -> (r: Result<(), Exception>)
    requires
        old(cpu_context).wf(),
        old(memory).wf(),
        rs1 < 32,
        rs2 < 32,
    ensures
        final(cpu_context).wf(),
        final(memory).wf(),
        outcome_of(*final(cpu_context), *final(memory), r) == amo_effect(
            InstructionFn::AmoswapD,
            old(cpu_context)@,
            old(memory)@,
            rd,
            rs1,
            rs2,
        ),
{
    let addr = cpu_context.read_register(rs1 as usize);
    let src = cpu_context.read_register(rs2 as usize);
    if addr % 8 != 0 {
        return Err(Exception::LoadAddressMisaligned);
    }
    if addr > usize::MAX as u64 {
        return Err(Exception::StoreAccessFault);
    }
    let old_value = match memory.read_double_word(addr as usize) {
        Ok(value) => value,
        Err(_) => {
            return Err(Exception::StoreAccessFault);
        },
    };
    let value = src;
    match memory.write_double_word(addr as usize, value) {
        Ok(()) => {},
        Err(_) => {
            return Err(Exception::StoreAccessFault);
        },
    }
    cpu_context.set_register(rd as usize, old_value);
    Ok(())
}

/// `AMOADD.D`: adds `rs2` to the double word in memory; `rd` takes what was there.
pub fn exec_amoadd_d<D: Device>(
    cpu_context: &mut RV64CPUContext,
    memory: &mut MemoryManagementUnit<D>,
    instr: u32,
    rd: u8,
    rs1: u8,
    rs2: u8,
) -> (r: Result<(), Exception>)
    requires
        old(cpu_context).wf(),
        old(memory).wf(),
        rs1 < 32,
        rs2 < 32,
    ensures
        final(cpu_context).wf(),
        final(memory).wf(),
        outcome_of(*final(cpu_context), *final(memory), r) == amo_effect(
            InstructionFn::AmoaddD,
            old(cpu_context)@,
            old(memory)@,
            rd,
            rs1,
            rs2,
        ),
{
    let addr = cpu_context.read_register(rs1 as usize);
    let src = cpu_context.read_register(rs2 as usize);
    if addr % 8 != 0 {
        return Err(Exception::LoadAddressMisaligned);
    }
    if addr > usize::MAX as u64 {
        return Err(Exception::StoreAccessFault);
    }
    let old_value = match memory.read_double_word(addr as usize) {
        Ok(value) => value,
        Err(_) => {
            return Err(Exception::StoreAccessFault);
        },
    };
    let value = old_value.wrapping_add(src);
    match memory.write_double_word(addr as usize, value) {
        Ok(()) => {},
        Err(_) => {
            return Err(Exception::StoreAccessFault);
        },
    }
    cpu_context.set_register(rd as usize, old_value);
    Ok(())
}

/// `AMOXOR.D`: xors `rs2` into the double word in memory; `rd` takes what was there.
pub fn exec_amoxor_d<D: Device>(
    cpu_context: &mut RV64CPUContext,
    memory: &mut MemoryManagementUnit<D>,
    instr: u32,
    rd: u8,
    rs1: u8,
    rs2: u8,
) -> (r: Result<(), Exception>)
    requires
        old(cpu_context).wf(),
        old(memory).wf(),
        rs1 < 32,
        rs2 < 32,
    ensures
        final(cpu_context).wf(),
        final(memory).wf(),
        outcome_of(*final(cpu_context), *final(memory), r) == amo_effect(
            InstructionFn::AmoxorD,
            old(cpu_context)@,
            old(memory)@,
            rd,
            rs1,
            rs2,
        ),
{
    let addr = cpu_context.read_register(rs1 as usize);
    let src = cpu_context.read_register(rs2 as usize);
    if addr % 8 != 0 {
        return Err(Exception::LoadAddressMisaligned);
    }
    if addr > usize::MAX as u64 {
        return Err(Exception::StoreAccessFault);
    }
    let old_value = match memory.read_double_word(addr as usize) {
        Ok(value) => value,
        Err(_) => {
            return Err(Exception::StoreAccessFault);
        },
    };
    let value = old_value ^ src;
    match memory.write_double_word(addr as usize, value) {
        Ok(()) => {},
        Err(_) => {
            return Err(Exception::StoreAccessFault);
        },
    }
    cpu_context.set_register(rd as usize, old_value);
    Ok(())
}

/// `AMOOR.D`: ors `rs2` into the double word in memory; `rd` takes what was there.
pub fn exec_amoor_d<D: Device>(
    cpu_context: &mut RV64CPUContext,
    memory: &mut MemoryManagementUnit<D>,
    instr: u32,
    rd: u8,
    rs1: u8,
    rs2: u8,
) -> (r: Result<(), Exception>)
    requires
        old(cpu_context).wf(),
        old(memory).wf(),
        rs1 < 32,
        rs2 < 32,
    ensures
        final(cpu_context).wf(),
        final(memory).wf(),
        outcome_of(*final(cpu_context), *final(memory), r) == amo_effect(
            InstructionFn::AmoorD,
            old(cpu_context)@,
            old(memory)@,
            rd,
            rs1,
            rs2,
        ),
{
    let addr = cpu_context.read_register(rs1 as usize);
    let src = cpu_context.read_register(rs2 as usize);
    if addr % 8 != 0 {
        return Err(Exception::LoadAddressMisaligned);
    }
    if addr > usize::MAX as u64 {
        return Err(Exception::StoreAccessFault);
    }
    let old_value = match memory.read_double_word(addr as usize) {
        Ok(value) => value,
        Err(_) => {
            return Err(Exception::StoreAccessFault);
        },
    };
    let value = old_value | src;
    match memory.write_double_word(addr as usize, value) {
        Ok(()) => {},
        Err(_) => {
            return Err(Exception::StoreAccessFault);
        },
    }
    cpu_context.set_register(rd as usize, old_value);
    Ok(())
}

/// `AMOAND.D`: ands `rs2` into the double word in memory; `rd` takes what was there.
pub fn exec_amoand_d<D: Device>(
    cpu_context: &mut RV64CPUContext,
    memory: &mut MemoryManagementUnit<D>,
    instr: u32,
    rd: u8,
    rs1: u8,
    rs2: u8,
) -> (r: Result<(), Exception>)
    requires
        old(cpu_context).wf(),
        old(memory).wf(),
        rs1 < 32,
        rs2 < 32,
    ensures
        final(cpu_context).wf(),
        final(memory).wf(),
        outcome_of(*final(cpu_context), *final(memory), r) == amo_effect(
            InstructionFn::AmoandD,
            old(cpu_context)@,
            old(memory)@,
            rd,
            rs1,
            rs2,
        ),
{
    let addr = cpu_context.read_register(rs1 as usize);
    let src = cpu_context.read_register(rs2 as usize);
    if addr % 8 != 0 {
        return Err(Exception::LoadAddressMisaligned);
    }
    if addr > usize::MAX as u64 {
        return Err(Exception::StoreAccessFault);
    }
    let old_value = match memory.read_double_word(addr as usize) {
        Ok(value) => value,
        Err(_) => {
            return Err(Exception::StoreAccessFault);
        },
    };
    let value = old_value & src;
    match memory.write_double_word(addr as usize, value) {
        Ok(()) => {},
        Err(_) => {
            return Err(Exception::StoreAccessFault);
        },
    }
    cpu_context.set_register(rd as usize, old_value);
    Ok(())
}

/// `AMOMIN.D`: replaces the double word in memory by the signed minimum of it and `rs2`; `rd` takes what was there.
pub fn exec_amomin_d<D: Device>(
    cpu_context: &mut RV64CPUContext,
    memory: &mut MemoryManagementUnit<D>,
    instr: u32,
    rd: u8,
    rs1: u8,
    rs2: u8,
) -> (r: Result<(), Exception>)
    requires
        old(cpu_context).wf(),
        old(memory).wf(),
        rs1 < 32,
        rs2 < 32,
    ensures
        final(cpu_context).wf(),
        final(memory).wf(),
        outcome_of(*final(cpu_context), *final(memory), r) == amo_effect(
            InstructionFn::AmominD,
            old(cpu_context)@,
            old(memory)@,
            rd,
            rs1,
            rs2,
        ),
{
    let addr = cpu_context.read_register(rs1 as usize);
    let src = cpu_context.read_register(rs2 as usize);
    if addr % 8 != 0 {
        return Err(Exception::LoadAddressMisaligned);
    }
    if addr > usize::MAX as u64 {
        return Err(Exception::StoreAccessFault);
    }
    let old_value = match memory.read_double_word(addr as usize) {
        Ok(value) => value,
        Err(_) => {
            return Err(Exception::StoreAccessFault);
        },
    };
    let value = if signed_less_than(src, old_value) {
        src
    } else {
        old_value
    };
    match memory.write_double_word(addr as usize, value) {
        Ok(()) => {},
        Err(_) => {
            return Err(Exception::StoreAccessFault);
        },
    }
    cpu_context.set_register(rd as usize, old_value);
    Ok(())
}

/// `AMOMAX.D`: replaces the double word in memory by the signed maximum of it and `rs2`; `rd` takes what was there.
pub fn exec_amomax_d<D: Device>(
    cpu_context: &mut RV64CPUContext,
    memory: &mut MemoryManagementUnit<D>,
    instr: u32,
    rd: u8,
    rs1: u8,
    rs2: u8,
) -> (r: Result<(), Exception>)
    requires
        old(cpu_context).wf(),
        old(memory).wf(),
        rs1 < 32,
        rs2 < 32,
    ensures
        final(cpu_context).wf(),
        final(memory).wf(),
        outcome_of(*final(cpu_context), *final(memory), r) == amo_effect(
            InstructionFn::AmomaxD,
            old(cpu_context)@,
            old(memory)@,
            rd,
            rs1,
            rs2,
        ),
{
    let addr = cpu_context.read_register(rs1 as usize);
    let src = cpu_context.read_register(rs2 as usize);
    if addr % 8 != 0 {
        return Err(Exception::LoadAddressMisaligned);
    }
    if addr > usize::MAX as u64 {
        return Err(Exception::StoreAccessFault);
    }
    let old_value = match memory.read_double_word(addr as usize) {
        Ok(value) => value,
        Err(_) => {
            return Err(Exception::StoreAccessFault);
        },
    };
    let value = if signed_less_than(old_value, src) {
        src
    } else {
        old_value
    };
    match memory.write_double_word(addr as usize, value) {
        Ok(()) => {},
        Err(_) => {
            return Err(Exception::StoreAccessFault);
        },
    }
    cpu_context.set_register(rd as usize, old_value);
    Ok(())
}

/// `AMOMINU.D`: replaces the double word in memory by the unsigned minimum of it and `rs2`; `rd` takes what was there.
pub fn exec_amominu_d<D: Device>(
    cpu_context: &mut RV64CPUContext,
    memory: &mut MemoryManagementUnit<D>,
    instr: u32,
    rd: u8,
    rs1: u8,
    rs2: u8,
) -> (r: Result<(), Exception>)
    requires
        old(cpu_context).wf(),
        old(memory).wf(),
        rs1 < 32,
        rs2 < 32,
    ensures
        final(cpu_context).wf(),
        final(memory).wf(),
        outcome_of(*final(cpu_context), *final(memory), r) == amo_effect(
            InstructionFn::AmominuD,
            old(cpu_context)@,
            old(memory)@,
            rd,
            rs1,
            rs2,
        ),
{
    let addr = cpu_context.read_register(rs1 as usize);
    let src = cpu_context.read_register(rs2 as usize);
    if addr % 8 != 0 {
        return Err(Exception::LoadAddressMisaligned);
    }
    if addr > usize::MAX as u64 {
        return Err(Exception::StoreAccessFault);
    }
    let old_value = match memory.read_double_word(addr as usize) {
        Ok(value) => value,
        Err(_) => {
            return Err(Exception::StoreAccessFault);
        },
    };
    let value = if src < old_value {
        src
    } else {
        old_value
    };
    match memory.write_double_word(addr as usize, value) {
        Ok(()) => {},
        Err(_) => {
            return Err(Exception::StoreAccessFault);
        },
    }
    cpu_context.set_register(rd as usize, old_value);
    Ok(())
}

/// `AMOMAXU.D`: replaces the double word in memory by the unsigned maximum of it and `rs2`; `rd` takes what was there.
pub fn exec_amomaxu_d<D: Device>(
    cpu_context: &mut RV64CPUContext,
    memory: &mut MemoryManagementUnit<D>,
    instr: u32,
    rd: u8,
    rs1: u8,
    rs2: u8,
) -> (r: Result<(), Exception>)
    requires
        old(cpu_context).wf(),
        old(memory).wf(),
        rs1 < 32,
        rs2 < 32,
    ensures
        final(cpu_context).wf(),
        final(memory).wf(),
        outcome_of(*final(cpu_context), *final(memory), r) == amo_effect(
            InstructionFn::AmomaxuD,
            old(cpu_context)@,
            old(memory)@,
            rd,
            rs1,
            rs2,
        ),
{
    let addr = cpu_context.read_register(rs1 as usize);
    let src = cpu_context.read_register(rs2 as usize);
    if addr % 8 != 0 {
        return Err(Exception::LoadAddressMisaligned);
    }
    if addr > usize::MAX as u64 {
        return Err(Exception::StoreAccessFault);
    }
    let old_value = match memory.read_double_word(addr as usize) {
        Ok(value) => value,
        Err(_) => {
            return Err(Exception::StoreAccessFault);
        },
    };
    let value = if old_value < src {
        src
    } else {
        old_value
    };
    match memory.write_double_word(addr as usize, value) {
        Ok(()) => {},
        Err(_) => {
            return Err(Exception::StoreAccessFault);
        },
    }
    cpu_context.set_register(rd as usize, old_value);
    Ok(())
}

/// The atomic that the function fields select.
pub open spec fn atomic_decoded(funct3: u8, funct5: u8) -> InstructionFn {
    if funct3 == 0x2 {
        if funct5 == 0x02 {
            InstructionFn::LrW
        } else if funct5 == 0x03 {
            InstructionFn::ScW
        } else if funct5 == 0x01 {
            InstructionFn::AmoswapW
        } else if funct5 == 0x00 {
            InstructionFn::AmoaddW
        } else if funct5 == 0x04 {
            InstructionFn::AmoxorW
        } else if funct5 == 0x08 {
            InstructionFn::AmoorW
        } else if funct5 == 0x0C {
            InstructionFn::AmoandW
        } else if funct5 == 0x10 {
            InstructionFn::AmominW
        } else if funct5 == 0x14 {
            InstructionFn::AmomaxW
        } else if funct5 == 0x18 {
            InstructionFn::AmominuW
        } else if funct5 == 0x1C {
            InstructionFn::AmomaxuW
        } else {
            InstructionFn::Illegal
        }
    } else if funct3 == 0x3 {
        if funct5 == 0x02 {
            InstructionFn::LrD
        } else if funct5 == 0x03 {
            InstructionFn::ScD
        } else if funct5 == 0x01 {
            InstructionFn::AmoswapD
        } else if funct5 == 0x00 {
            InstructionFn::AmoaddD
        } else if funct5 == 0x04 {
            InstructionFn::AmoxorD
        } else if funct5 == 0x08 {
            InstructionFn::AmoorD
        } else if funct5 == 0x0C {
            InstructionFn::AmoandD
        } else if funct5 == 0x10 {
            InstructionFn::AmominD
        } else if funct5 == 0x14 {
            InstructionFn::AmomaxD
        } else if funct5 == 0x18 {
            InstructionFn::AmominuD
        } else if funct5 == 0x1C {
            InstructionFn::AmomaxuD
        } else {
            InstructionFn::Illegal
        }
    } else {
        InstructionFn::Illegal
    }
}

impl ParsableInstructionGroup for AtomicOpcodeGroup {
    open spec fn decoded(instr: u32) -> InstructionFn {
        atomic_decoded(funct3_of(instr), funct5_of(instr))
    }

    fn parse(instr: u32) -> (decoded: InstructionFn) {
        let funct3 = funct3(instr);
        let funct5 = funct5(instr);
        match (funct3, funct5) {
            (0x2, 0x02) => InstructionFn::LrW,
            (0x2, 0x03) => InstructionFn::ScW,
            (0x2, 0x01) => InstructionFn::AmoswapW,
            (0x2, 0x00) => InstructionFn::AmoaddW,
            (0x2, 0x04) => InstructionFn::AmoxorW,
            (0x2, 0x08) => InstructionFn::AmoorW,
            (0x2, 0x0C) => InstructionFn::AmoandW,
            (0x2, 0x10) => InstructionFn::AmominW,
            (0x2, 0x14) => InstructionFn::AmomaxW,
            (0x2, 0x18) => InstructionFn::AmominuW,
            (0x2, 0x1C) => InstructionFn::AmomaxuW,
            (0x3, 0x02) => InstructionFn::LrD,
            (0x3, 0x03) => InstructionFn::ScD,
            (0x3, 0x01) => InstructionFn::AmoswapD,
            (0x3, 0x00) => InstructionFn::AmoaddD,
            (0x3, 0x04) => InstructionFn::AmoxorD,
            (0x3, 0x08) => InstructionFn::AmoorD,
            (0x3, 0x0C) => InstructionFn::AmoandD,
            (0x3, 0x10) => InstructionFn::AmominD,
            (0x3, 0x14) => InstructionFn::AmomaxD,
            (0x3, 0x18) => InstructionFn::AmominuD,
            (0x3, 0x1C) => InstructionFn::AmomaxuD,
            _ => InstructionFn::Illegal,
        }
    }
}

/// After a store-conditional that stored, no hart holds a reservation
/// on the address it stored to.
pub proof fn lemma_store_conditional_clears(
    op: InstructionFn,
    cpu: CpuState,
    memory: MemoryState,
    rd: u8,
    rs1: u8,
    rs2: u8,
    hart: u64,
)
    requires
        cpu.x[rs1 as int] % (atomic_width(op) as u64) == 0,
        memory.reserved(cpu.hart_id, cpu.x[rs1 as int]),
        reachable(memory, cpu.x[rs1 as int], atomic_width(op)),
    ensures
        store_conditional_effect(op, cpu, memory, rd, rs1, rs2).result == Ok::<(), Exception>(()),
        !store_conditional_effect(op, cpu, memory, rd, rs1, rs2).memory.reserved(
            hart,
            cpu.x[rs1 as int],
        ),
{
}

} // verus!
