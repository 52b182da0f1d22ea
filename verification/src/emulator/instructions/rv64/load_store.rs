use crate::emulator::instructions::arith::{
    low32, low_word, sext16, sext32, sext8, sign_extend_byte, sign_extend_half, sign_extend_word,
    wrap64,
};
use crate::emulator::instructions::{funct3, funct3_of, InstructionFn, ParsableInstructionGroup};
use crate::emulator::state::memory::{
    le_bytes_u16, le_bytes_u32, le_bytes_u64, le_u16, le_u32, le_u64, sum_sizes, Device,
    MemoryManagementUnit, MemoryState, RegionState,
};
use crate::emulator::state::rv64_cpu_context::{Exception, RV64CPUContext};
use vstd::prelude::*;

verus! {

/// The opcode of the loads.
pub const LOAD_OPCODE: u8 = 0x03;

/// The opcode of the stores.
pub const STORE_OPCODE: u8 = 0x23;

/// The opcode of `FENCE` and `FENCE.I`.
pub const MISC_MEM_OPCODE: u8 = 0x0F;

/// The loads.
pub struct LoadOpcodeGroup {}

/// The stores.
pub struct StoreOpcodeGroup {}

/// `FENCE` and `FENCE.I`.
pub struct FenceOpcodeGroup {}

/// The address of a load or store: `base + offset`, modulo 2^64.
pub open spec fn effective_address(base: u64, offset: u64) -> u64 {
    wrap64(base + offset)
}

/// Whether a load or store of `width` bytes at `address` goes through:
/// its last byte lies below the total size of memory, and one region
/// covers it.
pub open spec fn accessible(memory: MemoryState, address: u64, width: int) -> bool {
    &&& address + (width - 1) < memory.total_size()
    &&& address <= usize::MAX
    &&& memory.covered(address as int, width)
}

/// The number of bytes that a load or store moves.
pub open spec fn access_width(op: InstructionFn) -> int {
    match op {
        InstructionFn::LoadByte | InstructionFn::LoadByteUnsigned | InstructionFn::StoreByte => 1,
        InstructionFn::LoadHword | InstructionFn::LoadHwordUnsigned
        | InstructionFn::StoreHalfWord => 2,
        InstructionFn::LoadWord | InstructionFn::LoadWordUnsigned | InstructionFn::StoreWord => 4,
        _ => 8,
    }
}

/// What a load writes to its destination, given the bytes at its
/// address: their little-endian value, sign-extended by the signed loads
/// and zero-extended by the unsigned ones.
pub open spec fn load_value(op: InstructionFn, bytes: Seq<u8>) -> u64 {
    match op {
        InstructionFn::LoadByte => sext8(bytes[0]),
        InstructionFn::LoadHword => sext16(le_u16(bytes)),
        InstructionFn::LoadWord => sext32(le_u32(bytes)),
        InstructionFn::LoadByteUnsigned => bytes[0] as u64,
        InstructionFn::LoadHwordUnsigned => le_u16(bytes) as u64,
        InstructionFn::LoadWordUnsigned => le_u32(bytes) as u64,
        _ => le_u64(bytes),
    }
}

/// The bytes that a store writes at its address: the low-order bytes of
/// the value of `rs2`, least significant first.
pub open spec fn store_data(op: InstructionFn, value: u64) -> Seq<u8> {
    match op {
        InstructionFn::StoreByte => seq![(value % 0x100) as u8],
        InstructionFn::StoreHalfWord => le_bytes_u16((value % 0x1_0000) as u16),
        InstructionFn::StoreWord => le_bytes_u32(low32(value)),
        _ => le_bytes_u64(value),
    }
}

/// Returns whether the last of `width` bytes from `address` lies below
/// the total size of memory and `address` is one the host can form.
pub fn in_bounds<D: Device>(memory: &MemoryManagementUnit<D>, address: u64, width: u64) -> (within:
    bool)
    requires
        memory.wf(),
        1 <= width <= 8,
    ensures
        within == (address + (width - 1) < memory@.total_size() && address <= usize::MAX),
{
    let extent = width - 1;
    let size = memory.size();
    if address > u64::MAX - extent {
        return false;
    }
    if address + extent >= size {
        return false;
    }
    address <= usize::MAX as u64
}

/// `LB`: loads the byte at `rs1 + imm`, sign-extended.
pub fn exec_load_byte<D: Device>(
    cpu_context: &mut RV64CPUContext,
    memory: &MemoryManagementUnit<D>,
    instr: u32,
    rd: u8,
    rs1: u8,
    imm: u64,
) -> (r: Result<(), Exception>)
    requires
        old(cpu_context).wf(),
        memory.wf(),
        rs1 < 32,
    ensures
        final(cpu_context).wf(),
        ({
            let address = effective_address(old(cpu_context)@.x[rs1 as int], imm);
            if accessible(memory@, address, 1) {
                &&& r == Ok::<(), Exception>(())
                &&& final(cpu_context)@ == old(cpu_context)@.set_x(
                    rd as int,
                    load_value(InstructionFn::LoadByte, memory@.window(address as int, 1)),
                )
            } else {
                &&& r == Err::<(), Exception>(Exception::LoadAccessFault)
                &&& final(cpu_context)@ == old(cpu_context)@
            }
        }),
{
    let address = cpu_context.read_register(rs1 as usize).wrapping_add(imm);
    if !in_bounds(memory, address, 1) {
        return Err(Exception::LoadAccessFault);
    }
    match memory.read_byte(address as usize) {
        Ok(loaded) => {
            let value: u64 = sign_extend_byte(loaded);
            cpu_context.set_register(rd as usize, value);
            Ok(())
        },
        Err(_) => Err(Exception::LoadAccessFault),
    }
}

/// `LH`: loads the half word at `rs1 + imm`, sign-extended.
pub fn exec_load_hword<D: Device>(
    cpu_context: &mut RV64CPUContext,
    memory: &MemoryManagementUnit<D>,
    instr: u32,
    rd: u8,
    rs1: u8,
    imm: u64,
) -> (r: Result<(), Exception>)
    requires
        old(cpu_context).wf(),
        memory.wf(),
        rs1 < 32,
    ensures
        final(cpu_context).wf(),
        ({
            let address = effective_address(old(cpu_context)@.x[rs1 as int], imm);
            if accessible(memory@, address, 2) {
                &&& r == Ok::<(), Exception>(())
                &&& final(cpu_context)@ == old(cpu_context)@.set_x(
                    rd as int,
                    load_value(InstructionFn::LoadHword, memory@.window(address as int, 2)),
                )
            } else {
                &&& r == Err::<(), Exception>(Exception::LoadAccessFault)
                &&& final(cpu_context)@ == old(cpu_context)@
            }
        }),
{
    let address = cpu_context.read_register(rs1 as usize).wrapping_add(imm);
    if !in_bounds(memory, address, 2) {
        return Err(Exception::LoadAccessFault);
    }
    match memory.read_half_word(address as usize) {
        Ok(loaded) => {
            let value: u64 = sign_extend_half(loaded);
            cpu_context.set_register(rd as usize, value);
            Ok(())
        },
        Err(_) => Err(Exception::LoadAccessFault),
    }
}

/// `LW`: loads the word at `rs1 + imm`, sign-extended.
pub fn exec_load_word<D: Device>(
    cpu_context: &mut RV64CPUContext,
    memory: &MemoryManagementUnit<D>,
    instr: u32,
    rd: u8,
    rs1: u8,
    imm: u64,
) -> (r: Result<(), Exception>)
    requires
        old(cpu_context).wf(),
        memory.wf(),
        rs1 < 32,
    ensures
        final(cpu_context).wf(),
        ({
            let address = effective_address(old(cpu_context)@.x[rs1 as int], imm);
            if accessible(memory@, address, 4) {
                &&& r == Ok::<(), Exception>(())
                &&& final(cpu_context)@ == old(cpu_context)@.set_x(
                    rd as int,
                    load_value(InstructionFn::LoadWord, memory@.window(address as int, 4)),
                )
            } else {
                &&& r == Err::<(), Exception>(Exception::LoadAccessFault)
                &&& final(cpu_context)@ == old(cpu_context)@
            }
        }),
{
    let address = cpu_context.read_register(rs1 as usize).wrapping_add(imm);
    if !in_bounds(memory, address, 4) {
        return Err(Exception::LoadAccessFault);
    }
    match memory.read_word(address as usize) {
        Ok(loaded) => {
            let value: u64 = sign_extend_word(loaded);
            cpu_context.set_register(rd as usize, value);
            Ok(())
        },
        Err(_) => Err(Exception::LoadAccessFault),
    }
}

/// `LD`: loads the double word at `rs1 + imm`.
pub fn exec_load_dword<D: Device>(
    cpu_context: &mut RV64CPUContext,
    memory: &MemoryManagementUnit<D>,
    instr: u32,
    rd: u8,
    rs1: u8,
    imm: u64,
) -> (r: Result<(), Exception>)
    requires
        old(cpu_context).wf(),
        memory.wf(),
        rs1 < 32,
    ensures
        final(cpu_context).wf(),
        ({
            let address = effective_address(old(cpu_context)@.x[rs1 as int], imm);
            if accessible(memory@, address, 8) {
                &&& r == Ok::<(), Exception>(())
                &&& final(cpu_context)@ == old(cpu_context)@.set_x(
                    rd as int,
                    load_value(InstructionFn::LoadDword, memory@.window(address as int, 8)),
                )
            } else {
                &&& r == Err::<(), Exception>(Exception::LoadAccessFault)
                &&& final(cpu_context)@ == old(cpu_context)@
            }
        }),
{
    let address = cpu_context.read_register(rs1 as usize).wrapping_add(imm);
    if !in_bounds(memory, address, 8) {
        return Err(Exception::LoadAccessFault);
    }
    match memory.read_double_word(address as usize) {
        Ok(loaded) => {
            let value: u64 = loaded;
            cpu_context.set_register(rd as usize, value);
            Ok(())
        },
        Err(_) => Err(Exception::LoadAccessFault),
    }
}

/// `LBU`: loads the byte at `rs1 + imm`, zero-extended.
pub fn exec_load_byte_unsigned<D: Device>(
    cpu_context: &mut RV64CPUContext,
    memory: &MemoryManagementUnit<D>,
    instr: u32,
    rd: u8,
    rs1: u8,
    imm: u64,
) -> (r: Result<(), Exception>)
    requires
        old(cpu_context).wf(),
        memory.wf(),
        rs1 < 32,
    ensures
        final(cpu_context).wf(),
        ({
            let address = effective_address(old(cpu_context)@.x[rs1 as int], imm);
            if accessible(memory@, address, 1) {
                &&& r == Ok::<(), Exception>(())
                &&& final(cpu_context)@ == old(cpu_context)@.set_x(
                    rd as int,
                    load_value(InstructionFn::LoadByteUnsigned, memory@.window(address as int, 1)),
                )
            } else {
                &&& r == Err::<(), Exception>(Exception::LoadAccessFault)
                &&& final(cpu_context)@ == old(cpu_context)@
            }
        }),
{
    let address = cpu_context.read_register(rs1 as usize).wrapping_add(imm);
    if !in_bounds(memory, address, 1) {
        return Err(Exception::LoadAccessFault);
    }
    match memory.read_byte(address as usize) {
        Ok(loaded) => {
            let value: u64 = loaded as u64;
            cpu_context.set_register(rd as usize, value);
            Ok(())
        },
        Err(_) => Err(Exception::LoadAccessFault),
    }
}

/// `LHU`: loads the half word at `rs1 + imm`, zero-extended.
pub fn exec_load_hword_unsigned<D: Device>(
    cpu_context: &mut RV64CPUContext,
    memory: &MemoryManagementUnit<D>,
    instr: u32,
    rd: u8,
    rs1: u8,
    imm: u64,
) -> (r: Result<(), Exception>)
    requires
        old(cpu_context).wf(),
        memory.wf(),
        rs1 < 32,
    ensures
        final(cpu_context).wf(),
        ({
            let address = effective_address(old(cpu_context)@.x[rs1 as int], imm);
            if accessible(memory@, address, 2) {
                &&& r == Ok::<(), Exception>(())
                &&& final(cpu_context)@ == old(cpu_context)@.set_x(
                    rd as int,
                    load_value(InstructionFn::LoadHwordUnsigned, memory@.window(address as int, 2)),
                )
            } else {
                &&& r == Err::<(), Exception>(Exception::LoadAccessFault)
                &&& final(cpu_context)@ == old(cpu_context)@
            }
        }),
{
    let address = cpu_context.read_register(rs1 as usize).wrapping_add(imm);
    if !in_bounds(memory, address, 2) {
        return Err(Exception::LoadAccessFault);
    }
    match memory.read_half_word(address as usize) {
        Ok(loaded) => {
            let value: u64 = loaded as u64;
            cpu_context.set_register(rd as usize, value);
            Ok(())
        },
        Err(_) => Err(Exception::LoadAccessFault),
    }
}

/// `LWU`: loads the word at `rs1 + imm`, zero-extended.
pub fn exec_load_word_unsigned<D: Device>(
    cpu_context: &mut RV64CPUContext,
    memory: &MemoryManagementUnit<D>,
    instr: u32,
    rd: u8,
    rs1: u8,
    imm: u64,
) -> (r: Result<(), Exception>)
    requires
        old(cpu_context).wf(),
        memory.wf(),
        rs1 < 32,
    ensures
        final(cpu_context).wf(),
        ({
            let address = effective_address(old(cpu_context)@.x[rs1 as int], imm);
            if accessible(memory@, address, 4) {
                &&& r == Ok::<(), Exception>(())
                &&& final(cpu_context)@ == old(cpu_context)@.set_x(
                    rd as int,
                    load_value(InstructionFn::LoadWordUnsigned, memory@.window(address as int, 4)),
                )
            } else {
                &&& r == Err::<(), Exception>(Exception::LoadAccessFault)
                &&& final(cpu_context)@ == old(cpu_context)@
            }
        }),
{
    let address = cpu_context.read_register(rs1 as usize).wrapping_add(imm);
    if !in_bounds(memory, address, 4) {
        return Err(Exception::LoadAccessFault);
    }
    match memory.read_word(address as usize) {
        Ok(loaded) => {
            let value: u64 = loaded as u64;
            cpu_context.set_register(rd as usize, value);
            Ok(())
        },
        Err(_) => Err(Exception::LoadAccessFault),
    }
}

/// `SB`: stores the low byte of `rs2` at `rs1 + imm`.
pub fn exec_store_byte<D: Device>(
    cpu_context: &mut RV64CPUContext,
    memory: &mut MemoryManagementUnit<D>,
    instr: u32,
    rs1: u8,
    rs2: u8,
    imm: u64,
) -> (r: Result<(), Exception>)
    requires
        old(cpu_context).wf(),
        old(memory).wf(),
        rs1 < 32,
        rs2 < 32,
    ensures
        final(cpu_context).wf(),
        final(memory).wf(),
        final(cpu_context)@ == old(cpu_context)@,
        ({
            let address = effective_address(old(cpu_context)@.x[rs1 as int], imm);
            if accessible(old(memory)@, address, 1) {
                &&& r == Ok::<(), Exception>(())
                &&& final(memory)@ == old(memory)@.patched(
                    address as int,
                    store_data(InstructionFn::StoreByte, old(cpu_context)@.x[rs2 as int]),
                )
            } else {
                &&& r == Err::<(), Exception>(Exception::StoreAccessFault)
                &&& final(memory)@ == old(memory)@
            }
        }),
{
    let address = cpu_context.read_register(rs1 as usize).wrapping_add(imm);
    if !in_bounds(memory, address, 1) {
        return Err(Exception::StoreAccessFault);
    }
    let value = cpu_context.read_register(rs2 as usize);
    match memory.write_byte(address as usize, (value % 0x100) as u8) {
        Ok(()) => Ok(()),
        Err(_) => Err(Exception::StoreAccessFault),
    }
}

/// `SH`: stores the low half word of `rs2` at `rs1 + imm`.
pub fn exec_store_half_word<D: Device>(
    cpu_context: &mut RV64CPUContext,
    memory: &mut MemoryManagementUnit<D>,
    instr: u32,
    rs1: u8,
    rs2: u8,
    imm: u64,
) -> (r: Result<(), Exception>)
    requires
        old(cpu_context).wf(),
        old(memory).wf(),
        rs1 < 32,
        rs2 < 32,
    ensures
        final(cpu_context).wf(),
        final(memory).wf(),
        final(cpu_context)@ == old(cpu_context)@,
        ({
            let address = effective_address(old(cpu_context)@.x[rs1 as int], imm);
            if accessible(old(memory)@, address, 2) {
                &&& r == Ok::<(), Exception>(())
                &&& final(memory)@ == old(memory)@.patched(
                    address as int,
                    store_data(InstructionFn::StoreHalfWord, old(cpu_context)@.x[rs2 as int]),
                )
            } else {
                &&& r == Err::<(), Exception>(Exception::StoreAccessFault)
                &&& final(memory)@ == old(memory)@
            }
        }),
{
    let address = cpu_context.read_register(rs1 as usize).wrapping_add(imm);
    if !in_bounds(memory, address, 2) {
        return Err(Exception::StoreAccessFault);
    }
    let value = cpu_context.read_register(rs2 as usize);
    match memory.write_half_word(address as usize, (value % 0x1_0000) as u16) {
        Ok(()) => Ok(()),
        Err(_) => Err(Exception::StoreAccessFault),
    }
}

/// `SW`: stores the low word of `rs2` at `rs1 + imm`.
pub fn exec_store_word<D: Device>(
    cpu_context: &mut RV64CPUContext,
    memory: &mut MemoryManagementUnit<D>,
    instr: u32,
    rs1: u8,
    rs2: u8,
    imm: u64,
) -> (r: Result<(), Exception>)
    requires
        old(cpu_context).wf(),
        old(memory).wf(),
        rs1 < 32,
        rs2 < 32,
    ensures
        final(cpu_context).wf(),
        final(memory).wf(),
        final(cpu_context)@ == old(cpu_context)@,
        ({
            let address = effective_address(old(cpu_context)@.x[rs1 as int], imm);
            if accessible(old(memory)@, address, 4) {
                &&& r == Ok::<(), Exception>(())
                &&& final(memory)@ == old(memory)@.patched(
                    address as int,
                    store_data(InstructionFn::StoreWord, old(cpu_context)@.x[rs2 as int]),
                )
            } else {
                &&& r == Err::<(), Exception>(Exception::StoreAccessFault)
                &&& final(memory)@ == old(memory)@
            }
        }),
{
    let address = cpu_context.read_register(rs1 as usize).wrapping_add(imm);
    if !in_bounds(memory, address, 4) {
        return Err(Exception::StoreAccessFault);
    }
    let value = cpu_context.read_register(rs2 as usize);
    match memory.write_word(address as usize, low_word(value)) {
        Ok(()) => Ok(()),
        Err(_) => Err(Exception::StoreAccessFault),
    }
}

/// `SD`: stores `rs2` at `rs1 + imm`.
pub fn exec_store_dword<D: Device>(
    cpu_context: &mut RV64CPUContext,
    memory: &mut MemoryManagementUnit<D>,
    instr: u32,
    rs1: u8,
    rs2: u8,
    imm: u64,
) -> (r: Result<(), Exception>)
    requires
        old(cpu_context).wf(),
        old(memory).wf(),
        rs1 < 32,
        rs2 < 32,
    ensures
        final(cpu_context).wf(),
        final(memory).wf(),
        final(cpu_context)@ == old(cpu_context)@,
        ({
            let address = effective_address(old(cpu_context)@.x[rs1 as int], imm);
            if accessible(old(memory)@, address, 8) {
                &&& r == Ok::<(), Exception>(())
                &&& final(memory)@ == old(memory)@.patched(
                    address as int,
                    store_data(InstructionFn::StoreDword, old(cpu_context)@.x[rs2 as int]),
                )
            } else {
                &&& r == Err::<(), Exception>(Exception::StoreAccessFault)
                &&& final(memory)@ == old(memory)@
            }
        }),
{
    let address = cpu_context.read_register(rs1 as usize).wrapping_add(imm);
    if !in_bounds(memory, address, 8) {
        return Err(Exception::StoreAccessFault);
    }
    let value = cpu_context.read_register(rs2 as usize);
    match memory.write_double_word(address as usize, value) {
        Ok(()) => Ok(()),
        Err(_) => Err(Exception::StoreAccessFault),
    }
}

/// In a memory of one region that starts at address 0, a load or store
/// goes through exactly when its last byte lies below the size of the
/// memory.
pub proof fn lemma_flat_memory_access(memory: MemoryState, address: u64, width: int)
    requires
        memory.wf(),
        memory.regions.len() == 1,
        memory.regions[0].start == 0,
        1 <= width,
    ensures
        accessible(memory, address, width) == (address + (width - 1) < memory.total_size()),
{
    assert(memory.regions.drop_last() =~= Seq::<RegionState>::empty());
    assert(sum_sizes(memory.regions) == sum_sizes(memory.regions.drop_last())
        + memory.regions.last().size);
    assert(sum_sizes(memory.regions.drop_last()) == 0);
    if address + (width - 1) < memory.total_size() {
        assert(memory.holds(0, address as int, width));
    }
}

/// `FENCE` and `FENCE.I`: with one hart stepping at a time every access
/// is already in order, so nothing changes.
pub fn exec_fence(cpu_context: &mut RV64CPUContext, instr: u32) -> (r: Result<(), Exception>)
    ensures
        r == Ok::<(), Exception>(()),
        final(cpu_context)@ == old(cpu_context)@,
{
    Ok(())
}

/// The load that `funct3` selects.
pub open spec fn load_decoded(funct3: u8) -> InstructionFn {
    if funct3 == 0x0 {
        InstructionFn::LoadByte
    } else if funct3 == 0x1 {
        InstructionFn::LoadHword
    } else if funct3 == 0x2 {
        InstructionFn::LoadWord
    } else if funct3 == 0x3 {
        InstructionFn::LoadDword
    } else if funct3 == 0x4 {
        InstructionFn::LoadByteUnsigned
    } else if funct3 == 0x5 {
        InstructionFn::LoadHwordUnsigned
    } else if funct3 == 0x6 {
        InstructionFn::LoadWordUnsigned
    } else {
        InstructionFn::Illegal
    }
}

/// The store that `funct3` selects.
pub open spec fn store_decoded(funct3: u8) -> InstructionFn {
    if funct3 == 0x0 {
        InstructionFn::StoreByte
    } else if funct3 == 0x1 {
        InstructionFn::StoreHalfWord
    } else if funct3 == 0x2 {
        InstructionFn::StoreWord
    } else if funct3 == 0x3 {
        InstructionFn::StoreDword
    } else {
        InstructionFn::Illegal
    }
}

impl ParsableInstructionGroup for LoadOpcodeGroup {
    open spec fn decoded(instr: u32) -> InstructionFn {
        load_decoded(funct3_of(instr))
    }

    fn parse(instr: u32) -> (decoded: InstructionFn) {
        let funct3 = funct3(instr);
        match funct3 {
            0x0 => InstructionFn::LoadByte,
            0x1 => InstructionFn::LoadHword,
            0x2 => InstructionFn::LoadWord,
            0x3 => InstructionFn::LoadDword,
            0x4 => InstructionFn::LoadByteUnsigned,
            0x5 => InstructionFn::LoadHwordUnsigned,
            0x6 => InstructionFn::LoadWordUnsigned,
            _ => InstructionFn::Illegal,
        }
    }
}

impl ParsableInstructionGroup for StoreOpcodeGroup {
    open spec fn decoded(instr: u32) -> InstructionFn {
        store_decoded(funct3_of(instr))
    }

    fn parse(instr: u32) -> (decoded: InstructionFn) {
        let funct3 = funct3(instr);
        match funct3 {
            0x0 => InstructionFn::StoreByte,
            0x1 => InstructionFn::StoreHalfWord,
            0x2 => InstructionFn::StoreWord,
            0x3 => InstructionFn::StoreDword,
            _ => InstructionFn::Illegal,
        }
    }
}

impl ParsableInstructionGroup for FenceOpcodeGroup {
    open spec fn decoded(instr: u32) -> InstructionFn {
        InstructionFn::Fence
    }

    fn parse(instr: u32) -> (decoded: InstructionFn) {
        InstructionFn::Fence
    }
}

} // verus!
