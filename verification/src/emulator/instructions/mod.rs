use crate::emulator::instructions::arith::signed64;
use crate::emulator::state::memory::MemoryState;
use crate::emulator::state::rv64_cpu_context::{CpuState, Exception};
use vstd::prelude::*;

pub mod arith;
pub mod rv64;

verus! {

/// The bits of an instruction word that hold the opcode.
pub const OPCODE_MASK: u32 = 0x7F;

/// The instruction that a word encodes: what the decoder hands back, and
/// what selects the executor that is run on the word.
#[derive(Debug, Clone, Copy, PartialEq, Eq, Structural)]
pub enum InstructionFn {
    // Register-register integer operations
    Add,
    Sub,
    Xor,
    Or,
    And,
    Sll,
    Srl,
    Sra,
    Slt,
    Sltu,
    Mul,
    Mulh,
    Mulhsu,
    Mulhu,
    Div,
    Divu,
    Rem,
    Remu,
    // Register-register operations on the low 32 bits
    Addw,
    Subw,
    Sllw,
    Srlw,
    Sraw,
    Mulw,
    Divw,
    Divuw,
    Remw,
    Remuw,
    // Register-immediate integer operations
    Addi,
    Xori,
    Ori,
    Andi,
    Slli,
    SrliSrai,
    Slti,
    Sltiu,
    // Register-immediate operations on the low 32 bits
    Addiw,
    Slliw,
    SrliwSraiw,
    // Upper immediates
    Lui,
    Auipc,
    // Jumps and branches
    Jal,
    Jalr,
    Beq,
    Bne,
    Blt,
    Bltu,
    Bge,
    Bgeu,
    // Loads
    LoadByte,
    LoadHword,
    LoadWord,
    LoadDword,
    LoadByteUnsigned,
    LoadHwordUnsigned,
    LoadWordUnsigned,
    // Stores
    StoreByte,
    StoreHalfWord,
    StoreWord,
    StoreDword,
    // Memory ordering
    Fence,
    // System
    Ecall,
    Ebreak,
    Csrrw,
    Csrrs,
    Csrrc,
    Csrrwi,
    Csrrsi,
    Csrrci,
    // Atomics on words
    LrW,
    ScW,
    AmoswapW,
    AmoaddW,
    AmoxorW,
    AmoorW,
    AmoandW,
    AmominW,
    AmomaxW,
    AmominuW,
    AmomaxuW,
    // Atomics on double words
    LrD,
    ScD,
    AmoswapD,
    AmoaddD,
    AmoxorD,
    AmoorD,
    AmoandD,
    AmominD,
    AmomaxD,
    AmominuD,
    AmomaxuD,
    // Floating-point loads and stores
    LoadFp,
    StoreFp,
    // Floating-point computations
    Fadd,
    Fsub,
    Fmul,
    Fdiv,
    Fsqrt,
    Fminmax,
    Fmadd,
    Fmsub,
    // No instruction: executing it raises an illegal-instruction trap
    Illegal,
}

/// What executing an instruction comes to: the hart and the memory
/// afterwards, and whether the instruction retired or trapped.
pub struct Outcome {
    pub cpu: CpuState,
    pub memory: MemoryState,
    pub result: Result<(), Exception>,
}

impl Outcome {
    /// The outcome of an instruction that traps with `exception` and
    /// changes nothing.
    pub open spec fn trap(cpu: CpuState, memory: MemoryState, exception: Exception) -> Outcome {
        Outcome { cpu, memory, result: Err(exception) }
    }

    /// The outcome of an instruction that retires and leaves the hart as
    /// `cpu` and the memory as `memory`.
    pub open spec fn retire(cpu: CpuState, memory: MemoryState) -> Outcome {
        Outcome { cpu, memory, result: Ok(()) }
    }
}

/// A group of instructions that share an opcode, and the decoder that
/// tells them apart by their function fields.
pub trait ParsableInstructionGroup {
    /// The instruction of this group that `instr` encodes,
    /// [`InstructionFn::Illegal`] where it encodes none.
    spec fn decoded(instr: u32) -> InstructionFn;

    /// Decodes `instr` within the group.
    fn parse(instr: u32) -> (decoded: InstructionFn)
        ensures
            decoded == Self::decoded(instr),
    ;
}

/// Bits 6:0 of the word: the opcode.
pub open spec fn opcode_of(instr: u32) -> u8 {
    (instr % 0x80) as u8
}

/// Bits 11:7 of the word: the destination register.
pub open spec fn rd_of(instr: u32) -> u8 {
    ((instr / 0x80) % 0x20) as u8
}

/// Bits 14:12 of the word.
pub open spec fn funct3_of(instr: u32) -> u8 {
    ((instr / 0x1000) % 0x8) as u8
}

/// Bits 19:15 of the word: the first source register.
pub open spec fn rs1_of(instr: u32) -> u8 {
    ((instr / 0x8000) % 0x20) as u8
}

/// Bits 24:20 of the word: the second source register.
pub open spec fn rs2_of(instr: u32) -> u8 {
    ((instr / 0x10_0000) % 0x20) as u8
}

/// Bits 31:25 of the word.
pub open spec fn funct7_of(instr: u32) -> u8 {
    (instr / 0x200_0000) as u8
}

/// Bits 31:27 of the word.
pub open spec fn funct5_of(instr: u32) -> u8 {
    (instr / 0x800_0000) as u8
}

/// Bits 31:20 of the word, unsigned.
pub open spec fn funct12_of(instr: u32) -> u16 {
    (instr / 0x10_0000) as u16
}

/// The pattern of the `bits`-bit two's-complement number `value`,
/// extended to 64 bits by copies of its sign bit; `half` is 2^(bits-1).
pub open spec fn sign_extended(value: int, half: int) -> u64 {
    if value >= half {
        (value + 0x1_0000_0000_0000_0000 - 2 * half) as u64
    } else {
        value as u64
    }
}

/// The I-type immediate: bits 31:20, sign-extended.
pub open spec fn imm_i_of(instr: u32) -> u64 {
    sign_extended((instr / 0x10_0000) as int, 0x800)
}

/// The immediate of the shifts and of the CSR instructions: bits 31:20,
/// unsigned.
pub open spec fn imm_sh_of(instr: u32) -> u64 {
    (instr / 0x10_0000) as u64
}

/// The S-type immediate: bits 31:25 over bits 11:7, sign-extended.
pub open spec fn imm_s_of(instr: u32) -> u64 {
    sign_extended((instr / 0x200_0000) * 0x20 + (instr / 0x80) % 0x20, 0x800)
}

/// The B-type immediate: bit 31 at place 12, bit 7 at place 11, bits
/// 30:25 at places 10:5, bits 11:8 at places 4:1, place 0 zero;
/// sign-extended from place 12.
pub open spec fn imm_b_of(instr: u32) -> u64 {
    sign_extended(
        (instr / 0x8000_0000) * 0x1000 + ((instr / 0x80) % 0x2) * 0x800 + ((instr / 0x200_0000)
            % 0x40) * 0x20 + ((instr / 0x100) % 0x10) * 0x2,
        0x1000,
    )
}

/// The U-type immediate: bits 31:12 in place, the low twelve bits zero.
pub open spec fn imm_u_of(instr: u32) -> u64 {
    ((instr / 0x1000) * 0x1000) as u64
}

/// The J-type immediate: bit 31 at place 20, bits 19:12 in place, bit 20
/// at place 11, bits 30:21 at places 10:1, place 0 zero; sign-extended
/// from place 20.
pub open spec fn imm_j_of(instr: u32) -> u64 {
    sign_extended(
        (instr / 0x8000_0000) * 0x10_0000 + ((instr / 0x1000) % 0x100) * 0x1000 + ((instr
            / 0x10_0000) % 0x2) * 0x800 + ((instr / 0x20_0000) % 0x400) * 0x2,
        0x10_0000,
    )
}

/// Returns the opcode of `instr`.
pub fn opcode(instr: u32) -> (field: u8)
    ensures
        field == opcode_of(instr),
        field < 0x80,
{
    (instr % 0x80) as u8
}

/// Returns bits 14:12 of `instr`.
pub fn funct3(instr: u32) -> (field: u8)
    ensures
        field == funct3_of(instr),
        field < 8,
{
    ((instr / 0x1000) % 0x8) as u8
}

/// Returns bits 31:25 of `instr`.
pub fn funct7(instr: u32) -> (field: u8)
    ensures
        field == funct7_of(instr),
        field < 0x80,
{
    (instr / 0x200_0000) as u8
}

/// Returns bits 31:27 of `instr`.
pub fn funct5(instr: u32) -> (field: u8)
    ensures
        field == funct5_of(instr),
        field < 0x20,
{
    (instr / 0x800_0000) as u8
}

/// Returns bits 31:20 of `instr`, unsigned.
pub fn funct12(instr: u32) -> (field: u16)
    ensures
        field == funct12_of(instr),
        field < 0x1000,
{
    (instr / 0x10_0000) as u16
}

/// Sign-extends the `value` of a field whose sign bit is worth `half`.
fn sign_extend_field(value: u64, half: u64) -> (extended: u64)
    requires
        0 < half <= 0x10_0000,
        value < 2 * half,
    ensures
        extended == sign_extended(value as int, half as int),
{
    if value >= half {
        value + (0xFFFF_FFFF_FFFF_FFFF - 2 * half + 1)
    } else {
        value
    }
}

/// The operands of an R-type instruction.
pub struct RType {
    pub rd: u8,
    pub rs1: u8,
    pub rs2: u8,
}

/// The operands of an I-type instruction.
pub struct IType {
    pub rd: u8,
    pub rs1: u8,
    pub imm: u64,
}

/// The operands of an S-type or B-type instruction.
pub struct SType {
    pub rs1: u8,
    pub rs2: u8,
    pub imm: u64,
}

/// The operands of a U-type or J-type instruction.
pub struct UType {
    pub rd: u8,
    pub imm: u64,
}

/// Extracts the operands of an R-type instruction: `rd`, `rs1`, `rs2`.
pub fn wrap_r_type(instr: u32) -> (operands: RType)
    ensures
        operands.rd == rd_of(instr),
        operands.rs1 == rs1_of(instr),
        operands.rs2 == rs2_of(instr),
        operands.rd < 32,
        operands.rs1 < 32,
        operands.rs2 < 32,
{
    RType {
        rd: ((instr / 0x80) % 0x20) as u8,
        rs1: ((instr / 0x8000) % 0x20) as u8,
        rs2: ((instr / 0x10_0000) % 0x20) as u8,
    }
}

/// Extracts the operands of an I-type instruction: `rd`, `rs1` and the
/// sign-extended immediate.
pub fn wrap_i_type(instr: u32) -> (operands: IType)
    ensures
        operands.rd == rd_of(instr),
        operands.rs1 == rs1_of(instr),
        operands.imm == imm_i_of(instr),
        operands.rd < 32,
        operands.rs1 < 32,
{
    IType {
        rd: ((instr / 0x80) % 0x20) as u8,
        rs1: ((instr / 0x8000) % 0x20) as u8,
        imm: sign_extend_field((instr / 0x10_0000) as u64, 0x800),
    }
}

/// Extracts the operands of a shift or CSR instruction: `rd`, `rs1` and
/// bits 31:20 as an unsigned number.
pub fn wrap_i_type_sh(instr: u32) -> (operands: IType)
    ensures
        operands.rd == rd_of(instr),
        operands.rs1 == rs1_of(instr),
        operands.imm == imm_sh_of(instr),
        operands.imm < 0x1000,
        operands.rd < 32,
        operands.rs1 < 32,
{
    IType {
        rd: ((instr / 0x80) % 0x20) as u8,
        rs1: ((instr / 0x8000) % 0x20) as u8,
        imm: (instr / 0x10_0000) as u64,
    }
}

/// Extracts the operands of an S-type instruction: `rs1`, `rs2` and the
/// sign-extended immediate.
pub fn wrap_s_type(instr: u32) -> (operands: SType)
    ensures
        operands.rs1 == rs1_of(instr),
        operands.rs2 == rs2_of(instr),
        operands.imm == imm_s_of(instr),
        operands.rs1 < 32,
        operands.rs2 < 32,
{
    let high: u64 = (instr / 0x200_0000) as u64;
    let low: u64 = ((instr / 0x80) % 0x20) as u64;
    SType {
        rs1: ((instr / 0x8000) % 0x20) as u8,
        rs2: ((instr / 0x10_0000) % 0x20) as u8,
        imm: sign_extend_field(high * 0x20 + low, 0x800),
    }
}

/// Extracts the operands of a B-type instruction: `rs1`, `rs2` and the
/// sign-extended branch offset.
pub fn wrap_b_type(instr: u32) -> (operands: SType)
    ensures
        operands.rs1 == rs1_of(instr),
        operands.rs2 == rs2_of(instr),
        operands.imm == imm_b_of(instr),
        operands.rs1 < 32,
        operands.rs2 < 32,
{
    let imm1_4: u64 = (((instr / 0x100) % 0x10) as u64) * 0x2;
    let imm5_10: u64 = (((instr / 0x200_0000) % 0x40) as u64) * 0x20;
    let imm11: u64 = (((instr / 0x80) % 0x2) as u64) * 0x800;
    let imm12: u64 = ((instr / 0x8000_0000) as u64) * 0x1000;
    SType {
        rs1: ((instr / 0x8000) % 0x20) as u8,
        rs2: ((instr / 0x10_0000) % 0x20) as u8,
        imm: sign_extend_field(imm12 + imm11 + imm5_10 + imm1_4, 0x1000),
    }
}

/// Extracts the operands of a U-type instruction: `rd` and the upper
/// immediate, already in place.
pub fn wrap_u_type(instr: u32) -> (operands: UType)
    ensures
        operands.rd == rd_of(instr),
        operands.imm == imm_u_of(instr),
        operands.rd < 32,
{
    UType { rd: ((instr / 0x80) % 0x20) as u8, imm: ((instr / 0x1000) as u64) * 0x1000 }
}

/// Extracts the operands of a J-type instruction: `rd` and the
/// sign-extended jump offset.
pub fn wrap_j_type(instr: u32) -> (operands: UType)
    ensures
        operands.rd == rd_of(instr),
        operands.imm == imm_j_of(instr),
        operands.rd < 32,
{
    let imm1_10: u64 = (((instr / 0x20_0000) % 0x400) as u64) * 0x2;
    let imm11: u64 = (((instr / 0x10_0000) % 0x2) as u64) * 0x800;
    let imm12_19: u64 = (((instr / 0x1000) % 0x100) as u64) * 0x1000;
    let imm20: u64 = ((instr / 0x8000_0000) as u64) * 0x10_0000;
    UType {
        rd: ((instr / 0x80) % 0x20) as u8,
        imm: sign_extend_field(imm20 + imm12_19 + imm11 + imm1_10, 0x10_0000),
    }
}

/// The immediates as numbers: the twelve-bit ones lie between -2048 and
/// 2047, a branch offset between -4096 and 4094 and a jump offset between
/// -2^20 and 2^20 - 2, both even; an upper immediate is a multiple of
/// 4096 below 2^32.
pub proof fn lemma_immediate_ranges(instr: u32)
    ensures
        -0x800 <= signed64(imm_i_of(instr)) < 0x800,
        -0x800 <= signed64(imm_s_of(instr)) < 0x800,
        imm_sh_of(instr) < 0x1000,
        -0x1000 <= signed64(imm_b_of(instr)) < 0x1000,
        signed64(imm_b_of(instr)) % 2 == 0,
        -0x10_0000 <= signed64(imm_j_of(instr)) < 0x10_0000,
        signed64(imm_j_of(instr)) % 2 == 0,
        imm_u_of(instr) % 0x1000 == 0,
        imm_u_of(instr) < 0x1_0000_0000,
{
}

} // verus!
