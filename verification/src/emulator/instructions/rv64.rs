use crate::emulator::instructions::rv64::amo::{
    amo_effect, exec_amoadd_d, exec_amoadd_w, exec_amoand_d, exec_amoand_w, exec_amomax_d,
    exec_amomax_w, exec_amomaxu_d, exec_amomaxu_w, exec_amomin_d, exec_amomin_w, exec_amominu_d,
    exec_amominu_w, exec_amoor_d, exec_amoor_w, exec_amoswap_d, exec_amoswap_w, exec_amoxor_d,
    exec_amoxor_w, exec_lr_d, exec_lr_w, exec_sc_d, exec_sc_w, load_reserved_effect,
    store_conditional_effect, AtomicOpcodeGroup, ATOMIC_OPCODE,
};
use crate::emulator::instructions::rv64::fp::{
    exec_load_fp, exec_store_fp, load_fp_effect, store_fp_effect, FloatingPointOpcodeGroup,
    FusedMultiplyAddOpcodeGroup, FusedMultiplySubOpcodeGroup, LoadFloatingPointOpcodeGroup,
    StoreFloatingPointOpcodeGroup, FMADD_OPCODE, FMSUB_OPCODE, LOAD_FP_OPCODE, OP_FP_OPCODE,
    STORE_FP_OPCODE,
};
use crate::emulator::instructions::rv64::int_op::{
    exec_add, exec_addw, exec_and, exec_div, exec_divu, exec_divuw, exec_divw, exec_mul,
    exec_mulh, exec_mulhsu, exec_mulhu, exec_mulw, exec_or, exec_rem, exec_remu, exec_remuw,
    exec_remw, exec_sll, exec_sllw, exec_slt, exec_sltu, exec_sra, exec_sraw, exec_srl,
    exec_srlw, exec_sub, exec_subw, exec_xor, int_op_value, IntOp32OpcodeGroup, IntOpOpcodeGroup,
    OP_32_OPCODE, OP_OPCODE,
};
use crate::emulator::instructions::rv64::int_op_imm::{
    exec_addi, exec_addiw, exec_andi, exec_auipc, exec_lui, exec_ori, exec_slli, exec_slliw,
    exec_slti, exec_sltiu, exec_srli_srai, exec_srliw_sraiw, exec_xori, int_op_imm_value,
    AuipcOpcodeGroup, IntOpImm32OpcodeGroup, IntOpImmOpcodeGroup, LuiOpcodeGroup, AUIPC_OPCODE,
    LUI_OPCODE, OP_IMM_32_OPCODE, OP_IMM_OPCODE,
};
use crate::emulator::instructions::rv64::jump_branch::{
    branch_effect, exec_beq, exec_bge, exec_bgeu, exec_blt, exec_bltu, exec_bne, exec_jal,
    exec_jalr, jal_effect, jalr_effect, transfer_target, BranchOpcodeGroup, JalOpcodeGroup, JalrOpcodeGroup,
    BRANCH_OPCODE, JALR_OPCODE, JAL_OPCODE,
};
use crate::emulator::instructions::rv64::load_store::{
    access_width, accessible, effective_address, exec_fence, exec_load_byte,
    exec_load_byte_unsigned, exec_load_dword, exec_load_hword, exec_load_hword_unsigned,
    exec_load_word, exec_load_word_unsigned, exec_store_byte, exec_store_dword,
    exec_store_half_word, exec_store_word, load_value, store_data, FenceOpcodeGroup,
    LoadOpcodeGroup, StoreOpcodeGroup, LOAD_OPCODE, MISC_MEM_OPCODE, STORE_OPCODE,
};
use crate::emulator::instructions::rv64::system::{
    csr_effect, environment_call, exec_csrrc, exec_csrrci, exec_csrrs, exec_csrrsi, exec_csrrw,
    exec_csrrwi, exec_ebreak, exec_ecall, SystemOpcodeGroup, SYSTEM_OPCODE,
};
use crate::emulator::instructions::{
    imm_b_of, imm_i_of, imm_j_of, imm_s_of, imm_sh_of, imm_u_of, opcode, opcode_of, rd_of,
    rs1_of, rs2_of, wrap_b_type, wrap_i_type, wrap_i_type_sh, wrap_j_type, wrap_r_type,
    wrap_s_type, wrap_u_type, InstructionFn, Outcome, ParsableInstructionGroup,
};
use crate::emulator::state::memory::{
    lemma_patched_shape, Device, MemoryManagementUnit, MemoryState,
};
use crate::emulator::state::rv64_cpu_context::{
    lemma_write_keeps_wf, CpuState, Exception, RV64CPUContext,
};
use vstd::prelude::*;

pub mod amo;
pub mod fp;
pub mod int_op;
pub mod int_op_imm;
pub mod jump_branch;
pub mod load_store;
pub mod system;

verus! {

/// The decoder of the instruction set: from a word to the instruction it
/// encodes.
pub struct RV64InstructionParser {}

/// The format of an instruction: which operand fields its word holds.
#[derive(Debug, Clone, Copy, PartialEq, Eq, Structural)]
pub enum Format {
    /// `rd`, `rs1`, `rs2`.
    R,
    /// `rd`, `rs1` and a sign-extended immediate.
    I,
    /// `rd`, `rs1` and bits 31:20 as an unsigned number.
    IShift,
    /// `rs1`, `rs2` and a sign-extended immediate.
    S,
    /// `rs1`, `rs2` and a sign-extended branch offset.
    B,
    /// `rd` and an upper immediate.
    U,
    /// `rd` and a sign-extended jump offset.
    J,
    /// No operand.
    Bare,
}

impl InstructionFn {
    /// The format in which the instruction takes its operands.
    pub open spec fn format(self) -> Format {
        match self {
            InstructionFn::Add | InstructionFn::Sub | InstructionFn::Xor | InstructionFn::Or
            | InstructionFn::And | InstructionFn::Sll | InstructionFn::Srl | InstructionFn::Sra
            | InstructionFn::Slt | InstructionFn::Sltu | InstructionFn::Mul | InstructionFn::Mulh
            | InstructionFn::Mulhsu | InstructionFn::Mulhu | InstructionFn::Div
            | InstructionFn::Divu | InstructionFn::Rem | InstructionFn::Remu
            | InstructionFn::Addw | InstructionFn::Subw | InstructionFn::Sllw
            | InstructionFn::Srlw | InstructionFn::Sraw | InstructionFn::Mulw
            | InstructionFn::Divw | InstructionFn::Divuw | InstructionFn::Remw
            | InstructionFn::Remuw | InstructionFn::LrW | InstructionFn::ScW
            | InstructionFn::AmoswapW | InstructionFn::AmoaddW | InstructionFn::AmoxorW
            | InstructionFn::AmoorW | InstructionFn::AmoandW | InstructionFn::AmominW
            | InstructionFn::AmomaxW | InstructionFn::AmominuW | InstructionFn::AmomaxuW
            | InstructionFn::LrD | InstructionFn::ScD | InstructionFn::AmoswapD
            | InstructionFn::AmoaddD | InstructionFn::AmoxorD | InstructionFn::AmoorD
            | InstructionFn::AmoandD | InstructionFn::AmominD | InstructionFn::AmomaxD
            | InstructionFn::AmominuD | InstructionFn::AmomaxuD | InstructionFn::Fadd
            | InstructionFn::Fsub | InstructionFn::Fmul | InstructionFn::Fdiv
            | InstructionFn::Fsqrt | InstructionFn::Fminmax | InstructionFn::Fmadd
            | InstructionFn::Fmsub => Format::R,
            InstructionFn::Addi | InstructionFn::Xori | InstructionFn::Ori | InstructionFn::Andi
            | InstructionFn::Slti | InstructionFn::Sltiu | InstructionFn::Addiw
            | InstructionFn::Jalr | InstructionFn::LoadByte | InstructionFn::LoadHword
            | InstructionFn::LoadWord | InstructionFn::LoadDword
            | InstructionFn::LoadByteUnsigned | InstructionFn::LoadHwordUnsigned
            | InstructionFn::LoadWordUnsigned | InstructionFn::LoadFp => Format::I,
            InstructionFn::Slli | InstructionFn::SrliSrai | InstructionFn::Slliw
            | InstructionFn::SrliwSraiw | InstructionFn::Ecall | InstructionFn::Ebreak
            | InstructionFn::Csrrw | InstructionFn::Csrrs | InstructionFn::Csrrc
            | InstructionFn::Csrrwi | InstructionFn::Csrrsi | InstructionFn::Csrrci =>
                Format::IShift,
            InstructionFn::StoreByte | InstructionFn::StoreHalfWord | InstructionFn::StoreWord
            | InstructionFn::StoreDword | InstructionFn::StoreFp => Format::S,
            InstructionFn::Beq | InstructionFn::Bne | InstructionFn::Blt | InstructionFn::Bltu
            | InstructionFn::Bge | InstructionFn::Bgeu => Format::B,
            InstructionFn::Lui | InstructionFn::Auipc => Format::U,
            InstructionFn::Jal => Format::J,
            InstructionFn::Fence | InstructionFn::Illegal => Format::Bare,
        }
    }

    /// The immediate that the instruction takes from the word `instr`, by
    /// its format; zero for a format without one.
    pub open spec fn immediate(self, instr: u32) -> u64 {
        match self.format() {
            Format::I => imm_i_of(instr),
            Format::IShift => imm_sh_of(instr),
            Format::S => imm_s_of(instr),
            Format::B => imm_b_of(instr),
            Format::U => imm_u_of(instr),
            Format::J => imm_j_of(instr),
            _ => 0,
        }
    }

    /// The outcome of executing the instruction, encoded by the word
    /// `instr`, on the hart `cpu` and the memory `memory`.
    #[verifier::opaque]
    pub open spec fn effect(self, cpu: CpuState, memory: MemoryState, instr: u32) -> Outcome {
        let rd = rd_of(instr);
        let rs1 = rs1_of(instr);
        let rs2 = rs2_of(instr);
        let imm = self.immediate(instr);
        match self {
            InstructionFn::Add | InstructionFn::Sub | InstructionFn::Xor | InstructionFn::Or
            | InstructionFn::And | InstructionFn::Sll | InstructionFn::Srl | InstructionFn::Sra
            | InstructionFn::Slt | InstructionFn::Sltu | InstructionFn::Mul | InstructionFn::Mulh
            | InstructionFn::Mulhsu | InstructionFn::Mulhu | InstructionFn::Div
            | InstructionFn::Divu | InstructionFn::Rem | InstructionFn::Remu
            | InstructionFn::Addw | InstructionFn::Subw | InstructionFn::Sllw
            | InstructionFn::Srlw | InstructionFn::Sraw | InstructionFn::Mulw
            | InstructionFn::Divw | InstructionFn::Divuw | InstructionFn::Remw
            | InstructionFn::Remuw => Outcome::retire(
                cpu.set_x(rd as int, int_op_value(self, cpu.x[rs1 as int], cpu.x[rs2 as int])),
                memory,
            ),
            InstructionFn::Addi | InstructionFn::Xori | InstructionFn::Ori | InstructionFn::Andi
            | InstructionFn::Slli | InstructionFn::SrliSrai | InstructionFn::Slti
            | InstructionFn::Sltiu | InstructionFn::Addiw | InstructionFn::Slliw
            | InstructionFn::SrliwSraiw => Outcome::retire(
                cpu.set_x(rd as int, int_op_imm_value(self, cpu.x[rs1 as int], imm)),
                memory,
            ),
            InstructionFn::Lui => Outcome::retire(cpu.set_x(rd as int, imm), memory),
            InstructionFn::Auipc => Outcome::retire(
                cpu.set_x(rd as int, effective_address(cpu.pc, imm)),
                memory,
            ),
            InstructionFn::Jal => Outcome::retire(jal_effect(cpu, rd as int, imm), memory),
            InstructionFn::Jalr => Outcome::retire(
                jalr_effect(cpu, rd as int, rs1 as int, imm),
                memory,
            ),
            InstructionFn::Beq | InstructionFn::Bne | InstructionFn::Blt | InstructionFn::Bltu
            | InstructionFn::Bge | InstructionFn::Bgeu => Outcome::retire(
                branch_effect(self, cpu, rs1 as int, rs2 as int, imm),
                memory,
            ),
            InstructionFn::LoadByte | InstructionFn::LoadHword | InstructionFn::LoadWord
            | InstructionFn::LoadDword | InstructionFn::LoadByteUnsigned
            | InstructionFn::LoadHwordUnsigned | InstructionFn::LoadWordUnsigned => {
                let address = effective_address(cpu.x[rs1 as int], imm);
                if accessible(memory, address, access_width(self)) {
                    Outcome::retire(
                        cpu.set_x(
                            rd as int,
                            load_value(self, memory.window(address as int, access_width(self))),
                        ),
                        memory,
                    )
                } else {
                    Outcome::trap(cpu, memory, Exception::LoadAccessFault)
                }
            },
            InstructionFn::StoreByte | InstructionFn::StoreHalfWord | InstructionFn::StoreWord
            | InstructionFn::StoreDword => {
                let address = effective_address(cpu.x[rs1 as int], imm);
                if accessible(memory, address, access_width(self)) {
                    Outcome::retire(
                        cpu,
                        memory.patched(address as int, store_data(self, cpu.x[rs2 as int])),
                    )
                } else {
                    Outcome::trap(cpu, memory, Exception::StoreAccessFault)
                }
            },
            InstructionFn::Fence => Outcome::retire(cpu, memory),
            InstructionFn::Ecall => Outcome::trap(
                cpu,
                memory,
                environment_call(cpu.csrs.privilege),
            ),
            InstructionFn::Ebreak => Outcome::trap(cpu, memory, Exception::Breakpoint),
            InstructionFn::Csrrw | InstructionFn::Csrrs | InstructionFn::Csrrc
            | InstructionFn::Csrrwi | InstructionFn::Csrrsi | InstructionFn::Csrrci => {
                let (after, result) = csr_effect(self, cpu, rd, rs1, imm);
                Outcome { cpu: after, memory, result }
            },
            InstructionFn::LrW | InstructionFn::LrD => load_reserved_effect(
                self,
                cpu,
                memory,
                rd,
                rs1,
            ),
            InstructionFn::ScW | InstructionFn::ScD => store_conditional_effect(
                self,
                cpu,
                memory,
                rd,
                rs1,
                rs2,
            ),
            InstructionFn::AmoswapW | InstructionFn::AmoaddW | InstructionFn::AmoxorW
            | InstructionFn::AmoorW | InstructionFn::AmoandW | InstructionFn::AmominW
            | InstructionFn::AmomaxW | InstructionFn::AmominuW | InstructionFn::AmomaxuW
            | InstructionFn::AmoswapD | InstructionFn::AmoaddD | InstructionFn::AmoxorD
            | InstructionFn::AmoorD | InstructionFn::AmoandD | InstructionFn::AmominD
            | InstructionFn::AmomaxD | InstructionFn::AmominuD | InstructionFn::AmomaxuD =>
                amo_effect(self, cpu, memory, rd, rs1, rs2),
            InstructionFn::LoadFp => Outcome {
                memory,
                ..load_fp_effect(cpu, memory, instr, rd, rs1, imm)
            },
            InstructionFn::StoreFp => store_fp_effect(cpu, memory, instr, rs1, rs2, imm),
            InstructionFn::Fadd | InstructionFn::Fsub | InstructionFn::Fmul | InstructionFn::Fdiv
            | InstructionFn::Fsqrt | InstructionFn::Fminmax | InstructionFn::Fmadd
            | InstructionFn::Fmsub | InstructionFn::Illegal => Outcome::trap(
                cpu,
                memory,
                Exception::IllegalInstruction,
            ),
        }
    }

    /// Executes the instruction, encoded by the word `instr`, on the hart
    /// and the memory: extracts the operands that its format holds and
    /// runs its executor.
    #[verifier::rlimit(80)]
    pub fn call<D: Device>(
        self,
        cpu_context: &mut RV64CPUContext,
        memory: &mut MemoryManagementUnit<D>,
        instr: u32,
    ) -> (r: Result<(), Exception>)
        requires
            old(cpu_context).wf(),
            old(memory).wf(),
        ensures
            final(cpu_context).wf(),
            final(memory).wf(),
            final(cpu_context)@ == self.effect(old(cpu_context)@, old(memory)@, instr).cpu,
            final(memory)@ == self.effect(old(cpu_context)@, old(memory)@, instr).memory,
            r == self.effect(old(cpu_context)@, old(memory)@, instr).result,
    {
        reveal(InstructionFn::effect);
        match self {
            InstructionFn::Add => {
                let o = wrap_r_type(instr);
                exec_add(cpu_context, instr, o.rd, o.rs1, o.rs2)
            },
            InstructionFn::Sub => {
                let o = wrap_r_type(instr);
                exec_sub(cpu_context, instr, o.rd, o.rs1, o.rs2)
            },
            InstructionFn::Xor => {
                let o = wrap_r_type(instr);
                exec_xor(cpu_context, instr, o.rd, o.rs1, o.rs2)
            },
            InstructionFn::Or => {
                let o = wrap_r_type(instr);
                exec_or(cpu_context, instr, o.rd, o.rs1, o.rs2)
            },
            InstructionFn::And => {
                let o = wrap_r_type(instr);
                exec_and(cpu_context, instr, o.rd, o.rs1, o.rs2)
            },
            InstructionFn::Sll => {
                let o = wrap_r_type(instr);
                exec_sll(cpu_context, instr, o.rd, o.rs1, o.rs2)
            },
            InstructionFn::Srl => {
                let o = wrap_r_type(instr);
                exec_srl(cpu_context, instr, o.rd, o.rs1, o.rs2)
            },
            InstructionFn::Sra => {
                let o = wrap_r_type(instr);
                exec_sra(cpu_context, instr, o.rd, o.rs1, o.rs2)
            },
            InstructionFn::Slt => {
                let o = wrap_r_type(instr);
                exec_slt(cpu_context, instr, o.rd, o.rs1, o.rs2)
            },
            InstructionFn::Sltu => {
                let o = wrap_r_type(instr);
                exec_sltu(cpu_context, instr, o.rd, o.rs1, o.rs2)
            },
            InstructionFn::Mul => {
                let o = wrap_r_type(instr);
                exec_mul(cpu_context, instr, o.rd, o.rs1, o.rs2)
            },
            InstructionFn::Mulh => {
                let o = wrap_r_type(instr);
                exec_mulh(cpu_context, instr, o.rd, o.rs1, o.rs2)
            },
            InstructionFn::Mulhsu => {
                let o = wrap_r_type(instr);
                exec_mulhsu(cpu_context, instr, o.rd, o.rs1, o.rs2)
            },
            InstructionFn::Mulhu => {
                let o = wrap_r_type(instr);
                exec_mulhu(cpu_context, instr, o.rd, o.rs1, o.rs2)
            },
            InstructionFn::Div => {
                let o = wrap_r_type(instr);
                exec_div(cpu_context, instr, o.rd, o.rs1, o.rs2)
            },
            InstructionFn::Divu => {
                let o = wrap_r_type(instr);
                exec_divu(cpu_context, instr, o.rd, o.rs1, o.rs2)
            },
            InstructionFn::Rem => {
                let o = wrap_r_type(instr);
                exec_rem(cpu_context, instr, o.rd, o.rs1, o.rs2)
            },
            InstructionFn::Remu => {
                let o = wrap_r_type(instr);
                exec_remu(cpu_context, instr, o.rd, o.rs1, o.rs2)
            },
            InstructionFn::Addw => {
                let o = wrap_r_type(instr);
                exec_addw(cpu_context, instr, o.rd, o.rs1, o.rs2)
            },
            InstructionFn::Subw => {
                let o = wrap_r_type(instr);
                exec_subw(cpu_context, instr, o.rd, o.rs1, o.rs2)
            },
            InstructionFn::Sllw => {
                let o = wrap_r_type(instr);
                exec_sllw(cpu_context, instr, o.rd, o.rs1, o.rs2)
            },
            InstructionFn::Srlw => {
                let o = wrap_r_type(instr);
                exec_srlw(cpu_context, instr, o.rd, o.rs1, o.rs2)
            },
            InstructionFn::Sraw => {
                let o = wrap_r_type(instr);
                exec_sraw(cpu_context, instr, o.rd, o.rs1, o.rs2)
            },
            InstructionFn::Mulw => {
                let o = wrap_r_type(instr);
                exec_mulw(cpu_context, instr, o.rd, o.rs1, o.rs2)
            },
            InstructionFn::Divw => {
                let o = wrap_r_type(instr);
                exec_divw(cpu_context, instr, o.rd, o.rs1, o.rs2)
            },
            InstructionFn::Divuw => {
                let o = wrap_r_type(instr);
                exec_divuw(cpu_context, instr, o.rd, o.rs1, o.rs2)
            },
            InstructionFn::Remw => {
                let o = wrap_r_type(instr);
                exec_remw(cpu_context, instr, o.rd, o.rs1, o.rs2)
            },
            InstructionFn::Remuw => {
                let o = wrap_r_type(instr);
                exec_remuw(cpu_context, instr, o.rd, o.rs1, o.rs2)
            },
            InstructionFn::Addi => {
                let o = wrap_i_type(instr);
                exec_addi(cpu_context, instr, o.rd, o.rs1, o.imm)
            },
            InstructionFn::Xori => {
                let o = wrap_i_type(instr);
                exec_xori(cpu_context, instr, o.rd, o.rs1, o.imm)
            },
            InstructionFn::Ori => {
                let o = wrap_i_type(instr);
                exec_ori(cpu_context, instr, o.rd, o.rs1, o.imm)
            },
            InstructionFn::Andi => {
                let o = wrap_i_type(instr);
                exec_andi(cpu_context, instr, o.rd, o.rs1, o.imm)
            },
            InstructionFn::Slli => {
                let o = wrap_i_type_sh(instr);
                exec_slli(cpu_context, instr, o.rd, o.rs1, o.imm)
            },
            InstructionFn::SrliSrai => {
                let o = wrap_i_type_sh(instr);
                exec_srli_srai(cpu_context, instr, o.rd, o.rs1, o.imm)
            },
            InstructionFn::Slti => {
                let o = wrap_i_type(instr);
                exec_slti(cpu_context, instr, o.rd, o.rs1, o.imm)
            },
            InstructionFn::Sltiu => {
                let o = wrap_i_type(instr);
                exec_sltiu(cpu_context, instr, o.rd, o.rs1, o.imm)
            },
            InstructionFn::Addiw => {
                let o = wrap_i_type(instr);
                exec_addiw(cpu_context, instr, o.rd, o.rs1, o.imm)
            },
            InstructionFn::Slliw => {
                let o = wrap_i_type_sh(instr);
                exec_slliw(cpu_context, instr, o.rd, o.rs1, o.imm)
            },
            InstructionFn::SrliwSraiw => {
                let o = wrap_i_type_sh(instr);
                exec_srliw_sraiw(cpu_context, instr, o.rd, o.rs1, o.imm)
            },
            InstructionFn::Lui => {
                let o = wrap_u_type(instr);
                exec_lui(cpu_context, instr, o.rd, o.imm)
            },
            InstructionFn::Auipc => {
                let o = wrap_u_type(instr);
                exec_auipc(cpu_context, instr, o.rd, o.imm)
            },
            InstructionFn::Jal => {
                let o = wrap_j_type(instr);
                exec_jal(cpu_context, instr, o.rd, o.imm)
            },
            InstructionFn::Jalr => {
                let o = wrap_i_type(instr);
                exec_jalr(cpu_context, instr, o.rd, o.rs1, o.imm)
            },
            InstructionFn::Beq => {
                let o = wrap_b_type(instr);
                exec_beq(cpu_context, instr, o.rs1, o.rs2, o.imm)
            },
            InstructionFn::Bne => {
                let o = wrap_b_type(instr);
                exec_bne(cpu_context, instr, o.rs1, o.rs2, o.imm)
            },
            InstructionFn::Blt => {
                let o = wrap_b_type(instr);
                exec_blt(cpu_context, instr, o.rs1, o.rs2, o.imm)
            },
            InstructionFn::Bltu => {
                let o = wrap_b_type(instr);
                exec_bltu(cpu_context, instr, o.rs1, o.rs2, o.imm)
            },
            InstructionFn::Bge => {
                let o = wrap_b_type(instr);
                exec_bge(cpu_context, instr, o.rs1, o.rs2, o.imm)
            },
            InstructionFn::Bgeu => {
                let o = wrap_b_type(instr);
                exec_bgeu(cpu_context, instr, o.rs1, o.rs2, o.imm)
            },
            InstructionFn::LoadByte => {
                let o = wrap_i_type(instr);
                exec_load_byte(cpu_context, memory, instr, o.rd, o.rs1, o.imm)
            },
            InstructionFn::LoadHword => {
                let o = wrap_i_type(instr);
                exec_load_hword(cpu_context, memory, instr, o.rd, o.rs1, o.imm)
            },
            InstructionFn::LoadWord => {
                let o = wrap_i_type(instr);
                exec_load_word(cpu_context, memory, instr, o.rd, o.rs1, o.imm)
            },
            InstructionFn::LoadDword => {
                let o = wrap_i_type(instr);
                exec_load_dword(cpu_context, memory, instr, o.rd, o.rs1, o.imm)
            },
            InstructionFn::LoadByteUnsigned => {
                let o = wrap_i_type(instr);
                exec_load_byte_unsigned(cpu_context, memory, instr, o.rd, o.rs1, o.imm)
            },
            InstructionFn::LoadHwordUnsigned => {
                let o = wrap_i_type(instr);
                exec_load_hword_unsigned(cpu_context, memory, instr, o.rd, o.rs1, o.imm)
            },
            InstructionFn::LoadWordUnsigned => {
                let o = wrap_i_type(instr);
                exec_load_word_unsigned(cpu_context, memory, instr, o.rd, o.rs1, o.imm)
            },
            InstructionFn::StoreByte => {
                let o = wrap_s_type(instr);
                exec_store_byte(cpu_context, memory, instr, o.rs1, o.rs2, o.imm)
            },
            InstructionFn::StoreHalfWord => {
                let o = wrap_s_type(instr);
                exec_store_half_word(cpu_context, memory, instr, o.rs1, o.rs2, o.imm)
            },
            InstructionFn::StoreWord => {
                let o = wrap_s_type(instr);
                exec_store_word(cpu_context, memory, instr, o.rs1, o.rs2, o.imm)
            },
            InstructionFn::StoreDword => {
                let o = wrap_s_type(instr);
                exec_store_dword(cpu_context, memory, instr, o.rs1, o.rs2, o.imm)
            },
            InstructionFn::Fence => exec_fence(cpu_context, instr),
            InstructionFn::Ecall => {
                let o = wrap_i_type_sh(instr);
                exec_ecall(cpu_context, instr, o.rd, o.rs1, o.imm)
            },
            InstructionFn::Ebreak => {
                let o = wrap_i_type_sh(instr);
                exec_ebreak(cpu_context, instr, o.rd, o.rs1, o.imm)
            },
            InstructionFn::Csrrw => {
                let o = wrap_i_type_sh(instr);
                exec_csrrw(cpu_context, instr, o.rd, o.rs1, o.imm)
            },
            InstructionFn::Csrrs => {
                let o = wrap_i_type_sh(instr);
                exec_csrrs(cpu_context, instr, o.rd, o.rs1, o.imm)
            },
            InstructionFn::Csrrc => {
                let o = wrap_i_type_sh(instr);
                exec_csrrc(cpu_context, instr, o.rd, o.rs1, o.imm)
            },
            InstructionFn::Csrrwi => {
                let o = wrap_i_type_sh(instr);
                exec_csrrwi(cpu_context, instr, o.rd, o.rs1, o.imm)
            },
            InstructionFn::Csrrsi => {
                let o = wrap_i_type_sh(instr);
                exec_csrrsi(cpu_context, instr, o.rd, o.rs1, o.imm)
            },
            InstructionFn::Csrrci => {
                let o = wrap_i_type_sh(instr);
                exec_csrrci(cpu_context, instr, o.rd, o.rs1, o.imm)
            },
            InstructionFn::LrW => {
                let o = wrap_r_type(instr);
                exec_lr_w(cpu_context, memory, instr, o.rd, o.rs1, o.rs2)
            },
            InstructionFn::ScW => {
                let o = wrap_r_type(instr);
                exec_sc_w(cpu_context, memory, instr, o.rd, o.rs1, o.rs2)
            },
            InstructionFn::AmoswapW => {
                let o = wrap_r_type(instr);
                exec_amoswap_w(cpu_context, memory, instr, o.rd, o.rs1, o.rs2)
            },
            InstructionFn::AmoaddW => {
                let o = wrap_r_type(instr);
                exec_amoadd_w(cpu_context, memory, instr, o.rd, o.rs1, o.rs2)
            },
            InstructionFn::AmoxorW => {
                let o = wrap_r_type(instr);
                exec_amoxor_w(cpu_context, memory, instr, o.rd, o.rs1, o.rs2)
            },
            InstructionFn::AmoorW => {
                let o = wrap_r_type(instr);
                exec_amoor_w(cpu_context, memory, instr, o.rd, o.rs1, o.rs2)
            },
            InstructionFn::AmoandW => {
                let o = wrap_r_type(instr);
                exec_amoand_w(cpu_context, memory, instr, o.rd, o.rs1, o.rs2)
            },
            InstructionFn::AmominW => {
                let o = wrap_r_type(instr);
                exec_amomin_w(cpu_context, memory, instr, o.rd, o.rs1, o.rs2)
            },
            InstructionFn::AmomaxW => {
                let o = wrap_r_type(instr);
                exec_amomax_w(cpu_context, memory, instr, o.rd, o.rs1, o.rs2)
            },
            InstructionFn::AmominuW => {
                let o = wrap_r_type(instr);
                exec_amominu_w(cpu_context, memory, instr, o.rd, o.rs1, o.rs2)
            },
            InstructionFn::AmomaxuW => {
                let o = wrap_r_type(instr);
                exec_amomaxu_w(cpu_context, memory, instr, o.rd, o.rs1, o.rs2)
            },
            InstructionFn::LrD => {
                let o = wrap_r_type(instr);
                exec_lr_d(cpu_context, memory, instr, o.rd, o.rs1, o.rs2)
            },
            InstructionFn::ScD => {
                let o = wrap_r_type(instr);
                exec_sc_d(cpu_context, memory, instr, o.rd, o.rs1, o.rs2)
            },
            InstructionFn::AmoswapD => {
                let o = wrap_r_type(instr);
                exec_amoswap_d(cpu_context, memory, instr, o.rd, o.rs1, o.rs2)
            },
            InstructionFn::AmoaddD => {
                let o = wrap_r_type(instr);
                exec_amoadd_d(cpu_context, memory, instr, o.rd, o.rs1, o.rs2)
            },
            InstructionFn::AmoxorD => {
                let o = wrap_r_type(instr);
                exec_amoxor_d(cpu_context, memory, instr, o.rd, o.rs1, o.rs2)
            },
            InstructionFn::AmoorD => {
                let o = wrap_r_type(instr);
                exec_amoor_d(cpu_context, memory, instr, o.rd, o.rs1, o.rs2)
            },
            InstructionFn::AmoandD => {
                let o = wrap_r_type(instr);
                exec_amoand_d(cpu_context, memory, instr, o.rd, o.rs1, o.rs2)
            },
            InstructionFn::AmominD => {
                let o = wrap_r_type(instr);
                exec_amomin_d(cpu_context, memory, instr, o.rd, o.rs1, o.rs2)
            },
            InstructionFn::AmomaxD => {
                let o = wrap_r_type(instr);
                exec_amomax_d(cpu_context, memory, instr, o.rd, o.rs1, o.rs2)
            },
            InstructionFn::AmominuD => {
                let o = wrap_r_type(instr);
                exec_amominu_d(cpu_context, memory, instr, o.rd, o.rs1, o.rs2)
            },
            InstructionFn::AmomaxuD => {
                let o = wrap_r_type(instr);
                exec_amomaxu_d(cpu_context, memory, instr, o.rd, o.rs1, o.rs2)
            },
            InstructionFn::LoadFp => {
                let o = wrap_i_type(instr);
                exec_load_fp(cpu_context, memory, instr, o.rd, o.rs1, o.imm)
            },
            InstructionFn::StoreFp => {
                let o = wrap_s_type(instr);
                exec_store_fp(cpu_context, memory, instr, o.rs1, o.rs2, o.imm)
            },
            InstructionFn::Fadd | InstructionFn::Fsub | InstructionFn::Fmul | InstructionFn::Fdiv
            | InstructionFn::Fsqrt | InstructionFn::Fminmax | InstructionFn::Fmadd
            | InstructionFn::Fmsub => Err(Exception::IllegalInstruction),
            InstructionFn::Illegal => Err(Exception::IllegalInstruction),
        }
    }
}

/// The instruction that the word `instr` encodes: the opcode selects the
/// group, and the group's decoder the instruction. A word with an
/// unknown opcode encodes none.
pub open spec fn decoded(instr: u32) -> InstructionFn {
    let opcode = opcode_of(instr);
    if opcode == OP_OPCODE {
        IntOpOpcodeGroup::decoded(instr)
    } else if opcode == OP_32_OPCODE {
        IntOp32OpcodeGroup::decoded(instr)
    } else if opcode == OP_IMM_OPCODE {
        IntOpImmOpcodeGroup::decoded(instr)
    } else if opcode == OP_IMM_32_OPCODE {
        IntOpImm32OpcodeGroup::decoded(instr)
    } else if opcode == LUI_OPCODE {
        LuiOpcodeGroup::decoded(instr)
    } else if opcode == AUIPC_OPCODE {
        AuipcOpcodeGroup::decoded(instr)
    } else if opcode == JAL_OPCODE {
        JalOpcodeGroup::decoded(instr)
    } else if opcode == JALR_OPCODE {
        JalrOpcodeGroup::decoded(instr)
    } else if opcode == BRANCH_OPCODE {
        BranchOpcodeGroup::decoded(instr)
    } else if opcode == LOAD_OPCODE {
        LoadOpcodeGroup::decoded(instr)
    } else if opcode == STORE_OPCODE {
        StoreOpcodeGroup::decoded(instr)
    } else if opcode == MISC_MEM_OPCODE {
        FenceOpcodeGroup::decoded(instr)
    } else if opcode == SYSTEM_OPCODE {
        SystemOpcodeGroup::decoded(instr)
    } else if opcode == ATOMIC_OPCODE {
        AtomicOpcodeGroup::decoded(instr)
    } else if opcode == LOAD_FP_OPCODE {
        LoadFloatingPointOpcodeGroup::decoded(instr)
    } else if opcode == STORE_FP_OPCODE {
        StoreFloatingPointOpcodeGroup::decoded(instr)
    } else if opcode == OP_FP_OPCODE {
        FloatingPointOpcodeGroup::decoded(instr)
    } else if opcode == FMADD_OPCODE {
        FusedMultiplyAddOpcodeGroup::decoded(instr)
    } else if opcode == FMSUB_OPCODE {
        FusedMultiplySubOpcodeGroup::decoded(instr)
    } else {
        InstructionFn::Illegal
    }
}

impl RV64InstructionParser {
    /// Decodes the word `instr`.
    pub fn parse(instr: u32) -> (instruction: InstructionFn)
        ensures
            instruction == decoded(instr),
    {
        let opcode = opcode(instr);
        if opcode == OP_OPCODE {
            IntOpOpcodeGroup::parse(instr)
        } else if opcode == OP_32_OPCODE {
            IntOp32OpcodeGroup::parse(instr)
        } else if opcode == OP_IMM_OPCODE {
            IntOpImmOpcodeGroup::parse(instr)
        } else if opcode == OP_IMM_32_OPCODE {
            IntOpImm32OpcodeGroup::parse(instr)
        } else if opcode == LUI_OPCODE {
            LuiOpcodeGroup::parse(instr)
        } else if opcode == AUIPC_OPCODE {
            AuipcOpcodeGroup::parse(instr)
        } else if opcode == JAL_OPCODE {
            JalOpcodeGroup::parse(instr)
        } else if opcode == JALR_OPCODE {
            JalrOpcodeGroup::parse(instr)
        } else if opcode == BRANCH_OPCODE {
            BranchOpcodeGroup::parse(instr)
        } else if opcode == LOAD_OPCODE {
            LoadOpcodeGroup::parse(instr)
        } else if opcode == STORE_OPCODE {
            StoreOpcodeGroup::parse(instr)
        } else if opcode == MISC_MEM_OPCODE {
            FenceOpcodeGroup::parse(instr)
        } else if opcode == SYSTEM_OPCODE {
            SystemOpcodeGroup::parse(instr)
        } else if opcode == ATOMIC_OPCODE {
            AtomicOpcodeGroup::parse(instr)
        } else if opcode == LOAD_FP_OPCODE {
            LoadFloatingPointOpcodeGroup::parse(instr)
        } else if opcode == STORE_FP_OPCODE {
            StoreFloatingPointOpcodeGroup::parse(instr)
        } else if opcode == OP_FP_OPCODE {
            FloatingPointOpcodeGroup::parse(instr)
        } else if opcode == FMADD_OPCODE {
            FusedMultiplyAddOpcodeGroup::parse(instr)
        } else if opcode == FMSUB_OPCODE {
            FusedMultiplySubOpcodeGroup::parse(instr)
        } else {
            InstructionFn::Illegal
        }
    }
}

/// Register `x0` stays zero whatever is executed, and an instruction
/// whose destination is `x0` leaves every integer register as it was.
/// The invariant of the hart holds after every instruction.
#[verifier::rlimit(80)]
pub proof fn lemma_x0_hardwired(op: InstructionFn, cpu: CpuState, memory: MemoryState, instr: u32)
    requires
        cpu.wf(),
    ensures
        op.effect(cpu, memory, instr).cpu.wf(),
        op.effect(cpu, memory, instr).cpu.x[0] == 0,
        rd_of(instr) == 0 ==> op.effect(cpu, memory, instr).cpu.x == cpu.x,
{
    reveal(InstructionFn::effect);
    let number = crate::emulator::instructions::rv64::system::csr_number(op.immediate(instr));
    assert forall|value: u64| #[trigger] cpu.csrs.write(number, value, false).wf() by {
        lemma_write_keeps_wf(cpu.csrs, number, value, false);
    }
}

/// Where executing an instruction leaves the program counter: at the
/// target of a jump or of a taken branch, and where it was for
/// everything else.
#[verifier::rlimit(80)]
pub proof fn lemma_pc_after(op: InstructionFn, cpu: CpuState, memory: MemoryState, instr: u32)
    ensures
        op.effect(cpu, memory, instr).cpu.pc == match transfer_target(
            op,
            cpu,
            rs1_of(instr) as int,
            rs2_of(instr) as int,
            op.immediate(instr),
        ) {
            Some(target) => target,
            None => cpu.pc,
        },
{
    reveal(InstructionFn::effect);
}

/// The invariant of the memory unit holds after every instruction: no
/// store, and no atomic, makes two regions overlap or changes where a
/// region lies.
#[verifier::rlimit(80)]
pub proof fn lemma_memory_stays_well_formed(
    op: InstructionFn,
    cpu: CpuState,
    memory: MemoryState,
    instr: u32,
)
    requires
        memory.wf(),
    ensures
        op.effect(cpu, memory, instr).memory.wf(),
        op.effect(cpu, memory, instr).memory.regions.len() == memory.regions.len(),
        op.effect(cpu, memory, instr).memory.layout() == memory.layout(),
{
    reveal(InstructionFn::effect);
    assert forall|addr: int, data: Seq<u8>|
        memory.covered(addr, data.len() as int) implies (#[trigger] memory.patched(
        addr,
        data,
    )).wf() && memory.patched(addr, data).regions.len() == memory.regions.len()
        && memory.patched(addr, data).layout() == memory.layout() by {
        lemma_patched_shape(memory, addr, data);
    }
}

} // verus!
