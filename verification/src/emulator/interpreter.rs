use crate::emulator::instructions::rv64::fp::{
    exec_float, float_decision, float_effect, float_prepare, is_float_computation, FloatDecision,
    FloatRequest,
};
use crate::emulator::instructions::rv64::jump_branch::transfer_target;
use crate::emulator::instructions::rv64::{
    decoded, lemma_memory_stays_well_formed, lemma_pc_after, lemma_x0_hardwired,
    RV64InstructionParser,
};
use crate::emulator::instructions::{rs1_of, rs2_of};
use crate::emulator::state::memory::{
    le_u32, Device, MemoryManagementUnit, MemoryState, WellFormed,
};
use crate::emulator::state::rv64_cpu_context::{
    lemma_summary_idempotent, with_summary, CSRAddress, CpuState, CsrState, Exception,
    PrivilegeMode, RV64CPUContext, MSTATUS_MIE, MSTATUS_SIE,
};
use vstd::prelude::*;

verus! {

/// A condition that the guest cannot be told of by a trap: the host has
/// to deal with it.
#[derive(Debug, Clone, Copy, PartialEq, Eq, Structural)]
pub enum HostError {
    /// The trap vector register of the level that takes the trap holds a
    /// reserved mode (neither direct nor vectored).
    ReservedTrapVector,
}

/// Whether a trap with the cause `exception`, raised in the state
/// `csrs`, is delegated to supervisor mode: the hart is in user mode and
/// `medeleg` has the bit of the cause set.
pub open spec fn is_delegated(csrs: CsrState, exception: Exception) -> bool {
    csrs.privilege == PrivilegeMode::User && (csrs.medeleg >> exception.cause()) & 1 == 1
}

/// Where a trap with cause code `cause` enters under the trap vector
/// `tvec`: the base (the vector with its low two bits cleared) in direct
/// mode, the base plus four times the cause in vectored mode, and nowhere
/// in a reserved mode.
pub open spec fn trap_entry(tvec: u64, cause: u64) -> Option<u64> {
    let base = (tvec - tvec % 4) as u64;
    if tvec % 4 == 0 {
        Some(base)
    } else if tvec % 4 == 1 {
        Some(((base + 4 * cause) % 0x1_0000_0000_0000_0000) as u64)
    } else {
        None
    }
}

/// The CSR file after a trap is taken in machine mode: `mcause` holds the
/// cause, `mepc` the program counter of the trapping instruction,
/// `mstatus.MIE` is clear and the hart is in machine mode.
pub open spec fn machine_trap_csrs(csrs: CsrState, pc: u64, exception: Exception) -> CsrState {
    let cause_saved = csrs.store(CSRAddress::MCause, exception.cause());
    let pc_saved = cause_saved.store(CSRAddress::MEPC, pc);
    let masked = pc_saved.store(
        CSRAddress::MStatus,
        with_summary(csrs.mstatus) & !MSTATUS_MIE,
    );
    CsrState { privilege: PrivilegeMode::Machine, ..masked }
}

/// The CSR file after a trap is taken in supervisor mode: `scause` holds
/// the cause, `sepc` the program counter of the trapping instruction,
/// `sstatus.SIE` is clear and the hart is in supervisor mode.
pub open spec fn supervisor_trap_csrs(csrs: CsrState, pc: u64, exception: Exception) -> CsrState {
    let cause_saved = csrs.store(CSRAddress::SCause, exception.cause());
    let pc_saved = cause_saved.store(CSRAddress::SEPC, pc);
    let masked = pc_saved.store(CSRAddress::SStatus, csrs.sstatus() & !MSTATUS_SIE);
    CsrState { privilege: PrivilegeMode::Supervisor, ..masked }
}

/// The hart after the trap `exception` is delivered, or `None` where the
/// trap vector of the level that takes it holds a reserved mode.
///
/// A trap raised in user mode whose cause is delegated goes to
/// supervisor mode, every other trap to machine mode; the program
/// counter moves to the entry that the level's trap vector gives.
pub open spec fn trap_effect(state: CpuState, exception: Exception) -> Option<CpuState> {
    if is_delegated(state.csrs, exception) {
        match trap_entry(state.csrs.stvec, exception.cause()) {
            Some(entry) => Some(
                state.set_csrs(supervisor_trap_csrs(state.csrs, state.pc, exception)).set_pc(
                    entry,
                ),
            ),
            None => None,
        }
    } else {
        match trap_entry(state.csrs.mtvec, exception.cause()) {
            Some(entry) => Some(
                state.set_csrs(machine_trap_csrs(state.csrs, state.pc, exception)).set_pc(entry),
            ),
            None => None,
        }
    }
}

/// The lowest place at or above `from` at which `bits` has a one.
pub open spec fn first_set_bit(bits: u64, from: int) -> Option<u64>
    decreases 64 - from,
{
    if from < 0 || from >= 64 {
        None
    } else if (bits >> (from as u64)) & 1 == 1 {
        Some(from as u64)
    } else {
        first_set_bit(bits, from + 1)
    }
}

/// The interrupt to dispatch in the state `csrs`: in machine mode with
/// `mstatus.MIE` set, the lowest-numbered interrupt that is both pending
/// and enabled; else none.
pub open spec fn pending_interrupt(csrs: CsrState) -> Option<u64> {
    if csrs.privilege == PrivilegeMode::Machine && (with_summary(csrs.mstatus) & MSTATUS_MIE)
        != 0 {
        first_set_bit(csrs.mip & csrs.mie, 0)
    } else {
        None
    }
}

/// What one step comes to: the hart and the memory afterwards, and
/// either the interrupt to dispatch, if any, or the trap that the
/// instruction raised.
pub struct StepOutcome {
    pub cpu: CpuState,
    pub memory: MemoryState,
    pub result: Result<Option<u64>, Exception>,
}

/// Whether the four bytes of an instruction can be fetched from `pc`.
pub open spec fn fetchable(memory: MemoryState, pc: u64) -> bool {
    pc <= usize::MAX && memory.covered(pc as int, 4)
}

/// The word fetched from `pc`.
pub open spec fn fetched(memory: MemoryState, pc: u64) -> u32 {
    le_u32(memory.window(pc as int, 4))
}

/// The program counter after an instruction retired: four beyond the
/// instruction where the executor left it alone, else where the executor
/// put it.
pub open spec fn advanced_pc(before: u64, after: u64) -> u64 {
    if after == before {
        ((before + 4) % 0x1_0000_0000_0000_0000) as u64
    } else {
        after
    }
}

/// One step of the hart `cpu` on the memory `memory`.
///
/// The word at the program counter is fetched (an instruction access
/// fault where no region covers it), decoded and executed. Where the
/// instruction traps, the step fails with its trap and the program
/// counter stays at the instruction. Where it retires, the program
/// counter advances and the interrupts are polled.
pub open spec fn step_effect(cpu: CpuState, memory: MemoryState) -> StepOutcome {
    if !fetchable(memory, cpu.pc) {
        StepOutcome { cpu, memory, result: Err(Exception::InstructionAccessFault) }
    } else {
        let instr = fetched(memory, cpu.pc);
        let executed = decoded(instr).effect(cpu, memory, instr);
        match executed.result {
            Err(exception) => StepOutcome {
                cpu: executed.cpu.set_pc(cpu.pc),
                memory: executed.memory,
                result: Err(exception),
            },
            Ok(()) => {
                let retired = executed.cpu.set_pc(advanced_pc(cpu.pc, executed.cpu.pc));
                StepOutcome {
                    cpu: retired,
                    memory: executed.memory,
                    result: Ok(pending_interrupt(retired.csrs)),
                }
            },
        }
    }
}

/// The request that the float unit has to answer before the hart can
/// step: the instruction at the program counter is a floating-point
/// computation that needs a result. `None` for every other instruction.
pub open spec fn float_pending(cpu: CpuState, memory: MemoryState) -> Option<FloatRequest> {
    let instr = fetched(memory, cpu.pc);
    if fetchable(memory, cpu.pc) && is_float_computation(decoded(instr)) {
        match float_decision(decoded(instr), cpu, instr) {
            FloatDecision::Compute(request) => Some(request),
            FloatDecision::Raise(_) => None,
        }
    } else {
        None
    }
}

/// One step of a hart that has a float unit, which answered `computed`.
///
/// A floating-point computation at the program counter is executed with
/// that answer and retires: the program counter advances by four and the
/// interrupts are polled. Every other instruction steps as without a
/// float unit.
pub open spec fn float_step_effect(cpu: CpuState, memory: MemoryState, computed: u64)
    -> StepOutcome {
    let instr = fetched(memory, cpu.pc);
    if fetchable(memory, cpu.pc) && is_float_computation(decoded(instr)) {
        let retired = float_effect(decoded(instr), cpu, instr, computed).set_pc(
            advanced_pc(cpu.pc, cpu.pc),
        );
        StepOutcome { cpu: retired, memory, result: Ok(pending_interrupt(retired.csrs)) }
    } else {
        step_effect(cpu, memory)
    }
}

/// Why a run ended, and where it left the hart and the memory.
pub struct RunOutcome {
    pub cpu: CpuState,
    pub memory: MemoryState,
    pub result: Result<Option<u64>, HostError>,
}

/// A run of at most `steps` steps. After each step that trapped, the trap
/// is delivered. The run ends early where a step asks for an interrupt to
/// be dispatched, which it hands back, and where a trap cannot be
/// delivered.
pub open spec fn run_effect(cpu: CpuState, memory: MemoryState, steps: nat) -> RunOutcome
    decreases steps,
{
    if steps == 0 {
        RunOutcome { cpu, memory, result: Ok(None) }
    } else {
        let stepped = step_effect(cpu, memory);
        match stepped.result {
            Ok(Some(interrupt)) => RunOutcome {
                cpu: stepped.cpu,
                memory: stepped.memory,
                result: Ok(Some(interrupt)),
            },
            Ok(None) => run_effect(stepped.cpu, stepped.memory, (steps - 1) as nat),
            Err(exception) => match trap_effect(stepped.cpu, exception) {
                Some(entered) => run_effect(entered, stepped.memory, (steps - 1) as nat),
                None => RunOutcome {
                    cpu: stepped.cpu,
                    memory: stepped.memory,
                    result: Err(HostError::ReservedTrapVector),
                },
            },
        }
    }
}

proof fn lemma_trap_bits(tvec: u64)
    by (bit_vector)
    ensures
        tvec & 3 == tvec % 4,
        tvec & !3u64 == tvec - tvec % 4,
{
}

/// The interpreter of one hart: its architectural state and the number
/// of steps it has made.
pub struct Interpreter {
    pub cpu_context: RV64CPUContext,
    pub cycles: u64,
}

impl Interpreter {
    /// The invariant of the interpreter: that of its hart.
    pub open spec fn wf(&self) -> bool {
        self.cpu_context.wf()
    }

    /// Creates the interpreter of hart 0 after reset, about to fetch from
    /// `entrypoint`.
    pub fn new(entrypoint: u64) -> (interpreter: Self)
        ensures
            interpreter.wf(),
            interpreter.cpu_context@ == CpuState::reset(entrypoint),
            interpreter.cycles == 0,
    {
        Interpreter { cpu_context: RV64CPUContext::new(entrypoint), cycles: 0 }
    }

    /// Returns where a trap with cause code `cause` enters under the trap
    /// vector `tvec`, or `None` where the vector holds a reserved mode.
    pub fn trap_vector(tvec: u64, cause: u64) -> (entry: Option<u64>)
        ensures
            entry == trap_entry(tvec, cause),
    {
        proof {
            lemma_trap_bits(tvec);
        }
        let mode = tvec & 3;
        let base = tvec & !3u64;
        if mode == 0 {
            Some(base)
        } else if mode == 1 {
            Some(base.wrapping_add(cause.wrapping_mul(4)))
        } else {
            None
        }
    }

    /// Delivers the trap `exception` in machine mode: saves the cause and
    /// the program counter, clears `mstatus.MIE` and enters at the
    /// machine trap vector. Fails, and changes nothing, where the vector
    /// holds a reserved mode.
    pub fn handle_exception_machine(&mut self, exception: Exception) -> (r: Result<(), HostError>)
        requires
            old(self).wf(),
        ensures
            final(self).wf(),
            final(self).cycles == old(self).cycles,
            match trap_entry(old(self).cpu_context@.csrs.mtvec, exception.cause()) {
                Some(entry) => r == Ok::<(), HostError>(()) && final(self).cpu_context@ == old(self).cpu_context@.set_csrs(
                    machine_trap_csrs(
                        old(self).cpu_context@.csrs,
                        old(self).cpu_context@.pc,
                        exception,
                    ),
                ).set_pc(entry),
                None => r == Err::<(), HostError>(HostError::ReservedTrapVector) && final(self).cpu_context@ == old(self).cpu_context@,
            },
    {
        let cause = exception.code();
        let mtvec = match self.cpu_context.read_csr(CSRAddress::MTVec.address(), true) {
            Ok(value) => value,
            Err(_) => 0,
        };
        let mstatus = match self.cpu_context.read_csr(CSRAddress::MStatus.address(), true) {
            Ok(value) => value,
            Err(_) => 0,
        };
        let entry = match Self::trap_vector(mtvec, cause) {
            Some(entry) => entry,
            None => {
                return Err(HostError::ReservedTrapVector);
            },
        };
        let pc = self.cpu_context.pc();
        let _ = self.cpu_context.write_csr(CSRAddress::MCause.address(), cause, true);
        let _ = self.cpu_context.write_csr(CSRAddress::MEPC.address(), pc, true);
        let _ = self.cpu_context.write_csr(
            CSRAddress::MStatus.address(),
            mstatus & !MSTATUS_MIE,
            true,
        );
        self.cpu_context.change_privilege(PrivilegeMode::Machine);
        self.cpu_context.set_pc(entry);
        Ok(())
    }

    /// Delivers the trap `exception` in supervisor mode: saves the cause
    /// and the program counter, clears `sstatus.SIE` and enters at the
    /// supervisor trap vector. Fails, and changes nothing, where the
    /// vector holds a reserved mode.
    pub fn handle_exception_supervisor(&mut self, exception: Exception) -> (r: Result<
        (),
        HostError,
    >)
        requires
            old(self).wf(),
        ensures
            final(self).wf(),
            final(self).cycles == old(self).cycles,
            match trap_entry(old(self).cpu_context@.csrs.stvec, exception.cause()) {
                Some(entry) => r == Ok::<(), HostError>(()) && final(self).cpu_context@ == old(self).cpu_context@.set_csrs(
                    supervisor_trap_csrs(
                        old(self).cpu_context@.csrs,
                        old(self).cpu_context@.pc,
                        exception,
                    ),
                ).set_pc(entry),
                None => r == Err::<(), HostError>(HostError::ReservedTrapVector) && final(self).cpu_context@ == old(self).cpu_context@,
            },
    {
        let cause = exception.code();
        let stvec = match self.cpu_context.read_csr(CSRAddress::STVec.address(), true) {
            Ok(value) => value,
            Err(_) => 0,
        };
        let sstatus = match self.cpu_context.read_csr(CSRAddress::SStatus.address(), true) {
            Ok(value) => value,
            Err(_) => 0,
        };
        let entry = match Self::trap_vector(stvec, cause) {
            Some(entry) => entry,
            None => {
                return Err(HostError::ReservedTrapVector);
            },
        };
        let pc = self.cpu_context.pc();
        let _ = self.cpu_context.write_csr(CSRAddress::SCause.address(), cause, true);
        let _ = self.cpu_context.write_csr(CSRAddress::SEPC.address(), pc, true);
        let _ = self.cpu_context.write_csr(
            CSRAddress::SStatus.address(),
            sstatus & !MSTATUS_SIE,
            true,
        );
        self.cpu_context.change_privilege(PrivilegeMode::Supervisor);
        self.cpu_context.set_pc(entry);
        Ok(())
    }

    /// Delivers the trap `exception` to the level that takes it: to
    /// supervisor mode where it was raised in user mode and its cause is
    /// delegated, else to machine mode.
    pub fn handle_exception(&mut self, exception: Exception) -> (r: Result<(), HostError>)
        requires
            old(self).wf(),
        ensures
            final(self).wf(),
            final(self).cycles == old(self).cycles,
            match trap_effect(old(self).cpu_context@, exception) {
                Some(state) => r == Ok::<(), HostError>(()) && final(self).cpu_context@ == state,
                None => r == Err::<(), HostError>(HostError::ReservedTrapVector) && final(self).cpu_context@ == old(self).cpu_context@,
            },
    {
        match self.cpu_context.csrs().get_current_privilege() {
            PrivilegeMode::Machine => self.handle_exception_machine(exception),
            PrivilegeMode::Supervisor => self.handle_exception_machine(exception),
            PrivilegeMode::User => {
                let medeleg = match self.cpu_context.read_csr(CSRAddress::MEDeleg.address(), true) {
                    Ok(value) => value,
                    Err(_) => 0,
                };
                if (medeleg >> exception.code()) & 1 == 1 {
                    self.handle_exception_supervisor(exception)
                } else {
                    self.handle_exception_machine(exception)
                }
            },
        }
    }

    /// Returns the lowest place at which `bits` has a one, or `None`
    /// where it has none.
    pub fn lowest_set_bit(bits: u64) -> (place: Option<u64>)
        ensures
            place == first_set_bit(bits, 0),
    {
        let mut i: u64 = 0;
        while i < 64
            invariant
                0 <= i <= 64,
                first_set_bit(bits, 0) == first_set_bit(bits, i as int),
            decreases 64 - i,
        {
            if (bits >> i) & 1 == 1 {
                return Some(i);
            }
            i += 1;
        }
        None
    }

    /// Returns the interrupt to dispatch, if any: in machine mode with
    /// `mstatus.MIE` set, the lowest-numbered interrupt that is pending
    /// in `mip` and enabled in `mie`.
    pub fn check_for_interrupt(&self) -> (interrupt: Option<u64>)
        ensures
            interrupt == pending_interrupt(self.cpu_context@.csrs),
    {
        let mstatus = match self.cpu_context.read_csr(CSRAddress::MStatus.address(), true) {
            Ok(value) => value,
            Err(_) => 0,
        };
        match self.cpu_context.csrs().get_current_privilege() {
            PrivilegeMode::Machine => {
                if (mstatus & MSTATUS_MIE) != 0 {
                    let mie = match self.cpu_context.read_csr(CSRAddress::MIE.address(), true) {
                        Ok(value) => value,
                        Err(_) => 0,
                    };
                    let mip = match self.cpu_context.read_csr(CSRAddress::MIP.address(), true) {
                        Ok(value) => value,
                        Err(_) => 0,
                    };
                    Self::lowest_set_bit(mip & mie)
                } else {
                    None
                }
            },
            _ => None,
        }
    }

    /// Makes one step: fetches the word at the program counter, decodes
    /// and executes it. Where the instruction retires, the program
    /// counter advances by four unless the instruction moved it, and the
    /// step returns the interrupt to dispatch, if any. Where it traps,
    /// the step returns the trap, with the program counter still at the
    /// instruction.
    pub fn step<D: Device>(&mut self, memory: &mut MemoryManagementUnit<D>) -> (r: Result<
        Option<u64>,
        Exception,
    >)
        requires
            old(self).wf(),
            old(memory).wf(),
        ensures
            final(self).wf(),
            final(memory).wf(),
            final(self).cycles == ((old(self).cycles + 1) % 0x1_0000_0000_0000_0000) as u64,
            final(self).cpu_context@ == step_effect(old(self).cpu_context@, old(memory)@).cpu,
            final(memory)@ == step_effect(old(self).cpu_context@, old(memory)@).memory,
            r == step_effect(old(self).cpu_context@, old(memory)@).result,
    {
        let old_pc = self.cpu_context.pc();
        self.cycles = self.cycles.wrapping_add(1);
        if old_pc > usize::MAX as u64 {
            return Err(Exception::InstructionAccessFault);
        }
        let instr = match memory.read_word(old_pc as usize) {
            Ok(word) => word,
            Err(_) => {
                return Err(Exception::InstructionAccessFault);
            },
        };
        let instr_fn = RV64InstructionParser::parse(instr);
        let execution_result = instr_fn.call(&mut self.cpu_context, memory, instr);
        if let Err(e) = execution_result {
            self.cpu_context.set_pc(old_pc);
            return Err(e);
        }
        if self.cpu_context.pc() == old_pc {
            self.cpu_context.set_pc(old_pc.wrapping_add(4));
        }
        Ok(self.check_for_interrupt())
    }

    /// Makes one step on a memory unit that is shared: takes the lock for
    /// writing, steps on the unit as found, and gives the lock back.
    /// What the step does is what [`Interpreter::step`] does on some
    /// well-formed memory of the layout that the lock guards: which one,
    /// the other harts decide.
    pub fn step_shared<D: Device>(
        &mut self,
        guard: &vstd::rwlock::RwLock<MemoryManagementUnit<D>, WellFormed>,
    ) -> (r: Result<Option<u64>, Exception>)
        requires
            old(self).wf(),
        ensures
            final(self).wf(),
            final(self).cycles == ((old(self).cycles + 1) % 0x1_0000_0000_0000_0000) as u64,
            exists|memory: MemoryState|
                memory.wf() && memory.layout() == guard.pred().layout && final(self).cpu_context@
                    == (#[trigger] step_effect(old(self).cpu_context@, memory)).cpu && r
                    == step_effect(old(self).cpu_context@, memory).result,
    {
        let (mut memory, handle) = guard.acquire_write();
        let ghost found = memory@;
        proof {
            lemma_step_keeps_invariants(self.cpu_context@, found);
        }
        let r = self.step(&mut memory);
        handle.release_write(memory);
        assert(found.wf() && found.layout() == guard.pred().layout && self.cpu_context@
            == step_effect(old(self).cpu_context@, found).cpu);
        r
    }

    /// Returns the request that the float unit has to answer before the
    /// next step, if the instruction at the program counter is a
    /// floating-point computation that needs a result.
    pub fn float_request<D: Device>(&self, memory: &MemoryManagementUnit<D>) -> (request: Option<
        FloatRequest,
    >)
        requires
            self.wf(),
            memory.wf(),
        ensures
            request == float_pending(self.cpu_context@, memory@),
    {
        let pc = self.cpu_context.pc();
        if pc > usize::MAX as u64 {
            return None;
        }
        let instr = match memory.read_word(pc as usize) {
            Ok(word) => word,
            Err(_) => {
                return None;
            },
        };
        let instr_fn = RV64InstructionParser::parse(instr);
        if !instr_fn.is_float() {
            return None;
        }
        match float_prepare(&self.cpu_context, instr_fn, instr) {
            FloatDecision::Compute(request) => Some(request),
            FloatDecision::Raise(_) => None,
        }
    }

    /// Makes one step with `computed` as the answer of the float unit to
    /// the request of [`Interpreter::float_request`]: a floating-point
    /// computation at the program counter is executed with it, and every
    /// other instruction as [`Interpreter::step`] does.
    pub fn step_float<D: Device>(&mut self, memory: &mut MemoryManagementUnit<D>, computed: u64)
        -> (r: Result<Option<u64>, Exception>)
        requires
            old(self).wf(),
            old(memory).wf(),
        ensures
            final(self).wf(),
            final(memory).wf(),
            final(self).cycles == ((old(self).cycles + 1) % 0x1_0000_0000_0000_0000) as u64,
            final(self).cpu_context@ == float_step_effect(
                old(self).cpu_context@,
                old(memory)@,
                computed,
            ).cpu,
            final(memory)@ == float_step_effect(old(self).cpu_context@, old(memory)@, computed).memory,
            r == float_step_effect(old(self).cpu_context@, old(memory)@, computed).result,
    {
        let old_pc = self.cpu_context.pc();
        if old_pc > usize::MAX as u64 {
            return self.step(memory);
        }
        let instr = match memory.read_word(old_pc as usize) {
            Ok(word) => word,
            Err(_) => {
                return self.step(memory);
            },
        };
        let instr_fn = RV64InstructionParser::parse(instr);
        if !instr_fn.is_float() {
            return self.step(memory);
        }
        self.cycles = self.cycles.wrapping_add(1);
        let _ = exec_float(&mut self.cpu_context, instr_fn, instr, computed);
        self.cpu_context.set_pc(old_pc.wrapping_add(4));
        Ok(self.check_for_interrupt())
    }

    /// Runs at most `steps` steps, delivering the trap of each step that
    /// trapped. Returns `Ok(None)` after `steps` steps, `Ok(Some(n))` as
    /// soon as a step asks for interrupt `n` to be dispatched, and an
    /// error as soon as a trap cannot be delivered.
    pub fn main_loop<D: Device>(&mut self, memory: &mut MemoryManagementUnit<D>, steps: u64) -> (r:
        Result<Option<u64>, HostError>)
        requires
            old(self).wf(),
            old(memory).wf(),
        ensures
            final(self).wf(),
            final(memory).wf(),
            final(self).cpu_context@ == run_effect(
                old(self).cpu_context@,
                old(memory)@,
                steps as nat,
            ).cpu,
            final(memory)@ == run_effect(old(self).cpu_context@, old(memory)@, steps as nat).memory,
            r == run_effect(old(self).cpu_context@, old(memory)@, steps as nat).result,
    {
        let mut remaining = steps;
        while remaining > 0
            invariant
                self.wf(),
                memory.wf(),
                run_effect(old(self).cpu_context@, old(memory)@, steps as nat) == run_effect(
                    self.cpu_context@,
                    memory@,
                    remaining as nat,
                ),
            decreases remaining,
        {
            match self.step(memory) {
                Ok(Some(interrupt)) => {
                    return Ok(Some(interrupt));
                },
                Ok(None) => {},
                Err(exception) => {
                    if let Err(error) = self.handle_exception(exception) {
                        return Err(error);
                    }
                },
            }
            remaining = remaining - 1;
        }
        Ok(None)
    }
}

/// Whether the instruction at the program counter is a jump or a taken
/// branch to an address that is not a multiple of four.
pub open spec fn transfers_off_alignment(cpu: CpuState, memory: MemoryState) -> bool {
    let instr = fetched(memory, cpu.pc);
    let op = decoded(instr);
    fetchable(memory, cpu.pc) && match transfer_target(
        op,
        cpu,
        rs1_of(instr) as int,
        rs2_of(instr) as int,
        op.immediate(instr),
    ) {
        Some(target) => target % 4 != 0,
        None => false,
    }
}

/// A step that retires an instruction from a program counter that is a
/// multiple of four leaves the program counter at a multiple of four,
/// unless the instruction is a jump or a taken branch whose target is
/// not one: jump and branch offsets are multiples of two only.
pub proof fn lemma_pc_stays_aligned(cpu: CpuState, memory: MemoryState)
    requires
        cpu.pc % 4 == 0,
        step_effect(cpu, memory).result is Ok,
        !transfers_off_alignment(cpu, memory),
    ensures
        step_effect(cpu, memory).cpu.pc % 4 == 0,
{
    let instr = fetched(memory, cpu.pc);
    lemma_pc_after(decoded(instr), cpu, memory, instr);
}

/// A step keeps the invariants of the hart and of the memory: `x0` is
/// zero after it, and the regions are where they were, apart from each
/// other.
pub proof fn lemma_step_keeps_invariants(cpu: CpuState, memory: MemoryState)
    requires
        cpu.wf(),
        memory.wf(),
    ensures
        step_effect(cpu, memory).cpu.wf(),
        step_effect(cpu, memory).cpu.x[0] == 0,
        step_effect(cpu, memory).memory.wf(),
        step_effect(cpu, memory).memory.layout() == memory.layout(),
{
    let instr = fetched(memory, cpu.pc);
    lemma_x0_hardwired(decoded(instr), cpu, memory, instr);
    lemma_memory_stays_well_formed(decoded(instr), cpu, memory, instr);
}

proof fn lemma_interrupt_enable_bits(status: u64)
    by (bit_vector)
    ensures
        (((status & !0x8u64) & 0x1_FFEAu64) | 0x8000_0000_0000_0000u64) & 0x8u64 == 0,
        (((status & !0x8u64) & 0x1_FFEAu64) & !0x8000_0000_0000_0000u64) & 0x8u64 == 0,
        ((((status & !0x6362u64) | (((status & 0x8000_0000_0001_E362u64) & !0x2u64) & 0x6362u64))
            | 0x8000_0000_0000_0000u64) & 0x2u64) == 0,
        ((((status & !0x6362u64) | (((status & 0x8000_0000_0001_E362u64) & !0x2u64) & 0x6362u64))
            & !0x8000_0000_0000_0000u64) & 0x2u64) == 0,
{
}

/// What trap delivery leaves in the CSR file. In machine mode: `mcause`
/// holds the cause, `mepc` the program counter with bit 0 cleared,
/// `mstatus.MIE` is clear and the hart is in machine mode. In supervisor
/// mode: the same of `scause`, `sepc` and `sstatus.SIE`, and the hart is
/// in supervisor mode. Either way the invariant of the file holds.
pub proof fn lemma_trap_saves_state(csrs: CsrState, pc: u64, exception: Exception)
    requires
        csrs.wf(),
    ensures
        machine_trap_csrs(csrs, pc, exception).wf(),
        machine_trap_csrs(csrs, pc, exception).mcause == exception.cause(),
        machine_trap_csrs(csrs, pc, exception).mepc == pc & !1u64,
        machine_trap_csrs(csrs, pc, exception).mstatus & MSTATUS_MIE == 0,
        machine_trap_csrs(csrs, pc, exception).privilege == PrivilegeMode::Machine,
        supervisor_trap_csrs(csrs, pc, exception).wf(),
        supervisor_trap_csrs(csrs, pc, exception).scause == exception.cause(),
        supervisor_trap_csrs(csrs, pc, exception).sepc == pc & !1u64,
        supervisor_trap_csrs(csrs, pc, exception).sstatus() & MSTATUS_SIE == 0,
        supervisor_trap_csrs(csrs, pc, exception).privilege == PrivilegeMode::Supervisor,
{
    lemma_interrupt_enable_bits(csrs.mstatus);
    lemma_interrupt_enable_bits(with_summary(csrs.mstatus));
    lemma_summary_idempotent((with_summary(csrs.mstatus) & !MSTATUS_MIE) & 0x1_FFEAu64);
    lemma_summary_idempotent(
        (csrs.mstatus & !0x6362u64) | ((csrs.sstatus() & !MSTATUS_SIE) & 0x6362u64),
    );
    assert((pc & !1u64) & 1 == 0) by (bit_vector);
    let status = with_summary(
        (csrs.mstatus & !0x6362u64) | ((csrs.sstatus() & !MSTATUS_SIE) & 0x6362u64),
    );
    assert((status & 0x8000_0000_0001_E362u64) & 0x2u64 == 0) by (bit_vector)
        requires
            status & 0x2u64 == 0,
    ;
}

/// Trap delivery keeps the invariant of the hart.
pub proof fn lemma_trap_keeps_invariant(state: CpuState, exception: Exception)
    requires
        state.wf(),
    ensures
        trap_effect(state, exception) matches Some(entered) ==> entered.wf(),
{
    lemma_trap_saves_state(state.csrs, state.pc, exception);
}

} // verus!
