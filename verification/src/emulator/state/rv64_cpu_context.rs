use vstd::prelude::*;

verus! {

/// `mstatus.SIE`: supervisor interrupt enable.
pub const MSTATUS_SIE: u64 = 0x2;

/// `mstatus.MIE`: machine interrupt enable.
pub const MSTATUS_MIE: u64 = 0x8;

/// `mstatus.SPIE`: supervisor previous interrupt enable.
pub const MSTATUS_SPIE: u64 = 0x20;

/// `mstatus.UBE`: user-mode big-endian accesses.
pub const MSTATUS_UBE: u64 = 0x40;

/// `mstatus.MPIE`: machine previous interrupt enable.
pub const MSTATUS_MPIE: u64 = 0x80;

/// `mstatus.SPP`: supervisor previous privilege.
pub const MSTATUS_SPP: u64 = 0x100;

/// `mstatus.SBE`: supervisor-mode big-endian accesses.
pub const MSTATUS_SBE: u64 = 0x200;

/// `mstatus.MBE`: machine-mode big-endian accesses.
pub const MSTATUS_MBE: u64 = 0x400;

/// `mstatus.MPP`: machine previous privilege (two bits).
pub const MSTATUS_MPP: u64 = 0x1800;

/// `mstatus.FS`: floating-point unit state (two bits).
pub const MSTATUS_FS: u64 = 0x6000;

/// `mstatus.XS`: extension state (two bits).
pub const MSTATUS_XS: u64 = 0x1_8000;

/// `mstatus.TVM`: trap virtual-memory management.
pub const MSTATUS_TVM: u64 = 0x10_0000;

/// `mstatus.SD`: summary bit, set exactly when `FS` or `XS` is dirty.
pub const MSTATUS_SD: u64 = 0x8000_0000_0000_0000;

/// The bits of `mstatus` that a write to `mstatus` can change.
pub const MSTATUS_WRITABLE: u64 = 0x1_FFEA;

/// The bits of `mstatus` that a read of `sstatus` shows.
pub const SSTATUS_VISIBLE: u64 = 0x8000_0000_0001_E362;

/// The bits of `mstatus` that a write to `sstatus` can change.
pub const SSTATUS_WRITABLE: u64 = 0x6362;

/// The interrupt bits implemented in `mie` and `mip`: software, timer and
/// external, each for user, supervisor and machine level.
pub const INTERRUPT_BITS: u64 = 0xBBB;

/// The bits of `sip` that software may write: `USIP` and `SSIP`.
pub const SIP_WRITABLE: u64 = 0x3;

/// The synchronous traps a handler can raise, in the order of their
/// architectural cause codes (see [`Exception::cause`]).
#[derive(Debug, Clone, Copy, PartialEq, Eq, Structural)]
pub enum Exception {
    InstructionAddressMisaligned,
    InstructionAccessFault,
    IllegalInstruction,
    Breakpoint,
    LoadAddressMisaligned,
    LoadAccessFault,
    StoreAddressMisaligned,
    StoreAccessFault,
    EnvironmentCallFromUMode,
    EnvironmentCallFromSMode,
    EnvironmentCallFromMMode,
    InstructionPageFault,
    LoadPageFault,
    StorePageFault,
}

impl Exception {
    /// The architectural cause code of the trap.
    pub open spec fn cause(self) -> u64 {
        match self {
            Exception::InstructionAddressMisaligned => 0,
            Exception::InstructionAccessFault => 1,
            Exception::IllegalInstruction => 2,
            Exception::Breakpoint => 3,
            Exception::LoadAddressMisaligned => 4,
            Exception::LoadAccessFault => 5,
            Exception::StoreAddressMisaligned => 6,
            Exception::StoreAccessFault => 7,
            Exception::EnvironmentCallFromUMode => 8,
            Exception::EnvironmentCallFromSMode => 9,
            Exception::EnvironmentCallFromMMode => 11,
            Exception::InstructionPageFault => 12,
            Exception::LoadPageFault => 13,
            Exception::StorePageFault => 15,
        }
    }

    /// Returns the architectural cause code of the trap.
    pub fn code(self) -> (c: u64)
        ensures
            c == self.cause(),
            c < 16,
    {
        match self {
            Exception::InstructionAddressMisaligned => 0,
            Exception::InstructionAccessFault => 1,
            Exception::IllegalInstruction => 2,
            Exception::Breakpoint => 3,
            Exception::LoadAddressMisaligned => 4,
            Exception::LoadAccessFault => 5,
            Exception::StoreAddressMisaligned => 6,
            Exception::StoreAccessFault => 7,
            Exception::EnvironmentCallFromUMode => 8,
            Exception::EnvironmentCallFromSMode => 9,
            Exception::EnvironmentCallFromMMode => 11,
            Exception::InstructionPageFault => 12,
            Exception::LoadPageFault => 13,
            Exception::StorePageFault => 15,
        }
    }
}

/// The control and status registers that can be addressed by number.
#[derive(Debug, Clone, Copy, PartialEq, Eq, Structural)]
pub enum CSRAddress {
    // Floating-point control
    FFlags,
    FRM,
    FCSR,
    // Machine information
    MVendorID,
    MArchID,
    MImpID,
    MHartID,
    // Machine trap setup
    MStatus,
    MIsa,
    MEDeleg,
    MIDeleg,
    MIE,
    MTVec,
    MCounterEn,
    // Machine trap handling
    MScratch,
    MEPC,
    MCause,
    MTVal,
    MIP,
    // Supervisor trap setup
    SStatus,
    SIE,
    STVec,
    SCounterEn,
    // Supervisor trap handling
    SScratch,
    SEPC,
    SCause,
    STVal,
    SIP,
    // Supervisor memory management
    SATP,
    // Supervisor debug
    SContext,
    // Supervisor state enable
    SStateEn0,
    SStateEn1,
    SStateEn2,
    SStateEn3,
    // Machine counters
    MCycle,
    MInstRet,
}

impl CSRAddress {
    /// The 12-bit number by which the CSR instructions name the register.
    pub open spec fn number(self) -> u16 {
        match self {
            CSRAddress::FFlags => 0x001,
            CSRAddress::FRM => 0x002,
            CSRAddress::FCSR => 0x003,
            CSRAddress::MVendorID => 0xF11,
            CSRAddress::MArchID => 0xF12,
            CSRAddress::MImpID => 0xF13,
            CSRAddress::MHartID => 0xF14,
            CSRAddress::MStatus => 0x300,
            CSRAddress::MIsa => 0x301,
            CSRAddress::MEDeleg => 0x302,
            CSRAddress::MIDeleg => 0x303,
            CSRAddress::MIE => 0x304,
            CSRAddress::MTVec => 0x305,
            CSRAddress::MCounterEn => 0x306,
            CSRAddress::MScratch => 0x340,
            CSRAddress::MEPC => 0x341,
            CSRAddress::MCause => 0x342,
            CSRAddress::MTVal => 0x343,
            CSRAddress::MIP => 0x344,
            CSRAddress::SStatus => 0x100,
            CSRAddress::SIE => 0x104,
            CSRAddress::STVec => 0x105,
            CSRAddress::SCounterEn => 0x106,
            CSRAddress::SScratch => 0x140,
            CSRAddress::SEPC => 0x141,
            CSRAddress::SCause => 0x142,
            CSRAddress::STVal => 0x143,
            CSRAddress::SIP => 0x144,
            CSRAddress::SATP => 0x180,
            CSRAddress::SContext => 0x5A8,
            CSRAddress::SStateEn0 => 0x10D,
            CSRAddress::SStateEn1 => 0x10E,
            CSRAddress::SStateEn2 => 0x10F,
            CSRAddress::SStateEn3 => 0x110,
            CSRAddress::MCycle => 0xB00,
            CSRAddress::MInstRet => 0xB02,
        }
    }

    /// The register that a number names, if it names one.
    pub open spec fn lookup(number: u16) -> Option<CSRAddress> {
        if number == 0x001 {
            Some(CSRAddress::FFlags)
        } else if number == 0x002 {
            Some(CSRAddress::FRM)
        } else if number == 0x003 {
            Some(CSRAddress::FCSR)
        } else if number == 0xF11 {
            Some(CSRAddress::MVendorID)
        } else if number == 0xF12 {
            Some(CSRAddress::MArchID)
        } else if number == 0xF13 {
            Some(CSRAddress::MImpID)
        } else if number == 0xF14 {
            Some(CSRAddress::MHartID)
        } else if number == 0x300 {
            Some(CSRAddress::MStatus)
        } else if number == 0x301 {
            Some(CSRAddress::MIsa)
        } else if number == 0x302 {
            Some(CSRAddress::MEDeleg)
        } else if number == 0x303 {
            Some(CSRAddress::MIDeleg)
        } else if number == 0x304 {
            Some(CSRAddress::MIE)
        } else if number == 0x305 {
            Some(CSRAddress::MTVec)
        } else if number == 0x306 {
            Some(CSRAddress::MCounterEn)
        } else if number == 0x340 {
            Some(CSRAddress::MScratch)
        } else if number == 0x341 {
            Some(CSRAddress::MEPC)
        } else if number == 0x342 {
            Some(CSRAddress::MCause)
        } else if number == 0x343 {
            Some(CSRAddress::MTVal)
        } else if number == 0x344 {
            Some(CSRAddress::MIP)
        } else if number == 0x100 {
            Some(CSRAddress::SStatus)
        } else if number == 0x104 {
            Some(CSRAddress::SIE)
        } else if number == 0x105 {
            Some(CSRAddress::STVec)
        } else if number == 0x106 {
            Some(CSRAddress::SCounterEn)
        } else if number == 0x140 {
            Some(CSRAddress::SScratch)
        } else if number == 0x141 {
            Some(CSRAddress::SEPC)
        } else if number == 0x142 {
            Some(CSRAddress::SCause)
        } else if number == 0x143 {
            Some(CSRAddress::STVal)
        } else if number == 0x144 {
            Some(CSRAddress::SIP)
        } else if number == 0x180 {
            Some(CSRAddress::SATP)
        } else if number == 0x5A8 {
            Some(CSRAddress::SContext)
        } else if number == 0x10D {
            Some(CSRAddress::SStateEn0)
        } else if number == 0x10E {
            Some(CSRAddress::SStateEn1)
        } else if number == 0x10F {
            Some(CSRAddress::SStateEn2)
        } else if number == 0x110 {
            Some(CSRAddress::SStateEn3)
        } else if number == 0xB00 {
            Some(CSRAddress::MCycle)
        } else if number == 0xB02 {
            Some(CSRAddress::MInstRet)
        } else {
            None
        }
    }

    /// Returns the register's 12-bit number.
    pub fn address(self) -> (a: u16)
        ensures
            a == self.number(),
            CSRAddress::lookup(a) == Some(self),
    {
        match self {
            CSRAddress::FFlags => 0x001,
            CSRAddress::FRM => 0x002,
            CSRAddress::FCSR => 0x003,
            CSRAddress::MVendorID => 0xF11,
            CSRAddress::MArchID => 0xF12,
            CSRAddress::MImpID => 0xF13,
            CSRAddress::MHartID => 0xF14,
            CSRAddress::MStatus => 0x300,
            CSRAddress::MIsa => 0x301,
            CSRAddress::MEDeleg => 0x302,
            CSRAddress::MIDeleg => 0x303,
            CSRAddress::MIE => 0x304,
            CSRAddress::MTVec => 0x305,
            CSRAddress::MCounterEn => 0x306,
            CSRAddress::MScratch => 0x340,
            CSRAddress::MEPC => 0x341,
            CSRAddress::MCause => 0x342,
            CSRAddress::MTVal => 0x343,
            CSRAddress::MIP => 0x344,
            CSRAddress::SStatus => 0x100,
            CSRAddress::SIE => 0x104,
            CSRAddress::STVec => 0x105,
            CSRAddress::SCounterEn => 0x106,
            CSRAddress::SScratch => 0x140,
            CSRAddress::SEPC => 0x141,
            CSRAddress::SCause => 0x142,
            CSRAddress::STVal => 0x143,
            CSRAddress::SIP => 0x144,
            CSRAddress::SATP => 0x180,
            CSRAddress::SContext => 0x5A8,
            CSRAddress::SStateEn0 => 0x10D,
            CSRAddress::SStateEn1 => 0x10E,
            CSRAddress::SStateEn2 => 0x10F,
            CSRAddress::SStateEn3 => 0x110,
            CSRAddress::MCycle => 0xB00,
            CSRAddress::MInstRet => 0xB02,
        }
    }

    /// Returns the register that `number` names, or `None` where it names
    /// no implemented register.
    pub fn from_address(number: u16) -> (r: Option<CSRAddress>)
        ensures
            r == CSRAddress::lookup(number),
            r matches Some(reg) ==> reg.number() == number,
    {
        match number {
            0x001 => Some(CSRAddress::FFlags),
            0x002 => Some(CSRAddress::FRM),
            0x003 => Some(CSRAddress::FCSR),
            0xF11 => Some(CSRAddress::MVendorID),
            0xF12 => Some(CSRAddress::MArchID),
            0xF13 => Some(CSRAddress::MImpID),
            0xF14 => Some(CSRAddress::MHartID),
            0x300 => Some(CSRAddress::MStatus),
            0x301 => Some(CSRAddress::MIsa),
            0x302 => Some(CSRAddress::MEDeleg),
            0x303 => Some(CSRAddress::MIDeleg),
            0x304 => Some(CSRAddress::MIE),
            0x305 => Some(CSRAddress::MTVec),
            0x306 => Some(CSRAddress::MCounterEn),
            0x340 => Some(CSRAddress::MScratch),
            0x341 => Some(CSRAddress::MEPC),
            0x342 => Some(CSRAddress::MCause),
            0x343 => Some(CSRAddress::MTVal),
            0x344 => Some(CSRAddress::MIP),
            0x100 => Some(CSRAddress::SStatus),
            0x104 => Some(CSRAddress::SIE),
            0x105 => Some(CSRAddress::STVec),
            0x106 => Some(CSRAddress::SCounterEn),
            0x140 => Some(CSRAddress::SScratch),
            0x141 => Some(CSRAddress::SEPC),
            0x142 => Some(CSRAddress::SCause),
            0x143 => Some(CSRAddress::STVal),
            0x144 => Some(CSRAddress::SIP),
            0x180 => Some(CSRAddress::SATP),
            0x5A8 => Some(CSRAddress::SContext),
            0x10D => Some(CSRAddress::SStateEn0),
            0x10E => Some(CSRAddress::SStateEn1),
            0x10F => Some(CSRAddress::SStateEn2),
            0x110 => Some(CSRAddress::SStateEn3),
            0xB00 => Some(CSRAddress::MCycle),
            0xB02 => Some(CSRAddress::MInstRet),
            _ => None,
        }
    }
}

/// The privilege level a hart runs at.
#[derive(Debug, Clone, Copy, PartialEq, Eq, Structural)]
pub enum PrivilegeMode {
    User,
    Supervisor,
    Machine,
}

impl PrivilegeMode {
    /// The architectural encoding of the level; a higher number is more
    /// privileged.
    pub open spec fn rank(self) -> u8 {
        match self {
            PrivilegeMode::User => 0,
            PrivilegeMode::Supervisor => 1,
            PrivilegeMode::Machine => 3,
        }
    }

    /// Returns the architectural encoding of the level.
    pub fn level(self) -> (l: u8)
        ensures
            l == self.rank(),
    {
        match self {
            PrivilegeMode::User => 0,
            PrivilegeMode::Supervisor => 1,
            PrivilegeMode::Machine => 3,
        }
    }
}

/// `status` with the summary bit `SD` set exactly when `FS` or `XS` reads
/// as dirty (both bits one).
pub open spec fn with_summary(status: u64) -> u64 {
    if (status & MSTATUS_FS) == MSTATUS_FS || (status & MSTATUS_XS) == MSTATUS_XS {
        status | MSTATUS_SD
    } else {
        status & !MSTATUS_SD
    }
}

/// The mathematical value of a CSR file: every stored register and the
/// current privilege level. `sstatus`, `sie` and `sip` have no storage of
/// their own; they are computed from `mstatus`, `mie` and `mip`.
pub struct CsrState {
    pub mvendorid: u64,
    pub marchid: u64,
    pub mimpid: u64,
    pub mhartid: u64,
    pub mstatus: u64,
    pub misa: u64,
    pub medeleg: u64,
    pub mideleg: u64,
    pub mie: u64,
    pub mtvec: u64,
    pub mcounteren: u64,
    pub mscratch: u64,
    pub mepc: u64,
    pub mcause: u64,
    pub mtval: u64,
    pub mip: u64,
    pub mcycle: u64,
    pub minstret: u64,
    pub stvec: u64,
    pub scounteren: u64,
    pub sscratch: u64,
    pub sepc: u64,
    pub scause: u64,
    pub stval: u64,
    pub satp: u64,
    pub scontext: u64,
    pub sstateen0: u64,
    pub sstateen1: u64,
    pub sstateen2: u64,
    pub sstateen3: u64,
    pub fflags: u64,
    pub frm: u64,
    pub fcsr: u64,
    pub cycle: u64,
    pub time: u64,
    pub instret: u64,
    pub privilege: PrivilegeMode,
}

impl CsrState {
    /// The state of a CSR file after reset: every register zero, the hart
    /// in machine mode.
    pub open spec fn reset() -> CsrState {
        CsrState {
            mvendorid: 0,
            marchid: 0,
            mimpid: 0,
            mhartid: 0,
            mstatus: 0,
            misa: 0,
            medeleg: 0,
            mideleg: 0,
            mie: 0,
            mtvec: 0,
            mcounteren: 0,
            mscratch: 0,
            mepc: 0,
            mcause: 0,
            mtval: 0,
            mip: 0,
            mcycle: 0,
            minstret: 0,
            stvec: 0,
            scounteren: 0,
            sscratch: 0,
            sepc: 0,
            scause: 0,
            stval: 0,
            satp: 0,
            scontext: 0,
            sstateen0: 0,
            sstateen1: 0,
            sstateen2: 0,
            sstateen3: 0,
            fflags: 0,
            frm: 0,
            fcsr: 0,
            cycle: 0,
            time: 0,
            instret: 0,
            privilege: PrivilegeMode::Machine,
        }
    }

    /// The invariant of a CSR file: the exception program counters have
    /// bit 0 clear, and `mstatus.SD` summarises `FS` and `XS`.
    pub open spec fn wf(self) -> bool {
        &&& self.mepc & 1 == 0
        &&& self.sepc & 1 == 0
        &&& self.mstatus == with_summary(self.mstatus)
    }

    /// The lowest privilege that may access the register numbered
    /// `number`: bits 11:10 select user, supervisor, machine, machine.
    pub open spec fn required_privilege(number: u16) -> PrivilegeMode {
        let field = (number / 0x400) % 4;
        if field == 0 {
            PrivilegeMode::User
        } else if field == 1 {
            PrivilegeMode::Supervisor
        } else {
            PrivilegeMode::Machine
        }
    }

    /// Whether `number` lies in the read-only quarter of the CSR space
    /// (bits 11:10 both one).
    pub open spec fn read_only(number: u16) -> bool {
        (number / 0x400) % 4 == 3
    }

    /// Whether the current privilege suffices for the register numbered
    /// `number`, or the check is overridden.
    pub open spec fn permits(self, number: u16, override_privs: bool) -> bool {
        override_privs || self.privilege.rank() >= Self::required_privilege(number).rank()
    }

    /// Whether `number` names one of the three user counters.
    pub open spec fn is_user_counter(number: u16) -> bool {
        number == 0xC00 || number == 0xC01 || number == 0xC02
    }

    /// Whether the counter-enable registers let the current privilege read
    /// the counter numbered `number`: user mode needs the bit in both
    /// `mcounteren` and `scounteren`, supervisor mode in `mcounteren`.
    pub open spec fn counter_accessible(self, number: u16) -> bool {
        let bit = 1u64 << (number & 0x1F);
        if self.privilege == PrivilegeMode::User && Self::is_user_counter(number) {
            (self.mcounteren & bit) != 0 && (self.scounteren & bit) != 0
        } else if self.privilege == PrivilegeMode::Supervisor && Self::is_user_counter(number) {
            (self.mcounteren & bit) != 0
        } else {
            true
        }
    }

    /// Whether the current privilege may access the register numbered
    /// `number`, counting the counter-enable registers.
    pub open spec fn accessible(self, number: u16) -> bool {
        &&& self.privilege.rank() >= Self::required_privilege(number).rank()
        &&& (0xC00 <= number <= 0xC1F ==> self.counter_accessible(number))
    }

    /// What a read of `sstatus` shows.
    pub open spec fn sstatus(self) -> u64 {
        self.mstatus & SSTATUS_VISIBLE
    }

    /// What a read of `sie` shows: the delegated bits of `mie`.
    pub open spec fn sie(self) -> u64 {
        self.mie & self.mideleg
    }

    /// What a read of `sip` shows: the delegated bits of `mip`.
    pub open spec fn sip(self) -> u64 {
        self.mip & self.mideleg
    }

    /// The value that a read of `reg` returns.
    pub open spec fn value_of(self, reg: CSRAddress) -> u64 {
        match reg {
            CSRAddress::FFlags => self.fflags,
            CSRAddress::FRM => self.frm,
            CSRAddress::FCSR => self.fcsr,
            CSRAddress::MVendorID => self.mvendorid,
            CSRAddress::MArchID => self.marchid,
            CSRAddress::MImpID => self.mimpid,
            CSRAddress::MHartID => self.mhartid,
            CSRAddress::MStatus => with_summary(self.mstatus),
            CSRAddress::MIsa => self.misa,
            CSRAddress::MEDeleg => self.medeleg,
            CSRAddress::MIDeleg => self.mideleg,
            CSRAddress::MIE => self.mie,
            CSRAddress::MTVec => self.mtvec,
            CSRAddress::MCounterEn => self.mcounteren,
            CSRAddress::MScratch => self.mscratch,
            CSRAddress::MEPC => self.mepc,
            CSRAddress::MCause => self.mcause,
            CSRAddress::MTVal => self.mtval,
            CSRAddress::MIP => self.mip,
            CSRAddress::SStatus => self.sstatus(),
            CSRAddress::SIE => self.sie(),
            CSRAddress::STVec => self.stvec,
            CSRAddress::SCounterEn => self.scounteren,
            CSRAddress::SScratch => self.sscratch,
            CSRAddress::SEPC => self.sepc,
            CSRAddress::SCause => self.scause,
            CSRAddress::STVal => self.stval,
            CSRAddress::SIP => self.sip(),
            CSRAddress::SATP => self.satp,
            CSRAddress::SContext => self.scontext,
            CSRAddress::SStateEn0 => self.sstateen0,
            CSRAddress::SStateEn1 => self.sstateen1,
            CSRAddress::SStateEn2 => self.sstateen2,
            CSRAddress::SStateEn3 => self.sstateen3,
            CSRAddress::MCycle => self.mcycle,
            CSRAddress::MInstRet => self.minstret,
        }
    }

    /// The result of reading the register numbered `number`: an illegal
    /// instruction where the privilege is too low (unless overridden) or
    /// the number names no register, else the register's value.
    pub open spec fn read(self, number: u16, override_privs: bool) -> Result<u64, Exception> {
        if !self.permits(number, override_privs) {
            Err(Exception::IllegalInstruction)
        } else {
            match CSRAddress::lookup(number) {
                Some(reg) => Ok(self.value_of(reg)),
                None => Err(Exception::IllegalInstruction),
            }
        }
    }

    /// Whether a write to `reg` is refused whatever the value: the machine
    /// information registers and `misa` are read-only, and `satp` is
    /// closed to supervisor mode while `mstatus.TVM` is set.
    pub open spec fn refuses_write(self, reg: CSRAddress) -> bool {
        match reg {
            CSRAddress::MVendorID | CSRAddress::MArchID | CSRAddress::MImpID | CSRAddress::MHartID
            | CSRAddress::MIsa => true,
            CSRAddress::SATP => self.privilege == PrivilegeMode::Supervisor && (self.mstatus
                & MSTATUS_TVM) != 0,
            _ => false,
        }
    }

    /// The state after `value` is stored to `reg`, each register with its
    /// own writable bits; registers that refuse writes are left alone.
    pub open spec fn store(self, reg: CSRAddress, value: u64) -> CsrState {
        match reg {
            CSRAddress::FFlags => CsrState { fflags: value, ..self },
            CSRAddress::FRM => CsrState { frm: value, ..self },
            CSRAddress::FCSR => CsrState { fcsr: value, ..self },
            CSRAddress::MVendorID => self,
            CSRAddress::MArchID => self,
            CSRAddress::MImpID => self,
            CSRAddress::MHartID => self,
            CSRAddress::MStatus => CsrState {
                mstatus: with_summary(value & MSTATUS_WRITABLE),
                ..self
            },
            CSRAddress::MIsa => self,
            CSRAddress::MEDeleg => CsrState { medeleg: value, ..self },
            CSRAddress::MIDeleg => CsrState { mideleg: value, ..self },
            CSRAddress::MIE => CsrState { mie: value & INTERRUPT_BITS, ..self },
            CSRAddress::MTVec => CsrState { mtvec: value, ..self },
            CSRAddress::MCounterEn => CsrState { mcounteren: value, ..self },
            CSRAddress::MScratch => CsrState { mscratch: value, ..self },
            CSRAddress::MEPC => CsrState { mepc: value & !1u64, ..self },
            CSRAddress::MCause => CsrState { mcause: value, ..self },
            CSRAddress::MTVal => CsrState { mtval: value, ..self },
            CSRAddress::MIP => CsrState { mip: value & INTERRUPT_BITS, ..self },
            CSRAddress::SStatus => CsrState {
                mstatus: with_summary(
                    (self.mstatus & !SSTATUS_WRITABLE) | (value & SSTATUS_WRITABLE),
                ),
                ..self
            },
            CSRAddress::SIE => CsrState {
                mie: (self.mie & !self.mideleg) | (value & self.mideleg),
                ..self
            },
            CSRAddress::STVec => CsrState { stvec: value, ..self },
            CSRAddress::SCounterEn => CsrState { scounteren: value, ..self },
            CSRAddress::SScratch => CsrState { sscratch: value, ..self },
            CSRAddress::SEPC => CsrState { sepc: value & !1u64, ..self },
            CSRAddress::SCause => CsrState { scause: value, ..self },
            CSRAddress::STVal => CsrState { stval: value, ..self },
            CSRAddress::SIP => CsrState {
                mip: (self.mip & !(SIP_WRITABLE & self.mideleg)) | (value & (SIP_WRITABLE
                    & self.mideleg)),
                ..self
            },
            CSRAddress::SATP => CsrState { satp: value, ..self },
            CSRAddress::SContext => CsrState { scontext: value, ..self },
            CSRAddress::SStateEn0 => CsrState { sstateen0: value, ..self },
            CSRAddress::SStateEn1 => CsrState { sstateen1: value, ..self },
            CSRAddress::SStateEn2 => CsrState { sstateen2: value, ..self },
            CSRAddress::SStateEn3 => CsrState { sstateen3: value, ..self },
            CSRAddress::MCycle => CsrState { mcycle: value, ..self },
            CSRAddress::MInstRet => CsrState { minstret: value, ..self },
        }
    }

    /// Whether a write of the register numbered `number` succeeds: the
    /// privilege suffices (or is overridden), the number is outside the
    /// read-only quarter, it names a register, and that register does not
    /// refuse the write.
    pub open spec fn write_allowed(self, number: u16, override_privs: bool) -> bool {
        &&& self.permits(number, override_privs)
        &&& !Self::read_only(number)
        &&& CSRAddress::lookup(number) matches Some(reg)
        &&& !self.refuses_write(reg)
    }

    /// The state after a write of `value` to the register numbered
    /// `number`: changed as `store` says where the write is allowed, and
    /// unchanged where it is not.
    pub open spec fn write(self, number: u16, value: u64, override_privs: bool) -> CsrState {
        if self.write_allowed(number, override_privs) {
            self.store(CSRAddress::lookup(number).unwrap(), value)
        } else {
            self
        }
    }

    /// What a read of `reg` returns right after `value` was written to it
    /// in state `self`: `value` cut down to the register's writable bits,
    /// with the bits that the write cannot reach taken from `self`.
    pub open spec fn written_value(self, reg: CSRAddress, value: u64) -> u64 {
        match reg {
            CSRAddress::MStatus => with_summary(value & MSTATUS_WRITABLE),
            CSRAddress::MIE | CSRAddress::MIP => value & INTERRUPT_BITS,
            CSRAddress::MEPC | CSRAddress::SEPC => value & !1u64,
            CSRAddress::SStatus => with_summary(
                (self.mstatus & !SSTATUS_WRITABLE) | (value & SSTATUS_WRITABLE),
            ) & SSTATUS_VISIBLE,
            CSRAddress::SIE => value & self.mideleg,
            CSRAddress::SIP => (self.mip & self.mideleg & !SIP_WRITABLE) | (value & self.mideleg
                & SIP_WRITABLE),
            _ => value,
        }
    }
}

/// The control and status registers of one hart, with its current
/// privilege level.
pub struct CSRFile {
    // Machine information
    mvendorid: u64,
    marchid: u64,
    mimpid: u64,
    mhartid: u64,
    // Machine trap setup
    mstatus: u64,
    misa: u64,
    medeleg: u64,
    mideleg: u64,
    mie: u64,
    mtvec: u64,
    mcounteren: u64,
    // Machine trap handling
    mscratch: u64,
    mepc: u64,
    mcause: u64,
    mtval: u64,
    mip: u64,
    // Machine counters
    mcycle: u64,
    minstret: u64,
    // Supervisor trap setup
    stvec: u64,
    scounteren: u64,
    // Supervisor trap handling
    sscratch: u64,
    sepc: u64,
    scause: u64,
    stval: u64,
    // Supervisor memory management: the root page table
    satp: u64,
    // Supervisor debug
    scontext: u64,
    // Supervisor state enable
    sstateen0: u64,
    sstateen1: u64,
    sstateen2: u64,
    sstateen3: u64,
    // Floating-point control
    fflags: u64,
    frm: u64,
    fcsr: u64,
    // User counters
    cycle: u64,
    time: u64,
    instret: u64,
    current_privilege: PrivilegeMode,
}

impl View for CSRFile {
    type V = CsrState;

    closed spec fn view(&self) -> CsrState {
        CsrState {
            mvendorid: self.mvendorid,
            marchid: self.marchid,
            mimpid: self.mimpid,
            mhartid: self.mhartid,
            mstatus: self.mstatus,
            misa: self.misa,
            medeleg: self.medeleg,
            mideleg: self.mideleg,
            mie: self.mie,
            mtvec: self.mtvec,
            mcounteren: self.mcounteren,
            mscratch: self.mscratch,
            mepc: self.mepc,
            mcause: self.mcause,
            mtval: self.mtval,
            mip: self.mip,
            mcycle: self.mcycle,
            minstret: self.minstret,
            stvec: self.stvec,
            scounteren: self.scounteren,
            sscratch: self.sscratch,
            sepc: self.sepc,
            scause: self.scause,
            stval: self.stval,
            satp: self.satp,
            scontext: self.scontext,
            sstateen0: self.sstateen0,
            sstateen1: self.sstateen1,
            sstateen2: self.sstateen2,
            sstateen3: self.sstateen3,
            fflags: self.fflags,
            frm: self.frm,
            fcsr: self.fcsr,
            cycle: self.cycle,
            time: self.time,
            instret: self.instret,
            privilege: self.current_privilege,
        }
    }
}

/// Bit-level facts about the status masks that the CSR file relies on.
proof fn lemma_status_bits(status: u64, value: u64)
    by (bit_vector)
    ensures
        ((value & 0x7EAu64 & !0x8000_0000_0000_0000u64) | (((value & 0x1800u64) >> 11u64) << 11u64)
            | (((value & 0x6000u64) >> 13u64) << 13u64) | (((value & 0x1_8000u64) >> 15u64)
            << 15u64)) == value & 0x1_FFEAu64,
        (value & 0x1800u64) >> 11u64 <= 3,
        (0x2u64 | 0x20u64 | 0x40u64 | 0x100u64 | 0x200u64 | 0x6000u64 | 0x1_8000u64
            | 0x8000_0000_0000_0000u64) == 0x8000_0000_0001_E362u64,
        (0x2u64 | 0x20u64 | 0x40u64 | 0x100u64 | 0x200u64 | 0x6000u64) == 0x6362u64,
        (0x1u64 | 0x2u64) == 0x3u64,
        ((status & 0x6000u64) >> 13u64 == 3) == ((status & 0x6000u64) == 0x6000u64),
        ((status & 0x1_8000u64) >> 15u64 == 3) == ((status & 0x1_8000u64) == 0x1_8000u64),
        ((status & !0x8000_0000_0000_0000u64) & 0x6000u64) == (status & 0x6000u64),
        ((status & !0x8000_0000_0000_0000u64) & 0x1_8000u64) == (status & 0x1_8000u64),
        ((status | 0x8000_0000_0000_0000u64) & 0x6000u64) == (status & 0x6000u64),
        ((status | 0x8000_0000_0000_0000u64) & 0x1_8000u64) == (status & 0x1_8000u64),
        ((status & !0x8000_0000_0000_0000u64) | 0x8000_0000_0000_0000u64) == (status
            | 0x8000_0000_0000_0000u64),
        ((status & !0x8000_0000_0000_0000u64) & !0x8000_0000_0000_0000u64) == (status
            & !0x8000_0000_0000_0000u64),
        ((status | 0x8000_0000_0000_0000u64) | 0x8000_0000_0000_0000u64) == (status
            | 0x8000_0000_0000_0000u64),
        ((status & !0x8000_0000_0000_0000u64) | 0u64) == (status & !0x8000_0000_0000_0000u64),
        (value & !1u64) & 1 == 0,
        0u64 & 1 == 0,
        (0u64 & 0x6000u64) == 0,
        (0u64 & 0x1_8000u64) == 0,
        (0u64 & !0x8000_0000_0000_0000u64) == 0,
{
}

/// The summary bit is a function of `FS` and `XS` alone, so summarising
/// twice changes nothing.
pub proof fn lemma_summary_idempotent(status: u64)
    ensures
        with_summary(with_summary(status)) == with_summary(status),
        with_summary(0) == 0,
{
    lemma_status_bits(status, 0);
}

/// Bit-level facts about the delegated views of `mie` and `mip`.
proof fn lemma_delegated_bits(stored: u64, value: u64, delegated: u64)
    by (bit_vector)
    ensures
        (((stored & !delegated) | (value & delegated)) & delegated) == (value & delegated),
        (((stored & !(0x3u64 & delegated)) | (value & (0x3u64 & delegated))) & delegated) == ((
        stored & delegated & !0x3u64) | (value & delegated & 0x3u64)),
{
}

/// Reading a register right after a successful write of `value` to it
/// returns `value` cut down to the register's writable bits: all of it for
/// a plain register, bit 0 cleared for `mepc` and `sepc`, the implemented
/// bits for `mstatus`, `mie` and `mip`, and for `sstatus`, `sie` and `sip`
/// the supervisor's share, over what `mstatus`, `mie` and `mip` held.
pub proof fn lemma_read_after_write(state: CsrState, number: u16, value: u64, override_privs: bool)
    requires
        state.write_allowed(number, override_privs),
    ensures
        CSRAddress::lookup(number) matches Some(reg) && state.write(
            number,
            value,
            override_privs,
        ).read(number, override_privs) == Ok::<u64, Exception>(state.written_value(reg, value)),
{
    let reg = CSRAddress::lookup(number).unwrap();
    lemma_summary_idempotent(value & MSTATUS_WRITABLE);
    lemma_delegated_bits(state.mie, value, state.mideleg);
    lemma_delegated_bits(state.mip, value, state.mideleg);
}

/// A write keeps the invariant of the CSR file, whether it is allowed or
/// refused.
pub proof fn lemma_write_keeps_wf(state: CsrState, number: u16, value: u64, override_privs: bool)
    requires
        state.wf(),
    ensures
        state.write(number, value, override_privs).wf(),
{
    lemma_status_bits(state.mstatus, value);
    lemma_summary_idempotent(value & MSTATUS_WRITABLE);
    lemma_summary_idempotent((state.mstatus & !SSTATUS_WRITABLE) | (value & SSTATUS_WRITABLE));
}

impl CSRFile {
    /// The invariant of the CSR file; see [`CsrState::wf`].
    pub open spec fn wf(&self) -> bool {
        self@.wf()
    }

    /// Creates the CSR file of a hart after reset.
    pub fn new() -> (csrs: Self)
        ensures
            csrs@ == CsrState::reset(),
            csrs.wf(),
    {
        proof {
            lemma_status_bits(0, 0);
        }
        Self {
            mvendorid: 0,
            marchid: 0,
            mimpid: 0,
            mhartid: 0,
            mstatus: 0,
            misa: 0,
            medeleg: 0,
            mideleg: 0,
            mie: 0,
            mtvec: 0,
            mcounteren: 0,
            mscratch: 0,
            mepc: 0,
            mcause: 0,
            mtval: 0,
            mip: 0,
            mcycle: 0,
            minstret: 0,
            stvec: 0,
            scounteren: 0,
            sscratch: 0,
            sepc: 0,
            scause: 0,
            stval: 0,
            satp: 0,
            scontext: 0,
            sstateen0: 0,
            sstateen1: 0,
            sstateen2: 0,
            sstateen3: 0,
            fflags: 0,
            frm: 0,
            fcsr: 0,
            cycle: 0,
            time: 0,
            instret: 0,
            current_privilege: PrivilegeMode::Machine,
        }
    }

    /// Returns the privilege level the hart runs at.
    pub fn get_current_privilege(&self) -> (p: PrivilegeMode)
        ensures
            p == self@.privilege,
    {
        self.current_privilege
    }

    /// Moves the hart to `privilege`; no register changes.
    pub fn change_privilege(&mut self, privilege: PrivilegeMode)
        ensures
            final(self)@ == (CsrState { privilege, ..old(self)@ }),
            old(self).wf() ==> final(self).wf(),
    {
        self.current_privilege = privilege;
    }

    /// Returns the lowest privilege that may access the register numbered
    /// `csr_addr`.
    pub fn get_required_privilege_for_csr(&self, csr_addr: u16) -> (p: PrivilegeMode)
        ensures
            p == CsrState::required_privilege(csr_addr),
    {
        let field = (csr_addr / 0x400) % 4;
        if field == 0 {
            PrivilegeMode::User
        } else if field == 1 {
            PrivilegeMode::Supervisor
        } else {
            PrivilegeMode::Machine
        }
    }

    /// Returns whether `csr_addr` lies in the read-only quarter of the CSR
    /// space.
    pub fn is_csr_read_only(&self, csr_addr: u16) -> (r: bool)
        ensures
            r == CsrState::read_only(csr_addr),
    {
        (csr_addr / 0x400) % 4 == 3
    }

    /// Returns whether the counter-enable registers let the current
    /// privilege read the counter numbered `csr_addr`.
    pub fn is_counter_accessible(&self, csr_addr: u16) -> (r: bool)
        ensures
            r == self@.counter_accessible(csr_addr),
    {
        let is_counter = csr_addr == 0xC00 || csr_addr == 0xC01 || csr_addr == 0xC02;
        let index = csr_addr & 0x1F;
        assert(index < 32) by (bit_vector)
            requires
                index == csr_addr & 0x1Fu16,
        ;
        let counter_bit = 1u64 << index;
        if self.current_privilege == PrivilegeMode::User {
            if is_counter {
                return (self.mcounteren & counter_bit) != 0 && (self.scounteren & counter_bit)
                    != 0;
            }
        } else if self.current_privilege == PrivilegeMode::Supervisor {
            if is_counter {
                return (self.mcounteren & counter_bit) != 0;
            }
        }
        true
    }

    /// Returns whether the current privilege may access the register
    /// numbered `csr_addr`.
    pub fn is_csr_accessible(&self, csr_addr: u16) -> (r: bool)
        ensures
            r == self@.accessible(csr_addr),
    {
        let required_privilege = self.get_required_privilege_for_csr(csr_addr);
        if self.current_privilege.level() < required_privilege.level() {
            return false;
        }
        if csr_addr >= 0xC00 && csr_addr <= 0xC1F {
            return self.is_counter_accessible(csr_addr);
        }
        true
    }

    /// Reads the register numbered `csr_addr`. With `override_privs` the
    /// privilege check is skipped, as trap delivery needs.
    pub fn read_csr(&self, csr_addr: u16, override_privs: bool) -> (r: Result<u64, Exception>)
        ensures
            r == self@.read(csr_addr, override_privs),
    {
        let required_privilege = self.get_required_privilege_for_csr(csr_addr);
        if self.current_privilege.level() < required_privilege.level() && !override_privs {
            return Err(Exception::IllegalInstruction);
        }
        match CSRAddress::from_address(csr_addr) {
            Some(CSRAddress::FFlags) => Ok(self.fflags),
            Some(CSRAddress::FRM) => Ok(self.frm),
            Some(CSRAddress::FCSR) => Ok(self.fcsr),
            Some(CSRAddress::MVendorID) => Ok(self.mvendorid),
            Some(CSRAddress::MArchID) => Ok(self.marchid),
            Some(CSRAddress::MImpID) => Ok(self.mimpid),
            Some(CSRAddress::MHartID) => Ok(self.mhartid),
            Some(CSRAddress::MStatus) => Ok(self.read_mstatus()),
            Some(CSRAddress::MIsa) => Ok(self.misa),
            Some(CSRAddress::MEDeleg) => Ok(self.medeleg),
            Some(CSRAddress::MIDeleg) => Ok(self.mideleg),
            Some(CSRAddress::MIE) => Ok(self.mie),
            Some(CSRAddress::MTVec) => Ok(self.mtvec),
            Some(CSRAddress::MCounterEn) => Ok(self.mcounteren),
            Some(CSRAddress::MScratch) => Ok(self.mscratch),
            Some(CSRAddress::MEPC) => Ok(self.mepc),
            Some(CSRAddress::MCause) => Ok(self.mcause),
            Some(CSRAddress::MTVal) => Ok(self.mtval),
            Some(CSRAddress::MIP) => Ok(self.mip),
            Some(CSRAddress::MCycle) => Ok(self.mcycle),
            Some(CSRAddress::MInstRet) => Ok(self.minstret),
            Some(CSRAddress::SStatus) => Ok(self.read_sstatus()),
            Some(CSRAddress::SIE) => Ok(self.read_sie()),
            Some(CSRAddress::STVec) => Ok(self.stvec),
            Some(CSRAddress::SCounterEn) => Ok(self.scounteren),
            Some(CSRAddress::SScratch) => Ok(self.sscratch),
            Some(CSRAddress::SEPC) => Ok(self.sepc),
            Some(CSRAddress::SCause) => Ok(self.scause),
            Some(CSRAddress::STVal) => Ok(self.stval),
            Some(CSRAddress::SIP) => Ok(self.read_sip()),
            Some(CSRAddress::SATP) => Ok(self.satp),
            Some(CSRAddress::SContext) => Ok(self.scontext),
            Some(CSRAddress::SStateEn0) => Ok(self.sstateen0),
            Some(CSRAddress::SStateEn1) => Ok(self.sstateen1),
            Some(CSRAddress::SStateEn2) => Ok(self.sstateen2),
            Some(CSRAddress::SStateEn3) => Ok(self.sstateen3),
            None => Err(Exception::IllegalInstruction),
        }
    }

    /// Writes `value` to the register numbered `csr_addr`. The write is an
    /// illegal instruction, and changes nothing, where the privilege is
    /// too low (unless `override_privs`), the register is read-only or
    /// unknown, or it is `satp` under `mstatus.TVM` in supervisor mode.
    pub fn write_csr(&mut self, csr_addr: u16, value: u64, override_privs: bool) -> (r: Result<
        (),
        Exception,
    >)
        requires
            old(self).wf(),
        ensures
            final(self).wf(),
            final(self)@ == old(self)@.write(csr_addr, value, override_privs),
            old(self)@.write_allowed(csr_addr, override_privs) ==> r == Ok::<(), Exception>(()),
            !old(self)@.write_allowed(csr_addr, override_privs) ==> r == Err::<(), Exception>(
                Exception::IllegalInstruction,
            ),
    {
        let required_privilege = self.get_required_privilege_for_csr(csr_addr);
        if self.current_privilege.level() < required_privilege.level() && !override_privs {
            return Err(Exception::IllegalInstruction);
        }
        if self.is_csr_read_only(csr_addr) {
            return Err(Exception::IllegalInstruction);
        }
        proof {
            lemma_status_bits(self.mstatus, value);
        }
        match CSRAddress::from_address(csr_addr) {
            Some(CSRAddress::FFlags) => {
                self.fflags = value;
                Ok(())
            },
            Some(CSRAddress::FRM) => {
                self.frm = value;
                Ok(())
            },
            Some(CSRAddress::FCSR) => {
                self.fcsr = value;
                Ok(())
            },
            Some(CSRAddress::MVendorID) | Some(CSRAddress::MArchID) | Some(CSRAddress::MImpID)
            | Some(CSRAddress::MHartID) => Err(Exception::IllegalInstruction),
            Some(CSRAddress::MStatus) => {
                self.write_mstatus(value);
                Ok(())
            },
            Some(CSRAddress::MIsa) => Err(Exception::IllegalInstruction),
            Some(CSRAddress::MEDeleg) => {
                self.medeleg = value;
                Ok(())
            },
            Some(CSRAddress::MIDeleg) => {
                self.mideleg = value;
                Ok(())
            },
            Some(CSRAddress::MIE) => {
                self.write_mie(value);
                Ok(())
            },
            Some(CSRAddress::MTVec) => {
                self.mtvec = value;
                Ok(())
            },
            Some(CSRAddress::MCounterEn) => {
                self.mcounteren = value;
                Ok(())
            },
            Some(CSRAddress::MScratch) => {
                self.mscratch = value;
                Ok(())
            },
            Some(CSRAddress::MEPC) => {
                self.mepc = value & !1u64;
                Ok(())
            },
            Some(CSRAddress::MCause) => {
                self.mcause = value;
                Ok(())
            },
            Some(CSRAddress::MTVal) => {
                self.mtval = value;
                Ok(())
            },
            Some(CSRAddress::MIP) => {
                self.write_mip(value);
                Ok(())
            },
            Some(CSRAddress::MCycle) => {
                self.mcycle = value;
                Ok(())
            },
            Some(CSRAddress::MInstRet) => {
                self.minstret = value;
                Ok(())
            },
            Some(CSRAddress::SStatus) => {
                self.write_sstatus(value);
                Ok(())
            },
            Some(CSRAddress::SIE) => {
                self.write_sie(value);
                Ok(())
            },
            Some(CSRAddress::STVec) => {
                self.stvec = value;
                Ok(())
            },
            Some(CSRAddress::SCounterEn) => {
                self.scounteren = value;
                Ok(())
            },
            Some(CSRAddress::SScratch) => {
                self.sscratch = value;
                Ok(())
            },
            Some(CSRAddress::SEPC) => {
                self.sepc = value & !1u64;
                Ok(())
            },
            Some(CSRAddress::SCause) => {
                self.scause = value;
                Ok(())
            },
            Some(CSRAddress::STVal) => {
                self.stval = value;
                Ok(())
            },
            Some(CSRAddress::SIP) => {
                self.write_sip(value);
                Ok(())
            },
            Some(CSRAddress::SATP) => {
                if self.current_privilege == PrivilegeMode::Supervisor {
                    if (self.mstatus & MSTATUS_TVM) != 0 {
                        return Err(Exception::IllegalInstruction);
                    }
                }
                self.satp = value;
                Ok(())
            },
            Some(CSRAddress::SContext) => {
                self.scontext = value;
                Ok(())
            },
            Some(CSRAddress::SStateEn0) => {
                self.sstateen0 = value;
                Ok(())
            },
            Some(CSRAddress::SStateEn1) => {
                self.sstateen1 = value;
                Ok(())
            },
            Some(CSRAddress::SStateEn2) => {
                self.sstateen2 = value;
                Ok(())
            },
            Some(CSRAddress::SStateEn3) => {
                self.sstateen3 = value;
                Ok(())
            },
            None => Err(Exception::IllegalInstruction),
        }
    }

    /// Returns the supervisor's view of `mstatus`.
    pub fn read_sstatus(&self) -> (v: u64)
        ensures
            v == self@.sstatus(),
    {
        proof {
            lemma_status_bits(self.mstatus, 0);
        }
        let mask = MSTATUS_SIE | MSTATUS_SPIE | MSTATUS_UBE | MSTATUS_SPP | MSTATUS_SBE
            | MSTATUS_FS | MSTATUS_XS | MSTATUS_SD;
        self.mstatus & mask
    }

    /// Replaces the supervisor-writable bits of `mstatus` by those of
    /// `value`; `XS` is kept and `SD` recomputed.
    pub fn write_sstatus(&mut self, value: u64)
        requires
            old(self).wf(),
        ensures
            final(self).wf(),
            final(self)@ == old(self)@.store(CSRAddress::SStatus, value),
    {
        proof {
            lemma_status_bits(self.mstatus, 0);
        }
        let mask = MSTATUS_SIE | MSTATUS_SPIE | MSTATUS_UBE | MSTATUS_SPP | MSTATUS_SBE
            | MSTATUS_FS;
        let cleared = self.mstatus & !mask;
        self.mstatus = cleared | (value & mask);
        self.update_sd_bit();
    }

    /// Returns the supervisor's view of `mie`.
    pub fn read_sie(&self) -> (v: u64)
        ensures
            v == self@.sie(),
    {
        self.mie & self.mideleg
    }

    /// Replaces the delegated bits of `mie` by those of `value`.
    pub fn write_sie(&mut self, value: u64)
        requires
            old(self).wf(),
        ensures
            final(self).wf(),
            final(self)@ == old(self)@.store(CSRAddress::SIE, value),
    {
        let mask = self.mideleg;
        let cleared = self.mie & !mask;
        self.mie = cleared | (value & mask);
    }

    /// Returns the supervisor's view of `mip`.
    pub fn read_sip(&self) -> (v: u64)
        ensures
            v == self@.sip(),
    {
        self.mip & self.mideleg
    }

    /// Replaces the delegated software-interrupt bits of `mip` by those
    /// of `value`.
    pub fn write_sip(&mut self, value: u64)
        requires
            old(self).wf(),
        ensures
            final(self).wf(),
            final(self)@ == old(self)@.store(CSRAddress::SIP, value),
    {
        proof {
            lemma_status_bits(self.mstatus, 0);
        }
        let writable_mask = 0x1u64 | 0x2u64;
        let delegated_mask = self.mideleg;
        let effective_mask = writable_mask & delegated_mask;
        let cleared = self.mip & !effective_mask;
        self.mip = cleared | (value & effective_mask);
    }

    /// Recomputes `mstatus.SD` from `FS` and `XS`.
    pub fn update_sd_bit(&mut self)
        ensures
            final(self)@ == (CsrState { mstatus: with_summary(old(self)@.mstatus), ..old(self)@ }),
            old(self)@.mepc & 1 == 0 && old(self)@.sepc & 1 == 0 ==> final(self).wf(),
    {
        proof {
            lemma_status_bits(self.mstatus, 0);
        }
        let fs = (self.mstatus & MSTATUS_FS) >> 13;
        let xs = (self.mstatus & MSTATUS_XS) >> 15;
        self.mstatus = self.mstatus & !MSTATUS_SD;
        if fs == 3 || xs == 3 {
            self.mstatus = self.mstatus | MSTATUS_SD;
        }
        proof {
            lemma_summary_idempotent(old(self).mstatus);
        }
    }

    /// Returns `mstatus` with the summary bit computed from `FS` and `XS`.
    pub fn read_mstatus(&self) -> (v: u64)
        ensures
            v == with_summary(self@.mstatus),
    {
        proof {
            lemma_status_bits(self.mstatus, 0);
        }
        let fs = (self.mstatus & MSTATUS_FS) >> 13;
        let xs = (self.mstatus & MSTATUS_XS) >> 15;
        let sd_bit = if fs == 3 || xs == 3 {
            MSTATUS_SD
        } else {
            0
        };
        (self.mstatus & !MSTATUS_SD) | sd_bit
    }

    /// Stores the writable bits of `value` to `mstatus` and recomputes
    /// `SD`.
    pub fn write_mstatus(&mut self, value: u64)
        requires
            old(self).wf(),
        ensures
            final(self).wf(),
            final(self)@ == old(self)@.store(CSRAddress::MStatus, value),
    {
        proof {
            lemma_status_bits(self.mstatus, value);
        }
        let flags = value & 0x7EAu64 & !MSTATUS_SD;
        let mpp = (value & MSTATUS_MPP) >> 11;
        let valid_mpp = if mpp <= 3 {
            mpp
        } else {
            3
        };
        let fs = (value & MSTATUS_FS) >> 13;
        let xs = (value & MSTATUS_XS) >> 15;
        self.mstatus = flags | (valid_mpp << 11) | (fs << 13) | (xs << 15);
        self.update_sd_bit();
    }

    /// Stores the implemented interrupt-enable bits of `value` to `mie`.
    pub fn write_mie(&mut self, value: u64)
        requires
            old(self).wf(),
        ensures
            final(self).wf(),
            final(self)@ == old(self)@.store(CSRAddress::MIE, value),
    {
        self.mie = value & INTERRUPT_BITS;
    }

    /// Stores the implemented interrupt-pending bits of `value` to `mip`.
    pub fn write_mip(&mut self, value: u64)
        requires
            old(self).wf(),
        ensures
            final(self).wf(),
            final(self)@ == old(self)@.store(CSRAddress::MIP, value),
    {
        self.mip = value & INTERRUPT_BITS;
    }
}

} // verus!

verus! {

/// The mathematical value of a hart: the integer registers, the
/// floating-point registers as bit patterns, the program counter, the
/// CSR file and the hart's number.
pub struct CpuState {
    pub x: Seq<u64>,
    pub f: Seq<u64>,
    pub pc: u64,
    pub csrs: CsrState,
    pub hart_id: u64,
}

impl CpuState {
    /// The invariant of a hart: thirty-two registers of each kind, `x0`
    /// zero, and a well-formed CSR file.
    pub open spec fn wf(self) -> bool {
        &&& self.x.len() == 32
        &&& self.f.len() == 32
        &&& self.x[0] == 0
        &&& self.csrs.wf()
    }

    /// The hart after reset, about to fetch from `pc`.
    pub open spec fn reset(pc: u64) -> CpuState {
        CpuState {
            x: Seq::new(32, |i: int| 0u64),
            f: Seq::new(32, |i: int| 0u64),
            pc,
            csrs: CsrState::reset(),
            hart_id: 0,
        }
    }

    /// The hart after `value` is written to integer register `rd`: a
    /// write to `x0`, or to a register that does not exist, is dropped.
    pub open spec fn set_x(self, rd: int, value: u64) -> CpuState {
        if 0 < rd < 32 {
            CpuState { x: self.x.update(rd, value), ..self }
        } else {
            self
        }
    }

    /// The hart after `value` is written to floating-point register `rd`;
    /// a write to a register that does not exist is dropped.
    pub open spec fn set_f(self, rd: int, value: u64) -> CpuState {
        if 0 <= rd < 32 {
            CpuState { f: self.f.update(rd, value), ..self }
        } else {
            self
        }
    }

    /// The hart with the program counter at `pc`.
    pub open spec fn set_pc(self, pc: u64) -> CpuState {
        CpuState { pc, ..self }
    }

    /// The hart with its CSR file replaced by `csrs`.
    pub open spec fn set_csrs(self, csrs: CsrState) -> CpuState {
        CpuState { csrs, ..self }
    }
}

/// No write to an integer register changes `x0`, and a write that names
/// `x0` changes nothing at all.
pub proof fn lemma_x0_is_zero(state: CpuState, rd: int, value: u64)
    requires
        state.wf(),
    ensures
        state.set_x(rd, value).wf(),
        state.set_x(rd, value).x[0] == 0,
        state.set_x(0, value) == state,
{
}

/// The architectural state of one hart.
pub struct RV64CPUContext {
    pub(crate) x: [u64; 32],
    pub(crate) f: [u64; 32],
    pub(crate) pc: u64,
    pub(crate) csrs: CSRFile,
    pub(crate) hart_id: u64,
}

impl View for RV64CPUContext {
    type V = CpuState;

    closed spec fn view(&self) -> CpuState {
        CpuState { x: self.x@, f: self.f@, pc: self.pc, csrs: self.csrs@, hart_id: self.hart_id }
    }
}

impl RV64CPUContext {
    /// The invariant of the context; see [`CpuState::wf`].
    pub open spec fn wf(&self) -> bool {
        self@.wf()
    }

    /// Creates the context of hart 0 after reset, about to fetch from
    /// `pc`.
    pub fn new(pc: u64) -> (context: Self)
        ensures
            context.wf(),
            context@ == CpuState::reset(pc),
    {
        let context = Self { x: [0;32], f: [0;32], pc, csrs: CSRFile::new(), hart_id: 0 };
        assert(context.x@ =~= Seq::new(32, |i: int| 0u64));
        assert(context.f@ =~= Seq::new(32, |i: int| 0u64));
        context
    }

    /// Writes `value` to integer register `register`. A write to `x0`,
    /// or to a register that does not exist, is dropped.
    pub fn set_register(&mut self, register: usize, value: u64)
        requires
            old(self).wf(),
        ensures
            final(self).wf(),
            final(self)@ == old(self)@.set_x(register as int, value),
    {
        if register == 0 {
            return ;
        }
        if register > 31 {
            return ;
        }
        self.x[register] = value;
    }

    /// Returns integer register `register`.
    pub fn read_register(&self, register: usize) -> (value: u64)
        requires
            register < 32,
        ensures
            value == self@.x[register as int],
    {
        self.x[register]
    }

    /// Writes the bit pattern `value` to floating-point register
    /// `register`; a write to a register that does not exist is dropped.
    pub fn set_register_float(&mut self, register: usize, value: u64)
        requires
            old(self).wf(),
        ensures
            final(self).wf(),
            final(self)@ == old(self)@.set_f(register as int, value),
    {
        if register > 31 {
            return ;
        }
        self.f[register] = value;
    }

    /// Returns the bit pattern in floating-point register `register`.
    pub fn read_register_float(&self, register: usize) -> (value: u64)
        requires
            register < 32,
        ensures
            value == self@.f[register as int],
    {
        self.f[register]
    }

    /// Returns the program counter.
    pub fn pc(&self) -> (pc: u64)
        ensures
            pc == self@.pc,
    {
        self.pc
    }

    /// Moves the program counter to `pc`.
    pub fn set_pc(&mut self, pc: u64)
        ensures
            final(self)@ == old(self)@.set_pc(pc),
            old(self).wf() ==> final(self).wf(),
    {
        self.pc = pc;
    }

    /// Returns the hart's number.
    pub fn hart_id(&self) -> (id: u64)
        ensures
            id == self@.hart_id,
    {
        self.hart_id
    }

    /// Gives the hart the number `hart_id`.
    pub fn set_hart_id(&mut self, hart_id: u64)
        ensures
            final(self)@ == (CpuState { hart_id, ..old(self)@ }),
            old(self).wf() ==> final(self).wf(),
    {
        self.hart_id = hart_id;
    }

    /// Returns the CSR file, to read.
    pub fn csrs(&self) -> (csrs: &CSRFile)
        ensures
            csrs@ == self@.csrs,
    {
        &self.csrs
    }

    /// Reads the CSR numbered `csr_addr`; see [`CSRFile::read_csr`].
    pub fn read_csr(&self, csr_addr: u16, override_privs: bool) -> (r: Result<u64, Exception>)
        ensures
            r == self@.csrs.read(csr_addr, override_privs),
    {
        self.csrs.read_csr(csr_addr, override_privs)
    }

    /// Writes the CSR numbered `csr_addr`; see [`CSRFile::write_csr`].
    pub fn write_csr(&mut self, csr_addr: u16, value: u64, override_privs: bool) -> (r: Result<
        (),
        Exception,
    >)
        requires
            old(self).wf(),
        ensures
            final(self).wf(),
            final(self)@ == old(self)@.set_csrs(
                old(self)@.csrs.write(csr_addr, value, override_privs),
            ),
            old(self)@.csrs.write_allowed(csr_addr, override_privs) ==> r == Ok::<(), Exception>(
                (),
            ),
            !old(self)@.csrs.write_allowed(csr_addr, override_privs) ==> r == Err::<
                (),
                Exception,
            >(Exception::IllegalInstruction),
    {
        self.csrs.write_csr(csr_addr, value, override_privs)
    }

    /// Moves the hart to `privilege`.
    pub fn change_privilege(&mut self, privilege: PrivilegeMode)
        ensures
            final(self)@ == old(self)@.set_csrs(CsrState { privilege, ..old(self)@.csrs }),
            old(self).wf() ==> final(self).wf(),
    {
        self.csrs.change_privilege(privilege);
    }
}

} // verus!
