use vstd::prelude::*;

verus! {

/// Width of an integer register in bits.
pub const XLEN: usize = 64;

/// Width of an instruction word in bits.
pub const ILEN: usize = 32;

/// Number of general-purpose registers.
pub const GPR_COUNT: usize = 32;

/// `satp` mode field: addresses are used as they are.
pub const SATP_MODE_BARE: u64 = 0;

/// `satp` mode field: two-level 32-bit paging.
pub const SATP_MODE_SV32: u64 = 1;

/// `satp` mode field: three-level 39-bit paging.
pub const SATP_MODE_SV39: u64 = 8;

/// `satp` mode field: four-level 48-bit paging.
pub const SATP_MODE_SV48: u64 = 9;

} // verus!
