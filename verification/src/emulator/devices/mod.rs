use vstd::prelude::*;

pub mod simple_fb;

verus! {

/// A device of the platform that is brought up before the harts run and
/// taken down after them.
pub trait RV64Device {
    /// Brings the device up.
    fn init(&self);

    /// Takes the device down.
    fn destroy(&self);
}

} // verus!
