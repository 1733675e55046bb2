use vstd::prelude::*;

verus! {

/// The hardware variant being emulated. The four models share the register
/// layout and differ only in the value that register A holds at power-up.
#[derive(Clone, Copy)]
pub enum Term {
    /// The original handheld.
    GB,
    /// The pocket revision.
    GBP,
    /// The colour model.
    GBC,
    /// The console adapter.
    SGB,
}

} // verus!
