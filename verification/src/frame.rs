//! The register snapshot that the trap entry code hands to the probe core.

use vstd::prelude::*;

verus! {

/// The part of a captured trap frame that the probe core reads and writes.
///
/// `pc` is the address of the trapped instruction, `ra` the link register
/// (where the current function will return to) and `sp` the stack pointer.
#[derive(Clone, Copy, Debug, PartialEq, Eq, Structural)]
pub struct TrapFrame {
    pub pc: usize,
    pub ra: usize,
    pub sp: usize,
}

impl TrapFrame {
    /// A frame trapped at `pc` with link register `ra` and stack pointer `sp`.
    pub fn new(pc: usize, ra: usize, sp: usize) -> (frame: Self)
        ensures
            frame == (TrapFrame { pc, ra, sp }),
    {
        TrapFrame { pc, ra, sp }
    }
}

} // verus!
