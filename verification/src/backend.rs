//! What the probe core asks of its surroundings: the callbacks of probe
//! consumers and the architecture backend.
//!
//! Nothing is assumed of what a callback or the backend does. Each trait
//! carries a relation that only names the outcomes of a call, so that the
//! contracts of the core can say which calls it makes, with which arguments
//! and in which order. The relations hold of everything unless an
//! implementation says more.

use vstd::prelude::*;
use crate::frame::TrapFrame;
use crate::memory::CodeMemory;
use crate::patch::TRAP_WIDTH;

verus! {

/// A probe callback. It receives the trap frame of the trap being served and
/// the opaque `user_data` that was registered with the probe.
///
/// The core threads `user_data` through untouched and ignores the returned
/// value, uniformly for pre, post, entry and exit handlers. A handler may
/// change the frame in any way.
pub trait Handler: Send + Sync {
    /// Whether a call with the frame `before` and `user_data` may leave the
    /// frame `after`.
    open spec fn leaves(&self, before: TrapFrame, user_data: usize, after: TrapFrame) -> bool {
        true
    }

    fn call(&self, frame: &mut TrapFrame, user_data: usize) -> (verdict: isize)
        ensures
            self.leaves(*old(frame), user_data, *final(frame)),
    ;
}

/// The architecture backend.
///
/// `single_step` is to carry out, on `frame`, exactly the effect of the
/// instruction that stands at `addr` in `code`; the core calls it while the
/// original instruction of a probe is back in place. `sync_icache` is to
/// make the bytes written to `[addr, addr + len)` visible to the instruction
/// fetch of every CPU before it returns.
pub trait Backend: Send + Sync {
    /// Whether stepping the instruction at `addr`, in the window `code` that
    /// starts at `base`, on the frame `before` may leave the frame `after`.
    open spec fn steps(
        &self,
        before: TrapFrame,
        base: usize,
        code: Seq<u8>,
        addr: usize,
        after: TrapFrame,
    ) -> bool {
        true
    }

    /// Whether the backend was asked to synchronize `[addr, addr + len)`.
    open spec fn synchronized(&self, addr: usize, len: usize) -> bool {
        true
    }

    fn single_step(&self, frame: &mut TrapFrame, code: &CodeMemory, addr: usize)
        ensures
            self.steps(*old(frame), code.base(), code@, addr, *final(frame)),
    ;

    fn sync_icache(&self, addr: usize, len: usize)
        ensures
            self.synchronized(addr, len),
    ;
}

/// A backend for straight-line code on a machine whose instruction fetch is
/// coherent with its stores: the whole effect of a stepped instruction on
/// the frame is that the program counter moves on to the next instruction,
/// and there is nothing to synchronize.
///
/// It fits instructions that neither branch nor write the link register or
/// the stack pointer.
pub struct StepOver;

/// The address of the instruction that follows the one at `addr`.
pub open spec fn next_insn(addr: usize) -> usize {
    usize::wrapping_add(addr, TRAP_WIDTH)
}

impl Backend for StepOver {
    open spec fn steps(
        &self,
        before: TrapFrame,
        base: usize,
        code: Seq<u8>,
        addr: usize,
        after: TrapFrame,
    ) -> bool {
        after == (TrapFrame { pc: next_insn(addr), ..before })
    }

    fn single_step(&self, frame: &mut TrapFrame, code: &CodeMemory, addr: usize) {
        frame.pc = addr.wrapping_add(TRAP_WIDTH);
    }

    fn sync_icache(&self, addr: usize, len: usize) {
    }
}

} // verus!
