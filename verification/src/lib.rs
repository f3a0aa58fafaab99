//! Dynamic kernel instrumentation: breakpoint probes (kprobes) and return
//! probes (kretprobes) over a patchable window of executable memory.
//!
//! A [`Probes`] value owns the code memory, the architecture backend, both
//! registries and the open return-probe instances; holding it exclusively is
//! the exclusion that serializes registration, unregistration and trap
//! dispatch. The functions of this module are the registration interface and
//! the trap entry point over such a value.
//!
//! * [`patch`] is the instruction patch engine over [`memory`].
//! * [`registry`] holds the registries and the trap dispatcher.
//! * [`model`] says what every operation does, over sequences and maps.
//! * [`laws`] proves what holds of the model in every state, [`wellformed`]
//!   that every operation keeps its invariant.
//! * [`backend`] is what a consumer and an architecture implement.

use vstd::prelude::*;

pub use crate::backend::{Backend, Handler, StepOver};
pub use crate::frame::TrapFrame;
pub use crate::memory::CodeMemory;
pub use crate::model::{
    HandlerRef, KProbeArgs, KRetProbe, KRetProbeArgs, KRetProbeInstance, ProbeError, TrapOutcome,
};
pub use crate::registry::Probes;

pub mod backend;
pub mod frame;
pub mod laws;
pub mod memory;
pub mod model;
pub mod patch;
pub mod registry;
pub mod wellformed;

verus! {

/// Registers a breakpoint probe at `addr`; `None` where the registration is
/// refused, and then nothing has changed.
pub fn register_kprobe<B: Backend>(probes: &mut Probes<B>, addr: usize, args: KProbeArgs) -> (done:
    Option<()>)
    requires
        old(probes).wf(),
    ensures
        final(probes).wf(),
        final(probes).backend() == old(probes).backend(),
        done is Some <==> old(probes)@.register_refusal(addr) is None,
        done is Some ==> final(probes)@ == old(probes)@.register_kprobe(addr, args),
        done is None ==> final(probes)@ == old(probes)@,
{
    match probes.register_kprobe(addr, args) {
        Ok(()) => Some(()),
        Err(_) => None,
    }
}

/// Unregisters the breakpoint probe at `addr`; `None` where no breakpoint
/// probe of a consumer is registered there.
pub fn unregister_kprobe<B: Backend>(probes: &mut Probes<B>, addr: usize) -> (done: Option<()>)
    requires
        old(probes).wf(),
    ensures
        final(probes).wf(),
        final(probes).backend() == old(probes).backend(),
        done is Some <==> old(probes)@.has_user_kprobe(addr),
        done is Some ==> final(probes)@ == old(probes)@.unregister_kprobe(addr),
        done is None ==> final(probes)@ == old(probes)@,
{
    match probes.unregister_kprobe(addr) {
        Ok(()) => Some(()),
        Err(_) => None,
    }
}

/// Registers a return probe at the function entry `addr`; `None` where the
/// registration is refused, and then nothing has changed.
pub fn register_kretprobe<B: Backend>(
    probes: &mut Probes<B>,
    addr: usize,
    args: KRetProbeArgs,
) -> (done: Option<()>)
    requires
        old(probes).wf(),
    ensures
        final(probes).wf(),
        final(probes).backend() == old(probes).backend(),
        done is Some <==> old(probes)@.register_refusal(addr) is None,
        done is Some ==> final(probes)@ == old(probes)@.register_kretprobe(addr, args),
        done is None ==> final(probes)@ == old(probes)@,
{
    match probes.register_kretprobe(addr, args) {
        Ok(()) => Some(()),
        Err(_) => None,
    }
}

/// Unregisters the return probe at `addr`; `None` where none is registered
/// there.
pub fn unregister_kretprobe<B: Backend>(probes: &mut Probes<B>, addr: usize) -> (done: Option<()>)
    requires
        old(probes).wf(),
    ensures
        final(probes).wf(),
        final(probes).backend() == old(probes).backend(),
        done is Some <==> old(probes)@.kretprobes.contains_key(addr),
        done is Some ==> final(probes)@ == old(probes)@.unregister_kretprobe(addr),
        done is None ==> final(probes)@ == old(probes)@,
{
    match probes.unregister_kretprobe(addr) {
        Ok(()) => Some(()),
        Err(_) => None,
    }
}

/// The trap entry point: serves the breakpoint trap captured in `tf` and
/// leaves `tf` ready for resumption.
pub fn kprobes_breakpoint_handler<B: Backend>(probes: &mut Probes<B>, tf: &mut TrapFrame)
    requires
        old(probes).wf(),
    ensures
        final(probes).wf(),
        final(probes).backend() == old(probes).backend(),
        old(probes)@.serves(
            old(probes).backend(),
            *old(tf),
            final(probes)@,
            *final(tf),
            old(probes)@.verdict(*old(tf)),
        ),
{
    let handled = probes.dispatch_kprobe(tf);
    match handled {
        TrapOutcome::Handled => {},
        TrapOutcome::NotHandled => {
            let _ = probes.dispatch_kretprobe(tf);
        },
    }
}

} // verus!
