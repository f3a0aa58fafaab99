//! The mathematical model of the probe registries: the state they hold and
//! what each operation does to it.

use vstd::prelude::*;
use std::sync::Arc;
use crate::backend::{Backend, Handler};
use crate::frame::TrapFrame;
use crate::memory::window_covers;
use crate::patch::{aligned, insn_at, trap_insn, with_insn, TRAP_WIDTH};

verus! {

/// A shared probe callback.
pub struct HandlerRef {
    pub handler: Arc<dyn Handler>,
}

impl HandlerRef {
    /// Whether a call of the callback with the frame `before` and
    /// `user_data` may leave the frame `after`.
    pub open spec fn leaves(self, before: TrapFrame, user_data: usize, after: TrapFrame) -> bool {
        self.handler.leaves(before, user_data, after)
    }
}

/// As `leaves`, for a callback that may be absent: without one the frame
/// stays as it is.
pub open spec fn leaves_if_any(
    handler: Option<HandlerRef>,
    before: TrapFrame,
    user_data: usize,
    after: TrapFrame,
) -> bool {
    match handler {
        Some(h) => h.leaves(before, user_data, after),
        None => after == before,
    }
}

/// Why a registration or unregistration failed, or why a trampoline trap
/// could not be served.
#[derive(Clone, Copy, Debug, PartialEq, Eq, Structural)]
pub enum ProbeError {
    /// The address is already probed.
    Conflict,
    /// The address is not aligned as an instruction address must be.
    Unaligned,
    /// The instruction at the address does not lie inside the code memory.
    OutOfRange,
    /// No such probe is registered at the address.
    NotFound,
    /// A trampoline trap found no open instance for its caller: the owning
    /// probe was unregistered while the call was in flight.
    Orphaned,
}

/// Whether a trap was consumed by the probe core.
#[derive(Clone, Copy, Debug, PartialEq, Eq, Structural)]
pub enum TrapOutcome {
    Handled,
    NotHandled,
}

/// What runs before the original instruction of a breakpoint probe.
pub enum PreHandler {
    /// The callback of a probe consumer.
    User(HandlerRef),
    /// The entry logic of the return probe anchored at the same address.
    ReturnEntry,
}

/// What a consumer hands over to register a breakpoint probe.
pub struct KProbeArgs {
    pub pre_handler: HandlerRef,
    pub post_handler: Option<HandlerRef>,
    /// Passed to the handlers as it is; the core never looks at it.
    pub user_data: usize,
}

/// What a consumer hands over to register a return probe.
pub struct KRetProbeArgs {
    pub exit_handler: HandlerRef,
    pub entry_handler: Option<HandlerRef>,
    /// The number of completed calls after which the probe retires.
    pub limit: Option<usize>,
    pub user_data: usize,
}

/// A breakpoint probe as the model sees it.
pub struct KProbeModel {
    pub saved_bytes: Seq<u8>,
    pub pre_handler: PreHandler,
    pub post_handler: Option<HandlerRef>,
    pub user_data: usize,
}

/// A return probe, anchored at the entry address of its function.
pub struct KRetProbe {
    pub address: usize,
    pub entry_handler: Option<HandlerRef>,
    pub exit_handler: HandlerRef,
    pub limit: Option<usize>,
    pub hit_count: usize,
    pub user_data: usize,
}

/// One call under observation by a return probe.
#[derive(Clone, Copy, Debug, PartialEq, Eq, Structural)]
pub struct KRetProbeInstance {
    /// The address of the owning return probe.
    pub probe: usize,
    /// Where the call really returns to.
    pub real_return_address: usize,
    /// The stack pointer at function entry; by the calling convention the
    /// stack pointer has the same value again when the function returns.
    pub call_identity: usize,
}

/// The state of the probe core.
#[verifier::ext_equal]
pub struct State {
    pub base: usize,
    pub code: Seq<u8>,
    pub trampoline: usize,
    pub kprobes: Map<usize, KProbeModel>,
    pub kretprobes: Map<usize, KRetProbe>,
    pub instances: Seq<KRetProbeInstance>,
}

/// The hit count after one more completed call.
pub open spec fn bumped(hit_count: usize) -> usize {
    if hit_count < usize::MAX {
        (hit_count + 1) as usize
    } else {
        hit_count
    }
}

/// The index of the most recent instance whose call identity is `identity`,
/// or -1 where there is none.
pub open spec fn last_match(instances: Seq<KRetProbeInstance>, identity: usize) -> int
    decreases instances.len(),
{
    if instances.len() == 0 {
        -1
    } else if instances.last().call_identity == identity {
        instances.len() - 1
    } else {
        last_match(instances.drop_last(), identity)
    }
}

/// Holds of the instances that do not belong to the return probe at `addr`.
pub open spec fn not_of(addr: usize) -> spec_fn(KRetProbeInstance) -> bool {
    |i: KRetProbeInstance| i.probe != addr
}

impl KProbeArgs {
    /// Arguments with `handler` as the pre-handler, no post-handler and no
    /// user data.
    pub fn from(handler: HandlerRef) -> (args: Self)
        ensures
            args == (KProbeArgs { pre_handler: handler, post_handler: None, user_data: 0 }),
    {
        KProbeArgs { pre_handler: handler, post_handler: None, user_data: 0 }
    }
}

impl KRetProbeArgs {
    /// Arguments with `handler` as the exit handler, no entry handler, no
    /// limit and no user data.
    pub fn from(handler: HandlerRef) -> (args: Self)
        ensures
            args == (KRetProbeArgs {
                exit_handler: handler,
                entry_handler: None,
                limit: None,
                user_data: 0,
            }),
    {
        KRetProbeArgs { exit_handler: handler, entry_handler: None, limit: None, user_data: 0 }
    }
}

impl KRetProbe {
    /// The probe has completed as many calls as its limit allows.
    pub open spec fn exhausted(self) -> bool {
        self.limit matches Some(limit) && self.hit_count >= limit
    }

    /// Whether the probe has completed as many calls as its limit allows.
    pub fn is_exhausted(&self) -> (retired: bool)
        ensures
            retired == self.exhausted(),
    {
        match self.limit {
            Some(limit) => self.hit_count >= limit,
            None => false,
        }
    }

    /// The probe after one more completed call.
    pub fn completed(self) -> (probe: Self)
        ensures
            probe == (KRetProbe { hit_count: bumped(self.hit_count), ..self }),
    {
        let KRetProbe { address, entry_handler, exit_handler, limit, hit_count, user_data } = self;
        let hit_count = if hit_count < usize::MAX {
            hit_count + 1
        } else {
            hit_count
        };
        KRetProbe { address, entry_handler, exit_handler, limit, hit_count, user_data }
    }
}

impl State {
    /// Whether an instruction at `addr` lies inside the code memory.
    pub open spec fn covers(self, addr: usize) -> bool {
        window_covers(self.base, self.code.len(), addr, TRAP_WIDTH as nat)
    }

    /// The invariant of the probe core.
    pub open spec fn wf(self) -> bool {
        &&& forall|a: usize| #[trigger]
            self.kprobes.contains_key(a) ==> {
                &&& aligned(a)
                &&& self.covers(a)
                &&& insn_at(self.base, self.code, a) == trap_insn()
                &&& self.kprobes[a].saved_bytes.len() == TRAP_WIDTH
            }
        &&& forall|a: usize| #[trigger]
            self.kretprobes.contains_key(a) <==> self.kprobes.contains_key(a)
                && self.kprobes[a].pre_handler is ReturnEntry
        &&& forall|a: usize| #[trigger]
            self.kretprobes.contains_key(a) ==> self.kretprobes[a].address == a
        &&& forall|i: int|
            0 <= i < self.instances.len() ==> self.kretprobes.contains_key(
                #[trigger] self.instances[i].probe,
            )
    }

    /// The state before any probe is registered.
    pub open spec fn init(base: usize, code: Seq<u8>, trampoline: usize) -> State {
        State {
            base,
            code,
            trampoline,
            kprobes: Map::empty(),
            kretprobes: Map::empty(),
            instances: Seq::empty(),
        }
    }

    /// Why no probe can be registered at `addr`, if so.
    pub open spec fn register_refusal(self, addr: usize) -> Option<ProbeError> {
        if self.kprobes.contains_key(addr) {
            Some(ProbeError::Conflict)
        } else if !aligned(addr) {
            Some(ProbeError::Unaligned)
        } else if !self.covers(addr) {
            Some(ProbeError::OutOfRange)
        } else {
            None
        }
    }

    /// The state with the trap instruction at `addr` and the internal or
    /// user breakpoint probe `pre_handler`, `post_handler`, `user_data` there.
    pub open spec fn with_kprobe(
        self,
        addr: usize,
        pre_handler: PreHandler,
        post_handler: Option<HandlerRef>,
        user_data: usize,
    ) -> State {
        State {
            code: with_insn(self.base, self.code, addr, trap_insn()),
            kprobes: self.kprobes.insert(
                addr,
                KProbeModel {
                    saved_bytes: insn_at(self.base, self.code, addr),
                    pre_handler,
                    post_handler,
                    user_data,
                },
            ),
            ..self
        }
    }

    /// The state without the breakpoint probe at `addr`, its original
    /// instruction back in place.
    pub open spec fn without_kprobe(self, addr: usize) -> State {
        State {
            code: with_insn(self.base, self.code, addr, self.kprobes[addr].saved_bytes),
            kprobes: self.kprobes.remove(addr),
            ..self
        }
    }

    /// The state after a successful `register_kprobe(addr, args)`.
    pub open spec fn register_kprobe(self, addr: usize, args: KProbeArgs) -> State {
        self.with_kprobe(addr, PreHandler::User(args.pre_handler), args.post_handler, args.user_data)
    }

    /// Whether a consumer's breakpoint probe is registered at `addr`.
    pub open spec fn has_user_kprobe(self, addr: usize) -> bool {
        self.kprobes.contains_key(addr) && self.kprobes[addr].pre_handler is User
    }

    /// Why the breakpoint probe at `addr` cannot be unregistered, if so: there
    /// is none, or it is the internal probe of a return probe.
    pub open spec fn unregister_kprobe_refusal(self, addr: usize) -> Option<ProbeError> {
        if self.has_user_kprobe(addr) {
            None
        } else {
            Some(ProbeError::NotFound)
        }
    }

    /// Why the return probe at `addr` cannot be unregistered, if so.
    pub open spec fn unregister_kretprobe_refusal(self, addr: usize) -> Option<ProbeError> {
        if self.kretprobes.contains_key(addr) {
            None
        } else {
            Some(ProbeError::NotFound)
        }
    }

    /// The state after a successful `unregister_kprobe(addr)`.
    pub open spec fn unregister_kprobe(self, addr: usize) -> State {
        self.without_kprobe(addr)
    }

    /// The state after a successful `register_kretprobe(addr, args)`.
    pub open spec fn register_kretprobe(self, addr: usize, args: KRetProbeArgs) -> State {
        State {
            kretprobes: self.kretprobes.insert(
                addr,
                KRetProbe {
                    address: addr,
                    entry_handler: args.entry_handler,
                    exit_handler: args.exit_handler,
                    limit: args.limit,
                    hit_count: 0,
                    user_data: args.user_data,
                },
            ),
            ..self.with_kprobe(addr, PreHandler::ReturnEntry, None, args.user_data)
        }
    }

    /// The state after a successful `unregister_kretprobe(addr)`: the probe
    /// and its internal breakpoint probe are gone, and so are the open
    /// instances of the probe.
    pub open spec fn unregister_kretprobe(self, addr: usize) -> State {
        State {
            kretprobes: self.kretprobes.remove(addr),
            instances: self.instances.filter(not_of(addr)),
            ..self.without_kprobe(addr)
        }
    }

    /// The state after the entry logic of the return probe at `frame.pc` ran
    /// on `frame`: a retired probe records nothing, any other one a new
    /// instance with the return address and stack pointer of the call.
    pub open spec fn enter(self, frame: TrapFrame) -> State {
        if self.kretprobes[frame.pc].exhausted() {
            self
        } else {
            State {
                instances: self.instances.push(
                    KRetProbeInstance {
                        probe: frame.pc,
                        real_return_address: frame.ra,
                        call_identity: frame.sp,
                    },
                ),
                ..self
            }
        }
    }

    /// The state after the instance at `index` completed.
    pub open spec fn leave(self, index: int) -> State {
        let probe = self.kretprobes[self.instances[index].probe];
        State {
            kretprobes: self.kretprobes.insert(
                probe.address,
                KRetProbe { hit_count: bumped(probe.hit_count), ..probe },
            ),
            instances: self.instances.remove(index),
            ..self
        }
    }

    /// The state after the breakpoint probe at `frame.pc` was hit.
    pub open spec fn hit(self, frame: TrapFrame) -> State {
        if self.kprobes[frame.pc].pre_handler is ReturnEntry {
            self.enter(frame)
        } else {
            self
        }
    }

    /// What the entry logic of the return probe at `before.pc` makes of the
    /// frame: a retired probe leaves it alone; otherwise the return address
    /// is redirected to the trampoline and then the entry handler, if any,
    /// runs on the redirected frame.
    pub open spec fn entry_effect(self, before: TrapFrame, after: TrapFrame) -> bool {
        let probe = self.kretprobes[before.pc];
        if probe.exhausted() {
            after == before
        } else {
            leaves_if_any(
                probe.entry_handler,
                TrapFrame { ra: self.trampoline, ..before },
                probe.user_data,
                after,
            )
        }
    }

    /// What the pre-handler stage of the breakpoint probe at `before.pc`
    /// makes of the frame.
    pub open spec fn pre_effect(self, before: TrapFrame, after: TrapFrame) -> bool {
        let probe = self.kprobes[before.pc];
        match probe.pre_handler {
            PreHandler::User(handler) => handler.leaves(before, probe.user_data, after),
            PreHandler::ReturnEntry => self.entry_effect(before, after),
        }
    }

    /// What a hit of the breakpoint probe at `before.pc` makes of the frame:
    /// the pre-handler stage runs on the trapped frame; the backend steps the
    /// instruction at the trapped address, with the original instruction back
    /// in place there, on what that left; and the post-handler, if any, runs
    /// on what the step left.
    pub open spec fn hit_effect<B: Backend>(
        self,
        backend: B,
        before: TrapFrame,
        after: TrapFrame,
    ) -> bool {
        let probe = self.kprobes[before.pc];
        exists|entered: TrapFrame, stepped: TrapFrame|
            {
                &&& #[trigger] self.pre_effect(before, entered)
                &&& backend.steps(
                    entered,
                    self.base,
                    with_insn(self.base, self.code, before.pc, probe.saved_bytes),
                    before.pc,
                    stepped,
                )
                &&& #[trigger] leaves_if_any(probe.post_handler, stepped, probe.user_data, after)
            }
    }

    /// What the completion of the instance at `index` makes of the frame:
    /// the exit handler of its probe runs on the trapped frame, then the
    /// program counter is set to the real return address.
    pub open spec fn exit_effect(self, index: int, before: TrapFrame, after: TrapFrame) -> bool {
        let instance = self.instances[index];
        let probe = self.kretprobes[instance.probe];
        exists|seen: TrapFrame|
            {
                &&& #[trigger] probe.exit_handler.leaves(before, probe.user_data, seen)
                &&& after == (TrapFrame { pc: instance.real_return_address, ..seen })
            }
    }

    /// Whether a trap with frame `frame` belongs to the return path: it is at
    /// the trampoline and an open instance matches its call identity.
    pub open spec fn on_return_path(self, frame: TrapFrame) -> bool {
        frame.pc == self.trampoline && last_match(self.instances, frame.sp) >= 0
    }

    /// Whether a trap with frame `frame` is consumed.
    pub open spec fn verdict(self, frame: TrapFrame) -> TrapOutcome {
        if self.kprobes.contains_key(frame.pc) || self.on_return_path(frame) {
            TrapOutcome::Handled
        } else {
            TrapOutcome::NotHandled
        }
    }

    /// What serving one breakpoint trap does: `self` and `before` are the
    /// state and the frame when the trap arrives, `after_state` and `after`
    /// when it was served with `outcome`.
    ///
    /// The breakpoint registry is asked first, then the return path. A trap
    /// that neither takes is not handled and changes nothing.
    pub open spec fn serves<B: Backend>(
        self,
        backend: B,
        before: TrapFrame,
        after_state: State,
        after: TrapFrame,
        outcome: TrapOutcome,
    ) -> bool {
        if self.kprobes.contains_key(before.pc) {
            &&& outcome == TrapOutcome::Handled
            &&& after_state == self.hit(before)
            &&& self.hit_effect(backend, before, after)
        } else if self.on_return_path(before) {
            let index = last_match(self.instances, before.sp);
            &&& outcome == TrapOutcome::Handled
            &&& after_state == self.leave(index)
            &&& self.exit_effect(index, before, after)
        } else {
            &&& outcome == TrapOutcome::NotHandled
            &&& after_state == self
            &&& after == before
        }
    }
}

} // verus!
