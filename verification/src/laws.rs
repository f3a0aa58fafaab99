//! What holds of the probe core in every state, proved over its model.

use vstd::prelude::*;
use crate::backend::Backend;
use crate::frame::TrapFrame;
use crate::wellformed::{
    lemma_filter_keeps_all, lemma_hit_wf, lemma_last_match, lemma_leave_wf,
    lemma_register_kprobe_wf, lemma_register_kretprobe_wf, lemma_unregister_kprobe_wf,
    lemma_unregister_kretprobe_wf,
};
use crate::model::{
    bumped, last_match, leaves_if_any, not_of, HandlerRef, KProbeArgs, KRetProbeArgs, PreHandler,
    ProbeError, State, TrapOutcome,
};
use crate::patch::{lemma_patch_round_trip, trap_insn, with_insn};

verus! {

/// The invariant holds before any probe is registered.
pub proof fn law_init_wf(base: usize, code: Seq<u8>, trampoline: usize)
    ensures
        State::init(base, code, trampoline).wf(),
{
}

/// Every successful registration and unregistration keeps the invariant: at
/// most one probe per address, the trap instruction at every probed address,
/// a saved instruction of exactly the trap's width, each return probe paired
/// with its internal breakpoint probe, and no instance without its probe.
pub proof fn law_registry_keeps_invariant(
    s: State,
    addr: usize,
    kargs: KProbeArgs,
    rargs: KRetProbeArgs,
)
    requires
        s.wf(),
    ensures
        s.register_refusal(addr) is None ==> s.register_kprobe(addr, kargs).wf(),
        s.register_refusal(addr) is None ==> s.register_kretprobe(addr, rargs).wf(),
        s.has_user_kprobe(addr) ==> s.unregister_kprobe(addr).wf(),
        s.kretprobes.contains_key(addr) ==> s.unregister_kretprobe(addr).wf(),
{
    if s.register_refusal(addr) is None {
        lemma_register_kprobe_wf(s, addr, kargs);
        lemma_register_kretprobe_wf(s, addr, rargs);
    }
    if s.has_user_kprobe(addr) {
        lemma_unregister_kprobe_wf(s, addr);
    }
    if s.kretprobes.contains_key(addr) {
        lemma_unregister_kretprobe_wf(s, addr);
    }
}

/// Serving a trap keeps the invariant.
pub proof fn law_dispatch_keeps_invariant<B: Backend>(
    s: State,
    backend: B,
    before: TrapFrame,
    t: State,
    after: TrapFrame,
    outcome: TrapOutcome,
)
    requires
        s.wf(),
        s.serves(backend, before, t, after, outcome),
    ensures
        t.wf(),
{
    if s.kprobes.contains_key(before.pc) {
        lemma_hit_wf(s, before);
    } else if s.on_return_path(before) {
        lemma_last_match(s.instances, before.sp);
        lemma_leave_wf(s, last_match(s.instances, before.sp));
    }
}

/// No double registration: once a breakpoint probe was registered at an
/// address, a second registration there is refused as a conflict.
pub proof fn law_no_double_registration(s: State, addr: usize, first: KProbeArgs)
    requires
        s.register_refusal(addr) is None,
    ensures
        s.register_kprobe(addr, first).register_refusal(addr) == Some(ProbeError::Conflict),
{
}

/// A return probe occupies its address too: while it is registered, neither
/// a breakpoint probe nor another return probe can be registered there.
pub proof fn law_return_probe_occupies_address(s: State, addr: usize, args: KRetProbeArgs)
    requires
        s.register_refusal(addr) is None,
    ensures
        s.register_kretprobe(addr, args).register_refusal(addr) == Some(ProbeError::Conflict),
        !s.register_kretprobe(addr, args).has_user_kprobe(addr),
{
}

/// Round trip: registering a breakpoint probe and unregistering it again
/// leaves the code, byte for byte, and the whole state as they were.
pub proof fn law_register_unregister_round_trip(s: State, addr: usize, args: KProbeArgs)
    requires
        s.wf(),
        s.register_refusal(addr) is None,
    ensures
        s.register_kprobe(addr, args).has_user_kprobe(addr),
        s.register_kprobe(addr, args).unregister_kprobe(addr).code == s.code,
        s.register_kprobe(addr, args).unregister_kprobe(addr) == s,
{
    let t = s.register_kprobe(addr, args);
    let u = t.unregister_kprobe(addr);
    lemma_patch_round_trip(s.base, s.code, addr, trap_insn());
    assert(u.kprobes =~= s.kprobes);
    assert(u =~= s);
}

/// The same round trip for a return probe that saw no call in between.
pub proof fn law_return_probe_round_trip(s: State, addr: usize, args: KRetProbeArgs)
    requires
        s.wf(),
        s.register_refusal(addr) is None,
    ensures
        s.register_kretprobe(addr, args).unregister_kretprobe(addr) == s,
{
    let t = s.register_kretprobe(addr, args);
    let u = t.unregister_kretprobe(addr);
    lemma_patch_round_trip(s.base, s.code, addr, trap_insn());
    assert(u.kprobes =~= s.kprobes);
    assert(u.kretprobes =~= s.kretprobes);
    let keep = not_of(addr);
    assert forall|i: int| 0 <= i < s.instances.len() implies keep(#[trigger] s.instances[i]) by {
        assert(s.kretprobes.contains_key(s.instances[i].probe));
    }
    lemma_filter_keeps_all(s.instances, keep);
    assert(u =~= s);
}

/// Unregistering a return probe in flight orphans its open calls: no
/// instance of the probe is left.
pub proof fn law_unregister_orphans_instances(s: State, addr: usize)
    ensures
        forall|i: int|
            0 <= i < s.unregister_kretprobe(addr).instances.len() ==> (
            #[trigger] s.unregister_kretprobe(addr).instances[i]).probe != addr,
{
    let t = s.unregister_kretprobe(addr);
    assert forall|i: int| 0 <= i < t.instances.len() implies (#[trigger] t.instances[i]).probe
        != addr by {
        s.instances.lemma_filter_pred(not_of(addr), i);
    }
}

/// Unregister during flight: where every open call with the identity of a
/// trampoline trap was observed by the return probe that has been
/// unregistered, the trap is not handled, and state and frame stay as they
/// are.
pub proof fn law_orphaned_return_is_not_handled<B: Backend>(
    s: State,
    addr: usize,
    backend: B,
    before: TrapFrame,
    t: State,
    after: TrapFrame,
    outcome: TrapOutcome,
)
    requires
        forall|i: int|
            0 <= i < s.instances.len() && (#[trigger] s.instances[i]).call_identity == before.sp
                ==> s.instances[i].probe == addr,
        before.pc == s.trampoline,
        !s.unregister_kretprobe(addr).kprobes.contains_key(before.pc),
        s.unregister_kretprobe(addr).serves(backend, before, t, after, outcome),
    ensures
        outcome == TrapOutcome::NotHandled,
        t == s.unregister_kretprobe(addr),
        after == before,
{
    let u = s.unregister_kretprobe(addr);
    let index = last_match(u.instances, before.sp);
    lemma_last_match(u.instances, before.sp);
    if index >= 0 {
        s.instances.lemma_filter_pred(not_of(addr), index);
        s.instances.lemma_filter_contains_rev(not_of(addr), u.instances[index]);
        let j = choose|j: int| 0 <= j < s.instances.len() && s.instances[j] == u.instances[index];
        assert(s.instances[j].probe == addr);
    }
}

/// Unknown trap: a trap that is at no probed address and not at the
/// trampoline is not handled, and neither is a trampoline trap that no open
/// instance matches; state and frame stay as they are.
pub proof fn law_unknown_trap<B: Backend>(
    s: State,
    backend: B,
    before: TrapFrame,
    t: State,
    after: TrapFrame,
    outcome: TrapOutcome,
)
    requires
        s.serves(backend, before, t, after, outcome),
        !s.kprobes.contains_key(before.pc),
        before.pc != s.trampoline || last_match(s.instances, before.sp) < 0,
    ensures
        outcome == TrapOutcome::NotHandled,
        t == s,
        after == before,
{
}

/// Handler ordering: where a probe with a pre-handler and a post-handler is
/// hit, the pre-handler runs on the trapped frame, the original instruction,
/// back in its place, is stepped on the frame that the pre-handler left, and
/// the post-handler runs on the frame that the step left.
pub proof fn law_handler_ordering<B: Backend>(
    s: State,
    backend: B,
    before: TrapFrame,
    t: State,
    after: TrapFrame,
    outcome: TrapOutcome,
    pre: HandlerRef,
    post: HandlerRef,
)
    requires
        s.kprobes.contains_key(before.pc),
        s.kprobes[before.pc].pre_handler == PreHandler::User(pre),
        s.kprobes[before.pc].post_handler == Some(post),
        s.serves(backend, before, t, after, outcome),
    ensures
        outcome == TrapOutcome::Handled,
        t == s,
        exists|entered: TrapFrame, stepped: TrapFrame|
            {
                &&& #[trigger] pre.leaves(before, s.kprobes[before.pc].user_data, entered)
                &&& backend.steps(
                    entered,
                    s.base,
                    with_insn(s.base, s.code, before.pc, s.kprobes[before.pc].saved_bytes),
                    before.pc,
                    stepped,
                )
                &&& #[trigger] post.leaves(stepped, s.kprobes[before.pc].user_data, after)
            },
{
    let probe = s.kprobes[before.pc];
    let (entered, stepped) = choose|entered: TrapFrame, stepped: TrapFrame|
        {
            &&& #[trigger] s.pre_effect(before, entered)
            &&& backend.steps(
                entered,
                s.base,
                with_insn(s.base, s.code, before.pc, probe.saved_bytes),
                before.pc,
                stepped,
            )
            &&& #[trigger] leaves_if_any(probe.post_handler, stepped, probe.user_data, after)
        };
    assert(pre.leaves(before, probe.user_data, entered));
    assert(post.leaves(stepped, probe.user_data, after));
}

/// An observed call returns to its caller: right after the entry logic put
/// a call under observation, the most recent instance with the call's
/// identity is the one just recorded, it holds the call's real return
/// address, and completing it leaves the instances as they were before the
/// call and counts one hit for the probe.
pub proof fn law_observed_call_returns(s: State, entry: TrapFrame)
    requires
        s.wf(),
        s.kretprobes.contains_key(entry.pc),
        !s.kretprobes[entry.pc].exhausted(),
    ensures
        ({
            let t = s.enter(entry);
            let index = last_match(t.instances, entry.sp);
            &&& index == s.instances.len()
            &&& t.instances[index].probe == entry.pc
            &&& t.instances[index].real_return_address == entry.ra
            &&& t.leave(index).instances == s.instances
            &&& t.leave(index).kretprobes[entry.pc].hit_count == bumped(
                s.kretprobes[entry.pc].hit_count,
            )
        }),
{
    let t = s.enter(entry);
    let index = last_match(t.instances, entry.sp);
    assert(t.instances.last().call_identity == entry.sp);
    assert(t.leave(index).instances =~= s.instances);
}

/// Nested and recursive calls unwind last in, first out: of two observed
/// calls with different identities, the return of the inner one restores the
/// inner caller's address, the return of the outer one the outer caller's,
/// and after both the instances are as they were before the calls.
pub proof fn law_nested_calls_unwind(s: State, outer: TrapFrame, inner: TrapFrame)
    requires
        s.wf(),
        s.kretprobes.contains_key(outer.pc),
        s.kretprobes.contains_key(inner.pc),
        !s.kretprobes[outer.pc].exhausted(),
        !s.kretprobes[inner.pc].exhausted(),
        outer.sp != inner.sp,
    ensures
        ({
            let t = s.enter(outer).enter(inner);
            let i = last_match(t.instances, inner.sp);
            let u = t.leave(i);
            let o = last_match(u.instances, outer.sp);
            &&& i == s.instances.len() + 1
            &&& t.instances[i].real_return_address == inner.ra
            &&& o == s.instances.len()
            &&& u.instances[o].real_return_address == outer.ra
            &&& u.leave(o).instances == s.instances
        }),
{
    let t = s.enter(outer).enter(inner);
    let i = last_match(t.instances, inner.sp);
    assert(t.instances.last().call_identity == inner.sp);
    let u = t.leave(i);
    assert(u.instances =~= s.enter(outer).instances);
    assert(u.instances.last().call_identity == outer.sp);
    let o = last_match(u.instances, outer.sp);
    assert(u.leave(o).instances =~= s.instances);
}

/// A completed call retires the probe exactly where the new hit count has
/// reached the limit.
pub proof fn law_limit_retires_probe(s: State, index: int)
    requires
        s.wf(),
        0 <= index < s.instances.len(),
    ensures
        ({
            let addr = s.instances[index].probe;
            let probe = s.kretprobes[addr];
            &&& s.leave(index).kretprobes.contains_key(addr)
            &&& s.leave(index).kretprobes[addr].hit_count == bumped(probe.hit_count)
            &&& s.leave(index).kretprobes[addr].limit == probe.limit
            &&& s.leave(index).kretprobes[addr].exhausted() <==> (probe.limit matches Some(limit)
                && bumped(probe.hit_count) >= limit)
        }),
{
    assert(s.kretprobes.contains_key(s.instances[index].probe));
}

/// Limit exhaustion: a return probe whose hit count has reached its limit
/// observes nothing. Its entry logic records no instance and leaves the
/// frame, and with it the real return address, as it is.
pub proof fn law_retired_probe_observes_nothing(s: State, before: TrapFrame, after: TrapFrame)
    requires
        s.kretprobes.contains_key(before.pc),
        s.kretprobes[before.pc].exhausted(),
    ensures
        s.enter(before) == s,
        s.entry_effect(before, after) ==> after == before,
{
}

/// Restoring is idempotent: putting the same instruction back a second time
/// changes nothing.
pub proof fn law_restore_idempotent(base: usize, code: Seq<u8>, addr: usize, saved: Seq<u8>)
    ensures
        with_insn(base, with_insn(base, code, addr, saved), addr, saved) == with_insn(
            base,
            code,
            addr,
            saved,
        ),
{
    assert(with_insn(base, with_insn(base, code, addr, saved), addr, saved) =~= with_insn(
        base,
        code,
        addr,
        saved,
    ));
}

/// A completed call counts once: the hit count never decreases and grows by
/// one until the machine's largest number.
pub proof fn law_hit_count_monotonic(hit_count: usize)
    ensures
        bumped(hit_count) >= hit_count,
        hit_count < usize::MAX ==> bumped(hit_count) == hit_count + 1,
{
}

} // verus!
