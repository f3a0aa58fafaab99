//! The invariant of the probe core is kept by every operation.

use vstd::prelude::*;
use crate::frame::TrapFrame;
use crate::memory::window_covers;
use crate::model::{
    last_match, not_of, HandlerRef, KProbeArgs, KRetProbeArgs, KRetProbeInstance, PreHandler,
    State,
};
use crate::patch::{aligned, insn_at, lemma_patch_round_trip, trap_insn, with_insn, TRAP_WIDTH};

verus! {

/// Patching one instruction leaves every other aligned instruction as it was.
pub proof fn lemma_patch_elsewhere(
    base: usize,
    code: Seq<u8>,
    addr: usize,
    insn: Seq<u8>,
    other: usize,
)
    requires
        window_covers(base, code.len(), addr, TRAP_WIDTH as nat),
        window_covers(base, code.len(), other, TRAP_WIDTH as nat),
        aligned(addr),
        aligned(other),
        addr != other,
        insn.len() == TRAP_WIDTH,
    ensures
        insn_at(base, with_insn(base, code, addr, insn), other) == insn_at(base, code, other),
{
    assert(addr + TRAP_WIDTH <= other || other + TRAP_WIDTH <= addr);
    assert(insn_at(base, with_insn(base, code, addr, insn), other) =~= insn_at(base, code, other));
}

/// The most recent match, where there is one, is an instance with the asked
/// identity, and no later instance has it.
pub proof fn lemma_last_match(instances: Seq<KRetProbeInstance>, identity: usize)
    ensures
        -1 <= last_match(instances, identity) < instances.len(),
        last_match(instances, identity) >= 0 ==> instances[last_match(
            instances,
            identity,
        )].call_identity == identity,
        forall|j: int|
            last_match(instances, identity) < j < instances.len()
                ==> #[trigger] instances[j].call_identity != identity,
    decreases instances.len(),
{
    if instances.len() > 0 && instances.last().call_identity != identity {
        let rest = instances.drop_last();
        lemma_last_match(rest, identity);
        assert forall|j: int| last_match(instances, identity) < j < instances.len() implies (
        #[trigger] instances[j]).call_identity != identity by {
            if j < rest.len() {
                assert(rest[j] == instances[j]);
            }
        }
    }
}

/// A filter that every element passes keeps the sequence as it is.
pub proof fn lemma_filter_keeps_all(
    instances: Seq<KRetProbeInstance>,
    keep: spec_fn(KRetProbeInstance) -> bool,
)
    requires
        forall|i: int| 0 <= i < instances.len() ==> keep(#[trigger] instances[i]),
    ensures
        instances.filter(keep) == instances,
    decreases instances.len(),
{
    reveal(Seq::filter);
    if instances.len() > 0 {
        lemma_filter_keeps_all(instances.drop_last(), keep);
        assert(instances.drop_last().push(instances.last()) =~= instances);
    }
}

/// Installing a probe at a free, aligned, covered address keeps the
/// invariant, whatever its handlers are, as long as return probes and
/// internal breakpoint probes stay paired.
pub proof fn lemma_with_kprobe_wf(
    s: State,
    addr: usize,
    pre_handler: PreHandler,
    post_handler: Option<HandlerRef>,
    user_data: usize,
)
    requires
        s.wf(),
        s.register_refusal(addr) is None,
    ensures
        ({
            let t = s.with_kprobe(addr, pre_handler, post_handler, user_data);
            &&& t.code.len() == s.code.len()
            &&& forall|a: usize| #[trigger]
                t.kprobes.contains_key(a) ==> {
                    &&& aligned(a)
                    &&& t.covers(a)
                    &&& insn_at(t.base, t.code, a) == trap_insn()
                    &&& t.kprobes[a].saved_bytes.len() == TRAP_WIDTH
                }
        }),
{
    let t = s.with_kprobe(addr, pre_handler, post_handler, user_data);
    lemma_patch_round_trip(s.base, s.code, addr, trap_insn());
    assert forall|a: usize| #[trigger] t.kprobes.contains_key(a) implies {
        &&& aligned(a)
        &&& t.covers(a)
        &&& insn_at(t.base, t.code, a) == trap_insn()
        &&& t.kprobes[a].saved_bytes.len() == TRAP_WIDTH
    } by {
        if a != addr {
            assert(s.kprobes.contains_key(a));
            lemma_patch_elsewhere(s.base, s.code, addr, trap_insn(), a);
        }
    }
}

/// Removing a probe and restoring its instruction keeps what the invariant
/// says of the remaining breakpoint probes.
pub proof fn lemma_without_kprobe_wf(s: State, addr: usize)
    requires
        s.wf(),
        s.kprobes.contains_key(addr),
    ensures
        ({
            let t = s.without_kprobe(addr);
            &&& t.code.len() == s.code.len()
            &&& forall|a: usize| #[trigger]
                t.kprobes.contains_key(a) ==> {
                    &&& aligned(a)
                    &&& t.covers(a)
                    &&& insn_at(t.base, t.code, a) == trap_insn()
                    &&& t.kprobes[a].saved_bytes.len() == TRAP_WIDTH
                }
        }),
{
    let t = s.without_kprobe(addr);
    let saved = s.kprobes[addr].saved_bytes;
    lemma_patch_round_trip(s.base, s.code, addr, saved);
    assert forall|a: usize| #[trigger] t.kprobes.contains_key(a) implies {
        &&& aligned(a)
        &&& t.covers(a)
        &&& insn_at(t.base, t.code, a) == trap_insn()
        &&& t.kprobes[a].saved_bytes.len() == TRAP_WIDTH
    } by {
        assert(s.kprobes.contains_key(a));
        lemma_patch_elsewhere(s.base, s.code, addr, saved, a);
    }
}

/// Registering a breakpoint probe keeps the invariant.
pub proof fn lemma_register_kprobe_wf(s: State, addr: usize, args: KProbeArgs)
    requires
        s.wf(),
        s.register_refusal(addr) is None,
    ensures
        s.register_kprobe(addr, args).wf(),
{
    lemma_with_kprobe_wf(
        s,
        addr,
        PreHandler::User(args.pre_handler),
        args.post_handler,
        args.user_data,
    );
}

/// Unregistering a consumer's breakpoint probe keeps the invariant.
pub proof fn lemma_unregister_kprobe_wf(s: State, addr: usize)
    requires
        s.wf(),
        s.has_user_kprobe(addr),
    ensures
        s.unregister_kprobe(addr).wf(),
{
    lemma_without_kprobe_wf(s, addr);
}

/// Registering a return probe keeps the invariant.
pub proof fn lemma_register_kretprobe_wf(s: State, addr: usize, args: KRetProbeArgs)
    requires
        s.wf(),
        s.register_refusal(addr) is None,
    ensures
        s.register_kretprobe(addr, args).wf(),
{
    lemma_with_kprobe_wf(s, addr, PreHandler::ReturnEntry, None, args.user_data);
}

/// Unregistering a return probe keeps the invariant.
pub proof fn lemma_unregister_kretprobe_wf(s: State, addr: usize)
    requires
        s.wf(),
        s.kretprobes.contains_key(addr),
    ensures
        s.unregister_kretprobe(addr).wf(),
{
    lemma_without_kprobe_wf(s, addr);
    let t = s.unregister_kretprobe(addr);
    assert forall|i: int| 0 <= i < t.instances.len() implies t.kretprobes.contains_key(
        #[trigger] t.instances[i].probe,
    ) by {
        s.instances.lemma_filter_pred(not_of(addr), i);
        s.instances.lemma_filter_contains_rev(not_of(addr), t.instances[i]);
        let j = choose|j: int| 0 <= j < s.instances.len() && s.instances[j] == t.instances[i];
        assert(s.kretprobes.contains_key(s.instances[j].probe));
    }
}

/// Hitting a breakpoint probe keeps the invariant.
pub proof fn lemma_hit_wf(s: State, frame: TrapFrame)
    requires
        s.wf(),
        s.kprobes.contains_key(frame.pc),
    ensures
        s.hit(frame).wf(),
{
}

/// Completing an open instance keeps the invariant.
pub proof fn lemma_leave_wf(s: State, index: int)
    requires
        s.wf(),
        0 <= index < s.instances.len(),
    ensures
        s.leave(index).wf(),
{
    assert(s.kretprobes.contains_key(s.instances[index].probe));
}

} // verus!
