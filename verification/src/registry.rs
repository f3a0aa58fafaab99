//! The probe registries and the trap dispatcher.

use vstd::prelude::*;
use std::collections::BTreeMap;
use crate::backend::Backend;
use crate::frame::TrapFrame;
use crate::wellformed::{
    lemma_hit_wf, lemma_last_match, lemma_leave_wf, lemma_register_kprobe_wf,
    lemma_register_kretprobe_wf, lemma_unregister_kprobe_wf, lemma_unregister_kretprobe_wf,
};
use crate::memory::CodeMemory;
use crate::model::{
    last_match, leaves_if_any, not_of, HandlerRef, KProbeArgs, KProbeModel, KRetProbe,
    KRetProbeArgs, KRetProbeInstance, PreHandler, ProbeError, State, TrapOutcome,
};
use crate::patch::{arm, install, lemma_patch_round_trip, restore, with_insn, PatchError};

verus! {

/// A breakpoint probe: the displaced instruction and what to run around it.
pub struct KProbe {
    address: usize,
    saved_bytes: Vec<u8>,
    pre_handler: PreHandler,
    post_handler: Option<HandlerRef>,
    user_data: usize,
}

impl KProbe {
    /// The probe as the model sees it.
    pub closed spec fn model(self) -> KProbeModel {
        KProbeModel {
            saved_bytes: self.saved_bytes@,
            pre_handler: self.pre_handler,
            post_handler: self.post_handler,
            user_data: self.user_data,
        }
    }
}

/// The instances that do not belong to the return probe at `addr`, in
/// their order.
pub fn instances_not_of(instances: &Vec<KRetProbeInstance>, addr: usize) -> (kept: Vec<
    KRetProbeInstance,
>)
    ensures
        kept@ == instances@.filter(not_of(addr)),
{
    let mut kept: Vec<KRetProbeInstance> = Vec::new();
    let mut i: usize = 0;
    proof {
        reveal(Seq::filter);
        assert(instances@.take(0) =~= Seq::<KRetProbeInstance>::empty());
    }
    while i < instances.len()
        invariant
            i <= instances.len(),
            kept@ == instances@.take(i as int).filter(not_of(addr)),
        decreases instances.len() - i,
    {
        let instance = instances[i];
        proof {
            assert(instances@.take(i + 1) =~= instances@.take(i as int).push(instance));
            instances@.take(i as int).lemma_filter_push(instance, not_of(addr));
        }
        if instance.probe != addr {
            kept.push(instance);
        }
        i = i + 1;
    }
    assert(instances@.take(i as int) =~= instances@);
    kept
}

/// The index of the most recent instance whose call identity is
/// `identity`, if there is one.
pub fn find_last(instances: &Vec<KRetProbeInstance>, identity: usize) -> (found: Option<usize>)
    ensures
        match found {
            Some(index) => index == last_match(instances@, identity),
            None => last_match(instances@, identity) == -1,
        },
{
    let mut i: usize = instances.len();
    assert(instances@.take(i as int) =~= instances@);
    while i > 0
        invariant
            i <= instances.len(),
            last_match(instances@, identity) == last_match(instances@.take(i as int), identity),
        decreases i,
    {
        assert(instances@.take(i as int).last() == instances@[i - 1]);
        assert(instances@.take(i as int).drop_last() =~= instances@.take(i - 1));
        if instances[i - 1].call_identity == identity {
            return Some(i - 1);
        }
        i = i - 1;
    }
    None
}

/// Puts a call under observation: records an instance for the return probe
/// at the trapped address, with the return address and the stack pointer of
/// the frame, and redirects the return of the call to `trampoline`.
pub fn redirect_return(
    instances: &mut Vec<KRetProbeInstance>,
    frame: &mut TrapFrame,
    trampoline: usize,
)
    ensures
        final(instances)@ == old(instances)@.push(
            KRetProbeInstance {
                probe: old(frame).pc,
                real_return_address: old(frame).ra,
                call_identity: old(frame).sp,
            },
        ),
        *final(frame) == (TrapFrame { ra: trampoline, ..*old(frame) }),
{
    instances.push(
        KRetProbeInstance {
            probe: frame.pc,
            real_return_address: frame.ra,
            call_identity: frame.sp,
        },
    );
    frame.ra = trampoline;
}

/// The probe core: the code memory it patches, the architecture backend,
/// both registries and the open return-probe instances.
///
/// Exclusive access (`&mut`) is the exclusion that serializes registration,
/// unregistration and trap dispatch.
pub struct Probes<'a, B: Backend> {
    mem: CodeMemory<'a>,
    backend: B,
    trampoline: usize,
    kprobes: BTreeMap<usize, KProbe>,
    kretprobes: BTreeMap<usize, KRetProbe>,
    instances: Vec<KRetProbeInstance>,
}

impl<'a, B: Backend> Probes<'a, B> {
    /// The state of the core.
    pub closed spec fn view(&self) -> State {
        State {
            base: self.mem.base(),
            code: self.mem@,
            trampoline: self.trampoline,
            kprobes: self.kprobes@.map_values(|p: KProbe| p.model()),
            kretprobes: self.kretprobes@,
            instances: self.instances@,
        }
    }

    /// The architecture backend.
    pub closed spec fn backend(&self) -> B {
        self.backend
    }

    /// The invariant: that of the model, every patched byte synchronized,
    /// and every probe filed under its own address.
    pub closed spec fn wf(&self) -> bool {
        &&& self@.wf()
        &&& self.mem.coherent()
        &&& forall|a: usize| #[trigger]
            self.kprobes@.contains_key(a) ==> self.kprobes@[a].address == a
    }

    /// A core without probes over `mem`, with return probes redirected to
    /// the address `trampoline`.
    pub fn new(mem: CodeMemory<'a>, backend: B, trampoline: usize) -> (probes: Self)
        requires
            mem.coherent(),
        ensures
            probes.wf(),
            probes@ == State::init(mem.base(), mem@, trampoline),
            probes.backend() == backend,
    {
        let probes = Probes {
            mem,
            backend,
            trampoline,
            kprobes: BTreeMap::new(),
            kretprobes: BTreeMap::new(),
            instances: Vec::new(),
        };
        assert(probes@ =~= State::init(mem.base(), mem@, trampoline));
        probes
    }

    /// Every patched byte is synchronized and every probe is filed under
    /// its own address.
    spec fn filed(&self) -> bool {
        &&& self.mem.coherent()
        &&& forall|a: usize| #[trigger]
            self.kprobes@.contains_key(a) ==> self.kprobes@[a].address == a
    }

    /// Patches `addr` and files a breakpoint probe there.
    fn attach(
        &mut self,
        addr: usize,
        pre_handler: PreHandler,
        post_handler: Option<HandlerRef>,
        user_data: usize,
    ) -> (result: Result<(), ProbeError>)
        requires
            old(self).wf(),
        ensures
            final(self).filed(),
            final(self).backend() == old(self).backend(),
            final(self).kretprobes == old(self).kretprobes,
            match result {
                Ok(()) => {
                    &&& old(self)@.register_refusal(addr) is None
                    &&& final(self)@ == old(self)@.with_kprobe(
                        addr,
                        pre_handler,
                        post_handler,
                        user_data,
                    )
                },
                Err(e) => {
                    &&& old(self)@.register_refusal(addr) == Some(e)
                    &&& final(self)@ == old(self)@
                },
            },
    {
        broadcast use vstd::std_specs::btree::group_btree_axioms;

        let occupied = self.kprobes.contains_key(&addr);
        match install(&mut self.mem, &self.backend, addr, occupied) {
            Ok(saved) => {
                let probe = KProbe {
                    address: addr,
                    saved_bytes: saved,
                    pre_handler,
                    post_handler,
                    user_data,
                };
                self.kprobes.insert(addr, probe);
                assert(self@ =~= old(self)@.with_kprobe(
                    addr,
                    pre_handler,
                    post_handler,
                    user_data,
                ));
                Ok(())
            },
            Err(e) => {
                assert(self@ =~= old(self)@);
                match e {
                    PatchError::AlreadyPatched => Err(ProbeError::Conflict),
                    PatchError::Unaligned => Err(ProbeError::Unaligned),
                    PatchError::OutOfRange => Err(ProbeError::OutOfRange),
                }
            },
        }
    }

    /// Takes the breakpoint probe at `addr` out and puts its original
    /// instruction back.
    fn detach(&mut self, addr: usize)
        requires
            old(self).wf(),
            old(self)@.kprobes.contains_key(addr),
        ensures
            final(self).filed(),
            final(self).backend() == old(self).backend(),
            final(self).kretprobes == old(self).kretprobes,
            final(self).instances == old(self).instances,
            final(self)@ == old(self)@.without_kprobe(addr),
    {
        broadcast use vstd::std_specs::btree::group_btree_axioms;

        match self.kprobes.remove(&addr) {
            Some(probe) => {
                restore(&mut self.mem, &self.backend, addr, &probe.saved_bytes);
                assert(self@ =~= old(self)@.without_kprobe(addr));
            },
            None => {},
        }
    }

    /// Registers a breakpoint probe at `addr`.
    ///
    /// Refused as `Conflict` where any probe occupies the address, else as
    /// `Unaligned` where the address is not instruction-aligned, else as
    /// `OutOfRange` where the instruction is not inside the code memory. A
    /// refused registration changes nothing.
    pub fn register_kprobe(&mut self, addr: usize, args: KProbeArgs) -> (result: Result<
        (),
        ProbeError,
    >)
        requires
            old(self).wf(),
        ensures
            final(self).wf(),
            final(self).backend() == old(self).backend(),
            match result {
                Ok(()) => {
                    &&& old(self)@.register_refusal(addr) is None
                    &&& final(self)@ == old(self)@.register_kprobe(addr, args)
                },
                Err(e) => {
                    &&& old(self)@.register_refusal(addr) == Some(e)
                    &&& final(self)@ == old(self)@
                },
            },
    {
        let KProbeArgs { pre_handler, post_handler, user_data } = args;
        let result = self.attach(addr, PreHandler::User(pre_handler), post_handler, user_data);
        proof {
            if result is Ok {
                lemma_register_kprobe_wf(old(self)@, addr, args);
            }
        }
        result
    }

    /// Unregisters the breakpoint probe at `addr` and puts its original
    /// instruction back.
    ///
    /// Refused as `NotFound` where no breakpoint probe of a consumer is
    /// registered there; the internal probe of a return probe cannot be
    /// unregistered on its own.
    pub fn unregister_kprobe(&mut self, addr: usize) -> (result: Result<(), ProbeError>)
        requires
            old(self).wf(),
        ensures
            final(self).wf(),
            final(self).backend() == old(self).backend(),
            match result {
                Ok(()) => {
                    &&& old(self)@.unregister_kprobe_refusal(addr) is None
                    &&& final(self)@ == old(self)@.unregister_kprobe(addr)
                },
                Err(e) => {
                    &&& old(self)@.unregister_kprobe_refusal(addr) == Some(e)
                    &&& final(self)@ == old(self)@
                },
            },
    {
        broadcast use vstd::std_specs::btree::group_btree_axioms;

        let removable = match self.kprobes.get(&addr) {
            Some(probe) => match probe.pre_handler {
                PreHandler::User(_) => true,
                PreHandler::ReturnEntry => false,
            },
            None => false,
        };
        if !removable {
            return Err(ProbeError::NotFound);
        }
        self.detach(addr);
        proof {
            lemma_unregister_kprobe_wf(old(self)@, addr);
        }
        Ok(())
    }

    /// Registers a return probe at the entry address `addr` of a function.
    ///
    /// The probe gets an internal breakpoint probe at `addr`, so it is
    /// refused exactly where a breakpoint probe would be. It starts with a
    /// hit count of zero.
    pub fn register_kretprobe(&mut self, addr: usize, args: KRetProbeArgs) -> (result: Result<
        (),
        ProbeError,
    >)
        requires
            old(self).wf(),
        ensures
            final(self).wf(),
            final(self).backend() == old(self).backend(),
            match result {
                Ok(()) => {
                    &&& old(self)@.register_refusal(addr) is None
                    &&& final(self)@ == old(self)@.register_kretprobe(addr, args)
                },
                Err(e) => {
                    &&& old(self)@.register_refusal(addr) == Some(e)
                    &&& final(self)@ == old(self)@
                },
            },
    {
        let KRetProbeArgs { exit_handler, entry_handler, limit, user_data } = args;
        match self.attach(addr, PreHandler::ReturnEntry, None, user_data) {
            Ok(()) => {
                let probe = KRetProbe {
                    address: addr,
                    entry_handler,
                    exit_handler,
                    limit,
                    hit_count: 0,
                    user_data,
                };
                self.kretprobes.insert(addr, probe);
                proof {
                    assert(self@ =~= old(self)@.register_kretprobe(addr, args));
                    lemma_register_kretprobe_wf(old(self)@, addr, args);
                }
                Ok(())
            },
            Err(e) => Err(e),
        }
    }

    /// Unregisters the return probe at `addr` together with its internal
    /// breakpoint probe, and puts the original instruction back.
    ///
    /// The open instances of the probe are dropped: the calls they stood
    /// for are orphaned. Refused as `NotFound` where no return probe is
    /// registered at `addr`.
    pub fn unregister_kretprobe(&mut self, addr: usize) -> (result: Result<(), ProbeError>)
        requires
            old(self).wf(),
        ensures
            final(self).wf(),
            final(self).backend() == old(self).backend(),
            match result {
                Ok(()) => {
                    &&& old(self)@.unregister_kretprobe_refusal(addr) is None
                    &&& final(self)@ == old(self)@.unregister_kretprobe(addr)
                },
                Err(e) => {
                    &&& old(self)@.unregister_kretprobe_refusal(addr) == Some(e)
                    &&& final(self)@ == old(self)@
                },
            },
    {
        broadcast use vstd::std_specs::btree::group_btree_axioms;

        if !self.kretprobes.contains_key(&addr) {
            return Err(ProbeError::NotFound);
        }
        self.detach(addr);
        self.kretprobes.remove(&addr);
        self.instances = instances_not_of(&self.instances, addr);
        proof {
            assert(self@ =~= old(self)@.unregister_kretprobe(addr));
            lemma_unregister_kretprobe_wf(old(self)@, addr);
        }
        Ok(())
    }

    /// Offers a trap to the breakpoint registry.
    ///
    /// Where a probe is registered at the trapped address, the original
    /// instruction is put back for the time of the step, the pre-handler
    /// runs, the backend single-steps the original instruction, the trap
    /// instruction is put in again and the post-handler, if any, runs. For
    /// the internal probe of a return probe the pre-handler is the entry
    /// logic: unless the probe has retired, the call is put under
    /// observation and then the entry handler, if any, runs.
    pub fn dispatch_kprobe(&mut self, frame: &mut TrapFrame) -> (outcome: TrapOutcome)
        requires
            old(self).wf(),
        ensures
            final(self).wf(),
            final(self).backend() == old(self).backend(),
            outcome == TrapOutcome::Handled <==> old(self)@.kprobes.contains_key(old(frame).pc),
            outcome == TrapOutcome::Handled ==> final(self)@ == old(self)@.hit(*old(frame)),
            outcome == TrapOutcome::Handled ==> old(self)@.hit_effect(
                old(self).backend(),
                *old(frame),
                *final(frame),
            ),
            outcome == TrapOutcome::NotHandled ==> final(self)@ == old(self)@ && *final(frame)
                == *old(frame),
    {
        broadcast use vstd::std_specs::btree::group_btree_axioms;

        let pc = frame.pc;
        let ghost before = *frame;
        match self.kprobes.get(&pc) {
            None => TrapOutcome::NotHandled,
            Some(probe) => {
                proof {
                    assert(old(self)@.kprobes.contains_key(pc));
                    lemma_patch_round_trip(
                        old(self).mem.base(),
                        old(self).mem@,
                        pc,
                        probe.saved_bytes@,
                    );
                }
                restore(&mut self.mem, &self.backend, pc, &probe.saved_bytes);
                assert(probe.model() == old(self)@.kprobes[pc]);
                match &probe.pre_handler {
                    PreHandler::User(pre_handler) => {
                        pre_handler.handler.call(frame, probe.user_data);
                    },
                    PreHandler::ReturnEntry => {
                        match self.kretprobes.get(&pc) {
                            Some(definition) => {
                                if !definition.is_exhausted() {
                                    redirect_return(&mut self.instances, frame, self.trampoline);
                                    match &definition.entry_handler {
                                        Some(entry_handler) => {
                                            entry_handler.handler.call(frame, definition.user_data);
                                        },
                                        None => {},
                                    }
                                }
                            },
                            None => {},
                        }
                    },
                }
                let ghost entered = *frame;
                self.backend.single_step(frame, &self.mem, pc);
                let ghost stepped = *frame;
                arm(&mut self.mem, &self.backend, pc);
                match &probe.post_handler {
                    Some(post_handler) => {
                        post_handler.handler.call(frame, probe.user_data);
                    },
                    None => {},
                }
                proof {
                    assert(self.mem@ =~= old(self).mem@);
                    assert(self@ =~= old(self)@.hit(before));
                    lemma_hit_wf(old(self)@, before);
                    let model = old(self)@.kprobes[pc];
                    assert(old(self)@.pre_effect(before, entered));
                    assert(old(self).backend().steps(
                        entered,
                        old(self)@.base,
                        with_insn(old(self)@.base, old(self)@.code, pc, model.saved_bytes),
                        pc,
                        stepped,
                    ));
                    assert(leaves_if_any(model.post_handler, stepped, model.user_data, *frame));
                    assert(old(self)@.hit_effect(old(self).backend(), before, *frame));
                }
                TrapOutcome::Handled
            },
        }
    }

    /// Offers a trap to the return-probe registry.
    ///
    /// A trap away from the trampoline is not handled. At the trampoline
    /// the most recent open instance with the frame's call identity (its
    /// stack pointer) is closed: the exit handler of its probe runs, the
    /// program counter is set to the real return address and the probe's
    /// hit count grows by one. Where no open instance matches, the trap is
    /// `Orphaned`.
    pub fn dispatch_kretprobe(&mut self, frame: &mut TrapFrame) -> (result: Result<
        TrapOutcome,
        ProbeError,
    >)
        requires
            old(self).wf(),
        ensures
            final(self).wf(),
            final(self).backend() == old(self).backend(),
            match result {
                Ok(TrapOutcome::Handled) => {
                    let index = last_match(old(self)@.instances, old(frame).sp);
                    &&& old(self)@.on_return_path(*old(frame))
                    &&& final(self)@ == old(self)@.leave(index)
                    &&& old(self)@.exit_effect(index, *old(frame), *final(frame))
                },
                Ok(TrapOutcome::NotHandled) => {
                    &&& old(frame).pc != old(self)@.trampoline
                    &&& final(self)@ == old(self)@
                    &&& *final(frame) == *old(frame)
                },
                Err(e) => {
                    &&& e == ProbeError::Orphaned
                    &&& old(frame).pc == old(self)@.trampoline
                    &&& !old(self)@.on_return_path(*old(frame))
                    &&& final(self)@ == old(self)@
                    &&& *final(frame) == *old(frame)
                },
            },
    {
        broadcast use vstd::std_specs::btree::group_btree_axioms;

        if frame.pc != self.trampoline {
            return Ok(TrapOutcome::NotHandled);
        }
        let index = match find_last(&self.instances, frame.sp) {
            Some(index) => index,
            None => {
                return Err(ProbeError::Orphaned);
            },
        };
        proof {
            lemma_last_match(self.instances@, frame.sp);
        }
        let ghost before = *frame;
        let instance = self.instances.remove(index);
        match self.kretprobes.remove(&instance.probe) {
            Some(probe) => {
                probe.exit_handler.handler.call(frame, probe.user_data);
                let ghost seen = *frame;
                frame.pc = instance.real_return_address;
                self.kretprobes.insert(instance.probe, probe.completed());
                proof {
                    assert(self@ =~= old(self)@.leave(index as int));
                    lemma_leave_wf(old(self)@, index as int);
                    assert(probe.exit_handler.leaves(before, probe.user_data, seen));
                    assert(old(self)@.exit_effect(index as int, before, *frame));
                }
                Ok(TrapOutcome::Handled)
            },
            None => Err(ProbeError::Orphaned),
        }
    }

    /// Serves one breakpoint trap: the trap is offered to the breakpoint
    /// registry first and, where that does not handle it, to the return-probe
    /// registry. An orphaned trampoline trap is reported as not handled.
    pub fn dispatch(&mut self, frame: &mut TrapFrame) -> (outcome: TrapOutcome)
        requires
            old(self).wf(),
        ensures
            final(self).wf(),
            final(self).backend() == old(self).backend(),
            old(self)@.serves(
                old(self).backend(),
                *old(frame),
                final(self)@,
                *final(frame),
                outcome,
            ),
    {
        match self.dispatch_kprobe(frame) {
            TrapOutcome::Handled => TrapOutcome::Handled,
            TrapOutcome::NotHandled => match self.dispatch_kretprobe(frame) {
                Ok(outcome) => outcome,
                Err(_) => TrapOutcome::NotHandled,
            },
        }
    }

    /// Whether any probe occupies `addr`.
    pub fn is_probed(&self, addr: usize) -> (probed: bool)
        ensures
            probed == self@.kprobes.contains_key(addr),
    {
        broadcast use vstd::std_specs::btree::group_btree_axioms;

        self.kprobes.contains_key(&addr)
    }

    /// Whether a consumer's breakpoint probe is registered at `addr`.
    pub fn has_kprobe(&self, addr: usize) -> (found: bool)
        ensures
            found == self@.has_user_kprobe(addr),
    {
        broadcast use vstd::std_specs::btree::group_btree_axioms;

        match self.kprobes.get(&addr) {
            Some(probe) => match probe.pre_handler {
                PreHandler::User(_) => true,
                PreHandler::ReturnEntry => false,
            },
            None => false,
        }
    }

    /// Whether a return probe is registered at `addr`.
    pub fn has_kretprobe(&self, addr: usize) -> (found: bool)
        ensures
            found == self@.kretprobes.contains_key(addr),
    {
        broadcast use vstd::std_specs::btree::group_btree_axioms;

        self.kretprobes.contains_key(&addr)
    }

    /// The number of calls that the return probe at `addr` has seen
    /// complete, if there is such a probe.
    pub fn hit_count(&self, addr: usize) -> (count: Option<usize>)
        ensures
            match count {
                Some(n) => self@.kretprobes.contains_key(addr) && n
                    == self@.kretprobes[addr].hit_count,
                None => !self@.kretprobes.contains_key(addr),
            },
    {
        broadcast use vstd::std_specs::btree::group_btree_axioms;

        match self.kretprobes.get(&addr) {
            Some(probe) => Some(probe.hit_count),
            None => None,
        }
    }

    /// The original instruction that the probe at `addr` displaced, if a
    /// probe occupies `addr`.
    pub fn saved_bytes(&self, addr: usize) -> (saved: Option<Vec<u8>>)
        ensures
            match saved {
                Some(bytes) => self@.kprobes.contains_key(addr) && bytes@
                    == self@.kprobes[addr].saved_bytes,
                None => !self@.kprobes.contains_key(addr),
            },
    {
        broadcast use vstd::std_specs::btree::group_btree_axioms;

        match self.kprobes.get(&addr) {
            Some(probe) => {
                let mut bytes: Vec<u8> = Vec::new();
                let mut i: usize = 0;
                while i < probe.saved_bytes.len()
                    invariant
                        i <= probe.saved_bytes.len(),
                        bytes@ == probe.saved_bytes@.take(i as int),
                    decreases probe.saved_bytes.len() - i,
                {
                    bytes.push(probe.saved_bytes[i]);
                    assert(probe.saved_bytes@.take(i + 1) =~= probe.saved_bytes@.take(
                        i as int,
                    ).push(probe.saved_bytes@[i as int]));
                    i = i + 1;
                }
                assert(probe.saved_bytes@.take(i as int) =~= probe.saved_bytes@);
                Some(bytes)
            },
            None => None,
        }
    }

    /// The number of calls under observation.
    pub fn open_instances(&self) -> (count: usize)
        ensures
            count == self@.instances.len(),
    {
        self.instances.len()
    }

    /// The address to which observed calls return.
    pub fn trampoline(&self) -> (addr: usize)
        ensures
            addr == self@.trampoline,
    {
        self.trampoline
    }

    /// The code memory, for reading.
    pub fn memory(&self) -> (mem: &CodeMemory<'a>)
        ensures
            mem@ == self@.code,
            mem.base() == self@.base,
    {
        &self.mem
    }
}

} // verus!
