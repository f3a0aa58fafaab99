use std::sync::{Arc, Mutex};

use kprobes::backend::{Backend, Handler, StepOver};
use kprobes::frame::TrapFrame;
use kprobes::memory::CodeMemory;
use kprobes::model::{HandlerRef, KProbeArgs, KRetProbeArgs, ProbeError, TrapOutcome};
use kprobes::registry::Probes;
use kprobes::{
    kprobes_breakpoint_handler, register_kprobe, register_kretprobe, unregister_kprobe,
    unregister_kretprobe,
};

const BASE: usize = 0x1000;
const TRAMPOLINE: usize = 0x2000;
const EBREAK: [u8; 4] = [0x73, 0x00, 0x10, 0x00];

type Log = Arc<Mutex<Vec<String>>>;

/// A handler that writes down its name, the trapped address and its user data.
struct Recorder {
    name: &'static str,
    log: Log,
}

impl Handler for Recorder {
    fn call(&self, frame: &mut TrapFrame, user_data: usize) -> isize {
        self.log.lock().unwrap().push(format!("{}@{:#x}/{}", self.name, frame.pc, user_data));
        0
    }
}

/// A handler that writes down the return address it sees.
struct ReturnSpy {
    name: &'static str,
    log: Log,
}

impl Handler for ReturnSpy {
    fn call(&self, frame: &mut TrapFrame, _user_data: usize) -> isize {
        self.log.lock().unwrap().push(format!("{} ra={:#x} sp={:#x}", self.name, frame.ra, frame.sp));
        0
    }
}

/// A backend that steps over the original instruction and counts the
/// synchronizations it is asked for.
struct Stepper {
    log: Log,
    syncs: Arc<Mutex<Vec<(usize, usize)>>>,
}

impl Backend for Stepper {
    fn single_step(&self, frame: &mut TrapFrame, code: &CodeMemory, addr: usize) {
        self.log.lock().unwrap().push(format!("step@{:#x} {:?}", addr, code.read(addr, 4)));
        frame.pc = addr + 4;
    }

    fn sync_icache(&self, addr: usize, len: usize) {
        self.syncs.lock().unwrap().push((addr, len));
    }
}

fn new_log() -> Log {
    Arc::new(Mutex::new(Vec::new()))
}

fn recorder(name: &'static str, log: &Log) -> HandlerRef {
    HandlerRef { handler: Arc::new(Recorder { name, log: log.clone() }) }
}

fn spy(name: &'static str, log: &Log) -> HandlerRef {
    HandlerRef { handler: Arc::new(ReturnSpy { name, log: log.clone() }) }
}

fn stepper(log: &Log) -> Stepper {
    Stepper { log: log.clone(), syncs: Arc::new(Mutex::new(Vec::new())) }
}

fn text() -> Vec<u8> {
    (0u8..64).collect()
}

fn entries(log: &Log) -> Vec<String> {
    log.lock().unwrap().clone()
}

fn count(log: &Log, prefix: &str) -> usize {
    log.lock().unwrap().iter().filter(|line| line.starts_with(prefix)).count()
}

#[test]
fn register_puts_trap_instruction_in_place() {
    let log = new_log();
    let mut bytes = text();
    let mut probes = Probes::new(CodeMemory::new(BASE, &mut bytes), stepper(&log), TRAMPOLINE);
    assert_eq!(probes.register_kprobe(0x1008, KProbeArgs::from(recorder("pre", &log))), Ok(()));
    assert_eq!(probes.memory().read(0x1008, 4), EBREAK.to_vec());
    assert_eq!(probes.memory().read(0x1004, 4), vec![4, 5, 6, 7]);
    assert_eq!(probes.memory().read(0x100c, 4), vec![12, 13, 14, 15]);
    assert_eq!(probes.saved_bytes(0x1008), Some(vec![8, 9, 10, 11]));
    assert!(probes.is_probed(0x1008));
    assert!(probes.has_kprobe(0x1008));
    assert!(!probes.has_kretprobe(0x1008));
    assert!(!probes.is_probed(0x100c));
    assert_eq!(probes.saved_bytes(0x100c), None);
}

#[test]
fn register_writes_through_to_the_borrowed_memory() {
    let log = new_log();
    let mut bytes = text();
    {
        let mut probes = Probes::new(CodeMemory::new(BASE, &mut bytes), stepper(&log), TRAMPOLINE);
        assert_eq!(probes.register_kprobe(0x1010, KProbeArgs::from(recorder("pre", &log))), Ok(()));
    }
    assert_eq!(&bytes[16..20], &EBREAK);
    assert_eq!(&bytes[12..16], &[12, 13, 14, 15]);
    assert_eq!(&bytes[20..24], &[20, 21, 22, 23]);
}

#[test]
fn second_registration_is_a_conflict() {
    let log = new_log();
    let mut bytes = text();
    let mut probes = Probes::new(CodeMemory::new(BASE, &mut bytes), stepper(&log), TRAMPOLINE);
    assert_eq!(probes.register_kprobe(0x1008, KProbeArgs::from(recorder("a", &log))), Ok(()));
    assert_eq!(
        probes.register_kprobe(0x1008, KProbeArgs::from(recorder("b", &log))),
        Err(ProbeError::Conflict)
    );
    assert_eq!(register_kprobe(&mut probes, 0x1008, KProbeArgs::from(recorder("c", &log))), None);
    assert_eq!(
        probes.register_kretprobe(0x1008, KRetProbeArgs::from(recorder("d", &log))),
        Err(ProbeError::Conflict)
    );
    // The refused registrations did not save the trap instruction as an original.
    assert_eq!(probes.saved_bytes(0x1008), Some(vec![8, 9, 10, 11]));
    assert_eq!(probes.memory().read(0x1008, 4), EBREAK.to_vec());
}

#[test]
fn return_probe_occupies_its_address() {
    let log = new_log();
    let mut bytes = text();
    let mut probes = Probes::new(CodeMemory::new(BASE, &mut bytes), stepper(&log), TRAMPOLINE);
    assert_eq!(probes.register_kretprobe(0x1008, KRetProbeArgs::from(recorder("x", &log))), Ok(()));
    assert_eq!(
        probes.register_kretprobe(0x1008, KRetProbeArgs::from(recorder("y", &log))),
        Err(ProbeError::Conflict)
    );
    assert_eq!(
        probes.register_kprobe(0x1008, KProbeArgs::from(recorder("z", &log))),
        Err(ProbeError::Conflict)
    );
    assert!(probes.is_probed(0x1008));
    assert!(probes.has_kretprobe(0x1008));
    assert!(!probes.has_kprobe(0x1008));
    assert_eq!(probes.hit_count(0x1008), Some(0));
    assert_eq!(probes.hit_count(0x100c), None);
}

#[test]
fn internal_probe_cannot_be_unregistered_on_its_own() {
    let log = new_log();
    let mut bytes = text();
    let mut probes = Probes::new(CodeMemory::new(BASE, &mut bytes), stepper(&log), TRAMPOLINE);
    assert_eq!(probes.register_kretprobe(0x1008, KRetProbeArgs::from(recorder("x", &log))), Ok(()));
    assert_eq!(probes.unregister_kprobe(0x1008), Err(ProbeError::NotFound));
    assert_eq!(unregister_kprobe(&mut probes, 0x1008), None);
    assert!(probes.has_kretprobe(0x1008));
    assert_eq!(probes.memory().read(0x1008, 4), EBREAK.to_vec());
    assert_eq!(probes.unregister_kretprobe(0x1008), Ok(()));
    assert!(!probes.is_probed(0x1008));
    assert_eq!(probes.memory().read(0x1008, 4), vec![8, 9, 10, 11]);
}

#[test]
fn register_then_unregister_restores_every_byte() {
    let log = new_log();
    let mut bytes = text();
    {
        let mut probes = Probes::new(CodeMemory::new(BASE, &mut bytes), stepper(&log), TRAMPOLINE);
        for addr in [0x1000usize, 0x1008, 0x103c] {
            assert_eq!(probes.register_kprobe(addr, KProbeArgs::from(recorder("p", &log))), Ok(()));
            assert_eq!(probes.memory().read(addr, 4), EBREAK.to_vec());
            assert_eq!(probes.unregister_kprobe(addr), Ok(()));
            assert_eq!(probes.memory().read(BASE, 64), text());
            assert!(!probes.is_probed(addr));
        }
    }
    assert_eq!(bytes, text());
}

#[test]
fn round_trip_keeps_other_probes_armed() {
    let log = new_log();
    let mut bytes = text();
    let mut probes = Probes::new(CodeMemory::new(BASE, &mut bytes), stepper(&log), TRAMPOLINE);
    assert_eq!(probes.register_kprobe(0x1004, KProbeArgs::from(recorder("a", &log))), Ok(()));
    assert_eq!(probes.register_kprobe(0x1008, KProbeArgs::from(recorder("b", &log))), Ok(()));
    assert_eq!(probes.unregister_kprobe(0x1008), Ok(()));
    assert_eq!(probes.memory().read(0x1004, 4), EBREAK.to_vec());
    assert_eq!(probes.memory().read(0x1008, 4), vec![8, 9, 10, 11]);
    assert_eq!(probes.unregister_kprobe(0x1004), Ok(()));
    assert_eq!(probes.memory().read(BASE, 64), text());
}

#[test]
fn original_trap_instruction_survives_a_round_trip() {
    let log = new_log();
    let mut bytes = text();
    bytes[8..12].copy_from_slice(&EBREAK);
    let before = bytes.clone();
    let mut probes = Probes::new(CodeMemory::new(BASE, &mut bytes), stepper(&log), TRAMPOLINE);
    assert_eq!(probes.register_kprobe(0x1008, KProbeArgs::from(recorder("p", &log))), Ok(()));
    assert_eq!(probes.saved_bytes(0x1008), Some(EBREAK.to_vec()));
    assert_eq!(probes.unregister_kprobe(0x1008), Ok(()));
    assert_eq!(probes.memory().read(BASE, 64), before);
}

#[test]
fn unaligned_address_is_refused() {
    let log = new_log();
    let mut bytes = text();
    let mut probes = Probes::new(CodeMemory::new(BASE, &mut bytes), stepper(&log), TRAMPOLINE);
    for addr in [0x1001usize, 0x1002, 0x1003, 0x1009, 0x2001, usize::MAX] {
        assert_eq!(
            probes.register_kprobe(addr, KProbeArgs::from(recorder("p", &log))),
            Err(ProbeError::Unaligned)
        );
        assert_eq!(
            probes.register_kretprobe(addr, KRetProbeArgs::from(recorder("p", &log))),
            Err(ProbeError::Unaligned)
        );
    }
    assert_eq!(probes.memory().read(BASE, 64), text());
}

#[test]
fn address_outside_the_memory_is_refused() {
    let log = new_log();
    let mut bytes = text();
    let mut probes = Probes::new(CodeMemory::new(BASE, &mut bytes), stepper(&log), TRAMPOLINE);
    for addr in [0usize, 0x0ffc, 0x1040, 0x2000, usize::MAX - 3] {
        assert_eq!(
            probes.register_kprobe(addr, KProbeArgs::from(recorder("p", &log))),
            Err(ProbeError::OutOfRange)
        );
        assert_eq!(register_kretprobe(&mut probes, addr, KRetProbeArgs::from(recorder("p", &log))), None);
    }
    // The last instruction of the window can be probed.
    assert_eq!(probes.register_kprobe(0x103c, KProbeArgs::from(recorder("p", &log))), Ok(()));
    assert_eq!(probes.memory().read(BASE, 64)[..60], text()[..60]);
}

#[test]
fn window_shorter_than_an_instruction_takes_no_probe() {
    let log = new_log();
    let mut bytes = vec![1u8, 2, 3];
    let mut probes = Probes::new(CodeMemory::new(0x1000, &mut bytes), stepper(&log), TRAMPOLINE);
    assert_eq!(
        probes.register_kprobe(0x1000, KProbeArgs::from(recorder("p", &log))),
        Err(ProbeError::OutOfRange)
    );
}

#[test]
fn unregistering_what_is_not_there_is_not_found() {
    let log = new_log();
    let mut bytes = text();
    let mut probes = Probes::new(CodeMemory::new(BASE, &mut bytes), stepper(&log), TRAMPOLINE);
    assert_eq!(probes.unregister_kprobe(0x1008), Err(ProbeError::NotFound));
    assert_eq!(probes.unregister_kretprobe(0x1008), Err(ProbeError::NotFound));
    assert_eq!(unregister_kprobe(&mut probes, 0x1008), None);
    assert_eq!(unregister_kretprobe(&mut probes, 0x1008), None);
    assert_eq!(probes.register_kprobe(0x1008, KProbeArgs::from(recorder("p", &log))), Ok(()));
    assert_eq!(probes.unregister_kretprobe(0x1008), Err(ProbeError::NotFound));
    assert_eq!(probes.unregister_kprobe(0x1008), Ok(()));
    assert_eq!(probes.unregister_kprobe(0x1008), Err(ProbeError::NotFound));
}

#[test]
fn free_functions_report_success_as_some() {
    let log = new_log();
    let mut bytes = text();
    let mut probes = Probes::new(CodeMemory::new(BASE, &mut bytes), stepper(&log), TRAMPOLINE);
    assert_eq!(register_kprobe(&mut probes, 0x1008, KProbeArgs::from(recorder("p", &log))), Some(()));
    assert_eq!(register_kretprobe(&mut probes, 0x1010, KRetProbeArgs::from(recorder("r", &log))), Some(()));
    assert!(probes.has_kprobe(0x1008));
    assert!(probes.has_kretprobe(0x1010));
    assert_eq!(unregister_kprobe(&mut probes, 0x1008), Some(()));
    assert_eq!(unregister_kretprobe(&mut probes, 0x1010), Some(()));
    assert_eq!(probes.memory().read(BASE, 64), text());
}

#[test]
fn argument_defaults() {
    let log = new_log();
    let kargs = KProbeArgs::from(recorder("p", &log));
    assert!(kargs.post_handler.is_none());
    assert_eq!(kargs.user_data, 0);
    let rargs = KRetProbeArgs::from(recorder("r", &log));
    assert!(rargs.entry_handler.is_none());
    assert_eq!(rargs.limit, None);
    assert_eq!(rargs.user_data, 0);
    let mut frame = TrapFrame::new(1, 2, 3);
    kargs.pre_handler.handler.call(&mut frame, 5);
    rargs.exit_handler.handler.call(&mut frame, 6);
    assert_eq!(entries(&log), vec!["p@0x1/5".to_string(), "r@0x1/6".to_string()]);
}

#[test]
fn handlers_run_around_the_original_instruction() {
    let log = new_log();
    let mut bytes = text();
    let mut probes = Probes::new(CodeMemory::new(BASE, &mut bytes), stepper(&log), TRAMPOLINE);
    let mut args = KProbeArgs::from(recorder("pre", &log));
    args.post_handler = Some(recorder("post", &log));
    args.user_data = 7;
    assert_eq!(probes.register_kprobe(0x1008, args), Ok(()));
    let mut frame = TrapFrame::new(0x1008, 0x1234, 0x8000);
    assert_eq!(probes.dispatch(&mut frame), TrapOutcome::Handled);
    assert_eq!(
        entries(&log),
        vec![
            "pre@0x1008/7".to_string(),
            "step@0x1008 [8, 9, 10, 11]".to_string(),
            "post@0x100c/7".to_string(),
        ]
    );
    assert_eq!(frame, TrapFrame::new(0x100c, 0x1234, 0x8000));
    // The probe is armed again.
    assert_eq!(probes.memory().read(0x1008, 4), EBREAK.to_vec());
    assert_eq!(probes.dispatch(&mut TrapFrame::new(0x1008, 0, 0)), TrapOutcome::Handled);
    assert_eq!(count(&log, "pre@"), 2);
    assert_eq!(count(&log, "post@"), 2);
}

#[test]
fn probe_without_post_handler() {
    let log = new_log();
    let mut bytes = text();
    let mut probes = Probes::new(CodeMemory::new(BASE, &mut bytes), stepper(&log), TRAMPOLINE);
    assert_eq!(probes.register_kprobe(0x1000, KProbeArgs::from(recorder("pre", &log))), Ok(()));
    let mut frame = TrapFrame::new(0x1000, 1, 2);
    kprobes_breakpoint_handler(&mut probes, &mut frame);
    assert_eq!(
        entries(&log),
        vec!["pre@0x1000/0".to_string(), "step@0x1000 [0, 1, 2, 3]".to_string()]
    );
    assert_eq!(frame.pc, 0x1004);
}

#[test]
fn every_patch_is_synchronized() {
    let log = new_log();
    let backend = stepper(&log);
    let syncs = backend.syncs.clone();
    let mut bytes = text();
    let mut probes = Probes::new(CodeMemory::new(BASE, &mut bytes), backend, TRAMPOLINE);
    assert_eq!(probes.register_kprobe(0x1001, KProbeArgs::from(recorder("p", &log))), Err(ProbeError::Unaligned));
    assert!(syncs.lock().unwrap().is_empty());
    assert_eq!(probes.register_kprobe(0x1008, KProbeArgs::from(recorder("p", &log))), Ok(()));
    assert_eq!(syncs.lock().unwrap().clone(), vec![(0x1008, 4)]);
    assert_eq!(probes.dispatch(&mut TrapFrame::new(0x1008, 0, 0)), TrapOutcome::Handled);
    assert_eq!(syncs.lock().unwrap().clone(), vec![(0x1008, 4), (0x1008, 4), (0x1008, 4)]);
    assert_eq!(probes.unregister_kprobe(0x1008), Ok(()));
    assert_eq!(syncs.lock().unwrap().len(), 4);
}

#[test]
fn unknown_trap_is_not_handled() {
    let log = new_log();
    let mut bytes = text();
    let mut probes = Probes::new(CodeMemory::new(BASE, &mut bytes), stepper(&log), TRAMPOLINE);
    assert_eq!(probes.register_kprobe(0x1008, KProbeArgs::from(recorder("p", &log))), Ok(()));
    assert_eq!(probes.register_kretprobe(0x1010, KRetProbeArgs::from(recorder("r", &log))), Ok(()));
    for pc in [0usize, 0x1004, 0x100c, 0x1014, 0x3000] {
        let mut frame = TrapFrame::new(pc, 0x1234, 0x8000);
        assert_eq!(probes.dispatch(&mut frame), TrapOutcome::NotHandled);
        assert_eq!(frame, TrapFrame::new(pc, 0x1234, 0x8000));
        assert_eq!(probes.dispatch_kprobe(&mut frame), TrapOutcome::NotHandled);
        assert_eq!(probes.dispatch_kretprobe(&mut frame), Ok(TrapOutcome::NotHandled));
    }
    assert!(entries(&log).is_empty());
    assert_eq!(probes.open_instances(), 0);
    assert_eq!(probes.memory().read(0x1008, 4), EBREAK.to_vec());
}

#[test]
fn trampoline_trap_without_open_call_is_orphaned() {
    let log = new_log();
    let mut bytes = text();
    let mut probes = Probes::new(CodeMemory::new(BASE, &mut bytes), stepper(&log), TRAMPOLINE);
    assert_eq!(probes.trampoline(), TRAMPOLINE);
    let mut frame = TrapFrame::new(TRAMPOLINE, 0x1234, 0x8000);
    assert_eq!(probes.dispatch_kretprobe(&mut frame), Err(ProbeError::Orphaned));
    assert_eq!(probes.dispatch(&mut frame), TrapOutcome::NotHandled);
    assert_eq!(frame, TrapFrame::new(TRAMPOLINE, 0x1234, 0x8000));
}

#[test]
fn return_probe_redirects_and_restores_the_return() {
    let log = new_log();
    let mut bytes = text();
    let mut probes = Probes::new(CodeMemory::new(BASE, &mut bytes), stepper(&log), TRAMPOLINE);
    let mut args = KRetProbeArgs::from(spy("exit", &log));
    args.entry_handler = Some(spy("entry", &log));
    assert_eq!(probes.register_kretprobe(0x1010, args), Ok(()));

    let mut frame = TrapFrame::new(0x1010, 0x1030, 0x8000);
    assert_eq!(probes.dispatch(&mut frame), TrapOutcome::Handled);
    assert_eq!(frame, TrapFrame::new(0x1014, TRAMPOLINE, 0x8000));
    assert_eq!(probes.open_instances(), 1);
    assert_eq!(probes.hit_count(0x1010), Some(0));

    // The function runs and returns to where its link register points.
    let mut frame = TrapFrame::new(frame.ra, frame.ra, 0x8000);
    assert_eq!(probes.dispatch(&mut frame), TrapOutcome::Handled);
    assert_eq!(frame.pc, 0x1030);
    assert_eq!(probes.open_instances(), 0);
    assert_eq!(probes.hit_count(0x1010), Some(1));
    assert_eq!(
        entries(&log),
        vec![
            "entry ra=0x2000 sp=0x8000".to_string(),
            "step@0x1010 [16, 17, 18, 19]".to_string(),
            "exit ra=0x2000 sp=0x8000".to_string(),
        ]
    );
}

#[test]
fn recursive_calls_return_to_their_own_callers() {
    let log = new_log();
    let mut bytes = text();
    let mut probes = Probes::new(CodeMemory::new(BASE, &mut bytes), stepper(&log), TRAMPOLINE);
    let mut args = KRetProbeArgs::from(recorder("exit", &log));
    args.entry_handler = Some(recorder("entry", &log));
    assert_eq!(probes.register_kretprobe(0x1010, args), Ok(()));

    // The outer call comes from 0x1030; the function calls itself from 0x1020.
    let calls = [(0x1030usize, 0x8000usize), (0x1020, 0x7fc0), (0x1020, 0x7f80)];
    for (ra, sp) in calls {
        let mut frame = TrapFrame::new(0x1010, ra, sp);
        assert_eq!(probes.dispatch(&mut frame), TrapOutcome::Handled);
        assert_eq!(frame.ra, TRAMPOLINE);
        assert_eq!(frame.sp, sp);
    }
    assert_eq!(probes.open_instances(), 3);
    assert_eq!(count(&log, "entry@"), 3);
    assert_eq!(count(&log, "exit@"), 0);

    for (depth, (ra, sp)) in calls.iter().rev().enumerate() {
        let mut frame = TrapFrame::new(TRAMPOLINE, TRAMPOLINE, *sp);
        assert_eq!(probes.dispatch(&mut frame), TrapOutcome::Handled);
        assert_eq!(frame.pc, *ra);
        assert_eq!(probes.open_instances(), 2 - depth);
    }
    assert_eq!(count(&log, "entry@"), 3);
    assert_eq!(count(&log, "exit@"), 3);
    assert_eq!(probes.hit_count(0x1010), Some(3));
    // Nothing is left to return to.
    assert_eq!(probes.dispatch(&mut TrapFrame::new(TRAMPOLINE, 0, 0x8000)), TrapOutcome::NotHandled);
}

#[test]
fn instances_with_one_identity_close_last_in_first_out() {
    let log = new_log();
    let mut bytes = text();
    let mut probes = Probes::new(CodeMemory::new(BASE, &mut bytes), stepper(&log), TRAMPOLINE);
    assert_eq!(probes.register_kretprobe(0x1010, KRetProbeArgs::from(recorder("f", &log))), Ok(()));
    assert_eq!(probes.register_kretprobe(0x1020, KRetProbeArgs::from(recorder("g", &log))), Ok(()));
    assert_eq!(probes.dispatch(&mut TrapFrame::new(0x1010, 0x1111, 0x8000)), TrapOutcome::Handled);
    assert_eq!(probes.dispatch(&mut TrapFrame::new(0x1020, 0x2222, 0x8000)), TrapOutcome::Handled);
    assert_eq!(probes.dispatch(&mut TrapFrame::new(0x1010, 0x3333, 0x7000)), TrapOutcome::Handled);

    let mut frame = TrapFrame::new(TRAMPOLINE, 0, 0x8000);
    assert_eq!(probes.dispatch(&mut frame), TrapOutcome::Handled);
    assert_eq!(frame.pc, 0x2222);
    let mut frame = TrapFrame::new(TRAMPOLINE, 0, 0x8000);
    assert_eq!(probes.dispatch(&mut frame), TrapOutcome::Handled);
    assert_eq!(frame.pc, 0x1111);
    let mut frame = TrapFrame::new(TRAMPOLINE, 0, 0x7000);
    assert_eq!(probes.dispatch(&mut frame), TrapOutcome::Handled);
    assert_eq!(frame.pc, 0x3333);
    assert_eq!(probes.hit_count(0x1010), Some(2));
    assert_eq!(probes.hit_count(0x1020), Some(1));
    assert_eq!(
        entries(&log).into_iter().filter(|l| !l.starts_with("step")).collect::<Vec<_>>(),
        vec!["g@0x2000/0".to_string(), "f@0x2000/0".to_string(), "f@0x2000/0".to_string()]
    );
}

#[test]
fn limit_retires_the_probe() {
    let log = new_log();
    let mut bytes = text();
    let mut probes = Probes::new(CodeMemory::new(BASE, &mut bytes), stepper(&log), TRAMPOLINE);
    let mut args = KRetProbeArgs::from(recorder("exit", &log));
    args.entry_handler = Some(recorder("entry", &log));
    args.limit = Some(2);
    args.user_data = 9;
    assert_eq!(probes.register_kretprobe(0x1010, args), Ok(()));

    for call in 0..5usize {
        let caller = 0x1020 + 4 * call;
        let mut frame = TrapFrame::new(0x1010, caller, 0x8000);
        assert_eq!(probes.dispatch(&mut frame), TrapOutcome::Handled);
        assert_eq!(frame.pc, 0x1014);
        if call < 2 {
            assert_eq!(frame.ra, TRAMPOLINE);
            assert_eq!(probes.open_instances(), 1);
            let mut back = TrapFrame::new(frame.ra, frame.ra, 0x8000);
            assert_eq!(probes.dispatch(&mut back), TrapOutcome::Handled);
            assert_eq!(back.pc, caller);
        } else {
            // Unobserved: the call returns straight to its caller.
            assert_eq!(frame.ra, caller);
            assert_eq!(probes.open_instances(), 0);
        }
    }
    assert_eq!(count(&log, "exit@"), 2);
    assert_eq!(count(&log, "entry@"), 2);
    assert_eq!(count(&log, "step@"), 5);
    assert_eq!(probes.hit_count(0x1010), Some(2));
    assert!(probes.has_kretprobe(0x1010));
}

#[test]
fn limit_of_zero_never_observes() {
    let log = new_log();
    let mut bytes = text();
    let mut probes = Probes::new(CodeMemory::new(BASE, &mut bytes), stepper(&log), TRAMPOLINE);
    let mut args = KRetProbeArgs::from(recorder("exit", &log));
    args.limit = Some(0);
    assert_eq!(probes.register_kretprobe(0x1010, args), Ok(()));
    let mut frame = TrapFrame::new(0x1010, 0x1030, 0x8000);
    assert_eq!(probes.dispatch(&mut frame), TrapOutcome::Handled);
    assert_eq!(frame, TrapFrame::new(0x1014, 0x1030, 0x8000));
    assert_eq!(probes.open_instances(), 0);
}

#[test]
fn open_instances_complete_after_the_limit_is_reached() {
    let log = new_log();
    let mut bytes = text();
    let mut probes = Probes::new(CodeMemory::new(BASE, &mut bytes), stepper(&log), TRAMPOLINE);
    let mut args = KRetProbeArgs::from(recorder("exit", &log));
    args.limit = Some(1);
    assert_eq!(probes.register_kretprobe(0x1010, args), Ok(()));
    assert_eq!(probes.dispatch(&mut TrapFrame::new(0x1010, 0x1030, 0x8000)), TrapOutcome::Handled);
    assert_eq!(probes.dispatch(&mut TrapFrame::new(0x1010, 0x1020, 0x7000)), TrapOutcome::Handled);
    assert_eq!(probes.open_instances(), 2);
    let mut inner = TrapFrame::new(TRAMPOLINE, 0, 0x7000);
    assert_eq!(probes.dispatch(&mut inner), TrapOutcome::Handled);
    assert_eq!(inner.pc, 0x1020);
    let mut outer = TrapFrame::new(TRAMPOLINE, 0, 0x8000);
    assert_eq!(probes.dispatch(&mut outer), TrapOutcome::Handled);
    assert_eq!(outer.pc, 0x1030);
    assert_eq!(probes.hit_count(0x1010), Some(2));
    assert_eq!(count(&log, "exit@"), 2);
}

#[test]
fn unregister_in_flight_orphans_the_call() {
    let log = new_log();
    let mut bytes = text();
    let mut probes = Probes::new(CodeMemory::new(BASE, &mut bytes), stepper(&log), TRAMPOLINE);
    assert_eq!(probes.register_kretprobe(0x1010, KRetProbeArgs::from(recorder("f", &log))), Ok(()));
    assert_eq!(probes.register_kretprobe(0x1020, KRetProbeArgs::from(recorder("g", &log))), Ok(()));
    assert_eq!(probes.dispatch(&mut TrapFrame::new(0x1010, 0x1111, 0x8000)), TrapOutcome::Handled);
    assert_eq!(probes.dispatch(&mut TrapFrame::new(0x1020, 0x2222, 0x7000)), TrapOutcome::Handled);
    assert_eq!(probes.open_instances(), 2);

    assert_eq!(probes.unregister_kretprobe(0x1010), Ok(()));
    assert_eq!(probes.open_instances(), 1);
    assert_eq!(probes.memory().read(0x1010, 4), vec![16, 17, 18, 19]);

    // The call observed by the other probe still completes.
    let mut inner = TrapFrame::new(TRAMPOLINE, 0, 0x7000);
    assert_eq!(probes.dispatch(&mut inner), TrapOutcome::Handled);
    assert_eq!(inner.pc, 0x2222);

    // The orphaned call traps at the trampoline and is not served.
    let mut outer = TrapFrame::new(TRAMPOLINE, TRAMPOLINE, 0x8000);
    assert_eq!(probes.dispatch_kretprobe(&mut outer), Err(ProbeError::Orphaned));
    assert_eq!(probes.dispatch(&mut outer), TrapOutcome::NotHandled);
    assert_eq!(outer, TrapFrame::new(TRAMPOLINE, TRAMPOLINE, 0x8000));
    assert_eq!(count(&log, "f@"), 0);
    assert_eq!(count(&log, "g@"), 1);
}

#[test]
fn new_probe_at_the_same_address_does_not_adopt_orphans() {
    let log = new_log();
    let mut bytes = text();
    let mut probes = Probes::new(CodeMemory::new(BASE, &mut bytes), stepper(&log), TRAMPOLINE);
    assert_eq!(probes.register_kretprobe(0x1010, KRetProbeArgs::from(recorder("old", &log))), Ok(()));
    assert_eq!(probes.dispatch(&mut TrapFrame::new(0x1010, 0x1111, 0x8000)), TrapOutcome::Handled);
    assert_eq!(probes.unregister_kretprobe(0x1010), Ok(()));
    assert_eq!(probes.register_kretprobe(0x1010, KRetProbeArgs::from(recorder("new", &log))), Ok(()));
    assert_eq!(probes.dispatch(&mut TrapFrame::new(TRAMPOLINE, 0, 0x8000)), TrapOutcome::NotHandled);
    assert_eq!(probes.hit_count(0x1010), Some(0));
    assert_eq!(count(&log, "old@"), 0);
    assert_eq!(count(&log, "new@"), 0);
}

#[test]
fn straight_line_backend_resumes_after_the_probe() {
    let log = new_log();
    let mut bytes = text();
    let mut probes = Probes::new(CodeMemory::new(BASE, &mut bytes), StepOver, TRAMPOLINE);
    assert_eq!(probes.register_kprobe(0x1008, KProbeArgs::from(recorder("pre", &log))), Ok(()));
    assert_eq!(probes.register_kretprobe(0x1010, KRetProbeArgs::from(recorder("exit", &log))), Ok(()));
    let mut frame = TrapFrame::new(0x1008, 0x1234, 0x8000);
    assert_eq!(probes.dispatch(&mut frame), TrapOutcome::Handled);
    assert_eq!(frame, TrapFrame::new(0x100c, 0x1234, 0x8000));
    let mut frame = TrapFrame::new(0x1010, 0x1234, 0x8000);
    assert_eq!(probes.dispatch(&mut frame), TrapOutcome::Handled);
    assert_eq!(frame, TrapFrame::new(0x1014, TRAMPOLINE, 0x8000));
    let mut frame = TrapFrame::new(TRAMPOLINE, TRAMPOLINE, 0x8000);
    assert_eq!(probes.dispatch(&mut frame), TrapOutcome::Handled);
    assert_eq!(frame, TrapFrame::new(0x1234, TRAMPOLINE, 0x8000));
    assert_eq!(entries(&log), vec!["pre@0x1008/0".to_string(), "exit@0x2000/0".to_string()]);
}

#[test]
fn breakpoint_registry_is_asked_first() {
    let log = new_log();
    let mut bytes = text();
    // The trampoline lies inside the patchable window and carries a probe itself.
    let mut probes = Probes::new(CodeMemory::new(BASE, &mut bytes), stepper(&log), 0x1030);
    assert_eq!(probes.register_kretprobe(0x1010, KRetProbeArgs::from(recorder("exit", &log))), Ok(()));
    assert_eq!(probes.register_kprobe(0x1030, KProbeArgs::from(recorder("pre", &log))), Ok(()));
    assert_eq!(probes.dispatch(&mut TrapFrame::new(0x1010, 0x1111, 0x8000)), TrapOutcome::Handled);
    let mut frame = TrapFrame::new(0x1030, 0x1030, 0x8000);
    assert_eq!(probes.dispatch(&mut frame), TrapOutcome::Handled);
    assert_eq!(count(&log, "pre@"), 1);
    assert_eq!(count(&log, "exit@"), 0);
    assert_eq!(probes.open_instances(), 1);
    assert_eq!(frame.pc, 0x1034);
}
