use wasmedge_asyncify::bridge::{
    report_is_normal, AsyncVM, BridgeCheckpoint, CallBridge, CountingHost, GuestProgram, HostCall,
    HostImport, PendingSlot, PollOutcome, ScriptHost, SuspendState,
};
use wasmedge_asyncify::types::WasmVal;

fn script(calls: Vec<HostCall>) -> HostImport {
    let n = calls.len();
    HostImport::Script(ScriptHost {
        script: calls,
        calls: vec![0; n],
    })
}

// Scenario: one asynchronous "sleep one unit" import; the first poll reports
// not complete, the second (after the sleep elapsed) returns the guest's
// final value unchanged.
#[test]
fn sleep_import_two_polls() {
    let program = GuestProgram {
        n_imports: 1,
        final_value: 42,
    };
    let mut host = script(vec![HostCall::Deferred { polls: 1, value: 7 }]);
    let mut bridge = CallBridge::new();

    let first = bridge.poll(&program, &mut host);
    assert_eq!(first, PollOutcome::Pending);

    let second = bridge.poll(&program, &mut host);
    assert_eq!(second, PollOutcome::Ready(42));
}

// Replay determinism: a run with several suspensions still starts every
// import's computation exactly once.
#[test]
fn replay_starts_each_import_once() {
    let program = GuestProgram {
        n_imports: 4,
        final_value: 5,
    };
    let mut host = script(vec![
        HostCall::Immediate(1),
        HostCall::Deferred { polls: 3, value: 2 },
        HostCall::Immediate(3),
        HostCall::Deferred { polls: 1, value: 4 },
    ]);
    let mut bridge = CallBridge::new();
    let r = bridge.call_until_complete(&program, &mut host);
    assert_eq!(r, PollOutcome::Ready(5));
    match host {
        HostImport::Script(s) => assert_eq!(s.calls, vec![1, 1, 1, 1]),
        _ => unreachable!(),
    }
}

// Scenario: the guest counts to five; the import yields voluntarily exactly
// when the counter stands at two on a non-resumed run. After restoring the
// checkpoint with the persisted counter and the resume flag set, the next
// import call increments to three and the guest runs to completion without
// re-triggering the yield.
#[test]
fn counting_guest_yields_and_resumes() {
    let program = GuestProgram {
        n_imports: 5,
        final_value: 0,
    };
    let mut host = HostImport::Counting(CountingHost {
        times: 0,
        is_resume: false,
        yield_at: 2,
    });
    let mut bridge = CallBridge::new();

    // drive until the voluntary yield
    let mut outcome = bridge.poll(&program, &mut host);
    while outcome == PollOutcome::Pending {
        outcome = bridge.poll(&program, &mut host);
    }
    assert_eq!(outcome, PollOutcome::Yielded);
    assert_eq!(bridge.progress, 2);
    let persisted = match &host {
        HostImport::Counting(c) => *c,
        _ => unreachable!(),
    };
    assert_eq!(persisted.times, 2);

    // persist and restore in a "new process"
    let checkpoint: BridgeCheckpoint = bridge.capture();
    let mut resumed = CallBridge::restore(&checkpoint);
    assert_eq!(resumed.progress, 2);
    assert_eq!(resumed.suspend, SuspendState::Unwinding);
    assert_eq!(resumed.slot, PendingSlot::Empty);

    let mut resumed_host = HostImport::Counting(CountingHost {
        times: persisted.times,
        is_resume: true,
        yield_at: persisted.yield_at,
    });
    let mut outcome = resumed.poll(&program, &mut resumed_host);
    while outcome == PollOutcome::Pending {
        outcome = resumed.poll(&program, &mut resumed_host);
    }
    assert_eq!(outcome, PollOutcome::Ready(0));
    match resumed_host {
        HostImport::Counting(c) => assert_eq!(c.times, 5),
        _ => unreachable!(),
    }
}

// Voluntary yield idempotence: resuming while the predicate still asks for
// a yield re-yields at once without any host-import side effect; resuming
// once the predicate no longer asks completes the call.
#[test]
fn voluntary_yield_idempotent() {
    let program = GuestProgram {
        n_imports: 3,
        final_value: 9,
    };
    let mut host = HostImport::Counting(CountingHost {
        times: 0,
        is_resume: false,
        yield_at: 1,
    });
    let mut bridge = CallBridge::new();
    let mut outcome = bridge.poll(&program, &mut host);
    while outcome == PollOutcome::Pending {
        outcome = bridge.poll(&program, &mut host);
    }
    assert_eq!(outcome, PollOutcome::Yielded);

    // restore, but with the predicate unchanged and still true
    let checkpoint = bridge.capture();
    let mut again = CallBridge::restore(&checkpoint);
    let before = host.clone();
    let re = again.poll(&program, &mut host);
    assert_eq!(re, PollOutcome::Yielded);
    assert_eq!(host, before, "re-yield must not perform host work");
    assert_eq!(again.progress, 1);

    // restore with the predicate now false: the call completes
    let mut done = CallBridge::restore(&checkpoint);
    let mut resumed_host = HostImport::Counting(CountingHost {
        times: 1,
        is_resume: true,
        yield_at: 1,
    });
    let mut outcome = done.poll(&program, &mut resumed_host);
    while outcome == PollOutcome::Pending {
        outcome = done.poll(&program, &mut resumed_host);
    }
    assert_eq!(outcome, PollOutcome::Ready(9));
}

// A failing host import surfaces as the call's failure and the instance is
// left out of the suspension machinery.
#[test]
fn failing_import_surfaces() {
    let program = GuestProgram {
        n_imports: 2,
        final_value: 1,
    };
    let mut host = script(vec![HostCall::Immediate(1), HostCall::Fail]);
    let mut bridge = CallBridge::new();
    assert_eq!(bridge.poll(&program, &mut host), PollOutcome::Failed);
    assert_eq!(bridge.suspend, SuspendState::Normal);
    assert_eq!(bridge.slot, PendingSlot::Empty);
}

// The suspension state machine: a rewind request is a no-op when normal,
// and a guest call may only be issued when normal or rewinding.
#[test]
fn suspend_state_transitions() {
    assert_eq!(SuspendState::Normal.begin_rewind(), SuspendState::Normal);
    assert_eq!(SuspendState::Unwinding.begin_rewind(), SuspendState::Rewinding);
    assert_eq!(SuspendState::Rewinding.begin_unwind(), SuspendState::Unwinding);
    assert_eq!(SuspendState::Unwinding.stop(), SuspendState::Normal);
    assert!(SuspendState::Normal.may_invoke());
    assert!(SuspendState::Rewinding.may_invoke());
    assert!(!SuspendState::Unwinding.may_invoke());
}

// A guest with no imports completes on the first poll.
#[test]
fn empty_program_ready_at_once() {
    let program = GuestProgram {
        n_imports: 0,
        final_value: -3,
    };
    let mut host = script(vec![]);
    let mut bridge = CallBridge::new();
    assert_eq!(bridge.poll(&program, &mut host), PollOutcome::Ready(-3));
}

// Determinism across a restore: sites completed before the checkpoint are
// never re-invoked afterwards; the remaining sites run exactly once.
#[test]
fn restored_run_skips_completed_sites() {
    let program = GuestProgram {
        n_imports: 3,
        final_value: 8,
    };
    let mut host = script(vec![
        HostCall::Immediate(0),
        HostCall::Deferred { polls: 2, value: 0 },
        HostCall::Immediate(0),
    ]);
    let mut bridge = CallBridge::new();
    assert_eq!(bridge.poll(&program, &mut host), PollOutcome::Pending);

    // checkpoint mid-suspension and resume in a fresh process with a fresh
    // call ledger
    let checkpoint = bridge.capture();
    let mut resumed = CallBridge::restore(&checkpoint);
    let mut resumed_host = script(vec![
        HostCall::Immediate(0),
        HostCall::Deferred { polls: 2, value: 0 },
        HostCall::Immediate(0),
    ]);
    let r = resumed.call_until_complete(&program, &mut resumed_host);
    assert_eq!(r, PollOutcome::Ready(8));
    match resumed_host {
        // site 0 completed before the checkpoint; the restored process
        // starts only the remaining sites
        HostImport::Script(s) => assert_eq!(s.calls, vec![0, 1, 1]),
        _ => unreachable!(),
    }
}

// Decoding the guest's reported suspension state: the first value is the
// state counter, zero when normal; an unusable report counts as normal.
#[test]
fn report_state_decode() {
    assert!(report_is_normal(&vec![WasmVal::I32(0)]));
    assert!(!report_is_normal(&vec![WasmVal::I32(1)]));
    assert!(!report_is_normal(&vec![WasmVal::I32(2)]));
    assert!(report_is_normal(&vec![]));
    assert!(report_is_normal(&vec![WasmVal::I64(1)]));
}

// A host import may raise the voluntary yield through the runtime
// capability the bridge implements.
#[test]
fn yield_now_raises_the_yield() {
    let mut bridge = CallBridge::new();
    bridge.yield_now().unwrap();
    assert_eq!(bridge.slot, PendingSlot::YieldMarker);
    assert_eq!(bridge.suspend, SuspendState::Unwinding);
}
