//! The synchronous-to-asynchronous call bridge: driving one guest
//! entry-point call to completion across many scheduler polls.
//!
//! The guest has no native coroutines; when a host import cannot complete at
//! once, the guest unwinds its call stack to the top, the bridge stashes the
//! pending computation, and a later poll replays the stack back to the same
//! call site. The critical correctness rule lives in the import wrapper: on
//! replay, a stashed continuation is resumed rather than the host function
//! being invoked again, so no import's side effect ever runs twice. A
//! voluntary yield is a first-class outcome distinct from both success and
//! failure: the call will not resolve until a snapshot/restore cycle drives
//! a new call sequence.
//!
//! The engine's run-the-guest primitive works over plain values here: a
//! guest entry point is a sequence of import call sites followed by a
//! return; the host's behavior at each site is itself plain data. The
//! embedder performs the real awaiting and I/O and hands the outcomes in.

use vstd::prelude::*;

use crate::types::WasmVal;

verus! {

/// The guest-side suspension state, as reported by the instrumentation's
/// exported primitives.
#[derive(Clone, Copy, Debug, PartialEq, Eq, Structural)]
pub enum SuspendState {
    /// Executing normally.
    Normal,
    /// Unwinding the call stack out to the top-level entry.
    Unwinding,
    /// Replaying previously unwound frames back to the suspension point.
    Rewinding,
}

impl SuspendState {
    /// Begin replaying unwound frames. A no-op when already normal: the
    /// guest's own bookkeeping ignores a rewind request in that state, which
    /// is why a poll may always issue it.
    pub fn begin_rewind(self) -> (r: Self)
        ensures
            r == (if self is Normal {
                SuspendState::Normal
            } else {
                SuspendState::Rewinding
            }),
    {
        match self {
            SuspendState::Normal => SuspendState::Normal,
            _ => SuspendState::Rewinding,
        }
    }

    /// Begin unwinding the call stack.
    pub fn begin_unwind(self) -> (r: Self)
        ensures
            r is Unwinding,
    {
        SuspendState::Unwinding
    }

    /// Stop unwinding or replaying and resume normal execution.
    pub fn stop(self) -> (r: Self)
        ensures
            r is Normal,
    {
        SuspendState::Normal
    }

    /// Whether the host may invoke a guest call in this state: only when the
    /// guest is normal or replaying; invoking mid-unwind is a programming
    /// error.
    pub fn may_invoke(self) -> (r: bool)
        ensures
            r == (self is Normal || self is Rewinding),
    {
        match self {
            SuspendState::Unwinding => false,
            _ => true,
        }
    }
}

/// What the guest's `report state` primitive said: the first returned
/// value carries the instrumentation's state counter, zero when execution
/// is normal. A report without a usable first value counts as normal.
pub open spec fn spec_report_is_normal(report: Seq<WasmVal>) -> bool {
    if report.len() >= 1 {
        match report[0] {
            WasmVal::I32(i) => i == 0,
            _ => true,
        }
    } else {
        true
    }
}

/// Decode the guest's `report state` result: is the guest executing
/// normally, or is it mid-unwind or mid-replay?
pub fn report_is_normal(report: &Vec<WasmVal>) -> (r: bool)
    ensures
        r == spec_report_is_normal(report@),
{
    if report.len() >= 1 {
        match report[0] {
            WasmVal::I32(i) => i == 0,
            _ => true,
        }
    } else {
        true
    }
}

/// An executing guest as a host import sees it: the one capability an
/// import implementation may demand of the runtime is to request a
/// voluntary suspension. The bridge implements it by stashing the yield
/// marker and unwinding; an embedder's own driver may implement it too.
pub trait AsyncVM {
    /// Request a voluntary suspension of the current call.
    fn yield_now(&mut self) -> Result<(), crate::errno::Errno>;
}

/// A guest entry point, seen as what the bridge must drive: a number of
/// asynchronous import call sites executed in order, then a return value.
#[derive(Clone, Copy, Debug, PartialEq, Eq, Structural)]
pub struct GuestProgram {
    /// How many asynchronous import calls the entry point makes.
    pub n_imports: usize,
    /// The value the entry point returns once every import completed.
    pub final_value: i32,
}

/// What one host import invocation produces.
#[derive(Clone, Copy, Debug, PartialEq, Eq, Structural)]
pub enum HostCall {
    /// The computation resolves at once with a value.
    Immediate(i32),
    /// The computation resolves with `value` after returning pending
    /// `polls` times.
    Deferred {
        /// How many polls return pending before the value is ready.
        polls: u32,
        /// The value eventually produced.
        value: i32,
    },
    /// The host declines to perform the operation and requests a voluntary
    /// suspension instead.
    YieldNow,
    /// The host function fails; the failure surfaces as the outer call's
    /// failure.
    Fail,
}

/// A scripted host: one fixed behavior per call site, plus a ledger of how
/// often each site's computation was actually started.
#[derive(Clone, Debug, PartialEq, Eq)]
pub struct ScriptHost {
    /// The behavior of each call site.
    pub script: Vec<HostCall>,
    /// How many times each site's computation was started in this process.
    pub calls: Vec<u32>,
}

/// A counting host: every call site increments one shared counter, and the
/// host yields voluntarily when the counter stands at `yield_at` and this is
/// not a resumed run. Its fields are exactly what a checkpoint persists.
#[derive(Clone, Copy, Debug, PartialEq, Eq, Structural)]
pub struct CountingHost {
    /// How many import computations have completed.
    pub times: u32,
    /// Whether this run resumes a checkpoint; a resumed run does not
    /// re-trigger the yield.
    pub is_resume: bool,
    /// The counter value at which a non-resumed run yields.
    pub yield_at: u32,
}

/// The host-side behavior of the asynchronous imports of one instance.
#[derive(Clone, Debug, PartialEq, Eq)]
pub enum HostImport {
    /// A fixed behavior per call site.
    Script(ScriptHost),
    /// One shared counter across all sites.
    Counting(CountingHost),
}

/// What a fresh invocation of the host at `site` produces, before any state
/// change.
pub open spec fn fresh_outcome(h: HostImport, site: int) -> HostCall {
    match h {
        HostImport::Script(s) => s.script@[site],
        HostImport::Counting(c) => if !c.is_resume && c.times == c.yield_at {
            HostCall::YieldNow
        } else {
            HostCall::Immediate((c.times + 1) as i32)
        },
    }
}

/// The call ledger of a scripted host; empty for other hosts.
pub open spec fn host_calls(h: HostImport) -> Seq<u32> {
    match h {
        HostImport::Script(s) => s.calls@,
        HostImport::Counting(_) => Seq::empty(),
    }
}

/// The fixed per-site behaviors of a scripted host.
pub open spec fn host_script(h: HostImport) -> Seq<HostCall> {
    match h {
        HostImport::Script(s) => s.script@,
        HostImport::Counting(_) => Seq::empty(),
    }
}

/// Host-side well-formedness against a program: a script covers every call
/// site, and a counter cannot overflow within the run.
pub open spec fn host_wf(h: HostImport, program: GuestProgram, progress: int) -> bool {
    match h {
        HostImport::Script(s) => s.script@.len() == program.n_imports && s.calls@.len()
            == program.n_imports,
        HostImport::Counting(c) => c.times as int + (program.n_imports - progress) <= u32::MAX
            as int,
    }
}

/// The pending-continuation slot: at most one per in-flight top-level call,
/// owned exclusively by the bridge driving that call.
#[derive(Clone, Copy, Debug, PartialEq, Eq, Structural)]
pub enum PendingSlot {
    /// No suspension in progress.
    Empty,
    /// A stashed deferred computation produced by a host import that has not
    /// yet completed.
    Stored {
        /// How many more polls return pending before the value is ready.
        remaining: u32,
        /// The value the computation eventually produces.
        value: i32,
    },
    /// A bare voluntary-yield marker.
    YieldMarker,
}

/// What one scheduler poll of the bridge reports.
#[derive(Clone, Copy, Debug, PartialEq, Eq, Structural)]
pub enum PollOutcome {
    /// The call completed with the guest's return value.
    Ready(i32),
    /// The call is still suspended on a pending host computation; poll again
    /// once the wake callback fires.
    Pending,
    /// The guest suspended voluntarily. The call will not resolve until a
    /// snapshot/restore cycle drives a new call sequence; this is not an
    /// error.
    Yielded,
    /// A host import failed; the failure surfaces verbatim and the instance
    /// is not reusable.
    Failed,
}

/// One guest entry-point call being driven across polls.
#[derive(Clone, Copy, Debug, PartialEq, Eq, Structural)]
pub struct CallBridge {
    /// The guest's suspension state.
    pub suspend: SuspendState,
    /// The pending-continuation slot for this call.
    pub slot: PendingSlot,
    /// How many import call sites have completed.
    pub progress: usize,
}

/// How many call sites have had their computation started in this process:
/// every completed site, plus a site whose computation sits stashed.
pub open spec fn touched(b: CallBridge) -> int {
    b.progress + if b.slot is Stored {
        1int
    } else {
        0int
    }
}

impl CallBridge {
    /// Consistency of the bridge against a program and a host.
    pub open spec fn wf(self, program: GuestProgram, host: HostImport) -> bool {
        &&& self.progress <= program.n_imports
        &&& host_wf(host, program, self.progress as int)
        &&& (self.suspend is Normal ==> self.slot is Empty)
        &&& (self.slot is Stored ==> !(self.suspend is Normal) && (self.progress as int)
            < program.n_imports)
        &&& (self.slot is YieldMarker ==> !(self.suspend is Normal))
    }

    /// A bridge about to drive a fresh call: nothing completed, nothing
    /// stashed, guest normal.
    pub fn new() -> (r: Self)
        ensures
            r.suspend is Normal,
            r.slot is Empty,
            r.progress == 0,
    {
        CallBridge { suspend: SuspendState::Normal, slot: PendingSlot::Empty, progress: 0 }
    }
}

impl AsyncVM for CallBridge {
    /// Raise the voluntary-yield condition on the call this bridge drives:
    /// the yield marker takes the pending-continuation slot and the guest
    /// unwinds, so the next interpretation of the run reports the yield.
    fn yield_now(&mut self) -> (r: Result<(), crate::errno::Errno>)
        ensures
            r is Ok,
            final(self).slot is YieldMarker,
            final(self).suspend is Unwinding,
            final(self).progress == old(self).progress,
    {
        self.slot = PendingSlot::YieldMarker;
        self.suspend = self.suspend.begin_unwind();
        Ok(())
    }
}

impl HostImport {
    /// Start the host computation for call site `site` (or take the yield
    /// or failure decision). A yield or a failure leaves the host's state
    /// untouched: the operation itself never ran.
    fn invoke(&mut self, site: usize, program: &GuestProgram) -> (r: HostCall)
        requires
            host_wf(*old(self), *program, site as int),
            (site as int) < program.n_imports,
            host_calls(*old(self)).len() > 0 ==> host_calls(*old(self))[site as int] < u32::MAX,
        ensures
            r == fresh_outcome(*old(self), site as int),
            host_wf(*final(self), *program, site as int + 1) || r is YieldNow || r is Fail,
            host_script(*final(self)) == host_script(*old(self)),
            host_calls(*final(self)).len() == host_calls(*old(self)).len(),
            (r is YieldNow || r is Fail) ==> *final(self) == *old(self),
            !(r is YieldNow || r is Fail) ==> match *old(self) {
                HostImport::Script(s) => host_calls(*final(self)) == host_calls(*old(self)).update(
                    site as int,
                    (host_calls(*old(self))[site as int] + 1) as u32,
                ),
                HostImport::Counting(c) => *final(self) == HostImport::Counting(
                    (CountingHost { times: (c.times + 1) as u32, ..c }),
                ),
            },
    {
        match self {
            HostImport::Script(s) => {
                let r = s.script[site];
                match r {
                    HostCall::YieldNow => {},
                    HostCall::Fail => {},
                    _ => {
                        proof {
                            assert(host_calls(*old(self))[site as int] < u32::MAX);
                        }
                        let c = s.calls[site];
                        s.calls[site] = c + 1;
                    },
                }
                r
            },
            HostImport::Counting(c) => {
                if !c.is_resume && c.times == c.yield_at {
                    HostCall::YieldNow
                } else {
                    c.times = c.times + 1;
                    HostCall::Immediate(c.times as i32)
                }
            },
        }
    }
}

impl CallBridge {
    /// One scheduler poll (one step of driving the call): replay to the
    /// suspension point if suspended, then run the guest until it returns,
    /// suspends on a pending host computation, yields voluntarily, or
    /// fails.
    ///
    /// Replay never re-runs a host import whose computation was already
    /// started: the ledger entry of every site the call had already started
    /// is unchanged, and each site started during this poll is started
    /// exactly once.
    pub fn poll(&mut self, program: &GuestProgram, host: &mut HostImport) -> (r: PollOutcome)
        requires
            old(self).wf(*program, *old(host)),
            !(old(self).slot is YieldMarker),
            forall|j: int|
                0 <= j < host_calls(*old(host)).len() ==> (#[trigger] host_calls(*old(host))[j])
                    < u32::MAX,
        ensures
            final(self).wf(*program, *final(host)),
            host_script(*final(host)) == host_script(*old(host)),
            host_calls(*final(host)).len() == host_calls(*old(host)).len(),
            // outcome shapes
            match r {
                PollOutcome::Ready(v) => v == program.final_value && final(self).progress
                    == program.n_imports && final(self).suspend is Normal && final(self).slot
                    is Empty,
                PollOutcome::Pending => final(self).slot is Stored && final(self).suspend
                    is Unwinding && (final(self).progress as int) < program.n_imports,
                PollOutcome::Yielded => final(self).slot is YieldMarker && final(self).suspend
                    is Unwinding,
                PollOutcome::Failed => final(self).suspend is Normal && final(self).slot is Empty,
            },
            // progress only moves forward, and completed sites stay completed
            final(self).progress >= old(self).progress,
            touched(*final(self)) >= touched(*old(self)),
            // replay determinism: the ledger of every site the call had
            // already started is untouched; each newly started site is
            // started exactly once
            forall|j: int|
                0 <= j < host_calls(*old(host)).len() ==> host_calls(*final(host))[j]
                    == host_calls(*old(host))[j] + (if touched(*old(self)) <= j < touched(
                    *final(self),
                ) {
                    1int
                } else {
                    0int
                }),
            // a counting host keeps its configuration, and its counter
            // advances exactly with the computations started in this poll —
            // so a resumed run neither skips nor repeats an increment
            match (*old(host), *final(host)) {
                (HostImport::Counting(a), HostImport::Counting(b)) => b.is_resume == a.is_resume
                    && b.yield_at == a.yield_at && b.times as int == a.times + (touched(
                    *final(self),
                ) - touched(*old(self))),
                (HostImport::Script(_), HostImport::Script(_)) => true,
                _ => false,
            },
            // a pending poll strictly shrinks the remaining work
            r is Pending ==> final(self).progress > old(self).progress || (final(self).progress
                == old(self).progress && pending_measure(*final(self), *final(host))
                < pending_measure(*old(self), *old(host))),
            // a yield or a failure always names the site that decided it
            r is Yielded ==> fresh_outcome(*final(host), final(self).progress as int)
                is YieldNow && (final(self).progress as int) < program.n_imports,
            r is Failed ==> fresh_outcome(*final(host), final(self).progress as int) is Fail && (
            final(self).progress as int) < program.n_imports,
            // voluntary yield idempotence: when the next site's fresh
            // outcome is (still) a yield, the poll re-yields at once: the
            // host performed no work at all and nothing advanced
            old(self).slot is Empty && (old(self).progress as int) < program.n_imports
                && fresh_outcome(*old(host), old(self).progress as int) is YieldNow ==> r
                == PollOutcome::Yielded && *final(host) == *old(host) && final(self).progress
                == old(self).progress,
    {
        // step 1: if the guest is suspended, tell it to replay; this is
        // always safe, the guest ignores a rewind when already normal
        self.suspend = self.suspend.begin_rewind();
        // steps 2-4: run the guest; each import call site consults the
        // wrapper, which resumes a stashed computation on replay and starts
        // a fresh one otherwise
        loop
            invariant_except_break
                self.wf(*program, *host),
                !(self.slot is YieldMarker),
                self.suspend is Normal || self.suspend is Rewinding,
                host_script(*host) == host_script(*old(host)),
                host_calls(*host).len() == host_calls(*old(host)).len(),
                self.progress >= old(self).progress,
                touched(*self) >= touched(*old(self)),
                forall|j: int|
                    0 <= j < host_calls(*old(host)).len() ==> host_calls(*host)[j] == host_calls(
                        *old(host),
                    )[j] + (if touched(*old(self)) <= j < touched(*self) {
                        1int
                    } else {
                        0int
                    }),
                forall|j: int|
                    0 <= j < host_calls(*old(host)).len() ==> (#[trigger] host_calls(
                        *old(host),
                    )[j]) < u32::MAX,
                match (*old(host), *host) {
                    (HostImport::Counting(a), HostImport::Counting(b)) => b.is_resume
                        == a.is_resume && b.yield_at == a.yield_at && b.times as int == a.times + (
                    touched(*self) - touched(*old(self))),
                    (HostImport::Script(_), HostImport::Script(_)) => true,
                    _ => false,
                },
                self.progress == old(self).progress ==> self.slot == old(self).slot && *host
                    == *old(host),
                old(self).slot is Empty && (old(self).progress as int) < program.n_imports
                    && fresh_outcome(*old(host), old(self).progress as int) is YieldNow ==> (
                self.progress == old(self).progress && self.slot is Empty && *host == *old(host)),
            ensures
                host_script(*host) == host_script(*old(host)),
                host_calls(*host).len() == host_calls(*old(host)).len(),
                self.progress >= old(self).progress,
                touched(*self) >= touched(*old(self)),
                forall|j: int|
                    0 <= j < host_calls(*old(host)).len() ==> host_calls(*host)[j] == host_calls(
                        *old(host),
                    )[j] + (if touched(*old(self)) <= j < touched(*self) {
                        1int
                    } else {
                        0int
                    }),
                self.wf(*program, *host),
                match (*old(host), *host) {
                    (HostImport::Counting(a), HostImport::Counting(b)) => b.is_resume
                        == a.is_resume && b.yield_at == a.yield_at && b.times as int == a.times + (
                    touched(*self) - touched(*old(self))),
                    (HostImport::Script(_), HostImport::Script(_)) => true,
                    _ => false,
                },
                // how the run ended
                (self.suspend is Normal && self.slot is Empty && self.progress
                    == program.n_imports) || (self.suspend is Unwinding && (self.slot is Stored
                    || self.slot is YieldMarker)),
                self.slot is Stored ==> (self.progress > old(self).progress || (self.progress
                    == old(self).progress && pending_measure(*self, *host) < pending_measure(
                    *old(self),
                    *old(host),
                ))),
                self.slot is YieldMarker ==> fresh_outcome(*host, self.progress as int)
                    is YieldNow && (self.progress as int) < program.n_imports,
                old(self).slot is Empty && (old(self).progress as int) < program.n_imports
                    && fresh_outcome(*old(host), old(self).progress as int) is YieldNow ==> (
                self.slot is YieldMarker && *host == *old(host) && self.progress == old(
                    self,
                ).progress),
            decreases program.n_imports - self.progress,
        {
            if self.progress >= program.n_imports {
                // the guest runs past its last import and returns
                self.suspend = self.suspend.stop();
                break ;
            }
            // the import wrapper: resume a stashed computation, if any
            match self.slot {
                PendingSlot::Stored { remaining, value } => {
                    if remaining == 0 {
                        // resolved: write the result, stop unwinding, let
                        // the guest continue past this import call
                        self.slot = PendingSlot::Empty;
                        self.suspend = self.suspend.stop();
                        self.progress = self.progress + 1;
                    } else {
                        // still pending: stash it back and unwind
                        self.slot = PendingSlot::Stored { remaining: remaining - 1, value };
                        self.suspend = self.suspend.begin_unwind();
                        break ;
                    }
                },
                _ => {
                    // no stashed computation for this site: start a fresh
                    // one through the registered host function
                    proof {
                        if host_calls(*host).len() > 0 {
                            assert(host_calls(*host)[self.progress as int] == host_calls(
                                *old(host),
                            )[self.progress as int]);
                        }
                    }
                    let outcome = host.invoke(self.progress, program);
                    match outcome {
                        HostCall::Immediate(_) => {
                            self.suspend = self.suspend.stop();
                            self.progress = self.progress + 1;
                        },
                        HostCall::Deferred { polls, value } => {
                            if polls == 0 {
                                self.suspend = self.suspend.stop();
                                self.progress = self.progress + 1;
                            } else {
                                self.slot = PendingSlot::Stored {
                                    remaining: polls - 1,
                                    value,
                                };
                                self.suspend = self.suspend.begin_unwind();
                                break ;
                            }
                        },
                        HostCall::YieldNow => {
                            self.slot = PendingSlot::YieldMarker;
                            self.suspend = self.suspend.begin_unwind();
                            break ;
                        },
                        HostCall::Fail => {
                            // an error stops the unwind bookkeeping so the
                            // instance is not stuck mid-unwind, and surfaces
                            // as the outer call's failure
                            self.suspend = self.suspend.stop();
                            self.slot = PendingSlot::Empty;
                            return PollOutcome::Failed;
                        },
                    }
                },
            }
        }
        // step 5: interpret how the run ended
        match self.slot {
            PendingSlot::Empty => PollOutcome::Ready(program.final_value),
            PendingSlot::Stored { .. } => PollOutcome::Pending,
            PendingSlot::YieldMarker => PollOutcome::Yielded,
        }
    }
}

/// How much pending work the current suspension holds: the remaining polls
/// of the stashed computation, or of the computation the next site would
/// stash.
pub open spec fn pending_measure(b: CallBridge, h: HostImport) -> int {
    match b.slot {
        PendingSlot::Stored { remaining, .. } => remaining as int,
        _ => match fresh_outcome(h, b.progress as int) {
            HostCall::Deferred { polls, .. } => polls as int,
            _ => 0,
        },
    }
}

/// The externally persistable checkpoint of one suspended call, as far as
/// the bridge itself is concerned: how many import call sites had completed.
/// The guest's globals and linear memory travel in the instance snapshot
/// beside it; the pending continuation is deliberately not persisted — it is
/// recreated by replay.
#[derive(Clone, Copy, Debug, PartialEq, Eq, Structural)]
pub struct BridgeCheckpoint {
    /// How many import call sites had completed at capture time.
    pub progress: usize,
}

impl CallBridge {
    /// What `capture` records.
    pub open spec fn spec_capture(self) -> BridgeCheckpoint {
        BridgeCheckpoint { progress: self.progress }
    }

    /// The bridge state a restored instance starts from: the replayed stack
    /// image is mid-unwind, nothing is stashed, and the completed import
    /// count comes from the checkpoint.
    pub open spec fn spec_restore(cp: BridgeCheckpoint) -> CallBridge {
        CallBridge {
            suspend: SuspendState::Unwinding,
            slot: PendingSlot::Empty,
            progress: cp.progress,
        }
    }

    /// Capture the bridge half of a checkpoint. Meaningful while the call is
    /// suspended or at a voluntary-yield boundary; capturing a normal,
    /// not-yet-called bridge is well defined but uninteresting.
    pub fn capture(&self) -> (r: BridgeCheckpoint)
        ensures
            r == self.spec_capture(),
    {
        BridgeCheckpoint { progress: self.progress }
    }

    /// Rebuild the bridge against a freshly instantiated twin whose globals
    /// and memory were restored from the matching instance snapshot, before
    /// any call is made on it.
    pub fn restore(cp: &BridgeCheckpoint) -> (r: CallBridge)
        ensures
            r == CallBridge::spec_restore(*cp),
            r.slot is Empty,
            !(r.slot is YieldMarker),
            r.progress == cp.progress,
    {
        CallBridge {
            suspend: SuspendState::Unwinding,
            slot: PendingSlot::Empty,
            progress: cp.progress,
        }
    }

    /// Drive the call until it is no longer pending, with a scripted host
    /// whose remaining sites neither yield nor fail.
    ///
    /// This pins down two of the crate's laws at once. Replay determinism:
    /// starting from a fresh ledger, the run completes with the guest's
    /// return value and every remaining site's computation is started
    /// exactly once — exactly as if each host import were invoked once per
    /// logical call site, with no duplicate side effects from replay.
    /// Driving a freshly created bridge covers an uninterrupted call;
    /// driving a restored bridge covers resumption, where the sites the
    /// original process completed are never re-invoked.
    pub fn call_until_complete(&mut self, program: &GuestProgram, host: &mut HostImport) -> (r:
        PollOutcome)
        requires
            old(self).wf(*program, *old(host)),
            old(self).slot is Empty,
            host_calls(*old(host)).len() == program.n_imports,
            forall|j: int|
                0 <= j < program.n_imports ==> (#[trigger] host_calls(*old(host))[j]) == 0,
            forall|j: int|
                old(self).progress <= j < program.n_imports ==> !((#[trigger] host_script(
                    *old(host),
                )[j]) is YieldNow) && !(host_script(*old(host))[j] is Fail),
        ensures
            r == PollOutcome::Ready(program.final_value),
            final(self).progress == program.n_imports,
            host_script(*final(host)) == host_script(*old(host)),
            // every site from the starting point on was started exactly
            // once; the sites a previous process completed were not touched
            forall|j: int|
                0 <= j < program.n_imports ==> (#[trigger] host_calls(*final(host))[j]) == (
                if old(self).progress <= j {
                    1int
                } else {
                    0int
                }),
    {
        loop
            invariant
                self.wf(*program, *host),
                !(self.slot is YieldMarker),
                host_script(*host) == host_script(*old(host)),
                host_calls(*host).len() == program.n_imports,
                self.progress >= old(self).progress,
                touched(*self) >= old(self).progress,
                forall|j: int|
                    0 <= j < program.n_imports ==> (#[trigger] host_calls(*host)[j]) == (if old(
                        self,
                    ).progress <= j < touched(*self) {
                        1int
                    } else {
                        0int
                    }),
                forall|j: int|
                    old(self).progress <= j < program.n_imports ==> !((#[trigger] host_script(
                        *old(host),
                    )[j]) is YieldNow) && !(host_script(*old(host))[j] is Fail),
            decreases program.n_imports - self.progress, pending_measure(*self, *host) + 1,
        {
            let r = self.poll(program, host);
            match r {
                PollOutcome::Pending => {},
                PollOutcome::Ready(v) => {
                    return r;
                },
                PollOutcome::Yielded => {
                    proof {
                        // a yield would name a yielding site, but the
                        // remaining script has none
                        assert(fresh_outcome(*host, self.progress as int) is YieldNow);
                        assert(false);
                    }
                },
                PollOutcome::Failed => {
                    proof {
                        assert(fresh_outcome(*host, self.progress as int) is Fail);
                        assert(false);
                    }
                },
            }
        }
    }
}

/// Law (snapshot round-trip): restoring a checkpoint captured at any
/// reachable suspension point yields a bridge that is well formed against
/// the same program and host, carries nothing stashed, and resumes from
/// exactly the completed import count of the original. Driving either
/// bridge to completion is therefore pinned, by `call_until_complete`, to
/// the same final result: the guest program's return value.
pub proof fn lemma_snapshot_roundtrip(b: CallBridge, program: GuestProgram, host: HostImport)
    requires
        b.wf(program, host),
    ensures
        CallBridge::spec_restore(b.spec_capture()).wf(program, host),
        CallBridge::spec_restore(b.spec_capture()).progress == b.progress,
        CallBridge::spec_restore(b.spec_capture()).slot is Empty,
{
}

} // verus!
