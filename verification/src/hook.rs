//! The yield-hook policy: turning an unbounded wait (accepting a
//! connection, a multi-descriptor wait) into a sequence of bounded waits,
//! each of which gives the embedder a periodic, cheap opportunity to decide
//! "stop waiting here and let me persist or relocate this workload".
//!
//! The configuration is a poll interval and a predicate over the pending
//! I/O description. The embedder races the real operation against a timer
//! of the interval and consults the decision below with the race's result.

use vstd::prelude::*;

verus! {

/// The yield-hook configuration: how often to interrupt the wait. The
/// predicate itself lives with the embedder; its verdict is handed in as a
/// plain boolean.
#[derive(Clone, Copy, Debug, PartialEq, Eq, Structural)]
pub struct YieldHook {
    /// How long each bounded wait lasts, in nanoseconds.
    pub poll_interval_nanos: u64,
}

/// What one round of the race decides.
#[derive(Clone, Copy, Debug, PartialEq, Eq, Structural)]
pub enum HookAction {
    /// The real operation won the race: return its result normally.
    ReturnResult,
    /// The timer won and the predicate asked to suspend: raise the
    /// voluntary-yield condition.
    RaiseYield,
    /// The timer won but the predicate declined: run another bounded wait.
    KeepWaiting,
}

/// Decide one round: a finished operation always returns its result; an
/// expired timer raises the voluntary yield exactly when a hook is
/// installed and its predicate agreed, and otherwise repeats the race.
pub fn yield_hook_decision(hook_installed: bool, operation_done: bool, predicate: bool) -> (r:
    HookAction)
    ensures
        operation_done ==> r == HookAction::ReturnResult,
        !operation_done && hook_installed && predicate ==> r == HookAction::RaiseYield,
        !operation_done && hook_installed && !predicate ==> r == HookAction::KeepWaiting,
        !operation_done && !hook_installed ==> r == HookAction::KeepWaiting,
{
    if operation_done {
        HookAction::ReturnResult
    } else if hook_installed && predicate {
        HookAction::RaiseYield
    } else {
        HookAction::KeepWaiting
    }
}

} // verus!
