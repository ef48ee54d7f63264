//! The configuration handed to the bytecode instrumentation step, and the
//! decision of whether to run it at all.
//!
//! The instrumentation itself is an external collaborator: given raw module
//! bytes and the list of import names considered asynchronous, it returns
//! bytes that export the suspend/resume primitives. A module that already
//! exports them — detected by probing for one — passes through unchanged.

use vstd::prelude::*;

verus! {

/// The guest-exported primitive probed for to detect an already
/// instrumented module.
pub const PROBE_EXPORT: &'static str = "asyncify_get_state";

/// The optimization level the instrumentation pass runs with.
pub const PASS_OPTIMIZATION_LEVEL: u32 = 2;

/// What to do with a module before instantiation.
#[derive(Clone, Debug, PartialEq, Eq)]
pub enum PassPlan {
    /// The module already exports the suspend/resume primitives: use its
    /// bytes unchanged.
    AlreadyInstrumented,
    /// Run the instrumentation pass with this list of asynchronous import
    /// names.
    Instrument(Vec<String>),
}

/// The import names treated as asynchronous by default: every import whose
/// name follows the asynchronous naming convention, and the blocking WASI
/// socket operations and multi-descriptor wait.
pub fn asyncify_default_imports() -> (r: Vec<String>)
    ensures
        r@.len() == 9,
        r@[0]@ == "*.async_*"@,
        r@[1]@ == "wasi_snapshot_preview1.sock_accept"@,
        r@[2]@ == "wasi_snapshot_preview1.sock_connect"@,
        r@[3]@ == "wasi_snapshot_preview1.sock_send"@,
        r@[4]@ == "wasi_snapshot_preview1.sock_send_to"@,
        r@[5]@ == "wasi_snapshot_preview1.sock_recv"@,
        r@[6]@ == "wasi_snapshot_preview1.sock_recv_from"@,
        r@[7]@ == "wasi_snapshot_preview1.sock_lookup_ip"@,
        r@[8]@ == "wasi_snapshot_preview1.poll_oneoff"@,
{
    let mut v: Vec<String> = Vec::new();
    v.push(String::from_str("*.async_*"));
    v.push(String::from_str("wasi_snapshot_preview1.sock_accept"));
    v.push(String::from_str("wasi_snapshot_preview1.sock_connect"));
    v.push(String::from_str("wasi_snapshot_preview1.sock_send"));
    v.push(String::from_str("wasi_snapshot_preview1.sock_send_to"));
    v.push(String::from_str("wasi_snapshot_preview1.sock_recv"));
    v.push(String::from_str("wasi_snapshot_preview1.sock_recv_from"));
    v.push(String::from_str("wasi_snapshot_preview1.sock_lookup_ip"));
    v.push(String::from_str("wasi_snapshot_preview1.poll_oneoff"));
    v
}

/// Decide whether a module needs the instrumentation pass: one that
/// already exports the suspend/resume primitives passes through unchanged;
/// any other is instrumented with the default import list extended by the
/// embedder's extra names.
pub fn pass_async_module_plan(already_instrumented: bool, extra: Vec<String>) -> (r: PassPlan)
    ensures
        already_instrumented ==> r == PassPlan::AlreadyInstrumented,
        !already_instrumented ==> match r {
            PassPlan::Instrument(names) => names@.len() == 9 + extra@.len() && names@[0]@
                == "*.async_*"@ && names@[1]@ == "wasi_snapshot_preview1.sock_accept"@
                && names@[2]@ == "wasi_snapshot_preview1.sock_connect"@ && names@[3]@
                == "wasi_snapshot_preview1.sock_send"@ && names@[4]@
                == "wasi_snapshot_preview1.sock_send_to"@ && names@[5]@
                == "wasi_snapshot_preview1.sock_recv"@ && names@[6]@
                == "wasi_snapshot_preview1.sock_recv_from"@ && names@[7]@
                == "wasi_snapshot_preview1.sock_lookup_ip"@ && names@[8]@
                == "wasi_snapshot_preview1.poll_oneoff"@ && (forall|i: int|
                0 <= i < extra@.len() ==> (#[trigger] names@[9 + i]) == extra@[i]),
            PassPlan::AlreadyInstrumented => false,
        },
{
    if already_instrumented {
        return PassPlan::AlreadyInstrumented;
    }
    let mut names = asyncify_default_imports();
    let ghost base = names@;
    let mut i: usize = 0;
    while i < extra.len()
        invariant
            i <= extra@.len(),
            names@.len() == 9 + i,
            base.len() == 9,
            forall|j: int| 0 <= j < 9 ==> (#[trigger] names@[j]) == base[j],
            base[0]@ == "*.async_*"@,
            base[1]@ == "wasi_snapshot_preview1.sock_accept"@,
            base[2]@ == "wasi_snapshot_preview1.sock_connect"@,
            base[3]@ == "wasi_snapshot_preview1.sock_send"@,
            base[4]@ == "wasi_snapshot_preview1.sock_send_to"@,
            base[5]@ == "wasi_snapshot_preview1.sock_recv"@,
            base[6]@ == "wasi_snapshot_preview1.sock_recv_from"@,
            base[7]@ == "wasi_snapshot_preview1.sock_lookup_ip"@,
            base[8]@ == "wasi_snapshot_preview1.poll_oneoff"@,
            forall|j: int| 0 <= j < i ==> (#[trigger] names@[9 + j]) == extra@[j],
        decreases extra@.len() - i,
    {
        names.push(extra[i].clone());
        i = i + 1;
    }
    PassPlan::Instrument(names)
}

} // verus!
