//! The catalog of WASI host functions this runtime registers for a guest:
//! each shim's import name, its wasm signature, and whether it is bound
//! asynchronously. The socket operations that can block, and the
//! multi-descriptor wait, are the asynchronous ones; everything else is
//! invoked synchronously and never interacts with the suspension machinery.
//!
//! The embedder walks this table and binds its shim for each entry; the
//! table itself carries no function pointers.

use vstd::prelude::*;

use crate::types::ValType;

verus! {

/// One registered WASI host function: import name, signature, and binding
/// kind.
#[derive(Clone, Debug, PartialEq, Eq)]
pub struct WasiFuncDesc {
    /// The import name under `wasi_snapshot_preview1`.
    pub name: String,
    /// The wasm parameter types.
    pub params: Vec<ValType>,
    /// The wasm result types.
    pub results: Vec<ValType>,
    /// Whether the shim is bound asynchronously.
    pub is_async: bool,
}

/// Whether the table entry at `i` is one of the asynchronously bound shims.
pub open spec fn is_async_slot(i: int) -> bool {
    i == 44 || i == 45 || i == 46 || i == 47 || i == 48 || i == 49 || i == 55 || i == 56
}

/// The import name registered at table position `i`.
pub open spec fn spec_entry_name(i: int) -> Seq<char> {
    if i == 0 {
        "args_get"@
    } else if i == 1 {
        "args_sizes_get"@
    } else if i == 2 {
        "environ_get"@
    } else if i == 3 {
        "environ_sizes_get"@
    } else if i == 4 {
        "clock_res_get"@
    } else if i == 5 {
        "clock_time_get"@
    } else if i == 6 {
        "random_get"@
    } else if i == 7 {
        "fd_prestat_get"@
    } else if i == 8 {
        "fd_prestat_dir_name"@
    } else if i == 9 {
        "fd_renumber"@
    } else if i == 10 {
        "fd_advise"@
    } else if i == 11 {
        "fd_allocate"@
    } else if i == 12 {
        "fd_close"@
    } else if i == 13 {
        "fd_seek"@
    } else if i == 14 {
        "fd_sync"@
    } else if i == 15 {
        "fd_datasync"@
    } else if i == 16 {
        "fd_tell"@
    } else if i == 17 {
        "fd_fdstat_get"@
    } else if i == 18 {
        "fd_fdstat_set_flags"@
    } else if i == 19 {
        "fd_fdstat_set_rights"@
    } else if i == 20 {
        "fd_filestat_get"@
    } else if i == 21 {
        "fd_filestat_set_size"@
    } else if i == 22 {
        "fd_filestat_set_times"@
    } else if i == 23 {
        "fd_read"@
    } else if i == 24 {
        "fd_pread"@
    } else if i == 25 {
        "fd_write"@
    } else if i == 26 {
        "fd_pwrite"@
    } else if i == 27 {
        "fd_readdir"@
    } else if i == 28 {
        "path_create_directory"@
    } else if i == 29 {
        "path_filestat_get"@
    } else if i == 30 {
        "path_filestat_set_times"@
    } else if i == 31 {
        "path_link"@
    } else if i == 32 {
        "path_open"@
    } else if i == 33 {
        "path_readlink"@
    } else if i == 34 {
        "path_remove_directory"@
    } else if i == 35 {
        "path_rename"@
    } else if i == 36 {
        "path_rename"@
    } else if i == 37 {
        "path_unlink_file"@
    } else if i == 38 {
        "proc_exit"@
    } else if i == 39 {
        "proc_raise"@
    } else if i == 40 {
        "sched_yield"@
    } else if i == 41 {
        "sock_open"@
    } else if i == 42 {
        "sock_bind"@
    } else if i == 43 {
        "sock_listen"@
    } else if i == 44 {
        "sock_accept"@
    } else if i == 45 {
        "sock_connect"@
    } else if i == 46 {
        "sock_recv"@
    } else if i == 47 {
        "sock_recv_from"@
    } else if i == 48 {
        "sock_send"@
    } else if i == 49 {
        "sock_send_to"@
    } else if i == 50 {
        "sock_shutdown"@
    } else if i == 51 {
        "sock_getpeeraddr"@
    } else if i == 52 {
        "sock_getlocaladdr"@
    } else if i == 53 {
        "sock_getsockopt"@
    } else if i == 54 {
        "sock_setsockopt"@
    } else if i == 55 {
        "poll_oneoff"@
    } else {
        "sock_lookup_ip"@
    }
}

/// The wasm parameter types registered at table position `i`.
pub open spec fn spec_entry_params(i: int) -> Seq<ValType> {
    if i == 0 {
        seq![ValType::I32, ValType::I32]
    } else if i == 1 {
        seq![ValType::I32, ValType::I32]
    } else if i == 2 {
        seq![ValType::I32, ValType::I32]
    } else if i == 3 {
        seq![ValType::I32, ValType::I32]
    } else if i == 4 {
        seq![ValType::I32, ValType::I64]
    } else if i == 5 {
        seq![ValType::I32, ValType::I64, ValType::I32]
    } else if i == 6 {
        seq![ValType::I32, ValType::I32]
    } else if i == 7 {
        seq![ValType::I32, ValType::I32]
    } else if i == 8 {
        seq![ValType::I32, ValType::I32, ValType::I32]
    } else if i == 9 {
        seq![ValType::I32, ValType::I32]
    } else if i == 10 {
        seq![ValType::I32, ValType::I64, ValType::I64, ValType::I32]
    } else if i == 11 {
        seq![ValType::I32, ValType::I64, ValType::I64]
    } else if i == 12 {
        seq![ValType::I32]
    } else if i == 13 {
        seq![ValType::I32, ValType::I64, ValType::I32, ValType::I32]
    } else if i == 14 {
        seq![ValType::I32]
    } else if i == 15 {
        seq![ValType::I32]
    } else if i == 16 {
        seq![ValType::I32, ValType::I32]
    } else if i == 17 {
        seq![ValType::I32, ValType::I32]
    } else if i == 18 {
        seq![ValType::I32, ValType::I32]
    } else if i == 19 {
        seq![ValType::I32, ValType::I64, ValType::I64]
    } else if i == 20 {
        seq![ValType::I32, ValType::I32]
    } else if i == 21 {
        seq![ValType::I32, ValType::I32]
    } else if i == 22 {
        seq![ValType::I32, ValType::I64, ValType::I64, ValType::I32]
    } else if i == 23 {
        seq![ValType::I32, ValType::I32, ValType::I32, ValType::I32]
    } else if i == 24 {
        seq![ValType::I32, ValType::I32, ValType::I32, ValType::I64, ValType::I32]
    } else if i == 25 {
        seq![ValType::I32, ValType::I32, ValType::I32, ValType::I32]
    } else if i == 26 {
        seq![ValType::I32, ValType::I32, ValType::I32, ValType::I64, ValType::I32]
    } else if i == 27 {
        seq![ValType::I32, ValType::I32, ValType::I32, ValType::I64, ValType::I32]
    } else if i == 28 {
        seq![ValType::I32, ValType::I32, ValType::I32]
    } else if i == 29 {
        seq![ValType::I32, ValType::I32, ValType::I32, ValType::I32, ValType::I32]
    } else if i == 30 {
        seq![ValType::I32, ValType::I32, ValType::I32, ValType::I32, ValType::I64, ValType::I64, ValType::I32]
    } else if i == 31 {
        seq![ValType::I32, ValType::I32, ValType::I32, ValType::I32, ValType::I32, ValType::I32, ValType::I32]
    } else if i == 32 {
        seq![ValType::I32, ValType::I32, ValType::I32, ValType::I32, ValType::I32, ValType::I64, ValType::I64, ValType::I32, ValType::I32]
    } else if i == 33 {
        seq![ValType::I32, ValType::I32, ValType::I32, ValType::I32, ValType::I32, ValType::I32]
    } else if i == 34 {
        seq![ValType::I32, ValType::I32, ValType::I32]
    } else if i == 35 {
        seq![ValType::I32, ValType::I32, ValType::I32, ValType::I32, ValType::I32, ValType::I32]
    } else if i == 36 {
        seq![ValType::I32, ValType::I32, ValType::I32, ValType::I32, ValType::I32]
    } else if i == 37 {
        seq![ValType::I32, ValType::I32, ValType::I32]
    } else if i == 38 {
        seq![ValType::I32]
    } else if i == 39 {
        seq![ValType::I32]
    } else if i == 40 {
        Seq::<ValType>::empty()
    } else if i == 41 {
        seq![ValType::I32, ValType::I32, ValType::I32]
    } else if i == 42 {
        seq![ValType::I32, ValType::I32, ValType::I32]
    } else if i == 43 {
        seq![ValType::I32, ValType::I32]
    } else if i == 44 {
        seq![ValType::I32, ValType::I32]
    } else if i == 45 {
        seq![ValType::I32, ValType::I32, ValType::I32]
    } else if i == 46 {
        seq![ValType::I32, ValType::I32, ValType::I32, ValType::I32, ValType::I32, ValType::I32]
    } else if i == 47 {
        seq![ValType::I32, ValType::I32, ValType::I32, ValType::I32, ValType::I32, ValType::I32, ValType::I32, ValType::I32]
    } else if i == 48 {
        seq![ValType::I32, ValType::I32, ValType::I32, ValType::I32, ValType::I32]
    } else if i == 49 {
        seq![ValType::I32, ValType::I32, ValType::I32, ValType::I32, ValType::I32, ValType::I32, ValType::I32]
    } else if i == 50 {
        seq![ValType::I32, ValType::I32]
    } else if i == 51 {
        seq![ValType::I32, ValType::I32, ValType::I32, ValType::I32]
    } else if i == 52 {
        seq![ValType::I32, ValType::I32, ValType::I32, ValType::I32]
    } else if i == 53 {
        seq![ValType::I32, ValType::I32, ValType::I32, ValType::I32, ValType::I32]
    } else if i == 54 {
        seq![ValType::I32, ValType::I32, ValType::I32, ValType::I32, ValType::I32]
    } else if i == 55 {
        seq![ValType::I32, ValType::I32, ValType::I32, ValType::I32]
    } else {
        seq![ValType::I32, ValType::I32, ValType::I32, ValType::I32, ValType::I32, ValType::I32]
    }
}

/// The wasm result types registered at table position `i`: one error code,
/// except for the process-exit shim, which does not return.
pub open spec fn spec_entry_results(i: int) -> Seq<ValType> {
    if i == 38 {
        Seq::<ValType>::empty()
    } else {
        seq![ValType::I32]
    }
}

/// The table entry at position `i`.
fn entry_for(i: usize) -> (r: WasiFuncDesc)
    requires
        i < 57,
    ensures
        r.name@ == spec_entry_name(i as int),
        r.params@ == spec_entry_params(i as int),
        r.results@ == spec_entry_results(i as int),
        r.is_async == is_async_slot(i as int),
{
    if i < 15 {
        entry_for_a(i)
    } else if i < 30 {
        entry_for_b(i)
    } else if i < 38 {
        entry_for_c(i)
    } else if i < 45 {
        entry_for_cc(i)
    } else {
        entry_for_d(i)
    }
}

/// The table entries at positions 0 up to 15.
#[verifier::spinoff_prover]
#[verifier::rlimit(60)]
fn entry_for_a(i: usize) -> (r: WasiFuncDesc)
    requires
        0 <= i < 15,
    ensures
        r.name@ == spec_entry_name(i as int),
        r.params@ == spec_entry_params(i as int),
        r.results@ == spec_entry_results(i as int),
        r.is_async == is_async_slot(i as int),
{
    match i {
        0 => {
            let mut params: Vec<ValType> = Vec::new();
            let mut results: Vec<ValType> = Vec::new();
            params.push(ValType::I32);
            params.push(ValType::I32);
            results.push(ValType::I32);
            proof {
                assert(params@ =~= spec_entry_params(0));
                assert(results@ =~= spec_entry_results(0));
            }
            WasiFuncDesc {
                name: String::from_str("args_get"),
                params,
                results,
                is_async: false,
            }
        },
        1 => {
            let mut params: Vec<ValType> = Vec::new();
            let mut results: Vec<ValType> = Vec::new();
            params.push(ValType::I32);
            params.push(ValType::I32);
            results.push(ValType::I32);
            proof {
                assert(params@ =~= spec_entry_params(1));
                assert(results@ =~= spec_entry_results(1));
            }
            WasiFuncDesc {
                name: String::from_str("args_sizes_get"),
                params,
                results,
                is_async: false,
            }
        },
        2 => {
            let mut params: Vec<ValType> = Vec::new();
            let mut results: Vec<ValType> = Vec::new();
            params.push(ValType::I32);
            params.push(ValType::I32);
            results.push(ValType::I32);
            proof {
                assert(params@ =~= spec_entry_params(2));
                assert(results@ =~= spec_entry_results(2));
            }
            WasiFuncDesc {
                name: String::from_str("environ_get"),
                params,
                results,
                is_async: false,
            }
        },
        3 => {
            let mut params: Vec<ValType> = Vec::new();
            let mut results: Vec<ValType> = Vec::new();
            params.push(ValType::I32);
            params.push(ValType::I32);
            results.push(ValType::I32);
            proof {
                assert(params@ =~= spec_entry_params(3));
                assert(results@ =~= spec_entry_results(3));
            }
            WasiFuncDesc {
                name: String::from_str("environ_sizes_get"),
                params,
                results,
                is_async: false,
            }
        },
        4 => {
            let mut params: Vec<ValType> = Vec::new();
            let mut results: Vec<ValType> = Vec::new();
            params.push(ValType::I32);
            params.push(ValType::I64);
            results.push(ValType::I32);
            proof {
                assert(params@ =~= spec_entry_params(4));
                assert(results@ =~= spec_entry_results(4));
            }
            WasiFuncDesc {
                name: String::from_str("clock_res_get"),
                params,
                results,
                is_async: false,
            }
        },
        5 => {
            let mut params: Vec<ValType> = Vec::new();
            let mut results: Vec<ValType> = Vec::new();
            params.push(ValType::I32);
            params.push(ValType::I64);
            params.push(ValType::I32);
            results.push(ValType::I32);
            proof {
                assert(params@ =~= spec_entry_params(5));
                assert(results@ =~= spec_entry_results(5));
            }
            WasiFuncDesc {
                name: String::from_str("clock_time_get"),
                params,
                results,
                is_async: false,
            }
        },
        6 => {
            let mut params: Vec<ValType> = Vec::new();
            let mut results: Vec<ValType> = Vec::new();
            params.push(ValType::I32);
            params.push(ValType::I32);
            results.push(ValType::I32);
            proof {
                assert(params@ =~= spec_entry_params(6));
                assert(results@ =~= spec_entry_results(6));
            }
            WasiFuncDesc {
                name: String::from_str("random_get"),
                params,
                results,
                is_async: false,
            }
        },
        7 => {
            let mut params: Vec<ValType> = Vec::new();
            let mut results: Vec<ValType> = Vec::new();
            params.push(ValType::I32);
            params.push(ValType::I32);
            results.push(ValType::I32);
            proof {
                assert(params@ =~= spec_entry_params(7));
                assert(results@ =~= spec_entry_results(7));
            }
            WasiFuncDesc {
                name: String::from_str("fd_prestat_get"),
                params,
                results,
                is_async: false,
            }
        },
        8 => {
            let mut params: Vec<ValType> = Vec::new();
            let mut results: Vec<ValType> = Vec::new();
            params.push(ValType::I32);
            params.push(ValType::I32);
            params.push(ValType::I32);
            results.push(ValType::I32);
            proof {
                assert(params@ =~= spec_entry_params(8));
                assert(results@ =~= spec_entry_results(8));
            }
            WasiFuncDesc {
                name: String::from_str("fd_prestat_dir_name"),
                params,
                results,
                is_async: false,
            }
        },
        9 => {
            let mut params: Vec<ValType> = Vec::new();
            let mut results: Vec<ValType> = Vec::new();
            params.push(ValType::I32);
            params.push(ValType::I32);
            results.push(ValType::I32);
            proof {
                assert(params@ =~= spec_entry_params(9));
                assert(results@ =~= spec_entry_results(9));
            }
            WasiFuncDesc {
                name: String::from_str("fd_renumber"),
                params,
                results,
                is_async: false,
            }
        },
        10 => {
            let mut params: Vec<ValType> = Vec::new();
            let mut results: Vec<ValType> = Vec::new();
            params.push(ValType::I32);
            params.push(ValType::I64);
            params.push(ValType::I64);
            params.push(ValType::I32);
            results.push(ValType::I32);
            proof {
                assert(params@ =~= spec_entry_params(10));
                assert(results@ =~= spec_entry_results(10));
            }
            WasiFuncDesc {
                name: String::from_str("fd_advise"),
                params,
                results,
                is_async: false,
            }
        },
        11 => {
            let mut params: Vec<ValType> = Vec::new();
            let mut results: Vec<ValType> = Vec::new();
            params.push(ValType::I32);
            params.push(ValType::I64);
            params.push(ValType::I64);
            results.push(ValType::I32);
            proof {
                assert(params@ =~= spec_entry_params(11));
                assert(results@ =~= spec_entry_results(11));
            }
            WasiFuncDesc {
                name: String::from_str("fd_allocate"),
                params,
                results,
                is_async: false,
            }
        },
        12 => {
            let mut params: Vec<ValType> = Vec::new();
            let mut results: Vec<ValType> = Vec::new();
            params.push(ValType::I32);
            results.push(ValType::I32);
            proof {
                assert(params@ =~= spec_entry_params(12));
                assert(results@ =~= spec_entry_results(12));
            }
            WasiFuncDesc {
                name: String::from_str("fd_close"),
                params,
                results,
                is_async: false,
            }
        },
        13 => {
            let mut params: Vec<ValType> = Vec::new();
            let mut results: Vec<ValType> = Vec::new();
            params.push(ValType::I32);
            params.push(ValType::I64);
            params.push(ValType::I32);
            params.push(ValType::I32);
            results.push(ValType::I32);
            proof {
                assert(params@ =~= spec_entry_params(13));
                assert(results@ =~= spec_entry_results(13));
            }
            WasiFuncDesc {
                name: String::from_str("fd_seek"),
                params,
                results,
                is_async: false,
            }
        },
        _ => {
            let mut params: Vec<ValType> = Vec::new();
            let mut results: Vec<ValType> = Vec::new();
            params.push(ValType::I32);
            results.push(ValType::I32);
            proof {
                assert(params@ =~= spec_entry_params(14));
                assert(results@ =~= spec_entry_results(14));
            }
            WasiFuncDesc {
                name: String::from_str("fd_sync"),
                params,
                results,
                is_async: false,
            }
        },
    }
}

/// The table entries at positions 15 up to 30.
#[verifier::spinoff_prover]
#[verifier::rlimit(60)]
fn entry_for_b(i: usize) -> (r: WasiFuncDesc)
    requires
        15 <= i < 30,
    ensures
        r.name@ == spec_entry_name(i as int),
        r.params@ == spec_entry_params(i as int),
        r.results@ == spec_entry_results(i as int),
        r.is_async == is_async_slot(i as int),
{
    match i {
        15 => {
            let mut params: Vec<ValType> = Vec::new();
            let mut results: Vec<ValType> = Vec::new();
            params.push(ValType::I32);
            results.push(ValType::I32);
            proof {
                assert(params@ =~= spec_entry_params(15));
                assert(results@ =~= spec_entry_results(15));
            }
            WasiFuncDesc {
                name: String::from_str("fd_datasync"),
                params,
                results,
                is_async: false,
            }
        },
        16 => {
            let mut params: Vec<ValType> = Vec::new();
            let mut results: Vec<ValType> = Vec::new();
            params.push(ValType::I32);
            params.push(ValType::I32);
            results.push(ValType::I32);
            proof {
                assert(params@ =~= spec_entry_params(16));
                assert(results@ =~= spec_entry_results(16));
            }
            WasiFuncDesc {
                name: String::from_str("fd_tell"),
                params,
                results,
                is_async: false,
            }
        },
        17 => {
            let mut params: Vec<ValType> = Vec::new();
            let mut results: Vec<ValType> = Vec::new();
            params.push(ValType::I32);
            params.push(ValType::I32);
            results.push(ValType::I32);
            proof {
                assert(params@ =~= spec_entry_params(17));
                assert(results@ =~= spec_entry_results(17));
            }
            WasiFuncDesc {
                name: String::from_str("fd_fdstat_get"),
                params,
                results,
                is_async: false,
            }
        },
        18 => {
            let mut params: Vec<ValType> = Vec::new();
            let mut results: Vec<ValType> = Vec::new();
            params.push(ValType::I32);
            params.push(ValType::I32);
            results.push(ValType::I32);
            proof {
                assert(params@ =~= spec_entry_params(18));
                assert(results@ =~= spec_entry_results(18));
            }
            WasiFuncDesc {
                name: String::from_str("fd_fdstat_set_flags"),
                params,
                results,
                is_async: false,
            }
        },
        19 => {
            let mut params: Vec<ValType> = Vec::new();
            let mut results: Vec<ValType> = Vec::new();
            params.push(ValType::I32);
            params.push(ValType::I64);
            params.push(ValType::I64);
            results.push(ValType::I32);
            proof {
                assert(params@ =~= spec_entry_params(19));
                assert(results@ =~= spec_entry_results(19));
            }
            WasiFuncDesc {
                name: String::from_str("fd_fdstat_set_rights"),
                params,
                results,
                is_async: false,
            }
        },
        20 => {
            let mut params: Vec<ValType> = Vec::new();
            let mut results: Vec<ValType> = Vec::new();
            params.push(ValType::I32);
            params.push(ValType::I32);
            results.push(ValType::I32);
            proof {
                assert(params@ =~= spec_entry_params(20));
                assert(results@ =~= spec_entry_results(20));
            }
            WasiFuncDesc {
                name: String::from_str("fd_filestat_get"),
                params,
                results,
                is_async: false,
            }
        },
        21 => {
            let mut params: Vec<ValType> = Vec::new();
            let mut results: Vec<ValType> = Vec::new();
            params.push(ValType::I32);
            params.push(ValType::I32);
            results.push(ValType::I32);
            proof {
                assert(params@ =~= spec_entry_params(21));
                assert(results@ =~= spec_entry_results(21));
            }
            WasiFuncDesc {
                name: String::from_str("fd_filestat_set_size"),
                params,
                results,
                is_async: false,
            }
        },
        22 => {
            let mut params: Vec<ValType> = Vec::new();
            let mut results: Vec<ValType> = Vec::new();
            params.push(ValType::I32);
            params.push(ValType::I64);
            params.push(ValType::I64);
            params.push(ValType::I32);
            results.push(ValType::I32);
            proof {
                assert(params@ =~= spec_entry_params(22));
                assert(results@ =~= spec_entry_results(22));
            }
            WasiFuncDesc {
                name: String::from_str("fd_filestat_set_times"),
                params,
                results,
                is_async: false,
            }
        },
        23 => {
            let mut params: Vec<ValType> = Vec::new();
            let mut results: Vec<ValType> = Vec::new();
            params.push(ValType::I32);
            params.push(ValType::I32);
            params.push(ValType::I32);
            params.push(ValType::I32);
            results.push(ValType::I32);
            proof {
                assert(params@ =~= spec_entry_params(23));
                assert(results@ =~= spec_entry_results(23));
            }
            WasiFuncDesc {
                name: String::from_str("fd_read"),
                params,
                results,
                is_async: false,
            }
        },
        24 => {
            let mut params: Vec<ValType> = Vec::new();
            let mut results: Vec<ValType> = Vec::new();
            params.push(ValType::I32);
            params.push(ValType::I32);
            params.push(ValType::I32);
            params.push(ValType::I64);
            params.push(ValType::I32);
            results.push(ValType::I32);
            proof {
                assert(params@ =~= spec_entry_params(24));
                assert(results@ =~= spec_entry_results(24));
            }
            WasiFuncDesc {
                name: String::from_str("fd_pread"),
                params,
                results,
                is_async: false,
            }
        },
        25 => {
            let mut params: Vec<ValType> = Vec::new();
            let mut results: Vec<ValType> = Vec::new();
            params.push(ValType::I32);
            params.push(ValType::I32);
            params.push(ValType::I32);
            params.push(ValType::I32);
            results.push(ValType::I32);
            proof {
                assert(params@ =~= spec_entry_params(25));
                assert(results@ =~= spec_entry_results(25));
            }
            WasiFuncDesc {
                name: String::from_str("fd_write"),
                params,
                results,
                is_async: false,
            }
        },
        26 => {
            let mut params: Vec<ValType> = Vec::new();
            let mut results: Vec<ValType> = Vec::new();
            params.push(ValType::I32);
            params.push(ValType::I32);
            params.push(ValType::I32);
            params.push(ValType::I64);
            params.push(ValType::I32);
            results.push(ValType::I32);
            proof {
                assert(params@ =~= spec_entry_params(26));
                assert(results@ =~= spec_entry_results(26));
            }
            WasiFuncDesc {
                name: String::from_str("fd_pwrite"),
                params,
                results,
                is_async: false,
            }
        },
        27 => {
            let mut params: Vec<ValType> = Vec::new();
            let mut results: Vec<ValType> = Vec::new();
            params.push(ValType::I32);
            params.push(ValType::I32);
            params.push(ValType::I32);
            params.push(ValType::I64);
            params.push(ValType::I32);
            results.push(ValType::I32);
            proof {
                assert(params@ =~= spec_entry_params(27));
                assert(results@ =~= spec_entry_results(27));
            }
            WasiFuncDesc {
                name: String::from_str("fd_readdir"),
                params,
                results,
                is_async: false,
            }
        },
        28 => {
            let mut params: Vec<ValType> = Vec::new();
            let mut results: Vec<ValType> = Vec::new();
            params.push(ValType::I32);
            params.push(ValType::I32);
            params.push(ValType::I32);
            results.push(ValType::I32);
            proof {
                assert(params@ =~= spec_entry_params(28));
                assert(results@ =~= spec_entry_results(28));
            }
            WasiFuncDesc {
                name: String::from_str("path_create_directory"),
                params,
                results,
                is_async: false,
            }
        },
        _ => {
            let mut params: Vec<ValType> = Vec::new();
            let mut results: Vec<ValType> = Vec::new();
            params.push(ValType::I32);
            params.push(ValType::I32);
            params.push(ValType::I32);
            params.push(ValType::I32);
            params.push(ValType::I32);
            results.push(ValType::I32);
            proof {
                assert(params@ =~= spec_entry_params(29));
                assert(results@ =~= spec_entry_results(29));
            }
            WasiFuncDesc {
                name: String::from_str("path_filestat_get"),
                params,
                results,
                is_async: false,
            }
        },
    }
}

/// The table entries at positions 30 up to 38.
#[verifier::spinoff_prover]
#[verifier::rlimit(60)]
fn entry_for_c(i: usize) -> (r: WasiFuncDesc)
    requires
        30 <= i < 38,
    ensures
        r.name@ == spec_entry_name(i as int),
        r.params@ == spec_entry_params(i as int),
        r.results@ == spec_entry_results(i as int),
        r.is_async == is_async_slot(i as int),
{
    match i {
        30 => {
            let mut params: Vec<ValType> = Vec::new();
            let mut results: Vec<ValType> = Vec::new();
            params.push(ValType::I32);
            params.push(ValType::I32);
            params.push(ValType::I32);
            params.push(ValType::I32);
            params.push(ValType::I64);
            params.push(ValType::I64);
            params.push(ValType::I32);
            results.push(ValType::I32);
            proof {
                assert(params@ =~= spec_entry_params(30));
                assert(results@ =~= spec_entry_results(30));
            }
            WasiFuncDesc {
                name: String::from_str("path_filestat_set_times"),
                params,
                results,
                is_async: false,
            }
        },
        31 => {
            let mut params: Vec<ValType> = Vec::new();
            let mut results: Vec<ValType> = Vec::new();
            params.push(ValType::I32);
            params.push(ValType::I32);
            params.push(ValType::I32);
            params.push(ValType::I32);
            params.push(ValType::I32);
            params.push(ValType::I32);
            params.push(ValType::I32);
            results.push(ValType::I32);
            proof {
                assert(params@ =~= spec_entry_params(31));
                assert(results@ =~= spec_entry_results(31));
            }
            WasiFuncDesc {
                name: String::from_str("path_link"),
                params,
                results,
                is_async: false,
            }
        },
        32 => {
            let mut params: Vec<ValType> = Vec::new();
            let mut results: Vec<ValType> = Vec::new();
            params.push(ValType::I32);
            params.push(ValType::I32);
            params.push(ValType::I32);
            params.push(ValType::I32);
            params.push(ValType::I32);
            params.push(ValType::I64);
            params.push(ValType::I64);
            params.push(ValType::I32);
            params.push(ValType::I32);
            results.push(ValType::I32);
            proof {
                assert(params@ =~= spec_entry_params(32));
                assert(results@ =~= spec_entry_results(32));
            }
            WasiFuncDesc {
                name: String::from_str("path_open"),
                params,
                results,
                is_async: false,
            }
        },
        33 => {
            let mut params: Vec<ValType> = Vec::new();
            let mut results: Vec<ValType> = Vec::new();
            params.push(ValType::I32);
            params.push(ValType::I32);
            params.push(ValType::I32);
            params.push(ValType::I32);
            params.push(ValType::I32);
            params.push(ValType::I32);
            results.push(ValType::I32);
            proof {
                assert(params@ =~= spec_entry_params(33));
                assert(results@ =~= spec_entry_results(33));
            }
            WasiFuncDesc {
                name: String::from_str("path_readlink"),
                params,
                results,
                is_async: false,
            }
        },
        34 => {
            let mut params: Vec<ValType> = Vec::new();
            let mut results: Vec<ValType> = Vec::new();
            params.push(ValType::I32);
            params.push(ValType::I32);
            params.push(ValType::I32);
            results.push(ValType::I32);
            proof {
                assert(params@ =~= spec_entry_params(34));
                assert(results@ =~= spec_entry_results(34));
            }
            WasiFuncDesc {
                name: String::from_str("path_remove_directory"),
                params,
                results,
                is_async: false,
            }
        },
        35 => {
            let mut params: Vec<ValType> = Vec::new();
            let mut results: Vec<ValType> = Vec::new();
            params.push(ValType::I32);
            params.push(ValType::I32);
            params.push(ValType::I32);
            params.push(ValType::I32);
            params.push(ValType::I32);
            params.push(ValType::I32);
            results.push(ValType::I32);
            proof {
                assert(params@ =~= spec_entry_params(35));
                assert(results@ =~= spec_entry_results(35));
            }
            WasiFuncDesc {
                name: String::from_str("path_rename"),
                params,
                results,
                is_async: false,
            }
        },
        36 => {
            let mut params: Vec<ValType> = Vec::new();
            let mut results: Vec<ValType> = Vec::new();
            params.push(ValType::I32);
            params.push(ValType::I32);
            params.push(ValType::I32);
            params.push(ValType::I32);
            params.push(ValType::I32);
            results.push(ValType::I32);
            proof {
                assert(params@ =~= spec_entry_params(36));
                assert(results@ =~= spec_entry_results(36));
            }
            WasiFuncDesc {
                name: String::from_str("path_rename"),
                params,
                results,
                is_async: false,
            }
        },
        _ => {
            let mut params: Vec<ValType> = Vec::new();
            let mut results: Vec<ValType> = Vec::new();
            params.push(ValType::I32);
            params.push(ValType::I32);
            params.push(ValType::I32);
            results.push(ValType::I32);
            proof {
                assert(params@ =~= spec_entry_params(37));
                assert(results@ =~= spec_entry_results(37));
            }
            WasiFuncDesc {
                name: String::from_str("path_unlink_file"),
                params,
                results,
                is_async: false,
            }
        },
    }
}

/// The table entries at positions 38 up to 45.
#[verifier::spinoff_prover]
#[verifier::rlimit(60)]
fn entry_for_cc(i: usize) -> (r: WasiFuncDesc)
    requires
        38 <= i < 45,
    ensures
        r.name@ == spec_entry_name(i as int),
        r.params@ == spec_entry_params(i as int),
        r.results@ == spec_entry_results(i as int),
        r.is_async == is_async_slot(i as int),
{
    match i {
        38 => {
            let mut params: Vec<ValType> = Vec::new();
            let mut results: Vec<ValType> = Vec::new();
            params.push(ValType::I32);
            proof {
                assert(params@ =~= spec_entry_params(38));
                assert(results@ =~= spec_entry_results(38));
            }
            WasiFuncDesc {
                name: String::from_str("proc_exit"),
                params,
                results,
                is_async: false,
            }
        },
        39 => {
            let mut params: Vec<ValType> = Vec::new();
            let mut results: Vec<ValType> = Vec::new();
            params.push(ValType::I32);
            results.push(ValType::I32);
            proof {
                assert(params@ =~= spec_entry_params(39));
                assert(results@ =~= spec_entry_results(39));
            }
            WasiFuncDesc {
                name: String::from_str("proc_raise"),
                params,
                results,
                is_async: false,
            }
        },
        40 => {
            let mut params: Vec<ValType> = Vec::new();
            let mut results: Vec<ValType> = Vec::new();
            results.push(ValType::I32);
            proof {
                assert(params@ =~= spec_entry_params(40));
                assert(results@ =~= spec_entry_results(40));
            }
            WasiFuncDesc {
                name: String::from_str("sched_yield"),
                params,
                results,
                is_async: false,
            }
        },
        41 => {
            let mut params: Vec<ValType> = Vec::new();
            let mut results: Vec<ValType> = Vec::new();
            params.push(ValType::I32);
            params.push(ValType::I32);
            params.push(ValType::I32);
            results.push(ValType::I32);
            proof {
                assert(params@ =~= spec_entry_params(41));
                assert(results@ =~= spec_entry_results(41));
            }
            WasiFuncDesc {
                name: String::from_str("sock_open"),
                params,
                results,
                is_async: false,
            }
        },
        42 => {
            let mut params: Vec<ValType> = Vec::new();
            let mut results: Vec<ValType> = Vec::new();
            params.push(ValType::I32);
            params.push(ValType::I32);
            params.push(ValType::I32);
            results.push(ValType::I32);
            proof {
                assert(params@ =~= spec_entry_params(42));
                assert(results@ =~= spec_entry_results(42));
            }
            WasiFuncDesc {
                name: String::from_str("sock_bind"),
                params,
                results,
                is_async: false,
            }
        },
        43 => {
            let mut params: Vec<ValType> = Vec::new();
            let mut results: Vec<ValType> = Vec::new();
            params.push(ValType::I32);
            params.push(ValType::I32);
            results.push(ValType::I32);
            proof {
                assert(params@ =~= spec_entry_params(43));
                assert(results@ =~= spec_entry_results(43));
            }
            WasiFuncDesc {
                name: String::from_str("sock_listen"),
                params,
                results,
                is_async: false,
            }
        },
        _ => {
            let mut params: Vec<ValType> = Vec::new();
            let mut results: Vec<ValType> = Vec::new();
            params.push(ValType::I32);
            params.push(ValType::I32);
            results.push(ValType::I32);
            proof {
                assert(params@ =~= spec_entry_params(44));
                assert(results@ =~= spec_entry_results(44));
            }
            WasiFuncDesc {
                name: String::from_str("sock_accept"),
                params,
                results,
                is_async: true,
            }
        },
    }
}

/// The table entries at positions 45 up to 57.
#[verifier::spinoff_prover]
#[verifier::rlimit(60)]
fn entry_for_d(i: usize) -> (r: WasiFuncDesc)
    requires
        45 <= i < 57,
    ensures
        r.name@ == spec_entry_name(i as int),
        r.params@ == spec_entry_params(i as int),
        r.results@ == spec_entry_results(i as int),
        r.is_async == is_async_slot(i as int),
{
    match i {
        45 => {
            let mut params: Vec<ValType> = Vec::new();
            let mut results: Vec<ValType> = Vec::new();
            params.push(ValType::I32);
            params.push(ValType::I32);
            params.push(ValType::I32);
            results.push(ValType::I32);
            proof {
                assert(params@ =~= spec_entry_params(45));
                assert(results@ =~= spec_entry_results(45));
            }
            WasiFuncDesc {
                name: String::from_str("sock_connect"),
                params,
                results,
                is_async: true,
            }
        },
        46 => {
            let mut params: Vec<ValType> = Vec::new();
            let mut results: Vec<ValType> = Vec::new();
            params.push(ValType::I32);
            params.push(ValType::I32);
            params.push(ValType::I32);
            params.push(ValType::I32);
            params.push(ValType::I32);
            params.push(ValType::I32);
            results.push(ValType::I32);
            proof {
                assert(params@ =~= spec_entry_params(46));
                assert(results@ =~= spec_entry_results(46));
            }
            WasiFuncDesc {
                name: String::from_str("sock_recv"),
                params,
                results,
                is_async: true,
            }
        },
        47 => {
            let mut params: Vec<ValType> = Vec::new();
            let mut results: Vec<ValType> = Vec::new();
            params.push(ValType::I32);
            params.push(ValType::I32);
            params.push(ValType::I32);
            params.push(ValType::I32);
            params.push(ValType::I32);
            params.push(ValType::I32);
            params.push(ValType::I32);
            params.push(ValType::I32);
            results.push(ValType::I32);
            proof {
                assert(params@ =~= spec_entry_params(47));
                assert(results@ =~= spec_entry_results(47));
            }
            WasiFuncDesc {
                name: String::from_str("sock_recv_from"),
                params,
                results,
                is_async: true,
            }
        },
        48 => {
            let mut params: Vec<ValType> = Vec::new();
            let mut results: Vec<ValType> = Vec::new();
            params.push(ValType::I32);
            params.push(ValType::I32);
            params.push(ValType::I32);
            params.push(ValType::I32);
            params.push(ValType::I32);
            results.push(ValType::I32);
            proof {
                assert(params@ =~= spec_entry_params(48));
                assert(results@ =~= spec_entry_results(48));
            }
            WasiFuncDesc {
                name: String::from_str("sock_send"),
                params,
                results,
                is_async: true,
            }
        },
        49 => {
            let mut params: Vec<ValType> = Vec::new();
            let mut results: Vec<ValType> = Vec::new();
            params.push(ValType::I32);
            params.push(ValType::I32);
            params.push(ValType::I32);
            params.push(ValType::I32);
            params.push(ValType::I32);
            params.push(ValType::I32);
            params.push(ValType::I32);
            results.push(ValType::I32);
            proof {
                assert(params@ =~= spec_entry_params(49));
                assert(results@ =~= spec_entry_results(49));
            }
            WasiFuncDesc {
                name: String::from_str("sock_send_to"),
                params,
                results,
                is_async: true,
            }
        },
        50 => {
            let mut params: Vec<ValType> = Vec::new();
            let mut results: Vec<ValType> = Vec::new();
            params.push(ValType::I32);
            params.push(ValType::I32);
            results.push(ValType::I32);
            proof {
                assert(params@ =~= spec_entry_params(50));
                assert(results@ =~= spec_entry_results(50));
            }
            WasiFuncDesc {
                name: String::from_str("sock_shutdown"),
                params,
                results,
                is_async: false,
            }
        },
        51 => {
            let mut params: Vec<ValType> = Vec::new();
            let mut results: Vec<ValType> = Vec::new();
            params.push(ValType::I32);
            params.push(ValType::I32);
            params.push(ValType::I32);
            params.push(ValType::I32);
            results.push(ValType::I32);
            proof {
                assert(params@ =~= spec_entry_params(51));
                assert(results@ =~= spec_entry_results(51));
            }
            WasiFuncDesc {
                name: String::from_str("sock_getpeeraddr"),
                params,
                results,
                is_async: false,
            }
        },
        52 => {
            let mut params: Vec<ValType> = Vec::new();
            let mut results: Vec<ValType> = Vec::new();
            params.push(ValType::I32);
            params.push(ValType::I32);
            params.push(ValType::I32);
            params.push(ValType::I32);
            results.push(ValType::I32);
            proof {
                assert(params@ =~= spec_entry_params(52));
                assert(results@ =~= spec_entry_results(52));
            }
            WasiFuncDesc {
                name: String::from_str("sock_getlocaladdr"),
                params,
                results,
                is_async: false,
            }
        },
        53 => {
            let mut params: Vec<ValType> = Vec::new();
            let mut results: Vec<ValType> = Vec::new();
            params.push(ValType::I32);
            params.push(ValType::I32);
            params.push(ValType::I32);
            params.push(ValType::I32);
            params.push(ValType::I32);
            results.push(ValType::I32);
            proof {
                assert(params@ =~= spec_entry_params(53));
                assert(results@ =~= spec_entry_results(53));
            }
            WasiFuncDesc {
                name: String::from_str("sock_getsockopt"),
                params,
                results,
                is_async: false,
            }
        },
        54 => {
            let mut params: Vec<ValType> = Vec::new();
            let mut results: Vec<ValType> = Vec::new();
            params.push(ValType::I32);
            params.push(ValType::I32);
            params.push(ValType::I32);
            params.push(ValType::I32);
            params.push(ValType::I32);
            results.push(ValType::I32);
            proof {
                assert(params@ =~= spec_entry_params(54));
                assert(results@ =~= spec_entry_results(54));
            }
            WasiFuncDesc {
                name: String::from_str("sock_setsockopt"),
                params,
                results,
                is_async: false,
            }
        },
        55 => {
            let mut params: Vec<ValType> = Vec::new();
            let mut results: Vec<ValType> = Vec::new();
            params.push(ValType::I32);
            params.push(ValType::I32);
            params.push(ValType::I32);
            params.push(ValType::I32);
            results.push(ValType::I32);
            proof {
                assert(params@ =~= spec_entry_params(55));
                assert(results@ =~= spec_entry_results(55));
            }
            WasiFuncDesc {
                name: String::from_str("poll_oneoff"),
                params,
                results,
                is_async: true,
            }
        },
        _ => {
            let mut params: Vec<ValType> = Vec::new();
            let mut results: Vec<ValType> = Vec::new();
            params.push(ValType::I32);
            params.push(ValType::I32);
            params.push(ValType::I32);
            params.push(ValType::I32);
            params.push(ValType::I32);
            params.push(ValType::I32);
            results.push(ValType::I32);
            proof {
                assert(params@ =~= spec_entry_params(56));
                assert(results@ =~= spec_entry_results(56));
            }
            WasiFuncDesc {
                name: String::from_str("sock_lookup_ip"),
                params,
                results,
                is_async: true,
            }
        },
    }
}

/// The full registration table, in registration order: every entry's name,
/// signature and binding kind is pinned, position by position.
pub fn wasi_impls() -> (r: Vec<WasiFuncDesc>)
    ensures
        r@.len() == 57,
        forall|i: int|
            0 <= i < 57 ==> (#[trigger] r@[i]).name@ == spec_entry_name(i) && r@[i].params@
                == spec_entry_params(i) && r@[i].results@ == spec_entry_results(i) && (
            r@[i].is_async <==> is_async_slot(i)),
{
    let mut table: Vec<WasiFuncDesc> = Vec::new();
    let mut i: usize = 0;
    while i < 57
        invariant
            i <= 57,
            table@.len() == i,
            forall|j: int|
                0 <= j < i ==> (#[trigger] table@[j]).name@ == spec_entry_name(j)
                    && table@[j].params@ == spec_entry_params(j) && table@[j].results@
                    == spec_entry_results(j) && (table@[j].is_async <==> is_async_slot(j)),
        decreases 57 - i,
    {
        table.push(entry_for(i));
        i = i + 1;
    }
    table
}

} // verus!
