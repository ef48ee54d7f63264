//! The socket-option decision table: which options a guest may read or
//! write, the size each expects, and how each maps onto the socket's plain
//! state. Everything here is a pure decision; the embedder performs any
//! operation the decision calls for on the live socket.

use vstd::prelude::*;

use crate::errno::Errno;
use crate::net::{ConnectState, SocketType, WasiSocketState};

verus! {

/// The only supported socket-option level.
pub const SOCK_OPT_LEVEL_SOL_SOCKET: u32 = 0;

/// Address reuse.
pub const SOCK_OPT_SO_REUSEADDR: u32 = 0;

/// Socket kind (stream or datagram).
pub const SOCK_OPT_SO_TYPE: u32 = 1;

/// Pending socket error.
pub const SOCK_OPT_SO_ERROR: u32 = 2;

/// Bypass routing; unsupported.
pub const SOCK_OPT_SO_DONTROUTE: u32 = 3;

/// Broadcast; unsupported.
pub const SOCK_OPT_SO_BROADCAST: u32 = 4;

/// Send buffer size.
pub const SOCK_OPT_SO_SNDBUF: u32 = 5;

/// Receive buffer size.
pub const SOCK_OPT_SO_RCVBUF: u32 = 6;

/// Keep-alive; unsupported.
pub const SOCK_OPT_SO_KEEPALIVE: u32 = 7;

/// Out-of-band inline; unsupported.
pub const SOCK_OPT_SO_OOBINLINE: u32 = 8;

/// Linger; unsupported.
pub const SOCK_OPT_SO_LINGER: u32 = 9;

/// Receive low-water mark; unsupported.
pub const SOCK_OPT_SO_RCVLOWAT: u32 = 10;

/// Receive timeout.
pub const SOCK_OPT_SO_RCVTIMEO: u32 = 11;

/// Send timeout.
pub const SOCK_OPT_SO_SNDTIMEO: u32 = 12;

/// Whether the socket is accepting connections.
pub const SOCK_OPT_SO_ACCEPTCONN: u32 = 13;

/// The guest-visible encoding of a datagram socket's kind.
pub const SOCK_TYPE_DGRAM: i32 = 1;

/// The guest-visible encoding of a stream socket's kind.
pub const SOCK_TYPE_STREAM: i32 = 2;

/// The byte size the integer-valued options expect.
pub const OPT_INT_SIZE: u32 = 4;

/// The byte size the timeout options expect: two 64-bit fields.
pub const OPT_TIMEVAL_SIZE: u32 = 16;

/// What a successful option read tells the shim to write back to the guest.
#[derive(Clone, Copy, Debug, PartialEq, Eq, Structural)]
pub enum SockOptValue {
    /// Write this 32-bit value.
    Int(i32),
    /// Write this timeout as seconds and sub-second nanoseconds.
    Timeval {
        /// Whole seconds.
        tv_sec: i64,
        /// Sub-second nanoseconds.
        tv_usec: i64,
    },
    /// A timeout option that is not set: write nothing and report success.
    Unset,
    /// The pending-error option: the embedder must query the live socket
    /// and write whatever errno it reports.
    OsSocketError,
}

/// What `sock_getsockopt` decides, option by option.
pub open spec fn spec_getsockopt(
    state: WasiSocketState,
    level: u32,
    name: u32,
    flag_size: u32,
) -> Result<SockOptValue, Errno> {
    if level != SOCK_OPT_LEVEL_SOL_SOCKET {
        Err(Errno::Nosys)
    } else if name == SOCK_OPT_SO_REUSEADDR {
        if flag_size != OPT_INT_SIZE {
            Err(Errno::Inval)
        } else {
            Ok(
                SockOptValue::Int(
                    if state.so_reuseaddr {
                        1
                    } else {
                        0
                    },
                ),
            )
        }
    } else if name == SOCK_OPT_SO_TYPE {
        if flag_size != OPT_INT_SIZE {
            Err(Errno::Inval)
        } else {
            Ok(
                SockOptValue::Int(
                    match state.sock_type.kind {
                        SocketType::Datagram => SOCK_TYPE_DGRAM,
                        SocketType::Stream => SOCK_TYPE_STREAM,
                    },
                ),
            )
        }
    } else if name == SOCK_OPT_SO_ERROR {
        Ok(SockOptValue::OsSocketError)
    } else if name == SOCK_OPT_SO_SNDBUF {
        if flag_size != OPT_INT_SIZE {
            Err(Errno::Inval)
        } else {
            Ok(SockOptValue::Int(state.so_send_buf_size as i32))
        }
    } else if name == SOCK_OPT_SO_RCVBUF {
        if flag_size != OPT_INT_SIZE {
            Err(Errno::Inval)
        } else {
            Ok(SockOptValue::Int(state.so_recv_buf_size as i32))
        }
    } else if name == SOCK_OPT_SO_RCVTIMEO {
        if flag_size != OPT_TIMEVAL_SIZE {
            Err(Errno::Inval)
        } else {
            match state.so_recv_timeout {
                Some(nanos) => Ok(
                    SockOptValue::Timeval {
                        tv_sec: (nanos / 1_000_000_000) as i64,
                        tv_usec: (nanos % 1_000_000_000) as i64,
                    },
                ),
                None => Ok(SockOptValue::Unset),
            }
        }
    } else if name == SOCK_OPT_SO_SNDTIMEO {
        if flag_size != OPT_TIMEVAL_SIZE {
            Err(Errno::Inval)
        } else {
            match state.so_send_timeout {
                Some(nanos) => Ok(
                    SockOptValue::Timeval {
                        tv_sec: (nanos / 1_000_000_000) as i64,
                        tv_usec: (nanos % 1_000_000_000) as i64,
                    },
                ),
                None => Ok(SockOptValue::Unset),
            }
        }
    } else if name == SOCK_OPT_SO_ACCEPTCONN {
        if flag_size != OPT_INT_SIZE {
            Err(Errno::Inval)
        } else {
            Ok(
                SockOptValue::Int(
                    if state.so_conn_state is Listening {
                        1
                    } else {
                        0
                    },
                ),
            )
        }
    } else if name == SOCK_OPT_SO_DONTROUTE || name == SOCK_OPT_SO_BROADCAST || name
        == SOCK_OPT_SO_KEEPALIVE || name == SOCK_OPT_SO_OOBINLINE || name == SOCK_OPT_SO_LINGER
        || name == SOCK_OPT_SO_RCVLOWAT {
        Err(Errno::Nosys)
    } else {
        Err(Errno::Noprotoopt)
    }
}

/// Read one socket option from the socket's plain state. Only the
/// `SOL_SOCKET` level exists; a size that does not match the option is
/// invalid; the handful of unimplemented options report `Nosys`; an unknown
/// option reports `Noprotoopt`.
pub fn sock_getsockopt(state: &WasiSocketState, level: u32, name: u32, flag_size: u32) -> (r:
    Result<SockOptValue, Errno>)
    ensures
        r == spec_getsockopt(*state, level, name, flag_size),
{
    if level != SOCK_OPT_LEVEL_SOL_SOCKET {
        return Err(Errno::Nosys);
    }
    if name == SOCK_OPT_SO_REUSEADDR {
        if flag_size != OPT_INT_SIZE {
            return Err(Errno::Inval);
        }
        Ok(SockOptValue::Int(if state.so_reuseaddr {
            1
        } else {
            0
        }))
    } else if name == SOCK_OPT_SO_TYPE {
        if flag_size != OPT_INT_SIZE {
            return Err(Errno::Inval);
        }
        Ok(
            SockOptValue::Int(
                match state.sock_type.kind {
                    SocketType::Datagram => SOCK_TYPE_DGRAM,
                    SocketType::Stream => SOCK_TYPE_STREAM,
                },
            ),
        )
    } else if name == SOCK_OPT_SO_ERROR {
        Ok(SockOptValue::OsSocketError)
    } else if name == SOCK_OPT_SO_SNDBUF {
        if flag_size != OPT_INT_SIZE {
            return Err(Errno::Inval);
        }
        Ok(SockOptValue::Int(state.so_send_buf_size as i32))
    } else if name == SOCK_OPT_SO_RCVBUF {
        if flag_size != OPT_INT_SIZE {
            return Err(Errno::Inval);
        }
        Ok(SockOptValue::Int(state.so_recv_buf_size as i32))
    } else if name == SOCK_OPT_SO_RCVTIMEO {
        if flag_size != OPT_TIMEVAL_SIZE {
            return Err(Errno::Inval);
        }
        match state.so_recv_timeout {
            Some(nanos) => Ok(
                SockOptValue::Timeval {
                    tv_sec: (nanos / 1_000_000_000) as i64,
                    tv_usec: (nanos % 1_000_000_000) as i64,
                },
            ),
            None => Ok(SockOptValue::Unset),
        }
    } else if name == SOCK_OPT_SO_SNDTIMEO {
        if flag_size != OPT_TIMEVAL_SIZE {
            return Err(Errno::Inval);
        }
        match state.so_send_timeout {
            Some(nanos) => Ok(
                SockOptValue::Timeval {
                    tv_sec: (nanos / 1_000_000_000) as i64,
                    tv_usec: (nanos % 1_000_000_000) as i64,
                },
            ),
            None => Ok(SockOptValue::Unset),
        }
    } else if name == SOCK_OPT_SO_ACCEPTCONN {
        if flag_size != OPT_INT_SIZE {
            return Err(Errno::Inval);
        }
        Ok(SockOptValue::Int(match state.so_conn_state {
            ConnectState::Listening => 1,
            _ => 0,
        }))
    } else if name == SOCK_OPT_SO_DONTROUTE || name == SOCK_OPT_SO_BROADCAST || name
        == SOCK_OPT_SO_KEEPALIVE || name == SOCK_OPT_SO_OOBINLINE || name == SOCK_OPT_SO_LINGER
        || name == SOCK_OPT_SO_RCVLOWAT {
        Err(Errno::Nosys)
    } else {
        Err(Errno::Noprotoopt)
    }
}

/// What `sock_setsockopt` decides and the new state it installs.
pub open spec fn spec_setsockopt(
    state: WasiSocketState,
    level: u32,
    name: u32,
    flag: i32,
    timeval: (i64, i64),
    flag_size: u32,
) -> Result<WasiSocketState, Errno> {
    if level != SOCK_OPT_LEVEL_SOL_SOCKET {
        Err(Errno::Nosys)
    } else if name == SOCK_OPT_SO_REUSEADDR {
        if flag_size != OPT_INT_SIZE {
            Err(Errno::Inval)
        } else {
            Ok(WasiSocketState { so_reuseaddr: flag > 0, ..state })
        }
    } else if name == SOCK_OPT_SO_TYPE || name == SOCK_OPT_SO_ERROR || name
        == SOCK_OPT_SO_ACCEPTCONN {
        Err(Errno::Fault)
    } else if name == SOCK_OPT_SO_SNDBUF {
        if flag_size != OPT_INT_SIZE {
            Err(Errno::Inval)
        } else {
            Ok(WasiSocketState { so_send_buf_size: flag as usize, ..state })
        }
    } else if name == SOCK_OPT_SO_RCVBUF {
        if flag_size != OPT_INT_SIZE {
            Err(Errno::Inval)
        } else {
            Ok(WasiSocketState { so_recv_buf_size: flag as usize, ..state })
        }
    } else if name == SOCK_OPT_SO_RCVTIMEO {
        if flag_size != OPT_TIMEVAL_SIZE {
            Err(Errno::Inval)
        } else if timeval.0 == 0 && timeval.1 == 0 {
            Ok(WasiSocketState { so_recv_timeout: None, nonblocking: true, ..state })
        } else {
            Ok(
                WasiSocketState {
                    so_recv_timeout: Some(
                        (timeval.0 as u64 * 1_000_000_000 + timeval.1 as u64) as u64,
                    ),
                    nonblocking: true,
                    ..state
                },
            )
        }
    } else if name == SOCK_OPT_SO_SNDTIMEO {
        if flag_size != OPT_TIMEVAL_SIZE {
            Err(Errno::Inval)
        } else if timeval.0 == 0 && timeval.1 == 0 {
            Ok(WasiSocketState { so_send_timeout: None, nonblocking: true, ..state })
        } else {
            Ok(
                WasiSocketState {
                    so_send_timeout: Some(
                        (timeval.0 as u64 * 1_000_000_000 + timeval.1 as u64) as u64,
                    ),
                    nonblocking: true,
                    ..state
                },
            )
        }
    } else if name == SOCK_OPT_SO_DONTROUTE || name == SOCK_OPT_SO_BROADCAST || name
        == SOCK_OPT_SO_KEEPALIVE || name == SOCK_OPT_SO_OOBINLINE || name == SOCK_OPT_SO_LINGER
        || name == SOCK_OPT_SO_RCVLOWAT {
        Err(Errno::Nosys)
    } else {
        Err(Errno::Noprotoopt)
    }
}

/// Write one socket option into the socket's plain state. The read-only
/// options report `Fault`; a zero timeout clears the timeout; installing a
/// timeout also switches the socket to non-blocking waits, mirroring how
/// timeouts are implemented over readiness polling.
pub fn sock_setsockopt(
    state: &WasiSocketState,
    level: u32,
    name: u32,
    flag: i32,
    timeval: (i64, i64),
    flag_size: u32,
) -> (r: Result<WasiSocketState, Errno>)
    requires
        0 <= timeval.0,
        0 <= timeval.1 < 1_000_000_000,
        // the installed timeout must fit the nanosecond field
        timeval.0 * 1_000_000_000 + timeval.1 <= u64::MAX as int,
    ensures
        r == spec_setsockopt(*state, level, name, flag, timeval, flag_size),
{
    if level != SOCK_OPT_LEVEL_SOL_SOCKET {
        return Err(Errno::Nosys);
    }
    if name == SOCK_OPT_SO_REUSEADDR {
        if flag_size != OPT_INT_SIZE {
            return Err(Errno::Inval);
        }
        Ok(WasiSocketState { so_reuseaddr: flag > 0, ..*state })
    } else if name == SOCK_OPT_SO_TYPE || name == SOCK_OPT_SO_ERROR || name
        == SOCK_OPT_SO_ACCEPTCONN {
        Err(Errno::Fault)
    } else if name == SOCK_OPT_SO_SNDBUF {
        if flag_size != OPT_INT_SIZE {
            return Err(Errno::Inval);
        }
        Ok(WasiSocketState { so_send_buf_size: flag as usize, ..*state })
    } else if name == SOCK_OPT_SO_RCVBUF {
        if flag_size != OPT_INT_SIZE {
            return Err(Errno::Inval);
        }
        Ok(WasiSocketState { so_recv_buf_size: flag as usize, ..*state })
    } else if name == SOCK_OPT_SO_RCVTIMEO {
        if flag_size != OPT_TIMEVAL_SIZE {
            return Err(Errno::Inval);
        }
        if timeval.0 == 0 && timeval.1 == 0 {
            Ok(WasiSocketState { so_recv_timeout: None, nonblocking: true, ..*state })
        } else {
            let nanos: u64 = (timeval.0 as u64) * 1_000_000_000 + (timeval.1 as u64);
            Ok(WasiSocketState { so_recv_timeout: Some(nanos), nonblocking: true, ..*state })
        }
    } else if name == SOCK_OPT_SO_SNDTIMEO {
        if flag_size != OPT_TIMEVAL_SIZE {
            return Err(Errno::Inval);
        }
        if timeval.0 == 0 && timeval.1 == 0 {
            Ok(WasiSocketState { so_send_timeout: None, nonblocking: true, ..*state })
        } else {
            let nanos: u64 = (timeval.0 as u64) * 1_000_000_000 + (timeval.1 as u64);
            Ok(WasiSocketState { so_send_timeout: Some(nanos), nonblocking: true, ..*state })
        }
    } else if name == SOCK_OPT_SO_DONTROUTE || name == SOCK_OPT_SO_BROADCAST || name
        == SOCK_OPT_SO_KEEPALIVE || name == SOCK_OPT_SO_OOBINLINE || name == SOCK_OPT_SO_LINGER
        || name == SOCK_OPT_SO_RCVLOWAT {
        Err(Errno::Nosys)
    } else {
        Err(Errno::Noprotoopt)
    }
}

} // verus!
