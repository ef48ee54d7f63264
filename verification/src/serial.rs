//! The transmissible projection of a guest context: every table slot maps to
//! a tagged, plain-value form, and a serialized context can be rebuilt into
//! a live table with embedder help.
//!
//! Console streams and pre-opened directories serialize as small stateless
//! tags. A socket serializes with its full plain state; a shut-down socket
//! serializes as closed. The `IoState` carried alongside records what the
//! guest's last call was waiting on, so that after a restore the embedder can
//! schedule exactly the right action.

use vstd::prelude::*;

use crate::net::{AddressFamily, ConnectState, SockKind, SocketAddr, SocketType, WasiSocketState};
use crate::vfs::{INode, VFD, WasiCtx, WasiPreOpenDir};

verus! {

/// The wire form of a socket's family and kind.
#[derive(Clone, Copy, Debug, PartialEq, Eq, Structural)]
pub enum SerialSocketType {
    /// IPv4 stream.
    TCP4,
    /// IPv6 stream.
    TCP6,
    /// IPv4 datagram.
    UDP4,
    /// IPv6 datagram.
    UDP6,
}

impl SerialSocketType {
    /// The wire tag for a family/kind pair.
    pub fn from_kind(kind: SockKind) -> (r: Self)
        ensures
            r == Self::spec_from_kind(kind),
    {
        match (kind.family, kind.kind) {
            (AddressFamily::Inet4, SocketType::Datagram) => SerialSocketType::UDP4,
            (AddressFamily::Inet4, SocketType::Stream) => SerialSocketType::TCP4,
            (AddressFamily::Inet6, SocketType::Datagram) => SerialSocketType::UDP6,
            (AddressFamily::Inet6, SocketType::Stream) => SerialSocketType::TCP6,
        }
    }

    /// What `from_kind` returns.
    pub open spec fn spec_from_kind(kind: SockKind) -> Self {
        match (kind.family, kind.kind) {
            (AddressFamily::Inet4, SocketType::Datagram) => SerialSocketType::UDP4,
            (AddressFamily::Inet4, SocketType::Stream) => SerialSocketType::TCP4,
            (AddressFamily::Inet6, SocketType::Datagram) => SerialSocketType::UDP6,
            (AddressFamily::Inet6, SocketType::Stream) => SerialSocketType::TCP6,
        }
    }

    /// The family/kind pair a wire tag denotes.
    pub fn into_kind(self) -> (r: SockKind)
        ensures
            r == self.spec_into_kind(),
            Self::spec_from_kind(r) == self,
    {
        match self {
            SerialSocketType::TCP4 => SockKind {
                family: AddressFamily::Inet4,
                kind: SocketType::Stream,
            },
            SerialSocketType::TCP6 => SockKind {
                family: AddressFamily::Inet6,
                kind: SocketType::Stream,
            },
            SerialSocketType::UDP4 => SockKind {
                family: AddressFamily::Inet4,
                kind: SocketType::Datagram,
            },
            SerialSocketType::UDP6 => SockKind {
                family: AddressFamily::Inet6,
                kind: SocketType::Datagram,
            },
        }
    }

    /// What `into_kind` returns.
    pub open spec fn spec_into_kind(self) -> SockKind {
        match self {
            SerialSocketType::TCP4 => SockKind {
                family: AddressFamily::Inet4,
                kind: SocketType::Stream,
            },
            SerialSocketType::TCP6 => SockKind {
                family: AddressFamily::Inet6,
                kind: SocketType::Stream,
            },
            SerialSocketType::UDP4 => SockKind {
                family: AddressFamily::Inet4,
                kind: SocketType::Datagram,
            },
            SerialSocketType::UDP6 => SockKind {
                family: AddressFamily::Inet6,
                kind: SocketType::Datagram,
            },
        }
    }
}

/// The wire form of a socket's connection life-cycle state.
#[derive(Clone, Copy, Debug, PartialEq, Eq, Structural)]
pub enum SerialConnectState {
    /// Neither listening nor connected.
    Empty,
    /// A listener.
    Listening,
    /// Connected to a peer.
    Connected,
}

impl SerialConnectState {
    /// The wire tag for a connection state.
    pub fn from_state(s: ConnectState) -> (r: Self)
        ensures
            r == Self::spec_from_state(s),
    {
        match s {
            ConnectState::Empty => SerialConnectState::Empty,
            ConnectState::Listening => SerialConnectState::Listening,
            ConnectState::Connect => SerialConnectState::Connected,
        }
    }

    /// What `from_state` returns.
    pub open spec fn spec_from_state(s: ConnectState) -> Self {
        match s {
            ConnectState::Empty => SerialConnectState::Empty,
            ConnectState::Listening => SerialConnectState::Listening,
            ConnectState::Connect => SerialConnectState::Connected,
        }
    }

    /// The connection state a wire tag denotes.
    pub fn into_state(self) -> (r: ConnectState)
        ensures
            Self::spec_from_state(r) == self,
    {
        match self {
            SerialConnectState::Empty => ConnectState::Empty,
            SerialConnectState::Listening => ConnectState::Listening,
            SerialConnectState::Connected => ConnectState::Connect,
        }
    }
}

/// The wire form of a socket's full plain state.
#[derive(Clone, Copy, Debug, PartialEq, Eq, Structural)]
pub struct SerialWasiSocketState {
    /// Family and kind.
    pub sock_type: SerialSocketType,
    /// Bound local address.
    pub local_addr: Option<SocketAddr>,
    /// Connected peer address.
    pub peer_addr: Option<SocketAddr>,
    /// Listener backlog.
    pub backlog: u32,
    /// Non-blocking mode.
    pub nonblocking: bool,
    /// The `SO_REUSEADDR` option.
    pub so_reuseaddr: bool,
    /// Connection life-cycle state.
    pub so_conn_state: SerialConnectState,
    /// Receive buffer size in bytes.
    pub so_recv_buf_size: usize,
    /// Send buffer size in bytes.
    pub so_send_buf_size: usize,
    /// Receive timeout in nanoseconds.
    pub so_recv_timeout: Option<u64>,
    /// Send timeout in nanoseconds.
    pub so_send_timeout: Option<u64>,
    /// WASI rights bitmask.
    pub fs_rights: u64,
}

impl SerialWasiSocketState {
    /// Project a socket's runtime state to its wire form. The shutdown flag
    /// is not carried: a shut-down socket serializes as closed instead.
    pub fn from_state(state: &WasiSocketState) -> (r: Self)
        ensures
            r == Self::spec_from_state(*state),
    {
        SerialWasiSocketState {
            sock_type: SerialSocketType::from_kind(state.sock_type),
            local_addr: state.local_addr,
            peer_addr: state.peer_addr,
            backlog: state.backlog,
            nonblocking: state.nonblocking,
            so_reuseaddr: state.so_reuseaddr,
            so_conn_state: SerialConnectState::from_state(state.so_conn_state),
            so_recv_buf_size: state.so_recv_buf_size,
            so_send_buf_size: state.so_send_buf_size,
            so_recv_timeout: state.so_recv_timeout,
            so_send_timeout: state.so_send_timeout,
            fs_rights: state.fs_rights,
        }
    }

    /// What `from_state` returns.
    pub open spec fn spec_from_state(state: WasiSocketState) -> Self {
        SerialWasiSocketState {
            sock_type: SerialSocketType::spec_from_kind(state.sock_type),
            local_addr: state.local_addr,
            peer_addr: state.peer_addr,
            backlog: state.backlog,
            nonblocking: state.nonblocking,
            so_reuseaddr: state.so_reuseaddr,
            so_conn_state: SerialConnectState::spec_from_state(state.so_conn_state),
            so_recv_buf_size: state.so_recv_buf_size,
            so_send_buf_size: state.so_send_buf_size,
            so_recv_timeout: state.so_recv_timeout,
            so_send_timeout: state.so_send_timeout,
            fs_rights: state.fs_rights,
        }
    }

    /// Rebuild a runtime state from the wire form: everything carries over,
    /// and the shutdown flag starts clear.
    pub fn into_state(&self) -> (r: WasiSocketState)
        ensures
            r == self.spec_into_state(),
            Self::spec_from_state(r) == *self,
            r.shutdown is None,
    {
        WasiSocketState {
            sock_type: self.sock_type.into_kind(),
            local_addr: self.local_addr,
            peer_addr: self.peer_addr,
            backlog: self.backlog,
            shutdown: None,
            nonblocking: self.nonblocking,
            so_reuseaddr: self.so_reuseaddr,
            so_conn_state: self.so_conn_state.into_state(),
            so_recv_buf_size: self.so_recv_buf_size,
            so_send_buf_size: self.so_send_buf_size,
            so_recv_timeout: self.so_recv_timeout,
            so_send_timeout: self.so_send_timeout,
            fs_rights: self.fs_rights,
        }
    }

    /// What `into_state` returns.
    pub open spec fn spec_into_state(self) -> WasiSocketState {
        WasiSocketState {
            sock_type: self.sock_type.spec_into_kind(),
            local_addr: self.local_addr,
            peer_addr: self.peer_addr,
            backlog: self.backlog,
            shutdown: None,
            nonblocking: self.nonblocking,
            so_reuseaddr: self.so_reuseaddr,
            so_conn_state: match self.so_conn_state {
                SerialConnectState::Empty => ConnectState::Empty,
                SerialConnectState::Listening => ConnectState::Listening,
                SerialConnectState::Connected => ConnectState::Connect,
            },
            so_recv_buf_size: self.so_recv_buf_size,
            so_send_buf_size: self.so_send_buf_size,
            so_recv_timeout: self.so_recv_timeout,
            so_send_timeout: self.so_send_timeout,
            fs_rights: self.fs_rights,
        }
    }
}

/// The wire tag for standard input.
#[derive(Clone, Copy, Debug, PartialEq, Eq, Structural)]
pub struct SerialStdin;

/// The wire tag for standard output.
#[derive(Clone, Copy, Debug, PartialEq, Eq, Structural)]
pub struct SerialStdout;

/// The wire tag for standard error.
#[derive(Clone, Copy, Debug, PartialEq, Eq, Structural)]
pub struct SerialStderr;

/// The wire tag for an open directory handle; it is not reconstructable and
/// rebuilds as closed.
#[derive(Clone, Copy, Debug, PartialEq, Eq, Structural)]
pub struct SerialWasiDir;

/// The wire tag for an open file handle; it is not reconstructable and
/// rebuilds as closed.
#[derive(Clone, Copy, Debug, PartialEq, Eq, Structural)]
pub struct SerialWasiFile;

/// The wire form of a pre-opened directory: the guest-visible path and the
/// two rights bitmasks. The host path is chosen anew by the restoring
/// process.
#[derive(Clone, Debug, PartialEq, Eq)]
pub struct SerialPreOpen {
    /// The path the guest sees.
    pub guest_path: String,
    /// Rights that apply to the directory itself.
    pub dir_rights: u64,
    /// Rights inherited by files opened under it.
    pub file_rights: u64,
}

/// The wire form of a listening stream socket.
#[derive(Clone, Copy, Debug, PartialEq, Eq, Structural)]
pub struct SerialTcpServer {
    /// The socket's full plain state.
    pub state: SerialWasiSocketState,
}

/// The wire form of a datagram socket.
#[derive(Clone, Copy, Debug, PartialEq, Eq, Structural)]
pub struct SerialUdpSocket {
    /// The socket's full plain state.
    pub state: SerialWasiSocketState,
}

/// One serialized table slot.
#[derive(Clone, Debug, PartialEq, Eq)]
pub enum SerialVFD {
    /// An unoccupied slot.
    Empty,
    /// Standard input.
    Stdin(SerialStdin),
    /// Standard output.
    Stdout(SerialStdout),
    /// Standard error.
    Stderr(SerialStderr),
    /// A pre-opened directory.
    PreOpenDir(SerialPreOpen),
    /// An open directory handle.
    WasiDir(SerialWasiDir),
    /// An open file handle.
    WasiFile(SerialWasiFile),
    /// A closed or unreconstructable resource.
    Closed,
    /// A listening stream socket.
    TcpServer(SerialTcpServer),
    /// A datagram socket.
    UdpSocket(SerialUdpSocket),
}

/// What a guest's last call was waiting on, carried inside the serialized
/// context so the embedder can schedule the right action after a restore.
#[derive(Clone, Debug, PartialEq, Eq)]
pub enum IoState {
    /// Nothing pending.
    Empty,
    /// Waiting to accept a connection on the given bound address.
    Accept {
        /// The listener's bound address.
        bind: SocketAddr,
    },
    /// Sleeping until the given deadline, in nanoseconds since the epoch.
    Sleep {
        /// The absolute deadline.
        ddl: u64,
    },
    /// Waiting on several descriptors, with an optional deadline.
    Poll {
        /// The descriptors being waited on.
        fds: Vec<PollFdState>,
        /// The absolute deadline, if one was set.
        ddl: Option<u64>,
    },
}

/// Equality of pending-I/O descriptions up to storage identity: the
/// descriptor lists are compared by contents.
pub open spec fn io_state_eqv(a: IoState, b: IoState) -> bool {
    match (a, b) {
        (IoState::Poll { fds: f1, ddl: d1 }, IoState::Poll { fds: f2, ddl: d2 }) => f1@ == f2@
            && d1 == d2,
        _ => a == b,
    }
}

impl IoState {
    /// An exact copy of this pending-I/O description.
    pub fn duplicate(&self) -> (r: IoState)
        ensures
            io_state_eqv(r, *self),
    {
        match self {
            IoState::Empty => IoState::Empty,
            IoState::Accept { bind } => IoState::Accept { bind: *bind },
            IoState::Sleep { ddl } => IoState::Sleep { ddl: *ddl },
            IoState::Poll { fds, ddl } => {
                let mut out: Vec<PollFdState> = Vec::new();
                let mut i: usize = 0;
                while i < fds.len()
                    invariant
                        i <= fds@.len(),
                        out@ == fds@.subrange(0, i as int),
                    decreases fds@.len() - i,
                {
                    out.push(fds[i]);
                    proof {
                        assert(out@ =~= fds@.subrange(0, i as int + 1));
                    }
                    i = i + 1;
                }
                proof {
                    assert(out@ =~= fds@);
                }
                IoState::Poll { fds: out, ddl: *ddl }
            },
        }
    }
}

/// One descriptor inside a pending multi-wait.
#[derive(Clone, Copy, Debug, PartialEq, Eq, Structural)]
pub struct PollFdState {
    /// The guest-visible handle.
    pub fd: i32,
    /// Family and kind of the socket.
    pub socket_type: SerialSocketType,
    /// Bound local address, if known.
    pub local_addr: Option<SocketAddr>,
    /// Connected peer address, if known.
    pub peer_addr: Option<SocketAddr>,
    /// Whether readability is being waited on.
    pub poll_read: bool,
    /// Whether writability is being waited on.
    pub poll_write: bool,
}

/// What one table slot serializes to.
pub open spec fn spec_from_vfd(v: Option<VFD>) -> SerialVFD {
    match v {
        None => SerialVFD::Empty,
        Some(VFD::Closed) => SerialVFD::Closed,
        Some(VFD::Inode(INode::Stdin(_))) => SerialVFD::Stdin(SerialStdin),
        Some(VFD::Inode(INode::Stdout(_))) => SerialVFD::Stdout(SerialStdout),
        Some(VFD::Inode(INode::Stderr(_))) => SerialVFD::Stderr(SerialStderr),
        Some(VFD::Inode(INode::Dir)) => SerialVFD::WasiDir(SerialWasiDir),
        Some(VFD::Inode(INode::File)) => SerialVFD::WasiFile(SerialWasiFile),
        Some(VFD::Inode(INode::PreOpenDir(p))) => SerialVFD::PreOpenDir(
            SerialPreOpen {
                guest_path: p.guest_path,
                dir_rights: p.dir_rights,
                file_rights: p.file_rights,
            },
        ),
        Some(VFD::Socket(s)) => spec_socket_to_serial(s.state),
        Some(VFD::AsyncSocket(s)) => spec_socket_to_serial(s.state),
    }
}

/// How a socket's plain state serializes: closed once shut down, a listener
/// when a stream socket is listening, a datagram socket as itself, and any
/// other stream socket as closed (an in-flight connection cannot be
/// reconstructed).
pub open spec fn spec_socket_to_serial(state: WasiSocketState) -> SerialVFD {
    if state.shutdown is Some {
        SerialVFD::Closed
    } else {
        match state.sock_type.kind {
            SocketType::Stream => if state.so_conn_state is Listening {
                SerialVFD::TcpServer(
                    SerialTcpServer { state: SerialWasiSocketState::spec_from_state(state) },
                )
            } else {
                SerialVFD::Closed
            },
            SocketType::Datagram => SerialVFD::UdpSocket(
                SerialUdpSocket { state: SerialWasiSocketState::spec_from_state(state) },
            ),
        }
    }
}

impl SerialVFD {
    /// Serialize one table slot.
    pub fn from_vfd(v: &Option<VFD>) -> (r: SerialVFD)
        ensures
            r == spec_from_vfd(*v),
    {
        match v {
            None => SerialVFD::Empty,
            Some(VFD::Closed) => SerialVFD::Closed,
            Some(VFD::Inode(INode::Stdin(_))) => SerialVFD::Stdin(SerialStdin),
            Some(VFD::Inode(INode::Stdout(_))) => SerialVFD::Stdout(SerialStdout),
            Some(VFD::Inode(INode::Stderr(_))) => SerialVFD::Stderr(SerialStderr),
            Some(VFD::Inode(INode::Dir)) => SerialVFD::WasiDir(SerialWasiDir),
            Some(VFD::Inode(INode::File)) => SerialVFD::WasiFile(SerialWasiFile),
            Some(VFD::Inode(INode::PreOpenDir(p))) => SerialVFD::PreOpenDir(
                SerialPreOpen {
                    guest_path: p.guest_path.clone(),
                    dir_rights: p.dir_rights,
                    file_rights: p.file_rights,
                },
            ),
            Some(VFD::Socket(s)) => Self::socket_to_serial(&s.state),
            Some(VFD::AsyncSocket(s)) => Self::socket_to_serial(&s.state),
        }
    }

    /// Serialize a socket's plain state.
    fn socket_to_serial(state: &WasiSocketState) -> (r: SerialVFD)
        ensures
            r == spec_socket_to_serial(*state),
    {
        if state.shutdown.is_some() {
            return SerialVFD::Closed;
        }
        match state.sock_type.kind {
            SocketType::Stream => {
                match state.so_conn_state {
                    ConnectState::Listening => SerialVFD::TcpServer(
                        SerialTcpServer { state: SerialWasiSocketState::from_state(state) },
                    ),
                    _ => SerialVFD::Closed,
                }
            },
            SocketType::Datagram => SerialVFD::UdpSocket(
                SerialUdpSocket { state: SerialWasiSocketState::from_state(state) },
            ),
        }
    }
}

/// The serialized projection of a whole guest context: the table up to its
/// highest occupied slot, the bookkeeping to rebuild it, and what the last
/// call was waiting on. Together with the matching instance snapshot this
/// is the complete externally persistable checkpoint of a suspended guest.
#[derive(Clone, Debug, PartialEq, Eq)]
pub struct SerialWasiCtx {
    /// The guest's command-line arguments.
    pub args: Vec<String>,
    /// The guest's environment entries.
    pub envs: Vec<String>,
    /// One serialized entry per slot, up to the highest occupied slot.
    pub vfs: Vec<SerialVFD>,
    /// The highest reserved handle.
    pub vfs_preopen_limit: usize,
    /// The lowest possibly-free slot.
    pub vfs_select_index: usize,
    /// The highest occupied slot.
    pub vfs_last_index: usize,
    /// What the guest's last call was waiting on.
    pub io_state: IoState,
    /// The exit code the guest reported, if any.
    pub exit_code: u32,
}

impl SerialWasiCtx {
    /// Export: project every slot up to the current high-water mark to its
    /// tagged wire form, and carry the bookkeeping and pending-I/O
    /// description along.
    pub fn from_ctx(ctx: &WasiCtx) -> (r: SerialWasiCtx)
        requires
            ctx.wf(),
        ensures
            r.vfs@.len() == ctx.spec_last_index() + 1,
            forall|i: int|
                0 <= i <= ctx.spec_last_index() ==> (#[trigger] r.vfs@[i]) == spec_from_vfd(
                    ctx@[i],
                ),
            r.args@ == ctx.spec_args(),
            r.envs@ == ctx.spec_envs(),
            r.vfs_preopen_limit as int == ctx.spec_preopen_limit(),
            r.vfs_select_index as int == ctx.spec_select_index(),
            r.vfs_last_index as int == ctx.spec_last_index(),
            io_state_eqv(r.io_state, ctx.spec_io_state()),
            r.exit_code == ctx.spec_exit_code(),
    {
        proof {
            ctx.lemma_wf_bounds();
        }
        let mut vfs: Vec<SerialVFD> = Vec::new();
        let last = ctx.vfs_last_index();
        let mut i: usize = 0;
        while i <= last
            invariant
                ctx.wf(),
                last as int == ctx.spec_last_index(),
                (last as int) < ctx@.len(),
                last < usize::MAX,
                i <= last + 1,
                vfs@.len() == i,
                forall|j: int| 0 <= j < i ==> (#[trigger] vfs@[j]) == spec_from_vfd(ctx@[j]),
            decreases last + 1 - i,
        {
            let slot = ctx.get_slot(i);
            vfs.push(SerialVFD::from_vfd(slot));
            i = i + 1;
        }
        SerialWasiCtx {
            args: ctx.args().clone(),
            envs: ctx.envs().clone(),
            vfs,
            vfs_preopen_limit: ctx.vfs_preopen_limit(),
            vfs_select_index: ctx.vfs_select_index(),
            vfs_last_index: ctx.vfs_last_index(),
            io_state: ctx.current_io_state().duplicate(),
            exit_code: ctx.current_exit_code(),
        }
    }

    /// Import, second half: once the embedder's resolver has materialized a
    /// live resource for every serialized entry, rebuild the context around
    /// the resolved table with the carried bookkeeping.
    pub fn resume(self, vfs: Vec<Option<VFD>>) -> (r: WasiCtx)
        requires
            vfs@.len() <= i32::MAX,
            (self.vfs_preopen_limit as int) < vfs@.len(),
            self.vfs_preopen_limit <= self.vfs_select_index,
            self.vfs_select_index <= self.vfs_last_index + 1,
            self.vfs_preopen_limit <= self.vfs_last_index,
            (self.vfs_last_index as int) < vfs@.len(),
            forall|j: int| 0 <= j <= self.vfs_preopen_limit ==> (#[trigger] vfs@[j]) is Some,
            forall|j: int|
                self.vfs_preopen_limit <= j < self.vfs_select_index ==> (#[trigger] vfs@[j])
                    is Some,
            forall|j: int|
                self.vfs_last_index < j && j < vfs@.len() ==> (#[trigger] vfs@[j]) is None,
            vfs@[self.vfs_last_index as int] is Some,
        ensures
            r.wf(),
            r@ == vfs@,
            r.spec_preopen_limit() == self.vfs_preopen_limit,
            r.spec_select_index() == self.vfs_select_index,
            r.spec_last_index() == self.vfs_last_index,
            r.spec_args() == self.args@,
            r.spec_envs() == self.envs@,
            r.spec_io_state() == self.io_state,
            r.spec_exit_code() == self.exit_code,
    {
        WasiCtx::assemble(
            self.args,
            self.envs,
            vfs,
            self.vfs_preopen_limit,
            self.vfs_select_index,
            self.vfs_last_index,
            self.io_state,
            self.exit_code,
        )
    }
}

/// The backlog floor used when a listener is reopened rather than adopted.
pub const DEFAULT_MIN_BACKLOG: u32 = 128;

/// What the default resolver decides to do for one serialized socket entry.
#[derive(Clone, Copy, Debug, PartialEq, Eq, Structural)]
pub enum RehydratePlan {
    /// Adopt the externally supplied OS listener, keeping its in-flight
    /// backlog and its port.
    AdoptListener {
        /// The embedder's handle to the already-open listener.
        handle: u64,
    },
    /// Open a fresh socket, bind it to the serialized local address, and
    /// listen with the given backlog.
    OpenListener {
        /// The address to bind.
        addr: SocketAddr,
        /// The serialized backlog, raised to the configured floor.
        backlog: u32,
        /// The runtime state to install.
        state: WasiSocketState,
    },
    /// Open a fresh datagram socket and bind it to the serialized local
    /// address.
    OpenUdp {
        /// The address to bind.
        addr: SocketAddr,
        /// The runtime state to install.
        state: WasiSocketState,
    },
    /// The entry cannot be reconstructed; it resolves to a closed slot.
    Unreconstructable,
}

/// Law (listener adoption): decide how to rebuild a serialized listener.
/// When the embedder offers an already-open OS listener whose address
/// matches the serialized bound address, it is adopted directly — its
/// in-flight backlog and port survive, and no fresh socket is opened.
/// Otherwise a fresh listener is planned with the serialized backlog
/// clamped up to the configured floor; an entry with no bound address
/// cannot be rebuilt.
pub fn resolve_tcp_server(entry: &SerialTcpServer, offered: Option<(u64, SocketAddr)>) -> (r:
    RehydratePlan)
    ensures
        match offered {
            Some(pair) => entry.state.local_addr == Some(pair.1) ==> r
                == RehydratePlan::AdoptListener { handle: pair.0 },
            None => true,
        },
        (match offered {
            Some(pair) => entry.state.local_addr != Some(pair.1),
            None => true,
        }) ==> match entry.state.local_addr {
            Some(addr) => r == RehydratePlan::OpenListener {
                addr,
                backlog: if entry.state.backlog >= DEFAULT_MIN_BACKLOG {
                    entry.state.backlog
                } else {
                    DEFAULT_MIN_BACKLOG
                },
                state: entry.state.spec_into_state(),
            },
            None => r == RehydratePlan::Unreconstructable,
        },
{
    match offered {
        Some((handle, addr)) => {
            let matches_addr = match entry.state.local_addr {
                Some(bound) => bound == addr,
                None => false,
            };
            if matches_addr {
                return RehydratePlan::AdoptListener { handle };
            }
        },
        None => {},
    }
    match entry.state.local_addr {
        Some(addr) => {
            let backlog = if entry.state.backlog >= DEFAULT_MIN_BACKLOG {
                entry.state.backlog
            } else {
                DEFAULT_MIN_BACKLOG
            };
            RehydratePlan::OpenListener { addr, backlog, state: entry.state.into_state() }
        },
        None => RehydratePlan::Unreconstructable,
    }
}

/// Decide how to rebuild a serialized datagram socket: reopen and rebind to
/// the serialized local address; an entry with no bound address cannot be
/// rebuilt.
pub fn resolve_udp_socket(entry: &SerialUdpSocket) -> (r: RehydratePlan)
    ensures
        match entry.state.local_addr {
            Some(addr) => r == RehydratePlan::OpenUdp {
                addr,
                state: entry.state.spec_into_state(),
            },
            None => r == RehydratePlan::Unreconstructable,
        },
{
    match entry.state.local_addr {
        Some(addr) => RehydratePlan::OpenUdp { addr, state: entry.state.into_state() },
        None => RehydratePlan::Unreconstructable,
    }
}

} // verus!
