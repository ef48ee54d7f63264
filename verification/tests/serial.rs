use wasmedge_asyncify::net::{
    AddressFamily, ConnectState, IpAddr, SockKind, SocketAddr, SocketType, WasiSocketState,
};
use wasmedge_asyncify::serial::{
    IoState, PollFdState, RehydratePlan, SerialSocketType, SerialTcpServer, SerialVFD,
    SerialWasiCtx, SerialWasiSocketState, DEFAULT_MIN_BACKLOG,
};
use wasmedge_asyncify::serial::resolve_tcp_server;
use wasmedge_asyncify::serial::resolve_udp_socket;
use wasmedge_asyncify::vfs::{AsyncWasiSocket, VFD, WasiCtx};

fn listener_state(addr: SocketAddr, backlog: u32) -> WasiSocketState {
    let mut s = WasiSocketState::default();
    s.sock_type = SockKind {
        family: AddressFamily::Inet4,
        kind: SocketType::Stream,
    };
    s.local_addr = Some(addr);
    s.backlog = backlog;
    s.so_conn_state = ConnectState::Listening;
    s
}

fn addr_1234() -> SocketAddr {
    SocketAddr {
        ip: IpAddr::V4(0, 0, 0, 0),
        port: 1234,
    }
}

// A context holding a listening socket serializes the socket as a listener
// entry that carries the bound address.
#[test]
fn export_listener() {
    let mut ctx = WasiCtx::new();
    let fd = ctx
        .insert_vfd(VFD::AsyncSocket(AsyncWasiSocket {
            handle: 11,
            state: listener_state(addr_1234(), 128),
        }))
        .unwrap();
    let serial = SerialWasiCtx::from_ctx(&ctx);
    assert_eq!(serial.vfs.len(), fd as usize + 1);
    match &serial.vfs[fd as usize] {
        SerialVFD::TcpServer(s) => {
            assert_eq!(s.state.local_addr, Some(addr_1234()));
            assert_eq!(s.state.backlog, 128);
            assert_eq!(s.state.sock_type, SerialSocketType::TCP4);
        }
        other => panic!("expected a listener entry, got {:?}", other),
    }
}

// A shut-down socket serializes as closed.
#[test]
fn export_shutdown_socket_as_closed() {
    let mut ctx = WasiCtx::new();
    let mut state = listener_state(addr_1234(), 16);
    state.shutdown = Some(wasmedge_asyncify::net::Shutdown::Both);
    let fd = ctx
        .insert_vfd(VFD::AsyncSocket(AsyncWasiSocket { handle: 3, state }))
        .unwrap();
    let serial = SerialWasiCtx::from_ctx(&ctx);
    assert_eq!(serial.vfs[fd as usize], SerialVFD::Closed);
}

// Scenario: a listener exported with local address 0.0.0.0:1234 is imported
// in a new context where the resolver is offered an externally bound OS
// listener on the same address; the plan adopts that listener directly, so
// subsequent accepts use its backlog, not a freshly created one.
#[test]
fn import_adopts_offered_listener() {
    let mut ctx = WasiCtx::new();
    let fd = ctx
        .insert_vfd(VFD::AsyncSocket(AsyncWasiSocket {
            handle: 11,
            state: listener_state(addr_1234(), 128),
        }))
        .unwrap();
    let serial = SerialWasiCtx::from_ctx(&ctx);

    let entry = match &serial.vfs[fd as usize] {
        SerialVFD::TcpServer(s) => *s,
        other => panic!("expected a listener entry, got {:?}", other),
    };

    // the embedder already holds an OS listener bound to the same address
    let adopted = resolve_tcp_server(&entry, Some((77, addr_1234())));
    assert_eq!(adopted, RehydratePlan::AdoptListener { handle: 77 });

    // without a matching offer, a fresh listener is planned instead
    let other_addr = SocketAddr {
        ip: IpAddr::V4(127, 0, 0, 1),
        port: 9,
    };
    match resolve_tcp_server(&entry, Some((77, other_addr))) {
        RehydratePlan::OpenListener { addr, backlog, .. } => {
            assert_eq!(addr, addr_1234());
            assert_eq!(backlog, 128);
        }
        other => panic!("expected a fresh listener plan, got {:?}", other),
    }

    // rebuild the table through the resolver and resume the context
    let vfs = vec![
        Some(VFD::Inode(wasmedge_asyncify::vfs::INode::Stdin(
            wasmedge_asyncify::vfs::WasiStdin,
        ))),
        Some(VFD::Inode(wasmedge_asyncify::vfs::INode::Stdout(
            wasmedge_asyncify::vfs::WasiStdout,
        ))),
        Some(VFD::Inode(wasmedge_asyncify::vfs::INode::Stderr(
            wasmedge_asyncify::vfs::WasiStderr,
        ))),
        Some(VFD::AsyncSocket(AsyncWasiSocket {
            handle: 77,
            state: listener_state(addr_1234(), 128),
        })),
    ];
    let resumed = serial.resume(vfs);
    assert_eq!(resumed.vfs_len(), 4);
    match resumed.get_vfd(fd).unwrap() {
        VFD::AsyncSocket(s) => assert_eq!(s.handle, 77),
        other => panic!("expected the adopted socket, got {:?}", other),
    }
}

// A reopened listener raises a tiny serialized backlog to the floor.
#[test]
fn reopen_clamps_backlog() {
    let state = SerialWasiSocketState::from_state(&listener_state(addr_1234(), 1));
    let entry = SerialTcpServer { state };
    match resolve_tcp_server(&entry, None) {
        RehydratePlan::OpenListener { backlog, .. } => assert_eq!(backlog, DEFAULT_MIN_BACKLOG),
        other => panic!("expected a fresh listener plan, got {:?}", other),
    }
    let big = SerialTcpServer {
        state: SerialWasiSocketState::from_state(&listener_state(addr_1234(), 4096)),
    };
    match resolve_tcp_server(&big, None) {
        RehydratePlan::OpenListener { backlog, .. } => assert_eq!(backlog, 4096),
        other => panic!("expected a fresh listener plan, got {:?}", other),
    }
}

// A datagram socket rehydrates by rebinding to its serialized address; one
// that was never bound cannot be rebuilt.
#[test]
fn udp_rehydration() {
    let mut s = WasiSocketState::default();
    s.sock_type = SockKind {
        family: AddressFamily::Inet4,
        kind: SocketType::Datagram,
    };
    s.local_addr = Some(addr_1234());
    let entry = wasmedge_asyncify::serial::SerialUdpSocket {
        state: SerialWasiSocketState::from_state(&s),
    };
    match resolve_udp_socket(&entry) {
        RehydratePlan::OpenUdp { addr, .. } => assert_eq!(addr, addr_1234()),
        other => panic!("expected a datagram plan, got {:?}", other),
    }

    let unbound = wasmedge_asyncify::serial::SerialUdpSocket {
        state: SerialWasiSocketState::from_state(&WasiSocketState {
            sock_type: SockKind {
                family: AddressFamily::Inet4,
                kind: SocketType::Datagram,
            },
            ..WasiSocketState::default()
        }),
    };
    assert_eq!(
        resolve_udp_socket(&unbound),
        RehydratePlan::Unreconstructable
    );
}

// The wire form of a socket state round-trips, with the shutdown flag
// starting clear.
#[test]
fn socket_state_roundtrip() {
    let state = listener_state(addr_1234(), 99);
    let wire = SerialWasiSocketState::from_state(&state);
    let back = wire.into_state();
    assert_eq!(back.local_addr, state.local_addr);
    assert_eq!(back.backlog, 99);
    assert_eq!(back.so_conn_state, ConnectState::Listening);
    assert_eq!(back.shutdown, None);
    assert_eq!(SerialWasiSocketState::from_state(&back), wire);
}

// The pending-I/O description travels with the context, including a
// multi-descriptor wait.
#[test]
fn export_carries_io_state() {
    let mut ctx = WasiCtx::new();
    ctx.io_state = IoState::Poll {
        fds: vec![PollFdState {
            fd: 4,
            socket_type: SerialSocketType::TCP4,
            local_addr: Some(addr_1234()),
            peer_addr: None,
            poll_read: true,
            poll_write: false,
        }],
        ddl: Some(1_000_000),
    };
    let serial = SerialWasiCtx::from_ctx(&ctx);
    match &serial.io_state {
        IoState::Poll { fds, ddl } => {
            assert_eq!(fds.len(), 1);
            assert_eq!(fds[0].fd, 4);
            assert!(fds[0].poll_read);
            assert_eq!(*ddl, Some(1_000_000));
        }
        other => panic!("expected a pending multi-wait, got {:?}", other),
    }

    let mut sleeping = WasiCtx::new();
    sleeping.io_state = IoState::Sleep { ddl: 77 };
    let serial = SerialWasiCtx::from_ctx(&sleeping);
    assert_eq!(serial.io_state, IoState::Sleep { ddl: 77 });
}
