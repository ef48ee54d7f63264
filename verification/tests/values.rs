use wasmedge_asyncify::asyncify::{asyncify_default_imports, pass_async_module_plan, PassPlan};
use wasmedge_asyncify::errno::Errno;
use wasmedge_asyncify::error::{AddFuncError, CoreError, CoreExecutionError};
use wasmedge_asyncify::hook::{yield_hook_decision, HookAction};
use wasmedge_asyncify::net::{parse_wasi_ip, ip_octets, IpAddr};
use wasmedge_asyncify::pollsub::{
    classify_subscriptions, clock_event, encode_event, fd_error_event, fd_outcome_event,
    parse_subscription, FdSubscription, PrePoll, Subscription, SubscriptionKind, WasiEvent,
    EVENTTYPE_CLOCK, EVENTTYPE_FD_READ, EVENTTYPE_FD_WRITE, EVENT_SIZE, SUBSCRIPTION_SIZE,
};
use wasmedge_asyncify::sockopt::{
    sock_getsockopt, sock_setsockopt, SockOptValue, OPT_INT_SIZE, OPT_TIMEVAL_SIZE,
    SOCK_OPT_SO_ACCEPTCONN, SOCK_OPT_SO_ERROR, SOCK_OPT_SO_LINGER, SOCK_OPT_SO_RCVTIMEO,
    SOCK_OPT_SO_REUSEADDR, SOCK_OPT_SO_SNDBUF, SOCK_OPT_SO_TYPE,
};
use wasmedge_asyncify::net::{ConnectState, WasiSocketState};
use wasmedge_asyncify::types::{
    check_async_name, to_wasm_return, validate_args, CompilerOptimizationLevel,
    CompilerOutputFormat, ValType, WasmVal,
};
use wasmedge_asyncify::wasi_impls::wasi_impls;

#[test]
fn wasm_return_codes() {
    assert_eq!(to_wasm_return(Ok(())), vec![WasmVal::I32(0)]);
    assert_eq!(to_wasm_return(Err(Errno::Badf)), vec![WasmVal::I32(8)]);
    assert_eq!(to_wasm_return(Err(Errno::Notsup)), vec![WasmVal::I32(58)]);
    assert_eq!(to_wasm_return(Err(Errno::Notsock)), vec![WasmVal::I32(57)]);
    assert_eq!(to_wasm_return(Err(Errno::Inval)), vec![WasmVal::I32(28)]);
}

#[test]
fn argument_validation() {
    let args = vec![WasmVal::I32(1), WasmVal::I64(2), WasmVal::I32(3)];
    let shape = vec![ValType::I32, ValType::I64];
    let ok = validate_args(&args, &shape).unwrap();
    assert_eq!(ok, vec![WasmVal::I32(1), WasmVal::I64(2)]);

    let wrong = vec![WasmVal::I64(1), WasmVal::I64(2)];
    assert_eq!(
        validate_args(&wrong, &shape),
        Err(CoreError::Execution(CoreExecutionError::FuncTypeMismatch))
    );
    let short = vec![WasmVal::I32(1)];
    assert!(validate_args(&short, &shape).is_err());
}

#[test]
fn async_naming_convention() {
    assert!(check_async_name(b"async_f1").is_ok());
    assert!(check_async_name(b"async_").is_ok());
    assert_eq!(check_async_name(b"poll"), Err(AddFuncError::IllegalName));
    assert_eq!(check_async_name(b"asyncx_"), Err(AddFuncError::IllegalName));
}

#[test]
fn wasi_table_shape() {
    let table = wasi_impls();
    assert_eq!(table.len(), 57);
    assert_eq!(table[0].name, "args_get");
    assert_eq!(table[38].name, "proc_exit");
    assert!(table[38].results.is_empty());
    assert_eq!(table[44].name, "sock_accept");
    assert!(table[44].is_async);
    assert_eq!(table[55].name, "poll_oneoff");
    assert!(table[55].is_async);
    assert_eq!(table[56].name, "sock_lookup_ip");
    assert!(table[56].is_async);
    let async_names: Vec<&str> = table
        .iter()
        .filter(|d| d.is_async)
        .map(|d| d.name.as_str())
        .collect();
    assert_eq!(
        async_names,
        vec![
            "sock_accept",
            "sock_connect",
            "sock_recv",
            "sock_recv_from",
            "sock_send",
            "sock_send_to",
            "poll_oneoff",
            "sock_lookup_ip"
        ]
    );
}

#[test]
fn ip_parse_and_encode() {
    assert_eq!(
        parse_wasi_ip(&[127, 0, 0, 1]),
        Ok(IpAddr::V4(127, 0, 0, 1))
    );
    assert_eq!(parse_wasi_ip(&[1, 2, 3]), Err(Errno::Inval));

    let sixteen = [0u8, 0, 0, 0, 0, 0, 0, 1, 0, 0, 0, 0, 0, 0, 0, 2];
    let v6 = parse_wasi_ip(&sixteen).unwrap();
    assert_eq!(v6, IpAddr::V6(1, 2));

    // encoding an address yields exactly the bytes parsing reads
    let bytes = ip_octets(&v6);
    assert_eq!(bytes, sixteen.to_vec());
    assert_eq!(parse_wasi_ip(&bytes), Ok(v6));

    let v4 = IpAddr::V4(10, 0, 0, 7);
    assert_eq!(parse_wasi_ip(&ip_octets(&v4)), Ok(v4));
}

#[test]
fn sockopt_table() {
    let mut state = WasiSocketState::default();
    state.so_reuseaddr = true;
    state.so_conn_state = ConnectState::Listening;
    state.so_send_buf_size = 4096;
    state.so_recv_timeout = Some(1_500_000_000);

    assert_eq!(
        sock_getsockopt(&state, 0, SOCK_OPT_SO_REUSEADDR, OPT_INT_SIZE),
        Ok(SockOptValue::Int(1))
    );
    assert_eq!(
        sock_getsockopt(&state, 0, SOCK_OPT_SO_TYPE, OPT_INT_SIZE),
        Ok(SockOptValue::Int(2))
    );
    assert_eq!(
        sock_getsockopt(&state, 0, SOCK_OPT_SO_SNDBUF, OPT_INT_SIZE),
        Ok(SockOptValue::Int(4096))
    );
    assert_eq!(
        sock_getsockopt(&state, 0, SOCK_OPT_SO_ACCEPTCONN, OPT_INT_SIZE),
        Ok(SockOptValue::Int(1))
    );
    assert_eq!(
        sock_getsockopt(&state, 0, SOCK_OPT_SO_RCVTIMEO, OPT_TIMEVAL_SIZE),
        Ok(SockOptValue::Timeval {
            tv_sec: 1,
            tv_usec: 500_000_000
        })
    );
    assert_eq!(
        sock_getsockopt(&state, 0, SOCK_OPT_SO_ERROR, OPT_INT_SIZE),
        Ok(SockOptValue::OsSocketError)
    );
    // wrong size, unsupported level, unsupported and unknown options
    assert_eq!(
        sock_getsockopt(&state, 0, SOCK_OPT_SO_REUSEADDR, 8),
        Err(Errno::Inval)
    );
    assert_eq!(
        sock_getsockopt(&state, 1, SOCK_OPT_SO_REUSEADDR, OPT_INT_SIZE),
        Err(Errno::Nosys)
    );
    assert_eq!(
        sock_getsockopt(&state, 0, SOCK_OPT_SO_LINGER, OPT_INT_SIZE),
        Err(Errno::Nosys)
    );
    assert_eq!(
        sock_getsockopt(&state, 0, 99, OPT_INT_SIZE),
        Err(Errno::Noprotoopt)
    );

    // writes
    let set = sock_setsockopt(&state, 0, SOCK_OPT_SO_REUSEADDR, 0, (0, 0), OPT_INT_SIZE).unwrap();
    assert!(!set.so_reuseaddr);
    let timed =
        sock_setsockopt(&state, 0, SOCK_OPT_SO_RCVTIMEO, 0, (2, 5), OPT_TIMEVAL_SIZE).unwrap();
    assert_eq!(timed.so_recv_timeout, Some(2_000_000_005));
    assert!(timed.nonblocking);
    let cleared =
        sock_setsockopt(&state, 0, SOCK_OPT_SO_RCVTIMEO, 0, (0, 0), OPT_TIMEVAL_SIZE).unwrap();
    assert_eq!(cleared.so_recv_timeout, None);
    assert_eq!(
        sock_setsockopt(&state, 0, SOCK_OPT_SO_TYPE, 1, (0, 0), OPT_INT_SIZE),
        Err(Errno::Fault)
    );
}

#[test]
fn poll_classification() {
    let subs = vec![
        Subscription {
            userdata: 1,
            kind: SubscriptionKind::FdRead(4),
        },
        Subscription {
            userdata: 2,
            kind: SubscriptionKind::Clock {
                id: 1,
                timeout: 1_000,
                precision: 0,
                absolute: false,
            },
        },
        Subscription {
            userdata: 3,
            kind: SubscriptionKind::FdWrite(5),
        },
    ];
    match classify_subscriptions(&subs) {
        PrePoll::ClockAndFd(clock, fds) => {
            assert_eq!(clock.userdata, 2);
            assert_eq!(clock.timeout, 1_000);
            assert!(!clock.unsupported);
            assert_eq!(fds.len(), 2);
            assert_eq!(fds[0].fd, 4);
            assert!(!fds[0].write);
            assert_eq!(fds[1].fd, 5);
            assert!(fds[1].write);
        }
        other => panic!("expected a mixed wait, got {:?}", other),
    }

    let only_clock = vec![Subscription {
        userdata: 9,
        kind: SubscriptionKind::Clock {
            id: 3,
            timeout: 5,
            precision: 0,
            absolute: true,
        },
    }];
    match classify_subscriptions(&only_clock) {
        PrePoll::OnlyClock(c) => {
            assert!(c.unsupported, "cpu-time clocks are not served");
            assert!(c.absolute);
        }
        other => panic!("expected a deadline-only wait, got {:?}", other),
    }

    match classify_subscriptions(&vec![]) {
        PrePoll::OnlyFd(fds) => assert!(fds.is_empty()),
        other => panic!("expected an empty wait, got {:?}", other),
    }
}

#[test]
fn poll_events() {
    let sub = FdSubscription {
        fd: 7,
        userdata: 42,
        write: false,
    };
    let err = fd_error_event(&sub, Errno::Notsock);
    assert_eq!(err.userdata, 42);
    assert_eq!(err.errno, 57);
    assert_eq!(err.event_type, EVENTTYPE_FD_READ);

    let ok = fd_outcome_event(&sub, Ok(10));
    assert_eq!(ok.errno, 0);
    assert_eq!(ok.nbytes, 10);
    assert!(!ok.hangup);

    let failed = fd_outcome_event(
        &FdSubscription {
            fd: 7,
            userdata: 1,
            write: true,
        },
        Err(Errno::Badf),
    );
    assert_eq!(failed.event_type, EVENTTYPE_FD_WRITE);
    assert_eq!(failed.errno, 8);
    assert!(failed.hangup);

    let clock = clock_event(&wasmedge_asyncify::pollsub::ClockSubscription {
        userdata: 5,
        timeout: 0,
        precision: 0,
        absolute: false,
        unsupported: false,
    });
    assert_eq!(clock.event_type, EVENTTYPE_CLOCK);
    assert_eq!(clock.errno, 0);

    // the CPU-time clocks are not served: no such device
    let nodev = clock_event(&wasmedge_asyncify::pollsub::ClockSubscription {
        userdata: 5,
        timeout: 0,
        precision: 0,
        absolute: false,
        unsupported: true,
    });
    assert_eq!(nodev.errno, 43);
}

#[test]
fn hook_policy() {
    assert_eq!(
        yield_hook_decision(true, true, true),
        HookAction::ReturnResult
    );
    assert_eq!(
        yield_hook_decision(true, false, true),
        HookAction::RaiseYield
    );
    assert_eq!(
        yield_hook_decision(true, false, false),
        HookAction::KeepWaiting
    );
    assert_eq!(
        yield_hook_decision(false, false, true),
        HookAction::KeepWaiting
    );
}

#[test]
fn compiler_enums() {
    for v in 0..=5u32 {
        assert_eq!(CompilerOptimizationLevel::from_u32(v).to_u32(), v);
    }
    assert_eq!(CompilerOutputFormat::from_u32(0).to_u32(), 0);
    assert_eq!(CompilerOutputFormat::from_u32(1).to_u32(), 1);
}

#[test]
fn asyncify_pass_plan() {
    let defaults = asyncify_default_imports();
    assert_eq!(defaults.len(), 9);
    assert_eq!(defaults[0], "*.async_*");
    assert_eq!(defaults[8], "wasi_snapshot_preview1.poll_oneoff");

    assert_eq!(
        pass_async_module_plan(true, vec!["env.async_tick".to_string()]),
        PassPlan::AlreadyInstrumented
    );
    match pass_async_module_plan(false, vec!["env.async_tick".to_string()]) {
        PassPlan::Instrument(names) => {
            assert_eq!(names.len(), 10);
            assert_eq!(names[9], "env.async_tick");
        }
        other => panic!("expected an instrumentation plan, got {:?}", other),
    }
}

#[test]
fn subscription_record_layout() {
    // a clock subscription: userdata 7, realtime-relative deadline of 1000
    // nanoseconds, absolute flag set
    let mut bytes = [0u8; SUBSCRIPTION_SIZE];
    bytes[0] = 7; // userdata
    bytes[8] = EVENTTYPE_CLOCK;
    bytes[16] = 1; // clock id: monotonic
    bytes[24] = 0xE8; // timeout 1000
    bytes[25] = 0x03;
    bytes[40] = 1; // absolute
    assert_eq!(
        parse_subscription(&bytes),
        Ok(Subscription {
            userdata: 7,
            kind: SubscriptionKind::Clock {
                id: 1,
                timeout: 1000,
                precision: 0,
                absolute: true,
            },
        })
    );

    // a readability subscription for handle 5
    let mut fd_bytes = [0u8; SUBSCRIPTION_SIZE];
    fd_bytes[0] = 9;
    fd_bytes[8] = EVENTTYPE_FD_READ;
    fd_bytes[16] = 5;
    assert_eq!(
        parse_subscription(&fd_bytes),
        Ok(Subscription {
            userdata: 9,
            kind: SubscriptionKind::FdRead(5),
        })
    );

    // an unknown tag, and a short buffer, are invalid
    let mut bad = [0u8; SUBSCRIPTION_SIZE];
    bad[8] = 9;
    assert_eq!(parse_subscription(&bad), Err(Errno::Inval));
    assert_eq!(parse_subscription(&[0u8; 4]), Err(Errno::Inval));
}

#[test]
fn event_record_layout() {
    let bytes = encode_event(&WasiEvent {
        userdata: 0x0102,
        errno: 8,
        event_type: EVENTTYPE_FD_READ,
        nbytes: 10,
        hangup: true,
    });
    assert_eq!(bytes.len(), EVENT_SIZE);
    let mut expected = [0u8; EVENT_SIZE];
    expected[0] = 0x02; // userdata, little endian
    expected[1] = 0x01;
    expected[8] = 8; // errno
    expected[10] = EVENTTYPE_FD_READ;
    expected[16] = 10; // nbytes
    expected[24] = 1; // hang-up flag
    assert_eq!(bytes, expected.to_vec());
}
