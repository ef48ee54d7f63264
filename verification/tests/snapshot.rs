use wasmedge_asyncify::error::InstanceError;
use wasmedge_asyncify::snapshot::{InstanceSnapshot, InstanceState, MemoryImage, MutGlobal};
use wasmedge_asyncify::types::WasmVal;

fn source_state() -> InstanceState {
    InstanceState {
        globals: vec![
            MutGlobal {
                name: "counter".to_string(),
                val: WasmVal::I32(7),
            },
            MutGlobal {
                name: "flag".to_string(),
                val: WasmVal::I64(-1),
            },
        ],
        memories: vec![MemoryImage {
            name: "memory".to_string(),
            data: vec![1, 2, 3, 4],
        }],
    }
}

fn fresh_twin() -> InstanceState {
    InstanceState {
        globals: vec![
            MutGlobal {
                name: "counter".to_string(),
                val: WasmVal::I32(0),
            },
            MutGlobal {
                name: "flag".to_string(),
                val: WasmVal::I64(0),
            },
        ],
        memories: vec![MemoryImage {
            name: "memory".to_string(),
            data: vec![0, 0, 0, 0],
        }],
    }
}

// Round trip: capturing a suspended instance and restoring the snapshot
// into a fresh twin reproduces the globals and the memory bytes, and hands
// back the recorded suspend-stack offset.
#[test]
fn capture_restore_roundtrip() {
    let source = source_state();
    let snapshot = InstanceSnapshot::capture(&source, 4096);
    assert_eq!(snapshot.asyncify_stack, 4096);

    let mut twin = fresh_twin();
    let stack = snapshot.restore(&mut twin).unwrap();
    assert_eq!(stack, 4096);
    assert_eq!(twin.globals[0].val, WasmVal::I32(7));
    assert_eq!(twin.globals[1].val, WasmVal::I64(-1));
    assert_eq!(twin.memories[0].data, vec![1, 2, 3, 4]);
}

// A destination longer than the captured extent keeps its tail.
#[test]
fn restore_keeps_tail_beyond_extent() {
    let source = source_state();
    let snapshot = InstanceSnapshot::capture(&source, 1);
    let mut twin = fresh_twin();
    twin.memories[0].data = vec![9, 9, 9, 9, 8, 8];
    snapshot.restore(&mut twin).unwrap();
    assert_eq!(twin.memories[0].data, vec![1, 2, 3, 4, 8, 8]);
}

// A global named in the snapshot but absent from the destination is a
// module mismatch.
#[test]
fn restore_unknown_global() {
    let source = source_state();
    let snapshot = InstanceSnapshot::capture(&source, 0);
    let mut twin = fresh_twin();
    twin.globals.remove(1);
    match snapshot.restore(&mut twin) {
        Err(InstanceError::UnknownGlobal(name)) => assert_eq!(name, "flag"),
        other => panic!("expected a missing-global failure, got {:?}", other),
    }
}

// A destination memory smaller than the captured extent cannot take the
// write.
#[test]
fn restore_memory_too_small() {
    let source = source_state();
    let snapshot = InstanceSnapshot::capture(&source, 0);
    let mut twin = fresh_twin();
    twin.memories[0].data = vec![0, 0];
    match snapshot.restore(&mut twin) {
        Err(InstanceError::MemoryWriteError(name)) => assert_eq!(name, "memory"),
        other => panic!("expected a memory-size failure, got {:?}", other),
    }
}
