use wasmedge_asyncify::error::CoreError;
use wasmedge_asyncify::types::WasmVal;
use wasmedge_asyncify::vfs::{INode, VFD, WasiCtx, WasiPreOpenDir, WasiStdin};

fn vfd_stub() -> VFD {
    VFD::Inode(INode::Stdin(WasiStdin))
}

#[test]
fn vfd_opt() {
    // [0,1,2]
    let mut ctx = WasiCtx::new();
    // [0,1,2,3(*)]
    ctx.push_preopen(WasiPreOpenDir::new(".".to_string()));

    assert_eq!(ctx.vfs_preopen_limit(), 3, "vfs_preopen_limit");

    // [0,1,2,3,4(*)]
    let fd = ctx.insert_vfd(vfd_stub()).unwrap();
    assert_eq!(ctx.vfs_last_index(), 4, "vfs_last_index");
    assert_eq!(ctx.vfs_select_index(), 4, "vfs_select_index");
    assert_eq!(
        ctx.vfs_select_index(),
        fd as usize,
        "vfs_select_index == fd(4)"
    );

    // [0,1,2,3,4,5(*)]
    let fd = ctx.insert_vfd(vfd_stub()).unwrap();
    assert_eq!(ctx.vfs_last_index(), 5, "vfs_last_index");
    assert_eq!(ctx.vfs_select_index(), 5, "vfs_select_index");
    assert_eq!(
        ctx.vfs_select_index(),
        fd as usize,
        "vfs_select_index == fd(5)"
    );

    // [0,1,2,3,none(*),5]
    ctx.remove_vfd(4).unwrap();
    assert_eq!(ctx.vfs_last_index(), 5, "vfs_last_index");
    assert_eq!(ctx.vfs_select_index(), 4, "vfs_select_index");

    // [0,1,2,3,4(*),5]
    let fd = ctx.insert_vfd(vfd_stub()).unwrap();
    assert_eq!(ctx.vfs_last_index(), 5, "vfs_last_index");
    assert_eq!(ctx.vfs_select_index(), 4, "vfs_select_index");
    assert_eq!(
        ctx.vfs_select_index(),
        fd as usize,
        "vfs_select_index == fd(4)"
    );

    // [0,1,2,3,none(*),5]
    ctx.remove_vfd(4).unwrap();
    assert_eq!(ctx.vfs_last_index(), 5, "vfs_last_index");
    assert_eq!(ctx.vfs_select_index(), 4, "vfs_select_index");

    // [0,1,2,3(*),none,none]
    ctx.remove_vfd(5).unwrap();
    assert_eq!(ctx.vfs_last_index(), 3, "vfs_last_index");
    assert_eq!(ctx.vfs_select_index(), 3, "vfs_select_index");
    assert_eq!(ctx.vfs_len(), 6, "vfs.len()==6");

    // [0,1,2,3,4(*),none]
    let fd = ctx.insert_vfd(vfd_stub()).unwrap();
    assert_eq!(ctx.vfs_last_index(), 4, "vfs_last_index");
    assert_eq!(ctx.vfs_select_index(), 4, "vfs_select_index");
    assert_eq!(
        ctx.vfs_select_index(),
        fd as usize,
        "vfs_select_index == fd(4)"
    );
    assert_eq!(ctx.vfs_len(), 6, "vfs.len()==6");

    // [0,1,2,3,4,5(*)]
    let fd = ctx.insert_vfd(vfd_stub()).unwrap();
    assert_eq!(ctx.vfs_select_index(), 5, "vfs_select_index");
    assert_eq!(fd, 5, "fd==5");

    // [0,1,2,3,4,5,6(*)]
    let fd = ctx.insert_vfd(vfd_stub()).unwrap();
    assert_eq!(ctx.vfs_select_index(), 6, "vfs_select_index");
    assert_eq!(fd, 6, "fd==6");

    assert_eq!(ctx.vfs_len(), 7, "vfs.len()==7");

    // [0,1,2,3,4,none(*),6]
    ctx.remove_vfd(5).unwrap();
    assert_eq!(ctx.vfs_select_index(), 5, "vfs_select_index");
    // [0,1,2,3,none(*),none,6]
    ctx.remove_vfd(4).unwrap();
    assert_eq!(ctx.vfs_select_index(), 4, "vfs_select_index");

    // [0,1,2,3,4(*),none,6]
    let fd = ctx.insert_vfd(vfd_stub()).unwrap();
    assert_eq!(ctx.vfs_select_index(), 4, "vfs_select_index");
    assert_eq!(fd, 4, "fd==4");

    // [0,1,2,3,4,5(*),6]
    let fd = ctx.insert_vfd(vfd_stub()).unwrap();
    assert_eq!(ctx.vfs_select_index(), 5, "vfs_select_index");
    assert_eq!(fd, 5, "fd==5");

    // [0,1,2,3,none(*),5,6]
    ctx.remove_vfd(4).unwrap();
    assert_eq!(ctx.vfs_select_index(), 4, "vfs_select_index");
    assert_eq!(ctx.vfs_last_index(), 6, "vfs_select_index");

    // [0,1,2,3,none(*),none,6]
    ctx.remove_vfd(5).unwrap();
    assert_eq!(ctx.vfs_select_index(), 4, "vfs_select_index");
    assert_eq!(ctx.vfs_last_index(), 6, "vfs_select_index");

    // [0,1,2,3(*),none,none,none]
    ctx.remove_vfd(6).unwrap();
    assert_eq!(ctx.vfs_select_index(), 3, "vfs_select_index");
    assert_eq!(ctx.vfs_last_index(), 3, "vfs_select_index");
    assert_eq!(ctx.vfs_len(), 7, "vfs.len()==7");
}

#[test]
fn get_and_closed_handles() {
    let mut ctx = WasiCtx::new();
    let fd = ctx.insert_vfd(VFD::Closed).unwrap();
    // a tombstoned slot keeps its number but is not a usable handle
    assert!(ctx.get_vfd(fd).is_err());
    assert!(ctx.get_vfd(-1).is_err());
    assert!(ctx.get_vfd(100).is_err());
    assert!(ctx.get_vfd(0).is_ok());

    let fd2 = ctx.insert_vfd(vfd_stub()).unwrap();
    assert!(ctx.get_vfd(fd2).is_ok());
    let slot = ctx.get_mut_vfd(fd2).unwrap();
    *slot = VFD::Closed;
    assert!(ctx.get_vfd(fd2).is_err());
}

#[test]
fn reserved_handles_are_never_granted_or_removed() {
    let mut ctx = WasiCtx::new();
    ctx.push_preopen(WasiPreOpenDir::new("/data".to_string()));
    let limit = ctx.vfs_preopen_limit();
    for _ in 0..8 {
        let fd = ctx.insert_vfd(vfd_stub()).unwrap();
        assert!(fd as usize > limit, "insert must never grant a reserved handle");
    }
    for fd in 0..=limit {
        assert!(ctx.remove_vfd(fd as i32).is_err(), "reserved handles stay");
    }
    assert!(ctx.remove_vfd(-1).is_err());
}

#[test]
fn renumber_moves_and_grows() {
    let mut ctx = WasiCtx::new();
    let from = ctx.insert_vfd(vfd_stub()).unwrap();
    // reserved endpoints and empty sources are refused
    assert!(ctx.renumber_vfd(from, 1).is_err());
    assert!(ctx.renumber_vfd(1, 9).is_err());
    assert!(ctx.renumber_vfd(50, 9).is_err());
    assert!(ctx.renumber_vfd(-1, 9).is_err());

    // move to a handle past the end: the table grows
    ctx.renumber_vfd(from, 9).unwrap();
    assert_eq!(ctx.vfs_len(), 10);
    assert!(ctx.get_vfd(from).is_err());
    assert!(ctx.get_vfd(9).is_ok());
    assert_eq!(ctx.vfs_last_index(), 9);

    // move back down
    ctx.renumber_vfd(9, 4).unwrap();
    assert!(ctx.get_vfd(4).is_ok());
    assert!(ctx.get_vfd(9).is_err());
    assert_eq!(ctx.vfs_last_index(), 4);
}

#[test]
fn proc_exit_records_code() {
    let mut ctx = WasiCtx::new();
    let r = ctx.proc_exit(&vec![WasmVal::I32(3)]);
    assert_eq!(r, Err(CoreError::Terminated));
    assert_eq!(ctx.exit_code, 3);

    // arguments that do not carry the exit code are a type mismatch
    let r = ctx.proc_exit(&vec![WasmVal::I64(1)]);
    assert!(matches!(r, Err(CoreError::Execution(_))));
    assert_eq!(ctx.exit_code, 3);
}
