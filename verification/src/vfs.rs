//! The virtual file-descriptor table: small integer handles mapped to
//! host-side resources, with reserved low slots for console streams and
//! pre-opened directories.
//!
//! The table tracks the lowest possibly-free slot above the reserved range
//! and the highest occupied slot, both updated incrementally, so inserting
//! and removing stay close to O(1) without a full scan in the common case.

use vstd::prelude::*;

use crate::errno::Errno;
use crate::error::{CoreError, CoreExecutionError};
use crate::net::WasiSocketState;
use crate::serial::IoState;
use crate::types::WasmVal;

verus! {

/// The console input stream.
#[derive(Clone, Copy, Debug, PartialEq, Eq, Structural)]
pub struct WasiStdin;

/// The console output stream.
#[derive(Clone, Copy, Debug, PartialEq, Eq, Structural)]
pub struct WasiStdout;

/// The console error stream.
#[derive(Clone, Copy, Debug, PartialEq, Eq, Structural)]
pub struct WasiStderr;

/// A pre-opened directory: the guest-visible path and its rights. The host
/// path is the embedder's business and is not stored here.
#[derive(Clone, Debug, PartialEq, Eq)]
pub struct WasiPreOpenDir {
    /// The path the guest sees.
    pub guest_path: String,
    /// Rights that apply to the directory itself.
    pub dir_rights: u64,
    /// Rights inherited by files opened under it.
    pub file_rights: u64,
}

impl WasiPreOpenDir {
    /// A pre-opened directory visible to the guest under `guest_path`, with
    /// all rights granted.
    pub fn new(guest_path: String) -> (r: Self)
        ensures
            r.guest_path == guest_path,
            r.dir_rights == u64::MAX,
            r.file_rights == u64::MAX,
    {
        WasiPreOpenDir { guest_path, dir_rights: u64::MAX, file_rights: u64::MAX }
    }
}

/// A non-socket resource held in the table.
#[derive(Clone, Debug, PartialEq, Eq)]
pub enum INode {
    /// The console input stream.
    Stdin(WasiStdin),
    /// The console output stream.
    Stdout(WasiStdout),
    /// The console error stream.
    Stderr(WasiStderr),
    /// A pre-opened directory.
    PreOpenDir(WasiPreOpenDir),
    /// An open directory handle, owned by the embedder.
    Dir,
    /// An open file handle, owned by the embedder.
    File,
}

/// A synchronously driven socket: its plain state plus the embedder's handle
/// to the live descriptor.
#[derive(Clone, Copy, Debug, PartialEq, Eq, Structural)]
pub struct SyncWasiSocket {
    /// The embedder's handle to the live OS socket.
    pub handle: u64,
    /// The socket's plain state.
    pub state: WasiSocketState,
}

/// An asynchronously pollable socket: its plain state plus the embedder's
/// handle to the live descriptor.
#[derive(Clone, Copy, Debug, PartialEq, Eq, Structural)]
pub struct AsyncWasiSocket {
    /// The embedder's handle to the live OS socket.
    pub handle: u64,
    /// The socket's plain state.
    pub state: WasiSocketState,
}

/// One occupied table slot.
#[derive(Clone, Debug, PartialEq, Eq)]
pub enum VFD {
    /// A closed resource, tombstoned so the handle number stays stable.
    Closed,
    /// A non-socket resource.
    Inode(INode),
    /// A synchronously driven socket.
    Socket(SyncWasiSocket),
    /// An asynchronously pollable socket.
    AsyncSocket(AsyncWasiSocket),
}

impl VFD {
    /// Whether this is a synchronously driven socket.
    pub fn is_socket(&self) -> (r: bool)
        ensures
            r == (self is Socket),
    {
        match self {
            VFD::Socket(_) => true,
            _ => false,
        }
    }

    /// Whether this is an asynchronously pollable socket.
    pub fn is_async_socket(&self) -> (r: bool)
        ensures
            r == (self is AsyncSocket),
    {
        match self {
            VFD::AsyncSocket(_) => true,
            _ => false,
        }
    }

    /// Whether this is a non-socket resource.
    pub fn is_inode(&self) -> (r: bool)
        ensures
            r == (self is Inode),
    {
        match self {
            VFD::Inode(_) => true,
            _ => false,
        }
    }
}

/// The smaller of two positions.
pub open spec fn min_int(a: int, b: int) -> int {
    if a < b {
        a
    } else {
        b
    }
}

/// The first index at or after `j` whose slot is free, or the table length
/// when every slot from `j` on is occupied.
pub open spec fn first_free_from(v: Seq<Option<VFD>>, j: int) -> int
    decreases v.len() - j,
{
    if j < 0 || j >= v.len() {
        v.len() as int
    } else if v[j] is None {
        j
    } else {
        first_free_from(v, j + 1)
    }
}

/// The highest index at or below `j` whose slot is occupied; meaningful only
/// when one exists.
pub open spec fn last_occupied_from(v: Seq<Option<VFD>>, j: int) -> int
    decreases j,
{
    if j <= 0 {
        0
    } else if v[j] is Some {
        j
    } else {
        last_occupied_from(v, j - 1)
    }
}

/// A per-guest context: arguments, environment, the table of virtual file
/// descriptors with its bookkeeping, and what the last call was waiting on.
pub struct WasiCtx {
    args: Vec<String>,
    envs: Vec<String>,
    vfs: Vec<Option<VFD>>,
    vfs_preopen_limit: usize,
    vfs_select_index: usize,
    vfs_last_index: usize,
    /// What the guest's last call was waiting on.
    pub io_state: IoState,
    /// The exit code the guest reported, if any.
    pub exit_code: u32,
}

impl WasiCtx {
    /// The table as a sequence of optional slots.
    pub closed spec fn view(&self) -> Seq<Option<VFD>> {
        self.vfs@
    }

    /// The highest reserved handle: console streams and pre-opened
    /// directories live at or below it and are never recycled.
    pub closed spec fn spec_preopen_limit(&self) -> int {
        self.vfs_preopen_limit as int
    }

    /// The lowest possibly-free slot at or above the reserved range.
    pub closed spec fn spec_select_index(&self) -> int {
        self.vfs_select_index as int
    }

    /// The highest occupied slot.
    pub closed spec fn spec_last_index(&self) -> int {
        self.vfs_last_index as int
    }

    /// The command-line arguments handed to the guest.
    pub closed spec fn spec_args(&self) -> Seq<String> {
        self.args@
    }

    /// The environment entries handed to the guest.
    pub closed spec fn spec_envs(&self) -> Seq<String> {
        self.envs@
    }

    /// What the guest's last call was waiting on.
    pub closed spec fn spec_io_state(&self) -> IoState {
        self.io_state
    }

    /// The exit code the guest reported.
    pub closed spec fn spec_exit_code(&self) -> u32 {
        self.exit_code
    }

    /// Table well-formedness: reserved slots stay occupied, everything
    /// between the reserved range and the lowest possibly-free slot is
    /// occupied, the highest occupied slot is real, and nothing lies beyond
    /// it.
    pub closed spec fn wf(&self) -> bool {
        let v = self.vfs@;
        let limit = self.vfs_preopen_limit as int;
        let sel = self.vfs_select_index as int;
        let last = self.vfs_last_index as int;
        &&& v.len() <= i32::MAX as int
        &&& limit < v.len()
        &&& limit <= sel <= last + 1
        &&& limit <= last < v.len()
        &&& (forall|j: int| 0 <= j <= limit ==> (#[trigger] v[j]) is Some)
        &&& (forall|j: int| limit <= j < sel ==> (#[trigger] v[j]) is Some)
        &&& (forall|j: int| last < j < v.len() ==> (#[trigger] v[j]) is None)
        &&& v[last] is Some
    }

    /// Getter for the highest reserved handle.
    pub fn vfs_preopen_limit(&self) -> (r: usize)
        ensures
            r as int == self.spec_preopen_limit(),
    {
        self.vfs_preopen_limit
    }

    /// Getter for the lowest possibly-free slot.
    pub fn vfs_select_index(&self) -> (r: usize)
        ensures
            r as int == self.spec_select_index(),
    {
        self.vfs_select_index
    }

    /// Getter for the highest occupied slot.
    pub fn vfs_last_index(&self) -> (r: usize)
        ensures
            r as int == self.spec_last_index(),
    {
        self.vfs_last_index
    }

    /// Number of slots the table currently holds.
    pub fn vfs_len(&self) -> (r: usize)
        ensures
            r as int == self@.len(),
    {
        self.vfs.len()
    }

    /// A fresh context: console streams in the three reserved slots, no
    /// arguments, no environment, nothing pending.
    pub fn new() -> (r: Self)
        ensures
            r.wf(),
            r@.len() == 3,
            r.spec_preopen_limit() == 2,
            r.spec_select_index() == 2,
            r.spec_last_index() == 2,
            r@[0] == Some(VFD::Inode(INode::Stdin(WasiStdin))),
            r@[1] == Some(VFD::Inode(INode::Stdout(WasiStdout))),
            r@[2] == Some(VFD::Inode(INode::Stderr(WasiStderr))),
            r.spec_args().len() == 0,
            r.spec_envs().len() == 0,
            r.spec_io_state() == IoState::Empty,
            r.spec_exit_code() == 0,
    {
        let mut vfs: Vec<Option<VFD>> = Vec::new();
        vfs.push(Some(VFD::Inode(INode::Stdin(WasiStdin))));
        vfs.push(Some(VFD::Inode(INode::Stdout(WasiStdout))));
        vfs.push(Some(VFD::Inode(INode::Stderr(WasiStderr))));
        WasiCtx {
            args: Vec::new(),
            envs: Vec::new(),
            vfs,
            vfs_preopen_limit: 2,
            vfs_select_index: 2,
            vfs_last_index: 2,
            io_state: IoState::Empty,
            exit_code: 0,
        }
    }

    /// Reserve the next slot for a pre-opened directory. Reserved slots are
    /// appended before execution starts and stay stable forever after.
    pub fn push_preopen(&mut self, preopen: WasiPreOpenDir)
        requires
            old(self).wf(),
            old(self)@.len() + 1 <= i32::MAX,
            // pre-opens are installed before execution starts, while every
            // slot is still reserved
            old(self).spec_preopen_limit() == old(self)@.len() - 1,
        ensures
            final(self).wf(),
            final(self)@ == old(self)@.push(Some(VFD::Inode(INode::PreOpenDir(preopen)))),
            final(self).spec_preopen_limit() == old(self).spec_preopen_limit() + 1,
            final(self).spec_select_index() == old(self)@.len(),
            final(self).spec_last_index() == old(self)@.len(),
            final(self).spec_args() == old(self).spec_args(),
            final(self).spec_envs() == old(self).spec_envs(),
    {
        self.vfs.push(Some(VFD::Inode(INode::PreOpenDir(preopen))));
        self.vfs_select_index = self.vfs.len() - 1;
        self.vfs_last_index = self.vfs_select_index;
        self.vfs_preopen_limit = self.vfs_preopen_limit + 1;
        proof {
            assert(self.vfs@[self.vfs_last_index as int] is Some);
        }
    }

    /// Append one command-line argument.
    pub fn push_arg(&mut self, arg: String)
        ensures
            final(self).spec_args() == old(self).spec_args().push(arg),
            final(self).spec_envs() == old(self).spec_envs(),
            final(self)@ == old(self)@,
            final(self).wf() == old(self).wf(),
            final(self).spec_preopen_limit() == old(self).spec_preopen_limit(),
            final(self).spec_select_index() == old(self).spec_select_index(),
            final(self).spec_last_index() == old(self).spec_last_index(),
    {
        self.args.push(arg);
    }

    /// Append one `key=value` environment entry.
    pub fn push_env(&mut self, env: String)
        ensures
            final(self).spec_envs() == old(self).spec_envs().push(env),
            final(self).spec_args() == old(self).spec_args(),
            final(self)@ == old(self)@,
            final(self).wf() == old(self).wf(),
            final(self).spec_preopen_limit() == old(self).spec_preopen_limit(),
            final(self).spec_select_index() == old(self).spec_select_index(),
            final(self).spec_last_index() == old(self).spec_last_index(),
    {
        self.envs.push(env);
    }

    /// Look up the resource behind a handle. Fails with `Badf` when the
    /// handle is negative, out of range, empty, or a closed tombstone.
    pub fn get_vfd(&self, fd: i32) -> (r: Result<&VFD, Errno>)
        ensures
            match r {
                Ok(v) => 0 <= fd && (fd as int) < self@.len() && self@[fd as int] == Some(*v) && !(
                *v is Closed),
                Err(e) => e == Errno::Badf && (fd < 0 || (fd as int) >= self@.len()
                    || self@[fd as int] is None || self@[fd as int] == Some(VFD::Closed)),
            },
    {
        if fd < 0 {
            return Err(Errno::Badf);
        }
        let idx = fd as usize;
        if idx >= self.vfs.len() {
            return Err(Errno::Badf);
        }
        match &self.vfs[idx] {
            Some(v) => match v {
                VFD::Closed => Err(Errno::Badf),
                other => Ok(other),
            },
            None => Err(Errno::Badf),
        }
    }

    /// Look up the resource behind a handle for mutation. The borrow may
    /// change the resource in place but cannot vacate the slot, so the
    /// table's bookkeeping stays valid.
    pub fn get_mut_vfd(&mut self, fd: i32) -> (r: Result<&mut VFD, Errno>)
        requires
            old(self).wf(),
        ensures
            match r {
                Ok(v) => {
                    &&& 0 <= fd && (fd as int) < old(self)@.len()
                    &&& old(self)@[fd as int] == Some(*v)
                    &&& !(*v is Closed)
                    &&& final(self)@ == old(self)@.update(fd as int, Some(*final(v)))
                    &&& final(self).wf()
                    &&& final(self).spec_preopen_limit() == old(self).spec_preopen_limit()
                    &&& final(self).spec_select_index() == old(self).spec_select_index()
                    &&& final(self).spec_last_index() == old(self).spec_last_index()
                    &&& final(self).spec_args() == old(self).spec_args()
                    &&& final(self).spec_envs() == old(self).spec_envs()
                },
                Err(e) => {
                    &&& e == Errno::Badf
                    &&& (fd < 0 || (fd as int) >= old(self)@.len() || old(self)@[fd as int] is None
                        || old(self)@[fd as int] == Some(VFD::Closed))
                    &&& *final(self) == *old(self)
                },
            },
    {
        if fd < 0 {
            return Err(Errno::Badf);
        }
        let idx = fd as usize;
        if idx >= self.vfs.len() {
            return Err(Errno::Badf);
        }
        let is_ok = match &self.vfs[idx] {
            Some(VFD::Closed) => false,
            Some(_) => true,
            None => false,
        };
        if !is_ok {
            return Err(Errno::Badf);
        }
        let slot = &mut self.vfs[idx];
        let r = match slot {
            Some(v) => v,
            None => unreached(),
        };
        proof {
            let post = *after_borrow(self);
            assert(post.vfs@ =~= old(self).vfs@.update(fd as int, Some(*final(r))));
            let v = post.vfs@;
            let limit = post.vfs_preopen_limit as int;
            let sel = post.vfs_select_index as int;
            let last = post.vfs_last_index as int;
            assert forall|j: int| 0 <= j <= limit implies (#[trigger] v[j]) is Some by {
                assert(old(self).vfs@[j] is Some);
            }
            assert forall|j: int| limit <= j < sel implies (#[trigger] v[j]) is Some by {
                assert(old(self).vfs@[j] is Some);
            }
            assert forall|j: int| last < j < v.len() implies (#[trigger] v[j]) is None by {
                assert(old(self).vfs@[j] is None);
                assert(j != fd as int);
            }
            assert(v[last] is Some);
            assert(post.wf());
        }
        Ok(r)
    }
}

/// `first_free_from` does not move when the scan start steps over an
/// occupied slot.
proof fn lemma_first_free_skip(v: Seq<Option<VFD>>, a: int, b: int)
    requires
        0 <= a <= b <= v.len(),
        forall|j: int| a <= j < b ==> (#[trigger] v[j]) is Some,
    ensures
        first_free_from(v, a) == first_free_from(v, b),
    decreases b - a,
{
    if a < b {
        lemma_first_free_skip(v, a + 1, b);
    }
}

/// Where `first_free_from` lands: on a free slot with everything before it
/// (from the scan start) occupied, or at the end with everything occupied.
proof fn lemma_first_free_bounds(v: Seq<Option<VFD>>, a: int)
    requires
        0 <= a <= v.len(),
    ensures
        a <= first_free_from(v, a) <= v.len(),
        first_free_from(v, a) < v.len() ==> v[first_free_from(v, a)] is None,
        forall|j: int| a <= j < first_free_from(v, a) ==> (#[trigger] v[j]) is Some,
    decreases v.len() - a,
{
    if a < v.len() && !(v[a] is None) {
        lemma_first_free_bounds(v, a + 1);
    }
}


/// Well-formedness of the table after a renumber: one slot vacated, one slot
/// (re)occupied, bookkeeping adjusted by the caller.
proof fn lemma_renumber_wf(pre: WasiCtx, post: WasiCtx, from: int, to: int)
    requires
        pre.wf(),
        post.spec_preopen_limit() == pre.spec_preopen_limit(),
        pre.spec_preopen_limit() < from,
        pre.spec_preopen_limit() < to,
        from != to,
        from < pre@.len(),
        pre@[from] is Some,
        post@.len() == if to + 1 > pre@.len() {
            to + 1
        } else {
            pre@.len() as int
        },
        post@.len() <= i32::MAX as int,
        forall|j: int|
            0 <= j < post@.len() && j != from && j != to ==> #[trigger] post@[j] == (if j
                < pre@.len() {
                pre@[j]
            } else {
                None
            }),
        post@[from] is None,
        post@[to] == pre@[from],
        pre.spec_preopen_limit() <= post.spec_select_index(),
        post.spec_select_index() <= pre.spec_select_index(),
        post.spec_select_index() <= from,
        post.spec_select_index() <= post.spec_last_index() + 1,
        pre.spec_preopen_limit() <= post.spec_last_index(),
        post.spec_last_index() < post@.len(),
        post@[post.spec_last_index()] is Some,
        forall|j: int|
            post.spec_last_index() < j && j < post@.len() ==> (#[trigger] post@[j]) is None,
    ensures
        post.wf(),
{
    let limit = pre.spec_preopen_limit();
    assert forall|j: int| 0 <= j <= limit implies (#[trigger] post@[j]) is Some by {
        assert(pre@[j] is Some);
        assert(post@[j] == pre@[j]);
    }
    assert forall|j: int| limit <= j < post.spec_select_index() implies (#[trigger] post@[j])
        is Some by {
        if j != to {
            assert(post@[j] == pre@[j]);
            assert(pre@[j] is Some);
        }
    }
}

impl WasiCtx {
    /// Walk downward from `from` to the highest occupied slot. The reserved
    /// slots are always occupied, so the walk stops at or above the reserved
    /// range.
    fn scan_last_occupied(&self, from: usize) -> (r: usize)
        requires
            (from as int) < self@.len(),
            self.spec_preopen_limit() <= from as int,
            forall|j: int|
                0 <= j <= self.spec_preopen_limit() ==> (#[trigger] self@[j]) is Some,
        ensures
            self.spec_preopen_limit() <= r as int <= from as int,
            self@[r as int] is Some,
            forall|j: int| (r as int) < j <= from as int ==> (#[trigger] self@[j]) is None,
            r as int == last_occupied_from(self@, from as int),
    {
        let mut i = from;
        while self.vfs[i].is_none()
            invariant
                (from as int) < self@.len(),
                self.spec_preopen_limit() <= i as int && i as int <= from as int,
                forall|j: int|
                    0 <= j <= self.spec_preopen_limit() ==> (#[trigger] self@[j]) is Some,
                forall|j: int| (i as int) < j <= from as int ==> (#[trigger] self@[j]) is None,
                last_occupied_from(self@, from as int) == last_occupied_from(self@, i as int),
            decreases i,
        {
            proof {
                // the slot at the reserved boundary is occupied, so the walk
                // never reaches below it
                assert(self@[self.spec_preopen_limit()] is Some);
            }
            i = i - 1;
        }
        i
    }

    /// Store a resource in the lowest free non-reserved slot, growing the
    /// table when none is free. Always succeeds; the handle returned is
    /// `first_free_from` the reserved range, and is never a reserved handle.
    pub fn insert_vfd(&mut self, vfd: VFD) -> (r: Result<i32, Errno>)
        requires
            old(self).wf(),
            old(self)@.len() + 1 < i32::MAX,
        ensures
            final(self).wf(),
            match r {
                Ok(fd) => {
                    let at = first_free_from(old(self)@, old(self).spec_preopen_limit() + 1);
                    &&& fd as int == at
                    // a reserved handle is never returned
                    &&& fd > old(self).spec_preopen_limit()
                    &&& (at < old(self)@.len() ==> final(self)@ == old(self)@.update(
                        at,
                        Some(vfd),
                    ))
                    &&& at == old(self)@.len() ==> final(self)@ == old(self)@.push(Some(vfd))
                    &&& final(self).spec_select_index() == at
                    &&& final(self).spec_last_index() == if at > old(self).spec_last_index() {
                        at
                    } else {
                        old(self).spec_last_index()
                    }
                    &&& final(self).spec_preopen_limit() == old(self).spec_preopen_limit()
                    &&& final(self).spec_args() == old(self).spec_args()
                    &&& final(self).spec_envs() == old(self).spec_envs()
                },
                Err(_) => false,
            },
    {
        proof {
            lemma_first_free_bounds(self.vfs@, self.vfs_select_index as int);
            lemma_first_free_bounds(self.vfs@, self.vfs_preopen_limit as int + 1);
            if self.vfs_select_index as int >= self.vfs_preopen_limit as int + 1 {
                lemma_first_free_skip(
                    self.vfs@,
                    self.vfs_preopen_limit as int + 1,
                    self.vfs_select_index as int,
                );
            } else {
                lemma_first_free_skip(
                    self.vfs@,
                    self.vfs_select_index as int,
                    self.vfs_preopen_limit as int + 1,
                );
            }
        }
        let ghost pre = *self;
        let mut i = self.vfs_select_index;
        while i < self.vfs.len()
            invariant
                self.wf(),
                *self == pre,
                *old(self) == pre,
                self.spec_select_index() <= i as int <= self@.len(),
                forall|j: int|
                    self.spec_select_index() <= j < i as int ==> (#[trigger] self@[j]) is Some,
                first_free_from(pre.vfs@, pre.spec_preopen_limit() + 1) == first_free_from(
                    pre.vfs@,
                    pre.spec_select_index(),
                ),
            decreases self@.len() - i,
        {
            let is_free = self.vfs[i].is_none();
            if is_free {
                proof {
                    lemma_first_free_skip(self.vfs@, self.vfs_select_index as int, i as int);
                    assert(first_free_from(self.vfs@, i as int) == i as int);
                }
                self.vfs[i] = Some(vfd);
                self.vfs_select_index = i;
                if self.vfs_select_index > self.vfs_last_index {
                    self.vfs_last_index = self.vfs_select_index;
                }
                proof {
                    assert(self.vfs@ =~= pre.vfs@.update(i as int, Some(vfd)));
                    assert(self.vfs@[self.vfs_last_index as int] is Some);
                }
                return Ok(i as i32);
            }
            i = i + 1;
        }
        proof {
            lemma_first_free_skip(self.vfs@, self.vfs_select_index as int, self@.len() as int);
            assert(first_free_from(self.vfs@, self@.len() as int) == self@.len());
            assert(self@[self.spec_preopen_limit()] is Some);
        }
        self.vfs.push(Some(vfd));
        self.vfs_select_index = self.vfs.len() - 1;
        self.vfs_last_index = self.vfs_select_index;
        proof {
            assert(self.vfs@[self.vfs_last_index as int] is Some);
        }
        Ok(self.vfs_select_index as i32)
    }

    /// Clear the slot behind a non-reserved handle. Fails with `Notsup` for
    /// any handle at or below the reserved range (so a reserved slot is
    /// never removed) and with `Badf` past the end of the table; clearing an
    /// already empty slot succeeds.
    pub fn remove_vfd(&mut self, fd: i32) -> (r: Result<(), Errno>)
        requires
            old(self).wf(),
        ensures
            final(self).wf(),
            fd <= old(self).spec_preopen_limit() ==> r == Err::<(), Errno>(Errno::Notsup) && *final(self) == *old(self),
            fd > old(self).spec_preopen_limit() && fd as int >= old(self)@.len() ==> r == Err::<
                (),
                Errno,
            >(Errno::Badf) && *final(self) == *old(self),
            fd > old(self).spec_preopen_limit() && (fd as int) < old(self)@.len() ==> r == Ok::<
                (),
                Errno,
            >(()) && final(self)@ == old(self)@.update(fd as int, None::<VFD>) && final(self).spec_preopen_limit() == old(self).spec_preopen_limit() && final(self).spec_args()
                == old(self).spec_args() && final(self).spec_envs() == old(self).spec_envs(),
            // the low- and high-water marks after a successful removal:
            // freeing a low slot lowers the next-grant scan start; freeing
            // the highest slot walks the high mark back to the new highest
            // occupied slot
            fd > old(self).spec_preopen_limit() && (fd as int) < old(self)@.len() && fd as int
                != old(self).spec_last_index() ==> final(self).spec_last_index() == old(self).spec_last_index() && final(self).spec_select_index() == (if (fd as int) < old(self).spec_select_index() {
                fd as int
            } else {
                old(self).spec_select_index()
            }),
            fd > old(self).spec_preopen_limit() && (fd as int) < old(self)@.len() && fd as int
                == old(self).spec_last_index() ==> final(self).spec_last_index()
                == last_occupied_from(old(self)@.update(fd as int, None::<VFD>), fd as int)
                && final(self).spec_select_index() == (if final(self).spec_last_index() < old(self).spec_select_index() {
                final(self).spec_last_index()
            } else {
                old(self).spec_select_index()
            }),
    {
        if fd <= self.vfs_preopen_limit as i32 {
            return Err(Errno::Notsup);
        }
        let fdu = fd as usize;
        if fdu >= self.vfs.len() {
            return Err(Errno::Badf);
        }
        let ghost pre = *self;
        self.vfs[fdu] = None;
        proof {
            assert(self.vfs@ =~= pre.vfs@.update(fdu as int, None::<VFD>));
        }
        if fdu != self.vfs_last_index {
            if fdu < self.vfs_select_index {
                self.vfs_select_index = fdu;
            }
            proof {
                assert(self.vfs@[self.vfs_last_index as int] is Some);
            }
        } else {
            // the highest occupied slot went away: scan down for the new one
            let i = self.scan_last_occupied(self.vfs_last_index);
            self.vfs_last_index = i;
            if i < self.vfs_select_index {
                self.vfs_select_index = i;
            }
        }
        Ok(())
    }

    /// Well-formedness of everything except the highest-occupied-slot
    /// bookkeeping, which `remove_vfd` re-establishes after its scan.
    pub closed spec fn wf_except_last(&self) -> bool {
        let v = self.vfs@;
        let limit = self.vfs_preopen_limit as int;
        let sel = self.vfs_select_index as int;
        let last = self.vfs_last_index as int;
        &&& limit < v.len()
        &&& limit <= sel <= last + 1
        &&& limit <= last < v.len()
        &&& (forall|j: int| 0 <= j <= limit ==> (#[trigger] v[j]) is Some)
        &&& (forall|j: int| limit <= j < sel ==> (#[trigger] v[j]) is Some)
    }

    /// Move the resource behind `from` to the handle `to`, growing the table
    /// when `to` lies past the end. Both handles must be outside the
    /// reserved range, and `from` must name an occupied slot.
    pub fn renumber_vfd(&mut self, from: i32, to: i32) -> (r: Result<(), Errno>)
        requires
            old(self).wf(),
            to < i32::MAX - 1,
        ensures
            final(self).wf(),
            (from < 0 || to < 0) ==> r == Err::<(), Errno>(Errno::Badf) && *final(self) == *old(self),
            from >= 0 && to >= 0 && (from <= old(self).spec_preopen_limit() || to <= old(self).spec_preopen_limit()) ==> r == Err::<(), Errno>(Errno::Notsup) && *final(self)
                == *old(self),
            from > old(self).spec_preopen_limit() && to > old(self).spec_preopen_limit() && (
            (from as int) >= old(self)@.len() || old(self)@[from as int] is None) ==> r == Err::<
                (),
                Errno,
            >(Errno::Badf) && *final(self) == *old(self),
            from > old(self).spec_preopen_limit() && to > old(self).spec_preopen_limit()
                && (from as int) < old(self)@.len() && old(self)@[from as int] is Some ==> r == Ok::<
                (),
                Errno,
            >(()) && final(self)@ == (if (to as int) < old(self)@.len() {
                old(self)@
            } else {
                old(self)@ + Seq::new((to as int + 1 - old(self)@.len()) as nat, |j: int| None::<VFD>)
            }).update(from as int, None::<VFD>).update(to as int, old(self)@[from as int]) && final(self).spec_preopen_limit() == old(self).spec_preopen_limit(),
            // the water marks after a successful move
            from > old(self).spec_preopen_limit() && to > old(self).spec_preopen_limit()
                && (from as int) < old(self)@.len() && old(self)@[from as int] is Some && from != to
                ==> final(self).spec_select_index() == (if (from as int) < old(self).spec_select_index() {
                min_int(from as int, final(self).spec_last_index())
            } else {
                min_int(old(self).spec_select_index(), final(self).spec_last_index())
            }) && final(self).spec_last_index() == (if to as int > old(self).spec_last_index() {
                to as int
            } else if from as int == old(self).spec_last_index() {
                last_occupied_from(final(self)@, from as int)
            } else {
                old(self).spec_last_index()
            }),
            from > old(self).spec_preopen_limit() && to > old(self).spec_preopen_limit()
                && (from as int) < old(self)@.len() && old(self)@[from as int] is Some && from == to
                ==> final(self).spec_select_index() == old(self).spec_select_index() && final(self).spec_last_index() == old(self).spec_last_index(),
    {
        if from < 0 || to < 0 {
            return Err(Errno::Badf);
        }
        if from <= self.vfs_preopen_limit as i32 || to <= self.vfs_preopen_limit as i32 {
            return Err(Errno::Notsup);
        }
        let fromu = from as usize;
        let tou = to as usize;
        if fromu >= self.vfs.len() {
            return Err(Errno::Badf);
        }
        let is_occupied = self.vfs[fromu].is_some();
        if !is_occupied {
            return Err(Errno::Badf);
        }
        let ghost pre = *self;
        // grow so the target slot exists
        while self.vfs.len() <= tou
            invariant
                pre.wf(),
                self.vfs@.len() >= pre.vfs@.len(),
                self.vfs@ == pre.vfs@ + Seq::new(
                    (self.vfs@.len() - pre.vfs@.len()) as nat,
                    |j: int| None::<VFD>,
                ),
                self.vfs_preopen_limit == pre.vfs_preopen_limit,
                self.vfs_select_index == pre.vfs_select_index,
                self.vfs_last_index == pre.vfs_last_index,
                self.args@ == pre.args@,
                self.envs@ == pre.envs@,
                tou < usize::MAX,
                self.vfs@.len() == pre.vfs@.len() || self.vfs@.len() <= tou + 1,
            decreases tou + 1 - self.vfs@.len(),
        {
            self.vfs.push(None);
            proof {
                assert(self.vfs@ =~= pre.vfs@ + Seq::new(
                    (self.vfs@.len() - pre.vfs@.len()) as nat,
                    |j: int| None::<VFD>,
                ));
            }
        }
        let ghost grown = *self;
        let entry = self.vfs[fromu].take();
        self.vfs[tou] = entry;
        proof {
            assert(self.vfs@ =~= grown.vfs@.update(fromu as int, None::<VFD>).update(
                tou as int,
                pre.vfs@[fromu as int],
            ));
        }
        // bookkeeping: the freed slot may open a lower gap, the target may
        // raise the highest occupied slot
        if fromu != tou {
            if fromu < self.vfs_select_index {
                self.vfs_select_index = fromu;
            }
            if tou > self.vfs_last_index {
                self.vfs_last_index = tou;
                proof {
                    assert forall|j: int|
                        self.spec_last_index() < j && j < self@.len() implies (#[trigger] self@[j])
                        is None by {
                        if j < pre.vfs@.len() {
                            assert(pre.vfs@[j] is None);
                        }
                    }
                    lemma_renumber_wf(pre, *self, fromu as int, tou as int);
                }
            } else if fromu == self.vfs_last_index {
                let i = self.scan_last_occupied(self.vfs_last_index);
                let ghost oldlast = self.vfs_last_index as int;
                self.vfs_last_index = i;
                if i < self.vfs_select_index {
                    self.vfs_select_index = i;
                }
                proof {
                    assert forall|j: int|
                        self.spec_last_index() < j && j < self@.len() implies (#[trigger] self@[j])
                        is None by {
                        if j > oldlast {
                            assert(pre.vfs@[j] is None || j >= pre.vfs@.len());
                            if j < pre.vfs@.len() {
                                assert(self@[j] == pre.vfs@[j]);
                            }
                        }
                    }
                    lemma_renumber_wf(pre, *self, fromu as int, tou as int);
                }
            } else {
                proof {
                    assert(self.vfs@[self.vfs_last_index as int] is Some);
                    assert forall|j: int|
                        self.spec_last_index() < j && j < self@.len() implies (#[trigger] self@[j])
                        is None by {
                        if j < pre.vfs@.len() {
                            assert(pre.vfs@[j] is None);
                        }
                    }
                    lemma_renumber_wf(pre, *self, fromu as int, tou as int);
                }
            }
        } else {
            proof {
                assert(self.vfs@ =~= grown.vfs@);
                if tou as int + 1 > pre.vfs@.len() {
                    assert(self.vfs@[self.vfs_last_index as int] is Some);
                    assert forall|j: int|
                        self.spec_last_index() < j && j < self@.len() implies (#[trigger] self@[j])
                        is None by {
                        if j < pre.vfs@.len() {
                            assert(pre.vfs@[j] is None);
                        }
                    }
                } else {
                    assert(self.vfs@ =~= pre.vfs@);
                    assert(self.vfs@[self.vfs_last_index as int] is Some);
                }
            }
        }
        Ok(())
    }
}

/// Law (handle reuse): after a low-numbered non-reserved handle is freed,
/// and no lower non-reserved handle is free, the next handle granted by
/// `insert_vfd` — which returns `first_free_from` the reserved range — is
/// exactly the freed handle, not a fresh one past the end.
pub proof fn lemma_handle_reuse(v: Seq<Option<VFD>>, limit: int, fd: int)
    requires
        0 <= limit < fd && fd < v.len(),
        forall|j: int| limit < j && j < fd ==> (#[trigger] v[j]) is Some,
    ensures
        first_free_from(v.update(fd, None::<VFD>), limit + 1) == fd,
{
    let v2 = v.update(fd, None::<VFD>);
    lemma_first_free_skip(v2, limit + 1, fd);
    assert(first_free_from(v2, fd) == fd);
}

/// Law (high-water shrink): after the highest handle is freed, the next
/// handle granted stays at or below it — the table does not grow.
pub proof fn lemma_no_growth_after_free(v: Seq<Option<VFD>>, limit: int, fd: int)
    requires
        0 <= limit < fd && fd < v.len(),
    ensures
        first_free_from(v.update(fd, None::<VFD>), limit + 1) <= fd,
{
    let v2 = v.update(fd, None::<VFD>);
    lemma_first_free_bounds(v2, limit + 1);
    if first_free_from(v2, limit + 1) > fd {
        assert(v2[fd] is Some);
    }
}

impl WasiCtx {
    /// Rebuild a context from restored parts: the embedder-resolved table,
    /// the bookkeeping carried by the serialized context, and the pending
    /// I/O description. The parts must describe a consistent table; the
    /// serialized form of a well-formed context always does.
    pub fn assemble(
        args: Vec<String>,
        envs: Vec<String>,
        vfs: Vec<Option<VFD>>,
        vfs_preopen_limit: usize,
        vfs_select_index: usize,
        vfs_last_index: usize,
        io_state: IoState,
        exit_code: u32,
    ) -> (r: WasiCtx)
        requires
            vfs@.len() <= i32::MAX,
            (vfs_preopen_limit as int) < vfs@.len(),
            vfs_preopen_limit <= vfs_select_index,
            vfs_select_index <= vfs_last_index + 1,
            vfs_preopen_limit <= vfs_last_index,
            (vfs_last_index as int) < vfs@.len(),
            forall|j: int| 0 <= j <= vfs_preopen_limit ==> (#[trigger] vfs@[j]) is Some,
            forall|j: int|
                vfs_preopen_limit <= j < vfs_select_index ==> (#[trigger] vfs@[j]) is Some,
            forall|j: int|
                vfs_last_index < j && j < vfs@.len() ==> (#[trigger] vfs@[j]) is None,
            vfs@[vfs_last_index as int] is Some,
        ensures
            r.wf(),
            r@ == vfs@,
            r.spec_preopen_limit() == vfs_preopen_limit,
            r.spec_select_index() == vfs_select_index,
            r.spec_last_index() == vfs_last_index,
            r.spec_args() == args@,
            r.spec_envs() == envs@,
            r.spec_io_state() == io_state,
            r.spec_exit_code() == exit_code,
    {
        WasiCtx {
            args,
            envs,
            vfs,
            vfs_preopen_limit,
            vfs_select_index,
            vfs_last_index,
            io_state,
            exit_code,
        }
    }

    /// The bookkeeping bounds a well-formed table guarantees, stated for
    /// callers outside this module.
    pub proof fn lemma_wf_bounds(&self)
        requires
            self.wf(),
        ensures
            self.spec_preopen_limit() < self@.len(),
            self.spec_preopen_limit() <= self.spec_last_index(),
            self.spec_last_index() < self@.len(),
            self@.len() <= i32::MAX as int,
    {
    }

    /// What the last call was waiting on, for the serializer.
    pub fn current_io_state(&self) -> (r: &IoState)
        ensures
            *r == self.spec_io_state(),
    {
        &self.io_state
    }

    /// The exit code the guest reported, for the serializer.
    pub fn current_exit_code(&self) -> (r: u32)
        ensures
            r == self.spec_exit_code(),
    {
        self.exit_code
    }

    /// The process-exit shim's decision: record the guest's exit code and
    /// surface termination as the outer call's failure, after which the
    /// instance is not reusable. Arguments that do not carry the single
    /// 32-bit exit code are the usual type mismatch.
    pub fn proc_exit(&mut self, args: &Vec<WasmVal>) -> (r: Result<Vec<WasmVal>, CoreError>)
        ensures
            (args@.len() >= 1 && args@[0] is I32) ==> r == Err::<Vec<WasmVal>, CoreError>(
                CoreError::Terminated,
            ) && final(self).spec_exit_code() == (args@[0]->I32_0 as u32) && final(self)@ == old(self)@ && final(self).spec_io_state() == old(self).spec_io_state(),
            !(args@.len() >= 1 && args@[0] is I32) ==> r == Err::<Vec<WasmVal>, CoreError>(
                CoreError::Execution(CoreExecutionError::FuncTypeMismatch),
            ) && *final(self) == *old(self),
            final(self).wf() == old(self).wf(),
            final(self)@ == old(self)@,
            final(self).spec_preopen_limit() == old(self).spec_preopen_limit(),
            final(self).spec_select_index() == old(self).spec_select_index(),
            final(self).spec_last_index() == old(self).spec_last_index(),
            final(self).spec_args() == old(self).spec_args(),
            final(self).spec_envs() == old(self).spec_envs(),
    {
        if args.len() >= 1 {
            let a = &args[0];
            match a {
                WasmVal::I32(code) => {
                    self.exit_code = *code as u32;
                    return Err(CoreError::Terminated);
                },
                _ => {},
            }
        }
        Err(CoreError::Execution(CoreExecutionError::FuncTypeMismatch))
    }

    /// Read one raw slot, occupied or not.
    pub fn get_slot(&self, i: usize) -> (r: &Option<VFD>)
        requires
            (i as int) < self@.len(),
        ensures
            *r == self@[i as int],
    {
        &self.vfs[i]
    }

    /// The arguments, for handing to the guest.
    pub fn args(&self) -> (r: &Vec<String>)
        ensures
            r@ == self.spec_args(),
    {
        &self.args
    }

    /// The environment entries, for handing to the guest.
    pub fn envs(&self) -> (r: &Vec<String>)
        ensures
            r@ == self.spec_envs(),
    {
        &self.envs
    }
}

} // verus!
