//! Capturing and restoring one guest instance's mutable state: every
//! exported mutable global, the full extent of every exported linear
//! memory, and the offset of the region reserved for unwind/rewind
//! bookkeeping.
//!
//! A snapshot is taken while the source instance is suspended (or at a
//! voluntary-yield boundary) and consumed exactly once, against a freshly
//! instantiated instance built from the same module and import bindings,
//! before any call is made on it. The embedder reads the raw globals and
//! memory bytes out of the engine and hands them in as plain values; this
//! module decides what a snapshot holds and exactly which writes a restore
//! performs.

use vstd::prelude::*;

use crate::error::InstanceError;
use crate::types::WasmVal;

verus! {

/// One exported mutable global: its export name and current value.
#[derive(Clone, Debug, PartialEq, Eq)]
pub struct MutGlobal {
    /// The export name.
    pub name: String,
    /// The current value.
    pub val: WasmVal,
}

/// One exported linear memory: its export name and full byte contents.
#[derive(Clone, Debug, PartialEq, Eq)]
pub struct MemoryImage {
    /// The export name.
    pub name: String,
    /// The memory bytes, from offset zero to the current extent.
    pub data: Vec<u8>,
}

/// The engine-visible mutable state of one instance, as plain values: what
/// the embedder reads out before a capture and writes back after a restore.
#[derive(Clone, Debug, PartialEq, Eq)]
pub struct InstanceState {
    /// Every exported mutable global, in export order.
    pub globals: Vec<MutGlobal>,
    /// Every exported linear memory, in export order.
    pub memories: Vec<MemoryImage>,
}

/// The externally persistable image of one suspended instance.
#[derive(Clone, Debug, PartialEq, Eq)]
pub struct InstanceSnapshot {
    /// Name and value of every exported mutable global.
    pub globals: Vec<MutGlobal>,
    /// Name and bytes of every exported linear memory.
    pub memories: Vec<MemoryImage>,
    /// Offset into memory of the region reserved for unwind/rewind
    /// bookkeeping.
    pub asyncify_stack: i32,
}

/// Index of the first entry with the given name, or the length when none
/// carries it.
pub open spec fn find_global(globals: Seq<MutGlobal>, name: Seq<char>, from: int) -> int
    decreases globals.len() - from,
{
    if from < 0 || from >= globals.len() {
        globals.len() as int
    } else if globals[from].name@ == name {
        from
    } else {
        find_global(globals, name, from + 1)
    }
}

/// Index of the first memory with the given name, or the length.
pub open spec fn find_memory(mems: Seq<MemoryImage>, name: Seq<char>, from: int) -> int
    decreases mems.len() - from,
{
    if from < 0 || from >= mems.len() {
        mems.len() as int
    } else if mems[from].name@ == name {
        from
    } else {
        find_memory(mems, name, from + 1)
    }
}

impl InstanceSnapshot {
    /// Capture: copy every exported mutable global's value, every exported
    /// memory's full extent, and the suspend-stack offset tracked for this
    /// instance.
    pub fn capture(state: &InstanceState, asyncify_stack: i32) -> (r: InstanceSnapshot)
        ensures
            r.globals@.len() == state.globals@.len(),
            forall|i: int|
                0 <= i < state.globals@.len() ==> (#[trigger] r.globals@[i]).name
                    == state.globals@[i].name && r.globals@[i].val == state.globals@[i].val,
            r.memories@.len() == state.memories@.len(),
            forall|i: int|
                0 <= i < state.memories@.len() ==> (#[trigger] r.memories@[i]).name
                    == state.memories@[i].name && r.memories@[i].data@
                    == state.memories@[i].data@,
            r.asyncify_stack == asyncify_stack,
    {
        let mut globals: Vec<MutGlobal> = Vec::new();
        let mut i: usize = 0;
        while i < state.globals.len()
            invariant
                i <= state.globals@.len(),
                globals@.len() == i,
                forall|j: int|
                    0 <= j < i ==> (#[trigger] globals@[j]).name == state.globals@[j].name
                        && globals@[j].val == state.globals@[j].val,
            decreases state.globals@.len() - i,
        {
            let g = &state.globals[i];
            globals.push(MutGlobal { name: g.name.clone(), val: g.val });
            i = i + 1;
        }
        let mut memories: Vec<MemoryImage> = Vec::new();
        let mut i: usize = 0;
        while i < state.memories.len()
            invariant
                i <= state.memories@.len(),
                memories@.len() == i,
                forall|j: int|
                    0 <= j < i ==> (#[trigger] memories@[j]).name == state.memories@[j].name
                        && memories@[j].data@ == state.memories@[j].data@,
            decreases state.memories@.len() - i,
        {
            let m = &state.memories[i];
            memories.push(MemoryImage { name: m.name.clone(), data: m.data.clone() });
            i = i + 1;
        }
        InstanceSnapshot { globals, memories, asyncify_stack }
    }
}

/// The globals after writing a snapshot's entries back by name, one after
/// the other; `None` when some name is absent.
pub open spec fn apply_globals(gs: Seq<MutGlobal>, snap: Seq<MutGlobal>, i: int) -> Option<
    Seq<MutGlobal>,
>
    decreases snap.len() - i,
{
    if i < 0 || i >= snap.len() {
        Some(gs)
    } else {
        let k = find_global(gs, snap[i].name@, 0);
        if k == gs.len() {
            None
        } else {
            apply_globals(
                gs.update(k, MutGlobal { name: gs[k].name, val: snap[i].val }),
                snap,
                i + 1,
            )
        }
    }
}

/// One memory after a snapshot image is written at offset zero: the image's
/// bytes, then whatever lay beyond the image's extent.
pub open spec fn overwrite_prefix(dest: Seq<u8>, img: Seq<u8>) -> Seq<u8> {
    img + dest.skip(img.len() as int)
}

/// A memory list reduced to plain values: each entry's name and bytes.
pub open spec fn mem_views(ms: Seq<MemoryImage>) -> Seq<(Seq<char>, Seq<u8>)> {
    Seq::new(ms.len(), |i: int| (ms[i].name@, ms[i].data@))
}

/// Index of the first memory view with the given name, or the length.
pub open spec fn find_mem_view(ms: Seq<(Seq<char>, Seq<u8>)>, name: Seq<char>, from: int) -> int
    decreases ms.len() - from,
{
    if from < 0 || from >= ms.len() {
        ms.len() as int
    } else if ms[from].0 == name {
        from
    } else {
        find_mem_view(ms, name, from + 1)
    }
}

/// The memory views after writing a snapshot's images back by name, one
/// after the other; `None` when a name is absent or a destination is
/// smaller than its image.
pub open spec fn apply_memories(
    ms: Seq<(Seq<char>, Seq<u8>)>,
    snap: Seq<(Seq<char>, Seq<u8>)>,
    i: int,
) -> Option<Seq<(Seq<char>, Seq<u8>)>>
    decreases snap.len() - i,
{
    if i < 0 || i >= snap.len() {
        Some(ms)
    } else {
        let k = find_mem_view(ms, snap[i].0, 0);
        if k == ms.len() || ms[k].1.len() < snap[i].1.len() {
            None
        } else {
            apply_memories(ms.update(k, (ms[k].0, overwrite_prefix(ms[k].1, snap[i].1))), snap, i + 1)
        }
    }
}

/// The spec-level search is insensitive to where the scan starts, as long
/// as no earlier entry matches.
proof fn lemma_find_global_skip(gs: Seq<MutGlobal>, name: Seq<char>, a: int, b: int)
    requires
        0 <= a <= b <= gs.len(),
        forall|j: int| a <= j < b ==> (#[trigger] gs[j]).name@ != name,
    ensures
        find_global(gs, name, a) == find_global(gs, name, b),
    decreases b - a,
{
    if a < b {
        lemma_find_global_skip(gs, name, a + 1, b);
    }
}

/// Bounds and meaning of the spec-level search.
proof fn lemma_find_global_bounds(gs: Seq<MutGlobal>, name: Seq<char>, a: int)
    requires
        0 <= a <= gs.len(),
    ensures
        a <= find_global(gs, name, a) <= gs.len(),
        find_global(gs, name, a) < gs.len() ==> gs[find_global(gs, name, a)].name@ == name,
    decreases gs.len() - a,
{
    if a < gs.len() && gs[a].name@ != name {
        lemma_find_global_bounds(gs, name, a + 1);
    }
}

/// Like `lemma_find_global_skip`, for memory views.
proof fn lemma_find_mem_skip(ms: Seq<(Seq<char>, Seq<u8>)>, name: Seq<char>, a: int, b: int)
    requires
        0 <= a <= b <= ms.len(),
        forall|j: int| a <= j < b ==> (#[trigger] ms[j]).0 != name,
    ensures
        find_mem_view(ms, name, a) == find_mem_view(ms, name, b),
    decreases b - a,
{
    if a < b {
        lemma_find_mem_skip(ms, name, a + 1, b);
    }
}

impl InstanceState {
    /// Find the exported mutable global with the given name.
    fn find_global_idx(&self, name: &String) -> (r: usize)
        ensures
            r as int == find_global(self.globals@, name@, 0),
            r as int <= self.globals@.len(),
    {
        let mut i: usize = 0;
        while i < self.globals.len()
            invariant
                i <= self.globals@.len(),
                forall|j: int| 0 <= j < i ==> (#[trigger] self.globals@[j]).name@ != name@,
            decreases self.globals@.len() - i,
        {
            if self.globals[i].name == *name {
                proof {
                    lemma_find_global_skip(self.globals@, name@, 0, i as int);
                }
                return i;
            }
            i = i + 1;
        }
        proof {
            lemma_find_global_skip(self.globals@, name@, 0, self.globals@.len() as int);
        }
        i
    }

    /// Find the exported memory with the given name.
    fn find_memory_idx(&self, name: &String) -> (r: usize)
        ensures
            r as int == find_mem_view(mem_views(self.memories@), name@, 0),
            r as int <= self.memories@.len(),
    {
        let mut i: usize = 0;
        while i < self.memories.len()
            invariant
                i <= self.memories@.len(),
                forall|j: int|
                    0 <= j < i ==> (#[trigger] mem_views(self.memories@)[j]).0 != name@,
            decreases self.memories@.len() - i,
        {
            if self.memories[i].name == *name {
                proof {
                    assert(mem_views(self.memories@)[i as int].0 == name@);
                    lemma_find_mem_skip(mem_views(self.memories@), name@, 0, i as int);
                }
                return i;
            }
            proof {
                assert(mem_views(self.memories@)[i as int].0 == self.memories@[i as int].name@);
            }
            i = i + 1;
        }
        proof {
            lemma_find_mem_skip(
                mem_views(self.memories@),
                name@,
                0,
                self.memories@.len() as int,
            );
        }
        i
    }
}

impl InstanceSnapshot {
    /// Restore: write every captured global back by name, then every
    /// captured memory byte-range back by exported memory name, and hand
    /// back the suspend-stack offset to record for subsequent calls. Must
    /// run against a freshly instantiated instance before its first call.
    /// Fails with `UnknownGlobal` when the destination lacks a captured
    /// global (a module mismatch), with `NotFoundMem` when it lacks a
    /// captured memory, and with `MemoryWriteError` when a destination
    /// memory is smaller than the captured extent.
    pub fn restore(&self, state: &mut InstanceState) -> (r: Result<i32, InstanceError>)
        ensures
            match r {
                Ok(stack) => {
                    &&& stack == self.asyncify_stack
                    &&& apply_globals(old(state).globals@, self.globals@, 0) == Some(
                        final(state).globals@,
                    )
                    &&& apply_memories(
                        mem_views(old(state).memories@),
                        mem_views(self.memories@),
                        0,
                    ) == Some(mem_views(final(state).memories@))
                },
                Err(_) => apply_globals(old(state).globals@, self.globals@, 0) is None
                    || apply_memories(
                    mem_views(old(state).memories@),
                    mem_views(self.memories@),
                    0,
                ) is None,
            },
    {
        let mut i: usize = 0;
        while i < self.globals.len()
            invariant
                i <= self.globals@.len(),
                apply_globals(old(state).globals@, self.globals@, 0) == apply_globals(
                    state.globals@,
                    self.globals@,
                    i as int,
                ),
                state.memories@ == old(state).memories@,
            decreases self.globals@.len() - i,
        {
            let g = &self.globals[i];
            let k = state.find_global_idx(&g.name);
            if k >= state.globals.len() {
                return Err(InstanceError::UnknownGlobal(g.name.clone()));
            }
            let ghost pre_globals = state.globals@;
            state.globals[k].val = g.val;
            proof {
                assert(state.globals@ =~= pre_globals.update(
                    k as int,
                    MutGlobal { name: pre_globals[k as int].name, val: g.val },
                ));
            }
            i = i + 1;
        }
        let mut i: usize = 0;
        while i < self.memories.len()
            invariant
                i <= self.memories@.len(),
                apply_globals(old(state).globals@, self.globals@, 0) == Some(state.globals@),
                apply_memories(mem_views(old(state).memories@), mem_views(self.memories@), 0)
                    == apply_memories(
                    mem_views(state.memories@),
                    mem_views(self.memories@),
                    i as int,
                ),
            decreases self.memories@.len() - i,
        {
            let img = &self.memories[i];
            proof {
                assert(mem_views(self.memories@)[i as int].0 == img.name@);
                assert(mem_views(self.memories@)[i as int].1 == img.data@);
            }
            let k = state.find_memory_idx(&img.name);
            if k >= state.memories.len() {
                return Err(InstanceError::NotFoundMem(img.name.clone()));
            }
            if state.memories[k].data.len() < img.data.len() {
                proof {
                    assert(mem_views(state.memories@)[k as int].1.len() < img.data@.len());
                }
                return Err(InstanceError::MemoryWriteError(img.name.clone()));
            }
            let ghost pre_views = mem_views(state.memories@);
            let ghost pre_mems = state.memories@;
            // write the captured bytes over the front of the destination
            let mut j: usize = 0;
            while j < img.data.len()
                invariant
                    j <= img.data@.len(),
                    apply_globals(old(state).globals@, self.globals@, 0) == Some(state.globals@),
                    (k as int) < state.memories@.len(),
                    img.data@.len() <= state.memories@[k as int].data@.len(),
                    state.memories@.len() == pre_mems.len(),
                    pre_views == mem_views(pre_mems),
                    forall|q: int|
                        0 <= q < state.memories@.len() && q != k ==> (#[trigger] state.memories@[q])
                            == pre_mems[q],
                    state.memories@[k as int].name@ == pre_views[k as int].0,
                    state.memories@[k as int].data@.len() == pre_views[k as int].1.len(),
                    forall|q: int|
                        0 <= q < j ==> (#[trigger] state.memories@[k as int].data@[q])
                            == img.data@[q],
                    forall|q: int|
                        j <= q < state.memories@[k as int].data@.len()
                            ==> (#[trigger] state.memories@[k as int].data@[q])
                            == pre_views[k as int].1[q],
                decreases img.data@.len() - j,
            {
                let b = img.data[j];
                state.memories[k].data[j] = b;
                j = j + 1;
            }
            proof {
                assert(mem_views(state.memories@) =~= pre_views.update(
                    k as int,
                    (pre_views[k as int].0, overwrite_prefix(pre_views[k as int].1, img.data@)),
                )) by {
                    assert forall|q: int| 0 <= q < pre_views.len() implies mem_views(
                        state.memories@,
                    )[q] == pre_views.update(
                        k as int,
                        (
                            pre_views[k as int].0,
                            overwrite_prefix(pre_views[k as int].1, img.data@),
                        ),
                    )[q] by {
                        if q == k as int {
                            assert(state.memories@[q].data@ =~= overwrite_prefix(
                                pre_views[q].1,
                                img.data@,
                            ));
                        }
                    }
                }
            }
            i = i + 1;
        }
        Ok(self.asyncify_stack)
    }
}

/// In a name-aligned table with distinct names, the search for entry `i`'s
/// name finds exactly `i`.
proof fn lemma_find_global_aligned(gs: Seq<MutGlobal>, names: Seq<Seq<char>>, i: int, a: int)
    requires
        gs.len() == names.len(),
        forall|j: int| 0 <= j < gs.len() ==> (#[trigger] gs[j]).name@ == names[j],
        forall|a0: int, b0: int|
            0 <= a0 < b0 < names.len() ==> (#[trigger] names[a0]) != (#[trigger] names[b0]),
        0 <= a <= i < gs.len(),
    ensures
        find_global(gs, names[i], a) == i,
    decreases i - a,
{
    if a < i {
        assert(names[a] != names[i]);
        lemma_find_global_aligned(gs, names, i, a + 1);
    }
}

/// Writing an aligned, distinct-name snapshot back succeeds and leaves
/// every value equal to the snapshot's, names untouched.
proof fn lemma_apply_globals_aligned(gs: Seq<MutGlobal>, snap: Seq<MutGlobal>, i: int)
    requires
        gs.len() == snap.len(),
        0 <= i <= snap.len(),
        forall|j: int| 0 <= j < snap.len() ==> (#[trigger] gs[j]).name@ == snap[j].name@,
        forall|a0: int, b0: int|
            0 <= a0 < b0 < snap.len() ==> (#[trigger] snap[a0].name@)
                != (#[trigger] snap[b0].name@),
    ensures
        match apply_globals(gs, snap, i) {
            Some(g) => {
                &&& g.len() == gs.len()
                &&& (forall|j: int| 0 <= j < g.len() ==> (#[trigger] g[j]).name == gs[j].name)
                &&& (forall|j: int| i <= j < g.len() ==> (#[trigger] g[j]).val == snap[j].val)
                &&& (forall|j: int| 0 <= j < i ==> (#[trigger] g[j]).val == gs[j].val)
            },
            None => false,
        },
    decreases snap.len() - i,
{
    if i < snap.len() {
        let names = Seq::new(snap.len(), |j: int| snap[j].name@);
        lemma_find_global_aligned(gs, names, i, 0);
        assert(find_global(gs, names[i], 0) == i);
        assert(find_global(gs, snap[i].name@, 0) == i);
        let gs2 = gs.update(i, MutGlobal { name: gs[i].name, val: snap[i].val });
        assert(forall|j: int| 0 <= j < snap.len() ==> (#[trigger] gs2[j]).name@ == snap[j].name@);
        lemma_apply_globals_aligned(gs2, snap, i + 1);
    }
}

/// Like `lemma_find_global_aligned`, for memory views.
proof fn lemma_find_mem_aligned(
    ms: Seq<(Seq<char>, Seq<u8>)>,
    names: Seq<Seq<char>>,
    i: int,
    a: int,
)
    requires
        ms.len() == names.len(),
        forall|j: int| 0 <= j < ms.len() ==> (#[trigger] ms[j]).0 == names[j],
        forall|a0: int, b0: int|
            0 <= a0 < b0 < names.len() ==> (#[trigger] names[a0]) != (#[trigger] names[b0]),
        0 <= a <= i < ms.len(),
    ensures
        find_mem_view(ms, names[i], a) == i,
    decreases i - a,
{
    if a < i {
        assert(names[a] != names[i]);
        lemma_find_mem_aligned(ms, names, i, a + 1);
    }
}

/// Writing aligned, distinct-name, equal-extent memory images back succeeds
/// and leaves every memory holding exactly its image.
proof fn lemma_apply_memories_aligned(
    ms: Seq<(Seq<char>, Seq<u8>)>,
    snap: Seq<(Seq<char>, Seq<u8>)>,
    i: int,
)
    requires
        ms.len() == snap.len(),
        0 <= i <= snap.len(),
        forall|j: int| 0 <= j < snap.len() ==> (#[trigger] ms[j]).0 == snap[j].0,
        forall|j: int| 0 <= j < snap.len() ==> (#[trigger] ms[j]).1.len() == snap[j].1.len(),
        forall|a0: int, b0: int|
            0 <= a0 < b0 < snap.len() ==> (#[trigger] snap[a0].0) != (#[trigger] snap[b0].0),
    ensures
        match apply_memories(ms, snap, i) {
            Some(m) => {
                &&& m.len() == ms.len()
                &&& (forall|j: int| 0 <= j < m.len() ==> (#[trigger] m[j]).0 == ms[j].0)
                &&& (forall|j: int| i <= j < m.len() ==> (#[trigger] m[j]).1 == snap[j].1)
                &&& (forall|j: int| 0 <= j < i ==> (#[trigger] m[j]).1 == ms[j].1)
            },
            None => false,
        },
    decreases snap.len() - i,
{
    if i < snap.len() {
        let names = Seq::new(snap.len(), |j: int| snap[j].0);
        lemma_find_mem_aligned(ms, names, i, 0);
        assert(find_mem_view(ms, snap[i].0, 0) == i);
        assert(overwrite_prefix(ms[i].1, snap[i].1) =~= snap[i].1);
        let ms2 = ms.update(i, (ms[i].0, overwrite_prefix(ms[i].1, snap[i].1)));
        lemma_apply_memories_aligned(ms2, snap, i + 1);
    }
}

/// Law (snapshot round-trip, instance half): a snapshot captured from a
/// suspended instance, restored into a freshly instantiated twin — same
/// exported global names, same memory names and extents, all names distinct
/// — succeeds, and the twin ends up with exactly the captured values and
/// bytes: the state of the original at the suspension point.
pub proof fn lemma_capture_restore_roundtrip(
    source: InstanceState,
    snap: InstanceSnapshot,
    twin: InstanceState,
)
    requires
        // the snapshot holds what `capture` records of the source
        snap.globals@.len() == source.globals@.len(),
        forall|i: int|
            0 <= i < source.globals@.len() ==> (#[trigger] snap.globals@[i]).name@
                == source.globals@[i].name@ && snap.globals@[i].val == source.globals@[i].val,
        snap.memories@.len() == source.memories@.len(),
        forall|i: int|
            0 <= i < source.memories@.len() ==> (#[trigger] snap.memories@[i]).name@
                == source.memories@[i].name@ && snap.memories@[i].data@
                == source.memories@[i].data@,
        // the twin is a fresh instance of the same module: same export
        // names, same memory extents, distinct names
        twin.globals@.len() == source.globals@.len(),
        forall|i: int|
            0 <= i < source.globals@.len() ==> (#[trigger] twin.globals@[i]).name@
                == source.globals@[i].name@,
        twin.memories@.len() == source.memories@.len(),
        forall|i: int|
            0 <= i < source.memories@.len() ==> (#[trigger] twin.memories@[i]).name@
                == source.memories@[i].name@ && twin.memories@[i].data@.len()
                == source.memories@[i].data@.len(),
        forall|a0: int, b0: int|
            0 <= a0 < b0 < source.globals@.len() ==> (#[trigger] source.globals@[a0].name@) != (
            #[trigger] source.globals@[b0].name@),
        forall|a0: int, b0: int|
            0 <= a0 < b0 < source.memories@.len() ==> (#[trigger] source.memories@[a0].name@) != (
            #[trigger] source.memories@[b0].name@),
    ensures
        match apply_globals(twin.globals@, snap.globals@, 0) {
            Some(g) => g.len() == source.globals@.len() && (forall|j: int|
                0 <= j < g.len() ==> (#[trigger] g[j]).val == source.globals@[j].val),
            None => false,
        },
        match apply_memories(mem_views(twin.memories@), mem_views(snap.memories@), 0) {
            Some(m) => m.len() == source.memories@.len() && (forall|j: int|
                0 <= j < m.len() ==> (#[trigger] m[j]).1 == source.memories@[j].data@),
            None => false,
        },
{
    lemma_apply_globals_aligned(twin.globals@, snap.globals@, 0);
    let tv = mem_views(twin.memories@);
    let sv = mem_views(snap.memories@);
    assert(forall|j: int| 0 <= j < sv.len() ==> (#[trigger] tv[j]).0 == sv[j].0);
    assert(forall|j: int| 0 <= j < sv.len() ==> (#[trigger] tv[j]).1.len() == sv[j].1.len());
    assert(forall|a0: int, b0: int|
        0 <= a0 < b0 < sv.len() ==> (#[trigger] sv[a0].0) != (#[trigger] sv[b0].0));
    lemma_apply_memories_aligned(tv, sv, 0);
}

} // verus!
