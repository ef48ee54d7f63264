//! A slab-like arena of optional slots, used to hand out stable small-integer
//! handles to call-scoped context objects.
//!
//! Storage is a list of fixed-size blocks. Each block tracks its free space
//! with a linked list of chunk headers: the header at a chunk's first node
//! records where the chunk's free region starts (`next_none_offset`) and where
//! the next chunk begins (`next_chunk_offset`). The header at node 0 therefore
//! always knows the block's first free slot, which makes `push` O(1) in the
//! common case; `remove` splits or merges chunks to keep that property.

use vstd::prelude::*;

verus! {

/// Number of slots in one storage block.
pub const DEFAULT_CAPACITY: usize = 512;

/// Bookkeeping for one chunk of a storage block: the chunk's free region
/// starts at `next_none_offset`, and the next chunk starts at
/// `next_chunk_offset` (`DEFAULT_CAPACITY` when this chunk is the last).
#[derive(Clone, Copy, Debug, PartialEq, Eq, Structural)]
pub struct ChunkHead {
    /// First index of this chunk's free region.
    pub next_none_offset: usize,
    /// Index where the next chunk starts.
    pub next_chunk_offset: usize,
}

/// One slot of a storage block: the stored object, if any, and the chunk
/// header that is meaningful only when this slot starts a chunk.
#[derive(Debug)]
pub struct ObjectNode<T> {
    obj: Option<T>,
    header: ChunkHead,
}

impl<T: Clone> Clone for ObjectNode<T> {
    fn clone(&self) -> (r: Self) {
        ObjectNode { obj: self.obj.clone(), header: self.header }
    }
}

/// An arena of `Option` slots addressed by dense indices, with O(1) reuse of
/// freed slots.
#[derive(Debug)]
pub struct ObjectPool<T> {
    stores: Vec<Vec<ObjectNode<T>>>,
}

impl<T: Clone> Clone for ObjectPool<T> {
    fn clone(&self) -> (r: Self) {
        ObjectPool { stores: self.stores.clone() }
    }
}

/// The capacity of one block, as a spec-level integer.
pub open spec fn cap() -> int {
    DEFAULT_CAPACITY as int
}

/// The chunk starts of one block form a chain: `chain[0] == 0`, each header's
/// `next_chunk_offset` names the next start, and the last chunk ends at the
/// block capacity. Within a chunk starting at `c` with header `(n, k)`, slots
/// `[c, n)` are occupied and `[n, k)` are free; a full chunk (`n == k`) is
/// only allowed when it reaches the end of the block.
pub closed spec fn is_chunk_chain<T>(s: Seq<ObjectNode<T>>, chain: Seq<int>) -> bool {
    &&& s.len() == cap()
    &&& chain.len() >= 1
    &&& chain[0] == 0
    &&& (forall|i: int| 0 <= i < chain.len() ==> 0 <= #[trigger] chain[i] < cap())
    &&& (forall|i: int|
        #![trigger chain[i], chain[i + 1]]
        0 <= i < chain.len() - 1 ==> chain[i] < chain[i + 1] && chunk_body_ok(
            s,
            chain[i],
            chain[i + 1],
        ))
    &&& chunk_body_ok(s, chain[chain.len() - 1], cap())
}

/// The body condition for one chunk `[c, k)`: header bounds are consistent,
/// slots before the free mark hold objects, slots after it are empty, and a
/// full chunk only occurs at the end of the block.
pub closed spec fn chunk_body_ok<T>(s: Seq<ObjectNode<T>>, c: int, k: int) -> bool {
    let n = s[c].header.next_none_offset as int;
    &&& s[c].header.next_chunk_offset == k
    &&& c <= n <= k <= cap()
    &&& (n == k ==> k == cap())
    &&& (forall|j: int| c <= j < n ==> (#[trigger] s[j].obj) is Some)
    &&& (forall|j: int| n <= j < k ==> (#[trigger] s[j].obj) is None)
}

/// A block is well formed when some chunk chain describes it.
pub closed spec fn store_ok<T>(s: Seq<ObjectNode<T>>) -> bool {
    exists|chain: Seq<int>| is_chunk_chain(s, chain)
}

impl<T> View for ObjectPool<T> {
    type V = Seq<Option<T>>;

    /// The pool denotes the concatenation of its blocks' slots.
    closed spec fn view(&self) -> Seq<Option<T>> {
        Seq::new(
            self.stores@.len() * (DEFAULT_CAPACITY as nat),
            |i: int| self.stores@[i / cap()]@[i % cap()].obj,
        )
    }
}

impl<T> ObjectPool<T> {
    /// Every block is well formed.
    pub closed spec fn wf(&self) -> bool {
        forall|si: int|
            0 <= si < self.stores@.len() ==> store_ok(#[trigger] self.stores@[si]@)
    }

    /// Number of storage blocks currently allocated.
    pub closed spec fn spec_stores_len(&self) -> nat {
        self.stores@.len()
    }

    /// Number of nodes in one block (for contracts about raw block layout).
    pub closed spec fn spec_store_len(&self, si: int) -> nat {
        self.stores@[si]@.len()
    }

    /// The chunk header stored at one node (for contracts about raw block
    /// layout).
    pub closed spec fn spec_chunk_header(&self, si: int, ti: int) -> ChunkHead {
        self.stores@[si]@[ti].header
    }
}

/// Splitting a flat pool index into block and slot stays in range.
proof fn lemma_flat_index(len: int, i: int)
    requires
        0 <= i < len * cap(),
    ensures
        0 <= i / cap() < len,
        0 <= i % cap() < cap(),
        i == (i / cap()) * cap() + i % cap(),
{
    assert(0 <= i / 512 < len && 0 <= i % 512 < 512 && i == (i / 512) * 512 + i % 512)
        by (nonlinear_arith)
        requires
            0 <= i < len * 512,
    ;
}

/// Combining a block index and a slot index round-trips through the flat
/// index.
proof fn lemma_pair_index(si: int, ti: int)
    requires
        0 <= si,
        0 <= ti < cap(),
    ensures
        (si * cap() + ti) / cap() == si,
        (si * cap() + ti) % cap() == ti,
        si * cap() <= si * cap() + ti < (si + 1) * cap(),
        si * cap() + ti < (si + 1) * cap(),
{
    assert((si * 512 + ti) / 512 == si && (si * 512 + ti) % 512 == ti && si * 512 <= si * 512 + ti
        < (si + 1) * 512) by (nonlinear_arith)
        requires
            0 <= si,
            0 <= ti < 512,
    ;
}

/// Monotonicity of the block-to-flat-index base.
proof fn lemma_mul_le(a: int, b: int)
    requires
        0 <= a <= b,
    ensures
        a * cap() <= b * cap(),
{
    assert(a * 512 <= b * 512) by (nonlinear_arith)
        requires
            0 <= a <= b,
    ;
}

/// The head chunk of a well-formed block satisfies the body condition up to
/// its recorded end.
proof fn lemma_head_chunk<T>(s: Seq<ObjectNode<T>>, chain: Seq<int>)
    requires
        is_chunk_chain(s, chain),
    ensures
        chunk_body_ok(s, 0, s[0].header.next_chunk_offset as int),
        chain.len() > 1 ==> chain[1] == s[0].header.next_chunk_offset as int && (
        s[0].header.next_chunk_offset as int) < cap(),
        chain.len() == 1 ==> s[0].header.next_chunk_offset as int == cap(),
{
    if chain.len() == 1 {
        assert(chunk_body_ok(s, chain[0], cap()));
    } else {
        assert(chain[0] < chain[0int + 1] && chunk_body_ok(s, chain[0], chain[0int + 1]));
    }
}

/// Chunk starts increase along the chain.
proof fn lemma_chain_mono<T>(s: Seq<ObjectNode<T>>, chain: Seq<int>, a: int, b: int)
    requires
        is_chunk_chain(s, chain),
        0 <= a <= b < chain.len(),
    ensures
        chain[a] <= chain[b],
        a < b ==> chain[a] < chain[b],
    decreases b - a,
{
    if a < b {
        lemma_chain_mono(s, chain, a, b - 1);
        let i = b - 1;
        assert(chain[i] < chain[i + 1] && chunk_body_ok(s, chain[i], chain[i + 1]));
        assert(chain[i + 1] == chain[b]);
    }
}

/// A chunk that starts after the filled slot, and not at the block head, is
/// untouched by the fill.
proof fn lemma_body_nonhead<T>(
    s: Seq<ObjectNode<T>>,
    s2: Seq<ObjectNode<T>>,
    n0: int,
    c: int,
    k: int,
)
    requires
        chunk_body_ok(s, c, k),
        s.len() == cap(),
        s2.len() == cap(),
        forall|j: int| 0 <= j < cap() && j != n0 ==> (#[trigger] s2[j]).obj == s[j].obj,
        forall|j: int| 0 < j < cap() ==> (#[trigger] s2[j]).header == s[j].header,
        0 < c < cap(),
        n0 < c,
    ensures
        chunk_body_ok(s2, c, k),
{
    assert(s2[c].header == s[c].header);
    let n = s[c].header.next_none_offset as int;
    assert forall|j: int| c <= j < n implies (#[trigger] s2[j].obj) is Some by {
        assert(s[j].obj is Some);
    }
    assert forall|j: int| n <= j < k implies (#[trigger] s2[j].obj) is None by {
        assert(s[j].obj is None);
    }
}

/// Relation between a block and its copy with one slot cleared.
pub closed spec fn objs_cleared_at<T>(
    s: Seq<ObjectNode<T>>,
    s2: Seq<ObjectNode<T>>,
    t0: int,
) -> bool {
    &&& s.len() == cap()
    &&& s2.len() == cap()
    &&& (forall|j: int| 0 <= j < cap() && j != t0 ==> (#[trigger] s2[j]).obj == s[j].obj)
    &&& 0 <= t0 < cap()
    &&& s2[t0].obj is None
}

/// All chunk headers agree except possibly at two positions.
pub closed spec fn headers_same_except<T>(
    s: Seq<ObjectNode<T>>,
    s2: Seq<ObjectNode<T>>,
    a: int,
    b: int,
) -> bool {
    forall|j: int|
        0 <= j < cap() && j != a && j != b ==> (#[trigger] s2[j]).header == s[j].header
}

/// A chunk whose range avoids the cleared slot and whose header is unchanged
/// keeps its body condition.
proof fn lemma_body_frame<T>(
    s: Seq<ObjectNode<T>>,
    s2: Seq<ObjectNode<T>>,
    t0: int,
    c: int,
    k: int,
)
    requires
        chunk_body_ok(s, c, k),
        s.len() == cap(),
        s2.len() == cap(),
        forall|j: int| 0 <= j < cap() && j != t0 ==> (#[trigger] s2[j]).obj == s[j].obj,
        0 <= c < cap(),
        s2[c].header == s[c].header,
        !(c <= t0 < k),
    ensures
        chunk_body_ok(s2, c, k),
{
    let n = s[c].header.next_none_offset as int;
    assert forall|j: int| c <= j < n implies (#[trigger] s2[j].obj) is Some by {
        assert(s[j].obj is Some);
    }
    assert forall|j: int| n <= j < k implies (#[trigger] s2[j].obj) is None by {
        assert(s[j].obj is None);
    }
}

/// The chunk ends of a well-formed block: position `gi` of the chain starts
/// at `c` and ends at `k`.
pub closed spec fn chunk_at<T>(s: Seq<ObjectNode<T>>, chain: Seq<int>, gi: int, c: int, k: int) -> bool {
    &&& 0 <= gi < chain.len()
    &&& chain[gi] == c
    &&& k == if gi == chain.len() - 1 {
        cap()
    } else {
        chain[gi + 1]
    }
}

/// The end of the chunk at chain position `gi`.
pub closed spec fn chunk_at_end(chain: Seq<int>, gi: int) -> int {
    if gi == chain.len() - 1 {
        cap()
    } else {
        chain[gi + 1]
    }
}

/// The body condition of the chunk at chain position `gi`.
proof fn lemma_body_at<T>(s: Seq<ObjectNode<T>>, chain: Seq<int>, gi: int, c: int, k: int)
    requires
        is_chunk_chain(s, chain),
        chunk_at(s, chain, gi, c, k),
    ensures
        chunk_body_ok(s, c, k),
        c < k,
{
    if gi == chain.len() - 1 {
        assert(chunk_body_ok(s, chain[chain.len() - 1], cap()));
    } else {
        assert(chain[gi] < chain[gi + 1] && chunk_body_ok(s, chain[gi], chain[gi + 1]));
    }
}

/// Chunks other than the one at `gi` neither start at a position strictly
/// inside that chunk nor contain the cleared slot.
proof fn lemma_other_chunk<T>(
    s: Seq<ObjectNode<T>>,
    chain: Seq<int>,
    gi: int,
    c: int,
    k: int,
    i: int,
    t0: int,
)
    requires
        is_chunk_chain(s, chain),
        chunk_at(s, chain, gi, c, k),
        c <= t0 < k,
        0 <= i < chain.len(),
        i != gi,
    ensures
        !(chain[i] <= t0 < (if i == chain.len() - 1 {
            cap()
        } else {
            chain[i + 1]
        })),
        !(c < chain[i] < k),
        chain[i] != t0,
        chunk_body_ok(
            s,
            chain[i],
            if i == chain.len() - 1 {
                cap()
            } else {
                chain[i + 1]
            },
        ),
{
    lemma_body_at(
        s,
        chain,
        i,
        chain[i],
        if i == chain.len() - 1 {
            cap()
        } else {
            chain[i + 1]
        },
    );
    if i < gi {
        lemma_chain_mono(s, chain, i + 1, gi);
        assert(chain[i] < chain[i + 1] && chunk_body_ok(s, chain[i], chain[i + 1]));
    } else {
        lemma_chain_mono(s, chain, gi + 1, i);
        assert(chain[gi] < chain[gi + 1] && chunk_body_ok(s, chain[gi], chain[gi + 1]));
        if i < chain.len() - 1 {
            lemma_chain_mono(s, chain, i, i + 1);
        }
    }
}

/// Clearing the last occupied slot of a chunk, where the chunk keeps other
/// occupants or is the block head: the free mark moves back by one and the
/// chain is unchanged.
#[verifier::spinoff_prover]
#[verifier::rlimit(30)]
proof fn lemma_remove_tail<T>(
    s: Seq<ObjectNode<T>>,
    s2: Seq<ObjectNode<T>>,
    chain: Seq<int>,
    gi: int,
    c: int,
    k: int,
    t0: int,
)
    requires
        is_chunk_chain(s, chain),
        chunk_at(s, chain, gi, c, k),
        objs_cleared_at(s, s2, t0),
        t0 == s[c].header.next_none_offset - 1,
        c <= t0,
        c == 0 || c < t0,
        headers_same_except(s, s2, c, c),
        s2[c].header.next_none_offset as int == t0,
        s2[c].header.next_chunk_offset as int == k,
    ensures
        store_ok(s2),
{
    lemma_body_at(s, chain, gi, c, k);
    assert(chunk_body_ok(s2, c, k)) by {
        assert forall|j: int| c <= j < t0 implies (#[trigger] s2[j].obj) is Some by {
            assert(s[j].obj is Some);
        }
        assert forall|j: int| t0 <= j < k implies (#[trigger] s2[j].obj) is None by {
            if j != t0 {
                assert(s[j].obj is None);
            }
        }
    }
    assert forall|i: int|
        #![trigger chain[i], chain[i + 1]]
        0 <= i < chain.len() - 1 implies chain[i] < chain[i + 1] && chunk_body_ok(
        s2,
        chain[i],
        chain[i + 1],
    ) by {
        assert(chain[i] < chain[i + 1] && chunk_body_ok(s, chain[i], chain[i + 1]));
        if i != gi {
            lemma_other_chunk(s, chain, gi, c, k, i, t0);
            lemma_body_frame(s, s2, t0, chain[i], chain[i + 1]);
        }
    }
    assert(chunk_body_ok(s2, chain[chain.len() - 1], cap())) by {
        if chain.len() - 1 != gi {
            lemma_other_chunk(s, chain, gi, c, k, chain.len() - 1, t0);
            lemma_body_frame(s, s2, t0, chain[chain.len() - 1], cap());
        }
    }
    assert(is_chunk_chain(s2, chain));
}

/// Clearing the only occupied slot of a non-head chunk: the previous chunk
/// absorbs it and the chunk leaves the chain.
#[verifier::spinoff_prover]
#[verifier::rlimit(30)]
proof fn lemma_remove_empty_chunk<T>(
    s: Seq<ObjectNode<T>>,
    s2: Seq<ObjectNode<T>>,
    chain: Seq<int>,
    gi: int,
    c: int,
    k: int,
    t0: int,
    p: int,
)
    requires
        is_chunk_chain(s, chain),
        chunk_at(s, chain, gi, c, k),
        objs_cleared_at(s, s2, t0),
        t0 == s[c].header.next_none_offset - 1,
        t0 == c,
        0 < gi,
        p == chain[gi - 1],
        headers_same_except(s, s2, p, c),
        s2[p].header.next_none_offset == s[p].header.next_none_offset,
        s2[p].header.next_chunk_offset as int == k,
    ensures
        store_ok(s2),
{
    lemma_body_at(s, chain, gi, c, k);
    lemma_body_at(s, chain, gi - 1, p, c);
    let np = s[p].header.next_none_offset as int;
    // the widened previous chunk
    assert(chunk_body_ok(s2, p, k)) by {
        assert forall|j: int| p <= j < np implies (#[trigger] s2[j].obj) is Some by {
            assert(s[j].obj is Some);
        }
        assert forall|j: int| np <= j < k implies (#[trigger] s2[j].obj) is None by {
            if j != t0 {
                assert(s[j].obj is None);
            }
        }
    }
    let chain2 = Seq::new(
        (chain.len() - 1) as nat,
        |i: int|
            if i < gi {
                chain[i]
            } else {
                chain[i + 1]
            },
    );
    assert(chain2[0] == 0) by {
        lemma_chain_mono(s, chain, 0, gi);
    }
    assert forall|i: int| 0 <= i < chain2.len() implies 0 <= #[trigger] chain2[i] < cap() by {
        if i < gi {
            assert(0 <= chain[i] < cap());
        } else {
            assert(0 <= chain[i + 1] < cap());
        }
    }
    assert forall|i: int|
        #![trigger chain2[i], chain2[i + 1]]
        0 <= i < chain2.len() - 1 implies chain2[i] < chain2[i + 1] && chunk_body_ok(
        s2,
        chain2[i],
        chain2[i + 1],
    ) by {
        if i < gi - 1 {
            assert(chain2[i] == chain[i] && chain2[i + 1] == chain[i + 1]);
            assert(chain[i] < chain[i + 1] && chunk_body_ok(s, chain[i], chain[i + 1]));
            lemma_other_chunk(s, chain, gi, c, k, i, t0);
            lemma_chain_mono(s, chain, i, gi - 1);
            assert(chain[i] != p && chain[i] != c);
            lemma_body_frame(s, s2, t0, chain[i], chain[i + 1]);
        } else if i == gi - 1 {
            assert(chain2[i] == p && chain2[i + 1] == chain[gi + 1]);
            assert(chain[gi] < chain[gi + 1] && chunk_body_ok(s, chain[gi], chain[gi + 1]));
            assert(k == chain[gi + 1]);
            assert(chain2[i] < chain2[i + 1]);
            assert(chunk_body_ok(s2, p, k));
        } else {
            assert(chain2[i] == chain[i + 1] && chain2[i + 1] == chain[i + 2]);
            assert(chain[i + 1] < chain[i + 1 + 1] && chunk_body_ok(s, chain[i + 1], chain[i + 1
                + 1]));
            lemma_other_chunk(s, chain, gi, c, k, i + 1, t0);
            lemma_chain_mono(s, chain, gi, i + 1);
            lemma_chain_mono(s, chain, gi - 1, gi);
            lemma_body_frame(s, s2, t0, chain[i + 1], chain[i + 2]);
        }
    }
    assert(chunk_body_ok(s2, chain2[chain2.len() - 1], cap())) by {
        if gi == chain.len() - 1 {
            assert(chain2[chain2.len() - 1] == p);
            assert(k == cap());
            assert(chunk_body_ok(s2, p, k));
        } else {
            assert(chain2[chain2.len() - 1] == chain[chain.len() - 1]);
            lemma_other_chunk(s, chain, gi, c, k, chain.len() - 1, t0);
            lemma_chain_mono(s, chain, gi - 1, gi);
            lemma_chain_mono(s, chain, gi, chain.len() - 1);
            lemma_body_frame(s, s2, t0, chain[chain.len() - 1], cap());
        }
    }
    assert(is_chunk_chain(s2, chain2));
}

/// Clearing the first slot of the block when its head chunk holds later
/// occupants: the head chunk splits at slot one.
#[verifier::spinoff_prover]
#[verifier::rlimit(30)]
proof fn lemma_remove_head_split<T>(
    s: Seq<ObjectNode<T>>,
    s2: Seq<ObjectNode<T>>,
    chain: Seq<int>,
    k: int,
    t0: int,
)
    requires
        is_chunk_chain(s, chain),
        chunk_at(s, chain, 0, 0, k),
        objs_cleared_at(s, s2, t0),
        t0 == 0,
        s[0].header.next_none_offset > 1,
        headers_same_except(s, s2, 0, 1),
        s2[0].header.next_none_offset == 0,
        s2[0].header.next_chunk_offset == 1,
        s2[1].header == s[0].header,
    ensures
        store_ok(s2),
{
    lemma_body_at(s, chain, 0, 0, k);
    let n = s[0].header.next_none_offset as int;
    assert(1 < n <= k);
    let chain2 = Seq::new(
        (chain.len() + 1) as nat,
        |i: int|
            if i == 0 {
                0int
            } else if i == 1 {
                1int
            } else {
                chain[i - 1]
            },
    );
    assert(chunk_body_ok(s2, 0, 1));
    assert(chunk_body_ok(s2, 1, k)) by {
        assert forall|j: int| 1 <= j < n implies (#[trigger] s2[j].obj) is Some by {
            assert(s[j].obj is Some);
        }
        assert forall|j: int| n <= j < k implies (#[trigger] s2[j].obj) is None by {
            assert(s[j].obj is None);
        }
    }
    assert forall|i: int| 0 <= i < chain2.len() implies 0 <= #[trigger] chain2[i] < cap() by {
        if i >= 2 {
            assert(0 <= chain[i - 1] < cap());
        }
    }
    assert forall|i: int|
        #![trigger chain2[i], chain2[i + 1]]
        0 <= i < chain2.len() - 1 implies chain2[i] < chain2[i + 1] && chunk_body_ok(
        s2,
        chain2[i],
        chain2[i + 1],
    ) by {
        if i == 0 {
            assert(chain2[1] == 1);
            assert(chunk_body_ok(s2, 0, 1));
        } else if i == 1 {
            assert(chain2[2] == chain[1]);
            assert(chain[0] < chain[0int + 1] && chunk_body_ok(s, chain[0], chain[0int + 1]));
            assert(chain2[2] == k);
            assert(chunk_body_ok(s2, 1, k));
        } else {
            assert(chain2[i] == chain[i - 1] && chain2[i + 1] == chain[i]);
            let a = i - 1;
            assert(chain[a] < chain[a + 1] && chunk_body_ok(s, chain[a], chain[a + 1]));
            lemma_other_chunk(s, chain, 0, 0, k, a, t0);
            assert(chain[a] >= k > 1) by {
                lemma_chain_mono(s, chain, 1, a);
            }
            lemma_body_frame(s, s2, t0, chain[a], chain[a + 1]);
        }
    }
    assert(chunk_body_ok(s2, chain2[chain2.len() - 1], cap())) by {
        if chain.len() == 1 {
            assert(chain2[chain2.len() - 1] == 1);
            assert(k == cap());
            assert(chunk_body_ok(s2, 1, k));
        } else {
            assert(chain2[chain2.len() - 1] == chain[chain.len() - 1]);
            lemma_other_chunk(s, chain, 0, 0, k, chain.len() - 1, t0);
            assert(chain[chain.len() - 1] >= k > 1) by {
                lemma_chain_mono(s, chain, 1, chain.len() - 1);
            }
            lemma_body_frame(s, s2, t0, chain[chain.len() - 1], cap());
        }
    }
    assert(is_chunk_chain(s2, chain2));
}

/// Clearing the first slot of a non-head chunk that holds later occupants:
/// the chunk start moves up by one and the previous chunk absorbs the slot.
#[verifier::spinoff_prover]
#[verifier::rlimit(30)]
proof fn lemma_remove_shift<T>(
    s: Seq<ObjectNode<T>>,
    s2: Seq<ObjectNode<T>>,
    chain: Seq<int>,
    gi: int,
    c: int,
    k: int,
    t0: int,
    p: int,
)
    requires
        is_chunk_chain(s, chain),
        chunk_at(s, chain, gi, c, k),
        objs_cleared_at(s, s2, t0),
        t0 == c,
        t0 < s[c].header.next_none_offset - 1,
        0 < gi,
        p == chain[gi - 1],
        headers_same_except(s, s2, p, c + 1),
        s2[p].header.next_none_offset == s[p].header.next_none_offset,
        s2[p].header.next_chunk_offset as int == c + 1,
        s2[c + 1].header == s[c].header,
    ensures
        store_ok(s2),
{
    lemma_body_at(s, chain, gi, c, k);
    lemma_body_at(s, chain, gi - 1, p, c);
    let n = s[c].header.next_none_offset as int;
    let np = s[p].header.next_none_offset as int;
    assert(c + 1 < n <= k);
    // the widened previous chunk
    assert(chunk_body_ok(s2, p, c + 1)) by {
        assert forall|j: int| p <= j < np implies (#[trigger] s2[j].obj) is Some by {
            assert(s[j].obj is Some);
        }
        assert forall|j: int| np <= j < c + 1 implies (#[trigger] s2[j].obj) is None by {
            if j != t0 {
                assert(s[j].obj is None);
            }
        }
    }
    // the shrunk chunk
    assert(chunk_body_ok(s2, c + 1, k)) by {
        assert forall|j: int| c + 1 <= j < n implies (#[trigger] s2[j].obj) is Some by {
            assert(s[j].obj is Some);
        }
        assert forall|j: int| n <= j < k implies (#[trigger] s2[j].obj) is None by {
            assert(s[j].obj is None);
        }
    }
    let chain2 = Seq::new(
        chain.len(),
        |i: int|
            if i == gi {
                c + 1
            } else {
                chain[i]
            },
    );
    assert(chain2[0] == 0);
    assert forall|i: int| 0 <= i < chain2.len() implies 0 <= #[trigger] chain2[i] < cap() by {
        if i != gi {
            assert(0 <= chain[i] < cap());
        }
    }
    assert forall|i: int|
        #![trigger chain2[i], chain2[i + 1]]
        0 <= i < chain2.len() - 1 implies chain2[i] < chain2[i + 1] && chunk_body_ok(
        s2,
        chain2[i],
        chain2[i + 1],
    ) by {
        assert(chain[i] < chain[i + 1] && chunk_body_ok(s, chain[i], chain[i + 1]));
        if i == gi - 1 {
            assert(chain2[i] == p && chain2[i + 1] == c + 1);
            assert(chunk_body_ok(s2, p, c + 1));
        } else if i == gi {
            assert(chain2[i] == c + 1 && chain2[i + 1] == chain[gi + 1]);
            assert(k == chain[gi + 1]);
            assert(chunk_body_ok(s2, c + 1, k));
        } else {
            lemma_other_chunk(s, chain, gi, c, k, i, t0);
            if i < gi - 1 {
                lemma_chain_mono(s, chain, i, gi - 1);
            } else {
                lemma_chain_mono(s, chain, gi + 1, i);
            }
            assert(chain[i] != p && chain[i] != c + 1);
            lemma_body_frame(s, s2, t0, chain[i], chain[i + 1]);
        }
    }
    assert(chunk_body_ok(s2, chain2[chain2.len() - 1], cap())) by {
        if gi == chain.len() - 1 {
            assert(chain2[chain2.len() - 1] == c + 1);
            assert(k == cap());
            assert(chunk_body_ok(s2, c + 1, k));
        } else {
            assert(chain2[chain2.len() - 1] == chain[chain.len() - 1]);
            lemma_other_chunk(s, chain, gi, c, k, chain.len() - 1, t0);
            lemma_chain_mono(s, chain, gi - 1, chain.len() - 1);
            lemma_body_frame(s, s2, t0, chain[chain.len() - 1], cap());
        }
    }
    assert(is_chunk_chain(s2, chain2));
}

/// Clearing a slot strictly inside a chunk's occupied region: the chunk
/// splits in two at the cleared slot.
#[verifier::spinoff_prover]
#[verifier::rlimit(30)]
proof fn lemma_remove_split<T>(
    s: Seq<ObjectNode<T>>,
    s2: Seq<ObjectNode<T>>,
    chain: Seq<int>,
    gi: int,
    c: int,
    k: int,
    t0: int,
)
    requires
        is_chunk_chain(s, chain),
        chunk_at(s, chain, gi, c, k),
        objs_cleared_at(s, s2, t0),
        c < t0,
        t0 < s[c].header.next_none_offset - 1,
        headers_same_except(s, s2, c, t0 + 1),
        s2[c].header.next_none_offset as int == t0,
        s2[c].header.next_chunk_offset as int == t0 + 1,
        s2[t0 + 1].header == s[c].header,
    ensures
        store_ok(s2),
{
    lemma_body_at(s, chain, gi, c, k);
    let n = s[c].header.next_none_offset as int;
    assert(t0 + 1 < n <= k);
    assert(chunk_body_ok(s2, c, t0 + 1)) by {
        assert forall|j: int| c <= j < t0 implies (#[trigger] s2[j].obj) is Some by {
            assert(s[j].obj is Some);
        }
    }
    assert(chunk_body_ok(s2, t0 + 1, k)) by {
        assert forall|j: int| t0 + 1 <= j < n implies (#[trigger] s2[j].obj) is Some by {
            assert(s[j].obj is Some);
        }
        assert forall|j: int| n <= j < k implies (#[trigger] s2[j].obj) is None by {
            assert(s[j].obj is None);
        }
    }
    let chain2 = Seq::new(
        (chain.len() + 1) as nat,
        |i: int|
            if i <= gi {
                chain[i]
            } else if i == gi + 1 {
                t0 + 1
            } else {
                chain[i - 1]
            },
    );
    assert(chain2[0] == 0) by {
        lemma_chain_mono(s, chain, 0, gi);
    }
    assert forall|i: int| 0 <= i < chain2.len() implies 0 <= #[trigger] chain2[i] < cap() by {
        if i <= gi {
            assert(0 <= chain[i] < cap());
        } else if i > gi + 1 {
            assert(0 <= chain[i - 1] < cap());
        }
    }
    assert forall|i: int|
        #![trigger chain2[i], chain2[i + 1]]
        0 <= i < chain2.len() - 1 implies chain2[i] < chain2[i + 1] && chunk_body_ok(
        s2,
        chain2[i],
        chain2[i + 1],
    ) by {
        if i < gi {
            assert(chain2[i] == chain[i] && chain2[i + 1] == chain[i + 1]);
            assert(chain[i] < chain[i + 1] && chunk_body_ok(s, chain[i], chain[i + 1]));
            lemma_other_chunk(s, chain, gi, c, k, i, t0);
            if chain[i] == t0 + 1 {
                lemma_chain_mono(s, chain, i, gi);
            }
            lemma_body_frame(s, s2, t0, chain[i], chain[i + 1]);
        } else if i == gi {
            assert(chain2[i] == c && chain2[i + 1] == t0 + 1);
            assert(chunk_body_ok(s2, c, t0 + 1));
        } else if i == gi + 1 {
            assert(chain2[i] == t0 + 1 && chain2[i + 1] == chain[gi + 1]);
            assert(k == chain[gi + 1]);
            assert(chunk_body_ok(s2, t0 + 1, k));
        } else {
            assert(chain2[i] == chain[i - 1] && chain2[i + 1] == chain[i]);
            let a = i - 1;
            assert(chain[a] < chain[a + 1] && chunk_body_ok(s, chain[a], chain[a + 1]));
            lemma_other_chunk(s, chain, gi, c, k, a, t0);
            assert(chain[a] != t0 + 1);
            lemma_body_frame(s, s2, t0, chain[a], chain[a + 1]);
        }
    }
    assert(chunk_body_ok(s2, chain2[chain2.len() - 1], cap())) by {
        if gi == chain.len() - 1 {
            assert(chain2[chain2.len() - 1] == t0 + 1);
            assert(k == cap());
            assert(chunk_body_ok(s2, t0 + 1, k));
        } else {
            assert(chain2[chain2.len() - 1] == chain[chain.len() - 1]);
            lemma_other_chunk(s, chain, gi, c, k, chain.len() - 1, t0);
            assert(chain[chain.len() - 1] != t0 + 1);
            lemma_body_frame(s, s2, t0, chain[chain.len() - 1], cap());
        }
    }
    assert(is_chunk_chain(s2, chain2));
}

/// Filling the head chunk's free mark without merging keeps the block well
/// formed: the same chain still describes it.
#[verifier::spinoff_prover]
#[verifier::rlimit(30)]
proof fn lemma_place_unmerged<T>(s: Seq<ObjectNode<T>>, s2: Seq<ObjectNode<T>>, n0: int, k0: int)
    requires
        store_ok(s),
        s2.len() == s.len(),
        0 <= n0 < cap(),
        n0 == s[0].header.next_none_offset as int,
        k0 == s[0].header.next_chunk_offset as int,
        forall|j: int| 0 <= j < cap() && j != n0 ==> (#[trigger] s2[j]).obj == s[j].obj,
        s2[n0].obj is Some,
        forall|j: int| 0 < j < cap() ==> (#[trigger] s2[j]).header == s[j].header,
        !(n0 + 1 == k0 && k0 < cap()),
        s2[0].header.next_none_offset as int == n0 + 1,
        s2[0].header.next_chunk_offset as int == k0,
    ensures
        store_ok(s2),
{
    let chain = choose|chain: Seq<int>| is_chunk_chain(s, chain);
    assert(is_chunk_chain(s, chain));
    lemma_head_chunk(s, chain);
    assert(n0 < k0);
    // the head chunk with its free mark advanced
    assert(chunk_body_ok(s2, 0, k0)) by {
        assert forall|j: int| 0 <= j < n0 + 1 implies (#[trigger] s2[j].obj) is Some by {
            if j < n0 {
                assert(s[j].obj is Some);
            }
        }
        assert forall|j: int| n0 + 1 <= j < k0 implies (#[trigger] s2[j].obj) is None by {
            assert(s[j].obj is None);
        }
    }
    // chunks after the head are untouched
    assert forall|i: int|
        #![trigger chain[i], chain[i + 1]]
        0 <= i < chain.len() - 1 implies chain[i] < chain[i + 1] && chunk_body_ok(
        s2,
        chain[i],
        chain[i + 1],
    ) by {
        assert(chain[i] < chain[i + 1] && chunk_body_ok(s, chain[i], chain[i + 1]));
        if i == 0 {
            assert(chain[1] == k0);
        } else {
            lemma_chain_mono(s, chain, 1, i);
            assert(chain[1] == k0);
            lemma_body_nonhead(s, s2, n0, chain[i], chain[i + 1]);
        }
    }
    assert(chunk_body_ok(s2, chain[chain.len() - 1], cap())) by {
        assert(chunk_body_ok(s, chain[chain.len() - 1], cap()));
        if chain.len() > 1 {
            lemma_chain_mono(s, chain, 1, chain.len() - 1);
            assert(chain[1] == k0);
            lemma_body_nonhead(s, s2, n0, chain[chain.len() - 1], cap());
        }
    }
    assert(is_chunk_chain(s2, chain));
}

/// Filling the last free slot of the head chunk merges it with the next
/// chunk: dropping the second chunk start from the chain describes the block.
#[verifier::spinoff_prover]
#[verifier::rlimit(30)]
proof fn lemma_place_merged<T>(s: Seq<ObjectNode<T>>, s2: Seq<ObjectNode<T>>, n0: int, k0: int)
    requires
        store_ok(s),
        s2.len() == s.len(),
        0 <= n0 < cap(),
        n0 == s[0].header.next_none_offset as int,
        k0 == s[0].header.next_chunk_offset as int,
        forall|j: int| 0 <= j < cap() && j != n0 ==> (#[trigger] s2[j]).obj == s[j].obj,
        s2[n0].obj is Some,
        forall|j: int| 0 < j < cap() ==> (#[trigger] s2[j]).header == s[j].header,
        n0 + 1 == k0 && k0 < cap(),
        s2[0].header == s[k0].header,
    ensures
        store_ok(s2),
{
    let chain = choose|chain: Seq<int>| is_chunk_chain(s, chain);
    assert(is_chunk_chain(s, chain));
    lemma_head_chunk(s, chain);
    assert(chain.len() >= 2);
    assert(chain[1] == k0);
    let kk = if chain.len() == 2 {
        cap()
    } else {
        chain[2]
    };
    assert(chunk_body_ok(s, k0, kk)) by {
        if chain.len() == 2 {
            assert(chunk_body_ok(s, chain[chain.len() - 1], cap()));
        } else {
            assert(chain[1] < chain[1int + 1] && chunk_body_ok(s, chain[1], chain[1int + 1]));
        }
    }
    // the merged head chunk spans both old chunks
    assert(chunk_body_ok(s2, 0, kk)) by {
        let nn = s[k0].header.next_none_offset as int;
        assert(s2[0].header.next_none_offset == nn);
        assert(s2[0].header.next_chunk_offset == kk);
        assert forall|j: int| 0 <= j < nn implies (#[trigger] s2[j].obj) is Some by {
            if j < n0 {
                assert(s[j].obj is Some);
            } else if j > n0 {
                assert(j >= k0);
                assert(s[j].obj is Some);
            }
        }
        assert forall|j: int| nn <= j < kk implies (#[trigger] s2[j].obj) is None by {
            assert(s[j].obj is None);
        }
    }
    let chain2 = Seq::new(
        (chain.len() - 1) as nat,
        |i: int|
            if i == 0 {
                0int
            } else {
                chain[i + 1]
            },
    );
    assert(chain2[0] == 0);
    assert forall|i: int| 0 <= i < chain2.len() implies 0 <= #[trigger] chain2[i] < cap() by {
        if i > 0 {
            assert(0 <= chain[i + 1] < cap());
        }
    }
    assert forall|i: int|
        #![trigger chain2[i], chain2[i + 1]]
        0 <= i < chain2.len() - 1 implies chain2[i] < chain2[i + 1] && chunk_body_ok(
        s2,
        chain2[i],
        chain2[i + 1],
    ) by {
        if i == 0 {
            assert(chain2[1] == chain[2]);
            assert(kk == chain[2]);
            lemma_chain_mono(s, chain, 0, 2);
            assert(chunk_body_ok(s2, 0, kk));
        } else {
            assert(chain2[i] == chain[i + 1]);
            assert(chain2[i + 1] == chain[i + 2]);
            assert(chain[i + 1] < chain[i + 1 + 1] && chunk_body_ok(s, chain[i + 1], chain[i + 1
                + 1]));
            lemma_chain_mono(s, chain, 1, i + 1);
            lemma_body_nonhead(s, s2, n0, chain[i + 1], chain[i + 2]);
        }
    }
    assert(chunk_body_ok(s2, chain2[chain2.len() - 1], cap())) by {
        if chain2.len() == 1 {
            assert(chain.len() == 2);
            assert(chain2[0] == 0);
            assert(kk == cap());
            assert(chunk_body_ok(s2, 0, kk));
        } else {
            assert(chain2[chain2.len() - 1] == chain[chain.len() - 1]);
            assert(chunk_body_ok(s, chain[chain.len() - 1], cap()));
            lemma_chain_mono(s, chain, 1, chain.len() - 1);
            lemma_body_nonhead(s, s2, n0, chain[chain.len() - 1], cap());
        }
    }
    assert(is_chunk_chain(s2, chain2));
}

/// A flat index whose block number is past the end lies past the pool view.
proof fn lemma_div_ge(i: int, len: int)
    requires
        0 <= i,
        0 <= len,
        i / cap() >= len,
    ensures
        i >= len * cap(),
{
    assert(i / 512 >= len ==> i >= len * 512) by (nonlinear_arith)
        requires
            0 <= i,
            0 <= len,
    ;
}

impl<T> ObjectPool<T> {
    /// Two pools that differ in one slot's object denote views that differ by
    /// one update.
    #[verifier::spinoff_prover]
    proof fn lemma_view_update(a: Self, b: Self, si: int, ti: int, v: Option<T>)
        requires
            a.stores@.len() == b.stores@.len(),
            0 <= si < a.stores@.len(),
            0 <= ti < cap(),
            a.stores@[si]@.len() == cap(),
            b.stores@[si]@.len() == cap(),
            forall|q: int|
                0 <= q < a.stores@.len() && q != si ==> #[trigger] b.stores@[q] == a.stores@[q],
            forall|p: int|
                0 <= p < cap() && p != ti ==> (#[trigger] b.stores@[si]@[p]).obj
                    == a.stores@[si]@[p].obj,
            b.stores@[si]@[ti].obj == v,
        ensures
            b@ == a@.update(si * cap() + ti, v),
    {
        lemma_pair_index(si, ti);
        let idx = si * cap() + ti;
        lemma_mul_le(si + 1, a.stores@.len() as int);
        let rhs = a@.update(idx, v);
        assert(b@.len() == rhs.len());
        assert forall|i: int| 0 <= i < b@.len() implies b@[i] == rhs[i] by {
            lemma_flat_index(b.stores@.len() as int, i);
            let q = i / cap();
            let p = i % cap();
            if q == si {
                if p != ti {
                    assert(i != idx);
                    assert(b.stores@[q]@[p].obj == a.stores@[q]@[p].obj);
                }
            } else {
                assert(b.stores@[q] == a.stores@[q]);
                assert(i != idx);
            }
        }
        assert(b@ =~= rhs);
    }
}

impl<T> ObjectPool<T> {
    /// Read one node's chunk header. Returns `None` when either index is out
    /// of range.
    pub fn chunk_header(&self, store_index: usize, node_index: usize) -> (r: Option<ChunkHead>)
        ensures
            match r {
                Some(h) => (store_index as int) < self.spec_stores_len() && (node_index as int)
                    < self.spec_store_len(store_index as int) && h == self.spec_chunk_header(
                    store_index as int,
                    node_index as int,
                ),
                None => (store_index as int) >= self.spec_stores_len() || (node_index as int)
                    >= self.spec_store_len(store_index as int),
            },
    {
        if store_index < self.stores.len() {
            let store = &self.stores[store_index];
            if node_index < store.len() {
                return Some(store[node_index].header);
            }
        }
        None
    }

    /// Number of storage blocks currently allocated.
    pub fn stores_len(&self) -> (r: usize)
        ensures
            r == self.spec_stores_len(),
    {
        self.stores.len()
    }

    /// Write one node's chunk header, leaving everything else in place.
    fn set_header(&mut self, si: usize, ti: usize, h: ChunkHead)
        requires
            (si as int) < old(self).stores@.len(),
            (ti as int) < old(self).stores@[si as int]@.len(),
            old(self).stores@[si as int]@.len() == cap(),
        ensures
            final(self).stores@.len() == old(self).stores@.len(),
            forall|q: int|
                0 <= q < old(self).stores@.len() && q != si ==> final(self).stores@[q] == old(self).stores@[q],
            final(self).stores@[si as int]@.len() == old(self).stores@[si as int]@.len(),
            forall|p: int|
                0 <= p < old(self).stores@[si as int]@.len() && p != ti ==> final(self).stores@[si as int]@[p] == old(self).stores@[si as int]@[p],
            final(self).stores@[si as int]@[ti as int].header == h,
            final(self).stores@[si as int]@[ti as int].obj == old(self).stores@[si as int]@[ti as int].obj,
            final(self)@ == old(self)@,
    {
        self.stores[si][ti].header = h;
        proof {
            assert(self.stores@.len() == old(self).stores@.len());
            assert(forall|q: int|
                0 <= q < old(self).stores@.len() && q != si ==> self.stores@[q] == old(self).stores@[q]);
            assert(self.stores@[si as int]@.len() == old(self).stores@[si as int]@.len());
            assert(forall|p: int|
                0 <= p < old(self).stores@[si as int]@.len() && p != ti
                    ==> self.stores@[si as int]@[p] == old(self).stores@[si as int]@[p]);
            assert(self.stores@[si as int]@[ti as int].obj == old(self).stores@[si as int]@[ti as int].obj);
            assert(self@.len() == old(self)@.len());
            assert forall|i: int| 0 <= i < old(self)@.len() implies self@[i] == old(self)@[i] by {
                lemma_flat_index(old(self).stores@.len() as int, i);
                let q = i / cap();
                let p = i % cap();
                if q == si {
                    assert(self.stores@[q]@[p].obj == old(self).stores@[q]@[p].obj);
                }
            }
            assert(self@ =~= old(self)@);
        }
    }

    /// Swap one node's object for a replacement, returning the old object.
    fn swap_obj(&mut self, si: usize, ti: usize, v: Option<T>) -> (r: Option<T>)
        requires
            (si as int) < old(self).stores@.len(),
            (ti as int) < old(self).stores@[si as int]@.len(),
        ensures
            final(self).stores@.len() == old(self).stores@.len(),
            forall|q: int|
                0 <= q < old(self).stores@.len() && q != si ==> final(self).stores@[q] == old(self).stores@[q],
            final(self).stores@[si as int]@.len() == old(self).stores@[si as int]@.len(),
            forall|p: int|
                0 <= p < old(self).stores@[si as int]@.len() && p != ti ==> final(self).stores@[si as int]@[p] == old(self).stores@[si as int]@[p],
            final(self).stores@[si as int]@[ti as int].header == old(self).stores@[si as int]@[ti as int].header,
            final(self).stores@[si as int]@[ti as int].obj == v,
            r == old(self).stores@[si as int]@[ti as int].obj,
    {
        let store = &mut self.stores[si];
        let node = &mut store[ti];
        let r = node.obj.take();
        node.obj = v;
        r
    }

    /// Append one fresh, fully empty storage block.
    pub fn extend_stores(&mut self)
        requires
            old(self).wf(),
        ensures
            final(self).wf(),
            final(self).spec_stores_len() == old(self).spec_stores_len() + 1,
            final(self)@ == old(self)@ + Seq::new(DEFAULT_CAPACITY as nat, |i: int| None::<T>),
    {
        let mut new_vec: Vec<ObjectNode<T>> = Vec::with_capacity(DEFAULT_CAPACITY);
        let mut i: usize = 0;
        while i < DEFAULT_CAPACITY
            invariant
                i <= DEFAULT_CAPACITY,
                new_vec@.len() == i,
                forall|j: int| 0 <= j < i ==> (#[trigger] new_vec@[j].obj) is None,
            decreases DEFAULT_CAPACITY - i,
        {
            new_vec.push(
                ObjectNode {
                    obj: None,
                    header: ChunkHead { next_none_offset: 0, next_chunk_offset: 0 },
                },
            );
            i += 1;
        }
        new_vec[0].header = ChunkHead {
            next_none_offset: 0,
            next_chunk_offset: DEFAULT_CAPACITY,
        };
        proof {
            assert(is_chunk_chain(new_vec@, seq![0int]));
        }
        let ghost pre = *self;
        self.stores.push(new_vec);
        proof {
            assert forall|si: int| 0 <= si < self.stores@.len() implies store_ok(
                #[trigger] self.stores@[si]@,
            ) by {
                if si < pre.stores@.len() {
                    assert(self.stores@[si] == pre.stores@[si]);
                    assert(store_ok(pre.stores@[si]@));
                } else {
                    assert(is_chunk_chain(self.stores@[si]@, seq![0int]));
                }
            }
            let rhs = pre@ + Seq::new(DEFAULT_CAPACITY as nat, |i: int| None::<T>);
            assert(self@.len() == rhs.len());
            assert forall|i: int| 0 <= i < self@.len() implies self@[i] == rhs[i] by {
                lemma_flat_index(self.stores@.len() as int, i);
                let q = i / cap();
                let p = i % cap();
                if q < pre.stores@.len() {
                    assert(self.stores@[q] == pre.stores@[q]);
                    assert(rhs[i] == pre@[i]);
                } else {
                    assert(q == pre.stores@.len());
                    assert(self.stores@[q]@[p].obj is None);
                    lemma_mul_le(0, pre.stores@.len() as int);
                    assert(rhs[i] == Seq::new(DEFAULT_CAPACITY as nat, |j: int| None::<T>)[i
                        - pre@.len()]);
                }
            }
            assert(self@ =~= rhs);
        }
    }

    /// Create a pool with one empty block.
    pub fn new() -> (r: Self)
        ensures
            r.wf(),
            r.spec_stores_len() == 1,
            r@.len() == cap(),
            forall|i: int| 0 <= i < r@.len() ==> (#[trigger] r@[i]) is None,
    {
        let mut pool = ObjectPool { stores: Vec::with_capacity(10) };
        proof {
            assert(pool@ =~= Seq::<Option<T>>::empty());
        }
        pool.extend_stores();
        pool
    }

    /// Locate the first free slot: its block index and slot index within the
    /// block. Returns `None` when every slot of every block is occupied.
    fn first_none(&self) -> (r: Option<(usize, usize)>)
        requires
            self.wf(),
        ensures
            match r {
                Some(pair) => {
                    &&& (pair.0 as int) < self.spec_stores_len()
                    &&& 0 <= (pair.1 as int) < cap()
                    &&& pair.1 == self.spec_chunk_header(pair.0 as int, 0).next_none_offset
                    &&& self@[pair.0 as int * cap() + pair.1 as int] is None
                    &&& forall|j: int|
                        0 <= j < pair.0 as int * cap() + pair.1 as int ==> (#[trigger] self@[j])
                            is Some
                },
                None => forall|j: int| 0 <= j < self@.len() ==> (#[trigger] self@[j]) is Some,
            },
    {
        let mut si: usize = 0;
        while si < self.stores.len()
            invariant
                self.wf(),
                si <= self.spec_stores_len(),
                forall|j: int| 0 <= j < si as int * cap() ==> (#[trigger] self@[j]) is Some,
            decreases self.spec_stores_len() - si,
        {
            proof {
                let chain = choose|chain: Seq<int>| is_chunk_chain(self.stores@[si as int]@, chain);
                assert(is_chunk_chain(self.stores@[si as int]@, chain));
                lemma_head_chunk(self.stores@[si as int]@, chain);
            }
            let h = self.stores[si][0].header;
            if h.next_none_offset < DEFAULT_CAPACITY {
                let ti = h.next_none_offset;
                proof {
                    let s = self.stores@[si as int]@;
                    let chain = choose|chain: Seq<int>| is_chunk_chain(s, chain);
                    assert(is_chunk_chain(s, chain));
                    lemma_head_chunk(s, chain);
                    let k0 = s[0].header.next_chunk_offset as int;
                    assert(chunk_body_ok(s, 0, k0));
                    // the slot at the free mark is indeed empty
                    assert(ti < k0);
                    assert(s[ti as int].obj is None);
                    lemma_pair_index(si as int, ti as int);
                    assert(self@[si as int * cap() + ti as int] is None);
                    assert forall|j: int| 0 <= j < si as int * cap() + ti as int implies (
                    #[trigger] self@[j]) is Some by {
                        if j >= si as int * cap() {
                            lemma_flat_index(self.stores@.len() as int, j);
                            assert(j / cap() == si as int) by {
                                lemma_pair_index(si as int, ti as int);
                                assert(j < (si as int + 1) * cap());
                                if j / cap() < si as int {
                                    lemma_mul_le(j / cap() + 1, si as int);
                                } else if j / cap() > si as int {
                                    lemma_mul_le(si as int + 1, j / cap());
                                }
                            }
                            assert(j % cap() < ti as int) by {
                                lemma_flat_index(self.stores@.len() as int, j);
                            }
                            assert(s[j % cap()].obj is Some);
                        }
                    }
                }
                return Some((si, ti));
            }
            proof {
                let s = self.stores@[si as int]@;
                let chain = choose|chain: Seq<int>| is_chunk_chain(s, chain);
                assert(is_chunk_chain(s, chain));
                lemma_head_chunk(s, chain);
                let k0 = s[0].header.next_chunk_offset as int;
                // the block is full: its head chunk spans the whole block
                assert(k0 == cap());
                assert forall|j: int| 0 <= j < (si as int + 1) * cap() implies (#[trigger] self@[j])
                    is Some by {
                    if j >= si as int * cap() {
                        lemma_flat_index(self.stores@.len() as int, j);
                        lemma_pair_index(si as int, 0);
                        assert(j / cap() == si as int) by {
                            if j / cap() < si as int {
                                lemma_mul_le(j / cap() + 1, si as int);
                            } else if j / cap() > si as int {
                                lemma_mul_le(si as int + 1, j / cap());
                            }
                        }
                        assert(s[j % cap()].obj is Some);
                    }
                }
            }
            si = si + 1;
        }
        None
    }

    /// Clear the slot at `index` and return its object. Returns `None`, and
    /// changes nothing, when the index is out of range or the slot is empty.
    #[verifier::spinoff_prover]
    #[verifier::rlimit(60)]
    pub fn remove(&mut self, index: usize) -> (r: Option<T>)
        requires
            old(self).wf(),
        ensures
            final(self).wf(),
            final(self).spec_stores_len() == old(self).spec_stores_len(),
            (index as int) < old(self)@.len() && old(self)@[index as int] is Some ==> r == old(self)@[index as int] && final(self)@ == old(self)@.update(index as int, None::<T>),
            !((index as int) < old(self)@.len() && old(self)@[index as int] is Some) ==> r
                is None && final(self)@ == old(self)@,
    {
        let si = index / DEFAULT_CAPACITY;
        let ti = index % DEFAULT_CAPACITY;
        if si >= self.stores.len() {
            proof {
                lemma_div_ge(index as int, self.stores@.len() as int);
            }
            return None;
        }
        let ghost s = self.stores@[si as int]@;
        proof {
            let chain = choose|chain: Seq<int>| is_chunk_chain(s, chain);
            assert(is_chunk_chain(s, chain));
            lemma_pair_index(si as int, ti as int);
            lemma_mul_le(si as int + 1, self.stores@.len() as int);
            assert(self@[index as int] == s[ti as int].obj);
        }
        let occupied = self.stores[si][ti].obj.is_some();
        if !occupied {
            return None;
        }
        // walk the chunk chain to the chunk containing the slot
        let ghost chain = choose|chain: Seq<int>| is_chunk_chain(s, chain);
        let mut c: usize = 0;
        let mut p: usize = 0;
        let ghost mut gi: int = 0;
        proof {
            lemma_body_at(s, chain, 0, 0, chunk_at_end(chain, 0));
        }
        let mut k = self.stores[si][c].header.next_chunk_offset;
        while ti >= k
            invariant
                self.wf(),
                (si as int) < self.spec_stores_len(),
                s == self.stores@[si as int]@,
                is_chunk_chain(s, chain),
                0 <= gi < chain.len(),
                c as int == chain[gi],
                k as int == chunk_at_end(chain, gi),
                gi > 0 ==> p as int == chain[gi - 1],
                gi == 0 ==> c == 0,
                c as int <= ti as int && (ti as int) < cap(),
            decreases cap() - c,
        {
            proof {
                assert(gi < chain.len() - 1);
                assert(chain[gi] < chain[gi + 1] && chunk_body_ok(s, chain[gi], chain[gi + 1]));
            }
            p = c;
            c = k;
            proof {
                gi = gi + 1;
                lemma_body_at(s, chain, gi, c as int, chunk_at_end(chain, gi));
            }
            k = self.stores[si][c].header.next_chunk_offset;
        }
        proof {
            lemma_body_at(s, chain, gi, c as int, k as int);
            assert(chunk_at(s, chain, gi, c as int, k as int));
        }
        let h = self.stores[si][c].header;
        let ghost n = h.next_none_offset as int;
        proof {
            // the slot is occupied, so it lies before the chunk's free mark
            assert(ti < n) by {
                if ti >= n {
                    assert(s[ti as int].obj is None);
                }
            }
        }
        let ghost pre = *self;
        let v = self.swap_obj(si, ti, None);
        if ti == h.next_none_offset - 1 {
            if c == ti {
                // the chunk is now entirely free
                self.set_header(
                    si,
                    c,
                    ChunkHead { next_none_offset: ti, next_chunk_offset: h.next_chunk_offset },
                );
                if c > 0 {
                    proof {
                        lemma_chain_mono(s, chain, gi - 1, gi);
                        assert((p as int) < c as int);
                    }
                    let hp = self.stores[si][p].header;
                    self.set_header(
                        si,
                        p,
                        ChunkHead {
                            next_none_offset: hp.next_none_offset,
                            next_chunk_offset: h.next_chunk_offset,
                        },
                    );
                    proof {
                        lemma_remove_empty_chunk(
                            s,
                            self.stores@[si as int]@,
                            chain,
                            gi,
                            c as int,
                            k as int,
                            ti as int,
                            p as int,
                        );
                    }
                } else {
                    proof {
                        lemma_remove_tail(
                            s,
                            self.stores@[si as int]@,
                            chain,
                            gi,
                            c as int,
                            k as int,
                            ti as int,
                        );
                    }
                }
            } else {
                self.set_header(
                    si,
                    c,
                    ChunkHead { next_none_offset: ti, next_chunk_offset: h.next_chunk_offset },
                );
                proof {
                    lemma_remove_tail(
                        s,
                        self.stores@[si as int]@,
                        chain,
                        gi,
                        c as int,
                        k as int,
                        ti as int,
                    );
                }
            }
        } else if ti == c {
            if ti == 0 {
                // the block head splits at slot one
                self.set_header(si, 0, ChunkHead { next_none_offset: 0, next_chunk_offset: 1 });
                self.set_header(si, 1, h);
                proof {
                    lemma_remove_head_split(
                        s,
                        self.stores@[si as int]@,
                        chain,
                        k as int,
                        ti as int,
                    );
                }
            } else {
                // the chunk start moves up; the previous chunk absorbs the slot
                proof {
                    lemma_chain_mono(s, chain, gi - 1, gi);
                    assert((p as int) < c as int);
                }
                let hp = self.stores[si][p].header;
                self.set_header(si, ti + 1, h);
                self.set_header(
                    si,
                    p,
                    ChunkHead { next_none_offset: hp.next_none_offset, next_chunk_offset: c + 1 },
                );
                proof {
                    lemma_remove_shift(
                        s,
                        self.stores@[si as int]@,
                        chain,
                        gi,
                        c as int,
                        k as int,
                        ti as int,
                        p as int,
                    );
                }
            }
        } else {
            // the chunk splits at the cleared slot
            self.set_header(
                si,
                c,
                ChunkHead { next_none_offset: ti, next_chunk_offset: ti + 1 },
            );
            self.set_header(si, ti + 1, h);
            proof {
                lemma_remove_split(
                    s,
                    self.stores@[si as int]@,
                    chain,
                    gi,
                    c as int,
                    k as int,
                    ti as int,
                );
            }
        }
        proof {
            assert forall|q: int| 0 <= q < self.stores@.len() implies store_ok(
                #[trigger] self.stores@[q]@,
            ) by {
                if q != si as int {
                    assert(self.stores@[q] == pre.stores@[q]);
                    assert(store_ok(pre.stores@[q]@));
                }
            }
            Self::lemma_view_update(pre, *self, si as int, ti as int, None::<T>);
        }
        v
    }

    /// Fill the head free slot of block `si`, keeping the chunk chain
    /// consistent.
    #[verifier::spinoff_prover]
    #[verifier::rlimit(100)]
    fn place_at(&mut self, si: usize, ti: usize, value: T) -> (prev: Option<T>)
        requires
            old(self).wf(),
            (si as int) < old(self).spec_stores_len(),
            0 <= (ti as int) < cap(),
            ti == old(self).spec_chunk_header(si as int, 0).next_none_offset,
            old(self)@[si as int * cap() + ti as int] is None,
        ensures
            final(self).wf(),
            prev is None,
            final(self)@ == old(self)@.update(si as int * cap() + ti as int, Some(value)),
            final(self).spec_stores_len() == old(self).spec_stores_len(),
    {
        proof {
            let s = self.stores@[si as int]@;
            let chain = choose|chain: Seq<int>| is_chunk_chain(s, chain);
            assert(is_chunk_chain(s, chain));
            assert(s.len() == cap());
            lemma_pair_index(si as int, ti as int);
            assert(self@[si as int * cap() + ti as int] == s[ti as int].obj);
        }
        let ghost pre = *self;
        let prev = self.swap_obj(si, ti, Some(value));
        let h = self.stores[si][0].header;
        let ghost n0 = ti as int;
        let ghost k0 = h.next_chunk_offset as int;
        proof {
            let s = pre.stores@[si as int]@;
            if ti != 0 {
                assert(self.stores@[si as int]@[0] == s[0]);
            }
            // bounds of the head chunk, for the reads and writes below
            let chain = choose|chain: Seq<int>| is_chunk_chain(s, chain);
            assert(is_chunk_chain(s, chain));
            lemma_head_chunk(s, chain);
        }
        let n1 = h.next_none_offset + 1;
        if n1 == h.next_chunk_offset && h.next_chunk_offset < DEFAULT_CAPACITY {
            let nh = self.stores[si][h.next_chunk_offset].header;
            self.set_header(si, 0, nh);
        } else {
            self.set_header(
                si,
                0,
                ChunkHead { next_none_offset: n1, next_chunk_offset: h.next_chunk_offset },
            );
        }
        proof {
            let s = pre.stores@[si as int]@;
            let s2 = self.stores@[si as int]@;
            if ti as int + 1 == k0 && k0 < cap() {
                lemma_place_merged(s, s2, n0, k0);
            } else {
                lemma_place_unmerged(s, s2, n0, k0);
            }
            assert forall|q: int| 0 <= q < self.stores@.len() implies store_ok(
                #[trigger] self.stores@[q]@,
            ) by {
                if q != si {
                    assert(self.stores@[q] == pre.stores@[q]);
                    assert(store_ok(pre.stores@[q]@));
                }
            }
            Self::lemma_view_update(pre, *self, si as int, ti as int, Some(value));
        }
        prev
    }

    /// Append a fresh block and fill its first slot.
    #[verifier::spinoff_prover]
    #[verifier::rlimit(100)]
    fn push_grow(&mut self, value: T) -> (prev: Option<T>)
        requires
            old(self).wf(),
        ensures
            final(self).wf(),
            prev is None,
            final(self)@ == old(self)@.push(Some(value)) + Seq::new(
                (cap() - 1) as nat,
                |i: int| None::<T>,
            ),
            final(self).spec_stores_len() == old(self).spec_stores_len() + 1,
    {
                let ghost pre = *self;
                self.extend_stores();
                let si = self.stores.len() - 1;
                proof {
                    // the fresh block is empty and full-length
                    let s = self.stores@[si as int]@;
                    let chain = choose|chain: Seq<int>| is_chunk_chain(s, chain);
                    assert(is_chunk_chain(s, chain));
                    assert(s.len() == cap());
                    lemma_mul_le(0, si as int);
                    assert forall|p: int| 0 <= p < cap() implies (#[trigger] s[p].obj) is None by {
                        lemma_pair_index(si as int, p);
                        assert(self@[si as int * cap() + p] == s[p].obj);
                    }
                }
                let ghost mid = *self;
                let prev = self.swap_obj(si, 0, Some(value));
                self.set_header(
                    si,
                    0,
                    ChunkHead { next_none_offset: 1, next_chunk_offset: DEFAULT_CAPACITY },
                );
                proof {
                    let s2 = self.stores@[si as int]@;
                    assert(s2[0].obj == Some(value));
                    assert(forall|p: int|
                        1 <= p < cap() ==> (#[trigger] s2[p].obj) == mid.stores@[si as int]@[p].obj);
                    assert(is_chunk_chain(s2, seq![0int]));
                    assert forall|q: int| 0 <= q < self.stores@.len() implies store_ok(
                        #[trigger] self.stores@[q]@,
                    ) by {
                        if q != si as int {
                            assert(self.stores@[q] == mid.stores@[q]);
                            assert(store_ok(mid.stores@[q]@));
                        }
                    }
                    // the pool view: old slots, then the new value, then empties
                    let rhs = pre@.push(Some(value)) + Seq::new(
                        (cap() - 1) as nat,
                        |i: int| None::<T>,
                    );
                    assert(self@.len() == rhs.len());
                    assert forall|i: int| 0 <= i < self@.len() implies self@[i] == rhs[i] by {
                        lemma_flat_index(self.stores@.len() as int, i);
                        let q = i / cap();
                        let p = i % cap();
                        if q == si as int {
                            lemma_pair_index(si as int, p);
                            if p == 0 {
                                assert(i == pre@.len());
                            } else {
                                assert(self@[i] == mid@[i]);
                            }
                        } else {
                            assert(q < si as int);
                            assert(self.stores@[q] == mid.stores@[q]);
                            assert(self@[i] == mid@[i]);
                            assert(mid@[i] == pre@[i]);
                            assert(i < pre@.len()) by {
                                lemma_mul_le(q + 1, si as int);
                                lemma_pair_index(q, p);
                            }
                        }
                    }
                    assert(self@ =~= rhs);
                }
                prev
    }

    /// Store `value` in the first free slot, growing by one block when the
    /// pool is full. Returns the slot's index and whatever the slot held
    /// before (always `None` for a well-formed pool).
    pub fn push(&mut self, value: T) -> (r: (usize, Option<T>))
        requires
            old(self).wf(),
            old(self)@.len() + cap() <= usize::MAX,
        ensures
            final(self).wf(),
            r.1 is None,
            r.0 as int <= old(self)@.len(),
            forall|j: int| 0 <= j < r.0 as int ==> (#[trigger] old(self)@[j]) is Some,
            (r.0 as int) < old(self)@.len() ==> old(self)@[r.0 as int] is None && final(self)@
                == old(self)@.update(r.0 as int, Some(value)) && final(self).spec_stores_len()
                == old(self).spec_stores_len(),
            (r.0 as int) == old(self)@.len() ==> final(self)@ == old(self)@.push(Some(value))
                + Seq::new((cap() - 1) as nat, |i: int| None::<T>) && final(self).spec_stores_len() == old(self).spec_stores_len() + 1,
    {
        match self.first_none() {
            Some((si, ti)) => {
                proof {
                    lemma_pair_index(si as int, ti as int);
                    lemma_mul_le(si as int + 1, self.spec_stores_len() as int);
                }
                let prev = self.place_at(si, ti, value);
                (si * DEFAULT_CAPACITY + ti, prev)
            },
            None => {
                let ghost oldlen = self.spec_stores_len();
                let prev = self.push_grow(value);
                let si = self.stores_len() - 1;
                proof {
                    assert(si as int == oldlen);
                }
                (si * DEFAULT_CAPACITY, prev)
            },
        }
    }
}

/// A block whose head header claims one fully free chunk.
pub closed spec fn store_is_reset<T>(s: Seq<ObjectNode<T>>) -> bool {
    s[0].header == (ChunkHead { next_none_offset: 0, next_chunk_offset: DEFAULT_CAPACITY })
}

/// How many blocks at the end of the pool are fully free chunks.
pub closed spec fn trailing_reset<T>(stores: Seq<Vec<ObjectNode<T>>>) -> int
    decreases stores.len(),
{
    if stores.len() == 0 {
        0
    } else if store_is_reset(stores.last()@) {
        1 + trailing_reset(stores.drop_last())
    } else {
        0
    }
}

/// A scan that found `m` reset blocks at the end, stopped by a non-reset
/// block or the pool start, has found them all.
proof fn lemma_trailing_reset<T>(stores: Seq<Vec<ObjectNode<T>>>, m: int)
    requires
        0 <= m <= stores.len(),
        forall|j: int|
            stores.len() - m <= j < stores.len() ==> store_is_reset(#[trigger] stores[j]@),
        m < stores.len() ==> !store_is_reset(stores[stores.len() - 1 - m]@),
    ensures
        trailing_reset(stores) == m,
    decreases m,
{
    if m == 0 {
        if stores.len() > 0 {
            assert(!store_is_reset(stores[stores.len() - 1]@));
        }
    } else {
        assert(store_is_reset(stores[stores.len() - 1]@));
        let rest = stores.drop_last();
        assert forall|j: int|
            rest.len() - (m - 1) <= j < rest.len() implies store_is_reset(
            #[trigger] rest[j]@,
        ) by {
            assert(rest[j] == stores[j]);
        }
        if m - 1 < rest.len() {
            assert(rest[rest.len() - 1 - (m - 1)] == stores[stores.len() - 1 - m]);
        }
        lemma_trailing_reset(rest, m - 1);
    }
}

/// A well-formed reset block is entirely empty.
proof fn lemma_reset_all_none<T>(s: Seq<ObjectNode<T>>)
    requires
        store_ok(s),
        store_is_reset(s),
    ensures
        forall|j: int| 0 <= j < cap() ==> (#[trigger] s[j].obj) is None,
        s.len() == cap(),
{
    let chain = choose|chain: Seq<int>| is_chunk_chain(s, chain);
    assert(is_chunk_chain(s, chain));
    lemma_head_chunk(s, chain);
    assert(chunk_body_ok(s, 0, cap()));
}

impl<T> ObjectPool<T> {
    /// How many trailing blocks `iter` leaves out: the fully free blocks at
    /// the end, except that a single-block pool is never skipped.
    pub open spec fn spec_iter_skip(&self) -> int {
        if self.spec_stores_len() <= 1 || trailing_reset(self.stores_spec()) == 0 {
            0
        } else {
            trailing_reset(self.stores_spec())
        }
    }

    /// Whether the block just before the trailing fully free blocks is
    /// completely occupied, so the next store must come from a fresh block.
    pub open spec fn spec_boundary_full(&self) -> bool {
        let b = self.spec_stores_len() - 1 - trailing_reset(self.stores_spec());
        self.spec_chunk_header(b, 0).next_none_offset == self.spec_chunk_header(
            b,
            0,
        ).next_chunk_offset
    }

    /// How many blocks `cleanup_stores` releases: every trailing fully free
    /// block, keeping one spare when the block before them is completely
    /// occupied; a single-block pool is never shrunk.
    pub open spec fn spec_cleanup_drop(&self) -> int {
        let len = self.spec_stores_len() as int;
        let tr = trailing_reset(self.stores_spec());
        if len <= 1 || tr == 0 {
            0
        } else if tr < len && self.spec_boundary_full() {
            tr - 1
        } else {
            tr
        }
    }

    /// Count the fully free blocks at the end of the pool; reports whether
    /// the block just before them is completely occupied. Returns `None` when
    /// there is at most one block or no trailing free block.
    fn empty_chunk(&self) -> (r: Option<(usize, bool)>)
        requires
            self.wf(),
        ensures
            match r {
                Some(pair) => {
                    &&& self.spec_stores_len() > 1
                    &&& 1 <= pair.0 as int <= self.spec_stores_len()
                    &&& pair.0 as int == trailing_reset(self.stores_spec())
                    &&& pair.1 == ((pair.0 as int) < self.spec_stores_len()
                        && self.spec_chunk_header(
                        self.spec_stores_len() - 1 - pair.0 as int,
                        0,
                    ).next_none_offset == self.spec_chunk_header(
                        self.spec_stores_len() - 1 - pair.0 as int,
                        0,
                    ).next_chunk_offset)
                },
                None => self.spec_stores_len() <= 1 || trailing_reset(self.stores_spec()) == 0,
            },
    {
        let len = self.stores.len();
        if len <= 1 {
            return None;
        }
        let mut num: usize = 0;
        let mut full = false;
        let mut stopped = false;
        while num < len && !stopped
            invariant
                self.wf(),
                len == self.spec_stores_len(),
                len > 1,
                0 <= num as int <= len as int,
                forall|j: int|
                    len - num <= j < len ==> store_is_reset(#[trigger] self.stores@[j]@),
                stopped ==> (num as int) < len as int && !store_is_reset(
                    self.stores@[len - 1 - num as int]@,
                ) && full == (self.spec_chunk_header(len - 1 - num as int, 0).next_none_offset
                    == self.spec_chunk_header(len - 1 - num as int, 0).next_chunk_offset),
                !stopped ==> !full,
            decreases len - num + (if stopped {
                0int
            } else {
                1int
            }),
        {
            proof {
                let s = self.stores@[len - 1 - num as int]@;
                let chain = choose|chain: Seq<int>| is_chunk_chain(s, chain);
                assert(is_chunk_chain(s, chain));
            }
            let h = self.stores[len - 1 - num][0].header;
            if h.next_none_offset == 0 && h.next_chunk_offset == DEFAULT_CAPACITY {
                num = num + 1;
            } else {
                full = h.next_none_offset == h.next_chunk_offset;
                stopped = true;
            }
        }
        proof {
            lemma_trailing_reset(self.stores@, num as int);
        }
        if num == 0 {
            None
        } else {
            Some((num, full))
        }
    }

    /// The raw blocks, for contracts that need to speak of block layout.
    pub closed spec fn stores_spec(&self) -> Seq<Vec<ObjectNode<T>>> {
        self.stores@
    }

    /// Drop the fully free blocks at the end of the pool, keeping one spare
    /// when the block before them is completely occupied. The remaining view
    /// is a prefix of the old one and every dropped slot was empty.
    #[verifier::spinoff_prover]
    pub fn cleanup_stores(&mut self)
        requires
            old(self).wf(),
        ensures
            final(self).wf(),
            final(self).spec_stores_len() == old(self).spec_stores_len() - old(self).spec_cleanup_drop(),
            final(self).spec_stores_len() <= old(self).spec_stores_len(),
            final(self)@ == old(self)@.subrange(
                0,
                final(self).spec_stores_len() * cap(),
            ),
            forall|i: int|
                final(self)@.len() <= i < old(self)@.len() ==> (#[trigger] old(self)@[i]) is None,
    {
        let ghost pre = *self;
        if let Some((n, res_is_full)) = self.empty_chunk() {
            let keep = if res_is_full {
                self.stores.len() - (n - 1)
            } else {
                self.stores.len() - n
            };
            while self.stores.len() > keep
                invariant
                    keep <= self.stores@.len(),
                    pre.wf(),
                    keep <= pre.stores@.len(),
                    self.stores@.len() <= pre.stores@.len(),
                    self.stores@ == pre.stores@.subrange(0, self.stores@.len() as int),
                    pre.stores@.len() - trailing_reset(pre.stores@) <= keep,
                decreases self.stores@.len(),
            {
                let ghost before = self.stores@;
                self.stores.pop();
                proof {
                    assert forall|i: int| 0 <= i < self.stores@.len() implies self.stores@[i]
                        == pre.stores@[i] by {
                        assert(self.stores@[i] == before[i]);
                        assert(before[i] == pre.stores@[i]);
                    }
                    assert(self.stores@ =~= pre.stores@.subrange(0, self.stores@.len() as int));
                }
            }
        } else {
            proof {
                assert forall|i: int| 0 <= i < self.stores@.len() implies self.stores@[i]
                    == pre.stores@.subrange(0, self.stores@.len() as int)[i] by {
                }
                assert(self.stores@ =~= pre.stores@.subrange(0, self.stores@.len() as int));
            }
        }
        proof {
            let newlen = self.stores@.len() as int;
            let prelen = pre.stores@.len() as int;
            assert forall|q: int| 0 <= q < newlen implies store_ok(#[trigger] self.stores@[q]@) by {
                assert(self.stores@[q] == pre.stores@[q]);
                assert(store_ok(pre.stores@[q]@));
            }
            lemma_mul_le(newlen, prelen);
            assert(self@.len() == newlen * cap());
            assert forall|i: int| 0 <= i < newlen * cap() implies self@[i] == pre@[i] by {
                lemma_flat_index(newlen, i);
                assert(self.stores@[i / cap()] == pre.stores@[i / cap()]);
            }
            assert(self@ =~= pre@.subrange(0, newlen * cap()));
            // every dropped block was a reset block, hence empty
            assert forall|i: int| newlen * cap() <= i < pre@.len() implies (#[trigger] pre@[i])
                is None by {
                lemma_flat_index(prelen, i);
                let q = i / cap();
                assert(q >= newlen) by {
                    if q < newlen {
                        lemma_mul_le(q + 1, newlen);
                    }
                }
                assert(q >= prelen - trailing_reset(pre.stores@));
                lemma_reset_suffix(pre.stores@, q);
                lemma_reset_all_none(pre.stores@[q]@);
            }
        }
    }

    /// Read the slot at `index`.
    pub fn get(&self, index: usize) -> (r: Option<&T>)
        requires
            self.wf(),
        ensures
            match r {
                Some(v) => (index as int) < self@.len() && self@[index as int] == Some(*v),
                None => (index as int) >= self@.len() || self@[index as int] is None,
            },
    {
        let si = index / DEFAULT_CAPACITY;
        let ti = index % DEFAULT_CAPACITY;
        if si >= self.stores.len() {
            proof {
                lemma_div_ge(index as int, self.stores@.len() as int);
            }
            return None;
        }
        proof {
            let s = self.stores@[si as int]@;
            let chain = choose|chain: Seq<int>| is_chunk_chain(s, chain);
            assert(is_chunk_chain(s, chain));
            lemma_pair_index(si as int, ti as int);
            lemma_mul_le(si as int + 1, self.stores@.len() as int);
        }
        self.stores[si][ti].obj.as_ref()
    }

    /// Borrow the slot at `index` mutably. The caller must name an occupied
    /// slot; the pool afterwards holds whatever the caller left behind the
    /// returned borrow.
    pub fn get_mut(&mut self, index: usize) -> (r: &mut T)
        requires
            old(self).wf(),
            (index as int) < old(self)@.len(),
            old(self)@[index as int] is Some,
        ensures
            Some(*r) == old(self)@[index as int],
            final(self)@ == old(self)@.update(index as int, Some(*final(r))),
            final(self).wf(),
            final(self).spec_stores_len() == old(self).spec_stores_len(),
    {
        let si = index / DEFAULT_CAPACITY;
        let ti = index % DEFAULT_CAPACITY;
        proof {
            lemma_flat_index(self.stores@.len() as int, index as int);
            let s = self.stores@[si as int]@;
            let chain = choose|chain: Seq<int>| is_chunk_chain(s, chain);
            assert(is_chunk_chain(s, chain));
        }
        let ghost pre = *self;
        let store = &mut self.stores[si];
        let node = &mut store[ti];
        let r = match &mut node.obj {
            Some(v) => v,
            None => unreached(),
        };
        proof {
            let post = *after_borrow(self);
            assert(post.stores@[si as int]@[ti as int].obj == Some(*final(r)));
            assert forall|q: int| 0 <= q < post.stores@.len() implies store_ok(
                #[trigger] post.stores@[q]@,
            ) by {
                if q != si as int {
                    assert(post.stores@[q] == pre.stores@[q]);
                    assert(store_ok(pre.stores@[q]@));
                } else {
                    lemma_store_same_shape(pre.stores@[q]@, post.stores@[q]@);
                }
            }
            Self::lemma_view_update(pre, post, si as int, ti as int, Some(*final(r)));
        }
        r
    }

    /// Clone the slots of every block up to the trailing fully free blocks,
    /// in slot order.
    pub fn iter(&self) -> (r: Vec<Option<T>>) where T: Clone
        requires
            self.wf(),
        ensures
            r@.len() as int == (self.spec_stores_len() - self.spec_iter_skip()) * cap(),
            r@.len() <= self@.len(),
            (r@.len() as int) % cap() == 0,
            forall|i: int|
                0 <= i < r@.len() ==> match (self@[i], #[trigger] r@[i]) {
                    (Some(a), Some(b)) => cloned::<T>(a, b),
                    (None, None) => true,
                    _ => false,
                },
            forall|i: int| r@.len() <= i < self@.len() ==> (#[trigger] self@[i]) is None,
    {
        let skip = match self.empty_chunk() {
            Some(pair) => pair.0,
            None => 0,
        };
        let take = self.stores.len() - skip;
        let mut out: Vec<Option<T>> = Vec::new();
        let mut si: usize = 0;
        while si < take
            invariant
                self.wf(),
                take <= self.spec_stores_len(),
                si <= take,
                out@.len() == si as int * cap(),
                forall|i: int|
                    0 <= i < out@.len() ==> match (self@[i], #[trigger] out@[i]) {
                        (Some(a), Some(b)) => cloned::<T>(a, b),
                        (None, None) => true,
                        _ => false,
                    },
            decreases take - si,
        {
            proof {
                let s = self.stores@[si as int]@;
                let chain = choose|chain: Seq<int>| is_chunk_chain(s, chain);
                assert(is_chunk_chain(s, chain));
                lemma_mul_le(si as int + 1, self.spec_stores_len() as int);
            }
            let mut ti: usize = 0;
            while ti < DEFAULT_CAPACITY
                invariant
                    self.wf(),
                    take <= self.spec_stores_len(),
                    si < take,
                    ti <= DEFAULT_CAPACITY,
                    self.stores@[si as int]@.len() == cap(),
                    out@.len() == si as int * cap() + ti as int,
                    forall|i: int|
                        0 <= i < out@.len() ==> match (self@[i], #[trigger] out@[i]) {
                            (Some(a), Some(b)) => cloned::<T>(a, b),
                            (None, None) => true,
                            _ => false,
                        },
                decreases DEFAULT_CAPACITY - ti,
            {
                proof {
                    lemma_pair_index(si as int, ti as int);
                    lemma_mul_le(si as int + 1, self.spec_stores_len() as int);
                    assert(self@[si as int * cap() + ti as int]
                        == self.stores@[si as int]@[ti as int].obj);
                }
                out.push(self.stores[si][ti].obj.clone());
                ti = ti + 1;
            }
            si = si + 1;
            proof {
                assert(out@.len() == (si as int - 1) * cap() + cap());
                assert((si as int - 1) * cap() + cap() == si as int * cap()) by (nonlinear_arith);
            }
        }
        proof {
            lemma_mul_le(take as int, self.spec_stores_len() as int);
            assert((out@.len() as int) % cap() == 0) by {
                lemma_pair_index(take as int, 0);
            }
            // every slot in a trailing reset block is empty
            assert forall|i: int| out@.len() <= i < self@.len() implies (#[trigger] self@[i])
                is None by {
                lemma_flat_index(self.spec_stores_len() as int, i);
                let q = i / cap();
                assert(q >= take) by {
                    if q < take {
                        lemma_mul_le(q + 1, take as int);
                    }
                }
                if take < self.stores.len() {
                    lemma_reset_suffix(self.stores@, q);
                    lemma_reset_all_none(self.stores@[q]@);
                }
            }
        }
        out
    }
}

/// Replacing slot contents without changing which slots are occupied keeps a
/// block well formed.
proof fn lemma_store_same_shape<T>(s: Seq<ObjectNode<T>>, s2: Seq<ObjectNode<T>>)
    requires
        store_ok(s),
        s2.len() == s.len(),
        forall|j: int| 0 <= j < cap() ==> (#[trigger] s2[j]).header == s[j].header,
        forall|j: int| 0 <= j < cap() ==> ((#[trigger] s2[j]).obj is Some <==> s[j].obj is Some),
    ensures
        store_ok(s2),
{
    let chain = choose|chain: Seq<int>| is_chunk_chain(s, chain);
    assert(is_chunk_chain(s, chain));
    assert forall|i: int|
        #![trigger chain[i], chain[i + 1]]
        0 <= i < chain.len() - 1 implies chain[i] < chain[i + 1] && chunk_body_ok(
        s2,
        chain[i],
        chain[i + 1],
    ) by {
        assert(chain[i] < chain[i + 1] && chunk_body_ok(s, chain[i], chain[i + 1]));
        assert(s2[chain[i]].header == s[chain[i]].header);
        let n = s[chain[i]].header.next_none_offset as int;
        assert forall|j: int| chain[i] <= j < n implies (#[trigger] s2[j].obj) is Some by {
            assert(s[j].obj is Some);
        }
        assert forall|j: int| n <= j < chain[i + 1] implies (#[trigger] s2[j].obj) is None by {
            assert(s[j].obj is None);
        }
    }
    assert(chunk_body_ok(s2, chain[chain.len() - 1], cap())) by {
        let c = chain[chain.len() - 1];
        assert(chunk_body_ok(s, c, cap()));
        assert(s2[c].header == s[c].header);
        let n = s[c].header.next_none_offset as int;
        assert forall|j: int| c <= j < n implies (#[trigger] s2[j].obj) is Some by {
            assert(s[j].obj is Some);
        }
        assert forall|j: int| n <= j < cap() implies (#[trigger] s2[j].obj) is None by {
            assert(s[j].obj is None);
        }
    }
    assert(is_chunk_chain(s2, chain));
}

/// Every block at or past the start of the trailing reset region is reset.
proof fn lemma_reset_suffix<T>(stores: Seq<Vec<ObjectNode<T>>>, q: int)
    requires
        stores.len() - trailing_reset(stores) <= q < stores.len(),
    ensures
        store_is_reset(stores[q]@),
    decreases stores.len(),
{
    lemma_trailing_le(stores);
    if q == stores.len() - 1 {
        assert(trailing_reset(stores) >= 1);
        assert(store_is_reset(stores.last()@));
    } else {
        assert(trailing_reset(stores) >= 2);
        assert(store_is_reset(stores.last()@));
        let rest = stores.drop_last();
        assert(trailing_reset(stores) == 1 + trailing_reset(rest));
        lemma_reset_suffix(rest, q);
        assert(rest[q] == stores[q]);
    }
}

/// The count of trailing reset blocks never exceeds the block count.
proof fn lemma_trailing_le<T>(stores: Seq<Vec<ObjectNode<T>>>)
    ensures
        0 <= trailing_reset(stores) <= stores.len(),
    decreases stores.len(),
{
    if stores.len() > 0 {
        lemma_trailing_le(stores.drop_last());
    }
}

} // verus!
