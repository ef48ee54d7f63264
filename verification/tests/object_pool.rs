use wasmedge_asyncify::object_pool::{ChunkHead, ObjectPool, DEFAULT_CAPACITY};

#[test]
fn test_iter() {
    let mut pool = ObjectPool::new();
    let _ = pool.push("hello");
    let (id2, _) = pool.push("world");
    pool.push("example");
    pool.remove(id2);
    pool.push("foo");

    let r = pool.iter().into_iter().take(4).collect::<Vec<Option<&str>>>();

    assert_eq!(r, vec![Some("hello"), Some("foo"), Some("example"), None]);
}

#[test]
fn test_push() {
    let mut pool = ObjectPool::new();
    assert_eq!(pool.push("0"), (0, None));
    assert_eq!(pool.push("1"), (1, None));
    assert_eq!(pool.push("2"), (2, None));
    assert_eq!(pool.push("3"), (3, None));
    assert_eq!(pool.push("4"), (4, None));
    assert_eq!(
        pool.chunk_header(0, 0).unwrap(),
        ChunkHead {
            next_none_offset: 5,
            next_chunk_offset: DEFAULT_CAPACITY
        }
    );
}

#[test]
fn test_push_and_remove() {
    let mut pool = ObjectPool::new();

    assert_eq!(pool.push("0"), (0, None));
    assert_eq!(pool.push("1"), (1, None));
    assert_eq!(pool.push("2"), (2, None));
    assert_eq!(pool.push("3"), (3, None));
    assert_eq!(pool.push("4"), (4, None));
    // |----------*
    // |0|1|2|3|4|
    // |----------DEFAULT_CAPACITY--*
    assert_eq!(pool.remove(2), Some("2"));
    assert_eq!(
        pool.chunk_header(0, 0).unwrap(),
        ChunkHead {
            next_none_offset: 2,
            next_chunk_offset: 3
        }
    );
    assert_eq!(
        pool.chunk_header(0, 3).unwrap(),
        ChunkHead {
            next_none_offset: 5,
            next_chunk_offset: DEFAULT_CAPACITY
        }
    );
    // |----*|----*
    // |0|1|_|3|4|
    // |------|-----DEFAULT_CAPACITY--*

    assert_eq!(pool.remove(1), Some("1"));
    // |--*  |----*
    // |0|_|_|3|4|
    // |------|-----DEFAULT_CAPACITY--*
    assert_eq!(
        pool.chunk_header(0, 0).unwrap(),
        ChunkHead {
            next_none_offset: 1,
            next_chunk_offset: 3
        }
    );

    assert_eq!(pool.remove(3), Some("3"));
    // |--*    |--*
    // |0|_|_|_|4|
    // |--------|-----DEFAULT_CAPACITY--*
    assert_eq!(
        pool.chunk_header(0, 0).unwrap(),
        ChunkHead {
            next_none_offset: 1,
            next_chunk_offset: 4
        }
    );
    assert_eq!(
        pool.chunk_header(0, 4).unwrap(),
        ChunkHead {
            next_none_offset: 5,
            next_chunk_offset: DEFAULT_CAPACITY
        }
    );

    assert_eq!(pool.push("1"), (1, None));
    // |----*  |--*
    // |0|1|_|_|4|
    // |--------|-----DEFAULT_CAPACITY--*
    assert_eq!(
        pool.chunk_header(0, 0).unwrap(),
        ChunkHead {
            next_none_offset: 2,
            next_chunk_offset: 4
        }
    );

    assert_eq!(pool.remove(0), Some("0"));
    // |*|--*  |--*
    // |_|1|_|_|4|
    // |--|-----|-----DEFAULT_CAPACITY--*
    assert_eq!(
        pool.chunk_header(0, 0).unwrap(),
        ChunkHead {
            next_none_offset: 0,
            next_chunk_offset: 1
        }
    );
    assert_eq!(
        pool.chunk_header(0, 1).unwrap(),
        ChunkHead {
            next_none_offset: 2,
            next_chunk_offset: 4
        }
    );
    let v = pool.iter().into_iter().take(5).collect::<Vec<Option<&str>>>();
    assert_eq!(v, vec![None, Some("1"), None, None, Some("4")]);

    assert_eq!(pool.remove(1), Some("1"));
    // |*      |--*
    // |_|_|_|_|4|
    // |--------|-----DEFAULT_CAPACITY--*
    assert_eq!(
        pool.chunk_header(0, 0).unwrap(),
        ChunkHead {
            next_none_offset: 0,
            next_chunk_offset: 4
        }
    );
    assert_eq!(
        pool.chunk_header(0, 4).unwrap(),
        ChunkHead {
            next_none_offset: 5,
            next_chunk_offset: DEFAULT_CAPACITY
        }
    );
    let v = pool.iter().into_iter().take(5).collect::<Vec<Option<&str>>>();
    assert_eq!(v, vec![None, None, None, None, Some("4")]);

    assert_eq!(pool.push("0"), (0, None));
    assert_eq!(pool.push("1"), (1, None));
    assert_eq!(pool.push("2"), (2, None));
    // |------*|--*
    // |0|1|2|_|4|
    // |--------|-----DEFAULT_CAPACITY--*
    assert_eq!(
        pool.chunk_header(0, 0).unwrap(),
        ChunkHead {
            next_none_offset: 3,
            next_chunk_offset: 4
        }
    );
    assert_eq!(
        pool.chunk_header(0, 4).unwrap(),
        ChunkHead {
            next_none_offset: 5,
            next_chunk_offset: DEFAULT_CAPACITY
        }
    );

    assert_eq!(pool.push("3"), (3, None));
    // |----------*
    // |0|1|2|3|4|
    // |--------------DEFAULT_CAPACITY--*
    assert_eq!(
        pool.chunk_header(0, 0).unwrap(),
        ChunkHead {
            next_none_offset: 5,
            next_chunk_offset: DEFAULT_CAPACITY
        }
    );
}

#[test]
fn test_store_extends() {
    let mut pool = ObjectPool::new();
    let cap = DEFAULT_CAPACITY;
    for i in 0..cap {
        assert_eq!(pool.push(format!("{i}")), (i, None));
    }

    assert_eq!(pool.push("example".to_string()), (cap, None));
    assert_eq!(pool.push("foo".to_string()), (cap + 1, None));
    assert_eq!(pool.push("bar".to_string()), (cap + 2, None));

    assert_eq!(
        pool.chunk_header(1, 0).unwrap(),
        ChunkHead {
            next_none_offset: 3,
            next_chunk_offset: DEFAULT_CAPACITY
        }
    );
}

#[test]
fn test_cleanup() {
    let mut pool = ObjectPool::new();
    let cap = DEFAULT_CAPACITY;
    for i in 0..cap {
        pool.push(i);
    }
    pool.extend_stores();
    pool.extend_stores();

    assert_eq!(pool.stores_len(), 3);

    assert_eq!(
        pool.chunk_header(0, 0).unwrap(),
        ChunkHead {
            next_none_offset: cap,
            next_chunk_offset: cap
        }
    );

    pool.cleanup_stores();
    assert_eq!(pool.stores_len(), 2);

    pool.remove(2);
    pool.cleanup_stores();
    assert_eq!(pool.stores_len(), 1);
}

#[test]
fn get_and_get_mut() {
    let mut pool = ObjectPool::new();
    let (a, _) = pool.push(10u32);
    let (b, _) = pool.push(20u32);
    assert_eq!(pool.get(a), Some(&10));
    assert_eq!(pool.get(b), Some(&20));
    assert_eq!(pool.get(5000), None);
    pool.remove(a);
    assert_eq!(pool.get(a), None);

    *pool.get_mut(b) = 99;
    assert_eq!(pool.get(b), Some(&99));
}
