use mandel_explorer::buffer_pool::BufferPool;

#[test]
fn pool_reserve_then_overdraw() {
    let mut pool = BufferPool::new(128 * 128 * 2, 4);
    assert_eq!(pool.total_allocated(), 4);
    assert_eq!(pool.outstanding(), 0);
    let mut taken = Vec::new();
    for _ in 0..8 {
        taken.push(pool.take());
    }
    // four came from the reserve, four were allocated fresh
    assert_eq!(pool.total_allocated(), 8);
    assert_eq!(pool.outstanding(), 8);
    assert_eq!(pool.available_count(), 0);
    for b in &taken {
        assert_eq!(b.len(), 128 * 128 * 2);
    }
    for b in taken {
        assert!(pool.give_back(b));
    }
    assert_eq!(pool.outstanding(), 0);
    assert_eq!(pool.available_count(), 8);
    assert_eq!(pool.total_allocated(), 8);
}

#[test]
fn pool_reuses_last_returned_buffer() {
    let mut pool = BufferPool::new(4, 0);
    let mut b = pool.take();
    assert_eq!(b, vec![0u8; 4]);
    b[0] = 9;
    assert!(pool.give_back(b));
    let again = pool.take();
    // contents are not cleared between uses
    assert_eq!(again, vec![9u8, 0, 0, 0]);
    assert_eq!(pool.total_allocated(), 1);
}

#[test]
fn pool_frees_buffer_of_wrong_size() {
    let mut pool = BufferPool::new(16, 1);
    let mut b = pool.take();
    b.truncate(3);
    assert!(!pool.give_back(b));
    assert_eq!(pool.outstanding(), 0);
    assert_eq!(pool.total_allocated(), 0);
    assert_eq!(pool.available_count(), 0);
    assert_eq!(pool.take().len(), 16);
}

#[test]
fn pool_buffer_size_is_kept() {
    let pool = BufferPool::new(32768, 2);
    assert_eq!(pool.buf_size(), 32768);
    assert_eq!(pool.available_count(), 2);
}
