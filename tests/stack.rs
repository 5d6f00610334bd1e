use refpool::{Pool, PoolRef, PoolSync, SyncStack, STACK_SIZE};

#[test]
fn push_and_pop_a_bit_on_one_thread() {
    let mut stack: SyncStack<usize> = SyncStack::new();
    for i in 0..STACK_SIZE {
        assert_eq!(Ok(()), stack.push(i));
    }
    assert_eq!(Err(STACK_SIZE), stack.push(STACK_SIZE));
    for i in 0..STACK_SIZE {
        assert_eq!(Some((STACK_SIZE - 1) - i), stack.pop());
    }
    assert_eq!(None, stack.pop());
}

#[test]
fn sync_stack_counts_its_items() {
    let mut stack: SyncStack<u8> = SyncStack::new();
    assert_eq!(0, stack.len());
    assert_eq!(Ok(()), stack.push(7));
    assert_eq!(Ok(()), stack.push(9));
    assert_eq!(2, stack.len());
    assert_eq!(Some(9), stack.pop());
    assert_eq!(1, stack.len());
}

#[test]
fn sync_backend_caps_the_pool_at_the_stack_size() {
    let mut pool: Pool<usize, PoolSync> = Pool::new(2048);
    assert_eq!(STACK_SIZE, pool.get_max_size());
    let mut refs = Vec::new();
    for i in 0..2048 {
        refs.push(PoolRef::new(&mut pool, i));
    }
    PoolRef::release_all(&mut pool, refs);
    assert_eq!(STACK_SIZE, pool.get_pool_size());
    let small: Pool<usize, PoolSync> = Pool::new(8);
    assert_eq!(8, small.get_max_size());
}
