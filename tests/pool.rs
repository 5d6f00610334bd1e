use std::sync::atomic::{AtomicUsize, Ordering};

use refpool::{Pool, PoolDefaultImpl, PoolRef};

struct DropTest<'a> {
    counter: &'a AtomicUsize,
}

impl<'a> DropTest<'a> {
    fn new(counter: &'a AtomicUsize) -> Self {
        counter.fetch_add(1, Ordering::Relaxed);
        DropTest { counter }
    }
}

impl<'a> Drop for DropTest<'a> {
    fn drop(&mut self) {
        self.counter.fetch_sub(1, Ordering::Relaxed);
    }
}

fn fill_drop(pool_size: usize, alloc_size: usize) {
    let counter = AtomicUsize::new(0);
    let mut pool: Pool<DropTest<'_>> = Pool::new(pool_size);
    {
        let mut vec = Vec::new();
        for _ in 0..alloc_size {
            vec.push(PoolRef::new(&mut pool, DropTest::new(&counter)));
        }
        assert_eq!(alloc_size, counter.load(Ordering::SeqCst));
        PoolRef::release_all(&mut pool, vec);
    }
    assert_eq!(0, counter.load(Ordering::SeqCst));
}

#[test]
fn dropping_sized() {
    fill_drop(1024, 2048);
}

#[test]
fn dropping_null() {
    fill_drop(0, 128);
}

fn clone_all(pool: &mut Pool<usize>, refs: &[PoolRef<usize>]) -> Vec<PoolRef<usize>> {
    let mut out = Vec::new();
    for r in refs {
        out.push(PoolRef::clone(pool, r));
    }
    out
}

fn assert_same_values(pool: &Pool<usize>, left: &[PoolRef<usize>], right: &[PoolRef<usize>]) {
    assert_eq!(left.len(), right.len());
    for (l, r) in left.iter().zip(right.iter()) {
        assert_eq!(PoolRef::value(pool, l), PoolRef::value(pool, r));
    }
}

#[test]
fn allocate_and_deallocate_a_bit() {
    let mut pool: Pool<usize> = Pool::new(1024);
    assert_eq!(0, pool.get_pool_size());
    let mut refs: Vec<_> = Vec::new();
    for _ in 0..10000 {
        refs.push(PoolRef::default(&mut pool));
    }
    assert_eq!(0, pool.get_pool_size());
    PoolRef::release_all(&mut pool, std::mem::take(&mut refs));
    assert_eq!(1024, pool.get_pool_size());
    for _ in 0..10000 {
        refs.push(PoolRef::default(&mut pool));
    }
    assert_eq!(0, pool.get_pool_size());
    let refs2 = clone_all(&mut pool, &refs);
    assert_same_values(&pool, &refs, &refs2);
    for (left, right) in refs.iter().zip(refs2.iter()) {
        assert!(PoolRef::ptr_eq(left, right));
    }
    PoolRef::release_all(&mut pool, refs);
    assert_eq!(0, pool.get_pool_size());
    PoolRef::release_all(&mut pool, refs2);
    assert_eq!(1024, pool.get_pool_size());
}

#[test]
fn null_pool_antics() {
    let mut pool: Pool<usize> = Pool::new(0);
    assert_eq!(0, pool.get_pool_size());
    let mut refs: Vec<_> = Vec::new();
    for _ in 0..10000 {
        refs.push(PoolRef::default(&mut pool));
    }
    assert_eq!(0, pool.get_pool_size());
    PoolRef::release_all(&mut pool, std::mem::take(&mut refs));
    assert_eq!(0, pool.get_pool_size());
    for _ in 0..10000 {
        refs.push(PoolRef::default(&mut pool));
    }
    assert_eq!(0, pool.get_pool_size());
    let refs2 = clone_all(&mut pool, &refs);
    assert_same_values(&pool, &refs, &refs2);
    for (left, right) in refs.iter().zip(refs2.iter()) {
        assert!(PoolRef::ptr_eq(left, right));
    }
    PoolRef::release_all(&mut pool, refs);
    assert_eq!(0, pool.get_pool_size());
    PoolRef::release_all(&mut pool, refs2);
    assert_eq!(0, pool.get_pool_size());
}

#[test]
fn unwrap_or_clone() {
    let mut pool: Pool<usize> = Pool::new(1024);
    let val = PoolRef::new(&mut pool, 1337);
    let unwrapped = PoolRef::unwrap_or_clone(&mut pool, val);
    assert_eq!(1337, unwrapped);
}

#[derive(Default, Clone, Debug, PartialEq)]
struct Counted {
    n: u64,
}

impl PoolDefaultImpl for Counted {}

#[test]
fn released_slot_is_reused_for_a_new_value() {
    let mut pool: Pool<usize> = Pool::new(1);
    let r1 = PoolRef::default(&mut pool);
    assert_eq!(0, *PoolRef::value(&pool, &r1));
    let raw1 = PoolRef::into_raw(r1);
    PoolRef::release(&mut pool, PoolRef::from_raw(raw1));
    assert_eq!(1, pool.get_pool_size());
    let r2 = PoolRef::new(&mut pool, 31337);
    assert_eq!(0, pool.get_pool_size());
    assert_eq!(31337, *PoolRef::value(&pool, &r2));
    assert_eq!(raw1, PoolRef::into_raw(r2));
}

#[test]
fn make_mut_copies_a_shared_payload() {
    let mut pool: Pool<Counted> = Pool::new(4);
    let h1 = PoolRef::new(&mut pool, Counted { n: 7 });
    let mut h2 = PoolRef::clone(&mut pool, &h1);
    assert_eq!(2, PoolRef::strong_count(&pool, &h1));
    PoolRef::make_mut(&mut pool, &mut h2).n = 8;
    assert!(!PoolRef::ptr_eq(&h1, &h2));
    assert_eq!(7, PoolRef::value(&pool, &h1).n);
    assert_eq!(8, PoolRef::value(&pool, &h2).n);
    assert_eq!(1, PoolRef::strong_count(&pool, &h1));
    assert_eq!(1, PoolRef::strong_count(&pool, &h2));
}
