use refpool::{Pool, PoolBox, PoolDefaultImpl, PoolRef};

#[derive(Default, Clone, Debug, PartialEq)]
struct Word {
    text: String,
}

impl PoolDefaultImpl for Word {}

#[test]
fn pool_size_never_exceeds_capacity_while_releasing() {
    let mut pool: Pool<usize> = Pool::new(3);
    let mut refs = Vec::new();
    for i in 0..5 {
        refs.push(PoolRef::new(&mut pool, i));
    }
    assert_eq!(0, pool.get_pool_size());
    let expected = [1, 2, 3, 3, 3];
    for (r, want) in refs.into_iter().zip(expected.iter()) {
        PoolRef::release(&mut pool, r);
        assert_eq!(*want, pool.get_pool_size());
        assert!(pool.get_pool_size() <= pool.get_max_size());
    }
    assert!(pool.is_full());
}

#[test]
fn strong_count_follows_clones_and_releases() {
    let mut pool: Pool<usize> = Pool::new(8);
    let h = PoolRef::new(&mut pool, 5);
    assert_eq!(1, PoolRef::strong_count(&pool, &h));
    let c1 = PoolRef::clone(&mut pool, &h);
    let c2 = PoolRef::clone(&mut pool, &h);
    let c3 = PoolRef::clone(&mut pool, &h);
    assert_eq!(4, PoolRef::strong_count(&pool, &h));
    PoolRef::release(&mut pool, c1);
    assert_eq!(3, PoolRef::strong_count(&pool, &h));
    PoolRef::release(&mut pool, c2);
    PoolRef::release(&mut pool, c3);
    assert_eq!(1, PoolRef::strong_count(&pool, &h));
    assert_eq!(0, pool.get_pool_size());
    PoolRef::release(&mut pool, h);
    assert_eq!(1, pool.get_pool_size());
}

#[test]
fn get_mut_only_for_a_unique_handle() {
    let mut pool: Pool<usize> = Pool::new(8);
    let h = PoolRef::new(&mut pool, 10);
    match PoolRef::get_mut(&mut pool, &h) {
        Some(v) => *v = 11,
        None => panic!("a unique handle gives its payload"),
    }
    assert_eq!(11, *PoolRef::value(&pool, &h));
    let other = PoolRef::clone(&mut pool, &h);
    assert_eq!(2, PoolRef::strong_count(&pool, &h));
    assert!(PoolRef::get_mut(&mut pool, &h).is_none());
    PoolRef::release(&mut pool, other);
    assert!(PoolRef::get_mut(&mut pool, &h).is_some());
}

#[test]
fn raw_round_trip_keeps_slot_and_payload() {
    let mut pool: Pool<usize> = Pool::new(2);
    let h = PoolRef::new(&mut pool, 99);
    let copy = PoolRef::clone(&mut pool, &h);
    let raw = PoolRef::into_raw(h);
    let back = PoolRef::from_raw(raw);
    assert!(PoolRef::ptr_eq(&back, &copy));
    assert_eq!(99, *PoolRef::value(&pool, &back));
    assert_eq!(2, PoolRef::strong_count(&pool, &back));
    PoolRef::release(&mut pool, back);
    assert_eq!(1, PoolRef::strong_count(&pool, &copy));
}

#[test]
fn null_pool_is_always_full_and_empty() {
    let mut pool: Pool<usize> = Pool::new(0);
    assert!(pool.is_full());
    assert_eq!(0, pool.get_max_size());
    let a = PoolRef::new(&mut pool, 4);
    let b = PoolRef::default(&mut pool);
    assert_eq!(4, *PoolRef::value(&pool, &a));
    assert_eq!(0, *PoolRef::value(&pool, &b));
    PoolRef::release(&mut pool, a);
    PoolRef::release(&mut pool, b);
    assert_eq!(0, pool.get_pool_size());
    assert!(pool.is_full());
    pool.fill();
    assert_eq!(0, pool.get_pool_size());
}

#[test]
fn try_unwrap_takes_a_unique_payload_and_refuses_a_shared_one() {
    let mut pool: Pool<Word> = Pool::new(4);
    let h = PoolRef::new(&mut pool, Word { text: String::from("kept") });
    let other = PoolRef::clone(&mut pool, &h);
    let h = match PoolRef::try_unwrap(&mut pool, h) {
        Ok(_) => panic!("a shared handle cannot be unwrapped"),
        Err(h) => h,
    };
    assert_eq!(2, PoolRef::strong_count(&pool, &h));
    PoolRef::release(&mut pool, other);
    let word = PoolRef::try_unwrap(&mut pool, h).ok().unwrap();
    assert_eq!("kept", word.text);
    assert_eq!(0, pool.get_pool_size());
}

#[test]
fn unwrap_or_clone_of_a_shared_handle_clones() {
    let mut pool: Pool<Word> = Pool::new(4);
    let h = PoolRef::new(&mut pool, Word { text: String::from("twice") });
    let other = PoolRef::clone(&mut pool, &h);
    let word = PoolRef::unwrap_or_clone(&mut pool, h);
    assert_eq!("twice", word.text);
    assert_eq!(1, PoolRef::strong_count(&pool, &other));
    assert_eq!("twice", PoolRef::value(&pool, &other).text);
}

#[test]
fn make_mut_on_a_unique_handle_writes_in_place() {
    let mut pool: Pool<usize> = Pool::new(4);
    let mut h = PoolRef::new(&mut pool, 1);
    let raw_before = PoolRef::into_raw(PoolRef::clone(&mut pool, &h));
    PoolRef::release(&mut pool, PoolRef::from_raw(raw_before));
    *PoolRef::make_mut(&mut pool, &mut h) = 2;
    assert_eq!(2, *PoolRef::value(&pool, &h));
    assert!(PoolRef::ptr_eq(&h, &PoolRef::from_raw(raw_before)));
}

#[test]
fn cloned_and_clone_from_copy_the_payload() {
    let mut pool: Pool<Word> = Pool::new(4);
    let source = Word { text: String::from("copy") };
    let a = PoolRef::clone_from(&mut pool, &source);
    let b = PoolRef::cloned(&mut pool, &a);
    assert!(!PoolRef::ptr_eq(&a, &b));
    assert_eq!("copy", PoolRef::value(&pool, &b).text);
    assert_eq!(1, PoolRef::strong_count(&pool, &a));
    let d = PoolRef::default(&mut pool);
    assert_eq!("", PoolRef::value(&pool, &d).text);
}

#[test]
fn fill_tops_the_free_list_up_to_capacity() {
    let mut pool: Pool<usize> = Pool::new(16);
    assert!(!pool.is_full());
    pool.fill();
    assert_eq!(16, pool.get_pool_size());
    assert!(pool.is_full());
    let h = PoolRef::new(&mut pool, 3);
    assert_eq!(15, pool.get_pool_size());
    PoolRef::release(&mut pool, h);
    assert_eq!(16, pool.get_pool_size());
    let filled: Pool<u8> = Pool::new(5).filled();
    assert_eq!(5, filled.get_pool_size());
}

#[test]
fn cast_keeps_the_capacity_and_the_free_slots() {
    let pool: Pool<u64> = Pool::new(12);
    let other: Pool<i64> = pool.cast();
    assert_eq!(12, other.get_max_size());
    assert_eq!(0, other.get_pool_size());
    let mut stocked: Pool<u64> = Pool::new(12);
    let mut refs = Vec::new();
    for i in 0..5 {
        refs.push(PoolRef::new(&mut stocked, i));
    }
    PoolRef::release_all(&mut stocked, refs);
    assert_eq!(5, stocked.get_pool_size());
    let mut cast: Pool<i64> = stocked.cast();
    assert_eq!(12, cast.get_max_size());
    assert_eq!(5, cast.get_pool_size());
    let h = PoolRef::new(&mut cast, -3);
    assert_eq!(4, cast.get_pool_size());
    assert_eq!(-3, *PoolRef::value(&cast, &h));
    let null: Pool<u64> = Pool::new(0);
    let null_cast: Pool<i64> = null.cast();
    assert_eq!(0, null_cast.get_max_size());
    assert!(null_cast.is_full());
}

#[test]
fn default_after_reuse_shows_no_residue() {
    let mut pool: Pool<Word> = Pool::new(1);
    let old = PoolRef::new(&mut pool, Word { text: String::from("residue") });
    PoolRef::release(&mut pool, old);
    assert_eq!(1, pool.get_pool_size());
    let fresh = PoolRef::default(&mut pool);
    assert_eq!("", PoolRef::value(&pool, &fresh).text);
    assert_eq!(1, PoolRef::strong_count(&pool, &fresh));
    assert_eq!(0, pool.get_pool_size());
}

#[test]
fn make_mut_on_a_shared_handle_leaves_the_other_alone() {
    let mut pool: Pool<Word> = Pool::new(4);
    let h1 = PoolRef::new(&mut pool, Word { text: String::from("a") });
    let mut h2 = PoolRef::clone(&mut pool, &h1);
    let h3 = PoolRef::clone(&mut pool, &h1);
    assert_eq!(3, PoolRef::strong_count(&pool, &h1));
    PoolRef::make_mut(&mut pool, &mut h2).text.push('b');
    assert!(!PoolRef::ptr_eq(&h1, &h2));
    assert!(PoolRef::ptr_eq(&h1, &h3));
    assert_eq!(2, PoolRef::strong_count(&pool, &h1));
    assert_eq!(1, PoolRef::strong_count(&pool, &h2));
    assert_eq!("a", PoolRef::value(&pool, &h1).text);
    assert_eq!("ab", PoolRef::value(&pool, &h2).text);
}

#[test]
fn pool_box_owns_its_slot() {
    let mut pool: Pool<Word> = Pool::new(2);
    let b = PoolBox::new(&mut pool, Word { text: String::from("box") });
    PoolBox::value_mut(&mut pool, &b).text.push('!');
    assert_eq!("box!", PoolBox::value(&pool, &b).text);
    let c = PoolBox::clone(&mut pool, &b);
    assert!(!PoolBox::ptr_eq(&b, &c));
    assert_eq!("box!", PoolBox::value(&pool, &c).text);
    PoolBox::release(&mut pool, b);
    assert_eq!(1, pool.get_pool_size());
    let word = PoolBox::into_inner(&mut pool, c);
    assert_eq!("box!", word.text);
    assert_eq!(1, pool.get_pool_size());
    let d = PoolBox::default(&mut pool);
    assert_eq!(0, pool.get_pool_size());
    assert_eq!("", PoolBox::value(&pool, &d).text);
    let raw = PoolBox::into_raw(d);
    let e = PoolBox::from_raw(raw);
    let f = PoolBox::clone_from(&mut pool, &Word { text: String::from("f") });
    assert_eq!("f", PoolBox::value(&pool, &f).text);
    PoolBox::release(&mut pool, e);
    PoolBox::release(&mut pool, f);
    assert_eq!(2, pool.get_pool_size());
}

#[test]
fn allocating_ten_thousand_keeps_a_pool_of_1024_empty_then_full() {
    let mut pool: Pool<usize> = Pool::new(1024);
    let mut refs = Vec::new();
    for _ in 0..10000 {
        refs.push(PoolRef::default(&mut pool));
        assert_eq!(0, pool.get_pool_size());
    }
    PoolRef::release_all(&mut pool, refs);
    assert_eq!(1024, pool.get_pool_size());
}
