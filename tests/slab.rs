use idalloc::Id;
use idalloc::Slab;

#[test]
fn reference_sequence() {
    let mut alloc = Slab::<u32>::new();
    assert_eq!(0, alloc.next());
    assert_eq!(1, alloc.next());
    assert!(alloc.free(0));
    assert_eq!(0, alloc.next());
    assert_eq!(2, alloc.next());
    assert!(alloc.free(0));
    assert!(!alloc.free(0));
    assert!(alloc.free(1));
    assert_eq!(1, alloc.next());
    assert_eq!(0, alloc.next());
    assert_eq!(3, alloc.next());
}

#[test]
fn fresh_ids_count_up() {
    let mut alloc = Slab::<u16>::new();
    for expected in 0u16..100 {
        assert_eq!(expected, alloc.next());
    }
}

#[test]
fn freed_id_comes_back_next() {
    let mut alloc = Slab::<u64>::new();
    for _ in 0..5 {
        alloc.next();
    }
    assert!(alloc.free(3));
    assert_eq!(3, alloc.next());
    assert_eq!(5, alloc.next());
}

#[test]
fn most_recently_freed_first() {
    let mut alloc = Slab::<u32>::new();
    for _ in 0..6 {
        alloc.next();
    }
    assert!(alloc.free(1));
    assert!(alloc.free(4));
    assert_eq!(4, alloc.next());
    assert_eq!(1, alloc.next());
    assert_eq!(6, alloc.next());
}

#[test]
fn double_free_is_refused() {
    let mut alloc = Slab::<u32>::new();
    let id = alloc.next();
    assert!(!alloc.free(id + 1));
    assert!(alloc.free(id));
    assert!(!alloc.free(id));
    assert_eq!(0, alloc.next());
    assert_eq!(1, alloc.next());
    assert_eq!(2, alloc.next());
}

#[test]
fn out_of_range_free_is_refused() {
    let mut alloc = Slab::<u8>::new();
    assert!(!alloc.free(0));
    assert_eq!(0, alloc.next());
    assert_eq!(1, alloc.next());
    assert!(!alloc.free(2));
    assert!(!alloc.free(3));
    assert!(!alloc.free(u8::MAX));
    assert_eq!(2, alloc.next());
    assert_eq!(3, alloc.next());
}

#[test]
fn never_allocated_gap_free_is_refused() {
    let mut alloc = Slab::<u128>::new();
    assert_eq!(0, alloc.next());
    assert!(!alloc.free(u128::MAX));
    assert!(!alloc.free(1u128 << 70));
    assert_eq!(1, alloc.next());
}

#[test]
fn narrow_ids_run_out() {
    let mut alloc = Slab::<u8>::new();
    for expected in 0u8..255 {
        assert_eq!(Some(expected), alloc.try_next());
    }
    assert_eq!(None, alloc.try_next());
    assert_eq!(None, alloc.try_next());
}

#[test]
fn exhausted_slab_recovers_after_free() {
    let mut alloc = Slab::<u8>::new();
    for _ in 0..255 {
        alloc.next();
    }
    assert_eq!(None, alloc.try_next());
    assert!(alloc.free(254));
    assert!(alloc.free(7));
    assert!(!alloc.free(7));
    assert_eq!(Some(7), alloc.try_next());
    assert_eq!(Some(254), alloc.try_next());
    assert_eq!(None, alloc.try_next());
}

#[test]
fn sentinel_is_never_handed_out() {
    let mut alloc = Slab::<u8>::new();
    for _ in 0..255 {
        let id = alloc.next();
        assert!(!id.is_none());
    }
    for id in 0u8..255 {
        assert!(alloc.free(id));
    }
    while let Some(id) = alloc.try_next() {
        assert!(!id.is_none());
    }
}

#[test]
fn default_is_empty() {
    let mut alloc: Slab<u32> = Slab::default();
    assert!(!alloc.free(0));
    assert_eq!(0, alloc.next());
}
