use idalloc::Id;

#[test]
fn initial_is_zero() {
    assert_eq!(0, u8::initial());
    assert_eq!(0, u16::initial());
    assert_eq!(0, u32::initial());
    assert_eq!(0, u64::initial());
    assert_eq!(0, u128::initial());
}

#[test]
fn as_usize_keeps_value() {
    assert_eq!(42, 42u8.as_usize());
    assert_eq!(42, 42u16.as_usize());
    assert_eq!(42, 42u32.as_usize());
    assert_eq!(42, 42u64.as_usize());
    assert_eq!(42, 42u128.as_usize());
    assert_eq!(255, 255u8.as_usize());
}

#[test]
fn increment_adds_one() {
    assert_eq!(1, 0u8.increment());
    assert_eq!(254, 253u8.increment());
    assert_eq!(1, 0u16.increment());
    assert_eq!(1, 0u32.increment());
    assert_eq!(1, 0u64.increment());
    assert_eq!(u128::MAX, (u128::MAX - 1).increment());
}

#[test]
fn take_leaves_sentinel() {
    let mut v = 1u32;
    assert_eq!(1u32, v.take());
    assert_eq!(u32::none(), v);
    let mut w = 9u8;
    assert_eq!(9u8, w.take());
    assert!(w.is_none());
}

#[test]
fn expect_returns_value() {
    assert_eq!(1u32, 1u32.expect("value must be defined"));
    assert_eq!(0u64, 0u64.expect("value must be defined"));
}

#[test]
fn none_is_maximum() {
    assert_eq!(u8::MAX, u8::none());
    assert_eq!(u16::MAX, u16::none());
    assert_eq!(u32::MAX, u32::none());
    assert_eq!(u64::MAX, u64::none());
    assert_eq!(u128::MAX, u128::none());
    assert!(u32::none().is_none());
    assert!(!0u32.is_none());
    assert!(!(u16::MAX - 1).is_none());
}

#[test]
fn is_below_compares_with_bound() {
    assert!(3u8.is_below(4));
    assert!(!4u8.is_below(4));
    assert!(!0u32.is_below(0));
    assert!(!u64::MAX.is_below(usize::MAX));
    assert!(!(1u128 << 100).is_below(usize::MAX));
    assert!(5u128.is_below(6));
}
