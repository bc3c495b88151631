use zerodrop::CountedSecret;
use zerodrop::ZeroDrop;
use zerodrop::ZeroDropCow;
use zerodrop::ZeroDropDrop;

#[test]
fn zeroing_drops() {
    let mut s = ZeroDrop::new_insecure([3u8; 32]);
    s.zero_out();
    assert_eq!(s.get(), [0u8; 32].as_slice());
}

#[test]
#[should_panic(expected = "assertion failed")]
fn not_droped() {
    let s = ZeroDrop::new_insecure([3u8; 32]);
    assert!(s.get() == [0u8; 32].as_slice());
}

#[test]
fn reads_original_until_erased() {
    let mut s = ZeroDrop::new_insecure([3u8; 32]);
    assert_eq!(s.get(), [3u8; 32].as_slice());
    s.zero_out();
    assert_eq!(s.get(), [0u8; 32].as_slice());
    assert_eq!(s.get().len(), 32);
}

#[test]
fn new_box_uses_provided_allocation() {
    let mut s = ZeroDrop::new_box(vec![9u8, 8u8, 7u8]);
    assert_eq!(s.get(), [9u8, 8u8, 7u8].as_slice());
    s.zero_out();
    assert_eq!(s.get(), [0u8; 3].as_slice());
}

#[test]
fn new_copy_leaves_source_untouched() {
    let src = [3u8; 16];
    let mut s = ZeroDrop::new_copy(&src);
    assert_eq!(s.get(), src.as_slice());
    s.zero_out();
    assert_eq!(src, [3u8; 16]);
}

#[test]
fn new_zeroed_is_already_erased() {
    let s = ZeroDrop::new_zeroed(5);
    assert_eq!(s.get(), [0u8; 5].as_slice());
}

#[test]
fn write_access_changes_single_bytes() {
    let mut s = ZeroDrop::new_zeroed(4);
    s.set_byte(2, 42);
    assert_eq!(s.get(), [0u8, 0, 42, 0].as_slice());
    s.copy_from(&[1u8, 2, 3, 4]);
    assert_eq!(s.get(), [1u8, 2, 3, 4].as_slice());
}

#[test]
fn clone_is_erased_independently() {
    let s = ZeroDrop::new_insecure([3u8; 32]);
    let mut c = s.clone();
    assert_eq!(c.get(), s.get());
    c.zero_out();
    assert_eq!(s.get(), [3u8; 32].as_slice());
    assert_eq!(c.get(), [0u8; 32].as_slice());
}

#[test]
fn erasing_original_leaves_clone() {
    let mut s = ZeroDrop::new_insecure([3u8; 32]);
    let c = s.clone();
    s.zero_out();
    assert_eq!(c.get(), [3u8; 32].as_slice());
    assert_eq!(s.get(), [0u8; 32].as_slice());
}

#[test]
fn constant_time_equality() {
    let a = ZeroDrop::new_insecure([3u8; 32]);
    let b = ZeroDrop::new_insecure([3u8; 32]);
    let mut c = ZeroDrop::new_insecure([3u8; 32]);
    assert!(a.ct_eq(&b));
    c.set_byte(31, 4);
    assert!(!a.ct_eq(&c));
    let short = ZeroDrop::new_insecure([3u8; 16]);
    assert!(!a.ct_eq(&short));
    let e1 = ZeroDrop::new_box(Vec::new());
    let e2 = ZeroDrop::new_zeroed(0);
    assert!(e1.ct_eq(&e2));
}

#[test]
fn borrow_does_not_erase() {
    let arr = [3u8; 32];
    {
        let mut b = ZeroDropCow::new(&arr);
        assert_eq!(b.get(), [3u8; 32].as_slice());
        b.erase();
        assert_eq!(b.get(), [3u8; 32].as_slice());
    }
    assert_eq!(arr, [3u8; 32]);
}

#[test]
fn promotion_preserves_original() {
    let arr = [3u8; 32];
    let b = ZeroDropCow::new(&arr);
    let mut owned = b.into_boxed();
    assert_eq!(owned.get(), arr.as_slice());
    owned.zero_out();
    assert_eq!(arr, [3u8; 32]);
    assert_eq!(owned.get(), [0u8; 32].as_slice());
}

#[test]
fn promotion_of_owned_keeps_bytes() {
    let o = ZeroDropCow::new_insecure([5u8; 8]);
    let owned = o.into_boxed();
    assert_eq!(owned.get(), [5u8; 8].as_slice());
}

#[test]
fn cow_owned_copy_erases_independently() {
    let arr = [3u8; 32];
    let mut o = ZeroDropCow::new_copy(&arr);
    assert_eq!(o.get(), [3u8; 32].as_slice());
    o.erase();
    assert_eq!(o.get(), [0u8; 32].as_slice());
    assert_eq!(arr, [3u8; 32]);
}

#[test]
fn cow_clone_of_owned_is_independent() {
    let o = ZeroDropCow::new_insecure([7u8; 4]);
    let mut c = o.clone();
    c.erase();
    assert_eq!(o.get(), [7u8; 4].as_slice());
    assert_eq!(c.get(), [0u8; 4].as_slice());
}

#[test]
fn cow_clone_of_borrow_reborrows() {
    let arr = [3u8; 8];
    let b = ZeroDropCow::new(&arr);
    let c = b.clone();
    assert_eq!(c.get(), b.get());
    assert_eq!(c.get(), [3u8; 8].as_slice());
}

#[test]
fn double_teardown_advances_tally_twice() {
    let mut tally: u64 = 0;
    let secret = CountedSecret::with_key(vec![3u8; 32]);
    let b = ZeroDropDrop::new_insecure(secret);
    assert_eq!(b.get().key(), [3u8; 32].as_slice());
    b.destroy(&mut tally);
    assert_eq!(tally, 2);
}

#[test]
fn default_resource_box_tears_down_twice_too() {
    let mut tally: u64 = 5;
    let b: ZeroDropDrop<CountedSecret> = ZeroDropDrop::new_default();
    assert_eq!(b.get().key(), [0u8; 0].as_slice());
    b.destroy(&mut tally);
    assert_eq!(tally, 7);
}
