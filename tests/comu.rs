use wyz::comu::{Address, Const, Frozen, Mut, Mutability, NullPtrError};

#[test]
fn new_then_export_gives_the_value() {
    let a = Address::<Mut, u32>::new(0x1000);
    assert_eq!(a.to_const(), 0x1000);
    assert_eq!(a.to_mut(), 0x1000);
    assert_eq!(a.into_inner(), 0x1000);
    let c = Address::<Frozen<Const>, u8>::new(0xdead_beef);
    assert_eq!(c.to_const(), 0xdead_beef);
}

#[test]
fn try_new_rejects_null_for_every_marker() {
    assert!(matches!(Address::<Const, i32>::try_new(0), Err(NullPtrError)));
    assert!(matches!(Address::<Mut, i32>::try_new(0), Err(NullPtrError)));
    assert!(matches!(Address::<Frozen<Mut>, u64>::try_new(0), Err(NullPtrError)));
    assert!(matches!(
        Address::<Frozen<Frozen<Const>>, ()>::try_new(0),
        Err(NullPtrError)
    ));
}

#[test]
fn try_new_accepts_non_null() {
    let a = Address::<Const, i32>::try_new(8).ok().unwrap();
    assert_eq!(a.to_const(), 8);
    let b = Address::<Mut, i32>::try_new(usize::MAX).ok().unwrap();
    assert_eq!(b.to_mut(), usize::MAX);
}

#[test]
fn null_from_integer_pointer_is_an_error_not_a_panic() {
    let r = Address::<Const, i32>::try_new(0);
    assert!(r.is_err());
    assert_eq!(r.err(), Some(NullPtrError));
    assert_eq!(NullPtrError.message(), "wyz::Address cannot contain a null pointer");
}

#[test]
fn freeze_then_thaw_restores_the_address() {
    let a = Address::<Mut, i64>::new(0x2000);
    let f = a.freeze();
    assert_eq!(f.to_const(), 0x2000);
    let back = Address::<Mut, i64>::thaw(f);
    assert!(back == a);
    assert_eq!(back.to_mut(), 0x2000);
}

#[test]
fn freeze_and_thaw_three_deep() {
    let a = Address::<Const, u8>::new(0x30);
    let f3 = a.freeze().freeze().freeze();
    assert_eq!(f3.to_const(), 0x30);
    let f2 = Address::<Frozen<Frozen<Const>>, u8>::thaw(f3);
    let f1 = Address::<Frozen<Const>, u8>::thaw(f2);
    let back = Address::<Const, u8>::thaw(f1);
    assert!(back == a);
}

#[test]
fn writable_reference_round_trip_through_freeze() {
    let mut x: i32 = 7;
    let raw = std::ptr::from_mut(&mut x) as usize;
    let a = Address::<Mut, i32>::new(raw);
    let f = a.freeze();
    assert_eq!(f.to_const(), raw);
    let a2 = Address::<Mut, i32>::thaw(f);
    assert_eq!(a2.to_mut(), raw);
    x = 8;
    assert_eq!(x, 8);
    assert_eq!(std::ptr::from_mut(&mut x) as usize, a2.to_mut());
}

#[test]
fn nesting_depth_counts_freezes() {
    assert_eq!(Const::peano_number(), 0);
    assert_eq!(Mut::peano_number(), 0);
    assert_eq!(<Frozen<Mut>>::peano_number(), 1);
    assert_eq!(<Frozen<Frozen<Frozen<Const>>>>::peano_number(), 3);
}

#[test]
fn write_permission_survives_freezing() {
    assert!(Mut::contains_mutability());
    assert!(<Frozen<Mut>>::contains_mutability());
    assert!(<Frozen<Frozen<Mut>>>::contains_mutability());
    assert!(!Const::contains_mutability());
    assert!(!<Frozen<Const>>::contains_mutability());
    assert!(!<Frozen<Frozen<Const>>>::contains_mutability());
}

#[test]
fn render_tag_is_kept_through_freezing() {
    assert_eq!(Const::render(), "read-only");
    assert_eq!(Mut::render(), "writable");
    assert_eq!(<Frozen<Frozen<Mut>>>::render(), "writable");
    assert_eq!(<Frozen<Const>>::render(), "read-only");
}

#[test]
fn marker_freeze_and_thaw() {
    let f = Mut::singleton().freeze();
    assert_eq!(f, <Frozen<Mut>>::singleton());
    assert_eq!(Mut::thaw(f), Mut);
}

#[test]
fn equality_ignores_marker_and_referent() {
    let a = Address::<Mut, i32>::new(0x1000);
    let b = Address::<Const, u8>::new(0x1000);
    let c = Address::<Frozen<Mut>, i32>::new(0x1000);
    let d = Address::<Const, i32>::new(0x1004);
    assert!(a == b);
    assert!(b == c);
    assert!(a != d);
}

#[test]
fn order_follows_the_numeric_value() {
    let a = Address::<Mut, i32>::new(0x1000);
    let b = Address::<Const, u8>::new(0x2000);
    assert!(a < b);
    assert!(b > a);
    assert_eq!(a.partial_cmp(&b), Some(std::cmp::Ordering::Less));
    assert_eq!(b.partial_cmp(&a), Some(std::cmp::Ordering::Greater));
    let c = Address::<Frozen<Const>, u16>::new(0x1000);
    assert_eq!(a.partial_cmp(&c), Some(std::cmp::Ordering::Equal));
}

#[test]
fn offset_by_zero_is_a_no_op() {
    let a = Address::<Mut, u32>::new(0x1000);
    assert!(a.offset(0) == a);
    assert!(a.wrapping_offset(0) == a);
}

#[test]
fn offset_counts_elements() {
    let a = Address::<Mut, u32>::new(0x1000);
    assert_eq!(a.offset(3).to_const(), 0x100c);
    assert_eq!(a.offset(-2).to_const(), 0x0ff8);
    assert_eq!(a.offset(5).offset(-5).to_const(), 0x1000);
    let b = Address::<Const, u8>::new(0x10);
    assert_eq!(b.offset(7).to_const(), 0x17);
}

#[test]
fn wrapping_offset_wraps_around() {
    let a = Address::<Const, u16>::new(4);
    let w = a.wrapping_offset(-3);
    assert_eq!(w.to_const(), usize::MAX - 1);
    assert!(w.wrapping_offset(3) == a);
    let b = Address::<Mut, u64>::new(0x40);
    assert_eq!(b.wrapping_offset(-4).to_const(), 0x20);
    assert!(b.wrapping_offset(isize::MAX).wrapping_offset(-isize::MAX) == b);
}

#[test]
fn cast_keeps_the_address() {
    let a = Address::<Mut, u32>::new(0x1000);
    let b = a.cast::<u8>();
    assert_eq!(b.to_mut(), 0x1000);
    assert_eq!(b.offset(1).to_const(), 0x1001);
}

#[test]
fn demote_then_reclassify_keeps_the_address() {
    let a = Address::<Mut, i32>::new(0x5000);
    let c = a.immut();
    assert_eq!(c.to_const(), 0x5000);
    let m = c.assert_mut();
    assert!(m == a);
    assert_eq!(m.to_mut(), a.to_mut());
}

#[test]
fn clone_is_the_same_address() {
    let a = Address::<Frozen<Mut>, i32>::new(0x70);
    let b = a.clone();
    assert!(a == b);
}

#[test]
fn dangling_is_the_alignment() {
    assert_eq!(Address::<Const, u32>::dangling().to_const(), std::mem::align_of::<u32>());
    assert_eq!(Address::<Mut, u64>::dangling().to_mut(), std::mem::align_of::<u64>());
    assert_eq!(Address::<Frozen<Mut>, u8>::dangling().to_const(), 1);
}

#[test]
fn frozen_singleton_thaws_to_the_inner_singleton() {
    let f = <Frozen<Frozen<Const>>>::singleton();
    assert_eq!(<Frozen<Const>>::thaw(f), <Frozen<Const>>::singleton());
    assert_eq!(Const::thaw(<Frozen<Const>>::singleton()), Const);
}
