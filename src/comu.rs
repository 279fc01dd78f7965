//! Permission markers and the address type that carries one.
use vstd::prelude::*;

use core::marker::PhantomData;

use vstd::arithmetic::div_mod::{lemma_add_mod_noop_right, lemma_mod_add_multiples_vanish, lemma_mul_mod_noop_left, lemma_small_mod};
use vstd::layout::{align_of, layout_for_type_is_valid, size_of};
use vstd::std_specs::cmp::{PartialEqSpec, PartialOrdSpec};

use crate::seal::Sealed;

verus! {

/// The read-only marker.
#[derive(Clone, Copy, Debug, Default, PartialEq, Eq, Hash, PartialOrd, Ord)]
pub struct Const;

/// The writable marker.
#[derive(Clone, Copy, Debug, Default, PartialEq, Eq, Hash, PartialOrd, Ord)]
pub struct Mut;

/// A temporarily read-only layer over another marker, removable by thawing.
#[derive(Clone, Copy, Debug, Default, PartialEq, Eq, Hash, PartialOrd, Ord)]
pub struct Frozen<Inner> {
    inner: Inner,
}

impl<Inner> Frozen<Inner> {
    /// The marker under the outermost `Frozen` layer.
    pub closed spec fn layer(self) -> Inner {
        self.inner
    }
}

/// The shape of a marker type: a base permission under some number of
/// `Frozen` layers.
pub enum MarkerShape {
    /// The `Const` marker.
    ReadOnly,
    /// The `Mut` marker.
    Writable,
    /// A `Frozen` layer over another marker.
    Frozen(Box<MarkerShape>),
}

/// The number of `Frozen` layers over the base permission.
pub open spec fn shape_depth(s: MarkerShape) -> nat
    decreases s,
{
    match s {
        MarkerShape::Frozen(inner) => 1 + shape_depth(*inner),
        _ => 0,
    }
}

/// Whether the base permission under all `Frozen` layers is writable.
pub open spec fn shape_writable(s: MarkerShape) -> bool
    decreases s,
{
    match s {
        MarkerShape::ReadOnly => false,
        MarkerShape::Writable => true,
        MarkerShape::Frozen(inner) => shape_writable(*inner),
    }
}

/// The descriptive tag of the base permission.
pub open spec fn shape_render(s: MarkerShape) -> Seq<char>
    decreases s,
{
    match s {
        MarkerShape::ReadOnly => "read-only"@,
        MarkerShape::Writable => "writable"@,
        MarkerShape::Frozen(inner) => shape_render(*inner),
    }
}

/// The shape frozen `n` times.
pub open spec fn freeze_shape_n(s: MarkerShape, n: nat) -> MarkerShape
    decreases n,
{
    if n == 0 {
        s
    } else {
        MarkerShape::Frozen(Box::new(freeze_shape_n(s, (n - 1) as nat)))
    }
}

/// The shape with its outermost `Frozen` layer removed.
pub open spec fn thaw_shape(s: MarkerShape) -> MarkerShape {
    match s {
        MarkerShape::Frozen(inner) => *inner,
        _ => s,
    }
}

/// The shape thawed `n` times.
pub open spec fn thaw_shape_n(s: MarkerShape, n: nat) -> MarkerShape
    decreases n,
{
    if n == 0 {
        s
    } else {
        thaw_shape_n(thaw_shape(s), (n - 1) as nat)
    }
}

/// Generalised write permission, as a closed family of marker types.
pub trait Mutability: 'static + Copy + Sized + Sealed {
    /// The shape of this marker type.
    spec fn spec_shape() -> MarkerShape;

    /// The canonical value of the marker.
    spec fn spec_singleton() -> Self;

    /// Whether this marker ultimately carries write permission.
    fn contains_mutability() -> (r: bool)
        ensures
            r == shape_writable(Self::spec_shape()),
    ;

    /// Counts the `Frozen` layers over the base marker.
    fn peano_number() -> (r: usize)
        requires
            shape_depth(Self::spec_shape()) <= usize::MAX,
        ensures
            r == shape_depth(Self::spec_shape()),
    ;

    /// The descriptive tag of the base marker, kept through `Frozen` layers.
    fn render() -> (r: &'static str)
        ensures
            r@ == shape_render(Self::spec_shape()),
    ;

    /// Produces the canonical value of the marker.
    fn singleton() -> (r: Self)
        ensures
            r == Self::spec_singleton(),
    ;

    /// Wraps the marker in one more `Frozen` layer.
    fn freeze(self) -> (r: Frozen<Self>)
        ensures
            r.layer() == self,
    {
        Frozen { inner: self }
    }

    /// Removes one `Frozen` layer.
    fn thaw(f: Frozen<Self>) -> (r: Self)
        ensures
            r == f.layer(),
    {
        f.inner
    }
}

impl Sealed for Const {}

impl Mutability for Const {
    open spec fn spec_shape() -> MarkerShape {
        MarkerShape::ReadOnly
    }

    open spec fn spec_singleton() -> Self {
        Const
    }

    fn contains_mutability() -> (r: bool) {
        false
    }

    fn peano_number() -> (r: usize) {
        0
    }

    fn render() -> (r: &'static str) {
        "read-only"
    }

    fn singleton() -> (r: Self) {
        Const
    }
}

impl Sealed for Mut {}

impl Mutability for Mut {
    open spec fn spec_shape() -> MarkerShape {
        MarkerShape::Writable
    }

    open spec fn spec_singleton() -> Self {
        Mut
    }

    fn contains_mutability() -> (r: bool) {
        true
    }

    fn peano_number() -> (r: usize) {
        0
    }

    fn render() -> (r: &'static str) {
        "writable"
    }

    fn singleton() -> (r: Self) {
        Mut
    }
}

impl<Inner: Mutability> Sealed for Frozen<Inner> {}

impl<Inner: Mutability> Mutability for Frozen<Inner> {
    open spec fn spec_shape() -> MarkerShape {
        MarkerShape::Frozen(Box::new(Inner::spec_shape()))
    }

    closed spec fn spec_singleton() -> Self {
        Frozen { inner: Inner::spec_singleton() }
    }

    fn contains_mutability() -> (r: bool) {
        Inner::contains_mutability()
    }

    fn peano_number() -> (r: usize) {
        1 + Inner::peano_number()
    }

    fn render() -> (r: &'static str) {
        Inner::render()
    }

    fn singleton() -> (r: Self) {
        Frozen { inner: Inner::singleton() }
    }
}

/// The number of distinct `usize` values.
pub open spec fn word_range() -> int {
    usize::MAX as int + 1
}

/// Reduces an integer to the `usize` it wraps around to.
pub open spec fn wrap_word(x: int) -> usize {
    (x % word_range()) as usize
}

/// The address reached by moving `count` elements of `size` bytes from `addr`.
pub open spec fn shifted(addr: usize, count: isize, size: nat) -> int {
    addr + count * size
}

/// A non-null address of a `T`, carrying the permission marker `M`.
///
/// The address is held as its numeric value; the marker and the referent type
/// exist only in the type.
#[derive(Hash, Ord)]
pub struct Address<M: Mutability, T> {
    addr: usize,
    comu: M,
    referent: PhantomData<T>,
}

impl<M: Mutability, T> View for Address<M, T> {
    type V = usize;

    /// The numeric address value.
    closed spec fn view(&self) -> usize {
        self.addr
    }
}

impl<M: Mutability, T> Address<M, T> {
    #[verifier::type_invariant]
    spec fn non_null(self) -> bool {
        self.addr != 0
    }

    /// The permission marker carried by the address.
    pub closed spec fn marker(self) -> M {
        self.comu
    }

    /// The address `addr` with the canonical marker.
    pub closed spec fn spec_new(addr: usize) -> Self {
        Address { addr, comu: M::spec_singleton(), referent: PhantomData }
    }

    /// The same address under one more `Frozen` layer.
    pub closed spec fn spec_freeze(self) -> Address<Frozen<M>, T> {
        Address { addr: self.addr, comu: Frozen { inner: self.comu }, referent: PhantomData }
    }

    /// The same address with its outermost `Frozen` layer removed.
    pub closed spec fn spec_thaw(a: Address<Frozen<M>, T>) -> Self {
        Address { addr: a.addr, comu: a.comu.inner, referent: PhantomData }
    }

    /// The same address and marker over another referent type.
    pub closed spec fn spec_cast<U>(self) -> Address<M, U> {
        Address { addr: self.addr, comu: self.comu, referent: PhantomData }
    }

    /// The address moved by `count` elements, in exact arithmetic.
    pub closed spec fn spec_offset(self, count: isize) -> Self {
        Address {
            addr: shifted(self.addr, count, size_of::<T>()) as usize,
            comu: self.comu,
            referent: PhantomData,
        }
    }

    /// The address moved by `count` elements, wrapping around the address space.
    pub closed spec fn spec_wrapping_offset(self, count: isize) -> Self {
        Address {
            addr: wrap_word(shifted(self.addr, count, size_of::<T>())),
            comu: self.comu,
            referent: PhantomData,
        }
    }

    /// Builds an address over a non-null value.
    ///
    /// The caller chooses the marker, and is responsible for it matching the
    /// real permission over the referent.
    pub fn new(addr: usize) -> (r: Self)
        requires
            addr != 0,
        ensures
            r == Self::spec_new(addr),
            r@ == addr,
    {
        Address { addr, comu: M::singleton(), referent: PhantomData }
    }

    /// The well-aligned, non-null address that stands for no object: the
    /// alignment of `T`.
    pub fn dangling() -> (r: Self)
        ensures
            r == Self::spec_new(align_of::<T>() as usize),
            r@ == align_of::<T>(),
    {
        layout_for_type_is_valid::<T>();
        Self::new(core::mem::align_of::<T>())
    }

    /// Builds an address over a value that may be null, failing on null.
    pub fn try_new(addr: usize) -> (r: Result<Self, NullPtrError>)
        ensures
            r is Err <==> addr == 0,
            r matches Ok(a) ==> a == Self::spec_new(addr) && a@ == addr,
    {
        if addr == 0 {
            Err(NullPtrError)
        } else {
            Ok(Self::new(addr))
        }
    }

    /// Freezes the address so that it is read-only until thawed.
    pub fn freeze(self) -> (r: Address<Frozen<M>, T>)
        ensures
            r == self.spec_freeze(),
            r@ == self@,
    {
        proof {
            use_type_invariant(&self);
        }
        Address { addr: self.addr, comu: self.comu.freeze(), referent: PhantomData }
    }

    /// Thaws a frozen address back to the permission it was frozen from.
    pub fn thaw(a: Address<Frozen<M>, T>) -> (r: Self)
        ensures
            r == Self::spec_thaw(a),
            r@ == a@,
    {
        proof {
            use_type_invariant(&a);
        }
        Address { addr: a.addr, comu: M::thaw(a.comu), referent: PhantomData }
    }

    /// The numeric address value, which is never null.
    pub fn into_inner(self) -> (r: usize)
        ensures
            r == self@,
            r != 0,
    {
        proof {
            use_type_invariant(&self);
        }
        self.addr
    }

    /// Moves the address by `count` elements of `T`.
    ///
    /// The moved address must stay within the address space and must not be
    /// null.
    pub fn offset(self, count: isize) -> (r: Self)
        requires
            0 < shifted(self@, count, size_of::<T>()) <= usize::MAX,
        ensures
            r == self.spec_offset(count),
            r@ == shifted(self@, count, size_of::<T>()),
    {
        let size = core::mem::size_of::<T>();
        let moved: i128 = self.addr as i128 + (count as i128) * (size as i128);
        Address { addr: moved as usize, comu: self.comu, referent: PhantomData }
    }

    /// Moves the address by `count` elements of `T`, wrapping around the
    /// address space.
    ///
    /// The moved address must not be null.
    pub fn wrapping_offset(self, count: isize) -> (r: Self)
        requires
            wrap_word(shifted(self@, count, size_of::<T>())) != 0,
        ensures
            r == self.spec_wrapping_offset(count),
            r@ == wrap_word(shifted(self@, count, size_of::<T>())),
    {
        let size = core::mem::size_of::<T>();
        let count_word = 0usize.wrapping_add_signed(count);
        let step = count_word.wrapping_mul(size);
        let moved = self.addr.wrapping_add(step);
        proof {
            let m = word_range();
            let s = size as int;
            if count >= 0 {
                lemma_small_mod(count as nat, m as nat);
            } else {
                lemma_mod_add_multiples_vanish(count as int, m);
                lemma_small_mod((m + count) as nat, m as nat);
            }
            assert(count_word as int == count as int % m);
            assert(step as int == (count_word as int * s) % m);
            lemma_mul_mod_noop_left(count as int, s, m);
            assert(step as int == (count as int * s) % m);
            assert(moved as int == (self.addr as int + step as int) % m);
            lemma_add_mod_noop_right(self.addr as int, count as int * s, m);
        }
        Address { addr: moved, comu: self.comu, referent: PhantomData }
    }

    /// The address as a value for read-only use; available under every marker.
    pub fn to_const(self) -> (r: usize)
        ensures
            r == self@,
    {
        self.addr
    }

    /// Changes the referent type, keeping the address and the marker.
    pub fn cast<U>(self) -> (r: Address<M, U>)
        ensures
            r == self.spec_cast::<U>(),
            r@ == self@,
    {
        proof {
            use_type_invariant(&self);
        }
        Address { addr: self.addr, comu: self.comu, referent: PhantomData }
    }
}

impl<T> Address<Const, T> {
    /// The read-only address with the writable marker.
    pub closed spec fn spec_assert_mut(self) -> Address<Mut, T> {
        Address { addr: self.addr, comu: Mut, referent: PhantomData }
    }

    /// Reclassifies a read-only address as writable.
    ///
    /// Nothing here can check the claim: call it only on an address that was
    /// created writable and later demoted by `immut`, with no read-only alias
    /// still in use. Prefer `freeze` and `thaw` for temporary demotion.
    pub fn assert_mut(self) -> (r: Address<Mut, T>)
        ensures
            r == self.spec_assert_mut(),
            r@ == self@,
    {
        proof {
            use_type_invariant(&self);
        }
        Address { addr: self.addr, comu: Mut, referent: PhantomData }
    }
}

impl<T> Address<Mut, T> {
    /// The writable address with the read-only marker.
    pub closed spec fn spec_immut(self) -> Address<Const, T> {
        Address { addr: self.addr, comu: Const, referent: PhantomData }
    }

    /// The address as a value for writing; only a writable address gives one.
    pub fn to_mut(self) -> (r: usize)
        ensures
            r == self@,
    {
        self.addr
    }

    /// Permanently demotes a writable address to read-only.
    pub fn immut(self) -> (r: Address<Const, T>)
        ensures
            r == self.spec_immut(),
            r@ == self@,
    {
        proof {
            use_type_invariant(&self);
        }
        Address { addr: self.addr, comu: Const, referent: PhantomData }
    }
}

impl<M: Mutability, T> Clone for Address<M, T> {
    fn clone(&self) -> (r: Self)
        ensures
            r == *self,
    {
        *self
    }
}

impl<M: Mutability, T> Copy for Address<M, T> {}

/// The order of two numeric address values.
pub open spec fn address_order(a: usize, b: usize) -> core::cmp::Ordering {
    if a < b {
        core::cmp::Ordering::Less
    } else if a > b {
        core::cmp::Ordering::Greater
    } else {
        core::cmp::Ordering::Equal
    }
}

impl<M1: Mutability, M2: Mutability, T1, T2> PartialEq<Address<M2, T2>> for Address<M1, T1> {
    /// Two addresses are equal when their numeric values are, whatever their
    /// markers and referent types.
    fn eq(&self, other: &Address<M2, T2>) -> (r: bool)
        ensures
            r == (self@ == other@),
    {
        self.addr == other.addr
    }
}

impl<M1: Mutability, M2: Mutability, T1, T2> vstd::std_specs::cmp::PartialEqSpecImpl<Address<M2, T2>> for Address<M1, T1> {
    open spec fn obeys_eq_spec() -> bool {
        true
    }

    open spec fn eq_spec(&self, other: &Address<M2, T2>) -> bool {
        self@ == other@
    }
}

impl<M: Mutability, T> Eq for Address<M, T> {}

impl<M1: Mutability, M2: Mutability, T1, T2> PartialOrd<Address<M2, T2>> for Address<M1, T1> {
    /// Orders addresses by their numeric values; the order is total.
    fn partial_cmp(&self, other: &Address<M2, T2>) -> (r: Option<core::cmp::Ordering>)
        ensures
            r == Some(address_order(self@, other@)),
    {
        if self.addr < other.addr {
            Some(core::cmp::Ordering::Less)
        } else if self.addr > other.addr {
            Some(core::cmp::Ordering::Greater)
        } else {
            Some(core::cmp::Ordering::Equal)
        }
    }
}

impl<M1: Mutability, M2: Mutability, T1, T2> vstd::std_specs::cmp::PartialOrdSpecImpl<Address<M2, T2>> for Address<M1, T1> {
    open spec fn obeys_partial_cmp_spec() -> bool {
        true
    }

    open spec fn partial_cmp_spec(&self, other: &Address<M2, T2>) -> Option<core::cmp::Ordering> {
        Some(address_order(self@, other@))
    }
}

/// The failure to build an `Address` over a null value.
#[derive(Clone, Copy, Debug, PartialEq, Eq, Hash, PartialOrd, Ord, Structural)]
pub struct NullPtrError;

impl NullPtrError {
    /// The text that describes the failure.
    pub fn message(&self) -> (r: &'static str)
        ensures
            r@ == "wyz::Address cannot contain a null pointer"@,
    {
        "wyz::Address cannot contain a null pointer"
    }
}

/// Freezing a marker type adds one layer over its shape, and the base
/// markers are `ReadOnly` and `Writable` with no layer.
pub proof fn law_marker_shapes<M: Mutability>()
    ensures
        Frozen::<M>::spec_shape() == MarkerShape::Frozen(Box::new(M::spec_shape())),
        shape_depth(Frozen::<M>::spec_shape()) == shape_depth(M::spec_shape()) + 1,
        shape_writable(Frozen::<M>::spec_shape()) == shape_writable(M::spec_shape()),
        shape_render(Frozen::<M>::spec_shape()) == shape_render(M::spec_shape()),
        Const::spec_shape() == MarkerShape::ReadOnly,
        Mut::spec_shape() == MarkerShape::Writable,
{
}

/// The canonical value of a frozen marker is the canonical value of the
/// marker under it, frozen.
pub proof fn law_frozen_singleton<M: Mutability>()
    ensures
        Frozen::<M>::spec_singleton().layer() == M::spec_singleton(),
{
}

/// Freezing a marker `n` times adds `n` to its depth and keeps its write
/// permission and tag; thawing it `n` times gives it back. A base marker
/// frozen `n` times has depth `n`, and is writable exactly when the base is
/// `Writable`.
pub proof fn law_freeze_n(s: MarkerShape, n: nat)
    ensures
        shape_depth(freeze_shape_n(s, n)) == shape_depth(s) + n,
        shape_writable(freeze_shape_n(s, n)) == shape_writable(s),
        shape_render(freeze_shape_n(s, n)) == shape_render(s),
        thaw_shape_n(freeze_shape_n(s, n), n) == s,
        shape_depth(freeze_shape_n(MarkerShape::ReadOnly, n)) == n,
        shape_depth(freeze_shape_n(MarkerShape::Writable, n)) == n,
        !shape_writable(freeze_shape_n(MarkerShape::ReadOnly, n)),
        shape_writable(freeze_shape_n(MarkerShape::Writable, n)),
    decreases n,
{
    if n > 0 {
        law_freeze_n(s, (n - 1) as nat);
        law_freeze_n(MarkerShape::ReadOnly, (n - 1) as nat);
        law_freeze_n(MarkerShape::Writable, (n - 1) as nat);
        assert(thaw_shape(freeze_shape_n(s, n)) == freeze_shape_n(s, (n - 1) as nat));
    }
}

/// Building an address over a non-null value and reading it back gives that
/// value.
pub proof fn law_new_round_trip<M: Mutability, T>(p: usize)
    requires
        p != 0,
    ensures
        Address::<M, T>::spec_new(p)@ == p,
{
}

/// Thawing a frozen address gives back exactly the address that was frozen,
/// at every depth, and freezing keeps the numeric value.
pub proof fn law_freeze_thaw<M: Mutability, T>(a: Address<M, T>)
    ensures
        Address::<M, T>::spec_thaw(a.spec_freeze()) == a,
        a.spec_freeze()@ == a@,
        a.spec_freeze().marker().layer() == a.marker(),
{
}

/// Equality and order of addresses depend on the numeric values alone, not
/// on markers or referent types.
pub proof fn law_compare_by_value<M1: Mutability, M2: Mutability, T1, T2>(
    a: Address<M1, T1>,
    b: Address<M2, T2>,
)
    ensures
        a.eq_spec(&b) == (a@ == b@),
        a.partial_cmp_spec(&b) == Some(address_order(a@, b@)),
        a@ < b@ ==> a.partial_cmp_spec(&b) == Some(core::cmp::Ordering::Less),
{
}

/// Moving by zero elements leaves the address as it is.
pub proof fn law_offset_zero<M: Mutability, T>(a: Address<M, T>)
    ensures
        a.spec_offset(0) == a,
        a.spec_wrapping_offset(0) == a,
{
    lemma_small_mod(a.addr as nat, word_range() as nat);
}

/// Moving by `k` elements and then by `-k` gives back the address.
pub proof fn law_offset_round_trip<M: Mutability, T>(a: Address<M, T>, k: isize)
    requires
        k > isize::MIN,
        0 < shifted(a@, k, size_of::<T>()) <= usize::MAX,
    ensures
        a.spec_offset(k).spec_offset((-k) as isize) == a,
{
    let s = size_of::<T>() as int;
    assert((a.addr + k * s) + (-k) * s == a.addr) by (nonlinear_arith);
}

/// Moving by `k` elements and then by `-k`, wrapping, gives back the address.
pub proof fn law_wrapping_offset_round_trip<M: Mutability, T>(a: Address<M, T>, k: isize)
    requires
        k > isize::MIN,
    ensures
        a.spec_wrapping_offset(k).spec_wrapping_offset((-k) as isize) == a,
{
    let m = word_range();
    let s = size_of::<T>() as int;
    let x = a.addr + k * s;
    let back = (-k) * s;
    vstd::arithmetic::div_mod::lemma_add_mod_noop(x, back, m);
    vstd::arithmetic::div_mod::lemma_mod_twice(x, m);
    lemma_add_mod_noop_right(back, x, m);
    assert(x + back == a.addr) by (nonlinear_arith)
        requires
            x == a.addr + k * s,
            back == (-k) * s,
    ;
    lemma_small_mod(a.addr as nat, m as nat);
}

/// Demoting a writable address and then reclassifying it as writable gives
/// back the same address, which exports the same writable value.
pub proof fn law_immut_assert_mut<T>(a: Address<Mut, T>)
    ensures
        a.spec_immut().spec_assert_mut() == a,
        a.spec_immut()@ == a@,
{
    let Mut = a.comu;
    assert(a.comu == Mut);
}

} // verus!
