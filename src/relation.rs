use std::borrow::Cow;
use std::marker::PhantomData;
use std::rc::Rc;
use std::sync::Arc;
use std::time::Duration;
use vstd::prelude::*;

verus! {

/// States that two decodings agree: decoding at `Self` gives what decoding at
/// `Self::SameAs` gives, followed by `from`.
pub trait SameDeserialization: Sized {
    /// The type whose decoding this type shares.
    type SameAs;

    /// `r` is what `from` makes of `data`. An instance that does not state
    /// this claims nothing of `from`.
    open spec fn lifts(data: Self::SameAs, r: Self) -> bool {
        true
    }

    /// Turns a value decoded at `Self::SameAs` into the value decoded at `Self`.
    fn from(data: Self::SameAs) -> (r: Self)
        ensures
            Self::lifts(data, r),
    ;
}

/// States that encoding a value of `Self` and decoding the bytes at `Target`
/// gives what `round_trip` returns, so the pass through the codec can be skipped.
pub trait RoundTrip<Target> {
    /// `t` is the value that an encode at `Self` and a decode at `Target`
    /// give. An instance that does not state this claims nothing of
    /// `round_trip`.
    open spec fn transforms_to(&self, t: Target) -> bool {
        true
    }

    /// The direct transform that stands for an encode and a decode.
    fn round_trip(&self) -> (r: Target)
        ensures
            self.transforms_to(r),
    ;
}
// Leaves that are copied as they are.

impl<T> RoundTrip<T> for () where T: SameDeserialization<SameAs = ()> {
    open spec fn transforms_to(&self, t: T) -> bool {
        T::lifts(*self, t)
    }

    fn round_trip(&self) -> (r: T) {
        T::from(*self)
    }
}

impl SameDeserialization for () {
    type SameAs = ();

    open spec fn lifts(data: (), r: ()) -> bool {
        r == data
    }

    fn from(data: ()) -> (r: ()) {
        data
    }
}

impl<T> RoundTrip<T> for bool where T: SameDeserialization<SameAs = bool> {
    open spec fn transforms_to(&self, t: T) -> bool {
        T::lifts(*self, t)
    }

    fn round_trip(&self) -> (r: T) {
        T::from(*self)
    }
}

impl SameDeserialization for bool {
    type SameAs = bool;

    open spec fn lifts(data: bool, r: bool) -> bool {
        r == data
    }

    fn from(data: bool) -> (r: bool) {
        data
    }
}

impl<T> RoundTrip<T> for char where T: SameDeserialization<SameAs = char> {
    open spec fn transforms_to(&self, t: T) -> bool {
        T::lifts(*self, t)
    }

    fn round_trip(&self) -> (r: T) {
        T::from(*self)
    }
}

impl SameDeserialization for char {
    type SameAs = char;

    open spec fn lifts(data: char, r: char) -> bool {
        r == data
    }

    fn from(data: char) -> (r: char) {
        data
    }
}

impl<T> RoundTrip<T> for u8 where T: SameDeserialization<SameAs = u8> {
    open spec fn transforms_to(&self, t: T) -> bool {
        T::lifts(*self, t)
    }

    fn round_trip(&self) -> (r: T) {
        T::from(*self)
    }
}

impl SameDeserialization for u8 {
    type SameAs = u8;

    open spec fn lifts(data: u8, r: u8) -> bool {
        r == data
    }

    fn from(data: u8) -> (r: u8) {
        data
    }
}

impl<T> RoundTrip<T> for u16 where T: SameDeserialization<SameAs = u16> {
    open spec fn transforms_to(&self, t: T) -> bool {
        T::lifts(*self, t)
    }

    fn round_trip(&self) -> (r: T) {
        T::from(*self)
    }
}

impl SameDeserialization for u16 {
    type SameAs = u16;

    open spec fn lifts(data: u16, r: u16) -> bool {
        r == data
    }

    fn from(data: u16) -> (r: u16) {
        data
    }
}

impl<T> RoundTrip<T> for u32 where T: SameDeserialization<SameAs = u32> {
    open spec fn transforms_to(&self, t: T) -> bool {
        T::lifts(*self, t)
    }

    fn round_trip(&self) -> (r: T) {
        T::from(*self)
    }
}

impl SameDeserialization for u32 {
    type SameAs = u32;

    open spec fn lifts(data: u32, r: u32) -> bool {
        r == data
    }

    fn from(data: u32) -> (r: u32) {
        data
    }
}

impl<T> RoundTrip<T> for u64 where T: SameDeserialization<SameAs = u64> {
    open spec fn transforms_to(&self, t: T) -> bool {
        T::lifts(*self, t)
    }

    fn round_trip(&self) -> (r: T) {
        T::from(*self)
    }
}

impl SameDeserialization for u64 {
    type SameAs = u64;

    open spec fn lifts(data: u64, r: u64) -> bool {
        r == data
    }

    fn from(data: u64) -> (r: u64) {
        data
    }
}

impl<T> RoundTrip<T> for usize where T: SameDeserialization<SameAs = usize> {
    open spec fn transforms_to(&self, t: T) -> bool {
        T::lifts(*self, t)
    }

    fn round_trip(&self) -> (r: T) {
        T::from(*self)
    }
}

impl SameDeserialization for usize {
    type SameAs = usize;

    open spec fn lifts(data: usize, r: usize) -> bool {
        r == data
    }

    fn from(data: usize) -> (r: usize) {
        data
    }
}

impl<T> RoundTrip<T> for i8 where T: SameDeserialization<SameAs = i8> {
    open spec fn transforms_to(&self, t: T) -> bool {
        T::lifts(*self, t)
    }

    fn round_trip(&self) -> (r: T) {
        T::from(*self)
    }
}

impl SameDeserialization for i8 {
    type SameAs = i8;

    open spec fn lifts(data: i8, r: i8) -> bool {
        r == data
    }

    fn from(data: i8) -> (r: i8) {
        data
    }
}

impl<T> RoundTrip<T> for i16 where T: SameDeserialization<SameAs = i16> {
    open spec fn transforms_to(&self, t: T) -> bool {
        T::lifts(*self, t)
    }

    fn round_trip(&self) -> (r: T) {
        T::from(*self)
    }
}

impl SameDeserialization for i16 {
    type SameAs = i16;

    open spec fn lifts(data: i16, r: i16) -> bool {
        r == data
    }

    fn from(data: i16) -> (r: i16) {
        data
    }
}

impl<T> RoundTrip<T> for i32 where T: SameDeserialization<SameAs = i32> {
    open spec fn transforms_to(&self, t: T) -> bool {
        T::lifts(*self, t)
    }

    fn round_trip(&self) -> (r: T) {
        T::from(*self)
    }
}

impl SameDeserialization for i32 {
    type SameAs = i32;

    open spec fn lifts(data: i32, r: i32) -> bool {
        r == data
    }

    fn from(data: i32) -> (r: i32) {
        data
    }
}

impl<T> RoundTrip<T> for i64 where T: SameDeserialization<SameAs = i64> {
    open spec fn transforms_to(&self, t: T) -> bool {
        T::lifts(*self, t)
    }

    fn round_trip(&self) -> (r: T) {
        T::from(*self)
    }
}

impl SameDeserialization for i64 {
    type SameAs = i64;

    open spec fn lifts(data: i64, r: i64) -> bool {
        r == data
    }

    fn from(data: i64) -> (r: i64) {
        data
    }
}

impl<T> RoundTrip<T> for isize where T: SameDeserialization<SameAs = isize> {
    open spec fn transforms_to(&self, t: T) -> bool {
        T::lifts(*self, t)
    }

    fn round_trip(&self) -> (r: T) {
        T::from(*self)
    }
}

impl SameDeserialization for isize {
    type SameAs = isize;

    open spec fn lifts(data: isize, r: isize) -> bool {
        r == data
    }

    fn from(data: isize) -> (r: isize) {
        data
    }
}

impl<T> RoundTrip<T> for Duration where T: SameDeserialization<SameAs = Duration> {
    open spec fn transforms_to(&self, t: T) -> bool {
        T::lifts(*self, t)
    }

    fn round_trip(&self) -> (r: T) {
        T::from(*self)
    }
}

impl SameDeserialization for Duration {
    type SameAs = Duration;

    open spec fn lifts(data: Duration, r: Duration) -> bool {
        r == data
    }

    fn from(data: Duration) -> (r: Duration) {
        data
    }
}

// Owned text is cloned; borrowed text is copied into an owned `String`.

impl<T> RoundTrip<T> for String where T: SameDeserialization<SameAs = String> {
    open spec fn transforms_to(&self, t: T) -> bool {
        T::lifts(*self, t)
    }

    fn round_trip(&self) -> (r: T) {
        T::from(self.clone())
    }
}

impl SameDeserialization for String {
    type SameAs = String;

    open spec fn lifts(data: String, r: String) -> bool {
        r == data
    }

    fn from(data: String) -> (r: String) {
        data
    }
}

impl<T> RoundTrip<T> for str where T: SameDeserialization<SameAs = String> {
    open spec fn transforms_to(&self, t: T) -> bool {
        exists|s: String| #[trigger] T::lifts(s, t) && s@ == self@
    }

    fn round_trip(&self) -> (r: T) {
        T::from(self.to_owned())
    }
}

// Indirections: the pointee is transformed, and `from` wraps again.

impl<S, T> RoundTrip<T> for Box<S> where S: RoundTrip<T> {
    open spec fn transforms_to(&self, t: T) -> bool {
        (**self).transforms_to(t)
    }

    fn round_trip(&self) -> (r: T) {
        (**self).round_trip()
    }
}

impl<T> SameDeserialization for Box<T> where T: SameDeserialization {
    type SameAs = T::SameAs;

    open spec fn lifts(data: T::SameAs, r: Box<T>) -> bool {
        T::lifts(data, *r)
    }

    fn from(data: T::SameAs) -> (r: Box<T>) {
        Box::new(T::from(data))
    }
}

impl<S, T> RoundTrip<T> for Rc<S> where S: RoundTrip<T> {
    open spec fn transforms_to(&self, t: T) -> bool {
        (**self).transforms_to(t)
    }

    fn round_trip(&self) -> (r: T) {
        (**self).round_trip()
    }
}

impl<T> SameDeserialization for Rc<T> where T: SameDeserialization {
    type SameAs = T::SameAs;

    open spec fn lifts(data: T::SameAs, r: Rc<T>) -> bool {
        T::lifts(data, *r)
    }

    fn from(data: T::SameAs) -> (r: Rc<T>) {
        Rc::new(T::from(data))
    }
}

impl<S, T> RoundTrip<T> for Arc<S> where S: RoundTrip<T> {
    open spec fn transforms_to(&self, t: T) -> bool {
        (**self).transforms_to(t)
    }

    fn round_trip(&self) -> (r: T) {
        (**self).round_trip()
    }
}

impl<T> SameDeserialization for Arc<T> where T: SameDeserialization {
    type SameAs = T::SameAs;

    open spec fn lifts(data: T::SameAs, r: Arc<T>) -> bool {
        T::lifts(data, *r)
    }

    fn from(data: T::SameAs) -> (r: Arc<T>) {
        Arc::new(T::from(data))
    }
}

impl<'a, S: ?Sized, T> RoundTrip<T> for &'a S where S: RoundTrip<T> {
    open spec fn transforms_to(&self, t: T) -> bool {
        (**self).transforms_to(t)
    }

    fn round_trip(&self) -> (r: T) {
        (**self).round_trip()
    }
}

impl<'a, S: ?Sized, T> RoundTrip<T> for &'a mut S where S: RoundTrip<T> {
    open spec fn transforms_to(&self, t: T) -> bool {
        (**self).transforms_to(t)
    }

    fn round_trip(&self) -> (r: T) {
        (**self).round_trip()
    }
}

// Growable sequences and slices: element by element, in order.

/// `v` holds, position by position, what the items of `s` transform to.
pub open spec fn each_transforms_to<S: RoundTrip<T>, T>(s: Seq<S>, v: Seq<T>) -> bool {
    &&& v.len() == s.len()
    &&& forall|i: int| 0 <= i < s.len() ==> #[trigger] s[i].transforms_to(v[i])
}

/// Transforms the items of `s` one by one, keeping their order.
fn transform_each<S: RoundTrip<T>, T>(s: &[S]) -> (v: Vec<T>)
    ensures
        each_transforms_to(s@, v@),
{
    let mut v: Vec<T> = Vec::new();
    let mut i: usize = 0;
    while i < s.len()
        invariant
            i <= s@.len(),
            v@.len() == i,
            forall|j: int| 0 <= j < i ==> #[trigger] s@[j].transforms_to(v@[j]),
        decreases s@.len() - i,
    {
        let x: T = s[i].round_trip();
        v.push(x);
        i += 1;
    }
    v
}

impl<S, T, Ts> RoundTrip<Ts> for Vec<S>
    where
        S: RoundTrip<T>,
        Ts: SameDeserialization<SameAs = Vec<T>>,
{
    open spec fn transforms_to(&self, t: Ts) -> bool {
        exists|v: Vec<T>| #[trigger] Ts::lifts(v, t) && each_transforms_to(self@, v@)
    }

    fn round_trip(&self) -> (r: Ts) {
        let v: Vec<T> = transform_each(self.as_slice());
        Ts::from(v)
    }
}

impl<S, T, Ts> RoundTrip<Ts> for [S]
    where
        S: RoundTrip<T>,
        Ts: SameDeserialization<SameAs = Vec<T>>,
{
    open spec fn transforms_to(&self, t: Ts) -> bool {
        exists|v: Vec<T>| #[trigger] Ts::lifts(v, t) && each_transforms_to(self@, v@)
    }

    fn round_trip(&self) -> (r: Ts) {
        let v: Vec<T> = transform_each(self);
        Ts::from(v)
    }
}

impl<T> SameDeserialization for Vec<T> {
    type SameAs = Vec<T>;

    open spec fn lifts(data: Vec<T>, r: Vec<T>) -> bool {
        r == data
    }

    fn from(data: Vec<T>) -> (r: Vec<T>) {
        data
    }
}

// Fixed-length sequences: the length is part of the type and is kept.

/// Relies on std's `TryFrom<Vec<T>>` for arrays: a vector of length `N`
/// becomes the array of its items, in order.
#[verifier::external_body]
fn vec_into_array<T, const N: usize>(v: Vec<T>) -> (a: [T; N])
    requires
        v@.len() == N,
    ensures
        a@ == v@,
{
    let r: Result<[T; N], Vec<T>> = v.try_into();
    r.ok().expect("the length was checked")
}

impl<S, T, Ts, const N: usize> RoundTrip<Ts> for [S; N]
    where
        S: RoundTrip<T>,
        Ts: SameDeserialization<SameAs = [T; N]>,
{
    open spec fn transforms_to(&self, t: Ts) -> bool {
        exists|a: [T; N]| #[trigger] Ts::lifts(a, t) && each_transforms_to(self@, a@)
    }

    fn round_trip(&self) -> (r: Ts) {
        let v: Vec<T> = transform_each(self.as_slice());
        let a: [T; N] = vec_into_array(v);
        Ts::from(a)
    }
}

impl<T, const N: usize> SameDeserialization for [T; N] {
    type SameAs = [T; N];

    open spec fn lifts(data: [T; N], r: [T; N]) -> bool {
        r == data
    }

    fn from(data: [T; N]) -> (r: [T; N]) {
        data
    }
}

// Optional values and either values: each arm with its own relation.

impl<S, T0, T> RoundTrip<T> for Option<S>
    where
        S: RoundTrip<T0>,
        T: SameDeserialization<SameAs = Option<T0>>,
{
    open spec fn transforms_to(&self, t: T) -> bool {
        exists|o: Option<T0>|
            {
            &&& #[trigger] T::lifts(o, t)
            &&& match (*self, o) {
                (None, None) => true,
                (Some(s), Some(x)) => s.transforms_to(x),
                _ => false,
            }
        }
    }

    fn round_trip(&self) -> (r: T) {
        let o: Option<T0> = match self {
            Some(s) => Some(s.round_trip()),
            None => None,
        };
        T::from(o)
    }
}

impl<T> SameDeserialization for Option<T> {
    type SameAs = Option<T>;

    open spec fn lifts(data: Option<T>, r: Option<T>) -> bool {
        r == data
    }

    fn from(data: Option<T>) -> (r: Option<T>) {
        data
    }
}

impl<S0, S1, T0, T1, T> RoundTrip<T> for Result<S0, S1>
    where
        S0: RoundTrip<T0>,
        S1: RoundTrip<T1>,
        T: SameDeserialization<SameAs = Result<T0, T1>>,
{
    open spec fn transforms_to(&self, t: T) -> bool {
        exists|o: Result<T0, T1>|
            {
            &&& #[trigger] T::lifts(o, t)
            &&& match (*self, o) {
                (Ok(s), Ok(x)) => s.transforms_to(x),
                (Err(s), Err(x)) => s.transforms_to(x),
                _ => false,
            }
        }
    }

    fn round_trip(&self) -> (r: T) {
        let o: Result<T0, T1> = match self {
            Ok(s) => Ok(s.round_trip()),
            Err(s) => Err(s.round_trip()),
        };
        T::from(o)
    }
}

impl<T0, T1> SameDeserialization for Result<T0, T1> {
    type SameAs = Result<T0, T1>;

    open spec fn lifts(data: Result<T0, T1>, r: Result<T0, T1>) -> bool {
        r == data
    }

    fn from(data: Result<T0, T1>) -> (r: Result<T0, T1>) {
        data
    }
}

// Zero-sized markers carry nothing.

impl<S, T> RoundTrip<T> for PhantomData<S> where T: SameDeserialization<SameAs = PhantomData<S>> {
    open spec fn transforms_to(&self, t: T) -> bool {
        T::lifts(*self, t)
    }

    fn round_trip(&self) -> (r: T) {
        T::from(PhantomData)
    }
}

impl<T> SameDeserialization for PhantomData<T> {
    type SameAs = PhantomData<T>;

    open spec fn lifts(data: PhantomData<T>, r: PhantomData<T>) -> bool {
        r == data
    }

    fn from(data: PhantomData<T>) -> (r: PhantomData<T>) {
        data
    }
}

// Borrowed-or-owned text: read as text, decoded as owned text.

impl<'a, T> RoundTrip<T> for Cow<'a, str> where T: SameDeserialization<SameAs = String> {
    open spec fn transforms_to(&self, t: T) -> bool {
        exists|s: String| #[trigger] T::lifts(s, t) && s@ == self@
    }

    fn round_trip(&self) -> (r: T) {
        let s: String = match self {
            Cow::Borrowed(b) => (*b).to_owned(),
            Cow::Owned(o) => o.clone(),
        };
        T::from(s)
    }
}

impl<'a> SameDeserialization for Cow<'a, str> {
    type SameAs = String;

    open spec fn lifts(data: String, r: Cow<'a, str>) -> bool {
        r == Cow::<'a, str>::Owned(data)
    }

    fn from(data: String) -> (r: Cow<'a, str>) {
        Cow::Owned(data)
    }
}

/// The items of a borrowed-or-owned slice.
pub open spec fn cow_items<'a, S: Clone>(c: Cow<'a, [S]>) -> Seq<S> {
    match c {
        Cow::Borrowed(b) => b@,
        Cow::Owned(o) => o@,
    }
}

impl<'a, S, T, Ts> RoundTrip<Ts> for Cow<'a, [S]>
    where
        S: Clone + RoundTrip<T>,
        Ts: SameDeserialization<SameAs = Vec<T>>,
{
    open spec fn transforms_to(&self, t: Ts) -> bool {
        exists|v: Vec<T>| #[trigger] Ts::lifts(v, t) && each_transforms_to(cow_items(*self), v@)
    }

    fn round_trip(&self) -> (r: Ts) {
        let v: Vec<T> = match self {
            Cow::Borrowed(b) => transform_each(b),
            Cow::Owned(o) => transform_each(o.as_slice()),
        };
        Ts::from(v)
    }
}

impl<'a, T: Clone> SameDeserialization for Cow<'a, [T]> {
    type SameAs = Vec<T>;

    open spec fn lifts(data: Vec<T>, r: Cow<'a, [T]>) -> bool {
        r == Cow::<'a, [T]>::Owned(data)
    }

    fn from(data: Vec<T>) -> (r: Cow<'a, [T]>) {
        Cow::Owned(data)
    }
}

} // verus!
