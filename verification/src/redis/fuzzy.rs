use vstd::prelude::*;
use crate::redis::json::RedisJson;

verus! {

/// A wrapper for returned entries from redis which won't fail the surrounding context if the type is wrong.
/// - When missing, i.e. redis returns nil, sets to None.
/// - When decoding for the target type fails, value set to None, rather than the whole batch failing.
#[derive(Debug, Clone, PartialEq, Eq)]
pub struct RedisFuzzy<T>(Option<T>);

impl<T> RedisFuzzy<T> {
    /// What was decoded, `None` when missing or undecodable.
    pub closed spec fn inner(&self) -> Option<T> {
        self.0
    }

    /// Wraps what was decoded.
    pub fn new(decoded: Option<T>) -> (fuzzy: Self)
        ensures
            fuzzy.inner() == decoded,
    {
        RedisFuzzy(decoded)
    }
}

/// Used internally to hide all usage of RedisFuzzy in public API: strips every fuzzy
/// wrapper from a decoded value, keeping its shape.
pub trait RedisFuzzyUnwrap: Sized {
    /// The value with its fuzzy wrappers stripped.
    type Output;

    /// `out` is this value with its fuzzy wrappers stripped.
    spec fn unwraps_to(&self, out: &Self::Output) -> bool;

    /// Strip the fuzzy wrappers.
    fn fuzzy_unwrap(self) -> (out: Self::Output)
        ensures
            self.unwraps_to(&out),
    ;
}

// Core:
impl<T> RedisFuzzyUnwrap for RedisFuzzy<T> {
    type Output = Option<T>;

    open spec fn unwraps_to(&self, out: &Option<T>) -> bool {
        *out == self.inner()
    }

    fn fuzzy_unwrap(self) -> (out: Option<T>) {
        self.0
    }
}

// Layered options:
impl<T: RedisFuzzyUnwrap> RedisFuzzyUnwrap for Option<T> {
    type Output = Option<T::Output>;

    open spec fn unwraps_to(&self, out: &Option<T::Output>) -> bool {
        match (self, out) {
            (None, None) => true,
            (Some(a), Some(b)) => a.unwraps_to(b),
            _ => false,
        }
    }

    fn fuzzy_unwrap(self) -> (out: Option<T::Output>) {
        match self {
            Some(inner) => Some(inner.fuzzy_unwrap()),
            None => None,
        }
    }
}

// vecs:
impl<T: RedisFuzzyUnwrap> RedisFuzzyUnwrap for Vec<T> {
    type Output = Vec<T::Output>;

    open spec fn unwraps_to(&self, out: &Vec<T::Output>) -> bool {
        &&& out@.len() == self@.len()
        &&& forall|i: int| 0 <= i < self@.len() ==> #[trigger] self@[i].unwraps_to(&out@[i])
    }

    fn fuzzy_unwrap(self) -> (out: Vec<T::Output>) {
        let ghost items = self@;
        let n = self.len();
        let mut rest = self;
        let mut reversed: Vec<T::Output> = Vec::new();
        while rest.len() > 0
            invariant
                n == items.len(),
                rest@ == items.take(n - reversed@.len()),
                reversed@.len() <= n,
                forall|i: int|
                    0 <= i < reversed@.len() ==> #[trigger] items[n - 1 - i].unwraps_to(
                        &reversed@[i],
                    ),
            decreases rest.len(),
        {
            let item = rest.pop().unwrap();
            reversed.push(item.fuzzy_unwrap());
        }
        let ghost done = reversed@;
        let mut out: Vec<T::Output> = Vec::new();
        while reversed.len() > 0
            invariant
                n == items.len(),
                done.len() == n,
                reversed@ == done.take(n - out@.len()),
                out@.len() <= n,
                forall|i: int| 0 <= i < done.len() ==> #[trigger] items[n - 1 - i].unwraps_to(&done[i]),
                forall|i: int| 0 <= i < out@.len() ==> #[trigger] items[i].unwraps_to(&out@[i]),
            decreases reversed.len(),
        {
            let item = reversed.pop().unwrap();
            proof {
                let k = out@.len() as int;
                assert(items[n - 1 - (n - 1 - k)].unwraps_to(&done[n - 1 - k]));
            }
            out.push(item);
        }
        out
    }
}

impl RedisFuzzyUnwrap for String {
    type Output = String;

    open spec fn unwraps_to(&self, out: &String) -> bool {
        *out == *self
    }

    fn fuzzy_unwrap(self) -> (out: String) {
        self
    }
}

impl RedisFuzzyUnwrap for i8 {
    type Output = i8;

    open spec fn unwraps_to(&self, out: &i8) -> bool {
        *out == *self
    }

    fn fuzzy_unwrap(self) -> (out: i8) {
        self
    }
}

impl RedisFuzzyUnwrap for i16 {
    type Output = i16;

    open spec fn unwraps_to(&self, out: &i16) -> bool {
        *out == *self
    }

    fn fuzzy_unwrap(self) -> (out: i16) {
        self
    }
}

impl RedisFuzzyUnwrap for i32 {
    type Output = i32;

    open spec fn unwraps_to(&self, out: &i32) -> bool {
        *out == *self
    }

    fn fuzzy_unwrap(self) -> (out: i32) {
        self
    }
}

impl RedisFuzzyUnwrap for i64 {
    type Output = i64;

    open spec fn unwraps_to(&self, out: &i64) -> bool {
        *out == *self
    }

    fn fuzzy_unwrap(self) -> (out: i64) {
        self
    }
}

impl RedisFuzzyUnwrap for isize {
    type Output = isize;

    open spec fn unwraps_to(&self, out: &isize) -> bool {
        *out == *self
    }

    fn fuzzy_unwrap(self) -> (out: isize) {
        self
    }
}

impl RedisFuzzyUnwrap for u8 {
    type Output = u8;

    open spec fn unwraps_to(&self, out: &u8) -> bool {
        *out == *self
    }

    fn fuzzy_unwrap(self) -> (out: u8) {
        self
    }
}

impl RedisFuzzyUnwrap for u16 {
    type Output = u16;

    open spec fn unwraps_to(&self, out: &u16) -> bool {
        *out == *self
    }

    fn fuzzy_unwrap(self) -> (out: u16) {
        self
    }
}

impl RedisFuzzyUnwrap for u32 {
    type Output = u32;

    open spec fn unwraps_to(&self, out: &u32) -> bool {
        *out == *self
    }

    fn fuzzy_unwrap(self) -> (out: u32) {
        self
    }
}

impl RedisFuzzyUnwrap for u64 {
    type Output = u64;

    open spec fn unwraps_to(&self, out: &u64) -> bool {
        *out == *self
    }

    fn fuzzy_unwrap(self) -> (out: u64) {
        self
    }
}

impl RedisFuzzyUnwrap for usize {
    type Output = usize;

    open spec fn unwraps_to(&self, out: &usize) -> bool {
        *out == *self
    }

    fn fuzzy_unwrap(self) -> (out: usize) {
        self
    }
}

impl RedisFuzzyUnwrap for bool {
    type Output = bool;

    open spec fn unwraps_to(&self, out: &bool) -> bool {
        *out == *self
    }

    fn fuzzy_unwrap(self) -> (out: bool) {
        self
    }
}

impl RedisFuzzyUnwrap for () {
    type Output = ();

    open spec fn unwraps_to(&self, out: &()) -> bool {
        true
    }

    fn fuzzy_unwrap(self) -> (out: ()) {
    }
}

impl<A: RedisFuzzyUnwrap> RedisFuzzyUnwrap for (A,) {
    type Output = (A::Output,);

    open spec fn unwraps_to(&self, out: &(A::Output,)) -> bool {
        &&& self.0.unwraps_to(&out.0)
    }

    fn fuzzy_unwrap(self) -> (out: (A::Output,)) {
        let (a,) = self;
        (a.fuzzy_unwrap(),)
    }
}

impl<A: RedisFuzzyUnwrap, B: RedisFuzzyUnwrap> RedisFuzzyUnwrap for (A, B) {
    type Output = (A::Output, B::Output);

    open spec fn unwraps_to(&self, out: &(A::Output, B::Output)) -> bool {
        &&& self.0.unwraps_to(&out.0)
        &&& self.1.unwraps_to(&out.1)
    }

    fn fuzzy_unwrap(self) -> (out: (A::Output, B::Output)) {
        let (a, b) = self;
        (a.fuzzy_unwrap(), b.fuzzy_unwrap())
    }
}

impl<A: RedisFuzzyUnwrap, B: RedisFuzzyUnwrap, C: RedisFuzzyUnwrap> RedisFuzzyUnwrap for (A, B, C) {
    type Output = (A::Output, B::Output, C::Output);

    open spec fn unwraps_to(&self, out: &(A::Output, B::Output, C::Output)) -> bool {
        &&& self.0.unwraps_to(&out.0)
        &&& self.1.unwraps_to(&out.1)
        &&& self.2.unwraps_to(&out.2)
    }

    fn fuzzy_unwrap(self) -> (out: (A::Output, B::Output, C::Output)) {
        let (a, b, c) = self;
        (a.fuzzy_unwrap(), b.fuzzy_unwrap(), c.fuzzy_unwrap())
    }
}

impl<A: RedisFuzzyUnwrap, B: RedisFuzzyUnwrap, C: RedisFuzzyUnwrap, D: RedisFuzzyUnwrap> RedisFuzzyUnwrap for (A, B, C, D) {
    type Output = (A::Output, B::Output, C::Output, D::Output);

    open spec fn unwraps_to(&self, out: &(A::Output, B::Output, C::Output, D::Output)) -> bool {
        &&& self.0.unwraps_to(&out.0)
        &&& self.1.unwraps_to(&out.1)
        &&& self.2.unwraps_to(&out.2)
        &&& self.3.unwraps_to(&out.3)
    }

    fn fuzzy_unwrap(self) -> (out: (A::Output, B::Output, C::Output, D::Output)) {
        let (a, b, c, d) = self;
        (a.fuzzy_unwrap(), b.fuzzy_unwrap(), c.fuzzy_unwrap(), d.fuzzy_unwrap())
    }
}

impl<A: RedisFuzzyUnwrap, B: RedisFuzzyUnwrap, C: RedisFuzzyUnwrap, D: RedisFuzzyUnwrap, E: RedisFuzzyUnwrap> RedisFuzzyUnwrap for (A, B, C, D, E) {
    type Output = (A::Output, B::Output, C::Output, D::Output, E::Output);

    open spec fn unwraps_to(&self, out: &(A::Output, B::Output, C::Output, D::Output, E::Output)) -> bool {
        &&& self.0.unwraps_to(&out.0)
        &&& self.1.unwraps_to(&out.1)
        &&& self.2.unwraps_to(&out.2)
        &&& self.3.unwraps_to(&out.3)
        &&& self.4.unwraps_to(&out.4)
    }

    fn fuzzy_unwrap(self) -> (out: (A::Output, B::Output, C::Output, D::Output, E::Output)) {
        let (a, b, c, d, e) = self;
        (a.fuzzy_unwrap(), b.fuzzy_unwrap(), c.fuzzy_unwrap(), d.fuzzy_unwrap(), e.fuzzy_unwrap())
    }
}

impl<A: RedisFuzzyUnwrap, B: RedisFuzzyUnwrap, C: RedisFuzzyUnwrap, D: RedisFuzzyUnwrap, E: RedisFuzzyUnwrap, F: RedisFuzzyUnwrap> RedisFuzzyUnwrap for (A, B, C, D, E, F) {
    type Output = (A::Output, B::Output, C::Output, D::Output, E::Output, F::Output);

    open spec fn unwraps_to(&self, out: &(A::Output, B::Output, C::Output, D::Output, E::Output, F::Output)) -> bool {
        &&& self.0.unwraps_to(&out.0)
        &&& self.1.unwraps_to(&out.1)
        &&& self.2.unwraps_to(&out.2)
        &&& self.3.unwraps_to(&out.3)
        &&& self.4.unwraps_to(&out.4)
        &&& self.5.unwraps_to(&out.5)
    }

    fn fuzzy_unwrap(self) -> (out: (A::Output, B::Output, C::Output, D::Output, E::Output, F::Output)) {
        let (a, b, c, d, e, f) = self;
        (a.fuzzy_unwrap(), b.fuzzy_unwrap(), c.fuzzy_unwrap(), d.fuzzy_unwrap(), e.fuzzy_unwrap(), f.fuzzy_unwrap())
    }
}

impl<A: RedisFuzzyUnwrap, B: RedisFuzzyUnwrap, C: RedisFuzzyUnwrap, D: RedisFuzzyUnwrap, E: RedisFuzzyUnwrap, F: RedisFuzzyUnwrap, G: RedisFuzzyUnwrap> RedisFuzzyUnwrap for (A, B, C, D, E, F, G) {
    type Output = (A::Output, B::Output, C::Output, D::Output, E::Output, F::Output, G::Output);

    open spec fn unwraps_to(&self, out: &(A::Output, B::Output, C::Output, D::Output, E::Output, F::Output, G::Output)) -> bool {
        &&& self.0.unwraps_to(&out.0)
        &&& self.1.unwraps_to(&out.1)
        &&& self.2.unwraps_to(&out.2)
        &&& self.3.unwraps_to(&out.3)
        &&& self.4.unwraps_to(&out.4)
        &&& self.5.unwraps_to(&out.5)
        &&& self.6.unwraps_to(&out.6)
    }

    fn fuzzy_unwrap(self) -> (out: (A::Output, B::Output, C::Output, D::Output, E::Output, F::Output, G::Output)) {
        let (a, b, c, d, e, f, g) = self;
        (a.fuzzy_unwrap(), b.fuzzy_unwrap(), c.fuzzy_unwrap(), d.fuzzy_unwrap(), e.fuzzy_unwrap(), f.fuzzy_unwrap(), g.fuzzy_unwrap())
    }
}

impl<A: RedisFuzzyUnwrap, B: RedisFuzzyUnwrap, C: RedisFuzzyUnwrap, D: RedisFuzzyUnwrap, E: RedisFuzzyUnwrap, F: RedisFuzzyUnwrap, G: RedisFuzzyUnwrap, H: RedisFuzzyUnwrap> RedisFuzzyUnwrap for (A, B, C, D, E, F, G, H) {
    type Output = (A::Output, B::Output, C::Output, D::Output, E::Output, F::Output, G::Output, H::Output);

    open spec fn unwraps_to(&self, out: &(A::Output, B::Output, C::Output, D::Output, E::Output, F::Output, G::Output, H::Output)) -> bool {
        &&& self.0.unwraps_to(&out.0)
        &&& self.1.unwraps_to(&out.1)
        &&& self.2.unwraps_to(&out.2)
        &&& self.3.unwraps_to(&out.3)
        &&& self.4.unwraps_to(&out.4)
        &&& self.5.unwraps_to(&out.5)
        &&& self.6.unwraps_to(&out.6)
        &&& self.7.unwraps_to(&out.7)
    }

    fn fuzzy_unwrap(self) -> (out: (A::Output, B::Output, C::Output, D::Output, E::Output, F::Output, G::Output, H::Output)) {
        let (a, b, c, d, e, f, g, h) = self;
        (a.fuzzy_unwrap(), b.fuzzy_unwrap(), c.fuzzy_unwrap(), d.fuzzy_unwrap(), e.fuzzy_unwrap(), f.fuzzy_unwrap(), g.fuzzy_unwrap(), h.fuzzy_unwrap())
    }
}

impl<A: RedisFuzzyUnwrap, B: RedisFuzzyUnwrap, C: RedisFuzzyUnwrap, D: RedisFuzzyUnwrap, E: RedisFuzzyUnwrap, F: RedisFuzzyUnwrap, G: RedisFuzzyUnwrap, H: RedisFuzzyUnwrap, I: RedisFuzzyUnwrap> RedisFuzzyUnwrap for (A, B, C, D, E, F, G, H, I) {
    type Output = (A::Output, B::Output, C::Output, D::Output, E::Output, F::Output, G::Output, H::Output, I::Output);

    open spec fn unwraps_to(&self, out: &(A::Output, B::Output, C::Output, D::Output, E::Output, F::Output, G::Output, H::Output, I::Output)) -> bool {
        &&& self.0.unwraps_to(&out.0)
        &&& self.1.unwraps_to(&out.1)
        &&& self.2.unwraps_to(&out.2)
        &&& self.3.unwraps_to(&out.3)
        &&& self.4.unwraps_to(&out.4)
        &&& self.5.unwraps_to(&out.5)
        &&& self.6.unwraps_to(&out.6)
        &&& self.7.unwraps_to(&out.7)
        &&& self.8.unwraps_to(&out.8)
    }

    fn fuzzy_unwrap(self) -> (out: (A::Output, B::Output, C::Output, D::Output, E::Output, F::Output, G::Output, H::Output, I::Output)) {
        let (a, b, c, d, e, f, g, h, i) = self;
        (a.fuzzy_unwrap(), b.fuzzy_unwrap(), c.fuzzy_unwrap(), d.fuzzy_unwrap(), e.fuzzy_unwrap(), f.fuzzy_unwrap(), g.fuzzy_unwrap(), h.fuzzy_unwrap(), i.fuzzy_unwrap())
    }
}

impl<A: RedisFuzzyUnwrap, B: RedisFuzzyUnwrap, C: RedisFuzzyUnwrap, D: RedisFuzzyUnwrap, E: RedisFuzzyUnwrap, F: RedisFuzzyUnwrap, G: RedisFuzzyUnwrap, H: RedisFuzzyUnwrap, I: RedisFuzzyUnwrap, J: RedisFuzzyUnwrap> RedisFuzzyUnwrap for (A, B, C, D, E, F, G, H, I, J) {
    type Output = (A::Output, B::Output, C::Output, D::Output, E::Output, F::Output, G::Output, H::Output, I::Output, J::Output);

    open spec fn unwraps_to(&self, out: &(A::Output, B::Output, C::Output, D::Output, E::Output, F::Output, G::Output, H::Output, I::Output, J::Output)) -> bool {
        &&& self.0.unwraps_to(&out.0)
        &&& self.1.unwraps_to(&out.1)
        &&& self.2.unwraps_to(&out.2)
        &&& self.3.unwraps_to(&out.3)
        &&& self.4.unwraps_to(&out.4)
        &&& self.5.unwraps_to(&out.5)
        &&& self.6.unwraps_to(&out.6)
        &&& self.7.unwraps_to(&out.7)
        &&& self.8.unwraps_to(&out.8)
        &&& self.9.unwraps_to(&out.9)
    }

    fn fuzzy_unwrap(self) -> (out: (A::Output, B::Output, C::Output, D::Output, E::Output, F::Output, G::Output, H::Output, I::Output, J::Output)) {
        let (a, b, c, d, e, f, g, h, i, j) = self;
        (a.fuzzy_unwrap(), b.fuzzy_unwrap(), c.fuzzy_unwrap(), d.fuzzy_unwrap(), e.fuzzy_unwrap(), f.fuzzy_unwrap(), g.fuzzy_unwrap(), h.fuzzy_unwrap(), i.fuzzy_unwrap(), j.fuzzy_unwrap())
    }
}

impl<A: RedisFuzzyUnwrap, B: RedisFuzzyUnwrap, C: RedisFuzzyUnwrap, D: RedisFuzzyUnwrap, E: RedisFuzzyUnwrap, F: RedisFuzzyUnwrap, G: RedisFuzzyUnwrap, H: RedisFuzzyUnwrap, I: RedisFuzzyUnwrap, J: RedisFuzzyUnwrap, K: RedisFuzzyUnwrap> RedisFuzzyUnwrap for (A, B, C, D, E, F, G, H, I, J, K) {
    type Output = (A::Output, B::Output, C::Output, D::Output, E::Output, F::Output, G::Output, H::Output, I::Output, J::Output, K::Output);

    open spec fn unwraps_to(&self, out: &(A::Output, B::Output, C::Output, D::Output, E::Output, F::Output, G::Output, H::Output, I::Output, J::Output, K::Output)) -> bool {
        &&& self.0.unwraps_to(&out.0)
        &&& self.1.unwraps_to(&out.1)
        &&& self.2.unwraps_to(&out.2)
        &&& self.3.unwraps_to(&out.3)
        &&& self.4.unwraps_to(&out.4)
        &&& self.5.unwraps_to(&out.5)
        &&& self.6.unwraps_to(&out.6)
        &&& self.7.unwraps_to(&out.7)
        &&& self.8.unwraps_to(&out.8)
        &&& self.9.unwraps_to(&out.9)
        &&& self.10.unwraps_to(&out.10)
    }

    fn fuzzy_unwrap(self) -> (out: (A::Output, B::Output, C::Output, D::Output, E::Output, F::Output, G::Output, H::Output, I::Output, J::Output, K::Output)) {
        let (a, b, c, d, e, f, g, h, i, j, k) = self;
        (a.fuzzy_unwrap(), b.fuzzy_unwrap(), c.fuzzy_unwrap(), d.fuzzy_unwrap(), e.fuzzy_unwrap(), f.fuzzy_unwrap(), g.fuzzy_unwrap(), h.fuzzy_unwrap(), i.fuzzy_unwrap(), j.fuzzy_unwrap(), k.fuzzy_unwrap())
    }
}

impl<A: RedisFuzzyUnwrap, B: RedisFuzzyUnwrap, C: RedisFuzzyUnwrap, D: RedisFuzzyUnwrap, E: RedisFuzzyUnwrap, F: RedisFuzzyUnwrap, G: RedisFuzzyUnwrap, H: RedisFuzzyUnwrap, I: RedisFuzzyUnwrap, J: RedisFuzzyUnwrap, K: RedisFuzzyUnwrap, L: RedisFuzzyUnwrap> RedisFuzzyUnwrap for (A, B, C, D, E, F, G, H, I, J, K, L) {
    type Output = (A::Output, B::Output, C::Output, D::Output, E::Output, F::Output, G::Output, H::Output, I::Output, J::Output, K::Output, L::Output);

    open spec fn unwraps_to(&self, out: &(A::Output, B::Output, C::Output, D::Output, E::Output, F::Output, G::Output, H::Output, I::Output, J::Output, K::Output, L::Output)) -> bool {
        &&& self.0.unwraps_to(&out.0)
        &&& self.1.unwraps_to(&out.1)
        &&& self.2.unwraps_to(&out.2)
        &&& self.3.unwraps_to(&out.3)
        &&& self.4.unwraps_to(&out.4)
        &&& self.5.unwraps_to(&out.5)
        &&& self.6.unwraps_to(&out.6)
        &&& self.7.unwraps_to(&out.7)
        &&& self.8.unwraps_to(&out.8)
        &&& self.9.unwraps_to(&out.9)
        &&& self.10.unwraps_to(&out.10)
        &&& self.11.unwraps_to(&out.11)
    }

    fn fuzzy_unwrap(self) -> (out: (A::Output, B::Output, C::Output, D::Output, E::Output, F::Output, G::Output, H::Output, I::Output, J::Output, K::Output, L::Output)) {
        let (a, b, c, d, e, f, g, h, i, j, k, l) = self;
        (a.fuzzy_unwrap(), b.fuzzy_unwrap(), c.fuzzy_unwrap(), d.fuzzy_unwrap(), e.fuzzy_unwrap(), f.fuzzy_unwrap(), g.fuzzy_unwrap(), h.fuzzy_unwrap(), i.fuzzy_unwrap(), j.fuzzy_unwrap(), k.fuzzy_unwrap(), l.fuzzy_unwrap())
    }
}

/// What a value decodes to when redis answers nil for it, where that differs from
/// decoding nil the usual way.
pub trait Nilcase: Sized {
    /// `v` is the nil case: `Some` of the value nil stands for, `None` to decode nil as usual.
    spec fn is_nilcase(v: Option<Self>) -> bool;

    /// The nil case of this type.
    fn nilcase() -> (v: Option<Self>)
        ensures
            Self::is_nilcase(v),
    ;
}

// Just put None when it should never happen.
impl Nilcase for String {
    open spec fn is_nilcase(v: Option<String>) -> bool {
        v is None
    }

    fn nilcase() -> (v: Option<String>) {
        None
    }
}

// Just put None when it should never happen.
impl Nilcase for i8 {
    open spec fn is_nilcase(v: Option<i8>) -> bool {
        v is None
    }

    fn nilcase() -> (v: Option<i8>) {
        None
    }
}

// Just put None when it should never happen.
impl Nilcase for i16 {
    open spec fn is_nilcase(v: Option<i16>) -> bool {
        v is None
    }

    fn nilcase() -> (v: Option<i16>) {
        None
    }
}

// Just put None when it should never happen.
impl Nilcase for i32 {
    open spec fn is_nilcase(v: Option<i32>) -> bool {
        v is None
    }

    fn nilcase() -> (v: Option<i32>) {
        None
    }
}

// Just put None when it should never happen.
impl Nilcase for i64 {
    open spec fn is_nilcase(v: Option<i64>) -> bool {
        v is None
    }

    fn nilcase() -> (v: Option<i64>) {
        None
    }
}

// Just put None when it should never happen.
impl Nilcase for isize {
    open spec fn is_nilcase(v: Option<isize>) -> bool {
        v is None
    }

    fn nilcase() -> (v: Option<isize>) {
        None
    }
}

// Just put None when it should never happen.
impl Nilcase for u8 {
    open spec fn is_nilcase(v: Option<u8>) -> bool {
        v is None
    }

    fn nilcase() -> (v: Option<u8>) {
        None
    }
}

// Just put None when it should never happen.
impl Nilcase for u16 {
    open spec fn is_nilcase(v: Option<u16>) -> bool {
        v is None
    }

    fn nilcase() -> (v: Option<u16>) {
        None
    }
}

// Just put None when it should never happen.
impl Nilcase for u32 {
    open spec fn is_nilcase(v: Option<u32>) -> bool {
        v is None
    }

    fn nilcase() -> (v: Option<u32>) {
        None
    }
}

// Just put None when it should never happen.
impl Nilcase for u64 {
    open spec fn is_nilcase(v: Option<u64>) -> bool {
        v is None
    }

    fn nilcase() -> (v: Option<u64>) {
        None
    }
}

// Just put None when it should never happen.
impl Nilcase for usize {
    open spec fn is_nilcase(v: Option<usize>) -> bool {
        v is None
    }

    fn nilcase() -> (v: Option<usize>) {
        None
    }
}

// This does happen, false seems to get returned as nil.
impl Nilcase for bool {
    open spec fn is_nilcase(v: Option<bool>) -> bool {
        v == Some(false)
    }

    fn nilcase() -> (v: Option<bool>) {
        Some(false)
    }
}

impl<T> Nilcase for RedisJson<T> {
    // nil shouldn't happen for these, they're strings:
    open spec fn is_nilcase(v: Option<RedisJson<T>>) -> bool {
        v is None
    }

    fn nilcase() -> (v: Option<RedisJson<T>>) {
        None
    }
}

impl<T: Nilcase> Nilcase for RedisFuzzy<T> {
    open spec fn is_nilcase(v: Option<RedisFuzzy<T>>) -> bool {
        v matches Some(f) && T::is_nilcase(f.inner())
    }

    fn nilcase() -> (v: Option<RedisFuzzy<T>>) {
        Some(RedisFuzzy::new(T::nilcase()))
    }
}

impl<T> Nilcase for Option<T> {
    open spec fn is_nilcase(v: Option<Option<T>>) -> bool {
        v == Some(None::<T>)
    }

    fn nilcase() -> (v: Option<Option<T>>) {
        Some(None)
    }
}

impl<T> Nilcase for Vec<T> {
    open spec fn is_nilcase(v: Option<Vec<T>>) -> bool {
        v matches Some(w) && w@.len() == 0
    }

    fn nilcase() -> (v: Option<Vec<T>>) {
        Some(Vec::new())
    }
}

} // verus!
