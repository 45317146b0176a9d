//! Extensions for primitive integers.
use vstd::prelude::*;

use vstd::std_specs::cmp::{PartialOrdIs, PartialOrdSpec};

use crate::sealed::{SealedBounds, SealedNumExt};

verus! {

/// The range type of core::ops written `start..`, read through its public field `start`.
#[verifier::external_type_specification]
#[verifier::reject_recursive_types(Idx)]
pub struct ExRangeFrom<Idx>(core::ops::RangeFrom<Idx>);

/// The range type of core::ops written `..end`, read through its public field `end`.
#[verifier::external_type_specification]
#[verifier::reject_recursive_types(Idx)]
pub struct ExRangeTo<Idx>(core::ops::RangeTo<Idx>);

/// The range type of core::ops written `..=end`, read through its public field `end`.
#[verifier::external_type_specification]
#[verifier::reject_recursive_types(Idx)]
pub struct ExRangeToInclusive<Idx>(core::ops::RangeToInclusive<Idx>);

/// The range type of core::ops written `..`, which has no fields.
#[verifier::external_type_specification]
pub struct ExRangeFull(core::ops::RangeFull);

/// `Some(n)` when `c` holds, `None` otherwise.
pub open spec fn kept_if<N>(n: N, c: bool) -> Option<N> {
    if c {
        Some(n)
    } else {
        None
    }
}

/// `n` is a prime: greater than one, with no divisor strictly between one and itself.
pub open spec fn is_prime_int(n: int) -> bool {
    n > 1 && forall|d: int| 1 < d < n ==> #[trigger] (n % d) != 0
}

/// Relies on primal::is_prime, a deterministic Miller-Rabin test that is exact
/// on every `u64`.
#[verifier::external_body]
fn prime_u64(n: u64) -> (r: bool)
    ensures
        r == is_prime_int(n as int),
{
    primal::is_prime(n)
}

/// Extension methods on the primitive integers. Each one returns the number
/// itself when a condition holds of it, and `None` otherwise.
pub trait NumExt: PartialOrd<Self> + Sized + SealedNumExt {
    /// The integer that this value stands for.
    spec fn val(&self) -> int;

    /// The order of `PartialOrd` is the order of the integers.
    proof fn lemma_order(a: &Self, b: &Self)
        ensures
            <Self as PartialOrdSpec<Self>>::obeys_partial_cmp_spec(),
            a.is_lt(b) <==> a.val() < b.val(),
            a.is_le(b) <==> a.val() <= b.val(),
    ;

    /// Returns this number if it is not zero.
    fn non_zero(self) -> (r: Option<Self>)
        ensures
            r == kept_if(self, self.val() != 0),
    ;

    /// Returns this number if it is positive.
    fn positive(self) -> (r: Option<Self>)
        ensures
            r == kept_if(self, self.val() > 0),
    ;

    /// Returns this number if it is greater than `other`.
    fn greater_than<B>(self, other: B) -> (r: Option<Self>) where Self: PartialOrd<B>
        ensures
            r is Some ==> r == Some(self),
            <Self as PartialOrdSpec<B>>::obeys_partial_cmp_spec() ==> r == kept_if(
                self,
                self.is_gt(&other),
            ),
    ;

    /// Returns this number if it is less than `other`.
    fn less_than<B>(self, other: B) -> (r: Option<Self>) where Self: PartialOrd<B>
        ensures
            r is Some ==> r == Some(self),
            <Self as PartialOrdSpec<B>>::obeys_partial_cmp_spec() ==> r == kept_if(
                self,
                self.is_lt(&other),
            ),
    ;

    /// Returns this number if it is greater than or equal to `other`.
    fn greater_than_or_equal<B>(self, other: B) -> (r: Option<Self>) where Self: PartialOrd<B>
        ensures
            r is Some ==> r == Some(self),
            <Self as PartialOrdSpec<B>>::obeys_partial_cmp_spec() ==> r == kept_if(
                self,
                self.is_ge(&other),
            ),
    ;

    /// Returns this number if it is less than or equal to `other`.
    fn less_than_or_equal<B>(self, other: B) -> (r: Option<Self>) where Self: PartialOrd<B>
        ensures
            r is Some ==> r == Some(self),
            <Self as PartialOrdSpec<B>>::obeys_partial_cmp_spec() ==> r == kept_if(
                self,
                self.is_le(&other),
            ),
    ;

    /// Returns this number if `range` holds it.
    fn in_range<R: Bounds<Self>>(self, range: R) -> (r: Option<Self>)
        ensures
            r == kept_if(self, range.has(self)),
    {
        if range.includes(&self) {
            Some(self)
        } else {
            None
        }
    }

    /// Returns this number if it is even.
    fn even(self) -> (r: Option<Self>)
        ensures
            r == kept_if(self, self.val() % 2 == 0),
    {
        if self.is_even() {
            Some(self)
        } else {
            None
        }
    }

    /// Returns this number if it is odd.
    fn odd(self) -> (r: Option<Self>)
        ensures
            r == kept_if(self, self.val() % 2 != 0),
    {
        if self.is_odd() {
            Some(self)
        } else {
            None
        }
    }

    /// Whether this number is even.
    fn is_even(&self) -> (r: bool)
        ensures
            r == (self.val() % 2 == 0),
    ;

    /// Whether this number is odd: exactly when it is not even.
    fn is_odd(&self) -> (r: bool)
        ensures
            r == (self.val() % 2 != 0),
    {
        !self.is_even()
    }

    /// Returns this number if it is a prime.
    fn prime(self) -> (r: Option<Self>)
        ensures
            r == kept_if(self, is_prime_int(self.val())),
    {
        if self.is_prime() {
            Some(self)
        } else {
            None
        }
    }

    /// Whether this number is a prime. Numbers below two never are.
    fn is_prime(&self) -> (r: bool)
        ensures
            r == is_prime_int(self.val()),
    ;
}

/// Every number is exactly one of even and odd: what `is_even` returns is
/// the negation of what `is_odd` returns, for every integer type and value.
pub proof fn lemma_even_iff_not_odd<N: NumExt>(v: N)
    ensures
        (v.val() % 2 == 0) <==> !(v.val() % 2 != 0),
        kept_if(v, v.val() % 2 == 0) is Some <==> kept_if(v, v.val() % 2 != 0) is None,
{
}

/// Extension methods on the signed primitive integers.
pub trait SNumExt: NumExt {
    /// Returns this number if it is negative.
    fn negative(self) -> (r: Option<Self>)
        ensures
            r == kept_if(self, self.val() < 0),
    ;
}

/// A range of integers that `NumExt::in_range` can test a number against.
pub trait Bounds<T>: SealedBounds {
    /// Whether `v` lies in the range.
    spec fn has(&self, v: T) -> bool;

    /// Whether `v` lies in the range.
    fn includes(&self, v: &T) -> (r: bool)
        ensures
            r == self.has(*v),
    ;
}

impl<T: NumExt> Bounds<T> for core::ops::Range<T> {
    open spec fn has(&self, v: T) -> bool {
        self.start.val() <= v.val() < self.end.val()
    }

    fn includes(&self, v: &T) -> (r: bool) {
        proof {
            T::lemma_order(&self.start, v);
            T::lemma_order(v, &self.end);
        }
        self.contains(v)
    }
}

impl<T: NumExt> Bounds<T> for core::ops::RangeInclusive<T> {
    open spec fn has(&self, v: T) -> bool {
        &&& self@.start.val() <= v.val()
        &&& if self@.exhausted {
            v.val() < self@.end.val()
        } else {
            v.val() <= self@.end.val()
        }
    }

    fn includes(&self, v: &T) -> (r: bool) {
        proof {
            T::lemma_order(&self@.start, v);
            T::lemma_order(v, &self@.end);
        }
        self.contains(v)
    }
}

impl<T: NumExt> Bounds<T> for core::ops::RangeFrom<T> {
    open spec fn has(&self, v: T) -> bool {
        self.start.val() <= v.val()
    }

    fn includes(&self, v: &T) -> (r: bool) {
        proof {
            T::lemma_order(&self.start, v);
        }
        self.start <= *v
    }
}

impl<T: NumExt> Bounds<T> for core::ops::RangeTo<T> {
    open spec fn has(&self, v: T) -> bool {
        v.val() < self.end.val()
    }

    fn includes(&self, v: &T) -> (r: bool) {
        proof {
            T::lemma_order(v, &self.end);
        }
        *v < self.end
    }
}

impl<T: NumExt> Bounds<T> for core::ops::RangeToInclusive<T> {
    open spec fn has(&self, v: T) -> bool {
        v.val() <= self.end.val()
    }

    fn includes(&self, v: &T) -> (r: bool) {
        proof {
            T::lemma_order(v, &self.end);
        }
        *v <= self.end
    }
}

impl<T: NumExt> Bounds<T> for core::ops::RangeFull {
    open spec fn has(&self, v: T) -> bool {
        true
    }

    fn includes(&self, v: &T) -> (r: bool) {
        true
    }
}

impl NumExt for i8 {
    open spec fn val(&self) -> int {
        *self as int
    }

    proof fn lemma_order(a: &Self, b: &Self) {
    }

    fn non_zero(self) -> (r: Option<Self>) {
        if self != 0 {
            Some(self)
        } else {
            None
        }
    }

    fn positive(self) -> (r: Option<Self>) {
        if self > 0 {
            Some(self)
        } else {
            None
        }
    }

    fn greater_than<B>(self, other: B) -> (r: Option<Self>) where Self: PartialOrd<B> {
        if self > other {
            Some(self)
        } else {
            None
        }
    }

    fn less_than<B>(self, other: B) -> (r: Option<Self>) where Self: PartialOrd<B> {
        if self < other {
            Some(self)
        } else {
            None
        }
    }

    fn greater_than_or_equal<B>(self, other: B) -> (r: Option<Self>) where Self: PartialOrd<B> {
        if self >= other {
            Some(self)
        } else {
            None
        }
    }

    fn less_than_or_equal<B>(self, other: B) -> (r: Option<Self>) where Self: PartialOrd<B> {
        if self <= other {
            Some(self)
        } else {
            None
        }
    }

    fn is_even(&self) -> (r: bool) {
        *self % 2 == 0
    }

    fn is_prime(&self) -> (r: bool) {
        *self > 1 && prime_u64(*self as u64)
    }
}

impl NumExt for u8 {
    open spec fn val(&self) -> int {
        *self as int
    }

    proof fn lemma_order(a: &Self, b: &Self) {
    }

    fn non_zero(self) -> (r: Option<Self>) {
        if self != 0 {
            Some(self)
        } else {
            None
        }
    }

    fn positive(self) -> (r: Option<Self>) {
        if self > 0 {
            Some(self)
        } else {
            None
        }
    }

    fn greater_than<B>(self, other: B) -> (r: Option<Self>) where Self: PartialOrd<B> {
        if self > other {
            Some(self)
        } else {
            None
        }
    }

    fn less_than<B>(self, other: B) -> (r: Option<Self>) where Self: PartialOrd<B> {
        if self < other {
            Some(self)
        } else {
            None
        }
    }

    fn greater_than_or_equal<B>(self, other: B) -> (r: Option<Self>) where Self: PartialOrd<B> {
        if self >= other {
            Some(self)
        } else {
            None
        }
    }

    fn less_than_or_equal<B>(self, other: B) -> (r: Option<Self>) where Self: PartialOrd<B> {
        if self <= other {
            Some(self)
        } else {
            None
        }
    }

    fn is_even(&self) -> (r: bool) {
        *self % 2 == 0
    }

    fn is_prime(&self) -> (r: bool) {
        *self > 1 && prime_u64(*self as u64)
    }
}

impl NumExt for i16 {
    open spec fn val(&self) -> int {
        *self as int
    }

    proof fn lemma_order(a: &Self, b: &Self) {
    }

    fn non_zero(self) -> (r: Option<Self>) {
        if self != 0 {
            Some(self)
        } else {
            None
        }
    }

    fn positive(self) -> (r: Option<Self>) {
        if self > 0 {
            Some(self)
        } else {
            None
        }
    }

    fn greater_than<B>(self, other: B) -> (r: Option<Self>) where Self: PartialOrd<B> {
        if self > other {
            Some(self)
        } else {
            None
        }
    }

    fn less_than<B>(self, other: B) -> (r: Option<Self>) where Self: PartialOrd<B> {
        if self < other {
            Some(self)
        } else {
            None
        }
    }

    fn greater_than_or_equal<B>(self, other: B) -> (r: Option<Self>) where Self: PartialOrd<B> {
        if self >= other {
            Some(self)
        } else {
            None
        }
    }

    fn less_than_or_equal<B>(self, other: B) -> (r: Option<Self>) where Self: PartialOrd<B> {
        if self <= other {
            Some(self)
        } else {
            None
        }
    }

    fn is_even(&self) -> (r: bool) {
        *self % 2 == 0
    }

    fn is_prime(&self) -> (r: bool) {
        *self > 1 && prime_u64(*self as u64)
    }
}

impl NumExt for u16 {
    open spec fn val(&self) -> int {
        *self as int
    }

    proof fn lemma_order(a: &Self, b: &Self) {
    }

    fn non_zero(self) -> (r: Option<Self>) {
        if self != 0 {
            Some(self)
        } else {
            None
        }
    }

    fn positive(self) -> (r: Option<Self>) {
        if self > 0 {
            Some(self)
        } else {
            None
        }
    }

    fn greater_than<B>(self, other: B) -> (r: Option<Self>) where Self: PartialOrd<B> {
        if self > other {
            Some(self)
        } else {
            None
        }
    }

    fn less_than<B>(self, other: B) -> (r: Option<Self>) where Self: PartialOrd<B> {
        if self < other {
            Some(self)
        } else {
            None
        }
    }

    fn greater_than_or_equal<B>(self, other: B) -> (r: Option<Self>) where Self: PartialOrd<B> {
        if self >= other {
            Some(self)
        } else {
            None
        }
    }

    fn less_than_or_equal<B>(self, other: B) -> (r: Option<Self>) where Self: PartialOrd<B> {
        if self <= other {
            Some(self)
        } else {
            None
        }
    }

    fn is_even(&self) -> (r: bool) {
        *self % 2 == 0
    }

    fn is_prime(&self) -> (r: bool) {
        *self > 1 && prime_u64(*self as u64)
    }
}

impl NumExt for i32 {
    open spec fn val(&self) -> int {
        *self as int
    }

    proof fn lemma_order(a: &Self, b: &Self) {
    }

    fn non_zero(self) -> (r: Option<Self>) {
        if self != 0 {
            Some(self)
        } else {
            None
        }
    }

    fn positive(self) -> (r: Option<Self>) {
        if self > 0 {
            Some(self)
        } else {
            None
        }
    }

    fn greater_than<B>(self, other: B) -> (r: Option<Self>) where Self: PartialOrd<B> {
        if self > other {
            Some(self)
        } else {
            None
        }
    }

    fn less_than<B>(self, other: B) -> (r: Option<Self>) where Self: PartialOrd<B> {
        if self < other {
            Some(self)
        } else {
            None
        }
    }

    fn greater_than_or_equal<B>(self, other: B) -> (r: Option<Self>) where Self: PartialOrd<B> {
        if self >= other {
            Some(self)
        } else {
            None
        }
    }

    fn less_than_or_equal<B>(self, other: B) -> (r: Option<Self>) where Self: PartialOrd<B> {
        if self <= other {
            Some(self)
        } else {
            None
        }
    }

    fn is_even(&self) -> (r: bool) {
        *self % 2 == 0
    }

    fn is_prime(&self) -> (r: bool) {
        *self > 1 && prime_u64(*self as u64)
    }
}

impl NumExt for u32 {
    open spec fn val(&self) -> int {
        *self as int
    }

    proof fn lemma_order(a: &Self, b: &Self) {
    }

    fn non_zero(self) -> (r: Option<Self>) {
        if self != 0 {
            Some(self)
        } else {
            None
        }
    }

    fn positive(self) -> (r: Option<Self>) {
        if self > 0 {
            Some(self)
        } else {
            None
        }
    }

    fn greater_than<B>(self, other: B) -> (r: Option<Self>) where Self: PartialOrd<B> {
        if self > other {
            Some(self)
        } else {
            None
        }
    }

    fn less_than<B>(self, other: B) -> (r: Option<Self>) where Self: PartialOrd<B> {
        if self < other {
            Some(self)
        } else {
            None
        }
    }

    fn greater_than_or_equal<B>(self, other: B) -> (r: Option<Self>) where Self: PartialOrd<B> {
        if self >= other {
            Some(self)
        } else {
            None
        }
    }

    fn less_than_or_equal<B>(self, other: B) -> (r: Option<Self>) where Self: PartialOrd<B> {
        if self <= other {
            Some(self)
        } else {
            None
        }
    }

    fn is_even(&self) -> (r: bool) {
        *self % 2 == 0
    }

    fn is_prime(&self) -> (r: bool) {
        *self > 1 && prime_u64(*self as u64)
    }
}

impl NumExt for i64 {
    open spec fn val(&self) -> int {
        *self as int
    }

    proof fn lemma_order(a: &Self, b: &Self) {
    }

    fn non_zero(self) -> (r: Option<Self>) {
        if self != 0 {
            Some(self)
        } else {
            None
        }
    }

    fn positive(self) -> (r: Option<Self>) {
        if self > 0 {
            Some(self)
        } else {
            None
        }
    }

    fn greater_than<B>(self, other: B) -> (r: Option<Self>) where Self: PartialOrd<B> {
        if self > other {
            Some(self)
        } else {
            None
        }
    }

    fn less_than<B>(self, other: B) -> (r: Option<Self>) where Self: PartialOrd<B> {
        if self < other {
            Some(self)
        } else {
            None
        }
    }

    fn greater_than_or_equal<B>(self, other: B) -> (r: Option<Self>) where Self: PartialOrd<B> {
        if self >= other {
            Some(self)
        } else {
            None
        }
    }

    fn less_than_or_equal<B>(self, other: B) -> (r: Option<Self>) where Self: PartialOrd<B> {
        if self <= other {
            Some(self)
        } else {
            None
        }
    }

    fn is_even(&self) -> (r: bool) {
        *self % 2 == 0
    }

    fn is_prime(&self) -> (r: bool) {
        *self > 1 && prime_u64(*self as u64)
    }
}

impl NumExt for u64 {
    open spec fn val(&self) -> int {
        *self as int
    }

    proof fn lemma_order(a: &Self, b: &Self) {
    }

    fn non_zero(self) -> (r: Option<Self>) {
        if self != 0 {
            Some(self)
        } else {
            None
        }
    }

    fn positive(self) -> (r: Option<Self>) {
        if self > 0 {
            Some(self)
        } else {
            None
        }
    }

    fn greater_than<B>(self, other: B) -> (r: Option<Self>) where Self: PartialOrd<B> {
        if self > other {
            Some(self)
        } else {
            None
        }
    }

    fn less_than<B>(self, other: B) -> (r: Option<Self>) where Self: PartialOrd<B> {
        if self < other {
            Some(self)
        } else {
            None
        }
    }

    fn greater_than_or_equal<B>(self, other: B) -> (r: Option<Self>) where Self: PartialOrd<B> {
        if self >= other {
            Some(self)
        } else {
            None
        }
    }

    fn less_than_or_equal<B>(self, other: B) -> (r: Option<Self>) where Self: PartialOrd<B> {
        if self <= other {
            Some(self)
        } else {
            None
        }
    }

    fn is_even(&self) -> (r: bool) {
        *self % 2 == 0
    }

    fn is_prime(&self) -> (r: bool) {
        *self > 1 && prime_u64(*self as u64)
    }
}

impl NumExt for isize {
    open spec fn val(&self) -> int {
        *self as int
    }

    proof fn lemma_order(a: &Self, b: &Self) {
    }

    fn non_zero(self) -> (r: Option<Self>) {
        if self != 0 {
            Some(self)
        } else {
            None
        }
    }

    fn positive(self) -> (r: Option<Self>) {
        if self > 0 {
            Some(self)
        } else {
            None
        }
    }

    fn greater_than<B>(self, other: B) -> (r: Option<Self>) where Self: PartialOrd<B> {
        if self > other {
            Some(self)
        } else {
            None
        }
    }

    fn less_than<B>(self, other: B) -> (r: Option<Self>) where Self: PartialOrd<B> {
        if self < other {
            Some(self)
        } else {
            None
        }
    }

    fn greater_than_or_equal<B>(self, other: B) -> (r: Option<Self>) where Self: PartialOrd<B> {
        if self >= other {
            Some(self)
        } else {
            None
        }
    }

    fn less_than_or_equal<B>(self, other: B) -> (r: Option<Self>) where Self: PartialOrd<B> {
        if self <= other {
            Some(self)
        } else {
            None
        }
    }

    fn is_even(&self) -> (r: bool) {
        *self % 2 == 0
    }

    fn is_prime(&self) -> (r: bool) {
        *self > 1 && prime_u64(*self as u64)
    }
}

impl NumExt for usize {
    open spec fn val(&self) -> int {
        *self as int
    }

    proof fn lemma_order(a: &Self, b: &Self) {
    }

    fn non_zero(self) -> (r: Option<Self>) {
        if self != 0 {
            Some(self)
        } else {
            None
        }
    }

    fn positive(self) -> (r: Option<Self>) {
        if self > 0 {
            Some(self)
        } else {
            None
        }
    }

    fn greater_than<B>(self, other: B) -> (r: Option<Self>) where Self: PartialOrd<B> {
        if self > other {
            Some(self)
        } else {
            None
        }
    }

    fn less_than<B>(self, other: B) -> (r: Option<Self>) where Self: PartialOrd<B> {
        if self < other {
            Some(self)
        } else {
            None
        }
    }

    fn greater_than_or_equal<B>(self, other: B) -> (r: Option<Self>) where Self: PartialOrd<B> {
        if self >= other {
            Some(self)
        } else {
            None
        }
    }

    fn less_than_or_equal<B>(self, other: B) -> (r: Option<Self>) where Self: PartialOrd<B> {
        if self <= other {
            Some(self)
        } else {
            None
        }
    }

    fn is_even(&self) -> (r: bool) {
        *self % 2 == 0
    }

    fn is_prime(&self) -> (r: bool) {
        *self > 1 && prime_u64(*self as u64)
    }
}

impl SNumExt for i8 {
    fn negative(self) -> (r: Option<Self>) {
        if self < 0 {
            Some(self)
        } else {
            None
        }
    }
}

impl SNumExt for i16 {
    fn negative(self) -> (r: Option<Self>) {
        if self < 0 {
            Some(self)
        } else {
            None
        }
    }
}

impl SNumExt for i32 {
    fn negative(self) -> (r: Option<Self>) {
        if self < 0 {
            Some(self)
        } else {
            None
        }
    }
}

impl SNumExt for i64 {
    fn negative(self) -> (r: Option<Self>) {
        if self < 0 {
            Some(self)
        } else {
            None
        }
    }
}

impl SNumExt for isize {
    fn negative(self) -> (r: Option<Self>) {
        if self < 0 {
            Some(self)
        } else {
            None
        }
    }
}

} // verus!
