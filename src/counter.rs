//! Counter types for block numbers and nonces.

use vstd::prelude::*;

verus! {

/// A fixed-width unsigned counter: it starts at zero and adds with overflow
/// reported rather than wrapped.
pub trait Counter: Copy + Sized {
    /// The counter's value as a natural number.
    spec fn value(&self) -> nat;

    /// The largest value the type can represent.
    spec fn max_value() -> nat;

    /// Every value of the type lies within its range.
    proof fn lemma_value_in_range(&self)
        ensures
            self.value() <= Self::max_value(),
    ;

    /// Values with the same count are the same value.
    proof fn lemma_value_injective(&self, other: &Self)
        ensures
            self.value() == other.value() ==> *self == *other,
    ;

    /// The counter at zero.
    fn zero() -> (r: Self)
        ensures
            r.value() == 0,
    ;

    /// The counter at one, the step of every increment.
    fn one() -> (r: Self)
        ensures
            r.value() == 1,
    ;

    /// Adds `other`, or returns `None` where the sum is out of range.
    fn try_add(&self, other: &Self) -> (r: Option<Self>)
        ensures
            r is Some <==> self.value() + other.value() <= Self::max_value(),
            r matches Some(s) ==> s.value() == self.value() + other.value(),
    ;
}

/// Relies on num-traits' `CheckedAdd` for `u8`, which forwards to `u8::checked_add`:
/// the sum where it fits, `None` otherwise.
pub assume_specification[ <u8 as num::traits::CheckedAdd>::checked_add ](a: &u8, v: &u8) -> (r:
    Option<u8>)
    ensures
        *a + *v <= u8::MAX ==> r == Some((*a + *v) as u8),
        *a + *v > u8::MAX ==> r is None,
;

impl Counter for u8 {
    open spec fn value(&self) -> nat {
        *self as nat
    }

    open spec fn max_value() -> nat {
        u8::MAX as nat
    }

    proof fn lemma_value_in_range(&self) {
    }

    proof fn lemma_value_injective(&self, other: &u8) {
    }

    fn zero() -> (r: u8) {
        0
    }

    fn one() -> (r: u8) {
        1
    }

    fn try_add(&self, other: &u8) -> (r: Option<u8>) {
        num::traits::CheckedAdd::checked_add(self, other)
    }
}

/// Relies on num-traits' `CheckedAdd` for `u16`, which forwards to `u16::checked_add`:
/// the sum where it fits, `None` otherwise.
pub assume_specification[ <u16 as num::traits::CheckedAdd>::checked_add ](a: &u16, v: &u16) -> (r:
    Option<u16>)
    ensures
        *a + *v <= u16::MAX ==> r == Some((*a + *v) as u16),
        *a + *v > u16::MAX ==> r is None,
;

impl Counter for u16 {
    open spec fn value(&self) -> nat {
        *self as nat
    }

    open spec fn max_value() -> nat {
        u16::MAX as nat
    }

    proof fn lemma_value_in_range(&self) {
    }

    proof fn lemma_value_injective(&self, other: &u16) {
    }

    fn zero() -> (r: u16) {
        0
    }

    fn one() -> (r: u16) {
        1
    }

    fn try_add(&self, other: &u16) -> (r: Option<u16>) {
        num::traits::CheckedAdd::checked_add(self, other)
    }
}

/// Relies on num-traits' `CheckedAdd` for `u32`, which forwards to `u32::checked_add`:
/// the sum where it fits, `None` otherwise.
pub assume_specification[ <u32 as num::traits::CheckedAdd>::checked_add ](a: &u32, v: &u32) -> (r:
    Option<u32>)
    ensures
        *a + *v <= u32::MAX ==> r == Some((*a + *v) as u32),
        *a + *v > u32::MAX ==> r is None,
;

impl Counter for u32 {
    open spec fn value(&self) -> nat {
        *self as nat
    }

    open spec fn max_value() -> nat {
        u32::MAX as nat
    }

    proof fn lemma_value_in_range(&self) {
    }

    proof fn lemma_value_injective(&self, other: &u32) {
    }

    fn zero() -> (r: u32) {
        0
    }

    fn one() -> (r: u32) {
        1
    }

    fn try_add(&self, other: &u32) -> (r: Option<u32>) {
        num::traits::CheckedAdd::checked_add(self, other)
    }
}

/// Relies on num-traits' `CheckedAdd` for `u64`, which forwards to `u64::checked_add`:
/// the sum where it fits, `None` otherwise.
pub assume_specification[ <u64 as num::traits::CheckedAdd>::checked_add ](a: &u64, v: &u64) -> (r:
    Option<u64>)
    ensures
        *a + *v <= u64::MAX ==> r == Some((*a + *v) as u64),
        *a + *v > u64::MAX ==> r is None,
;

impl Counter for u64 {
    open spec fn value(&self) -> nat {
        *self as nat
    }

    open spec fn max_value() -> nat {
        u64::MAX as nat
    }

    proof fn lemma_value_in_range(&self) {
    }

    proof fn lemma_value_injective(&self, other: &u64) {
    }

    fn zero() -> (r: u64) {
        0
    }

    fn one() -> (r: u64) {
        1
    }

    fn try_add(&self, other: &u64) -> (r: Option<u64>) {
        num::traits::CheckedAdd::checked_add(self, other)
    }
}

} // verus!
