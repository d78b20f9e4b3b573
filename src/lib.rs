//! Floating point values that refuse to hold illegal values, such as NaN.
//!
//! A `NoisyFloat<F, C>` wraps a raw float type `F` together with a policy
//! `C: FloatChecker<F>`, and every value of it that exists holds a raw value
//! that the policy accepts. Construction either demands validity from the
//! caller (`new`) or reports invalidity as `None` (`try_new`); every
//! arithmetic operator demands that its raw result is valid too.
use std::marker::PhantomData;
use vstd::prelude::*;

pub mod checked_ops;
pub mod compare;

verus! {

/// A policy that decides which raw values of `F` are *valid*.
///
/// Whatever else a policy rejects, it must reject NaN: equality and ordering
/// of checked values rely on it.
pub trait FloatChecker<F> {
    /// The predicate itself: `true` exactly for the values this policy accepts.
    spec fn is_valid(value: F) -> bool;

    /// Decides the predicate at run time.
    fn check(value: F) -> (r: bool)
        ensures
            r == Self::is_valid(value),
    ;

    /// May halt when the value is invalid; whether it checks in every build
    /// or only in debug builds is the policy's own choice.
    fn assert_valid(value: F);
}

/// A floating point number whose raw value always satisfies the policy `C`.
///
/// It holds one raw `F` and nothing else that takes up room, so its layout is
/// that of `F`.
#[derive(Debug)]
#[verifier::reject_recursive_types(F)]
#[verifier::reject_recursive_types(C)]
pub struct NoisyFloat<F: Copy, C: FloatChecker<F>> {
    value: F,
    checker: PhantomData<C>,
}

impl<F: Copy, C: FloatChecker<F>> NoisyFloat<F, C> {
    #[verifier::type_invariant]
    spec fn holds_valid(self) -> bool {
        C::is_valid(self.value)
    }

    /// The raw value held.
    pub closed spec fn raw_value(self) -> F {
        self.value
    }

    /// The checked value that holds `value`.
    pub closed spec fn wrap_raw(value: F) -> Self {
        NoisyFloat { value, checker: PhantomData }
    }

    /// Wrapping a raw value and reading it back gives that raw value: so
    /// where the policy accepts `value`, `try_new(value)` yields a checked
    /// value whose `raw()` is exactly `value`.
    pub proof fn lemma_round_trip(value: F)
        ensures
            Self::wrap_raw(value).raw_value() == value,
    {
    }

    fn unchecked_new(value: F) -> (r: Self)
        requires
            C::is_valid(value),
        ensures
            r == Self::wrap_raw(value),
    {
        NoisyFloat { value, checker: PhantomData }
    }

    /// Constructs a checked value holding `value`, which must be valid.
    ///
    /// The policy's own check is run on the way in as well.
    pub fn new(value: F) -> (r: Self)
        requires
            C::is_valid(value),
        ensures
            r == Self::wrap_raw(value),
    {
        C::assert_valid(value);
        Self::unchecked_new(value)
    }

    /// Constructs a checked value holding `value`, or `None` where the
    /// policy rejects `value`.
    pub fn try_new(value: F) -> (r: Option<Self>)
        ensures
            r == (if C::is_valid(value) {
                Some(Self::wrap_raw(value))
            } else {
                None
            }),
    {
        if C::check(value) {
            Some(NoisyFloat { value, checker: PhantomData })
        } else {
            None
        }
    }

    /// Returns the raw value held, which is valid.
    pub fn raw(self) -> (r: F)
        ensures
            r == self.raw_value(),
            C::is_valid(r),
    {
        proof {
            use_type_invariant(self);
        }
        self.value
    }
}

impl<F: Copy, C: FloatChecker<F>> Clone for NoisyFloat<F, C> {
    fn clone(&self) -> (r: Self)
        ensures
            r == *self,
    {
        proof {
            use_type_invariant(self);
        }
        Self::unchecked_new(self.value)
    }
}

impl<F: Copy, C: FloatChecker<F>> Copy for NoisyFloat<F, C> {

}

} // verus!
