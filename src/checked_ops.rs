//! Arithmetic operators on checked values.
//!
//! Each operator computes on the raw values with `F`'s own operator and wraps
//! the result through the checked constructor. An operator may only be applied
//! where `F`'s operator follows its specification and the raw result is valid;
//! its result then holds exactly that raw result.
use crate::{FloatChecker, NoisyFloat};
use vstd::prelude::*;
use vstd::std_specs::ops::{AddSpec, DivSpec, MulSpec, NegSpec, RemSpec, SubSpec};

verus! {

impl<F: Copy + core::ops::Add<Output = F>, C: FloatChecker<F>> core::ops::Add for NoisyFloat<F, C> {
    type Output = Self;

    fn add(self, rhs: Self) -> (r: Self) {
        let v = self.raw().add(rhs.raw());
        Self::new(v)
    }
}

impl<F: Copy + core::ops::Add<Output = F>, C: FloatChecker<F>> vstd::std_specs::ops::AddSpecImpl for NoisyFloat<F, C> {
    open spec fn obeys_add_spec() -> bool {
        F::obeys_add_spec()
    }

    /// The raw operation may be applied, follows its specification, and
    /// gives a valid result.
    open spec fn add_req(self, rhs: Self) -> bool {
        &&& F::obeys_add_spec()
        &&& self.raw_value().add_req(rhs.raw_value())
        &&& C::is_valid(self.raw_value().add_spec(rhs.raw_value()))
    }

    /// The checked value holding the raw result.
    open spec fn add_spec(self, rhs: Self) -> Self {
        Self::wrap_raw(self.raw_value().add_spec(rhs.raw_value()))
    }
}

impl<F: Copy + core::ops::Sub<Output = F>, C: FloatChecker<F>> core::ops::Sub for NoisyFloat<F, C> {
    type Output = Self;

    fn sub(self, rhs: Self) -> (r: Self) {
        let v = self.raw().sub(rhs.raw());
        Self::new(v)
    }
}

impl<F: Copy + core::ops::Sub<Output = F>, C: FloatChecker<F>> vstd::std_specs::ops::SubSpecImpl for NoisyFloat<F, C> {
    open spec fn obeys_sub_spec() -> bool {
        F::obeys_sub_spec()
    }

    /// The raw operation may be applied, follows its specification, and
    /// gives a valid result.
    open spec fn sub_req(self, rhs: Self) -> bool {
        &&& F::obeys_sub_spec()
        &&& self.raw_value().sub_req(rhs.raw_value())
        &&& C::is_valid(self.raw_value().sub_spec(rhs.raw_value()))
    }

    /// The checked value holding the raw result.
    open spec fn sub_spec(self, rhs: Self) -> Self {
        Self::wrap_raw(self.raw_value().sub_spec(rhs.raw_value()))
    }
}

impl<F: Copy + core::ops::Mul<Output = F>, C: FloatChecker<F>> core::ops::Mul for NoisyFloat<F, C> {
    type Output = Self;

    fn mul(self, rhs: Self) -> (r: Self) {
        let v = self.raw().mul(rhs.raw());
        Self::new(v)
    }
}

impl<F: Copy + core::ops::Mul<Output = F>, C: FloatChecker<F>> vstd::std_specs::ops::MulSpecImpl for NoisyFloat<F, C> {
    open spec fn obeys_mul_spec() -> bool {
        F::obeys_mul_spec()
    }

    /// The raw operation may be applied, follows its specification, and
    /// gives a valid result.
    open spec fn mul_req(self, rhs: Self) -> bool {
        &&& F::obeys_mul_spec()
        &&& self.raw_value().mul_req(rhs.raw_value())
        &&& C::is_valid(self.raw_value().mul_spec(rhs.raw_value()))
    }

    /// The checked value holding the raw result.
    open spec fn mul_spec(self, rhs: Self) -> Self {
        Self::wrap_raw(self.raw_value().mul_spec(rhs.raw_value()))
    }
}

impl<F: Copy + core::ops::Div<Output = F>, C: FloatChecker<F>> core::ops::Div for NoisyFloat<F, C> {
    type Output = Self;

    fn div(self, rhs: Self) -> (r: Self) {
        let v = self.raw().div(rhs.raw());
        Self::new(v)
    }
}

impl<F: Copy + core::ops::Div<Output = F>, C: FloatChecker<F>> vstd::std_specs::ops::DivSpecImpl for NoisyFloat<F, C> {
    open spec fn obeys_div_spec() -> bool {
        F::obeys_div_spec()
    }

    /// The raw operation may be applied, follows its specification, and
    /// gives a valid result.
    open spec fn div_req(self, rhs: Self) -> bool {
        &&& F::obeys_div_spec()
        &&& self.raw_value().div_req(rhs.raw_value())
        &&& C::is_valid(self.raw_value().div_spec(rhs.raw_value()))
    }

    /// The checked value holding the raw result.
    open spec fn div_spec(self, rhs: Self) -> Self {
        Self::wrap_raw(self.raw_value().div_spec(rhs.raw_value()))
    }
}

impl<F: Copy + core::ops::Rem<Output = F>, C: FloatChecker<F>> core::ops::Rem for NoisyFloat<F, C> {
    type Output = Self;

    fn rem(self, rhs: Self) -> (r: Self) {
        let v = self.raw().rem(rhs.raw());
        Self::new(v)
    }
}

impl<F: Copy + core::ops::Rem<Output = F>, C: FloatChecker<F>> vstd::std_specs::ops::RemSpecImpl for NoisyFloat<F, C> {
    open spec fn obeys_rem_spec() -> bool {
        F::obeys_rem_spec()
    }

    /// The raw operation may be applied, follows its specification, and
    /// gives a valid result.
    open spec fn rem_req(self, rhs: Self) -> bool {
        &&& F::obeys_rem_spec()
        &&& self.raw_value().rem_req(rhs.raw_value())
        &&& C::is_valid(self.raw_value().rem_spec(rhs.raw_value()))
    }

    /// The checked value holding the raw result.
    open spec fn rem_spec(self, rhs: Self) -> Self {
        Self::wrap_raw(self.raw_value().rem_spec(rhs.raw_value()))
    }
}

impl<F: Copy + core::ops::Neg<Output = F>, C: FloatChecker<F>> core::ops::Neg for NoisyFloat<F, C> {
    type Output = Self;

    fn neg(self) -> (r: Self) {
        let v = self.raw().neg();
        Self::new(v)
    }
}

impl<F: Copy + core::ops::Neg<Output = F>, C: FloatChecker<F>> vstd::std_specs::ops::NegSpecImpl for NoisyFloat<F, C> {
    open spec fn obeys_neg_spec() -> bool {
        F::obeys_neg_spec()
    }

    /// The raw negation may be applied, follows its specification, and gives
    /// a valid result.
    open spec fn neg_req(self) -> bool {
        &&& F::obeys_neg_spec()
        &&& self.raw_value().neg_req()
        &&& C::is_valid(self.raw_value().neg_spec())
    }

    /// The checked value holding the negated raw value.
    open spec fn neg_spec(self) -> Self {
        Self::wrap_raw(self.raw_value().neg_spec())
    }
}



impl<F: Copy, C: FloatChecker<F>> NoisyFloat<F, C> {
    /// Replaces the value by `self + rhs`, whose raw result must be valid.
    pub fn add_assign(&mut self, rhs: Self)
        where
            F: core::ops::Add<Output = F>,
        requires
            old(self).add_req(rhs),
        ensures
            *final(self) == old(self).add_spec(rhs),
            final(self).raw_value() == old(self).raw_value().add_spec(rhs.raw_value()),
    {
        let v = self.raw().add(rhs.raw());
        proof {
            Self::lemma_round_trip(v);
        }
        *self = Self::new(v);
    }

    /// Replaces the value by `self - rhs`, whose raw result must be valid.
    pub fn sub_assign(&mut self, rhs: Self)
        where
            F: core::ops::Sub<Output = F>,
        requires
            old(self).sub_req(rhs),
        ensures
            *final(self) == old(self).sub_spec(rhs),
            final(self).raw_value() == old(self).raw_value().sub_spec(rhs.raw_value()),
    {
        let v = self.raw().sub(rhs.raw());
        proof {
            Self::lemma_round_trip(v);
        }
        *self = Self::new(v);
    }

    /// Replaces the value by `self * rhs`, whose raw result must be valid.
    pub fn mul_assign(&mut self, rhs: Self)
        where
            F: core::ops::Mul<Output = F>,
        requires
            old(self).mul_req(rhs),
        ensures
            *final(self) == old(self).mul_spec(rhs),
            final(self).raw_value() == old(self).raw_value().mul_spec(rhs.raw_value()),
    {
        let v = self.raw().mul(rhs.raw());
        proof {
            Self::lemma_round_trip(v);
        }
        *self = Self::new(v);
    }

    /// Replaces the value by `self / rhs`, whose raw result must be valid.
    pub fn div_assign(&mut self, rhs: Self)
        where
            F: core::ops::Div<Output = F>,
        requires
            old(self).div_req(rhs),
        ensures
            *final(self) == old(self).div_spec(rhs),
            final(self).raw_value() == old(self).raw_value().div_spec(rhs.raw_value()),
    {
        let v = self.raw().div(rhs.raw());
        proof {
            Self::lemma_round_trip(v);
        }
        *self = Self::new(v);
    }

    /// Replaces the value by `self % rhs`, whose raw result must be valid.
    pub fn rem_assign(&mut self, rhs: Self)
        where
            F: core::ops::Rem<Output = F>,
        requires
            old(self).rem_req(rhs),
        ensures
            *final(self) == old(self).rem_spec(rhs),
            final(self).raw_value() == old(self).raw_value().rem_spec(rhs.raw_value()),
    {
        let v = self.raw().rem(rhs.raw());
        proof {
            Self::lemma_round_trip(v);
        }
        *self = Self::new(v);
    }
}

/// Every arithmetic operator on checked values either is refused, because
/// the raw result is invalid, or gives a checked value whose raw value is
/// exactly the raw result.
pub proof fn lemma_arithmetic_exact<F, C>(a: NoisyFloat<F, C>, b: NoisyFloat<F, C>)
    where
        F: Copy + core::ops::Add<Output = F> + core::ops::Sub<Output = F> + core::ops::Mul<Output = F>
            + core::ops::Div<Output = F> + core::ops::Rem<Output = F>,
        C: FloatChecker<F>,
    ensures
        F::obeys_add_spec() && a.raw_value().add_req(b.raw_value()) ==> {
            &&& a.add_req(b) <==> C::is_valid(a.raw_value().add_spec(b.raw_value()))
            &&& a.add_spec(b).raw_value() == a.raw_value().add_spec(b.raw_value())
        },
        F::obeys_sub_spec() && a.raw_value().sub_req(b.raw_value()) ==> {
            &&& a.sub_req(b) <==> C::is_valid(a.raw_value().sub_spec(b.raw_value()))
            &&& a.sub_spec(b).raw_value() == a.raw_value().sub_spec(b.raw_value())
        },
        F::obeys_mul_spec() && a.raw_value().mul_req(b.raw_value()) ==> {
            &&& a.mul_req(b) <==> C::is_valid(a.raw_value().mul_spec(b.raw_value()))
            &&& a.mul_spec(b).raw_value() == a.raw_value().mul_spec(b.raw_value())
        },
        F::obeys_div_spec() && a.raw_value().div_req(b.raw_value()) ==> {
            &&& a.div_req(b) <==> C::is_valid(a.raw_value().div_spec(b.raw_value()))
            &&& a.div_spec(b).raw_value() == a.raw_value().div_spec(b.raw_value())
        },
        F::obeys_rem_spec() && a.raw_value().rem_req(b.raw_value()) ==> {
            &&& a.rem_req(b) <==> C::is_valid(a.raw_value().rem_spec(b.raw_value()))
            &&& a.rem_spec(b).raw_value() == a.raw_value().rem_spec(b.raw_value())
        },
{
    NoisyFloat::<F, C>::lemma_round_trip(a.raw_value().add_spec(b.raw_value()));
    NoisyFloat::<F, C>::lemma_round_trip(a.raw_value().sub_spec(b.raw_value()));
    NoisyFloat::<F, C>::lemma_round_trip(a.raw_value().mul_spec(b.raw_value()));
    NoisyFloat::<F, C>::lemma_round_trip(a.raw_value().div_spec(b.raw_value()));
    NoisyFloat::<F, C>::lemma_round_trip(a.raw_value().rem_spec(b.raw_value()));
}

} // verus!
