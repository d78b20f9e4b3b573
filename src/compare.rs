//! Equality and ordering of checked values.
//!
//! Both are those of the raw values. Since no valid value is NaN, the raw
//! comparison never comes out unordered, which is what lets checked values be
//! compared totally.
use crate::{FloatChecker, NoisyFloat};
use core::cmp::Ordering;
use vstd::std_specs::cmp::{PartialEqSpec, PartialOrdSpec};
use vstd::prelude::*;

verus! {

impl<F: Copy + PartialEq, C: FloatChecker<F>> PartialEq for NoisyFloat<F, C> {
    fn eq(&self, other: &Self) -> (r: bool) {
        let a = self.raw();
        let b = other.raw();
        a.eq(&b)
    }
}

impl<F: Copy + PartialEq, C: FloatChecker<F>> vstd::std_specs::cmp::PartialEqSpecImpl for NoisyFloat<F, C> {
    open spec fn obeys_eq_spec() -> bool {
        F::obeys_eq_spec()
    }

    open spec fn eq_spec(&self, other: &Self) -> bool {
        self.raw_value().eq_spec(&other.raw_value())
    }
}

impl<F: Copy + PartialEq, C: FloatChecker<F>> Eq for NoisyFloat<F, C> {

}

impl<F: Copy + PartialOrd, C: FloatChecker<F>> PartialOrd for NoisyFloat<F, C> {
    fn partial_cmp(&self, other: &Self) -> (r: Option<Ordering>) {
        let a = self.raw();
        let b = other.raw();
        a.partial_cmp(&b)
    }

    fn lt(&self, other: &Self) -> (r: bool) {
        let a = self.raw();
        let b = other.raw();
        a.lt(&b)
    }

    fn le(&self, other: &Self) -> (r: bool) {
        let a = self.raw();
        let b = other.raw();
        a.le(&b)
    }

    fn gt(&self, other: &Self) -> (r: bool) {
        let a = self.raw();
        let b = other.raw();
        a.gt(&b)
    }

    fn ge(&self, other: &Self) -> (r: bool) {
        let a = self.raw();
        let b = other.raw();
        a.ge(&b)
    }
}

impl<F: Copy + PartialOrd, C: FloatChecker<F>> vstd::std_specs::cmp::PartialOrdSpecImpl for NoisyFloat<F, C> {
    open spec fn obeys_partial_cmp_spec() -> bool {
        F::obeys_partial_cmp_spec()
    }

    open spec fn partial_cmp_spec(&self, other: &Self) -> Option<Ordering> {
        self.raw_value().partial_cmp_spec(&other.raw_value())
    }
}

impl<F: Copy + PartialOrd, C: FloatChecker<F>> NoisyFloat<F, C> {
    /// Orders two checked values: `Less` where the raw values compare less,
    /// `Equal` where they compare equal, `Greater` otherwise.
    pub fn cmp(&self, other: &Self) -> (r: Ordering)
        ensures
            F::obeys_partial_cmp_spec() && F::obeys_eq_spec() ==> r == (
            if self.raw_value().partial_cmp_spec(&other.raw_value()) == Some(Ordering::Less) {
                Ordering::Less
            } else if self.raw_value().eq_spec(&other.raw_value()) {
                Ordering::Equal
            } else {
                Ordering::Greater
            }),
    {
        let a = self.raw();
        let b = other.raw();
        if a.lt(&b) {
            Ordering::Less
        } else if a.eq(&b) {
            Ordering::Equal
        } else {
            Ordering::Greater
        }
    }
}

} // verus!
