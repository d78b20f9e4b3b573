use noisy_float::{FloatChecker, NoisyFloat};
use std::cmp::Ordering;
use std::mem::{align_of, size_of};

/// Accepts every value but NaN.
#[derive(Debug)]
struct NumChecker;

/// Accepts finite values only.
#[derive(Debug)]
struct FiniteChecker;

impl FloatChecker<f32> for NumChecker {
    fn is_valid(value: f32) -> bool {
        !value.is_nan()
    }

    fn check(value: f32) -> bool {
        !value.is_nan()
    }

    fn assert_valid(value: f32) {
        assert!(!value.is_nan(), "unexpected NaN");
    }
}

impl FloatChecker<f64> for NumChecker {
    fn is_valid(value: f64) -> bool {
        !value.is_nan()
    }

    fn check(value: f64) -> bool {
        !value.is_nan()
    }

    fn assert_valid(value: f64) {
        assert!(!value.is_nan(), "unexpected NaN");
    }
}

impl FloatChecker<f32> for FiniteChecker {
    fn is_valid(value: f32) -> bool {
        value.is_finite()
    }

    fn check(value: f32) -> bool {
        value.is_finite()
    }

    fn assert_valid(value: f32) {
        assert!(value.is_finite(), "unexpected NaN or infinity");
    }
}

impl FloatChecker<f64> for FiniteChecker {
    fn is_valid(value: f64) -> bool {
        value.is_finite()
    }

    fn check(value: f64) -> bool {
        value.is_finite()
    }

    fn assert_valid(value: f64) {
        assert!(value.is_finite(), "unexpected NaN or infinity");
    }
}

type N32 = NoisyFloat<f32, NumChecker>;
type N64 = NoisyFloat<f64, NumChecker>;
type R32 = NoisyFloat<f32, FiniteChecker>;
type R64 = NoisyFloat<f64, FiniteChecker>;

fn n64(value: f64) -> N64 {
    N64::new(value)
}

fn r64(value: f64) -> R64 {
    R64::new(value)
}

#[test]
fn smoke_test() {
    assert_eq!((n64(1.0) + n64(2.0)).raw(), 3.0);
    assert_ne!(n64(3.0), n64(2.9));
    assert!(r64(1.0) < r64(2.0));
    let mut value = n64(18.0);
    value.rem_assign(n64(5.0));
    assert_eq!(-value, n64(-3.0));
    assert_eq!(r64(1.0f64.exp()).raw(), std::f64::consts::E);
    assert_eq!((N64::try_new(1.0).unwrap() / N64::new(f64::INFINITY)).raw(), 0.0);
    assert_eq!(N64::new(f32::INFINITY as f64), N64::new(f64::INFINITY));
    assert!(R64::try_new(f64::NEG_INFINITY).is_none());
    assert!(N64::try_new(f64::NAN).is_none());
    assert!(R64::try_new(f64::NAN).is_none());
}

#[test]
fn ensure_layout() {
    assert_eq!(size_of::<N32>(), size_of::<f32>());
    assert_eq!(align_of::<N32>(), align_of::<f32>());

    assert_eq!(size_of::<N64>(), size_of::<f64>());
    assert_eq!(align_of::<N64>(), align_of::<f64>());
}

#[test]
#[should_panic]
fn n64_nan() {
    let _ = n64(0.0) / n64(0.0);
}

#[test]
#[should_panic]
fn r64_nan() {
    let _ = r64(0.0) / r64(0.0);
}

#[test]
#[should_panic]
fn r64_infinity() {
    let _ = r64(1.0) / r64(0.0);
}

#[test]
fn finite_layout_matches_raw() {
    assert_eq!(size_of::<R32>(), size_of::<f32>());
    assert_eq!(align_of::<R32>(), align_of::<f32>());
    assert_eq!(size_of::<R64>(), size_of::<f64>());
    assert_eq!(align_of::<R64>(), align_of::<f64>());
}

#[test]
fn try_new_keeps_valid_value_exactly() {
    for v in [0.0, -0.0, 1.5, -2.25, 71.3, f64::MAX, f64::MIN_POSITIVE, f64::INFINITY] {
        let x = N64::try_new(v).unwrap();
        assert_eq!(x.raw().to_bits(), v.to_bits());
    }
    for v in [0.0f32, -7.5, f32::MAX] {
        let x = R32::try_new(v).unwrap();
        assert_eq!(x.raw().to_bits(), v.to_bits());
    }
}

#[test]
fn try_new_rejects_invalid_values() {
    assert!(N64::try_new(f64::NAN).is_none());
    assert!(N32::try_new(f32::NAN).is_none());
    assert!(R64::try_new(f64::INFINITY).is_none());
    assert!(R32::try_new(f32::NEG_INFINITY).is_none());
}

#[test]
fn arithmetic_matches_raw_results() {
    let a = 7.25f64;
    let b = -1.5f64;
    let x = r64(a);
    let y = r64(b);
    assert_eq!((x + y).raw().to_bits(), (a + b).to_bits());
    assert_eq!((x - y).raw().to_bits(), (a - b).to_bits());
    assert_eq!((x * y).raw().to_bits(), (a * b).to_bits());
    assert_eq!((x / y).raw().to_bits(), (a / b).to_bits());
    assert_eq!((x % y).raw().to_bits(), (a % b).to_bits());
    assert_eq!((-x).raw().to_bits(), (-a).to_bits());
    assert_eq!((x + y).raw(), 5.75);
    assert_eq!((x % y).raw(), 1.25);
}

#[test]
fn compound_assignment_matches_raw_results() {
    let mut x = r64(7.25);
    x.add_assign(r64(0.75));
    assert_eq!(x.raw(), 8.0);
    x.sub_assign(r64(10.0));
    assert_eq!(x.raw(), -2.0);
    x.mul_assign(r64(-3.5));
    assert_eq!(x.raw(), 7.0);
    x.div_assign(r64(2.0));
    assert_eq!(x.raw(), 3.5);
    x.rem_assign(r64(2.0));
    assert_eq!(x.raw(), 1.5);
}

#[test]
fn overflowing_product_is_invalid_when_finite_only() {
    let raw = r64(f64::MAX).raw() * r64(2.0).raw();
    assert!(!<FiniteChecker as FloatChecker<f64>>::check(raw));
    assert!(R64::try_new(raw).is_none());
}

#[test]
fn overflowing_product_is_kept_when_only_nan_is_refused() {
    assert_eq!((n64(f64::MAX) * n64(2.0)).raw(), f64::INFINITY);
}

#[test]
fn comparison_is_total_on_valid_values() {
    let values = [n64(-1.5), n64(0.0), n64(-0.0), n64(3.0), n64(f64::INFINITY), n64(f64::NEG_INFINITY)];
    for a in values.iter() {
        for b in values.iter() {
            let lt = a < b;
            let eq = a == b;
            let gt = a > b;
            assert_eq!([lt, eq, gt].iter().filter(|x| **x).count(), 1);
            assert!(a.partial_cmp(b).is_some());
            let expected = if lt {
                Ordering::Less
            } else if eq {
                Ordering::Equal
            } else {
                Ordering::Greater
            };
            assert_eq!(a.cmp(b), expected);
            for c in values.iter() {
                if a < b && b < c {
                    assert!(a < c);
                }
            }
        }
    }
    assert_eq!(n64(0.0).cmp(&n64(-0.0)), Ordering::Equal);
    assert_eq!(n64(1.0).cmp(&n64(2.0)), Ordering::Less);
    assert_eq!(n64(2.0).cmp(&n64(1.0)), Ordering::Greater);
    assert!(n64(1.0) <= n64(1.0));
    assert!(n64(2.0) >= n64(1.0));
}

#[test]
fn finite_geometric_and_arithmetic_mean() {
    let a = r64(10.0);
    let b = r64(20.0);
    let geometric = r64((a * b).raw().sqrt());
    assert!((geometric.raw() - 14.142).abs() < 0.001);
    let arithmetic = (a + b) * r64(0.5);
    assert_eq!(arithmetic.raw(), 15.0);
}

#[test]
fn non_nan_min_and_max_over_collection() {
    let values = vec![n64(3.0), n64(-1.5), n64(71.3), n64(f64::INFINITY)];
    let mut min = values[0];
    let mut max = values[0];
    for v in values.iter() {
        if v.cmp(&min) == Ordering::Less {
            min = *v;
        }
        if v.cmp(&max) == Ordering::Greater {
            max = *v;
        }
    }
    assert_eq!(min, n64(-1.5));
    assert_eq!(max, n64(f64::INFINITY));
}

#[test]
fn zero_divided_by_zero_is_invalid_under_both_policies() {
    let raw = n64(0.0).raw() / n64(0.0).raw();
    assert!(N64::try_new(raw).is_none());
    assert!(R64::try_new(raw).is_none());
}

#[test]
fn zero_divided_by_infinity_is_zero() {
    assert_eq!((n64(0.0) / n64(f64::INFINITY)).raw(), 0.0);
}

#[test]
fn finite_try_new_rejects_infinities_and_nan() {
    assert!(R64::try_new(f64::INFINITY).is_none());
    assert!(R64::try_new(f64::NEG_INFINITY).is_none());
    assert!(R64::try_new(f64::NAN).is_none());
    assert!(R32::try_new(f32::INFINITY).is_none());
    assert!(R32::try_new(f32::NEG_INFINITY).is_none());
    assert!(R32::try_new(f32::NAN).is_none());
}

#[test]
fn clone_keeps_raw_value() {
    let x = r64(2.5);
    let y = x.clone();
    assert_eq!(y.raw(), 2.5);
    assert_eq!(x, y);
}
