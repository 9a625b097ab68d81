use rmm_curves::arithmetic::perform;
use rmm_curves::arithmetic::Operation;
use rmm_curves::binary64::Binary64;
use rmm_curves::normal::standard_gaussian_cdf;
use rmm_curves::normal::standard_gaussian_pdf;
use rmm_curves::normal::standard_normal_cdf;
use rmm_curves::normal::standard_normal_pdf;
use statrs::distribution::ContinuousCDF;
use statrs::distribution::Normal;

fn num(x: f64) -> Binary64 {
    Binary64::from_bits(x.to_bits())
}

fn val(b: Binary64) -> f64 {
    f64::from_bits(b.to_bits())
}

fn hardware(op: Operation) -> Binary64 {
    match op {
        Operation::Sum(a, b) => num(val(a) + val(b)),
        Operation::Difference(a, b) => num(val(a) - val(b)),
        Operation::Product(a, b) => num(val(a) * val(b)),
        Operation::Quotient(a, b) => num(val(a) / val(b)),
        Operation::SquareRoot(a) => num(val(a).sqrt()),
        Operation::Logarithm(a) => num(val(a).ln()),
        Operation::Exponential(a) => num(val(a).exp()),
        Operation::NormalCdf(a) => num(Normal::new(0.0, 1.0).unwrap().cdf(val(a))),
    }
}

fn pdf(x: f64) -> f64 {
    val(standard_normal_pdf(num(x), &hardware))
}

fn cdf(x: f64) -> f64 {
    val(standard_normal_cdf(num(x), &hardware))
}

#[test]
fn perform_hands_the_operation_to_the_arithmetic() {
    assert_eq!(val(perform(&hardware, Operation::Sum(num(1.5), num(2.25)))), 3.75);
    assert_eq!(val(perform(&hardware, Operation::Difference(num(1.5), num(2.25)))), -0.75);
    assert_eq!(val(perform(&hardware, Operation::Product(num(1.5), num(2.0)))), 3.0);
    assert_eq!(val(perform(&hardware, Operation::Quotient(num(1.5), num(2.0)))), 0.75);
    assert_eq!(val(perform(&hardware, Operation::SquareRoot(num(9.0)))), 3.0);
    assert_eq!(val(perform(&hardware, Operation::Logarithm(num(1.0)))), 0.0);
    assert_eq!(val(perform(&hardware, Operation::Exponential(num(0.0)))), 1.0);
    assert_eq!(val(perform(&hardware, Operation::NormalCdf(num(0.0)))), 0.5);
}

#[test]
fn density_at_zero_is_one_over_root_two_pi() {
    assert_eq!(pdf(0.0), 0.3989422804014327);
}

#[test]
fn normal_density_is_the_stated_formula() {
    for x in [-8.0, -3.5, -1.0, -0.25, 0.0, 0.05, 0.5, 1.0, 2.0, 6.0, 40.0] {
        let expected = 0.3989422804014327 * (-(x * x) / 2.0f64).exp();
        assert_eq!(pdf(x), expected, "{x}");
    }
    assert!((pdf(1.0) - 0.24197072451914337).abs() < 1e-15);
    assert!((pdf(2.0) - 0.05399096651318806).abs() < 1e-15);
}

#[test]
fn density_is_never_negative() {
    let mut x = -50.0;
    while x <= 50.0 {
        assert!(pdf(x) >= 0.0, "{x}");
        x += 0.125;
    }
    assert_eq!(pdf(f64::INFINITY), 0.0);
    assert_eq!(pdf(f64::NEG_INFINITY), 0.0);
}

#[test]
fn density_integrates_to_one() {
    let n = 40_000;
    let (lo, hi) = (-10.0f64, 10.0f64);
    let h = (hi - lo) / n as f64;
    let mut total = 0.5 * (pdf(lo) + pdf(hi));
    for k in 1..n {
        total += pdf(lo + h * k as f64);
    }
    assert!((total * h - 1.0).abs() < 1e-9, "{}", total * h);
}

#[test]
fn density_is_symmetric() {
    for x in [0.1, 0.5, 1.0, 2.5, 7.0] {
        assert_eq!(pdf(x), pdf(-x));
    }
}

#[test]
fn distribution_at_zero_is_one_half() {
    assert_eq!(cdf(0.0), 0.5);
}

#[test]
fn distribution_tends_to_zero_and_one() {
    assert_eq!(cdf(f64::NEG_INFINITY), 0.0);
    assert_eq!(cdf(f64::INFINITY), 1.0);
    assert!(cdf(-40.0) < 1e-300);
    assert_eq!(cdf(40.0), 1.0);
}

#[test]
fn distribution_is_symmetric() {
    let mut x = -8.0;
    while x <= 8.0 {
        assert!((cdf(-x) - (1.0 - cdf(x))).abs() < 1e-15, "{x}");
        x += 0.0625;
    }
}

#[test]
fn distribution_never_decreases() {
    let mut previous = cdf(-9.0);
    let mut x = -9.0;
    while x <= 9.0 {
        let here = cdf(x);
        assert!(here >= previous, "{x}");
        assert!((0.0..=1.0).contains(&here));
        previous = here;
        x += 0.03125;
    }
}

#[test]
fn distribution_matches_reference_values() {
    let reference = [
        (-8.0, 6.220960574271785e-16),
        (-3.0, 0.0013498980316300946),
        (-1.96, 0.024997895148220435),
        (-1.0, 0.15865525393145707),
        (0.5, 0.6914624612740131),
        (1.0, 0.8413447460685429),
        (1.96, 0.9750021048517795),
        (3.0, 0.9986501019683699),
        (8.0, 0.9999999999999993),
    ];
    for (x, expected) in reference {
        assert!((cdf(x) - expected).abs() < 1e-9, "{x}");
    }
}

#[test]
fn sequences_keep_length_and_order() {
    let xs: Vec<Binary64> = [-2.0, 0.0, 0.3, 5.0, -0.3].iter().map(|x| num(*x)).collect();
    let densities = standard_gaussian_pdf(&xs, &hardware);
    let probabilities = standard_gaussian_cdf(&xs, &hardware);
    assert_eq!(densities.len(), xs.len());
    assert_eq!(probabilities.len(), xs.len());
    for i in 0..xs.len() {
        assert_eq!(densities[i], standard_normal_pdf(xs[i], &hardware));
        assert_eq!(probabilities[i], standard_normal_cdf(xs[i], &hardware));
    }
    assert!(standard_gaussian_pdf(&Vec::new(), &hardware).is_empty());
    assert!(standard_gaussian_cdf(&Vec::new(), &hardware).is_empty());
}

#[test]
fn hardware_follows_the_sign_rules() {
    let samples = [
        0.0,
        -0.0,
        1.0,
        -1.0,
        0.3,
        -7.5,
        5e-324,
        -5e-324,
        f64::MAX,
        f64::MIN,
        f64::INFINITY,
        f64::NEG_INFINITY,
    ];
    for x in samples {
        let e = val(perform(&hardware, Operation::Exponential(num(x))));
        assert!(!e.is_nan() && e.is_sign_positive(), "{x}");
        for y in samples {
            let differ = x.is_sign_negative() != y.is_sign_negative();
            if !(x == 0.0 && y.is_infinite()) && !(x.is_infinite() && y == 0.0) {
                let p = val(perform(&hardware, Operation::Product(num(x), num(y))));
                assert!(!p.is_nan() && p.is_sign_negative() == differ, "{x} {y}");
            }
            if !(x == 0.0 && y == 0.0) && !(x.is_infinite() && y.is_infinite()) {
                let q = val(perform(&hardware, Operation::Quotient(num(x), num(y))));
                assert!(!q.is_nan() && q.is_sign_negative() == differ, "{x} {y}");
            }
        }
    }
    assert!(pdf(f64::NAN).is_nan());
}
