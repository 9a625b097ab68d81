use rmm_curves::binary64::Binary64;
use rmm_curves::domain::check_parameters;
use rmm_curves::domain::check_series;
use rmm_curves::domain::first_unusable;
use rmm_curves::error::ModelError;

fn num(x: f64) -> Binary64 {
    Binary64::from_bits(x.to_bits())
}

fn nums(xs: &[f64]) -> Vec<Binary64> {
    xs.iter().map(|x| num(*x)).collect()
}

#[test]
fn parameters_in_the_domain_are_accepted() {
    assert_eq!(check_parameters(num(1.0), num(0.1), num(1.0)), Ok(()));
    assert_eq!(check_parameters(num(100.0), num(0.0), num(1.0)), Ok(()));
    assert_eq!(check_parameters(num(100.0), num(0.3), num(0.0)), Ok(()));
    assert_eq!(check_parameters(num(5e-324), num(-0.0), num(-0.0)), Ok(()));
    assert_eq!(check_parameters(num(f64::MAX), num(f64::MAX), num(f64::INFINITY)), Ok(()));
}

#[test]
fn parameters_outside_the_domain_are_invalid() {
    let invalid = Err(ModelError::InvalidParameter);
    assert_eq!(check_parameters(num(0.0), num(0.1), num(1.0)), invalid);
    assert_eq!(check_parameters(num(-1.0), num(0.1), num(1.0)), invalid);
    assert_eq!(check_parameters(num(f64::NAN), num(0.1), num(1.0)), invalid);
    assert_eq!(check_parameters(num(1.0), num(-0.1), num(1.0)), invalid);
    assert_eq!(check_parameters(num(1.0), num(-5e-324), num(1.0)), invalid);
    assert_eq!(check_parameters(num(1.0), num(f64::NAN), num(1.0)), invalid);
    assert_eq!(check_parameters(num(1.0), num(0.1), num(-1.0)), invalid);
    assert_eq!(check_parameters(num(1.0), num(0.1), num(f64::NEG_INFINITY)), invalid);
    assert_eq!(check_parameters(num(1.0), num(0.1), num(f64::NAN)), invalid);
}

#[test]
fn first_unusable_finds_the_first_price_not_above_zero() {
    assert_eq!(first_unusable(&nums(&[])), None);
    assert_eq!(first_unusable(&nums(&[0.01, 1.0, 20.0, f64::INFINITY])), None);
    assert_eq!(first_unusable(&nums(&[0.0, 1.0])), Some(0));
    assert_eq!(first_unusable(&nums(&[1.0, 2.0, -0.0, 0.0])), Some(2));
    assert_eq!(first_unusable(&nums(&[1.0, 2.0, 3.0, -1.0])), Some(3));
    assert_eq!(first_unusable(&nums(&[1.0, f64::NAN, -1.0])), Some(1));
}

#[test]
fn a_series_is_judged_after_the_parameters() {
    let prices = nums(&[1.0, 0.0]);
    assert_eq!(
        check_series(&prices, num(1.0), num(-0.1), num(1.0)),
        Err(ModelError::InvalidParameter)
    );
    assert_eq!(
        check_series(&prices, num(1.0), num(0.1), num(1.0)),
        Err(ModelError::DegenerateInput)
    );
    assert_eq!(check_series(&nums(&[1.0, 2.0]), num(1.0), num(0.1), num(1.0)), Ok(()));
    assert_eq!(check_series(&nums(&[]), num(1.0), num(0.1), num(1.0)), Ok(()));
}

#[test]
fn singular_parameters_are_degenerate() {
    let prices = nums(&[1.0, 2.0]);
    assert_eq!(
        check_series(&prices, num(1.0), num(0.0), num(1.0)),
        Err(ModelError::DegenerateInput)
    );
    assert_eq!(
        check_series(&prices, num(1.0), num(0.1), num(0.0)),
        Err(ModelError::DegenerateInput)
    );
    assert_eq!(
        check_series(&nums(&[]), num(1.0), num(0.0), num(0.0)),
        Err(ModelError::DegenerateInput)
    );
}
