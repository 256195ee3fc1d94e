use radnelac::common::math::gcd;
use radnelac::common::math::lcm;
use radnelac::common::math::modulus;
use radnelac::common::math::validate_mixed_radix;
use radnelac::common::error::CalendarError;
use radnelac::common::math::EFFECTIVE_MAX;
use radnelac::common::math::EFFECTIVE_MIN;
use radnelac::day_count::fixed::FIXED_MAX;
use radnelac::day_count::fixed::FIXED_MIN;

#[test]
fn modulus_basics() {
    assert_eq!(modulus(9, 5), 4);
    assert_eq!(modulus(-9, 5), 1);
    assert_eq!(modulus(9, -5), -1);
    assert_eq!(modulus(-9, -5), -4);
}

#[test]
fn adjusted_remainder() {
    assert_eq!(radnelac::common::math::adjusted_remainder(13, 12), 1);
}

#[test]
#[should_panic]
fn modulus_zero() {
    modulus(123, 0);
}

#[test]
fn gcd_wikipedia_examples() {
    assert_eq!(gcd(8, 12), 4);
    assert_eq!(gcd(54, 24), 6);
    assert_eq!(gcd(9, 28), 1);
    assert_eq!(gcd(24, 60), 12);
    assert_eq!(gcd(42, 56), 14);
}

#[test]
fn lcm_wikipedia_examples() {
    assert_eq!(lcm(5, 4), 20);
    assert_eq!(lcm(6, 4), 12);
}

#[test]
fn bounds_propeties() {
    assert!(FIXED_MAX < EFFECTIVE_MAX && FIXED_MAX > (EFFECTIVE_MAX / 2));
    assert!(FIXED_MIN > EFFECTIVE_MIN && FIXED_MIN < (EFFECTIVE_MIN / 2));
}

#[test]
fn mixed_radix_validation() {
    assert_eq!(validate_mixed_radix(&[1, 2, 3], &[24, 60]), Ok(()));
    assert_eq!(
        validate_mixed_radix(&[1, 2], &[24, 60]),
        Err(CalendarError::MixedRadixWrongSize)
    );
    assert_eq!(
        validate_mixed_radix(&[], &[]),
        Err(CalendarError::MixedRadixWrongSize)
    );
    assert_eq!(
        validate_mixed_radix(&[1, 2, 3], &[24, 0]),
        Err(CalendarError::MixedRadixZeroBase)
    );
}
