use core::cmp::Ordering;
use rand::Rng;
use unit_interval::{value_compare, value_equals, Fixed, UnitInterval, FIXED_ONE};

/// Wraps a count of millionths, which must lie in the unit interval.
fn u(micros: i64) -> UnitInterval<Fixed> {
    UnitInterval::new(Fixed(micros)).expect("value lies in the unit interval")
}

#[test]
fn bounds_tests() {
    assert_eq!(None, UnitInterval::new(Fixed(-100_000)));
    assert_eq!(Some(Fixed(0)), UnitInterval::new(Fixed(0)).map(|x| x.get()));
    assert_eq!(
        Some(Fixed(500_000)),
        UnitInterval::new(Fixed(500_000)).map(|x| x.get())
    );
    assert_eq!(
        Some(Fixed(1_000_000)),
        UnitInterval::new(Fixed(1_000_000)).map(|x| x.get())
    );
    assert_eq!(None, UnitInterval::new(Fixed(1_100_000)));
}

#[test]
fn complement() {
    assert_eq!(u(1_000_000), u(0).complement());
    assert_eq!(u(1_000_000 - 900_000), u(900_000).complement());
    assert_eq!(u(1_000_000 - 100_000), u(100_000).complement());
    assert_eq!(u(0), u(1_000_000).complement());
}

#[test]
fn boundary_round_trip() {
    assert_eq!(Fixed(0), u(0).get());
    assert_eq!(Fixed(FIXED_ONE), u(FIXED_ONE).get());
}

#[test]
fn round_trip_exact() {
    for micros in [0, 1, 250_000, 333_333, 999_999, FIXED_ONE] {
        assert_eq!(Fixed(micros), u(micros).get());
    }
}

#[test]
fn complement_involution() {
    for micros in [0, 1, 250_000, 333_333, 999_999, FIXED_ONE] {
        let x = u(micros);
        assert_eq!(x, x.complement().complement());
    }
}

#[test]
fn multiply_closure() {
    let samples = [0, 1, 250_000, 500_000, 999_999, FIXED_ONE];
    for a in samples {
        for b in samples {
            let product = u(a).multiply(u(b));
            assert!(UnitInterval::new(product.get()).is_some());
        }
    }
}

#[test]
fn multiply_exact_values() {
    assert_eq!(Fixed(250_000), u(500_000).multiply(u(500_000)).get());
    assert_eq!(Fixed(0), u(0).multiply(u(FIXED_ONE)).get());
    assert_eq!(Fixed(FIXED_ONE), u(FIXED_ONE).multiply(u(FIXED_ONE)).get());
    assert_eq!(Fixed(750_000), u(750_000).multiply(u(FIXED_ONE)).get());
    // The sixth fractional digit truncates toward zero: 0.333333 * 0.5
    // is 0.1666665, which the fixed-point product cuts to 0.166666.
    assert_eq!(Fixed(166_666), u(333_333).multiply(u(500_000)).get());
}

#[test]
fn comparison_symmetry() {
    let pairs = [
        (0, 0),
        (0, 500_000),
        (500_000, 0),
        (500_000, 500_000),
        (FIXED_ONE, 999_999),
        (999_999, FIXED_ONE),
    ];
    for (a, b) in pairs {
        let x = u(a);
        let v = Fixed(b);
        assert_eq!(x.equals_value(v), value_equals(v, x));
        let wrapper_to_raw = x.compare_value(v);
        let raw_to_wrapper = value_compare(v, x);
        assert_eq!(wrapper_to_raw.map(Ordering::reverse), raw_to_wrapper);
    }
    assert_eq!(Some(Ordering::Less), u(0).compare_value(Fixed(1)));
    assert_eq!(Some(Ordering::Greater), u(1).compare_value(Fixed(0)));
    assert_eq!(Some(Ordering::Equal), u(1).compare_value(Fixed(1)));
    assert!(u(250_000).equals_value(Fixed(250_000)));
    assert!(!u(250_000).equals_value(Fixed(250_001)));
}

#[test]
fn midpoint_scenario() {
    let half = UnitInterval::new(Fixed(500_000));
    assert!(half.is_some());
    let half = half.unwrap();
    assert_eq!(Fixed(500_000), half.get());
    assert_eq!(half, half.complement());
    assert_eq!(Fixed(250_000), half.multiply(half).get());
}

#[test]
fn default_is_zero() {
    assert_eq!(Fixed(0), UnitInterval::<Fixed>::default().get());
}

#[test]
fn clone_keeps_value() {
    let x = u(333_333);
    assert_eq!(x, x.clone());
}

#[test]
fn rand_distribution() {
    let mut rng = rand::thread_rng();
    for _ in 0..1000 {
        let x = Fixed(rng.gen_range(0..=FIXED_ONE));
        assert!(UnitInterval::new(x).is_some());
    }
}

#[test]
fn rand_generates_1() {
    let mut rng = rand::thread_rng();
    // The draw is inclusive of both endpoints, so the value one must
    // eventually appear; the iteration budget keeps the test bounded
    // while leaving the odds of a spurious miss negligible.
    for _ in 0..20_000_000_i64 {
        let x = Fixed(rng.gen_range(0..=FIXED_ONE));
        if UnitInterval::new(x).expect("drawn value lies in range").equals_value(Fixed(FIXED_ONE)) {
            return;
        }
    }
    panic!("an inclusive sampler must eventually draw the value one");
}
