use particle_transport::scalar::half_bits;
use particle_transport::scalar::neg_bits;
use particle_transport::scalar::order_key;

// A spread of finite values: zeros of both signs, subnormals, ordinary
// magnitudes, the fit thresholds, and the largest finite value.
fn samples() -> Vec<f64> {
    vec![
        0.0,
        -0.0,
        5e-324,
        -5e-324,
        1.5e-323,
        2.2250738585072014e-308,
        -2.2250738585072014e-308,
        1e-300,
        0.01,
        0.103,
        -0.103,
        0.511,
        0.8,
        1.0,
        -1.0,
        7.1,
        50.0,
        105.66,
        299.792458,
        -299.792458,
        1.7976931348623157e308,
        -1.7976931348623157e308,
    ]
}

#[test]
fn test_order_key_matches_float_order() {
    let xs = samples();
    for &a in &xs {
        for &b in &xs {
            let ka = order_key(a.to_bits());
            let kb = order_key(b.to_bits());
            if a < b {
                assert!(ka < kb, "key order lost for {} < {}", a, b);
            }
            if ka < kb {
                assert!(a <= b, "key order invented for {} vs {}", a, b);
            }
        }
    }
}

#[test]
fn test_half_bits_matches_float_halving() {
    for &x in &samples() {
        let halved = f64::from_bits(half_bits(x.to_bits()));
        assert_eq!(
            halved.to_bits(),
            (x / 2.0).to_bits(),
            "halving diverged for {}",
            x
        );
    }
}

#[test]
fn test_half_bits_rounds_subnormal_ties_to_even() {
    // One unit in the last place of the subnormal range: half of it ties and
    // rounds down to zero; three units tie and round up to two.
    let one_ulp = f64::from_bits(1);
    let three_ulp = f64::from_bits(3);
    assert_eq!(half_bits(one_ulp.to_bits()), 0);
    assert_eq!(half_bits(three_ulp.to_bits()), 2);
    assert_eq!((one_ulp / 2.0).to_bits(), 0);
    assert_eq!((three_ulp / 2.0).to_bits(), 2);
}

#[test]
fn test_neg_bits_matches_float_negation() {
    for &x in &samples() {
        assert_eq!(neg_bits(x.to_bits()), (-x).to_bits(), "negation diverged for {}", x);
    }
}
