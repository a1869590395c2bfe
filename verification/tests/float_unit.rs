use core_sim::fpu::{fge, fisneg, fispos, fiszero, flt, fneg, fsgnj, fsgnjn, fsgnjx, is_nan};

#[test]
fn test_ftoi() {
    assert_eq!(24i32, (23.7f32.round() as i32));
}

fn samples() -> Vec<f32> {
    vec![
        0.0,
        -0.0,
        1.0,
        -1.0,
        0.5,
        -0.5,
        23.7,
        -200.0,
        1.0e-40,
        -1.0e-40,
        f32::MAX,
        f32::MIN,
        f32::MIN_POSITIVE,
        f32::INFINITY,
        f32::NEG_INFINITY,
        f32::NAN,
        -f32::NAN,
        16777216.0,
        3.0e9,
    ]
}

#[test]
fn comparisons_agree_with_the_host() {
    for a in samples() {
        assert_eq!(is_nan(a.to_bits()), a.is_nan());
        assert_eq!(fiszero(a.to_bits()), a == 0.0);
        assert_eq!(fispos(a.to_bits()), a > 0.0);
        assert_eq!(fisneg(a.to_bits()), a < 0.0);
        for b in samples() {
            assert_eq!(flt(a.to_bits(), b.to_bits()), a < b, "{a} < {b}");
            assert_eq!(fge(a.to_bits(), b.to_bits()), a >= b, "{a} >= {b}");
        }
    }
}

#[test]
fn sign_injection_agrees_with_the_host() {
    for a in samples() {
        assert_eq!(fneg(a.to_bits()), (-a).to_bits());
        for b in samples() {
            assert_eq!(fsgnj(a.to_bits(), b.to_bits()), a.copysign(b).to_bits());
            assert_eq!(fsgnjn(a.to_bits(), b.to_bits()), a.copysign(-b).to_bits());
            if !a.is_nan() && !b.is_nan() {
                assert_eq!(
                    fsgnjx(a.to_bits(), b.to_bits()),
                    a.copysign(a.signum() * b.signum()).to_bits()
                );
            }
        }
    }
}

#[test]
fn sign_injection_on_chosen_values() {
    let one = 1.0f32.to_bits();
    let minus_two = (-2.0f32).to_bits();
    assert_eq!(fsgnj(one, minus_two), (-1.0f32).to_bits());
    assert_eq!(fsgnjn(one, minus_two), one);
    assert_eq!(fsgnjx(minus_two, minus_two), 2.0f32.to_bits());
    assert_eq!(fsgnjx(one, minus_two), (-1.0f32).to_bits());
}
