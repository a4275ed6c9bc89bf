//! Fixed-point arithmetic: exact register-level cases and the accuracy
//! envelopes of the hardware-style approximations.

use voxcast::Fixed;

/// Round-to-zero fixed-point construction from a float, as a host would
/// prepare register values.
fn fx(x: f64) -> Fixed {
    Fixed::from_raw((x * 32768.0) as i32)
}

fn to_f(v: Fixed) -> f64 {
    (v.raw as f64) / 32768.0
}

/// A tiny deterministic generator so the sweeps are reproducible.
struct Lcg(u64);

impl Lcg {
    fn next(&mut self) -> u64 {
        self.0 = self.0.wrapping_mul(6364136223846793005).wrapping_add(1442695040888963407);
        self.0 >> 11
    }

    /// A float uniform in [lo, hi).
    fn uniform(&mut self, lo: f64, hi: f64) -> f64 {
        let u = (self.next() % 1_000_000_007) as f64 / 1_000_000_007.0;
        lo + u * (hi - lo)
    }
}

#[test]
fn construction_and_accessors() {
    assert_eq!(fx(1.0).raw, 0x8000);
    assert_eq!(fx(-1.0).raw, -0x8000);
    assert_eq!(fx(0.5).raw, 0x4000);
    assert_eq!(Fixed::from_int(3).raw, 3 * 0x8000);
    assert_eq!(Fixed::from_int(-2).raw, -2 * 0x8000);
    assert_eq!(Fixed::one().raw, 0x8000);
    assert_eq!(Fixed::zero().raw, 0);
    assert_eq!(Fixed::max_value().raw, i32::MAX);
    assert_eq!(Fixed::min_value().raw, i32::MIN);
}

#[test]
fn exact_add_sub_mul_floor() {
    assert_eq!(fx(1.5).add(fx(2.25)), fx(3.75));
    assert_eq!(fx(1.5).sub(fx(2.0)), fx(-0.5));
    assert_eq!(fx(1.5).mul(fx(2.0)), fx(3.0));
    assert_eq!(fx(-1.5).mul(fx(2.0)), fx(-3.0));
    assert_eq!(fx(0.25).mul(fx(0.5)), fx(0.125));
    assert_eq!(fx(2.5).floor(), 2);
    assert_eq!(fx(-2.5).floor(), -3);
    assert_eq!(fx(-2.0).floor(), -2);
    assert_eq!(fx(0.0).floor(), 0);
    assert_eq!(fx(3.0).neg(), fx(-3.0));
    assert_eq!(fx(-4.0).abs(), fx(4.0));
    assert_eq!(fx(4.0).abs(), fx(4.0));
    assert!(fx(1.0).lt(fx(2.0)));
    assert!(!fx(2.0).lt(fx(1.0)));
}

#[test]
fn add_wraps_like_a_register() {
    let r = Fixed::max_value().add(Fixed::one());
    assert_eq!(r.raw, i32::MIN + 0x7fff);
}

#[test]
fn mul_saturates_at_the_register_width() {
    let big = Fixed::from_raw(i32::MAX);
    assert_eq!(big.mul(big).raw, i32::MAX);
    assert_eq!(big.mul(Fixed::from_raw(i32::MIN)).raw, i32::MIN);
}

#[test]
fn addition_matches_reals_within_one_lsb() {
    let mut rng = Lcg(7);
    for _ in 0..20000 {
        let a = rng.uniform(-1000.0, 1000.0);
        let b = rng.uniform(-1000.0, 1000.0);
        let got = fx(a).add(fx(b)).raw as i64;
        let want = fx(a + b).raw as i64;
        assert!((got - want).abs() <= 1, "a={a} b={b} got={got} want={want}");
    }
}

#[test]
fn multiplication_matches_reals_within_two_lsb() {
    // Inputs on a 1/256 grid are exactly representable, so only the
    // product's final rounding is in play.
    let mut rng = Lcg(8);
    for _ in 0..20000 {
        let a = (rng.uniform(-100.0, 100.0) * 256.0).round() / 256.0;
        let b = (rng.uniform(-100.0, 100.0) * 256.0).round() / 256.0;
        let got = fx(a).mul(fx(b)).raw as i64;
        let want = fx(a * b).raw as i64;
        assert!((got - want).abs() <= 2, "a={a} b={b} got={got} want={want}");
    }
}

#[test]
fn inv_sqrt_within_two_percent() {
    let mut rng = Lcg(9);
    let mut check = |v: f64| {
        let raw = fx(v);
        if raw.raw <= 0 {
            return;
        }
        let x = to_f(raw.inv_sqrt());
        let p = x * x * to_f(raw);
        assert!((p - 1.0).abs() <= 0.02, "v={v} p={p}");
    };
    for _ in 0..20000 {
        let v = rng.uniform(0.01, 1000.0);
        check(v);
    }
    check(0.01);
    check(1000.0);
    check(1.0);
    check(0.5);
}

#[test]
fn inv_sqrt_of_zero_is_zero() {
    assert_eq!(Fixed::zero().inv_sqrt(), Fixed::zero());
}

#[test]
fn recip_within_two_percent() {
    let mut check = |v: f64| {
        let raw = fx(v);
        if raw.raw == 0 {
            return;
        }
        let x = to_f(raw.recip_lte1());
        let p = x * to_f(raw);
        assert!((p - 1.0).abs() <= 0.02, "v={v} p={p}");
    };
    let mut i = 20;
    while i <= 1000 {
        check(i as f64 / 1000.0);
        check(-(i as f64) / 1000.0);
        i += 1;
    }
    let mut rng = Lcg(10);
    for _ in 0..20000 {
        let v = rng.uniform(0.02, 1.0);
        check(v);
        check(-v);
    }
}

#[test]
fn recip_of_zero_is_zero() {
    assert_eq!(Fixed::zero().recip_lte1(), Fixed::zero());
}
