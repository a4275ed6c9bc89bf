//! Vector algebra: exact component cases and the normalization envelope.

use voxcast::{Fixed, Vec3, Vec3i};

fn fx(x: f64) -> Fixed {
    Fixed::from_raw((x * 32768.0) as i32)
}

fn v(x: f64, y: f64, z: f64) -> Vec3 {
    Vec3::new(fx(x), fx(y), fx(z))
}

fn to_f(v: Fixed) -> f64 {
    (v.raw as f64) / 32768.0
}

/// A tiny deterministic generator so the sweeps are reproducible.
struct Lcg(u64);

impl Lcg {
    fn next(&mut self) -> u64 {
        self.0 = self.0.wrapping_mul(6364136223846793005).wrapping_add(1442695040888963407);
        self.0 >> 11
    }

    fn uniform(&mut self, lo: f64, hi: f64) -> f64 {
        let u = (self.next() % 1_000_000_007) as f64 / 1_000_000_007.0;
        lo + u * (hi - lo)
    }
}

#[test]
fn componentwise_ops() {
    assert_eq!(v(1.0, 2.0, 3.0).add(v(0.5, -1.0, 2.0)), v(1.5, 1.0, 5.0));
    assert_eq!(v(1.0, 2.0, 3.0).sub(v(0.5, -1.0, 2.0)), v(0.5, 3.0, 1.0));
    assert_eq!(v(1.0, -2.0, 3.0).neg(), v(-1.0, 2.0, -3.0));
    assert_eq!(v(1.0, 2.0, 3.0).scale(fx(0.5)), v(0.5, 1.0, 1.5));
}

#[test]
fn dot_and_cross_formulae() {
    assert_eq!(v(1.0, 2.0, 3.0).dot(v(4.0, -5.0, 6.0)), fx(12.0));
    // The canonical right-handed frame.
    assert_eq!(Vec3::right().cross(Vec3::up()), Vec3::forward());
    assert_eq!(Vec3::up().cross(Vec3::forward()), Vec3::right());
    assert_eq!(Vec3::forward().cross(Vec3::right()), Vec3::up());
    assert_eq!(v(1.0, 2.0, 3.0).cross(v(4.0, 5.0, 6.0)), v(-3.0, 6.0, -3.0));
    assert_eq!(v(2.0, 0.0, 0.0).magnitude_squared(), fx(4.0));
}

#[test]
fn floor_gives_the_containing_voxel() {
    let f = v(1.5, -0.25, 3.0).floor();
    assert_eq!(f, Vec3i::new(1, -1, 3));
}

#[test]
fn unit_axis_constants() {
    assert_eq!(Vec3::up(), v(0.0, 1.0, 0.0));
    assert_eq!(Vec3::right(), v(1.0, 0.0, 0.0));
    assert_eq!(Vec3::forward(), v(0.0, 0.0, 1.0));
    assert_eq!(Vec3::zero(), v(0.0, 0.0, 0.0));
}

#[test]
fn normalize_within_two_percent() {
    let mut rng = Lcg(11);
    let mut tested = 0;
    while tested < 10000 {
        let n = rng.uniform(0.1, 100.0);
        let a = rng.uniform(-1.0, 1.0);
        let b = rng.uniform(-1.0, 1.0);
        let c = rng.uniform(-1.0, 1.0);
        let m = (a * a + b * b + c * c).sqrt();
        if m < 1e-6 {
            continue;
        }
        let vec = v(n * a / m, n * b / m, n * c / m);
        if vec == Vec3::zero() {
            continue;
        }
        let nv = vec.normalized();
        let len = (to_f(nv.x).powi(2) + to_f(nv.y).powi(2) + to_f(nv.z).powi(2)).sqrt();
        assert!((0.98..=1.02).contains(&len), "n={n} len={len}");
        tested += 1;
    }
}

#[test]
fn vec3i_ops() {
    assert_eq!(Vec3i::new(1, 2, 3).add(Vec3i::new(4, 5, 6)), Vec3i::new(5, 7, 9));
    assert_eq!(Vec3i::new(1, 2, 3).sub(Vec3i::new(4, 5, 6)), Vec3i::new(-3, -3, -3));
    assert_eq!(Vec3i::new(1, -2, 3).mul(-4), Vec3i::new(-4, 8, -12));
    assert_eq!(Vec3i::new(1, -2, 0).neg(), Vec3i::new(-1, 2, 0));
    assert_eq!(Vec3i::new(3, -4, 12).magnitude_squared(), 169);
    assert_eq!(Vec3i::zero(), Vec3i::new(0, 0, 0));
}
