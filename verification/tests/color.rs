//! Packed 5:6:5 colour: exact packing, accessors, and shading scale.

use voxcast::{Fixed, Rgb565};

#[test]
fn packing_drops_the_low_bits() {
    let c = Rgb565::new(174, 200, 235);
    // 174 -> 10101_110, 200 -> 110010_00, 235 -> 11101_011
    assert_eq!(c.bits, (0b10101 << 11) | (0b110010 << 5) | 0b11101);
    assert_eq!(c.r(), 168);
    assert_eq!(c.g(), 200);
    assert_eq!(c.b(), 232);
}

#[test]
fn black_and_white_ends() {
    assert_eq!(Rgb565::black().bits, 0);
    let w = Rgb565::new(255, 255, 255);
    assert_eq!(w.bits, 0xffff);
    assert_eq!(w.r(), 248);
    assert_eq!(w.g(), 252);
    assert_eq!(w.b(), 248);
}

#[test]
fn scale_halves_each_channel() {
    let c = Rgb565::new(200, 100, 56);
    let half = c.scale(Fixed::from_raw(0x4000));
    // Stored channels are 200, 100, 56; halved then repacked.
    assert_eq!(half.r(), (200 / 2 / 8) * 8);
    assert_eq!(half.g(), (100 / 2 / 4) * 4);
    assert_eq!(half.b(), (56 / 2 / 8) * 8);
}

#[test]
fn scale_by_one_keeps_stored_channels() {
    let c = Rgb565::new(90, 133, 77);
    let same = c.scale(Fixed::from_raw(0x8000));
    assert_eq!(same.r(), c.r());
    assert_eq!(same.g(), c.g());
    assert_eq!(same.b(), c.b());
}

#[test]
fn scale_by_zero_is_black() {
    let c = Rgb565::new(255, 255, 255);
    assert_eq!(c.scale(Fixed::from_raw(0)).bits, 0);
}
