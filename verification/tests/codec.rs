use modelassetlib::bits::i32_to_i8;
use modelassetlib::bits::i8_to_i32;
use modelassetlib::bits::u32_to_u8;
use modelassetlib::bits::u8_to_u32;

#[test]
fn u8_to_u32_packs_big_endian() {
    assert_eq!(u8_to_u32((0x12, 0x34, 0x56, 0x78)), 0x12345678);
    assert_eq!(u8_to_u32((0, 0, 0, 0)), 0);
    assert_eq!(u8_to_u32((0xFF, 0xFF, 0xFF, 0xFF)), u32::MAX);
    assert_eq!(u8_to_u32((0, 0, 0, 1)), 1);
    assert_eq!(u8_to_u32((1, 0, 0, 0)), 0x0100_0000);
}

#[test]
fn u32_to_u8_splits_big_endian() {
    assert_eq!(u32_to_u8(0x12345678), (0x12, 0x34, 0x56, 0x78));
    assert_eq!(u32_to_u8(0), (0, 0, 0, 0));
    assert_eq!(u32_to_u8(u32::MAX), (0xFF, 0xFF, 0xFF, 0xFF));
    assert_eq!(u32_to_u8(1), (0, 0, 0, 1));
}

#[test]
fn u32_round_trip() {
    for n in [0u32, 1, 0xFF, 0x1234_5678, 0xDEAD_BEEF, u32::MAX] {
        assert_eq!(u8_to_u32(u32_to_u8(n)), n);
    }
}

#[test]
fn u8_quad_round_trip() {
    for quad in [(0u8, 0u8, 0u8, 0u8), (1, 2, 3, 4), (0xFF, 0, 0xFF, 0)] {
        assert_eq!(u32_to_u8(u8_to_u32(quad)), quad);
    }
}

#[test]
fn i8_to_i32_reinterprets_bits() {
    assert_eq!(i8_to_i32((-1, -1, -1, -1)), -1);
    assert_eq!(i8_to_i32((0, 0, 0, 0)), 0);
    assert_eq!(i8_to_i32((0x12, 0x34, 0x56, 0x78)), 0x12345678);
}

#[test]
fn i32_round_trip() {
    for n in [0i32, 1, -1, i32::MIN, i32::MAX, 123456789, -987654321] {
        assert_eq!(i8_to_i32(i32_to_i8(n)), n);
    }
}

#[test]
fn i8_quad_round_trip() {
    for quad in [(0i8, 0i8, 0i8, 0i8), (-1, 2, -3, 4), (i8::MIN, i8::MAX, 0, -1)] {
        assert_eq!(i32_to_i8(i8_to_i32(quad)), quad);
    }
}

#[test]
fn float_bits_round_trip_through_codec() {
    for x in [1.0f32, 2.0, 3.5, -0.25, 0.0] {
        let packed = u32_to_u8(x.to_bits());
        assert_eq!(f32::from_bits(u8_to_u32(packed)), x);
    }
}
