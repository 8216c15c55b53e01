use eucalyptus::scale::SurfaceScale;

/// A length at a fractional scale, in double precision.
fn by_float(a: u32, scale: u32) -> u32 {
    (a as f64 * (scale as f64 / 120.0)) as u32
}

fn by_float_signed(a: i32, scale: u32) -> i32 {
    (a as f64 * (scale as f64 / 120.0)) as i32
}

#[test]
fn scale_of_one_is_the_identity() {
    for a in [0u32, 1, 40, 1080, 65_537, u32::MAX] {
        assert_eq!(a * SurfaceScale::FractionalScale(120), a);
        assert_eq!(a * SurfaceScale::BufferScale(1), a);
    }
}

#[test]
fn whole_fractional_scales_are_buffer_scales() {
    assert_eq!(40u32 * SurfaceScale::FractionalScale(240), 80);
    assert_eq!(40u32 * SurfaceScale::BufferScale(2), 80);
    assert_eq!(1921u32 * SurfaceScale::FractionalScale(360), 5763);
    assert_eq!(1921u32 * SurfaceScale::BufferScale(3), 5763);
}

#[test]
fn fractional_scales_drop_the_fraction() {
    assert_eq!(1920u32 * SurfaceScale::FractionalScale(150), 2400);
    assert_eq!(41u32 * SurfaceScale::FractionalScale(150), 51);
    assert_eq!(41u32 * SurfaceScale::FractionalScale(180), 61);
    assert_eq!(7u32 * SurfaceScale::FractionalScale(0), 0);
    assert_eq!(-41i32 * SurfaceScale::FractionalScale(150), -51);
}

#[test]
fn rounding_can_lose_a_whole_pixel() {
    // 100 * 522 / 120 is 435, but 522 / 120 is rounded down.
    assert_eq!(by_float(100, 522), 434);
    assert_eq!(100u32 * SurfaceScale::FractionalScale(522), 434);
}

#[test]
fn large_products_are_clipped() {
    assert_eq!(u32::MAX * SurfaceScale::FractionalScale(121), u32::MAX);
    assert_eq!(u32::MAX * SurfaceScale::FractionalScale(u32::MAX), u32::MAX);
    // A product below the end of `u32`, and one just above it.
    assert_eq!(0x8000_0000u32 * SurfaceScale::FractionalScale(239), 0xfeee_eeee);
    assert_eq!(0x8000_0000u32 * SurfaceScale::FractionalScale(240), u32::MAX);
    assert_eq!(i32::MAX * SurfaceScale::FractionalScale(240), i32::MAX);
    assert_eq!(i32::MIN * SurfaceScale::FractionalScale(240), i32::MIN);
    assert_eq!(i32::MIN * SurfaceScale::FractionalScale(120), i32::MIN);
    assert_eq!(i32::MAX * SurfaceScale::FractionalScale(121), i32::MAX);
    assert_eq!(i32::MIN * SurfaceScale::FractionalScale(121), i32::MIN);
}

#[test]
fn fractional_products_are_those_of_double_precision() {
    for a in 0..3000u32 {
        for scale in 1..500u32 {
            let expected = by_float(a, scale);
            assert_eq!(a * SurfaceScale::FractionalScale(scale), expected, "{a} {scale}");
        }
    }
}

#[test]
fn wide_fractional_products_are_those_of_double_precision() {
    let mut x: u64 = 0x2545_f491_4f6c_dd1d;
    for _ in 0..200_000 {
        x ^= x << 13;
        x ^= x >> 7;
        x ^= x << 17;
        let a = (x >> 32) as u32;
        let scale = (x as u32) >> (a % 32);
        assert_eq!(a * SurfaceScale::FractionalScale(scale), by_float(a, scale), "{a} {scale}");
        let signed = a as i32;
        let expected = by_float_signed(signed, scale);
        assert_eq!(signed * SurfaceScale::FractionalScale(scale), expected, "{signed} {scale}");
    }
}

#[test]
fn buffer_scales_multiply() {
    assert_eq!(1080u32 * SurfaceScale::BufferScale(2), 2160);
    assert_eq!(-5i32 * SurfaceScale::BufferScale(3), -15);
    assert_eq!(5i32 * SurfaceScale::BufferScale(-3), -15);
    // A negative buffer scale counts as a large unsigned one.
    assert_eq!(1u32 * SurfaceScale::BufferScale(-1), u32::MAX);
    assert_eq!(0u32 * SurfaceScale::BufferScale(-1), 0);
}

#[test]
fn only_products_that_can_be_counted_fit() {
    assert!(SurfaceScale::BufferScale(2).fits(0x7fff_ffff));
    assert!(!SurfaceScale::BufferScale(2).fits(0x8000_0000));
    assert!(SurfaceScale::BufferScale(-1).fits(1));
    assert!(!SurfaceScale::BufferScale(-1).fits(2));
    assert!(SurfaceScale::FractionalScale(u32::MAX).fits(u32::MAX));
}

#[test]
fn scaling_keeps_order_and_sign() {
    let scale = SurfaceScale::FractionalScale(137);
    let mut last = 0;
    for a in 0..5000u32 {
        let pixels = a * scale;
        assert!(pixels >= last);
        last = pixels;
        assert_eq!(-(a as i32) * scale, -((a as i32) * scale));
    }
}

#[test]
fn ratios() {
    assert_eq!(SurfaceScale::FractionalScale(180).ratio(), (180, 120));
    assert_eq!(SurfaceScale::BufferScale(-2).ratio(), (-2, 1));
}
