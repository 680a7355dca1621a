use yuv::color::{Depth, MatrixCoefficients, Range};
use yuv::convert::{new_scale, rescale16, rescale8, IdentityScale, Matrix, RGBConvert};
use yuv::range::range_table;
use yuv::{Error, RGB, YUV};

#[test]
fn matrix_conv() {
    let m = Matrix::<u8>::new(2126, 722, Range::Full);
    let px = m.to_rgb(YUV { y: 222, u: 128, v: 128 });
    assert_eq!(RGB::new(222, 222, 222), px);
    assert_eq!(222u8, m.to_luma(222u8));
    assert_eq!(0u8, m.to_luma(0u8));
    assert_eq!(255u8, m.to_luma(255u8));

    let px = m.to_rgb(YUV { y: 128, u: 40, v: 160 });
    assert_eq!(RGB::new(179, 130, 0), px);

    let m = Matrix::<u8>::new(2126, 722, Range::Limited);
    let px = m.to_rgb(YUV { y: 128, u: 115, v: 90 });
    assert_eq!(
        RGB::new((16007u16 / 256) as u8, (39433u16 / 256) as u8, (26458u16 / 256) as u8),
        px
    );
    assert_eq!(0u8, m.to_luma(16u8));
    assert_eq!(2u8, m.to_luma(18u8));
    assert_eq!(0u8, m.to_luma(0u8));
    assert_eq!(255u8, m.to_luma(240u8));
    assert_eq!(255u8, m.to_luma(255u8));

    let m = Matrix::<u16>::new(2126, 722, Range::Limited, Depth::Depth10);
    let px = m.to_rgb(YUV { y: 4 * 128, u: 4 * 115, v: 4 * 90 });
    assert_eq!(RGB::new(16007, 39433, 26458), px);

    let m = Matrix::<u16>::new(2126, 722, Range::Limited, Depth::Depth12);
    let px = m.to_rgb(YUV { y: 16 * 128, u: 16 * 115, v: 16 * 90 });
    assert_eq!(RGB::new(16007, 39433, 26458), px);
    assert_eq!(0u16, m.to_luma(0u16));
    assert_eq!(5592u16, m.to_luma(555u16));
}

#[test]
fn bt709_full_range_reference_points() {
    let c = RGBConvert::<u8>::new(Range::Full, MatrixCoefficients::BT709).unwrap();
    // Neutral chroma reproduces a gray ramp.
    assert_eq!(RGB::new(222, 222, 222), c.to_rgb(YUV { y: 222, u: 128, v: 128 }));
    assert_eq!(RGB::new(179, 130, 0), c.to_rgb(YUV { y: 128, u: 40, v: 160 }));
}

#[test]
fn passthrough_channel_mapping() {
    let c = RGBConvert::<u8>::new(Range::Full, MatrixCoefficients::Identity).unwrap();
    assert!(matches!(c, RGBConvert::Copy(_)));
    assert_eq!(RGB::new(3, 1, 2), c.to_rgb(YUV { y: 1, u: 2, v: 3 }));
    assert_eq!(RGB::new(0, 0, 0), c.to_rgb(YUV { y: 0, u: 0, v: 0 }));
    assert_eq!(RGB::new(255, 255, 255), c.to_rgb(YUV { y: 255, u: 255, v: 255 }));
    assert_eq!(RGB::new(0, 255, 128), c.to_rgb(YUV { y: 255, u: 128, v: 0 }));
    assert_eq!(7u8, c.to_luma(7u8));

    let c = RGBConvert::<u16>::new(Range::Full, MatrixCoefficients::Identity, Depth::Depth16).unwrap();
    assert!(matches!(c, RGBConvert::Copy(_)));
    assert_eq!(RGB::new(30, 10, 20), c.to_rgb(YUV { y: 10, u: 20, v: 30 }));
    assert_eq!(65535u16, c.to_luma(65535u16));
}

#[test]
fn identity_limited_rescale_8bit() {
    let c = RGBConvert::<u8>::new(Range::Limited, MatrixCoefficients::Identity).unwrap();
    assert!(matches!(c, RGBConvert::IdentityScale(_)));
    assert_eq!(RGB::new(0, 0, 0), c.to_rgb(YUV { y: 16, u: 16, v: 16 }));
    assert_eq!(RGB::new(255, 255, 255), c.to_rgb(YUV { y: 235, u: 235, v: 235 }));
    // (128 - 16) * 256 / 219 = 130.92..., truncated.
    assert_eq!(130u8, c.to_luma(128u8));
    assert_eq!(0u8, c.to_luma(0u8));
    assert_eq!(255u8, c.to_luma(255u8));
}

#[test]
fn identity_rescale_wide_depths() {
    let c = RGBConvert::<u16>::new(Range::Limited, MatrixCoefficients::Identity, Depth::Depth10).unwrap();
    assert!(matches!(c, RGBConvert::IdentityScale(_)));
    assert_eq!(0u16, c.to_luma(64u16));
    assert_eq!(65535u16, c.to_luma(940u16));

    let c = RGBConvert::<u16>::new(Range::Full, MatrixCoefficients::Identity, Depth::Depth10).unwrap();
    assert_eq!(0u16, c.to_luma(0u16));
    assert_eq!(65535u16, c.to_luma(1023u16));

    let c = RGBConvert::<u16>::new(Range::Limited, MatrixCoefficients::Identity, Depth::Depth16).unwrap();
    assert_eq!(0u16, c.to_luma(4112u16));
    assert_eq!(65535u16, c.to_luma(60395u16));
}

#[test]
fn luma_is_monotonic_and_saturates() {
    let c = RGBConvert::<u8>::new(Range::Limited, MatrixCoefficients::BT709).unwrap();
    let mut prev = c.to_luma(0u8);
    let mut y: u16 = 1;
    while y <= 255 {
        let l = c.to_luma(y as u8);
        assert!(l >= prev);
        prev = l;
        y += 1;
    }
    assert_eq!(0u8, c.to_luma(0u8));
    assert_eq!(0u8, c.to_luma(10u8));
    assert_eq!(0u8, c.to_luma(16u8));
    assert_eq!(2u8, c.to_luma(18u8));
    assert_eq!(255u8, c.to_luma(235u8));
    assert_eq!(255u8, c.to_luma(240u8));
    assert_eq!(255u8, c.to_luma(255u8));
}

#[test]
fn conversion_is_deterministic() {
    let c = RGBConvert::<u8>::new(Range::Limited, MatrixCoefficients::BT601).unwrap();
    let px = YUV { y: 97, u: 113, v: 201 };
    let a = c.to_rgb(px);
    let b = c.to_rgb(px);
    assert_eq!(a, b);
    assert_eq!(c.to_luma(97u8), c.to_luma(97u8));

    let c = RGBConvert::<u16>::new(Range::Full, MatrixCoefficients::SMPTE240, Depth::Depth12).unwrap();
    let px = YUV { y: 3000, u: 120, v: 4000 };
    assert_eq!(c.to_rgb(px), c.to_rgb(px));
}

#[test]
fn unsupported_matrix_coefficients_always_fail() {
    let unsupported = [
        MatrixCoefficients::BT2020NCL,
        MatrixCoefficients::BT2020CL,
        MatrixCoefficients::SMPTE2085,
        MatrixCoefficients::ChromatNCL,
        MatrixCoefficients::ChromatCL,
        MatrixCoefficients::ICtCp,
    ];
    for m in unsupported {
        for range in [Range::Full, Range::Limited] {
            let r = RGBConvert::<u8>::new(range, m);
            assert!(matches!(r, Err(Error::UnsupportedMatrixCoefficients)));
            for depth in [Depth::Depth8, Depth::Depth10, Depth::Depth12, Depth::Depth16] {
                let r = RGBConvert::<u16>::new(range, m, depth);
                assert!(matches!(r, Err(Error::UnsupportedMatrixCoefficients)));
            }
        }
    }
}

#[test]
fn wide_identity_rejects_8bit_depth() {
    for range in [Range::Full, Range::Limited] {
        let r = RGBConvert::<u16>::new(range, MatrixCoefficients::Identity, Depth::Depth8);
        assert!(matches!(r, Err(Error::InvalidDepthRequested)));
    }
    // A known weight pair accepts 8-bit input even for wide output.
    assert!(RGBConvert::<u16>::new(Range::Full, MatrixCoefficients::BT709, Depth::Depth8).is_ok());
}

#[test]
fn known_coefficient_standards_build_matrix() {
    let supported = [
        MatrixCoefficients::BT709,
        MatrixCoefficients::FCC,
        MatrixCoefficients::BT470BG,
        MatrixCoefficients::BT601,
        MatrixCoefficients::SMPTE240,
        MatrixCoefficients::YCgCo,
    ];
    for m in supported {
        let c = RGBConvert::<u8>::new(Range::Limited, m).unwrap();
        assert!(matches!(c, RGBConvert::Matrix(_)));
        let c = RGBConvert::<u16>::new(Range::Limited, m, Depth::Depth10).unwrap();
        assert!(matches!(c, RGBConvert::Matrix(_)));
    }
}

#[test]
fn rescale_helpers() {
    // (128 - 16) * 256 / 219 = 130.92..., truncated.
    assert_eq!(130u8, rescale8(128, 16, 219));
    assert_eq!(0u8, rescale8(10, 16, 219));
    assert_eq!(255u8, rescale8(255, 16, 219));
    assert_eq!(0u16, rescale16(64, 64, 876));
    assert_eq!(65535u16, rescale16(940, 64, 876));

    let s = new_scale(range_table(Range::Limited, Depth::Depth10));
    assert_eq!(64u16, s.min);
    assert_eq!(876u16, s.range);

    let s = IdentityScale::<u8>::new();
    assert_eq!(16u8, s.min);
    assert_eq!(219u8, s.range);

    let s = IdentityScale::<u16>::new(Range::Limited, Depth::Depth12).unwrap();
    assert_eq!(256u16, s.min);
    assert_eq!(3504u16, s.range);
    assert!(matches!(
        IdentityScale::<u16>::new(Range::Limited, Depth::Depth8),
        Err(Error::InvalidDepthRequested)
    ));
}

#[test]
fn wide_depths_match_scaled_8bit_reference() {
    // The limited-range 8-bit reference case, scaled to the wide output.
    let m8 = Matrix::<u16>::new(2126, 722, Range::Limited, Depth::Depth8);
    let reference = m8.to_rgb(YUV { y: 128, u: 115, v: 90 });
    assert_eq!(RGB::new(16007, 39433, 26458), reference);

    let m10 = Matrix::<u16>::new(2126, 722, Range::Limited, Depth::Depth10);
    assert_eq!(reference, m10.to_rgb(YUV { y: 4 * 128, u: 4 * 115, v: 4 * 90 }));

    let m12 = Matrix::<u16>::new(2126, 722, Range::Limited, Depth::Depth12);
    assert_eq!(reference, m12.to_rgb(YUV { y: 16 * 128, u: 16 * 115, v: 16 * 90 }));
}
