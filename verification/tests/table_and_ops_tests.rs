use yuv::color::{Depth, Range};
use yuv::range::{range_table, RangeTable};
use yuv::{CheckedAs, Error};

#[test]
fn range_tables_are_well_formed() {
    for range in [Range::Full, Range::Limited] {
        for depth in [Depth::Depth8, Depth::Depth10, Depth::Depth12, Depth::Depth16] {
            let t = range_table(range, depth);
            assert!(t.y_min < t.y_max);
            assert!(t.uv_min < t.uv_max);
        }
    }
}

#[test]
fn range_table_entries() {
    assert_eq!(
        range_table(Range::Full, Depth::Depth8),
        RangeTable { y_min: 0, y_max: 255, uv_min: 0, uv_max: 255 }
    );
    assert_eq!(
        range_table(Range::Limited, Depth::Depth8),
        RangeTable { y_min: 16, y_max: 235, uv_min: 16, uv_max: 240 }
    );
    assert_eq!(
        range_table(Range::Limited, Depth::Depth10),
        RangeTable { y_min: 64, y_max: 940, uv_min: 64, uv_max: 960 }
    );
    assert_eq!(
        range_table(Range::Limited, Depth::Depth12),
        RangeTable { y_min: 256, y_max: 3760, uv_min: 256, uv_max: 3840 }
    );
    assert_eq!(
        range_table(Range::Limited, Depth::Depth16),
        RangeTable { y_min: 4112, y_max: 60395, uv_min: 4112, uv_max: 61680 }
    );
    assert_eq!(
        range_table(Range::Full, Depth::Depth16),
        RangeTable { y_min: 0, y_max: 65535, uv_min: 0, uv_max: 65535 }
    );
}

#[test]
fn checked_narrowing_preserves_values() {
    assert_eq!(255u16.as_u8(), 255u8);
    assert_eq!(300i32.as_u16(), 300u16);
    assert_eq!((-5i8).as_i16(), -5i16);
    assert_eq!((-5i8).as_i32(), -5i32);
    assert_eq!(0u8.as_i8(), 0i8);
    assert_eq!(127u16.as_i8(), 127i8);
    assert_eq!(65535u32.as_u16(), 65535u16);
    assert_eq!(1i64.as_u32(), 1u32);
    assert_eq!((-1i16).as_i64(), -1i64);
    assert_eq!(42u8.as_u32(), 42u32);
    assert_eq!(9000000000i64.as_i64(), 9000000000i64);
}

#[test]
fn error_messages() {
    assert_eq!(
        Error::UnsupportedTransferCharacteristics.message(),
        "Unsupported color space (transfer characteristics)"
    );
    assert_eq!(
        Error::UnsupportedMatrixCoefficients.message(),
        "Unsupported color space (matrix coefficients)"
    );
    assert_eq!(
        Error::InvalidDepthRequested.message(),
        "16-bit converter was asked to convert 8-bit color"
    );
}
