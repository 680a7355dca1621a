//! Checked numeric narrowing between integer widths.
//!
//! Each conversion requires that the value fits in the destination type and
//! returns it unchanged; the conversions are meant for configuration-time
//! code, not for per-pixel work.

use vstd::prelude::*;

verus! {

/// Conversion of an integer to another width, allowed only when the value is
/// representable in the destination type.
pub trait CheckedAs: Sized {
    /// The mathematical value being converted.
    spec fn as_int(self) -> int;

    fn as_i8(self) -> (r: i8)
        requires
            -128 <= self.as_int() <= 127,
        ensures
            r as int == self.as_int(),
    ;

    fn as_u8(self) -> (r: u8)
        requires
            0 <= self.as_int() <= 255,
        ensures
            r as int == self.as_int(),
    ;

    fn as_u16(self) -> (r: u16)
        requires
            0 <= self.as_int() <= 65535,
        ensures
            r as int == self.as_int(),
    ;

    fn as_i16(self) -> (r: i16)
        requires
            -32768 <= self.as_int() <= 32767,
        ensures
            r as int == self.as_int(),
    ;

    fn as_i32(self) -> (r: i32)
        requires
            -0x8000_0000 <= self.as_int() <= 0x7fff_ffff,
        ensures
            r as int == self.as_int(),
    ;

    fn as_u32(self) -> (r: u32)
        requires
            0 <= self.as_int() <= 0xffff_ffff,
        ensures
            r as int == self.as_int(),
    ;

    fn as_i64(self) -> (r: i64)
        requires
            -0x8000_0000_0000_0000 <= self.as_int() <= 0x7fff_ffff_ffff_ffff,
        ensures
            r as int == self.as_int(),
    ;
}

impl CheckedAs for i8 {
    open spec fn as_int(self) -> int {
        self as int
    }

    fn as_i8(self) -> i8 {
        self
    }

    fn as_u8(self) -> u8 {
        self as u8
    }

    fn as_u16(self) -> u16 {
        self as u16
    }

    fn as_i16(self) -> i16 {
        self as i16
    }

    fn as_i32(self) -> i32 {
        self as i32
    }

    fn as_u32(self) -> u32 {
        self as u32
    }

    fn as_i64(self) -> i64 {
        self as i64
    }
}

impl CheckedAs for u8 {
    open spec fn as_int(self) -> int {
        self as int
    }

    fn as_i8(self) -> i8 {
        self as i8
    }

    fn as_u8(self) -> u8 {
        self
    }

    fn as_u16(self) -> u16 {
        self as u16
    }

    fn as_i16(self) -> i16 {
        self as i16
    }

    fn as_i32(self) -> i32 {
        self as i32
    }

    fn as_u32(self) -> u32 {
        self as u32
    }

    fn as_i64(self) -> i64 {
        self as i64
    }
}

impl CheckedAs for u16 {
    open spec fn as_int(self) -> int {
        self as int
    }

    fn as_i8(self) -> i8 {
        self as i8
    }

    fn as_u8(self) -> u8 {
        self as u8
    }

    fn as_u16(self) -> u16 {
        self
    }

    fn as_i16(self) -> i16 {
        self as i16
    }

    fn as_i32(self) -> i32 {
        self as i32
    }

    fn as_u32(self) -> u32 {
        self as u32
    }

    fn as_i64(self) -> i64 {
        self as i64
    }
}

impl CheckedAs for i16 {
    open spec fn as_int(self) -> int {
        self as int
    }

    fn as_i8(self) -> i8 {
        self as i8
    }

    fn as_u8(self) -> u8 {
        self as u8
    }

    fn as_u16(self) -> u16 {
        self as u16
    }

    fn as_i16(self) -> i16 {
        self
    }

    fn as_i32(self) -> i32 {
        self as i32
    }

    fn as_u32(self) -> u32 {
        self as u32
    }

    fn as_i64(self) -> i64 {
        self as i64
    }
}

impl CheckedAs for u32 {
    open spec fn as_int(self) -> int {
        self as int
    }

    fn as_i8(self) -> i8 {
        self as i8
    }

    fn as_u8(self) -> u8 {
        self as u8
    }

    fn as_u16(self) -> u16 {
        self as u16
    }

    fn as_i16(self) -> i16 {
        self as i16
    }

    fn as_i32(self) -> i32 {
        self as i32
    }

    fn as_u32(self) -> u32 {
        self
    }

    fn as_i64(self) -> i64 {
        self as i64
    }
}

impl CheckedAs for i32 {
    open spec fn as_int(self) -> int {
        self as int
    }

    fn as_i8(self) -> i8 {
        self as i8
    }

    fn as_u8(self) -> u8 {
        self as u8
    }

    fn as_u16(self) -> u16 {
        self as u16
    }

    fn as_i16(self) -> i16 {
        self as i16
    }

    fn as_i32(self) -> i32 {
        self
    }

    fn as_u32(self) -> u32 {
        self as u32
    }

    fn as_i64(self) -> i64 {
        self as i64
    }
}

impl CheckedAs for i64 {
    open spec fn as_int(self) -> int {
        self as int
    }

    fn as_i8(self) -> i8 {
        self as i8
    }

    fn as_u8(self) -> u8 {
        self as u8
    }

    fn as_u16(self) -> u16 {
        self as u16
    }

    fn as_i16(self) -> i16 {
        self as i16
    }

    fn as_i32(self) -> i32 {
        self as i32
    }

    fn as_u32(self) -> u32 {
        self as u32
    }

    fn as_i64(self) -> i64 {
        self
    }
}

} // verus!
