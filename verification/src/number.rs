//! Numbers that a number widget can be bound to.
//!
//! On the wire a number is an `i32`. A value of the application converts to
//! it, and back from it, where it is in range of the other type; the `num`
//! crate does the conversions. Every integer type of the language can be
//! bound.
use vstd::prelude::*;

verus! {

/// A numeric type that a number widget can be bound to.
pub trait Number: Sized {
    /// The value as the wire holds it, if it fits.
    spec fn wire(&self) -> Option<i32>;

    /// The value for what the wire holds, if it fits.
    spec fn of_wire(wire: i32) -> Option<Self>;

    /// Converts the value to what the wire holds.
    fn to_wire(&self) -> (r: Option<i32>)
        ensures
            r == self.wire(),
    ;

    /// Converts what the wire holds to a value.
    fn from_wire(wire: i32) -> (r: Option<Self>)
        ensures
            r == Self::of_wire(wire),
    ;
}

/// Calls `num::NumCast::from` to turn an `i32` into an `i32`. Source and
/// target have the same size, so the cast always succeeds.
#[verifier::external_body]
fn cast_i32_to_i32(v: i32) -> (r: Option<i32>)
    ensures
        r == Some(v),
{
    num::NumCast::from(v)
}

/// Calls `num::NumCast::from` to turn an `i64` into an `i32`. The cast
/// succeeds where the value lies between the smallest and the largest
/// `i32`.
#[verifier::external_body]
fn cast_i64_to_i32(v: i64) -> (r: Option<i32>)
    ensures
        r == if i32::MIN <= v <= i32::MAX {
            Some(v as i32)
        } else {
            None
        },
{
    num::NumCast::from(v)
}

/// Calls `num::NumCast::from` to turn an `i32` into an `i64`. The target is
/// larger, so the cast always succeeds.
#[verifier::external_body]
fn cast_i32_to_i64(v: i32) -> (r: Option<i64>)
    ensures
        r == Some(v as i64),
{
    num::NumCast::from(v)
}

/// Calls `num::NumCast::from` to turn a `u32` into an `i32`. The cast
/// succeeds where the value is at most the largest `i32`.
#[verifier::external_body]
fn cast_u32_to_i32(v: u32) -> (r: Option<i32>)
    ensures
        r == if v <= i32::MAX {
            Some(v as i32)
        } else {
            None
        },
{
    num::NumCast::from(v)
}

/// Calls `num::NumCast::from` to turn an `i32` into a `u32`. The cast
/// succeeds where the value is not negative.
#[verifier::external_body]
fn cast_i32_to_u32(v: i32) -> (r: Option<u32>)
    ensures
        r == if 0 <= v {
            Some(v as u32)
        } else {
            None
        },
{
    num::NumCast::from(v)
}

/// Calls `num::NumCast::from` to turn a `u64` into an `i32`. The cast
/// succeeds where the value is at most the largest `i32`.
#[verifier::external_body]
fn cast_u64_to_i32(v: u64) -> (r: Option<i32>)
    ensures
        r == if v <= i32::MAX {
            Some(v as i32)
        } else {
            None
        },
{
    num::NumCast::from(v)
}

/// Calls `num::NumCast::from` to turn an `i32` into a `u64`. The cast
/// succeeds where the value is not negative.
#[verifier::external_body]
fn cast_i32_to_u64(v: i32) -> (r: Option<u64>)
    ensures
        r == if 0 <= v {
            Some(v as u64)
        } else {
            None
        },
{
    num::NumCast::from(v)
}

/// Calls `num::NumCast::from` to turn a `usize` into an `i32`. The cast
/// succeeds where the value is at most the largest `i32`.
#[verifier::external_body]
fn cast_usize_to_i32(v: usize) -> (r: Option<i32>)
    ensures
        r == if v <= i32::MAX {
            Some(v as i32)
        } else {
            None
        },
{
    num::NumCast::from(v)
}

/// Calls `num::NumCast::from` to turn an `i32` into a `usize`. A `usize`
/// has at least the size of an `i32`, so the cast succeeds where the value
/// is not negative.
#[verifier::external_body]
fn cast_i32_to_usize(v: i32) -> (r: Option<usize>)
    ensures
        r == if 0 <= v {
            Some(v as usize)
        } else {
            None
        },
{
    num::NumCast::from(v)
}

/// Calls `num::NumCast::from` to turn an `i8` into an `i32`. The target
/// is larger, so the cast always succeeds.
#[verifier::external_body]
fn cast_i8_to_i32(v: i8) -> (r: Option<i32>)
    ensures
        r == Some(v as i32),
{
    num::NumCast::from(v)
}

/// Calls `num::NumCast::from` to turn an `i32` into an `i8`. The cast
/// succeeds where the value lies between the smallest and the largest
/// `i8`.
#[verifier::external_body]
fn cast_i32_to_i8(v: i32) -> (r: Option<i8>)
    ensures
        r == if i8::MIN <= v <= i8::MAX {
            Some(v as i8)
        } else {
            None
        },
{
    num::NumCast::from(v)
}

/// Calls `num::NumCast::from` to turn an `i16` into an `i32`. The target
/// is larger, so the cast always succeeds.
#[verifier::external_body]
fn cast_i16_to_i32(v: i16) -> (r: Option<i32>)
    ensures
        r == Some(v as i32),
{
    num::NumCast::from(v)
}

/// Calls `num::NumCast::from` to turn an `i32` into an `i16`. The cast
/// succeeds where the value lies between the smallest and the largest
/// `i16`.
#[verifier::external_body]
fn cast_i32_to_i16(v: i32) -> (r: Option<i16>)
    ensures
        r == if i16::MIN <= v <= i16::MAX {
            Some(v as i16)
        } else {
            None
        },
{
    num::NumCast::from(v)
}

/// Calls `num::NumCast::from` to turn an `i128` into an `i32`. The cast
/// succeeds where the value lies between the smallest and the largest
/// `i32`.
#[verifier::external_body]
fn cast_i128_to_i32(v: i128) -> (r: Option<i32>)
    ensures
        r == if i32::MIN <= v <= i32::MAX {
            Some(v as i32)
        } else {
            None
        },
{
    num::NumCast::from(v)
}

/// Calls `num::NumCast::from` to turn an `i32` into an `i128`. The target
/// has at least the size of an `i32`, so the cast always succeeds.
#[verifier::external_body]
fn cast_i32_to_i128(v: i32) -> (r: Option<i128>)
    ensures
        r == Some(v as i128),
{
    num::NumCast::from(v)
}

/// Calls `num::NumCast::from` to turn an `isize` into an `i32`. The cast
/// succeeds where the value lies between the smallest and the largest
/// `i32`.
#[verifier::external_body]
fn cast_isize_to_i32(v: isize) -> (r: Option<i32>)
    ensures
        r == if i32::MIN <= v <= i32::MAX {
            Some(v as i32)
        } else {
            None
        },
{
    num::NumCast::from(v)
}

/// Calls `num::NumCast::from` to turn an `i32` into an `isize`. The target
/// has at least the size of an `i32`, so the cast always succeeds.
#[verifier::external_body]
fn cast_i32_to_isize(v: i32) -> (r: Option<isize>)
    ensures
        r == Some(v as isize),
{
    num::NumCast::from(v)
}

/// Calls `num::NumCast::from` to turn a `u8` into an `i32`. The target
/// is larger, so the cast always succeeds.
#[verifier::external_body]
fn cast_u8_to_i32(v: u8) -> (r: Option<i32>)
    ensures
        r == Some(v as i32),
{
    num::NumCast::from(v)
}

/// Calls `num::NumCast::from` to turn an `i32` into a `u8`. The cast
/// succeeds where the value is not negative and at most the largest
/// `u8`.
#[verifier::external_body]
fn cast_i32_to_u8(v: i32) -> (r: Option<u8>)
    ensures
        r == if 0 <= v <= u8::MAX {
            Some(v as u8)
        } else {
            None
        },
{
    num::NumCast::from(v)
}

/// Calls `num::NumCast::from` to turn a `u16` into an `i32`. The target
/// is larger, so the cast always succeeds.
#[verifier::external_body]
fn cast_u16_to_i32(v: u16) -> (r: Option<i32>)
    ensures
        r == Some(v as i32),
{
    num::NumCast::from(v)
}

/// Calls `num::NumCast::from` to turn an `i32` into a `u16`. The cast
/// succeeds where the value is not negative and at most the largest
/// `u16`.
#[verifier::external_body]
fn cast_i32_to_u16(v: i32) -> (r: Option<u16>)
    ensures
        r == if 0 <= v <= u16::MAX {
            Some(v as u16)
        } else {
            None
        },
{
    num::NumCast::from(v)
}

/// Calls `num::NumCast::from` to turn a `u128` into an `i32`. The cast
/// succeeds where the value is at most the largest `i32`.
#[verifier::external_body]
fn cast_u128_to_i32(v: u128) -> (r: Option<i32>)
    ensures
        r == if v <= i32::MAX {
            Some(v as i32)
        } else {
            None
        },
{
    num::NumCast::from(v)
}

/// Calls `num::NumCast::from` to turn an `i32` into a `u128`. The cast
/// succeeds where the value is not negative.
#[verifier::external_body]
fn cast_i32_to_u128(v: i32) -> (r: Option<u128>)
    ensures
        r == if 0 <= v {
            Some(v as u128)
        } else {
            None
        },
{
    num::NumCast::from(v)
}

impl Number for i32 {
    open spec fn wire(&self) -> Option<i32> {
        Some(*self)
    }

    open spec fn of_wire(wire: i32) -> Option<i32> {
        Some(wire)
    }

    fn to_wire(&self) -> (r: Option<i32>) {
        cast_i32_to_i32(*self)
    }

    fn from_wire(wire: i32) -> (r: Option<i32>) {
        cast_i32_to_i32(wire)
    }
}

impl Number for i64 {
    open spec fn wire(&self) -> Option<i32> {
        if i32::MIN <= *self <= i32::MAX {
            Some(*self as i32)
        } else {
            None
        }
    }

    open spec fn of_wire(wire: i32) -> Option<i64> {
        Some(wire as i64)
    }

    fn to_wire(&self) -> (r: Option<i32>) {
        cast_i64_to_i32(*self)
    }

    fn from_wire(wire: i32) -> (r: Option<i64>) {
        cast_i32_to_i64(wire)
    }
}

impl Number for u32 {
    open spec fn wire(&self) -> Option<i32> {
        if *self <= i32::MAX {
            Some(*self as i32)
        } else {
            None
        }
    }

    open spec fn of_wire(wire: i32) -> Option<u32> {
        if 0 <= wire {
            Some(wire as u32)
        } else {
            None
        }
    }

    fn to_wire(&self) -> (r: Option<i32>) {
        cast_u32_to_i32(*self)
    }

    fn from_wire(wire: i32) -> (r: Option<u32>) {
        cast_i32_to_u32(wire)
    }
}

impl Number for u64 {
    open spec fn wire(&self) -> Option<i32> {
        if *self <= i32::MAX {
            Some(*self as i32)
        } else {
            None
        }
    }

    open spec fn of_wire(wire: i32) -> Option<u64> {
        if 0 <= wire {
            Some(wire as u64)
        } else {
            None
        }
    }

    fn to_wire(&self) -> (r: Option<i32>) {
        cast_u64_to_i32(*self)
    }

    fn from_wire(wire: i32) -> (r: Option<u64>) {
        cast_i32_to_u64(wire)
    }
}

impl Number for usize {
    open spec fn wire(&self) -> Option<i32> {
        if *self <= i32::MAX {
            Some(*self as i32)
        } else {
            None
        }
    }

    open spec fn of_wire(wire: i32) -> Option<usize> {
        if 0 <= wire {
            Some(wire as usize)
        } else {
            None
        }
    }

    fn to_wire(&self) -> (r: Option<i32>) {
        cast_usize_to_i32(*self)
    }

    fn from_wire(wire: i32) -> (r: Option<usize>) {
        cast_i32_to_usize(wire)
    }
}

impl Number for i8 {
    open spec fn wire(&self) -> Option<i32> {
        Some(*self as i32)
    }

    open spec fn of_wire(wire: i32) -> Option<i8> {
        if i8::MIN <= wire <= i8::MAX {
            Some(wire as i8)
        } else {
            None
        }
    }

    fn to_wire(&self) -> (r: Option<i32>) {
        cast_i8_to_i32(*self)
    }

    fn from_wire(wire: i32) -> (r: Option<i8>) {
        cast_i32_to_i8(wire)
    }
}

impl Number for i16 {
    open spec fn wire(&self) -> Option<i32> {
        Some(*self as i32)
    }

    open spec fn of_wire(wire: i32) -> Option<i16> {
        if i16::MIN <= wire <= i16::MAX {
            Some(wire as i16)
        } else {
            None
        }
    }

    fn to_wire(&self) -> (r: Option<i32>) {
        cast_i16_to_i32(*self)
    }

    fn from_wire(wire: i32) -> (r: Option<i16>) {
        cast_i32_to_i16(wire)
    }
}

impl Number for i128 {
    open spec fn wire(&self) -> Option<i32> {
        if i32::MIN <= *self <= i32::MAX {
            Some(*self as i32)
        } else {
            None
        }
    }

    open spec fn of_wire(wire: i32) -> Option<i128> {
        Some(wire as i128)
    }

    fn to_wire(&self) -> (r: Option<i32>) {
        cast_i128_to_i32(*self)
    }

    fn from_wire(wire: i32) -> (r: Option<i128>) {
        cast_i32_to_i128(wire)
    }
}

impl Number for isize {
    open spec fn wire(&self) -> Option<i32> {
        if i32::MIN <= *self <= i32::MAX {
            Some(*self as i32)
        } else {
            None
        }
    }

    open spec fn of_wire(wire: i32) -> Option<isize> {
        Some(wire as isize)
    }

    fn to_wire(&self) -> (r: Option<i32>) {
        cast_isize_to_i32(*self)
    }

    fn from_wire(wire: i32) -> (r: Option<isize>) {
        cast_i32_to_isize(wire)
    }
}

impl Number for u8 {
    open spec fn wire(&self) -> Option<i32> {
        Some(*self as i32)
    }

    open spec fn of_wire(wire: i32) -> Option<u8> {
        if 0 <= wire <= u8::MAX {
            Some(wire as u8)
        } else {
            None
        }
    }

    fn to_wire(&self) -> (r: Option<i32>) {
        cast_u8_to_i32(*self)
    }

    fn from_wire(wire: i32) -> (r: Option<u8>) {
        cast_i32_to_u8(wire)
    }
}

impl Number for u16 {
    open spec fn wire(&self) -> Option<i32> {
        Some(*self as i32)
    }

    open spec fn of_wire(wire: i32) -> Option<u16> {
        if 0 <= wire <= u16::MAX {
            Some(wire as u16)
        } else {
            None
        }
    }

    fn to_wire(&self) -> (r: Option<i32>) {
        cast_u16_to_i32(*self)
    }

    fn from_wire(wire: i32) -> (r: Option<u16>) {
        cast_i32_to_u16(wire)
    }
}

impl Number for u128 {
    open spec fn wire(&self) -> Option<i32> {
        if *self <= i32::MAX {
            Some(*self as i32)
        } else {
            None
        }
    }

    open spec fn of_wire(wire: i32) -> Option<u128> {
        if 0 <= wire {
            Some(wire as u128)
        } else {
            None
        }
    }

    fn to_wire(&self) -> (r: Option<i32>) {
        cast_u128_to_i32(*self)
    }

    fn from_wire(wire: i32) -> (r: Option<u128>) {
        cast_i32_to_u128(wire)
    }
}

} // verus!
