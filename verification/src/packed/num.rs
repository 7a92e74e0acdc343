//! Wrapping arithmetic on the array-backed vectors.
//!
//! Sums, differences and products wrap. A division by a zero lane leaves
//! the dividend lane as it is.
use vstd::prelude::*;
use crate::lanes::{lane_quotient, lemma_truncated_quotient, zip_lanes};
use crate::num::SimdNumElement;

verus! {

/// `num_traits::One::one` for `i8` returns the literal 1.
pub assume_specification[ <i8 as num_traits::One>::one ]() -> (r: i8)
    ensures
        r == 1,
;

/// `num_traits::One::one` for `u8` returns the literal 1.
pub assume_specification[ <u8 as num_traits::One>::one ]() -> (r: u8)
    ensures
        r == 1,
;

/// `num_traits::One::one` for `i16` returns the literal 1.
pub assume_specification[ <i16 as num_traits::One>::one ]() -> (r: i16)
    ensures
        r == 1,
;

/// `num_traits::One::one` for `u16` returns the literal 1.
pub assume_specification[ <u16 as num_traits::One>::one ]() -> (r: u16)
    ensures
        r == 1,
;

/// `num_traits::One::one` for `i32` returns the literal 1.
pub assume_specification[ <i32 as num_traits::One>::one ]() -> (r: i32)
    ensures
        r == 1,
;

/// `num_traits::One::one` for `u32` returns the literal 1.
pub assume_specification[ <u32 as num_traits::One>::one ]() -> (r: u32)
    ensures
        r == 1,
;

/// `num_traits::One::one` for `i64` returns the literal 1.
pub assume_specification[ <i64 as num_traits::One>::one ]() -> (r: i64)
    ensures
        r == 1,
;

/// `num_traits::One::one` for `u64` returns the literal 1.
pub assume_specification[ <u64 as num_traits::One>::one ]() -> (r: u64)
    ensures
        r == 1,
;

/// Divides one `i8` lane by another.
pub fn quotient_i8(a: i8, b: i8) -> (c: i8)
    ensures
        c == lane_quotient(a as int, b as int, i8::MIN as int),
{
    proof {
        if b != 0 {
            lemma_truncated_quotient(a as int, b as int);
        }
    }
    match a.checked_div(b) {
        Some(q) => q,
        None => a,
    }
}

/// Divides one `u8` lane by another.
pub fn quotient_u8(a: u8, b: u8) -> (c: u8)
    ensures
        c == lane_quotient(a as int, b as int, u8::MIN as int),
{
    if b != 0 {
        a / b
    } else {
        a
    }
}

/// Divides one `i16` lane by another.
pub fn quotient_i16(a: i16, b: i16) -> (c: i16)
    ensures
        c == lane_quotient(a as int, b as int, i16::MIN as int),
{
    proof {
        if b != 0 {
            lemma_truncated_quotient(a as int, b as int);
        }
    }
    match a.checked_div(b) {
        Some(q) => q,
        None => a,
    }
}

/// Divides one `u16` lane by another.
pub fn quotient_u16(a: u16, b: u16) -> (c: u16)
    ensures
        c == lane_quotient(a as int, b as int, u16::MIN as int),
{
    if b != 0 {
        a / b
    } else {
        a
    }
}

/// Divides one `i32` lane by another.
pub fn quotient_i32(a: i32, b: i32) -> (c: i32)
    ensures
        c == lane_quotient(a as int, b as int, i32::MIN as int),
{
    proof {
        if b != 0 {
            lemma_truncated_quotient(a as int, b as int);
        }
    }
    match a.checked_div(b) {
        Some(q) => q,
        None => a,
    }
}

/// Divides one `u32` lane by another.
pub fn quotient_u32(a: u32, b: u32) -> (c: u32)
    ensures
        c == lane_quotient(a as int, b as int, u32::MIN as int),
{
    if b != 0 {
        a / b
    } else {
        a
    }
}

/// Divides one `i64` lane by another.
pub fn quotient_i64(a: i64, b: i64) -> (c: i64)
    ensures
        c == lane_quotient(a as int, b as int, i64::MIN as int),
{
    proof {
        if b != 0 {
            lemma_truncated_quotient(a as int, b as int);
        }
    }
    match a.checked_div(b) {
        Some(q) => q,
        None => a,
    }
}

/// Divides one `u64` lane by another.
pub fn quotient_u64(a: u64, b: u64) -> (c: u64)
    ensures
        c == lane_quotient(a as int, b as int, u64::MIN as int),
{
    if b != 0 {
        a / b
    } else {
        a
    }
}

impl SimdNumElement for i8 {
    open spec fn one_value() -> Self {
        1
    }

    open spec fn add_lane(a: Self, b: Self) -> Self {
        a.wrapping_add(b)
    }

    open spec fn sub_lane(a: Self, b: Self) -> Self {
        a.wrapping_sub(b)
    }

    open spec fn mul_lane(a: Self, b: Self) -> Self {
        a.wrapping_mul(b)
    }

    open spec fn div_lane(a: Self, b: Self) -> Self {
        lane_quotient(a as int, b as int, i8::MIN as int) as i8
    }

    open spec fn fma_lane(a: Self, b: Self, c: Self) -> Self {
        Self::add_lane(Self::mul_lane(a, b), c)
    }

    fn unit() -> (r: Self) {
        <i8 as num_traits::One>::one()
    }

    fn add(left: Self::Vector, right: Self::Vector) -> (v: Self::Vector) {
        let add = |a: i8, b: i8| -> (c: i8)
            ensures
                c == a.wrapping_add(b),
            {
                a.wrapping_add(b)
            };
        zip_lanes(&left, &right, add)
    }

    fn sub(left: Self::Vector, right: Self::Vector) -> (v: Self::Vector) {
        let sub = |a: i8, b: i8| -> (c: i8)
            ensures
                c == a.wrapping_sub(b),
            {
                a.wrapping_sub(b)
            };
        zip_lanes(&left, &right, sub)
    }

    fn mul(left: Self::Vector, right: Self::Vector) -> (v: Self::Vector) {
        let mul = |a: i8, b: i8| -> (c: i8)
            ensures
                c == a.wrapping_mul(b),
            {
                a.wrapping_mul(b)
            };
        zip_lanes(&left, &right, mul)
    }

    fn div(left: Self::Vector, right: Self::Vector) -> (v: Self::Vector) {
        zip_lanes(&left, &right, quotient_i8)
    }

    fn fma(a: Self::Vector, b: Self::Vector, c: Self::Vector) -> (v: Self::Vector) {
        let product = Self::mul(a, b);
        Self::add(product, c)
    }
}

impl SimdNumElement for u8 {
    open spec fn one_value() -> Self {
        1
    }

    open spec fn add_lane(a: Self, b: Self) -> Self {
        a.wrapping_add(b)
    }

    open spec fn sub_lane(a: Self, b: Self) -> Self {
        a.wrapping_sub(b)
    }

    open spec fn mul_lane(a: Self, b: Self) -> Self {
        a.wrapping_mul(b)
    }

    open spec fn div_lane(a: Self, b: Self) -> Self {
        lane_quotient(a as int, b as int, u8::MIN as int) as u8
    }

    open spec fn fma_lane(a: Self, b: Self, c: Self) -> Self {
        Self::add_lane(Self::mul_lane(a, b), c)
    }

    fn unit() -> (r: Self) {
        <u8 as num_traits::One>::one()
    }

    fn add(left: Self::Vector, right: Self::Vector) -> (v: Self::Vector) {
        let add = |a: u8, b: u8| -> (c: u8)
            ensures
                c == a.wrapping_add(b),
            {
                a.wrapping_add(b)
            };
        zip_lanes(&left, &right, add)
    }

    fn sub(left: Self::Vector, right: Self::Vector) -> (v: Self::Vector) {
        let sub = |a: u8, b: u8| -> (c: u8)
            ensures
                c == a.wrapping_sub(b),
            {
                a.wrapping_sub(b)
            };
        zip_lanes(&left, &right, sub)
    }

    fn mul(left: Self::Vector, right: Self::Vector) -> (v: Self::Vector) {
        let mul = |a: u8, b: u8| -> (c: u8)
            ensures
                c == a.wrapping_mul(b),
            {
                a.wrapping_mul(b)
            };
        zip_lanes(&left, &right, mul)
    }

    fn div(left: Self::Vector, right: Self::Vector) -> (v: Self::Vector) {
        zip_lanes(&left, &right, quotient_u8)
    }

    fn fma(a: Self::Vector, b: Self::Vector, c: Self::Vector) -> (v: Self::Vector) {
        let product = Self::mul(a, b);
        Self::add(product, c)
    }
}

impl SimdNumElement for i16 {
    open spec fn one_value() -> Self {
        1
    }

    open spec fn add_lane(a: Self, b: Self) -> Self {
        a.wrapping_add(b)
    }

    open spec fn sub_lane(a: Self, b: Self) -> Self {
        a.wrapping_sub(b)
    }

    open spec fn mul_lane(a: Self, b: Self) -> Self {
        a.wrapping_mul(b)
    }

    open spec fn div_lane(a: Self, b: Self) -> Self {
        lane_quotient(a as int, b as int, i16::MIN as int) as i16
    }

    open spec fn fma_lane(a: Self, b: Self, c: Self) -> Self {
        Self::add_lane(Self::mul_lane(a, b), c)
    }

    fn unit() -> (r: Self) {
        <i16 as num_traits::One>::one()
    }

    fn add(left: Self::Vector, right: Self::Vector) -> (v: Self::Vector) {
        let add = |a: i16, b: i16| -> (c: i16)
            ensures
                c == a.wrapping_add(b),
            {
                a.wrapping_add(b)
            };
        zip_lanes(&left, &right, add)
    }

    fn sub(left: Self::Vector, right: Self::Vector) -> (v: Self::Vector) {
        let sub = |a: i16, b: i16| -> (c: i16)
            ensures
                c == a.wrapping_sub(b),
            {
                a.wrapping_sub(b)
            };
        zip_lanes(&left, &right, sub)
    }

    fn mul(left: Self::Vector, right: Self::Vector) -> (v: Self::Vector) {
        let mul = |a: i16, b: i16| -> (c: i16)
            ensures
                c == a.wrapping_mul(b),
            {
                a.wrapping_mul(b)
            };
        zip_lanes(&left, &right, mul)
    }

    fn div(left: Self::Vector, right: Self::Vector) -> (v: Self::Vector) {
        zip_lanes(&left, &right, quotient_i16)
    }

    fn fma(a: Self::Vector, b: Self::Vector, c: Self::Vector) -> (v: Self::Vector) {
        let product = Self::mul(a, b);
        Self::add(product, c)
    }
}

impl SimdNumElement for u16 {
    open spec fn one_value() -> Self {
        1
    }

    open spec fn add_lane(a: Self, b: Self) -> Self {
        a.wrapping_add(b)
    }

    open spec fn sub_lane(a: Self, b: Self) -> Self {
        a.wrapping_sub(b)
    }

    open spec fn mul_lane(a: Self, b: Self) -> Self {
        a.wrapping_mul(b)
    }

    open spec fn div_lane(a: Self, b: Self) -> Self {
        lane_quotient(a as int, b as int, u16::MIN as int) as u16
    }

    open spec fn fma_lane(a: Self, b: Self, c: Self) -> Self {
        Self::add_lane(Self::mul_lane(a, b), c)
    }

    fn unit() -> (r: Self) {
        <u16 as num_traits::One>::one()
    }

    fn add(left: Self::Vector, right: Self::Vector) -> (v: Self::Vector) {
        let add = |a: u16, b: u16| -> (c: u16)
            ensures
                c == a.wrapping_add(b),
            {
                a.wrapping_add(b)
            };
        zip_lanes(&left, &right, add)
    }

    fn sub(left: Self::Vector, right: Self::Vector) -> (v: Self::Vector) {
        let sub = |a: u16, b: u16| -> (c: u16)
            ensures
                c == a.wrapping_sub(b),
            {
                a.wrapping_sub(b)
            };
        zip_lanes(&left, &right, sub)
    }

    fn mul(left: Self::Vector, right: Self::Vector) -> (v: Self::Vector) {
        let mul = |a: u16, b: u16| -> (c: u16)
            ensures
                c == a.wrapping_mul(b),
            {
                a.wrapping_mul(b)
            };
        zip_lanes(&left, &right, mul)
    }

    fn div(left: Self::Vector, right: Self::Vector) -> (v: Self::Vector) {
        zip_lanes(&left, &right, quotient_u16)
    }

    fn fma(a: Self::Vector, b: Self::Vector, c: Self::Vector) -> (v: Self::Vector) {
        let product = Self::mul(a, b);
        Self::add(product, c)
    }
}

impl SimdNumElement for i32 {
    open spec fn one_value() -> Self {
        1
    }

    open spec fn add_lane(a: Self, b: Self) -> Self {
        a.wrapping_add(b)
    }

    open spec fn sub_lane(a: Self, b: Self) -> Self {
        a.wrapping_sub(b)
    }

    open spec fn mul_lane(a: Self, b: Self) -> Self {
        a.wrapping_mul(b)
    }

    open spec fn div_lane(a: Self, b: Self) -> Self {
        lane_quotient(a as int, b as int, i32::MIN as int) as i32
    }

    open spec fn fma_lane(a: Self, b: Self, c: Self) -> Self {
        Self::add_lane(Self::mul_lane(a, b), c)
    }

    fn unit() -> (r: Self) {
        <i32 as num_traits::One>::one()
    }

    fn add(left: Self::Vector, right: Self::Vector) -> (v: Self::Vector) {
        let add = |a: i32, b: i32| -> (c: i32)
            ensures
                c == a.wrapping_add(b),
            {
                a.wrapping_add(b)
            };
        zip_lanes(&left, &right, add)
    }

    fn sub(left: Self::Vector, right: Self::Vector) -> (v: Self::Vector) {
        let sub = |a: i32, b: i32| -> (c: i32)
            ensures
                c == a.wrapping_sub(b),
            {
                a.wrapping_sub(b)
            };
        zip_lanes(&left, &right, sub)
    }

    fn mul(left: Self::Vector, right: Self::Vector) -> (v: Self::Vector) {
        let mul = |a: i32, b: i32| -> (c: i32)
            ensures
                c == a.wrapping_mul(b),
            {
                a.wrapping_mul(b)
            };
        zip_lanes(&left, &right, mul)
    }

    fn div(left: Self::Vector, right: Self::Vector) -> (v: Self::Vector) {
        zip_lanes(&left, &right, quotient_i32)
    }

    fn fma(a: Self::Vector, b: Self::Vector, c: Self::Vector) -> (v: Self::Vector) {
        let product = Self::mul(a, b);
        Self::add(product, c)
    }
}

impl SimdNumElement for u32 {
    open spec fn one_value() -> Self {
        1
    }

    open spec fn add_lane(a: Self, b: Self) -> Self {
        a.wrapping_add(b)
    }

    open spec fn sub_lane(a: Self, b: Self) -> Self {
        a.wrapping_sub(b)
    }

    open spec fn mul_lane(a: Self, b: Self) -> Self {
        a.wrapping_mul(b)
    }

    open spec fn div_lane(a: Self, b: Self) -> Self {
        lane_quotient(a as int, b as int, u32::MIN as int) as u32
    }

    open spec fn fma_lane(a: Self, b: Self, c: Self) -> Self {
        Self::add_lane(Self::mul_lane(a, b), c)
    }

    fn unit() -> (r: Self) {
        <u32 as num_traits::One>::one()
    }

    fn add(left: Self::Vector, right: Self::Vector) -> (v: Self::Vector) {
        let add = |a: u32, b: u32| -> (c: u32)
            ensures
                c == a.wrapping_add(b),
            {
                a.wrapping_add(b)
            };
        zip_lanes(&left, &right, add)
    }

    fn sub(left: Self::Vector, right: Self::Vector) -> (v: Self::Vector) {
        let sub = |a: u32, b: u32| -> (c: u32)
            ensures
                c == a.wrapping_sub(b),
            {
                a.wrapping_sub(b)
            };
        zip_lanes(&left, &right, sub)
    }

    fn mul(left: Self::Vector, right: Self::Vector) -> (v: Self::Vector) {
        let mul = |a: u32, b: u32| -> (c: u32)
            ensures
                c == a.wrapping_mul(b),
            {
                a.wrapping_mul(b)
            };
        zip_lanes(&left, &right, mul)
    }

    fn div(left: Self::Vector, right: Self::Vector) -> (v: Self::Vector) {
        zip_lanes(&left, &right, quotient_u32)
    }

    fn fma(a: Self::Vector, b: Self::Vector, c: Self::Vector) -> (v: Self::Vector) {
        let product = Self::mul(a, b);
        Self::add(product, c)
    }
}

impl SimdNumElement for i64 {
    open spec fn one_value() -> Self {
        1
    }

    open spec fn add_lane(a: Self, b: Self) -> Self {
        a.wrapping_add(b)
    }

    open spec fn sub_lane(a: Self, b: Self) -> Self {
        a.wrapping_sub(b)
    }

    open spec fn mul_lane(a: Self, b: Self) -> Self {
        a.wrapping_mul(b)
    }

    open spec fn div_lane(a: Self, b: Self) -> Self {
        lane_quotient(a as int, b as int, i64::MIN as int) as i64
    }

    open spec fn fma_lane(a: Self, b: Self, c: Self) -> Self {
        Self::add_lane(Self::mul_lane(a, b), c)
    }

    fn unit() -> (r: Self) {
        <i64 as num_traits::One>::one()
    }

    fn add(left: Self::Vector, right: Self::Vector) -> (v: Self::Vector) {
        let add = |a: i64, b: i64| -> (c: i64)
            ensures
                c == a.wrapping_add(b),
            {
                a.wrapping_add(b)
            };
        zip_lanes(&left, &right, add)
    }

    fn sub(left: Self::Vector, right: Self::Vector) -> (v: Self::Vector) {
        let sub = |a: i64, b: i64| -> (c: i64)
            ensures
                c == a.wrapping_sub(b),
            {
                a.wrapping_sub(b)
            };
        zip_lanes(&left, &right, sub)
    }

    fn mul(left: Self::Vector, right: Self::Vector) -> (v: Self::Vector) {
        let mul = |a: i64, b: i64| -> (c: i64)
            ensures
                c == a.wrapping_mul(b),
            {
                a.wrapping_mul(b)
            };
        zip_lanes(&left, &right, mul)
    }

    fn div(left: Self::Vector, right: Self::Vector) -> (v: Self::Vector) {
        zip_lanes(&left, &right, quotient_i64)
    }

    fn fma(a: Self::Vector, b: Self::Vector, c: Self::Vector) -> (v: Self::Vector) {
        let product = Self::mul(a, b);
        Self::add(product, c)
    }
}

impl SimdNumElement for u64 {
    open spec fn one_value() -> Self {
        1
    }

    open spec fn add_lane(a: Self, b: Self) -> Self {
        a.wrapping_add(b)
    }

    open spec fn sub_lane(a: Self, b: Self) -> Self {
        a.wrapping_sub(b)
    }

    open spec fn mul_lane(a: Self, b: Self) -> Self {
        a.wrapping_mul(b)
    }

    open spec fn div_lane(a: Self, b: Self) -> Self {
        lane_quotient(a as int, b as int, u64::MIN as int) as u64
    }

    open spec fn fma_lane(a: Self, b: Self, c: Self) -> Self {
        Self::add_lane(Self::mul_lane(a, b), c)
    }

    fn unit() -> (r: Self) {
        <u64 as num_traits::One>::one()
    }

    fn add(left: Self::Vector, right: Self::Vector) -> (v: Self::Vector) {
        let add = |a: u64, b: u64| -> (c: u64)
            ensures
                c == a.wrapping_add(b),
            {
                a.wrapping_add(b)
            };
        zip_lanes(&left, &right, add)
    }

    fn sub(left: Self::Vector, right: Self::Vector) -> (v: Self::Vector) {
        let sub = |a: u64, b: u64| -> (c: u64)
            ensures
                c == a.wrapping_sub(b),
            {
                a.wrapping_sub(b)
            };
        zip_lanes(&left, &right, sub)
    }

    fn mul(left: Self::Vector, right: Self::Vector) -> (v: Self::Vector) {
        let mul = |a: u64, b: u64| -> (c: u64)
            ensures
                c == a.wrapping_mul(b),
            {
                a.wrapping_mul(b)
            };
        zip_lanes(&left, &right, mul)
    }

    fn div(left: Self::Vector, right: Self::Vector) -> (v: Self::Vector) {
        zip_lanes(&left, &right, quotient_u64)
    }

    fn fma(a: Self::Vector, b: Self::Vector, c: Self::Vector) -> (v: Self::Vector) {
        let product = Self::mul(a, b);
        Self::add(product, c)
    }
}

} // verus!
