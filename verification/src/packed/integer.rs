//! Bitwise operations on the array-backed vectors.
use vstd::prelude::*;
use crate::element::SimdElement;
use crate::integer::SimdIntegerElement;
use crate::lanes::zip_lanes;

verus! {

impl SimdIntegerElement for i8 {
    open spec fn and_lane(a: Self, b: Self) -> Self {
        a & b
    }

    open spec fn or_lane(a: Self, b: Self) -> Self {
        a | b
    }

    open spec fn xor_lane(a: Self, b: Self) -> Self {
        a ^ b
    }

    open spec fn all_ones() -> Self {
        -1i8
    }

    proof fn xor_cancels(a: Self, b: Self) {
        assert((a ^ b) ^ b == a) by (bit_vector);
    }

    fn and(left: Self::Vector, right: Self::Vector) -> (v: Self::Vector) {
        let and = |a: i8, b: i8| -> (c: i8)
            ensures
                c == a & b,
            {
                a & b
            };
        zip_lanes(&left, &right, and)
    }

    fn or(left: Self::Vector, right: Self::Vector) -> (v: Self::Vector) {
        let or = |a: i8, b: i8| -> (c: i8)
            ensures
                c == a | b,
            {
                a | b
            };
        zip_lanes(&left, &right, or)
    }

    fn not(left: Self::Vector) -> (v: Self::Vector) {
        proof {
            Self::lanes_shape(left);
        }
        let all_set = Self::set(-1);
        Self::xor(left, all_set)
    }

    fn xor(left: Self::Vector, right: Self::Vector) -> (v: Self::Vector) {
        let xor = |a: i8, b: i8| -> (c: i8)
            ensures
                c == a ^ b,
            {
                a ^ b
            };
        zip_lanes(&left, &right, xor)
    }
}

impl SimdIntegerElement for u8 {
    open spec fn and_lane(a: Self, b: Self) -> Self {
        a & b
    }

    open spec fn or_lane(a: Self, b: Self) -> Self {
        a | b
    }

    open spec fn xor_lane(a: Self, b: Self) -> Self {
        a ^ b
    }

    open spec fn all_ones() -> Self {
        u8::MAX
    }

    proof fn xor_cancels(a: Self, b: Self) {
        assert((a ^ b) ^ b == a) by (bit_vector);
    }

    fn and(left: Self::Vector, right: Self::Vector) -> (v: Self::Vector) {
        let and = |a: u8, b: u8| -> (c: u8)
            ensures
                c == a & b,
            {
                a & b
            };
        zip_lanes(&left, &right, and)
    }

    fn or(left: Self::Vector, right: Self::Vector) -> (v: Self::Vector) {
        let or = |a: u8, b: u8| -> (c: u8)
            ensures
                c == a | b,
            {
                a | b
            };
        zip_lanes(&left, &right, or)
    }

    fn not(left: Self::Vector) -> (v: Self::Vector) {
        proof {
            Self::lanes_shape(left);
        }
        let all_set = Self::set(u8::MAX);
        Self::xor(left, all_set)
    }

    fn xor(left: Self::Vector, right: Self::Vector) -> (v: Self::Vector) {
        let xor = |a: u8, b: u8| -> (c: u8)
            ensures
                c == a ^ b,
            {
                a ^ b
            };
        zip_lanes(&left, &right, xor)
    }
}

impl SimdIntegerElement for i16 {
    open spec fn and_lane(a: Self, b: Self) -> Self {
        a & b
    }

    open spec fn or_lane(a: Self, b: Self) -> Self {
        a | b
    }

    open spec fn xor_lane(a: Self, b: Self) -> Self {
        a ^ b
    }

    open spec fn all_ones() -> Self {
        -1i16
    }

    proof fn xor_cancels(a: Self, b: Self) {
        assert((a ^ b) ^ b == a) by (bit_vector);
    }

    fn and(left: Self::Vector, right: Self::Vector) -> (v: Self::Vector) {
        let and = |a: i16, b: i16| -> (c: i16)
            ensures
                c == a & b,
            {
                a & b
            };
        zip_lanes(&left, &right, and)
    }

    fn or(left: Self::Vector, right: Self::Vector) -> (v: Self::Vector) {
        let or = |a: i16, b: i16| -> (c: i16)
            ensures
                c == a | b,
            {
                a | b
            };
        zip_lanes(&left, &right, or)
    }

    fn not(left: Self::Vector) -> (v: Self::Vector) {
        proof {
            Self::lanes_shape(left);
        }
        let all_set = Self::set(-1);
        Self::xor(left, all_set)
    }

    fn xor(left: Self::Vector, right: Self::Vector) -> (v: Self::Vector) {
        let xor = |a: i16, b: i16| -> (c: i16)
            ensures
                c == a ^ b,
            {
                a ^ b
            };
        zip_lanes(&left, &right, xor)
    }
}

impl SimdIntegerElement for u16 {
    open spec fn and_lane(a: Self, b: Self) -> Self {
        a & b
    }

    open spec fn or_lane(a: Self, b: Self) -> Self {
        a | b
    }

    open spec fn xor_lane(a: Self, b: Self) -> Self {
        a ^ b
    }

    open spec fn all_ones() -> Self {
        u16::MAX
    }

    proof fn xor_cancels(a: Self, b: Self) {
        assert((a ^ b) ^ b == a) by (bit_vector);
    }

    fn and(left: Self::Vector, right: Self::Vector) -> (v: Self::Vector) {
        let and = |a: u16, b: u16| -> (c: u16)
            ensures
                c == a & b,
            {
                a & b
            };
        zip_lanes(&left, &right, and)
    }

    fn or(left: Self::Vector, right: Self::Vector) -> (v: Self::Vector) {
        let or = |a: u16, b: u16| -> (c: u16)
            ensures
                c == a | b,
            {
                a | b
            };
        zip_lanes(&left, &right, or)
    }

    fn not(left: Self::Vector) -> (v: Self::Vector) {
        proof {
            Self::lanes_shape(left);
        }
        let all_set = Self::set(u16::MAX);
        Self::xor(left, all_set)
    }

    fn xor(left: Self::Vector, right: Self::Vector) -> (v: Self::Vector) {
        let xor = |a: u16, b: u16| -> (c: u16)
            ensures
                c == a ^ b,
            {
                a ^ b
            };
        zip_lanes(&left, &right, xor)
    }
}

impl SimdIntegerElement for i32 {
    open spec fn and_lane(a: Self, b: Self) -> Self {
        a & b
    }

    open spec fn or_lane(a: Self, b: Self) -> Self {
        a | b
    }

    open spec fn xor_lane(a: Self, b: Self) -> Self {
        a ^ b
    }

    open spec fn all_ones() -> Self {
        -1i32
    }

    proof fn xor_cancels(a: Self, b: Self) {
        assert((a ^ b) ^ b == a) by (bit_vector);
    }

    fn and(left: Self::Vector, right: Self::Vector) -> (v: Self::Vector) {
        let and = |a: i32, b: i32| -> (c: i32)
            ensures
                c == a & b,
            {
                a & b
            };
        zip_lanes(&left, &right, and)
    }

    fn or(left: Self::Vector, right: Self::Vector) -> (v: Self::Vector) {
        let or = |a: i32, b: i32| -> (c: i32)
            ensures
                c == a | b,
            {
                a | b
            };
        zip_lanes(&left, &right, or)
    }

    fn not(left: Self::Vector) -> (v: Self::Vector) {
        proof {
            Self::lanes_shape(left);
        }
        let all_set = Self::set(-1);
        Self::xor(left, all_set)
    }

    fn xor(left: Self::Vector, right: Self::Vector) -> (v: Self::Vector) {
        let xor = |a: i32, b: i32| -> (c: i32)
            ensures
                c == a ^ b,
            {
                a ^ b
            };
        zip_lanes(&left, &right, xor)
    }
}

impl SimdIntegerElement for u32 {
    open spec fn and_lane(a: Self, b: Self) -> Self {
        a & b
    }

    open spec fn or_lane(a: Self, b: Self) -> Self {
        a | b
    }

    open spec fn xor_lane(a: Self, b: Self) -> Self {
        a ^ b
    }

    open spec fn all_ones() -> Self {
        u32::MAX
    }

    proof fn xor_cancels(a: Self, b: Self) {
        assert((a ^ b) ^ b == a) by (bit_vector);
    }

    fn and(left: Self::Vector, right: Self::Vector) -> (v: Self::Vector) {
        let and = |a: u32, b: u32| -> (c: u32)
            ensures
                c == a & b,
            {
                a & b
            };
        zip_lanes(&left, &right, and)
    }

    fn or(left: Self::Vector, right: Self::Vector) -> (v: Self::Vector) {
        let or = |a: u32, b: u32| -> (c: u32)
            ensures
                c == a | b,
            {
                a | b
            };
        zip_lanes(&left, &right, or)
    }

    fn not(left: Self::Vector) -> (v: Self::Vector) {
        proof {
            Self::lanes_shape(left);
        }
        let all_set = Self::set(u32::MAX);
        Self::xor(left, all_set)
    }

    fn xor(left: Self::Vector, right: Self::Vector) -> (v: Self::Vector) {
        let xor = |a: u32, b: u32| -> (c: u32)
            ensures
                c == a ^ b,
            {
                a ^ b
            };
        zip_lanes(&left, &right, xor)
    }
}

impl SimdIntegerElement for i64 {
    open spec fn and_lane(a: Self, b: Self) -> Self {
        a & b
    }

    open spec fn or_lane(a: Self, b: Self) -> Self {
        a | b
    }

    open spec fn xor_lane(a: Self, b: Self) -> Self {
        a ^ b
    }

    open spec fn all_ones() -> Self {
        -1i64
    }

    proof fn xor_cancels(a: Self, b: Self) {
        assert((a ^ b) ^ b == a) by (bit_vector);
    }

    fn and(left: Self::Vector, right: Self::Vector) -> (v: Self::Vector) {
        let and = |a: i64, b: i64| -> (c: i64)
            ensures
                c == a & b,
            {
                a & b
            };
        zip_lanes(&left, &right, and)
    }

    fn or(left: Self::Vector, right: Self::Vector) -> (v: Self::Vector) {
        let or = |a: i64, b: i64| -> (c: i64)
            ensures
                c == a | b,
            {
                a | b
            };
        zip_lanes(&left, &right, or)
    }

    fn not(left: Self::Vector) -> (v: Self::Vector) {
        proof {
            Self::lanes_shape(left);
        }
        let all_set = Self::set(-1);
        Self::xor(left, all_set)
    }

    fn xor(left: Self::Vector, right: Self::Vector) -> (v: Self::Vector) {
        let xor = |a: i64, b: i64| -> (c: i64)
            ensures
                c == a ^ b,
            {
                a ^ b
            };
        zip_lanes(&left, &right, xor)
    }
}

impl SimdIntegerElement for u64 {
    open spec fn and_lane(a: Self, b: Self) -> Self {
        a & b
    }

    open spec fn or_lane(a: Self, b: Self) -> Self {
        a | b
    }

    open spec fn xor_lane(a: Self, b: Self) -> Self {
        a ^ b
    }

    open spec fn all_ones() -> Self {
        u64::MAX
    }

    proof fn xor_cancels(a: Self, b: Self) {
        assert((a ^ b) ^ b == a) by (bit_vector);
    }

    fn and(left: Self::Vector, right: Self::Vector) -> (v: Self::Vector) {
        let and = |a: u64, b: u64| -> (c: u64)
            ensures
                c == a & b,
            {
                a & b
            };
        zip_lanes(&left, &right, and)
    }

    fn or(left: Self::Vector, right: Self::Vector) -> (v: Self::Vector) {
        let or = |a: u64, b: u64| -> (c: u64)
            ensures
                c == a | b,
            {
                a | b
            };
        zip_lanes(&left, &right, or)
    }

    fn not(left: Self::Vector) -> (v: Self::Vector) {
        proof {
            Self::lanes_shape(left);
        }
        let all_set = Self::set(u64::MAX);
        Self::xor(left, all_set)
    }

    fn xor(left: Self::Vector, right: Self::Vector) -> (v: Self::Vector) {
        let xor = |a: u64, b: u64| -> (c: u64)
            ensures
                c == a ^ b,
            {
                a ^ b
            };
        zip_lanes(&left, &right, xor)
    }
}

} // verus!
