//! What holds of the integer arithmetic whatever the values.
use vstd::prelude::*;
use crate::laws::{lemma_divides_one, lemma_repeated_agree};
use crate::num::{powi_lane, repeated, SimdNumElement};

verus! {

/// For a lane of `i8` that divides one, a power and the opposite power
/// multiply to one.
pub proof fn lemma_powi_inverse_i8(x: i8, n: int)
    requires
        n != 0,
        x != 0,
        1int % (x as int) == 0,
    ensures
        i8::mul_lane(powi_lane::<i8>(x, n), powi_lane::<i8>(x, -n)) == 1,
{
    lemma_divides_one(x as int);
    let times = |a: i8, b: i8| i8::mul_lane(a, b);
    let over = |a: i8, b: i8| i8::div_lane(a, b);
    let member = |a: i8| a == 1 || a == -1;
    assert forall|a: i8| member(a) implies member(#[trigger] times(a, x)) && times(a, x) == over(
        a,
        x,
    ) by {
    }
    let count = vstd::math::abs(n);
    lemma_repeated_agree(times, over, member, 1i8, x, count);
    let power = repeated(times, 1i8, x, count);
    assert(powi_lane::<i8>(x, n) == power);
    assert(powi_lane::<i8>(x, -n) == power);
    assert(times(power, power) == 1);
}

/// For a lane of `u8` that divides one, a power and the opposite power
/// multiply to one.
pub proof fn lemma_powi_inverse_u8(x: u8, n: int)
    requires
        n != 0,
        x != 0,
        1int % (x as int) == 0,
    ensures
        u8::mul_lane(powi_lane::<u8>(x, n), powi_lane::<u8>(x, -n)) == 1,
{
    lemma_divides_one(x as int);
    let times = |a: u8, b: u8| u8::mul_lane(a, b);
    let over = |a: u8, b: u8| u8::div_lane(a, b);
    let member = |a: u8| a == 1;
    assert forall|a: u8| member(a) implies member(#[trigger] times(a, x)) && times(a, x) == over(
        a,
        x,
    ) by {
    }
    let count = vstd::math::abs(n);
    lemma_repeated_agree(times, over, member, 1u8, x, count);
    let power = repeated(times, 1u8, x, count);
    assert(powi_lane::<u8>(x, n) == power);
    assert(powi_lane::<u8>(x, -n) == power);
    assert(times(power, power) == 1);
}

/// For a lane of `i16` that divides one, a power and the opposite power
/// multiply to one.
pub proof fn lemma_powi_inverse_i16(x: i16, n: int)
    requires
        n != 0,
        x != 0,
        1int % (x as int) == 0,
    ensures
        i16::mul_lane(powi_lane::<i16>(x, n), powi_lane::<i16>(x, -n)) == 1,
{
    lemma_divides_one(x as int);
    let times = |a: i16, b: i16| i16::mul_lane(a, b);
    let over = |a: i16, b: i16| i16::div_lane(a, b);
    let member = |a: i16| a == 1 || a == -1;
    assert forall|a: i16| member(a) implies member(#[trigger] times(a, x)) && times(a, x) == over(
        a,
        x,
    ) by {
    }
    let count = vstd::math::abs(n);
    lemma_repeated_agree(times, over, member, 1i16, x, count);
    let power = repeated(times, 1i16, x, count);
    assert(powi_lane::<i16>(x, n) == power);
    assert(powi_lane::<i16>(x, -n) == power);
    assert(times(power, power) == 1);
}

/// For a lane of `u16` that divides one, a power and the opposite power
/// multiply to one.
pub proof fn lemma_powi_inverse_u16(x: u16, n: int)
    requires
        n != 0,
        x != 0,
        1int % (x as int) == 0,
    ensures
        u16::mul_lane(powi_lane::<u16>(x, n), powi_lane::<u16>(x, -n)) == 1,
{
    lemma_divides_one(x as int);
    let times = |a: u16, b: u16| u16::mul_lane(a, b);
    let over = |a: u16, b: u16| u16::div_lane(a, b);
    let member = |a: u16| a == 1;
    assert forall|a: u16| member(a) implies member(#[trigger] times(a, x)) && times(a, x) == over(
        a,
        x,
    ) by {
    }
    let count = vstd::math::abs(n);
    lemma_repeated_agree(times, over, member, 1u16, x, count);
    let power = repeated(times, 1u16, x, count);
    assert(powi_lane::<u16>(x, n) == power);
    assert(powi_lane::<u16>(x, -n) == power);
    assert(times(power, power) == 1);
}

/// For a lane of `i32` that divides one, a power and the opposite power
/// multiply to one.
pub proof fn lemma_powi_inverse_i32(x: i32, n: int)
    requires
        n != 0,
        x != 0,
        1int % (x as int) == 0,
    ensures
        i32::mul_lane(powi_lane::<i32>(x, n), powi_lane::<i32>(x, -n)) == 1,
{
    lemma_divides_one(x as int);
    let times = |a: i32, b: i32| i32::mul_lane(a, b);
    let over = |a: i32, b: i32| i32::div_lane(a, b);
    let member = |a: i32| a == 1 || a == -1;
    assert forall|a: i32| member(a) implies member(#[trigger] times(a, x)) && times(a, x) == over(
        a,
        x,
    ) by {
    }
    let count = vstd::math::abs(n);
    lemma_repeated_agree(times, over, member, 1i32, x, count);
    let power = repeated(times, 1i32, x, count);
    assert(powi_lane::<i32>(x, n) == power);
    assert(powi_lane::<i32>(x, -n) == power);
    assert(times(power, power) == 1);
}

/// For a lane of `u32` that divides one, a power and the opposite power
/// multiply to one.
pub proof fn lemma_powi_inverse_u32(x: u32, n: int)
    requires
        n != 0,
        x != 0,
        1int % (x as int) == 0,
    ensures
        u32::mul_lane(powi_lane::<u32>(x, n), powi_lane::<u32>(x, -n)) == 1,
{
    lemma_divides_one(x as int);
    let times = |a: u32, b: u32| u32::mul_lane(a, b);
    let over = |a: u32, b: u32| u32::div_lane(a, b);
    let member = |a: u32| a == 1;
    assert forall|a: u32| member(a) implies member(#[trigger] times(a, x)) && times(a, x) == over(
        a,
        x,
    ) by {
    }
    let count = vstd::math::abs(n);
    lemma_repeated_agree(times, over, member, 1u32, x, count);
    let power = repeated(times, 1u32, x, count);
    assert(powi_lane::<u32>(x, n) == power);
    assert(powi_lane::<u32>(x, -n) == power);
    assert(times(power, power) == 1);
}

/// For a lane of `i64` that divides one, a power and the opposite power
/// multiply to one.
pub proof fn lemma_powi_inverse_i64(x: i64, n: int)
    requires
        n != 0,
        x != 0,
        1int % (x as int) == 0,
    ensures
        i64::mul_lane(powi_lane::<i64>(x, n), powi_lane::<i64>(x, -n)) == 1,
{
    lemma_divides_one(x as int);
    let times = |a: i64, b: i64| i64::mul_lane(a, b);
    let over = |a: i64, b: i64| i64::div_lane(a, b);
    let member = |a: i64| a == 1 || a == -1;
    assert forall|a: i64| member(a) implies member(#[trigger] times(a, x)) && times(a, x) == over(
        a,
        x,
    ) by {
    }
    let count = vstd::math::abs(n);
    lemma_repeated_agree(times, over, member, 1i64, x, count);
    let power = repeated(times, 1i64, x, count);
    assert(powi_lane::<i64>(x, n) == power);
    assert(powi_lane::<i64>(x, -n) == power);
    assert(times(power, power) == 1);
}

/// For a lane of `u64` that divides one, a power and the opposite power
/// multiply to one.
pub proof fn lemma_powi_inverse_u64(x: u64, n: int)
    requires
        n != 0,
        x != 0,
        1int % (x as int) == 0,
    ensures
        u64::mul_lane(powi_lane::<u64>(x, n), powi_lane::<u64>(x, -n)) == 1,
{
    lemma_divides_one(x as int);
    let times = |a: u64, b: u64| u64::mul_lane(a, b);
    let over = |a: u64, b: u64| u64::div_lane(a, b);
    let member = |a: u64| a == 1;
    assert forall|a: u64| member(a) implies member(#[trigger] times(a, x)) && times(a, x) == over(
        a,
        x,
    ) by {
    }
    let count = vstd::math::abs(n);
    lemma_repeated_agree(times, over, member, 1u64, x, count);
    let power = repeated(times, 1u64, x, count);
    assert(powi_lane::<u64>(x, n) == power);
    assert(powi_lane::<u64>(x, -n) == power);
    assert(times(power, power) == 1);
}

} // verus!
