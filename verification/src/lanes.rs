//! Loops over the lanes of array-backed vectors.
use vstd::prelude::*;
use crate::element::overwritten;

verus! {

/// Copies the first `len` elements of `src` over the first `len` elements
/// of `dst`.
pub fn copy_prefix<T: Copy>(dst: &mut [T], src: &[T], len: usize)
    requires
        len <= src@.len(),
        len <= old(dst)@.len(),
    ensures
        final(dst)@ == overwritten(old(dst)@, src@, len as int),
{
    let mut i: usize = 0;
    while i < len
        invariant
            i <= len,
            len <= src@.len(),
            dst@.len() == old(dst)@.len(),
            len <= dst@.len(),
            dst@ == overwritten(old(dst)@, src@, i as int),
        decreases len - i,
    {
        dst[i] = src[i];
        i += 1;
    }
}

/// Combines two vectors lane by lane: lane `i` of the result is `f` of
/// lane `i` of `left` and lane `i` of `right`.
pub fn zip_lanes<T: Copy, const N: usize, F: Fn(T, T) -> T>(
    left: &[T; N],
    right: &[T; N],
    f: F,
) -> (out: [T; N])
    requires
        forall|a: T, b: T| call_requires(f, (a, b)),
    ensures
        forall|i: int| 0 <= i < N ==> call_ensures(f, (left@[i], right@[i]), #[trigger] out@[i]),
{
    let mut out = *left;
    let mut i: usize = 0;
    while i < N
        invariant
            i <= N,
            forall|a: T, b: T| call_requires(f, (a, b)),
            forall|j: int| 0 <= j < i ==> call_ensures(f, (left@[j], right@[j]), #[trigger] out@[j]),
        decreases N - i,
    {
        out[i] = f(left[i], right[i]);
        i += 1;
    }
    out
}

/// Applies `f` to every lane of a vector.
pub fn map_lanes<T: Copy, const N: usize, F: Fn(T) -> T>(x: &[T; N], f: F) -> (out: [T; N])
    requires
        forall|a: T| call_requires(f, (a,)),
    ensures
        forall|i: int| 0 <= i < N ==> call_ensures(f, (x@[i],), #[trigger] out@[i]),
{
    let mut out = *x;
    let mut i: usize = 0;
    while i < N
        invariant
            i <= N,
            forall|a: T| call_requires(f, (a,)),
            forall|j: int| 0 <= j < i ==> call_ensures(f, (x@[j],), #[trigger] out@[j]),
        decreases N - i,
    {
        out[i] = f(x[i]);
        i += 1;
    }
    out
}

/// The quotient of `a` by `b`, rounded toward zero.
pub open spec fn truncated_quotient(a: int, b: int) -> int {
    let magnitude = (vstd::math::abs(a) / vstd::math::abs(b)) as int;
    if (a >= 0) == (b > 0) {
        magnitude
    } else {
        -magnitude
    }
}

/// What a lane division leaves in an integer type whose least value is
/// `min`: the dividend where the divisor is zero, otherwise the quotient
/// rounded toward zero. The one quotient that does not fit, `min / -1`,
/// wraps to `min`, which is the dividend again.
pub open spec fn lane_quotient(a: int, b: int, min: int) -> int {
    if b == 0 || (a == min && b == -1) {
        a
    } else {
        truncated_quotient(a, b)
    }
}

/// How the truncated quotient is computed sign by sign, and how large it
/// can be.
pub proof fn lemma_truncated_quotient(a: int, b: int)
    requires
        b != 0,
    ensures
        truncated_quotient(a, b) == (if a == 0 {
            0
        } else if a > 0 && b > 0 {
            a / b
        } else if a < 0 && b < 0 {
            (a * -1) / (b * -1)
        } else if a < 0 {
            ((a * -1) / b) * -1
        } else {
            (a / (b * -1)) * -1
        }),
        vstd::math::abs(truncated_quotient(a, b)) <= vstd::math::abs(a),
        a != 0 && vstd::math::abs(b) >= 2 ==> vstd::math::abs(truncated_quotient(a, b))
            < vstd::math::abs(a),
{
    let x = vstd::math::abs(a) as int;
    let d = vstd::math::abs(b) as int;
    assert(0 <= x / d <= x) by (nonlinear_arith)
        requires
            x >= 0,
            d >= 1,
    ;
    assert(x > 0 && d >= 2 ==> x / d < x) by (nonlinear_arith)
        requires
            x >= 0,
            d >= 1,
    ;
}

} // verus!
