//! Arithmetic on raw vectors.
use vstd::prelude::*;
use crate::element::SimdElement;

verus! {

/// `acc` combined `count` times with `x`:
/// `op(.. op(op(acc, x), x) .., x)`.
pub open spec fn repeated<T>(op: spec_fn(T, T) -> T, acc: T, x: T, count: nat) -> T
    decreases count,
{
    if count == 0 {
        acc
    } else {
        op(repeated(op, acc, x, (count - 1) as nat), x)
    }
}

/// `x` raised to the power `n`: `one` multiplied `n` times by `x`, or
/// divided `-n` times by `x` where `n` is negative.
pub open spec fn power<T>(
    mul: spec_fn(T, T) -> T,
    div: spec_fn(T, T) -> T,
    one: T,
    x: T,
    n: int,
) -> T {
    if n < 0 {
        repeated(div, one, x, (-n) as nat)
    } else {
        repeated(mul, one, x, n as nat)
    }
}

/// Two sequences of lanes combined lane by lane.
pub open spec fn zipped<T>(left: Seq<T>, right: Seq<T>, op: spec_fn(T, T) -> T) -> Seq<T> {
    Seq::new(left.len(), |i: int| op(left[i], right[i]))
}

/// A type that may be used as the element of a numeric vector.
pub trait SimdNumElement: SimdElement {
    /// The multiplicative identity.
    spec fn one_value() -> Self;

    /// The sum of two lanes.
    spec fn add_lane(a: Self, b: Self) -> Self;

    /// The difference of two lanes.
    spec fn sub_lane(a: Self, b: Self) -> Self;

    /// The product of two lanes.
    spec fn mul_lane(a: Self, b: Self) -> Self;

    /// The quotient of two lanes.
    spec fn div_lane(a: Self, b: Self) -> Self;

    /// `a * b + c` on one lane. An element type with a fused operation
    /// rounds once; the others compute `add_lane(mul_lane(a, b), c)`.
    spec fn fma_lane(a: Self, b: Self, c: Self) -> Self;

    /// Returns the multiplicative identity.
    fn unit() -> (r: Self)
        ensures
            r == Self::one_value(),
    ;

    /// Adds `left` and `right`.
    fn add(left: Self::Vector, right: Self::Vector) -> (v: Self::Vector)
        requires
            Self::available(),
        ensures
            Self::lanes(v) == zipped(
                Self::lanes(left),
                Self::lanes(right),
                |a: Self, b: Self| Self::add_lane(a, b),
            ),
    ;

    /// Subtracts `right` from `left`.
    fn sub(left: Self::Vector, right: Self::Vector) -> (v: Self::Vector)
        requires
            Self::available(),
        ensures
            Self::lanes(v) == zipped(
                Self::lanes(left),
                Self::lanes(right),
                |a: Self, b: Self| Self::sub_lane(a, b),
            ),
    ;

    /// Multiplies `left` by `right`.
    fn mul(left: Self::Vector, right: Self::Vector) -> (v: Self::Vector)
        requires
            Self::available(),
        ensures
            Self::lanes(v) == zipped(
                Self::lanes(left),
                Self::lanes(right),
                |a: Self, b: Self| Self::mul_lane(a, b),
            ),
    ;

    /// Divides `left` by `right`.
    fn div(left: Self::Vector, right: Self::Vector) -> (v: Self::Vector)
        requires
            Self::available(),
        ensures
            Self::lanes(v) == zipped(
                Self::lanes(left),
                Self::lanes(right),
                |a: Self, b: Self| Self::div_lane(a, b),
            ),
    ;

    /// Calculates `a * b + c`.
    fn fma(a: Self::Vector, b: Self::Vector, c: Self::Vector) -> (v: Self::Vector)
        requires
            Self::available(),
        ensures
            Self::lanes(v) == Seq::new(
                Self::lanes(a).len(),
                |i: int| Self::fma_lane(Self::lanes(a)[i], Self::lanes(b)[i], Self::lanes(c)[i]),
            ),
    ;

    /// Raises every lane of `x` to the power `n`.
    fn powi(x: Self::Vector, n: i32) -> (v: Self::Vector)
        requires
            Self::available(),
        ensures
            Self::lanes(v) == Self::lanes(x).map_values(
                |x: Self|
                    power(
                        |a: Self, b: Self| Self::mul_lane(a, b),
                        |a: Self, b: Self| Self::div_lane(a, b),
                        Self::one_value(),
                        x,
                        n as int,
                    ),
            ),
    {
        proof {
            Self::lanes_shape(x);
        }
        let mut result = Self::set(Self::unit());
        if n < 0 {
            let mut k: i32 = n;
            while k < 0
                invariant
                    Self::available(),
                    n <= k <= 0,
                    Self::lanes(result) == Seq::new(
                        Self::width() as nat,
                        |i: int|
                            repeated(
                                |a: Self, b: Self| Self::div_lane(a, b),
                                Self::one_value(),
                                Self::lanes(x)[i],
                                (k - n) as nat,
                            ),
                    ),
                decreases 0 - k,
            {
                result = Self::div(result, x);
                k += 1;
            }
        }
        if 0 < n {
            let mut k: i32 = 0;
            while k < n
                invariant
                    Self::available(),
                    0 <= k <= n,
                    Self::lanes(result) == Seq::new(
                        Self::width() as nat,
                        |i: int|
                            repeated(
                                |a: Self, b: Self| Self::mul_lane(a, b),
                                Self::one_value(),
                                Self::lanes(x)[i],
                                k as nat,
                            ),
                    ),
                decreases n - k,
            {
                result = Self::mul(result, x);
                k += 1;
            }
        }
        result
    }
}

/// The polynomial with the given coefficients, highest degree first, at
/// `x`: `(..(c0 * x + c1) * x + ..) * x + cn`, each step one `fma_lane`.
pub open spec fn horner_lane<T: SimdNumElement>(coefficients: Seq<T>, x: T) -> T
    decreases coefficients.len(),
{
    if coefficients.len() <= 1 {
        coefficients[0]
    } else {
        T::fma_lane(horner_lane(coefficients.drop_last(), x), x, coefficients.last())
    }
}

/// Evaluates the polynomial with the given coefficients, highest degree
/// first, at every lane of `x`.
pub fn horner<T: SimdNumElement>(coefficients: &[T], x: T::Vector) -> (v: T::Vector)
    requires
        T::available(),
        coefficients@.len() > 0,
    ensures
        T::lanes(v) == T::lanes(x).map_values(|a: T| horner_lane(coefficients@, a)),
{
    proof {
        T::lanes_shape(x);
    }
    let mut poly = T::set(coefficients[0]);
    let mut k: usize = 1;
    while k < coefficients.len()
        invariant
            T::available(),
            1 <= k <= coefficients@.len(),
            T::lanes(poly) == T::lanes(x).map_values(
                |a: T| horner_lane(coefficients@.take(k as int), a),
            ),
        decreases coefficients@.len() - k,
    {
        let coefficient = T::set(coefficients[k]);
        let ghost before = coefficients@.take(k as int);
        let ghost after = coefficients@.take(k + 1);
        proof {
            T::lanes_shape(x);
            assert(after.drop_last() =~= before);
            assert forall|a: T|
                #[trigger] horner_lane(after, a) == T::fma_lane(
                    horner_lane(before, a),
                    a,
                    coefficients@[k as int],
                ) by {}
        }
        poly = T::fma(poly, x, coefficient);
        k += 1;
        assert(T::lanes(poly) =~= T::lanes(x).map_values(|a: T| horner_lane(after, a)));
    }
    proof {
        assert(coefficients@.take(k as int) == coefficients@);
    }
    poly
}

/// `x` raised to the power `n` in the arithmetic of `T`.
pub open spec fn powi_lane<T: SimdNumElement>(x: T, n: int) -> T {
    power(
        |a: T, b: T| T::mul_lane(a, b),
        |a: T, b: T| T::div_lane(a, b),
        T::one_value(),
        x,
        n,
    )
}

} // verus!
