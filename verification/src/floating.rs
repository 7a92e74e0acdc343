//! Square root, exponential and hyperbolic tangent on raw vectors.
use vstd::prelude::*;
use crate::num::SimdNumElement;

verus! {

/// A type that may be used as the element of a vector of real numbers.
pub trait SimdFloatingElement: SimdNumElement {
    /// The square root of one lane.
    spec fn sqrt_lane(x: Self) -> Self;

    /// The exponential of one lane.
    spec fn exp_lane(x: Self) -> Self;

    /// Returns the square root of every lane of `x`.
    fn sqrt(x: Self::Vector) -> (v: Self::Vector)
        requires
            Self::available(),
        ensures
            Self::lanes(v) == Self::lanes(x).map_values(|a: Self| Self::sqrt_lane(a)),
    ;

    /// Returns the exponential of every lane of `x`.
    fn exp(x: Self::Vector) -> (v: Self::Vector)
        requires
            Self::available(),
        ensures
            Self::lanes(v) == Self::lanes(x).map_values(|a: Self| Self::exp_lane(a)),
    ;

    /// Returns the hyperbolic tangent of every lane of `x`, computed as
    /// `1 - 2 / (exp(2 * x) + 1)` with the operations of this element type.
    fn tanh(x: Self::Vector) -> (v: Self::Vector)
        requires
            Self::available(),
        ensures
            Self::lanes(v) == Self::lanes(x).map_values(
                |a: Self|
                    {
                        let one = Self::one_value();
                        let two = Self::add_lane(one, one);
                        let exp_2x = Self::exp_lane(Self::mul_lane(a, two));
                        Self::sub_lane(one, Self::div_lane(two, Self::add_lane(exp_2x, one)))
                    },
            ),
    {
        proof {
            Self::lanes_shape(x);
        }
        let one = Self::set(Self::unit());
        let two = Self::add(one, one);

        let mul_2x = Self::mul(x, two);
        let exp_2x = Self::exp(mul_2x);
        let exp_2x_plus_1 = Self::add(exp_2x, one);

        let first_term = one;
        let second_term = Self::div(two, exp_2x_plus_1);

        Self::sub(first_term, second_term)
    }
}

/// The hyperbolic tangent of `x` in the arithmetic of `T`:
/// `1 - 2 / (exp(2 * x) + 1)`.
pub open spec fn tanh_lane<T: SimdFloatingElement>(x: T) -> T {
    let one = T::one_value();
    let two = T::add_lane(one, one);
    let exp_2x = T::exp_lane(T::mul_lane(x, two));
    T::sub_lane(one, T::div_lane(two, T::add_lane(exp_2x, one)))
}

} // verus!
