//! Bitwise operations on raw vectors of integers.
use vstd::prelude::*;
use crate::num::{zipped, SimdNumElement};

verus! {

/// A type that may be used as the element of a vector of integers.
pub trait SimdIntegerElement: SimdNumElement {
    /// The bitwise and of two lanes.
    spec fn and_lane(a: Self, b: Self) -> Self;

    /// The bitwise or of two lanes.
    spec fn or_lane(a: Self, b: Self) -> Self;

    /// The bitwise exclusive or of two lanes.
    spec fn xor_lane(a: Self, b: Self) -> Self;

    /// The lane with every bit set.
    spec fn all_ones() -> Self;

    /// An exclusive or with the same lane twice gives the first lane back.
    proof fn xor_cancels(a: Self, b: Self)
        ensures
            Self::xor_lane(Self::xor_lane(a, b), b) == a,
    ;

    /// Calculates the bitwise and of `left` and `right`.
    fn and(left: Self::Vector, right: Self::Vector) -> (v: Self::Vector)
        requires
            Self::available(),
        ensures
            Self::lanes(v) == zipped(
                Self::lanes(left),
                Self::lanes(right),
                |a: Self, b: Self| Self::and_lane(a, b),
            ),
    ;

    /// Calculates the bitwise or of `left` and `right`.
    fn or(left: Self::Vector, right: Self::Vector) -> (v: Self::Vector)
        requires
            Self::available(),
        ensures
            Self::lanes(v) == zipped(
                Self::lanes(left),
                Self::lanes(right),
                |a: Self, b: Self| Self::or_lane(a, b),
            ),
    ;

    /// Flips every bit of `left`: an exclusive or with all ones.
    fn not(left: Self::Vector) -> (v: Self::Vector)
        requires
            Self::available(),
        ensures
            Self::lanes(v) == Self::lanes(left).map_values(
                |a: Self| Self::xor_lane(a, Self::all_ones()),
            ),
    ;

    /// Calculates the bitwise exclusive or of `left` and `right`.
    fn xor(left: Self::Vector, right: Self::Vector) -> (v: Self::Vector)
        requires
            Self::available(),
        ensures
            Self::lanes(v) == zipped(
                Self::lanes(left),
                Self::lanes(right),
                |a: Self, b: Self| Self::xor_lane(a, b),
            ),
    ;
}

/// One lane with every bit flipped.
pub open spec fn not_lane<T: SimdIntegerElement>(a: T) -> T {
    T::xor_lane(a, T::all_ones())
}

} // verus!
