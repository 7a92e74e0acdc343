//! Borrowed views of a slice, and the operations that work through them.
use vstd::prelude::*;
use crate::driver::{map_chunks, zip_chunks, zip_prefix};
use crate::element::SimdElement;
use crate::floating::{tanh_lane, SimdFloatingElement};
use crate::num::{powi_lane, zipped, SimdNumElement};

verus! {

/// A view of a run of elements that an operation can read.
pub trait Simd<T: SimdElement>: core::ops::Deref<Target = [T]> + View<V = Seq<T>> {
    /// The elements of the view.
    fn as_slice(&self) -> (s: &[T])
        ensures
            s@ == self@,
    ;
}

/// A shared view of a slice.
#[derive(Debug, PartialEq)]
pub struct SimdRef<'a, T: SimdElement>(&'a [T]);

impl<'a, T: SimdElement> Clone for SimdRef<'a, T> {
    fn clone(&self) -> (r: Self)
        ensures
            r@ == self@,
    {
        Self(self.0)
    }
}

impl<'a, T: SimdElement> Copy for SimdRef<'a, T> {}

impl<'a, T: SimdElement> View for SimdRef<'a, T> {
    type V = Seq<T>;

    closed spec fn view(&self) -> Seq<T> {
        self.0@
    }
}

impl<'a, T: SimdElement> SimdRef<'a, T> {
    /// Creates a view of `slice`.
    pub fn new(slice: &'a [T]) -> (r: Self)
        ensures
            r@ == slice@,
    {
        Self(slice)
    }
}

impl<'a, T: SimdElement> core::ops::Deref for SimdRef<'a, T> {
    type Target = [T];

    fn deref(&self) -> (s: &[T])
        ensures
            s@ == self@,
    {
        self.0
    }
}

impl<'a, T: SimdElement> Simd<T> for SimdRef<'a, T> {
    fn as_slice(&self) -> (s: &[T]) {
        self.0
    }
}

/// An exclusive view of a slice. The operations on it change the slice in
/// place.
///
/// An operation leaves the view on the slice it was made for: where a
/// contract says `final(final(self).0)@ == final(old(self).0)@`, the slice
/// that the caller gets back when the view ends is the one that the view
/// holds at that time.
#[derive(Debug, PartialEq)]
pub struct SimdMut<'a, T: SimdElement>(pub &'a mut [T]);

impl<'a, T: SimdElement> View for SimdMut<'a, T> {
    type V = Seq<T>;

    open spec fn view(&self) -> Seq<T> {
        (*self.0)@
    }
}

impl<'a, T: SimdElement> SimdMut<'a, T> {
    /// Creates a view of `slice`.
    pub fn new(slice: &'a mut [T]) -> (r: Self)
        ensures
            r@ == old(slice)@,
            final(r.0)@ == final(slice)@,
    {
        Self(slice)
    }
}

impl<'a, T: SimdNumElement> SimdMut<'a, T> {
    /// Raises every element to the power `n`.
    pub fn powi(&mut self, n: i32)
        requires
            T::available(),
        ensures
            final(self)@ == old(self)@.map_values(|x: T| powi_lane(x, n as int)),
            final(final(self).0)@ == final(old(self).0)@,
    {
        let raise = |v: T::Vector| -> (r: T::Vector)
            requires
                T::available(),
            ensures
                T::lanes(r) == T::lanes(v).map_values(|x: T| powi_lane(x, n as int)),
            {
                let r = T::powi(v, n);
                assert(T::lanes(r) =~= T::lanes(v).map_values(|x: T| powi_lane(x, n as int)));
                r
            };
        map_chunks(self.0, raise, Ghost(|x: T| powi_lane(x, n as int)));
    }

    /// Adds `rhs` to this view, element by element. The shorter of the two
    /// bounds the work: elements past its end stay as they are.
    pub fn add_assign<R: Simd<T>>(&mut self, rhs: &R)
        requires
            T::available(),
        ensures
            final(self)@ == zip_prefix(old(self)@, rhs@, |a: T, b: T| T::add_lane(a, b)),
            final(final(self).0)@ == final(old(self).0)@,
    {
        let add = |l: T::Vector, r: T::Vector| -> (v: T::Vector)
            requires
                T::available(),
            ensures
                T::lanes(v) == zipped(T::lanes(l), T::lanes(r), |a: T, b: T| T::add_lane(a, b)),
            {
                T::add(l, r)
            };
        zip_chunks(self.0, rhs.as_slice(), add, Ghost(|a: T, b: T| T::add_lane(a, b)));
    }

    /// Subtracts `rhs` from this view, element by element. The shorter of
    /// the two bounds the work: elements past its end stay as they are.
    pub fn sub_assign<R: Simd<T>>(&mut self, rhs: &R)
        requires
            T::available(),
        ensures
            final(self)@ == zip_prefix(old(self)@, rhs@, |a: T, b: T| T::sub_lane(a, b)),
            final(final(self).0)@ == final(old(self).0)@,
    {
        let sub = |l: T::Vector, r: T::Vector| -> (v: T::Vector)
            requires
                T::available(),
            ensures
                T::lanes(v) == zipped(T::lanes(l), T::lanes(r), |a: T, b: T| T::sub_lane(a, b)),
            {
                T::sub(l, r)
            };
        zip_chunks(self.0, rhs.as_slice(), sub, Ghost(|a: T, b: T| T::sub_lane(a, b)));
    }

    /// Multiplies this view by `rhs`, element by element. The shorter of
    /// the two bounds the work: elements past its end stay as they are.
    pub fn mul_assign<R: Simd<T>>(&mut self, rhs: &R)
        requires
            T::available(),
        ensures
            final(self)@ == zip_prefix(old(self)@, rhs@, |a: T, b: T| T::mul_lane(a, b)),
            final(final(self).0)@ == final(old(self).0)@,
    {
        let mul = |l: T::Vector, r: T::Vector| -> (v: T::Vector)
            requires
                T::available(),
            ensures
                T::lanes(v) == zipped(T::lanes(l), T::lanes(r), |a: T, b: T| T::mul_lane(a, b)),
            {
                T::mul(l, r)
            };
        zip_chunks(self.0, rhs.as_slice(), mul, Ghost(|a: T, b: T| T::mul_lane(a, b)));
    }

    /// Divides this view by `rhs`, element by element. The shorter of the
    /// two bounds the work: elements past its end stay as they are.
    pub fn div_assign<R: Simd<T>>(&mut self, rhs: &R)
        requires
            T::available(),
        ensures
            final(self)@ == zip_prefix(old(self)@, rhs@, |a: T, b: T| T::div_lane(a, b)),
            final(final(self).0)@ == final(old(self).0)@,
    {
        let div = |l: T::Vector, r: T::Vector| -> (v: T::Vector)
            requires
                T::available(),
            ensures
                T::lanes(v) == zipped(T::lanes(l), T::lanes(r), |a: T, b: T| T::div_lane(a, b)),
            {
                T::div(l, r)
            };
        zip_chunks(self.0, rhs.as_slice(), div, Ghost(|a: T, b: T| T::div_lane(a, b)));
    }
}

impl<'a, T: SimdFloatingElement> SimdMut<'a, T> {
    /// Replaces every element by its square root.
    pub fn sqrt(&mut self)
        requires
            T::available(),
        ensures
            final(self)@ == old(self)@.map_values(|x: T| T::sqrt_lane(x)),
            final(final(self).0)@ == final(old(self).0)@,
    {
        let sqrt = |v: T::Vector| -> (r: T::Vector)
            requires
                T::available(),
            ensures
                T::lanes(r) == T::lanes(v).map_values(|x: T| T::sqrt_lane(x)),
            {
                T::sqrt(v)
            };
        map_chunks(self.0, sqrt, Ghost(|x: T| T::sqrt_lane(x)));
    }

    /// Replaces every element by its exponential.
    pub fn exp(&mut self)
        requires
            T::available(),
        ensures
            final(self)@ == old(self)@.map_values(|x: T| T::exp_lane(x)),
            final(final(self).0)@ == final(old(self).0)@,
    {
        let exp = |v: T::Vector| -> (r: T::Vector)
            requires
                T::available(),
            ensures
                T::lanes(r) == T::lanes(v).map_values(|x: T| T::exp_lane(x)),
            {
                T::exp(v)
            };
        map_chunks(self.0, exp, Ghost(|x: T| T::exp_lane(x)));
    }

    /// Replaces every element by its hyperbolic tangent.
    pub fn tanh(&mut self)
        requires
            T::available(),
        ensures
            final(self)@ == old(self)@.map_values(|x: T| tanh_lane(x)),
            final(final(self).0)@ == final(old(self).0)@,
    {
        let tanh = |v: T::Vector| -> (r: T::Vector)
            requires
                T::available(),
            ensures
                T::lanes(r) == T::lanes(v).map_values(|x: T| tanh_lane(x)),
            {
                let r = T::tanh(v);
                assert(T::lanes(r) =~= T::lanes(v).map_values(|x: T| tanh_lane(x)));
                r
            };
        map_chunks(self.0, tanh, Ghost(|x: T| tanh_lane(x)));
    }
}

impl<'a, T: SimdElement> core::ops::Deref for SimdMut<'a, T> {
    type Target = [T];

    fn deref(&self) -> (s: &[T])
        ensures
            s@ == self@,
    {
        self.0
    }
}

impl<'a, T: SimdElement> core::ops::DerefMut for SimdMut<'a, T> {
    fn deref_mut(&mut self) -> (s: &mut [T])
        ensures
            s@ == old(self)@,
            final(self)@ == final(s)@,
            final(final(self).0)@ == final(old(self).0)@,
    {
        self.0
    }
}

impl<'a, T: SimdElement> Simd<T> for SimdMut<'a, T> {
    fn as_slice(&self) -> (s: &[T]) {
        self.0
    }
}

} // verus!
