//! The chunked loop: a slice is walked in chunks of one vector width, and
//! what is left over is handled as one zero-padded partial chunk.
use vstd::prelude::*;
use vstd::arithmetic::div_mod::{lemma_fundamental_div_mod, lemma_mod_bound};
use vstd::arithmetic::mul::{
    lemma_mul_inequality, lemma_mul_is_commutative, lemma_mul_is_distributive_add_other_way,
};
use crate::element::SimdElement;
use crate::num::zipped;

verus! {

/// `left` with each element that has a partner in `right` replaced by
/// `op` of the two. Elements past the end of `right` stay as they are.
pub open spec fn zip_prefix<T>(left: Seq<T>, right: Seq<T>, op: spec_fn(T, T) -> T) -> Seq<T> {
    Seq::new(left.len(), |i: int| if i < right.len() { op(left[i], right[i]) } else { left[i] })
}

/// Chunk `chunk` of width `width` starts at `chunk * width`, and while
/// `chunk < len / width` the whole chunk lies inside `len` elements.
pub proof fn lemma_chunk_in_bounds(len: int, width: int, chunk: int)
    requires
        0 < width,
        0 <= chunk < len / width,
        0 <= len,
    ensures
        0 <= chunk * width,
        chunk * width + width <= len,
        (chunk + 1) * width == chunk * width + width,
{
    lemma_fundamental_div_mod(len, width);
    lemma_mod_bound(len, width);
    lemma_mul_inequality(chunk + 1, len / width, width);
    lemma_mul_is_distributive_add_other_way(width, chunk, 1);
    lemma_mul_inequality(0, chunk, width);
}

/// The tail starts where the last whole chunk ends.
pub proof fn lemma_tail_start(len: int, width: int)
    requires
        0 < width,
        0 <= len,
    ensures
        len - len % width == (len / width) * width,
        0 <= len % width < width,
{
    lemma_fundamental_div_mod(len, width);
    lemma_mod_bound(len, width);
    lemma_mul_is_commutative(width, len / width);
}

/// A raw vector has at least one lane.
pub proof fn lemma_width_positive<T: SimdElement>()
    ensures
        T::VECTOR_LEN == T::width() > 0,
{
    T::register_budget();
    let width = T::width() as int;
    let size = vstd::layout::size_of::<T>() as int;
    assert(width != 0) by (nonlinear_arith)
        requires
            width * size == 32,
    ;
}

/// Replaces every element of `x` by `op` of it, one vector at a time.
pub fn map_chunks<T: SimdElement, F: Fn(T::Vector) -> T::Vector>(
    x: &mut [T],
    f: F,
    Ghost(op): Ghost<spec_fn(T) -> T>,
)
    requires
        T::available(),
        forall|v: T::Vector| call_requires(f, (v,)),
        forall|v: T::Vector, r: T::Vector|
            call_ensures(f, (v,), r) ==> T::lanes(r) == T::lanes(v).map_values(op),
    ensures
        final(x)@ == old(x)@.map_values(op),
{
    proof {
        lemma_width_positive::<T>();
    }
    let len = x.len();
    let width = T::VECTOR_LEN;
    let chunks = len / width;
    let mut i: usize = 0;
    while i < chunks
        invariant
            T::available(),
            0 < width == T::width(),
            chunks == len / width,
            i <= chunks,
            x@.len() == len == old(x)@.len(),
            forall|v: T::Vector| call_requires(f, (v,)),
            forall|v: T::Vector, r: T::Vector|
                call_ensures(f, (v,), r) ==> T::lanes(r) == T::lanes(v).map_values(op),
            forall|j: int| 0 <= j < i * width ==> x@[j] == op(old(x)@[j]),
            forall|j: int| i * width <= j < len ==> x@[j] == old(x)@[j],
        decreases chunks - i,
    {
        proof {
            lemma_chunk_in_bounds(len as int, width as int, i as int);
        }
        let offset = i * width;
        let x_vector = T::load(&x[offset..offset + width]);
        let result_vector = f(x_vector);
        let (_, rest) = x.split_at_mut(offset);
        T::store(rest, result_vector);
        i += 1;
    }
    proof {
        lemma_tail_start(len as int, width as int);
    }
    let remaining = len % width;
    if remaining != 0 {
        let offset = len - remaining;
        let x_vector = T::load_partial(&x[offset..len], remaining);
        let result_vector = f(x_vector);
        let (_, rest) = x.split_at_mut(offset);
        T::store_partial(rest, result_vector, remaining);
    }
}

/// Replaces each element of `left` that has a partner in `right` by `op`
/// of the two, one vector at a time. The shorter slice bounds the work.
pub fn zip_chunks<T: SimdElement, F: Fn(T::Vector, T::Vector) -> T::Vector>(
    left: &mut [T],
    right: &[T],
    f: F,
    Ghost(op): Ghost<spec_fn(T, T) -> T>,
)
    requires
        T::available(),
        forall|l: T::Vector, r: T::Vector| call_requires(f, (l, r)),
        forall|l: T::Vector, r: T::Vector, v: T::Vector|
            call_ensures(f, (l, r), v) ==> T::lanes(v) == zipped(T::lanes(l), T::lanes(r), op),
    ensures
        final(left)@ == zip_prefix(old(left)@, right@, op),
{
    proof {
        lemma_width_positive::<T>();
    }
    let len = if left.len() < right.len() {
        left.len()
    } else {
        right.len()
    };
    let width = T::VECTOR_LEN;
    let chunks = len / width;
    let mut i: usize = 0;
    while i < chunks
        invariant
            T::available(),
            0 < width == T::width(),
            chunks == len / width,
            i <= chunks,
            len <= right@.len(),
            len <= left@.len() == old(left)@.len(),
            forall|l: T::Vector, r: T::Vector| call_requires(f, (l, r)),
            forall|l: T::Vector, r: T::Vector, v: T::Vector|
                call_ensures(f, (l, r), v) ==> T::lanes(v) == zipped(T::lanes(l), T::lanes(r), op),
            forall|j: int| 0 <= j < i * width ==> left@[j] == op(old(left)@[j], right@[j]),
            forall|j: int| i * width <= j < left@.len() ==> left@[j] == old(left)@[j],
        decreases chunks - i,
    {
        proof {
            lemma_chunk_in_bounds(len as int, width as int, i as int);
        }
        let offset = i * width;
        let left_vector = T::load(&left[offset..offset + width]);
        let right_vector = T::load(&right[offset..offset + width]);
        let result_vector = f(left_vector, right_vector);
        let (_, rest) = left.split_at_mut(offset);
        T::store(rest, result_vector);
        i += 1;
    }
    proof {
        lemma_tail_start(len as int, width as int);
    }
    let remaining = len % width;
    if remaining != 0 {
        let offset = len - remaining;
        let left_vector = T::load_partial(&left[offset..len], remaining);
        let right_vector = T::load_partial(&right[offset..len], remaining);
        let result_vector = f(left_vector, right_vector);
        let (_, rest) = left.split_at_mut(offset);
        T::store_partial(rest, result_vector, remaining);
    }
}

} // verus!
