//! The capability that every vector element has: a raw vector type, its
//! width, and the moves between memory and the raw vector.
use vstd::prelude::*;

verus! {

/// Bytes in one raw vector, whatever the element type.
pub const REGISTER_BYTES: usize = 32;

/// A type that may be used as the element of a vector.
///
/// Every operation but `is_available` asks that the element type be
/// available. A caller learns that from `is_available`.
pub trait SimdElement: Sized + Copy {
    /// The raw vector: `VECTOR_LEN` lanes of `Self`.
    type Vector: Sized + Copy;

    /// Number of lanes in `Vector`.
    const VECTOR_LEN: usize;

    /// The vector width: the value of `VECTOR_LEN`.
    spec fn width() -> usize;

    /// Lane `i` of a raw vector, for `i < width()`.
    spec fn lane(v: Self::Vector, i: usize) -> Self;

    /// The lanes of a raw vector, first lane first.
    open spec fn lanes(v: Self::Vector) -> Seq<Self> {
        Seq::new(Self::width() as nat, |i: int| Self::lane(v, i as usize))
    }

    /// The value that fills the lanes a partial load does not read.
    spec fn zero() -> Self;

    /// Whether the operations of this element type may be used.
    spec fn available() -> bool;

    /// A raw vector has `width()` lanes, and `lanes` holds each of them at
    /// its index.
    proof fn lanes_shape(v: Self::Vector)
        ensures
            Self::lanes(v).len() == Self::width(),
            forall|i: usize| i < Self::width() ==> Self::lanes(v)[i as int] == Self::lane(v, i),
    ;

    /// The lanes of a raw vector fill the register exactly.
    proof fn register_budget()
        ensures
            Self::VECTOR_LEN == Self::width(),
            Self::width() * vstd::layout::size_of::<Self>() == REGISTER_BYTES,
    ;

    /// Returns whether the operations of this element type are available.
    fn is_available() -> (b: bool)
        ensures
            b == Self::available(),
    ;

    /// Reads the first `width()` elements of `src` into a raw vector.
    fn load(src: &[Self]) -> (v: Self::Vector)
        requires
            Self::available(),
            src@.len() >= Self::width(),
        ensures
            Self::lanes(v) == src@.subrange(0, Self::width() as int),
    ;

    /// Reads the first `len` elements of `src`; the other lanes are zero.
    fn load_partial(src: &[Self], len: usize) -> (v: Self::Vector)
        requires
            Self::available(),
            len <= Self::width(),
            len <= src@.len(),
        ensures
            Self::lanes(v) == padded(src@, len as int, Self::width() as int, Self::zero()),
    ;

    /// Writes every lane of `src` to the front of `dst` and leaves the
    /// rest of `dst` as it was.
    fn store(dst: &mut [Self], src: Self::Vector)
        requires
            Self::available(),
            old(dst)@.len() >= Self::width(),
        ensures
            final(dst)@ == overwritten(old(dst)@, Self::lanes(src), Self::width() as int),
    ;

    /// Writes the first `len` lanes of `src` to the front of `dst` and
    /// leaves the rest of `dst` as it was.
    fn store_partial(dst: &mut [Self], src: Self::Vector, len: usize)
        requires
            Self::available(),
            len <= Self::width(),
            len <= old(dst)@.len(),
        ensures
            final(dst)@ == overwritten(old(dst)@, Self::lanes(src), len as int),
    ;

    /// A raw vector with `value` in every lane.
    fn set(value: Self) -> (v: Self::Vector)
        requires
            Self::available(),
        ensures
            Self::lanes(v) == Seq::new(Self::width() as nat, |i: int| value),
    ;
}

/// The first `len` elements of `src`, then `fill` up to `width` lanes.
pub open spec fn padded<T>(src: Seq<T>, len: int, width: int, fill: T) -> Seq<T> {
    Seq::new(width as nat, |i: int| if i < len { src[i] } else { fill })
}

/// `dst` with its first `len` elements replaced by those of `src`.
pub open spec fn overwritten<T>(dst: Seq<T>, src: Seq<T>, len: int) -> Seq<T> {
    Seq::new(dst.len(), |i: int| if i < len { src[i] } else { dst[i] })
}

} // verus!
