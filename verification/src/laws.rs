//! What holds of the operations whatever the values.
use vstd::prelude::*;
use crate::element::{overwritten, padded};
use crate::integer::{not_lane, SimdIntegerElement};
use crate::num::repeated;

verus! {

/// A partial load of `len` elements followed by a partial store of `len`
/// lanes copies the first `len` elements of `src` to the front of `dst`
/// and leaves the rest of `dst` as it was, whatever fills the other lanes.
pub proof fn lemma_partial_round_trip<T>(src: Seq<T>, dst: Seq<T>, len: int, width: int, fill: T)
    requires
        0 <= len <= width,
        len <= src.len(),
        len <= dst.len(),
    ensures
        ({
            let stored = overwritten(dst, padded(src, len, width, fill), len);
            &&& stored.len() == dst.len()
            &&& stored.subrange(0, len) == src.subrange(0, len)
            &&& stored.subrange(len, dst.len() as int) == dst.subrange(len, dst.len() as int)
        }),
{
}

/// Flipping every bit twice gives the lane back.
pub proof fn lemma_not_involution<T: SimdIntegerElement>(x: T)
    ensures
        not_lane(not_lane(x)) == x,
{
    T::xor_cancels(x, T::all_ones());
}

/// Two applications of `not` give the lanes of the first vector back.
pub proof fn lemma_not_twice<T: SimdIntegerElement>(v: T::Vector, once: T::Vector, twice: T::Vector)
    requires
        T::lanes(once) == T::lanes(v).map_values(|a: T| T::xor_lane(a, T::all_ones())),
        T::lanes(twice) == T::lanes(once).map_values(|a: T| T::xor_lane(a, T::all_ones())),
    ensures
        T::lanes(twice) == T::lanes(v),
{
    assert forall|i: int| 0 <= i < T::lanes(v).len() implies T::lanes(twice)[i] == T::lanes(v)[i] by {
        lemma_not_involution(T::lanes(v)[i]);
    }
}

/// Where two operations agree on a set of values that holds `acc` and that
/// they do not leave, repeating either gives the same value of the set.
pub proof fn lemma_repeated_agree<T>(
    f: spec_fn(T, T) -> T,
    g: spec_fn(T, T) -> T,
    member: spec_fn(T) -> bool,
    acc: T,
    x: T,
    count: nat,
)
    requires
        member(acc),
        forall|a: T| member(a) ==> member(#[trigger] f(a, x)) && f(a, x) == g(a, x),
    ensures
        repeated(f, acc, x, count) == repeated(g, acc, x, count),
        member(repeated(f, acc, x, count)),
    decreases count,
{
    if count > 0 {
        lemma_repeated_agree(f, g, member, acc, x, (count - 1) as nat);
    }
}

/// The only integers that divide one are one and minus one.
pub proof fn lemma_divides_one(x: int)
    requires
        x != 0,
        1int % x == 0,
    ensures
        x == 1 || x == -1,
{
    vstd::arithmetic::div_mod::lemma_fundamental_div_mod(1, x);
    let q = 1int / x;
    assert(x == 1 || x == -1) by (nonlinear_arith)
        requires
            x * q == 1,
    ;
}

} // verus!
