//! The arithmetic that the attractor is iterated in, and the relations by
//! which contracts speak of its results.

use vstd::prelude::*;

verus! {

/// A scalar with the four operations that one step of the map is made of.
///
/// Nothing is assumed of an implementation: a contract that speaks of a result
/// of one of these operations speaks of whatever the implementation gives.
pub trait Scalar: Copy {
    /// The product `self * rhs`.
    fn times(self, rhs: Self) -> Self;

    /// The difference `self - rhs`.
    fn minus(self, rhs: Self) -> Self;

    /// The sine of `self`, taken in radians.
    fn sin(self) -> Self;

    /// The cosine of `self`, taken in radians.
    fn cos(self) -> Self;
}

/// `r` is a value that `x.times(y)` can return.
pub open spec fn product<S: Scalar>(x: S, y: S, r: S) -> bool {
    call_ensures(S::times, (x, y), r)
}

/// `r` is a value that `x.minus(y)` can return.
pub open spec fn difference<S: Scalar>(x: S, y: S, r: S) -> bool {
    call_ensures(S::minus, (x, y), r)
}

/// `r` is a value that `x.sin()` can return.
pub open spec fn sine<S: Scalar>(x: S, r: S) -> bool {
    call_ensures(S::sin, (x,), r)
}

/// `r` is a value that `x.cos()` can return.
pub open spec fn cosine<S: Scalar>(x: S, r: S) -> bool {
    call_ensures(S::cos, (x,), r)
}

/// `r` is a value that the arithmetic can give for `sin(p * u)`.
pub open spec fn sine_of_product<S: Scalar>(p: S, u: S, r: S) -> bool {
    exists|pu: S| #[trigger] product(p, u, pu) && sine(pu, r)
}

/// `r` is a value that the arithmetic can give for `cos(q * v)`.
pub open spec fn cosine_of_product<S: Scalar>(q: S, v: S, r: S) -> bool {
    exists|qv: S| #[trigger] product(q, v, qv) && cosine(qv, r)
}

/// `r` is a value that the arithmetic can give for `sin(p * u) - cos(q * v)`.
pub open spec fn wave<S: Scalar>(p: S, u: S, q: S, v: S, r: S) -> bool {
    exists|s: S, c: S|
        sine_of_product(p, u, s) && cosine_of_product(q, v, c) && #[trigger] difference(s, c, r)
}

/// Each of the four operations gives one result only for the same operands.
pub open spec fn single_valued<S: Scalar>() -> bool {
    &&& forall|x: S, y: S, r1: S, r2: S|
        #[trigger] product(x, y, r1) && #[trigger] product(x, y, r2) ==> r1 == r2
    &&& forall|x: S, y: S, r1: S, r2: S|
        #[trigger] difference(x, y, r1) && #[trigger] difference(x, y, r2) ==> r1 == r2
    &&& forall|x: S, r1: S, r2: S| #[trigger] sine(x, r1) && #[trigger] sine(x, r2) ==> r1 == r2
    &&& forall|x: S, r1: S, r2: S|
        #[trigger] cosine(x, r1) && #[trigger] cosine(x, r2) ==> r1 == r2
}

/// In a single-valued arithmetic `sin(p * u) - cos(q * v)` has one value only.
pub proof fn lemma_wave_is_determined<S: Scalar>(p: S, u: S, q: S, v: S, r1: S, r2: S)
    requires
        single_valued::<S>(),
        wave(p, u, q, v, r1),
        wave(p, u, q, v, r2),
    ensures
        r1 == r2,
{
    let (s1, c1) = choose|s: S, c: S|
        sine_of_product(p, u, s) && cosine_of_product(q, v, c) && #[trigger] difference(s, c, r1);
    let (s2, c2) = choose|s: S, c: S|
        sine_of_product(p, u, s) && cosine_of_product(q, v, c) && #[trigger] difference(s, c, r2);
    let pu1 = choose|pu: S| #[trigger] product(p, u, pu) && sine(pu, s1);
    let pu2 = choose|pu: S| #[trigger] product(p, u, pu) && sine(pu, s2);
    let qv1 = choose|qv: S| #[trigger] product(q, v, qv) && cosine(qv, c1);
    let qv2 = choose|qv: S| #[trigger] product(q, v, qv) && cosine(qv, c2);
    assert(pu1 == pu2);
    assert(qv1 == qv2);
    assert(s1 == s2);
    assert(c1 == c2);
}

/// A value of `sin(p * u) - cos(q * v)` lies in `band`, provided that the two
/// products lie in `finite`, that the sine and the cosine of a member of
/// `finite` lie in `unit`, and that the difference of two members of `unit`
/// lies in `band`.
pub proof fn lemma_wave_stays_in_band<S: Scalar>(
    p: S,
    u: S,
    q: S,
    v: S,
    r: S,
    finite: Set<S>,
    unit: Set<S>,
    band: Set<S>,
)
    requires
        wave(p, u, q, v, r),
        forall|t: S| #[trigger] product(p, u, t) ==> finite.contains(t),
        forall|t: S| #[trigger] product(q, v, t) ==> finite.contains(t),
        forall|x: S, t: S| finite.contains(x) && #[trigger] sine(x, t) ==> unit.contains(t),
        forall|x: S, t: S| finite.contains(x) && #[trigger] cosine(x, t) ==> unit.contains(t),
        forall|s: S, c: S, t: S|
            unit.contains(s) && unit.contains(c) && #[trigger] difference(s, c, t)
                ==> band.contains(t),
    ensures
        band.contains(r),
{
    let (s, c) = choose|s: S, c: S|
        sine_of_product(p, u, s) && cosine_of_product(q, v, c) && #[trigger] difference(s, c, r);
    let pu = choose|pu: S| #[trigger] product(p, u, pu) && sine(pu, s);
    let qv = choose|qv: S| #[trigger] product(q, v, qv) && cosine(qv, c);
    assert(unit.contains(s));
    assert(unit.contains(c));
}

} // verus!
