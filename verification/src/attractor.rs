//! The attractor engine: its state, its construction and its step.

use crate::scalar::{cosine_of_product, difference, product, sine_of_product, wave, Scalar};
use vstd::prelude::*;

verus! {

/// A point of the plane.
pub struct Point<S> {
    pub x: S,
    pub y: S,
}

impl<S: Copy> Clone for Point<S> {
    fn clone(&self) -> (point: Self)
        ensures
            point == *self,
    {
        *self
    }
}

impl<S: Copy> Copy for Point<S> {

}

/// What an engine holds: the current iterate and the four parameters of the map.
pub struct State<S> {
    pub position: Point<S>,
    pub a: S,
    pub b: S,
    pub c: S,
    pub d: S,
}

/// One step of the map takes `from` to `to`.
///
/// The parameters stay as they are. The new `x` is a value of
/// `sin(a * y) - cos(b * x)` at the old point. The new `y` is a value of
/// `sin(c * x') - cos(d * y)`, where `x'` is the new `x` and `y` the old `y`.
pub open spec fn step<S: Scalar>(from: State<S>, to: State<S>) -> bool {
    &&& to.a == from.a
    &&& to.b == from.b
    &&& to.c == from.c
    &&& to.d == from.d
    &&& wave(from.a, from.position.y, from.b, from.position.x, to.position.x)
    &&& wave(from.c, to.position.x, from.d, from.position.y, to.position.y)
}

/// An instance of the De Jong map: a position that each step moves, and four
/// parameters that are fixed when the engine is made.
pub struct DeJongAttractor<S: Scalar> {
    position: Point<S>,
    a: S,
    b: S,
    c: S,
    d: S,
}

impl<S: Scalar> View for DeJongAttractor<S> {
    type V = State<S>;

    closed spec fn view(&self) -> State<S> {
        State { position: self.position, a: self.a, b: self.b, c: self.c, d: self.d }
    }
}

impl<S: Scalar> DeJongAttractor<S> {
    /// An engine at `initial_position` with the parameters `a`, `b`, `c`, `d`.
    /// Every value is accepted as it is.
    pub fn new(initial_position: Point<S>, a: S, b: S, c: S, d: S) -> (engine: Self)
        ensures
            engine@ == (State { position: initial_position, a, b, c, d }),
    {
        DeJongAttractor { position: initial_position, a, b, c, d }
    }

    /// Computes `sin(p * u) - cos(q * v)`, the sine first.
    fn wave_at(p: S, u: S, q: S, v: S) -> (r: S)
        ensures
            wave(p, u, q, v, r),
    {
        let pu = p.times(u);
        let s = pu.sin();
        let qv = q.times(v);
        let c = qv.cos();
        assert(sine_of_product(p, u, s)) by {
            assert(product(p, u, pu));
        }
        assert(cosine_of_product(q, v, c)) by {
            assert(product(q, v, qv));
        }
        let r = s.minus(c);
        assert(difference(s, c, r));
        r
    }

    /// Takes one step of the map, and returns a copy of the position it arrives at.
    pub fn next(&mut self) -> (point: Point<S>)
        ensures
            step(old(self)@, final(self)@),
            point == final(self)@.position,
    {
        let x = self.position.x;
        let y = self.position.y;
        self.position.x = Self::wave_at(self.a, y, self.b, x);
        self.position.y = Self::wave_at(self.c, self.position.x, self.d, y);
        Point { x: self.position.x, y: self.position.y }
    }

    /// The current position.
    pub fn position(&self) -> (point: Point<S>)
        ensures
            point == self@.position,
    {
        self.position
    }

    /// The parameters `(a, b, c, d)`.
    pub fn parameters(&self) -> (abcd: (S, S, S, S))
        ensures
            abcd == (self@.a, self@.b, self@.c, self@.d),
    {
        (self.a, self.b, self.c, self.d)
    }
}

} // verus!
