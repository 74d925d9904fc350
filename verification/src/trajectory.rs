//! Runs of the map, and what holds of every run.

use crate::attractor::{step, State};
use crate::scalar::{
    cosine, difference, lemma_wave_is_determined, lemma_wave_stays_in_band, product, sine,
    single_valued, Scalar,
};
use vstd::prelude::*;

verus! {

/// `states` is a run of the map: each state but the first comes from the one
/// before it by one step. The point that the `k`-th step returns is the
/// position of `states[k]`.
pub open spec fn is_trajectory<S: Scalar>(states: Seq<State<S>>) -> bool {
    forall|i: int| 0 <= i && i + 1 < states.len() ==> step(#[trigger] states[i], states[i + 1])
}

/// `states` is a run of `n` steps that starts in `start`.
pub open spec fn is_run<S: Scalar>(start: State<S>, n: nat, states: Seq<State<S>>) -> bool {
    &&& states.len() == n + 1
    &&& states[0] == start
    &&& is_trajectory(states)
}

/// However many steps are taken, the four parameters are those of the start.
pub proof fn lemma_parameters_never_change<S: Scalar>(states: Seq<State<S>>, i: int)
    requires
        is_trajectory(states),
        0 <= i < states.len(),
    ensures
        states[i].a == states[0].a,
        states[i].b == states[0].b,
        states[i].c == states[0].c,
        states[i].d == states[0].d,
    decreases i,
{
    if i > 0 {
        lemma_parameters_never_change(states, i - 1);
        assert(step(states[i - 1], states[i - 1 + 1]));
    }
}

/// In a single-valued arithmetic a state has one successor only.
pub proof fn lemma_step_is_determined<S: Scalar>(from: State<S>, to1: State<S>, to2: State<S>)
    requires
        single_valued::<S>(),
        step(from, to1),
        step(from, to2),
    ensures
        to1 == to2,
{
    lemma_wave_is_determined(
        from.a,
        from.position.y,
        from.b,
        from.position.x,
        to1.position.x,
        to2.position.x,
    );
    lemma_wave_is_determined(
        from.c,
        to1.position.x,
        from.d,
        from.position.y,
        to1.position.y,
        to2.position.y,
    );
}

/// In a single-valued arithmetic two runs of `n` steps from the same start
/// pass through the same states, and so return the same `n` points.
pub proof fn lemma_runs_agree<S: Scalar>(
    start: State<S>,
    n: nat,
    first: Seq<State<S>>,
    second: Seq<State<S>>,
)
    requires
        single_valued::<S>(),
        is_run(start, n, first),
        is_run(start, n, second),
    ensures
        first == second,
{
    assert forall|i: int| 0 <= i < first.len() implies first[i] == second[i] by {
        lemma_runs_agree_at(start, n, first, second, i);
    }
}

proof fn lemma_runs_agree_at<S: Scalar>(
    start: State<S>,
    n: nat,
    first: Seq<State<S>>,
    second: Seq<State<S>>,
    i: int,
)
    requires
        single_valued::<S>(),
        is_run(start, n, first),
        is_run(start, n, second),
        0 <= i <= n,
    ensures
        first[i] == second[i],
    decreases i,
{
    if i > 0 {
        lemma_runs_agree_at(start, n, first, second, i - 1);
        assert(step(first[i - 1], first[i - 1 + 1]));
        assert(step(second[i - 1], second[i - 1 + 1]));
        lemma_step_is_determined(first[i - 1], first[i], second[i]);
    }
}

/// Both coordinates that a step arrives at lie in `band`, provided that the
/// four products the step takes lie in `finite`, that the sine and the cosine
/// of a member of `finite` lie in `unit`, and that the difference of two
/// members of `unit` lies in `band`.
pub proof fn lemma_step_stays_in_band<S: Scalar>(
    from: State<S>,
    to: State<S>,
    finite: Set<S>,
    unit: Set<S>,
    band: Set<S>,
)
    requires
        step(from, to),
        forall|r: S| #[trigger] product(from.a, from.position.y, r) ==> finite.contains(r),
        forall|r: S| #[trigger] product(from.b, from.position.x, r) ==> finite.contains(r),
        forall|r: S| #[trigger] product(from.c, to.position.x, r) ==> finite.contains(r),
        forall|r: S| #[trigger] product(from.d, from.position.y, r) ==> finite.contains(r),
        forall|x: S, r: S| finite.contains(x) && #[trigger] sine(x, r) ==> unit.contains(r),
        forall|x: S, r: S| finite.contains(x) && #[trigger] cosine(x, r) ==> unit.contains(r),
        forall|s: S, c: S, r: S|
            unit.contains(s) && unit.contains(c) && #[trigger] difference(s, c, r)
                ==> band.contains(r),
    ensures
        band.contains(to.position.x),
        band.contains(to.position.y),
{
    lemma_wave_stays_in_band(
        from.a,
        from.position.y,
        from.b,
        from.position.x,
        to.position.x,
        finite,
        unit,
        band,
    );
    lemma_wave_stays_in_band(
        from.c,
        to.position.x,
        from.d,
        from.position.y,
        to.position.y,
        finite,
        unit,
        band,
    );
}

} // verus!
