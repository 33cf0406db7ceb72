//! Golden-section search on the grid: the bracket shrinks around the
//! minimum, one new evaluation of the objective per iteration.

use vstd::prelude::*;

use crate::problem::UnimodalProblem;
use crate::value::Value;

verus! {

/// Numerator of the golden-section fraction `rho = 2 - phi = 1 / phi^2`,
/// about 0.381966011250105152, as `RHO_NUM / RHO_DEN`.
pub const RHO_NUM: i128 = 381_966_011_250_105_152;

/// Denominator of the golden-section fraction.
pub const RHO_DEN: i128 = 1_000_000_000_000_000_000;

/// How far, in grid steps, a reused probe may lie from the golden-section
/// point of the narrowed bracket. Rounding to the grid moves it a little
/// each iteration; past this distance both probes are placed afresh.
pub const DRIFT: i64 = 2;

/// The smallest tolerance, in grid steps: a bracket must have room for two
/// distinct interior probes while the search goes on.
pub const MIN_XTOL: i64 = 2;

/// Why a search was refused.
#[derive(Clone, Copy, Debug, PartialEq, Eq, Structural)]
pub enum SearchError {
    /// The lower bound is not below the upper bound.
    InvalidBracket,
    /// The tolerance is below `MIN_XTOL`.
    InvalidTolerance,
}

/// The state of a search: the bracket, its two interior probes and the
/// objective's values there.
#[derive(Clone, Copy, Debug, PartialEq, Eq, Structural)]
pub struct SearchState {
    pub lower_bound: i64,
    pub upper_bound: i64,
    pub lower_probe: i64,
    pub upper_probe: i64,
    pub lower_value: Value,
    pub upper_value: Value,
}

/// The golden-section share of a width `w`, rounded down to the grid.
pub open spec fn golden_cut(w: int) -> int {
    w * (RHO_NUM as int) / (RHO_DEN as int)
}

/// A distance `d` from an end of a bracket of width `w` lies within `DRIFT`
/// of the golden-section share of `w`.
pub open spec fn near_cut(d: int, w: int) -> bool {
    golden_cut(w) - DRIFT <= d <= golden_cut(w) + DRIFT
}

impl SearchState {
    pub open spec fn width(self) -> int {
        self.upper_bound - self.lower_bound
    }

    /// `lower_bound < lower_probe < upper_probe < upper_bound`.
    pub open spec fn ordered(self) -> bool {
        self.lower_bound < self.lower_probe < self.upper_probe < self.upper_bound
    }

    /// Each probe lies within `DRIFT` of the golden-section point on its
    /// side of the bracket.
    pub open spec fn balanced(self) -> bool {
        &&& near_cut(self.lower_probe - self.lower_bound, self.width())
        &&& near_cut(self.upper_bound - self.upper_probe, self.width())
    }

    /// Ordered and balanced, with the cached values those of `p` at the
    /// probes.
    pub open spec fn wf(self, p: UnimodalProblem) -> bool {
        &&& self.ordered()
        &&& self.balanced()
        &&& self.lower_value == p.value_at(self.lower_probe as int)
        &&& self.upper_value == p.value_at(self.upper_probe as int)
    }

    /// The midpoint of the bracket, rounded down.
    pub open spec fn midpoint(self) -> int {
        self.lower_bound + self.width() / 2
    }
}

/// The first state: probes at the golden-section points of `[lb, ub]`.
pub open spec fn start(p: UnimodalProblem, lb: i64, ub: i64) -> SearchState {
    let cut = golden_cut(ub - lb);
    let lp = (lb + cut) as i64;
    let up = (ub - cut) as i64;
    SearchState {
        lower_bound: lb,
        upper_bound: ub,
        lower_probe: lp,
        upper_probe: up,
        lower_value: p.value_at(lp as int),
        upper_value: p.value_at(up as int),
    }
}

/// The state on the narrowed bracket `[a, c]` that keeps the probe `b`
/// (with its value `vb`) and adds one new probe at the golden-section point
/// of `[a, c]`, on the lower side (`toward_lower`) or the upper side.
///
/// Where `b` has drifted more than `DRIFT` from its own golden-section point,
/// or the new point does not fall strictly between `b` and the end of its
/// side, both probes are placed afresh, as at the start. A bracket of width
/// two has no room for two probes: both are then `b`.
pub open spec fn refill(
    p: UnimodalProblem,
    a: i64,
    b: i64,
    vb: Value,
    c: i64,
    toward_lower: bool,
) -> SearchState {
    let w = c - a;
    if w < 3 {
        SearchState {
            lower_bound: a,
            upper_bound: c,
            lower_probe: b,
            upper_probe: b,
            lower_value: vb,
            upper_value: vb,
        }
    } else if toward_lower {
        let x = a + golden_cut(w);
        if a < x < b && near_cut(c - b, w) {
            SearchState {
                lower_bound: a,
                upper_bound: c,
                lower_probe: x as i64,
                upper_probe: b,
                lower_value: p.value_at(x),
                upper_value: vb,
            }
        } else {
            start(p, a, c)
        }
    } else {
        let x = c - golden_cut(w);
        if b < x < c && near_cut(b - a, w) {
            SearchState {
                lower_bound: a,
                upper_bound: c,
                lower_probe: b,
                upper_probe: x as i64,
                lower_value: vb,
                upper_value: p.value_at(x),
            }
        } else {
            start(p, a, c)
        }
    }
}

/// One iteration: a smaller value at the lower probe keeps
/// `[lower_bound, upper_probe]`, anything else keeps
/// `[lower_probe, upper_bound]`.
pub open spec fn step(p: UnimodalProblem, s: SearchState) -> SearchState {
    if s.lower_value.spec_lt(s.upper_value) {
        refill(p, s.lower_bound, s.lower_probe, s.lower_value, s.upper_probe, true)
    } else {
        refill(p, s.lower_probe, s.upper_probe, s.upper_value, s.upper_bound, false)
    }
}

/// Whether the search goes on from `s`.
pub open spec fn continues(s: SearchState, xtol: int) -> bool {
    s.width() > xtol && xtol >= MIN_XTOL && s.ordered()
}

/// The state in which the search stops, from `s`.
pub open spec fn settle(p: UnimodalProblem, s: SearchState, xtol: int) -> SearchState
    decreases s.width(),
{
    if continues(s, xtol) {
        settle(p, step(p, s), xtol)
    } else {
        s
    }
}

/// The brackets after each iteration, from `s` on.
pub open spec fn progress(p: UnimodalProblem, s: SearchState, xtol: int) -> Seq<(i64, i64)>
    decreases s.width(),
{
    if continues(s, xtol) {
        let n = step(p, s);
        seq![(n.lower_bound, n.upper_bound)] + progress(p, n, xtol)
    } else {
        Seq::empty()
    }
}

/// `w` is at most `(1 - rho) * v + DRIFT + 1`: one golden-section cut of
/// `v`, up to the grid's slack.
pub open spec fn golden_shrink(w: int, v: int) -> bool {
    w * RHO_DEN <= (RHO_DEN - RHO_NUM) * v + (DRIFT + 1) * RHO_DEN
}

/// Bracket `inner` lies inside bracket `outer`, is strictly narrower, and
/// is at most one golden-section cut of it, up to the grid's slack.
pub open spec fn nested_in(inner: (i64, i64), outer: (i64, i64)) -> bool {
    &&& outer.0 <= inner.0
    &&& inner.1 <= outer.1
    &&& inner.1 - inner.0 < outer.1 - outer.0
    &&& golden_shrink(inner.1 - inner.0, outer.1 - outer.0)
}

/// Each bracket of `t` after the first is nested in the one before it, in
/// the sense of `nested_in`.
pub open spec fn nests(t: Seq<(i64, i64)>) -> bool {
    forall|i: int| #![trigger t[i]] 0 <= i < t.len() - 1 ==> nested_in(t[i + 1], t[i])
}

/// The estimate of the minimizer: the midpoint of the final bracket.
pub open spec fn search_estimate(p: UnimodalProblem, lb: i64, ub: i64, xtol: int) -> int {
    settle(p, start(p, lb, ub), xtol).midpoint()
}

/// Bounds of the golden-section share: it lies in `[0, w]`, two of them fit
/// strictly inside a nonempty width, a width of three or more gets at least
/// one step, and rounding down loses less than one step.
proof fn lemma_cut_bounds(w: int)
    requires
        w >= 0,
    ensures
        0 <= golden_cut(w) <= w,
        w >= 1 ==> 2 * golden_cut(w) < w,
        w >= 3 ==> golden_cut(w) >= 1,
        golden_cut(w) * RHO_DEN > w * RHO_NUM - RHO_DEN,
{
}

/// Each iteration narrows the bracket: it becomes
/// `[lower_bound, upper_probe]` or `[lower_probe, upper_bound]`, strictly
/// narrower than before and at most `(1 - rho)` of its width plus
/// `DRIFT + 1` grid steps, and the state stays well formed while there is
/// room for two probes.
pub proof fn lemma_step_narrows(p: UnimodalProblem, s: SearchState)
    requires
        s.wf(p),
    ensures
        step(p, s).width() < s.width(),
        golden_shrink(step(p, s).width(), s.width()),
        step(p, s).width() >= 2,
        (step(p, s).lower_bound == s.lower_bound && step(p, s).upper_bound == s.upper_probe)
            || (step(p, s).lower_bound == s.lower_probe && step(p, s).upper_bound
            == s.upper_bound),
        step(p, s).width() >= 3 ==> step(p, s).wf(p),
{
    let n = step(p, s);
    lemma_cut_bounds(n.width());
    lemma_cut_bounds(s.width());
}

/// From a state that is well formed wherever it is wider than `xtol`, the
/// search stops on a bracket inside the first one and at most `xtol` wide.
proof fn lemma_settle(p: UnimodalProblem, s: SearchState, xtol: int)
    requires
        xtol >= MIN_XTOL,
        s.lower_bound < s.upper_bound,
        s.width() > xtol ==> s.wf(p),
    ensures
        0 < settle(p, s, xtol).width() <= xtol,
        s.lower_bound <= settle(p, s, xtol).lower_bound,
        settle(p, s, xtol).upper_bound <= s.upper_bound,
    decreases s.width(),
{
    if continues(s, xtol) {
        lemma_step_narrows(p, s);
        lemma_settle(p, step(p, s), xtol);
    }
}

/// On an objective unimodal at `c`, the search keeps `c` inside the bracket.
proof fn lemma_settle_keeps(p: UnimodalProblem, s: SearchState, xtol: int, c: int, lo: int, hi: int)
    requires
        xtol >= MIN_XTOL,
        s.lower_bound < s.upper_bound,
        s.width() > xtol ==> s.wf(p),
        p.unimodal_at(c, lo, hi),
        lo <= s.lower_bound <= c <= s.upper_bound <= hi,
    ensures
        settle(p, s, xtol).lower_bound <= c <= settle(p, s, xtol).upper_bound,
    decreases s.width(),
{
    if continues(s, xtol) {
        lemma_step_narrows(p, s);
        let n = step(p, s);
        if s.lower_value.spec_lt(s.upper_value) {
            if c > s.upper_probe {
                assert(p.value_at(s.upper_probe as int).spec_lt(p.value_at(s.lower_probe as int)));
                crate::value::lemma_lt_asymmetric(s.lower_value, s.upper_value);
            }
        } else {
            if c < s.lower_probe {
                assert(p.value_at(s.lower_probe as int).spec_lt(p.value_at(s.upper_probe as int)));
            }
        }
        lemma_settle_keeps(p, n, xtol, c, lo, hi);
    }
}

/// The search stops on a bracket at most `xtol` wide, inside the bracket it
/// was given.
pub proof fn lemma_final_width_within_tolerance(p: UnimodalProblem, lb: i64, ub: i64, xtol: int)
    requires
        lb < ub,
        xtol >= MIN_XTOL,
    ensures
        0 < settle(p, start(p, lb, ub), xtol).width() <= xtol,
        lb <= settle(p, start(p, lb, ub), xtol).lower_bound,
        settle(p, start(p, lb, ub), xtol).upper_bound <= ub,
{
    lemma_cut_bounds(ub - lb);
    lemma_settle(p, start(p, lb, ub), xtol);
}

/// When the objective is unimodal on the bracket with its minimum at `c`,
/// the estimate lies within `xtol` of `c`.
pub proof fn lemma_estimate_near_minimizer(p: UnimodalProblem, lb: i64, ub: i64, xtol: int, c: int)
    requires
        lb < ub,
        xtol >= MIN_XTOL,
        lb <= c <= ub,
        p.unimodal_at(c, lb as int, ub as int),
    ensures
        c - xtol <= search_estimate(p, lb, ub, xtol) <= c + xtol,
{
    lemma_cut_bounds(ub - lb);
    lemma_settle(p, start(p, lb, ub), xtol);
    lemma_settle_keeps(p, start(p, lb, ub), xtol, c, lb as int, ub as int);
}

/// With a negative scale, on a bracket that holds the offset, the estimate
/// lies within `xtol` of the offset.
pub proof fn lemma_estimate_near_offset(p: UnimodalProblem, lb: i64, ub: i64, xtol: int)
    requires
        lb < ub,
        xtol >= MIN_XTOL,
        p.scale_factor < 0,
        lb <= p.x_offset <= ub,
    ensures
        p.x_offset - xtol <= search_estimate(p, lb, ub, xtol) <= p.x_offset + xtol,
{
    crate::problem::lemma_negative_scale_unimodal(p, lb as int, ub as int);
    lemma_estimate_near_minimizer(p, lb, ub, xtol, p.x_offset as int);
}

/// The progress from `s`: no records exactly when `s` is narrow enough, the
/// first nested in the bracket of `s`, each later one nested in the one
/// before, and the last one the bracket the search stops on.
#[verifier::rlimit(40)]
proof fn lemma_progress_nests(p: UnimodalProblem, s: SearchState, xtol: int)
    requires
        xtol >= MIN_XTOL,
        s.lower_bound < s.upper_bound,
        s.width() > xtol ==> s.wf(p),
    ensures
        progress(p, s, xtol).len() == 0 <==> s.width() <= xtol,
        progress(p, s, xtol).len() > 0 ==> {
            &&& nested_in(progress(p, s, xtol)[0], (s.lower_bound, s.upper_bound))
            &&& progress(p, s, xtol).last() == (
                settle(p, s, xtol).lower_bound,
                settle(p, s, xtol).upper_bound,
            )
            &&& progress(p, s, xtol).last().1 - progress(p, s, xtol).last().0 <= xtol
        },
        nests(progress(p, s, xtol)),
    decreases s.width(),
{
    lemma_settle(p, s, xtol);
    if continues(s, xtol) {
        lemma_step_narrows(p, s);
        let n = step(p, s);
        lemma_progress_nests(p, n, xtol);
        lemma_settle(p, n, xtol);
        let t = progress(p, s, xtol);
        let rest = progress(p, n, xtol);
        assert(t == seq![(n.lower_bound, n.upper_bound)] + rest);
        assert forall|i: int| #![trigger t[i]] 0 <= i < t.len() - 1 implies nested_in(
            t[i + 1],
            t[i],
        ) by {
            if i > 0 {
                assert(t[i] == rest[i - 1]);
                assert(t[i + 1] == rest[i]);
            } else {
                assert(t[1] == rest[0]);
            }
        }
    }
}

/// The progress records of a search on `[lb, ub]`: none exactly when the
/// bracket is already at most `xtol` wide; otherwise each record lies inside
/// the bracket before it (the first inside `[lb, ub]`), strictly narrower and
/// at most `(1 - rho)` of its width plus `DRIFT + 1` grid steps, and the last
/// is the final bracket, at most `xtol` wide.
pub proof fn lemma_trace_nests(p: UnimodalProblem, lb: i64, ub: i64, xtol: int)
    requires
        lb < ub,
        xtol >= MIN_XTOL,
    ensures
        progress(p, start(p, lb, ub), xtol).len() == 0 <==> ub - lb <= xtol,
        progress(p, start(p, lb, ub), xtol).len() > 0 ==> {
            &&& nested_in(progress(p, start(p, lb, ub), xtol)[0], (lb, ub))
            &&& progress(p, start(p, lb, ub), xtol).last() == (
                settle(p, start(p, lb, ub), xtol).lower_bound,
                settle(p, start(p, lb, ub), xtol).upper_bound,
            )
            &&& progress(p, start(p, lb, ub), xtol).last().1 - progress(
                p,
                start(p, lb, ub),
                xtol,
            ).last().0 <= xtol
        },
        nests(progress(p, start(p, lb, ub), xtol)),
{
    lemma_cut_bounds(ub - lb);
    lemma_progress_nests(p, start(p, lb, ub), xtol);
}

/// Evaluates the golden-section share of a width.
fn golden_cut_exec(w: i128) -> (r: i128)
    requires
        0 <= w <= u64::MAX,
    ensures
        r == golden_cut(w as int),
        0 <= r <= w,
{
    proof {
        lemma_cut_bounds(w as int);
    }
    w * RHO_NUM / RHO_DEN
}

/// Computes `start(p, lb, ub)`.
fn start_state(p: &UnimodalProblem, lb: i64, ub: i64) -> (r: SearchState)
    requires
        lb < ub,
    ensures
        r == start(*p, lb, ub),
        r.width() >= 3 ==> r.wf(*p),
{
    let w: i128 = ub as i128 - lb as i128;
    let cut = golden_cut_exec(w);
    proof {
        lemma_cut_bounds(w as int);
    }
    let lp = (lb as i128 + cut) as i64;
    let up = (ub as i128 - cut) as i64;
    let lower_value = p.calc(lp);
    let upper_value = p.calc(up);
    SearchState {
        lower_bound: lb,
        upper_bound: ub,
        lower_probe: lp,
        upper_probe: up,
        lower_value,
        upper_value,
    }
}

/// Computes `refill(p, a, b, vb, c, toward_lower)`.
fn refill_state(
    p: &UnimodalProblem,
    a: i64,
    b: i64,
    vb: Value,
    c: i64,
    toward_lower: bool,
) -> (r: SearchState)
    requires
        a < b < c,
    ensures
        r == refill(*p, a, b, vb, c, toward_lower),
{
    let w: i128 = c as i128 - a as i128;
    if w < 3 {
        return SearchState {
            lower_bound: a,
            upper_bound: c,
            lower_probe: b,
            upper_probe: b,
            lower_value: vb,
            upper_value: vb,
        };
    }
    let cut = golden_cut_exec(w);
    let lo = cut - DRIFT as i128;
    let hi = cut + DRIFT as i128;
    if toward_lower {
        let x = (a as i128 + cut) as i64;
        let d = c as i128 - b as i128;
        if a < x && x < b && lo <= d && d <= hi {
            SearchState {
                lower_bound: a,
                upper_bound: c,
                lower_probe: x,
                upper_probe: b,
                lower_value: p.calc(x),
                upper_value: vb,
            }
        } else {
            start_state(p, a, c)
        }
    } else {
        let x = (c as i128 - cut) as i64;
        let d = b as i128 - a as i128;
        if b < x && x < c && lo <= d && d <= hi {
            SearchState {
                lower_bound: a,
                upper_bound: c,
                lower_probe: b,
                upper_probe: x,
                lower_value: vb,
                upper_value: p.calc(x),
            }
        } else {
            start_state(p, a, c)
        }
    }
}

/// Computes `step(p, s)`: one comparison and one new evaluation, or two
/// where both probes are placed afresh.
fn next_state(p: &UnimodalProblem, s: &SearchState) -> (r: SearchState)
    requires
        s.wf(*p),
    ensures
        r == step(*p, *s),
{
    if s.lower_value.is_less_than(&s.upper_value) {
        refill_state(p, s.lower_bound, s.lower_probe, s.lower_value, s.upper_probe, true)
    } else {
        refill_state(p, s.lower_probe, s.upper_probe, s.upper_value, s.upper_bound, false)
    }
}

/// Width of the bracket of `s`.
fn width_of(s: &SearchState) -> (r: i128)
    ensures
        r == s.width(),
{
    s.upper_bound as i128 - s.lower_bound as i128
}

/// Searches `[lower_bound, upper_bound]` for the minimum of `problem` until
/// the bracket is at most `xtol` wide, and returns the midpoint of the final
/// bracket with the objective's value there.
///
/// An empty or reversed bracket is refused with `InvalidBracket`, a
/// tolerance below `MIN_XTOL` with `InvalidTolerance`. A bracket that is
/// already narrow enough is not narrowed at all.
pub fn golden_section_search(
    problem: &UnimodalProblem,
    lower_bound: i64,
    upper_bound: i64,
    xtol: i64,
) -> (r: Result<(i64, Value), SearchError>)
    ensures
        match r {
            Ok((x, v)) => {
                &&& lower_bound < upper_bound
                &&& xtol >= MIN_XTOL
                &&& x == search_estimate(*problem, lower_bound, upper_bound, xtol as int)
                &&& v == problem.value_at(x as int)
            },
            Err(SearchError::InvalidBracket) => lower_bound >= upper_bound,
            Err(SearchError::InvalidTolerance) => lower_bound < upper_bound && xtol < MIN_XTOL,
        },
        lower_bound < upper_bound && xtol >= MIN_XTOL && upper_bound - lower_bound <= xtol ==> r
            == Ok::<(i64, Value), SearchError>(
            (
                (lower_bound + (upper_bound - lower_bound) / 2) as i64,
                problem.value_at(lower_bound + (upper_bound - lower_bound) / 2),
            ),
        ),
{
    if lower_bound >= upper_bound {
        return Err(SearchError::InvalidBracket);
    }
    if xtol < MIN_XTOL {
        return Err(SearchError::InvalidTolerance);
    }
    let s0 = start_state(problem, lower_bound, upper_bound);
    let mut s = s0;
    while width_of(&s) > xtol as i128
        invariant
            xtol >= MIN_XTOL,
            s.width() > xtol ==> s.wf(*problem),
            s.lower_bound < s.upper_bound,
            settle(*problem, s, xtol as int) == settle(*problem, s0, xtol as int),
        decreases s.width(),
    {
        proof {
            lemma_step_narrows(*problem, s);
        }
        s = next_state(problem, &s);
    }
    let x = (s.lower_bound as i128 + (s.upper_bound as i128 - s.lower_bound as i128) / 2) as i64;
    let v = problem.calc(x);
    Ok((x, v))
}

/// The brackets that `golden_section_search` goes through, one record
/// `(lower_bound, upper_bound)` after each iteration, refused on the same
/// inputs and with the same errors.
pub fn golden_section_trace(
    problem: &UnimodalProblem,
    lower_bound: i64,
    upper_bound: i64,
    xtol: i64,
) -> (r: Result<Vec<(i64, i64)>, SearchError>)
    ensures
        match r {
            Ok(t) => {
                &&& lower_bound < upper_bound
                &&& xtol >= MIN_XTOL
                &&& t@ == progress(*problem, start(*problem, lower_bound, upper_bound), xtol as int)
            },
            Err(SearchError::InvalidBracket) => lower_bound >= upper_bound,
            Err(SearchError::InvalidTolerance) => lower_bound < upper_bound && xtol < MIN_XTOL,
        },
{
    if lower_bound >= upper_bound {
        return Err(SearchError::InvalidBracket);
    }
    if xtol < MIN_XTOL {
        return Err(SearchError::InvalidTolerance);
    }
    let s0 = start_state(problem, lower_bound, upper_bound);
    let mut s = s0;
    let mut records: Vec<(i64, i64)> = Vec::new();
    while width_of(&s) > xtol as i128
        invariant
            xtol >= MIN_XTOL,
            s.width() > xtol ==> s.wf(*problem),
            s.lower_bound < s.upper_bound,
            records@ + progress(*problem, s, xtol as int) == progress(*problem, s0, xtol as int),
        decreases s.width(),
    {
        proof {
            lemma_step_narrows(*problem, s);
        }
        let n = next_state(problem, &s);
        let ghost before = records@;
        records.push((n.lower_bound, n.upper_bound));
        proof {
            assert(records@ + progress(*problem, n, xtol as int) =~= before + progress(
                *problem,
                s,
                xtol as int,
            ));
        }
        s = n;
    }
    Ok(records)
}

} // verus!
