//! The objective: `scale * |1 / (x - offset)|` on a fixed-point grid, and
//! the builder that configures it.

use rand::Rng;
use vstd::prelude::*;

use crate::value::Value;

verus! {

/// Grid positions per unit of the independent variable: a position `x`
/// stands for the real number `x / TICKS_PER_UNIT`, and the offset and the
/// scale are held on the same grid.
pub const TICKS_PER_UNIT: i64 = 1_000_000;

/// The objective `scale_factor * |1 / (x - x_offset)|`.
///
/// Offset and scale share the grid of the positions, so the value at `x` is
/// the exact ratio `scale_factor / |x - x_offset|`: the grid's unit cancels.
#[derive(Clone, Copy, Debug, PartialEq, Eq, Structural)]
pub struct UnimodalProblem {
    pub x_offset: i64,
    pub scale_factor: i64,
}

impl UnimodalProblem {
    /// Distance from `x` to the offset.
    pub open spec fn distance(self, x: int) -> int {
        if x >= self.x_offset {
            x - self.x_offset
        } else {
            self.x_offset - x
        }
    }

    /// The value of the objective at `x`: the ratio `scale / |x - offset|`,
    /// and at the offset the limit `scale * inf`.
    pub open spec fn value_at(self, x: int) -> Value {
        let d = self.distance(x);
        if d == 0 {
            if self.scale_factor > 0 {
                Value::PosInf
            } else if self.scale_factor < 0 {
                Value::NegInf
            } else {
                Value::Undefined
            }
        } else {
            Value::Finite { num: self.scale_factor, den: d as u64 }
        }
    }

    /// Strictly decreasing up to `c` and strictly increasing from `c` on
    /// `[lo, hi]`: the minimum over `[lo, hi]` lies at `c` alone.
    pub open spec fn unimodal_at(self, c: int, lo: int, hi: int) -> bool {
        &&& forall|x: int, y: int|
            #![trigger self.value_at(x), self.value_at(y)]
            lo <= x < y <= c ==> self.value_at(y).spec_lt(self.value_at(x))
        &&& forall|x: int, y: int|
            #![trigger self.value_at(x), self.value_at(y)]
            c <= x < y <= hi ==> self.value_at(x).spec_lt(self.value_at(y))
    }

    /// Evaluates the objective at `x`.
    pub fn calc(&self, x: i64) -> (r: Value)
        ensures
            r == self.value_at(x as int),
            r.wf(),
    {
        let diff: i128 = x as i128 - self.x_offset as i128;
        let d: i128 = if diff >= 0 {
            diff
        } else {
            -diff
        };
        if d == 0 {
            if self.scale_factor > 0 {
                Value::PosInf
            } else if self.scale_factor < 0 {
                Value::NegInf
            } else {
                Value::Undefined
            }
        } else {
            Value::Finite { num: self.scale_factor, den: d as u64 }
        }
    }
}

/// With a negative scale the objective falls towards the pole from both
/// sides and reaches `NegInf` there: on every bracket of the grid it is
/// unimodal with its minimum at the offset.
pub proof fn lemma_negative_scale_unimodal(p: UnimodalProblem, lo: int, hi: int)
    requires
        p.scale_factor < 0,
        i64::MIN <= lo,
        hi <= i64::MAX,
    ensures
        p.unimodal_at(p.x_offset as int, lo, hi),
{
    let c = p.x_offset as int;
    let s = p.scale_factor as int;
    assert forall|x: int, y: int| lo <= x < y <= c implies p.value_at(y).spec_lt(
        p.value_at(x),
    ) by {
        if y < c {
            let dx = c - x;
            let dy = c - y;
            assert(s * dx < s * dy) by (nonlinear_arith)
                requires
                    s < 0,
                    dx > dy,
            ;
        }
    }
    assert forall|x: int, y: int| c <= x < y <= hi implies p.value_at(x).spec_lt(
        p.value_at(y),
    ) by {
        if c < x {
            let dx = x - c;
            let dy = y - c;
            assert(s * dy < s * dx) by (nonlinear_arith)
                requires
                    s < 0,
                    dy > dx,
            ;
        }
    }
}

/// Relies on rand's `thread_rng` and `Rng::gen_range` on an inclusive range:
/// the value drawn lies in the range, and only an empty range panics.
#[verifier::external_body]
fn random_in(lo: i64, hi: i64) -> (r: i64)
    requires
        lo <= hi,
    ensures
        lo <= r <= hi,
{
    rand::thread_rng().gen_range(lo..=hi)
}

/// Configures a `UnimodalProblem`: offset and scale start at zero.
pub struct UnimodalProblemBuilder {
    x_offset: i64,
    scale_factor: i64,
}

impl UnimodalProblemBuilder {
    /// The offset that `build` will use.
    pub closed spec fn spec_offset(&self) -> i64 {
        self.x_offset
    }

    /// The scale that `build` will use.
    pub closed spec fn spec_scale(&self) -> i64 {
        self.scale_factor
    }

    /// A builder with offset and scale zero.
    pub fn new() -> (r: UnimodalProblemBuilder)
        ensures
            r.spec_offset() == 0,
            r.spec_scale() == 0,
    {
        UnimodalProblemBuilder { x_offset: 0, scale_factor: 0 }
    }

    /// Draws the offset uniformly from `[-50, 50]` units and the scale from
    /// `[-10, 10]` units, both on the grid.
    pub fn randomize(&mut self) -> (r: &UnimodalProblemBuilder)
        ensures
            -50 * TICKS_PER_UNIT <= final(self).spec_offset() <= 50 * TICKS_PER_UNIT,
            -10 * TICKS_PER_UNIT <= final(self).spec_scale() <= 10 * TICKS_PER_UNIT,
            *r == *final(self),
    {
        self.x_offset = random_in(-50 * TICKS_PER_UNIT, 50 * TICKS_PER_UNIT);
        self.scale_factor = random_in(-10 * TICKS_PER_UNIT, 10 * TICKS_PER_UNIT);
        self
    }

    /// Sets the offset that `build` will use.
    pub fn set_offset(&mut self, x_offset: i64) -> (r: &UnimodalProblemBuilder)
        ensures
            final(self).spec_offset() == x_offset,
            final(self).spec_scale() == old(self).spec_scale(),
            *r == *final(self),
    {
        self.x_offset = x_offset;
        self
    }

    /// Sets the scale that `build` will use.
    pub fn set_scale(&mut self, scale_factor: i64) -> (r: &UnimodalProblemBuilder)
        ensures
            final(self).spec_scale() == scale_factor,
            final(self).spec_offset() == old(self).spec_offset(),
            *r == *final(self),
    {
        self.scale_factor = scale_factor;
        self
    }

    /// A problem with the builder's current offset and scale.
    pub fn build(&self) -> (r: UnimodalProblem)
        ensures
            r.x_offset == self.spec_offset(),
            r.scale_factor == self.spec_scale(),
    {
        UnimodalProblem { x_offset: self.x_offset, scale_factor: self.scale_factor }
    }
}

} // verus!
