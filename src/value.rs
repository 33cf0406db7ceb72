//! Values of the objective: exact ratios, and the limits that a ratio takes
//! where its denominator vanishes.

use vstd::prelude::*;

verus! {

/// A value of the objective.
///
/// `Finite { num, den }` stands for the ratio `num / den`, with `den > 0`.
/// At a pole the objective takes `PosInf` or `NegInf`, and `Undefined` where
/// a zero factor meets the pole (the product `0 * inf`), which compares as
/// neither smaller nor larger than anything.
#[derive(Clone, Copy, Debug, PartialEq, Eq, Structural)]
pub enum Value {
    NegInf,
    Finite { num: i64, den: u64 },
    PosInf,
    Undefined,
}

impl Value {
    /// A `Finite` value has a positive denominator.
    pub open spec fn wf(self) -> bool {
        match self {
            Value::Finite { num, den } => den > 0,
            _ => true,
        }
    }

    /// The strict order on values: the order of the rationals, with `NegInf`
    /// below and `PosInf` above every finite value, and `Undefined`
    /// comparable to nothing.
    pub open spec fn spec_lt(self, other: Value) -> bool {
        match (self, other) {
            (Value::Undefined, _) => false,
            (_, Value::Undefined) => false,
            (Value::NegInf, Value::NegInf) => false,
            (Value::NegInf, _) => true,
            (_, Value::NegInf) => false,
            (Value::PosInf, _) => false,
            (_, Value::PosInf) => true,
            (Value::Finite { num: a, den: b }, Value::Finite { num: c, den: d }) => a * d < c * b,
        }
    }

    /// Whether `self` is strictly smaller than `other`.
    pub fn is_less_than(&self, other: &Value) -> (r: bool)
        ensures
            r == self.spec_lt(*other),
    {
        match (self, other) {
            (Value::Undefined, _) => false,
            (_, Value::Undefined) => false,
            (Value::NegInf, Value::NegInf) => false,
            (Value::NegInf, _) => true,
            (_, Value::NegInf) => false,
            (Value::PosInf, _) => false,
            (_, Value::PosInf) => true,
            (Value::Finite { num: a, den: b }, Value::Finite { num: c, den: d }) => {
                let a = *a as i128;
                let b = *b as i128;
                let c = *c as i128;
                let d = *d as i128;
                proof {
                    lemma_product_fits(a as int, d as int);
                    lemma_product_fits(c as int, b as int);
                }
                a * d < c * b
            },
        }
    }
}

/// The product of an `i64` and a `u64` fits in an `i128`.
proof fn lemma_product_fits(x: int, y: int)
    requires
        i64::MIN <= x <= i64::MAX,
        0 <= y <= u64::MAX,
    ensures
        i128::MIN <= x * y <= i128::MAX,
{
    assert(-0x7fff_ffff_ffff_ffff_8000_0000_0000_0000 <= x * y <= 0x7fff_ffff_ffff_fffe_8000_0000_0000_0001)
        by (nonlinear_arith)
        requires
            -0x8000_0000_0000_0000 <= x <= 0x7fff_ffff_ffff_ffff,
            0 <= y <= 0xffff_ffff_ffff_ffff,
    ;
}

/// The order on values is asymmetric.
pub proof fn lemma_lt_asymmetric(a: Value, b: Value)
    ensures
        a.spec_lt(b) ==> !b.spec_lt(a),
{
}

} // verus!
