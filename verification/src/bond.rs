//! The deposit that backs a proposal.

use vstd::prelude::*;
use crate::types::{Balance, Config, MILLION};

verus! {

/// `parts` millionths of `value`, rounded to the nearest integer, a tie going down.
/// The whole millions of `value` are scaled exactly; only the remainder is rounded.
pub open spec fn permill_of(parts: u32, value: Balance) -> int {
    let p = if parts > MILLION { MILLION as int } else { parts as int };
    let scaled_rest = (value % 1_000_000) * p;
    (value / 1_000_000) * p + scaled_rest / 1_000_000 + if scaled_rest % 1_000_000 > 500_000 {
        1int
    } else {
        0int
    }
}

/// The bond owed for a proposal of `value`: the bonded fraction of it, raised
/// to the minimum and then capped at the maximum where one is set.
pub open spec fn bond_of(config: Config, value: Balance) -> int {
    let share = permill_of(config.proposal_bond, value);
    let raised = if share < config.proposal_bond_minimum { config.proposal_bond_minimum as int } else { share };
    match config.proposal_bond_maximum {
        Some(m) => if m < raised { m as int } else { raised },
        None => raised,
    }
}

/// A fraction of a value never exceeds the value.
pub proof fn lemma_permill_bounded(parts: u32, value: Balance)
    ensures
        0 <= permill_of(parts, value) <= value,
{
    let p = if parts > MILLION { MILLION as int } else { parts as int };
    let v = value as int;
    let q = v / 1_000_000;
    let r = v % 1_000_000;
    let m = r * p;
    assert(0 <= q * p <= q * 1_000_000) by (nonlinear_arith)
        requires 0 <= q, 0 <= p <= 1_000_000;
    assert(0 <= m <= r * 1_000_000) by (nonlinear_arith)
        requires 0 <= r, 0 <= p <= 1_000_000, m == r * p;
    if p == 1_000_000 {
        assert(m % 1_000_000 == 0) by (nonlinear_arith)
            requires m == r * 1_000_000;
        assert(m / 1_000_000 == r) by (nonlinear_arith)
            requires m == r * 1_000_000;
    } else if r > 0 {
        assert(m <= r * 1_000_000 - r) by (nonlinear_arith)
            requires 0 < r, 0 <= p <= 999_999, m == r * p;
        assert(m / 1_000_000 <= r - 1) by (nonlinear_arith)
            requires 0 <= m <= r * 1_000_000 - r, 0 < r;
    } else {
        assert(m == 0);
    }
}

/// Multiplies a value by a parts-per-million fraction through
/// `sp_arithmetic::Permill`: `Permill::from_parts`, which caps the parts at one
/// million, and the `*` of `Permill` with an integer, which scales the whole
/// millions exactly and rounds the scaled remainder to nearest, ties down.
#[verifier::external_body]
pub(crate) fn permill_mul(parts: u32, value: Balance) -> (share: Balance)
    ensures
        share == permill_of(parts, value),
{
    sp_arithmetic::Permill::from_parts(parts) * value
}

/// The deposit required for a proposal of `value`.
pub fn calculate_bond(config: &Config, value: Balance) -> (bond: Balance)
    ensures
        bond == bond_of(*config, value),
{
    let share = permill_mul(config.proposal_bond, value);
    let mut r: Balance = if config.proposal_bond_minimum > share { config.proposal_bond_minimum } else { share };
    if let Some(m) = config.proposal_bond_maximum {
        if m < r {
            r = m;
        }
    }
    r
}

} // verus!
