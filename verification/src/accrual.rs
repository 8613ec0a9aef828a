//! Interest on running loans.

use vstd::prelude::*;
use crate::types::{Balance, LoanInfo};

verus! {

/// Seconds in a year of 365 days, times one hundred (the rate is in percent).
pub const YEAR_PERCENT: u64 = 3_153_600_000;

/// Interest on `amount` over `elapsed` seconds at `apy` percent per year, rounded down.
pub open spec fn interest_of(amount: int, elapsed: int, apy: int) -> int {
    amount * elapsed * apy / 3_153_600_000
}

/// Whether a loan takes part in accrual at time `now`: the clock has not gone
/// back, and both the amount and the interest fit in 64 bits.
pub open spec fn accrues(loan: LoanInfo, now: u64) -> bool {
    &&& loan.last_timestamp <= now
    &&& loan.amount <= u64::MAX
    &&& interest_of(loan.amount as int, now - loan.last_timestamp, loan.loan_apy as int) <= u64::MAX
}

/// The loan after accrual at time `now`; a loan that cannot accrue stays as it is.
pub open spec fn accrued(loan: LoanInfo, now: u64) -> LoanInfo {
    if accrues(loan, now) {
        LoanInfo {
            amount: (loan.amount + interest_of(
                loan.amount as int,
                now - loan.last_timestamp,
                loan.loan_apy as int,
            )) as Balance,
            last_timestamp: now,
            ..loan
        }
    } else {
        loan
    }
}

pub fn balance_to_u64(input: Balance) -> (out: Option<u64>)
    ensures
        out == (if input <= u64::MAX { Some(input as u64) } else { None }),
{
    if input <= u64::MAX as u128 {
        Some(input as u64)
    } else {
        None
    }
}

pub fn u64_to_balance_option(input: u64) -> (out: Option<Balance>)
    ensures
        out == Some(input as Balance),
{
    Some(input as u128)
}

/// Interest in whole units, or `None` where it does not fit in 64 bits.
pub fn interest(amount: u64, elapsed: u64, apy: u64) -> (out: Option<u64>)
    ensures
        out == (if interest_of(amount as int, elapsed as int, apy as int) <= u64::MAX {
            Some(interest_of(amount as int, elapsed as int, apy as int) as u64)
        } else {
            None
        }),
{
    let a: u128 = amount as u128;
    let e: u128 = elapsed as u128;
    let y: u128 = apy as u128;
    assert(0 <= a * e <= 0xffff_ffff_ffff_ffff * 0xffff_ffff_ffff_ffff) by (nonlinear_arith)
        requires 0 <= a <= 0xffff_ffff_ffff_ffff, 0 <= e <= 0xffff_ffff_ffff_ffff;
    let ae: u128 = a * e;
    match ae.checked_mul(y) {
        Some(product) => {
            let q: u128 = product / (YEAR_PERCENT as u128);
            if q <= u64::MAX as u128 {
                Some(q as u64)
            } else {
                None
            }
        },
        None => {
            proof {
                let p = ae as int * y as int;
                assert(p > u128::MAX);
                assert(p / 3_153_600_000 > u64::MAX) by (nonlinear_arith)
                    requires p > 0xffff_ffff_ffff_ffff_ffff_ffff_ffff_ffff;
            }
            None
        },
    }
}

/// Brings one loan up to date at time `now`.
pub fn accrue(loan: LoanInfo, now: u64) -> (out: LoanInfo)
    ensures
        out == accrued(loan, now),
{
    if now < loan.last_timestamp {
        return loan;
    }
    let elapsed: u64 = now - loan.last_timestamp;
    match balance_to_u64(loan.amount) {
        None => loan,
        Some(amount) => match interest(amount, elapsed, loan.loan_apy) {
            None => loan,
            Some(i) => match u64_to_balance_option(i) {
                None => loan,
                Some(extra) => LoanInfo {
                    borrower: loan.borrower,
                    amount: loan.amount + extra,
                    collection_id: loan.collection_id,
                    item_id: loan.item_id,
                    loan_apy: loan.loan_apy,
                    last_timestamp: now,
                },
            },
        },
    }
}

} // verus!
