//! What holds of the pool across its operations, proved over its model.

use vstd::prelude::*;
use crate::accrual::{accrued, accrues, interest_of};
use crate::bond::{bond_of, lemma_permill_bounded, permill_of};
use crate::pool::{Approval, PoolState};
use crate::registry::lemma_without_distinct;
use crate::types::{
    AccountId, Authority, Balance, CollateralParams, Config, DisbursementParams, LoanIndex, LoanInfo,
    ProposalIndex,
};

verus! {

/// A bond is the bonded share of the value, clamped: never under the minimum
/// unless the maximum is lower, never over the maximum, and equal to the share
/// where the share lies between the two.
pub proof fn law_bond_is_clamped(config: Config, value: Balance)
    ensures
        0 <= bond_of(config, value) <= u128::MAX,
        config.proposal_bond_maximum matches Some(m) ==> bond_of(config, value) <= m,
        config.proposal_bond_maximum is None ==> bond_of(config, value) >= config.proposal_bond_minimum,
        config.proposal_bond_maximum matches Some(m) && config.proposal_bond_minimum <= m ==> bond_of(
            config,
            value,
        ) >= config.proposal_bond_minimum,
        config.proposal_bond_minimum <= permill_of(config.proposal_bond, value) && (
        config.proposal_bond_maximum matches Some(m) ==> permill_of(config.proposal_bond, value) <= m)
            ==> bond_of(config, value) == permill_of(config.proposal_bond, value),
{
    lemma_permill_bounded(config.proposal_bond, value);
}

/// A proposal is recorded under an index that no record holds, with the bond
/// that was computed for its amount, and its proposer is the caller.
pub proof fn law_proposal_records_bond(
    s: PoolState,
    max: u32,
    caller: AccountId,
    amount: Balance,
    beneficiary: AccountId,
)
    requires
        s.wf(max),
        s.proposal_count < u32::MAX,
    ensures
        !s.proposals.contains_key((s.proposal_count + 1) as ProposalIndex),
        s.proposed(caller, amount, beneficiary).wf(max),
        s.proposed(caller, amount, beneficiary).proposals[(s.proposal_count + 1) as ProposalIndex].bond
            == bond_of(s.config, amount),
        s.proposed(caller, amount, beneficiary).proposals[(s.proposal_count + 1) as ProposalIndex].proposer
            == caller,
{
    law_bond_is_clamped(s.config, amount);
    let index = (s.proposal_count + 1) as ProposalIndex;
    if s.proposals.contains_key(index) {
        assert(index <= s.proposal_count);
    }
}

/// Rejecting a proposal leaves every loan record, the registry and both
/// counters as they were: nothing is lent, and only the proposal goes.
pub proof fn law_rejection_lends_nothing(s: PoolState, max: u32, index: ProposalIndex)
    requires
        s.wf(max),
    ensures
        s.rejected(index).wf(max),
        s.rejected(index).loans == s.loans,
        s.rejected(index).ongoing_loans == s.ongoing_loans,
        s.rejected(index).loan_count == s.loan_count,
        s.rejected(index).proposal_count == s.proposal_count,
        !s.rejected(index).proposals.contains_key(index),
{
}

/// A bond is settled once: after an approval the proposal cannot be rejected,
/// and after a rejection it cannot be approved, whoever asks.
pub proof fn law_bond_settled_once(
    s: PoolState,
    max: u32,
    index: ProposalIndex,
    collateral: CollateralParams,
    now: u64,
    authority: Authority,
)
    ensures
        s.approved(index, collateral, now).rejection_error(authority, index) is Some,
        s.approved(index, collateral, now).approval_error(max, authority, index) is Some,
        s.rejected(index).approval_error(max, authority, index) is Some,
        s.rejected(index).rejection_error(authority, index) is Some,
{
}

/// The registry and the loan records hold the same indices, as many of each,
/// and never more than the bound.
pub proof fn law_registry_mirrors_records(s: PoolState, max: u32)
    requires
        s.wf(max),
    ensures
        s.loans.dom() == s.ongoing_loans.to_set(),
        s.loans.dom().finite(),
        s.loans.len() == s.ongoing_loans.len(),
        s.ongoing_loans.len() <= max,
{
    assert(s.loans.dom() =~= s.ongoing_loans.to_set());
    s.ongoing_loans.unique_seq_to_set();
    vstd::seq_lib::seq_to_set_is_finite(s.ongoing_loans);
}

/// An approval that goes through keeps the state well formed.
pub proof fn law_approval_keeps_registry(
    s: PoolState,
    max: u32,
    authority: Authority,
    index: ProposalIndex,
    collateral: CollateralParams,
    now: u64,
)
    requires
        s.wf(max),
        s.loan_count < u32::MAX,
        s.approval_error(max, authority, index) is None,
    ensures
        s.approved(index, collateral, now).wf(max),
        !s.loans.contains_key((s.loan_count + 1) as LoanIndex),
{
    let t = s.approved(index, collateral, now);
    let loan_index = (s.loan_count + 1) as LoanIndex;
    if s.loans.contains_key(loan_index) {
        assert(loan_index <= s.loan_count);
    }
    assert(!s.ongoing_loans.contains(loan_index));
    assert forall|k: LoanIndex|
        #![trigger t.loans.contains_key(k)]
        #![trigger t.ongoing_loans.contains(k)]
        t.loans.contains_key(k) <==> t.ongoing_loans.contains(k) by {
        if t.ongoing_loans.contains(k) {
            let j = choose|j: int| 0 <= j < t.ongoing_loans.len() && t.ongoing_loans[j] == k;
            if j < s.ongoing_loans.len() {
                assert(s.ongoing_loans[j] == k);
                assert(s.ongoing_loans.contains(k));
            }
        }
        if t.loans.contains_key(k) {
            if k == loan_index {
                assert(t.ongoing_loans[s.ongoing_loans.len() as int] == k);
            } else {
                assert(s.ongoing_loans.contains(k));
                let j = choose|j: int| 0 <= j < s.ongoing_loans.len() && s.ongoing_loans[j] == k;
                assert(t.ongoing_loans[j] == k);
            }
        }
    }
    assert forall|i: int, j: int|
        0 <= i < t.ongoing_loans.len() && 0 <= j < t.ongoing_loans.len() && i != j implies t.ongoing_loans[i]
        != t.ongoing_loans[j] by {
        if i < s.ongoing_loans.len() {
            assert(s.ongoing_loans.contains(s.ongoing_loans[i]));
        }
        if j < s.ongoing_loans.len() {
            assert(s.ongoing_loans.contains(s.ongoing_loans[j]));
        }
    }
}

/// Deleting a loan keeps the state well formed, and takes the index out of
/// both the records and the registry.
pub proof fn law_deletion_keeps_registry(s: PoolState, max: u32, index: LoanIndex)
    requires
        s.wf(max),
    ensures
        s.deleted(index).wf(max),
        !s.deleted(index).loans.contains_key(index),
        !s.deleted(index).ongoing_loans.contains(index),
{
    lemma_without_distinct(s.ongoing_loans, index);
}

/// A sweep keeps the state well formed: it changes no index.
pub proof fn law_sweep_keeps_registry(s: PoolState, max: u32, now: u64)
    requires
        s.wf(max),
    ensures
        s.swept(now).wf(max),
        s.swept(now).loans.dom() == s.loans.dom(),
{
    assert(s.swept(now).loans.dom() =~= s.loans.dom());
}

/// No index is handed out twice. The next index of either kind lies above
/// every index that a record sits under, and neither counter ever goes down,
/// whatever is done: so an index stays used up after its record has gone.
pub proof fn law_indices_never_reused(
    s: PoolState,
    max: u32,
    caller: AccountId,
    amount: Balance,
    beneficiary: AccountId,
    index: ProposalIndex,
    loan: LoanIndex,
    collateral: CollateralParams,
    now: u64,
)
    requires
        s.wf(max),
        s.proposal_count < u32::MAX,
        s.loan_count < u32::MAX,
    ensures
        forall|k: ProposalIndex| #[trigger] s.proposals.contains_key(k) ==> k < s.proposal_count + 1,
        forall|k: LoanIndex| #[trigger] s.loans.contains_key(k) ==> k < s.loan_count + 1,
        s.proposed(caller, amount, beneficiary).proposal_count == s.proposal_count + 1,
        s.proposed(caller, amount, beneficiary).loan_count == s.loan_count,
        s.rejected(index).proposal_count == s.proposal_count,
        s.rejected(index).loan_count == s.loan_count,
        s.approved(index, collateral, now).proposal_count == s.proposal_count,
        s.approved(index, collateral, now).loan_count == s.loan_count + 1,
        s.deleted(loan).proposal_count == s.proposal_count,
        s.deleted(loan).loan_count == s.loan_count,
        s.swept(now).proposal_count == s.proposal_count,
        s.swept(now).loan_count == s.loan_count,
{
}

/// What an approval releases is the bond that was taken when the proposal
/// was made, to the account that made it; the loan is for the proposed amount
/// and the proposed beneficiary, and starts at the time of the approval.
pub proof fn law_approval_releases_bond(
    s: PoolState,
    max: u32,
    caller: AccountId,
    amount: Balance,
    beneficiary: AccountId,
    approval: Approval,
    collateral: CollateralParams,
    disbursement: DisbursementParams,
    now: u64,
)
    requires
        s.wf(max),
        s.proposal_count < u32::MAX,
        approval.matches(
            s.proposed(caller, amount, beneficiary),
            (s.proposal_count + 1) as ProposalIndex,
            collateral,
            disbursement,
            now,
        ),
    ensures
        approval.proposer == caller,
        approval.bond == bond_of(s.config, amount),
        approval.loan.borrower == beneficiary,
        approval.loan.amount == amount,
        approval.loan.last_timestamp == now,
{
    law_bond_is_clamped(s.config, amount);
}

/// Interest is never negative.
pub proof fn law_interest_not_negative(amount: int, elapsed: int, apy: int)
    requires
        0 <= amount,
        0 <= elapsed,
        0 <= apy,
    ensures
        0 <= interest_of(amount, elapsed, apy),
{
    let product = amount * elapsed * apy;
    assert(0 <= product) by (nonlinear_arith)
        requires
            0 <= amount,
            0 <= elapsed,
            0 <= apy,
            product == amount * elapsed * apy,
    ;
}

/// Accrual never lowers what is owed, and never moves a loan's clock back;
/// a loan that accrues has its clock set to the time of the sweep.
pub proof fn law_accrual_monotonic(loan: LoanInfo, now: u64)
    ensures
        accrued(loan, now).amount >= loan.amount,
        accrued(loan, now).last_timestamp >= loan.last_timestamp,
        accrues(loan, now) ==> accrued(loan, now).last_timestamp == now && accrued(loan, now).amount
            == loan.amount + interest_of(loan.amount as int, now - loan.last_timestamp, loan.loan_apy as int),
        now == loan.last_timestamp ==> accrued(loan, now) == loan,
{
    if accrues(loan, now) {
        law_interest_not_negative(loan.amount as int, now - loan.last_timestamp, loan.loan_apy as int);
    }
    if now == loan.last_timestamp {
        let a = loan.amount as int;
        let y = loan.loan_apy as int;
        assert(a * 0 * y == 0) by (nonlinear_arith);
    }
}

/// A sweep never lowers the amount of any loan.
pub proof fn law_sweep_monotonic(s: PoolState, now: u64, index: LoanIndex)
    requires
        s.loans.contains_key(index),
    ensures
        s.swept(now).loans.contains_key(index),
        s.swept(now).loans[index] == accrued(s.loans[index], now),
        s.swept(now).loans[index].amount >= s.loans[index].amount,
{
    law_accrual_monotonic(s.loans[index], now);
}

} // verus!
