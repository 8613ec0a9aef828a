//! The pool itself: its model, its transitions, and the operations that make them.

use vstd::prelude::*;
use std::collections::HashMap;
use crate::accrual::{accrue, accrued};
use crate::bond::{bond_of, calculate_bond};
use crate::laws::law_approval_keeps_registry;
use crate::payload::{disbursement_payload, payload_of};
use crate::registry::{appended, lemma_without_distinct, remove, try_append, without};
use crate::types::{
    AccountId, Authority, Balance, CollateralParams, CollectionId, Config, DisbursementParams,
    Error, Event, ItemId, LoanIndex, LoanInfo, Proposal, ProposalIndex,
};

verus! {

broadcast use vstd::std_specs::hash::group_hash_axioms;

/// What a pool holds, as mathematical values.
pub struct PoolState {
    pub config: Config,
    /// Highest proposal index handed out so far.
    pub proposal_count: ProposalIndex,
    /// Highest loan index handed out so far.
    pub loan_count: LoanIndex,
    pub proposals: Map<ProposalIndex, Proposal>,
    pub loans: Map<LoanIndex, LoanInfo>,
    pub ongoing_loans: Seq<LoanIndex>,
}

impl PoolState {
    /// Every record sits under an index that was handed out; the registry
    /// lists exactly the indices of the loan records, each once, and holds at
    /// most `max` of them.
    pub open spec fn wf(self, max: u32) -> bool {
        &&& forall|k: ProposalIndex| #[trigger]
            self.proposals.contains_key(k) ==> 0 < k <= self.proposal_count
        &&& forall|k: LoanIndex| #[trigger] self.loans.contains_key(k) ==> 0 < k <= self.loan_count
        &&& forall|k: LoanIndex|
            #![trigger self.loans.contains_key(k)]
            #![trigger self.ongoing_loans.contains(k)]
            self.loans.contains_key(k) <==> self.ongoing_loans.contains(k)
        &&& self.ongoing_loans.no_duplicates()
        &&& self.ongoing_loans.len() <= max
    }

    pub open spec fn empty(config: Config) -> PoolState {
        PoolState {
            config,
            proposal_count: 0,
            loan_count: 0,
            proposals: Map::empty(),
            loans: Map::empty(),
            ongoing_loans: Seq::empty(),
        }
    }

    /// The proposal that `propose` records.
    pub open spec fn new_proposal(self, caller: AccountId, amount: Balance, beneficiary: AccountId) -> Proposal {
        Proposal { proposer: caller, amount, beneficiary, bond: bond_of(self.config, amount) as Balance }
    }

    /// The state after a proposal was recorded under the next index.
    pub open spec fn proposed(self, caller: AccountId, amount: Balance, beneficiary: AccountId) -> PoolState {
        let index = (self.proposal_count + 1) as ProposalIndex;
        PoolState {
            proposal_count: index,
            proposals: self.proposals.insert(index, self.new_proposal(caller, amount, beneficiary)),
            ..self
        }
    }

    /// Why a rejection by `authority` of proposal `index` fails, if it does.
    pub open spec fn rejection_error(self, authority: Authority, index: ProposalIndex) -> Option<Error> {
        if !authority.may_reject {
            Some(Error::InsufficientPermission)
        } else if !self.proposals.contains_key(index) {
            Some(Error::InvalidIndex)
        } else {
            None
        }
    }

    /// The state after proposal `index` was taken out.
    pub open spec fn rejected(self, index: ProposalIndex) -> PoolState {
        PoolState { proposals: self.proposals.remove(index), ..self }
    }

    /// Why an approval by `authority` of proposal `index` fails, if it does.
    pub open spec fn approval_error(self, max: u32, authority: Authority, index: ProposalIndex) -> Option<Error> {
        if !authority.may_approve {
            Some(Error::InsufficientPermission)
        } else if !self.proposals.contains_key(index) {
            Some(Error::InvalidIndex)
        } else if self.ongoing_loans.len() >= max {
            Some(Error::TooManyLoans)
        } else {
            None
        }
    }

    /// The loan that an approval of proposal `index` at time `now` creates.
    pub open spec fn new_loan(self, index: ProposalIndex, collateral: CollateralParams, now: u64) -> LoanInfo {
        LoanInfo {
            borrower: self.proposals[index].beneficiary,
            amount: self.proposals[index].amount,
            collection_id: collateral.collection_id,
            item_id: collateral.item_id,
            loan_apy: collateral.loan_apy,
            last_timestamp: now,
        }
    }

    /// The state after proposal `index` became a loan under the next loan index.
    pub open spec fn approved(self, index: ProposalIndex, collateral: CollateralParams, now: u64) -> PoolState {
        let loan_index = (self.loan_count + 1) as LoanIndex;
        PoolState {
            loan_count: loan_index,
            proposals: self.proposals.remove(index),
            loans: self.loans.insert(loan_index, self.new_loan(index, collateral, now)),
            ongoing_loans: self.ongoing_loans.push(loan_index),
            ..self
        }
    }

    /// Why a deletion by `authority` of loan `index` fails, if it does.
    pub open spec fn deletion_error(self, authority: Authority, index: LoanIndex) -> Option<Error> {
        if !authority.is_loan_contract {
            Some(Error::InsufficientPermission)
        } else if !self.loans.contains_key(index) {
            Some(Error::InvalidIndex)
        } else {
            None
        }
    }

    /// The state after loan `index` was taken out of the records and the registry.
    pub open spec fn deleted(self, index: LoanIndex) -> PoolState {
        PoolState {
            loans: self.loans.remove(index),
            ongoing_loans: without(self.ongoing_loans, index),
            ..self
        }
    }

    /// The state after every loan was brought up to date at time `now`.
    pub open spec fn swept(self, now: u64) -> PoolState {
        PoolState { loans: self.loans.map_values(|loan: LoanInfo| accrued(loan, now)), ..self }
    }
}

/// The account derived from a pool identifier: the tag `modl`, the
/// identifier, and zeros up to thirty-two bytes.
pub open spec fn pool_account(pallet_id: [u8; 8]) -> Seq<u8> {
    seq![0x6du8, 0x6fu8, 0x64u8, 0x6cu8] + pallet_id@ + Seq::new(20, |i: int| 0u8)
}

/// The bond to take from the proposer of a rejected proposal.
#[derive(Clone, Copy, Debug, PartialEq, Eq)]
pub struct Slash {
    pub who: AccountId,
    pub amount: Balance,
    pub event: Event,
}

/// The collateral item to destroy for a deleted loan.
#[derive(Clone, Copy, Debug, PartialEq, Eq)]
pub struct Burn {
    pub collection_id: CollectionId,
    pub item_id: ItemId,
}

/// What an approval asks of the ledger, the collateral registry and the loan
/// contract, and what it records.
#[derive(Clone, Debug, PartialEq, Eq)]
pub struct Approval {
    pub event: Event,
    pub loan_index: LoanIndex,
    pub loan: LoanInfo,
    /// Whose bond is released, and how much.
    pub proposer: AccountId,
    pub bond: Balance,
    /// Owner and admin of the new collection.
    pub collection_owner: AccountId,
    /// Owner of the minted item, and the contract that is invoked.
    pub contract: AccountId,
    pub value_funds: Balance,
    pub payload: Vec<u8>,
}

impl Approval {
    /// Whether this is the approval of proposal `index` in state `s`.
    pub open spec fn matches(
        self,
        s: PoolState,
        index: ProposalIndex,
        collateral: CollateralParams,
        disbursement: DisbursementParams,
        now: u64,
    ) -> bool {
        &&& self.event == Event::Approved { proposal_index: index }
        &&& self.loan_index == s.loan_count + 1
        &&& self.loan == s.new_loan(index, collateral, now)
        &&& self.proposer == s.proposals[index].proposer
        &&& self.bond == s.proposals[index].bond
        &&& self.collection_owner == disbursement.admin
        &&& self.contract == disbursement.dest
        &&& self.value_funds == disbursement.value_funds
        &&& self.payload@ == payload_of(
            disbursement.admin,
            s.proposals[index].beneficiary,
            collateral.collection_id,
            collateral.item_id,
            collateral.collateral_price,
            s.proposals[index].amount,
        )
    }
}

/// The steps of an approval that a collaborator can fail, in the order in
/// which they are taken once the bond has been released.
#[derive(Clone, Copy, Debug, PartialEq, Eq)]
pub enum Step {
    CreateCollection,
    Mint,
    Disburse,
}

/// A bond to put back under reservation.
#[derive(Clone, Copy, Debug, PartialEq, Eq)]
pub struct Reserve {
    pub who: AccountId,
    pub amount: Balance,
}

/// What has to be undone after a step of an approval has failed.
#[derive(Clone, Copy, Debug, PartialEq, Eq)]
pub struct Undo {
    /// The collateral item to destroy, where one was minted.
    pub burn: Option<Burn>,
    /// The bond to reserve again.
    pub reserve: Reserve,
}

impl Approval {
    /// What undoes the steps taken before `failed`: the released bond is
    /// reserved again, and the item is destroyed if it had been minted, which
    /// is so only where the contract refused. A collection that was made
    /// stays, empty: the registry offers no way to take it back.
    pub open spec fn undo_of(self, failed: Step) -> Undo {
        Undo {
            burn: if failed == Step::Disburse {
                Some(Burn { collection_id: self.loan.collection_id, item_id: self.loan.item_id })
            } else {
                None
            },
            reserve: Reserve { who: self.proposer, amount: self.bond },
        }
    }

    /// What to undo after the step `failed` did not go through. The pool
    /// itself has nothing to undo: it records an approval only once every
    /// step has succeeded.
    pub fn undo(&self, failed: Step) -> (u: Undo)
        ensures
            u == self.undo_of(failed),
    {
        let burn = match failed {
            Step::Disburse => Some(Burn { collection_id: self.loan.collection_id, item_id: self.loan.item_id }),
            Step::CreateCollection => None,
            Step::Mint => None,
        };
        Undo { burn, reserve: Reserve { who: self.proposer, amount: self.bond } }
    }
}

/// The loan pool: pending proposals, funded loans and the registry of the
/// loans that are running, of which there are never more than `MAX`.
pub struct Pallet<const MAX: u32> {
    config: Config,
    proposal_count: ProposalIndex,
    loan_count: LoanIndex,
    proposals: HashMap<ProposalIndex, Proposal>,
    loans: HashMap<LoanIndex, LoanInfo>,
    ongoing_loans: Vec<LoanIndex>,
}

impl<const MAX: u32> View for Pallet<MAX> {
    type V = PoolState;

    closed spec fn view(&self) -> PoolState {
        PoolState {
            config: self.config,
            proposal_count: self.proposal_count,
            loan_count: self.loan_count,
            proposals: self.proposals@,
            loans: self.loans@,
            ongoing_loans: self.ongoing_loans@,
        }
    }
}

impl<const MAX: u32> Pallet<MAX> {
    pub open spec fn wf(&self) -> bool {
        self@.wf(MAX)
    }

    /// A pool with no proposal and no loan.
    pub fn new(config: Config) -> (pool: Self)
        ensures
            pool.wf(),
            pool@ == PoolState::empty(config),
    {
        Pallet {
            config,
            proposal_count: 0,
            loan_count: 0,
            proposals: HashMap::new(),
            loans: HashMap::new(),
            ongoing_loans: Vec::new(),
        }
    }

    /// The highest proposal index handed out so far.
    pub fn proposal_count(&self) -> (n: ProposalIndex)
        ensures
            n == self@.proposal_count,
    {
        self.proposal_count
    }

    /// The highest loan index handed out so far.
    pub fn loan_count(&self) -> (n: LoanIndex)
        ensures
            n == self@.loan_count,
    {
        self.loan_count
    }

    /// The indices of the running loans, oldest first.
    pub fn ongoing_loans(&self) -> (list: Vec<LoanIndex>)
        ensures
            list@ == self@.ongoing_loans,
    {
        self.ongoing_loans.clone()
    }

    /// The pending proposal under `index`.
    pub fn proposals(&self, index: ProposalIndex) -> (found: Option<Proposal>)
        ensures
            found == (if self@.proposals.contains_key(index) {
                Some(self@.proposals[index])
            } else {
                None
            }),
    {
        match self.proposals.get(&index) {
            Some(p) => Some(*p),
            None => None,
        }
    }

    /// The loan under `index`.
    pub fn loans(&self, index: LoanIndex) -> (found: Option<LoanInfo>)
        ensures
            found == (if self@.loans.contains_key(index) {
                Some(self@.loans[index])
            } else {
                None
            }),
    {
        match self.loans.get(&index) {
            Some(l) => Some(*l),
            None => None,
        }
    }

    /// The pool's own account, the source of the funds it lends.
    pub fn account_id(&self) -> (account: AccountId)
        ensures
            account@ == pool_account(self@.config.pallet_id),
    {
        let id = self.config.pallet_id;
        let account: AccountId = [
            0x6d, 0x6f, 0x64, 0x6c, id[0], id[1], id[2], id[3], id[4], id[5], id[6], id[7], 0, 0, 0, 0,
            0, 0, 0, 0, 0, 0, 0, 0, 0, 0, 0, 0, 0, 0, 0, 0,
        ];
        assert(account@ =~= pool_account(id));
        account
    }

    /// The deposit required for a proposal of `value`.
    pub fn calculate_bond(&self, value: Balance) -> (bond: Balance)
        ensures
            bond == bond_of(self@.config, value),
    {
        calculate_bond(&self.config, value)
    }

    /// Records a proposal by `caller` to lend `amount` to `beneficiary`.
    /// `reserved` says whether the ledger has reserved the bond, which is
    /// `calculate_bond(amount)`, on the caller's account: without the
    /// reservation nothing is recorded.
    pub fn propose(&mut self, caller: AccountId, amount: Balance, beneficiary: AccountId, reserved: bool) -> (r:
        Result<Event, Error>)
        requires
            old(self).wf(),
            old(self)@.proposal_count < u32::MAX,
        ensures
            final(self).wf(),
            !reserved ==> r == Err::<Event, Error>(Error::InsufficientProposersBalance) && final(self)@ == old(
                self,
            )@,
            reserved ==> r == Ok::<Event, Error>(
                Event::Proposed { proposal_index: (old(self)@.proposal_count + 1) as ProposalIndex },
            ) && final(self)@ == old(self)@.proposed(caller, amount, beneficiary),
    {
        if !reserved {
            return Err(Error::InsufficientProposersBalance);
        }
        let proposal_index: ProposalIndex = self.proposal_count + 1;
        let bond = calculate_bond(&self.config, amount);
        let proposal = Proposal { proposer: caller, amount, beneficiary, bond };
        self.proposals.insert(proposal_index, proposal);
        self.proposal_count = proposal_index;
        Ok(Event::Proposed { proposal_index })
    }

    /// Takes a proposal out and says whose bond is to be slashed, and by how
    /// much. Nothing goes to the beneficiary.
    pub fn reject_proposal(&mut self, authority: Authority, proposal_index: ProposalIndex) -> (r: Result<
        Slash,
        Error,
    >)
        requires
            old(self).wf(),
        ensures
            final(self).wf(),
            match old(self)@.rejection_error(authority, proposal_index) {
                Some(e) => r == Err::<Slash, Error>(e) && final(self)@ == old(self)@,
                None => r == Ok::<Slash, Error>(
                    Slash {
                        who: old(self)@.proposals[proposal_index].proposer,
                        amount: old(self)@.proposals[proposal_index].bond,
                        event: Event::Rejected { proposal_index },
                    },
                ) && final(self)@ == old(self)@.rejected(proposal_index),
            },
    {
        if !authority.may_reject {
            return Err(Error::InsufficientPermission);
        }
        match self.proposals.remove(&proposal_index) {
            None => {
                assert(self.proposals@ =~= old(self).proposals@);
                Err(Error::InvalidIndex)
            },
            Some(proposal) => Ok(
                Slash {
                    who: proposal.proposer,
                    amount: proposal.bond,
                    event: Event::Rejected { proposal_index },
                },
            ),
        }
    }

    fn build_approval(
        &self,
        proposal: Proposal,
        proposal_index: ProposalIndex,
        collateral: CollateralParams,
        disbursement: DisbursementParams,
        now: u64,
    ) -> (a: Approval)
        requires
            self@.loan_count < u32::MAX,
            self@.proposals.contains_key(proposal_index),
            self@.proposals[proposal_index] == proposal,
        ensures
            a.matches(self@, proposal_index, collateral, disbursement, now),
    {
        let loan = LoanInfo {
            borrower: proposal.beneficiary,
            amount: proposal.amount,
            collection_id: collateral.collection_id,
            item_id: collateral.item_id,
            loan_apy: collateral.loan_apy,
            last_timestamp: now,
        };
        let payload = disbursement_payload(
            &disbursement.admin,
            &proposal.beneficiary,
            collateral.collection_id,
            collateral.item_id,
            collateral.collateral_price,
            proposal.amount,
        );
        Approval {
            event: Event::Approved { proposal_index },
            loan_index: self.loan_count + 1,
            loan,
            proposer: proposal.proposer,
            bond: proposal.bond,
            collection_owner: disbursement.admin,
            contract: disbursement.dest,
            value_funds: disbursement.value_funds,
            payload,
        }
    }

    /// What approving proposal `proposal_index` at time `now` would ask of
    /// the ledger, the collateral registry and the loan contract. Nothing is
    /// changed: a full registry is found out here, before anything is minted
    /// or paid.
    pub fn plan_approval(
        &self,
        authority: Authority,
        proposal_index: ProposalIndex,
        collateral: CollateralParams,
        disbursement: DisbursementParams,
        now: u64,
    ) -> (r: Result<Approval, Error>)
        requires
            self@.loan_count < u32::MAX,
        ensures
            match self@.approval_error(MAX, authority, proposal_index) {
                Some(e) => r == Err::<Approval, Error>(e),
                None => r is Ok && r->Ok_0.matches(self@, proposal_index, collateral, disbursement, now),
            },
    {
        if !authority.may_approve {
            return Err(Error::InsufficientPermission);
        }
        let proposal = match self.proposals.get(&proposal_index) {
            Some(p) => *p,
            None => {
                return Err(Error::InvalidIndex);
            },
        };
        if self.ongoing_loans.len() >= MAX as usize {
            return Err(Error::TooManyLoans);
        }
        Ok(self.build_approval(proposal, proposal_index, collateral, disbursement, now))
    }

    /// Turns proposal `proposal_index` into a loan that starts at time `now`:
    /// the proposal leaves, the loan is recorded under the next loan index
    /// and entered in the registry. The answer says whose bond is to be
    /// released and what is to be minted and sent. On an error nothing
    /// changes.
    pub fn approve_proposal(
        &mut self,
        authority: Authority,
        proposal_index: ProposalIndex,
        collateral: CollateralParams,
        disbursement: DisbursementParams,
        now: u64,
    ) -> (r: Result<Approval, Error>)
        requires
            old(self).wf(),
            old(self)@.loan_count < u32::MAX,
        ensures
            final(self).wf(),
            match old(self)@.approval_error(MAX, authority, proposal_index) {
                Some(e) => r == Err::<Approval, Error>(e) && final(self)@ == old(self)@,
                None => r is Ok && r->Ok_0.matches(old(self)@, proposal_index, collateral, disbursement, now)
                    && final(self)@ == old(self)@.approved(proposal_index, collateral, now),
            },
    {
        if !authority.may_approve {
            return Err(Error::InsufficientPermission);
        }
        let proposal = match self.proposals.get(&proposal_index) {
            Some(p) => *p,
            None => {
                return Err(Error::InvalidIndex);
            },
        };
        let approval = self.build_approval(proposal, proposal_index, collateral, disbursement, now);
        let loan_index = approval.loan_index;
        if !try_append::<MAX>(&mut self.ongoing_loans, loan_index) {
            return Err(Error::TooManyLoans);
        }
        self.loans.insert(loan_index, approval.loan);
        self.proposals.remove(&proposal_index);
        self.loan_count = loan_index;
        proof {
            law_approval_keeps_registry(old(self)@, MAX, authority, proposal_index, collateral, now);
        }
        Ok(approval)
    }

    /// The collateral item that deleting loan `loan_id` would destroy.
    /// Nothing is changed.
    pub fn plan_deletion(&self, authority: Authority, loan_id: LoanIndex) -> (r: Result<Burn, Error>)
        ensures
            match self@.deletion_error(authority, loan_id) {
                Some(e) => r == Err::<Burn, Error>(e),
                None => r == Ok::<Burn, Error>(
                    Burn {
                        collection_id: self@.loans[loan_id].collection_id,
                        item_id: self@.loans[loan_id].item_id,
                    },
                ),
            },
    {
        if !authority.is_loan_contract {
            return Err(Error::InsufficientPermission);
        }
        match self.loans.get(&loan_id) {
            None => Err(Error::InvalidIndex),
            Some(loan) => Ok(Burn { collection_id: loan.collection_id, item_id: loan.item_id }),
        }
    }

    /// Takes a repaid loan out of the records and the registry and says which
    /// collateral item is to be destroyed. No funds move.
    pub fn delete_loan(&mut self, authority: Authority, loan_id: LoanIndex) -> (r: Result<Burn, Error>)
        requires
            old(self).wf(),
        ensures
            final(self).wf(),
            match old(self)@.deletion_error(authority, loan_id) {
                Some(e) => r == Err::<Burn, Error>(e) && final(self)@ == old(self)@,
                None => r == Ok::<Burn, Error>(
                    Burn {
                        collection_id: old(self)@.loans[loan_id].collection_id,
                        item_id: old(self)@.loans[loan_id].item_id,
                    },
                ) && final(self)@ == old(self)@.deleted(loan_id),
            },
    {
        if !authority.is_loan_contract {
            return Err(Error::InsufficientPermission);
        }
        match self.loans.remove(&loan_id) {
            None => {
                assert(self.loans@ =~= old(self).loans@);
                Err(Error::InvalidIndex)
            },
            Some(loan) => {
                proof {
                    lemma_without_distinct(self.ongoing_loans@, loan_id);
                }
                remove::<MAX>(&mut self.ongoing_loans, loan_id);
                Ok(Burn { collection_id: loan.collection_id, item_id: loan.item_id })
            },
        }
    }

    /// Brings every running loan up to date at time `now`: interest for the
    /// time since its last update is added to the amount. A loan whose
    /// amount or interest does not fit, or whose last update lies after `now`,
    /// is passed over.
    pub fn charge_apy(&mut self, now: u64) -> (r: Result<(), Error>)
        requires
            old(self).wf(),
        ensures
            final(self).wf(),
            r is Ok,
            final(self)@ == old(self)@.swept(now),
    {
        let mut index: usize = 0;
        while index < self.ongoing_loans.len()
            invariant
                index <= self.ongoing_loans@.len(),
                old(self).wf(),
                self.config == old(self).config,
                self.proposal_count == old(self).proposal_count,
                self.loan_count == old(self).loan_count,
                self.proposals@ == old(self).proposals@,
                self.ongoing_loans@ == old(self).ongoing_loans@,
                self.loans@.dom() =~= old(self).loans@.dom(),
                forall|j: int|
                    0 <= j < index ==> self.loans@[#[trigger] self.ongoing_loans@[j]] == accrued(
                        old(self).loans@[self.ongoing_loans@[j]],
                        now,
                    ),
                forall|j: int|
                    index <= j < self.ongoing_loans@.len() ==> self.loans@[#[trigger] self.ongoing_loans@[j]]
                        == old(self).loans@[self.ongoing_loans@[j]],
            decreases self.ongoing_loans@.len() - index,
        {
            let loan_index = self.ongoing_loans[index];
            assert(self.ongoing_loans@.contains(loan_index));
            assert(old(self).loans@.contains_key(loan_index));
            let current: Option<LoanInfo> = match self.loans.get(&loan_index) {
                Some(l) => Some(*l),
                None => None,
            };
            if let Some(loan) = current {
                let updated = accrue(loan, now);
                self.loans.insert(loan_index, updated);
            }
            index += 1;
        }
        proof {
            let before = old(self)@;
            let target = before.loans.map_values(|loan: LoanInfo| accrued(loan, now));
            assert forall|k: LoanIndex| self.loans@.contains_key(k) implies #[trigger] self.loans@[k] == target[k] by {
                assert(before.loans.contains_key(k));
                assert(before.ongoing_loans.contains(k));
                let j = choose|j: int| 0 <= j < before.ongoing_loans.len() && before.ongoing_loans[j] == k;
                assert(self.ongoing_loans@[j] == k);
            }
            assert(self.loans@ =~= target);
        }
        Ok(())
    }
}

} // verus!
