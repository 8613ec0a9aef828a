use community_loan_pool::accrual::{accrue, balance_to_u64, interest, u64_to_balance_option};
use community_loan_pool::bond::calculate_bond;
use community_loan_pool::payload::disbursement_payload;
use community_loan_pool::registry::{position, remove, try_append};
use community_loan_pool::{
    AccountId, Authority, Balance, Burn, CollateralParams, Config, DisbursementParams, Error,
    Event, GenesisConfig, LoanInfo, Pallet, Proposal, Reserve, Slash, Step, Undo,
};
use std::collections::HashMap;

const ALICE: AccountId = [1u8; 32];
const BOB: AccountId = [2u8; 32];
const ADMIN: AccountId = [7u8; 32];
const CONTRACT: AccountId = [9u8; 32];

/// A ledger that keeps a free and a reserved balance per account.
struct Ledger {
    accounts: HashMap<AccountId, (Balance, Balance)>,
    sink: Balance,
}

impl Ledger {
    fn with(who: AccountId, free: Balance) -> Ledger {
        let mut accounts = HashMap::new();
        accounts.insert(who, (free, 0));
        Ledger { accounts, sink: 0 }
    }

    fn reserved(&self, who: &AccountId) -> Balance {
        self.accounts.get(who).map(|a| a.1).unwrap_or(0)
    }

    fn free(&self, who: &AccountId) -> Balance {
        self.accounts.get(who).map(|a| a.0).unwrap_or(0)
    }

    fn reserve(&mut self, who: &AccountId, amount: Balance) -> bool {
        let entry = self.accounts.entry(*who).or_insert((0, 0));
        if entry.0 < amount {
            return false;
        }
        entry.0 -= amount;
        entry.1 += amount;
        true
    }

    fn unreserve(&mut self, who: &AccountId, amount: Balance) -> Balance {
        let entry = self.accounts.entry(*who).or_insert((0, 0));
        let moved = amount.min(entry.1);
        entry.1 -= moved;
        entry.0 += moved;
        amount - moved
    }

    fn slash_reserved(&mut self, who: &AccountId, amount: Balance) -> Balance {
        let entry = self.accounts.entry(*who).or_insert((0, 0));
        let taken = amount.min(entry.1);
        entry.1 -= taken;
        self.sink += taken;
        amount - taken
    }
}

fn config() -> Config {
    Config {
        proposal_bond: 50_000,
        proposal_bond_minimum: 10,
        proposal_bond_maximum: None,
        pallet_id: *b"py/loana",
    }
}

fn approver() -> Authority {
    Authority { may_reject: true, may_approve: true, is_loan_contract: false }
}

fn loan_contract() -> Authority {
    Authority { may_reject: false, may_approve: false, is_loan_contract: true }
}

fn nobody() -> Authority {
    Authority { may_reject: false, may_approve: false, is_loan_contract: false }
}

fn collateral(collection_id: u32, item_id: u32) -> CollateralParams {
    CollateralParams { collection_id, item_id, collateral_price: 2_000, loan_apy: 10 }
}

fn disbursement() -> DisbursementParams {
    DisbursementParams {
        dest: CONTRACT,
        admin: ADMIN,
        value_funds: 1_000,
        storage_deposit_limit: None,
        gas_ref_time: 5_000_000_000,
        gas_proof_size: 1_000_000,
    }
}

fn propose<const MAX: u32>(pool: &mut Pallet<MAX>, ledger: &mut Ledger, who: AccountId, amount: Balance) -> Result<Event, Error> {
    let bond = pool.calculate_bond(amount);
    let reserved = ledger.reserve(&who, bond);
    pool.propose(who, amount, BOB, reserved)
}

#[test]
fn propose_reserves_five_percent() {
    let mut pool = Pallet::<4>::new(config());
    let mut ledger = Ledger::with(ALICE, 10_000);
    assert_eq!(pool.calculate_bond(1000), 50);
    let before = ledger.reserved(&ALICE);
    assert_eq!(propose(&mut pool, &mut ledger, ALICE, 1000), Ok(Event::Proposed { proposal_index: 1 }));
    assert_eq!(ledger.reserved(&ALICE), before + 50);
    assert_eq!(pool.proposal_count(), 1);
    assert_eq!(
        pool.proposals(1),
        Some(Proposal { proposer: ALICE, amount: 1000, beneficiary: BOB, bond: 50 })
    );
    assert_eq!(pool.proposals(2), None);
}

#[test]
fn propose_without_funds_records_nothing() {
    let mut pool = Pallet::<4>::new(config());
    let mut ledger = Ledger::with(ALICE, 20);
    assert_eq!(propose(&mut pool, &mut ledger, ALICE, 1000), Err(Error::InsufficientProposersBalance));
    assert_eq!(pool.proposal_count(), 0);
    assert_eq!(pool.proposals(1), None);
    assert_eq!(ledger.reserved(&ALICE), 0);
    assert_eq!(ledger.free(&ALICE), 20);
}

#[test]
fn reject_slashes_the_bond_and_lends_nothing() {
    let mut pool = Pallet::<4>::new(config());
    let mut ledger = Ledger::with(ALICE, 10_000);
    propose(&mut pool, &mut ledger, ALICE, 1000).unwrap();
    let reserved = ledger.reserved(&ALICE);
    let slash = pool.reject_proposal(approver(), 1).unwrap();
    assert_eq!(slash, Slash { who: ALICE, amount: 50, event: Event::Rejected { proposal_index: 1 } });
    assert_eq!(ledger.slash_reserved(&slash.who, slash.amount), 0);
    assert_eq!(ledger.reserved(&ALICE), reserved - 50);
    assert_eq!(ledger.free(&ALICE), 9_950);
    assert_eq!(ledger.free(&BOB), 0);
    assert_eq!(ledger.sink, 50);
    assert_eq!(pool.loan_count(), 0);
    assert_eq!(pool.loans(1), None);
    assert_eq!(pool.ongoing_loans(), Vec::<u32>::new());
    assert_eq!(pool.proposals(1), None);
    assert_eq!(pool.reject_proposal(approver(), 1), Err(Error::InvalidIndex));
}

#[test]
fn reject_needs_authority_and_a_proposal() {
    let mut pool = Pallet::<4>::new(config());
    let mut ledger = Ledger::with(ALICE, 10_000);
    propose(&mut pool, &mut ledger, ALICE, 1000).unwrap();
    assert_eq!(pool.reject_proposal(nobody(), 1), Err(Error::InsufficientPermission));
    assert_eq!(pool.reject_proposal(approver(), 7), Err(Error::InvalidIndex));
    assert!(pool.proposals(1).is_some());
}

#[test]
fn approve_at_capacity_zero_changes_nothing() {
    let mut pool = Pallet::<0>::new(config());
    let mut ledger = Ledger::with(ALICE, 10_000);
    propose(&mut pool, &mut ledger, ALICE, 1000).unwrap();
    assert_eq!(
        pool.plan_approval(approver(), 1, collateral(3, 4), disbursement(), 100),
        Err(Error::TooManyLoans)
    );
    assert_eq!(
        pool.approve_proposal(approver(), 1, collateral(3, 4), disbursement(), 100),
        Err(Error::TooManyLoans)
    );
    assert_eq!(
        pool.proposals(1),
        Some(Proposal { proposer: ALICE, amount: 1000, beneficiary: BOB, bond: 50 })
    );
    assert_eq!(pool.loan_count(), 0);
    assert_eq!(pool.loans(1), None);
    assert_eq!(pool.ongoing_loans(), Vec::<u32>::new());
    assert_eq!(ledger.reserved(&ALICE), 50);
}

#[test]
fn approve_creates_the_loan_and_the_payload() {
    let mut pool = Pallet::<4>::new(config());
    let mut ledger = Ledger::with(ALICE, 10_000);
    propose(&mut pool, &mut ledger, ALICE, 1000).unwrap();
    let params = CollateralParams {
        collection_id: 0x0102_0304,
        item_id: 5,
        collateral_price: 2_000,
        loan_apy: 10,
    };
    let plan = pool.plan_approval(approver(), 1, params, disbursement(), 1_700_000_000).unwrap();
    let approval = pool.approve_proposal(approver(), 1, params, disbursement(), 1_700_000_000).unwrap();
    assert_eq!(plan, approval);
    assert_eq!(approval.event, Event::Approved { proposal_index: 1 });
    assert_eq!(approval.loan_index, 1);
    assert_eq!(approval.proposer, ALICE);
    assert_eq!(approval.bond, 50);
    assert_eq!(approval.collection_owner, ADMIN);
    assert_eq!(approval.contract, CONTRACT);
    assert_eq!(approval.value_funds, 1_000);
    assert_eq!(ledger.unreserve(&approval.proposer, approval.bond), 0);
    assert_eq!(ledger.reserved(&ALICE), 0);
    assert_eq!(ledger.free(&ALICE), 10_000);
    assert_eq!(ledger.sink, 0);

    let loan = LoanInfo {
        borrower: BOB,
        amount: 1000,
        collection_id: 0x0102_0304,
        item_id: 5,
        loan_apy: 10,
        last_timestamp: 1_700_000_000,
    };
    assert_eq!(approval.loan, loan);
    assert_eq!(pool.loans(1), Some(loan));
    assert_eq!(pool.proposals(1), None);
    assert_eq!(pool.loan_count(), 1);
    assert_eq!(pool.ongoing_loans(), vec![1]);

    let mut expected: Vec<u8> = vec![0x0E, 0xA6, 0xBD, 0x42];
    expected.extend_from_slice(&ADMIN);
    expected.extend_from_slice(&BOB);
    expected.extend_from_slice(&[4, 3, 2, 1]);
    expected.extend_from_slice(&[5, 0, 0, 0]);
    expected.extend_from_slice(&2_000u128.to_le_bytes());
    expected.extend_from_slice(&1_000u128.to_le_bytes());
    assert_eq!(expected.len(), 108);
    assert_eq!(approval.payload, expected);

    assert_eq!(pool.reject_proposal(approver(), 1), Err(Error::InvalidIndex));
    assert_eq!(
        pool.approve_proposal(approver(), 1, params, disbursement(), 1_700_000_001),
        Err(Error::InvalidIndex)
    );
}

#[test]
fn approve_needs_authority_and_a_proposal() {
    let mut pool = Pallet::<4>::new(config());
    let mut ledger = Ledger::with(ALICE, 10_000);
    propose(&mut pool, &mut ledger, ALICE, 1000).unwrap();
    assert_eq!(
        pool.approve_proposal(nobody(), 1, collateral(1, 1), disbursement(), 5),
        Err(Error::InsufficientPermission)
    );
    assert_eq!(
        pool.approve_proposal(approver(), 2, collateral(1, 1), disbursement(), 5),
        Err(Error::InvalidIndex)
    );
    assert!(pool.proposals(1).is_some());
    assert_eq!(pool.loan_count(), 0);
}

#[test]
fn registry_fills_up_to_its_bound() {
    let mut pool = Pallet::<2>::new(config());
    let mut ledger = Ledger::with(ALICE, 10_000);
    for _ in 0..3 {
        propose(&mut pool, &mut ledger, ALICE, 1000).unwrap();
    }
    assert!(pool.approve_proposal(approver(), 1, collateral(1, 1), disbursement(), 5).is_ok());
    assert!(pool.approve_proposal(approver(), 2, collateral(2, 1), disbursement(), 6).is_ok());
    assert_eq!(
        pool.approve_proposal(approver(), 3, collateral(3, 1), disbursement(), 7),
        Err(Error::TooManyLoans)
    );
    assert_eq!(pool.ongoing_loans(), vec![1, 2]);
    assert_eq!(pool.loan_count(), 2);
    assert!(pool.proposals(3).is_some());
    assert_eq!(pool.delete_loan(loan_contract(), 1), Ok(Burn { collection_id: 1, item_id: 1 }));
    let third = pool.approve_proposal(approver(), 3, collateral(3, 1), disbursement(), 7).unwrap();
    assert_eq!(third.loan_index, 3);
    assert_eq!(pool.ongoing_loans(), vec![2, 3]);
    assert_eq!(pool.loans(1), None);
    assert!(pool.loans(2).is_some());
    assert!(pool.loans(3).is_some());
}

#[test]
fn delete_unknown_loan_changes_nothing() {
    let mut pool = Pallet::<4>::new(config());
    let mut ledger = Ledger::with(ALICE, 10_000);
    propose(&mut pool, &mut ledger, ALICE, 1000).unwrap();
    pool.approve_proposal(approver(), 1, collateral(3, 4), disbursement(), 100).unwrap();
    assert_eq!(pool.plan_deletion(loan_contract(), 9), Err(Error::InvalidIndex));
    assert_eq!(pool.delete_loan(loan_contract(), 9), Err(Error::InvalidIndex));
    assert_eq!(pool.delete_loan(nobody(), 1), Err(Error::InsufficientPermission));
    assert_eq!(pool.ongoing_loans(), vec![1]);
    assert!(pool.loans(1).is_some());
    assert_eq!(pool.loan_count(), 1);
}

#[test]
fn delete_loan_burns_and_frees_the_slot() {
    let mut pool = Pallet::<4>::new(config());
    let mut ledger = Ledger::with(ALICE, 10_000);
    propose(&mut pool, &mut ledger, ALICE, 1000).unwrap();
    pool.approve_proposal(approver(), 1, collateral(3, 4), disbursement(), 100).unwrap();
    assert_eq!(pool.plan_deletion(loan_contract(), 1), Ok(Burn { collection_id: 3, item_id: 4 }));
    assert_eq!(pool.delete_loan(loan_contract(), 1), Ok(Burn { collection_id: 3, item_id: 4 }));
    assert_eq!(pool.loans(1), None);
    assert_eq!(pool.ongoing_loans(), Vec::<u32>::new());
    assert_eq!(pool.loan_count(), 1);
    assert_eq!(pool.delete_loan(loan_contract(), 1), Err(Error::InvalidIndex));
}

#[test]
fn indices_are_not_handed_out_twice() {
    let mut pool = Pallet::<4>::new(config());
    let mut ledger = Ledger::with(ALICE, 10_000);
    propose(&mut pool, &mut ledger, ALICE, 1000).unwrap();
    pool.reject_proposal(approver(), 1).unwrap();
    assert_eq!(propose(&mut pool, &mut ledger, ALICE, 1000), Ok(Event::Proposed { proposal_index: 2 }));
    let first = pool.approve_proposal(approver(), 2, collateral(1, 1), disbursement(), 5).unwrap();
    assert_eq!(first.loan_index, 1);
    pool.delete_loan(loan_contract(), 1).unwrap();
    assert_eq!(propose(&mut pool, &mut ledger, ALICE, 1000), Ok(Event::Proposed { proposal_index: 3 }));
    let second = pool.approve_proposal(approver(), 3, collateral(2, 1), disbursement(), 6).unwrap();
    assert_eq!(second.loan_index, 2);
    assert_eq!(pool.proposal_count(), 3);
    assert_eq!(pool.loan_count(), 2);
}

#[test]
fn registry_and_records_hold_the_same_indices() {
    let mut pool = Pallet::<3>::new(config());
    let mut ledger = Ledger::with(ALICE, 10_000);
    for i in 1..=3u32 {
        propose(&mut pool, &mut ledger, ALICE, 1000).unwrap();
        pool.approve_proposal(approver(), i, collateral(i, 1), disbursement(), 5).unwrap();
    }
    pool.delete_loan(loan_contract(), 2).unwrap();
    let ongoing = pool.ongoing_loans();
    assert_eq!(ongoing, vec![1, 3]);
    for i in 0..6u32 {
        assert_eq!(pool.loans(i).is_some(), ongoing.contains(&i));
    }
    assert!(ongoing.len() <= 3);
}

#[test]
fn sweep_adds_a_year_of_interest() {
    let mut pool = Pallet::<4>::new(config());
    let mut ledger = Ledger::with(ALICE, 10_000);
    propose(&mut pool, &mut ledger, ALICE, 1000).unwrap();
    propose(&mut pool, &mut ledger, ALICE, 2000).unwrap();
    pool.approve_proposal(approver(), 1, collateral(1, 1), disbursement(), 1_000).unwrap();
    pool.approve_proposal(approver(), 2, collateral(2, 1), disbursement(), 1_000).unwrap();
    let year = 31_536_000u64;
    assert_eq!(pool.charge_apy(1_000 + year), Ok(()));
    let first = pool.loans(1).unwrap();
    let second = pool.loans(2).unwrap();
    assert_eq!(first.amount, 1_100);
    assert_eq!(first.last_timestamp, 1_000 + year);
    assert_eq!(second.amount, 2_200);
    assert_eq!(second.last_timestamp, 1_000 + year);
    assert_eq!(pool.ongoing_loans(), vec![1, 2]);
    // no time has passed: nothing changes
    assert_eq!(pool.charge_apy(1_000 + year), Ok(()));
    assert_eq!(pool.loans(1), Some(first));
    // the clock went back: the loan is passed over
    assert_eq!(pool.charge_apy(5), Ok(()));
    assert_eq!(pool.loans(1), Some(first));
}

#[test]
fn accrue_rounds_interest_down() {
    let loan = LoanInfo {
        borrower: BOB,
        amount: 1_000,
        collection_id: 1,
        item_id: 1,
        loan_apy: 10,
        last_timestamp: 0,
    };
    // 1000 * 315359 * 10 / 3153600000 = 0.99999...
    assert_eq!(accrue(loan, 315_359).amount, 1_000);
    assert_eq!(accrue(loan, 315_359).last_timestamp, 315_359);
    assert_eq!(accrue(loan, 315_360).amount, 1_001);
    assert_eq!(accrue(loan, 0), loan);
    assert!(accrue(loan, 86_400 * 400).amount >= loan.amount);
}

#[test]
fn accrue_passes_over_what_does_not_fit() {
    let big = LoanInfo {
        borrower: BOB,
        amount: u64::MAX as u128 + 1,
        collection_id: 1,
        item_id: 1,
        loan_apy: 10,
        last_timestamp: 0,
    };
    assert_eq!(accrue(big, 1_000_000), big);
    let steep = LoanInfo { amount: u64::MAX as u128, loan_apy: u64::MAX, ..big };
    assert_eq!(accrue(steep, u64::MAX), steep);
    let late = LoanInfo { amount: 10, last_timestamp: 50, ..big };
    assert_eq!(accrue(late, 49), late);
}

#[test]
fn interest_formula() {
    assert_eq!(interest(1_000, 31_536_000, 10), Some(100));
    assert_eq!(interest(1_000, 0, 10), Some(0));
    assert_eq!(interest(1_000, 31_536_000, 0), Some(0));
    assert_eq!(interest(3_153_600_000, 1, 1), Some(1));
    assert_eq!(interest(3_153_599_999, 1, 1), Some(0));
    assert_eq!(interest(u64::MAX, u64::MAX, u64::MAX), None);
    assert_eq!(interest(u64::MAX, 3_153_600_000, 1), Some(u64::MAX));
    assert_eq!(interest(u64::MAX, 3_153_600_000, 2), None);
}

#[test]
fn balance_conversions() {
    assert_eq!(balance_to_u64(0), Some(0));
    assert_eq!(balance_to_u64(u64::MAX as u128), Some(u64::MAX));
    assert_eq!(balance_to_u64(u64::MAX as u128 + 1), None);
    assert_eq!(u64_to_balance_option(7), Some(7u128));
    assert_eq!(u64_to_balance_option(u64::MAX), Some(u64::MAX as u128));
}

#[test]
fn bond_is_clamped() {
    let mut c = config();
    assert_eq!(calculate_bond(&c, 1000), 50);
    assert_eq!(calculate_bond(&c, 100), 10);
    assert_eq!(calculate_bond(&c, 0), 10);
    c.proposal_bond_maximum = Some(40);
    assert_eq!(calculate_bond(&c, 1000), 40);
    assert_eq!(calculate_bond(&c, 600), 30);
    c.proposal_bond_maximum = Some(5);
    assert_eq!(calculate_bond(&c, 100), 5);
    c.proposal_bond_maximum = None;
    c.proposal_bond_minimum = 0;
    c.proposal_bond = 1_000_000;
    assert_eq!(calculate_bond(&c, u128::MAX), u128::MAX);
    c.proposal_bond = 2_000_000;
    assert_eq!(calculate_bond(&c, 12_345), 12_345);
    c.proposal_bond = 0;
    assert_eq!(calculate_bond(&c, 12_345), 0);
}

#[test]
fn bond_share_rounds_to_nearest_ties_down() {
    let mut c = config();
    c.proposal_bond_minimum = 0;
    c.proposal_bond = 500_000;
    assert_eq!(calculate_bond(&c, 3), 1);
    assert_eq!(calculate_bond(&c, 5), 2);
    c.proposal_bond = 333_333;
    assert_eq!(calculate_bond(&c, 10), 3);
    c.proposal_bond = 666_667;
    assert_eq!(calculate_bond(&c, 10), 7);
    c.proposal_bond = 50_000;
    assert_eq!(calculate_bond(&c, 3_000_010), 150_000);
    assert_eq!(calculate_bond(&c, 3_000_011), 150_001);
    assert_eq!(calculate_bond(&c, 3_000_029), 150_001);
    assert_eq!(calculate_bond(&c, 3_000_031), 150_002);
}

#[test]
fn payload_layout() {
    let data = disbursement_payload(&ADMIN, &BOB, 1, 0x0A0B_0C0D, u128::MAX, 258);
    assert_eq!(data.len(), 108);
    assert_eq!(&data[0..4], &[0x0E, 0xA6, 0xBD, 0x42]);
    assert_eq!(&data[4..36], &ADMIN);
    assert_eq!(&data[36..68], &BOB);
    assert_eq!(&data[68..72], &[1, 0, 0, 0]);
    assert_eq!(&data[72..76], &[0x0D, 0x0C, 0x0B, 0x0A]);
    assert_eq!(&data[76..92], &[0xFF; 16]);
    assert_eq!(&data[92..108], &[2, 1, 0, 0, 0, 0, 0, 0, 0, 0, 0, 0, 0, 0, 0, 0]);
}

#[test]
fn registry_append_and_remove() {
    let mut items: Vec<u32> = Vec::new();
    assert!(try_append::<2>(&mut items, 5));
    assert!(try_append::<2>(&mut items, 8));
    assert!(!try_append::<2>(&mut items, 9));
    assert_eq!(items, vec![5, 8]);
    assert_eq!(position(&items, 8), Some(1));
    assert_eq!(position(&items, 9), None);
    assert!(!remove::<2>(&mut items, 9));
    assert_eq!(items, vec![5, 8]);
    assert!(remove::<2>(&mut items, 5));
    assert_eq!(items, vec![8]);
    let mut none: Vec<u32> = Vec::new();
    assert!(!try_append::<0>(&mut none, 1));
    assert_eq!(none, Vec::<u32>::new());
}

#[test]
fn pool_account_is_derived_from_the_identifier() {
    let pool = Pallet::<1>::new(config());
    let mut expected = [0u8; 32];
    expected[0..4].copy_from_slice(b"modl");
    expected[4..12].copy_from_slice(b"py/loana");
    assert_eq!(pool.account_id(), expected);
}

#[test]
fn genesis_tops_up_a_poor_pool_account() {
    let genesis = GenesisConfig {};
    assert_eq!(genesis.build(0, 10), Some(10));
    assert_eq!(genesis.build(9, 10), Some(10));
    assert_eq!(genesis.build(10, 10), None);
    assert_eq!(genesis.build(11, 10), None);
}

#[test]
fn failed_steps_are_undone() {
    let mut pool = Pallet::<4>::new(config());
    let mut ledger = Ledger::with(ALICE, 10_000);
    propose(&mut pool, &mut ledger, ALICE, 1000).unwrap();
    let plan = pool.plan_approval(approver(), 1, collateral(3, 4), disbursement(), 100).unwrap();
    let back = Reserve { who: ALICE, amount: 50 };
    assert_eq!(plan.undo(Step::CreateCollection), Undo { burn: None, reserve: back });
    assert_eq!(plan.undo(Step::Mint), Undo { burn: None, reserve: back });
    assert_eq!(
        plan.undo(Step::Disburse),
        Undo { burn: Some(Burn { collection_id: 3, item_id: 4 }), reserve: back }
    );
    // planning changes nothing
    assert!(pool.proposals(1).is_some());
    assert_eq!(pool.loan_count(), 0);
    assert_eq!(pool.ongoing_loans(), Vec::<u32>::new());
}
