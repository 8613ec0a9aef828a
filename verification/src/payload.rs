//! The message that registers a loan with the loan contract.

use vstd::prelude::*;
use crate::types::{AccountId, Balance, CollectionId, ItemId};

verus! {

/// The `width` low bytes of `x`, least significant first.
pub open spec fn le_bytes(x: int, width: nat) -> Seq<u8>
    decreases width,
{
    if width == 0 {
        Seq::empty()
    } else {
        seq![(x % 256) as u8] + le_bytes(x / 256, (width - 1) as nat)
    }
}

pub proof fn lemma_le_bytes_len(x: int, width: nat)
    ensures
        le_bytes(x, width).len() == width,
    decreases width,
{
    if width > 0 {
        lemma_le_bytes_len(x / 256, (width - 1) as nat);
    }
}

/// Selector of the loan contract's message that registers a loan.
pub open spec fn selector() -> Seq<u8> {
    seq![0x0Eu8, 0xA6u8, 0xBDu8, 0x42u8]
}

/// The message handed to the loan contract: the selector, then the admin,
/// the borrower, the collection, the item, the collateral price and the
/// funded amount, each in its fixed-width encoding.
pub open spec fn payload_of(
    admin: AccountId,
    borrower: AccountId,
    collection_id: CollectionId,
    item_id: ItemId,
    collateral_price: Balance,
    amount: Balance,
) -> Seq<u8> {
    selector() + admin@ + borrower@ + le_bytes(collection_id as int, 4) + le_bytes(
        item_id as int,
        4,
    ) + le_bytes(collateral_price as int, 16) + le_bytes(amount as int, 16)
}

/// Every message has the same length: 4 + 32 + 32 + 4 + 4 + 16 + 16 bytes.
pub proof fn lemma_payload_len(
    admin: AccountId,
    borrower: AccountId,
    collection_id: CollectionId,
    item_id: ItemId,
    collateral_price: Balance,
    amount: Balance,
)
    ensures
        payload_of(admin, borrower, collection_id, item_id, collateral_price, amount).len() == 108,
        payload_of(admin, borrower, collection_id, item_id, collateral_price, amount).subrange(0, 4)
            == selector(),
{
    lemma_le_bytes_len(collection_id as int, 4);
    lemma_le_bytes_len(item_id as int, 4);
    lemma_le_bytes_len(collateral_price as int, 16);
    lemma_le_bytes_len(amount as int, 16);
    assert(payload_of(admin, borrower, collection_id, item_id, collateral_price, amount).subrange(
        0,
        4,
    ) =~= selector());
}

/// `parity_scale_codec::Encode::encode` on an array of bytes: the bytes as
/// they are, with no length in front.
#[verifier::external_body]
pub(crate) fn encode_account(account: &AccountId) -> (bytes: Vec<u8>)
    ensures
        bytes@ == account@,
{
    parity_scale_codec::Encode::encode(account)
}

/// `parity_scale_codec::Encode::encode` on a `u32`: its four bytes, least
/// significant first.
#[verifier::external_body]
pub(crate) fn encode_u32(value: u32) -> (bytes: Vec<u8>)
    ensures
        bytes@ == le_bytes(value as int, 4),
{
    parity_scale_codec::Encode::encode(&value)
}

/// `parity_scale_codec::Encode::encode` on a `u128`: its sixteen bytes, least
/// significant first.
#[verifier::external_body]
pub(crate) fn encode_u128(value: u128) -> (bytes: Vec<u8>)
    ensures
        bytes@ == le_bytes(value as int, 16),
{
    parity_scale_codec::Encode::encode(&value)
}

/// Builds the message for the loan contract.
pub fn disbursement_payload(
    admin: &AccountId,
    borrower: &AccountId,
    collection_id: CollectionId,
    item_id: ItemId,
    collateral_price: Balance,
    amount: Balance,
) -> (data: Vec<u8>)
    ensures
        data@ == payload_of(*admin, *borrower, collection_id, item_id, collateral_price, amount),
{
    let mut arg1_enc = encode_account(admin);
    let mut arg2_enc = encode_account(borrower);
    let mut arg3_enc = encode_u32(collection_id);
    let mut arg4_enc = encode_u32(item_id);
    let mut arg5_enc = encode_u128(collateral_price);
    let mut arg6_enc = encode_u128(amount);
    let mut data: Vec<u8> = Vec::new();
    data.push(0x0E);
    data.push(0xA6);
    data.push(0xBD);
    data.push(0x42);
    assert(data@ =~= selector());
    data.append(&mut arg1_enc);
    data.append(&mut arg2_enc);
    data.append(&mut arg3_enc);
    data.append(&mut arg4_enc);
    data.append(&mut arg5_enc);
    data.append(&mut arg6_enc);
    data
}

} // verus!
