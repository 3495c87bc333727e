use vstd::prelude::*;

use crate::identity::AccountId;

verus! {

/// One asset holding on the ledger: the account `key` holds `amount` units
/// of the asset and is controlled by `owner`. `closed` records that the
/// account has been torn down and its reclaimable resources returned.
#[derive(Clone, Copy, Debug, PartialEq, Eq, Structural)]
pub struct TokenHolding {
    pub key: AccountId,
    pub owner: AccountId,
    pub amount: u64,
    pub closed: bool,
}

/// The escrow record of one auction instance: the sole persistent entity.
/// `price` is the current highest committed bid, `sell_price` the fixed
/// instant-buy price, `end_at` the absolute expiry of the timed window, and
/// `highest_bidder_pubkey` the identity entitled to win at the committed
/// price; it equals the exhibitor until a genuine bid or buy-now intent is
/// registered.
#[derive(Clone, Copy, Debug, PartialEq, Eq, Structural)]
pub struct Auction {
    pub exhibitor_pubkey: AccountId,
    pub exhibiting_nft_temp_pubkey: AccountId,
    pub price: u64,
    pub end_at: i64,
    pub highest_bidder_pubkey: AccountId,
    pub sell_price: u64,
}

/// The lifecycle of the one escrow record slot: created once, mutated in
/// place while Active, destroyed exactly once by cancellation or by
/// settlement. No operation may run against an Uninitialized or Destroyed
/// slot.
#[derive(Clone, Copy, Debug, PartialEq, Eq, Structural)]
pub enum EscrowSlot {
    Uninitialized,
    Active(Auction),
    Destroyed,
}

/// The record held by an Active slot. Meaningful only when the slot is
/// Active.
pub open spec fn record_of(s: EscrowSlot) -> Auction
    recommends
        s is Active,
{
    match s {
        EscrowSlot::Active(a) => a,
        _ => arbitrary(),
    }
}

/// An auction is contested once the recorded highest bidder differs from
/// the exhibitor, that is once a genuine bid or buy-now intent exists.
pub open spec fn contested(a: Auction) -> bool {
    a.highest_bidder_pubkey != a.exhibitor_pubkey
}

} // verus!
