use vstd::prelude::*;

use crate::error::AuctionError;
use crate::identity::AccountId;
use crate::identity::custodian_of;
use crate::ops::Bid;
use crate::ops::Buynft;
use crate::ops::Cancel;
use crate::ops::Close;
use crate::ops::Closenft;
use crate::ops::Exhibit;
use crate::ops::bid_apply;
use crate::ops::bid_check;
use crate::ops::buynft_check;
use crate::ops::cancel_check;
use crate::ops::close_check;
use crate::ops::closenft_apply;
use crate::ops::closenft_check;
use crate::ops::exhibit_check;
use crate::state::EscrowSlot;
use crate::state::contested;
use crate::state::record_of;

verus! {

/// One bid submission as the sequence laws see it: who bids, with what
/// spendable balance, at what price, at what time. The laws take the
/// submitted highest-bidder account to be the one the record names, as an
/// honest caller supplies it.
pub struct BidCall {
    pub bidder: AccountId,
    pub bidder_lamports: u64,
    pub price: u64,
    pub now: i64,
}

/// The bid request an honest caller builds from a submission: signed, and
/// naming the highest bidder the record currently names.
pub open spec fn bid_ctx(s: EscrowSlot, c: BidCall) -> Bid {
    Bid {
        bidder: c.bidder,
        bidder_signed: true,
        bidder_lamports: c.bidder_lamports,
        highest_bidder: record_of(s).highest_bidder_pubkey,
        escrow_account: s,
        now: c.now,
    }
}

/// The record slot after one bid submission: updated when every guard
/// holds, untouched otherwise.
pub open spec fn bid_step(s: EscrowSlot, c: BidCall) -> EscrowSlot {
    if bid_check(bid_ctx(s, c), c.price) is None {
        bid_apply(bid_ctx(s, c), c.price).escrow_account
    } else {
        s
    }
}

/// The record slot after a whole sequence of bid submissions, applied in
/// the total order the host ledger assigns.
pub open spec fn run_bids(s: EscrowSlot, calls: Seq<BidCall>) -> EscrowSlot
    decreases calls.len(),
{
    if calls.len() == 0 {
        s
    } else {
        run_bids(bid_step(s, calls[0]), calls.subrange(1, calls.len() as int))
    }
}

/// An accepted bid strictly raises the committed price and hands the
/// highest-bidder role to an identity different from the previous holder
/// and different from the exhibitor; the exhibitor, the custody identity,
/// the fixed price and the expiry are untouched.
pub proof fn lemma_bid_step(s: EscrowSlot, c: BidCall)
    requires
        bid_check(bid_ctx(s, c), c.price) is None,
    ensures
        s is Active,
        (bid_step(s, c) matches EscrowSlot::Active(b)
            && b.price == c.price
            && b.price > record_of(s).price
            && b.highest_bidder_pubkey == c.bidder
            && b.highest_bidder_pubkey != record_of(s).highest_bidder_pubkey
            && b.highest_bidder_pubkey != record_of(s).exhibitor_pubkey
            && b.exhibitor_pubkey == record_of(s).exhibitor_pubkey
            && b.exhibiting_nft_temp_pubkey == record_of(s).exhibiting_nft_temp_pubkey
            && b.sell_price == record_of(s).sell_price
            && b.end_at == record_of(s).end_at),
{
}

/// Across any sequence of bid submissions the record stays Active, the
/// committed price never decreases, and the exhibitor, the custody
/// identity, the fixed price and the expiry never change. Together with
/// `lemma_bid_step`, the committed price is strictly increasing across the
/// accepted submissions of the sequence.
pub proof fn lemma_run_bids_monotonic(s: EscrowSlot, calls: Seq<BidCall>)
    requires
        s is Active,
    ensures
        (run_bids(s, calls) matches EscrowSlot::Active(b)
            && b.price >= record_of(s).price
            && b.exhibitor_pubkey == record_of(s).exhibitor_pubkey
            && b.exhibiting_nft_temp_pubkey == record_of(s).exhibiting_nft_temp_pubkey
            && b.sell_price == record_of(s).sell_price
            && b.end_at == record_of(s).end_at),
    decreases calls.len(),
{
    if calls.len() == 0 {
    } else {
        let s1 = bid_step(s, calls[0]);
        assert(s1 is Active);
        lemma_run_bids_monotonic(s1, calls.subrange(1, calls.len() as int));
    }
}

/// Once the auction is contested, no later sequence of bid submissions —
/// whoever places them, the exhibitor included — ever hands the
/// highest-bidder role back to the exhibitor: a bid by the exhibitor is
/// rejected as a duplicate, and every accepted bid names another party.
pub proof fn lemma_run_bids_stay_contested(s: EscrowSlot, calls: Seq<BidCall>)
    requires
        s is Active,
        contested(record_of(s)),
    ensures
        (run_bids(s, calls) matches EscrowSlot::Active(b) && contested(b)),
    decreases calls.len(),
{
    if calls.len() == 0 {
    } else {
        let s1 = bid_step(s, calls[0]);
        assert(s1 is Active);
        assert(record_of(s1).exhibitor_pubkey == record_of(s).exhibitor_pubkey);
        assert(contested(record_of(s1)));
        lemma_run_bids_stay_contested(s1, calls.subrange(1, calls.len() as int));
    }
}

/// An accepted buy-now intent hands the highest-bidder role to an identity
/// different from the previous holder and different from the exhibitor,
/// and rewrites the fixed price with its own stored value; the committed
/// price and every other field of the record are untouched, and nothing
/// moves.
pub proof fn lemma_buynft_step(pre: Buynft, sell_price: u64)
    requires
        buynft_check(pre, sell_price) is None,
    ensures
        pre.escrow_account is Active,
        (crate::ops::buynft_apply(pre, sell_price).escrow_account matches EscrowSlot::Active(b)
            && b.highest_bidder_pubkey == pre.bidder
            && b.highest_bidder_pubkey != record_of(pre.escrow_account).highest_bidder_pubkey
            && b.highest_bidder_pubkey != record_of(pre.escrow_account).exhibitor_pubkey
            && b.price == record_of(pre.escrow_account).price
            && b.sell_price == record_of(pre.escrow_account).sell_price
            && b.exhibitor_pubkey == record_of(pre.escrow_account).exhibitor_pubkey
            && b.exhibiting_nft_temp_pubkey == record_of(
                pre.escrow_account,
            ).exhibiting_nft_temp_pubkey
            && b.end_at == record_of(pre.escrow_account).end_at),
{
}

/// Which guard rejects a bid: a committed price not strictly above the
/// current one is a price-ordering error, an expired window a time-window
/// error, and a caller who already holds the highest-bidder role — or who
/// is the exhibitor, whoever currently holds the role — a duplicate-bidder
/// error, each under the guards ordered before it.
pub proof fn lemma_bid_error_cases(pre: Bid, price: u64)
    ensures
        (pre.escrow_account is Active && pre.bidder_signed && pre.bidder_lamports >= price
            && record_of(pre.escrow_account).highest_bidder_pubkey == pre.highest_bidder
            && pre.bidder != pre.highest_bidder
            && pre.bidder != record_of(pre.escrow_account).exhibitor_pubkey
            && price <= record_of(pre.escrow_account).price)
            ==> bid_check(pre, price) == Some(AuctionError::PriceOrderingError),
        (pre.escrow_account is Active && pre.bidder_signed && pre.bidder_lamports >= price
            && record_of(pre.escrow_account).highest_bidder_pubkey == pre.highest_bidder
            && pre.bidder != pre.highest_bidder
            && pre.bidder != record_of(pre.escrow_account).exhibitor_pubkey
            && price > record_of(pre.escrow_account).price
            && pre.now >= record_of(pre.escrow_account).end_at) ==> bid_check(pre, price)
            == Some(AuctionError::TimeWindowError),
        (pre.escrow_account is Active && pre.bidder_signed && pre.bidder_lamports >= price
            && record_of(pre.escrow_account).highest_bidder_pubkey == pre.highest_bidder
            && pre.bidder == pre.highest_bidder) ==> bid_check(pre, price)
            == Some(AuctionError::DuplicateBidderError),
        (pre.escrow_account is Active && pre.bidder_signed && pre.bidder_lamports >= price
            && record_of(pre.escrow_account).highest_bidder_pubkey == pre.highest_bidder
            && pre.bidder == record_of(pre.escrow_account).exhibitor_pubkey) ==> bid_check(
            pre,
            price,
        ) == Some(AuctionError::DuplicateBidderError),
{
}

/// Cancellation succeeds only while the highest bidder is still the
/// exhibitor. Once the auction is contested it always fails, and under an
/// otherwise well-formed request the failure is the lifecycle error.
pub proof fn lemma_cancel_only_uncontested(pre: Cancel)
    ensures
        cancel_check(pre) is None ==> !contested(record_of(pre.escrow_account)),
        (pre.escrow_account is Active && contested(record_of(pre.escrow_account)))
            ==> cancel_check(pre) is Some,
        (pre.escrow_account is Active && contested(record_of(pre.escrow_account))
            && pre.exhibitor_signed
            && record_of(pre.escrow_account).exhibitor_pubkey == pre.exhibitor
            && record_of(pre.escrow_account).exhibiting_nft_temp_pubkey
                == pre.exhibitor_nft_temp_account.key
            && (match custodian_of(pre.program_id) {
                Some(cust) => pre.exhibitor_nft_temp_account.owner == cust.0,
                None => false,
            })) ==> cancel_check(pre) == Some(AuctionError::StateLifecycleError),
{
}

/// The timed settlement path accepts only after expiry and only from the
/// recorded highest bidder.
pub proof fn lemma_close_gate(pre: Close)
    ensures
        close_check(pre) is None ==> pre.now >= record_of(pre.escrow_account).end_at,
        close_check(pre) is None ==> record_of(pre.escrow_account).highest_bidder_pubkey
            == pre.winning_bidder,
{
}

/// The buy-now settlement path pays no attention to the clock: its guards
/// and its effects are the same at every current time, before or after
/// expiry.
pub proof fn lemma_closenft_ignores_time(pre: Closenft, t: i64)
    ensures
        closenft_check((Closenft { now: t, ..pre })) == closenft_check(pre),
        closenft_apply((Closenft { now: t, ..pre })) == (Closenft {
            now: t,
            ..closenft_apply(pre)
        }),
{
}

/// Replaying any operation against a destroyed record always fails with the
/// lifecycle error; no effect is ever re-applied.
pub proof fn lemma_destroyed_rejects(
    e: Exhibit,
    c: Cancel,
    b: Bid,
    price: u64,
    bn: Buynft,
    sell_price: u64,
    cl: Close,
    cn: Closenft,
)
    requires
        e.escrow_account is Destroyed,
        c.escrow_account is Destroyed,
        b.escrow_account is Destroyed,
        bn.escrow_account is Destroyed,
        cl.escrow_account is Destroyed,
        cn.escrow_account is Destroyed,
    ensures
        exhibit_check(e) == Some(AuctionError::StateLifecycleError),
        cancel_check(c) == Some(AuctionError::StateLifecycleError),
        bid_check(b, price) == Some(AuctionError::StateLifecycleError),
        buynft_check(bn, sell_price) == Some(AuctionError::StateLifecycleError),
        close_check(cl) == Some(AuctionError::StateLifecycleError),
        closenft_check(cn) == Some(AuctionError::StateLifecycleError),
{
}

} // verus!
