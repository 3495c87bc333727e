use vstd::prelude::*;

use crate::error::AuctionError;
use crate::identity::AccountId;
use crate::identity::custodian_of;
use crate::identity::derive_custodian;
use crate::state::Auction;
use crate::state::EscrowSlot;
use crate::state::TokenHolding;

verus! {

/// Turn the first failing guard of an operation into its result: the error
/// when one guard failed, success when none did.
pub open spec fn verdict(c: Option<AuctionError>) -> Result<(), AuctionError> {
    match c {
        Some(e) => Err(e),
        None => Ok(()),
    }
}

/// The accounts and proofs submitted with a bid: the bidder (who must have
/// signed and must hold at least the committed price in spendable balance),
/// the party the bidder believes to be the current highest bidder, the
/// escrow record slot, and the oracle's current time.
#[derive(Clone, Copy, Debug, PartialEq, Eq, Structural)]
pub struct Bid {
    pub bidder: AccountId,
    pub bidder_signed: bool,
    pub bidder_lamports: u64,
    pub highest_bidder: AccountId,
    pub escrow_account: EscrowSlot,
    pub now: i64,
}

/// The ordered guards of `bid`: the first failing guard, or `None` when the
/// bid is accepted. The exhibitor holds the highest-bidder role until a
/// genuine bid arrives and may never take it back, so a bid by the
/// exhibitor is rejected as a duplicate whether or not the auction is
/// already contested; the role therefore never reverts to the exhibitor.
pub open spec fn bid_check(pre: Bid, price: u64) -> Option<AuctionError> {
    match pre.escrow_account {
        EscrowSlot::Active(a) => if !pre.bidder_signed {
            Some(AuctionError::AuthenticationError)
        } else if pre.bidder_lamports < price {
            Some(AuctionError::InsufficientBalanceError)
        } else if a.highest_bidder_pubkey != pre.highest_bidder {
            Some(AuctionError::IdentityMismatchError)
        } else if pre.bidder == pre.highest_bidder {
            Some(AuctionError::DuplicateBidderError)
        } else if pre.bidder == a.exhibitor_pubkey {
            Some(AuctionError::DuplicateBidderError)
        } else if price <= a.price {
            Some(AuctionError::PriceOrderingError)
        } else if a.end_at <= pre.now {
            Some(AuctionError::TimeWindowError)
        } else {
            None
        },
        _ => Some(AuctionError::StateLifecycleError),
    }
}

/// The state after an accepted bid: the committed price and the recorded
/// highest bidder are replaced; nothing else changes and nothing moves.
pub open spec fn bid_apply(pre: Bid, price: u64) -> Bid {
    Bid {
        escrow_account: EscrowSlot::Active(Auction {
            price,
            highest_bidder_pubkey: pre.bidder,
            ..crate::state::record_of(pre.escrow_account)
        }),
        ..pre
    }
}

/// Commit an ascending bid against an open auction. Bidding only records the
/// commitment; no currency or asset moves until settlement. A rejected bid
/// leaves the record untouched.
pub fn bid(ctx: &mut Bid, price: u64) -> (r: Result<(), AuctionError>)
    ensures
        r == verdict(bid_check(*old(ctx), price)),
        bid_check(*old(ctx), price) is None ==> *final(ctx) == bid_apply(*old(ctx), price),
        bid_check(*old(ctx), price) is Some ==> *final(ctx) == *old(ctx),
        r is Ok ==> (final(ctx).escrow_account matches EscrowSlot::Active(b)
            && b.price == price
            && b.highest_bidder_pubkey == old(ctx).bidder),
{
    let a = match ctx.escrow_account {
        EscrowSlot::Active(a) => a,
        _ => {
            return Err(AuctionError::StateLifecycleError);
        },
    };
    if !ctx.bidder_signed {
        return Err(AuctionError::AuthenticationError);
    }
    if ctx.bidder_lamports < price {
        return Err(AuctionError::InsufficientBalanceError);
    }
    if a.highest_bidder_pubkey != ctx.highest_bidder {
        return Err(AuctionError::IdentityMismatchError);
    }
    if ctx.bidder == ctx.highest_bidder {
        return Err(AuctionError::DuplicateBidderError);
    }
    if ctx.bidder == a.exhibitor_pubkey {
        return Err(AuctionError::DuplicateBidderError);
    }
    if price <= a.price {
        return Err(AuctionError::PriceOrderingError);
    }
    if a.end_at <= ctx.now {
        return Err(AuctionError::TimeWindowError);
    }
    ctx.escrow_account = EscrowSlot::Active(
        Auction { price, highest_bidder_pubkey: ctx.bidder, ..a },
    );
    Ok(())
}

/// The accounts and proofs submitted with a buy-now intent: the same shape
/// as a bid. The echoed fixed price must match the one stored at creation.
#[derive(Clone, Copy, Debug, PartialEq, Eq, Structural)]
pub struct Buynft {
    pub bidder: AccountId,
    pub bidder_signed: bool,
    pub bidder_lamports: u64,
    pub highest_bidder: AccountId,
    pub escrow_account: EscrowSlot,
    pub now: i64,
}

/// The ordered guards of `buynft`. Unlike `bid` there is no ascending-price
/// guard: any eligible bidder may register buy-now intent regardless of the
/// current committed price, but the echoed price must equal the stored
/// fixed price. As with `bid`, the exhibitor may never take the
/// highest-bidder role back, so their own intent is rejected as a
/// duplicate.
pub open spec fn buynft_check(pre: Buynft, sell_price: u64) -> Option<AuctionError> {
    match pre.escrow_account {
        EscrowSlot::Active(a) => if !pre.bidder_signed {
            Some(AuctionError::AuthenticationError)
        } else if pre.bidder_lamports < sell_price {
            Some(AuctionError::InsufficientBalanceError)
        } else if a.highest_bidder_pubkey != pre.highest_bidder {
            Some(AuctionError::IdentityMismatchError)
        } else if pre.bidder == pre.highest_bidder {
            Some(AuctionError::DuplicateBidderError)
        } else if pre.bidder == a.exhibitor_pubkey {
            Some(AuctionError::DuplicateBidderError)
        } else if a.sell_price != sell_price {
            Some(AuctionError::PriceOrderingError)
        } else if a.end_at <= pre.now {
            Some(AuctionError::TimeWindowError)
        } else {
            None
        },
        _ => Some(AuctionError::StateLifecycleError),
    }
}

/// The state after an accepted buy-now intent: the fixed price is rewritten
/// with the same value and the recorded highest bidder is replaced; nothing
/// moves.
pub open spec fn buynft_apply(pre: Buynft, sell_price: u64) -> Buynft {
    Buynft {
        escrow_account: EscrowSlot::Active(Auction {
            sell_price,
            highest_bidder_pubkey: pre.bidder,
            ..crate::state::record_of(pre.escrow_account)
        }),
        ..pre
    }
}

/// Register a buy-now intent against an open auction at the stored fixed
/// price. Like `bid`, this only records the intent; settlement is deferred
/// to the buy-now settlement path.
pub fn buynft(ctx: &mut Buynft, sell_price: u64) -> (r: Result<(), AuctionError>)
    ensures
        r == verdict(buynft_check(*old(ctx), sell_price)),
        buynft_check(*old(ctx), sell_price) is None ==> *final(ctx) == buynft_apply(
            *old(ctx),
            sell_price,
        ),
        buynft_check(*old(ctx), sell_price) is Some ==> *final(ctx) == *old(ctx),
        r is Ok ==> (final(ctx).escrow_account matches EscrowSlot::Active(b)
            && b.sell_price == old(ctx).escrow_account->0.sell_price
            && b.price == old(ctx).escrow_account->0.price
            && b.highest_bidder_pubkey == old(ctx).bidder),
{
    let a = match ctx.escrow_account {
        EscrowSlot::Active(a) => a,
        _ => {
            return Err(AuctionError::StateLifecycleError);
        },
    };
    if !ctx.bidder_signed {
        return Err(AuctionError::AuthenticationError);
    }
    if ctx.bidder_lamports < sell_price {
        return Err(AuctionError::InsufficientBalanceError);
    }
    if a.highest_bidder_pubkey != ctx.highest_bidder {
        return Err(AuctionError::IdentityMismatchError);
    }
    if ctx.bidder == ctx.highest_bidder {
        return Err(AuctionError::DuplicateBidderError);
    }
    if ctx.bidder == a.exhibitor_pubkey {
        return Err(AuctionError::DuplicateBidderError);
    }
    if a.sell_price != sell_price {
        return Err(AuctionError::PriceOrderingError);
    }
    if a.end_at <= ctx.now {
        return Err(AuctionError::TimeWindowError);
    }
    ctx.escrow_account = EscrowSlot::Active(
        Auction { sell_price, highest_bidder_pubkey: ctx.bidder, ..a },
    );
    Ok(())
}

/// The accounts and proofs submitted with a creation: the exhibitor (who
/// must have signed), the source holding carrying the one asset unit, the
/// empty destination holding that becomes the custody holding, the record
/// slot to populate, the oracle's current time, and the protocol's own
/// identity from which the custodian is derived.
#[derive(Clone, Copy, Debug, PartialEq, Eq, Structural)]
pub struct Exhibit {
    pub exhibitor: AccountId,
    pub exhibitor_signed: bool,
    pub exhibitor_nft_token_account: TokenHolding,
    pub exhibitor_nft_temp_account: TokenHolding,
    pub escrow_account: EscrowSlot,
    pub now: i64,
    pub program_id: AccountId,
}

/// The ordered guards of `exhibit`: the first failing guard, or `None` when
/// the creation is accepted.
pub open spec fn exhibit_check(pre: Exhibit) -> Option<AuctionError> {
    if !(pre.escrow_account is Uninitialized) {
        Some(AuctionError::StateLifecycleError)
    } else if !pre.exhibitor_signed {
        Some(AuctionError::AuthenticationError)
    } else if pre.exhibitor_nft_token_account.amount != 1 {
        Some(AuctionError::InsufficientBalanceError)
    } else if pre.exhibitor_nft_token_account.owner != pre.exhibitor {
        Some(AuctionError::IdentityMismatchError)
    } else if custodian_of(pre.program_id) is None {
        Some(AuctionError::IdentityMismatchError)
    } else {
        None
    }
}

/// The state after an accepted creation: the record is populated, authority
/// over the destination holding passes to the derived custodian, and the
/// one asset unit moves from the source to the custody holding — all in one
/// atomic step.
pub open spec fn exhibit_apply(
    pre: Exhibit,
    initial_price: u64,
    auction_duration_sec: u32,
    sell_nft: u64,
) -> Exhibit {
    match custodian_of(pre.program_id) {
        Some(cust) => Exhibit {
            exhibitor_nft_token_account: TokenHolding {
                amount: 0,
                ..pre.exhibitor_nft_token_account
            },
            exhibitor_nft_temp_account: TokenHolding {
                owner: cust.0,
                amount: 1,
                ..pre.exhibitor_nft_temp_account
            },
            escrow_account: EscrowSlot::Active(Auction {
                exhibitor_pubkey: pre.exhibitor,
                exhibiting_nft_temp_pubkey: pre.exhibitor_nft_temp_account.key,
                price: initial_price,
                end_at: (pre.now + auction_duration_sec) as i64,
                highest_bidder_pubkey: pre.exhibitor,
                sell_price: sell_nft,
            }),
            ..pre
        },
        None => pre,
    }
}

/// Create an auction: deposit the one asset unit into custody, install the
/// derived custodian as the holding's sole authority, and populate the
/// record. The record starts with the exhibitor as its own highest bidder
/// and the initial price as the committed price, and expires
/// `auction_duration_sec` after the oracle's current time.
pub fn exhibit(
    ctx: &mut Exhibit,
    initial_price: u64,
    auction_duration_sec: u32,
    sell_nft: u64,
) -> (r: Result<(), AuctionError>)
    requires
        old(ctx).exhibitor_nft_temp_account.amount == 0,
        !old(ctx).exhibitor_nft_temp_account.closed,
        !old(ctx).exhibitor_nft_token_account.closed,
        old(ctx).now + auction_duration_sec <= i64::MAX,
    ensures
        r == verdict(exhibit_check(*old(ctx))),
        exhibit_check(*old(ctx)) is None ==> *final(ctx) == exhibit_apply(
            *old(ctx),
            initial_price,
            auction_duration_sec,
            sell_nft,
        ),
        exhibit_check(*old(ctx)) is Some ==> *final(ctx) == *old(ctx),
        r is Ok ==> (final(ctx).escrow_account matches EscrowSlot::Active(a)
            && a.highest_bidder_pubkey == old(ctx).exhibitor
            && a.exhibitor_pubkey == old(ctx).exhibitor
            && a.price == initial_price
            && a.sell_price == sell_nft
            && a.end_at == old(ctx).now + auction_duration_sec
            && a.exhibiting_nft_temp_pubkey == old(ctx).exhibitor_nft_temp_account.key),
        r is Ok ==> final(ctx).exhibitor_nft_temp_account.amount == 1,
        r is Ok ==> (custodian_of(old(ctx).program_id) matches Some(cust)
            && final(ctx).exhibitor_nft_temp_account.owner == cust.0),
{
    match ctx.escrow_account {
        EscrowSlot::Uninitialized => {},
        _ => {
            return Err(AuctionError::StateLifecycleError);
        },
    }
    if !ctx.exhibitor_signed {
        return Err(AuctionError::AuthenticationError);
    }
    if ctx.exhibitor_nft_token_account.amount != 1 {
        return Err(AuctionError::InsufficientBalanceError);
    }
    if ctx.exhibitor_nft_token_account.owner != ctx.exhibitor {
        return Err(AuctionError::IdentityMismatchError);
    }
    let cust = match derive_custodian(&ctx.program_id) {
        Some(p) => p.0,
        None => {
            return Err(AuctionError::IdentityMismatchError);
        },
    };
    ctx.exhibitor_nft_token_account.amount = 0;
    ctx.exhibitor_nft_temp_account.amount = 1;
    ctx.exhibitor_nft_temp_account.owner = cust;
    ctx.escrow_account = EscrowSlot::Active(
        Auction {
            exhibitor_pubkey: ctx.exhibitor,
            exhibiting_nft_temp_pubkey: ctx.exhibitor_nft_temp_account.key,
            price: initial_price,
            end_at: ctx.now + auction_duration_sec as i64,
            highest_bidder_pubkey: ctx.exhibitor,
            sell_price: sell_nft,
        },
    );
    Ok(())
}

/// The accounts and proofs submitted with a cancellation: the exhibitor
/// (who must have signed), the holding that receives the asset back, the
/// custody holding, the record slot, and the protocol's own identity used
/// to reproduce the custodian derivation.
#[derive(Clone, Copy, Debug, PartialEq, Eq, Structural)]
pub struct Cancel {
    pub exhibitor: AccountId,
    pub exhibitor_signed: bool,
    pub exhibitor_nft_token_account: TokenHolding,
    pub exhibitor_nft_temp_account: TokenHolding,
    pub escrow_account: EscrowSlot,
    pub program_id: AccountId,
}

/// The ordered guards of `cancel`. Cancellation is permitted only while the
/// auction is still uncontested: once any genuine bid or buy-now intent has
/// been recorded, the highest bidder no longer equals the exhibitor and
/// cancellation fails with a lifecycle error.
pub open spec fn cancel_check(pre: Cancel) -> Option<AuctionError> {
    match pre.escrow_account {
        EscrowSlot::Active(a) => if !pre.exhibitor_signed {
            Some(AuctionError::AuthenticationError)
        } else if a.exhibitor_pubkey != pre.exhibitor {
            Some(AuctionError::IdentityMismatchError)
        } else if a.exhibiting_nft_temp_pubkey != pre.exhibitor_nft_temp_account.key {
            Some(AuctionError::IdentityMismatchError)
        } else if (match custodian_of(pre.program_id) {
            Some(cust) => pre.exhibitor_nft_temp_account.owner != cust.0,
            None => true,
        }) {
            Some(AuctionError::IdentityMismatchError)
        } else if a.highest_bidder_pubkey != a.exhibitor_pubkey {
            Some(AuctionError::StateLifecycleError)
        } else {
            None
        },
        _ => Some(AuctionError::StateLifecycleError),
    }
}

/// The state after an accepted cancellation: the custody holding's full
/// balance returns to the exhibitor's holding, the custody holding is torn
/// down, and the record is destroyed — all in one atomic step.
pub open spec fn cancel_apply(pre: Cancel) -> Cancel {
    Cancel {
        exhibitor_nft_token_account: TokenHolding {
            amount: (pre.exhibitor_nft_token_account.amount
                + pre.exhibitor_nft_temp_account.amount) as u64,
            ..pre.exhibitor_nft_token_account
        },
        exhibitor_nft_temp_account: TokenHolding {
            amount: 0,
            closed: true,
            ..pre.exhibitor_nft_temp_account
        },
        escrow_account: EscrowSlot::Destroyed,
        ..pre
    }
}

/// Cancel an uncontested auction: return the escrowed asset to the
/// exhibitor, tear down the custody holding under the derived custodian's
/// authority, and destroy the record. After any successful bid or buy-now
/// registration this operation always fails and changes nothing.
pub fn cancel(ctx: &mut Cancel) -> (r: Result<(), AuctionError>)
    requires
        !old(ctx).exhibitor_nft_token_account.closed,
        !old(ctx).exhibitor_nft_temp_account.closed,
        cancel_check(*old(ctx)) is None ==> old(ctx).exhibitor_nft_token_account.amount + old(
            ctx,
        ).exhibitor_nft_temp_account.amount <= u64::MAX,
    ensures
        r == verdict(cancel_check(*old(ctx))),
        cancel_check(*old(ctx)) is None ==> *final(ctx) == cancel_apply(*old(ctx)),
        cancel_check(*old(ctx)) is Some ==> *final(ctx) == *old(ctx),
        r is Ok ==> crate::state::record_of(old(ctx).escrow_account).highest_bidder_pubkey
            == crate::state::record_of(old(ctx).escrow_account).exhibitor_pubkey,
        r is Ok ==> final(ctx).escrow_account is Destroyed,
        r is Ok ==> final(ctx).exhibitor_nft_token_account.amount == old(
            ctx,
        ).exhibitor_nft_token_account.amount + old(ctx).exhibitor_nft_temp_account.amount,
        r is Ok ==> final(ctx).exhibitor_nft_temp_account.closed,
{
    let a = match ctx.escrow_account {
        EscrowSlot::Active(a) => a,
        _ => {
            return Err(AuctionError::StateLifecycleError);
        },
    };
    if !ctx.exhibitor_signed {
        return Err(AuctionError::AuthenticationError);
    }
    if a.exhibitor_pubkey != ctx.exhibitor {
        return Err(AuctionError::IdentityMismatchError);
    }
    if a.exhibiting_nft_temp_pubkey != ctx.exhibitor_nft_temp_account.key {
        return Err(AuctionError::IdentityMismatchError);
    }
    let cust = match derive_custodian(&ctx.program_id) {
        Some(p) => p.0,
        None => {
            return Err(AuctionError::IdentityMismatchError);
        },
    };
    if ctx.exhibitor_nft_temp_account.owner != cust {
        return Err(AuctionError::IdentityMismatchError);
    }
    if a.highest_bidder_pubkey != a.exhibitor_pubkey {
        return Err(AuctionError::StateLifecycleError);
    }
    ctx.exhibitor_nft_token_account.amount = ctx.exhibitor_nft_token_account.amount
        + ctx.exhibitor_nft_temp_account.amount;
    ctx.exhibitor_nft_temp_account.amount = 0;
    ctx.exhibitor_nft_temp_account.closed = true;
    ctx.escrow_account = EscrowSlot::Destroyed;
    Ok(())
}

/// The accounts and proofs submitted with a timed settlement: the caller
/// asserting to be the winning bidder (who must have signed and carries a
/// spendable native balance), the exhibitor and their native balance, the
/// custody holding, the winner's asset-receiving holding, the record slot,
/// the oracle's current time, and the protocol's own identity.
#[derive(Clone, Copy, Debug, PartialEq, Eq, Structural)]
pub struct Close {
    pub winning_bidder: AccountId,
    pub winning_bidder_signed: bool,
    pub winning_bidder_lamports: u64,
    pub exhibitor: AccountId,
    pub exhibitor_lamports: u64,
    pub exhibitor_nft_temp_account: TokenHolding,
    pub highest_bidder_nft_receiving_account: TokenHolding,
    pub escrow_account: EscrowSlot,
    pub now: i64,
    pub program_id: AccountId,
}

/// The ordered guards of `close`: the timed settlement path requires the
/// auction window to have expired and the caller to be the recorded highest
/// bidder, able to pay the committed price.
pub open spec fn close_check(pre: Close) -> Option<AuctionError> {
    match pre.escrow_account {
        EscrowSlot::Active(a) => if !pre.winning_bidder_signed {
            Some(AuctionError::AuthenticationError)
        } else if a.exhibitor_pubkey != pre.exhibitor {
            Some(AuctionError::IdentityMismatchError)
        } else if a.exhibiting_nft_temp_pubkey != pre.exhibitor_nft_temp_account.key {
            Some(AuctionError::IdentityMismatchError)
        } else if (match custodian_of(pre.program_id) {
            Some(cust) => pre.exhibitor_nft_temp_account.owner != cust.0,
            None => true,
        }) {
            Some(AuctionError::IdentityMismatchError)
        } else if a.highest_bidder_pubkey != pre.winning_bidder {
            Some(AuctionError::IdentityMismatchError)
        } else if pre.now < a.end_at {
            Some(AuctionError::TimeWindowError)
        } else if pre.winning_bidder_lamports < a.price {
            Some(AuctionError::InsufficientBalanceError)
        } else {
            None
        },
        _ => Some(AuctionError::StateLifecycleError),
    }
}

/// The state after an accepted timed settlement: the committed price moves
/// in native currency from the winner to the exhibitor, the custody
/// holding's full balance moves to the winner's receiving holding, the
/// custody holding is torn down, and the record is destroyed — all in one
/// atomic step.
pub open spec fn close_apply(pre: Close) -> Close {
    let a = crate::state::record_of(pre.escrow_account);
    Close {
        winning_bidder_lamports: (pre.winning_bidder_lamports - a.price) as u64,
        exhibitor_lamports: (pre.exhibitor_lamports + a.price) as u64,
        exhibitor_nft_temp_account: TokenHolding {
            amount: 0,
            closed: true,
            ..pre.exhibitor_nft_temp_account
        },
        highest_bidder_nft_receiving_account: TokenHolding {
            amount: (pre.highest_bidder_nft_receiving_account.amount
                + pre.exhibitor_nft_temp_account.amount) as u64,
            ..pre.highest_bidder_nft_receiving_account
        },
        escrow_account: EscrowSlot::Destroyed,
        ..pre
    }
}

/// Settle an expired auction on the timed path: the recorded highest bidder
/// pays the committed price to the exhibitor, receives the escrowed asset
/// from custody under the derived custodian's authority, and the custody
/// holding and the record are destroyed.
pub fn close(ctx: &mut Close) -> (r: Result<(), AuctionError>)
    requires
        !old(ctx).exhibitor_nft_temp_account.closed,
        !old(ctx).highest_bidder_nft_receiving_account.closed,
        close_check(*old(ctx)) is None ==> old(ctx).exhibitor_lamports + crate::state::record_of(
            old(ctx).escrow_account,
        ).price <= u64::MAX,
        close_check(*old(ctx)) is None ==> old(ctx).highest_bidder_nft_receiving_account.amount
            + old(ctx).exhibitor_nft_temp_account.amount <= u64::MAX,
    ensures
        r == verdict(close_check(*old(ctx))),
        close_check(*old(ctx)) is None ==> *final(ctx) == close_apply(*old(ctx)),
        close_check(*old(ctx)) is Some ==> *final(ctx) == *old(ctx),
        r is Ok ==> (old(ctx).escrow_account matches EscrowSlot::Active(a)
            && old(ctx).now >= a.end_at
            && a.highest_bidder_pubkey == old(ctx).winning_bidder
            && final(ctx).exhibitor_lamports == old(ctx).exhibitor_lamports + a.price
            && final(ctx).winning_bidder_lamports == old(ctx).winning_bidder_lamports - a.price
            && final(ctx).highest_bidder_nft_receiving_account.amount == old(
                ctx,
            ).highest_bidder_nft_receiving_account.amount + old(
                ctx,
            ).exhibitor_nft_temp_account.amount
            && final(ctx).exhibitor_nft_temp_account.closed
            && final(ctx).escrow_account is Destroyed),
{
    let a = match ctx.escrow_account {
        EscrowSlot::Active(a) => a,
        _ => {
            return Err(AuctionError::StateLifecycleError);
        },
    };
    if !ctx.winning_bidder_signed {
        return Err(AuctionError::AuthenticationError);
    }
    if a.exhibitor_pubkey != ctx.exhibitor {
        return Err(AuctionError::IdentityMismatchError);
    }
    if a.exhibiting_nft_temp_pubkey != ctx.exhibitor_nft_temp_account.key {
        return Err(AuctionError::IdentityMismatchError);
    }
    let cust = match derive_custodian(&ctx.program_id) {
        Some(p) => p.0,
        None => {
            return Err(AuctionError::IdentityMismatchError);
        },
    };
    if ctx.exhibitor_nft_temp_account.owner != cust {
        return Err(AuctionError::IdentityMismatchError);
    }
    if a.highest_bidder_pubkey != ctx.winning_bidder {
        return Err(AuctionError::IdentityMismatchError);
    }
    if ctx.now < a.end_at {
        return Err(AuctionError::TimeWindowError);
    }
    if ctx.winning_bidder_lamports < a.price {
        return Err(AuctionError::InsufficientBalanceError);
    }
    ctx.winning_bidder_lamports = ctx.winning_bidder_lamports - a.price;
    ctx.exhibitor_lamports = ctx.exhibitor_lamports + a.price;
    ctx.highest_bidder_nft_receiving_account.amount =
        ctx.highest_bidder_nft_receiving_account.amount + ctx.exhibitor_nft_temp_account.amount;
    ctx.exhibitor_nft_temp_account.amount = 0;
    ctx.exhibitor_nft_temp_account.closed = true;
    ctx.escrow_account = EscrowSlot::Destroyed;
    Ok(())
}

/// The accounts and proofs submitted with a buy-now settlement: the same
/// shape as the timed path.
#[derive(Clone, Copy, Debug, PartialEq, Eq, Structural)]
pub struct Closenft {
    pub winning_bidder: AccountId,
    pub winning_bidder_signed: bool,
    pub winning_bidder_lamports: u64,
    pub exhibitor: AccountId,
    pub exhibitor_lamports: u64,
    pub exhibitor_nft_temp_account: TokenHolding,
    pub highest_bidder_nft_receiving_account: TokenHolding,
    pub escrow_account: EscrowSlot,
    pub now: i64,
    pub program_id: AccountId,
}

/// The ordered guards of `closenft`: the same guards as the timed path,
/// except that there is no expiry guard — the buy-now path may settle
/// before the auction window has expired — and the amount owed is the
/// stored fixed price.
pub open spec fn closenft_check(pre: Closenft) -> Option<AuctionError> {
    match pre.escrow_account {
        EscrowSlot::Active(a) => if !pre.winning_bidder_signed {
            Some(AuctionError::AuthenticationError)
        } else if a.exhibitor_pubkey != pre.exhibitor {
            Some(AuctionError::IdentityMismatchError)
        } else if a.exhibiting_nft_temp_pubkey != pre.exhibitor_nft_temp_account.key {
            Some(AuctionError::IdentityMismatchError)
        } else if (match custodian_of(pre.program_id) {
            Some(cust) => pre.exhibitor_nft_temp_account.owner != cust.0,
            None => true,
        }) {
            Some(AuctionError::IdentityMismatchError)
        } else if a.highest_bidder_pubkey != pre.winning_bidder {
            Some(AuctionError::IdentityMismatchError)
        } else if pre.winning_bidder_lamports < a.sell_price {
            Some(AuctionError::InsufficientBalanceError)
        } else {
            None
        },
        _ => Some(AuctionError::StateLifecycleError),
    }
}

/// The state after an accepted buy-now settlement: identical to the timed
/// path except that the amount transferred is the stored fixed price.
pub open spec fn closenft_apply(pre: Closenft) -> Closenft {
    let a = crate::state::record_of(pre.escrow_account);
    Closenft {
        winning_bidder_lamports: (pre.winning_bidder_lamports - a.sell_price) as u64,
        exhibitor_lamports: (pre.exhibitor_lamports + a.sell_price) as u64,
        exhibitor_nft_temp_account: TokenHolding {
            amount: 0,
            closed: true,
            ..pre.exhibitor_nft_temp_account
        },
        highest_bidder_nft_receiving_account: TokenHolding {
            amount: (pre.highest_bidder_nft_receiving_account.amount
                + pre.exhibitor_nft_temp_account.amount) as u64,
            ..pre.highest_bidder_nft_receiving_account
        },
        escrow_account: EscrowSlot::Destroyed,
        ..pre
    }
}

/// Settle on the buy-now path: the recorded highest bidder pays the stored
/// fixed price to the exhibitor and receives the escrowed asset, regardless
/// of whether the auction window has expired. The custody holding and the
/// record are destroyed.
pub fn closenft(ctx: &mut Closenft) -> (r: Result<(), AuctionError>)
    requires
        !old(ctx).exhibitor_nft_temp_account.closed,
        !old(ctx).highest_bidder_nft_receiving_account.closed,
        closenft_check(*old(ctx)) is None ==> old(ctx).exhibitor_lamports
            + crate::state::record_of(old(ctx).escrow_account).sell_price <= u64::MAX,
        closenft_check(*old(ctx)) is None ==> old(ctx).highest_bidder_nft_receiving_account.amount
            + old(ctx).exhibitor_nft_temp_account.amount <= u64::MAX,
    ensures
        r == verdict(closenft_check(*old(ctx))),
        closenft_check(*old(ctx)) is None ==> *final(ctx) == closenft_apply(*old(ctx)),
        closenft_check(*old(ctx)) is Some ==> *final(ctx) == *old(ctx),
        r is Ok ==> (old(ctx).escrow_account matches EscrowSlot::Active(a)
            && a.highest_bidder_pubkey == old(ctx).winning_bidder
            && final(ctx).exhibitor_lamports == old(ctx).exhibitor_lamports + a.sell_price
            && final(ctx).winning_bidder_lamports == old(ctx).winning_bidder_lamports
                - a.sell_price
            && final(ctx).highest_bidder_nft_receiving_account.amount == old(
                ctx,
            ).highest_bidder_nft_receiving_account.amount + old(
                ctx,
            ).exhibitor_nft_temp_account.amount
            && final(ctx).exhibitor_nft_temp_account.closed
            && final(ctx).escrow_account is Destroyed),
{
    let a = match ctx.escrow_account {
        EscrowSlot::Active(a) => a,
        _ => {
            return Err(AuctionError::StateLifecycleError);
        },
    };
    if !ctx.winning_bidder_signed {
        return Err(AuctionError::AuthenticationError);
    }
    if a.exhibitor_pubkey != ctx.exhibitor {
        return Err(AuctionError::IdentityMismatchError);
    }
    if a.exhibiting_nft_temp_pubkey != ctx.exhibitor_nft_temp_account.key {
        return Err(AuctionError::IdentityMismatchError);
    }
    let cust = match derive_custodian(&ctx.program_id) {
        Some(p) => p.0,
        None => {
            return Err(AuctionError::IdentityMismatchError);
        },
    };
    if ctx.exhibitor_nft_temp_account.owner != cust {
        return Err(AuctionError::IdentityMismatchError);
    }
    if a.highest_bidder_pubkey != ctx.winning_bidder {
        return Err(AuctionError::IdentityMismatchError);
    }
    if ctx.winning_bidder_lamports < a.sell_price {
        return Err(AuctionError::InsufficientBalanceError);
    }
    ctx.winning_bidder_lamports = ctx.winning_bidder_lamports - a.sell_price;
    ctx.exhibitor_lamports = ctx.exhibitor_lamports + a.sell_price;
    ctx.highest_bidder_nft_receiving_account.amount =
        ctx.highest_bidder_nft_receiving_account.amount + ctx.exhibitor_nft_temp_account.amount;
    ctx.exhibitor_nft_temp_account.amount = 0;
    ctx.exhibitor_nft_temp_account.closed = true;
    ctx.escrow_account = EscrowSlot::Destroyed;
    Ok(())
}

} // verus!
