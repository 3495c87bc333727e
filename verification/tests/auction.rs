use anchor_auction::AccountId;
use anchor_auction::AuctionError;
use anchor_auction::Bid;
use anchor_auction::Buynft;
use anchor_auction::Cancel;
use anchor_auction::Close;
use anchor_auction::Closenft;
use anchor_auction::EscrowSlot;
use anchor_auction::Exhibit;
use anchor_auction::TokenHolding;
use anchor_auction::bid;
use anchor_auction::buynft;
use anchor_auction::cancel;
use anchor_auction::close;
use anchor_auction::closenft;
use anchor_auction::derive_custodian;
use anchor_auction::exhibit;

fn aid(n: u64) -> AccountId {
    AccountId { w0: n, w1: 0, w2: 0, w3: 0 }
}

fn holding(key: AccountId, owner: AccountId, amount: u64) -> TokenHolding {
    TokenHolding { key, owner, amount, closed: false }
}

/// A freshly exhibited auction: initial price 100, duration 3600 starting
/// at time 1000, buy-now price 500, seller identity 1, program identity 99.
fn exhibited() -> Exhibit {
    let exhibitor = aid(1);
    let mut ctx = Exhibit {
        exhibitor,
        exhibitor_signed: true,
        exhibitor_nft_token_account: holding(aid(10), exhibitor, 1),
        exhibitor_nft_temp_account: holding(aid(11), exhibitor, 0),
        escrow_account: EscrowSlot::Uninitialized,
        now: 1_000,
        program_id: aid(99),
    };
    assert_eq!(exhibit(&mut ctx, 100, 3_600, 500), Ok(()));
    ctx
}

fn bid_ctx_for(ex: &Exhibit, bidder: AccountId, current_highest: AccountId, now: i64) -> Bid {
    Bid {
        bidder,
        bidder_signed: true,
        bidder_lamports: 1_000,
        highest_bidder: current_highest,
        escrow_account: ex.escrow_account,
        now,
    }
}

#[test]
fn exhibit_populates_record() {
    let ctx = exhibited();
    match ctx.escrow_account {
        EscrowSlot::Active(a) => {
            assert_eq!(a.exhibitor_pubkey, aid(1));
            assert_eq!(a.highest_bidder_pubkey, aid(1));
            assert_eq!(a.price, 100);
            assert_eq!(a.sell_price, 500);
            assert_eq!(a.end_at, 4_600);
            assert_eq!(a.exhibiting_nft_temp_pubkey, aid(11));
        }
        _ => panic!("record should be active"),
    }
    assert_eq!(ctx.exhibitor_nft_token_account.amount, 0);
    assert_eq!(ctx.exhibitor_nft_temp_account.amount, 1);
}

#[test]
fn exhibit_installs_derived_custodian() {
    let ctx = exhibited();
    let (cust, _bump) = derive_custodian(&aid(99)).unwrap();
    assert_eq!(ctx.exhibitor_nft_temp_account.owner, cust);
}

#[test]
fn custodian_derivation_is_deterministic_and_moves() {
    let pid = aid(7);
    let first = derive_custodian(&pid);
    let second = derive_custodian(&pid);
    assert_eq!(first, second);
    let (cust, _bump) = first.unwrap();
    assert_ne!(cust, pid);
}

#[test]
fn exhibit_rejects_occupied_slot() {
    let done = exhibited();
    let mut again = Exhibit {
        escrow_account: done.escrow_account,
        exhibitor_nft_token_account: holding(aid(20), aid(1), 1),
        exhibitor_nft_temp_account: holding(aid(21), aid(1), 0),
        ..done
    };
    assert_eq!(exhibit(&mut again, 100, 3_600, 500), Err(AuctionError::StateLifecycleError));
}

#[test]
fn exhibit_rejects_unsigned() {
    let exhibitor = aid(1);
    let mut ctx = Exhibit {
        exhibitor,
        exhibitor_signed: false,
        exhibitor_nft_token_account: holding(aid(10), exhibitor, 1),
        exhibitor_nft_temp_account: holding(aid(11), exhibitor, 0),
        escrow_account: EscrowSlot::Uninitialized,
        now: 1_000,
        program_id: aid(99),
    };
    assert_eq!(exhibit(&mut ctx, 100, 3_600, 500), Err(AuctionError::AuthenticationError));
    assert_eq!(ctx.escrow_account, EscrowSlot::Uninitialized);
}

#[test]
fn exhibit_rejects_source_without_exactly_one_unit() {
    let exhibitor = aid(1);
    let mut ctx = Exhibit {
        exhibitor,
        exhibitor_signed: true,
        exhibitor_nft_token_account: holding(aid(10), exhibitor, 2),
        exhibitor_nft_temp_account: holding(aid(11), exhibitor, 0),
        escrow_account: EscrowSlot::Uninitialized,
        now: 1_000,
        program_id: aid(99),
    };
    assert_eq!(exhibit(&mut ctx, 100, 3_600, 500), Err(AuctionError::InsufficientBalanceError));
}

#[test]
fn exhibit_rejects_source_owned_by_other() {
    let exhibitor = aid(1);
    let mut ctx = Exhibit {
        exhibitor,
        exhibitor_signed: true,
        exhibitor_nft_token_account: holding(aid(10), aid(2), 1),
        exhibitor_nft_temp_account: holding(aid(11), exhibitor, 0),
        escrow_account: EscrowSlot::Uninitialized,
        now: 1_000,
        program_id: aid(99),
    };
    assert_eq!(exhibit(&mut ctx, 100, 3_600, 500), Err(AuctionError::IdentityMismatchError));
}

#[test]
fn bid_rejects_price_not_strictly_greater() {
    let ex = exhibited();
    let mut b = bid_ctx_for(&ex, aid(2), aid(1), 2_000);
    assert_eq!(bid(&mut b, 100), Err(AuctionError::PriceOrderingError));
    assert_eq!(b.escrow_account, ex.escrow_account);
    assert_eq!(bid(&mut b, 99), Err(AuctionError::PriceOrderingError));
}

#[test]
fn bid_rejects_expired_window() {
    let ex = exhibited();
    let mut b = bid_ctx_for(&ex, aid(2), aid(1), 4_600);
    assert_eq!(bid(&mut b, 150), Err(AuctionError::TimeWindowError));
}

#[test]
fn bid_rejects_current_highest_bidder() {
    let ex = exhibited();
    let mut b = bid_ctx_for(&ex, aid(2), aid(1), 2_000);
    assert_eq!(bid(&mut b, 150), Ok(()));
    let mut again = Bid { highest_bidder: aid(2), ..b };
    assert_eq!(bid(&mut again, 200), Err(AuctionError::DuplicateBidderError));
}

#[test]
fn bid_rejects_unsigned() {
    let ex = exhibited();
    let mut b = Bid { bidder_signed: false, ..bid_ctx_for(&ex, aid(2), aid(1), 2_000) };
    assert_eq!(bid(&mut b, 150), Err(AuctionError::AuthenticationError));
}

#[test]
fn bid_rejects_underfunded_bidder() {
    let ex = exhibited();
    let mut b = Bid { bidder_lamports: 149, ..bid_ctx_for(&ex, aid(2), aid(1), 2_000) };
    assert_eq!(bid(&mut b, 150), Err(AuctionError::InsufficientBalanceError));
}

#[test]
fn bid_rejects_stale_highest_bidder() {
    let ex = exhibited();
    let mut b = bid_ctx_for(&ex, aid(2), aid(3), 2_000);
    assert_eq!(bid(&mut b, 150), Err(AuctionError::IdentityMismatchError));
}

#[test]
fn timed_auction_settles_at_committed_price() {
    let ex = exhibited();
    let exhibitor = aid(1);
    let b1 = aid(2);
    let b2 = aid(3);

    let mut first = bid_ctx_for(&ex, b1, exhibitor, 2_000);
    assert_eq!(bid(&mut first, 150), Ok(()));

    let mut equal = Bid {
        bidder: b2,
        highest_bidder: b1,
        escrow_account: first.escrow_account,
        ..first
    };
    assert_eq!(bid(&mut equal, 150), Err(AuctionError::PriceOrderingError));
    assert_eq!(equal.escrow_account, first.escrow_account);

    let mut raise = equal;
    assert_eq!(bid(&mut raise, 200), Ok(()));
    match raise.escrow_account {
        EscrowSlot::Active(a) => {
            assert_eq!(a.price, 200);
            assert_eq!(a.highest_bidder_pubkey, b2);
        }
        _ => panic!("record should be active"),
    }

    let mut settle = Close {
        winning_bidder: b2,
        winning_bidder_signed: true,
        winning_bidder_lamports: 1_000,
        exhibitor,
        exhibitor_lamports: 50,
        exhibitor_nft_temp_account: ex.exhibitor_nft_temp_account,
        highest_bidder_nft_receiving_account: holding(aid(12), b2, 0),
        escrow_account: raise.escrow_account,
        now: 5_000,
        program_id: aid(99),
    };
    assert_eq!(close(&mut settle), Ok(()));
    assert_eq!(settle.exhibitor_lamports, 250);
    assert_eq!(settle.winning_bidder_lamports, 800);
    assert_eq!(settle.highest_bidder_nft_receiving_account.amount, 1);
    assert_eq!(settle.exhibitor_nft_temp_account.amount, 0);
    assert!(settle.exhibitor_nft_temp_account.closed);
    assert_eq!(settle.escrow_account, EscrowSlot::Destroyed);
}

#[test]
fn close_rejects_before_expiry() {
    let ex = exhibited();
    let mut b = bid_ctx_for(&ex, aid(2), aid(1), 2_000);
    assert_eq!(bid(&mut b, 150), Ok(()));
    let mut settle = Close {
        winning_bidder: aid(2),
        winning_bidder_signed: true,
        winning_bidder_lamports: 1_000,
        exhibitor: aid(1),
        exhibitor_lamports: 0,
        exhibitor_nft_temp_account: ex.exhibitor_nft_temp_account,
        highest_bidder_nft_receiving_account: holding(aid(12), aid(2), 0),
        escrow_account: b.escrow_account,
        now: 3_000,
        program_id: aid(99),
    };
    let before = settle;
    assert_eq!(close(&mut settle), Err(AuctionError::TimeWindowError));
    assert_eq!(settle, before);
}

#[test]
fn close_rejects_caller_other_than_highest_bidder() {
    let ex = exhibited();
    let mut b = bid_ctx_for(&ex, aid(2), aid(1), 2_000);
    assert_eq!(bid(&mut b, 150), Ok(()));
    let mut settle = Close {
        winning_bidder: aid(3),
        winning_bidder_signed: true,
        winning_bidder_lamports: 1_000,
        exhibitor: aid(1),
        exhibitor_lamports: 0,
        exhibitor_nft_temp_account: ex.exhibitor_nft_temp_account,
        highest_bidder_nft_receiving_account: holding(aid(12), aid(3), 0),
        escrow_account: b.escrow_account,
        now: 5_000,
        program_id: aid(99),
    };
    assert_eq!(close(&mut settle), Err(AuctionError::IdentityMismatchError));
}

#[test]
fn buy_now_settles_before_expiry_at_fixed_price() {
    let ex = exhibited();
    let exhibitor = aid(1);
    let b1 = aid(2);

    let mut intent = Buynft {
        bidder: b1,
        bidder_signed: true,
        bidder_lamports: 1_000,
        highest_bidder: exhibitor,
        escrow_account: ex.escrow_account,
        now: 2_000,
    };
    assert_eq!(buynft(&mut intent, 500), Ok(()));
    match intent.escrow_account {
        EscrowSlot::Active(a) => {
            assert_eq!(a.highest_bidder_pubkey, b1);
            assert_eq!(a.sell_price, 500);
            assert_eq!(a.price, 100);
        }
        _ => panic!("record should be active"),
    }

    let mut settle = Closenft {
        winning_bidder: b1,
        winning_bidder_signed: true,
        winning_bidder_lamports: 600,
        exhibitor,
        exhibitor_lamports: 50,
        exhibitor_nft_temp_account: ex.exhibitor_nft_temp_account,
        highest_bidder_nft_receiving_account: holding(aid(12), b1, 0),
        escrow_account: intent.escrow_account,
        now: 3_000,
        program_id: aid(99),
    };
    assert_eq!(closenft(&mut settle), Ok(()));
    assert_eq!(settle.exhibitor_lamports, 550);
    assert_eq!(settle.winning_bidder_lamports, 100);
    assert_eq!(settle.highest_bidder_nft_receiving_account.amount, 1);
    assert!(settle.exhibitor_nft_temp_account.closed);
    assert_eq!(settle.escrow_account, EscrowSlot::Destroyed);
}

#[test]
fn buynft_rejects_wrong_echoed_price() {
    let ex = exhibited();
    let mut intent = Buynft {
        bidder: aid(2),
        bidder_signed: true,
        bidder_lamports: 1_000,
        highest_bidder: aid(1),
        escrow_account: ex.escrow_account,
        now: 2_000,
    };
    assert_eq!(buynft(&mut intent, 400), Err(AuctionError::PriceOrderingError));
    assert_eq!(intent.escrow_account, ex.escrow_account);
}

#[test]
fn buynft_rejects_expired_window() {
    let ex = exhibited();
    let mut intent = Buynft {
        bidder: aid(2),
        bidder_signed: true,
        bidder_lamports: 1_000,
        highest_bidder: aid(1),
        escrow_account: ex.escrow_account,
        now: 4_600,
    };
    assert_eq!(buynft(&mut intent, 500), Err(AuctionError::TimeWindowError));
}

#[test]
fn cancel_succeeds_while_uncontested() {
    let ex = exhibited();
    let mut c = Cancel {
        exhibitor: aid(1),
        exhibitor_signed: true,
        exhibitor_nft_token_account: ex.exhibitor_nft_token_account,
        exhibitor_nft_temp_account: ex.exhibitor_nft_temp_account,
        escrow_account: ex.escrow_account,
        program_id: aid(99),
    };
    assert_eq!(cancel(&mut c), Ok(()));
    assert_eq!(c.exhibitor_nft_token_account.amount, 1);
    assert_eq!(c.exhibitor_nft_temp_account.amount, 0);
    assert!(c.exhibitor_nft_temp_account.closed);
    assert_eq!(c.escrow_account, EscrowSlot::Destroyed);
}

#[test]
fn cancel_fails_once_contested() {
    let ex = exhibited();
    let mut b = bid_ctx_for(&ex, aid(2), aid(1), 2_000);
    assert_eq!(bid(&mut b, 150), Ok(()));
    let mut c = Cancel {
        exhibitor: aid(1),
        exhibitor_signed: true,
        exhibitor_nft_token_account: ex.exhibitor_nft_token_account,
        exhibitor_nft_temp_account: ex.exhibitor_nft_temp_account,
        escrow_account: b.escrow_account,
        program_id: aid(99),
    };
    let before = c;
    assert_eq!(cancel(&mut c), Err(AuctionError::StateLifecycleError));
    assert_eq!(c, before);
}

#[test]
fn cancel_fails_after_buy_now_intent() {
    let ex = exhibited();
    let mut intent = Buynft {
        bidder: aid(2),
        bidder_signed: true,
        bidder_lamports: 1_000,
        highest_bidder: aid(1),
        escrow_account: ex.escrow_account,
        now: 2_000,
    };
    assert_eq!(buynft(&mut intent, 500), Ok(()));
    let mut c = Cancel {
        exhibitor: aid(1),
        exhibitor_signed: true,
        exhibitor_nft_token_account: ex.exhibitor_nft_token_account,
        exhibitor_nft_temp_account: ex.exhibitor_nft_temp_account,
        escrow_account: intent.escrow_account,
        program_id: aid(99),
    };
    assert_eq!(cancel(&mut c), Err(AuctionError::StateLifecycleError));
}

#[test]
fn cancel_rejects_wrong_exhibitor() {
    let ex = exhibited();
    let mut c = Cancel {
        exhibitor: aid(5),
        exhibitor_signed: true,
        exhibitor_nft_token_account: ex.exhibitor_nft_token_account,
        exhibitor_nft_temp_account: ex.exhibitor_nft_temp_account,
        escrow_account: ex.escrow_account,
        program_id: aid(99),
    };
    assert_eq!(cancel(&mut c), Err(AuctionError::IdentityMismatchError));
}

#[test]
fn cancel_rejects_custody_under_wrong_authority() {
    let ex = exhibited();
    let mut c = Cancel {
        exhibitor: aid(1),
        exhibitor_signed: true,
        exhibitor_nft_token_account: ex.exhibitor_nft_token_account,
        exhibitor_nft_temp_account: TokenHolding {
            owner: aid(1),
            ..ex.exhibitor_nft_temp_account
        },
        escrow_account: ex.escrow_account,
        program_id: aid(99),
    };
    assert_eq!(cancel(&mut c), Err(AuctionError::IdentityMismatchError));
}

#[test]
fn replay_after_settlement_fails_without_effects() {
    let ex = exhibited();
    let b1 = aid(2);
    let mut intent = Buynft {
        bidder: b1,
        bidder_signed: true,
        bidder_lamports: 1_000,
        highest_bidder: aid(1),
        escrow_account: ex.escrow_account,
        now: 2_000,
    };
    assert_eq!(buynft(&mut intent, 500), Ok(()));
    let mut settle = Closenft {
        winning_bidder: b1,
        winning_bidder_signed: true,
        winning_bidder_lamports: 600,
        exhibitor: aid(1),
        exhibitor_lamports: 0,
        exhibitor_nft_temp_account: ex.exhibitor_nft_temp_account,
        highest_bidder_nft_receiving_account: holding(aid(12), b1, 0),
        escrow_account: intent.escrow_account,
        now: 3_000,
        program_id: aid(99),
    };
    assert_eq!(closenft(&mut settle), Ok(()));
    let after = settle;
    assert_eq!(closenft(&mut settle), Err(AuctionError::StateLifecycleError));
    assert_eq!(settle, after);
    let mut replay_bid = Bid {
        bidder: aid(3),
        bidder_signed: true,
        bidder_lamports: 1_000,
        highest_bidder: b1,
        escrow_account: settle.escrow_account,
        now: 3_000,
    };
    assert_eq!(bid(&mut replay_bid, 900), Err(AuctionError::StateLifecycleError));
    let mut replay_cancel = Cancel {
        exhibitor: aid(1),
        exhibitor_signed: true,
        exhibitor_nft_token_account: ex.exhibitor_nft_token_account,
        exhibitor_nft_temp_account: ex.exhibitor_nft_temp_account,
        escrow_account: settle.escrow_account,
        program_id: aid(99),
    };
    assert_eq!(cancel(&mut replay_cancel), Err(AuctionError::StateLifecycleError));
}

#[test]
fn replay_cancel_after_cancel_fails() {
    let ex = exhibited();
    let mut c = Cancel {
        exhibitor: aid(1),
        exhibitor_signed: true,
        exhibitor_nft_token_account: ex.exhibitor_nft_token_account,
        exhibitor_nft_temp_account: ex.exhibitor_nft_temp_account,
        escrow_account: ex.escrow_account,
        program_id: aid(99),
    };
    assert_eq!(cancel(&mut c), Ok(()));
    let restored = TokenHolding { closed: false, ..c.exhibitor_nft_temp_account };
    let mut again = Cancel {
        exhibitor_nft_temp_account: restored,
        ..c
    };
    assert_eq!(cancel(&mut again), Err(AuctionError::StateLifecycleError));
}

#[test]
fn prices_strictly_increase_across_bids() {
    let ex = exhibited();
    let mut b = bid_ctx_for(&ex, aid(2), aid(1), 2_000);
    assert_eq!(bid(&mut b, 150), Ok(()));
    let mut prev = aid(2);
    let mut price = 150u64;
    for (who, next) in [(aid(3), 151u64), (aid(4), 300), (aid(2), 301)] {
        let mut step = Bid {
            bidder: who,
            highest_bidder: prev,
            ..b
        };
        step.escrow_account = b.escrow_account;
        assert_eq!(bid(&mut step, next), Ok(()));
        match step.escrow_account {
            EscrowSlot::Active(a) => {
                assert!(a.price > price);
                assert_eq!(a.highest_bidder_pubkey, who);
                assert_ne!(a.highest_bidder_pubkey, prev);
            }
            _ => panic!("record should be active"),
        }
        b.escrow_account = step.escrow_account;
        prev = who;
        price = next;
    }
}

#[test]
fn bid_rejects_uninitialized_slot() {
    let mut b = Bid {
        bidder: aid(2),
        bidder_signed: true,
        bidder_lamports: 1_000,
        highest_bidder: aid(1),
        escrow_account: EscrowSlot::Uninitialized,
        now: 2_000,
    };
    assert_eq!(bid(&mut b, 150), Err(AuctionError::StateLifecycleError));
}

#[test]
fn close_rejects_wrong_custody_holding() {
    let ex = exhibited();
    let mut b = bid_ctx_for(&ex, aid(2), aid(1), 2_000);
    assert_eq!(bid(&mut b, 150), Ok(()));
    let mut settle = Close {
        winning_bidder: aid(2),
        winning_bidder_signed: true,
        winning_bidder_lamports: 1_000,
        exhibitor: aid(1),
        exhibitor_lamports: 0,
        exhibitor_nft_temp_account: TokenHolding {
            key: aid(42),
            ..ex.exhibitor_nft_temp_account
        },
        highest_bidder_nft_receiving_account: holding(aid(12), aid(2), 0),
        escrow_account: b.escrow_account,
        now: 5_000,
        program_id: aid(99),
    };
    assert_eq!(close(&mut settle), Err(AuctionError::IdentityMismatchError));
}

#[test]
fn bid_rejects_exhibitor_taking_back_the_role() {
    let ex = exhibited();
    let exhibitor = aid(1);
    let mut fresh = bid_ctx_for(&ex, exhibitor, exhibitor, 2_000);
    assert_eq!(bid(&mut fresh, 150), Err(AuctionError::DuplicateBidderError));

    let mut b = bid_ctx_for(&ex, aid(2), exhibitor, 2_000);
    assert_eq!(bid(&mut b, 150), Ok(()));
    let mut rebid = Bid {
        bidder: exhibitor,
        highest_bidder: aid(2),
        escrow_account: b.escrow_account,
        ..b
    };
    assert_eq!(bid(&mut rebid, 200), Err(AuctionError::DuplicateBidderError));
    assert_eq!(rebid.escrow_account, b.escrow_account);

    let mut c = Cancel {
        exhibitor,
        exhibitor_signed: true,
        exhibitor_nft_token_account: ex.exhibitor_nft_token_account,
        exhibitor_nft_temp_account: ex.exhibitor_nft_temp_account,
        escrow_account: rebid.escrow_account,
        program_id: aid(99),
    };
    assert_eq!(cancel(&mut c), Err(AuctionError::StateLifecycleError));
}

#[test]
fn buynft_rejects_exhibitor_taking_back_the_role() {
    let ex = exhibited();
    let exhibitor = aid(1);
    let mut b = bid_ctx_for(&ex, aid(2), exhibitor, 2_000);
    assert_eq!(bid(&mut b, 150), Ok(()));
    let mut intent = Buynft {
        bidder: exhibitor,
        bidder_signed: true,
        bidder_lamports: 1_000,
        highest_bidder: aid(2),
        escrow_account: b.escrow_account,
        now: 2_500,
    };
    assert_eq!(buynft(&mut intent, 500), Err(AuctionError::DuplicateBidderError));
    assert_eq!(intent.escrow_account, b.escrow_account);
}
