//! A custodial escrow protocol for a single-asset, dual-mode auction.
//!
//! A seller deposits one unit of a transferable asset into a custody holding
//! controlled by a protocol-derived identity. Other parties then compete
//! either by ascending bids settled after a fixed expiry, or by an instant
//! fixed-price purchase that may settle before expiry. Every mutating
//! operation is guarded by an explicit, ordered sequence of preconditions;
//! a failed guard rejects the whole operation and leaves all state untouched.

mod error;
mod identity;
mod laws;
mod ops;
mod state;

pub use error::AuctionError;
pub use laws::BidCall;
pub use laws::bid_ctx;
pub use laws::bid_step;
pub use laws::lemma_bid_error_cases;
pub use laws::lemma_bid_step;
pub use laws::lemma_buynft_step;
pub use laws::lemma_cancel_only_uncontested;
pub use laws::lemma_close_gate;
pub use laws::lemma_closenft_ignores_time;
pub use laws::lemma_destroyed_rejects;
pub use laws::lemma_run_bids_monotonic;
pub use laws::lemma_run_bids_stay_contested;
pub use laws::run_bids;
pub use ops::Bid;
pub use ops::Buynft;
pub use ops::Cancel;
pub use ops::Close;
pub use ops::Closenft;
pub use ops::Exhibit;
pub use ops::bid;
pub use ops::bid_apply;
pub use ops::bid_check;
pub use ops::buynft;
pub use ops::buynft_apply;
pub use ops::buynft_check;
pub use ops::cancel;
pub use ops::cancel_apply;
pub use ops::cancel_check;
pub use ops::close;
pub use ops::close_apply;
pub use ops::close_check;
pub use ops::closenft;
pub use ops::closenft_apply;
pub use ops::closenft_check;
pub use ops::exhibit;
pub use ops::exhibit_apply;
pub use ops::exhibit_check;
pub use ops::verdict;
pub use identity::AccountId;
pub use identity::custodian_of;
pub use identity::derive_custodian;
pub use state::Auction;
pub use state::EscrowSlot;
pub use state::TokenHolding;
pub use state::contested;
pub use state::record_of;
