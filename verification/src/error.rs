use vstd::prelude::*;

verus! {

/// The reason an operation was rejected. Each variant is one family of
/// preconditions; a rejected operation has no observable effect.
#[derive(Clone, Copy, Debug, PartialEq, Eq, Structural)]
pub enum AuctionError {
    /// A required identity did not authenticate the call.
    AuthenticationError,
    /// A supplied account identity does not match the value stored in the
    /// record (wrong custody holding, wrong exhibitor, wrong winner) or the
    /// authority actually installed over a holding.
    IdentityMismatchError,
    /// The caller's spendable balance is below the amount they are committing
    /// to pay, or the source holding does not hold exactly one asset unit.
    InsufficientBalanceError,
    /// A bid does not strictly exceed the current price, or a buy-now
    /// parameter does not match the stored fixed price.
    PriceOrderingError,
    /// The caller is already the recorded highest bidder, or is the
    /// exhibitor, who holds the role by default and may never take it back.
    DuplicateBidderError,
    /// An operation requiring the auction to be open was attempted after
    /// expiry, or one requiring expiry was attempted before it.
    TimeWindowError,
    /// An operation was attempted against an uninitialized or already
    /// destroyed record, or cancellation was attempted after a genuine bid.
    StateLifecycleError,
}

} // verus!
