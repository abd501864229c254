use vstd::prelude::*;

verus! {

/// The auction's own failure codes.
#[derive(Clone, Copy, Debug, PartialEq, Eq, Structural)]
pub enum AuctionError {
    /// Sell token and buy token must be different.
    SameToken,
    /// Start price must be greater than or equal to end price.
    InvalidPrice,
    /// Invalid time range.
    InvalidTime,
    /// Sell amount, or the payment computed for it, must be greater than 0.
    InvalidAmount,
    /// Auction has not started yet.
    AuctionNotStarted,
    /// Auction has ended.
    AuctionEnded,
    /// Price exceeds max price.
    PriceExceedsMax,
    /// Arithmetic overflow.
    Overflow,
    /// The seller may no longer withdraw: the auction has started.
    AuctionAlreadyStarted,
}

/// Why an instruction was rejected as a whole.
#[derive(Clone, Copy, Debug, PartialEq, Eq, Structural)]
pub enum InstructionError {
    /// A failure code of the auction itself.
    Auction(AuctionError),
    /// An account does not satisfy the instruction's identity constraints
    /// (wrong seller, wrong mint, wrong owner).
    ConstraintViolated,
    /// The auction record for this (seller, sell mint) pair already exists.
    AccountInUse,
    /// No auction record exists for this (seller, sell mint) pair.
    AccountNotInitialized,
}

} // verus!
