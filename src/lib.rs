//! An escrow-based Dutch auction: a seller locks a lot of one token and offers
//! it at a price that decays linearly over a time window; a buyer takes the
//! whole lot at the current price, or the seller takes it back before the
//! auction starts.
//!
//! The library holds the auction's decisions. Each instruction handler checks
//! its accounts and arguments, computes the price and the payment, updates the
//! book of live auctions and returns the token movements that the host must
//! perform, in order, within the same atomic transaction.

pub mod error;
pub mod instructions;
pub mod pricing;
pub mod state;

pub use error::{AuctionError, InstructionError};
pub use instructions::{buy, cancel, init, BuyCtx, CancelCtx, InitCtx};
pub use pricing::{buy_amount, current_price};
pub use state::{Auction, Book, Effect, MintInfo, Pubkey, TokenAccountInfo};
