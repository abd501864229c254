use vstd::prelude::*;

use crate::error::{AuctionError, InstructionError};
use crate::pricing::{
    buy_amount, current_price, decay, decay_starts_at_start_price, decay_stays_above_end_price,
    payment_for, price_at,
};
use crate::state::{book_ok, holds_key, keys_unique, Auction, Book, Effect, MintInfo, Pubkey, TokenAccountInfo};

verus! {

/// The accounts of a creation, as the host hands them over.
#[derive(Clone, Copy, Debug)]
pub struct InitCtx {
    /// The signer who offers the lot.
    pub seller: Pubkey,
    pub sell_mint: MintInfo,
    pub buy_mint: MintInfo,
    /// The record's address, derived from the seller and the sell mint.
    pub auction: Pubkey,
    /// The nonce that the derivation of `auction` found.
    pub bump: u8,
    /// The escrow vault, created for the record, with the record as authority.
    pub auction_sell_ata: Pubkey,
    /// The seller's account of the sell token, which funds the vault.
    pub seller_sell_ata: TokenAccountInfo,
}

/// The accounts of a purchase.
#[derive(Clone, Copy, Debug)]
pub struct BuyCtx {
    /// The signer who pays.
    pub buyer: Pubkey,
    pub seller: Pubkey,
    pub sell_mint: MintInfo,
    pub buy_mint: MintInfo,
    /// The record's address, derived from the seller and the sell mint.
    pub auction: Pubkey,
    pub auction_sell_ata: TokenAccountInfo,
    pub buyer_buy_ata: TokenAccountInfo,
    pub buyer_sell_ata: TokenAccountInfo,
    pub seller_buy_ata: TokenAccountInfo,
}

/// The accounts of a withdrawal by the seller.
#[derive(Clone, Copy, Debug)]
pub struct CancelCtx {
    /// The signer; only the record keyed by this seller can be reached.
    pub seller: Pubkey,
    pub sell_mint: MintInfo,
    /// The record's address, derived from the seller and the sell mint.
    pub auction: Pubkey,
    pub auction_sell_ata: TokenAccountInfo,
    pub seller_sell_ata: TokenAccountInfo,
}

/// The position of the live record keyed by the pair.
pub open spec fn record_index(live: Seq<Auction>, seller: Seq<u8>, sell_mint: Seq<u8>) -> int {
    choose|i: int| 0 <= i < live.len() && live[i].keyed_by(seller, sell_mint)
}

pub open spec fn init_accounts_ok(ctx: InitCtx) -> bool {
    &&& ctx.seller_sell_ata.mint@ == ctx.sell_mint.key@
    &&& ctx.seller_sell_ata.owner@ == ctx.seller@
}

/// Whether creation goes through, and if not, its first failing check.
pub open spec fn init_outcome(
    live: Seq<Auction>,
    ctx: InitCtx,
    now: u64,
    sell_amount: u64,
    start_price: u64,
    end_price: u64,
    start_time: u64,
    end_time: u64,
) -> Result<(), InstructionError> {
    if holds_key(live, ctx.seller@, ctx.sell_mint.key@) {
        Err(InstructionError::AccountInUse)
    } else if !init_accounts_ok(ctx) {
        Err(InstructionError::ConstraintViolated)
    } else if ctx.sell_mint.key@ == ctx.buy_mint.key@ {
        Err(InstructionError::Auction(AuctionError::SameToken))
    } else if start_price < end_price {
        Err(InstructionError::Auction(AuctionError::InvalidPrice))
    } else if !(now <= start_time && start_time < end_time) {
        Err(InstructionError::Auction(AuctionError::InvalidTime))
    } else if sell_amount == 0 {
        Err(InstructionError::Auction(AuctionError::InvalidAmount))
    } else {
        Ok(())
    }
}

/// The record that a successful creation stores.
pub open spec fn created_record(
    ctx: InitCtx,
    sell_amount: u64,
    start_price: u64,
    end_price: u64,
    start_time: u64,
    end_time: u64,
) -> Auction {
    Auction {
        seller: ctx.seller,
        sell_mint: ctx.sell_mint.key,
        buy_mint: ctx.buy_mint.key,
        sell_amount,
        start_price,
        end_price,
        start_time,
        end_time,
        bump: ctx.bump,
    }
}

/// The movement of a successful creation: the lot into the vault.
pub open spec fn init_effects(ctx: InitCtx, sell_amount: u64) -> Seq<Effect> {
    seq![
        Effect::Transfer {
            from: ctx.seller_sell_ata.key,
            to: ctx.auction_sell_ata,
            mint: ctx.sell_mint.key,
            authority: ctx.seller,
            amount: sell_amount,
            decimals: ctx.sell_mint.decimals,
            signed_by_record: false,
        },
    ]
}

/// Creates an auction: checks the accounts and the terms, stores the record
/// and returns the movement of the lot into escrow.
pub fn init(
    book: &mut Book,
    ctx: &InitCtx,
    now: u64,
    sell_amount: u64,
    start_price: u64,
    end_price: u64,
    start_time: u64,
    end_time: u64,
) -> (r: Result<Vec<Effect>, InstructionError>)
    requires
        old(book).wf(),
    ensures
        final(book).wf(),
        match init_outcome(old(book).live@, *ctx, now, sell_amount, start_price, end_price, start_time, end_time) {
            Ok(_) => r is Ok && r->Ok_0@ == init_effects(*ctx, sell_amount) && final(book).live@
                == old(book).live@.push(
                created_record(*ctx, sell_amount, start_price, end_price, start_time, end_time),
            ),
            Err(e) => r == Err::<Vec<Effect>, InstructionError>(e) && final(book).live@ == old(book).live@,
        },
{
    if book.find(&ctx.seller, &ctx.sell_mint.key).is_some() {
        return Err(InstructionError::AccountInUse);
    }
    if !(ctx.seller_sell_ata.mint.same(&ctx.sell_mint.key) && ctx.seller_sell_ata.owner.same(&ctx.seller)) {
        return Err(InstructionError::ConstraintViolated);
    }
    if ctx.sell_mint.key.same(&ctx.buy_mint.key) {
        return Err(InstructionError::Auction(AuctionError::SameToken));
    }
    if start_price < end_price {
        return Err(InstructionError::Auction(AuctionError::InvalidPrice));
    }
    if !(now <= start_time && start_time < end_time) {
        return Err(InstructionError::Auction(AuctionError::InvalidTime));
    }
    if sell_amount == 0 {
        return Err(InstructionError::Auction(AuctionError::InvalidAmount));
    }
    let effects = vec![
        Effect::Transfer {
            from: ctx.seller_sell_ata.key,
            to: ctx.auction_sell_ata,
            mint: ctx.sell_mint.key,
            authority: ctx.seller,
            amount: sell_amount,
            decimals: ctx.sell_mint.decimals,
            signed_by_record: false,
        },
    ];
    let record = Auction {
        seller: ctx.seller,
        sell_mint: ctx.sell_mint.key,
        buy_mint: ctx.buy_mint.key,
        sell_amount,
        start_price,
        end_price,
        start_time,
        end_time,
        bump: ctx.bump,
    };
    book.live.push(record);
    proof {
        let s = book.live@;
        assert(s.last() == record);
        assert forall|i: int, j: int|
            0 <= i < s.len() && 0 <= j < s.len() && i != j implies !s[j].keyed_by(
                s[i].seller@,
                s[i].sell_mint@,
            ) by {
            if i == s.len() - 1 {
                assert(!old(book).live@[j].keyed_by(ctx.seller@, ctx.sell_mint.key@));
            } else if j == s.len() - 1 {
                assert(!old(book).live@[i].keyed_by(ctx.seller@, ctx.sell_mint.key@));
            }
        }
        assert(effects@ =~= init_effects(*ctx, sell_amount));
    }
    Ok(effects)
}

/// Removing an entry keeps a book well formed, and its key leaves the book.
pub proof fn lemma_remove_record(s: Seq<Auction>, i: int)
    requires
        0 <= i < s.len(),
        keys_unique(s),
        forall|k: int| 0 <= k < s.len() ==> s[k].valid(),
    ensures
        keys_unique(s.remove(i)),
        forall|k: int| 0 <= k < s.remove(i).len() ==> s.remove(i)[k].valid(),
        !holds_key(s.remove(i), s[i].seller@, s[i].sell_mint@),
{
    let t = s.remove(i);
    assert forall|a: int, b: int|
        0 <= a < t.len() && 0 <= b < t.len() && a != b implies !t[b].keyed_by(
            t[a].seller@,
            t[a].sell_mint@,
        ) by {
        let a2 = if a < i { a } else { a + 1 };
        let b2 = if b < i { b } else { b + 1 };
        assert(t[a] == s[a2] && t[b] == s[b2]);
    }
    assert forall|k: int| 0 <= k < t.len() implies t[k].valid() by {
        let k2 = if k < i { k } else { k + 1 };
        assert(t[k] == s[k2]);
    }
    if holds_key(t, s[i].seller@, s[i].sell_mint@) {
        let k = choose|k: int| 0 <= k < t.len() && t[k].keyed_by(s[i].seller@, s[i].sell_mint@);
        let k2 = if k < i { k } else { k + 1 };
        assert(t[k] == s[k2]);
    }
}

/// In a book with unique keys, the record keyed by a pair is the one at its
/// position.
proof fn lemma_record_index(s: Seq<Auction>, i: int, seller: Seq<u8>, sell_mint: Seq<u8>)
    requires
        keys_unique(s),
        0 <= i < s.len(),
        s[i].keyed_by(seller, sell_mint),
    ensures
        record_index(s, seller, sell_mint) == i,
{
    let j = record_index(s, seller, sell_mint);
    assert(0 <= j < s.len() && s[j].keyed_by(seller, sell_mint));
}

pub open spec fn buy_accounts_ok(a: Auction, ctx: BuyCtx) -> bool {
    &&& a.buy_mint@ == ctx.buy_mint.key@
    &&& ctx.auction_sell_ata.mint@ == ctx.sell_mint.key@
    &&& ctx.buyer_buy_ata.mint@ == ctx.buy_mint.key@
    &&& ctx.buyer_buy_ata.owner@ == ctx.buyer@
    &&& ctx.buyer_sell_ata.mint@ == ctx.sell_mint.key@
    &&& ctx.buyer_sell_ata.owner@ == ctx.buyer@
    &&& ctx.seller_buy_ata.mint@ == ctx.buy_mint.key@
    &&& ctx.seller_buy_ata.owner@ == ctx.seller@
}

/// Whether a purchase of the record `a` goes through, with the amount of the
/// buy token it costs, or its first failing check.
pub open spec fn buy_terms(a: Auction, ctx: BuyCtx, now: u64, max_price: u64) -> Result<u64, InstructionError> {
    if !buy_accounts_ok(a, ctx) {
        Err(InstructionError::ConstraintViolated)
    } else if now < a.start_time {
        Err(InstructionError::Auction(AuctionError::AuctionNotStarted))
    } else if now >= a.end_time {
        Err(InstructionError::Auction(AuctionError::AuctionEnded))
    } else {
        match price_at(a, now) {
            Err(e) => Err(InstructionError::Auction(e)),
            Ok(price) => if price > max_price {
                Err(InstructionError::Auction(AuctionError::PriceExceedsMax))
            } else {
                match payment_for(a.sell_amount, price, ctx.sell_mint.decimals) {
                    Err(e) => Err(InstructionError::Auction(e)),
                    Ok(amount) => Ok(amount),
                }
            },
        }
    }
}

/// Whether a purchase against the book goes through, and at what cost.
pub open spec fn buy_outcome(live: Seq<Auction>, ctx: BuyCtx, now: u64, max_price: u64) -> Result<u64, InstructionError> {
    if !holds_key(live, ctx.seller@, ctx.sell_mint.key@) {
        Err(InstructionError::AccountNotInitialized)
    } else {
        buy_terms(live[record_index(live, ctx.seller@, ctx.sell_mint.key@)], ctx, now, max_price)
    }
}

/// The movements of a purchase that costs `amount`: the payment to the
/// seller, the lot to the buyer, and the closing of the vault.
pub open spec fn buy_effects(a: Auction, ctx: BuyCtx, amount: u64) -> Seq<Effect> {
    seq![
        Effect::Transfer {
            from: ctx.buyer_buy_ata.key,
            to: ctx.seller_buy_ata.key,
            mint: ctx.buy_mint.key,
            authority: ctx.buyer,
            amount,
            decimals: ctx.buy_mint.decimals,
            signed_by_record: false,
        },
        Effect::Transfer {
            from: ctx.auction_sell_ata.key,
            to: ctx.buyer_sell_ata.key,
            mint: ctx.sell_mint.key,
            authority: ctx.auction,
            amount: a.sell_amount,
            decimals: ctx.sell_mint.decimals,
            signed_by_record: true,
        },
        Effect::CloseAccount {
            account: ctx.auction_sell_ata.key,
            destination: ctx.seller,
            authority: ctx.auction,
        },
    ]
}

/// Buys the whole lot at the current price, if that is at most `max_price`:
/// the record leaves the book and the movements of the sale are returned.
pub fn buy(book: &mut Book, ctx: &BuyCtx, now: u64, max_price: u64) -> (r: Result<Vec<Effect>, InstructionError>)
    requires
        old(book).wf(),
    ensures
        final(book).wf(),
        match buy_outcome(old(book).live@, *ctx, now, max_price) {
            Ok(amount) => {
                let i = record_index(old(book).live@, ctx.seller@, ctx.sell_mint.key@);
                &&& r is Ok
                &&& r->Ok_0@ == buy_effects(old(book).live@[i], *ctx, amount)
                &&& final(book).live@ == old(book).live@.remove(i)
            },
            Err(e) => r == Err::<Vec<Effect>, InstructionError>(e) && final(book).live@ == old(book).live@,
        },
{
    let i = match book.find(&ctx.seller, &ctx.sell_mint.key) {
        Some(i) => i,
        None => return Err(InstructionError::AccountNotInitialized),
    };
    let a = book.live[i];
    proof {
        lemma_record_index(book.live@, i as int, ctx.seller@, ctx.sell_mint.key@);
    }
    if !(a.buy_mint.same(&ctx.buy_mint.key) && ctx.auction_sell_ata.mint.same(&ctx.sell_mint.key)
        && ctx.buyer_buy_ata.mint.same(&ctx.buy_mint.key) && ctx.buyer_buy_ata.owner.same(&ctx.buyer)
        && ctx.buyer_sell_ata.mint.same(&ctx.sell_mint.key) && ctx.buyer_sell_ata.owner.same(&ctx.buyer)
        && ctx.seller_buy_ata.mint.same(&ctx.buy_mint.key) && ctx.seller_buy_ata.owner.same(&ctx.seller)) {
        return Err(InstructionError::ConstraintViolated);
    }
    if now < a.start_time {
        return Err(InstructionError::Auction(AuctionError::AuctionNotStarted));
    }
    if now >= a.end_time {
        return Err(InstructionError::Auction(AuctionError::AuctionEnded));
    }
    let price = match current_price(&a, now) {
        Ok(p) => p,
        Err(e) => return Err(InstructionError::Auction(e)),
    };
    if price > max_price {
        return Err(InstructionError::Auction(AuctionError::PriceExceedsMax));
    }
    let amount = match buy_amount(a.sell_amount, price, ctx.sell_mint.decimals) {
        Ok(v) => v,
        Err(e) => return Err(InstructionError::Auction(e)),
    };
    let effects = vec![
        Effect::Transfer {
            from: ctx.buyer_buy_ata.key,
            to: ctx.seller_buy_ata.key,
            mint: ctx.buy_mint.key,
            authority: ctx.buyer,
            amount,
            decimals: ctx.buy_mint.decimals,
            signed_by_record: false,
        },
        Effect::Transfer {
            from: ctx.auction_sell_ata.key,
            to: ctx.buyer_sell_ata.key,
            mint: ctx.sell_mint.key,
            authority: ctx.auction,
            amount: a.sell_amount,
            decimals: ctx.sell_mint.decimals,
            signed_by_record: true,
        },
        Effect::CloseAccount {
            account: ctx.auction_sell_ata.key,
            destination: ctx.seller,
            authority: ctx.auction,
        },
    ];
    proof {
        lemma_remove_record(book.live@, i as int);
        assert(effects@ =~= buy_effects(a, *ctx, amount));
    }
    book.live.remove(i);
    Ok(effects)
}

pub open spec fn cancel_accounts_ok(ctx: CancelCtx) -> bool {
    &&& ctx.auction_sell_ata.mint@ == ctx.sell_mint.key@
    &&& ctx.seller_sell_ata.mint@ == ctx.sell_mint.key@
    &&& ctx.seller_sell_ata.owner@ == ctx.seller@
}

/// Whether a withdrawal of the record `a` goes through, or its first failing
/// check. A seller may withdraw only before the auction starts.
pub open spec fn cancel_terms(a: Auction, ctx: CancelCtx, now: u64) -> Result<(), InstructionError> {
    if !cancel_accounts_ok(ctx) {
        Err(InstructionError::ConstraintViolated)
    } else if now >= a.start_time {
        Err(InstructionError::Auction(AuctionError::AuctionAlreadyStarted))
    } else {
        Ok(())
    }
}

/// Whether a withdrawal against the book goes through.
pub open spec fn cancel_outcome(live: Seq<Auction>, ctx: CancelCtx, now: u64) -> Result<(), InstructionError> {
    if !holds_key(live, ctx.seller@, ctx.sell_mint.key@) {
        Err(InstructionError::AccountNotInitialized)
    } else {
        cancel_terms(live[record_index(live, ctx.seller@, ctx.sell_mint.key@)], ctx, now)
    }
}

/// The movements of a withdrawal: the lot back to the seller, and the
/// closing of the vault.
pub open spec fn cancel_effects(a: Auction, ctx: CancelCtx) -> Seq<Effect> {
    seq![
        Effect::Transfer {
            from: ctx.auction_sell_ata.key,
            to: ctx.seller_sell_ata.key,
            mint: ctx.sell_mint.key,
            authority: ctx.auction,
            amount: a.sell_amount,
            decimals: ctx.sell_mint.decimals,
            signed_by_record: true,
        },
        Effect::CloseAccount {
            account: ctx.auction_sell_ata.key,
            destination: ctx.seller,
            authority: ctx.auction,
        },
    ]
}

/// The seller takes the lot back before the auction starts: the record
/// leaves the book and the movements of the refund are returned.
pub fn cancel(book: &mut Book, ctx: &CancelCtx, now: u64) -> (r: Result<Vec<Effect>, InstructionError>)
    requires
        old(book).wf(),
    ensures
        final(book).wf(),
        match cancel_outcome(old(book).live@, *ctx, now) {
            Ok(_) => {
                let i = record_index(old(book).live@, ctx.seller@, ctx.sell_mint.key@);
                &&& r is Ok
                &&& r->Ok_0@ == cancel_effects(old(book).live@[i], *ctx)
                &&& final(book).live@ == old(book).live@.remove(i)
            },
            Err(e) => r == Err::<Vec<Effect>, InstructionError>(e) && final(book).live@ == old(book).live@,
        },
{
    let i = match book.find(&ctx.seller, &ctx.sell_mint.key) {
        Some(i) => i,
        None => return Err(InstructionError::AccountNotInitialized),
    };
    let a = book.live[i];
    proof {
        lemma_record_index(book.live@, i as int, ctx.seller@, ctx.sell_mint.key@);
    }
    if !(ctx.auction_sell_ata.mint.same(&ctx.sell_mint.key) && ctx.seller_sell_ata.mint.same(&ctx.sell_mint.key)
        && ctx.seller_sell_ata.owner.same(&ctx.seller)) {
        return Err(InstructionError::ConstraintViolated);
    }
    if now >= a.start_time {
        return Err(InstructionError::Auction(AuctionError::AuctionAlreadyStarted));
    }
    let effects = vec![
        Effect::Transfer {
            from: ctx.auction_sell_ata.key,
            to: ctx.seller_sell_ata.key,
            mint: ctx.sell_mint.key,
            authority: ctx.auction,
            amount: a.sell_amount,
            decimals: ctx.sell_mint.decimals,
            signed_by_record: true,
        },
        Effect::CloseAccount {
            account: ctx.auction_sell_ata.key,
            destination: ctx.seller,
            authority: ctx.auction,
        },
    ];
    proof {
        lemma_remove_record(book.live@, i as int);
        assert(effects@ =~= cancel_effects(a, *ctx));
    }
    book.live.remove(i);
    Ok(effects)
}

/// A purchase at the start of the window charges the lot at the start price:
/// `sell_amount * start_price / 10^decimals`, rounded down, or fails only
/// where that payment is nothing or does not fit 64 bits.
pub proof fn purchase_at_start_charges_start_price(live: Seq<Auction>, ctx: BuyCtx, max_price: u64)
    requires
        book_ok(live),
        holds_key(live, ctx.seller@, ctx.sell_mint.key@),
        buy_accounts_ok(live[record_index(live, ctx.seller@, ctx.sell_mint.key@)], ctx),
        live[record_index(live, ctx.seller@, ctx.sell_mint.key@)].start_price <= max_price,
    ensures
        ({
            let a = live[record_index(live, ctx.seller@, ctx.sell_mint.key@)];
            buy_outcome(live, ctx, a.start_time, max_price) == match payment_for(
                a.sell_amount,
                a.start_price,
                ctx.sell_mint.decimals,
            ) {
                Ok(amount) => Ok(amount),
                Err(e) => Err(InstructionError::Auction(e)),
            }
        }),
{
    let a = live[record_index(live, ctx.seller@, ctx.sell_mint.key@)];
    assert(a.valid());
    decay_starts_at_start_price(a.start_price, a.end_price, a.start_time, a.end_time);
    assert(price_at(a, a.start_time) == Ok::<u64, AuctionError>(a.start_price));
}

/// A purchase whose ceiling is below the current price fails with
/// `PriceExceedsMax`; the book is left as it was and nothing moves.
pub proof fn purchase_above_ceiling_fails(live: Seq<Auction>, ctx: BuyCtx, now: u64, max_price: u64)
    requires
        book_ok(live),
        holds_key(live, ctx.seller@, ctx.sell_mint.key@),
        buy_accounts_ok(live[record_index(live, ctx.seller@, ctx.sell_mint.key@)], ctx),
        ({
            let a = live[record_index(live, ctx.seller@, ctx.sell_mint.key@)];
            &&& a.start_time <= now < a.end_time
            &&& max_price < decay(
                a.start_price as int,
                a.end_price as int,
                a.start_time as int,
                a.end_time as int,
                now as int,
            )
        }),
    ensures
        buy_outcome(live, ctx, now, max_price) == Err::<u64, InstructionError>(
            InstructionError::Auction(AuctionError::PriceExceedsMax),
        ),
{
    let a = live[record_index(live, ctx.seller@, ctx.sell_mint.key@)];
    assert(a.valid());
    decay_stays_above_end_price(a.start_price, a.end_price, a.start_time, a.end_time, now);
    let range = a.start_price - a.end_price;
    let elapsed = now - a.start_time;
    let duration = a.end_time - a.start_time;
    assert(range * elapsed / duration >= 0) by (nonlinear_arith)
        requires
            range >= 0,
            elapsed >= 0,
            duration > 0,
    ;
}

/// Creation with the same token on both sides fails with `SameToken`, and
/// so moves nothing. It is checked once the record's address is free and
/// the seller's account matches the sell mint, as those checks come first.
pub proof fn create_same_token_fails(
    live: Seq<Auction>,
    ctx: InitCtx,
    now: u64,
    sell_amount: u64,
    start_price: u64,
    end_price: u64,
    start_time: u64,
    end_time: u64,
)
    requires
        !holds_key(live, ctx.seller@, ctx.sell_mint.key@),
        init_accounts_ok(ctx),
        ctx.sell_mint.key@ == ctx.buy_mint.key@,
    ensures
        init_outcome(live, ctx, now, sell_amount, start_price, end_price, start_time, end_time)
            == Err::<(), InstructionError>(InstructionError::Auction(AuctionError::SameToken)),
{
}

/// Terms that creation accepts, on accounts that match.
pub open spec fn creation_acceptable(
    ctx: InitCtx,
    now: u64,
    sell_amount: u64,
    start_price: u64,
    end_price: u64,
    start_time: u64,
    end_time: u64,
) -> bool {
    &&& init_accounts_ok(ctx)
    &&& ctx.sell_mint.key@ != ctx.buy_mint.key@
    &&& start_price >= end_price
    &&& now <= start_time < end_time
    &&& sell_amount > 0
}

/// After a successful purchase the record is gone, and the seller can open
/// a fresh auction of the same sell mint.
pub proof fn purchase_frees_the_pair(
    live: Seq<Auction>,
    bctx: BuyCtx,
    now: u64,
    max_price: u64,
    ictx: InitCtx,
    later: u64,
    sell_amount: u64,
    start_price: u64,
    end_price: u64,
    start_time: u64,
    end_time: u64,
)
    requires
        book_ok(live),
        buy_outcome(live, bctx, now, max_price) is Ok,
        ictx.seller@ == bctx.seller@,
        ictx.sell_mint.key@ == bctx.sell_mint.key@,
        creation_acceptable(ictx, later, sell_amount, start_price, end_price, start_time, end_time),
    ensures
        ({
            let after = live.remove(record_index(live, bctx.seller@, bctx.sell_mint.key@));
            &&& book_ok(after)
            &&& !holds_key(after, bctx.seller@, bctx.sell_mint.key@)
            &&& init_outcome(after, ictx, later, sell_amount, start_price, end_price, start_time, end_time)
                == Ok::<(), InstructionError>(())
        }),
{
    let i = record_index(live, bctx.seller@, bctx.sell_mint.key@);
    lemma_remove_record(live, i);
}

/// After a successful withdrawal the record is gone, and the seller can open
/// a fresh auction of the same sell mint.
pub proof fn cancel_frees_the_pair(
    live: Seq<Auction>,
    cctx: CancelCtx,
    now: u64,
    ictx: InitCtx,
    later: u64,
    sell_amount: u64,
    start_price: u64,
    end_price: u64,
    start_time: u64,
    end_time: u64,
)
    requires
        book_ok(live),
        cancel_outcome(live, cctx, now) is Ok,
        ictx.seller@ == cctx.seller@,
        ictx.sell_mint.key@ == cctx.sell_mint.key@,
        creation_acceptable(ictx, later, sell_amount, start_price, end_price, start_time, end_time),
    ensures
        ({
            let after = live.remove(record_index(live, cctx.seller@, cctx.sell_mint.key@));
            &&& book_ok(after)
            &&& !holds_key(after, cctx.seller@, cctx.sell_mint.key@)
            &&& init_outcome(after, ictx, later, sell_amount, start_price, end_price, start_time, end_time)
                == Ok::<(), InstructionError>(())
        }),
{
    let i = record_index(live, cctx.seller@, cctx.sell_mint.key@);
    lemma_remove_record(live, i);
}

/// Of two purchases of the same auction only the first goes through: the
/// second finds the record already closed.
pub proof fn second_purchase_finds_record_closed(
    live: Seq<Auction>,
    first: BuyCtx,
    now: u64,
    max_price: u64,
    second: BuyCtx,
    at: u64,
    second_max_price: u64,
)
    requires
        book_ok(live),
        buy_outcome(live, first, now, max_price) is Ok,
        second.seller@ == first.seller@,
        second.sell_mint.key@ == first.sell_mint.key@,
    ensures
        ({
            let after = live.remove(record_index(live, first.seller@, first.sell_mint.key@));
            buy_outcome(after, second, at, second_max_price) == Err::<u64, InstructionError>(
                InstructionError::AccountNotInitialized,
            )
        }),
{
    let i = record_index(live, first.seller@, first.sell_mint.key@);
    lemma_remove_record(live, i);
}

} // verus!
