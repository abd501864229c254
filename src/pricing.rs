use vstd::prelude::*;
use vstd::arithmetic::div_mod::{lemma_div_by_multiple, lemma_div_denominator, lemma_div_is_ordered};
use vstd::arithmetic::mul::lemma_mul_inequality;

use crate::error::AuctionError;
use crate::state::Auction;

verus! {

/// Ten to the power `n`.
pub open spec fn pow10(n: nat) -> nat
    decreases n,
{
    if n == 0 {
        1
    } else {
        10 * pow10((n - 1) as nat)
    }
}

pub proof fn lemma_pow10_positive(n: nat)
    ensures
        pow10(n) > 0,
    decreases n,
{
    if n > 0 {
        lemma_pow10_positive((n - 1) as nat);
    }
}

/// How far the unit price has fallen at time `t`: the price range scaled by
/// the elapsed share of the window, rounded down.
pub open spec fn decrease(start_price: int, end_price: int, start_time: int, end_time: int, t: int) -> int {
    (start_price - end_price) * (t - start_time) / (end_time - start_time)
}

/// The unit price at time `t`: linear from `start_price` at `start_time`
/// to `end_price` at `end_time`, rounded up to the next whole unit.
pub open spec fn decay(start_price: int, end_price: int, start_time: int, end_time: int, t: int) -> int {
    start_price - decrease(start_price, end_price, start_time, end_time, t)
}

/// The auction's unit price at `now`, or `Overflow` where a step of its
/// checked computation fails: before the start, on an empty or reversed
/// window or price range, or where the decrease exceeds the start price.
pub open spec fn price_at(a: Auction, now: u64) -> Result<u64, AuctionError> {
    if now < a.start_time || a.end_time <= a.start_time || a.start_price < a.end_price
        || decrease(a.start_price as int, a.end_price as int, a.start_time as int, a.end_time as int, now as int)
        > a.start_price {
        Err(AuctionError::Overflow)
    } else {
        Ok(decay(a.start_price as int, a.end_price as int, a.start_time as int, a.end_time as int, now as int) as u64)
    }
}

/// What a buyer pays for `sell_amount` units at `price` per whole token of
/// a sell token with `decimals` decimals, rounded down.
pub open spec fn payment(sell_amount: u64, price: u64, decimals: u8) -> int {
    (sell_amount as int) * (price as int) / (pow10(decimals as nat) as int)
}

/// The payment, or `Overflow` where it does not fit 64 bits, or
/// `InvalidAmount` where it would be nothing.
pub open spec fn payment_for(sell_amount: u64, price: u64, decimals: u8) -> Result<u64, AuctionError> {
    let p = payment(sell_amount, price, decimals);
    if p > u64::MAX {
        Err(AuctionError::Overflow)
    } else if p == 0 {
        Err(AuctionError::InvalidAmount)
    } else {
        Ok(p as u64)
    }
}

/// The current unit price of the auction, computed in 128 bits and narrowed
/// back with every step checked.
pub fn current_price(auction: &Auction, now: u64) -> (r: Result<u64, AuctionError>)
    ensures
        r == price_at(*auction, now),
{
    let elapsed = match now.checked_sub(auction.start_time) {
        Some(v) => v,
        None => return Err(AuctionError::Overflow),
    };
    let duration = match auction.end_time.checked_sub(auction.start_time) {
        Some(v) => v,
        None => return Err(AuctionError::Overflow),
    };
    let price_range = match auction.start_price.checked_sub(auction.end_price) {
        Some(v) => v,
        None => return Err(AuctionError::Overflow),
    };
    if duration == 0 {
        return Err(AuctionError::Overflow);
    }
    proof {
        assert((price_range as int) * (elapsed as int) <= (u64::MAX as int) * (u64::MAX as int))
            by (nonlinear_arith)
            requires
                price_range <= u64::MAX,
                elapsed <= u64::MAX,
        ;
    }
    let scaled: u128 = (price_range as u128) * (elapsed as u128);
    let wide: u128 = scaled / (duration as u128);
    if wide > u64::MAX as u128 {
        return Err(AuctionError::Overflow);
    }
    let price_decrease = wide as u64;
    match auction.start_price.checked_sub(price_decrease) {
        Some(p) => Ok(p),
        None => Err(AuctionError::Overflow),
    }
}

/// The amount of the buy token owed for the lot, computed in 128 bits and
/// narrowed back with the overflow checked.
pub fn buy_amount(sell_amount: u64, price: u64, decimals: u8) -> (r: Result<u64, AuctionError>)
    ensures
        r == payment_for(sell_amount, price, decimals),
{
    proof {
        assert((sell_amount as int) * (price as int) <= (u64::MAX as int) * (u64::MAX as int))
            by (nonlinear_arith)
            requires
                sell_amount <= u64::MAX,
                price <= u64::MAX,
        ;
    }
    let product: u128 = (sell_amount as u128) * (price as u128);
    let mut q: u128 = product;
    let mut i: u8 = 0;
    while i < decimals
        invariant
            i <= decimals,
            q as int == (product as int) / (pow10(i as nat) as int),
        decreases decimals - i,
    {
        proof {
            lemma_pow10_positive(i as nat);
            lemma_div_denominator(product as int, pow10(i as nat) as int, 10);
            assert(pow10((i + 1) as nat) == 10 * pow10(i as nat));
            assert((pow10(i as nat) as int) * 10 == pow10((i + 1) as nat) as int);
        }
        q = q / 10;
        i = i + 1;
    }
    if q > u64::MAX as u128 {
        return Err(AuctionError::Overflow);
    }
    if q == 0 {
        return Err(AuctionError::InvalidAmount);
    }
    Ok(q as u64)
}

/// At the start of the window the price is the start price.
pub proof fn decay_starts_at_start_price(start_price: u64, end_price: u64, start_time: u64, end_time: u64)
    requires
        start_price >= end_price,
        start_time < end_time,
    ensures
        decay(start_price as int, end_price as int, start_time as int, end_time as int, start_time as int)
            == start_price,
{
    assert((start_price - end_price) * 0int == 0) by (nonlinear_arith);
}

/// Before the end of the window the price never falls below the end price.
pub proof fn decay_stays_above_end_price(
    start_price: u64,
    end_price: u64,
    start_time: u64,
    end_time: u64,
    t: u64,
)
    requires
        start_price >= end_price,
        start_time < end_time,
        t < end_time,
    ensures
        decay(start_price as int, end_price as int, start_time as int, end_time as int, t as int)
            >= end_price,
{
    let range = start_price - end_price;
    let duration = end_time - start_time;
    lemma_mul_inequality(t - start_time, duration, range);
    lemma_div_is_ordered(range * (t - start_time), range * duration, duration);
    lemma_div_by_multiple(range, duration);
    assert(range * (t - start_time) == (t - start_time) * range) by (nonlinear_arith);
    assert(range * duration == duration * range) by (nonlinear_arith);
}

/// The price never rises as time passes.
pub proof fn decay_non_increasing(
    start_price: u64,
    end_price: u64,
    start_time: u64,
    end_time: u64,
    t1: u64,
    t2: u64,
)
    requires
        start_price >= end_price,
        start_time < end_time,
        t1 <= t2,
    ensures
        decay(start_price as int, end_price as int, start_time as int, end_time as int, t2 as int)
            <= decay(start_price as int, end_price as int, start_time as int, end_time as int, t1 as int),
{
    let range = start_price - end_price;
    let duration = end_time - start_time;
    lemma_mul_inequality(t1 - start_time, t2 - start_time, range);
    assert(range * (t1 - start_time) == (t1 - start_time) * range) by (nonlinear_arith);
    assert(range * (t2 - start_time) == (t2 - start_time) * range) by (nonlinear_arith);
    lemma_div_is_ordered(range * (t1 - start_time), range * (t2 - start_time), duration);
}

} // verus!
