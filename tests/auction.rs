use dutch_auction::{
    buy, buy_amount, cancel, current_price, init, Auction, AuctionError, Book, BuyCtx, CancelCtx,
    Effect, InitCtx, InstructionError, MintInfo, Pubkey, TokenAccountInfo,
};

fn key(n: u8) -> Pubkey {
    Pubkey::new([n; 32])
}

fn account(k: u8, mint: u8, owner: u8) -> TokenAccountInfo {
    TokenAccountInfo { key: key(k), mint: key(mint), owner: key(owner) }
}

const SELLER: u8 = 1;
const BUYER: u8 = 2;
const SELL_MINT: u8 = 10;
const BUY_MINT: u8 = 11;
const RECORD: u8 = 20;
const VAULT: u8 = 21;

fn init_ctx(sell_decimals: u8) -> InitCtx {
    InitCtx {
        seller: key(SELLER),
        sell_mint: MintInfo { key: key(SELL_MINT), decimals: sell_decimals },
        buy_mint: MintInfo { key: key(BUY_MINT), decimals: 6 },
        auction: key(RECORD),
        bump: 254,
        auction_sell_ata: key(VAULT),
        seller_sell_ata: account(30, SELL_MINT, SELLER),
    }
}

fn buy_ctx(sell_decimals: u8) -> BuyCtx {
    BuyCtx {
        buyer: key(BUYER),
        seller: key(SELLER),
        sell_mint: MintInfo { key: key(SELL_MINT), decimals: sell_decimals },
        buy_mint: MintInfo { key: key(BUY_MINT), decimals: 6 },
        auction: key(RECORD),
        auction_sell_ata: account(VAULT, SELL_MINT, RECORD),
        buyer_buy_ata: account(32, BUY_MINT, BUYER),
        buyer_sell_ata: account(33, SELL_MINT, BUYER),
        seller_buy_ata: account(31, BUY_MINT, SELLER),
    }
}

fn cancel_ctx() -> CancelCtx {
    CancelCtx {
        seller: key(SELLER),
        sell_mint: MintInfo { key: key(SELL_MINT), decimals: 0 },
        auction: key(RECORD),
        auction_sell_ata: account(VAULT, SELL_MINT, RECORD),
        seller_sell_ata: account(30, SELL_MINT, SELLER),
    }
}

const T: u64 = 1_700_000_000;

/// A book holding the auction 1000 -> 200 over [T, T + 800] for a lot of 50.
fn live_book(sell_decimals: u8) -> Book {
    let mut book = Book::new();
    let r = init(&mut book, &init_ctx(sell_decimals), T - 100, 50, 1000, 200, T, T + 800);
    assert!(r.is_ok());
    book
}

fn record(start_price: u64, end_price: u64, start_time: u64, end_time: u64) -> Auction {
    Auction {
        seller: key(SELLER),
        sell_mint: key(SELL_MINT),
        buy_mint: key(BUY_MINT),
        sell_amount: 50,
        start_price,
        end_price,
        start_time,
        end_time,
        bump: 254,
    }
}

fn auction_err(e: AuctionError) -> Result<Vec<Effect>, InstructionError> {
    Err(InstructionError::Auction(e))
}

#[test]
fn create_stores_record_and_funds_vault() {
    let mut book = Book::new();
    let r = init(&mut book, &init_ctx(0), T - 100, 50, 1000, 200, T, T + 800).unwrap();
    assert_eq!(
        r,
        vec![Effect::Transfer {
            from: key(30),
            to: key(VAULT),
            mint: key(SELL_MINT),
            authority: key(SELLER),
            amount: 50,
            decimals: 0,
            signed_by_record: false,
        }]
    );
    assert_eq!(book.len(), 1);
    assert_eq!(book.get(&key(SELLER), &key(SELL_MINT)), Some(record(1000, 200, T, T + 800)));
}

#[test]
fn midpoint_price_and_payment() {
    let a = record(1000, 200, T, T + 800);
    assert_eq!(current_price(&a, T + 400), Ok(600));
    assert_eq!(buy_amount(50, 600, 0), Ok(30000));

    let mut book = live_book(0);
    assert_eq!(buy(&mut book, &buy_ctx(0), T + 400, 599), auction_err(AuctionError::PriceExceedsMax));
    assert_eq!(book.len(), 1);

    let effects = buy(&mut book, &buy_ctx(0), T + 400, 600).unwrap();
    assert_eq!(
        effects,
        vec![
            Effect::Transfer {
                from: key(32),
                to: key(31),
                mint: key(BUY_MINT),
                authority: key(BUYER),
                amount: 30000,
                decimals: 6,
                signed_by_record: false,
            },
            Effect::Transfer {
                from: key(VAULT),
                to: key(33),
                mint: key(SELL_MINT),
                authority: key(RECORD),
                amount: 50,
                decimals: 0,
                signed_by_record: true,
            },
            Effect::CloseAccount { account: key(VAULT), destination: key(SELLER), authority: key(RECORD) },
        ]
    );
    assert_eq!(book.len(), 0);
}

#[test]
fn cancel_before_start_returns_lot() {
    let mut book = live_book(0);
    let effects = cancel(&mut book, &cancel_ctx(), T - 1).unwrap();
    assert_eq!(
        effects,
        vec![
            Effect::Transfer {
                from: key(VAULT),
                to: key(30),
                mint: key(SELL_MINT),
                authority: key(RECORD),
                amount: 50,
                decimals: 0,
                signed_by_record: true,
            },
            Effect::CloseAccount { account: key(VAULT), destination: key(SELLER), authority: key(RECORD) },
        ]
    );
    assert_eq!(book.len(), 0);
}

#[test]
fn cancel_at_or_after_start_fails() {
    let mut book = live_book(0);
    assert_eq!(cancel(&mut book, &cancel_ctx(), T), auction_err(AuctionError::AuctionAlreadyStarted));
    assert_eq!(cancel(&mut book, &cancel_ctx(), T + 500), auction_err(AuctionError::AuctionAlreadyStarted));
    assert_eq!(book.len(), 1);
}

#[test]
fn decay_endpoints_and_monotone() {
    let a = record(1000, 200, T, T + 800);
    assert_eq!(current_price(&a, T), Ok(1000));
    assert_eq!(current_price(&a, T + 799), Ok(201));
    assert_eq!(current_price(&a, T + 1), Ok(999));
    let mut last = 1000;
    let mut t = T;
    while t < T + 800 {
        let p = current_price(&a, t).unwrap();
        assert!(p <= last);
        assert!(p >= 200);
        last = p;
        t += 37;
    }
    // rounding keeps the price at or above the line
    let b = record(10, 0, 0, 3);
    assert_eq!(current_price(&b, 1), Ok(7));
    assert_eq!(current_price(&b, 2), Ok(4));
}

#[test]
fn purchase_at_start_charges_start_price() {
    let mut book = live_book(2);
    let effects = buy(&mut book, &buy_ctx(2), T, 1000).unwrap();
    match effects[0] {
        Effect::Transfer { amount, .. } => assert_eq!(amount, 50 * 1000 / 100),
        _ => panic!("first movement must be the payment"),
    }
}

#[test]
fn price_above_ceiling_leaves_book() {
    let mut book = live_book(0);
    assert_eq!(buy(&mut book, &buy_ctx(0), T + 100, 0), auction_err(AuctionError::PriceExceedsMax));
    assert_eq!(book.get(&key(SELLER), &key(SELL_MINT)), Some(record(1000, 200, T, T + 800)));
}

#[test]
fn create_same_token_fails() {
    let mut book = Book::new();
    let mut ctx = init_ctx(0);
    ctx.buy_mint.key = key(SELL_MINT);
    assert_eq!(init(&mut book, &ctx, T - 100, 50, 1000, 200, T, T + 800), auction_err(AuctionError::SameToken));
    assert_eq!(book.len(), 0);
}

#[test]
fn create_after_purchase_or_cancel_succeeds() {
    let mut book = live_book(0);
    assert!(buy(&mut book, &buy_ctx(0), T + 10, 1000).is_ok());
    assert!(init(&mut book, &init_ctx(0), T + 20, 7, 500, 500, T + 30, T + 40).is_ok());
    assert!(cancel(&mut book, &cancel_ctx(), T + 25).is_ok());
    assert!(init(&mut book, &init_ctx(0), T + 26, 7, 500, 100, T + 30, T + 40).is_ok());
    assert_eq!(book.len(), 1);
}

#[test]
fn second_purchase_finds_record_closed() {
    let mut book = live_book(0);
    assert!(buy(&mut book, &buy_ctx(0), T + 400, 600).is_ok());
    assert_eq!(buy(&mut book, &buy_ctx(0), T + 400, 600), Err(InstructionError::AccountNotInitialized));
    assert_eq!(cancel(&mut book, &cancel_ctx(), T - 1), Err(InstructionError::AccountNotInitialized));
}

#[test]
fn create_rejects_bad_terms() {
    let mut book = Book::new();
    let ctx = init_ctx(0);
    assert_eq!(init(&mut book, &ctx, T, 50, 199, 200, T, T + 800), auction_err(AuctionError::InvalidPrice));
    assert_eq!(init(&mut book, &ctx, T + 1, 50, 1000, 200, T, T + 800), auction_err(AuctionError::InvalidTime));
    assert_eq!(init(&mut book, &ctx, T, 50, 1000, 200, T, T), auction_err(AuctionError::InvalidTime));
    assert_eq!(init(&mut book, &ctx, T, 0, 1000, 200, T, T + 800), auction_err(AuctionError::InvalidAmount));
    assert_eq!(book.len(), 0);
    assert!(init(&mut book, &ctx, T, 50, 200, 200, T, T + 1).is_ok());
    assert_eq!(init(&mut book, &ctx, T, 50, 1000, 200, T, T + 800), Err(InstructionError::AccountInUse));
}

#[test]
fn create_rejects_foreign_account() {
    let mut book = Book::new();
    let mut ctx = init_ctx(0);
    ctx.seller_sell_ata.owner = key(BUYER);
    assert_eq!(init(&mut book, &ctx, T, 50, 1000, 200, T, T + 800), Err(InstructionError::ConstraintViolated));
    let mut ctx = init_ctx(0);
    ctx.seller_sell_ata.mint = key(BUY_MINT);
    assert_eq!(init(&mut book, &ctx, T, 50, 1000, 200, T, T + 800), Err(InstructionError::ConstraintViolated));
}

#[test]
fn purchase_rejects_foreign_accounts() {
    let mut book = live_book(0);
    let mut ctx = buy_ctx(0);
    ctx.buy_mint.key = key(12);
    ctx.buyer_buy_ata.mint = key(12);
    ctx.seller_buy_ata.mint = key(12);
    assert_eq!(buy(&mut book, &ctx, T + 400, 600), Err(InstructionError::ConstraintViolated));
    let mut ctx = buy_ctx(0);
    ctx.seller_buy_ata.owner = key(BUYER);
    assert_eq!(buy(&mut book, &ctx, T + 400, 600), Err(InstructionError::ConstraintViolated));
    let mut ctx = buy_ctx(0);
    ctx.buyer_sell_ata.mint = key(BUY_MINT);
    assert_eq!(buy(&mut book, &ctx, T + 400, 600), Err(InstructionError::ConstraintViolated));
    assert_eq!(book.len(), 1);
}

#[test]
fn only_the_seller_reaches_the_record() {
    let mut book = live_book(0);
    let mut ctx = cancel_ctx();
    ctx.seller = key(BUYER);
    ctx.seller_sell_ata.owner = key(BUYER);
    assert_eq!(cancel(&mut book, &ctx, T - 1), Err(InstructionError::AccountNotInitialized));
    let mut ctx = cancel_ctx();
    ctx.seller_sell_ata.owner = key(BUYER);
    assert_eq!(cancel(&mut book, &ctx, T - 1), Err(InstructionError::ConstraintViolated));
    assert_eq!(book.len(), 1);
}

#[test]
fn purchase_outside_window_fails() {
    let mut book = live_book(0);
    assert_eq!(buy(&mut book, &buy_ctx(0), T - 1, u64::MAX), auction_err(AuctionError::AuctionNotStarted));
    assert_eq!(buy(&mut book, &buy_ctx(0), T + 800, u64::MAX), auction_err(AuctionError::AuctionEnded));
    let effects = buy(&mut book, &buy_ctx(0), T + 799, 201).unwrap();
    match effects[0] {
        Effect::Transfer { amount, .. } => assert_eq!(amount, 50 * 201),
        _ => panic!("first movement must be the payment"),
    }
}

#[test]
fn purchase_that_charges_nothing_fails() {
    let mut book = live_book(9);
    assert_eq!(buy(&mut book, &buy_ctx(9), T + 400, 600), auction_err(AuctionError::InvalidAmount));
    assert_eq!(book.len(), 1);
}

#[test]
fn payment_arithmetic() {
    assert_eq!(buy_amount(50, 600, 2), Ok(300));
    assert_eq!(buy_amount(3, 7, 1), Ok(2));
    assert_eq!(buy_amount(1, 9, 1), Err(AuctionError::InvalidAmount));
    assert_eq!(buy_amount(u64::MAX, u64::MAX, 0), Err(AuctionError::Overflow));
    assert_eq!(buy_amount(u64::MAX, u64::MAX, 19), Err(AuctionError::Overflow));
    let wide = (u64::MAX as u128) * (u64::MAX as u128) / 10u128.pow(20);
    assert_eq!(buy_amount(u64::MAX, u64::MAX, 20), Ok(u64::try_from(wide).unwrap()));
    assert_eq!(buy_amount(u64::MAX, u64::MAX, 38), Ok(3));
    assert_eq!(buy_amount(u64::MAX, u64::MAX, 39), Err(AuctionError::InvalidAmount));
    assert_eq!(buy_amount(u64::MAX, u64::MAX, 255), Err(AuctionError::InvalidAmount));
    assert_eq!(buy_amount(1, 600, 0), Ok(600));
}

#[test]
fn price_arithmetic_errors() {
    let a = record(1000, 200, T, T + 800);
    assert_eq!(current_price(&a, T - 1), Err(AuctionError::Overflow));
    assert_eq!(current_price(&record(100, 200, T, T + 800), T), Err(AuctionError::Overflow));
    assert_eq!(current_price(&record(1000, 200, T, T), T), Err(AuctionError::Overflow));
    assert_eq!(current_price(&a, T + 800), Ok(200));
    assert_eq!(current_price(&a, T + 2000), Err(AuctionError::Overflow));
    assert_eq!(current_price(&record(u64::MAX, 0, 0, 2), 1), Ok(u64::MAX - u64::MAX / 2));
}

#[test]
fn single_record_book_requires_valid_record() {
    let book = Book::single(record(1000, 200, T, T + 800)).unwrap();
    assert_eq!(book.len(), 1);
    assert!(Book::single(record(100, 200, T, T + 800)).is_none());
    assert!(Book::single(record(1000, 200, T, T)).is_none());
    let mut same = record(1000, 200, T, T + 800);
    same.buy_mint = key(SELL_MINT);
    assert!(Book::single(same).is_none());
    let mut empty = record(1000, 200, T, T + 800);
    empty.sell_amount = 0;
    assert!(Book::single(empty).is_none());
}

#[test]
fn addresses_compare_by_every_byte() {
    let mut bytes = [7u8; 32];
    assert!(key(7).same(&Pubkey::new(bytes)));
    bytes[31] = 8;
    assert!(!key(7).same(&Pubkey::new(bytes)));
    assert_eq!(Book::new().get(&key(SELLER), &key(SELL_MINT)), None);
}
