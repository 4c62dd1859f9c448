use auction_house::account::AccountView;
use auction_house::action::Action;
use auction_house::address::{derive_address, Address};
use auction_house::auction::ListingConfig;
use auction_house::auctioneer::{buy, execute_sale, sell};
use auction_house::error::{AuctionHouseError, AuctioneerError};
use auction_house::execute_sale::{ExecuteSaleAccounts, Programs};
use auction_house::house::AuctionHouse;
use auction_house::pda::{
    auctioneer_seeds, escrow_seeds, metadata_seeds, program_signer_seeds, trade_state_seeds,
};
use auction_house::trade_state::{OrderTerms, TradeStateBook};

const ONE_SOL: u64 = 1_000_000_000;
const RENT: u64 = 890_880;

fn addr(n: u8) -> Address {
    Address::new([n; 32])
}

fn programs() -> Programs {
    Programs::standard(addr(200))
}

fn account(key: Address, owner: Address, lamports: u64, data: Vec<u8>, is_signer: bool) -> AccountView {
    AccountView { key, owner, lamports, data, is_signer, rent_minimum: RENT }
}

fn token_data(mint: &Address, owner: &Address, amount: u64, delegate: Option<&Address>, delegated: u64) -> Vec<u8> {
    let mut d = Vec::new();
    d.extend_from_slice(&mint.bytes);
    d.extend_from_slice(&owner.bytes);
    d.extend_from_slice(&amount.to_le_bytes());
    match delegate {
        Some(k) => {
            d.extend_from_slice(&[1, 0, 0, 0]);
            d.extend_from_slice(&k.bytes);
        }
        None => d.extend_from_slice(&[0u8; 36]),
    }
    d.push(1);
    d.extend_from_slice(&[0u8; 12]);
    d.extend_from_slice(&delegated.to_le_bytes());
    d.extend_from_slice(&[0u8; 36]);
    d
}

fn borsh_string(d: &mut Vec<u8>, s: &str) {
    d.extend_from_slice(&(s.len() as u32).to_le_bytes());
    d.extend_from_slice(s.as_bytes());
}

fn metadata_data(mint: &Address, bps: u16, creators: &[(Address, u8)]) -> Vec<u8> {
    let mut d = vec![4u8];
    d.extend_from_slice(&[9u8; 32]);
    d.extend_from_slice(&mint.bytes);
    borsh_string(&mut d, "Asset");
    borsh_string(&mut d, "AST");
    borsh_string(&mut d, "https://example.invalid/asset.json");
    d.extend_from_slice(&bps.to_le_bytes());
    d.push(1);
    d.extend_from_slice(&(creators.len() as u32).to_le_bytes());
    for (a, share) in creators {
        d.extend_from_slice(&a.bytes);
        d.push(1);
        d.push(*share);
    }
    d.push(0);
    d.push(1);
    d.push(0);
    d
}

fn derive(seeds: &Vec<Vec<u8>>, program: &Address) -> (Address, u8) {
    derive_address(seeds, program).unwrap()
}

fn house_with(bps: u16, treasury_mint: Address, auction_house: &Address, auctioneer_authority: &Address) -> AuctionHouse {
    let p = programs();
    let (binding, _) = derive(&auctioneer_seeds(auction_house, auctioneer_authority), &p.auction_house);
    AuctionHouse {
        auction_house_fee_account: addr(31),
        auction_house_treasury: addr(32),
        treasury_withdrawal_destination: addr(33),
        fee_withdrawal_destination: addr(34),
        treasury_mint,
        authority: addr(35),
        creator: addr(35),
        bump: 255,
        treasury_bump: 255,
        fee_payer_bump: 255,
        seller_fee_basis_points: bps,
        requires_sign_off: false,
        can_change_sale_price: false,
        has_auctioneer: true,
        auctioneer_address: binding,
    }
}

struct Sale {
    programs: Programs,
    house: AuctionHouse,
    accounts: ExecuteSaleAccounts,
    remaining: Vec<AccountView>,
    escrow_bump: u8,
    free_bump: u8,
    signer_bump: u8,
    auctioneer_authority: Address,
    seller_ts_bump: u8,
    buyer_ts_bump: u8,
}

fn sale_fixture(price: u64, creators: &[(Address, u8)]) -> Sale {
    let p = programs();
    let ah = addr(40);
    let auctioneer_authority = addr(41);
    let house = house_with(100, p.native_mint, &ah, &auctioneer_authority);
    let seller = addr(50);
    let buyer = addr(51);
    let mint = addr(52);
    let token_account = addr(53);
    let (signer, signer_bump) = derive(&program_signer_seeds(), &p.auction_house);
    let (escrow, escrow_bump) = derive(&escrow_seeds(&ah, &buyer), &p.auction_house);
    let (free_ts, free_bump) = derive(
        &trade_state_seeds(&seller, &ah, &token_account, &p.native_mint, &mint, 0, 1),
        &p.auction_house,
    );
    let (seller_ts, seller_ts_bump) = derive(
        &trade_state_seeds(&seller, &ah, &token_account, &p.native_mint, &mint, u64::MAX, 1),
        &p.auction_house,
    );
    let (buyer_ts, buyer_ts_bump) = derive(
        &trade_state_seeds(&buyer, &ah, &token_account, &p.native_mint, &mint, price, 1),
        &p.auction_house,
    );
    let (metadata, _) = derive(&metadata_seeds(&p.metadata, &mint), &p.metadata);
    let accounts = ExecuteSaleAccounts {
        buyer: account(buyer, addr(0), 5 * ONE_SOL, vec![], true),
        seller: account(seller, addr(0), ONE_SOL, vec![], false),
        token_account: account(token_account, p.token, RENT, token_data(&mint, &seller, 1, Some(&signer), 1), false),
        token_mint: mint,
        metadata: account(metadata, p.metadata, RENT, metadata_data(&mint, 10, creators), false),
        treasury_mint: p.native_mint,
        escrow_payment_account: account(escrow, addr(0), price + RENT, vec![], false),
        seller_payment_receipt_account: account(seller, addr(0), ONE_SOL, vec![], false),
        buyer_receipt_token_account: account(addr(54), addr(0), 0, vec![], false),
        authority: account(addr(35), addr(0), ONE_SOL, vec![], false),
        auction_house: ah,
        auction_house_fee_account: addr(31),
        auction_house_treasury: addr(32),
        buyer_trade_state: account(buyer_ts, p.auction_house, RENT, vec![buyer_ts_bump], false),
        seller_trade_state: account(seller_ts, p.auction_house, RENT, vec![seller_ts_bump], false),
        free_trade_state: account(free_ts, p.auction_house, 0, vec![], false),
        program_as_signer: signer,
    };
    let remaining = creators
        .iter()
        .map(|(a, _)| account(*a, addr(0), 100_000_000, vec![], false))
        .collect();
    Sale {
        programs: p,
        house,
        accounts,
        remaining,
        escrow_bump,
        free_bump,
        signer_bump,
        auctioneer_authority,
        seller_ts_bump,
        buyer_ts_bump,
    }
}

fn open_listing(s: &Sale, book: &mut TradeStateBook, listing: &mut Option<ListingConfig>, reserve: Option<u64>, increment: Option<u64>) {
    let order = OrderTerms {
        wallet: s.accounts.seller.key,
        auction_house: s.accounts.auction_house,
        treasury_mint: s.house.treasury_mint,
        mint: s.accounts.token_mint,
        token_holder: s.accounts.token_account.key,
        price: 0,
        size: 1,
    };
    sell(
        &s.programs,
        &s.house,
        &s.auctioneer_authority,
        &order,
        &s.accounts.token_account,
        &s.accounts.program_as_signer,
        &s.accounts.seller_trade_state.key,
        s.seller_ts_bump,
        book,
        listing,
        100,
        1_000,
        reserve,
        increment,
        None,
        None,
    )
    .unwrap();
}

fn bid_order(s: &Sale, buyer: &Address, price: u64) -> OrderTerms {
    OrderTerms {
        wallet: *buyer,
        auction_house: s.accounts.auction_house,
        treasury_mint: s.house.treasury_mint,
        mint: s.accounts.token_mint,
        token_holder: s.accounts.token_account.key,
        price,
        size: 1,
    }
}

fn settle(s: &Sale, book: &mut TradeStateBook, listing: &mut Option<ListingConfig>, price: u64) -> Result<Vec<Action>, AuctioneerError> {
    execute_sale(
        &s.programs,
        &s.house,
        &s.accounts,
        &s.remaining,
        &s.auctioneer_authority,
        s.escrow_bump,
        s.free_bump,
        s.signer_bump,
        price,
        1,
        book,
        listing,
        &addr(60),
    )
}

fn same(a: &Address, b: &Address) -> bool {
    a.bytes == b.bytes
}

fn transfer_to(actions: &[Action], to: &Address) -> Option<u64> {
    actions.iter().find_map(|a| match a {
        Action::Transfer { to: t, amount, .. } if same(t, to) => Some(*amount),
        _ => None,
    })
}

fn closes(actions: &[Action], account: &Address) -> bool {
    actions.iter().any(|a| matches!(a, Action::Close { account: k, .. } if same(k, account)))
}

#[test]
fn execute_sale_with_metadata_creators_success() {
    let creators = [(addr(70), 25u8), (addr(71), 75u8)];
    let s = sale_fixture(ONE_SOL, &creators);
    let mut book = TradeStateBook::new();
    let mut listing = None;
    open_listing(&s, &mut book, &mut listing, None, None);
    buy(
        &s.programs,
        &s.house,
        &s.auctioneer_authority,
        &bid_order(&s, &s.accounts.buyer.key, ONE_SOL),
        &s.accounts.buyer_trade_state.key,
        s.buyer_ts_bump,
        &mut book,
        &mut listing,
        200,
    )
    .unwrap();
    let actions = settle(&s, &mut book, &mut listing, ONE_SOL).unwrap();
    assert_eq!(transfer_to(&actions, &addr(70)), Some(250_000));
    assert_eq!(transfer_to(&actions, &addr(71)), Some(750_000));
    assert_eq!(transfer_to(&actions, &addr(32)), Some(10_000_000));
    assert_eq!(transfer_to(&actions, &s.accounts.seller.key), Some(ONE_SOL - 1_000_000 - 10_000_000));
    assert!(actions.iter().any(|a| matches!(a,
        Action::TokenTransfer { to, amount: 1, .. } if same(to, &addr(54)))));
    assert!(closes(&actions, &s.accounts.buyer_trade_state.key));
    assert!(closes(&actions, &s.accounts.seller_trade_state.key));
    assert!(closes(&actions, &addr(60)));
    assert!(listing.is_none());
    assert!(book.get(&s.accounts.seller_trade_state.key).is_none());
    assert!(book.get(&s.accounts.buyer_trade_state.key).is_none());
}

#[test]
fn execute_sale_success() {
    let s = sale_fixture(ONE_SOL, &[]);
    let mut book = TradeStateBook::new();
    let mut listing = None;
    open_listing(&s, &mut book, &mut listing, None, None);
    buy(
        &s.programs,
        &s.house,
        &s.auctioneer_authority,
        &bid_order(&s, &s.accounts.buyer.key, ONE_SOL),
        &s.accounts.buyer_trade_state.key,
        s.buyer_ts_bump,
        &mut book,
        &mut listing,
        200,
    )
    .unwrap();
    let actions = settle(&s, &mut book, &mut listing, ONE_SOL).unwrap();
    let royalties = 0;
    let fee = ONE_SOL / 100;
    assert_eq!(transfer_to(&actions, &s.accounts.seller.key), Some(ONE_SOL - royalties - fee));
    assert!(listing.is_none());
}

#[test]
fn failure_execute_sale_multiple_buy_not_highest_bid() {
    let s = sale_fixture(ONE_SOL, &[]);
    let mut book = TradeStateBook::new();
    let mut listing = None;
    open_listing(&s, &mut book, &mut listing, None, None);
    buy(
        &s.programs,
        &s.house,
        &s.auctioneer_authority,
        &bid_order(&s, &s.accounts.buyer.key, ONE_SOL),
        &s.accounts.buyer_trade_state.key,
        s.buyer_ts_bump,
        &mut book,
        &mut listing,
        200,
    )
    .unwrap();
    let rival = addr(80);
    let (rival_ts, rival_bump) = derive(
        &trade_state_seeds(
            &rival,
            &s.accounts.auction_house,
            &s.accounts.token_account.key,
            &s.house.treasury_mint,
            &s.accounts.token_mint,
            2 * ONE_SOL,
            1,
        ),
        &s.programs.auction_house,
    );
    buy(&s.programs, &s.house, &s.auctioneer_authority, &bid_order(&s, &rival, 2 * ONE_SOL), &rival_ts, rival_bump, &mut book, &mut listing, 300)
        .unwrap();
    let before = listing;
    let r = settle(&s, &mut book, &mut listing, ONE_SOL);
    assert_eq!(r.unwrap_err(), AuctioneerError::NotHighestBidder);
    assert_eq!(listing.unwrap().highest_bid.unwrap().amount, before.unwrap().highest_bid.unwrap().amount);
    assert!(book.get(&s.accounts.buyer_trade_state.key).is_some());
}

#[test]
fn failed_sale_changes_nothing() {
    let s = sale_fixture(ONE_SOL, &[]);
    let mut book = TradeStateBook::new();
    let mut listing = None;
    open_listing(&s, &mut book, &mut listing, None, None);
    buy(
        &s.programs,
        &s.house,
        &s.auctioneer_authority,
        &bid_order(&s, &s.accounts.buyer.key, ONE_SOL),
        &s.accounts.buyer_trade_state.key,
        s.buyer_ts_bump,
        &mut book,
        &mut listing,
        200,
    )
    .unwrap();
    let mut poor = sale_fixture(ONE_SOL, &[]);
    poor.accounts.escrow_payment_account.lamports = ONE_SOL / 2;
    let r = settle(&poor, &mut book, &mut listing, ONE_SOL);
    assert_eq!(r.unwrap_err(), AuctioneerError::AuctionHouse(AuctionHouseError::InsufficientFunds));
    assert!(listing.is_some());
    assert_eq!(book.get(&s.accounts.buyer_trade_state.key), Some(s.buyer_ts_bump));
    assert_eq!(book.get(&s.accounts.seller_trade_state.key), Some(s.seller_ts_bump));
}

#[test]
fn failure_buy_below_reserve_price() {
    let s = sale_fixture(ONE_SOL, &[]);
    let mut book = TradeStateBook::new();
    let mut listing = None;
    open_listing(&s, &mut book, &mut listing, Some(ONE_SOL + 1), None);
    let before = listing;
    let r = buy(
        &s.programs,
        &s.house,
        &s.auctioneer_authority,
        &bid_order(&s, &s.accounts.buyer.key, ONE_SOL),
        &s.accounts.buyer_trade_state.key,
        s.buyer_ts_bump,
        &mut book,
        &mut listing,
        200,
    );
    assert_eq!(r, Err(AuctioneerError::BelowReservePrice));
    assert!(listing.unwrap().highest_bid.is_none());
    assert_eq!(listing.unwrap().end_time, before.unwrap().end_time);
    assert!(book.get(&s.accounts.buyer_trade_state.key).is_none());
}

#[test]
fn failure_multiple_buy_increment() {
    let s = sale_fixture(3 * ONE_SOL, &[]);
    let mut book = TradeStateBook::new();
    let mut listing = None;
    open_listing(&s, &mut book, &mut listing, None, Some(3 * ONE_SOL));
    buy(
        &s.programs,
        &s.house,
        &s.auctioneer_authority,
        &bid_order(&s, &s.accounts.buyer.key, 3 * ONE_SOL),
        &s.accounts.buyer_trade_state.key,
        s.buyer_ts_bump,
        &mut book,
        &mut listing,
        200,
    )
    .unwrap();
    let rival = addr(81);
    let (rival_ts, rival_bump) = derive(
        &trade_state_seeds(
            &rival,
            &s.accounts.auction_house,
            &s.accounts.token_account.key,
            &s.house.treasury_mint,
            &s.accounts.token_mint,
            4 * ONE_SOL,
            1,
        ),
        &s.programs.auction_house,
    );
    let r = buy(&s.programs, &s.house, &s.auctioneer_authority, &bid_order(&s, &rival, 4 * ONE_SOL), &rival_ts, rival_bump, &mut book, &mut listing, 300);
    assert_eq!(r, Err(AuctioneerError::BelowBidIncrement));
    assert_eq!(listing.unwrap().highest_bid.unwrap().amount, 3 * ONE_SOL);
}

#[test]
fn sell_needs_the_asset_delegated() {
    let s = sale_fixture(ONE_SOL, &[]);
    let mut book = TradeStateBook::new();
    let mut listing = None;
    let order = bid_order(&s, &s.accounts.seller.key, 0);
    let r = sell(
        &s.programs,
        &s.house,
        &s.auctioneer_authority,
        &order,
        &s.accounts.token_account,
        &addr(99),
        &s.accounts.seller_trade_state.key,
        s.seller_ts_bump,
        &mut book,
        &mut listing,
        100,
        1_000,
        None,
        None,
        None,
        None,
    );
    assert_eq!(r, Err(AuctioneerError::AuctionHouse(AuctionHouseError::BothPartiesNeedToAgreeToSale)));
    assert!(listing.is_none());
    assert!(book.get(&s.accounts.seller_trade_state.key).is_none());
}

#[test]
fn sell_success() {
    let s = sale_fixture(ONE_SOL, &[]);
    let mut book = TradeStateBook::new();
    let mut listing = None;
    open_listing(&s, &mut book, &mut listing, None, None);
    assert_eq!(book.get(&s.accounts.seller_trade_state.key), Some(s.seller_ts_bump));
    let l = listing.unwrap();
    assert_eq!(l.start_time, 100);
    assert_eq!(l.end_time, 1_000);
    assert!(l.highest_bid.is_none());
    let mut again = listing;
    let r = sell(
        &s.programs,
        &s.house,
        &s.auctioneer_authority,
        &bid_order(&s, &s.accounts.seller.key, 0),
        &s.accounts.token_account,
        &s.accounts.program_as_signer,
        &s.accounts.seller_trade_state.key,
        s.seller_ts_bump,
        &mut book,
        &mut again,
        100,
        1_000,
        None,
        None,
        None,
        None,
    );
    assert_eq!(r, Err(AuctioneerError::ListingAlreadyOpen));
}

#[test]
fn failure_sell_wrong_auctioneer_authority() {
    let s = sale_fixture(ONE_SOL, &[]);
    let mut book = TradeStateBook::new();
    let mut listing = None;
    let r = sell(
        &s.programs,
        &s.house,
        &addr(98),
        &bid_order(&s, &s.accounts.seller.key, 0),
        &s.accounts.token_account,
        &s.accounts.program_as_signer,
        &s.accounts.seller_trade_state.key,
        s.seller_ts_bump,
        &mut book,
        &mut listing,
        100,
        1_000,
        None,
        None,
        None,
        None,
    );
    assert_eq!(r, Err(AuctioneerError::AuctionHouse(AuctionHouseError::DerivedKeyInvalid)));
    assert!(listing.is_none());
}

#[test]
fn buy_success() {
    let s = sale_fixture(ONE_SOL, &[]);
    let mut book = TradeStateBook::new();
    let mut listing = None;
    open_listing(&s, &mut book, &mut listing, None, None);
    buy(
        &s.programs,
        &s.house,
        &s.auctioneer_authority,
        &bid_order(&s, &s.accounts.buyer.key, ONE_SOL),
        &s.accounts.buyer_trade_state.key,
        s.buyer_ts_bump,
        &mut book,
        &mut listing,
        200,
    )
    .unwrap();
    let bid = listing.unwrap().highest_bid.unwrap();
    assert_eq!(bid.amount, ONE_SOL);
    assert!(same(&bid.buyer_trade_state, &s.accounts.buyer_trade_state.key));
    assert_eq!(book.get(&s.accounts.buyer_trade_state.key), Some(s.buyer_ts_bump));
    // The same trade state cannot bid twice.
    let again = buy(
        &s.programs,
        &s.house,
        &s.auctioneer_authority,
        &bid_order(&s, &s.accounts.buyer.key, ONE_SOL),
        &s.accounts.buyer_trade_state.key,
        s.buyer_ts_bump,
        &mut book,
        &mut listing,
        201,
    );
    assert_eq!(again, Err(AuctioneerError::AuctionHouse(AuctionHouseError::TradeStateAlreadyOpen)));
}

#[test]
fn multiple_buy_success() {
    let s = sale_fixture(ONE_SOL, &[]);
    let mut book = TradeStateBook::new();
    let mut listing = None;
    open_listing(&s, &mut book, &mut listing, None, None);
    let mut last = 0;
    for (i, price) in [ONE_SOL, 2 * ONE_SOL, 3 * ONE_SOL].iter().enumerate() {
        let bidder = addr(90 + i as u8);
        let (ts, bump) = derive(
            &trade_state_seeds(
                &bidder,
                &s.accounts.auction_house,
                &s.accounts.token_account.key,
                &s.house.treasury_mint,
                &s.accounts.token_mint,
                *price,
                1,
            ),
            &s.programs.auction_house,
        );
        buy(&s.programs, &s.house, &s.auctioneer_authority, &bid_order(&s, &bidder, *price), &ts, bump, &mut book, &mut listing, 200 + i as i64)
            .unwrap();
        let amount = listing.unwrap().highest_bid.unwrap().amount;
        assert!(amount > last);
        last = amount;
    }
    assert_eq!(last, 3 * ONE_SOL);
}
