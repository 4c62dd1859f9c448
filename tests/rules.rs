use auction_house::account::AccountView;
use auction_house::action::Action;
use auction_house::address::{assert_keys_equal, derive_address, same_address, Address};
use auction_house::auction::new_listing;
use auction_house::error::{AuctionHouseError, AuctioneerError};
use auction_house::escrow::{verify_deposit, verify_withdrawal, EscrowLedger};
use auction_house::execute_sale::Programs;
use auction_house::house::{
    create_auction_house, delegate_auctioneer, get_fee_payer, update_auction_house, CreateAuctionHouseAccounts,
};
use auction_house::pda::{auction_house_seeds, auctioneer_seeds, fee_account_seeds, public_trade_state_seeds, trade_state_seeds, treasury_seeds};
use auction_house::royalty::{auction_house_fee, pay_creator_fees, Creator, RoyaltyTerms};
use auction_house::token::{get_delegate_from_token_account, get_mint_from_token_account, unpack_initialized};
use auction_house::trade_state::{assert_valid_trade_state, OrderTerms, TradeStateBook};

const ONE_SOL: u64 = 1_000_000_000;
const RENT: u64 = 890_880;

fn addr(n: u8) -> Address {
    Address::new([n; 32])
}

fn account(key: Address, lamports: u64, data: Vec<u8>, is_signer: bool) -> AccountView {
    AccountView { key, owner: addr(0), lamports, data, is_signer, rent_minimum: RENT }
}

fn token_data(mint: &Address, owner: &Address, amount: u64, delegate: Option<&Address>, state: u8) -> Vec<u8> {
    let mut d = Vec::new();
    d.extend_from_slice(&mint.bytes);
    d.extend_from_slice(&owner.bytes);
    d.extend_from_slice(&amount.to_le_bytes());
    match delegate {
        Some(k) => {
            d.extend_from_slice(&[1, 0, 0, 0]);
            d.extend_from_slice(&k.bytes);
        }
        None => d.extend_from_slice(&[0u8; 36]),
    }
    d.push(state);
    d.extend_from_slice(&[0u8; 12]);
    d.extend_from_slice(&amount.to_le_bytes());
    d.extend_from_slice(&[0u8; 36]);
    d
}

#[test]
fn failure_withdraw() {
    let deposit_amount = 2 * ONE_SOL;
    let mut ledger = EscrowLedger::new(RENT);
    let paid_in = ledger.deposit(deposit_amount).unwrap();
    assert_eq!(paid_in, deposit_amount + RENT);
    assert_eq!(ledger.balance, deposit_amount + RENT);
    let r = ledger.withdraw(deposit_amount + RENT + 1);
    assert_eq!(r, Err(AuctionHouseError::InsufficientFunds));
    assert_eq!(ledger.balance, deposit_amount + RENT);
}

#[test]
fn withdraw_success() {
    let mut ledger = EscrowLedger::new(RENT);
    ledger.deposit(2 * ONE_SOL).unwrap();
    // No top-up is needed while the escrow stays above its rent minimum.
    assert_eq!(ledger.withdraw(ONE_SOL), Ok(0));
    assert_eq!(ledger.balance, ONE_SOL + RENT);
    // Withdrawing everything pays it all out; the fee payer tops the
    // escrow back up to its rent-exempt minimum.
    assert_eq!(ledger.withdraw(ONE_SOL + RENT), Ok(RENT));
    assert_eq!(ledger.balance, RENT);
}

#[test]
fn close_escrow_account_success() {
    let mut ledger = EscrowLedger::new(RENT);
    ledger.deposit(ONE_SOL).unwrap();
    assert_eq!(ledger.close(), ONE_SOL + RENT);
    assert_eq!(ledger.balance, 0);
}

#[test]
fn deposit_overflow_is_refused() {
    let mut ledger = EscrowLedger::new(RENT);
    ledger.deposit(ONE_SOL).unwrap();
    assert_eq!(ledger.deposit(u64::MAX), Err(AuctionHouseError::NumericalOverflow));
    assert_eq!(ledger.balance, ONE_SOL + RENT);
}

#[test]
fn rent_shortfalls() {
    let escrow = account(addr(1), 1_000, vec![], false);
    assert_eq!(verify_withdrawal(&escrow, 1_001), Err(AuctionHouseError::InsufficientFunds));
    assert_eq!(verify_withdrawal(&escrow, 400), Ok(RENT - 600));
    assert_eq!(verify_deposit(&escrow, 0), Ok(RENT - 1_000));
    let full = account(addr(1), u64::MAX, vec![], false);
    assert_eq!(verify_deposit(&full, 1), Err(AuctionHouseError::NumericalOverflow));
}

#[test]
fn multiple_buy_time_ext_success() {
    let start = 1_000;
    let end = 1_120;
    let mut l = new_listing(start, end, None, None, Some(60), Some(60));
    l.place_bid(1_060, ONE_SOL, &addr(1)).unwrap();
    assert_eq!(l.end_time, end + 60);
    l.place_bid(1_121, 2 * ONE_SOL, &addr(2)).unwrap();
    assert_eq!(l.end_time, end + 60 + 60);
    // Far from the end, no extension.
    let mut quiet = new_listing(start, 10_000, None, None, Some(60), Some(60));
    quiet.place_bid(1_001, ONE_SOL, &addr(1)).unwrap();
    assert_eq!(quiet.end_time, 10_000);
}

#[test]
fn bids_outside_the_window_are_refused() {
    let mut l = new_listing(100, 200, None, None, None, None);
    assert_eq!(l.place_bid(99, 5, &addr(1)), Err(AuctioneerError::AuctionNotStarted));
    assert_eq!(l.place_bid(200, 5, &addr(1)), Err(AuctioneerError::AuctionEnded));
    assert!(l.highest_bid.is_none());
}

#[test]
fn lower_bid_without_increment_is_refused() {
    let mut l = new_listing(100, 200, None, None, None, None);
    l.place_bid(150, 10, &addr(1)).unwrap();
    assert_eq!(l.place_bid(150, 9, &addr(2)), Err(AuctioneerError::BelowBidIncrement));
    l.place_bid(150, 10, &addr(2)).unwrap();
    assert!(same_address(&l.highest_bid.unwrap().buyer_trade_state, &addr(2)));
}

#[test]
fn failure_cancel_buy_highest_bid() {
    let mut l = new_listing(100, 200, None, None, None, None);
    l.place_bid(150, ONE_SOL, &addr(7)).unwrap();
    assert_eq!(l.check_cancel(&addr(7)), Err(AuctioneerError::CannotCancelHighestBid));
    assert_eq!(l.check_cancel(&addr(8)), Ok(()));
    assert_eq!(l.check_highest_bidder(&addr(8)), Err(AuctioneerError::NotHighestBidder));
    assert_eq!(l.check_highest_bidder(&addr(7)), Ok(()));
}

#[test]
fn house_fee_is_floor_of_basis_points() {
    assert_eq!(auction_house_fee(100, ONE_SOL), 10_000_000);
    assert_eq!(auction_house_fee(333, 1_000), 33);
    assert_eq!(auction_house_fee(10_000, 7), 7);
    assert_eq!(auction_house_fee(0, 7), 0);
}

#[test]
fn creator_payment_below_rent_is_skipped() {
    let terms = RoyaltyTerms {
        seller_fee_basis_points: 1_000,
        creators: Some(vec![
            Creator { address: addr(70), verified: true, share: 50 },
            Creator { address: addr(71), verified: true, share: 50 },
        ]),
    };
    let poor = account(addr(70), 0, vec![], false);
    let rich = account(addr(71), ONE_SOL, vec![], false);
    let (actions, left) = pay_creator_fees(
        &vec![poor, rich],
        &terms,
        &addr(1),
        &addr(2),
        &addr(3),
        &addr(4),
        &addr(5),
        1_000_000,
        true,
    )
    .unwrap();
    // Royalties are 100_000; the first creator's 50_000 would leave it below
    // rent, so it is skipped and stays with the remainder.
    assert_eq!(actions.len(), 1);
    assert!(matches!(actions[0], Action::Transfer { amount: 50_000, .. }));
    assert_eq!(left, 950_000);
}

#[test]
fn creator_accounts_must_match() {
    let terms = RoyaltyTerms {
        seller_fee_basis_points: 500,
        creators: Some(vec![Creator { address: addr(70), verified: true, share: 100 }]),
    };
    let wrong = account(addr(72), ONE_SOL, vec![], false);
    let r = pay_creator_fees(&vec![wrong], &terms, &addr(1), &addr(2), &addr(3), &addr(4), &addr(5), ONE_SOL, true);
    assert_eq!(r.unwrap_err(), AuctionHouseError::PublicKeyMismatch);
    let r = pay_creator_fees(&vec![], &terms, &addr(1), &addr(2), &addr(3), &addr(4), &addr(5), ONE_SOL, true);
    assert_eq!(r.unwrap_err(), AuctionHouseError::NotEnoughAccountKeys);
}

#[test]
fn token_account_fields() {
    let data = token_data(&addr(3), &addr(4), 9, Some(&addr(5)), 1);
    assert!(same_address(&get_mint_from_token_account(&data).unwrap(), &addr(3)));
    assert!(same_address(&get_delegate_from_token_account(&data).unwrap().unwrap(), &addr(5)));
    let t = unpack_initialized(&data).unwrap();
    assert!(same_address(&t.owner, &addr(4)));
    assert_eq!(t.amount, 9);
    let plain = token_data(&addr(3), &addr(4), 9, None, 1);
    assert!(get_delegate_from_token_account(&plain).unwrap().is_none());
    let fresh = token_data(&addr(3), &addr(4), 9, None, 0);
    assert_eq!(unpack_initialized(&fresh).unwrap_err(), AuctionHouseError::UninitializedAccount);
    assert_eq!(unpack_initialized(&vec![0u8; 10]).unwrap_err(), AuctionHouseError::InvalidAccountData);
    assert_eq!(get_mint_from_token_account(&vec![0u8; 10]).unwrap_err(), AuctionHouseError::InvalidAccountData);
}

#[test]
fn keys_compare_by_bytes() {
    assert_eq!(assert_keys_equal(&addr(1), &addr(1)), Ok(()));
    assert_eq!(assert_keys_equal(&addr(1), &addr(2)), Err(AuctionHouseError::PublicKeyMismatch));
}

#[test]
fn derivation_is_deterministic() {
    let p = addr(200);
    let seeds = trade_state_seeds(&addr(1), &addr(2), &addr(3), &addr(4), &addr(5), 10, 1);
    let (k1, b1) = derive_address(&seeds, &p).unwrap();
    let (k2, b2) = derive_address(&seeds, &p).unwrap();
    assert!(same_address(&k1, &k2));
    assert_eq!(b1, b2);
    let other = trade_state_seeds(&addr(1), &addr(2), &addr(3), &addr(4), &addr(5), 11, 1);
    let (k3, _) = derive_address(&other, &p).unwrap();
    assert!(!same_address(&k1, &k3));
    let too_long = vec![vec![0u8; 33]];
    assert_eq!(derive_address(&too_long, &p).unwrap_err(), AuctionHouseError::DerivedKeyInvalid);
}

#[test]
fn trade_state_validates_under_one_form() {
    let p = addr(200);
    let terms = OrderTerms {
        wallet: addr(1),
        auction_house: addr(2),
        treasury_mint: addr(4),
        mint: addr(5),
        token_holder: addr(3),
        price: 10,
        size: 1,
    };
    let (private, pb) = derive_address(&trade_state_seeds(&addr(1), &addr(2), &addr(3), &addr(4), &addr(5), 10, 1), &p).unwrap();
    let (public, qb) = derive_address(&public_trade_state_seeds(&addr(1), &addr(2), &addr(4), &addr(5), 10, 1), &p).unwrap();
    assert_eq!(assert_valid_trade_state(&p, &terms, &private, pb), Ok(pb));
    assert_eq!(assert_valid_trade_state(&p, &terms, &public, qb), Ok(qb));
    assert_eq!(assert_valid_trade_state(&p, &terms, &private, pb.wrapping_sub(1)), Err(AuctionHouseError::DerivedKeyInvalid));
    assert_eq!(assert_valid_trade_state(&p, &terms, &addr(9), pb), Err(AuctionHouseError::DerivedKeyInvalid));
}

#[test]
fn opening_an_open_trade_state_fails() {
    let mut book = TradeStateBook::new();
    assert_eq!(book.open(&addr(1), 254), Ok(()));
    assert_eq!(book.open(&addr(1), 253), Err(AuctionHouseError::TradeStateAlreadyOpen));
    assert_eq!(book.get(&addr(1)), Some(254));
    assert_eq!(book.close(&addr(1)), Ok(254));
    assert_eq!(book.close(&addr(1)), Err(AuctionHouseError::TradeStateNotOpen));
}

fn creation(bps: u16) -> (CreateAuctionHouseAccounts, u8, u8) {
    let p = addr(200);
    let authority = addr(10);
    let mint = Programs::standard(p).native_mint;
    let (ah, _) = derive_address(&auction_house_seeds(&authority, &mint), &p).unwrap();
    let (fee, fb) = derive_address(&fee_account_seeds(&ah), &p).unwrap();
    let (tre, tb) = derive_address(&treasury_seeds(&ah), &p).unwrap();
    let _ = bps;
    (
        CreateAuctionHouseAccounts {
            treasury_mint: mint,
            payer: authority,
            authority,
            fee_withdrawal_destination: addr(11),
            treasury_withdrawal_destination: account(addr(12), 0, vec![], false),
            treasury_withdrawal_destination_owner: addr(12),
            auction_house: ah,
            auction_house_data: vec![],
            auction_house_fee_account: fee,
            auction_house_treasury: account(tre, 0, vec![], false),
        },
        fb,
        tb,
    )
}

#[test]
fn create_auction_house_success() {
    let programs = Programs::standard(addr(200));
    let (accounts, fb, tb) = creation(100);
    let (house, actions) =
        create_auction_house(&programs.auction_house, &programs.token, &accounts, fb, tb, 100, true, true).unwrap();
    assert_eq!(house.seller_fee_basis_points, 100);
    assert!(same_address(&house.authority, &addr(10)));
    assert!(!house.has_auctioneer);
    assert!(actions.is_empty());
}

#[test]
fn create_auction_house_rejects_bad_inputs() {
    let programs = Programs::standard(addr(200));
    let (accounts, fb, tb) = creation(100);
    let r = create_auction_house(&programs.auction_house, &programs.token, &accounts, fb, tb, 10_001, true, true);
    assert_eq!(r.unwrap_err(), AuctionHouseError::InvalidBasisPoints);
    let r = create_auction_house(&programs.auction_house, &programs.token, &accounts, fb.wrapping_sub(1), tb, 100, true, true);
    assert_eq!(r.unwrap_err(), AuctionHouseError::BumpSeedNotInHashMap);
    let mut wrong = accounts.clone();
    wrong.auction_house_fee_account = addr(13);
    let r = create_auction_house(&programs.auction_house, &programs.token, &wrong, fb, tb, 100, true, true);
    assert_eq!(r.unwrap_err(), AuctionHouseError::DerivedKeyInvalid);
}

#[test]
fn failure_create_auction_house_reinitialization() {
    let programs = Programs::standard(addr(200));
    let (mut accounts, fb, tb) = creation(100);
    create_auction_house(&programs.auction_house, &programs.token, &accounts, fb, tb, 100, false, true).unwrap();
    // The record now exists; creating it again with other destinations is refused.
    accounts.auction_house_data = vec![1u8; 8];
    accounts.fee_withdrawal_destination = addr(66);
    let r = create_auction_house(&programs.auction_house, &programs.token, &accounts, fb, tb, 100, false, true);
    assert_eq!(r.unwrap_err(), AuctionHouseError::AccountAlreadyInitialized);
}

fn created_house() -> (Programs, auction_house::house::AuctionHouse, Address) {
    let programs = Programs::standard(addr(200));
    let (accounts, fb, tb) = creation(100);
    let (house, _) =
        create_auction_house(&programs.auction_house, &programs.token, &accounts, fb, tb, 100, false, true).unwrap();
    (programs, house, accounts.auction_house)
}

#[test]
fn delegate_auctioneer_success() {
    let (programs, mut house, ah) = created_house();
    let (binding, bump) = derive_address(&auctioneer_seeds(&ah, &addr(20)), &programs.auction_house).unwrap();
    let authority = account(addr(10), 0, vec![], true);
    let a = delegate_auctioneer(&programs.auction_house, &mut house, &ah, &authority, &addr(20), &binding).unwrap();
    assert!(house.has_auctioneer);
    assert!(same_address(&house.auctioneer_address, &binding));
    assert!(same_address(&house.authority, &addr(10)));
    assert!(same_address(&a.auctioneer_authority, &addr(20)));
    assert!(same_address(&a.auction_house, &ah));
    assert_eq!(a.bump, bump);
}

#[test]
fn failure_delegate_auctioneer_redelegate() {
    let (programs, mut house, ah) = created_house();
    let authority = account(addr(10), 0, vec![], true);
    let (first, _) = derive_address(&auctioneer_seeds(&ah, &addr(20)), &programs.auction_house).unwrap();
    let (second, _) = derive_address(&auctioneer_seeds(&ah, &addr(21)), &programs.auction_house).unwrap();
    delegate_auctioneer(&programs.auction_house, &mut house, &ah, &authority, &addr(20), &first).unwrap();
    let r = delegate_auctioneer(&programs.auction_house, &mut house, &ah, &authority, &addr(21), &second);
    assert_eq!(r.unwrap_err(), AuctionHouseError::AuctionHouseAlreadyDelegated);
    assert!(same_address(&house.auctioneer_address, &first));
}

#[test]
fn delegation_needs_the_authority_and_the_derived_binding() {
    let (programs, mut house, ah) = created_house();
    let (binding, _) = derive_address(&auctioneer_seeds(&ah, &addr(20)), &programs.auction_house).unwrap();
    let stranger = account(addr(11), 0, vec![], true);
    let r = delegate_auctioneer(&programs.auction_house, &mut house, &ah, &stranger, &addr(20), &binding);
    assert_eq!(r.unwrap_err(), AuctionHouseError::PublicKeyMismatch);
    let unsigned = account(addr(10), 0, vec![], false);
    let r = delegate_auctioneer(&programs.auction_house, &mut house, &ah, &unsigned, &addr(20), &binding);
    assert_eq!(r.unwrap_err(), AuctionHouseError::NoValidSignerPresent);
    let authority = account(addr(10), 0, vec![], true);
    let r = delegate_auctioneer(&programs.auction_house, &mut house, &ah, &authority, &addr(20), &addr(77));
    assert_eq!(r.unwrap_err(), AuctionHouseError::DerivedKeyInvalid);
    assert!(!house.has_auctioneer);
}

#[test]
fn update_auction_house_checks_basis_points() {
    let (programs, mut house, _) = created_house();
    let dest = account(addr(12), 0, vec![], false);
    let authority = account(addr(10), 0, vec![], true);
    let r = update_auction_house(&mut house, &authority, &programs.token, &addr(10), &addr(30), &addr(11), &dest, &addr(12), Some(10_001), None, true);
    assert_eq!(r.unwrap_err(), AuctionHouseError::InvalidBasisPoints);
    assert_eq!(house.seller_fee_basis_points, 100);
    let stranger = account(addr(9), 0, vec![], true);
    let r = update_auction_house(&mut house, &stranger, &programs.token, &addr(9), &addr(9), &addr(9), &dest, &addr(12), Some(250), None, true);
    assert_eq!(r.unwrap_err(), AuctionHouseError::PublicKeyMismatch);
    assert!(same_address(&house.authority, &addr(10)));
    update_auction_house(&mut house, &authority, &programs.token, &addr(10), &addr(30), &addr(11), &dest, &addr(12), Some(250), Some(true), true).unwrap();
    assert_eq!(house.seller_fee_basis_points, 250);
    assert!(house.can_change_sale_price);
    assert!(same_address(&house.authority, &addr(30)));
}

#[test]
fn fee_payer_resolution() {
    let authority = account(addr(1), 0, vec![], true);
    let wallet = account(addr(2), 0, vec![], true);
    let (payer, signs) = get_fee_payer(&authority, &wallet, &addr(3)).unwrap();
    assert!(same_address(&payer, &addr(3)) && signs);
    let authority = account(addr(1), 0, vec![], false);
    let (payer, signs) = get_fee_payer(&authority, &wallet, &addr(3)).unwrap();
    assert!(same_address(&payer, &addr(2)) && !signs);
    let wallet = account(addr(2), 0, vec![], false);
    assert_eq!(get_fee_payer(&authority, &wallet, &addr(3)).unwrap_err(), AuctionHouseError::NoPayerPresent);
}

#[test]
fn standard_programs_are_the_declared_ones() {
    let p = Programs::standard(addr(200));
    assert_eq!(p.token.bytes, spl_token::id().to_bytes());
    assert_eq!(p.native_mint.bytes, spl_token::native_mint::id().to_bytes());
    assert_eq!(p.metadata.bytes, mpl_token_metadata::ID.to_bytes());
    assert_eq!(p.token.bytes[0], 6);
    assert_eq!(p.native_mint.bytes[31], 1);
    assert_eq!(p.metadata.bytes[0], 11);
}
