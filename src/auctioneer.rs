use vstd::prelude::*;

use crate::account::AccountView;
use crate::action::Action;
use crate::address::{derive_address, program_address, same_address, Address};
use crate::auction::{bid_outcome, new_listing, ListingConfig};
use crate::cancel::{auctioneer_cancel, cancel_outcome, CancelAccounts};
use crate::error::{AuctionHouseError, AuctioneerError};
use crate::execute_sale::{
    auctioneer_execute_sale, auctioneer_sale_outcome, sale_checks, sale_preflight, ExecuteSaleAccounts,
    Programs,
};
use crate::delegation::{assert_auctioneer_delegation, delegation_error};
use crate::house::AuctionHouse;
use crate::pda::{auctioneer_authority_path, auctioneer_authority_seeds};
use crate::token::{assert_delegated_to, field, token_delegation_error};
use crate::trade_state::{assert_valid_trade_state, valid_trade_state, OrderTerms, TradeStateBook};

verus! {

/// Why the marketplace refuses the auctioneer acting on `order` for
/// `auctioneer_authority`; none where it accepts.
pub open spec fn auctioneer_refusal(
    programs: Programs,
    house: AuctionHouse,
    order: OrderTerms,
    auctioneer_authority: Address,
) -> Option<AuctionHouseError> {
    delegation_error(programs.auction_house@, house, order.auction_house@, auctioneer_authority@)
}

/// Authorizes the auctioneer over a marketplace: only its authority may, and
/// the result is the bump of the auctioneer's delegated authority.
pub fn auctioneer_authorize(programs: &Programs, house: &AuctionHouse, auction_house: &Address, wallet: &Address) -> (r: Result<u8, AuctioneerError>)
    ensures
        wallet@ != house.authority@ ==> r == Err::<u8, AuctioneerError>(AuctioneerError::SignerNotAuth),
        wallet@ == house.authority@ ==> match program_address(auctioneer_authority_path(auction_house@), programs.auction_house@) {
            Some(p) => r == Ok::<u8, AuctioneerError>(p.1),
            None => r == Err::<u8, AuctioneerError>(AuctioneerError::AuctionHouse(AuctionHouseError::DerivedKeyInvalid)),
        },
{
    if !same_address(wallet, &house.authority) {
        return Err(AuctioneerError::SignerNotAuth);
    }
    let seeds = auctioneer_authority_seeds(auction_house);
    match derive_address(&seeds, &programs.auction_house) {
        Ok((_, bump)) => Ok(bump),
        Err(e) => Err(AuctioneerError::AuctionHouse(e)),
    }
}

/// Opens an auction: the marketplace must accept the auctioneer; the asset's token account must already be delegated to
/// the program signer; the seller's trade state must be the trade state of
/// the order at the wildcard price (whatever `order.price` says) and not open yet, and no listing
/// may be open for it. Then the trade state opens with `trade_state_bump` and
/// the listing opens with no bid. On failure nothing changes.
pub fn sell(
    programs: &Programs,
    house: &AuctionHouse,
    auctioneer_authority: &Address,
    order: &OrderTerms,
    token_account: &AccountView,
    program_as_signer: &Address,
    trade_state: &Address,
    trade_state_bump: u8,
    book: &mut TradeStateBook,
    listing: &mut Option<ListingConfig>,
    start_time: i64,
    end_time: i64,
    reserve_price: Option<u64>,
    min_bid_increment: Option<u64>,
    time_ext_period: Option<u32>,
    time_ext_delta: Option<u32>,
) -> (r: Result<(), AuctioneerError>)
    requires
        old(book).well_formed(),
    ensures
        final(book).well_formed(),
        auctioneer_refusal(*programs, *house, *order, *auctioneer_authority) is Some ==> r == Err::<(), AuctioneerError>(
            AuctioneerError::AuctionHouse(auctioneer_refusal(*programs, *house, *order, *auctioneer_authority)->Some_0),
        ),
        auctioneer_refusal(*programs, *house, *order, *auctioneer_authority) is None && (*old(listing)) is Some ==> r == Err::<(), AuctioneerError>(AuctioneerError::ListingAlreadyOpen),
        auctioneer_refusal(*programs, *house, *order, *auctioneer_authority) is None && (*old(listing)) is None && token_delegation_error(token_account.data@, program_as_signer@) is Some ==> r == Err::<
            (),
            AuctioneerError,
        >(AuctioneerError::AuctionHouse(token_delegation_error(token_account.data@, program_as_signer@)->Some_0)),
        auctioneer_refusal(*programs, *house, *order, *auctioneer_authority) is None && (*old(listing)) is None && token_delegation_error(token_account.data@, program_as_signer@) is None
            && valid_trade_state(programs.auction_house@, OrderTerms { price: u64::MAX, ..*order }, trade_state@, trade_state_bump)
            is None ==> r == Err::<(), AuctioneerError>(
            AuctioneerError::AuctionHouse(AuctionHouseError::DerivedKeyInvalid),
        ),
        auctioneer_refusal(*programs, *house, *order, *auctioneer_authority) is None && (*old(listing)) is None && token_delegation_error(token_account.data@, program_as_signer@) is None
            && valid_trade_state(programs.auction_house@, OrderTerms { price: u64::MAX, ..*order }, trade_state@, trade_state_bump)
            is Some && old(book)@.contains_key(trade_state@) ==> r == Err::<(), AuctioneerError>(
            AuctioneerError::AuctionHouse(AuctionHouseError::TradeStateAlreadyOpen),
        ),
        auctioneer_refusal(*programs, *house, *order, *auctioneer_authority) is None && (*old(listing)) is None && token_delegation_error(token_account.data@, program_as_signer@) is None
            && valid_trade_state(programs.auction_house@, OrderTerms { price: u64::MAX, ..*order }, trade_state@, trade_state_bump)
            is Some && !old(book)@.contains_key(trade_state@) ==> r is Ok,
        r is Err ==> *final(listing) == *old(listing) && final(book)@ == old(book)@,
        r is Ok ==> final(book)@ == old(book)@.insert(trade_state@, trade_state_bump) && *final(listing) == Some(
            ListingConfig {
                start_time,
                end_time,
                reserve_price,
                min_bid_increment,
                time_ext_period,
                time_ext_delta,
                highest_bid: None,
            },
        ),
{
    if let Err(e) = assert_auctioneer_delegation(&programs.auction_house, house, &order.auction_house, auctioneer_authority) {
        return Err(AuctioneerError::AuctionHouse(e));
    }
    if listing.is_some() {
        return Err(AuctioneerError::ListingAlreadyOpen);
    }
    if let Err(e) = assert_delegated_to(token_account, program_as_signer) {
        return Err(AuctioneerError::AuctionHouse(e));
    }
    let ask = OrderTerms { price: u64::MAX, ..*order };
    if let Err(e) = assert_valid_trade_state(&programs.auction_house, &ask, trade_state, trade_state_bump) {
        return Err(AuctioneerError::AuctionHouse(e));
    }
    if let Err(e) = book.open(trade_state, trade_state_bump) {
        return Err(AuctioneerError::AuctionHouse(e));
    }
    *listing = Some(
        new_listing(start_time, end_time, reserve_price, min_bid_increment, time_ext_period, time_ext_delta),
    );
    Ok(())
}

/// Places a bid on an open auction at time `now`: the marketplace must
/// accept the auctioneer; the bidder's trade state
/// must be validly derived for its order and not open yet; the listing's
/// rules must accept the price. Then the trade state opens and the bid leads.
/// On failure nothing changes.
pub fn buy(
    programs: &Programs,
    house: &AuctionHouse,
    auctioneer_authority: &Address,
    order: &OrderTerms,
    trade_state: &Address,
    trade_state_bump: u8,
    book: &mut TradeStateBook,
    listing: &mut Option<ListingConfig>,
    now: i64,
) -> (r: Result<(), AuctioneerError>)
    requires
        old(book).well_formed(),
    ensures
        final(book).well_formed(),
        r is Err ==> *final(listing) == *old(listing) && final(book)@ == old(book)@,
        auctioneer_refusal(*programs, *house, *order, *auctioneer_authority) is Some ==> r == Err::<(), AuctioneerError>(
            AuctioneerError::AuctionHouse(auctioneer_refusal(*programs, *house, *order, *auctioneer_authority)->Some_0),
        ),
        auctioneer_refusal(*programs, *house, *order, *auctioneer_authority) is None && (*old(listing)) is None ==> r == Err::<(), AuctioneerError>(AuctioneerError::ListingNotOpen),
        auctioneer_refusal(*programs, *house, *order, *auctioneer_authority) is None && (*old(listing)) is Some ==> ({
            let l = (*old(listing))->Some_0;
            if valid_trade_state(programs.auction_house@, *order, trade_state@, trade_state_bump) is None {
                r == Err::<(), AuctioneerError>(AuctioneerError::AuctionHouse(AuctionHouseError::DerivedKeyInvalid))
            } else if old(book)@.contains_key(trade_state@) {
                r == Err::<(), AuctioneerError>(AuctioneerError::AuctionHouse(AuctionHouseError::TradeStateAlreadyOpen))
            } else {
                match bid_outcome(l, now, order.price, *trade_state) {
                    Err(e) => r == Err::<(), AuctioneerError>(e),
                    Ok(l2) => r is Ok && *final(listing) == Some(l2) && final(book)@ == old(book)@.insert(
                        trade_state@,
                        trade_state_bump,
                    ),
                }
            }
        }),
{
    if let Err(e) = assert_auctioneer_delegation(&programs.auction_house, house, &order.auction_house, auctioneer_authority) {
        return Err(AuctioneerError::AuctionHouse(e));
    }
    let mut l = match listing {
        Some(l) => *l,
        None => {
            return Err(AuctioneerError::ListingNotOpen);
        },
    };
    if let Err(e) = assert_valid_trade_state(&programs.auction_house, order, trade_state, trade_state_bump) {
        return Err(AuctioneerError::AuctionHouse(e));
    }
    if book.get(trade_state).is_some() {
        return Err(AuctioneerError::AuctionHouse(AuctionHouseError::TradeStateAlreadyOpen));
    }
    l.place_bid(now, order.price, trade_state)?;
    let opened = book.open(trade_state, trade_state_bump);
    assert(opened is Ok);
    *listing = Some(l);
    Ok(())
}

/// Cancels an order of an auction: the leading bid cannot be cancelled; the
/// marketplace cancels the order; its trade state leaves the book; where the
/// asset's owner cancels with its signature, the listing closes too and its
/// rent goes to the seller. On failure nothing changes.
pub fn cancel(
    programs: &Programs,
    house: &AuctionHouse,
    accounts: &CancelAccounts,
    auctioneer_authority: &Address,
    price: u64,
    size: u64,
    book: &mut TradeStateBook,
    listing: &mut Option<ListingConfig>,
    listing_config: &Address,
    seller: &Address,
) -> (r: Result<Vec<Action>, AuctioneerError>)
    requires
        old(book).well_formed(),
    ensures
        final(book).well_formed(),
        r is Err ==> *final(listing) == *old(listing) && final(book)@ == old(book)@,
        ((*old(listing)) is Some && (*old(listing))->Some_0.highest_bid is Some
            && (*old(listing))->Some_0.highest_bid->Some_0.buyer_trade_state@ == accounts.trade_state.key@) ==> r
            == Err::<Vec<Action>, AuctioneerError>(AuctioneerError::CannotCancelHighestBid),
        !((*old(listing)) is Some && (*old(listing))->Some_0.highest_bid is Some
            && (*old(listing))->Some_0.highest_bid->Some_0.buyer_trade_state@ == accounts.trade_state.key@) ==> ({
            let base = match delegation_error(programs.auction_house@, *house, accounts.auction_house@, auctioneer_authority@) {
                Some(e) => Err(e),
                None => cancel_outcome(*programs, *house, *accounts, price, size),
            };
            match base {
                Err(e) => r == Err::<Vec<Action>, AuctioneerError>(AuctioneerError::AuctionHouse(e)),
                Ok(s) => if !old(book)@.contains_key(accounts.trade_state.key@) {
                    r == Err::<Vec<Action>, AuctioneerError>(
                        AuctioneerError::AuctionHouse(AuctionHouseError::TradeStateNotOpen),
                    )
                } else {
                    let closes_listing = field(accounts.token_account.data@, 32, 32) == accounts.wallet.key@
                        && accounts.wallet.is_signer;
                    &&& r is Ok
                    &&& final(book)@ == old(book)@.remove(accounts.trade_state.key@)
                    &&& closes_listing ==> (*final(listing)) is None && r->Ok_0@ == s + seq![
                        Action::Close { account: *listing_config, receiver: *seller },
                    ]
                    &&& !closes_listing ==> *final(listing) == *old(listing) && r->Ok_0@ == s
                }
            }
        }),
{
    if let Some(l) = listing {
        if let Err(e) = l.check_cancel(&accounts.trade_state.key) {
            return Err(e);
        }
    }
    let mut actions = match auctioneer_cancel(programs, house, accounts, auctioneer_authority, price, size) {
        Ok(a) => a,
        Err(e) => {
            return Err(AuctioneerError::AuctionHouse(e));
        },
    };
    if book.get(&accounts.trade_state.key).is_none() {
        return Err(AuctioneerError::AuctionHouse(AuctionHouseError::TradeStateNotOpen));
    }
    let closed = book.close(&accounts.trade_state.key);
    assert(closed is Ok);
    let ghost base = actions@;
    let owner_cancels = match crate::token::unpack_initialized(&accounts.token_account.data) {
        Ok(t) => same_address(&t.owner, &accounts.wallet.key) && accounts.wallet.is_signer,
        Err(_) => false,
    };
    if owner_cancels {
        *listing = None;
        actions.push(Action::Close { account: *listing_config, receiver: *seller });
    }
    assert(owner_cancels ==> actions@ =~= base + seq![Action::Close { account: *listing_config, receiver: *seller }]);
    Ok(actions)
}

/// Settles an auction with its leading bid: only the leading bidder's trade
/// state may settle; the marketplace executes the sale; the buyer's trade
/// state leaves the book, the seller's too where no more of the asset stays
/// delegated; the listing closes and its rent goes to the seller. On any
/// failure nothing changes: neither the listing nor the book, and no effect
/// is returned.
pub fn execute_sale(
    programs: &Programs,
    house: &AuctionHouse,
    accounts: &ExecuteSaleAccounts,
    remaining: &Vec<AccountView>,
    auctioneer_authority: &Address,
    escrow_payment_bump: u8,
    free_trade_state_bump: u8,
    program_as_signer_bump: u8,
    price: u64,
    size: u64,
    book: &mut TradeStateBook,
    listing: &mut Option<ListingConfig>,
    listing_config: &Address,
) -> (r: Result<Vec<Action>, AuctioneerError>)
    requires
        old(book).well_formed(),
        house.well_formed(),
    ensures
        final(book).well_formed(),
        r is Err ==> *final(listing) == *old(listing) && final(book)@ == old(book)@,
        (*old(listing)) is None ==> r == Err::<Vec<Action>, AuctioneerError>(AuctioneerError::ListingNotOpen),
        ((*old(listing)) is Some && !((*old(listing))->Some_0.highest_bid is Some
            && (*old(listing))->Some_0.highest_bid->Some_0.buyer_trade_state@ == accounts.buyer_trade_state.key@))
            ==> r == Err::<Vec<Action>, AuctioneerError>(AuctioneerError::NotHighestBidder),
        ((*old(listing)) is Some && (*old(listing))->Some_0.highest_bid is Some
            && (*old(listing))->Some_0.highest_bid->Some_0.buyer_trade_state@ == accounts.buyer_trade_state.key@)
            ==> match auctioneer_sale_outcome(
            *programs,
            *house,
            *accounts,
            remaining@,
            *auctioneer_authority,
            escrow_payment_bump,
            free_trade_state_bump,
            program_as_signer_bump,
            price,
            size,
        ) {
            Err(e) => r == Err::<Vec<Action>, AuctioneerError>(AuctioneerError::AuctionHouse(e)),
            Ok(s) => {
                let seller_closes = sale_preflight(*programs, *house, *accounts, price, size)->Ok_0.delegated_amount
                    == size;
                if !old(book)@.contains_key(accounts.buyer_trade_state.key@) || (seller_closes
                    && !old(book)@.contains_key(accounts.seller_trade_state.key@)) {
                    r == Err::<Vec<Action>, AuctioneerError>(
                        AuctioneerError::AuctionHouse(AuctionHouseError::TradeStateNotOpen),
                    )
                } else {
                    &&& r is Ok
                    &&& r->Ok_0@ == s + seq![Action::Close { account: *listing_config, receiver: accounts.seller.key }]
                    &&& (*final(listing)) is None
                    &&& seller_closes ==> final(book)@ == old(book)@.remove(accounts.buyer_trade_state.key@).remove(
                        accounts.seller_trade_state.key@,
                    )
                    &&& !seller_closes ==> final(book)@ == old(book)@.remove(accounts.buyer_trade_state.key@)
                }
            },
        },
{
    let l = match listing {
        Some(l) => *l,
        None => {
            return Err(AuctioneerError::ListingNotOpen);
        },
    };
    l.check_highest_bidder(&accounts.buyer_trade_state.key)?;
    let mut actions = match auctioneer_execute_sale(
        programs,
        house,
        accounts,
        remaining,
        auctioneer_authority,
        escrow_payment_bump,
        free_trade_state_bump,
        program_as_signer_bump,
        price,
        size,
    ) {
        Ok(a) => a,
        Err(e) => {
            return Err(AuctioneerError::AuctionHouse(e));
        },
    };
    let facts = match sale_checks(programs, house, accounts, price, size) {
        Ok(f) => f,
        Err(e) => {
            return Err(AuctioneerError::AuctionHouse(e));
        },
    };
    let seller_closes = facts.delegated_amount == size;
    if book.get(&accounts.buyer_trade_state.key).is_none() || (seller_closes && book.get(
        &accounts.seller_trade_state.key,
    ).is_none()) {
        return Err(AuctioneerError::AuctionHouse(AuctionHouseError::TradeStateNotOpen));
    }
    let closed = book.close(&accounts.buyer_trade_state.key);
    assert(closed is Ok);
    if seller_closes {
        if !same_address(&accounts.seller_trade_state.key, &accounts.buyer_trade_state.key) {
            let closed2 = book.close(&accounts.seller_trade_state.key);
            assert(closed2 is Ok);
        }
    }
    *listing = None;
    actions.push(Action::Close { account: *listing_config, receiver: accounts.seller.key });
    Ok(actions)
}

} // verus!
