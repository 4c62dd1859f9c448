use vstd::prelude::*;

use crate::account::AccountView;
use crate::action::Action;
use crate::address::{assert_keys_equal, same_address, Address};
use crate::error::AuctionHouseError;
use crate::execute_sale::Programs;
use crate::delegation::{assert_auctioneer_delegation, delegation_error};
use crate::house::{get_fee_payer, AuctionHouse};
use crate::token::{field, token_account_well_formed, unpack_initialized, TokenAccount};
use crate::trade_state::{assert_valid_trade_state, valid_trade_state, OrderTerms};

verus! {

/// The accounts of a cancellation.
#[derive(Clone, Debug)]
pub struct CancelAccounts {
    pub wallet: AccountView,
    pub token_account: AccountView,
    pub token_mint: Address,
    pub authority: AccountView,
    pub auction_house: Address,
    pub auction_house_fee_account: Address,
    pub trade_state: AccountView,
}

/// The order a cancellation names.
pub open spec fn cancel_order(house: AuctionHouse, a: CancelAccounts, price: u64, size: u64) -> OrderTerms {
    OrderTerms {
        wallet: a.wallet.key,
        auction_house: a.auction_house,
        treasury_mint: house.treasury_mint,
        mint: Address { bytes: choose|b: [u8; 32]| #[trigger] b@ == field(a.token_account.data@, 0, 32) },
        token_holder: a.token_account.key,
        price,
        size,
    }
}

/// A cancellation of the order (`price`, `size`) of the wallet: the token
/// account must decode; the trade state must be open and validly derived for
/// that order; the mint must match; the wallet or the marketplace must sign;
/// the owner of the asset, signing, revokes the program's delegation; the
/// trade state closes to the fee payer.
pub open spec fn cancel_outcome(
    p: Programs,
    house: AuctionHouse,
    a: CancelAccounts,
    price: u64,
    size: u64,
) -> Result<Seq<Action>, AuctionHouseError> {
    let d = a.token_account.data@;
    if !token_account_well_formed(d) {
        Err(AuctionHouseError::InvalidAccountData)
    } else if d[108] == 0 {
        Err(AuctionHouseError::UninitializedAccount)
    } else if a.trade_state.data@.len() == 0 {
        Err(AuctionHouseError::TradeStateNotOpen)
    } else if valid_trade_state(
        p.auction_house@,
        cancel_order(house, a, price, size),
        a.trade_state.key@,
        a.trade_state.data@[0],
    ) is None {
        Err(AuctionHouseError::DerivedKeyInvalid)
    } else if a.token_mint@ != field(d, 0, 32) {
        Err(AuctionHouseError::PublicKeyMismatch)
    } else if !a.wallet.is_signer && !a.authority.is_signer {
        Err(AuctionHouseError::NoValidSignerPresent)
    } else {
        let fee_payer = if a.authority.is_signer {
            a.auction_house_fee_account
        } else {
            a.wallet.key
        };
        let revoke = if field(d, 32, 32) == a.wallet.key@ && a.wallet.is_signer {
            seq![Action::Revoke { account: a.token_account.key, owner: a.wallet.key }]
        } else {
            Seq::empty()
        };
        Ok(revoke + seq![Action::Close { account: a.trade_state.key, receiver: fee_payer }])
    }
}

/// Cancels an open order.
pub fn cancel_logic(programs: &Programs, house: &AuctionHouse, a: &CancelAccounts, price: u64, size: u64) -> (r: Result<Vec<Action>, AuctionHouseError>)
    ensures
        match cancel_outcome(*programs, *house, *a, price, size) {
            Ok(s) => r is Ok && r->Ok_0@ == s,
            Err(e) => r == Err::<Vec<Action>, AuctionHouseError>(e),
        },
{
    let token: TokenAccount = unpack_initialized(&a.token_account.data)?;
    if a.trade_state.data.len() == 0 {
        return Err(AuctionHouseError::TradeStateNotOpen);
    }
    let ts_bump = a.trade_state.data[0];
    let order = OrderTerms {
        wallet: a.wallet.key,
        auction_house: a.auction_house,
        treasury_mint: house.treasury_mint,
        mint: token.mint,
        token_holder: a.token_account.key,
        price,
        size,
    };
    proof {
        let m = choose|b: [u8; 32]| #[trigger] b@ == field(a.token_account.data@, 0, 32);
        assert(token.mint.bytes@ == field(a.token_account.data@, 0, 32));
        assert(m@ == token.mint.bytes@);
        assert(m == token.mint.bytes);
        assert(order == cancel_order(*house, *a, price, size));
    }
    assert_valid_trade_state(&programs.auction_house, &order, &a.trade_state.key, ts_bump)?;
    assert_keys_equal(&a.token_mint, &token.mint)?;
    if !a.wallet.is_signer && !a.authority.is_signer {
        return Err(AuctionHouseError::NoValidSignerPresent);
    }
    let (fee_payer, _) = get_fee_payer(&a.authority, &a.wallet, &a.auction_house_fee_account)?;
    let mut actions: Vec<Action> = Vec::new();
    if same_address(&token.owner, &a.wallet.key) && a.wallet.is_signer {
        actions.push(Action::Revoke { account: a.token_account.key, owner: a.wallet.key });
    }
    let ghost made = actions@;
    actions.push(Action::Close { account: a.trade_state.key, receiver: fee_payer });
    proof {
        let revoke = if field(a.token_account.data@, 32, 32) == a.wallet.key@ && a.wallet.is_signer {
            seq![Action::Revoke { account: a.token_account.key, owner: a.wallet.key }]
        } else {
            Seq::<Action>::empty()
        };
        assert(made =~= revoke);
        assert(actions@ =~= revoke + seq![Action::Close { account: a.trade_state.key, receiver: fee_payer }]);
    }
    Ok(actions)
}

/// Cancels an order on behalf of the marketplace's auctioneer.
pub fn auctioneer_cancel(
    programs: &Programs,
    house: &AuctionHouse,
    a: &CancelAccounts,
    auctioneer_authority: &Address,
    price: u64,
    size: u64,
) -> (r: Result<Vec<Action>, AuctionHouseError>)
    ensures
        match delegation_error(programs.auction_house@, *house, a.auction_house@, auctioneer_authority@) {
            Some(e) => r == Err::<Vec<Action>, AuctionHouseError>(e),
            None => match cancel_outcome(*programs, *house, *a, price, size) {
                Ok(s) => r is Ok && r->Ok_0@ == s,
                Err(e) => r == Err::<Vec<Action>, AuctionHouseError>(e),
            },
        },
{
    assert_auctioneer_delegation(&programs.auction_house, house, &a.auction_house, auctioneer_authority)?;
    cancel_logic(programs, house, a, price, size)
}

} // verus!
