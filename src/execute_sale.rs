use vstd::prelude::*;
use vstd::bytes::{spec_u32_from_le_bytes, spec_u64_from_le_bytes};

use crate::account::AccountView;
use crate::action::{lemma_outflow_concat, lemma_outflow_single, outflow, Action};
use crate::address::{assert_derivation, assert_keys_equal, program_address, same_address, Address};
use crate::error::AuctionHouseError;
use crate::escrow::{shortfall, verify_withdrawal};
use crate::address::derived_at;
use crate::house::{get_fee_payer, AuctionHouse};
use crate::delegation::{assert_auctioneer_delegation, assert_canonical, canonical_error, delegation_error};
use crate::pda::{
    escrow_path, escrow_seeds, metadata_path, metadata_seeds, program_signer_path, program_signer_seeds,
    trade_state_path, trade_state_seeds,
};
use crate::royalty::{
    auction_house_fee, basis_points_of, creator_fees, decode_metadata, lemma_payouts_bounded,
    metadata_royalties, pay_creator_fees, payout_context, PayoutContext,
};
use crate::token::{
    assert_is_ata, ata_error, delegate_of, field, get_delegate_from_token_account,
    get_mint_from_token_account, token_account_well_formed, unpack_initialized,
};
use crate::trade_state::{assert_valid_trade_state, valid_trade_state, OrderTerms};

verus! {

/// The programs and mints the marketplace works with.
#[derive(Clone, Copy, Debug)]
pub struct Programs {
    /// The marketplace program, under which its identities are derived.
    pub auction_house: Address,
    pub token: Address,
    pub metadata: Address,
    /// The mint that stands for settlement in native value.
    pub native_mint: Address,
}

/// The token program's identity, `TokenkegQfeZyiNwAJbNbGKPFXCWuBvf9Ss623VQ5DA`.
pub open spec fn token_program_bytes() -> Seq<u8> {
    seq![6u8, 221, 246, 225, 215, 101, 161, 147, 217, 203, 225, 70, 206, 235, 121, 172, 28, 180, 133, 237, 95, 91, 55, 145, 58, 140, 245, 133, 126, 255, 0, 169]
}

/// The native mint's identity, `So11111111111111111111111111111111111111112`.
pub open spec fn native_mint_bytes() -> Seq<u8> {
    seq![6u8, 155, 136, 87, 254, 171, 129, 132, 251, 104, 127, 99, 70, 24, 192, 53, 218, 196, 57, 220, 26, 235, 59, 85, 152, 160, 240, 0, 0, 0, 0, 1]
}

/// The metadata program's identity, `metaqbxxUerdq28cj1RbAWkYQm3ybzjb6a8bt518x1s`.
pub open spec fn metadata_program_bytes() -> Seq<u8> {
    seq![11u8, 112, 101, 177, 227, 209, 124, 69, 56, 157, 82, 127, 107, 4, 195, 205, 88, 184, 108, 115, 26, 160, 253, 181, 73, 182, 209, 188, 3, 248, 41, 70]
}

/// Relies on spl-token's `id`: the token program's declared identity.
#[verifier::external_body]
fn token_program_id() -> (r: Address)
    ensures
        r@ == token_program_bytes(),
{
    Address { bytes: spl_token::id().to_bytes() }
}

/// Relies on spl-token's `native_mint::id`: the declared mint of wrapped native value.
#[verifier::external_body]
fn native_mint_id() -> (r: Address)
    ensures
        r@ == native_mint_bytes(),
{
    Address { bytes: spl_token::native_mint::id().to_bytes() }
}

/// Relies on mpl-token-metadata's `ID`: the metadata program's declared identity.
#[verifier::external_body]
fn metadata_program_id() -> (r: Address)
    ensures
        r@ == metadata_program_bytes(),
{
    Address { bytes: mpl_token_metadata::ID.to_bytes() }
}

impl Programs {
    /// The marketplace program `auction_house` with the host's token and
    /// metadata programs and its native mint.
    pub fn standard(auction_house: Address) -> (r: Programs)
        ensures
            r.auction_house == auction_house,
            r.token@ == token_program_bytes(),
            r.metadata@ == metadata_program_bytes(),
            r.native_mint@ == native_mint_bytes(),
    {
        Programs {
            auction_house,
            token: token_program_id(),
            metadata: metadata_program_id(),
            native_mint: native_mint_id(),
        }
    }
}

/// The accounts of a sale.
#[derive(Clone, Debug)]
pub struct ExecuteSaleAccounts {
    pub buyer: AccountView,
    pub seller: AccountView,
    pub token_account: AccountView,
    pub token_mint: Address,
    pub metadata: AccountView,
    pub treasury_mint: Address,
    pub escrow_payment_account: AccountView,
    pub seller_payment_receipt_account: AccountView,
    pub buyer_receipt_token_account: AccountView,
    pub authority: AccountView,
    pub auction_house: Address,
    pub auction_house_fee_account: Address,
    pub auction_house_treasury: Address,
    pub buyer_trade_state: AccountView,
    pub seller_trade_state: AccountView,
    pub free_trade_state: AccountView,
    pub program_as_signer: Address,
}

/// What the checks before any transfer establish: who pays for the sale's
/// new accounts, and how much of the asset is delegated to the program.
#[derive(Clone, Copy, Debug)]
pub struct SaleFacts {
    pub fee_payer: Address,
    pub delegated_amount: u64,
}

pub open spec fn is_native_sale(p: Programs, a: ExecuteSaleAccounts) -> bool {
    a.treasury_mint@ == p.native_mint@
}

/// The buyer's order as the sale names it.
pub open spec fn buyer_order(house: AuctionHouse, a: ExecuteSaleAccounts, price: u64, size: u64) -> OrderTerms {
    OrderTerms {
        wallet: a.buyer.key,
        auction_house: a.auction_house,
        treasury_mint: house.treasury_mint,
        mint: a.token_mint,
        token_holder: a.token_account.key,
        price,
        size,
    }
}

/// The checks of a sale before any transfer, in order: a free sale needs a
/// signature of the marketplace or the seller; the asset's token account must
/// be of the named mint and delegated to the program; both trade states must
/// be open and the buyer's must be validly derived; enough of the asset must
/// be held; someone must pay; the seller must hold the asset; the metadata
/// must be the asset's.
pub open spec fn sale_preflight(
    p: Programs,
    house: AuctionHouse,
    a: ExecuteSaleAccounts,
    price: u64,
    size: u64,
) -> Result<SaleFacts, AuctionHouseError> {
    let d = a.token_account.data@;
    let wallet = if a.buyer.is_signer {
        a.buyer
    } else {
        a.seller
    };
    if price == 0 && !a.authority.is_signer && !a.seller.is_signer {
        Err(AuctionHouseError::CannotMatchFreeSalesWithoutAuctionHouseOrSellerSignoff)
    } else if d.len() < 32 {
        Err(AuctionHouseError::InvalidAccountData)
    } else if a.token_mint@ != field(d, 0, 32) {
        Err(AuctionHouseError::PublicKeyMismatch)
    } else if d.len() < 108 {
        Err(AuctionHouseError::InvalidAccountData)
    } else if spec_u32_from_le_bytes(field(d, 72, 4)) == 0 {
        Err(AuctionHouseError::BothPartiesNeedToAgreeToSale)
    } else if a.program_as_signer@ != field(d, 76, 32) {
        Err(AuctionHouseError::PublicKeyMismatch)
    } else if a.buyer_trade_state.data@.len() == 0 {
        Err(AuctionHouseError::BuyerTradeStateNotValid)
    } else if a.buyer_trade_state.data@[0] == 0 || a.seller_trade_state.data@.len() == 0
        || a.seller_trade_state.data@[0] == 0 {
        Err(AuctionHouseError::BothPartiesNeedToAgreeToSale)
    } else if !token_account_well_formed(d) {
        Err(AuctionHouseError::InvalidAccountData)
    } else if d[108] == 0 {
        Err(AuctionHouseError::UninitializedAccount)
    } else if valid_trade_state(
        p.auction_house@,
        buyer_order(house, a, price, size),
        a.buyer_trade_state.key@,
        a.buyer_trade_state.data@[0],
    ) is None {
        Err(AuctionHouseError::DerivedKeyInvalid)
    } else if spec_u64_from_le_bytes(field(d, 64, 8)) < size {
        Err(AuctionHouseError::NotEnoughTokensAvailableForPurchase)
    } else if !a.authority.is_signer && !wallet.is_signer {
        Err(AuctionHouseError::NoPayerPresent)
    } else if ata_error(a.token_account, a.seller.key@, field(d, 0, 32), p.token@) is Some {
        Err(ata_error(a.token_account, a.seller.key@, field(d, 0, 32), p.token@)->Some_0)
    } else if derived_at(metadata_path(p.metadata@, field(d, 0, 32)), p.metadata@, a.metadata.key@) is None {
        Err(AuctionHouseError::DerivedKeyInvalid)
    } else {
        Ok(
            SaleFacts {
                fee_payer: if a.authority.is_signer {
                    a.auction_house_fee_account
                } else {
                    wallet.key
                },
                delegated_amount: spec_u64_from_le_bytes(field(d, 121, 8)),
            },
        )
    }
}

/// Checks that `metadata` is the metadata record of `mint` and holds data:
/// `DerivedKeyInvalid` where it is not the derived identity,
/// `MetadataDoesntExist` where it is empty.
pub fn assert_metadata_valid(programs: &Programs, metadata: &AccountView, mint: &Address) -> (r: Result<(), AuctionHouseError>)
    ensures
        derived_at(metadata_path(programs.metadata@, mint@), programs.metadata@, metadata.key@) is None ==> r
            == Err::<(), AuctionHouseError>(AuctionHouseError::DerivedKeyInvalid),
        derived_at(metadata_path(programs.metadata@, mint@), programs.metadata@, metadata.key@) is Some
            && metadata.data@.len() == 0 ==> r == Err::<(), AuctionHouseError>(AuctionHouseError::MetadataDoesntExist),
        derived_at(metadata_path(programs.metadata@, mint@), programs.metadata@, metadata.key@) is Some
            && metadata.data@.len() > 0 ==> r is Ok,
{
    let seeds = metadata_seeds(&programs.metadata, mint);
    assert_derivation(&programs.metadata, &metadata.key, &seeds)?;
    if metadata.data_is_empty() {
        return Err(AuctionHouseError::MetadataDoesntExist);
    }
    Ok(())
}

/// The metadata record of `mint`: its identity and bump under the metadata
/// program.
pub fn find_metadata_account(programs: &Programs, mint: &Address) -> (r: Result<(Address, u8), AuctionHouseError>)
    ensures
        match program_address(metadata_path(programs.metadata@, mint@), programs.metadata@) {
            Some(p) => r is Ok && r->Ok_0.0@ == p.0 && r->Ok_0.1 == p.1,
            None => r == Err::<(Address, u8), AuctionHouseError>(AuctionHouseError::DerivedKeyInvalid),
        },
{
    let seeds = metadata_seeds(&programs.metadata, mint);
    crate::address::derive_address(&seeds, &programs.metadata)
}

/// Runs the checks of a sale that come before any transfer.
pub fn sale_checks(
    programs: &Programs,
    house: &AuctionHouse,
    a: &ExecuteSaleAccounts,
    price: u64,
    size: u64,
) -> (r: Result<SaleFacts, AuctionHouseError>)
    ensures
        r == sale_preflight(*programs, *house, *a, price, size),
{
    if price == 0 && !a.authority.is_signer && !a.seller.is_signer {
        return Err(AuctionHouseError::CannotMatchFreeSalesWithoutAuctionHouseOrSellerSignoff);
    }
    let token_account_mint = get_mint_from_token_account(&a.token_account.data)?;
    assert_keys_equal(&a.token_mint, &token_account_mint)?;
    let delegate = get_delegate_from_token_account(&a.token_account.data)?;
    match delegate {
        Some(d) => {
            assert_keys_equal(&a.program_as_signer, &d)?;
        },
        None => {
            return Err(AuctionHouseError::BothPartiesNeedToAgreeToSale);
        },
    }
    if a.buyer_trade_state.data.len() == 0 {
        return Err(AuctionHouseError::BuyerTradeStateNotValid);
    }
    let ts_bump = a.buyer_trade_state.data[0];
    if ts_bump == 0 || a.seller_trade_state.data.len() == 0 || a.seller_trade_state.data[0] == 0 {
        return Err(AuctionHouseError::BothPartiesNeedToAgreeToSale);
    }
    let token = unpack_initialized(&a.token_account.data)?;
    let order = OrderTerms {
        wallet: a.buyer.key,
        auction_house: a.auction_house,
        treasury_mint: house.treasury_mint,
        mint: a.token_mint,
        token_holder: a.token_account.key,
        price,
        size,
    };
    assert(order == buyer_order(*house, *a, price, size));
    assert_valid_trade_state(&programs.auction_house, &order, &a.buyer_trade_state.key, ts_bump)?;
    if token.amount < size {
        return Err(AuctionHouseError::NotEnoughTokensAvailableForPurchase);
    }
    let wallet_to_use = if a.buyer.is_signer {
        &a.buyer
    } else {
        &a.seller
    };
    let (fee_payer, _) = get_fee_payer(&a.authority, wallet_to_use, &a.auction_house_fee_account)?;
    assert_is_ata(&a.token_account, &a.seller.key, &token_account_mint, &programs.token)?;
    let metadata_path_seeds = metadata_seeds(&programs.metadata, &token_account_mint);
    assert_derivation(&programs.metadata, &a.metadata.key, &metadata_path_seeds)?;
    Ok(SaleFacts { fee_payer, delegated_amount: token.delegated_amount })
}

/// Where the seller's proceeds go: in native value to the seller itself; in
/// tokens to the seller's associated token account, created where absent and
/// refused where it has a delegate.
pub open spec fn seller_payout(
    p: Programs,
    a: ExecuteSaleAccounts,
    fee_payer: Address,
    amount: u64,
    is_native: bool,
) -> Result<Seq<Action>, AuctionHouseError> {
    let receipt = a.seller_payment_receipt_account;
    let escrow = a.escrow_payment_account.key;
    let pay = Action::TokenTransfer { from: escrow, to: receipt.key, authority: a.auction_house, amount };
    if is_native {
        if receipt.key@ != a.seller.key@ {
            Err(AuctionHouseError::PublicKeyMismatch)
        } else {
            Ok(seq![Action::Transfer { from: escrow, to: receipt.key, amount }])
        }
    } else if receipt.data@.len() == 0 {
        Ok(
            seq![
                Action::CreateAssociatedTokenAccount {
                    account: receipt.key,
                    wallet: a.seller.key,
                    mint: a.treasury_mint,
                    payer: fee_payer,
                },
                pay,
            ],
        )
    } else if ata_error(receipt, a.seller.key@, a.treasury_mint@, p.token@) is Some {
        Err(ata_error(receipt, a.seller.key@, a.treasury_mint@, p.token@)->Some_0)
    } else if delegate_of(receipt.data@) is Some {
        Err(AuctionHouseError::SellerATACannotHaveDelegate)
    } else {
        Ok(seq![pay])
    }
}

fn pay_seller(
    programs: &Programs,
    a: &ExecuteSaleAccounts,
    fee_payer: &Address,
    amount: u64,
    is_native: bool,
) -> (r: Result<Vec<Action>, AuctionHouseError>)
    ensures
        match seller_payout(*programs, *a, *fee_payer, amount, is_native) {
            Ok(s) => r is Ok && r->Ok_0@ == s,
            Err(e) => r == Err::<Vec<Action>, AuctionHouseError>(e),
        },
{
    let receipt = &a.seller_payment_receipt_account;
    let escrow = a.escrow_payment_account.key;
    let pay = Action::TokenTransfer { from: escrow, to: receipt.key, authority: a.auction_house, amount };
    if is_native {
        assert_keys_equal(&receipt.key, &a.seller.key)?;
        let r: Vec<Action> = vec![Action::Transfer { from: escrow, to: receipt.key, amount }];
        assert(r@ =~= seq![Action::Transfer { from: escrow, to: receipt.key, amount }]);
        return Ok(r);
    }
    if receipt.data_is_empty() {
        let r: Vec<Action> = vec![
            Action::CreateAssociatedTokenAccount {
                account: receipt.key,
                wallet: a.seller.key,
                mint: a.treasury_mint,
                payer: *fee_payer,
            },
            pay,
        ];
        assert(r@ =~= seq![
            Action::CreateAssociatedTokenAccount {
                account: receipt.key,
                wallet: a.seller.key,
                mint: a.treasury_mint,
                payer: *fee_payer,
            },
            pay,
        ]);
        return Ok(r);
    }
    let rec = assert_is_ata(receipt, &a.seller.key, &a.treasury_mint, &programs.token)?;
    if rec.delegate.is_some() {
        return Err(AuctionHouseError::SellerATACannotHaveDelegate);
    }
    let r: Vec<Action> = vec![pay];
    assert(r@ =~= seq![pay]);
    Ok(r)
}

/// The context of the royalty payout of a sale.
pub open spec fn sale_payout_context(p: Programs, a: ExecuteSaleAccounts, fee_payer: Address) -> PayoutContext {
    payout_context(
        a.escrow_payment_account.key,
        a.auction_house,
        fee_payer,
        a.treasury_mint,
        p.token,
        is_native_sale(p, a),
    )
}

/// The marketplace fee transfer of a sale.
pub open spec fn house_fee_action(a: ExecuteSaleAccounts, fee: u64, is_native: bool) -> Action {
    if is_native {
        Action::Transfer { from: a.escrow_payment_account.key, to: a.auction_house_treasury, amount: fee }
    } else {
        Action::TokenTransfer {
            from: a.escrow_payment_account.key,
            to: a.auction_house_treasury,
            authority: a.auction_house,
            amount: fee,
        }
    }
}

/// How the price of a sale is split out of escrow: the creators' royalties,
/// the marketplace fee (`floor(price * bps / 10000)`) and the seller's
/// proceeds, with the effects that pay them and the three amounts.
pub open spec fn sale_split(
    p: Programs,
    house: AuctionHouse,
    a: ExecuteSaleAccounts,
    remaining: Seq<AccountView>,
    price: u64,
    fee_payer: Address,
) -> Result<(Seq<Action>, int, int, int), AuctionHouseError> {
    let is_native = is_native_sale(p, a);
    match metadata_royalties(a.metadata.data@) {
        None => Err(AuctionHouseError::InvalidAccountData),
        Some(t) => match creator_fees(sale_payout_context(p, a, fee_payer), remaining, t.0, t.1, price) {
            Err(e) => Err(e),
            Ok(rf) => {
                let fee = basis_points_of(house.seller_fee_basis_points as int, price as int);
                if rf.1 < fee {
                    Err(AuctionHouseError::NumericalOverflow)
                } else {
                    match seller_payout(p, a, fee_payer, (rf.1 - fee) as u64, is_native) {
                        Err(e) => Err(e),
                        Ok(sp) => Ok(
                            (rf.0 + seq![house_fee_action(a, fee as u64, is_native)] + sp, price - rf.1, fee, rf.1 - fee),
                        ),
                    }
                }
            },
        },
    }
}

/// The funds of a sale, after the checks: the escrow is topped up to stay
/// rent-exempt in native settlement, then the price is split.
pub open spec fn sale_payments(
    p: Programs,
    house: AuctionHouse,
    a: ExecuteSaleAccounts,
    remaining: Seq<AccountView>,
    price: u64,
    facts: SaleFacts,
) -> Result<Seq<Action>, AuctionHouseError> {
    let is_native = is_native_sale(p, a);
    let escrow = a.escrow_payment_account;
    if is_native && escrow.lamports < price {
        Err(AuctionHouseError::InsufficientFunds)
    } else {
        let top_up = if is_native {
            shortfall(escrow.rent_minimum as int, escrow.lamports - price)
        } else {
            0
        };
        let pre = if top_up > 0 {
            seq![Action::Transfer { from: facts.fee_payer, to: escrow.key, amount: top_up as u64 }]
        } else {
            Seq::empty()
        };
        if a.metadata.data@.len() == 0 {
            Err(AuctionHouseError::MetadataDoesntExist)
        } else {
            match sale_split(p, house, a, remaining, price, facts.fee_payer) {
                Err(e) => Err(e),
                Ok(sp) => Ok(pre + sp.0),
            }
        }
    }
}

/// In a sale whose split succeeds, the creators' royalties, the marketplace
/// fee and the seller's proceeds add up to the price; the royalties are at
/// most `floor(price * royalty bps / 10000)`, the fee is exactly
/// `floor(price * marketplace bps / 10000)`, and the effects move exactly the
/// price out of the escrow.
pub proof fn lemma_settlement_conservation(
    p: Programs,
    house: AuctionHouse,
    a: ExecuteSaleAccounts,
    remaining: Seq<AccountView>,
    price: u64,
    fee_payer: Address,
)
    requires
        sale_split(p, house, a, remaining, price, fee_payer) is Ok,
    ensures
        ({
            let s = sale_split(p, house, a, remaining, price, fee_payer)->Ok_0;
            let t = metadata_royalties(a.metadata.data@)->Some_0;
            &&& s.1 + s.2 + s.3 == price
            &&& 0 <= s.1 <= basis_points_of(t.0 as int, price as int)
            &&& s.2 == basis_points_of(house.seller_fee_basis_points as int, price as int)
            &&& 0 <= s.3
            &&& outflow(s.0, a.escrow_payment_account.key@) == price
        }),
{
    let t = metadata_royalties(a.metadata.data@)->Some_0;
    let ctx = sale_payout_context(p, a, fee_payer);
    let rf = creator_fees(ctx, remaining, t.0, t.1, price)->Ok_0;
    let total = basis_points_of(t.0 as int, price as int);
    let is_native = is_native_sale(p, a);
    let fee = basis_points_of(house.seller_fee_basis_points as int, price as int);
    let escrow = a.escrow_payment_account.key@;
    match t.1 {
        None => {
            assert(outflow(Seq::<Action>::empty(), escrow) == 0);
        },
        Some(cs) => {
            let c2 = PayoutContext { total_fee: total as u64, ..ctx };
            lemma_payouts_bounded(c2, remaining, cs, cs.len() as int);
        },
    }
    let sp = seller_payout(p, a, fee_payer, (rf.1 - fee) as u64, is_native)->Ok_0;
    let fa = house_fee_action(a, fee as u64, is_native);
    lemma_outflow_concat(rf.0, seq![fa], escrow);
    lemma_outflow_concat(rf.0 + seq![fa], sp, escrow);
    lemma_outflow_single(fa, escrow);
    let receipt = a.seller_payment_receipt_account;
    if is_native {
        lemma_outflow_single(sp[0], escrow);
    } else if receipt.data@.len() == 0 {
        assert(sp =~= seq![sp[0]] + seq![sp[1]]);
        lemma_outflow_concat(seq![sp[0]], seq![sp[1]], escrow);
        lemma_outflow_single(sp[0], escrow);
        lemma_outflow_single(sp[1], escrow);
    } else {
        lemma_outflow_single(sp[0], escrow);
    }
}

/// Makes the sale's payments.
pub fn pay_sale(
    programs: &Programs,
    house: &AuctionHouse,
    a: &ExecuteSaleAccounts,
    remaining: &Vec<AccountView>,
    price: u64,
    facts: &SaleFacts,
) -> (r: Result<Vec<Action>, AuctionHouseError>)
    requires
        house.well_formed(),
    ensures
        match sale_payments(*programs, *house, *a, remaining@, price, *facts) {
            Ok(s) => r is Ok && r->Ok_0@ == s,
            Err(e) => r == Err::<Vec<Action>, AuctionHouseError>(e),
        },
{
    let is_native = same_address(&a.treasury_mint, &programs.native_mint);
    let escrow = &a.escrow_payment_account;
    let mut actions: Vec<Action> = Vec::new();
    if is_native {
        let top_up = verify_withdrawal(escrow, price)?;
        if top_up > 0 {
            actions.push(Action::Transfer { from: facts.fee_payer, to: escrow.key, amount: top_up });
        }
    }
    let ghost pre = actions@;
    if a.metadata.data_is_empty() {
        return Err(AuctionHouseError::MetadataDoesntExist);
    }
    let terms = match decode_metadata(&a.metadata.data) {
        Some(t) => t,
        None => {
            return Err(AuctionHouseError::InvalidAccountData);
        },
    };
    let (mut royalties, leftover) = pay_creator_fees(
        remaining,
        &terms,
        &escrow.key,
        &a.auction_house,
        &facts.fee_payer,
        &a.treasury_mint,
        &programs.token,
        price,
        is_native,
    )?;
    let ghost roy = royalties@;
    let fee = auction_house_fee(house.seller_fee_basis_points, price);
    let fee_action = if is_native {
        Action::Transfer { from: escrow.key, to: a.auction_house_treasury, amount: fee }
    } else {
        Action::TokenTransfer { from: escrow.key, to: a.auction_house_treasury, authority: a.auction_house, amount: fee }
    };
    if leftover < fee {
        return Err(AuctionHouseError::NumericalOverflow);
    }
    let mut seller = pay_seller(programs, a, &facts.fee_payer, leftover - fee, is_native)?;
    let ghost sp = seller@;
    actions.append(&mut royalties);
    actions.push(fee_action);
    actions.append(&mut seller);
    proof {
        assert(actions@ =~= pre + roy + seq![fee_action] + sp);
    }
    Ok(actions)
}

/// The asset's delivery and the closing of the consumed orders: the buyer's
/// receipt account is created where absent, else must be the buyer's
/// undelegated token account; the program moves `size` of the asset; the
/// buyer's trade state closes, and the seller's (with its free companion)
/// once nothing of the asset stays delegated.
pub open spec fn sale_delivery(
    p: Programs,
    a: ExecuteSaleAccounts,
    size: u64,
    facts: SaleFacts,
) -> Result<Seq<Action>, AuctionHouseError> {
    let r = a.buyer_receipt_token_account;
    let d = r.data@;
    let create = d.len() == 0;
    if !create && !token_account_well_formed(d) {
        Err(AuctionHouseError::InvalidAccountData)
    } else if !create && d[108] == 0 {
        Err(AuctionHouseError::UninitializedAccount)
    } else if !create && field(d, 32, 32) != a.buyer.key@ {
        Err(AuctionHouseError::IncorrectOwner)
    } else if !create && ata_error(r, a.buyer.key@, a.token_mint@, p.token@) is Some {
        Err(ata_error(r, a.buyer.key@, a.token_mint@, p.token@)->Some_0)
    } else if !create && delegate_of(d) is Some {
        Err(AuctionHouseError::BuyerATACannotHaveDelegate)
    } else if facts.delegated_amount < size {
        Err(AuctionHouseError::InvalidTokenAmount)
    } else {
        let made = if create {
            seq![
                Action::CreateAssociatedTokenAccount {
                    account: r.key,
                    wallet: a.buyer.key,
                    mint: a.token_mint,
                    payer: facts.fee_payer,
                },
            ]
        } else {
            Seq::empty()
        };
        let moved = seq![
            Action::TokenTransfer {
                from: a.token_account.key,
                to: r.key,
                authority: a.program_as_signer,
                amount: size,
            },
            Action::Close { account: a.buyer_trade_state.key, receiver: facts.fee_payer },
        ];
        let free = if a.free_trade_state.lamports > 0 {
            seq![Action::Close { account: a.free_trade_state.key, receiver: facts.fee_payer }]
        } else {
            Seq::empty()
        };
        let seller_close = if facts.delegated_amount == size {
            seq![Action::Close { account: a.seller_trade_state.key, receiver: facts.fee_payer }] + free
        } else {
            Seq::empty()
        };
        Ok(made + moved + seller_close)
    }
}

/// Delivers the asset and closes the consumed orders.
pub fn deliver_sale(
    programs: &Programs,
    a: &ExecuteSaleAccounts,
    size: u64,
    facts: &SaleFacts,
) -> (r: Result<Vec<Action>, AuctionHouseError>)
    ensures
        match sale_delivery(*programs, *a, size, *facts) {
            Ok(s) => r is Ok && r->Ok_0@ == s,
            Err(e) => r == Err::<Vec<Action>, AuctionHouseError>(e),
        },
{
    let receipt = &a.buyer_receipt_token_account;
    let create = receipt.data_is_empty();
    if !create {
        let t = unpack_initialized(&receipt.data)?;
        if !same_address(&t.owner, &a.buyer.key) {
            return Err(AuctionHouseError::IncorrectOwner);
        }
        let rec = assert_is_ata(receipt, &a.buyer.key, &a.token_mint, &programs.token)?;
        if rec.delegate.is_some() {
            return Err(AuctionHouseError::BuyerATACannotHaveDelegate);
        }
    }
    if facts.delegated_amount < size {
        return Err(AuctionHouseError::InvalidTokenAmount);
    }
    let mut actions: Vec<Action> = Vec::new();
    if create {
        actions.push(
            Action::CreateAssociatedTokenAccount {
                account: receipt.key,
                wallet: a.buyer.key,
                mint: a.token_mint,
                payer: facts.fee_payer,
            },
        );
    }
    let ghost made = actions@;
    actions.push(
        Action::TokenTransfer { from: a.token_account.key, to: receipt.key, authority: a.program_as_signer, amount: size },
    );
    actions.push(Action::Close { account: a.buyer_trade_state.key, receiver: facts.fee_payer });
    let ghost mid = actions@;
    if facts.delegated_amount == size {
        actions.push(Action::Close { account: a.seller_trade_state.key, receiver: facts.fee_payer });
        if a.free_trade_state.lamports > 0 {
            actions.push(Action::Close { account: a.free_trade_state.key, receiver: facts.fee_payer });
        }
    }
    proof {
        let made_s = if create {
            seq![
                Action::CreateAssociatedTokenAccount {
                    account: receipt.key,
                    wallet: a.buyer.key,
                    mint: a.token_mint,
                    payer: facts.fee_payer,
                },
            ]
        } else {
            Seq::<Action>::empty()
        };
        let moved = seq![
            Action::TokenTransfer {
                from: a.token_account.key,
                to: receipt.key,
                authority: a.program_as_signer,
                amount: size,
            },
            Action::Close { account: a.buyer_trade_state.key, receiver: facts.fee_payer },
        ];
        let free = if a.free_trade_state.lamports > 0 {
            seq![Action::Close { account: a.free_trade_state.key, receiver: facts.fee_payer }]
        } else {
            Seq::<Action>::empty()
        };
        let seller_close = if facts.delegated_amount == size {
            seq![Action::Close { account: a.seller_trade_state.key, receiver: facts.fee_payer }] + free
        } else {
            Seq::<Action>::empty()
        };
        assert(made =~= made_s);
        assert(mid =~= made_s + moved);
        assert(actions@ =~= made_s + moved + seller_close);
    }
    Ok(actions)
}

/// A whole sale: the checks, then the payments, then the delivery.
pub open spec fn sale_outcome(
    p: Programs,
    house: AuctionHouse,
    a: ExecuteSaleAccounts,
    remaining: Seq<AccountView>,
    price: u64,
    size: u64,
) -> Result<Seq<Action>, AuctionHouseError> {
    match sale_preflight(p, house, a, price, size) {
        Err(e) => Err(e),
        Ok(f) => match sale_payments(p, house, a, remaining, price, f) {
            Err(e) => Err(e),
            Ok(pay) => match sale_delivery(p, a, size, f) {
                Err(e) => Err(e),
                Ok(del) => Ok(pay + del),
            },
        },
    }
}

/// Executes a matched sale of `size` units at `price`, returning the effects
/// to carry out, all of them or, on any failure, none.
pub fn execute_sale_logic(
    programs: &Programs,
    house: &AuctionHouse,
    accounts: &ExecuteSaleAccounts,
    remaining: &Vec<AccountView>,
    price: u64,
    size: u64,
) -> (r: Result<Vec<Action>, AuctionHouseError>)
    requires
        house.well_formed(),
    ensures
        match sale_outcome(*programs, *house, *accounts, remaining@, price, size) {
            Ok(s) => r is Ok && r->Ok_0@ == s,
            Err(e) => r == Err::<Vec<Action>, AuctionHouseError>(e),
        },
{
    let facts = sale_checks(programs, house, accounts, price, size)?;
    let mut actions = pay_sale(programs, house, accounts, remaining, price, &facts)?;
    let ghost pay = actions@;
    let mut delivery = deliver_sale(programs, accounts, size, &facts)?;
    let ghost del = delivery@;
    actions.append(&mut delivery);
    assert(actions@ =~= pay + del);
    Ok(actions)
}

/// A sale made for the marketplace's auctioneer: the delegation check; the
/// canonical bumps of the buyer's escrow, the seller's free trade state and
/// the program signer; then the sale.
pub open spec fn auctioneer_sale_outcome(
    p: Programs,
    house: AuctionHouse,
    a: ExecuteSaleAccounts,
    remaining: Seq<AccountView>,
    auctioneer_authority: Address,
    escrow_payment_bump: u8,
    free_trade_state_bump: u8,
    program_as_signer_bump: u8,
    price: u64,
    size: u64,
) -> Result<Seq<Action>, AuctionHouseError> {
    let program = p.auction_house@;
    let free_path = trade_state_path(
        a.seller.key@,
        a.auction_house@,
        a.token_account.key@,
        house.treasury_mint@,
        a.token_mint@,
        0,
        size,
    );
    if delegation_error(program, house, a.auction_house@, auctioneer_authority@) is Some {
        Err(delegation_error(program, house, a.auction_house@, auctioneer_authority@)->Some_0)
    } else if canonical_error(escrow_path(a.auction_house@, a.buyer.key@), program, a.escrow_payment_account.key@, escrow_payment_bump) is Some {
        Err(canonical_error(escrow_path(a.auction_house@, a.buyer.key@), program, a.escrow_payment_account.key@, escrow_payment_bump)->Some_0)
    } else if canonical_error(free_path, program, a.free_trade_state.key@, free_trade_state_bump) is Some {
        Err(canonical_error(free_path, program, a.free_trade_state.key@, free_trade_state_bump)->Some_0)
    } else if canonical_error(program_signer_path(), program, a.program_as_signer@, program_as_signer_bump) is Some {
        Err(canonical_error(program_signer_path(), program, a.program_as_signer@, program_as_signer_bump)->Some_0)
    } else {
        sale_outcome(p, house, a, remaining, price, size)
    }
}

/// Executes a sale on behalf of the marketplace's auctioneer.
pub fn auctioneer_execute_sale(
    programs: &Programs,
    house: &AuctionHouse,
    accounts: &ExecuteSaleAccounts,
    remaining: &Vec<AccountView>,
    auctioneer_authority: &Address,
    escrow_payment_bump: u8,
    free_trade_state_bump: u8,
    program_as_signer_bump: u8,
    price: u64,
    size: u64,
) -> (r: Result<Vec<Action>, AuctionHouseError>)
    requires
        house.well_formed(),
    ensures
        match auctioneer_sale_outcome(
            *programs,
            *house,
            *accounts,
            remaining@,
            *auctioneer_authority,
            escrow_payment_bump,
            free_trade_state_bump,
            program_as_signer_bump,
            price,
            size,
        ) {
            Ok(s) => r is Ok && r->Ok_0@ == s,
            Err(e) => r == Err::<Vec<Action>, AuctionHouseError>(e),
        },
{
    let program = &programs.auction_house;
    assert_auctioneer_delegation(program, house, &accounts.auction_house, auctioneer_authority)?;
    let escrow = escrow_seeds(&accounts.auction_house, &accounts.buyer.key);
    assert_canonical(&escrow, program, &accounts.escrow_payment_account.key, escrow_payment_bump)?;
    let free = trade_state_seeds(
        &accounts.seller.key,
        &accounts.auction_house,
        &accounts.token_account.key,
        &house.treasury_mint,
        &accounts.token_mint,
        0,
        size,
    );
    assert_canonical(&free, program, &accounts.free_trade_state.key, free_trade_state_bump)?;
    let signer = program_signer_seeds();
    assert_canonical(&signer, program, &accounts.program_as_signer, program_as_signer_bump)?;
    execute_sale_logic(programs, house, accounts, remaining, price, size)
}

} // verus!
