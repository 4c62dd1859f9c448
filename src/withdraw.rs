use vstd::prelude::*;

use crate::account::AccountView;
use crate::action::Action;
use crate::address::{assert_keys_equal, same_address, Address};
use crate::error::AuctionHouseError;
use crate::escrow::{ledger_sound, shortfall, verify_withdrawal, withdraw_result};
use crate::execute_sale::Programs;
use crate::delegation::{assert_auctioneer_delegation, assert_canonical, canonical_error, delegation_error};
use crate::house::{get_fee_payer, AuctionHouse};
use crate::pda::{escrow_path, escrow_seeds};
use crate::token::{assert_is_ata, ata_error};

verus! {

/// The accounts of a withdrawal from escrow.
#[derive(Clone, Debug)]
pub struct WithdrawAccounts {
    pub wallet: AccountView,
    pub receipt_account: AccountView,
    pub escrow_payment_account: AccountView,
    pub treasury_mint: Address,
    pub authority: AccountView,
    pub auction_house: Address,
    pub auction_house_fee_account: Address,
}

/// A withdrawal of `amount` from escrow: someone must pay; in native value
/// it is refused beyond the balance and otherwise paid in full to the wallet
/// itself, the fee payer first topping the escrow up to its rent-exempt
/// minimum; in tokens it goes, under the
/// marketplace's authority, to the wallet's token account, created where
/// absent.
pub open spec fn withdraw_outcome(p: Programs, a: WithdrawAccounts, amount: u64) -> Result<Seq<Action>, AuctionHouseError> {
    let is_native = a.treasury_mint@ == p.native_mint@;
    let escrow = a.escrow_payment_account;
    let receipt = a.receipt_account;
    if !a.authority.is_signer && !a.wallet.is_signer {
        Err(AuctionHouseError::NoPayerPresent)
    } else {
        let fee_payer = if a.authority.is_signer {
            a.auction_house_fee_account
        } else {
            a.wallet.key
        };
        if !is_native {
            let pay = Action::TokenTransfer { from: escrow.key, to: receipt.key, authority: a.auction_house, amount };
            if receipt.data@.len() == 0 {
                Ok(
                    seq![
                        Action::CreateAssociatedTokenAccount {
                            account: receipt.key,
                            wallet: a.wallet.key,
                            mint: a.treasury_mint,
                            payer: fee_payer,
                        },
                        pay,
                    ],
                )
            } else {
                match ata_error(receipt, a.wallet.key@, a.treasury_mint@, p.token@) {
                    Some(e) => Err(e),
                    None => Ok(seq![pay]),
                }
            }
        } else if receipt.key@ != a.wallet.key@ {
            Err(AuctionHouseError::PublicKeyMismatch)
        } else if amount > escrow.lamports {
            Err(AuctionHouseError::InsufficientFunds)
        } else {
            let top_up = shortfall(escrow.rent_minimum as int, escrow.lamports - amount);
            let pre = if top_up > 0 {
                seq![Action::Transfer { from: fee_payer, to: escrow.key, amount: top_up as u64 }]
            } else {
                Seq::empty()
            };
            Ok(pre + seq![Action::Transfer { from: escrow.key, to: receipt.key, amount }])
        }
    }
}

/// Withdraws `amount` from the wallet's escrow.
pub fn withdraw_logic(programs: &Programs, a: &WithdrawAccounts, amount: u64) -> (r: Result<Vec<Action>, AuctionHouseError>)
    ensures
        match withdraw_outcome(*programs, *a, amount) {
            Ok(s) => r is Ok && r->Ok_0@ == s,
            Err(e) => r == Err::<Vec<Action>, AuctionHouseError>(e),
        },
{
    let (fee_payer, _) = get_fee_payer(&a.authority, &a.wallet, &a.auction_house_fee_account)?;
    let is_native = same_address(&a.treasury_mint, &programs.native_mint);
    let escrow = &a.escrow_payment_account;
    let receipt = &a.receipt_account;
    if !is_native {
        let pay = Action::TokenTransfer { from: escrow.key, to: receipt.key, authority: a.auction_house, amount };
        if receipt.data_is_empty() {
            let r: Vec<Action> = vec![
                Action::CreateAssociatedTokenAccount {
                    account: receipt.key,
                    wallet: a.wallet.key,
                    mint: a.treasury_mint,
                    payer: fee_payer,
                },
                pay,
            ];
            assert(r@ =~= seq![
                Action::CreateAssociatedTokenAccount {
                    account: receipt.key,
                    wallet: a.wallet.key,
                    mint: a.treasury_mint,
                    payer: fee_payer,
                },
                pay,
            ]);
            return Ok(r);
        }
        assert_is_ata(receipt, &a.wallet.key, &a.treasury_mint, &programs.token)?;
        let r: Vec<Action> = vec![pay];
        assert(r@ =~= seq![pay]);
        return Ok(r);
    }
    assert_keys_equal(&receipt.key, &a.wallet.key)?;
    let top_up = verify_withdrawal(escrow, amount)?;
    let mut r: Vec<Action> = Vec::new();
    if top_up > 0 {
        r.push(Action::Transfer { from: fee_payer, to: escrow.key, amount: top_up });
    }
    let ghost pre = r@;
    r.push(Action::Transfer { from: escrow.key, to: receipt.key, amount });
    assert(r@ =~= pre + seq![Action::Transfer { from: escrow.key, to: receipt.key, amount }]);
    Ok(r)
}

/// A withdrawal made for the marketplace's auctioneer: the delegation check, the
/// canonical escrow bump, then the withdrawal.
pub open spec fn auctioneer_withdraw_outcome(
    p: Programs,
    house: AuctionHouse,
    a: WithdrawAccounts,
    auctioneer_authority: Address,
    escrow_payment_bump: u8,
    amount: u64,
) -> Result<Seq<Action>, AuctionHouseError> {
    match delegation_error(p.auction_house@, house, a.auction_house@, auctioneer_authority@) {
        Some(e) => Err(e),
        None => match canonical_error(
            escrow_path(a.auction_house@, a.wallet.key@),
            p.auction_house@,
            a.escrow_payment_account.key@,
            escrow_payment_bump,
        ) {
            Some(e) => Err(e),
            None => withdraw_outcome(p, a, amount),
        },
    }
}

/// Withdraws from escrow on behalf of the marketplace's auctioneer.
pub fn auctioneer_withdraw(
    programs: &Programs,
    house: &AuctionHouse,
    a: &WithdrawAccounts,
    auctioneer_authority: &Address,
    escrow_payment_bump: u8,
    amount: u64,
) -> (r: Result<Vec<Action>, AuctionHouseError>)
    ensures
        match auctioneer_withdraw_outcome(*programs, *house, *a, *auctioneer_authority, escrow_payment_bump, amount) {
            Ok(s) => r is Ok && r->Ok_0@ == s,
            Err(e) => r == Err::<Vec<Action>, AuctionHouseError>(e),
        },
{
    assert_auctioneer_delegation(&programs.auction_house, house, &a.auction_house, auctioneer_authority)?;
    let seeds = escrow_seeds(&a.auction_house, &a.wallet.key);
    assert_canonical(&seeds, &programs.auction_house, &a.escrow_payment_account.key, escrow_payment_bump)?;
    withdraw_logic(programs, a, amount)
}

/// A native withdrawal does what the escrow ledger says: it is refused
/// exactly where the ledger refuses, with the same error; otherwise the fee
/// payer tops the escrow up by the ledger's top-up, the wallet is paid the
/// whole amount, and what stays in escrow is the ledger's new balance, never
/// below the rent-exempt minimum.
pub proof fn lemma_withdraw_follows_ledger(p: Programs, a: WithdrawAccounts, amount: u64)
    requires
        a.treasury_mint@ == p.native_mint@,
        a.authority.is_signer || a.wallet.is_signer,
        a.receipt_account.key@ == a.wallet.key@,
    ensures
        match withdraw_result(a.escrow_payment_account.lamports as int, a.escrow_payment_account.rent_minimum as int, amount as int) {
            Err(e) => withdraw_outcome(p, a, amount) == Err::<Seq<Action>, AuctionHouseError>(e),
            Ok(res) => {
                let fee_payer = if a.authority.is_signer {
                    a.auction_house_fee_account
                } else {
                    a.wallet.key
                };
                let pre = if res.1 > 0 {
                    seq![Action::Transfer { from: fee_payer, to: a.escrow_payment_account.key, amount: res.1 as u64 }]
                } else {
                    Seq::<Action>::empty()
                };
                &&& withdraw_outcome(p, a, amount) == Ok::<Seq<Action>, AuctionHouseError>(
                    pre + seq![
                        Action::Transfer {
                            from: a.escrow_payment_account.key,
                            to: a.receipt_account.key,
                            amount,
                        },
                    ],
                )
                &&& res.0 == a.escrow_payment_account.lamports - amount + res.1
                &&& res.0 >= a.escrow_payment_account.rent_minimum
                &&& ledger_sound(res.0, a.escrow_payment_account.rent_minimum as int)
            },
        },
{
}

} // verus!
