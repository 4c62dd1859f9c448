use vstd::prelude::*;

use crate::account::{create_program_token_account_if_not_present, AccountView};
use crate::action::Action;
use crate::address::{assert_keys_equal, same_address, Address};
use crate::error::AuctionHouseError;
use crate::escrow::{deposit_result, shortfall, verify_deposit};
use crate::execute_sale::Programs;
use crate::delegation::{assert_auctioneer_delegation, assert_canonical, canonical_error, delegation_error};
use crate::house::{get_fee_payer, AuctionHouse};
use crate::pda::{escrow_path, escrow_seeds};
use crate::token::{assert_is_ata, ata_error};

verus! {

/// The accounts of a deposit into escrow.
#[derive(Clone, Debug)]
pub struct DepositAccounts {
    pub wallet: AccountView,
    pub payment_account: AccountView,
    pub transfer_authority: Address,
    pub escrow_payment_account: AccountView,
    pub treasury_mint: Address,
    pub authority: AccountView,
    pub auction_house: Address,
    pub auction_house_fee_account: Address,
}

/// A deposit of `amount` into escrow: someone must pay; a token escrow is
/// created where absent and filled from the wallet's token account; a native
/// escrow is filled from the wallet itself with `amount` plus whatever it
/// lacks of its rent-exempt minimum.
pub open spec fn deposit_outcome(p: Programs, a: DepositAccounts, amount: u64) -> Result<Seq<Action>, AuctionHouseError> {
    let is_native = a.treasury_mint@ == p.native_mint@;
    let escrow = a.escrow_payment_account;
    if !a.authority.is_signer && !a.wallet.is_signer {
        Err(AuctionHouseError::NoPayerPresent)
    } else {
        let fee_payer = if a.authority.is_signer {
            a.auction_house_fee_account
        } else {
            a.wallet.key
        };
        if !is_native {
            let create = if escrow.data@.len() == 0 {
                seq![
                    Action::CreateTokenAccount {
                        account: escrow.key,
                        mint: a.treasury_mint,
                        owner: a.auction_house,
                        payer: fee_payer,
                    },
                ]
            } else {
                Seq::empty()
            };
            match ata_error(a.payment_account, a.wallet.key@, a.treasury_mint@, p.token@) {
                Some(e) => Err(e),
                None => Ok(
                    create + seq![
                        Action::TokenTransfer {
                            from: a.payment_account.key,
                            to: escrow.key,
                            authority: a.transfer_authority,
                            amount,
                        },
                    ],
                ),
            }
        } else if a.payment_account.key@ != a.wallet.key@ {
            Err(AuctionHouseError::PublicKeyMismatch)
        } else {
            let total = amount + shortfall(escrow.rent_minimum as int, escrow.lamports as int);
            if total > u64::MAX {
                Err(AuctionHouseError::NumericalOverflow)
            } else {
                Ok(seq![Action::Transfer { from: a.payment_account.key, to: escrow.key, amount: total as u64 }])
            }
        }
    }
}

/// Deposits `amount` into the wallet's escrow.
pub fn deposit_logic(programs: &Programs, a: &DepositAccounts, amount: u64) -> (r: Result<Vec<Action>, AuctionHouseError>)
    ensures
        match deposit_outcome(*programs, *a, amount) {
            Ok(s) => r is Ok && r->Ok_0@ == s,
            Err(e) => r == Err::<Vec<Action>, AuctionHouseError>(e),
        },
{
    let (fee_payer, _) = get_fee_payer(&a.authority, &a.wallet, &a.auction_house_fee_account)?;
    let is_native = same_address(&a.treasury_mint, &programs.native_mint);
    let escrow = &a.escrow_payment_account;
    let mut actions: Vec<Action> = Vec::new();
    if !is_native {
        actions = create_program_token_account_if_not_present(
            escrow,
            &a.treasury_mint,
            &a.auction_house,
            &fee_payer,
            is_native,
        );
        let ghost made = actions@;
        assert_is_ata(&a.payment_account, &a.wallet.key, &a.treasury_mint, &programs.token)?;
        let pay = Action::TokenTransfer {
            from: a.payment_account.key,
            to: escrow.key,
            authority: a.transfer_authority,
            amount,
        };
        actions.push(pay);
        proof {
            let create = if escrow.data@.len() == 0 {
                seq![
                    Action::CreateTokenAccount {
                        account: escrow.key,
                        mint: a.treasury_mint,
                        owner: a.auction_house,
                        payer: fee_payer,
                    },
                ]
            } else {
                Seq::<Action>::empty()
            };
            assert(made =~= create);
            assert(actions@ =~= create + seq![pay]);
        }
    } else {
        assert_keys_equal(&a.payment_account.key, &a.wallet.key)?;
        let top_up = verify_deposit(escrow, 0)?;
        let checked_amount = match amount.checked_add(top_up) {
            Some(t) => t,
            None => {
                return Err(AuctionHouseError::NumericalOverflow);
            },
        };
        actions.push(Action::Transfer { from: a.payment_account.key, to: escrow.key, amount: checked_amount });
        assert(actions@ =~= seq![Action::Transfer { from: a.payment_account.key, to: escrow.key, amount: checked_amount }]);
    }
    Ok(actions)
}

/// A deposit made for the marketplace's auctioneer: the delegation check, the
/// canonical escrow bump, then the deposit.
pub open spec fn auctioneer_deposit_outcome(
    p: Programs,
    house: AuctionHouse,
    a: DepositAccounts,
    auctioneer_authority: Address,
    escrow_payment_bump: u8,
    amount: u64,
) -> Result<Seq<Action>, AuctionHouseError> {
    match delegation_error(p.auction_house@, house, a.auction_house@, auctioneer_authority@) {
        Some(e) => Err(e),
        None => match canonical_error(
            escrow_path(a.auction_house@, a.wallet.key@),
            p.auction_house@,
            a.escrow_payment_account.key@,
            escrow_payment_bump,
        ) {
            Some(e) => Err(e),
            None => deposit_outcome(p, a, amount),
        },
    }
}

/// Deposits into escrow on behalf of the marketplace's auctioneer.
pub fn auctioneer_deposit(
    programs: &Programs,
    house: &AuctionHouse,
    a: &DepositAccounts,
    auctioneer_authority: &Address,
    escrow_payment_bump: u8,
    amount: u64,
) -> (r: Result<Vec<Action>, AuctionHouseError>)
    ensures
        match auctioneer_deposit_outcome(*programs, *house, *a, *auctioneer_authority, escrow_payment_bump, amount) {
            Ok(s) => r is Ok && r->Ok_0@ == s,
            Err(e) => r == Err::<Vec<Action>, AuctionHouseError>(e),
        },
{
    assert_auctioneer_delegation(&programs.auction_house, house, &a.auction_house, auctioneer_authority)?;
    let seeds = escrow_seeds(&a.auction_house, &a.wallet.key);
    assert_canonical(&seeds, &programs.auction_house, &a.escrow_payment_account.key, escrow_payment_bump)?;
    deposit_logic(programs, a, amount)
}

/// A native deposit does what the escrow ledger says: where the ledger
/// accepts it, the wallet transfers exactly the ledger's increase of the
/// escrow (the amount plus any rent shortfall); where it is refused, the
/// ledger refuses it too.
pub proof fn lemma_deposit_follows_ledger(p: Programs, a: DepositAccounts, amount: u64)
    requires
        a.treasury_mint@ == p.native_mint@,
        a.authority.is_signer || a.wallet.is_signer,
        a.payment_account.key@ == a.wallet.key@,
    ensures
        deposit_result(a.escrow_payment_account.lamports as int, a.escrow_payment_account.rent_minimum as int, amount as int)
            is Some ==> deposit_outcome(p, a, amount) == Ok::<Seq<Action>, AuctionHouseError>(
            seq![
                Action::Transfer {
                    from: a.payment_account.key,
                    to: a.escrow_payment_account.key,
                    amount: (deposit_result(
                        a.escrow_payment_account.lamports as int,
                        a.escrow_payment_account.rent_minimum as int,
                        amount as int,
                    )->Some_0 - a.escrow_payment_account.lamports) as u64,
                },
            ],
        ),
        deposit_outcome(p, a, amount) is Err ==> deposit_result(
            a.escrow_payment_account.lamports as int,
            a.escrow_payment_account.rent_minimum as int,
            amount as int,
        ) is None,
{
}

} // verus!
