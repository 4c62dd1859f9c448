use vstd::prelude::*;

use crate::account::AccountView;
use crate::action::Action;
use crate::address::{assert_derivation, assert_keys_equal, derived_at, Address};
use crate::delegation::{assert_canonical, canonical_error};
use crate::error::AuctionHouseError;
use crate::pda::{
    escrow_path, escrow_seeds, auctioneer_path, auctioneer_seeds, auction_house_path, auction_house_seeds, fee_account_path, fee_account_seeds, treasury_path,
    treasury_seeds,
};
use crate::token::{assert_is_ata, ata_error};

verus! {

/// The marketplace record of one (creator, treasury mint) pair.
#[derive(Clone, Copy, Debug)]
pub struct AuctionHouse {
    pub auction_house_fee_account: Address,
    pub auction_house_treasury: Address,
    pub treasury_withdrawal_destination: Address,
    pub fee_withdrawal_destination: Address,
    pub treasury_mint: Address,
    pub authority: Address,
    pub creator: Address,
    pub bump: u8,
    pub treasury_bump: u8,
    pub fee_payer_bump: u8,
    pub seller_fee_basis_points: u16,
    pub requires_sign_off: bool,
    pub can_change_sale_price: bool,
    pub has_auctioneer: bool,
    pub auctioneer_address: Address,
}

impl AuctionHouse {
    /// The marketplace's fee is at most the whole price.
    pub open spec fn well_formed(&self) -> bool {
        self.seller_fee_basis_points <= 10000
    }
}

/// The identities that a marketplace is created over.
#[derive(Clone, Debug)]
pub struct CreateAuctionHouseAccounts {
    pub treasury_mint: Address,
    pub payer: Address,
    pub authority: Address,
    pub fee_withdrawal_destination: Address,
    pub treasury_withdrawal_destination: AccountView,
    pub treasury_withdrawal_destination_owner: Address,
    pub auction_house: Address,
    /// The marketplace record's current data: empty where it does not exist yet.
    pub auction_house_data: Vec<u8>,
    pub auction_house_fee_account: Address,
    pub auction_house_treasury: AccountView,
}

/// Effects that make the treasury withdrawal destination ready, or the check
/// it fails: in token settlement an associated token account of its owner is
/// created where absent and checked where present; in native settlement the
/// destination must be the owner itself.
pub open spec fn destination_setup(
    destination: AccountView,
    owner: Address,
    mint: Address,
    payer: Address,
    token_program: Seq<u8>,
    is_native: bool,
) -> Result<Seq<Action>, AuctionHouseError> {
    if is_native {
        if destination.key@ == owner@ {
            Ok(Seq::empty())
        } else {
            Err(AuctionHouseError::PublicKeyMismatch)
        }
    } else if destination.data@.len() == 0 {
        Ok(
            seq![
                Action::CreateAssociatedTokenAccount {
                    account: destination.key,
                    wallet: owner,
                    mint,
                    payer,
                },
            ],
        )
    } else {
        match ata_error(destination, owner@, mint@, token_program) {
            Some(e) => Err(e),
            None => Ok(Seq::empty()),
        }
    }
}

fn setup_destination(
    destination: &AccountView,
    owner: &Address,
    mint: &Address,
    payer: &Address,
    token_program: &Address,
    is_native: bool,
) -> (r: Result<Vec<Action>, AuctionHouseError>)
    ensures
        match destination_setup(*destination, *owner, *mint, *payer, token_program@, is_native) {
            Ok(a) => r is Ok && r->Ok_0@ == a,
            Err(e) => r == Err::<Vec<Action>, AuctionHouseError>(e),
        },
{
    let mut actions: Vec<Action> = Vec::new();
    if is_native {
        assert_keys_equal(&destination.key, owner)?;
    } else if destination.data_is_empty() {
        actions.push(
            Action::CreateAssociatedTokenAccount {
                account: destination.key,
                wallet: *owner,
                mint: *mint,
                payer: *payer,
            },
        );
        assert(actions@ =~= seq![
            Action::CreateAssociatedTokenAccount {
                account: destination.key,
                wallet: *owner,
                mint: *mint,
                payer: *payer,
            },
        ]);
    } else {
        assert_is_ata(destination, owner, mint, token_program)?;
    }
    Ok(actions)
}

/// What creating a marketplace yields: the first check that fails, or the
/// record's derived bumps and the effects that set up its accounts.
pub open spec fn create_outcome(
    program: Seq<u8>,
    token_program: Seq<u8>,
    a: CreateAuctionHouseAccounts,
    fee_payer_bump: u8,
    treasury_bump: u8,
    seller_fee_basis_points: u16,
    is_native: bool,
) -> Result<(u8, Seq<Action>), AuctionHouseError> {
    let ah = derived_at(auction_house_path(a.authority@, a.treasury_mint@), program, a.auction_house@);
    let fee = derived_at(fee_account_path(a.auction_house@), program, a.auction_house_fee_account@);
    let tre = derived_at(treasury_path(a.auction_house@), program, a.auction_house_treasury.key@);
    if a.auction_house_data@.len() > 0 {
        Err(AuctionHouseError::AccountAlreadyInitialized)
    } else if ah is None || fee is None || tre is None {
        Err(AuctionHouseError::DerivedKeyInvalid)
    } else if fee->Some_0 != fee_payer_bump || tre->Some_0 != treasury_bump {
        Err(AuctionHouseError::BumpSeedNotInHashMap)
    } else if seller_fee_basis_points > 10000 {
        Err(AuctionHouseError::InvalidBasisPoints)
    } else {
        let make_treasury = if !is_native && a.auction_house_treasury.data@.len() == 0 {
            seq![
                Action::CreateTokenAccount {
                    account: a.auction_house_treasury.key,
                    mint: a.treasury_mint,
                    owner: a.auction_house,
                    payer: a.payer,
                },
            ]
        } else {
            Seq::empty()
        };
        match destination_setup(
            a.treasury_withdrawal_destination,
            a.treasury_withdrawal_destination_owner,
            a.treasury_mint,
            a.payer,
            token_program,
            is_native,
        ) {
            Err(e) => Err(e),
            Ok(d) => Ok((ah->Some_0, make_treasury + d)),
        }
    }
}

/// Creates the marketplace of (authority, treasury mint): refuses with
/// `AccountAlreadyInitialized` a record that exists already; checks that the
/// record, fee account and treasury are the derived identities and that the
/// bumps given are the canonical ones, checks the fee, and returns the record
/// with the effects that set up its treasury and withdrawal destination.
pub fn create_auction_house(
    program_id: &Address,
    token_program: &Address,
    accounts: &CreateAuctionHouseAccounts,
    fee_payer_bump: u8,
    treasury_bump: u8,
    seller_fee_basis_points: u16,
    can_change_sale_price: bool,
    is_native: bool,
) -> (r: Result<(AuctionHouse, Vec<Action>), AuctionHouseError>)
    ensures
        match create_outcome(
            program_id@,
            token_program@,
            *accounts,
            fee_payer_bump,
            treasury_bump,
            seller_fee_basis_points,
            is_native,
        ) {
            Ok(p) => r is Ok && r->Ok_0.1@ == p.1 && ({
                let h = r->Ok_0.0;
                &&& h.well_formed()
                &&& h.bump == p.0
                &&& h.fee_payer_bump == fee_payer_bump
                &&& h.treasury_bump == treasury_bump
                &&& h.seller_fee_basis_points == seller_fee_basis_points
                &&& h.can_change_sale_price == can_change_sale_price
                &&& h.creator == accounts.authority
                &&& h.authority == accounts.authority
                &&& h.treasury_mint == accounts.treasury_mint
                &&& h.auction_house_fee_account == accounts.auction_house_fee_account
                &&& h.auction_house_treasury == accounts.auction_house_treasury.key
                &&& h.treasury_withdrawal_destination == accounts.treasury_withdrawal_destination.key
                &&& h.fee_withdrawal_destination == accounts.fee_withdrawal_destination
                &&& !h.has_auctioneer
            }),
            Err(e) => r == Err::<(AuctionHouse, Vec<Action>), AuctionHouseError>(e),
        },
{
    if accounts.auction_house_data.len() > 0 {
        return Err(AuctionHouseError::AccountAlreadyInitialized);
    }
    let ah_seeds = auction_house_seeds(&accounts.authority, &accounts.treasury_mint);
    let ah = assert_derivation(program_id, &accounts.auction_house, &ah_seeds);
    let fee_seeds = fee_account_seeds(&accounts.auction_house);
    let fee = assert_derivation(program_id, &accounts.auction_house_fee_account, &fee_seeds);
    let tre_seeds = treasury_seeds(&accounts.auction_house);
    let tre = assert_derivation(program_id, &accounts.auction_house_treasury.key, &tre_seeds);
    let (bump, fee_bump, tre_bump) = match (ah, fee, tre) {
        (Ok(a), Ok(f), Ok(t)) => (a, f, t),
        _ => return Err(AuctionHouseError::DerivedKeyInvalid),
    };
    if fee_bump != fee_payer_bump || tre_bump != treasury_bump {
        return Err(AuctionHouseError::BumpSeedNotInHashMap);
    }
    if seller_fee_basis_points > 10000 {
        return Err(AuctionHouseError::InvalidBasisPoints);
    }
    let house = AuctionHouse {
        auction_house_fee_account: accounts.auction_house_fee_account,
        auction_house_treasury: accounts.auction_house_treasury.key,
        treasury_withdrawal_destination: accounts.treasury_withdrawal_destination.key,
        fee_withdrawal_destination: accounts.fee_withdrawal_destination,
        treasury_mint: accounts.treasury_mint,
        authority: accounts.authority,
        creator: accounts.authority,
        bump,
        treasury_bump,
        fee_payer_bump,
        seller_fee_basis_points,
        requires_sign_off: false,
        can_change_sale_price,
        has_auctioneer: false,
        auctioneer_address: accounts.authority,
    };
    let mut actions: Vec<Action> = Vec::new();
    if !is_native && accounts.auction_house_treasury.data_is_empty() {
        actions.push(
            Action::CreateTokenAccount {
                account: accounts.auction_house_treasury.key,
                mint: accounts.treasury_mint,
                owner: accounts.auction_house,
                payer: accounts.payer,
            },
        );
    }
    let ghost made = actions@;
    let mut rest = setup_destination(
        &accounts.treasury_withdrawal_destination,
        &accounts.treasury_withdrawal_destination_owner,
        &accounts.treasury_mint,
        &accounts.payer,
        token_program,
        is_native,
    )?;
    let ghost rest_view = rest@;
    actions.append(&mut rest);
    proof {
        let make_treasury = if !is_native && accounts.auction_house_treasury.data@.len() == 0 {
            seq![
                Action::CreateTokenAccount {
                    account: accounts.auction_house_treasury.key,
                    mint: accounts.treasury_mint,
                    owner: accounts.auction_house,
                    payer: accounts.payer,
                },
            ]
        } else {
            Seq::<Action>::empty()
        };
        assert(made =~= make_treasury);
        assert(actions@ =~= make_treasury + rest_view);
    }
    Ok((house, actions))
}

/// Why `authority` may not administer `house`: `PublicKeyMismatch` where it
/// is not the marketplace's authority, `NoValidSignerPresent` where it did not
/// sign; none where it may.
pub open spec fn authority_error(house: AuctionHouse, authority: AccountView) -> Option<AuctionHouseError> {
    if authority.key@ != house.authority@ {
        Some(AuctionHouseError::PublicKeyMismatch)
    } else if !authority.is_signer {
        Some(AuctionHouseError::NoValidSignerPresent)
    } else {
        None
    }
}

/// Checks that `authority` is the marketplace's authority and signed.
pub fn assert_authority(house: &AuctionHouse, authority: &AccountView) -> (r: Result<(), AuctionHouseError>)
    ensures
        match authority_error(*house, *authority) {
            None => r is Ok,
            Some(e) => r == Err::<(), AuctionHouseError>(e),
        },
{
    assert_keys_equal(&authority.key, &house.authority)?;
    if !authority.is_signer {
        return Err(AuctionHouseError::NoValidSignerPresent);
    }
    Ok(())
}

/// Updates a marketplace's authority, withdrawal destinations, fee and
/// sale-price flag. Only its authority, signing, may; a fee above 10000
/// basis points is refused with `InvalidBasisPoints`. A refusal changes
/// nothing. Returns the effects that set up the
/// new treasury withdrawal destination.
pub fn update_auction_house(
    house: &mut AuctionHouse,
    authority: &AccountView,
    token_program: &Address,
    payer: &Address,
    new_authority: &Address,
    fee_withdrawal_destination: &Address,
    treasury_withdrawal_destination: &AccountView,
    treasury_withdrawal_destination_owner: &Address,
    seller_fee_basis_points: Option<u16>,
    can_change_sale_price: Option<bool>,
    is_native: bool,
) -> (r: Result<Vec<Action>, AuctionHouseError>)
    requires
        old(house).well_formed(),
    ensures
        final(house).well_formed(),
        authority_error(*old(house), *authority) is Some ==> r == Err::<Vec<Action>, AuctionHouseError>(
            authority_error(*old(house), *authority)->Some_0,
        ) && *final(house) == *old(house),
        authority_error(*old(house), *authority) is None && (seller_fee_basis_points is Some && seller_fee_basis_points->Some_0 > 10000) ==> r == Err::<
            Vec<Action>,
            AuctionHouseError,
        >(AuctionHouseError::InvalidBasisPoints) && *final(house) == *old(house),
        authority_error(*old(house), *authority) is None && !(seller_fee_basis_points is Some
            && seller_fee_basis_points->Some_0 > 10000) ==> match destination_setup(
            *treasury_withdrawal_destination,
            *treasury_withdrawal_destination_owner,
            old(house).treasury_mint,
            *payer,
            token_program@,
            is_native,
        ) {
            Err(e) => r == Err::<Vec<Action>, AuctionHouseError>(e) && *final(house) == *old(house),
            Ok(a) => r is Ok && r->Ok_0@ == a && *final(house) == (AuctionHouse {
                seller_fee_basis_points: match seller_fee_basis_points {
                    Some(b) => b,
                    None => old(house).seller_fee_basis_points,
                },
                can_change_sale_price: match can_change_sale_price {
                    Some(c) => c,
                    None => old(house).can_change_sale_price,
                },
                authority: *new_authority,
                treasury_withdrawal_destination: treasury_withdrawal_destination.key,
                fee_withdrawal_destination: *fee_withdrawal_destination,
                ..*old(house)
            }),
        },
{
    assert_authority(house, authority)?;
    if let Some(sfbp) = seller_fee_basis_points {
        if sfbp > 10000 {
            return Err(AuctionHouseError::InvalidBasisPoints);
        }
    }
    let actions = setup_destination(
        treasury_withdrawal_destination,
        treasury_withdrawal_destination_owner,
        &house.treasury_mint,
        payer,
        token_program,
        is_native,
    )?;
    if let Some(sfbp) = seller_fee_basis_points {
        house.seller_fee_basis_points = sfbp;
    }
    if let Some(chsp) = can_change_sale_price {
        house.can_change_sale_price = chsp;
    }
    house.authority = *new_authority;
    house.treasury_withdrawal_destination = treasury_withdrawal_destination.key;
    house.fee_withdrawal_destination = *fee_withdrawal_destination;
    Ok(actions)
}

/// The binding of a marketplace to its auctioneer: the auctioneer's
/// authority, the marketplace, and the binding's canonical bump.
#[derive(Clone, Copy, Debug)]
pub struct Auctioneer {
    pub auctioneer_authority: Address,
    pub auction_house: Address,
    pub bump: u8,
}

/// Binds the marketplace `auction_house` to its one auctioneer, acting for
/// `auctioneer_authority`. Only its authority, signing, may; `auctioneer`
/// must be the binding derived from (marketplace, auctioneer authority),
/// else `DerivedKeyInvalid`; a marketplace bound already is refused with
/// `AuctionHouseAlreadyDelegated`. A refusal changes nothing. Returns the
/// binding.
pub fn delegate_auctioneer(
    program_id: &Address,
    house: &mut AuctionHouse,
    auction_house: &Address,
    authority: &AccountView,
    auctioneer_authority: &Address,
    auctioneer: &Address,
) -> (r: Result<Auctioneer, AuctionHouseError>)
    ensures
        authority_error(*old(house), *authority) is Some ==> r == Err::<Auctioneer, AuctionHouseError>(
            authority_error(*old(house), *authority)->Some_0,
        ) && *final(house) == *old(house),
        authority_error(*old(house), *authority) is None && derived_at(
            auctioneer_path(auction_house@, auctioneer_authority@),
            program_id@,
            auctioneer@,
        ) is None ==> r == Err::<Auctioneer, AuctionHouseError>(AuctionHouseError::DerivedKeyInvalid)
            && *final(house) == *old(house),
        authority_error(*old(house), *authority) is None && derived_at(
            auctioneer_path(auction_house@, auctioneer_authority@),
            program_id@,
            auctioneer@,
        ) is Some && old(house).has_auctioneer ==> r == Err::<Auctioneer, AuctionHouseError>(
            AuctionHouseError::AuctionHouseAlreadyDelegated,
        ) && *final(house) == *old(house),
        authority_error(*old(house), *authority) is None && !old(house).has_auctioneer && derived_at(
            auctioneer_path(auction_house@, auctioneer_authority@),
            program_id@,
            auctioneer@,
        ) is Some ==> r == Ok::<Auctioneer, AuctionHouseError>(
            Auctioneer {
                auctioneer_authority: *auctioneer_authority,
                auction_house: *auction_house,
                bump: derived_at(auctioneer_path(auction_house@, auctioneer_authority@), program_id@, auctioneer@)->Some_0,
            },
        ) && *final(house) == (AuctionHouse { has_auctioneer: true, auctioneer_address: *auctioneer, ..*old(house) }),
{
    assert_authority(house, authority)?;
    let seeds = auctioneer_seeds(auction_house, auctioneer_authority);
    let bump = assert_derivation(program_id, auctioneer, &seeds)?;
    if house.has_auctioneer {
        return Err(AuctionHouseError::AuctionHouseAlreadyDelegated);
    }
    house.has_auctioneer = true;
    house.auctioneer_address = *auctioneer;
    Ok(Auctioneer { auctioneer_authority: *auctioneer_authority, auction_house: *auction_house, bump })
}

/// Who pays for an operation: the marketplace's fee account where its
/// authority signed (`true`: the marketplace's seeds sign for it), else the
/// acting wallet where it signed, else `NoPayerPresent`.
pub fn get_fee_payer(
    authority: &AccountView,
    wallet: &AccountView,
    auction_house_fee_account: &Address,
) -> (r: Result<(Address, bool), AuctionHouseError>)
    ensures
        authority.is_signer ==> r == Ok::<(Address, bool), AuctionHouseError>((*auction_house_fee_account, true)),
        !authority.is_signer && wallet.is_signer ==> r == Ok::<(Address, bool), AuctionHouseError>(
            (wallet.key, false),
        ),
        !authority.is_signer && !wallet.is_signer ==> r == Err::<(Address, bool), AuctionHouseError>(
            AuctionHouseError::NoPayerPresent,
        ),
{
    if authority.is_signer {
        Ok((*auction_house_fee_account, true))
    } else if wallet.is_signer {
        Ok((wallet.key, false))
    } else {
        Err(AuctionHouseError::NoPayerPresent)
    }
}

/// Withdraws `amount` of native value from the marketplace's fee account to
/// its fee withdrawal destination. Only its authority, signing, may.
pub fn withdraw_from_fee(house: &AuctionHouse, authority: &AccountView, amount: u64) -> (r: Result<Action, AuctionHouseError>)
    ensures
        match authority_error(*house, *authority) {
            Some(e) => r == Err::<Action, AuctionHouseError>(e),
            None => r == Ok::<Action, AuctionHouseError>(
                Action::Transfer { from: house.auction_house_fee_account, to: house.fee_withdrawal_destination, amount },
            ),
        },
{
    assert_authority(house, authority)?;
    Ok(Action::Transfer { from: house.auction_house_fee_account, to: house.fee_withdrawal_destination, amount })
}

/// Withdraws `amount` from the marketplace's treasury to its treasury
/// withdrawal destination: native value, or tokens under the marketplace's
/// authority. Only its authority, signing, may.
pub fn withdraw_from_treasury(
    house: &AuctionHouse,
    authority: &AccountView,
    auction_house: &Address,
    amount: u64,
    is_native: bool,
) -> (r: Result<Action, AuctionHouseError>)
    ensures
        authority_error(*house, *authority) is Some ==> r == Err::<Action, AuctionHouseError>(
            authority_error(*house, *authority)->Some_0,
        ),
        authority_error(*house, *authority) is None && is_native ==> r == Ok::<Action, AuctionHouseError>(
            Action::Transfer { from: house.auction_house_treasury, to: house.treasury_withdrawal_destination, amount },
        ),
        authority_error(*house, *authority) is None && !is_native ==> r == Ok::<Action, AuctionHouseError>(
            Action::TokenTransfer {
                from: house.auction_house_treasury,
                to: house.treasury_withdrawal_destination,
                authority: *auction_house,
                amount,
            },
        ),
{
    assert_authority(house, authority)?;
    if !is_native {
        Ok(
            Action::TokenTransfer {
                from: house.auction_house_treasury,
                to: house.treasury_withdrawal_destination,
                authority: *auction_house,
                amount,
            },
        )
    } else {
        Ok(Action::Transfer { from: house.auction_house_treasury, to: house.treasury_withdrawal_destination, amount })
    }
}

/// Closes the escrow of `wallet` in `auction_house`: its whole balance goes
/// back to the wallet. The wallet must sign (`NoValidSignerPresent`), and the
/// escrow must be the account derived from (marketplace, wallet) with the
/// canonical bump `escrow_payment_bump`.
pub fn close_escrow_account(
    program_id: &Address,
    auction_house: &Address,
    wallet: &AccountView,
    escrow: &AccountView,
    escrow_payment_bump: u8,
) -> (r: Result<Action, AuctionHouseError>)
    ensures
        !wallet.is_signer ==> r == Err::<Action, AuctionHouseError>(AuctionHouseError::NoValidSignerPresent),
        wallet.is_signer ==> match canonical_error(
            escrow_path(auction_house@, wallet.key@),
            program_id@,
            escrow.key@,
            escrow_payment_bump,
        ) {
            Some(e) => r == Err::<Action, AuctionHouseError>(e),
            None => r == Ok::<Action, AuctionHouseError>(
                Action::Transfer { from: escrow.key, to: wallet.key, amount: escrow.lamports },
            ),
        },
{
    if !wallet.is_signer {
        return Err(AuctionHouseError::NoValidSignerPresent);
    }
    let seeds = escrow_seeds(auction_house, &wallet.key);
    assert_canonical(&seeds, program_id, &escrow.key, escrow_payment_bump)?;
    Ok(Action::Transfer { from: escrow.key, to: wallet.key, amount: escrow.lamports })
}

} // verus!
