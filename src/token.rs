use vstd::prelude::*;
use vstd::bytes::{spec_u32_from_le_bytes, spec_u64_from_le_bytes, u32_from_le_bytes};

use spl_token::solana_program::program_option::COption;
use spl_token::solana_program::program_pack::Pack;
use spl_token::state::Account as SplAccount;

use crate::account::AccountView;
use crate::address::{assert_keys_equal, same_address, Address};
use crate::error::AuctionHouseError;

verus! {

/// Size of a token account record.
pub const TOKEN_ACCOUNT_LEN: usize = 165;

/// The fields of a token account that the marketplace reads.
#[derive(Clone, Copy, Debug)]
pub struct TokenAccount {
    pub mint: Address,
    pub owner: Address,
    pub amount: u64,
    pub delegate: Option<Address>,
    /// 0: uninitialized, 1: initialized, 2: frozen.
    pub state: u8,
    pub delegated_amount: u64,
}

/// The bytes of `data` in `[start, start + len)`.
pub open spec fn field(data: Seq<u8>, start: int, len: int) -> Seq<u8> {
    data.subrange(start, start + len)
}

/// A four-byte option tag: all zero for none, `1, 0, 0, 0` for some.
pub open spec fn tag_valid(data: Seq<u8>, start: int) -> bool {
    field(data, start, 4) == seq![0u8, 0, 0, 0] || field(data, start, 4) == seq![1u8, 0, 0, 0]
}

/// Whether `data` is a well-formed token account record: 165 bytes, valid
/// option tags for the delegate, native reserve and close authority, and a
/// state of 0, 1 or 2.
pub open spec fn token_account_well_formed(data: Seq<u8>) -> bool {
    &&& data.len() == 165
    &&& tag_valid(data, 72)
    &&& data[108] <= 2
    &&& tag_valid(data, 109)
    &&& tag_valid(data, 129)
}

/// The delegate that a token account record names.
pub open spec fn delegate_of(data: Seq<u8>) -> Option<Seq<u8>> {
    if field(data, 72, 4) == seq![0u8, 0, 0, 0] {
        None
    } else {
        Some(field(data, 76, 32))
    }
}

pub open spec fn address_opt_view(a: Option<Address>) -> Option<Seq<u8>> {
    match a {
        Some(k) => Some(k@),
        None => None,
    }
}

/// `t` holds the fields that the well-formed record `data` encodes.
pub open spec fn decodes_to(data: Seq<u8>, t: TokenAccount) -> bool {
    &&& t.mint@ == field(data, 0, 32)
    &&& t.owner@ == field(data, 32, 32)
    &&& t.amount == spec_u64_from_le_bytes(field(data, 64, 8))
    &&& address_opt_view(t.delegate) == delegate_of(data)
    &&& t.state == data[108]
    &&& t.delegated_amount == spec_u64_from_le_bytes(field(data, 121, 8))
}

/// Relies on spl-token's `Account::unpack_unchecked`: a record of 165 bytes
/// whose option tags and state byte are valid decodes field by field (mint at
/// 0, owner at 32, amount at 64, delegate at 72, state at 108, delegated
/// amount at 121, all little-endian); anything else is refused.
#[verifier::external_body]
fn unpack_token_account(data: &Vec<u8>) -> (r: Option<TokenAccount>)
    ensures
        r is Some <==> token_account_well_formed(data@),
        r is Some ==> decodes_to(data@, r->Some_0),
{
    let a = SplAccount::unpack_unchecked(data.as_slice()).ok()?;
    let delegate = match a.delegate {
        COption::Some(k) => Some(Address { bytes: k.to_bytes() }),
        COption::None => None,
    };
    Some(TokenAccount {
        mint: Address { bytes: a.mint.to_bytes() },
        owner: Address { bytes: a.owner.to_bytes() },
        amount: a.amount,
        delegate,
        state: a.state as u8,
        delegated_amount: a.delegated_amount,
    })
}

/// Decodes a token account record, failing with `InvalidAccountData` where it
/// is malformed and `UninitializedAccount` where its state is uninitialized.
pub fn unpack_initialized(data: &Vec<u8>) -> (r: Result<TokenAccount, AuctionHouseError>)
    ensures
        !token_account_well_formed(data@) ==> r == Err::<TokenAccount, AuctionHouseError>(
            AuctionHouseError::InvalidAccountData,
        ),
        token_account_well_formed(data@) && data@[108] == 0 ==> r == Err::<
            TokenAccount,
            AuctionHouseError,
        >(AuctionHouseError::UninitializedAccount),
        token_account_well_formed(data@) && data@[108] != 0 ==> r is Ok && decodes_to(
            data@,
            r->Ok_0,
        ),
{
    match unpack_token_account(data) {
        None => Err(AuctionHouseError::InvalidAccountData),
        Some(t) => {
            if t.state == 0 {
                Err(AuctionHouseError::UninitializedAccount)
            } else {
                Ok(t)
            }
        },
    }
}

/// Decodes the token account that `account` holds, failing where its record
/// is malformed or uninitialized.
pub fn assert_initialized(account: &AccountView) -> (r: Result<TokenAccount, AuctionHouseError>)
    ensures
        !token_account_well_formed(account.data@) ==> r == Err::<TokenAccount, AuctionHouseError>(
            AuctionHouseError::InvalidAccountData,
        ),
        token_account_well_formed(account.data@) && account.data@[108] == 0 ==> r == Err::<
            TokenAccount,
            AuctionHouseError,
        >(AuctionHouseError::UninitializedAccount),
        token_account_well_formed(account.data@) && account.data@[108] != 0 ==> r is Ok
            && decodes_to(account.data@, r->Ok_0),
{
    unpack_initialized(&account.data)
}

/// The mint that a token account record names: its first 32 bytes.
pub fn get_mint_from_token_account(data: &Vec<u8>) -> (r: Result<Address, AuctionHouseError>)
    ensures
        data@.len() < 32 ==> r == Err::<Address, AuctionHouseError>(AuctionHouseError::InvalidAccountData),
        data@.len() >= 32 ==> r is Ok && r->Ok_0@ == field(data@, 0, 32),
{
    if data.len() < 32 {
        return Err(AuctionHouseError::InvalidAccountData);
    }
    let mut bytes = [0u8; 32];
    let mut i: usize = 0;
    while i < 32
        invariant
            i <= 32,
            data@.len() >= 32,
            bytes@.len() == 32,
            forall|j: int| 0 <= j < i ==> bytes@[j] == data@[j],
        decreases 32 - i,
    {
        bytes[i] = data[i];
        i = i + 1;
    }
    assert(bytes@ =~= field(data@, 0, 32));
    Ok(Address { bytes })
}

/// The delegate that a token account record names: none where the four tag
/// bytes at 72 read zero, else the 32 bytes at 76.
pub fn get_delegate_from_token_account(data: &Vec<u8>) -> (r: Result<Option<Address>, AuctionHouseError>)
    ensures
        data@.len() < 108 ==> r == Err::<Option<Address>, AuctionHouseError>(
            AuctionHouseError::InvalidAccountData,
        ),
        data@.len() >= 108 ==> r is Ok && address_opt_view(r->Ok_0) == (if spec_u32_from_le_bytes(
            field(data@, 72, 4),
        ) == 0 {
            None::<Seq<u8>>
        } else {
            Some(field(data@, 76, 32))
        }),
{
    if data.len() < 108 {
        return Err(AuctionHouseError::InvalidAccountData);
    }
    let tag = u32_from_le_bytes(&data.as_slice()[72..76]);
    if tag == 0 {
        return Ok(None);
    }
    let mut bytes = [0u8; 32];
    let mut i: usize = 0;
    while i < 32
        invariant
            i <= 32,
            data@.len() >= 108,
            bytes@.len() == 32,
            forall|j: int| 0 <= j < i ==> bytes@[j] == data@[76 + j],
        decreases 32 - i,
    {
        bytes[i] = data[76 + i];
        i = i + 1;
    }
    assert(bytes@ =~= field(data@, 76, 32));
    Ok(Some(Address { bytes }))
}

/// Fails with `IncorrectOwner` unless `account` is owned by `owner`.
pub fn assert_owned_by(account: &AccountView, owner: &Address) -> (r: Result<(), AuctionHouseError>)
    ensures
        r is Ok <==> account.owner@ == owner@,
        r is Err ==> r == Err::<(), AuctionHouseError>(AuctionHouseError::IncorrectOwner),
{
    if !same_address(&account.owner, owner) {
        Err(AuctionHouseError::IncorrectOwner)
    } else {
        Ok(())
    }
}

/// The first check that `ata` fails as a token account of the token
/// program, initialized, held by `wallet` and of `mint`; none where it passes.
pub open spec fn ata_error(ata: AccountView, wallet: Seq<u8>, mint: Seq<u8>, token_program: Seq<u8>) -> Option<AuctionHouseError> {
    if ata.owner@ != token_program {
        Some(AuctionHouseError::IncorrectOwner)
    } else if !token_account_well_formed(ata.data@) {
        Some(AuctionHouseError::InvalidAccountData)
    } else if ata.data@[108] == 0 {
        Some(AuctionHouseError::UninitializedAccount)
    } else if field(ata.data@, 32, 32) != wallet || field(ata.data@, 0, 32) != mint {
        Some(AuctionHouseError::PublicKeyMismatch)
    } else {
        None
    }
}

/// Checks that `ata` is an initialized token account of the token program,
/// held by `wallet`, of `mint`, and returns its decoded record.
pub fn assert_is_ata(ata: &AccountView, wallet: &Address, mint: &Address, token_program: &Address) -> (r: Result<TokenAccount, AuctionHouseError>)
    ensures
        match ata_error(*ata, wallet@, mint@, token_program@) {
            None => r is Ok && decodes_to(ata.data@, r->Ok_0),
            Some(e) => r == Err::<TokenAccount, AuctionHouseError>(e),
        },
{
    assert_owned_by(ata, token_program)?;
    let t = unpack_initialized(&ata.data)?;
    assert_keys_equal(&t.owner, wallet)?;
    assert_keys_equal(&t.mint, mint)?;
    Ok(t)
}

/// Why the token account record `data` does not show a delegation to
/// `delegate`: `InvalidAccountData` where it is too short,
/// `BothPartiesNeedToAgreeToSale` where it names no delegate or another one;
/// none where it does.
pub open spec fn token_delegation_error(data: Seq<u8>, delegate: Seq<u8>) -> Option<AuctionHouseError> {
    if data.len() < 108 {
        Some(AuctionHouseError::InvalidAccountData)
    } else if spec_u32_from_le_bytes(field(data, 72, 4)) == 0 || field(data, 76, 32) != delegate {
        Some(AuctionHouseError::BothPartiesNeedToAgreeToSale)
    } else {
        None
    }
}

/// Checks that the seller has delegated the asset's token account to
/// `delegate`, so that the program may later move it.
pub fn assert_delegated_to(token_account: &AccountView, delegate: &Address) -> (r: Result<(), AuctionHouseError>)
    ensures
        match token_delegation_error(token_account.data@, delegate@) {
            None => r is Ok,
            Some(e) => r == Err::<(), AuctionHouseError>(e),
        },
{
    match get_delegate_from_token_account(&token_account.data)? {
        Some(d) => {
            if same_address(&d, delegate) {
                Ok(())
            } else {
                Err(AuctionHouseError::BothPartiesNeedToAgreeToSale)
            }
        },
        None => Err(AuctionHouseError::BothPartiesNeedToAgreeToSale),
    }
}

} // verus!
