use vstd::prelude::*;
use vstd::bytes::{spec_u64_to_le_bytes, u64_to_le_bytes};

use crate::address::Address;

verus! {

/// `"auction_house"`: the domain prefix of every marketplace derivation.
pub open spec fn prefix_seed() -> Seq<u8> {
    seq![97u8, 117, 99, 116, 105, 111, 110, 95, 104, 111, 117, 115, 101]
}

/// `"fee_payer"`.
pub open spec fn fee_payer_seed() -> Seq<u8> {
    seq![102u8, 101, 101, 95, 112, 97, 121, 101, 114]
}

/// `"treasury"`.
pub open spec fn treasury_seed() -> Seq<u8> {
    seq![116u8, 114, 101, 97, 115, 117, 114, 121]
}

/// `"signer"`.
pub open spec fn signer_seed() -> Seq<u8> {
    seq![115u8, 105, 103, 110, 101, 114]
}

/// `"auctioneer"`.
pub open spec fn auctioneer_seed() -> Seq<u8> {
    seq![97u8, 117, 99, 116, 105, 111, 110, 101, 101, 114]
}

/// `"listing_config"`.
pub open spec fn listing_config_seed() -> Seq<u8> {
    seq![108u8, 105, 115, 116, 105, 110, 103, 95, 99, 111, 110, 102, 105, 103]
}

/// `"metadata"`.
pub open spec fn metadata_seed() -> Seq<u8> {
    seq![109u8, 101, 116, 97, 100, 97, 116, 97]
}

pub fn prefix_bytes() -> (r: Vec<u8>)
    ensures
        r@ == prefix_seed(),
{
    let r: Vec<u8> = vec![97u8, 117, 99, 116, 105, 111, 110, 95, 104, 111, 117, 115, 101];
    assert(r@ =~= prefix_seed());
    r
}

pub fn fee_payer_bytes() -> (r: Vec<u8>)
    ensures
        r@ == fee_payer_seed(),
{
    let r: Vec<u8> = vec![102u8, 101, 101, 95, 112, 97, 121, 101, 114];
    assert(r@ =~= fee_payer_seed());
    r
}

pub fn treasury_bytes() -> (r: Vec<u8>)
    ensures
        r@ == treasury_seed(),
{
    let r: Vec<u8> = vec![116u8, 114, 101, 97, 115, 117, 114, 121];
    assert(r@ =~= treasury_seed());
    r
}

pub fn signer_bytes() -> (r: Vec<u8>)
    ensures
        r@ == signer_seed(),
{
    let r: Vec<u8> = vec![115u8, 105, 103, 110, 101, 114];
    assert(r@ =~= signer_seed());
    r
}

pub fn auctioneer_bytes() -> (r: Vec<u8>)
    ensures
        r@ == auctioneer_seed(),
{
    let r: Vec<u8> = vec![97u8, 117, 99, 116, 105, 111, 110, 101, 101, 114];
    assert(r@ =~= auctioneer_seed());
    r
}

pub fn listing_config_bytes() -> (r: Vec<u8>)
    ensures
        r@ == listing_config_seed(),
{
    let r: Vec<u8> = vec![108u8, 105, 115, 116, 105, 110, 103, 95, 99, 111, 110, 102, 105, 103];
    assert(r@ =~= listing_config_seed());
    r
}

pub fn metadata_bytes() -> (r: Vec<u8>)
    ensures
        r@ == metadata_seed(),
{
    let r: Vec<u8> = vec![109u8, 101, 116, 97, 100, 97, 116, 97];
    assert(r@ =~= metadata_seed());
    r
}

/// Seeds of the marketplace record of (creator, treasury mint).
pub open spec fn auction_house_path(creator: Seq<u8>, treasury_mint: Seq<u8>) -> Seq<Seq<u8>> {
    seq![prefix_seed(), creator, treasury_mint]
}

/// Seeds of the marketplace's fee account.
pub open spec fn fee_account_path(auction_house: Seq<u8>) -> Seq<Seq<u8>> {
    seq![prefix_seed(), auction_house, fee_payer_seed()]
}

/// Seeds of the marketplace's treasury account.
pub open spec fn treasury_path(auction_house: Seq<u8>) -> Seq<Seq<u8>> {
    seq![prefix_seed(), auction_house, treasury_seed()]
}

/// Seeds of the escrow ledger of `wallet` in `auction_house`.
pub open spec fn escrow_path(auction_house: Seq<u8>, wallet: Seq<u8>) -> Seq<Seq<u8>> {
    seq![prefix_seed(), auction_house, wallet]
}

/// Seeds of the program-signer capability.
pub open spec fn program_signer_path() -> Seq<Seq<u8>> {
    seq![prefix_seed(), signer_seed()]
}

/// Seeds of the binding of an auctioneer authority to a marketplace.
pub open spec fn auctioneer_path(auction_house: Seq<u8>, authority: Seq<u8>) -> Seq<Seq<u8>> {
    seq![auctioneer_seed(), auction_house, authority]
}

/// Seeds of the auctioneer extension's own delegated authority.
pub open spec fn auctioneer_authority_path(auction_house: Seq<u8>) -> Seq<Seq<u8>> {
    seq![auctioneer_seed(), auction_house]
}

/// Seeds of the private (counterparty-scoped) trade state.
pub open spec fn trade_state_path(
    wallet: Seq<u8>,
    auction_house: Seq<u8>,
    token_account: Seq<u8>,
    treasury_mint: Seq<u8>,
    mint: Seq<u8>,
    price: u64,
    size: u64,
) -> Seq<Seq<u8>> {
    seq![
        prefix_seed(),
        wallet,
        auction_house,
        token_account,
        treasury_mint,
        mint,
        spec_u64_to_le_bytes(price),
        spec_u64_to_le_bytes(size),
    ]
}

/// Seeds of the public (any-holder) trade state.
pub open spec fn public_trade_state_path(
    wallet: Seq<u8>,
    auction_house: Seq<u8>,
    treasury_mint: Seq<u8>,
    mint: Seq<u8>,
    price: u64,
    size: u64,
) -> Seq<Seq<u8>> {
    seq![
        prefix_seed(),
        wallet,
        auction_house,
        treasury_mint,
        mint,
        spec_u64_to_le_bytes(price),
        spec_u64_to_le_bytes(size),
    ]
}

/// Seeds of the listing configuration of a sell order.
pub open spec fn listing_config_path(
    seller: Seq<u8>,
    auction_house: Seq<u8>,
    token_account: Seq<u8>,
    treasury_mint: Seq<u8>,
    mint: Seq<u8>,
    size: u64,
) -> Seq<Seq<u8>> {
    seq![
        listing_config_seed(),
        seller,
        auction_house,
        token_account,
        treasury_mint,
        mint,
        spec_u64_to_le_bytes(size),
    ]
}

/// Seeds of the metadata record of `mint` under the metadata program.
pub open spec fn metadata_path(metadata_program: Seq<u8>, mint: Seq<u8>) -> Seq<Seq<u8>> {
    seq![metadata_seed(), metadata_program, mint]
}

pub fn auction_house_seeds(creator: &Address, treasury_mint: &Address) -> (r: Vec<Vec<u8>>)
    ensures
        crate::address::seeds_view(r@) == auction_house_path(creator@, treasury_mint@),
{
    let r: Vec<Vec<u8>> = vec![prefix_bytes(), creator.to_vec(), treasury_mint.to_vec()];
    assert(crate::address::seeds_view(r@) =~= auction_house_path(creator@, treasury_mint@));
    r
}

pub fn fee_account_seeds(auction_house: &Address) -> (r: Vec<Vec<u8>>)
    ensures
        crate::address::seeds_view(r@) == fee_account_path(auction_house@),
{
    let r: Vec<Vec<u8>> = vec![prefix_bytes(), auction_house.to_vec(), fee_payer_bytes()];
    assert(crate::address::seeds_view(r@) =~= fee_account_path(auction_house@));
    r
}

pub fn treasury_seeds(auction_house: &Address) -> (r: Vec<Vec<u8>>)
    ensures
        crate::address::seeds_view(r@) == treasury_path(auction_house@),
{
    let r: Vec<Vec<u8>> = vec![prefix_bytes(), auction_house.to_vec(), treasury_bytes()];
    assert(crate::address::seeds_view(r@) =~= treasury_path(auction_house@));
    r
}

pub fn escrow_seeds(auction_house: &Address, wallet: &Address) -> (r: Vec<Vec<u8>>)
    ensures
        crate::address::seeds_view(r@) == escrow_path(auction_house@, wallet@),
{
    let r: Vec<Vec<u8>> = vec![prefix_bytes(), auction_house.to_vec(), wallet.to_vec()];
    assert(crate::address::seeds_view(r@) =~= escrow_path(auction_house@, wallet@));
    r
}

pub fn program_signer_seeds() -> (r: Vec<Vec<u8>>)
    ensures
        crate::address::seeds_view(r@) == program_signer_path(),
{
    let r: Vec<Vec<u8>> = vec![prefix_bytes(), signer_bytes()];
    assert(crate::address::seeds_view(r@) =~= program_signer_path());
    r
}

pub fn auctioneer_seeds(auction_house: &Address, authority: &Address) -> (r: Vec<Vec<u8>>)
    ensures
        crate::address::seeds_view(r@) == auctioneer_path(auction_house@, authority@),
{
    let r: Vec<Vec<u8>> = vec![auctioneer_bytes(), auction_house.to_vec(), authority.to_vec()];
    assert(crate::address::seeds_view(r@) =~= auctioneer_path(auction_house@, authority@));
    r
}

pub fn auctioneer_authority_seeds(auction_house: &Address) -> (r: Vec<Vec<u8>>)
    ensures
        crate::address::seeds_view(r@) == auctioneer_authority_path(auction_house@),
{
    let r: Vec<Vec<u8>> = vec![auctioneer_bytes(), auction_house.to_vec()];
    assert(crate::address::seeds_view(r@) =~= auctioneer_authority_path(auction_house@));
    r
}

pub fn trade_state_seeds(
    wallet: &Address,
    auction_house: &Address,
    token_account: &Address,
    treasury_mint: &Address,
    mint: &Address,
    price: u64,
    size: u64,
) -> (r: Vec<Vec<u8>>)
    ensures
        crate::address::seeds_view(r@) == trade_state_path(
            wallet@,
            auction_house@,
            token_account@,
            treasury_mint@,
            mint@,
            price,
            size,
        ),
{
    let r: Vec<Vec<u8>> = vec![
        prefix_bytes(),
        wallet.to_vec(),
        auction_house.to_vec(),
        token_account.to_vec(),
        treasury_mint.to_vec(),
        mint.to_vec(),
        u64_to_le_bytes(price),
        u64_to_le_bytes(size),
    ];
    assert(crate::address::seeds_view(r@) =~= trade_state_path(
        wallet@,
        auction_house@,
        token_account@,
        treasury_mint@,
        mint@,
        price,
        size,
    ));
    r
}

pub fn public_trade_state_seeds(
    wallet: &Address,
    auction_house: &Address,
    treasury_mint: &Address,
    mint: &Address,
    price: u64,
    size: u64,
) -> (r: Vec<Vec<u8>>)
    ensures
        crate::address::seeds_view(r@) == public_trade_state_path(
            wallet@,
            auction_house@,
            treasury_mint@,
            mint@,
            price,
            size,
        ),
{
    let r: Vec<Vec<u8>> = vec![
        prefix_bytes(),
        wallet.to_vec(),
        auction_house.to_vec(),
        treasury_mint.to_vec(),
        mint.to_vec(),
        u64_to_le_bytes(price),
        u64_to_le_bytes(size),
    ];
    assert(crate::address::seeds_view(r@) =~= public_trade_state_path(
        wallet@,
        auction_house@,
        treasury_mint@,
        mint@,
        price,
        size,
    ));
    r
}

pub fn listing_config_seeds(
    seller: &Address,
    auction_house: &Address,
    token_account: &Address,
    treasury_mint: &Address,
    mint: &Address,
    size: u64,
) -> (r: Vec<Vec<u8>>)
    ensures
        crate::address::seeds_view(r@) == listing_config_path(
            seller@,
            auction_house@,
            token_account@,
            treasury_mint@,
            mint@,
            size,
        ),
{
    let r: Vec<Vec<u8>> = vec![
        listing_config_bytes(),
        seller.to_vec(),
        auction_house.to_vec(),
        token_account.to_vec(),
        treasury_mint.to_vec(),
        mint.to_vec(),
        u64_to_le_bytes(size),
    ];
    assert(crate::address::seeds_view(r@) =~= listing_config_path(
        seller@,
        auction_house@,
        token_account@,
        treasury_mint@,
        mint@,
        size,
    ));
    r
}

pub fn metadata_seeds(metadata_program: &Address, mint: &Address) -> (r: Vec<Vec<u8>>)
    ensures
        crate::address::seeds_view(r@) == metadata_path(metadata_program@, mint@),
{
    let r: Vec<Vec<u8>> = vec![metadata_bytes(), metadata_program.to_vec(), mint.to_vec()];
    assert(crate::address::seeds_view(r@) =~= metadata_path(metadata_program@, mint@));
    r
}

} // verus!
