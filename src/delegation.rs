use vstd::prelude::*;

use crate::address::{derive_address, same_address, seeds_view, Address};
use crate::error::AuctionHouseError;
use crate::address::derived_at;
use crate::house::AuctionHouse;
use crate::pda::{auctioneer_path, auctioneer_seeds};

verus! {

/// The delegated-auctioneer check: the marketplace must have an auctioneer,
/// and it must be the binding derived for `auctioneer_authority`.
pub open spec fn delegation_error(
    program: Seq<u8>,
    house: AuctionHouse,
    auction_house: Seq<u8>,
    auctioneer_authority: Seq<u8>,
) -> Option<AuctionHouseError> {
    if !house.has_auctioneer {
        Some(AuctionHouseError::NoAuctioneerProgramSet)
    } else if derived_at(auctioneer_path(auction_house, auctioneer_authority), program, house.auctioneer_address@) is None {
        Some(AuctionHouseError::DerivedKeyInvalid)
    } else {
        None
    }
}

/// Checks the delegated-auctioneer gate.
pub fn assert_auctioneer_delegation(
    program_id: &Address,
    house: &AuctionHouse,
    auction_house: &Address,
    auctioneer_authority: &Address,
) -> (r: Result<(), AuctionHouseError>)
    ensures
        match delegation_error(program_id@, *house, auction_house@, auctioneer_authority@) {
            None => r is Ok,
            Some(e) => r == Err::<(), AuctionHouseError>(e),
        },
{
    if !house.has_auctioneer {
        return Err(AuctionHouseError::NoAuctioneerProgramSet);
    }
    let seeds = auctioneer_seeds(auction_house, auctioneer_authority);
    let (key, _) = derive_address(&seeds, program_id)?;
    if !same_address(&key, &house.auctioneer_address) {
        return Err(AuctionHouseError::DerivedKeyInvalid);
    }
    Ok(())
}

/// The first failure of `key` and `bump` as the canonical derivation of
/// `path`: `DerivedKeyInvalid` where `key` is not derived,
/// `BumpSeedNotInHashMap` where `bump` is not the canonical bump.
pub open spec fn canonical_error(path: Seq<Seq<u8>>, program: Seq<u8>, key: Seq<u8>, bump: u8) -> Option<AuctionHouseError> {
    match derived_at(path, program, key) {
        None => Some(AuctionHouseError::DerivedKeyInvalid),
        Some(b) => if b != bump {
            Some(AuctionHouseError::BumpSeedNotInHashMap)
        } else {
            None
        },
    }
}

/// Checks that `key` is derived from `seeds` with the canonical bump `bump`.
pub fn assert_canonical(seeds: &Vec<Vec<u8>>, program_id: &Address, key: &Address, bump: u8) -> (r: Result<(), AuctionHouseError>)
    ensures
        match canonical_error(seeds_view(seeds@), program_id@, key@, bump) {
            None => r is Ok,
            Some(e) => r == Err::<(), AuctionHouseError>(e),
        },
{
    let (k, b) = derive_address(seeds, program_id)?;
    if !same_address(&k, key) {
        return Err(AuctionHouseError::DerivedKeyInvalid);
    }
    if b != bump {
        return Err(AuctionHouseError::BumpSeedNotInHashMap);
    }
    Ok(())
}

} // verus!
