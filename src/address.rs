use vstd::prelude::*;

use anchor_lang::prelude::Pubkey;

use crate::error::AuctionHouseError;

verus! {

/// A 32-byte account identity.
#[derive(Clone, Copy, Debug)]
pub struct Address {
    pub bytes: [u8; 32],
}

impl View for Address {
    type V = Seq<u8>;

    open spec fn view(&self) -> Seq<u8> {
        self.bytes@
    }
}

impl Address {
    pub fn new(bytes: [u8; 32]) -> (r: Address)
        ensures
            r@ == bytes@,
    {
        Address { bytes }
    }

    pub fn to_vec(&self) -> (r: Vec<u8>)
        ensures
            r@ == self@,
    {
        let mut r: Vec<u8> = Vec::new();
        let mut i: usize = 0;
        while i < 32
            invariant
                i <= 32,
                self@.len() == 32,
                r@ == self@.subrange(0, i as int),
            decreases 32 - i,
        {
            r.push(self.bytes[i]);
            i = i + 1;
        }
        assert(r@ =~= self@);
        r
    }
}

/// Whether two identities are the same.
pub fn same_address(a: &Address, b: &Address) -> (r: bool)
    ensures
        r == (a@ == b@),
{
    let mut i: usize = 0;
    while i < 32
        invariant
            i <= 32,
            a@.len() == 32,
            b@.len() == 32,
            a@.subrange(0, i as int) == b@.subrange(0, i as int),
        decreases 32 - i,
    {
        if a.bytes[i] != b.bytes[i] {
            assert(a@[i as int] != b@[i as int]);
            return false;
        }
        assert(a@.subrange(0, i + 1) =~= a@.subrange(0, i as int).push(a@[i as int]));
        assert(b@.subrange(0, i + 1) =~= b@.subrange(0, i as int).push(b@[i as int]));
        i = i + 1;
    }
    assert(a@ =~= a@.subrange(0, 32));
    assert(b@ =~= b@.subrange(0, 32));
    true
}

/// Fails with `PublicKeyMismatch` unless the two identities are equal.
pub fn assert_keys_equal(key1: &Address, key2: &Address) -> (r: Result<(), AuctionHouseError>)
    ensures
        r is Ok <==> key1@ == key2@,
        r is Err ==> r == Err::<(), AuctionHouseError>(AuctionHouseError::PublicKeyMismatch),
{
    if same_address(key1, key2) {
        Ok(())
    } else {
        Err(AuctionHouseError::PublicKeyMismatch)
    }
}

/// The identity and bump that the host's program-address search yields for
/// `seeds` under `program_id`, or none where the search fails.
pub uninterp spec fn program_address(seeds: Seq<Seq<u8>>, program_id: Seq<u8>) -> Option<(Seq<u8>, u8)>;

/// The byte contents of each seed.
pub open spec fn seeds_view(seeds: Seq<Vec<u8>>) -> Seq<Seq<u8>> {
    seeds.map_values(|s: Vec<u8>| s@)
}

/// An optional (identity, bump) pair, with the identity as bytes.
pub open spec fn found_view(r: Option<(Address, u8)>) -> Option<(Seq<u8>, u8)> {
    match r {
        Some(p) => Some((p.0@, p.1)),
        None => None,
    }
}

/// Relies on `Pubkey::try_find_program_address`: the result is a function of
/// the seeds and the program id alone (a hash search over bump values), and it
/// is `None` when there are 16 or more seeds or a seed is longer than 32 bytes.
#[verifier::external_body]
pub(crate) fn find_address(seeds: &Vec<Vec<u8>>, program_id: &Address) -> (r: Option<(Address, u8)>)
    ensures
        found_view(r) == program_address(seeds_view(seeds@), program_id@),
        seeds@.len() >= 16 ==> r is None,
        (exists|i: int| 0 <= i < seeds@.len() && #[trigger] seeds@[i]@.len() > 32) ==> r is None,
{
    let parts: Vec<&[u8]> = seeds.iter().map(|s| s.as_slice()).collect();
    let program = Pubkey::new_from_array(program_id.bytes);
    Pubkey::try_find_program_address(&parts, &program).map(|(k, b)| (Address { bytes: k.to_bytes() }, b))
}

/// The canonical (identity, bump) of `seeds` under `program_id`, failing with
/// `DerivedKeyInvalid` where no address can be derived.
pub fn derive_address(seeds: &Vec<Vec<u8>>, program_id: &Address) -> (r: Result<(Address, u8), AuctionHouseError>)
    ensures
        match program_address(seeds_view(seeds@), program_id@) {
            Some(p) => r is Ok && r->Ok_0.0@ == p.0 && r->Ok_0.1 == p.1,
            None => r == Err::<(Address, u8), AuctionHouseError>(AuctionHouseError::DerivedKeyInvalid),
        },
{
    match find_address(seeds, program_id) {
        Some(p) => Ok(p),
        None => Err(AuctionHouseError::DerivedKeyInvalid),
    }
}

/// Re-deriving from the same seeds under the same program yields the same
/// identity and bump.
pub proof fn lemma_derivation_deterministic(
    seeds1: Seq<Seq<u8>>,
    seeds2: Seq<Seq<u8>>,
    program1: Seq<u8>,
    program2: Seq<u8>,
)
    requires
        seeds1 == seeds2,
        program1 == program2,
    ensures
        program_address(seeds1, program1) == program_address(seeds2, program2),
{
}

/// The bump of `account` where it is the identity derived from `path` under
/// `program`; none where it is not, or where nothing can be derived.
pub open spec fn derived_at(path: Seq<Seq<u8>>, program: Seq<u8>, account: Seq<u8>) -> Option<u8> {
    match program_address(path, program) {
        Some(p) => if p.0 == account {
            Some(p.1)
        } else {
            None
        },
        None => None,
    }
}

/// Checks that `account` is the identity derived from `path` under
/// `program_id`, and returns the bump.
pub fn assert_derivation(program_id: &Address, account: &Address, path: &Vec<Vec<u8>>) -> (r: Result<u8, AuctionHouseError>)
    ensures
        match derived_at(seeds_view(path@), program_id@, account@) {
            Some(b) => r == Ok::<u8, AuctionHouseError>(b),
            None => r == Err::<u8, AuctionHouseError>(AuctionHouseError::DerivedKeyInvalid),
        },
{
    let (key, bump) = derive_address(path, program_id)?;
    if !same_address(&key, account) {
        return Err(AuctionHouseError::DerivedKeyInvalid);
    }
    Ok(bump)
}

} // verus!
