use vstd::prelude::*;

use crate::address::{assert_derivation, derived_at, same_address, Address};
use crate::error::AuctionHouseError;
use crate::pda::{
    public_trade_state_path, public_trade_state_seeds, trade_state_path, trade_state_seeds,
};

verus! {

/// The terms that identify one order: who offers, in which marketplace, for
/// which asset, at which price and quantity.
#[derive(Clone, Copy, Debug)]
pub struct OrderTerms {
    pub wallet: Address,
    pub auction_house: Address,
    pub treasury_mint: Address,
    pub mint: Address,
    pub token_holder: Address,
    pub price: u64,
    pub size: u64,
}

/// The bump of `trade_state` under the private form of `t`.
pub open spec fn private_bump(program: Seq<u8>, t: OrderTerms, trade_state: Seq<u8>) -> Option<u8> {
    derived_at(
        trade_state_path(
            t.wallet@,
            t.auction_house@,
            t.token_holder@,
            t.treasury_mint@,
            t.mint@,
            t.price,
            t.size,
        ),
        program,
        trade_state,
    )
}

/// The bump of `trade_state` under the public form of `t`.
pub open spec fn public_bump(program: Seq<u8>, t: OrderTerms, trade_state: Seq<u8>) -> Option<u8> {
    derived_at(
        public_trade_state_path(t.wallet@, t.auction_house@, t.treasury_mint@, t.mint@, t.price, t.size),
        program,
        trade_state,
    )
}

/// The validation rule of trade states: the stored bump must be the bump of
/// exactly one of the two forms, and that form must derive the account.
pub open spec fn valid_trade_state(program: Seq<u8>, t: OrderTerms, trade_state: Seq<u8>, ts_bump: u8) -> Option<u8> {
    match (public_bump(program, t, trade_state), private_bump(program, t, trade_state)) {
        (Some(p), None) => if p == ts_bump {
            Some(p)
        } else {
            None
        },
        (None, Some(b)) => if b == ts_bump {
            Some(b)
        } else {
            None
        },
        _ => None,
    }
}

/// Checks that `trade_state` is the trade state of the order `t` with the
/// stored bump `ts_bump`, under exactly one of the public and private forms.
pub fn assert_valid_trade_state(
    program_id: &Address,
    t: &OrderTerms,
    trade_state: &Address,
    ts_bump: u8,
) -> (r: Result<u8, AuctionHouseError>)
    ensures
        match valid_trade_state(program_id@, *t, trade_state@, ts_bump) {
            Some(b) => r == Ok::<u8, AuctionHouseError>(b),
            None => r == Err::<u8, AuctionHouseError>(AuctionHouseError::DerivedKeyInvalid),
        },
{
    let private_seeds = trade_state_seeds(
        &t.wallet,
        &t.auction_house,
        &t.token_holder,
        &t.treasury_mint,
        &t.mint,
        t.price,
        t.size,
    );
    let canonical_bump = assert_derivation(program_id, trade_state, &private_seeds);
    let public_seeds = public_trade_state_seeds(
        &t.wallet,
        &t.auction_house,
        &t.treasury_mint,
        &t.mint,
        t.price,
        t.size,
    );
    let canonical_public_bump = assert_derivation(program_id, trade_state, &public_seeds);
    match (canonical_public_bump, canonical_bump) {
        (Ok(public), Err(_)) => {
            if public == ts_bump {
                Ok(public)
            } else {
                Err(AuctionHouseError::DerivedKeyInvalid)
            }
        },
        (Err(_), Ok(bump)) => {
            if bump == ts_bump {
                Ok(bump)
            } else {
                Err(AuctionHouseError::DerivedKeyInvalid)
            }
        },
        _ => Err(AuctionHouseError::DerivedKeyInvalid),
    }
}

/// A trade state accepted by the validation rule is derived by exactly one of
/// the public and private forms of its order, and its bump is that form's.
pub proof fn lemma_trade_state_exclusive(program: Seq<u8>, t: OrderTerms, trade_state: Seq<u8>, ts_bump: u8)
    requires
        valid_trade_state(program, t, trade_state, ts_bump) is Some,
    ensures
        public_bump(program, t, trade_state) is Some != private_bump(program, t, trade_state) is Some,
        public_bump(program, t, trade_state) == Some(ts_bump) || private_bump(program, t, trade_state)
            == Some(ts_bump),
{
}

/// One open order: the trade state's identity and its stored bump.
#[derive(Clone, Copy, Debug)]
pub struct OpenTradeState {
    pub key: Address,
    pub bump: u8,
}

/// The set of open trade states, keyed by identity. A trade state is open
/// exactly while it is listed here.
pub struct TradeStateBook {
    pub entries: Vec<OpenTradeState>,
}

impl View for TradeStateBook {
    type V = Map<Seq<u8>, u8>;

    open spec fn view(&self) -> Map<Seq<u8>, u8> {
        Map::new(
            |k: Seq<u8>| exists|i: int| 0 <= i < self.entries@.len() && self.entries@[i].key@ == k,
            |k: Seq<u8>|
                self.entries@[choose|i: int|
                    0 <= i < self.entries@.len() && self.entries@[i].key@ == k].bump,
        )
    }
}

impl TradeStateBook {
    /// No identity is listed twice.
    pub open spec fn well_formed(&self) -> bool {
        forall|i: int, j: int|
            0 <= i < self.entries@.len() && 0 <= j < self.entries@.len() && i != j
                ==> #[trigger] self.entries@[i].key@ != #[trigger] self.entries@[j].key@
    }

    /// Whether no identity is listed twice.
    pub fn is_well_formed(&self) -> (r: bool)
        ensures
            r == self.well_formed(),
    {
        let n = self.entries.len();
        let mut i: usize = 0;
        while i < n
            invariant
                n == self.entries@.len(),
                i <= n,
                forall|a: int, b: int|
                    0 <= a < i && 0 <= b < n && a != b ==> #[trigger] self.entries@[a].key@
                        != #[trigger] self.entries@[b].key@,
            decreases n - i,
        {
            let mut j: usize = 0;
            while j < n
                invariant
                    n == self.entries@.len(),
                    i < n,
                    j <= n,
                    forall|a: int, b: int|
                        0 <= a < i && 0 <= b < n && a != b ==> #[trigger] self.entries@[a].key@
                            != #[trigger] self.entries@[b].key@,
                    forall|b: int| 0 <= b < j && b != i ==> self.entries@[i as int].key@ != #[trigger] self.entries@[b].key@,
                decreases n - j,
            {
                if j != i && same_address(&self.entries[i].key, &self.entries[j].key) {
                    return false;
                }
                j = j + 1;
            }
            i = i + 1;
        }
        true
    }

    pub fn new() -> (r: TradeStateBook)
        ensures
            r.well_formed(),
            r@ == Map::<Seq<u8>, u8>::empty(),
    {
        let r = TradeStateBook { entries: Vec::new() };
        assert(r@ =~= Map::<Seq<u8>, u8>::empty());
        r
    }

    fn position(&self, key: &Address) -> (r: Option<usize>)
        ensures
            match r {
                Some(i) => i < self.entries@.len() && self.entries@[i as int].key@ == key@,
                None => forall|i: int| 0 <= i < self.entries@.len() ==> self.entries@[i].key@ != key@,
            },
    {
        let mut i: usize = 0;
        while i < self.entries.len()
            invariant
                i <= self.entries@.len(),
                forall|j: int| 0 <= j < i ==> self.entries@[j].key@ != key@,
            decreases self.entries@.len() - i,
        {
            if same_address(&self.entries[i].key, key) {
                return Some(i);
            }
            i = i + 1;
        }
        None
    }

    /// The stored bump of the trade state at `key`, if it is open.
    pub fn get(&self, key: &Address) -> (r: Option<u8>)
        requires
            self.well_formed(),
        ensures
            r is Some <==> self@.contains_key(key@),
            r is Some ==> r->Some_0 == self@[key@],
    {
        match self.position(key) {
            Some(i) => {
                proof {
                    let c = choose|j: int|
                        0 <= j < self.entries@.len() && self.entries@[j].key@ == key@;
                    assert(c == i as int);
                }
                Some(self.entries[i].bump)
            },
            None => None,
        }
    }

    /// Opens the trade state `key` with bump `bump`; fails with
    /// `TradeStateAlreadyOpen`, changing nothing, where it is open already.
    pub fn open(&mut self, key: &Address, bump: u8) -> (r: Result<(), AuctionHouseError>)
        requires
            old(self).well_formed(),
        ensures
            final(self).well_formed(),
            old(self)@.contains_key(key@) ==> r == Err::<(), AuctionHouseError>(
                AuctionHouseError::TradeStateAlreadyOpen,
            ) && final(self)@ == old(self)@,
            !old(self)@.contains_key(key@) ==> r is Ok && final(self)@ == old(self)@.insert(key@, bump),
    {
        if self.position(key).is_some() {
            return Err(AuctionHouseError::TradeStateAlreadyOpen);
        }
        let ghost before = self.entries@;
        self.entries.push(OpenTradeState { key: *key, bump });
        proof {
            let n = before.len() as int;
            assert(self.entries@[n].key@ == key@);
            assert forall|k: Seq<u8>| #[trigger] self@.contains_key(k) == old(self)@.insert(key@, bump).contains_key(k) by {
                if k != key@ && self@.contains_key(k) {
                    let i = choose|i: int| 0 <= i < self.entries@.len() && self.entries@[i].key@ == k;
                    assert(i < n);
                    assert(before[i].key@ == k);
                }
                if old(self)@.contains_key(k) {
                    let i = choose|i: int| 0 <= i < before.len() && before[i].key@ == k;
                    assert(self.entries@[i].key@ == k);
                }
            }
            assert forall|k: Seq<u8>| #[trigger] self@.contains_key(k) implies self@[k] == old(self)@.insert(key@, bump)[k] by {
                let c = choose|i: int| 0 <= i < self.entries@.len() && self.entries@[i].key@ == k;
                if k == key@ {
                    assert(c == n);
                } else {
                    assert(c < n);
                    assert(before[c].key@ == k);
                    let c0 = choose|i: int| 0 <= i < before.len() && before[i].key@ == k;
                    assert(self.entries@[c0].key@ == k);
                    assert(c0 == c);
                }
            }
            assert(self@ =~= old(self)@.insert(key@, bump));
        }
        Ok(())
    }

    /// Closes the trade state `key` and returns its bump; fails with
    /// `TradeStateNotOpen`, changing nothing, where it is not open.
    pub fn close(&mut self, key: &Address) -> (r: Result<u8, AuctionHouseError>)
        requires
            old(self).well_formed(),
        ensures
            final(self).well_formed(),
            !old(self)@.contains_key(key@) ==> r == Err::<u8, AuctionHouseError>(
                AuctionHouseError::TradeStateNotOpen,
            ) && final(self)@ == old(self)@,
            old(self)@.contains_key(key@) ==> r == Ok::<u8, AuctionHouseError>(old(self)@[key@])
                && final(self)@ == old(self)@.remove(key@),
    {
        match self.position(key) {
            None => Err(AuctionHouseError::TradeStateNotOpen),
            Some(i) => {
                let ghost before = self.entries@;
                proof {
                    let c = choose|j: int| 0 <= j < before.len() && before[j].key@ == key@;
                    assert(c == i as int);
                }
                let e = self.entries.remove(i);
                proof {
                    let after = self.entries@;
                    assert(after =~= before.remove(i as int));
                    assert forall|a: int, b: int|
                        0 <= a < after.len() && 0 <= b < after.len() && a != b
                            implies #[trigger] after[a].key@ != #[trigger] after[b].key@ by {
                        let a0 = if a < i { a } else { a + 1 };
                        let b0 = if b < i { b } else { b + 1 };
                        assert(after[a] == before[a0]);
                        assert(after[b] == before[b0]);
                    }
                    assert forall|k: Seq<u8>| #[trigger] self@.contains_key(k) == old(self)@.remove(key@).contains_key(k) by {
                        if self@.contains_key(k) {
                            let j = choose|j: int| 0 <= j < after.len() && after[j].key@ == k;
                            let j0 = if j < i { j } else { j + 1 };
                            assert(before[j0].key@ == k);
                            assert(j0 != i);
                        }
                        if old(self)@.remove(key@).contains_key(k) {
                            let j = choose|j: int| 0 <= j < before.len() && before[j].key@ == k;
                            assert(j != i);
                            let j1 = if j < i { j } else { j - 1 };
                            assert(after[j1].key@ == k);
                        }
                    }
                    assert forall|k: Seq<u8>| #[trigger] self@.contains_key(k) implies self@[k] == old(self)@.remove(key@)[k] by {
                        let c = choose|j: int| 0 <= j < after.len() && after[j].key@ == k;
                        let c0 = if c < i { c } else { c + 1 };
                        assert(before[c0].key@ == k);
                        let d = choose|j: int| 0 <= j < before.len() && before[j].key@ == k;
                        assert(d == c0);
                    }
                    assert(self@ =~= old(self)@.remove(key@));
                }
                Ok(e.bump)
            },
        }
    }
}

} // verus!
