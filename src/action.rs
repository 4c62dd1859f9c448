use vstd::prelude::*;

use crate::address::Address;

verus! {

/// One effect that an accepted operation has the host carry out. An
/// operation yields its effects only once every check has passed, so a
/// failed operation has none.
#[derive(Clone, Copy, Debug)]
pub enum Action {
    /// Move native value from `from` to `to`.
    Transfer { from: Address, to: Address, amount: u64 },
    /// Move tokens from `from` to `to`, authorized by `authority`.
    TokenTransfer { from: Address, to: Address, authority: Address, amount: u64 },
    /// Create the associated token account `account` of `wallet` for `mint`,
    /// paid for by `payer`.
    CreateAssociatedTokenAccount { account: Address, wallet: Address, mint: Address, payer: Address },
    /// Create the token account `account` of `mint` held by `owner`, paid for
    /// by `payer`.
    CreateTokenAccount { account: Address, mint: Address, owner: Address, payer: Address },
    /// Revoke the delegation of the token account `account`, signed by `owner`.
    Revoke { account: Address, owner: Address },
    /// Close `account`: its whole balance goes to `receiver` and its data is zeroed.
    Close { account: Address, receiver: Address },
    /// Give `account` `space` bytes of data.
    Allocate { account: Address, space: u64 },
    /// Make `owner` the program that owns `account`.
    Assign { account: Address, owner: Address },
}

/// The value that `a` moves out of `source`: the amount of a transfer of
/// native value or tokens from it, else nothing.
pub open spec fn moved_from(a: Action, source: Seq<u8>) -> int {
    match a {
        Action::Transfer { from, amount, .. } => if from@ == source {
            amount as int
        } else {
            0
        },
        Action::TokenTransfer { from, amount, .. } => if from@ == source {
            amount as int
        } else {
            0
        },
        _ => 0,
    }
}

/// The total value that `actions` move out of `source`.
pub open spec fn outflow(actions: Seq<Action>, source: Seq<u8>) -> int
    decreases actions.len(),
{
    if actions.len() == 0 {
        0
    } else {
        outflow(actions.drop_last(), source) + moved_from(actions.last(), source)
    }
}

pub proof fn lemma_outflow_concat(a: Seq<Action>, b: Seq<Action>, source: Seq<u8>)
    ensures
        outflow(a + b, source) == outflow(a, source) + outflow(b, source),
    decreases b.len(),
{
    if b.len() > 0 {
        assert((a + b).drop_last() =~= a + b.drop_last());
        lemma_outflow_concat(a, b.drop_last(), source);
    } else {
        assert(a + b =~= a);
    }
}

pub proof fn lemma_outflow_single(a: Action, source: Seq<u8>)
    ensures
        outflow(seq![a], source) == moved_from(a, source),
{
    assert(seq![a].drop_last() =~= Seq::<Action>::empty());
    assert(outflow(Seq::<Action>::empty(), source) == 0);
    assert(seq![a].last() == a);
}

} // verus!
