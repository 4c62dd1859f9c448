use vstd::prelude::*;

use crate::action::Action;
use crate::address::Address;
use crate::error::AuctionHouseError;

verus! {

/// An account as the host presents it to an operation: identity, owning
/// program, native balance, data, whether it signed the transaction, and the
/// rent-exempt minimum for its data size.
#[derive(Clone, Debug)]
pub struct AccountView {
    pub key: Address,
    pub owner: Address,
    pub lamports: u64,
    pub data: Vec<u8>,
    pub is_signer: bool,
    pub rent_minimum: u64,
}

impl AccountView {
    /// Whether the account holds no data.
    pub fn data_is_empty(&self) -> (r: bool)
        ensures
            r == (self.data@.len() == 0),
    {
        self.data.len() == 0
    }
}

/// What a new account still needs to hold `rent_minimum` (at least one).
pub open spec fn required_lamports(rent_minimum: int, lamports: int) -> int {
    let need = if rent_minimum >= 1 {
        rent_minimum
    } else {
        1
    };
    if need > lamports {
        need - lamports
    } else {
        0
    }
}

/// Makes `new_account` an account of `size` bytes owned by `program_id`:
/// `payer` first tops it up to `rent_minimum` (the rent-exempt minimum for
/// `size` bytes, and at least one), then it is sized and assigned.
pub fn create_or_allocate_account_raw(
    program_id: &Address,
    new_account: &AccountView,
    payer: &Address,
    size: u64,
    rent_minimum: u64,
) -> (r: Vec<Action>)
    ensures
        r@ == (if required_lamports(rent_minimum as int, new_account.lamports as int) > 0 {
            seq![
                Action::Transfer {
                    from: *payer,
                    to: new_account.key,
                    amount: required_lamports(rent_minimum as int, new_account.lamports as int) as u64,
                },
            ]
        } else {
            Seq::empty()
        }) + seq![
            Action::Allocate { account: new_account.key, space: size },
            Action::Assign { account: new_account.key, owner: *program_id },
        ],
{
    let need: u64 = if rent_minimum >= 1 {
        rent_minimum
    } else {
        1
    };
    let required = need.saturating_sub(new_account.lamports);
    let mut r: Vec<Action> = Vec::new();
    if required > 0 {
        r.push(Action::Transfer { from: *payer, to: new_account.key, amount: required });
    }
    let ghost first = r@;
    r.push(Action::Allocate { account: new_account.key, space: size });
    r.push(Action::Assign { account: new_account.key, owner: *program_id });
    assert(r@ =~= first + seq![
        Action::Allocate { account: new_account.key, space: size },
        Action::Assign { account: new_account.key, owner: *program_id },
    ]);
    r
}

/// Creates the program-owned token account `payment_account` of `mint`,
/// held by `owner` and paid for by `fee_payer`, where settlement is in
/// tokens and it does not exist yet; else nothing.
pub fn create_program_token_account_if_not_present(
    payment_account: &AccountView,
    mint: &Address,
    owner: &Address,
    fee_payer: &Address,
    is_native: bool,
) -> (r: Vec<Action>)
    ensures
        r@ == (if !is_native && payment_account.data@.len() == 0 {
            seq![
                Action::CreateTokenAccount {
                    account: payment_account.key,
                    mint: *mint,
                    owner: *owner,
                    payer: *fee_payer,
                },
            ]
        } else {
            Seq::empty()
        }),
{
    let mut r: Vec<Action> = Vec::new();
    if !is_native && payment_account.data_is_empty() {
        r.push(Action::CreateTokenAccount { account: payment_account.key, mint: *mint, owner: *owner, payer: *fee_payer });
        assert(r@ =~= seq![
            Action::CreateTokenAccount { account: payment_account.key, mint: *mint, owner: *owner, payer: *fee_payer },
        ]);
    } else {
        assert(r@ =~= Seq::<Action>::empty());
    }
    r
}

/// Closes `source` into `receiver`: its whole balance moves to `receiver`
/// and its data is zeroed. Fails with `NumericalOverflow`, changing nothing,
/// where the receiver's balance would overflow.
pub fn close_account(source: &mut AccountView, receiver: &mut AccountView) -> (r: Result<(), AuctionHouseError>)
    ensures
        old(receiver).lamports + old(source).lamports > u64::MAX ==> r == Err::<(), AuctionHouseError>(
            AuctionHouseError::NumericalOverflow,
        ) && *final(source) == *old(source) && *final(receiver) == *old(receiver),
        old(receiver).lamports + old(source).lamports <= u64::MAX ==> {
            &&& r is Ok
            &&& final(receiver).lamports == old(receiver).lamports + old(source).lamports
            &&& final(source).lamports == 0
            &&& final(source).data@ == Seq::new(old(source).data@.len(), |i: int| 0u8)
            &&& final(source).key == old(source).key
            &&& final(source).owner == old(source).owner
            &&& final(receiver).data@ == old(receiver).data@
            &&& final(receiver).key == old(receiver).key
        },
{
    let current = source.lamports;
    let total = match receiver.lamports.checked_add(current) {
        Some(t) => t,
        None => {
            return Err(AuctionHouseError::NumericalOverflow);
        },
    };
    source.lamports = 0;
    receiver.lamports = total;
    let n = source.data.len();
    let mut i: usize = 0;
    while i < n
        invariant
            source.data@.len() == n,
            n == old(source).data@.len(),
            source.lamports == 0,
            source.key == old(source).key,
            source.owner == old(source).owner,
            receiver.lamports == old(receiver).lamports + old(source).lamports,
            receiver.data@ == old(receiver).data@,
            receiver.key == old(receiver).key,
            i <= n,
            forall|j: int| 0 <= j < i ==> source.data@[j] == 0u8,
        decreases n - i,
    {
        source.data.set(i, 0);
        i = i + 1;
    }
    assert(source.data@ =~= Seq::new(n as nat, |i: int| 0u8));
    Ok(())
}

} // verus!
