use vstd::prelude::*;

use crate::account::AccountView;
use crate::error::AuctionHouseError;

verus! {

/// How far `balance` falls short of `rent_minimum`.
pub open spec fn shortfall(rent_minimum: int, balance: int) -> int {
    if balance >= rent_minimum {
        0
    } else {
        rent_minimum - balance
    }
}

/// The top-up that withdrawing `amount` from `account` needs to keep it
/// rent-exempt; `InsufficientFunds` where `amount` exceeds its balance.
pub fn verify_withdrawal(account: &AccountView, amount: u64) -> (r: Result<u64, AuctionHouseError>)
    ensures
        amount > account.lamports ==> r == Err::<u64, AuctionHouseError>(AuctionHouseError::InsufficientFunds),
        amount <= account.lamports ==> r is Ok && r->Ok_0 == shortfall(
            account.rent_minimum as int,
            account.lamports - amount,
        ),
{
    match account.lamports.checked_sub(amount) {
        None => Err(AuctionHouseError::InsufficientFunds),
        Some(diff) => Ok(account.rent_minimum.saturating_sub(diff)),
    }
}

/// The top-up that depositing `amount` into `account` needs to leave it
/// rent-exempt; `NumericalOverflow` where the sum overflows.
pub fn verify_deposit(account: &AccountView, amount: u64) -> (r: Result<u64, AuctionHouseError>)
    ensures
        account.lamports + amount > u64::MAX ==> r == Err::<u64, AuctionHouseError>(
            AuctionHouseError::NumericalOverflow,
        ),
        account.lamports + amount <= u64::MAX ==> r is Ok && r->Ok_0 == shortfall(
            account.rent_minimum as int,
            account.lamports + amount,
        ),
{
    match account.lamports.checked_add(amount) {
        None => Err(AuctionHouseError::NumericalOverflow),
        Some(total) => Ok(account.rent_minimum.saturating_sub(total)),
    }
}

/// The escrow of one depositor in one marketplace: its balance and the
/// rent-exempt minimum of its account. A balance of zero means the account
/// is closed.
#[derive(Clone, Copy, Debug)]
pub struct EscrowLedger {
    pub balance: u64,
    pub rent_minimum: u64,
}

/// An open escrow holds at least its rent-exempt minimum.
pub open spec fn ledger_sound(balance: int, rent_minimum: int) -> bool {
    balance == 0 || balance >= rent_minimum
}

/// The balance after depositing `amount`: the shortfall is topped up first.
pub open spec fn deposit_result(balance: int, rent_minimum: int, amount: int) -> Option<int> {
    let b = balance + shortfall(rent_minimum, balance) + amount;
    if b <= u64::MAX {
        Some(b)
    } else {
        None
    }
}

/// The balance after withdrawing `amount`, and the top-up: the whole
/// `amount` is paid out, and whatever the balance would then lack of its
/// rent-exempt minimum is topped up by the fee payer.
pub open spec fn withdraw_result(balance: int, rent_minimum: int, amount: int) -> Result<(int, int), AuctionHouseError> {
    if amount > balance {
        Err(AuctionHouseError::InsufficientFunds)
    } else {
        let top_up = shortfall(rent_minimum, balance - amount);
        Ok((balance - amount + top_up, top_up))
    }
}

impl EscrowLedger {
    pub open spec fn well_formed(&self) -> bool {
        ledger_sound(self.balance as int, self.rent_minimum as int)
    }

    /// A closed escrow whose account would need `rent_minimum` to stay open.
    pub fn new(rent_minimum: u64) -> (r: EscrowLedger)
        ensures
            r.well_formed(),
            r.balance == 0,
            r.rent_minimum == rent_minimum,
    {
        EscrowLedger { balance: 0, rent_minimum }
    }

    /// Deposits `amount`, topping the account up to its rent-exempt minimum
    /// first; returns what the depositor transfers. Fails with
    /// `NumericalOverflow`, changing nothing, where the balance would overflow.
    pub fn deposit(&mut self, amount: u64) -> (r: Result<u64, AuctionHouseError>)
        requires
            old(self).well_formed(),
        ensures
            final(self).well_formed(),
            final(self).rent_minimum == old(self).rent_minimum,
            match deposit_result(old(self).balance as int, old(self).rent_minimum as int, amount as int) {
                Some(b) => r is Ok && final(self).balance == b && r->Ok_0 == b - old(self).balance,
                None => r == Err::<u64, AuctionHouseError>(AuctionHouseError::NumericalOverflow)
                    && *final(self) == *old(self),
            },
    {
        let top_up = self.rent_minimum.saturating_sub(self.balance);
        let transfer = match amount.checked_add(top_up) {
            Some(t) => t,
            None => return Err(AuctionHouseError::NumericalOverflow),
        };
        let new_balance = match self.balance.checked_add(transfer) {
            Some(b) => b,
            None => return Err(AuctionHouseError::NumericalOverflow),
        };
        self.balance = new_balance;
        Ok(transfer)
    }

    /// Withdraws `amount`, paid out in full; the fee payer tops the account
    /// up to its rent-exempt minimum. Returns the top-up. Fails with
    /// `InsufficientFunds` where `amount` exceeds the balance, changing
    /// nothing.
    pub fn withdraw(&mut self, amount: u64) -> (r: Result<u64, AuctionHouseError>)
        requires
            old(self).well_formed(),
        ensures
            final(self).well_formed(),
            final(self).rent_minimum == old(self).rent_minimum,
            match withdraw_result(old(self).balance as int, old(self).rent_minimum as int, amount as int) {
                Ok(p) => r == Ok::<u64, AuctionHouseError>(p.1 as u64) && final(self).balance == p.0,
                Err(e) => r == Err::<u64, AuctionHouseError>(e) && *final(self) == *old(self),
            },
            r is Ok ==> final(self).balance >= final(self).rent_minimum,
    {
        let account = AccountView {
            key: crate::address::Address { bytes: [0u8; 32] },
            owner: crate::address::Address { bytes: [0u8; 32] },
            lamports: self.balance,
            data: Vec::new(),
            is_signer: false,
            rent_minimum: self.rent_minimum,
        };
        let top_up = verify_withdrawal(&account, amount)?;
        self.balance = self.balance - amount + top_up;
        Ok(top_up)
    }

    /// Closes the escrow, paying out its whole balance.
    pub fn close(&mut self) -> (r: u64)
        ensures
            final(self).well_formed(),
            final(self).balance == 0,
            final(self).rent_minimum == old(self).rent_minimum,
            r == old(self).balance,
    {
        let all = self.balance;
        self.balance = 0;
        all
    }
}

/// One step on an escrow ledger.
pub enum LedgerOp {
    Deposit(u64),
    Withdraw(u64),
}

/// The balance after `op`, where it succeeds; a failed step leaves it as it was.
pub open spec fn ledger_step(balance: int, rent_minimum: int, op: LedgerOp) -> int {
    match op {
        LedgerOp::Deposit(a) => match deposit_result(balance, rent_minimum, a as int) {
            Some(b) => b,
            None => balance,
        },
        LedgerOp::Withdraw(a) => match withdraw_result(balance, rent_minimum, a as int) {
            Ok(p) => p.0,
            Err(_) => balance,
        },
    }
}

/// The balance after the steps `ops`, in order.
pub open spec fn ledger_run(balance: int, rent_minimum: int, ops: Seq<LedgerOp>) -> int
    decreases ops.len(),
{
    if ops.len() == 0 {
        balance
    } else {
        ledger_run(ledger_step(balance, rent_minimum, ops[0]), rent_minimum, ops.drop_first())
    }
}

/// Over any sequence of deposits and withdrawals, an escrow is either closed
/// or holds at least its rent-exempt minimum, and a withdrawal that succeeds
/// leaves at least that minimum behind.
pub proof fn lemma_escrow_never_below_rent(balance: int, rent_minimum: int, ops: Seq<LedgerOp>)
    requires
        0 <= rent_minimum,
        ledger_sound(balance, rent_minimum),
    ensures
        ledger_sound(ledger_run(balance, rent_minimum, ops), rent_minimum),
        forall|b: int, a: int|
            ledger_sound(b, rent_minimum) && #[trigger] withdraw_result(b, rent_minimum, a) is Ok
                ==> withdraw_result(b, rent_minimum, a)->Ok_0.0 >= rent_minimum,
    decreases ops.len(),
{
    if ops.len() > 0 {
        lemma_escrow_never_below_rent(ledger_step(balance, rent_minimum, ops[0]), rent_minimum, ops.drop_first());
    }
}

} // verus!
