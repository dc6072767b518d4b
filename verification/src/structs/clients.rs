//! Client accounts: the per-client balance state machine.
//!
//! Every mutating operation re-establishes the balance equation
//! `total == available + held`; a locked account rejects every further
//! mutation, so `locked` is monotonic over a run.

use vstd::prelude::*;

verus! {

/// Result type of the account operations. The operations themselves never
/// fail: disallowed business instructions are silent no-ops.
pub type ClientResult = Result<(), String>;

/// The mathematical value of a [`ClientAccount`]: the same fields, with the
/// monetary ones as unbounded integers. All monetary values count units of
/// one ten-thousandth, so four fractional digits are exact.
pub ghost struct AccountV {
    pub client: u16,
    pub available: int,
    pub held: int,
    pub total: int,
    pub locked: bool,
}

impl AccountV {
    /// The balance equation together with non-negative balances: what holds
    /// of every account the engine ever produces.
    pub open spec fn wf(self) -> bool {
        &&& self.total == self.available + self.held
        &&& self.available >= 0
        &&& self.held >= 0
    }
}

/// A fresh account for `client`: zero balances, unlocked.
pub open spec fn new_account_v(client: u16) -> AccountV {
    AccountV { client, available: 0, held: 0, total: 0, locked: false }
}

/// Deposit: credit `available` unless the account is locked.
pub open spec fn deposit_v(a: AccountV, amount: int) -> AccountV {
    if !a.locked {
        AccountV {
            available: a.available + amount,
            total: a.available + amount + a.held,
            ..a
        }
    } else {
        a
    }
}

/// Withdrawal: debit `available` when the account is unlocked and the funds
/// suffice; otherwise leave the account unchanged.
pub open spec fn withdrawal_v(a: AccountV, amount: int) -> AccountV {
    if !a.locked && a.available - amount >= 0 {
        AccountV {
            available: a.available - amount,
            total: a.available - amount + a.held,
            ..a
        }
    } else {
        a
    }
}

/// Dispute: move `amount` from `available` to `held` when the account is
/// unlocked and the funds suffice; otherwise leave the account unchanged.
pub open spec fn dispute_v(a: AccountV, amount: int) -> AccountV {
    if !a.locked && a.available - amount >= 0 {
        AccountV {
            available: a.available - amount,
            held: a.held + amount,
            total: a.available + a.held,
            ..a
        }
    } else {
        a
    }
}

/// Resolve: move `amount` from `held` back to `available` when the account
/// is unlocked and enough is held; otherwise leave the account unchanged.
pub open spec fn resolve_v(a: AccountV, amount: int) -> AccountV {
    if !a.locked && a.held - amount >= 0 {
        AccountV {
            available: a.available + amount,
            held: a.held - amount,
            total: a.available + a.held,
            ..a
        }
    } else {
        a
    }
}

/// Chargeback: withdraw `amount` from `held` and lock the account when it is
/// unlocked and enough is held; otherwise leave the account unchanged.
pub open spec fn chargeback_v(a: AccountV, amount: int) -> AccountV {
    if !a.locked && a.held - amount >= 0 {
        AccountV {
            held: a.held - amount,
            total: a.available + a.held - amount,
            locked: true,
            ..a
        }
    } else {
        a
    }
}

/// One client's account: balances in units of one ten-thousandth, plus the
/// lock flag a chargeback sets.
#[derive(Clone, Copy, Debug)]
pub struct ClientAccount {
    pub client: u16,
    pub available: u64,
    pub held: u64,
    pub total: u64,
    pub locked: bool,
}

impl View for ClientAccount {
    type V = AccountV;

    open spec fn view(&self) -> AccountV {
        AccountV {
            client: self.client,
            available: self.available as int,
            held: self.held as int,
            total: self.total as int,
            locked: self.locked,
        }
    }
}

impl ClientAccount {
    /// Returns a new, unlocked account for `client` with all balances zero.
    pub fn new(client: u16) -> (a: ClientAccount)
        ensures
            a@ == new_account_v(client),
    {
        ClientAccount { client, available: 0, held: 0, total: 0, locked: false }
    }

    /// Recomputes `total` as the sum of `available` and `held`.
    pub fn update_total(&mut self)
        requires
            old(self).available + old(self).held <= u64::MAX,
        ensures
            final(self)@ == (AccountV {
                total: old(self)@.available + old(self)@.held,
                ..old(self)@
            }),
    {
        self.total = self.available + self.held;
    }

    /// Deposits `amount` into the account; a locked account ignores it.
    pub fn deposit(&mut self, amount: u64) -> (r: ClientResult)
        requires
            !old(self).locked ==> old(self).available + amount + old(self).held <= u64::MAX,
        ensures
            final(self)@ == deposit_v(old(self)@, amount as int),
            r is Ok,
    {
        if !self.locked {
            self.available = self.available + amount;
            self.update_total();
        }
        Ok(())
    }

    /// Withdraws `amount`; a locked account or insufficient available funds
    /// make it a no-op.
    pub fn withdrawal(&mut self, amount: u64) -> (r: ClientResult)
        requires
            (!old(self).locked && old(self).available >= amount) ==> old(self).available - amount
                + old(self).held <= u64::MAX,
        ensures
            final(self)@ == withdrawal_v(old(self)@, amount as int),
            r is Ok,
    {
        if !self.locked && self.available >= amount {
            self.available = self.available - amount;
            self.update_total();
        }
        Ok(())
    }

    /// Moves `amount` from available to held funds; a locked account or
    /// insufficient available funds make it a no-op.
    pub fn dispute(&mut self, amount: u64) -> (r: ClientResult)
        requires
            (!old(self).locked && old(self).available >= amount) ==> old(self).available + old(
                self,
            ).held <= u64::MAX,
        ensures
            final(self)@ == dispute_v(old(self)@, amount as int),
            r is Ok,
    {
        if !self.locked && self.available >= amount {
            self.available = self.available - amount;
            self.held = self.held + amount;
            self.update_total();
        }
        Ok(())
    }

    /// Moves `amount` from held back to available funds; a locked account or
    /// insufficient held funds make it a no-op.
    pub fn resolve(&mut self, amount: u64) -> (r: ClientResult)
        requires
            (!old(self).locked && old(self).held >= amount) ==> old(self).available + old(
                self,
            ).held <= u64::MAX,
        ensures
            final(self)@ == resolve_v(old(self)@, amount as int),
            r is Ok,
    {
        if !self.locked && self.held >= amount {
            self.available = self.available + amount;
            self.held = self.held - amount;
            self.update_total();
        }
        Ok(())
    }

    /// Withdraws `amount` from held funds and locks the account for good; a
    /// locked account or insufficient held funds make it a no-op.
    pub fn chargeback(&mut self, amount: u64) -> (r: ClientResult)
        requires
            (!old(self).locked && old(self).held >= amount) ==> old(self).available + old(
                self,
            ).held - amount <= u64::MAX,
        ensures
            final(self)@ == chargeback_v(old(self)@, amount as int),
            r is Ok,
    {
        if !self.locked && self.held >= amount {
            self.held = self.held - amount;
            self.update_total();
            self.locked = true;
        }
        Ok(())
    }
}

} // verus!
