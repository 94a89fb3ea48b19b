//! One client's balance state and the five balance-affecting operations.

use crate::common_types::Amount;
use vstd::prelude::*;

verus! {

/// One client's balance state: the funds on the books, the part of them
/// frozen by open disputes, and the one-way lock set by a chargeback.
///
/// The derived quantity `available = total - held` is the spendable part of
/// the balance. A well-formed account always satisfies `held <= total`.
#[derive(Clone, Copy)]
pub struct Account {
    /// Funds currently on the books: available and held together.
    pub total: Amount,
    /// Funds currently frozen by open disputes.
    pub held: Amount,
    /// One-way latch: set by a successful chargeback and never cleared.
    /// A locked account rejects all further deposits and withdrawals.
    pub locked: bool,
}

impl Account {
    /// The account invariant: held funds never exceed the funds on the books.
    pub open spec fn well_formed(self) -> bool {
        self.held <= self.total
    }

    /// Funds not frozen by a dispute; the spendable part of `total`.
    pub open spec fn spec_available(self) -> int {
        self.total - self.held
    }

    /// A fresh account, as created by its first deposit: the whole balance
    /// available, nothing held, unlocked.
    pub fn new(amount: Amount) -> (account: Account)
        ensures
            account.total == amount,
            account.held == 0,
            !account.locked,
            account.well_formed(),
    {
        Account { total: amount, held: 0, locked: false }
    }

    /// Add funds to the books. Succeeds exactly when the account is not
    /// locked; the new total saturates at the largest representable amount.
    /// A rejected deposit changes nothing.
    pub fn deposit(&mut self, amount: Amount) -> (ok: bool)
        requires
            old(self).well_formed(),
        ensures
            ok == !old(self).locked,
            ok ==> final(self).total == old(self).total.saturating_add(amount),
            !ok ==> *final(self) == *old(self),
            final(self).held == old(self).held,
            final(self).locked == old(self).locked,
            final(self).well_formed(),
    {
        if !self.locked {
            self.total = self.total.saturating_add(amount);
            true
        } else {
            false
        }
    }

    /// Remove funds from the books. Succeeds exactly when the account is not
    /// locked and the amount does not exceed the available balance. A
    /// rejected withdrawal changes nothing.
    pub fn withdraw(&mut self, amount: Amount) -> (ok: bool)
        requires
            old(self).well_formed(),
        ensures
            ok == (amount <= old(self).spec_available() && !old(self).locked),
            ok ==> final(self).total == old(self).total - amount,
            !ok ==> *final(self) == *old(self),
            final(self).held == old(self).held,
            final(self).locked == old(self).locked,
            final(self).well_formed(),
    {
        if amount <= self.available() && !self.is_locked() {
            self.total = self.total - amount;
            true
        } else {
            false
        }
    }

    /// Freeze funds pending a dispute. Succeeds exactly when the amount does
    /// not exceed the available balance (funds already spent cannot be
    /// disputed); the total is unchanged. A rejected dispute changes nothing.
    pub fn dispute(&mut self, amount: Amount) -> (ok: bool)
        requires
            old(self).well_formed(),
        ensures
            ok == (amount <= old(self).spec_available()),
            ok ==> final(self).held == old(self).held + amount,
            !ok ==> *final(self) == *old(self),
            final(self).total == old(self).total,
            final(self).locked == old(self).locked,
            final(self).well_formed(),
    {
        if amount <= self.available() {
            self.held = self.held + amount;
            true
        } else {
            false
        }
    }

    /// Release frozen funds back to the available balance. Succeeds exactly
    /// when the amount does not exceed the held balance; the total is
    /// unchanged. A rejected resolve changes nothing.
    pub fn resolve(&mut self, amount: Amount) -> (ok: bool)
        requires
            old(self).well_formed(),
        ensures
            ok == (amount <= old(self).held),
            ok ==> final(self).held == old(self).held - amount,
            !ok ==> *final(self) == *old(self),
            final(self).total == old(self).total,
            final(self).locked == old(self).locked,
            final(self).well_formed(),
    {
        if amount <= self.held {
            self.held = self.held - amount;
            true
        } else {
            false
        }
    }

    /// Permanently remove frozen funds and lock the account. Succeeds exactly
    /// when the amount does not exceed the held balance; both `held` and
    /// `total` drop by the amount and the lock is set together with the
    /// mutation. A rejected chargeback changes nothing and does not lock.
    pub fn chargeback(&mut self, amount: Amount) -> (ok: bool)
        requires
            old(self).well_formed(),
        ensures
            ok == (amount <= old(self).held),
            ok ==> final(self).held == old(self).held - amount
                && final(self).total == old(self).total - amount
                && final(self).locked,
            !ok ==> *final(self) == *old(self),
            final(self).well_formed(),
    {
        if amount <= self.held {
            self.locked = true;
            self.held = self.held - amount;
            self.total = self.total - amount;
            true
        } else {
            false
        }
    }

    /// The spendable balance: `total - held`.
    pub fn available(&self) -> (amount: Amount)
        requires
            self.well_formed(),
        ensures
            amount == self.spec_available(),
    {
        self.total - self.held
    }

    /// The balance currently frozen by open disputes.
    pub fn held(&self) -> (amount: Amount)
        ensures
            amount == self.held,
    {
        self.held
    }

    /// The full balance on the books.
    pub fn total(&self) -> (amount: Amount)
        ensures
            amount == self.total,
    {
        self.total
    }

    /// Whether a chargeback has locked the account.
    pub fn is_locked(&self) -> (locked: bool)
        ensures
            locked == self.locked,
    {
        self.locked
    }
}

} // verus!
