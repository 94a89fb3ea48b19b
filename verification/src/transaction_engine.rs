//! The ledger engine: routes each event to the right account and coordinates
//! the cross-transaction state (dispute records) that a single account cannot
//! track alone.

use crate::account::Account;
use crate::common_types::{Amount, ClientID, Transaction, TransactionID};
use std::collections::HashMap;
use vstd::prelude::*;

verus! {

/// The ledger's bookkeeping for one recorded deposit: who owns it, how much
/// it moved, and whether it is currently under dispute. Records are created
/// on successful deposits, flagged by successful disputes, and consumed by
/// successful resolves and chargebacks.
#[derive(Clone, Copy)]
pub struct TransactionRecord {
    /// The client whose account the recorded deposit credited.
    pub client: ClientID,
    /// The originally deposited amount; disputes always freeze exactly this.
    pub amount: Amount,
    /// Whether a dispute on this record is currently open.
    pub disputed: bool,
}

/// Why the engine rejected an event. Every rejection is non-fatal and leaves
/// all state unchanged; the caller may log it and go on.
#[derive(Debug, Clone, Copy, PartialEq, Eq, Structural)]
pub enum RejectReason {
    /// A deposit or withdrawal was attempted on a locked account.
    LockedAccount,
    /// A withdrawal or dispute asked for more than the available balance.
    InsufficientAvailableFunds,
    /// A resolve or chargeback asked for more than the held balance.
    InsufficientHeldFunds,
    /// A withdrawal or dispute-family event named a client with no account.
    UnknownAccount,
    /// A dispute, resolve or chargeback named an unrecorded transaction id.
    UnknownTransaction,
    /// A dispute, resolve or chargeback's client does not own the record.
    ClientMismatch,
    /// A dispute on an already-disputed record, or a resolve or chargeback on
    /// a record not currently disputed.
    InvalidDisputeState,
}

/// The mathematical state of the ledger: the accounts keyed by client id and
/// the deposit records keyed by transaction id. The engine's contracts are
/// all stated over this view.
pub ghost struct LedgerView {
    pub accounts: Map<ClientID, Account>,
    pub records: Map<TransactionID, TransactionRecord>,
}

impl LedgerView {
    /// Every account obeys its own invariant, and every record points at a
    /// client that has an account.
    pub open spec fn well_formed(self) -> bool {
        &&& forall|cx: ClientID|
            #[trigger] self.accounts.contains_key(cx) ==> self.accounts[cx].well_formed()
        &&& forall|tx: TransactionID|
            #[trigger] self.records.contains_key(tx) ==> self.accounts.contains_key(
                self.records[tx].client,
            )
    }

    /// What a deposit does. The first successful deposit for a client creates
    /// the account; a deposit on a locked account is rejected; any successful
    /// deposit records the transaction, and a reused transaction id
    /// overwrites the earlier record (last write wins).
    pub open spec fn deposit_step(self, tx: TransactionID, cx: ClientID, amount: Amount) -> (
        LedgerView,
        Result<(), RejectReason>,
    ) {
        if !self.accounts.contains_key(cx) {
            (
                LedgerView {
                    accounts: self.accounts.insert(cx, Account { total: amount, held: 0, locked: false }),
                    records: self.records.insert(
                        tx,
                        TransactionRecord { client: cx, amount, disputed: false },
                    ),
                },
                Ok(()),
            )
        } else if self.accounts[cx].locked {
            (self, Err(RejectReason::LockedAccount))
        } else {
            let account = self.accounts[cx];
            (
                LedgerView {
                    accounts: self.accounts.insert(
                        cx,
                        Account { total: account.total.saturating_add(amount), ..account },
                    ),
                    records: self.records.insert(
                        tx,
                        TransactionRecord { client: cx, amount, disputed: false },
                    ),
                },
                Ok(()),
            )
        }
    }

    /// What a withdrawal does. It never creates an account and is never
    /// recorded; it is rejected on a missing account, on a locked account,
    /// and when the amount exceeds the available balance.
    pub open spec fn withdrawal_step(self, cx: ClientID, amount: Amount) -> (
        LedgerView,
        Result<(), RejectReason>,
    ) {
        if !self.accounts.contains_key(cx) {
            (self, Err(RejectReason::UnknownAccount))
        } else if self.accounts[cx].locked {
            (self, Err(RejectReason::LockedAccount))
        } else if amount > self.accounts[cx].spec_available() {
            (self, Err(RejectReason::InsufficientAvailableFunds))
        } else {
            let account = self.accounts[cx];
            (
                LedgerView {
                    accounts: self.accounts.insert(
                        cx,
                        Account { total: (account.total - amount) as Amount, ..account },
                    ),
                    records: self.records,
                },
                Ok(()),
            )
        }
    }

    /// What a dispute does. It freezes the recorded amount of the named
    /// deposit and flags the record. It is rejected on an unknown id, on a
    /// client mismatch, on a record already disputed, and when the recorded
    /// amount exceeds the available balance (funds already spent cannot be
    /// disputed). The missing-account arm is unreachable in a well-formed
    /// ledger.
    pub open spec fn dispute_step(self, tx: TransactionID, cx: ClientID) -> (
        LedgerView,
        Result<(), RejectReason>,
    ) {
        if !self.records.contains_key(tx) {
            (self, Err(RejectReason::UnknownTransaction))
        } else if self.records[tx].client != cx {
            (self, Err(RejectReason::ClientMismatch))
        } else if self.records[tx].disputed {
            (self, Err(RejectReason::InvalidDisputeState))
        } else if !self.accounts.contains_key(cx) {
            (self, Err(RejectReason::UnknownAccount))
        } else if self.records[tx].amount > self.accounts[cx].spec_available() {
            (self, Err(RejectReason::InsufficientAvailableFunds))
        } else {
            let account = self.accounts[cx];
            let record = self.records[tx];
            (
                LedgerView {
                    accounts: self.accounts.insert(
                        cx,
                        Account { held: (account.held + record.amount) as Amount, ..account },
                    ),
                    records: self.records.insert(
                        tx,
                        TransactionRecord { disputed: true, ..record },
                    ),
                },
                Ok(()),
            )
        }
    }

    /// What a resolve does. It releases the recorded amount of a disputed
    /// deposit back to the available balance and consumes the record. It is
    /// rejected on an unknown id, on a client mismatch, on a record not
    /// currently disputed, and when the recorded amount exceeds the held
    /// balance. The missing-account arm is unreachable in a well-formed
    /// ledger.
    pub open spec fn resolve_step(self, tx: TransactionID, cx: ClientID) -> (
        LedgerView,
        Result<(), RejectReason>,
    ) {
        if !self.records.contains_key(tx) {
            (self, Err(RejectReason::UnknownTransaction))
        } else if self.records[tx].client != cx {
            (self, Err(RejectReason::ClientMismatch))
        } else if !self.records[tx].disputed {
            (self, Err(RejectReason::InvalidDisputeState))
        } else if !self.accounts.contains_key(cx) {
            (self, Err(RejectReason::UnknownAccount))
        } else if self.records[tx].amount > self.accounts[cx].held {
            (self, Err(RejectReason::InsufficientHeldFunds))
        } else {
            let account = self.accounts[cx];
            let record = self.records[tx];
            (
                LedgerView {
                    accounts: self.accounts.insert(
                        cx,
                        Account { held: (account.held - record.amount) as Amount, ..account },
                    ),
                    records: self.records.remove(tx),
                },
                Ok(()),
            )
        }
    }

    /// What a chargeback does. It permanently removes the recorded amount of
    /// a disputed deposit — both `held` and `total` drop — locks the account,
    /// and consumes the record. It is rejected exactly as a resolve is, and a
    /// rejected chargeback does not lock.
    pub open spec fn chargeback_step(self, tx: TransactionID, cx: ClientID) -> (
        LedgerView,
        Result<(), RejectReason>,
    ) {
        if !self.records.contains_key(tx) {
            (self, Err(RejectReason::UnknownTransaction))
        } else if self.records[tx].client != cx {
            (self, Err(RejectReason::ClientMismatch))
        } else if !self.records[tx].disputed {
            (self, Err(RejectReason::InvalidDisputeState))
        } else if !self.accounts.contains_key(cx) {
            (self, Err(RejectReason::UnknownAccount))
        } else if self.records[tx].amount > self.accounts[cx].held {
            (self, Err(RejectReason::InsufficientHeldFunds))
        } else {
            let account = self.accounts[cx];
            let record = self.records[tx];
            (
                LedgerView {
                    accounts: self.accounts.insert(
                        cx,
                        Account {
                            held: (account.held - record.amount) as Amount,
                            total: (account.total - record.amount) as Amount,
                            locked: true,
                        },
                    ),
                    records: self.records.remove(tx),
                },
                Ok(()),
            )
        }
    }

    /// The whole state machine: what one event does to the ledger, and with
    /// which outcome. `Any` is a probe value, not an event, and is never fed
    /// to the machine.
    pub open spec fn step(self, transaction: Transaction) -> (
        LedgerView,
        Result<(), RejectReason>,
    )
        recommends
            !(transaction is Any),
    {
        match transaction {
            Transaction::Deposit(tx, cx, amount) => self.deposit_step(tx, cx, amount),
            Transaction::Withdrawal(_, cx, amount) => self.withdrawal_step(cx, amount),
            Transaction::Dispute(tx, cx) => self.dispute_step(tx, cx),
            Transaction::Resolve(tx, cx) => self.resolve_step(tx, cx),
            Transaction::Chargeback(tx, cx) => self.chargeback_step(tx, cx),
            Transaction::Any(_) => (self, Err(RejectReason::UnknownTransaction)),
        }
    }
}

/// One entry of the account snapshot: a client id and a copy of the client's
/// account at the time of the read.
pub struct ClientAccount {
    pub client_id: ClientID,
    pub account: Account,
}

/// The ledger engine. It owns the accounts (keyed by client id) and the
/// deposit records (keyed by transaction id), takes one event at a time, and
/// either applies it or rejects it atomically.
pub struct TransactionEngine {
    accounts: HashMap<ClientID, Account>,
    clients: Vec<ClientID>,
    transactions: HashMap<TransactionID, TransactionRecord>,
}

impl View for TransactionEngine {
    type V = LedgerView;

    closed spec fn view(&self) -> LedgerView {
        LedgerView { accounts: self.accounts@, records: self.transactions@ }
    }
}

impl TransactionEngine {
    /// The client list mirrors the account map's keys, without duplicates, so
    /// that the snapshot can walk every account exactly once.
    spec fn clients_consistent(self) -> bool {
        &&& self.clients@.no_duplicates()
        &&& forall|i: int|
            0 <= i < self.clients@.len() ==> self.accounts@.contains_key(
                #[trigger] self.clients@[i],
            )
        &&& forall|cx: ClientID|
            #[trigger] self.accounts@.contains_key(cx) ==> self.clients@.contains(cx)
    }

    /// The engine's internal representation invariant.
    pub closed spec fn inv(self) -> bool {
        self.clients_consistent()
    }

    /// The engine invariant: the representation is consistent and the
    /// abstract ledger state is well-formed. Established by [`Self::new`] and
    /// preserved by every operation.
    pub open spec fn well_formed(self) -> bool {
        self.inv() && self@.well_formed()
    }

    /// An empty ledger: no accounts, no records.
    pub fn new() -> (engine: TransactionEngine)
        ensures
            engine.well_formed(),
            engine@.accounts == Map::<ClientID, Account>::empty(),
            engine@.records == Map::<TransactionID, TransactionRecord>::empty(),
    {
        TransactionEngine {
            accounts: HashMap::new(),
            clients: Vec::new(),
            transactions: HashMap::new(),
        }
    }

    /// A copy of the named client's account, if one exists.
    fn lookup_account(&self, cx: ClientID) -> (account: Option<Account>)
        ensures
            match account {
                Some(a) => self@.accounts.contains_key(cx) && a == self@.accounts[cx],
                None => !self@.accounts.contains_key(cx),
            },
    {
        match self.accounts.get(&cx) {
            Some(a) => Some(*a),
            None => None,
        }
    }

    /// A copy of the record the named transaction id points at, if any.
    fn lookup_record(&self, tx: TransactionID) -> (record: Option<TransactionRecord>)
        ensures
            match record {
                Some(r) => self@.records.contains_key(tx) && r == self@.records[tx],
                None => !self@.records.contains_key(tx),
            },
    {
        match self.transactions.get(&tx) {
            Some(r) => Some(*r),
            None => None,
        }
    }

    /// Store an account under its client id, registering the client on first
    /// appearance so the snapshot can find it.
    fn store_account(&mut self, cx: ClientID, account: Account)
        requires
            old(self).inv(),
        ensures
            final(self).inv(),
            final(self)@.accounts == old(self)@.accounts.insert(cx, account),
            final(self)@.records == old(self)@.records,
    {
        if !self.accounts.contains_key(&cx) {
            self.clients.push(cx);
            proof {
                assert forall|i: int| 0 <= i < self.clients@.len() - 1
                    implies self.clients@[i] != cx by {
                    assert(old(self).accounts@.contains_key(self.clients@[i]));
                }
                assert(self.clients@.drop_last() == old(self).clients@);
            }
        }
        self.accounts.insert(cx, account);
        proof {
            assert forall|c: ClientID| #[trigger] self.accounts@.contains_key(c)
                implies self.clients@.contains(c) by {
                if c != cx {
                    assert(old(self).accounts@.contains_key(c));
                    let i = choose|i: int|
                        0 <= i < old(self).clients@.len() && old(self).clients@[i] == c;
                    assert(self.clients@[i] == c);
                } else if old(self).accounts@.contains_key(cx) {
                    assert(old(self).clients@.contains(cx));
                } else {
                    assert(self.clients@[self.clients@.len() - 1] == cx);
                }
            }
        }
    }

    /// Apply a deposit: get or create the account, credit it unless locked,
    /// and record the transaction on success.
    fn process_deposit(&mut self, tx: TransactionID, cx: ClientID, amount: Amount) -> (result:
        Result<(), RejectReason>)
        requires
            old(self).well_formed(),
        ensures
            final(self).well_formed(),
            final(self)@ == old(self)@.deposit_step(tx, cx, amount).0,
            result == old(self)@.deposit_step(tx, cx, amount).1,
    {
        match self.lookup_account(cx) {
            Some(account) => {
                let mut account = account;
                if account.deposit(amount) {
                    self.store_account(cx, account);
                    self.transactions.insert(
                        tx,
                        TransactionRecord { client: cx, amount, disputed: false },
                    );
                    Ok(())
                } else {
                    Err(RejectReason::LockedAccount)
                }
            },
            None => {
                self.store_account(cx, Account::new(amount));
                self.transactions.insert(
                    tx,
                    TransactionRecord { client: cx, amount, disputed: false },
                );
                Ok(())
            },
        }
    }

    /// Apply a withdrawal: debit the named account if it exists, is not
    /// locked, and has enough available funds. A withdrawal never creates an
    /// account and is never recorded.
    fn process_withdrawal(&mut self, cx: ClientID, amount: Amount) -> (result: Result<
        (),
        RejectReason,
    >)
        requires
            old(self).well_formed(),
        ensures
            final(self).well_formed(),
            final(self)@ == old(self)@.withdrawal_step(cx, amount).0,
            result == old(self)@.withdrawal_step(cx, amount).1,
    {
        match self.lookup_account(cx) {
            Some(account) => {
                let mut account = account;
                if account.is_locked() {
                    Err(RejectReason::LockedAccount)
                } else if account.withdraw(amount) {
                    self.store_account(cx, account);
                    Ok(())
                } else {
                    Err(RejectReason::InsufficientAvailableFunds)
                }
            },
            None => Err(RejectReason::UnknownAccount),
        }
    }

    /// Apply a dispute: freeze the recorded amount of the named deposit on
    /// the owning client's account and flag the record. Validation order:
    /// record exists, client owns it, record not already disputed, enough
    /// available funds to hold.
    fn process_dispute(&mut self, tx: TransactionID, cx: ClientID) -> (result: Result<
        (),
        RejectReason,
    >)
        requires
            old(self).well_formed(),
        ensures
            final(self).well_formed(),
            final(self)@ == old(self)@.dispute_step(tx, cx).0,
            result == old(self)@.dispute_step(tx, cx).1,
    {
        match self.lookup_record(tx) {
            None => Err(RejectReason::UnknownTransaction),
            Some(record) => {
                if record.client != cx {
                    Err(RejectReason::ClientMismatch)
                } else if record.disputed {
                    Err(RejectReason::InvalidDisputeState)
                } else {
                    match self.lookup_account(cx) {
                        None => Err(RejectReason::UnknownAccount),
                        Some(account) => {
                            let mut account = account;
                            if account.dispute(record.amount) {
                                self.store_account(cx, account);
                                self.transactions.insert(
                                    tx,
                                    TransactionRecord { disputed: true, ..record },
                                );
                                Ok(())
                            } else {
                                Err(RejectReason::InsufficientAvailableFunds)
                            }
                        },
                    }
                }
            },
        }
    }

    /// The shared skeleton of resolve and chargeback: both settle a disputed
    /// record against its account's held funds and consume the record,
    /// differing only in the final effect (release, or permanently deduct and
    /// lock), selected by the strategy flag.
    fn process_resolve_or_chargeback(
        &mut self,
        tx: TransactionID,
        cx: ClientID,
        chargeback: bool,
    ) -> (result: Result<(), RejectReason>)
        requires
            old(self).well_formed(),
        ensures
            final(self).well_formed(),
            chargeback ==> final(self)@ == old(self)@.chargeback_step(tx, cx).0 && result == old(
                self,
            )@.chargeback_step(tx, cx).1,
            !chargeback ==> final(self)@ == old(self)@.resolve_step(tx, cx).0 && result == old(
                self,
            )@.resolve_step(tx, cx).1,
    {
        match self.lookup_record(tx) {
            None => Err(RejectReason::UnknownTransaction),
            Some(record) => {
                if record.client != cx {
                    Err(RejectReason::ClientMismatch)
                } else if !record.disputed {
                    Err(RejectReason::InvalidDisputeState)
                } else {
                    match self.lookup_account(cx) {
                        None => Err(RejectReason::UnknownAccount),
                        Some(account) => {
                            let mut account = account;
                            let ok = if chargeback {
                                account.chargeback(record.amount)
                            } else {
                                account.resolve(record.amount)
                            };
                            if ok {
                                self.store_account(cx, account);
                                self.transactions.remove(&tx);
                                Ok(())
                            } else {
                                Err(RejectReason::InsufficientHeldFunds)
                            }
                        },
                    }
                }
            },
        }
    }

    /// Apply a resolve: release the disputed funds back to available.
    fn process_resolve(&mut self, tx: TransactionID, cx: ClientID) -> (result: Result<
        (),
        RejectReason,
    >)
        requires
            old(self).well_formed(),
        ensures
            final(self).well_formed(),
            final(self)@ == old(self)@.resolve_step(tx, cx).0,
            result == old(self)@.resolve_step(tx, cx).1,
    {
        self.process_resolve_or_chargeback(tx, cx, false)
    }

    /// Apply a chargeback: permanently remove the disputed funds and lock the
    /// account.
    fn process_chargeback(&mut self, tx: TransactionID, cx: ClientID) -> (result: Result<
        (),
        RejectReason,
    >)
        requires
            old(self).well_formed(),
        ensures
            final(self).well_formed(),
            final(self)@ == old(self)@.chargeback_step(tx, cx).0,
            result == old(self)@.chargeback_step(tx, cx).1,
    {
        self.process_resolve_or_chargeback(tx, cx, true)
    }

    /// Feed one event to the ledger. The event is applied or rejected
    /// atomically, exactly as [`LedgerView::step`] says; a rejection is
    /// reported to the caller and never aborts anything.
    pub fn process_transaction(&mut self, transaction: Transaction) -> (result: Result<
        (),
        RejectReason,
    >)
        requires
            old(self).well_formed(),
            !(transaction is Any),
        ensures
            final(self).well_formed(),
            final(self)@ == old(self)@.step(transaction).0,
            result == old(self)@.step(transaction).1,
    {
        match transaction {
            Transaction::Deposit(tx, cx, amount) => self.process_deposit(tx, cx, amount),
            Transaction::Withdrawal(_, cx, amount) => self.process_withdrawal(cx, amount),
            Transaction::Dispute(tx, cx) => self.process_dispute(tx, cx),
            Transaction::Resolve(tx, cx) => self.process_resolve(tx, cx),
            Transaction::Chargeback(tx, cx) => self.process_chargeback(tx, cx),
            Transaction::Any(_) => Err(RejectReason::UnknownTransaction),
        }
    }

    /// A snapshot of every known account, each client exactly once, paired
    /// with its client id. The order is not part of the contract; callers
    /// that need one must sort.
    pub fn get_accounts(&self) -> (accounts: Vec<ClientAccount>)
        requires
            self.well_formed(),
        ensures
            forall|i: int|
                0 <= i < accounts@.len() ==> {
                    &&& self@.accounts.contains_key(#[trigger] accounts@[i].client_id)
                    &&& accounts@[i].account == self@.accounts[accounts@[i].client_id]
                },
            forall|cx: ClientID|
                #[trigger] self@.accounts.contains_key(cx) ==> exists|i: int|
                    0 <= i < accounts@.len() && accounts@[i].client_id == cx,
            forall|i: int, j: int|
                0 <= i < j < accounts@.len() ==> accounts@[i].client_id != accounts@[j].client_id,
    {
        let mut accounts: Vec<ClientAccount> = Vec::new();
        let mut idx: usize = 0;
        while idx < self.clients.len()
            invariant
                self.well_formed(),
                idx <= self.clients@.len(),
                accounts@.len() == idx,
                forall|i: int|
                    0 <= i < idx ==> #[trigger] accounts@[i].client_id == self.clients@[i],
                forall|i: int|
                    0 <= i < idx ==> accounts@[i].account == self@.accounts[self.clients@[i]],
            decreases self.clients@.len() - idx,
        {
            let cx = self.clients[idx];
            match self.accounts.get(&cx) {
                Some(account) => {
                    accounts.push(ClientAccount { client_id: cx, account: *account });
                },
                None => {
                    // Unreachable: the client list only holds known accounts.
                    proof {
                        assert(self.accounts@.contains_key(cx));
                        assert(false);
                    }
                },
            }
            idx += 1;
        }
        proof {
            assert forall|cx: ClientID| #[trigger] self@.accounts.contains_key(cx)
                implies exists|i: int|
                    0 <= i < accounts@.len() && accounts@[i].client_id == cx by {
                assert(self.clients@.contains(cx));
                let i = choose|i: int| 0 <= i < self.clients@.len() && self.clients@[i] == cx;
                assert(accounts@[i].client_id == cx);
            }
        }
        accounts
    }
}

/// In a well-formed ledger every account keeps its held funds within its
/// funds on the books; amounts are unsigned, so `0 <= held <= total` holds at
/// all times.
pub proof fn lemma_held_within_total(v: LedgerView, cx: ClientID)
    requires
        v.well_formed(),
        v.accounts.contains_key(cx),
    ensures
        v.accounts[cx].held <= v.accounts[cx].total,
{
}

/// Once an account is locked, no deposit or withdrawal — whichever client the
/// event names — changes that account; in particular its total stays
/// constant. An event aimed at the locked account itself is rejected, and one
/// aimed elsewhere cannot touch it.
pub proof fn lemma_locked_account_constant(v: LedgerView, t: Transaction, cx: ClientID)
    requires
        t is Deposit || t is Withdrawal,
        v.accounts.contains_key(cx),
        v.accounts[cx].locked,
    ensures
        v.step(t).0.accounts.contains_key(cx),
        v.step(t).0.accounts[cx] == v.accounts[cx],
{
}

/// Accounts are never deleted, and the lock is a one-way latch: whatever
/// event comes next, an existing account still exists afterwards, and a
/// locked account is still locked.
pub proof fn lemma_lock_is_permanent(v: LedgerView, t: Transaction, cx: ClientID)
    requires
        v.accounts.contains_key(cx),
    ensures
        v.step(t).0.accounts.contains_key(cx),
        v.accounts[cx].locked ==> v.step(t).0.accounts[cx].locked,
{
}

/// Disputing the same transaction id twice in a row holds the amount only
/// once: the second identical dispute leaves the ledger exactly where the
/// first left it, and is rejected whenever the first one succeeded.
pub proof fn lemma_dispute_idempotent(v: LedgerView, tx: TransactionID, cx: ClientID)
    ensures
        v.dispute_step(tx, cx).0.dispute_step(tx, cx).0 == v.dispute_step(tx, cx).0,
        v.dispute_step(tx, cx).1 is Ok ==> v.dispute_step(tx, cx).0.dispute_step(tx, cx).1 == Err::<
            (),
            RejectReason,
        >(RejectReason::InvalidDisputeState),
{
}

/// Resolving a freshly disputed deposit undoes the dispute: the resolve is
/// owed to succeed, every account ends exactly as it was before the dispute,
/// and only the consumed record is gone.
pub proof fn lemma_dispute_resolve_round_trip(v: LedgerView, tx: TransactionID, cx: ClientID)
    requires
        v.well_formed(),
        v.dispute_step(tx, cx).1 is Ok,
    ensures
        v.dispute_step(tx, cx).0.resolve_step(tx, cx).1 is Ok,
        v.dispute_step(tx, cx).0.resolve_step(tx, cx).0.accounts == v.accounts,
        v.dispute_step(tx, cx).0.resolve_step(tx, cx).0.records == v.records.remove(tx),
{
    let v1 = v.dispute_step(tx, cx).0;
    let v2 = v1.resolve_step(tx, cx).0;
    assert(v2.accounts =~= v.accounts);
    assert(v2.records =~= v.records.remove(tx));
}

} // verus!
