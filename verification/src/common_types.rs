//! Shared identifiers, the fixed-point money type, and the event type fed to
//! the ledger.

use vstd::prelude::*;

verus! {

/// Identifier of a deposit or withdrawal event; assumed globally unique over
/// a correct input stream.
pub type TransactionID = u32;

/// Identifier of a client, and so of the client's account.
pub type ClientID = u16;

/// A non-negative fixed-point quantity of money: an integer count of
/// 1/10000ths of a unit. All arithmetic on it is checked or saturating,
/// never silently wrapping.
pub type Amount = u64;

/// One event fed to the ledger engine. Deposits and withdrawals carry the
/// amount they move; disputes, resolves and chargebacks name a prior deposit
/// by its transaction id instead.
///
/// Events compare equal, and hash, by transaction id alone. The `Any`
/// variant carries only an id: it is a probe value for such comparisons, not
/// a processable event, and it names no client.
#[derive(Debug, Eq, Clone, Copy)]
pub enum Transaction {
    Deposit(TransactionID, ClientID, Amount),
    Withdrawal(TransactionID, ClientID, Amount),
    Dispute(TransactionID, ClientID),
    Resolve(TransactionID, ClientID),
    Chargeback(TransactionID, ClientID),
    Any(TransactionID),
}

impl Transaction {
    /// The amount the event moves: present for deposits and withdrawals only.
    pub open spec fn spec_amount(self) -> Option<Amount> {
        match self {
            Transaction::Deposit(_, _, amount) => Some(amount),
            Transaction::Withdrawal(_, _, amount) => Some(amount),
            _ => None,
        }
    }

    /// The transaction id the event carries or names.
    pub open spec fn spec_transaction_id(self) -> TransactionID {
        match self {
            Transaction::Deposit(tx, _, _) => tx,
            Transaction::Withdrawal(tx, _, _) => tx,
            Transaction::Dispute(tx, _) => tx,
            Transaction::Resolve(tx, _) => tx,
            Transaction::Chargeback(tx, _) => tx,
            Transaction::Any(tx) => tx,
        }
    }

    /// The client the event names; meaningless for `Any`, which names none.
    pub open spec fn spec_client_id(self) -> ClientID
        recommends
            !(self is Any),
    {
        match self {
            Transaction::Deposit(_, cx, _) => cx,
            Transaction::Withdrawal(_, cx, _) => cx,
            Transaction::Dispute(_, cx) => cx,
            Transaction::Resolve(_, cx) => cx,
            Transaction::Chargeback(_, cx) => cx,
            Transaction::Any(_) => arbitrary(),
        }
    }

    /// The amount the event moves, for deposits and withdrawals; `None` for
    /// the reference kinds, which take their amount from the ledger's record.
    pub fn get_amount(&self) -> (amount: Option<Amount>)
        ensures
            amount == self.spec_amount(),
    {
        match *self {
            Transaction::Deposit(_, _, amount) => Some(amount),
            Transaction::Withdrawal(_, _, amount) => Some(amount),
            Transaction::Dispute(_, _) => None,
            Transaction::Resolve(_, _) => None,
            Transaction::Chargeback(_, _) => None,
            Transaction::Any(_) => None,
        }
    }

    /// The transaction id the event carries or names.
    pub fn get_transaction_id(&self) -> (tx: TransactionID)
        ensures
            tx == self.spec_transaction_id(),
    {
        match *self {
            Transaction::Deposit(tx, _, _) => tx,
            Transaction::Withdrawal(tx, _, _) => tx,
            Transaction::Dispute(tx, _) => tx,
            Transaction::Resolve(tx, _) => tx,
            Transaction::Chargeback(tx, _) => tx,
            Transaction::Any(tx) => tx,
        }
    }

    /// The client the event names. `Any` names no client, so it is excluded.
    pub fn get_client_id(&self) -> (cx: ClientID)
        requires
            !(self is Any),
        ensures
            cx == self.spec_client_id(),
    {
        match *self {
            Transaction::Deposit(_, cx, _) => cx,
            Transaction::Withdrawal(_, cx, _) => cx,
            Transaction::Dispute(_, cx) => cx,
            Transaction::Resolve(_, cx) => cx,
            Transaction::Chargeback(_, cx) => cx,
            Transaction::Any(_) => 0,
        }
    }
}

/// Which event, if any, an input row denotes: the five kind names map to
/// their variants, a deposit or withdrawal without an amount denotes nothing,
/// and an unknown kind denotes nothing.
pub open spec fn spec_event_of_row(
    kind: Seq<char>,
    tx: TransactionID,
    cx: ClientID,
    amount: Option<Amount>,
) -> Option<Transaction> {
    if kind == "deposit"@ {
        match amount {
            Some(a) => Some(Transaction::Deposit(tx, cx, a)),
            None => None,
        }
    } else if kind == "withdrawal"@ {
        match amount {
            Some(a) => Some(Transaction::Withdrawal(tx, cx, a)),
            None => None,
        }
    } else if kind == "dispute"@ {
        Some(Transaction::Dispute(tx, cx))
    } else if kind == "resolve"@ {
        Some(Transaction::Resolve(tx, cx))
    } else if kind == "chargeback"@ {
        Some(Transaction::Chargeback(tx, cx))
    } else {
        None
    }
}

impl Transaction {
    /// Turn one already-read input row — its kind name, ids, and fixed-point
    /// amount, if any — into the event it denotes. Rows of unknown kind, and
    /// deposits or withdrawals missing their amount, denote no event and are
    /// to be discarded by the caller.
    pub fn event_of_row(
        kind: &String,
        tx: TransactionID,
        cx: ClientID,
        amount: Option<Amount>,
    ) -> (event: Option<Transaction>)
        ensures
            event == spec_event_of_row(kind@, tx, cx, amount),
    {
        if *kind == "deposit".to_owned() {
            match amount {
                Some(a) => Some(Transaction::Deposit(tx, cx, a)),
                None => None,
            }
        } else if *kind == "withdrawal".to_owned() {
            match amount {
                Some(a) => Some(Transaction::Withdrawal(tx, cx, a)),
                None => None,
            }
        } else if *kind == "dispute".to_owned() {
            Some(Transaction::Dispute(tx, cx))
        } else if *kind == "resolve".to_owned() {
            Some(Transaction::Resolve(tx, cx))
        } else if *kind == "chargeback".to_owned() {
            Some(Transaction::Chargeback(tx, cx))
        } else {
            None
        }
    }
}

/// Events are equal exactly when their transaction ids are equal, whatever
/// their kind, client or amount: the id is the event's identity.
impl PartialEq for Transaction {
    fn eq(&self, other: &Self) -> (r: bool) {
        self.get_transaction_id() == other.get_transaction_id()
    }
}

impl vstd::std_specs::cmp::PartialEqSpecImpl for Transaction {
    open spec fn obeys_eq_spec() -> bool {
        true
    }

    open spec fn eq_spec(&self, other: &Self) -> bool {
        self.spec_transaction_id() == other.spec_transaction_id()
    }
}

impl core::hash::Hash for Transaction {
    /// Relies on `u32::hash`: events hash by their transaction id alone, in
    /// step with the equality above.
    #[verifier::external_body]
    fn hash<H: core::hash::Hasher>(&self, state: &mut H) {
        self.get_transaction_id().hash(state)
    }
}

} // verus!
