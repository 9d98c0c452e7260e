use vstd::prelude::*;

pub mod db;
pub mod kind;
pub mod statements;
pub mod transactions;

pub use kind::TransactionKind;

verus! {

/// Errors of the account ledger.
#[derive(Debug, Clone, Copy, PartialEq, Eq, Structural)]
pub enum ClientError {
    /// The balance would fall below the negated overdraft limit.
    OverLimit,
    /// The committed transaction could not be read back from the history.
    TransactionUnref,
    /// An account was opened with a balance below the negated overdraft limit.
    InvalidInitialBalance,
}

/// The signed effect of a transaction of `kind` and `value` on a balance.
pub open spec fn signed_amount(kind: TransactionKind, value: nat) -> int {
    match kind {
        TransactionKind::Credit => value as int,
        TransactionKind::Debit => -(value as int),
    }
}

/// The overdraft rule: a balance may go negative by at most `limit`.
pub open spec fn within_limit(balance: int, limit: nat) -> bool {
    balance >= -(limit as int)
}

/// A transaction as plain values.
pub struct TransactionModel {
    pub value: nat,
    pub kind: TransactionKind,
    pub description: Seq<char>,
    /// Microseconds since the Unix epoch, set when the transaction is committed.
    pub timestamp: Option<i64>,
}

impl TransactionModel {
    /// The same transaction, committed at `timestamp`.
    pub open spec fn stamped(self, timestamp: i64) -> TransactionModel {
        TransactionModel { timestamp: Some(timestamp), ..self }
    }
}

/// One credit or debit, created from a request and committed to an account's history.
#[derive(Debug)]
pub struct Transaction {
    pub(crate) value: usize,
    pub(crate) kind: TransactionKind,
    pub(crate) description: String,
    pub(crate) timestamp: Option<i64>,
}

impl View for Transaction {
    type V = TransactionModel;

    open(crate) spec fn view(&self) -> TransactionModel {
        TransactionModel {
            value: self.value as nat,
            kind: self.kind,
            description: self.description@,
            timestamp: self.timestamp,
        }
    }
}

impl Transaction {
    /// A transaction that has not been committed yet.
    pub fn new(value: usize, kind: TransactionKind, description: String) -> (r: Self)
        ensures
            r@ == (TransactionModel {
                value: value as nat,
                kind,
                description: description@,
                timestamp: None,
            }),
    {
        Self { value, kind, description, timestamp: None }
    }

    pub fn value(&self) -> (r: usize)
        ensures
            r == self@.value,
    {
        self.value
    }

    pub fn kind(&self) -> (r: TransactionKind)
        ensures
            r == self@.kind,
    {
        self.kind
    }

    pub fn description(&self) -> (r: &String)
        ensures
            r@ == self@.description,
    {
        &self.description
    }

    pub fn timestamp(&self) -> (r: Option<i64>)
        ensures
            r == self@.timestamp,
    {
        self.timestamp
    }
}

/// An account as plain values: identifier, overdraft limit, balance and history,
/// oldest transaction first.
pub struct ClientModel {
    pub id: nat,
    pub limit: nat,
    pub balance: int,
    pub history: Seq<TransactionModel>,
}

impl ClientModel {
    /// Whether the overdraft rule holds.
    pub open spec fn valid(self) -> bool {
        within_limit(self.balance, self.limit)
    }

    /// Whether a transaction of `kind` and `value` may be committed: a credit always
    /// may, a debit only where the balance stays within the limit.
    pub open spec fn accepts(self, kind: TransactionKind, value: nat) -> bool {
        match kind {
            TransactionKind::Credit => true,
            TransactionKind::Debit => within_limit(self.balance - value, self.limit),
        }
    }

    /// The account after committing `t`: its amount moves the balance and it is
    /// appended to the history.
    pub open spec fn after(self, t: TransactionModel) -> ClientModel {
        ClientModel {
            balance: self.balance + signed_amount(t.kind, t.value),
            history: self.history.push(t),
            ..self
        }
    }

    /// Whether every transaction of the history carries its commit time.
    pub open spec fn stamped(self) -> bool {
        forall|i: int| 0 <= i < self.history.len() ==> (#[trigger] self.history[i]).timestamp is Some
    }
}

/// An account: its limit and balance, and the transactions committed to it.
#[derive(Debug)]
pub struct Client {
    pub(crate) id: usize,
    pub(crate) limit: usize,
    pub(crate) balance: isize,
    pub(crate) transactions: Vec<Transaction>,
}

impl View for Client {
    type V = ClientModel;

    open(crate) spec fn view(&self) -> ClientModel {
        ClientModel {
            id: self.id as nat,
            limit: self.limit as nat,
            balance: self.balance as int,
            history: self.transactions@.map_values(|t: Transaction| t@),
        }
    }
}

/// Checks the overdraft rule for `balance` under `limit`.
pub fn is_valid_balance(balance: isize, limit: usize) -> (r: Result<(), ClientError>)
    ensures
        r is Ok <==> within_limit(balance as int, limit as nat),
        r is Err ==> r == Err::<(), ClientError>(ClientError::OverLimit),
{
    if limit as u128 > isize::MAX as u128 {
        // `-limit` lies below every `isize`.
        return Ok(());
    }
    if balance < -(limit as isize) {
        return Err(ClientError::OverLimit);
    }
    Ok(())
}

impl Client {
    /// Opens an account with an empty history.
    pub fn new(id: usize, limit: usize, balance: isize) -> (r: Result<Self, ClientError>)
        ensures
            r is Ok <==> within_limit(balance as int, limit as nat),
            r matches Ok(c) ==> c@ == (ClientModel {
                id: id as nat,
                limit: limit as nat,
                balance: balance as int,
                history: Seq::empty(),
            }),
            r matches Err(e) ==> e == ClientError::InvalidInitialBalance,
    {
        if is_valid_balance(balance, limit).is_err() {
            return Err(ClientError::InvalidInitialBalance);
        }
        let c = Self { id, limit, balance, transactions: Vec::new() };
        assert(c@.history =~= Seq::empty());
        Ok(c)
    }

    pub fn id(&self) -> (r: usize)
        ensures
            r == self@.id,
    {
        self.id
    }

    pub fn limit(&self) -> (r: usize)
        ensures
            r == self@.limit,
    {
        self.limit
    }

    pub fn balance(&self) -> (r: isize)
        ensures
            r == self@.balance,
    {
        self.balance
    }

    /// The history, oldest transaction first.
    pub fn transactions(&self) -> (r: &Vec<Transaction>)
        ensures
            r@.map_values(|t: Transaction| t@) == self@.history,
    {
        &self.transactions
    }

    /// Commits `transaction` with the commit time `timestamp`. A credit is always
    /// committed; a debit only where the balance stays within the limit, else the
    /// account is left as it was and `OverLimit` comes back. A committed
    /// transaction moves the balance by its amount and is appended to the history.
    pub fn execute_transaction(&mut self, transaction: Transaction, timestamp: i64) -> (r:
        Result<&Transaction, ClientError>)
        requires
            old(self)@.accepts(transaction@.kind, transaction@.value) ==> isize::MIN <= old(
                self,
            )@.balance + signed_amount(transaction@.kind, transaction@.value) <= isize::MAX,
        ensures
            r is Ok <==> old(self)@.accepts(transaction@.kind, transaction@.value),
            r matches Ok(t) ==> t@ == transaction@.stamped(timestamp) && final(self)@ == old(
                self,
            )@.after(t@),
            r matches Err(e) ==> e == ClientError::OverLimit && final(self)@ == old(self)@,
            old(self)@.valid() ==> final(self)@.valid(),
            old(self)@.stamped() ==> final(self)@.stamped(),
            final(self)@.history.len() == old(self)@.history.len() + if r is Ok {
                1int
            } else {
                0int
            },
    {
        let mut transaction = transaction;
        match transaction.kind {
            TransactionKind::Credit => self.credit(transaction.value),
            TransactionKind::Debit => {
                if let Err(e) = self.debit(transaction.value) {
                    return Err(e);
                }
            },
        }
        transaction.timestamp = Some(timestamp);
        let ghost before = self.transactions@;
        self.transactions.push(transaction);
        assert(self.transactions@.map_values(|t: Transaction| t@) =~= before.map_values(
            |t: Transaction| t@,
        ).push(transaction@));
        let n = self.transactions.len();
        Ok(&self.transactions[n - 1])
    }

    /// Takes `value` from the balance where the overdraft rule allows it.
    pub fn debit(&mut self, value: usize) -> (r: Result<(), ClientError>)
        requires
            within_limit(old(self)@.balance - value, old(self)@.limit) ==> isize::MIN <= old(
                self,
            )@.balance - value,
        ensures
            r is Ok <==> within_limit(old(self)@.balance - value, old(self)@.limit),
            r is Ok ==> final(self)@ == (ClientModel {
                balance: old(self)@.balance - value,
                ..old(self)@
            }),
            r matches Err(e) ==> e == ClientError::OverLimit && final(self)@ == old(self)@,
    {
        let candidate: i128 = self.balance as i128 - value as i128;
        if candidate < -(self.limit as i128) {
            return Err(ClientError::OverLimit);
        }
        self.balance = candidate as isize;
        Ok(())
    }

    /// Adds `value` to the balance.
    pub fn credit(&mut self, value: usize)
        requires
            old(self)@.balance + value <= isize::MAX,
        ensures
            final(self)@ == (ClientModel { balance: old(self)@.balance + value, ..old(self)@ }),
    {
        self.balance = (self.balance as i128 + value as i128) as isize;
    }
}

/// The account after the transactions of `order` are committed one at a time, in
/// that order; a transaction the ledger refuses leaves the account as it was.
pub open spec fn replay(c: ClientModel, order: Seq<TransactionModel>) -> ClientModel
    decreases order.len(),
{
    if order.len() == 0 {
        c
    } else {
        let prev = replay(c, order.drop_last());
        let t = order.last();
        if prev.accepts(t.kind, t.value) {
            prev.after(t)
        } else {
            prev
        }
    }
}

/// The transactions of `order` that the ledger commits when they are submitted one
/// at a time, in that order.
pub open spec fn committed(c: ClientModel, order: Seq<TransactionModel>) -> Seq<TransactionModel>
    decreases order.len(),
{
    if order.len() == 0 {
        Seq::empty()
    } else {
        let prev = replay(c, order.drop_last());
        let t = order.last();
        let rest = committed(c, order.drop_last());
        if prev.accepts(t.kind, t.value) {
            rest.push(t)
        } else {
            rest
        }
    }
}

/// The sum of the signed amounts of `ts`.
pub open spec fn net(ts: Seq<TransactionModel>) -> int
    decreases ts.len(),
{
    if ts.len() == 0 {
        0
    } else {
        net(ts.drop_last()) + signed_amount(ts.last().kind, ts.last().value)
    }
}

/// Submitting one more transaction extends a replay by exactly the step that
/// `Client::execute_transaction` takes: the account after it where the ledger
/// accepts it, else the account unchanged.
pub proof fn lemma_replay_step(c: ClientModel, order: Seq<TransactionModel>, t: TransactionModel)
    ensures
        replay(c, order.push(t)) == if replay(c, order).accepts(t.kind, t.value) {
            replay(c, order).after(t)
        } else {
            replay(c, order)
        },
{
    assert(order.push(t).drop_last() =~= order);
}

/// No lost updates: however many transactions are submitted to one account, one at
/// a time, the final balance is the starting balance plus the amounts of exactly
/// the transactions that were committed, the history gains exactly those, in commit
/// order, the overdraft rule still holds, and the id and limit do not change.
pub proof fn lemma_no_lost_updates(c: ClientModel, order: Seq<TransactionModel>)
    ensures
        replay(c, order).balance == c.balance + net(committed(c, order)),
        replay(c, order).history == c.history + committed(c, order),
        replay(c, order).id == c.id,
        replay(c, order).limit == c.limit,
        c.valid() ==> replay(c, order).valid(),
    decreases order.len(),
{
    if order.len() > 0 {
        let rest = order.drop_last();
        lemma_no_lost_updates(c, rest);
        let prev = replay(c, rest);
        let t = order.last();
        let done = committed(c, rest);
        if prev.accepts(t.kind, t.value) {
            assert(done.push(t).drop_last() =~= done);
            assert(c.history + done.push(t) =~= (c.history + done).push(t));
        }
    }
}

/// The debit rule: a debit of `value` is accepted exactly when the balance minus
/// `value` stays at or above the negated limit; committing it lowers the balance
/// by `value` and appends it to the history, and a refused debit changes nothing.
pub proof fn lemma_debit_rule(c: ClientModel, t: TransactionModel)
    requires
        t.kind == TransactionKind::Debit,
    ensures
        c.accepts(t.kind, t.value) <==> c.balance - t.value >= -(c.limit as int),
        c.after(t).balance == c.balance - t.value,
        c.after(t).history.len() == c.history.len() + 1,
        c.after(t).limit == c.limit,
{
}

/// The credit rule: a credit is always accepted, and committing it raises the
/// balance by its value and appends it to the history.
pub proof fn lemma_credit_rule(c: ClientModel, t: TransactionModel)
    requires
        t.kind == TransactionKind::Credit,
    ensures
        c.accepts(t.kind, t.value),
        c.after(t).balance == c.balance + t.value,
        c.after(t).history.len() == c.history.len() + 1,
        c.after(t).limit == c.limit,
{
}

} // verus!
