use vstd::prelude::*;

use crate::clients::{Client, Transaction, TransactionKind, TransactionModel};

verus! {

/// How many of the newest transactions a statement lists.
pub const STATEMENT_SIZE: usize = 5;

/// A committed transaction as a statement lists it; `timestamp` is its commit time
/// in microseconds since the Unix epoch.
#[derive(Debug)]
pub struct TransactionResult {
    pub value: usize,
    pub kind: TransactionKind,
    pub description: String,
    pub timestamp: i64,
}

impl View for TransactionResult {
    type V = TransactionModel;

    open spec fn view(&self) -> TransactionModel {
        TransactionModel {
            value: self.value as nat,
            kind: self.kind,
            description: self.description@,
            timestamp: Some(self.timestamp),
        }
    }
}

/// The balance part of a statement; `timestamp` is when the statement was made.
#[derive(Debug, Clone, Copy, PartialEq, Eq, Structural)]
pub struct StatementBalanceResult {
    pub total: isize,
    pub limit: usize,
    pub timestamp: i64,
}

/// An account statement: the balance and the newest transactions, newest first.
#[derive(Debug)]
pub struct StatementResult {
    pub balance: StatementBalanceResult,
    pub last_transactions: Vec<TransactionResult>,
}

/// How many transactions a statement of a history of `len` transactions lists.
pub open spec fn statement_len(len: nat) -> nat {
    if len < STATEMENT_SIZE {
        len
    } else {
        STATEMENT_SIZE as nat
    }
}

/// The transactions that a statement lists: the newest first, at most
/// `STATEMENT_SIZE` of them.
pub open spec fn latest(history: Seq<TransactionModel>) -> Seq<TransactionModel> {
    Seq::new(statement_len(history.len()), |i: int| history[history.len() - 1 - i])
}

/// A statement lists a prefix of the reversed history, of length
/// `min(STATEMENT_SIZE, history length)`.
pub proof fn lemma_latest_is_reversed_prefix(history: Seq<TransactionModel>)
    ensures
        latest(history).len() == statement_len(history.len()),
        latest(history) == history.reverse().take(statement_len(history.len()) as int),
{
    if history.len() > 0 {
        assert(latest(history) =~= history.reverse().take(statement_len(history.len()) as int));
    } else {
        assert(latest(history) =~= Seq::empty());
    }
}

fn transaction_result(t: &Transaction) -> (r: TransactionResult)
    requires
        t@.timestamp is Some,
    ensures
        r@ == t@,
{
    TransactionResult {
        value: t.value(),
        kind: t.kind(),
        description: t.description().clone(),
        timestamp: t.timestamp().unwrap(),
    }
}

impl StatementResult {
    /// The statement of `client`, made at `timestamp`.
    pub fn of_client(client: &Client, timestamp: i64) -> (r: StatementResult)
        requires
            client@.stamped(),
        ensures
            r.balance == (StatementBalanceResult {
                total: client@.balance as isize,
                limit: client@.limit as usize,
                timestamp,
            }),
            r.last_transactions@.map_values(|t: TransactionResult| t@) == latest(client@.history),
    {
        let txs = client.transactions();
        let ghost h = client@.history;
        let len = txs.len();
        let n: usize = if len < STATEMENT_SIZE {
            len
        } else {
            STATEMENT_SIZE
        };
        let ghost want = latest(h);
        let mut last: Vec<TransactionResult> = Vec::new();
        let mut i: usize = 0;
        while i < n
            invariant
                n <= len,
                len == txs@.len(),
                h == txs@.map_values(|t: Transaction| t@),
                h == client@.history,
                client@.stamped(),
                want.len() == n,
                forall|k: int| 0 <= k < n ==> #[trigger] want[k] == h[len - 1 - k],
                i <= n,
                last@.map_values(|t: TransactionResult| t@) == want.take(i as int),
            decreases n - i,
        {
            let j = len - 1 - i;
            assert(h[j as int] == txs@[j as int]@);
            let t = transaction_result(&txs[j]);
            let ghost before = last@;
            last.push(t);
            assert(last@.map_values(|t: TransactionResult| t@) =~= before.map_values(
                |t: TransactionResult| t@,
            ).push(t@));
            assert(want.take(i + 1) =~= want.take(i as int).push(want[i as int]));
            i = i + 1;
        }
        assert(want.take(n as int) =~= want);
        StatementResult {
            balance: StatementBalanceResult {
                total: client.balance(),
                limit: client.limit(),
                timestamp,
            },
            last_transactions: last,
        }
    }
}

} // verus!
