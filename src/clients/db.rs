use vstd::prelude::*;

use crate::clients::kind::{kind_name, kind_of_code};
use crate::clients::{
    signed_amount, Client, ClientError, ClientModel, Transaction, TransactionKind,
    TransactionModel,
};

verus! {

/// Why a transaction could not be turned into rows to store.
#[derive(Debug, Clone, Copy, PartialEq, Eq, Structural)]
pub enum DbClientError {
    /// The ledger refused the transaction.
    Base(ClientError),
    /// The account id, or an accepted transaction's value or new balance, does not
    /// fit a 32-bit column.
    OutOfRange,
}

/// A stored account row.
#[derive(Debug, Clone, Copy, PartialEq, Eq, Structural)]
pub struct DbClient {
    pub id: i32,
    pub limit: i32,
    pub balance: i32,
}

/// A stored transaction row; `timestamp` is in microseconds since the Unix epoch.
#[derive(Debug)]
pub struct DbTransaction {
    pub id: i32,
    pub client_id: i32,
    pub value: i32,
    pub kind: String,
    pub description: String,
    pub timestamp: i64,
}

/// A transaction row still to be inserted.
#[derive(Debug)]
pub struct NewDbTransaction {
    pub client_id: i32,
    pub value: i32,
    pub kind: String,
    pub description: String,
    pub timestamp: i64,
}

/// The account that a stored row describes, with an empty history.
pub open spec fn row_client(row: DbClient) -> ClientModel {
    ClientModel {
        id: (row.id as usize) as nat,
        limit: (row.limit as usize) as nat,
        balance: row.balance as int,
        history: Seq::empty(),
    }
}

/// The kind a stored code names; a code that names none reads as a debit.
pub open spec fn stored_kind(code: Seq<char>) -> TransactionKind {
    match kind_of_code(code) {
        Some(k) => k,
        None => TransactionKind::Debit,
    }
}

/// The transaction that a stored row describes.
pub open spec fn row_transaction(row: DbTransaction) -> TransactionModel {
    TransactionModel {
        value: (row.value as usize) as nat,
        kind: stored_kind(row.kind@),
        description: row.description@,
        timestamp: Some(row.timestamp),
    }
}

/// Whether the rows written for committing a transaction of `kind` and `value`
/// to `c` fit 32-bit columns: the account id always, and for a transaction the
/// ledger accepts, its value and the new balance too.
pub open spec fn storable(c: ClientModel, kind: TransactionKind, value: nat) -> bool {
    &&& c.id <= i32::MAX
    &&& c.accepts(kind, value) ==> {
        &&& value <= i32::MAX
        &&& i32::MIN <= c.balance + signed_amount(kind, value) <= i32::MAX
    }
}

impl Transaction {
    /// The transaction that a stored row describes.
    pub fn from_db(row: &DbTransaction) -> (r: Transaction)
        ensures
            r@ == row_transaction(*row),
    {
        let kind = match TransactionKind::from_code(row.kind.as_str()) {
            Some(k) => k,
            None => TransactionKind::Debit,
        };
        Transaction {
            value: row.value as usize,
            kind,
            description: row.description.clone(),
            timestamp: Some(row.timestamp),
        }
    }
}

impl Client {
    /// The account that a stored row describes, with an empty history.
    pub fn from_db(row: DbClient) -> (r: Client)
        ensures
            r@ == row_client(row),
    {
        let c = Client {
            id: row.id as usize,
            limit: row.limit as usize,
            balance: row.balance as isize,
            transactions: Vec::new(),
        };
        assert(c@.history =~= Seq::empty());
        c
    }

    /// The account that a stored row describes, with the stored transactions as its
    /// history in the order given.
    pub fn from_db_with_transactions(row: DbClient, rows: &Vec<DbTransaction>) -> (r: Client)
        ensures
            r@ == (ClientModel { history: rows@.map_values(|t: DbTransaction| row_transaction(t)), ..row_client(row) }),
            r@.stamped(),
    {
        let mut c = Client::from_db(row);
        let mut i: usize = 0;
        assert(rows@.subrange(0, 0).map_values(|t: DbTransaction| row_transaction(t)) =~= Seq::empty());
        while i < rows.len()
            invariant
                i <= rows@.len(),
                c@ == (ClientModel { history: rows@.subrange(0, i as int).map_values(|t: DbTransaction| row_transaction(t)), ..row_client(row) }),
            decreases rows@.len() - i,
        {
            let t = Transaction::from_db(&rows[i]);
            let ghost before = c.transactions@;
            c.transactions.push(t);
            assert(c.transactions@.map_values(|t: Transaction| t@) =~= before.map_values(|t: Transaction| t@).push(t@));
            assert(rows@.subrange(0, i + 1).map_values(|t: DbTransaction| row_transaction(t)) =~= rows@.subrange(0, i as int).map_values(|t: DbTransaction| row_transaction(t)).push(row_transaction(rows@[i as int])));
            i = i + 1;
        }
        assert(rows@.subrange(0, i as int) =~= rows@);
        c
    }

    /// Commits `transaction` with the commit time `timestamp` and returns the transaction row to
    /// insert beside the account's new balance. Nothing changes where the ledger
    /// refuses the transaction (`Base(OverLimit)`), or where the account id, or for
    /// an accepted transaction its value or the new balance, would not fit a column
    /// (`OutOfRange`).
    pub fn stage_transaction(&mut self, transaction: Transaction, timestamp: i64) -> (r: Result<
        NewDbTransaction,
        DbClientError,
    >)
        ensures
            r matches Err(DbClientError::OutOfRange) <==> !storable(
                old(self)@,
                transaction@.kind,
                transaction@.value,
            ),
            r matches Err(DbClientError::Base(e)) <==> old(self)@.id <= i32::MAX && !old(
                self,
            )@.accepts(transaction@.kind, transaction@.value),
            r matches Err(DbClientError::Base(e)) ==> e == ClientError::OverLimit,
            r is Err ==> final(self)@ == old(self)@,
            r matches Ok(row) ==> {
                &&& row.timestamp == timestamp
                &&& final(self)@ == old(self)@.after(transaction@.stamped(timestamp))
                &&& row.client_id as int == old(self)@.id
                &&& row.value as int == transaction@.value
                &&& row.kind@ == kind_name(transaction@.kind)
                &&& row.description@ == transaction@.description
                &&& i32::MIN <= final(self)@.balance <= i32::MAX
            },
    {
        if self.id > i32::MAX as usize {
            return Err(DbClientError::OutOfRange);
        }
        let candidate: i128 = match transaction.kind {
            TransactionKind::Credit => self.balance as i128 + transaction.value as i128,
            TransactionKind::Debit => self.balance as i128 - transaction.value as i128,
        };
        let accepted = match transaction.kind {
            TransactionKind::Credit => true,
            TransactionKind::Debit => candidate >= -(self.limit as i128),
        };
        if accepted && (transaction.value > i32::MAX as usize || candidate < i32::MIN as i128
            || candidate > i32::MAX as i128) {
            return Err(DbClientError::OutOfRange);
        }
        let client_id = self.id as i32;
        match self.execute_transaction(transaction, timestamp) {
            Err(e) => Err(DbClientError::Base(e)),
            Ok(t) => {
                let timestamp = t.timestamp.unwrap();
                Ok(
                    NewDbTransaction {
                        client_id,
                        value: t.value as i32,
                        kind: t.kind.name(),
                        description: t.description.clone(),
                        timestamp,
                    },
                )
            },
        }
    }
}

} // verus!
