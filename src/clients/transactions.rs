use vstd::prelude::*;

use crate::clients::{Client, Transaction, TransactionKind, TransactionModel};

verus! {

/// The longest description a transaction may carry, in characters.
pub const MAX_DESCRIPTION_LEN: usize = 10;

/// The kind of a transaction as a request writes it: `c` or `d`.
#[derive(Debug, Clone, Copy, PartialEq, Eq, Structural)]
pub enum TransactionKindPayload {
    Credit,
    Debit,
}

/// The kind that a request code names, if any: exactly `c` or `d`.
pub open spec fn payload_kind(code: Seq<char>) -> Option<TransactionKindPayload> {
    if code == seq!['c'] {
        Some(TransactionKindPayload::Credit)
    } else if code == seq!['d'] {
        Some(TransactionKindPayload::Debit)
    } else {
        None
    }
}

/// The code a request uses for a kind.
pub open spec fn payload_code(k: TransactionKindPayload) -> Seq<char> {
    match k {
        TransactionKindPayload::Credit => seq!['c'],
        TransactionKindPayload::Debit => seq!['d'],
    }
}

/// The ledger's kind for a request kind.
pub open spec fn ledger_kind(k: TransactionKindPayload) -> TransactionKind {
    match k {
        TransactionKindPayload::Credit => TransactionKind::Credit,
        TransactionKindPayload::Debit => TransactionKind::Debit,
    }
}

/// Whether a description is acceptable: one to `MAX_DESCRIPTION_LEN` characters.
pub open spec fn valid_description(d: Seq<char>) -> bool {
    1 <= d.len() <= MAX_DESCRIPTION_LEN
}

impl TransactionKindPayload {
    /// Reads a request code: exactly `c` or `d`.
    pub fn from_code(s: &str) -> (r: Option<Self>)
        ensures
            r == payload_kind(s@),
    {
        if s.unicode_len() != 1 {
            return None;
        }
        let c = s.get_char(0);
        if c == 'c' {
            assert(s@ =~= seq!['c']);
            Some(TransactionKindPayload::Credit)
        } else if c == 'd' {
            assert(s@ =~= seq!['d']);
            Some(TransactionKindPayload::Debit)
        } else {
            assert(s@ != seq!['c'] && s@ != seq!['d']) by {
                assert(seq!['c'][0] == 'c');
                assert(seq!['d'][0] == 'd');
            }
            None
        }
    }

    /// The code a request uses for the kind.
    pub fn code(&self) -> (r: String)
        ensures
            r@ == payload_code(*self),
    {
        match self {
            TransactionKindPayload::Credit => {
                proof {
                    reveal_strlit("c");
                }
                assert("c"@ =~= seq!['c']);
                String::from_str("c")
            },
            TransactionKindPayload::Debit => {
                proof {
                    reveal_strlit("d");
                }
                assert("d"@ =~= seq!['d']);
                String::from_str("d")
            },
        }
    }

    /// The ledger's kind.
    pub fn to_kind(self) -> (r: TransactionKind)
        ensures
            r == ledger_kind(self),
    {
        match self {
            TransactionKindPayload::Credit => TransactionKind::Credit,
            TransactionKindPayload::Debit => TransactionKind::Debit,
        }
    }

    /// The request kind for a ledger kind.
    pub fn from_kind(k: TransactionKind) -> (r: Self)
        ensures
            ledger_kind(r) == k,
    {
        match k {
            TransactionKind::Credit => TransactionKindPayload::Credit,
            TransactionKind::Debit => TransactionKindPayload::Debit,
        }
    }
}

/// A request code reads back as the kind it was written from.
pub proof fn lemma_payload_code_round_trip(k: TransactionKindPayload)
    ensures
        payload_kind(payload_code(k)) == Some(k),
{
    if k == TransactionKindPayload::Debit {
        assert(seq!['d'] != seq!['c']) by {
            assert(seq!['d'][0] != seq!['c'][0]);
        }
    }
}

/// Why a transaction request was refused before it reached an account.
#[derive(Debug, Clone, Copy, PartialEq, Eq, Structural)]
pub enum PayloadError {
    /// The description is empty or longer than `MAX_DESCRIPTION_LEN` characters.
    InvalidDescription,
    /// The value is zero.
    InvalidValue,
    /// The kind code is neither `c` nor `d`.
    InvalidKind,
}

/// A validated transaction request.
#[derive(Debug)]
pub struct ClientTransactionPayload {
    pub(crate) value: usize,
    pub(crate) kind: TransactionKind,
    pub(crate) description: String,
}

impl View for ClientTransactionPayload {
    type V = TransactionModel;

    open(crate) spec fn view(&self) -> TransactionModel {
        TransactionModel {
            value: self.value as nat,
            kind: self.kind,
            description: self.description@,
            timestamp: None,
        }
    }
}

impl ClientTransactionPayload {
    /// Validates a request: first its description, then its value, then its kind
    /// code; the first check that fails names the error.
    pub fn parse(value: usize, kind_code: &str, description: String) -> (r: Result<
        Self,
        PayloadError,
    >)
        ensures
            r matches Err(PayloadError::InvalidDescription) <==> !valid_description(
                description@,
            ),
            r matches Err(PayloadError::InvalidValue) <==> valid_description(description@)
                && value == 0,
            r matches Err(PayloadError::InvalidKind) <==> valid_description(description@)
                && value > 0 && payload_kind(kind_code@) is None,
            r matches Ok(p) ==> payload_kind(kind_code@) matches Some(k) && p@ == (
            TransactionModel {
                value: value as nat,
                kind: ledger_kind(k),
                description: description@,
                timestamp: None,
            }),
    {
        let n = description.as_str().unicode_len();
        if n == 0 || n > MAX_DESCRIPTION_LEN {
            return Err(PayloadError::InvalidDescription);
        }
        if value == 0 {
            return Err(PayloadError::InvalidValue);
        }
        match TransactionKindPayload::from_code(kind_code) {
            None => Err(PayloadError::InvalidKind),
            Some(k) => Ok(ClientTransactionPayload { value, kind: k.to_kind(), description }),
        }
    }

    pub fn value(&self) -> (r: usize)
        ensures
            r == self@.value,
    {
        self.value
    }

    pub fn kind(&self) -> (r: TransactionKind)
        ensures
            r == self@.kind,
    {
        self.kind
    }

    pub fn description(&self) -> (r: &String)
        ensures
            r@ == self@.description,
    {
        &self.description
    }

    /// The uncommitted transaction that the request asks for.
    pub fn into_transaction(self) -> (r: Transaction)
        ensures
            r@ == self@,
    {
        Transaction::new(self.value, self.kind, self.description)
    }
}

/// The answer to a committed transaction: the account's limit and new balance.
#[derive(Debug, Clone, Copy, PartialEq, Eq, Structural)]
pub struct ClientTransactionResult {
    pub limit: usize,
    pub balance: isize,
}

impl ClientTransactionResult {
    /// The limit and balance of `client`.
    pub fn of_client(client: &Client) -> (r: Self)
        ensures
            r.limit == client@.limit,
            r.balance == client@.balance,
    {
        ClientTransactionResult { limit: client.limit(), balance: client.balance() }
    }
}

} // verus!
