use vstd::prelude::*;

verus! {

/// Whether money comes into the account or leaves it.
#[derive(Debug, Clone, Copy, PartialEq, Eq, Structural)]
pub enum TransactionKind {
    Credit,
    Debit,
}

/// The code of an ASCII letter folded to lower case; other characters keep theirs.
pub open spec fn folded(c: char) -> u32 {
    if 'A' <= c && c <= 'Z' {
        (c as u32 + 32) as u32
    } else {
        c as u32
    }
}

/// Equality of two texts up to the case of ASCII letters.
pub open spec fn same_ignoring_case(s: Seq<char>, w: Seq<char>) -> bool {
    &&& s.len() == w.len()
    &&& forall|i: int| 0 <= i < s.len() ==> folded(#[trigger] s[i]) == folded(w[i])
}

/// The kind that a stored code names: `c` or `credit`, `d` or `debit`, in any case.
pub open spec fn kind_of_code(s: Seq<char>) -> Option<TransactionKind> {
    if same_ignoring_case(s, seq!['c']) || same_ignoring_case(
        s,
        seq!['c', 'r', 'e', 'd', 'i', 't'],
    ) {
        Some(TransactionKind::Credit)
    } else if same_ignoring_case(s, seq!['d']) || same_ignoring_case(
        s,
        seq!['d', 'e', 'b', 'i', 't'],
    ) {
        Some(TransactionKind::Debit)
    } else {
        None
    }
}

/// The name under which a kind is stored.
pub open spec fn kind_name(k: TransactionKind) -> Seq<char> {
    match k {
        TransactionKind::Credit => seq!['C', 'r', 'e', 'd', 'i', 't'],
        TransactionKind::Debit => seq!['D', 'e', 'b', 'i', 't'],
    }
}

fn fold_char(c: char) -> (r: u32)
    ensures
        r == folded(c),
{
    let x = c as u32;
    if 65 <= x && x <= 90 {
        x + 32
    } else {
        x
    }
}

/// Compares `s` and `w` up to the case of ASCII letters.
pub fn eq_ignoring_case(s: &str, w: &str) -> (r: bool)
    ensures
        r == same_ignoring_case(s@, w@),
{
    let n = s.unicode_len();
    if n != w.unicode_len() {
        return false;
    }
    let mut i: usize = 0;
    while i < n
        invariant
            n == s@.len(),
            n == w@.len(),
            i <= n,
            forall|j: int| 0 <= j < i ==> folded(#[trigger] s@[j]) == folded(w@[j]),
        decreases n - i,
    {
        if fold_char(s.get_char(i)) != fold_char(w.get_char(i)) {
            return false;
        }
        i = i + 1;
    }
    true
}

impl TransactionKind {
    /// Reads a stored kind code: `c` or `credit`, `d` or `debit`, in any case.
    pub fn from_code(s: &str) -> (r: Option<Self>)
        ensures
            r == kind_of_code(s@),
    {
        proof {
            reveal_strlit("c");
            reveal_strlit("credit");
            reveal_strlit("d");
            reveal_strlit("debit");
        }
        assert("credit"@ =~= seq!['c', 'r', 'e', 'd', 'i', 't']);
        assert("debit"@ =~= seq!['d', 'e', 'b', 'i', 't']);
        assert("c"@ =~= seq!['c']);
        assert("d"@ =~= seq!['d']);
        if eq_ignoring_case(s, "c") || eq_ignoring_case(s, "credit") {
            Some(TransactionKind::Credit)
        } else if eq_ignoring_case(s, "d") || eq_ignoring_case(s, "debit") {
            Some(TransactionKind::Debit)
        } else {
            None
        }
    }

    /// The name under which the kind is stored.
    pub fn name(&self) -> (r: String)
        ensures
            r@ == kind_name(*self),
    {
        match self {
            TransactionKind::Credit => {
                proof {
                    reveal_strlit("Credit");
                }
                assert("Credit"@ =~= seq!['C', 'r', 'e', 'd', 'i', 't']);
                String::from_str("Credit")
            },
            TransactionKind::Debit => {
                proof {
                    reveal_strlit("Debit");
                }
                assert("Debit"@ =~= seq!['D', 'e', 'b', 'i', 't']);
                String::from_str("Debit")
            },
        }
    }
}

/// A stored name reads back as the kind it was written from.
pub proof fn lemma_name_round_trip(k: TransactionKind)
    ensures
        kind_of_code(kind_name(k)) == Some(k),
{
    let n = kind_name(k);
    match k {
        TransactionKind::Credit => {
            assert(folded(n[0]) == folded('c'));
            assert(same_ignoring_case(n, seq!['c', 'r', 'e', 'd', 'i', 't']));
        },
        TransactionKind::Debit => {
            assert(!same_ignoring_case(n, seq!['c']));
            assert(!same_ignoring_case(n, seq!['c', 'r', 'e', 'd', 'i', 't']));
            assert(same_ignoring_case(n, seq!['d', 'e', 'b', 'i', 't']));
        },
    }
}

impl std::str::FromStr for TransactionKind {
    type Err = ();

    fn from_str(s: &str) -> (r: Result<Self, ()>)
        ensures
            r == (match kind_of_code(s@) {
                Some(k) => Ok::<TransactionKind, ()>(k),
                None => Err(()),
            }),
    {
        match TransactionKind::from_code(s) {
            Some(k) => Ok(k),
            None => Err(()),
        }
    }
}

} // verus!
