use rinha_2024_rs::clients::db::{DbClient, DbClientError, DbTransaction};
use rinha_2024_rs::clients::statements::StatementResult;
use rinha_2024_rs::clients::transactions::{
    ClientTransactionPayload, ClientTransactionResult, PayloadError, TransactionKindPayload,
};
use rinha_2024_rs::clients::{is_valid_balance, Client, ClientError, Transaction, TransactionKind};

#[test]
fn valid_balance() {
    assert_eq!(is_valid_balance(0, 1000), Ok(()));
    assert_eq!(is_valid_balance(1000, 1000), Ok(()));
    assert_eq!(is_valid_balance(-1000, 1000), Ok(()));

    assert_eq!(is_valid_balance(-1001, 1000), Err(ClientError::OverLimit));
}

#[test]
fn client_debit() {
    let mut client = Client::new(1, 1000, 0).unwrap();

    assert_eq!(client.debit(1000), Ok(()));
    assert_eq!(client.debit(1), Err(ClientError::OverLimit));
    assert_eq!(client.balance(), -1000);
}

#[test]
fn client_credit() {
    let mut client = Client::new(1, 1000, 0).unwrap();

    client.credit(15);
    client.credit(10);
    assert_eq!(client.balance(), 15 + 10);
}

#[test]
fn valid_balance_with_huge_limit() {
    assert_eq!(is_valid_balance(isize::MIN, usize::MAX), Ok(()));
    assert_eq!(is_valid_balance(isize::MIN, 0), Err(ClientError::OverLimit));
}

#[test]
fn create_checks_initial_balance() {
    let c = Client::new(7, 1000, -1000).unwrap();
    assert_eq!(c.id(), 7);
    assert_eq!(c.limit(), 1000);
    assert_eq!(c.balance(), -1000);
    assert!(c.transactions().is_empty());
    assert_eq!(Client::new(7, 1000, -1001).unwrap_err(), ClientError::InvalidInitialBalance);
    assert!(Client::new(1, 0, 0).is_ok());
    assert!(Client::new(1, 0, -1).is_err());
}

#[test]
fn debit_to_the_limit_then_over() {
    let mut c = Client::new(1, 1000, 0).unwrap();
    let t = c
        .execute_transaction(Transaction::new(1000, TransactionKind::Debit, "rent".to_string()), 1)
        .unwrap();
    assert_eq!(t.value(), 1000);
    assert_eq!(t.kind(), TransactionKind::Debit);
    assert_eq!(t.description(), "rent");
    assert_eq!(c.balance(), -1000);
    assert_eq!(c.limit(), 1000);
    let r = c.execute_transaction(Transaction::new(1, TransactionKind::Debit, "x".to_string()), 2);
    assert_eq!(r.unwrap_err(), ClientError::OverLimit);
    assert_eq!(c.balance(), -1000);
    assert_eq!(c.transactions().len(), 1);
}

#[test]
fn credits_add_up() {
    let mut c = Client::new(1, 1000, 0).unwrap();
    c.execute_transaction(Transaction::new(15, TransactionKind::Credit, "a".to_string()), 1)
        .unwrap();
    c.execute_transaction(Transaction::new(10, TransactionKind::Credit, "b".to_string()), 2)
        .unwrap();
    assert_eq!(c.balance(), 25);
    assert_eq!(c.transactions().len(), 2);
}

#[test]
fn commit_time_is_the_given_one() {
    let mut c = Client::new(1, 0, 0).unwrap();
    let t = c
        .execute_transaction(Transaction::new(5, TransactionKind::Credit, "a".to_string()), 42)
        .unwrap();
    assert_eq!(t.timestamp(), Some(42));
    assert_eq!(c.transactions()[0].timestamp(), Some(42));
}

#[test]
fn history_grows_only_on_success() {
    let mut c = Client::new(1, 10, 0).unwrap();
    let kinds = [
        (5, TransactionKind::Debit, true),
        (5, TransactionKind::Debit, true),
        (1, TransactionKind::Debit, false),
        (3, TransactionKind::Credit, true),
        (100, TransactionKind::Debit, false),
    ];
    let mut expected_len = 0;
    for (v, k, ok) in kinds {
        let before = c.balance();
        let r = c.execute_transaction(Transaction::new(v, k, "t".to_string()), 1);
        assert_eq!(r.is_ok(), ok);
        if ok {
            expected_len += 1;
        } else {
            assert_eq!(c.balance(), before);
        }
        assert_eq!(c.transactions().len(), expected_len);
    }
    assert_eq!(c.balance(), -7);
}

#[test]
fn sequential_commits_lose_no_update() {
    let mut c = Client::new(1, 100, 0).unwrap();
    let mut expected: isize = 0;
    let mut committed = 0;
    for i in 0..50usize {
        let kind = if i % 3 == 0 { TransactionKind::Credit } else { TransactionKind::Debit };
        let v = i + 1;
        let delta = if kind == TransactionKind::Credit { v as isize } else { -(v as isize) };
        if c.execute_transaction(Transaction::new(v, kind, "n".to_string()), i as i64).is_ok() {
            expected += delta;
            committed += 1;
        }
        assert!(c.balance() >= -100);
    }
    assert_eq!(c.balance(), expected);
    assert_eq!(c.transactions().len(), committed);
    for (i, t) in c.transactions().iter().enumerate().skip(1) {
        assert!(t.timestamp() > c.transactions()[i - 1].timestamp());
    }
}

#[test]
fn stored_kind_codes() {
    assert_eq!(TransactionKind::from_code("c"), Some(TransactionKind::Credit));
    assert_eq!(TransactionKind::from_code("CREDIT"), Some(TransactionKind::Credit));
    assert_eq!(TransactionKind::from_code("Credit"), Some(TransactionKind::Credit));
    assert_eq!(TransactionKind::from_code("D"), Some(TransactionKind::Debit));
    assert_eq!(TransactionKind::from_code("debit"), Some(TransactionKind::Debit));
    assert_eq!(TransactionKind::from_code("credits"), None);
    assert_eq!(TransactionKind::from_code(""), None);
    assert_eq!("dEbIt".parse::<TransactionKind>(), Ok(TransactionKind::Debit));
    assert_eq!("x".parse::<TransactionKind>(), Err(()));
    assert_eq!(TransactionKind::Credit.name(), "Credit");
    assert_eq!(TransactionKind::Debit.name(), "Debit");
    for k in [TransactionKind::Credit, TransactionKind::Debit] {
        assert_eq!(TransactionKind::from_code(&k.name()), Some(k));
    }
}

#[test]
fn request_kind_codes() {
    assert_eq!(TransactionKindPayload::from_code("c"), Some(TransactionKindPayload::Credit));
    assert_eq!(TransactionKindPayload::from_code("d"), Some(TransactionKindPayload::Debit));
    assert_eq!(TransactionKindPayload::from_code("C"), None);
    assert_eq!(TransactionKindPayload::from_code("credit"), None);
    assert_eq!(TransactionKindPayload::Credit.code(), "c");
    assert_eq!(TransactionKindPayload::Debit.code(), "d");
    assert_eq!(TransactionKindPayload::Debit.to_kind(), TransactionKind::Debit);
    assert_eq!(
        TransactionKindPayload::from_kind(TransactionKind::Credit),
        TransactionKindPayload::Credit
    );
}

#[test]
fn payload_validation() {
    let p = ClientTransactionPayload::parse(10, "c", "descricao".to_string()).unwrap();
    assert_eq!(p.value(), 10);
    assert_eq!(p.kind(), TransactionKind::Credit);
    assert_eq!(p.description(), "descricao");
    let t = p.into_transaction();
    assert_eq!(t.timestamp(), None);
    assert_eq!(t.value(), 10);

    assert_eq!(
        ClientTransactionPayload::parse(10, "c", "12345678901".to_string()).unwrap_err(),
        PayloadError::InvalidDescription
    );
    assert_eq!(
        ClientTransactionPayload::parse(10, "c", String::new()).unwrap_err(),
        PayloadError::InvalidDescription
    );
    // Ten characters, more than ten bytes.
    assert!(ClientTransactionPayload::parse(10, "d", "çççççççççç".to_string()).is_ok());
    assert_eq!(
        ClientTransactionPayload::parse(0, "c", "a".to_string()).unwrap_err(),
        PayloadError::InvalidValue
    );
    assert_eq!(
        ClientTransactionPayload::parse(1, "x", "a".to_string()).unwrap_err(),
        PayloadError::InvalidKind
    );
    // The description is checked first.
    assert_eq!(
        ClientTransactionPayload::parse(0, "x", String::new()).unwrap_err(),
        PayloadError::InvalidDescription
    );
}

#[test]
fn transaction_result_reports_limit_and_balance() {
    let mut c = Client::new(1, 500, 0).unwrap();
    c.execute_transaction(Transaction::new(200, TransactionKind::Debit, "a".to_string()), 1)
        .unwrap();
    assert_eq!(ClientTransactionResult::of_client(&c), ClientTransactionResult {
        limit: 500,
        balance: -200
    });
}

#[test]
fn statement_lists_five_newest_first() {
    let mut c = Client::new(1, 100000, 0).unwrap();
    for i in 1..=7usize {
        c.execute_transaction(
            Transaction::new(i, TransactionKind::Credit, format!("t{i}")),
            i as i64,
        )
        .unwrap();
    }
    let s = StatementResult::of_client(&c, 99);
    assert_eq!(s.balance.total, 28);
    assert_eq!(s.balance.limit, 100000);
    assert_eq!(s.balance.timestamp, 99);
    let values: Vec<usize> = s.last_transactions.iter().map(|t| t.value).collect();
    assert_eq!(values, vec![7, 6, 5, 4, 3]);
    assert_eq!(s.last_transactions[0].description, "t7");
    assert_eq!(s.last_transactions[0].timestamp, 7);
    assert_eq!(s.last_transactions[4].kind, TransactionKind::Credit);
}

#[test]
fn statement_of_short_and_empty_history() {
    let mut c = Client::new(1, 10, 0).unwrap();
    assert!(StatementResult::of_client(&c, 1).last_transactions.is_empty());
    c.execute_transaction(Transaction::new(3, TransactionKind::Debit, "a".to_string()), 5)
        .unwrap();
    c.execute_transaction(Transaction::new(4, TransactionKind::Credit, "b".to_string()), 6)
        .unwrap();
    let s = StatementResult::of_client(&c, 7);
    let values: Vec<usize> = s.last_transactions.iter().map(|t| t.value).collect();
    assert_eq!(values, vec![4, 3]);
    assert_eq!(s.balance.total, 1);
    assert_eq!(s.balance.timestamp, 7);
}

fn row(id: i32, value: i32, kind: &str, description: &str, timestamp: i64) -> DbTransaction {
    DbTransaction {
        id,
        client_id: 1,
        value,
        kind: kind.to_string(),
        description: description.to_string(),
        timestamp,
    }
}

#[test]
fn loads_stored_rows() {
    let c = Client::from_db(DbClient { id: 3, limit: 800, balance: -20 });
    assert_eq!((c.id(), c.limit(), c.balance()), (3, 800, -20));
    assert!(c.transactions().is_empty());

    let rows = vec![
        row(1, 10, "Credit", "a", 100),
        row(2, 20, "d", "b", 200),
        row(3, 30, "???", "c", 300),
    ];
    let c = Client::from_db_with_transactions(DbClient { id: 3, limit: 800, balance: -20 }, &rows);
    let txs = c.transactions();
    assert_eq!(txs.len(), 3);
    assert_eq!(txs[0].kind(), TransactionKind::Credit);
    assert_eq!(txs[1].kind(), TransactionKind::Debit);
    // A code that names no kind reads as a debit.
    assert_eq!(txs[2].kind(), TransactionKind::Debit);
    assert_eq!(txs[2].value(), 30);
    assert_eq!(txs[2].description(), "c");
    assert_eq!(txs[2].timestamp(), Some(300));
    let s = StatementResult::of_client(&c, 0);
    assert_eq!(s.last_transactions[0].value, 30);
}

#[test]
fn staging_builds_the_row_to_insert() {
    let mut c = Client::from_db(DbClient { id: 9, limit: 100, balance: 0 });
    let new_row = c
        .stage_transaction(Transaction::new(60, TransactionKind::Debit, "pix".to_string()), 11)
        .unwrap();
    assert_eq!(new_row.client_id, 9);
    assert_eq!(new_row.value, 60);
    assert_eq!(new_row.kind, "Debit");
    assert_eq!(new_row.description, "pix");
    assert_eq!(new_row.timestamp, 11);
    assert_eq!(c.transactions()[0].timestamp(), Some(11));
    assert_eq!(c.balance(), -60);

    let r = c.stage_transaction(Transaction::new(41, TransactionKind::Debit, "pix".to_string()), 12);
    assert_eq!(r.unwrap_err(), DbClientError::Base(ClientError::OverLimit));
    assert_eq!(c.balance(), -60);
    assert_eq!(c.transactions().len(), 1);
}

#[test]
fn staging_refuses_what_columns_cannot_hold() {
    let mut c = Client::from_db(DbClient { id: 1, limit: 0, balance: i32::MAX - 1 });
    let r = c.stage_transaction(Transaction::new(2, TransactionKind::Credit, "a".to_string()), 1);
    assert_eq!(r.unwrap_err(), DbClientError::OutOfRange);
    assert_eq!(c.balance(), (i32::MAX - 1) as isize);
    let r = c.stage_transaction(Transaction::new(
        i32::MAX as usize + 1,
        TransactionKind::Debit,
        "a".to_string(),
    ), 2);
    // The ledger refuses this debit, whatever the size of its value.
    assert_eq!(r.unwrap_err(), DbClientError::Base(ClientError::OverLimit));
    assert!(c.transactions().is_empty());
    let ok = c.stage_transaction(Transaction::new(1, TransactionKind::Credit, "a".to_string()), 3);
    assert!(ok.is_ok());
    assert_eq!(c.balance(), i32::MAX as isize);
}

#[test]
fn over_limit_debit_too_large_for_a_column_is_over_limit() {
    let mut c = Client::from_db(DbClient { id: 1, limit: 1000, balance: 0 });
    let p = ClientTransactionPayload::parse(2147483648, "d", "big".to_string()).unwrap();
    let r = c.stage_transaction(p.into_transaction(), 1);
    assert_eq!(r.unwrap_err(), DbClientError::Base(ClientError::OverLimit));
    assert_eq!(c.balance(), 0);
    assert!(c.transactions().is_empty());
}

#[test]
fn large_credit_is_out_of_range() {
    let mut c = Client::from_db(DbClient { id: 1, limit: 1000, balance: 0 });
    let r = c.stage_transaction(Transaction::new(
        2147483648,
        TransactionKind::Credit,
        "big".to_string(),
    ), 1);
    assert_eq!(r.unwrap_err(), DbClientError::OutOfRange);
    assert_eq!(c.balance(), 0);
}
