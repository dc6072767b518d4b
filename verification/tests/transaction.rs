//! Tests for instructions and transaction records.

use txengine::structs::transaction::{Transaction, TransactionRecord};

#[test]
fn test_from() {
    let tr: TransactionRecord = TransactionRecord::from(&Transaction {
        client: 1,
        tx: 2,
        tx_type: "deposit".to_string(),
        amount: Some(420000),
    });
    assert_eq!(tr.client, tr.client());
    assert_eq!(tr.disputed, false);
    assert_eq!(tr.amount(), tr.amount());
}

#[test]
fn test_from_missing_amount() {
    let tr = TransactionRecord::from(&Transaction {
        client: 7,
        tx: 9,
        tx_type: "withdrawal".to_string(),
        amount: None,
    });
    assert_eq!(tr.amount(), 0);
    assert_eq!(tr.client(), 7);
    assert_eq!(tr.disputed(), false);
}

#[test]
fn test_record_dispute_and_resolve() {
    let mut tr = TransactionRecord::from(&Transaction {
        client: 3,
        tx: 4,
        tx_type: "deposit".to_string(),
        amount: Some(125000),
    });
    assert!(!tr.disputed());
    tr.dispute();
    assert!(tr.disputed());
    assert_eq!(tr.amount(), 125000);
    assert_eq!(tr.client(), 3);
    tr.resolve();
    assert!(!tr.disputed());
}

#[test]
fn test_getters() {
    let t = Transaction {
        client: 11,
        tx: 12,
        tx_type: "dispute".to_string(),
        amount: None,
    };
    assert_eq!(t.client(), 11);
    assert_eq!(t.tx(), 12);
    assert_eq!(t.amount(), None);
    let t2 = Transaction {
        client: 11,
        tx: 12,
        tx_type: "dispute".to_string(),
        amount: None,
    };
    assert_eq!(t2.tx_type(), "dispute".to_string());
}
