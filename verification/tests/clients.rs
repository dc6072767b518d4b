//! Tests for the client account state machine. Monetary values count units
//! of one ten-thousandth, so 15.45 is written 154500.

use txengine::structs::clients::ClientAccount;

#[test]
fn test_update_total() {
    let mut ca = ClientAccount {
        client: 0,
        available: 154500,
        held: 145500,
        total: 0,
        locked: false,
    };
    ca.update_total();
    assert_eq!(ca.total, 300000);
}

#[test]
fn test_deposit() {
    let mut ca = ClientAccount {
        client: 0,
        available: 154500,
        held: 145500,
        total: 0,
        locked: false,
    };
    ca.deposit(500000).unwrap();
    assert_eq!(ca.available, 654500);
    assert_eq!(ca.total, 800000);
}

#[test]
fn test_deposit_locked() {
    let mut ca = ClientAccount {
        client: 0,
        available: 154500,
        held: 145500,
        total: 0,
        locked: true,
    };
    ca.deposit(500000).unwrap();
    assert_eq!(ca.available, 154500);
    assert_eq!(ca.total, 0);
}

#[test]
fn test_withdrawal() {
    let mut ca = ClientAccount {
        client: 0,
        available: 154500,
        held: 145500,
        total: 0,
        locked: false,
    };
    ca.withdrawal(150000).unwrap();
    assert_eq!(ca.available, 4500);
    assert_eq!(ca.total, 150000);
}

#[test]
fn test_withdrawal_locked() {
    let mut ca = ClientAccount {
        client: 0,
        available: 154500,
        held: 145500,
        total: 0,
        locked: true,
    };
    ca.withdrawal(150000).unwrap();
    assert_eq!(ca.available, 154500);
    assert_eq!(ca.total, 0);
}

#[test]
fn test_withdrawal_insufficient_amount() {
    let mut ca = ClientAccount {
        client: 0,
        available: 154500,
        held: 145500,
        total: 0,
        locked: false,
    };
    ca.withdrawal(800000).unwrap();
    assert_eq!(ca.available, 154500);
    assert_eq!(ca.total, 0);
}

#[test]
fn test_dispute() {
    let mut ca = ClientAccount {
        client: 0,
        available: 154500,
        held: 145500,
        total: 0,
        locked: false,
    };
    ca.dispute(100000).unwrap();
    assert_eq!(ca.available, 54500);
    assert_eq!(ca.held, 245500);
    assert_eq!(ca.total, 300000);
}

#[test]
fn test_dispute_locked() {
    let mut ca = ClientAccount {
        client: 0,
        available: 154500,
        held: 145500,
        total: 0,
        locked: true,
    };
    ca.dispute(800000).unwrap();
    assert_eq!(ca.available, 154500);
    assert_eq!(ca.held, 145500);
    assert_eq!(ca.total, 0);
}

#[test]
fn test_dispute_insufficient_amount() {
    let mut ca = ClientAccount {
        client: 0,
        available: 154500,
        held: 145500,
        total: 0,
        locked: false,
    };
    ca.dispute(800000).unwrap();
    assert_eq!(ca.available, 154500);
    assert_eq!(ca.held, 145500);
    assert_eq!(ca.total, 0);
}

#[test]
fn test_resolve() {
    let mut ca = ClientAccount {
        client: 0,
        available: 154500,
        held: 145500,
        total: 0,
        locked: false,
    };
    ca.resolve(100000).unwrap();
    assert_eq!(ca.available, 254500);
    assert_eq!(ca.held, 45500);
    assert_eq!(ca.total, 300000);
}

#[test]
fn test_resolve_locked() {
    let mut ca = ClientAccount {
        client: 0,
        available: 154500,
        held: 145500,
        total: 0,
        locked: true,
    };
    ca.resolve(800000).unwrap();
    assert_eq!(ca.available, 154500);
    assert_eq!(ca.held, 145500);
    assert_eq!(ca.total, 0);
}

#[test]
fn test_resolve_insufficient_amount() {
    let mut ca = ClientAccount {
        client: 0,
        available: 154500,
        held: 145500,
        total: 0,
        locked: false,
    };
    ca.resolve(800000).unwrap();
    assert_eq!(ca.available, 154500);
    assert_eq!(ca.held, 145500);
    assert_eq!(ca.total, 0);
}

#[test]
fn test_chargeback() {
    let mut ca = ClientAccount {
        client: 0,
        available: 154500,
        held: 145500,
        total: 0,
        locked: false,
    };
    ca.chargeback(100000).unwrap();
    assert_eq!(ca.available, 154500);
    assert_eq!(ca.held, 45500);
    assert_eq!(ca.total, 200000);
    assert_eq!(ca.locked, true);
}

#[test]
fn test_chargeback_locked() {
    let mut ca = ClientAccount {
        client: 0,
        available: 154500,
        held: 145500,
        total: 0,
        locked: true,
    };
    ca.chargeback(800000).unwrap();
    assert_eq!(ca.available, 154500);
    assert_eq!(ca.held, 145500);
    assert_eq!(ca.total, 0);
}

#[test]
fn test_chargeback_insufficient_amount() {
    let mut ca = ClientAccount {
        client: 0,
        available: 154500,
        held: 145500,
        total: 0,
        locked: false,
    };
    ca.chargeback(800000).unwrap();
    assert_eq!(ca.available, 154500);
    assert_eq!(ca.held, 145500);
    assert_eq!(ca.total, 0);
}
