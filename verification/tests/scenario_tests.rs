//! End-to-end scenarios through the ledger's routing.

use simple_ledger::app_state::AppState;
use simple_ledger::errors::Failure;
use simple_ledger::transaction::{Transaction, TxType};

fn tx(tx_type: TxType, client_id: u16, tx_id: u32, tx_amount: i64) -> Transaction {
    Transaction { tx_type, client_id, tx_id, tx_amount }
}

fn snapshot(app: &AppState, client_id: u16) -> Vec<String> {
    app.clients.get(&client_id).expect("no account for client").get_acc(client_id)
}

#[test]
fn two_deposits() {
    let mut app = AppState::new("input.csv");
    assert_eq!(app.route_tx(&tx(TxType::Deposit, 1, 1, 50000)), Ok(()));
    assert_eq!(app.route_tx(&tx(TxType::Deposit, 1, 2, 30000)), Ok(()));
    assert_eq!(snapshot(&app, 1), ["1", "8.0000", "0.0000", "8.0000", "false"]);
}

#[test]
fn overdraft_rejected_snapshot_unchanged() {
    let mut app = AppState::new("input.csv");
    assert_eq!(app.route_tx(&tx(TxType::Deposit, 1, 1, 50000)), Ok(()));
    assert_eq!(
        app.route_tx(&tx(TxType::Withdrawal, 1, 2, 70000)),
        Err(Failure::InsufficientFunds)
    );
    assert_eq!(snapshot(&app, 1), ["1", "5.0000", "0.0000", "5.0000", "false"]);
}

#[test]
fn dispute_then_resolve() {
    let mut app = AppState::new("input.csv");
    assert_eq!(app.route_tx(&tx(TxType::Deposit, 1, 1, 50000)), Ok(()));
    assert_eq!(app.route_tx(&tx(TxType::Dispute, 1, 1, 0)), Ok(()));
    assert_eq!(snapshot(&app, 1), ["1", "0.0000", "5.0000", "5.0000", "false"]);
    assert_eq!(app.route_tx(&tx(TxType::Resolve, 1, 1, 0)), Ok(()));
    assert_eq!(snapshot(&app, 1), ["1", "5.0000", "0.0000", "5.0000", "false"]);
}

#[test]
fn chargeback_freezes_account() {
    let mut app = AppState::new("input.csv");
    assert_eq!(app.route_tx(&tx(TxType::Deposit, 1, 1, 50000)), Ok(()));
    assert_eq!(app.route_tx(&tx(TxType::Dispute, 1, 1, 0)), Ok(()));
    assert_eq!(app.route_tx(&tx(TxType::Chargeback, 1, 1, 0)), Ok(()));
    assert_eq!(snapshot(&app, 1), ["1", "0.0000", "0.0000", "0.0000", "true"]);
    assert_eq!(
        app.route_tx(&tx(TxType::Deposit, 1, 2, 100000)),
        Err(Failure::AccountFrozen)
    );
    assert_eq!(snapshot(&app, 1), ["1", "0.0000", "0.0000", "0.0000", "true"]);
}

#[test]
fn dispute_of_unknown_tx_creates_no_account() {
    let mut app = AppState::new("input.csv");
    assert_eq!(
        app.route_tx(&tx(TxType::Dispute, 1, 99, 0)),
        Err(Failure::UnknownReference)
    );
    assert!(app.clients.is_empty());
}

#[test]
fn accounts_are_independent() {
    let mut app = AppState::new("input.csv");
    assert_eq!(app.route_tx(&tx(TxType::Deposit, 1, 1, 50000)), Ok(()));
    assert_eq!(app.route_tx(&tx(TxType::Deposit, 2, 2, 30000)), Ok(()));
    assert_eq!(app.route_tx(&tx(TxType::Dispute, 2, 2, 0)), Ok(()));
    assert_eq!(snapshot(&app, 1), ["1", "5.0000", "0.0000", "5.0000", "false"]);
    assert_eq!(snapshot(&app, 2), ["2", "0.0000", "3.0000", "3.0000", "false"]);
}

#[test]
fn app_state_keeps_file_name() {
    let app = AppState::new("ledger.csv");
    assert_eq!(app.get_file_name(), "ledger.csv");
}
