//! Tests of the per-client account state machine.

use simple_ledger::client::Client;
use simple_ledger::errors::Failure;
use simple_ledger::transaction::{Transaction, TxType};

#[test]
pub fn client_creation() {
    let client1 = Client::new(5546465, TxType::Deposit, 45495411);
    assert_eq!(
        client1.get_acc(1),
        ["1", "4549.5411", "0.0000", "4549.5411", "false"]
    );
}

#[test]
fn retrieve_data() {
    let tx = Transaction {
        tx_type: TxType::Deposit,
        client_id: 01,
        tx_id: 02032,
        tx_amount: 1233400,
    };
    assert_eq!((TxType::Deposit, 1233400), tx.get_data());
}

#[test]
fn new_client_from_dispute_stays_zeroed() {
    let client = Client::new(7, TxType::Dispute, 0);
    assert_eq!(client.get_acc(3), ["3", "0.0000", "0.0000", "0.0000", "false"]);
}

#[test]
fn withdrawal_reduces_available() {
    let mut client = Client::new(1, TxType::Deposit, 50000);
    assert_eq!(client.process_tx(2, TxType::Withdrawal, 30000), Ok(()));
    assert_eq!(client.get_acc(1), ["1", "2.0000", "0.0000", "2.0000", "false"]);
}

#[test]
fn out_of_order_tx_rejected_without_mutation() {
    let mut client = Client::new(5, TxType::Deposit, 50000);
    let before = client.get_acc(1);
    assert_eq!(
        client.process_tx(5, TxType::Deposit, 10000),
        Err(Failure::OutOfOrderOrDuplicateTx)
    );
    assert_eq!(
        client.process_tx(3, TxType::Withdrawal, 10000),
        Err(Failure::OutOfOrderOrDuplicateTx)
    );
    assert_eq!(client.get_acc(1), before);
}

#[test]
fn failed_operations_leave_state_identical() {
    let mut client = Client::new(1, TxType::Deposit, 50000);
    let before = client.get_acc(9);
    assert_eq!(
        client.process_tx(2, TxType::Withdrawal, 70000),
        Err(Failure::InsufficientFunds)
    );
    assert_eq!(client.process_tx(3, TxType::Resolve, 0), Err(Failure::NotDisputed));
    assert_eq!(client.process_tx(4, TxType::Chargeback, 0), Err(Failure::NotDisputed));
    assert_eq!(
        client.process_tx(5, TxType::Dispute, 0),
        Err(Failure::UnknownReference)
    );
    assert_eq!(client.get_acc(9), before);
}

#[test]
fn frozen_account_rejects_every_kind() {
    let mut client = Client::new(1, TxType::Deposit, 50000);
    assert_eq!(client.process_tx(1, TxType::Dispute, 0), Ok(()));
    assert_eq!(client.process_tx(1, TxType::Chargeback, 0), Ok(()));
    let frozen_row = client.get_acc(1);
    assert_eq!(frozen_row, ["1", "0.0000", "0.0000", "0.0000", "true"]);
    assert_eq!(
        client.process_tx(2, TxType::Deposit, 10000),
        Err(Failure::AccountFrozen)
    );
    assert_eq!(
        client.process_tx(3, TxType::Withdrawal, 10000),
        Err(Failure::AccountFrozen)
    );
    assert_eq!(client.process_tx(4, TxType::Dispute, 0), Err(Failure::AccountFrozen));
    assert_eq!(client.process_tx(5, TxType::Resolve, 0), Err(Failure::AccountFrozen));
    assert_eq!(
        client.process_tx(6, TxType::Chargeback, 0),
        Err(Failure::AccountFrozen)
    );
    assert_eq!(client.get_acc(1), frozen_row);
}

#[test]
fn dispute_with_too_little_available_rejected() {
    let mut client = Client::new(1, TxType::Deposit, 50000);
    assert_eq!(client.process_tx(2, TxType::Withdrawal, 30000), Ok(()));
    // Only 2.0000 is available, but tx 1 deposited 5.0000.
    assert_eq!(client.process_tx(1, TxType::Dispute, 0), Err(Failure::InsufficientFunds));
    assert_eq!(client.get_acc(1), ["1", "2.0000", "0.0000", "2.0000", "false"]);
}

#[test]
fn double_dispute_rejected() {
    let mut client = Client::new(1, TxType::Deposit, 50000);
    assert_eq!(client.process_tx(1, TxType::Dispute, 0), Ok(()));
    assert_eq!(client.process_tx(1, TxType::Dispute, 0), Err(Failure::AlreadyDisputed));
}

#[test]
fn resolved_tx_can_be_disputed_again() {
    let mut client = Client::new(1, TxType::Deposit, 50000);
    assert_eq!(client.process_tx(1, TxType::Dispute, 0), Ok(()));
    assert_eq!(client.process_tx(1, TxType::Resolve, 0), Ok(()));
    assert_eq!(client.process_tx(1, TxType::Dispute, 0), Ok(()));
    assert_eq!(client.get_acc(1), ["1", "0.0000", "5.0000", "5.0000", "false"]);
}

#[test]
fn deposit_overflow_rejected() {
    let mut client = Client::new(1, TxType::Deposit, i64::MAX);
    let before = client.get_acc(1);
    assert_eq!(client.process_tx(2, TxType::Deposit, 1), Err(Failure::BalanceOverflow));
    assert_eq!(client.get_acc(1), before);
}

#[test]
fn available_plus_held_equals_total() {
    let mut client = Client::new(1, TxType::Deposit, 50000);
    assert_eq!(client.process_tx(2, TxType::Deposit, 30000), Ok(()));
    assert_eq!(client.process_tx(1, TxType::Dispute, 0), Ok(()));
    // available 3.0000 + held 5.0000 == total 8.0000, exactly.
    assert_eq!(client.get_acc(1), ["1", "3.0000", "5.0000", "8.0000", "false"]);
}

#[test]
fn helper_checks_report_expected_failures() {
    let client = Client::new(4, TxType::Deposit, 50000);
    assert_eq!(client.account_frozen(5), Ok(false));
    assert_eq!(client.check_tx_id(5), Ok(()));
    assert_eq!(client.check_tx_id(4), Err(Failure::OutOfOrderOrDuplicateTx));
    assert_eq!(client.sufficient_funds(50000), Ok(()));
    assert_eq!(client.sufficient_funds(50001), Err(Failure::InsufficientFunds));
    assert_eq!(client.disputed_status(4, false), Ok(()));
    assert_eq!(client.disputed_status(4, true), Err(Failure::NotDisputed));
    assert_eq!(client.get_tx_val(4), Ok(50000));
    assert_eq!(client.get_tx_val(9), Err(Failure::UnknownReference));
}
