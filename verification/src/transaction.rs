//! Input transactions: a kind, a client, a transaction id, and a fixed-point
//! amount (present only for deposits and withdrawals, zero otherwise).

use vstd::prelude::*;

use crate::errors::Failure;

verus! {

/// The stream-shape rule for input records: a 4-field record carries an
/// amount (deposits and withdrawals), a 3-field record carries none
/// (disputes, resolves and chargebacks), and any other width makes the whole
/// stream malformed — a fatal error, not a per-transaction one.
pub fn record_has_amount(field_count: usize) -> (r: Result<bool, Failure>)
    ensures
        r == (if field_count == 4 {
            Result::<bool, Failure>::Ok(true)
        } else if field_count == 3 {
            Result::<bool, Failure>::Ok(false)
        } else {
            Result::<bool, Failure>::Err(Failure::MalformedRecord)
        }),
{
    if field_count == 4 {
        Ok(true)
    } else if field_count == 3 {
        Ok(false)
    } else {
        Err(Failure::MalformedRecord)
    }
}

/// The five kinds of input transaction.
#[derive(Clone, Copy, Debug, PartialEq, Eq, Hash, Structural)]
pub enum TxType {
    Deposit,
    Withdrawal,
    Dispute,
    Resolve,
    Chargeback,
}

/// One input record, already parsed into plain values. Amounts are exact
/// fixed-point numbers counted in ten-thousandths of a currency unit, so
/// `50_000` stands for `5.0000`.
#[derive(Clone, Copy, Debug, PartialEq, Structural)]
pub struct Transaction {
    /// Transaction kind.
    pub tx_type: TxType,
    /// The client whose account this transaction addresses.
    pub client_id: u16,
    /// The transaction's own id.
    pub tx_id: u32,
    /// Fixed-point amount in ten-thousandths; zero for disputes, resolves and
    /// chargebacks, whose records carry no amount field.
    pub tx_amount: i64,
}

impl Transaction {
    /// Returns a copy of the transaction's kind and amount.
    pub fn get_data(&self) -> (r: (TxType, i64))
        ensures
            r == (self.tx_type, self.tx_amount),
    {
        (self.tx_type, self.tx_amount)
    }
}

} // verus!
