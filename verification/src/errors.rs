//! The ways a transaction can be rejected.

use vstd::prelude::*;

verus! {

/// Why a transaction was rejected. A rejected transaction never changes any
/// account state and is never retried.
#[derive(Clone, Copy, Debug, PartialEq, Eq, Structural)]
pub enum Failure {
    /// The account has been frozen by an earlier chargeback; it accepts
    /// nothing further.
    AccountFrozen,
    /// A deposit or withdrawal carried a transaction id at or below the
    /// highest one this account has accepted.
    OutOfOrderOrDuplicateTx,
    /// A withdrawal or dispute asked for more than the available balance.
    InsufficientFunds,
    /// A dispute, resolve or chargeback referenced a transaction id absent
    /// from the account's log.
    UnknownReference,
    /// A dispute referenced a transaction that is already under dispute.
    AlreadyDisputed,
    /// A resolve or chargeback referenced a transaction not under dispute.
    NotDisputed,
    /// An input record did not have an accepted shape; the stream as a whole
    /// is malformed.
    MalformedRecord,
    /// Applying the transaction would push a balance outside the range that
    /// fixed-point arithmetic can represent exactly.
    BalanceOverflow,
}

} // verus!
