//! The per-client account state machine.
//!
//! A `Client` holds balances, a log of previously accepted deposits and
//! withdrawals, the set of transaction ids currently under dispute, and a
//! frozen flag. Its one operation, [`Client::process_tx`], either mutates the
//! account exactly as [`spec_apply`] says, or fails with a [`Failure`] and
//! leaves the account untouched.

use std::collections::HashMap;
use vstd::prelude::*;
use vstd::string::StringExecFns;

use crate::amount::{
    add_in_range, dec_digits, fits_amount, fixed_point_chars, format_fixed, format_u64,
    sub_in_range,
};
use crate::dispute_set::{
    set_u32_contains, set_u32_elems, set_u32_insert, set_u32_new, set_u32_remove,
};
use crate::errors::Failure;
use crate::transaction::TxType;

verus! {

broadcast use vstd::std_specs::hash::group_hash_axioms;

/// The mathematical state of one account: exact balances, the log of
/// accepted deposits and withdrawals, the set of ids under dispute, the
/// highest accepted id, and the frozen flag.
#[verifier::ext_equal]
pub ghost struct AccountModel {
    /// Balance free for withdrawal, in ten-thousandths.
    pub available: int,
    /// Balance held pending disputes, in ten-thousandths.
    pub held: int,
    /// Total balance; always `available + held` for a well-formed account.
    pub total: int,
    /// Every accepted deposit or withdrawal, by transaction id.
    pub log: Map<u32, (TxType, i64)>,
    /// Transaction ids currently under dispute.
    pub disputed: Set<u32>,
    /// The highest transaction id accepted so far; meaningful only when
    /// `has_prior_tx` holds.
    pub last_tx_id: u32,
    /// Whether any deposit or withdrawal has ever been accepted.
    pub has_prior_tx: bool,
    /// Set permanently by a successful chargeback.
    pub frozen: bool,
}

/// The state of an account that has seen nothing: zero balances, empty log,
/// nothing disputed, not frozen.
pub open spec fn empty_account_model() -> AccountModel {
    AccountModel {
        available: 0,
        held: 0,
        total: 0,
        log: Map::empty(),
        disputed: Set::empty(),
        last_tx_id: 0,
        has_prior_tx: false,
        frozen: false,
    }
}

/// The account invariant: the total is exactly the available plus the held
/// balance, and only logged transactions can be under dispute.
pub open spec fn account_wf(m: AccountModel) -> bool {
    &&& m.total == m.available + m.held
    &&& m.disputed.subset_of(m.log.dom())
}

/// Whether a deposit or withdrawal id is acceptable: it must exceed every id
/// accepted before it.
pub open spec fn tx_id_acceptable(m: AccountModel, tx_id: u32) -> bool {
    !m.has_prior_tx || m.last_tx_id < tx_id
}

/// What applying one transaction to an account state yields: either the next
/// state, or the failure that rejects the transaction and leaves the state
/// unchanged. This is the whole state machine, checks in the order the
/// implementation makes them.
pub open spec fn spec_apply(m: AccountModel, tx_id: u32, kind: TxType, v: i64) -> Result<
    AccountModel,
    Failure,
> {
    if m.frozen {
        Err(Failure::AccountFrozen)
    } else {
        match kind {
            TxType::Deposit => {
                if !tx_id_acceptable(m, tx_id) {
                    Err(Failure::OutOfOrderOrDuplicateTx)
                } else if !fits_amount(m.available + v) || !fits_amount(m.available + v + m.held) {
                    Err(Failure::BalanceOverflow)
                } else {
                    Ok(
                        (AccountModel {
                            available: m.available + v,
                            total: m.available + v + m.held,
                            log: m.log.insert(tx_id, (kind, v)),
                            last_tx_id: tx_id,
                            has_prior_tx: true,
                            ..m
                        }),
                    )
                }
            },
            TxType::Withdrawal => {
                if !tx_id_acceptable(m, tx_id) {
                    Err(Failure::OutOfOrderOrDuplicateTx)
                } else if m.available < v {
                    Err(Failure::InsufficientFunds)
                } else if !fits_amount(m.available - v) || !fits_amount(m.available - v + m.held) {
                    Err(Failure::BalanceOverflow)
                } else {
                    Ok(
                        (AccountModel {
                            available: m.available - v,
                            total: m.available - v + m.held,
                            log: m.log.insert(tx_id, (kind, v)),
                            last_tx_id: tx_id,
                            has_prior_tx: true,
                            ..m
                        }),
                    )
                }
            },
            TxType::Dispute => {
                if m.disputed.contains(tx_id) {
                    Err(Failure::AlreadyDisputed)
                } else if !m.log.dom().contains(tx_id) {
                    Err(Failure::UnknownReference)
                } else {
                    let dv = m.log[tx_id].1;
                    if m.available < dv {
                        Err(Failure::InsufficientFunds)
                    } else if !fits_amount(m.available - dv) || !fits_amount(m.held + dv) {
                        Err(Failure::BalanceOverflow)
                    } else {
                        Ok(
                            (AccountModel {
                                available: m.available - dv,
                                held: m.held + dv,
                                disputed: m.disputed.insert(tx_id),
                                ..m
                            }),
                        )
                    }
                }
            },
            TxType::Resolve => {
                if !m.disputed.contains(tx_id) {
                    Err(Failure::NotDisputed)
                } else if !m.log.dom().contains(tx_id) {
                    Err(Failure::UnknownReference)
                } else {
                    let dv = m.log[tx_id].1;
                    if dv <= m.held {
                        if !fits_amount(m.available + dv) || !fits_amount(m.held - dv) {
                            Err(Failure::BalanceOverflow)
                        } else {
                            Ok(
                                (AccountModel {
                                    available: m.available + dv,
                                    held: m.held - dv,
                                    disputed: m.disputed.remove(tx_id),
                                    ..m
                                }),
                            )
                        }
                    } else {
                        // The disputed amount exceeds what is held, which
                        // an intervening chargeback on another dispute can
                        // bring about: leave the account unchanged rather
                        // than fail.
                        Ok(m)
                    }
                }
            },
            TxType::Chargeback => {
                if !m.disputed.contains(tx_id) {
                    Err(Failure::NotDisputed)
                } else if !m.log.dom().contains(tx_id) {
                    Err(Failure::UnknownReference)
                } else {
                    let dv = m.log[tx_id].1;
                    if dv <= m.held {
                        if !fits_amount(m.held - dv) || !fits_amount(m.total - dv) {
                            Err(Failure::BalanceOverflow)
                        } else {
                            Ok(
                                (AccountModel {
                                    held: m.held - dv,
                                    total: m.total - dv,
                                    disputed: m.disputed.remove(tx_id),
                                    frozen: true,
                                    ..m
                                }),
                            )
                        }
                    } else {
                        Ok(m)
                    }
                }
            },
        }
    }
}

/// The account that routing builds on first sight of a client: a zeroed
/// account with its first transaction applied, or still zeroed when that
/// transaction was rejected.
pub open spec fn spec_new_account(tx_id: u32, kind: TxType, v: i64) -> AccountModel {
    match spec_apply(empty_account_model(), tx_id, kind, v) {
        Ok(m) => m,
        Err(_) => empty_account_model(),
    }
}

/// One client's account.
pub struct Client {
    balance_available: i64,
    balance_held: i64,
    balance_total: i64,
    transactions: HashMap<u32, (TxType, i64)>,
    disputed_tx: tinyset::SetU32,
    previous_tx_id: u32,
    has_prior_tx: bool,
    frozen: bool,
}

impl View for Client {
    type V = AccountModel;

    closed spec fn view(&self) -> AccountModel {
        AccountModel {
            available: self.balance_available as int,
            held: self.balance_held as int,
            total: self.balance_total as int,
            log: self.transactions@,
            disputed: set_u32_elems(self.disputed_tx),
            last_tx_id: self.previous_tx_id,
            has_prior_tx: self.has_prior_tx,
            frozen: self.frozen,
        }
    }
}

impl Client {
    /// The account invariant, stated over the account's model.
    pub open spec fn wf(&self) -> bool {
        account_wf(self@)
    }

    /// A freshly-zeroed account: no balances, no history, not frozen.
    pub fn zeroed() -> (r: Client)
        ensures
            r.wf(),
            r@ =~= empty_account_model(),
    {
        let client = Client {
            balance_available: 0,
            balance_held: 0,
            balance_total: 0,
            transactions: HashMap::new(),
            disputed_tx: set_u32_new(),
            previous_tx_id: 0,
            has_prior_tx: false,
            frozen: false,
        };
        proof {
            assert(client@ =~= empty_account_model());
        }
        client
    }

    /// A new account for a client first seen through the given transaction:
    /// a zeroed account with that transaction applied. When the transaction
    /// is rejected (a dispute of an unknown id, say) the account stays
    /// zeroed.
    pub fn new(tx_id: u32, tx_type: TxType, tx_value: i64) -> (r: Client)
        ensures
            r.wf(),
            r@ =~= spec_new_account(tx_id, tx_type, tx_value),
    {
        let mut client = Client::zeroed();
        let _ = client.process_tx(tx_id, tx_type, tx_value);
        client
    }

    /// Reports whether the account is frozen: `Ok(false)` when it is not,
    /// `AccountFrozen` when it is.
    pub fn account_frozen(&self, _tx_id: u32) -> (r: Result<bool, Failure>)
        ensures
            r == (if self@.frozen {
                Result::<bool, Failure>::Err(Failure::AccountFrozen)
            } else {
                Result::<bool, Failure>::Ok(false)
            }),
    {
        if self.frozen {
            Err(Failure::AccountFrozen)
        } else {
            Ok(self.frozen)
        }
    }

    /// Checks that a deposit or withdrawal id exceeds every id accepted
    /// before it; rejects replays and out-of-order records.
    pub fn check_tx_id(&self, tx_id: u32) -> (r: Result<(), Failure>)
        ensures
            r == (if tx_id_acceptable(self@, tx_id) {
                Result::<(), Failure>::Ok(())
            } else {
                Result::<(), Failure>::Err(Failure::OutOfOrderOrDuplicateTx)
            }),
    {
        if !self.has_prior_tx || self.previous_tx_id < tx_id {
            Ok(())
        } else {
            Err(Failure::OutOfOrderOrDuplicateTx)
        }
    }

    /// Records an accepted deposit or withdrawal in the log and advances the
    /// highest accepted id.
    pub fn log_tx(&mut self, tx_id: u32, tx_type: TxType, tx_value: i64)
        ensures
            final(self)@ =~= (AccountModel {
                log: old(self)@.log.insert(tx_id, (tx_type, tx_value)),
                last_tx_id: tx_id,
                has_prior_tx: true,
                ..old(self)@
            }),
    {
        self.previous_tx_id = tx_id;
        self.has_prior_tx = true;
        self.transactions.insert(tx_id, (tx_type, tx_value));
    }

    /// Checks that the available balance covers a withdrawal or dispute of
    /// the given amount.
    pub fn sufficient_funds(&self, tx_value: i64) -> (r: Result<(), Failure>)
        ensures
            r == (if self@.available >= tx_value {
                Result::<(), Failure>::Ok(())
            } else {
                Result::<(), Failure>::Err(Failure::InsufficientFunds)
            }),
    {
        if self.balance_available >= tx_value {
            Ok(())
        } else {
            Err(Failure::InsufficientFunds)
        }
    }

    /// Checks that a transaction id's dispute status is the expected one:
    /// `AlreadyDisputed` when it is disputed but should not be,
    /// `NotDisputed` when it is not but should be.
    pub fn disputed_status(&self, tx_id: u32, status: bool) -> (r: Result<(), Failure>)
        ensures
            r == (if self@.disputed.contains(tx_id) == status {
                Result::<(), Failure>::Ok(())
            } else if status {
                Result::<(), Failure>::Err(Failure::NotDisputed)
            } else {
                Result::<(), Failure>::Err(Failure::AlreadyDisputed)
            }),
    {
        if set_u32_contains(&self.disputed_tx, tx_id) == status {
            Ok(())
        } else if status {
            Err(Failure::NotDisputed)
        } else {
            Err(Failure::AlreadyDisputed)
        }
    }

    /// Looks a transaction id up in the log and returns its amount, or
    /// `UnknownReference` when it was never accepted here.
    pub fn get_tx_val(&self, tx_id: u32) -> (r: Result<i64, Failure>)
        ensures
            r == (if self@.log.dom().contains(tx_id) {
                Result::<i64, Failure>::Ok(self@.log[tx_id].1)
            } else {
                Result::<i64, Failure>::Err(Failure::UnknownReference)
            }),
    {
        match self.transactions.get(&tx_id) {
            Some(pair) => Ok(pair.1),
            None => Err(Failure::UnknownReference),
        }
    }

    /// Applies one transaction to this account. On success the account steps
    /// to exactly the state [`spec_apply`] gives; on failure the returned
    /// error is exactly the one [`spec_apply`] gives and the account is left
    /// unchanged.
    pub fn process_tx(&mut self, tx_id: u32, tx_type: TxType, tx_value: i64) -> (r: Result<
        (),
        Failure,
    >)
        requires
            old(self).wf(),
        ensures
            final(self).wf(),
            (match spec_apply(old(self)@, tx_id, tx_type, tx_value) {
                Ok(m) => r == Result::<(), Failure>::Ok(()) && final(self)@ =~= m,
                Err(e) => r == Result::<(), Failure>::Err(e) && final(self)@ =~= old(self)@,
            }),
    {
        match self.account_frozen(tx_id) {
            Err(e) => {
                return Err(e);
            },
            Ok(_) => {},
        }
        match tx_type {
            TxType::Deposit => {
                match self.check_tx_id(tx_id) {
                    Err(e) => {
                        return Err(e);
                    },
                    Ok(_) => {},
                }
                let na = match add_in_range(self.balance_available, tx_value) {
                    Some(x) => x,
                    None => {
                        return Err(Failure::BalanceOverflow);
                    },
                };
                let nt = match add_in_range(na, self.balance_held) {
                    Some(x) => x,
                    None => {
                        return Err(Failure::BalanceOverflow);
                    },
                };
                self.balance_available = na;
                self.balance_total = nt;
                self.log_tx(tx_id, tx_type, tx_value);
            },
            TxType::Withdrawal => {
                match self.check_tx_id(tx_id) {
                    Err(e) => {
                        return Err(e);
                    },
                    Ok(_) => {},
                }
                match self.sufficient_funds(tx_value) {
                    Err(e) => {
                        return Err(e);
                    },
                    Ok(_) => {},
                }
                let na = match sub_in_range(self.balance_available, tx_value) {
                    Some(x) => x,
                    None => {
                        return Err(Failure::BalanceOverflow);
                    },
                };
                let nt = match add_in_range(na, self.balance_held) {
                    Some(x) => x,
                    None => {
                        return Err(Failure::BalanceOverflow);
                    },
                };
                self.balance_available = na;
                self.balance_total = nt;
                self.log_tx(tx_id, tx_type, tx_value);
            },
            TxType::Dispute => {
                match self.disputed_status(tx_id, false) {
                    Err(e) => {
                        return Err(e);
                    },
                    Ok(_) => {},
                }
                let dv = match self.get_tx_val(tx_id) {
                    Ok(x) => x,
                    Err(e) => {
                        return Err(e);
                    },
                };
                match self.sufficient_funds(dv) {
                    Err(e) => {
                        return Err(e);
                    },
                    Ok(_) => {},
                }
                let na = match sub_in_range(self.balance_available, dv) {
                    Some(x) => x,
                    None => {
                        return Err(Failure::BalanceOverflow);
                    },
                };
                let nh = match add_in_range(self.balance_held, dv) {
                    Some(x) => x,
                    None => {
                        return Err(Failure::BalanceOverflow);
                    },
                };
                self.balance_available = na;
                self.balance_held = nh;
                let _ = set_u32_insert(&mut self.disputed_tx, tx_id);
            },
            TxType::Resolve => {
                match self.disputed_status(tx_id, true) {
                    Err(e) => {
                        return Err(e);
                    },
                    Ok(_) => {},
                }
                let dv = match self.get_tx_val(tx_id) {
                    Ok(x) => x,
                    Err(e) => {
                        return Err(e);
                    },
                };
                if dv <= self.balance_held {
                    let na = match add_in_range(self.balance_available, dv) {
                        Some(x) => x,
                        None => {
                            return Err(Failure::BalanceOverflow);
                        },
                    };
                    let nh = match sub_in_range(self.balance_held, dv) {
                        Some(x) => x,
                        None => {
                            return Err(Failure::BalanceOverflow);
                        },
                    };
                    self.balance_available = na;
                    self.balance_held = nh;
                    let _ = set_u32_remove(&mut self.disputed_tx, tx_id);
                }
            },
            TxType::Chargeback => {
                match self.disputed_status(tx_id, true) {
                    Err(e) => {
                        return Err(e);
                    },
                    Ok(_) => {},
                }
                let dv = match self.get_tx_val(tx_id) {
                    Ok(x) => x,
                    Err(e) => {
                        return Err(e);
                    },
                };
                if dv <= self.balance_held {
                    let nh = match sub_in_range(self.balance_held, dv) {
                        Some(x) => x,
                        None => {
                            return Err(Failure::BalanceOverflow);
                        },
                    };
                    let nt = match sub_in_range(self.balance_total, dv) {
                        Some(x) => x,
                        None => {
                            return Err(Failure::BalanceOverflow);
                        },
                    };
                    self.frozen = true;
                    self.balance_held = nh;
                    self.balance_total = nt;
                    let _ = set_u32_remove(&mut self.disputed_tx, tx_id);
                }
            },
        }
        Ok(())
    }

    /// The account's snapshot row: the client id, the three balances
    /// rendered with exactly four fractional digits, and the frozen flag.
    pub fn get_acc(&self, client_id: u16) -> (r: Vec<String>)
        ensures
            r@.len() == 5,
            r@[0]@ == dec_digits(client_id as nat),
            r@[1]@ == fixed_point_chars(self@.available),
            r@[2]@ == fixed_point_chars(self@.held),
            r@[3]@ == fixed_point_chars(self@.total),
            r@[4]@ == (if self@.frozen {
                "true"@
            } else {
                "false"@
            }),
    {
        let mut rows: Vec<String> = Vec::new();
        rows.push(format_u64(client_id as u64));
        rows.push(format_fixed(self.balance_available));
        rows.push(format_fixed(self.balance_held));
        rows.push(format_fixed(self.balance_total));
        rows.push(
            if self.frozen {
                String::from_str("true")
            } else {
                String::from_str("false")
            },
        );
        rows
    }
}

/// Law: applying any transaction to a well-formed account yields a
/// well-formed account; in particular the available and held balances always
/// sum exactly to the total.
pub proof fn lemma_balance_invariant(m: AccountModel, tx_id: u32, kind: TxType, v: i64)
    requires
        account_wf(m),
    ensures
        (match spec_apply(m, tx_id, kind, v) {
            Ok(m2) => account_wf(m2) && m2.total == m2.available + m2.held,
            Err(_) => true,
        }),
{
}

/// Law: a deposit or withdrawal whose id does not exceed the highest id the
/// account has accepted is rejected — as out of order, or as frozen when the
/// account no longer accepts anything at all — and so never mutates state.
pub proof fn lemma_monotonic_tx_ids(m: AccountModel, tx_id: u32, kind: TxType, v: i64)
    requires
        m.has_prior_tx,
        tx_id <= m.last_tx_id,
        kind == TxType::Deposit || kind == TxType::Withdrawal,
    ensures
        spec_apply(m, tx_id, kind, v) == Result::<AccountModel, Failure>::Err(
            if m.frozen {
                Failure::AccountFrozen
            } else {
                Failure::OutOfOrderOrDuplicateTx
            },
        ),
{
}

/// Law: once an account is frozen, every transaction of every kind is
/// rejected with `AccountFrozen`, so nothing ever mutates it again.
pub proof fn lemma_freeze_terminal(m: AccountModel, tx_id: u32, kind: TxType, v: i64)
    requires
        m.frozen,
    ensures
        spec_apply(m, tx_id, kind, v) == Result::<AccountModel, Failure>::Err(
            Failure::AccountFrozen,
        ),
{
}

} // verus!
