//! The ledger for one run: every client's account, keyed by client id, plus
//! the name of the input file. Routing sends each incoming transaction to
//! its client's account, creating the account on first sight of the client.

use std::collections::HashMap;
use vstd::prelude::*;
use vstd::string::StringExecFns;

use crate::client::{empty_account_model, spec_apply, Client};
use crate::errors::Failure;
use crate::transaction::Transaction;

verus! {

broadcast use vstd::std_specs::hash::group_hash_axioms;

/// Every account held in the ledger satisfies the account invariant.
pub open spec fn clients_wf(m: Map<u16, Client>) -> bool {
    forall|k: u16| m.dom().contains(k) ==> (#[trigger] m[k]).wf()
}

/// Main state of a run.
pub struct AppState {
    /// Name of the transaction file.
    pub file_name: String,
    /// Map of clients' accounts, by client id.
    pub clients: HashMap<u16, Client>,
}

impl AppState {
    /// A fresh state for the given input file, with no accounts yet.
    pub fn new(file_name: &str) -> (r: AppState)
        ensures
            r.file_name@ == file_name@,
            r.clients@ == Map::<u16, Client>::empty(),
            clients_wf(r.clients@),
    {
        AppState { file_name: String::from_str(file_name), clients: HashMap::new() }
    }

    /// Returns the name of the input file.
    pub fn get_file_name(&self) -> (r: String)
        ensures
            r@ == self.file_name@,
    {
        self.file_name.clone()
    }

    /// Routes one transaction to its client's account. An existing account
    /// steps exactly as [`spec_apply`] says; a client seen for the first
    /// time gets a freshly-zeroed account with the transaction applied, and
    /// no account at all when that first transaction is rejected. Failures
    /// are surfaced for logging and leave every account as it was.
    pub fn route_tx(&mut self, tx: &Transaction) -> (r: Result<(), Failure>)
        requires
            clients_wf(old(self).clients@),
        ensures
            clients_wf(final(self).clients@),
            final(self).file_name == old(self).file_name,
            (forall|k: u16|
                k != tx.client_id && old(self).clients@.dom().contains(k)
                    ==> final(self).clients@.dom().contains(k)
                        && final(self).clients@[k] == old(self).clients@[k]),
            (forall|k: u16|
                k != tx.client_id && !old(self).clients@.dom().contains(k)
                    ==> !final(self).clients@.dom().contains(k)),
            ({
                let existed = old(self).clients@.dom().contains(tx.client_id);
                let pre = if existed {
                    old(self).clients@[tx.client_id]@
                } else {
                    empty_account_model()
                };
                match spec_apply(pre, tx.tx_id, tx.tx_type, tx.tx_amount) {
                    Ok(m) => {
                        &&& r == Result::<(), Failure>::Ok(())
                        &&& final(self).clients@.dom() =~= old(self).clients@.dom().insert(
                            tx.client_id,
                        )
                        &&& final(self).clients@[tx.client_id]@ =~= m
                    },
                    Err(e) => {
                        &&& r == Result::<(), Failure>::Err(e)
                        &&& final(self).clients@.dom() =~= old(self).clients@.dom()
                        &&& (existed ==> final(self).clients@[tx.client_id]@ =~= pre)
                    },
                }
            }),
    {
        match self.clients.remove(&tx.client_id) {
            Some(mut client) => {
                let res = client.process_tx(tx.tx_id, tx.tx_type, tx.tx_amount);
                self.clients.insert(tx.client_id, client);
                res
            },
            None => {
                let mut client = Client::zeroed();
                match client.process_tx(tx.tx_id, tx.tx_type, tx.tx_amount) {
                    Ok(_) => {
                        self.clients.insert(tx.client_id, client);
                        Ok(())
                    },
                    Err(e) => Err(e),
                }
            },
        }
    }
}

} // verus!
