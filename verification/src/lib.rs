//! Core engine of a proof-of-work mining client: partitioned nonce search
//! against a difficulty target, resource-slot ("bus") and priority-fee
//! selection, and the bounded retry state machine that submits and confirms
//! transactions against a remote ledger.

pub mod advisory;
pub mod messages;
pub mod orchestrate;
pub mod search;
pub mod select;
pub mod submit;

use vstd::prelude::*;

verus! {

/// Configuration of one mining client: where to send requests, which key file
/// signs, the static priority fee, and the retry budgets of the submission
/// engine.
pub struct Miner {
    pub keypair_filepath: Option<String>,
    pub priority_fee: u64,
    pub cluster: String,
    pub confirm_retries: usize,
    pub confirm_interval: usize,
    pub gateway_retries: usize,
}

impl Miner {
    /// Builds a miner configuration out of the given settings, unchanged.
    pub fn new(
        cluster: String,
        priority_fee: u64,
        keypair_filepath: Option<String>,
        confirm_retries: usize,
        confirm_interval: usize,
        gateway_retries: usize,
    ) -> (m: Self)
        ensures
            m.cluster == cluster,
            m.priority_fee == priority_fee,
            m.keypair_filepath == keypair_filepath,
            m.confirm_retries == confirm_retries,
            m.confirm_interval == confirm_interval,
            m.gateway_retries == gateway_retries,
    {
        Self {
            keypair_filepath,
            priority_fee,
            cluster,
            confirm_retries,
            confirm_interval,
            gateway_retries,
        }
    }
}

} // verus!
