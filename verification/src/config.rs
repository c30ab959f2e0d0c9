//! Configuration of the prover.
//!
//! The URL of the L2 node is no part of it: it is fixed to the node that ships in
//! the same image. An operator who could name another node could have the prover
//! sign what an untrusted node says.

use vstd::prelude::*;

use crate::primitives::Address;

verus! {

/// JSON-RPC URL of the co-resident L2 node.
pub const LOCAL_L2_RPC_URL: &'static str = "http://127.0.0.1:8547";

/// What the prover is started with.
#[derive(Debug)]
pub struct Config {
    /// Path of the Unix socket of the attestation daemon.
    pub tdxs_socket: String,
    /// Directory that stands in for the home directory.
    pub home: Option<String>,
    /// Instance id in the proofs.
    pub instance_id: u32,
    /// L2 chain id.
    pub l2_chain_id: u64,
    /// Address of the on-chain verifier.
    pub verifier: Address,
}

} // verus!
