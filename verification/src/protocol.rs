//! What callers send and what they are answered.
//!
//! A caller sends only what derives from L1. The L2 side of a proof comes from the
//! local node, never from the caller.

use vstd::prelude::*;

use crate::primitives::{Address, B256};

verus! {

/// Schema of a request to prove one proposal.
pub const RETH_TDX_SHASTA_REQUEST_SCHEMA: &'static str = "reth-tdx-shasta-request-v1";

/// Schema of a request to aggregate sub-proofs.
pub const RETH_TDX_SHASTA_AGGREGATE_REQUEST_SCHEMA: &'static str = "reth-tdx-shasta-aggregate-request-v1";

/// Schema of the responses of both endpoints.
pub const RETH_TDX_PROOF_RESPONSE_SCHEMA: &'static str = "reth-tdx-proof-v1";

/// The transition of a proposal, from its L1 event.
#[derive(Debug, Clone, Copy)]
pub struct ShastaTransitionInput {
    /// Who proposed.
    pub proposer: Address,
    /// When.
    pub timestamp: u64,
}

/// The L2 state that a proof vouches for.
#[derive(Debug, Clone, Copy)]
pub struct Checkpoint {
    /// Block number.
    pub block_number: u64,
    /// Block hash.
    pub block_hash: B256,
    /// State root after executing the block.
    pub state_root: B256,
}

/// One transition as a commitment holds it.
#[derive(Debug, Clone, Copy)]
pub struct TransitionInputData {
    /// Proposal id.
    pub proposal_id: u64,
    /// Proposal hash.
    pub proposal_hash: B256,
    /// Hash of the parent proposal.
    pub parent_proposal_hash: B256,
    /// Hash of the parent L2 block.
    pub parent_block_hash: B256,
    /// Who submits the proof.
    pub actual_prover: Address,
    /// The transition.
    pub transition: ShastaTransitionInput,
    /// The L2 state.
    pub checkpoint: Checkpoint,
}

/// All that the commitment of a proof is built from.
#[derive(Debug, Clone, Copy)]
pub struct ProofCarryData {
    /// L2 chain id.
    pub chain_id: u64,
    /// Address of the on-chain verifier.
    pub verifier: Address,
    /// The transition.
    pub transition_input: TransitionInputData,
}

/// What the signing hash of a commitment is taken over: the carry data that the
/// commitment is built from, and what the hash binds beside it.
#[derive(Debug)]
pub struct CommitmentRequest {
    /// The carry data, in order.
    pub carry_data_vec: Vec<ProofCarryData>,
    /// L2 chain id.
    pub chain_id: u64,
    /// Address of the on-chain verifier.
    pub verifier: Address,
    /// Address of the prover.
    pub instance: Address,
}

/// Envelope of a request to prove one proposal.
#[derive(Debug)]
pub struct ShastaProveRequest {
    /// Has to be [`RETH_TDX_SHASTA_REQUEST_SCHEMA`].
    pub schema: String,
    /// The proposal.
    pub payload: ShastaProvePayload,
}

/// A proposal, as L1 has it.
#[derive(Debug, Clone, Copy)]
pub struct ShastaProvePayload {
    /// L2 chain id. Has to be the configured one.
    pub chain_id: u64,
    /// Address of the on-chain verifier. Has to be the configured one.
    pub verifier: Address,
    /// Proposal id, which is the number of the L2 block as well.
    pub proposal_id: u64,
    /// Proposal hash.
    pub proposal_hash: B256,
    /// Hash of the parent proposal.
    pub parent_proposal_hash: B256,
    /// Who submits the proof.
    pub actual_prover: Address,
    /// Proposer and timestamp from the L1 event.
    pub transition: ShastaTransitionInput,
}

/// Envelope of a request to aggregate sub-proofs.
#[derive(Debug)]
pub struct ShastaAggregateRequest {
    /// Has to be [`RETH_TDX_SHASTA_AGGREGATE_REQUEST_SCHEMA`].
    pub schema: String,
    /// The sub-proofs.
    pub payload: ShastaAggregatePayload,
}

/// Sub-proofs to aggregate.
#[derive(Debug)]
pub struct ShastaAggregatePayload {
    /// One entry per sub-proof.
    pub proofs: Vec<ShastaAggregateProof>,
}

/// A sub-proof that was signed before.
#[derive(Debug)]
pub struct ShastaAggregateProof {
    /// The proposal it is a proof of.
    pub payload: ShastaProvePayload,
    /// The hash that was signed.
    pub input: B256,
    /// Hex-encoded 89-byte proof.
    pub proof: String,
}

/// Envelope of the responses of both endpoints.
#[derive(Debug)]
pub struct ProofResponse {
    /// [`RETH_TDX_PROOF_RESPONSE_SCHEMA`].
    pub schema: String,
    /// Whether there is a result or an error.
    pub status: ProofStatus,
    /// Present on success.
    pub result: Option<ProofResult>,
    /// Present on error.
    pub error: Option<ProofError>,
}

/// Whether a proof was made.
#[derive(Debug, Clone, Copy, PartialEq, Eq, Structural)]
pub enum ProofStatus {
    /// A proof was made.
    Success,
    /// None was made.
    Error,
}

/// A proof, as it is answered.
#[derive(Debug)]
pub struct ProofResult {
    /// Hex-encoded 89-byte proof.
    pub proof: String,
    /// Hex-encoded attestation quote over the signed hash.
    pub quote: String,
    /// Hex-encoded hash that was signed.
    pub input: String,
    /// Address of the prover.
    pub instance_address: Option<String>,
    /// The carry data that the signed commitment was built from: one entry for a
    /// proposal, one per sub-proof in their order for an aggregation.
    pub proof_carry_data_vec: Option<Vec<ProofCarryData>>,
}

/// Why there is no proof, as it is answered.
#[derive(Debug)]
pub struct ProofError {
    /// Short machine-readable code.
    pub code: String,
    /// Human-readable explanation.
    pub message: String,
}

/// The public bootstrap record, as it is answered.
#[derive(Debug)]
pub struct BootstrapResponse {
    /// One of `tdx`, `azure`, `gcp`, `simulator`.
    pub issuer_type: String,
    /// Address of the prover.
    pub public_key: String,
    /// Hex-encoded attestation quote over the address.
    pub quote: String,
    /// Hex-encoded nonce that the quote is bound to.
    pub nonce: String,
    /// Issuer-specific metadata.
    pub metadata: serde_json::Value,
}

} // verus!
