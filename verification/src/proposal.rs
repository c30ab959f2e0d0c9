//! Proving one proposal.
//!
//! The caller's L1 fields and the local L2 block make up the carry data; the hash of
//! its commitment is signed, and a quote is asked for over the same hash. Each type
//! here is a proposal at one stage; it says what is needed next, and takes what came
//! of that to the following stage:
//!
//! [`sign_proposal`] -> [`ProposalBlock`] -> [`ProposalKey`] -> [`ProposalHash`] ->
//! [`ProposalQuote`] -> [`SignedProposal`].

use vstd::prelude::*;

use crate::attestation;
use crate::attestation::IssueResponse;
use crate::config::Config;
use crate::error::{Context, Error};
use crate::hex_text;
use crate::l2_client::L2BlockHeader;
use crate::persistence;
use crate::primitives;
use crate::primitives::{Address, B256};
use crate::protocol::{
    Checkpoint, CommitmentRequest, ProofCarryData, ProofResult, ShastaProvePayload,
    TransitionInputData, RETH_TDX_PROOF_RESPONSE_SCHEMA,
};
use crate::signature;
use crate::signature::{address_from_private_key, SecretKey};
use crate::tdx_proof;
use crate::tdx_proof::{prove, PendingProof};

verus! {

/// Schema of every response.
pub const RESPONSE_SCHEMA: &'static str = RETH_TDX_PROOF_RESPONSE_SCHEMA;

/// A proof with all that a caller needs to submit it.
#[derive(Debug)]
pub struct SignedProposal {
    /// 89-byte proof, in hexadecimal with a prefix.
    pub proof: String,
    /// Attestation quote, in hexadecimal.
    pub quote: String,
    /// The hash that was signed, in hexadecimal with a prefix.
    pub input: String,
    /// Address of the prover.
    pub instance_address: String,
    /// The carry data that the signed commitment was built from.
    pub carry_data_vec: Vec<ProofCarryData>,
}

impl SignedProposal {
    /// Whether this writes down a proof, its quote, the hash that was signed, the
    /// prover and the carry data.
    pub open spec fn writes(
        self,
        proof_bytes: Seq<u8>,
        quote: Seq<u8>,
        hash: B256,
        instance: Address,
        carry_data: Seq<ProofCarryData>,
    ) -> bool {
        &&& self.proof@ == "0x"@ + hex_text::hex_text(proof_bytes)
        &&& self.quote@ == hex_text::hex_text(quote)
        &&& self.input@ == primitives::word_text(hash@)
        &&& self.instance_address@ == primitives::checksum_text(instance@)
        &&& self.carry_data_vec@ == carry_data
    }

    /// Writes down a proof.
    pub(crate) fn write(
        proof_bytes: &[u8],
        quote: &[u8],
        hash: B256,
        instance: Address,
        carry_data_vec: Vec<ProofCarryData>,
    ) -> (signed: SignedProposal)
        ensures
            signed.writes(proof_bytes@, quote@, hash, instance, carry_data_vec@),
    {
        let mut text = "0x".to_owned();
        text.append(hex_text::encode(proof_bytes).as_str());
        SignedProposal {
            proof: text,
            quote: hex_text::encode(quote),
            input: hash.to_string(),
            instance_address: instance.to_string(),
            carry_data_vec,
        }
    }
}

/// Why a payload is not for this prover, if it is not.
pub open spec fn payload_fault(config: Config, payload: ShastaProvePayload) -> Option<Error> {
    if payload.chain_id != config.l2_chain_id {
        Some(
            Error::ChainIdMismatch { requested: payload.chain_id, configured: config.l2_chain_id },
        )
    } else if payload.verifier != config.verifier {
        Some(
            Error::VerifierMismatch {
                requested_verifier: payload.verifier,
                configured_verifier: config.verifier,
            },
        )
    } else {
        None
    }
}

/// Holds the chain id and the verifier of a payload against the configured ones.
pub fn validate_payload(config: &Config, payload: &ShastaProvePayload) -> (result: Result<
    (),
    Error,
>)
    ensures
        match result {
            Ok(_) => payload_fault(*config, *payload) is None,
            Err(error) => payload_fault(*config, *payload) == Some(error),
        },
{
    if payload.chain_id != config.l2_chain_id {
        return Err(
            Error::ChainIdMismatch { requested: payload.chain_id, configured: config.l2_chain_id },
        );
    }
    if payload.verifier != config.verifier {
        return Err(
            Error::VerifierMismatch {
                requested_verifier: payload.verifier,
                configured_verifier: config.verifier,
            },
        );
    }
    Ok(())
}

/// The carry data of a proposal: what derives from L1 is the caller's, what derives
/// from L2 is the local header's.
pub open spec fn carry_data(payload: ShastaProvePayload, header: L2BlockHeader) -> ProofCarryData {
    ProofCarryData {
        chain_id: payload.chain_id,
        verifier: payload.verifier,
        transition_input: TransitionInputData {
            proposal_id: payload.proposal_id,
            proposal_hash: payload.proposal_hash,
            parent_proposal_hash: payload.parent_proposal_hash,
            parent_block_hash: header.parent_hash,
            actual_prover: payload.actual_prover,
            transition: payload.transition,
            checkpoint: Checkpoint {
                block_number: header.number,
                block_hash: header.hash,
                state_root: header.state_root,
            },
        },
    }
}

/// Combines the caller's L1 fields with the local L2 header.
pub fn proposal_carry_data_from_header(
    payload: &ShastaProvePayload,
    header: &L2BlockHeader,
) -> (carry: ProofCarryData)
    ensures
        carry == carry_data(*payload, *header),
{
    ProofCarryData {
        chain_id: payload.chain_id,
        verifier: payload.verifier,
        transition_input: TransitionInputData {
            proposal_id: payload.proposal_id,
            proposal_hash: payload.proposal_hash,
            parent_proposal_hash: payload.parent_proposal_hash,
            parent_block_hash: header.parent_hash,
            actual_prover: payload.actual_prover,
            transition: payload.transition,
            checkpoint: Checkpoint {
                block_number: header.number,
                block_hash: header.hash,
                state_root: header.state_root,
            },
        },
    }
}

/// A proposal whose L2 block is to be fetched.
#[derive(Debug)]
pub struct ProposalBlock {
    /// Instance id of the proof.
    pub instance_id: u32,
    /// The proposal.
    pub payload: ShastaProvePayload,
}

/// A proposal for which the key is to be read.
#[derive(Debug)]
pub struct ProposalKey {
    /// Instance id of the proof.
    pub instance_id: u32,
    /// The proposal.
    pub payload: ShastaProvePayload,
    /// Its L2 block.
    pub header: L2BlockHeader,
}

/// What a proposal consists of when its signing hash is to be computed.
pub struct ProposalHashView {
    /// Instance id of the proof.
    pub instance_id: u32,
    /// The key.
    pub secret: Seq<u8>,
    /// Address of the key.
    pub instance: Address,
    /// The carry data.
    pub carry: ProofCarryData,
}

/// A proposal whose signing hash is to be computed.
pub struct ProposalHash {
    instance_id: u32,
    private_key: SecretKey,
    instance: Address,
    carry: ProofCarryData,
}

impl View for ProposalHash {
    type V = ProposalHashView;

    closed spec fn view(&self) -> ProposalHashView {
        ProposalHashView {
            instance_id: self.instance_id,
            secret: self.private_key@,
            instance: self.instance,
            carry: self.carry,
        }
    }
}

/// A proposal that is signed and whose quote is to be issued.
#[derive(Debug)]
pub struct ProposalQuote {
    /// The proof, and the request for its quote.
    pub pending: PendingProof,
    /// The hash that was signed.
    pub signing_hash: B256,
    /// Address of the prover.
    pub instance: Address,
    /// The carry data.
    pub carry: ProofCarryData,
}

/// Begins to prove a proposal, if it is for this prover.
pub fn sign_proposal(config: &Config, payload: ShastaProvePayload) -> (result: Result<
    ProposalBlock,
    Error,
>)
    ensures
        match result {
            Ok(stage) => {
                &&& payload_fault(*config, payload) is None
                &&& stage.payload == payload
                &&& stage.instance_id == config.instance_id
            },
            Err(error) => payload_fault(*config, payload) == Some(error),
        },
{
    match validate_payload(config, &payload) {
        Ok(_) => Ok(ProposalBlock { instance_id: config.instance_id, payload }),
        Err(error) => Err(error),
    }
}

impl ProposalBlock {
    /// The number of the L2 block to fetch: the proposal id.
    pub fn block_number(&self) -> (number: u64)
        ensures
            number == self.payload.proposal_id,
    {
        self.payload.proposal_id
    }

    /// Goes on with what came of fetching the block.
    pub fn with_header(self, header: Result<L2BlockHeader, Error>) -> (result: Result<
        ProposalKey,
        Error,
    >)
        ensures
            match header {
                Ok(header) => {
                    &&& result is Ok
                    &&& result->Ok_0.instance_id == self.instance_id
                    &&& result->Ok_0.payload == self.payload
                    &&& result->Ok_0.header == header
                },
                Err(error) => result == Err::<ProposalKey, Error>(
                    error.within(Context::FetchBlock { number: self.payload.proposal_id }),
                ),
            },
    {
        match header {
            Ok(header) => Ok(
                ProposalKey { instance_id: self.instance_id, payload: self.payload, header },
            ),
            Err(error) => Err(
                error.context(Context::FetchBlock { number: self.payload.proposal_id }),
            ),
        }
    }
}

impl ProposalKey {
    /// Goes on with what came of reading the key file.
    pub fn with_key(self, contents: Result<Vec<u8>, Error>) -> (result: Result<
        ProposalHash,
        Error,
    >)
        ensures
            match contents {
                Err(error) => result == Err::<ProposalHash, Error>(
                    error.within(Context::LoadKey),
                ),
                Ok(bytes) => match result {
                    Ok(stage) => {
                        &&& signature::is_secret(bytes@)
                        &&& stage@.instance_id == self.instance_id
                        &&& stage@.secret == bytes@
                        &&& stage@.instance@ == signature::secret_address(bytes@)
                        &&& stage@.carry == carry_data(self.payload, self.header)
                    },
                    Err(error) => {
                        &&& !signature::is_secret(bytes@)
                        &&& error == Error::InvalidPrivateKey.within(Context::LoadKey)
                    },
                },
            },
    {
        let private_key = match persistence::load_private_key(contents) {
            Ok(private_key) => private_key,
            Err(error) => return Err(error.context(Context::LoadKey)),
        };
        let instance = address_from_private_key(&private_key);
        let carry = proposal_carry_data_from_header(&self.payload, &self.header);
        Ok(ProposalHash { instance_id: self.instance_id, private_key, instance, carry })
    }
}

impl ProposalHash {
    #[verifier::type_invariant]
    spec fn well_formed(self) -> bool {
        self.instance@ == signature::secret_address(self.private_key@)
    }

    /// What the signing hash is to be taken over.
    pub fn commitment_request(&self) -> (request: CommitmentRequest)
        ensures
            request.carry_data_vec@ == seq![self@.carry],
            request.chain_id == self@.carry.chain_id,
            request.verifier == self@.carry.verifier,
            request.instance == self@.instance,
    {
        let carry_data_vec = vec![self.carry];
        assert(carry_data_vec@ =~= seq![self.carry]);
        CommitmentRequest {
            carry_data_vec,
            chain_id: self.carry.chain_id,
            verifier: self.carry.verifier,
            instance: self.instance,
        }
    }

    /// Goes on with the signing hash, or with there being no commitment: signs it and
    /// asks for a quote over it.
    pub fn with_hash(self, hash: Option<B256>) -> (result: Result<ProposalQuote, Error>)
        ensures
            match hash {
                None => result == Err::<ProposalQuote, Error>(Error::NoCommitment),
                Some(hash) => {
                    &&& result is Ok
                    &&& result->Ok_0.pending.is_over(self@.instance_id, self@.secret, hash@)
                    &&& tdx_proof::is_signed_by(
                        result->Ok_0.pending.proof@,
                        hash@,
                        self@.instance,
                    )
                    &&& result->Ok_0.signing_hash == hash
                    &&& result->Ok_0.instance == self@.instance
                    &&& result->Ok_0.carry == self@.carry
                },
            },
    {
        proof {
            use_type_invariant(&self);
        }
        let hash = match hash {
            Some(hash) => hash,
            None => return Err(Error::NoCommitment),
        };
        proof {
            primitives::address_is_its_bytes(self.instance);
        }
        match prove(self.instance_id, &self.private_key, hash) {
            Ok(pending) => Ok(
                ProposalQuote {
                    pending,
                    signing_hash: hash,
                    instance: self.instance,
                    carry: self.carry,
                },
            ),
            Err(error) => Err(error.context(Context::ProposalProof)),
        }
    }
}

impl ProposalQuote {
    /// Ends with what came of the request for the quote.
    pub fn with_quote(self, reply: Result<IssueResponse, Error>) -> (result: Result<
        SignedProposal,
        Error,
    >)
        ensures
            match attestation::document(reply) {
                Ok(quote) => {
                    &&& result is Ok
                    &&& result->Ok_0.writes(
                        self.pending.proof@,
                        quote,
                        self.signing_hash,
                        self.instance,
                        seq![self.carry],
                    )
                },
                Err(error) => result == Err::<SignedProposal, Error>(
                    error.within(Context::ProposalProof),
                ),
            },
    {
        let data = match self.pending.complete(reply) {
            Ok(data) => data,
            Err(error) => return Err(error.context(Context::ProposalProof)),
        };
        let carry_data_vec = vec![self.carry];
        assert(carry_data_vec@ =~= seq![self.carry]);
        Ok(
            SignedProposal::write(
                data.proof.as_slice(),
                data.quote.as_slice(),
                self.signing_hash,
                self.instance,
                carry_data_vec,
            ),
        )
    }
}

/// A signed proposal, as it is answered.
pub open spec fn proof_result(signed: SignedProposal) -> ProofResult {
    ProofResult {
        proof: signed.proof,
        quote: signed.quote,
        input: signed.input,
        instance_address: Some(signed.instance_address),
        proof_carry_data_vec: Some(signed.carry_data_vec),
    }
}

impl From<SignedProposal> for ProofResult {
    fn from(value: SignedProposal) -> (result: Self) {
        ProofResult {
            proof: value.proof,
            quote: value.quote,
            input: value.input,
            instance_address: Some(value.instance_address),
            proof_carry_data_vec: Some(value.carry_data_vec),
        }
    }
}

impl vstd::std_specs::convert::FromSpecImpl<SignedProposal> for ProofResult {
    open spec fn obeys_from_spec() -> bool {
        true
    }

    open spec fn from_spec(value: SignedProposal) -> ProofResult {
        proof_result(value)
    }
}

/// The proof text of an answer reads as a proof of the wire size that has the instance
/// id, names the prover and carries its signature over the hash that the answer names;
/// the quote asked for is over that hash too.
pub proof fn answered_proof_is_by_the_prover(
    signed: SignedProposal,
    instance_id: u32,
    secret: Seq<u8>,
    hash: B256,
    pending: PendingProof,
    quote: Seq<u8>,
    instance: Address,
    carry_data: Seq<ProofCarryData>,
)
    requires
        instance@ == signature::secret_address(secret),
        pending.is_over(instance_id, secret, hash@),
        signed.writes(pending.proof@, quote, hash, instance, carry_data),
    ensures
        hex_text::prefixed_hex_bytes(signed.proof@) is Ok,
        tdx_proof::proof_instance_id(hex_text::prefixed_hex_bytes(signed.proof@)->Ok_0)
            == instance_id,
        tdx_proof::is_signed_by(
            hex_text::prefixed_hex_bytes(signed.proof@)->Ok_0,
            hash@,
            instance,
        ),
        hex_text::prefixed_hex_bytes(signed.input@) == Ok::<Seq<u8>, hex_text::HexError>(hash@),
        pending.quote.is_over(hash@),
{
    let bytes = pending.proof@;
    hex_text::decode_prefixed_reads_what_encode_writes(bytes);
    hex_text::decode_prefixed_reads_what_encode_writes(hash@);
    primitives::address_is_its_bytes(instance);
    assert(bytes.subrange(0, 4) =~= tdx_proof::be_bytes(instance_id));
    tdx_proof::lemma_big_endian_of_four(tdx_proof::be_bytes(instance_id));
}

/// The L2 side of the carry data is the local header's alone: whatever two callers
/// send, with the same header it is the same.
pub proof fn l2_fields_are_never_the_callers(
    payload: ShastaProvePayload,
    other: ShastaProvePayload,
    header: L2BlockHeader,
)
    ensures
        carry_data(payload, header).transition_input.parent_block_hash == carry_data(
            other,
            header,
        ).transition_input.parent_block_hash,
        carry_data(payload, header).transition_input.checkpoint == carry_data(
            other,
            header,
        ).transition_input.checkpoint,
{
}

/// The carry data of an admitted proposal is for the configured chain and verifier,
/// whatever the header.
pub proof fn carry_data_is_for_the_configured_deployment(
    config: Config,
    payload: ShastaProvePayload,
    header: L2BlockHeader,
)
    requires
        payload_fault(config, payload) is None,
    ensures
        carry_data(payload, header).chain_id == config.l2_chain_id,
        carry_data(payload, header).verifier == config.verifier,
{
}

/// Each field of the carry data that derives from L1 is the caller's, and each that
/// derives from L2 is the header's.
pub proof fn carry_data_keeps_each_field(payload: ShastaProvePayload, header: L2BlockHeader)
    ensures
        ({
            let carry = carry_data(payload, header);
            let input = carry.transition_input;
            &&& carry.chain_id == payload.chain_id
            &&& carry.verifier == payload.verifier
            &&& input.proposal_id == payload.proposal_id
            &&& input.proposal_hash == payload.proposal_hash
            &&& input.parent_proposal_hash == payload.parent_proposal_hash
            &&& input.actual_prover == payload.actual_prover
            &&& input.transition.proposer == payload.transition.proposer
            &&& input.transition.timestamp == payload.transition.timestamp
            &&& input.parent_block_hash == header.parent_hash
            &&& input.checkpoint.block_number == header.number
            &&& input.checkpoint.block_hash == header.hash
            &&& input.checkpoint.state_root == header.state_root
        }),
{
}

/// Nothing of a request or of a header is lost in the carry data: where it is the same,
/// both were the same.
pub proof fn carry_data_tells_all_apart(
    payload: ShastaProvePayload,
    header: L2BlockHeader,
    other_payload: ShastaProvePayload,
    other_header: L2BlockHeader,
)
    requires
        carry_data(payload, header) == carry_data(other_payload, other_header),
    ensures
        payload == other_payload,
        header == other_header,
{
}

/// A payload is for this prover exactly where its chain and its verifier are the
/// configured ones; where one is not, the refusal names both, the chain before the
/// verifier.
pub proof fn only_the_configured_deployment_is_served(config: Config, payload: ShastaProvePayload)
    ensures
        payload_fault(config, payload) is None <==> payload.chain_id == config.l2_chain_id
            && payload.verifier == config.verifier,
        payload.chain_id != config.l2_chain_id ==> payload_fault(config, payload) == Some(
            Error::ChainIdMismatch { requested: payload.chain_id, configured: config.l2_chain_id },
        ),
        payload.chain_id == config.l2_chain_id && payload.verifier != config.verifier
            ==> payload_fault(config, payload) == Some(
            Error::VerifierMismatch {
                requested_verifier: payload.verifier,
                configured_verifier: config.verifier,
            },
        ),
{
}

/// What is written down is read back: the proof, the quote, the hash and the address of
/// the prover from their texts, and the carry data as it is.
pub proof fn written_proof_reads_back(
    signed: SignedProposal,
    proof_bytes: Seq<u8>,
    quote: Seq<u8>,
    hash: B256,
    instance: Address,
    carry_data: Seq<ProofCarryData>,
)
    requires
        signed.writes(proof_bytes, quote, hash, instance, carry_data),
    ensures
        hex_text::prefixed_hex_bytes(signed.proof@) == Ok::<Seq<u8>, hex_text::HexError>(
            proof_bytes,
        ),
        signed.proof@.len() == 2 + 2 * proof_bytes.len(),
        signed.proof@[0] == '0',
        signed.proof@[1] == 'x',
        hex_text::hex_bytes(vstd::utf8::encode_utf8(signed.quote@)) == Ok::<
            Seq<u8>,
            hex_text::HexError,
        >(quote),
        signed.quote@ == hex_text::hex_text(quote),
        hex_text::prefixed_hex_bytes(signed.input@) == Ok::<Seq<u8>, hex_text::HexError>(hash@),
        signed.input@ == "0x"@ + hex_text::hex_text(hash@),
        primitives::address_from_text(vstd::utf8::encode_utf8(signed.instance_address@)) == Ok::<
            Seq<u8>,
            hex_text::HexError,
        >(instance@),
        signed.instance_address@ == primitives::checksum_text(instance@),
        signed.carry_data_vec@ == carry_data,
{
    reveal_strlit("0x");
    hex_text::decode_prefixed_reads_what_encode_writes(proof_bytes);
    hex_text::decode_reads_what_encode_writes(quote);
    hex_text::decode_prefixed_reads_what_encode_writes(hash@);
    hex_text::hex_text_writes_each_byte(proof_bytes);
    primitives::address_text_reads_back(instance);
}

/// A signed proposal is answered field by field as it is.
pub proof fn signed_proposal_is_answered_as_it_is(signed: SignedProposal)
    ensures
        ({
            let result = proof_result(signed);
            &&& result.proof@ == signed.proof@
            &&& result.quote@ == signed.quote@
            &&& result.input@ == signed.input@
            &&& result.instance_address is Some
            &&& result.instance_address->0@ == signed.instance_address@
            &&& result.proof_carry_data_vec is Some
            &&& result.proof_carry_data_vec->0@ == signed.carry_data_vec@
        }),
{
}

} // verus!
