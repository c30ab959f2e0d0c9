//! Proving an aggregation of sub-proofs.
//!
//! The carry data of each sub-proof is rebuilt from the local L2 block, and its hash
//! has to be the one that the sub-proof was signed over. Only then are the
//! signatures verified and the hash over all of them signed. Each type here is an
//! aggregation at one stage:
//!
//! [`sign_aggregation`] -> [`AggregationKey`] -> [`AggregationRun`], which goes
//! through [`AggregationBlock`] and [`AggregationSubHash`] once for each sub-proof,
//! then -> [`AggregationHash`] -> [`AggregationQuote`] -> [`SignedProposal`].

use vstd::prelude::*;

use crate::attestation;
use crate::attestation::IssueResponse;
use crate::config::Config;
use crate::error::{Context, Error};
use crate::hex_text;
use crate::l2_client::L2BlockHeader;
use crate::persistence;
use crate::primitives;
use crate::primitives::{Address, B256};
use crate::proposal;
use crate::proposal::{proposal_carry_data_from_header, SignedProposal};
use crate::protocol::{
    CommitmentRequest, ProofCarryData, ShastaAggregateProof, ShastaProvePayload,
};
use crate::signature;
use crate::signature::{address_from_private_key, SecretKey};
use crate::tdx_proof;
use crate::tdx_proof::{prove_shasta_aggregation, PendingAggregation};

verus! {

/// What of the configuration an aggregation depends on.
#[derive(Debug, Clone, Copy)]
pub struct Deployment {
    /// Instance id of the proof.
    pub instance_id: u32,
    /// L2 chain id.
    pub l2_chain_id: u64,
    /// Address of the on-chain verifier.
    pub verifier: Address,
}

impl Deployment {
    /// Whether this is what a configuration says.
    pub open spec fn is_of(self, config: Config) -> bool {
        &&& self.instance_id == config.instance_id
        &&& self.l2_chain_id == config.l2_chain_id
        &&& self.verifier == config.verifier
    }

    /// Why the sub-proof at `index` is not for this deployment, if it is not.
    pub open spec fn fault(self, index: int, payload: ShastaProvePayload) -> Option<Error> {
        if payload.chain_id != self.l2_chain_id {
            Some(
                Error::SubProofChainId {
                    index: index as usize,
                    requested: payload.chain_id,
                    configured: self.l2_chain_id,
                },
            )
        } else if payload.verifier != self.verifier {
            Some(
                Error::SubProofVerifier {
                    index: index as usize,
                    requested_verifier: payload.verifier,
                    configured_verifier: self.verifier,
                },
            )
        } else {
            None
        }
    }
}

/// Whether carry data has the L1 fields of a payload.
pub open spec fn carries(carry: ProofCarryData, payload: ShastaProvePayload) -> bool {
    exists|header: L2BlockHeader| carry == #[trigger] proposal::carry_data(payload, header)
}

/// What an aggregation consists of while its sub-proofs are being rebuilt.
#[verifier::ext_equal]
pub struct RunView {
    /// What it is for.
    pub deployment: Deployment,
    /// The key.
    pub secret: Seq<u8>,
    /// Address of the key.
    pub instance: Address,
    /// The sub-proofs.
    pub sub_proofs: Seq<ShastaAggregateProof>,
    /// The carry data of those that have been rebuilt, from the first on.
    pub carry_data: Seq<ProofCarryData>,
    /// The proof bytes and the signed hashes of those that have been rebuilt.
    pub pairs: Seq<(Vec<u8>, B256)>,
}

impl RunView {
    /// How many sub-proofs have been rebuilt.
    pub open spec fn done(self) -> int {
        self.carry_data.len() as int
    }

    /// Whether all sub-proofs have been rebuilt.
    pub open spec fn is_complete(self) -> bool {
        self.done() == self.sub_proofs.len()
    }

    /// The sub-proof to rebuild next.
    pub open spec fn next_sub_proof(self) -> ShastaAggregateProof {
        self.sub_proofs[self.done()]
    }

    /// Whether the sub-proof at `index` was rebuilt: it is for the deployment, its
    /// carry data has the L1 fields of its payload, and its bytes and signed hash
    /// stand beside.
    pub open spec fn rebuilt(self, index: int) -> bool {
        let sub_proof = self.sub_proofs[index];
        &&& self.deployment.fault(index, sub_proof.payload) is None
        &&& carries(self.carry_data[index], sub_proof.payload)
        &&& self.pairs[index].1 == sub_proof.input
        &&& hex_text::prefixed_hex_bytes(sub_proof.proof@) == Ok::<Seq<u8>, hex_text::HexError>(
            self.pairs[index].0@,
        )
    }

    /// Whether the parts of the aggregation belong together.
    pub open spec fn well_formed(self) -> bool {
        &&& signature::is_secret(self.secret)
        &&& self.instance@ == signature::secret_address(self.secret)
        &&& self.sub_proofs.len() > 0
        &&& self.done() <= self.sub_proofs.len()
        &&& self.pairs.len() == self.done()
        &&& forall|index: int| 0 <= index < self.done() ==> #[trigger] self.rebuilt(index)
    }

    /// Whether there is a sub-proof to rebuild next, and it is for the deployment.
    pub open spec fn admits_next(self) -> bool {
        &&& self.well_formed()
        &&& !self.is_complete()
        &&& self.deployment.fault(self.done(), self.next_sub_proof().payload) is None
    }
}

/// What an aggregation consists of when the hash of a sub-proof is to be computed anew.
pub struct SubHashView {
    /// The aggregation so far.
    pub run: RunView,
    /// The carry data of the sub-proof.
    pub carry: ProofCarryData,
}

/// An aggregation for which the key is to be read. It has sub-proofs.
#[derive(Debug)]
pub struct AggregationKey {
    deployment: Deployment,
    sub_proofs: Vec<ShastaAggregateProof>,
}

/// An aggregation of which some sub-proofs, from the first on, have been rebuilt.
pub struct AggregationRun {
    deployment: Deployment,
    private_key: SecretKey,
    instance: Address,
    sub_proofs: Vec<ShastaAggregateProof>,
    carry_data_vec: Vec<ProofCarryData>,
    pairs: Vec<(Vec<u8>, B256)>,
}

/// What an aggregation needs next.
pub enum AggregationStep {
    /// The L2 block of a sub-proof.
    Fetch(AggregationBlock),
    /// The hash over all sub-proofs.
    Hash(AggregationHash),
}

/// An aggregation for which the L2 block of a sub-proof is to be fetched.
pub struct AggregationBlock {
    run: AggregationRun,
}

/// An aggregation for which the hash of a sub-proof is to be computed anew.
pub struct AggregationSubHash {
    run: AggregationRun,
    carry: ProofCarryData,
}

/// An aggregation whose signing hash is to be computed.
pub struct AggregationHash {
    run: AggregationRun,
}

/// An aggregation that is signed and whose quote is to be issued.
#[derive(Debug)]
pub struct AggregationQuote {
    /// The proof, and the request for its quote.
    pub pending: PendingAggregation,
    /// Address of the prover.
    pub instance: Address,
    /// The carry data, one entry per sub-proof in their order.
    pub carry_data_vec: Vec<ProofCarryData>,
}

impl View for AggregationRun {
    type V = RunView;

    closed spec fn view(&self) -> RunView {
        RunView {
            deployment: self.deployment,
            secret: self.private_key@,
            instance: self.instance,
            sub_proofs: self.sub_proofs@,
            carry_data: self.carry_data_vec@,
            pairs: self.pairs@,
        }
    }
}

impl View for AggregationBlock {
    type V = RunView;

    closed spec fn view(&self) -> RunView {
        self.run@
    }
}

impl View for AggregationSubHash {
    type V = SubHashView;

    closed spec fn view(&self) -> SubHashView {
        SubHashView { run: self.run@, carry: self.carry }
    }
}

impl View for AggregationHash {
    type V = RunView;

    closed spec fn view(&self) -> RunView {
        self.run@
    }
}

impl AggregationKey {
    #[verifier::type_invariant]
    spec fn well_formed(self) -> bool {
        self.sub_proofs@.len() > 0
    }

    /// What it is for.
    pub closed spec fn deployment(self) -> Deployment {
        self.deployment
    }

    /// The sub-proofs.
    pub closed spec fn sub_proofs(self) -> Seq<ShastaAggregateProof> {
        self.sub_proofs@
    }
}

impl AggregationRun {
    #[verifier::type_invariant]
    spec fn well_formed(self) -> bool {
        self@.well_formed()
    }
}

impl AggregationBlock {
    #[verifier::type_invariant]
    spec fn well_formed(self) -> bool {
        self@.admits_next()
    }
}

impl AggregationSubHash {
    #[verifier::type_invariant]
    spec fn well_formed(self) -> bool {
        &&& self@.run.admits_next()
        &&& carries(self@.carry, self@.run.next_sub_proof().payload)
    }
}

impl AggregationHash {
    #[verifier::type_invariant]
    spec fn well_formed(self) -> bool {
        &&& self@.well_formed()
        &&& self@.is_complete()
    }
}

/// Begins to prove an aggregation, if it has sub-proofs.
pub fn sign_aggregation(config: &Config, sub_proofs: Vec<ShastaAggregateProof>) -> (result: Result<
    AggregationKey,
    Error,
>)
    ensures
        if sub_proofs@.len() == 0 {
            result == Err::<AggregationKey, Error>(Error::EmptyAggregate)
        } else {
            &&& result is Ok
            &&& result->Ok_0.deployment().is_of(*config)
            &&& result->Ok_0.sub_proofs() == sub_proofs@
        },
{
    if sub_proofs.len() == 0 {
        return Err(Error::EmptyAggregate);
    }
    let deployment = Deployment {
        instance_id: config.instance_id,
        l2_chain_id: config.l2_chain_id,
        verifier: config.verifier,
    };
    Ok(AggregationKey { deployment, sub_proofs })
}

impl AggregationKey {
    /// Goes on with what came of reading the key file.
    pub fn with_key(self, contents: Result<Vec<u8>, Error>) -> (result: Result<
        AggregationRun,
        Error,
    >)
        ensures
            match contents {
                Err(error) => result == Err::<AggregationRun, Error>(
                    error.within(Context::LoadKey),
                ),
                Ok(bytes) => match result {
                    Ok(run) => {
                        &&& signature::is_secret(bytes@)
                        &&& run@.secret == bytes@
                        &&& run@.deployment == self.deployment()
                        &&& run@.sub_proofs == self.sub_proofs()
                        &&& run@.done() == 0
                        &&& run@.well_formed()
                    },
                    Err(error) => {
                        &&& !signature::is_secret(bytes@)
                        &&& error == Error::InvalidPrivateKey.within(Context::LoadKey)
                    },
                },
            },
    {
        proof {
            use_type_invariant(&self);
        }
        let private_key = match persistence::load_private_key(contents) {
            Ok(private_key) => private_key,
            Err(error) => return Err(error.context(Context::LoadKey)),
        };
        let instance = address_from_private_key(&private_key);
        let count = self.sub_proofs.len();
        Ok(
            AggregationRun {
                deployment: self.deployment,
                private_key,
                instance,
                sub_proofs: self.sub_proofs,
                carry_data_vec: Vec::with_capacity(count),
                pairs: Vec::with_capacity(count),
            },
        )
    }
}

impl AggregationRun {
    /// Says what is needed next, if the next sub-proof is for the deployment.
    pub fn next(self) -> (result: Result<AggregationStep, Error>)
        ensures
            self@.well_formed(),
            if self@.is_complete() {
                &&& result matches Ok(AggregationStep::Hash(stage))
                &&& stage@ == self@
            } else {
                match self@.deployment.fault(self@.done(), self@.next_sub_proof().payload) {
                    Some(error) => result == Err::<AggregationStep, Error>(error),
                    None => {
                        &&& result matches Ok(AggregationStep::Fetch(stage))
                        &&& stage@ == self@
                    },
                }
            },
    {
        proof {
            use_type_invariant(&self);
        }
        let index = self.carry_data_vec.len();
        if index == self.sub_proofs.len() {
            return Ok(AggregationStep::Hash(AggregationHash { run: self }));
        }
        let payload = self.sub_proofs[index].payload;
        if payload.chain_id != self.deployment.l2_chain_id {
            return Err(
                Error::SubProofChainId {
                    index,
                    requested: payload.chain_id,
                    configured: self.deployment.l2_chain_id,
                },
            );
        }
        if payload.verifier != self.deployment.verifier {
            return Err(
                Error::SubProofVerifier {
                    index,
                    requested_verifier: payload.verifier,
                    configured_verifier: self.deployment.verifier,
                },
            );
        }
        Ok(AggregationStep::Fetch(AggregationBlock { run: self }))
    }
}

impl AggregationBlock {
    /// The number of the L2 block to fetch: the proposal id of the sub-proof.
    pub fn block_number(&self) -> (number: u64)
        ensures
            self@.admits_next(),
            number == self@.next_sub_proof().payload.proposal_id,
    {
        proof {
            use_type_invariant(self);
        }
        self.run.sub_proofs[self.run.carry_data_vec.len()].payload.proposal_id
    }

    /// Goes on with what came of fetching the block.
    pub fn with_header(self, header: Result<L2BlockHeader, Error>) -> (result: Result<
        AggregationSubHash,
        Error,
    >)
        ensures
            ({
                let payload = self@.next_sub_proof().payload;
                match header {
                    Ok(header) => {
                        &&& result is Ok
                        &&& result->Ok_0@.run == self@
                        &&& result->Ok_0@.carry == proposal::carry_data(payload, header)
                    },
                    Err(error) => result == Err::<AggregationSubHash, Error>(
                        error.within(
                            Context::FetchSubProofBlock {
                                number: payload.proposal_id,
                                index: self@.done() as usize,
                            },
                        ),
                    ),
                }
            }),
    {
        proof {
            use_type_invariant(&self);
        }
        let index = self.run.carry_data_vec.len();
        let payload = self.run.sub_proofs[index].payload;
        match header {
            Ok(header) => {
                let carry = proposal_carry_data_from_header(&payload, &header);
                assert(carries(carry, payload));
                Ok(AggregationSubHash { run: self.run, carry })
            },
            Err(error) => Err(
                error.context(Context::FetchSubProofBlock { number: payload.proposal_id, index }),
            ),
        }
    }
}

/// Why a sub-proof is refused, given the hash of its rebuilt carry data, if it is.
pub open spec fn rebuild_fault(
    index: int,
    sub_proof: ShastaAggregateProof,
    hash: Option<B256>,
) -> Option<Error> {
    match hash {
        None => Some(Error::NoSubProofCommitment { index: index as usize }),
        Some(rebuilt) => if rebuilt != sub_proof.input {
            Some(
                Error::SubProofDrift { index: index as usize, rebuilt, signed: sub_proof.input },
            )
        } else {
            match hex_text::prefixed_hex_bytes(sub_proof.proof@) {
                Err(error) => Some(
                    Error::Hex { error }.within(Context::SubProofHex { index: index as usize }),
                ),
                Ok(_) => None,
            }
        },
    }
}

impl AggregationSubHash {
    /// What the hash of the sub-proof is to be taken over.
    pub fn commitment_request(&self) -> (request: CommitmentRequest)
        ensures
            ({
                let payload = self@.run.next_sub_proof().payload;
                &&& request.carry_data_vec@ == seq![self@.carry]
                &&& request.chain_id == payload.chain_id
                &&& request.verifier == payload.verifier
                &&& request.instance == self@.run.instance
            }),
    {
        proof {
            use_type_invariant(self);
        }
        let payload = self.run.sub_proofs[self.run.carry_data_vec.len()].payload;
        let carry_data_vec = vec![self.carry];
        assert(carry_data_vec@ =~= seq![self.carry]);
        CommitmentRequest {
            carry_data_vec,
            chain_id: payload.chain_id,
            verifier: payload.verifier,
            instance: self.run.instance,
        }
    }

    /// Goes on with the hash of the sub-proof, or with there being no commitment.
    pub fn with_hash(self, hash: Option<B256>) -> (result: Result<AggregationRun, Error>)
        ensures
            match rebuild_fault(self@.run.done(), self@.run.next_sub_proof(), hash) {
                Some(error) => result == Err::<AggregationRun, Error>(error),
                None => {
                    &&& result is Ok
                    &&& hash == Some(self@.run.next_sub_proof().input)
                    &&& result->Ok_0@.well_formed()
                    &&& result->Ok_0@.pairs.drop_last() == self@.run.pairs
                    &&& result->Ok_0@.pairs.last().1 == hash->0
                    &&& result->Ok_0@ == (RunView {
                        carry_data: self@.run.carry_data.push(self@.carry),
                        pairs: result->Ok_0@.pairs,
                        ..self@.run
                    })
                },
            },
    {
        proof {
            use_type_invariant(&self);
        }
        let ghost before = self@.run;
        let AggregationSubHash { run, carry } = self;
        let AggregationRun {
            deployment,
            private_key,
            instance,
            sub_proofs,
            carry_data_vec,
            pairs,
        } = run;
        let index = carry_data_vec.len();
        let rebuilt = match hash {
            Some(rebuilt) => rebuilt,
            None => return Err(Error::NoSubProofCommitment { index }),
        };
        let signed = sub_proofs[index].input;
        if rebuilt != signed {
            return Err(Error::SubProofDrift { index, rebuilt, signed });
        }
        let bytes = match hex_text::decode_prefixed(sub_proofs[index].proof.as_str()) {
            Ok(bytes) => bytes,
            Err(error) => return Err(
                Error::Hex { error }.context(Context::SubProofHex { index }),
            ),
        };
        let mut carry_data_vec = carry_data_vec;
        let mut pairs = pairs;
        carry_data_vec.push(carry);
        pairs.push((bytes, signed));
        proof {
            let after = RunView {
                carry_data: carry_data_vec@,
                pairs: pairs@,
                ..before
            };
            assert(pairs@.drop_last() =~= before.pairs);
            assert forall|i: int| 0 <= i < after.done() implies #[trigger] after.rebuilt(i) by {
                if i < before.done() {
                    assert(before.rebuilt(i));
                }
            }
            assert(after.well_formed());
        }
        Ok(
            AggregationRun {
                deployment,
                private_key,
                instance,
                sub_proofs,
                carry_data_vec,
                pairs,
            },
        )
    }
}

impl AggregationHash {
    /// What the signing hash is to be taken over: the carry data of all sub-proofs,
    /// in their order.
    pub fn commitment_request(&self) -> (request: CommitmentRequest)
        ensures
            self@.well_formed(),
            self@.is_complete(),
            request.carry_data_vec@ == self@.carry_data,
            request.chain_id == self@.carry_data[0].chain_id,
            request.verifier == self@.carry_data[0].verifier,
            request.chain_id == self@.deployment.l2_chain_id,
            request.verifier == self@.deployment.verifier,
            request.instance == self@.instance,
    {
        proof {
            use_type_invariant(self);
            assert(self@.rebuilt(0));
        }
        let first = self.run.carry_data_vec[0];
        let mut carry_data_vec: Vec<ProofCarryData> = Vec::with_capacity(
            self.run.carry_data_vec.len(),
        );
        let mut i: usize = 0;
        while i < self.run.carry_data_vec.len()
            invariant
                i <= self.run.carry_data_vec@.len(),
                carry_data_vec@ == self.run.carry_data_vec@.take(i as int),
            decreases self.run.carry_data_vec.len() - i,
        {
            carry_data_vec.push(self.run.carry_data_vec[i]);
            i += 1;
            assert(carry_data_vec@ =~= self.run.carry_data_vec@.take(i as int));
        }
        assert(carry_data_vec@ =~= self.run.carry_data_vec@);
        CommitmentRequest {
            carry_data_vec,
            chain_id: first.chain_id,
            verifier: first.verifier,
            instance: self.run.instance,
        }
    }

    /// Goes on with the signing hash, or with there being no commitment: verifies the
    /// signatures of the sub-proofs, signs the hash and asks for a quote over it.
    pub fn with_hash(self, hash: Option<B256>) -> (result: Result<AggregationQuote, Error>)
        ensures
            self@.well_formed(),
            self@.is_complete(),
            match hash {
                None => result == Err::<AggregationQuote, Error>(Error::NoAggregateCommitment),
                Some(hash) => match tdx_proof::aggregation_fault(self@.secret, self@.pairs) {
                    Some(error) => result == Err::<AggregationQuote, Error>(
                        error.within(Context::AggregationProof),
                    ),
                    None => {
                        &&& result is Ok
                        &&& result->Ok_0.pending.pending.is_over(
                            self@.deployment.instance_id,
                            self@.secret,
                            hash@,
                        )
                        &&& result->Ok_0.pending.aggregation_hash == hash
                        &&& result->Ok_0.instance == self@.instance
                        &&& result->Ok_0.carry_data_vec@ == self@.carry_data
                        &&& forall|i: int|
                            #![trigger self@.pairs[i]]
                            0 <= i < self@.pairs.len() ==> tdx_proof::is_signed_by(
                                self@.pairs[i].0@,
                                self@.sub_proofs[i].input@,
                                self@.instance,
                            )
                    },
                },
            },
    {
        proof {
            use_type_invariant(&self);
        }
        let hash = match hash {
            Some(hash) => hash,
            None => return Err(Error::NoAggregateCommitment),
        };
        let pending = match prove_shasta_aggregation(
            self.run.deployment.instance_id,
            &self.run.private_key,
            self.run.pairs.as_slice(),
            hash,
        ) {
            Ok(pending) => pending,
            Err(error) => return Err(error.context(Context::AggregationProof)),
        };
        proof {
            primitives::address_is_its_bytes(self@.instance);
            tdx_proof::aggregation_allows_no_other_key(self@.secret, self@.pairs);
            assert forall|i: int|
                #![trigger self@.pairs[i]]
                0 <= i < self@.pairs.len() implies tdx_proof::is_signed_by(
                self@.pairs[i].0@,
                self@.sub_proofs[i].input@,
                self@.instance,
            ) by {
                assert(self@.rebuilt(i));
            }
        }
        Ok(
            AggregationQuote {
                pending,
                instance: self.run.instance,
                carry_data_vec: self.run.carry_data_vec,
            },
        )
    }
}

impl AggregationQuote {
    /// Ends with what came of the request for the quote.
    pub fn with_quote(self, reply: Result<IssueResponse, Error>) -> (result: Result<
        SignedProposal,
        Error,
    >)
        ensures
            match attestation::document(reply) {
                Ok(quote) => {
                    &&& result is Ok
                    &&& result->Ok_0.writes(
                        self.pending.pending.proof@,
                        quote,
                        self.pending.aggregation_hash,
                        self.instance,
                        self.carry_data_vec@,
                    )
                },
                Err(error) => result == Err::<SignedProposal, Error>(
                    error.within(Context::AggregationProof),
                ),
            },
    {
        let data = match self.pending.complete(reply) {
            Ok(data) => data,
            Err(error) => return Err(error.context(Context::AggregationProof)),
        };
        Ok(
            SignedProposal::write(
                data.proof.as_slice(),
                data.quote.as_slice(),
                data.aggregation_hash,
                self.instance,
                self.carry_data_vec,
            ),
        )
    }
}

/// A proposal that was signed comes back as a sub-proof: if its text and its hash are
/// handed in again and the local L2 block still hashes to the same, it is not
/// refused, and its bytes are those that were signed.
pub proof fn signed_proposal_comes_back(
    index: int,
    signed: SignedProposal,
    proof_bytes: Seq<u8>,
    quote: Seq<u8>,
    hash: B256,
    instance: Address,
    carry_data: Seq<ProofCarryData>,
    sub_proof: ShastaAggregateProof,
)
    requires
        signed.writes(proof_bytes, quote, hash, instance, carry_data),
        sub_proof.proof@ == signed.proof@,
        sub_proof.input == hash,
    ensures
        rebuild_fault(index, sub_proof, Some(hash)) is None,
        hex_text::prefixed_hex_bytes(sub_proof.proof@) == Ok::<Seq<u8>, hex_text::HexError>(
            proof_bytes,
        ),
{
    hex_text::decode_prefixed_reads_what_encode_writes(proof_bytes);
}

/// A deployment is that of a configuration where all that it holds is configured so.
pub proof fn deployment_is_the_configured_one(deployment: Deployment, config: Config)
    ensures
        deployment.is_of(config) <==> deployment == (Deployment {
            instance_id: config.instance_id,
            l2_chain_id: config.l2_chain_id,
            verifier: config.verifier,
        }),
{
}

/// A sub-proof at any index is for a deployment exactly where its chain and its verifier
/// are those of the deployment; where one is not, the refusal names the sub-proof and
/// both, the chain before the verifier.
pub proof fn only_sub_proofs_of_the_deployment_are_taken(
    deployment: Deployment,
    index: usize,
    payload: ShastaProvePayload,
)
    ensures
        deployment.fault(index as int, payload) is None <==> payload.chain_id
            == deployment.l2_chain_id && payload.verifier == deployment.verifier,
        payload.chain_id != deployment.l2_chain_id ==> deployment.fault(index as int, payload)
            == Some(
            Error::SubProofChainId {
                index,
                requested: payload.chain_id,
                configured: deployment.l2_chain_id,
            },
        ),
        payload.chain_id == deployment.l2_chain_id && payload.verifier != deployment.verifier
            ==> deployment.fault(index as int, payload) == Some(
            Error::SubProofVerifier {
                index,
                requested_verifier: payload.verifier,
                configured_verifier: deployment.verifier,
            },
        ),
{
}

/// A sub-proof at any index is taken into an aggregation exactly where the hash of its
/// rebuilt carry data is the one that it was signed over and its text is hexadecimal.
/// Any other hash is refused as drift, with both hashes.
pub proof fn only_undrifted_sub_proofs_are_taken(
    index: usize,
    sub_proof: ShastaAggregateProof,
    hash: Option<B256>,
)
    ensures
        rebuild_fault(index as int, sub_proof, hash) is None <==> hash == Some(sub_proof.input)
            && hex_text::prefixed_hex_bytes(sub_proof.proof@) is Ok,
        hash is None ==> rebuild_fault(index as int, sub_proof, hash) == Some(
            Error::NoSubProofCommitment { index },
        ),
        hash is Some && hash->0 != sub_proof.input ==> rebuild_fault(index as int, sub_proof, hash)
            == Some(
            Error::SubProofDrift { index, rebuilt: hash->0, signed: sub_proof.input },
        ),
        hash == Some(sub_proof.input) ==> (hex_text::prefixed_hex_bytes(sub_proof.proof@)
            matches Err(error) ==> {
            &&& rebuild_fault(index as int, sub_proof, hash) matches Some(
                Error::Context { context, cause },
            )
            &&& context == (Context::SubProofHex { index })
            &&& *cause == (Error::Hex { error })
        }),
{
}

/// Carry data has the L1 fields of a payload exactly where each of them is the
/// payload's.
pub proof fn carried_fields_are_the_payloads(carry: ProofCarryData, payload: ShastaProvePayload)
    ensures
        carries(carry, payload) <==> {
            &&& carry.chain_id == payload.chain_id
            &&& carry.verifier == payload.verifier
            &&& carry.transition_input.proposal_id == payload.proposal_id
            &&& carry.transition_input.proposal_hash == payload.proposal_hash
            &&& carry.transition_input.parent_proposal_hash == payload.parent_proposal_hash
            &&& carry.transition_input.actual_prover == payload.actual_prover
            &&& carry.transition_input.transition == payload.transition
        },
{
    let input = carry.transition_input;
    let header = L2BlockHeader {
        number: input.checkpoint.block_number,
        hash: input.checkpoint.block_hash,
        parent_hash: input.parent_block_hash,
        state_root: input.checkpoint.state_root,
    };
    if carry.chain_id == payload.chain_id && carry.verifier == payload.verifier
        && input.proposal_id == payload.proposal_id && input.proposal_hash == payload.proposal_hash
        && input.parent_proposal_hash == payload.parent_proposal_hash && input.actual_prover
        == payload.actual_prover && input.transition == payload.transition {
        assert(carry == proposal::carry_data(payload, header));
    }
}

/// An aggregation that is ready to be signed has one entry of carry data and one pair for
/// each sub-proof, in their order: the carry data has the L1 fields of its payload, which
/// is for the deployment, and the pair has the bytes that its text writes and the hash
/// that it was signed over.
pub proof fn complete_aggregation_covers_its_sub_proofs(run: RunView, i: int)
    requires
        run.well_formed(),
        run.is_complete(),
        0 <= i < run.sub_proofs.len(),
    ensures
        run.instance@ == signature::secret_address(run.secret),
        run.carry_data.len() == run.sub_proofs.len(),
        run.pairs.len() == run.sub_proofs.len(),
        run.sub_proofs[i].payload.chain_id == run.deployment.l2_chain_id,
        run.sub_proofs[i].payload.verifier == run.deployment.verifier,
        run.carry_data[i].chain_id == run.deployment.l2_chain_id,
        run.carry_data[i].verifier == run.deployment.verifier,
        run.carry_data[i].transition_input.proposal_id == run.sub_proofs[i].payload.proposal_id,
        run.carry_data[i].transition_input.proposal_hash
            == run.sub_proofs[i].payload.proposal_hash,
        run.carry_data[i].transition_input.parent_proposal_hash
            == run.sub_proofs[i].payload.parent_proposal_hash,
        run.carry_data[i].transition_input.actual_prover
            == run.sub_proofs[i].payload.actual_prover,
        run.carry_data[i].transition_input.transition == run.sub_proofs[i].payload.transition,
        hex_text::prefixed_hex_bytes(run.sub_proofs[i].proof@) == Ok::<
            Seq<u8>,
            hex_text::HexError,
        >(run.pairs[i].0@),
        run.pairs[i].1 == run.sub_proofs[i].input,
{
    assert(run.rebuilt(i));
    carried_fields_are_the_payloads(run.carry_data[i], run.sub_proofs[i].payload);
}

/// The sub-proof to rebuild next is the one behind those that have been rebuilt, and
/// there is one as long as there are more sub-proofs than carry data.
pub proof fn sub_proofs_are_rebuilt_in_order(run: RunView)
    ensures
        run.done() == run.carry_data.len(),
        run.is_complete() <==> run.carry_data.len() == run.sub_proofs.len(),
        run.next_sub_proof() == run.sub_proofs[run.carry_data.len() as int],
        run.admits_next() ==> {
            &&& run.carry_data.len() < run.sub_proofs.len()
            &&& run.next_sub_proof().payload.chain_id == run.deployment.l2_chain_id
            &&& run.next_sub_proof().payload.verifier == run.deployment.verifier
        },
{
}

} // verus!
