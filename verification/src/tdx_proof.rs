//! Proofs and the attestation quotes that go with them.
//!
//! A [`TdxProof`] has the wire format `instance_id(4) || address(20) ||
//! signature(65)`, for proposals and for aggregations alike.

use vstd::prelude::*;

use crate::attestation;
use crate::attestation::{
    IssueRequestData, IssueResponse, MetadataResponse, MetadataResponseData, Request,
};
use crate::error::Error;
use crate::hex_text;
use crate::primitives;
use crate::primitives::{Address, B256};
use crate::signature;
use crate::signature::{address_from_private_key, recover_signer, sign_message, SecretKey};
use crate::text;

verus! {

/// Wire size: `instance_id(4) || address(20) || signature(65)`.
pub const TDX_PROOF_SIZE: usize = 89;

/// The four bytes of a number, most significant first.
pub open spec fn be_bytes(n: u32) -> Seq<u8> {
    seq![
        (n / 0x1000000) as u8,
        (n / 0x10000 % 0x100) as u8,
        (n / 0x100 % 0x100) as u8,
        (n % 0x100) as u8,
    ]
}

/// The wire form of a proof.
pub open spec fn proof_bytes(instance_id: u32, address: Seq<u8>, signature: Seq<u8>) -> Seq<u8> {
    be_bytes(instance_id) + address + signature
}

/// The instance id in a proof.
pub open spec fn proof_instance_id(bytes: Seq<u8>) -> nat {
    text::big_endian(bytes.subrange(0, 4))
}

/// The prover address in a proof.
pub open spec fn proof_address(bytes: Seq<u8>) -> Seq<u8> {
    bytes.subrange(4, 24)
}

/// The signature in a proof.
pub open spec fn proof_signature(bytes: Seq<u8>) -> Seq<u8> {
    bytes.subrange(24, 89)
}

/// The error for bytes that do not have the size of a proof.
pub open spec fn invalid_size(bytes: Seq<u8>) -> Error {
    Error::InvalidProofSize { got: bytes.len() as usize }
}

/// A single proof.
#[derive(Debug)]
pub struct TdxProof {
    data: [u8; TDX_PROOF_SIZE],
}

impl View for TdxProof {
    type V = Seq<u8>;

    closed spec fn view(&self) -> Seq<u8> {
        self.data@
    }
}

impl TdxProof {
    /// Builds a proof from its parts.
    pub fn new(instance_id: u32, public_key: &Address, signature: &[u8; 65]) -> (built: Self)
        ensures
            built@ == proof_bytes(instance_id, public_key@, signature@),
    {
        let mut data: [u8; TDX_PROOF_SIZE] = [0u8; TDX_PROOF_SIZE];
        data[0] = (instance_id / 0x1000000) as u8;
        data[1] = (instance_id / 0x10000 % 0x100) as u8;
        data[2] = (instance_id / 0x100 % 0x100) as u8;
        data[3] = (instance_id % 0x100) as u8;
        let mut i: usize = 0;
        while i < 20
            invariant
                i <= 20,
                data@.subrange(0, 4) == be_bytes(instance_id),
                forall|j: int| 0 <= j < i ==> data@[4 + j] == public_key@[j],
            decreases 20 - i,
        {
            data[4 + i] = public_key.0[i];
            i += 1;
            assert(data@.subrange(0, 4) =~= be_bytes(instance_id));
        }
        let mut i: usize = 0;
        while i < 65
            invariant
                i <= 65,
                data@.subrange(0, 4) == be_bytes(instance_id),
                forall|j: int| 0 <= j < 20 ==> data@[4 + j] == public_key@[j],
                forall|j: int| 0 <= j < i ==> data@[24 + j] == signature@[j],
            decreases 65 - i,
        {
            data[24 + i] = signature[i];
            i += 1;
            assert(data@.subrange(0, 4) =~= be_bytes(instance_id));
        }
        assert forall|k: int| 0 <= k < 89 implies data@[k] == proof_bytes(
            instance_id,
            public_key@,
            signature@,
        )[k] by {
            if k < 4 {
                assert(data@[k] == data@.subrange(0, 4)[k]);
            } else if k < 24 {
                assert(data@[4 + (k - 4)] == public_key@[k - 4]);
            } else {
                assert(data@[24 + (k - 24)] == signature@[k - 24]);
            }
        }
        assert(data@ =~= proof_bytes(instance_id, public_key@, signature@));
        Self { data }
    }

    /// Reads a proof from its wire form.
    pub fn from_bytes(bytes: &[u8]) -> (parsed: Result<Self, Error>)
        ensures
            match parsed {
                Ok(parsed) => bytes@.len() == TDX_PROOF_SIZE && parsed@ == bytes@,
                Err(error) => {
                    &&& bytes@.len() != 89
                    &&& error == invalid_size(bytes@)
                    &&& error matches Error::InvalidProofSize { got }
                    &&& got == bytes@.len()
                },
            },
    {
        if bytes.len() != TDX_PROOF_SIZE {
            return Err(Error::InvalidProofSize { got: bytes.len() });
        }
        let mut data: [u8; TDX_PROOF_SIZE] = [0u8; TDX_PROOF_SIZE];
        let mut i: usize = 0;
        while i < TDX_PROOF_SIZE
            invariant
                i <= TDX_PROOF_SIZE,
                bytes@.len() == TDX_PROOF_SIZE,
                forall|j: int| 0 <= j < i ==> data@[j] == bytes@[j],
            decreases TDX_PROOF_SIZE - i,
        {
            data[i] = bytes[i];
            i += 1;
        }
        assert(data@ =~= bytes@);
        Ok(Self { data })
    }

    /// The instance id, bytes 0..4 in big-endian order.
    pub fn instance_id(&self) -> (instance_id: u32)
        ensures
            instance_id == proof_instance_id(self@),
    {
        let (a, b, c, d) = (self.data[0], self.data[1], self.data[2], self.data[3]);
        proof {
            lemma_big_endian_of_four(self@.subrange(0, 4));
        }
        a as u32 * 0x1000000 + b as u32 * 0x10000 + c as u32 * 0x100 + d as u32
    }

    /// The prover address, bytes 4..24.
    pub fn public_key(&self) -> (address: Address)
        ensures
            address@ == proof_address(self@),
    {
        let mut bytes: [u8; 20] = [0u8; 20];
        let mut i: usize = 0;
        while i < 20
            invariant
                i <= 20,
                forall|j: int| 0 <= j < i ==> bytes@[j] == self@[4 + j],
            decreases 20 - i,
        {
            bytes[i] = self.data[4 + i];
            i += 1;
        }
        assert(bytes@ =~= proof_address(self@));
        Address(bytes)
    }

    /// The signature, bytes 24..89.
    pub fn signature(&self) -> (signature: [u8; 65])
        ensures
            signature@ == proof_signature(self@),
    {
        let mut bytes: [u8; 65] = [0u8; 65];
        let mut i: usize = 0;
        while i < 65
            invariant
                i <= 65,
                forall|j: int| 0 <= j < i ==> bytes@[j] == self@[24 + j],
            decreases 65 - i,
        {
            bytes[i] = self.data[24 + i];
            i += 1;
        }
        assert(bytes@ =~= proof_signature(self@));
        bytes
    }

    /// The wire form.
    pub fn into_vec(self) -> (bytes: Vec<u8>)
        ensures
            bytes@ == self@,
            bytes@.len() == TDX_PROOF_SIZE,
    {
        let mut bytes: Vec<u8> = Vec::with_capacity(TDX_PROOF_SIZE);
        let mut i: usize = 0;
        while i < TDX_PROOF_SIZE
            invariant
                i <= TDX_PROOF_SIZE,
                bytes@.len() == i,
                forall|j: int| 0 <= j < i ==> bytes@[j] == self@[j],
            decreases TDX_PROOF_SIZE - i,
        {
            bytes.push(self.data[i]);
            i += 1;
        }
        assert(bytes@ =~= self@);
        bytes
    }
}

pub(crate) proof fn lemma_big_endian_of_four(bytes: Seq<u8>)
    requires
        bytes.len() == 4,
    ensures
        text::big_endian(bytes) == bytes[0] * 0x1000000 + bytes[1] * 0x10000 + bytes[2] * 0x100
            + bytes[3],
{
    reveal_with_fuel(text::big_endian, 5);
}

/// What was put into a proof is what comes out of its wire form.
pub proof fn proof_fields_come_back(instance_id: u32, address: Seq<u8>, signature: Seq<u8>)
    requires
        address.len() == 20,
        signature.len() == 65,
    ensures
        proof_bytes(instance_id, address, signature).len() == TDX_PROOF_SIZE,
        proof_instance_id(proof_bytes(instance_id, address, signature)) == instance_id,
        proof_address(proof_bytes(instance_id, address, signature)) == address,
        proof_signature(proof_bytes(instance_id, address, signature)) == signature,
{
    let bytes = proof_bytes(instance_id, address, signature);
    assert(bytes.subrange(0, 4) =~= be_bytes(instance_id));
    lemma_big_endian_of_four(be_bytes(instance_id));
    assert(bytes.subrange(4, 24) =~= address);
    assert(bytes.subrange(24, 89) =~= signature);
}

/// A request for an attestation quote, under way.
#[derive(Debug)]
pub struct QuoteRequest {
    /// What to send to the attestation daemon.
    pub request: Request<IssueRequestData>,
    /// The nonce that the request is bound to.
    pub nonce: Vec<u8>,
}

impl QuoteRequest {
    /// Whether the request is for a quote over `user_data`, bound to its nonce.
    pub open spec fn is_over(self, user_data: Seq<u8>) -> bool {
        &&& self.request.method@ == "issue"@
        &&& self.request.data.user_data@ == hex_text::hex_text(user_data)
        &&& self.request.data.nonce@ == hex_text::hex_text(self.nonce@)
        &&& self.nonce@.len() == 32
    }

    /// The attestation document and the nonce, given what came back of the request.
    pub fn complete(self, reply: Result<IssueResponse, Error>) -> (result: Result<
        (Vec<u8>, Vec<u8>),
        Error,
    >)
        ensures
            match result {
                Ok((quote, nonce)) => attestation::document(reply) == Ok::<Seq<u8>, Error>(quote@)
                    && nonce == self.nonce,
                Err(error) => attestation::document(reply) == Err::<Seq<u8>, Error>(error),
            },
    {
        match attestation::issue_attestation(reply) {
            Ok(quote) => Ok((quote, self.nonce)),
            Err(error) => Err(error),
        }
    }
}

/// Calls `rand::thread_rng` for 32 random bytes, about which nothing is stated.
#[verifier::external_body]
fn random_nonce() -> (nonce: [u8; 32]) {
    rand::Rng::gen(&mut rand::thread_rng())
}

/// Asks for a quote over `user_report_data`, bound to `nonce`.
pub fn quote_request(user_report_data: &B256, nonce: [u8; 32]) -> (quote: QuoteRequest)
    ensures
        quote.is_over(user_report_data@),
        quote.nonce@ == nonce@,
{
    let request = attestation::issue_request(user_report_data.0.as_slice(), nonce.as_slice());
    let mut bytes: Vec<u8> = Vec::with_capacity(32);
    bytes.extend_from_slice(nonce.as_slice());
    assert(bytes@ =~= nonce@);
    QuoteRequest { request, nonce: bytes }
}

/// Asks for a quote over 32 bytes of user data, bound to a fresh random nonce.
pub fn generate_tdx_quote(user_report_data: &B256) -> (quote: QuoteRequest)
    ensures
        quote.is_over(user_report_data@),
{
    quote_request(user_report_data, random_nonce())
}

/// The user data of the bootstrap quote: the address and twelve zero bytes.
pub open spec fn padded_address(address: Seq<u8>) -> Seq<u8> {
    address + seq![0u8, 0, 0, 0, 0, 0, 0, 0, 0, 0, 0, 0]
}

/// Asks for the bootstrap quote, which embeds the address of the prover.
pub fn generate_tdx_quote_from_public_key(public_key: &Address) -> (quote: QuoteRequest)
    ensures
        quote.is_over(padded_address(public_key@)),
{
    let mut padded: [u8; 32] = [0u8; 32];
    let mut i: usize = 0;
    while i < 20
        invariant
            i <= 20,
            forall|j: int| 0 <= j < i ==> padded@[j] == public_key@[j],
            forall|j: int| 20 <= j < 32 ==> padded@[j] == 0,
        decreases 20 - i,
    {
        padded[i] = public_key.0[i];
        i += 1;
    }
    assert(padded@ =~= padded_address(public_key@));
    generate_tdx_quote(&B256(padded))
}

/// Reads the metadata of the attestation daemon from what came back of a request for
/// it.
pub fn get_tdx_metadata(reply: Result<MetadataResponse, Error>) -> (result: Result<
    MetadataResponseData,
    Error,
>)
    ensures
        result == attestation::reported_metadata(reply),
{
    attestation::metadata(reply)
}

/// Whether `bytes` is a proof that names `address` and carries its signature over
/// `digest`.
pub open spec fn is_signed_by(bytes: Seq<u8>, digest: Seq<u8>, address: Address) -> bool {
    &&& bytes.len() == TDX_PROOF_SIZE
    &&& proof_address(bytes) == address@
    &&& signature::signer(proof_signature(bytes), digest) == Ok::<Address, Error>(address)
}

/// The output of a proof generation.
#[derive(Debug)]
pub struct ProveData {
    /// 89-byte proof.
    pub proof: Vec<u8>,
    /// Attestation quote over the hash that was signed.
    pub quote: Vec<u8>,
}

/// A proof that waits for its quote.
#[derive(Debug)]
pub struct PendingProof {
    /// 89-byte proof.
    pub proof: Vec<u8>,
    /// The request for the quote.
    pub quote: QuoteRequest,
}

impl PendingProof {
    /// Whether this is the proof of `digest` under `secret` for an instance id,
    /// and the quote asked for is over the same digest.
    pub open spec fn is_over(self, instance_id: u32, secret: Seq<u8>, digest: Seq<u8>) -> bool {
        &&& self.proof@ == proof_bytes(
            instance_id,
            signature::secret_address(secret),
            signature::signature_bytes(secret, digest),
        )
        &&& is_signed_by(
            self.proof@,
            digest,
            primitives::address_of(signature::secret_address(secret)),
        )
        &&& self.quote.is_over(digest)
    }

    /// The proof with its quote, given what came back of the request for it.
    pub fn complete(self, reply: Result<IssueResponse, Error>) -> (result: Result<
        ProveData,
        Error,
    >)
        ensures
            match result {
                Ok(data) => data.proof == self.proof && attestation::document(reply) == Ok::<
                    Seq<u8>,
                    Error,
                >(data.quote@),
                Err(error) => attestation::document(reply) == Err::<Seq<u8>, Error>(error),
            },
    {
        match self.quote.complete(reply) {
            Ok((quote, _)) => Ok(ProveData { proof: self.proof, quote }),
            Err(error) => Err(error),
        }
    }
}

/// Signs `instance_hash`, and asks for a quote over the same hash.
pub fn prove(instance_id: u32, private_key: &SecretKey, instance_hash: B256) -> (result: Result<
    PendingProof,
    Error,
>)
    ensures
        result is Ok,
        result->Ok_0.is_over(instance_id, private_key@, instance_hash@),
{
    let address = address_from_private_key(private_key);
    let signature = match sign_message(private_key, &instance_hash) {
        Ok(signature) => signature,
        Err(error) => return Err(error),
    };
    let bytes = TdxProof::new(instance_id, &address, &signature).into_vec();
    proof {
        primitives::address_is_its_bytes(address);
        proof_fields_come_back(instance_id, address@, signature@);
    }
    Ok(PendingProof { proof: bytes, quote: generate_tdx_quote(&instance_hash) })
}

/// The output of an aggregation proof generation.
#[derive(Debug)]
pub struct ProveAggregationData {
    /// 89-byte aggregation proof.
    pub proof: Vec<u8>,
    /// Attestation quote over the aggregation hash.
    pub quote: Vec<u8>,
    /// The aggregation hash that was signed.
    pub aggregation_hash: B256,
}

/// An aggregation proof that waits for its quote.
#[derive(Debug)]
pub struct PendingAggregation {
    /// The proof, and the request for its quote.
    pub pending: PendingProof,
    /// The aggregation hash that was signed.
    pub aggregation_hash: B256,
}

impl PendingAggregation {
    /// The proof with its quote, given what came back of the request for it.
    pub fn complete(self, reply: Result<IssueResponse, Error>) -> (result: Result<
        ProveAggregationData,
        Error,
    >)
        ensures
            match result {
                Ok(data) => {
                    &&& data.proof == self.pending.proof
                    &&& data.aggregation_hash == self.aggregation_hash
                    &&& attestation::document(reply) == Ok::<Seq<u8>, Error>(data.quote@)
                },
                Err(error) => attestation::document(reply) == Err::<Seq<u8>, Error>(error),
            },
    {
        match self.pending.complete(reply) {
            Ok(data) => Ok(
                ProveAggregationData {
                    proof: data.proof,
                    quote: data.quote,
                    aggregation_hash: self.aggregation_hash,
                },
            ),
            Err(error) => Err(error),
        }
    }
}

/// What is wrong with the sub-proof at `index`, if the first one names `expected`.
pub open spec fn sub_proof_fault(
    sub_proofs: Seq<(Vec<u8>, B256)>,
    expected: Address,
    index: int,
) -> Option<Error> {
    let bytes = sub_proofs[index].0@;
    let instance = primitives::address_of(proof_address(bytes));
    if bytes.len() != TDX_PROOF_SIZE {
        Some(invalid_size(bytes))
    } else if instance != expected {
        Some(Error::SubProofRotation { index: index as usize, instance, expected })
    } else {
        match signature::signer(proof_signature(bytes), sub_proofs[index].1@) {
            Err(error) => Some(error),
            Ok(recovered) => if recovered != expected {
                Some(Error::SubProofSigner { index: index as usize, expected, recovered })
            } else {
                None
            },
        }
    }
}

/// What is wrong with the first sub-proof at or behind `index` with which anything is
/// wrong.
pub open spec fn first_fault(
    sub_proofs: Seq<(Vec<u8>, B256)>,
    expected: Address,
    index: int,
) -> Option<Error>
    decreases sub_proofs.len() - index,
{
    if index >= sub_proofs.len() {
        None
    } else {
        match sub_proof_fault(sub_proofs, expected, index) {
            Some(error) => Some(error),
            None => first_fault(sub_proofs, expected, index + 1),
        }
    }
}

/// The instance that signed all sub-proofs, or why there is none.
pub open spec fn common_instance(sub_proofs: Seq<(Vec<u8>, B256)>) -> Result<Address, Error> {
    if sub_proofs.len() == 0 {
        Err(Error::NoSubProofs)
    } else if sub_proofs[0].0@.len() != TDX_PROOF_SIZE {
        Err(invalid_size(sub_proofs[0].0@))
    } else {
        let expected = primitives::address_of(proof_address(sub_proofs[0].0@));
        match first_fault(sub_proofs, expected, 0) {
            Some(error) => Err(error),
            None => Ok(expected),
        }
    }
}

/// Verifies that every sub-proof names the same instance and carries its signature.
pub fn verify_sub_proofs(sub_proofs: &[(Vec<u8>, B256)]) -> (result: Result<Address, Error>)
    ensures
        result == common_instance(sub_proofs@),
{
    if sub_proofs.len() == 0 {
        return Err(Error::NoSubProofs);
    }
    let expected = match TdxProof::from_bytes(sub_proofs[0].0.as_slice()) {
        Ok(first) => first.public_key(),
        Err(error) => return Err(error),
    };
    proof {
        primitives::address_is_its_bytes(expected);
    }
    let mut i: usize = 0;
    while i < sub_proofs.len()
        invariant
            i <= sub_proofs@.len(),
            sub_proofs@.len() > 0,
            sub_proofs@[0].0@.len() == TDX_PROOF_SIZE,
            expected == primitives::address_of(proof_address(sub_proofs@[0].0@)),
            first_fault(sub_proofs@, expected, 0) == first_fault(sub_proofs@, expected, i as int),
        decreases sub_proofs.len() - i,
    {
        let sub_proof = match TdxProof::from_bytes(sub_proofs[i].0.as_slice()) {
            Ok(sub_proof) => sub_proof,
            Err(error) => return Err(error),
        };
        let instance = sub_proof.public_key();
        proof {
            primitives::address_is_its_bytes(instance);
        }
        if instance != expected {
            return Err(Error::SubProofRotation { index: i, instance, expected });
        }
        let recovered = match recover_signer(&sub_proof.signature(), &sub_proofs[i].1) {
            Ok(recovered) => recovered,
            Err(error) => return Err(error),
        };
        if recovered != expected {
            return Err(Error::SubProofSigner { index: i, expected, recovered });
        }
        i += 1;
    }
    Ok(expected)
}

/// Why an aggregation under `secret` is refused, if it is.
pub open spec fn aggregation_fault(
    secret: Seq<u8>,
    sub_proofs: Seq<(Vec<u8>, B256)>,
) -> Option<Error> {
    let local = primitives::address_of(signature::secret_address(secret));
    match common_instance(sub_proofs) {
        Err(error) => Some(error),
        Ok(expected) => if local != expected {
            Some(Error::LocalRotation { local, expected })
        } else {
            None
        },
    }
}

/// Verifies the sub-proofs, signs `aggregation_hash` if they are all by the local
/// key, and asks for a quote over the same hash.
pub fn prove_shasta_aggregation(
    instance_id: u32,
    private_key: &SecretKey,
    sub_proofs: &[(Vec<u8>, B256)],
    aggregation_hash: B256,
) -> (result: Result<PendingAggregation, Error>)
    ensures
        match result {
            Ok(pending) => {
                &&& aggregation_fault(private_key@, sub_proofs@) is None
                &&& pending.pending.is_over(instance_id, private_key@, aggregation_hash@)
                &&& pending.aggregation_hash == aggregation_hash
            },
            Err(error) => aggregation_fault(private_key@, sub_proofs@) == Some(error),
        },
{
    let expected = match verify_sub_proofs(sub_proofs) {
        Ok(expected) => expected,
        Err(error) => return Err(error),
    };
    let local = address_from_private_key(private_key);
    proof {
        primitives::address_is_its_bytes(local);
    }
    if local != expected {
        return Err(Error::LocalRotation { local, expected });
    }
    match prove(instance_id, private_key, aggregation_hash) {
        Ok(pending) => Ok(PendingAggregation { pending, aggregation_hash }),
        Err(error) => Err(error),
    }
}

proof fn lemma_no_fault_behind(sub_proofs: Seq<(Vec<u8>, B256)>, expected: Address, index: int)
    requires
        0 <= index,
    ensures
        first_fault(sub_proofs, expected, index) is None <==> forall|i: int|
            index <= i < sub_proofs.len() ==> #[trigger] sub_proof_fault(sub_proofs, expected, i) is None,
    decreases sub_proofs.len() - index,
{
    if index < sub_proofs.len() {
        lemma_no_fault_behind(sub_proofs, expected, index + 1);
    }
}

/// The sub-proofs are accepted exactly where there are any and one instance is named
/// by, and has signed, all of them; that instance is the result.
pub proof fn sub_proofs_have_one_signer(sub_proofs: Seq<(Vec<u8>, B256)>, instance: Address)
    ensures
        common_instance(sub_proofs) == Ok::<Address, Error>(instance) <==> {
            &&& sub_proofs.len() > 0
            &&& forall|i: int|
                #![trigger sub_proofs[i]]
                0 <= i < sub_proofs.len() ==> is_signed_by(
                    sub_proofs[i].0@,
                    sub_proofs[i].1@,
                    instance,
                )
        },
{
    primitives::address_is_its_bytes(instance);
    if sub_proofs.len() > 0 && sub_proofs[0].0@.len() == TDX_PROOF_SIZE {
        let expected = primitives::address_of(proof_address(sub_proofs[0].0@));
        primitives::lemma_address_of_bytes(proof_address(sub_proofs[0].0@));
        lemma_no_fault_behind(sub_proofs, expected, 0);
        if common_instance(sub_proofs) == Ok::<Address, Error>(instance) {
            assert forall|i: int| #![trigger sub_proofs[i]] 0 <= i < sub_proofs.len() implies is_signed_by(
                sub_proofs[i].0@,
                sub_proofs[i].1@,
                instance,
            ) by {
                assert(sub_proof_fault(sub_proofs, expected, i) is None);
                primitives::lemma_address_of_bytes(proof_address(sub_proofs[i].0@));
            }
        }
        if forall|i: int|
            #![trigger sub_proofs[i]]
            0 <= i < sub_proofs.len() ==> is_signed_by(
                sub_proofs[i].0@,
                sub_proofs[i].1@,
                instance,
            ) {
            assert(is_signed_by(sub_proofs[0].0@, sub_proofs[0].1@, instance));
            assert forall|i: int| 0 <= i < sub_proofs.len() implies #[trigger] sub_proof_fault(
                sub_proofs,
                expected,
                i,
            ) is None by {
                assert(is_signed_by(sub_proofs[i].0@, sub_proofs[i].1@, instance));
            }
        }
    } else if sub_proofs.len() > 0 {
        assert(sub_proofs[0].0@.len() != TDX_PROOF_SIZE);
    }
}

/// An aggregation is proved exactly where there are sub-proofs and the local key
/// signed them all: no other key can have made one of them.
pub proof fn aggregation_allows_no_other_key(secret: Seq<u8>, sub_proofs: Seq<(Vec<u8>, B256)>)
    ensures
        aggregation_fault(secret, sub_proofs) is None <==> {
            &&& sub_proofs.len() > 0
            &&& forall|i: int|
                #![trigger sub_proofs[i]]
                0 <= i < sub_proofs.len() ==> is_signed_by(
                    sub_proofs[i].0@,
                    sub_proofs[i].1@,
                    primitives::address_of(signature::secret_address(secret)),
                )
        },
{
    sub_proofs_have_one_signer(
        sub_proofs,
        primitives::address_of(signature::secret_address(secret)),
    );
}

/// Proofs that were made under a key, over whatever hashes and for whatever instance
/// ids, are aggregated under that key.
pub proof fn proofs_by_one_key_aggregate(
    secret: Seq<u8>,
    instance_ids: Seq<u32>,
    made: Seq<PendingProof>,
    sub_proofs: Seq<(Vec<u8>, B256)>,
)
    requires
        sub_proofs.len() > 0,
        made.len() == sub_proofs.len(),
        instance_ids.len() == sub_proofs.len(),
        forall|i: int|
            #![trigger sub_proofs[i]]
            0 <= i < sub_proofs.len() ==> {
                &&& made[i].is_over(instance_ids[i], secret, sub_proofs[i].1@)
                &&& sub_proofs[i].0@ == made[i].proof@
            },
    ensures
        aggregation_fault(secret, sub_proofs) is None,
{
    aggregation_allows_no_other_key(secret, sub_proofs);
}

/// The wire form of a proof has the instance id in its first four bytes, most
/// significant first, then the address and then the signature, byte by byte in their
/// order.
pub proof fn proof_bytes_are_in_their_order(
    instance_id: u32,
    address: Seq<u8>,
    signature: Seq<u8>,
)
    requires
        address.len() == 20,
        signature.len() == 65,
    ensures
        ({
            let bytes = proof_bytes(instance_id, address, signature);
            &&& bytes.len() == 89
            &&& bytes[0] * 0x1000000 + bytes[1] * 0x10000 + bytes[2] * 0x100 + bytes[3]
                == instance_id
            &&& forall|i: int| 0 <= i < 20 ==> #[trigger] bytes[4 + i] == address[i]
            &&& forall|i: int| 0 <= i < 65 ==> #[trigger] bytes[24 + i] == signature[i]
        }),
{
    proof_fields_come_back(instance_id, address, signature);
    let bytes = proof_bytes(instance_id, address, signature);
    assert forall|i: int| 0 <= i < 20 implies #[trigger] bytes[4 + i] == address[i] by {
        assert(proof_address(bytes)[i] == address[i]);
    }
    assert forall|i: int| 0 <= i < 65 implies #[trigger] bytes[24 + i] == signature[i] by {
        assert(proof_signature(bytes)[i] == signature[i]);
    }
}

/// The fields of any bytes of the wire size stand where the wire form has them.
pub proof fn proof_fields_are_in_their_places(bytes: Seq<u8>)
    requires
        bytes.len() == 89,
    ensures
        proof_instance_id(bytes) == bytes[0] * 0x1000000 + bytes[1] * 0x10000 + bytes[2] * 0x100
            + bytes[3],
        proof_address(bytes).len() == 20,
        forall|i: int| 0 <= i < 20 ==> #[trigger] proof_address(bytes)[i] == bytes[4 + i],
        proof_signature(bytes).len() == 65,
        forall|i: int| 0 <= i < 65 ==> #[trigger] proof_signature(bytes)[i] == bytes[24 + i],
{
    lemma_big_endian_of_four(bytes.subrange(0, 4));
}

/// A request for a quote names the method, and its texts read as the user data and as
/// the nonce; there is no other user data that it is over.
pub proof fn quote_request_is_over_its_data(
    quote: QuoteRequest,
    user_data: Seq<u8>,
    other: Seq<u8>,
)
    requires
        quote.is_over(user_data),
    ensures
        quote.request.method@ == "issue"@,
        hex_text::hex_bytes(vstd::utf8::encode_utf8(quote.request.data.user_data@)) == Ok::<
            Seq<u8>,
            hex_text::HexError,
        >(user_data),
        hex_text::hex_bytes(vstd::utf8::encode_utf8(quote.request.data.nonce@)) == Ok::<
            Seq<u8>,
            hex_text::HexError,
        >(quote.nonce@),
        quote.nonce@.len() == 32,
        quote.is_over(other) ==> other == user_data,
{
    hex_text::decode_reads_what_encode_writes(user_data);
    hex_text::decode_reads_what_encode_writes(other);
    hex_text::decode_reads_what_encode_writes(quote.nonce@);
}

/// The user data of the bootstrap quote is 32 bytes long. It begins with the address,
/// in its order, and all that follows is zero.
pub proof fn bootstrap_quote_is_over_the_address(address: Seq<u8>)
    requires
        address.len() == 20,
    ensures
        padded_address(address).len() == 32,
        padded_address(address).subrange(0, 20) == address,
        forall|i: int| 0 <= i < 20 ==> #[trigger] padded_address(address)[i] == address[i],
        forall|i: int| 20 <= i < 32 ==> #[trigger] padded_address(address)[i] == 0,
{
    assert(padded_address(address).subrange(0, 20) =~= address);
}

/// Bytes are a proof by an address where they have the wire size, the address stands in
/// them in its order, and it is the signer of the 65 bytes behind it.
pub proof fn signed_by_is_the_signer_named(bytes: Seq<u8>, digest: Seq<u8>, address: Address)
    ensures
        is_signed_by(bytes, digest, address) <==> {
            &&& bytes.len() == 89
            &&& forall|i: int| 0 <= i < 20 ==> #[trigger] bytes[4 + i] == address.0[i]
            &&& signature::signer(bytes.skip(24), digest) == Ok::<Address, Error>(address)
        },
{
    if bytes.len() == 89 {
        assert(bytes.skip(24) =~= bytes.subrange(24, 89));
        if forall|i: int| 0 <= i < 20 ==> #[trigger] bytes[4 + i] == address.0[i] {
            assert forall|i: int| 0 <= i < 20 implies bytes.subrange(4, 24)[i] == address@[i] by {
                assert(bytes[4 + i] == address.0[i]);
            }
            assert(bytes.subrange(4, 24) =~= address@);
        }
        if proof_address(bytes) == address@ {
            assert forall|i: int| 0 <= i < 20 implies #[trigger] bytes[4 + i] == address.0[i] by {
                assert(proof_address(bytes)[i] == address@[i]);
            }
        }
    }
}

/// A proof of a digest under a secret has the instance id, the address of the secret
/// and the signature of the digest at their places, and the quote asked for is over the
/// same digest.
pub proof fn pending_proof_is_of_the_digest(
    pending: PendingProof,
    instance_id: u32,
    secret: Seq<u8>,
    digest: Seq<u8>,
    address: Address,
)
    requires
        pending.is_over(instance_id, secret, digest),
        address@ == signature::secret_address(secret),
        signature::signature_bytes(secret, digest).len() == 65,
    ensures
        ({
            let bytes = pending.proof@;
            &&& bytes.len() == 89
            &&& bytes[0] * 0x1000000 + bytes[1] * 0x10000 + bytes[2] * 0x100 + bytes[3]
                == instance_id
            &&& forall|i: int| 0 <= i < 20 ==> #[trigger] bytes[4 + i] == address.0[i]
            &&& bytes.skip(24) == signature::signature_bytes(secret, digest)
            &&& signature::signer(bytes.skip(24), digest) == Ok::<Address, Error>(address)
        }),
        hex_text::hex_bytes(vstd::utf8::encode_utf8(pending.quote.request.data.user_data@)) == Ok::<
            Seq<u8>,
            hex_text::HexError,
        >(digest),
{
    primitives::address_is_its_bytes(address);
    let signed = signature::signature_bytes(secret, digest);
    proof_bytes_are_in_their_order(instance_id, address@, signed);
    proof_fields_come_back(instance_id, address@, signed);
    signed_by_is_the_signer_named(pending.proof@, digest, address);
    assert(pending.proof@.skip(24) =~= pending.proof@.subrange(24, 89));
    quote_request_is_over_its_data(pending.quote, digest, digest);
}

/// Of several sub-proofs, the first that is not by the instance that the first one names
/// decides: by its size, by the instance that it names, by its signature having no
/// signer, or by its signer.
pub proof fn first_bad_sub_proof_is_reported(
    sub_proofs: Seq<(Vec<u8>, B256)>,
    index: int,
    expected: Address,
    named: Address,
)
    requires
        0 <= index < sub_proofs.len(),
        index < usize::MAX,
        forall|i: int|
            #![trigger sub_proofs[i]]
            0 <= i < index ==> is_signed_by(sub_proofs[i].0@, sub_proofs[i].1@, expected),
        index == 0 && sub_proofs[0].0@.len() == 89 ==> sub_proofs[0].0@.subrange(4, 24)
            == expected@,
        sub_proofs[index].0@.len() == 89 ==> sub_proofs[index].0@.subrange(4, 24) == named@,
    ensures
        ({
            let bytes = sub_proofs[index].0@;
            let found = signature::signer(bytes.skip(24), sub_proofs[index].1@);
            if bytes.len() != 89 {
                &&& common_instance(sub_proofs) matches Err(Error::InvalidProofSize { got })
                &&& got == bytes.len()
            } else if named != expected {
                &&& common_instance(sub_proofs) matches Err(
                    Error::SubProofRotation { index: at, instance, expected: first },
                )
                &&& at == index
                &&& instance == named
                &&& first == expected
            } else {
                match found {
                    Err(error) => common_instance(sub_proofs) == Err::<Address, Error>(error),
                    Ok(signer) => signer != expected ==> {
                        &&& common_instance(sub_proofs) matches Err(
                            Error::SubProofSigner { index: at, expected: first, recovered },
                        )
                        &&& at == index
                        &&& first == expected
                        &&& recovered == signer
                    },
                }
            }
        }),
{
    let bytes = sub_proofs[index].0@;
    let first = sub_proofs[0].0@;
    primitives::address_is_its_bytes(expected);
    primitives::address_is_its_bytes(named);
    lemma_vec_fits(sub_proofs[index].0);
    if index > 0 {
        assert(is_signed_by(first, sub_proofs[0].1@, expected));
    }
    if bytes.len() == 89 {
        assert(bytes.skip(24) =~= bytes.subrange(24, 89));
    }
    if first.len() == 89 {
        assert(proof_address(first) == expected@);
        lemma_faults_begin_at(sub_proofs, expected, 0, index);
    }
}

proof fn lemma_vec_fits(bytes: Vec<u8>)
    ensures
        bytes@.len() <= usize::MAX,
{
    broadcast use vstd::std_specs::vec::axiom_spec_len;

    assert(bytes@.len() == bytes.len());
}

proof fn lemma_faults_begin_at(
    sub_proofs: Seq<(Vec<u8>, B256)>,
    expected: Address,
    from: int,
    index: int,
)
    requires
        0 <= from <= index < sub_proofs.len(),
        forall|i: int|
            #![trigger sub_proofs[i]]
            from <= i < index ==> is_signed_by(sub_proofs[i].0@, sub_proofs[i].1@, expected),
    ensures
        first_fault(sub_proofs, expected, from) == first_fault(sub_proofs, expected, index),
    decreases index - from,
{
    primitives::address_is_its_bytes(expected);
    if from < index {
        assert(is_signed_by(sub_proofs[from].0@, sub_proofs[from].1@, expected));
        lemma_faults_begin_at(sub_proofs, expected, from + 1, index);
    }
}

/// No sub-proofs at all are refused as such. Sub-proofs by another instance than the
/// local one are refused with both, and what keeps them from having one instance is
/// passed on.
pub proof fn aggregation_is_refused_with_its_reason(
    secret: Seq<u8>,
    sub_proofs: Seq<(Vec<u8>, B256)>,
    local: Address,
)
    requires
        local@ == signature::secret_address(secret),
    ensures
        sub_proofs.len() == 0 ==> common_instance(sub_proofs) == Err::<Address, Error>(
            Error::NoSubProofs,
        ),
        match common_instance(sub_proofs) {
            Err(error) => aggregation_fault(secret, sub_proofs) == Some(error),
            Ok(instance) => instance != local ==> aggregation_fault(secret, sub_proofs) == Some(
                Error::LocalRotation { local, expected: instance },
            ),
        },
{
    primitives::address_is_its_bytes(local);
}

} // verus!
