use reth_tdx::aggregation::{sign_aggregation, AggregationQuote, AggregationStep};
use reth_tdx::attestation::{IssueResponseData, Response};
use reth_tdx::error::Error;
use reth_tdx::l2_client::{L2BlockHeader, L2Client};
use reth_tdx::primitives::{Address, B256};
use reth_tdx::proposal::{
    proposal_carry_data_from_header, sign_proposal, validate_payload, SignedProposal,
    RESPONSE_SCHEMA,
};
use reth_tdx::protocol::{
    CommitmentRequest, ProofResult, ProofStatus, ShastaAggregatePayload, ShastaAggregateProof,
    ShastaAggregateRequest, ShastaProvePayload, ShastaProveRequest, ShastaTransitionInput,
};
use reth_tdx::server::{
    admit_aggregate, admit_prove, bootstrap_handler, error_response, health, prove_shasta,
    prove_shasta_aggregate,
};
use reth_tdx::signature::{address_from_private_key, SecretKey};
use reth_tdx::tdx_proof::{verify_sub_proofs, TdxProof};
use reth_tdx::Config;

fn config() -> Config {
    Config {
        tdxs_socket: "/var/tdxs.sock".to_string(),
        home: None,
        instance_id: 0x0a0b0c0d,
        l2_chain_id: 167000,
        verifier: Address([0x11; 20]),
    }
}

fn payload(proposal_id: u64) -> ShastaProvePayload {
    ShastaProvePayload {
        chain_id: 167000,
        verifier: Address([0x11; 20]),
        proposal_id,
        proposal_hash: B256([0x21; 32]),
        parent_proposal_hash: B256([0x22; 32]),
        actual_prover: Address([0x23; 20]),
        transition: ShastaTransitionInput { proposer: Address([0x24; 20]), timestamp: 99 },
    }
}

fn header(number: u64) -> L2BlockHeader {
    L2BlockHeader {
        number,
        hash: B256([number as u8; 32]),
        parent_hash: B256([number as u8 - 1; 32]),
        state_root: B256([0x77; 32]),
    }
}

fn issued() -> Result<Response<IssueResponseData>, Error> {
    Ok(Response {
        data: Some(IssueResponseData { document: "f00d".to_string() }),
        error: None,
    })
}

fn failure() -> Error {
    Error::External { message: "unreachable".to_string() }
}

/// Stands for the commitment hash: it depends on every block hash and on the instance.
fn hash(request: &CommitmentRequest) -> B256 {
    let mut bytes = [0u8; 32];
    for (i, carry) in request.carry_data_vec.iter().enumerate() {
        for j in 0..32 {
            let byte = carry.transition_input.checkpoint.block_hash.0[j];
            bytes[j] = bytes[j].wrapping_mul(31).wrapping_add(byte ^ i as u8);
        }
    }
    for j in 0..20 {
        bytes[j] ^= request.instance.0[j];
    }
    B256(bytes)
}

fn signed(secret: &SecretKey, proposal_id: u64) -> (SignedProposal, B256) {
    let stage = sign_proposal(&config(), payload(proposal_id)).unwrap();
    assert_eq!(stage.block_number(), proposal_id);
    let stage = stage.with_header(Ok(header(proposal_id))).unwrap();
    let stage = stage.with_key(Ok(secret.secret_bytes().to_vec())).ok().unwrap();
    let hash = hash(&stage.commitment_request());
    let stage = stage.with_hash(Some(hash)).unwrap();
    (stage.with_quote(issued()).unwrap(), hash)
}

fn sub_proof(secret: &SecretKey, proposal_id: u64) -> ShastaAggregateProof {
    let (signed, input) = signed(secret, proposal_id);
    ShastaAggregateProof { payload: payload(proposal_id), input, proof: signed.proof }
}

/// Runs an aggregation up to its quote, with the local blocks.
fn aggregate(
    secret: &SecretKey,
    sub_proofs: Vec<ShastaAggregateProof>,
) -> Result<AggregationQuote, Error> {
    let mut run = sign_aggregation(&config(), sub_proofs)?
        .with_key(Ok(secret.secret_bytes().to_vec()))?;
    loop {
        match run.next()? {
            AggregationStep::Fetch(stage) => {
                let number = stage.block_number();
                let stage = stage.with_header(Ok(header(number)))?;
                let request = stage.commitment_request();
                assert_eq!(request.carry_data_vec.len(), 1);
                run = stage.with_hash(Some(hash(&request)))?;
            }
            AggregationStep::Hash(stage) => {
                let request = stage.commitment_request();
                return stage.with_hash(Some(hash(&request)));
            }
        }
    }
}

#[test]
fn carry_data_combines_request_and_header() {
    let carry = proposal_carry_data_from_header(&payload(5), &header(5));
    assert_eq!(carry.chain_id, 167000);
    assert_eq!(carry.verifier, Address([0x11; 20]));
    let input = carry.transition_input;
    assert_eq!(input.proposal_id, 5);
    assert_eq!(input.proposal_hash, B256([0x21; 32]));
    assert_eq!(input.parent_proposal_hash, B256([0x22; 32]));
    assert_eq!(input.parent_block_hash, B256([4; 32]));
    assert_eq!(input.actual_prover, Address([0x23; 20]));
    assert_eq!(input.transition.proposer, Address([0x24; 20]));
    assert_eq!(input.transition.timestamp, 99);
    assert_eq!(input.checkpoint.block_number, 5);
    assert_eq!(input.checkpoint.block_hash, B256([5; 32]));
    assert_eq!(input.checkpoint.state_root, B256([0x77; 32]));
}

#[test]
fn a_payload_for_another_chain_is_refused() {
    let mut other = payload(5);
    other.chain_id = 1;
    other.verifier = Address([0x12; 20]);
    let err = sign_proposal(&config(), other).unwrap_err();
    assert_eq!(
        err.to_string(),
        "request chain_id 1 does not match prover's configured chain_id 167000"
    );
    other.chain_id = 167000;
    let err = validate_payload(&config(), &other).unwrap_err();
    let expected = format!(
        "request verifier {} does not match prover's configured verifier {}",
        Address([0x12; 20]).to_string(),
        Address([0x11; 20]).to_string()
    );
    assert_eq!(err.to_string(), expected);
    assert!(validate_payload(&config(), &payload(5)).is_ok());
}

#[test]
fn a_proposal_is_signed_over_its_commitment() {
    let secret = SecretKey::generate();
    let (signed, hash) = signed(&secret, 5);
    assert!(signed.proof.starts_with("0x0a0b0c0d"));
    assert_eq!(signed.proof.len(), 2 + 2 * 89);
    assert_eq!(signed.quote, "f00d");
    assert_eq!(signed.input, format!("0x{}", hex::encode(hash.0)));
    let instance = address_from_private_key(&secret);
    assert_eq!(signed.instance_address, instance.to_string());
    assert_eq!(signed.carry_data_vec.len(), 1);
    assert_eq!(signed.carry_data_vec[0].transition_input.proposal_id, 5);
    let bytes = hex::decode(&signed.proof[2..]).unwrap();
    assert_eq!(verify_sub_proofs(&[(bytes, hash)]).unwrap(), instance);
}

#[test]
fn a_proposal_asks_for_its_own_commitment_and_quote() {
    let secret = SecretKey::generate();
    let stage = sign_proposal(&config(), payload(5)).unwrap();
    let stage = stage.with_header(Ok(header(5))).unwrap();
    let stage = stage.with_key(Ok(secret.secret_bytes().to_vec())).ok().unwrap();
    let request = stage.commitment_request();
    assert_eq!(request.chain_id, 167000);
    assert_eq!(request.verifier, Address([0x11; 20]));
    assert_eq!(request.instance, address_from_private_key(&secret));
    let stage = stage.with_hash(Some(B256([0x5c; 32]))).unwrap();
    assert_eq!(stage.pending.quote.request.data.user_data, "5c".repeat(32));
}

#[test]
fn a_proposal_fails_where_a_stage_does() {
    let start = || sign_proposal(&config(), payload(5)).unwrap();
    let err = start().with_header(Err(failure())).unwrap_err();
    assert_eq!(err.to_string(), "fetching L2 block 5 from local node");
    let keyed = || start().with_header(Ok(header(5))).unwrap();
    let err = keyed().with_key(Err(failure())).err().unwrap();
    assert_eq!(err.to_string(), "failed to load TDX bootstrap key");
    assert_eq!(err.cause().unwrap().to_string(), "unreachable");
    let err = keyed().with_key(Ok(vec![0u8; 32])).err().unwrap();
    assert!(matches!(err.cause().unwrap(), Error::InvalidPrivateKey));
    let hashed = || keyed().with_key(Ok(vec![1u8; 32])).ok().unwrap();
    let err = hashed().with_hash(None).unwrap_err();
    assert_eq!(err.to_string(), "failed to build Shasta commitment from carry data");
    let err = hashed()
        .with_hash(Some(B256([1; 32])))
        .unwrap()
        .with_quote(Err(failure()))
        .unwrap_err();
    assert_eq!(err.to_string(), "TDX proposal proof generation failed");
}

#[test]
fn blocks_come_from_the_local_node() {
    let client = L2Client::local();
    assert_eq!(client.url(), "http://127.0.0.1:8547");
    let found = client.fetch_block_header(5, Ok(Some(header(5)))).unwrap();
    assert_eq!(found.number, 5);
    let err = client.fetch_block_header(5, Ok(None)).unwrap_err();
    assert!(err.to_string().starts_with("local L2 has no block at number 5 "));
    let err = client.fetch_block_header(5, Err(failure())).unwrap_err();
    assert_eq!(err.to_string(), "local L2 eth_getBlockByNumber(5) failed");
    assert_eq!(client.probe(Some(Ok(8))).unwrap(), 8);
}

#[test]
fn proposals_are_aggregated_in_their_order() {
    let secret = SecretKey::generate();
    let sub_proofs = vec![sub_proof(&secret, 5), sub_proof(&secret, 6), sub_proof(&secret, 7)];
    let stage = aggregate(&secret, sub_proofs).unwrap();
    let total = stage.pending.aggregation_hash;
    let signed = stage.with_quote(issued()).unwrap();
    assert_eq!(signed.carry_data_vec.len(), 3);
    for (i, carry) in signed.carry_data_vec.iter().enumerate() {
        assert_eq!(carry.transition_input.proposal_id, 5 + i as u64);
    }
    assert_eq!(signed.input, total.to_string());
    let bytes = hex::decode(&signed.proof[2..]).unwrap();
    assert_eq!(TdxProof::from_bytes(&bytes).unwrap().instance_id(), 0x0a0b0c0d);
    assert_eq!(
        verify_sub_proofs(&[(bytes, total)]).unwrap(),
        address_from_private_key(&secret)
    );
}

#[test]
fn an_aggregation_has_sub_proofs() {
    let err = sign_aggregation(&config(), Vec::new()).unwrap_err();
    assert_eq!(err.to_string(), "aggregate request has no sub-proofs");
}

#[test]
fn a_sub_proof_for_another_deployment_is_refused() {
    let secret = SecretKey::generate();
    let mut foreign = sub_proof(&secret, 6);
    foreign.payload.chain_id = 3;
    let err = aggregate(&secret, vec![sub_proof(&secret, 5), foreign]).unwrap_err();
    assert_eq!(err.to_string(), "sub-proof 1 chain_id 3 != prover's chain_id 167000");
    let mut foreign = sub_proof(&secret, 5);
    foreign.payload.verifier = Address([0x99; 20]);
    let err = aggregate(&secret, vec![foreign]).unwrap_err();
    let expected = format!(
        "sub-proof 0 verifier {} != prover's verifier {}",
        Address([0x99; 20]).to_string(),
        Address([0x11; 20]).to_string()
    );
    assert_eq!(err.to_string(), expected);
}

#[test]
fn a_sub_proof_over_another_block_is_refused() {
    let secret = SecretKey::generate();
    let mut drifted = sub_proof(&secret, 5);
    let good = drifted.input;
    drifted.input = B256([0xee; 32]);
    let err = aggregate(&secret, vec![drifted]).unwrap_err();
    let expected = format!(
        "sub-proof 0 rebuilt carry data hashes to {} but original sub-proof signed over {}; \
         the local L2 state may have changed since the sub-proof was produced",
        good.to_string(),
        B256([0xee; 32]).to_string()
    );
    assert_eq!(err.to_string(), expected);
}

#[test]
fn a_sub_proof_with_unreadable_bytes_is_refused() {
    let secret = SecretKey::generate();
    let mut bad = sub_proof(&secret, 5);
    bad.proof.push('0');
    let err = aggregate(&secret, vec![bad]).unwrap_err();
    assert_eq!(err.to_string(), "sub-proof 0 proof bytes are not valid hex");
    assert_eq!(err.cause().unwrap().to_string(), "Odd number of digits");
}

#[test]
fn a_sub_proof_by_another_key_is_refused() {
    let secret = SecretKey::generate();
    let other = SecretKey::generate();
    let mut foreign = sub_proof(&other, 5);
    foreign.input = sub_proof(&secret, 5).input;
    let err = aggregate(&secret, vec![foreign]).unwrap_err();
    assert_eq!(err.to_string(), "TDX aggregation proof generation failed");
    assert!(err.cause().unwrap().to_string().contains("signature verification failed"));
}

#[test]
fn an_aggregation_fails_where_a_stage_does() {
    let secret = SecretKey::generate();
    let start = || sign_aggregation(&config(), vec![sub_proof(&secret, 5)]).unwrap();
    let err = start().with_key(Err(failure())).err().unwrap();
    assert_eq!(err.to_string(), "failed to load TDX bootstrap key");
    let fetch = || match start()
        .with_key(Ok(secret.secret_bytes().to_vec()))
        .ok()
        .unwrap()
        .next()
        .ok()
        .unwrap()
    {
        AggregationStep::Fetch(stage) => stage,
        AggregationStep::Hash(_) => panic!("a block is to be fetched first"),
    };
    let err = fetch().with_header(Err(failure())).err().unwrap();
    assert_eq!(err.to_string(), "fetching L2 block 5 for aggregation sub-proof 0");
    let rebuilt = || fetch().with_header(Ok(header(5))).ok().unwrap();
    let err = rebuilt().with_hash(None).err().unwrap();
    assert_eq!(
        err.to_string(),
        "failed to build single-proof commitment for sub-proof 0"
    );
    let request = rebuilt().commitment_request();
    let total = match rebuilt().with_hash(Some(hash(&request))).ok().unwrap().next().ok().unwrap() {
        AggregationStep::Hash(stage) => stage,
        AggregationStep::Fetch(_) => panic!("all blocks were fetched"),
    };
    let err = total.with_hash(None).unwrap_err();
    assert_eq!(
        err.to_string(),
        "failed to build aggregation commitment (chain not continuous)"
    );
    let err = aggregate(&secret, vec![sub_proof(&secret, 5)])
        .unwrap()
        .with_quote(Err(failure()))
        .unwrap_err();
    assert_eq!(err.to_string(), "TDX aggregation proof generation failed");
}

#[test]
fn a_request_with_another_schema_is_answered_at_once() {
    let request = ShastaProveRequest {
        schema: "reth-tdx-shasta-request-v2".to_string(),
        payload: payload(5),
    };
    let (status, response) = admit_prove(request).unwrap_err();
    assert_eq!(status, 400);
    assert_eq!(response.schema, "reth-tdx-proof-v1");
    assert_eq!(response.schema, RESPONSE_SCHEMA);
    assert_eq!(response.status, ProofStatus::Error);
    assert!(response.result.is_none());
    let error = response.error.unwrap();
    assert_eq!(error.code, "unsupported_schema");
    assert_eq!(
        error.message,
        "expected reth-tdx-shasta-request-v1, got reth-tdx-shasta-request-v2"
    );

    let request = ShastaAggregateRequest {
        schema: "reth-tdx-shasta-request-v1".to_string(),
        payload: ShastaAggregatePayload { proofs: Vec::new() },
    };
    let (status, response) = admit_aggregate(request).unwrap_err();
    assert_eq!(status, 400);
    assert_eq!(
        response.error.unwrap().message,
        "expected reth-tdx-shasta-aggregate-request-v1, got reth-tdx-shasta-request-v1"
    );
}

#[test]
fn a_request_with_the_schema_is_admitted() {
    let request = ShastaProveRequest {
        schema: "reth-tdx-shasta-request-v1".to_string(),
        payload: payload(5),
    };
    assert_eq!(admit_prove(request).unwrap().proposal_id, 5);
    let request = ShastaAggregateRequest {
        schema: "reth-tdx-shasta-aggregate-request-v1".to_string(),
        payload: ShastaAggregatePayload { proofs: vec![sub_proof(&SecretKey::generate(), 5)] },
    };
    assert_eq!(admit_aggregate(request).unwrap().len(), 1);
}

#[test]
fn a_proof_is_answered_with_its_carry_data() {
    let (signed, _) = signed(&SecretKey::generate(), 5);
    let text = signed.proof.clone();
    let (status, response) = prove_shasta(Ok(signed));
    assert_eq!(status, 200);
    assert_eq!(response.status, ProofStatus::Success);
    assert!(response.error.is_none());
    let result = response.result.unwrap();
    assert_eq!(result.proof, text);
    assert_eq!(result.quote, "f00d");
    assert!(result.instance_address.is_some());
    assert_eq!(result.proof_carry_data_vec.unwrap().len(), 1);
}

#[test]
fn a_failure_is_answered_in_its_outermost_words() {
    let outcome = sign_proposal(&config(), payload(5)).unwrap().with_header(Err(failure()));
    let (status, response) = prove_shasta(Err(outcome.unwrap_err()));
    assert_eq!(status, 500);
    let error = response.error.unwrap();
    assert_eq!(error.code, "prove_failed");
    assert_eq!(error.message, "fetching L2 block 5 from local node");

    let (status, response) = prove_shasta_aggregate(Err(Error::EmptyAggregate));
    assert_eq!(status, 500);
    let error = response.error.unwrap();
    assert_eq!(error.code, "aggregate_failed");
    assert_eq!(error.message, "aggregate request has no sub-proofs");

    let (status, message) = bootstrap_handler(Err(failure())).unwrap_err();
    assert_eq!(status, 500);
    assert_eq!(message, "unreachable");
    assert_eq!(health(), (200, "ok"));
    assert_eq!(error_response(418, "teapot", String::new()).0, 418);
}

#[test]
fn a_signed_proposal_becomes_a_result() {
    let (signed, _) = signed(&SecretKey::generate(), 6);
    let address = signed.instance_address.clone();
    let result = ProofResult::from(signed);
    assert_eq!(result.instance_address, Some(address));
}
