use reth_tdx::attestation::{IssueResponseData, Response};
use reth_tdx::error::Error;
use reth_tdx::primitives::{Address, B256};
use reth_tdx::signature::{address_from_private_key, recover_signer, sign_message, SecretKey};
use reth_tdx::tdx_proof::{
    generate_tdx_quote, generate_tdx_quote_from_public_key, prove, prove_shasta_aggregation,
    quote_request, verify_sub_proofs, TdxProof, TDX_PROOF_SIZE,
};

fn signed_proof(secret: &SecretKey, instance_id: u32, input_hash: B256) -> (Vec<u8>, B256) {
    let address = address_from_private_key(secret);
    let signature = sign_message(secret, &input_hash).expect("sign");
    let proof = TdxProof::new(instance_id, &address, &signature).into_vec();
    (proof, input_hash)
}

fn secret_one() -> SecretKey {
    let mut bytes = [0u8; 32];
    bytes[31] = 1;
    SecretKey::from_slice(&bytes).expect("one is a secret")
}

fn issued(document: &str) -> Result<Response<IssueResponseData>, Error> {
    Ok(Response {
        data: Some(IssueResponseData { document: document.to_string() }),
        error: None,
    })
}

#[test]
fn from_bytes_rejects_short_buffer() {
    let err = TdxProof::from_bytes(&[0u8; TDX_PROOF_SIZE - 1]).expect_err("short");
    assert!(err.to_string().contains("Invalid proof size"));
}

#[test]
fn from_bytes_rejects_long_buffer() {
    let err = TdxProof::from_bytes(&[0u8; TDX_PROOF_SIZE + 1]).expect_err("long");
    assert!(err.to_string().contains("Invalid proof size"));
}

#[test]
fn invalid_proof_size_names_both_sizes() {
    let err = TdxProof::from_bytes(&[0u8; 100]).expect_err("long");
    assert_eq!(err.to_string(), "Invalid proof size: expected 89, got 100");
}

#[test]
fn proof_round_trip_preserves_fields() {
    let address = Address([0xab; 20]);
    let signature = [0x42u8; 65];
    let proof = TdxProof::new(7, &address, &signature);
    let bytes = proof.into_vec();
    let parsed = TdxProof::from_bytes(&bytes).expect("parse");

    assert_eq!(parsed.instance_id(), 7);
    assert_eq!(parsed.public_key(), address);
    assert_eq!(parsed.signature(), signature);
}

#[test]
fn proof_layout_is_id_address_signature() {
    let bytes = TdxProof::new(0x01020304, &Address([0xaa; 20]), &[0xbb; 65]).into_vec();
    assert_eq!(bytes.len(), 89);
    assert_eq!(bytes[0..4], [1, 2, 3, 4]);
    assert!(bytes[4..24].iter().all(|b| *b == 0xaa));
    assert!(bytes[24..].iter().all(|b| *b == 0xbb));
    let parsed = TdxProof::from_bytes(&bytes).unwrap();
    assert_eq!(parsed.instance_id(), 0x01020304);
    assert_eq!(parsed.into_vec(), bytes);
    let largest = TdxProof::new(u32::MAX, &Address([0; 20]), &[0; 65]);
    assert_eq!(largest.instance_id(), u32::MAX);
}

#[test]
fn verify_sub_proofs_rejects_empty() {
    let err = verify_sub_proofs(&[]).expect_err("empty");
    assert!(err.to_string().contains("No sub-proofs"));
}

#[test]
fn verify_sub_proofs_accepts_consistent_signatures() {
    let secret = SecretKey::generate();
    let expected = address_from_private_key(&secret);

    let sub_proofs = vec![
        signed_proof(&secret, 1, B256([0x11; 32])),
        signed_proof(&secret, 1, B256([0x22; 32])),
    ];

    let instance = verify_sub_proofs(&sub_proofs).expect("verify");
    assert_eq!(instance, expected);
}

#[test]
fn verify_sub_proofs_rejects_key_rotation() {
    let secret_a = SecretKey::generate();
    let secret_b = SecretKey::generate();

    let sub_proofs = vec![
        signed_proof(&secret_a, 1, B256([0x11; 32])),
        signed_proof(&secret_b, 1, B256([0x22; 32])),
    ];

    let err = verify_sub_proofs(&sub_proofs).expect_err("rotation");
    assert!(
        err.to_string().contains("key rotation"),
        "unexpected error: {}",
        err.to_string()
    );
    let expected = format!(
        "Shasta aggregation does not allow key rotation: proof 1 has instance {}, expected {}",
        address_from_private_key(&secret_b).to_string(),
        address_from_private_key(&secret_a).to_string()
    );
    assert_eq!(err.to_string(), expected);
}

#[test]
fn verify_sub_proofs_rejects_signature_against_wrong_hash() {
    let secret = SecretKey::generate();

    let (proof_bytes, _) = signed_proof(&secret, 1, B256([0x11; 32]));
    let sub_proofs = vec![(proof_bytes, B256([0x22; 32]))];

    let err = verify_sub_proofs(&sub_proofs).expect_err("bad sig");
    assert!(
        err.to_string().contains("signature verification failed"),
        "unexpected error: {}",
        err.to_string()
    );
}

#[test]
fn verify_sub_proofs_rejects_malformed_proof_bytes() {
    let sub_proofs = vec![(vec![0u8; TDX_PROOF_SIZE - 1], B256([0u8; 32]))];
    let err = verify_sub_proofs(&sub_proofs).expect_err("malformed");
    assert!(err.to_string().contains("Invalid proof size"));
}

#[test]
fn verify_sub_proofs_reports_the_first_fault() {
    let secret = SecretKey::generate();
    let sub_proofs = vec![
        signed_proof(&secret, 1, B256([0x11; 32])),
        (vec![0u8; 3], B256([0x22; 32])),
        signed_proof(&SecretKey::generate(), 1, B256([0x33; 32])),
    ];
    let err = verify_sub_proofs(&sub_proofs).expect_err("second is malformed");
    assert!(matches!(err, Error::InvalidProofSize { got: 3 }));
}

#[test]
fn verify_sub_proofs_rejects_an_unrecoverable_signature() {
    let secret = SecretKey::generate();
    let (mut bytes, hash) = signed_proof(&secret, 1, B256([0x11; 32]));
    bytes[88] = 26;
    let err = verify_sub_proofs(&[(bytes.clone(), hash)]).expect_err("recovery id");
    assert!(matches!(err, Error::InvalidRecoveryId));
    assert_eq!(err.to_string(), "bad recovery id");
    bytes[88] = 31;
    let err = verify_sub_proofs(&[(bytes.clone(), hash)]).expect_err("recovery id");
    assert!(matches!(err, Error::InvalidRecoveryId));
    bytes[88] = 27;
    bytes[24..88].fill(0xff);
    let err = verify_sub_proofs(&[(bytes, hash)]).expect_err("signature");
    assert!(matches!(err, Error::InvalidSignature));
    assert_eq!(err.to_string(), "malformed signature");
}

#[test]
fn the_secret_one_has_its_known_address() {
    assert_eq!(
        address_from_private_key(&secret_one()).to_string(),
        "0x7E5F4552091A69125d5DfCb7b8C2659029395Bdf"
    );
}

#[test]
fn secrets_are_the_numbers_below_the_order() {
    let order: [u8; 32] = [
        0xff, 0xff, 0xff, 0xff, 0xff, 0xff, 0xff, 0xff, 0xff, 0xff, 0xff, 0xff, 0xff, 0xff, 0xff,
        0xfe, 0xba, 0xae, 0xdc, 0xe6, 0xaf, 0x48, 0xa0, 0x3b, 0xbf, 0xd2, 0x5e, 0x8c, 0xd0, 0x36,
        0x41, 0x41,
    ];
    assert!(SecretKey::from_slice(&order).is_err());
    let mut below = order;
    below[31] -= 1;
    assert_eq!(SecretKey::from_slice(&below).ok().unwrap().secret_bytes(), below);
    assert!(SecretKey::from_slice(&[0u8; 32]).is_err());
    assert!(SecretKey::from_slice(&[1u8; 31]).is_err());
    assert!(SecretKey::from_slice(&[1u8; 33]).is_err());
    let err = SecretKey::from_slice(&[]).err().unwrap();
    assert_eq!(
        err.to_string(),
        "Invalid private key: malformed or out-of-range secret key"
    );
}

#[test]
fn generated_secrets_differ() {
    assert_ne!(
        SecretKey::generate().secret_bytes(),
        SecretKey::generate().secret_bytes()
    );
}

#[test]
fn signature_is_compact_form_and_recovery_id() {
    let secret = secret_one();
    let digest = [0x5au8; 32];
    let signature = sign_message(&secret, &B256(digest)).unwrap();

    let key = secp256k1::SecretKey::from_slice(&secret.secret_bytes()).unwrap();
    let message = secp256k1::Message::from_digest(digest);
    let (id, compact) = secp256k1::SECP256K1
        .sign_ecdsa_recoverable(&message, &key)
        .serialize_compact();
    assert_eq!(signature[..64], compact);
    assert_eq!(signature[64] as i32, 27 + id.to_i32());
}

#[test]
fn the_signer_is_recovered() {
    for byte in 0u8..32 {
        let secret = SecretKey::generate();
        let message = B256([byte; 32]);
        let signature = sign_message(&secret, &message).unwrap();
        assert_eq!(
            recover_signer(&signature, &message).unwrap(),
            address_from_private_key(&secret)
        );
    }
}

#[test]
fn quote_is_asked_for_over_the_data_with_the_nonce() {
    let quote = quote_request(&B256([0xcd; 32]), [0x01; 32]);
    assert_eq!(quote.request.method, "issue");
    assert_eq!(quote.request.data.user_data, "cd".repeat(32));
    assert_eq!(quote.request.data.nonce, "01".repeat(32));
    let (document, nonce) = quote.complete(issued("0aFf")).unwrap();
    assert_eq!(document, vec![0x0a, 0xff]);
    assert_eq!(nonce, vec![1u8; 32]);
}

#[test]
fn quotes_have_fresh_nonces() {
    let one = generate_tdx_quote(&B256([0; 32]));
    let two = generate_tdx_quote(&B256([0; 32]));
    assert_eq!(one.nonce.len(), 32);
    assert_ne!(one.nonce, two.nonce);
}

#[test]
fn bootstrap_quote_embeds_the_padded_address() {
    let quote = generate_tdx_quote_from_public_key(&Address([0xab; 20]));
    let expected = format!("{}{}", "ab".repeat(20), "00".repeat(12));
    assert_eq!(quote.request.data.user_data, expected);
}

#[test]
fn prove_signs_the_hash_that_it_asks_a_quote_for() {
    let secret = SecretKey::generate();
    let hash = B256([0x77; 32]);
    let pending = prove(9, &secret, hash).unwrap();
    assert_eq!(pending.quote.request.data.user_data, "77".repeat(32));
    let instance = verify_sub_proofs(&[(pending.proof.clone(), hash)]).unwrap();
    assert_eq!(instance, address_from_private_key(&secret));
    let proof = TdxProof::from_bytes(&pending.proof).unwrap();
    assert_eq!(proof.instance_id(), 9);
    let data = pending.complete(issued("beef")).unwrap();
    assert_eq!(data.proof, proof.into_vec());
    assert_eq!(data.quote, vec![0xbe, 0xef]);
}

#[test]
fn prove_fails_with_the_daemon() {
    let pending = prove(9, &SecretKey::generate(), B256([0x77; 32])).unwrap();
    let reply = Ok(Response { data: None, error: Some("busy".to_string()) });
    let err = pending.complete(reply).expect_err("rejected");
    assert_eq!(err.to_string(), "Attestation service error: busy");
}

#[test]
fn aggregation_is_proved_under_the_same_key() {
    let secret = SecretKey::generate();
    let sub_proofs = vec![
        signed_proof(&secret, 1, B256([0x11; 32])),
        signed_proof(&secret, 1, B256([0x22; 32])),
    ];
    let hash = B256([0x33; 32]);
    let pending = prove_shasta_aggregation(5, &secret, &sub_proofs, hash).unwrap();
    assert_eq!(pending.pending.quote.request.data.user_data, "33".repeat(32));
    let data = pending.complete(issued("01")).unwrap();
    assert_eq!(data.aggregation_hash, hash);
    assert_eq!(data.quote, vec![1]);
    assert_eq!(TdxProof::from_bytes(&data.proof).unwrap().instance_id(), 5);
    assert!(verify_sub_proofs(&[(data.proof, hash)]).is_ok());
}

#[test]
fn aggregation_is_refused_under_another_key() {
    let secret = SecretKey::generate();
    let other = SecretKey::generate();
    let sub_proofs = vec![signed_proof(&secret, 1, B256([0x11; 32]))];
    let err = prove_shasta_aggregation(5, &other, &sub_proofs, B256([0x33; 32]))
        .expect_err("rotation");
    let expected = format!(
        "Shasta aggregation does not allow key rotation: local instance {} does not match sub-proofs instance {}",
        address_from_private_key(&other).to_string(),
        address_from_private_key(&secret).to_string()
    );
    assert_eq!(err.to_string(), expected);
}
