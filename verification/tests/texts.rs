use reth_tdx::attestation::{issue_attestation, issue_request, metadata_request, IssueResponseData, Response};
use reth_tdx::error::{Context, Error};
use reth_tdx::hex_text::{decode_prefixed, HexError};
use reth_tdx::primitives::{Address, B256};
use reth_tdx::text::decimal_text;

#[test]
fn decimals_have_no_leading_zeros() {
    assert_eq!(decimal_text(0), "0");
    assert_eq!(decimal_text(9), "9");
    assert_eq!(decimal_text(10), "10");
    assert_eq!(decimal_text(1234567890), "1234567890");
    assert_eq!(decimal_text(u64::MAX), "18446744073709551615");
}

#[test]
fn addresses_are_written_with_their_checksum() {
    let text = "0xd8dA6BF26964aF9D7eEd9e03E53415D37aA96045";
    let address = Address::from_text(text).unwrap();
    assert_eq!(address.0[0], 0xd8);
    assert_eq!(address.0[19], 0x45);
    assert_eq!(address.to_string(), text);
}

#[test]
fn addresses_are_read_in_any_case_and_with_any_prefix() {
    let expected = Address([0xab; 20]);
    assert_eq!(Address::from_text(&"ab".repeat(20)).unwrap(), expected);
    assert_eq!(Address::from_text(&format!("0x{}", "AB".repeat(20))).unwrap(), expected);
    assert_eq!(Address::from_text(&format!("0X{}", "aB".repeat(20))).unwrap(), expected);
    assert_eq!(Address::from_text(&expected.to_string()).unwrap(), expected);
}

#[test]
fn address_errors_are_told_apart() {
    assert_eq!(Address::from_text("0xabc").unwrap_err(), HexError::OddLength);
    assert_eq!(Address::from_text("0xabcd").unwrap_err(), HexError::InvalidStringLength);
    assert_eq!(Address::from_text("").unwrap_err(), HexError::InvalidStringLength);
    let text = format!("0xab!{}", "0".repeat(37));
    assert_eq!(
        Address::from_text(&text).unwrap_err(),
        HexError::InvalidHexCharacter { c: '!', index: 2 }
    );
}

#[test]
fn words_are_written_in_lower_case() {
    assert_eq!(B256([0xAB; 32]).to_string(), format!("0x{}", "ab".repeat(32)));
}

#[test]
fn equality_is_by_bytes() {
    let mut bytes = [7u8; 32];
    assert!(B256(bytes) == B256([7u8; 32]));
    bytes[31] = 8;
    assert!(B256(bytes) != B256([7u8; 32]));
    assert!(Address([1; 20]) != Address([2; 20]));
}

#[test]
fn prefixed_hex_is_read_behind_all_prefixes() {
    assert_eq!(decode_prefixed("0x0aFf").unwrap(), vec![0x0a, 0xff]);
    assert_eq!(decode_prefixed("0aff").unwrap(), vec![0x0a, 0xff]);
    assert_eq!(decode_prefixed("0x0x01").unwrap(), vec![1]);
    assert_eq!(decode_prefixed("0x").unwrap(), Vec::<u8>::new());
    assert_eq!(decode_prefixed("").unwrap(), Vec::<u8>::new());
}

#[test]
fn prefixed_hex_errors_are_told_apart() {
    assert_eq!(decode_prefixed("0x123").unwrap_err(), HexError::OddLength);
    assert_eq!(
        decode_prefixed("0x12g4").unwrap_err(),
        HexError::InvalidHexCharacter { c: 'g', index: 2 }
    );
    assert_eq!(
        decode_prefixed("0X12").unwrap_err(),
        HexError::InvalidHexCharacter { c: 'X', index: 1 }
    );
    assert_eq!(
        decode_prefixed("\u{e9}").unwrap_err(),
        HexError::InvalidHexCharacter { c: '\u{c3}', index: 0 }
    );
}

#[test]
fn issue_request_encodes_its_data() {
    let request = issue_request(&[0x00, 0x1f, 0xff], &[0xab]);
    assert_eq!(request.method, "issue");
    assert_eq!(request.data.user_data, "001fff");
    assert_eq!(request.data.nonce, "ab");
    assert_eq!(metadata_request().method, "metadata");
}

#[test]
fn a_response_has_data_or_an_error() {
    let ok: Response<u8> = Response { data: Some(3), error: None };
    assert_eq!(ok.into_result().unwrap(), 3);
    let rejected: Response<u8> = Response { data: None, error: Some("no".to_string()) };
    assert_eq!(
        rejected.into_result().unwrap_err().to_string(),
        "Attestation service error: no"
    );
    let empty: Response<u8> = Response { data: None, error: None };
    assert_eq!(
        empty.into_result().unwrap_err().to_string(),
        "Invalid response: neither data nor error"
    );
    let both: Response<u8> = Response { data: Some(3), error: Some("odd".to_string()) };
    assert_eq!(
        both.into_result().unwrap_err().to_string(),
        "Invalid response: both data and error present. Error: odd"
    );
}

#[test]
fn a_document_is_hexadecimal() {
    let reply = |document: &str| {
        Ok(Response {
            data: Some(IssueResponseData { document: document.to_string() }),
            error: None,
        })
    };
    assert_eq!(issue_attestation(reply("00ff")).unwrap(), vec![0, 255]);
    let err = issue_attestation(reply("0x00")).unwrap_err();
    assert_eq!(err.to_string(), "Failed to decode attestation document from hex");
    assert_eq!(
        err.cause().unwrap().to_string(),
        "Invalid character 'x' at position 1"
    );
    let err = issue_attestation(reply("0\n")).unwrap_err();
    assert_eq!(
        err.cause().unwrap().to_string(),
        "Invalid character '\\n' at position 1"
    );
    let err = issue_attestation(reply("000")).unwrap_err();
    assert_eq!(err.cause().unwrap().to_string(), "Odd number of digits");
    let external = Error::External { message: "no socket".to_string() };
    assert_eq!(issue_attestation(Err(external)).unwrap_err().to_string(), "no socket");
}

#[test]
fn the_words_are_those_of_the_outermost_failure() {
    let inner = Error::External { message: "connection refused".to_string() };
    let err = inner.context(Context::FetchSubProofBlock { number: 12, index: 3 });
    assert_eq!(err.to_string(), "fetching L2 block 12 for aggregation sub-proof 3");
    assert_eq!(err.cause().unwrap().to_string(), "connection refused");
    assert!(err.cause().unwrap().cause().is_none());
}

#[test]
fn every_fixed_text_is_spelled_out() {
    let fixed = [
        (Error::NoSubProofs, "No sub-proofs provided for aggregation"),
        (Error::EmptyAggregate, "aggregate request has no sub-proofs"),
        (Error::NoHomeDirectory, "Failed to get home directory"),
        (Error::NoCommitment, "failed to build Shasta commitment from carry data"),
        (
            Error::NoAggregateCommitment,
            "failed to build aggregation commitment (chain not continuous)",
        ),
        (Error::ProbeTimeout, "local L2 eth_blockNumber timed out"),
        (
            Error::NoSubProofCommitment { index: 4 },
            "failed to build single-proof commitment for sub-proof 4",
        ),
        (
            Error::AddressDigits { error: HexError::InvalidStringLength },
            "invalid string length",
        ),
        (
            Error::MissingBlock { number: 77 },
            "local L2 has no block at number 77 \u{2014} has Nethermind synced past the proposal yet?",
        ),
        (
            Error::UnsupportedIssuer { issuer: "x".to_string() },
            "Unsupported tdxs issuer 'x' \u{2014} expected one of [\"tdx\", \"azure\", \"gcp\", \"simulator\"]",
        ),
    ];
    for (error, text) in fixed {
        assert_eq!(error.to_string(), text);
    }
}
