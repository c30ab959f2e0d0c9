//! What the HTTP endpoints answer.

use vstd::prelude::*;

use crate::error::Error;
use crate::proposal;
use crate::proposal::SignedProposal;
use crate::protocol::{
    BootstrapResponse, ProofError, ProofResponse, ProofResult, ProofStatus, ShastaAggregateProof,
    ShastaAggregateRequest, ShastaProvePayload, ShastaProveRequest,
    RETH_TDX_PROOF_RESPONSE_SCHEMA, RETH_TDX_SHASTA_AGGREGATE_REQUEST_SCHEMA,
    RETH_TDX_SHASTA_REQUEST_SCHEMA,
};

verus! {

/// The largest request body that is accepted.
pub const MAX_REQUEST_BODY_BYTES: usize = 67108864;

/// HTTP status of a success.
pub const STATUS_OK: u16 = 200;

/// HTTP status of a request that is not understood.
pub const STATUS_BAD_REQUEST: u16 = 400;

/// HTTP status of a failure.
pub const STATUS_INTERNAL_SERVER_ERROR: u16 = 500;

/// What a liveness probe is answered.
pub fn health() -> (answer: (u16, &'static str))
    ensures
        answer.0 == STATUS_OK,
        answer.1@ == "ok"@,
{
    (STATUS_OK, "ok")
}

/// What a request for the bootstrap record is answered.
pub fn bootstrap_handler(record: Result<BootstrapResponse, Error>) -> (answer: Result<
    BootstrapResponse,
    (u16, String),
>)
    ensures
        match record {
            Ok(record) => answer == Ok::<BootstrapResponse, (u16, String)>(record),
            Err(error) => {
                &&& answer is Err
                &&& answer->Err_0.0 == STATUS_INTERNAL_SERVER_ERROR
                &&& answer->Err_0.1@ == error.words()
            },
        },
{
    match record {
        Ok(record) => Ok(record),
        Err(error) => Err((STATUS_INTERNAL_SERVER_ERROR, error.to_string())),
    }
}

impl ProofResponse {
    /// Whether a response has the response schema and exactly one of a result and an
    /// error, the one that its status says.
    pub open spec fn well_formed(self) -> bool {
        &&& self.schema@ == RETH_TDX_PROOF_RESPONSE_SCHEMA@
        &&& self.result is Some <==> self.status == ProofStatus::Success
        &&& self.error is Some <==> self.status == ProofStatus::Error
    }

    /// Whether this reports an error with a code and a message.
    pub open spec fn reports(self, code: Seq<char>, message: Seq<char>) -> bool {
        &&& self.well_formed()
        &&& self.error is Some
        &&& self.error->0.code@ == code
        &&& self.error->0.message@ == message
    }
}

/// The answer with a proof.
pub fn success_response(result: ProofResult) -> (answer: (u16, ProofResponse))
    ensures
        answer.0 == STATUS_OK,
        answer.1.well_formed(),
        answer.1.result == Some(result),
{
    (
        STATUS_OK,
        ProofResponse {
            schema: RETH_TDX_PROOF_RESPONSE_SCHEMA.to_owned(),
            status: ProofStatus::Success,
            result: Some(result),
            error: None,
        },
    )
}

/// The answer with an error.
pub fn error_response(status: u16, code: &str, message: String) -> (answer: (u16, ProofResponse))
    ensures
        answer.0 == status,
        answer.1.reports(code@, message@),
{
    (
        status,
        ProofResponse {
            schema: RETH_TDX_PROOF_RESPONSE_SCHEMA.to_owned(),
            status: ProofStatus::Error,
            result: None,
            error: Some(ProofError { code: code.to_owned(), message }),
        },
    )
}

/// What a request with another schema is told.
pub open spec fn schema_message(expected: Seq<char>, got: Seq<char>) -> Seq<char> {
    "expected "@ + expected + ", got "@ + got
}

fn unsupported_schema(expected: &str, got: &str) -> (answer: (u16, ProofResponse))
    ensures
        answer.0 == STATUS_BAD_REQUEST,
        answer.1.reports("unsupported_schema"@, schema_message(expected@, got@)),
{
    let mut message = "expected ".to_owned();
    message.append(expected);
    message.append(", got ");
    message.append(got);
    error_response(STATUS_BAD_REQUEST, "unsupported_schema", message)
}

/// Admits a request to prove a proposal if it has the schema for that; any other is
/// answered at once.
pub fn admit_prove(request: ShastaProveRequest) -> (admitted: Result<
    ShastaProvePayload,
    (u16, ProofResponse),
>)
    ensures
        if request.schema@ == RETH_TDX_SHASTA_REQUEST_SCHEMA@ {
            admitted == Ok::<ShastaProvePayload, (u16, ProofResponse)>(request.payload)
        } else {
            &&& admitted is Err
            &&& admitted->Err_0.0 == STATUS_BAD_REQUEST
            &&& admitted->Err_0.1.reports(
                "unsupported_schema"@,
                schema_message(RETH_TDX_SHASTA_REQUEST_SCHEMA@, request.schema@),
            )
        },
{
    let expected = RETH_TDX_SHASTA_REQUEST_SCHEMA.to_owned();
    if request.schema != expected {
        return Err(unsupported_schema(expected.as_str(), request.schema.as_str()));
    }
    Ok(request.payload)
}

/// Admits a request to aggregate sub-proofs if it has the schema for that; any other
/// is answered at once.
pub fn admit_aggregate(request: ShastaAggregateRequest) -> (admitted: Result<
    Vec<ShastaAggregateProof>,
    (u16, ProofResponse),
>)
    ensures
        if request.schema@ == RETH_TDX_SHASTA_AGGREGATE_REQUEST_SCHEMA@ {
            admitted == Ok::<Vec<ShastaAggregateProof>, (u16, ProofResponse)>(
                request.payload.proofs,
            )
        } else {
            &&& admitted is Err
            &&& admitted->Err_0.0 == STATUS_BAD_REQUEST
            &&& admitted->Err_0.1.reports(
                "unsupported_schema"@,
                schema_message(RETH_TDX_SHASTA_AGGREGATE_REQUEST_SCHEMA@, request.schema@),
            )
        },
{
    let expected = RETH_TDX_SHASTA_AGGREGATE_REQUEST_SCHEMA.to_owned();
    if request.schema != expected {
        return Err(unsupported_schema(expected.as_str(), request.schema.as_str()));
    }
    Ok(request.payload.proofs)
}

/// Whether this is the answer to an admitted request: the proof, or the words for why
/// there is none under a code.
pub open spec fn answers(
    answer: (u16, ProofResponse),
    outcome: Result<SignedProposal, Error>,
    code: Seq<char>,
) -> bool {
    match outcome {
        Ok(signed) => {
            &&& answer.0 == STATUS_OK
            &&& answer.1.well_formed()
            &&& answer.1.result == Some(proposal::proof_result(signed))
        },
        Err(error) => {
            &&& answer.0 == STATUS_INTERNAL_SERVER_ERROR
            &&& answer.1.reports(code, error.words())
        },
    }
}

/// Answers a request to prove a proposal.
pub fn prove_shasta(outcome: Result<SignedProposal, Error>) -> (answer: (u16, ProofResponse))
    ensures
        answers(answer, outcome, "prove_failed"@),
{
    match outcome {
        Ok(signed) => success_response(ProofResult::from(signed)),
        Err(error) => error_response(
            STATUS_INTERNAL_SERVER_ERROR,
            "prove_failed",
            error.to_string(),
        ),
    }
}

/// Answers a request to aggregate sub-proofs.
pub fn prove_shasta_aggregate(outcome: Result<SignedProposal, Error>) -> (answer: (
    u16,
    ProofResponse,
))
    ensures
        answers(answer, outcome, "aggregate_failed"@),
{
    match outcome {
        Ok(signed) => success_response(ProofResult::from(signed)),
        Err(error) => error_response(
            STATUS_INTERNAL_SERVER_ERROR,
            "aggregate_failed",
            error.to_string(),
        ),
    }
}

/// An answer with a proof has the status 200, the schema of responses and all fields of
/// the signed proposal, and no error.
pub proof fn proof_is_answered_whole(
    answer: (u16, ProofResponse),
    signed: SignedProposal,
    code: Seq<char>,
)
    requires
        answers(answer, Ok(signed), code),
    ensures
        answer.0 == 200,
        answer.1.schema@ == "reth-tdx-proof-v1"@,
        answer.1.status == ProofStatus::Success,
        answer.1.error is None,
        answer.1.result is Some,
        answer.1.result->0.proof@ == signed.proof@,
        answer.1.result->0.quote@ == signed.quote@,
        answer.1.result->0.input@ == signed.input@,
        answer.1.result->0.instance_address is Some,
        answer.1.result->0.instance_address->0@ == signed.instance_address@,
        answer.1.result->0.proof_carry_data_vec is Some,
        answer.1.result->0.proof_carry_data_vec->0@ == signed.carry_data_vec@,
{
}

/// An answer without a proof has the status 500, the code, the words for what failed and
/// no result.
pub proof fn failure_is_answered_in_its_words(
    answer: (u16, ProofResponse),
    error: Error,
    code: Seq<char>,
)
    requires
        answers(answer, Err(error), code),
    ensures
        answer.0 == 500,
        answer.1.schema@ == "reth-tdx-proof-v1"@,
        answer.1.status == ProofStatus::Error,
        answer.1.result is None,
        answer.1.error is Some,
        answer.1.error->0.code@ == code,
        answer.1.error->0.message@ == error.words(),
{
}

/// A response that reports an error has its code and its message, and is marked as an
/// error without a result.
pub proof fn reported_error_is_whole(
    response: ProofResponse,
    code: Seq<char>,
    message: Seq<char>,
)
    requires
        response.reports(code, message),
    ensures
        response.schema@ == "reth-tdx-proof-v1"@,
        response.status == ProofStatus::Error,
        response.result is None,
        response.error is Some,
        response.error->0.code@ == code,
        response.error->0.message@ == message,
{
}

/// A well-formed response has exactly one of a result and an error, and its status says
/// which.
pub proof fn response_has_a_result_or_an_error(response: ProofResponse)
    requires
        response.well_formed(),
    ensures
        response.schema@ == "reth-tdx-proof-v1"@,
        response.result is Some <==> response.error is None,
        response.status == ProofStatus::Success <==> response.result is Some,
{
}

/// A caller with another schema is told first the one that is expected and then the one
/// that was sent.
pub proof fn schema_message_names_both(expected: Seq<char>, got: Seq<char>)
    ensures
        schema_message(expected, got).len() == 9 + expected.len() + 6 + got.len(),
        schema_message(expected, got).subrange(0, 9) == "expected "@,
        schema_message(expected, got).subrange(9, 9 + expected.len() as int) == expected,
        schema_message(expected, got).subrange(
            9 + expected.len() as int,
            15 + expected.len() as int,
        ) == ", got "@,
        schema_message(expected, got).skip(15 + expected.len() as int) == got,
{
    reveal_strlit("expected ");
    reveal_strlit(", got ");
    let message = schema_message(expected, got);
    assert(message.subrange(0, 9) =~= "expected "@);
    assert(message.subrange(9, 9 + expected.len() as int) =~= expected);
    assert(message.subrange(9 + expected.len() as int, 15 + expected.len() as int) =~= ", got "@);
    assert(message.skip(15 + expected.len() as int) =~= got);
}

/// A request body may have 64 MiB, and the statuses are those of HTTP.
pub proof fn limits_are_as_promised()
    ensures
        MAX_REQUEST_BODY_BYTES == 64 * 1024 * 1024,
        STATUS_OK == 200,
        STATUS_BAD_REQUEST == 400,
        STATUS_INTERNAL_SERVER_ERROR == 500,
        RETH_TDX_SHASTA_REQUEST_SCHEMA@ == "reth-tdx-shasta-request-v1"@,
        RETH_TDX_SHASTA_AGGREGATE_REQUEST_SCHEMA@ == "reth-tdx-shasta-aggregate-request-v1"@,
        RETH_TDX_PROOF_RESPONSE_SCHEMA@ == "reth-tdx-proof-v1"@,
{
}

} // verus!
