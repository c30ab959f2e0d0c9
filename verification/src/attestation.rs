//! What is said to the tdxs attestation daemon, and what its answers mean.
//!
//! The daemon speaks JSON over a Unix socket: one request, then its response up to
//! the end of the stream. It stands for the issuer below it (`tdx`, `azure`, `gcp`
//! or `simulator`), so the prover is the same on every deployment.

use vstd::prelude::*;

use crate::error::{Context, Error};
use crate::hex_text;

verus! {

/// A JSON value whose contents the prover only passes on.
#[verifier::external_type_specification]
#[verifier::external_body]
pub struct ExValue(serde_json::Value);

/// The envelope of a request.
#[derive(Debug)]
pub struct Request<T> {
    /// Method name.
    pub method: String,
    /// Method-specific payload.
    pub data: T,
}

/// The payload of an `issue` request.
#[derive(Debug)]
pub struct IssueRequestData {
    /// Hex-encoded user data to embed in the report of the quote.
    pub user_data: String,
    /// Hex-encoded nonce that binds the quote to this request.
    pub nonce: String,
}

/// The payload of a `metadata` request.
#[derive(Debug)]
pub struct MetadataRequestData {}

/// The envelope of a response: exactly one of `data` and `error` is to be set.
#[derive(Debug)]
pub struct Response<T> {
    /// Method-specific success payload.
    pub data: Option<T>,
    /// Error message if the daemon rejected the request.
    pub error: Option<String>,
}

/// Response to an `issue` request.
pub type IssueResponse = Response<IssueResponseData>;

/// Response to a `metadata` request.
pub type MetadataResponse = Response<MetadataResponseData>;

/// The payload of a response to `issue`.
#[derive(Debug)]
pub struct IssueResponseData {
    /// Hex-encoded attestation document.
    pub document: String,
}

/// The payload of a response to `metadata`.
#[derive(Debug)]
pub struct MetadataResponseData {
    /// One of `tdx`, `azure`, `gcp`, `simulator`.
    pub issuer_type: String,
    /// Hex-encoded user data of the most recent attestation.
    pub user_data: String,
    /// Hex-encoded nonce of the most recent attestation.
    pub nonce: String,
    /// Issuer-specific metadata.
    pub metadata: serde_json::Value,
}

impl<T> Response<T> {
    /// What the response says.
    pub open spec fn outcome(self) -> Result<T, Error> {
        match (self.data, self.error) {
            (Some(data), None) => Ok(data),
            (None, Some(error)) => Err(Error::Daemon { message: error }),
            (None, None) => Err(Error::EmptyReply),
            (Some(_), Some(error)) => Err(Error::AmbiguousReply { message: error }),
        }
    }

    /// The payload, or why there is none.
    pub fn into_result(self) -> (result: Result<T, Error>)
        ensures
            result == self.outcome(),
    {
        match (self.data, self.error) {
            (Some(data), None) => Ok(data),
            (None, Some(error)) => Err(Error::Daemon { message: error }),
            (None, None) => Err(Error::EmptyReply),
            (Some(_), Some(error)) => Err(Error::AmbiguousReply { message: error }),
        }
    }
}

/// The request for a quote over `user_data`, bound to `nonce`.
pub fn issue_request(user_data: &[u8], nonce: &[u8]) -> (request: Request<IssueRequestData>)
    ensures
        request.method@ == "issue"@,
        request.data.user_data@ == hex_text::hex_text(user_data@),
        request.data.nonce@ == hex_text::hex_text(nonce@),
{
    Request {
        method: "issue".to_owned(),
        data: IssueRequestData {
            user_data: hex_text::encode(user_data),
            nonce: hex_text::encode(nonce),
        },
    }
}

/// The attestation document in what came back of an `issue` request.
pub open spec fn document(reply: Result<IssueResponse, Error>) -> Result<Seq<u8>, Error> {
    match reply {
        Err(error) => Err(error),
        Ok(response) => match response.outcome() {
            Err(error) => Err(error),
            Ok(data) => match hex_text::hex_bytes(vstd::utf8::encode_utf8(data.document@)) {
                Err(error) => Err(Error::Hex { error }.within(Context::DecodeDocument)),
                Ok(bytes) => Ok(bytes),
            },
        },
    }
}

/// Reads the attestation document from what came back of an `issue` request.
pub fn issue_attestation(reply: Result<IssueResponse, Error>) -> (result: Result<Vec<u8>, Error>)
    ensures
        match result {
            Ok(bytes) => document(reply) == Ok::<Seq<u8>, Error>(bytes@),
            Err(error) => document(reply) == Err::<Seq<u8>, Error>(error),
        },
{
    let response = match reply {
        Ok(response) => response,
        Err(error) => return Err(error),
    };
    let data = match response.into_result() {
        Ok(data) => data,
        Err(error) => return Err(error),
    };
    match hex_text::decode(data.document.as_str().as_bytes()) {
        Ok(bytes) => Ok(bytes),
        Err(error) => Err(Error::Hex { error }.context(Context::DecodeDocument)),
    }
}

/// The request for the metadata of the daemon.
pub fn metadata_request() -> (request: Request<MetadataRequestData>)
    ensures
        request.method@ == "metadata"@,
{
    Request { method: "metadata".to_owned(), data: MetadataRequestData {  } }
}

/// The metadata in what came back of a `metadata` request.
pub open spec fn reported_metadata(reply: Result<MetadataResponse, Error>) -> Result<
    MetadataResponseData,
    Error,
> {
    match reply {
        Err(error) => Err(error),
        Ok(response) => response.outcome(),
    }
}

/// Reads the metadata from what came back of a `metadata` request.
pub fn metadata(reply: Result<MetadataResponse, Error>) -> (result: Result<
    MetadataResponseData,
    Error,
>)
    ensures
        result == reported_metadata(reply),
{
    match reply {
        Ok(response) => response.into_result(),
        Err(error) => Err(error),
    }
}

/// A response is a success exactly where it has data and no error, and the data is then
/// the result; any other is a failure that repeats the words of the daemon.
pub proof fn only_data_alone_is_a_success<T>(response: Response<T>)
    ensures
        response.outcome() is Ok <==> response.data is Some && response.error is None,
        response.outcome() matches Ok(data) ==> response.data == Some(data),
        response.outcome() matches Err(error) ==> match response.error {
            None => error == Error::EmptyReply,
            Some(words) => if response.data is None {
                error == (Error::Daemon { message: words })
            } else {
                error == (Error::AmbiguousReply { message: words })
            },
        },
{
}

/// A document that writes bytes is read as these bytes, all of them, whatever their
/// number.
pub proof fn document_is_read_whole(response: IssueResponse, data: IssueResponseData, bytes: Seq<u8>)
    requires
        response.data == Some(data),
        response.error is None,
        data.document@ == hex_text::hex_text(bytes),
    ensures
        document(Ok(response)) == Ok::<Seq<u8>, Error>(bytes),
{
    hex_text::decode_reads_what_encode_writes(bytes);
}

/// Whatever is read as a document is written in the response, two digits to the byte;
/// a response whose document is not hexadecimal says what is wrong with it, and any
/// other failure is passed on.
pub proof fn document_is_what_was_sent(reply: Result<IssueResponse, Error>)
    ensures
        match reply {
            Err(error) => document(reply) == Err::<Seq<u8>, Error>(error),
            Ok(response) => match (response.data, response.error) {
                (Some(data), None) => match hex_text::hex_bytes(
                    vstd::utf8::encode_utf8(data.document@),
                ) {
                    Ok(bytes) => {
                        &&& document(reply) == Ok::<Seq<u8>, Error>(bytes)
                        &&& vstd::utf8::encode_utf8(data.document@).len() == 2 * bytes.len()
                    },
                    Err(error) => document(reply) matches Err(Error::Context { context, cause })
                        && context == Context::DecodeDocument && *cause == (Error::Hex { error }),
                },
                (_, Some(words)) => document(reply) == Err::<Seq<u8>, Error>(
                    if response.data is None {
                        Error::Daemon { message: words }
                    } else {
                        Error::AmbiguousReply { message: words }
                    },
                ),
                (None, None) => document(reply) == Err::<Seq<u8>, Error>(Error::EmptyReply),
            },
        },
{
}

/// The metadata that is reported is that of the response, field by field.
pub proof fn metadata_is_what_was_sent(reply: Result<MetadataResponse, Error>)
    ensures
        match reply {
            Err(error) => reported_metadata(reply) == Err::<MetadataResponseData, Error>(error),
            Ok(response) => match (response.data, response.error) {
                (Some(data), None) => {
                    &&& reported_metadata(reply) is Ok
                    &&& reported_metadata(reply)->Ok_0.issuer_type == data.issuer_type
                    &&& reported_metadata(reply)->Ok_0.user_data == data.user_data
                    &&& reported_metadata(reply)->Ok_0.nonce == data.nonce
                    &&& reported_metadata(reply)->Ok_0.metadata == data.metadata
                },
                (_, Some(words)) => reported_metadata(reply) == Err::<MetadataResponseData, Error>(
                    if response.data is None {
                        Error::Daemon { message: words }
                    } else {
                        Error::AmbiguousReply { message: words }
                    },
                ),
                (None, None) => reported_metadata(reply) == Err::<MetadataResponseData, Error>(
                    Error::EmptyReply,
                ),
            },
        },
{
}

} // verus!
