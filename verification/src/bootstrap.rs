//! Bootstrapping the prover: a key, a quote that binds it to the running image, and
//! a record of both.
//!
//! Each type here is a bootstrap at one stage:
//!
//! [`bootstrap`] -> [`BootstrapMetadata`] -> [`BootstrapKey`] -> [`BootstrapQuote`]
//! -> [`BootstrapRecord`]. A prover that has been bootstrapped stays as it is.

use vstd::prelude::*;

use crate::attestation;
use crate::attestation::{IssueResponse, MetadataRequestData, MetadataResponse, Request};
use crate::disk;
use crate::error::{Context, Error};
use crate::hex_text;
use crate::persistence;
use crate::persistence::{BootstrapData, FileOp, FilesPresent, Layout};
use crate::primitives;
use crate::primitives::Address;
use crate::protocol::BootstrapResponse;
use crate::signature;
use crate::signature::{address_from_private_key, SecretKey};
use crate::tdx_proof;
use crate::tdx_proof::{generate_tdx_quote_from_public_key, get_tdx_metadata, QuoteRequest};

verus! {

/// How a bootstrap begins.
#[derive(Debug)]
pub enum BootstrapStart {
    /// The prover has been bootstrapped: its record is to be read.
    Reuse,
    /// It has not been.
    Fresh(BootstrapMetadata),
}

/// A bootstrap for which the attestation daemon is to be asked what it is.
#[derive(Debug)]
pub struct BootstrapMetadata {
    /// Where the files are.
    pub layout: Layout,
}

/// A bootstrap whose key is to be stored.
pub struct BootstrapKey {
    /// Where the files are.
    pub layout: Layout,
    /// Kind of the issuer.
    pub issuer_type: String,
    /// Metadata of the issuer.
    pub metadata: serde_json::Value,
    /// The key.
    pub private_key: SecretKey,
    /// What to do to store it.
    pub save: Vec<FileOp>,
}

/// A bootstrap whose quote is to be issued.
#[derive(Debug)]
pub struct BootstrapQuote {
    /// Where the files are.
    pub layout: Layout,
    /// Kind of the issuer.
    pub issuer_type: String,
    /// Metadata of the issuer.
    pub metadata: serde_json::Value,
    /// Address of the key.
    pub address: Address,
    /// The request for the quote.
    pub quote: QuoteRequest,
}

/// A bootstrap whose record is to be stored.
#[derive(Debug)]
pub struct BootstrapRecord {
    /// What to do to store it.
    pub write: Vec<FileOp>,
}

/// Begins to bootstrap, unless both files are there.
pub fn bootstrap(files: &FilesPresent, layout: Layout) -> (start: BootstrapStart)
    ensures
        if files.record && files.private_key {
            start == BootstrapStart::Reuse
        } else {
            start == BootstrapStart::Fresh(BootstrapMetadata { layout })
        },
{
    if persistence::bootstrap_exists(files) {
        BootstrapStart::Reuse
    } else {
        BootstrapStart::Fresh(BootstrapMetadata { layout })
    }
}

impl BootstrapMetadata {
    /// What to ask the attestation daemon.
    pub fn request(&self) -> (request: Request<MetadataRequestData>)
        ensures
            request.method@ == "metadata"@,
    {
        attestation::metadata_request()
    }

    /// Goes on with what came back: makes a key if the issuer is supported.
    pub fn with_metadata(self, reply: Result<MetadataResponse, Error>) -> (result: Result<
        BootstrapKey,
        Error,
    >)
        ensures
            match attestation::reported_metadata(reply) {
                Err(error) => result == Err::<BootstrapKey, Error>(
                    error.within(Context::DaemonMetadata),
                ),
                Ok(reported) => match result {
                    Ok(stage) => {
                        &&& persistence::is_supported_issuer(reported.issuer_type@)
                        &&& stage.layout == self.layout
                        &&& stage.issuer_type == reported.issuer_type
                        &&& stage.metadata == reported.metadata
                        &&& signature::is_secret(stage.private_key@)
                        &&& persistence::plan(stage.save@) == persistence::key_plan(
                            self.layout,
                            stage.private_key@,
                        )
                    },
                    Err(error) => {
                        &&& !persistence::is_supported_issuer(reported.issuer_type@)
                        &&& error matches Error::UnsupportedIssuer { issuer }
                        &&& issuer@ == reported.issuer_type@
                    },
                },
            },
    {
        let reported = match get_tdx_metadata(reply) {
            Ok(reported) => reported,
            Err(error) => return Err(error.context(Context::DaemonMetadata)),
        };
        match persistence::validate_issuer(reported.issuer_type.as_str()) {
            Ok(_) => {},
            Err(error) => return Err(error),
        }
        let (private_key, save) = persistence::generate_private_key(&self.layout);
        Ok(
            BootstrapKey {
                layout: self.layout,
                issuer_type: reported.issuer_type,
                metadata: reported.metadata,
                private_key,
                save,
            },
        )
    }
}

impl BootstrapKey {
    /// Goes on with what came of storing the key: asks for a quote that embeds its
    /// address.
    pub fn with_saved(self, saved: Result<(), Error>) -> (result: Result<BootstrapQuote, Error>)
        ensures
            match saved {
                Err(error) => result == Err::<BootstrapQuote, Error>(
                    error.within(Context::GenerateKey),
                ),
                Ok(_) => {
                    &&& result is Ok
                    &&& result->Ok_0.layout == self.layout
                    &&& result->Ok_0.issuer_type == self.issuer_type
                    &&& result->Ok_0.metadata == self.metadata
                    &&& result->Ok_0.address@ == signature::secret_address(self.private_key@)
                    &&& result->Ok_0.quote.is_over(
                        tdx_proof::padded_address(result->Ok_0.address@),
                    )
                },
            },
    {
        match saved {
            Ok(_) => {
                let address = address_from_private_key(&self.private_key);
                let quote = generate_tdx_quote_from_public_key(&address);
                Ok(
                    BootstrapQuote {
                        layout: self.layout,
                        issuer_type: self.issuer_type,
                        metadata: self.metadata,
                        address,
                        quote,
                    },
                )
            },
            Err(error) => Err(error.context(Context::GenerateKey)),
        }
    }
}

impl BootstrapQuote {
    /// Goes on with what came of the request for the quote.
    pub fn with_quote(self, reply: Result<IssueResponse, Error>) -> (result: Result<
        BootstrapRecord,
        Error,
    >)
        ensures
            match attestation::document(reply) {
                Err(error) => result == Err::<BootstrapRecord, Error>(
                    error.within(Context::RequestQuote),
                ),
                Ok(quote) => {
                    &&& result is Ok
                    &&& persistence::plan(result->Ok_0.write@) == persistence::record_plan(
                        self.layout,
                        persistence::bootstrap_record(
                            self.issuer_type@,
                            quote,
                            self.address@,
                            self.quote.nonce@,
                            self.metadata,
                        ),
                    )
                },
            },
    {
        let (quote, nonce) = match self.quote.complete(reply) {
            Ok((quote, nonce)) => (quote, nonce),
            Err(error) => return Err(error.context(Context::RequestQuote)),
        };
        let write = persistence::write_bootstrap(
            &self.layout,
            self.issuer_type.as_str(),
            quote.as_slice(),
            &self.address,
            nonce.as_slice(),
            self.metadata,
        );
        Ok(BootstrapRecord { write })
    }
}

impl BootstrapRecord {
    /// Ends with what came of storing the record, which is then to be read.
    pub fn with_written(self, written: Result<(), Error>) -> (result: Result<(), Error>)
        ensures
            match written {
                Err(error) => result == Err::<(), Error>(error.within(Context::PersistRecord)),
                Ok(_) => result is Ok,
            },
    {
        match written {
            Ok(_) => Ok(()),
            Err(error) => Err(error.context(Context::PersistRecord)),
        }
    }
}

/// A bootstrap record, as it is answered.
pub open spec fn bootstrap_response(record: BootstrapData) -> BootstrapResponse {
    BootstrapResponse {
        issuer_type: record.issuer_type,
        public_key: record.public_key,
        quote: record.quote,
        nonce: record.nonce,
        metadata: record.metadata,
    }
}

/// The answer with what came of reading the bootstrap record: the record as it is.
pub fn load_bootstrap_response(record: Result<BootstrapData, Error>) -> (result: Result<
    BootstrapResponse,
    Error,
>)
    ensures
        match record {
            Ok(record) => result == Ok::<BootstrapResponse, Error>(bootstrap_response(record)),
            Err(error) => result == Err::<BootstrapResponse, Error>(
                error.within(Context::ReadRecord),
            ),
        },
{
    match record {
        Ok(data) => Ok(
            BootstrapResponse {
                issuer_type: data.issuer_type,
                public_key: data.public_key,
                quote: data.quote,
                nonce: data.nonce,
                metadata: data.metadata,
            },
        ),
        Err(error) => Err(error.context(Context::ReadRecord)),
    }
}

/// What an attestation daemon that answers says of itself.
#[derive(Debug)]
pub struct DaemonReport {
    /// Kind of the issuer.
    pub issuer_type: String,
    /// Metadata of the issuer.
    pub metadata: serde_json::Value,
}

/// What the attestation daemon says of itself, in what came back of a request for its
/// metadata.
pub open spec fn daemon_report(reply: Result<MetadataResponse, Error>) -> Result<
    DaemonReport,
    Error,
> {
    match attestation::reported_metadata(reply) {
        Ok(reported) => Ok(
            DaemonReport { issuer_type: reported.issuer_type, metadata: reported.metadata },
        ),
        Err(error) => Err(error.within(Context::DaemonPing)),
    }
}

/// Reads what the attestation daemon says of itself.
pub fn ping_attestation(reply: Result<MetadataResponse, Error>) -> (result: Result<
    DaemonReport,
    Error,
>)
    ensures
        result == daemon_report(reply),
{
    match attestation::metadata(reply) {
        Ok(reported) => Ok(
            DaemonReport { issuer_type: reported.issuer_type, metadata: reported.metadata },
        ),
        Err(error) => Err(error.context(Context::DaemonPing)),
    }
}

/// Whether the stored key is the one of the stored record, given what came of reading
/// them, or why not.
pub open spec fn consistency(
    record: Result<BootstrapData, Error>,
    key: Result<Vec<u8>, Error>,
) -> Result<(), Error> {
    match record {
        Err(error) => Err(error),
        Ok(record) => match key {
            Err(error) => Err(error),
            Ok(key) => if !signature::is_secret(key@) {
                Err(Error::InvalidPrivateKey)
            } else {
                let actual = primitives::address_of(signature::secret_address(key@));
                match primitives::address_from_text(vstd::utf8::encode_utf8(record.public_key@)) {
                    Err(error) => Err(
                        Error::AddressDigits { error }.within(
                            Context::RecordAddress { public_key: record.public_key },
                        ),
                    ),
                    Ok(bytes) => {
                        let recorded = primitives::address_of(bytes);
                        if actual != recorded {
                            Err(Error::KeyMismatch { actual, recorded })
                        } else {
                            Ok(())
                        }
                    },
                }
            },
        },
    }
}

/// Verifies that the stored key is the one of the stored record.
pub fn verify_disk_consistency(
    record: Result<BootstrapData, Error>,
    key: Result<Vec<u8>, Error>,
) -> (result: Result<(), Error>)
    ensures
        result == consistency(record, key),
{
    let record = match record {
        Ok(record) => record,
        Err(error) => return Err(error),
    };
    let key = match persistence::load_private_key(key) {
        Ok(key) => key,
        Err(error) => return Err(error),
    };
    let actual = address_from_private_key(&key);
    let recorded = match Address::from_text(record.public_key.as_str()) {
        Ok(recorded) => recorded,
        Err(error) => return Err(
            Error::AddressDigits { error }.context(
                Context::RecordAddress { public_key: record.public_key },
            ),
        ),
    };
    proof {
        primitives::address_is_its_bytes(actual);
        primitives::address_is_its_bytes(recorded);
    }
    if actual != recorded {
        return Err(Error::KeyMismatch { actual, recorded });
    }
    Ok(())
}

/// The files that a bootstrap stores are both there, the key with mode 0600, and
/// consistent: whatever was on the disk before, reading them back and verifying the key
/// against the record succeeds.
pub proof fn bootstrap_leaves_consistent_files(
    layout: Layout,
    secret: Seq<u8>,
    address: Address,
    issuer_type: Seq<char>,
    quote: Seq<u8>,
    nonce: Seq<u8>,
    metadata: serde_json::Value,
    before: Map<Seq<u8>, disk::FileView>,
    umask_mode: u32,
    record: BootstrapData,
    key: Vec<u8>,
)
    requires
        layout.well_formed(),
        signature::is_secret(secret),
        address@ == signature::secret_address(secret),
        record@ == persistence::bootstrap_record(issuer_type, quote, address@, nonce, metadata),
        key@ == secret,
    ensures
        ({
            let with_key = disk::performed_all(
                before,
                persistence::key_plan(layout, secret),
                umask_mode,
            );
            let after = disk::performed_all(
                with_key,
                persistence::record_plan(layout, record@),
                umask_mode,
            );
            &&& after.dom().contains(layout.record@)
            &&& after[layout.record@].content == disk::Content::Record(record@)
            &&& after.dom().contains(layout.private_key@)
            &&& after[layout.private_key@].content == disk::Content::Bytes(key@)
            &&& after[layout.private_key@].mode == 0o600
        }),
        consistency(Ok(record), Ok(key)) is Ok,
{
    disk::key_is_stored(layout, secret, before, umask_mode);
    let with_key = disk::performed_all(before, persistence::key_plan(layout, secret), umask_mode);
    disk::record_is_stored(layout, record@, with_key, umask_mode);
    disk::lemma_places_differ(layout);
    let after = disk::performed_all(
        with_key,
        persistence::record_plan(layout, record@),
        umask_mode,
    );
    assert(disk::same_at(after, with_key, layout.private_key@));
    primitives::address_is_its_bytes(address);
    primitives::address_text_reads_back(address);
}

/// A record is answered field by field as it was read.
pub proof fn record_is_answered_as_it_is(record: BootstrapData)
    ensures
        bootstrap_response(record).issuer_type@ == record.issuer_type@,
        bootstrap_response(record).public_key@ == record.public_key@,
        bootstrap_response(record).quote@ == record.quote@,
        bootstrap_response(record).nonce@ == record.nonce@,
        bootstrap_response(record).metadata == record.metadata,
{
}

/// What the daemon reports of itself is in its response, and it reports nothing where
/// the response has anything but data.
pub proof fn report_is_the_daemons(reply: Result<MetadataResponse, Error>)
    ensures
        daemon_report(reply) is Ok <==> reply is Ok && reply->Ok_0.data is Some
            && reply->Ok_0.error is None,
        daemon_report(reply) matches Ok(report) ==> {
            &&& report.issuer_type@ == reply->Ok_0.data->0.issuer_type@
            &&& report.metadata == reply->Ok_0.data->0.metadata
        },
        daemon_report(reply) matches Err(error) ==> {
            &&& error matches Error::Context { context, cause }
            &&& context == Context::DaemonPing
            &&& attestation::reported_metadata(reply) == Err::<
                attestation::MetadataResponseData,
                Error,
            >(*cause)
        },
{
}

/// The files are consistent exactly where both can be read, the key is a secret, and
/// the text in the record reads as the address of that secret.
pub proof fn consistent_files_have_one_address(
    record: BootstrapData,
    key: Vec<u8>,
    actual: Address,
    recorded: Address,
)
    requires
        actual@ == signature::secret_address(key@),
    ensures
        ({
            let read = primitives::address_from_text(vstd::utf8::encode_utf8(record.public_key@));
            let outcome = consistency(Ok(record), Ok(key));
            &&& !signature::is_secret(key@) ==> outcome == Err::<(), Error>(
                Error::InvalidPrivateKey,
            )
            &&& signature::is_secret(key@) && read == Ok::<Seq<u8>, hex_text::HexError>(recorded@)
                ==> if actual == recorded {
                outcome is Ok
            } else {
                outcome == Err::<(), Error>(Error::KeyMismatch { actual, recorded })
            }
            &&& signature::is_secret(key@) && read is Err ==> {
                &&& outcome matches Err(Error::Context { context, cause })
                &&& context == (Context::RecordAddress { public_key: record.public_key })
                &&& *cause == (Error::AddressDigits { error: read->Err_0 })
            }
        }),
{
    primitives::address_is_its_bytes(actual);
    primitives::address_is_its_bytes(recorded);
}

/// Where the record or the key cannot be read the files are not consistent: the failure
/// to read is passed on, that of the record before that of the key.
pub proof fn unreadable_files_are_not_consistent(
    record: Result<BootstrapData, Error>,
    key: Result<Vec<u8>, Error>,
)
    ensures
        record matches Err(error) ==> consistency(record, key) == Err::<(), Error>(error),
        record is Ok ==> (key matches Err(error) ==> consistency(record, key) == Err::<(), Error>(
            error,
        )),
{
}

} // verus!
