//! Everything that can go wrong, and the words it is reported in.

use vstd::prelude::*;

use crate::hex_text::HexError;
use crate::primitives;
use crate::primitives::{Address, B256};
use crate::text;
use crate::text::decimal_text;

verus! {

/// Why the prover did not do what it was asked.
#[derive(Debug)]
pub enum Error {
    /// A failure of the file system, the network or a serialiser, in its own words.
    External {
        /// What was reported.
        message: String,
    },
    /// A proof does not have the wire size.
    InvalidProofSize {
        /// The size it has.
        got: usize,
    },
    /// There is nothing to aggregate.
    NoSubProofs,
    /// A sub-proof names another instance than the first one.
    SubProofRotation {
        /// Which sub-proof.
        index: usize,
        /// The instance it names.
        instance: Address,
        /// The instance the first one names.
        expected: Address,
    },
    /// The signature of a sub-proof is not by the instance that it names.
    SubProofSigner {
        /// Which sub-proof.
        index: usize,
        /// The instance it names.
        expected: Address,
        /// The signer.
        recovered: Address,
    },
    /// The local key is not the one that signed the sub-proofs.
    LocalRotation {
        /// The local instance.
        local: Address,
        /// The instance of the sub-proofs.
        expected: Address,
    },
    /// The last byte of a signature is no recovery id.
    InvalidRecoveryId,
    /// No public key can be recovered from a signature.
    InvalidSignature,
    /// The attestation daemon rejected the request.
    Daemon {
        /// Its words.
        message: String,
    },
    /// The attestation daemon answered with nothing.
    EmptyReply,
    /// The attestation daemon both answered and rejected.
    AmbiguousReply {
        /// Its words.
        message: String,
    },
    /// A text is not hexadecimal.
    Hex {
        /// What is wrong with it.
        error: HexError,
    },
    /// A text does not write an address.
    AddressDigits {
        /// What is wrong with it.
        error: HexError,
    },
    /// The stored bytes are no secp256k1 secret.
    InvalidPrivateKey,
    /// The attestation daemon is of an unknown kind.
    UnsupportedIssuer {
        /// The kind it reported.
        issuer: String,
    },
    /// There is no home directory.
    NoHomeDirectory,
    /// A request is for another chain.
    ChainIdMismatch {
        /// The chain of the request.
        requested: u64,
        /// The chain of the prover.
        configured: u64,
    },
    /// A request is for another verifier.
    VerifierMismatch {
        /// The verifier of the request.
        requested_verifier: Address,
        /// The verifier of the prover.
        configured_verifier: Address,
    },
    /// A proposal has no commitment.
    NoCommitment,
    /// An aggregation request names no sub-proof.
    EmptyAggregate,
    /// A sub-proof is for another chain.
    SubProofChainId {
        /// Which sub-proof.
        index: usize,
        /// Its chain.
        requested: u64,
        /// The chain of the prover.
        configured: u64,
    },
    /// A sub-proof is for another verifier.
    SubProofVerifier {
        /// Which sub-proof.
        index: usize,
        /// Its verifier.
        requested_verifier: Address,
        /// The verifier of the prover.
        configured_verifier: Address,
    },
    /// A sub-proof has no commitment.
    NoSubProofCommitment {
        /// Which sub-proof.
        index: usize,
    },
    /// The local L2 block is not the one that a sub-proof was signed over.
    SubProofDrift {
        /// Which sub-proof.
        index: usize,
        /// The hash over the local block.
        rebuilt: B256,
        /// The hash that was signed.
        signed: B256,
    },
    /// The sub-proofs do not follow one another.
    NoAggregateCommitment,
    /// The stored key is not the one of the bootstrap record.
    KeyMismatch {
        /// The address of the stored key.
        actual: Address,
        /// The address in the record.
        recorded: Address,
    },
    /// The local L2 node did not tell its height in time.
    ProbeTimeout,
    /// The local L2 node has no such block.
    MissingBlock {
        /// The block number.
        number: u64,
    },
    /// Something failed in the course of something larger.
    Context {
        /// The larger thing.
        context: Context,
        /// What failed in it.
        cause: Box<Error>,
    },
}

/// What the prover was doing when something failed.
#[derive(Debug)]
pub enum Context {
    /// Asking the local L2 node for a block.
    GetBlock {
        /// The block number.
        number: u64,
    },
    /// Asking the local L2 node for its height.
    BlockNumber,
    /// Fetching the block of a proposal.
    FetchBlock {
        /// The block number.
        number: u64,
    },
    /// Fetching the block of a sub-proof.
    FetchSubProofBlock {
        /// The block number.
        number: u64,
        /// Which sub-proof.
        index: usize,
    },
    /// Loading the signing key.
    LoadKey,
    /// Proving a proposal.
    ProposalProof,
    /// Reading the bytes of a sub-proof.
    SubProofHex {
        /// Which sub-proof.
        index: usize,
    },
    /// Proving an aggregation.
    AggregationProof,
    /// Reading an attestation document.
    DecodeDocument,
    /// Asking the attestation daemon what it is.
    DaemonMetadata,
    /// Making the signing key.
    GenerateKey,
    /// Asking for the bootstrap quote.
    RequestQuote,
    /// Storing the bootstrap record.
    PersistRecord,
    /// Reading the bootstrap record.
    ReadRecord,
    /// Reading the address in the bootstrap record.
    RecordAddress {
        /// The text that stands there.
        public_key: String,
    },
    /// Pinging the attestation daemon.
    DaemonPing,
    /// Checking the attestation daemon.
    DaemonCheck,
    /// Checking the local L2 node.
    L2Check,
    /// Checking the stored key against the record.
    DiskCheck,
    /// Bootstrapping before serving.
    EagerBootstrap,
}

/// The text that the debug format of `char` gives `c`.
pub uninterp spec fn char_debug_text(c: char) -> Seq<char>;

/// Calls the debug format of `char`, whose result `char_debug_text` names.
#[verifier::external_body]
fn char_debug(c: char) -> (text: String)
    ensures
        text@ == char_debug_text(c),
{
    format!("{:?}", c)
}

/// The words for text that is not hexadecimal.
pub open spec fn hex_error_text(error: HexError) -> Seq<char> {
    match error {
        HexError::InvalidHexCharacter { c, index } => "Invalid character "@ + char_debug_text(c)
            + " at position "@ + text::decimal(index as nat),
        HexError::OddLength => "Odd number of digits"@,
        HexError::InvalidStringLength => "Invalid string length"@,
    }
}

/// The words for text that does not write an address.
pub open spec fn address_digits_text(error: HexError) -> Seq<char> {
    match error {
        HexError::InvalidHexCharacter { c, index } => "invalid character "@ + char_debug_text(c)
            + " at position "@ + text::decimal(index as nat),
        HexError::OddLength => "odd number of digits"@,
        HexError::InvalidStringLength => "invalid string length"@,
    }
}

fn hex_error_to_string(error: &HexError) -> (text: String)
    ensures
        text@ == hex_error_text(*error),
{
    match error {
        HexError::InvalidHexCharacter { c, index } => {
            let mut text = "Invalid character ".to_owned();
            text.append(char_debug(*c).as_str());
            text.append(" at position ");
            text.append(decimal_text(*index as u64).as_str());
            text
        },
        HexError::OddLength => "Odd number of digits".to_owned(),
        HexError::InvalidStringLength => "Invalid string length".to_owned(),
    }
}

fn address_digits_to_string(error: &HexError) -> (text: String)
    ensures
        text@ == address_digits_text(*error),
{
    match error {
        HexError::InvalidHexCharacter { c, index } => {
            let mut text = "invalid character ".to_owned();
            text.append(char_debug(*c).as_str());
            text.append(" at position ");
            text.append(decimal_text(*index as u64).as_str());
            text
        },
        HexError::OddLength => "odd number of digits".to_owned(),
        HexError::InvalidStringLength => "invalid string length".to_owned(),
    }
}

impl Context {
    /// The words for it.
    pub open spec fn words(self) -> Seq<char> {
        match self {
            Context::GetBlock { number } => "local L2 eth_getBlockByNumber("@ + text::decimal(number as nat) + ") failed"@,
            Context::BlockNumber => "local L2 eth_blockNumber failed"@,
            Context::FetchBlock { number } => "fetching L2 block "@ + text::decimal(number as nat) + " from local node"@,
            Context::FetchSubProofBlock { number, index } => "fetching L2 block "@ + text::decimal(number as nat) + " for aggregation sub-proof "@ + text::decimal(index as nat),
            Context::LoadKey => "failed to load TDX bootstrap key"@,
            Context::ProposalProof => "TDX proposal proof generation failed"@,
            Context::SubProofHex { index } => "sub-proof "@ + text::decimal(index as nat) + " proof bytes are not valid hex"@,
            Context::AggregationProof => "TDX aggregation proof generation failed"@,
            Context::DecodeDocument => "Failed to decode attestation document from hex"@,
            Context::DaemonMetadata => "failed to fetch tdxs daemon metadata"@,
            Context::GenerateKey => "failed to generate / persist bootstrap key"@,
            Context::RequestQuote => "failed to request TDX attestation quote"@,
            Context::PersistRecord => "failed to persist bootstrap record"@,
            Context::ReadRecord => "failed to read bootstrap record"@,
            Context::RecordAddress { public_key } => "bootstrap.json public_key is not a valid Ethereum address: "@ + public_key@,
            Context::DaemonPing => "tdxs daemon ping failed"@,
            Context::DaemonCheck => "tdxs daemon check failed"@,
            Context::L2Check => "local L2 RPC check failed"@,
            Context::DiskCheck => "bootstrap disk consistency check failed"@,
            Context::EagerBootstrap => "eager bootstrap before serving failed"@,
        }
    }

    /// Writes the words for it.
    pub fn to_string(&self) -> (text: String)
        ensures
            text@ == self.words(),
    {
        match self {
            Context::GetBlock { number } => {
                let mut text = "local L2 eth_getBlockByNumber(".to_owned();
                text.append(decimal_text(*number).as_str());
                text.append(") failed");
                text
            },
            Context::BlockNumber => "local L2 eth_blockNumber failed".to_owned(),
            Context::FetchBlock { number } => {
                let mut text = "fetching L2 block ".to_owned();
                text.append(decimal_text(*number).as_str());
                text.append(" from local node");
                text
            },
            Context::FetchSubProofBlock { number, index } => {
                let mut text = "fetching L2 block ".to_owned();
                text.append(decimal_text(*number).as_str());
                text.append(" for aggregation sub-proof ");
                text.append(decimal_text(*index as u64).as_str());
                text
            },
            Context::LoadKey => "failed to load TDX bootstrap key".to_owned(),
            Context::ProposalProof => "TDX proposal proof generation failed".to_owned(),
            Context::SubProofHex { index } => {
                let mut text = "sub-proof ".to_owned();
                text.append(decimal_text(*index as u64).as_str());
                text.append(" proof bytes are not valid hex");
                text
            },
            Context::AggregationProof => "TDX aggregation proof generation failed".to_owned(),
            Context::DecodeDocument => "Failed to decode attestation document from hex".to_owned(),
            Context::DaemonMetadata => "failed to fetch tdxs daemon metadata".to_owned(),
            Context::GenerateKey => "failed to generate / persist bootstrap key".to_owned(),
            Context::RequestQuote => "failed to request TDX attestation quote".to_owned(),
            Context::PersistRecord => "failed to persist bootstrap record".to_owned(),
            Context::ReadRecord => "failed to read bootstrap record".to_owned(),
            Context::RecordAddress { public_key } => {
                let mut text = "bootstrap.json public_key is not a valid Ethereum address: ".to_owned();
                text.append(public_key.as_str());
                text
            },
            Context::DaemonPing => "tdxs daemon ping failed".to_owned(),
            Context::DaemonCheck => "tdxs daemon check failed".to_owned(),
            Context::L2Check => "local L2 RPC check failed".to_owned(),
            Context::DiskCheck => "bootstrap disk consistency check failed".to_owned(),
            Context::EagerBootstrap => "eager bootstrap before serving failed".to_owned(),
        }
    }
}

impl Error {
    /// The words for it: where it failed in the course of something larger, the
    /// words for that.
    pub open spec fn words(self) -> Seq<char> {
        match self {
            Error::External { message } => message@,
            Error::InvalidProofSize { got } => "Invalid proof size: expected 89, got "@ + text::decimal(got as nat),
            Error::NoSubProofs => "No sub-proofs provided for aggregation"@,
            Error::SubProofRotation { index, instance, expected } => "Shasta aggregation does not allow key rotation: proof "@ + text::decimal(index as nat) + " has instance "@ + primitives::checksum_text(instance@) + ", expected "@ + primitives::checksum_text(expected@),
            Error::SubProofSigner { index, expected, recovered } => "Proof "@ + text::decimal(index as nat) + " signature verification failed: expected signer "@ + primitives::checksum_text(expected@) + ", got "@ + primitives::checksum_text(recovered@),
            Error::LocalRotation { local, expected } => "Shasta aggregation does not allow key rotation: local instance "@ + primitives::checksum_text(local@) + " does not match sub-proofs instance "@ + primitives::checksum_text(expected@),
            Error::InvalidRecoveryId => "bad recovery id"@,
            Error::InvalidSignature => "malformed signature"@,
            Error::Daemon { message } => "Attestation service error: "@ + message@,
            Error::EmptyReply => "Invalid response: neither data nor error"@,
            Error::AmbiguousReply { message } => "Invalid response: both data and error present. Error: "@ + message@,
            Error::Hex { error } => hex_error_text(error),
            Error::AddressDigits { error } => address_digits_text(error),
            Error::InvalidPrivateKey => "Invalid private key: malformed or out-of-range secret key"@,
            Error::UnsupportedIssuer { issuer } => "Unsupported tdxs issuer '"@ + issuer@ + "' — expected one of [\"tdx\", \"azure\", \"gcp\", \"simulator\"]"@,
            Error::NoHomeDirectory => "Failed to get home directory"@,
            Error::ChainIdMismatch { requested, configured } => "request chain_id "@ + text::decimal(requested as nat) + " does not match prover's configured chain_id "@ + text::decimal(configured as nat),
            Error::VerifierMismatch { requested_verifier, configured_verifier } => "request verifier "@ + primitives::checksum_text(requested_verifier@) + " does not match prover's configured verifier "@ + primitives::checksum_text(configured_verifier@),
            Error::NoCommitment => "failed to build Shasta commitment from carry data"@,
            Error::EmptyAggregate => "aggregate request has no sub-proofs"@,
            Error::SubProofChainId { index, requested, configured } => "sub-proof "@ + text::decimal(index as nat) + " chain_id "@ + text::decimal(requested as nat) + " != prover's chain_id "@ + text::decimal(configured as nat),
            Error::SubProofVerifier { index, requested_verifier, configured_verifier } => "sub-proof "@ + text::decimal(index as nat) + " verifier "@ + primitives::checksum_text(requested_verifier@) + " != prover's verifier "@ + primitives::checksum_text(configured_verifier@),
            Error::NoSubProofCommitment { index } => "failed to build single-proof commitment for sub-proof "@ + text::decimal(index as nat),
            Error::SubProofDrift { index, rebuilt, signed } => "sub-proof "@ + text::decimal(index as nat) + " rebuilt carry data hashes to "@ + primitives::word_text(rebuilt@) + " but original sub-proof signed over "@ + primitives::word_text(signed@) + "; the local L2 state may have changed since the sub-proof was produced"@,
            Error::NoAggregateCommitment => "failed to build aggregation commitment (chain not continuous)"@,
            Error::KeyMismatch { actual, recorded } => "bootstrap key/address mismatch: priv.key recovers to "@ + primitives::checksum_text(actual@) + " but bootstrap.json records "@ + primitives::checksum_text(recorded@),
            Error::ProbeTimeout => "local L2 eth_blockNumber timed out"@,
            Error::MissingBlock { number } => "local L2 has no block at number "@ + text::decimal(number as nat) + " — has Nethermind synced past the proposal yet?"@,
            Error::Context { context, .. } => context.words(),
        }
    }

    /// Writes the words for it.
    pub fn to_string(&self) -> (text: String)
        ensures
            text@ == self.words(),
    {
        match self {
            Error::External { message } => message.clone(),
            Error::InvalidProofSize { got } => {
                let mut text = "Invalid proof size: expected 89, got ".to_owned();
                text.append(decimal_text(*got as u64).as_str());
                text
            },
            Error::NoSubProofs => "No sub-proofs provided for aggregation".to_owned(),
            Error::SubProofRotation { index, instance, expected } => {
                let mut text = "Shasta aggregation does not allow key rotation: proof ".to_owned();
                text.append(decimal_text(*index as u64).as_str());
                text.append(" has instance ");
                text.append(instance.to_string().as_str());
                text.append(", expected ");
                text.append(expected.to_string().as_str());
                text
            },
            Error::SubProofSigner { index, expected, recovered } => {
                let mut text = "Proof ".to_owned();
                text.append(decimal_text(*index as u64).as_str());
                text.append(" signature verification failed: expected signer ");
                text.append(expected.to_string().as_str());
                text.append(", got ");
                text.append(recovered.to_string().as_str());
                text
            },
            Error::LocalRotation { local, expected } => {
                let mut text = "Shasta aggregation does not allow key rotation: local instance ".to_owned();
                text.append(local.to_string().as_str());
                text.append(" does not match sub-proofs instance ");
                text.append(expected.to_string().as_str());
                text
            },
            Error::InvalidRecoveryId => "bad recovery id".to_owned(),
            Error::InvalidSignature => "malformed signature".to_owned(),
            Error::Daemon { message } => {
                let mut text = "Attestation service error: ".to_owned();
                text.append(message.as_str());
                text
            },
            Error::EmptyReply => "Invalid response: neither data nor error".to_owned(),
            Error::AmbiguousReply { message } => {
                let mut text = "Invalid response: both data and error present. Error: ".to_owned();
                text.append(message.as_str());
                text
            },
            Error::Hex { error } => hex_error_to_string(error),
            Error::AddressDigits { error } => address_digits_to_string(error),
            Error::InvalidPrivateKey => "Invalid private key: malformed or out-of-range secret key".to_owned(),
            Error::UnsupportedIssuer { issuer } => {
                let mut text = "Unsupported tdxs issuer '".to_owned();
                text.append(issuer.as_str());
                text.append("' — expected one of [\"tdx\", \"azure\", \"gcp\", \"simulator\"]");
                text
            },
            Error::NoHomeDirectory => "Failed to get home directory".to_owned(),
            Error::ChainIdMismatch { requested, configured } => {
                let mut text = "request chain_id ".to_owned();
                text.append(decimal_text(*requested).as_str());
                text.append(" does not match prover's configured chain_id ");
                text.append(decimal_text(*configured).as_str());
                text
            },
            Error::VerifierMismatch { requested_verifier, configured_verifier } => {
                let mut text = "request verifier ".to_owned();
                text.append(requested_verifier.to_string().as_str());
                text.append(" does not match prover's configured verifier ");
                text.append(configured_verifier.to_string().as_str());
                text
            },
            Error::NoCommitment => "failed to build Shasta commitment from carry data".to_owned(),
            Error::EmptyAggregate => "aggregate request has no sub-proofs".to_owned(),
            Error::SubProofChainId { index, requested, configured } => {
                let mut text = "sub-proof ".to_owned();
                text.append(decimal_text(*index as u64).as_str());
                text.append(" chain_id ");
                text.append(decimal_text(*requested).as_str());
                text.append(" != prover's chain_id ");
                text.append(decimal_text(*configured).as_str());
                text
            },
            Error::SubProofVerifier { index, requested_verifier, configured_verifier } => {
                let mut text = "sub-proof ".to_owned();
                text.append(decimal_text(*index as u64).as_str());
                text.append(" verifier ");
                text.append(requested_verifier.to_string().as_str());
                text.append(" != prover's verifier ");
                text.append(configured_verifier.to_string().as_str());
                text
            },
            Error::NoSubProofCommitment { index } => {
                let mut text = "failed to build single-proof commitment for sub-proof ".to_owned();
                text.append(decimal_text(*index as u64).as_str());
                text
            },
            Error::SubProofDrift { index, rebuilt, signed } => {
                let mut text = "sub-proof ".to_owned();
                text.append(decimal_text(*index as u64).as_str());
                text.append(" rebuilt carry data hashes to ");
                text.append(rebuilt.to_string().as_str());
                text.append(" but original sub-proof signed over ");
                text.append(signed.to_string().as_str());
                text.append("; the local L2 state may have changed since the sub-proof was produced");
                text
            },
            Error::NoAggregateCommitment => "failed to build aggregation commitment (chain not continuous)".to_owned(),
            Error::KeyMismatch { actual, recorded } => {
                let mut text = "bootstrap key/address mismatch: priv.key recovers to ".to_owned();
                text.append(actual.to_string().as_str());
                text.append(" but bootstrap.json records ");
                text.append(recorded.to_string().as_str());
                text
            },
            Error::ProbeTimeout => "local L2 eth_blockNumber timed out".to_owned(),
            Error::MissingBlock { number } => {
                let mut text = "local L2 has no block at number ".to_owned();
                text.append(decimal_text(*number).as_str());
                text.append(" — has Nethermind synced past the proposal yet?");
                text
            },
            Error::Context { context, .. } => context.to_string(),
        }
    }

    /// What failed, where that was in the course of something larger.
    pub fn cause(&self) -> (cause: Option<&Error>)
        ensures
            cause == (match *self {
                Error::Context { cause, .. } => Some(&*cause),
                _ => None,
            }),
    {
        match self {
            Error::Context { cause, .. } => Some(&**cause),
            _ => None,
        }
    }

    /// The failure in the course of something larger.
    pub open spec fn within(self, context: Context) -> Error {
        Error::Context { context, cause: Box::new(self) }
    }

    /// Reports the failure in the course of something larger.
    pub fn context(self, context: Context) -> (error: Error)
        ensures
            error == self.within(context),
    {
        Error::Context { context, cause: Box::new(self) }
    }
}

/// What was being done is told with the block and the sub-proof that it was done for.
pub proof fn context_is_told_with_its_parts(context: Context)
    ensures
        match context {
            Context::GetBlock { number } => context.words()
                == "local L2 eth_getBlockByNumber("@ + text::decimal(number as nat) + ") failed"@,
            Context::BlockNumber => context.words() == "local L2 eth_blockNumber failed"@,
            Context::FetchBlock { number } => context.words()
                == "fetching L2 block "@ + text::decimal(number as nat) + " from local node"@,
            Context::FetchSubProofBlock { number, index } => context.words()
                == "fetching L2 block "@ + text::decimal(number as nat)
                + " for aggregation sub-proof "@ + text::decimal(index as nat),
            Context::LoadKey => context.words() == "failed to load TDX bootstrap key"@,
            Context::ProposalProof => context.words() == "TDX proposal proof generation failed"@,
            Context::SubProofHex { index } => context.words()
                == "sub-proof "@ + text::decimal(index as nat) + " proof bytes are not valid hex"@,
            Context::AggregationProof => context.words()
                == "TDX aggregation proof generation failed"@,
            Context::DecodeDocument => context.words()
                == "Failed to decode attestation document from hex"@,
            Context::DaemonMetadata => context.words() == "failed to fetch tdxs daemon metadata"@,
            Context::GenerateKey => context.words()
                == "failed to generate / persist bootstrap key"@,
            Context::RequestQuote => context.words() == "failed to request TDX attestation quote"@,
            Context::PersistRecord => context.words() == "failed to persist bootstrap record"@,
            Context::ReadRecord => context.words() == "failed to read bootstrap record"@,
            Context::RecordAddress { public_key } => context.words()
                == "bootstrap.json public_key is not a valid Ethereum address: "@ + public_key@,
            Context::DaemonPing => context.words() == "tdxs daemon ping failed"@,
            Context::DaemonCheck => context.words() == "tdxs daemon check failed"@,
            Context::L2Check => context.words() == "local L2 RPC check failed"@,
            Context::DiskCheck => context.words() == "bootstrap disk consistency check failed"@,
            Context::EagerBootstrap => context.words() == "eager bootstrap before serving failed"@,
        },
{
}

/// Each failure is told with all that it is about: what was found, where, and what was
/// to be found. One in the course of something larger is told as that.
pub proof fn error_is_told_with_its_parts(shown: Error)
    ensures
        match shown {
            Error::External { message } => shown.words() == message@,
            Error::InvalidProofSize { got } => shown.words()
                == "Invalid proof size: expected 89, got "@ + text::decimal(got as nat),
            Error::NoSubProofs => shown.words() == "No sub-proofs provided for aggregation"@,
            Error::SubProofRotation { index, instance, expected } => shown.words()
                == "Shasta aggregation does not allow key rotation: proof "@
                + text::decimal(index as nat) + " has instance "@
                + primitives::checksum_text(instance@) + ", expected "@
                + primitives::checksum_text(expected@),
            Error::SubProofSigner { index, expected, recovered } => shown.words()
                == "Proof "@ + text::decimal(index as nat)
                + " signature verification failed: expected signer "@
                + primitives::checksum_text(expected@) + ", got "@
                + primitives::checksum_text(recovered@),
            Error::LocalRotation { local, expected } => shown.words()
                == "Shasta aggregation does not allow key rotation: local instance "@
                + primitives::checksum_text(local@) + " does not match sub-proofs instance "@
                + primitives::checksum_text(expected@),
            Error::InvalidRecoveryId => shown.words() == "bad recovery id"@,
            Error::InvalidSignature => shown.words() == "malformed signature"@,
            Error::Daemon { message } => shown.words() == "Attestation service error: "@ + message@,
            Error::EmptyReply => shown.words() == "Invalid response: neither data nor error"@,
            Error::AmbiguousReply { message } => shown.words()
                == "Invalid response: both data and error present. Error: "@ + message@,
            Error::Hex { error } => match error {
                HexError::InvalidHexCharacter { c, index } => shown.words() == "Invalid character "@
                    + char_debug_text(c) + " at position "@ + text::decimal(index as nat),
                HexError::OddLength => shown.words() == "Odd number of digits"@,
                HexError::InvalidStringLength => shown.words() == "Invalid string length"@,
            },
            Error::AddressDigits { error } => match error {
                HexError::InvalidHexCharacter { c, index } => shown.words() == "invalid character "@
                    + char_debug_text(c) + " at position "@ + text::decimal(index as nat),
                HexError::OddLength => shown.words() == "odd number of digits"@,
                HexError::InvalidStringLength => shown.words() == "invalid string length"@,
            },
            Error::InvalidPrivateKey => shown.words()
                == "Invalid private key: malformed or out-of-range secret key"@,
            Error::UnsupportedIssuer { issuer } => shown.words()
                == "Unsupported tdxs issuer '"@ + issuer@
                + "' — expected one of [\"tdx\", \"azure\", \"gcp\", \"simulator\"]"@,
            Error::NoHomeDirectory => shown.words() == "Failed to get home directory"@,
            Error::ChainIdMismatch { requested, configured } => shown.words()
                == "request chain_id "@ + text::decimal(requested as nat)
                + " does not match prover's configured chain_id "@
                + text::decimal(configured as nat),
            Error::VerifierMismatch { requested_verifier, configured_verifier } => shown.words()
                == "request verifier "@ + primitives::checksum_text(requested_verifier@)
                + " does not match prover's configured verifier "@
                + primitives::checksum_text(configured_verifier@),
            Error::NoCommitment => shown.words()
                == "failed to build Shasta commitment from carry data"@,
            Error::EmptyAggregate => shown.words() == "aggregate request has no sub-proofs"@,
            Error::SubProofChainId { index, requested, configured } => shown.words()
                == "sub-proof "@ + text::decimal(index as nat) + " chain_id "@
                + text::decimal(requested as nat) + " != prover's chain_id "@
                + text::decimal(configured as nat),
            Error::SubProofVerifier { index, requested_verifier, configured_verifier } => shown.words()
                == "sub-proof "@ + text::decimal(index as nat) + " verifier "@
                + primitives::checksum_text(requested_verifier@) + " != prover's verifier "@
                + primitives::checksum_text(configured_verifier@),
            Error::NoSubProofCommitment { index } => shown.words()
                == "failed to build single-proof commitment for sub-proof "@
                + text::decimal(index as nat),
            Error::SubProofDrift { index, rebuilt, signed } => shown.words()
                == "sub-proof "@ + text::decimal(index as nat) + " rebuilt carry data hashes to "@
                + primitives::word_text(rebuilt@) + " but original sub-proof signed over "@
                + primitives::word_text(signed@)
                + "; the local L2 state may have changed since the sub-proof was produced"@,
            Error::NoAggregateCommitment => shown.words()
                == "failed to build aggregation commitment (chain not continuous)"@,
            Error::KeyMismatch { actual, recorded } => shown.words()
                == "bootstrap key/address mismatch: priv.key recovers to "@
                + primitives::checksum_text(actual@) + " but bootstrap.json records "@
                + primitives::checksum_text(recorded@),
            Error::ProbeTimeout => shown.words() == "local L2 eth_blockNumber timed out"@,
            Error::MissingBlock { number } => shown.words()
                == "local L2 has no block at number "@ + text::decimal(number as nat)
                + " — has Nethermind synced past the proposal yet?"@,
            Error::Context { context, .. } => shown.words() == context.words(),
        },
{
}

/// A failure in the course of something larger keeps both, and is told as the larger
/// thing.
pub proof fn context_keeps_its_cause(error: Error, context: Context)
    ensures
        error.within(context) matches Error::Context { context: outer, cause } && outer == context
            && *cause == error,
        error.within(context).words() == context.words(),
{
}

} // verus!
