//! Checking what the prover depends on, and beginning to serve.
//!
//! In a check the attestation daemon has to answer, then the local L2 node; and if
//! there is a bootstrap record, the stored key has to be there and be the recorded one:
//!
//! [`check`] -> [`CheckDaemon`] -> [`CheckL2`] -> [`CheckDisk`] -> [`CheckKey`].

use vstd::prelude::*;

use crate::attestation;
use crate::attestation::{MetadataRequestData, MetadataResponse, Request};
use crate::bootstrap;
use crate::config::LOCAL_L2_RPC_URL;
use crate::error::{Context, Error};
use crate::l2_client;
use crate::l2_client::L2Client;
use crate::persistence;
use crate::persistence::{BootstrapData, FilesPresent};
use crate::protocol::BootstrapResponse;

verus! {

/// A check that waits for the attestation daemon.
#[derive(Debug)]
pub struct CheckDaemon {
    /// What to ask it.
    pub request: Request<MetadataRequestData>,
}

/// A check that waits for the local L2 node.
#[derive(Debug)]
pub struct CheckL2 {
    /// The client to ask it with.
    pub client: L2Client,
}

/// A check that waits to know which files are there.
#[derive(Debug)]
pub struct CheckDisk {
    /// Height of the local L2 node.
    pub height: u64,
}

/// A check that waits for the record and the key.
#[derive(Debug)]
pub struct CheckKey {}

/// Begins the check with the attestation daemon.
pub fn check() -> (stage: CheckDaemon)
    ensures
        stage.request.method@ == "metadata"@,
{
    CheckDaemon { request: attestation::metadata_request() }
}

impl CheckDaemon {
    /// Goes on with what came back from the daemon.
    pub fn with_metadata(self, reply: Result<MetadataResponse, Error>) -> (result: Result<
        CheckL2,
        Error,
    >)
        ensures
            match bootstrap::daemon_report(reply) {
                Ok(_) => result is Ok && result->Ok_0.client.endpoint() == LOCAL_L2_RPC_URL@,
                Err(error) => result == Err::<CheckL2, Error>(
                    error.within(Context::DaemonCheck),
                ),
            },
    {
        match bootstrap::ping_attestation(reply) {
            Ok(_) => Ok(CheckL2 { client: L2Client::local() }),
            Err(error) => Err(error.context(Context::DaemonCheck)),
        }
    }
}

impl CheckL2 {
    /// Goes on with what came back from the node, if anything did in time.
    pub fn with_height(self, reply: Option<Result<u64, Error>>) -> (result: Result<
        CheckDisk,
        Error,
    >)
        ensures
            match l2_client::probed_height(reply) {
                Ok(height) => result == Ok::<CheckDisk, Error>(CheckDisk { height }),
                Err(error) => result == Err::<CheckDisk, Error>(error.within(Context::L2Check)),
            },
    {
        match self.client.probe(reply) {
            Ok(height) => Ok(CheckDisk { height }),
            Err(error) => Err(error.context(Context::L2Check)),
        }
    }
}

impl CheckDisk {
    /// Goes on with which files are there: without a record there is nothing left to
    /// check. A record whose key is gone is left for the next stage to fail on.
    pub fn with_files(self, files: &FilesPresent) -> (next: Option<CheckKey>)
        ensures
            next is Some <==> files.record,
    {
        if persistence::bootstrap_record_exists(files) {
            Some(CheckKey {  })
        } else {
            None
        }
    }
}

impl CheckKey {
    /// Ends with what came of reading the record and the key.
    pub fn with_contents(
        self,
        record: Result<BootstrapData, Error>,
        key: Result<Vec<u8>, Error>,
    ) -> (result: Result<(), Error>)
        ensures
            match bootstrap::consistency(record, key) {
                Ok(_) => result is Ok,
                Err(error) => result == Err::<(), Error>(error.within(Context::DiskCheck)),
            },
    {
        match bootstrap::verify_disk_consistency(record, key) {
            Ok(_) => Ok(()),
            Err(error) => Err(error.context(Context::DiskCheck)),
        }
    }
}

/// Begins to serve with what came of bootstrapping first: the proofs are then about
/// the blocks of the local L2 node.
pub fn serve(bootstrapped: Result<BootstrapResponse, Error>) -> (result: Result<L2Client, Error>)
    ensures
        match bootstrapped {
            Ok(_) => result is Ok && result->Ok_0.endpoint() == LOCAL_L2_RPC_URL@,
            Err(error) => result == Err::<L2Client, Error>(error.within(Context::EagerBootstrap)),
        },
{
    match bootstrapped {
        Ok(_) => Ok(L2Client::local()),
        Err(error) => Err(error.context(Context::EagerBootstrap)),
    }
}

} // verus!
