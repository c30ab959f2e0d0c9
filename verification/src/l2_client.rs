//! The local L2 node, and what its answers mean.

use vstd::prelude::*;

use crate::config::LOCAL_L2_RPC_URL;
use crate::error::{Context, Error};
use crate::primitives::B256;

verus! {

/// Seconds that the node has to tell its height.
pub const PROBE_TIMEOUT_SECS: u64 = 5;

/// A client of the local L2 node. There is no client of another node.
#[derive(Debug, Clone, Copy)]
pub struct L2Client {
    url: &'static str,
}

/// What the prover reads of a block header.
#[derive(Debug, Clone, Copy)]
pub struct L2BlockHeader {
    /// Block number.
    pub number: u64,
    /// Block hash.
    pub hash: B256,
    /// Parent block hash.
    pub parent_hash: B256,
    /// State root after executing this block.
    pub state_root: B256,
}

/// The header in what came back of a request for the block at `number`.
pub open spec fn fetched_header(
    number: u64,
    reply: Result<Option<L2BlockHeader>, Error>,
) -> Result<L2BlockHeader, Error> {
    match reply {
        Err(error) => Err(error.within(Context::GetBlock { number })),
        Ok(None) => Err(Error::MissingBlock { number }),
        Ok(Some(header)) => Ok(header),
    }
}

/// The height in what came back of a request for it; nothing is what came back in
/// time.
pub open spec fn probed_height(reply: Option<Result<u64, Error>>) -> Result<u64, Error> {
    match reply {
        None => Err(Error::ProbeTimeout),
        Some(Err(error)) => Err(error.within(Context::BlockNumber)),
        Some(Ok(height)) => Ok(height),
    }
}

impl L2Client {
    #[verifier::type_invariant]
    spec fn is_local(self) -> bool {
        self.url@ == LOCAL_L2_RPC_URL@
    }

    /// The URL that requests go to.
    pub closed spec fn endpoint(self) -> Seq<char> {
        self.url@
    }

    /// The client of the local node.
    pub fn local() -> (client: Self)
        ensures
            client.endpoint() == LOCAL_L2_RPC_URL@,
    {
        L2Client { url: LOCAL_L2_RPC_URL }
    }

    /// The URL that requests go to: for every client, that of the local node.
    pub fn url(&self) -> (url: &'static str)
        ensures
            url@ == self.endpoint(),
            url@ == LOCAL_L2_RPC_URL@,
    {
        proof {
            use_type_invariant(self);
        }
        self.url
    }

    /// Reads the header of a block from what came back of a request for it.
    pub fn fetch_block_header(
        &self,
        block_number: u64,
        reply: Result<Option<L2BlockHeader>, Error>,
    ) -> (header: Result<L2BlockHeader, Error>)
        ensures
            header == fetched_header(block_number, reply),
            reply matches Ok(Some(found)) ==> {
                &&& header is Ok
                &&& header->Ok_0.number == found.number
                &&& header->Ok_0.hash == found.hash
                &&& header->Ok_0.parent_hash == found.parent_hash
                &&& header->Ok_0.state_root == found.state_root
            },
    {
        match reply {
            Ok(Some(header)) => Ok(header),
            Ok(None) => Err(Error::MissingBlock { number: block_number }),
            Err(error) => Err(error.context(Context::GetBlock { number: block_number })),
        }
    }

    /// Reads the height of the node from what came back of a request for it, or from
    /// its not having come in time.
    pub fn probe(&self, reply: Option<Result<u64, Error>>) -> (height: Result<u64, Error>)
        ensures
            height == probed_height(reply),
    {
        match reply {
            None => Err(Error::ProbeTimeout),
            Some(Err(error)) => Err(error.context(Context::BlockNumber)),
            Some(Ok(height)) => Ok(height),
        }
    }
}

/// A block that the node returned is handed on field by field as the node has it. A
/// block that it does not have, and a failure to ask it, name the block that was asked
/// for.
pub proof fn header_is_the_nodes(
    number: u64,
    header: L2BlockHeader,
    reply: Result<Option<L2BlockHeader>, Error>,
)
    ensures
        reply == Ok::<Option<L2BlockHeader>, Error>(Some(header)) ==> {
            &&& fetched_header(number, reply) is Ok
            &&& fetched_header(number, reply)->Ok_0.number == header.number
            &&& fetched_header(number, reply)->Ok_0.hash == header.hash
            &&& fetched_header(number, reply)->Ok_0.parent_hash == header.parent_hash
            &&& fetched_header(number, reply)->Ok_0.state_root == header.state_root
        },
        fetched_header(number, reply) is Ok <==> reply matches Ok(Some(_)),
        reply == Ok::<Option<L2BlockHeader>, Error>(None) ==> fetched_header(number, reply) == Err::<
            L2BlockHeader,
            Error,
        >(Error::MissingBlock { number }),
        reply matches Err(error) ==> {
            &&& fetched_header(number, reply) matches Err(Error::Context { context, cause })
            &&& context == (Context::GetBlock { number })
            &&& *cause == error
        },
{
}

/// The height is the one that the node told, if it told one in time.
pub proof fn height_is_the_nodes(height: u64, reply: Option<Result<u64, Error>>)
    ensures
        probed_height(reply) == Ok::<u64, Error>(height) <==> reply == Some(
            Ok::<u64, Error>(height),
        ),
        reply is None ==> probed_height(reply) == Err::<u64, Error>(Error::ProbeTimeout),
        reply matches Some(Err(error)) ==> {
            &&& probed_height(reply) matches Err(Error::Context { context, cause })
            &&& context == Context::BlockNumber
            &&& *cause == error
        },
{
}

/// The node is the one on the loopback interface, and has five seconds to tell its
/// height.
pub proof fn the_node_is_local()
    ensures
        LOCAL_L2_RPC_URL@ == "http://127.0.0.1:8547"@,
        PROBE_TIMEOUT_SECS == 5,
{
}

} // verus!
