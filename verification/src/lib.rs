//! A remote prover for Shasta proposals that runs inside a TDX protected VM.
//!
//! The library holds every decision the prover takes: what it checks of a
//! request, what it signs, what it asks the attestation daemon and the local L2
//! node for, what it writes to disk and what it answers. The program around it
//! performs the requests and hands back what came of them.

pub mod aggregation;
pub mod attestation;
pub mod bootstrap;
pub mod config;
pub mod disk;
pub mod error;
pub mod hex_text;
pub mod l2_client;
pub mod persistence;
pub mod primitives;
pub mod proposal;
pub mod protocol;
pub mod runtime;
pub mod server;
pub mod signature;
pub mod tdx_proof;
pub mod text;

pub use config::Config;
pub use runtime::{check, serve};
