//! Verified core of the Omni Downloader media ingest tool: configuration
//! repair, runtime binary selection, file naming, and the decision logic of
//! the download-and-transcode pipeline and its JSON-RPC tool server.
use vstd::prelude::*;

pub mod text;
pub mod ingest;
pub mod paths;
pub mod config;
pub mod binaries;
pub mod pipeline;
pub mod logging;
pub mod cleanup;
pub mod mcp;
pub mod cli;

verus! {
} // verus!
