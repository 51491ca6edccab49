use vstd::prelude::*;

pub mod text;
pub mod tree;
pub mod discovery;
pub mod discovery_api;
pub mod lyrics;
pub mod lyrics_api;
pub mod paths;
pub mod filenames;
pub mod finalize;
pub mod media;
pub mod http;
pub mod remote;
pub mod download;
pub mod cli;
pub mod database;
pub mod config;
pub mod jobs;
pub mod launch;
pub mod library;
pub mod search;
pub mod server;
pub mod sources;
pub mod transcode;
pub mod types;
pub mod upload;

verus! {
} // verus!
