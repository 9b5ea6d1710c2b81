//! Download-and-merge orchestration for separately served media streams.
//!
//! The library holds the decisions of the downloader: how an input is
//! resolved to the content it names, how a resumable byte-range transfer
//! proceeds, how a session of concurrent transfers is judged and cleaned up,
//! how a merge is cleaned up, and how a batch of items is summarised. The
//! program around it performs the network and disk work that these decisions
//! ask for.

pub mod auth;
pub mod batch;
pub mod client;
pub mod config;
pub mod error;
pub mod media;
pub mod merge;
pub mod parse;
pub mod plan;
pub mod resolve;
pub mod session;
pub mod sign;
pub mod text;
pub mod transfer;
pub mod util;
