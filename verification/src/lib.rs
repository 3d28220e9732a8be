//! The core of a highlight exporter: it resolves a VOD address to a stream,
//! plans the runs of the transcoding and downloading tools, reads their
//! progress output, and rewrites playlists for a local relay.
//!
//! Times are whole milliseconds and percentages are hundredths of a percent,
//! so that every rule is stated over integers.

use vstd::prelude::*;

pub mod binaries;
pub mod commands;
pub mod config;
pub mod error;
pub mod export;
pub mod montage;
pub mod outside;
pub mod platform;
pub mod project;
pub mod proxy;
pub mod text;

verus! {

} // verus!
