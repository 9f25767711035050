//! hassha: plays short departure melodies in response to named lifecycle
//! events of a host process, based on per-project configuration.
//!
//! This crate holds the verified logic: the melody registry, the matcher,
//! cache path resolution, configuration lookup, the dispatch decision and
//! the history log. All input/output (reading events, downloading audio,
//! touching the filesystem, playback) lives outside the library and hands
//! plain values in and out.

pub mod cache;
pub mod config;
pub mod history;
pub mod hook;
pub mod matcher;
pub mod melodies;
pub mod strutil;
