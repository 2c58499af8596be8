//! Verified core of a small command-line client for Spotify metadata and audio.
//!
//! The library holds the decisions the command line makes: how arguments are
//! recognised, how Spotify links are normalised into URIs, how hex file IDs are
//! parsed, which audio format a file has and whether its header is stripped,
//! when stored credentials are reused, refreshed or replaced, and how every
//! failure maps to an exit code and a JSON error report.

pub mod error;
pub mod text;
pub mod metadata;
pub mod credentials;
pub mod uri;
pub mod audio;
pub mod session;
pub mod auth;
pub mod cli;
pub mod laws;
