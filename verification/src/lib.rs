//! A minimal trusted-execution boundary entry point.
//!
//! An untrusted caller hands a raw byte buffer to an isolated region; the
//! region validates it, runs a small scripted relational transaction against
//! an ephemeral in-memory store, and reports a fixed-width status code back.
//! Every internal failure is surfaced as data (a status plus diagnostic
//! text), never as an abort that could tear down the host.

pub mod boundary;
pub mod script;
pub mod session;
pub mod status;
pub mod text;
