//! A terminal-emulation and build-session engine for driving a
//! system-configuration rebuild tool interactively.
//!
//! The heart of the crate is a virtual terminal ([`terminal`]) that
//! interprets a raw byte stream — control bytes, escape sequences,
//! multi-byte characters — into a bounded character grid with scrollback,
//! and a build session ([`session`]) that validates and opens rebuild
//! attempts, feeds the process output into the terminal, detects the
//! in-band completion sentinels ([`rebuild`]), and implements the cancel
//! and quit-confirmation policy. The caller supplies the process itself:
//! the session hands out a fully formed command ([`rebuild::RebuildCommand`])
//! and takes back the channel endpoints of the spawned process.

pub mod chan;
pub mod config;
pub mod hosts;
pub mod rebuild;
pub mod session;
pub mod terminal;
pub mod terminal_laws;
pub mod text;
