//! Resumable provisioning orchestrator: the step-sequencing core of an
//! interactive installer.
//!
//! The library models an installation as a fixed, ordered catalogue of steps
//! driven against a single mutable provisioning record.  Everything that can
//! be stated as a function from plain values to plain values lives here and
//! is verified: the persisted-state record and its line-oriented encoding,
//! the per-step action plans, the retry-or-abort failure policy, the literal
//! text patcher, and the identifier extractor.  Terminal interaction, process
//! spawning and file access are left to an unverified driver that consumes
//! the plans this library produces.

pub mod config;
pub mod extract;
pub mod format;
pub mod patcher;
pub mod persist;
pub mod plan;
pub mod prompt;
pub mod sequencer;
pub mod steps;
pub mod strutil;
