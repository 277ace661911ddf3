//! Serialized access to a single exclusive audio-capture worker.
//!
//! Every request from any number of concurrent callers is funneled through
//! one dedicated worker over a synchronous request/response protocol: one
//! command in, exactly one response out, never two commands outstanding at
//! once. This crate owns the lazy worker lifecycle, the single in-flight
//! request discipline, the mirrored recording-state flag, and the error
//! taxonomy that turns every internal failure into a caller-safe typed error.
//!
//! The audio capture itself is not here: the worker is an external
//! collaborator reached through the [`protocol::WorkerLink`] trait, and the
//! [`recorder::Recorder`] session manager is verified against every possible
//! behaviour of that link.

pub mod laws;
pub mod protocol;
pub mod recorder;

