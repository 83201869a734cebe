//! Safe core of a C-compatible boundary around a stateful audio-processing
//! pipeline. The pipeline itself is an external collaborator; this crate
//! holds everything the boundary decides on its own: the enum/identifier
//! codec and the configuration get/set contract, the model catalog, the
//! shaping of processing results, the unwind-containment decisions, the
//! handle-lifetime ledger, and the diagnostic-line and path derivations.
//! The unverifiable edge (raw pointers, file probes, the actual engine)
//! lives outside and hands this crate plain values.

pub mod catalog;
pub mod codec;
pub mod config;
pub mod diag;
pub mod outcome;
pub mod paths;
pub mod registry;
