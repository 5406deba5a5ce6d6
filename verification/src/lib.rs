//! Declarative bootstrap library for an identity/authentication platform.
//!
//! The library holds the verified core of a provisioning tool: a typed
//! configuration model describing the desired end state, the desired-state
//! request payloads derived from it, and a reconciliation orchestrator that
//! decides, step by step, which remote call to issue next and how to react
//! to each response. The remote transport itself (HTTP, authentication,
//! serialization) is an external collaborator and lives outside the library;
//! callers perform each requested action and feed the outcome back in as an
//! event.

pub mod config;
pub mod requests;
pub mod orchestrator;
pub mod platform;
pub mod laws;
