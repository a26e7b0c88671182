//! Request shaping and response handling for a launchd control client.
//!
//! The crate builds the messages that a client sends to the service manager,
//! decides how a service is searched for across domains, keeps the
//! status cache consistent with state-changing requests, and classifies
//! services with a filter mask. It performs no I/O: a caller hands each
//! request to its transport and hands the reply back.

pub mod launchd;
