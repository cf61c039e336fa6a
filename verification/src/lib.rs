//! Coordination core for a single remote actor that answers liveness
//! challenges and serves at most one action-request cycle at a time.
//!
//! The crate models the request/response protocol as a typestate machine
//! (`state_machine`) and drives it with two independent consumer loops over a
//! shared broadcast stream: a stateless challenge responder
//! (`challenge_handler`) and an action-request coordinator (`state_handler`).

pub mod challenge_handler;
pub mod channel;
pub mod error;
pub mod state_handler;
pub mod state_machine;
pub mod types;
