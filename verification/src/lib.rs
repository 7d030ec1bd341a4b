//! Configuration schema for a consensus safety-rules component.
//!
//! The crate models how the safety-rules decision module of a validator is
//! configured: which secure key-storage backend it uses, where the service
//! runs relative to its caller, whether proposal signatures are verified,
//! and how ephemeral test keys are provisioned.  A strict serialized form
//! with unknown-field rejection is defined in [`codec`].

pub mod codec;
pub mod config;
pub mod hexstr;
pub mod resolve;
mod rng;
