//! Authorization and state-transition engine for attested, slot-bounded
//! trading signals.

pub mod address;
pub mod errors;
pub mod instructions;
pub mod state;
