//! The one-way channel to the policy engine.

pub mod messages;
