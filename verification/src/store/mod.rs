//! The storage backend's rules: how keys are spelled, which rows expire, and
//! what the hand-kept indexes hold.
//!
//! The host's store is reached outside. These functions decide what is asked
//! of it and what its answers mean.
pub mod changes;
pub mod device;
pub mod expiry;
pub mod host;
pub mod index;
pub mod json;
pub mod key_laws;
pub mod keys;
pub mod laws;
pub mod plans;
pub mod row_laws;
pub mod rows;
