//! Client-side transport for a cryptographic micro-service.
//!
//! A caller submits exactly one operation at a time over a pair of
//! single-slot conduits, polls without blocking for completion, and the
//! arriving reply is matched against the tag of the outstanding request so
//! that a caller asking for one operation can never be handed the result of
//! another.

pub mod api;
pub mod client;
pub mod error;
pub mod pipe;
pub mod types;
