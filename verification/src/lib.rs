//! Verified core of a screen-capture monitoring agent.
//!
//! The library models the pipeline from captured frames to upload-ready
//! artifacts: a bounded, invariant-checked frame batch, a deterministic 3x3
//! temporal mosaic composer, a time-driven authentication state machine, an
//! upload client with bounded retry and a content-derived idempotency key,
//! the capture-worker command/event protocol, and the mapping from analysis
//! responses to UI-safe risk signals.

pub mod analysis;
pub mod auth;
pub mod capture;
pub mod codec;
pub mod control;
pub mod json;
pub mod model;
pub mod mosaic;
pub mod net;
pub mod num;
pub mod pipeline;
pub mod staging;
pub mod text;
pub mod ui;
pub mod upload;
pub mod worker;
