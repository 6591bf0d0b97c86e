//! Offscreen shader rendering to a raw RGB byte stream: the decisions of the
//! render pipeline, from shader build to the per-frame loop, as a verified
//! state machine that a host drives with the outcome of each graphics call.

pub mod error;
pub mod guard;
pub mod stages;
pub mod schedule;
pub mod session;
pub mod run;
