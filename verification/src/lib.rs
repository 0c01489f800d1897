//! Decision core of a sink that uploads image frames, one object per frame,
//! to an object-storage bucket.
//!
//! The crate holds what the sink decides: how long to wait before a retry,
//! when to give up on a frame, under which key a frame is stored, and how the
//! sink moves between its stopped and started states. Network calls, timers
//! and the media pipeline stay with the caller, which hands their outcomes in
//! as plain values.

pub mod backoff;
pub mod decimal;
pub mod error;
pub mod plugin;
pub mod provision;
pub mod put_object_handler;
pub mod region;
pub mod retry;
pub mod s3multiframesink;
pub mod upload;
