//! Orchestration core for turning a source of visual frames, a live screen
//! capture or an uploaded file, into an ordered, typed collection of
//! extracted-text records.
//!
//! The capture, decode and inference engines stay outside. What is here is
//! what goes on between them: a caller's configuration is validated and
//! resolved to one engine ([`pipeline::normalize`], [`types`], [`capture`],
//! [`uploader`]); a run takes the frames one by one, hands each to the engine
//! and keeps one record per frame ([`run`]); and the records become the
//! collection handed to the caller only if they keep its invariant
//! ([`pipeline::assemble`], [`image`], [`timestamp`]).

pub mod capture;
pub mod error;
pub mod image;
pub mod pipeline;
pub mod run;
pub mod timestamp;
pub mod types;
pub mod uploader;
