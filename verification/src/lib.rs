//! Core of a video-compression tool built around an external encoder.
//!
//! The crate holds the decision logic of one compression job: path
//! validation and derived output locations, the encoder argument builder,
//! interpretation of the probe pass and of the machine-readable progress
//! stream, speed and ETA metrics, the output-size estimate, and the
//! lifecycle state machine that keeps the destination atomic under
//! success, failure and cancellation.  The surrounding program performs
//! the filesystem, subprocess and terminal work these decisions call for.

pub mod cli;
pub mod domain;
pub mod error;
pub mod ffmpeg;
pub mod lifecycle;
pub mod localization;
pub mod paths;
pub mod probe;
pub mod progress;
pub mod sizes;
pub mod text;
