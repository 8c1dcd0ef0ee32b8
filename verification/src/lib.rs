//! Verified core of a media enhancement and conversion toolkit.
//!
//! The library builds canonical filter chains from typed enhancement
//! options, constructs the argument vectors handed to the external
//! transcoding tool, schedules batches of independent jobs under a
//! concurrency bound, and parses capture-device capability listings,
//! all with machine-checked contracts.

pub mod audio;
pub mod batch;
pub mod capture;
pub mod clean;
pub mod convert;
pub mod error;
pub mod ffmpeg;
pub mod file_utils;
pub mod formats;
pub mod i18n;
pub mod probe;
pub mod strnum;
pub mod strutil;
pub mod ui_state;
pub mod video;
