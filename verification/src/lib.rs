//! Verified core of a tool that speeds up the audio members of an XP3
//! archive: header sniffing, per-file transcode decisions, archive staging
//! and the pipeline that ties them together.

pub mod archive;
pub mod extract;
pub mod log_utils;
pub mod names;
pub mod pipeline;
pub mod runner;
pub mod sniff;
pub mod speed;
pub mod tree;
