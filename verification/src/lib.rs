//! Verified core of a segment-based video editing pipeline.
//!
//! The library turns a declarative edit request into a deterministic plan of
//! external-tool invocations (rendering, transitions, concatenation), together
//! with progress milestones and a cleanup list.  All decision logic lives here
//! and is verified; spawning the external tool and touching the filesystem is
//! left to the embedding application.

pub mod command;
pub mod filter;
pub mod fps;
pub mod frames;
pub mod laws;
pub mod metadata;
pub mod paths;
pub mod pipeline;
pub mod profile;
pub mod subtitle;
pub mod text;
