//! Decision engine for a media transcoding planner.
//!
//! Given the streams of a media container (as plain per-stream facts handed
//! in by a demuxing front end), the library classifies each stream, selects
//! which streams to keep, resolves a target codec (or pass-through) for each
//! selected stream, and lays the result out as report entries. All of the
//! decision logic is verified; demuxing, logging and console output live in
//! the surrounding application.

pub mod codecs;
pub mod files;
pub mod interface;
pub mod plan;
pub mod selection;
pub mod streams;
