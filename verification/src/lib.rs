//! Verified core of a media-collection report tool.
//!
//! The library holds the pure logic of a directory-scanning media reporter:
//! the duration and bit-rate formatters, the file filter, the per-file
//! summary-block builder, and the report aggregation. Directory walking,
//! concurrent probing of containers and all other I/O live outside the
//! library and hand it plain values.

pub mod bitrate;
pub mod digits;
pub mod duration;
pub mod filter;
pub mod mime;
pub mod report;
