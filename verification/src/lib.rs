//! Organizes media files by their content-embedded capture timestamp.
//!
//! The library classifies a file by extension, extracts a capture date from
//! the file's own bytes (an EXIF block in an image container, or the movie
//! header atom of an ISO-BMFF/QuickTime container), falls back through a
//! timestamp chain when extraction fails, substitutes the chosen date into a
//! user-supplied path template, and builds a rename plan.  All parsing and
//! decision logic is verified; the thin shell that touches the filesystem
//! lives outside this crate and hands plain values in and out.

pub mod atom;
pub mod datetime;
pub mod exif;
pub mod plan;
pub mod resolve;
pub mod stream;
pub mod template;
