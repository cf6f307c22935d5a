//! Core of a IIIF Presentation-API image viewer.
//!
//! The crate normalizes manifest JSON into an ordered image list, drives
//! navigation and drag-panning, and derives zoom-correct crop rectangles in
//! native pixel space. Rendering and network I/O are left to the caller; the
//! library only computes state and hands out plain values. JSON text enters
//! through serde_json, behind the small trusted boundary in [`json`];
//! everything that interprets or builds a document is verified.

pub mod curation;
pub mod iiif_manifest;
pub mod json;
pub mod search;
pub mod viewer;
