//! Core of an image-viewing application: a frame-set decoder, an animated
//! paintable that drives frame advancement on a one-shot rescheduling timer,
//! and a content-addressed thumbnail cache keyed by a hash of the source path.
//!
//! The GUI shell around this library (window construction, key dispatch,
//! file and timer plumbing) is ordinary unverified Rust; it hands this
//! library plain values and carries out the actions the library decides on.

pub mod cache;
pub mod decode;
pub mod frame;
pub mod paintable;
pub mod resize;
pub mod shell;
