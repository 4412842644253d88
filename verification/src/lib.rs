//! Verified geometry logic for a window that toggles between a small
//! "mini" layout and its normal layout.
//!
//! The library plans the toggle: it picks the target size for the requested
//! mode, scales it from logical to physical pixels, computes the position
//! that keeps the window's top-right corner fixed, and lays out the ordered
//! window-manager actions. Performing those actions against a real window
//! is left to an unverified shell around the library.

pub mod geometry;
pub mod toggle;
