//! Core logic of a single-window, single-surface rendering canvas.
//!
//! The library owns the decisions of the canvas runtime: how the surface
//! configuration is chosen and resized, how the cursor position is cached and
//! handed to mouse-button dispatch, and how render failures are triaged
//! (reconfigure, ignore, or terminate). The platform work itself — creating
//! the OS window, negotiating a GPU device, configuring the surface and
//! presenting frames — is carried out by an embedder that feeds platform
//! events in and performs the actions the library hands back.

pub mod canvas;
pub mod config;
pub mod error;
pub mod laws;
