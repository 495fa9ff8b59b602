//! Aspect-ratio constrained window resize engine for a video player shell.
//!
//! The crate keeps a video surface at its intrinsic aspect ratio while the
//! user drags any window edge or corner, forwards every unrelated native
//! window notification to the handler that was installed before ours, and
//! classifies the URLs the player is asked to open.

pub mod bbs;
pub mod controller;
pub mod geometry;
pub mod interceptor;
pub mod page;
pub mod registry;
pub mod resolve;
pub mod resize;
pub mod text;
