//! Core of a real-time overlay compositor that renders short-lived animated
//! sprites ("thrown items") into an off-screen surface and publishes that
//! surface frame by frame to an external shared-texture consumer.
//!
//! The library covers the parts of the engine that are worth proving:
//! the reference-counted ownership model for opaque native handles, the
//! per-item animation state driven by constant-buffer updates, the ingest
//! queue that carries decoded textures from background decode tasks into the
//! render loop, and the per-frame binding, drawing and pacing decisions.
//! Device creation, shader compilation and the shared-texture handshake are
//! external collaborators; they are driven from outside the library.

pub mod com;
pub mod compositor;
pub mod coords;
pub mod error;
pub mod ingest;
pub mod item;
pub mod pipeline;
