//! Core of a minimal real-time rendering engine.
//!
//! The library owns the engine's logic: vertex-buffer and attribute-layout
//! bookkeeping, the shader-program lifecycle with its uniform-location cache
//! and texture-unit pool, and the frame-pacing timer of the window run loop.
//! The graphics driver itself is an external capability: every verified
//! operation returns the exact sequence of [`commands::GlCommand`] values it
//! wants issued, and an unverified shell around the library replays them on
//! the real context, feeding driver answers (object ids, compile status,
//! uniform locations, timestamps) back in as plain values.

pub mod commands;
pub mod data;
pub mod error;
pub mod renderable;
pub mod shader;
pub mod vertex;
pub mod window;
