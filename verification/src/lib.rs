//! Platform-native OpenGL context management and entry-point resolution.
//!
//! The library models the host graphics runtime as an explicit state value,
//! funnels every native interaction through it, and proves the ordering and
//! lifecycle invariants the subsystem is responsible for: a rendering context
//! is unbound before it is deleted, an owned drawable surface is released
//! exactly once, and entry-point lookup is a pure function of the loaded
//! library.

pub mod compat;
pub mod gl_loader;
pub mod keyboard;
pub mod swizzle;
pub mod wgl;
