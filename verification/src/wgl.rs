//! Native OpenGL context management.
//!
//! The host graphics runtime (its dynamic library, its drawable surfaces and
//! its rendering contexts) is modelled by an explicit [`platform::Platform`]
//! value; the subsystem's own bookkeeping lives in [`state::GlState`].  All
//! operations are total functions over that state, so the lifecycle rules —
//! unbind before delete, release an owned surface exactly once — are stated
//! in the contracts and proved.

pub mod context;
pub mod display;
pub mod errors;
pub mod laws;
pub mod platform;
pub mod state;

pub use context::WGLContext;
pub use display::{WGLDisplay, WGLDisplayHandle};
pub use errors::{Error, LoadFailure, MakeCurrentError};
pub use platform::{PixelFormatDescriptor, Platform, Runtime, Symbol};
pub use state::{get_proc_address, init_gl_library, GlState};
