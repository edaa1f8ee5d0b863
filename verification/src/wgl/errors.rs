//! Error taxonomy of the context-management subsystem.

use vstd::prelude::*;

verus! {

/// Why opening the graphics runtime library failed.  The condition is static
/// for the life of the process, so callers propagate it instead of retrying.
#[derive(Debug, Clone, Copy, PartialEq, Eq, Structural)]
pub enum LoadFailure {
    /// The host has no graphics runtime library to open.
    LibraryNotFound,
    /// The library was opened but a required core entry point is missing.
    SymbolMissing,
}

/// Construction-time failures of surfaces and contexts.
#[derive(Debug, Clone, Copy, PartialEq, Eq, Structural)]
pub enum Error {
    /// Failed to acquire a device context for the window.
    GetDCFailed,
    /// No pixel format of the runtime satisfies the request.
    ChoosePixelFormatFailed,
    /// The driver rejected applying the chosen pixel format.
    SetPixelFormatFailed,
    /// The native context-creation call returned an invalid handle.
    ContextCreationFailed,
    /// Failed to make a context current.
    MakeCurrentFailed,
    /// A required OpenGL extension is not supported.
    ExtensionNotSupported,
    /// The graphics runtime library could not be loaded.
    LibraryLoadFailed(LoadFailure),
}

/// Error when binding or unbinding a context fails.  Deliberately carries no
/// payload: the native return code does not distinguish the causes, and
/// callers treat any failure as "cannot render this frame".
#[derive(Debug, Clone, Copy, PartialEq, Eq, Structural)]
pub struct MakeCurrentError;

} // verus!
