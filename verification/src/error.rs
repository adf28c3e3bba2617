//! The error taxonomy of the canvas core.

use vstd::prelude::*;

verus! {

/// Every failure the canvas runtime can observe, classified by recovery
/// policy. `ContextLost` marks a surface or device invalidation that is
/// recovered by reconfiguring the surface; `OutOfMemory` marks GPU or host
/// memory exhaustion and is fatal; every other kind observed during a render
/// cycle is recoverable by simply retrying on the next frame.
#[derive(Debug, Clone, PartialEq, Eq)]
pub enum Error {
    IO(String),
    Internal(String),
    GraphicsAPI(String),
    ContextLost(String),
    OutOfMemory(String),
}

/// The failure kinds a surface can report when the next presentable frame
/// texture is acquired, mirroring the acquisition errors of the graphics
/// backend: a transient timeout, a configuration that no longer matches the
/// surface, a lost surface/device, or memory exhaustion.
#[derive(Debug, Clone, Copy, PartialEq, Eq, Structural)]
pub enum SurfaceError {
    Timeout,
    Outdated,
    Lost,
    OutOfMemory,
}

impl Error {
    /// The message carried by the error.
    pub open spec fn message_view(self) -> Seq<char> {
        match self {
            Error::IO(s) => s@,
            Error::Internal(s) => s@,
            Error::GraphicsAPI(s) => s@,
            Error::ContextLost(s) => s@,
            Error::OutOfMemory(s) => s@,
        }
    }

    /// The message carried by the error.
    pub fn message(&self) -> (m: &String)
        ensures
            m@ == self.message_view(),
    {
        match self {
            Error::IO(s) => s,
            Error::Internal(s) => s,
            Error::GraphicsAPI(s) => s,
            Error::ContextLost(s) => s,
            Error::OutOfMemory(s) => s,
        }
    }
}

/// What classifying a surface-acquisition failure yields: a lost surface is a
/// recoverable context loss, memory exhaustion is fatal, and everything else
/// (timeout, outdated configuration) is a generic backend failure that the
/// render loop retries on the next frame.
pub open spec fn classified_surface_error(kind: SurfaceError, detail: String) -> Error {
    match kind {
        SurfaceError::Lost => Error::ContextLost(detail),
        SurfaceError::OutOfMemory => Error::OutOfMemory(detail),
        SurfaceError::Timeout => Error::GraphicsAPI(detail),
        SurfaceError::Outdated => Error::GraphicsAPI(detail),
    }
}

/// Map a surface-acquisition failure into the error taxonomy, carrying the
/// backend's own description of the failure as the message.
pub fn error_from_surface(kind: SurfaceError, detail: String) -> (e: Error)
    ensures
        e == classified_surface_error(kind, detail),
{
    match kind {
        SurfaceError::Lost => Error::ContextLost(detail),
        SurfaceError::OutOfMemory => Error::OutOfMemory(detail),
        SurfaceError::Timeout => Error::GraphicsAPI(detail),
        SurfaceError::Outdated => Error::GraphicsAPI(detail),
    }
}

} // verus!
