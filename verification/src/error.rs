//! The engine's failure taxonomy.
//!
//! Every failure is either fatal — the process must terminate with a
//! diagnostic, there is no degraded rendering mode — or transient —
//! the current tick is skipped, another redraw is requested, and the
//! loop carries on. The split is pinned down exactly here, so the
//! loop's retry policy can be proved against it.

use vstd::prelude::*;

verus! {

/// Everything that can go wrong in the engine.
#[derive(Clone, Copy, Debug, PartialEq, Eq, Structural)]
pub enum RenderError {
    /// No compatible GPU adapter was found at startup.
    NoCompatibleAdapter,
    /// The adapter refused the requested device features or limits.
    DeviceCreationFailed,
    /// A bind group's resources do not conform to the layout it was
    /// built against, by slot or by kind.
    BindingMismatch,
    /// The startup variant identifier names no known configuration.
    UnknownVariant,
    /// The surface was lost while acquiring a frame; reconfigure and
    /// retry.
    SurfaceLost,
    /// Acquiring a frame timed out; retry on the next tick.
    SurfaceTimeout,
    /// The surface ran out of memory while acquiring a frame.
    SurfaceOutOfMemory,
}

/// Whether an error aborts the process: everything but the two
/// retryable surface conditions.
pub open spec fn spec_is_fatal(e: RenderError) -> bool {
    match e {
        RenderError::NoCompatibleAdapter => true,
        RenderError::DeviceCreationFailed => true,
        RenderError::BindingMismatch => true,
        RenderError::UnknownVariant => true,
        RenderError::SurfaceLost => false,
        RenderError::SurfaceTimeout => false,
        RenderError::SurfaceOutOfMemory => true,
    }
}

impl RenderError {
    /// Whether this error aborts the process.
    pub fn is_fatal(&self) -> (r: bool)
        ensures
            r == spec_is_fatal(*self),
    {
        match self {
            RenderError::SurfaceLost => false,
            RenderError::SurfaceTimeout => false,
            _ => true,
        }
    }

    /// Whether this error is absorbed by the render loop: exactly the
    /// non-fatal ones.
    pub fn is_transient(&self) -> (r: bool)
        ensures
            r == !spec_is_fatal(*self),
    {
        !self.is_fatal()
    }

    /// A diagnostic phrase for the error; fatal errors reach the top
    /// level with it.
    pub fn describe(&self) -> (r: &'static str)
        ensures
            r@.len() != 0,
    {
        proof {
            reveal_strlit("no compatible GPU adapter found");
            reveal_strlit("device creation rejected by the adapter");
            reveal_strlit("bind group does not conform to its layout");
            reveal_strlit("unrecognized render variant identifier");
            reveal_strlit("surface lost; reconfigure and retry");
            reveal_strlit("surface acquire timed out; retry next tick");
            reveal_strlit("surface out of memory");
        }
        match self {
            RenderError::NoCompatibleAdapter => "no compatible GPU adapter found",
            RenderError::DeviceCreationFailed => "device creation rejected by the adapter",
            RenderError::BindingMismatch => "bind group does not conform to its layout",
            RenderError::UnknownVariant => "unrecognized render variant identifier",
            RenderError::SurfaceLost => "surface lost; reconfigure and retry",
            RenderError::SurfaceTimeout => "surface acquire timed out; retry next tick",
            RenderError::SurfaceOutOfMemory => "surface out of memory",
        }
    }
}

} // verus!
