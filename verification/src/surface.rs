//! The presentable surface and its configuration.
//!
//! The surface's one invariant is that the configuration the driver
//! holds is never stale: the width and height last applied to the
//! surface always equal the configured ones, because every resize
//! reconfigures synchronously, before the next frame is acquired.
//! Under that invariant, a successfully acquired frame has exactly
//! the configured dimensions.

use vstd::prelude::*;
use crate::error::RenderError;

verus! {

/// How presentation is paced relative to display refresh.
#[derive(Clone, Copy, Debug, PartialEq, Eq, Structural)]
pub enum PresentMode {
    /// Vertical-sync locked: capped to refresh, no tearing.
    Fifo,
    /// Present immediately, tearing allowed.
    Immediate,
    /// Triple-buffered presentation.
    Mailbox,
}

/// The surface configuration: the platform-chosen texture format and
/// alpha compositing mode (opaque tokens chosen by the platform
/// layer), the drawable size, and the present mode.
#[derive(Clone, Copy, Debug, PartialEq, Eq, Structural)]
pub struct SurfaceConfig {
    /// The platform's preferred texture format, as an opaque token.
    pub format: u32,
    /// Drawable width in pixels.
    pub width: u32,
    /// Drawable height in pixels.
    pub height: u32,
    /// How presentation is paced.
    pub present_mode: PresentMode,
    /// The platform's supported alpha compositing mode, as an opaque
    /// token.
    pub alpha_mode: u32,
}

/// One frame texture acquired from the surface.
#[derive(Clone, Copy, Debug, PartialEq, Eq, Structural)]
pub struct FrameTexture {
    pub width: u32,
    pub height: u32,
}

/// What the driver reported when a frame was requested.
#[derive(Clone, Copy, Debug, PartialEq, Eq, Structural)]
pub enum AcquireOutcome {
    /// A frame of the configured size is available.
    Success,
    /// The surface was lost; it must be reconfigured.
    Lost,
    /// The request timed out.
    Timeout,
    /// The driver is out of memory.
    OutOfMemory,
}

/// The surface manager: the current configuration, and the size last
/// applied to the driver's surface.
#[derive(Clone, Copy, Debug)]
pub struct SurfaceManager {
    /// The configuration as the engine wants it.
    pub config: SurfaceConfig,
    /// The width last applied by a configure call.
    pub applied_width: u32,
    /// The height last applied by a configure call.
    pub applied_height: u32,
}

/// The manager after a resize: the new size both configured and
/// applied, everything else kept.
pub open spec fn spec_on_resize(m: SurfaceManager, width: u32, height: u32) -> SurfaceManager {
    SurfaceManager {
        config: SurfaceConfig { width, height, ..m.config },
        applied_width: width,
        applied_height: height,
    }
}

/// The frame a successful acquire returns: exactly the applied size.
pub open spec fn spec_acquired_frame(m: SurfaceManager) -> FrameTexture {
    FrameTexture { width: m.applied_width, height: m.applied_height }
}

impl SurfaceManager {
    /// No stale configuration: what the driver's surface was last
    /// configured with is what the configuration says, and the size
    /// is a valid drawable size.
    pub open spec fn well_formed(&self) -> bool {
        &&& self.applied_width == self.config.width
        &&& self.applied_height == self.config.height
        &&& self.config.width >= 1
        &&& self.config.height >= 1
    }

    /// Configures the surface at startup: the platform's preferred
    /// format and alpha mode, the window's drawable size, and
    /// vertical-sync-locked presentation.
    pub fn configure(format: u32, alpha_mode: u32, width: u32, height: u32) -> (m: SurfaceManager)
        requires
            width >= 1,
            height >= 1,
        ensures
            m.config == (SurfaceConfig {
                format,
                width,
                height,
                present_mode: PresentMode::Fifo,
                alpha_mode,
            }),
            m.well_formed(),
    {
        SurfaceManager {
            config: SurfaceConfig {
                format,
                width,
                height,
                present_mode: PresentMode::Fifo,
                alpha_mode,
            },
            applied_width: width,
            applied_height: height,
        }
    }

    /// Handles a resize: updates the configuration and applies it
    /// synchronously, so no acquire ever sees a stale size. The
    /// platform layer must push `self.config` to the driver before
    /// the next acquire, and then request a redraw.
    pub fn on_resize(&mut self, width: u32, height: u32)
        requires
            old(self).well_formed(),
            width >= 1,
            height >= 1,
        ensures
            *final(self) == spec_on_resize(*old(self), width, height),
            final(self).well_formed(),
    {
        self.config.width = width;
        self.config.height = height;
        self.applied_width = width;
        self.applied_height = height;
    }

    /// Interprets the driver's answer to a frame request. On success
    /// the frame has exactly the configured dimensions — the surface
    /// is never acquired under a stale configuration; the two
    /// transient conditions and the fatal out-of-memory condition map
    /// to their errors, precisely.
    pub fn acquire_frame(&self, outcome: AcquireOutcome) -> (r: Result<FrameTexture, RenderError>)
        requires
            self.well_formed(),
        ensures
            r == match outcome {
                AcquireOutcome::Success => Ok::<FrameTexture, RenderError>(
                    spec_acquired_frame(*self),
                ),
                AcquireOutcome::Lost => Err::<FrameTexture, RenderError>(
                    RenderError::SurfaceLost,
                ),
                AcquireOutcome::Timeout => Err::<FrameTexture, RenderError>(
                    RenderError::SurfaceTimeout,
                ),
                AcquireOutcome::OutOfMemory => Err::<FrameTexture, RenderError>(
                    RenderError::SurfaceOutOfMemory,
                ),
            },
            r is Ok ==> r->Ok_0.width == self.config.width && r->Ok_0.height == self.config.height,
    {
        match outcome {
            AcquireOutcome::Success => Ok(FrameTexture {
                width: self.applied_width,
                height: self.applied_height,
            }),
            AcquireOutcome::Lost => Err(RenderError::SurfaceLost),
            AcquireOutcome::Timeout => Err(RenderError::SurfaceTimeout),
            AcquireOutcome::OutOfMemory => Err(RenderError::SurfaceOutOfMemory),
        }
    }
}

/// Law: for any valid size, a resize followed by a successful acquire
/// yields a frame of exactly that size.
pub proof fn lemma_resize_then_acquire(m: SurfaceManager, width: u32, height: u32)
    requires
        m.well_formed(),
        width >= 1,
        height >= 1,
    ensures
        spec_on_resize(m, width, height).well_formed(),
        spec_acquired_frame(spec_on_resize(m, width, height)) == (FrameTexture { width, height }),
{
}

} // verus!
