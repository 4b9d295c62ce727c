//! The presentation surface's configuration: pixel format, size, present
//! mode, alpha compositing mode and queued-frame depth, together with the
//! rules for building it from the surface's capabilities and for resizing it.

use vstd::prelude::*;

verus! {

/// How presented images are paced. The render loop always asks for
/// automatic vertical sync.
#[derive(Clone, Copy, PartialEq, Eq, Structural, Debug)]
pub enum PresentMode {
    AutoVsync,
}

/// How the surface's alpha channel is composited with the desktop. The
/// render loop always leaves the choice to the platform.
#[derive(Clone, Copy, PartialEq, Eq, Structural, Debug)]
pub enum AlphaMode {
    Auto,
}

/// At most this many frames may be queued between the application and the
/// presentation engine.
pub const MAX_FRAME_LATENCY: u32 = 2;

/// The surface's configuration. `format` is the pixel format as reported by
/// the surface's capability list; the model carries it as the opaque code
/// under which the platform lists it.
#[derive(Clone, Copy, PartialEq, Eq, Structural, Debug)]
pub struct SurfaceConfig {
    pub format: u32,
    pub width: u32,
    pub height: u32,
    pub present_mode: PresentMode,
    pub alpha_mode: AlphaMode,
    pub frame_latency: u32,
}

impl SurfaceConfig {
    /// A configuration is well formed when its target area is drawable and
    /// its queued-frame depth is the fixed bound.
    pub open spec fn well_formed(self) -> bool {
        self.width > 0 && self.height > 0 && self.frame_latency == MAX_FRAME_LATENCY
    }
}

/// Both dimensions of a drawable target must be non-zero.
pub open spec fn valid_dims(width: u32, height: u32) -> bool {
    width > 0 && height > 0
}

/// The configuration that a fresh surface receives: the first format of the
/// capability list, the window's size, and the fixed pacing choices.
pub open spec fn initial_config(format: u32, width: u32, height: u32) -> SurfaceConfig {
    SurfaceConfig {
        format: format,
        width: width,
        height: height,
        present_mode: PresentMode::AutoVsync,
        alpha_mode: AlphaMode::Auto,
        frame_latency: MAX_FRAME_LATENCY,
    }
}

/// What a resize request leaves behind: the new size when both dimensions
/// are non-zero, the old configuration untouched otherwise.
pub open spec fn resized_config(cfg: SurfaceConfig, width: u32, height: u32) -> SurfaceConfig {
    if valid_dims(width, height) {
        SurfaceConfig { width: width, height: height, ..cfg }
    } else {
        cfg
    }
}

impl SurfaceConfig {
    /// Build the configuration for a surface whose capability list is
    /// `formats`, deterministically choosing the first supported format.
    /// The list of a compatible surface is never empty; the size is the
    /// window's, which exists only with a drawable area.
    pub fn configure(formats: &Vec<u32>, width: u32, height: u32) -> (cfg: SurfaceConfig)
        requires
            formats@.len() > 0,
            valid_dims(width, height),
        ensures
            cfg == initial_config(formats@[0], width, height),
            cfg.well_formed(),
    {
        SurfaceConfig {
            format: formats[0],
            width: width,
            height: height,
            present_mode: PresentMode::AutoVsync,
            alpha_mode: AlphaMode::Auto,
            frame_latency: MAX_FRAME_LATENCY,
        }
    }

    /// Apply a resize request. A request with a zero dimension (a minimized
    /// or degenerate window) is absorbed as a no-op; otherwise the size is
    /// updated in place and the caller must re-apply the configuration to
    /// the live surface before the next frame. The result says whether that
    /// re-application is owed.
    pub fn resize(&mut self, width: u32, height: u32) -> (reconfigure: bool)
        ensures
            *final(self) == resized_config(*old(self), width, height),
            reconfigure == valid_dims(width, height),
            old(self).well_formed() ==> final(self).well_formed(),
    {
        if width > 0 && height > 0 {
            self.width = width;
            self.height = height;
            true
        } else {
            false
        }
    }
}

/// Resizing is idempotent: applying the same non-zero size twice leaves the
/// same configuration as applying it once.
pub proof fn lemma_resize_idempotent(cfg: SurfaceConfig, width: u32, height: u32)
    requires
        valid_dims(width, height),
    ensures
        resized_config(resized_config(cfg, width, height), width, height)
            == resized_config(cfg, width, height),
{
}

/// A resize with a zero dimension changes nothing, whatever the prior
/// configuration was.
pub proof fn lemma_zero_resize_noop(cfg: SurfaceConfig, width: u32, height: u32)
    requires
        !valid_dims(width, height),
    ensures
        resized_config(cfg, width, height) == cfg,
{
}

} // verus!
