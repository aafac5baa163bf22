//! The presentable surface: its configuration, and how a resize changes it.

use vstd::prelude::*;

verus! {

/// Presentation timing chosen when the surface is configured.
///
/// The policy is explicit: the initial configuration at startup uses
/// `AutoVsync`, and every reconfiguration after a resize uses `Fifo`
/// (unconditional vsync, which avoids tearing right after a resize).
#[derive(Clone, Copy, PartialEq, Eq, Debug)]
pub enum PresentMode {
    AutoVsync,
    Fifo,
}

/// How the surface's textures may be used. Frames are only ever rendered
/// into, so the single permitted usage is as a render attachment.
#[derive(Clone, Copy, PartialEq, Eq, Debug)]
pub enum SurfaceUsage {
    RenderAttachment,
}

/// One surface configuration, as handed to the driver: pixel dimensions,
/// the fixed texture format (an opaque id the host assigns to the format the
/// adapter reported first), usage, and presentation mode.
#[derive(Clone, Copy, PartialEq, Eq, Debug)]
pub struct SurfaceConfig {
    pub usage: SurfaceUsage,
    pub format: u32,
    pub width: u32,
    pub height: u32,
    pub present_mode: PresentMode,
}

/// The configuration chosen at startup, from the window's current pixel size.
pub open spec fn spec_initial_config(format: u32, width: u32, height: u32) -> SurfaceConfig {
    SurfaceConfig {
        usage: SurfaceUsage::RenderAttachment,
        format,
        width,
        height,
        present_mode: PresentMode::AutoVsync,
    }
}

/// The configuration applied after a resize: same format and usage, the new
/// dimensions, and `Fifo` presentation.
pub open spec fn spec_resized_config(format: u32, width: u32, height: u32) -> SurfaceConfig {
    SurfaceConfig {
        usage: SurfaceUsage::RenderAttachment,
        format,
        width,
        height,
        present_mode: PresentMode::Fifo,
    }
}

pub fn initial_config(format: u32, width: u32, height: u32) -> (c: SurfaceConfig)
    ensures
        c == spec_initial_config(format, width, height),
{
    SurfaceConfig {
        usage: SurfaceUsage::RenderAttachment,
        format,
        width,
        height,
        present_mode: PresentMode::AutoVsync,
    }
}

pub fn resized_config(format: u32, width: u32, height: u32) -> (c: SurfaceConfig)
    ensures
        c == spec_resized_config(format, width, height),
{
    SurfaceConfig {
        usage: SurfaceUsage::RenderAttachment,
        format,
        width,
        height,
        present_mode: PresentMode::Fifo,
    }
}

/// The graphics context as the logic sees it: an opaque device handle id,
/// the fixed surface format, and the surface's current configuration. The
/// device and format are chosen once at startup and never change afterwards.
#[derive(Clone, Copy, PartialEq, Eq, Debug)]
pub struct GraphicsContext {
    pub device: u64,
    pub format: u32,
    pub config: SurfaceConfig,
}

impl GraphicsContext {
    /// The configuration on record always carries the context's own format.
    pub open spec fn wf(self) -> bool {
        self.config.format == self.format
    }

    /// The context right after startup: the host has acquired a device
    /// (identified here by an opaque id), read the adapter's first supported
    /// format, and configured the surface for the window's pixel size.
    pub fn new(device: u64, format: u32, width: u32, height: u32) -> (ctx: GraphicsContext)
        ensures
            ctx.device == device,
            ctx.format == format,
            ctx.config == spec_initial_config(format, width, height),
            ctx.wf(),
    {
        GraphicsContext {
            device,
            format,
            config: initial_config(format, width, height),
        }
    }

    /// The context after a resize to `width` x `height`.
    ///
    /// Policy for zero dimensions: a resize with a zero width or height does
    /// not reconfigure the surface; the configuration is left as it was.
    /// Positive dimensions always reconfigure, to the same dimensions as
    /// often as they arrive.
    pub open spec fn spec_resize(self, width: u32, height: u32) -> GraphicsContext {
        if width > 0 && height > 0 {
            GraphicsContext {
                config: spec_resized_config(self.format, width, height),
                ..self
            }
        } else {
            self
        }
    }

    /// Apply a resize event. Returns whether the surface must actually be
    /// reconfigured (and a repaint scheduled): true exactly for positive
    /// dimensions. Never panics, whatever the dimensions; the device and
    /// format are never touched.
    pub fn resize(&mut self, width: u32, height: u32) -> (reconfigured: bool)
        ensures
            *final(self) == old(self).spec_resize(width, height),
            reconfigured == (width > 0 && height > 0),
            final(self).device == old(self).device,
            final(self).format == old(self).format,
            reconfigured ==> final(self).config == spec_resized_config(
                old(self).format,
                width,
                height,
            ),
            !reconfigured ==> final(self).config == old(self).config,
            old(self).wf() ==> final(self).wf(),
    {
        if width > 0 && height > 0 {
            self.config = resized_config(self.format, width, height);
            true
        } else {
            false
        }
    }

    /// Resizing is idempotent: applying the same dimensions twice leaves
    /// exactly the configuration a single application leaves.
    pub proof fn lemma_resize_idempotent(self, width: u32, height: u32)
        ensures
            self.spec_resize(width, height).spec_resize(width, height) == self.spec_resize(
                width,
                height,
            ),
    {
    }
}

} // verus!
