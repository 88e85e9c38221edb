//! Surface and swapchain manager: creation of the presentable image queue
//! and its recreation when the window is resized or presentation reports it
//! stale.
//!
//! A swapchain is described by plain values: the color format and present
//! mode chosen from the surface's capabilities, the image count derived from
//! the surface's minimum, the pixel dimensions it was built for, and a
//! generation counter that every recreation advances. Everything derived
//! from the swapchain (framebuffers above all) records the generation it was
//! built against, so a stale set can never be mistaken for a current one.

use vstd::prelude::*;

verus! {

/// Presentation modes the renderer chooses between: low-latency mailbox
/// when the surface offers it, the universally supported vsynced fifo
/// otherwise.
#[derive(Clone, Copy, Debug, PartialEq, Eq, Structural)]
pub enum PresentMode {
    Mailbox,
    Fifo,
}

/// Surface capabilities, as the platform reports them: the supported color
/// formats as opaque codes in the platform's preference order, the minimum
/// image count the surface accepts, and whether mailbox presentation is
/// offered.
pub struct SurfaceCaps {
    pub formats: Vec<u32>,
    pub min_image_count: u32,
    pub supports_mailbox: bool,
}

impl SurfaceCaps {
    /// A surface always reports at least one color format and a positive
    /// minimum image count; the bound on the minimum keeps the derived
    /// image count within `u32`.
    pub open spec fn wf(&self) -> bool {
        &&& self.formats@.len() > 0
        &&& 1 <= self.min_image_count < 0xffff_ffffu32
    }
}

/// What the platform reports about the window right now: whether it still
/// exists, and its drawable size in physical pixels.
#[derive(Clone, Copy, Debug)]
pub struct SurfaceState {
    pub alive: bool,
    pub width: u32,
    pub height: u32,
}

impl SurfaceState {
    /// A minimized or collapsed window reports a zero dimension; a
    /// swapchain cannot be built for it.
    pub open spec fn degenerate(&self) -> bool {
        self.width == 0 || self.height == 0
    }
}

/// The swapchain, described by the values all dependent objects are derived
/// from. `generation` counts recreations: objects built against an earlier
/// generation are invalid.
#[derive(Clone, Copy, Debug, PartialEq, Eq, Structural)]
pub struct Swapchain {
    pub format: u32,
    pub present_mode: PresentMode,
    pub image_count: u32,
    pub width: u32,
    pub height: u32,
    pub generation: u64,
}

/// Failures of swapchain creation. `UnsupportedDimensions` is the soft
/// outcome for a degenerate window and tells the caller to skip the frame
/// and retry; `WindowGone` means the window no longer exists and is fatal.
#[derive(Clone, Copy, Debug, PartialEq, Eq, Structural)]
pub enum SwapchainError {
    WindowGone,
    UnsupportedDimensions,
}

/// Outcome of a recreation attempt, keeping the soft failure apart from the
/// hard one so the frame loop can skip a frame instead of aborting.
#[derive(Clone, Copy, Debug, PartialEq, Eq, Structural)]
pub enum RecreateOutcome {
    Recreated(Swapchain),
    UnsupportedDimensions,
    WindowGone,
}

/// The format the renderer runs with: the first one the surface supports.
pub open spec fn chosen_format(caps: SurfaceCaps) -> u32 {
    caps.formats@[0]
}

/// Mailbox when available, fifo otherwise.
pub open spec fn chosen_present_mode(caps: SurfaceCaps) -> PresentMode {
    if caps.supports_mailbox {
        PresentMode::Mailbox
    } else {
        PresentMode::Fifo
    }
}

/// One image above the surface's minimum, so acquisition rarely blocks.
pub open spec fn chosen_image_count(caps: SurfaceCaps) -> int {
    caps.min_image_count + 1
}

/// The swapchain that creation yields on a live, non-degenerate surface.
pub open spec fn spec_create(caps: SurfaceCaps, surface: SurfaceState) -> Swapchain {
    Swapchain {
        format: chosen_format(caps),
        present_mode: chosen_present_mode(caps),
        image_count: (caps.min_image_count + 1) as u32,
        width: surface.width,
        height: surface.height,
        generation: 0,
    }
}

/// The swapchain that recreation yields: the same negotiated properties,
/// the surface's current dimensions, and the next generation.
pub open spec fn spec_recreate(sc: Swapchain, surface: SurfaceState) -> Swapchain {
    Swapchain {
        width: surface.width,
        height: surface.height,
        generation: (sc.generation + 1) as u64,
        ..sc
    }
}

/// The window's current drawable dimensions, or `WindowGone` when the
/// window no longer exists.
pub fn get_window_dimensions(surface: &SurfaceState) -> (r: Result<(u32, u32), SwapchainError>)
    ensures
        surface.alive ==> r == Ok::<(u32, u32), SwapchainError>((surface.width, surface.height)),
        !surface.alive ==> r == Err::<(u32, u32), SwapchainError>(SwapchainError::WindowGone),
{
    if surface.alive {
        Ok((surface.width, surface.height))
    } else {
        Err(SwapchainError::WindowGone)
    }
}

/// Creates the swapchain for a live, non-degenerate surface: first
/// supported format, mailbox present mode when offered (fifo otherwise),
/// and one image above the surface's minimum count.
pub fn create(caps: &SurfaceCaps, surface: &SurfaceState) -> (r: Result<Swapchain, SwapchainError>)
    requires
        caps.wf(),
    ensures
        !surface.alive ==> r == Err::<Swapchain, SwapchainError>(SwapchainError::WindowGone),
        surface.alive && surface.degenerate() ==> r == Err::<Swapchain, SwapchainError>(
            SwapchainError::UnsupportedDimensions,
        ),
        surface.alive && !surface.degenerate() ==> r == Ok::<Swapchain, SwapchainError>(
            spec_create(*caps, *surface),
        ),
        r matches Ok(sc) ==> sc.image_count > caps.min_image_count >= 1,
{
    if !surface.alive {
        return Err(SwapchainError::WindowGone);
    }
    if surface.width == 0 || surface.height == 0 {
        return Err(SwapchainError::UnsupportedDimensions);
    }
    let format = caps.formats[0];
    let present_mode = if caps.supports_mailbox {
        PresentMode::Mailbox
    } else {
        PresentMode::Fifo
    };
    Ok(
        Swapchain {
            format,
            present_mode,
            image_count: caps.min_image_count + 1,
            width: surface.width,
            height: surface.height,
            generation: 0,
        },
    )
}

/// Recreates the swapchain against the window's current dimensions. A
/// degenerate window (minimized, zero-sized) yields the soft
/// `UnsupportedDimensions` outcome so the caller skips the frame and keeps
/// polling; a vanished window is the hard `WindowGone`. On success the
/// negotiated format, present mode and image count carry over unchanged and
/// the generation advances, invalidating every object built against the old
/// swapchain.
pub fn recreate(sc: &Swapchain, surface: &SurfaceState) -> (r: RecreateOutcome)
    requires
        sc.generation < u64::MAX,
    ensures
        !surface.alive ==> r == RecreateOutcome::WindowGone,
        surface.alive && surface.degenerate() ==> r == RecreateOutcome::UnsupportedDimensions,
        surface.alive && !surface.degenerate() ==> r == RecreateOutcome::Recreated(
            spec_recreate(*sc, *surface),
        ),
{
    if !surface.alive {
        return RecreateOutcome::WindowGone;
    }
    if surface.width == 0 || surface.height == 0 {
        return RecreateOutcome::UnsupportedDimensions;
    }
    RecreateOutcome::Recreated(
        Swapchain {
            width: surface.width,
            height: surface.height,
            generation: sc.generation + 1,
            ..*sc
        },
    )
}

/// Recreating against unchanged dimensions is idempotent in everything but
/// the generation: image count, format, present mode and dimensions of the
/// new swapchain equal the old ones.
pub proof fn lemma_recreate_unchanged_dimensions(sc: Swapchain, surface: SurfaceState)
    requires
        surface.width == sc.width,
        surface.height == sc.height,
    ensures
        spec_recreate(sc, surface).image_count == sc.image_count,
        spec_recreate(sc, surface).format == sc.format,
        spec_recreate(sc, surface).present_mode == sc.present_mode,
        spec_recreate(sc, surface).width == sc.width,
        spec_recreate(sc, surface).height == sc.height,
{
}

/// Recreation never changes what was negotiated at creation: only the
/// dimensions and the generation can differ from the old swapchain.
pub proof fn lemma_recreate_preserves_negotiation(sc: Swapchain, surface: SurfaceState)
    requires
        sc.generation < u64::MAX,
    ensures
        spec_recreate(sc, surface).image_count == sc.image_count,
        spec_recreate(sc, surface).format == sc.format,
        spec_recreate(sc, surface).present_mode == sc.present_mode,
        spec_recreate(sc, surface).generation == sc.generation + 1,
{
}

} // verus!
