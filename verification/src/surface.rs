//! The two surfaces a frame is rendered into, and when they are recreated.
//!
//! The accumulation surface collects the samples of successive frames; the display
//! surface is what the presentation layer shows. Both always have the size of the
//! viewport they were last made for. A surface is never resized in place: a new
//! one with the same descriptor takes its place, and the binding sets that named
//! the old one are built again.

use vstd::prelude::*;

verus! {

/// A size in pixels.
#[derive(Clone, Copy, Debug, PartialEq, Eq, Structural)]
pub struct Extent {
    pub width: u32,
    pub height: u32,
}

impl Extent {
    /// Whether the size holds no pixel: nothing can be drawn into it.
    pub open spec fn is_empty(self) -> bool {
        self.width == 0 || self.height == 0
    }

    /// Whether the size holds no pixel.
    pub fn has_no_area(&self) -> (empty: bool)
        ensures
            empty == self.is_empty(),
    {
        self.width == 0 || self.height == 0
    }

    /// Whether both sizes have the same width and height.
    pub fn same_as(&self, other: &Extent) -> (same: bool)
        ensures
            same == (*self == *other),
    {
        self.width == other.width && self.height == other.height
    }
}

/// Texel format of a surface.
#[derive(Clone, Copy, Debug, PartialEq, Eq, Structural)]
pub enum TextureFormat {
    /// Four 8-bit channels: what is presented.
    Rgba8Unorm,
    /// Four single-precision channels: what samples are summed in.
    Rgba32Float,
}

/// What a surface may be bound as.
#[derive(Clone, Copy, Debug, PartialEq, Eq, Structural)]
pub struct TextureUsage {
    /// Sampled by the presentation layer.
    pub texture_binding: bool,
    /// Read or written by a compute program.
    pub storage_binding: bool,
}

/// What stays of a surface when it is recreated at another size.
#[derive(Clone, Copy, Debug, PartialEq, Eq, Structural)]
pub struct SurfaceDescriptor {
    pub format: TextureFormat,
    pub usage: TextureUsage,
    pub mip_level_count: u32,
    pub sample_count: u32,
}

/// Whether a surface was made for a viewport yet.
#[derive(Clone, Copy, Debug, PartialEq, Eq, Structural)]
pub enum SurfaceState {
    /// The placeholder of one pixel that exists from startup.
    Unsized,
    /// Made for a viewport of this size.
    Sized(Extent),
}

/// What a request for a viewport size did to a surface.
#[derive(Clone, Copy, Debug, PartialEq, Eq, Structural)]
pub enum ResizeOutcome {
    /// The viewport holds no pixel. Nothing is drawn this frame and the surface
    /// stays.
    NoDrawableArea,
    /// The surface has the size of the viewport already.
    Unchanged,
    /// The surface was recreated at the size of the viewport.
    Recreated,
}

impl SurfaceState {
    /// A sized surface holds at least one pixel.
    pub open spec fn wf(self) -> bool {
        self matches SurfaceState::Sized(extent) ==> !extent.is_empty()
    }

    /// The recorded size: that of the placeholder until the surface is sized.
    pub open spec fn extent(self) -> Extent {
        match self {
            SurfaceState::Unsized => Extent { width: 1, height: 1 },
            SurfaceState::Sized(extent) => extent,
        }
    }

    /// What a request for `viewport` does.
    pub open spec fn outcome_for(self, viewport: Extent) -> ResizeOutcome {
        if viewport.is_empty() {
            ResizeOutcome::NoDrawableArea
        } else if viewport == self.extent() {
            ResizeOutcome::Unchanged
        } else {
            ResizeOutcome::Recreated
        }
    }

    /// The state after a request for `viewport`.
    pub open spec fn requested(self, viewport: Extent) -> SurfaceState {
        if self.outcome_for(viewport) is Recreated {
            SurfaceState::Sized(viewport)
        } else {
            self
        }
    }

    /// The recorded size.
    pub fn dimensions(&self) -> (extent: Extent)
        ensures
            extent == self.extent(),
    {
        match self {
            SurfaceState::Unsized => Extent { width: 1, height: 1 },
            SurfaceState::Sized(extent) => *extent,
        }
    }

    /// Compares the viewport with the recorded size and moves to `Sized(viewport)`
    /// where they differ and the viewport holds a pixel.
    pub fn request(&mut self, viewport: Extent) -> (outcome: ResizeOutcome)
        ensures
            outcome == old(self).outcome_for(viewport),
            *final(self) == old(self).requested(viewport),
            old(self).wf() ==> final(self).wf(),
            !viewport.is_empty() ==> final(self).extent() == viewport,
    {
        if viewport.has_no_area() {
            ResizeOutcome::NoDrawableArea
        } else if viewport.same_as(&self.dimensions()) {
            ResizeOutcome::Unchanged
        } else {
            *self = SurfaceState::Sized(viewport);
            ResizeOutcome::Recreated
        }
    }
}

/// One surface: what it is made with, and what it was last made for.
#[derive(Clone, Copy, Debug, PartialEq, Eq, Structural)]
pub struct Surface {
    pub descriptor: SurfaceDescriptor,
    pub state: SurfaceState,
}

/// The accumulation surface and the display surface.
#[derive(Clone, Copy, Debug, PartialEq, Eq, Structural)]
pub struct SurfaceManager {
    pub accumulation: Surface,
    pub display: Surface,
}

impl SurfaceManager {
    /// Both surfaces are in the same, well-formed state.
    pub open spec fn wf(self) -> bool {
        &&& self.accumulation.state.wf()
        &&& self.display.state == self.accumulation.state
    }

    /// The surfaces at startup: two placeholders. The accumulation surface is a
    /// single-precision storage image; the display surface has 8-bit channels and
    /// can also be sampled.
    pub open spec fn initial() -> SurfaceManager {
        SurfaceManager {
            accumulation: Surface {
                descriptor: SurfaceDescriptor {
                    format: TextureFormat::Rgba32Float,
                    usage: TextureUsage { texture_binding: false, storage_binding: true },
                    mip_level_count: 1,
                    sample_count: 1,
                },
                state: SurfaceState::Unsized,
            },
            display: Surface {
                descriptor: SurfaceDescriptor {
                    format: TextureFormat::Rgba8Unorm,
                    usage: TextureUsage { texture_binding: true, storage_binding: true },
                    mip_level_count: 1,
                    sample_count: 1,
                },
                state: SurfaceState::Unsized,
            },
        }
    }

    /// The size that both surfaces have.
    pub open spec fn extent(self) -> Extent {
        self.accumulation.state.extent()
    }

    /// What a request for `viewport` does to the pair.
    pub open spec fn outcome_for(self, viewport: Extent) -> ResizeOutcome {
        self.accumulation.state.outcome_for(viewport)
    }

    /// The pair after a request for `viewport`: both surfaces recreated at that
    /// size, each with its own descriptor, or both as before.
    pub open spec fn resized(self, viewport: Extent) -> SurfaceManager {
        SurfaceManager {
            accumulation: Surface {
                state: self.accumulation.state.requested(viewport),
                ..self.accumulation
            },
            display: Surface { state: self.display.state.requested(viewport), ..self.display },
        }
    }

    /// The surfaces at startup.
    pub fn new() -> (surfaces: SurfaceManager)
        ensures
            surfaces == SurfaceManager::initial(),
            surfaces.wf(),
    {
        SurfaceManager {
            accumulation: Surface {
                descriptor: SurfaceDescriptor {
                    format: TextureFormat::Rgba32Float,
                    usage: TextureUsage { texture_binding: false, storage_binding: true },
                    mip_level_count: 1,
                    sample_count: 1,
                },
                state: SurfaceState::Unsized,
            },
            display: Surface {
                descriptor: SurfaceDescriptor {
                    format: TextureFormat::Rgba8Unorm,
                    usage: TextureUsage { texture_binding: true, storage_binding: true },
                    mip_level_count: 1,
                    sample_count: 1,
                },
                state: SurfaceState::Unsized,
            },
        }
    }

    /// The size that both surfaces have.
    pub fn dimensions(&self) -> (extent: Extent)
        ensures
            extent == self.extent(),
    {
        self.accumulation.state.dimensions()
    }

    /// Brings both surfaces to the size of the viewport. A viewport without area
    /// changes nothing; so does one of the recorded size. Otherwise both surfaces
    /// are recreated at the new size with the descriptors they had.
    pub fn resize(&mut self, viewport: Extent) -> (outcome: ResizeOutcome)
        requires
            old(self).wf(),
        ensures
            final(self).wf(),
            outcome == old(self).outcome_for(viewport),
            *final(self) == old(self).resized(viewport),
            final(self).accumulation.descriptor == old(self).accumulation.descriptor,
            final(self).display.descriptor == old(self).display.descriptor,
            !viewport.is_empty() ==> final(self).extent() == viewport,
            !(outcome is Recreated) ==> *final(self) == *old(self),
    {
        let outcome = self.accumulation.state.request(viewport);
        let _ = self.display.state.request(viewport);
        outcome
    }
}

} // verus!
