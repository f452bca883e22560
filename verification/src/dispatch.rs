//! Dispatch grid of the compute passes.

use vstd::prelude::*;

verus! {

/// Threads along each of the two axes of one workgroup.
pub const WORKGROUP_SIZE: u32 = 16;

/// Number of workgroups dispatched along an axis of `dimension` pixels:
/// `dimension / WORKGROUP_SIZE`, rounded up.
pub open spec fn workgroups_for(dimension: int) -> int {
    (dimension + WORKGROUP_SIZE - 1) / (WORKGROUP_SIZE as int)
}

/// Index, along one axis, of the workgroup whose threads hold `pixel`.
pub open spec fn workgroup_of(pixel: int) -> int {
    pixel / (WORKGROUP_SIZE as int)
}

/// Whether the threads of `count` workgroups span `dimension` pixels along one axis.
pub open spec fn spans(count: int, dimension: int) -> bool {
    count * WORKGROUP_SIZE >= dimension
}

/// Workgroup counts of one dispatch. The grid is flat: `z` is always 1.
#[derive(Clone, Copy, Debug, PartialEq, Eq, Structural)]
pub struct DispatchGrid {
    pub x: u32,
    pub y: u32,
    pub z: u32,
}

impl DispatchGrid {
    /// The grid that covers a surface of `width` by `height` pixels.
    pub open spec fn covering(width: u32, height: u32) -> DispatchGrid {
        DispatchGrid {
            x: workgroups_for(width as int) as u32,
            y: workgroups_for(height as int) as u32,
            z: 1,
        }
    }

    /// Whether the workgroup that holds pixel `(px, py)` is part of the grid.
    pub open spec fn reaches(self, px: int, py: int) -> bool {
        &&& 0 <= workgroup_of(px) < self.x
        &&& 0 <= workgroup_of(py) < self.y
        &&& self.z >= 1
    }
}

/// `workgroups_for(dimension)` is the least count whose threads span `dimension`
/// pixels; it leaves fewer than `WORKGROUP_SIZE` threads without a pixel.
pub proof fn lemma_workgroups_for_is_ceiling(dimension: int)
    requires
        0 <= dimension,
    ensures
        spans(workgroups_for(dimension), dimension),
        forall|n: int| #[trigger] spans(n, dimension) ==> n >= workgroups_for(dimension),
        workgroups_for(dimension) * WORKGROUP_SIZE - dimension < WORKGROUP_SIZE,
        0 <= workgroups_for(dimension) <= dimension,
        dimension > 0 ==> workgroups_for(dimension) >= 1,
{
}

/// The grid for a viewport of at least one pixel has, along each axis, the least
/// number of workgroups whose threads span the viewport. The workgroup of every
/// pixel of the viewport is part of it, and along each axis fewer than
/// `WORKGROUP_SIZE` threads lie beyond the viewport.
pub proof fn lemma_grid_covers_viewport(width: u32, height: u32)
    requires
        width > 0,
        height > 0,
    ensures
        DispatchGrid::covering(width, height).x == workgroups_for(width as int),
        DispatchGrid::covering(width, height).y == workgroups_for(height as int),
        spans(DispatchGrid::covering(width, height).x as int, width as int),
        spans(DispatchGrid::covering(width, height).y as int, height as int),
        forall|n: int| #[trigger]
            spans(n, width as int) ==> n >= DispatchGrid::covering(width, height).x,
        forall|n: int| #[trigger]
            spans(n, height as int) ==> n >= DispatchGrid::covering(width, height).y,
        DispatchGrid::covering(width, height).x * WORKGROUP_SIZE - width < WORKGROUP_SIZE,
        DispatchGrid::covering(width, height).y * WORKGROUP_SIZE - height < WORKGROUP_SIZE,
        forall|px: int, py: int|
            0 <= px < width && 0 <= py < height ==> #[trigger] DispatchGrid::covering(
                width,
                height,
            ).reaches(px, py),
{
    lemma_workgroups_for_is_ceiling(width as int);
    lemma_workgroups_for_is_ceiling(height as int);
}

/// Workgroups needed along an axis of `dimension` pixels.
pub fn workgroup_count(dimension: u32) -> (count: u32)
    ensures
        count == workgroups_for(dimension as int),
{
    let full: u32 = dimension / WORKGROUP_SIZE;
    if dimension % WORKGROUP_SIZE == 0 {
        full
    } else {
        full + 1
    }
}

/// Dispatch grid for a surface of `width` by `height` pixels.
pub fn dispatch_grid(width: u32, height: u32) -> (grid: DispatchGrid)
    ensures
        grid == DispatchGrid::covering(width, height),
        grid.x == workgroups_for(width as int),
        grid.y == workgroups_for(height as int),
        grid.z == 1,
{
    proof {
        lemma_workgroups_for_is_ceiling(width as int);
        lemma_workgroups_for_is_ceiling(height as int);
    }
    DispatchGrid { x: workgroup_count(width), y: workgroup_count(height), z: 1 }
}

} // verus!
