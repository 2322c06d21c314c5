//! Camera tracking: keeps a viewport camera clamped inside the world
//! while following a target.

use crate::geometry::WorldPos;
use crate::tilemap::GridSizing;
use vstd::prelude::*;

verus! {

/// Upper bound on a viewport extent, in sub-units.
pub const MAX_VIEWPORT: i64 = 0x1_0000_0000;

/// Upper bound on a zoom factor's numerator and denominator.
pub const MAX_ZOOM: i64 = 0x1000;

/// Logical viewport extents, in the same fixed-point sub-units as world
/// positions.
#[derive(Debug, Clone, Copy, PartialEq, Eq, Structural)]
pub struct Viewport {
    pub width: i64,
    pub height: i64,
}

impl Viewport {
    pub open spec fn well_formed(self) -> bool {
        &&& 0 <= self.width <= MAX_VIEWPORT
        &&& 0 <= self.height <= MAX_VIEWPORT
    }
}

/// Zoom factor as an exact rational: the camera sees `num / den` of the
/// viewport's extent in world space.
#[derive(Debug, Clone, Copy, PartialEq, Eq, Structural)]
pub struct Zoom {
    pub num: i64,
    pub den: i64,
}

impl Zoom {
    pub open spec fn well_formed(self) -> bool {
        &&& 0 <= self.num <= MAX_ZOOM
        &&& 0 < self.den <= MAX_ZOOM
    }
}

/// `v` raised to at least `lo`, then lowered to at most `hi`, in that
/// order: when `lo > hi` the result is `hi`.
pub open spec fn spec_clamp(v: int, lo: int, hi: int) -> int {
    let raised = if v < lo {
        lo
    } else {
        v
    };
    if raised > hi {
        hi
    } else {
        raised
    }
}

/// Half of the zoom-scaled extent of one viewport axis.
pub open spec fn spec_half_extent(extent: int, zoom: Zoom) -> int {
    (extent * zoom.num / (zoom.den as int)) / 2
}

/// Smallest x the camera centre may take.
pub open spec fn spec_min_x(viewport: Viewport, zoom: Zoom) -> int {
    spec_half_extent(viewport.width as int, zoom)
}

/// Largest x the camera centre may take.
pub open spec fn spec_max_x(viewport: Viewport, sizing: GridSizing, zoom: Zoom) -> int {
    sizing.spec_world_width() - spec_half_extent(viewport.width as int, zoom)
}

/// Smallest y the camera centre may take.
pub open spec fn spec_min_y(viewport: Viewport, zoom: Zoom) -> int {
    spec_half_extent(viewport.height as int, zoom)
}

/// Largest y the camera centre may take.
pub open spec fn spec_max_y(viewport: Viewport, sizing: GridSizing, zoom: Zoom) -> int {
    sizing.spec_world_height() - spec_half_extent(viewport.height as int, zoom)
}

/// The half extent of a well-formed viewport axis under a well-formed zoom
/// is non-negative and comfortably within the coordinate range.
pub proof fn lemma_half_extent_bounds(extent: int, zoom: Zoom)
    requires
        0 <= extent <= MAX_VIEWPORT,
        zoom.well_formed(),
    ensures
        0 <= spec_half_extent(extent, zoom) <= MAX_VIEWPORT * MAX_ZOOM,
{
    assert(0 <= extent * zoom.num <= MAX_VIEWPORT * MAX_ZOOM) by (nonlinear_arith)
        requires
            0 <= extent <= MAX_VIEWPORT,
            0 <= zoom.num <= MAX_ZOOM,
    ;
    assert(0 <= (extent * zoom.num) / (zoom.den as int) <= extent * zoom.num) by (nonlinear_arith)
        requires
            0 <= extent * zoom.num,
            0 < zoom.den,
    ;
}

/// The world extents of a well-formed grid are non-negative and bounded.
pub proof fn lemma_world_extent_bounds(sizing: GridSizing)
    requires
        sizing.well_formed(),
    ensures
        0 <= sizing.spec_world_width() <= crate::tilemap::MAX_GRID_DIM as int
            * crate::tilemap::MAX_CELL_SIZE,
        0 <= sizing.spec_world_height() <= crate::tilemap::MAX_GRID_DIM as int
            * crate::tilemap::MAX_CELL_SIZE,
{
    assert(0 <= sizing.grid_width * sizing.cell_size <= crate::tilemap::MAX_GRID_DIM as int
        * crate::tilemap::MAX_CELL_SIZE) by (nonlinear_arith)
        requires
            0 <= sizing.grid_width <= crate::tilemap::MAX_GRID_DIM as int,
            0 < sizing.cell_size <= crate::tilemap::MAX_CELL_SIZE,
    ;
    assert(0 <= sizing.grid_height * sizing.cell_size <= crate::tilemap::MAX_GRID_DIM as int
        * crate::tilemap::MAX_CELL_SIZE) by (nonlinear_arith)
        requires
            0 <= sizing.grid_height <= crate::tilemap::MAX_GRID_DIM as int,
            0 < sizing.cell_size <= crate::tilemap::MAX_CELL_SIZE,
    ;
}

/// The camera position that follows `target`: the target's position,
/// clamped on each axis so the zoom-scaled viewport stays inside the
/// world. When the viewport exceeds the world on an axis (the lower bound
/// is above the upper one), the result is the upper bound.
pub open spec fn spec_follow(
    target: WorldPos,
    viewport: Viewport,
    sizing: GridSizing,
    zoom: Zoom,
) -> WorldPos {
    WorldPos {
        x: spec_clamp(
            target.x as int,
            spec_min_x(viewport, zoom),
            spec_max_x(viewport, sizing, zoom),
        ) as i64,
        y: spec_clamp(
            target.y as int,
            spec_min_y(viewport, zoom),
            spec_max_y(viewport, sizing, zoom),
        ) as i64,
    }
}

/// Computes the camera position that follows `target`, clamped inside the
/// world on both axes. The camera's depth axis is not this function's
/// business: callers keep their z untouched.
pub fn follow_player(
    target: &WorldPos,
    viewport: &Viewport,
    sizing: &GridSizing,
    zoom: &Zoom,
) -> (r: WorldPos)
    requires
        sizing.well_formed(),
        viewport.well_formed(),
        zoom.well_formed(),
        target.in_coord_range(),
    ensures
        r == spec_follow(*target, *viewport, *sizing, *zoom),
        r.in_coord_range(),
{
    proof {
        lemma_half_extent_bounds(viewport.width as int, *zoom);
        lemma_half_extent_bounds(viewport.height as int, *zoom);
        lemma_world_extent_bounds(*sizing);
    }
    let half_w = half_extent(viewport.width, zoom);
    let half_h = half_extent(viewport.height, zoom);

    let min_x = half_w;
    let max_x = sizing.world_width() - half_w;
    let min_y = half_h;
    let max_y = sizing.world_height() - half_h;

    let x = if target.x < min_x { min_x } else { target.x };
    let x = if x > max_x { max_x } else { x };
    let y = if target.y < min_y { min_y } else { target.y };
    let y = if y > max_y { max_y } else { y };

    WorldPos { x, y }
}

/// Half of the zoom-scaled extent of one viewport axis.
fn half_extent(extent: i64, zoom: &Zoom) -> (r: i64)
    requires
        0 <= extent <= MAX_VIEWPORT,
        zoom.well_formed(),
    ensures
        r == spec_half_extent(extent as int, *zoom),
        0 <= r <= MAX_VIEWPORT * MAX_ZOOM,
{
    proof {
        assert(0 <= extent * zoom.num <= MAX_VIEWPORT * MAX_ZOOM) by (nonlinear_arith)
            requires
                0 <= extent <= MAX_VIEWPORT,
                0 <= zoom.num <= MAX_ZOOM,
        ;
        assert(0 <= (extent * zoom.num) as int / zoom.den as int <= extent * zoom.num)
            by (nonlinear_arith)
            requires
                0 <= extent * zoom.num,
                0 < zoom.den,
        ;
    }
    let scaled = ((extent as u64) * (zoom.num as u64)) / (zoom.den as u64);
    (scaled / 2) as i64
}

/// Clamp idempotence: a target already inside the camera bounds on both
/// axes is returned unchanged.
pub proof fn lemma_follow_idempotent(
    target: WorldPos,
    viewport: Viewport,
    sizing: GridSizing,
    zoom: Zoom,
)
    requires
        sizing.well_formed(),
        viewport.well_formed(),
        zoom.well_formed(),
        target.in_coord_range(),
        spec_min_x(viewport, zoom) <= target.x as int <= spec_max_x(viewport, sizing, zoom),
        spec_min_y(viewport, zoom) <= target.y as int <= spec_max_y(viewport, sizing, zoom),
    ensures
        spec_follow(target, viewport, sizing, zoom) == target,
{
    lemma_half_extent_bounds(viewport.width as int, zoom);
    lemma_half_extent_bounds(viewport.height as int, zoom);
    lemma_world_extent_bounds(sizing);
}

/// Clamp boundedness: whenever the camera bounds are ordered on both axes,
/// the followed position lies inside them, whatever the target was.
pub proof fn lemma_follow_bounded(
    target: WorldPos,
    viewport: Viewport,
    sizing: GridSizing,
    zoom: Zoom,
)
    requires
        sizing.well_formed(),
        viewport.well_formed(),
        zoom.well_formed(),
        target.in_coord_range(),
        spec_min_x(viewport, zoom) <= spec_max_x(viewport, sizing, zoom),
        spec_min_y(viewport, zoom) <= spec_max_y(viewport, sizing, zoom),
    ensures
        spec_min_x(viewport, zoom) <= spec_follow(target, viewport, sizing, zoom).x as int
            <= spec_max_x(viewport, sizing, zoom),
        spec_min_y(viewport, zoom) <= spec_follow(target, viewport, sizing, zoom).y as int
            <= spec_max_y(viewport, sizing, zoom),
{
    lemma_half_extent_bounds(viewport.width as int, zoom);
    lemma_half_extent_bounds(viewport.height as int, zoom);
    lemma_world_extent_bounds(sizing);
}

} // verus!
