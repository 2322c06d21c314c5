//! Grid geometry, coordinate transforms and terrain classification.
//!
//! Grid cells are addressed two ways: as a `GridCoords` pair (column, row
//! counted from the top-left, as level editors store them) or as a
//! `TileOffset`, the row-major flattened index into the tile-id table.
//! World y grows upward, so the row axis is inverted by the transforms.

use crate::geometry::WorldPos;
use crate::text::str_eq;
use vstd::arithmetic::div_mod::lemma_fundamental_div_mod_converse;
use vstd::prelude::*;

verus! {

/// Opaque integer identifying a tile's type as defined by level data.
pub type TileId = i32;

/// Row-major flattened index of a grid cell; row 0 is the top grid row.
pub type TileOffset = usize;

/// Upper bound on a cell edge length, in sub-units.
pub const MAX_CELL_SIZE: i64 = 0x10_0000;

/// Upper bound on the grid dimensions, in cells.
pub const MAX_GRID_DIM: usize = 0x8000;

/// Geometry of a level's tile grid: square cell edge length (in fixed-point
/// sub-units) and the grid dimensions in cells.
#[derive(Debug, Clone, Copy, PartialEq, Eq, Structural)]
pub struct GridSizing {
    pub cell_size: i64,
    pub grid_height: usize,
    pub grid_width: usize,
}

/// A cell address as (column, row), row 0 at the top of the grid.
#[derive(Debug, Clone, Copy, PartialEq, Eq, Structural)]
pub struct GridCoords {
    pub col: usize,
    pub row: usize,
}

impl GridSizing {
    /// The geometry the library's arithmetic covers: a positive, bounded
    /// cell size and bounded dimensions.
    pub open spec fn well_formed(self) -> bool {
        &&& 0 < self.cell_size <= MAX_CELL_SIZE
        &&& self.grid_width <= MAX_GRID_DIM
        &&& self.grid_height <= MAX_GRID_DIM
    }

    /// Number of cells in the grid.
    pub open spec fn cell_count(self) -> int {
        self.grid_width * self.grid_height
    }

    pub open spec fn spec_world_width(self) -> int {
        self.grid_width * self.cell_size
    }

    pub open spec fn spec_world_height(self) -> int {
        self.grid_height * self.cell_size
    }

    /// World width = gridWidth × cellSize.
    pub fn world_width(&self) -> (r: i64)
        requires
            self.well_formed(),
        ensures
            r == self.spec_world_width(),
            0 <= r <= MAX_GRID_DIM as i64 * MAX_CELL_SIZE,
    {
        proof {
            assert(0 <= self.grid_width * self.cell_size <= MAX_GRID_DIM * MAX_CELL_SIZE)
                by (nonlinear_arith)
                requires
                    0 <= self.grid_width <= MAX_GRID_DIM,
                    0 < self.cell_size <= MAX_CELL_SIZE,
            ;
        }
        (self.grid_width as i64) * self.cell_size
    }

    /// World height = gridHeight × cellSize.
    pub fn world_height(&self) -> (r: i64)
        requires
            self.well_formed(),
        ensures
            r == self.spec_world_height(),
            0 <= r <= MAX_GRID_DIM as i64 * MAX_CELL_SIZE,
    {
        proof {
            assert(0 <= self.grid_height * self.cell_size <= MAX_GRID_DIM * MAX_CELL_SIZE)
                by (nonlinear_arith)
                requires
                    0 <= self.grid_height <= MAX_GRID_DIM,
                    0 < self.cell_size <= MAX_CELL_SIZE,
            ;
        }
        (self.grid_height as i64) * self.cell_size
    }
}

impl Default for GridSizing {
    /// An empty grid; not well formed until real level data replaces it.
    fn default() -> (r: GridSizing)
        ensures
            r.cell_size == 0,
            r.grid_height == 0,
            r.grid_width == 0,
    {
        GridSizing { cell_size: 0, grid_height: 0, grid_width: 0 }
    }
}

pub open spec fn clamp_low_zero(v: int) -> int {
    if v < 0 {
        0
    } else {
        v
    }
}

/// Column index for a world x coordinate: clamp to ≥ 0, divide by the cell
/// size rounding up to a 1-based column count, clamp to the grid width,
/// then subtract 1 saturating at 0. A boundary value x = k·cellSize thus
/// belongs to column k − 1.
pub open spec fn spec_col_index(x: int, sizing: GridSizing) -> int {
    let count = (clamp_low_zero(x) + sizing.cell_size - 1) / (sizing.cell_size as int);
    let capped = if count > sizing.grid_width { sizing.grid_width as int } else { count };
    if capped <= 0 {
        0
    } else {
        capped - 1
    }
}

/// Base offset of the row containing a world y coordinate: clamp to ≥ 0,
/// divide by the cell size rounding down to a row-from-bottom count, invert
/// against the grid height saturating at 0, subtract 1 saturating at 0, and
/// multiply by the grid width.
pub open spec fn spec_row_base(y: int, sizing: GridSizing) -> int {
    let from_bottom = clamp_low_zero(y) / (sizing.cell_size as int);
    let from_top = if sizing.grid_height - from_bottom < 0 {
        0
    } else {
        sizing.grid_height - from_bottom
    };
    let row = if from_top <= 0 {
        0
    } else {
        from_top - 1
    };
    row * sizing.grid_width
}

/// The flattened cell index a world position falls in, with out-of-grid
/// positions clamped to the nearest valid cell.
pub open spec fn spec_tile_offset(pos: WorldPos, sizing: GridSizing) -> int {
    spec_col_index(pos.x as int, sizing) + spec_row_base(pos.y as int, sizing)
}

/// Maps a world position to the offset of the cell it lies in.
///
/// Positions on a vertical cell boundary belong to the cell on the left
/// (x is rounded up to a column count); positions on a horizontal cell
/// boundary belong to the cell above (y is rounded down to a row count).
/// Positions outside the grid are clamped to the nearest cell.
pub fn transform_to_tile_offset(pos: &WorldPos, sizing: &GridSizing) -> (offset: TileOffset)
    requires
        sizing.well_formed(),
        pos.in_coord_range(),
    ensures
        offset == spec_tile_offset(*pos, *sizing),
        sizing.grid_width > 0 && sizing.grid_height > 0 ==> offset < sizing.cell_count(),
{
    let cell = sizing.cell_size as u64;
    let w = sizing.grid_width as u64;
    let h = sizing.grid_height as u64;

    let x = (if pos.x < 0 { 0 } else { pos.x }) as u64;
    let count = (x + cell - 1) / cell;
    proof {
        assert(0 <= (x + cell - 1) as int / cell as int <= (x + cell - 1) as int)
            by (nonlinear_arith)
            requires
                0 <= x,
                0 < cell,
        ;
    }
    let capped = if count > w { w } else { count };
    let col = if capped == 0 { 0 } else { capped - 1 };

    let y = (if pos.y < 0 { 0 } else { pos.y }) as u64;
    let from_bottom = y / cell;
    proof {
        assert(0 <= y as int / cell as int <= y as int) by (nonlinear_arith)
            requires
                0 <= y,
                0 < cell,
        ;
    }
    let from_top = if h < from_bottom { 0 } else { h - from_bottom };
    let row = if from_top == 0 { 0 } else { from_top - 1 };
    proof {
        assert(row * w <= (MAX_GRID_DIM as int) * (MAX_GRID_DIM as int)) by (nonlinear_arith)
            requires
                0 <= row <= MAX_GRID_DIM as int,
                0 <= w <= MAX_GRID_DIM as int,
        ;
    }
    let base = row * w;
    proof {
        if sizing.grid_width > 0 && sizing.grid_height > 0 {
            assert(row * w + w <= h * w) by (nonlinear_arith)
                requires
                    0 <= row,
                    row < h,
                    0 <= w,
            ;
            assert(h * w == sizing.cell_count()) by (nonlinear_arith)
                requires
                    h == sizing.grid_height as int,
                    w == sizing.grid_width as int,
            ;
        }
        assert(row * w <= (MAX_GRID_DIM - 1) * (MAX_GRID_DIM as int)) by (nonlinear_arith)
            requires
                0 <= row <= MAX_GRID_DIM - 1,
                0 <= w <= MAX_GRID_DIM as int,
        ;
        assert(col as int == spec_col_index(pos.x as int, *sizing));
        assert(base as int == spec_row_base(pos.y as int, *sizing));
        assert(col + base < 0x1_0000_0000);
    }
    (col + base) as usize
}

/// World position of the centre of a grid cell, with the row axis inverted
/// so that row 0 sits at the top of the world.
pub open spec fn spec_grid_to_world(c: GridCoords, sizing: GridSizing) -> WorldPos {
    WorldPos {
        x: (c.col * sizing.cell_size + sizing.cell_size / 2) as i64,
        y: ((sizing.grid_height - 1 - c.row) * sizing.cell_size + sizing.cell_size / 2) as i64,
    }
}

/// Maps a cell address to the world position of the cell's centre.
pub fn grid_coords_to_transform(coords: GridCoords, sizing: &GridSizing) -> (r: WorldPos)
    requires
        sizing.well_formed(),
        coords.col < sizing.grid_width,
        coords.row < sizing.grid_height,
    ensures
        r == spec_grid_to_world(coords, *sizing),
        r.in_coord_range(),
{
    let cell = sizing.cell_size;
    let half = cell / 2;
    proof {
        assert(0 <= coords.col * cell <= MAX_GRID_DIM as int * MAX_CELL_SIZE as int)
            by (nonlinear_arith)
            requires
                0 <= coords.col <= MAX_GRID_DIM as int,
                0 < cell <= MAX_CELL_SIZE as int,
        ;
        assert(0 <= (sizing.grid_height - 1 - coords.row) * cell
            <= MAX_GRID_DIM as int * MAX_CELL_SIZE as int) by (nonlinear_arith)
            requires
                0 <= sizing.grid_height - 1 - coords.row <= MAX_GRID_DIM as int,
                0 < cell <= MAX_CELL_SIZE as int,
        ;
    }
    let x = (coords.col as i64) * cell + half;
    let y = ((sizing.grid_height as i64) - 1 - (coords.row as i64)) * cell + half;
    WorldPos { x, y }
}

/// Round-trip law: mapping a cell to its centre world position and back
/// recovers the cell's flattened offset, for every in-bounds cell.
///
/// A cell size of at least 2 sub-units is needed: with a single sub-unit
/// per cell there is no interior position that both rounding rules (x up,
/// y down) agree on.
pub proof fn lemma_offset_round_trip(c: GridCoords, sizing: GridSizing)
    requires
        sizing.well_formed(),
        sizing.cell_size >= 2,
        c.col < sizing.grid_width,
        c.row < sizing.grid_height,
    ensures
        spec_tile_offset(spec_grid_to_world(c, sizing), sizing)
            == c.row * sizing.grid_width + c.col,
{
    let cell = sizing.cell_size as int;
    let half = cell / 2;
    let col = c.col as int;
    let row = c.row as int;
    let w = sizing.grid_width as int;
    let h = sizing.grid_height as int;

    assert(1 <= half < cell) by (nonlinear_arith)
        requires
            half == cell / 2,
            2 <= cell,
    ;

    let x = col * cell + half;
    let y = (h - 1 - row) * cell + half;
    assert(0 <= col * cell <= MAX_GRID_DIM as int * MAX_CELL_SIZE as int) by (nonlinear_arith)
        requires
            0 <= col <= MAX_GRID_DIM as int,
            0 < cell <= MAX_CELL_SIZE as int,
    ;
    assert(0 <= (h - 1 - row) * cell <= MAX_GRID_DIM as int * MAX_CELL_SIZE as int)
        by (nonlinear_arith)
        requires
            0 <= h - 1 - row <= MAX_GRID_DIM as int,
            0 < cell <= MAX_CELL_SIZE as int,
    ;
    let pos = spec_grid_to_world(c, sizing);
    assert(pos.x == x);
    assert(pos.y == y);

    // Column: x + cell - 1 = (col + 1) * cell + (half - 1) with 0 <= half - 1 < cell.
    assert(x + cell - 1 == (col + 1) * cell + (half - 1)) by (nonlinear_arith)
        requires
            x == col * cell + half,
    ;
    lemma_fundamental_div_mod_converse(x + cell - 1, cell, col + 1, half - 1);
    assert((x + cell - 1) / cell == col + 1);

    // Row: y = (h - 1 - row) * cell + half with 0 <= half < cell.
    lemma_fundamental_div_mod_converse(y, cell, h - 1 - row, half);
    assert(y / cell == h - 1 - row);

    assert(spec_col_index(x, sizing) == col);
    assert(spec_row_base(y, sizing) == row * w);
}

/// Terrain category a tile id may or may not carry. A single tile can be
/// in several categories at once.
#[derive(Debug, Hash, Eq, PartialEq, Clone, Copy, Structural)]
pub enum TileType {
    Walkable,
    Swimmable,
    Ledge,
    Wall,
}

/// The terrain category a name denotes, if any.
pub open spec fn spec_tile_type_of(s: Seq<char>) -> Option<TileType> {
    if s == "Walkable"@ {
        Some(TileType::Walkable)
    } else if s == "Swimmable"@ {
        Some(TileType::Swimmable)
    } else if s == "Ledge"@ {
        Some(TileType::Ledge)
    } else if s == "Wall"@ {
        Some(TileType::Wall)
    } else {
        None
    }
}

impl TileType {
    /// Parses a terrain-category name as level metadata spells it.
    pub fn from_str(s: &str) -> (r: Result<TileType, ()>)
        ensures
            r == match spec_tile_type_of(s@) {
                Some(t) => Result::<TileType, ()>::Ok(t),
                None => Result::<TileType, ()>::Err(()),
            },
    {
        if str_eq(s, "Walkable") {
            Ok(TileType::Walkable)
        } else if str_eq(s, "Swimmable") {
            Ok(TileType::Swimmable)
        } else if str_eq(s, "Ledge") {
            Ok(TileType::Ledge)
        } else if str_eq(s, "Wall") {
            Ok(TileType::Wall)
        } else {
            Err(())
        }
    }
}

/// Which tile ids belong to each terrain category. A tile id may appear
/// under several categories at once; an id under no category blocks entry.
#[derive(Debug, PartialEq, Eq)]
pub struct Membership {
    pub walkable: Vec<TileId>,
    pub swimmable: Vec<TileId>,
    pub ledge: Vec<TileId>,
    pub wall: Vec<TileId>,
}

impl Membership {
    /// The ids recorded for one category.
    pub open spec fn ids_of(self, t: TileType) -> Seq<TileId> {
        match t {
            TileType::Walkable => self.walkable@,
            TileType::Swimmable => self.swimmable@,
            TileType::Ledge => self.ledge@,
            TileType::Wall => self.wall@,
        }
    }

    /// Whether a tile id counts as the given category.
    pub open spec fn spec_has(self, t: TileType, id: TileId) -> bool {
        self.ids_of(t).contains(id)
    }

    /// A table with no ids under any category.
    pub fn empty() -> (r: Membership)
        ensures
            forall|t: TileType| (#[trigger] r.ids_of(t)).len() == 0,
    {
        Membership { walkable: Vec::new(), swimmable: Vec::new(), ledge: Vec::new(), wall: Vec::new() }
    }

    /// Whether a tile id counts as the given category.
    pub fn has(&self, t: TileType, id: TileId) -> (r: bool)
        ensures
            r == self.spec_has(t, id),
    {
        match t {
            TileType::Walkable => ids_contain(&self.walkable, id),
            TileType::Swimmable => ids_contain(&self.swimmable, id),
            TileType::Ledge => ids_contain(&self.ledge, id),
            TileType::Wall => ids_contain(&self.wall, id),
        }
    }
}

/// Whether a list of tile ids holds the given id.
fn ids_contain(v: &Vec<TileId>, id: TileId) -> (r: bool)
    ensures
        r == v@.contains(id),
{
    let mut i: usize = 0;
    while i < v.len()
        invariant
            0 <= i <= v@.len(),
            forall|j: int| 0 <= j < i ==> v@[j] != id,
        decreases v@.len() - i,
    {
        if v[i] == id {
            return true;
        }
        i += 1;
    }
    false
}

/// A copy of a list of tile ids.
fn copy_ids(v: &Vec<TileId>) -> (r: Vec<TileId>)
    ensures
        r@ == v@,
{
    let mut out: Vec<TileId> = Vec::new();
    let mut i: usize = 0;
    while i < v.len()
        invariant
            0 <= i <= v@.len(),
            out@ =~= v@.take(i as int),
        decreases v@.len() - i,
    {
        out.push(v[i]);
        i += 1;
    }
    proof {
        assert(v@.take(v@.len() as int) =~= v@);
    }
    out
}

/// The set of categories a single cell carries.
#[derive(Debug, Clone, Copy, PartialEq, Eq, Structural)]
pub struct CategorySet {
    pub walkable: bool,
    pub swimmable: bool,
    pub ledge: bool,
    pub wall: bool,
}

impl CategorySet {
    pub open spec fn spec_contains(self, t: TileType) -> bool {
        match t {
            TileType::Walkable => self.walkable,
            TileType::Swimmable => self.swimmable,
            TileType::Ledge => self.ledge,
            TileType::Wall => self.wall,
        }
    }

    /// A cell may be entered exactly when it is walkable or swimmable.
    pub open spec fn spec_permits_entry(self) -> bool {
        self.walkable || self.swimmable
    }

    pub fn contains(&self, t: TileType) -> (r: bool)
        ensures
            r == self.spec_contains(t),
    {
        match t {
            TileType::Walkable => self.walkable,
            TileType::Swimmable => self.swimmable,
            TileType::Ledge => self.ledge,
            TileType::Wall => self.wall,
        }
    }

    /// Whether movement into a cell with these categories is permitted.
    pub fn permits_entry(&self) -> (r: bool)
        ensures
            r == self.spec_permits_entry(),
    {
        self.walkable || self.swimmable
    }
}

/// Why a classification table could not be built from level metadata.
#[derive(Debug, Clone, Copy, PartialEq, Eq, Structural)]
pub enum TileDataError {
    /// A category name in the tileset metadata is not a terrain category.
    UnknownTileType,
    /// The tile-id table does not hold exactly one id per grid cell.
    SizeMismatch,
}

/// The per-level classification table: grid geometry, the raw tile id of
/// every cell (row-major, row 0 on top), and the category membership sets.
#[derive(Debug, PartialEq, Eq)]
pub struct TileData {
    pub sizing: GridSizing,
    pub tile_ids: Vec<TileId>,
    pub membership: Membership,
}

impl TileData {
    /// A classification exists; until then movement must be suppressed.
    pub open spec fn classification_available(self) -> bool {
        self.tile_ids@.len() > 0
    }

    /// The table is well formed: valid geometry and one tile id per cell.
    pub open spec fn wf(self) -> bool {
        &&& self.sizing.well_formed()
        &&& self.tile_ids@.len() == self.sizing.cell_count()
    }

    /// The categories of the cell at a flattened offset.
    pub open spec fn spec_categories_of(self, off: int) -> CategorySet {
        let id = self.tile_ids@[off];
        CategorySet {
            walkable: self.membership.spec_has(TileType::Walkable, id),
            swimmable: self.membership.spec_has(TileType::Swimmable, id),
            ledge: self.membership.spec_has(TileType::Ledge, id),
            wall: self.membership.spec_has(TileType::Wall, id),
        }
    }

    /// Looks up every category the cell at `offset` belongs to, or `None`
    /// while no classification is available or the offset is out of range.
    pub fn categories_of(&self, offset: TileOffset) -> (r: Option<CategorySet>)
        ensures
            r == if self.classification_available() && offset < self.tile_ids@.len() {
                Some(self.spec_categories_of(offset as int))
            } else {
                None::<CategorySet>
            },
    {
        if self.tile_ids.len() == 0 || offset >= self.tile_ids.len() {
            return None;
        }
        let id = self.tile_ids[offset];
        Some(
            CategorySet {
                walkable: self.membership.has(TileType::Walkable, id),
                swimmable: self.membership.has(TileType::Swimmable, id),
                ledge: self.membership.has(TileType::Ledge, id),
                wall: self.membership.has(TileType::Wall, id),
            },
        )
    }
}

impl Default for TileData {
    /// The state before any level was classified: no tile ids, no
    /// membership, a zero grid.
    fn default() -> (r: TileData)
        ensures
            !r.classification_available(),
            r.sizing.cell_size == 0,
            r.sizing.grid_width == 0,
            r.sizing.grid_height == 0,
            forall|t: TileType| (#[trigger] r.membership.ids_of(t)).len() == 0,
    {
        TileData {
            sizing: GridSizing { cell_size: 0, grid_height: 0, grid_width: 0 },
            tile_ids: Vec::new(),
            membership: Membership::empty(),
        }
    }
}

/// View of a tag list: each (category name, tile ids) pair as sequences.
pub open spec fn spec_tag_views(tags: Seq<(String, Vec<TileId>)>) -> Seq<(Seq<char>, Seq<TileId>)> {
    tags.map_values(|p: (String, Vec<TileId>)| (p.0@, p.1@))
}

/// Every tag names a known terrain category.
pub open spec fn spec_tags_valid(tags: Seq<(Seq<char>, Seq<TileId>)>) -> bool {
    forall|i: int| 0 <= i < tags.len() ==> (#[trigger] spec_tile_type_of(tags[i].0)) is Some
}

/// The ids a tag list assigns to one category: the ids of the latest tag
/// naming that category, or none if no tag names it.
pub open spec fn spec_category_ids(tags: Seq<(Seq<char>, Seq<TileId>)>, t: TileType) -> Seq<TileId>
    decreases tags.len(),
{
    if tags.len() == 0 {
        Seq::empty()
    } else if spec_tile_type_of(tags.last().0) == Some(t) {
        tags.last().1
    } else {
        spec_category_ids(tags.drop_last(), t)
    }
}

/// Builds the classification table for a level from its raw per-cell tile
/// ids and the tileset's (category name, tile ids) tags.
///
/// Fails on malformed metadata: a tile-id table whose length is not one id
/// per grid cell, or a tag naming no terrain category (the size check comes
/// first). When several tags name the same category, the latest one wins.
pub fn build_tile_data(
    sizing: GridSizing,
    tile_ids: Vec<TileId>,
    tags: &Vec<(String, Vec<TileId>)>,
) -> (r: Result<TileData, TileDataError>)
    requires
        sizing.well_formed(),
    ensures
        r is Ok <==> (tile_ids@.len() == sizing.cell_count() && spec_tags_valid(
            spec_tag_views(tags@),
        )),
        tile_ids@.len() != sizing.cell_count() ==> r == Result::<TileData, TileDataError>::Err(
            TileDataError::SizeMismatch,
        ),
        tile_ids@.len() == sizing.cell_count() && !spec_tags_valid(spec_tag_views(tags@)) ==> r
            == Result::<TileData, TileDataError>::Err(TileDataError::UnknownTileType),
        r is Ok ==> {
            let d = r->Ok_0;
            &&& d.sizing == sizing
            &&& d.tile_ids@ == tile_ids@
            &&& forall|t: TileType| #[trigger] d.membership.ids_of(t) == spec_category_ids(
                spec_tag_views(tags@),
                t,
            )
            &&& d.wf()
        },
{
    proof {
        assert(sizing.grid_width * sizing.grid_height <= MAX_GRID_DIM * MAX_GRID_DIM)
            by (nonlinear_arith)
            requires
                0 <= sizing.grid_width <= MAX_GRID_DIM,
                0 <= sizing.grid_height <= MAX_GRID_DIM,
        ;
    }
    let expected = sizing.grid_width * sizing.grid_height;
    if tile_ids.len() != expected {
        return Err(TileDataError::SizeMismatch);
    }
    let ghost views = spec_tag_views(tags@);
    let mut membership = Membership::empty();
    let mut i: usize = 0;
    while i < tags.len()
        invariant
            0 <= i <= tags@.len(),
            tile_ids@.len() == sizing.cell_count(),
            views == spec_tag_views(tags@),
            views.len() == tags@.len(),
            forall|j: int| 0 <= j < tags@.len() ==> #[trigger] views[j] == (tags@[j].0@, tags@[j].1@),
            spec_tags_valid(views.take(i as int)),
            forall|t: TileType| #[trigger] membership.ids_of(t) == spec_category_ids(
                views.take(i as int),
                t,
            ),
        decreases tags@.len() - i,
    {
        let name = &tags[i].0;
        let parsed = TileType::from_str(name.as_str());
        match parsed {
            Ok(t) => {
                let ids = copy_ids(&tags[i].1);
                let ghost pre_membership = membership;
                match t {
                    TileType::Walkable => membership.walkable = ids,
                    TileType::Swimmable => membership.swimmable = ids,
                    TileType::Ledge => membership.ledge = ids,
                    TileType::Wall => membership.wall = ids,
                }
                proof {
                    let pre = views.take(i as int);
                    let post = views.take(i as int + 1);
                    assert(post.drop_last() =~= pre);
                    assert(post.last() == views[i as int]);
                    assert(spec_tile_type_of(views[i as int].0) == Some(t));
                    assert forall|t2: TileType| #[trigger] membership.ids_of(t2)
                        == spec_category_ids(post, t2) by {
                        if spec_tile_type_of(post.last().0) == Some(t2) {
                            assert(t2 == t);
                            assert(membership.ids_of(t2) == ids@);
                        } else {
                            assert(spec_category_ids(post, t2) == spec_category_ids(pre, t2));
                            assert(pre_membership.ids_of(t2) == spec_category_ids(pre, t2));
                            assert(membership.ids_of(t2) == pre_membership.ids_of(t2));
                        }
                    }
                }
            },
            Err(_) => {
                proof {
                    assert(spec_tile_type_of(views[i as int].0) is None);
                    assert(!spec_tags_valid(views));
                }
                return Err(TileDataError::UnknownTileType);
            },
        }
        i += 1;
    }
    proof {
        assert(views.take(tags@.len() as int) =~= views);
    }
    Ok(TileData { sizing, tile_ids, membership })
}

/// Classification builds are deterministic: two builds from level data
/// whose tile ids and tags read the same yield tables that read the same.
/// Rebuilding from an unchanged level is therefore a no-op.
pub proof fn lemma_build_deterministic(
    sizing: GridSizing,
    ids1: Seq<TileId>,
    tags1: Seq<(Seq<char>, Seq<TileId>)>,
    ids2: Seq<TileId>,
    tags2: Seq<(Seq<char>, Seq<TileId>)>,
)
    requires
        ids1 == ids2,
        tags1 == tags2,
    ensures
        spec_tags_valid(tags1) == spec_tags_valid(tags2),
        forall|t: TileType| #[trigger] spec_category_ids(tags1, t) == spec_category_ids(tags2, t),
{
}

} // verus!
