//! Player movement resolution and key pickup.
//!
//! Movement is resolved per tick: the requested direction flags are scaled
//! by the terrain-dependent speed, the proposed position is classified, and
//! the move either happens wholesale or is rejected wholesale.

use crate::geometry::{WorldPos, MAX_COORD};
use crate::key::KeyType;
use crate::tilemap::{spec_tile_offset, transform_to_tile_offset, TileData, TileType};
use vstd::prelude::*;

verus! {

/// Input actions a player can press; `Confirm` is consumed by inventory
/// logic, the rest are movement.
#[derive(Debug, Clone, Copy, PartialEq, Eq, Hash, Structural)]
pub enum Action {
    Confirm,
    Up,
    Down,
    Left,
    Right,
}

/// Marker for the level's player-start cell.
#[derive(Debug, Clone, Copy, PartialEq, Eq, Structural)]
pub struct PlayerStart;

/// Marker for the player entity.
#[derive(Debug, Clone, Copy, PartialEq, Eq, Structural)]
pub struct Player;

/// One tick's movement request: an independent flag per direction.
/// Opposite flags cancel; orthogonal flags combine diagonally.
#[derive(Debug, Clone, Copy, PartialEq, Eq, Structural)]
pub struct MoveIntent {
    pub up: bool,
    pub down: bool,
    pub left: bool,
    pub right: bool,
}

/// Speed on swimmable terrain, in base steps per tick.
pub const SWIM_SPEED_STEPS: i64 = 3;

/// Speed on other passable terrain, in base steps per tick. The ratio to
/// `SWIM_SPEED_STEPS` is 10 : 3, i.e. swimming moves at 0.75 of the unit
/// that walking covers at 2.5.
pub const WALK_SPEED_STEPS: i64 = 10;

/// Upper bound on the per-tick base step, in sub-units.
pub const MAX_BASE_STEP: i64 = 0x10_0000;

/// Coordinate bound that leaves room for one tick's largest move.
pub const MAX_PLAY_COORD: i64 = MAX_COORD - WALK_SPEED_STEPS * MAX_BASE_STEP;

impl WorldPos {
    /// The position and one full tick of movement around it stay within
    /// the library's coordinate range.
    pub open spec fn in_play_range(self) -> bool {
        -MAX_PLAY_COORD <= self.x <= MAX_PLAY_COORD && -MAX_PLAY_COORD <= self.y <= MAX_PLAY_COORD
    }
}

/// The per-tick speed at a position: `SWIM_SPEED_STEPS` base steps when the
/// cell there is swimmable, else `WALK_SPEED_STEPS` base steps.
pub open spec fn spec_speed(data: TileData, current: WorldPos, base_step: int) -> int {
    if data.spec_categories_of(spec_tile_offset(current, data.sizing)).swimmable {
        SWIM_SPEED_STEPS * base_step
    } else {
        WALK_SPEED_STEPS * base_step
    }
}

/// Net displacement along one axis for a pair of opposite direction flags.
pub open spec fn spec_axis_step(pos_dir: bool, neg_dir: bool, speed: int) -> int {
    (if pos_dir {
        speed
    } else {
        0
    }) - (if neg_dir {
        speed
    } else {
        0
    })
}

/// The position a movement intent proposes, before any permission check.
pub open spec fn spec_proposed(current: WorldPos, intent: MoveIntent, speed: int) -> WorldPos {
    WorldPos {
        x: (current.x + spec_axis_step(intent.right, intent.left, speed)) as i64,
        y: (current.y + spec_axis_step(intent.up, intent.down, speed)) as i64,
    }
}

/// The movement rule: no move while no classification is available; else
/// scale the intent by the speed of the current cell's terrain and accept
/// the proposed position exactly when its cell is walkable or swimmable,
/// rejecting the whole move otherwise.
pub open spec fn spec_player_movement(
    current: WorldPos,
    intent: MoveIntent,
    base_step: int,
    data: TileData,
) -> WorldPos {
    if !data.classification_available() {
        current
    } else {
        let proposed = spec_proposed(current, intent, spec_speed(data, current, base_step));
        if data.spec_categories_of(
            spec_tile_offset(proposed, data.sizing),
        ).spec_permits_entry() {
            proposed
        } else {
            current
        }
    }
}

/// Resolves one tick of player movement against the classification table.
///
/// While no classification is available the position is returned unchanged.
/// Otherwise the intent is scaled by the current cell's speed, and the
/// proposed position is taken exactly when the cell it lands in carries
/// `Walkable` or `Swimmable`; any other cell rejects the whole move, with
/// no sliding along a single free axis.
pub fn player_movement(
    current: &WorldPos,
    intent: &MoveIntent,
    base_step: i64,
    data: &TileData,
) -> (r: WorldPos)
    requires
        0 <= base_step <= MAX_BASE_STEP,
        current.in_play_range(),
        data.classification_available() ==> data.wf(),
    ensures
        r == spec_player_movement(*current, *intent, base_step as int, *data),
        r.in_coord_range(),
{
    if data.tile_ids.len() == 0 {
        return *current;
    }
    proof {
        assert(data.sizing.grid_width > 0 && data.sizing.grid_height > 0) by (nonlinear_arith)
            requires
                data.sizing.grid_width * data.sizing.grid_height > 0,
                data.sizing.grid_width >= 0,
                data.sizing.grid_height >= 0,
        ;
    }
    let offset = transform_to_tile_offset(current, &data.sizing);
    let tile_id = data.tile_ids[offset];
    let swim = data.membership.has(TileType::Swimmable, tile_id);
    let speed = if swim { SWIM_SPEED_STEPS * base_step } else { WALK_SPEED_STEPS * base_step };

    let mut x = current.x;
    let mut y = current.y;
    if intent.up {
        y = y + speed;
    }
    if intent.down {
        y = y - speed;
    }
    if intent.left {
        x = x - speed;
    }
    if intent.right {
        x = x + speed;
    }
    let proposed = WorldPos { x, y };

    let proposed_offset = transform_to_tile_offset(&proposed, &data.sizing);
    let proposed_id = data.tile_ids[proposed_offset];
    let permitted = data.membership.has(TileType::Walkable, proposed_id)
        || data.membership.has(TileType::Swimmable, proposed_id);
    if permitted {
        proposed
    } else {
        *current
    }
}

/// Movement rejection: a proposed cell that carries neither `Walkable` nor
/// `Swimmable` — a cell classified only as `Wall`, in particular — leaves
/// the position unchanged, whatever the requested intent was.
pub proof fn lemma_wall_blocks_movement(
    current: WorldPos,
    intent: MoveIntent,
    base_step: int,
    data: TileData,
)
    requires
        data.classification_available(),
        !data.spec_categories_of(
            spec_tile_offset(
                spec_proposed(current, intent, spec_speed(data, current, base_step)),
                data.sizing,
            ),
        ).walkable,
        !data.spec_categories_of(
            spec_tile_offset(
                spec_proposed(current, intent, spec_speed(data, current, base_step)),
                data.sizing,
            ),
        ).swimmable,
    ensures
        spec_player_movement(current, intent, base_step, data) == current,
{
}

/// Movement speed ratio: with the same intent and base step, a permitted
/// move starting on swimmable terrain covers exactly 3/10 — 0.75 against
/// 2.5 — of the displacement of a permitted move starting on terrain that
/// is not swimmable, on each axis and in squared magnitude.
pub proof fn lemma_swim_speed_ratio(
    current_swim: WorldPos,
    current_walk: WorldPos,
    intent: MoveIntent,
    base_step: int,
    data: TileData,
)
    requires
        0 <= base_step <= MAX_BASE_STEP,
        current_swim.in_play_range(),
        current_walk.in_play_range(),
        data.classification_available(),
        data.spec_categories_of(spec_tile_offset(current_swim, data.sizing)).swimmable,
        !data.spec_categories_of(spec_tile_offset(current_walk, data.sizing)).swimmable,
        data.spec_categories_of(
            spec_tile_offset(
                spec_proposed(current_swim, intent, spec_speed(data, current_swim, base_step)),
                data.sizing,
            ),
        ).spec_permits_entry(),
        data.spec_categories_of(
            spec_tile_offset(
                spec_proposed(current_walk, intent, spec_speed(data, current_walk, base_step)),
                data.sizing,
            ),
        ).spec_permits_entry(),
    ensures
        10 * (spec_player_movement(current_swim, intent, base_step, data).x - current_swim.x) == 3
            * (spec_player_movement(current_walk, intent, base_step, data).x - current_walk.x),
        10 * (spec_player_movement(current_swim, intent, base_step, data).y - current_swim.y) == 3
            * (spec_player_movement(current_walk, intent, base_step, data).y - current_walk.y),
        100 * squared_magnitude(
            spec_player_movement(current_swim, intent, base_step, data).x - current_swim.x,
            spec_player_movement(current_swim, intent, base_step, data).y - current_swim.y,
        ) == 9 * squared_magnitude(
            spec_player_movement(current_walk, intent, base_step, data).x - current_walk.x,
            spec_player_movement(current_walk, intent, base_step, data).y - current_walk.y,
        ),
{
    let ds_x = spec_player_movement(current_swim, intent, base_step, data).x - current_swim.x;
    let ds_y = spec_player_movement(current_swim, intent, base_step, data).y - current_swim.y;
    let dw_x = spec_player_movement(current_walk, intent, base_step, data).x - current_walk.x;
    let dw_y = spec_player_movement(current_walk, intent, base_step, data).y - current_walk.y;
    assert(100 * (ds_x * ds_x) == 9 * (dw_x * dw_x)) by (nonlinear_arith)
        requires
            10 * ds_x == 3 * dw_x,
    ;
    assert(100 * (ds_y * ds_y) == 9 * (dw_y * dw_y)) by (nonlinear_arith)
        requires
            10 * ds_y == 3 * dw_y,
    ;
}

/// The squared length of a displacement vector.
pub open spec fn squared_magnitude(dx: int, dy: int) -> int {
    dx * dx + dy * dy
}

/// The keys a player has collected so far.
#[derive(Debug)]
pub struct Inventory {
    keys: Vec<KeyType>,
}

impl Inventory {
    /// The set of collected keys.
    pub closed spec fn keys_set(self) -> Set<KeyType> {
        self.keys@.to_set()
    }

    pub fn new() -> (r: Inventory)
        ensures
            r.keys_set() == Set::<KeyType>::empty(),
    {
        let inv = Inventory { keys: Vec::new() };
        proof {
            assert(inv.keys@.to_set() =~= Set::<KeyType>::empty());
        }
        inv
    }

    /// Whether a key of this kind was collected.
    pub fn contains(&self, k: KeyType) -> (r: bool)
        ensures
            r == self.keys_set().contains(k),
    {
        let mut i: usize = 0;
        let mut found = false;
        while i < self.keys.len()
            invariant
                0 <= i <= self.keys@.len(),
                found == exists|j: int| 0 <= j < i && self.keys@[j] == k,
            decreases self.keys@.len() - i,
        {
            if key_type_eq(self.keys[i], k) {
                found = true;
            }
            i += 1;
        }
        proof {
            if found {
                assert(self.keys@.contains(k));
            }
            assert(found == self.keys@.contains(k));
        }
        found
    }

    /// Records a key of this kind as collected.
    pub fn insert(&mut self, k: KeyType)
        ensures
            final(self).keys_set() == old(self).keys_set().insert(k),
    {
        let ghost pre = self.keys@;
        if !self.contains(k) {
            self.keys.push(k);
            proof {
                broadcast use vstd::set::group_set_axioms;

                assert(self.keys@ =~= pre + seq![k]);
                Seq::<KeyType>::lemma_to_set_insert_commutes(pre, k);
                assert(self.keys@.to_set() =~= pre.to_set().insert(k));
            }
        } else {
            proof {
                broadcast use vstd::set::group_set_axioms;

                assert(pre.to_set().contains(k));
                assert(pre.to_set().insert(k) =~= pre.to_set());
            }
        }
    }
}

impl Default for Inventory {
    /// An inventory with nothing collected yet.
    fn default() -> (r: Inventory)
        ensures
            r.keys_set() == Set::<KeyType>::empty(),
    {
        Inventory::new()
    }
}

/// Whether two key kinds are the same.
fn key_type_eq(a: KeyType, b: KeyType) -> (r: bool)
    ensures
        r == (a == b),
{
    match (a, b) {
        (KeyType::Yellow, KeyType::Yellow) => true,
        (KeyType::Invalid, KeyType::Invalid) => true,
        _ => false,
    }
}

/// Squared distance between two positions is below the squared threshold;
/// for a non-negative threshold this is exactly Euclidean distance below
/// the threshold.
pub open spec fn spec_within_distance(a: WorldPos, b: WorldPos, threshold: int) -> bool {
    squared_magnitude(a.x - b.x, a.y - b.y) < threshold * threshold
}

/// Collects a key into the inventory when the player stands strictly
/// within the pickup distance of it; reports whether it was collected, so
/// the caller can remove the key from the world.
pub fn collect_key(
    player: &WorldPos,
    key_pos: &WorldPos,
    key_type: KeyType,
    threshold: i64,
    inventory: &mut Inventory,
) -> (collected: bool)
    requires
        player.in_coord_range(),
        key_pos.in_coord_range(),
        0 <= threshold <= MAX_COORD,
    ensures
        collected == spec_within_distance(*player, *key_pos, threshold as int),
        collected ==> final(inventory).keys_set() == old(inventory).keys_set().insert(key_type),
        !collected ==> *final(inventory) == *old(inventory),
{
    let dx = player.x - key_pos.x;
    let dy = player.y - key_pos.y;
    proof {
        assert(0 <= (dx as int) * (dx as int) <= 4 * (MAX_COORD as int) * (MAX_COORD as int))
            by (nonlinear_arith)
            requires
                -2 * MAX_COORD <= dx as int <= 2 * MAX_COORD,
        ;
        assert(0 <= (dy as int) * (dy as int) <= 4 * (MAX_COORD as int) * (MAX_COORD as int))
            by (nonlinear_arith)
            requires
                -2 * MAX_COORD <= dy as int <= 2 * MAX_COORD,
        ;
        assert(0 <= (threshold as int) * (threshold as int) <= (MAX_COORD as int) * (
        MAX_COORD as int)) by (nonlinear_arith)
            requires
                0 <= threshold as int <= MAX_COORD as int,
        ;
    }
    let dist_sq = (dx as i128) * (dx as i128) + (dy as i128) * (dy as i128);
    let threshold_sq = (threshold as i128) * (threshold as i128);
    let within = dist_sq < threshold_sq;
    if within {
        inventory.insert(key_type);
    }
    within
}

} // verus!
