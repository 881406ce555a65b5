//! The spawn controller: where a new object enters the world.
//!
//! The player aims with the pointer; a new tier-0 object is created at the
//! pointer's X, clamped between the wall inner faces, at a fixed height above
//! the ceiling so that it falls into the box through the ceiling sensor
//! without ever overlapping it.

use vstd::prelude::*;

use crate::ball::GameObject;
use crate::game_box::GameBox;
use crate::geometry::Vec2i;

verus! {

/// How far above the ceiling's outer face a new object appears.
pub const SPAWN_HEIGHT_OFFSET: u32 = 50;

/// An object-creation request the host engine must instantiate as a dynamic
/// rigid body with the circular collider and mass of `TierTable[tier]`.
#[derive(Clone, Copy, PartialEq, Eq, Structural, Debug)]
pub struct SpawnRequest {
    pub tier: usize,
    pub position: Vec2i,
}

/// `x` clamped into `[lo, hi]`.
pub open spec fn clamp_coord(x: int, lo: int, hi: int) -> int
    recommends
        lo <= hi,
{
    if x < lo {
        lo
    } else if x > hi {
        hi
    } else {
        x
    }
}

/// Where the aiming cursor stands for a pointer at world X `desired_x`: the
/// same X clamped between the wall inner faces, at the fixed spawn height
/// above the ceiling.
pub open spec fn spec_spawn_position(game_box: GameBox, desired_x: int) -> Vec2i {
    Vec2i {
        x: clamp_coord(
            desired_x,
            game_box.spec_left_wall_inner_x(),
            game_box.spec_right_wall_inner_x(),
        ) as i32,
        y: (game_box.spec_ceiling_outer_y() + SPAWN_HEIGHT_OFFSET) as i32,
    }
}

/// Compute the cursor/spawn position for a pointer at `desired_x`.  Clamping
/// makes this total: any pointer X, however far outside the box, yields a
/// position between the walls.
pub fn spawn_position(game_box: &GameBox, desired_x: i32) -> (r: Vec2i)
    requires
        game_box.well_formed(),
    ensures
        r == spec_spawn_position(*game_box, desired_x as int),
        game_box.spec_left_wall_inner_x() <= r.x <= game_box.spec_right_wall_inner_x(),
        r.y == game_box.spec_ceiling_outer_y() + SPAWN_HEIGHT_OFFSET,
{
    let lo = game_box.left_wall_inner_x();
    let hi = game_box.right_wall_inner_x();
    proof {
        game_box.lemma_walls_ordered();
    }
    let x = if desired_x < lo {
        lo
    } else if desired_x > hi {
        hi
    } else {
        desired_x
    };
    let y = game_box.ceiling_outer_y() + (SPAWN_HEIGHT_OFFSET as i32);
    Vec2i { x, y }
}

/// Where the aiming cursor stands this tick, if anywhere: hidden while the
/// pointer reports no world position, otherwise at the clamped spawn
/// position for the pointer's X.
pub fn cursor_placement(game_box: &GameBox, pointer: Option<Vec2i>) -> (r: Option<Vec2i>)
    requires
        game_box.well_formed(),
    ensures
        pointer is None ==> r is None,
        pointer matches Some(p) ==> r == Some(spec_spawn_position(*game_box, p.x as int)),
{
    match pointer {
        None => None,
        Some(p) => Some(spawn_position(game_box, p.x)),
    }
}

/// Create the tier-0 object a click requests: the spawn request realised at
/// the handle the host allocated, with no initial velocity.  Spawning is
/// total — there is no error path — and always yields tier 0.
pub fn spawn_at(game_box: &GameBox, desired_x: i32, id: u64) -> (obj: GameObject)
    requires
        game_box.well_formed(),
    ensures
        obj.id == id,
        obj.tier == 0,
        obj.position == spec_spawn_position(*game_box, desired_x as int),
        obj.velocity == (Vec2i { x: 0, y: 0 }),
        game_box.spec_left_wall_inner_x() <= obj.position.x <= game_box.spec_right_wall_inner_x(),
{
    GameObject {
        id,
        tier: 0,
        position: spawn_position(game_box, desired_x),
        velocity: Vec2i { x: 0, y: 0 },
    }
}

} // verus!
