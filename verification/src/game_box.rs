//! The box that the game objects live in.
//!
//! The box is centered at the origin and its `{width, height}` is the
//! authoritative state: every piece of derived geometry — wall inner faces,
//! ceiling outer face, the four boundary colliders — is recomputed from the
//! dimensions on demand and never stored, so it can never drift out of sync
//! even if the box is resized while the game runs.

use vstd::prelude::*;

use crate::geometry::Vec2i;

verus! {

/// Thickness of each wall of the box, in world units.
pub const WALL_THICKNESS: u32 = 5;

/// Upper bound on a box dimension, far beyond any playable size; it keeps
/// every piece of derived geometry well inside `i32`.
pub const MAX_BOX_DIM: u32 = 1000000;

/// The containing box, centered at the origin.
#[derive(Clone, Copy, PartialEq, Eq, Structural, Debug)]
pub struct GameBox {
    pub width: u32,
    pub height: u32,
}

impl GameBox {
    /// A box is well formed when both dimensions are at least two wall
    /// thicknesses (so the walls do not cross) and of playable size.
    pub open spec fn well_formed(self) -> bool {
        &&& 2 * WALL_THICKNESS <= self.width <= MAX_BOX_DIM
        &&& 2 * WALL_THICKNESS <= self.height <= MAX_BOX_DIM
    }

    pub fn new(width: u32, height: u32) -> (r: GameBox)
        requires
            2 * WALL_THICKNESS <= width <= MAX_BOX_DIM,
            2 * WALL_THICKNESS <= height <= MAX_BOX_DIM,
        ensures
            r == (GameBox { width, height }),
            r.well_formed(),
    {
        GameBox { width, height }
    }

    /// X coordinate of the inner edge of the left wall.
    pub open spec fn spec_left_wall_inner_x(self) -> int {
        -((self.width / 2) as int) + WALL_THICKNESS
    }

    /// X coordinate of the inner edge of the right wall.
    pub open spec fn spec_right_wall_inner_x(self) -> int {
        (self.width / 2) as int - WALL_THICKNESS
    }

    /// Y coordinate of the outer edge of the ceiling.
    pub open spec fn spec_ceiling_outer_y(self) -> int {
        (self.height / 2) as int + WALL_THICKNESS
    }

    /// Get the X coordinate of the inner edge of the left wall.
    pub fn left_wall_inner_x(&self) -> (r: i32)
        requires
            self.well_formed(),
        ensures
            r == self.spec_left_wall_inner_x(),
    {
        -((self.width / 2) as i32) + (WALL_THICKNESS as i32)
    }

    /// Get the X coordinate of the inner edge of the right wall.
    pub fn right_wall_inner_x(&self) -> (r: i32)
        requires
            self.well_formed(),
        ensures
            r == self.spec_right_wall_inner_x(),
    {
        (self.width / 2) as i32 - (WALL_THICKNESS as i32)
    }

    /// Get the Y coordinate of the outer edge of the ceiling.
    pub fn ceiling_outer_y(&self) -> (r: i32)
        requires
            self.well_formed(),
        ensures
            r == self.spec_ceiling_outer_y(),
    {
        (self.height / 2) as i32 + (WALL_THICKNESS as i32)
    }

    /// In a well-formed box the left wall's inner face lies at or left of the
    /// right wall's inner face, so clamping between them is always possible.
    pub proof fn lemma_walls_ordered(self)
        requires
            self.well_formed(),
        ensures
            self.spec_left_wall_inner_x() <= self.spec_right_wall_inner_x(),
    {
    }
}

/// Which of the four boundary elements a collider is.
#[derive(Clone, Copy, PartialEq, Eq, Structural, Debug)]
pub enum BoundaryKind {
    LeftWall,
    RightWall,
    Floor,
    Ceiling,
}

/// One static boundary collider the host engine must maintain: an
/// axis-aligned cuboid at `center` with the given half extents.  The ceiling
/// is a sensor: it reports touch events but exerts no physical force, so a
/// freshly spawned ball can fall through it into the box.
#[derive(Clone, Copy, PartialEq, Eq, Structural, Debug)]
pub struct BoundaryCollider {
    pub kind: BoundaryKind,
    pub center: Vec2i,
    pub half_extents: Vec2i,
    pub sensor: bool,
}

/// The collider a well-formed box owes each boundary element.  Each wall is
/// centered on its side's edge (±width/2) with a half-extent of one wall
/// thickness across, so its inner face lies exactly at the boundary model's
/// inner-face coordinate; floor and ceiling likewise sit on ±height/2, and
/// the ceiling's outer face lies exactly at the model's outer-face
/// coordinate.  Only the ceiling is a sensor.
pub open spec fn spec_boundary_collider(game_box: GameBox, kind: BoundaryKind) -> BoundaryCollider {
    let half_w = (game_box.width / 2) as int;
    let half_h = (game_box.height / 2) as int;
    match kind {
        BoundaryKind::LeftWall => BoundaryCollider {
            kind,
            center: Vec2i { x: (-half_w) as i32, y: 0 },
            half_extents: Vec2i { x: WALL_THICKNESS as i32, y: half_h as i32 },
            sensor: false,
        },
        BoundaryKind::RightWall => BoundaryCollider {
            kind,
            center: Vec2i { x: half_w as i32, y: 0 },
            half_extents: Vec2i { x: WALL_THICKNESS as i32, y: half_h as i32 },
            sensor: false,
        },
        BoundaryKind::Floor => BoundaryCollider {
            kind,
            center: Vec2i { x: 0, y: (-half_h) as i32 },
            half_extents: Vec2i { x: half_w as i32, y: WALL_THICKNESS as i32 },
            sensor: false,
        },
        BoundaryKind::Ceiling => BoundaryCollider {
            kind,
            center: Vec2i { x: 0, y: half_h as i32 },
            half_extents: Vec2i { x: half_w as i32, y: WALL_THICKNESS as i32 },
            sensor: true,
        },
    }
}

/// Compute one boundary collider from the current box dimensions.  The
/// emitted shape agrees with the boundary model: each wall's inner face and
/// the ceiling's outer face lie exactly where the model functions say, so a
/// spawn clamped between the wall inner faces never overlaps a wall.
pub fn boundary_collider(game_box: &GameBox, kind: BoundaryKind) -> (r: BoundaryCollider)
    requires
        game_box.well_formed(),
    ensures
        r == spec_boundary_collider(*game_box, kind),
        kind == BoundaryKind::LeftWall ==> r.center.x + r.half_extents.x
            == game_box.spec_left_wall_inner_x(),
        kind == BoundaryKind::RightWall ==> r.center.x - r.half_extents.x
            == game_box.spec_right_wall_inner_x(),
        kind == BoundaryKind::Ceiling ==> r.center.y + r.half_extents.y
            == game_box.spec_ceiling_outer_y(),
{
    let half_w = (game_box.width / 2) as i32;
    let half_h = (game_box.height / 2) as i32;
    let wall_ext = WALL_THICKNESS as i32;
    match kind {
        BoundaryKind::LeftWall => BoundaryCollider {
            kind,
            center: Vec2i { x: -half_w, y: 0 },
            half_extents: Vec2i { x: wall_ext, y: half_h },
            sensor: false,
        },
        BoundaryKind::RightWall => BoundaryCollider {
            kind,
            center: Vec2i { x: half_w, y: 0 },
            half_extents: Vec2i { x: wall_ext, y: half_h },
            sensor: false,
        },
        BoundaryKind::Floor => BoundaryCollider {
            kind,
            center: Vec2i { x: 0, y: -half_h },
            half_extents: Vec2i { x: half_w, y: wall_ext },
            sensor: false,
        },
        BoundaryKind::Ceiling => BoundaryCollider {
            kind,
            center: Vec2i { x: 0, y: half_h },
            half_extents: Vec2i { x: half_w, y: wall_ext },
            sensor: true,
        },
    }
}

/// The full boundary layout the host must apply on entering the active state
/// and re-apply every tick: left wall, right wall, floor, then ceiling.
pub fn boundary_layout(game_box: &GameBox) -> (r: Vec<BoundaryCollider>)
    requires
        game_box.well_formed(),
    ensures
        r@.len() == 4,
        r@[0] == spec_boundary_collider(*game_box, BoundaryKind::LeftWall),
        r@[1] == spec_boundary_collider(*game_box, BoundaryKind::RightWall),
        r@[2] == spec_boundary_collider(*game_box, BoundaryKind::Floor),
        r@[3] == spec_boundary_collider(*game_box, BoundaryKind::Ceiling),
        r@[0].center.x + r@[0].half_extents.x == game_box.spec_left_wall_inner_x(),
        r@[1].center.x - r@[1].half_extents.x == game_box.spec_right_wall_inner_x(),
        r@[3].center.y + r@[3].half_extents.y == game_box.spec_ceiling_outer_y(),
{
    let mut r: Vec<BoundaryCollider> = Vec::new();
    r.push(boundary_collider(game_box, BoundaryKind::LeftWall));
    r.push(boundary_collider(game_box, BoundaryKind::RightWall));
    r.push(boundary_collider(game_box, BoundaryKind::Floor));
    r.push(boundary_collider(game_box, BoundaryKind::Ceiling));
    r
}

} // verus!
