//! Core of a physics-driven merge puzzle game.
//!
//! Objects ("balls") of discrete size tiers fall under gravity inside a
//! bounded box; when two objects of the same tier collide they fuse into a
//! single object of the next tier, up to a terminal tier.  The player spawns
//! new tier-0 objects by pointing and clicking inside the box.
//!
//! This crate is the engine-independent core: the tier table, the box
//! boundary geometry, the spawn controller and the merge resolver.  A host
//! engine drives it by delivering one batch of collision-start events per
//! simulation tick, and by instantiating the spawn requests and applying the
//! despawn requests that come back.  World coordinates are whole units, so
//! every rule here is exact integer arithmetic.

use vstd::prelude::*;

pub mod ball;
pub mod collisions;
pub mod game_box;
pub mod geometry;
pub mod spawn;

use crate::ball::GameObject;
use crate::ball::TierTable;
use crate::collisions::CollisionEvent;
use crate::collisions::batch_despawns;
use crate::collisions::batch_spawns;
use crate::game_box::BoundaryCollider;
use crate::game_box::BoundaryKind;
use crate::game_box::GameBox;
use crate::game_box::spec_boundary_collider;
use crate::geometry::Vec2i;
use crate::spawn::SPAWN_HEIGHT_OFFSET;
use crate::spawn::SpawnRequest;
use crate::spawn::spec_spawn_position;

verus! {

/// The assembled game: the box and the tier table, wired to the boundary,
/// spawn and merge subsystems.  The host engine owns one of these for the
/// life of the process and drives it once per tick.
pub struct MainPlugin {
    pub game_box: GameBox,
    pub phases: TierTable,
}

impl MainPlugin {
    pub open spec fn well_formed(self) -> bool {
        &&& self.game_box.well_formed()
        &&& self.phases.well_formed()
    }

    pub fn new(game_box: GameBox, phases: TierTable) -> (r: MainPlugin)
        requires
            game_box.well_formed(),
            phases.well_formed(),
        ensures
            r.game_box == game_box,
            r.phases == phases,
            r.well_formed(),
    {
        MainPlugin { game_box, phases }
    }

    /// The four boundary colliders the host must create on startup and keep
    /// matched to the box dimensions every tick.  The wall inner faces and
    /// the ceiling outer face lie exactly where the boundary model says.
    pub fn boundary_layout(&self) -> (r: Vec<BoundaryCollider>)
        requires
            self.well_formed(),
        ensures
            r@.len() == 4,
            r@[0] == spec_boundary_collider(self.game_box, BoundaryKind::LeftWall),
            r@[1] == spec_boundary_collider(self.game_box, BoundaryKind::RightWall),
            r@[2] == spec_boundary_collider(self.game_box, BoundaryKind::Floor),
            r@[3] == spec_boundary_collider(self.game_box, BoundaryKind::Ceiling),
            r@[0].center.x + r@[0].half_extents.x == self.game_box.spec_left_wall_inner_x(),
            r@[1].center.x - r@[1].half_extents.x == self.game_box.spec_right_wall_inner_x(),
            r@[3].center.y + r@[3].half_extents.y == self.game_box.spec_ceiling_outer_y(),
    {
        crate::game_box::boundary_layout(&self.game_box)
    }

    /// A primary-button click: spawn one tier-0 object above the ceiling,
    /// clamped between the walls, at the handle the host allocated.
    pub fn spawn_at(&self, desired_x: i32, id: u64) -> (obj: GameObject)
        requires
            self.well_formed(),
        ensures
            obj.id == id,
            obj.tier == 0,
            obj.position == spec_spawn_position(self.game_box, desired_x as int),
            obj.velocity == (Vec2i { x: 0, y: 0 }),
            self.game_box.spec_left_wall_inner_x() <= obj.position.x
                <= self.game_box.spec_right_wall_inner_x(),
            obj.position.y == self.game_box.spec_ceiling_outer_y() + SPAWN_HEIGHT_OFFSET,
    {
        crate::spawn::spawn_at(&self.game_box, desired_x, id)
    }

    /// Resolve one tick's batch of collision-start events against the live
    /// objects: which handles to despawn and what to spawn in their place.
    pub fn on_collisions_started(
        &self,
        objs: &Vec<GameObject>,
        events: &Vec<CollisionEvent>,
    ) -> (r: (Vec<u64>, Vec<SpawnRequest>))
        ensures
            r.0@ == batch_despawns(
                objs@,
                self.phases.phases@.len() as usize,
                events@,
                Set::empty(),
            ),
            r.1@ == batch_spawns(
                objs@,
                self.phases.phases@.len() as usize,
                events@,
                Set::empty(),
            ),
    {
        let tier_count = self.phases.tier_count();
        crate::collisions::on_collisions_started(objs, tier_count, events)
    }
}

} // verus!
