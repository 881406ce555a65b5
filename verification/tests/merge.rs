use coin_merge::ball::GameObject;
use coin_merge::collisions::CollisionEvent;
use coin_merge::collisions::on_collisions_started;
use coin_merge::geometry::Vec2i;
use coin_merge::spawn::SpawnRequest;

fn ball(id: u64, tier: usize, x: i32, y: i32) -> GameObject {
    GameObject {
        id,
        tier,
        position: Vec2i { x, y },
        velocity: Vec2i { x: 0, y: 0 },
    }
}

fn event(a: u64, b: u64) -> CollisionEvent {
    CollisionEvent { a, b }
}

#[test]
fn two_tier_zero_objects_merge_at_midpoint() {
    // Two tier-0 objects collide (N=3): despawn both, spawn one tier-1
    // object at their midpoint.
    let objs = vec![ball(1, 0, -10, 0), ball(2, 0, 10, 4)];
    let events = vec![event(1, 2)];
    let (despawn, spawn) = on_collisions_started(&objs, 3, &events);
    assert_eq!(despawn, vec![1, 2]);
    assert_eq!(spawn, vec![SpawnRequest { tier: 1, position: Vec2i { x: 0, y: 2 } }]);
}

#[test]
fn merge_output_is_one_tier_up() {
    let objs = vec![ball(4, 1, 0, 0), ball(9, 1, 6, -8)];
    let events = vec![event(9, 4)];
    let (despawn, spawn) = on_collisions_started(&objs, 8, &events);
    assert_eq!(despawn, vec![9, 4]);
    assert_eq!(spawn.len(), 1);
    assert_eq!(spawn[0].tier, 2);
    assert_eq!(spawn[0].position, Vec2i { x: 3, y: -4 });
}

#[test]
fn midpoint_of_odd_sum_rounds_down() {
    let objs = vec![ball(1, 0, 0, 0), ball(2, 0, -3, 5)];
    let events = vec![event(1, 2)];
    let (_, spawn) = on_collisions_started(&objs, 3, &events);
    assert_eq!(spawn[0].position, Vec2i { x: -2, y: 2 });
}

#[test]
fn terminal_tier_objects_only_bounce() {
    // Two tier-2 objects collide (N=3, terminal tier index 2): no despawn,
    // no spawn; physics-only bounce.
    let objs = vec![ball(1, 2, -5, 0), ball(2, 2, 5, 0)];
    let events = vec![event(1, 2)];
    let (despawn, spawn) = on_collisions_started(&objs, 3, &events);
    assert!(despawn.is_empty());
    assert!(spawn.is_empty());
}

#[test]
fn different_tiers_do_not_interact() {
    let objs = vec![ball(1, 0, -5, 0), ball(2, 1, 5, 0)];
    let events = vec![event(1, 2)];
    let (despawn, spawn) = on_collisions_started(&objs, 3, &events);
    assert!(despawn.is_empty());
    assert!(spawn.is_empty());
}

#[test]
fn three_touching_objects_merge_only_once() {
    // Three mutually-touching tier-0 objects report (a,b) then (b,c) in one
    // batch: exactly one merge (a and b consumed); (b,c) is skipped since b
    // is already consumed.
    let objs = vec![ball(1, 0, -10, 0), ball(2, 0, 0, 0), ball(3, 0, 10, 0)];
    let events = vec![event(1, 2), event(2, 3)];
    let (despawn, spawn) = on_collisions_started(&objs, 3, &events);
    assert_eq!(despawn, vec![1, 2]);
    assert_eq!(spawn, vec![SpawnRequest { tier: 1, position: Vec2i { x: -5, y: 0 } }]);
}

#[test]
fn no_handle_despawned_twice_in_one_batch() {
    // Handle 1 appears in two events; only its first merge consumes it.
    let objs = vec![ball(1, 0, 0, 0), ball(2, 0, 2, 0), ball(3, 0, 4, 0), ball(4, 0, 6, 0)];
    let events = vec![event(1, 2), event(1, 3), event(3, 4)];
    let (despawn, spawn) = on_collisions_started(&objs, 3, &events);
    assert_eq!(despawn, vec![1, 2, 3, 4]);
    assert_eq!(spawn.len(), 2);
    let mut seen = despawn.clone();
    seen.sort();
    seen.dedup();
    assert_eq!(seen.len(), despawn.len());
}

#[test]
fn stale_handles_are_skipped() {
    // An event endpoint that is no live object (a wall, or an object gone in
    // an earlier tick) is silently skipped.
    let objs = vec![ball(1, 0, 0, 0)];
    let events = vec![event(1, 7), event(8, 9)];
    let (despawn, spawn) = on_collisions_started(&objs, 3, &events);
    assert!(despawn.is_empty());
    assert!(spawn.is_empty());
}

#[test]
fn self_collision_is_skipped() {
    let objs = vec![ball(1, 0, 0, 0)];
    let events = vec![event(1, 1)];
    let (despawn, spawn) = on_collisions_started(&objs, 3, &events);
    assert!(despawn.is_empty());
    assert!(spawn.is_empty());
}

#[test]
fn empty_batch_produces_nothing() {
    let objs = vec![ball(1, 0, 0, 0), ball(2, 0, 1, 0)];
    let events: Vec<CollisionEvent> = vec![];
    let (despawn, spawn) = on_collisions_started(&objs, 3, &events);
    assert!(despawn.is_empty());
    assert!(spawn.is_empty());
}

#[test]
fn second_tick_merges_what_first_left() {
    // The consumed marking is scoped to one batch: a fresh call starts clean.
    let objs1 = vec![ball(1, 0, -10, 0), ball(2, 0, 0, 0), ball(3, 0, 10, 0)];
    let events1 = vec![event(1, 2), event(2, 3)];
    let (despawn1, spawn1) = on_collisions_started(&objs1, 3, &events1);
    assert_eq!(despawn1, vec![1, 2]);

    // The host applied the requests: 1 and 2 are gone, 4 spawned at (-5, 0).
    let objs2 = vec![ball(3, 0, 10, 0), ball(4, spawn1[0].tier, -5, 0)];
    let events2 = vec![event(3, 3)];
    let (despawn2, _) = on_collisions_started(&objs2, 3, &events2);
    assert!(despawn2.is_empty());
}
