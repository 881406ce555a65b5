use coin_merge::game_box::BoundaryKind;
use coin_merge::game_box::GameBox;
use coin_merge::game_box::boundary_collider;
use coin_merge::game_box::boundary_layout;
use coin_merge::geometry::Vec2i;
use coin_merge::spawn::cursor_placement;
use coin_merge::spawn::spawn_at;
use coin_merge::spawn::spawn_position;

#[test]
fn box_inner_faces_width_200() {
    // Box width=200, wallThickness=5: inner faces at -95 and 95.
    let gb = GameBox::new(200, 300);
    assert_eq!(gb.left_wall_inner_x(), -95);
    assert_eq!(gb.right_wall_inner_x(), 95);
    assert_eq!(gb.ceiling_outer_y(), 155);
}

#[test]
fn spawn_far_right_is_clamped_to_right_wall() {
    let gb = GameBox::new(200, 300);
    let p = spawn_position(&gb, 500);
    assert_eq!(p.x, 95);
    assert_eq!(p.y, 205); // ceiling outer face 155, plus the spawn offset 50
}

#[test]
fn spawn_far_left_is_clamped_to_left_wall() {
    let gb = GameBox::new(200, 300);
    let p = spawn_position(&gb, -95 - 1000);
    assert_eq!(p.x, -95);
}

#[test]
fn spawn_inside_keeps_its_x() {
    let gb = GameBox::new(200, 300);
    assert_eq!(spawn_position(&gb, 0).x, 0);
    assert_eq!(spawn_position(&gb, -95).x, -95);
    assert_eq!(spawn_position(&gb, 95).x, 95);
    assert_eq!(spawn_position(&gb, 17).x, 17);
}

#[test]
fn spawn_stays_between_walls_for_many_inputs() {
    let gb = GameBox::new(200, 300);
    let lo = gb.left_wall_inner_x();
    let hi = gb.right_wall_inner_x();
    let inputs = vec![i32::MIN, -100000, -96, -95, -1, 0, 1, 94, 95, 96, 100000, i32::MAX];
    for x in inputs {
        let p = spawn_position(&gb, x);
        assert!(lo <= p.x && p.x <= hi);
    }
}

#[test]
fn spawned_object_is_tier_zero_at_rest() {
    let gb = GameBox::new(200, 300);
    let obj = spawn_at(&gb, 40, 77);
    assert_eq!(obj.id, 77);
    assert_eq!(obj.tier, 0);
    assert_eq!(obj.position, Vec2i { x: 40, y: 205 });
    assert_eq!(obj.velocity, Vec2i { x: 0, y: 0 });
}

#[test]
fn cursor_hidden_without_pointer() {
    let gb = GameBox::new(200, 300);
    assert!(cursor_placement(&gb, None).is_none());
}

#[test]
fn cursor_follows_clamped_pointer() {
    let gb = GameBox::new(200, 300);
    let c = cursor_placement(&gb, Some(Vec2i { x: 300, y: -40 }));
    assert_eq!(c, Some(Vec2i { x: 95, y: 205 }));
}

#[test]
fn boundary_layout_of_200_by_300() {
    let gb = GameBox::new(200, 300);
    let layout = boundary_layout(&gb);
    assert_eq!(layout.len(), 4);

    let left = layout[0];
    assert_eq!(left.kind, BoundaryKind::LeftWall);
    assert_eq!(left.center, Vec2i { x: -100, y: 0 });
    assert_eq!(left.half_extents, Vec2i { x: 5, y: 150 });
    assert!(!left.sensor);
    // The left wall's inner face lies exactly at left_wall_inner_x.
    assert_eq!(left.center.x + left.half_extents.x, gb.left_wall_inner_x());

    let right = layout[1];
    assert_eq!(right.kind, BoundaryKind::RightWall);
    assert_eq!(right.center, Vec2i { x: 100, y: 0 });
    assert_eq!(right.half_extents, Vec2i { x: 5, y: 150 });
    assert!(!right.sensor);
    assert_eq!(right.center.x - right.half_extents.x, gb.right_wall_inner_x());

    let floor = layout[2];
    assert_eq!(floor.kind, BoundaryKind::Floor);
    assert_eq!(floor.center, Vec2i { x: 0, y: -150 });
    assert_eq!(floor.half_extents, Vec2i { x: 100, y: 5 });
    assert!(!floor.sensor);

    let ceiling = layout[3];
    assert_eq!(ceiling.kind, BoundaryKind::Ceiling);
    assert_eq!(ceiling.center, Vec2i { x: 0, y: 150 });
    assert_eq!(ceiling.half_extents, Vec2i { x: 100, y: 5 });
    assert!(ceiling.sensor);
    assert_eq!(ceiling.center.y + ceiling.half_extents.y, gb.ceiling_outer_y());
}

#[test]
fn boundary_collider_matches_layout_entry() {
    let gb = GameBox::new(640, 480);
    let layout = boundary_layout(&gb);
    assert_eq!(boundary_collider(&gb, BoundaryKind::LeftWall), layout[0]);
    assert_eq!(boundary_collider(&gb, BoundaryKind::RightWall), layout[1]);
    assert_eq!(boundary_collider(&gb, BoundaryKind::Floor), layout[2]);
    assert_eq!(boundary_collider(&gb, BoundaryKind::Ceiling), layout[3]);
}
