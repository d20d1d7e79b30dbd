use wavefront::components::shape::WallShape;
use wavefront::components::wall::{CircWall, RectWall, WResize, Wall, FULL_REFLECTION};
use wavefront::math::rect::Point;

fn circle(x: u32, y: u32, radius: u32, is_hollow: bool) -> CircWall {
    CircWall::new(x, y, radius, is_hollow, FULL_REFLECTION, 0)
}

#[test]
fn circ_new_keeps_its_arguments() {
    let c = CircWall::new(10, 20, 30, true, 0.5f32.to_bits(), 4);
    assert_eq!(c.center, Point { x: 10, y: 20 });
    assert_eq!(c.radius, 30);
    assert!(c.is_hollow);
    assert_eq!(c.get_reflection_factor(), 0.5f32.to_bits());
    assert_eq!(f32::from_bits(c.open_circ_segment), 0.0);
    assert_eq!(f32::from_bits(c.rotation_angle), 0.0);
    assert_eq!(c.id, 4);
    assert_eq!(c.get_center(), Point { x: 10, y: 20 });
}

#[test]
fn filled_circle_contains_what_is_nearer_than_its_radius() {
    let c = circle(10, 10, 5, false);
    assert!(c.contains(10, 10));
    assert!(c.contains(10, 14));
    assert!(c.contains(6, 10));
    assert!(c.contains(13, 13));
    assert!(!c.contains(10, 15));
    assert!(!c.contains(5, 10));
    assert!(!c.contains(14, 13));
    assert!(!c.contains(100, 100));
}

#[test]
fn filled_circle_of_radius_zero_contains_nothing() {
    let c = circle(10, 10, 0, false);
    assert!(!c.contains(10, 10));
    assert!(!c.contains(11, 10));
}

#[test]
fn hollow_circle_contains_its_ring() {
    let c = circle(100, 100, 10, true);
    assert!(c.contains(110, 100));
    assert!(c.contains(100, 90));
    assert!(c.contains(109, 100));
    assert!(c.contains(108, 104));
    assert!(c.contains(106, 108));
    assert!(!c.contains(108, 100));
    assert!(!c.contains(100, 100));
    assert!(!c.contains(110, 101));
    assert!(!c.contains(111, 100));
    assert!(c.edge_contains(91, 100));
    assert!(!circle(100, 100, 10, false).contains(110, 100));
    assert!(circle(100, 100, 10, false).edge_contains(110, 100));
}

#[test]
fn hollow_circle_ring_starts_at_four_fifths() {
    let c = circle(100, 100, 5, true);
    assert!(c.contains(104, 102));
    assert!(!c.contains(104, 101));
    assert!(c.contains(105, 100));
    assert!(c.contains(103, 104));
}

#[test]
fn circle_contains_far_corners_without_overflow() {
    let c = circle(0, 0, u32::MAX, false);
    assert!(c.contains(u32::MAX - 1, 0));
    assert!(!c.contains(u32::MAX, 0));
    assert!(!c.contains(u32::MAX, u32::MAX));
    let c = circle(u32::MAX, u32::MAX, 1, false);
    assert!(!c.contains(0, 0));
}

#[test]
fn circ_is_deletable_iff_radius_is_zero() {
    assert!(circle(10, 10, 0, false).is_deletable());
    assert!(!circle(10, 10, 1, false).is_deletable());
    assert!(!circle(10, 10, u32::MAX, true).is_deletable());
}

#[test]
fn circ_set_center_relocates() {
    let mut c = circle(10, 10, 5, false);
    c.set_center(300, 5000);
    assert_eq!(c.center, Point { x: 300, y: 5000 });
    assert_eq!(c.radius, 5);
}

#[test]
fn circ_resize_radius_rounds_down() {
    let mut c = circle(100, 100, 1, false);
    c.resize(&WResize::Radius, 103, 104);
    assert_eq!(c.radius, 5);
    c.resize(&WResize::Radius, 101, 101);
    assert_eq!(c.radius, 1);
    c.resize(&WResize::Radius, 98, 98);
    assert_eq!(c.radius, 2);
    c.resize(&WResize::Radius, 100, 90);
    assert_eq!(c.radius, 10);
    c.resize(&WResize::Radius, 100, 100);
    assert_eq!(c.radius, 0);
    assert!(c.is_deletable());
    assert_eq!(c.center, Point { x: 100, y: 100 });
}

#[test]
fn circ_resize_radius_agrees_with_the_square_root() {
    let mut c = circle(350, 350, 0, false);
    for x in (0..700u32).step_by(7) {
        for y in (0..700u32).step_by(11) {
            c.resize(&WResize::Radius, x, y);
            let dx = x as f32 - 350.0;
            let dy = y as f32 - 350.0;
            assert_eq!(c.radius, (dx * dx + dy * dy).sqrt() as u32);
            assert_eq!(c.is_deletable(), c.radius == 0);
        }
    }
}

#[test]
fn circ_resize_radius_stops_at_the_largest_radius() {
    let mut c = circle(0, 0, 0, false);
    c.resize(&WResize::Radius, u32::MAX, u32::MAX);
    assert_eq!(c.radius, u32::MAX);
    c.resize(&WResize::Radius, u32::MAX, 0);
    assert_eq!(c.radius, u32::MAX);
    c.resize(&WResize::Radius, 0, 65536);
    assert_eq!(c.radius, 65536);
}

#[test]
fn circ_resize_menu_changes_nothing() {
    let mut c = circle(100, 100, 7, true);
    let before = c;
    c.resize(&WResize::Menu, 1, 1);
    assert_eq!(c, before);
}

#[test]
fn circ_radius_handle_is_below_the_center() {
    let c = circle(100, 100, 10, false);
    assert_eq!(c.get_resize_point(&WResize::Radius), Point { x: 100, y: 110 });
    let c = circle(100, 100, 0, false);
    assert_eq!(c.get_resize_point(&WResize::Radius), Point { x: 100, y: 100 });
}

#[test]
fn circ_radius_handle_stays_in_the_area() {
    let c = circle(100, 695, 10, false);
    assert_eq!(c.get_resize_point(&WResize::Radius), Point { x: 100, y: 685 });
    let c = circle(100, 5, 10, false);
    assert_eq!(c.get_resize_point(&WResize::Radius), Point { x: 100, y: 15 });
    let c = circle(695, 350, 400, false);
    assert_eq!(c.get_resize_point(&WResize::Radius), Point { x: 295, y: 350 });
    let c = circle(350, 350, 400, false);
    let p = c.get_resize_point(&WResize::Radius);
    assert!(p.x < 700 && p.y < 700);
    assert_eq!(p, Point { x: 543, y: 0 });
    let c = circle(0, 0, 800, false);
    assert_eq!(c.get_resize_point(&WResize::Radius), Point { x: 389, y: 699 });
    let c = circle(350, 350, 494, false);
    assert_eq!(c.get_resize_point(&WResize::Radius), Point { x: 699, y: 0 });
}

#[test]
fn circ_radius_handle_falls_back_to_the_center() {
    let c = circle(0, 0, 2000, false);
    assert_eq!(c.get_resize_point(&WResize::Radius), Point { x: 0, y: 0 });
    let c = circle(350, 350, 100_000, false);
    assert_eq!(c.get_resize_point(&WResize::Radius), Point { x: 350, y: 350 });
}

#[test]
fn circ_boundary_delete() {
    let c = circle(5, 100, 10, false);
    assert!(c.boundary_delete(0, 150, 50));
    assert!(c.boundary_delete(49, 150, 50));
    assert!(!c.boundary_delete(50, 150, 50));
    assert!(!c.boundary_delete(10, 151, 50));
    let c = circle(10, 100, 10, false);
    assert!(!c.boundary_delete(0, 150, 50));
    let c = circle(695, 100, 10, false);
    assert!(c.boundary_delete(750, 150, 50));
    assert!(!c.boundary_delete(749, 150, 50));
    let c = circle(690, 100, 10, false);
    assert!(c.boundary_delete(750, 150, 50));
    let c = circle(689, 100, 10, false);
    assert!(!c.boundary_delete(750, 150, 50));
    let c = circle(100, 3, 4, false);
    assert!(c.boundary_delete(150, 0, 50));
    assert!(!c.boundary_delete(151, 0, 50));
    let c = circle(100, 696, 4, false);
    assert!(c.boundary_delete(150, 750, 50));
    assert!(!c.boundary_delete(150, 700, 50));
    let c = circle(u32::MAX, u32::MAX, u32::MAX, false);
    assert!(!c.boundary_delete(0, 0, u32::MAX));
}

#[test]
fn shape_dispatches_to_its_wall() {
    let mut rect = WallShape::Rect(RectWall::new(10, 20, 30, 40, false, FULL_REFLECTION, 1));
    let mut circ = WallShape::Circ(CircWall::new(100, 100, 5, false, 0.5f32.to_bits(), 2));
    assert_eq!(rect.id(), 1);
    assert_eq!(circ.id(), 2);
    assert!(rect.contains(20, 30));
    assert!(!rect.contains(9, 30));
    assert!(circ.contains(100, 104));
    assert!(!circ.contains(100, 105));
    assert!(rect.edge_contains(10, 30));
    assert!(circ.edge_contains(100, 105));
    assert_eq!(rect.get_center(), Point { x: 20, y: 30 });
    assert_eq!(circ.get_center(), Point { x: 100, y: 100 });
    assert_eq!(rect.get_reflection_factor(), FULL_REFLECTION);
    assert_eq!(circ.get_reflection_factor(), 0.5f32.to_bits());
    assert!(!rect.is_deletable());
    assert!(!circ.is_deletable());
    assert_eq!(rect.get_resize_point(&WResize::TopRight), Point { x: 30, y: 20 });
    assert_eq!(circ.get_resize_point(&WResize::Radius), Point { x: 100, y: 105 });
    rect.resize(&WResize::BottomRight, 50, 60);
    circ.resize(&WResize::Radius, 100, 100);
    assert_eq!(rect, WallShape::Rect(RectWall::new(10, 20, 50, 60, false, FULL_REFLECTION, 1)));
    assert!(circ.is_deletable());
    rect.set_center(100, 100);
    circ.set_center(7, 8);
    assert_eq!(rect.get_center(), Point { x: 100, y: 100 });
    assert_eq!(circ.get_center(), Point { x: 7, y: 8 });
    assert!(!rect.boundary_delete(0, 0, 50));
    assert!(!circ.boundary_delete(0, 0, 50));
}
