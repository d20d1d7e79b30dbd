use wavefront::components::wall::{RectWall, WResize, Wall, FULL_REFLECTION};
use wavefront::math::rect::{Point, WRect};

fn wall(x0: u32, y0: u32, x1: u32, y1: u32, is_hollow: bool) -> RectWall {
    RectWall::new(x0, y0, x1, y1, is_hollow, FULL_REFLECTION, 0)
}

fn corners(wall: &RectWall) -> (u32, u32, u32, u32) {
    (wall.rect.min.x, wall.rect.min.y, wall.rect.max.x, wall.rect.max.y)
}

#[test]
fn full_reflection_is_the_pattern_of_one() {
    assert_eq!(FULL_REFLECTION, 1.0f32.to_bits());
}

#[test]
fn rect_new_keeps_its_arguments() {
    let w = RectWall::new(10, 20, 30, 40, true, 0.5f32.to_bits(), 7);
    assert_eq!(corners(&w), (10, 20, 30, 40));
    assert!(w.is_hollow);
    assert_eq!(f32::from_bits(w.reflection_factor), 0.5);
    assert_eq!(w.get_reflection_factor(), 0.5f32.to_bits());
    assert_eq!(w.id, 7);
    assert_eq!(w.draw_pin, Point { x: 10, y: 20 });
    assert!(w.is_valid());
}

#[test]
fn rect_new_orders_the_corners() {
    let w = wall(30, 40, 10, 20, false);
    assert_eq!(corners(&w), (10, 20, 30, 40));
    assert_eq!(w.draw_pin, Point { x: 30, y: 40 });
}

#[test]
fn rect_new_pulls_corners_into_the_area() {
    let w = wall(800, 900, 10, 10, false);
    assert_eq!(corners(&w), (10, 10, 699, 699));
    assert_eq!(w.draw_pin, Point { x: 699, y: 699 });
    assert!(w.is_valid());
}

#[test]
fn rect_is_valid_sees_broken_fields() {
    let mut w = wall(10, 10, 20, 20, false);
    w.rect.min.x = 21;
    assert!(!w.is_valid());
    w.rect.min.x = 10;
    w.rect.max.y = 700;
    assert!(!w.is_valid());
}

#[test]
fn wrect_measures_both_borders() {
    let r = WRect::new(3, 4, 7, 4);
    assert_eq!(r.width(), 5);
    assert_eq!(r.height(), 1);
    assert_eq!(r.center(), Point { x: 5, y: 4 });
    let r = WRect::new(2, 2, 5, 9);
    assert_eq!(r.center(), Point { x: 3, y: 5 });
    let r = WRect::new(u32::MAX, 0, u32::MAX - 1, 0);
    assert_eq!(r.center(), Point { x: u32::MAX - 1, y: 0 });
}

#[test]
fn filled_rect_contains_its_inside_and_border() {
    let w = wall(10, 20, 30, 40, false);
    assert!(w.contains(10, 20));
    assert!(w.contains(30, 40));
    assert!(w.contains(20, 30));
    assert!(!w.contains(9, 30));
    assert!(!w.contains(31, 30));
    assert!(!w.contains(20, 19));
    assert!(!w.contains(20, 41));
}

#[test]
fn hollow_rect_contains_only_its_border() {
    let w = wall(10, 20, 30, 40, true);
    assert!(w.contains(10, 20));
    assert!(w.contains(10, 30));
    assert!(w.contains(30, 30));
    assert!(w.contains(20, 20));
    assert!(w.contains(20, 40));
    assert!(!w.contains(20, 30));
    assert!(!w.contains(11, 21));
    assert!(!w.contains(10, 41));
    assert!(!w.contains(9, 20));
}

#[test]
fn rect_edge_contains_ignores_hollow() {
    let w = wall(10, 20, 30, 40, false);
    assert!(w.edge_contains(10, 25));
    assert!(w.edge_contains(30, 25));
    assert!(w.edge_contains(15, 20));
    assert!(w.edge_contains(15, 40));
    assert!(!w.edge_contains(15, 25));
    assert!(!w.edge_contains(10, 19));
    assert!(!w.edge_contains(31, 40));
}

#[test]
fn rect_center() {
    assert_eq!(wall(10, 20, 30, 40, false).get_center(), Point { x: 20, y: 30 });
    assert_eq!(wall(10, 20, 31, 41, false).get_center(), Point { x: 20, y: 30 });
}

#[test]
fn rect_resize_points() {
    let w = wall(10, 20, 30, 40, false);
    assert_eq!(w.get_resize_point(&WResize::Draw), Point { x: 30, y: 40 });
    assert_eq!(w.get_resize_point(&WResize::TopLeft), Point { x: 10, y: 20 });
    assert_eq!(w.get_resize_point(&WResize::TopRight), Point { x: 30, y: 20 });
    assert_eq!(w.get_resize_point(&WResize::BottomRight), Point { x: 30, y: 40 });
    assert_eq!(w.get_resize_point(&WResize::BottomLeft), Point { x: 10, y: 40 });
    assert_eq!(w.get_resize_point(&WResize::Menu), Point { x: 20, y: 30 });
}

#[test]
fn rect_resize_top_left() {
    let mut w = wall(10, 20, 30, 40, false);
    w.resize(&WResize::TopLeft, 5, 6);
    assert_eq!(corners(&w), (5, 6, 30, 40));
    w.resize(&WResize::TopLeft, 100, 100);
    assert_eq!(corners(&w), (29, 39, 30, 40));
}

#[test]
fn rect_resize_top_right() {
    let mut w = wall(10, 20, 30, 40, false);
    w.resize(&WResize::TopRight, 50, 10);
    assert_eq!(corners(&w), (10, 10, 50, 40));
    w.resize(&WResize::TopRight, 0, 100);
    assert_eq!(corners(&w), (10, 39, 11, 40));
}

#[test]
fn rect_resize_bottom_right() {
    let mut w = wall(10, 20, 30, 40, false);
    w.resize(&WResize::BottomRight, 60, 70);
    assert_eq!(corners(&w), (10, 20, 60, 70));
    w.resize(&WResize::BottomRight, 0, 0);
    assert_eq!(corners(&w), (10, 20, 11, 21));
}

#[test]
fn rect_resize_bottom_left() {
    let mut w = wall(10, 20, 30, 40, false);
    w.resize(&WResize::BottomLeft, 2, 90);
    assert_eq!(corners(&w), (2, 20, 30, 90));
    w.resize(&WResize::BottomLeft, 500, 0);
    assert_eq!(corners(&w), (29, 20, 30, 21));
}

#[test]
fn rect_resize_stops_at_the_area() {
    let mut w = wall(10, 20, 30, 40, false);
    w.resize(&WResize::BottomRight, 5000, u32::MAX);
    assert_eq!(corners(&w), (10, 20, 699, 699));
    let mut w = wall(699, 699, 699, 699, false);
    w.resize(&WResize::BottomRight, 0, 0);
    assert_eq!(corners(&w), (699, 699, 699, 699));
    let mut w = wall(0, 0, 0, 0, false);
    w.resize(&WResize::TopLeft, 9, 9);
    assert_eq!(corners(&w), (0, 0, 0, 0));
}

#[test]
fn rect_resize_draw_turns_about_the_pin() {
    let mut w = wall(100, 100, 100, 100, false);
    w.resize(&WResize::Draw, 120, 130);
    assert_eq!(corners(&w), (100, 100, 120, 130));
    w.resize(&WResize::Draw, 80, 130);
    assert_eq!(corners(&w), (80, 100, 100, 130));
    w.resize(&WResize::Draw, 80, 70);
    assert_eq!(corners(&w), (80, 70, 100, 100));
    w.resize(&WResize::Draw, 100, 100);
    assert_eq!(corners(&w), (100, 100, 100, 100));
    w.resize(&WResize::Draw, 9999, 9999);
    assert_eq!(corners(&w), (100, 100, 699, 699));
}

#[test]
fn rect_resize_menu_changes_nothing() {
    let mut w = wall(10, 20, 30, 40, true);
    let before = w;
    w.resize(&WResize::Menu, 1, 2);
    assert_eq!(w, before);
}

#[test]
fn rect_resize_keeps_everything_but_the_corners() {
    let mut w = RectWall::new(10, 20, 30, 40, true, 0.25f32.to_bits(), 3);
    w.resize(&WResize::TopLeft, 1, 2);
    assert!(w.is_hollow);
    assert_eq!(w.reflection_factor, 0.25f32.to_bits());
    assert_eq!(w.id, 3);
    assert_eq!(w.draw_pin, Point { x: 10, y: 20 });
}

#[test]
fn rect_is_never_inverted_by_resizing() {
    let handles = [
        WResize::TopLeft,
        WResize::TopRight,
        WResize::BottomRight,
        WResize::BottomLeft,
        WResize::Draw,
        WResize::Menu,
    ];
    let mut w = wall(300, 300, 310, 310, false);
    let mut seed: u32 = 12345;
    for step in 0..5000usize {
        seed = seed.wrapping_mul(1664525).wrapping_add(1013904223);
        let x = (seed >> 8) % 900;
        seed = seed.wrapping_mul(1664525).wrapping_add(1013904223);
        let y = (seed >> 8) % 900;
        w.resize(&handles[step % handles.len()], x, y);
        assert!(w.rect.min.x <= w.rect.max.x);
        assert!(w.rect.min.y <= w.rect.max.y);
        assert!(w.rect.max.x <= 699 && w.rect.max.y <= 699);
        assert!(w.is_valid());
    }
}

#[test]
fn rect_is_deletable_when_one_cell_wide_or_high() {
    assert!(wall(5, 5, 5, 9, false).is_deletable());
    assert!(wall(5, 5, 9, 5, false).is_deletable());
    assert!(wall(5, 5, 5, 5, false).is_deletable());
    assert!(!wall(5, 5, 6, 6, false).is_deletable());
}

#[test]
fn rect_set_center_moves_the_wall() {
    let mut w = wall(10, 20, 30, 40, false);
    w.set_center(100, 200);
    assert_eq!(corners(&w), (90, 190, 110, 210));
    assert_eq!(w.get_center(), Point { x: 100, y: 200 });
    w.set_center(50, 60);
    assert_eq!(corners(&w), (40, 50, 60, 70));
    w.set_center(50, 60);
    assert_eq!(corners(&w), (40, 50, 60, 70));
}

#[test]
fn rect_set_center_stops_at_each_border_by_itself() {
    let mut w = wall(10, 20, 30, 40, false);
    w.set_center(0, 100);
    assert_eq!(corners(&w), (0, 90, 20, 110));
    w.set_center(100, 0);
    assert_eq!(corners(&w), (90, 0, 110, 20));
    w.set_center(5000, 300);
    assert_eq!(corners(&w), (679, 290, 699, 310));
    w.set_center(300, u32::MAX);
    assert_eq!(corners(&w), (290, 679, 310, 699));
    assert!(w.is_valid());
}

#[test]
fn rect_boundary_delete_left_and_right() {
    let w = wall(0, 100, 50, 120, false);
    assert!(w.boundary_delete(0, 150, 50));
    assert!(w.boundary_delete(49, 170, 50));
    assert!(!w.boundary_delete(50, 150, 50));
    assert!(!w.boundary_delete(10, 149, 50));
    assert!(!w.boundary_delete(10, 171, 50));
    let w = wall(600, 100, 699, 120, false);
    assert!(w.boundary_delete(750, 150, 50));
    assert!(w.boundary_delete(799, 170, 50));
    assert!(!w.boundary_delete(749, 150, 50));
    assert!(!w.boundary_delete(10, 150, 50));
    let w = wall(600, 100, 698, 120, false);
    assert!(!w.boundary_delete(750, 150, 50));
}

#[test]
fn rect_boundary_delete_top_and_bottom() {
    let w = wall(100, 0, 120, 50, false);
    assert!(w.boundary_delete(150, 0, 50));
    assert!(w.boundary_delete(170, 49, 50));
    assert!(!w.boundary_delete(150, 50, 50));
    assert!(!w.boundary_delete(149, 10, 50));
    let w = wall(100, 600, 120, 699, false);
    assert!(w.boundary_delete(150, 750, 50));
    assert!(!w.boundary_delete(150, 749, 50));
    assert!(!w.boundary_delete(171, 750, 50));
    let w = wall(100, 100, 120, 120, false);
    assert!(!w.boundary_delete(0, 150, 50));
    assert!(!w.boundary_delete(150, 0, 50));
    assert!(!w.boundary_delete(u32::MAX, u32::MAX, u32::MAX));
}
