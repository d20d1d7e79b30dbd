use wavefront::components::gizmo::{
    gizmo_handle_radius, gizmo_plan, GizmoComponent, GizmoPlan,
};
use wavefront::components::wall::{CircWall, RectWall, FULL_REFLECTION};
use wavefront::math::rect::Point;
use wavefront::ui::state::ToolType;

#[test]
fn handle_radius_grows_with_highlight() {
    assert_eq!(gizmo_handle_radius(true), 10);
    assert_eq!(gizmo_handle_radius(false), 5);
}

#[test]
fn gizmo_plan_by_tool() {
    assert_eq!(gizmo_plan(&ToolType::ResizeWall), GizmoPlan { handles: true, scale_text: true });
    assert_eq!(gizmo_plan(&ToolType::MoveWall), GizmoPlan { handles: true, scale_text: false });
    assert_eq!(gizmo_plan(&ToolType::DrawWall), GizmoPlan { handles: false, scale_text: true });
    for tool in
        [ToolType::PlaceSource, ToolType::MoveSource, ToolType::PlaceMic, ToolType::MoveMic]
    {
        assert_eq!(gizmo_plan(&tool), GizmoPlan { handles: false, scale_text: false });
    }
}

#[test]
fn rect_gizmo_positions() {
    let wall = RectWall::new(10, 20, 30, 40, false, FULL_REFLECTION, 0);
    assert_eq!(
        wall.get_gizmo_positions(&ToolType::ResizeWall),
        vec![
            Point { x: 10, y: 20 },
            Point { x: 30, y: 20 },
            Point { x: 10, y: 40 },
            Point { x: 30, y: 40 },
        ]
    );
    assert_eq!(wall.get_gizmo_positions(&ToolType::MoveWall), vec![Point { x: 20, y: 30 }]);
}

#[test]
fn circ_gizmo_positions() {
    let wall = CircWall::new(100, 695, 10, false, FULL_REFLECTION, 0);
    assert_eq!(wall.get_gizmo_positions(&ToolType::ResizeWall), vec![Point { x: 100, y: 685 }]);
    assert_eq!(wall.get_gizmo_positions(&ToolType::MoveWall), vec![Point { x: 100, y: 695 }]);
}
