use vstd::prelude::*;

use crate::components::wall::{CircWall, RectWall, WResize, Wall};
use crate::math::rect::Point;
use crate::ui::state::ToolType;

verus! {

/// What is drawn on top of a wall while a tool is active.
#[derive(Debug, Clone, Copy, PartialEq, Eq, Structural)]
pub struct GizmoPlan {
    /// A dot at every grab point.
    pub handles: bool,
    /// The wall's measures in metres.
    pub scale_text: bool,
}

/// Radius of the dot at a grab point, in screen pixels: larger for the wall
/// that the pointer has hold of.
pub open spec fn handle_radius(highlight: bool) -> u32 {
    if highlight {
        10
    } else {
        5
    }
}

/// Radius of the dot at a grab point.
pub fn gizmo_handle_radius(highlight: bool) -> (radius: u32)
    ensures
        radius == handle_radius(highlight),
{
    if highlight {
        10
    } else {
        5
    }
}

/// What the tool shows on a wall: the resize tool its handles and its
/// measures, the move tool its handle, the draw tool its measures, any other
/// tool nothing.
pub fn gizmo_plan(tool_type: &ToolType) -> (plan: GizmoPlan)
    ensures
        plan.handles == (*tool_type == ToolType::ResizeWall || *tool_type == ToolType::MoveWall),
        plan.scale_text == (*tool_type == ToolType::ResizeWall || *tool_type
            == ToolType::DrawWall),
{
    match tool_type {
        ToolType::ResizeWall => GizmoPlan { handles: true, scale_text: true },
        ToolType::MoveWall => GizmoPlan { handles: true, scale_text: false },
        ToolType::DrawWall => GizmoPlan { handles: false, scale_text: true },
        _ => GizmoPlan { handles: false, scale_text: false },
    }
}

/// The tool shows grab points on walls.
pub open spec fn shows_handles(tool_type: ToolType) -> bool {
    tool_type == ToolType::ResizeWall || tool_type == ToolType::MoveWall
}

/// A thing with grab points that a tool can take hold of.
pub trait GizmoComponent {
    /// The grab points that the tool shows, in the order in which they are
    /// drawn.
    spec fn gizmo_points(&self, tool_type: ToolType) -> Seq<Point>;

    fn get_gizmo_positions(&self, tool_type: &ToolType) -> (positions: Vec<Point>)
        requires
            shows_handles(*tool_type),
        ensures
            positions@ == self.gizmo_points(*tool_type),
    ;
}

impl GizmoComponent for RectWall {
    /// The resize tool shows the four corners: top left, top right, bottom
    /// left, bottom right. The move tool shows the center.
    open spec fn gizmo_points(&self, tool_type: ToolType) -> Seq<Point> {
        if tool_type == ToolType::ResizeWall {
            seq![
                self.rect.min,
                Point { x: self.rect.max.x, y: self.rect.min.y },
                Point { x: self.rect.min.x, y: self.rect.max.y },
                self.rect.max,
            ]
        } else {
            seq![self.center_point()]
        }
    }

    fn get_gizmo_positions(&self, tool_type: &ToolType) -> (positions: Vec<Point>) {
        match tool_type {
            ToolType::ResizeWall => {
                let top_left = Point { x: self.rect.min.x, y: self.rect.min.y };
                let top_right = Point { x: self.rect.max.x, y: self.rect.min.y };
                let bottom_left = Point { x: self.rect.min.x, y: self.rect.max.y };
                let bottom_right = Point { x: self.rect.max.x, y: self.rect.max.y };
                let positions = vec![top_left, top_right, bottom_left, bottom_right];
                assert(positions@ =~= self.gizmo_points(*tool_type));
                positions
            },
            _ => {
                let positions = vec![self.get_center()];
                assert(positions@ =~= self.gizmo_points(*tool_type));
                positions
            },
        }
    }
}

impl GizmoComponent for CircWall {
    /// The resize tool shows the radius handle, the move tool the center.
    open spec fn gizmo_points(&self, tool_type: ToolType) -> Seq<Point> {
        if tool_type == ToolType::ResizeWall {
            seq![self.handle_point(WResize::Radius)]
        } else {
            seq![self.center]
        }
    }

    fn get_gizmo_positions(&self, tool_type: &ToolType) -> (positions: Vec<Point>) {
        match tool_type {
            ToolType::ResizeWall => {
                let positions = vec![self.get_resize_point(&WResize::Radius)];
                assert(positions@ =~= self.gizmo_points(*tool_type));
                positions
            },
            _ => {
                let positions = vec![self.center];
                assert(positions@ =~= self.gizmo_points(*tool_type));
                positions
            },
        }
    }
}

} // verus!
