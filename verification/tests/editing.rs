use wavefront::components::microphone::Microphone;
use wavefront::components::source::{Source, SourceType};
use wavefront::components::wall::{CircWall, RectWall, WResize, FULL_REFLECTION};
use wavefront::input::systems::{
    drag_kind, drag_moving, drag_resizing, first_circ_handle_at, press, rect_handles_at, DragKind,
    Pressed, Selection, WallBrush,
};
use wavefront::math::rect::Point;
use wavefront::simulation::ids::ComponentIDs;
use wavefront::ui::state::{ToolType, WallType};

struct World {
    sources: Vec<Source>,
    mics: Vec<Microphone>,
    rects: Vec<RectWall>,
    circs: Vec<CircWall>,
    ids: ComponentIDs,
}

fn world() -> World {
    World {
        sources: vec![
            Source::new(100, 100, 0, 0, 0, SourceType::Sin, 0),
            Source::new(105, 105, 0, 0, 0, SourceType::Sin, 1),
        ],
        mics: vec![Microphone::new(300, 300, 0)],
        rects: vec![
            RectWall::new(400, 400, 500, 500, false, FULL_REFLECTION, 0),
            RectWall::new(490, 490, 600, 600, false, FULL_REFLECTION, 1),
        ],
        circs: vec![
            CircWall::new(200, 200, 50, false, FULL_REFLECTION, 2),
            CircWall::new(200, 210, 40, false, FULL_REFLECTION, 3),
        ],
        ids: ComponentIDs { current_source_id: 2, current_wall_id: 4, current_mic_id: 1 },
    }
}

fn brush(wall_type: WallType) -> WallBrush {
    WallBrush { wall_type, is_hollow: true, reflection_factor: 0.5f32.to_bits() }
}

fn pressed(
    w: &mut World,
    tool: ToolType,
    wall_type: WallType,
    on_image: Option<(u32, u32)>,
    nearest: Option<(u32, u32)>,
) -> Pressed {
    press(
        tool,
        &brush(wall_type),
        on_image,
        nearest,
        &w.sources,
        &w.mics,
        &w.rects,
        &w.circs,
        &mut w.ids,
    )
}

fn corners(wall: &RectWall) -> (u32, u32, u32, u32) {
    (wall.rect.min.x, wall.rect.min.y, wall.rect.max.x, wall.rect.max.y)
}

#[test]
fn press_places_a_source_under_the_pointer() {
    let mut w = world();
    match pressed(&mut w, ToolType::PlaceSource, WallType::Rectangle, Some((7, 8)), Some((9, 9))) {
        Pressed::SpawnSource(source) => {
            assert_eq!((source.x, source.y, source.id), (7, 8, 2));
            assert_eq!(source.source_type, SourceType::Sin);
            assert_eq!(f32::from_bits(source.amplitude), 10.0);
        }
        other => panic!("{:?}", other),
    }
    assert_eq!(w.ids, ComponentIDs { current_source_id: 3, current_wall_id: 4, current_mic_id: 1 });
}

#[test]
fn press_off_the_image_places_nothing() {
    let mut w = world();
    let before = w.ids;
    assert!(matches!(
        pressed(&mut w, ToolType::PlaceSource, WallType::Rectangle, None, Some((9, 9))),
        Pressed::Nothing
    ));
    assert!(matches!(
        pressed(&mut w, ToolType::PlaceMic, WallType::Rectangle, None, Some((9, 9))),
        Pressed::Nothing
    ));
    assert!(matches!(
        pressed(&mut w, ToolType::DrawWall, WallType::Circle, Some((9, 9)), None),
        Pressed::Nothing
    ));
    assert_eq!(w.ids, before);
}

#[test]
fn press_places_a_microphone_under_the_pointer() {
    let mut w = world();
    match pressed(&mut w, ToolType::PlaceMic, WallType::Rectangle, Some((7, 8)), None) {
        Pressed::SpawnMic(mic) => {
            assert_eq!((mic.x, mic.y, mic.id), (7, 8, 1));
            assert!(mic.record.is_empty());
        }
        other => panic!("{:?}", other),
    }
    assert_eq!(w.ids.current_mic_id, 2);
}

#[test]
fn press_starts_a_wall_on_the_nearest_cell() {
    let mut w = world();
    match pressed(&mut w, ToolType::DrawWall, WallType::Rectangle, None, Some((7, 8))) {
        Pressed::SpawnRectWall(wall, handle) => {
            assert_eq!(handle, WResize::Draw);
            assert_eq!(corners(&wall), (7, 8, 7, 8));
            assert_eq!(wall.draw_pin, Point { x: 7, y: 8 });
            assert!(wall.is_hollow);
            assert_eq!(wall.reflection_factor, 0.5f32.to_bits());
            assert_eq!(wall.id, 4);
        }
        other => panic!("{:?}", other),
    }
    match pressed(&mut w, ToolType::DrawWall, WallType::Circle, None, Some((7, 8))) {
        Pressed::SpawnCircWall(wall, handle) => {
            assert_eq!(handle, WResize::Radius);
            assert_eq!(wall, CircWall::new(7, 8, 0, true, 0.5f32.to_bits(), 5));
        }
        other => panic!("{:?}", other),
    }
    assert_eq!(w.ids.current_wall_id, 6);
}

#[test]
fn press_takes_hold_of_the_first_thing_in_reach() {
    let mut w = world();
    let before = w.ids;
    assert!(matches!(
        pressed(&mut w, ToolType::MoveSource, WallType::Rectangle, None, Some((104, 104))),
        Pressed::Move(Selection::Source(0))
    ));
    assert!(matches!(
        pressed(&mut w, ToolType::MoveSource, WallType::Rectangle, None, Some((112, 112))),
        Pressed::Move(Selection::Source(1))
    ));
    assert!(matches!(
        pressed(&mut w, ToolType::MoveSource, WallType::Rectangle, None, Some((300, 300))),
        Pressed::Nothing
    ));
    assert!(matches!(
        pressed(&mut w, ToolType::MoveMic, WallType::Rectangle, None, Some((300, 300))),
        Pressed::Move(Selection::Mic(0))
    ));
    assert!(matches!(
        pressed(&mut w, ToolType::MoveMic, WallType::Rectangle, Some((300, 300)), None),
        Pressed::Nothing
    ));
    assert!(matches!(
        pressed(&mut w, ToolType::MoveWall, WallType::Rectangle, Some((455, 455)), None),
        Pressed::Move(Selection::RectWall(0))
    ));
    assert!(matches!(
        pressed(&mut w, ToolType::MoveWall, WallType::Rectangle, Some((545, 545)), None),
        Pressed::Move(Selection::RectWall(1))
    ));
    assert!(matches!(
        pressed(&mut w, ToolType::MoveWall, WallType::Rectangle, Some((205, 205)), None),
        Pressed::Move(Selection::CircWall(0))
    ));
    assert!(matches!(
        pressed(&mut w, ToolType::MoveWall, WallType::Rectangle, Some((205, 215)), None),
        Pressed::Move(Selection::CircWall(1))
    ));
    assert!(matches!(
        pressed(&mut w, ToolType::MoveWall, WallType::Rectangle, Some((5, 5)), None),
        Pressed::Nothing
    ));
    assert_eq!(w.ids, before);
}

#[test]
fn press_of_the_resize_tool_takes_every_corner_in_reach() {
    let mut w = world();
    match pressed(&mut w, ToolType::ResizeWall, WallType::Rectangle, None, Some((495, 495))) {
        Pressed::Resize(rects, circ) => {
            assert_eq!(rects, vec![(0, WResize::BottomRight), (1, WResize::TopLeft)]);
            assert_eq!(circ, None);
        }
        other => panic!("{:?}", other),
    }
    match pressed(&mut w, ToolType::ResizeWall, WallType::Rectangle, None, Some((200, 250))) {
        Pressed::Resize(rects, circ) => {
            assert!(rects.is_empty());
            assert_eq!(circ, Some(0));
        }
        other => panic!("{:?}", other),
    }
    assert_eq!(rect_handles_at(&w.rects, 400, 400), vec![(0, WResize::TopLeft)]);
    assert_eq!(first_circ_handle_at(&w.circs, 200, 255), Some(0));
    assert_eq!(first_circ_handle_at(&w.circs, 200, 261), None);
    assert!(matches!(
        pressed(&mut w, ToolType::ResizeWall, WallType::Rectangle, Some((495, 495)), None),
        Pressed::Nothing
    ));
}

#[test]
fn drag_kind_by_tool() {
    assert_eq!(drag_kind(ToolType::MoveSource), DragKind::Moves);
    assert_eq!(drag_kind(ToolType::MoveMic), DragKind::Moves);
    assert_eq!(drag_kind(ToolType::MoveWall), DragKind::Moves);
    assert_eq!(drag_kind(ToolType::DrawWall), DragKind::Resizes);
    assert_eq!(drag_kind(ToolType::ResizeWall), DragKind::Resizes);
    assert_eq!(drag_kind(ToolType::PlaceSource), DragKind::Rests);
    assert_eq!(drag_kind(ToolType::PlaceMic), DragKind::Rests);
}

#[test]
fn drag_moves_everything_that_is_held() {
    let mut w = world();
    w.mics[0].record(1.0f64.to_bits(), 2.0f64.to_bits());
    let history = w.mics[0].record.clone();
    drag_moving(&mut w.sources, &mut w.mics, &mut w.rects, &mut w.circs, 123, 5000, false);
    assert_eq!((w.sources[0].x, w.sources[0].y, w.sources[0].id), (123, 699, 0));
    assert_eq!((w.sources[1].x, w.sources[1].y, w.sources[1].id), (123, 699, 1));
    assert_eq!((w.mics[0].x, w.mics[0].y), (123, 699));
    assert_eq!(w.mics[0].record, history);
    assert_eq!(corners(&w.rects[0]), (73, 599, 173, 699));
    assert_eq!(corners(&w.rects[1]), (68, 589, 178, 699));
    assert_eq!(w.circs[0], CircWall::new(123, 5000, 50, false, FULL_REFLECTION, 2));
    assert_eq!(w.circs[1], CircWall::new(123, 5000, 40, false, FULL_REFLECTION, 3));
}

#[test]
fn drag_with_snap_puts_moved_walls_on_tens() {
    let mut sources = Vec::new();
    let mut mics = Vec::new();
    let mut rects = vec![RectWall::new(13, 27, 48, 61, false, FULL_REFLECTION, 0)];
    let mut circs = Vec::new();
    drag_moving(&mut sources, &mut mics, &mut rects, &mut circs, 133, 147, true);
    assert_eq!(corners(&rects[0]), (120, 130, 150, 160));
}

#[test]
fn drag_resizes_every_wall_by_its_handle() {
    let mut rects = vec![
        (WResize::BottomRight, RectWall::new(10, 10, 20, 20, false, FULL_REFLECTION, 0)),
        (WResize::TopLeft, RectWall::new(100, 100, 200, 200, false, FULL_REFLECTION, 1)),
        (WResize::Draw, RectWall::new(50, 50, 50, 50, false, FULL_REFLECTION, 2)),
        (WResize::Menu, RectWall::new(1, 2, 3, 4, false, FULL_REFLECTION, 3)),
    ];
    let mut circs = vec![
        (WResize::Radius, CircWall::new(33, 40, 0, false, FULL_REFLECTION, 4)),
        (WResize::Menu, CircWall::new(33, 40, 7, false, FULL_REFLECTION, 5)),
    ];
    drag_resizing(&mut rects, &mut circs, 30, 44, false);
    assert_eq!(corners(&rects[0].1), (10, 10, 30, 44));
    assert_eq!(corners(&rects[1].1), (30, 44, 200, 200));
    assert_eq!(corners(&rects[2].1), (30, 44, 50, 50));
    assert_eq!(corners(&rects[3].1), (1, 2, 3, 4));
    assert_eq!(rects[0].0, WResize::BottomRight);
    assert_eq!(rects[3].0, WResize::Menu);
    assert_eq!(circs[0].1.radius, 5);
    assert_eq!(circs[1].1.radius, 7);
    assert_eq!(circs[0].0, WResize::Radius);
}

#[test]
fn drag_with_snap_puts_resized_walls_on_tens() {
    let mut rects =
        vec![(WResize::BottomRight, RectWall::new(13, 13, 20, 20, false, FULL_REFLECTION, 0))];
    let mut circs = Vec::new();
    drag_resizing(&mut rects, &mut circs, 48, 61, true);
    assert_eq!(corners(&rects[0].1), (10, 10, 49, 59));
}

#[test]
fn defaults_are_at_the_first_cell() {
    let mic = Microphone::default();
    assert_eq!((mic.x, mic.y, mic.id), (0, 0, 0));
    assert!(mic.record.is_empty());
    assert_eq!(Source::default(), Source::new(0, 0, 0, 0, 0, SourceType::Sin, 0));
}
