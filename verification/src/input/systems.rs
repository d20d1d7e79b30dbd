use vstd::prelude::*;

use crate::components::microphone::Microphone;
use crate::components::shape::WallShape;
use crate::components::source::{Source, SourceType};
use crate::components::wall::{CircWall, RectWall, WResize, Wall};
use crate::math::constants::{E_AL, SIMULATION_HEIGHT, SIMULATION_WIDTH};
use crate::math::rect::Point;
use crate::math::transformations::clamp_to_axis;
use crate::simulation::ids::ComponentIDs;
use crate::ui::state::{ToolType, WallType};

verus! {

/// How far from a grab point, along either axis, a click still grabs it.
pub const GRAB_RANGE: u32 = 10;

/// How far a pasted copy is moved away from what was copied, along both axes.
pub const PASTE_OFFSET: u32 = 5;

/// A click on `(x, y)` grabs the point.
pub open spec fn in_grab_range(point: Point, x: u32, y: u32) -> bool {
    &&& -GRAB_RANGE <= point.x - x <= GRAB_RANGE
    &&& -GRAB_RANGE <= point.y - y <= GRAB_RANGE
}

/// Whether a click on `(x, y)` grabs the point.
pub fn grabs(point: Point, x: u32, y: u32) -> (grabbed: bool)
    ensures
        grabbed == in_grab_range(point, x, y),
{
    let dx: u32 = if point.x >= x { point.x - x } else { x - point.x };
    let dy: u32 = if point.y >= y { point.y - y } else { y - point.y };
    dx <= GRAB_RANGE && dy <= GRAB_RANGE
}

/// `found` is the first of `len` grab points that the click grabs, or none
/// where it grabs none of them.
pub open spec fn is_first_grabbed(
    len: int,
    point: spec_fn(int) -> Point,
    x: u32,
    y: u32,
    found: Option<usize>,
) -> bool {
    match found {
        Some(i) => {
            &&& i < len
            &&& in_grab_range(point(i as int), x, y)
            &&& forall|j: int| 0 <= j < i ==> !in_grab_range(#[trigger] point(j), x, y)
        },
        None => forall|j: int| 0 <= j < len ==> !in_grab_range(#[trigger] point(j), x, y),
    }
}

/// The first source that a click on `(x, y)` grabs.
pub fn first_source_at(sources: &Vec<Source>, x: u32, y: u32) -> (found: Option<usize>)
    ensures
        is_first_grabbed(
            sources@.len() as int,
            |i: int| Point { x: sources@[i].x, y: sources@[i].y },
            x,
            y,
            found,
        ),
{
    let ghost point = |i: int| Point { x: sources@[i].x, y: sources@[i].y };
    let mut i: usize = 0;
    while i < sources.len()
        invariant
            i <= sources.len(),
            point == (|i: int| Point { x: sources@[i].x, y: sources@[i].y }),
            forall|j: int| 0 <= j < i ==> !in_grab_range(#[trigger] point(j), x, y),
        decreases sources.len() - i,
    {
        if grabs(Point { x: sources[i].x, y: sources[i].y }, x, y) {
            return Some(i);
        }
        i += 1;
    }
    None
}

/// The first microphone that a click on `(x, y)` grabs.
pub fn first_mic_at(mics: &Vec<Microphone>, x: u32, y: u32) -> (found: Option<usize>)
    ensures
        is_first_grabbed(
            mics@.len() as int,
            |i: int| Point { x: mics@[i].x, y: mics@[i].y },
            x,
            y,
            found,
        ),
{
    let ghost point = |i: int| Point { x: mics@[i].x, y: mics@[i].y };
    let mut i: usize = 0;
    while i < mics.len()
        invariant
            i <= mics.len(),
            point == (|i: int| Point { x: mics@[i].x, y: mics@[i].y }),
            forall|j: int| 0 <= j < i ==> !in_grab_range(#[trigger] point(j), x, y),
        decreases mics.len() - i,
    {
        if grabs(Point { x: mics[i].x, y: mics[i].y }, x, y) {
            return Some(i);
        }
        i += 1;
    }
    None
}

/// The first rectangular wall whose center a click on `(x, y)` grabs.
pub fn first_rect_wall_at(walls: &Vec<RectWall>, x: u32, y: u32) -> (found: Option<usize>)
    ensures
        is_first_grabbed(walls@.len() as int, |i: int| walls@[i].center_point(), x, y, found),
{
    let ghost point = |i: int| walls@[i].center_point();
    let mut i: usize = 0;
    while i < walls.len()
        invariant
            i <= walls.len(),
            point == (|i: int| walls@[i].center_point()),
            forall|j: int| 0 <= j < i ==> !in_grab_range(#[trigger] point(j), x, y),
        decreases walls.len() - i,
    {
        if grabs(walls[i].get_center(), x, y) {
            return Some(i);
        }
        i += 1;
    }
    None
}

/// The first circular wall whose center a click on `(x, y)` grabs.
pub fn first_circ_wall_at(walls: &Vec<CircWall>, x: u32, y: u32) -> (found: Option<usize>)
    ensures
        is_first_grabbed(walls@.len() as int, |i: int| walls@[i].center_point(), x, y, found),
{
    let ghost point = |i: int| walls@[i].center_point();
    let mut i: usize = 0;
    while i < walls.len()
        invariant
            i <= walls.len(),
            point == (|i: int| walls@[i].center_point()),
            forall|j: int| 0 <= j < i ==> !in_grab_range(#[trigger] point(j), x, y),
        decreases walls.len() - i,
    {
        if grabs(walls[i].get_center(), x, y) {
            return Some(i);
        }
        i += 1;
    }
    None
}

/// What a click of the selection tool picks, by its index in its list.
#[derive(Debug, Clone, Copy, PartialEq, Eq, Structural)]
pub enum Selection {
    Source(usize),
    Mic(usize),
    RectWall(usize),
    CircWall(usize),
}

/// The one thing that a click of the selection tool on `(x, y)` selects:
/// the first source in reach; without one the first microphone; without one
/// the first rectangular wall; without one the first circular wall.
pub fn select_at(
    sources: &Vec<Source>,
    mics: &Vec<Microphone>,
    rect_walls: &Vec<RectWall>,
    circ_walls: &Vec<CircWall>,
    x: u32,
    y: u32,
) -> (selected: Option<Selection>)
    ensures
        ({
            let source_point = |i: int| Point { x: sources@[i].x, y: sources@[i].y };
            let mic_point = |i: int| Point { x: mics@[i].x, y: mics@[i].y };
            let rect_point = |i: int| rect_walls@[i].center_point();
            let circ_point = |i: int| circ_walls@[i].center_point();
            let no_source = is_first_grabbed(sources@.len() as int, source_point, x, y, None);
            let no_mic = is_first_grabbed(mics@.len() as int, mic_point, x, y, None);
            let no_rect = is_first_grabbed(rect_walls@.len() as int, rect_point, x, y, None);
            let no_circ = is_first_grabbed(circ_walls@.len() as int, circ_point, x, y, None);
            match selected {
                Some(Selection::Source(i)) => is_first_grabbed(
                    sources@.len() as int,
                    source_point,
                    x,
                    y,
                    Some(i),
                ),
                Some(Selection::Mic(i)) => no_source && is_first_grabbed(
                    mics@.len() as int,
                    mic_point,
                    x,
                    y,
                    Some(i),
                ),
                Some(Selection::RectWall(i)) => no_source && no_mic && is_first_grabbed(
                    rect_walls@.len() as int,
                    rect_point,
                    x,
                    y,
                    Some(i),
                ),
                Some(Selection::CircWall(i)) => no_source && no_mic && no_rect && is_first_grabbed(
                    circ_walls@.len() as int,
                    circ_point,
                    x,
                    y,
                    Some(i),
                ),
                None => no_source && no_mic && no_rect && no_circ,
            }
        }),
{
    match first_source_at(sources, x, y) {
        Some(i) => {
            return Some(Selection::Source(i));
        },
        None => {},
    }
    match first_mic_at(mics, x, y) {
        Some(i) => {
            return Some(Selection::Mic(i));
        },
        None => {},
    }
    match first_rect_wall_at(rect_walls, x, y) {
        Some(i) => {
            return Some(Selection::RectWall(i));
        },
        None => {},
    }
    match first_circ_wall_at(circ_walls, x, y) {
        Some(i) => Some(Selection::CircWall(i)),
        None => None,
    }
}

/// The corner handle of the rectangle that a click on `(x, y)` grabs: the
/// first in the order top left, top right, bottom left, bottom right.
pub open spec fn grabbed_corner(wall: RectWall, x: u32, y: u32) -> Option<WResize> {
    if in_grab_range(wall.handle_point(WResize::TopLeft), x, y) {
        Some(WResize::TopLeft)
    } else if in_grab_range(wall.handle_point(WResize::TopRight), x, y) {
        Some(WResize::TopRight)
    } else if in_grab_range(wall.handle_point(WResize::BottomLeft), x, y) {
        Some(WResize::BottomLeft)
    } else if in_grab_range(wall.handle_point(WResize::BottomRight), x, y) {
        Some(WResize::BottomRight)
    } else {
        None
    }
}

/// The handle by which a click of the resize tool on `(x, y)` takes hold of
/// the rectangle, if it does.
pub fn rect_handle_at(wall: &RectWall, x: u32, y: u32) -> (handle: Option<WResize>)
    ensures
        handle == grabbed_corner(*wall, x, y),
{
    if grabs(wall.get_resize_point(&WResize::TopLeft), x, y) {
        Some(WResize::TopLeft)
    } else if grabs(wall.get_resize_point(&WResize::TopRight), x, y) {
        Some(WResize::TopRight)
    } else if grabs(wall.get_resize_point(&WResize::BottomLeft), x, y) {
        Some(WResize::BottomLeft)
    } else if grabs(wall.get_resize_point(&WResize::BottomRight), x, y) {
        Some(WResize::BottomRight)
    } else {
        None
    }
}

/// The handle by which a click of the resize tool on `(x, y)` takes hold of
/// the circle: its radius handle, if the click is in reach of it.
pub fn circ_handle_at(wall: &CircWall, x: u32, y: u32) -> (handle: Option<WResize>)
    ensures
        handle == (if in_grab_range(wall.handle_point(WResize::Radius), x, y) {
            Some(WResize::Radius)
        } else {
            None
        }),
{
    if grabs(wall.get_resize_point(&WResize::Radius), x, y) {
        Some(WResize::Radius)
    } else {
        None
    }
}

/// The multiple of ten nearest to `v`; halfway between two, the larger.
pub open spec fn nearest_ten(v: u32) -> int {
    (v + 5) / 10 * 10
}

/// The multiple of ten nearest to `v`, or the largest coordinate where the
/// multiple would be larger than that.
pub fn snap_to_ten(v: u32) -> (snapped: u32)
    ensures
        snapped == vstd::math::min(nearest_ten(v), u32::MAX as int),
        v <= u32::MAX - 5 ==> snapped % 10 == 0 && v - 5 < snapped <= v + 5,
{
    let snapped: u64 = (v as u64 + 5) / 10 * 10;
    if snapped > u32::MAX as u64 {
        u32::MAX
    } else {
        snapped as u32
    }
}

/// The rectangle with its corners snapped to multiples of ten, as happens
/// while the snap key is held. The corners are dragged one after the other,
/// top left first, by the rules of `resize`. With `inclusive`, the right and
/// the bottom border are put one cell before the multiple of ten, so that the
/// next wall can start on it.
pub open spec fn snapped(wall: RectWall, inclusive: bool) -> RectWall {
    let back: int = if inclusive { 1 } else { 0 };
    let left = vstd::math::min(nearest_ten(wall.rect.min.x), u32::MAX as int) as u32;
    let top = vstd::math::min(nearest_ten(wall.rect.min.y), u32::MAX as int) as u32;
    let right = vstd::math::max(
        vstd::math::min(nearest_ten(wall.rect.max.x), u32::MAX as int) - back,
        0,
    ) as u32;
    let bottom = vstd::math::max(
        vstd::math::min(nearest_ten(wall.rect.max.y), u32::MAX as int) - back,
        0,
    ) as u32;
    wall.resized(WResize::TopLeft, left, top).resized(WResize::TopRight, right, top).resized(
        WResize::BottomLeft,
        left,
        bottom,
    ).resized(WResize::BottomRight, right, bottom)
}

/// Snaps the corners of the rectangle to multiples of ten.
pub fn snap_rect_wall(wall: &mut RectWall, inclusive: bool)
    requires
        old(wall).wf(),
    ensures
        final(wall).wf(),
        *final(wall) == snapped(*old(wall), inclusive),
{
    let back: u32 = if inclusive { 1 } else { 0 };
    let left = snap_to_ten(wall.rect.min.x);
    let top = snap_to_ten(wall.rect.min.y);
    let right = snap_to_ten(wall.rect.max.x).saturating_sub(back);
    let bottom = snap_to_ten(wall.rect.max.y).saturating_sub(back);
    wall.resize(&WResize::TopLeft, left, top);
    wall.resize(&WResize::TopRight, right, top);
    wall.resize(&WResize::BottomLeft, left, bottom);
    wall.resize(&WResize::BottomRight, right, bottom);
}

/// The copy that pasting makes of a source: the same source under a new
/// number.
pub fn paste_source(source: &Source, ids: &mut ComponentIDs) -> (pasted: Source)
    requires
        old(ids).current_source_id < usize::MAX,
    ensures
        pasted == (Source { id: old(ids).current_source_id, ..*source }),
        *final(ids) == (ComponentIDs {
            current_source_id: (old(ids).current_source_id + 1) as usize,
            ..*old(ids)
        }),
{
    let mut pasted = *source;
    pasted.id = ids.get_new_source_id();
    pasted
}

/// The copy that pasting makes of a microphone: the same microphone with
/// the same history under a new number.
pub fn paste_mic(mic: &Microphone, ids: &mut ComponentIDs) -> (pasted: Microphone)
    requires
        old(ids).current_mic_id < usize::MAX,
    ensures
        pasted.x == mic.x,
        pasted.y == mic.y,
        pasted.record@ == mic.record@,
        pasted.id == old(ids).current_mic_id,
        *final(ids) == (ComponentIDs {
            current_mic_id: (old(ids).current_mic_id + 1) as usize,
            ..*old(ids)
        }),
{
    let id = ids.get_new_mic_id();
    mic.duplicate(id)
}

/// The copy that pasting makes of a rectangular wall: the same wall under a
/// new number, moved by the paste offset as far as the addressable area
/// lets it.
pub fn paste_rect_wall(wall: &RectWall, ids: &mut ComponentIDs) -> (pasted: RectWall)
    requires
        wall.wf(),
        old(ids).current_wall_id < usize::MAX,
    ensures
        pasted.wf(),
        pasted == (RectWall { id: old(ids).current_wall_id, ..*wall }).moved_to(
            (wall.center_point().x + PASTE_OFFSET) as u32,
            (wall.center_point().y + PASTE_OFFSET) as u32,
        ),
        *final(ids) == (ComponentIDs {
            current_wall_id: (old(ids).current_wall_id + 1) as usize,
            ..*old(ids)
        }),
{
    let mut pasted = *wall;
    pasted.id = ids.get_new_wall_id();
    let center = pasted.get_center();
    pasted.set_center(center.x + PASTE_OFFSET, center.y + PASTE_OFFSET);
    pasted
}

/// The copy that pasting makes of a circular wall: the same wall under a new
/// number, moved by the paste offset, and no further than the largest
/// coordinate.
pub fn paste_circ_wall(wall: &CircWall, ids: &mut ComponentIDs) -> (pasted: CircWall)
    requires
        old(ids).current_wall_id < usize::MAX,
    ensures
        pasted == (CircWall {
            id: old(ids).current_wall_id,
            center: Point {
                x: vstd::math::min(wall.center.x + PASTE_OFFSET, u32::MAX as int) as u32,
                y: vstd::math::min(wall.center.y + PASTE_OFFSET, u32::MAX as int) as u32,
            },
            ..*wall
        }),
        *final(ids) == (ComponentIDs {
            current_wall_id: (old(ids).current_wall_id + 1) as usize,
            ..*old(ids)
        }),
{
    let mut pasted = *wall;
    pasted.id = ids.get_new_wall_id();
    let center = pasted.get_center();
    pasted.set_center(
        center.x.saturating_add(PASTE_OFFSET),
        center.y.saturating_add(PASTE_OFFSET),
    );
    pasted
}

/// Amplitude of a new source: the bit pattern of ten.
pub const DEFAULT_AMPLITUDE: u32 = 0x4120_0000;

/// Phase of a new source: the bit pattern of zero degrees.
pub const DEFAULT_PHASE: u32 = 0;

/// Frequency of a new source: the bit pattern of ten thousand hertz.
pub const DEFAULT_FREQUENCY: u32 = 0x461C_4000;

/// The source that the place tool puts on `(x, y)`: a sine of the default
/// amplitude, phase and frequency under the next free number.
pub fn place_source(x: u32, y: u32, ids: &mut ComponentIDs) -> (source: Source)
    requires
        old(ids).current_source_id < usize::MAX,
    ensures
        source.wf(),
        source == (Source {
            x: clamp_to_axis(x, SIMULATION_WIDTH),
            y: clamp_to_axis(y, SIMULATION_HEIGHT),
            phase: DEFAULT_PHASE,
            frequency: DEFAULT_FREQUENCY,
            amplitude: DEFAULT_AMPLITUDE,
            source_type: SourceType::Sin,
            id: old(ids).current_source_id,
        }),
        *final(ids) == (ComponentIDs {
            current_source_id: (old(ids).current_source_id + 1) as usize,
            ..*old(ids)
        }),
{
    let id = ids.get_new_source_id();
    Source::new(x, y, DEFAULT_AMPLITUDE, DEFAULT_PHASE, DEFAULT_FREQUENCY, SourceType::Sin, id)
}

/// The microphone that the place tool puts on `(x, y)`, under the next free
/// number.
pub fn place_mic(x: u32, y: u32, ids: &mut ComponentIDs) -> (mic: Microphone)
    requires
        old(ids).current_mic_id < usize::MAX,
    ensures
        mic.wf(),
        mic.x == clamp_to_axis(x, SIMULATION_WIDTH),
        mic.y == clamp_to_axis(y, SIMULATION_HEIGHT),
        mic.id == old(ids).current_mic_id,
        mic.record@.len() == 0,
        *final(ids) == (ComponentIDs {
            current_mic_id: (old(ids).current_mic_id + 1) as usize,
            ..*old(ids)
        }),
{
    let id = ids.get_new_mic_id();
    Microphone::new(x, y, id)
}

/// What the place tool starts on `(x, y)`: a rectangle of one cell, and the
/// handle by which the pointer goes on to draw it.
pub fn place_rect_wall(
    x: u32,
    y: u32,
    is_hollow: bool,
    reflection_factor: u32,
    ids: &mut ComponentIDs,
) -> (placed: (RectWall, WResize))
    requires
        old(ids).current_wall_id < usize::MAX,
    ensures
        placed.1 == WResize::Draw,
        placed.0.wf(),
        placed.0.deletable(),
        placed.0.rect.min == placed.0.draw_pin,
        placed.0.rect.max == placed.0.draw_pin,
        placed.0.draw_pin.x == clamp_to_axis(x, SIMULATION_WIDTH),
        placed.0.draw_pin.y == clamp_to_axis(y, SIMULATION_HEIGHT),
        placed.0.is_hollow == is_hollow,
        placed.0.reflection_factor == reflection_factor,
        placed.0.id == old(ids).current_wall_id,
        *final(ids) == (ComponentIDs {
            current_wall_id: (old(ids).current_wall_id + 1) as usize,
            ..*old(ids)
        }),
{
    let id = ids.get_new_wall_id();
    (RectWall::new(x, y, x, y, is_hollow, reflection_factor, id), WResize::Draw)
}

/// What the place tool starts on `(x, y)`: a circle of radius zero, and the
/// handle by which the pointer goes on to draw it.
pub fn place_circ_wall(
    x: u32,
    y: u32,
    is_hollow: bool,
    reflection_factor: u32,
    ids: &mut ComponentIDs,
) -> (placed: (CircWall, WResize))
    requires
        old(ids).current_wall_id < usize::MAX,
    ensures
        placed.1 == WResize::Radius,
        placed.0 == (CircWall {
            center: Point { x, y },
            radius: 0,
            is_hollow,
            reflection_factor,
            open_circ_segment: 0,
            rotation_angle: 0,
            id: old(ids).current_wall_id,
        }),
        *final(ids) == (ComponentIDs {
            current_wall_id: (old(ids).current_wall_id + 1) as usize,
            ..*old(ids)
        }),
{
    let id = ids.get_new_wall_id();
    (CircWall::new(x, y, 0, is_hollow, reflection_factor, id), WResize::Radius)
}

/// The sources that a new simulation starts with: one in the middle of the
/// default lattice and one a third of the way in, both sines of the default
/// amplitude, phase and frequency.
pub fn initial_sources(ids: &mut ComponentIDs) -> (sources: Vec<Source>)
    requires
        old(ids).current_source_id < usize::MAX - 1,
    ensures
        sources@ == seq![
            Source {
                x: ((SIMULATION_WIDTH + 2 * E_AL) / 2) as u32,
                y: ((SIMULATION_HEIGHT + 2 * E_AL) / 2) as u32,
                phase: DEFAULT_PHASE,
                frequency: DEFAULT_FREQUENCY,
                amplitude: DEFAULT_AMPLITUDE,
                source_type: SourceType::Sin,
                id: old(ids).current_source_id,
            },
            Source {
                x: ((SIMULATION_WIDTH + 2 * E_AL) / 3) as u32,
                y: ((SIMULATION_HEIGHT + 2 * E_AL) / 3) as u32,
                phase: DEFAULT_PHASE,
                frequency: DEFAULT_FREQUENCY,
                amplitude: DEFAULT_AMPLITUDE,
                source_type: SourceType::Sin,
                id: (old(ids).current_source_id + 1) as usize,
            },
        ],
        *final(ids) == (ComponentIDs {
            current_source_id: (old(ids).current_source_id + 2) as usize,
            ..*old(ids)
        }),
{
    let first = place_source(
        (SIMULATION_WIDTH + 2 * E_AL) / 2,
        (SIMULATION_HEIGHT + 2 * E_AL) / 2,
        ids,
    );
    let second = place_source(
        (SIMULATION_WIDTH + 2 * E_AL) / 3,
        (SIMULATION_HEIGHT + 2 * E_AL) / 3,
        ids,
    );
    let sources = vec![first, second];
    assert(sources@ =~= seq![first, second]);
    sources
}

/// The microphones that a new simulation starts with, at `(250, 250)`,
/// `(100, 100)` and `(650, 650)`.
pub fn initial_microphones(ids: &mut ComponentIDs) -> (mics: Vec<Microphone>)
    requires
        old(ids).current_mic_id < usize::MAX - 2,
    ensures
        mics@.len() == 3,
        mics@[0].x == 250 && mics@[0].y == 250,
        mics@[1].x == 100 && mics@[1].y == 100,
        mics@[2].x == 650 && mics@[2].y == 650,
        forall|i: int|
            0 <= i < 3 ==> (#[trigger] mics@[i]).id == old(ids).current_mic_id + i
                && mics@[i].record@.len() == 0,
        *final(ids) == (ComponentIDs {
            current_mic_id: (old(ids).current_mic_id + 3) as usize,
            ..*old(ids)
        }),
{
    let first = place_mic(250, 250, ids);
    let second = place_mic(100, 100, ids);
    let third = place_mic(650, 650, ids);
    vec![first, second, third]
}

/// The walls that are left when the pointer lets go: those that have not
/// collapsed, in their order.
pub open spec fn standing(walls: Seq<WallShape>) -> Seq<WallShape> {
    walls.filter(|wall: WallShape| !wall.deletable())
}

/// Removes the walls that have collapsed, as happens when the pointer lets
/// go of a wall, and gives one wall number back for each of them, as long as
/// there is one to give back.
pub fn remove_collapsed(walls: &mut Vec<WallShape>, ids: &mut ComponentIDs)
    ensures
        final(walls)@ == standing(old(walls)@),
        forall|i: int|
            0 <= i < final(walls)@.len() ==> !(#[trigger] final(walls)@[i]).deletable(),
        *final(ids) == (ComponentIDs {
            current_wall_id: vstd::math::max(
                old(ids).current_wall_id - (old(walls)@.len() - final(walls)@.len()),
                0,
            ) as usize,
            ..*old(ids)
        }),
{
    let ghost before = walls@;
    let ghost stands = |wall: WallShape| !wall.deletable();
    let mut kept: Vec<WallShape> = Vec::new();
    let mut i: usize = 0;
    while i < walls.len()
        invariant
            i <= walls.len(),
            walls@ == before,
            stands == (|wall: WallShape| !wall.deletable()),
            kept@ == before.take(i as int).filter(stands),
            kept@.len() <= i,
            forall|k: int| 0 <= k < kept@.len() ==> !(#[trigger] kept@[k]).deletable(),
            *ids == (ComponentIDs {
                current_wall_id: vstd::math::max(
                    old(ids).current_wall_id - (i - kept@.len()),
                    0,
                ) as usize,
                ..*old(ids)
            }),
        decreases walls.len() - i,
    {
        proof {
            reveal(Seq::filter);
            assert(before.take(i + 1).drop_last() == before.take(i as int));
            assert(before.take(i + 1).last() == before[i as int]);
        }
        if walls[i].is_deletable() {
            ids.decrement_wall_ids();
        } else {
            kept.push(walls[i]);
        }
        i += 1;
    }
    proof {
        assert(before.take(before.len() as int) == before);
    }
    *walls = kept;
}

/// What the wall tool draws with.
#[derive(Debug, Clone, Copy, PartialEq, Eq, Structural)]
pub struct WallBrush {
    pub wall_type: WallType,
    pub is_hollow: bool,
    pub reflection_factor: u32,
}

/// What a press of the pointer calls for. Things that exist are named by
/// their index in their list.
#[derive(Debug)]
pub enum Pressed {
    /// The pointer is off the image, or nothing is in reach.
    Nothing,
    /// A new source.
    SpawnSource(Source),
    /// A new microphone.
    SpawnMic(Microphone),
    /// A new rectangular wall, held by the given handle.
    SpawnRectWall(RectWall, WResize),
    /// A new circular wall, held by the given handle.
    SpawnCircWall(CircWall, WResize),
    /// The thing that is selected and moved from now on.
    Move(Selection),
    /// The walls that are resized from now on: rectangular walls with the
    /// corner that was grabbed, and at most one circular wall.
    Resize(Vec<(usize, WResize)>, Option<usize>),
}

/// The rectangular walls of which a click on `(x, y)` grabs a corner, each
/// with the corner that it grabs, in the order of the walls.
pub open spec fn held_corners(walls: Seq<RectWall>, x: u32, y: u32) -> Seq<(usize, WResize)>
    decreases walls.len(),
{
    if walls.len() == 0 {
        Seq::empty()
    } else {
        let before = held_corners(walls.drop_last(), x, y);
        match grabbed_corner(walls.last(), x, y) {
            Some(handle) => before.push(((walls.len() - 1) as usize, handle)),
            None => before,
        }
    }
}

/// The rectangular walls of which a click on `(x, y)` grabs a corner.
pub fn rect_handles_at(walls: &Vec<RectWall>, x: u32, y: u32) -> (held: Vec<(usize, WResize)>)
    ensures
        held@ == held_corners(walls@, x, y),
{
    let mut held: Vec<(usize, WResize)> = Vec::new();
    let mut i: usize = 0;
    while i < walls.len()
        invariant
            i <= walls.len(),
            held@ == held_corners(walls@.take(i as int), x, y),
        decreases walls.len() - i,
    {
        proof {
            assert(walls@.take(i + 1).drop_last() == walls@.take(i as int));
            assert(walls@.take(i + 1).last() == walls@[i as int]);
        }
        match rect_handle_at(&walls[i], x, y) {
            Some(handle) => {
                held.push((i, handle));
            },
            None => {},
        }
        i += 1;
    }
    proof {
        assert(walls@.take(walls@.len() as int) == walls@);
    }
    held
}

/// The first circular wall whose radius handle a click on `(x, y)` grabs.
pub fn first_circ_handle_at(walls: &Vec<CircWall>, x: u32, y: u32) -> (found: Option<usize>)
    ensures
        is_first_grabbed(
            walls@.len() as int,
            |i: int| walls@[i].handle_point(WResize::Radius),
            x,
            y,
            found,
        ),
{
    let ghost point = |i: int| walls@[i].handle_point(WResize::Radius);
    let mut i: usize = 0;
    while i < walls.len()
        invariant
            i <= walls.len(),
            point == (|i: int| walls@[i].handle_point(WResize::Radius)),
            forall|j: int| 0 <= j < i ==> !in_grab_range(#[trigger] point(j), x, y),
        decreases walls.len() - i,
    {
        if grabs(walls[i].get_resize_point(&WResize::Radius), x, y) {
            return Some(i);
        }
        i += 1;
    }
    None
}

/// `pressed` is what a press of the pointer calls for while `tool` is
/// active. `on_image` is the cell under the pointer, if the pointer is on
/// the image; `nearest` is the cell nearest to the pointer. `before` and
/// `after` are the counters before and after the press.
///
/// The place tools put a new thing on the cell under the pointer, the wall
/// tool starts a wall on the nearest cell. The move tools take hold of the
/// first thing of their kind in reach, rectangular walls before circular
/// ones. The resize tool takes hold of every rectangular wall of which a
/// corner is in reach, and of the first circular wall whose radius handle
/// is.
pub open spec fn press_calls_for(
    tool: ToolType,
    brush: WallBrush,
    on_image: Option<(u32, u32)>,
    nearest: Option<(u32, u32)>,
    sources: Seq<Source>,
    mics: Seq<Microphone>,
    rect_walls: Seq<RectWall>,
    circ_walls: Seq<CircWall>,
    before: ComponentIDs,
    after: ComponentIDs,
    pressed: Pressed,
) -> bool {
    let source_point = |i: int| Point { x: sources[i].x, y: sources[i].y };
    let mic_point = |i: int| Point { x: mics[i].x, y: mics[i].y };
    let rect_point = |i: int| rect_walls[i].center_point();
    let circ_point = |i: int| circ_walls[i].center_point();
    let circ_handle = |i: int| circ_walls[i].handle_point(WResize::Radius);
    match tool {
        ToolType::PlaceSource => match on_image {
            Some((x, y)) => {
                &&& pressed matches Pressed::SpawnSource(source)
                &&& source == (Source {
                    x: clamp_to_axis(x, SIMULATION_WIDTH),
                    y: clamp_to_axis(y, SIMULATION_HEIGHT),
                    phase: DEFAULT_PHASE,
                    frequency: DEFAULT_FREQUENCY,
                    amplitude: DEFAULT_AMPLITUDE,
                    source_type: SourceType::Sin,
                    id: before.current_source_id,
                })
                &&& after == (ComponentIDs {
                    current_source_id: (before.current_source_id + 1) as usize,
                    ..before
                })
            },
            None => pressed is Nothing && after == before,
        },
        ToolType::PlaceMic => match on_image {
            Some((x, y)) => {
                &&& pressed matches Pressed::SpawnMic(mic)
                &&& mic.x == clamp_to_axis(x, SIMULATION_WIDTH)
                &&& mic.y == clamp_to_axis(y, SIMULATION_HEIGHT)
                &&& mic.id == before.current_mic_id
                &&& mic.record@.len() == 0
                &&& after == (ComponentIDs {
                    current_mic_id: (before.current_mic_id + 1) as usize,
                    ..before
                })
            },
            None => pressed is Nothing && after == before,
        },
        ToolType::DrawWall => match nearest {
            Some((x, y)) => {
                &&& after == (ComponentIDs {
                    current_wall_id: (before.current_wall_id + 1) as usize,
                    ..before
                })
                &&& match brush.wall_type {
                    WallType::Rectangle => {
                        &&& pressed matches Pressed::SpawnRectWall(wall, handle)
                        &&& handle == WResize::Draw
                        &&& wall.wf()
                        &&& wall.draw_pin.x == clamp_to_axis(x, SIMULATION_WIDTH)
                        &&& wall.draw_pin.y == clamp_to_axis(y, SIMULATION_HEIGHT)
                        &&& wall.rect.min == wall.draw_pin
                        &&& wall.rect.max == wall.draw_pin
                        &&& wall.is_hollow == brush.is_hollow
                        &&& wall.reflection_factor == brush.reflection_factor
                        &&& wall.id == before.current_wall_id
                    },
                    WallType::Circle => {
                        &&& pressed matches Pressed::SpawnCircWall(wall, handle)
                        &&& handle == WResize::Radius
                        &&& wall == (CircWall {
                            center: Point { x, y },
                            radius: 0,
                            is_hollow: brush.is_hollow,
                            reflection_factor: brush.reflection_factor,
                            open_circ_segment: 0,
                            rotation_angle: 0,
                            id: before.current_wall_id,
                        })
                    },
                }
            },
            None => pressed is Nothing && after == before,
        },
        ToolType::MoveSource => after == before && match nearest {
            Some((x, y)) => match pressed {
                Pressed::Move(Selection::Source(i)) => is_first_grabbed(
                    sources.len() as int,
                    source_point,
                    x,
                    y,
                    Some(i),
                ),
                Pressed::Nothing => is_first_grabbed(
                    sources.len() as int,
                    source_point,
                    x,
                    y,
                    None,
                ),
                _ => false,
            },
            None => pressed is Nothing,
        },
        ToolType::MoveMic => after == before && match nearest {
            Some((x, y)) => match pressed {
                Pressed::Move(Selection::Mic(i)) => is_first_grabbed(
                    mics.len() as int,
                    mic_point,
                    x,
                    y,
                    Some(i),
                ),
                Pressed::Nothing => is_first_grabbed(mics.len() as int, mic_point, x, y, None),
                _ => false,
            },
            None => pressed is Nothing,
        },
        ToolType::MoveWall => after == before && match on_image {
            Some((x, y)) => match pressed {
                Pressed::Move(Selection::RectWall(i)) => is_first_grabbed(
                    rect_walls.len() as int,
                    rect_point,
                    x,
                    y,
                    Some(i),
                ),
                Pressed::Move(Selection::CircWall(i)) => is_first_grabbed(
                    rect_walls.len() as int,
                    rect_point,
                    x,
                    y,
                    None,
                ) && is_first_grabbed(circ_walls.len() as int, circ_point, x, y, Some(i)),
                Pressed::Nothing => is_first_grabbed(
                    rect_walls.len() as int,
                    rect_point,
                    x,
                    y,
                    None,
                ) && is_first_grabbed(circ_walls.len() as int, circ_point, x, y, None),
                _ => false,
            },
            None => pressed is Nothing,
        },
        ToolType::ResizeWall => after == before && match nearest {
            Some((x, y)) => {
                &&& pressed matches Pressed::Resize(rects, circ)
                &&& rects@ == held_corners(rect_walls, x, y)
                &&& is_first_grabbed(circ_walls.len() as int, circ_handle, x, y, circ)
            },
            None => pressed is Nothing,
        },
    }
}

/// What a press of the pointer calls for while `tool` is active.
pub fn press(
    tool: ToolType,
    brush: &WallBrush,
    on_image: Option<(u32, u32)>,
    nearest: Option<(u32, u32)>,
    sources: &Vec<Source>,
    mics: &Vec<Microphone>,
    rect_walls: &Vec<RectWall>,
    circ_walls: &Vec<CircWall>,
    ids: &mut ComponentIDs,
) -> (pressed: Pressed)
    requires
        old(ids).current_source_id < usize::MAX,
        old(ids).current_wall_id < usize::MAX,
        old(ids).current_mic_id < usize::MAX,
    ensures
        press_calls_for(
            tool,
            *brush,
            on_image,
            nearest,
            sources@,
            mics@,
            rect_walls@,
            circ_walls@,
            *old(ids),
            *final(ids),
            pressed,
        ),
{
    match tool {
        ToolType::PlaceSource => match on_image {
            Some((x, y)) => Pressed::SpawnSource(place_source(x, y, ids)),
            None => Pressed::Nothing,
        },
        ToolType::PlaceMic => match on_image {
            Some((x, y)) => Pressed::SpawnMic(place_mic(x, y, ids)),
            None => Pressed::Nothing,
        },
        ToolType::DrawWall => match nearest {
            Some((x, y)) => match brush.wall_type {
                WallType::Rectangle => {
                    let (wall, handle) = place_rect_wall(
                        x,
                        y,
                        brush.is_hollow,
                        brush.reflection_factor,
                        ids,
                    );
                    Pressed::SpawnRectWall(wall, handle)
                },
                WallType::Circle => {
                    let (wall, handle) = place_circ_wall(
                        x,
                        y,
                        brush.is_hollow,
                        brush.reflection_factor,
                        ids,
                    );
                    Pressed::SpawnCircWall(wall, handle)
                },
            },
            None => Pressed::Nothing,
        },
        ToolType::MoveSource => match nearest {
            Some((x, y)) => match first_source_at(sources, x, y) {
                Some(i) => Pressed::Move(Selection::Source(i)),
                None => Pressed::Nothing,
            },
            None => Pressed::Nothing,
        },
        ToolType::MoveMic => match nearest {
            Some((x, y)) => match first_mic_at(mics, x, y) {
                Some(i) => Pressed::Move(Selection::Mic(i)),
                None => Pressed::Nothing,
            },
            None => Pressed::Nothing,
        },
        ToolType::MoveWall => match on_image {
            Some((x, y)) => match first_rect_wall_at(rect_walls, x, y) {
                Some(i) => Pressed::Move(Selection::RectWall(i)),
                None => match first_circ_wall_at(circ_walls, x, y) {
                    Some(i) => Pressed::Move(Selection::CircWall(i)),
                    None => Pressed::Nothing,
                },
            },
            None => Pressed::Nothing,
        },
        ToolType::ResizeWall => match nearest {
            Some((x, y)) => Pressed::Resize(
                rect_handles_at(rect_walls, x, y),
                first_circ_handle_at(circ_walls, x, y),
            ),
            None => Pressed::Nothing,
        },
    }
}

/// What a drag of the pointer does while `tool` is active.
#[derive(Debug, Clone, Copy, PartialEq, Eq, Structural)]
pub enum DragKind {
    /// Everything that is being moved follows the pointer.
    Moves,
    /// Every wall that is held by a handle is resized.
    Resizes,
    /// Nothing.
    Rests,
}

/// What a drag of the pointer does while `tool` is active: the move tools
/// move, the wall tool and the resize tool resize, the place tools do
/// nothing.
pub fn drag_kind(tool: ToolType) -> (kind: DragKind)
    ensures
        kind == (match tool {
            ToolType::MoveSource | ToolType::MoveMic | ToolType::MoveWall => DragKind::Moves,
            ToolType::DrawWall | ToolType::ResizeWall => DragKind::Resizes,
            ToolType::PlaceSource | ToolType::PlaceMic => DragKind::Rests,
        }),
{
    match tool {
        ToolType::MoveSource | ToolType::MoveMic | ToolType::MoveWall => DragKind::Moves,
        ToolType::DrawWall | ToolType::ResizeWall => DragKind::Resizes,
        ToolType::PlaceSource | ToolType::PlaceMic => DragKind::Rests,
    }
}

/// A rectangular wall after a drag that moves it to `(x, y)`; with `snap`
/// its corners are put on multiples of ten afterwards.
pub open spec fn dragged_rect(wall: RectWall, x: u32, y: u32, snap: bool) -> RectWall {
    if snap {
        snapped(wall.moved_to(x, y), false)
    } else {
        wall.moved_to(x, y)
    }
}

/// Every one of the rectangular walls is valid.
pub open spec fn all_valid(walls: Seq<RectWall>) -> bool {
    forall|i: int| 0 <= i < walls.len() ==> (#[trigger] walls[i]).wf()
}

/// `after` are the sources `before`, each put on `(x, y)`.
pub open spec fn sources_moved(before: Seq<Source>, after: Seq<Source>, x: u32, y: u32) -> bool {
    &&& after.len() == before.len()
    &&& forall|i: int|
        0 <= i < before.len() ==> #[trigger] after[i] == (Source {
            x: clamp_to_axis(x, SIMULATION_WIDTH),
            y: clamp_to_axis(y, SIMULATION_HEIGHT),
            ..before[i]
        })
}

/// `after` are the microphones `before`, each put on `(x, y)` with its
/// history.
pub open spec fn mics_moved(before: Seq<Microphone>, after: Seq<Microphone>, x: u32, y: u32)
    -> bool {
    &&& after.len() == before.len()
    &&& forall|i: int|
        0 <= i < before.len() ==> {
            &&& (#[trigger] after[i]).x == clamp_to_axis(x, SIMULATION_WIDTH)
            &&& after[i].y == clamp_to_axis(y, SIMULATION_HEIGHT)
            &&& after[i].id == before[i].id
            &&& after[i].record == before[i].record
        }
}

/// `after` are the rectangular walls `before`, each centered on `(x, y)` as
/// far as the addressable area lets it, and snapped if asked for.
pub open spec fn rects_moved(
    before: Seq<RectWall>,
    after: Seq<RectWall>,
    x: u32,
    y: u32,
    snap: bool,
) -> bool {
    &&& after.len() == before.len()
    &&& forall|i: int|
        0 <= i < before.len() ==> #[trigger] after[i] == dragged_rect(before[i], x, y, snap)
}

/// `after` are the circular walls `before`, each centered on `(x, y)`.
pub open spec fn circs_moved(before: Seq<CircWall>, after: Seq<CircWall>, x: u32, y: u32)
    -> bool {
    &&& after.len() == before.len()
    &&& forall|i: int| 0 <= i < before.len() ==> #[trigger] after[i] == before[i].moved_to(x, y)
}

/// Moves everything that is being moved to the cell `(x, y)` under the
/// pointer: sources and microphones are put there, walls are centered
/// there. With `snap` the corners of rectangular walls are put on
/// multiples of ten afterwards.
pub fn drag_moving(
    sources: &mut Vec<Source>,
    mics: &mut Vec<Microphone>,
    rect_walls: &mut Vec<RectWall>,
    circ_walls: &mut Vec<CircWall>,
    x: u32,
    y: u32,
    snap: bool,
)
    requires
        all_valid(old(rect_walls)@),
    ensures
        sources_moved(old(sources)@, final(sources)@, x, y),
        mics_moved(old(mics)@, final(mics)@, x, y),
        rects_moved(old(rect_walls)@, final(rect_walls)@, x, y, snap),
        all_valid(final(rect_walls)@),
        circs_moved(old(circ_walls)@, final(circ_walls)@, x, y),
{
    let mut i: usize = 0;
    while i < sources.len()
        invariant
            i <= sources.len(),
            sources@.len() == old(sources)@.len(),
            forall|k: int|
                0 <= k < i ==> #[trigger] sources@[k] == (Source {
                    x: clamp_to_axis(x, SIMULATION_WIDTH),
                    y: clamp_to_axis(y, SIMULATION_HEIGHT),
                    ..old(sources)@[k]
                }),
            forall|k: int| i <= k < sources@.len() ==> #[trigger] sources@[k] == old(sources)@[k],
        decreases sources.len() - i,
    {
        sources[i].set_position(x, y);
        i += 1;
    }
    let mut i: usize = 0;
    while i < mics.len()
        invariant
            i <= mics.len(),
            mics@.len() == old(mics)@.len(),
            forall|k: int|
                0 <= k < i ==> {
                    &&& (#[trigger] mics@[k]).x == clamp_to_axis(x, SIMULATION_WIDTH)
                    &&& mics@[k].y == clamp_to_axis(y, SIMULATION_HEIGHT)
                    &&& mics@[k].id == old(mics)@[k].id
                    &&& mics@[k].record == old(mics)@[k].record
                },
            forall|k: int| i <= k < mics@.len() ==> #[trigger] mics@[k] == old(mics)@[k],
        decreases mics.len() - i,
    {
        mics[i].set_position(x, y);
        i += 1;
    }
    let mut i: usize = 0;
    while i < rect_walls.len()
        invariant
            i <= rect_walls.len(),
            rect_walls@.len() == old(rect_walls)@.len(),
            all_valid(old(rect_walls)@),
            all_valid(rect_walls@),
            forall|k: int|
                0 <= k < i ==> #[trigger] rect_walls@[k] == dragged_rect(
                    old(rect_walls)@[k],
                    x,
                    y,
                    snap,
                ),
            forall|k: int|
                i <= k < rect_walls@.len() ==> #[trigger] rect_walls@[k] == old(rect_walls)@[k],
        decreases rect_walls.len() - i,
    {
        rect_walls[i].set_center(x, y);
        if snap {
            snap_rect_wall(&mut rect_walls[i], false);
        }
        i += 1;
    }
    let mut i: usize = 0;
    while i < circ_walls.len()
        invariant
            i <= circ_walls.len(),
            circ_walls@.len() == old(circ_walls)@.len(),
            forall|k: int|
                0 <= k < i ==> #[trigger] circ_walls@[k] == old(circ_walls)@[k].moved_to(x, y),
            forall|k: int|
                i <= k < circ_walls@.len() ==> #[trigger] circ_walls@[k] == old(circ_walls)@[k],
        decreases circ_walls.len() - i,
    {
        circ_walls[i].set_center(x, y);
        i += 1;
    }
}

/// A rectangular wall after a drag of the handle it is held by to `(x, y)`;
/// with `snap` its corners are put on multiples of ten afterwards, the far
/// ones one cell short.
pub open spec fn resized_rect(wall: RectWall, handle: WResize, x: u32, y: u32, snap: bool)
    -> RectWall {
    if snap {
        snapped(wall.resized(handle, x, y), true)
    } else {
        wall.resized(handle, x, y)
    }
}

/// Every one of the rectangular walls is valid and held by a handle that a
/// rectangle has.
pub open spec fn rects_held(walls: Seq<(WResize, RectWall)>) -> bool {
    forall|i: int|
        0 <= i < walls.len() ==> (#[trigger] walls[i]).1.wf() && walls[i].1.takes_resize(
            walls[i].0,
        )
}

/// Every one of the circular walls is held by a handle that a circle has.
pub open spec fn circs_held(walls: Seq<(WResize, CircWall)>) -> bool {
    forall|i: int| 0 <= i < walls.len() ==> (#[trigger] walls[i]).1.takes_resize(walls[i].0)
}

/// `after` are the rectangular walls `before`, each with its handle dragged
/// to `(x, y)`, and snapped if asked for.
pub open spec fn rects_resized(
    before: Seq<(WResize, RectWall)>,
    after: Seq<(WResize, RectWall)>,
    x: u32,
    y: u32,
    snap: bool,
) -> bool {
    &&& after.len() == before.len()
    &&& forall|i: int|
        0 <= i < before.len() ==> #[trigger] after[i] == (
            before[i].0,
            resized_rect(before[i].1, before[i].0, x, y, snap),
        )
}

/// `after` are the circular walls `before`, each with its handle dragged
/// to `(x, y)`.
pub open spec fn circs_resized(
    before: Seq<(WResize, CircWall)>,
    after: Seq<(WResize, CircWall)>,
    x: u32,
    y: u32,
) -> bool {
    &&& after.len() == before.len()
    &&& forall|i: int|
        0 <= i < before.len() ==> #[trigger] after[i] == (
            before[i].0,
            before[i].1.resized(before[i].0, x, y),
        )
}

/// Drags the handle of every wall that is held by one to the cell `(x, y)`
/// under the pointer. With `snap` the corners of rectangular walls are put
/// on multiples of ten afterwards, the far ones one cell short.
pub fn drag_resizing(
    rect_walls: &mut Vec<(WResize, RectWall)>,
    circ_walls: &mut Vec<(WResize, CircWall)>,
    x: u32,
    y: u32,
    snap: bool,
)
    requires
        rects_held(old(rect_walls)@),
        circs_held(old(circ_walls)@),
    ensures
        rects_resized(old(rect_walls)@, final(rect_walls)@, x, y, snap),
        rects_held(final(rect_walls)@),
        circs_resized(old(circ_walls)@, final(circ_walls)@, x, y),
        circs_held(final(circ_walls)@),
{
    let mut i: usize = 0;
    while i < rect_walls.len()
        invariant
            i <= rect_walls.len(),
            rect_walls@.len() == old(rect_walls)@.len(),
            rects_held(old(rect_walls)@),
            rects_held(rect_walls@),
            forall|k: int|
                0 <= k < i ==> #[trigger] rect_walls@[k] == (
                    old(rect_walls)@[k].0,
                    resized_rect(old(rect_walls)@[k].1, old(rect_walls)@[k].0, x, y, snap),
                ),
            forall|k: int|
                i <= k < rect_walls@.len() ==> #[trigger] rect_walls@[k] == old(rect_walls)@[k],
        decreases rect_walls.len() - i,
    {
        let (handle, mut wall) = rect_walls[i];
        wall.resize(&handle, x, y);
        if snap {
            snap_rect_wall(&mut wall, true);
        }
        rect_walls[i] = (handle, wall);
        i += 1;
    }
    let mut i: usize = 0;
    while i < circ_walls.len()
        invariant
            i <= circ_walls.len(),
            circ_walls@.len() == old(circ_walls)@.len(),
            circs_held(old(circ_walls)@),
            circs_held(circ_walls@),
            forall|k: int|
                0 <= k < i ==> #[trigger] circ_walls@[k] == (
                    old(circ_walls)@[k].0,
                    old(circ_walls)@[k].1.resized(old(circ_walls)@[k].0, x, y),
                ),
            forall|k: int|
                i <= k < circ_walls@.len() ==> #[trigger] circ_walls@[k] == old(circ_walls)@[k],
        decreases circ_walls.len() - i,
    {
        let (handle, mut wall) = circ_walls[i];
        wall.resize(&handle, x, y);
        circ_walls[i] = (handle, wall);
        i += 1;
    }
}

} // verus!
