//! The drawn cursor and the orientation gizmo.
use crate::constants::{
    SINGLE_HALF, SINGLE_MINUS_HALF, SINGLE_MINUS_ONE, SINGLE_MINUS_ZERO, SINGLE_NINETY_TWO, SINGLE_ONE, SINGLE_SIX, SINGLE_TWELVE,
    SINGLE_ZERO,
};
use crate::editor::EditorState;
use crate::model::Axis;
use crate::number::{Pixel, Real32};
use crate::ordering::{is_sorted_form, sort_falling, Ranked};
use crate::tools::{CursorMode, StandardView};
use vstd::prelude::*;

verus! {

/// The mark drawn in place of the pointer, chosen by the shared cursor mode rather
/// than by the active tool.
///
/// A cursor wears one or the other, never both: a crosshair where the pick is plain
/// and has only a position to report, and a bare shape where it has a target, which
/// the shape then frames rather than covers.
#[derive(Clone, Copy, Debug, PartialEq, Eq, Structural)]
pub enum CursorGlyph {
    Crosshair,
    Circle,
    Square,
    Triangle,
}

pub open spec fn glyph_of(mode: CursorMode) -> CursorGlyph {
    match mode {
        CursorMode::Select => CursorGlyph::Crosshair,
        CursorMode::SnapToPoint => CursorGlyph::Circle,
        CursorMode::SnapToLine => CursorGlyph::Square,
        CursorMode::SnapToSurface => CursorGlyph::Triangle,
    }
}

/// The mark for the shared cursor mode.
pub fn cursor_glyph(editor: &EditorState) -> (r: CursorGlyph)
    ensures
        r == glyph_of(editor.drawing.tools.cursor_mode),
{
    match editor.drawing.tools.cursor_mode {
        CursorMode::Select => CursorGlyph::Crosshair,
        CursorMode::SnapToPoint => CursorGlyph::Circle,
        CursorMode::SnapToLine => CursorGlyph::Square,
        CursorMode::SnapToSurface => CursorGlyph::Triangle,
    }
}

/// Every cursor mode has a mark of its own, and a shape exactly where it snaps.
pub proof fn glyphs_tell_modes_apart(a: CursorMode, b: CursorMode)
    ensures
        glyph_of(a) == glyph_of(b) ==> a == b,
        glyph_of(a) is Crosshair <==> a is Select,
{
}

/// Where the pointer is.
#[derive(Clone, Copy, Debug, PartialEq, Eq, Structural)]
pub struct Hover {
    pub in_canvas: bool,
    /// Nothing floats under the pointer.
    pub over_scene_only: bool,
    /// A widget drag that started elsewhere keeps the pointer.
    pub held_by_widget: bool,
}

/// What becomes of the pointer.
#[derive(Clone, Copy, Debug, PartialEq, Eq, Structural)]
pub enum Pointer {
    /// A running task owns it everywhere.
    Progress,
    /// Flying grabs it to the window, and there is no position to draw at.
    Hidden,
    /// It belongs to the interface.
    Released,
    /// The scene has it, and the mark is drawn in its place. A dot marks the point that a
    /// snap caught, which is not where the pointer is.
    Drawn { glyph: CursorGlyph, snapped: bool, dot: Option<Pixel> },
}

impl EditorState {
    pub open spec fn pointer(self, camera_active: bool, hover: Option<Hover>) -> Pointer {
        if self.view.status.background_busy {
            Pointer::Progress
        } else if camera_active && self.view.display.fly_mode_enabled {
            Pointer::Hidden
        } else {
            match hover {
                Some(hover) if hover.in_canvas && hover.over_scene_only && !hover.held_by_widget => Pointer::Drawn {
                    glyph: glyph_of(self.drawing.tools.cursor_mode),
                    snapped: self.drawing.cursor.snapped,
                    dot: self.drawing.cursor.snap_marker_px,
                },
                _ => Pointer::Released,
            }
        }
    }

    /// What becomes of the pointer in a frame. The scene is the only place the drawn
    /// cursor belongs: the pointer is taken only inside the canvas and over nothing that
    /// floats there.
    pub fn tool_pointer(&self, camera_active: bool, hover: Option<Hover>) -> (r: Pointer)
        ensures
            r == self.pointer(camera_active, hover),
    {
        if self.view.status.background_busy {
            return Pointer::Progress;
        }
        if camera_active && self.view.display.fly_mode_enabled {
            return Pointer::Hidden;
        }
        match hover {
            Some(hover) => if hover.in_canvas && hover.over_scene_only && !hover.held_by_widget {
                Pointer::Drawn {
                    glyph: cursor_glyph(self),
                    snapped: self.drawing.cursor.snapped,
                    dot: self.drawing.cursor.snap_marker_px,
                }
            } else {
                Pointer::Released
            },
            None => Pointer::Released,
        }
    }
}

/// A busy application shows its progress wherever the pointer is, and the drawn cursor
/// never leaves the canvas.
pub proof fn drawn_cursor_stays_in_the_canvas(editor: EditorState, camera_active: bool, hover: Option<Hover>)
    ensures
        editor.view.status.background_busy ==> editor.pointer(camera_active, hover) is Progress,
        editor.pointer(camera_active, hover) is Drawn ==> hover is Some && (hover->0).in_canvas,
{
}

/// The system pointer that is asked for.
#[derive(Clone, Copy, Debug, PartialEq, Eq, Structural)]
pub enum PointerIcon {
    Default,
    Hidden,
    Progress,
    /// One that a widget asked for.
    Widget,
}

/// Give the system pointer back after a frame in which the scene had it. Only a request
/// that the scene makes is withdrawn; an icon that a widget set stays.
pub fn release_pointer(icon: PointerIcon) -> (r: PointerIcon)
    ensures
        r == released(icon),
{
    match icon {
        PointerIcon::Hidden | PointerIcon::Progress => PointerIcon::Default,
        _ => icon,
    }
}

pub open spec fn released(icon: PointerIcon) -> PointerIcon {
    if icon is Hidden || icon is Progress {
        PointerIcon::Default
    } else {
        icon
    }
}

impl Pointer {
    pub open spec fn asks_for(self, icon: PointerIcon) -> PointerIcon {
        match self {
            Pointer::Progress => PointerIcon::Progress,
            Pointer::Hidden | Pointer::Drawn { .. } => PointerIcon::Hidden,
            Pointer::Released => released(icon),
        }
    }

    /// The system pointer to ask for, given the one that stands.
    pub fn icon(self, icon: PointerIcon) -> (r: PointerIcon)
        ensures
            r == self.asks_for(icon),
    {
        match self {
            Pointer::Progress => PointerIcon::Progress,
            Pointer::Hidden | Pointer::Drawn { .. } => PointerIcon::Hidden,
            Pointer::Released => release_pointer(icon),
        }
    }
}

/// A request stands until another is made, so a pointer that the scene hid comes back as
/// soon as it is released, while one that a widget set is left alone.
pub proof fn released_pointer_comes_back(pointer: Pointer, icon: PointerIcon)
    ensures
        Pointer::Released.asks_for(pointer.asks_for(icon)) == (if pointer is Released {
            released(icon)
        } else {
            PointerIcon::Default
        }),
        !(Pointer::Released.asks_for(icon) is Hidden),
        icon is Widget ==> Pointer::Released.asks_for(icon) == icon,
{
}

/// Whether the viewport is large enough to carry the orientation gizmo, which is 76 points
/// across and stands 16 from the edges of its corner.
pub fn gizmo_fits(width: Real32, height: Real32) -> (r: bool)
    ensures
        r == (!width.lt_number(Real32 { bits: SINGLE_NINETY_TWO }) && !height.lt_number(Real32 { bits: SINGLE_NINETY_TWO })),
{
    let least = Real32 { bits: SINGLE_NINETY_TWO };
    !width.less(least) && !height.less(least)
}

/// One arm of the gizmo.
#[derive(Clone, Copy, Debug, PartialEq, Eq, Structural)]
pub struct GizmoArm {
    pub axis: Axis,
    pub positive: bool,
}

/// The direction of an arm.
#[derive(Clone, Copy, Debug, PartialEq, Eq, Structural)]
pub struct Direction {
    pub x: Real32,
    pub y: Real32,
    pub z: Real32,
}

impl GizmoArm {
    /// The unit vector of the axis, times minus one for a negative arm: the zeros of such
    /// an arm are negative too.
    pub open spec fn spec_direction(self) -> Direction {
        let zero = Real32 {
            bits: if self.positive {
                SINGLE_ZERO
            } else {
                SINGLE_MINUS_ZERO
            },
        };
        let unit = Real32 {
            bits: if self.positive {
                SINGLE_ONE
            } else {
                SINGLE_MINUS_ONE
            },
        };
        match self.axis {
            Axis::X => Direction { x: unit, y: zero, z: zero },
            Axis::Y => Direction { x: zero, y: unit, z: zero },
            Axis::Z => Direction { x: zero, y: zero, z: unit },
        }
    }

    pub fn direction(self) -> (r: Direction)
        ensures
            r == self.spec_direction(),
    {
        let zero = Real32 {
            bits: if self.positive {
                SINGLE_ZERO
            } else {
                SINGLE_MINUS_ZERO
            },
        };
        let unit = Real32 {
            bits: if self.positive {
                SINGLE_ONE
            } else {
                SINGLE_MINUS_ONE
            },
        };
        match self.axis {
            Axis::X => Direction { x: unit, y: zero, z: zero },
            Axis::Y => Direction { x: zero, y: unit, z: zero },
            Axis::Z => Direction { x: zero, y: zero, z: unit },
        }
    }

    /// The view that the arm looks from.
    pub open spec fn looks(self) -> StandardView {
        match (self.axis, self.positive) {
            (Axis::X, true) => StandardView::East,
            (Axis::X, false) => StandardView::West,
            (Axis::Y, true) => StandardView::North,
            (Axis::Y, false) => StandardView::South,
            (Axis::Z, true) => StandardView::Up,
            (Axis::Z, false) => StandardView::Down,
        }
    }
}

/// The arms of the gizmo: both directions of each axis. A vertical section can be turned
/// to face any compass axis but never straight up or down, and an arm that cannot be
/// honoured is not drawn.
pub open spec fn arms(horizontal_only: bool) -> Seq<GizmoArm> {
    let flat = seq![
        GizmoArm { axis: Axis::X, positive: true },
        GizmoArm { axis: Axis::X, positive: false },
        GizmoArm { axis: Axis::Y, positive: true },
        GizmoArm { axis: Axis::Y, positive: false },
    ];
    if horizontal_only {
        flat
    } else {
        flat.push(GizmoArm { axis: Axis::Z, positive: true }).push(GizmoArm { axis: Axis::Z, positive: false })
    }
}

pub fn gizmo_arms(horizontal_only: bool) -> (r: Vec<GizmoArm>)
    ensures
        r@ == arms(horizontal_only),
{
    let mut r: Vec<GizmoArm> = Vec::new();
    r.push(GizmoArm { axis: Axis::X, positive: true });
    r.push(GizmoArm { axis: Axis::X, positive: false });
    r.push(GizmoArm { axis: Axis::Y, positive: true });
    r.push(GizmoArm { axis: Axis::Y, positive: false });
    if !horizontal_only {
        r.push(GizmoArm { axis: Axis::Z, positive: true });
        r.push(GizmoArm { axis: Axis::Z, positive: false });
    }
    assert(r@ =~= arms(horizontal_only));
    r
}

/// An arm and how far away from the viewer it points.
#[derive(Clone, Copy, Debug, PartialEq, Eq, Structural)]
pub struct GizmoNode {
    pub arm: GizmoArm,
    pub depth: Real32,
}

impl Ranked for GizmoNode {
    open spec fn rank(self) -> int {
        self.depth.total_rank()
    }

    fn ranks_below(&self, other: &GizmoNode) -> (r: bool) {
        self.depth.is_before(other.depth)
    }
}

/// The place of the first node that points at the viewer; before it the origin is drawn.
pub open spec fn first_front(nodes: Seq<GizmoNode>, from: int) -> int
    decreases nodes.len() - from,
{
    if from < 0 || from >= nodes.len() {
        nodes.len() as int
    } else if nodes[from].depth.lt_number(Real32 { bits: SINGLE_ZERO }) {
        from
    } else {
        first_front(nodes, from + 1)
    }
}

/// Order the nodes for painting, the farthest first. The place at which the origin is
/// painted: before the first node in front of it, or last.
pub fn stack_gizmo(nodes: &mut Vec<GizmoNode>) -> (r: usize)
    ensures
        is_sorted_form(final(nodes)@, old(nodes)@),
        r == first_front(final(nodes)@, 0),
{
    sort_falling(nodes);
    let mut i: usize = 0;
    while i < nodes.len()
        invariant
            i <= nodes@.len(),
            first_front(nodes@, 0) == first_front(nodes@, i as int),
            is_sorted_form(nodes@, old(nodes)@),
        decreases nodes@.len() - i,
    {
        if nodes[i].depth.less(Real32 { bits: SINGLE_ZERO }) {
            return i;
        }
        i = i + 1;
    }
    i
}

/// How far a click is from an arm's node and from its stem, and the stem's distance with
/// the handicap it is compared at.
#[derive(Clone, Copy, Debug, PartialEq, Eq, Structural)]
pub struct ArmDistance {
    pub arm: GizmoArm,
    pub node: Real32,
    pub stem: Real32,
    pub stem_handicapped: Real32,
}

/// An arm that a click hits, and how well.
#[derive(Clone, Copy, Debug, PartialEq, Eq, Structural)]
pub struct ArmHit {
    pub arm: GizmoArm,
    pub distance: Real32,
}

/// The better of two hits: the later one only where it is nearer.
pub open spec fn nearer(best: Option<ArmHit>, hit: ArmHit) -> Option<ArmHit> {
    match best {
        Some(best) if !hit.distance.lt_number(best.distance) => Some(best),
        _ => Some(hit),
    }
}

impl ArmDistance {
    pub open spec fn hits_node(self) -> bool {
        self.node.le_number(Real32 { bits: SINGLE_TWELVE })
    }

    pub open spec fn hits_stem(self) -> bool {
        self.stem.le_number(Real32 { bits: SINGLE_SIX })
    }

    /// The best hit once this arm is considered, its node before its stem.
    pub open spec fn improves(self, best: Option<ArmHit>) -> Option<ArmHit> {
        let with_node = if self.hits_node() {
            nearer(best, ArmHit { arm: self.arm, distance: self.node })
        } else {
            best
        };
        if self.hits_stem() {
            nearer(with_node, ArmHit { arm: self.arm, distance: self.stem_handicapped })
        } else {
            with_node
        }
    }
}

/// The best hit among the first arms.
pub open spec fn best_hit(arms: Seq<ArmDistance>) -> Option<ArmHit>
    decreases arms.len(),
{
    if arms.len() == 0 {
        None
    } else {
        arms.last().improves(best_hit(arms.drop_last()))
    }
}

fn keep_nearer(best: Option<ArmHit>, hit: ArmHit) -> (r: Option<ArmHit>)
    ensures
        r == nearer(best, hit),
{
    match best {
        Some(kept) => if hit.distance.less(kept.distance) {
            Some(hit)
        } else {
            Some(kept)
        },
        None => Some(hit),
    }
}

/// The arm that a click hits.
pub fn nearest_axis_node(arms: &Vec<ArmDistance>) -> (r: Option<GizmoArm>)
    ensures
        r == (match best_hit(arms@) {
            Some(hit) => Some(hit.arm),
            None => None,
        }),
{
    let mut best: Option<ArmHit> = None;
    let mut i: usize = 0;
    assert(arms@.take(0) =~= Seq::empty());
    while i < arms.len()
        invariant
            i <= arms@.len(),
            best == best_hit(arms@.take(i as int)),
        decreases arms@.len() - i,
    {
        let arm = arms[i];
        assert(arms@.take(i + 1).drop_last() =~= arms@.take(i as int));
        if arm.node.at_most(Real32 { bits: SINGLE_TWELVE }) {
            best = keep_nearer(best, ArmHit { arm: arm.arm, distance: arm.node });
        }
        if arm.stem.at_most(Real32 { bits: SINGLE_SIX }) {
            best = keep_nearer(best, ArmHit { arm: arm.arm, distance: arm.stem_handicapped });
        }
        i = i + 1;
    }
    assert(arms@.take(i as int) =~= arms@);
    match best {
        Some(hit) => Some(hit.arm),
        None => None,
    }
}

/// A click hits some arm exactly where it is near enough to a node or a stem, and no node
/// that it hits is nearer than the hit it is taken for.
pub proof fn nearest_arm_is_hit(arms: Seq<ArmDistance>, other: int)
    requires
        0 <= other < arms.len(),
        forall|i: int| 0 <= i < arms.len() && (#[trigger] arms[i]).hits_stem() ==> !arms[i].stem_handicapped.nan(),
    ensures
        arms[other].hits_node() || arms[other].hits_stem() ==> best_hit(arms) is Some,
        best_hit(arms) matches Some(hit) ==> !hit.distance.nan() && exists|i: int|
            0 <= i < arms.len() && (#[trigger] arms[i]).arm == hit.arm && (arms[i].hits_node() || arms[i].hits_stem()),
        arms[other].hits_node() ==> (best_hit(arms)->0).distance.le_number(arms[other].node),
        arms[other].hits_stem() ==> (best_hit(arms)->0).distance.le_number(arms[other].stem_handicapped),
    decreases arms.len(),
{
    let rest = arms.drop_last();
    let last = arms.last();
    assert(arms[arms.len() - 1] == last);
    if rest.len() > 0 {
        assert forall|i: int| 0 <= i < rest.len() && (#[trigger] rest[i]).hits_stem() implies !rest[i].stem_handicapped.nan() by {
            assert(arms[i] == rest[i]);
        }
        let place = if other < rest.len() {
            other
        } else {
            0
        };
        nearest_arm_is_hit(rest, place);
        if let Some(hit) = best_hit(rest) {
            let i = choose|i: int|
                0 <= i < rest.len() && (#[trigger] rest[i]).arm == hit.arm && (rest[i].hits_node() || rest[i].hits_stem());
            assert(arms[i] == rest[i]);
        }
    } else {
        assert(best_hit(rest) is None);
    }
}

/// The view that a direction looks from.
pub open spec fn view_along(direction: Direction) -> StandardView {
    let half = Real32 { bits: SINGLE_HALF };
    let minus_half = Real32 { bits: SINGLE_MINUS_HALF };
    if half.lt_number(direction.x) {
        StandardView::East
    } else if direction.x.lt_number(minus_half) {
        StandardView::West
    } else if half.lt_number(direction.y) {
        StandardView::North
    } else if direction.y.lt_number(minus_half) {
        StandardView::South
    } else if half.lt_number(direction.z) {
        StandardView::Up
    } else {
        StandardView::Down
    }
}

pub fn standard_view_for_axis(direction: Direction) -> (r: StandardView)
    ensures
        r == view_along(direction),
{
    let half = Real32 { bits: SINGLE_HALF };
    let minus_half = Real32 { bits: SINGLE_MINUS_HALF };
    if half.less(direction.x) {
        StandardView::East
    } else if direction.x.less(minus_half) {
        StandardView::West
    } else if half.less(direction.y) {
        StandardView::North
    } else if direction.y.less(minus_half) {
        StandardView::South
    } else if half.less(direction.z) {
        StandardView::Up
    } else {
        StandardView::Down
    }
}

/// Every arm looks from the side that it points to.
pub proof fn arms_look_where_they_point(arm: GizmoArm)
    ensures
        view_along(arm.spec_direction()) == arm.looks(),
{
}

/// Who has the pointer, in order of precedence: a running task everywhere, then flying while
/// the camera moves, then the scene where nothing is in its way, and otherwise the interface.
/// The drawn cursor wears the mark of the cursor mode and shows what it has caught.
pub proof fn pointer_goes_to_the_first_claim(editor: EditorState, camera_active: bool, hover: Option<Hover>)
    ensures
        ({
            let pointer = editor.pointer(camera_active, hover);
            let flying = camera_active && editor.view.display.fly_mode_enabled;
            let in_scene = hover matches Some(hover) && hover.in_canvas && hover.over_scene_only && !hover.held_by_widget;
            &&& pointer is Progress <==> editor.view.status.background_busy
            &&& pointer is Hidden <==> !editor.view.status.background_busy && flying
            &&& pointer is Drawn <==> !editor.view.status.background_busy && !flying && in_scene
            &&& pointer is Released <==> !editor.view.status.background_busy && !flying && !in_scene
            &&& pointer matches Pointer::Drawn { glyph, snapped, dot } ==> glyph == glyph_of(editor.drawing.tools.cursor_mode)
                && snapped == editor.drawing.cursor.snapped && dot == editor.drawing.cursor.snap_marker_px
        }),
{
}

/// The marks of the snap modes: a circle around a point, a square on a line and a triangle
/// on a surface.
pub proof fn glyphs_show_what_is_caught(mode: CursorMode)
    ensures
        glyph_of(mode) is Circle <==> mode is SnapToPoint,
        glyph_of(mode) is Square <==> mode is SnapToLine,
        glyph_of(mode) is Triangle <==> mode is SnapToSurface,
{
}

/// While the scene draws its own cursor, or flying has no use for one, the system pointer is
/// hidden; a task shows its progress whatever was asked for before.
pub proof fn drawn_cursor_replaces_the_pointer(pointer: Pointer, icon: PointerIcon)
    ensures
        pointer is Drawn || pointer is Hidden <==> pointer.asks_for(icon) is Hidden,
        pointer is Progress ==> pointer.asks_for(icon) is Progress,
        pointer is Released && icon is Default ==> pointer.asks_for(icon) is Default,
        pointer.asks_for(icon) is Widget ==> pointer is Released && icon is Widget,
{
}

/// An arm points along its own axis and no other, by one unit, to the side that it is named
/// for; the arm on the other side points the opposite way.
pub proof fn arms_point_along_their_axis(arm: GizmoArm, opposite: GizmoArm)
    requires
        opposite == (GizmoArm { positive: !arm.positive, ..arm }),
    ensures
        ({
            let d = arm.spec_direction();
            let along = match arm.axis {
                Axis::X => d.x,
                Axis::Y => d.y,
                Axis::Z => d.z,
            };
            &&& along.magnitude() == (Real32 { bits: SINGLE_ONE }).magnitude()
            &&& along.negative() == !arm.positive
            &&& arm.axis is X || d.x.rank() == 0
            &&& arm.axis is Y || d.y.rank() == 0
            &&& arm.axis is Z || d.z.rank() == 0
            &&& d.x.negative() == !arm.positive && d.y.negative() == !arm.positive && d.z.negative() == !arm.positive
            &&& d.x.rank() == -opposite.spec_direction().x.rank()
            &&& d.y.rank() == -opposite.spec_direction().y.rank()
            &&& d.z.rank() == -opposite.spec_direction().z.rank()
        }),
{
}

/// East is along the first axis, north along the second and up along the third, and the
/// other three views are their opposites; no two arms look from the same view.
pub proof fn arms_look_from_different_views(arm: GizmoArm, other: GizmoArm)
    ensures
        arm.looks() == other.looks() ==> arm == other,
        arm.axis is X ==> (arm.looks() is East || arm.looks() is West) && (arm.looks() is East <==> arm.positive),
        arm.axis is Y ==> (arm.looks() is North || arm.looks() is South) && (arm.looks() is North <==> arm.positive),
        arm.axis is Z ==> (arm.looks() is Up || arm.looks() is Down) && (arm.looks() is Up <==> arm.positive),
{
}

/// The gizmo has each arm once, and without the vertical ones in a section.
pub proof fn sections_have_the_flat_arms(horizontal_only: bool, arm: GizmoArm)
    ensures
        arms(horizontal_only).contains(arm) <==> !(horizontal_only && arm.axis is Z),
        arms(horizontal_only).no_duplicates(),
        arms(true).len() == 4,
        arms(false).len() == 6,
        arms(true) == arms(false).take(4),
{
    let all = arms(horizontal_only);
    assert(arms(true) =~= arms(false).take(4));
    if !(horizontal_only && arm.axis is Z) {
        let place = (match arm.axis {
            Axis::X => 0int,
            Axis::Y => 2,
            Axis::Z => 4,
        }) + (if arm.positive { 0int } else { 1 });
        assert(all[place] == arm);
    }
}

/// The origin is painted behind every node in front of it and over every node behind it.
pub proof fn origin_is_painted_between(nodes: Seq<GizmoNode>, place: int)
    requires
        0 <= place < nodes.len(),
    ensures
        0 <= first_front(nodes, 0) <= nodes.len(),
        place < first_front(nodes, 0) ==> !nodes[place].depth.lt_number(Real32 { bits: SINGLE_ZERO }),
        place == first_front(nodes, 0) ==> nodes[place].depth.lt_number(Real32 { bits: SINGLE_ZERO }),
{
    lemma_first_front(nodes, 0, place);
}

proof fn lemma_first_front(nodes: Seq<GizmoNode>, from: int, place: int)
    requires
        0 <= from <= nodes.len(),
        0 <= place < nodes.len(),
    ensures
        from <= first_front(nodes, from) <= nodes.len(),
        from <= place < first_front(nodes, from) ==> !nodes[place].depth.lt_number(Real32 { bits: SINGLE_ZERO }),
        place == first_front(nodes, from) ==> nodes[place].depth.lt_number(Real32 { bits: SINGLE_ZERO }),
    decreases nodes.len() - from,
{
    if from < nodes.len() && !nodes[from].depth.lt_number(Real32 { bits: SINGLE_ZERO }) {
        lemma_first_front(nodes, from + 1, place);
    }
}

/// A click hits a node up to twelve away and a stem up to six.
pub proof fn clicks_hit_what_is_near(arm: ArmDistance)
    ensures
        arm.hits_node() <==> arm.node.lt_number(Real32 { bits: SINGLE_TWELVE }) || arm.node.eq_number(Real32 { bits: SINGLE_TWELVE }),
        arm.hits_stem() <==> arm.stem.lt_number(Real32 { bits: SINGLE_SIX }) || arm.stem.eq_number(Real32 { bits: SINGLE_SIX }),
{
}

/// The hit that is taken is one of the hits, at its own distance: the node's, or the stem's
/// with its handicap. Of two equal ones the earlier is kept.
pub proof fn taken_hit_is_one_of_them(arms: Seq<ArmDistance>, next: ArmDistance)
    ensures
        best_hit(arms) matches Some(hit) ==> exists|i: int|
            0 <= i < arms.len() && (#[trigger] arms[i]).arm == hit.arm && (arms[i].hits_node() && hit.distance == arms[i].node
                || arms[i].hits_stem() && hit.distance == arms[i].stem_handicapped),
        best_hit(arms) matches Some(hit) ==> {
            let nearer_node = next.hits_node() && next.node.lt_number(hit.distance);
            let nearer_stem = next.hits_stem() && next.stem_handicapped.lt_number(hit.distance);
            &&& !nearer_node && !nearer_stem ==> best_hit(arms.push(next)) == best_hit(arms)
            &&& nearer_node || nearer_stem ==> (best_hit(arms.push(next)) matches Some(now) && now.arm == next.arm)
        },
        best_hit(arms) is None ==> (best_hit(arms.push(next)) is Some <==> next.hits_node() || next.hits_stem()),
    decreases arms.len(),
{
    let more = arms.push(next);
    assert(more.drop_last() =~= arms);
    assert(more.last() == next);
    if arms.len() > 0 {
        let rest = arms.drop_last();
        let last = arms.last();
        taken_hit_is_one_of_them(rest, last);
        assert(arms[arms.len() - 1] == last);
        if let Some(hit) = best_hit(rest) {
            let i = choose|i: int|
                0 <= i < rest.len() && (#[trigger] rest[i]).arm == hit.arm && (rest[i].hits_node() && hit.distance == rest[i].node
                    || rest[i].hits_stem() && hit.distance == rest[i].stem_handicapped);
            assert(arms[i] == rest[i]);
        }
    }
}

} // verus!
