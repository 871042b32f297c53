//! What floats over the scene and follows the pointer.
use crate::command::UiCommand;
use crate::constants::{SINGLE_ZERO, ZERO};
use crate::editor::EditorState;
use crate::ids::Carried;
use crate::lists::{only_if, push_if};
use crate::model::Axis;
use crate::number::{Pixel, Real32, Real64};
use crate::palette::PackedColor;
use crate::state::geometry::{BezierState, ChamferState, MoveState, RotateState};
use crate::text::{named, only, plain1, Arg, Text};
use crate::views::{usable, CircleDraft, Quad, ViewportRect, MOVE_GIZMO_VIEW_PLANE, ROTATE_GIZMO_AZIMUTH_RING, ROTATE_GIZMO_DIP_RING};
use crate::words::unsigned_decimal;
use vstd::prelude::*;

verus! {

/// What happened to the radius field in a frame.
#[derive(Debug)]
pub struct RadiusEdit {
    /// What the field holds now, where it changed.
    pub text: Option<String>,
    pub has_focus: bool,
    pub enter: bool,
    pub escape: bool,
    /// What the text in the field parses to.
    pub parsed: Option<Real64>,
}

/// What the radius field leads to.
#[derive(Clone, Copy, Debug, PartialEq, Eq, Structural)]
pub struct RadiusOutcome {
    /// The preview has to be built again.
    pub changed: bool,
    pub request_focus: bool,
}

impl RadiusEdit {
    /// What the field holds after the edit.
    pub open spec fn held(self, draft: CircleDraft) -> Seq<char> {
        match self.text {
            Some(text) => text@,
            None => draft.radius_text@,
        }
    }

    /// Escape on an empty field drops the centre.
    pub open spec fn drops_center(self, draft: CircleDraft) -> bool {
        self.has_focus && self.escape && self.held(draft).len() == 0
    }

    /// Escape on typed text drops the text.
    pub open spec fn drops_text(self, draft: CircleDraft) -> bool {
        self.has_focus && self.escape && self.held(draft).len() > 0
    }

    /// Enter on a usable radius commits it.
    pub open spec fn commits(self, draft: CircleDraft) -> bool {
        self.has_focus && self.enter && unsigned_decimal(self.held(draft)) && usable(self.parsed) is Some
    }

    /// The draft after the edit.
    pub open spec fn leaves(self, before: CircleDraft, cursor: Option<Pixel>, after: CircleDraft) -> bool {
        &&& after.center == before.center
        &&& after.radius_text@ == (if self.drops_text(before) {
            Seq::<char>::empty()
        } else {
            self.held(before)
        })
        &&& after.focus_requested == self.drops_text(before)
        &&& after.typing_origin_screen_px == (if self.drops_text(before) {
            None
        } else if self.text is None {
            before.typing_origin_screen_px
        } else if self.held(before).len() == 0 {
            None
        } else if before.radius_text@.len() == 0 {
            cursor
        } else {
            before.typing_origin_screen_px
        })
    }
}

impl EditorState {
    /// Take an edit of the radius field beside the cursor.
    ///
    /// Escape steps back: it clears typed text first and drops the centre once the
    /// field is empty. Enter commits a usable radius, unless the centre is dropped
    /// in the same frame.
    pub fn edit_circle_radius(&mut self, edit: RadiusEdit, commands: &mut Vec<UiCommand>) -> (r: RadiusOutcome)
        requires
            old(self).drawing.stroke.circle_draft is Some,
        ensures
            ({
                let draft = old(self).drawing.stroke.circle_draft->0;
                let after = final(self).drawing.stroke.circle_draft;
                &&& edit.drops_center(draft) ==> after is None && final(commands)@ == old(commands)@
                &&& !edit.drops_center(draft) ==> after is Some && edit.leaves(draft, old(self).drawing.cursor.screen_px, after->0)
                    && final(commands)@ == old(commands)@ + only_if(edit.commits(draft), UiCommand::CommitCircleTypedRadius)
                &&& r.request_focus == (draft.focus_requested || !edit.has_focus)
            }),
            r.changed == (edit.text is Some || (edit.has_focus && edit.escape)),
            final(self).drawing == (crate::state::drawing::DrawingState {
                stroke: final(self).drawing.stroke,
                ..old(self).drawing
            }),
            final(self).drawing.stroke == (crate::state::drawing::StrokeState {
                circle_draft: final(self).drawing.stroke.circle_draft,
                ..old(self).drawing.stroke
            }),
            *final(self) == (EditorState { drawing: final(self).drawing, ..*old(self) }),
    {
        let cursor = self.drawing.cursor.screen_px;
        let mut slot = self.drawing.stroke.circle_draft.take();
        let mut outcome = RadiusOutcome { changed: false, request_focus: false };
        let mut cancel = false;
        let mut commit = false;
        if let Some(draft) = &mut slot {
            let was_empty = draft.radius_text.as_str().is_empty();
            if draft.focus_requested || !edit.has_focus {
                outcome.request_focus = true;
                draft.focus_requested = false;
            }
            if let Some(text) = edit.text {
                draft.radius_text = text;
                draft.note_radius_text_changed(was_empty, cursor);
                outcome.changed = true;
            }
            if edit.has_focus && edit.enter && draft.typed_radius(edit.parsed).is_some() {
                commit = true;
            }
            if edit.has_focus && edit.escape {
                outcome.changed = true;
                if draft.radius_text.as_str().is_empty() {
                    cancel = true;
                } else {
                    draft.radius_text = String::new();
                    draft.typing_origin_screen_px = None;
                    draft.focus_requested = true;
                    assert(draft.radius_text@ =~= Seq::<char>::empty());
                }
            }
        }
        if cancel {
            self.drawing.stroke.circle_draft = None;
        } else {
            push_if(commands, commit, UiCommand::CommitCircleTypedRadius);
            self.drawing.stroke.circle_draft = slot;
        }
        outcome
    }
}

impl CircleDraft {
    /// The field holds text that is no usable radius.
    pub fn typed_invalid(&self, parsed: Option<Real64>) -> (r: bool)
        ensures
            r == (self.radius_text@.len() > 0 && self.spec_typed_radius(parsed) is None),
    {
        !self.radius_text.as_str().is_empty() && self.typed_radius(parsed).is_none()
    }

    /// What an empty field shows: the radius out to the cursor, or zero.
    pub fn radius_hint(&self, distance: Option<Real64>) -> (r: Text)
        ensures
            r == only(
                Arg::Fixed {
                    value: match usable(distance) {
                        Some(radius) => radius,
                        None => Real64 { bits: ZERO },
                    },
                    decimals: 3,
                },
            ),
    {
        let value = match self.mouse_radius(distance) {
            Some(radius) => radius,
            None => Real64 { bits: ZERO },
        };
        only(Arg::Fixed { value, decimals: 3 })
    }
}

/// Whether a dragged box takes what it touches rather than what it holds: one
/// dragged to the right does.
pub fn box_takes_touched(start: Pixel, end: Pixel) -> (r: bool)
    ensures
        r == start.x.lt_number(end.x),
{
    start.x.less(end.x)
}

/// The upper of two edges; an edge that is no number gives way to the other.
pub open spec fn upper(a: Real32, b: Real32) -> Real32 {
    if a.lt_number(b) || b.nan() {
        a
    } else {
        b
    }
}

fn upper_of(a: Real32, b: Real32) -> (r: Real32)
    ensures
        r == upper(a, b),
{
    if a.less(b) || b.is_nan() {
        a
    } else {
        b
    }
}

/// Where the canvas ends: above the status bar, the bottom toolbar and the console.
pub fn canvas_bottom(status_top: Real32, toolbar_top: Real32, console_top: Option<Real32>) -> (r: Real32)
    ensures
        r == (match console_top {
            Some(console_top) => upper(upper(status_top, toolbar_top), console_top),
            None => upper(status_top, toolbar_top),
        }),
{
    let bars = upper_of(status_top, toolbar_top);
    match console_top {
        Some(console_top) => upper_of(bars, console_top),
        None => bars,
    }
}

/// The canvas ends at or above each of the panels below it.
pub proof fn canvas_ends_above_panels(status_top: Real32, toolbar_top: Real32, console_top: Real32)
    requires
        !status_top.nan(),
        !toolbar_top.nan(),
        !console_top.nan(),
    ensures
        upper(upper(status_top, toolbar_top), console_top).le_number(status_top),
        upper(upper(status_top, toolbar_top), console_top).le_number(toolbar_top),
        upper(upper(status_top, toolbar_top), console_top).le_number(console_top),
{
}

/// The part of the window that the renderer draws the scene into: nothing while
/// planning owns the window, what the layout left where that is usable, and the
/// whole window until there is a layout.
pub fn canvas_viewport(owned_by_planning: bool, laid_out: Option<ViewportRect>, screen_width: u32, screen_height: u32) -> (r: ViewportRect)
    ensures
        r == (if owned_by_planning {
            ViewportRect { x: 0, y: 0, width: 0, height: 0 }
        } else {
            match laid_out {
                Some(rect) => rect,
                None => ViewportRect::whole(screen_width, screen_height),
            }
        }),
{
    if owned_by_planning {
        return ViewportRect { x: 0, y: 0, width: 0, height: 0 };
    }
    match laid_out {
        Some(rect) => rect,
        None => ViewportRect::full(screen_width, screen_height),
    }
}

/// The interface's own selection colour.
pub open spec fn spec_selection_color() -> PackedColor {
    PackedColor { r: 87, g: 163, b: 255, a: 255 }
}

pub fn selection_color() -> (r: PackedColor)
    ensures
        r == spec_selection_color(),
{
    PackedColor { r: 87, g: 163, b: 255, a: 255 }
}

/// Whether the theme on screen is not the one asked for.
pub fn theme_is_stale(shown_dark: bool, shown_selection: PackedColor, dark_mode: bool) -> (r: bool)
    ensures
        r == (shown_dark != dark_mode || shown_selection != spec_selection_color()),
{
    shown_dark != dark_mode || shown_selection != selection_color()
}

/// Whether the pointer still drives a widget. A held button is the gesture: a drag
/// alone would miss the press before the pointer has moved far enough.
pub fn pointer_gesture_active(any_button_down: bool, dragging: bool) -> (r: bool)
    ensures
        r == (any_button_down || dragging),
{
    any_button_down || dragging
}

/// An input event of a frame.
#[derive(Debug, PartialEq)]
pub enum InputEvent {
    Paste(String),
    /// Any other, kept by the application.
    Other(Carried),
}

/// The events without pastes.
pub open spec fn without_pastes(events: Seq<InputEvent>) -> Seq<InputEvent>
    decreases events.len(),
{
    if events.len() == 0 {
        Seq::empty()
    } else if events[0] is Paste {
        without_pastes(events.subrange(1, events.len() as int))
    } else {
        seq![events[0]] + without_pastes(events.subrange(1, events.len() as int))
    }
}

pub open spec fn as_pastes(texts: Seq<String>) -> Seq<InputEvent> {
    texts.map_values(|text: String| InputEvent::Paste(text))
}

/// Put the texts that the browser pasted in the place of synthetic pastes, so that
/// no paste is applied twice.
pub fn replace_pastes(events: Vec<InputEvent>, pending: &mut Vec<String>) -> (r: Vec<InputEvent>)
    ensures
        r@ == without_pastes(events@) + as_pastes(old(pending)@),
        final(pending)@.len() == 0,
{
    let mut events = events;
    let mut r: Vec<InputEvent> = Vec::new();
    let ghost given = events@;
    assert(r@ + without_pastes(events@) =~= without_pastes(given));
    while events.len() > 0
        invariant
            r@ + without_pastes(events@) == without_pastes(given),
        decreases events@.len(),
    {
        let ghost before = events@;
        let ghost done = r@;
        let event = events.remove(0);
        assert(events@ =~= before.subrange(1, before.len() as int));
        let is_paste = match &event {
            InputEvent::Paste(_) => true,
            InputEvent::Other(_) => false,
        };
        if !is_paste {
            r.push(event);
            assert(r@ + without_pastes(events@) =~= done + (seq![before[0]] + without_pastes(events@)));
        }
    }
    assert(r@ =~= without_pastes(given));
    while pending.len() > 0
        invariant
            r@ + as_pastes(pending@) == without_pastes(given) + as_pastes(old(pending)@),
        decreases pending@.len(),
    {
        let ghost before = pending@;
        let ghost done = r@;
        let text = pending.remove(0);
        r.push(InputEvent::Paste(text));
        assert(r@ + as_pastes(pending@) =~= done + as_pastes(before));
    }
    assert(r@ =~= without_pastes(given) + as_pastes(old(pending)@));
    r
}

/// A handle of a gizmo that is drawn.
#[derive(Clone, Copy, Debug, PartialEq, Eq, Structural)]
pub struct PlaneHandle {
    pub quad: Quad,
    /// The axis that the plane is normal to, whose colour it takes.
    pub normal: Axis,
    pub fade: Real32,
    /// Hovered or dragged.
    pub active: bool,
}

/// An arrow of a gizmo that is drawn.
#[derive(Clone, Copy, Debug, PartialEq, Eq, Structural)]
pub struct AxisHandle {
    pub tip: Pixel,
    pub axis: Axis,
    pub fade: Real32,
    pub active: bool,
}

/// A handle that has turned away is not drawn.
pub open spec fn turned_away(fade: Real32) -> bool {
    fade.le_number(Real32 { bits: SINGLE_ZERO })
}

pub open spec fn plane_handle(quad: Option<Quad>, normal: Axis, fade: Real32, active: bool) -> Seq<PlaneHandle> {
    match quad {
        Some(quad) => only_if(!turned_away(fade), PlaneHandle { quad, normal, fade, active }),
        None => Seq::empty(),
    }
}

pub open spec fn axis_handle(tip: Option<Pixel>, axis: Axis, fade: Real32, active: bool) -> Seq<AxisHandle> {
    match tip {
        Some(tip) => only_if(!turned_away(fade), AxisHandle { tip, axis, fade, active }),
        None => Seq::empty(),
    }
}

impl MoveState {
    /// The pointer is over a plane handle or drags it.
    pub open spec fn plane_in_hand(self, index: u8) -> bool {
        self.hovered_plane == Some(index) || self.drag_plane_index == Some(index)
    }

    pub open spec fn axis_in_hand(self, index: u8) -> bool {
        self.hovered_axis == Some(index) || self.drag_axis_index == Some(index)
    }

    fn plane_active(&self, index: u8) -> (r: bool)
        ensures
            r == self.plane_in_hand(index),
    {
        let hovered = match self.hovered_plane {
            Some(plane) => plane == index,
            None => false,
        };
        let dragged = match self.drag_plane_index {
            Some(plane) => plane == index,
            None => false,
        };
        hovered || dragged
    }

    fn axis_active(&self, index: u8) -> (r: bool)
        ensures
            r == self.axis_in_hand(index),
    {
        let hovered = match self.hovered_axis {
            Some(axis) => axis == index,
            None => false,
        };
        let dragged = match self.drag_axis_index {
            Some(axis) => axis == index,
            None => false,
        };
        hovered || dragged
    }

    /// Whether the ring that moves in the camera plane is hovered or dragged.
    pub fn ring_active(&self) -> (r: bool)
        ensures
            r == self.plane_in_hand(MOVE_GIZMO_VIEW_PLANE),
    {
        self.plane_active(MOVE_GIZMO_VIEW_PLANE)
    }

    /// The plane handles, which sit under the arrows. Nothing is drawn until the
    /// gizmo has a centre on screen.
    pub open spec fn planes(self) -> Seq<PlaneHandle> {
        if self.screen.center_px is None {
            Seq::empty()
        } else {
            plane_handle(self.screen.plane_quad_px.x, Axis::Z, self.screen.plane_fade.x, self.plane_in_hand(0)) + plane_handle(
                self.screen.plane_quad_px.y,
                Axis::Y,
                self.screen.plane_fade.y,
                self.plane_in_hand(1),
            ) + plane_handle(self.screen.plane_quad_px.z, Axis::X, self.screen.plane_fade.z, self.plane_in_hand(2))
        }
    }

    /// The arrows.
    pub open spec fn arrows(self) -> Seq<AxisHandle> {
        if self.screen.center_px is None {
            Seq::empty()
        } else {
            axis_handle(self.screen.axis_tip_px.x, Axis::X, self.screen.axis_fade.x, self.axis_in_hand(0)) + axis_handle(
                self.screen.axis_tip_px.y,
                Axis::Y,
                self.screen.axis_fade.y,
                self.axis_in_hand(1),
            ) + axis_handle(self.screen.axis_tip_px.z, Axis::Z, self.screen.axis_fade.z, self.axis_in_hand(2))
        }
    }

    pub fn plane_handles(&self) -> (r: Vec<PlaneHandle>)
        ensures
            r@ == self.planes(),
    {
        let mut r: Vec<PlaneHandle> = Vec::new();
        if self.screen.center_px.is_some() {
            push_plane(&mut r, self.screen.plane_quad_px.x, Axis::Z, self.screen.plane_fade.x, self.plane_active(0));
            push_plane(&mut r, self.screen.plane_quad_px.y, Axis::Y, self.screen.plane_fade.y, self.plane_active(1));
            push_plane(&mut r, self.screen.plane_quad_px.z, Axis::X, self.screen.plane_fade.z, self.plane_active(2));
        }
        assert(r@ =~= self.planes());
        r
    }

    pub fn axis_handles(&self) -> (r: Vec<AxisHandle>)
        ensures
            r@ == self.arrows(),
    {
        let mut r: Vec<AxisHandle> = Vec::new();
        if self.screen.center_px.is_some() {
            push_arrow(&mut r, self.screen.axis_tip_px.x, Axis::X, self.screen.axis_fade.x, self.axis_active(0));
            push_arrow(&mut r, self.screen.axis_tip_px.y, Axis::Y, self.screen.axis_fade.y, self.axis_active(1));
            push_arrow(&mut r, self.screen.axis_tip_px.z, Axis::Z, self.screen.axis_fade.z, self.axis_active(2));
        }
        assert(r@ =~= self.arrows());
        r
    }
}

fn push_plane(out: &mut Vec<PlaneHandle>, quad: Option<Quad>, normal: Axis, fade: Real32, active: bool)
    ensures
        final(out)@ == old(out)@ + plane_handle(quad, normal, fade, active),
{
    match quad {
        Some(quad) => push_if(out, !fade.at_most(Real32 { bits: SINGLE_ZERO }), PlaneHandle { quad, normal, fade, active }),
        None => {
            assert(out@ =~= old(out)@ + plane_handle(quad, normal, fade, active));
        },
    }
}

fn push_arrow(out: &mut Vec<AxisHandle>, tip: Option<Pixel>, axis: Axis, fade: Real32, active: bool)
    ensures
        final(out)@ == old(out)@ + axis_handle(tip, axis, fade, active),
{
    match tip {
        Some(tip) => push_if(out, !fade.at_most(Real32 { bits: SINGLE_ZERO }), AxisHandle { tip, axis, fade, active }),
        None => {
            assert(out@ =~= old(out)@ + axis_handle(tip, axis, fade, active));
        },
    }
}

/// A gizmo that has not been projected draws no handle.
pub proof fn unprojected_gizmo_draws_nothing(state: MoveState)
    requires
        state.screen.center_px is None,
    ensures
        state.planes().len() == 0,
        state.arrows().len() == 0,
{
}

/// A ring of the rotate gizmo that is drawn.
#[derive(Debug)]
pub struct RingHandle {
    pub ring: u8,
    /// The closed curve, its first sample repeated at the end.
    pub path: Vec<Pixel>,
    pub fade: Real32,
    pub active: bool,
}

impl RingHandle {
    pub open spec fn closes(self, ring: u8, samples: Seq<Pixel>, fade: Real32, active: bool) -> bool {
        &&& self.ring == ring
        &&& self.path@ == samples.push(samples[0])
        &&& self.fade == fade
        &&& self.active == active
    }
}

impl RotateState {
    pub open spec fn ring_in_hand(self, ring: u8) -> bool {
        self.hovered_ring == Some(ring) || self.drag_ring == Some(ring)
    }

    pub open spec fn ring_samples(self, ring: u8) -> Seq<Pixel> {
        if ring == ROTATE_GIZMO_AZIMUTH_RING {
            self.screen.azimuth_ring_px@
        } else {
            self.screen.dip_ring_px@
        }
    }

    pub open spec fn ring_fade(self, ring: u8) -> Real32 {
        if ring == ROTATE_GIZMO_AZIMUTH_RING {
            self.screen.azimuth_fade
        } else {
            self.screen.dip_fade
        }
    }

    /// The ring is drawn: the gizmo has a centre, the ring has not turned away, and
    /// there is a curve to draw.
    pub open spec fn draws_ring(self, ring: u8) -> bool {
        &&& self.screen.center_px is Some
        &&& !turned_away(self.ring_fade(ring))
        &&& self.ring_samples(ring).len() >= 2
    }

    /// One ring of the gizmo. The dip ring is drawn last, so that it reads as
    /// standing in front where the two cross.
    pub fn ring_handle(&self, ring: u8) -> (r: Option<RingHandle>)
        requires
            ring == ROTATE_GIZMO_AZIMUTH_RING || ring == ROTATE_GIZMO_DIP_RING,
        ensures
            r is Some <==> self.draws_ring(ring),
            r matches Some(handle) ==> handle.closes(ring, self.ring_samples(ring), self.ring_fade(ring), self.ring_in_hand(ring)),
    {
        let (samples, fade) = if ring == ROTATE_GIZMO_AZIMUTH_RING {
            (&self.screen.azimuth_ring_px, self.screen.azimuth_fade)
        } else {
            (&self.screen.dip_ring_px, self.screen.dip_fade)
        };
        if self.screen.center_px.is_none() || fade.at_most(Real32 { bits: SINGLE_ZERO }) || samples.len() < 2 {
            return None;
        }
        let hovered = match self.hovered_ring {
            Some(index) => index == ring,
            None => false,
        };
        let dragged = match self.drag_ring {
            Some(index) => index == ring,
            None => false,
        };
        let mut path: Vec<Pixel> = Vec::new();
        let mut i: usize = 0;
        while i < samples.len()
            invariant
                i <= samples@.len(),
                path@ == samples@.take(i as int),
            decreases samples@.len() - i,
        {
            path.push(samples[i]);
            i = i + 1;
            assert(path@ =~= samples@.take(i as int));
        }
        assert(samples@.take(i as int) =~= samples@);
        path.push(samples[0]);
        Some(RingHandle { ring, path, fade, active: hovered || dragged })
    }
}

impl BezierState {
    /// Whether a control point is hovered or dragged.
    pub fn control_active(&self, control: u8) -> (r: bool)
        ensures
            r == (self.hover_cp == Some(control) || self.dragging_cp == Some(control)),
    {
        let hovered = match self.hover_cp {
            Some(index) => index == control,
            None => false,
        };
        let dragged = match self.dragging_cp {
            Some(index) => index == control,
            None => false,
        };
        hovered || dragged
    }
}

/// Where the chamfer arrow points.
#[derive(Clone, Copy, Debug, PartialEq, Eq, Structural)]
pub enum ChamferArrow {
    /// At the handle, or along the edge while the radius is about nothing.
    AtHandle { handle: Pixel, edge: Option<Pixel> },
    /// Along the edge.
    AlongEdge(Pixel),
    /// Nowhere: only the corner is marked.
    CornerOnly,
}

impl ChamferState {
    /// Whether the radius handle is hovered or dragged.
    pub fn handle_active(&self) -> (r: bool)
        ensures
            r == (self.gizmo_hovered || self.gizmo_drag_start_px is Some),
    {
        self.gizmo_hovered || self.gizmo_drag_start_px.is_some()
    }

    pub fn arrow(&self) -> (r: ChamferArrow)
        ensures
            r == (match (self.gizmo_handle_px, self.gizmo_bisector_px) {
                (Some(handle), edge) => ChamferArrow::AtHandle { handle, edge },
                (None, Some(edge)) => ChamferArrow::AlongEdge(edge),
                (None, None) => ChamferArrow::CornerOnly,
            }),
    {
        match self.gizmo_handle_px {
            Some(handle) => ChamferArrow::AtHandle { handle, edge: self.gizmo_bisector_px },
            None => match self.gizmo_bisector_px {
                Some(edge) => ChamferArrow::AlongEdge(edge),
                None => ChamferArrow::CornerOnly,
            },
        }
    }
}

/// What a delay card says.
#[verifier::allow_in_spec]
pub fn delay_label(delay_ms: u32) -> (r: Text)
    returns
        (plain1("%delay% ms", named("delay", Arg::Number(delay_ms as u64)))),
{
    plain1("%delay% ms", named("delay", Arg::Number(delay_ms as u64)))
}

/// Escape in the radius field steps back once: it drops typed text while there is some, and
/// the centre once there is none, never both in one frame. Without the focus nothing happens.
pub proof fn escape_steps_back_once(edit: RadiusEdit, draft: CircleDraft)
    ensures
        !(edit.drops_center(draft) && edit.drops_text(draft)),
        edit.has_focus && edit.escape ==> edit.drops_center(draft) || edit.drops_text(draft),
        !edit.has_focus || !edit.escape ==> !edit.drops_center(draft) && !edit.drops_text(draft),
        edit.has_focus && edit.escape ==> (edit.drops_text(draft) <==> edit.held(draft).len() > 0),
        edit.text matches Some(text) ==> edit.held(draft) == text@,
        edit.text is None ==> edit.held(draft) == draft.radius_text@,
{
}

/// Enter commits exactly a radius that can be drawn, written as an unsigned decimal, and only
/// in the field.
pub proof fn enter_commits_usable_radii(edit: RadiusEdit, draft: CircleDraft)
    ensures
        edit.commits(draft) ==> edit.has_focus && edit.enter && edit.parsed is Some && (edit.parsed->0).finite()
            && !(edit.parsed->0).negative() && edit.held(draft).len() > 0,
        edit.has_focus && edit.enter && unsigned_decimal(edit.held(draft)) && (edit.parsed matches Some(radius) && radius.finite()
            && (Real64 { bits: crate::constants::ONE }).le_number(radius)) ==> edit.commits(draft),
        edit.parsed is None ==> !edit.commits(draft),
{
}

/// The centre stays wherever the field leaves a circle at all. Typing begins where the cursor
/// is when the first character is typed, and is forgotten with the last one.
pub proof fn radius_edits_keep_the_centre(edit: RadiusEdit, before: CircleDraft, cursor: Option<Pixel>, after: CircleDraft)
    requires
        edit.leaves(before, cursor, after),
    ensures
        after.center == before.center,
        edit.drops_text(before) ==> after.radius_text@.len() == 0 && after.focus_requested && after.typing_origin_screen_px is None,
        !edit.drops_text(before) ==> after.radius_text@ == edit.held(before) && !after.focus_requested,
        !edit.drops_text(before) && edit.text is Some && before.radius_text@.len() == 0 && edit.held(before).len() > 0
            ==> after.typing_origin_screen_px == cursor,
        !edit.drops_text(before) && edit.text is Some && before.radius_text@.len() > 0 && edit.held(before).len() > 0
            ==> after.typing_origin_screen_px == before.typing_origin_screen_px,
        edit.text is Some && edit.held(before).len() == 0 ==> after.typing_origin_screen_px is None,
        !edit.drops_text(before) && edit.text is None ==> after.typing_origin_screen_px == before.typing_origin_screen_px,
{
}

/// The upper of two edges is one of them and is below neither; an edge that is no number
/// counts for nothing.
pub proof fn upper_edge_is_one_of_them(a: Real32, b: Real32)
    ensures
        upper(a, b) == a || upper(a, b) == b,
        !a.nan() && !b.nan() ==> upper(a, b).le_number(a) && upper(a, b).le_number(b),
        a.nan() && !b.nan() ==> upper(a, b) == b,
        b.nan() ==> upper(a, b) == a,
        !a.nan() && !b.nan() ==> upper(a, b).eq_number(upper(b, a)),
{
}

/// Of the events of a frame every one that is no paste is kept, in its order, and no paste
/// is: those of two frames together are those of the one and then of the other.
pub proof fn other_events_are_kept_in_order(first: Seq<InputEvent>, second: Seq<InputEvent>, event: InputEvent)
    ensures
        without_pastes(first + second) == without_pastes(first) + without_pastes(second),
        without_pastes(seq![event]) == (if event is Paste {
            Seq::empty()
        } else {
            seq![event]
        }),
        forall|i: int| 0 <= i < without_pastes(first).len() ==> !(#[trigger] without_pastes(first)[i] is Paste),
    decreases first.len(),
{
    let one = seq![event];
    assert(one.subrange(1, 1) =~= Seq::<InputEvent>::empty());
    assert(without_pastes(one.subrange(1, 1)).len() == 0);
    assert(without_pastes(one) =~= (if event is Paste {
        Seq::empty()
    } else {
        seq![event]
    }));
    if first.len() == 0 {
        assert(first + second =~= second);
        assert(without_pastes(first) + without_pastes(second) =~= without_pastes(second));
    } else {
        let rest = first.subrange(1, first.len() as int);
        other_events_are_kept_in_order(rest, second, event);
        assert((first + second).subrange(1, (first + second).len() as int) =~= rest + second);
        assert((first + second)[0] == first[0]);
        assert(without_pastes(first + second) =~= without_pastes(first) + without_pastes(second));
        if !(first[0] is Paste) {
            let all = without_pastes(first);
            assert forall|i: int| 0 <= i < all.len() implies !(#[trigger] all[i] is Paste) by {
                if i > 0 {
                    assert(all[i] == without_pastes(rest)[i - 1]);
                }
            }
        }
    }
}

/// Each text that was pasted becomes one paste, in its order.
pub proof fn pasted_texts_become_pastes(texts: Seq<String>, place: int)
    requires
        0 <= place < texts.len(),
    ensures
        as_pastes(texts).len() == texts.len(),
        as_pastes(texts)[place] == InputEvent::Paste(texts[place]),
{
}

/// A handle is drawn while any of it faces the camera, and none that has faded to nothing.
pub proof fn faded_handles_are_not_drawn(fade: Real32, quad: Quad, tip: Pixel, axis: Axis, active: bool)
    ensures
        fade.rank() <= 0 && !fade.nan() ==> turned_away(fade),
        fade.rank() > 0 || fade.nan() ==> !turned_away(fade),
        plane_handle(Some(quad), axis, fade, active).len() == (if turned_away(fade) { 0int } else { 1 }),
        axis_handle(Some(tip), axis, fade, active).len() == (if turned_away(fade) { 0int } else { 1 }),
        !turned_away(fade) ==> plane_handle(Some(quad), axis, fade, active)[0] == (PlaneHandle { quad, normal: axis, fade, active }),
        !turned_away(fade) ==> axis_handle(Some(tip), axis, fade, active)[0] == (AxisHandle { tip, axis, fade, active }),
        plane_handle(None, axis, fade, active).len() == 0,
        axis_handle(None, axis, fade, active).len() == 0,
{
}

/// While the gizmo is on screen with all of it facing the camera, it has three arrows, each
/// at the tip of its own axis, and three planes, each normal to the axis that it does not
/// span. The one that is hovered or dragged is lit, and no other.
pub proof fn gizmo_handles_are_in_place(state: MoveState)
    requires
        state.screen.center_px is Some,
        state.screen.axis_tip_px.x is Some && state.screen.axis_tip_px.y is Some && state.screen.axis_tip_px.z is Some,
        state.screen.plane_quad_px.x is Some && state.screen.plane_quad_px.y is Some && state.screen.plane_quad_px.z is Some,
        !turned_away(state.screen.axis_fade.x) && !turned_away(state.screen.axis_fade.y) && !turned_away(state.screen.axis_fade.z),
        !turned_away(state.screen.plane_fade.x) && !turned_away(state.screen.plane_fade.y) && !turned_away(state.screen.plane_fade.z),
    ensures
        state.arrows().len() == 3,
        state.arrows()[0].tip == state.screen.axis_tip_px.x->0 && state.arrows()[0].axis is X && state.arrows()[0].fade
            == state.screen.axis_fade.x,
        state.arrows()[1].tip == state.screen.axis_tip_px.y->0 && state.arrows()[1].axis is Y && state.arrows()[1].fade
            == state.screen.axis_fade.y,
        state.arrows()[2].tip == state.screen.axis_tip_px.z->0 && state.arrows()[2].axis is Z && state.arrows()[2].fade
            == state.screen.axis_fade.z,
        forall|i: int| #![trigger state.arrows()[i]]
            0 <= i < 3 ==> state.arrows()[i].active == ((state.hovered_axis matches Some(axis) && axis == i)
                || (state.drag_axis_index matches Some(axis) && axis == i)),
        state.planes().len() == 3,
        state.planes()[0].quad == state.screen.plane_quad_px.x->0 && state.planes()[0].normal is Z && state.planes()[0].fade
            == state.screen.plane_fade.x,
        state.planes()[1].quad == state.screen.plane_quad_px.y->0 && state.planes()[1].normal is Y && state.planes()[1].fade
            == state.screen.plane_fade.y,
        state.planes()[2].quad == state.screen.plane_quad_px.z->0 && state.planes()[2].normal is X && state.planes()[2].fade
            == state.screen.plane_fade.z,
        forall|i: int| #![trigger state.planes()[i]]
            0 <= i < 3 ==> state.planes()[i].active == ((state.hovered_plane matches Some(plane) && plane == i)
                || (state.drag_plane_index matches Some(plane) && plane == i)),
{
    let arrows = state.arrows();
    let planes = state.planes();
    assert(arrows[0].axis is X && arrows[1].axis is Y && arrows[2].axis is Z);
    assert(planes[0].normal is Z && planes[1].normal is Y && planes[2].normal is X);
    assert forall|i: int| #![trigger state.arrows()[i]] 0 <= i < 3 implies state.arrows()[i].active == ((state.hovered_axis
        matches Some(axis) && axis == i) || (state.drag_axis_index matches Some(axis) && axis == i)) by {
        assert(i == 0 || i == 1 || i == 2);
    }
    assert forall|i: int| #![trigger state.planes()[i]] 0 <= i < 3 implies state.planes()[i].active == ((state.hovered_plane
        matches Some(plane) && plane == i) || (state.drag_plane_index matches Some(plane) && plane == i)) by {
        assert(i == 0 || i == 1 || i == 2);
    }
}

/// The azimuth ring and the dip ring are each drawn from their own curve and fade, and a ring
/// is lit while it is hovered or dragged.
pub proof fn rings_are_drawn_from_their_own_curve(state: RotateState, ring: u8)
    ensures
        state.ring_samples(ROTATE_GIZMO_AZIMUTH_RING) == state.screen.azimuth_ring_px@,
        state.ring_samples(ROTATE_GIZMO_DIP_RING) == state.screen.dip_ring_px@,
        state.ring_fade(ROTATE_GIZMO_AZIMUTH_RING) == state.screen.azimuth_fade,
        state.ring_fade(ROTATE_GIZMO_DIP_RING) == state.screen.dip_fade,
        ROTATE_GIZMO_AZIMUTH_RING != ROTATE_GIZMO_DIP_RING,
        state.ring_in_hand(ROTATE_GIZMO_AZIMUTH_RING) && state.ring_in_hand(ROTATE_GIZMO_DIP_RING) ==> state.hovered_ring is Some
            && state.drag_ring is Some && state.hovered_ring != state.drag_ring,
        state.hovered_ring is None && state.drag_ring is None ==> !state.ring_in_hand(ROTATE_GIZMO_AZIMUTH_RING)
            && !state.ring_in_hand(ROTATE_GIZMO_DIP_RING),
        state.hovered_ring == Some(ring) || state.drag_ring == Some(ring) ==> state.ring_in_hand(ring),
        state.ring_in_hand(ring) && state.hovered_ring != Some(ring) ==> state.drag_ring == Some(ring),
{
}

/// A ring is drawn as a closed curve through its samples.
pub proof fn rings_are_closed(handle: RingHandle, ring: u8, samples: Seq<Pixel>, fade: Real32, active: bool)
    requires
        handle.closes(ring, samples, fade, active),
        samples.len() >= 2,
    ensures
        handle.path@.len() == samples.len() + 1,
        handle.path@[0] == handle.path@.last(),
        handle.path@.take(samples.len() as int) == samples,
        handle.ring == ring && handle.fade == fade && handle.active == active,
{
    assert(handle.path@.take(samples.len() as int) =~= samples);
}

/// A ring is drawn only where there is a curve to see: with a centre on screen, two samples
/// at least, and some of it facing the camera.
pub proof fn rings_need_a_curve(state: RotateState, ring: u8)
    ensures
        state.draws_ring(ring) ==> state.screen.center_px is Some && state.ring_samples(ring).len() >= 2 && !turned_away(
            state.ring_fade(ring),
        ),
        state.screen.center_px is Some && state.ring_samples(ring).len() >= 2 && state.ring_fade(ring).rank() > 0 && !state.ring_fade(
            ring,
        ).nan() ==> state.draws_ring(ring),
{
}

/// The selection is an opaque blue: no component is stronger than its blue, and none weaker
/// than its red.
pub proof fn selections_are_blue()
    ensures
        spec_selection_color().a == u8::MAX && spec_selection_color().b == u8::MAX,
        spec_selection_color().r == 87 && spec_selection_color().g == 163,
{
}

} // verus!
