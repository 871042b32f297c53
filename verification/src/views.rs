//! Cameras, drafts and overlays whose numbers the application works out.
use crate::constants::{
    EPSILON, FORTY, HALF_PI, HUNDRED, HUNDREDTH, MAX_PITCH, MINUS_HALF_PI, MINUS_QUARTER_PI, MIN_PITCH, ONE, PI, SINGLE_ONE,
    SINGLE_ZERO, SIXTH_PI, TENTH, ZERO,
};
use crate::number::{Pair64, Pixel, Real32, Real64, Vec3};
use crate::palette::{premultiplied, premultiply, PackedColor, StoredColor};
use crate::tools::StandardView;
use crate::words::{is_unsigned_decimal, unsigned_decimal};
use std::collections::hash_map::DefaultHasher;
use std::hash::Hasher;
use vstd::bytes::{spec_u64_to_le_bytes, u64_to_le_bytes};
use vstd::prelude::*;

verus! {

/// A size in physical pixels.
#[derive(Clone, Copy, Debug, PartialEq, Eq, Structural)]
pub struct SizePx {
    pub width: u32,
    pub height: u32,
}

/// A texture that the renderer has registered with the interface.
#[derive(Clone, Copy, Debug, PartialEq, Eq, Structural)]
pub enum TextureId {
    Managed(u64),
    User(u64),
}

/// Feed one word to a hasher, as its eight bytes.
pub fn write_word(hasher: &mut DefaultHasher, word: u64)
    ensures
        final(hasher)@ == old(hasher)@.push(spec_u64_to_le_bytes(word)),
{
    let bytes = u64_to_le_bytes(word);
    hasher.write(bytes.as_slice());
}

/// How the solid preview looks at its solid: an orbit around the mesh's own
/// centre, and a zoom on the framing that fits it.
#[derive(Clone, Copy, Debug, PartialEq, Eq, Structural)]
pub struct SolidPreviewView {
    /// Rotation about the vertical axis, in radians.
    pub yaw: Real64,
    /// Elevation above the horizon, in radians, short of the poles.
    pub pitch: Real64,
    /// One frames the whole mesh; larger moves in.
    pub zoom_multiplier: Real64,
    /// Offset of the framed centre, as a fraction of the framing radius.
    pub pan: Pair64,
}

impl SolidPreviewView {
    /// A raised three-quarter view, in which a pit reads as a pit.
    pub open spec fn opening() -> SolidPreviewView {
        SolidPreviewView {
            yaw: Real64 { bits: MINUS_QUARTER_PI },
            pitch: Real64 { bits: SIXTH_PI },
            zoom_multiplier: Real64 { bits: ONE },
            pan: Pair64 { x: Real64 { bits: ZERO }, y: Real64 { bits: ZERO } },
        }
    }

    /// The elevation stays short of straight up and straight down, and the zoom
    /// within its range.
    pub open spec fn well_formed(self) -> bool {
        &&& (Real64 { bits: MIN_PITCH }).le_number(self.pitch)
        &&& self.pitch.le_number(Real64 { bits: MAX_PITCH })
        &&& (Real64 { bits: TENTH }).le_number(self.zoom_multiplier)
        &&& self.zoom_multiplier.le_number(Real64 { bits: FORTY })
    }

    pub open spec fn facing(self, view: StandardView) -> SolidPreviewView {
        let zero = Real64 { bits: ZERO };
        let (yaw, pitch) = match view {
            StandardView::Up => (self.yaw, Real64 { bits: MAX_PITCH }),
            StandardView::Down => (self.yaw, Real64 { bits: MIN_PITCH }),
            StandardView::North => (Real64 { bits: MINUS_HALF_PI }, zero),
            StandardView::South => (Real64 { bits: HALF_PI }, zero),
            StandardView::West => (zero, zero),
            StandardView::East => (Real64 { bits: PI }, zero),
        };
        SolidPreviewView { yaw, pitch, ..self }
    }

    /// The words that tell one view from another.
    pub open spec fn words(self) -> Seq<u64> {
        seq![self.yaw.bits, self.pitch.bits, self.zoom_multiplier.bits, self.pan.x.bits, self.pan.y.bits]
    }

    /// The view after a drag that adds up to a yaw and a pitch: the pitch stops
    /// short of the poles.
    pub open spec fn orbited(self, yaw: Real64, pitch: Real64) -> SolidPreviewView {
        SolidPreviewView {
            yaw,
            pitch: pitch.held_between(Real64 { bits: MIN_PITCH }, Real64 { bits: MAX_PITCH }),
            ..self
        }
    }

    /// The view after a scroll that adds up to a zoom: within a tenth and forty.
    pub open spec fn zoomed(self, multiplier: Real64) -> SolidPreviewView {
        SolidPreviewView {
            zoom_multiplier: multiplier.held_between(Real64 { bits: TENTH }, Real64 { bits: FORTY }),
            ..self
        }
    }

    /// Take up the yaw and pitch that a drag adds up to.
    pub fn orbit_by_pixels(&mut self, yaw: Real64, pitch: Real64)
        ensures
            *final(self) == old(self).orbited(yaw, pitch),
            old(self).well_formed() && !pitch.nan() ==> final(self).well_formed(),
    {
        self.yaw = yaw;
        self.pitch = pitch.clamp_to(Real64 { bits: MIN_PITCH }, Real64 { bits: MAX_PITCH });
    }

    /// Take up the zoom that a scroll adds up to.
    pub fn zoom_by_scroll(&mut self, multiplier: Real64)
        ensures
            *final(self) == old(self).zoomed(multiplier),
            old(self).well_formed() && !multiplier.nan() ==> final(self).well_formed(),
    {
        self.zoom_multiplier = multiplier.clamp_to(Real64 { bits: TENTH }, Real64 { bits: FORTY });
    }

    /// Slide the framed centre to where a drag takes it.
    pub fn pan_by_pixels(&mut self, pan: Pair64)
        ensures
            *final(self) == (SolidPreviewView { pan, ..*old(self) }),
    {
        self.pan = pan;
    }

    /// Swing the orbit round to one of the gizmo's named directions.
    pub fn face(&mut self, view: StandardView)
        ensures
            *final(self) == old(self).facing(view),
    {
        let zero = Real64 { bits: ZERO };
        let (yaw, pitch) = match view {
            StandardView::Up => (self.yaw, Real64 { bits: MAX_PITCH }),
            StandardView::Down => (self.yaw, Real64 { bits: MIN_PITCH }),
            StandardView::North => (Real64 { bits: MINUS_HALF_PI }, zero),
            StandardView::South => (Real64 { bits: HALF_PI }, zero),
            StandardView::West => (zero, zero),
            StandardView::East => (Real64 { bits: PI }, zero),
        };
        self.yaw = yaw;
        self.pitch = pitch;
    }

    /// Feed the view to a hasher, word by word.
    pub fn hash_into(self, hasher: &mut DefaultHasher)
        ensures
            final(hasher)@ == old(hasher)@ + self.words().map_values(|word: u64| spec_u64_to_le_bytes(word)),
    {
        write_word(hasher, self.yaw.bits);
        write_word(hasher, self.pitch.bits);
        write_word(hasher, self.zoom_multiplier.bits);
        write_word(hasher, self.pan.x.bits);
        write_word(hasher, self.pan.y.bits);
        assert(hasher@ =~= old(hasher)@ + self.words().map_values(|word: u64| spec_u64_to_le_bytes(word)));
    }
}

impl Default for SolidPreviewView {
    fn default() -> (r: SolidPreviewView)
        ensures
            r == SolidPreviewView::opening(),
    {
        SolidPreviewView {
            yaw: Real64 { bits: MINUS_QUARTER_PI },
            pitch: Real64 { bits: SIXTH_PI },
            zoom_multiplier: Real64 { bits: ONE },
            pan: Pair64 { x: Real64 { bits: ZERO }, y: Real64 { bits: ZERO } },
        }
    }
}

/// The opening view is well formed, and facing a named direction keeps a view so
/// and forgets the view it came from but for a yaw that looking up or down keeps.
pub proof fn facing_keeps_view_well_formed(a: SolidPreviewView, b: SolidPreviewView, view: StandardView)
    requires
        a.well_formed(),
    ensures
        SolidPreviewView::opening().well_formed(),
        a.facing(view).well_formed(),
        a.facing(view).facing(view) == a.facing(view),
        a.yaw == b.yaw && a.zoom_multiplier == b.zoom_multiplier && a.pan == b.pan ==> a.facing(view) == b.facing(view),
        !(view is Up) && !(view is Down) ==> a.facing(view).yaw == b.facing(view).yaw,
{
}

/// Two views feed a hasher the same words only where they are the same view.
pub proof fn view_words_tell_views_apart(a: SolidPreviewView, b: SolidPreviewView)
    requires
        a.words() == b.words(),
    ensures
        a == b,
{
    assert(a.words()[0] == b.words()[0] && a.words()[1] == b.words()[1] && a.words()[2] == b.words()[2]);
    assert(a.words()[3] == b.words()[3] && a.words()[4] == b.words()[4]);
}

/// Plan-camera navigation of the vertical-slice overview: an offset of the
/// centre and a zoom scale, apart from the geometry of the section itself.
#[derive(Clone, Copy, Debug, PartialEq, Eq, Structural)]
pub struct SlicePreviewNavigation {
    pub center_offset_xy: Pair64,
    pub zoom_multiplier: Real64,
}

impl SlicePreviewNavigation {
    /// No offset, and the fitted zoom.
    pub open spec fn fitted() -> SlicePreviewNavigation {
        SlicePreviewNavigation {
            center_offset_xy: Pair64 { x: Real64 { bits: ZERO }, y: Real64 { bits: ZERO } },
            zoom_multiplier: Real64 { bits: ONE },
        }
    }

    /// The zoom scale stays between a hundredth and a hundred.
    pub open spec fn well_formed(self) -> bool {
        (Real64 { bits: HUNDREDTH }).le_number(self.zoom_multiplier) && self.zoom_multiplier.le_number(Real64 { bits: HUNDRED })
    }

    pub fn reset(&mut self)
        ensures
            *final(self) == SlicePreviewNavigation::fitted(),
    {
        *self = SlicePreviewNavigation::default();
    }

    pub fn center_offset_xy(self) -> (r: Pair64)
        ensures
            r == self.center_offset_xy,
    {
        self.center_offset_xy
    }

    pub fn zoom_multiplier(self) -> (r: Real64)
        ensures
            r == self.zoom_multiplier,
    {
        self.zoom_multiplier
    }

    /// A drag that can be followed: finite, at a finite positive zoom in a
    /// viewport of finite positive height.
    pub open spec fn can_pan(delta_px: Pair64, current_zoom: Real64, viewport_height_px: Real64) -> bool {
        &&& delta_px.x.finite()
        &&& delta_px.y.finite()
        &&& current_zoom.finite()
        &&& (Real64 { bits: ZERO }).lt_number(current_zoom)
        &&& viewport_height_px.finite()
        &&& (Real64 { bits: ZERO }).lt_number(viewport_height_px)
    }

    /// Follow the pointer to `moved`, where the application has taken the offset
    /// by the drag. Whether the map moved.
    pub fn pan_by_pixels(&mut self, delta_px: Pair64, current_zoom: Real64, viewport_height_px: Real64, moved: Pair64) -> (r: bool)
        ensures
            !Self::can_pan(delta_px, current_zoom, viewport_height_px) ==> !r && *final(self) == *old(self),
            Self::can_pan(delta_px, current_zoom, viewport_height_px) ==> *final(self) == (SlicePreviewNavigation {
                center_offset_xy: moved,
                ..*old(self)
            }) && r == !(delta_px.x.rank() == 0 && delta_px.y.rank() == 0),
    {
        let zero = Real64 { bits: ZERO };
        if !delta_px.x.is_finite() || !delta_px.y.is_finite() || !current_zoom.is_finite() || current_zoom.at_most(zero)
            || !viewport_height_px.is_finite() || viewport_height_px.at_most(zero) {
            return false;
        }
        self.center_offset_xy = moved;
        !(delta_px.x.equals(zero) && delta_px.y.equals(zero))
    }

    /// A wheel step that can be followed.
    pub open spec fn can_zoom(scroll: Real64, cursor_px: Pair64, viewport_px: Pair64, fitted_zoom: Real64) -> bool {
        let zero = Real64 { bits: ZERO };
        &&& scroll.finite()
        &&& scroll.rank() != 0
        &&& cursor_px.x.finite()
        &&& cursor_px.y.finite()
        &&& viewport_px.x.finite()
        &&& viewport_px.y.finite()
        &&& zero.lt_number(viewport_px.x)
        &&& zero.lt_number(viewport_px.y)
        &&& fitted_zoom.finite()
        &&& zero.lt_number(fitted_zoom)
    }

    /// The zoom scale within its range.
    pub open spec fn clamped(scaled: Real64) -> Real64 {
        if scaled.lt_number(Real64 { bits: HUNDREDTH }) {
            Real64 { bits: HUNDREDTH }
        } else if (Real64 { bits: HUNDRED }).lt_number(scaled) {
            Real64 { bits: HUNDRED }
        } else {
            scaled
        }
    }

    /// The zoom scale that a wheel step leads to, given the present scale
    /// multiplied by the step; nothing where the step cannot be followed or
    /// leaves the scale where it is.
    pub fn zoom_at_pixel(self, scroll: Real64, cursor_px: Pair64, viewport_px: Pair64, fitted_zoom: Real64, scaled: Real64) -> (r:
        Option<Real64>)
        ensures
            r is Some <==> Self::can_zoom(scroll, cursor_px, viewport_px, fitted_zoom) && !Self::clamped(scaled).eq_number(
                self.zoom_multiplier,
            ),
            r matches Some(multiplier) ==> multiplier == Self::clamped(scaled),
    {
        let zero = Real64 { bits: ZERO };
        if !scroll.is_finite() || scroll.equals(zero) || !cursor_px.x.is_finite() || !cursor_px.y.is_finite()
            || !viewport_px.x.is_finite() || !viewport_px.y.is_finite() || viewport_px.x.at_most(zero) || viewport_px.y.at_most(zero)
            || !fitted_zoom.is_finite() || fitted_zoom.at_most(zero) {
            return None;
        }
        let multiplier = scaled.clamp_to(Real64 { bits: HUNDREDTH }, Real64 { bits: HUNDRED });
        if multiplier.equals(self.zoom_multiplier) {
            None
        } else {
            Some(multiplier)
        }
    }

    /// Take up a zoom scale, with the offset that keeps the point under the
    /// cursor where it is.
    pub fn settle_zoom(&mut self, multiplier: Real64, center_offset_xy: Pair64)
        ensures
            *final(self) == (SlicePreviewNavigation { center_offset_xy, zoom_multiplier: multiplier }),
    {
        self.center_offset_xy = center_offset_xy;
        self.zoom_multiplier = multiplier;
    }
}

impl Default for SlicePreviewNavigation {
    fn default() -> (r: SlicePreviewNavigation)
        ensures
            r == SlicePreviewNavigation::fitted(),
    {
        SlicePreviewNavigation {
            center_offset_xy: Pair64 { x: Real64 { bits: ZERO }, y: Real64 { bits: ZERO } },
            zoom_multiplier: Real64 { bits: ONE },
        }
    }
}

/// Navigation starts within the zoom range, and a scale that a wheel step leads
/// to lies within it.
pub proof fn slice_zoom_stays_in_range(scaled: Real64)
    requires
        !scaled.nan(),
    ensures
        SlicePreviewNavigation::fitted().well_formed(),
        (Real64 { bits: HUNDREDTH }).le_number(SlicePreviewNavigation::clamped(scaled)),
        SlicePreviewNavigation::clamped(scaled).le_number(Real64 { bits: HUNDRED }),
{
}

/// The plane through three picked points, as the Strike and Dip tool reports it.
#[derive(Clone, Copy, Debug, PartialEq, Eq, Structural)]
pub struct BatterAngleMeasurement {
    /// The plane's steepest slope, in degrees below horizontal.
    pub dip_degrees: Real64,
    /// The bearing of the plane's horizontal line, in degrees clockwise from
    /// grid north. A horizontal plane has none.
    pub strike_degrees: Option<Real64>,
    /// Closest point on the line through the first two picks.
    pub projection: Vec3,
}

/// The centre-to-radius phase of the circle tool.
#[derive(Debug)]
pub struct CircleDraft {
    pub center: Vec3,
    pub radius_text: String,
    /// Cursor position at the first typed character.
    pub typing_origin_screen_px: Option<Pixel>,
    pub focus_requested: bool,
}

/// A radius long enough to draw a circle with.
pub open spec fn usable_radius(radius: Real64) -> bool {
    radius.finite() && (Real64 { bits: EPSILON }).lt_number(radius)
}

/// The radius, where there is one that can be used.
pub open spec fn usable(radius: Option<Real64>) -> Option<Real64> {
    match radius {
        Some(radius) => if usable_radius(radius) {
            Some(radius)
        } else {
            None
        },
        None => None,
    }
}

fn keep_usable(radius: Option<Real64>) -> (r: Option<Real64>)
    ensures
        r == usable(radius),
{
    match radius {
        Some(radius) => if radius.is_finite() && (Real64 { bits: EPSILON }).less(radius) {
            Some(radius)
        } else {
            None
        },
        None => None,
    }
}

impl CircleDraft {
    pub fn new(center: Vec3) -> (r: CircleDraft)
        ensures
            r.center == center,
            r.radius_text@.len() == 0,
            r.typing_origin_screen_px is None,
            r.focus_requested,
    {
        CircleDraft { center, radius_text: String::new(), typing_origin_screen_px: None, focus_requested: true }
    }

    /// The typed radius: what the text parses to, where the text is in unsigned
    /// decimal notation.
    pub open spec fn spec_typed_radius(self, parsed: Option<Real64>) -> Option<Real64> {
        if unsigned_decimal(self.radius_text@) {
            usable(parsed)
        } else {
            None
        }
    }

    /// The typed radius, given what the text parses to.
    pub fn typed_radius(&self, parsed: Option<Real64>) -> (r: Option<Real64>)
        ensures
            r == self.spec_typed_radius(parsed),
    {
        if !is_unsigned_decimal(self.radius_text.as_str()) {
            return None;
        }
        keep_usable(parsed)
    }

    /// The radius out to the cursor, given its distance from the centre in plan.
    pub fn mouse_radius(&self, distance: Option<Real64>) -> (r: Option<Real64>)
        ensures
            r == usable(distance),
    {
        keep_usable(distance)
    }

    /// The radius that is drawn: the typed one before the cursor's.
    pub fn preview_radius(&self, parsed: Option<Real64>, distance: Option<Real64>) -> (r: Option<Real64>)
        ensures
            self.spec_typed_radius(parsed) is Some ==> r == self.spec_typed_radius(parsed),
            self.spec_typed_radius(parsed) is None ==> r == usable(distance),
    {
        let typed = self.typed_radius(parsed);
        if typed.is_some() {
            typed
        } else {
            self.mouse_radius(distance)
        }
    }

    /// The radius that a click commits: the cursor's.
    pub fn pointer_commit_radius(&self, distance: Option<Real64>) -> (r: Option<Real64>)
        ensures
            r == usable(distance),
    {
        self.mouse_radius(distance)
    }

    /// Remember where typing began; forget it once the text is empty.
    pub fn note_radius_text_changed(&mut self, was_empty: bool, cursor_screen_px: Option<Pixel>)
        ensures
            final(self).center == old(self).center,
            final(self).radius_text == old(self).radius_text,
            final(self).focus_requested == old(self).focus_requested,
            old(self).radius_text@.len() == 0 ==> final(self).typing_origin_screen_px is None,
            old(self).radius_text@.len() > 0 && was_empty ==> final(self).typing_origin_screen_px == cursor_screen_px,
            old(self).radius_text@.len() > 0 && !was_empty ==> final(self).typing_origin_screen_px == old(self).typing_origin_screen_px,
    {
        if self.radius_text.as_str().is_empty() {
            self.typing_origin_screen_px = None;
        } else if was_empty {
            self.typing_origin_screen_px = cursor_screen_px;
        }
    }

    /// Leave typed-radius mode after a deliberate pointer move: one whose squared
    /// length exceeds the squared threshold. Whether that happened.
    pub fn reset_typed_for_pointer_movement(&mut self, cursor_screen_px: Option<Pixel>, moved_squared: Real32, threshold_squared: Real32) -> (r:
        bool)
        ensures
            r == (old(self).typing_origin_screen_px is Some && cursor_screen_px is Some && !moved_squared.le_number(
                threshold_squared,
            )),
            !r ==> *final(self) == *old(self),
            r ==> final(self).center == old(self).center && final(self).radius_text@.len() == 0 && final(self).typing_origin_screen_px is None && final(self).focus_requested,
    {
        if self.typing_origin_screen_px.is_none() || cursor_screen_px.is_none() || moved_squared.at_most(threshold_squared) {
            return false;
        }
        self.radius_text = String::new();
        self.typing_origin_screen_px = None;
        self.focus_requested = true;
        true
    }
}

/// Horizontal axis of an upright section-grid line.
#[derive(Clone, Copy, Debug, PartialEq, Eq, Structural)]
pub enum SectionGridAxis {
    Easting,
    Northing,
}

/// A section-grid line at constant elevation, or one where the cut crosses a
/// world easting or northing.
#[derive(Clone, Copy, Debug, PartialEq, Eq, Structural)]
pub enum SectionGridLineKind {
    Level,
    Upright(SectionGridAxis),
}

/// One frame's projection of a section-grid line.
#[derive(Clone, Copy, Debug, PartialEq, Eq, Structural)]
pub struct SectionGridLine {
    pub from_px: Pixel,
    pub to_px: Pixel,
    /// World coordinate in metres.
    pub value: Real64,
    pub kind: SectionGridLineKind,
}

/// The section grid's look.
#[derive(Clone, Copy, Debug, PartialEq, Eq, Hash)]
pub struct SectionGridStyle {
    /// `None` picks a colour that contrasts the background.
    pub color: Option<PackedColor>,
    /// Line width in pixels.
    pub thickness: Real64,
    /// Metres between levels; `None` sizes them from the zoom.
    pub level_spacing: Option<Real64>,
}

impl SectionGridStyle {
    pub open spec fn plain() -> SectionGridStyle {
        SectionGridStyle { color: None, thickness: Real64 { bits: ONE }, level_spacing: None }
    }
}

impl Default for SectionGridStyle {
    fn default() -> (r: SectionGridStyle)
        ensures
            r == SectionGridStyle::plain(),
    {
        SectionGridStyle { color: None, thickness: Real64 { bits: ONE }, level_spacing: None }
    }
}

/// The plan grid's look. Its spacing is not overridden.
#[derive(Clone, Copy, Debug, PartialEq, Eq, Hash)]
pub struct PlanGridStyle {
    /// `None` keeps the colours picked against the background.
    pub color: Option<PackedColor>,
    /// Line width in pixels.
    pub thickness: Real64,
}

impl PlanGridStyle {
    pub open spec fn plain() -> PlanGridStyle {
        PlanGridStyle { color: None, thickness: Real64 { bits: ONE } }
    }
}

impl Default for PlanGridStyle {
    fn default() -> (r: PlanGridStyle)
        ensures
            r == PlanGridStyle::plain(),
    {
        PlanGridStyle { color: None, thickness: Real64 { bits: ONE } }
    }
}

/// The grid options dialog's fields, for the level grid in a section or the grid
/// in plan.
#[derive(Clone, Copy, Debug, PartialEq, Eq, Structural)]
pub struct GridOptionsDialog {
    /// The plan grid, which has no spacing fields.
    pub plan: bool,
    pub auto_color: bool,
    pub color: PackedColor,
    pub thickness: Real64,
    pub auto_spacing: bool,
    pub spacing: Real64,
}

impl GridOptionsDialog {
    /// The colour that a grid of automatic colour is first offered.
    pub open spec fn color_seed() -> PackedColor {
        premultiplied(StoredColor { r: 140, g: 146, b: 152, a: 115 })
    }

    pub open spec fn opened_on_section(style: SectionGridStyle, spacing_now: Real64) -> GridOptionsDialog {
        GridOptionsDialog {
            plan: false,
            auto_color: style.color is None,
            color: match style.color {
                Some(color) => color,
                None => GridOptionsDialog::color_seed(),
            },
            thickness: style.thickness,
            auto_spacing: style.level_spacing is None,
            spacing: match style.level_spacing {
                Some(spacing) => spacing,
                None => spacing_now,
            },
        }
    }

    pub open spec fn opened_on_plan(style: PlanGridStyle) -> GridOptionsDialog {
        GridOptionsDialog {
            plan: true,
            auto_color: style.color is None,
            color: match style.color {
                Some(color) => color,
                None => GridOptionsDialog::color_seed(),
            },
            thickness: style.thickness,
            auto_spacing: true,
            spacing: Real64 { bits: ZERO },
        }
    }

    pub open spec fn as_section_style(self) -> SectionGridStyle {
        SectionGridStyle {
            color: if self.auto_color {
                None
            } else {
                Some(self.color)
            },
            thickness: self.thickness,
            level_spacing: if self.auto_spacing {
                None
            } else {
                Some(self.spacing)
            },
        }
    }

    pub open spec fn as_plan_style(self) -> PlanGridStyle {
        PlanGridStyle {
            color: if self.auto_color {
                None
            } else {
                Some(self.color)
            },
            thickness: self.thickness,
        }
    }

    /// Open on the section grid's style; `spacing_now` seeds the manual spacing
    /// with what the zoom chose.
    pub fn open_section(style: SectionGridStyle, spacing_now: Real64) -> (r: GridOptionsDialog)
        ensures
            r == GridOptionsDialog::opened_on_section(style, spacing_now),
    {
        GridOptionsDialog {
            plan: false,
            auto_color: style.color.is_none(),
            color: match style.color {
                Some(color) => color,
                None => premultiply(StoredColor { r: 140, g: 146, b: 152, a: 115 }),
            },
            thickness: style.thickness,
            auto_spacing: style.level_spacing.is_none(),
            spacing: match style.level_spacing {
                Some(spacing) => spacing,
                None => spacing_now,
            },
        }
    }

    pub fn open_plan(style: PlanGridStyle) -> (r: GridOptionsDialog)
        ensures
            r == GridOptionsDialog::opened_on_plan(style),
    {
        GridOptionsDialog {
            plan: true,
            auto_color: style.color.is_none(),
            color: match style.color {
                Some(color) => color,
                None => premultiply(StoredColor { r: 140, g: 146, b: 152, a: 115 }),
            },
            thickness: style.thickness,
            auto_spacing: true,
            spacing: Real64 { bits: ZERO },
        }
    }

    pub fn section_style(&self) -> (r: SectionGridStyle)
        ensures
            r == self.as_section_style(),
    {
        SectionGridStyle {
            color: if self.auto_color {
                None
            } else {
                Some(self.color)
            },
            thickness: self.thickness,
            level_spacing: if self.auto_spacing {
                None
            } else {
                Some(self.spacing)
            },
        }
    }

    pub fn plan_style(&self) -> (r: PlanGridStyle)
        ensures
            r == self.as_plan_style(),
    {
        PlanGridStyle {
            color: if self.auto_color {
                None
            } else {
                Some(self.color)
            },
            thickness: self.thickness,
        }
    }
}

/// A dialog that is opened and applied untouched changes nothing, whatever
/// spacing the zoom had chosen.
pub proof fn untouched_grid_dialog_changes_nothing(section: SectionGridStyle, plan: PlanGridStyle, spacing_now: Real64)
    ensures
        GridOptionsDialog::opened_on_section(section, spacing_now).as_section_style() == section,
        GridOptionsDialog::opened_on_plan(plan).as_plan_style() == plan,
{
}

/// Three values, one for each world axis or plane.
#[derive(Clone, Copy, Debug, PartialEq, Eq, Structural)]
pub struct Triple<T> {
    pub x: T,
    pub y: T,
    pub z: T,
}

/// The projected corners of a plane handle.
#[derive(Clone, Copy, Debug, PartialEq, Eq, Structural)]
pub struct Quad {
    pub a: Pixel,
    pub b: Pixel,
    pub c: Pixel,
    pub d: Pixel,
}

/// Plane-handle index of the Move gizmo's view-aligned ring.
pub const MOVE_GIZMO_VIEW_PLANE: u8 = 3;

/// One frame's projection of the Move gizmo.
#[derive(Clone, Copy, Debug, PartialEq)]
pub struct MoveGizmoScreen {
    pub center_px: Option<Pixel>,
    /// Arrow tips, foreshortened with their axes.
    pub axis_tip_px: Triple<Option<Pixel>>,
    /// Screen pixels spanned by one world unit along each axis.
    pub axis_px_per_world: Triple<Real64>,
    /// Opacity of each axis; one that points at the camera fades out.
    pub axis_fade: Triple<Real32>,
    /// The plane handles XY, XZ and YZ.
    pub plane_quad_px: Triple<Option<Quad>>,
    pub plane_fade: Triple<Real32>,
    pub ring_radius_px: Real32,
    /// Camera-plane world axes for a ring drag.
    pub view_axes: Option<(Vec3, Vec3)>,
    /// The screen vector that one world unit along each of them produces.
    pub view_basis_px: (Pair64, Pair64),
    pub scale_factor: Real32,
}

impl MoveGizmoScreen {
    pub open spec fn unprojected() -> MoveGizmoScreen {
        let one = Real64 { bits: ONE };
        let zero = Real64 { bits: ZERO };
        let faded = Real32 { bits: SINGLE_ZERO };
        MoveGizmoScreen {
            center_px: None,
            axis_tip_px: Triple { x: None, y: None, z: None },
            axis_px_per_world: Triple { x: one, y: one, z: one },
            axis_fade: Triple { x: faded, y: faded, z: faded },
            plane_quad_px: Triple { x: None, y: None, z: None },
            plane_fade: Triple { x: faded, y: faded, z: faded },
            ring_radius_px: faded,
            view_axes: None,
            view_basis_px: (Pair64 { x: one, y: zero }, Pair64 { x: zero, y: one }),
            scale_factor: Real32 { bits: SINGLE_ONE },
        }
    }
}

impl Default for MoveGizmoScreen {
    fn default() -> (r: MoveGizmoScreen)
        ensures
            r == MoveGizmoScreen::unprojected(),
    {
        let one = Real64 { bits: ONE };
        let zero = Real64 { bits: ZERO };
        let faded = Real32 { bits: SINGLE_ZERO };
        MoveGizmoScreen {
            center_px: None,
            axis_tip_px: Triple { x: None, y: None, z: None },
            axis_px_per_world: Triple { x: one, y: one, z: one },
            axis_fade: Triple { x: faded, y: faded, z: faded },
            plane_quad_px: Triple { x: None, y: None, z: None },
            plane_fade: Triple { x: faded, y: faded, z: faded },
            ring_radius_px: faded,
            view_axes: None,
            view_basis_px: (Pair64 { x: one, y: zero }, Pair64 { x: zero, y: one }),
            scale_factor: Real32 { bits: SINGLE_ONE },
        }
    }
}

/// The Rotate Collar gizmo's two rings, in the order they are indexed.
pub const ROTATE_GIZMO_AZIMUTH_RING: u8 = 0;

pub const ROTATE_GIZMO_DIP_RING: u8 = 1;

/// One frame's projection of the Rotate Collar gizmo: an azimuth ring lying flat
/// and a dip ring standing in the plane the holes point along. There is no third
/// ring: spinning a hole about its own axis changes nothing.
#[derive(Debug)]
pub struct RotateGizmoScreen {
    pub center_px: Option<Pixel>,
    /// Each ring as a closed screen polyline.
    pub azimuth_ring_px: Vec<Pixel>,
    pub dip_ring_px: Vec<Pixel>,
    /// Opacity of each ring; one that turns edge-on fades out.
    pub azimuth_fade: Real32,
    pub dip_fade: Real32,
    pub scale_factor: Real32,
}

impl RotateGizmoScreen {
    pub open spec fn is_unprojected(self) -> bool {
        &&& self.center_px is None
        &&& self.azimuth_ring_px@.len() == 0
        &&& self.dip_ring_px@.len() == 0
        &&& self.azimuth_fade == (Real32 { bits: SINGLE_ZERO })
        &&& self.dip_fade == (Real32 { bits: SINGLE_ZERO })
        &&& self.scale_factor == (Real32 { bits: SINGLE_ONE })
    }
}

impl Default for RotateGizmoScreen {
    fn default() -> (r: RotateGizmoScreen)
        ensures
            r.is_unprojected(),
    {
        RotateGizmoScreen {
            center_px: None,
            azimuth_ring_px: Vec::new(),
            dip_ring_px: Vec::new(),
            azimuth_fade: Real32 { bits: SINGLE_ZERO },
            dip_fade: Real32 { bits: SINGLE_ZERO },
            scale_factor: Real32 { bits: SINGLE_ONE },
        }
    }
}

/// A pixel rectangle of the window, in physical coordinates.
#[derive(Clone, Copy, Debug, PartialEq, Eq, Structural)]
pub struct ViewportRect {
    pub x: u32,
    pub y: u32,
    pub width: u32,
    pub height: u32,
}

impl ViewportRect {
    pub open spec fn whole(width: u32, height: u32) -> ViewportRect {
        ViewportRect {
            x: 0,
            y: 0,
            width: if width == 0 {
                1
            } else {
                width
            },
            height: if height == 0 {
                1
            } else {
                height
            },
        }
    }

    /// The whole window, never empty.
    pub fn full(width: u32, height: u32) -> (r: ViewportRect)
        ensures
            r == ViewportRect::whole(width, height),
            r.width >= 1 && r.height >= 1,
    {
        ViewportRect {
            x: 0,
            y: 0,
            width: if width == 0 {
                1
            } else {
                width
            },
            height: if height == 0 {
                1
            } else {
                height
            },
        }
    }
}

/// Facing a named direction looks along it: level for the four compass views, a quarter turn
/// apart, opposite views opposite; as far up and down as the orbit goes for the other two,
/// which keep the bearing. Zoom and pan stay.
pub proof fn named_directions_are_faced(view: SolidPreviewView, direction: StandardView)
    ensures
        ({
            let faced = view.facing(direction);
            &&& faced.zoom_multiplier == view.zoom_multiplier
            &&& faced.pan == view.pan
            &&& direction is Up ==> faced.yaw == view.yaw && faced.pitch == (Real64 { bits: MAX_PITCH })
            &&& direction is Down ==> faced.yaw == view.yaw && faced.pitch == (Real64 { bits: MIN_PITCH })
            &&& !(direction is Up) && !(direction is Down) ==> faced.pitch.rank() == 0
            &&& direction is West ==> faced.yaw.rank() == 0
            &&& direction is East ==> faced.yaw == (Real64 { bits: PI })
            &&& direction is North ==> faced.yaw == (Real64 { bits: MINUS_HALF_PI })
            &&& direction is South ==> faced.yaw == (Real64 { bits: HALF_PI })
        }),
        view.facing(StandardView::Up).pitch.rank() == -view.facing(StandardView::Down).pitch.rank(),
        view.facing(StandardView::North).yaw.rank() == -view.facing(StandardView::South).yaw.rank(),
{
}

/// Orbiting takes the bearing as it is and the elevation as far as it goes, and leaves zoom
/// and pan; zooming takes the scale as far as it goes, and leaves the rest.
pub proof fn orbits_and_zooms_go_as_far_as_they_may(view: SolidPreviewView, yaw: Real64, pitch: Real64, multiplier: Real64)
    requires
        !pitch.nan(),
        !multiplier.nan(),
    ensures
        view.orbited(yaw, pitch).yaw == yaw,
        (Real64 { bits: MIN_PITCH }).le_number(pitch) && pitch.le_number(Real64 { bits: MAX_PITCH }) ==> view.orbited(yaw, pitch).pitch
            == pitch,
        (Real64 { bits: MAX_PITCH }).lt_number(pitch) ==> view.orbited(yaw, pitch).pitch == (Real64 { bits: MAX_PITCH }),
        pitch.lt_number(Real64 { bits: MIN_PITCH }) ==> view.orbited(yaw, pitch).pitch == (Real64 { bits: MIN_PITCH }),
        view.orbited(yaw, pitch).zoom_multiplier == view.zoom_multiplier && view.orbited(yaw, pitch).pan == view.pan,
        (Real64 { bits: TENTH }).le_number(multiplier) && multiplier.le_number(Real64 { bits: FORTY }) ==> view.zoomed(
            multiplier,
        ).zoom_multiplier == multiplier,
        (Real64 { bits: FORTY }).lt_number(multiplier) ==> view.zoomed(multiplier).zoom_multiplier == (Real64 { bits: FORTY }),
        multiplier.lt_number(Real64 { bits: TENTH }) ==> view.zoomed(multiplier).zoom_multiplier == (Real64 { bits: TENTH }),
        view.zoomed(multiplier).yaw == view.yaw && view.zoomed(multiplier).pitch == view.pitch && view.zoomed(multiplier).pan == view.pan,
{
}

/// A preview opens from the side and above, on the whole solid and its middle.
pub proof fn previews_open_on_the_whole_solid()
    ensures
        ({
            let view = SolidPreviewView::opening();
            &&& view.zoom_multiplier == (Real64 { bits: ONE })
            &&& view.pan.x.rank() == 0 && view.pan.y.rank() == 0
            &&& view.yaw == (Real64 { bits: MINUS_QUARTER_PI })
            &&& view.pitch == (Real64 { bits: SIXTH_PI })
        }),
        SlicePreviewNavigation::fitted().zoom_multiplier == (Real64 { bits: ONE }),
        SlicePreviewNavigation::fitted().center_offset_xy.x.rank() == 0 && SlicePreviewNavigation::fitted().center_offset_xy.y.rank() == 0,
{
}

/// A drag of the map is followed exactly where everything about it is a number and there is a
/// viewport and a zoom to follow it in.
pub proof fn drags_are_followed_where_they_can_be(delta_px: Pair64, current_zoom: Real64, viewport_height_px: Real64)
    ensures
        delta_px.x.finite() && delta_px.y.finite() && current_zoom.finite() && current_zoom.rank() > 0 && viewport_height_px.finite()
            && viewport_height_px.rank() > 0 ==> SlicePreviewNavigation::can_pan(delta_px, current_zoom, viewport_height_px),
        !delta_px.x.finite() || !delta_px.y.finite() || !current_zoom.finite() || current_zoom.rank() <= 0
            || !viewport_height_px.finite() || viewport_height_px.rank() <= 0 ==> !SlicePreviewNavigation::can_pan(
            delta_px,
            current_zoom,
            viewport_height_px,
        ),
{
}

/// A wheel step is followed exactly where it is one, in a viewport that there is, at a zoom
/// that there is.
pub proof fn wheel_steps_are_followed_where_they_can_be(scroll: Real64, cursor_px: Pair64, viewport_px: Pair64, fitted_zoom: Real64)
    ensures
        SlicePreviewNavigation::can_zoom(scroll, cursor_px, viewport_px, fitted_zoom) <==> {
            &&& scroll.finite() && scroll.rank() != 0
            &&& cursor_px.x.finite() && cursor_px.y.finite()
            &&& viewport_px.x.finite() && viewport_px.y.finite() && viewport_px.x.rank() > 0 && viewport_px.y.rank() > 0
            &&& fitted_zoom.finite() && fitted_zoom.rank() > 0
        },
{
}

/// A scale within a hundredth and a hundred is kept, and one beyond goes to the nearer end.
pub proof fn slice_scales_go_to_the_nearest(scaled: Real64)
    requires
        !scaled.nan(),
    ensures
        (Real64 { bits: HUNDREDTH }).le_number(scaled) && scaled.le_number(Real64 { bits: HUNDRED }) ==> SlicePreviewNavigation::clamped(
            scaled,
        ) == scaled,
        scaled.lt_number(Real64 { bits: HUNDREDTH }) ==> SlicePreviewNavigation::clamped(scaled) == (Real64 { bits: HUNDREDTH }),
        (Real64 { bits: HUNDRED }).lt_number(scaled) ==> SlicePreviewNavigation::clamped(scaled) == (Real64 { bits: HUNDRED }),
{
}

/// A radius can be used where it is a number that is more than nothing.
pub proof fn radii_are_more_than_nothing(radius: Real64)
    ensures
        usable_radius(radius) ==> radius.finite() && !radius.negative() && radius.rank() > 0,
        radius.finite() && (Real64 { bits: ONE }).le_number(radius) ==> usable_radius(radius),
        usable_radius(radius) <==> radius.finite() && !radius.negative() && radius.magnitude() > (Real64 { bits: EPSILON }).magnitude(),
        usable(Some(radius)) is Some <==> usable_radius(radius),
        usable(Some(radius)) matches Some(kept) ==> kept == radius,
        usable(None) is None,
{
}

/// A typed radius is what the text reads as, and only where the text is a plain decimal.
pub proof fn typed_radii_are_what_they_read_as(draft: CircleDraft, parsed: Option<Real64>)
    ensures
        !unsigned_decimal(draft.radius_text@) ==> draft.spec_typed_radius(parsed) is None,
        unsigned_decimal(draft.radius_text@) && (parsed matches Some(radius) && usable_radius(radius)) ==> draft.spec_typed_radius(parsed)
            == parsed,
        draft.spec_typed_radius(parsed) is Some ==> draft.spec_typed_radius(parsed) == parsed,
{
}

/// The grid dialog opens on the style in force: an automatic colour or spacing stays automatic
/// and offers something to start from, any other is shown as it is.
pub proof fn grid_dialogs_open_on_the_style(section: SectionGridStyle, plan: PlanGridStyle, spacing_now: Real64)
    ensures
        ({
            let opened = GridOptionsDialog::opened_on_section(section, spacing_now);
            &&& !opened.plan
            &&& opened.auto_color <==> section.color is None
            &&& section.color matches Some(color) ==> opened.color == color
            &&& opened.thickness == section.thickness
            &&& opened.auto_spacing <==> section.level_spacing is None
            &&& section.level_spacing matches Some(spacing) ==> opened.spacing == spacing
            &&& section.level_spacing is None ==> opened.spacing == spacing_now
        }),
        ({
            let opened = GridOptionsDialog::opened_on_plan(plan);
            &&& opened.plan
            &&& opened.auto_color <==> plan.color is None
            &&& plan.color matches Some(color) ==> opened.color == color
            &&& opened.thickness == plan.thickness
        }),
        GridOptionsDialog::color_seed() == premultiplied(StoredColor { r: 140, g: 146, b: 152, a: 115 }),
{
}

/// What a grid dialog holds is what its style becomes.
pub proof fn grid_dialogs_give_their_fields(dialog: GridOptionsDialog)
    ensures
        dialog.auto_color ==> dialog.as_section_style().color is None && dialog.as_plan_style().color is None,
        !dialog.auto_color ==> dialog.as_section_style().color == Some(dialog.color) && dialog.as_plan_style().color == Some(dialog.color),
        dialog.as_section_style().thickness == dialog.thickness && dialog.as_plan_style().thickness == dialog.thickness,
        dialog.auto_spacing ==> dialog.as_section_style().level_spacing is None,
        !dialog.auto_spacing ==> dialog.as_section_style().level_spacing == Some(dialog.spacing),
        SectionGridStyle::plain().color is None && SectionGridStyle::plain().level_spacing is None && SectionGridStyle::plain().thickness
            == (Real64 { bits: ONE }),
        PlanGridStyle::plain().color is None && PlanGridStyle::plain().thickness == (Real64 { bits: ONE }),
{
}

/// The whole window is never empty, and is the window wherever that is not.
pub proof fn whole_windows_are_never_empty(width: u32, height: u32)
    ensures
        ViewportRect::whole(width, height).x == 0 && ViewportRect::whole(width, height).y == 0,
        width > 0 ==> ViewportRect::whole(width, height).width == width,
        height > 0 ==> ViewportRect::whole(width, height).height == height,
        ViewportRect::whole(0, height).width == 1,
        ViewportRect::whole(width, 0).height == 1,
{
}

/// What was not projected has no place on the screen and is faded out, and stands at the scale
/// of the world.
pub proof fn unprojected_gizmos_have_no_place(rotate: RotateGizmoScreen)
    requires
        rotate.is_unprojected(),
    ensures
        ({
            let screen = MoveGizmoScreen::unprojected();
            &&& screen.center_px is None && screen.view_axes is None
            &&& screen.axis_tip_px.x is None && screen.axis_tip_px.y is None && screen.axis_tip_px.z is None
            &&& screen.plane_quad_px.x is None && screen.plane_quad_px.y is None && screen.plane_quad_px.z is None
            &&& screen.axis_fade.x.value() == 0 && screen.axis_fade.y.value() == 0 && screen.axis_fade.z.value() == 0
            &&& screen.plane_fade.x.value() == 0 && screen.plane_fade.y.value() == 0 && screen.plane_fade.z.value() == 0
            &&& screen.axis_px_per_world.x.is_nearest(1, 1) && screen.axis_px_per_world.y.is_nearest(1, 1)
                && screen.axis_px_per_world.z.is_nearest(1, 1)
            &&& screen.scale_factor.is_nearest(1, 1)
        }),
        rotate.center_px is None && rotate.azimuth_ring_px@.len() == 0 && rotate.dip_ring_px@.len() == 0,
        rotate.azimuth_fade.value() == 0 && rotate.dip_fade.value() == 0 && rotate.scale_factor.is_nearest(1, 1),
{
    crate::constants::constants_are_what_they_are_called();
}

} // verus!
