//! The preview of a solid: what it shows, and how the pointer moves it.
use crate::command::UiCommand;
use crate::editor::EditorState;
use crate::lists::{only_if, push_if};
use crate::number::{Pair64, Pixel, Real64};
use crate::state::planning::{SolidPreviewState, SolidPreviewSummary};
use crate::text::{key, literal, literal1, literal2, named, verbatim, Arg, Text};
use crate::tools::StandardView;
use crate::views::{SizePx, SolidPreviewView, TextureId};
use vstd::prelude::*;

verus! {

/// Which buttons drag the image.
#[derive(Clone, Copy, Debug, PartialEq, Eq, Structural)]
pub struct DragButtons {
    pub middle: bool,
    pub secondary: bool,
    pub primary: bool,
}

/// What a drag adds up to, for each thing it might do.
#[derive(Clone, Copy, Debug, PartialEq, Eq, Structural)]
pub struct DragResult {
    pub pan: Pair64,
    pub yaw: Real64,
    pub pitch: Real64,
}

/// What the pointer over the image looks like.
#[derive(Clone, Copy, Debug, PartialEq, Eq, Structural)]
pub enum PreviewCursor {
    Grabbing,
    /// A click picks what is under it.
    PointingHand,
    Grab,
}

impl DragButtons {
    /// Middle drag pans.
    pub open spec fn pans(self) -> bool {
        self.middle
    }

    /// Right drag orbits; so does left drag where there is nothing to select.
    pub open spec fn orbits(self, selects: bool) -> bool {
        !self.middle && (self.secondary || (!selects && self.primary))
    }
}

/// A double click goes back to the opening view, but only where a click does not select:
/// a fast second click on a block is no reason to throw the camera away.
pub open spec fn double_click_resets(double_clicked: bool, selects: bool) -> bool {
    !selects && double_clicked
}

impl SolidPreviewState {
    /// There is an image to show: the view keeps its own, and a rebuild keeps the solid it
    /// is replacing on screen.
    pub open spec fn is_ready(self, solids_view: bool) -> bool {
        ||| solids_view && self.texture is Some
        ||| self.summary is Ready
        ||| self.summary == SolidPreviewSummary::Building { showing_previous: true }
        ||| self.summary == SolidPreviewSummary::LoadingInputs { showing_previous: true }
    }

    pub fn ready(&self, solids_view: bool) -> (r: bool)
        ensures
            r == self.is_ready(solids_view),
    {
        let shown = match &self.summary {
            SolidPreviewSummary::Ready { .. } => true,
            SolidPreviewSummary::Building { showing_previous } => *showing_previous,
            SolidPreviewSummary::LoadingInputs { showing_previous } => *showing_previous,
            _ => false,
        };
        (solids_view && self.texture.is_some()) || shown
    }

    /// The image that is painted; without one the pane is filled.
    pub fn image(&self, solids_view: bool) -> (r: Option<TextureId>)
        ensures
            r == (if self.is_ready(solids_view) {
                self.texture
            } else {
                None
            }),
    {
        if self.ready(solids_view) {
            self.texture
        } else {
            None
        }
    }

    /// Take up the size of the pane. Whether it changed: the renderer works a frame behind,
    /// so a resized pane needs one more frame.
    pub fn take_size(&mut self, size_px: SizePx) -> (r: bool)
        ensures
            r == (old(self).size_px != size_px),
            *final(self) == (SolidPreviewState { size_px, ..*old(self) }),
    {
        let changed = self.size_px != size_px;
        self.size_px = size_px;
        changed
    }

    /// Take a drag of the image. `selects` is whether a left click selects, which never
    /// moves the camera. Whether the view changed.
    pub fn take_drag(&mut self, moved: bool, buttons: DragButtons, selects: bool, result: DragResult) -> (r: bool)
        ensures
            r == (moved && (buttons.pans() || buttons.orbits(selects))),
            *final(self) == (SolidPreviewState {
                view: if moved && buttons.pans() {
                    SolidPreviewView { pan: result.pan, ..old(self).view }
                } else if moved && buttons.orbits(selects) {
                    old(self).view.orbited(result.yaw, result.pitch)
                } else {
                    old(self).view
                },
                ..*old(self)
            }),
    {
        if !moved {
            return false;
        }
        if buttons.middle {
            self.view.pan_by_pixels(result.pan);
            true
        } else if buttons.secondary || (!selects && buttons.primary) {
            self.view.orbit_by_pixels(result.yaw, result.pitch);
            true
        } else {
            false
        }
    }

    /// Take the clicks on the image. A double click goes back to the opening view only
    /// where a click does not select; a click that selects is recorded as a fraction of the
    /// image. Whether the view changed, and whether a pick was recorded.
    pub fn take_clicks(&mut self, clicked: bool, double_clicked: bool, selects: bool, pointer_uv: Option<Pixel>) -> (r: (bool, bool))
        ensures
            r.0 == double_click_resets(double_clicked, selects),
            r.1 == (clicked && selects && pointer_uv is Some),
            *final(self) == (SolidPreviewState {
                view: if r.0 {
                    SolidPreviewView::opening()
                } else {
                    old(self).view
                },
                pick_uv: if r.1 {
                    pointer_uv
                } else {
                    old(self).pick_uv
                },
                ..*old(self)
            }),
    {
        let reset = !selects && double_clicked;
        if reset {
            self.view = SolidPreviewView::default();
        }
        let picked = clicked && selects && pointer_uv.is_some();
        if picked {
            self.pick_uv = pointer_uv;
        }
        (reset, picked)
    }

    /// Take a scroll over the image. Whether the view changed.
    pub fn take_scroll(&mut self, hovered: bool, scrolled: bool, multiplier: Real64) -> (r: bool)
        ensures
            r == (hovered && scrolled),
            *final(self) == (SolidPreviewState {
                view: if r {
                    old(self).view.zoomed(multiplier)
                } else {
                    old(self).view
                },
                ..*old(self)
            }),
    {
        if hovered && scrolled {
            self.view.zoom_by_scroll(multiplier);
            return true;
        }
        false
    }

    /// Take a click on the orientation gizmo over the image.
    pub fn take_gizmo(&mut self, clicked: Option<StandardView>) -> (r: bool)
        ensures
            r == (clicked is Some),
            *final(self) == (SolidPreviewState {
                view: match clicked {
                    Some(view) => old(self).view.facing(view),
                    None => old(self).view,
                },
                ..*old(self)
            }),
    {
        if let Some(view) = clicked {
            self.view.face(view);
            return true;
        }
        false
    }

    /// A built solid can be added to the project; a lone surface is in it already.
    pub open spec fn spec_can_save(self, solids_view: bool) -> bool {
        !solids_view && (self.summary matches SolidPreviewSummary::Ready { volume, .. } && volume is Some)
    }

    pub fn can_save(&self, solids_view: bool) -> (r: bool)
        ensures
            r == self.spec_can_save(solids_view),
    {
        let has_volume = match &self.summary {
            SolidPreviewSummary::Ready { volume, .. } => volume.is_some(),
            _ => false,
        };
        !solids_view && has_volume
    }

    /// Take a click in the menu of the image.
    pub fn click_menu(&self, solids_view: bool, save: bool, reset: bool, commands: &mut Vec<UiCommand>)
        ensures
            final(commands)@ == old(commands)@ + only_if(
                save && self.spec_can_save(solids_view),
                UiCommand::SaveSolidPreviewToProject,
            ) + only_if(reset, UiCommand::ResetSolidPreviewView),
    {
        let can_save = self.can_save(solids_view);
        push_if(commands, save && can_save, UiCommand::SaveSolidPreviewToProject);
        push_if(commands, reset, UiCommand::ResetSolidPreviewView);
    }

    /// What the pane says under the image.
    pub open spec fn spec_caption(self, solids_view: bool) -> Text {
        match self.summary {
            SolidPreviewSummary::NotRun => key("planning-not-run"),
            SolidPreviewSummary::Empty => literal("Set a surface to inspect this solid"),
            SolidPreviewSummary::Unloaded => literal("Load this solid's surfaces to inspect it"),
            SolidPreviewSummary::LoadingInputs { .. } => literal("Loading this solid's surfaces…"),
            SolidPreviewSummary::Building { showing_previous } => if showing_previous {
                literal("Rebuilding solid…")
            } else {
                literal("Building solid…")
            },
            SolidPreviewSummary::Ready { volume, faces, waiting_on_unloaded } => match volume {
                Some(volume) => literal2(
                    "%volume% m³ · %faces% faces",
                    named("volume", Arg::Fixed { value: volume, decimals: 1 }),
                    named("faces", Arg::Count(faces)),
                ),
                None => if solids_view {
                    key("planning-volume-unavailable")
                } else if waiting_on_unloaded {
                    literal("Surface only · the other surface is not loaded")
                } else {
                    literal1("Surface only · %faces% faces", named("faces", Arg::Count(faces)))
                },
            },
            SolidPreviewSummary::Failed(message) => verbatim(message),
        }
    }

    /// What the pane says under the image, and whether it says that the build failed.
    pub fn caption(&self, solids_view: bool) -> (r: (Text, bool))
        ensures
            r.0 == self.spec_caption(solids_view),
            r.1 == (self.summary is Failed),
    {
        match &self.summary {
            SolidPreviewSummary::NotRun => (key("planning-not-run"), false),
            SolidPreviewSummary::Empty => (literal("Set a surface to inspect this solid"), false),
            SolidPreviewSummary::Unloaded => (literal("Load this solid's surfaces to inspect it"), false),
            SolidPreviewSummary::LoadingInputs { .. } => (literal("Loading this solid's surfaces…"), false),
            SolidPreviewSummary::Building { showing_previous } => if *showing_previous {
                (literal("Rebuilding solid…"), false)
            } else {
                (literal("Building solid…"), false)
            },
            SolidPreviewSummary::Ready { volume, faces, waiting_on_unloaded } => match volume {
                Some(volume) => (
                    literal2(
                        "%volume% m³ · %faces% faces",
                        named("volume", Arg::Fixed { value: *volume, decimals: 1 }),
                        named("faces", Arg::Count(*faces)),
                    ),
                    false,
                ),
                None => if solids_view {
                    (key("planning-volume-unavailable"), false)
                } else if *waiting_on_unloaded {
                    (literal("Surface only · the other surface is not loaded"), false)
                } else {
                    (literal1("Surface only · %faces% faces", named("faces", Arg::Count(*faces))), false)
                },
            },
            SolidPreviewSummary::Failed(message) => (verbatim(message.clone()), true),
        }
    }
}

/// The pointer over the image: a drag shows a closed hand; hovering reads as something
/// to click where a click selects, and as something to grab elsewhere.
pub fn preview_cursor(hovered: bool, dragged: bool, selects: bool) -> (r: Option<PreviewCursor>)
    ensures
        r == (if dragged {
            Some(PreviewCursor::Grabbing)
        } else if !hovered {
            None
        } else if selects {
            Some(PreviewCursor::PointingHand)
        } else {
            Some(PreviewCursor::Grab)
        }),
{
    if dragged {
        Some(PreviewCursor::Grabbing)
    } else if !hovered {
        None
    } else if selects {
        Some(PreviewCursor::PointingHand)
    } else {
        Some(PreviewCursor::Grab)
    }
}

impl EditorState {
    /// Whether the orientation gizmo is drawn over the image.
    pub fn preview_gizmo_shown(&self) -> (r: bool)
        ensures
            r == (self.planning.preview.is_ready(self.shows_solids_view()) && self.preferences.interface.show_world_axis_gizmo),
    {
        self.planning.preview.ready(self.is_solids_view()) && self.preferences.interface.show_world_axis_gizmo
    }
}

/// Where a click selects, left drags and double clicks leave the camera alone.
pub proof fn selecting_never_moves_the_camera(buttons: DragButtons, double_clicked: bool)
    requires
        !buttons.middle,
        !buttons.secondary,
    ensures
        !buttons.pans() && !buttons.orbits(true),
        !double_click_resets(double_clicked, true),
{
}

/// However it is dragged, scrolled, reset or turned, a well-formed view stays one.
pub proof fn preview_view_stays_well_formed(view: SolidPreviewView, result: DragResult, multiplier: Real64, direction: StandardView)
    requires
        view.well_formed(),
        !result.pitch.nan(),
        !multiplier.nan(),
    ensures
        (SolidPreviewView { pan: result.pan, ..view }).well_formed(),
        view.orbited(result.yaw, result.pitch).well_formed(),
        view.zoomed(multiplier).well_formed(),
        view.facing(direction).well_formed(),
        SolidPreviewView::opening().well_formed(),
{
}

/// The middle button pans whatever else is held, the right one orbits, and the left one orbits
/// only where it does not select; a drag does one or the other.
pub proof fn buttons_pan_or_orbit(buttons: DragButtons, selects: bool)
    ensures
        !(buttons.pans() && buttons.orbits(selects)),
        buttons.middle <==> buttons.pans(),
        !buttons.middle && buttons.secondary ==> buttons.orbits(selects),
        !buttons.middle && !buttons.secondary ==> (buttons.orbits(selects) <==> buttons.primary && !selects),
        double_click_resets(true, false),
        !double_click_resets(false, selects),
{
}

/// There is an image once a solid is ready, and while one that is being replaced is still on
/// screen; the solids view keeps its own. A preview that was never built has none.
pub proof fn previews_are_ready_while_something_shows(state: SolidPreviewState, solids_view: bool)
    ensures
        state.summary is Ready ==> state.is_ready(solids_view),
        state.summary matches SolidPreviewSummary::Building { showing_previous } ==> (!solids_view ==> state.is_ready(solids_view)
            == showing_previous),
        state.summary matches SolidPreviewSummary::LoadingInputs { showing_previous } ==> (!solids_view ==> state.is_ready(solids_view)
            == showing_previous),
        !solids_view && (state.summary is NotRun || state.summary is Empty || state.summary is Unloaded || state.summary is Failed)
            ==> !state.is_ready(solids_view),
        solids_view && state.texture is Some ==> state.is_ready(solids_view),
        state.is_ready(false) ==> state.is_ready(true),
{
}

/// A solid can be saved once it is ready with a volume, outside the solids view.
pub proof fn solids_with_a_volume_can_be_saved(state: SolidPreviewState, solids_view: bool)
    ensures
        solids_view ==> !state.spec_can_save(solids_view),
        !(state.summary is Ready) ==> !state.spec_can_save(solids_view),
        state.summary matches SolidPreviewSummary::Ready { volume, .. } ==> (!solids_view ==> (state.spec_can_save(solids_view) <==> volume
            is Some)),
        state.spec_can_save(solids_view) ==> state.is_ready(solids_view),
{
}

/// The caption gives the volume of a solid that has one, what is missing of one that has not,
/// and the reason of one that failed.
pub proof fn captions_say_what_there_is(state: SolidPreviewState, solids_view: bool)
    ensures
        state.summary matches SolidPreviewSummary::Failed(message) ==> state.spec_caption(solids_view) == verbatim(message),
        state.summary matches SolidPreviewSummary::Ready { volume: Some(volume), faces, .. } ==> state.spec_caption(solids_view)
            == literal2(
            "%volume% m³ · %faces% faces",
            named("volume", Arg::Fixed { value: volume, decimals: 1 }),
            named("faces", Arg::Count(faces)),
        ),
        state.summary matches SolidPreviewSummary::Ready { volume: None, faces, waiting_on_unloaded } ==> {
            &&& solids_view ==> state.spec_caption(solids_view) == key("planning-volume-unavailable")
            &&& !solids_view && waiting_on_unloaded ==> state.spec_caption(solids_view) == literal(
                "Surface only · the other surface is not loaded",
            )
            &&& !solids_view && !waiting_on_unloaded ==> state.spec_caption(solids_view) == literal1(
                "Surface only · %faces% faces",
                named("faces", Arg::Count(faces)),
            )
        },
        state.summary is NotRun ==> state.spec_caption(solids_view) == key("planning-not-run"),
        state.summary is Empty ==> state.spec_caption(solids_view) == literal("Set a surface to inspect this solid"),
        state.summary is Unloaded ==> state.spec_caption(solids_view) == literal("Load this solid's surfaces to inspect it"),
        state.summary is LoadingInputs ==> state.spec_caption(solids_view) == literal("Loading this solid's surfaces…"),
        state.summary == (SolidPreviewSummary::Building { showing_previous: true }) ==> state.spec_caption(solids_view) == literal(
            "Rebuilding solid…",
        ),
        state.summary == (SolidPreviewSummary::Building { showing_previous: false }) ==> state.spec_caption(solids_view) == literal(
            "Building solid…",
        ),
{
}

} // verus!
