//! What the viewport banner asks for.
//!
//! Each prompt names what to do. Anything qualifying it, the keys it answers to,
//! the way out or why it is being asked, goes in `minor` so the banner can dim it.
use crate::editor::EditorState;
use crate::number::Real64;
use crate::text::{key, literal, literal1, literal2, named, Arg, Text};
use crate::tools::{ActiveTool, DrapePhase};
use crate::views::BatterAngleMeasurement;
use vstd::prelude::*;

verus! {

/// A prompt and what qualifies it.
#[derive(Clone, Debug, PartialEq)]
pub struct ViewportMessage {
    pub text: Text,
    pub minor: Option<Text>,
}

#[verifier::allow_in_spec]
pub fn shown(text: Text) -> (r: ViewportMessage)
    returns
        (ViewportMessage { text, minor: None }),
{
    ViewportMessage { text, minor: None }
}

#[verifier::allow_in_spec]
pub fn said(words: &'static str) -> (r: ViewportMessage)
    returns
        (ViewportMessage { text: literal(words), minor: None }),
{
    ViewportMessage { text: literal(words), minor: None }
}

#[verifier::allow_in_spec]
pub fn said_with(words: &'static str, minor: &'static str) -> (r: ViewportMessage)
    returns
        (ViewportMessage { text: literal(words), minor: Some(literal(minor)) }),
{
    ViewportMessage { text: literal(words), minor: Some(literal(minor)) }
}

/// What the measuring tools read off the state, and what the radius field parses to.
#[derive(Clone, Copy, Debug)]
pub struct Readings {
    /// The distance between the two measured points.
    pub distance: Real64,
    /// The angle through the picked crest, toe and berm points.
    pub batter_angle: Option<BatterAngleMeasurement>,
    pub typed_radius: Option<Real64>,
}

/// The reading of a batter angle. Both figures are the answer: the strike leads
/// and the dip follows it, neither dimmed as an aside.
#[verifier::allow_in_spec]
pub fn batter_angle_reading(measurement: BatterAngleMeasurement) -> (r: Text)
    returns
        (match measurement.strike_degrees {
            Some(strike) => literal2(
                "%strike%° strike · %dip%",
                named("strike", Arg::Padded { value: strike, width: 6, decimals: 2 }),
                named("dip", dip_reading(measurement.dip_degrees)),
            ),
            None => literal1(
                "%dip% (horizontal, no strike)",
                named("dip", dip_reading(measurement.dip_degrees)),
            ),
        }),
{
    let dip = dip_reading(measurement.dip_degrees);
    match measurement.strike_degrees {
        Some(strike) => literal2(
            "%strike%° strike · %dip%",
            named("strike", Arg::Padded { value: strike, width: 6, decimals: 2 }),
            named("dip", dip),
        ),
        None => literal1("%dip% (horizontal, no strike)", named("dip", dip)),
    }
}

#[verifier::allow_in_spec]
pub fn dip_reading(dip: Real64) -> (r: Arg)
    returns
        (Arg::Phrase { words: "%value%° dip", name: "value", value: dip, decimals: 2 }),
{
    Arg::Phrase { words: "%value%° dip", name: "value", value: dip, decimals: 2 }
}

impl EditorState {
    /// What the circle tool asks for.
    pub open spec fn circle_prompt(self, typed: Option<Real64>) -> ViewportMessage {
        match self.drawing.stroke.circle_draft {
            None => said("Click the circle centre"),
            Some(draft) => if draft.radius_text@.len() == 0 {
                said("Click a perimeter point or type a radius")
            } else if draft.spec_typed_radius(typed) is Some {
                said_with("Press Enter to use the typed radius", "or click to use the pointer radius")
            } else {
                said("Enter a positive decimal radius")
            },
        }
    }

    /// What a batter angle measurement asks for or reads.
    pub open spec fn batter_angle_prompt(self, measured: Option<BatterAngleMeasurement>) -> ViewportMessage {
        match measured {
            Some(measurement) => shown(batter_angle_reading(measurement)),
            None => if self.drawing.stroke.batter_angle_points@.len() == 0 {
                said("Select first crest/toe point")
            } else if self.drawing.stroke.batter_angle_points@.len() == 1 {
                said("Select second crest/toe point")
            } else {
                said("Select opposite berm point")
            },
        }
    }

    /// What the tool in hand asks for, where nothing else claims the banner.
    pub open spec fn tool_prompt(self) -> Option<ViewportMessage> {
        match self.drawing.tools.active_tool {
            ActiveTool::Move => if !self.spec_move_tool_has_targets() {
                Some(said("Select an item"))
            } else {
                None
            },
            ActiveTool::MoveCollar => if !self.spec_move_tool_has_targets() {
                Some(said("Select a drill hole"))
            } else {
                None
            },
            ActiveTool::RotateCollar => if !self.spec_rotate_tool_has_targets() {
                Some(said("Select a drill hole"))
            } else {
                Some(said_with("Drag a ring, or type an azimuth and dip", "each hole turns about its own collar"))
            },
            ActiveTool::SetInitiationPoint => Some(said("Click a collar to add or edit an initiation point")),
            ActiveTool::PickRotationCentre => Some(said("Click a point to fix the centre of rotation")),
            ActiveTool::TieHoles => if !self.has_active_product() {
                Some(said_with("No delay product to tie with", "right-click the Delay Palette heading to add one"))
            } else {
                None
            },
            ActiveTool::OffsetElement => if self.geometry.offset.awaiting_side_pick {
                Some(said("Choose offset side"))
            } else if self.geometry.offset.target_ids@.len() == 0 {
                Some(said("Select a line or polyline"))
            } else {
                None
            },
            ActiveTool::DrapeToTopology => if self.geometry.drape.phase is Designs {
                Some(said("Select designs"))
            } else {
                Some(said("Select topologies"))
            },
            ActiveTool::RelimitLine => if self.geometry.relimit.confirming_end {
                Some(said("Choose relimit side"))
            } else if self.geometry.relimit.waiting_for_pick {
                Some(said("Select line to relimit to"))
            } else if self.geometry.relimit.source_id is None || self.geometry.relimit.awaiting_source_pick {
                Some(said("Select line to relimit"))
            } else {
                None
            },
            ActiveTool::FuseIntoPolyline => if self.geometry.fuse.awaiting_endpoint is Some {
                Some(said("Select the endpoint to join"))
            } else if self.geometry.fuse.segments@.len() > 0 {
                Some(said("Select the next line to fuse"))
            } else {
                Some(said("Select a line to fuse"))
            },
            ActiveTool::SplitAtPoints => if self.geometry.fuse.split_poly_id is None {
                Some(said("Select a polyline or open line"))
            } else if self.geometry.fuse.split_selected_verts.first is None {
                Some(said("Select a split point"))
            } else if self.geometry.fuse.split_selected_verts.second is None {
                Some(said("Select second split point"))
            } else {
                None
            },
            ActiveTool::Chamfer => if self.geometry.chamfer.corner_index is None {
                Some(said("Select a polyline vertex"))
            } else {
                None
            },
            ActiveTool::Bezier => if self.geometry.bezier.poly_id is None {
                Some(said("Select a polyline"))
            } else if self.geometry.bezier.selected_verts.first is None {
                Some(said("Click first vertex"))
            } else if self.geometry.bezier.selected_verts.second is None {
                Some(said("Click second vertex"))
            } else {
                None
            },
            ActiveTool::ExplodePolyline => Some(said("Select a polyline")),
            ActiveTool::BatterBermOffset => if self.geometry.batter_berm.target_id is None {
                Some(said("Select a polyline"))
            } else {
                None
            },
            ActiveTool::DeletePoints => Some(said("Select a point")),
            _ => None,
        }
    }

    /// A measured distance, once both ends are picked.
    pub open spec fn distance_prompt(self, distance: Real64) -> Option<ViewportMessage> {
        if self.drawing.tools.active_tool is MeasureDistance && self.drawing.stroke.measurement_start is Some
            && self.drawing.stroke.measurement_end is Some {
            Some(shown(literal1("%distance% meters", named("distance", Arg::Fixed { value: distance, decimals: 3 }))))
        } else {
            None
        }
    }

    /// The prompt for the current tool and state. A parked pattern dialog comes
    /// first, then the slice line and the measurements, then the slice view, then
    /// the tool in hand.
    pub open spec fn prompt(self, readings: Readings) -> Option<ViewportMessage> {
        let tool = self.drawing.tools.active_tool;
        if self.blasting.pattern.awaiting_shape_pick {
            Some(said_with("Click a closed polyline to use as the blast shape", "Esc cancels"))
        } else if tool is VerticalSlice {
            Some(
                if self.view.slice.pending_start is None {
                    said("Click the first point of the slice line")
                } else {
                    said("Click the second point of the slice line")
                },
            )
        } else if self.distance_prompt(readings.distance) is Some {
            self.distance_prompt(readings.distance)
        } else if tool is MeasureBatterAngle {
            Some(self.batter_angle_prompt(readings.batter_angle))
        } else if self.view.slice.mode_enabled {
            Some(ViewportMessage { text: literal("Slice view"), minor: Some(key("slice-viewport-gestures")) })
        } else if tool is MakeCircle {
            Some(self.circle_prompt(readings.typed_radius))
        } else {
            self.tool_prompt()
        }
    }

    fn circle_message(&self, typed: Option<Real64>) -> (r: ViewportMessage)
        ensures
            r == self.circle_prompt(typed),
    {
        match &self.drawing.stroke.circle_draft {
            None => said("Click the circle centre"),
            Some(draft) => if draft.radius_text.as_str().is_empty() {
                said("Click a perimeter point or type a radius")
            } else if draft.typed_radius(typed).is_some() {
                said_with("Press Enter to use the typed radius", "or click to use the pointer radius")
            } else {
                said("Enter a positive decimal radius")
            },
        }
    }

    fn batter_angle_message(&self, measured: Option<BatterAngleMeasurement>) -> (r: ViewportMessage)
        ensures
            r == self.batter_angle_prompt(measured),
    {
        match measured {
            Some(measurement) => shown(batter_angle_reading(measurement)),
            None => {
                let points: usize = self.drawing.stroke.batter_angle_points.len();
                if points == 0 {
                    said("Select first crest/toe point")
                } else if points == 1 {
                    said("Select second crest/toe point")
                } else {
                    said("Select opposite berm point")
                }
            },
        }
    }

    fn tool_message(&self) -> (r: Option<ViewportMessage>)
        ensures
            r == self.tool_prompt(),
    {
        match self.drawing.tools.active_tool {
            ActiveTool::Move => if !self.move_tool_has_targets() {
                Some(said("Select an item"))
            } else {
                None
            },
            ActiveTool::MoveCollar => if !self.move_tool_has_targets() {
                Some(said("Select a drill hole"))
            } else {
                None
            },
            ActiveTool::RotateCollar => if !self.rotate_tool_has_targets() {
                Some(said("Select a drill hole"))
            } else {
                Some(said_with("Drag a ring, or type an azimuth and dip", "each hole turns about its own collar"))
            },
            ActiveTool::SetInitiationPoint => Some(said("Click a collar to add or edit an initiation point")),
            ActiveTool::PickRotationCentre => Some(said("Click a point to fix the centre of rotation")),
            ActiveTool::TieHoles => if self.active_product().is_none() {
                Some(said_with("No delay product to tie with", "right-click the Delay Palette heading to add one"))
            } else {
                None
            },
            ActiveTool::OffsetElement => if self.geometry.offset.awaiting_side_pick {
                Some(said("Choose offset side"))
            } else if self.geometry.offset.target_ids.len() == 0 {
                Some(said("Select a line or polyline"))
            } else {
                None
            },
            ActiveTool::DrapeToTopology => if self.geometry.drape.phase == DrapePhase::Designs {
                Some(said("Select designs"))
            } else {
                Some(said("Select topologies"))
            },
            ActiveTool::RelimitLine => if self.geometry.relimit.confirming_end {
                Some(said("Choose relimit side"))
            } else if self.geometry.relimit.waiting_for_pick {
                Some(said("Select line to relimit to"))
            } else if self.geometry.relimit.source_id.is_none() || self.geometry.relimit.awaiting_source_pick {
                Some(said("Select line to relimit"))
            } else {
                None
            },
            ActiveTool::FuseIntoPolyline => if self.geometry.fuse.awaiting_endpoint.is_some() {
                Some(said("Select the endpoint to join"))
            } else if self.geometry.fuse.segments.len() > 0 {
                Some(said("Select the next line to fuse"))
            } else {
                Some(said("Select a line to fuse"))
            },
            ActiveTool::SplitAtPoints => if self.geometry.fuse.split_poly_id.is_none() {
                Some(said("Select a polyline or open line"))
            } else if self.geometry.fuse.split_selected_verts.first.is_none() {
                Some(said("Select a split point"))
            } else if self.geometry.fuse.split_selected_verts.second.is_none() {
                Some(said("Select second split point"))
            } else {
                None
            },
            ActiveTool::Chamfer => if self.geometry.chamfer.corner_index.is_none() {
                Some(said("Select a polyline vertex"))
            } else {
                None
            },
            ActiveTool::Bezier => if self.geometry.bezier.poly_id.is_none() {
                Some(said("Select a polyline"))
            } else if self.geometry.bezier.selected_verts.first.is_none() {
                Some(said("Click first vertex"))
            } else if self.geometry.bezier.selected_verts.second.is_none() {
                Some(said("Click second vertex"))
            } else {
                None
            },
            ActiveTool::ExplodePolyline => Some(said("Select a polyline")),
            ActiveTool::BatterBermOffset => if self.geometry.batter_berm.target_id.is_none() {
                Some(said("Select a polyline"))
            } else {
                None
            },
            ActiveTool::DeletePoints => Some(said("Select a point")),
            _ => None,
        }
    }

    /// The prompt the viewport banner shows for the current tool and state, if
    /// any, given what the measurements read.
    pub fn viewport_message(&self, readings: Readings) -> (r: Option<ViewportMessage>)
        ensures
            r == self.prompt(readings),
    {
        let tool = self.drawing.tools.active_tool;
        if self.blasting.pattern.awaiting_shape_pick {
            return Some(said_with("Click a closed polyline to use as the blast shape", "Esc cancels"));
        }
        if tool == ActiveTool::VerticalSlice {
            return Some(
                if self.view.slice.pending_start.is_none() {
                    said("Click the first point of the slice line")
                } else {
                    said("Click the second point of the slice line")
                },
            );
        }
        if tool == ActiveTool::MeasureDistance && self.drawing.stroke.measurement_start.is_some()
            && self.drawing.stroke.measurement_end.is_some() {
            return Some(
                shown(literal1("%distance% meters", named("distance", Arg::Fixed { value: readings.distance, decimals: 3 }))),
            );
        }
        if tool == ActiveTool::MeasureBatterAngle {
            return Some(self.batter_angle_message(readings.batter_angle));
        }
        if self.view.slice.mode_enabled {
            return Some(ViewportMessage { text: literal("Slice view"), minor: Some(key("slice-viewport-gestures")) });
        }
        if tool == ActiveTool::MakeCircle {
            return Some(self.circle_message(readings.typed_radius));
        }
        self.tool_message()
    }
}

/// A pick that a dialog waits for is always asked for, whatever the tool: the
/// banner of a parked pattern dialog depends on nothing else.
pub proof fn parked_pattern_always_prompts(a: EditorState, b: EditorState, readings_a: Readings, readings_b: Readings)
    requires
        a.blasting.pattern.awaiting_shape_pick,
        b.blasting.pattern.awaiting_shape_pick,
    ensures
        a.prompt(readings_a) is Some,
        a.prompt(readings_a) == b.prompt(readings_b),
{
}

/// In the slice view the banner is never empty.
pub proof fn slice_view_always_prompts(editor: EditorState, readings: Readings)
    requires
        editor.view.slice.mode_enabled,
    ensures
        editor.prompt(readings) is Some,
{
}

/// Who has the banner: a parked pattern dialog before everything, then the slice line, then a
/// measurement, then the slice view, and only then the tool in hand.
pub proof fn banner_goes_to_the_first_claim(editor: EditorState, readings: Readings)
    ensures
        ({
            let tool = editor.drawing.tools.active_tool;
            let parked = editor.blasting.pattern.awaiting_shape_pick;
            let measured = tool is MeasureDistance && editor.drawing.stroke.measurement_start is Some
                && editor.drawing.stroke.measurement_end is Some;
            let slicing = editor.view.slice.mode_enabled;
            &&& !parked && tool is VerticalSlice ==> editor.prompt(readings) == Some(
                said(
                    if editor.view.slice.pending_start is None {
                        "Click the first point of the slice line"
                    } else {
                        "Click the second point of the slice line"
                    },
                ),
            )
            &&& !parked && measured ==> editor.prompt(readings) == Some(
                shown(literal1("%distance% meters", named("distance", Arg::Fixed { value: readings.distance, decimals: 3 }))),
            )
            &&& !parked && tool is MeasureBatterAngle ==> editor.prompt(readings) == Some(editor.batter_angle_prompt(readings.batter_angle))
            &&& !parked && !(tool is VerticalSlice) && !measured && !(tool is MeasureBatterAngle) && slicing
                ==> (editor.prompt(readings) matches Some(message) && message.minor is Some)
            &&& !parked && !slicing && tool is MakeCircle ==> editor.prompt(readings) == Some(editor.circle_prompt(readings.typed_radius))
            &&& !parked && !slicing && tool is MeasureDistance && !measured ==> editor.prompt(readings) is None
            &&& tool is NoTool && !parked && !slicing ==> editor.prompt(readings) is None
        }),
{
}

/// A tool with more than one thing to pick asks for them in turn, and for nothing once it
/// has them all.
pub proof fn tools_ask_until_they_have_what_they_need(editor: EditorState)
    ensures
        ({
            let tool = editor.drawing.tools.active_tool;
            let asked = editor.tool_prompt();
            &&& tool is Bezier ==> {
                let picked = editor.geometry.bezier.selected_verts;
                let chosen = editor.geometry.bezier.poly_id is Some;
                &&& asked is None <==> chosen && picked.first is Some && picked.second is Some
                &&& !chosen ==> asked == Some(said("Select a polyline"))
                &&& chosen && picked.first is None ==> asked == Some(said("Click first vertex"))
                &&& chosen && picked.first is Some && picked.second is None ==> asked == Some(said("Click second vertex"))
            }
            &&& tool is SplitAtPoints ==> {
                let picked = editor.geometry.fuse.split_selected_verts;
                let chosen = editor.geometry.fuse.split_poly_id is Some;
                &&& asked is None <==> chosen && picked.first is Some && picked.second is Some
                &&& chosen && picked.first is Some && picked.second is None ==> asked == Some(said("Select second split point"))
                &&& chosen && picked.first is None ==> asked == Some(said("Select a split point"))
            }
            &&& tool is RelimitLine ==> {
                let state = editor.geometry.relimit;
                &&& asked is None <==> !state.confirming_end && !state.waiting_for_pick && state.source_id is Some
                    && !state.awaiting_source_pick
                &&& state.confirming_end ==> asked == Some(said("Choose relimit side"))
                &&& !state.confirming_end && state.waiting_for_pick ==> asked == Some(said("Select line to relimit to"))
                &&& !state.confirming_end && !state.waiting_for_pick && state.awaiting_source_pick ==> asked == Some(
                    said("Select line to relimit"),
                )
            }
            &&& tool is OffsetElement ==> {
                let state = editor.geometry.offset;
                &&& asked is None <==> !state.awaiting_side_pick && state.target_ids@.len() > 0
                &&& state.awaiting_side_pick ==> asked == Some(said("Choose offset side"))
            }
            &&& tool is Chamfer ==> (asked is None <==> editor.geometry.chamfer.corner_index is Some)
            &&& tool is BatterBermOffset ==> (asked is None <==> editor.geometry.batter_berm.target_id is Some)
            &&& tool is Move || tool is MoveCollar ==> (asked is None <==> editor.spec_move_tool_has_targets())
            &&& tool is TieHoles ==> (asked is None <==> editor.has_active_product())
        }),
{
}

/// Tools that go on picking never fall silent: they ask for the next thing, by what they have
/// so far.
pub proof fn tools_that_go_on_always_ask(editor: EditorState)
    ensures
        ({
            let tool = editor.drawing.tools.active_tool;
            let asked = editor.tool_prompt();
            &&& tool is FuseIntoPolyline || tool is DrapeToTopology || tool is RotateCollar || tool is SetInitiationPoint
                || tool is PickRotationCentre || tool is ExplodePolyline || tool is DeletePoints ==> asked is Some
            &&& tool is FuseIntoPolyline && editor.geometry.fuse.awaiting_endpoint is Some ==> asked == Some(
                said("Select the endpoint to join"),
            )
            &&& tool is FuseIntoPolyline && editor.geometry.fuse.awaiting_endpoint is None ==> asked == Some(
                if editor.geometry.fuse.segments@.len() == 0 {
                    said("Select a line to fuse")
                } else {
                    said("Select the next line to fuse")
                },
            )
            &&& tool is DrapeToTopology && editor.geometry.drape.phase is Designs ==> asked == Some(said("Select designs"))
            &&& tool is DrapeToTopology && editor.geometry.drape.phase is Topologies ==> asked == Some(said("Select topologies"))
            &&& tool is RotateCollar && !editor.spec_rotate_tool_has_targets() ==> asked == Some(said("Select a drill hole"))
            &&& tool is RotateCollar && editor.spec_rotate_tool_has_targets() ==> (asked matches Some(message) && message.minor is Some)
            &&& tool is MoveCollar && !editor.spec_move_tool_has_targets() ==> asked == Some(said("Select a drill hole"))
            &&& tool is Move && !editor.spec_move_tool_has_targets() ==> asked == Some(said("Select an item"))
        }),
{
}

/// The circle tool asks for the centre, then for a radius; typed text is taken up on Enter
/// where it is a radius and asked for again where it is not.
pub proof fn circle_asks_for_centre_then_radius(editor: EditorState, typed: Option<Real64>)
    ensures
        editor.drawing.stroke.circle_draft is None ==> editor.circle_prompt(typed) == said("Click the circle centre"),
        editor.drawing.stroke.circle_draft matches Some(draft) ==> {
            &&& draft.radius_text@.len() == 0 ==> editor.circle_prompt(typed) == said("Click a perimeter point or type a radius")
            &&& draft.radius_text@.len() > 0 ==> (editor.circle_prompt(typed).minor is Some <==> draft.spec_typed_radius(typed) is Some)
        },
{
}

/// A batter angle takes three points, asked for one after the other, and shows what they
/// measure as soon as they measure something.
pub proof fn batter_angle_asks_for_three_points(editor: EditorState, measured: Option<BatterAngleMeasurement>)
    ensures
        measured matches Some(measurement) ==> editor.batter_angle_prompt(measured) == shown(batter_angle_reading(measurement)),
        measured is None ==> {
            let count = editor.drawing.stroke.batter_angle_points@.len();
            &&& count == 0 ==> editor.batter_angle_prompt(measured) == said("Select first crest/toe point")
            &&& count == 1 ==> editor.batter_angle_prompt(measured) == said("Select second crest/toe point")
            &&& count >= 2 ==> editor.batter_angle_prompt(measured) == said("Select opposite berm point")
        },
{
}

/// A distance is shown once both of its ends are picked and its tool is in hand.
pub proof fn distances_need_both_ends(editor: EditorState, distance: Real64)
    ensures
        editor.distance_prompt(distance) is Some <==> editor.drawing.tools.active_tool is MeasureDistance
            && editor.drawing.stroke.measurement_start is Some && editor.drawing.stroke.measurement_end is Some,
{
}

/// Tools that wait for nothing but a click say what to click.
pub proof fn clicking_tools_say_what_to_click(editor: EditorState)
    ensures
        editor.drawing.tools.active_tool is SetInitiationPoint ==> editor.tool_prompt() == Some(
            said("Click a collar to add or edit an initiation point"),
        ),
        editor.drawing.tools.active_tool is PickRotationCentre ==> editor.tool_prompt() == Some(
            said("Click a point to fix the centre of rotation"),
        ),
        editor.drawing.tools.active_tool is ExplodePolyline ==> editor.tool_prompt() == Some(said("Select a polyline")),
        editor.drawing.tools.active_tool is DeletePoints ==> editor.tool_prompt() == Some(said("Select a point")),
        editor.drawing.tools.active_tool is BatterBermOffset ==> (editor.tool_prompt() is Some
            <==> editor.geometry.batter_berm.target_id is None),
{
}

} // verus!
