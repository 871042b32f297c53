//! What a frame draws over the scene, in which order, and what it prompts.
use incline_ui::command::UiCommand;
use incline_ui::editor::{EditorState, SeedNames, Startup};
use incline_ui::frame::{FrameContext, FramePart, GLOBAL_DIALOGS, GlobalDialog, Island, PANELS, Panel, SCENE_PARTS, SETUP_PARTS};
use incline_ui::ids::{Carried, DelayProductId, DrillHoleId, DrillHoleRef, LanguageChoice, ObjectId, SceneEntityId};
use incline_ui::model::Axis;
use incline_ui::number::{Pixel, Real32, Real64, Rgba, Vec3};
use incline_ui::overlay::{ChamferArrow, InputEvent, RadiusEdit, box_takes_touched, canvas_bottom, canvas_viewport, delay_label, pointer_gesture_active, replace_pastes, selection_color, theme_is_stale};
use incline_ui::palette::{DelayProduct, PackedColor};
use incline_ui::preferences::{InterfacePreferences, PerformancePreferences, ShippedPreferences};
use incline_ui::previews::{Segment, chain_segments, guide_segments, pair_markers, pair_segments, path_segments, ring_segments, tangent, vertex_marker, visible_points};
use incline_ui::project_view::Platform;
use incline_ui::prompts::{Readings, ViewportMessage};
use incline_ui::state::geometry::{FuseSegment, PickedPair};
use incline_ui::text::{Arg, Text, key, literal, literal1, literal2, named, plain1};
use incline_ui::tools::{ActiveTool, DrapePhase};
use incline_ui::views::{BatterAngleMeasurement, CircleDraft, Quad, ViewportRect};
use incline_ui::workspace::{PlanningSubpage, SolidsStep, Workspace};

fn d(value: f64) -> Real64 {
    Real64 { bits: value.to_bits() }
}

fn f(value: f32) -> Real32 {
    Real32 { bits: value.to_bits() }
}

fn rgba(r: f32, g: f32, b: f32, a: f32) -> Rgba {
    Rgba { r: f(r), g: f(g), b: f(b), a: f(a) }
}

fn startup() -> Startup {
    Startup {
        preferences: ShippedPreferences {
            language: LanguageChoice(0),
            interface: InterfacePreferences {
                renderer_background_color: rgba(0.1, 0.2, 0.3, 1.0),
                dark_mode: true,
                show_console: true,
                panel_chrome: true,
                show_world_axis_gizmo: true,
                show_scale_bar: true,
            },
            performance: PerformancePreferences {
                snap_poll_rate: 60,
                vsync_enabled: true,
                frame_rate_cap: 120,
                resize_frame_rate_cap: 30,
                block_model_interaction_resolution_divisor: 2,
                show_block_model_boundary_highlights: true,
                downscale_raster_previews: true,
            },
            plan_orbit_sensitivity: d(1.0),
            plan_zoom_sensitivity: d(1.0),
            plan_zoom_towards_cursor: true,
            fly_field_of_view_degrees: d(70.0),
            fly_mouse_look_sensitivity: d(1.0),
            fly_near_clip_limit: d(0.1),
            fly_max_clip_span: d(10000.0),
        },
        products: Vec::new(),
        first_color_stop: 100,
        names: SeedNames {
            drill_pattern: "Drill Pattern".to_owned(),
            layer: "Design".to_owned(),
            contours: "Surface Contours".to_owned(),
            surface: "Surface".to_owned(),
            block_model: "Kriged Block Model".to_owned(),
        },
    }
}

fn editor() -> EditorState {
    EditorState::new(startup())
}

fn v3(x: f64, y: f64, z: f64) -> Vec3 {
    Vec3 { x: d(x), y: d(y), z: d(z) }
}

fn px(x: f32, y: f32) -> Pixel {
    Pixel { x: f(x), y: f(y) }
}

fn readings() -> Readings {
    Readings { distance: d(0.0), batter_angle: None, typed_radius: None }
}

fn context() -> FrameContext {
    FrameContext { platform: Platform::Desktop, needs_startup_dialog: false, orbit_marker: false, rotation_centre: false, readings: readings() }
}

fn shown(e: &EditorState) -> Option<Text> {
    e.viewport_message(readings()).map(|message| message.text)
}

#[test]
fn nothing_is_prompted_without_a_tool() {
    assert!(editor().viewport_message(readings()).is_none());
}

#[test]
fn parked_pattern_prompts_before_any_tool() {
    let mut e = editor();
    e.drawing.tools.active_tool = ActiveTool::DeletePoints;
    assert_eq!(shown(&e), Some(literal("Select a point")));
    e.blasting.pattern.awaiting_shape_pick = true;
    let message = e.viewport_message(readings()).unwrap();
    assert_eq!(message, ViewportMessage { text: literal("Click a closed polyline to use as the blast shape"), minor: Some(literal("Esc cancels")) });
}

#[test]
fn slice_line_and_slice_view_prompt() {
    let mut e = editor();
    e.drawing.tools.active_tool = ActiveTool::VerticalSlice;
    assert_eq!(shown(&e), Some(literal("Click the first point of the slice line")));
    e.view.slice.pending_start = Some(v3(0.0, 0.0, 0.0));
    assert_eq!(shown(&e), Some(literal("Click the second point of the slice line")));
    e.drawing.tools.active_tool = ActiveTool::MakeCircle;
    e.view.slice.mode_enabled = true;
    let message = e.viewport_message(readings()).unwrap();
    assert_eq!(message, ViewportMessage { text: literal("Slice view"), minor: Some(key("slice-viewport-gestures")) });
}

#[test]
fn measurements_are_read_out() {
    let mut e = editor();
    e.drawing.tools.active_tool = ActiveTool::MeasureDistance;
    assert_eq!(shown(&e), None);
    e.drawing.stroke.measurement_start = Some(v3(0.0, 0.0, 0.0));
    e.drawing.stroke.measurement_end = Some(v3(3.0, 4.0, 0.0));
    let message = e.viewport_message(Readings { distance: d(5.0), ..readings() }).unwrap();
    assert_eq!(message.text, literal1("%distance% meters", named("distance", Arg::Fixed { value: d(5.0), decimals: 3 })));
    e.drawing.tools.active_tool = ActiveTool::MeasureBatterAngle;
    assert_eq!(shown(&e), Some(literal("Select first crest/toe point")));
    e.drawing.stroke.batter_angle_points.push(v3(0.0, 0.0, 0.0));
    assert_eq!(shown(&e), Some(literal("Select second crest/toe point")));
    e.drawing.stroke.batter_angle_points.push(v3(1.0, 0.0, 0.0));
    assert_eq!(shown(&e), Some(literal("Select opposite berm point")));
    let dip = Arg::Phrase { words: "%value%° dip", name: "value", value: d(30.0), decimals: 2 };
    let flat = BatterAngleMeasurement { dip_degrees: d(30.0), strike_degrees: None, projection: v3(0.0, 0.0, 0.0) };
    let read = |measured: BatterAngleMeasurement| e.viewport_message(Readings { batter_angle: Some(measured), ..readings() }).unwrap().text;
    assert_eq!(read(flat), literal1("%dip% (horizontal, no strike)", named("dip", dip.clone())));
    let strike = Arg::Padded { value: d(45.0), width: 6, decimals: 2 };
    let sloped = BatterAngleMeasurement { strike_degrees: Some(d(45.0)), ..flat };
    assert_eq!(read(sloped), literal2("%strike%° strike · %dip%", named("strike", strike), named("dip", dip)));
}

#[test]
fn circle_prompts_follow_the_draft() {
    let mut e = editor();
    e.drawing.tools.active_tool = ActiveTool::MakeCircle;
    assert_eq!(shown(&e), Some(literal("Click the circle centre")));
    e.drawing.stroke.circle_draft = Some(CircleDraft::new(v3(0.0, 0.0, 0.0)));
    assert_eq!(shown(&e), Some(literal("Click a perimeter point or type a radius")));
    e.drawing.stroke.circle_draft.as_mut().unwrap().radius_text = "4".to_owned();
    assert_eq!(shown(&e), Some(literal("Enter a positive decimal radius")));
    let message = e.viewport_message(Readings { typed_radius: Some(d(4.0)), ..readings() }).unwrap();
    assert_eq!(message, ViewportMessage { text: literal("Press Enter to use the typed radius"), minor: Some(literal("or click to use the pointer radius")) });
}

#[test]
fn tools_prompt_for_what_they_lack() {
    let mut e = editor();
    let mut cases: Vec<(ActiveTool, Option<&'static str>)> = vec![
        (ActiveTool::Move, Some("Select an item")),
        (ActiveTool::MoveCollar, Some("Select a drill hole")),
        (ActiveTool::RotateCollar, Some("Select a drill hole")),
        (ActiveTool::SetInitiationPoint, Some("Click a collar to add or edit an initiation point")),
        (ActiveTool::PickRotationCentre, Some("Click a point to fix the centre of rotation")),
        (ActiveTool::TieHoles, Some("No delay product to tie with")),
        (ActiveTool::OffsetElement, Some("Select a line or polyline")),
        (ActiveTool::DrapeToTopology, Some("Select designs")),
        (ActiveTool::RelimitLine, Some("Select line to relimit")),
        (ActiveTool::FuseIntoPolyline, Some("Select a line to fuse")),
        (ActiveTool::SplitAtPoints, Some("Select a polyline or open line")),
        (ActiveTool::Chamfer, Some("Select a polyline vertex")),
        (ActiveTool::Bezier, Some("Select a polyline")),
        (ActiveTool::ExplodePolyline, Some("Select a polyline")),
        (ActiveTool::BatterBermOffset, Some("Select a polyline")),
        (ActiveTool::MakeLine, None),
    ];
    for (tool, words) in cases.drain(..) {
        e.drawing.tools.active_tool = tool;
        assert_eq!(shown(&e), words.map(literal));
    }
    e.selection.selected_handles.insert(SceneEntityId::Object(ObjectId(1)));
    e.selection.selected_drill_holes.insert(DrillHoleRef { dataset: DrillHoleId(1), hole: 0 });
    e.blasting.products.delay_products.push(DelayProduct { id: DelayProductId(0), delay_ms: 1, name: String::new(), color: PackedColor { r: 0, g: 0, b: 0, a: 255 } });
    e.blasting.products.active_delay_product = Some(DelayProductId(0));
    e.geometry.offset.target_ids.push(ObjectId(1));
    e.geometry.offset.awaiting_side_pick = true;
    e.geometry.drape.phase = DrapePhase::Topologies;
    e.geometry.relimit.source_id = Some(ObjectId(1));
    e.geometry.relimit.waiting_for_pick = true;
    e.geometry.fuse.segments.push(FuseSegment { object_id: ObjectId(1), reversed: false, start_index: 0, closed: false, weld_start: false });
    e.geometry.fuse.split_poly_id = Some(ObjectId(1));
    e.geometry.chamfer.corner_index = Some(0);
    e.geometry.bezier.poly_id = Some(ObjectId(1));
    e.geometry.batter_berm.target_id = Some(ObjectId(1));
    cases = vec![
        (ActiveTool::Move, None),
        (ActiveTool::MoveCollar, None),
        (ActiveTool::RotateCollar, Some("Drag a ring, or type an azimuth and dip")),
        (ActiveTool::TieHoles, None),
        (ActiveTool::OffsetElement, Some("Choose offset side")),
        (ActiveTool::DrapeToTopology, Some("Select topologies")),
        (ActiveTool::RelimitLine, Some("Select line to relimit to")),
        (ActiveTool::FuseIntoPolyline, Some("Select the next line to fuse")),
        (ActiveTool::SplitAtPoints, Some("Select a split point")),
        (ActiveTool::Chamfer, None),
        (ActiveTool::Bezier, Some("Click first vertex")),
        (ActiveTool::BatterBermOffset, None),
    ];
    for (tool, words) in cases.drain(..) {
        e.drawing.tools.active_tool = tool;
        assert_eq!(shown(&e), words.map(literal));
    }
    e.geometry.offset.awaiting_side_pick = false;
    e.geometry.relimit.confirming_end = true;
    e.geometry.fuse.awaiting_endpoint = Some(ObjectId(1));
    e.geometry.fuse.split_selected_verts.first = Some(0);
    e.geometry.bezier.selected_verts.first = Some(0);
    cases = vec![
        (ActiveTool::OffsetElement, None),
        (ActiveTool::RelimitLine, Some("Choose relimit side")),
        (ActiveTool::FuseIntoPolyline, Some("Select the endpoint to join")),
        (ActiveTool::SplitAtPoints, Some("Select second split point")),
        (ActiveTool::Bezier, Some("Click second vertex")),
    ];
    for (tool, words) in cases {
        e.drawing.tools.active_tool = tool;
        assert_eq!(shown(&e), words.map(literal));
    }
}

#[test]
fn panels_are_claimed_from_the_window_edge_in() {
    let order: Vec<Panel> = (0..PANELS).map(|place| Panel::panel(place).unwrap()).collect();
    let wanted = vec![
        Panel::MainMenu,
        Panel::StatusBar,
        Panel::ViewportBar,
        Panel::Explorer,
        Panel::Console,
        Panel::BottomToolbar,
        Panel::Island,
        Panel::LeftToolbar,
    ];
    assert_eq!(order, wanted);
    assert!(Panel::panel(PANELS).is_none());
    let mut e = editor();
    assert!(Panel::Console.claimed(&e) && Panel::LeftToolbar.claimed(&e) && !Panel::Island.claimed(&e));
    e.preferences.interface.show_console = false;
    assert!(!Panel::Console.claimed(&e));
    e.workspace.active = Workspace::Planning;
    assert!(!Panel::BottomToolbar.claimed(&e) && !Panel::LeftToolbar.claimed(&e) && Panel::Explorer.claimed(&e));
}

#[test]
fn right_edge_belongs_to_the_workspace() {
    let mut e = editor();
    assert_eq!(e.right_island(), None);
    e.workspace.active = Workspace::DrillAndBlast;
    assert_eq!(e.right_island(), Some(Island::Products));
    e.workspace.active = Workspace::Planning;
    e.planning.pages.solids_step = SolidsStep::Blasting;
    assert_eq!(e.right_island(), Some(Island::Blasts));
    e.planning.pages.solids_step = SolidsStep::DigStrips;
    assert_eq!(e.right_island(), Some(Island::DigStrips));
    e.planning.pages.page = incline_ui::workspace::PlanningPage::Haulage;
    assert_eq!(e.right_island(), Some(Island::ReserveData));
    assert!(e.editing_enabled(true) && !e.editing_enabled(false));
    e.view.display.fly_mode_enabled = true;
    assert!(!e.editing_enabled(true));
}

#[test]
fn scene_parts_come_in_their_stacking_order() {
    assert_eq!(FramePart::scene_part(0), Some(FramePart::SectionGrid));
    assert_eq!(FramePart::scene_part(SCENE_PARTS - 1), Some(FramePart::GlobalDialogs));
    assert!(FramePart::scene_part(SCENE_PARTS).is_none());
    let all: Vec<FramePart> = (0..SCENE_PARTS).map(|place| FramePart::scene_part(place).unwrap()).collect();
    let at = |part: FramePart| all.iter().position(|&entry| entry == part).unwrap();
    for i in 0..SCENE_PARTS {
        assert_eq!(at(all[i]), i);
    }
    let rising = [
        FramePart::SelectionBox,
        FramePart::MoveGizmo,
        FramePart::MovePanel,
        FramePart::ChamferPreview,
        FramePart::BezierVertices,
        FramePart::SelectProject,
        FramePart::ObjectEdit,
        FramePart::Preferences,
        FramePart::ContextMenu,
        FramePart::OffsetRequest,
        FramePart::OffsetDialog,
        FramePart::ToolLabel,
        FramePart::SlicePanel,
        FramePart::TextEdit,
        FramePart::OrbitMarker,
        FramePart::OrientationGizmo,
        FramePart::CutLabels,
        FramePart::ToolCursor,
        FramePart::ScaleBar,
        FramePart::GlobalDialogs,
    ];
    for pair in rising.windows(2) {
        assert!(at(pair[0]) < at(pair[1]));
    }
    assert_eq!(FramePart::setup_part(0), Some(FramePart::SolidsDetails));
    assert_eq!(FramePart::setup_part(SETUP_PARTS - 1), Some(FramePart::GlobalDialogs));
}

#[test]
fn tools_ask_for_their_dialogs_once_they_are_closed() {
    let mut e = editor();
    let c = context();
    let mut commands = Vec::new();
    e.drawing.tools.active_tool = ActiveTool::OffsetElement;
    assert!(FramePart::OffsetRequest.take_turn(&e, &c, &mut commands));
    assert!(!FramePart::BatterBermRequest.take_turn(&e, &c, &mut commands));
    e.geometry.offset.dialog_open = true;
    assert!(!FramePart::OffsetRequest.take_turn(&e, &c, &mut commands));
    assert!(FramePart::OffsetDialog.drawn(&e, &c));
    e.drawing.tools.active_tool = ActiveTool::RelimitLine;
    assert!(FramePart::RelimitRequest.take_turn(&e, &c, &mut commands));
    e.geometry.relimit.waiting_for_pick = true;
    assert!(!FramePart::RelimitRequest.take_turn(&e, &c, &mut commands));
    e.drawing.tools.active_tool = ActiveTool::BatterBermOffset;
    assert!(FramePart::BatterBermRequest.take_turn(&e, &c, &mut commands));
    assert_eq!(commands, vec![UiCommand::OpenOffsetDialog, UiCommand::OpenRelimitDialog, UiCommand::OpenBatterBermDialog]);
}

#[test]
fn splash_gives_way_to_naming_a_browser_project() {
    let mut e = editor();
    let mut c = FrameContext { needs_startup_dialog: true, ..context() };
    e.project.dialogs.new_project_open = true;
    assert!(FramePart::SelectProject.drawn(&e, &c) && !FramePart::CreateProject.drawn(&e, &c));
    c.platform = Platform::Browser;
    assert!(!FramePart::SelectProject.drawn(&e, &c) && FramePart::CreateProject.drawn(&e, &c));
    e.planning.pages.solids_subpage = PlanningSubpage::View;
    e.workspace.active = Workspace::Planning;
    assert!(FramePart::SolidsDetails.drawn(&e, &c) && !FramePart::PlanningDetails.drawn(&e, &c));
}

#[test]
fn global_dialogs_follow_their_flags() {
    let mut e = editor();
    let open: Vec<GlobalDialog> = (0..GLOBAL_DIALOGS).map(|place| GlobalDialog::global_dialog(place).unwrap()).filter(|dialog| dialog.drawn(&e, Platform::Desktop)).collect();
    assert_eq!(open, vec![GlobalDialog::DrillHoleColors, GlobalDialog::DrillPattern, GlobalDialog::Import, GlobalDialog::Export]);
    e.project.lifecycle.pending_discard_project = Some(1);
    assert!(GlobalDialog::DiscardProject.drawn(&e, Platform::Desktop) && !GlobalDialog::DiscardProject.drawn(&e, Platform::Browser));
    e.triangulation.create.open = true;
    assert!(GlobalDialog::CreateTriangulation.drawn(&e, Platform::Desktop));
    assert!(GlobalDialog::CreateTriangulation.rebuilds_geometry() && !GlobalDialog::Exit.rebuilds_geometry());
    assert!(GlobalDialog::global_dialog(GLOBAL_DIALOGS).is_none());
    e.triangulation.build_solid.open = true;
    assert!(GlobalDialog::BuildSolid.drawn(&e, Platform::Desktop) && !GlobalDialog::CutToPitShell.drawn(&e, Platform::Desktop));
    e.triangulation.build_solid.open = false;
    e.triangulation.cut_pitshell.open = true;
    assert!(!GlobalDialog::BuildSolid.drawn(&e, Platform::Desktop) && GlobalDialog::CutToPitShell.drawn(&e, Platform::Desktop));
}

fn seg(a: f32, b: f32) -> Segment {
    Segment { from: px(a, 0.0), to: px(b, 0.0) }
}

fn at(x: f32) -> Option<Pixel> {
    Some(px(x, 0.0))
}

#[test]
fn previews_join_visible_neighbours_only() {
    assert_eq!(ring_segments(&vec![at(0.0), at(1.0), None, at(3.0)]), vec![seg(0.0, 1.0), seg(3.0, 0.0)]);
    assert_eq!(ring_segments(&vec![at(5.0)]), vec![seg(5.0, 5.0)]);
    assert_eq!(path_segments(&vec![at(0.0), at(1.0), None, at(3.0)]), vec![seg(0.0, 1.0)]);
    assert!(path_segments(&Vec::new()).is_empty());
    let points = vec![at(0.0), at(1.0), at(2.0), at(3.0), at(4.0)];
    let ranges = vec![(0, 3, true), (3, 5, false), (4, 4, true), (4, 9, false)];
    assert_eq!(chain_segments(&points, &ranges), vec![seg(0.0, 1.0), seg(1.0, 2.0), seg(2.0, 0.0), seg(3.0, 4.0)]);
    assert_eq!(guide_segments(&vec![at(0.0), None, at(2.0)], &vec![at(5.0), at(6.0)]), vec![seg(0.0, 5.0)]);
    assert_eq!(visible_points(&vec![at(0.0), None, at(2.0)]), vec![px(0.0, 0.0), px(2.0, 0.0)]);
    assert_eq!(pair_segments(&vec![(at(0.0), at(1.0)), (None, at(1.0))]), vec![seg(0.0, 1.0)]);
}

#[test]
fn markers_sit_on_picked_vertices_that_show() {
    let points = vec![at(0.0), None, at(2.0)];
    assert_eq!(vertex_marker(&points, Some(2)), at(2.0));
    assert_eq!(vertex_marker(&points, Some(1)), None);
    assert_eq!(vertex_marker(&points, Some(9)), None);
    assert_eq!(vertex_marker(&points, None), None);
    assert_eq!(pair_markers(&points, PickedPair { first: Some(2), second: Some(1) }), vec![px(2.0, 0.0)]);
    assert_eq!(tangent(&points, Some(0), px(7.0, 0.0)), Some(seg(0.0, 7.0)));
    assert_eq!(tangent(&points, Some(1), px(7.0, 0.0)), None);
}

fn radius_edit() -> RadiusEdit {
    RadiusEdit { text: None, has_focus: true, enter: false, escape: false, parsed: None }
}

#[test]
fn radius_field_is_typed_into_committed_and_left() {
    let mut e = editor();
    e.drawing.cursor.screen_px = Some(px(4.0, 5.0));
    e.drawing.stroke.circle_draft = Some(CircleDraft::new(v3(0.0, 0.0, 0.0)));
    e.drawing.tools.active_tool = ActiveTool::MakeCircle;
    assert!(e.radius_field_shown());
    let mut commands = Vec::new();
    let first = e.edit_circle_radius(RadiusEdit { text: Some("12".to_owned()), ..radius_edit() }, &mut commands);
    assert!(first.changed && first.request_focus);
    let draft = e.drawing.stroke.circle_draft.as_ref().unwrap();
    assert_eq!((draft.radius_text.as_str(), draft.typing_origin_screen_px), ("12", Some(px(4.0, 5.0))));
    assert!(draft.typed_invalid(None) && !draft.typed_invalid(Some(d(12.0))));
    assert_eq!(draft.radius_hint(None), plain1("%value%", named("value", Arg::Fixed { value: d(0.0), decimals: 3 })));
    e.edit_circle_radius(RadiusEdit { enter: true, parsed: Some(d(12.0)), ..radius_edit() }, &mut commands);
    assert_eq!(commands, vec![UiCommand::CommitCircleTypedRadius]);
    let cleared = e.edit_circle_radius(RadiusEdit { escape: true, ..radius_edit() }, &mut commands);
    assert!(cleared.changed);
    assert_eq!(e.drawing.stroke.circle_draft.as_ref().unwrap().radius_text, "");
    e.edit_circle_radius(RadiusEdit { escape: true, ..radius_edit() }, &mut commands);
    assert!(e.drawing.stroke.circle_draft.is_none());
    assert_eq!(commands.len(), 1);
}

#[test]
fn canvas_ends_above_the_panels_below_it() {
    assert_eq!(canvas_bottom(f(700.0), f(650.0), None), f(650.0));
    assert_eq!(canvas_bottom(f(700.0), f(650.0), Some(f(500.0))), f(500.0));
    assert_eq!(canvas_bottom(f(600.0), f(650.0), Some(f(800.0))), f(600.0));
    let rect = ViewportRect { x: 1, y: 2, width: 3, height: 4 };
    assert_eq!(canvas_viewport(false, Some(rect), 640, 480), rect);
    assert_eq!(canvas_viewport(false, None, 640, 480), ViewportRect { x: 0, y: 0, width: 640, height: 480 });
    assert_eq!(canvas_viewport(true, Some(rect), 640, 480), ViewportRect { x: 0, y: 0, width: 0, height: 0 });
}

#[test]
fn theme_pointer_and_box_rules() {
    assert_eq!(selection_color(), PackedColor { r: 87, g: 163, b: 255, a: 255 });
    assert!(!theme_is_stale(true, selection_color(), true));
    assert!(theme_is_stale(false, selection_color(), true));
    assert!(theme_is_stale(true, PackedColor { r: 0, g: 0, b: 0, a: 255 }, true));
    assert!(pointer_gesture_active(true, false) && pointer_gesture_active(false, true) && !pointer_gesture_active(false, false));
    assert!(box_takes_touched(px(1.0, 9.0), px(2.0, 0.0)));
    assert!(!box_takes_touched(px(2.0, 0.0), px(1.0, 9.0)));
    assert!(!box_takes_touched(px(1.0, 0.0), px(1.0, 9.0)));
    assert_eq!(delay_label(25), plain1("%delay% ms", named("delay", Arg::Number(25))));
}

#[test]
fn pastes_are_applied_once() {
    let events = vec![InputEvent::Other(Carried(1)), InputEvent::Paste("old".to_owned()), InputEvent::Other(Carried(2))];
    let mut pending = vec!["new".to_owned()];
    let after = replace_pastes(events, &mut pending);
    assert_eq!(after, vec![InputEvent::Other(Carried(1)), InputEvent::Other(Carried(2)), InputEvent::Paste("new".to_owned())]);
    assert!(pending.is_empty());
}

fn quad() -> Quad {
    Quad { a: px(0.0, 0.0), b: px(1.0, 0.0), c: px(1.0, 1.0), d: px(0.0, 1.0) }
}

#[test]
fn faded_handles_are_not_drawn() {
    let mut e = editor();
    let moving = &mut e.geometry.translate;
    assert!(moving.plane_handles().is_empty() && moving.axis_handles().is_empty());
    moving.screen.center_px = Some(px(0.0, 0.0));
    moving.screen.plane_quad_px.x = Some(quad());
    moving.screen.plane_fade.x = f(0.5);
    moving.screen.plane_quad_px.y = Some(quad());
    moving.screen.plane_quad_px.z = Some(quad());
    moving.screen.plane_fade.z = f(1.0);
    moving.hovered_plane = Some(2);
    let planes = moving.plane_handles();
    assert_eq!(planes.len(), 2);
    assert_eq!((planes[0].normal, planes[0].active), (Axis::Z, false));
    assert_eq!((planes[1].normal, planes[1].active), (Axis::X, true));
    moving.screen.axis_tip_px.y = Some(px(9.0, 0.0));
    moving.screen.axis_fade.y = f(1.0);
    moving.drag_axis_index = Some(1);
    let axes = moving.axis_handles();
    assert_eq!(axes.len(), 1);
    assert_eq!((axes[0].axis, axes[0].active), (Axis::Y, true));
    assert!(!moving.ring_active());
    moving.drag_plane_index = Some(3);
    assert!(moving.ring_active());
}

#[test]
fn rings_need_two_points() {
    let mut e = editor();
    let rotating = &mut e.geometry.rotate;
    rotating.screen.center_px = Some(px(0.0, 0.0));
    rotating.screen.azimuth_fade = f(1.0);
    rotating.screen.azimuth_ring_px = vec![px(0.0, 0.0)];
    assert!(rotating.ring_handle(0).is_none());
    rotating.screen.azimuth_ring_px.push(px(1.0, 0.0));
    rotating.hovered_ring = Some(0);
    let ring = rotating.ring_handle(0).unwrap();
    assert!(ring.active);
    assert_eq!(ring.path, vec![px(0.0, 0.0), px(1.0, 0.0), px(0.0, 0.0)]);
    assert!(rotating.ring_handle(1).is_none());
}

#[test]
fn handles_light_up_while_held() {
    let mut e = editor();
    e.geometry.bezier.hover_cp = Some(1);
    e.geometry.bezier.dragging_cp = Some(0);
    assert!(e.geometry.bezier.control_active(0) && e.geometry.bezier.control_active(1));
    let chamfer = &mut e.geometry.chamfer;
    assert!(!chamfer.handle_active());
    assert_eq!(chamfer.arrow(), ChamferArrow::CornerOnly);
    chamfer.gizmo_bisector_px = Some(px(1.0, 0.0));
    assert_eq!(chamfer.arrow(), ChamferArrow::AlongEdge(px(1.0, 0.0)));
    chamfer.gizmo_handle_px = Some(px(2.0, 0.0));
    assert_eq!(chamfer.arrow(), ChamferArrow::AtHandle { handle: px(2.0, 0.0), edge: Some(px(1.0, 0.0)) });
    chamfer.gizmo_drag_start_px = Some(px(0.0, 0.0));
    assert!(chamfer.handle_active());
}
