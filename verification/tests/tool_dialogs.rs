//! The panels and dialogs of the tools.
use incline_ui::command::{TrackedProject, UiCommand};
use incline_ui::dialogs::placement_dialogs::DialogButtons;
use incline_ui::dialogs::project_dialogs::{NameEdit, SplashClick, is_blank, take_splash};
use incline_ui::dialogs::selection_dialogs::{ContextMenuClick, canvas_context_menu_title, object_kind_label};
use incline_ui::dialogs::tool_panels::{BatterBermEdit, OffsetDialog, OffsetSlope, RelimitStatus, finish_slice};
use incline_ui::document::Document;
use incline_ui::editor::{EditorState, SeedNames, Startup};
use incline_ui::ids::{DrillHoleId, LanguageChoice, LayerId, ObjectId, ProjectId, RenameTarget, SceneEntityId, TriangulationId};
use incline_ui::model::{Axis, CollarRotation, FillStyle, Object, ObjectColor, Vertex};
use incline_ui::number::{Real32, Real64, Rgba, Vec3};
use incline_ui::preferences::{InterfacePreferences, PerformancePreferences, ShippedPreferences};
use incline_ui::project_view::{MembershipChanges, UiLayerEntry, UiProjectEntry, UiProjectView, UiTrackedProjectEntry};
use incline_ui::state::drawing::{InsertPointAtElevationDialog, MoveToAxisDialog, MoveToLayerDialog};
use incline_ui::state::project::ProjectDialogs;
use incline_ui::text::{Arg, Args, Source, key1, key2, literal, literal1, named};
use incline_ui::tools::{ActiveTool, BatterBermMode, DrapePhase, HeightMode, OffsetMeasure, RelimitMode, TrimEnd};
use incline_ui::views::{GridOptionsDialog, SectionGridStyle};
use incline_ui::workspace::{SolidsStep, Workspace};

fn d(value: f64) -> Real64 {
    Real64 { bits: value.to_bits() }
}

fn f(value: f32) -> Real32 {
    Real32 { bits: value.to_bits() }
}

fn rgba(r: f32, g: f32, b: f32, a: f32) -> Rgba {
    Rgba { r: f(r), g: f(g), b: f(b), a: f(a) }
}

fn startup() -> Startup {
    Startup {
        preferences: ShippedPreferences {
            language: LanguageChoice(0),
            interface: InterfacePreferences {
                renderer_background_color: rgba(0.1, 0.2, 0.3, 1.0),
                dark_mode: true,
                show_console: true,
                panel_chrome: true,
                show_world_axis_gizmo: true,
                show_scale_bar: true,
            },
            performance: PerformancePreferences {
                snap_poll_rate: 60,
                vsync_enabled: true,
                frame_rate_cap: 120,
                resize_frame_rate_cap: 30,
                block_model_interaction_resolution_divisor: 2,
                show_block_model_boundary_highlights: true,
                downscale_raster_previews: true,
            },
            plan_orbit_sensitivity: d(1.0),
            plan_zoom_sensitivity: d(1.0),
            plan_zoom_towards_cursor: true,
            fly_field_of_view_degrees: d(70.0),
            fly_mouse_look_sensitivity: d(1.0),
            fly_near_clip_limit: d(0.1),
            fly_max_clip_span: d(10000.0),
        },
        products: Vec::new(),
        first_color_stop: 100,
        names: SeedNames {
            drill_pattern: "Drill Pattern".to_owned(),
            layer: "Design".to_owned(),
            contours: "Surface Contours".to_owned(),
            surface: "Surface".to_owned(),
            block_model: "Kriged Block Model".to_owned(),
        },
    }
}

fn editor() -> EditorState {
    EditorState::new(startup())
}

fn v3(x: f64, y: f64, z: f64) -> Vec3 {
    Vec3 { x: d(x), y: d(y), z: d(z) }
}

fn project_view() -> UiProjectView {
    UiProjectView {
        tracked_projects: Vec::new(),
        projects: Vec::new(),
        triangulations: Vec::new(),
        block_models: Vec::new(),
        drill_holes: Vec::new(),
        point_clouds: Vec::new(),
        raster_textures: Vec::new(),
        membership: MembershipChanges { triangulations: false, block_models: false, drill_holes: false, point_clouds: false, rasters: false },
        has_active_project: false,
        needs_startup_dialog: false,
        active_path: None,
        active_triangulation_for_menu: None,
    }
}

fn project_entry(layers: Vec<UiLayerEntry>) -> UiProjectEntry {
    UiProjectEntry {
        runtime_id: 7,
        name: "pit".to_owned(),
        dirty: false,
        designs_dirty: false,
        lossy_save_warnings: Vec::new(),
        is_active: true,
        stored_in_browser: false,
        layers,
        path: Some("/mine/pit.incline".to_owned()),
    }
}

fn layer(id: u64, name: &str, is_loaded: bool) -> UiLayerEntry {
    UiLayerEntry { id: LayerId(id), name: name.to_owned(), is_loaded, dirty: false }
}

#[test]
fn drape_counts_designs_then_topologies() {
    let mut e = editor();
    e.drawing.tools.active_tool = ActiveTool::DrapeToTopology;
    e.selection.selected_handles.insert(SceneEntityId::Object(ObjectId(1)));
    e.selection.selected_handles.insert(SceneEntityId::Object(ObjectId(2)));
    e.selection.selected_handles.insert(SceneEntityId::Triangulation(TriangulationId(3)));
    assert_eq!(e.drape_selected_count(), 2);
    assert_eq!(e.drape_note(), key1("ui-selected-count", named("count", Arg::Count(2))));
    e.geometry.drape.phase = DrapePhase::Topologies;
    assert_eq!(e.drape_selected_count(), 1);
    let mut commands = Vec::new();
    e.confirm_drape(false, &mut commands);
    assert!(commands.is_empty());
    e.confirm_drape(true, &mut commands);
    assert_eq!(commands, vec![UiCommand::ConfirmDrapeSelection]);
    e.selection.selected_handles.clear();
    e.confirm_drape(true, &mut commands);
    assert_eq!(commands.len(), 1);
}

fn slope() -> OffsetSlope {
    OffsetSlope { tangent: d(1.5), width_rise: d(4.0), height_run: d(5.0) }
}

fn picked(command: &UiCommand) -> (Vec<ObjectId>, u64, u64, Option<(u64, u64)>, bool) {
    match command {
        UiCommand::BeginOffsetPick { object_ids, horiz_dist, z_delta, project_to_rl, collide_with_triangulation } => (
            object_ids.clone(),
            horiz_dist.bits,
            z_delta.bits,
            project_to_rl.map(|(tangent, level)| (tangent.bits, level.bits)),
            *collide_with_triangulation,
        ),
        other => panic!("unexpected {:?}", other),
    }
}

#[test]
fn offset_reaches_by_its_measure() {
    let mut e = editor();
    assert_eq!(e.offset_dialog(), None);
    e.geometry.offset.target_ids.push(ObjectId(4));
    assert_eq!(e.offset_dialog(), Some(OffsetDialog::Design));
    let offset = &mut e.geometry.offset;
    offset.value_input = d(7.0);
    offset.collide_with_triangulation = true;
    let ids = vec![ObjectId(4)];
    let cases = [
        (OffsetMeasure::Distance, "Horizontal distance", (7.0, 4.0, None)),
        (OffsetMeasure::Width, "Horizontal distance", (7.0, 4.0, None)),
        (OffsetMeasure::Height(HeightMode::Relative), "Height change", (5.0, 7.0, None)),
        (OffsetMeasure::Height(HeightMode::AbsoluteRL), "Target RL", (0.0, 0.0, Some((1.5, 7.0)))),
    ];
    for (measure, label, (run, rise, level)) in cases {
        offset.measure = measure;
        assert_eq!(offset.value_label(), literal(label));
        let mut commands = Vec::new();
        offset.queue_begin_offset_pick(slope(), &mut commands);
        assert_eq!(commands.len(), 1);
        let wanted = level.map(|(tangent, elevation): (f64, f64)| (d(tangent).bits, d(elevation).bits));
        assert_eq!(picked(&commands[0]), (ids.clone(), d(run).bits, d(rise).bits, wanted, true));
    }
}

#[test]
fn offset_by_height_on_a_flat_slope_moves_sideways() {
    let mut e = editor();
    e.geometry.offset.measure = OffsetMeasure::Height(HeightMode::Relative);
    e.geometry.offset.value_input = d(2.0);
    let mut flat = slope();
    flat.tangent = d(-1e-10);
    let mut commands = Vec::new();
    e.geometry.offset.queue_begin_offset_pick(flat, &mut commands);
    let (_, run, rise, level, _) = picked(&commands[0]);
    assert_eq!((run, rise, level), (d(2.0).bits, d(0.0).bits, None));
}

#[test]
fn offset_side_is_picked_once_there_is_somewhere_to_go() {
    let mut e = editor();
    e.geometry.offset.target_ids.push(ObjectId(4));
    let offset = &mut e.geometry.offset;
    assert!(!offset.can_pick_side());
    offset.value_input = d(1e-9);
    assert!(!offset.can_pick_side());
    offset.value_input = d(-0.5);
    assert!(offset.can_pick_side());
    offset.value_input = d(0.0);
    offset.measure = OffsetMeasure::Height(HeightMode::AbsoluteRL);
    assert!(offset.can_pick_side());
    assert!(offset.can_pick(OffsetDialog::Design));
    assert!(!offset.can_pick(OffsetDialog::PlanningCut));
    assert_eq!(OffsetDialog::Design.title(), literal("Offset Element"));
    assert_eq!(OffsetDialog::PlanningCut.title(), literal("Offset Cut"));
    let mut commands = Vec::new();
    offset.finish_offset(OffsetDialog::PlanningCut, slope(), true, false, false, &mut commands);
    assert!(commands.is_empty());
    offset.value_input = d(6.0);
    offset.finish_offset(OffsetDialog::PlanningCut, slope(), false, true, true, &mut commands);
    assert_eq!(commands.len(), 2);
    let (_, run, rise, level, _) = picked(&commands[0]);
    assert_eq!((run, rise, level), (d(6.0).bits, d(0.0).bits, None));
    assert_eq!(commands[1], UiCommand::CancelOffset);
}

#[test]
fn offset_angle_is_held_and_height_keeps_its_mode() {
    let mut e = editor();
    e.geometry.offset.angle_degrees = d(95.0);
    e.geometry.offset.settle_angle();
    assert_eq!(e.geometry.offset.angle_degrees, d(90.0));
    e.geometry.offset.measure_height();
    assert_eq!(e.geometry.offset.measure, OffsetMeasure::Height(HeightMode::Relative));
    e.geometry.offset.measure = OffsetMeasure::Height(HeightMode::AbsoluteRL);
    e.geometry.offset.measure_height();
    assert_eq!(e.geometry.offset.measure, OffsetMeasure::Height(HeightMode::AbsoluteRL));
    assert_eq!(e.geometry.offset.value_range().low, d(-f64::MAX));
    e.geometry.offset.measure = OffsetMeasure::Width;
    assert_eq!(e.geometry.offset.value_range().low, d(0.0));
    e.workspace.active = Workspace::Planning;
    e.planning.pages.solids_step = SolidsStep::DigStrips;
    e.geometry.offset.target_ids.push(ObjectId(1));
    assert_eq!(e.offset_dialog(), Some(OffsetDialog::PlanningCut));
}

fn untouched() -> BatterBermEdit {
    BatterBermEdit { benches: None, mode: None, up: None, apply: false, cancel: false }
}

#[test]
fn benches_follow_the_deepest_level() {
    let mut e = editor();
    let berm = &mut e.geometry.batter_berm;
    let mut commands = Vec::new();
    berm.benches = 9;
    berm.edit(untouched(), &mut commands);
    assert_eq!(berm.benches, 9);
    berm.target_id = Some(ObjectId(1));
    berm.edit(untouched(), &mut commands);
    assert_eq!(berm.benches, 0);
    assert_eq!((berm.bench_range().low, berm.bench_range().high), (0, 0));
    berm.max_benches = 4;
    berm.edit(untouched(), &mut commands);
    assert_eq!(berm.benches, 1);
    assert_eq!((berm.bench_range().low, berm.bench_range().high), (1, 4));
    let edit = BatterBermEdit { benches: Some(9), mode: Some(BatterBermMode::Stockpile), up: Some(true), apply: true, cancel: false };
    berm.edit(edit, &mut commands);
    assert_eq!(berm.benches, 4);
    assert_eq!(berm.mode, BatterBermMode::Stockpile);
    assert!(berm.direction_up);
    assert!(commands.is_empty());
    berm.rings_world.push(vec![v3(0.0, 0.0, 0.0)]);
    berm.edit(BatterBermEdit { apply: true, cancel: true, ..untouched() }, &mut commands);
    assert_eq!(commands, vec![UiCommand::CommitBatterBerm, UiCommand::CancelBatterBerm]);
}

#[test]
fn relimit_waits_for_a_line_or_takes_a_length() {
    let mut e = editor();
    let relimit = &mut e.geometry.relimit;
    relimit.dialog_open = true;
    assert_eq!(relimit.status(), RelimitStatus::Nothing);
    relimit.choose_mode(RelimitMode::AbsoluteLength);
    assert_eq!(relimit.status(), RelimitStatus::Length(literal("New length (m)")));
    assert_eq!(relimit.apply_label(), literal("Apply"));
    let mut commands = Vec::new();
    relimit.finish(true, false, &mut commands);
    assert!(relimit.dialog_open && commands.is_empty());
    relimit.source_id = Some(ObjectId(3));
    relimit.value_input = d(f64::INFINITY);
    relimit.finish(true, false, &mut commands);
    assert!(relimit.dialog_open && commands.is_empty());
    relimit.value_input = d(12.0);
    relimit.finish(true, false, &mut commands);
    assert!(!relimit.dialog_open);
    assert_eq!(commands, vec![UiCommand::RelimitLineResize { source_id: ObjectId(3), mode: RelimitMode::AbsoluteLength, value: d(12.0) }]);
    relimit.confirming_end = true;
    relimit.choose_mode(RelimitMode::RelativeLength);
    assert_eq!(relimit.status(), RelimitStatus::Length(literal("Delta length (m, use + or -)")));
    relimit.choose_mode(RelimitMode::Intersect);
    assert!(relimit.waiting_for_pick && !relimit.confirming_end);
    assert_eq!(relimit.status(), RelimitStatus::Waiting { prompt: literal("Click the line to intersect with…"), end: None });
    relimit.waiting_for_pick = false;
    relimit.confirming_end = true;
    relimit.hover_end = TrimEnd::Start;
    let prompt = literal("Hover to choose which end to move, then click to confirm.");
    assert_eq!(relimit.status(), RelimitStatus::Waiting { prompt, end: Some(literal("Moving: Start endpoint")) });
    relimit.dialog_open = true;
    relimit.finish(true, true, &mut commands);
    assert!(!relimit.dialog_open && relimit.waiting_for_pick);
    assert_eq!(commands.last(), Some(&UiCommand::CancelRelimit));
}

#[test]
fn move_panel_previews_applies_and_puts_the_tool_down() {
    let mut e = editor();
    e.drawing.tools.active_tool = ActiveTool::MoveCollar;
    assert_eq!(e.move_panel_title(), literal("Move Collar"));
    e.drawing.tools.active_tool = ActiveTool::Move;
    assert_eq!(e.move_panel_title(), literal("Move Design"));
    e.geometry.translate.panel_delta = v3(1.0, 2.0, 3.0);
    let mut commands = Vec::new();
    e.finish_move(true, false, false, &mut commands);
    assert_eq!(commands, vec![UiCommand::PreviewMoveDelta(v3(1.0, 2.0, 3.0))]);
    assert_eq!(e.drawing.tools.active_tool, ActiveTool::Move);
    e.finish_move(false, true, false, &mut commands);
    assert_eq!(commands[1], UiCommand::ApplyMoveDelta(v3(1.0, 2.0, 3.0)));
    assert_eq!(e.drawing.tools.active_tool, ActiveTool::NoTool);
}

#[test]
fn rotate_panel_sets_both_angles() {
    let mut e = editor();
    e.drawing.tools.active_tool = ActiveTool::RotateCollar;
    e.geometry.rotate.panel_azimuth = d(30.0);
    assert!(e.geometry.rotate.mixed_note().is_none());
    e.geometry.rotate.panel_mixed = true;
    let mixed = literal("Selected holes point different ways. Apply sets them all to these angles.");
    assert_eq!(e.geometry.rotate.mixed_note(), Some(mixed));
    let mut commands = Vec::new();
    e.finish_rotation(true, false, true, &mut commands);
    let rotation = CollarRotation::Absolute { azimuth: d(30.0), dip: d(-90.0) };
    assert_eq!(commands, vec![UiCommand::PreviewCollarRotation(rotation), UiCommand::CancelCollarRotation]);
    assert_eq!(e.drawing.tools.active_tool, ActiveTool::NoTool);
}

#[test]
fn chamfer_needs_a_corner_and_a_radius_that_shows() {
    let mut e = editor();
    let chamfer = &mut e.geometry.chamfer;
    assert!(!chamfer.corner_picked());
    assert_eq!(chamfer.corner_prompt(), Some(literal("Click a corner on a closed polyline.")));
    assert!(!chamfer.can_apply(d(100.0)));
    chamfer.poly_id = Some(ObjectId(1));
    chamfer.corner_index = Some(2);
    assert!(chamfer.corner_picked());
    assert!(chamfer.corner_prompt().is_none());
    assert!(chamfer.can_apply(d(1.0)));
    assert!(!chamfer.can_apply(d(0.0)));
    assert_eq!(chamfer.radius_limit(), d(f64::MAX));
    chamfer.max_radius = d(4.0);
    chamfer.set_radius(d(9.0));
    assert_eq!(chamfer.radius, d(4.0));
    chamfer.set_radius(d(-1.0));
    assert_eq!(chamfer.radius, d(0.0));
    chamfer.max_radius = d(f64::INFINITY);
    assert_eq!(chamfer.radius_limit(), d(f64::MAX));
    let mut commands = Vec::new();
    chamfer.finish(d(0.0), true, true, &mut commands);
    assert_eq!(commands, vec![UiCommand::CancelChamfer]);
    chamfer.finish(d(5.0), true, false, &mut commands);
    assert_eq!(commands[1], UiCommand::ApplyChamfer);
}

#[test]
fn bezier_path_choice_swaps_the_span_and_back() {
    let mut e = editor();
    let bezier = &mut e.geometry.bezier;
    assert_eq!(bezier.span_prompt(), Some(literal("Click an open or closed polyline to begin.")));
    bezier.poly_id = Some(ObjectId(1));
    assert_eq!(bezier.span_prompt(), Some(literal("Click a vertex to start the replacement span.")));
    bezier.selected_verts.first = Some(2);
    assert_eq!(bezier.span_prompt(), Some(literal("Click the second vertex of the replacement span.")));
    bezier.selected_verts.second = Some(5);
    assert!(bezier.both_selected());
    assert_eq!(bezier.span_prompt(), None);
    bezier.cp1 = v3(1.0, 0.0, 0.0);
    bezier.cp2 = v3(2.0, 0.0, 0.0);
    bezier.poly_closed = true;
    bezier.choose_path(true);
    assert!(bezier.replace_longer);
    assert_eq!((bezier.selected_verts.first, bezier.selected_verts.second), (Some(5), Some(2)));
    assert_eq!(bezier.cp1, v3(2.0, 0.0, 0.0));
    bezier.choose_path(true);
    assert_eq!(bezier.selected_verts.first, Some(5));
    bezier.choose_path(false);
    assert_eq!((bezier.selected_verts.first, bezier.selected_verts.second), (Some(2), Some(5)));
    assert_eq!(bezier.cp2, v3(2.0, 0.0, 0.0));
    let mut commands = Vec::new();
    bezier.finish(false, true, true, &mut commands);
    assert_eq!(commands, vec![UiCommand::ApplyBezier, UiCommand::CancelBezier]);
}

#[test]
fn text_edit_commits_or_cancels_and_counts_its_frames_down() {
    let mut e = editor();
    let text = &mut e.drawing.text;
    text.editing_id = Some(ObjectId(8));
    text.editing_enabled = true;
    text.pending = "RL 40".to_owned();
    text.created = true;
    text.focus_requested = true;
    text.position_frames = 1;
    assert_eq!(text.cancel_label(), literal("Discard"));
    assert!(text.take_focus());
    assert!(!text.take_focus());
    let mut commands = Vec::new();
    text.finish(true, true, &mut commands);
    let commit = UiCommand::CommitTextEdit {
        id: ObjectId(8),
        content: "RL 40".to_owned(),
        height: d(15.0),
        rotation_degrees: d(0.0),
        color: rgba(1.0, 1.0, 1.0, 1.0),
    };
    assert_eq!(commands, vec![commit]);
    assert!(!text.editing_enabled);
    assert_eq!(text.position_frames, 0);
    text.created = false;
    assert_eq!(text.cancel_label(), literal("Cancel"));
    text.finish(false, true, &mut commands);
    assert_eq!(commands[1], UiCommand::CancelTextEdit);
    assert_eq!(text.position_frames, 0);
}

#[test]
fn held_enter_does_not_finish_a_polyline() {
    let mut e = editor();
    let stroke = &mut e.drawing.stroke;
    stroke.poly_finish_dialog = true;
    let mut commands = Vec::new();
    stroke.finish(false, false, true, &mut commands);
    assert!(stroke.poly_finish_dialog && commands.is_empty());
    stroke.poly_finish_confirm_armed = true;
    stroke.finish(false, false, true, &mut commands);
    assert!(!stroke.poly_finish_dialog);
    assert_eq!(commands, vec![UiCommand::CommitStrokeOpen]);
    stroke.poly_finish_dialog = true;
    stroke.finish(false, true, false, &mut commands);
    assert_eq!(commands[1], UiCommand::FinishPolyClose);
    finish_slice(false, &mut commands);
    finish_slice(true, &mut commands);
    assert_eq!(commands[2..], [UiCommand::SetSliceModeEnabled(false)]);
}

fn polyline(count: usize) -> Object {
    let vertex = Vertex { pos: v3(0.0, 0.0, 0.0), bulge: d(0.0) };
    Object::Polyline { verts: vec![vertex; count], closed: false, fill: FillStyle::Clear, line_weight: f(1.0), color: ObjectColor::ByLayer }
}

fn document(objects: Vec<(ObjectId, Object)>) -> Document {
    Document { objects, reserve_fields: Vec::new(), solids: Vec::new() }
}

#[test]
fn context_menu_is_titled_after_what_is_selected() {
    let point = Object::Point { pos: v3(0.0, 0.0, 0.0), color: ObjectColor::ByLayer };
    assert_eq!(object_kind_label(&point), literal("Point"));
    assert_eq!(object_kind_label(&polyline(2)), literal("Line"));
    assert_eq!(object_kind_label(&polyline(3)), literal("Polyline"));
    let doc = document(vec![(ObjectId(1), polyline(2)), (ObjectId(2), polyline(2)), (ObjectId(3), point)]);
    let mut e = editor();
    let shown = |e: &EditorState| {
        let text = canvas_context_menu_title(e, &doc);
        match (text.source, text.args) {
            (Source::Literal(words), Args::Zero) => words.to_owned(),
            (Source::Literal("%kind% %properties%"), Args::Two(kind, _)) => match kind.value {
                Arg::Words(words) => format!("{} Properties", words),
                other => panic!("unexpected {:?}", other),
            },
            other => panic!("unexpected {:?}", other),
        }
    };
    assert_eq!(shown(&e), "Properties");
    e.selection.selected_handles.insert(SceneEntityId::Object(ObjectId(1)));
    e.selection.selected_handles.insert(SceneEntityId::Object(ObjectId(2)));
    assert_eq!(shown(&e), "Line Properties");
    e.selection.selected_handles.insert(SceneEntityId::Object(ObjectId(3)));
    assert_eq!(shown(&e), "Object Properties");
    e.selection.selected_handles.insert(SceneEntityId::Object(ObjectId(99)));
    assert_eq!(shown(&e), "Object Properties");
    e.selection.selected_handles.insert(SceneEntityId::Triangulation(TriangulationId(1)));
    assert_eq!(shown(&e), "Properties");
    e.selection.selected_handles.clear();
    e.selection.selected_handles.insert(SceneEntityId::DrillHole(DrillHoleId(1)));
    assert_eq!(shown(&e), "Drill Hole Properties");
}

#[test]
fn context_menu_rows_do_their_work_and_close() {
    let mut e = editor();
    e.selection.selected_handles.insert(SceneEntityId::DrillHole(DrillHoleId(6)));
    assert_eq!(e.selected_dataset(), Some(DrillHoleId(6)));
    let mut commands = Vec::new();
    assert!(e.click_context_menu(ContextMenuClick::ColourBy, Some(DrillHoleId(6)), &mut commands).is_none());
    assert_eq!(commands, vec![UiCommand::OpenDrillHoleColorDialog(DrillHoleId(6)), UiCommand::CloseCanvasContextMenu]);
    commands.clear();
    e.click_context_menu(ContextMenuClick::HideSelection, None, &mut commands);
    assert_eq!(commands, vec![UiCommand::HideSelection, UiCommand::CloseCanvasContextMenu]);
    commands.clear();
    let (dirty, report, line) = e.click_context_menu(ContextMenuClick::LockSelection, None, &mut commands).unwrap();
    assert!(dirty);
    assert_eq!(report.title, literal("Lock Selection"));
    assert_eq!(line, literal1("Locked %count% object(s)", named("count", Arg::Count(1))));
    assert_eq!(commands, vec![UiCommand::CloseCanvasContextMenu]);
    assert!(e.selection.selected_handles.is_empty());
    assert!(e.selection.frozen_handles.contains(SceneEntityId::DrillHole(DrillHoleId(6))));
    commands.clear();
    assert!(e.click_context_menu(ContextMenuClick::LockSelection, None, &mut commands).is_none());
    assert!(commands.is_empty());
    e.click_context_menu(ContextMenuClick::Close, None, &mut commands);
    assert_eq!(commands, vec![UiCommand::CloseCanvasContextMenu]);
}

const NO_BUTTON: DialogButtons = DialogButtons { apply: false, confirm_key: false, cancel: false, closed: false };

#[test]
fn move_to_layer_settles_on_a_layer_of_the_project() {
    let mut e = editor();
    let canvas = &mut e.drawing.canvas;
    let mut view = project_view();
    canvas.move_to_layer = Some(MoveToLayerDialog { object_ids: vec![ObjectId(1)], target_layer: Some(LayerId(9)), copy: true });
    assert!(canvas.settle_move_to_layer(&view).is_none());
    assert!(canvas.move_to_layer.is_none());
    view.projects.push(project_entry(vec![layer(3, "Crests", true), layer(4, "Toes", true)]));
    canvas.move_to_layer = Some(MoveToLayerDialog { object_ids: vec![ObjectId(1)], target_layer: Some(LayerId(9)), copy: true });
    let shown = canvas.settle_move_to_layer(&view).unwrap();
    assert_eq!(canvas.move_to_layer.as_ref().unwrap().count_note(), key1("ui-selected-objects", named("count", Arg::Count(1))));
    assert_eq!(shown.layer_label, incline_ui::text::verbatim("Crests".to_owned()));
    assert_eq!(shown.action_label, literal("Copy"));
    assert!(shown.can_apply);
    assert_eq!(shown.objects, 1);
    let mut commands = Vec::new();
    canvas.finish_move_to_layer(true, DialogButtons { confirm_key: true, ..NO_BUTTON }, &mut commands);
    assert_eq!(commands, vec![UiCommand::MoveObjectsToLayer { object_ids: vec![ObjectId(1)], target_layer: LayerId(3), copy: true }]);
    assert!(canvas.move_to_layer.is_none());
    view.projects[0].layers.clear();
    canvas.move_to_layer = Some(MoveToLayerDialog { object_ids: vec![ObjectId(1)], target_layer: None, copy: false });
    let bare = canvas.settle_move_to_layer(&view).unwrap();
    assert_eq!(bare.layer_label, literal("Choose a layer"));
    assert_eq!(bare.action_label, literal("Move"));
    assert!(!bare.can_apply);
    canvas.finish_move_to_layer(false, DialogButtons { confirm_key: true, ..NO_BUTTON }, &mut commands);
    assert!(canvas.move_to_layer.is_some());
    canvas.finish_move_to_layer(false, DialogButtons { cancel: true, ..NO_BUTTON }, &mut commands);
    assert!(canvas.move_to_layer.is_none());
    assert_eq!(commands.len(), 1);
}

#[test]
fn setting_an_elevation_moves_the_working_level() {
    let mut e = editor();
    let dialog = MoveToAxisDialog { object_ids: vec![ObjectId(1)], axis: Axis::Z, value: d(40.0) };
    assert!(dialog.can_apply());
    assert_eq!(dialog.title(), literal1("Set %axis%", named("axis", Arg::AxisName(Axis::Z))));
    assert!(dialog.warning().is_none());
    assert_eq!(dialog.value_label(), literal1("%axis% value", named("axis", Arg::AxisName(Axis::Z))));
    assert_eq!(dialog.count_note(), key1("ui-selected-objects", named("count", Arg::Count(1))));
    let broken = MoveToAxisDialog { object_ids: vec![ObjectId(1)], axis: Axis::X, value: d(f64::NAN) };
    assert!(!broken.can_apply());
    assert_eq!(broken.warning(), Some(key1("ui-invalid-axis-value", named("axis", Arg::AxisName(Axis::X)))));
    e.drawing.canvas.move_to_axis = Some(dialog);
    let mut commands = Vec::new();
    e.drawing.finish_move_to_axis(true, DialogButtons { apply: true, ..NO_BUTTON }, &mut commands);
    assert_eq!(commands, vec![UiCommand::BatchSetAxisValue(vec![ObjectId(1)], Axis::Z, d(40.0))]);
    assert_eq!(e.drawing.cursor.z_level, d(40.0));
    assert_eq!(e.drawing.cursor.z_input, d(40.0));
    assert!(e.drawing.canvas.move_to_axis.is_none());
    e.drawing.canvas.move_to_axis = Some(MoveToAxisDialog { object_ids: vec![ObjectId(1)], axis: Axis::X, value: d(3.0) });
    e.drawing.finish_move_to_axis(true, DialogButtons { confirm_key: true, ..NO_BUTTON }, &mut commands);
    assert_eq!(e.drawing.cursor.z_level, d(40.0));
}

#[test]
fn inserting_a_point_seeds_the_elevation_field() {
    let mut e = editor();
    let dialog = InsertPointAtElevationDialog { object_ids: vec![ObjectId(2)], elevation: d(12.0), min_elevation: d(10.0), max_elevation: d(20.0) };
    assert!(dialog.can_apply());
    let spans = key2("ui-selection-spans", named("min", Arg::Fixed { value: d(10.0), decimals: 2 }), named("max", Arg::Fixed { value: d(20.0), decimals: 2 }));
    assert_eq!(dialog.span_note(), Some(spans));
    assert_eq!(dialog.count_note(), key1("ui-selected-polylines", named("count", Arg::Count(1))));
    let open = InsertPointAtElevationDialog { object_ids: Vec::new(), elevation: d(f64::NAN), min_elevation: d(f64::MIN), max_elevation: d(f64::MAX) };
    assert!(open.span_note().is_none());
    assert_eq!(open.warning(), Some(literal("Enter a valid elevation.")));
    assert!(!open.can_apply());
    e.drawing.canvas.insert_point_at_elevation = Some(dialog);
    let mut commands = Vec::new();
    e.drawing.finish_insert_point(true, DialogButtons { apply: true, ..NO_BUTTON }, &mut commands);
    assert_eq!(commands, vec![UiCommand::InsertPointsAtElevation { object_ids: vec![ObjectId(2)], elevation: d(12.0) }]);
    assert_eq!(e.drawing.cursor.z_input, d(12.0));
    assert_eq!(e.drawing.cursor.z_level, d(0.0));
}

fn remembered(name: &str) -> UiTrackedProjectEntry {
    UiTrackedProjectEntry {
        name: name.to_owned(),
        is_active: false,
        dirty: false,
        source: TrackedProject::Path(format!("/mine/{}", name)),
        stored_in_browser: false,
    }
}

#[test]
fn splash_is_dismissed_or_opens_a_project() {
    let a = remembered("a");
    let b = remembered("b");
    let recent = vec![&a, &b];
    let mut commands = Vec::new();
    take_splash(true, false, None, &recent, &mut commands);
    take_splash(false, true, None, &recent, &mut commands);
    take_splash(false, false, Some(SplashClick::NewProject), &recent, &mut commands);
    assert_eq!(commands, vec![UiCommand::CloseStartupDialog, UiCommand::CloseStartupDialog, UiCommand::CloseStartupDialog]);
    commands.clear();
    take_splash(false, false, Some(SplashClick::LoadProject), &recent, &mut commands);
    take_splash(false, false, Some(SplashClick::ExitApplication), &recent, &mut commands);
    take_splash(false, false, Some(SplashClick::Website), &recent, &mut commands);
    take_splash(false, false, Some(SplashClick::Recent(1)), &recent, &mut commands);
    take_splash(false, false, Some(SplashClick::RemoveRecent(0)), &recent, &mut commands);
    let wanted = vec![
        UiCommand::OpenProject,
        UiCommand::RequestExit,
        UiCommand::ActivateTrackedProject(TrackedProject::Path("/mine/b".to_owned())),
        UiCommand::RemoveTrackedProject(TrackedProject::Path("/mine/a".to_owned())),
    ];
    assert_eq!(commands, wanted);
}

#[test]
fn remembered_projects_say_where_they_are() {
    let mut entry = remembered("a");
    assert_eq!(entry.row_label(), incline_ui::text::verbatim("a".to_owned()));
    entry.dirty = true;
    assert_eq!(entry.row_label(), incline_ui::text::plain1("%name% *", named("name", Arg::Name("a".to_owned()))));
    let stored = UiTrackedProjectEntry { source: TrackedProject::Stored(ProjectId(3)), stored_in_browser: true, ..remembered("b") };
    match stored.hover_text().args {
        Args::Two(name, place) => {
            assert_eq!(name.value, Arg::Name("b".to_owned()));
            assert_eq!(place.value, Arg::Words("Saved in browser storage"));
        },
        other => panic!("unexpected {:?}", other),
    }
}

fn typed(text: &str) -> NameEdit {
    NameEdit { text: Some(text.to_owned()), submit: true, cancel: false, closed: false }
}

#[test]
fn names_are_trimmed_once_they_are_written() {
    assert!(is_blank(" \t"));
    assert!(!is_blank(" a "));
    let mut e = editor();
    let dialogs = &mut e.project.dialogs;
    let mut commands = Vec::new();
    dialogs.new_project_open = true;
    dialogs.edit_new_project(typed("   "), &mut commands);
    assert!(dialogs.new_project_open && commands.is_empty());
    dialogs.edit_new_project(typed("  North pit "), &mut commands);
    assert!(dialogs.new_project_open && commands.is_empty());
    dialogs.edit_new_project(NameEdit { text: None, submit: true, cancel: false, closed: false }, &mut commands);
    assert!(!dialogs.new_project_open);
    assert_eq!(commands, vec![UiCommand::CreateBrowserProject { name: "North pit".to_owned() }]);
    commands.clear();
    dialogs.new_layer_open = true;
    dialogs.edit_new_layer(true, typed(" Crest\t"), &mut commands);
    assert!(!dialogs.new_layer_open);
    assert_eq!(commands, vec![UiCommand::CreateLayer { name: "Crest".to_owned() }]);
    commands.clear();
    dialogs.new_layer_open = true;
    dialogs.edit_new_layer(true, typed("  "), &mut commands);
    assert!(dialogs.new_layer_open && commands.is_empty());
    dialogs.new_project_open = true;
    dialogs.edit_new_project(typed(""), &mut commands);
    assert!(dialogs.new_project_open && commands.is_empty());
    assert_eq!(dialogs.new_project_name, "");
    dialogs.edit_new_layer(false, typed("Crest"), &mut commands);
    assert!(!dialogs.new_layer_open && commands.is_empty());
    dialogs.new_layer_open = true;
    dialogs.edit_new_layer(true, NameEdit { text: None, submit: false, cancel: true, closed: false }, &mut commands);
    assert!(!dialogs.new_layer_open && commands.is_empty());
}

#[test]
fn rename_keeps_its_dialog_until_the_name_has_landed() {
    let mut e = editor();
    let dialogs = &mut e.project.dialogs;
    let target = RenameTarget::Layer(LayerId(3));
    assert_eq!(ProjectDialogs::rename_title(target), key1("dialog-rename-title", named("kind", Arg::Words("Layer"))));
    dialogs.renaming_item = Some((target, "old".to_owned()));
    let mut commands = Vec::new();
    dialogs.edit_rename(typed(" new "), &mut commands);
    assert_eq!(commands, vec![UiCommand::RenameItem { target, new_name: "new".to_owned() }]);
    assert_eq!(dialogs.renaming_item, Some((target, " new ".to_owned())));
    dialogs.edit_rename(typed("  "), &mut commands);
    assert_eq!(commands.len(), 1);
    assert_eq!(dialogs.renaming_item, Some((target, "  ".to_owned())));
    dialogs.edit_rename(NameEdit { text: None, submit: false, cancel: false, closed: true }, &mut commands);
    assert!(dialogs.renaming_item.is_none());
}

#[test]
fn exaggeration_is_applied_reset_or_left() {
    let mut e = editor();
    let display = &mut e.view.display;
    display.vertical_exaggeration_dialog_open = true;
    display.vertical_exaggeration_input = d(2.5);
    display.finish_exaggeration(true, false, false);
    assert_eq!(display.vertical_exaggeration, d(2.5));
    display.vertical_exaggeration_dialog_open = true;
    display.vertical_exaggeration_input = d(4.0);
    display.finish_exaggeration(false, false, true);
    assert_eq!(display.vertical_exaggeration, d(2.5));
    assert!(!display.vertical_exaggeration_dialog_open);
    display.vertical_exaggeration_dialog_open = true;
    display.finish_exaggeration(false, true, false);
    assert_eq!(display.vertical_exaggeration, d(1.0));
}

#[test]
fn grid_options_belong_to_the_view_they_were_opened_in() {
    let mut e = editor();
    e.view.open_grid_options();
    assert!(e.view.grid.dialog.unwrap().plan);
    assert!(e.view.settle_grid_dialog());
    e.view.slice.mode_enabled = true;
    assert!(!e.view.settle_grid_dialog());
    assert!(e.view.grid.dialog.is_none());
    e.view.open_grid_options();
    let dialog = e.view.grid.dialog.as_mut().unwrap();
    assert!(!dialog.plan);
    assert_eq!(dialog.spacing, d(10.0));
    dialog.auto_spacing = false;
    dialog.spacing = d(5.0);
    dialog.thickness = d(2.0);
    e.view.finish_grid_dialog(false, true, false);
    assert_eq!(e.view.grid.section_grid_style, SectionGridStyle { color: None, thickness: d(2.0), level_spacing: Some(d(5.0)) });
    assert!(e.view.grid.dialog.is_some());
    e.view.grid.dialog.as_mut().unwrap().thickness = d(3.0);
    e.view.finish_grid_dialog(false, false, true);
    assert_eq!(e.view.grid.section_grid_style.thickness, d(2.0));
    assert!(e.view.grid.dialog.is_none());
    let plan = GridOptionsDialog::open_plan(e.view.grid.xy_grid_style);
    assert_eq!(plan.thickness_range().low, d(1.0));
    assert_eq!(GridOptionsDialog::open_section(SectionGridStyle::default(), d(1.0)).thickness_range().low, d(0.5));
}
