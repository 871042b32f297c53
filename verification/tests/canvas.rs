//! Picking, keys, tools, views and what the console says of a command.
use incline_ui::command::{TrackedProject, UiCommand};
use incline_ui::editor::{EditorState, SeedNames, Startup};
use incline_ui::ids::{BlastShapeRef, BlockModelId, DelayProductId, DrillHoleId, DrillHoleRef, LanguageChoice, LayerId, ObjectId, PointCloudId, RasterTextureId, RenameTarget, ReserveFieldId, SceneEntityId, SolidId, TieInRef, TriangulationId};
use incline_ui::model::{Axis, CollarRotation, FillStyle, SolidKind, SolidRegion};
use incline_ui::number::{Pair64, Pixel, Real32, Real64, Rgba, Vec3};
use incline_ui::palette::PackedColor;
use incline_ui::preferences::{InterfacePreferences, PerformancePreferences, ShippedPreferences};
use incline_ui::state::drawing::MoveToLayerDialog;
use incline_ui::text::{Arg, key, literal, literal1, literal2, named, only, plain2};
use incline_ui::tools::{ActiveTool, BatterBermMode, CursorMode, EditorAction, ExplorerSection, SelectionMode, StandardView, ToolHatch, TriPolylineClipMode, TriSurfaceCutSide, TriangulationPickTarget, ViewToggle, describe_collar_rotation, fill_style_label};
use incline_ui::views::{CircleDraft, MoveGizmoScreen, RotateGizmoScreen, SlicePreviewNavigation, SolidPreviewView, ViewportRect};
use incline_ui::workspace::{PlanningPage, PlanningSubpage, SolidsStep, Workspace};
use std::collections::hash_map::DefaultHasher;
use std::hash::Hasher;

fn d(value: f64) -> Real64 {
    Real64 { bits: value.to_bits() }
}

fn f(value: f32) -> Real32 {
    Real32 { bits: value.to_bits() }
}

fn rgba(r: f32, g: f32, b: f32, a: f32) -> Rgba {
    Rgba { r: f(r), g: f(g), b: f(b), a: f(a) }
}

fn startup() -> Startup {
    Startup {
        preferences: ShippedPreferences {
            language: LanguageChoice(0),
            interface: InterfacePreferences {
                renderer_background_color: rgba(0.1, 0.2, 0.3, 1.0),
                dark_mode: true,
                show_console: true,
                panel_chrome: true,
                show_world_axis_gizmo: true,
                show_scale_bar: true,
            },
            performance: PerformancePreferences {
                snap_poll_rate: 60,
                vsync_enabled: true,
                frame_rate_cap: 120,
                resize_frame_rate_cap: 30,
                block_model_interaction_resolution_divisor: 2,
                show_block_model_boundary_highlights: true,
                downscale_raster_previews: true,
            },
            plan_orbit_sensitivity: d(1.0),
            plan_zoom_sensitivity: d(1.0),
            plan_zoom_towards_cursor: true,
            fly_field_of_view_degrees: d(70.0),
            fly_mouse_look_sensitivity: d(1.0),
            fly_near_clip_limit: d(0.1),
            fly_max_clip_span: d(10000.0),
        },
        products: Vec::new(),
        first_color_stop: 100,
        names: SeedNames {
            drill_pattern: "Drill Pattern".to_owned(),
            layer: "Design".to_owned(),
            contours: "Surface Contours".to_owned(),
            surface: "Surface".to_owned(),
            block_model: "Kriged Block Model".to_owned(),
        },
    }
}

fn editor() -> EditorState {
    EditorState::new(startup())
}

fn v3(x: f64, y: f64, z: f64) -> Vec3 {
    Vec3 { x: d(x), y: d(y), z: d(z) }
}

fn px(x: f32, y: f32) -> Pixel {
    Pixel { x: f(x), y: f(y) }
}

fn pair(x: f64, y: f64) -> Pair64 {
    Pair64 { x: d(x), y: d(y) }
}

const A: SceneEntityId = SceneEntityId::Object(ObjectId(1));
const B: SceneEntityId = SceneEntityId::Triangulation(TriangulationId(1));

fn hole(dataset: u64, hole: usize) -> DrillHoleRef {
    DrillHoleRef { dataset: DrillHoleId(dataset), hole }
}

#[test]
fn picks_replace_add_and_toggle() {
    let mut e = editor();
    e.selection.selected_drill_holes.insert(hole(1, 0));
    e.selection.selected_tie_ins.insert(TieInRef::new(DrillHoleId(1), 0, 1));
    e.on_canvas_pick(A, v3(1.0, 2.0, 3.0), SelectionMode::Replace);
    assert_eq!(e.drawing.cursor.world, Some(v3(1.0, 2.0, 3.0)));
    assert_eq!(e.selection.selected_handles.len(), 1);
    assert!(e.selection.selected_drill_holes.is_empty() && e.selection.selected_tie_ins.is_empty());
    e.on_canvas_pick(B, v3(0.0, 0.0, 0.0), SelectionMode::Add);
    e.on_canvas_pick(B, v3(0.0, 0.0, 0.0), SelectionMode::Add);
    assert_eq!(e.selection.selected_handles.len(), 2);
    e.on_canvas_pick(A, v3(0.0, 0.0, 0.0), SelectionMode::Toggle);
    assert!(!e.selection.selected_handles.contains(A));
    e.on_canvas_pick(A, v3(0.0, 0.0, 0.0), SelectionMode::Toggle);
    assert!(e.selection.selected_handles.contains(A));
    e.on_canvas_click(v3(9.0, 9.0, 9.0));
    assert!(e.selection.selected_handles.is_empty());
}

#[test]
fn slice_view_keeps_the_cursor_where_it_is() {
    let mut e = editor();
    e.view.slice.mode_enabled = true;
    e.on_canvas_pick(A, v3(1.0, 2.0, 3.0), SelectionMode::Replace);
    assert!(e.drawing.cursor.world.is_none());
    e.on_drill_hole_pick(hole(1, 2), v3(1.0, 2.0, 3.0), SelectionMode::Add);
    assert!(e.drawing.cursor.world.is_none());
    assert!(e.selection.selected_drill_holes.contains(hole(1, 2)));
}

#[test]
fn holes_are_picked_one_at_a_time() {
    let mut e = editor();
    e.selection.selected_handles.insert(A);
    e.on_drill_hole_pick(hole(1, 2), v3(1.0, 0.0, 0.0), SelectionMode::Replace);
    assert!(e.selection.selected_handles.is_empty());
    assert_eq!(e.selection.selected_drill_holes.len(), 1);
    e.on_drill_hole_pick(hole(1, 2), v3(1.0, 0.0, 0.0), SelectionMode::Toggle);
    assert!(e.selection.selected_drill_holes.is_empty());
    e.on_drill_hole_pick(hole(1, 3), v3(1.0, 0.0, 0.0), SelectionMode::Toggle);
    assert!(e.selection.selected_drill_holes.contains(hole(1, 3)));
    e.clear_scene_selection();
    assert!(e.selection.selected_drill_holes.is_empty());
}

#[test]
fn locking_freezes_and_deselects_and_unlocking_undoes_it() {
    let mut e = editor();
    let dataset = SceneEntityId::DrillHole(DrillHoleId(4));
    e.selection.selected_handles.insert(dataset);
    e.selection.selected_drill_holes.insert(hole(4, 0));
    e.selection.selected_drill_holes.insert(hole(5, 0));
    e.set_entity_locked(dataset, true);
    assert!(e.selection.frozen_handles.contains(dataset));
    assert!(e.selection.explicitly_frozen.contains(dataset));
    assert!(!e.selection.selected_handles.contains(dataset));
    assert!(!e.selection.selected_drill_holes.contains(hole(4, 0)));
    assert!(e.selection.selected_drill_holes.contains(hole(5, 0)));
    e.set_entity_locked(dataset, false);
    assert!(!e.selection.frozen_handles.contains(dataset));
    assert!(!e.selection.explicitly_frozen.contains(dataset));
}

#[test]
fn freezing_the_selection_reports_its_count() {
    let mut e = editor();
    e.selection.selected_handles.insert(A);
    e.selection.selected_handles.insert(B);
    e.triangulation.create.selected_object_ids = vec![ObjectId(7), ObjectId(1), ObjectId(8)];
    let (dirty, report, line) = e.apply_action(EditorAction::FreezeSelection);
    assert!(dirty);
    assert_eq!(report.title, literal("Lock Selection"));
    assert_eq!(report.summary, literal1("%count% object(s)", named("count", Arg::Count(2))));
    assert_eq!(line, literal1("Locked %count% object(s)", named("count", Arg::Count(2))));
    assert!(e.selection.selected_handles.is_empty());
    assert!(e.selection.explicitly_frozen.contains(A) && e.selection.frozen_handles.contains(B));
    assert_eq!(e.triangulation.create.selected_object_ids, vec![ObjectId(7), ObjectId(8)]);
    let (again, _, _) = e.apply_action(EditorAction::FreezeSelection);
    assert!(!again);
}

#[test]
fn gizmos_need_something_to_act_on() {
    let mut e = editor();
    e.drawing.tools.active_tool = ActiveTool::Move;
    e.selection.selected_handles.insert(B);
    assert!(!e.move_tool_has_targets());
    e.selection.selected_handles.insert(A);
    assert!(e.move_tool_has_targets());
    e.drawing.tools.active_tool = ActiveTool::MoveCollar;
    assert!(!e.move_tool_has_targets());
    e.selection.selected_drill_holes.insert(hole(1, 0));
    assert!(e.move_tool_has_targets());
    assert!(!e.rotate_tool_has_targets());
    e.drawing.tools.active_tool = ActiveTool::RotateCollar;
    assert!(e.rotate_tool_has_targets());
    assert!(!e.move_tool_has_targets());
}

#[test]
fn style_key_follows_what_is_shown() {
    let mut e = editor();
    let mut other = editor();
    assert_eq!(e.render_style_key(), other.render_style_key());
    for id in 0..4 {
        e.selection.selected_handles.insert(SceneEntityId::Object(ObjectId(id)));
        other.selection.selected_handles.insert(SceneEntityId::Object(ObjectId(3 - id)));
    }
    assert_eq!(e.render_style_key(), other.render_style_key());
    other.selection.selected_handles.remove(SceneEntityId::Object(ObjectId(0)));
    other.selection.hidden_handles.insert(SceneEntityId::Object(ObjectId(0)));
    assert_ne!(e.render_style_key(), other.render_style_key());
    let key = e.render_style_key();
    e.drawing.tools.highlight_id = Some(ObjectId(5));
    assert_ne!(e.render_style_key(), key);
}

#[test]
fn drafts_follow_the_cursor() {
    let mut e = editor();
    assert!(!e.overlay_follows_cursor());
    e.drawing.stroke.measurement_start = Some(v3(0.0, 0.0, 0.0));
    assert!(e.overlay_follows_cursor());
    e.drawing.stroke.measurement_start = None;
    e.drawing.stroke.circle_draft = Some(CircleDraft::new(v3(0.0, 0.0, 0.0)));
    assert!(e.overlay_follows_cursor());
    assert!(!e.snapping_active());
    e.drawing.tools.cursor_mode = CursorMode::SnapToLine;
    assert!(e.snapping_active());
}

#[test]
fn view_modes_take_the_click_from_tools_that_do_not_work_there() {
    let mut e = editor();
    assert!(!e.view_mode_owns_canvas_click());
    e.view.slice.mode_enabled = true;
    assert!(!e.view_mode_owns_canvas_click());
    e.drawing.tools.active_tool = ActiveTool::MakeLine;
    assert!(!e.view_mode_owns_canvas_click());
    e.drawing.tools.active_tool = ActiveTool::Chamfer;
    assert!(e.view_mode_owns_canvas_click());
    e.drawing.tools.active_tool = ActiveTool::NoTool;
    e.view.display.fly_mode_enabled = true;
    assert!(e.view_mode_owns_canvas_click());
}

#[test]
fn dialogs_own_enter_and_escape_but_not_during_a_pick() {
    let mut e = editor();
    assert!(!e.dialog_owns_confirm_key() && !e.dialog_owns_cancel_key());
    e.drawing.stroke.poly_finish_dialog = true;
    assert!(e.dialog_owns_confirm_key() && !e.dialog_owns_cancel_key());
    e.drawing.stroke.poly_finish_dialog = false;
    e.drawing.canvas.object_edit = Some(incline_ui::object_edit::ObjectEditDialog::new(
        ObjectId(1),
        incline_ui::model::Object::Point { pos: v3(0.0, 0.0, 0.0), color: incline_ui::model::ObjectColor::ByLayer },
        "Crests".to_owned(),
        rgba(1.0, 1.0, 1.0, 1.0),
    ));
    assert!(!e.dialog_owns_confirm_key() && e.dialog_owns_cancel_key());
    e.drawing.canvas.object_edit = None;
    e.project.transfer.show_about = true;
    assert!(e.dialog_owns_confirm_key() && e.dialog_owns_cancel_key());
    e.triangulation.create.pick_target = Some(TriangulationPickTarget::ClipSurface);
    assert!(!e.dialog_owns_confirm_key() && !e.dialog_owns_cancel_key());
    e.triangulation.create.pick_target = None;
    e.drawing.text.editing_enabled = true;
    assert!(!e.dialog_owns_cancel_key());
    e.drawing.text.editing_enabled = false;
    e.project.transfer.show_about = false;
    e.drawing.canvas.move_to_layer = Some(MoveToLayerDialog { object_ids: Vec::new(), target_layer: None, copy: false });
    assert!(e.dialog_owns_confirm_key());
}

#[test]
fn tools_know_their_ways() {
    let layered = [ActiveTool::MakePoint, ActiveTool::MakeLine, ActiveTool::MakePoly, ActiveTool::MakeCircle, ActiveTool::MakeText, ActiveTool::FuseIntoPolyline];
    for tool in layered {
        assert!(tool.requires_active_layer());
    }
    assert!(!ActiveTool::OffsetElement.requires_active_layer());
    assert!(ActiveTool::Move.translates() && ActiveTool::MoveCollar.translates() && !ActiveTool::RotateCollar.translates());
    assert!(ActiveTool::RotateCollar.rotates() && !ActiveTool::Move.rotates());
    assert!(ActiveTool::MoveCollar.acts_on_collars() && ActiveTool::RotateCollar.acts_on_collars() && !ActiveTool::Move.acts_on_collars());
    assert!(ActiveTool::VerticalSlice.snaps_cursor() && ActiveTool::PickRotationCentre.snaps_cursor() && !ActiveTool::Chamfer.snaps_cursor());
    assert!(ActiveTool::MakePoly.works_in_slice_view() && !ActiveTool::MakeCircle.works_in_slice_view());
    assert!(!ActiveTool::NoTool.section_refuses() && ActiveTool::MakeCircle.section_refuses() && !ActiveTool::MeasureDistance.section_refuses());
}

#[test]
fn cursor_modes_go_round() {
    let round = [CursorMode::Select, CursorMode::SnapToSurface, CursorMode::SnapToLine, CursorMode::SnapToPoint];
    for i in 0..4 {
        assert_eq!(round[i].next(), round[(i + 1) % 4]);
        assert_eq!(round[(i + 1) % 4].previous(), round[i]);
        assert_eq!(round[i].snaps(), i != 0);
    }
}

#[test]
fn labels_are_these_words() {
    assert_eq!(TriSurfaceCutSide::CutTop.trim_label(), literal("Trim below"));
    assert_eq!(TriSurfaceCutSide::CutBottom.trim_label(), literal("Trim above"));
    assert_eq!(TriSurfaceCutSide::CutTop.retained_relation(), literal("at or below"));
    assert_eq!(TriPolylineClipMode::KeepOutside.label(), literal("Keep outside"));
    assert_eq!(TriangulationPickTarget::CutPitShell.prompt(), literal("Click the pit shell in the viewport."));
    assert_eq!(TriangulationPickTarget::IncludeTopology.prompt(), literal("Click the topology in the viewport."));
    assert_eq!(TriangulationPickTarget::SolidTopography.prompt(), literal("Click the topography in the viewport."));
    assert_eq!(TriangulationPickTarget::ContourSurface.prompt(), literal("Click the surface in the viewport."));
    assert_eq!(StandardView::West.label(), literal("West"));
    assert_eq!(ViewToggle::Console.label(), literal("Show Console"));
    assert_eq!(ExplorerSection::PointClouds.label(), literal("Point Clouds"));
    assert_eq!(ToolHatch::Slashes.to_fill_style(), FillStyle::Slashes);
    assert_eq!(fill_style_label(FillStyle::Clear), literal("Clear"));
    assert_eq!(Workspace::DrillAndBlast.label(), key("ws-drill-and-blast"));
    assert!(Workspace::Planning.implemented() && Workspace::Production.has_production_tools() && !Workspace::Geology.has_production_tools());
    assert_eq!(PlanningPage::Haulage.label(), key("planning-page-haulage"));
    assert_eq!(PlanningPage::Solids.subpages(), vec![PlanningSubpage::Setup, PlanningSubpage::View]);
    assert_eq!(PlanningPage::Haulage.subpages(), vec![PlanningSubpage::Layout]);
    assert_eq!(PlanningPage::Schedule.subpages(), vec![PlanningSubpage::Setup, PlanningSubpage::Animate]);
    assert_eq!(PlanningSubpage::View.label(), key("planning-subpage-view"));
    for index in 0..6 {
        assert_eq!(SolidsStep::at(index).unwrap().index(), index);
    }
    assert!(SolidsStep::at(6).is_none());
    assert!(BatterBermMode::Pit.steps_outward(true) && !BatterBermMode::Pit.steps_outward(false));
    assert!(BatterBermMode::Stockpile.steps_outward(false) && !BatterBermMode::Stockpile.steps_outward(true));
}

#[test]
fn solid_regions_follow_their_kinds() {
    assert_eq!(SolidRegion::of_solid(SolidKind::Pit), SolidRegion::Cut);
    assert_eq!(SolidRegion::of_solid(SolidKind::Dump), SolidRegion::Fill);
    assert_eq!(SolidRegion::of_solid(SolidKind::Stockpile), SolidRegion::Fill);
    assert_eq!(SolidRegion::Cut.label(), literal("Cut"));
    assert_eq!(SolidRegion::Cut.description(), literal("the volume above the design surface and below the topography - a pit or cut"));
    assert_eq!(SolidRegion::Fill.description(), literal("the volume below the design surface and above the topography - a dump or stockpile"));
}

#[test]
fn collar_rotations_read_out_their_angles() {
    let set = CollarRotation::Absolute { azimuth: d(30.0), dip: d(-70.0) };
    let fixed = |value: f64| Arg::Fixed { value: d(value), decimals: 1 };
    assert_eq!(describe_collar_rotation(set), literal2("to azimuth %azimuth%°, dip %dip%°", named("azimuth", fixed(30.0)), named("dip", fixed(-70.0))));
    let turn = CollarRotation::Delta { azimuth: d(5.0), dip: d(-2.0) };
    let signed = |value: f64| Arg::Signed { value: d(value), decimals: 1 };
    assert_eq!(describe_collar_rotation(turn), literal2("by azimuth %azimuth%°, dip %dip%°", named("azimuth", signed(5.0)), named("dip", signed(-2.0))));
}

#[test]
fn preview_camera_stops_short_of_the_poles() {
    let mut view = SolidPreviewView::default();
    let limit = std::f64::consts::FRAC_PI_2 * 0.98;
    view.orbit_by_pixels(d(3.0), d(9.0));
    assert_eq!((view.yaw, view.pitch), (d(3.0), d(limit)));
    view.orbit_by_pixels(d(3.0), d(-9.0));
    assert_eq!(view.pitch, d(-limit));
    view.zoom_by_scroll(d(100.0));
    assert_eq!(view.zoom_multiplier, d(40.0));
    view.zoom_by_scroll(d(0.0));
    assert_eq!(view.zoom_multiplier, d(0.1));
    view.pan_by_pixels(pair(0.5, -0.5));
    assert_eq!(view.pan, pair(0.5, -0.5));
}

#[test]
fn preview_camera_faces_the_named_directions() {
    let limit = std::f64::consts::FRAC_PI_2 * 0.98;
    let half = std::f64::consts::FRAC_PI_2;
    let cases = [
        (StandardView::North, -half, 0.0),
        (StandardView::South, half, 0.0),
        (StandardView::West, 0.0, 0.0),
        (StandardView::East, std::f64::consts::PI, 0.0),
        (StandardView::Up, 1.25, limit),
        (StandardView::Down, 1.25, -limit),
    ];
    for (direction, yaw, pitch) in cases {
        let mut view = SolidPreviewView::default();
        view.yaw = d(1.25);
        view.face(direction);
        assert_eq!((view.yaw, view.pitch), (d(yaw), d(pitch)));
    }
}

#[test]
fn preview_camera_hashes_its_words() {
    let view = SolidPreviewView::default();
    let mut given = DefaultHasher::new();
    view.hash_into(&mut given);
    let mut wanted = DefaultHasher::new();
    for word in [view.yaw.bits, view.pitch.bits, view.zoom_multiplier.bits, view.pan.x.bits, view.pan.y.bits] {
        wanted.write(&word.to_le_bytes());
    }
    assert_eq!(given.finish(), wanted.finish());
}

#[test]
fn slice_map_follows_only_sound_gestures() {
    let mut map = SlicePreviewNavigation::default();
    assert!(!map.pan_by_pixels(pair(f64::NAN, 0.0), d(1.0), d(100.0), pair(5.0, 5.0)));
    assert!(!map.pan_by_pixels(pair(1.0, 0.0), d(0.0), d(100.0), pair(5.0, 5.0)));
    assert!(!map.pan_by_pixels(pair(1.0, 0.0), d(1.0), d(-1.0), pair(5.0, 5.0)));
    assert_eq!(map.center_offset_xy(), pair(0.0, 0.0));
    assert!(map.pan_by_pixels(pair(1.0, 0.0), d(1.0), d(100.0), pair(5.0, 6.0)));
    assert_eq!(map.center_offset_xy(), pair(5.0, 6.0));
    assert!(!map.pan_by_pixels(pair(0.0, -0.0), d(1.0), d(100.0), pair(5.0, 6.0)));
    let at = |scaled: f64, scroll: f64| map.zoom_at_pixel(d(scroll), pair(1.0, 1.0), pair(10.0, 10.0), d(1.0), d(scaled));
    assert_eq!(at(0.5, 3.0), Some(d(0.5)));
    assert_eq!(at(0.001, 3.0), Some(d(0.01)));
    assert_eq!(at(1000.0, -3.0), Some(d(100.0)));
    assert_eq!(at(1.0, 3.0), None);
    assert_eq!(at(0.5, 0.0), None);
    assert_eq!(map.zoom_at_pixel(d(1.0), pair(1.0, 1.0), pair(0.0, 10.0), d(1.0), d(0.5)), None);
    map.settle_zoom(d(0.5), pair(7.0, 8.0));
    assert_eq!((map.zoom_multiplier(), map.center_offset_xy()), (d(0.5), pair(7.0, 8.0)));
    map.reset();
    assert_eq!(map, SlicePreviewNavigation::default());
}

#[test]
fn circle_takes_a_typed_radius_before_the_cursor() {
    let mut draft = CircleDraft::new(v3(1.0, 2.0, 3.0));
    assert!(draft.focus_requested);
    assert_eq!(draft.typed_radius(Some(d(4.0))), None);
    draft.radius_text = "4".to_owned();
    assert_eq!(draft.typed_radius(Some(d(4.0))), Some(d(4.0)));
    assert_eq!(draft.typed_radius(Some(d(f64::EPSILON))), None);
    assert_eq!(draft.typed_radius(Some(d(f64::INFINITY))), None);
    assert_eq!(draft.preview_radius(Some(d(4.0)), Some(d(9.0))), Some(d(4.0)));
    assert_eq!(draft.pointer_commit_radius(Some(d(9.0))), Some(d(9.0)));
    draft.radius_text = "4e1".to_owned();
    assert_eq!(draft.preview_radius(Some(d(40.0)), Some(d(9.0))), Some(d(9.0)));
    assert_eq!(draft.mouse_radius(Some(d(0.0))), None);
    assert_eq!(draft.mouse_radius(None), None);
}

#[test]
fn moving_the_pointer_leaves_typed_mode() {
    let mut draft = CircleDraft::new(v3(0.0, 0.0, 0.0));
    draft.radius_text = "4".to_owned();
    draft.note_radius_text_changed(true, Some(px(3.0, 4.0)));
    assert_eq!(draft.typing_origin_screen_px, Some(px(3.0, 4.0)));
    draft.note_radius_text_changed(false, Some(px(9.0, 9.0)));
    assert_eq!(draft.typing_origin_screen_px, Some(px(3.0, 4.0)));
    draft.focus_requested = false;
    assert!(!draft.reset_typed_for_pointer_movement(Some(px(0.0, 0.0)), f(64.0), f(64.0)));
    assert!(!draft.reset_typed_for_pointer_movement(None, f(65.0), f(64.0)));
    assert!(draft.reset_typed_for_pointer_movement(Some(px(0.0, 0.0)), f(65.0), f(64.0)));
    assert_eq!(draft.radius_text, "");
    assert!(draft.typing_origin_screen_px.is_none() && draft.focus_requested);
    assert!(!draft.reset_typed_for_pointer_movement(Some(px(0.0, 0.0)), f(65.0), f(64.0)));
}

#[test]
fn unprojected_gizmos_are_faded_out() {
    let screen = MoveGizmoScreen::default();
    assert!(screen.center_px.is_none());
    assert_eq!(screen.axis_fade.y, f(0.0));
    assert_eq!(screen.axis_px_per_world.z, d(1.0));
    assert_eq!(screen.view_basis_px, (pair(1.0, 0.0), pair(0.0, 1.0)));
    assert_eq!(screen.scale_factor, f(1.0));
    let rings = RotateGizmoScreen::default();
    assert!(rings.azimuth_ring_px.is_empty() && rings.dip_ring_px.is_empty());
    assert_eq!(rings.scale_factor, f(1.0));
}

#[test]
fn viewport_is_never_empty() {
    assert_eq!(ViewportRect::full(0, 0), ViewportRect { x: 0, y: 0, width: 1, height: 1 });
    assert_eq!(ViewportRect::full(640, 480), ViewportRect { x: 0, y: 0, width: 640, height: 480 });
}

fn report(command: UiCommand) -> (incline_ui::text::Text, incline_ui::text::Text) {
    let spec = command.console_report_spec().unwrap();
    (spec.title, spec.summary)
}

#[test]
fn transient_commands_are_not_reported() {
    let silent = [
        UiCommand::SetActiveTool(ActiveTool::Move),
        UiCommand::ClearSelection,
        UiCommand::CancelOffset,
        UiCommand::OpenPreferences,
        UiCommand::ToggleViewOption(ViewToggle::Console),
        UiCommand::PreviewMoveDelta(v3(0.0, 0.0, 0.0)),
        UiCommand::RequestDiscardLayerChanges(LayerId(1)),
        UiCommand::SelectBlast(None),
        UiCommand::PasteDigStrips,
        UiCommand::CancelPlanningRun,
        UiCommand::OpenCreateBlockModel(None),
    ];
    for command in silent {
        assert!(command.console_report_spec().is_none());
    }
}

#[test]
fn commands_are_reported_in_these_words() {
    let count = |n: usize| literal1("%count% object(s)", named("count", Arg::Count(n)));
    assert_eq!(report(UiCommand::SetLanguage(LanguageChoice(2))), (literal("Language"), only(Arg::Endonym(LanguageChoice(2)))));
    assert_eq!(report(UiCommand::SetFlyModeEnabled(true)), (literal("Fly Mode"), literal("Enabled")));
    assert_eq!(report(UiCommand::SetSliceModeEnabled(false)), (literal("Slice Mode"), literal("Disabled")));
    assert_eq!(report(UiCommand::SetGridShown(true)), (literal("Set Grid"), literal("Shown")));
    assert_eq!(report(UiCommand::NewProject), (literal("Create Project"), literal("Untitled project")));
    assert_eq!(report(UiCommand::LoadRaster(RasterTextureId(3))), (literal("Load Raster"), only(Arg::Raster(RasterTextureId(3)))));
    assert_eq!(report(UiCommand::RequestExit), (literal("Exit Incline Design"), literal("Checking unsaved work")));
    let blast = BlastShapeRef::new(SolidId(1), d(40.0), pair(0.0, 0.0));
    let bench = plain2("%solid% RL %bench%", named("solid", Arg::Solid(SolidId(1))), named("bench", Arg::Fixed { value: d(40.0), decimals: 2 }));
    assert_eq!(report(UiCommand::ResetBlastName(blast)), (literal("Reset Blast Name"), bench));
    let product = UiCommand::AddDelayProduct { delay_ms: 25, name: "fast".to_owned(), color: PackedColor { r: 0, g: 0, b: 0, a: 255 } };
    let line = plain2("%delay% ms · %name%", named("delay", Arg::Number(25)), named("name", Arg::Name("fast".to_owned())));
    assert_eq!(report(product), (literal("Add Product"), line));
    assert_eq!(report(UiCommand::SetStandardView(StandardView::Up)), (literal("Set Standard View"), literal("Up")));
    let renamed = UiCommand::RenameItem { target: RenameTarget::BlastShape(blast), new_name: "B1".to_owned() };
    let (title, summary) = report(renamed);
    assert_eq!(title, literal1("Rename %kind%", named("kind", Arg::Words("Blast"))));
    assert_eq!(summary, literal2("%target% to “%new_name%”", named("target", Arg::Target(RenameTarget::BlastShape(blast))), named("new_name", Arg::Name("B1".to_owned()))));
    assert_eq!(report(UiCommand::BatchSetObjectFill(vec![ObjectId(1), ObjectId(2)], FillStyle::Solid)), (literal("Set Object Fill"), count(2)));
    let moved = UiCommand::MoveObjectsToLayer { object_ids: vec![ObjectId(1)], target_layer: LayerId(2), copy: true };
    assert_eq!(report(moved).0, literal("Copy Objects to Layer"));
    assert_eq!(report(UiCommand::SetSectionVisible(ExplorerSection::Designs, false)).0, literal("Hide All"));
    assert_eq!(report(UiCommand::SetSectionLocked(ExplorerSection::Designs, true)).0, literal("Lock All"));
    assert_eq!(report(UiCommand::BatchSetAxisValue(vec![ObjectId(1)], Axis::Z, d(4.0))).0, literal("Move to Axis Value"));
    let untracked = UiCommand::RemoveTrackedProject(TrackedProject::Path("/a".to_owned()));
    assert_eq!(report(untracked), (literal("Remove Project"), incline_ui::text::verbatim("/a".to_owned())));
    assert_eq!(report(UiCommand::Undo), (literal("Undo"), literal("Previous edit")));
    assert_eq!(report(UiCommand::ZoomToExtents), (literal("Zoom to Extents"), literal("Preserve view angle")));
}

#[test]
fn every_target_has_a_removal_that_is_reported() {
    let blast = BlastShapeRef::new(SolidId(1), d(40.0), pair(0.0, 0.0));
    let cases = [
        (RenameTarget::Layer(LayerId(1)), "Layer", UiCommand::DeleteLayer(LayerId(1))),
        (RenameTarget::Triangulation(TriangulationId(1)), "Triangulation", UiCommand::RemoveTriangulation(TriangulationId(1))),
        (RenameTarget::Raster(RasterTextureId(1)), "Raster", UiCommand::RemoveRaster(RasterTextureId(1))),
        (RenameTarget::PointCloud(PointCloudId(1)), "Point Cloud", UiCommand::RemovePointCloud(PointCloudId(1))),
        (RenameTarget::BlockModel(BlockModelId(1)), "Block Model", UiCommand::RemoveBlockModel(BlockModelId(1))),
        (RenameTarget::DrillHole(DrillHoleId(1)), "Drill Holes", UiCommand::RemoveDrillHole(DrillHoleId(1))),
        (RenameTarget::ReserveField(ReserveFieldId(1)), "Field", UiCommand::DeleteReserveField(ReserveFieldId(1))),
        (RenameTarget::Solid(SolidId(1)), "Solid", UiCommand::DeleteSolid(SolidId(1))),
        (RenameTarget::BlastShape(blast), "Blast", UiCommand::ResetBlastName(blast)),
    ];
    for (target, words, command) in cases {
        assert_eq!(target.kind_label(), literal(words));
        assert_eq!(target.remove_command(), command);
        assert!(target.remove_command().console_report_spec().is_some());
    }
    assert!(UiCommand::DeleteDelayProduct(DelayProductId(1)).console_report_spec().is_some());
}
