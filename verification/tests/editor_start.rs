//! What a fresh editor holds, and what leaving a project keeps of it.
use incline_ui::editor::{EditorState, SeedNames, Startup, contour_layer_name, seed_texts};
use incline_ui::ids::{BlastShapeRef, BlockModelId, DelayProductId, DrillHoleId, DrillHoleRef, LanguageChoice, LayerId, ObjectId, RenameTarget, SceneEntityId, SolidId, TriangulationId};
use incline_ui::model::{DrillPatternLayout, Object, ObjectColor, SolidKind, SolidRegion};
use incline_ui::number::{Pair64, Pixel, Real32, Real64, Rgba, Vec3};
use incline_ui::palette::{PackedColor, StoredColor, StoredDelayProduct};
use incline_ui::preferences::{InterfacePreferences, PerformancePreferences, ShippedPreferences};
use incline_ui::state::blasting::{BlastingRestore, TiePreviewLeg};
use incline_ui::state::planning::{BenchSelection, SolidPreviewSummary, StageState};
use incline_ui::state::view::StatusBarMessage;
use incline_ui::text::{Arg, literal, literal1, named};
use incline_ui::tools::{ActiveTool, BatterBermMode, CursorMode, DataMenu, DrapePhase, OffsetMeasure, OreFilterMode, PropertyTab, RelimitMode, ReserveFieldKind, TerrainSampler, ToolHatch, TriPolylineClipMode, TriSurfaceCutSide, TriSurfaceType, TriangulationPickTarget, TrimEnd, ViewToggle};
use incline_ui::views::{GridOptionsDialog, PlanGridStyle, SectionGridStyle, SizePx};
use incline_ui::workspace::{PlanningPage, PlanningSubpage, SolidsStep, Workspace};

fn d(value: f64) -> Real64 {
    Real64 { bits: value.to_bits() }
}

fn f(value: f32) -> Real32 {
    Real32 { bits: value.to_bits() }
}

fn rgba(r: f32, g: f32, b: f32, a: f32) -> Rgba {
    Rgba { r: f(r), g: f(g), b: f(b), a: f(a) }
}

fn startup() -> Startup {
    Startup {
        preferences: ShippedPreferences {
            language: LanguageChoice(0),
            interface: InterfacePreferences {
                renderer_background_color: rgba(0.1, 0.2, 0.3, 1.0),
                dark_mode: true,
                show_console: true,
                panel_chrome: true,
                show_world_axis_gizmo: true,
                show_scale_bar: true,
            },
            performance: PerformancePreferences {
                snap_poll_rate: 60,
                vsync_enabled: true,
                frame_rate_cap: 120,
                resize_frame_rate_cap: 30,
                block_model_interaction_resolution_divisor: 2,
                show_block_model_boundary_highlights: true,
                downscale_raster_previews: true,
            },
            plan_orbit_sensitivity: d(1.0),
            plan_zoom_sensitivity: d(1.0),
            plan_zoom_towards_cursor: true,
            fly_field_of_view_degrees: d(70.0),
            fly_mouse_look_sensitivity: d(1.0),
            fly_near_clip_limit: d(0.1),
            fly_max_clip_span: d(10000.0),
        },
        products: Vec::new(),
        first_color_stop: 100,
        names: SeedNames {
            drill_pattern: "Drill Pattern".to_owned(),
            layer: "Design".to_owned(),
            contours: "Surface Contours".to_owned(),
            surface: "Surface".to_owned(),
            block_model: "Kriged Block Model".to_owned(),
        },
    }
}

fn editor() -> EditorState {
    EditorState::new(startup())
}

fn v3(x: f64, y: f64, z: f64) -> Vec3 {
    Vec3 { x: d(x), y: d(y), z: d(z) }
}

fn px(x: f32, y: f32) -> Pixel {
    Pixel { x: f(x), y: f(y) }
}

fn pair(x: f64, y: f64) -> Pair64 {
    Pair64 { x: d(x), y: d(y) }
}

#[test]
fn fresh_view_shows_the_plan_grid_and_nothing_else() {
    let e = editor();
    assert!(e.view.display.show_xy_grid);
    assert!(!e.view.display.topology_wireframes_enabled);
    assert!(!e.view.display.show_points);
    assert!(!e.view.display.show_preferences);
    assert!(e.view.display.preferences_draft.is_none());
    assert!(!e.view.display.xray_enabled);
    assert!(!e.view.display.fly_mode_enabled);
    assert_eq!(e.view.display.vertical_exaggeration, d(1.0));
    assert_eq!(e.view.display.vertical_exaggeration_input, d(1.0));
    assert!(e.view.display.rotation_centre.is_none());
    assert!(!e.view.slice.mode_enabled);
    assert_eq!(e.view.slice.preview_size_px, SizePx { width: 440, height: 440 });
    assert_eq!(e.view.slice.width_input, d(25.0));
    assert_eq!(e.view.slice.speed_input, d(50.0));
    assert_eq!(e.view.slice.rotate_input, d(45.0));
    assert_eq!(e.view.slice.direction, pair(1.0, 0.0));
    assert_eq!(e.view.slice.half_length, d(0.0));
    assert!(!e.view.grid.slice_grid_enabled);
    assert_eq!(e.view.grid.level_spacing, d(10.0));
    assert!(e.view.grid.dialog.is_none());
    assert!(!e.view.status.can_undo && !e.view.status.can_redo);
}

#[test]
fn fresh_tools_are_put_away_and_draw_in_white() {
    let e = editor();
    assert_eq!(e.drawing.tools.active_tool, ActiveTool::NoTool);
    assert_eq!(e.drawing.tools.cursor_mode, CursorMode::Select);
    assert_eq!(e.drawing.tools.line_color, rgba(1.0, 1.0, 1.0, 1.0));
    assert_eq!(e.drawing.tools.line_weight, f(1.0));
    assert_eq!(e.drawing.tools.hatch, ToolHatch::Clear);
    assert!(e.drawing.tools.active_layer.is_none());
    assert_eq!(e.drawing.text.height, d(15.0));
    assert_eq!(e.drawing.text.rotation_degrees, d(0.0));
    assert_eq!(e.drawing.text.color, rgba(1.0, 1.0, 1.0, 1.0));
    assert_eq!(e.drawing.cursor.z_level, d(0.0));
    assert_eq!(e.geometry.drape.phase, DrapePhase::Designs);
}

#[test]
fn fresh_geometry_tools_hold_their_numbers() {
    let e = editor();
    assert_eq!(e.geometry.offset.angle_degrees, d(60.0));
    assert_eq!(e.geometry.offset.measure, OffsetMeasure::Distance);
    assert_eq!(e.geometry.offset.value_input, d(0.0));
    assert_eq!(e.geometry.relimit.mode, RelimitMode::Intersect);
    assert!(e.geometry.relimit.preview_is_extension);
    assert_eq!(e.geometry.relimit.resize_end, TrimEnd::End);
    assert_eq!(e.geometry.relimit.hover_end, TrimEnd::End);
    assert_eq!(e.geometry.chamfer.radius, d(1.0));
    assert_eq!(e.geometry.chamfer.segments, 8);
    assert_eq!(e.geometry.chamfer.max_radius, d(f64::MAX));
    assert_eq!(e.geometry.chamfer.gizmo_px_per_world, d(1.0));
    assert_eq!(e.geometry.rotate.panel_dip, d(-90.0));
    assert_eq!(e.geometry.rotate.panel_last_preview, pair(0.0, -90.0));
    assert_eq!(e.geometry.batter_berm.width, d(8.0));
    assert_eq!(e.geometry.batter_berm.angle, d(60.0));
    assert_eq!(e.geometry.batter_berm.bench_height, d(12.0));
    assert_eq!(e.geometry.batter_berm.benches, 1);
    assert_eq!(e.geometry.batter_berm.max_benches, 0);
    assert_eq!(e.geometry.batter_berm.mode, BatterBermMode::Pit);
    assert!(!e.geometry.batter_berm.direction_up);
    assert_eq!(e.geometry.bezier.segments, 16);
    assert_eq!(e.geometry.translate.panel_delta, v3(0.0, 0.0, 0.0));
    assert!(e.geometry.translate.panel_last_preview.x.is_nan());
    assert!(e.geometry.translate.panel_last_preview.y.is_nan());
    assert!(e.geometry.translate.panel_last_preview.z.is_nan());
}

#[test]
fn fresh_triangulation_dialogs_hold_their_numbers() {
    let e = editor();
    let t = &e.triangulation;
    assert_eq!(t.create.surface_type, TriSurfaceType::Surface);
    assert_eq!(t.cut_poly.mode, TriPolylineClipMode::KeepInside);
    assert!(t.cut_poly.name_auto && t.cut_z.name_auto && t.cut_surface.name_auto);
    assert_eq!(t.cut_z.min_input, d(0.0));
    assert_eq!(t.cut_z.max_input, d(100.0));
    assert_eq!(t.cut_surface.side, TriSurfaceCutSide::CutTop);
    assert_eq!(t.build_solid.region, SolidRegion::Cut);
    assert!(!t.include_solid.save_as_two);
    assert!(t.include_solid.hide_old);
    assert_eq!(t.contour.major_interval_input, d(10.0));
    assert_eq!(t.contour.minor_interval_input, d(2.0));
    assert_eq!(t.contour.major_color, rgba(1.0, 0.5, 0.0, 1.0));
    assert_eq!(t.contour.minor_color, rgba(0.8, 0.8, 0.8, 1.0));
    assert_eq!(t.contour.z_max_input, d(100.0));
    assert_eq!(t.contour.layer_name_input, "Surface Contours");
    assert!(t.contour.layer_name_auto);
    assert_eq!(t.tin.name_input, "Surface");
    assert!(t.tin.budget_is_percent);
    assert_eq!(t.tin.percent, d(1.0));
    assert_eq!(t.tin.limit, 1_000_000);
    assert_eq!(t.tin.sampler, TerrainSampler::Adaptive);
    assert_eq!(t.tin.candidate_mult, 2);
}

#[test]
fn fresh_modelling_and_blasting_hold_their_numbers() {
    let e = editor();
    assert_eq!(e.modelling.block_models.next_color_stop_id, 100);
    assert_eq!(e.modelling.kriging.name_input, "Kriged Block Model");
    assert_eq!(e.modelling.kriging.lower, v3(0.0, 0.0, 0.0));
    assert_eq!(e.modelling.kriging.upper, v3(100.0, 100.0, 100.0));
    assert_eq!(e.modelling.kriging.cell, v3(10.0, 10.0, 10.0));
    assert_eq!(e.modelling.kriging.range, d(100.0));
    assert_eq!(e.modelling.kriging.sill, d(1.0));
    assert_eq!(e.modelling.kriging.nugget, d(0.0));
    assert_eq!(e.modelling.kriging.min_samples, 4);
    assert_eq!(e.modelling.kriging.max_samples, 16);
    assert_eq!(e.modelling.ore.filter_mode, OreFilterMode::GreaterOrEqual);
    assert_eq!(e.modelling.ore.max_input, d(1.0));
    assert_eq!(e.blasting.pattern.burden, d(3.0));
    assert_eq!(e.blasting.pattern.spacing, d(3.5));
    assert_eq!(e.blasting.pattern.diameter_mm, d(165.0));
    assert_eq!(e.blasting.pattern.depth, d(10.0));
    assert_eq!(e.blasting.pattern.layout, DrillPatternLayout::Square);
    assert_eq!(e.blasting.pattern.name, "Drill Pattern");
    assert_eq!(e.blasting.preview.depth, d(10.0));
    assert_eq!(e.blasting.preview.diameter, d(0.165));
    assert_eq!(e.blasting.products.new_color, PackedColor { r: 0x6E, g: 0xC1, b: 0xF0, a: 255 });
    assert!(e.blasting.products.active_delay_product.is_none());
    assert!(e.active_product().is_none());
}

#[test]
fn fresh_planning_starts_on_the_field_list() {
    let e = editor();
    assert_eq!(e.workspace.active, Workspace::Production);
    assert_eq!(e.workspace.property_tab, PropertyTab::Interface);
    assert_eq!(e.workspace.order, [Workspace::Production, Workspace::DrillAndBlast, Workspace::Geology, Workspace::Planning]);
    assert_eq!(e.planning.pages.page, PlanningPage::Solids);
    assert_eq!(e.planning.pages.solids_subpage, PlanningSubpage::Setup);
    assert_eq!(e.planning.pages.schedule_subpage, PlanningSubpage::Setup);
    assert_eq!(e.planning.pages.solids_step, SolidsStep::FieldList);
    assert_eq!(e.planning.drafts.field_kind, ReserveFieldKind::Sum);
    assert_eq!(e.planning.drafts.solid_kind, SolidKind::Pit);
    assert_eq!(e.planning.preview.size_px, SizePx { width: 420, height: 420 });
    assert_eq!(e.planning.preview.summary, SolidPreviewSummary::Empty);
    assert_eq!(e.planning.stages.solids.state, StageState::Pending);
    assert_eq!(e.project.dialogs.new_layer_name, "Design");
    assert_eq!(e.project.transfer.data_menu, DataMenu::NoMenu);
    assert_eq!(e.planning.preview.view.yaw, d(-std::f64::consts::FRAC_PI_4));
    assert_eq!(e.planning.preview.view.pitch, d(std::f64::consts::FRAC_PI_6));
}

#[test]
fn shipped_preferences_come_with_developer_views_off() {
    let e = editor();
    let p = e.current_preferences();
    assert!(p.interface.dark_mode && p.interface.show_console);
    assert_eq!(p.interface.renderer_background_color, rgba(0.1, 0.2, 0.3, 1.0));
    assert!(!p.developer.frame_counter_enabled && !p.developer.debug_chunk_coloring && !p.developer.debug_clip_planes);
    assert!(!p.camera.plan_invert_vertical_look && !p.camera.fly_invert_horizontal_look);
    assert_eq!(p.camera.fly_field_of_view_degrees, d(70.0));
    assert_eq!(p.performance.snap_poll_rate, 60);
    assert!(ViewToggle::Console.get(&e));
    assert!(ViewToggle::DarkMode.get(&e));
    let mut dimmed = editor();
    dimmed.preferences.interface.show_console = false;
    assert!(!ViewToggle::Console.get(&dimmed));
    assert!(ViewToggle::DarkMode.get(&dimmed));
}

#[test]
fn shipped_products_make_the_palette_and_the_first_is_active() {
    let mut given = startup();
    let color = StoredColor { r: 10, g: 20, b: 30, a: 255 };
    given.products.push(StoredDelayProduct { delay_ms: 42, name: "slow".to_owned(), color });
    given.products.push(StoredDelayProduct { delay_ms: 17, name: "fast".to_owned(), color });
    let e = EditorState::new(given);
    assert_eq!(e.blasting.products.delay_products.len(), 2);
    assert_eq!(e.blasting.products.delay_products[0].name, "fast");
    assert_eq!(e.blasting.products.delay_products[0].id, DelayProductId(1));
    assert_eq!(e.blasting.products.active_delay_product, Some(DelayProductId(1)));
    assert_eq!(e.blasting.products.next_delay_product_id, 2);
    assert_eq!(e.active_product().unwrap().delay_ms, 17);
}

#[test]
fn stale_product_identity_names_no_product() {
    let mut e = editor();
    e.blasting.products.active_delay_product = Some(DelayProductId(9));
    assert!(e.active_product().is_none());
}

#[test]
fn colour_stop_identities_are_handed_out_in_order() {
    let mut e = editor();
    assert_eq!(e.allocate_color_stop_id(), 100);
    assert_eq!(e.allocate_color_stop_id(), 101);
    e.modelling.block_models.next_color_stop_id = u64::MAX;
    assert_eq!(e.allocate_color_stop_id(), u64::MAX);
    assert_eq!(e.allocate_color_stop_id(), u64::MAX);
}

fn running(text: &str, units: Option<(u64, u64)>) -> Option<StatusBarMessage> {
    Some(StatusBarMessage { text: text.to_owned(), progress: None, units })
}

#[test]
fn outgoing_task_is_remembered_without_its_ellipsis() {
    let mut e = editor();
    e.set_status_message(running("Generating contours…", Some((3, 10))));
    assert!(e.view.status.last_finished_task.is_none());
    e.set_status_message(running("Generating contours…", Some((7, 10))));
    assert!(e.view.status.last_finished_task.is_none());
    e.set_status_message(None);
    let task = e.view.status.last_finished_task.as_ref().unwrap();
    assert_eq!(task.text, "Generating contours");
    assert_eq!(task.total_units, Some(10));
    assert!(e.view.status.status_message.is_none());
}

#[test]
fn next_task_ends_the_one_before() {
    let mut e = editor();
    e.set_status_message(running("Saving... ", None));
    e.set_status_message(running("Loading", None));
    let task = e.view.status.last_finished_task.as_ref().unwrap();
    assert_eq!(task.text, "Saving");
    assert_eq!(task.total_units, None);
    assert_eq!(e.view.status.status_message.as_ref().unwrap().text, "Loading");
}

#[test]
fn new_product_starts_blank() {
    let mut e = editor();
    e.blasting.products.new_delay_ms = 25;
    e.blasting.products.new_name = "typed".to_owned();
    e.begin_new_delay_product();
    assert!(e.blasting.products.new_open);
    assert_eq!(e.blasting.products.new_delay_ms, 0);
    assert_eq!(e.blasting.products.new_name, "");
    assert_eq!(e.blasting.products.new_color, PackedColor { r: 0x6E, g: 0xC1, b: 0xF0, a: 255 });
}

#[test]
fn pattern_session_keeps_numbers_and_a_written_name() {
    let mut e = editor();
    e.blasting.pattern.depth = d(12.5);
    e.blasting.pattern.boundary_id = Some(ObjectId(4));
    e.blasting.pattern.boundary_name = "bench".to_owned();
    e.blasting.pattern.name = "  ".to_owned();
    e.drawing.tools.highlight_id = Some(ObjectId(4));
    e.begin_drill_pattern(d(0.2), "Drill Pattern".to_owned());
    assert!(e.blasting.pattern.open);
    assert!(!e.blasting.pattern.awaiting_shape_pick);
    assert!(e.blasting.pattern.boundary_id.is_none());
    assert_eq!(e.blasting.pattern.boundary_name, "");
    assert_eq!(e.blasting.pattern.name, "Drill Pattern");
    assert_eq!(e.blasting.pattern.depth, d(12.5));
    assert_eq!(e.blasting.preview.depth, d(12.5));
    assert_eq!(e.blasting.preview.diameter, d(0.2));
    assert!(e.drawing.tools.highlight_id.is_none());
    e.blasting.pattern.name = "North bench".to_owned();
    e.begin_drill_pattern(d(0.2), "Drill Pattern".to_owned());
    assert_eq!(e.blasting.pattern.name, "North bench");
    e.drawing.tools.pick_hover_label = Some("line".to_owned());
    e.close_drill_pattern(d(0.2));
    assert!(!e.blasting.pattern.open);
    assert!(e.drawing.tools.pick_hover_label.is_none());
}

#[test]
fn tie_chain_ends_once() {
    let mut e = editor();
    assert!(!e.end_tie_chain());
    e.blasting.tie.anchor = Some(DrillHoleRef { dataset: DrillHoleId(1), hole: 2 });
    e.blasting.tie.preview.push(TiePreviewLeg { from: 0, to: 1, start: v3(0.0, 0.0, 0.0), end: v3(1.0, 0.0, 0.0), overwrite: false });
    assert!(e.end_tie_chain());
    assert!(e.blasting.tie.anchor.is_none());
    assert!(e.blasting.tie.preview.is_empty());
    assert!(!e.end_tie_chain());
}

#[test]
fn tie_ins_show_only_in_drill_and_blast() {
    let mut e = editor();
    e.drawing.tools.active_tool = ActiveTool::TieHoles;
    assert!(!e.shows_tie_ins());
    assert!(!e.tying_holes());
    e.workspace.active = Workspace::DrillAndBlast;
    assert!(e.shows_tie_ins());
    assert!(e.tying_holes());
    e.drawing.tools.active_tool = ActiveTool::MoveCollar;
    assert!(!e.tying_holes());
}

#[test]
fn contours_are_named_after_the_surface_while_the_name_follows_it() {
    let mut e = editor();
    let named_after = |words: &str| Some(literal1("%stem% Contours", named("stem", Arg::Name(words.to_owned()))));
    let nameless = Some(literal1("%stem% Contours", named("stem", Arg::Words("Surface"))));
    assert_eq!(e.update_contour_layer_name_from_surface("pit.dxf"), named_after("pit"));
    assert_eq!(e.update_contour_layer_name_from_surface("pit.final.dxf"), named_after("pit.final"));
    assert_eq!(e.update_contour_layer_name_from_surface("pit"), named_after("pit"));
    assert_eq!(e.update_contour_layer_name_from_surface(".hidden"), named_after(".hidden"));
    assert_eq!(e.update_contour_layer_name_from_surface("  pit one  .dxf"), named_after("pit one"));
    assert_eq!(e.update_contour_layer_name_from_surface("   .dxf"), nameless);
    assert_eq!(e.update_contour_layer_name_from_surface(""), nameless);
    assert_eq!(e.update_contour_layer_name_from_surface("designs/2024/pit.final.dxf"), named_after("pit.final"));
    assert_eq!(e.update_contour_layer_name_from_surface("/mine.v2/.hidden"), named_after(".hidden"));
    assert_eq!(e.update_contour_layer_name_from_surface("designs/.."), nameless);
    e.triangulation.contour.layer_name_auto = false;
    assert_eq!(e.update_contour_layer_name_from_surface("pit.dxf"), None);
    assert_eq!(Some(contour_layer_name(&None)), nameless);
    assert_eq!(Some(contour_layer_name(&Some(" a ".to_owned()))), named_after("a"));
}

#[test]
fn seed_names_are_these_words() {
    let words = seed_texts();
    assert_eq!(words.drill_pattern, literal("Drill Pattern"));
    assert_eq!(words.layer, literal("Design"));
    assert_eq!(words.contours, literal("Surface Contours"));
    assert_eq!(words.surface, literal("Surface"));
    assert_eq!(words.block_model, literal("Kriged Block Model"));
}

#[test]
fn leaving_a_project_ends_its_sessions_and_keeps_numbers() {
    let mut e = editor();
    e.selection.selected_handles.insert(SceneEntityId::Object(ObjectId(1)));
    e.selection.frozen_handles.insert(SceneEntityId::Triangulation(TriangulationId(2)));
    e.selection.locked_layers.insert(LayerId(3));
    e.drawing.tools.active_tool = ActiveTool::Bezier;
    e.drawing.tools.active_layer = Some(LayerId(3));
    e.drawing.stroke.pending_stroke.push(v3(1.0, 2.0, 3.0));
    e.drawing.text.editing_enabled = true;
    e.drawing.text.pending = "half a label".to_owned();
    e.drawing.cursor.box_start_px = Some(px(1.0, 1.0));
    e.geometry.offset.angle_degrees = d(45.0);
    e.geometry.offset.dialog_open = true;
    e.geometry.offset.target_ids.push(ObjectId(1));
    e.geometry.chamfer.radius = d(2.5);
    e.geometry.chamfer.poly_id = Some(ObjectId(1));
    e.geometry.rotate.panel_azimuth = d(12.0);
    e.geometry.rotate.panel_dip = d(-45.0);
    e.geometry.bezier.poly_closed = true;
    e.geometry.drape.phase = DrapePhase::Topologies;
    e.triangulation.create.pick_target = Some(TriangulationPickTarget::ClipSurface);
    e.triangulation.create.selected_object_ids.push(ObjectId(1));
    e.triangulation.cut_poly.open = true;
    e.triangulation.cut_poly.object_name = "line".to_owned();
    e.triangulation.cut_z.tri_id = Some(TriangulationId(2));
    e.blasting.pattern.open = true;
    e.blasting.pattern.burden = d(4.0);
    e.blasting.cuts.selected_blast = Some(BlastShapeRef::new(SolidId(1), d(10.0), pair(1.0, 2.0)));
    e.blasting.products.pending_delete = Some((DelayProductId(0), "x".to_owned()));
    e.project.dialogs.renaming_item = Some((RenameTarget::Layer(LayerId(3)), "x".to_owned()));
    e.project.dialogs.new_layer_open = true;
    e.project.lifecycle.exit_confirm_open = true;
    e.view.slice.pending_start = Some(v3(0.0, 0.0, 0.0));
    e.view.slice.mode_enabled = true;
    e.geometry.offset_preview.world.push(v3(1.0, 1.0, 0.0));
    e.geometry.relimit.resize_end_px = Some(px(4.0, 4.0));
    e.geometry.chamfer.gizmo_handle_px = Some(px(5.0, 5.0));
    e.geometry.translate.drag_axis_index = Some(1);
    e.geometry.batter_berm.dialog_open = true;
    e.geometry.batter_berm.benches = 7;
    e.geometry.bezier.cp1_screen_px = Some(px(6.0, 6.0));
    e.view.display.rotation_centre = Some(v3(7.0, 8.0, 9.0));
    e.drawing.cursor.snapped = true;
    e.drawing.cursor.snap_marker_px = Some(px(2.0, 2.0));
    e.triangulation.create.open = true;
    e.triangulation.cut_poly.tri_id = Some(TriangulationId(2));
    e.triangulation.cut_z.open = true;
    e.triangulation.cut_z.min_input = d(5.0);
    e.triangulation.cut_surface.target_id = Some(TriangulationId(2));
    e.triangulation.build_solid.open = true;
    e.triangulation.build_solid.design_id = Some(TriangulationId(2));
    e.triangulation.cut_pitshell.name_input = "pit cut".to_owned();
    e.triangulation.cut_pitshell.name_auto = false;
    e.triangulation.include_solid.shape_id = Some(TriangulationId(2));
    e.triangulation.include_solid.hide_old = false;
    e.triangulation.contour.tri_id = Some(TriangulationId(2));
    e.triangulation.contour.target_layer = Some(LayerId(3));
    e.triangulation.contour.layer_name_input = "pit Contours".to_owned();
    e.triangulation.contour.major_interval_input = d(25.0);
    e.triangulation.tin.open = true;
    e.triangulation.tin.limit = 5;
    e.modelling.block_models.drill_hole_color_dialog = Some(DrillHoleId(4));
    e.modelling.block_models.viewport_model_id = Some(BlockModelId(5));
    e.modelling.block_models.table_pages.push((BlockModelId(5), 2));
    e.modelling.kriging.open = true;
    e.modelling.kriging.drill_hole_id = Some(DrillHoleId(4));
    e.modelling.kriging.range = d(60.0);
    e.modelling.ore.block_model_id = Some(BlockModelId(5));
    e.modelling.ore.variable = "Fe".to_owned();
    e.blasting.tie.blast_round_key = Some((4, 1));
    e.blasting.cuts.dig_clipboard.push(Object::Point { pos: v3(0.0, 0.0, 0.0), color: ObjectColor::ByLayer });
    e.blasting.cuts.scroll_to_blast = true;
    let held = BlastingRestore { forward: v3(0.0, 1.0, 0.0), up: v3(0.0, 0.0, 1.0), layer: Some(LayerId(3)), z_level: d(12.0), z_input: d(13.0) };
    e.blasting.cuts.restore = Some(held);
    e.planning.pages.run_active = true;
    e.planning.pages.snapshot_status = "Ready".to_owned();
    e.planning.pages.solids_step = SolidsStep::Benching;
    e.planning.pages.selected_solid = Some(SolidId(1));
    e.planning.pages.selected_bench = Some(BenchSelection { base: d(10.0), top: d(20.0), is_flitch: false });
    e.planning.drafts.solid_open = true;
    e.planning.drafts.solid_surface = Some(TriangulationId(2));
    e.planning.stages.solids.state = StageState::Failed;
    e.planning.preview.sources.push(TriangulationId(2));
    e.planning.preview.summary = SolidPreviewSummary::Unloaded;
    e.project.lifecycle.pending_close_project = Some(1);
    e.project.lifecycle.remove_project_after_close = true;
    e.project.lifecycle.pending_discard_project = Some(1);
    e.project.transfer.show_export = true;
    e.project.transfer.show_import = true;
    e.project.transfer.export_layer = Some(LayerId(3));
    let next_stop = e.modelling.block_models.next_color_stop_id;
    e.clear_project_transients(d(0.165), startup().names);
    assert!(e.view.display.rotation_centre.is_none());
    assert!(!e.drawing.cursor.snapped);
    assert!(e.drawing.cursor.snap_marker_px.is_none());
    assert!(!e.triangulation.create.open);
    assert!(e.triangulation.cut_poly.tri_id.is_none());
    assert!(!e.triangulation.cut_z.open);
    assert_eq!(e.triangulation.cut_z.min_input, d(5.0));
    assert!(e.triangulation.cut_surface.target_id.is_none());
    assert!(!e.triangulation.build_solid.open);
    assert!(e.triangulation.build_solid.design_id.is_none());
    assert_eq!(e.triangulation.cut_pitshell.name_input, "");
    assert!(e.triangulation.cut_pitshell.name_auto);
    assert!(e.triangulation.include_solid.shape_id.is_none());
    assert!(!e.triangulation.include_solid.hide_old);
    assert!(e.triangulation.contour.tri_id.is_none());
    assert!(e.triangulation.contour.target_layer.is_none());
    assert_eq!(e.triangulation.contour.layer_name_input, startup().names.contours);
    assert_eq!(e.triangulation.contour.major_interval_input, d(25.0));
    assert!(!e.triangulation.tin.open);
    assert_eq!(e.triangulation.tin.limit, 5);
    assert!(e.modelling.block_models.drill_hole_color_dialog.is_none());
    assert!(e.modelling.block_models.viewport_model_id.is_none());
    assert!(e.modelling.block_models.table_pages.is_empty());
    assert_eq!(e.modelling.block_models.next_color_stop_id, next_stop);
    assert!(!e.modelling.kriging.open);
    assert!(e.modelling.kriging.drill_hole_id.is_none());
    assert_eq!(e.modelling.kriging.range, d(60.0));
    assert!(e.modelling.ore.block_model_id.is_none());
    assert_eq!(e.modelling.ore.variable, "");
    assert!(e.blasting.tie.blast_round_key.is_none());
    assert_eq!(e.blasting.cuts.dig_clipboard.len(), 1);
    assert!(e.blasting.cuts.scroll_to_blast);
    assert_eq!(e.blasting.cuts.restore, Some(BlastingRestore { layer: None, ..held }));
    assert!(e.planning.pages.run_active);
    assert_eq!(e.planning.pages.snapshot_status, "Ready");
    assert!(e.blasting.cuts.selected_dig_block_info.is_none());
    assert_eq!(e.planning.pages.solids_step, SolidsStep::Benching);
    assert!(e.planning.pages.selected_solid.is_none());
    assert!(e.planning.pages.selected_bench.is_none());
    assert!(!e.planning.drafts.solid_open);
    assert!(e.planning.drafts.solid_surface.is_none());
    assert_eq!(e.planning.stages.solids.state, StageState::Failed);
    assert!(e.planning.preview.sources.is_empty());
    assert_eq!(e.planning.preview.summary, SolidPreviewSummary::Empty);
    assert!(e.project.lifecycle.pending_close_project.is_none());
    assert!(!e.project.lifecycle.remove_project_after_close);
    assert!(e.project.lifecycle.pending_discard_project.is_none());
    assert!(!e.project.transfer.show_export);
    assert!(e.project.transfer.show_import);
    assert!(e.project.transfer.export_layer.is_none());
    assert!(e.geometry.offset_preview.world.is_empty());
    assert!(e.geometry.relimit.resize_end_px.is_none());
    assert!(e.geometry.chamfer.gizmo_handle_px.is_none());
    assert!(e.geometry.translate.drag_axis_index.is_none());
    assert!(!e.geometry.batter_berm.dialog_open);
    assert_eq!(e.geometry.batter_berm.benches, 7);
    assert!(e.geometry.bezier.cp1_screen_px.is_none());
    assert!(e.selection.selected_handles.is_empty());
    assert!(e.selection.frozen_handles.is_empty());
    assert!(e.selection.locked_layers.is_empty());
    assert_eq!(e.drawing.tools.active_tool, ActiveTool::NoTool);
    assert!(e.drawing.tools.active_layer.is_none());
    assert!(e.drawing.stroke.pending_stroke.is_empty());
    assert!(!e.drawing.text.editing_enabled);
    assert_eq!(e.drawing.text.pending, "");
    assert!(e.drawing.cursor.box_start_px.is_none());
    assert_eq!(e.geometry.offset.angle_degrees, d(45.0));
    assert!(!e.geometry.offset.dialog_open);
    assert!(e.geometry.offset.target_ids.is_empty());
    assert_eq!(e.geometry.chamfer.radius, d(2.5));
    assert!(e.geometry.chamfer.poly_id.is_none());
    assert_eq!(e.geometry.rotate.panel_azimuth, d(0.0));
    assert_eq!(e.geometry.rotate.panel_dip, d(-90.0));
    assert!(!e.geometry.bezier.poly_closed);
    assert_eq!(e.geometry.drape.phase, DrapePhase::Designs);
    assert_eq!(e.geometry.translate.panel_last_preview, v3(0.0, 0.0, 0.0));
    assert!(e.triangulation.create.pick_target.is_none());
    assert!(e.triangulation.create.selected_object_ids.is_empty());
    assert!(!e.triangulation.cut_poly.open);
    assert_eq!(e.triangulation.cut_poly.object_name, "");
    assert!(e.triangulation.cut_z.tri_id.is_none());
    assert!(!e.blasting.pattern.open);
    assert_eq!(e.blasting.pattern.burden, d(4.0));
    assert!(e.blasting.cuts.selected_blast.is_none());
    assert!(e.blasting.products.pending_delete.is_none());
    assert!(e.project.dialogs.renaming_item.is_none());
    assert!(!e.project.dialogs.new_layer_open);
    assert!(e.project.lifecycle.exit_confirm_open);
    assert!(e.view.slice.pending_start.is_none());
    assert!(e.view.slice.mode_enabled);
}

#[test]
fn planning_cut_needs_one_slice_of_the_right_kind() {
    let mut e = editor();
    e.workspace.active = Workspace::Planning;
    assert!(e.is_planning_setup());
    assert!(!e.is_planning_viewport());
    e.planning.pages.solids_step = SolidsStep::Blasting;
    assert!(e.is_blasting_step() && e.is_planning_cut_step() && !e.is_dig_strips_step());
    assert!(e.is_planning_viewport());
    assert!(!e.is_planning_setup());
    assert!(e.planning_cut_target().is_none());
    let bench = BenchSelection { base: d(10.0), top: d(20.0), is_flitch: false };
    let flitch = BenchSelection { base: d(10.0), top: d(15.0), is_flitch: true };
    e.planning.pages.view_selection.push(incline_ui::state::planning::SolidsViewRow { solid: SolidId(7), band: Some(bench) });
    assert_eq!(e.planning_cut_target(), Some((SolidId(7), bench)));
    assert_eq!(e.blasting_bench(), Some((SolidId(7), bench)));
    e.planning.pages.solids_step = SolidsStep::DigStrips;
    assert!(e.planning_cut_target().is_none());
    assert!(e.blasting_bench().is_none());
    e.planning.pages.view_selection[0].band = Some(flitch);
    assert_eq!(e.planning_cut_target(), Some((SolidId(7), flitch)));
    e.planning.pages.view_selection.push(incline_ui::state::planning::SolidsViewRow { solid: SolidId(8), band: Some(flitch) });
    assert!(e.planning_cut_target().is_none());
}

#[test]
fn planning_pages_choose_their_steps() {
    let mut e = editor();
    e.workspace.active = Workspace::Planning;
    e.planning.pages.page = PlanningPage::Haulage;
    assert_eq!(e.planning_subpage(), PlanningSubpage::Layout);
    assert!(e.is_planning_viewport());
    e.planning.pages.page = PlanningPage::Schedule;
    e.planning.pages.schedule_subpage = PlanningSubpage::Animate;
    assert_eq!(e.planning_subpage(), PlanningSubpage::Animate);
    e.planning.pages.page = PlanningPage::Solids;
    e.planning.pages.solids_subpage = PlanningSubpage::View;
    assert!(e.is_solids_view());
    assert!(e.is_planning_setup());
    e.workspace.active = Workspace::Geology;
    assert!(!e.is_solids_view() && !e.is_planning_setup() && !e.is_planning_viewport());
}

#[test]
fn grid_dialog_round_trips_untouched() {
    let section = SectionGridStyle { color: Some(PackedColor { r: 1, g: 2, b: 3, a: 255 }), thickness: d(2.0), level_spacing: Some(d(5.0)) };
    assert_eq!(GridOptionsDialog::open_section(section, d(40.0)).section_style(), section);
    let automatic = GridOptionsDialog::open_section(SectionGridStyle::default(), d(40.0));
    assert!(automatic.auto_color && automatic.auto_spacing);
    assert_eq!(automatic.spacing, d(40.0));
    assert_eq!(automatic.thickness, d(1.0));
    assert_eq!(automatic.color, PackedColor { r: 63, g: 66, b: 69, a: 115 });
    assert_eq!(automatic.section_style(), SectionGridStyle::default());
    let plan = GridOptionsDialog::open_plan(PlanGridStyle::default());
    assert!(plan.plan);
    assert_eq!(plan.plan_style(), PlanGridStyle::default());
}
