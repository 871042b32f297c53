//! The bars, menus and tabs around the viewport, the preferences, and the look of the selection.
use incline_ui::appearance::{DesignEdit, DesignKind, DesignSeed, SelectedType, colour_label, edit_design, edit_object, editable_object, face_colour_targets, preferences_tab, selected_block_models, selected_of_kind, set_face_colour, shows_headings};
use incline_ui::command::{TrackedProject, UiCommand};
use incline_ui::cursors::{ArmDistance, CursorGlyph, GizmoArm, GizmoNode, Hover, Pointer, PointerIcon, cursor_glyph, gizmo_arms, gizmo_fits, nearest_axis_node, release_pointer, stack_gizmo, standard_view_for_axis};
use incline_ui::document::{Document, OpenBlockModel};
use incline_ui::editor::{EditorState, SeedNames, Startup};
use incline_ui::ids::{BlockModelId, DrillHoleId, DrillHoleRef, LanguageChoice, LayerId, ObjectId, PointCloudId, RasterTextureId, SceneEntityId, TriangulationId};
use incline_ui::menus::{FILE_ROWS, FileRow, MenuRow, Submenu, WorkspaceMenu, click_view, open_recent, show_project_label, workspace_menus};
use incline_ui::model::{Axis, FillStyle, Object, ObjectColor};
use incline_ui::number::{Pixel, Real32, Real64, Rgba, Vec3};
use incline_ui::preferences::{InterfacePreferences, PerformancePreferences, PreferencesDraft, SettingsOutcome, ShippedPreferences, committed, pacing_fields, restore_tab, seed_draft, settings_section};
use incline_ui::project_view::{MembershipChanges, Platform, RECENT_PROJECT_LIMIT, UiDrillHoleEntry, UiLayerEntry, UiPointCloudEntry, UiProjectEntry, UiProjectView, UiRasterTextureEntry, UiTrackedProjectEntry, UiTriangulationEntry};
use incline_ui::state::block_model::BlockModelState;
use incline_ui::state::drawing::CanvasDialogs;
use incline_ui::state::project::TransferState;
use incline_ui::text::{Arg, key, literal, named, plain1, plain2, verbatim};
use incline_ui::tools::{ActiveTool, CursorMode, PropertyTab, StandardView, ViewToggle};
use incline_ui::viewport_bar::{BarButton, BlastReview, CentreRun, ProjectAction, ViewTool, click_subpage, elide, shows_planning_steps};
use incline_ui::workspace::{PlanningPage, PlanningSubpage, SolidsStep, Workspace};
use incline_ui::workspace_tabs::{TabFill, TabState, WorkspaceTabDrag, begin_drag, paint_order, settle_drag, standing_order, tab_fill};

fn d(value: f64) -> Real64 {
    Real64 { bits: value.to_bits() }
}

fn f(value: f32) -> Real32 {
    Real32 { bits: value.to_bits() }
}

fn rgba(r: f32, g: f32, b: f32, a: f32) -> Rgba {
    Rgba { r: f(r), g: f(g), b: f(b), a: f(a) }
}

fn startup() -> Startup {
    Startup {
        preferences: ShippedPreferences {
            language: LanguageChoice(0),
            interface: InterfacePreferences {
                renderer_background_color: rgba(0.1, 0.2, 0.3, 1.0),
                dark_mode: true,
                show_console: true,
                panel_chrome: true,
                show_world_axis_gizmo: true,
                show_scale_bar: true,
            },
            performance: PerformancePreferences {
                snap_poll_rate: 60,
                vsync_enabled: true,
                frame_rate_cap: 120,
                resize_frame_rate_cap: 30,
                block_model_interaction_resolution_divisor: 2,
                show_block_model_boundary_highlights: true,
                downscale_raster_previews: true,
            },
            plan_orbit_sensitivity: d(1.0),
            plan_zoom_sensitivity: d(1.0),
            plan_zoom_towards_cursor: true,
            fly_field_of_view_degrees: d(70.0),
            fly_mouse_look_sensitivity: d(1.0),
            fly_near_clip_limit: d(0.1),
            fly_max_clip_span: d(10000.0),
        },
        products: Vec::new(),
        first_color_stop: 100,
        names: SeedNames {
            drill_pattern: "Drill Pattern".to_owned(),
            layer: "Design".to_owned(),
            contours: "Surface Contours".to_owned(),
            surface: "Surface".to_owned(),
            block_model: "Kriged Block Model".to_owned(),
        },
    }
}

fn editor() -> EditorState {
    EditorState::new(startup())
}

fn v3(x: f64, y: f64, z: f64) -> Vec3 {
    Vec3 { x: d(x), y: d(y), z: d(z) }
}

fn px(x: f32, y: f32) -> Pixel {
    Pixel { x: f(x), y: f(y) }
}

fn project_view() -> UiProjectView {
    UiProjectView {
        tracked_projects: Vec::new(),
        projects: Vec::new(),
        triangulations: Vec::new(),
        block_models: Vec::new(),
        drill_holes: Vec::new(),
        point_clouds: Vec::new(),
        raster_textures: Vec::new(),
        membership: MembershipChanges { triangulations: false, block_models: false, drill_holes: false, point_clouds: false, rasters: false },
        has_active_project: false,
        needs_startup_dialog: false,
        active_path: None,
        active_triangulation_for_menu: None,
    }
}

fn project_entry(layers: Vec<UiLayerEntry>) -> UiProjectEntry {
    UiProjectEntry {
        runtime_id: 7,
        name: "pit".to_owned(),
        dirty: false,
        designs_dirty: false,
        lossy_save_warnings: Vec::new(),
        is_active: true,
        stored_in_browser: false,
        layers,
        path: Some("/mine/pit.incline".to_owned()),
    }
}

fn layer(id: u64, name: &str, is_loaded: bool) -> UiLayerEntry {
    UiLayerEntry { id: LayerId(id), name: name.to_owned(), is_loaded, dirty: false }
}

const P: Workspace = Workspace::Production;
const B: Workspace = Workspace::DrillAndBlast;
const G: Workspace = Workspace::Geology;
const L: Workspace = Workspace::Planning;

fn hover(in_canvas: bool, over_scene_only: bool, held_by_widget: bool) -> Option<Hover> {
    Some(Hover { in_canvas, over_scene_only, held_by_widget })
}

#[test]
fn cursor_modes_have_marks_of_their_own() {
    let mut e = editor();
    for (mode, glyph) in [
        (CursorMode::Select, CursorGlyph::Crosshair),
        (CursorMode::SnapToPoint, CursorGlyph::Circle),
        (CursorMode::SnapToLine, CursorGlyph::Square),
        (CursorMode::SnapToSurface, CursorGlyph::Triangle),
    ] {
        e.drawing.tools.cursor_mode = mode;
        assert_eq!(cursor_glyph(&e), glyph);
    }
}

#[test]
fn the_cursor_is_drawn_over_open_scene_only() {
    let mut e = editor();
    e.drawing.cursor.snapped = true;
    e.drawing.cursor.snap_marker_px = Some(px(4.0, 5.0));
    let drawn = Pointer::Drawn { glyph: CursorGlyph::Crosshair, snapped: true, dot: Some(px(4.0, 5.0)) };
    assert_eq!(e.tool_pointer(false, hover(true, true, false)), drawn);
    assert_eq!(e.tool_pointer(false, hover(false, true, false)), Pointer::Released);
    assert_eq!(e.tool_pointer(false, hover(true, false, false)), Pointer::Released);
    assert_eq!(e.tool_pointer(false, hover(true, true, true)), Pointer::Released);
    assert_eq!(e.tool_pointer(false, None), Pointer::Released);
    e.view.display.fly_mode_enabled = true;
    assert_eq!(e.tool_pointer(false, hover(true, true, false)), drawn);
    assert_eq!(e.tool_pointer(true, None), Pointer::Hidden);
    e.view.status.background_busy = true;
    assert_eq!(e.tool_pointer(true, hover(true, true, false)), Pointer::Progress);
}

#[test]
fn a_hidden_pointer_comes_back_once_released() {
    let drawn = Pointer::Drawn { glyph: CursorGlyph::Circle, snapped: false, dot: None };
    assert_eq!(drawn.icon(PointerIcon::Widget), PointerIcon::Hidden);
    assert_eq!(Pointer::Hidden.icon(PointerIcon::Default), PointerIcon::Hidden);
    assert_eq!(Pointer::Progress.icon(PointerIcon::Default), PointerIcon::Progress);
    assert_eq!(Pointer::Released.icon(PointerIcon::Hidden), PointerIcon::Default);
    assert_eq!(release_pointer(PointerIcon::Progress), PointerIcon::Default);
    assert_eq!(release_pointer(PointerIcon::Widget), PointerIcon::Widget);
}

#[test]
fn the_gizmo_needs_room() {
    assert!(gizmo_fits(f(92.0), f(92.0)));
    assert!(!gizmo_fits(f(91.9), f(500.0)));
    assert!(!gizmo_fits(f(500.0), f(91.9)));
    assert!(!gizmo_fits(f(88.0), f(88.0)));
}

fn arm(axis: Axis, positive: bool) -> GizmoArm {
    GizmoArm { axis, positive }
}

#[test]
fn sections_have_no_vertical_arms() {
    assert_eq!(gizmo_arms(false).len(), 6);
    assert_eq!(gizmo_arms(true), vec![arm(Axis::X, true), arm(Axis::X, false), arm(Axis::Y, true), arm(Axis::Y, false)]);
}

#[test]
fn arms_look_from_where_they_point() {
    for (arm, view) in [
        (arm(Axis::X, true), StandardView::East),
        (arm(Axis::X, false), StandardView::West),
        (arm(Axis::Y, true), StandardView::North),
        (arm(Axis::Y, false), StandardView::South),
        (arm(Axis::Z, true), StandardView::Up),
        (arm(Axis::Z, false), StandardView::Down),
    ] {
        assert_eq!(standard_view_for_axis(arm.direction()), view);
    }
}

#[test]
fn edge_on_arms_are_told_apart_by_their_sign() {
    // Seen looking north, the arms across the view have a depth of zero with their own sign.
    let depth = |arm: GizmoArm| {
        let along = arm.direction();
        let part = |value: Real32| f32::from_bits(value.bits);
        f(part(along.x) * 0.0 + part(along.y) * 1.0 + part(along.z) * 0.0)
    };
    let mut nodes: Vec<GizmoNode> = gizmo_arms(false).into_iter().map(|arm| GizmoNode { arm, depth: depth(arm) }).collect();
    assert_eq!(stack_gizmo(&mut nodes), 5);
    let painted: Vec<GizmoArm> = nodes.iter().map(|node| node.arm).collect();
    let back = vec![arm(Axis::Y, true), arm(Axis::X, true), arm(Axis::Z, true)];
    let front = vec![arm(Axis::X, false), arm(Axis::Z, false), arm(Axis::Y, false)];
    assert_eq!(painted, [back, front].concat());
    assert_eq!(arm(Axis::X, false).direction().y.bits, 0x8000_0000);
    assert_eq!(arm(Axis::X, true).direction().y.bits, 0);
}

#[test]
fn gizmo_nodes_are_painted_from_the_back() {
    let node = |positive: bool, depth: f32| GizmoNode { arm: arm(Axis::X, positive), depth: f(depth) };
    let mut nodes = vec![node(true, -0.5), node(false, 0.5), node(true, 0.0)];
    assert_eq!(stack_gizmo(&mut nodes), 2);
    assert_eq!(nodes, vec![node(false, 0.5), node(true, 0.0), node(true, -0.5)]);
    assert_eq!(stack_gizmo(&mut vec![node(true, 1.0)]), 1);
    assert_eq!(stack_gizmo(&mut Vec::new()), 0);
}

#[test]
fn a_click_hits_the_nearest_arm() {
    let at = |axis: Axis, node: f32, stem: f32| ArmDistance {
        arm: arm(axis, true),
        node: f(node),
        stem: f(stem),
        stem_handicapped: f(stem + 4.0),
    };
    assert_eq!(nearest_axis_node(&vec![at(Axis::X, 13.0, 7.0), at(Axis::Y, 12.0, 7.0)]), Some(arm(Axis::Y, true)));
    assert_eq!(nearest_axis_node(&vec![at(Axis::X, 8.0, 7.0), at(Axis::Y, 20.0, 3.0)]), Some(arm(Axis::Y, true)));
    assert_eq!(nearest_axis_node(&vec![at(Axis::X, 6.0, 7.0), at(Axis::Y, 20.0, 2.0)]), Some(arm(Axis::X, true)));
    assert_eq!(nearest_axis_node(&vec![at(Axis::X, 12.5, 6.5)]), None);
    assert_eq!(nearest_axis_node(&Vec::new()), None);
}

#[test]
fn reopening_the_open_workspace_does_nothing() {
    let mut e = editor();
    let mut commands = Vec::new();
    let open = e.workspace.active;
    e.drawing.tools.active_tool = ActiveTool::MakePoly;
    e.select_workspace(open, d(0.2), &mut commands);
    assert!(commands.is_empty());
}

#[test]
fn drawing_tools_stay_in_production() {
    let mut e = editor();
    let mut commands = Vec::new();
    e.workspace.active = P;
    e.drawing.tools.active_tool = ActiveTool::MakePoly;
    e.drawing.tools.cursor_mode = CursorMode::SnapToLine;
    e.select_workspace(G, d(0.2), &mut commands);
    assert_eq!(commands, vec![UiCommand::ClearSelection, UiCommand::SetActiveTool(ActiveTool::NoTool)]);
    assert_eq!(e.workspace.active, G);
    assert_eq!(e.drawing.tools.cursor_mode, CursorMode::SnapToLine);
    commands.clear();
    e.drawing.tools.active_tool = ActiveTool::VerticalSlice;
    e.select_workspace(B, d(0.2), &mut commands);
    assert_eq!(commands, vec![UiCommand::ClearSelection]);
    commands.clear();
    e.drawing.tools.active_tool = ActiveTool::MoveCollar;
    e.select_workspace(P, d(0.2), &mut commands);
    assert_eq!(commands, vec![UiCommand::ClearSelection, UiCommand::SetActiveTool(ActiveTool::NoTool)]);
}

#[test]
fn planning_cuts_keep_their_drawing_tool() {
    let mut e = editor();
    let mut commands = Vec::new();
    e.workspace.active = P;
    e.planning.pages.page = PlanningPage::Solids;
    e.planning.pages.solids_subpage = PlanningSubpage::Setup;
    e.planning.pages.solids_step = SolidsStep::Blasting;
    e.drawing.tools.active_tool = ActiveTool::MakePoly;
    e.select_workspace(L, d(0.2), &mut commands);
    assert_eq!(commands, vec![UiCommand::ClearSelection]);
}

#[test]
fn leaving_drill_and_blast_closes_its_run() {
    let mut e = editor();
    let mut commands = Vec::new();
    e.workspace.active = B;
    e.blasting.pattern.open = true;
    e.blasting.tie.anchor = Some(DrillHoleRef { dataset: DrillHoleId(1), hole: 2 });
    e.select_workspace(P, d(0.2), &mut commands);
    assert!(!e.blasting.pattern.open);
    assert_eq!(e.blasting.tie.anchor, None);
    assert!(e.blasting.tie.initiation_dialog.is_none());
}

fn drag(workspace: Workspace, order: Vec<Workspace>) -> WorkspaceTabDrag {
    WorkspaceTabDrag { workspace, order, grab_offset: f(3.0) }
}

#[test]
fn dragged_tabs_slide_past_their_neighbours() {
    let centers = vec![f(10.0), f(30.0), f(50.0), f(70.0)];
    let mut held = drag(P, vec![P, B, G, L]);
    held.drag_over(f(55.0), &centers);
    assert_eq!(held.order, vec![B, G, P, L]);
    let mut held = drag(L, vec![P, B, G, L]);
    held.drag_over(f(5.0), &centers);
    assert_eq!(held.order, vec![L, P, B, G]);
    let mut held = drag(B, vec![P, B, G, L]);
    held.drag_over(f(50.0), &centers);
    assert_eq!(held.order, vec![P, B, G, L]);
}

#[test]
fn a_released_tab_asks_for_the_order_shown() {
    let current = [P, B, G, L];
    let mut commands = Vec::new();
    assert_eq!(settle_drag(Some(drag(P, vec![B, G, P, L])), false, true, false, &current, &mut commands), None);
    assert_eq!(settle_drag(Some(drag(P, vec![B, G, L, P])), false, true, false, &current, &mut commands), None);
    assert_eq!(
        commands,
        vec![
            UiCommand::ReorderWorkspace { workspace: P, before: Some(L) },
            UiCommand::ReorderWorkspace { workspace: P, before: None },
        ]
    );
    commands.clear();
    assert_eq!(settle_drag(Some(drag(P, vec![P, B, G, L])), false, true, false, &current, &mut commands), None);
    assert_eq!(settle_drag(Some(drag(P, vec![B, P, G, L])), false, false, false, &current, &mut commands), None);
    assert_eq!(settle_drag(Some(drag(P, vec![B, P, G, L])), true, true, true, &current, &mut commands), None);
    assert!(commands.is_empty());
    let held = Some(drag(P, vec![B, P, G, L]));
    assert_eq!(settle_drag(held.clone(), false, false, true, &current, &mut commands), held);
}

#[test]
fn tabs_are_picked_up_from_where_they_stand() {
    let current = [P, B, G, L];
    assert_eq!(begin_drag(None, Some((G, f(3.0))), false, &current), Some(drag(G, vec![P, B, G, L])));
    assert_eq!(begin_drag(None, Some((G, f(3.0))), true, &current), None);
    assert_eq!(begin_drag(None, None, false, &current), None);
    assert_eq!(standing_order(&Some(drag(P, vec![B, P, G, L])), &current), vec![B, P, G, L]);
    assert_eq!(standing_order(&None, &current), vec![P, B, G, L]);
}

#[test]
fn the_dragged_tab_is_painted_last() {
    assert_eq!(paint_order(vec![P, B, G, L], Some(B)), vec![P, G, L, B]);
    assert_eq!(paint_order(vec![P, B, G, L], None), vec![P, B, G, L]);
}

#[test]
fn tabs_light_up_away_from_the_background() {
    let mut e = editor();
    e.workspace.active = G;
    assert_eq!(e.tab_state(G), TabState::Active);
    assert_eq!(e.tab_state(P), TabState::Inactive);
    assert_eq!(tab_fill(true, TabState::Active, true), TabFill { from_panel: true, shift: 6 });
    assert_eq!(tab_fill(false, TabState::Inactive, true), TabFill { from_panel: false, shift: -6 });
    assert_eq!(tab_fill(true, TabState::Inactive, false), TabFill { from_panel: false, shift: 0 });
    assert_eq!(tab_fill(true, TabState::Disabled, true), TabFill { from_panel: false, shift: 0 });
}

#[test]
fn planning_pages_work_in_their_own_workspace() {
    let mut e = editor();
    let mut commands = Vec::new();
    e.workspace.active = P;
    e.click_planning_page(PlanningPage::Schedule, &mut commands);
    assert!(commands.is_empty());
    e.workspace.active = L;
    e.click_planning_page(PlanningPage::Schedule, &mut commands);
    assert_eq!(commands, vec![UiCommand::SetPlanningPage(PlanningPage::Schedule)]);
}

fn transfer() -> TransferState {
    TransferState::new()
}

#[test]
fn the_file_menu_has_thirteen_rows() {
    let rows: Vec<FileRow> = (0..FILE_ROWS).map(|place| FileRow::at(place).unwrap()).collect();
    assert_eq!(FileRow::at(13), None);
    assert_eq!(rows[0], FileRow::Save);
    assert_eq!(rows[12], FileRow::Exit);
    let opening: Vec<FileRow> = rows.iter().copied().filter(|row| row.opens_section()).collect();
    assert_eq!(opening, vec![FileRow::NewProject, FileRow::Import, FileRow::Preferences]);
    let missing: Vec<FileRow> = rows.iter().copied().filter(|row| !row.shown(Platform::Browser)).collect();
    assert_eq!(missing, vec![FileRow::SaveAs, FileRow::ShowInFileManager]);
    assert!(rows.iter().all(|row| row.shown(Platform::Desktop)));
    assert_eq!(FileRow::About.label(false), key("menu-file-about"));
    assert_eq!(FileRow::Preferences.label(false), key("preferences-title"));
    assert_eq!(show_project_label(true), key("menu-file-show-in-explorer"));
    assert_eq!(FileRow::ShowInFileManager.label(false), key("menu-file-show-in-folder"));
}

#[test]
fn file_rows_wait_for_a_project() {
    let mut view = project_view();
    for row in [FileRow::Save, FileRow::SaveAs, FileRow::OpenRecent, FileRow::ShowInFileManager, FileRow::Import, FileRow::Export] {
        assert!(!row.enabled(&view, Platform::Desktop));
    }
    for row in [FileRow::NewProject, FileRow::OpenProject, FileRow::About, FileRow::Exit] {
        assert!(row.enabled(&view, Platform::Desktop));
    }
    view.projects.push(project_entry(Vec::new()));
    view.active_path = Some("/mine/pit.incline".to_owned());
    assert!(!FileRow::Save.enabled(&view, Platform::Desktop));
    assert!(FileRow::Save.enabled(&view, Platform::Browser));
    assert!(FileRow::SaveAs.enabled(&view, Platform::Desktop));
    assert!(FileRow::ShowInFileManager.enabled(&view, Platform::Desktop));
    view.projects[0].dirty = true;
    assert!(FileRow::Save.enabled(&view, Platform::Desktop));
}

#[test]
fn file_rows_ask_or_open() {
    let mut view = project_view();
    view.projects.push(project_entry(Vec::new()));
    let mut state = transfer();
    let mut commands = Vec::new();
    state.click_file(FileRow::Save, &view, Platform::Desktop, &mut commands);
    assert!(commands.is_empty());
    for row in [
        FileRow::SaveAs,
        FileRow::NewProject,
        FileRow::OpenProject,
        FileRow::ExportViewportImage,
        FileRow::ExportDrawing,
        FileRow::Preferences,
        FileRow::Exit,
    ] {
        state.click_file(row, &view, Platform::Desktop, &mut commands);
    }
    assert_eq!(
        commands,
        vec![
            UiCommand::SaveProjectAs(7),
            UiCommand::NewProject,
            UiCommand::OpenProject,
            UiCommand::ExportViewportImage,
            UiCommand::OpenPlotDialog,
            UiCommand::OpenPreferences,
            UiCommand::RequestExit,
        ]
    );
    commands.clear();
    state.click_file(FileRow::SaveAs, &view, Platform::Browser, &mut commands);
    state.click_file(FileRow::Import, &view, Platform::Desktop, &mut commands);
    assert!(state.show_import && !state.show_export);
    state.click_file(FileRow::Export, &view, Platform::Desktop, &mut commands);
    assert!(!state.show_import && state.show_export);
    state.click_file(FileRow::About, &view, Platform::Desktop, &mut commands);
    assert!(state.show_about);
    assert!(commands.is_empty());
}

fn remembered(name: &str, is_active: bool) -> UiTrackedProjectEntry {
    UiTrackedProjectEntry {
        name: name.to_owned(),
        is_active,
        dirty: false,
        source: TrackedProject::Path(format!("/mine/{name}.incline")),
        stored_in_browser: false,
    }
}

#[test]
fn recent_lists_leave_out_the_open_project() {
    let mut view = project_view();
    for i in 0..13u32 {
        view.tracked_projects.push(remembered(&i.to_string(), i == 1));
    }
    let names: Vec<&str> = view.recent_projects().iter().map(|entry| entry.name.as_str()).collect();
    assert_eq!(RECENT_PROJECT_LIMIT, 10);
    assert_eq!(names, vec!["0", "2", "3", "4", "5", "6", "7", "8", "9", "10"]);
    assert!(FileRow::OpenRecent.enabled(&view, Platform::Desktop));
    view.tracked_projects.truncate(2);
    assert_eq!(view.recent_projects().len(), 1);
    let mut commands = Vec::new();
    open_recent(&view.tracked_projects[0], &mut commands);
    click_view(ViewToggle::DarkMode, &mut commands);
    assert_eq!(
        commands,
        vec![
            UiCommand::ActivateTrackedProject(TrackedProject::Path("/mine/0.incline".to_owned())),
            UiCommand::ToggleViewOption(ViewToggle::DarkMode),
        ]
    );
}

#[test]
fn workspaces_have_their_own_menus() {
    assert_eq!(
        workspace_menus(P),
        vec![WorkspaceMenu::Design, WorkspaceMenu::Triangulation, WorkspaceMenu::Raster, WorkspaceMenu::PointCloud]
    );
    assert_eq!(workspace_menus(G), vec![WorkspaceMenu::OreTriangulation, WorkspaceMenu::BlockModel]);
    assert!(workspace_menus(B).is_empty() && workspace_menus(L).is_empty());
    assert_eq!(WorkspaceMenu::OreTriangulation.title(), key("ws-menubar-triangulation"));
    assert_eq!(WorkspaceMenu::PointCloud.title(), key("ws-menubar-point-cloud"));
    assert_eq!(WorkspaceMenu::Design.menu_rows().len(), 6);
    assert_eq!(WorkspaceMenu::Triangulation.menu_rows().len(), 7);
    assert_eq!(Submenu::InsertPoint.title(), key("ws-menubar-design-insert-point"));
    assert_eq!(Submenu::MoveTo.title(), key("ws-menubar-design-move-to"));
}

#[test]
fn design_rows_stand_in_submenus() {
    assert_eq!(MenuRow::InsertPointAtElevation.submenu(), Some(Submenu::InsertPoint));
    assert_eq!(MenuRow::SetAxis(Axis::Z).submenu(), Some(Submenu::MoveTo));
    assert_eq!(MenuRow::CreateTriangulation.submenu(), None);
    assert!(MenuRow::SetAxis(Axis::X).opens_section() && !MenuRow::SetAxis(Axis::Y).opens_section());
    assert!(MenuRow::CutWithPitShell.opens_section() && MenuRow::GenerateContours.opens_section());
    assert_eq!(
        MenuRow::SetAxis(Axis::Y).label(),
        plain2("%set% %axis%...", named("set", Arg::Keyed("common-set")), named("axis", Arg::AxisName(Axis::Y)))
    );
    assert_eq!(MenuRow::BuildSolid.label(), literal("Build Solid from Surfaces..."));
}

#[test]
fn menu_rows_wait_for_something_to_work_on() {
    let mut e = editor();
    let mut view = project_view();
    let mut commands = Vec::new();
    for row in [
        MenuRow::InsertPointsAtIntersections,
        MenuRow::InsertPointAtElevation,
        MenuRow::SetAxis(Axis::X),
        MenuRow::UndrapeAll,
        MenuRow::CreateCloudTriangulation,
        MenuRow::CreateOreTriangulation,
        MenuRow::CreateBlockModel,
    ] {
        row.click(&e, &view, &mut commands);
    }
    assert!(commands.is_empty());
    e.selection.selected_handles.insert(SceneEntityId::Triangulation(TriangulationId(1)));
    assert!(!e.design_selected());
    e.selection.selected_handles.insert(SceneEntityId::Object(ObjectId(1)));
    assert!(e.design_selected());
    MenuRow::InsertPointsAtIntersections.click(&e, &view, &mut commands);
    assert!(commands.is_empty());
    e.drawing.canvas.selection_has_intersections = true;
    view.drill_holes.push(dataset(1, "north", true));
    view.point_clouds.push(UiPointCloudEntry {
        id: PointCloudId(1),
        name: "scan".to_owned(),
        source_name: None,
        is_loaded: true,
        dirty: false,
        point_count: 3,
    });
    view.raster_textures.push(UiRasterTextureEntry {
        id: RasterTextureId(1),
        name: "photo".to_owned(),
        source_name: None,
        is_loaded: true,
        dirty: false,
        is_draped: true,
        source_width: 1,
        source_height: 1,
        driver_name: String::new(),
        projection: String::new(),
    });
    for row in [
        MenuRow::InsertPointsAtIntersections,
        MenuRow::InsertPointAtElevation,
        MenuRow::SetAxis(Axis::Z),
        MenuRow::UndrapeAll,
        MenuRow::CreateCloudTriangulation,
        MenuRow::CreateOreTriangulation,
        MenuRow::CreateBlockModel,
        MenuRow::CreateTriangulation,
    ] {
        row.click(&e, &view, &mut commands);
    }
    assert_eq!(
        commands,
        vec![
            UiCommand::InsertPointsAtIntersections,
            UiCommand::OpenInsertPointAtElevationDialog,
            UiCommand::OpenMoveToAxisDialog(Axis::Z),
            UiCommand::UndrapeAllRasters,
            UiCommand::OpenPointCloudTin,
            UiCommand::OpenCreateBlockModel(None),
            UiCommand::OpenCreateTriangulation,
        ]
    );
}

fn dataset(id: u64, name: &str, is_loaded: bool) -> UiDrillHoleEntry {
    UiDrillHoleEntry { id: DrillHoleId(id), name: name.to_owned(), source_name: None, is_loaded, dirty: false, hole_count: 0, field_count: 0 }
}

#[test]
fn project_actions_name_their_shortcuts() {
    let label = |words: &'static str, source: &'static str| plain1(source, named("label", Arg::Words(words)));
    assert_eq!(ProjectAction::Save.label(false), label("Save Project", "%label% (Ctrl+S)"));
    assert_eq!(ProjectAction::Save.label(true), label("Save Project", "%label% (Cmd+S)"));
    assert_eq!(ProjectAction::Undo.label(false), label("Undo", "%label% (Ctrl+Z)"));
    assert_eq!(ProjectAction::Redo.label(false), label("Redo", "%label% (Ctrl+Shift+Z)"));
    assert_eq!(ProjectAction::Redo.label(true), label("Redo", "%label% (Cmd+Shift+Z)"));
    assert_eq!(ProjectAction::Import.label(false), literal("Import..."));
    assert_eq!(ProjectAction::Export.label(true), literal("Export..."));
}

#[test]
fn project_actions_work_where_they_can() {
    let mut e = editor();
    let mut view = project_view();
    let all = [ProjectAction::Save, ProjectAction::Import, ProjectAction::Export, ProjectAction::Undo, ProjectAction::Redo];
    let mut commands = Vec::new();
    for action in all {
        assert!(!e.action_enabled(action, &view, Platform::Desktop));
        e.click_action(action, &view, Platform::Desktop, &mut commands);
    }
    assert!(commands.is_empty() && !e.project.transfer.show_import);
    view.projects.push(project_entry(Vec::new()));
    view.projects[0].dirty = true;
    e.view.status.can_undo = true;
    e.view.status.can_redo = true;
    for action in all {
        e.click_action(action, &view, Platform::Desktop, &mut commands);
    }
    assert_eq!(commands, vec![UiCommand::SaveProject, UiCommand::Undo, UiCommand::Redo]);
    assert!(!e.project.transfer.show_import && e.project.transfer.show_export);
}

#[test]
fn the_middle_of_the_bar_follows_the_workspace() {
    let mut e = editor();
    e.workspace.active = P;
    assert_eq!(e.centre_run(), CentreRun::Drawing);
    e.workspace.active = B;
    assert_eq!(e.centre_run(), CentreRun::Blast);
    assert!(e.reviews_shown() && e.view_tools_shown() && !shows_planning_steps(&e));
    e.workspace.active = G;
    assert_eq!(e.centre_run(), CentreRun::Elevation);
    assert!(!e.reviews_shown());
    e.workspace.active = L;
    assert_eq!(e.centre_run(), CentreRun::Nothing);
    assert!(!e.view_tools_shown() && shows_planning_steps(&e));
    e.planning.pages.solids_step = SolidsStep::Blasting;
    assert_eq!(e.centre_run(), CentreRun::Cut);
    assert_eq!(e.cut_bench_base(), None);
    let mut commands = Vec::new();
    click_subpage(PlanningSubpage::View, &mut commands);
    assert_eq!(commands, vec![UiCommand::SetPlanningSubpage(PlanningSubpage::View)]);
}

#[test]
fn an_elevation_is_taken_up_where_it_is_a_number() {
    let mut e = editor();
    e.drawing.cursor.z_input = d(120.5);
    e.drawing.cursor.settle_elevation();
    assert_eq!(e.drawing.cursor.z_level, d(120.5));
    for value in [f64::NAN, f64::INFINITY, f64::NEG_INFINITY] {
        e.drawing.cursor.z_input = d(value);
        e.drawing.cursor.settle_elevation();
        assert_eq!(e.drawing.cursor.z_level, d(120.5));
    }
}

#[test]
fn long_names_are_cut_to_the_room() {
    let name = "pït01".to_owned();
    let ends: Vec<_> = (1..=5u8).map(|i| f(f32::from(i) * 10.0)).collect();
    assert_eq!(elide(&name, true, &ends, f(0.0)), "pït01");
    assert_eq!(elide(&name, false, &ends, f(30.0)), "pït…");
    assert_eq!(elide(&name, false, &ends, f(29.0)), "pï…");
    assert_eq!(elide(&name, false, &ends, f(5.0)), "…");
    assert_eq!(elide(&name, false, &ends, f(500.0)), "pït01…");
}

#[test]
fn closed_datasets_and_layers_read_as_none() {
    let mut e = editor();
    let mut view = project_view();
    view.drill_holes = vec![dataset(1, "north", true), dataset(2, "south", false), dataset(3, "east", true)];
    view.projects.push(project_entry(vec![layer(1, "pit", true), layer(2, "dump", false)]));
    assert_eq!(view.offered_datasets(), vec![DrillHoleId(1), DrillHoleId(3)]);
    assert_eq!(view.offered_layers(), vec![LayerId(1)]);
    assert_eq!(project_view().offered_layers(), Vec::new());
    assert_eq!(e.drawing.tools.dataset_label(&view), literal("None"));
    assert!(!e.drawing.tools.has_active_dataset(&view));
    e.drawing.tools.active_drill_hole = Some(DrillHoleId(3));
    e.drawing.tools.active_layer = Some(LayerId(1));
    assert_eq!(e.drawing.tools.dataset_label(&view), verbatim("east".to_owned()));
    assert_eq!(e.drawing.tools.layer_label(&view), verbatim("pit".to_owned()));
    assert!(e.drawing.tools.has_active_dataset(&view));
    e.drawing.tools.active_drill_hole = Some(DrillHoleId(2));
    e.drawing.tools.active_layer = Some(LayerId(2));
    assert_eq!(e.drawing.tools.dataset_label(&view), literal("None"));
    assert_eq!(e.drawing.tools.layer_label(&view), literal("None"));
    assert!(!e.drawing.tools.has_active_dataset(&view));
}

#[test]
fn another_dataset_ends_the_tie_in() {
    let mut e = editor();
    e.choose_dataset(Some(DrillHoleId(1)));
    e.blasting.tie.anchor = Some(DrillHoleRef { dataset: DrillHoleId(1), hole: 0 });
    e.choose_dataset(Some(DrillHoleId(1)));
    assert!(e.blasting.tie.anchor.is_some());
    e.choose_dataset(Some(DrillHoleId(2)));
    assert_eq!(e.blasting.tie.anchor, None);
    assert_eq!(e.drawing.tools.active_drill_hole, Some(DrillHoleId(2)));
}

#[test]
fn blast_reviews_have_labels() {
    assert_eq!(BlastReview::BurdenRelief.label(), literal("Burden Relief Heatmap [PLACEHOLDER]"));
    assert_eq!(BlastReview::EqualTime.label(), literal("Contours of Equal Time [PLACEHOLDER]"));
    assert_eq!(BlastReview::Timeline.label(), literal("Blast Timeline [PLACEHOLDER]"));
}

fn lit(words: &'static str, selected: bool) -> BarButton {
    BarButton { label: literal(words), selected }
}

#[test]
fn view_buttons_say_what_a_click_does() {
    let mut e = editor();
    assert_eq!(e.view_button(ViewTool::Grid), lit("Hide XY Grid", true));
    e.view.display.show_xy_grid = false;
    assert_eq!(e.view_button(ViewTool::Grid), lit("Show XY Grid", false));
    e.view.slice.mode_enabled = true;
    e.view.grid.slice_grid_enabled = true;
    assert_eq!(e.view_button(ViewTool::Grid), lit("Hide RL Grid", true));
    e.view.grid.slice_grid_enabled = false;
    assert_eq!(e.view_button(ViewTool::Grid), lit("Show RL Grid", false));
    assert_eq!(e.view_button(ViewTool::Slice), lit("Exit Slice View", true));
    e.view.slice.mode_enabled = false;
    assert_eq!(e.view_button(ViewTool::Slice), lit("Vertical Slice View", false));
    e.drawing.tools.active_tool = ActiveTool::VerticalSlice;
    assert_eq!(e.view_button(ViewTool::Slice), lit("Vertical Slice View", true));
    assert_eq!(e.view_button(ViewTool::Wireframes), lit("Show Wireframes", false));
    e.view.display.topology_wireframes_enabled = true;
    assert_eq!(e.view_button(ViewTool::Wireframes), lit("Hide Wireframes", true));
    assert_eq!(e.view_button(ViewTool::Points), lit("Show Points", false));
    assert_eq!(e.view_button(ViewTool::Fly), lit("Enable Flying Mode", false));
    assert_eq!(e.view_button(ViewTool::Xray), lit("Enable X-Ray Vision", false));
    assert_eq!(e.view_button(ViewTool::ZoomToExtents), lit("Zoom to Extents", false));
    assert_eq!(e.view_button(ViewTool::ResetView), lit("Reset View", false));
}

#[test]
fn the_exaggeration_button_shows_its_ratio() {
    let mut e = editor();
    let button = |ratio: f64, selected: bool| BarButton {
        label: plain2(
            "%label% (%ratio%×)",
            named("label", Arg::Words("Vertical Exaggeration")),
            named("ratio", Arg::Fixed { value: d(ratio), decimals: 2 }),
        ),
        selected,
    };
    assert_eq!(e.view_button(ViewTool::Exaggeration), button(1.0, false));
    e.view.display.vertical_exaggeration = d(2.5);
    assert_eq!(e.view_button(ViewTool::Exaggeration), button(2.5, true));
    let mut commands = Vec::new();
    e.click_view_tool(ViewTool::Exaggeration, &mut commands);
    assert!(e.view.display.vertical_exaggeration_dialog_open && commands.is_empty());
    assert_eq!(e.view.display.vertical_exaggeration_input, d(2.5));
}

#[test]
fn the_rotation_centre_button_is_lit_while_armed_or_set() {
    let mut e = editor();
    let with_key = |words: &'static str, selected: bool| BarButton { label: plain1("%label% (C)", named("label", Arg::Words(words))), selected };
    assert_eq!(e.view_button(ViewTool::RotationCentre), with_key("Fix Centre of Rotation", false));
    e.drawing.tools.active_tool = ActiveTool::PickRotationCentre;
    assert_eq!(e.view_button(ViewTool::RotationCentre), lit("Click a point to fix the centre of rotation", true));
    e.view.display.rotation_centre = Some(v3(1.0, 2.0, 3.0));
    assert_eq!(e.view_button(ViewTool::RotationCentre), with_key("Release Centre of Rotation", true));
}

#[test]
fn view_clicks_become_commands() {
    let mut e = editor();
    let mut commands = Vec::new();
    for tool in [
        ViewTool::Grid,
        ViewTool::Wireframes,
        ViewTool::Points,
        ViewTool::Fly,
        ViewTool::Slice,
        ViewTool::Xray,
        ViewTool::RotationCentre,
        ViewTool::ZoomToExtents,
        ViewTool::ResetView,
    ] {
        e.click_view_tool(tool, &mut commands);
    }
    e.view.slice.mode_enabled = true;
    e.click_view_tool(ViewTool::Slice, &mut commands);
    assert_eq!(
        commands,
        vec![
            UiCommand::SetGridShown(false),
            UiCommand::SetTopologyWireframes(true),
            UiCommand::SetShowPoints(true),
            UiCommand::SetFlyModeEnabled(true),
            UiCommand::SetActiveTool(ActiveTool::VerticalSlice),
            UiCommand::ToggleRotationCentre,
            UiCommand::ZoomToExtents,
            UiCommand::ResetView,
            UiCommand::SetSliceModeEnabled(false),
        ]
    );
    assert!(e.view.display.xray_enabled);
}

#[test]
fn grid_options_open_on_the_grid_in_force() {
    let mut e = editor();
    e.view.open_grid_options();
    assert!(e.view.grid.dialog.is_some_and(|dialog| dialog.plan));
    e.view.slice.mode_enabled = true;
    e.view.open_grid_options();
    assert!(e.view.grid.dialog.is_some_and(|dialog| dialog.plan));
    e.view.grid.dialog = None;
    e.view.open_grid_options();
    assert!(e.view.grid.dialog.is_some_and(|dialog| !dialog.plan));
}

#[test]
fn preferences_have_four_tabs() {
    assert_eq!(preferences_tab(0), Some((PropertyTab::Interface, "Interface")));
    assert_eq!(preferences_tab(1), Some((PropertyTab::Camera, "Camera")));
    assert_eq!(preferences_tab(2), Some((PropertyTab::Performance, "Performance")));
    assert_eq!(preferences_tab(3), Some((PropertyTab::Developer, "Developer")));
    assert_eq!(preferences_tab(4), None);
    let mut e = editor();
    e.take_preferences(Some(PropertyTab::Camera), false);
    assert_ne!(e.workspace.property_tab, PropertyTab::Camera);
    e.view.display.show_preferences = true;
    e.take_preferences(Some(PropertyTab::Camera), true);
    assert_eq!(e.workspace.property_tab, PropertyTab::Camera);
    e.take_preferences(None, false);
    assert!(!e.view.display.show_preferences);
}

fn draft() -> PreferencesDraft {
    PreferencesDraft::from_shipped(startup().preferences)
}

#[test]
fn restoring_a_tab_leaves_the_others_alone() {
    let defaults = draft();
    let mut edited = draft();
    edited.interface.dark_mode = false;
    edited.camera.plan_orbit_sensitivity = d(0.01);
    edited.performance.snap_poll_rate = 5;
    edited.developer.debug_clip_planes = true;
    let mut restored = restore_tab(PropertyTab::Camera, edited, &defaults);
    assert_eq!(restored.camera, defaults.camera);
    assert_eq!(restored.interface, edited.interface);
    assert_eq!(restore_tab(PropertyTab::Reserves, edited, &defaults), edited);
    for tab in [PropertyTab::Interface, PropertyTab::Performance, PropertyTab::Developer] {
        restored = restore_tab(tab, restored, &defaults);
    }
    assert_eq!(restored, defaults);
}

#[test]
fn a_drag_lands_once() {
    assert!(committed(true, false, true));
    assert!(committed(false, true, false));
    assert!(!committed(false, true, true));
    assert!(!committed(false, false, false));
}

#[test]
fn drafts_start_from_what_is_saved() {
    let mut held = None;
    assert_eq!(seed_draft(&mut held, draft()), draft());
    let mut edited = draft();
    edited.interface.dark_mode = false;
    held = Some(edited);
    assert_eq!(seed_draft(&mut held, draft()), edited);
    assert_eq!(held, Some(edited));
}

#[test]
fn finished_edits_are_applied_where_they_differ() {
    let saved = draft();
    let mut edited = draft();
    let mut commands = Vec::new();
    let run = |draft: PreferencesDraft, changed: bool, restore: bool, commands: &mut Vec<UiCommand>| {
        settings_section(&saved, draft, PropertyTab::Camera, &saved, changed, restore, commands)
    };
    assert_eq!(run(saved, true, true, &mut commands), SettingsOutcome { restore_enabled: false, applied: None });
    edited.camera.fly_invert_vertical_look = true;
    assert_eq!(run(edited, false, false, &mut commands), SettingsOutcome { restore_enabled: true, applied: None });
    assert!(commands.is_empty());
    assert_eq!(run(edited, true, false, &mut commands), SettingsOutcome { restore_enabled: true, applied: Some(edited) });
    assert_eq!(run(edited, true, true, &mut commands), SettingsOutcome { restore_enabled: true, applied: Some(saved) });
    assert_eq!(commands, vec![UiCommand::ApplyPreferences(edited), UiCommand::ApplyPreferences(saved)]);
    let mut blurred = draft();
    blurred.camera.plan_zoom_sensitivity = d(f64::NAN);
    assert!(!blurred.same_as(&blurred));
    assert!(draft().same_as(&saved));
}

#[test]
fn the_frame_rate_cap_waits_for_vertical_sync() {
    let mut edited = draft();
    edited.performance.vsync_enabled = true;
    assert_eq!(pacing_fields(true, &edited), (true, false));
    edited.performance.vsync_enabled = false;
    assert_eq!(pacing_fields(false, &edited), (false, true));
}

fn polyline(closed: bool, fill: FillStyle, weight: f32) -> Object {
    Object::Polyline { verts: Vec::new(), closed, fill, line_weight: f(weight), color: ObjectColor::ByLayer }
}

fn drawing() -> Document {
    Document {
        objects: vec![
            (ObjectId(9), polyline(true, FillStyle::Solid, 2.0)),
            (ObjectId(4), polyline(false, FillStyle::Clear, 1.0)),
            (ObjectId(5), Object::Point { pos: v3(0.0, 0.0, 0.0), color: ObjectColor::ByLayer }),
            (
                ObjectId(6),
                Object::Text { pos: v3(0.0, 0.0, 0.0), content: String::new(), height: d(1.0), rotation: d(0.0), color: ObjectColor::ByLayer },
            ),
        ],
        reserve_fields: Vec::new(),
        solids: Vec::new(),
    }
}

#[test]
fn selected_objects_are_grouped_by_kind() {
    let mut e = editor();
    let document = drawing();
    for id in [9, 4, 5, 77] {
        e.selection.selected_handles.insert(SceneEntityId::Object(ObjectId(id)));
    }
    assert_eq!(selected_of_kind(&e, &document, DesignKind::Polylines), vec![ObjectId(4), ObjectId(9)]);
    assert_eq!(selected_of_kind(&e, &document, DesignKind::Points), vec![ObjectId(5)]);
    assert_eq!(selected_of_kind(&e, &document, DesignKind::Texts), Vec::new());
    assert_eq!(DesignKind::Polylines.heading(), key("context-polylines"));
    assert_eq!(DesignKind::Points.heading(), key("context-points"));
    assert_eq!(DesignKind::Texts.heading(), literal("Text"));
}

#[test]
fn headings_part_several_types() {
    let mut e = editor();
    let document = drawing();
    assert!(!shows_headings(&e, &document));
    e.selection.selected_handles.insert(SceneEntityId::Object(ObjectId(4)));
    e.selection.selected_handles.insert(SceneEntityId::Object(ObjectId(9)));
    e.selection.selected_handles.insert(SceneEntityId::Object(ObjectId(77)));
    assert!(!shows_headings(&e, &document));
    e.selection.selected_handles.insert(SceneEntityId::PointCloud(PointCloudId(1)));
    assert!(shows_headings(&e, &document));
    assert_eq!(SelectedType::of(SceneEntityId::Object(ObjectId(6)), &document), Some(SelectedType::Text));
    assert_eq!(SelectedType::of(SceneEntityId::Object(ObjectId(77)), &document), None);
}

fn surface(id: u64, is_loaded: bool, red: f32) -> UiTriangulationEntry {
    UiTriangulationEntry {
        id: TriangulationId(id),
        name: "topo".to_owned(),
        source_name: None,
        is_active: false,
        is_loaded,
        dirty: false,
        color: rgba(red, 0.0, 0.0, 1.0),
    }
}

#[test]
fn face_colours_go_to_every_selected_surface() {
    let mut e = editor();
    let mut view = project_view();
    view.triangulations = vec![surface(1, false, 0.1), surface(2, true, 0.2), surface(3, true, 0.3), surface(4, true, 0.4)];
    assert_eq!(face_colour_targets(&e, &view), (Vec::new(), None));
    for id in [1, 2, 4] {
        e.selection.selected_handles.insert(SceneEntityId::Triangulation(TriangulationId(id)));
    }
    let (ids, first) = face_colour_targets(&e, &view);
    assert_eq!(ids, vec![TriangulationId(2), TriangulationId(4)]);
    assert_eq!(first, Some(rgba(0.2, 0.0, 0.0, 1.0)));
    let mut commands = Vec::new();
    let color = rgba(0.0, 1.0, 0.0, 1.0);
    set_face_colour(&ids, color, &mut commands);
    assert_eq!(
        commands,
        vec![
            UiCommand::SetTriangulationColor(TriangulationId(2), color),
            UiCommand::SetTriangulationColor(TriangulationId(4), color),
        ]
    );
}

#[test]
fn a_single_object_can_be_edited() {
    let mut e = editor();
    let ids = vec![ObjectId(4)];
    e.selection.selected_handles.insert(SceneEntityId::Object(ObjectId(4)));
    assert_eq!(editable_object(&e, &ids), Some(ObjectId(4)));
    assert_eq!(editable_object(&e, &Vec::new()), None);
    e.selection.selected_handles.insert(SceneEntityId::PointCloud(PointCloudId(1)));
    assert_eq!(editable_object(&e, &ids), None);
    let mut commands = Vec::new();
    edit_object(ObjectId(4), &mut commands);
    assert_eq!(commands, vec![UiCommand::OpenObjectEditDialog(ObjectId(4)), UiCommand::CloseCanvasContextMenu]);
}

#[test]
fn moving_to_a_layer_starts_from_the_first() {
    let mut view = project_view();
    let mut dialogs = CanvasDialogs::new();
    let mut commands = Vec::new();
    dialogs.open_move_to_layer(vec![ObjectId(4)], &view, &mut commands);
    let opened = dialogs.move_to_layer.as_ref().unwrap();
    assert_eq!((&opened.object_ids, opened.target_layer, opened.copy), (&vec![ObjectId(4)], None, false));
    view.projects.push(project_entry(vec![layer(3, "pit", false), layer(1, "dump", true)]));
    dialogs.open_move_to_layer(vec![ObjectId(4)], &view, &mut commands);
    assert_eq!(dialogs.move_to_layer.map(|dialog| dialog.target_layer), Some(Some(LayerId(3))));
    assert_eq!(commands, vec![UiCommand::CloseCanvasContextMenu, UiCommand::CloseCanvasContextMenu]);
}

#[test]
fn groups_start_from_their_first_object() {
    let document = drawing();
    assert_eq!(
        DesignSeed::of(&vec![ObjectId(9), ObjectId(4)], &document),
        DesignSeed { closed: true, fill: FillStyle::Solid, line_weight: f(2.0) }
    );
    let plain = DesignSeed { closed: false, fill: FillStyle::Clear, line_weight: f(1.0) };
    assert_eq!(DesignSeed::of(&Vec::new(), &document), plain);
    assert_eq!(DesignSeed::of(&vec![ObjectId(5)], &document), plain);
    assert_eq!(colour_label(&vec![ObjectId(6)], &document), key("context-text-colour"));
    assert_eq!(colour_label(&vec![ObjectId(4), ObjectId(6)], &document), literal("Line colour"));
}

#[test]
fn design_edits_write_to_the_whole_group() {
    let ids = vec![ObjectId(4), ObjectId(9)];
    let seed = DesignSeed { closed: false, fill: FillStyle::Clear, line_weight: f(1.0) };
    let untouched = DesignEdit { color: None, closed: false, fill: FillStyle::Clear, line_weight: f(1.0), weight_committed: false };
    let mut commands = vec![UiCommand::Undo];
    assert!(!edit_design(&ids, DesignKind::Polylines, seed, untouched, &mut commands));
    assert_eq!(commands.len(), 1);
    let red = rgba(1.0, 0.0, 0.0, 1.0);
    let edit = DesignEdit { color: Some(red), closed: true, fill: FillStyle::Slashes, line_weight: f(3.0), weight_committed: true };
    assert!(edit_design(&ids, DesignKind::Polylines, seed, edit, &mut commands));
    assert!(edit_design(&vec![ObjectId(5)], DesignKind::Points, seed, edit, &mut commands));
    assert_eq!(
        commands,
        vec![
            UiCommand::Undo,
            UiCommand::BatchSetObjectColor(ids.clone(), ObjectColor::Fixed(red)),
            UiCommand::BatchSetPolylineClosed(ids.clone(), true),
            UiCommand::BatchSetObjectFill(ids.clone(), FillStyle::Slashes),
            UiCommand::BatchSetPolylineLineWeight(ids.clone(), f(3.0)),
            UiCommand::BatchSetObjectColor(vec![ObjectId(5)], ObjectColor::Fixed(red)),
        ]
    );
}

#[test]
fn a_dragged_line_weight_is_kept_until_the_selection_changes() {
    let mut dialogs = CanvasDialogs::new();
    let ids = vec![ObjectId(4)];
    assert_eq!(dialogs.seed_line_weight(&ids, f(1.0)), f(1.0));
    dialogs.line_weight_input = Some((ids.clone(), f(2.5)));
    assert_eq!(dialogs.seed_line_weight(&ids, f(1.0)), f(2.5));
    assert_eq!(dialogs.seed_line_weight(&vec![ObjectId(4), ObjectId(9)], f(1.0)), f(1.0));
}

fn block_model(id: u64, loaded: bool) -> OpenBlockModel {
    OpenBlockModel {
        id: BlockModelId(id),
        name: "model".to_owned(),
        loaded,
        lower: v3(0.0, 0.0, 0.0),
        upper: v3(1.0, 1.0, 1.0),
        included_in_reserves: false,
        reserve_mapping: Vec::new(),
        numeric_columns: Vec::new(),
        categorical_columns: Vec::new(),
        reserve_totals: Vec::new(),
        reserve_totals_error: None,
        reserve_totals_awaiting_restore: false,
        reserve_totals_requested: false,
    }
}

#[test]
fn a_selected_block_model_comes_into_the_viewport() {
    let mut e = editor();
    let models = vec![block_model(1, false), block_model(2, true), block_model(3, true)];
    for id in [1, 2, 3] {
        e.selection.selected_handles.insert(SceneEntityId::BlockModel(BlockModelId(id)));
    }
    let selected = selected_block_models(&e, &models);
    assert_eq!(selected, vec![BlockModelId(2), BlockModelId(3)]);
    let mut state = BlockModelState::new(100);
    assert!(!state.controls_shown(&models));
    state.adopt_selected(&selected, false);
    assert_eq!(state.viewport_model_id, None);
    state.adopt_selected(&selected, true);
    assert_eq!(state.viewport_model_id, Some(BlockModelId(2)));
    state.viewport_model_id = Some(BlockModelId(3));
    state.adopt_selected(&selected, true);
    assert_eq!(state.viewport_model_id, Some(BlockModelId(3)));
    assert!(state.controls_shown(&models));
    state.viewport_model_id = Some(BlockModelId(1));
    assert!(!state.controls_shown(&models));
    state.adopt_selected(&Vec::new(), true);
    assert_eq!(state.viewport_model_id, Some(BlockModelId(1)));
}
