//! The planning setup: stages, reserves, benching and the solid preview.
use incline_ui::benching::{Bench, BenchRow, Flitch, empty_note, finish_benching, flitch_position_label, result_rows};
use incline_ui::command::UiCommand;
use incline_ui::document::{Document, OpenBlockModel, ReserveField, ReserveFieldMapping, ReserveStats, Solid};
use incline_ui::editor::{EditorState, SeedNames, Startup};
use incline_ui::ids::{BlockModelId, LanguageChoice, RenameTarget, ReserveFieldId, SolidId, TriangulationId};
use incline_ui::model::{BenchInterval, BenchingPlan, FillStyle, FlitchStyle, ReserveAggregation, ReserveMappingSource, SolidEdit, SolidKind};
use incline_ui::number::{Pair64, Pixel, Real32, Real64, Rgba, Vec3};
use incline_ui::planning_setup::{DIAGNOSTIC_LIMIT, ListClick, MappingChoice, RunClick, SetupContent, StageBadge, StageLink, aggregation_summary, category_labels, current_category, figure, new_item_label, pattern_label, stage_badge, stage_links, total_label};
use incline_ui::preferences::{InterfacePreferences, PerformancePreferences, ShippedPreferences};
use incline_ui::project_view::UiBlockModelEntry;
use incline_ui::solid_preview::{DragButtons, DragResult, PreviewCursor, preview_cursor};
use incline_ui::state::planning::{BenchSelection, PlanningStageView, PlanningState, PlanningWorkspace, SolidPreviewState, SolidPreviewSummary, StageDiagnostic, StageState, StageStates, StageSummary};
use incline_ui::text::{Arg, key, key1, key2, literal, literal1, literal2, literal3, named, only, plain, plain1, plain2, verbatim};
use incline_ui::tools::StandardView;
use incline_ui::views::{SizePx, SolidPreviewView, TextureId};
use incline_ui::workspace::{PlanningPage, PlanningSubpage, SolidsStep, Workspace};

fn d(value: f64) -> Real64 {
    Real64 { bits: value.to_bits() }
}

fn f(value: f32) -> Real32 {
    Real32 { bits: value.to_bits() }
}

fn rgba(r: f32, g: f32, b: f32, a: f32) -> Rgba {
    Rgba { r: f(r), g: f(g), b: f(b), a: f(a) }
}

fn startup() -> Startup {
    Startup {
        preferences: ShippedPreferences {
            language: LanguageChoice(0),
            interface: InterfacePreferences {
                renderer_background_color: rgba(0.1, 0.2, 0.3, 1.0),
                dark_mode: true,
                show_console: true,
                panel_chrome: true,
                show_world_axis_gizmo: true,
                show_scale_bar: true,
            },
            performance: PerformancePreferences {
                snap_poll_rate: 60,
                vsync_enabled: true,
                frame_rate_cap: 120,
                resize_frame_rate_cap: 30,
                block_model_interaction_resolution_divisor: 2,
                show_block_model_boundary_highlights: true,
                downscale_raster_previews: true,
            },
            plan_orbit_sensitivity: d(1.0),
            plan_zoom_sensitivity: d(1.0),
            plan_zoom_towards_cursor: true,
            fly_field_of_view_degrees: d(70.0),
            fly_mouse_look_sensitivity: d(1.0),
            fly_near_clip_limit: d(0.1),
            fly_max_clip_span: d(10000.0),
        },
        products: Vec::new(),
        first_color_stop: 100,
        names: SeedNames {
            drill_pattern: "Drill Pattern".to_owned(),
            layer: "Design".to_owned(),
            contours: "Surface Contours".to_owned(),
            surface: "Surface".to_owned(),
            block_model: "Kriged Block Model".to_owned(),
        },
    }
}

fn editor() -> EditorState {
    EditorState::new(startup())
}

fn v3(x: f64, y: f64, z: f64) -> Vec3 {
    Vec3 { x: d(x), y: d(y), z: d(z) }
}

fn px(x: f32, y: f32) -> Pixel {
    Pixel { x: f(x), y: f(y) }
}

fn pair(x: f64, y: f64) -> Pair64 {
    Pair64 { x: d(x), y: d(y) }
}

fn field(id: u64, name: &str, aggregation: ReserveAggregation) -> ReserveField {
    ReserveField { id: ReserveFieldId(id), name: name.to_owned(), aggregation }
}

fn document() -> Document {
    Document {
        objects: Vec::new(),
        reserve_fields: vec![
            field(1, "tonnes", ReserveAggregation::Sum),
            field(2, "grade", ReserveAggregation::WeightedAverage { weight_field: ReserveFieldId(1) }),
            field(3, "rock", ReserveAggregation::Category),
        ],
        solids: vec![solid(4, SolidKind::Pit), solid(5, SolidKind::Dump)],
    }
}

fn solid(id: u64, kind: SolidKind) -> Solid {
    Solid {
        id: SolidId(id),
        name: "north".to_owned(),
        kind,
        color: rgba(1.0, 0.5, 0.0, 1.0),
        surface: Some(TriangulationId(8)),
        topography: None,
        block_model: None,
        benching: plan(Vec::new()),
    }
}

fn plan(bases: Vec<f64>) -> BenchingPlan {
    BenchingPlan { top: d(100.0), intervals: bases.into_iter().map(interval).collect() }
}

fn interval(base: f64) -> BenchInterval {
    BenchInterval { base: d(base), bench: d(10.0), flitch: d(2.5), styles: Vec::new() }
}

fn bases(plan: &BenchingPlan) -> Vec<f64> {
    plan.intervals.iter().map(|interval| f64::from_bits(interval.base.bits)).collect()
}

fn style(grey: f32) -> FlitchStyle {
    FlitchStyle { color: rgba(grey, grey, grey, 1.0), pattern_color: rgba(0.0, 0.0, 0.0, 1.0), pattern: FillStyle::Slashes }
}

fn stats(total: Option<f64>) -> ReserveStats {
    ReserveStats { total: total.map(d), min: None, max: None, issue: None, missing_values: 0, unusable_weights: 0 }
}

fn model() -> OpenBlockModel {
    OpenBlockModel {
        id: BlockModelId(6),
        name: "resource".to_owned(),
        loaded: true,
        lower: v3(0.0, 0.0, 0.0),
        upper: v3(10.0, 20.0, 30.0),
        included_in_reserves: true,
        reserve_mapping: vec![
            ReserveFieldMapping { field: ReserveFieldId(1), source: ReserveMappingSource::Constant(d(2.7)) },
            ReserveFieldMapping { field: ReserveFieldId(3), source: ReserveMappingSource::Column("ROCK".to_owned()) },
        ],
        numeric_columns: vec!["FE".to_owned(), "AU".to_owned()],
        categorical_columns: vec!["ROCK".to_owned()],
        reserve_totals: Vec::new(),
        reserve_totals_error: None,
        reserve_totals_awaiting_restore: false,
        reserve_totals_requested: false,
    }
}

fn stages(states: [StageState; 6]) -> StageStates {
    let mut r = StageStates::new();
    r.field_list.state = states[0];
    r.block_models.state = states[1];
    r.solids.state = states[2];
    r.benching.state = states[3];
    r.blasting.state = states[4];
    r.dig_strips.state = states[5];
    r
}

#[test]
fn green_links_reach_the_first_unsettled_stage() {
    use_links(
        [StageState::Complete, StageState::Complete, StageState::Running, StageState::Complete, StageState::Pending, StageState::Pending],
        vec![StageLink::Complete, StageLink::Complete],
    );
    use_links([StageState::Complete; 6], vec![StageLink::Complete; 5]);
    use_links([StageState::Pending; 6], Vec::new());
}

fn use_links(states: [StageState; 6], expected: Vec<StageLink>) {
    assert_eq!(stage_links(&stages(states).states()), expected);
}

#[test]
fn red_links_follow_a_broken_stage() {
    use_links(
        [StageState::Complete, StageState::Failed, StageState::Complete, StageState::Blocked, StageState::Pending, StageState::Complete],
        vec![StageLink::Complete, StageLink::Broken, StageLink::Broken, StageLink::Broken],
    );
    assert_eq!(stage_links(&vec![StageState::Failed]), Vec::new());
    assert_eq!(stage_links(&Vec::new()), Vec::new());
    assert_eq!(stage_links(&vec![StageState::Failed, StageState::Pending]), vec![StageLink::Broken]);
}

#[test]
fn badges_follow_the_icon() {
    assert_eq!(stage_badge(&"step_complete.svg".to_owned()), StageBadge::Complete);
    assert_eq!(stage_badge(&"step_error.svg".to_owned()), StageBadge::Error);
    assert_eq!(stage_badge(&"step_pending.svg".to_owned()), StageBadge::Pending);
    assert_eq!(stage_badge(&String::new()), StageBadge::Pending);
    assert!(StageState::Failed.tinted_as_error());
    assert!(StageState::Blocked.tinted_as_error());
    assert!(!StageState::Running.tinted_as_error());
}

#[test]
fn progress_counts_complete_stages() {
    let mut e = editor();
    e.planning.stages = stages(
        [StageState::Complete, StageState::Complete, StageState::Running, StageState::Failed, StageState::Complete, StageState::Running],
    );
    assert_eq!(e.planning.stages.completed(), 3);
    assert_eq!(e.planning.stages.running(), Some(SolidsStep::Solids));
    assert_eq!(e.progress_label(), key2("stage-progress", named("done", Arg::Count(3)), named("total", Arg::Count(6))));
    assert_eq!(StageStates::new().running(), None);
    assert_eq!(StageStates::new().completed(), 0);
}

#[test]
fn progress_tells_of_the_running_step_first() {
    let mut e = editor();
    e.workspace.active = Workspace::Planning;
    e.planning.pages.solids_step = SolidsStep::Benching;
    assert_eq!(e.reported_step(), SolidsStep::Benching);
    assert!(e.offers_run_step());
    e.planning.pages.solids_subpage = PlanningSubpage::View;
    assert_eq!(e.reported_step(), SolidsStep::DigStrips);
    assert!(!e.offers_run_step());
    e.planning.stages.block_models.state = StageState::Running;
    assert_eq!(e.reported_step(), SolidsStep::BlockModels);
}

#[test]
fn runs_are_started_or_cancelled() {
    let mut pages = PlanningState::new();
    let clicks = [RunClick::RunStep(SolidsStep::Solids), RunClick::RunAll, RunClick::Cancel];
    let mut commands = Vec::new();
    for click in clicks {
        pages.click_run(click, &mut commands);
    }
    assert_eq!(commands, vec![UiCommand::RunPlanningStage(SolidsStep::Solids), UiCommand::RunAllPlanningStages]);
    pages.run_active = true;
    commands.clear();
    for click in clicks {
        pages.click_run(click, &mut commands);
    }
    assert_eq!(commands, vec![UiCommand::CancelPlanningRun]);
    assert!(!pages.run_enabled(RunClick::RunAll));
    assert!(pages.run_enabled(RunClick::Cancel));
}

#[test]
fn stage_notes_say_what_blocks_and_what_ran() {
    let mut stage = PlanningStageView::new();
    assert_eq!(stage.notes(), Vec::new());
    stage.blocked_by = Some(SolidsStep::Solids);
    stage.message = Some("stale".to_owned());
    stage.last_success = Some(StageSummary { generation: 4, entities: 12 });
    assert_eq!(
        stage.notes(),
        vec![
            key1("stage-blocked-by", named("stage", Arg::StepName(SolidsStep::Solids))),
            verbatim("stale".to_owned()),
            key2("stage-last-run", named("generation", Arg::Number(4)), named("entities", Arg::Count(12))),
        ]
    );
}

#[test]
fn twelve_diagnostics_are_listed() {
    let mut stage = PlanningStageView::new();
    for i in 0..12u32 {
        stage.diagnostics.push(StageDiagnostic { entity: None, message: i.to_string(), blocking: i == 0 });
    }
    let (lines, more) = stage.diagnostic_lines();
    assert_eq!(DIAGNOSTIC_LIMIT, 12);
    assert_eq!(lines.len(), 12);
    assert_eq!(more, None);
    assert_eq!(lines[0].text, verbatim("0".to_owned()));
    assert!(lines[0].blocking && !lines[1].blocking);
    stage.diagnostics.insert(0, StageDiagnostic { entity: Some("north".to_owned()), message: "open".to_owned(), blocking: false });
    stage.diagnostics.insert(0, StageDiagnostic { entity: None, message: "x".to_owned(), blocking: false });
    let (lines, more) = stage.diagnostic_lines();
    assert_eq!(lines.len(), 12);
    assert_eq!(
        lines[1].text,
        plain2("%entity%: %message%", named("entity", Arg::Name("north".to_owned())), named("message", Arg::Name("open".to_owned())))
    );
    assert_eq!(more, Some(plain1("… %count%", named("count", Arg::Count(2)))));
}

#[test]
fn aggregations_are_summed_up() {
    let document = document();
    assert_eq!(aggregation_summary(&document, &ReserveAggregation::Sum), literal("Sum"));
    assert_eq!(aggregation_summary(&document, &ReserveAggregation::Category), literal("Category"));
    assert_eq!(
        aggregation_summary(&document, &ReserveAggregation::WeightedAverage { weight_field: ReserveFieldId(1) }),
        literal1("Weighted avg. by %name%", named("name", Arg::Name("tonnes".to_owned())))
    );
    assert_eq!(
        aggregation_summary(&document, &ReserveAggregation::WeightedAverage { weight_field: ReserveFieldId(99) }),
        literal1("Weighted avg. by %name%", named("name", Arg::Words("?")))
    );
    assert_eq!(
        document.reserve_fields[0].row_label(&document),
        literal2("%name% · %aggregation%", named("name", Arg::Name("tonnes".to_owned())), named("aggregation", Arg::Words("Sum")))
    );
    assert_eq!(
        document.reserve_fields[1].row_label(&document),
        literal2(
            "%name% · %aggregation%",
            named("name", Arg::Name("grade".to_owned())),
            named(
                "aggregation",
                Arg::NamePhrase { words: "Weighted avg. by %name%", name: "name", value: Some("tonnes".to_owned()), otherwise: "?" }
            )
        )
    );
}

#[test]
fn the_document_finds_the_first_match() {
    let mut document = document();
    document.reserve_fields.push(field(1, "again", ReserveAggregation::Category));
    assert_eq!(document.reserve_field(ReserveFieldId(1)).map(|field| field.name.clone()), Some("tonnes".to_owned()));
    assert!(document.reserve_field(ReserveFieldId(50)).is_none());
    assert_eq!(document.solid(SolidId(5)).map(|solid| solid.kind), Some(SolidKind::Dump));
    assert!(document.solid(SolidId(6)).is_none());
}

#[test]
fn list_clicks_ask_or_open() {
    let mut planning = PlanningWorkspace::new();
    let mut commands = Vec::new();
    for click in [
        ListClick::RenameField(ReserveFieldId(1)),
        ListClick::DeleteField(ReserveFieldId(1)),
        ListClick::RenameSolid(SolidId(4)),
        ListClick::DeleteSolid(SolidId(4)),
        ListClick::NewField,
        ListClick::NewSolid,
        ListClick::SelectBlockModel(BlockModelId(6)),
    ] {
        assert!(!planning.click_list(click, &mut commands));
    }
    assert_eq!(
        commands,
        vec![
            UiCommand::BeginRenameItem(RenameTarget::ReserveField(ReserveFieldId(1))),
            UiCommand::DeleteReserveField(ReserveFieldId(1)),
            UiCommand::BeginRenameItem(RenameTarget::Solid(SolidId(4))),
            UiCommand::DeleteSolid(SolidId(4)),
        ]
    );
    assert!(planning.drafts.field_open && planning.drafts.solid_open);
    assert_eq!(planning.pages.selected_block_model, Some(BlockModelId(6)));
}

#[test]
fn selecting_another_solid_drops_the_picked_slice() {
    let mut planning = PlanningWorkspace::new();
    let mut commands = Vec::new();
    let slice = BenchSelection { base: d(0.0), top: d(10.0), is_flitch: false };
    assert!(planning.click_list(ListClick::SelectSolid(SolidId(4)), &mut commands));
    planning.pages.selected_bench = Some(slice);
    assert!(!planning.click_list(ListClick::SelectSolid(SolidId(4)), &mut commands));
    assert_eq!(planning.pages.selected_bench, Some(slice));
    assert!(planning.click_list(ListClick::SelectSolid(SolidId(5)), &mut commands));
    assert_eq!(planning.pages.selected_bench, None);
    assert_eq!(planning.pages.selected_solid, Some(SolidId(5)));
    assert!(commands.is_empty());
}

#[test]
fn unsaved_block_models_are_marked() {
    let mut entry = UiBlockModelEntry {
        id: BlockModelId(6),
        name: "resource".to_owned(),
        source_name: None,
        is_loaded: true,
        dirty: false,
        block_count: 1200,
        variable_count: 3,
        lower: v3(0.0, 1.0, 2.0),
        upper: v3(3.0, 4.0, 5.0),
    };
    let row = |name: &str| literal2("%name% · %count% blocks", named("name", Arg::Name(name.to_owned())), named("count", Arg::Count(1200)));
    assert_eq!(entry.row_label(), row("resource"));
    entry.dirty = true;
    assert_eq!(entry.row_label(), row("resource *"));
    assert_eq!(
        entry.extents_text(),
        literal2(
            "Extents: %lower% → %upper%",
            named("lower", Arg::PointFixed { value: v3(0.0, 1.0, 2.0), decimals: 1 }),
            named("upper", Arg::PointFixed { value: v3(3.0, 4.0, 5.0), decimals: 1 })
        )
    );
}

#[test]
fn only_pits_are_flagged_without_a_block_model() {
    let mut pit = solid(4, SolidKind::Pit);
    assert_eq!(pit.reserve_warning(), Some(literal("Set a block model to reserve this pit")));
    assert_eq!(solid(5, SolidKind::Dump).reserve_warning(), None);
    assert_eq!(solid(5, SolidKind::Stockpile).reserve_warning(), None);
    pit.block_model = Some(BlockModelId(6));
    assert_eq!(pit.reserve_warning(), None);
    assert_eq!(
        pit.row_label(),
        literal2("%name% · %kind%", named("name", Arg::Name("north".to_owned())), named("kind", Arg::SolidKindName(SolidKind::Pit)))
    );
    let mut commands = Vec::new();
    pit.update(SolidEdit::Kind(SolidKind::Dump), &mut commands);
    assert_eq!(commands, vec![UiCommand::UpdateSolid { solid: SolidId(4), edit: SolidEdit::Kind(SolidKind::Dump) }]);
}

#[test]
fn mappings_show_as_choices() {
    let model = model();
    assert_eq!(MappingChoice::of(&model.reserve_mapping, ReserveFieldId(1)), MappingChoice::Constant);
    assert_eq!(MappingChoice::of(&model.reserve_mapping, ReserveFieldId(2)), MappingChoice::Unmapped);
    assert_eq!(MappingChoice::of(&model.reserve_mapping, ReserveFieldId(3)), MappingChoice::Column("ROCK".to_owned()));
    assert_eq!(MappingChoice::Unmapped.label(), literal("Unmapped"));
    assert_eq!(MappingChoice::Constant.label(), literal("Constant"));
    assert_eq!(MappingChoice::Column("FE".to_owned()).label(), verbatim("FE".to_owned()));
    assert_eq!(model.mapped_constant(ReserveFieldId(1)), Some(d(2.7)));
    assert_eq!(model.mapped_constant(ReserveFieldId(3)), None);
}

#[test]
fn a_chosen_mapping_is_the_one_shown() {
    for choice in [MappingChoice::Constant, MappingChoice::Column("AU".to_owned())] {
        let source = choice.source().unwrap();
        let mapping = vec![ReserveFieldMapping { field: ReserveFieldId(2), source }];
        assert!(MappingChoice::of(&mapping, ReserveFieldId(2)).same_as(&choice));
    }
    assert_eq!(MappingChoice::Unmapped.source(), None);
    assert_eq!(MappingChoice::Constant.source(), Some(ReserveMappingSource::Constant(d(0.0))));
    assert!(!MappingChoice::Column("AU".to_owned()).same_as(&MappingChoice::Column("FE".to_owned())));
}

#[test]
fn categories_map_to_categorical_columns() {
    let model = model();
    assert_eq!(
        model.options(ReserveAggregation::Category),
        vec![MappingChoice::Unmapped, MappingChoice::Column("ROCK".to_owned())]
    );
    assert_eq!(
        model.options(ReserveAggregation::Sum),
        vec![
            MappingChoice::Unmapped,
            MappingChoice::Constant,
            MappingChoice::Column("FE".to_owned()),
            MappingChoice::Column("AU".to_owned()),
        ]
    );
}

#[test]
fn mapping_edits_become_commands() {
    let model = model();
    let mut commands = Vec::new();
    model.choose_mapping(ReserveFieldId(1), &MappingChoice::Constant, &mut commands);
    model.choose_mapping(ReserveFieldId(3), &MappingChoice::Column("ROCK".to_owned()), &mut commands);
    model.set_included(true, &mut commands);
    assert!(commands.is_empty());
    model.choose_mapping(ReserveFieldId(1), &MappingChoice::Unmapped, &mut commands);
    model.set_constant(ReserveFieldId(1), d(3.0), &mut commands);
    model.set_included(false, &mut commands);
    model.recompute(&mut commands);
    let block_model = BlockModelId(6);
    assert_eq!(
        commands,
        vec![
            UiCommand::SetReserveMapping { block_model, field: ReserveFieldId(1), source: None },
            UiCommand::SetReserveMapping {
                block_model,
                field: ReserveFieldId(1),
                source: Some(ReserveMappingSource::Constant(d(3.0))),
            },
            UiCommand::SetReserveModelIncluded { block_model, included: false },
            UiCommand::RecomputeReserveStats(block_model),
        ]
    );
}

#[test]
fn a_missing_total_says_why() {
    let mut model = model();
    let id = ReserveFieldId(1);
    assert_eq!(model.reason(id), Some(key("planning-stat-not-scanned")));
    model.reserve_totals_requested = true;
    assert_eq!(model.reason(id), Some(key("planning-stat-scanning")));
    model.reserve_totals_awaiting_restore = true;
    assert_eq!(model.reason(id), Some(key("planning-stat-loading")));
    model.reserve_totals_error = Some("disk".to_owned());
    assert_eq!(model.reason(id), Some(key1("planning-stat-scan-failed", named("error", Arg::Name("disk".to_owned())))));
    model.reserve_totals.push((id, stats(Some(12.0))));
    assert_eq!(model.reason(id), None);
    assert_eq!(model.gaps(id), None);
    assert_eq!(model.stats(id).and_then(|stats| stats.total), Some(d(12.0)));
    model.reserve_totals[0].1.issue = Some("column gone".to_owned());
    model.reserve_totals[0].1.missing_values = 3;
    assert_eq!(model.reason(id), Some(verbatim("column gone".to_owned())));
    assert_eq!(
        model.gaps(id),
        Some(key2("stage-model-data-gaps", named("missing", Arg::Number(3)), named("weights", Arg::Number(0))))
    );
}

#[test]
fn figures_have_two_decimals_or_a_dash() {
    assert_eq!(figure(Some(d(1.5))), only(Arg::Fixed { value: d(1.5), decimals: 2 }));
    assert_eq!(figure(None), plain("—"));
    assert_eq!(total_label(ReserveAggregation::Sum), key("planning-stat-sum"));
    assert_eq!(total_label(ReserveAggregation::WeightedAverage { weight_field: ReserveFieldId(1) }), key("planning-stat-avg"));
}

#[test]
fn patterns_and_categories_have_labels() {
    assert_eq!(pattern_label(FillStyle::Clear), literal("None"));
    assert_eq!(pattern_label(FillStyle::Crosses), literal("Crosses"));
    assert_eq!(pattern_label(FillStyle::Slashes), literal("Slashes"));
    assert_eq!(pattern_label(FillStyle::Solid), literal("Solid"));
    assert_eq!(
        category_labels(),
        [key("planning-dumps"), key("planning-stockpiles"), key("planning-loaders"), key("planning-trucks")]
    );
    assert_eq!(new_item_label(0), key("planning-new-dump"));
    assert_eq!(new_item_label(1), key("planning-new-stockpile"));
    assert_eq!(new_item_label(2), key("planning-new-loader"));
    assert_eq!(new_item_label(3), key("planning-new-truck"));
    assert_eq!(current_category(None), 0);
    assert_eq!(current_category(Some(2)), 2);
    assert_eq!(current_category(Some(9)), 3);
}

#[test]
fn steps_fill_the_window_with_their_own_content() {
    let mut pages = PlanningState::new();
    for (step, content) in [
        (SolidsStep::FieldList, SetupContent::FieldList),
        (SolidsStep::BlockModels, SetupContent::BlockModels),
        (SolidsStep::Solids, SetupContent::Solids),
        (SolidsStep::Benching, SetupContent::Benching),
        (SolidsStep::Blasting, SetupContent::Viewport),
        (SolidsStep::DigStrips, SetupContent::Viewport),
    ] {
        pages.select_step(step);
        assert_eq!(pages.content(true, Some(1)), content);
    }
    pages.page = PlanningPage::Haulage;
    assert_eq!(pages.content(true, Some(1)), SetupContent::Configuration);
    assert_eq!(pages.content(false, Some(1)), SetupContent::Items(1));
    assert_eq!(pages.content(false, Some(7)), SetupContent::Items(3));
    assert_eq!(pages.content(false, None), SetupContent::Items(0));
}

#[test]
fn flitch_positions_are_named_at_the_ends() {
    assert_eq!(flitch_position_label(0, 1), literal("Top flitch"));
    assert_eq!(flitch_position_label(0, 4), literal("Top flitch"));
    assert_eq!(flitch_position_label(3, 4), literal("Bottom flitch"));
    assert_eq!(flitch_position_label(1, 4), literal1("Flitch %index%", named("index", Arg::Count(2))));
}

#[test]
fn flitch_heights_are_questioned() {
    let range = interval(0.0);
    assert_eq!(range.flitch_warning(d(4.0), true), None);
    assert_eq!(range.flitch_warning(d(64.0), true), None);
    assert_eq!(range.flitch_warning(d(65.0), true), Some(key("planning-too-many-flitches")));
    assert_eq!(range.flitch_warning(d(65.0), false), Some(key("planning-too-many-flitches")));
    let uneven = literal2(
        "A %bench% m bench is not a whole number of %flitch% m flitches",
        named("bench", Arg::Fixed { value: d(10.0), decimals: 2 }),
        named("flitch", Arg::Fixed { value: d(2.5), decimals: 2 }),
    );
    assert_eq!(range.flitch_warning(d(5.0), false), Some(uneven));
    let flat = BenchInterval { flitch: d(0.0), ..interval(0.0) };
    assert_eq!(flat.flitch_warning(d(f64::INFINITY), true), None);
}

#[test]
fn styles_are_fitted_to_the_flitches() {
    let mut range = interval(0.0);
    let defaults = vec![style(0.1), style(0.2), style(0.3)];
    assert!(range.settle_styles(&defaults));
    assert_eq!(range.styles, defaults);
    range.styles[1] = style(0.9);
    assert!(!range.settle_styles(&defaults));
    assert!(range.settle_styles(&vec![style(0.4), style(0.5)]));
    assert_eq!(range.styles, vec![style(0.1), style(0.9)]);
    assert!(range.settle_styles(&defaults));
    assert_eq!(range.styles, vec![style(0.1), style(0.9), style(0.3)]);
}

fn two_benches() -> Vec<Bench> {
    let bench = |base: f64| Bench {
        base: d(base),
        top: d(base + 10.0),
        height: d(10.0),
        flitches: vec![Flitch { base: d(base + 5.0), top: d(base + 10.0) }, Flitch { base: d(base), top: d(base + 5.0) }],
    };
    vec![bench(10.0), bench(0.0)]
}

fn slices(rows: &Vec<BenchRow>) -> Vec<(f64, f64, bool)> {
    rows.iter().map(|row| (f64::from_bits(row.slice.base.bits), f64::from_bits(row.slice.top.bits), row.slice.is_flitch)).collect()
}

#[test]
fn results_list_every_slice_bottom_up() {
    let rows = result_rows(&two_benches(), None);
    assert_eq!(
        slices(&rows),
        vec![
            (0.0, 10.0, false),
            (0.0, 5.0, true),
            (5.0, 10.0, true),
            (10.0, 20.0, false),
            (10.0, 15.0, true),
            (15.0, 20.0, true),
        ]
    );
    assert_eq!(
        rows[0].label,
        literal3(
            "%base% → %top% (%height% m)",
            named("base", Arg::Fixed { value: d(0.0), decimals: 2 }),
            named("top", Arg::Fixed { value: d(10.0), decimals: 2 }),
            named("height", Arg::Fixed { value: d(10.0), decimals: 2 })
        )
    );
    assert_eq!(
        rows[1].label,
        literal2(
            "    %base% → %top%",
            named("base", Arg::Fixed { value: d(0.0), decimals: 2 }),
            named("top", Arg::Fixed { value: d(5.0), decimals: 2 })
        )
    );
}

#[test]
fn results_leave_out_slices_without_any_solid() {
    assert_eq!(slices(&result_rows(&two_benches(), Some(pair(6.0, 10.0)))), vec![(0.0, 10.0, false), (5.0, 10.0, true)]);
    assert_eq!(slices(&result_rows(&two_benches(), Some(pair(10.0, 12.0)))), vec![(10.0, 20.0, false), (10.0, 15.0, true)]);
    assert!(result_rows(&two_benches(), Some(pair(30.0, 40.0))).is_empty());
    assert_eq!(empty_note(&plan(Vec::new())), literal("No benches yet - add a range"));
    assert_eq!(empty_note(&plan(vec![0.0])), literal("No bench holds any of this solid"));
}

#[test]
fn clicking_a_slice_again_lets_go_of_it() {
    let mut pages = PlanningState::new();
    let bench = BenchSelection { base: d(0.0), top: d(10.0), is_flitch: false };
    let flitch = BenchSelection { is_flitch: true, ..bench };
    pages.click_slice(bench);
    assert!(pages.slice_selected(bench) && !pages.slice_selected(flitch));
    assert!(pages.slice_selected(BenchSelection { base: d(-0.0), ..bench }));
    pages.click_slice(flitch);
    assert_eq!(pages.selected_bench, Some(flitch));
    pages.click_slice(flitch);
    assert_eq!(pages.selected_bench, None);
}

#[test]
fn ranges_are_split_deleted_and_added() {
    let mut plan = plan(vec![60.0, 20.0]);
    plan.intervals[1].styles.push(style(0.5));
    assert_eq!(plan.above(0), d(100.0));
    assert_eq!(plan.above(1), d(60.0));
    assert_eq!(plan.lowest(), d(20.0));
    plan.split_range(1, d(40.0));
    assert_eq!(bases(&plan), vec![60.0, 40.0, 20.0]);
    assert_eq!(plan.intervals[1].styles, vec![style(0.5)]);
    plan.delete_range(0);
    assert_eq!(bases(&plan), vec![40.0, 20.0]);
    plan.add_range(d(-100.0), d(12.0), d(3.0));
    assert_eq!(bases(&plan), vec![40.0, 20.0, -100.0]);
    assert_eq!(plan.intervals[2].bench, d(12.0));
    assert!(plan.intervals[2].styles.is_empty());
    assert_eq!(BenchingPlan { top: d(5.0), intervals: Vec::new() }.lowest(), d(5.0));
}

#[test]
fn a_changed_plan_is_written_back_top_down() {
    let mut commands = Vec::new();
    finish_benching(None, plan(vec![1.0]), true, &mut commands);
    finish_benching(Some(SolidId(4)), plan(vec![1.0]), false, &mut commands);
    assert!(commands.is_empty());
    let mut unsorted = plan(vec![20.0, 60.0, 20.0, -5.0]);
    unsorted.intervals[0].bench = d(1.0);
    unsorted.intervals[2].bench = d(2.0);
    finish_benching(Some(SolidId(4)), unsorted, true, &mut commands);
    assert_eq!(commands.len(), 1);
    match &commands[0] {
        UiCommand::UpdateSolid { solid: SolidId(4), edit: SolidEdit::Benching(written) } => {
            assert_eq!(bases(written), vec![60.0, 20.0, 20.0, -5.0]);
            assert_eq!(written.intervals[1].bench, d(1.0));
            assert_eq!(written.intervals[2].bench, d(2.0));
        }
        other => panic!("{other:?}"),
    }
}

fn preview(summary: SolidPreviewSummary) -> SolidPreviewState {
    SolidPreviewState { summary, ..SolidPreviewState::new() }
}

fn ready(volume: Option<f64>, waiting_on_unloaded: bool) -> SolidPreviewSummary {
    SolidPreviewSummary::Ready { volume: volume.map(d), faces: 24, waiting_on_unloaded }
}

#[test]
fn a_rebuild_keeps_the_old_solid_on_screen() {
    assert!(preview(ready(None, false)).ready(false));
    assert!(preview(SolidPreviewSummary::Building { showing_previous: true }).ready(false));
    assert!(!preview(SolidPreviewSummary::Building { showing_previous: false }).ready(false));
    assert!(preview(SolidPreviewSummary::LoadingInputs { showing_previous: true }).ready(false));
    assert!(!preview(SolidPreviewSummary::LoadingInputs { showing_previous: false }).ready(false));
    assert!(!preview(SolidPreviewSummary::NotRun).ready(true));
    let mut shown = preview(SolidPreviewSummary::NotRun);
    shown.texture = Some(TextureId::User(3));
    assert!(shown.ready(true) && !shown.ready(false));
    assert_eq!(shown.image(true), Some(TextureId::User(3)));
    assert_eq!(shown.image(false), None);
    assert_eq!(preview(ready(None, false)).image(false), None);
}

#[test]
fn captions_say_what_the_preview_holds() {
    let caption = |summary: SolidPreviewSummary, view: bool| preview(summary).caption(view);
    assert_eq!(caption(SolidPreviewSummary::NotRun, false), (key("planning-not-run"), false));
    assert_eq!(caption(SolidPreviewSummary::Empty, false), (literal("Set a surface to inspect this solid"), false));
    assert_eq!(caption(SolidPreviewSummary::Unloaded, false), (literal("Load this solid's surfaces to inspect it"), false));
    assert_eq!(
        caption(SolidPreviewSummary::LoadingInputs { showing_previous: true }, false),
        (literal("Loading this solid's surfaces…"), false)
    );
    assert_eq!(caption(SolidPreviewSummary::Building { showing_previous: true }, false), (literal("Rebuilding solid…"), false));
    assert_eq!(caption(SolidPreviewSummary::Building { showing_previous: false }, false), (literal("Building solid…"), false));
    assert_eq!(
        caption(ready(Some(12.5), true), true),
        (
            literal2(
                "%volume% m³ · %faces% faces",
                named("volume", Arg::Fixed { value: d(12.5), decimals: 1 }),
                named("faces", Arg::Count(24))
            ),
            false
        )
    );
    assert_eq!(caption(ready(None, true), true), (key("planning-volume-unavailable"), false));
    assert_eq!(caption(ready(None, true), false), (literal("Surface only · the other surface is not loaded"), false));
    assert_eq!(
        caption(ready(None, false), false),
        (literal1("Surface only · %faces% faces", named("faces", Arg::Count(24))), false)
    );
    assert_eq!(caption(SolidPreviewSummary::Failed("open mesh".to_owned()), false), (verbatim("open mesh".to_owned()), true));
}

#[test]
fn only_built_solids_can_be_saved() {
    let mut commands = Vec::new();
    preview(ready(Some(1.0), false)).click_menu(false, true, true, &mut commands);
    assert_eq!(commands, vec![UiCommand::SaveSolidPreviewToProject, UiCommand::ResetSolidPreviewView]);
    commands.clear();
    preview(ready(Some(1.0), false)).click_menu(true, true, false, &mut commands);
    preview(ready(None, false)).click_menu(false, true, false, &mut commands);
    preview(SolidPreviewSummary::Empty).click_menu(false, true, false, &mut commands);
    assert!(commands.is_empty());
    assert!(preview(ready(Some(1.0), false)).can_save(false));
}

fn buttons(middle: bool, secondary: bool, primary: bool) -> DragButtons {
    DragButtons { middle, secondary, primary }
}

fn drag() -> DragResult {
    DragResult { pan: pair(0.5, 0.25), yaw: d(1.0), pitch: d(9.0) }
}

#[test]
fn middle_drags_pan_and_right_drags_orbit() {
    let mut panned = SolidPreviewState::new();
    assert!(panned.take_drag(true, buttons(true, true, true), true, drag()));
    assert_eq!(panned.view, SolidPreviewView { pan: pair(0.5, 0.25), ..SolidPreviewView::default() });
    let mut orbited = SolidPreviewState::new();
    assert!(orbited.take_drag(true, buttons(false, true, false), true, drag()));
    assert_eq!(orbited.view.yaw, d(1.0));
    assert!(f64::from_bits(orbited.view.pitch.bits) < std::f64::consts::FRAC_PI_2);
    assert_eq!(orbited.view.pan, pair(0.0, 0.0));
}

#[test]
fn left_drags_orbit_only_where_nothing_is_selected() {
    let mut setup = SolidPreviewState::new();
    assert!(setup.take_drag(true, buttons(false, false, true), false, drag()));
    let mut view = SolidPreviewState::new();
    assert!(!view.take_drag(true, buttons(false, false, true), true, drag()));
    assert!(!view.take_drag(false, buttons(true, false, false), true, drag()));
    assert_eq!(view.view, SolidPreviewView::default());
}

#[test]
fn double_clicks_reset_only_where_nothing_is_selected() {
    let mut setup = SolidPreviewState::new();
    setup.view.yaw = d(2.0);
    assert_eq!(setup.take_clicks(true, true, false, Some(px(0.5, 0.5))), (true, false));
    assert_eq!(setup.view, SolidPreviewView::default());
    assert_eq!(setup.pick_uv, None);
    setup.view.yaw = d(2.0);
    assert_eq!(setup.take_clicks(true, true, true, Some(px(0.5, 0.25))), (false, true));
    assert_eq!(setup.view.yaw, d(2.0));
    assert_eq!(setup.pick_uv, Some(px(0.5, 0.25)));
    assert_eq!(setup.take_clicks(true, false, true, None), (false, false));
    assert_eq!(setup.pick_uv, Some(px(0.5, 0.25)));
}

#[test]
fn scrolls_zoom_within_range() {
    let mut state = SolidPreviewState::new();
    assert!(!state.take_scroll(false, true, d(3.0)));
    assert!(!state.take_scroll(true, false, d(3.0)));
    assert_eq!(state.view.zoom_multiplier, d(1.0));
    assert!(state.take_scroll(true, true, d(3.0)));
    assert_eq!(state.view.zoom_multiplier, d(3.0));
    assert!(state.take_scroll(true, true, d(1000.0)));
    assert_eq!(state.view.zoom_multiplier, d(40.0));
    assert!(state.take_scroll(true, true, d(0.0)));
    assert_eq!(state.view.zoom_multiplier, d(0.1));
}

#[test]
fn the_preview_faces_what_the_gizmo_says() {
    let mut state = SolidPreviewState::new();
    assert!(!state.take_gizmo(None));
    assert!(state.take_gizmo(Some(StandardView::West)));
    assert_eq!((state.view.yaw, state.view.pitch), (d(0.0), d(0.0)));
    assert!(state.take_gizmo(Some(StandardView::South)));
    assert_eq!(state.view.yaw, d(std::f64::consts::FRAC_PI_2));
    assert!(state.take_size(SizePx { width: 10, height: 20 }));
    assert!(!state.take_size(SizePx { width: 10, height: 20 }));
}

#[test]
fn the_pointer_tells_what_a_click_does() {
    assert_eq!(preview_cursor(true, true, true), Some(PreviewCursor::Grabbing));
    assert_eq!(preview_cursor(false, true, false), Some(PreviewCursor::Grabbing));
    assert_eq!(preview_cursor(true, false, true), Some(PreviewCursor::PointingHand));
    assert_eq!(preview_cursor(true, false, false), Some(PreviewCursor::Grab));
    assert_eq!(preview_cursor(false, false, true), None);
    let mut e = editor();
    e.planning.preview.summary = ready(None, false);
    assert!(e.preview_gizmo_shown());
    e.preferences.interface.show_world_axis_gizmo = false;
    assert!(!e.preview_gizmo_shown());
}
