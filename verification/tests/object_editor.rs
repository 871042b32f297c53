//! The editor of one object: its sheets, cells, caches and buttons.
use incline_ui::command::UiCommand;
use incline_ui::ids::ObjectId;
use incline_ui::model::{FillStyle, Object, ObjectColor, Vertex};
use incline_ui::number::{Real32, Real64, Rgba, Vec3};
use incline_ui::object_edit::{CellOutcome, Checks, CircleSpec, EditPresses, EditedRows, EditingCell, ObjectEditDialog, ObjectEditIssue, ObjectEditTab, PropertyEdit, RowAction, RowRequest, VertexColumn, adopt_cell, apply_arc_bulge, apply_circle, apply_property, apply_row_action, arc_segment, circle_spec, close_on_escape, commit_before_apply, commit_cell, derived_values, finish_object_edit, issue_message, leave_cell, refresh_caches, row_request, select_tab, set_object_color, set_vertex_component, settle_tab, sheet_columns, swatch_color, vertex_component, vertex_row, vertex_row_count, vertex_summary};
use incline_ui::text::{Arg, literal, literal1, literal2, named};

fn d(value: f64) -> Real64 {
    Real64 { bits: value.to_bits() }
}

fn f(value: f32) -> Real32 {
    Real32 { bits: value.to_bits() }
}

fn rgba(r: f32, g: f32, b: f32, a: f32) -> Rgba {
    Rgba { r: f(r), g: f(g), b: f(b), a: f(a) }
}

fn v3(x: f64, y: f64, z: f64) -> Vec3 {
    Vec3 { x: d(x), y: d(y), z: d(z) }
}

fn vertex(x: f64, bulge: f64) -> Vertex {
    Vertex { pos: v3(x, 0.0, 0.0), bulge: d(bulge) }
}

fn line(bulges: &[f64], closed: bool) -> Object {
    let verts = bulges.iter().enumerate().map(|(i, &bulge)| vertex(i as f64, bulge)).collect();
    Object::Polyline { verts, closed, fill: FillStyle::Clear, line_weight: f(1.0), color: ObjectColor::ByLayer }
}

fn point() -> Object {
    Object::Point { pos: v3(7.0, 8.0, 9.0), color: ObjectColor::ByLayer }
}

fn open(object: Object) -> ObjectEditDialog {
    ObjectEditDialog::new(ObjectId(5), object, "Crests".to_owned(), rgba(0.5, 0.25, 0.0, 1.0))
}

fn checks() -> Checks {
    Checks { length: d(12.0), area: Some(d(3.0)), issue: None }
}

#[test]
fn dialog_opens_on_a_copy() {
    let dialog = open(line(&[0.0, 0.0], false));
    assert_eq!(dialog.object, dialog.baseline);
    assert_eq!(dialog.tab, ObjectEditTab::Properties);
    assert_eq!(dialog.revision, 0);
    assert!(dialog.derived.is_none() && dialog.message.is_none());
    let mut late = open(point());
    late.revision = u64::MAX;
    late.touch();
    assert_eq!(late.revision, 0);
}

#[test]
fn complaints_count_rows_from_one() {
    assert_eq!(issue_message(ObjectEditIssue::NonFiniteVertex(0)), literal1("Row %row%: position or bulge is not a valid number", named("row", Arg::Count(1))));
    assert_eq!(issue_message(ObjectEditIssue::NonFiniteValue), literal("One or more properties is not a valid number"));
    assert_eq!(issue_message(ObjectEditIssue::TooFewVertices { required: 3 }), literal1("This object needs at least %required% vertices", named("required", Arg::Count(3))));
}

#[test]
fn rows_show_positions_and_the_bulges_of_segments() {
    let object = line(&[0.5, 0.25], false);
    assert_eq!(vertex_row_count(&object), 2);
    assert_eq!(vertex_row(&object, 0), Some((v3(0.0, 0.0, 0.0), Some(d(0.5)))));
    assert_eq!(vertex_row(&object, 1), Some((v3(1.0, 0.0, 0.0), None)));
    assert_eq!(vertex_row(&object, 2), None);
    assert_eq!(vertex_row(&line(&[0.5, 0.25], true), 1).unwrap().1, Some(d(0.25)));
    assert_eq!(vertex_row_count(&point()), 1);
    assert_eq!(vertex_component(&point(), 0, VertexColumn::Y), Some(d(8.0)));
    assert_eq!(vertex_component(&point(), 0, VertexColumn::Bulge), None);
    assert_eq!(vertex_component(&point(), 1, VertexColumn::X), None);
    assert_eq!(sheet_columns(&point()), vec![VertexColumn::X, VertexColumn::Y, VertexColumn::Z]);
    assert_eq!(sheet_columns(&object), vec![VertexColumn::X, VertexColumn::Y, VertexColumn::Z, VertexColumn::Bulge]);
}

#[test]
fn written_cells_read_back() {
    let mut object = line(&[0.0, 0.0], false);
    assert!(set_vertex_component(&mut object, 1, VertexColumn::Z, d(4.5)));
    assert_eq!(vertex_component(&object, 1, VertexColumn::Z), Some(d(4.5)));
    assert!(!set_vertex_component(&mut object, 1, VertexColumn::Z, d(4.5)));
    assert!(!set_vertex_component(&mut object, 1, VertexColumn::Bulge, d(1.0)));
    assert!(!set_vertex_component(&mut object, 9, VertexColumn::X, d(1.0)));
    assert!(!set_vertex_component(&mut object, 0, VertexColumn::X, d(-0.0)));
    assert!(set_vertex_component(&mut object, 0, VertexColumn::Bulge, d(1.0)));
    let mut single = point();
    assert!(set_vertex_component(&mut single, 0, VertexColumn::X, d(1.0)));
    assert!(!set_vertex_component(&mut single, 0, VertexColumn::Bulge, d(1.0)));
}

#[test]
fn caches_list_the_bends_once_per_revision() {
    let mut dialog = open(line(&[0.5, 0.0, f64::NAN, -0.25], true));
    refresh_caches(&mut dialog, checks());
    assert_eq!(dialog.arc_rows.as_ref().unwrap().rows, vec![0, 3]);
    assert_eq!(dialog.derived.as_ref().unwrap().length, d(12.0));
    dialog.message = Some(literal("stale"));
    refresh_caches(&mut dialog, Checks { length: d(99.0), area: None, issue: None });
    assert_eq!(dialog.derived.as_ref().unwrap().length, d(12.0));
    assert!(dialog.message.is_some());
    dialog.touch();
    assert_eq!(derived_values(&mut dialog, Checks { length: d(99.0), area: None, issue: Some(ObjectEditIssue::NonFiniteVertex(2)) }), (d(99.0), None));
    assert!(dialog.message.is_none());
    assert_eq!(dialog.issue, Some(ObjectEditIssue::NonFiniteVertex(2)));
}

#[test]
fn pinned_segment_keeps_its_place_in_the_list() {
    let mut dialog = open(line(&[0.5, 0.0, 0.5], true));
    dialog.sticky_arc = Some(1);
    refresh_caches(&mut dialog, checks());
    assert_eq!(dialog.arc_rows.as_ref().unwrap().rows, vec![0, 1, 2]);
    assert_eq!(dialog.sticky_arc, Some(1));
    dialog.sticky_arc = Some(9);
    dialog.touch();
    refresh_caches(&mut dialog, checks());
    assert_eq!(dialog.sticky_arc, None);
    assert_eq!(dialog.arc_rows.as_ref().unwrap().rows, vec![0, 2]);
}

#[test]
fn rows_that_went_take_the_selection_and_the_cell_along() {
    let mut dialog = open(line(&[0.0, 0.0], false));
    dialog.selected_row = Some(7);
    dialog.editing_cell = Some(EditingCell { row: 7, column: VertexColumn::X, buffer: "1".to_owned() });
    refresh_caches(&mut dialog, checks());
    assert_eq!(dialog.selected_row, Some(1));
    assert!(dialog.editing_cell.is_none());
    let mut empty = open(line(&[], false));
    empty.selected_row = Some(0);
    refresh_caches(&mut empty, checks());
    assert_eq!(empty.selected_row, None);
}

#[test]
fn cells_take_finite_numbers_only() {
    let mut dialog = open(line(&[0.0, 0.0], false));
    assert!(commit_cell(&mut dialog, 0, VertexColumn::X, " 2.5 ", Some(d(2.5))));
    assert_eq!(dialog.revision, 1);
    assert!(commit_cell(&mut dialog, 0, VertexColumn::X, "2.5", Some(d(2.5))));
    assert_eq!(dialog.revision, 1);
    assert!(!commit_cell(&mut dialog, 0, VertexColumn::X, " inf ", Some(d(f64::INFINITY))));
    assert_eq!(dialog.message, Some(literal1("\"%text%\" is not a number", named("text", Arg::Name("inf".to_owned())))));
    assert!(!commit_cell(&mut dialog, 0, VertexColumn::X, "  ", None));
    assert_eq!(dialog.message, Some(literal("Enter a number")));
    assert_eq!(vertex_component(&dialog.object, 0, VertexColumn::X), Some(d(2.5)));
    assert!(dialog.can_apply());
    assert_eq!(dialog.shown_message(), Some(&literal("Enter a number")));
    dialog.issue = Some(ObjectEditIssue::NonFiniteValue);
    assert!(!dialog.can_apply());
    assert_eq!(dialog.shown_message(), None);
}

#[test]
fn leaving_a_cell_commits_it_unless_escaped() {
    let mut dialog = open(line(&[0.0, 0.0], false));
    dialog.editing_cell = Some(EditingCell { row: 0, column: VertexColumn::Y, buffer: "3".to_owned() });
    leave_cell(&mut dialog, true, Some(d(3.0)));
    assert_eq!(vertex_component(&dialog.object, 0, VertexColumn::Y), Some(d(0.0)));
    assert!(dialog.editing_cell.is_none());
    adopt_cell(&mut dialog, 0, VertexColumn::Y, "0".to_owned(), None);
    assert_eq!(dialog.selected_row, Some(0));
    dialog.editing_cell.as_mut().unwrap().buffer = "3".to_owned();
    adopt_cell(&mut dialog, 1, VertexColumn::X, "1".to_owned(), Some(d(3.0)));
    assert_eq!(vertex_component(&dialog.object, 0, VertexColumn::Y), Some(d(3.0)));
    assert_eq!(dialog.editing_cell.as_ref().unwrap().row, 1);
    leave_cell(&mut dialog, false, Some(d(1.5)));
    assert_eq!(vertex_component(&dialog.object, 1, VertexColumn::X), Some(d(1.5)));
}

#[test]
fn row_buttons_need_a_row_and_move_the_selection() {
    let mut dialog = open(line(&[0.0, 0.0, 0.0], false));
    assert_eq!(row_request(&dialog, RowAction::Delete), None);
    assert_eq!(row_request(&dialog, RowAction::Reverse), Some(RowRequest::Reverse));
    dialog.selected_row = Some(2);
    assert_eq!(row_request(&dialog, RowAction::InsertAfter), Some(RowRequest::InsertAfter(2)));
    assert_eq!(row_request(&dialog, RowAction::MoveUp), Some(RowRequest::Move { row: 2, up: true }));
    assert_eq!(row_request(&open(point()), RowAction::Reverse), None);
    apply_row_action(&mut dialog, RowAction::Delete, None);
    assert_eq!(dialog.revision, 0);
    let shorter = vec![vertex(0.0, 0.0), vertex(1.0, 0.0)];
    dialog.editing_cell = Some(EditingCell { row: 0, column: VertexColumn::X, buffer: "1".to_owned() });
    apply_row_action(&mut dialog, RowAction::Delete, Some(EditedRows { verts: shorter, row: 2 }));
    assert_eq!(dialog.selected_row, Some(1));
    assert_eq!(vertex_row_count(&dialog.object), 2);
    assert_eq!(dialog.revision, 1);
    assert!(dialog.editing_cell.is_none());
    apply_row_action(&mut dialog, RowAction::Reverse, Some(EditedRows { verts: vec![vertex(1.0, 0.0), vertex(0.0, 0.0)], row: 0 }));
    assert_eq!(dialog.selected_row, Some(0));
    apply_row_action(&mut dialog, RowAction::MoveDown, Some(EditedRows { verts: vec![vertex(0.0, 0.0), vertex(1.0, 0.0)], row: 1 }));
    assert_eq!(dialog.selected_row, Some(1));
    apply_row_action(&mut dialog, RowAction::Delete, Some(EditedRows { verts: Vec::new(), row: 0 }));
    assert_eq!(dialog.selected_row, None);
    assert_eq!(row_request(&open(line(&[0.0], false)), RowAction::Reverse), None);
}

#[test]
fn arcs_run_round_a_closed_line_only() {
    let ring = line(&[0.5, 0.0, 0.25], true);
    let back = arc_segment(&ring, 2).unwrap();
    assert_eq!((back.start, back.end, back.bulge), (v3(2.0, 0.0, 0.0), v3(0.0, 0.0, 0.0), d(0.25)));
    assert!(arc_segment(&line(&[0.5, 0.0, 0.25], false), 2).is_none());
    assert!(arc_segment(&ring, 3).is_none());
    assert!(arc_segment(&point(), 0).is_none());
}

#[test]
fn touching_an_arc_pins_it() {
    let mut dialog = open(line(&[0.5, 0.0], false));
    apply_arc_bulge(&mut dialog, 0, None);
    assert_eq!(dialog.sticky_arc, None);
    apply_arc_bulge(&mut dialog, 0, Some(d(f64::NAN)));
    assert_eq!((dialog.sticky_arc, dialog.revision), (Some(0), 0));
    apply_arc_bulge(&mut dialog, 0, Some(d(0.0)));
    assert_eq!(dialog.revision, 1);
    assert_eq!(vertex_component(&dialog.object, 0, VertexColumn::Bulge), Some(d(0.0)));
}

#[test]
fn circles_are_read_and_written_whole() {
    let spec = CircleSpec { center: v3(1.0, 2.0, 3.0), radius: d(4.0) };
    assert_eq!(circle_spec(&line(&[1.0, 1.0], true), Some(spec)), Some(spec));
    assert_eq!(circle_spec(&point(), Some(spec)), None);
    let mut dialog = open(line(&[1.0, 1.0], true));
    apply_circle(&mut dialog, None);
    assert_eq!(dialog.revision, 0);
    apply_circle(&mut dialog, Some(vec![vertex(9.0, 1.0), vertex(11.0, 1.0)]));
    assert_eq!(dialog.revision, 1);
    assert_eq!(vertex_component(&dialog.object, 0, VertexColumn::X), Some(d(9.0)));
}

#[test]
fn arc_sheet_is_left_once_nothing_bends() {
    let mut dialog = open(line(&[0.0, 0.0], false));
    refresh_caches(&mut dialog, checks());
    dialog.tab = ObjectEditTab::Arcs;
    assert!(settle_tab(&mut dialog, true));
    assert_eq!(dialog.tab, ObjectEditTab::Arcs);
    assert!(!settle_tab(&mut dialog, false));
    assert_eq!(dialog.tab, ObjectEditTab::Properties);
    dialog.sticky_arc = Some(0);
    dialog.editing_cell = Some(EditingCell { row: 0, column: VertexColumn::X, buffer: String::new() });
    select_tab(&mut dialog, ObjectEditTab::Vertices);
    assert!(dialog.sticky_arc.is_none() && dialog.editing_cell.is_none());
}

#[test]
fn appearance_leaves_the_revision_alone() {
    let mut dialog = open(line(&[0.0, 0.0], false));
    assert_eq!(swatch_color(&dialog), None);
    apply_property(&mut dialog, PropertyEdit::ByLayer(false));
    assert_eq!(dialog.object.color(), ObjectColor::Fixed(rgba(0.5, 0.25, 0.0, 1.0)));
    assert_eq!(swatch_color(&dialog), Some(rgba(0.5, 0.25, 0.0, 1.0)));
    apply_property(&mut dialog, PropertyEdit::Color(rgba(1.0, 0.0, 0.0, 1.0)));
    apply_property(&mut dialog, PropertyEdit::Fill(FillStyle::Solid));
    apply_property(&mut dialog, PropertyEdit::LineWeight(f(2.0)));
    assert_eq!(dialog.revision, 0);
    apply_property(&mut dialog, PropertyEdit::Closed(true));
    assert_eq!(dialog.revision, 1);
    match &dialog.object {
        Object::Polyline { closed, fill, line_weight, color, .. } => {
            assert!(*closed);
            assert_eq!((*fill, *line_weight, *color), (FillStyle::Solid, f(2.0), ObjectColor::Fixed(rgba(1.0, 0.0, 0.0, 1.0))));
        },
        other => panic!("unexpected {:?}", other),
    }
    apply_property(&mut dialog, PropertyEdit::ByLayer(true));
    assert_eq!(dialog.object.color(), ObjectColor::ByLayer);
    let mut label = open(Object::Text { pos: v3(0.0, 0.0, 0.0), content: "a".to_owned(), height: d(1.0), rotation: d(0.0), color: ObjectColor::ByLayer });
    apply_property(&mut label, PropertyEdit::Content("b".to_owned()));
    apply_property(&mut label, PropertyEdit::Height(d(2.0)));
    apply_property(&mut label, PropertyEdit::Rotation(d(0.5)));
    assert_eq!(label.revision, 3);
    let mut dot = point();
    set_object_color(&mut dot, ObjectColor::Fixed(rgba(0.0, 0.0, 0.0, 1.0)));
    assert_eq!(dot.color(), ObjectColor::Fixed(rgba(0.0, 0.0, 0.0, 1.0)));
    assert_eq!(dot.duplicate(), dot);
}

#[test]
fn summary_speaks_of_a_perimeter_once_there_is_an_area() {
    let fixed = |value: f64| Arg::Fixed { value: d(value), decimals: 3 };
    let object = line(&[0.0, 0.0, 0.0], true);
    assert_eq!(vertex_summary(&object, d(5.0), Some(d(2.0))), literal2("Perimeter %length% m, area %area% m²", named("length", fixed(5.0)), named("area", fixed(2.0))));
    assert_eq!(vertex_summary(&object, d(5.0), None), literal1("Length %length% m", named("length", fixed(5.0))));
    assert_eq!(vertex_summary(&point(), d(0.0), None), literal("This object has a single position."));
}

const NO_PRESS: EditPresses = EditPresses { apply: false, confirm: false, cancel: false, open: true };

#[test]
fn apply_commits_the_open_cell_first() {
    let mut dialog = open(line(&[0.0, 0.0], false));
    assert_eq!(commit_before_apply(&mut dialog, None), CellOutcome::NoCell);
    dialog.editing_cell = Some(EditingCell { row: 0, column: VertexColumn::X, buffer: "x".to_owned() });
    assert_eq!(commit_before_apply(&mut dialog, None), CellOutcome::Refused);
    assert_eq!(dialog.editing_cell.as_ref().unwrap().buffer, "x");
    assert!(dialog.message.is_some());
    dialog.editing_cell.as_mut().unwrap().buffer = "4".to_owned();
    assert_eq!(commit_before_apply(&mut dialog, Some(d(4.0))), CellOutcome::Committed);
    assert!(dialog.editing_cell.is_none());
    assert_eq!(vertex_component(&dialog.object, 0, VertexColumn::X), Some(d(4.0)));
}

#[test]
fn buttons_hand_over_a_sound_copy_only() {
    let mut slot = Some(open(point()));
    let mut commands = Vec::new();
    finish_object_edit(&mut slot, EditPresses { apply: true, ..NO_PRESS }, CellOutcome::NoCell, None, &mut commands);
    assert_eq!(commands, vec![UiCommand::ApplyObjectEdit { id: ObjectId(5), object: point(), close: false }]);
    assert!(slot.is_some());
    finish_object_edit(&mut slot, EditPresses { confirm: true, ..NO_PRESS }, CellOutcome::Committed, None, &mut commands);
    assert_eq!(commands[1], UiCommand::ApplyObjectEdit { id: ObjectId(5), object: point(), close: true });
    finish_object_edit(&mut slot, EditPresses { apply: true, ..NO_PRESS }, CellOutcome::Refused, None, &mut commands);
    finish_object_edit(&mut slot, EditPresses { apply: true, ..NO_PRESS }, CellOutcome::Committed, Some(ObjectEditIssue::NonFiniteValue), &mut commands);
    assert_eq!(commands.len(), 2);
    assert_eq!(slot.as_ref().unwrap().issue, Some(ObjectEditIssue::NonFiniteValue));
    finish_object_edit(&mut slot, EditPresses { apply: true, cancel: true, ..NO_PRESS }, CellOutcome::NoCell, None, &mut commands);
    assert!(slot.is_none());
    assert_eq!(commands.len(), 2);
}

#[test]
fn escape_belongs_to_an_open_cell() {
    let mut slot = Some(open(point()));
    assert!(!close_on_escape(&mut slot, false));
    slot.as_mut().unwrap().editing_cell = Some(EditingCell { row: 0, column: VertexColumn::X, buffer: String::new() });
    assert!(!close_on_escape(&mut slot, true));
    slot.as_mut().unwrap().editing_cell = None;
    assert!(close_on_escape(&mut slot, true));
    assert!(slot.is_none());
    assert!(!close_on_escape(&mut slot, true));
}
