//! The object editor: a working copy of one design object, edited cell by cell.
//!
//! The editor never reads or writes the document. Lengths, areas, validity and
//! the vertex operations of the model are worked out by the application and
//! handed in.
use crate::command::UiCommand;
use crate::constants::{EPSILON, ONE};
use crate::ids::ObjectId;
use crate::model::{FillStyle, Object, ObjectColor, Vertex};
use crate::number::{Real32, Real64, Rgba, Vec3};
use crate::text::{literal, literal1, literal2, named, Arg, Args, Named, Source, Text};
use crate::words::{trim, trimmed};
use vstd::prelude::*;

verus! {

/// Which sheet of the editor is showing.
#[derive(Clone, Copy, Debug, PartialEq, Eq, Structural)]
pub enum ObjectEditTab {
    Properties,
    Vertices,
    Arcs,
}

/// A numeric column of the vertex sheet.
#[derive(Clone, Copy, Debug, PartialEq, Eq, Structural)]
pub enum VertexColumn {
    X,
    Y,
    Z,
    Bulge,
}

/// A row button.
#[derive(Clone, Copy, Debug, PartialEq, Eq, Structural)]
pub enum RowAction {
    InsertAfter,
    Delete,
    MoveUp,
    MoveDown,
    Reverse,
}

/// Why a working copy cannot be written back.
#[derive(Clone, Copy, Debug, PartialEq, Eq, Structural)]
pub enum ObjectEditIssue {
    NonFiniteVertex(usize),
    NonFiniteValue,
    TooFewVertices { required: usize },
}

/// The cell being typed into, with its text.
#[derive(Debug)]
pub struct EditingCell {
    pub row: usize,
    pub column: VertexColumn,
    pub buffer: String,
}

/// Length and plan area of the working copy at a revision.
#[derive(Clone, Copy, Debug, PartialEq, Eq)]
pub struct Derived {
    pub revision: u64,
    pub length: Real64,
    pub area: Option<Real64>,
}

/// The segments listed on the arc sheet at a revision.
#[derive(Debug)]
pub struct ArcRows {
    pub revision: u64,
    pub rows: Vec<usize>,
}

/// What the application works out about a working copy.
#[derive(Clone, Copy, Debug, PartialEq, Eq)]
pub struct Checks {
    pub length: Real64,
    pub area: Option<Real64>,
    pub issue: Option<ObjectEditIssue>,
}

/// Working state of the object editor.
#[derive(Debug)]
pub struct ObjectEditDialog {
    pub id: ObjectId,
    /// Working copy, written to the document by Apply and OK alone.
    pub object: Object,
    /// Document state the working copy was taken from.
    pub baseline: Object,
    pub layer_name: String,
    /// What "Colour by layer" hands back when it is turned off.
    pub layer_rgba: Rgba,
    pub tab: ObjectEditTab,
    /// Row highlighted in the vertex sheet, and the target of the row buttons.
    pub selected_row: Option<usize>,
    pub editing_cell: Option<EditingCell>,
    /// Bumped by every edit; the caches are rebuilt only when it changes.
    pub revision: u64,
    pub message: Option<Text>,
    pub derived: Option<Derived>,
    pub arc_rows: Option<ArcRows>,
    /// Segment the arc sheet is driving, listed even where it is no arc, so that
    /// a drag to zero cannot take its own row away.
    pub sticky_arc: Option<usize>,
    /// Disables Apply and OK while there is one.
    pub issue: Option<ObjectEditIssue>,
}

impl Object {
    /// Two objects of the same content.
    pub open spec fn same_content(self, other: Object) -> bool {
        match (self, other) {
            (Object::Point { pos: p, color: c }, Object::Point { pos: q, color: d }) => p == q && c == d,
            (
                Object::Polyline { verts: v, closed: a, fill: f, line_weight: w, color: c },
                Object::Polyline { verts: u, closed: b, fill: g, line_weight: x, color: d },
            ) => v@ == u@ && a == b && f == g && w == x && c == d,
            (
                Object::Text { pos: p, content: s, height: h, rotation: r, color: c },
                Object::Text { pos: q, content: t, height: k, rotation: o, color: d },
            ) => p == q && s@ == t@ && h == k && r == o && c == d,
            _ => false,
        }
    }

    pub fn duplicate(&self) -> (r: Object)
        ensures
            r.same_content(*self),
    {
        match self {
            Object::Point { pos, color } => Object::Point { pos: *pos, color: *color },
            Object::Polyline { verts, closed, fill, line_weight, color } => {
                let copy = verts.clone();
                assert(copy@ =~= verts@);
                Object::Polyline { verts: copy, closed: *closed, fill: *fill, line_weight: *line_weight, color: *color }
            },
            Object::Text { pos, content, height, rotation, color } => Object::Text {
                pos: *pos,
                content: content.clone(),
                height: *height,
                rotation: *rotation,
                color: *color,
            },
        }
    }

    pub open spec fn spec_color(self) -> ObjectColor {
        match self {
            Object::Point { color, .. } => color,
            Object::Polyline { color, .. } => color,
            Object::Text { color, .. } => color,
        }
    }

    pub fn color(&self) -> (r: ObjectColor)
        ensures
            r == self.spec_color(),
    {
        match self {
            Object::Point { color, .. } => *color,
            Object::Polyline { color, .. } => *color,
            Object::Text { color, .. } => *color,
        }
    }

    /// The object in another colour.
    pub open spec fn colored(self, paint: ObjectColor) -> Object {
        match self {
            Object::Point { pos, color: _ } => Object::Point { pos, color: paint },
            Object::Polyline { verts, closed, fill, line_weight, color: _ } => Object::Polyline {
                verts,
                closed,
                fill,
                line_weight,
                color: paint,
            },
            Object::Text { pos, content, height, rotation, color: _ } => Object::Text { pos, content, height, rotation, color: paint },
        }
    }

    /// How many rows the vertex sheet shows: one for each vertex, and one for an
    /// object with a single position.
    pub open spec fn row_count(self) -> nat {
        match self {
            Object::Polyline { verts, .. } => verts@.len(),
            _ => 1,
        }
    }

    /// How many segments leave a vertex: the last vertex of an open polyline has
    /// none.
    pub open spec fn segment_count(self) -> nat {
        match self {
            Object::Polyline { verts, closed, .. } => if closed || verts@.len() == 0 {
                verts@.len()
            } else {
                (verts@.len() - 1) as nat
            },
            _ => 0,
        }
    }

    /// Whether the segment leaving a vertex bends.
    pub open spec fn bends(self, segment: int) -> bool {
        match self {
            Object::Polyline { verts, .. } => verts@[segment].bulge.finite() && verts@[segment].bulge.magnitude() > EPSILON,
            _ => false,
        }
    }

    /// Position of a row, and its bulge where a segment leaves it.
    pub open spec fn row(self, row: int) -> Option<(Vec3, Option<Real64>)> {
        match self {
            Object::Polyline { verts, .. } => if 0 <= row < verts@.len() {
                Some(
                    (
                        verts@[row].pos,
                        if row < self.segment_count() {
                            Some(verts@[row].bulge)
                        } else {
                            None
                        },
                    ),
                )
            } else {
                None
            },
            Object::Point { pos, .. } => if row == 0 {
                Some((pos, None))
            } else {
                None
            },
            Object::Text { pos, .. } => if row == 0 {
                Some((pos, None))
            } else {
                None
            },
        }
    }

    /// Value of a cell, where this object has it.
    pub open spec fn cell(self, row: int, column: VertexColumn) -> Option<Real64> {
        match self.row(row) {
            None => None,
            Some((pos, bulge)) => match column {
                VertexColumn::X => Some(pos.x),
                VertexColumn::Y => Some(pos.y),
                VertexColumn::Z => Some(pos.z),
                VertexColumn::Bulge => bulge,
            },
        }
    }
}

/// A position with one coordinate replaced.
pub open spec fn moved(pos: Vec3, column: VertexColumn, value: Real64) -> Vec3 {
    match column {
        VertexColumn::X => Vec3 { x: value, ..pos },
        VertexColumn::Y => Vec3 { y: value, ..pos },
        VertexColumn::Z => Vec3 { z: value, ..pos },
        VertexColumn::Bulge => pos,
    }
}

/// A vertex with one component replaced.
pub open spec fn retyped(vertex: Vertex, column: VertexColumn, value: Real64) -> Vertex {
    Vertex {
        pos: moved(vertex.pos, column, value),
        bulge: if column is Bulge {
            value
        } else {
            vertex.bulge
        },
    }
}

/// `after` is `before` with one cell replaced.
pub open spec fn cell_replaced(before: Object, after: Object, row: int, column: VertexColumn, value: Real64) -> bool {
    match (before, after) {
        (Object::Point { pos: p, color: c }, Object::Point { pos: q, color: d }) => q == moved(p, column, value) && c == d,
        (
            Object::Polyline { verts: v, closed: a, fill: f, line_weight: w, color: c },
            Object::Polyline { verts: u, closed: b, fill: g, line_weight: x, color: d },
        ) => u@ == v@.update(row, retyped(v@[row], column, value)) && a == b && f == g && w == x && c == d,
        (
            Object::Text { pos: p, content: s, height: h, rotation: r, color: c },
            Object::Text { pos: q, content: t, height: k, rotation: o, color: d },
        ) => q == moved(p, column, value) && s == t && h == k && r == o && c == d,
        _ => false,
    }
}

/// The arc sheet lists, in ascending order, every segment that bends and the one
/// that is pinned.
pub open spec fn lists_arcs(rows: Seq<usize>, object: Object, pinned: Option<usize>) -> bool {
    &&& forall|i: int, j: int| 0 <= i < j < rows.len() ==> #[trigger] rows[i] < #[trigger] rows[j]
    &&& forall|segment: usize|
        #[trigger] rows.contains(segment) <==> segment < object.segment_count() && (object.bends(segment as int) || pinned
            == Some(segment))
}

/// The pinned segment, while the object still has it.
pub open spec fn still_pinned(object: Object, pinned: Option<usize>) -> Option<usize> {
    match pinned {
        Some(segment) => if segment < object.segment_count() {
            pinned
        } else {
            None
        },
        None => None,
    }
}

impl ObjectEditDialog {
    pub fn new(id: ObjectId, object: Object, layer_name: String, layer_rgba: Rgba) -> (r: ObjectEditDialog)
        ensures
            r.id == id,
            r.object == object,
            r.baseline.same_content(object),
            r.layer_name == layer_name,
            r.layer_rgba == layer_rgba,
            r.tab is Properties,
            r.selected_row is None,
            r.editing_cell is None,
            r.revision == 0,
            r.message is None,
            r.derived is None,
            r.arc_rows is None,
            r.sticky_arc is None,
            r.issue is None,
    {
        let baseline = object.duplicate();
        ObjectEditDialog {
            id,
            object,
            baseline,
            layer_name,
            layer_rgba,
            tab: ObjectEditTab::Properties,
            selected_row: None,
            editing_cell: None,
            revision: 0,
            message: None,
            derived: None,
            arc_rows: None,
            sticky_arc: None,
            issue: None,
        }
    }

    /// The revision after an edit.
    pub open spec fn next_revision(self) -> u64 {
        if self.revision == u64::MAX {
            0
        } else {
            (self.revision + 1) as u64
        }
    }

    /// Note an edit to the working copy so the caches are rebuilt.
    pub fn touch(&mut self)
        ensures
            *final(self) == (ObjectEditDialog { revision: old(self).next_revision(), ..*old(self) }),
    {
        self.revision = if self.revision == u64::MAX {
            0
        } else {
            self.revision + 1
        };
    }

    /// Whether the caches belong to the working copy as it stands.
    pub open spec fn is_fresh(self) -> bool {
        self.derived matches Some(derived) && derived.revision == self.revision
    }
}

/// An edit always makes the caches stale.
pub proof fn touching_makes_caches_stale(before: ObjectEditDialog, after: ObjectEditDialog)
    requires
        before.is_fresh(),
        after == (ObjectEditDialog { revision: before.next_revision(), ..before }),
    ensures
        !after.is_fresh(),
{
}

impl ObjectEditDialog {
    /// Whether the working copy can be handed over as it stood when it was last checked.
    pub fn can_apply(&self) -> (r: bool)
        ensures
            r == (self.issue is None),
    {
        self.issue.is_none()
    }

    /// The message of the last entry, where it shows: what is wrong with the working copy
    /// comes before it.
    pub fn shown_message(&self) -> (r: Option<&Text>)
        ensures
            r is Some <==> self.issue is None && self.message is Some,
            r matches Some(message) ==> *message == self.message->0,
    {
        if self.issue.is_none() {
            self.message.as_ref()
        } else {
            None
        }
    }
}

/// Wording for a validation failure; rows are counted from one.
pub fn issue_message(issue: ObjectEditIssue) -> (r: Text)
    requires
        issue matches ObjectEditIssue::NonFiniteVertex(row) ==> row < usize::MAX,
    ensures
        issue matches ObjectEditIssue::NonFiniteVertex(row) ==> r == literal1(
            "Row %row%: position or bulge is not a valid number",
            named("row", Arg::Count((row + 1) as usize)),
        ),
        issue is NonFiniteValue ==> r == literal("One or more properties is not a valid number"),
        issue matches ObjectEditIssue::TooFewVertices { required } ==> r == literal1(
            "This object needs at least %required% vertices",
            named("required", Arg::Count(required)),
        ),
{
    match issue {
        ObjectEditIssue::NonFiniteVertex(row) => literal1(
            "Row %row%: position or bulge is not a valid number",
            named("row", Arg::Count(row + 1)),
        ),
        ObjectEditIssue::NonFiniteValue => literal("One or more properties is not a valid number"),
        ObjectEditIssue::TooFewVertices { required } => literal1(
            "This object needs at least %required% vertices",
            named("required", Arg::Count(required)),
        ),
    }
}

pub fn set_object_color(object: &mut Object, paint: ObjectColor)
    ensures
        *final(object) == old(object).colored(paint),
{
    match object {
        Object::Point { color, .. } => {
            *color = paint;
        },
        Object::Polyline { color, .. } => {
            *color = paint;
        },
        Object::Text { color, .. } => {
            *color = paint;
        },
    }
}

/// How many rows the vertex sheet shows.
pub fn vertex_row_count(object: &Object) -> (r: usize)
    ensures
        r == object.row_count(),
{
    match object {
        Object::Polyline { verts, .. } => verts.len(),
        Object::Point { .. } => 1,
        Object::Text { .. } => 1,
    }
}

fn segment_total(object: &Object) -> (r: usize)
    ensures
        r == object.segment_count(),
{
    match object {
        Object::Polyline { verts, closed, .. } => if *closed || verts.len() == 0 {
            verts.len()
        } else {
            verts.len() - 1
        },
        Object::Point { .. } => 0,
        Object::Text { .. } => 0,
    }
}

/// Position and bulge of one sheet row. A point or text object has a position
/// but no outgoing segment, hence no bulge; neither does the last vertex of an
/// open polyline.
pub fn vertex_row(object: &Object, row: usize) -> (r: Option<(Vec3, Option<Real64>)>)
    ensures
        r == object.row(row as int),
{
    match object {
        Object::Polyline { verts, .. } => if row < verts.len() {
            let bulge = if row < segment_total(object) {
                Some(verts[row].bulge)
            } else {
                None
            };
            Some((verts[row].pos, bulge))
        } else {
            None
        },
        Object::Point { pos, .. } => if row == 0 {
            Some((*pos, None))
        } else {
            None
        },
        Object::Text { pos, .. } => if row == 0 {
            Some((*pos, None))
        } else {
            None
        },
    }
}

/// Value shown in one cell, or nothing where this object has no such cell.
pub fn vertex_component(object: &Object, row: usize, column: VertexColumn) -> (r: Option<Real64>)
    ensures
        r == object.cell(row as int, column),
{
    match vertex_row(object, row) {
        None => None,
        Some((pos, bulge)) => match column {
            VertexColumn::X => Some(pos.x),
            VertexColumn::Y => Some(pos.y),
            VertexColumn::Z => Some(pos.z),
            VertexColumn::Bulge => bulge,
        },
    }
}

fn move_position(pos: Vec3, column: VertexColumn, value: Real64) -> (r: Vec3)
    ensures
        r == moved(pos, column, value),
{
    match column {
        VertexColumn::X => Vec3 { x: value, y: pos.y, z: pos.z },
        VertexColumn::Y => Vec3 { x: pos.x, y: value, z: pos.z },
        VertexColumn::Z => Vec3 { x: pos.x, y: pos.y, z: value },
        VertexColumn::Bulge => pos,
    }
}

/// Write one cell back; whether the working copy changed. A cell that does not
/// exist, or already holds the same number, is left alone.
pub fn set_vertex_component(object: &mut Object, row: usize, column: VertexColumn, value: Real64) -> (r: bool)
    ensures
        r == (old(object).cell(row as int, column) matches Some(present) && !present.eq_number(value)),
        !r ==> *final(object) == *old(object),
        r ==> cell_replaced(*old(object), *final(object), row as int, column, value),
{
    match vertex_component(object, row, column) {
        None => {
            return false;
        },
        Some(present) => {
            if present.equals(value) {
                return false;
            }
        },
    }
    match object {
        Object::Polyline { verts, .. } => {
            let vertex = verts[row];
            let bulge = match column {
                VertexColumn::Bulge => value,
                _ => vertex.bulge,
            };
            verts.set(row, Vertex { pos: move_position(vertex.pos, column, value), bulge });
        },
        Object::Point { pos, .. } => {
            *pos = move_position(*pos, column, value);
        },
        Object::Text { pos, .. } => {
            *pos = move_position(*pos, column, value);
        },
    }
    true
}

/// A cell that was written reads back as what was written, and no other cell of
/// the sheet changes.
pub proof fn written_cell_reads_back(
    before: Object,
    after: Object,
    row: int,
    column: VertexColumn,
    value: Real64,
    other_row: int,
    other_column: VertexColumn,
)
    requires
        before.cell(row, column) is Some,
        cell_replaced(before, after, row, column, value),
    ensures
        after.cell(row, column) == Some(value),
        after.row_count() == before.row_count(),
        after.segment_count() == before.segment_count(),
        (other_row != row || other_column != column) ==> after.cell(other_row, other_column) == before.cell(other_row, other_column),
{
}

/// The refreshed state of the editor: caches of the present revision, no
/// transient message, and no row, cell or pinned segment that has gone.
pub open spec fn refreshed(before: ObjectEditDialog, after: ObjectEditDialog, checks: Checks) -> bool {
    let rows = before.object.row_count();
    &&& after.id == before.id
    &&& after.object == before.object
    &&& after.baseline == before.baseline
    &&& after.layer_name == before.layer_name
    &&& after.layer_rgba == before.layer_rgba
    &&& after.tab == before.tab
    &&& after.revision == before.revision
    &&& after.derived == Some(Derived { revision: before.revision, length: checks.length, area: checks.area })
    &&& after.sticky_arc == still_pinned(before.object, before.sticky_arc)
    &&& after.arc_rows matches Some(arcs) && arcs.revision == before.revision && lists_arcs(
        arcs.rows@,
        before.object,
        before.sticky_arc,
    )
    &&& after.issue == checks.issue
    &&& after.message is None
    &&& after.selected_row == (match before.selected_row {
        Some(row) => if row < rows {
            Some(row)
        } else if rows == 0 {
            None
        } else {
            Some((rows - 1) as usize)
        },
        None => None,
    })
    &&& after.editing_cell == (match before.editing_cell {
        Some(cell) => if cell.row < rows {
            before.editing_cell
        } else {
            None
        },
        None => None,
    })
}

fn list_arcs(object: &Object, pinned: Option<usize>) -> (r: Vec<usize>)
    ensures
        lists_arcs(r@, *object, pinned),
{
    let count = segment_total(object);
    let mut rows: Vec<usize> = Vec::new();
    match object {
        Object::Polyline { verts, .. } => {
            let mut edge: usize = 0;
            while edge < count
                invariant
                    edge <= count,
                    count == object.segment_count(),
                    count <= verts@.len(),
                    object matches Object::Polyline { verts: v, .. } && v == verts,
                    forall|i: int, j: int| 0 <= i < j < rows@.len() ==> #[trigger] rows@[i] < #[trigger] rows@[j],
                    forall|i: int| 0 <= i < rows@.len() ==> #[trigger] rows@[i] < edge,
                    forall|segment: usize|
                        #[trigger] rows@.contains(segment) <==> segment < edge && (object.bends(segment as int) || pinned == Some(
                            segment,
                        )),
                decreases count - edge,
            {
                let bulge = verts[edge].bulge;
                let bent = bulge.is_finite() && (Real64 { bits: EPSILON }).less(bulge.abs());
                assert(bent == object.bends(edge as int));
                let is_pinned = match pinned {
                    Some(segment) => segment == edge,
                    None => false,
                };
                let ghost before = rows@;
                if bent || is_pinned {
                    rows.push(edge);
                    assert forall|segment: usize| #[trigger] rows@.contains(segment) <==> segment < edge + 1 && (object.bends(
                        segment as int,
                    ) || pinned == Some(segment)) by {
                        if before.contains(segment) {
                            let k = choose|k: int| 0 <= k < before.len() && before[k] == segment;
                            assert(rows@[k] == segment);
                        }
                        if segment == edge {
                            assert(rows@[before.len() as int] == segment);
                        }
                    }
                }
                edge = edge + 1;
            }
        },
        Object::Point { .. } => {},
        Object::Text { .. } => {},
    }
    rows
}

/// Rebuild everything keyed on the working copy's revision, once per edit rather
/// than once per frame: a long contour is scanned only when it changes.
pub fn refresh_caches(dialog: &mut ObjectEditDialog, checks: Checks)
    ensures
        old(dialog).is_fresh() ==> *final(dialog) == *old(dialog),
        !old(dialog).is_fresh() ==> refreshed(*old(dialog), *final(dialog), checks),
        final(dialog).is_fresh(),
{
    if let Some(derived) = dialog.derived {
        if derived.revision == dialog.revision {
            return;
        }
    }
    let rows = list_arcs(&dialog.object, dialog.sticky_arc);
    if let Some(segment) = dialog.sticky_arc {
        if segment >= segment_total(&dialog.object) {
            dialog.sticky_arc = None;
        }
    }
    dialog.derived = Some(Derived { revision: dialog.revision, length: checks.length, area: checks.area });
    dialog.arc_rows = Some(ArcRows { revision: dialog.revision, rows });
    dialog.issue = checks.issue;
    dialog.message = None;
    let row_count = vertex_row_count(&dialog.object);
    if let Some(row) = dialog.selected_row {
        if row >= row_count {
            dialog.selected_row = if row_count == 0 {
                None
            } else {
                Some(row_count - 1)
            };
        }
    }
    let gone = match &dialog.editing_cell {
        Some(cell) => cell.row >= row_count,
        None => false,
    };
    if gone {
        dialog.editing_cell = None;
    }
}

/// Length and plan area of the working copy, from caches that are brought up to
/// date first.
pub fn derived_values(dialog: &mut ObjectEditDialog, checks: Checks) -> (r: (Real64, Option<Real64>))
    ensures
        old(dialog).is_fresh() ==> *final(dialog) == *old(dialog),
        !old(dialog).is_fresh() ==> refreshed(*old(dialog), *final(dialog), checks),
        final(dialog).derived matches Some(derived) && r == (derived.length, derived.area),
{
    refresh_caches(dialog, checks);
    match dialog.derived {
        Some(derived) => (derived.length, derived.area),
        None => (checks.length, checks.area),
    }
}

/// After a refresh the sheets agree with the working copy: the selected row and
/// the open cell exist, and the pinned segment is listed.
pub proof fn refreshed_sheets_agree(before: ObjectEditDialog, after: ObjectEditDialog, checks: Checks)
    requires
        refreshed(before, after, checks),
    ensures
        after.selected_row matches Some(row) ==> row < after.object.row_count(),
        after.editing_cell matches Some(cell) ==> cell.row < after.object.row_count(),
        after.sticky_arc matches Some(segment) ==> after.arc_rows->0.rows@.contains(segment),
        forall|i: int|
            0 <= i < after.arc_rows->0.rows@.len() ==> (#[trigger] after.arc_rows->0.rows@[i]) < after.object.segment_count(),
{
    let rows = after.arc_rows->0.rows@;
    assert forall|i: int| 0 <= i < rows.len() implies (#[trigger] rows[i]) < after.object.segment_count() by {
        assert(rows.contains(rows[i]));
    }
}

/// A text value that `commit_cell` leaves: an empty cell is asked for a number,
/// anything else is quoted back.
pub open spec fn refusal(message: Text, typed: Seq<char>) -> bool {
    if trimmed(typed).len() == 0 {
        message == literal("Enter a number")
    } else {
        &&& message.source == Source::Literal("\"%text%\" is not a number")
        &&& message.args matches Args::One(Named { name, value: Arg::Name(text) }) && name == "text" && text@ == trimmed(typed)
    }
}

/// What committing a typed cell did to the editor.
pub open spec fn cell_committed(
    before: ObjectEditDialog,
    after: ObjectEditDialog,
    row: usize,
    column: VertexColumn,
    typed: Seq<char>,
    parsed: Option<Real64>,
) -> bool {
    match parsed {
        Some(value) if value.finite() => {
            let writes = before.object.cell(row as int, column) matches Some(present) && !present.eq_number(value);
            if writes {
                &&& cell_replaced(before.object, after.object, row as int, column, value)
                &&& after == (ObjectEditDialog { object: after.object, revision: before.next_revision(), ..before })
            } else {
                after == before
            }
        },
        _ => {
            &&& after.message matches Some(message) && refusal(message, typed)
            &&& after == (ObjectEditDialog { message: after.message, ..before })
        },
    }
}

/// Write a typed cell to the working copy, given what its trimmed text parses
/// to. Infinities and not-a-number would poison the geometry, so they are
/// refused with the same complaint as text that is no number.
pub fn commit_cell(dialog: &mut ObjectEditDialog, row: usize, column: VertexColumn, text: &str, parsed: Option<Real64>) -> (r: bool)
    ensures
        r == (parsed matches Some(value) && value.finite()),
        cell_committed(*old(dialog), *final(dialog), row, column, text@, parsed),
{
    if let Some(value) = parsed {
        if value.is_finite() {
            if set_vertex_component(&mut dialog.object, row, column, value) {
                dialog.touch();
            }
            return true;
        }
    }
    let typed = trim(text);
    dialog.message = Some(
        if typed.as_str().is_empty() {
            literal("Enter a number")
        } else {
            literal1("\"%text%\" is not a number", named("text", Arg::Name(typed)))
        },
    );
    false
}

/// The vertex operation that a row button asks the model for.
#[derive(Clone, Copy, Debug, PartialEq, Eq, Structural)]
pub enum RowRequest {
    InsertAfter(usize),
    Delete(usize),
    Move { row: usize, up: bool },
    Reverse,
}

/// The operation behind a row button: none for an object without vertices, none
/// without a selected row, and no reversal of fewer than two vertices.
pub open spec fn requested(dialog: ObjectEditDialog, action: RowAction) -> Option<RowRequest> {
    match dialog.object {
        Object::Polyline { verts, .. } => match (action, dialog.selected_row) {
            (RowAction::Reverse, _) => if verts@.len() >= 2 {
                Some(RowRequest::Reverse)
            } else {
                None
            },
            (_, None) => None,
            (RowAction::InsertAfter, Some(row)) => Some(RowRequest::InsertAfter(row)),
            (RowAction::Delete, Some(row)) => Some(RowRequest::Delete(row)),
            (RowAction::MoveUp, Some(row)) => Some(RowRequest::Move { row, up: true }),
            (RowAction::MoveDown, Some(row)) => Some(RowRequest::Move { row, up: false }),
        },
        _ => None,
    }
}

pub fn row_request(dialog: &ObjectEditDialog, action: RowAction) -> (r: Option<RowRequest>)
    ensures
        r == requested(*dialog, action),
{
    match &dialog.object {
        Object::Polyline { verts, .. } => match (action, dialog.selected_row) {
            (RowAction::Reverse, _) => if verts.len() >= 2 {
                Some(RowRequest::Reverse)
            } else {
                None
            },
            (_, None) => None,
            (RowAction::InsertAfter, Some(row)) => Some(RowRequest::InsertAfter(row)),
            (RowAction::Delete, Some(row)) => Some(RowRequest::Delete(row)),
            (RowAction::MoveUp, Some(row)) => Some(RowRequest::Move { row, up: true }),
            (RowAction::MoveDown, Some(row)) => Some(RowRequest::Move { row, up: false }),
        },
        _ => None,
    }
}

/// The vertices after an operation that went through, and the row that the
/// operation reports.
#[derive(Debug)]
pub struct EditedRows {
    pub verts: Vec<Vertex>,
    pub row: usize,
}

/// Where the selection goes. An inserted or moved row takes it along; the row
/// below a deleted one slides into its place, unless the list ended there; a
/// reversal mirrors it.
pub open spec fn selection_after(request: RowRequest, selected: Option<usize>, before_count: nat, edited: EditedRows) -> Option<usize> {
    match request {
        RowRequest::InsertAfter(_) => Some(edited.row),
        RowRequest::Move { .. } => Some(edited.row),
        RowRequest::Delete(row) => if edited.verts@.len() == 0 {
            None
        } else if row <= edited.verts@.len() - 1 {
            Some(row)
        } else {
            Some((edited.verts@.len() - 1) as usize)
        },
        RowRequest::Reverse => match selected {
            Some(row) => Some(
                if row <= before_count - 1 {
                    (before_count - 1 - row) as usize
                } else {
                    0
                },
            ),
            None => None,
        },
    }
}

/// Take up what the model made of a row button's operation; `None` where the
/// model refused it.
pub fn apply_row_action(dialog: &mut ObjectEditDialog, action: RowAction, edited: Option<EditedRows>)
    ensures
        requested(*old(dialog), action) is None || edited is None ==> *final(dialog) == *old(dialog),
        requested(*old(dialog), action) matches Some(request) ==> (edited matches Some(rows) ==> {
            &&& old(dialog).object matches Object::Polyline { verts: _, closed, fill, line_weight, color } && final(dialog).object
                == (Object::Polyline { verts: rows.verts, closed, fill, line_weight, color })
            &&& *final(dialog) == (ObjectEditDialog {
                object: final(dialog).object,
                selected_row: selection_after(request, old(dialog).selected_row, old(dialog).object.row_count(), rows),
                editing_cell: None,
                revision: old(dialog).next_revision(),
                ..*old(dialog)
            })
        }),
{
    let request = match row_request(dialog, action) {
        Some(request) => request,
        None => {
            return;
        },
    };
    let rows = match edited {
        Some(rows) => rows,
        None => {
            return;
        },
    };
    let count = vertex_row_count(&dialog.object);
    let selected = dialog.selected_row;
    let remaining = rows.verts.len();
    dialog.selected_row = match request {
        RowRequest::InsertAfter(_) => Some(rows.row),
        RowRequest::Move { .. } => Some(rows.row),
        RowRequest::Delete(row) => if remaining == 0 {
            None
        } else if row <= remaining - 1 {
            Some(row)
        } else {
            Some(remaining - 1)
        },
        RowRequest::Reverse => match selected {
            Some(row) => Some(
                if row <= count - 1 {
                    count - 1 - row
                } else {
                    0
                },
            ),
            None => None,
        },
    };
    match &mut dialog.object {
        Object::Polyline { verts, .. } => {
            *verts = rows.verts;
        },
        _ => {},
    }
    dialog.editing_cell = None;
    dialog.touch();
}

/// Reversing twice brings the selection back to the row it was on.
pub proof fn reversal_mirrors_selection(selected: usize, count: nat, first: EditedRows, second: EditedRows)
    requires
        selected < count,
        count <= usize::MAX,
    ensures
        selection_after(
            RowRequest::Reverse,
            selection_after(RowRequest::Reverse, Some(selected), count, first),
            count,
            second,
        ) == Some(selected),
{
}

/// The end points of the segment leaving a vertex, and its bulge.
pub open spec fn segment_of(object: Object, index: int) -> Option<(int, int, Real64)> {
    match object {
        Object::Polyline { verts, .. } => if 0 <= index < object.segment_count() {
            Some(
                (
                    index,
                    if index + 1 < verts@.len() {
                        index + 1
                    } else {
                        0
                    },
                    verts@[index].bulge,
                ),
            )
        } else {
            None
        },
        _ => None,
    }
}

/// A segment by its two vertices, with its bulge.
#[derive(Clone, Copy, Debug, PartialEq, Eq, Structural)]
pub struct Segment {
    pub start: Vec3,
    pub end: Vec3,
    pub bulge: Real64,
}

/// The segment leaving vertex `index`; the last segment of a closed polyline
/// runs back to the first vertex.
pub fn arc_segment(object: &Object, index: usize) -> (r: Option<Segment>)
    ensures
        r is Some <==> segment_of(*object, index as int) is Some,
        r matches Some(segment) ==> object matches Object::Polyline { verts, .. } && segment_of(*object, index as int) matches Some(
            ends,
        ) && segment == (Segment { start: verts@[ends.0].pos, end: verts@[ends.1].pos, bulge: ends.2 }),
{
    match object {
        Object::Polyline { verts, .. } => {
            if index >= segment_total(object) {
                return None;
            }
            let next = if index + 1 < verts.len() {
                index + 1
            } else {
                0
            };
            Some(Segment { start: verts[index].pos, end: verts[next].pos, bulge: verts[index].bulge })
        },
        _ => None,
    }
}

/// Take up a bulge from the arc sheet. Touching a segment pins it, so that a
/// drag to zero cannot take its own row away; a bulge that is no finite number
/// is not written.
pub fn apply_arc_bulge(dialog: &mut ObjectEditDialog, segment: usize, bulge: Option<Real64>)
    ensures
        bulge is None ==> *final(dialog) == *old(dialog),
        bulge matches Some(value) ==> {
            let writes = value.finite() && (old(dialog).object.cell(segment as int, VertexColumn::Bulge) matches Some(present)
                && !present.eq_number(value));
            &&& writes ==> cell_replaced(old(dialog).object, final(dialog).object, segment as int, VertexColumn::Bulge, value)
            &&& !writes ==> final(dialog).object == old(dialog).object
            &&& *final(dialog) == (ObjectEditDialog {
                object: final(dialog).object,
                sticky_arc: Some(segment),
                revision: if writes {
                    old(dialog).next_revision()
                } else {
                    old(dialog).revision
                },
                ..*old(dialog)
            })
        },
{
    if let Some(value) = bulge {
        dialog.sticky_arc = Some(segment);
        if value.is_finite() && set_vertex_component(&mut dialog.object, segment, VertexColumn::Bulge, value) {
            dialog.touch();
        }
    }
}

/// A circle that a two-vertex polyline stands for.
#[derive(Clone, Copy, Debug, PartialEq, Eq, Structural)]
pub struct CircleSpec {
    pub center: Vec3,
    pub radius: Real64,
}

/// The circle that an object stands for, given what the model reads its vertices
/// as. Only a polyline can be one.
pub fn circle_spec(object: &Object, compact: Option<CircleSpec>) -> (r: Option<CircleSpec>)
    ensures
        object is Polyline ==> r == compact,
        !(object is Polyline) ==> r is None,
{
    match object {
        Object::Polyline { .. } => compact,
        Object::Point { .. } => None,
        Object::Text { .. } => None,
    }
}

/// Take up the vertices of an edited circle; `None` where the model refused.
pub fn apply_circle(dialog: &mut ObjectEditDialog, vertices: Option<Vec<Vertex>>)
    ensures
        vertices is None || !(old(dialog).object is Polyline) ==> *final(dialog) == *old(dialog),
        vertices matches Some(rows) ==> (old(dialog).object matches Object::Polyline {
            verts: _,
            closed,
            fill,
            line_weight,
            color,
        } ==> *final(dialog) == (ObjectEditDialog {
            object: Object::Polyline { verts: rows, closed, fill, line_weight, color },
            revision: old(dialog).next_revision(),
            ..*old(dialog)
        })),
{
    if let Some(rows) = vertices {
        let mut applied: bool = false;
        match &mut dialog.object {
            Object::Polyline { verts, .. } => {
                *verts = rows;
                applied = true;
            },
            _ => {},
        }
        if applied {
            dialog.touch();
        }
    }
}

/// Whether the arc sheet is offered: the object bends somewhere, or is a circle.
pub open spec fn arcs_available(dialog: ObjectEditDialog, circle: bool) -> bool {
    circle || (dialog.arc_rows matches Some(arcs) && arcs.rows@.len() > 0)
}

/// Leave an arc sheet that is no longer offered. Whether it is offered.
pub fn settle_tab(dialog: &mut ObjectEditDialog, circle: bool) -> (r: bool)
    ensures
        r == arcs_available(*old(dialog), circle),
        *final(dialog) == (ObjectEditDialog {
            tab: if !r && old(dialog).tab is Arcs {
                ObjectEditTab::Properties
            } else {
                old(dialog).tab
            },
            ..*old(dialog)
        }),
{
    let listed = match &dialog.arc_rows {
        Some(arcs) => arcs.rows.len() > 0,
        None => false,
    };
    let available = circle || listed;
    if !available && dialog.tab == ObjectEditTab::Arcs {
        dialog.tab = ObjectEditTab::Properties;
    }
    available
}

/// Turn to a sheet. The open cell is abandoned and the pinned segment released.
pub fn select_tab(dialog: &mut ObjectEditDialog, tab: ObjectEditTab)
    ensures
        *final(dialog) == (ObjectEditDialog { tab, editing_cell: None, sticky_arc: None, ..*old(dialog) }),
{
    dialog.tab = tab;
    dialog.editing_cell = None;
    dialog.sticky_arc = None;
}

/// One edit of the property sheet.
#[derive(Debug)]
pub enum PropertyEdit {
    ByLayer(bool),
    Color(Rgba),
    Closed(bool),
    Fill(FillStyle),
    LineWeight(Real32),
    Content(String),
    Height(Real64),
    /// In radians.
    Rotation(Real64),
}

/// Whether an edit can change lengths or validity. Colour, fill and line weight
/// cannot, so a long contour is not scanned again for them.
pub open spec fn needs_rescan(edit: PropertyEdit) -> bool {
    edit is Closed || edit is Content || edit is Height || edit is Rotation
}

/// The object after an edit of the property sheet; an edit that the kind of
/// object does not have leaves it alone.
pub open spec fn with_property(object: Object, layer_rgba: Rgba, edit: PropertyEdit) -> Object {
    match (edit, object) {
        (PropertyEdit::ByLayer(by_layer), _) => object.colored(
            if by_layer {
                ObjectColor::ByLayer
            } else {
                ObjectColor::Fixed(layer_rgba)
            },
        ),
        (PropertyEdit::Color(rgba), _) => object.colored(ObjectColor::Fixed(rgba)),
        (PropertyEdit::Closed(value), Object::Polyline { verts, closed: _, fill, line_weight, color }) => Object::Polyline {
            verts,
            closed: value,
            fill,
            line_weight,
            color,
        },
        (PropertyEdit::Fill(value), Object::Polyline { verts, closed, fill: _, line_weight, color }) => Object::Polyline {
            verts,
            closed,
            fill: value,
            line_weight,
            color,
        },
        (PropertyEdit::LineWeight(value), Object::Polyline { verts, closed, fill, line_weight: _, color }) => Object::Polyline {
            verts,
            closed,
            fill,
            line_weight: value,
            color,
        },
        (PropertyEdit::Content(value), Object::Text { pos, content: _, height, rotation, color }) => Object::Text {
            pos,
            content: value,
            height,
            rotation,
            color,
        },
        (PropertyEdit::Height(value), Object::Text { pos, content, height: _, rotation, color }) => Object::Text {
            pos,
            content,
            height: value,
            rotation,
            color,
        },
        (PropertyEdit::Rotation(value), Object::Text { pos, content, height, rotation: _, color }) => Object::Text {
            pos,
            content,
            height,
            rotation: value,
            color,
        },
        _ => object,
    }
}

/// Whether the kind of object has the edited property.
pub open spec fn has_property(object: Object, edit: PropertyEdit) -> bool {
    match edit {
        PropertyEdit::ByLayer(_) => true,
        PropertyEdit::Color(_) => true,
        PropertyEdit::Closed(_) => object is Polyline,
        PropertyEdit::Fill(_) => object is Polyline,
        PropertyEdit::LineWeight(_) => object is Polyline,
        PropertyEdit::Content(_) => object is Text,
        PropertyEdit::Height(_) => object is Text,
        PropertyEdit::Rotation(_) => object is Text,
    }
}

pub fn apply_property(dialog: &mut ObjectEditDialog, edit: PropertyEdit)
    ensures
        *final(dialog) == (ObjectEditDialog {
            object: with_property(old(dialog).object, old(dialog).layer_rgba, edit),
            revision: if needs_rescan(edit) && has_property(old(dialog).object, edit) {
                old(dialog).next_revision()
            } else {
                old(dialog).revision
            },
            ..*old(dialog)
        }),
{
    let layer_rgba = dialog.layer_rgba;
    let mut rescan: bool = false;
    match edit {
        PropertyEdit::ByLayer(by_layer) => {
            set_object_color(
                &mut dialog.object,
                if by_layer {
                    ObjectColor::ByLayer
                } else {
                    ObjectColor::Fixed(layer_rgba)
                },
            );
        },
        PropertyEdit::Color(rgba) => {
            set_object_color(&mut dialog.object, ObjectColor::Fixed(rgba));
        },
        PropertyEdit::Closed(value) => {
            if let Object::Polyline { closed, .. } = &mut dialog.object {
                *closed = value;
                rescan = true;
            }
        },
        PropertyEdit::Fill(value) => {
            if let Object::Polyline { fill, .. } = &mut dialog.object {
                *fill = value;
            }
        },
        PropertyEdit::LineWeight(value) => {
            if let Object::Polyline { line_weight, .. } = &mut dialog.object {
                *line_weight = value;
            }
        },
        PropertyEdit::Content(value) => {
            if let Object::Text { content, .. } = &mut dialog.object {
                *content = value;
                rescan = true;
            }
        },
        PropertyEdit::Height(value) => {
            if let Object::Text { height, .. } = &mut dialog.object {
                *height = value;
                rescan = true;
            }
        },
        PropertyEdit::Rotation(value) => {
            if let Object::Text { rotation, .. } = &mut dialog.object {
                *rotation = value;
                rescan = true;
            }
        },
    }
    if rescan {
        dialog.touch();
    }
}

/// The colour that the swatch shows, where it is shown at all: an object that
/// follows its layer has no swatch.
pub fn swatch_color(dialog: &ObjectEditDialog) -> (r: Option<Rgba>)
    ensures
        r == (match dialog.object.spec_color() {
            ObjectColor::Fixed(rgba) => Some(rgba),
            ObjectColor::ByLayer => None,
        }),
{
    match dialog.object.color() {
        ObjectColor::Fixed(rgba) => Some(rgba),
        ObjectColor::ByLayer => None,
    }
}

/// The line above the vertex sheet.
pub fn vertex_summary(object: &Object, length: Real64, area: Option<Real64>) -> (r: Text)
    ensures
        !(object is Polyline) ==> r == literal("This object has a single position."),
        object is Polyline && area is None ==> r == literal1(
            "Length %length% m",
            named("length", Arg::Fixed { value: length, decimals: 3 }),
        ),
        object is Polyline ==> (area matches Some(value) ==> r == literal2(
            "Perimeter %length% m, area %area% m²",
            named("length", Arg::Fixed { value: length, decimals: 3 }),
            named("area", Arg::Fixed { value, decimals: 3 }),
        )),
{
    match object {
        Object::Polyline { .. } => match area {
            Some(value) => literal2(
                "Perimeter %length% m, area %area% m²",
                named("length", Arg::Fixed { value: length, decimals: 3 }),
                named("area", Arg::Fixed { value, decimals: 3 }),
            ),
            None => literal1("Length %length% m", named("length", Arg::Fixed { value: length, decimals: 3 })),
        },
        _ => literal("This object has a single position."),
    }
}

/// The columns of the vertex sheet: a bulge only where there are segments.
pub fn sheet_columns(object: &Object) -> (r: Vec<VertexColumn>)
    ensures
        object is Polyline ==> r@ == seq![VertexColumn::X, VertexColumn::Y, VertexColumn::Z, VertexColumn::Bulge],
        !(object is Polyline) ==> r@ == seq![VertexColumn::X, VertexColumn::Y, VertexColumn::Z],
{
    match object {
        Object::Polyline { .. } => vec![VertexColumn::X, VertexColumn::Y, VertexColumn::Z, VertexColumn::Bulge],
        _ => vec![VertexColumn::X, VertexColumn::Y, VertexColumn::Z],
    }
}

/// The open cell lost the focus: Enter and blur commit it, Escape abandons it.
pub fn leave_cell(dialog: &mut ObjectEditDialog, escaped: bool, parsed: Option<Real64>)
    ensures
        old(dialog).editing_cell is None ==> *final(dialog) == *old(dialog),
        old(dialog).editing_cell matches Some(cell) ==> {
            let closed = ObjectEditDialog { editing_cell: None, ..*old(dialog) };
            if escaped {
                *final(dialog) == closed
            } else {
                cell_committed(closed, *final(dialog), cell.row, cell.column, cell.buffer@, parsed)
            }
        },
{
    if let Some(cell) = dialog.editing_cell.take() {
        if !escaped {
            commit_cell(dialog, cell.row, cell.column, cell.buffer.as_str(), parsed);
        }
    }
}

/// Open a cell on the full text of its value. The cell being left is committed
/// first, because a row scrolled out of sight never loses its focus.
pub fn adopt_cell(dialog: &mut ObjectEditDialog, row: usize, column: VertexColumn, text: String, previous: Option<Real64>)
    ensures
        final(dialog).editing_cell == Some(EditingCell { row, column, buffer: text }),
        final(dialog).selected_row == Some(row),
        ({
            let closed = ObjectEditDialog { editing_cell: None, ..*old(dialog) };
            let settled = ObjectEditDialog { editing_cell: None, selected_row: old(dialog).selected_row, ..*final(dialog) };
            match old(dialog).editing_cell {
                Some(cell) => cell_committed(closed, settled, cell.row, cell.column, cell.buffer@, previous),
                None => settled == closed,
            }
        }),
{
    leave_cell(dialog, false, previous);
    dialog.selected_row = Some(row);
    dialog.editing_cell = Some(EditingCell { row, column, buffer: text });
}

/// What became of the open cell when Apply or OK was pressed.
#[derive(Clone, Copy, Debug, PartialEq, Eq, Structural)]
pub enum CellOutcome {
    NoCell,
    Committed,
    Refused,
}

/// Pressing a button takes the focus off the open cell, so its value is committed
/// first. A value that is refused stays in its cell with the complaint showing.
pub fn commit_before_apply(dialog: &mut ObjectEditDialog, parsed: Option<Real64>) -> (r: CellOutcome)
    ensures
        old(dialog).editing_cell is None ==> r is NoCell && *final(dialog) == *old(dialog),
        old(dialog).editing_cell matches Some(cell) ==> {
            let closed = ObjectEditDialog { editing_cell: None, ..*old(dialog) };
            if parsed matches Some(value) && value.finite() {
                r is Committed && cell_committed(closed, *final(dialog), cell.row, cell.column, cell.buffer@, parsed)
            } else {
                &&& r is Refused
                &&& final(dialog).message matches Some(message) && refusal(message, cell.buffer@)
                &&& *final(dialog) == (ObjectEditDialog { message: final(dialog).message, ..*old(dialog) })
            }
        },
{
    match dialog.editing_cell.take() {
        None => CellOutcome::NoCell,
        Some(cell) => {
            if commit_cell(dialog, cell.row, cell.column, cell.buffer.as_str(), parsed) {
                CellOutcome::Committed
            } else {
                dialog.editing_cell = Some(cell);
                CellOutcome::Refused
            }
        },
    }
}

/// The buttons of the editor in one frame.
#[derive(Clone, Copy, Debug, PartialEq, Eq, Structural)]
pub struct EditPresses {
    pub apply: bool,
    pub confirm: bool,
    pub cancel: bool,
    /// Whether the title bar's close button left the window open.
    pub open: bool,
}

/// The verdict that a press of Apply or OK goes by: a cell that was open has the
/// working copy checked again.
pub open spec fn verdict(dialog: ObjectEditDialog, cell: CellOutcome, recheck: Option<ObjectEditIssue>) -> Option<ObjectEditIssue> {
    if cell is NoCell {
        dialog.issue
    } else {
        recheck
    }
}

/// Whether a press hands the working copy over: the cell was not refused and
/// nothing is wrong with it.
pub open spec fn hands_over(
    dialog: ObjectEditDialog,
    presses: EditPresses,
    cell: CellOutcome,
    recheck: Option<ObjectEditIssue>,
) -> bool {
    (presses.apply || presses.confirm) && !(cell is Refused) && verdict(dialog, cell, recheck) is None
}

/// Finish a frame of the editor. Cancel and the close button discard the working
/// copy, whatever else was pressed; Apply and OK hand a sound copy over, and OK
/// asks for the dialog to be closed once it is written.
pub fn finish_object_edit(
    slot: &mut Option<ObjectEditDialog>,
    presses: EditPresses,
    cell: CellOutcome,
    recheck: Option<ObjectEditIssue>,
    commands: &mut Vec<UiCommand>,
)
    ensures
        *old(slot) is None ==> *final(slot) is None && final(commands)@ == old(commands)@,
        presses.cancel || !presses.open ==> *final(slot) is None && final(commands)@ == old(commands)@,
        *old(slot) matches Some(dialog) ==> (!presses.cancel && presses.open ==> {
            &&& *final(slot) == Some(
                ObjectEditDialog {
                    issue: if presses.apply || presses.confirm {
                        verdict(dialog, cell, recheck)
                    } else {
                        dialog.issue
                    },
                    ..dialog
                },
            )
            &&& !hands_over(dialog, presses, cell, recheck) ==> final(commands)@ == old(commands)@
            &&& hands_over(dialog, presses, cell, recheck) ==> {
                &&& final(commands)@.len() == old(commands)@.len() + 1
                &&& final(commands)@.drop_last() == old(commands)@
                &&& final(commands)@.last() matches UiCommand::ApplyObjectEdit { id, object, close } && id == dialog.id
                    && object.same_content(dialog.object) && close == presses.confirm
            }
        }),
{
    if presses.cancel || !presses.open {
        *slot = None;
        return;
    }
    if let Some(dialog) = slot {
        if presses.apply || presses.confirm {
            if !matches!(cell, CellOutcome::NoCell) {
                dialog.issue = recheck;
            }
            if !matches!(cell, CellOutcome::Refused) && dialog.issue.is_none() {
                commands.push(
                    UiCommand::ApplyObjectEdit { id: dialog.id, object: dialog.object.duplicate(), close: presses.confirm },
                );
                assert(commands@.drop_last() =~= old(commands)@);
            }
        }
    }
}

/// Escape closes the editor unless a cell is open, whose own it then is. Whether
/// the editor closed.
pub fn close_on_escape(slot: &mut Option<ObjectEditDialog>, cancel_pressed: bool) -> (r: bool)
    ensures
        r == (cancel_pressed && (*old(slot) matches Some(dialog) && dialog.editing_cell is None)),
        r ==> *final(slot) is None,
        !r ==> *final(slot) == *old(slot),
{
    let closes = match slot {
        Some(dialog) => cancel_pressed && dialog.editing_cell.is_none(),
        None => false,
    };
    if closes {
        *slot = None;
    }
    closes
}

/// Each row button asks for its own operation on the selected row, and Move Up and Move
/// Down are opposites. Where there are vertices to reverse, no two buttons ask for the same.
pub proof fn row_buttons_ask_for_different_operations(dialog: ObjectEditDialog, first: RowAction, second: RowAction)
    requires
        dialog.object is Polyline,
        dialog.selected_row is Some,
    ensures
        requested(dialog, RowAction::MoveUp) matches Some(RowRequest::Move { row, up }) && row == dialog.selected_row->0 && up,
        requested(dialog, RowAction::MoveDown) matches Some(RowRequest::Move { row, up }) && row == dialog.selected_row->0 && !up,
        requested(dialog, RowAction::InsertAfter) matches Some(RowRequest::InsertAfter(row)) && row == dialog.selected_row->0,
        requested(dialog, RowAction::Delete) matches Some(RowRequest::Delete(row)) && row == dialog.selected_row->0,
        requested(dialog, first) == requested(dialog, second) ==> first == second,
{
}

/// A row button does something exactly where it has something to work on: reversing needs
/// two vertices and no selection, every other button a selected row, and an object without
/// vertices has nothing for any of them.
pub proof fn row_buttons_need_a_row(dialog: ObjectEditDialog, other: ObjectEditDialog, action: RowAction)
    ensures
        !(dialog.object is Polyline) ==> requested(dialog, action) is None,
        dialog.object is Polyline && !(action is Reverse) ==> (requested(dialog, action) is Some <==> dialog.selected_row is Some),
        dialog.object is Polyline ==> (requested(dialog, RowAction::Reverse) is Some <==> dialog.object.row_count() >= 2),
        dialog.object is Polyline ==> (requested(dialog, action) matches Some(RowRequest::Reverse) ==> action is Reverse),
        dialog.object == other.object ==> requested(dialog, RowAction::Reverse) == requested(other, RowAction::Reverse),
        dialog.object == other.object && dialog.selected_row == other.selected_row ==> requested(dialog, action) == requested(
            other,
            action,
        ),
{
}

/// The selection follows what was done to the rows. A row that was inserted or moved is
/// selected where it went. After a row is deleted the one that came after it is selected,
/// after the last row the one before it, and nothing once there are no rows. A reversal
/// takes the selection as far from the one end as it was from the other.
pub proof fn selection_follows_the_rows(request: RowRequest, selected: Option<usize>, count: nat, edited: EditedRows)
    requires
        count <= usize::MAX,
    ensures
        request is InsertAfter || request is Move ==> selection_after(request, selected, count, edited) == Some(edited.row),
        request matches RowRequest::Delete(row) ==> (row < count && edited.verts@.len() == count - 1 ==> {
            let after = selection_after(request, selected, count, edited);
            &&& row + 1 < count ==> after == Some(row)
            &&& row + 1 == count && count > 1 ==> (after matches Some(now) && now + 1 == row)
            &&& count == 1 ==> after is None
        }),
        request is Reverse ==> (selected is None <==> selection_after(request, selected, count, edited) is None),
        request is Reverse ==> (selected matches Some(row) ==> (row < count ==> (selection_after(request, selected, count, edited)
            matches Some(now) && now + row + 1 == count))),
{
}

/// However the rows are edited, the selection stays on a row that there is.
pub proof fn selection_stays_on_a_row(request: RowRequest, selected: Option<usize>, count: nat, edited: EditedRows)
    requires
        count <= usize::MAX,
        request is InsertAfter || request is Move ==> edited.row < edited.verts@.len(),
        request is Reverse ==> edited.verts@.len() == count && count > 0,
    ensures
        selection_after(request, selected, count, edited) matches Some(row) ==> row < edited.verts@.len(),
{
}

/// The segments of a polyline follow each other: each ends at the vertex that the next one
/// leaves, and the last one of a closed polyline ends at the first vertex. A closed polyline
/// has as many segments as vertices, an open one has one fewer, and each has the bulge of
/// the vertex that it leaves.
pub proof fn segments_join_neighbours(object: Object, index: int)
    requires
        object is Polyline,
    ensures
        object matches Object::Polyline { verts, closed, .. } ==> {
            &&& closed ==> object.segment_count() == verts@.len()
            &&& !closed && verts@.len() > 0 ==> object.segment_count() + 1 == verts@.len()
            &&& segment_of(object, index) is Some <==> 0 <= index < object.segment_count()
            &&& segment_of(object, index) matches Some(ends) ==> {
                &&& ends.0 == index
                &&& ends.2 == verts@[index].bulge
                &&& 0 <= ends.1 < verts@.len()
                &&& ends.1 == (index + 1) % (verts@.len() as int)
            }
        },
{
    if let Object::Polyline { verts, .. } = object {
        if 0 <= index && index + 1 < verts@.len() {
            vstd::arithmetic::div_mod::lemma_small_mod((index + 1) as nat, verts@.len());
        } else if index >= 0 && index + 1 == verts@.len() {
            vstd::arithmetic::div_mod::lemma_mod_self_0(verts@.len() as int);
        }
    }
}

/// A cell shows the coordinate of its column, and only the vertices that a segment leaves
/// have a bulge.
pub proof fn cells_show_the_vertices(object: Object, row: int)
    ensures
        object.cell(row, VertexColumn::X) is Some <==> 0 <= row < object.row_count(),
        object matches Object::Polyline { verts, .. } ==> (0 <= row < verts@.len() ==> {
            &&& object.cell(row, VertexColumn::X) == Some(verts@[row].pos.x)
            &&& object.cell(row, VertexColumn::Y) == Some(verts@[row].pos.y)
            &&& object.cell(row, VertexColumn::Z) == Some(verts@[row].pos.z)
            &&& row < object.segment_count() ==> object.cell(row, VertexColumn::Bulge) == Some(verts@[row].bulge)
        }),
        object matches Object::Polyline { verts, .. } ==> object.row_count() == verts@.len(),
        !(object is Polyline) ==> object.row_count() == 1,
        object matches Object::Point { pos, .. } ==> object.cell(0, VertexColumn::X) == Some(pos.x) && object.cell(
            0,
            VertexColumn::Y,
        ) == Some(pos.y) && object.cell(0, VertexColumn::Z) == Some(pos.z),
        object matches Object::Text { pos, .. } ==> object.cell(0, VertexColumn::X) == Some(pos.x) && object.cell(
            0,
            VertexColumn::Y,
        ) == Some(pos.y) && object.cell(0, VertexColumn::Z) == Some(pos.z),
        object.cell(row, VertexColumn::Bulge) is Some <==> 0 <= row < object.segment_count(),
{
}

/// A property that is set reads back as what it was set to, and nothing else of the object
/// changes: an edit of the colour leaves the shape alone, one of the shape the colour, and
/// no edit moves a vertex.
pub proof fn property_edits_change_one_thing(object: Object, layer_rgba: Rgba, edit: PropertyEdit, row: int, column: VertexColumn)
    ensures
        ({
            let after = with_property(object, layer_rgba, edit);
            &&& edit matches PropertyEdit::ByLayer(by_layer) ==> after.spec_color() == (if by_layer {
                ObjectColor::ByLayer
            } else {
                ObjectColor::Fixed(layer_rgba)
            })
            &&& edit matches PropertyEdit::Color(rgba) ==> after.spec_color() == ObjectColor::Fixed(rgba)
            &&& !(edit is ByLayer) && !(edit is Color) ==> after.spec_color() == object.spec_color()
            &&& after.row_count() == object.row_count()
            &&& !(column is Bulge) ==> after.cell(row, column) == object.cell(row, column)
            &&& !(edit is Closed) ==> after.cell(row, column) == object.cell(row, column)
            &&& !has_property(object, edit) ==> after == object
            &&& object matches Object::Polyline { verts, closed, fill, line_weight, .. } ==> (after matches Object::Polyline {
                verts: v,
                closed: c,
                fill: f,
                line_weight: w,
                ..
            } && v == verts && c == (match edit {
                PropertyEdit::Closed(value) => value,
                _ => closed,
            }) && f == (match edit {
                PropertyEdit::Fill(value) => value,
                _ => fill,
            }) && w == (match edit {
                PropertyEdit::LineWeight(value) => value,
                _ => line_weight,
            }))
            &&& object matches Object::Text { pos, content, height, rotation, .. } ==> (after matches Object::Text {
                pos: p,
                content: s,
                height: h,
                rotation: r,
                ..
            } && p == pos && s == (match edit {
                PropertyEdit::Content(value) => value,
                _ => content,
            }) && h == (match edit {
                PropertyEdit::Height(value) => value,
                _ => height,
            }) && r == (match edit {
                PropertyEdit::Rotation(value) => value,
                _ => rotation,
            }))
            &&& object is Point ==> (after matches Object::Point { pos, .. } && object matches Object::Point { pos: p, .. } && pos == p)
        }),
{
}

/// An edit that is not scanned for leaves lengths and validity as they are: every vertex,
/// whether the shape is closed, and the text with its size. An edit of any of these is
/// scanned for.
pub proof fn scans_follow_what_can_change(object: Object, layer_rgba: Rgba, edit: PropertyEdit)
    ensures
        ({
            let after = with_property(object, layer_rgba, edit);
            &&& !needs_rescan(edit) ==> after.segment_count() == object.segment_count() && (object matches Object::Polyline {
                verts,
                closed,
                ..
            } ==> (after matches Object::Polyline { verts: v, closed: c, .. } && v == verts && c == closed)) && (object matches Object::Text {
                content,
                height,
                rotation,
                ..
            } ==> (after matches Object::Text { content: s, height: h, rotation: r, .. } && s == content && h == height && r == rotation))
            &&& edit is Closed || edit is Content || edit is Height || edit is Rotation ==> needs_rescan(edit)
            &&& edit is ByLayer || edit is Color || edit is Fill || edit is LineWeight ==> !needs_rescan(edit)
        }),
{
}

/// The arc sheet lists each segment that bends once, in rising order, and a straight one
/// only while it is pinned. A segment without a bulge never bends, and one whose bulge is
/// no number does not either.
pub proof fn arc_sheet_lists_bends(rows: Seq<usize>, object: Object, pinned: Option<usize>, segment: usize)
    requires
        lists_arcs(rows, object, pinned),
    ensures
        rows.no_duplicates(),
        rows.contains(segment) && pinned != Some(segment) ==> object.bends(segment as int),
        segment < object.segment_count() && object.bends(segment as int) ==> rows.contains(segment),
        rows.contains(segment) ==> segment < object.segment_count(),
        pinned == Some(segment) && segment < object.segment_count() ==> rows.contains(segment),
        object matches Object::Polyline { verts, .. } ==> {
            let bulge = verts@[segment as int].bulge;
            &&& bulge.rank() == 0 || !bulge.finite() ==> !object.bends(segment as int)
            &&& bulge.finite() && bulge.magnitude() >= Real64 { bits: ONE }.magnitude() ==> object.bends(segment as int)
        },
{
}

/// A segment that mirrors another bends with it: the sign of a bulge only says to which
/// side.
pub proof fn bends_to_either_side(object: Object, mirrored: Object, segment: int)
    requires
        object is Polyline,
        mirrored is Polyline,
        ({
            let a = object->Polyline_verts@[segment].bulge;
            let b = mirrored->Polyline_verts@[segment].bulge;
            a.magnitude() == b.magnitude()
        }),
    ensures
        object.bends(segment) == mirrored.bends(segment),
{
}

/// A pinned segment stays pinned exactly while the object has it.
pub proof fn pin_lasts_with_its_segment(object: Object, segment: usize)
    ensures
        segment < object.segment_count() ==> still_pinned(object, Some(segment)) == Some(segment),
        segment >= object.segment_count() ==> still_pinned(object, Some(segment)) is None,
        still_pinned(object, None) is None,
{
}

/// A working copy is handed over only on a press, never with a refused cell and never with
/// something wrong with it; with neither, a press always hands it over. A cell that was open
/// has the copy judged afresh, otherwise the last judgement stands.
pub proof fn sound_copies_are_handed_over(
    dialog: ObjectEditDialog,
    presses: EditPresses,
    cell: CellOutcome,
    recheck: Option<ObjectEditIssue>,
)
    ensures
        !presses.apply && !presses.confirm ==> !hands_over(dialog, presses, cell, recheck),
        cell is Refused ==> !hands_over(dialog, presses, cell, recheck),
        cell is NoCell && dialog.issue is Some ==> !hands_over(dialog, presses, cell, recheck),
        cell is Committed && recheck is Some ==> !hands_over(dialog, presses, cell, recheck),
        (presses.apply || presses.confirm) && cell is NoCell && dialog.issue is None ==> hands_over(dialog, presses, cell, recheck),
        (presses.apply || presses.confirm) && cell is Committed && recheck is None ==> hands_over(dialog, presses, cell, recheck),
        cell is NoCell ==> verdict(dialog, cell, recheck) == dialog.issue,
        !(cell is NoCell) ==> verdict(dialog, cell, recheck) == recheck,
{
}

/// A cell takes any finite number and nothing else. What is refused leaves the object as it
/// was and says so; what is taken is what the cell then shows.
pub proof fn cells_take_numbers(
    before: ObjectEditDialog,
    after: ObjectEditDialog,
    row: usize,
    column: VertexColumn,
    typed: Seq<char>,
    parsed: Option<Real64>,
)
    requires
        cell_committed(before, after, row, column, typed, parsed),
    ensures
        parsed is None ==> after.object == before.object && after.revision == before.revision && after.message is Some,
        parsed matches Some(value) ==> (!value.finite() ==> after.object == before.object && after.revision == before.revision
            && after.message is Some),
        parsed matches Some(value) ==> (value.finite() && before.object.cell(row as int, column) is Some ==> (after.object.cell(
            row as int,
            column,
        ) matches Some(now) && now.eq_number(value))),
        parsed matches Some(value) ==> (value.finite() ==> after.message == before.message),
        after.object != before.object ==> after.revision != before.revision,
        after.id == before.id && after.baseline == before.baseline && after.tab == before.tab && after.selected_row
            == before.selected_row && after.sticky_arc == before.sticky_arc,
        parsed is None && trimmed(typed).len() == 0 ==> after.message->0.args == Args::Zero,
        parsed is None && trimmed(typed).len() > 0 ==> after.message->0.args is One,
{
    if let Some(value) = parsed {
        if value.finite() && before.object.cell(row as int, column) is Some {
            let present = before.object.cell(row as int, column)->0;
            if !present.eq_number(value) {
                written_cell_reads_back(before.object, after.object, row as int, column, value, row as int, column);
            }
        }
    }
}

/// Setting the colour gives the object that colour and changes nothing else.
pub proof fn coloured_objects_keep_their_shape(object: Object, paint: ObjectColor, other: ObjectColor)
    ensures
        object.colored(paint).spec_color() == paint,
        object.colored(other).colored(paint) == object.colored(paint),
        object.colored(object.spec_color()) == object,
        object.colored(paint).row_count() == object.row_count(),
        object.colored(paint).segment_count() == object.segment_count(),
{
}

/// Objects of the same content are of one kind and agree in every cell, in their colour and in
/// whether they close; every object has its own content.
pub proof fn same_content_shows_in_every_cell(a: Object, b: Object, row: int, column: VertexColumn)
    ensures
        a.same_content(a),
        a.same_content(b) ==> b.same_content(a),
        a.same_content(b) ==> a.spec_kind() == b.spec_kind() && a.row_count() == b.row_count(),
        a.same_content(b) ==> a.segment_count() == b.segment_count(),
        a.same_content(b) ==> a.cell(row, column) == b.cell(row, column),
        a is Point && b is Point && a->Point_color != b->Point_color ==> !a.same_content(b),
        a is Text && b is Text && (a->Text_content@ != b->Text_content@ || a->height != b->height || a->rotation != b->rotation
            || a->Text_color != b->Text_color) ==> !a.same_content(b),
        a is Polyline && b is Polyline && (a->closed != b->closed || a->fill != b->fill || a->line_weight != b->line_weight
            || a->Polyline_color != b->Polyline_color) ==> !a.same_content(b),
{
}

/// A position that is moved along one coordinate keeps the others, and a vertex that is given
/// another bulge stays where it is.
pub proof fn vertices_change_in_one_column(vertex: Vertex, value: Real64)
    ensures
        moved(vertex.pos, VertexColumn::X, value).x == value,
        moved(vertex.pos, VertexColumn::X, value).y == vertex.pos.y && moved(vertex.pos, VertexColumn::X, value).z == vertex.pos.z,
        moved(vertex.pos, VertexColumn::Y, value).y == value,
        moved(vertex.pos, VertexColumn::Y, value).x == vertex.pos.x && moved(vertex.pos, VertexColumn::Y, value).z == vertex.pos.z,
        moved(vertex.pos, VertexColumn::Z, value).z == value,
        moved(vertex.pos, VertexColumn::Z, value).x == vertex.pos.x && moved(vertex.pos, VertexColumn::Z, value).y == vertex.pos.y,
        retyped(vertex, VertexColumn::Bulge, value).bulge == value && retyped(vertex, VertexColumn::Bulge, value).pos == vertex.pos,
        retyped(vertex, VertexColumn::X, value).bulge == vertex.bulge && retyped(vertex, VertexColumn::Y, value).bulge == vertex.bulge
            && retyped(vertex, VertexColumn::Z, value).bulge == vertex.bulge,
{
}

/// The arc sheet is offered for every circle, for every line with a bend in its list, and for
/// nothing else.
pub proof fn arc_sheet_is_offered_for_bends(dialog: ObjectEditDialog)
    ensures
        arcs_available(dialog, true),
        dialog.arc_rows is None ==> !arcs_available(dialog, false),
        dialog.arc_rows matches Some(arcs) ==> (arcs.rows@.len() == 0 ==> !arcs_available(dialog, false)),
        dialog.arc_rows matches Some(arcs) ==> (arcs.rows@.len() > 0 ==> arcs_available(dialog, false)),
{
}

/// A refused cell that is empty is asked for a number, and any other is quoted without the
/// space around it.
pub proof fn refusals_quote_what_was_typed(message: Text, typed: Seq<char>)
    requires
        refusal(message, typed),
    ensures
        trimmed(typed).len() == 0 ==> message == literal("Enter a number"),
        trimmed(typed).len() > 0 ==> message.source == Source::Literal("\"%text%\" is not a number"),
        trimmed(typed).len() > 0 ==> (message.args matches Args::One(Named { name, value: Arg::Name(text) }) && name == "text" && text@
            == trimmed(typed)),
{
}

} // verus!
