//! How the selection looks, and where that is edited.
use crate::command::UiCommand;
use crate::constants::SINGLE_ONE;
use crate::document::{Document, OpenBlockModel};
use crate::editor::EditorState;
use crate::ids::{BlockModelId, ObjectId, SceneEntityId, TriangulationId};
use crate::lists::copied;
use crate::model::{FillStyle, Object, ObjectColor};
use crate::number::{Real32, Rgba};
use crate::project_view::{UiProjectView, UiTriangulationEntry};
use crate::state::block_model::BlockModelState;
use crate::state::drawing::{CanvasDialogs, MoveToLayerDialog};
use crate::text::{key, literal, Text};
use crate::tools::PropertyTab;
use vstd::prelude::*;

verus! {

/// The tabs of the preferences dialog, in order, with what they are called. The
/// reserves tab is set from the planning viewport and is none of them.
#[verifier::allow_in_spec]
pub fn preferences_tab(place: usize) -> (r: Option<(PropertyTab, &'static str)>)
    returns
        (if place == 0 {
            Some((PropertyTab::Interface, "Interface"))
        } else if place == 1 {
            Some((PropertyTab::Camera, "Camera"))
        } else if place == 2 {
            Some((PropertyTab::Performance, "Performance"))
        } else if place == 3 {
            Some((PropertyTab::Developer, "Developer"))
        } else {
            None
        }),
{
    if place == 0 {
        Some((PropertyTab::Interface, "Interface"))
    } else if place == 1 {
        Some((PropertyTab::Camera, "Camera"))
    } else if place == 2 {
        Some((PropertyTab::Performance, "Performance"))
    } else if place == 3 {
        Some((PropertyTab::Developer, "Developer"))
    } else {
        None
    }
}

impl EditorState {
    /// Take a frame of the preferences dialog: a clicked tab, and whether the window is
    /// still open. Nothing happens while it is not shown.
    pub fn take_preferences(&mut self, clicked: Option<PropertyTab>, open: bool)
        ensures
            !old(self).view.display.show_preferences ==> *final(self) == *old(self),
            old(self).view.display.show_preferences ==> {
                &&& final(self).view.display.show_preferences == open
                &&& final(self).workspace.property_tab == (match clicked {
                    Some(tab) => tab,
                    None => old(self).workspace.property_tab,
                })
            },
            *final(self) == (EditorState {
                view: crate::state::view::ViewState {
                    display: crate::state::view::DisplayState {
                        show_preferences: final(self).view.display.show_preferences,
                        ..old(self).view.display
                    },
                    ..old(self).view
                },
                workspace: crate::editor::WorkspaceState {
                    property_tab: final(self).workspace.property_tab,
                    ..old(self).workspace
                },
                ..*old(self)
            }),
    {
        if !self.view.display.show_preferences {
            return;
        }
        if let Some(tab) = clicked {
            self.workspace.property_tab = tab;
        }
        self.view.display.show_preferences = open;
    }
}

/// The kinds of design object that are edited together.
#[derive(Clone, Copy, Debug, PartialEq, Eq, Structural)]
pub enum DesignKind {
    Polylines,
    Points,
    Texts,
}

impl DesignKind {
    #[verifier::allow_in_spec]
    pub fn heading(self) -> (r: Text)
        returns
            (match self {
                DesignKind::Polylines => key("context-polylines"),
                DesignKind::Points => key("context-points"),
                DesignKind::Texts => literal("Text"),
            }),
    {
        match self {
            DesignKind::Polylines => key("context-polylines"),
            DesignKind::Points => key("context-points"),
            DesignKind::Texts => literal("Text"),
        }
    }

    pub open spec fn covers(self, object: Object) -> bool {
        match self {
            DesignKind::Polylines => object is Polyline,
            DesignKind::Points => object is Point,
            DesignKind::Texts => object is Text,
        }
    }

    /// An object of this kind that is selected and in the document.
    pub open spec fn selects(self, id: ObjectId, selected: Set<SceneEntityId>, document: Document) -> bool {
        &&& selected.contains(SceneEntityId::Object(id))
        &&& document.object(id) is Some
        &&& self.covers(document.object(id)->0)
    }

    fn covers_object(self, object: &Object) -> (r: bool)
        ensures
            r == self.covers(*object),
    {
        match (self, object) {
            (DesignKind::Polylines, Object::Polyline { .. }) => true,
            (DesignKind::Points, Object::Point { .. }) => true,
            (DesignKind::Texts, Object::Text { .. }) => true,
            _ => false,
        }
    }
}

/// Identities that rise.
pub open spec fn rising(ids: Seq<ObjectId>) -> bool {
    forall|i: int, j: int| 0 <= i < j < ids.len() ==> #[trigger] ids[i].0 < #[trigger] ids[j].0
}

/// A list of the selected objects of one kind, each once, by rising identity.
pub open spec fn lists_selected(ids: Seq<ObjectId>, kind: DesignKind, selected: Set<SceneEntityId>, document: Document) -> bool {
    &&& rising(ids)
    &&& forall|id: ObjectId| #[trigger] ids.contains(id) <==> kind.selects(id, selected, document)
}

/// The list is settled by the selection.
pub proof fn selected_list_is_determined(
    a: Seq<ObjectId>,
    b: Seq<ObjectId>,
    kind: DesignKind,
    selected: Set<SceneEntityId>,
    document: Document,
)
    requires
        lists_selected(a, kind, selected, document),
        lists_selected(b, kind, selected, document),
    ensures
        a == b,
{
    assert forall|id: ObjectId| a.contains(id) <==> b.contains(id) by {
        assert(a.contains(id) <==> kind.selects(id, selected, document));
        assert(b.contains(id) <==> kind.selects(id, selected, document));
    }
    lemma_rising_same(a, b);
}

proof fn lemma_rising_same(a: Seq<ObjectId>, b: Seq<ObjectId>)
    requires
        rising(a),
        rising(b),
        forall|id: ObjectId| a.contains(id) <==> b.contains(id),
    ensures
        a == b,
    decreases a.len(),
{
    if a.len() == 0 {
        if b.len() > 0 {
            assert(b.contains(b[0]));
        }
        assert(a =~= b);
    } else {
        assert(a.contains(a.last()));
        assert(b.contains(a.last()));
        assert(b.len() > 0);
        assert(b.contains(b.last()));
        assert(a.contains(b.last()));
        let k = choose|k: int| 0 <= k < b.len() && b[k] == a.last();
        let l = choose|l: int| 0 <= l < a.len() && a[l] == b.last();
        assert(a.last() == b.last()) by {
            if k < b.len() - 1 {
                assert(b[k].0 < b[b.len() - 1].0);
            }
            if l < a.len() - 1 {
                assert(a[l].0 < a[a.len() - 1].0);
            }
        }
        let ra = a.drop_last();
        let rb = b.drop_last();
        assert(rising(ra)) by {
            assert forall|i: int, j: int| 0 <= i < j < ra.len() implies #[trigger] ra[i].0 < #[trigger] ra[j].0 by {
                assert(a[i].0 < a[j].0);
            }
        }
        assert(rising(rb)) by {
            assert forall|i: int, j: int| 0 <= i < j < rb.len() implies #[trigger] rb[i].0 < #[trigger] rb[j].0 by {
                assert(b[i].0 < b[j].0);
            }
        }
        assert forall|id: ObjectId| ra.contains(id) <==> rb.contains(id) by {
            if ra.contains(id) {
                let i = choose|i: int| 0 <= i < ra.len() && ra[i] == id;
                assert(a[i] == id && a[i].0 < a[a.len() - 1].0);
                assert(b.contains(id));
                let j = choose|j: int| 0 <= j < b.len() && b[j] == id;
                assert(j != b.len() - 1);
                assert(rb[j] == id);
            }
            if rb.contains(id) {
                let i = choose|i: int| 0 <= i < rb.len() && rb[i] == id;
                assert(b[i] == id && b[i].0 < b[b.len() - 1].0);
                assert(a.contains(id));
                let j = choose|j: int| 0 <= j < a.len() && a[j] == id;
                assert(j != a.len() - 1);
                assert(ra[j] == id);
            }
        }
        lemma_rising_same(ra, rb);
        assert(a =~= ra.push(a.last()));
        assert(b =~= rb.push(b.last()));
    }
}

/// Put an identity in its place.
fn insert_rising(ids: &mut Vec<ObjectId>, id: ObjectId)
    requires
        rising(old(ids)@),
        !old(ids)@.contains(id),
    ensures
        rising(final(ids)@),
        forall|other: ObjectId| #[trigger] final(ids)@.contains(other) <==> old(ids)@.contains(other) || other == id,
{
    let mut place: usize = 0;
    while place < ids.len() && ids[place].0 < id.0
        invariant
            place <= ids@.len(),
            forall|k: int| 0 <= k < place ==> #[trigger] ids@[k].0 < id.0,
        decreases ids@.len() - place,
    {
        place = place + 1;
    }
    let ghost before = ids@;
    proof {
        if place < ids@.len() {
            assert(before.contains(before[place as int]));
            assert(before[place as int].0 > id.0);
        }
    }
    ids.insert(place, id);
    proof {
        assert(ids@ =~= before.insert(place as int, id));
        assert forall|i: int, j: int| 0 <= i < j < ids@.len() implies #[trigger] ids@[i].0 < #[trigger] ids@[j].0 by {
            let a = if i < place {
                i
            } else {
                i - 1
            };
            let b = if j < place {
                j
            } else {
                j - 1
            };
            if i < place && j < place {
                assert(before[i].0 < before[j].0);
            } else if i < place && j == place {
            } else if i < place && j > place {
                assert(before[i].0 < before[b].0);
            } else if i == place {
                if b > place {
                    assert(before[place as int].0 < before[b].0);
                }
            } else {
                assert(before[a].0 < before[b].0);
            }
        }
        assert forall|other: ObjectId| #[trigger] ids@.contains(other) <==> before.contains(other) || other == id by {
            if before.contains(other) {
                let k = choose|k: int| 0 <= k < before.len() && before[k] == other;
                if k < place {
                    assert(ids@[k] == other);
                } else {
                    assert(ids@[k + 1] == other);
                }
            }
            if other == id {
                assert(ids@[place as int] == other);
            }
            if ids@.contains(other) {
                let k = choose|k: int| 0 <= k < ids@.len() && ids@[k] == other;
                if k < place {
                    assert(before[k] == other);
                } else if k > place {
                    assert(before[k - 1] == other);
                }
            }
        }
    }
}

/// The selected objects of one kind, by rising identity.
pub fn selected_of_kind(editor: &EditorState, document: &Document, kind: DesignKind) -> (r: Vec<ObjectId>)
    ensures
        lists_selected(r@, kind, editor.selection.selected_handles@, *document),
{
    let handles = editor.selection.selected_handles.as_vec();
    let ghost selected = editor.selection.selected_handles@;
    let mut ids: Vec<ObjectId> = Vec::new();
    let mut i: usize = 0;
    while i < handles.len()
        invariant
            i <= handles@.len(),
            handles@.no_duplicates(),
            handles@.to_set() == selected,
            rising(ids@),
            forall|id: ObjectId| #[trigger]
                ids@.contains(id) <==> handles@.take(i as int).contains(SceneEntityId::Object(id)) && document.object(id) is Some
                    && kind.covers(document.object(id)->0),
        decreases handles@.len() - i,
    {
        let handle = handles[i];
        let ghost seen = handles@.take(i as int);
        let ghost next = handles@.take(i + 1);
        assert(next =~= seen.push(handle));
        assert(!seen.contains(handle)) by {
            if seen.contains(handle) {
                let k = choose|k: int| 0 <= k < seen.len() && seen[k] == handle;
                assert(handles@[k] == handles@[i as int]);
            }
        }
        let ghost before = ids@;
        let mut added = false;
        if let SceneEntityId::Object(id) = handle {
            if let Some(object) = document.get_object(id) {
                if kind.covers_object(object) {
                    insert_rising(&mut ids, id);
                    added = true;
                }
            }
        }
        proof {
            assert forall|id: ObjectId| #[trigger] ids@.contains(id) <==> next.contains(SceneEntityId::Object(id)) && document.object(
                id,
            ) is Some && kind.covers(document.object(id)->0) by {
                let entity = SceneEntityId::Object(id);
                assert(next.contains(entity) <==> seen.contains(entity) || entity == handle) by {
                    if seen.contains(entity) {
                        let k = choose|k: int| 0 <= k < seen.len() && seen[k] == entity;
                        assert(next[k] == entity);
                    }
                    if entity == handle {
                        assert(next[i as int] == entity);
                    }
                    if next.contains(entity) {
                        let k = choose|k: int| 0 <= k < next.len() && next[k] == entity;
                        if k < i {
                            assert(seen[k] == entity);
                        }
                    }
                }
                assert(before.contains(id) <==> seen.contains(entity) && document.object(id) is Some && kind.covers(
                    document.object(id)->0,
                ));
            }
        }
        i = i + 1;
    }
    proof {
        assert(handles@.take(i as int) =~= handles@);
        assert forall|id: ObjectId| #[trigger] ids@.contains(id) <==> kind.selects(id, selected, *document) by {
            assert(handles@.contains(SceneEntityId::Object(id)) <==> selected.contains(SceneEntityId::Object(id)));
        }
    }
    ids
}

/// What a selected entity is counted as under the headings.
#[derive(Clone, Copy, Debug, PartialEq, Eq, Structural)]
pub enum SelectedType {
    Polyline,
    Point,
    Text,
    Triangulation,
    BlockModel,
    DrillHole,
    PointCloud,
}

impl SelectedType {
    /// An object that is no longer in the document counts as nothing.
    pub open spec fn spec_of(handle: SceneEntityId, document: Document) -> Option<SelectedType> {
        match handle {
            SceneEntityId::Object(id) => match document.object(id) {
                Some(Object::Polyline { .. }) => Some(SelectedType::Polyline),
                Some(Object::Point { .. }) => Some(SelectedType::Point),
                Some(Object::Text { .. }) => Some(SelectedType::Text),
                None => None,
            },
            SceneEntityId::Triangulation(_) => Some(SelectedType::Triangulation),
            SceneEntityId::BlockModel(_) => Some(SelectedType::BlockModel),
            SceneEntityId::DrillHole(_) => Some(SelectedType::DrillHole),
            SceneEntityId::PointCloud(_) => Some(SelectedType::PointCloud),
        }
    }

    pub fn of(handle: SceneEntityId, document: &Document) -> (r: Option<SelectedType>)
        ensures
            r == SelectedType::spec_of(handle, *document),
    {
        match handle {
            SceneEntityId::Object(id) => match document.get_object(id) {
                Some(Object::Polyline { .. }) => Some(SelectedType::Polyline),
                Some(Object::Point { .. }) => Some(SelectedType::Point),
                Some(Object::Text { .. }) => Some(SelectedType::Text),
                None => None,
            },
            SceneEntityId::Triangulation(_) => Some(SelectedType::Triangulation),
            SceneEntityId::BlockModel(_) => Some(SelectedType::BlockModel),
            SceneEntityId::DrillHole(_) => Some(SelectedType::DrillHole),
            SceneEntityId::PointCloud(_) => Some(SelectedType::PointCloud),
        }
    }
}

/// Two selected entities are of different types.
pub open spec fn is_mixed(selected: Set<SceneEntityId>, document: Document) -> bool {
    exists|a: SceneEntityId, b: SceneEntityId|
        #![trigger SelectedType::spec_of(a, document), SelectedType::spec_of(b, document)]
        selected.contains(a) && selected.contains(b) && SelectedType::spec_of(a, document) is Some && SelectedType::spec_of(
            b,
            document,
        ) is Some && SelectedType::spec_of(a, document) != SelectedType::spec_of(b, document)
}

/// Whether the groups of the menu carry headings: once more than one type is
/// selected.
pub fn shows_headings(editor: &EditorState, document: &Document) -> (r: bool)
    ensures
        r == is_mixed(editor.selection.selected_handles@, *document),
{
    let handles = editor.selection.selected_handles.as_vec();
    let ghost selected = editor.selection.selected_handles@;
    let mut seen: Option<SelectedType> = None;
    let ghost mut witness: SceneEntityId = arbitrary();
    let mut i: usize = 0;
    while i < handles.len()
        invariant
            i <= handles@.len(),
            handles@.to_set() == selected,
            selected == editor.selection.selected_handles@,
            seen is Some ==> selected.contains(witness) && SelectedType::spec_of(witness, *document) == seen,
            forall|k: int|
                0 <= k < i ==> SelectedType::spec_of(#[trigger] handles@[k], *document) is None || SelectedType::spec_of(
                    handles@[k],
                    *document,
                ) == seen,
        decreases handles@.len() - i,
    {
        let handle = handles[i];
        assert(handles@.to_set().contains(handle));
        let kind = SelectedType::of(handle, document);
        if let Some(found) = kind {
            match seen {
                None => {
                    seen = kind;
                    proof {
                        witness = handle;
                    }
                },
                Some(first) => {
                    if first != found {
                        assert(selected.contains(witness) && selected.contains(handle));
                        assert(SelectedType::spec_of(witness, *document) != SelectedType::spec_of(handle, *document));
                        return true;
                    }
                },
            }
        }
        i = i + 1;
    }
    proof {
        if is_mixed(selected, *document) {
            let (a, b) = choose|a: SceneEntityId, b: SceneEntityId|
                #![trigger SelectedType::spec_of(a, *document), SelectedType::spec_of(b, *document)]
                selected.contains(a) && selected.contains(b) && SelectedType::spec_of(a, *document) is Some && SelectedType::spec_of(
                    b,
                    *document,
                ) is Some && SelectedType::spec_of(a, *document) != SelectedType::spec_of(b, *document);
            assert(handles@.contains(a) && handles@.contains(b));
        }
    }
    false
}

/// The loaded triangulations of the project that are selected, in order.
pub open spec fn coloured_triangulations(entries: Seq<UiTriangulationEntry>, selected: Set<SceneEntityId>) -> Seq<UiTriangulationEntry>
    decreases entries.len(),
{
    if entries.len() == 0 {
        Seq::empty()
    } else {
        let rest = coloured_triangulations(entries.drop_last(), selected);
        if entries.last().is_loaded && selected.contains(SceneEntityId::Triangulation(entries.last().id)) {
            rest.push(entries.last())
        } else {
            rest
        }
    }
}

/// The identities of the triangulations whose face colour is edited, and the colour
/// that the field starts from, which is the first one's.
pub fn face_colour_targets(editor: &EditorState, project: &UiProjectView) -> (r: (Vec<TriangulationId>, Option<Rgba>))
    ensures
        ({
            let entries = coloured_triangulations(project.triangulations@, editor.selection.selected_handles@);
            &&& r.0@ == entries.map_values(|entry: UiTriangulationEntry| entry.id)
            &&& r.1 == (if entries.len() == 0 {
                None
            } else {
                Some(entries[0].color)
            })
        }),
{
    let ghost selected = editor.selection.selected_handles@;
    let mut ids: Vec<TriangulationId> = Vec::new();
    let mut first: Option<Rgba> = None;
    let mut i: usize = 0;
    assert(project.triangulations@.take(0) =~= Seq::empty());
    while i < project.triangulations.len()
        invariant
            i <= project.triangulations@.len(),
            selected == editor.selection.selected_handles@,
            ids@ == coloured_triangulations(project.triangulations@.take(i as int), selected).map_values(
                |entry: UiTriangulationEntry| entry.id,
            ),
            first == (if coloured_triangulations(project.triangulations@.take(i as int), selected).len() == 0 {
                None
            } else {
                Some(coloured_triangulations(project.triangulations@.take(i as int), selected)[0].color)
            }),
        decreases project.triangulations@.len() - i,
    {
        let entry = &project.triangulations[i];
        assert(project.triangulations@.take(i + 1).drop_last() =~= project.triangulations@.take(i as int));
        let ghost rest = coloured_triangulations(project.triangulations@.take(i as int), selected);
        if entry.is_loaded && editor.selection.selected_handles.contains(SceneEntityId::Triangulation(entry.id)) {
            if ids.len() == 0 {
                first = Some(entry.color);
            }
            ids.push(entry.id);
            assert(ids@ =~= rest.push(*entry).map_values(|entry: UiTriangulationEntry| entry.id));
        }
        i = i + 1;
    }
    assert(project.triangulations@.take(i as int) =~= project.triangulations@);
    (ids, first)
}

/// Give triangulations a face colour.
pub fn set_face_colour(ids: &Vec<TriangulationId>, color: Rgba, commands: &mut Vec<UiCommand>)
    ensures
        final(commands)@ == old(commands)@ + ids@.map_values(|id: TriangulationId| UiCommand::SetTriangulationColor(id, color)),
{
    let ghost asked = ids@.map_values(|id: TriangulationId| UiCommand::SetTriangulationColor(id, color));
    let mut i: usize = 0;
    assert(commands@ =~= old(commands)@ + asked.take(0));
    while i < ids.len()
        invariant
            i <= ids@.len(),
            asked == ids@.map_values(|id: TriangulationId| UiCommand::SetTriangulationColor(id, color)),
            commands@ == old(commands)@ + asked.take(i as int),
        decreases ids@.len() - i,
    {
        commands.push(UiCommand::SetTriangulationColor(ids[i], color));
        i = i + 1;
        assert(commands@ =~= old(commands)@ + asked.take(i as int));
    }
    assert(asked.take(i as int) =~= asked);
}

/// The object that can be edited by itself: the only selected thing, of this kind.
pub fn editable_object(editor: &EditorState, ids: &Vec<ObjectId>) -> (r: Option<ObjectId>)
    ensures
        r == (if editor.selection.selected_handles@.len() == 1 && ids@.len() == 1 {
            Some(ids@[0])
        } else {
            None
        }),
{
    if editor.selection.selected_handles.len() == 1 && ids.len() == 1 {
        Some(ids[0])
    } else {
        None
    }
}

/// Open the object editor and put the menu away.
pub fn edit_object(id: ObjectId, commands: &mut Vec<UiCommand>)
    ensures
        final(commands)@ == old(commands)@.push(UiCommand::OpenObjectEditDialog(id)).push(UiCommand::CloseCanvasContextMenu),
{
    commands.push(UiCommand::OpenObjectEditDialog(id));
    commands.push(UiCommand::CloseCanvasContextMenu);
}

impl CanvasDialogs {
    /// Open the dialog that moves objects to a layer, starting from the first layer of
    /// the active project, and put the menu away.
    pub fn open_move_to_layer(&mut self, ids: Vec<ObjectId>, project: &UiProjectView, commands: &mut Vec<UiCommand>)
        ensures
            *final(self) == (CanvasDialogs {
                move_to_layer: Some(
                    MoveToLayerDialog {
                        object_ids: ids,
                        target_layer: match project.active() {
                            Some(entry) => crate::dialogs::placement_dialogs::first_layer(entry),
                            None => None,
                        },
                        copy: false,
                    },
                ),
                ..*old(self)
            }),
            final(commands)@ == old(commands)@.push(UiCommand::CloseCanvasContextMenu),
    {
        let target_layer = match project.active_project() {
            Some(entry) => entry.first_layer_id(),
            None => None,
        };
        self.move_to_layer = Some(MoveToLayerDialog { object_ids: ids, target_layer, copy: false });
        commands.push(UiCommand::CloseCanvasContextMenu);
    }
}

/// What the fields of a group start from: the first object, which stands for all.
#[derive(Clone, Copy, Debug, PartialEq, Eq, Structural)]
pub struct DesignSeed {
    pub closed: bool,
    pub fill: FillStyle,
    pub line_weight: Real32,
}

impl DesignSeed {
    pub open spec fn spec_of(ids: Seq<ObjectId>, document: Document) -> DesignSeed {
        match first_object(ids, document) {
            Some(Object::Polyline { closed, fill, line_weight, .. }) => DesignSeed { closed, fill, line_weight },
            _ => DesignSeed { closed: false, fill: FillStyle::Clear, line_weight: Real32 { bits: SINGLE_ONE } },
        }
    }

    pub fn of(ids: &Vec<ObjectId>, document: &Document) -> (r: DesignSeed)
        ensures
            r == DesignSeed::spec_of(ids@, *document),
    {
        if ids.len() > 0 {
            if let Some(Object::Polyline { closed, fill, line_weight, .. }) = document.get_object(ids[0]) {
                return DesignSeed { closed: *closed, fill: *fill, line_weight: *line_weight };
            }
        }
        DesignSeed { closed: false, fill: FillStyle::Clear, line_weight: Real32 { bits: SINGLE_ONE } }
    }
}

pub open spec fn first_object(ids: Seq<ObjectId>, document: Document) -> Option<Object> {
    if ids.len() == 0 {
        None
    } else {
        document.object(ids[0])
    }
}

/// What the colour field of a group is called.
pub fn colour_label(ids: &Vec<ObjectId>, document: &Document) -> (r: Text)
    ensures
        r == (match first_object(ids@, *document) {
            Some(Object::Text { .. }) => key("context-text-colour"),
            _ => literal("Line colour"),
        }),
{
    if ids.len() > 0 {
        if let Some(Object::Text { .. }) = document.get_object(ids[0]) {
            return key("context-text-colour");
        }
    }
    literal("Line colour")
}

/// What happened to the fields of a group.
#[derive(Clone, Copy, Debug, PartialEq, Eq)]
pub struct DesignEdit {
    /// A finished edit of the colour.
    pub color: Option<Rgba>,
    /// What the shape field holds.
    pub closed: bool,
    /// What the fill field holds.
    pub fill: FillStyle,
    /// What the line weight field holds.
    pub line_weight: Real32,
    /// The line weight was edited to its end.
    pub weight_committed: bool,
}

/// Commands in which a group's edit results. The fields describe the first object and
/// write to all of them; only polylines have a shape, a fill and a line weight.
pub open spec fn design_asks(
    asked: Seq<UiCommand>,
    ids: Seq<ObjectId>,
    kind: DesignKind,
    seed: DesignSeed,
    edit: DesignEdit,
) -> bool {
    let shape = kind is Polylines && ids.len() > 0 && edit.closed != seed.closed;
    let fill = kind is Polylines && ids.len() > 0 && edit.fill != seed.fill;
    let weight = kind is Polylines && ids.len() > 0 && edit.weight_committed;
    let a = if edit.color is Some {
        1int
    } else {
        0
    };
    let b = if shape {
        a + 1
    } else {
        a
    };
    let c = if fill {
        b + 1
    } else {
        b
    };
    let d = if weight {
        c + 1
    } else {
        c
    };
    &&& asked.len() == d
    &&& edit.color matches Some(color) ==> (asked[0] matches UiCommand::BatchSetObjectColor(targets, to) && targets@ == ids && to
        == ObjectColor::Fixed(color))
    &&& shape ==> (asked[a] matches UiCommand::BatchSetPolylineClosed(targets, to) && targets@ == ids && to == edit.closed)
    &&& fill ==> (asked[b] matches UiCommand::BatchSetObjectFill(targets, to) && targets@ == ids && to == edit.fill)
    &&& weight ==> (asked[c] matches UiCommand::BatchSetPolylineLineWeight(targets, to) && targets@ == ids && to == edit.line_weight)
}

/// Take the edits of a group. Whether the geometry has to be built again.
pub fn edit_design(
    ids: &Vec<ObjectId>,
    kind: DesignKind,
    seed: DesignSeed,
    edit: DesignEdit,
    commands: &mut Vec<UiCommand>,
) -> (r: bool)
    ensures
        final(commands)@.len() >= old(commands)@.len(),
        final(commands)@.take(old(commands)@.len() as int) == old(commands)@,
        design_asks(final(commands)@.skip(old(commands)@.len() as int), ids@, kind, seed, edit),
        r == (final(commands)@.len() > old(commands)@.len()),
{
    let mut asked: Vec<UiCommand> = Vec::new();
    if let Some(color) = edit.color {
        asked.push(UiCommand::BatchSetObjectColor(copied(ids), ObjectColor::Fixed(color)));
    }
    if kind == DesignKind::Polylines && ids.len() > 0 {
        if edit.closed != seed.closed {
            asked.push(UiCommand::BatchSetPolylineClosed(copied(ids), edit.closed));
        }
        if edit.fill != seed.fill {
            asked.push(UiCommand::BatchSetObjectFill(copied(ids), edit.fill));
        }
        if edit.weight_committed {
            asked.push(UiCommand::BatchSetPolylineLineWeight(copied(ids), edit.line_weight));
        }
    }
    let dirty = asked.len() > 0;
    let ghost given = asked@;
    assert(design_asks(given, ids@, kind, seed, edit));
    commands.append(&mut asked);
    assert(commands@.take(old(commands)@.len() as int) =~= old(commands)@);
    assert(commands@.skip(old(commands)@.len() as int) =~= given);
    dirty
}

/// An edit that leaves every field as it was asks for nothing.
pub proof fn untouched_design_asks_for_nothing(asked: Seq<UiCommand>, ids: Seq<ObjectId>, kind: DesignKind, seed: DesignSeed, edit: DesignEdit)
    requires
        design_asks(asked, ids, kind, seed, edit),
        edit.color is None,
        edit.closed == seed.closed,
        edit.fill == seed.fill,
        !edit.weight_committed,
    ensures
        asked.len() == 0,
{
}

fn same_ids(a: &Vec<ObjectId>, b: &Vec<ObjectId>) -> (r: bool)
    ensures
        r == (a@ == b@),
{
    if a.len() != b.len() {
        return false;
    }
    let mut i: usize = 0;
    while i < a.len()
        invariant
            i <= a@.len(),
            a@.len() == b@.len(),
            forall|k: int| 0 <= k < i ==> a@[k] == b@[k],
        decreases a@.len() - i,
    {
        if a[i] != b[i] {
            return false;
        }
        i = i + 1;
    }
    assert(a@ =~= b@);
    true
}

impl CanvasDialogs {
    /// Start the line weight from the document whenever the selected polylines change;
    /// between those points the drag owns it. The weight to show.
    pub fn seed_line_weight(&mut self, ids: &Vec<ObjectId>, document_weight: Real32) -> (r: Real32)
        ensures
            final(self).line_weight_input is Some,
            (final(self).line_weight_input->0).0@ == ids@,
            (final(self).line_weight_input->0).1 == r,
            r == (match old(self).line_weight_input {
                Some(input) if input.0@ == ids@ => input.1,
                _ => document_weight,
            }),
            *final(self) == (CanvasDialogs { line_weight_input: final(self).line_weight_input, ..*old(self) }),
    {
        if let Some((held, weight)) = &self.line_weight_input {
            if same_ids(held, ids) {
                return *weight;
            }
        }
        self.line_weight_input = Some((copied(ids), document_weight));
        document_weight
    }
}

/// A block model that is loaded.
pub open spec fn is_loaded(models: Seq<OpenBlockModel>, id: BlockModelId) -> bool {
    exists|i: int| 0 <= i < models.len() && (#[trigger] models[i]).id == id && models[i].loaded
}

/// The loaded models that are selected, in order.
pub open spec fn selected_models(models: Seq<OpenBlockModel>, selected: Set<SceneEntityId>) -> Seq<BlockModelId>
    decreases models.len(),
{
    if models.len() == 0 {
        Seq::empty()
    } else {
        let rest = selected_models(models.drop_last(), selected);
        if models.last().loaded && selected.contains(SceneEntityId::BlockModel(models.last().id)) {
            rest.push(models.last().id)
        } else {
            rest
        }
    }
}

/// The loaded models that are selected.
pub fn selected_block_models(editor: &EditorState, models: &Vec<OpenBlockModel>) -> (r: Vec<BlockModelId>)
    ensures
        r@ == selected_models(models@, editor.selection.selected_handles@),
{
    let mut r: Vec<BlockModelId> = Vec::new();
    let mut i: usize = 0;
    assert(models@.take(0) =~= Seq::empty());
    while i < models.len()
        invariant
            i <= models@.len(),
            r@ == selected_models(models@.take(i as int), editor.selection.selected_handles@),
        decreases models@.len() - i,
    {
        assert(models@.take(i + 1).drop_last() =~= models@.take(i as int));
        if models[i].loaded && editor.selection.selected_handles.contains(SceneEntityId::BlockModel(models[i].id)) {
            r.push(models[i].id);
        }
        i = i + 1;
    }
    assert(models@.take(i as int) =~= models@);
    r
}

impl BlockModelState {
    /// Let a changed selection bring its first model into the viewport, unless one of
    /// the selected is there already.
    pub fn adopt_selected(&mut self, selected: &Vec<BlockModelId>, selection_changed: bool)
        ensures
            *final(self) == (BlockModelState {
                viewport_model_id: if selection_changed && selected@.len() > 0 && !(old(self).viewport_model_id is Some
                    && selected@.contains(old(self).viewport_model_id->0)) {
                    Some(selected@[0])
                } else {
                    old(self).viewport_model_id
                },
                ..*old(self)
            }),
    {
        if !selection_changed || selected.len() == 0 {
            return;
        }
        if let Some(shown) = self.viewport_model_id {
            let mut i: usize = 0;
            while i < selected.len()
                invariant
                    i <= selected@.len(),
                    forall|k: int| 0 <= k < i ==> selected@[k] != shown,
                    self.viewport_model_id == Some(shown),
                    *self == *old(self),
                decreases selected@.len() - i,
            {
                if selected[i] == shown {
                    return;
                }
                i = i + 1;
            }
        }
        self.viewport_model_id = Some(selected[0]);
    }

    /// Whether the viewport's block model has its controls drawn: while it is loaded.
    pub fn controls_shown(&self, models: &Vec<OpenBlockModel>) -> (r: bool)
        ensures
            r == (self.viewport_model_id is Some && is_loaded(models@, self.viewport_model_id->0)),
    {
        let id = match self.viewport_model_id {
            Some(id) => id,
            None => {
                return false;
            },
        };
        let mut i: usize = 0;
        while i < models.len()
            invariant
                i <= models@.len(),
                self.viewport_model_id == Some(id),
                forall|k: int| 0 <= k < i ==> !((#[trigger] models@[k]).id == id && models@[k].loaded),
            decreases models@.len() - i,
        {
            if models[i].id == id && models[i].loaded {
                return true;
            }
            i = i + 1;
        }
        false
    }
}

/// Every object is edited under exactly one heading, by what it is.
pub proof fn objects_have_one_heading(object: Object, a: DesignKind, b: DesignKind)
    ensures
        a.covers(object) && b.covers(object) ==> a == b,
        object is Polyline <==> DesignKind::Polylines.covers(object),
        object is Point <==> DesignKind::Points.covers(object),
        object is Text <==> DesignKind::Texts.covers(object),
{
}

/// An object is edited with its kind exactly while it is selected and in the document.
pub proof fn edited_objects_are_selected(kind: DesignKind, id: ObjectId, selected: Set<SceneEntityId>, document: Document)
    ensures
        kind.selects(id, selected, document) ==> selected.contains(SceneEntityId::Object(id)) && document.object(id) is Some,
        !selected.contains(SceneEntityId::Object(id)) || document.object(id) is None ==> !kind.selects(id, selected, document),
        selected.contains(SceneEntityId::Object(id)) && document.object(id) is Some ==> DesignKind::Polylines.selects(
            id,
            selected,
            document,
        ) || DesignKind::Points.selects(id, selected, document) || DesignKind::Texts.selects(id, selected, document),
{
}

/// A selected entity counts as what it is; an object that is gone counts as nothing.
pub proof fn selected_entities_count_as_what_they_are(handle: SceneEntityId, document: Document)
    ensures
        handle is Triangulation ==> SelectedType::spec_of(handle, document) == Some(SelectedType::Triangulation),
        handle is BlockModel ==> SelectedType::spec_of(handle, document) == Some(SelectedType::BlockModel),
        handle is DrillHole ==> SelectedType::spec_of(handle, document) == Some(SelectedType::DrillHole),
        handle is PointCloud ==> SelectedType::spec_of(handle, document) == Some(SelectedType::PointCloud),
        handle matches SceneEntityId::Object(id) ==> {
            &&& document.object(id) is None <==> SelectedType::spec_of(handle, document) is None
            &&& document.object(id) matches Some(object) ==> (object is Polyline <==> SelectedType::spec_of(handle, document) == Some(
                SelectedType::Polyline,
            ))
            &&& document.object(id) matches Some(object) ==> (object is Point <==> SelectedType::spec_of(handle, document) == Some(
                SelectedType::Point,
            ))
            &&& document.object(id) matches Some(object) ==> (object is Text <==> SelectedType::spec_of(handle, document) == Some(
                SelectedType::Text,
            ))
        },
{
}

/// Headings are shown exactly where two selected entities count as different things.
pub proof fn headings_part_different_things(selected: Set<SceneEntityId>, document: Document, a: SceneEntityId, b: SceneEntityId)
    requires
        selected.contains(a),
        selected.contains(b),
    ensures
        a is Triangulation && b is PointCloud ==> is_mixed(selected, document),
        a is BlockModel && b is DrillHole ==> is_mixed(selected, document),
        (forall|handle: SceneEntityId| #[trigger] selected.contains(handle) ==> handle is Triangulation) ==> !is_mixed(selected, document),
        is_mixed(selected, document) ==> selected.len() != 1 || !selected.finite(),
{
    assert(SelectedType::spec_of(a, document) == SelectedType::spec_of(a, document));
    assert(SelectedType::spec_of(b, document) == SelectedType::spec_of(b, document));
    if is_mixed(selected, document) && selected.finite() && selected.len() == 1 {
        let (x, y) = choose|x: SceneEntityId, y: SceneEntityId|
            #![trigger SelectedType::spec_of(x, document), SelectedType::spec_of(y, document)]
            selected.contains(x) && selected.contains(y) && SelectedType::spec_of(x, document) is Some && SelectedType::spec_of(y, document)
                is Some && SelectedType::spec_of(x, document) != SelectedType::spec_of(y, document);
        assert(selected.remove(x).len() == 0);
        assert(selected.remove(x).contains(y));
        assert(selected.remove(x) =~= Set::empty()) by {
            selected.remove(x).lemma_len0_is_empty();
        }
    }
}

/// Of a project's triangulations the face colour of those that are loaded and selected is
/// edited, in the project's order.
pub proof fn selected_triangulations_are_coloured_in_order(
    first: Seq<UiTriangulationEntry>,
    second: Seq<UiTriangulationEntry>,
    entry: UiTriangulationEntry,
    selected: Set<SceneEntityId>,
)
    ensures
        coloured_triangulations(first + second, selected) == coloured_triangulations(first, selected) + coloured_triangulations(
            second,
            selected,
        ),
        coloured_triangulations(seq![entry], selected) == (if entry.is_loaded && selected.contains(SceneEntityId::Triangulation(entry.id)) {
            seq![entry]
        } else {
            Seq::empty()
        }),
    decreases second.len(),
{
    let one = seq![entry];
    assert(one.drop_last() =~= Seq::<UiTriangulationEntry>::empty());
    assert(coloured_triangulations(one.drop_last(), selected) =~= Seq::<UiTriangulationEntry>::empty());
    assert(coloured_triangulations(one, selected) =~= (if entry.is_loaded && selected.contains(SceneEntityId::Triangulation(entry.id)) {
        seq![entry]
    } else {
        Seq::empty()
    }));
    if second.len() == 0 {
        assert(first + second =~= first);
        assert(coloured_triangulations(first, selected) + coloured_triangulations(second, selected) =~= coloured_triangulations(
            first,
            selected,
        ));
    } else {
        selected_triangulations_are_coloured_in_order(first, second.drop_last(), entry, selected);
        assert((first + second).drop_last() =~= first + second.drop_last());
        assert(coloured_triangulations(first + second, selected) =~= coloured_triangulations(first, selected) + coloured_triangulations(
            second,
            selected,
        ));
    }
}

/// Of the block models those that are loaded and selected are taken, in order.
pub proof fn selected_models_are_taken_in_order(
    first: Seq<OpenBlockModel>,
    second: Seq<OpenBlockModel>,
    model: OpenBlockModel,
    selected: Set<SceneEntityId>,
)
    ensures
        selected_models(first + second, selected) == selected_models(first, selected) + selected_models(second, selected),
        selected_models(seq![model], selected) == (if model.loaded && selected.contains(SceneEntityId::BlockModel(model.id)) {
            seq![model.id]
        } else {
            Seq::empty()
        }),
        is_loaded(seq![model], model.id) <==> model.loaded,
    decreases second.len(),
{
    let one = seq![model];
    assert(one[0] == model);
    assert(one.drop_last() =~= Seq::<OpenBlockModel>::empty());
    assert(selected_models(one.drop_last(), selected) =~= Seq::<BlockModelId>::empty());
    assert(selected_models(one, selected) =~= (if model.loaded && selected.contains(SceneEntityId::BlockModel(model.id)) {
        seq![model.id]
    } else {
        Seq::empty()
    }));
    if second.len() == 0 {
        assert(first + second =~= first);
        assert(selected_models(first, selected) + selected_models(second, selected) =~= selected_models(first, selected));
    } else {
        selected_models_are_taken_in_order(first, second.drop_last(), model, selected);
        assert((first + second).drop_last() =~= first + second.drop_last());
        assert(selected_models(first + second, selected) =~= selected_models(first, selected) + selected_models(second, selected));
    }
}

/// A model is loaded where some entry with its identity is.
pub proof fn loaded_models_have_an_entry(models: Seq<OpenBlockModel>, id: BlockModelId, place: int)
    ensures
        0 <= place < models.len() && models[place].id == id && models[place].loaded ==> is_loaded(models, id),
        (forall|i: int| 0 <= i < models.len() ==> (#[trigger] models[i]).id != id || !models[i].loaded) ==> !is_loaded(models, id),
{
}

/// The fields of a group start from its first object where that is a polyline, and otherwise
/// from an open line one wide without a fill.
pub proof fn groups_start_from_their_first_object(ids: Seq<ObjectId>, document: Document)
    ensures
        ids.len() == 0 ==> first_object(ids, document) is None,
        ids.len() > 0 ==> first_object(ids, document) == document.object(ids[0]),
        first_object(ids, document) matches Some(Object::Polyline { closed, fill, line_weight, .. }) ==> DesignSeed::spec_of(ids, document)
            == (DesignSeed { closed, fill, line_weight }),
        !(first_object(ids, document) matches Some(object) && object is Polyline) ==> {
            let seed = DesignSeed::spec_of(ids, document);
            !seed.closed && seed.fill is Clear && seed.line_weight == (Real32 { bits: SINGLE_ONE })
        },
{
}

/// What an edit of a group asks for: each field that was changed once, in the order colour,
/// shape, fill, line weight, for every object of the group. Only polylines have the last
/// three.
pub proof fn changed_fields_are_asked_for_once(asked: Seq<UiCommand>, ids: Seq<ObjectId>, kind: DesignKind, seed: DesignSeed, edit: DesignEdit)
    requires
        design_asks(asked, ids, kind, seed, edit),
    ensures
        !(kind is Polylines) || ids.len() == 0 ==> asked.len() == (if edit.color is Some { 1int } else { 0 }),
        edit.color matches Some(color) ==> (asked[0] matches UiCommand::BatchSetObjectColor(targets, to) && targets@ == ids && to
            == ObjectColor::Fixed(color)),
        kind is Polylines && ids.len() > 0 && edit.color is None && edit.closed != seed.closed ==> (asked[0]
            matches UiCommand::BatchSetPolylineClosed(targets, to) && targets@ == ids && to == edit.closed),
        kind is Polylines && ids.len() > 0 && edit.weight_committed ==> (asked.last() matches UiCommand::BatchSetPolylineLineWeight(
            targets,
            to,
        ) && targets@ == ids && to == edit.line_weight),
        kind is Polylines && ids.len() > 0 && !edit.weight_committed && edit.fill != seed.fill ==> (asked.last()
            matches UiCommand::BatchSetObjectFill(targets, to) && targets@ == ids && to == edit.fill),
        kind is Polylines && ids.len() > 0 ==> asked.len() == (if edit.color is Some { 1int } else { 0 }) + (if edit.closed != seed.closed {
            1int
        } else {
            0
        }) + (if edit.fill != seed.fill { 1int } else { 0 }) + (if edit.weight_committed { 1int } else { 0 }),
{
}

/// The list of selected objects rises, so no object is listed twice.
pub proof fn selected_lists_rise(ids: Seq<ObjectId>, kind: DesignKind, selected: Set<SceneEntityId>, document: Document, first: int, second: int)
    requires
        lists_selected(ids, kind, selected, document),
        0 <= first < second < ids.len(),
    ensures
        ids[first].0 < ids[second].0,
        selected.contains(SceneEntityId::Object(ids[first])),
        document.object(ids[first]) matches Some(object) && kind.covers(object),
{
    assert(ids.contains(ids[first]));
}

} // verus!
