//! Dialogs and menus over the selection.
use crate::command::{CommandReportSpec, UiCommand};
use crate::document::Document;
use crate::editor::EditorState;
use crate::ids::{DrillHoleId, SceneEntityId};
use crate::model::Object;
use crate::text::{literal, literal2, named, Arg, Text};
use crate::tools::EditorAction;
use vstd::prelude::*;

verus! {

/// What a selected entity is called.
#[derive(Clone, Copy, Debug, PartialEq, Eq, Structural)]
pub enum EntityLabel {
    Point,
    Line,
    Polyline,
    Text,
    /// An object that is in the selection but no longer in the document.
    Object,
    Triangulation,
    BlockModel,
    DrillHole,
    PointCloud,
}

impl EntityLabel {
    #[verifier::allow_in_spec]
    pub fn words(self) -> (r: &'static str)
        returns
            (match self {
                EntityLabel::Point => "Point",
                EntityLabel::Line => "Line",
                EntityLabel::Polyline => "Polyline",
                EntityLabel::Text => "Text",
                EntityLabel::Object => "Object",
                EntityLabel::Triangulation => "Triangulation",
                EntityLabel::BlockModel => "Block Model",
                EntityLabel::DrillHole => "Drill Hole",
                EntityLabel::PointCloud => "Point Cloud",
            }),
    {
        match self {
            EntityLabel::Point => "Point",
            EntityLabel::Line => "Line",
            EntityLabel::Polyline => "Polyline",
            EntityLabel::Text => "Text",
            EntityLabel::Object => "Object",
            EntityLabel::Triangulation => "Triangulation",
            EntityLabel::BlockModel => "Block Model",
            EntityLabel::DrillHole => "Drill Hole",
            EntityLabel::PointCloud => "Point Cloud",
        }
    }

    pub open spec fn spec_of_object(object: Object) -> EntityLabel {
        match object {
            Object::Point { .. } => EntityLabel::Point,
            Object::Polyline { verts, .. } => if verts@.len() == 2 {
                EntityLabel::Line
            } else {
                EntityLabel::Polyline
            },
            Object::Text { .. } => EntityLabel::Text,
        }
    }

    /// A polyline of two vertices is a line.
    pub fn of_object(object: &Object) -> (r: EntityLabel)
        ensures
            r == EntityLabel::spec_of_object(*object),
    {
        match object {
            Object::Point { .. } => EntityLabel::Point,
            Object::Polyline { verts, .. } => if verts.len() == 2 {
                EntityLabel::Line
            } else {
                EntityLabel::Polyline
            },
            Object::Text { .. } => EntityLabel::Text,
        }
    }

    pub open spec fn spec_of(handle: SceneEntityId, document: Document) -> EntityLabel {
        match handle {
            SceneEntityId::Object(id) => match document.object(id) {
                Some(object) => EntityLabel::spec_of_object(object),
                None => EntityLabel::Object,
            },
            SceneEntityId::Triangulation(_) => EntityLabel::Triangulation,
            SceneEntityId::BlockModel(_) => EntityLabel::BlockModel,
            SceneEntityId::DrillHole(_) => EntityLabel::DrillHole,
            SceneEntityId::PointCloud(_) => EntityLabel::PointCloud,
        }
    }

    pub fn of(handle: SceneEntityId, document: &Document) -> (r: EntityLabel)
        ensures
            r == EntityLabel::spec_of(handle, *document),
    {
        match handle {
            SceneEntityId::Object(id) => match document.get_object(id) {
                Some(object) => EntityLabel::of_object(object),
                None => EntityLabel::Object,
            },
            SceneEntityId::Triangulation(_) => EntityLabel::Triangulation,
            SceneEntityId::BlockModel(_) => EntityLabel::BlockModel,
            SceneEntityId::DrillHole(_) => EntityLabel::DrillHole,
            SceneEntityId::PointCloud(_) => EntityLabel::PointCloud,
        }
    }
}

/// What an object is called.
pub fn object_kind_label(object: &Object) -> (r: Text)
    ensures
        r == literal(EntityLabel::spec_of_object(*object).words()),
{
    literal(EntityLabel::of_object(object).words())
}

/// A title that names what is selected.
#[verifier::allow_in_spec]
pub fn properties_of(label: EntityLabel) -> (r: Text)
    returns
        (literal2(
            "%kind% %properties%",
            named("kind", Arg::Words(label.words())),
            named("properties", Arg::Words("Properties")),
        )),
{
    literal2("%kind% %properties%", named("kind", Arg::Words(label.words())), named("properties", Arg::Words("Properties")))
}

/// Everything selected is called the same.
pub open spec fn share_label(selected: Set<SceneEntityId>, document: Document, label: EntityLabel) -> bool {
    forall|handle: SceneEntityId| #[trigger] selected.contains(handle) ==> EntityLabel::spec_of(handle, document) == label
}

/// Everything selected is an object of the document.
pub open spec fn all_objects(selected: Set<SceneEntityId>) -> bool {
    forall|handle: SceneEntityId| #[trigger] selected.contains(handle) ==> handle is Object
}

/// A title for a selection. One kind of entity is named; objects of several kinds,
/// a line and a text say, still share a menu; anything else is only called
/// properties.
pub open spec fn is_title(title: Text, selected: Set<SceneEntityId>, document: Document) -> bool {
    if selected == Set::<SceneEntityId>::empty() {
        title == literal("Properties")
    } else if exists|label: EntityLabel| share_label(selected, document, label) {
        exists|label: EntityLabel| #[trigger] share_label(selected, document, label) && title == properties_of(label)
    } else if all_objects(selected) {
        title == properties_of(EntityLabel::Object)
    } else {
        title == literal("Properties")
    }
}

/// The title depends on what is selected alone, not on the order in which it is
/// looked through.
pub proof fn title_is_determined(a: Text, b: Text, selected: Set<SceneEntityId>, document: Document)
    requires
        is_title(a, selected, document),
        is_title(b, selected, document),
    ensures
        a == b,
{
    if selected != Set::<SceneEntityId>::empty() {
        let handle = choose|handle: SceneEntityId| selected.contains(handle);
        assert(exists|handle: SceneEntityId| selected.contains(handle)) by {
            if forall|handle: SceneEntityId| !selected.contains(handle) {
                assert(selected =~= Set::<SceneEntityId>::empty());
            }
        }
        assert(selected.contains(handle));
    }
}

/// What the handles seen so far have in common.
#[derive(Clone, Copy, Debug, PartialEq, Eq, Structural)]
enum Common {
    NothingSeen,
    Kind(EntityLabel),
    /// Objects of several kinds.
    Objects,
}

impl Common {
    spec fn holds(self, seen: Seq<SceneEntityId>, document: Document) -> bool {
        match self {
            Common::NothingSeen => seen.len() == 0,
            Common::Kind(label) => {
                &&& seen.len() > 0
                &&& forall|i: int| 0 <= i < seen.len() ==> EntityLabel::spec_of(#[trigger] seen[i], document) == label
            },
            Common::Objects => {
                &&& forall|i: int| 0 <= i < seen.len() ==> #[trigger] seen[i] is Object
                &&& exists|i: int, j: int|
                    0 <= i < seen.len() && 0 <= j < seen.len() && EntityLabel::spec_of(#[trigger] seen[i], document)
                        != EntityLabel::spec_of(#[trigger] seen[j], document)
            },
        }
    }
}

/// Title for the canvas context menu, named after the kind of entity that is
/// selected.
pub fn canvas_context_menu_title(editor: &EditorState, document: &Document) -> (r: Text)
    ensures
        is_title(r, editor.selection.selected_handles@, *document),
{
    let handles = editor.selection.selected_handles.as_vec();
    let ghost selected = editor.selection.selected_handles@;
    let mut common = Common::NothingSeen;
    let mut i: usize = 0;
    while i < handles.len()
        invariant
            i <= handles@.len(),
            handles@.to_set() == selected,
            selected == editor.selection.selected_handles@,
            common.holds(handles@.take(i as int), *document),
        decreases handles@.len() - i,
    {
        let handle = handles[i];
        let label = EntityLabel::of(handle, document);
        let is_object = match handle {
            SceneEntityId::Object(_) => true,
            _ => false,
        };
        let ghost seen = handles@.take(i as int);
        let ghost next = handles@.take(i + 1);
        assert(next =~= seen.push(handle));
        assert(handles@.to_set().contains(handle));
        match common {
            Common::NothingSeen => {
                common = Common::Kind(label);
            },
            Common::Kind(existing) => {
                if existing != label {
                    let ghost first = seen[0];
                    assert(next[0] == first && next[i as int] == handle);
                    assert(handles@[0] == first);
                    assert(selected.contains(first));
                    proof {
                        assert forall|shared: EntityLabel| !share_label(selected, *document, shared) by {
                            if share_label(selected, *document, shared) {
                                assert(EntityLabel::spec_of(first, *document) == shared);
                                assert(EntityLabel::spec_of(handle, *document) == shared);
                            }
                        }
                    }
                    if is_object && kind_is_object(existing) {
                        common = Common::Objects;
                    } else {
                        assert(!(first is Object) || !(handle is Object));
                        return literal("Properties");
                    }
                }
            },
            Common::Objects => {
                proof {
                    let (a, b) = choose|a: int, b: int|
                        0 <= a < seen.len() && 0 <= b < seen.len() && EntityLabel::spec_of(#[trigger] seen[a], *document)
                            != EntityLabel::spec_of(#[trigger] seen[b], *document);
                    assert(next[a] == seen[a] && next[b] == seen[b]);
                    assert(handles@[a] == seen[a] && handles@[b] == seen[b]);
                    assert(selected.contains(seen[a]) && selected.contains(seen[b]));
                    assert forall|shared: EntityLabel| !share_label(selected, *document, shared) by {
                        if share_label(selected, *document, shared) {
                            assert(EntityLabel::spec_of(seen[a], *document) == shared);
                            assert(EntityLabel::spec_of(seen[b], *document) == shared);
                        }
                    }
                }
                if !is_object {
                    return literal("Properties");
                }
            },
        }
        i = i + 1;
    }
    assert(handles@.take(i as int) =~= handles@);
    match common {
        Common::NothingSeen => {
            assert(selected =~= Set::<SceneEntityId>::empty());
            literal("Properties")
        },
        Common::Kind(label) => {
            proof {
                assert(handles@.to_set().contains(handles@[0]));
                assert(share_label(selected, *document, label)) by {
                    assert forall|handle: SceneEntityId| #[trigger] selected.contains(handle) implies EntityLabel::spec_of(
                        handle,
                        *document,
                    ) == label by {
                        assert(handles@.contains(handle));
                    }
                }
            }
            properties_of(label)
        },
        Common::Objects => {
            proof {
                let (a, b) = choose|a: int, b: int|
                    0 <= a < handles@.len() && 0 <= b < handles@.len() && EntityLabel::spec_of(#[trigger] handles@[a], *document)
                        != EntityLabel::spec_of(#[trigger] handles@[b], *document);
                assert(selected.contains(handles@[a]) && selected.contains(handles@[b]));
                assert forall|shared: EntityLabel| !share_label(selected, *document, shared) by {
                    if share_label(selected, *document, shared) {
                        assert(EntityLabel::spec_of(handles@[a], *document) == shared);
                        assert(EntityLabel::spec_of(handles@[b], *document) == shared);
                    }
                }
                assert forall|handle: SceneEntityId| #[trigger] selected.contains(handle) implies handle is Object by {
                    assert(handles@.contains(handle));
                }
            }
            properties_of(EntityLabel::Object)
        },
    }
}

/// A label that only objects of the document have.
fn kind_is_object(label: EntityLabel) -> (r: bool)
    ensures
        forall|handle: SceneEntityId, document: Document|
            #![trigger EntityLabel::spec_of(handle, document)]
            EntityLabel::spec_of(handle, document) == label ==> r == (handle is Object),
{
    match label {
        EntityLabel::Point | EntityLabel::Line | EntityLabel::Polyline | EntityLabel::Text | EntityLabel::Object => true,
        _ => false,
    }
}

/// What happened in the canvas context menu.
#[derive(Clone, Copy, Debug, PartialEq, Eq, Structural)]
pub enum ContextMenuClick {
    ColourBy,
    HideSelection,
    LockSelection,
    Close,
}

impl EditorState {
    /// A drill hole dataset of the selection, where there is one.
    pub fn selected_dataset(&self) -> (r: Option<DrillHoleId>)
        ensures
            r is Some <==> exists|id: DrillHoleId| self.selection.selected_handles@.contains(SceneEntityId::DrillHole(id)),
            r matches Some(id) ==> self.selection.selected_handles@.contains(SceneEntityId::DrillHole(id)),
    {
        let handles = self.selection.selected_handles.as_vec();
        let mut i: usize = 0;
        while i < handles.len()
            invariant
                i <= handles@.len(),
                handles@.to_set() == self.selection.selected_handles@,
                forall|k: int| 0 <= k < i ==> !(#[trigger] handles@[k] is DrillHole),
            decreases handles@.len() - i,
        {
            if let SceneEntityId::DrillHole(id) = handles[i] {
                assert(handles@.to_set().contains(handles@[i as int]));
                return Some(id);
            }
            i = i + 1;
        }
        proof {
            assert forall|id: DrillHoleId| !#[trigger] self.selection.selected_handles@.contains(SceneEntityId::DrillHole(id)) by {
                if self.selection.selected_handles@.contains(SceneEntityId::DrillHole(id)) {
                    assert(handles@.contains(SceneEntityId::DrillHole(id)));
                }
            }
        }
        None
    }

    /// Take a click in the canvas context menu, other than on the appearance of the
    /// selection. Every one closes the menu; colouring needs a dataset, hiding and
    /// locking need a selection. Whether the geometry has to be built again, and
    /// what the console is told.
    pub fn click_context_menu(
        &mut self,
        click: ContextMenuClick,
        dataset: Option<DrillHoleId>,
        commands: &mut Vec<UiCommand>,
    ) -> (r: Option<(bool, CommandReportSpec, Text)>)
        ensures
            ({
                let locks = click is LockSelection && old(self).selection.selected_handles@ != Set::<SceneEntityId>::empty();
                &&& locks ==> r == Some(old(self).freeze_report()) && final(self).froze_selection(*old(self)) && final(commands)@
                    == old(commands)@.push(UiCommand::CloseCanvasContextMenu)
                &&& !locks ==> r is None && *final(self) == *old(self)
                &&& click is LockSelection && !locks ==> final(commands)@ == old(commands)@
            }),
            click is ColourBy ==> final(commands)@ == (match dataset {
                Some(id) => old(commands)@.push(UiCommand::OpenDrillHoleColorDialog(id)).push(UiCommand::CloseCanvasContextMenu),
                None => old(commands)@,
            }),
            click is HideSelection ==> final(commands)@ == (if old(self).selection.selected_handles@ == Set::<SceneEntityId>::empty() {
                old(commands)@
            } else {
                old(commands)@.push(UiCommand::HideSelection).push(UiCommand::CloseCanvasContextMenu)
            }),
            click is Close ==> final(commands)@ == old(commands)@.push(UiCommand::CloseCanvasContextMenu),
    {
        let nothing_selected = self.selection.selected_handles.is_empty();
        match click {
            ContextMenuClick::ColourBy => {
                if let Some(id) = dataset {
                    commands.push(UiCommand::OpenDrillHoleColorDialog(id));
                    commands.push(UiCommand::CloseCanvasContextMenu);
                }
                None
            },
            ContextMenuClick::HideSelection => {
                if !nothing_selected {
                    commands.push(UiCommand::HideSelection);
                    commands.push(UiCommand::CloseCanvasContextMenu);
                }
                None
            },
            ContextMenuClick::LockSelection => {
                if nothing_selected {
                    return None;
                }
                let report = self.apply_action(EditorAction::FreezeSelection);
                commands.push(UiCommand::CloseCanvasContextMenu);
                Some(report)
            },
            ContextMenuClick::Close => {
                commands.push(UiCommand::CloseCanvasContextMenu);
                None
            },
        }
    }
}

/// A polyline of two vertices is a line, any other is a polyline; points and texts are what
/// they are, and an object that is gone is only an object.
pub proof fn entities_are_called_what_they_are(object: Object, handle: SceneEntityId, document: Document)
    ensures
        object matches Object::Polyline { verts, .. } ==> (EntityLabel::spec_of_object(object) is Line <==> verts@.len() == 2),
        object matches Object::Polyline { verts, .. } ==> (EntityLabel::spec_of_object(object) is Polyline <==> verts@.len() != 2),
        object is Point <==> EntityLabel::spec_of_object(object) is Point,
        object is Text <==> EntityLabel::spec_of_object(object) is Text,
        handle is Triangulation <==> EntityLabel::spec_of(handle, document) is Triangulation,
        handle is BlockModel <==> EntityLabel::spec_of(handle, document) is BlockModel,
        handle is DrillHole <==> EntityLabel::spec_of(handle, document) is DrillHole,
        handle is PointCloud <==> EntityLabel::spec_of(handle, document) is PointCloud,
        handle matches SceneEntityId::Object(id) ==> {
            &&& document.object(id) matches Some(found) ==> EntityLabel::spec_of(handle, document) == EntityLabel::spec_of_object(found)
            &&& document.object(id) is None <==> EntityLabel::spec_of(handle, document) is Object
        },
{
}

/// One selected entity is named by what it is; so are several of one kind. Objects of several
/// kinds are only objects, and anything else is not named at all.
pub proof fn titles_name_what_is_selected(title: Text, selected: Set<SceneEntityId>, document: Document, a: SceneEntityId, b: SceneEntityId)
    requires
        is_title(title, selected, document),
        selected.contains(a),
        selected.contains(b),
    ensures
        share_label(selected, document, EntityLabel::spec_of(a, document)) ==> title == properties_of(EntityLabel::spec_of(a, document)),
        EntityLabel::spec_of(a, document) != EntityLabel::spec_of(b, document) && all_objects(selected) ==> title == properties_of(
            EntityLabel::Object,
        ),
        EntityLabel::spec_of(a, document) != EntityLabel::spec_of(b, document) && !all_objects(selected) ==> title == literal("Properties"),
{
    assert(selected != Set::<SceneEntityId>::empty());
    if EntityLabel::spec_of(a, document) != EntityLabel::spec_of(b, document) {
        assert forall|label: EntityLabel| !share_label(selected, document, label) by {
            if share_label(selected, document, label) {
                assert(EntityLabel::spec_of(a, document) == label && EntityLabel::spec_of(b, document) == label);
            }
        }
    }
}

/// Nothing selected has no name.
pub proof fn empty_selections_have_no_name(title: Text, document: Document)
    requires
        is_title(title, Set::<SceneEntityId>::empty(), document),
    ensures
        title == literal("Properties"),
{
}

} // verus!
