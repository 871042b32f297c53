//! Dialogs that put the selected objects somewhere else.
use crate::command::UiCommand;
use crate::constants::LOWEST;
use crate::editor::EditorState;
use crate::ids::{LayerId, SceneEntityId};
use crate::lists::{copied, only_if, push_if};
use crate::model::Axis;
use crate::number::Real64;
use crate::project_view::{UiLayerEntry, UiProjectEntry, UiProjectView};
use crate::state::drawing::{CanvasDialogs, CursorState, DrawingState, InsertPointAtElevationDialog, MoveToAxisDialog, MoveToLayerDialog};
use crate::text::{key1, key2, literal, literal1, named, verbatim, Arg, Text};
use crate::tools::DrapePhase;
use vstd::prelude::*;

verus! {

/// A handle of the kind that a step of draping takes.
pub open spec fn taken_by(phase: DrapePhase, handle: SceneEntityId) -> bool {
    match phase {
        DrapePhase::Designs => handle is Object,
        DrapePhase::Topologies => handle is Triangulation,
    }
}

/// How many handles a step of draping takes.
pub open spec fn taken_count(handles: Seq<SceneEntityId>, phase: DrapePhase) -> nat
    decreases handles.len(),
{
    if handles.len() == 0 {
        0
    } else {
        taken_count(handles.drop_last(), phase) + (if taken_by(phase, handles.last()) {
            1nat
        } else {
            0
        })
    }
}

proof fn lemma_taken_count(handles: Seq<SceneEntityId>, phase: DrapePhase)
    requires
        handles.no_duplicates(),
    ensures
        taken_count(handles, phase) == handles.to_set().filter(|handle: SceneEntityId| taken_by(phase, handle)).len(),
        taken_count(handles, phase) <= handles.len(),
        handles.to_set().filter(|handle: SceneEntityId| taken_by(phase, handle)).finite(),
    decreases handles.len(),
{
    let taken = |handle: SceneEntityId| taken_by(phase, handle);
    if handles.len() == 0 {
        assert(handles.to_set().filter(taken) =~= Set::<SceneEntityId>::empty());
    } else {
        let rest = handles.drop_last();
        let last = handles.last();
        lemma_taken_count(rest, phase);
        assert(!rest.contains(last)) by {
            if rest.contains(last) {
                let k = choose|k: int| 0 <= k < rest.len() && rest[k] == last;
                assert(handles[k] == handles[handles.len() - 1]);
            }
        }
        assert(handles.to_set() =~= rest.to_set().insert(last)) by {
            assert(handles =~= rest.push(last));
            assert forall|handle: SceneEntityId| handles.to_set().contains(handle) == rest.to_set().insert(last).contains(handle) by {
                if handles.contains(handle) {
                    let k = choose|k: int| 0 <= k < handles.len() && handles[k] == handle;
                    if k < rest.len() {
                        assert(rest[k] == handle);
                    }
                }
                if rest.contains(handle) {
                    let k = choose|k: int| 0 <= k < rest.len() && rest[k] == handle;
                    assert(handles[k] == handle);
                }
                if handle == last {
                    assert(handles[handles.len() - 1] == handle);
                }
            }
        }
        if taken_by(phase, last) {
            assert(handles.to_set().filter(taken) =~= rest.to_set().filter(taken).insert(last));
        } else {
            assert(handles.to_set().filter(taken) =~= rest.to_set().filter(taken));
        }
    }
}

impl EditorState {
    /// What the current step of draping would take of the selection.
    pub open spec fn drape_selection(self) -> Set<SceneEntityId> {
        self.selection.selected_handles@.filter(|handle: SceneEntityId| taken_by(self.geometry.drape.phase, handle))
    }

    /// How much the current step of draping would take.
    pub fn drape_selected_count(&self) -> (r: usize)
        ensures
            r == self.drape_selection().len(),
            self.drape_selection().finite(),
    {
        let handles = self.selection.selected_handles.as_vec();
        let phase = self.geometry.drape.phase;
        let mut count: usize = 0;
        let mut i: usize = 0;
        assert(handles@.take(0) =~= Seq::<SceneEntityId>::empty());
        while i < handles.len()
            invariant
                i <= handles@.len(),
                count <= i,
                count == taken_count(handles@.take(i as int), phase),
            decreases handles@.len() - i,
        {
            assert(handles@.take(i + 1).drop_last() =~= handles@.take(i as int));
            let takes = match (phase, handles[i]) {
                (DrapePhase::Designs, SceneEntityId::Object(_)) => true,
                (DrapePhase::Topologies, SceneEntityId::Triangulation(_)) => true,
                _ => false,
            };
            if takes {
                count = count + 1;
            }
            i = i + 1;
        }
        proof {
            assert(handles@.take(i as int) =~= handles@);
            lemma_taken_count(handles@, phase);
            let taken = |handle: SceneEntityId| taken_by(phase, handle);
            assert(handles@.to_set().filter(taken) =~= self.drape_selection());
        }
        count
    }

    /// What the drape panel says of the selection.
    pub fn drape_note(&self) -> (r: Text)
        ensures
            r == key1("ui-selected-count", named("count", Arg::Count(self.drape_selection().len() as usize))),
    {
        key1("ui-selected-count", named("count", Arg::Count(self.drape_selected_count())))
    }

    /// Take the button of the drape panel, which needs something to take. The panel
    /// belongs to its tool.
    pub fn confirm_drape(&self, clicked: bool, commands: &mut Vec<UiCommand>)
        ensures
            final(commands)@ == old(commands)@ + only_if(
                clicked && self.drawing.tools.active_tool is DrapeToTopology && self.drape_selection().len() > 0,
                UiCommand::ConfirmDrapeSelection,
            ),
    {
        let draping = self.drawing.tools.active_tool == crate::tools::ActiveTool::DrapeToTopology;
        let count: usize = self.drape_selected_count();
        push_if(commands, clicked && draping && count > 0, UiCommand::ConfirmDrapeSelection);
    }
}

/// What happened to the buttons of a dialog.
#[derive(Clone, Copy, Debug, PartialEq, Eq, Structural)]
pub struct DialogButtons {
    /// The confirming button was clicked.
    pub apply: bool,
    /// Enter was pressed.
    pub confirm_key: bool,
    /// Cancel was clicked or Escape pressed.
    pub cancel: bool,
    /// The window was closed.
    pub closed: bool,
}

impl DialogButtons {
    pub open spec fn applies(self, can_apply: bool) -> bool {
        (self.apply || self.confirm_key) && can_apply
    }

    pub open spec fn leaves(self) -> bool {
        self.cancel || self.closed
    }
}

/// The first active project, from a place on.
pub open spec fn active_from(projects: Seq<UiProjectEntry>, from: int) -> Option<UiProjectEntry>
    decreases projects.len() - from,
{
    if from < 0 || from >= projects.len() {
        None
    } else if projects[from].is_active {
        Some(projects[from])
    } else {
        active_from(projects, from + 1)
    }
}

/// The first layer with an identity, from a place on.
pub open spec fn layer_from(layers: Seq<UiLayerEntry>, id: LayerId, from: int) -> Option<UiLayerEntry>
    decreases layers.len() - from,
{
    if from < 0 || from >= layers.len() {
        None
    } else if layers[from].id == id {
        Some(layers[from])
    } else {
        layer_from(layers, id, from + 1)
    }
}

pub open spec fn first_layer(project: UiProjectEntry) -> Option<LayerId> {
    if project.layers@.len() == 0 {
        None
    } else {
        Some(project.layers@[0].id)
    }
}

impl UiProjectEntry {
    /// The layer that objects go to: the one chosen while the project has it,
    /// otherwise the first one.
    pub open spec fn settled_layer(self, chosen: Option<LayerId>) -> Option<LayerId> {
        match chosen {
            Some(id) if layer_from(self.layers@, id, 0) is Some => chosen,
            _ => first_layer(self),
        }
    }

    pub fn layer(&self, id: LayerId) -> (r: Option<&UiLayerEntry>)
        ensures
            crate::document::same_entry(r, layer_from(self.layers@, id, 0)),
    {
        let mut i: usize = 0;
        while i < self.layers.len()
            invariant
                i <= self.layers@.len(),
                layer_from(self.layers@, id, 0) == layer_from(self.layers@, id, i as int),
            decreases self.layers@.len() - i,
        {
            if self.layers[i].id == id {
                return Some(&self.layers[i]);
            }
            i = i + 1;
        }
        None
    }

    pub fn first_layer_id(&self) -> (r: Option<LayerId>)
        ensures
            r == first_layer(*self),
    {
        if self.layers.len() == 0 {
            None
        } else {
            Some(self.layers[0].id)
        }
    }
}

impl UiProjectView {
    pub open spec fn active(self) -> Option<UiProjectEntry> {
        active_from(self.projects@, 0)
    }

    pub fn active_project(&self) -> (r: Option<&UiProjectEntry>)
        ensures
            crate::document::same_entry(r, self.active()),
    {
        let mut i: usize = 0;
        while i < self.projects.len()
            invariant
                i <= self.projects@.len(),
                self.active() == active_from(self.projects@, i as int),
            decreases self.projects@.len() - i,
        {
            if self.projects[i].is_active {
                return Some(&self.projects[i]);
            }
            i = i + 1;
        }
        None
    }
}

/// What the move dialog shows.
#[derive(Debug)]
pub struct MoveToLayerView {
    pub layer_label: Text,
    pub action_label: Text,
    pub can_apply: bool,
    pub objects: usize,
}

impl MoveToLayerDialog {
    pub open spec fn spec_can_apply(self) -> bool {
        self.target_layer is Some && self.object_ids@.len() > 0
    }

    /// The dialog as it is shown over a project.
    pub open spec fn shows(self, view: MoveToLayerView, project: UiProjectEntry) -> bool {
        &&& view.layer_label == (match self.target_layer {
            Some(id) => match layer_from(project.layers@, id, 0) {
                Some(layer) => verbatim(layer.name),
                None => literal("Choose a layer"),
            },
            None => literal("Choose a layer"),
        })
        &&& view.action_label == (if self.copy {
            literal("Copy")
        } else {
            literal("Move")
        })
        &&& view.can_apply == self.spec_can_apply()
        &&& view.objects == self.object_ids@.len()
    }

    /// A command that moves or copies what the dialog holds.
    pub open spec fn moves(self, command: UiCommand, target: LayerId) -> bool {
        command matches UiCommand::MoveObjectsToLayer { object_ids, target_layer, copy } && {
            &&& object_ids@ == self.object_ids@
            &&& target_layer == target
            &&& copy == self.copy
        }
    }
}

impl CanvasDialogs {
    /// Bring the move dialog in line with the project before it is drawn: it closes
    /// without an active project, and a target layer that the project does not have
    /// gives way to the first one. What it shows, where it is open.
    pub fn settle_move_to_layer(&mut self, project: &UiProjectView) -> (r: Option<MoveToLayerView>)
        ensures
            project.active() is None ==> final(self).move_to_layer is None && r is None,
            project.active() is Some && old(self).move_to_layer is None ==> final(self).move_to_layer is None && r is None,
            project.active() is Some && old(self).move_to_layer is Some ==> {
                &&& final(self).move_to_layer == Some(
                    MoveToLayerDialog {
                        target_layer: (project.active()->0).settled_layer((old(self).move_to_layer->0).target_layer),
                        ..old(self).move_to_layer->0
                    },
                )
                &&& r is Some
                &&& (final(self).move_to_layer->0).shows(r->0, project.active()->0)
            },
            *final(self) == (CanvasDialogs { move_to_layer: final(self).move_to_layer, ..*old(self) }),
    {
        let active = match project.active_project() {
            Some(active) => active,
            None => {
                self.move_to_layer = None;
                return None;
            },
        };
        match &mut self.move_to_layer {
            None => None,
            Some(dialog) => {
                let kept = match dialog.target_layer {
                    Some(id) => active.layer(id).is_some(),
                    None => false,
                };
                if !kept {
                    dialog.target_layer = active.first_layer_id();
                }
                let layer_label = match dialog.target_layer {
                    Some(id) => match active.layer(id) {
                        Some(layer) => verbatim(layer.name.clone()),
                        None => literal("Choose a layer"),
                    },
                    None => literal("Choose a layer"),
                };
                Some(
                    MoveToLayerView {
                        layer_label,
                        action_label: if dialog.copy {
                            literal("Copy")
                        } else {
                            literal("Move")
                        },
                        can_apply: dialog.target_layer.is_some() && dialog.object_ids.len() > 0,
                        objects: dialog.object_ids.len(),
                    },
                )
            },
        }
    }

    /// Take the buttons of the move dialog. `can_apply` is what it showed.
    pub fn finish_move_to_layer(&mut self, can_apply: bool, buttons: DialogButtons, commands: &mut Vec<UiCommand>)
        ensures
            ({
                let before = old(self).move_to_layer;
                let applies = buttons.applies(can_apply) && before is Some;
                let pushes = applies && (before->0).target_layer is Some;
                &&& pushes ==> final(commands)@.len() == old(commands)@.len() + 1 && final(commands)@.drop_last() == old(commands)@
                    && (before->0).moves(final(commands)@.last(), (before->0).target_layer->0)
                &&& !pushes ==> final(commands)@ == old(commands)@
                &&& final(self).move_to_layer == (if applies || buttons.leaves() {
                    None
                } else {
                    before
                })
            }),
            *final(self) == (CanvasDialogs { move_to_layer: final(self).move_to_layer, ..*old(self) }),
    {
        if (buttons.apply || buttons.confirm_key) && can_apply {
            if let Some(dialog) = &self.move_to_layer {
                if let Some(target_layer) = dialog.target_layer {
                    commands.push(
                        UiCommand::MoveObjectsToLayer { object_ids: copied(&dialog.object_ids), target_layer, copy: dialog.copy },
                    );
                    assert(commands@.drop_last() =~= old(commands)@);
                }
            }
            self.move_to_layer = None;
        } else if buttons.cancel || buttons.closed {
            self.move_to_layer = None;
        }
    }
}

/// A settled target is a layer of the project, and settling it again keeps it.
pub proof fn settled_layer_belongs_to_project(project: UiProjectEntry, chosen: Option<LayerId>)
    ensures
        project.settled_layer(chosen) is None ==> project.layers@.len() == 0,
        project.settled_layer(chosen) matches Some(id) ==> layer_from(project.layers@, id, 0) is Some,
        project.settled_layer(project.settled_layer(chosen)) == project.settled_layer(chosen),
{
    if project.layers@.len() > 0 {
        assert(layer_from(project.layers@, project.layers@[0].id, 0) is Some);
    } else {
        assert(forall|id: LayerId| layer_from(project.layers@, id, 0) is None);
    }
}

impl MoveToAxisDialog {
    /// A coordinate can be set: it is a number, and there is something to set.
    pub open spec fn spec_can_apply(self) -> bool {
        self.value.finite() && self.object_ids@.len() > 0
    }

    pub fn can_apply(&self) -> (r: bool)
        ensures
            r == self.spec_can_apply(),
    {
        self.value.is_finite() && self.object_ids.len() > 0
    }

    pub fn title(&self) -> (r: Text)
        ensures
            r == literal1("Set %axis%", named("axis", Arg::AxisName(self.axis))),
    {
        literal1("Set %axis%", named("axis", Arg::AxisName(self.axis)))
    }

    pub fn value_label(&self) -> (r: Text)
        ensures
            r == literal1("%axis% value", named("axis", Arg::AxisName(self.axis))),
    {
        literal1("%axis% value", named("axis", Arg::AxisName(self.axis)))
    }

    /// What the dialog says of the selection.
    pub fn count_note(&self) -> (r: Text)
        ensures
            r == key1("ui-selected-objects", named("count", Arg::Count(self.object_ids@.len() as usize))),
    {
        key1("ui-selected-objects", named("count", Arg::Count(self.object_ids.len())))
    }

    /// What is wrong with the value, if anything.
    pub fn warning(&self) -> (r: Option<Text>)
        ensures
            r == (if self.value.finite() {
                None
            } else {
                Some(key1("ui-invalid-axis-value", named("axis", Arg::AxisName(self.axis))))
            }),
    {
        if self.value.is_finite() {
            None
        } else {
            Some(key1("ui-invalid-axis-value", named("axis", Arg::AxisName(self.axis))))
        }
    }

    pub open spec fn sets(self, command: UiCommand) -> bool {
        command matches UiCommand::BatchSetAxisValue(object_ids, axis, value) && {
            &&& object_ids@ == self.object_ids@
            &&& axis == self.axis
            &&& value == self.value
        }
    }
}

impl MoveToLayerDialog {
    /// What the dialog says of the selection.
    pub fn count_note(&self) -> (r: Text)
        ensures
            r == key1("ui-selected-objects", named("count", Arg::Count(self.object_ids@.len() as usize))),
    {
        key1("ui-selected-objects", named("count", Arg::Count(self.object_ids.len())))
    }
}

impl InsertPointAtElevationDialog {
    /// What the dialog says of the selection.
    pub fn count_note(&self) -> (r: Text)
        ensures
            r == key1("ui-selected-polylines", named("count", Arg::Count(self.object_ids@.len() as usize))),
    {
        key1("ui-selected-polylines", named("count", Arg::Count(self.object_ids.len())))
    }

    pub open spec fn spec_can_apply(self) -> bool {
        self.elevation.finite() && self.object_ids@.len() > 0
    }

    pub fn can_apply(&self) -> (r: bool)
        ensures
            r == self.spec_can_apply(),
    {
        self.elevation.is_finite() && self.object_ids.len() > 0
    }

    pub fn warning(&self) -> (r: Option<Text>)
        ensures
            r == (if self.elevation.finite() {
                None
            } else {
                Some(literal("Enter a valid elevation."))
            }),
    {
        if self.elevation.is_finite() {
            None
        } else {
            Some(literal("Enter a valid elevation."))
        }
    }

    /// The band that the selection spans, where there is one.
    pub fn span_note(&self) -> (r: Option<Text>)
        ensures
            r == (if (Real64 { bits: LOWEST }).lt_number(self.min_elevation) {
                Some(
                    key2(
                        "ui-selection-spans",
                        named("min", Arg::Fixed { value: self.min_elevation, decimals: 2 }),
                        named("max", Arg::Fixed { value: self.max_elevation, decimals: 2 }),
                    ),
                )
            } else {
                None
            }),
    {
        if (Real64 { bits: LOWEST }).less(self.min_elevation) {
            Some(
                key2(
                    "ui-selection-spans",
                    named("min", Arg::Fixed { value: self.min_elevation, decimals: 2 }),
                    named("max", Arg::Fixed { value: self.max_elevation, decimals: 2 }),
                ),
            )
        } else {
            None
        }
    }

    pub open spec fn inserts(self, command: UiCommand) -> bool {
        command matches UiCommand::InsertPointsAtElevation { object_ids, elevation } && {
            &&& object_ids@ == self.object_ids@
            &&& elevation == self.elevation
        }
    }
}

impl DrawingState {
    /// Take the buttons of the axis dialog. A set elevation becomes the plane that
    /// points are placed on as well.
    pub fn finish_move_to_axis(&mut self, can_apply: bool, buttons: DialogButtons, commands: &mut Vec<UiCommand>)
        ensures
            ({
                let before = old(self).canvas.move_to_axis;
                let applies = buttons.applies(can_apply) && before is Some;
                &&& applies ==> final(commands)@.len() == old(commands)@.len() + 1 && final(commands)@.drop_last() == old(commands)@
                    && (before->0).sets(final(commands)@.last())
                &&& !applies ==> final(commands)@ == old(commands)@
                &&& final(self).canvas.move_to_axis == (if applies || buttons.leaves() {
                    None
                } else {
                    before
                })
                &&& final(self).cursor == (if applies && (before->0).axis is Z {
                    CursorState { z_input: (before->0).value, z_level: (before->0).value, ..old(self).cursor }
                } else {
                    old(self).cursor
                })
            }),
            *final(self) == (DrawingState { canvas: final(self).canvas, cursor: final(self).cursor, ..*old(self) }),
            final(self).canvas == (CanvasDialogs { move_to_axis: final(self).canvas.move_to_axis, ..old(self).canvas }),
    {
        if (buttons.apply || buttons.confirm_key) && can_apply {
            if let Some(dialog) = &self.canvas.move_to_axis {
                commands.push(UiCommand::BatchSetAxisValue(copied(&dialog.object_ids), dialog.axis, dialog.value));
                assert(commands@.drop_last() =~= old(commands)@);
                if dialog.axis == Axis::Z {
                    self.cursor.z_input = dialog.value;
                    self.cursor.z_level = dialog.value;
                }
            }
            self.canvas.move_to_axis = None;
        } else if buttons.cancel || buttons.closed {
            self.canvas.move_to_axis = None;
        }
    }

    /// Take the buttons of the elevation dialog. The elevation is offered again for
    /// the placement plane, which itself stays where it is.
    pub fn finish_insert_point(&mut self, can_apply: bool, buttons: DialogButtons, commands: &mut Vec<UiCommand>)
        ensures
            ({
                let before = old(self).canvas.insert_point_at_elevation;
                let applies = buttons.applies(can_apply) && before is Some;
                &&& applies ==> final(commands)@.len() == old(commands)@.len() + 1 && final(commands)@.drop_last() == old(commands)@
                    && (before->0).inserts(final(commands)@.last())
                &&& !applies ==> final(commands)@ == old(commands)@
                &&& final(self).canvas.insert_point_at_elevation == (if applies || buttons.leaves() {
                    None
                } else {
                    before
                })
                &&& final(self).cursor == (if applies {
                    CursorState { z_input: (before->0).elevation, ..old(self).cursor }
                } else {
                    old(self).cursor
                })
            }),
            *final(self) == (DrawingState { canvas: final(self).canvas, cursor: final(self).cursor, ..*old(self) }),
            final(self).canvas == (CanvasDialogs {
                insert_point_at_elevation: final(self).canvas.insert_point_at_elevation,
                ..old(self).canvas
            }),
    {
        if (buttons.apply || buttons.confirm_key) && can_apply {
            if let Some(dialog) = &self.canvas.insert_point_at_elevation {
                commands.push(
                    UiCommand::InsertPointsAtElevation { object_ids: copied(&dialog.object_ids), elevation: dialog.elevation },
                );
                assert(commands@.drop_last() =~= old(commands)@);
                self.cursor.z_input = dialog.elevation;
            }
            self.canvas.insert_point_at_elevation = None;
        } else if buttons.cancel || buttons.closed {
            self.canvas.insert_point_at_elevation = None;
        }
    }
}

/// A chosen layer that the project has is kept. A choice that the project does not have, or
/// none, gives way to the first layer.
pub proof fn chosen_layers_are_kept(project: UiProjectEntry, chosen: LayerId, place: int)
    ensures
        0 <= place < project.layers@.len() && project.layers@[place].id == chosen ==> project.settled_layer(Some(chosen)) == Some(
            chosen,
        ),
        (forall|i: int| 0 <= i < project.layers@.len() ==> (#[trigger] project.layers@[i]).id != chosen) ==> project.settled_layer(
            Some(chosen),
        ) == project.settled_layer(None),
        project.layers@.len() > 0 ==> project.settled_layer(None) == Some(project.layers@[0].id),
        project.layers@.len() == 0 ==> project.settled_layer(Some(chosen)) is None && project.settled_layer(None) is None,
{
    if 0 <= place < project.layers@.len() && project.layers@[place].id == chosen {
        lemma_layer_found(project.layers@, chosen, 0, place);
    }
    if forall|i: int| 0 <= i < project.layers@.len() ==> (#[trigger] project.layers@[i]).id != chosen {
        lemma_layer_absent(project.layers@, chosen, 0);
    }
}

proof fn lemma_layer_found(layers: Seq<UiLayerEntry>, id: LayerId, from: int, place: int)
    requires
        0 <= from <= place < layers.len(),
        layers[place].id == id,
    ensures
        layer_from(layers, id, from) is Some,
    decreases place - from,
{
    if layers[from].id != id {
        lemma_layer_found(layers, id, from + 1, place);
    }
}

proof fn lemma_layer_absent(layers: Seq<UiLayerEntry>, id: LayerId, from: int)
    requires
        0 <= from,
        forall|i: int| from <= i < layers.len() ==> (#[trigger] layers[i]).id != id,
    ensures
        layer_from(layers, id, from) is None,
    decreases layers.len() - from,
{
    if from < layers.len() {
        lemma_layer_absent(layers, id, from + 1);
    }
}

/// A layer that is looked up is the first one with its identity.
pub proof fn first_layer_is_found(layers: Seq<UiLayerEntry>, id: LayerId, place: int)
    requires
        0 <= place < layers.len(),
        layers[place].id == id,
        forall|i: int| 0 <= i < place ==> (#[trigger] layers[i]).id != id,
    ensures
        layer_from(layers, id, 0) == Some(layers[place]),
{
    lemma_first_layer(layers, id, 0, place);
}

proof fn lemma_first_layer(layers: Seq<UiLayerEntry>, id: LayerId, from: int, place: int)
    requires
        0 <= from <= place < layers.len(),
        layers[place].id == id,
        forall|i: int| from <= i < place ==> (#[trigger] layers[i]).id != id,
    ensures
        layer_from(layers, id, from) == Some(layers[place]),
    decreases place - from,
{
    if from < place {
        assert(layers[from].id != id);
        lemma_first_layer(layers, id, from + 1, place);
    }
}

/// The active project is the first one that is active, and there is none where no project
/// is.
pub proof fn first_active_project_is_found(project: UiProjectView, place: int)
    ensures
        0 <= place < project.projects@.len() && project.projects@[place].is_active && (forall|i: int|
            0 <= i < place ==> !(#[trigger] project.projects@[i]).is_active) ==> project.active() == Some(project.projects@[place]),
        project.active() is None <==> forall|i: int| 0 <= i < project.projects@.len() ==> !(#[trigger] project.projects@[i]).is_active,
{
    let projects = project.projects@;
    if 0 <= place < projects.len() && projects[place].is_active && (forall|i: int| 0 <= i < place ==> !(#[trigger] projects[i]).is_active) {
        lemma_first_active(projects, 0, place);
    }
    lemma_active_found(projects, 0);
}

proof fn lemma_first_active(projects: Seq<UiProjectEntry>, from: int, place: int)
    requires
        0 <= from <= place < projects.len(),
        projects[place].is_active,
        forall|i: int| from <= i < place ==> !(#[trigger] projects[i]).is_active,
    ensures
        active_from(projects, from) == Some(projects[place]),
    decreases place - from,
{
    if from < place {
        assert(!projects[from].is_active);
        lemma_first_active(projects, from + 1, place);
    }
}

proof fn lemma_active_found(projects: Seq<UiProjectEntry>, from: int)
    requires
        0 <= from,
    ensures
        active_from(projects, from) is None <==> forall|i: int| from <= i < projects.len() ==> !(#[trigger] projects[i]).is_active,
    decreases projects.len() - from,
{
    if from < projects.len() {
        lemma_active_found(projects, from + 1);
        if projects[from].is_active {
            assert(!(forall|i: int| from <= i < projects.len() ==> !(#[trigger] projects[i]).is_active));
        } else if active_from(projects, from) is None {
            assert forall|i: int| from <= i < projects.len() implies !(#[trigger] projects[i]).is_active by {
                if i > from {
                    assert(from + 1 <= i);
                }
            }
        }
    }
}

/// Draping takes design objects first and triangulations after, and no entity in both steps.
pub proof fn drape_steps_take_different_kinds(handle: SceneEntityId)
    ensures
        taken_by(DrapePhase::Designs, handle) <==> handle is Object,
        taken_by(DrapePhase::Topologies, handle) <==> handle is Triangulation,
        !(taken_by(DrapePhase::Designs, handle) && taken_by(DrapePhase::Topologies, handle)),
{
}

/// What a step of draping would take is selected and of its kind, and nothing of that kind
/// that is selected is left out.
pub proof fn drape_takes_what_is_selected(editor: EditorState, handle: SceneEntityId)
    ensures
        editor.drape_selection().contains(handle) <==> editor.selection.selected_handles@.contains(handle) && match editor.geometry.drape.phase {
            DrapePhase::Designs => handle is Object,
            DrapePhase::Topologies => handle is Triangulation,
        },
{
}

/// The dialog applies on its button and on Enter alike, but only where it can; it is left by
/// cancelling and by closing its window.
pub proof fn dialogs_apply_or_leave(buttons: DialogButtons, can_apply: bool)
    ensures
        !can_apply ==> !buttons.applies(can_apply),
        can_apply ==> (buttons.applies(can_apply) <==> buttons.apply || buttons.confirm_key),
        buttons.leaves() <==> buttons.cancel || buttons.closed,
{
}

/// Each dialog can be applied exactly where there is something to apply it to and what it is
/// given is usable.
pub proof fn dialogs_need_objects_and_values(layer: MoveToLayerDialog, axis: MoveToAxisDialog, insert: InsertPointAtElevationDialog)
    ensures
        layer.spec_can_apply() <==> layer.target_layer is Some && layer.object_ids@.len() > 0,
        axis.spec_can_apply() <==> axis.value.finite() && axis.object_ids@.len() > 0,
        insert.spec_can_apply() <==> insert.elevation.finite() && insert.object_ids@.len() > 0,
{
}

/// The dialog shows the name of the layer that the objects go to, whether they are moved or
/// copied, and how many they are; moving sends exactly these objects to that layer.
pub proof fn shown_layer_is_the_target(
    dialog: MoveToLayerDialog,
    view: MoveToLayerView,
    project: UiProjectEntry,
    command: UiCommand,
    place: int,
)
    requires
        dialog.shows(view, project),
        0 <= place < project.layers@.len(),
        dialog.target_layer == Some(project.layers@[place].id),
        forall|i: int| 0 <= i < place ==> (#[trigger] project.layers@[i]).id != project.layers@[place].id,
    ensures
        view.layer_label == verbatim(project.layers@[place].name),
        view.action_label == (if dialog.copy {
            literal("Copy")
        } else {
            literal("Move")
        }),
        view.objects == dialog.object_ids@.len(),
        view.can_apply <==> dialog.object_ids@.len() > 0,
        dialog.moves(command, dialog.target_layer->0) ==> (command matches UiCommand::MoveObjectsToLayer { object_ids, target_layer, copy }
            && object_ids@ == dialog.object_ids@ && target_layer == project.layers@[place].id && copy == dialog.copy),
{
    first_layer_is_found(project.layers@, project.layers@[place].id, place);
}

/// Setting a coordinate sets the one that was asked for, on the objects that were asked for;
/// inserting points inserts them at the elevation that was asked for.
pub proof fn placements_are_as_asked(axis: MoveToAxisDialog, insert: InsertPointAtElevationDialog, set: UiCommand, inserted: UiCommand)
    requires
        axis.sets(set),
        insert.inserts(inserted),
    ensures
        set matches UiCommand::BatchSetAxisValue(object_ids, to, value) && object_ids@ == axis.object_ids@ && to == axis.axis && value
            == axis.value,
        inserted matches UiCommand::InsertPointsAtElevation { object_ids, elevation } && object_ids@ == insert.object_ids@ && elevation
            == insert.elevation,
{
}

} // verus!
