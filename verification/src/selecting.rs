//! Selecting, locking and freezing.
use crate::command::CommandReportSpec;
use crate::editor::EditorState;
use crate::fingerprint::{fed, feed_optional, key_of_set, optional_words, set_key};
use crate::handle_set::HandleSet;
use crate::ids::{DrillHoleRef, ObjectId, SceneEntityId};
use crate::number::Vec3;
use crate::state::selection::SelectionState;
use crate::text::{literal, literal1, named, Arg, Text};
use crate::tools::{ActiveTool, EditorAction, SelectionMode};
use crate::views::write_word;
use std::collections::hash_map::DefaultHasher;
use std::hash::Hasher;
use vstd::prelude::*;
use vstd::std_specs::hash::DefaultHasherAdditionalSpecFns;

verus! {

/// A set after a pick: the pick alone, the pick added, or the pick flipped.
pub open spec fn picked<T>(set: Set<T>, handle: T, mode: SelectionMode) -> Set<T> {
    match mode {
        SelectionMode::Replace => set![handle],
        SelectionMode::Add => set.insert(handle),
        SelectionMode::Toggle => if set.contains(handle) {
            set.remove(handle)
        } else {
            set.insert(handle)
        },
    }
}

impl SelectionState {
    /// Everything but the three selections is as it was.
    pub open spec fn same_beyond_selection(self, before: SelectionState) -> bool {
        &&& self.hidden_handles == before.hidden_handles
        &&& self.frozen_handles == before.frozen_handles
        &&& self.explicitly_frozen == before.explicitly_frozen
        &&& self.locked_layers == before.locked_layers
        &&& self.locked_rasters == before.locked_rasters
        &&& self.translucent_handles == before.translucent_handles
    }

    pub open spec fn nothing_selected(self) -> bool {
        &&& self.selected_handles@ == Set::<SceneEntityId>::empty()
        &&& self.selected_drill_holes@ == Set::<DrillHoleRef>::empty()
        &&& self.selected_tie_ins@ == Set::<crate::ids::TieInRef>::empty()
    }

    /// Drop everything selected, in every workspace's terms.
    pub fn clear_scene_selection(&mut self)
        ensures
            final(self).nothing_selected(),
            final(self).same_beyond_selection(*old(self)),
    {
        self.selected_handles.clear();
        self.selected_drill_holes.clear();
        self.selected_tie_ins.clear();
    }

    /// What a pick of an entity does to the selections. Replacing drops the holes
    /// and connectors as well.
    pub open spec fn entity_picked(self, before: SelectionState, handle: SceneEntityId, mode: SelectionMode) -> bool {
        &&& self.selected_handles@ == picked(before.selected_handles@, handle, mode)
        &&& mode is Replace ==> self.selected_drill_holes@ == Set::<DrillHoleRef>::empty() && self.selected_tie_ins@ == Set::<
            crate::ids::TieInRef,
        >::empty()
        &&& !(mode is Replace) ==> self.selected_drill_holes == before.selected_drill_holes && self.selected_tie_ins
            == before.selected_tie_ins
        &&& self.same_beyond_selection(before)
    }

    pub open spec fn hole_picked(self, before: SelectionState, hole: DrillHoleRef, mode: SelectionMode) -> bool {
        &&& self.selected_drill_holes@ == picked(before.selected_drill_holes@, hole, mode)
        &&& mode is Replace ==> self.selected_handles@ == Set::<SceneEntityId>::empty() && self.selected_tie_ins@ == Set::<
            crate::ids::TieInRef,
        >::empty()
        &&& !(mode is Replace) ==> self.selected_handles == before.selected_handles && self.selected_tie_ins
            == before.selected_tie_ins
        &&& self.same_beyond_selection(before)
    }

    fn replace_selection(&mut self, handle: SceneEntityId)
        ensures
            final(self).entity_picked(*old(self), handle, SelectionMode::Replace),
    {
        self.clear_scene_selection();
        self.selected_handles.insert(handle);
        assert(self.selected_handles@ =~= set![handle]);
    }

    fn add_selection(&mut self, handle: SceneEntityId)
        ensures
            final(self).entity_picked(*old(self), handle, SelectionMode::Add),
    {
        self.selected_handles.insert(handle);
    }

    fn toggle_selection(&mut self, handle: SceneEntityId)
        ensures
            final(self).entity_picked(*old(self), handle, SelectionMode::Toggle),
    {
        if !self.selected_handles.remove(handle) {
            assert(self.selected_handles@ =~= old(self).selected_handles@);
            self.selected_handles.insert(handle);
        }
    }

    /// An entity after its lock is set or released: locking freezes it by name
    /// and takes it, and the single holes of a locked dataset, out of the
    /// selection; releasing thaws it.
    pub open spec fn lock_set(self, before: SelectionState, handle: SceneEntityId, locked: bool) -> bool {
        &&& self.explicitly_frozen@ == (if locked {
            before.explicitly_frozen@.insert(handle)
        } else {
            before.explicitly_frozen@.remove(handle)
        })
        &&& self.frozen_handles@ == (if locked {
            before.frozen_handles@.insert(handle)
        } else {
            before.frozen_handles@.remove(handle)
        })
        &&& self.selected_handles@ == (if locked {
            before.selected_handles@.remove(handle)
        } else {
            before.selected_handles@
        })
        &&& self.selected_drill_holes@ == (match handle {
            SceneEntityId::DrillHole(dataset) if locked => before.selected_drill_holes@.filter(
                |hole: DrillHoleRef| hole.dataset != dataset,
            ),
            _ => before.selected_drill_holes@,
        })
        &&& self.selected_tie_ins == before.selected_tie_ins
        &&& self.hidden_handles == before.hidden_handles
        &&& self.locked_layers == before.locked_layers
        &&& self.locked_rasters == before.locked_rasters
        &&& self.translucent_handles == before.translucent_handles
    }

    /// What was frozen by name is frozen.
    pub open spec fn well_frozen(self) -> bool {
        self.explicitly_frozen@.subset_of(self.frozen_handles@)
    }

    /// The dataset and single holes of it are not selected at once.
    pub open spec fn holes_selected_one_way(self) -> bool {
        forall|hole: DrillHoleRef|
            #[trigger] self.selected_drill_holes@.contains(hole) ==> !self.selected_handles@.contains(
                SceneEntityId::DrillHole(hole.dataset),
            )
    }
}

impl EditorState {
    /// Everything but the selection state is as it was.
    pub open spec fn same_beyond(self, before: EditorState) -> bool {
        self == (EditorState { selection: self.selection, ..before })
    }

    /// Drop everything selected: whole scene entities and the individual drill
    /// holes and connectors that Drill & Blast picks.
    pub fn clear_scene_selection(&mut self)
        ensures
            final(self).selection.nothing_selected(),
            final(self).selection.same_beyond_selection(old(self).selection),
            final(self).same_beyond(*old(self)),
    {
        self.selection.clear_scene_selection();
    }

    /// Lock or unlock one scene entity by name.
    pub fn set_entity_locked(&mut self, handle: SceneEntityId, locked: bool)
        ensures
            final(self).selection.lock_set(old(self).selection, handle, locked),
            final(self).same_beyond(*old(self)),
    {
        if locked {
            self.selection.explicitly_frozen.insert(handle);
            self.selection.frozen_handles.insert(handle);
            self.selection.selected_handles.remove(handle);
            if let SceneEntityId::DrillHole(dataset) = handle {
                self.selection.selected_drill_holes.remove_dataset(dataset);
            }
        } else {
            self.selection.explicitly_frozen.remove(handle);
            self.selection.frozen_handles.remove(handle);
        }
    }

    /// Left click that landed on empty space: clears the selection.
    pub fn on_canvas_click(&mut self, _world: Vec3)
        ensures
            final(self).selection.nothing_selected(),
            final(self).selection.same_beyond_selection(old(self).selection),
            final(self).same_beyond(*old(self)),
    {
        self.clear_scene_selection();
    }

    /// The editor after the picked world point was reported, which the slice view
    /// does not do.
    pub open spec fn point_reported(self, before: EditorState, world: Vec3) -> bool {
        &&& self == (EditorState { selection: self.selection, drawing: self.drawing, ..before })
        &&& self.drawing == (crate::state::drawing::DrawingState { cursor: self.drawing.cursor, ..before.drawing })
        &&& self.drawing.cursor == (crate::state::drawing::CursorState {
            world: if before.view.slice.mode_enabled {
                before.drawing.cursor.world
            } else {
                Some(world)
            },
            ..before.drawing.cursor
        })
    }

    /// Left click that landed on entity geometry: selects it and reports the
    /// picked world point, except in the slice view.
    pub fn on_canvas_pick(&mut self, handle: SceneEntityId, world: Vec3, mode: SelectionMode)
        ensures
            final(self).selection.entity_picked(old(self).selection, handle, mode),
            final(self).point_reported(*old(self), world),
    {
        if !self.view.slice.mode_enabled {
            self.drawing.cursor.world = Some(world);
        }
        match mode {
            SelectionMode::Replace => self.selection.replace_selection(handle),
            SelectionMode::Add => self.selection.add_selection(handle),
            SelectionMode::Toggle => self.selection.toggle_selection(handle),
        }
    }

    /// Left click that landed on one drill hole, in a workspace that works a hole
    /// at a time: selects the hole rather than the dataset holding it.
    pub fn on_drill_hole_pick(&mut self, hole: DrillHoleRef, world: Vec3, mode: SelectionMode)
        ensures
            final(self).selection.hole_picked(old(self).selection, hole, mode),
            final(self).point_reported(*old(self), world),
    {
        if !self.view.slice.mode_enabled {
            self.drawing.cursor.world = Some(world);
        }
        match mode {
            SelectionMode::Replace => {
                self.selection.clear_scene_selection();
                self.selection.selected_drill_holes.insert(hole);
                assert(self.selection.selected_drill_holes@ =~= set![hole]);
            },
            SelectionMode::Add => {
                self.selection.selected_drill_holes.insert(hole);
            },
            SelectionMode::Toggle => {
                if !self.selection.selected_drill_holes.remove(hole) {
                    assert(self.selection.selected_drill_holes@ =~= old(self).selection.selected_drill_holes@);
                    self.selection.selected_drill_holes.insert(hole);
                }
            },
        }
    }

    pub open spec fn spec_move_tool_has_targets(self) -> bool {
        match self.drawing.tools.active_tool {
            ActiveTool::Move => exists|id: ObjectId| #[trigger] self.selection.selected_handles@.contains(SceneEntityId::Object(id)),
            ActiveTool::MoveCollar => self.selection.selected_drill_holes@ != Set::<DrillHoleRef>::empty(),
            _ => false,
        }
    }

    /// Whether the active translate tool has anything to move: design objects for
    /// Move, individually picked holes for Move Collar.
    pub fn move_tool_has_targets(&self) -> (r: bool)
        ensures
            r == self.spec_move_tool_has_targets(),
    {
        match self.drawing.tools.active_tool {
            ActiveTool::Move => {
                let handles = self.selection.selected_handles.as_vec();
                let mut i: usize = 0;
                while i < handles.len()
                    invariant
                        i <= handles@.len(),
                        self.drawing.tools.active_tool is Move,
                        handles@.to_set() == self.selection.selected_handles@,
                        forall|k: int| 0 <= k < i ==> !(#[trigger] handles@[k] is Object),
                    decreases handles@.len() - i,
                {
                    if let SceneEntityId::Object(id) = handles[i] {
                        proof {
                            assert(handles@.contains(handles@[i as int]));
                            assert(self.selection.selected_handles@.contains(SceneEntityId::Object(id)));
                        }
                        return true;
                    }
                    i = i + 1;
                }
                proof {
                    assert forall|id: ObjectId| !(#[trigger] self.selection.selected_handles@.contains(SceneEntityId::Object(id))) by {
                        if self.selection.selected_handles@.contains(SceneEntityId::Object(id)) {
                            let k = choose|k: int| 0 <= k < handles@.len() && handles@[k] == SceneEntityId::Object(id);
                            assert(handles@[k] is Object);
                        }
                    }
                }
                false
            },
            ActiveTool::MoveCollar => !self.selection.selected_drill_holes.is_empty(),
            _ => false,
        }
    }

    pub open spec fn spec_rotate_tool_has_targets(self) -> bool {
        self.drawing.tools.active_tool is RotateCollar && self.selection.selected_drill_holes@ != Set::<DrillHoleRef>::empty()
    }

    /// Whether Rotate Collar has holes to turn.
    pub fn rotate_tool_has_targets(&self) -> (r: bool)
        ensures
            r == self.spec_rotate_tool_has_targets(),
    {
        self.drawing.tools.active_tool == ActiveTool::RotateCollar && !self.selection.selected_drill_holes.is_empty()
    }

    /// Every editor field that is baked into the static document geometry: the
    /// selections, what is hidden, frozen and dimmed, and the tool highlights.
    pub open spec fn style_words(self) -> Seq<u64> {
        seq![
            set_key(self.selection.selected_handles@),
            set_key(self.selection.selected_drill_holes@),
            set_key(self.selection.selected_tie_ins@),
            set_key(self.selection.hidden_handles@),
            set_key(self.selection.frozen_handles@),
            set_key(self.selection.translucent_handles@),
            set_key(self.triangulation.create.hover_handles@),
        ] + optional_words(self.drawing.tools.highlight_id) + optional_words(self.drawing.text.editing_id)
    }

    /// Order-independent fingerprint of the fields that the static geometry
    /// shows. The renderer compares it each frame, so a transition rebuilds the
    /// scene whatever refresh the caller asked for.
    pub fn render_style_key(&self) -> (r: u64)
        ensures
            r == DefaultHasher::spec_finish(fed(self.style_words())),
    {
        let mut hasher = DefaultHasher::new();
        write_word(&mut hasher, key_of_set(&self.selection.selected_handles));
        write_word(&mut hasher, key_of_set(&self.selection.selected_drill_holes));
        write_word(&mut hasher, key_of_set(&self.selection.selected_tie_ins));
        write_word(&mut hasher, key_of_set(&self.selection.hidden_handles));
        write_word(&mut hasher, key_of_set(&self.selection.frozen_handles));
        write_word(&mut hasher, key_of_set(&self.selection.translucent_handles));
        write_word(&mut hasher, key_of_set(&self.triangulation.create.hover_handles));
        feed_optional(&mut hasher, self.drawing.tools.highlight_id);
        feed_optional(&mut hasher, self.drawing.text.editing_id);
        assert(hasher@ =~= fed(self.style_words()));
        hasher.finish()
    }

    /// The selection was taken over into both frozen sets and out of the objects
    /// confirmed for a triangulation; nothing else changed.
    pub open spec fn froze_selection(self, before: EditorState) -> bool {
        &&& self.selection.frozen_handles@ == before.selection.frozen_handles@.union(before.selection.selected_handles@)
        &&& self.selection.explicitly_frozen@ == before.selection.explicitly_frozen@.union(before.selection.selected_handles@)
        &&& self.selection.selected_handles@ == Set::<SceneEntityId>::empty()
        &&& self.selection.selected_drill_holes == before.selection.selected_drill_holes
        &&& self.selection.selected_tie_ins == before.selection.selected_tie_ins
        &&& self.selection.hidden_handles == before.selection.hidden_handles
        &&& self.selection.locked_layers == before.selection.locked_layers
        &&& self.selection.locked_rasters == before.selection.locked_rasters
        &&& self.selection.translucent_handles == before.selection.translucent_handles
        &&& self.triangulation.create.selected_object_ids@ == before.triangulation.create.selected_object_ids@.filter(
            |id: ObjectId| !before.selection.selected_handles@.contains(SceneEntityId::Object(id)),
        )
        &&& self == (EditorState { selection: self.selection, triangulation: self.triangulation, ..before })
        &&& self.triangulation == (crate::state::triangulation::TriangulationState {
            create: self.triangulation.create,
            ..before.triangulation
        })
        &&& self.triangulation.create == (crate::state::triangulation::TriCreateState {
            selected_object_ids: self.triangulation.create.selected_object_ids,
            ..before.triangulation.create
        })
    }

    /// Whether freezing calls for a rebuild, what it reports and what it logs.
    pub open spec fn freeze_report(self) -> (bool, CommandReportSpec, Text) {
        let count = named("count", Arg::Count(self.selection.selected_handles@.len() as usize));
        (
            self.selection.selected_handles@ != Set::<SceneEntityId>::empty(),
            CommandReportSpec { title: literal("Lock Selection"), summary: literal1("%count% object(s)", count) },
            literal1("Locked %count% object(s)", count),
        )
    }

    /// Apply a display action to the current selection. Returns whether the
    /// geometry must be rebuilt, which deselecting anything calls for, and what to
    /// report.
    pub fn apply_action(&mut self, action: EditorAction) -> (r: (bool, CommandReportSpec, Text))
        ensures
            final(self).froze_selection(*old(self)),
            r == old(self).freeze_report(),
    {
        match action {
            EditorAction::FreezeSelection => {
                let mut newly_frozen: HandleSet<SceneEntityId> = HandleSet::new();
                std::mem::swap(&mut newly_frozen, &mut self.selection.selected_handles);
                let count = newly_frozen.len();
                let changed = !newly_frozen.is_empty();
                self.selection.frozen_handles.extend_from(&newly_frozen);
                self.selection.explicitly_frozen.extend_from(&newly_frozen);
                let ghost frozen = newly_frozen@;
                let mut kept: Vec<ObjectId> = Vec::new();
                let ghost all = self.triangulation.create.selected_object_ids@;
                let ghost keep = |id: ObjectId| !frozen.contains(SceneEntityId::Object(id));
                let mut i: usize = 0;
                assert(all.take(0).filter(keep) =~= Seq::<ObjectId>::empty());
                while i < self.triangulation.create.selected_object_ids.len()
                    invariant
                        i <= self.triangulation.create.selected_object_ids@.len(),
                        all == self.triangulation.create.selected_object_ids@,
                        frozen == newly_frozen@,
                        keep == (|id: ObjectId| !frozen.contains(SceneEntityId::Object(id))),
                        kept@ == all.take(i as int).filter(keep),
                    decreases self.triangulation.create.selected_object_ids@.len() - i,
                {
                    let id = self.triangulation.create.selected_object_ids[i];
                    proof {
                        let next = all.take(i + 1);
                        assert(next.drop_last() =~= all.take(i as int));
                        reveal(Seq::filter);
                    }
                    if !newly_frozen.contains(SceneEntityId::Object(id)) {
                        kept.push(id);
                    }
                    i = i + 1;
                }
                assert(all.take(i as int) =~= all);
                self.triangulation.create.selected_object_ids = kept;
                (
                    changed,
                    CommandReportSpec {
                        title: literal("Lock Selection"),
                        summary: literal1("%count% object(s)", named("count", Arg::Count(count))),
                    },
                    literal1("Locked %count% object(s)", named("count", Arg::Count(count))),
                )
            },
        }
    }
}

/// Toggling a handle twice leaves the set as it was; replacing leaves the handle
/// alone; adding twice is adding once.
pub proof fn picks_compose<T>(set: Set<T>, handle: T)
    ensures
        picked(picked(set, handle, SelectionMode::Toggle), handle, SelectionMode::Toggle) == set,
        picked(set, handle, SelectionMode::Replace) == set![handle],
        picked(picked(set, handle, SelectionMode::Add), handle, SelectionMode::Add) == picked(set, handle, SelectionMode::Add),
{
    assert(picked(picked(set, handle, SelectionMode::Toggle), handle, SelectionMode::Toggle) =~= set);
    assert(picked(picked(set, handle, SelectionMode::Add), handle, SelectionMode::Add) =~= picked(set, handle, SelectionMode::Add));
}

/// Locking keeps what is frozen by name among what is frozen, and a locked entity
/// is frozen and not selected; so is no single hole of a locked dataset. Releasing
/// a lock thaws the entity.
pub proof fn locks_hold(before: SelectionState, after: SelectionState, handle: SceneEntityId, locked: bool, hole: DrillHoleRef)
    requires
        after.lock_set(before, handle, locked),
    ensures
        before.well_frozen() ==> after.well_frozen(),
        locked ==> after.frozen_handles@.contains(handle) && after.explicitly_frozen@.contains(handle)
            && !after.selected_handles@.contains(handle),
        locked && handle == SceneEntityId::DrillHole(hole.dataset) ==> !after.selected_drill_holes@.contains(hole),
        !locked ==> !after.frozen_handles@.contains(handle) && !after.explicitly_frozen@.contains(handle),
{
    if before.well_frozen() {
        assert forall|x: SceneEntityId| after.explicitly_frozen@.contains(x) implies after.frozen_handles@.contains(x) by {
            assert(before.explicitly_frozen@.contains(x) ==> before.frozen_handles@.contains(x));
        }
    }
}

/// Unlocking an entity that was locked brings both frozen sets back, where it was
/// in neither before.
pub proof fn unlocking_undoes_locking(before: SelectionState, locked: SelectionState, after: SelectionState, handle: SceneEntityId)
    requires
        locked.lock_set(before, handle, true),
        after.lock_set(locked, handle, false),
        !before.frozen_handles@.contains(handle),
        !before.explicitly_frozen@.contains(handle),
    ensures
        after.frozen_handles@ == before.frozen_handles@,
        after.explicitly_frozen@ == before.explicitly_frozen@,
{
    assert(after.frozen_handles@ =~= before.frozen_handles@);
    assert(after.explicitly_frozen@ =~= before.explicitly_frozen@);
}

/// Freezing the selection leaves nothing selected, freezes all that was selected by name,
/// keeps what is frozen by name among what is frozen, and drops the frozen objects from
/// those confirmed for a triangulation.
pub proof fn frozen_selection_is_let_go(before: EditorState, after: EditorState, handle: SceneEntityId, id: ObjectId)
    requires
        after.froze_selection(before),
    ensures
        !after.selection.selected_handles@.contains(handle),
        before.selection.selected_handles@.contains(handle) ==> after.selection.frozen_handles@.contains(handle)
            && after.selection.explicitly_frozen@.contains(handle),
        before.selection.well_frozen() ==> after.selection.well_frozen(),
        before.selection.selected_handles@.contains(SceneEntityId::Object(id))
            ==> !after.triangulation.create.selected_object_ids@.contains(id),
{
    let kept = after.triangulation.create.selected_object_ids@;
    let keep = |id: ObjectId| !before.selection.selected_handles@.contains(SceneEntityId::Object(id));
    if kept.contains(id) {
        before.triangulation.create.selected_object_ids@.lemma_filter_contains_rev(keep, id);
    }
    if before.selection.well_frozen() {
        assert forall|x: SceneEntityId| after.selection.explicitly_frozen@.contains(x) implies after.selection.frozen_handles@.contains(
            x,
        ) by {
            assert(before.selection.explicitly_frozen@.contains(x) ==> before.selection.frozen_handles@.contains(x));
        }
    }
}

/// A workspace that picks whole datasets, and so has no single hole selected,
/// and a workspace that picks single holes, and so has no dataset selected, each
/// keep to their own way under any pick.
pub proof fn picks_keep_to_one_way(
    before: SelectionState,
    entity: SelectionState,
    hole: SelectionState,
    handle: SceneEntityId,
    picked_hole: DrillHoleRef,
    mode: SelectionMode,
)
    requires
        entity.entity_picked(before, handle, mode),
        hole.hole_picked(before, picked_hole, mode),
    ensures
        before.selected_drill_holes@ == Set::<DrillHoleRef>::empty() ==> entity.selected_drill_holes@ == Set::<
            DrillHoleRef,
        >::empty() && entity.holes_selected_one_way(),
        (forall|h: SceneEntityId| before.selected_handles@.contains(h) ==> !(h is DrillHole)) ==> hole.holes_selected_one_way(),
{
}

/// Two editors that show the same selections, hidden, frozen and dimmed sets and
/// tool highlights have the same style key, however their sets came about.
pub proof fn style_key_depends_on_what_shows(a: EditorState, b: EditorState)
    requires
        a.selection.selected_handles@ == b.selection.selected_handles@,
        a.selection.selected_drill_holes@ == b.selection.selected_drill_holes@,
        a.selection.selected_tie_ins@ == b.selection.selected_tie_ins@,
        a.selection.hidden_handles@ == b.selection.hidden_handles@,
        a.selection.frozen_handles@ == b.selection.frozen_handles@,
        a.selection.translucent_handles@ == b.selection.translucent_handles@,
        a.triangulation.create.hover_handles@ == b.triangulation.create.hover_handles@,
        a.drawing.tools.highlight_id == b.drawing.tools.highlight_id,
        a.drawing.text.editing_id == b.drawing.text.editing_id,
    ensures
        DefaultHasher::spec_finish(fed(a.style_words())) == DefaultHasher::spec_finish(fed(b.style_words())),
{
}

/// What is selected after a pick: the pick alone, or with what was selected, or without it
/// where it was selected already. Nothing else is added and nothing else is dropped.
pub proof fn picks_touch_the_picked_handle_alone<T>(set: Set<T>, handle: T, other: T)
    ensures
        picked(set, handle, SelectionMode::Replace).contains(other) <==> other == handle,
        picked(set, handle, SelectionMode::Add).contains(other) <==> set.contains(other) || other == handle,
        other != handle ==> (picked(set, handle, SelectionMode::Toggle).contains(other) <==> set.contains(other)),
        picked(set, handle, SelectionMode::Toggle).contains(handle) <==> !set.contains(handle),
{
}

/// A pick of an entity or a hole changes its own kind of selection; replacing drops the other
/// kinds, adding and toggling leave them, and nothing else of the selection state changes.
pub proof fn picks_keep_the_other_kinds(
    before: SelectionState,
    entity: SelectionState,
    hole: SelectionState,
    handle: SceneEntityId,
    picked_hole: DrillHoleRef,
    mode: SelectionMode,
)
    requires
        entity.entity_picked(before, handle, mode),
        hole.hole_picked(before, picked_hole, mode),
    ensures
        mode is Replace || mode is Add ==> entity.selected_handles@.contains(handle) && hole.selected_drill_holes@.contains(picked_hole),
        mode is Replace ==> entity.selected_drill_holes@.len() == 0 && entity.selected_tie_ins@.len() == 0 && hole.selected_handles@.len()
            == 0 && hole.selected_tie_ins@.len() == 0,
        !(mode is Replace) ==> entity.selected_drill_holes == before.selected_drill_holes && entity.selected_tie_ins
            == before.selected_tie_ins && hole.selected_handles == before.selected_handles && hole.selected_tie_ins
            == before.selected_tie_ins,
        entity.hidden_handles == before.hidden_handles && entity.frozen_handles == before.frozen_handles && entity.explicitly_frozen
            == before.explicitly_frozen && entity.locked_layers == before.locked_layers && entity.locked_rasters
            == before.locked_rasters && entity.translucent_handles == before.translucent_handles,
        hole.hidden_handles == before.hidden_handles && hole.frozen_handles == before.frozen_handles && hole.explicitly_frozen
            == before.explicitly_frozen && hole.locked_layers == before.locked_layers && hole.locked_rasters == before.locked_rasters
            && hole.translucent_handles == before.translucent_handles,
{
}

/// A lock touches nothing but its own entity: every other one stays frozen or free, selected
/// or not, as do the holes of other datasets. Releasing a lock selects nothing.
pub proof fn locks_touch_their_own_entity(
    before: SelectionState,
    after: SelectionState,
    handle: SceneEntityId,
    locked: bool,
    other: SceneEntityId,
    hole: DrillHoleRef,
)
    requires
        after.lock_set(before, handle, locked),
        other != handle,
    ensures
        after.frozen_handles@.contains(other) <==> before.frozen_handles@.contains(other),
        after.explicitly_frozen@.contains(other) <==> before.explicitly_frozen@.contains(other),
        after.selected_handles@.contains(other) <==> before.selected_handles@.contains(other),
        handle != SceneEntityId::DrillHole(hole.dataset) ==> (after.selected_drill_holes@.contains(hole)
            <==> before.selected_drill_holes@.contains(hole)),
        !locked ==> after.selected_handles@ == before.selected_handles@ && after.selected_drill_holes@ == before.selected_drill_holes@,
        after.hidden_handles == before.hidden_handles && after.selected_tie_ins == before.selected_tie_ins && after.locked_layers
            == before.locked_layers && after.locked_rasters == before.locked_rasters && after.translucent_handles
            == before.translucent_handles,
{
}

/// Freezing the selection freezes what was selected and nothing else; what was frozen stays
/// so, and objects that were not selected stay among those confirmed for a triangulation, in
/// their order. It says how many it froze.
pub proof fn freezing_touches_the_selection_alone(before: EditorState, after: EditorState, other: SceneEntityId, id: ObjectId)
    requires
        after.froze_selection(before),
    ensures
        after.selection.frozen_handles@.contains(other) <==> before.selection.frozen_handles@.contains(other)
            || before.selection.selected_handles@.contains(other),
        after.selection.explicitly_frozen@.contains(other) <==> before.selection.explicitly_frozen@.contains(other)
            || before.selection.selected_handles@.contains(other),
        before.triangulation.create.selected_object_ids@.contains(id) && !before.selection.selected_handles@.contains(
            SceneEntityId::Object(id),
        ) ==> after.triangulation.create.selected_object_ids@.contains(id),
        after.selection.selected_drill_holes == before.selection.selected_drill_holes && after.selection.hidden_handles
            == before.selection.hidden_handles,
        before.freeze_report().0 <==> before.selection.selected_handles@ != Set::<SceneEntityId>::empty(),
        before.freeze_report().1.title == literal("Lock Selection"),
        before.freeze_report().2 == literal1(
            "Locked %count% object(s)",
            named("count", Arg::Count(before.selection.selected_handles@.len() as usize)),
        ),
{
    let keep = |id: ObjectId| !before.selection.selected_handles@.contains(SceneEntityId::Object(id));
    let all = before.triangulation.create.selected_object_ids@;
    if all.contains(id) && keep(id) {
        let k = choose|k: int| 0 <= k < all.len() && all[k] == id;
        all.lemma_filter_contains(keep, k);
    }
}

/// A tool that moves has targets exactly where something of its kind is selected: design
/// objects for one, single holes for the other and for the rotation.
pub proof fn moving_tools_need_their_kind(editor: EditorState, id: ObjectId, hole: DrillHoleRef)
    ensures
        ({
            let tool = editor.drawing.tools.active_tool;
            let objects = editor.selection.selected_handles@;
            let holes = editor.selection.selected_drill_holes@;
            &&& tool is Move && objects.contains(SceneEntityId::Object(id)) ==> editor.spec_move_tool_has_targets()
            &&& tool is Move && objects == Set::<SceneEntityId>::empty() ==> !editor.spec_move_tool_has_targets()
            &&& tool is MoveCollar && holes.contains(hole) ==> editor.spec_move_tool_has_targets()
            &&& tool is MoveCollar && holes == Set::<DrillHoleRef>::empty() ==> !editor.spec_move_tool_has_targets()
            &&& !(tool is Move) && !(tool is MoveCollar) ==> !editor.spec_move_tool_has_targets()
            &&& tool is RotateCollar && holes.contains(hole) ==> editor.spec_rotate_tool_has_targets()
            &&& !(tool is RotateCollar) || holes == Set::<DrillHoleRef>::empty() ==> !editor.spec_rotate_tool_has_targets()
        }),
{
}

/// The style key is made of everything that the static geometry shows, each in a place of its
/// own: the three selections, what is hidden, frozen and dimmed, what a pick hovers, and the
/// two highlights.
pub proof fn style_key_holds_what_shows(editor: EditorState)
    ensures
        editor.style_words().len() == 11,
        editor.style_words()[0] == set_key(editor.selection.selected_handles@),
        editor.style_words()[1] == set_key(editor.selection.selected_drill_holes@),
        editor.style_words()[2] == set_key(editor.selection.selected_tie_ins@),
        editor.style_words()[3] == set_key(editor.selection.hidden_handles@),
        editor.style_words()[4] == set_key(editor.selection.frozen_handles@),
        editor.style_words()[5] == set_key(editor.selection.translucent_handles@),
        editor.style_words()[6] == set_key(editor.triangulation.create.hover_handles@),
        editor.style_words().subrange(7, 9) == optional_words(editor.drawing.tools.highlight_id),
        editor.style_words().subrange(9, 11) == optional_words(editor.drawing.text.editing_id),
{
    assert(editor.style_words().subrange(7, 9) =~= optional_words(editor.drawing.tools.highlight_id));
    assert(editor.style_words().subrange(9, 11) =~= optional_words(editor.drawing.text.editing_id));
}

/// A picked point is reported in plan and not in the slice view, whatever was picked.
pub proof fn points_are_reported_in_plan(before: EditorState, after: EditorState, world: Vec3)
    requires
        after.point_reported(before, world),
    ensures
        !before.view.slice.mode_enabled ==> after.drawing.cursor.world == Some(world),
        before.view.slice.mode_enabled ==> after.drawing.cursor.world == before.drawing.cursor.world,
        after.drawing.tools == before.drawing.tools && after.view == before.view && after.geometry == before.geometry,
{
}

/// Dropping the selection leaves nothing selected of any kind, and what is hidden, frozen,
/// locked or translucent as it was.
pub proof fn dropped_selections_hold_nothing(
    before: SelectionState,
    after: SelectionState,
    handle: SceneEntityId,
    hole: DrillHoleRef,
    tie: crate::ids::TieInRef,
)
    requires
        after.nothing_selected(),
        after.same_beyond_selection(before),
    ensures
        !after.selected_handles@.contains(handle),
        !after.selected_drill_holes@.contains(hole),
        !after.selected_tie_ins@.contains(tie),
        after.hidden_handles@.contains(handle) == before.hidden_handles@.contains(handle),
        after.frozen_handles@.contains(handle) == before.frozen_handles@.contains(handle),
        after.explicitly_frozen@.contains(handle) == before.explicitly_frozen@.contains(handle),
        after.translucent_handles@.contains(handle) == before.translucent_handles@.contains(handle),
        after.locked_layers == before.locked_layers && after.locked_rasters == before.locked_rasters,
{
}

} // verus!
