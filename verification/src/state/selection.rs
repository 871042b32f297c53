//! Selection and visibility.
use crate::handle_set::HandleSet;
use crate::ids::{DrillHoleRef, LayerId, RasterTextureId, SceneEntityId, TieInRef};
use vstd::prelude::*;

verus! {

/// What is selected, hidden, locked and dimmed.
#[derive(Debug)]
pub struct SelectionState {
    pub selected_handles: HandleSet<SceneEntityId>,
    /// Individually selected drill holes, which the Drill & Blast workspace works in
    /// place of whole datasets.
    pub selected_drill_holes: HandleSet<DrillHoleRef>,
    /// Surface connectors selected directly in Drill & Blast.
    pub selected_tie_ins: HandleSet<TieInRef>,
    /// Entities removed from view.
    pub hidden_handles: HandleSet<SceneEntityId>,
    /// Entities still visible but excluded from editing and snapping: those frozen by
    /// name and every object on a locked layer.
    pub frozen_handles: HandleSet<SceneEntityId>,
    /// Entities the user froze by name.
    pub explicitly_frozen: HandleSet<SceneEntityId>,
    pub locked_layers: HandleSet<LayerId>,
    /// Rasters locked against draping and deletion.
    pub locked_rasters: HandleSet<RasterTextureId>,
    /// Entities dimmed toward the background colour.
    pub translucent_handles: HandleSet<SceneEntityId>,
}

impl SelectionState {
    /// As a fresh editor starts.
    pub open spec fn is_initial(self) -> bool {
        &&& self.selected_handles@ == Set::<SceneEntityId>::empty()
        &&& self.selected_drill_holes@ == Set::<DrillHoleRef>::empty()
        &&& self.selected_tie_ins@ == Set::<TieInRef>::empty()
        &&& self.hidden_handles@ == Set::<SceneEntityId>::empty()
        &&& self.frozen_handles@ == Set::<SceneEntityId>::empty()
        &&& self.explicitly_frozen@ == Set::<SceneEntityId>::empty()
        &&& self.locked_layers@ == Set::<LayerId>::empty()
        &&& self.locked_rasters@ == Set::<RasterTextureId>::empty()
        &&& self.translucent_handles@ == Set::<SceneEntityId>::empty()
    }

    pub fn new() -> (r: SelectionState)
        ensures
            r.is_initial(),
    {
        SelectionState {
            selected_handles: HandleSet::new(),
            selected_drill_holes: HandleSet::new(),
            selected_tie_ins: HandleSet::new(),
            hidden_handles: HandleSet::new(),
            frozen_handles: HandleSet::new(),
            explicitly_frozen: HandleSet::new(),
            locked_layers: HandleSet::new(),
            locked_rasters: HandleSet::new(),
            translucent_handles: HandleSet::new(),
        }
    }

    /// As leaving a project turns it.
    pub open spec fn cleared_from(self, before: SelectionState) -> bool {
        &&& self.selected_handles@ == Set::<SceneEntityId>::empty()
        &&& self.selected_drill_holes@ == Set::<DrillHoleRef>::empty()
        &&& self.selected_tie_ins@ == Set::<TieInRef>::empty()
        &&& self.hidden_handles@ == Set::<SceneEntityId>::empty()
        &&& self.frozen_handles@ == Set::<SceneEntityId>::empty()
        &&& self.explicitly_frozen@ == Set::<SceneEntityId>::empty()
        &&& self.locked_layers@ == Set::<LayerId>::empty()
        &&& self.locked_rasters@ == Set::<RasterTextureId>::empty()
        &&& self.translucent_handles@ == Set::<SceneEntityId>::empty()
    }

    pub fn clear(&mut self)
        ensures
            final(self).cleared_from(*old(self)),
    {
        self.selected_handles.clear();
        self.selected_drill_holes.clear();
        self.selected_tie_ins.clear();
        self.hidden_handles.clear();
        self.frozen_handles.clear();
        self.explicitly_frozen.clear();
        self.locked_layers.clear();
        self.locked_rasters.clear();
        self.translucent_handles.clear();
    }
}

} // verus!
