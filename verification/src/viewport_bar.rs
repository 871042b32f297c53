//! The bar above the viewport.
use crate::command::UiCommand;
use crate::constants::ONE;
use crate::editor::{BlastingState, EditorState};
use crate::ids::{DrillHoleId, LayerId};
use crate::lists::{only_if, push_if};
use crate::number::{Real32, Real64};
use crate::project_view::{Platform, UiDrillHoleEntry, UiLayerEntry, UiProjectView};
use crate::state::blasting::TieState;
use crate::state::drawing::{CursorState, DrawingState, ToolState};
use crate::state::project::{ProjectState, TransferState};
use crate::state::view::{DisplayState, GridState, ViewState};
use crate::text::{literal, named, plain1, plain2, verbatim, Arg, Text};
use crate::tools::ActiveTool;
use crate::views::GridOptionsDialog;
use crate::workspace::{PlanningSubpage, Workspace};
use vstd::prelude::*;
use vstd::string::{StrSliceExecFns, StringExecFns};

verus! {

/// A project action, which every workspace carries.
#[derive(Clone, Copy, Debug, PartialEq, Eq, Structural)]
pub enum ProjectAction {
    Save,
    Import,
    Export,
    Undo,
    Redo,
}

impl ProjectAction {
    /// What the button is called, with its shortcut.
    pub open spec fn spec_label(self, mac: bool) -> Text {
        match self {
            ProjectAction::Save => plain1(
                if mac {
                    "%label% (Cmd+S)"
                } else {
                    "%label% (Ctrl+S)"
                },
                named("label", Arg::Words("Save Project")),
            ),
            ProjectAction::Import => literal("Import..."),
            ProjectAction::Export => literal("Export..."),
            ProjectAction::Undo => plain1(
                if mac {
                    "%label% (Cmd+Z)"
                } else {
                    "%label% (Ctrl+Z)"
                },
                named("label", Arg::Words("Undo")),
            ),
            ProjectAction::Redo => plain1(
                if mac {
                    "%label% (Cmd+Shift+Z)"
                } else {
                    "%label% (Ctrl+Shift+Z)"
                },
                named("label", Arg::Words("Redo")),
            ),
        }
    }

    pub fn label(self, mac: bool) -> (r: Text)
        ensures
            r == self.spec_label(mac),
    {
        match self {
            ProjectAction::Save => plain1(
                if mac {
                    "%label% (Cmd+S)"
                } else {
                    "%label% (Ctrl+S)"
                },
                named("label", Arg::Words("Save Project")),
            ),
            ProjectAction::Import => literal("Import..."),
            ProjectAction::Export => literal("Export..."),
            ProjectAction::Undo => plain1(
                if mac {
                    "%label% (Cmd+Z)"
                } else {
                    "%label% (Ctrl+Z)"
                },
                named("label", Arg::Words("Undo")),
            ),
            ProjectAction::Redo => plain1(
                if mac {
                    "%label% (Cmd+Shift+Z)"
                } else {
                    "%label% (Ctrl+Shift+Z)"
                },
                named("label", Arg::Words("Redo")),
            ),
        }
    }
}

impl EditorState {
    pub open spec fn allows_action(self, action: ProjectAction, project: UiProjectView, platform: Platform) -> bool {
        match action {
            ProjectAction::Save => project.has_unsaved(platform),
            ProjectAction::Import | ProjectAction::Export => project.active() is Some,
            ProjectAction::Undo => self.view.status.can_undo,
            ProjectAction::Redo => self.view.status.can_redo,
        }
    }

    pub fn action_enabled(&self, action: ProjectAction, project: &UiProjectView, platform: Platform) -> (r: bool)
        ensures
            r == self.allows_action(action, *project, platform),
    {
        match action {
            ProjectAction::Save => project.any_unsaved(platform),
            ProjectAction::Import | ProjectAction::Export => project.active_project().is_some(),
            ProjectAction::Undo => self.view.status.can_undo,
            ProjectAction::Redo => self.view.status.can_redo,
        }
    }

    /// Take a click on a project action.
    pub fn click_action(&mut self, action: ProjectAction, project: &UiProjectView, platform: Platform, commands: &mut Vec<UiCommand>)
        ensures
            ({
                let allowed = old(self).allows_action(action, *project, platform);
                &&& final(commands)@ == old(commands)@ + (match action {
                    ProjectAction::Save => only_if(allowed, UiCommand::SaveProject),
                    ProjectAction::Undo => only_if(allowed, UiCommand::Undo),
                    ProjectAction::Redo => only_if(allowed, UiCommand::Redo),
                    _ => Seq::<UiCommand>::empty(),
                })
                &&& final(self).project.transfer == (match action {
                    ProjectAction::Import if allowed => TransferState {
                        show_import: true,
                        show_export: false,
                        ..old(self).project.transfer
                    },
                    ProjectAction::Export if allowed => TransferState {
                        show_import: false,
                        show_export: true,
                        ..old(self).project.transfer
                    },
                    _ => old(self).project.transfer,
                })
                &&& *final(self) == (EditorState {
                    project: ProjectState { transfer: final(self).project.transfer, ..old(self).project },
                    ..*old(self)
                })
            }),
    {
        let allowed = self.action_enabled(action, project, platform);
        match action {
            ProjectAction::Save => push_if(commands, allowed, UiCommand::SaveProject),
            ProjectAction::Import => {
                if allowed {
                    self.project.transfer.open_import();
                }
            },
            ProjectAction::Export => {
                if allowed {
                    self.project.transfer.open_export();
                }
            },
            ProjectAction::Undo => push_if(commands, allowed, UiCommand::Undo),
            ProjectAction::Redo => push_if(commands, allowed, UiCommand::Redo),
        }
        assert(commands@ =~= old(commands)@ + (match action {
            ProjectAction::Save => only_if(allowed, UiCommand::SaveProject),
            ProjectAction::Undo => only_if(allowed, UiCommand::Undo),
            ProjectAction::Redo => only_if(allowed, UiCommand::Redo),
            _ => Seq::<UiCommand>::empty(),
        }));
    }
}

/// What stands in the middle of the bar.
#[derive(Clone, Copy, Debug, PartialEq, Eq, Structural)]
pub enum CentreRun {
    /// Planning owns the window.
    Nothing,
    /// The bench, the elevation and the colour of a planning cut.
    Cut,
    /// The layer, the elevation, the colour and the fill of the drawing tools.
    Drawing,
    /// The dataset and the elevation.
    Blast,
    /// The elevation alone.
    Elevation,
}

impl EditorState {
    pub open spec fn spec_centre_run(self) -> CentreRun {
        if self.owns_window() {
            CentreRun::Nothing
        } else if self.on_cut_step() {
            CentreRun::Cut
        } else {
            match self.workspace.active {
                Workspace::Production => CentreRun::Drawing,
                Workspace::DrillAndBlast => CentreRun::Blast,
                Workspace::Geology | Workspace::Planning => CentreRun::Elevation,
            }
        }
    }

    /// Every workspace gets the working elevation, alongside what its tools act on next.
    pub fn centre_run(&self) -> (r: CentreRun)
        ensures
            r == self.spec_centre_run(),
    {
        if self.is_planning_setup() {
            CentreRun::Nothing
        } else if self.is_planning_cut_step() {
            CentreRun::Cut
        } else {
            match self.workspace.active {
                Workspace::Production => CentreRun::Drawing,
                Workspace::DrillAndBlast => CentreRun::Blast,
                Workspace::Geology | Workspace::Planning => CentreRun::Elevation,
            }
        }
    }

    /// The base of the slice that a cut is drawn on; nothing is named without one.
    pub fn cut_bench_base(&self) -> (r: Option<Real64>)
        ensures
            r == (match self.cut_target() {
                Some(target) => Some(target.1.base),
                None => None,
            }),
    {
        match self.planning_cut_target() {
            Some((_, band)) => Some(band.base),
            None => None,
        }
    }

    /// Whether the view controls are drawn: not while planning owns the window.
    pub fn view_tools_shown(&self) -> (r: bool)
        ensures
            r == !self.owns_window(),
    {
        !self.is_planning_setup()
    }
}

impl CursorState {
    /// Take up an edited elevation, where it is a number.
    pub fn settle_elevation(&mut self)
        ensures
            *final(self) == (CursorState {
                z_level: if old(self).z_input.finite() {
                    old(self).z_input
                } else {
                    old(self).z_level
                },
                ..*old(self)
            }),
    {
        if self.z_input.is_finite() {
            self.z_level = self.z_input;
        }
    }
}

/// How many characters stay within a width, given the width up to and with each of them.
pub open spec fn within(ends: Seq<Real32>, room: Real32, from: int) -> int
    decreases ends.len() - from,
{
    if from < 0 || from >= ends.len() || room.lt_number(ends[from]) {
        from
    } else {
        within(ends, room, from + 1)
    }
}

/// A name as a combo shows it, cut to the room that it has. `ends` is the width of the
/// name up to and with each of its characters, `room` is what is left beside the mark of
/// an omission.
pub fn elide(name: &String, fits: bool, ends: &Vec<Real32>, room: Real32) -> (r: String)
    requires
        ends@.len() == name@.len(),
    ensures
        fits ==> r@ == name@,
        !fits ==> r@ == name@.take(within(ends@, room, 0)) + "…"@,
        !fits ==> 0 <= within(ends@, room, 0) <= name@.len(),
{
    if fits {
        return name.clone();
    }
    let mut kept: usize = 0;
    while kept < ends.len() && !room.less(ends[kept])
        invariant
            kept <= ends@.len(),
            within(ends@, room, 0) == within(ends@, room, kept as int),
        decreases ends@.len() - kept,
    {
        kept = kept + 1;
    }
    let mut shown = name.as_str().substring_char(0, kept).to_owned();
    assert(name@.subrange(0, kept as int) =~= name@.take(kept as int));
    shown.append("…");
    shown
}

/// The first loaded dataset with an identity, from a place on.
pub open spec fn dataset_from(entries: Seq<UiDrillHoleEntry>, id: DrillHoleId, from: int) -> Option<UiDrillHoleEntry>
    decreases entries.len() - from,
{
    if from < 0 || from >= entries.len() {
        None
    } else if entries[from].id == id && entries[from].is_loaded {
        Some(entries[from])
    } else {
        dataset_from(entries, id, from + 1)
    }
}

/// The first loaded layer with an identity, from a place on.
pub open spec fn loaded_layer_from(layers: Seq<UiLayerEntry>, id: LayerId, from: int) -> Option<UiLayerEntry>
    decreases layers.len() - from,
{
    if from < 0 || from >= layers.len() {
        None
    } else if layers[from].id == id && layers[from].is_loaded {
        Some(layers[from])
    } else {
        loaded_layer_from(layers, id, from + 1)
    }
}

impl UiProjectView {
    pub fn loaded_dataset(&self, id: DrillHoleId) -> (r: Option<&UiDrillHoleEntry>)
        ensures
            crate::document::same_entry(r, dataset_from(self.drill_holes@, id, 0)),
    {
        let mut i: usize = 0;
        while i < self.drill_holes.len()
            invariant
                i <= self.drill_holes@.len(),
                dataset_from(self.drill_holes@, id, 0) == dataset_from(self.drill_holes@, id, i as int),
            decreases self.drill_holes@.len() - i,
        {
            if self.drill_holes[i].id == id && self.drill_holes[i].is_loaded {
                return Some(&self.drill_holes[i]);
            }
            i = i + 1;
        }
        None
    }

    pub open spec fn active_layers(self) -> Seq<UiLayerEntry> {
        match self.active() {
            Some(entry) => entry.layers@,
            None => Seq::empty(),
        }
    }

    pub fn loaded_layer(&self, id: LayerId) -> (r: Option<&UiLayerEntry>)
        ensures
            crate::document::same_entry(r, loaded_layer_from(self.active_layers(), id, 0)),
    {
        let entry = match self.active_project() {
            Some(entry) => entry,
            None => {
                return None;
            },
        };
        let mut i: usize = 0;
        while i < entry.layers.len()
            invariant
                i <= entry.layers@.len(),
                self.active_layers() == entry.layers@,
                loaded_layer_from(entry.layers@, id, 0) == loaded_layer_from(entry.layers@, id, i as int),
            decreases entry.layers@.len() - i,
        {
            if entry.layers[i].id == id && entry.layers[i].is_loaded {
                return Some(&entry.layers[i]);
            }
            i = i + 1;
        }
        None
    }
}

/// The loaded datasets, in order.
pub open spec fn loaded_datasets(entries: Seq<UiDrillHoleEntry>) -> Seq<DrillHoleId>
    decreases entries.len(),
{
    if entries.len() == 0 {
        Seq::empty()
    } else if entries.last().is_loaded {
        loaded_datasets(entries.drop_last()).push(entries.last().id)
    } else {
        loaded_datasets(entries.drop_last())
    }
}

/// The loaded layers, in order.
pub open spec fn loaded_layers(layers: Seq<UiLayerEntry>) -> Seq<LayerId>
    decreases layers.len(),
{
    if layers.len() == 0 {
        Seq::empty()
    } else if layers.last().is_loaded {
        loaded_layers(layers.drop_last()).push(layers.last().id)
    } else {
        loaded_layers(layers.drop_last())
    }
}

impl UiProjectView {
    /// The datasets that can be worked on, beside none: a closed one has no holes in the
    /// scene.
    pub fn offered_datasets(&self) -> (r: Vec<DrillHoleId>)
        ensures
            r@ == loaded_datasets(self.drill_holes@),
    {
        let mut r: Vec<DrillHoleId> = Vec::new();
        let mut i: usize = 0;
        assert(self.drill_holes@.take(0) =~= Seq::empty());
        while i < self.drill_holes.len()
            invariant
                i <= self.drill_holes@.len(),
                r@ == loaded_datasets(self.drill_holes@.take(i as int)),
            decreases self.drill_holes@.len() - i,
        {
            assert(self.drill_holes@.take(i + 1).drop_last() =~= self.drill_holes@.take(i as int));
            if self.drill_holes[i].is_loaded {
                r.push(self.drill_holes[i].id);
            }
            i = i + 1;
        }
        assert(self.drill_holes@.take(i as int) =~= self.drill_holes@);
        r
    }

    /// The layers that can be drawn on, beside none.
    pub fn offered_layers(&self) -> (r: Vec<LayerId>)
        ensures
            r@ == loaded_layers(self.active_layers()),
    {
        let mut r: Vec<LayerId> = Vec::new();
        let entry = match self.active_project() {
            Some(entry) => entry,
            None => {
                return r;
            },
        };
        let mut i: usize = 0;
        assert(entry.layers@.take(0) =~= Seq::empty());
        while i < entry.layers.len()
            invariant
                i <= entry.layers@.len(),
                r@ == loaded_layers(entry.layers@.take(i as int)),
            decreases entry.layers@.len() - i,
        {
            assert(entry.layers@.take(i + 1).drop_last() =~= entry.layers@.take(i as int));
            if entry.layers[i].is_loaded {
                r.push(entry.layers[i].id);
            }
            i = i + 1;
        }
        assert(entry.layers@.take(i as int) =~= entry.layers@);
        r
    }
}

/// A combo offers exactly what it can show by name: whatever is offered reads as itself,
/// and whatever is not offered reads as none.
pub proof fn offered_datasets_have_names(entries: Seq<UiDrillHoleEntry>, id: DrillHoleId)
    ensures
        loaded_datasets(entries).contains(id) <==> dataset_from(entries, id, 0) is Some,
{
    lemma_dataset_found(entries, id, 0);
    lemma_dataset_offered(entries, id);
}

proof fn lemma_dataset_found(entries: Seq<UiDrillHoleEntry>, id: DrillHoleId, from: int)
    requires
        0 <= from,
    ensures
        dataset_from(entries, id, from) is Some <==> exists|k: int|
            from <= k < entries.len() && (#[trigger] entries[k]).id == id && entries[k].is_loaded,
    decreases entries.len() - from,
{
    if from < entries.len() {
        lemma_dataset_found(entries, id, from + 1);
    }
}

proof fn lemma_dataset_offered(entries: Seq<UiDrillHoleEntry>, id: DrillHoleId)
    ensures
        loaded_datasets(entries).contains(id) <==> exists|k: int|
            0 <= k < entries.len() && (#[trigger] entries[k]).id == id && entries[k].is_loaded,
    decreases entries.len(),
{
    if entries.len() > 0 {
        let rest = entries.drop_last();
        let listed = loaded_datasets(rest);
        lemma_dataset_offered(rest, id);
        if entries.last().is_loaded {
            let all = listed.push(entries.last().id);
            assert(all[listed.len() as int] == entries.last().id);
            if listed.contains(id) {
                let i = choose|i: int| 0 <= i < listed.len() && listed[i] == id;
                assert(all[i] == id);
            }
            if all.contains(id) && entries.last().id != id {
                let i = choose|i: int| 0 <= i < all.len() && all[i] == id;
                assert(listed[i] == id);
            }
        }
        if exists|k: int| 0 <= k < entries.len() && (#[trigger] entries[k]).id == id && entries[k].is_loaded {
            let k = choose|k: int| 0 <= k < entries.len() && (#[trigger] entries[k]).id == id && entries[k].is_loaded;
            if k < rest.len() {
                assert(rest[k].id == id && rest[k].is_loaded);
            }
        }
        if exists|k: int| 0 <= k < rest.len() && (#[trigger] rest[k]).id == id && rest[k].is_loaded {
            let k = choose|k: int| 0 <= k < rest.len() && (#[trigger] rest[k]).id == id && rest[k].is_loaded;
            assert(entries[k].id == id && entries[k].is_loaded);
        }
    }
}

/// A review of the fired pattern, which Drill & Blast adds to the view controls.
#[derive(Clone, Copy, Debug, PartialEq, Eq, Structural)]
pub enum BlastReview {
    BurdenRelief,
    EqualTime,
    Timeline,
}

impl BlastReview {
    pub fn label(self) -> (r: Text)
        ensures
            r == (match self {
                BlastReview::BurdenRelief => literal("Burden Relief Heatmap [PLACEHOLDER]"),
                BlastReview::EqualTime => literal("Contours of Equal Time [PLACEHOLDER]"),
                BlastReview::Timeline => literal("Blast Timeline [PLACEHOLDER]"),
            }),
    {
        match self {
            BlastReview::BurdenRelief => literal("Burden Relief Heatmap [PLACEHOLDER]"),
            BlastReview::EqualTime => literal("Contours of Equal Time [PLACEHOLDER]"),
            BlastReview::Timeline => literal("Blast Timeline [PLACEHOLDER]"),
        }
    }
}

impl EditorState {
    /// Whether the reviews are drawn beside the view controls.
    pub fn reviews_shown(&self) -> (r: bool)
        ensures
            r == (!self.owns_window() && self.workspace.active is DrillAndBlast),
    {
        !self.is_planning_setup() && self.workspace.active == Workspace::DrillAndBlast
    }
}

impl ToolState {
    /// The dataset that is worked on reads as none once it is not loaded.
    pub open spec fn spec_dataset_label(self, project: UiProjectView) -> Text {
        match self.active_drill_hole {
            Some(id) => match dataset_from(project.drill_holes@, id, 0) {
                Some(dataset) => verbatim(dataset.name),
                None => literal("None"),
            },
            None => literal("None"),
        }
    }

    pub fn dataset_label(&self, project: &UiProjectView) -> (r: Text)
        ensures
            r == self.spec_dataset_label(*project),
    {
        if let Some(id) = self.active_drill_hole {
            if let Some(dataset) = project.loaded_dataset(id) {
                return verbatim(dataset.name.clone());
            }
        }
        literal("None")
    }

    /// The layer that is drawn on, in the same way.
    pub fn layer_label(&self, project: &UiProjectView) -> (r: Text)
        ensures
            r == (match self.active_layer {
                Some(id) => match loaded_layer_from(project.active_layers(), id, 0) {
                    Some(layer) => verbatim(layer.name),
                    None => literal("None"),
                },
                None => literal("None"),
            }),
    {
        if let Some(id) = self.active_layer {
            if let Some(layer) = project.loaded_layer(id) {
                return verbatim(layer.name.clone());
            }
        }
        literal("None")
    }

    /// Whether there is a dataset to review: a stale identity is none.
    pub fn has_active_dataset(&self, project: &UiProjectView) -> (r: bool)
        ensures
            r == (self.active_drill_hole matches Some(id) && dataset_from(project.drill_holes@, id, 0) is Some),
    {
        match self.active_drill_hole {
            Some(id) => project.loaded_dataset(id).is_some(),
            None => false,
        }
    }
}

impl EditorState {
    /// Choose the dataset that is worked on. A tie-in runs between holes of one dataset,
    /// so it goes with it.
    pub fn choose_dataset(&mut self, chosen: Option<DrillHoleId>)
        ensures
            final(self).drawing == (DrawingState {
                tools: ToolState { active_drill_hole: chosen, ..old(self).drawing.tools },
                ..old(self).drawing
            }),
            chosen == old(self).drawing.tools.active_drill_hole ==> final(self).blasting == old(self).blasting,
            chosen != old(self).drawing.tools.active_drill_hole ==> {
                &&& final(self).blasting.tie.preview@.len() == 0
                &&& final(self).blasting.tie == (TieState {
                    anchor: None,
                    preview: final(self).blasting.tie.preview,
                    anchor_world: None,
                    path_end_world: None,
                    initiation_dialog: None,
                    ..old(self).blasting.tie
                })
                &&& final(self).blasting == (BlastingState { tie: final(self).blasting.tie, ..old(self).blasting })
            },
            *final(self) == (EditorState {
                drawing: final(self).drawing,
                blasting: final(self).blasting,
                ..*old(self)
            }),
    {
        let same = match (self.drawing.tools.active_drill_hole, chosen) {
            (Some(a), Some(b)) => a == b,
            (None, None) => true,
            _ => false,
        };
        self.drawing.tools.active_drill_hole = chosen;
        if !same {
            let _running = self.end_tie_chain();
            self.blasting.tie.initiation_dialog = None;
        }
    }
}

/// A button of the bar.
#[derive(Clone, Debug, PartialEq)]
pub struct BarButton {
    pub label: Text,
    pub selected: bool,
}

#[verifier::allow_in_spec]
pub fn switch(on: bool, leave: &'static str, enter: &'static str) -> (r: BarButton)
    returns
        (BarButton {
            label: literal(
                if on {
                    leave
                } else {
                    enter
                },
            ),
            selected: on,
        }),
{
    BarButton {
        label: literal(
            if on {
                leave
            } else {
                enter
            },
        ),
        selected: on,
    }
}

/// A view control.
#[derive(Clone, Copy, Debug, PartialEq, Eq, Structural)]
pub enum ViewTool {
    Grid,
    Wireframes,
    Points,
    Fly,
    Slice,
    Xray,
    Exaggeration,
    RotationCentre,
    ZoomToExtents,
    ResetView,
}

impl EditorState {
    /// The grid of the view is shown: the elevation grid in a section, the plan grid
    /// elsewhere.
    pub open spec fn grid_shown(self) -> bool {
        if self.view.slice.mode_enabled {
            self.view.grid.slice_grid_enabled
        } else {
            self.view.display.show_xy_grid
        }
    }

    pub open spec fn spec_button(self, tool: ViewTool) -> BarButton {
        match tool {
            ViewTool::Grid => if self.view.slice.mode_enabled {
                switch(self.view.grid.slice_grid_enabled, "Hide RL Grid", "Show RL Grid")
            } else {
                switch(self.view.display.show_xy_grid, "Hide XY Grid", "Show XY Grid")
            },
            ViewTool::Wireframes => switch(self.view.display.topology_wireframes_enabled, "Hide Wireframes", "Show Wireframes"),
            ViewTool::Points => switch(self.view.display.show_points, "Hide Points", "Show Points"),
            ViewTool::Fly => switch(self.view.display.fly_mode_enabled, "Disable Flying Mode", "Enable Flying Mode"),
            ViewTool::Slice => BarButton {
                label: if self.view.slice.mode_enabled {
                    literal("Exit Slice View")
                } else {
                    literal("Vertical Slice View")
                },
                selected: self.view.slice.mode_enabled || self.drawing.tools.active_tool is VerticalSlice,
            },
            ViewTool::Xray => switch(self.view.display.xray_enabled, "Disable X-Ray Vision", "Enable X-Ray Vision"),
            ViewTool::Exaggeration => BarButton {
                label: plain2(
                    "%label% (%ratio%×)",
                    named("label", Arg::Words("Vertical Exaggeration")),
                    named("ratio", Arg::Fixed { value: self.view.display.vertical_exaggeration, decimals: 2 }),
                ),
                selected: !self.view.display.vertical_exaggeration.eq_number(Real64 { bits: ONE }),
            },
            ViewTool::RotationCentre => BarButton {
                label: if self.view.display.rotation_centre is Some {
                    plain1("%label% (C)", named("label", Arg::Words("Release Centre of Rotation")))
                } else if self.drawing.tools.active_tool is PickRotationCentre {
                    literal("Click a point to fix the centre of rotation")
                } else {
                    plain1("%label% (C)", named("label", Arg::Words("Fix Centre of Rotation")))
                },
                selected: self.drawing.tools.active_tool is PickRotationCentre || self.view.display.rotation_centre is Some,
            },
            ViewTool::ZoomToExtents => BarButton { label: literal("Zoom to Extents"), selected: false },
            ViewTool::ResetView => BarButton { label: literal("Reset View"), selected: false },
        }
    }

    /// A view control as it stands.
    pub fn view_button(&self, tool: ViewTool) -> (r: BarButton)
        ensures
            r == self.spec_button(tool),
    {
        match tool {
            ViewTool::Grid => if self.view.slice.mode_enabled {
                switch(self.view.grid.slice_grid_enabled, "Hide RL Grid", "Show RL Grid")
            } else {
                switch(self.view.display.show_xy_grid, "Hide XY Grid", "Show XY Grid")
            },
            ViewTool::Wireframes => switch(self.view.display.topology_wireframes_enabled, "Hide Wireframes", "Show Wireframes"),
            ViewTool::Points => switch(self.view.display.show_points, "Hide Points", "Show Points"),
            ViewTool::Fly => switch(self.view.display.fly_mode_enabled, "Disable Flying Mode", "Enable Flying Mode"),
            ViewTool::Slice => BarButton {
                label: if self.view.slice.mode_enabled {
                    literal("Exit Slice View")
                } else {
                    literal("Vertical Slice View")
                },
                selected: self.view.slice.mode_enabled || self.drawing.tools.active_tool == ActiveTool::VerticalSlice,
            },
            ViewTool::Xray => switch(self.view.display.xray_enabled, "Disable X-Ray Vision", "Enable X-Ray Vision"),
            ViewTool::Exaggeration => BarButton {
                label: plain2(
                    "%label% (%ratio%×)",
                    named("label", Arg::Words("Vertical Exaggeration")),
                    named("ratio", Arg::Fixed { value: self.view.display.vertical_exaggeration, decimals: 2 }),
                ),
                selected: !self.view.display.vertical_exaggeration.equals(Real64 { bits: ONE }),
            },
            ViewTool::RotationCentre => BarButton {
                label: if self.view.display.rotation_centre.is_some() {
                    plain1("%label% (C)", named("label", Arg::Words("Release Centre of Rotation")))
                } else if self.drawing.tools.active_tool == ActiveTool::PickRotationCentre {
                    literal("Click a point to fix the centre of rotation")
                } else {
                    plain1("%label% (C)", named("label", Arg::Words("Fix Centre of Rotation")))
                },
                selected: self.drawing.tools.active_tool == ActiveTool::PickRotationCentre || self.view.display.rotation_centre.is_some(),
            },
            ViewTool::ZoomToExtents => BarButton { label: literal("Zoom to Extents"), selected: false },
            ViewTool::ResetView => BarButton { label: literal("Reset View"), selected: false },
        }
    }

    /// What a click on a view control asks for.
    pub open spec fn view_asks(self, tool: ViewTool) -> Seq<UiCommand> {
        match tool {
            ViewTool::Grid => seq![UiCommand::SetGridShown(!self.grid_shown())],
            ViewTool::Wireframes => seq![UiCommand::SetTopologyWireframes(!self.view.display.topology_wireframes_enabled)],
            ViewTool::Points => seq![UiCommand::SetShowPoints(!self.view.display.show_points)],
            ViewTool::Fly => seq![UiCommand::SetFlyModeEnabled(!self.view.display.fly_mode_enabled)],
            ViewTool::Slice => if self.view.slice.mode_enabled {
                seq![UiCommand::SetSliceModeEnabled(false)]
            } else {
                seq![UiCommand::SetActiveTool(ActiveTool::VerticalSlice)]
            },
            ViewTool::Xray | ViewTool::Exaggeration => Seq::empty(),
            ViewTool::RotationCentre => seq![UiCommand::ToggleRotationCentre],
            ViewTool::ZoomToExtents => seq![UiCommand::ZoomToExtents],
            ViewTool::ResetView => seq![UiCommand::ResetView],
        }
    }

    /// Take a click on a view control. The slice view arms its line first, and is left
    /// once it is on; x-ray is a plain switch; the exaggeration opens its dialog on the
    /// ratio in force.
    pub fn click_view_tool(&mut self, tool: ViewTool, commands: &mut Vec<UiCommand>)
        ensures
            final(commands)@ == old(commands)@ + old(self).view_asks(tool),
            *final(self) == (EditorState {
                view: ViewState {
                    display: match tool {
                        ViewTool::Xray => DisplayState {
                            xray_enabled: !old(self).view.display.xray_enabled,
                            ..old(self).view.display
                        },
                        ViewTool::Exaggeration => DisplayState {
                            vertical_exaggeration_input: old(self).view.display.vertical_exaggeration,
                            vertical_exaggeration_dialog_open: true,
                            ..old(self).view.display
                        },
                        _ => old(self).view.display,
                    },
                    ..old(self).view
                },
                ..*old(self)
            }),
    {
        match tool {
            ViewTool::Grid => {
                let shown = if self.view.slice.mode_enabled {
                    self.view.grid.slice_grid_enabled
                } else {
                    self.view.display.show_xy_grid
                };
                commands.push(UiCommand::SetGridShown(!shown));
            },
            ViewTool::Wireframes => commands.push(UiCommand::SetTopologyWireframes(!self.view.display.topology_wireframes_enabled)),
            ViewTool::Points => commands.push(UiCommand::SetShowPoints(!self.view.display.show_points)),
            ViewTool::Fly => commands.push(UiCommand::SetFlyModeEnabled(!self.view.display.fly_mode_enabled)),
            ViewTool::Slice => {
                if self.view.slice.mode_enabled {
                    commands.push(UiCommand::SetSliceModeEnabled(false));
                } else {
                    commands.push(UiCommand::SetActiveTool(ActiveTool::VerticalSlice));
                }
            },
            ViewTool::Xray => {
                self.view.display.xray_enabled = !self.view.display.xray_enabled;
            },
            ViewTool::Exaggeration => {
                self.view.display.vertical_exaggeration_input = self.view.display.vertical_exaggeration;
                self.view.display.vertical_exaggeration_dialog_open = true;
            },
            ViewTool::RotationCentre => commands.push(UiCommand::ToggleRotationCentre),
            ViewTool::ZoomToExtents => commands.push(UiCommand::ZoomToExtents),
            ViewTool::ResetView => commands.push(UiCommand::ResetView),
        }
        assert(commands@ =~= old(commands)@ + old(self).view_asks(tool));
    }
}

impl ViewState {
    /// Open the options of the grid in force, unless they are open: the section's on the
    /// spacing that the zoom chose, the plan's on its style.
    pub fn open_grid_options(&mut self)
        ensures
            *final(self) == (ViewState {
                grid: GridState {
                    dialog: match old(self).grid.dialog {
                        Some(dialog) => Some(dialog),
                        None => Some(
                            if old(self).slice.mode_enabled {
                                GridOptionsDialog::opened_on_section(old(self).grid.section_grid_style, old(self).grid.level_spacing)
                            } else {
                                GridOptionsDialog::opened_on_plan(old(self).grid.xy_grid_style)
                            },
                        ),
                    },
                    ..old(self).grid
                },
                ..*old(self)
            }),
    {
        if self.grid.dialog.is_none() {
            self.grid.dialog = Some(
                if self.slice.mode_enabled {
                    GridOptionsDialog::open_section(self.grid.section_grid_style, self.grid.level_spacing)
                } else {
                    GridOptionsDialog::open_plan(self.grid.xy_grid_style)
                },
            );
        }
    }
}

/// The options open on the grid that is in force.
pub proof fn opened_grid_options_belong_to_the_view(before: ViewState)
    requires
        before.grid.dialog is None,
    ensures
        before.slice.mode_enabled ==> !GridOptionsDialog::opened_on_section(
            before.grid.section_grid_style,
            before.grid.level_spacing,
        ).plan,
        !before.slice.mode_enabled ==> GridOptionsDialog::opened_on_plan(before.grid.xy_grid_style).plan,
{
}

/// Go to a step of a planning page.
pub fn click_subpage(subpage: PlanningSubpage, commands: &mut Vec<UiCommand>)
    ensures
        final(commands)@ == old(commands)@.push(UiCommand::SetPlanningSubpage(subpage)),
{
    commands.push(UiCommand::SetPlanningSubpage(subpage));
}

/// Whether the left of the bar carries the steps of planning rather than menus.
pub fn shows_planning_steps(editor: &EditorState) -> (r: bool)
    ensures
        r == (editor.workspace.active is Planning),
{
    editor.workspace.active == Workspace::Planning
}

/// An action can be taken exactly where there is something to take it on: unsaved work, an
/// open project, or an edit to go back or forward to.
pub proof fn actions_need_what_they_work_on(editor: EditorState, action: ProjectAction, project: UiProjectView, platform: Platform)
    ensures
        action is Save ==> (editor.allows_action(action, project, platform) <==> project.has_unsaved(platform)),
        action is Import || action is Export ==> (editor.allows_action(action, project, platform) <==> project.active() is Some),
        action is Undo ==> (editor.allows_action(action, project, platform) <==> editor.view.status.can_undo),
        action is Redo ==> (editor.allows_action(action, project, platform) <==> editor.view.status.can_redo),
{
}

/// The shortcuts follow the platform's own key and are otherwise the same.
pub proof fn shortcuts_follow_the_platform(action: ProjectAction)
    ensures
        action is Save ==> action.spec_label(true) == plain1("%label% (Cmd+S)", named("label", Arg::Words("Save Project")))
            && action.spec_label(false) == plain1("%label% (Ctrl+S)", named("label", Arg::Words("Save Project"))),
        action is Undo ==> action.spec_label(true) == plain1("%label% (Cmd+Z)", named("label", Arg::Words("Undo"))) && action.spec_label(
            false,
        ) == plain1("%label% (Ctrl+Z)", named("label", Arg::Words("Undo"))),
        action is Redo ==> action.spec_label(true) == plain1("%label% (Cmd+Shift+Z)", named("label", Arg::Words("Redo")))
            && action.spec_label(false) == plain1("%label% (Ctrl+Shift+Z)", named("label", Arg::Words("Redo"))),
        action is Import || action is Export ==> action.spec_label(true) == action.spec_label(false),
{
}

/// What stands in the middle of the bar: nothing where planning owns the window, what a cut is
/// drawn with on a cut step, and otherwise what the tools of the workspace act on.
pub proof fn bar_shows_what_tools_act_on(editor: EditorState)
    ensures
        editor.spec_centre_run() is Nothing <==> editor.owns_window(),
        editor.spec_centre_run() is Cut <==> editor.on_cut_step() && !editor.owns_window(),
        editor.workspace.active is Production ==> editor.spec_centre_run() is Drawing,
        editor.workspace.active is DrillAndBlast ==> editor.spec_centre_run() is Blast,
        editor.workspace.active is Geology ==> editor.spec_centre_run() is Elevation,
        editor.workspace.active is Planning && !editor.owns_window() && !editor.on_cut_step() ==> editor.spec_centre_run() is Elevation,
{
}

/// A name is cut where it would leave its room: every character that is kept ends within it,
/// and the first one that is dropped does not.
pub proof fn names_are_cut_where_they_leave_their_room(ends: Seq<Real32>, room: Real32, place: int)
    requires
        0 <= place < ends.len(),
    ensures
        0 <= within(ends, room, 0) <= ends.len(),
        place < within(ends, room, 0) ==> !room.lt_number(ends[place]),
        place == within(ends, room, 0) ==> room.lt_number(ends[place]),
{
    lemma_within(ends, room, 0, place);
}

proof fn lemma_within(ends: Seq<Real32>, room: Real32, from: int, place: int)
    requires
        0 <= from <= ends.len(),
        0 <= place < ends.len(),
    ensures
        from <= within(ends, room, from) <= ends.len(),
        from <= place < within(ends, room, from) ==> !room.lt_number(ends[place]),
        place == within(ends, room, from) ==> room.lt_number(ends[place]),
    decreases ends.len() - from,
{
    if from < ends.len() && !room.lt_number(ends[from]) {
        lemma_within(ends, room, from + 1, place);
    }
}

/// A dataset is looked up by its identity among the loaded ones, the first one first.
pub proof fn first_loaded_dataset_is_found(entries: Seq<UiDrillHoleEntry>, id: DrillHoleId, place: int)
    requires
        0 <= place < entries.len(),
        entries[place].id == id && entries[place].is_loaded,
        forall|i: int| 0 <= i < place ==> !((#[trigger] entries[i]).id == id && entries[i].is_loaded),
    ensures
        dataset_from(entries, id, 0) == Some(entries[place]),
{
    lemma_first_dataset(entries, id, 0, place);
}

proof fn lemma_first_dataset(entries: Seq<UiDrillHoleEntry>, id: DrillHoleId, from: int, place: int)
    requires
        0 <= from <= place < entries.len(),
        entries[place].id == id && entries[place].is_loaded,
        forall|i: int| from <= i < place ==> !((#[trigger] entries[i]).id == id && entries[i].is_loaded),
    ensures
        dataset_from(entries, id, from) == Some(entries[place]),
    decreases place - from,
{
    if from < place {
        assert(!(entries[from].id == id && entries[from].is_loaded));
        lemma_first_dataset(entries, id, from + 1, place);
    }
}

/// So is a layer.
pub proof fn first_loaded_layer_is_found(layers: Seq<UiLayerEntry>, id: LayerId, place: int)
    requires
        0 <= place < layers.len(),
        layers[place].id == id && layers[place].is_loaded,
        forall|i: int| 0 <= i < place ==> !((#[trigger] layers[i]).id == id && layers[i].is_loaded),
    ensures
        loaded_layer_from(layers, id, 0) == Some(layers[place]),
{
    lemma_first_loaded_layer(layers, id, 0, place);
}

proof fn lemma_first_loaded_layer(layers: Seq<UiLayerEntry>, id: LayerId, from: int, place: int)
    requires
        0 <= from <= place < layers.len(),
        layers[place].id == id && layers[place].is_loaded,
        forall|i: int| from <= i < place ==> !((#[trigger] layers[i]).id == id && layers[i].is_loaded),
    ensures
        loaded_layer_from(layers, id, from) == Some(layers[place]),
    decreases place - from,
{
    if from < place {
        assert(!(layers[from].id == id && layers[from].is_loaded));
        lemma_first_loaded_layer(layers, id, from + 1, place);
    }
}

/// What is not loaded is not found.
pub proof fn unloaded_items_are_not_found(entries: Seq<UiDrillHoleEntry>, dataset: DrillHoleId, layers: Seq<UiLayerEntry>, layer: LayerId)
    ensures
        dataset_from(entries, dataset, 0) matches Some(entry) ==> entry.id == dataset && entry.is_loaded,
        loaded_layer_from(layers, layer, 0) matches Some(entry) ==> entry.id == layer && entry.is_loaded,
        loaded_layer_from(layers, layer, 0) is Some <==> exists|i: int|
            0 <= i < layers.len() && (#[trigger] layers[i]).id == layer && layers[i].is_loaded,
{
    lemma_found_is_loaded(entries, dataset, 0);
    lemma_found_layer_is_loaded(layers, layer, 0);
}

proof fn lemma_found_is_loaded(entries: Seq<UiDrillHoleEntry>, id: DrillHoleId, from: int)
    requires
        0 <= from,
    ensures
        dataset_from(entries, id, from) matches Some(entry) ==> entry.id == id && entry.is_loaded,
    decreases entries.len() - from,
{
    if from < entries.len() {
        lemma_found_is_loaded(entries, id, from + 1);
    }
}

proof fn lemma_found_layer_is_loaded(layers: Seq<UiLayerEntry>, id: LayerId, from: int)
    requires
        0 <= from,
    ensures
        loaded_layer_from(layers, id, from) matches Some(entry) ==> entry.id == id && entry.is_loaded,
        loaded_layer_from(layers, id, from) is Some <==> exists|i: int|
            from <= i < layers.len() && (#[trigger] layers[i]).id == id && layers[i].is_loaded,
    decreases layers.len() - from,
{
    if from < layers.len() {
        lemma_found_layer_is_loaded(layers, id, from + 1);
    }
}

/// A combo offers every loaded dataset in the order of the project, and so it does the layers.
pub proof fn combos_offer_what_is_loaded_in_order(
    first: Seq<UiDrillHoleEntry>,
    second: Seq<UiDrillHoleEntry>,
    entry: UiDrillHoleEntry,
    upper: Seq<UiLayerEntry>,
    lower: Seq<UiLayerEntry>,
    layer: UiLayerEntry,
)
    ensures
        loaded_datasets(first + second) == loaded_datasets(first) + loaded_datasets(second),
        loaded_datasets(seq![entry]) == (if entry.is_loaded {
            seq![entry.id]
        } else {
            Seq::empty()
        }),
        loaded_layers(upper + lower) == loaded_layers(upper) + loaded_layers(lower),
        loaded_layers(seq![layer]) == (if layer.is_loaded {
            seq![layer.id]
        } else {
            Seq::empty()
        }),
    decreases second.len() + lower.len(),
{
    let one = seq![entry];
    assert(one.drop_last() =~= Seq::<UiDrillHoleEntry>::empty());
    assert(loaded_datasets(one.drop_last()) =~= Seq::<DrillHoleId>::empty());
    assert(loaded_datasets(one) =~= (if entry.is_loaded {
        seq![entry.id]
    } else {
        Seq::empty()
    }));
    let single = seq![layer];
    assert(single.drop_last() =~= Seq::<UiLayerEntry>::empty());
    assert(loaded_layers(single.drop_last()) =~= Seq::<LayerId>::empty());
    assert(loaded_layers(single) =~= (if layer.is_loaded {
        seq![layer.id]
    } else {
        Seq::empty()
    }));
    if second.len() == 0 {
        assert(first + second =~= first);
        assert(loaded_datasets(first) + loaded_datasets(second) =~= loaded_datasets(first));
    } else {
        combos_offer_what_is_loaded_in_order(first, second.drop_last(), entry, upper, lower, layer);
        assert((first + second).drop_last() =~= first + second.drop_last());
        assert(loaded_datasets(first + second) =~= loaded_datasets(first) + loaded_datasets(second));
    }
    if lower.len() == 0 {
        assert(upper + lower =~= upper);
        assert(loaded_layers(upper) + loaded_layers(lower) =~= loaded_layers(upper));
    } else {
        combos_offer_what_is_loaded_in_order(first, second, entry, upper, lower.drop_last(), layer);
        assert((upper + lower).drop_last() =~= upper + lower.drop_last());
        assert(loaded_layers(upper + lower) =~= loaded_layers(upper) + loaded_layers(lower));
    }
}

/// The layers that can be drawn on are those of the active project.
pub proof fn layers_are_those_of_the_active_project(project: UiProjectView)
    ensures
        project.active() matches Some(entry) ==> project.active_layers() == entry.layers@,
        project.active() is None ==> project.active_layers().len() == 0,
{
}

/// The dataset in hand is shown by its name while it is loaded, and as none otherwise.
pub proof fn datasets_are_shown_while_loaded(tools: ToolState, project: UiProjectView)
    ensures
        tools.active_drill_hole is None ==> tools.spec_dataset_label(project) == literal("None"),
        tools.active_drill_hole matches Some(id) ==> {
            &&& dataset_from(project.drill_holes@, id, 0) matches Some(entry) ==> tools.spec_dataset_label(project) == verbatim(entry.name)
            &&& dataset_from(project.drill_holes@, id, 0) is None ==> tools.spec_dataset_label(project) == literal("None")
        },
{
}

/// A switch of the view is lit while it is on, and a click asks for the opposite of what it
/// is: what is shown is hidden, what is off is turned on.
pub proof fn view_switches_ask_for_the_opposite(editor: EditorState)
    ensures
        editor.spec_button(ViewTool::Grid).selected == editor.grid_shown(),
        editor.view_asks(ViewTool::Grid) == seq![UiCommand::SetGridShown(!editor.spec_button(ViewTool::Grid).selected)],
        editor.spec_button(ViewTool::Wireframes).selected == editor.view.display.topology_wireframes_enabled,
        editor.view_asks(ViewTool::Wireframes) == seq![
            UiCommand::SetTopologyWireframes(!editor.spec_button(ViewTool::Wireframes).selected),
        ],
        editor.spec_button(ViewTool::Points).selected == editor.view.display.show_points,
        editor.view_asks(ViewTool::Points) == seq![UiCommand::SetShowPoints(!editor.spec_button(ViewTool::Points).selected)],
        editor.spec_button(ViewTool::Fly).selected == editor.view.display.fly_mode_enabled,
        editor.view_asks(ViewTool::Fly) == seq![UiCommand::SetFlyModeEnabled(!editor.spec_button(ViewTool::Fly).selected)],
        editor.spec_button(ViewTool::Xray).selected == editor.view.display.xray_enabled,
        editor.view_asks(ViewTool::Xray).len() == 0,
        editor.view.slice.mode_enabled ==> editor.grid_shown() == editor.view.grid.slice_grid_enabled,
        !editor.view.slice.mode_enabled ==> editor.grid_shown() == editor.view.display.show_xy_grid,
{
}

/// The slice view is entered by drawing its line and left at once; the other controls ask for
/// what they are called.
pub proof fn view_controls_do_what_they_are_called(editor: EditorState)
    ensures
        editor.view.slice.mode_enabled ==> editor.view_asks(ViewTool::Slice) == seq![UiCommand::SetSliceModeEnabled(false)],
        !editor.view.slice.mode_enabled ==> editor.view_asks(ViewTool::Slice) == seq![UiCommand::SetActiveTool(ActiveTool::VerticalSlice)],
        editor.spec_button(ViewTool::Slice).selected <==> editor.view.slice.mode_enabled || editor.drawing.tools.active_tool
            is VerticalSlice,
        editor.view_asks(ViewTool::RotationCentre) == seq![UiCommand::ToggleRotationCentre],
        editor.spec_button(ViewTool::RotationCentre).selected <==> editor.view.display.rotation_centre is Some
            || editor.drawing.tools.active_tool is PickRotationCentre,
        editor.view_asks(ViewTool::ZoomToExtents) == seq![UiCommand::ZoomToExtents],
        editor.view_asks(ViewTool::ResetView) == seq![UiCommand::ResetView],
        editor.view_asks(ViewTool::Exaggeration).len() == 0,
        !editor.spec_button(ViewTool::ZoomToExtents).selected && !editor.spec_button(ViewTool::ResetView).selected,
        editor.view.display.vertical_exaggeration == (Real64 { bits: ONE }) ==> !editor.spec_button(ViewTool::Exaggeration).selected,
        editor.view.display.vertical_exaggeration.lt_number(Real64 { bits: ONE }) || (Real64 { bits: ONE }).lt_number(
            editor.view.display.vertical_exaggeration,
        ) ==> editor.spec_button(ViewTool::Exaggeration).selected,
{
}

/// A switch offers to leave what is on and to enter what is off.
pub proof fn switches_offer_the_opposite(editor: EditorState)
    ensures
        editor.spec_button(ViewTool::Wireframes).label == (if editor.view.display.topology_wireframes_enabled {
            literal("Hide Wireframes")
        } else {
            literal("Show Wireframes")
        }),
        editor.spec_button(ViewTool::Points).label == (if editor.view.display.show_points {
            literal("Hide Points")
        } else {
            literal("Show Points")
        }),
        editor.spec_button(ViewTool::Fly).label == (if editor.view.display.fly_mode_enabled {
            literal("Disable Flying Mode")
        } else {
            literal("Enable Flying Mode")
        }),
        editor.spec_button(ViewTool::Xray).label == (if editor.view.display.xray_enabled {
            literal("Disable X-Ray Vision")
        } else {
            literal("Enable X-Ray Vision")
        }),
        editor.spec_button(ViewTool::Slice).label == (if editor.view.slice.mode_enabled {
            literal("Exit Slice View")
        } else {
            literal("Vertical Slice View")
        }),
        editor.view.slice.mode_enabled ==> editor.spec_button(ViewTool::Grid).label == (if editor.view.grid.slice_grid_enabled {
            literal("Hide RL Grid")
        } else {
            literal("Show RL Grid")
        }),
        !editor.view.slice.mode_enabled ==> editor.spec_button(ViewTool::Grid).label == (if editor.view.display.show_xy_grid {
            literal("Hide XY Grid")
        } else {
            literal("Show XY Grid")
        }),
{
}

} // verus!
