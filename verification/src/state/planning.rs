//! Planning: pages, stages, drafts and the solid preview.
use crate::ids::{BlockModelId, Carried, ReserveFieldId, SolidId, TriangulationId};
use crate::model::SolidKind;
use crate::number::{Pair64, Pixel, Real64};
use crate::tools::ReserveFieldKind;
use crate::views::{SizePx, SolidPreviewView, TextureId};
use crate::workspace::{PlanningPage, PlanningSubpage, SolidsStep};
use vstd::prelude::*;

verus! {

/// A slice of a solid: one bench, or one flitch inside it.
#[derive(Clone, Copy, Debug, PartialEq, Eq, Structural)]
pub struct BenchSelection {
    pub base: Real64,
    pub top: Real64,
    pub is_flitch: bool,
}

/// A row of the Solids View tree: a solid, or one slice of it.
#[derive(Clone, Copy, Debug, PartialEq, Eq)]
pub struct SolidsViewRow {
    pub solid: SolidId,
    pub band: Option<BenchSelection>,
}

/// How far a stage has come.
#[derive(Clone, Copy, Debug, PartialEq, Eq, Structural)]
pub enum StageState {
    Pending,
    Running,
    Complete,
    Failed,
    Blocked,
}

/// One finding of a stage.
#[derive(Clone, Debug, PartialEq)]
pub struct StageDiagnostic {
    pub entity: Option<String>,
    pub message: String,
    pub blocking: bool,
}

/// What the last successful run of a stage produced.
#[derive(Clone, Copy, Debug, PartialEq, Eq, Structural)]
pub struct StageSummary {
    pub generation: u64,
    pub entities: usize,
}

/// The outcome of one resolved click on a preview. A miss is an outcome.
#[derive(Clone, Copy, Debug, PartialEq, Eq, Structural)]
pub enum SolidPick {
    Hit(TriangulationId),
    Miss,
}

/// What the Solids page has to say about its preview.
#[derive(Clone, Debug, PartialEq)]
pub enum SolidPreviewSummary {
    /// No run has produced geometry yet.
    NotRun,
    Empty,
    /// None of the surfaces that the solid names is loaded.
    Unloaded,
    /// `showing_previous`: the solid being replaced is still on screen.
    Building { showing_previous: bool },
    LoadingInputs { showing_previous: bool },
    /// `waiting_on_unloaded`: one of the two surfaces is not loaded.
    Ready { volume: Option<Real64>, faces: usize, waiting_on_unloaded: bool },
    Failed(String),
}

/// The Planning workspace: pages, steps and drafts.
#[derive(Debug)]
pub struct PlanningState {
    pub run_active: bool,
    /// What a scheduler asking for a snapshot would be told.
    pub snapshot_status: String,
    pub page: PlanningPage,
    pub schedule_subpage: PlanningSubpage,
    pub solids_subpage: PlanningSubpage,
    /// Rows picked out in the Solids View tree.
    pub view_selection: Vec<SolidsViewRow>,
    pub selected_block_model: Option<BlockModelId>,
    pub solids_step: SolidsStep,
    pub selected_solid: Option<SolidId>,
    /// The bench or flitch picked out in the Benching step's results.
    pub selected_bench: Option<BenchSelection>,
}

impl PlanningState {
    /// As a fresh editor starts.
    pub open spec fn is_initial(self) -> bool {
        &&& !self.run_active
        &&& self.snapshot_status@.len() == 0
        &&& self.page == PlanningPage::Solids
        &&& self.schedule_subpage == PlanningSubpage::Setup
        &&& self.solids_subpage == PlanningSubpage::Setup
        &&& self.view_selection@.len() == 0
        &&& self.selected_block_model is None
        &&& self.solids_step == SolidsStep::FieldList
        &&& self.selected_solid is None
        &&& self.selected_bench is None
    }

    pub fn new() -> (r: PlanningState)
        ensures
            r.is_initial(),
    {
        PlanningState {
            run_active: false,
            snapshot_status: String::new(),
            page: PlanningPage::Solids,
            schedule_subpage: PlanningSubpage::Setup,
            solids_subpage: PlanningSubpage::Setup,
            view_selection: Vec::new(),
            selected_block_model: None,
            solids_step: SolidsStep::FieldList,
            selected_solid: None,
            selected_bench: None,
        }
    }

    /// As leaving a project turns it.
    pub open spec fn cleared_from(self, before: PlanningState) -> bool {
        &&& self.run_active == before.run_active
        &&& self.snapshot_status == before.snapshot_status
        &&& self.page == before.page
        &&& self.schedule_subpage == before.schedule_subpage
        &&& self.solids_subpage == before.solids_subpage
        &&& self.view_selection@.len() == 0
        &&& self.selected_block_model is None
        &&& self.solids_step == before.solids_step
        &&& self.selected_solid is None
        &&& self.selected_bench is None
    }

    pub fn clear(&mut self)
        ensures
            final(self).cleared_from(*old(self)),
    {
        self.view_selection.clear();
        self.selected_block_model = None;
        self.selected_solid = None;
        self.selected_bench = None;
    }
}

/// The New Field and New Solid dialogs.
#[derive(Debug)]
pub struct PlanningDrafts {
    pub field_open: bool,
    pub field_name: String,
    pub field_kind: ReserveFieldKind,
    pub field_weight: Option<ReserveFieldId>,
    pub solid_open: bool,
    pub solid_name: String,
    pub solid_kind: SolidKind,
    pub solid_surface: Option<TriangulationId>,
    pub solid_topography: Option<TriangulationId>,
    pub solid_block_model: Option<BlockModelId>,
}

impl PlanningDrafts {
    /// As a fresh editor starts.
    pub open spec fn is_initial(self) -> bool {
        &&& !self.field_open
        &&& self.field_name@.len() == 0
        &&& self.field_kind == ReserveFieldKind::Sum
        &&& self.field_weight is None
        &&& !self.solid_open
        &&& self.solid_name@.len() == 0
        &&& self.solid_kind == SolidKind::Pit
        &&& self.solid_surface is None
        &&& self.solid_topography is None
        &&& self.solid_block_model is None
    }

    pub fn new() -> (r: PlanningDrafts)
        ensures
            r.is_initial(),
    {
        PlanningDrafts {
            field_open: false,
            field_name: String::new(),
            field_kind: ReserveFieldKind::Sum,
            field_weight: None,
            solid_open: false,
            solid_name: String::new(),
            solid_kind: SolidKind::Pit,
            solid_surface: None,
            solid_topography: None,
            solid_block_model: None,
        }
    }
}

/// One stage's status.
#[derive(Debug)]
pub struct PlanningStageView {
    pub state: StageState,
    pub message: Option<String>,
    pub diagnostics: Vec<StageDiagnostic>,
    pub last_success: Option<StageSummary>,
    /// The earlier stage that has to run first.
    pub blocked_by: Option<SolidsStep>,
}

impl PlanningStageView {
    /// As a fresh editor starts.
    pub open spec fn is_initial(self) -> bool {
        &&& self.state == StageState::Pending
        &&& self.message is None
        &&& self.diagnostics@.len() == 0
        &&& self.last_success is None
        &&& self.blocked_by is None
    }

    pub fn new() -> (r: PlanningStageView)
        ensures
            r.is_initial(),
    {
        PlanningStageView {
            state: StageState::Pending,
            message: None,
            diagnostics: Vec::new(),
            last_success: None,
            blocked_by: None,
        }
    }
}

/// The status of each stage of the pipeline, in step order.
#[derive(Debug)]
pub struct StageStates {
    pub field_list: PlanningStageView,
    pub block_models: PlanningStageView,
    pub solids: PlanningStageView,
    pub benching: PlanningStageView,
    pub blasting: PlanningStageView,
    pub dig_strips: PlanningStageView,
}

impl StageStates {
    /// As a fresh editor starts.
    pub open spec fn is_initial(self) -> bool {
        &&& self.field_list.is_initial()
        &&& self.block_models.is_initial()
        &&& self.solids.is_initial()
        &&& self.benching.is_initial()
        &&& self.blasting.is_initial()
        &&& self.dig_strips.is_initial()
    }

    pub fn new() -> (r: StageStates)
        ensures
            r.is_initial(),
    {
        StageStates {
            field_list: PlanningStageView::new(),
            block_models: PlanningStageView::new(),
            solids: PlanningStageView::new(),
            benching: PlanningStageView::new(),
            blasting: PlanningStageView::new(),
            dig_strips: PlanningStageView::new(),
        }
    }
}

/// The solid preview and the figures beside it.
#[derive(Debug)]
pub struct SolidPreviewState {
    pub texture: Option<TextureId>,
    pub size_px: SizePx,
    pub view: SolidPreviewView,
    pub summary: SolidPreviewSummary,
    /// A click waiting for the renderer, as a fraction of the image.
    pub pick_uv: Option<Pixel>,
    /// The completed result of that click.
    pub picked: Option<SolidPick>,
    pub sources: Vec<TriangulationId>,
    pub z_range: Option<Pair64>,
    pub reserves: Option<Carried>,
    pub reserve_status: Option<String>,
    /// Why each absent reserve field is absent.
    pub reserve_issues: Vec<(ReserveFieldId, String)>,
    /// How much of the shown volume the block model covers.
    pub coverage: Option<Real64>,
    pub bands: Vec<(SolidId, Vec<BenchSelection>)>,
}

impl SolidPreviewState {
    /// As a fresh editor starts.
    pub open spec fn is_initial(self) -> bool {
        &&& self.texture is None
        &&& self.size_px == (SizePx { width: 420, height: 420 })
        &&& self.view == SolidPreviewView::opening()
        &&& self.summary == SolidPreviewSummary::Empty
        &&& self.pick_uv is None
        &&& self.picked is None
        &&& self.sources@.len() == 0
        &&& self.z_range is None
        &&& self.reserves is None
        &&& self.reserve_status is None
        &&& self.reserve_issues@.len() == 0
        &&& self.coverage is None
        &&& self.bands@.len() == 0
    }

    pub fn new() -> (r: SolidPreviewState)
        ensures
            r.is_initial(),
    {
        SolidPreviewState {
            texture: None,
            size_px: SizePx { width: 420, height: 420 },
            view: SolidPreviewView::default(),
            summary: SolidPreviewSummary::Empty,
            pick_uv: None,
            picked: None,
            sources: Vec::new(),
            z_range: None,
            reserves: None,
            reserve_status: None,
            reserve_issues: Vec::new(),
            coverage: None,
            bands: Vec::new(),
        }
    }

    /// As leaving a project turns it.
    pub open spec fn cleared_from(self, before: SolidPreviewState) -> bool {
        &&& self.texture is None
        &&& self.size_px == before.size_px
        &&& self.view == before.view
        &&& self.summary == SolidPreviewSummary::Empty
        &&& self.pick_uv is None
        &&& self.picked is None
        &&& self.sources@.len() == 0
        &&& self.z_range is None
        &&& self.reserves is None
        &&& self.reserve_status is None
        &&& self.reserve_issues@.len() == 0
        &&& self.coverage is None
        &&& self.bands@.len() == 0
    }

    pub fn clear(&mut self)
        ensures
            final(self).cleared_from(*old(self)),
    {
        self.texture = None;
        self.summary = SolidPreviewSummary::Empty;
        self.pick_uv = None;
        self.picked = None;
        self.sources.clear();
        self.z_range = None;
        self.reserves = None;
        self.reserve_status = None;
        self.reserve_issues.clear();
        self.coverage = None;
        self.bands.clear();
    }
}

/// The Planning workspace.
#[derive(Debug)]
pub struct PlanningWorkspace {
    pub pages: PlanningState,
    pub drafts: PlanningDrafts,
    pub stages: StageStates,
    pub preview: SolidPreviewState,
}

impl PlanningWorkspace {
    /// As a fresh editor starts.
    pub open spec fn is_initial(self) -> bool {
        &&& self.pages.is_initial()
        &&& self.drafts.is_initial()
        &&& self.stages.is_initial()
        &&& self.preview.is_initial()
    }

    pub fn new() -> (r: PlanningWorkspace)
        ensures
            r.is_initial(),
    {
        PlanningWorkspace {
            pages: PlanningState::new(),
            drafts: PlanningDrafts::new(),
            stages: StageStates::new(),
            preview: SolidPreviewState::new(),
        }
    }

    /// As leaving a project turns it.
    pub open spec fn cleared_from(self, before: PlanningWorkspace) -> bool {
        &&& self.pages.cleared_from(before.pages)
        &&& self.drafts.is_initial()
        &&& self.stages == before.stages
        &&& self.preview.cleared_from(before.preview)
    }

    pub fn clear(&mut self)
        ensures
            final(self).cleared_from(*old(self)),
    {
        self.pages.clear();
        self.drafts = PlanningDrafts::new();
        self.preview.clear();
    }
}

} // verus!
