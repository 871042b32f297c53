//! Tools that make and edit triangulations.
use crate::constants::{HUNDRED, ONE, SINGLE_FOUR_FIFTHS, SINGLE_HALF, SINGLE_ONE, SINGLE_ZERO, TEN, TWO, ZERO};
use crate::handle_set::HandleSet;
use crate::ids::{LayerId, ObjectId, PointCloudId, SceneEntityId, TriangulationId};
use crate::model::SolidRegion;
use crate::number::{Pixel, Real32, Real64, Rgba, Vec3};
use crate::tools::{TerrainSampler, TriCreatePhase, TriPolylineClipMode, TriSurfaceCutSide, TriSurfaceType, TriangulationPickTarget};
use vstd::prelude::*;

verus! {

/// World-space geometry associated with a failed run.
#[derive(Debug)]
pub struct TriCreateDiagnostic {
    pub markers_world: Vec<Vec3>,
    pub segments_world: Vec<(Vec3, Vec3)>,
}

/// A failed Create Triangulation run, retained for the failure dialog.
#[derive(Debug)]
pub struct TriCreateFailure {
    pub message: String,
    pub name: String,
    pub object_ids: Vec<ObjectId>,
    pub surface_type: TriSurfaceType,
    /// Welding endpoints at the coarse tolerance would change the input.
    pub weld_retry_available: bool,
    /// A retry that keeps the higher of conflicting edges is possible.
    pub upper_surface_retry_available: bool,
    /// The failed attempt already had the coarse weld.
    pub coarse_weld_applied: bool,
    pub diagnostic: TriCreateDiagnostic,
}

/// The Create Triangulation workflow.
#[derive(Debug)]
pub struct TriCreateState {
    pub open: bool,
    pub phase: TriCreatePhase,
    /// A failed run, kept so that a retry can be offered.
    pub failure: Option<TriCreateFailure>,
    pub diagnostic_markers_px: Vec<Pixel>,
    pub diagnostic_segments_px: Vec<(Option<Pixel>, Option<Pixel>)>,
    pub picker_px: Option<Pixel>,
    /// Objects highlighted during selection hover.
    pub hover_handles: HandleSet<SceneEntityId>,
    /// Individually confirmed objects.
    pub selected_object_ids: Vec<ObjectId>,
    /// Confirmed layers, all of whose objects take part.
    pub selected_layer_ids: Vec<LayerId>,
    pub name_input: String,
    pub surface_type: TriSurfaceType,
    /// Active viewport-to-field picker.
    pub pick_target: Option<TriangulationPickTarget>,
}

impl TriCreateState {
    /// As a fresh editor starts.
    pub open spec fn is_initial(self) -> bool {
        &&& !self.open
        &&& self.phase == TriCreatePhase::MainDialog
        &&& self.failure is None
        &&& self.diagnostic_markers_px@.len() == 0
        &&& self.diagnostic_segments_px@.len() == 0
        &&& self.picker_px is None
        &&& self.hover_handles@ == Set::<SceneEntityId>::empty()
        &&& self.selected_object_ids@.len() == 0
        &&& self.selected_layer_ids@.len() == 0
        &&& self.name_input@.len() == 0
        &&& self.surface_type == TriSurfaceType::Surface
        &&& self.pick_target is None
    }

    pub fn new() -> (r: TriCreateState)
        ensures
            r.is_initial(),
    {
        TriCreateState {
            open: false,
            phase: TriCreatePhase::MainDialog,
            failure: None,
            diagnostic_markers_px: Vec::new(),
            diagnostic_segments_px: Vec::new(),
            picker_px: None,
            hover_handles: HandleSet::new(),
            selected_object_ids: Vec::new(),
            selected_layer_ids: Vec::new(),
            name_input: String::new(),
            surface_type: TriSurfaceType::Surface,
            pick_target: None,
        }
    }

    /// As leaving a project turns it.
    pub open spec fn cleared_from(self, before: TriCreateState) -> bool {
        &&& !self.open
        &&& self.phase == TriCreatePhase::MainDialog
        &&& self.failure is None
        &&& self.diagnostic_markers_px@.len() == 0
        &&& self.diagnostic_segments_px@.len() == 0
        &&& self.picker_px is None
        &&& self.hover_handles@ == Set::<SceneEntityId>::empty()
        &&& self.selected_object_ids@.len() == 0
        &&& self.selected_layer_ids@.len() == 0
        &&& self.name_input@.len() == 0
        &&& self.surface_type == before.surface_type
        &&& self.pick_target is None
    }

    pub fn clear(&mut self)
        ensures
            final(self).cleared_from(*old(self)),
    {
        self.open = false;
        self.phase = TriCreatePhase::MainDialog;
        self.failure = None;
        self.diagnostic_markers_px.clear();
        self.diagnostic_segments_px.clear();
        self.picker_px = None;
        self.hover_handles.clear();
        self.selected_object_ids.clear();
        self.selected_layer_ids.clear();
        self.name_input = String::new();
        self.pick_target = None;
    }
}

/// Cut Triangulation by Polyline.
#[derive(Debug)]
pub struct CutPolyState {
    pub open: bool,
    pub awaiting_pick: bool,
    pub tri_id: Option<TriangulationId>,
    pub object_id: Option<ObjectId>,
    pub object_name: String,
    pub mode: TriPolylineClipMode,
    pub name_input: String,
    pub name_auto: bool,
}

impl CutPolyState {
    /// As a fresh editor starts.
    pub open spec fn is_initial(self) -> bool {
        &&& !self.open
        &&& !self.awaiting_pick
        &&& self.tri_id is None
        &&& self.object_id is None
        &&& self.object_name@.len() == 0
        &&& self.mode == TriPolylineClipMode::KeepInside
        &&& self.name_input@.len() == 0
        &&& self.name_auto
    }

    pub fn new() -> (r: CutPolyState)
        ensures
            r.is_initial(),
    {
        CutPolyState {
            open: false,
            awaiting_pick: false,
            tri_id: None,
            object_id: None,
            object_name: String::new(),
            mode: TriPolylineClipMode::KeepInside,
            name_input: String::new(),
            name_auto: true,
        }
    }

    /// As leaving a project turns it.
    pub open spec fn cleared_from(self, before: CutPolyState) -> bool {
        &&& !self.open
        &&& !self.awaiting_pick
        &&& self.tri_id is None
        &&& self.object_id is None
        &&& self.object_name@.len() == 0
        &&& self.mode == before.mode
        &&& self.name_input@.len() == 0
        &&& self.name_auto
    }

    pub fn clear(&mut self)
        ensures
            final(self).cleared_from(*old(self)),
    {
        self.open = false;
        self.awaiting_pick = false;
        self.tri_id = None;
        self.object_id = None;
        self.object_name = String::new();
        self.name_input = String::new();
        self.name_auto = true;
    }
}

/// Cut Triangulation by Z Range.
#[derive(Debug)]
pub struct CutZState {
    pub open: bool,
    pub tri_id: Option<TriangulationId>,
    pub min_input: Real64,
    pub max_input: Real64,
    pub name_input: String,
    pub name_auto: bool,
}

impl CutZState {
    /// As a fresh editor starts.
    pub open spec fn is_initial(self) -> bool {
        &&& !self.open
        &&& self.tri_id is None
        &&& self.min_input == (Real64 { bits: ZERO })
        &&& self.max_input == (Real64 { bits: HUNDRED })
        &&& self.name_input@.len() == 0
        &&& self.name_auto
    }

    pub fn new() -> (r: CutZState)
        ensures
            r.is_initial(),
    {
        CutZState {
            open: false,
            tri_id: None,
            min_input: Real64 { bits: ZERO },
            max_input: Real64 { bits: HUNDRED },
            name_input: String::new(),
            name_auto: true,
        }
    }

    /// As leaving a project turns it.
    pub open spec fn cleared_from(self, before: CutZState) -> bool {
        &&& !self.open
        &&& self.tri_id is None
        &&& self.min_input == before.min_input
        &&& self.max_input == before.max_input
        &&& self.name_input@.len() == 0
        &&& self.name_auto
    }

    pub fn clear(&mut self)
        ensures
            final(self).cleared_from(*old(self)),
    {
        self.open = false;
        self.tri_id = None;
        self.name_input = String::new();
        self.name_auto = true;
    }
}

/// Trim Surface to Topology.
#[derive(Debug)]
pub struct CutSurfaceState {
    pub open: bool,
    pub target_id: Option<TriangulationId>,
    pub reference_id: Option<TriangulationId>,
    pub side: TriSurfaceCutSide,
    pub name_input: String,
    pub name_auto: bool,
}

impl CutSurfaceState {
    /// As a fresh editor starts.
    pub open spec fn is_initial(self) -> bool {
        &&& !self.open
        &&& self.target_id is None
        &&& self.reference_id is None
        &&& self.side == TriSurfaceCutSide::CutTop
        &&& self.name_input@.len() == 0
        &&& self.name_auto
    }

    pub fn new() -> (r: CutSurfaceState)
        ensures
            r.is_initial(),
    {
        CutSurfaceState {
            open: false,
            target_id: None,
            reference_id: None,
            side: TriSurfaceCutSide::CutTop,
            name_input: String::new(),
            name_auto: true,
        }
    }

    /// As leaving a project turns it.
    pub open spec fn cleared_from(self, before: CutSurfaceState) -> bool {
        &&& !self.open
        &&& self.target_id is None
        &&& self.reference_id is None
        &&& self.side == before.side
        &&& self.name_input@.len() == 0
        &&& self.name_auto
    }

    pub fn clear(&mut self)
        ensures
            final(self).cleared_from(*old(self)),
    {
        self.open = false;
        self.target_id = None;
        self.reference_id = None;
        self.name_input = String::new();
        self.name_auto = true;
    }
}

/// Build Solid from Surfaces.
#[derive(Debug)]
pub struct BuildSolidState {
    pub open: bool,
    pub design_id: Option<TriangulationId>,
    pub topography_id: Option<TriangulationId>,
    pub region: SolidRegion,
    pub name_input: String,
    pub name_auto: bool,
}

impl BuildSolidState {
    /// As a fresh editor starts.
    pub open spec fn is_initial(self) -> bool {
        &&& !self.open
        &&& self.design_id is None
        &&& self.topography_id is None
        &&& self.region == SolidRegion::Cut
        &&& self.name_input@.len() == 0
        &&& self.name_auto
    }

    pub fn new() -> (r: BuildSolidState)
        ensures
            r.is_initial(),
    {
        BuildSolidState {
            open: false,
            design_id: None,
            topography_id: None,
            region: SolidRegion::Cut,
            name_input: String::new(),
            name_auto: true,
        }
    }

    /// As leaving a project turns it.
    pub open spec fn cleared_from(self, before: BuildSolidState) -> bool {
        &&& !self.open
        &&& self.design_id is None
        &&& self.topography_id is None
        &&& self.region == before.region
        &&& self.name_input@.len() == 0
        &&& self.name_auto
    }

    pub fn clear(&mut self)
        ensures
            final(self).cleared_from(*old(self)),
    {
        self.open = false;
        self.design_id = None;
        self.topography_id = None;
        self.name_input = String::new();
        self.name_auto = true;
    }
}

/// Cut Topology to Pit Shell.
#[derive(Debug)]
pub struct CutPitshellState {
    pub open: bool,
    pub topology_id: Option<TriangulationId>,
    pub pitshell_id: Option<TriangulationId>,
    pub name_input: String,
    pub name_auto: bool,
}

impl CutPitshellState {
    /// As a fresh editor starts.
    pub open spec fn is_initial(self) -> bool {
        &&& !self.open
        &&& self.topology_id is None
        &&& self.pitshell_id is None
        &&& self.name_input@.len() == 0
        &&& self.name_auto
    }

    pub fn new() -> (r: CutPitshellState)
        ensures
            r.is_initial(),
    {
        CutPitshellState {
            open: false,
            topology_id: None,
            pitshell_id: None,
            name_input: String::new(),
            name_auto: true,
        }
    }

    /// As leaving a project turns it.
    pub open spec fn cleared_from(self, before: CutPitshellState) -> bool {
        &&& !self.open
        &&& self.topology_id is None
        &&& self.pitshell_id is None
        &&& self.name_input@.len() == 0
        &&& self.name_auto
    }

    pub fn clear(&mut self)
        ensures
            final(self).cleared_from(*old(self)),
    {
        self.open = false;
        self.topology_id = None;
        self.pitshell_id = None;
        self.name_input = String::new();
        self.name_auto = true;
    }
}

/// Merge a pit or stockpile solid into a topology.
#[derive(Debug)]
pub struct IncludeSolidState {
    pub open: bool,
    pub topology_id: Option<TriangulationId>,
    pub shape_id: Option<TriangulationId>,
    pub name_input: String,
    pub name_auto: bool,
    pub save_as_two: bool,
    /// Hide and unload the sources once the merge completes.
    pub hide_old: bool,
}

impl IncludeSolidState {
    /// As a fresh editor starts.
    pub open spec fn is_initial(self) -> bool {
        &&& !self.open
        &&& self.topology_id is None
        &&& self.shape_id is None
        &&& self.name_input@.len() == 0
        &&& self.name_auto
        &&& !self.save_as_two
        &&& self.hide_old
    }

    pub fn new() -> (r: IncludeSolidState)
        ensures
            r.is_initial(),
    {
        IncludeSolidState {
            open: false,
            topology_id: None,
            shape_id: None,
            name_input: String::new(),
            name_auto: true,
            save_as_two: false,
            hide_old: true,
        }
    }

    /// As leaving a project turns it.
    pub open spec fn cleared_from(self, before: IncludeSolidState) -> bool {
        &&& !self.open
        &&& self.topology_id is None
        &&& self.shape_id is None
        &&& self.name_input@.len() == 0
        &&& self.name_auto
        &&& self.save_as_two == before.save_as_two
        &&& self.hide_old == before.hide_old
    }

    pub fn clear(&mut self)
        ensures
            final(self).cleared_from(*old(self)),
    {
        self.open = false;
        self.topology_id = None;
        self.shape_id = None;
        self.name_input = String::new();
        self.name_auto = true;
    }
}

/// Contour generation.
#[derive(Debug)]
pub struct ContourState {
    pub open: bool,
    pub tri_id: Option<TriangulationId>,
    pub major_interval_input: Real64,
    pub minor_interval_input: Real64,
    pub major_color: Rgba,
    pub minor_color: Rgba,
    pub use_z_range: bool,
    pub z_min_input: Real64,
    pub z_max_input: Real64,
    /// `None` creates a new layer.
    pub target_layer: Option<LayerId>,
    pub layer_name_input: String,
    pub layer_name_auto: bool,
}

impl ContourState {
    /// As a fresh editor starts.
    pub open spec fn is_initial(self, layer_name_input: String) -> bool {
        &&& !self.open
        &&& self.tri_id is None
        &&& self.major_interval_input == (Real64 { bits: TEN })
        &&& self.minor_interval_input == (Real64 { bits: TWO })
        &&& self.major_color == (Rgba { r: Real32 { bits: SINGLE_ONE }, g: Real32 { bits: SINGLE_HALF }, b: Real32 { bits: SINGLE_ZERO }, a: Real32 { bits: SINGLE_ONE } })
        &&& self.minor_color == (Rgba { r: Real32 { bits: SINGLE_FOUR_FIFTHS }, g: Real32 { bits: SINGLE_FOUR_FIFTHS }, b: Real32 { bits: SINGLE_FOUR_FIFTHS }, a: Real32 { bits: SINGLE_ONE } })
        &&& !self.use_z_range
        &&& self.z_min_input == (Real64 { bits: ZERO })
        &&& self.z_max_input == (Real64 { bits: HUNDRED })
        &&& self.target_layer is None
        &&& self.layer_name_input@ == layer_name_input@
        &&& self.layer_name_auto
    }

    pub fn new(layer_name_input: String) -> (r: ContourState)
        ensures
            r.is_initial(layer_name_input),
    {
        ContourState {
            open: false,
            tri_id: None,
            major_interval_input: Real64 { bits: TEN },
            minor_interval_input: Real64 { bits: TWO },
            major_color: Rgba { r: Real32 { bits: SINGLE_ONE }, g: Real32 { bits: SINGLE_HALF }, b: Real32 { bits: SINGLE_ZERO }, a: Real32 { bits: SINGLE_ONE } },
            minor_color: Rgba { r: Real32 { bits: SINGLE_FOUR_FIFTHS }, g: Real32 { bits: SINGLE_FOUR_FIFTHS }, b: Real32 { bits: SINGLE_FOUR_FIFTHS }, a: Real32 { bits: SINGLE_ONE } },
            use_z_range: false,
            z_min_input: Real64 { bits: ZERO },
            z_max_input: Real64 { bits: HUNDRED },
            target_layer: None,
            layer_name_input,
            layer_name_auto: true,
        }
    }

    /// As leaving a project turns it.
    pub open spec fn cleared_from(self, before: ContourState, layer_name_input: String) -> bool {
        &&& !self.open
        &&& self.tri_id is None
        &&& self.major_interval_input == before.major_interval_input
        &&& self.minor_interval_input == before.minor_interval_input
        &&& self.major_color == before.major_color
        &&& self.minor_color == before.minor_color
        &&& self.use_z_range == before.use_z_range
        &&& self.z_min_input == before.z_min_input
        &&& self.z_max_input == before.z_max_input
        &&& self.target_layer is None
        &&& self.layer_name_input@ == layer_name_input@
        &&& self.layer_name_auto
    }

    pub fn clear(&mut self, layer_name_input: String)
        ensures
            final(self).cleared_from(*old(self), layer_name_input),
    {
        self.open = false;
        self.tri_id = None;
        self.target_layer = None;
        self.layer_name_input = layer_name_input;
        self.layer_name_auto = true;
    }
}

/// Terrain from a point cloud.
#[derive(Debug)]
pub struct TinState {
    pub open: bool,
    pub cloud_id: Option<PointCloudId>,
    pub name_input: String,
    /// Longest edge; zero disables the filter.
    pub max_edge: Real64,
    /// Whether the budget is a share of the cloud.
    pub budget_is_percent: bool,
    pub percent: Real64,
    pub limit: u32,
    pub sampler: TerrainSampler,
    /// Candidate cells per budgeted vertex.
    pub candidate_mult: u32,
    pub hole_fill: Real64,
}

impl TinState {
    /// As a fresh editor starts.
    pub open spec fn is_initial(self, name_input: String) -> bool {
        &&& !self.open
        &&& self.cloud_id is None
        &&& self.name_input@ == name_input@
        &&& self.max_edge == (Real64 { bits: ZERO })
        &&& self.budget_is_percent
        &&& self.percent == (Real64 { bits: ONE })
        &&& self.limit == 1_000_000
        &&& self.sampler == TerrainSampler::Adaptive
        &&& self.candidate_mult == 2
        &&& self.hole_fill == (Real64 { bits: ZERO })
    }

    pub fn new(name_input: String) -> (r: TinState)
        ensures
            r.is_initial(name_input),
    {
        TinState {
            open: false,
            cloud_id: None,
            name_input,
            max_edge: Real64 { bits: ZERO },
            budget_is_percent: true,
            percent: Real64 { bits: ONE },
            limit: 1_000_000,
            sampler: TerrainSampler::Adaptive,
            candidate_mult: 2,
            hole_fill: Real64 { bits: ZERO },
        }
    }

    /// As leaving a project turns it.
    pub open spec fn cleared_from(self, before: TinState, name_input: String) -> bool {
        &&& !self.open
        &&& self.cloud_id is None
        &&& self.name_input@ == name_input@
        &&& self.max_edge == before.max_edge
        &&& self.budget_is_percent == before.budget_is_percent
        &&& self.percent == before.percent
        &&& self.limit == before.limit
        &&& self.sampler == before.sampler
        &&& self.candidate_mult == before.candidate_mult
        &&& self.hole_fill == before.hole_fill
    }

    pub fn clear(&mut self, name_input: String)
        ensures
            final(self).cleared_from(*old(self), name_input),
    {
        self.open = false;
        self.cloud_id = None;
        self.name_input = name_input;
    }
}

/// The tools that make and edit triangulations.
#[derive(Debug)]
pub struct TriangulationState {
    pub create: TriCreateState,
    pub cut_poly: CutPolyState,
    pub cut_z: CutZState,
    pub cut_surface: CutSurfaceState,
    pub build_solid: BuildSolidState,
    pub cut_pitshell: CutPitshellState,
    pub include_solid: IncludeSolidState,
    pub contour: ContourState,
    pub tin: TinState,
}

impl TriangulationState {
    /// As a fresh editor starts.
    pub open spec fn is_initial(self, contour_layer: String, tin_name: String) -> bool {
        &&& self.create.is_initial()
        &&& self.cut_poly.is_initial()
        &&& self.cut_z.is_initial()
        &&& self.cut_surface.is_initial()
        &&& self.build_solid.is_initial()
        &&& self.cut_pitshell.is_initial()
        &&& self.include_solid.is_initial()
        &&& self.contour.is_initial(contour_layer)
        &&& self.tin.is_initial(tin_name)
    }

    pub fn new(contour_layer: String, tin_name: String) -> (r: TriangulationState)
        ensures
            r.is_initial(contour_layer, tin_name),
    {
        TriangulationState {
            create: TriCreateState::new(),
            cut_poly: CutPolyState::new(),
            cut_z: CutZState::new(),
            cut_surface: CutSurfaceState::new(),
            build_solid: BuildSolidState::new(),
            cut_pitshell: CutPitshellState::new(),
            include_solid: IncludeSolidState::new(),
            contour: ContourState::new(contour_layer),
            tin: TinState::new(tin_name),
        }
    }

    /// As leaving a project turns it.
    pub open spec fn cleared_from(self, before: TriangulationState, contour_layer: String, tin_name: String) -> bool {
        &&& self.create.cleared_from(before.create)
        &&& self.cut_poly.cleared_from(before.cut_poly)
        &&& self.cut_z.cleared_from(before.cut_z)
        &&& self.cut_surface.cleared_from(before.cut_surface)
        &&& self.build_solid.cleared_from(before.build_solid)
        &&& self.cut_pitshell.cleared_from(before.cut_pitshell)
        &&& self.include_solid.cleared_from(before.include_solid)
        &&& self.contour.cleared_from(before.contour, contour_layer)
        &&& self.tin.cleared_from(before.tin, tin_name)
    }

    pub fn clear(&mut self, contour_layer: String, tin_name: String)
        ensures
            final(self).cleared_from(*old(self), contour_layer, tin_name),
    {
        self.create.clear();
        self.cut_poly.clear();
        self.cut_z.clear();
        self.cut_surface.clear();
        self.build_solid.clear();
        self.cut_pitshell.clear();
        self.include_solid.clear();
        self.contour.clear(contour_layer);
        self.tin.clear(tin_name);
    }
}

} // verus!
