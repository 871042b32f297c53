//! Tools that edit design geometry.
use crate::constants::{EIGHT, LARGEST, MINUS_NINETY, NOT_A_NUMBER, ONE, SIXTY, TWELVE, ZERO};
use crate::ids::{Carried, ObjectId};
use crate::number::{Pair64, Pixel, Real64, Vec3};
use crate::tools::{BatterBermMode, DrapePhase, OffsetMeasure, RelimitMode, TrimEnd};
use crate::views::{MoveGizmoScreen, RotateGizmoScreen};
use vstd::prelude::*;

verus! {

/// Two picked vertices of a line.
#[derive(Clone, Copy, Debug, PartialEq, Eq)]
pub struct PickedPair {
    pub first: Option<usize>,
    pub second: Option<usize>,
}

/// One candidate relimit operation, in world space.
#[derive(Clone, Copy, Debug, PartialEq, Eq, Structural)]
pub struct RelimitCandidate {
    /// Which source endpoint this operation moves.
    pub end: TrimEnd,
    pub target: Vec3,
    /// Whether the line grows.
    pub is_extension: bool,
}

/// One segment in a fuse chain.
#[derive(Clone, Copy, Debug, PartialEq, Eq, Structural)]
pub struct FuseSegment {
    pub object_id: ObjectId,
    /// The vertices are consumed from the end.
    pub reversed: bool,
    /// Vertex at which a closed polyline is opened.
    pub start_index: usize,
    pub closed: bool,
    /// The first vertex sits on the chain tail and is dropped.
    pub weld_start: bool,
}

/// What a batter berm preview was generated from.
#[derive(Clone, Copy, Debug, PartialEq, Eq, Structural)]
pub struct BatterBermPreviewKey {
    pub target_id: ObjectId,
    pub document_revision: u64,
    pub width: Real64,
    pub angle: Real64,
    pub bench_height: Real64,
    pub benches: u32,
    pub mode: BatterBermMode,
    pub direction_up: bool,
}

/// The Drape to Topology tool.
#[derive(Debug)]
pub struct DrapeState {
    pub phase: DrapePhase,
    /// Design objects retained while surfaces are chosen.
    pub object_ids: Vec<ObjectId>,
}

impl DrapeState {
    /// As a fresh editor starts.
    pub open spec fn is_initial(self) -> bool {
        &&& self.phase == DrapePhase::Designs
        &&& self.object_ids@.len() == 0
    }

    pub fn new() -> (r: DrapeState)
        ensures
            r.is_initial(),
    {
        DrapeState {
            phase: DrapePhase::Designs,
            object_ids: Vec::new(),
        }
    }

    /// As leaving a project turns it.
    pub open spec fn cleared_from(self, before: DrapeState) -> bool {
        &&& self.phase == DrapePhase::Designs
        &&& self.object_ids@.len() == 0
    }

    pub fn clear(&mut self)
        ensures
            final(self).cleared_from(*old(self)),
    {
        self.phase = DrapePhase::Designs;
        self.object_ids.clear();
    }
}

/// The Offset Element tool.
#[derive(Debug)]
pub struct OffsetState {
    pub dialog_open: bool,
    pub target_id: Option<ObjectId>,
    pub target_ids: Vec<ObjectId>,
    pub angle_degrees: Real64,
    pub measure: OffsetMeasure,
    pub value_input: Real64,
    /// Waiting for a canvas click to pick the side.
    pub awaiting_side_pick: bool,
    pub horiz_dist: Real64,
    pub z_delta: Real64,
    /// `(tan_angle, target_rl)` of a projection to a level.
    pub project_to_rl: Option<(Real64, Real64)>,
    pub collide_with_triangulation: bool,
}

impl OffsetState {
    /// As a fresh editor starts.
    pub open spec fn is_initial(self) -> bool {
        &&& !self.dialog_open
        &&& self.target_id is None
        &&& self.target_ids@.len() == 0
        &&& self.angle_degrees == (Real64 { bits: SIXTY })
        &&& self.measure == OffsetMeasure::Distance
        &&& self.value_input == (Real64 { bits: ZERO })
        &&& !self.awaiting_side_pick
        &&& self.horiz_dist == (Real64 { bits: ZERO })
        &&& self.z_delta == (Real64 { bits: ZERO })
        &&& self.project_to_rl is None
        &&& !self.collide_with_triangulation
    }

    pub fn new() -> (r: OffsetState)
        ensures
            r.is_initial(),
    {
        OffsetState {
            dialog_open: false,
            target_id: None,
            target_ids: Vec::new(),
            angle_degrees: Real64 { bits: SIXTY },
            measure: OffsetMeasure::Distance,
            value_input: Real64 { bits: ZERO },
            awaiting_side_pick: false,
            horiz_dist: Real64 { bits: ZERO },
            z_delta: Real64 { bits: ZERO },
            project_to_rl: None,
            collide_with_triangulation: false,
        }
    }

    /// As leaving a project turns it.
    pub open spec fn cleared_from(self, before: OffsetState) -> bool {
        &&& !self.dialog_open
        &&& self.target_id is None
        &&& self.target_ids@.len() == 0
        &&& self.angle_degrees == before.angle_degrees
        &&& self.measure == before.measure
        &&& self.value_input == before.value_input
        &&& !self.awaiting_side_pick
        &&& self.horiz_dist == before.horiz_dist
        &&& self.z_delta == before.z_delta
        &&& self.project_to_rl is None
        &&& self.collide_with_triangulation == before.collide_with_triangulation
    }

    pub fn clear(&mut self)
        ensures
            final(self).cleared_from(*old(self)),
    {
        self.dialog_open = false;
        self.target_id = None;
        self.target_ids.clear();
        self.awaiting_side_pick = false;
        self.project_to_rl = None;
    }
}

/// The preview of an offset.
#[derive(Debug)]
pub struct OffsetPreview {
    pub world: Vec<Vec3>,
    pub source_world: Vec<Vec3>,
    /// One entry per vertex; `None` is outside the camera depth range.
    pub screen_px: Vec<Option<Pixel>>,
    pub source_screen_px: Vec<Option<Pixel>>,
    /// `(start, end, closed)` of each preview.
    pub ranges: Vec<(usize, usize, bool)>,
    pub closed: bool,
}

impl OffsetPreview {
    /// As a fresh editor starts.
    pub open spec fn is_initial(self) -> bool {
        &&& self.world@.len() == 0
        &&& self.source_world@.len() == 0
        &&& self.screen_px@.len() == 0
        &&& self.source_screen_px@.len() == 0
        &&& self.ranges@.len() == 0
        &&& !self.closed
    }

    pub fn new() -> (r: OffsetPreview)
        ensures
            r.is_initial(),
    {
        OffsetPreview {
            world: Vec::new(),
            source_world: Vec::new(),
            screen_px: Vec::new(),
            source_screen_px: Vec::new(),
            ranges: Vec::new(),
            closed: false,
        }
    }

    /// As leaving a project turns it.
    pub open spec fn cleared_from(self, before: OffsetPreview) -> bool {
        &&& self.world@.len() == 0
        &&& self.source_world@.len() == 0
        &&& self.screen_px@.len() == 0
        &&& self.source_screen_px@.len() == 0
        &&& self.ranges@.len() == 0
        &&& self.closed == before.closed
    }

    pub fn clear(&mut self)
        ensures
            final(self).cleared_from(*old(self)),
    {
        self.world.clear();
        self.source_world.clear();
        self.screen_px.clear();
        self.source_screen_px.clear();
        self.ranges.clear();
    }
}

/// The Relimit Line tool.
#[derive(Debug)]
pub struct RelimitState {
    pub dialog_open: bool,
    pub source_id: Option<ObjectId>,
    pub mode: RelimitMode,
    pub value_input: Real64,
    /// Waiting for a canvas click to pick the source.
    pub awaiting_source_pick: bool,
    /// Waiting for a canvas click to pick the target line.
    pub waiting_for_pick: bool,
    /// Waiting for the choice of the end to move.
    pub confirming_end: bool,
    pub second_id: Option<ObjectId>,
    pub candidates: Vec<RelimitCandidate>,
    pub intersection_3d: Option<Vec3>,
    pub hover_end: TrimEnd,
    pub preview_from_px: Option<Pixel>,
    pub preview_to_px: Option<Pixel>,
    pub preview_is_extension: bool,
    pub resize_end: TrimEnd,
    pub resize_end_px: Option<Pixel>,
}

impl RelimitState {
    /// As a fresh editor starts.
    pub open spec fn is_initial(self) -> bool {
        &&& !self.dialog_open
        &&& self.source_id is None
        &&& self.mode == RelimitMode::Intersect
        &&& self.value_input == (Real64 { bits: ZERO })
        &&& !self.awaiting_source_pick
        &&& !self.waiting_for_pick
        &&& !self.confirming_end
        &&& self.second_id is None
        &&& self.candidates@.len() == 0
        &&& self.intersection_3d is None
        &&& self.hover_end == TrimEnd::End
        &&& self.preview_from_px is None
        &&& self.preview_to_px is None
        &&& self.preview_is_extension
        &&& self.resize_end == TrimEnd::End
        &&& self.resize_end_px is None
    }

    pub fn new() -> (r: RelimitState)
        ensures
            r.is_initial(),
    {
        RelimitState {
            dialog_open: false,
            source_id: None,
            mode: RelimitMode::Intersect,
            value_input: Real64 { bits: ZERO },
            awaiting_source_pick: false,
            waiting_for_pick: false,
            confirming_end: false,
            second_id: None,
            candidates: Vec::new(),
            intersection_3d: None,
            hover_end: TrimEnd::End,
            preview_from_px: None,
            preview_to_px: None,
            preview_is_extension: true,
            resize_end: TrimEnd::End,
            resize_end_px: None,
        }
    }

    /// As leaving a project turns it.
    pub open spec fn cleared_from(self, before: RelimitState) -> bool {
        &&& !self.dialog_open
        &&& self.source_id is None
        &&& self.mode == before.mode
        &&& self.value_input == before.value_input
        &&& !self.awaiting_source_pick
        &&& !self.waiting_for_pick
        &&& !self.confirming_end
        &&& self.second_id is None
        &&& self.candidates@.len() == 0
        &&& self.intersection_3d is None
        &&& self.hover_end == before.hover_end
        &&& self.preview_from_px is None
        &&& self.preview_to_px is None
        &&& self.preview_is_extension == before.preview_is_extension
        &&& self.resize_end == before.resize_end
        &&& self.resize_end_px is None
    }

    pub fn clear(&mut self)
        ensures
            final(self).cleared_from(*old(self)),
    {
        self.dialog_open = false;
        self.source_id = None;
        self.awaiting_source_pick = false;
        self.waiting_for_pick = false;
        self.confirming_end = false;
        self.second_id = None;
        self.candidates.clear();
        self.intersection_3d = None;
        self.preview_from_px = None;
        self.preview_to_px = None;
        self.resize_end_px = None;
    }
}

/// The Fuse Into Polyline and Split At Points tools.
#[derive(Debug)]
pub struct FuseState {
    pub segments: Vec<FuseSegment>,
    /// Line waiting for one of its endpoint markers to be clicked.
    pub awaiting_endpoint: Option<ObjectId>,
    pub endpoint_markers: Vec<(usize, Vec3)>,
    /// The open tail of the chain.
    pub chain_tail: Option<Vec3>,
    /// Opposite endpoint offered to close a single open source.
    pub close_marker: Option<Vec3>,
    pub split_poly_id: Option<ObjectId>,
    pub split_selected_verts: PickedPair,
    pub split_verts_screen_px: Vec<Option<Pixel>>,
}

impl FuseState {
    /// As a fresh editor starts.
    pub open spec fn is_initial(self) -> bool {
        &&& self.segments@.len() == 0
        &&& self.awaiting_endpoint is None
        &&& self.endpoint_markers@.len() == 0
        &&& self.chain_tail is None
        &&& self.close_marker is None
        &&& self.split_poly_id is None
        &&& self.split_selected_verts == (PickedPair { first: None, second: None })
        &&& self.split_verts_screen_px@.len() == 0
    }

    pub fn new() -> (r: FuseState)
        ensures
            r.is_initial(),
    {
        FuseState {
            segments: Vec::new(),
            awaiting_endpoint: None,
            endpoint_markers: Vec::new(),
            chain_tail: None,
            close_marker: None,
            split_poly_id: None,
            split_selected_verts: PickedPair { first: None, second: None },
            split_verts_screen_px: Vec::new(),
        }
    }

    /// As leaving a project turns it.
    pub open spec fn cleared_from(self, before: FuseState) -> bool {
        &&& self.segments@.len() == 0
        &&& self.awaiting_endpoint is None
        &&& self.endpoint_markers@.len() == 0
        &&& self.chain_tail is None
        &&& self.close_marker is None
        &&& self.split_poly_id is None
        &&& self.split_selected_verts == (PickedPair { first: None, second: None })
        &&& self.split_verts_screen_px@.len() == 0
    }

    pub fn clear(&mut self)
        ensures
            final(self).cleared_from(*old(self)),
    {
        self.segments.clear();
        self.awaiting_endpoint = None;
        self.endpoint_markers.clear();
        self.chain_tail = None;
        self.close_marker = None;
        self.split_poly_id = None;
        self.split_selected_verts = PickedPair { first: None, second: None };
        self.split_verts_screen_px.clear();
    }
}

/// The Chamfer tool.
#[derive(Debug)]
pub struct ChamferState {
    pub radius: Real64,
    pub segments: u32,
    pub max_radius: Real64,
    pub poly_id: Option<ObjectId>,
    pub corner_index: Option<usize>,
    pub preview_screen_px: Vec<Option<Pixel>>,
    pub hover_corner_px: Option<Pixel>,
    pub gizmo_corner_px: Option<Pixel>,
    pub gizmo_bisector_px: Option<Pixel>,
    pub gizmo_handle_px: Option<Pixel>,
    pub gizmo_hovered: bool,
    pub gizmo_edge_screen_dir: Option<Pixel>,
    pub gizmo_px_per_world: Real64,
    pub gizmo_drag_start_px: Option<Pixel>,
    pub gizmo_drag_start_radius: Real64,
}

impl ChamferState {
    /// As a fresh editor starts.
    pub open spec fn is_initial(self) -> bool {
        &&& self.radius == (Real64 { bits: ONE })
        &&& self.segments == 8
        &&& self.max_radius == (Real64 { bits: LARGEST })
        &&& self.poly_id is None
        &&& self.corner_index is None
        &&& self.preview_screen_px@.len() == 0
        &&& self.hover_corner_px is None
        &&& self.gizmo_corner_px is None
        &&& self.gizmo_bisector_px is None
        &&& self.gizmo_handle_px is None
        &&& !self.gizmo_hovered
        &&& self.gizmo_edge_screen_dir is None
        &&& self.gizmo_px_per_world == (Real64 { bits: ONE })
        &&& self.gizmo_drag_start_px is None
        &&& self.gizmo_drag_start_radius == (Real64 { bits: ZERO })
    }

    pub fn new() -> (r: ChamferState)
        ensures
            r.is_initial(),
    {
        ChamferState {
            radius: Real64 { bits: ONE },
            segments: 8,
            max_radius: Real64 { bits: LARGEST },
            poly_id: None,
            corner_index: None,
            preview_screen_px: Vec::new(),
            hover_corner_px: None,
            gizmo_corner_px: None,
            gizmo_bisector_px: None,
            gizmo_handle_px: None,
            gizmo_hovered: false,
            gizmo_edge_screen_dir: None,
            gizmo_px_per_world: Real64 { bits: ONE },
            gizmo_drag_start_px: None,
            gizmo_drag_start_radius: Real64 { bits: ZERO },
        }
    }

    /// As leaving a project turns it.
    pub open spec fn cleared_from(self, before: ChamferState) -> bool {
        &&& self.radius == before.radius
        &&& self.segments == before.segments
        &&& self.max_radius == before.max_radius
        &&& self.poly_id is None
        &&& self.corner_index is None
        &&& self.preview_screen_px@.len() == 0
        &&& self.hover_corner_px is None
        &&& self.gizmo_corner_px is None
        &&& self.gizmo_bisector_px is None
        &&& self.gizmo_handle_px is None
        &&& !self.gizmo_hovered
        &&& self.gizmo_edge_screen_dir is None
        &&& self.gizmo_px_per_world == before.gizmo_px_per_world
        &&& self.gizmo_drag_start_px is None
        &&& self.gizmo_drag_start_radius == before.gizmo_drag_start_radius
    }

    pub fn clear(&mut self)
        ensures
            final(self).cleared_from(*old(self)),
    {
        self.poly_id = None;
        self.corner_index = None;
        self.preview_screen_px.clear();
        self.hover_corner_px = None;
        self.gizmo_corner_px = None;
        self.gizmo_bisector_px = None;
        self.gizmo_handle_px = None;
        self.gizmo_hovered = false;
        self.gizmo_edge_screen_dir = None;
        self.gizmo_drag_start_px = None;
    }
}

/// The translate gizmo and its panel.
#[derive(Debug)]
pub struct MoveState {
    pub vertex_target: Option<(ObjectId, Carried)>,
    pub screen: MoveGizmoScreen,
    pub hovered_axis: Option<u8>,
    /// Hovered plane handle, the ring included.
    pub hovered_plane: Option<u8>,
    pub drag_axis_index: Option<u8>,
    pub drag_plane_index: Option<u8>,
    pub panel_delta: Vec3,
    /// The delta last applied as a preview; a fresh editor has applied none.
    pub panel_last_preview: Vec3,
}

impl MoveState {
    /// As a fresh editor starts.
    pub open spec fn is_initial(self) -> bool {
        &&& self.vertex_target is None
        &&& self.screen == MoveGizmoScreen::unprojected()
        &&& self.hovered_axis is None
        &&& self.hovered_plane is None
        &&& self.drag_axis_index is None
        &&& self.drag_plane_index is None
        &&& self.panel_delta == (Vec3 { x: Real64 { bits: ZERO }, y: Real64 { bits: ZERO }, z: Real64 { bits: ZERO } })
        &&& self.panel_last_preview == (Vec3 { x: Real64 { bits: NOT_A_NUMBER }, y: Real64 { bits: NOT_A_NUMBER }, z: Real64 { bits: NOT_A_NUMBER } })
    }

    pub fn new() -> (r: MoveState)
        ensures
            r.is_initial(),
    {
        MoveState {
            vertex_target: None,
            screen: MoveGizmoScreen::default(),
            hovered_axis: None,
            hovered_plane: None,
            drag_axis_index: None,
            drag_plane_index: None,
            panel_delta: Vec3 { x: Real64 { bits: ZERO }, y: Real64 { bits: ZERO }, z: Real64 { bits: ZERO } },
            panel_last_preview: Vec3 { x: Real64 { bits: NOT_A_NUMBER }, y: Real64 { bits: NOT_A_NUMBER }, z: Real64 { bits: NOT_A_NUMBER } },
        }
    }

    /// As leaving a project turns it.
    pub open spec fn cleared_from(self, before: MoveState) -> bool {
        &&& self.vertex_target is None
        &&& self.screen == MoveGizmoScreen::unprojected()
        &&& self.hovered_axis is None
        &&& self.hovered_plane is None
        &&& self.drag_axis_index is None
        &&& self.drag_plane_index is None
        &&& self.panel_delta == (Vec3 { x: Real64 { bits: ZERO }, y: Real64 { bits: ZERO }, z: Real64 { bits: ZERO } })
        &&& self.panel_last_preview == (Vec3 { x: Real64 { bits: ZERO }, y: Real64 { bits: ZERO }, z: Real64 { bits: ZERO } })
    }

    pub fn clear(&mut self)
        ensures
            final(self).cleared_from(*old(self)),
    {
        self.vertex_target = None;
        self.screen = MoveGizmoScreen::default();
        self.hovered_axis = None;
        self.hovered_plane = None;
        self.drag_axis_index = None;
        self.drag_plane_index = None;
        self.panel_delta = Vec3 { x: Real64 { bits: ZERO }, y: Real64 { bits: ZERO }, z: Real64 { bits: ZERO } };
        self.panel_last_preview = Vec3 { x: Real64 { bits: ZERO }, y: Real64 { bits: ZERO }, z: Real64 { bits: ZERO } };
    }
}

/// The Rotate Collar gizmo and its panel.
#[derive(Debug)]
pub struct RotateState {
    pub screen: RotateGizmoScreen,
    /// Preview bearing before the dip readout folds at vertical.
    pub azimuth: Option<Real64>,
    pub hovered_ring: Option<u8>,
    pub drag_ring: Option<u8>,
    /// Panel values in degrees, absolute.
    pub panel_azimuth: Real64,
    pub panel_dip: Real64,
    /// Whether the selected holes disagree about where they point.
    pub panel_mixed: bool,
    pub panel_last_preview: Pair64,
    pub preview_active: bool,
}

impl RotateState {
    /// As a fresh editor starts.
    pub open spec fn is_initial(self) -> bool {
        &&& self.screen.is_unprojected()
        &&& self.azimuth is None
        &&& self.hovered_ring is None
        &&& self.drag_ring is None
        &&& self.panel_azimuth == (Real64 { bits: ZERO })
        &&& self.panel_dip == (Real64 { bits: MINUS_NINETY })
        &&& !self.panel_mixed
        &&& self.panel_last_preview == (Pair64 { x: Real64 { bits: ZERO }, y: Real64 { bits: MINUS_NINETY } })
        &&& !self.preview_active
    }

    pub fn new() -> (r: RotateState)
        ensures
            r.is_initial(),
    {
        RotateState {
            screen: RotateGizmoScreen::default(),
            azimuth: None,
            hovered_ring: None,
            drag_ring: None,
            panel_azimuth: Real64 { bits: ZERO },
            panel_dip: Real64 { bits: MINUS_NINETY },
            panel_mixed: false,
            panel_last_preview: Pair64 { x: Real64 { bits: ZERO }, y: Real64 { bits: MINUS_NINETY } },
            preview_active: false,
        }
    }

    /// As leaving a project turns it.
    pub open spec fn cleared_from(self, before: RotateState) -> bool {
        &&& self.screen.is_unprojected()
        &&& self.azimuth is None
        &&& self.hovered_ring is None
        &&& self.drag_ring is None
        &&& self.panel_azimuth == (Real64 { bits: ZERO })
        &&& self.panel_dip == (Real64 { bits: MINUS_NINETY })
        &&& !self.panel_mixed
        &&& self.panel_last_preview == (Pair64 { x: Real64 { bits: ZERO }, y: Real64 { bits: MINUS_NINETY } })
        &&& !self.preview_active
    }

    pub fn clear(&mut self)
        ensures
            final(self).cleared_from(*old(self)),
    {
        self.screen = RotateGizmoScreen::default();
        self.azimuth = None;
        self.hovered_ring = None;
        self.drag_ring = None;
        self.panel_azimuth = Real64 { bits: ZERO };
        self.panel_dip = Real64 { bits: MINUS_NINETY };
        self.panel_mixed = false;
        self.panel_last_preview = Pair64 { x: Real64 { bits: ZERO }, y: Real64 { bits: MINUS_NINETY } };
        self.preview_active = false;
    }
}

/// The Batter Berm tool.
#[derive(Debug)]
pub struct BatterBermState {
    pub dialog_open: bool,
    pub target_id: Option<ObjectId>,
    pub width: Real64,
    pub angle: Real64,
    pub bench_height: Real64,
    pub benches: u32,
    /// Most complete levels that the boundary has room for.
    pub max_benches: u32,
    pub mode: BatterBermMode,
    pub direction_up: bool,
    pub rings_world: Vec<Vec<Vec3>>,
    pub source_world: Vec<Vec3>,
    pub rings_screen_px: Vec<Vec<Option<Pixel>>>,
    pub source_screen_px: Vec<Option<Pixel>>,
    pub preview_closed: bool,
    pub preview_key: Option<BatterBermPreviewKey>,
}

impl BatterBermState {
    /// As a fresh editor starts.
    pub open spec fn is_initial(self) -> bool {
        &&& !self.dialog_open
        &&& self.target_id is None
        &&& self.width == (Real64 { bits: EIGHT })
        &&& self.angle == (Real64 { bits: SIXTY })
        &&& self.bench_height == (Real64 { bits: TWELVE })
        &&& self.benches == 1
        &&& self.max_benches == 0
        &&& self.mode == BatterBermMode::Pit
        &&& !self.direction_up
        &&& self.rings_world@.len() == 0
        &&& self.source_world@.len() == 0
        &&& self.rings_screen_px@.len() == 0
        &&& self.source_screen_px@.len() == 0
        &&& !self.preview_closed
        &&& self.preview_key is None
    }

    pub fn new() -> (r: BatterBermState)
        ensures
            r.is_initial(),
    {
        BatterBermState {
            dialog_open: false,
            target_id: None,
            width: Real64 { bits: EIGHT },
            angle: Real64 { bits: SIXTY },
            bench_height: Real64 { bits: TWELVE },
            benches: 1,
            max_benches: 0,
            mode: BatterBermMode::Pit,
            direction_up: false,
            rings_world: Vec::new(),
            source_world: Vec::new(),
            rings_screen_px: Vec::new(),
            source_screen_px: Vec::new(),
            preview_closed: false,
            preview_key: None,
        }
    }

    /// As leaving a project turns it.
    pub open spec fn cleared_from(self, before: BatterBermState) -> bool {
        &&& !self.dialog_open
        &&& self.target_id is None
        &&& self.width == before.width
        &&& self.angle == before.angle
        &&& self.bench_height == before.bench_height
        &&& self.benches == before.benches
        &&& self.max_benches == before.max_benches
        &&& self.mode == before.mode
        &&& self.direction_up == before.direction_up
        &&& self.rings_world@.len() == 0
        &&& self.source_world@.len() == 0
        &&& self.rings_screen_px@.len() == 0
        &&& self.source_screen_px@.len() == 0
        &&& self.preview_closed == before.preview_closed
        &&& self.preview_key is None
    }

    pub fn clear(&mut self)
        ensures
            final(self).cleared_from(*old(self)),
    {
        self.dialog_open = false;
        self.target_id = None;
        self.rings_world.clear();
        self.source_world.clear();
        self.rings_screen_px.clear();
        self.source_screen_px.clear();
        self.preview_key = None;
    }
}

/// The Bezier tool.
#[derive(Debug)]
pub struct BezierState {
    pub poly_id: Option<ObjectId>,
    pub poly_closed: bool,
    /// Directed ends of the span being replaced.
    pub selected_verts: PickedPair,
    /// Replace the longer of the two paths of a closed polyline.
    pub replace_longer: bool,
    pub cp1: Vec3,
    pub cp2: Vec3,
    pub segments: u32,
    pub verts_screen_px: Vec<Option<Pixel>>,
    pub cp1_screen_px: Option<Pixel>,
    pub cp2_screen_px: Option<Pixel>,
    pub span_screen_px: Vec<Option<Pixel>>,
    pub preview_screen_px: Vec<Option<Pixel>>,
    /// The handle being dragged: 0 or 1.
    pub dragging_cp: Option<u8>,
    pub hover_cp: Option<u8>,
    pub dialog_open: bool,
}

impl BezierState {
    /// As a fresh editor starts.
    pub open spec fn is_initial(self) -> bool {
        &&& self.poly_id is None
        &&& !self.poly_closed
        &&& self.selected_verts == (PickedPair { first: None, second: None })
        &&& !self.replace_longer
        &&& self.cp1 == (Vec3 { x: Real64 { bits: ZERO }, y: Real64 { bits: ZERO }, z: Real64 { bits: ZERO } })
        &&& self.cp2 == (Vec3 { x: Real64 { bits: ZERO }, y: Real64 { bits: ZERO }, z: Real64 { bits: ZERO } })
        &&& self.segments == 16
        &&& self.verts_screen_px@.len() == 0
        &&& self.cp1_screen_px is None
        &&& self.cp2_screen_px is None
        &&& self.span_screen_px@.len() == 0
        &&& self.preview_screen_px@.len() == 0
        &&& self.dragging_cp is None
        &&& self.hover_cp is None
        &&& !self.dialog_open
    }

    pub fn new() -> (r: BezierState)
        ensures
            r.is_initial(),
    {
        BezierState {
            poly_id: None,
            poly_closed: false,
            selected_verts: PickedPair { first: None, second: None },
            replace_longer: false,
            cp1: Vec3 { x: Real64 { bits: ZERO }, y: Real64 { bits: ZERO }, z: Real64 { bits: ZERO } },
            cp2: Vec3 { x: Real64 { bits: ZERO }, y: Real64 { bits: ZERO }, z: Real64 { bits: ZERO } },
            segments: 16,
            verts_screen_px: Vec::new(),
            cp1_screen_px: None,
            cp2_screen_px: None,
            span_screen_px: Vec::new(),
            preview_screen_px: Vec::new(),
            dragging_cp: None,
            hover_cp: None,
            dialog_open: false,
        }
    }

    /// As leaving a project turns it.
    pub open spec fn cleared_from(self, before: BezierState) -> bool {
        &&& self.poly_id is None
        &&& !self.poly_closed
        &&& self.selected_verts == (PickedPair { first: None, second: None })
        &&& !self.replace_longer
        &&& self.cp1 == (Vec3 { x: Real64 { bits: ZERO }, y: Real64 { bits: ZERO }, z: Real64 { bits: ZERO } })
        &&& self.cp2 == (Vec3 { x: Real64 { bits: ZERO }, y: Real64 { bits: ZERO }, z: Real64 { bits: ZERO } })
        &&& self.segments == before.segments
        &&& self.verts_screen_px@.len() == 0
        &&& self.cp1_screen_px is None
        &&& self.cp2_screen_px is None
        &&& self.span_screen_px@.len() == 0
        &&& self.preview_screen_px@.len() == 0
        &&& self.dragging_cp is None
        &&& self.hover_cp is None
        &&& !self.dialog_open
    }

    pub fn clear(&mut self)
        ensures
            final(self).cleared_from(*old(self)),
    {
        self.poly_id = None;
        self.poly_closed = false;
        self.selected_verts = PickedPair { first: None, second: None };
        self.replace_longer = false;
        self.cp1 = Vec3 { x: Real64 { bits: ZERO }, y: Real64 { bits: ZERO }, z: Real64 { bits: ZERO } };
        self.cp2 = Vec3 { x: Real64 { bits: ZERO }, y: Real64 { bits: ZERO }, z: Real64 { bits: ZERO } };
        self.verts_screen_px.clear();
        self.cp1_screen_px = None;
        self.cp2_screen_px = None;
        self.span_screen_px.clear();
        self.preview_screen_px.clear();
        self.dragging_cp = None;
        self.hover_cp = None;
        self.dialog_open = false;
    }
}

/// The tools that edit design geometry.
#[derive(Debug)]
pub struct GeometryState {
    pub drape: DrapeState,
    pub offset: OffsetState,
    pub offset_preview: OffsetPreview,
    pub relimit: RelimitState,
    pub fuse: FuseState,
    pub chamfer: ChamferState,
    pub translate: MoveState,
    pub rotate: RotateState,
    pub batter_berm: BatterBermState,
    pub bezier: BezierState,
}

impl GeometryState {
    /// As a fresh editor starts.
    pub open spec fn is_initial(self) -> bool {
        &&& self.drape.is_initial()
        &&& self.offset.is_initial()
        &&& self.offset_preview.is_initial()
        &&& self.relimit.is_initial()
        &&& self.fuse.is_initial()
        &&& self.chamfer.is_initial()
        &&& self.translate.is_initial()
        &&& self.rotate.is_initial()
        &&& self.batter_berm.is_initial()
        &&& self.bezier.is_initial()
    }

    pub fn new() -> (r: GeometryState)
        ensures
            r.is_initial(),
    {
        GeometryState {
            drape: DrapeState::new(),
            offset: OffsetState::new(),
            offset_preview: OffsetPreview::new(),
            relimit: RelimitState::new(),
            fuse: FuseState::new(),
            chamfer: ChamferState::new(),
            translate: MoveState::new(),
            rotate: RotateState::new(),
            batter_berm: BatterBermState::new(),
            bezier: BezierState::new(),
        }
    }

    /// As leaving a project turns it.
    pub open spec fn cleared_from(self, before: GeometryState) -> bool {
        &&& self.drape.cleared_from(before.drape)
        &&& self.offset.cleared_from(before.offset)
        &&& self.offset_preview.cleared_from(before.offset_preview)
        &&& self.relimit.cleared_from(before.relimit)
        &&& self.fuse.cleared_from(before.fuse)
        &&& self.chamfer.cleared_from(before.chamfer)
        &&& self.translate.cleared_from(before.translate)
        &&& self.rotate.cleared_from(before.rotate)
        &&& self.batter_berm.cleared_from(before.batter_berm)
        &&& self.bezier.cleared_from(before.bezier)
    }

    pub fn clear(&mut self)
        ensures
            final(self).cleared_from(*old(self)),
    {
        self.drape.clear();
        self.offset.clear();
        self.offset_preview.clear();
        self.relimit.clear();
        self.fuse.clear();
        self.chamfer.clear();
        self.translate.clear();
        self.rotate.clear();
        self.batter_berm.clear();
        self.bezier.clear();
    }
}

} // verus!
