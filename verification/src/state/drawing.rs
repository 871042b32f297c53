//! Drawing: the tool, the cursor, strokes and canvas dialogs.
use crate::constants::{FIFTEEN, SINGLE_ONE, ZERO};
use crate::ids::{DrillHoleId, LayerId, ObjectId};
use crate::model::Axis;
use crate::number::{Pixel, Real32, Real64, Rgba, Vec3};
use crate::object_edit::ObjectEditDialog;
use crate::tools::{ActiveTool, CursorMode, ToolHatch};
use crate::views::CircleDraft;
use vstd::prelude::*;

verus! {

/// Where selected objects go.
#[derive(Debug)]
pub struct MoveToLayerDialog {
    pub object_ids: Vec<ObjectId>,
    pub target_layer: Option<LayerId>,
    pub copy: bool,
}

/// One axis of selected objects, to be set to a value.
#[derive(Debug)]
pub struct MoveToAxisDialog {
    pub object_ids: Vec<ObjectId>,
    pub axis: Axis,
    pub value: Real64,
}

/// The elevation at which vertices are inserted into selected polylines. Nothing
/// can be inserted outside the band that the polylines span.
#[derive(Debug)]
pub struct InsertPointAtElevationDialog {
    pub object_ids: Vec<ObjectId>,
    pub elevation: Real64,
    pub min_elevation: Real64,
    pub max_elevation: Real64,
}

/// The tool in hand and the cursor it works with.
#[derive(Debug)]
pub struct ToolState {
    pub active_tool: ActiveTool,
    /// Shared by every workspace.
    pub cursor_mode: CursorMode,
    pub line_color: Rgba,
    pub line_weight: Real32,
    pub hatch: ToolHatch,
    /// Active drawing layer.
    pub active_layer: Option<LayerId>,
    /// The dataset that tie-ins and initiation points go to.
    pub active_drill_hole: Option<DrillHoleId>,
    /// Draws this object in the selection colour regardless of selection.
    pub highlight_id: Option<ObjectId>,
    /// The vertex that Move or Delete would act on.
    pub hover_vertex_px: Option<Pixel>,
    pub hover_vertex_world: Option<Vec3>,
    /// Live description of the object under the cursor while a field is being filled
    /// from the viewport.
    pub pick_hover_label: Option<String>,
}

impl ToolState {
    /// As a fresh editor starts.
    pub open spec fn is_initial(self) -> bool {
        &&& self.active_tool == ActiveTool::NoTool
        &&& self.cursor_mode == CursorMode::Select
        &&& self.line_color == (Rgba { r: Real32 { bits: SINGLE_ONE }, g: Real32 { bits: SINGLE_ONE }, b: Real32 { bits: SINGLE_ONE }, a: Real32 { bits: SINGLE_ONE } })
        &&& self.line_weight == (Real32 { bits: SINGLE_ONE })
        &&& self.hatch == ToolHatch::Clear
        &&& self.active_layer is None
        &&& self.active_drill_hole is None
        &&& self.highlight_id is None
        &&& self.hover_vertex_px is None
        &&& self.hover_vertex_world is None
        &&& self.pick_hover_label is None
    }

    pub fn new() -> (r: ToolState)
        ensures
            r.is_initial(),
    {
        ToolState {
            active_tool: ActiveTool::NoTool,
            cursor_mode: CursorMode::Select,
            line_color: Rgba { r: Real32 { bits: SINGLE_ONE }, g: Real32 { bits: SINGLE_ONE }, b: Real32 { bits: SINGLE_ONE }, a: Real32 { bits: SINGLE_ONE } },
            line_weight: Real32 { bits: SINGLE_ONE },
            hatch: ToolHatch::Clear,
            active_layer: None,
            active_drill_hole: None,
            highlight_id: None,
            hover_vertex_px: None,
            hover_vertex_world: None,
            pick_hover_label: None,
        }
    }

    /// As leaving a project turns it.
    pub open spec fn cleared_from(self, before: ToolState) -> bool {
        &&& self.active_tool == ActiveTool::NoTool
        &&& self.cursor_mode == before.cursor_mode
        &&& self.line_color == before.line_color
        &&& self.line_weight == before.line_weight
        &&& self.hatch == before.hatch
        &&& self.active_layer is None
        &&& self.active_drill_hole is None
        &&& self.highlight_id is None
        &&& self.hover_vertex_px is None
        &&& self.hover_vertex_world is None
        &&& self.pick_hover_label is None
    }

    pub fn clear(&mut self)
        ensures
            final(self).cleared_from(*old(self)),
    {
        self.active_tool = ActiveTool::NoTool;
        self.active_layer = None;
        self.active_drill_hole = None;
        self.highlight_id = None;
        self.hover_vertex_px = None;
        self.hover_vertex_world = None;
        self.pick_hover_label = None;
    }
}

/// The cursor in the world and on screen.
#[derive(Debug)]
pub struct CursorState {
    /// World coordinate under the cursor.
    pub world: Option<Vec3>,
    /// Whether that coordinate is a snapped position.
    pub snapped: bool,
    /// Where the snapped point lands on the window.
    pub snap_marker_px: Option<Pixel>,
    pub screen_px: Option<Pixel>,
    /// Plane used for placement outside the slice view.
    pub z_level: Real64,
    pub z_input: Real64,
    /// Bounds of an in-progress box selection.
    pub box_start_px: Option<Pixel>,
    pub box_current_px: Option<Pixel>,
}

impl CursorState {
    /// As a fresh editor starts.
    pub open spec fn is_initial(self) -> bool {
        &&& self.world is None
        &&& !self.snapped
        &&& self.snap_marker_px is None
        &&& self.screen_px is None
        &&& self.z_level == (Real64 { bits: ZERO })
        &&& self.z_input == (Real64 { bits: ZERO })
        &&& self.box_start_px is None
        &&& self.box_current_px is None
    }

    pub fn new() -> (r: CursorState)
        ensures
            r.is_initial(),
    {
        CursorState {
            world: None,
            snapped: false,
            snap_marker_px: None,
            screen_px: None,
            z_level: Real64 { bits: ZERO },
            z_input: Real64 { bits: ZERO },
            box_start_px: None,
            box_current_px: None,
        }
    }

    /// As leaving a project turns it.
    pub open spec fn cleared_from(self, before: CursorState) -> bool {
        &&& self.world == before.world
        &&& !self.snapped
        &&& self.snap_marker_px is None
        &&& self.screen_px == before.screen_px
        &&& self.z_level == before.z_level
        &&& self.z_input == before.z_input
        &&& self.box_start_px is None
        &&& self.box_current_px is None
    }

    pub fn clear(&mut self)
        ensures
            final(self).cleared_from(*old(self)),
    {
        self.snapped = false;
        self.snap_marker_px = None;
        self.box_start_px = None;
        self.box_current_px = None;
    }
}

/// Geometry being drawn and measured.
#[derive(Debug)]
pub struct StrokeState {
    /// Vertices of an in-progress line or polyline.
    pub pending_stroke: Vec<Vec3>,
    pub circle_draft: Option<CircleDraft>,
    pub measurement_start: Option<Vec3>,
    pub measurement_end: Option<Vec3>,
    pub batter_angle_points: Vec<Vec3>,
    pub poly_finish_dialog: bool,
    /// Whether the Enter that opened the finish dialog has been released.
    pub poly_finish_confirm_armed: bool,
    pub poly_finish_px: Option<Pixel>,
}

impl StrokeState {
    /// As a fresh editor starts.
    pub open spec fn is_initial(self) -> bool {
        &&& self.pending_stroke@.len() == 0
        &&& self.circle_draft is None
        &&& self.measurement_start is None
        &&& self.measurement_end is None
        &&& self.batter_angle_points@.len() == 0
        &&& !self.poly_finish_dialog
        &&& !self.poly_finish_confirm_armed
        &&& self.poly_finish_px is None
    }

    pub fn new() -> (r: StrokeState)
        ensures
            r.is_initial(),
    {
        StrokeState {
            pending_stroke: Vec::new(),
            circle_draft: None,
            measurement_start: None,
            measurement_end: None,
            batter_angle_points: Vec::new(),
            poly_finish_dialog: false,
            poly_finish_confirm_armed: false,
            poly_finish_px: None,
        }
    }

    /// As leaving a project turns it.
    pub open spec fn cleared_from(self, before: StrokeState) -> bool {
        &&& self.pending_stroke@.len() == 0
        &&& self.circle_draft is None
        &&& self.measurement_start is None
        &&& self.measurement_end is None
        &&& self.batter_angle_points@.len() == 0
        &&& !self.poly_finish_dialog
        &&& !self.poly_finish_confirm_armed
        &&& self.poly_finish_px is None
    }

    pub fn clear(&mut self)
        ensures
            final(self).cleared_from(*old(self)),
    {
        self.pending_stroke.clear();
        self.circle_draft = None;
        self.measurement_start = None;
        self.measurement_end = None;
        self.batter_angle_points.clear();
        self.poly_finish_dialog = false;
        self.poly_finish_confirm_armed = false;
        self.poly_finish_px = None;
    }
}

/// The text editor in the viewport.
#[derive(Debug)]
pub struct TextState {
    /// Characters accumulated so far.
    pub pending: String,
    pub height: Real64,
    pub rotation_degrees: Real64,
    pub color: Rgba,
    pub dialog_px: Option<Pixel>,
    /// Keeps the menu anchored while its window state settles.
    pub position_frames: u8,
    pub focus_requested: bool,
    pub created: bool,
    /// Whether the text properties popup is open.
    pub editing_enabled: bool,
    pub editing_id: Option<ObjectId>,
}

impl TextState {
    /// As a fresh editor starts.
    pub open spec fn is_initial(self) -> bool {
        &&& self.pending@.len() == 0
        &&& self.height == (Real64 { bits: FIFTEEN })
        &&& self.rotation_degrees == (Real64 { bits: ZERO })
        &&& self.color == (Rgba { r: Real32 { bits: SINGLE_ONE }, g: Real32 { bits: SINGLE_ONE }, b: Real32 { bits: SINGLE_ONE }, a: Real32 { bits: SINGLE_ONE } })
        &&& self.dialog_px is None
        &&& self.position_frames == 0
        &&& !self.focus_requested
        &&& !self.created
        &&& !self.editing_enabled
        &&& self.editing_id is None
    }

    pub fn new() -> (r: TextState)
        ensures
            r.is_initial(),
    {
        TextState {
            pending: String::new(),
            height: Real64 { bits: FIFTEEN },
            rotation_degrees: Real64 { bits: ZERO },
            color: Rgba { r: Real32 { bits: SINGLE_ONE }, g: Real32 { bits: SINGLE_ONE }, b: Real32 { bits: SINGLE_ONE }, a: Real32 { bits: SINGLE_ONE } },
            dialog_px: None,
            position_frames: 0,
            focus_requested: false,
            created: false,
            editing_enabled: false,
            editing_id: None,
        }
    }

    /// As leaving a project turns it.
    pub open spec fn cleared_from(self, before: TextState) -> bool {
        &&& self.pending@.len() == 0
        &&& self.height == before.height
        &&& self.rotation_degrees == before.rotation_degrees
        &&& self.color == before.color
        &&& self.dialog_px is None
        &&& self.position_frames == 0
        &&& !self.focus_requested
        &&& !self.created
        &&& !self.editing_enabled
        &&& self.editing_id is None
    }

    pub fn clear(&mut self)
        ensures
            final(self).cleared_from(*old(self)),
    {
        self.pending = String::new();
        self.dialog_px = None;
        self.position_frames = 0;
        self.focus_requested = false;
        self.created = false;
        self.editing_enabled = false;
        self.editing_id = None;
    }
}

/// Dialogs over the canvas that edit the selection.
#[derive(Debug)]
pub struct CanvasDialogs {
    pub context_menu_open: bool,
    pub context_menu_px: Option<Pixel>,
    /// Selected polylines and the line weight being dragged for them.
    pub line_weight_input: Option<(Vec<ObjectId>, Real32)>,
    pub move_to_layer: Option<MoveToLayerDialog>,
    pub move_to_axis: Option<MoveToAxisDialog>,
    /// Whether the selected polylines cross anywhere.
    pub selection_has_intersections: bool,
    pub insert_point_at_elevation: Option<InsertPointAtElevationDialog>,
    pub object_edit: Option<ObjectEditDialog>,
}

impl CanvasDialogs {
    /// As a fresh editor starts.
    pub open spec fn is_initial(self) -> bool {
        &&& !self.context_menu_open
        &&& self.context_menu_px is None
        &&& self.line_weight_input is None
        &&& self.move_to_layer is None
        &&& self.move_to_axis is None
        &&& !self.selection_has_intersections
        &&& self.insert_point_at_elevation is None
        &&& self.object_edit is None
    }

    pub fn new() -> (r: CanvasDialogs)
        ensures
            r.is_initial(),
    {
        CanvasDialogs {
            context_menu_open: false,
            context_menu_px: None,
            line_weight_input: None,
            move_to_layer: None,
            move_to_axis: None,
            selection_has_intersections: false,
            insert_point_at_elevation: None,
            object_edit: None,
        }
    }

    /// As leaving a project turns it.
    pub open spec fn cleared_from(self, before: CanvasDialogs) -> bool {
        &&& !self.context_menu_open
        &&& self.context_menu_px is None
        &&& self.line_weight_input is None
        &&& self.move_to_layer is None
        &&& self.move_to_axis is None
        &&& self.selection_has_intersections == before.selection_has_intersections
        &&& self.insert_point_at_elevation is None
        &&& self.object_edit is None
    }

    pub fn clear(&mut self)
        ensures
            final(self).cleared_from(*old(self)),
    {
        self.context_menu_open = false;
        self.context_menu_px = None;
        self.line_weight_input = None;
        self.move_to_layer = None;
        self.move_to_axis = None;
        self.insert_point_at_elevation = None;
        self.object_edit = None;
    }
}

/// Drawing.
#[derive(Debug)]
pub struct DrawingState {
    pub tools: ToolState,
    pub cursor: CursorState,
    pub stroke: StrokeState,
    pub text: TextState,
    pub canvas: CanvasDialogs,
}

impl DrawingState {
    /// As a fresh editor starts.
    pub open spec fn is_initial(self) -> bool {
        &&& self.tools.is_initial()
        &&& self.cursor.is_initial()
        &&& self.stroke.is_initial()
        &&& self.text.is_initial()
        &&& self.canvas.is_initial()
    }

    pub fn new() -> (r: DrawingState)
        ensures
            r.is_initial(),
    {
        DrawingState {
            tools: ToolState::new(),
            cursor: CursorState::new(),
            stroke: StrokeState::new(),
            text: TextState::new(),
            canvas: CanvasDialogs::new(),
        }
    }

    /// As leaving a project turns it.
    pub open spec fn cleared_from(self, before: DrawingState) -> bool {
        &&& self.tools.cleared_from(before.tools)
        &&& self.cursor.cleared_from(before.cursor)
        &&& self.stroke.cleared_from(before.stroke)
        &&& self.text.cleared_from(before.text)
        &&& self.canvas.cleared_from(before.canvas)
    }

    pub fn clear(&mut self)
        ensures
            final(self).cleared_from(*old(self)),
    {
        self.tools.clear();
        self.cursor.clear();
        self.stroke.clear();
        self.text.clear();
        self.canvas.clear();
    }
}

} // verus!
