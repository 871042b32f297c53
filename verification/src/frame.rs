//! One frame of the interface: what is drawn, in which order, and what it leads to.
//!
//! A frame walks a fixed list of parts. Whether a part is drawn is asked of the
//! state as the parts before it have left it.
use crate::command::UiCommand;
use crate::editor::EditorState;
use crate::project_view::Platform;
use crate::prompts::Readings;
use crate::tools::ActiveTool;
use crate::workspace::Workspace;
use vstd::prelude::*;

verus! {

/// What a frame is told of the world around it.
#[derive(Clone, Copy, Debug)]
pub struct FrameContext {
    pub platform: Platform,
    pub needs_startup_dialog: bool,
    /// The camera is turning about a marked point.
    pub orbit_marker: bool,
    /// A fixed centre of rotation is in view.
    pub rotation_centre: bool,
    pub readings: Readings,
}

impl FrameContext {
    /// A project in the browser is being named, which stands in for the splash.
    pub open spec fn names_browser_project(self, editor: &EditorState) -> bool {
        self.platform is Browser && editor.project.dialogs.new_project_open
    }

    pub fn is_naming_browser_project(&self, editor: &EditorState) -> (r: bool)
        ensures
            r == self.names_browser_project(editor),
    {
        self.platform == Platform::Browser && editor.project.dialogs.new_project_open
    }
}

/// The panel down the right edge of the scene.
#[derive(Clone, Copy, Debug, PartialEq, Eq, Structural)]
pub enum Island {
    DigStrips,
    Blasts,
    ReserveData,
    Products,
}

impl EditorState {
    /// The panel of the planning cut in hand, of the planning viewport, or of the
    /// Drill & Blast workspace; the other workspaces have none.
    pub open spec fn island(self) -> Option<Island> {
        if self.on_cut_step() {
            Some(
                if self.on_setup_step(crate::workspace::SolidsStep::DigStrips) {
                    Island::DigStrips
                } else {
                    Island::Blasts
                },
            )
        } else if self.frames_viewport() {
            Some(Island::ReserveData)
        } else if self.workspace.active is DrillAndBlast {
            Some(Island::Products)
        } else {
            None
        }
    }

    pub fn right_island(&self) -> (r: Option<Island>)
        ensures
            r == self.island(),
    {
        if self.is_planning_cut_step() {
            if self.is_dig_strips_step() {
                Some(Island::DigStrips)
            } else {
                Some(Island::Blasts)
            }
        } else if self.is_planning_viewport() {
            Some(Island::ReserveData)
        } else if self.workspace.active == Workspace::DrillAndBlast {
            Some(Island::Products)
        } else {
            None
        }
    }

    /// The drawing tools can be used.
    pub fn editing_enabled(&self, has_active_project: bool) -> (r: bool)
        ensures
            r == (has_active_project && !self.view.display.fly_mode_enabled),
    {
        has_active_project && !self.view.display.fly_mode_enabled
    }

    /// The circle tool has a centre and the cursor is over the window.
    pub open spec fn asks_for_radius(self) -> bool {
        &&& self.drawing.tools.active_tool is MakeCircle
        &&& self.drawing.stroke.circle_draft is Some
        &&& self.drawing.cursor.screen_px is Some
    }

    pub fn radius_field_shown(&self) -> (r: bool)
        ensures
            r == self.asks_for_radius(),
    {
        self.drawing.tools.active_tool == ActiveTool::MakeCircle && self.drawing.stroke.circle_draft.is_some()
            && self.drawing.cursor.screen_px.is_some()
    }

    /// The offset tool is in hand with neither its dialog nor a side pick open.
    pub open spec fn wants_offset_dialog(self) -> bool {
        &&& self.drawing.tools.active_tool is OffsetElement
        &&& !self.geometry.offset.dialog_open
        &&& !self.geometry.offset.awaiting_side_pick
    }

    pub fn offset_dialog_wanted(&self) -> (r: bool)
        ensures
            r == self.wants_offset_dialog(),
    {
        self.drawing.tools.active_tool == ActiveTool::OffsetElement && !self.geometry.offset.dialog_open
            && !self.geometry.offset.awaiting_side_pick
    }

    /// The batter berm tool is in hand without its dialog.
    pub open spec fn wants_batter_berm_dialog(self) -> bool {
        &&& self.drawing.tools.active_tool is BatterBermOffset
        &&& !self.geometry.batter_berm.dialog_open
    }

    pub fn batter_berm_dialog_wanted(&self) -> (r: bool)
        ensures
            r == self.wants_batter_berm_dialog(),
    {
        self.drawing.tools.active_tool == ActiveTool::BatterBermOffset && !self.geometry.batter_berm.dialog_open
    }

    /// The relimit tool is in hand with neither its dialog nor any pick open.
    pub open spec fn wants_relimit_dialog(self) -> bool {
        &&& self.drawing.tools.active_tool is RelimitLine
        &&& !self.geometry.relimit.dialog_open
        &&& !self.geometry.relimit.awaiting_source_pick
        &&& !self.geometry.relimit.waiting_for_pick
        &&& !self.geometry.relimit.confirming_end
    }

    pub fn relimit_dialog_wanted(&self) -> (r: bool)
        ensures
            r == self.wants_relimit_dialog(),
    {
        self.drawing.tools.active_tool == ActiveTool::RelimitLine && !self.geometry.relimit.dialog_open
            && !self.geometry.relimit.awaiting_source_pick && !self.geometry.relimit.waiting_for_pick
            && !self.geometry.relimit.confirming_end
    }
}

/// A fixed panel of the window. What the panels leave is the scene.
#[derive(Clone, Copy, Debug, PartialEq, Eq, Structural)]
pub enum Panel {
    MainMenu,
    /// Spans the window, so it is claimed before anything beside it.
    StatusBar,
    /// Spans the window as well: the column, the tools and the scene start below it.
    ViewportBar,
    Explorer,
    Console,
    BottomToolbar,
    /// Claimed after the strips below it, which carry on underneath.
    Island,
    /// The drawing tools, between the explorer and the scene.
    LeftToolbar,
}

impl Panel {
    /// The panel is claimed in this state.
    pub open spec fn is_claimed(self, e: &EditorState) -> bool {
        match self {
            Panel::Console => e.preferences.interface.show_console,
            Panel::BottomToolbar => !e.owns_window(),
            Panel::Island => !e.owns_window() && e.island() is Some,
            Panel::LeftToolbar => !e.owns_window(),
            _ => true,
        }
    }

    /// Whether the panel is claimed in this state.
    pub fn claimed(self, e: &EditorState) -> (r: bool)
        ensures
            r == self.is_claimed(e),
    {
        match self {
            Panel::Console => e.preferences.interface.show_console,
            Panel::BottomToolbar => !e.is_planning_setup(),
            Panel::Island => !e.is_planning_setup() && e.right_island().is_some(),
            Panel::LeftToolbar => !e.is_planning_setup(),
            _ => true,
        }
    }
}

/// How many parts there are.
pub const PANELS: usize = 8;

impl Panel {
    /// The place of a panel: they are claimed in this order.
    pub open spec fn panel_place(self) -> Option<int> {
        match self {
            Panel::MainMenu => Some(0int),
            Panel::StatusBar => Some(1int),
            Panel::ViewportBar => Some(2int),
            Panel::Explorer => Some(3int),
            Panel::Console => Some(4int),
            Panel::BottomToolbar => Some(5int),
            Panel::Island => Some(6int),
            Panel::LeftToolbar => Some(7int),
        }
    }

    /// The part at a place, first one at 0.
    pub fn panel(place: usize) -> (r: Option<Panel>)
        ensures
            r is None <==> place >= PANELS,
            r matches Some(part) ==> part.panel_place() == Some(place as int),
    {
        match place {
            0 => Some(Panel::MainMenu),
            1 => Some(Panel::StatusBar),
            2 => Some(Panel::ViewportBar),
            3 => Some(Panel::Explorer),
            4 => Some(Panel::Console),
            5 => Some(Panel::BottomToolbar),
            6 => Some(Panel::Island),
            7 => Some(Panel::LeftToolbar),
            _ => None,
        }
    }
}

/// A part of the window that is drawn in its turn.
#[derive(Clone, Copy, Debug, PartialEq, Eq, Structural)]
pub enum FramePart {
    /// Grid of the section, under everything else.
    SectionGrid,
    /// Delay cards over the collars of a pattern.
    InitiationCards,
    /// The box being dragged.
    SelectionBox,
    /// Where a triangulation failed.
    TriangulationConflict,
    MoveGizmo,
    /// The numeric delta of a move.
    MovePanel,
    RotateGizmo,
    /// The angles of a rotation.
    RotatePanel,
    /// The corner that a click would take.
    ChamferHover,
    /// The arrow that drags the radius.
    ChamferGizmo,
    /// The corner as it would become.
    ChamferPreview,
    ChamferPanel,
    /// Vertices at which a line can be split.
    SplitMarkers,
    /// The span that would be replaced, and its vertices.
    BezierVertices,
    /// The curve that would replace it.
    BezierPreview,
    /// The control points.
    BezierHandles,
    BezierPanel,
    /// The welcome splash.
    SelectProject,
    VerticalExaggeration,
    GridOptions,
    MoveToLayer,
    MoveToAxis,
    InsertPointAtElevation,
    ObjectEdit,
    About,
    Preferences,
    /// Page, colour and slice of the block model in the viewport.
    BlockModelControls,
    /// The menu of a right click on the canvas.
    ContextMenu,
    /// The radius field beside the cursor.
    CircleRadius,
    /// The name of a project in the browser.
    CreateProject,
    /// A new delay product.
    NewProduct,
    /// The delay of an initiation point.
    Initiation,
    /// The name of a new layer.
    CreateLayer,
    /// The name of an explorer item.
    Rename,
    /// What a drape has selected.
    DrapePanel,
    /// The offset tool asks for its dialog.
    OffsetRequest,
    OffsetDialog,
    /// Where the offset lines would go.
    OffsetPreview,
    /// The banner; see [`EditorState::viewport_message`].
    ToolLabel,
    /// The settings of the slice.
    SlicePanel,
    /// The slice line from above.
    SliceMap,
    /// The batter berm tool asks for its dialog.
    BatterBermRequest,
    BatterBermDialog,
    /// The relimit tool asks for its dialog.
    RelimitRequest,
    RelimitDialog,
    /// The end that a resize moves.
    RelimitEnd,
    /// The line that a relimit adds or takes away.
    RelimitPreview,
    TextEdit,
    FinishPolyline,
    /// The point the camera turns about during a drag.
    OrbitMarker,
    /// The fixed centre of rotation.
    RotationCentre,
    /// The world axes, and the standard views behind them.
    OrientationGizmo,
    /// The names of the blasts or blocks of a planning cut.
    CutLabels,
    /// The drawn cursor. It follows everything that floats over the scene, which has to have claimed its place first.
    ToolCursor,
    ScaleBar,
    /// Dialogs over everything; see [`GlobalDialog`].
    GlobalDialogs,
    /// The list and figures of the solids view.
    SolidsDetails,
    /// The planning steps and the details of the one in hand.
    PlanningDetails,
}

impl FramePart {
    /// The part is drawn in this state.
    pub open spec fn is_drawn(self, e: &EditorState, c: FrameContext) -> bool {
        match self {
            FramePart::InitiationCards => e.workspace.active is DrillAndBlast,
            FramePart::SelectionBox => e.drawing.cursor.box_start_px is Some && e.drawing.cursor.box_current_px is Some,
            FramePart::TriangulationConflict => e.triangulation.create.failure is Some && (e.triangulation.create.diagnostic_segments_px@.len() > 0 || e.triangulation.create.diagnostic_markers_px@.len() > 0),
            FramePart::MoveGizmo => e.spec_move_tool_has_targets(),
            FramePart::MovePanel => e.spec_move_tool_has_targets(),
            FramePart::RotateGizmo => e.spec_rotate_tool_has_targets(),
            FramePart::RotatePanel => e.spec_rotate_tool_has_targets(),
            FramePart::ChamferHover => e.drawing.tools.active_tool is Chamfer && e.geometry.chamfer.hover_corner_px is Some,
            FramePart::ChamferGizmo => e.drawing.tools.active_tool is Chamfer && e.geometry.chamfer.gizmo_corner_px is Some,
            FramePart::ChamferPreview => e.drawing.tools.active_tool is Chamfer && e.geometry.chamfer.preview_screen_px@.len() > 0,
            FramePart::ChamferPanel => e.drawing.tools.active_tool is Chamfer,
            FramePart::SplitMarkers => e.drawing.tools.active_tool is SplitAtPoints,
            FramePart::BezierVertices => e.drawing.tools.active_tool is Bezier,
            FramePart::BezierPreview => e.drawing.tools.active_tool is Bezier && e.geometry.bezier.preview_screen_px@.len() > 0,
            FramePart::BezierHandles => e.drawing.tools.active_tool is Bezier && e.geometry.bezier.cp1_screen_px is Some && e.geometry.bezier.cp2_screen_px is Some,
            FramePart::BezierPanel => e.drawing.tools.active_tool is Bezier && e.geometry.bezier.dialog_open,
            FramePart::SelectProject => c.needs_startup_dialog && !c.names_browser_project(e),
            FramePart::ContextMenu => e.drawing.canvas.context_menu_open && e.drawing.canvas.context_menu_px is Some,
            FramePart::CircleRadius => e.asks_for_radius(),
            FramePart::CreateProject => c.names_browser_project(e),
            FramePart::CreateLayer => e.project.dialogs.new_layer_open,
            FramePart::Rename => e.project.dialogs.renaming_item is Some,
            FramePart::DrapePanel => e.drawing.tools.active_tool is DrapeToTopology,
            FramePart::OffsetRequest => e.wants_offset_dialog(),
            FramePart::OffsetDialog => e.geometry.offset.dialog_open,
            FramePart::OffsetPreview => e.geometry.offset.awaiting_side_pick && e.geometry.offset_preview.screen_px@.len() > 0,
            FramePart::ToolLabel => e.prompt(c.readings) is Some,
            FramePart::SlicePanel => e.view.slice.mode_enabled,
            FramePart::SliceMap => e.view.slice.mode_enabled,
            FramePart::BatterBermRequest => e.wants_batter_berm_dialog(),
            FramePart::BatterBermDialog => e.geometry.batter_berm.dialog_open,
            FramePart::RelimitRequest => e.wants_relimit_dialog(),
            FramePart::RelimitDialog => e.geometry.relimit.dialog_open,
            FramePart::RelimitEnd => e.geometry.relimit.resize_end_px is Some,
            FramePart::RelimitPreview => e.geometry.relimit.confirming_end && e.geometry.relimit.preview_from_px is Some && e.geometry.relimit.preview_to_px is Some,
            FramePart::TextEdit => e.drawing.text.editing_enabled,
            FramePart::FinishPolyline => e.drawing.stroke.poly_finish_dialog,
            FramePart::OrbitMarker => c.orbit_marker,
            FramePart::RotationCentre => c.rotation_centre,
            FramePart::OrientationGizmo => e.preferences.interface.show_world_axis_gizmo,
            FramePart::CutLabels => e.on_cut_step(),
            FramePart::ScaleBar => e.preferences.interface.show_scale_bar,
            FramePart::SolidsDetails => e.shows_solids_view(),
            FramePart::PlanningDetails => !e.shows_solids_view(),
            _ => true,
        }
    }

    /// Whether the part is drawn in this state.
    pub fn drawn(self, e: &EditorState, c: &FrameContext) -> (r: bool)
        ensures
            r == self.is_drawn(e, *c),
    {
        match self {
            FramePart::InitiationCards => e.workspace.active == Workspace::DrillAndBlast,
            FramePart::SelectionBox => e.drawing.cursor.box_start_px.is_some() && e.drawing.cursor.box_current_px.is_some(),
            FramePart::TriangulationConflict => e.triangulation.create.failure.is_some() && (e.triangulation.create.diagnostic_segments_px.len() > 0 || e.triangulation.create.diagnostic_markers_px.len() > 0),
            FramePart::MoveGizmo => e.move_tool_has_targets(),
            FramePart::MovePanel => e.move_tool_has_targets(),
            FramePart::RotateGizmo => e.rotate_tool_has_targets(),
            FramePart::RotatePanel => e.rotate_tool_has_targets(),
            FramePart::ChamferHover => e.drawing.tools.active_tool == ActiveTool::Chamfer && e.geometry.chamfer.hover_corner_px.is_some(),
            FramePart::ChamferGizmo => e.drawing.tools.active_tool == ActiveTool::Chamfer && e.geometry.chamfer.gizmo_corner_px.is_some(),
            FramePart::ChamferPreview => e.drawing.tools.active_tool == ActiveTool::Chamfer && e.geometry.chamfer.preview_screen_px.len() > 0,
            FramePart::ChamferPanel => e.drawing.tools.active_tool == ActiveTool::Chamfer,
            FramePart::SplitMarkers => e.drawing.tools.active_tool == ActiveTool::SplitAtPoints,
            FramePart::BezierVertices => e.drawing.tools.active_tool == ActiveTool::Bezier,
            FramePart::BezierPreview => e.drawing.tools.active_tool == ActiveTool::Bezier && e.geometry.bezier.preview_screen_px.len() > 0,
            FramePart::BezierHandles => e.drawing.tools.active_tool == ActiveTool::Bezier && e.geometry.bezier.cp1_screen_px.is_some() && e.geometry.bezier.cp2_screen_px.is_some(),
            FramePart::BezierPanel => e.drawing.tools.active_tool == ActiveTool::Bezier && e.geometry.bezier.dialog_open,
            FramePart::SelectProject => c.needs_startup_dialog && !c.is_naming_browser_project(e),
            FramePart::ContextMenu => e.drawing.canvas.context_menu_open && e.drawing.canvas.context_menu_px.is_some(),
            FramePart::CircleRadius => e.radius_field_shown(),
            FramePart::CreateProject => c.is_naming_browser_project(e),
            FramePart::CreateLayer => e.project.dialogs.new_layer_open,
            FramePart::Rename => e.project.dialogs.renaming_item.is_some(),
            FramePart::DrapePanel => e.drawing.tools.active_tool == ActiveTool::DrapeToTopology,
            FramePart::OffsetRequest => e.offset_dialog_wanted(),
            FramePart::OffsetDialog => e.geometry.offset.dialog_open,
            FramePart::OffsetPreview => e.geometry.offset.awaiting_side_pick && e.geometry.offset_preview.screen_px.len() > 0,
            FramePart::ToolLabel => e.viewport_message(c.readings).is_some(),
            FramePart::SlicePanel => e.view.slice.mode_enabled,
            FramePart::SliceMap => e.view.slice.mode_enabled,
            FramePart::BatterBermRequest => e.batter_berm_dialog_wanted(),
            FramePart::BatterBermDialog => e.geometry.batter_berm.dialog_open,
            FramePart::RelimitRequest => e.relimit_dialog_wanted(),
            FramePart::RelimitDialog => e.geometry.relimit.dialog_open,
            FramePart::RelimitEnd => e.geometry.relimit.resize_end_px.is_some(),
            FramePart::RelimitPreview => e.geometry.relimit.confirming_end && e.geometry.relimit.preview_from_px.is_some() && e.geometry.relimit.preview_to_px.is_some(),
            FramePart::TextEdit => e.drawing.text.editing_enabled,
            FramePart::FinishPolyline => e.drawing.stroke.poly_finish_dialog,
            FramePart::OrbitMarker => c.orbit_marker,
            FramePart::RotationCentre => c.rotation_centre,
            FramePart::OrientationGizmo => e.preferences.interface.show_world_axis_gizmo,
            FramePart::CutLabels => e.is_planning_cut_step(),
            FramePart::ScaleBar => e.preferences.interface.show_scale_bar,
            FramePart::SolidsDetails => e.is_solids_view(),
            FramePart::PlanningDetails => !e.is_solids_view(),
            _ => true,
        }
    }

    /// The command that drawing a part asks for by itself.
    pub open spec fn request(self) -> Seq<UiCommand> {
        match self {
            FramePart::OffsetRequest => seq![UiCommand::OpenOffsetDialog],
            FramePart::BatterBermRequest => seq![UiCommand::OpenBatterBermDialog],
            FramePart::RelimitRequest => seq![UiCommand::OpenRelimitDialog],
            _ => Seq::empty(),
        }
    }

    /// Ask for what the part asks for, where it is drawn. Whether it is drawn.
    pub fn take_turn(self, e: &EditorState, c: &FrameContext, commands: &mut Vec<UiCommand>) -> (r: bool)
        ensures
            r == self.is_drawn(e, *c),
            r ==> final(commands)@ == old(commands)@ + self.request(),
            !r ==> final(commands)@ == old(commands)@,
    {
        if !self.drawn(e, c) {
            return false;
        }
        match self {
            FramePart::OffsetRequest => commands.push(UiCommand::OpenOffsetDialog),
            FramePart::BatterBermRequest => commands.push(UiCommand::OpenBatterBermDialog),
            FramePart::RelimitRequest => commands.push(UiCommand::OpenRelimitDialog),
            _ => {},
        }
        assert(commands@ =~= old(commands)@ + self.request());
        true
    }
}

/// How many parts there are.
pub const SETUP_PARTS: usize = 8;

impl FramePart {
    /// The place of a part in a window that planning owns: the parts are drawn in this order.
    pub open spec fn setup_part_place(self) -> Option<int> {
        match self {
            FramePart::SolidsDetails => Some(0int),
            FramePart::PlanningDetails => Some(1int),
            FramePart::About => Some(2int),
            FramePart::Preferences => Some(3int),
            FramePart::Rename => Some(4int),
            FramePart::CreateProject => Some(5int),
            FramePart::SelectProject => Some(6int),
            FramePart::GlobalDialogs => Some(7int),
            _ => None,
        }
    }

    /// The part at a place, first one at 0.
    pub fn setup_part(place: usize) -> (r: Option<FramePart>)
        ensures
            r is None <==> place >= SETUP_PARTS,
            r matches Some(part) ==> part.setup_part_place() == Some(place as int),
    {
        match place {
            0 => Some(FramePart::SolidsDetails),
            1 => Some(FramePart::PlanningDetails),
            2 => Some(FramePart::About),
            3 => Some(FramePart::Preferences),
            4 => Some(FramePart::Rename),
            5 => Some(FramePart::CreateProject),
            6 => Some(FramePart::SelectProject),
            7 => Some(FramePart::GlobalDialogs),
            _ => None,
        }
    }
}

/// How many parts there are.
pub const SCENE_PARTS: usize = 56;

impl FramePart {
    /// The place of a part in a window with a scene: the parts are drawn in this order.
    pub open spec fn scene_part_place(self) -> Option<int> {
        match self {
            FramePart::SectionGrid => Some(0int),
            FramePart::InitiationCards => Some(1int),
            FramePart::SelectionBox => Some(2int),
            FramePart::TriangulationConflict => Some(3int),
            FramePart::MoveGizmo => Some(4int),
            FramePart::MovePanel => Some(5int),
            FramePart::RotateGizmo => Some(6int),
            FramePart::RotatePanel => Some(7int),
            FramePart::ChamferHover => Some(8int),
            FramePart::ChamferGizmo => Some(9int),
            FramePart::ChamferPreview => Some(10int),
            FramePart::ChamferPanel => Some(11int),
            FramePart::SplitMarkers => Some(12int),
            FramePart::BezierVertices => Some(13int),
            FramePart::BezierPreview => Some(14int),
            FramePart::BezierHandles => Some(15int),
            FramePart::BezierPanel => Some(16int),
            FramePart::SelectProject => Some(17int),
            FramePart::VerticalExaggeration => Some(18int),
            FramePart::GridOptions => Some(19int),
            FramePart::MoveToLayer => Some(20int),
            FramePart::MoveToAxis => Some(21int),
            FramePart::InsertPointAtElevation => Some(22int),
            FramePart::ObjectEdit => Some(23int),
            FramePart::About => Some(24int),
            FramePart::Preferences => Some(25int),
            FramePart::BlockModelControls => Some(26int),
            FramePart::ContextMenu => Some(27int),
            FramePart::CircleRadius => Some(28int),
            FramePart::CreateProject => Some(29int),
            FramePart::NewProduct => Some(30int),
            FramePart::Initiation => Some(31int),
            FramePart::CreateLayer => Some(32int),
            FramePart::Rename => Some(33int),
            FramePart::DrapePanel => Some(34int),
            FramePart::OffsetRequest => Some(35int),
            FramePart::OffsetDialog => Some(36int),
            FramePart::OffsetPreview => Some(37int),
            FramePart::ToolLabel => Some(38int),
            FramePart::SlicePanel => Some(39int),
            FramePart::SliceMap => Some(40int),
            FramePart::BatterBermRequest => Some(41int),
            FramePart::BatterBermDialog => Some(42int),
            FramePart::RelimitRequest => Some(43int),
            FramePart::RelimitDialog => Some(44int),
            FramePart::RelimitEnd => Some(45int),
            FramePart::RelimitPreview => Some(46int),
            FramePart::TextEdit => Some(47int),
            FramePart::FinishPolyline => Some(48int),
            FramePart::OrbitMarker => Some(49int),
            FramePart::RotationCentre => Some(50int),
            FramePart::OrientationGizmo => Some(51int),
            FramePart::CutLabels => Some(52int),
            FramePart::ToolCursor => Some(53int),
            FramePart::ScaleBar => Some(54int),
            FramePart::GlobalDialogs => Some(55int),
            _ => None,
        }
    }

    /// The part at a place, first one at 0.
    pub fn scene_part(place: usize) -> (r: Option<FramePart>)
        ensures
            r is None <==> place >= SCENE_PARTS,
            r matches Some(part) ==> part.scene_part_place() == Some(place as int),
    {
        match place {
            0 => Some(FramePart::SectionGrid),
            1 => Some(FramePart::InitiationCards),
            2 => Some(FramePart::SelectionBox),
            3 => Some(FramePart::TriangulationConflict),
            4 => Some(FramePart::MoveGizmo),
            5 => Some(FramePart::MovePanel),
            6 => Some(FramePart::RotateGizmo),
            7 => Some(FramePart::RotatePanel),
            8 => Some(FramePart::ChamferHover),
            9 => Some(FramePart::ChamferGizmo),
            10 => Some(FramePart::ChamferPreview),
            11 => Some(FramePart::ChamferPanel),
            12 => Some(FramePart::SplitMarkers),
            13 => Some(FramePart::BezierVertices),
            14 => Some(FramePart::BezierPreview),
            15 => Some(FramePart::BezierHandles),
            16 => Some(FramePart::BezierPanel),
            17 => Some(FramePart::SelectProject),
            18 => Some(FramePart::VerticalExaggeration),
            19 => Some(FramePart::GridOptions),
            20 => Some(FramePart::MoveToLayer),
            21 => Some(FramePart::MoveToAxis),
            22 => Some(FramePart::InsertPointAtElevation),
            23 => Some(FramePart::ObjectEdit),
            24 => Some(FramePart::About),
            25 => Some(FramePart::Preferences),
            26 => Some(FramePart::BlockModelControls),
            27 => Some(FramePart::ContextMenu),
            28 => Some(FramePart::CircleRadius),
            29 => Some(FramePart::CreateProject),
            30 => Some(FramePart::NewProduct),
            31 => Some(FramePart::Initiation),
            32 => Some(FramePart::CreateLayer),
            33 => Some(FramePart::Rename),
            34 => Some(FramePart::DrapePanel),
            35 => Some(FramePart::OffsetRequest),
            36 => Some(FramePart::OffsetDialog),
            37 => Some(FramePart::OffsetPreview),
            38 => Some(FramePart::ToolLabel),
            39 => Some(FramePart::SlicePanel),
            40 => Some(FramePart::SliceMap),
            41 => Some(FramePart::BatterBermRequest),
            42 => Some(FramePart::BatterBermDialog),
            43 => Some(FramePart::RelimitRequest),
            44 => Some(FramePart::RelimitDialog),
            45 => Some(FramePart::RelimitEnd),
            46 => Some(FramePart::RelimitPreview),
            47 => Some(FramePart::TextEdit),
            48 => Some(FramePart::FinishPolyline),
            49 => Some(FramePart::OrbitMarker),
            50 => Some(FramePart::RotationCentre),
            51 => Some(FramePart::OrientationGizmo),
            52 => Some(FramePart::CutLabels),
            53 => Some(FramePart::ToolCursor),
            54 => Some(FramePart::ScaleBar),
            55 => Some(FramePart::GlobalDialogs),
            _ => None,
        }
    }
}

/// A dialog over the whole window, open whatever the workspace.
#[derive(Clone, Copy, Debug, PartialEq, Eq, Structural)]
pub enum GlobalDialog {
    DrillHoleColors,
    DrillPattern,
    Exit,
    ReplaceProject,
    LossySave,
    DeleteSelection,
    DeleteLayer,
    DeleteItem,
    DeleteProduct,
    CloseProject,
    DiscardProject,
    DiscardLayer,
    CreateTriangulation,
    CreateTriangulationFailure,
    CutByPolyline,
    CutByZ,
    CutBySurface,
    BuildSolid,
    CutToPitShell,
    IncludeSolid,
    Contour,
    PointCloudTin,
    /// What a parked dialog waits for.
    TriangulationPick,
    CreateBlockModel,
    OreTriangulation,
    Plot,
    Import,
    Export,
}

impl GlobalDialog {
    /// The dialog is drawn in this state.
    pub open spec fn is_drawn(self, e: &EditorState, platform: Platform) -> bool {
        match self {
            GlobalDialog::Exit => e.project.lifecycle.exit_confirm_open,
            GlobalDialog::ReplaceProject => e.project.lifecycle.replace_project_confirm_open,
            GlobalDialog::LossySave => e.project.lifecycle.lossy_save_confirm_open,
            GlobalDialog::DeleteSelection => e.project.lifecycle.delete_confirm_open,
            GlobalDialog::DeleteLayer => e.project.dialogs.pending_delete_layer is Some,
            GlobalDialog::DeleteItem => e.project.dialogs.pending_delete_item is Some,
            GlobalDialog::DeleteProduct => e.blasting.products.pending_delete is Some,
            GlobalDialog::CloseProject => e.project.lifecycle.pending_close_project is Some,
            GlobalDialog::DiscardProject => e.project.lifecycle.pending_discard_project is Some && platform is Desktop,
            GlobalDialog::DiscardLayer => e.project.dialogs.pending_discard_layer is Some && platform is Desktop,
            GlobalDialog::CreateTriangulation => e.triangulation.create.open,
            GlobalDialog::CreateTriangulationFailure => e.triangulation.create.failure is Some,
            GlobalDialog::CutByPolyline => e.triangulation.cut_poly.open,
            GlobalDialog::CutByZ => e.triangulation.cut_z.open,
            GlobalDialog::CutBySurface => e.triangulation.cut_surface.open,
            GlobalDialog::BuildSolid => e.triangulation.build_solid.open,
            GlobalDialog::CutToPitShell => e.triangulation.cut_pitshell.open,
            GlobalDialog::IncludeSolid => e.triangulation.include_solid.open,
            GlobalDialog::Contour => e.triangulation.contour.open,
            GlobalDialog::PointCloudTin => e.triangulation.tin.open,
            GlobalDialog::TriangulationPick => e.triangulation.create.pick_target is Some,
            GlobalDialog::CreateBlockModel => e.modelling.kriging.open,
            GlobalDialog::OreTriangulation => e.modelling.ore.open,
            GlobalDialog::Plot => e.project.transfer.plot_dialog is Some,
            _ => true,
        }
    }

    /// Whether the dialog is drawn in this state.
    pub fn drawn(self, e: &EditorState, platform: Platform) -> (r: bool)
        ensures
            r == self.is_drawn(e, platform),
    {
        match self {
            GlobalDialog::Exit => e.project.lifecycle.exit_confirm_open,
            GlobalDialog::ReplaceProject => e.project.lifecycle.replace_project_confirm_open,
            GlobalDialog::LossySave => e.project.lifecycle.lossy_save_confirm_open,
            GlobalDialog::DeleteSelection => e.project.lifecycle.delete_confirm_open,
            GlobalDialog::DeleteLayer => e.project.dialogs.pending_delete_layer.is_some(),
            GlobalDialog::DeleteItem => e.project.dialogs.pending_delete_item.is_some(),
            GlobalDialog::DeleteProduct => e.blasting.products.pending_delete.is_some(),
            GlobalDialog::CloseProject => e.project.lifecycle.pending_close_project.is_some(),
            GlobalDialog::DiscardProject => e.project.lifecycle.pending_discard_project.is_some() && platform == Platform::Desktop,
            GlobalDialog::DiscardLayer => e.project.dialogs.pending_discard_layer.is_some() && platform == Platform::Desktop,
            GlobalDialog::CreateTriangulation => e.triangulation.create.open,
            GlobalDialog::CreateTriangulationFailure => e.triangulation.create.failure.is_some(),
            GlobalDialog::CutByPolyline => e.triangulation.cut_poly.open,
            GlobalDialog::CutByZ => e.triangulation.cut_z.open,
            GlobalDialog::CutBySurface => e.triangulation.cut_surface.open,
            GlobalDialog::BuildSolid => e.triangulation.build_solid.open,
            GlobalDialog::CutToPitShell => e.triangulation.cut_pitshell.open,
            GlobalDialog::IncludeSolid => e.triangulation.include_solid.open,
            GlobalDialog::Contour => e.triangulation.contour.open,
            GlobalDialog::PointCloudTin => e.triangulation.tin.open,
            GlobalDialog::TriangulationPick => e.triangulation.create.pick_target.is_some(),
            GlobalDialog::CreateBlockModel => e.modelling.kriging.open,
            GlobalDialog::OreTriangulation => e.modelling.ore.open,
            GlobalDialog::Plot => e.project.transfer.plot_dialog.is_some(),
            _ => true,
        }
    }

    /// Whether drawing the dialog marks the geometry for a rebuild by itself:
    /// while a triangulation is being set up, in every frame.
    pub fn rebuilds_geometry(self) -> (r: bool)
        ensures
            r == (self is CreateTriangulation),
    {
        self == GlobalDialog::CreateTriangulation
    }
}

/// How many parts there are.
pub const GLOBAL_DIALOGS: usize = 28;

impl GlobalDialog {
    /// The place of a dialog among those over the window: they are drawn in this order.
    pub open spec fn global_dialog_place(self) -> Option<int> {
        match self {
            GlobalDialog::DrillHoleColors => Some(0int),
            GlobalDialog::DrillPattern => Some(1int),
            GlobalDialog::Exit => Some(2int),
            GlobalDialog::ReplaceProject => Some(3int),
            GlobalDialog::LossySave => Some(4int),
            GlobalDialog::DeleteSelection => Some(5int),
            GlobalDialog::DeleteLayer => Some(6int),
            GlobalDialog::DeleteItem => Some(7int),
            GlobalDialog::DeleteProduct => Some(8int),
            GlobalDialog::CloseProject => Some(9int),
            GlobalDialog::DiscardProject => Some(10int),
            GlobalDialog::DiscardLayer => Some(11int),
            GlobalDialog::CreateTriangulation => Some(12int),
            GlobalDialog::CreateTriangulationFailure => Some(13int),
            GlobalDialog::CutByPolyline => Some(14int),
            GlobalDialog::CutByZ => Some(15int),
            GlobalDialog::CutBySurface => Some(16int),
            GlobalDialog::BuildSolid => Some(17int),
            GlobalDialog::CutToPitShell => Some(18int),
            GlobalDialog::IncludeSolid => Some(19int),
            GlobalDialog::Contour => Some(20int),
            GlobalDialog::PointCloudTin => Some(21int),
            GlobalDialog::TriangulationPick => Some(22int),
            GlobalDialog::CreateBlockModel => Some(23int),
            GlobalDialog::OreTriangulation => Some(24int),
            GlobalDialog::Plot => Some(25int),
            GlobalDialog::Import => Some(26int),
            GlobalDialog::Export => Some(27int),
        }
    }

    /// The part at a place, first one at 0.
    pub fn global_dialog(place: usize) -> (r: Option<GlobalDialog>)
        ensures
            r is None <==> place >= GLOBAL_DIALOGS,
            r matches Some(part) ==> part.global_dialog_place() == Some(place as int),
    {
        match place {
            0 => Some(GlobalDialog::DrillHoleColors),
            1 => Some(GlobalDialog::DrillPattern),
            2 => Some(GlobalDialog::Exit),
            3 => Some(GlobalDialog::ReplaceProject),
            4 => Some(GlobalDialog::LossySave),
            5 => Some(GlobalDialog::DeleteSelection),
            6 => Some(GlobalDialog::DeleteLayer),
            7 => Some(GlobalDialog::DeleteItem),
            8 => Some(GlobalDialog::DeleteProduct),
            9 => Some(GlobalDialog::CloseProject),
            10 => Some(GlobalDialog::DiscardProject),
            11 => Some(GlobalDialog::DiscardLayer),
            12 => Some(GlobalDialog::CreateTriangulation),
            13 => Some(GlobalDialog::CreateTriangulationFailure),
            14 => Some(GlobalDialog::CutByPolyline),
            15 => Some(GlobalDialog::CutByZ),
            16 => Some(GlobalDialog::CutBySurface),
            17 => Some(GlobalDialog::BuildSolid),
            18 => Some(GlobalDialog::CutToPitShell),
            19 => Some(GlobalDialog::IncludeSolid),
            20 => Some(GlobalDialog::Contour),
            21 => Some(GlobalDialog::PointCloudTin),
            22 => Some(GlobalDialog::TriangulationPick),
            23 => Some(GlobalDialog::CreateBlockModel),
            24 => Some(GlobalDialog::OreTriangulation),
            25 => Some(GlobalDialog::Plot),
            26 => Some(GlobalDialog::Import),
            27 => Some(GlobalDialog::Export),
            _ => None,
        }
    }
}


impl GlobalDialog {
    /// The dialog is drawn only where the state opens it, and answers to keys.
    pub open spec fn is_modal(self) -> bool {
        !(self is DrillHoleColors || self is DrillPattern || self is Import || self is Export || self is TriangulationPick)
    }
}

/// A frame asks for at most one tool's dialog.
pub proof fn frame_asks_for_one_dialog(editor: EditorState)
    ensures
        !(editor.wants_offset_dialog() && editor.wants_batter_berm_dialog()),
        !(editor.wants_offset_dialog() && editor.wants_relimit_dialog()),
        !(editor.wants_batter_berm_dialog() && editor.wants_relimit_dialog()),
{
}

/// A tool asks for its dialog only while that dialog is closed.
pub proof fn requests_open_closed_dialogs(editor: EditorState, context: FrameContext)
    ensures
        !(FramePart::OffsetRequest.is_drawn(&editor, context) && FramePart::OffsetDialog.is_drawn(&editor, context)),
        !(FramePart::BatterBermRequest.is_drawn(&editor, context) && FramePart::BatterBermDialog.is_drawn(&editor, context)),
        !(FramePart::RelimitRequest.is_drawn(&editor, context) && FramePart::RelimitDialog.is_drawn(&editor, context)),
{
}

/// No two parts share a place, neither in a scene nor in a window that planning
/// owns, and no two dialogs and no two panels do.
pub proof fn places_are_distinct(a: FramePart, b: FramePart, c: GlobalDialog, d: GlobalDialog, e: Panel, f: Panel)
    ensures
        e.panel_place() == f.panel_place() ==> e == f,
        a.scene_part_place() is Some && a.scene_part_place() == b.scene_part_place() ==> a == b,
        a.setup_part_place() is Some && a.setup_part_place() == b.setup_part_place() ==> a == b,
        c.global_dialog_place() == d.global_dialog_place() ==> c == d,
{
}

/// In a scene the section grid is under everything else, and only the scale bar
/// and the dialogs over the whole window follow the drawn cursor.
pub proof fn scene_parts_are_stacked(part: FramePart)
    requires
        part.scene_part_place() is Some,
    ensures
        part is SectionGrid || FramePart::SectionGrid.scene_part_place()->0 < part.scene_part_place()->0,
        FramePart::ToolCursor.scene_part_place()->0 < part.scene_part_place()->0 <==> part is ScaleBar || part is GlobalDialogs,
{
}

/// A modal dialog that is drawn over the window keeps Enter and Escape from the
/// tool under it, unless the viewport is being asked for a pick.
pub proof fn drawn_dialogs_own_the_keys(editor: EditorState, dialog: GlobalDialog, platform: Platform)
    requires
        dialog.is_modal(),
        dialog.is_drawn(&editor, platform),
    ensures
        editor.pick_in_progress() || (editor.confirm_key_owned() && editor.cancel_key_owned()),
{
}

impl EditorState {
    /// Some state of a modal dialog over the window is open. The browser has no saved file
    /// to go back to, and so no dialog that discards changes.
    pub open spec fn window_dialog_open(self, platform: Platform) -> bool {
        ||| self.project.lifecycle.exit_confirm_open
        ||| self.project.lifecycle.replace_project_confirm_open
        ||| self.project.lifecycle.lossy_save_confirm_open
        ||| self.project.lifecycle.delete_confirm_open
        ||| self.project.dialogs.pending_delete_layer is Some
        ||| self.project.dialogs.pending_delete_item is Some
        ||| self.blasting.products.pending_delete is Some
        ||| self.project.lifecycle.pending_close_project is Some
        ||| platform is Desktop && self.project.lifecycle.pending_discard_project is Some
        ||| platform is Desktop && self.project.dialogs.pending_discard_layer is Some
        ||| self.project.transfer.plot_dialog is Some
        ||| self.modelling_dialog_open()
    }
}

/// Modal state over the window is never hidden: where it is open, a dialog is drawn for it,
/// and each dialog that makes or edits triangulations and block models is drawn for its own.
pub proof fn open_dialogs_are_drawn(editor: EditorState, platform: Platform)
    ensures
        editor.window_dialog_open(platform) <==> exists|dialog: GlobalDialog|
            dialog.is_modal() && #[trigger] dialog.is_drawn(&editor, platform),
        GlobalDialog::CreateTriangulation.is_drawn(&editor, platform) == editor.triangulation.create.open,
        GlobalDialog::CreateTriangulationFailure.is_drawn(&editor, platform) == (editor.triangulation.create.failure is Some),
        GlobalDialog::CutByPolyline.is_drawn(&editor, platform) == editor.triangulation.cut_poly.open,
        GlobalDialog::CutByZ.is_drawn(&editor, platform) == editor.triangulation.cut_z.open,
        GlobalDialog::CutBySurface.is_drawn(&editor, platform) == editor.triangulation.cut_surface.open,
        GlobalDialog::BuildSolid.is_drawn(&editor, platform) == editor.triangulation.build_solid.open,
        GlobalDialog::CutToPitShell.is_drawn(&editor, platform) == editor.triangulation.cut_pitshell.open,
        GlobalDialog::IncludeSolid.is_drawn(&editor, platform) == editor.triangulation.include_solid.open,
        GlobalDialog::Contour.is_drawn(&editor, platform) == editor.triangulation.contour.open,
        GlobalDialog::PointCloudTin.is_drawn(&editor, platform) == editor.triangulation.tin.open,
        GlobalDialog::CreateBlockModel.is_drawn(&editor, platform) == editor.modelling.kriging.open,
        GlobalDialog::OreTriangulation.is_drawn(&editor, platform) == editor.modelling.ore.open,
{
    if editor.window_dialog_open(platform) {
        let shown = if editor.project.lifecycle.exit_confirm_open {
            GlobalDialog::Exit
        } else if editor.project.lifecycle.replace_project_confirm_open {
            GlobalDialog::ReplaceProject
        } else if editor.project.lifecycle.lossy_save_confirm_open {
            GlobalDialog::LossySave
        } else if editor.project.lifecycle.delete_confirm_open {
            GlobalDialog::DeleteSelection
        } else if editor.project.dialogs.pending_delete_layer is Some {
            GlobalDialog::DeleteLayer
        } else if editor.project.dialogs.pending_delete_item is Some {
            GlobalDialog::DeleteItem
        } else if editor.blasting.products.pending_delete is Some {
            GlobalDialog::DeleteProduct
        } else if editor.project.lifecycle.pending_close_project is Some {
            GlobalDialog::CloseProject
        } else if platform is Desktop && editor.project.lifecycle.pending_discard_project is Some {
            GlobalDialog::DiscardProject
        } else if platform is Desktop && editor.project.dialogs.pending_discard_layer is Some {
            GlobalDialog::DiscardLayer
        } else if editor.project.transfer.plot_dialog is Some {
            GlobalDialog::Plot
        } else if editor.triangulation.create.open {
            GlobalDialog::CreateTriangulation
        } else if editor.triangulation.create.failure is Some {
            GlobalDialog::CreateTriangulationFailure
        } else if editor.triangulation.cut_poly.open {
            GlobalDialog::CutByPolyline
        } else if editor.triangulation.cut_z.open {
            GlobalDialog::CutByZ
        } else if editor.triangulation.cut_surface.open {
            GlobalDialog::CutBySurface
        } else if editor.triangulation.build_solid.open {
            GlobalDialog::BuildSolid
        } else if editor.triangulation.cut_pitshell.open {
            GlobalDialog::CutToPitShell
        } else if editor.triangulation.include_solid.open {
            GlobalDialog::IncludeSolid
        } else if editor.triangulation.contour.open {
            GlobalDialog::Contour
        } else if editor.triangulation.tin.open {
            GlobalDialog::PointCloudTin
        } else if editor.modelling.kriging.open {
            GlobalDialog::CreateBlockModel
        } else {
            GlobalDialog::OreTriangulation
        };
        assert(shown.is_modal() && shown.is_drawn(&editor, platform));
    }
}

/// The right edge holds the panel of the cut in hand before that of the planning viewport, and
/// that before the products of Drill & Blast. The other workspaces have none there.
pub proof fn islands_belong_to_their_place(editor: EditorState)
    ensures
        editor.island() == Some(Island::DigStrips) <==> editor.on_cut_step() && editor.on_setup_step(
            crate::workspace::SolidsStep::DigStrips,
        ),
        editor.island() == Some(Island::Blasts) <==> editor.on_cut_step() && !editor.on_setup_step(
            crate::workspace::SolidsStep::DigStrips,
        ),
        editor.island() == Some(Island::ReserveData) <==> !editor.on_cut_step() && editor.frames_viewport(),
        editor.island() == Some(Island::Products) ==> editor.workspace.active is DrillAndBlast,
        editor.workspace.active is Production || editor.workspace.active is Geology ==> editor.island() is None,
        editor.workspace.active is DrillAndBlast ==> editor.island() == Some(Island::Products),
        editor.workspace.active is Planning ==> editor.island() != Some(Island::Products),
{
}

/// The menu, the status bar, the bar of the viewport and the explorer are always there. The
/// console is there where it is asked for, and the tools and the island where planning does
/// not own the window.
pub proof fn panels_are_claimed_when_asked_for(editor: EditorState, panel: Panel)
    ensures
        panel is MainMenu || panel is StatusBar || panel is ViewportBar || panel is Explorer ==> panel.is_claimed(&editor),
        Panel::Console.is_claimed(&editor) == editor.preferences.interface.show_console,
        Panel::LeftToolbar.is_claimed(&editor) == Panel::BottomToolbar.is_claimed(&editor),
        Panel::BottomToolbar.is_claimed(&editor) != editor.owns_window(),
        Panel::Island.is_claimed(&editor) ==> Panel::LeftToolbar.is_claimed(&editor) && editor.island() is Some,
        !editor.owns_window() && editor.island() is Some ==> Panel::Island.is_claimed(&editor),
{
}

/// What belongs to a tool is drawn only while that tool is in hand.
pub proof fn tool_parts_are_drawn_with_their_tool(editor: EditorState, context: FrameContext, part: FramePart)
    requires
        part.is_drawn(&editor, context),
    ensures
        part is ChamferHover || part is ChamferGizmo || part is ChamferPreview || part is ChamferPanel ==> editor.drawing.tools.active_tool
            is Chamfer,
        part is BezierVertices || part is BezierPreview || part is BezierHandles || part is BezierPanel ==> editor.drawing.tools.active_tool
            is Bezier,
        part is SplitMarkers ==> editor.drawing.tools.active_tool is SplitAtPoints,
        part is DrapePanel ==> editor.drawing.tools.active_tool is DrapeToTopology,
        part is CircleRadius ==> editor.drawing.tools.active_tool is MakeCircle && editor.drawing.stroke.circle_draft is Some
            && editor.drawing.cursor.screen_px is Some,
        part is OffsetRequest ==> editor.drawing.tools.active_tool is OffsetElement && !editor.geometry.offset.dialog_open
            && !editor.geometry.offset.awaiting_side_pick,
        part is BatterBermRequest ==> editor.drawing.tools.active_tool is BatterBermOffset && !editor.geometry.batter_berm.dialog_open,
        part is RelimitRequest ==> editor.drawing.tools.active_tool is RelimitLine && !editor.geometry.relimit.dialog_open
            && !editor.geometry.relimit.awaiting_source_pick && !editor.geometry.relimit.waiting_for_pick
            && !editor.geometry.relimit.confirming_end,
        part is MoveGizmo || part is MovePanel ==> editor.spec_move_tool_has_targets(),
        part is RotateGizmo || part is RotatePanel ==> editor.spec_rotate_tool_has_targets(),
        part is ChamferHover ==> editor.geometry.chamfer.hover_corner_px is Some,
        part is ChamferGizmo ==> editor.geometry.chamfer.gizmo_corner_px is Some,
        part is ChamferPreview ==> editor.geometry.chamfer.preview_screen_px@.len() > 0,
        part is BezierPreview ==> editor.geometry.bezier.preview_screen_px@.len() > 0,
        part is BezierHandles ==> editor.geometry.bezier.cp1_screen_px is Some && editor.geometry.bezier.cp2_screen_px is Some,
        part is BezierPanel ==> editor.geometry.bezier.dialog_open,
{
}

/// A tool in hand shows its panel, its markers and whatever of it has been projected, and one
/// whose dialog is neither open nor put aside for a pick asks for it.
pub proof fn tools_in_hand_show_their_parts(editor: EditorState, context: FrameContext)
    ensures
        editor.drawing.tools.active_tool is Chamfer ==> {
            &&& FramePart::ChamferPanel.is_drawn(&editor, context)
            &&& editor.geometry.chamfer.hover_corner_px is Some ==> FramePart::ChamferHover.is_drawn(&editor, context)
            &&& editor.geometry.chamfer.gizmo_corner_px is Some ==> FramePart::ChamferGizmo.is_drawn(&editor, context)
            &&& editor.geometry.chamfer.preview_screen_px@.len() > 0 ==> FramePart::ChamferPreview.is_drawn(&editor, context)
        },
        editor.drawing.tools.active_tool is Bezier ==> {
            &&& FramePart::BezierVertices.is_drawn(&editor, context)
            &&& editor.geometry.bezier.dialog_open ==> FramePart::BezierPanel.is_drawn(&editor, context)
            &&& editor.geometry.bezier.preview_screen_px@.len() > 0 ==> FramePart::BezierPreview.is_drawn(&editor, context)
            &&& editor.geometry.bezier.cp1_screen_px is Some && editor.geometry.bezier.cp2_screen_px is Some
                ==> FramePart::BezierHandles.is_drawn(&editor, context)
        },
        editor.drawing.tools.active_tool is SplitAtPoints ==> FramePart::SplitMarkers.is_drawn(&editor, context),
        editor.drawing.tools.active_tool is DrapeToTopology ==> FramePart::DrapePanel.is_drawn(&editor, context),
        editor.drawing.tools.active_tool is MakeCircle && editor.drawing.stroke.circle_draft is Some && editor.drawing.cursor.screen_px is Some
            ==> FramePart::CircleRadius.is_drawn(&editor, context),
        editor.drawing.tools.active_tool is OffsetElement && !editor.geometry.offset.dialog_open
            && !editor.geometry.offset.awaiting_side_pick ==> FramePart::OffsetRequest.is_drawn(&editor, context),
        editor.drawing.tools.active_tool is BatterBermOffset && !editor.geometry.batter_berm.dialog_open
            ==> FramePart::BatterBermRequest.is_drawn(&editor, context),
        editor.drawing.tools.active_tool is RelimitLine && !editor.geometry.relimit.dialog_open && !editor.geometry.relimit.awaiting_source_pick
            && !editor.geometry.relimit.waiting_for_pick && !editor.geometry.relimit.confirming_end
            ==> FramePart::RelimitRequest.is_drawn(&editor, context),
        editor.spec_move_tool_has_targets() ==> FramePart::MoveGizmo.is_drawn(&editor, context) && FramePart::MovePanel.is_drawn(
            &editor,
            context,
        ),
        editor.spec_rotate_tool_has_targets() ==> FramePart::RotateGizmo.is_drawn(&editor, context) && FramePart::RotatePanel.is_drawn(
            &editor,
            context,
        ),
{
}

/// Every other part that is not always there is drawn exactly while what it shows is there.
pub proof fn parts_are_drawn_with_what_they_show(editor: EditorState, context: FrameContext)
    ensures
        FramePart::InitiationCards.is_drawn(&editor, context) <==> editor.workspace.active is DrillAndBlast,
        FramePart::SelectionBox.is_drawn(&editor, context) <==> editor.drawing.cursor.box_start_px is Some
            && editor.drawing.cursor.box_current_px is Some,
        FramePart::TriangulationConflict.is_drawn(&editor, context) <==> editor.triangulation.create.failure is Some
            && editor.triangulation.create.diagnostic_segments_px@.len() + editor.triangulation.create.diagnostic_markers_px@.len() > 0,
        FramePart::ContextMenu.is_drawn(&editor, context) <==> editor.drawing.canvas.context_menu_open
            && editor.drawing.canvas.context_menu_px is Some,
        FramePart::CreateLayer.is_drawn(&editor, context) <==> editor.project.dialogs.new_layer_open,
        FramePart::Rename.is_drawn(&editor, context) <==> editor.project.dialogs.renaming_item is Some,
        FramePart::OffsetDialog.is_drawn(&editor, context) <==> editor.geometry.offset.dialog_open,
        FramePart::OffsetPreview.is_drawn(&editor, context) <==> editor.geometry.offset.awaiting_side_pick
            && editor.geometry.offset_preview.screen_px@.len() > 0,
        FramePart::BatterBermDialog.is_drawn(&editor, context) <==> editor.geometry.batter_berm.dialog_open,
        FramePart::RelimitDialog.is_drawn(&editor, context) <==> editor.geometry.relimit.dialog_open,
        FramePart::RelimitEnd.is_drawn(&editor, context) <==> editor.geometry.relimit.resize_end_px is Some,
        FramePart::RelimitPreview.is_drawn(&editor, context) <==> editor.geometry.relimit.confirming_end
            && editor.geometry.relimit.preview_from_px is Some && editor.geometry.relimit.preview_to_px is Some,
        FramePart::TextEdit.is_drawn(&editor, context) <==> editor.drawing.text.editing_enabled,
        FramePart::FinishPolyline.is_drawn(&editor, context) <==> editor.drawing.stroke.poly_finish_dialog,
        FramePart::SlicePanel.is_drawn(&editor, context) <==> editor.view.slice.mode_enabled,
        FramePart::SliceMap.is_drawn(&editor, context) <==> editor.view.slice.mode_enabled,
        FramePart::ToolLabel.is_drawn(&editor, context) <==> editor.prompt(context.readings) is Some,
        FramePart::OrbitMarker.is_drawn(&editor, context) <==> context.orbit_marker,
        FramePart::RotationCentre.is_drawn(&editor, context) <==> context.rotation_centre,
        FramePart::OrientationGizmo.is_drawn(&editor, context) <==> editor.preferences.interface.show_world_axis_gizmo,
        FramePart::ScaleBar.is_drawn(&editor, context) <==> editor.preferences.interface.show_scale_bar,
        FramePart::CutLabels.is_drawn(&editor, context) <==> editor.on_cut_step(),
        FramePart::SolidsDetails.is_drawn(&editor, context) != FramePart::PlanningDetails.is_drawn(&editor, context),
        FramePart::SolidsDetails.is_drawn(&editor, context) <==> editor.shows_solids_view(),
{
}

/// Parts that look for themselves whether they have anything to show have their turn in every
/// frame.
pub proof fn some_parts_are_always_drawn(editor: EditorState, context: FrameContext, part: FramePart, platform: Platform, dialog: GlobalDialog)
    ensures
        part is SectionGrid || part is VerticalExaggeration || part is GridOptions || part is MoveToLayer || part is MoveToAxis
            || part is InsertPointAtElevation || part is ObjectEdit || part is About || part is Preferences || part is BlockModelControls
            || part is NewProduct || part is Initiation || part is ToolCursor || part is GlobalDialogs ==> part.is_drawn(
            &editor,
            context,
        ),
        dialog is DrillHoleColors || dialog is DrillPattern || dialog is Import || dialog is Export ==> dialog.is_drawn(&editor, platform),
{
}

/// A window that has no project shows the splash, but for a project in the browser that is
/// being named, which takes its place: never both, and one of them wherever a project is
/// wanted.
pub proof fn splash_gives_way_to_naming(editor: EditorState, context: FrameContext)
    ensures
        !(FramePart::SelectProject.is_drawn(&editor, context) && FramePart::CreateProject.is_drawn(&editor, context)),
        context.needs_startup_dialog ==> FramePart::SelectProject.is_drawn(&editor, context) || FramePart::CreateProject.is_drawn(
            &editor,
            context,
        ),
        !context.needs_startup_dialog ==> !FramePart::SelectProject.is_drawn(&editor, context),
        FramePart::CreateProject.is_drawn(&editor, context) <==> context.platform is Browser && editor.project.dialogs.new_project_open,
        context.platform is Desktop && context.needs_startup_dialog ==> FramePart::SelectProject.is_drawn(&editor, context),
{
}

/// Each confirmation is drawn for the question that it asks. The browser discards nothing.
pub proof fn confirmations_are_drawn_for_their_question(editor: EditorState, platform: Platform)
    ensures
        GlobalDialog::Exit.is_drawn(&editor, platform) <==> editor.project.lifecycle.exit_confirm_open,
        GlobalDialog::ReplaceProject.is_drawn(&editor, platform) <==> editor.project.lifecycle.replace_project_confirm_open,
        GlobalDialog::LossySave.is_drawn(&editor, platform) <==> editor.project.lifecycle.lossy_save_confirm_open,
        GlobalDialog::DeleteSelection.is_drawn(&editor, platform) <==> editor.project.lifecycle.delete_confirm_open,
        GlobalDialog::DeleteLayer.is_drawn(&editor, platform) <==> editor.project.dialogs.pending_delete_layer is Some,
        GlobalDialog::DeleteItem.is_drawn(&editor, platform) <==> editor.project.dialogs.pending_delete_item is Some,
        GlobalDialog::DeleteProduct.is_drawn(&editor, platform) <==> editor.blasting.products.pending_delete is Some,
        GlobalDialog::CloseProject.is_drawn(&editor, platform) <==> editor.project.lifecycle.pending_close_project is Some,
        GlobalDialog::Plot.is_drawn(&editor, platform) <==> editor.project.transfer.plot_dialog is Some,
        GlobalDialog::TriangulationPick.is_drawn(&editor, platform) <==> editor.triangulation.create.pick_target is Some,
        GlobalDialog::DiscardProject.is_drawn(&editor, Platform::Desktop) <==> editor.project.lifecycle.pending_discard_project is Some,
        GlobalDialog::DiscardLayer.is_drawn(&editor, Platform::Desktop) <==> editor.project.dialogs.pending_discard_layer is Some,
        !GlobalDialog::DiscardProject.is_drawn(&editor, Platform::Browser),
        !GlobalDialog::DiscardLayer.is_drawn(&editor, Platform::Browser),
{
}

/// Drawing a part asks for the dialog of its own tool, once, or for nothing.
pub proof fn requests_are_for_their_own_dialog(part: FramePart)
    ensures
        part.request().len() <= 1,
        part.request().contains(UiCommand::OpenOffsetDialog) <==> part is OffsetRequest,
        part.request().contains(UiCommand::OpenBatterBermDialog) <==> part is BatterBermRequest,
        part.request().contains(UiCommand::OpenRelimitDialog) <==> part is RelimitRequest,
        part.request().len() == 1 <==> part is OffsetRequest || part is BatterBermRequest || part is RelimitRequest,
{
    if part is OffsetRequest || part is BatterBermRequest || part is RelimitRequest {
        assert(part.request().contains(part.request()[0]));
    }
}

/// What spans the window is claimed first, then the column, the strips, the island over them
/// and the tools.
pub proof fn panels_are_claimed_in_order()
    ensures
        Panel::MainMenu.panel_place() == Some(0int),
        Panel::MainMenu.panel_place()->0 + 1 == Panel::StatusBar.panel_place()->0,
        Panel::StatusBar.panel_place()->0 + 1 == Panel::ViewportBar.panel_place()->0,
        Panel::ViewportBar.panel_place()->0 + 1 == Panel::Explorer.panel_place()->0,
        Panel::Explorer.panel_place()->0 + 1 == Panel::Console.panel_place()->0,
        Panel::Console.panel_place()->0 + 1 == Panel::BottomToolbar.panel_place()->0,
        Panel::BottomToolbar.panel_place()->0 + 1 == Panel::Island.panel_place()->0,
        Panel::Island.panel_place()->0 + 1 == Panel::LeftToolbar.panel_place()->0,
        Panel::LeftToolbar.panel_place()->0 + 1 == PANELS,
{
}

/// In a window that planning owns each part follows the one that it is drawn over.
pub proof fn setup_parts_follow_each_other()
    ensures
        FramePart::SolidsDetails.setup_part_place() == Some(0int),
        FramePart::SolidsDetails.setup_part_place()->0 + 1 == FramePart::PlanningDetails.setup_part_place()->0,
        FramePart::PlanningDetails.setup_part_place()->0 + 1 == FramePart::About.setup_part_place()->0,
        FramePart::About.setup_part_place()->0 + 1 == FramePart::Preferences.setup_part_place()->0,
        FramePart::Preferences.setup_part_place()->0 + 1 == FramePart::Rename.setup_part_place()->0,
        FramePart::Rename.setup_part_place()->0 + 1 == FramePart::CreateProject.setup_part_place()->0,
        FramePart::CreateProject.setup_part_place()->0 + 1 == FramePart::SelectProject.setup_part_place()->0,
        FramePart::SelectProject.setup_part_place()->0 + 1 == FramePart::GlobalDialogs.setup_part_place()->0,
        FramePart::GlobalDialogs.setup_part_place()->0 + 1 == SETUP_PARTS,
{
}

/// In a scene each part follows the one that it is drawn over, and none is left out.
pub proof fn scene_parts_follow_each_other()
    ensures
        FramePart::SectionGrid.scene_part_place() == Some(0int),
        FramePart::SectionGrid.scene_part_place()->0 + 1 == FramePart::InitiationCards.scene_part_place()->0,
        FramePart::InitiationCards.scene_part_place()->0 + 1 == FramePart::SelectionBox.scene_part_place()->0,
        FramePart::SelectionBox.scene_part_place()->0 + 1 == FramePart::TriangulationConflict.scene_part_place()->0,
        FramePart::TriangulationConflict.scene_part_place()->0 + 1 == FramePart::MoveGizmo.scene_part_place()->0,
        FramePart::MoveGizmo.scene_part_place()->0 + 1 == FramePart::MovePanel.scene_part_place()->0,
        FramePart::MovePanel.scene_part_place()->0 + 1 == FramePart::RotateGizmo.scene_part_place()->0,
        FramePart::RotateGizmo.scene_part_place()->0 + 1 == FramePart::RotatePanel.scene_part_place()->0,
        FramePart::RotatePanel.scene_part_place()->0 + 1 == FramePart::ChamferHover.scene_part_place()->0,
        FramePart::ChamferHover.scene_part_place()->0 + 1 == FramePart::ChamferGizmo.scene_part_place()->0,
        FramePart::ChamferGizmo.scene_part_place()->0 + 1 == FramePart::ChamferPreview.scene_part_place()->0,
        FramePart::ChamferPreview.scene_part_place()->0 + 1 == FramePart::ChamferPanel.scene_part_place()->0,
        FramePart::ChamferPanel.scene_part_place()->0 + 1 == FramePart::SplitMarkers.scene_part_place()->0,
        FramePart::SplitMarkers.scene_part_place()->0 + 1 == FramePart::BezierVertices.scene_part_place()->0,
        FramePart::BezierVertices.scene_part_place()->0 + 1 == FramePart::BezierPreview.scene_part_place()->0,
        FramePart::BezierPreview.scene_part_place()->0 + 1 == FramePart::BezierHandles.scene_part_place()->0,
        FramePart::BezierHandles.scene_part_place()->0 + 1 == FramePart::BezierPanel.scene_part_place()->0,
        FramePart::BezierPanel.scene_part_place()->0 + 1 == FramePart::SelectProject.scene_part_place()->0,
        FramePart::SelectProject.scene_part_place()->0 + 1 == FramePart::VerticalExaggeration.scene_part_place()->0,
        FramePart::VerticalExaggeration.scene_part_place()->0 + 1 == FramePart::GridOptions.scene_part_place()->0,
        FramePart::GridOptions.scene_part_place()->0 + 1 == FramePart::MoveToLayer.scene_part_place()->0,
        FramePart::MoveToLayer.scene_part_place()->0 + 1 == FramePart::MoveToAxis.scene_part_place()->0,
        FramePart::MoveToAxis.scene_part_place()->0 + 1 == FramePart::InsertPointAtElevation.scene_part_place()->0,
        FramePart::InsertPointAtElevation.scene_part_place()->0 + 1 == FramePart::ObjectEdit.scene_part_place()->0,
        FramePart::ObjectEdit.scene_part_place()->0 + 1 == FramePart::About.scene_part_place()->0,
        FramePart::About.scene_part_place()->0 + 1 == FramePart::Preferences.scene_part_place()->0,
        FramePart::Preferences.scene_part_place()->0 + 1 == FramePart::BlockModelControls.scene_part_place()->0,
        FramePart::BlockModelControls.scene_part_place()->0 + 1 == FramePart::ContextMenu.scene_part_place()->0,
        FramePart::ContextMenu.scene_part_place()->0 + 1 == FramePart::CircleRadius.scene_part_place()->0,
        FramePart::CircleRadius.scene_part_place()->0 + 1 == FramePart::CreateProject.scene_part_place()->0,
        FramePart::CreateProject.scene_part_place()->0 + 1 == FramePart::NewProduct.scene_part_place()->0,
        FramePart::NewProduct.scene_part_place()->0 + 1 == FramePart::Initiation.scene_part_place()->0,
        FramePart::Initiation.scene_part_place()->0 + 1 == FramePart::CreateLayer.scene_part_place()->0,
        FramePart::CreateLayer.scene_part_place()->0 + 1 == FramePart::Rename.scene_part_place()->0,
        FramePart::Rename.scene_part_place()->0 + 1 == FramePart::DrapePanel.scene_part_place()->0,
        FramePart::DrapePanel.scene_part_place()->0 + 1 == FramePart::OffsetRequest.scene_part_place()->0,
        FramePart::OffsetRequest.scene_part_place()->0 + 1 == FramePart::OffsetDialog.scene_part_place()->0,
        FramePart::OffsetDialog.scene_part_place()->0 + 1 == FramePart::OffsetPreview.scene_part_place()->0,
        FramePart::OffsetPreview.scene_part_place()->0 + 1 == FramePart::ToolLabel.scene_part_place()->0,
        FramePart::ToolLabel.scene_part_place()->0 + 1 == FramePart::SlicePanel.scene_part_place()->0,
        FramePart::SlicePanel.scene_part_place()->0 + 1 == FramePart::SliceMap.scene_part_place()->0,
        FramePart::SliceMap.scene_part_place()->0 + 1 == FramePart::BatterBermRequest.scene_part_place()->0,
        FramePart::BatterBermRequest.scene_part_place()->0 + 1 == FramePart::BatterBermDialog.scene_part_place()->0,
        FramePart::BatterBermDialog.scene_part_place()->0 + 1 == FramePart::RelimitRequest.scene_part_place()->0,
        FramePart::RelimitRequest.scene_part_place()->0 + 1 == FramePart::RelimitDialog.scene_part_place()->0,
        FramePart::RelimitDialog.scene_part_place()->0 + 1 == FramePart::RelimitEnd.scene_part_place()->0,
        FramePart::RelimitEnd.scene_part_place()->0 + 1 == FramePart::RelimitPreview.scene_part_place()->0,
        FramePart::RelimitPreview.scene_part_place()->0 + 1 == FramePart::TextEdit.scene_part_place()->0,
        FramePart::TextEdit.scene_part_place()->0 + 1 == FramePart::FinishPolyline.scene_part_place()->0,
        FramePart::FinishPolyline.scene_part_place()->0 + 1 == FramePart::OrbitMarker.scene_part_place()->0,
        FramePart::OrbitMarker.scene_part_place()->0 + 1 == FramePart::RotationCentre.scene_part_place()->0,
        FramePart::RotationCentre.scene_part_place()->0 + 1 == FramePart::OrientationGizmo.scene_part_place()->0,
        FramePart::OrientationGizmo.scene_part_place()->0 + 1 == FramePart::CutLabels.scene_part_place()->0,
        FramePart::CutLabels.scene_part_place()->0 + 1 == FramePart::ToolCursor.scene_part_place()->0,
        FramePart::ToolCursor.scene_part_place()->0 + 1 == FramePart::ScaleBar.scene_part_place()->0,
        FramePart::ScaleBar.scene_part_place()->0 + 1 == FramePart::GlobalDialogs.scene_part_place()->0,
        FramePart::GlobalDialogs.scene_part_place()->0 + 1 == SCENE_PARTS,
{
}

/// The dialogs over the window follow each other: colours and patterns, confirmations,
/// triangulations, block models, and what goes in and out.
pub proof fn dialogs_follow_each_other()
    ensures
        GlobalDialog::DrillHoleColors.global_dialog_place() == Some(0int),
        GlobalDialog::DrillHoleColors.global_dialog_place()->0 + 1 == GlobalDialog::DrillPattern.global_dialog_place()->0,
        GlobalDialog::DrillPattern.global_dialog_place()->0 + 1 == GlobalDialog::Exit.global_dialog_place()->0,
        GlobalDialog::Exit.global_dialog_place()->0 + 1 == GlobalDialog::ReplaceProject.global_dialog_place()->0,
        GlobalDialog::ReplaceProject.global_dialog_place()->0 + 1 == GlobalDialog::LossySave.global_dialog_place()->0,
        GlobalDialog::LossySave.global_dialog_place()->0 + 1 == GlobalDialog::DeleteSelection.global_dialog_place()->0,
        GlobalDialog::DeleteSelection.global_dialog_place()->0 + 1 == GlobalDialog::DeleteLayer.global_dialog_place()->0,
        GlobalDialog::DeleteLayer.global_dialog_place()->0 + 1 == GlobalDialog::DeleteItem.global_dialog_place()->0,
        GlobalDialog::DeleteItem.global_dialog_place()->0 + 1 == GlobalDialog::DeleteProduct.global_dialog_place()->0,
        GlobalDialog::DeleteProduct.global_dialog_place()->0 + 1 == GlobalDialog::CloseProject.global_dialog_place()->0,
        GlobalDialog::CloseProject.global_dialog_place()->0 + 1 == GlobalDialog::DiscardProject.global_dialog_place()->0,
        GlobalDialog::DiscardProject.global_dialog_place()->0 + 1 == GlobalDialog::DiscardLayer.global_dialog_place()->0,
        GlobalDialog::DiscardLayer.global_dialog_place()->0 + 1 == GlobalDialog::CreateTriangulation.global_dialog_place()->0,
        GlobalDialog::CreateTriangulation.global_dialog_place()->0 + 1 == GlobalDialog::CreateTriangulationFailure.global_dialog_place()->0,
        GlobalDialog::CreateTriangulationFailure.global_dialog_place()->0 + 1 == GlobalDialog::CutByPolyline.global_dialog_place()->0,
        GlobalDialog::CutByPolyline.global_dialog_place()->0 + 1 == GlobalDialog::CutByZ.global_dialog_place()->0,
        GlobalDialog::CutByZ.global_dialog_place()->0 + 1 == GlobalDialog::CutBySurface.global_dialog_place()->0,
        GlobalDialog::CutBySurface.global_dialog_place()->0 + 1 == GlobalDialog::BuildSolid.global_dialog_place()->0,
        GlobalDialog::BuildSolid.global_dialog_place()->0 + 1 == GlobalDialog::CutToPitShell.global_dialog_place()->0,
        GlobalDialog::CutToPitShell.global_dialog_place()->0 + 1 == GlobalDialog::IncludeSolid.global_dialog_place()->0,
        GlobalDialog::IncludeSolid.global_dialog_place()->0 + 1 == GlobalDialog::Contour.global_dialog_place()->0,
        GlobalDialog::Contour.global_dialog_place()->0 + 1 == GlobalDialog::PointCloudTin.global_dialog_place()->0,
        GlobalDialog::PointCloudTin.global_dialog_place()->0 + 1 == GlobalDialog::TriangulationPick.global_dialog_place()->0,
        GlobalDialog::TriangulationPick.global_dialog_place()->0 + 1 == GlobalDialog::CreateBlockModel.global_dialog_place()->0,
        GlobalDialog::CreateBlockModel.global_dialog_place()->0 + 1 == GlobalDialog::OreTriangulation.global_dialog_place()->0,
        GlobalDialog::OreTriangulation.global_dialog_place()->0 + 1 == GlobalDialog::Plot.global_dialog_place()->0,
        GlobalDialog::Plot.global_dialog_place()->0 + 1 == GlobalDialog::Import.global_dialog_place()->0,
        GlobalDialog::Import.global_dialog_place()->0 + 1 == GlobalDialog::Export.global_dialog_place()->0,
        GlobalDialog::Export.global_dialog_place()->0 + 1 == GLOBAL_DIALOGS,
{
}

} // verus!
