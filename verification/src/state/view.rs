//! The view: display switches, status, slice and grids.
use crate::constants::{FIFTY, FORTY_FIVE, ONE, TEN, TWENTY_FIVE, ZERO};
use crate::number::{Pair64, Real32, Real64, Vec3};
use crate::preferences::PreferencesDraft;
use crate::views::{GridOptionsDialog, PlanGridStyle, SectionGridLine, SectionGridStyle, SizePx, SlicePreviewNavigation, TextureId};
use vstd::prelude::*;

verus! {

/// A transient message shown in the status bar.
#[derive(Debug)]
pub struct StatusBarMessage {
    pub text: String,
    /// The filled fraction; `None` is indeterminate.
    pub progress: Option<Real32>,
    /// Items done and in total, where the task counts them.
    pub units: Option<(u64, u64)>,
}

/// The most recent task to leave the status bar.
#[derive(Debug)]
pub struct FinishedTask {
    /// Task label without its trailing ellipsis.
    pub text: String,
    /// Item count the task worked through, where it counted.
    pub total_units: Option<u64>,
}

/// Switches over how the scene is drawn.
#[derive(Debug)]
pub struct DisplayState {
    /// Show wireframes on all topology meshes.
    pub topology_wireframes_enabled: bool,
    /// Show every vertex of all visible design objects.
    pub show_points: bool,
    /// Show the construction grid on the world plane.
    pub show_xy_grid: bool,
    pub show_preferences: bool,
    /// Values the Preferences window is editing; none while no edit is in flight.
    pub preferences_draft: Option<PreferencesDraft>,
    pub xray_enabled: bool,
    pub vertical_exaggeration_dialog_open: bool,
    pub vertical_exaggeration: Real64,
    pub vertical_exaggeration_input: Real64,
    pub fly_mode_enabled: bool,
    /// The fixed centre of rotation while one is set.
    pub rotation_centre: Option<Vec3>,
}

impl DisplayState {
    /// As a fresh editor starts.
    pub open spec fn is_initial(self) -> bool {
        &&& !self.topology_wireframes_enabled
        &&& !self.show_points
        &&& self.show_xy_grid
        &&& !self.show_preferences
        &&& self.preferences_draft is None
        &&& !self.xray_enabled
        &&& !self.vertical_exaggeration_dialog_open
        &&& self.vertical_exaggeration == (Real64 { bits: ONE })
        &&& self.vertical_exaggeration_input == (Real64 { bits: ONE })
        &&& !self.fly_mode_enabled
        &&& self.rotation_centre is None
    }

    pub fn new() -> (r: DisplayState)
        ensures
            r.is_initial(),
    {
        DisplayState {
            topology_wireframes_enabled: false,
            show_points: false,
            show_xy_grid: true,
            show_preferences: false,
            preferences_draft: None,
            xray_enabled: false,
            vertical_exaggeration_dialog_open: false,
            vertical_exaggeration: Real64 { bits: ONE },
            vertical_exaggeration_input: Real64 { bits: ONE },
            fly_mode_enabled: false,
            rotation_centre: None,
        }
    }
}

/// What the renderer and the background tasks report.
#[derive(Debug)]
pub struct StatusState {
    /// Whether the surface can present out of step with the display.
    pub vsync_switchable: bool,
    pub measured_fps: Option<Real32>,
    /// Smoothed seconds between rendered frames.
    pub smoothed_frame_interval: Option<Real32>,
    /// Rendered and total surface chunks of the last frame.
    pub debug_chunk_stats: Option<(u32, u32)>,
    /// Current near and far projection distances.
    pub debug_clip_plane_distances: Option<Pair64>,
    /// Whether a background task is running.
    pub background_busy: bool,
    /// The task that the status bar shows.
    pub status_message: Option<StatusBarMessage>,
    /// The most recent task to leave the status bar.
    pub last_finished_task: Option<FinishedTask>,
    pub can_undo: bool,
    pub can_redo: bool,
}

impl StatusState {
    /// As a fresh editor starts.
    pub open spec fn is_initial(self) -> bool {
        &&& !self.vsync_switchable
        &&& self.measured_fps is None
        &&& self.smoothed_frame_interval is None
        &&& self.debug_chunk_stats is None
        &&& self.debug_clip_plane_distances is None
        &&& !self.background_busy
        &&& self.status_message is None
        &&& self.last_finished_task is None
        &&& !self.can_undo
        &&& !self.can_redo
    }

    pub fn new() -> (r: StatusState)
        ensures
            r.is_initial(),
    {
        StatusState {
            vsync_switchable: false,
            measured_fps: None,
            smoothed_frame_interval: None,
            debug_chunk_stats: None,
            debug_clip_plane_distances: None,
            background_busy: false,
            status_message: None,
            last_finished_task: None,
            can_undo: false,
            can_redo: false,
        }
    }
}

/// The vertical slice view and the grids.
#[derive(Debug)]
pub struct SliceState {
    /// First click of the slice-line placement.
    pub pending_start: Option<Vec3>,
    pub mode_enabled: bool,
    /// Whether the plan preview is in a window of its own.
    pub preview_detached: bool,
    pub preview_texture: Option<TextureId>,
    pub preview_size_px: SizePx,
    pub preview_navigation: SlicePreviewNavigation,
    /// Slab thickness in metres.
    pub width_input: Real64,
    /// Slab movement speed in metres per second.
    pub speed_input: Real64,
    /// Rotation rate in degrees per second.
    pub rotate_input: Real64,
    pub center: Vec3,
    pub direction: Pair64,
    pub half_length: Real64,
}

impl SliceState {
    /// As a fresh editor starts.
    pub open spec fn is_initial(self) -> bool {
        &&& self.pending_start is None
        &&& !self.mode_enabled
        &&& !self.preview_detached
        &&& self.preview_texture is None
        &&& self.preview_size_px == (SizePx { width: 440, height: 440 })
        &&& self.preview_navigation == SlicePreviewNavigation::fitted()
        &&& self.width_input == (Real64 { bits: TWENTY_FIVE })
        &&& self.speed_input == (Real64 { bits: FIFTY })
        &&& self.rotate_input == (Real64 { bits: FORTY_FIVE })
        &&& self.center == (Vec3 { x: Real64 { bits: ZERO }, y: Real64 { bits: ZERO }, z: Real64 { bits: ZERO } })
        &&& self.direction == (Pair64 { x: Real64 { bits: ONE }, y: Real64 { bits: ZERO } })
        &&& self.half_length == (Real64 { bits: ZERO })
    }

    pub fn new() -> (r: SliceState)
        ensures
            r.is_initial(),
    {
        SliceState {
            pending_start: None,
            mode_enabled: false,
            preview_detached: false,
            preview_texture: None,
            preview_size_px: SizePx { width: 440, height: 440 },
            preview_navigation: SlicePreviewNavigation::default(),
            width_input: Real64 { bits: TWENTY_FIVE },
            speed_input: Real64 { bits: FIFTY },
            rotate_input: Real64 { bits: FORTY_FIVE },
            center: Vec3 { x: Real64 { bits: ZERO }, y: Real64 { bits: ZERO }, z: Real64 { bits: ZERO } },
            direction: Pair64 { x: Real64 { bits: ONE }, y: Real64 { bits: ZERO } },
            half_length: Real64 { bits: ZERO },
        }
    }

    /// As leaving a project turns it.
    pub open spec fn cleared_from(self, before: SliceState) -> bool {
        &&& self.pending_start is None
        &&& self.mode_enabled == before.mode_enabled
        &&& self.preview_detached == before.preview_detached
        &&& self.preview_texture == before.preview_texture
        &&& self.preview_size_px == before.preview_size_px
        &&& self.preview_navigation == SlicePreviewNavigation::fitted()
        &&& self.width_input == before.width_input
        &&& self.speed_input == before.speed_input
        &&& self.rotate_input == before.rotate_input
        &&& self.center == before.center
        &&& self.direction == before.direction
        &&& self.half_length == before.half_length
    }

    pub fn clear(&mut self)
        ensures
            final(self).cleared_from(*old(self)),
    {
        self.pending_start = None;
        self.preview_navigation = SlicePreviewNavigation::default();
    }
}

/// The section grid and the plan grid.
#[derive(Debug)]
pub struct GridState {
    /// Whether the section shows the world grid.
    pub slice_grid_enabled: bool,
    pub section_grid_px: Vec<SectionGridLine>,
    pub section_grid_style: SectionGridStyle,
    pub xy_grid_style: PlanGridStyle,
    pub dialog: Option<GridOptionsDialog>,
    /// The level spacing in force this frame.
    pub level_spacing: Real64,
}

impl GridState {
    /// As a fresh editor starts.
    pub open spec fn is_initial(self) -> bool {
        &&& !self.slice_grid_enabled
        &&& self.section_grid_px@.len() == 0
        &&& self.section_grid_style == SectionGridStyle::plain()
        &&& self.xy_grid_style == PlanGridStyle::plain()
        &&& self.dialog is None
        &&& self.level_spacing == (Real64 { bits: TEN })
    }

    pub fn new() -> (r: GridState)
        ensures
            r.is_initial(),
    {
        GridState {
            slice_grid_enabled: false,
            section_grid_px: Vec::new(),
            section_grid_style: SectionGridStyle::default(),
            xy_grid_style: PlanGridStyle::default(),
            dialog: None,
            level_spacing: Real64 { bits: TEN },
        }
    }
}

/// The view.
#[derive(Debug)]
pub struct ViewState {
    pub display: DisplayState,
    pub status: StatusState,
    pub slice: SliceState,
    pub grid: GridState,
}

impl ViewState {
    /// As a fresh editor starts.
    pub open spec fn is_initial(self) -> bool {
        &&& self.display.is_initial()
        &&& self.status.is_initial()
        &&& self.slice.is_initial()
        &&& self.grid.is_initial()
    }

    pub fn new() -> (r: ViewState)
        ensures
            r.is_initial(),
    {
        ViewState {
            display: DisplayState::new(),
            status: StatusState::new(),
            slice: SliceState::new(),
            grid: GridState::new(),
        }
    }

    /// As leaving a project turns it.
    pub open spec fn cleared_from(self, before: ViewState) -> bool {
        &&& self.display == (DisplayState { rotation_centre: None, ..before.display })
        &&& self.status == before.status
        &&& self.slice.cleared_from(before.slice)
        &&& self.grid == before.grid
    }

    pub fn clear(&mut self)
        ensures
            final(self).cleared_from(*old(self)),
    {
        self.display.rotation_centre = None;
        self.slice.clear();
    }
}

} // verus!
