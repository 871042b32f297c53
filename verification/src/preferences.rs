//! Preferences: their live values, the draft that the Preferences window edits,
//! and the rules by which an edit lands.
use crate::command::UiCommand;
use crate::ids::LanguageChoice;
use crate::number::{Real64, Rgba};
use crate::tools::PropertyTab;
use vstd::prelude::*;

verus! {

/// Whether two colours are the same number in each component.
pub open spec fn same_color(a: Rgba, b: Rgba) -> bool {
    a.r.eq_number(b.r) && a.g.eq_number(b.g) && a.b.eq_number(b.b) && a.a.eq_number(b.a)
}

/// The preferences of the Interface tab.
#[derive(Clone, Copy, Debug, PartialEq, Eq, Structural)]
pub struct InterfacePreferences {
    pub renderer_background_color: Rgba,
    pub dark_mode: bool,
    pub show_console: bool,
    pub panel_chrome: bool,
    pub show_world_axis_gizmo: bool,
    pub show_scale_bar: bool,
}

impl InterfacePreferences {
    pub open spec fn same_values(self, other: InterfacePreferences) -> bool {
        &&& same_color(self.renderer_background_color, other.renderer_background_color)
        &&& self.dark_mode == other.dark_mode
        &&& self.show_console == other.show_console
        &&& self.panel_chrome == other.panel_chrome
        &&& self.show_world_axis_gizmo == other.show_world_axis_gizmo
        &&& self.show_scale_bar == other.show_scale_bar
    }

    pub fn same_as(&self, other: &InterfacePreferences) -> (r: bool)
        ensures
            r == self.same_values(*other),
    {
        self.renderer_background_color.r.equals(other.renderer_background_color.r) && self.renderer_background_color.g.equals(other.renderer_background_color.g) && self.renderer_background_color.b.equals(other.renderer_background_color.b) && self.renderer_background_color.a.equals(other.renderer_background_color.a)
            && self.dark_mode == other.dark_mode
            && self.show_console == other.show_console
            && self.panel_chrome == other.panel_chrome
            && self.show_world_axis_gizmo == other.show_world_axis_gizmo
            && self.show_scale_bar == other.show_scale_bar
    }
}

/// The preferences of the Camera tab.
#[derive(Clone, Copy, Debug, PartialEq, Eq, Structural)]
pub struct CameraPreferences {
    pub plan_orbit_sensitivity: Real64,
    pub plan_zoom_sensitivity: Real64,
    pub plan_invert_vertical_look: bool,
    pub plan_invert_horizontal_look: bool,
    pub plan_zoom_towards_cursor: bool,
    pub fly_field_of_view_degrees: Real64,
    pub fly_mouse_look_sensitivity: Real64,
    pub fly_invert_vertical_look: bool,
    pub fly_invert_horizontal_look: bool,
    pub fly_near_clip_limit: Real64,
    pub fly_max_clip_span: Real64,
}

impl CameraPreferences {
    pub open spec fn same_values(self, other: CameraPreferences) -> bool {
        &&& self.plan_orbit_sensitivity.eq_number(other.plan_orbit_sensitivity)
        &&& self.plan_zoom_sensitivity.eq_number(other.plan_zoom_sensitivity)
        &&& self.plan_invert_vertical_look == other.plan_invert_vertical_look
        &&& self.plan_invert_horizontal_look == other.plan_invert_horizontal_look
        &&& self.plan_zoom_towards_cursor == other.plan_zoom_towards_cursor
        &&& self.fly_field_of_view_degrees.eq_number(other.fly_field_of_view_degrees)
        &&& self.fly_mouse_look_sensitivity.eq_number(other.fly_mouse_look_sensitivity)
        &&& self.fly_invert_vertical_look == other.fly_invert_vertical_look
        &&& self.fly_invert_horizontal_look == other.fly_invert_horizontal_look
        &&& self.fly_near_clip_limit.eq_number(other.fly_near_clip_limit)
        &&& self.fly_max_clip_span.eq_number(other.fly_max_clip_span)
    }

    pub fn same_as(&self, other: &CameraPreferences) -> (r: bool)
        ensures
            r == self.same_values(*other),
    {
        self.plan_orbit_sensitivity.equals(other.plan_orbit_sensitivity)
            && self.plan_zoom_sensitivity.equals(other.plan_zoom_sensitivity)
            && self.plan_invert_vertical_look == other.plan_invert_vertical_look
            && self.plan_invert_horizontal_look == other.plan_invert_horizontal_look
            && self.plan_zoom_towards_cursor == other.plan_zoom_towards_cursor
            && self.fly_field_of_view_degrees.equals(other.fly_field_of_view_degrees)
            && self.fly_mouse_look_sensitivity.equals(other.fly_mouse_look_sensitivity)
            && self.fly_invert_vertical_look == other.fly_invert_vertical_look
            && self.fly_invert_horizontal_look == other.fly_invert_horizontal_look
            && self.fly_near_clip_limit.equals(other.fly_near_clip_limit)
            && self.fly_max_clip_span.equals(other.fly_max_clip_span)
    }
}

/// The preferences of the Performance tab.
#[derive(Clone, Copy, Debug, PartialEq, Eq, Structural)]
pub struct PerformancePreferences {
    pub snap_poll_rate: u32,
    pub vsync_enabled: bool,
    pub frame_rate_cap: u32,
    pub resize_frame_rate_cap: u32,
    pub block_model_interaction_resolution_divisor: u32,
    pub show_block_model_boundary_highlights: bool,
    pub downscale_raster_previews: bool,
}

impl PerformancePreferences {
    pub open spec fn same_values(self, other: PerformancePreferences) -> bool {
        &&& self.snap_poll_rate == other.snap_poll_rate
        &&& self.vsync_enabled == other.vsync_enabled
        &&& self.frame_rate_cap == other.frame_rate_cap
        &&& self.resize_frame_rate_cap == other.resize_frame_rate_cap
        &&& self.block_model_interaction_resolution_divisor == other.block_model_interaction_resolution_divisor
        &&& self.show_block_model_boundary_highlights == other.show_block_model_boundary_highlights
        &&& self.downscale_raster_previews == other.downscale_raster_previews
    }

    pub fn same_as(&self, other: &PerformancePreferences) -> (r: bool)
        ensures
            r == self.same_values(*other),
    {
        self.snap_poll_rate == other.snap_poll_rate
            && self.vsync_enabled == other.vsync_enabled
            && self.frame_rate_cap == other.frame_rate_cap
            && self.resize_frame_rate_cap == other.resize_frame_rate_cap
            && self.block_model_interaction_resolution_divisor == other.block_model_interaction_resolution_divisor
            && self.show_block_model_boundary_highlights == other.show_block_model_boundary_highlights
            && self.downscale_raster_previews == other.downscale_raster_previews
    }
}

/// The preferences of the Developer tab.
#[derive(Clone, Copy, Debug, PartialEq, Eq, Structural)]
pub struct DeveloperPreferences {
    pub frame_counter_enabled: bool,
    pub debug_chunk_coloring: bool,
    pub debug_clip_planes: bool,
}

impl DeveloperPreferences {
    pub open spec fn same_values(self, other: DeveloperPreferences) -> bool {
        &&& self.frame_counter_enabled == other.frame_counter_enabled
        &&& self.debug_chunk_coloring == other.debug_chunk_coloring
        &&& self.debug_clip_planes == other.debug_clip_planes
    }

    pub fn same_as(&self, other: &DeveloperPreferences) -> (r: bool)
        ensures
            r == self.same_values(*other),
    {
        self.frame_counter_enabled == other.frame_counter_enabled
            && self.debug_chunk_coloring == other.debug_chunk_coloring
            && self.debug_clip_planes == other.debug_clip_planes
    }
}

/// Preference values: those in force, or those being edited.
#[derive(Clone, Copy, Debug, PartialEq, Eq, Structural)]
pub struct PreferencesDraft {
    /// The interface language. No tab edits it: the status bar's picker does.
    pub language: LanguageChoice,
    pub interface: InterfacePreferences,
    pub camera: CameraPreferences,
    pub performance: PerformancePreferences,
    pub developer: DeveloperPreferences,
}

/// The preference values that the application ships.
#[derive(Clone, Copy, Debug, PartialEq, Eq, Structural)]
pub struct ShippedPreferences {
    pub language: LanguageChoice,
    pub interface: InterfacePreferences,
    pub performance: PerformancePreferences,
    pub plan_orbit_sensitivity: Real64,
    pub plan_zoom_sensitivity: Real64,
    pub plan_zoom_towards_cursor: bool,
    pub fly_field_of_view_degrees: Real64,
    pub fly_mouse_look_sensitivity: Real64,
    pub fly_near_clip_limit: Real64,
    pub fly_max_clip_span: Real64,
}

impl PreferencesDraft {
    /// The shipped values, with the developer views off and no look inverted.
    pub open spec fn shipped(values: ShippedPreferences) -> PreferencesDraft {
        PreferencesDraft {
            language: values.language,
            interface: values.interface,
            camera: CameraPreferences {
                plan_orbit_sensitivity: values.plan_orbit_sensitivity,
                plan_zoom_sensitivity: values.plan_zoom_sensitivity,
                plan_invert_vertical_look: false,
                plan_invert_horizontal_look: false,
                plan_zoom_towards_cursor: values.plan_zoom_towards_cursor,
                fly_field_of_view_degrees: values.fly_field_of_view_degrees,
                fly_mouse_look_sensitivity: values.fly_mouse_look_sensitivity,
                fly_invert_vertical_look: false,
                fly_invert_horizontal_look: false,
                fly_near_clip_limit: values.fly_near_clip_limit,
                fly_max_clip_span: values.fly_max_clip_span,
            },
            performance: values.performance,
            developer: DeveloperPreferences { frame_counter_enabled: false, debug_chunk_coloring: false, debug_clip_planes: false },
        }
    }

    pub fn from_shipped(values: ShippedPreferences) -> (r: PreferencesDraft)
        ensures
            r == PreferencesDraft::shipped(values),
    {
        PreferencesDraft {
            language: values.language,
            interface: values.interface,
            camera: CameraPreferences {
                plan_orbit_sensitivity: values.plan_orbit_sensitivity,
                plan_zoom_sensitivity: values.plan_zoom_sensitivity,
                plan_invert_vertical_look: false,
                plan_invert_horizontal_look: false,
                plan_zoom_towards_cursor: values.plan_zoom_towards_cursor,
                fly_field_of_view_degrees: values.fly_field_of_view_degrees,
                fly_mouse_look_sensitivity: values.fly_mouse_look_sensitivity,
                fly_invert_vertical_look: false,
                fly_invert_horizontal_look: false,
                fly_near_clip_limit: values.fly_near_clip_limit,
                fly_max_clip_span: values.fly_max_clip_span,
            },
            performance: values.performance,
            developer: DeveloperPreferences { frame_counter_enabled: false, debug_chunk_coloring: false, debug_clip_planes: false },
        }
    }

    /// Whether two sets of preferences hold the same values: numbers compare as
    /// numbers, so not-a-number is never the same.
    pub open spec fn same_values(self, other: PreferencesDraft) -> bool {
        &&& self.language == other.language
        &&& self.interface.same_values(other.interface)
        &&& self.camera.same_values(other.camera)
        &&& self.performance.same_values(other.performance)
        &&& self.developer.same_values(other.developer)
    }

    pub fn same_as(&self, other: &PreferencesDraft) -> (r: bool)
        ensures
            r == self.same_values(*other),
    {
        self.language == other.language && self.interface.same_as(&other.interface) && self.camera.same_as(&other.camera)
            && self.performance.same_as(&other.performance) && self.developer.same_as(&other.developer)
    }
}

/// Put the fields of the Interface tab back to their defaults.
pub fn reset_interface_defaults(draft: &mut PreferencesDraft, defaults: &PreferencesDraft)
    ensures
        *final(draft) == (PreferencesDraft { interface: defaults.interface, ..*old(draft) }),
{
    draft.interface = defaults.interface;
}

/// Put the fields of the Camera tab back to their defaults.
pub fn reset_camera_defaults(draft: &mut PreferencesDraft, defaults: &PreferencesDraft)
    ensures
        *final(draft) == (PreferencesDraft { camera: defaults.camera, ..*old(draft) }),
{
    draft.camera = defaults.camera;
}

/// Put the fields of the Performance tab back to their defaults.
pub fn reset_performance_defaults(draft: &mut PreferencesDraft, defaults: &PreferencesDraft)
    ensures
        *final(draft) == (PreferencesDraft { performance: defaults.performance, ..*old(draft) }),
{
    draft.performance = defaults.performance;
}

/// Put the fields of the Developer tab back to their defaults.
pub fn reset_developer_defaults(draft: &mut PreferencesDraft, defaults: &PreferencesDraft)
    ensures
        *final(draft) == (PreferencesDraft { developer: defaults.developer, ..*old(draft) }),
{
    draft.developer = defaults.developer;
}

/// The preferences that a tab's Restore Defaults leads to. The Reserves tab has
/// no preferences of its own.
pub open spec fn restored_by(tab: PropertyTab, draft: PreferencesDraft, defaults: PreferencesDraft) -> PreferencesDraft {
    match tab {
        PropertyTab::Reserves => draft,
        PropertyTab::Interface => PreferencesDraft { interface: defaults.interface, ..draft },
        PropertyTab::Camera => PreferencesDraft { camera: defaults.camera, ..draft },
        PropertyTab::Performance => PreferencesDraft { performance: defaults.performance, ..draft },
        PropertyTab::Developer => PreferencesDraft { developer: defaults.developer, ..draft },
    }
}

pub fn restore_tab(tab: PropertyTab, draft: PreferencesDraft, defaults: &PreferencesDraft) -> (r: PreferencesDraft)
    ensures
        r == restored_by(tab, draft, *defaults),
{
    let mut restored = draft;
    match tab {
        PropertyTab::Reserves => {},
        PropertyTab::Interface => reset_interface_defaults(&mut restored, defaults),
        PropertyTab::Camera => reset_camera_defaults(&mut restored, defaults),
        PropertyTab::Performance => reset_performance_defaults(&mut restored, defaults),
        PropertyTab::Developer => reset_developer_defaults(&mut restored, defaults),
    }
    restored
}

/// Restoring every tab gives the defaults, but for the language, which no tab
/// edits; restoring a tab twice is restoring it once; and the order in which two
/// tabs are restored does not matter.
pub proof fn restoring_every_tab_gives_defaults(draft: PreferencesDraft, defaults: PreferencesDraft, first: PropertyTab, second: PropertyTab)
    ensures
        restored_by(
            PropertyTab::Interface,
            restored_by(
                PropertyTab::Camera,
                restored_by(PropertyTab::Performance, restored_by(PropertyTab::Developer, draft, defaults), defaults),
                defaults,
            ),
            defaults,
        )
            == (PreferencesDraft { language: draft.language, ..defaults }),
        restored_by(first, restored_by(first, draft, defaults), defaults) == restored_by(first, draft, defaults),
        restored_by(first, restored_by(second, draft, defaults), defaults) == restored_by(
            second,
            restored_by(first, draft, defaults),
            defaults,
        ),
        restored_by(first, draft, defaults).language == draft.language,
{
}

/// Whether a field's edit is finished rather than mid-drag: a drag that stopped,
/// or a change outside a drag. Preferences are written as they are applied and
/// object edits become undo entries, so a drag lands once.
pub fn committed(drag_stopped: bool, changed: bool, dragged: bool) -> (r: bool)
    ensures
        r == (drag_stopped || (changed && !dragged)),
{
    drag_stopped || (changed && !dragged)
}

/// The values that a settings section edits: the draft in flight, or else the
/// live preferences, which become the draft.
pub fn seed_draft(draft: &mut Option<PreferencesDraft>, saved: PreferencesDraft) -> (r: PreferencesDraft)
    ensures
        *old(draft) is Some ==> *final(draft) == *old(draft) && r == (*old(draft))->0,
        *old(draft) is None ==> *final(draft) == Some(saved) && r == saved,
{
    match *draft {
        Some(values) => values,
        None => {
            *draft = Some(saved);
            saved
        },
    }
}

/// What a settings section did in a frame: whether its Restore Defaults could be
/// pressed, and the preferences it applied.
#[derive(Clone, Copy, Debug, PartialEq, Eq)]
pub struct SettingsOutcome {
    pub restore_enabled: bool,
    pub applied: Option<PreferencesDraft>,
}

/// Restore Defaults applies the tab's defaults, where they differ from the
/// draft; otherwise a finished edit applies the draft, where it differs from
/// what is saved.
pub open spec fn section_outcome(
    saved: PreferencesDraft,
    draft: PreferencesDraft,
    restored: PreferencesDraft,
    changed: bool,
    restore_pressed: bool,
) -> SettingsOutcome {
    let restore_enabled = !draft.same_values(restored);
    SettingsOutcome {
        restore_enabled,
        applied: if restore_enabled && restore_pressed {
            Some(restored)
        } else if changed && !draft.same_values(saved) {
            Some(draft)
        } else {
            None
        },
    }
}

/// Run one frame of a settings section on its edited draft.
pub fn settings_section(
    saved: &PreferencesDraft,
    draft: PreferencesDraft,
    tab: PropertyTab,
    defaults: &PreferencesDraft,
    changed: bool,
    restore_pressed: bool,
    commands: &mut Vec<UiCommand>,
) -> (r: SettingsOutcome)
    ensures
        r == section_outcome(*saved, draft, restored_by(tab, draft, *defaults), changed, restore_pressed),
        r.applied matches Some(values) ==> final(commands)@ == old(commands)@.push(UiCommand::ApplyPreferences(values)),
        r.applied is None ==> final(commands)@ == old(commands)@,
{
    let restored = restore_tab(tab, draft, defaults);
    let restore_enabled = !draft.same_as(&restored);
    let applied = if restore_enabled && restore_pressed {
        Some(restored)
    } else if changed && !draft.same_as(saved) {
        Some(draft)
    } else {
        None
    };
    if let Some(values) = applied {
        commands.push(UiCommand::ApplyPreferences(values));
    }
    SettingsOutcome { restore_enabled, applied }
}

/// The pacing fields that the Performance tab shows: the vertical sync switch
/// where the surface can present out of step, and the frame rate cap while
/// vertical sync is off.
pub fn pacing_fields(vsync_switchable: bool, draft: &PreferencesDraft) -> (r: (bool, bool))
    ensures
        r.0 == vsync_switchable,
        r.1 == !draft.performance.vsync_enabled,
{
    (vsync_switchable, !draft.performance.vsync_enabled)
}

/// Two sets of preferences are the same exactly where each tab of them and the language are.
pub proof fn preferences_differ_where_a_tab_does(a: PreferencesDraft, b: PreferencesDraft)
    ensures
        a.same_values(b) ==> a.language == b.language && a.performance == b.performance && a.developer == b.developer,
        a.same_values(b) ==> a.interface.same_values(b.interface) && a.camera.same_values(b.camera),
        a.language == b.language && a.interface.same_values(b.interface) && a.camera.same_values(b.camera) && a.performance
            == b.performance && a.developer == b.developer ==> a.same_values(b),
{
}

/// Two colours are the same where no component of the one is less or more than the other's.
pub proof fn colours_differ_where_a_component_does(a: Rgba, b: Rgba)
    ensures
        a.r.lt_number(b.r) || b.r.lt_number(a.r) || a.g.lt_number(b.g) || b.g.lt_number(a.g) || a.b.lt_number(b.b) || b.b.lt_number(a.b)
            || a.a.lt_number(b.a) || b.a.lt_number(a.a) ==> !same_color(a, b),
        a.r.finite() && a.g.finite() && a.b.finite() && a.a.finite() ==> same_color(a, a),
        a.r.nan() || a.g.nan() || a.b.nan() || a.a.nan() ==> !same_color(a, b) && !same_color(b, a),
{
}

/// A change of any one preference of the interface makes them differ.
pub proof fn interface_preferences_differ_where_one_does(a: InterfacePreferences, b: InterfacePreferences)
    ensures
        a.same_values(b) ==> same_color(a.renderer_background_color, b.renderer_background_color) && a.dark_mode == b.dark_mode
            && a.show_console == b.show_console && a.panel_chrome == b.panel_chrome && a.show_world_axis_gizmo
            == b.show_world_axis_gizmo && a.show_scale_bar == b.show_scale_bar,
        same_color(a.renderer_background_color, a.renderer_background_color) ==> a.same_values(a),
{
}

/// A change of any one preference of the camera makes them differ, and a number that is none
/// is never the same.
pub proof fn camera_preferences_differ_where_one_does(a: CameraPreferences, b: CameraPreferences)
    ensures
        a.same_values(b) ==> {
            &&& !a.plan_orbit_sensitivity.lt_number(b.plan_orbit_sensitivity) && !a.plan_orbit_sensitivity.nan()
            &&& !b.plan_orbit_sensitivity.lt_number(a.plan_orbit_sensitivity)
            &&& !a.plan_zoom_sensitivity.lt_number(b.plan_zoom_sensitivity) && !a.plan_zoom_sensitivity.nan()
            &&& !b.plan_zoom_sensitivity.lt_number(a.plan_zoom_sensitivity)
            &&& !a.fly_field_of_view_degrees.lt_number(b.fly_field_of_view_degrees) && !a.fly_field_of_view_degrees.nan()
            &&& !b.fly_field_of_view_degrees.lt_number(a.fly_field_of_view_degrees)
            &&& !a.fly_mouse_look_sensitivity.lt_number(b.fly_mouse_look_sensitivity) && !a.fly_mouse_look_sensitivity.nan()
            &&& !b.fly_mouse_look_sensitivity.lt_number(a.fly_mouse_look_sensitivity)
            &&& !a.fly_near_clip_limit.lt_number(b.fly_near_clip_limit) && !a.fly_near_clip_limit.nan()
            &&& !b.fly_near_clip_limit.lt_number(a.fly_near_clip_limit)
            &&& !a.fly_max_clip_span.lt_number(b.fly_max_clip_span) && !a.fly_max_clip_span.nan()
            &&& !b.fly_max_clip_span.lt_number(a.fly_max_clip_span)
            &&& a.plan_invert_vertical_look == b.plan_invert_vertical_look
            &&& a.plan_invert_horizontal_look == b.plan_invert_horizontal_look
            &&& a.plan_zoom_towards_cursor == b.plan_zoom_towards_cursor
            &&& a.fly_invert_vertical_look == b.fly_invert_vertical_look
            &&& a.fly_invert_horizontal_look == b.fly_invert_horizontal_look
        },
{
}

/// Preferences of plain numbers are the same as themselves.
pub proof fn plain_preferences_are_the_same_as_themselves(draft: PreferencesDraft)
    requires
        draft.camera.plan_orbit_sensitivity.finite(),
        draft.camera.plan_zoom_sensitivity.finite(),
        draft.camera.fly_field_of_view_degrees.finite(),
        draft.camera.fly_mouse_look_sensitivity.finite(),
        draft.camera.fly_near_clip_limit.finite(),
        draft.camera.fly_max_clip_span.finite(),
        draft.interface.renderer_background_color.r.finite(),
        draft.interface.renderer_background_color.g.finite(),
        draft.interface.renderer_background_color.b.finite(),
        draft.interface.renderer_background_color.a.finite(),
    ensures
        draft.same_values(draft),
{
}

/// A fresh installation looks the way the mouse goes, shows none of the developer's views, and
/// otherwise has what is shipped.
pub proof fn shipped_preferences_are_in_force(values: ShippedPreferences)
    ensures
        ({
            let draft = PreferencesDraft::shipped(values);
            &&& draft.language == values.language
            &&& draft.interface == values.interface
            &&& draft.performance == values.performance
            &&& draft.camera.plan_orbit_sensitivity == values.plan_orbit_sensitivity
            &&& draft.camera.plan_zoom_sensitivity == values.plan_zoom_sensitivity
            &&& draft.camera.plan_zoom_towards_cursor == values.plan_zoom_towards_cursor
            &&& draft.camera.fly_field_of_view_degrees == values.fly_field_of_view_degrees
            &&& draft.camera.fly_mouse_look_sensitivity == values.fly_mouse_look_sensitivity
            &&& draft.camera.fly_near_clip_limit == values.fly_near_clip_limit
            &&& draft.camera.fly_max_clip_span == values.fly_max_clip_span
            &&& !draft.camera.plan_invert_vertical_look && !draft.camera.plan_invert_horizontal_look
            &&& !draft.camera.fly_invert_vertical_look && !draft.camera.fly_invert_horizontal_look
            &&& !draft.developer.frame_counter_enabled && !draft.developer.debug_chunk_coloring && !draft.developer.debug_clip_planes
        }),
{
}

/// Restoring a tab gives that tab its defaults and leaves every other one alone.
pub proof fn restoring_a_tab_leaves_the_others(tab: PropertyTab, draft: PreferencesDraft, defaults: PreferencesDraft)
    ensures
        ({
            let restored = restored_by(tab, draft, defaults);
            &&& restored.interface == (if tab is Interface { defaults.interface } else { draft.interface })
            &&& restored.camera == (if tab is Camera { defaults.camera } else { draft.camera })
            &&& restored.performance == (if tab is Performance { defaults.performance } else { draft.performance })
            &&& restored.developer == (if tab is Developer { defaults.developer } else { draft.developer })
            &&& tab is Reserves ==> restored == draft
        }),
{
}

/// What a frame of a settings section applies. Restore Defaults can be pressed exactly where
/// it would change something, and then wins. A finished edit is applied exactly where it
/// differs from what is saved. Without either nothing is.
pub proof fn settings_apply_what_changed(
    saved: PreferencesDraft,
    draft: PreferencesDraft,
    restored: PreferencesDraft,
    changed: bool,
    restore_pressed: bool,
)
    ensures
        ({
            let outcome = section_outcome(saved, draft, restored, changed, restore_pressed);
            &&& outcome.restore_enabled <==> !draft.same_values(restored)
            &&& restore_pressed && !draft.same_values(restored) ==> outcome.applied == Some(restored)
            &&& !restore_pressed && changed && !draft.same_values(saved) ==> outcome.applied == Some(draft)
            &&& !restore_pressed && (!changed || draft.same_values(saved)) ==> outcome.applied is None
            &&& restore_pressed && draft.same_values(restored) && (!changed || draft.same_values(saved)) ==> outcome.applied is None
            &&& outcome.applied matches Some(values) ==> values == draft || values == restored
        }),
{
}

} // verus!
