//! Who owns the Enter and Escape keys and the canvas click.
use crate::editor::EditorState;
use vstd::prelude::*;

verus! {

impl EditorState {
    /// A dialog is parked waiting on a click in the viewport. Escape belongs to
    /// the pick, and Enter means nothing.
    pub open spec fn pick_in_progress(self) -> bool {
        ||| self.triangulation.create.pick_target is Some
        ||| self.triangulation.cut_poly.awaiting_pick
        ||| self.blasting.pattern.awaiting_shape_pick
        ||| self.drawing.canvas.context_menu_open
        ||| self.drawing.text.editing_enabled
    }

    /// A confirmation is open.
    pub open spec fn confirmation_open(self) -> bool {
        ||| self.project.lifecycle.exit_confirm_open
        ||| self.project.lifecycle.replace_project_confirm_open
        ||| self.project.lifecycle.lossy_save_confirm_open
        ||| self.project.lifecycle.delete_confirm_open
        ||| self.project.dialogs.pending_delete_layer is Some
        ||| self.project.dialogs.pending_delete_item is Some
        ||| self.blasting.products.pending_delete is Some
        ||| self.project.lifecycle.pending_close_project is Some
        ||| self.project.lifecycle.pending_discard_project is Some
        ||| self.project.dialogs.pending_discard_layer is Some
    }

    /// A dialog over project data, products or the view is open.
    pub open spec fn data_dialog_open(self) -> bool {
        ||| self.view.grid.dialog is Some
        ||| self.project.transfer.show_about
        ||| self.project.transfer.show_import
        ||| self.project.transfer.show_export
        ||| self.modelling.block_models.drill_hole_color_dialog is Some
        ||| self.blasting.pattern.open
        ||| self.project.transfer.plot_dialog is Some
        ||| self.project.dialogs.new_layer_open
        ||| self.blasting.products.new_open
        ||| self.blasting.tie.initiation_dialog is Some
        ||| self.project.dialogs.renaming_item is Some
        ||| self.project.dialogs.new_project_open
    }

    /// A dialog over the selected objects is open.
    pub open spec fn selection_dialog_open(self) -> bool {
        ||| self.drawing.canvas.move_to_layer is Some
        ||| self.drawing.canvas.move_to_axis is Some
        ||| self.drawing.canvas.insert_point_at_elevation is Some
    }

    /// A dialog that makes or edits triangulations and block models is open.
    pub open spec fn modelling_dialog_open(self) -> bool {
        ||| self.triangulation.create.open
        ||| self.triangulation.create.failure is Some
        ||| self.triangulation.cut_poly.open
        ||| self.triangulation.cut_z.open
        ||| self.triangulation.cut_surface.open
        ||| self.triangulation.build_solid.open
        ||| self.triangulation.cut_pitshell.open
        ||| self.triangulation.include_solid.open
        ||| self.triangulation.contour.open
        ||| self.triangulation.tin.open
        ||| self.modelling.kriging.open
        ||| self.modelling.ore.open
    }

    /// A dialog that confirms on Enter and cancels on Escape is open.
    pub open spec fn both_keys_owned(self) -> bool {
        ||| self.confirmation_open()
        ||| self.data_dialog_open()
        ||| self.selection_dialog_open()
        ||| self.modelling_dialog_open()
    }

    pub open spec fn confirm_key_owned(self) -> bool {
        !self.pick_in_progress() && (self.drawing.stroke.poly_finish_dialog || self.both_keys_owned())
    }

    pub open spec fn cancel_key_owned(self) -> bool {
        !self.pick_in_progress() && (self.drawing.canvas.object_edit is Some || self.both_keys_owned())
    }

    fn viewport_pick_in_progress(&self) -> (r: bool)
        ensures
            r == self.pick_in_progress(),
    {
        self.triangulation.create.pick_target.is_some() || self.triangulation.cut_poly.awaiting_pick
            || self.blasting.pattern.awaiting_shape_pick || self.drawing.canvas.context_menu_open || self.drawing.text.editing_enabled
    }

    fn has_confirmation(&self) -> (r: bool)
        ensures
            r == self.confirmation_open(),
    {
        self.project.lifecycle.exit_confirm_open || self.project.lifecycle.replace_project_confirm_open
            || self.project.lifecycle.lossy_save_confirm_open || self.project.lifecycle.delete_confirm_open
            || self.project.dialogs.pending_delete_layer.is_some() || self.project.dialogs.pending_delete_item.is_some()
            || self.blasting.products.pending_delete.is_some() || self.project.lifecycle.pending_close_project.is_some()
            || self.project.lifecycle.pending_discard_project.is_some() || self.project.dialogs.pending_discard_layer.is_some()
    }

    fn has_data_dialog(&self) -> (r: bool)
        ensures
            r == self.data_dialog_open(),
    {
        self.view.grid.dialog.is_some() || self.project.transfer.show_about || self.project.transfer.show_import
            || self.project.transfer.show_export || self.modelling.block_models.drill_hole_color_dialog.is_some()
            || self.blasting.pattern.open || self.project.transfer.plot_dialog.is_some() || self.project.dialogs.new_layer_open
            || self.blasting.products.new_open || self.blasting.tie.initiation_dialog.is_some()
            || self.project.dialogs.renaming_item.is_some() || self.project.dialogs.new_project_open
    }

    fn has_modelling_dialog(&self) -> (r: bool)
        ensures
            r == self.modelling_dialog_open(),
    {
        self.triangulation.create.open || self.triangulation.create.failure.is_some() || self.triangulation.cut_poly.open
            || self.triangulation.cut_z.open || self.triangulation.cut_surface.open || self.triangulation.build_solid.open
            || self.triangulation.cut_pitshell.open || self.triangulation.include_solid.open || self.triangulation.contour.open
            || self.triangulation.tin.open || self.modelling.kriging.open || self.modelling.ore.open
    }

    /// The common case: a dialog that confirms on Enter and cancels on Escape.
    fn dialog_owns_both_keys(&self) -> (r: bool)
        ensures
            r == self.both_keys_owned(),
    {
        self.has_confirmation() || self.has_data_dialog() || self.drawing.canvas.move_to_layer.is_some()
            || self.drawing.canvas.move_to_axis.is_some() || self.drawing.canvas.insert_point_at_elevation.is_some()
            || self.has_modelling_dialog()
    }

    /// Dialogs that take Enter as their confirm shortcut. The viewport tools ask
    /// here before acting on the same press.
    pub fn dialog_owns_confirm_key(&self) -> (r: bool)
        ensures
            r == self.confirm_key_owned(),
    {
        if self.viewport_pick_in_progress() {
            return false;
        }
        self.drawing.stroke.poly_finish_dialog || self.dialog_owns_both_keys()
    }

    /// Dialogs that take Escape as their cancel shortcut. The object editor is
    /// here but takes no Enter: that belongs to the cell being edited.
    pub fn dialog_owns_cancel_key(&self) -> (r: bool)
        ensures
            r == self.cancel_key_owned(),
    {
        if self.viewport_pick_in_progress() {
            return false;
        }
        self.drawing.canvas.object_edit.is_some() || self.dialog_owns_both_keys()
    }

    /// Whether an overlay is drawn out to the cursor.
    pub fn overlay_follows_cursor(&self) -> (r: bool)
        ensures
            r == (self.drawing.stroke.pending_stroke@.len() > 0 || self.drawing.stroke.measurement_start is Some
                || self.drawing.stroke.batter_angle_points@.len() > 0 || self.drawing.stroke.circle_draft is Some),
    {
        self.drawing.stroke.pending_stroke.len() > 0 || self.drawing.stroke.measurement_start.is_some()
            || self.drawing.stroke.batter_angle_points.len() > 0 || self.drawing.stroke.circle_draft.is_some()
    }

    /// Whether a snap mode is up, in plan and in the section alike.
    pub fn snapping_active(&self) -> (r: bool)
        ensures
            r == !(self.drawing.tools.cursor_mode is Select),
    {
        self.drawing.tools.cursor_mode.snaps()
    }

    pub open spec fn view_owns_click(self) -> bool {
        let tool = self.drawing.tools.active_tool;
        self.view.display.fly_mode_enabled || (self.view.slice.mode_enabled && !(tool is NoTool) && !tool.serves_section())
    }

    /// Whether the view takes canvas clicks itself: flying, or a section whose
    /// tool it has no use for.
    pub fn view_mode_owns_canvas_click(&self) -> (r: bool)
        ensures
            r == self.view_owns_click(),
    {
        self.view.display.fly_mode_enabled || (self.view.slice.mode_enabled && self.drawing.tools.active_tool.section_refuses())
    }
}

/// While a pick is in progress no dialog owns a key. A dialog that owns one of
/// the keys owns the other as well, but for the finish dialog, which takes Enter
/// alone, and the object editor, which takes Escape alone.
pub proof fn keys_go_together(editor: EditorState)
    ensures
        editor.pick_in_progress() ==> !editor.confirm_key_owned() && !editor.cancel_key_owned(),
        !editor.drawing.stroke.poly_finish_dialog && editor.drawing.canvas.object_edit is None ==> editor.confirm_key_owned()
            == editor.cancel_key_owned(),
        editor.confirm_key_owned() && !editor.cancel_key_owned() ==> editor.drawing.stroke.poly_finish_dialog,
        editor.cancel_key_owned() && !editor.confirm_key_owned() ==> editor.drawing.canvas.object_edit is Some,
{
}

/// A fresh editor owns neither key.
pub proof fn fresh_editor_owns_no_key(editor: EditorState, startup: crate::editor::Startup)
    requires
        editor.is_initial(startup),
    ensures
        !editor.confirm_key_owned(),
        !editor.cancel_key_owned(),
        !editor.view_owns_click(),
{
}

/// Every dialog that is open has both keys, unless the viewport is being asked for a pick:
/// confirmations, dialogs over data, over the selection and over models alike.
pub proof fn open_dialogs_have_both_keys(editor: EditorState)
    requires
        !editor.pick_in_progress(),
    ensures
        editor.project.lifecycle.exit_confirm_open ==> editor.confirm_key_owned() && editor.cancel_key_owned(),
        editor.project.lifecycle.replace_project_confirm_open ==> editor.confirm_key_owned() && editor.cancel_key_owned(),
        editor.project.lifecycle.lossy_save_confirm_open ==> editor.confirm_key_owned() && editor.cancel_key_owned(),
        editor.project.lifecycle.delete_confirm_open ==> editor.confirm_key_owned() && editor.cancel_key_owned(),
        editor.project.dialogs.pending_delete_layer is Some ==> editor.confirm_key_owned() && editor.cancel_key_owned(),
        editor.project.dialogs.pending_delete_item is Some ==> editor.confirm_key_owned() && editor.cancel_key_owned(),
        editor.blasting.products.pending_delete is Some ==> editor.confirm_key_owned() && editor.cancel_key_owned(),
        editor.project.lifecycle.pending_close_project is Some ==> editor.confirm_key_owned() && editor.cancel_key_owned(),
        editor.project.lifecycle.pending_discard_project is Some ==> editor.confirm_key_owned() && editor.cancel_key_owned(),
        editor.project.dialogs.pending_discard_layer is Some ==> editor.confirm_key_owned() && editor.cancel_key_owned(),
        editor.view.grid.dialog is Some ==> editor.confirm_key_owned() && editor.cancel_key_owned(),
        editor.project.transfer.show_about ==> editor.confirm_key_owned() && editor.cancel_key_owned(),
        editor.project.transfer.show_import ==> editor.confirm_key_owned() && editor.cancel_key_owned(),
        editor.project.transfer.show_export ==> editor.confirm_key_owned() && editor.cancel_key_owned(),
        editor.modelling.block_models.drill_hole_color_dialog is Some ==> editor.confirm_key_owned() && editor.cancel_key_owned(),
        editor.blasting.pattern.open ==> editor.confirm_key_owned() && editor.cancel_key_owned(),
        editor.project.transfer.plot_dialog is Some ==> editor.confirm_key_owned() && editor.cancel_key_owned(),
        editor.project.dialogs.new_layer_open ==> editor.confirm_key_owned() && editor.cancel_key_owned(),
        editor.blasting.products.new_open ==> editor.confirm_key_owned() && editor.cancel_key_owned(),
        editor.blasting.tie.initiation_dialog is Some ==> editor.confirm_key_owned() && editor.cancel_key_owned(),
        editor.project.dialogs.renaming_item is Some ==> editor.confirm_key_owned() && editor.cancel_key_owned(),
        editor.project.dialogs.new_project_open ==> editor.confirm_key_owned() && editor.cancel_key_owned(),
        editor.drawing.canvas.move_to_layer is Some ==> editor.confirm_key_owned() && editor.cancel_key_owned(),
        editor.drawing.canvas.move_to_axis is Some ==> editor.confirm_key_owned() && editor.cancel_key_owned(),
        editor.drawing.canvas.insert_point_at_elevation is Some ==> editor.confirm_key_owned() && editor.cancel_key_owned(),
        editor.triangulation.create.open ==> editor.confirm_key_owned() && editor.cancel_key_owned(),
        editor.triangulation.create.failure is Some ==> editor.confirm_key_owned() && editor.cancel_key_owned(),
        editor.triangulation.cut_poly.open ==> editor.confirm_key_owned() && editor.cancel_key_owned(),
        editor.triangulation.cut_z.open ==> editor.confirm_key_owned() && editor.cancel_key_owned(),
        editor.triangulation.cut_surface.open ==> editor.confirm_key_owned() && editor.cancel_key_owned(),
        editor.triangulation.build_solid.open ==> editor.confirm_key_owned() && editor.cancel_key_owned(),
        editor.triangulation.cut_pitshell.open ==> editor.confirm_key_owned() && editor.cancel_key_owned(),
        editor.triangulation.include_solid.open ==> editor.confirm_key_owned() && editor.cancel_key_owned(),
        editor.triangulation.contour.open ==> editor.confirm_key_owned() && editor.cancel_key_owned(),
        editor.triangulation.tin.open ==> editor.confirm_key_owned() && editor.cancel_key_owned(),
        editor.modelling.kriging.open ==> editor.confirm_key_owned() && editor.cancel_key_owned(),
        editor.modelling.ore.open ==> editor.confirm_key_owned() && editor.cancel_key_owned(),
{
}

/// Where no dialog is open no key is taken; the finish dialog alone takes Enter and the object
/// editor alone takes Escape.
pub proof fn closed_dialogs_have_no_key(editor: EditorState)
    requires
        !editor.project.lifecycle.exit_confirm_open,
        !editor.project.lifecycle.replace_project_confirm_open,
        !editor.project.lifecycle.lossy_save_confirm_open,
        !editor.project.lifecycle.delete_confirm_open,
        editor.project.dialogs.pending_delete_layer is None,
        editor.project.dialogs.pending_delete_item is None,
        editor.blasting.products.pending_delete is None,
        editor.project.lifecycle.pending_close_project is None,
        editor.project.lifecycle.pending_discard_project is None,
        editor.project.dialogs.pending_discard_layer is None,
        editor.view.grid.dialog is None,
        !editor.project.transfer.show_about,
        !editor.project.transfer.show_import,
        !editor.project.transfer.show_export,
        editor.modelling.block_models.drill_hole_color_dialog is None,
        !editor.blasting.pattern.open,
        editor.project.transfer.plot_dialog is None,
        !editor.project.dialogs.new_layer_open,
        !editor.blasting.products.new_open,
        editor.blasting.tie.initiation_dialog is None,
        editor.project.dialogs.renaming_item is None,
        !editor.project.dialogs.new_project_open,
        editor.drawing.canvas.move_to_layer is None,
        editor.drawing.canvas.move_to_axis is None,
        editor.drawing.canvas.insert_point_at_elevation is None,
        !editor.triangulation.create.open,
        editor.triangulation.create.failure is None,
        !editor.triangulation.cut_poly.open,
        !editor.triangulation.cut_z.open,
        !editor.triangulation.cut_surface.open,
        !editor.triangulation.build_solid.open,
        !editor.triangulation.cut_pitshell.open,
        !editor.triangulation.include_solid.open,
        !editor.triangulation.contour.open,
        !editor.triangulation.tin.open,
        !editor.modelling.kriging.open,
        !editor.modelling.ore.open,
        !editor.pick_in_progress(),
    ensures
        editor.confirm_key_owned() <==> editor.drawing.stroke.poly_finish_dialog,
        editor.cancel_key_owned() <==> editor.drawing.canvas.object_edit is Some,
{
}

/// A pick is in progress while a dialog waits for a triangulation, a polyline or a blast shape,
/// while the canvas menu is open and while a text is being edited, and at no other time.
pub proof fn picks_are_in_progress_while_waited_for(editor: EditorState)
    ensures
        editor.triangulation.create.pick_target is Some || editor.triangulation.cut_poly.awaiting_pick
            || editor.blasting.pattern.awaiting_shape_pick || editor.drawing.canvas.context_menu_open || editor.drawing.text.editing_enabled
            ==> editor.pick_in_progress(),
        editor.triangulation.create.pick_target is None && !editor.triangulation.cut_poly.awaiting_pick
            && !editor.blasting.pattern.awaiting_shape_pick && !editor.drawing.canvas.context_menu_open
            && !editor.drawing.text.editing_enabled ==> !editor.pick_in_progress(),
{
}

/// The view takes every click while flying, and in a section the clicks of tools that it has
/// no use for. In plan, and for picking, it takes none.
pub proof fn views_take_clicks_they_have_use_for(editor: EditorState)
    ensures
        editor.view.display.fly_mode_enabled ==> editor.view_owns_click(),
        !editor.view.display.fly_mode_enabled && !editor.view.slice.mode_enabled ==> !editor.view_owns_click(),
        !editor.view.display.fly_mode_enabled && editor.drawing.tools.active_tool is NoTool ==> !editor.view_owns_click(),
        !editor.view.display.fly_mode_enabled && editor.drawing.tools.active_tool.serves_section() ==> !editor.view_owns_click(),
        editor.view.slice.mode_enabled && !(editor.drawing.tools.active_tool is NoTool) && !editor.drawing.tools.active_tool.serves_section()
            ==> editor.view_owns_click(),
{
}

} // verus!
