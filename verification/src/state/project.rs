//! Projects: dialogs, lifecycle and transfer.
use crate::ids::{BlockModelId, Carried, LayerId, RenameTarget, TriangulationId};
use crate::tools::DataMenu;
use crate::views::TextureId;
use vstd::prelude::*;

verus! {

/// Dialogs over projects and explorer items.
#[derive(Debug)]
pub struct ProjectDialogs {
    /// Prompt for a named project, in the browser.
    pub new_project_open: bool,
    pub new_project_name: String,
    pub new_layer_open: bool,
    pub new_layer_name: String,
    /// The item being renamed, and the name typed so far.
    pub renaming_item: Option<(RenameTarget, String)>,
    /// Layer awaiting deletion, with its name.
    pub pending_delete_layer: Option<(LayerId, String)>,
    /// Explorer item awaiting deletion, with its name.
    pub pending_delete_item: Option<(RenameTarget, String)>,
    /// Layer awaiting the discard of its changes, with its name.
    pub pending_discard_layer: Option<(LayerId, String)>,
}

impl ProjectDialogs {
    /// As a fresh editor starts.
    pub open spec fn is_initial(self, new_layer_name: String) -> bool {
        &&& !self.new_project_open
        &&& self.new_project_name@.len() == 0
        &&& !self.new_layer_open
        &&& self.new_layer_name@ == new_layer_name@
        &&& self.renaming_item is None
        &&& self.pending_delete_layer is None
        &&& self.pending_delete_item is None
        &&& self.pending_discard_layer is None
    }

    pub fn new(new_layer_name: String) -> (r: ProjectDialogs)
        ensures
            r.is_initial(new_layer_name),
    {
        ProjectDialogs {
            new_project_open: false,
            new_project_name: String::new(),
            new_layer_open: false,
            new_layer_name,
            renaming_item: None,
            pending_delete_layer: None,
            pending_delete_item: None,
            pending_discard_layer: None,
        }
    }

    /// As leaving a project turns it.
    pub open spec fn cleared_from(self, before: ProjectDialogs) -> bool {
        &&& !self.new_project_open
        &&& self.new_project_name == before.new_project_name
        &&& !self.new_layer_open
        &&& self.new_layer_name == before.new_layer_name
        &&& self.renaming_item is None
        &&& self.pending_delete_layer is None
        &&& self.pending_delete_item is None
        &&& self.pending_discard_layer is None
    }

    pub fn clear(&mut self)
        ensures
            final(self).cleared_from(*old(self)),
    {
        self.new_project_open = false;
        self.new_layer_open = false;
        self.renaming_item = None;
        self.pending_delete_layer = None;
        self.pending_delete_item = None;
        self.pending_discard_layer = None;
    }
}

/// Confirmations of what becomes of a project.
#[derive(Debug)]
pub struct LifecycleState {
    /// Save before quitting?
    pub exit_confirm_open: bool,
    pub delete_confirm_open: bool,
    /// Dirty project awaiting confirmation before it is closed.
    pub pending_close_project: Option<u32>,
    /// The pending close was started by Remove Project.
    pub remove_project_after_close: bool,
    /// A New or Open action is waiting for a choice.
    pub replace_project_confirm_open: bool,
    pub lossy_save_confirm_open: bool,
    /// Dirty project awaiting confirmation before its changes are discarded.
    pub pending_discard_project: Option<u32>,
}

impl LifecycleState {
    /// As a fresh editor starts.
    pub open spec fn is_initial(self) -> bool {
        &&& !self.exit_confirm_open
        &&& !self.delete_confirm_open
        &&& self.pending_close_project is None
        &&& !self.remove_project_after_close
        &&& !self.replace_project_confirm_open
        &&& !self.lossy_save_confirm_open
        &&& self.pending_discard_project is None
    }

    pub fn new() -> (r: LifecycleState)
        ensures
            r.is_initial(),
    {
        LifecycleState {
            exit_confirm_open: false,
            delete_confirm_open: false,
            pending_close_project: None,
            remove_project_after_close: false,
            replace_project_confirm_open: false,
            lossy_save_confirm_open: false,
            pending_discard_project: None,
        }
    }

    /// As leaving a project turns it.
    pub open spec fn cleared_from(self, before: LifecycleState) -> bool {
        &&& self.exit_confirm_open == before.exit_confirm_open
        &&& !self.delete_confirm_open
        &&& self.pending_close_project is None
        &&& !self.remove_project_after_close
        &&& !self.replace_project_confirm_open
        &&& !self.lossy_save_confirm_open
        &&& self.pending_discard_project is None
    }

    pub fn clear(&mut self)
        ensures
            final(self).cleared_from(*old(self)),
    {
        self.delete_confirm_open = false;
        self.pending_close_project = None;
        self.remove_project_after_close = false;
        self.replace_project_confirm_open = false;
        self.lossy_save_confirm_open = false;
        self.pending_discard_project = None;
    }
}

/// Import, export, plotting and the About box.
#[derive(Debug)]
pub struct TransferState {
    pub show_import: bool,
    pub show_export: bool,
    pub show_about: bool,
    pub data_menu: DataMenu,
    pub import_source_menu: DataMenu,
    pub import_source_paths: Vec<String>,
    pub import_csv_preview: Option<Carried>,
    pub import_csv_error: Option<String>,
    pub import_drill_csv: Vec<Carried>,
    pub export_dxf_layer: bool,
    /// Runtime id of the project selected for export.
    pub export_project: Option<u32>,
    pub export_layer: Option<LayerId>,
    pub export_triangulation: Option<TriangulationId>,
    pub export_block_model: Option<BlockModelId>,
    pub plot_dialog: Option<Carried>,
    pub plot_preview_texture: Option<TextureId>,
}

impl TransferState {
    /// As a fresh editor starts.
    pub open spec fn is_initial(self) -> bool {
        &&& !self.show_import
        &&& !self.show_export
        &&& !self.show_about
        &&& self.data_menu == DataMenu::NoMenu
        &&& self.import_source_menu == DataMenu::NoMenu
        &&& self.import_source_paths@.len() == 0
        &&& self.import_csv_preview is None
        &&& self.import_csv_error is None
        &&& self.import_drill_csv@.len() == 0
        &&& !self.export_dxf_layer
        &&& self.export_project is None
        &&& self.export_layer is None
        &&& self.export_triangulation is None
        &&& self.export_block_model is None
        &&& self.plot_dialog is None
        &&& self.plot_preview_texture is None
    }

    pub fn new() -> (r: TransferState)
        ensures
            r.is_initial(),
    {
        TransferState {
            show_import: false,
            show_export: false,
            show_about: false,
            data_menu: DataMenu::NoMenu,
            import_source_menu: DataMenu::NoMenu,
            import_source_paths: Vec::new(),
            import_csv_preview: None,
            import_csv_error: None,
            import_drill_csv: Vec::new(),
            export_dxf_layer: false,
            export_project: None,
            export_layer: None,
            export_triangulation: None,
            export_block_model: None,
            plot_dialog: None,
            plot_preview_texture: None,
        }
    }

    /// As leaving a project turns it.
    pub open spec fn cleared_from(self, before: TransferState) -> bool {
        &&& self.show_import == before.show_import
        &&& !self.show_export
        &&& self.show_about == before.show_about
        &&& self.data_menu == before.data_menu
        &&& self.import_source_menu == before.import_source_menu
        &&& self.import_source_paths == before.import_source_paths
        &&& self.import_csv_preview == before.import_csv_preview
        &&& self.import_csv_error == before.import_csv_error
        &&& self.import_drill_csv == before.import_drill_csv
        &&& self.export_dxf_layer == before.export_dxf_layer
        &&& self.export_project is None
        &&& self.export_layer is None
        &&& self.export_triangulation is None
        &&& self.export_block_model is None
        &&& self.plot_dialog is None
        &&& self.plot_preview_texture is None
    }

    pub fn clear(&mut self)
        ensures
            final(self).cleared_from(*old(self)),
    {
        self.show_export = false;
        self.export_project = None;
        self.export_layer = None;
        self.export_triangulation = None;
        self.export_block_model = None;
        self.plot_dialog = None;
        self.plot_preview_texture = None;
    }
}

/// Projects.
#[derive(Debug)]
pub struct ProjectState {
    pub dialogs: ProjectDialogs,
    pub lifecycle: LifecycleState,
    pub transfer: TransferState,
}

impl ProjectState {
    /// As a fresh editor starts.
    pub open spec fn is_initial(self, new_layer_name: String) -> bool {
        &&& self.dialogs.is_initial(new_layer_name)
        &&& self.lifecycle.is_initial()
        &&& self.transfer.is_initial()
    }

    pub fn new(new_layer_name: String) -> (r: ProjectState)
        ensures
            r.is_initial(new_layer_name),
    {
        ProjectState {
            dialogs: ProjectDialogs::new(new_layer_name),
            lifecycle: LifecycleState::new(),
            transfer: TransferState::new(),
        }
    }

    /// As leaving a project turns it.
    pub open spec fn cleared_from(self, before: ProjectState) -> bool {
        &&& self.dialogs.cleared_from(before.dialogs)
        &&& self.lifecycle.cleared_from(before.lifecycle)
        &&& self.transfer.cleared_from(before.transfer)
    }

    pub fn clear(&mut self)
        ensures
            final(self).cleared_from(*old(self)),
    {
        self.dialogs.clear();
        self.lifecycle.clear();
        self.transfer.clear();
    }
}

} // verus!
