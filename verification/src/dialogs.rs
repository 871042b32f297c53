//! What the dialogs and the docked panels of the tools do.
pub mod placement_dialogs;
pub mod project_dialogs;
pub mod selection_dialogs;
pub mod tool_panels;
pub mod view_dialogs;
