//! The decisions behind a mine-design interface.
pub mod appearance;
pub mod benching;
pub mod command;
pub mod constants;
pub mod cursors;
pub mod dialogs;
pub mod document;
pub mod editor;
pub mod fields;
pub mod fingerprint;
pub mod frame;
pub mod handle_set;
pub mod ids;
pub mod keys;
pub mod lists;
pub mod menus;
pub mod model;
pub mod number;
pub mod object_edit;
pub mod ordering;
pub mod overlay;
pub mod palette;
pub mod planning_pages;
pub mod planning_setup;
pub mod preferences;
pub mod previews;
pub mod project_view;
pub mod prompts;
pub mod selecting;
pub mod solid_preview;
pub mod state;
pub mod text;
pub mod tools;
pub mod viewport_bar;
pub mod views;
pub mod words;
pub mod workspace;
pub mod workspace_tabs;
