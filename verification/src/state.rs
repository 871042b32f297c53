//! The editor: everything the interface remembers between frames.
pub mod blasting;
pub mod block_model;
pub mod drawing;
pub mod geometry;
pub mod planning;
pub mod project;
pub mod selection;
pub mod triangulation;
pub mod view;
