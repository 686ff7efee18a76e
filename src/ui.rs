//! Selectable lists, tabs and the geometry they use.

pub mod geometry;
pub mod multi_select;
pub mod select_laws;
pub mod focus_memory;
pub mod tab;
pub mod view;
