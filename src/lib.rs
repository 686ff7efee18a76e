//! Navigation core of a three-pane (Miller columns) directory browser: a
//! selectable list with a modal key-sequence interpreter, and the tab state
//! machine that keeps the parent and current panes in step.

pub mod browser;
pub mod config;
pub mod error;
pub mod event;
pub mod fs;
pub mod ui;
