//! Key bindings and options of the browser.

pub mod keys;
pub mod options;
