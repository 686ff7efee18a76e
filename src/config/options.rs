//! General options of the browser.

use vstd::prelude::*;

verus! {

/// Unit sizes are shown in.
#[derive(Clone, Copy, Debug, PartialEq, Eq, Structural)]
pub enum Size {
    Bits,
    Bytes,
}

/// Where the status line sits.
#[derive(Clone, Copy, Debug, PartialEq, Eq, Structural)]
pub enum StatusPosition {
    Top,
    Bottom,
}

/// General options, as written in the configuration file.
#[derive(Clone, Copy, Debug, PartialEq, Eq, Structural)]
pub struct ConfigOptions {
    pub size: Size,
    pub show_hidden: bool,
    pub confirm: bool,
    pub show_images: bool,
    pub status_position: StatusPosition,
    pub shorten_title: usize,
    pub preview_max_size: usize,
    pub delay_idle: usize,
    pub line_numbers: bool,
    pub show_popup: bool,
}

impl Default for ConfigOptions {
    fn default() -> (r: ConfigOptions)
        ensures
            r == (ConfigOptions {
                size: Size::Bytes,
                show_hidden: false,
                confirm: true,
                show_images: false,
                status_position: StatusPosition::Bottom,
                shorten_title: 0,
                preview_max_size: 102400,
                delay_idle: 2000,
                line_numbers: false,
                show_popup: false,
            }),
    {
        ConfigOptions {
            size: Size::Bytes,
            show_hidden: false,
            confirm: true,
            show_images: false,
            status_position: StatusPosition::Bottom,
            shorten_title: 0,
            preview_max_size: 102400,
            delay_idle: 2000,
            line_numbers: false,
            show_popup: false,
        }
    }
}

} // verus!
