//! Runtime configuration: overlay toggles, border appearance, flash and
//! poll parameters.  Values are read-mostly; the tray commands mutate them
//! through `command::apply_command`.

use vstd::prelude::*;

use crate::color::{Color, COLOR_SCALE};

verus! {

/// Visual style of the focus border.
#[derive(Clone, Copy, PartialEq, Eq, Structural, Debug)]
pub enum BorderStyle {
    Solid,
    Glow,
}

impl BorderStyle {
    /// Successor in the closed cycle of styles.
    pub fn next(self) -> (r: BorderStyle)
        ensures
            self == BorderStyle::Solid ==> r == BorderStyle::Glow,
            self == BorderStyle::Glow ==> r == BorderStyle::Solid,
    {
        match self {
            BorderStyle::Solid => BorderStyle::Glow,
            BorderStyle::Glow => BorderStyle::Solid,
        }
    }

    /// Human-readable name of the style.
    pub fn label(self) -> (r: &'static str)
        ensures
            self == BorderStyle::Solid ==> r@ == "Solid"@,
            self == BorderStyle::Glow ==> r@ == "Glow"@,
    {
        match self {
            BorderStyle::Solid => "Solid",
            BorderStyle::Glow => "Glow",
        }
    }
}

/// Position of a style in the settings selector.
pub fn border_style_to_index(style: BorderStyle) -> (r: usize)
    ensures
        style == BorderStyle::Solid ==> r == 0,
        style == BorderStyle::Glow ==> r == 1,
{
    match style {
        BorderStyle::Solid => 0,
        BorderStyle::Glow => 1,
    }
}

/// Style at a position in the settings selector; anything past the end
/// falls back to the last style.
pub fn index_to_border_style(index: usize) -> (r: BorderStyle)
    ensures
        index == 0 ==> r == BorderStyle::Solid,
        index != 0 ==> r == BorderStyle::Glow,
{
    match index {
        0 => BorderStyle::Solid,
        _ => BorderStyle::Glow,
    }
}

/// Label for a toggle state.
pub fn on_off(enabled: bool) -> (r: &'static str)
    ensures
        enabled ==> r@ == "ON"@,
        !enabled ==> r@ == "OFF"@,
{
    if enabled {
        "ON"
    } else {
        "OFF"
    }
}

/// Application configuration.  Thickness is in whole pixels; the flash
/// opacity is in myriadths like a color channel.
#[derive(Clone, Copy, PartialEq, Eq, Structural, Debug)]
pub struct Config {
    pub border_enabled: bool,
    pub flash_enabled: bool,
    pub indicator_enabled: bool,
    pub border_color: Color,
    pub border_thickness: i32,
    pub border_style: BorderStyle,
    pub flash_duration_ms: u32,
    pub flash_opacity: u32,
    pub reveal_hotkey_enabled: bool,
    pub poll_interval_ms: u32,
}

impl Config {
    /// A configuration the engine can run on: positive thickness, duration
    /// and poll interval, and opacity and color within range.
    pub open spec fn wf(self) -> bool {
        &&& self.border_color.wf()
        &&& self.border_thickness >= 1
        &&& self.flash_duration_ms >= 1
        &&& self.flash_opacity <= COLOR_SCALE
        &&& self.poll_interval_ms >= 1
    }
}

/// The built-in defaults: blue solid border of 4 px, flash off at a quarter
/// opacity for 150 ms, badges on, polling at roughly 60 Hz.
pub open spec fn spec_default_config() -> Config {
    Config {
        border_enabled: true,
        flash_enabled: false,
        indicator_enabled: true,
        border_color: Color { r: 0, g: 4700, b: 8400, a: 9000 },
        border_thickness: 4,
        border_style: BorderStyle::Solid,
        flash_duration_ms: 150,
        flash_opacity: 2500,
        reveal_hotkey_enabled: true,
        poll_interval_ms: 16,
    }
}

impl Default for Config {
    fn default() -> (c: Config)
        ensures
            c == spec_default_config(),
            c.wf(),
    {
        Config {
            border_enabled: true,
            flash_enabled: false,
            indicator_enabled: true,
            border_color: Color { r: 0, g: 4700, b: 8400, a: 9000 },
            border_thickness: 4,
            border_style: BorderStyle::Solid,
            flash_duration_ms: 150,
            flash_opacity: 2500,
            reveal_hotkey_enabled: true,
            poll_interval_ms: 16,
        }
    }
}

} // verus!
