//! Tray-menu commands: the discrete events the tray delivers, and how
//! each mutates the configuration.  The caller translates menu-item
//! identifiers into commands and carries out the returned effect (hide or
//! re-apply overlays, update menu texts, quit).

use vstd::prelude::*;

use crate::config::{BorderStyle, Config};

verus! {

/// A command chosen from the tray menu.
#[derive(Clone, Copy, PartialEq, Eq, Structural, Debug)]
pub enum TrayCommand {
    ToggleBorder,
    ToggleFlash,
    ToggleIndicator,
    CycleBorderStyle,
    OpenSettings,
    Quit,
}

/// What the caller must do after a command was applied.
#[derive(Clone, Copy, PartialEq, Eq, Structural, Debug)]
pub enum CommandEffect {
    /// The border toggle flipped: hide the border when it went off,
    /// re-run a focus update when it came on, and update the menu text.
    BorderToggled { enabled: bool },
    /// The flash toggle flipped: update the menu text.
    FlashToggled { enabled: bool },
    /// The badge toggle flipped: show or hide all badges, and update the
    /// menu text.
    IndicatorToggled { enabled: bool },
    /// The border style advanced: restyle the border overlay and re-apply
    /// it to the current focus, and update the menu text.
    StyleChanged { style: BorderStyle },
    /// Open the settings editor.
    OpenSettingsRequested,
    /// Leave the message loop.
    QuitRequested,
}

/// Apply one tray command to the configuration.
pub fn apply_command(config: &mut Config, cmd: TrayCommand) -> (r: CommandEffect)
    ensures
        cmd == TrayCommand::ToggleBorder ==> *final(config) == (Config {
            border_enabled: !old(config).border_enabled,
            ..*old(config)
        }) && r == (CommandEffect::BorderToggled { enabled: !old(config).border_enabled }),
        cmd == TrayCommand::ToggleFlash ==> *final(config) == (Config {
            flash_enabled: !old(config).flash_enabled,
            ..*old(config)
        }) && r == (CommandEffect::FlashToggled { enabled: !old(config).flash_enabled }),
        cmd == TrayCommand::ToggleIndicator ==> *final(config) == (Config {
            indicator_enabled: !old(config).indicator_enabled,
            ..*old(config)
        }) && r == (CommandEffect::IndicatorToggled {
            enabled: !old(config).indicator_enabled,
        }),
        cmd == TrayCommand::CycleBorderStyle ==> *final(config) == (Config {
            border_style: spec_next_style(old(config).border_style),
            ..*old(config)
        }) && r == (CommandEffect::StyleChanged {
            style: spec_next_style(old(config).border_style),
        }),
        cmd == TrayCommand::OpenSettings ==> *final(config) == *old(config) && r
            == CommandEffect::OpenSettingsRequested,
        cmd == TrayCommand::Quit ==> *final(config) == *old(config) && r
            == CommandEffect::QuitRequested,
{
    match cmd {
        TrayCommand::ToggleBorder => {
            config.border_enabled = !config.border_enabled;
            CommandEffect::BorderToggled { enabled: config.border_enabled }
        },
        TrayCommand::ToggleFlash => {
            config.flash_enabled = !config.flash_enabled;
            CommandEffect::FlashToggled { enabled: config.flash_enabled }
        },
        TrayCommand::ToggleIndicator => {
            config.indicator_enabled = !config.indicator_enabled;
            CommandEffect::IndicatorToggled { enabled: config.indicator_enabled }
        },
        TrayCommand::CycleBorderStyle => {
            let style = config.border_style.next();
            config.border_style = style;
            CommandEffect::StyleChanged { style }
        },
        TrayCommand::OpenSettings => CommandEffect::OpenSettingsRequested,
        TrayCommand::Quit => CommandEffect::QuitRequested,
    }
}

/// The successor of a style in the closed cycle.
pub open spec fn spec_next_style(s: BorderStyle) -> BorderStyle {
    match s {
        BorderStyle::Solid => BorderStyle::Glow,
        BorderStyle::Glow => BorderStyle::Solid,
    }
}

} // verus!
