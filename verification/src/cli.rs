//! The parsed command surface: one plain value per subcommand, handed in
//! by the argument-parsing front end and consumed by the dispatcher.

use vstd::prelude::*;

use crate::merge::SetAuraBuiltin;
use crate::types::{Colour, Direction, LedBrightness, ScsiAuraMode, SlashMode, Speed};

verus! {

/// A keyboard-brightness request: show the current level, or set one.
#[derive(Clone, Copy, PartialEq, Eq, Structural, Debug)]
pub enum BrightnessRequest {
    Query,
    SetLevel(LedBrightness),
}

/// The basic-mode subcommand: cycle, apply a named mode, or show state.
#[derive(Clone, Copy, PartialEq, Eq, Structural, Debug)]
pub struct LedModeCommand {
    pub help: bool,
    pub next_mode: bool,
    pub prev_mode: bool,
    pub get: bool,
    pub command: Option<SetAuraBuiltin>,
}

/// The legacy power subcommand: keyboard/lightbar toggles with shared
/// boot/awake/sleep flags, for the old and TUF device classes.
#[derive(Clone, Copy, PartialEq, Eq, Structural, Debug)]
pub struct LedPowerCommand1 {
    pub help: bool,
    pub keyboard: bool,
    pub lightbar: bool,
    pub boot: Option<bool>,
    pub awake: Option<bool>,
    pub sleep: Option<bool>,
}

/// The four flags of one zone as given on the command line, all explicit.
#[derive(Clone, Copy, PartialEq, Eq, Structural, Debug)]
pub struct AuraPowerStates {
    pub boot: bool,
    pub awake: bool,
    pub sleep: bool,
    pub shutdown: bool,
}

/// The per-zone form of the current power subcommand.
#[derive(Clone, Copy, PartialEq, Eq, Structural, Debug)]
pub enum SetAuraZoneEnabled {
    Keyboard(AuraPowerStates),
    Logo(AuraPowerStates),
    Lightbar(AuraPowerStates),
    Lid(AuraPowerStates),
    RearGlow(AuraPowerStates),
    Ally(AuraPowerStates),
}

/// The current power subcommand: one zone's flags, for the new device
/// class.
#[derive(Clone, Copy, PartialEq, Eq, Structural, Debug)]
pub struct LedPowerCommand2 {
    pub help: bool,
    pub command: Option<SetAuraZoneEnabled>,
}

/// The accessory-lightbar subcommand.
#[derive(Clone, Copy, PartialEq, Eq, Structural, Debug)]
pub struct SlashCommand {
    pub help: bool,
    pub get: bool,
    pub list: bool,
    pub enable: bool,
    pub disable: bool,
    pub brightness: Option<u8>,
    pub interval: Option<u8>,
    pub mode: Option<SlashMode>,
    pub show_on_boot: Option<bool>,
    pub show_on_shutdown: Option<bool>,
    pub show_on_sleep: Option<bool>,
    pub show_on_battery: Option<bool>,
    pub show_battery_warning: Option<bool>,
}

/// The external-enclosure subcommand: up to four positional colours.
#[derive(Clone, PartialEq, Eq, Debug)]
pub struct ScsiCommand {
    pub help: bool,
    pub list: bool,
    pub enable: Option<bool>,
    pub mode: Option<ScsiAuraMode>,
    pub colours: Vec<Colour>,
    pub speed: Option<Speed>,
    pub direction: Option<Direction>,
}

/// The matrix-display subcommand; its device family is outside this
/// client's verified core, so it only carries its help flag.
#[derive(Clone, Copy, PartialEq, Eq, Structural, Debug)]
pub struct AnimeCommand {
    pub help: bool,
}

/// One parsed subcommand.
#[derive(Clone, PartialEq, Eq, Debug)]
pub enum CliCommand {
    Aura(LedModeCommand),
    AuraPowerOld(LedPowerCommand1),
    AuraPower(LedPowerCommand2),
    Anime(AnimeCommand),
    Slash(SlashCommand),
    Scsi(ScsiCommand),
}

/// The whole parsed invocation: top-level flags and the optional
/// subcommand.
#[derive(Clone, PartialEq, Eq, Debug)]
pub struct CliStart {
    pub help: bool,
    pub version: bool,
    pub show_supported: bool,
    pub kbd_bright: Option<BrightnessRequest>,
    pub next_kbd_bright: bool,
    pub prev_kbd_bright: bool,
    pub command: Option<CliCommand>,
}

impl Default for CliStart {
    /// An invocation with nothing requested.
    fn default() -> (c: CliStart)
        ensures
            !c.help,
            !c.version,
            !c.show_supported,
            c.kbd_bright is None,
            !c.next_kbd_bright,
            !c.prev_kbd_bright,
            c.command is None,
    {
        CliStart {
            help: false,
            version: false,
            show_supported: false,
            kbd_bright: None,
            next_kbd_bright: false,
            prev_kbd_bright: false,
            command: None,
        }
    }
}

} // verus!
