//! Command dispatcher decisions: what each parsed operation asks of each
//! device, validated before any device is touched, and how per-device
//! outcomes fold into one exit status.
//!
//! The surrounding binary performs the remote reads and writes; every
//! decision between them is taken here.

use vstd::prelude::*;

use crate::cli::{CliStart, LedModeCommand, LedPowerCommand1, ScsiCommand, SetAuraZoneEnabled,
    SlashCommand};
use crate::error::CmdError;
use crate::merge::{merge_effect_spec, ZonePowerUpdate, ZoneUpdate};
use crate::types::{AuraEffect, AuraPowerState, LaptopAuraPower, PowerZones, ScsiAuraMode,
    SlashMode};

verus! {

/// What the basic-mode subcommand asks the dispatcher to do.
#[derive(Clone, Copy, PartialEq, Eq, Structural, Debug)]
pub enum LedModeAction {
    /// Print each device's current mode data; read-only.
    ShowCurrent,
    /// Print usage; no device is touched.
    ShowHelp,
    /// Step every device to the mode after its current one.
    CycleNext,
    /// Step every device to the mode before its current one.
    CyclePrev,
    /// Write one full effect descriptor to every device.
    ApplyEffect(AuraEffect),
}

/// The decision for the basic-mode subcommand. Asking for next and
/// previous at once is rejected here, before any device is resolved.
pub open spec fn decide_led_mode_spec(cmd: LedModeCommand) -> Result<LedModeAction, CmdError> {
    if cmd.get {
        Ok(LedModeAction::ShowCurrent)
    } else if cmd.command is None && !cmd.next_mode && !cmd.prev_mode {
        Ok(LedModeAction::ShowHelp)
    } else if cmd.next_mode && cmd.prev_mode {
        Err(CmdError::AmbiguousUserInput)
    } else if cmd.next_mode {
        Ok(LedModeAction::CycleNext)
    } else if cmd.prev_mode {
        Ok(LedModeAction::CyclePrev)
    } else {
        match cmd.command {
            Some(t) => Ok(LedModeAction::ApplyEffect(merge_effect_spec(t))),
            None => Ok(LedModeAction::ShowHelp),
        }
    }
}

/// Decides the basic-mode subcommand: show, cycle one way, or apply one
/// named effect with absent fields defaulted; `AmbiguousUserInput` when
/// both cycle directions are requested.
pub fn decide_led_mode(cmd: &LedModeCommand) -> (r: Result<LedModeAction, CmdError>)
    ensures
        r == decide_led_mode_spec(*cmd),
{
    if cmd.get {
        Ok(LedModeAction::ShowCurrent)
    } else if cmd.command.is_none() && !cmd.next_mode && !cmd.prev_mode {
        Ok(LedModeAction::ShowHelp)
    } else if cmd.next_mode && cmd.prev_mode {
        Err(CmdError::AmbiguousUserInput)
    } else if cmd.next_mode {
        Ok(LedModeAction::CycleNext)
    } else if cmd.prev_mode {
        Ok(LedModeAction::CyclePrev)
    } else {
        match &cmd.command {
            Some(t) => Ok(LedModeAction::ApplyEffect(crate::merge::merge_effect(t))),
            None => Ok(LedModeAction::ShowHelp),
        }
    }
}

/// Whether the legacy power subcommand names nothing and should only show
/// usage.
pub open spec fn power1_shows_help_spec(cmd: LedPowerCommand1) -> bool {
    cmd.awake is None && cmd.sleep is None && cmd.boot is None && !cmd.keyboard && !cmd.lightbar
}

/// Whether the legacy power subcommand carries no toggle and no flag, so
/// usage is shown instead of touching a device.
pub fn power1_shows_help(cmd: &LedPowerCommand1) -> (r: bool)
    ensures
        r == power1_shows_help_spec(*cmd),
{
    cmd.awake.is_none() && cmd.sleep.is_none() && cmd.boot.is_none() && !cmd.keyboard
        && !cmd.lightbar
}

/// The zone entry the legacy command writes for `zone`: the given flags,
/// absent ones false, shutdown always false.
pub open spec fn power1_state_for(zone: PowerZones, cmd: LedPowerCommand1) -> AuraPowerState {
    AuraPowerState {
        zone,
        boot: match cmd.boot {
            Some(b) => b,
            None => false,
        },
        awake: match cmd.awake {
            Some(b) => b,
            None => false,
        },
        sleep: match cmd.sleep {
            Some(b) => b,
            None => false,
        },
        shutdown: false,
    }
}

/// The full state sequence the legacy command writes: a keyboard entry
/// when its toggle is given, then a lightbar entry when its toggle is
/// given.
pub open spec fn power1_states_spec(cmd: LedPowerCommand1) -> Seq<AuraPowerState> {
    let s0 = Seq::<AuraPowerState>::empty();
    let s1 = if cmd.keyboard {
        s0.push(power1_state_for(PowerZones::Keyboard, cmd))
    } else {
        s0
    };
    if cmd.lightbar {
        s1.push(power1_state_for(PowerZones::Lightbar, cmd))
    } else {
        s1
    }
}

/// Builds the full replacement power state the legacy command writes; the
/// result configures each named zone once.
pub fn power1_states(cmd: &LedPowerCommand1) -> (r: LaptopAuraPower)
    ensures
        r.states@ == power1_states_spec(*cmd),
        r.wf(),
{
    let mut states: Vec<AuraPowerState> = Vec::new();
    let boot = match cmd.boot {
        Some(b) => b,
        None => false,
    };
    let awake = match cmd.awake {
        Some(b) => b,
        None => false,
    };
    let sleep = match cmd.sleep {
        Some(b) => b,
        None => false,
    };
    if cmd.keyboard {
        states.push(AuraPowerState {
            zone: PowerZones::Keyboard,
            boot,
            awake,
            sleep,
            shutdown: false,
        });
    }
    if cmd.lightbar {
        states.push(AuraPowerState {
            zone: PowerZones::Lightbar,
            boot,
            awake,
            sleep,
            shutdown: false,
        });
    }
    LaptopAuraPower { states }
}

/// The zone and full four-flag update one per-zone subcommand denotes.
pub open spec fn zone_update_spec(cmd: SetAuraZoneEnabled) -> ZoneUpdate {
    match cmd {
        SetAuraZoneEnabled::Keyboard(s) => ZoneUpdate {
            zone: PowerZones::Keyboard,
            update: ZonePowerUpdate {
                boot: Some(s.boot),
                awake: Some(s.awake),
                sleep: Some(s.sleep),
                shutdown: Some(s.shutdown),
            },
        },
        SetAuraZoneEnabled::Logo(s) => ZoneUpdate {
            zone: PowerZones::Logo,
            update: ZonePowerUpdate {
                boot: Some(s.boot),
                awake: Some(s.awake),
                sleep: Some(s.sleep),
                shutdown: Some(s.shutdown),
            },
        },
        SetAuraZoneEnabled::Lightbar(s) => ZoneUpdate {
            zone: PowerZones::Lightbar,
            update: ZonePowerUpdate {
                boot: Some(s.boot),
                awake: Some(s.awake),
                sleep: Some(s.sleep),
                shutdown: Some(s.shutdown),
            },
        },
        SetAuraZoneEnabled::Lid(s) => ZoneUpdate {
            zone: PowerZones::Lid,
            update: ZonePowerUpdate {
                boot: Some(s.boot),
                awake: Some(s.awake),
                sleep: Some(s.sleep),
                shutdown: Some(s.shutdown),
            },
        },
        SetAuraZoneEnabled::RearGlow(s) => ZoneUpdate {
            zone: PowerZones::RearGlow,
            update: ZonePowerUpdate {
                boot: Some(s.boot),
                awake: Some(s.awake),
                sleep: Some(s.sleep),
                shutdown: Some(s.shutdown),
            },
        },
        SetAuraZoneEnabled::Ally(s) => ZoneUpdate {
            zone: PowerZones::Ally,
            update: ZonePowerUpdate {
                boot: Some(s.boot),
                awake: Some(s.awake),
                sleep: Some(s.sleep),
                shutdown: Some(s.shutdown),
            },
        },
    }
}

/// Turns one per-zone subcommand into the update the merge engine applies:
/// the named zone with all four flags present.
pub fn zone_update_of(cmd: &SetAuraZoneEnabled) -> (r: ZoneUpdate)
    ensures
        r == zone_update_spec(*cmd),
{
    let (zone, s) = match cmd {
        SetAuraZoneEnabled::Keyboard(s) => (PowerZones::Keyboard, s),
        SetAuraZoneEnabled::Logo(s) => (PowerZones::Logo, s),
        SetAuraZoneEnabled::Lightbar(s) => (PowerZones::Lightbar, s),
        SetAuraZoneEnabled::Lid(s) => (PowerZones::Lid, s),
        SetAuraZoneEnabled::RearGlow(s) => (PowerZones::RearGlow, s),
        SetAuraZoneEnabled::Ally(s) => (PowerZones::Ally, s),
    };
    ZoneUpdate {
        zone,
        update: ZonePowerUpdate {
            boot: Some(s.boot),
            awake: Some(s.awake),
            sleep: Some(s.sleep),
            shutdown: Some(s.shutdown),
        },
    }
}

/// One write to the accessory lightbar.
#[derive(Clone, Copy, PartialEq, Eq, Structural, Debug)]
pub enum SlashAction {
    SetEnabled(bool),
    SetBrightness(u8),
    SetInterval(u8),
    SetMode(SlashMode),
    SetShowOnBoot(bool),
    SetShowOnShutdown(bool),
    SetShowOnSleep(bool),
    SetShowOnBattery(bool),
    SetShowBatteryWarning(bool),
}

/// The writes the accessory-lightbar subcommand performs on each device,
/// in their fixed application order.
pub open spec fn slash_plan_spec(cmd: SlashCommand) -> Seq<SlashAction> {
    let s0 = Seq::<SlashAction>::empty();
    let s1 = if cmd.enable {
        s0.push(SlashAction::SetEnabled(true))
    } else {
        s0
    };
    let s2 = if cmd.disable {
        s1.push(SlashAction::SetEnabled(false))
    } else {
        s1
    };
    let s3 = match cmd.brightness {
        Some(b) => s2.push(SlashAction::SetBrightness(b)),
        None => s2,
    };
    let s4 = match cmd.interval {
        Some(iv) => s3.push(SlashAction::SetInterval(iv)),
        None => s3,
    };
    let s5 = match cmd.mode {
        Some(m) => s4.push(SlashAction::SetMode(m)),
        None => s4,
    };
    let s6 = match cmd.show_on_boot {
        Some(b) => s5.push(SlashAction::SetShowOnBoot(b)),
        None => s5,
    };
    let s7 = match cmd.show_on_shutdown {
        Some(b) => s6.push(SlashAction::SetShowOnShutdown(b)),
        None => s6,
    };
    let s8 = match cmd.show_on_sleep {
        Some(b) => s7.push(SlashAction::SetShowOnSleep(b)),
        None => s7,
    };
    let s9 = match cmd.show_on_battery {
        Some(b) => s8.push(SlashAction::SetShowOnBattery(b)),
        None => s8,
    };
    match cmd.show_battery_warning {
        Some(b) => s9.push(SlashAction::SetShowBatteryWarning(b)),
        None => s9,
    }
}

/// Lists the writes the accessory-lightbar subcommand asks for, in the
/// order they are applied to each device; an empty list means the command
/// was informational only.
pub fn slash_plan(cmd: &SlashCommand) -> (r: Vec<SlashAction>)
    ensures
        r@ == slash_plan_spec(*cmd),
{
    let mut out: Vec<SlashAction> = Vec::new();
    if cmd.enable {
        out.push(SlashAction::SetEnabled(true));
    }
    if cmd.disable {
        out.push(SlashAction::SetEnabled(false));
    }
    if let Some(b) = cmd.brightness {
        out.push(SlashAction::SetBrightness(b));
    }
    if let Some(iv) = cmd.interval {
        out.push(SlashAction::SetInterval(iv));
    }
    if let Some(m) = cmd.mode {
        out.push(SlashAction::SetMode(m));
    }
    if let Some(b) = cmd.show_on_boot {
        out.push(SlashAction::SetShowOnBoot(b));
    }
    if let Some(b) = cmd.show_on_shutdown {
        out.push(SlashAction::SetShowOnShutdown(b));
    }
    if let Some(b) = cmd.show_on_sleep {
        out.push(SlashAction::SetShowOnSleep(b));
    }
    if let Some(b) = cmd.show_on_battery {
        out.push(SlashAction::SetShowOnBattery(b));
    }
    if let Some(b) = cmd.show_battery_warning {
        out.push(SlashAction::SetShowBatteryWarning(b));
    }
    proof {
        assert(out@ =~= slash_plan_spec(*cmd));
    }
    out
}

/// Whether the accessory-lightbar subcommand names nothing to do, or help
/// was asked for.
pub open spec fn slash_shows_help_spec(cmd: SlashCommand) -> bool {
    (cmd.brightness is None && cmd.interval is None && cmd.show_on_boot is None
        && cmd.show_on_shutdown is None && cmd.show_on_sleep is None && cmd.show_on_battery is None
        && cmd.show_battery_warning is None && cmd.mode is None && !cmd.list && !cmd.enable
        && !cmd.disable) || cmd.help
}

/// Whether usage is printed for the accessory-lightbar subcommand.
pub fn slash_shows_help(cmd: &SlashCommand) -> (r: bool)
    ensures
        r == slash_shows_help_spec(*cmd),
{
    (cmd.brightness.is_none() && cmd.interval.is_none() && cmd.show_on_boot.is_none()
        && cmd.show_on_shutdown.is_none() && cmd.show_on_sleep.is_none()
        && cmd.show_on_battery.is_none() && cmd.show_battery_warning.is_none()
        && cmd.mode.is_none() && !cmd.list && !cmd.enable && !cmd.disable) || cmd.help
}

/// One write the enclosure subcommand performs before the read-patch-write
/// of the colour slots.
#[derive(Clone, Copy, PartialEq, Eq, Structural, Debug)]
pub enum ScsiAction {
    SetEnabled(bool),
    SetLedMode(ScsiAuraMode),
}

/// The enclosure writes that precede the descriptor patch, in order.
pub open spec fn scsi_pre_actions_spec(cmd: ScsiCommand) -> Seq<ScsiAction> {
    let s0 = Seq::<ScsiAction>::empty();
    let s1 = match cmd.enable {
        Some(e) => s0.push(ScsiAction::SetEnabled(e)),
        None => s0,
    };
    match cmd.mode {
        Some(m) => s1.push(ScsiAction::SetLedMode(m)),
        None => s1,
    }
}

/// Lists the enable and mode writes the enclosure subcommand asks for;
/// the colour/speed/direction patch follows separately on the device's
/// read-back descriptor.
pub fn scsi_pre_actions(cmd: &ScsiCommand) -> (r: Vec<ScsiAction>)
    ensures
        r@ == scsi_pre_actions_spec(*cmd),
{
    let mut out: Vec<ScsiAction> = Vec::new();
    if let Some(e) = cmd.enable {
        out.push(ScsiAction::SetEnabled(e));
    }
    if let Some(m) = cmd.mode {
        out.push(ScsiAction::SetLedMode(m));
    }
    proof {
        assert(out@ =~= scsi_pre_actions_spec(*cmd));
    }
    out
}

/// Whether the enclosure subcommand names nothing to do, or help was
/// asked for.
pub open spec fn scsi_shows_help_spec(cmd: ScsiCommand) -> bool {
    (!cmd.list && cmd.enable is None && cmd.mode is None && cmd.colours@.len() == 0) || cmd.help
}

/// Whether usage is printed for the enclosure subcommand.
pub fn scsi_shows_help(cmd: &ScsiCommand) -> (r: bool)
    ensures
        r == scsi_shows_help_spec(*cmd),
{
    (!cmd.list && cmd.enable.is_none() && cmd.mode.is_none() && cmd.colours.len() == 0) || cmd.help
}

/// Whether a bare invocation (no subcommand) prints the top-level usage:
/// either nothing at all was requested, or help was.
pub open spec fn cli_shows_help_spec(c: CliStart) -> bool {
    c.command is None && ((!c.show_supported && c.kbd_bright is None && !c.next_kbd_bright
        && !c.prev_kbd_bright) || c.help)
}

/// Whether the top-level usage is printed for this invocation.
pub fn cli_shows_help(c: &CliStart) -> (r: bool)
    ensures
        r == cli_shows_help_spec(*c),
{
    c.command.is_none() && ((!c.show_supported && c.kbd_bright.is_none() && !c.next_kbd_bright
        && !c.prev_kbd_bright) || c.help)
}

/// How one device fared: written, skipped with its reason, or failed with
/// its reason.
#[derive(Clone, PartialEq, Eq, Debug)]
pub enum DeviceOutcome {
    /// Every write this device needed succeeded.
    Success,
    /// The device was left untouched, with a notice; not a failure.
    Skipped(CmdError),
    /// A required write failed; later devices still run.
    Failed(CmdError),
}

/// One device's identity and outcome, emitted in resolved order.
#[derive(Clone, PartialEq, Eq, Debug)]
pub struct DeviceReport {
    pub path: String,
    pub outcome: DeviceOutcome,
}

/// Whether any targeted device's required write failed.
pub open spec fn any_failure(reports: Seq<DeviceReport>) -> bool {
    exists|i: int| 0 <= i < reports.len() && reports[i].outcome is Failed
}

/// Folds the per-device outcomes: the invocation succeeds exactly when no
/// attempted device failed; skipped devices do not count against it.
pub fn overall_success(reports: &Vec<DeviceReport>) -> (r: bool)
    ensures
        r == !any_failure(reports@),
{
    let n = reports.len();
    let mut i: usize = 0;
    while i < n
        invariant
            i <= n,
            n == reports@.len(),
            forall|k: int| 0 <= k < i ==> !(reports@[k].outcome is Failed),
        decreases n - i,
    {
        if matches!(reports[i].outcome, DeviceOutcome::Failed(_)) {
            return false;
        }
        i += 1;
    }
    proof {
        if any_failure(reports@) {
            let k = choose|k: int| 0 <= k < reports@.len() && reports@[k].outcome is Failed;
            assert(!(reports@[k].outcome is Failed));
        }
    }
    true
}

/// The process exit code: zero exactly when the devices the command needed
/// were resolved and no attempted device failed. Informational commands
/// that need no device pass `true` for `resolved`.
pub fn exit_code(resolved: bool, reports: &Vec<DeviceReport>) -> (r: i32)
    ensures
        r == 0 <==> (resolved && !any_failure(reports@)),
        r == 0 || r == 1,
{
    if !resolved {
        return 1;
    }
    if overall_success(reports) {
        0
    } else {
        1
    }
}

} // verus!
