use asusctl::capability::{generation_for, visible_commands, AuraOperation, CapabilitySet,
    PowerCommandGeneration};
use asusctl::cli::{AuraPowerStates, LedModeCommand, LedPowerCommand1, ScsiCommand,
    SetAuraZoneEnabled, SlashCommand};
use asusctl::dispatch::{cli_shows_help, decide_led_mode, exit_code, overall_success,
    power1_shows_help, power1_states, scsi_pre_actions, scsi_shows_help, slash_plan,
    slash_shows_help, zone_update_of, DeviceOutcome, DeviceReport, LedModeAction, ScsiAction,
    SlashAction};
use asusctl::error::CmdError;
use asusctl::merge::{merge_power_state, SetAuraBuiltin};
use asusctl::types::{AuraDeviceType, AuraModeNum, AuraPowerState, AuraZone, Colour,
    LaptopAuraPower, LedBrightness, PowerZones, ScsiAuraMode, SlashMode, Speed};

fn empty_mode_command() -> LedModeCommand {
    LedModeCommand { help: false, next_mode: false, prev_mode: false, get: false, command: None }
}

#[test]
fn next_and_prev_together_are_ambiguous() {
    let cmd = LedModeCommand { next_mode: true, prev_mode: true, ..empty_mode_command() };
    assert_eq!(decide_led_mode(&cmd), Err(CmdError::AmbiguousUserInput));
}

#[test]
fn mode_command_decisions() {
    assert_eq!(decide_led_mode(&empty_mode_command()), Ok(LedModeAction::ShowHelp));
    let get = LedModeCommand { get: true, ..empty_mode_command() };
    assert_eq!(decide_led_mode(&get), Ok(LedModeAction::ShowCurrent));
    let next = LedModeCommand { next_mode: true, ..empty_mode_command() };
    assert_eq!(decide_led_mode(&next), Ok(LedModeAction::CycleNext));
    let prev = LedModeCommand { prev_mode: true, ..empty_mode_command() };
    assert_eq!(decide_led_mode(&prev), Ok(LedModeAction::CyclePrev));
}

#[test]
fn mode_template_becomes_a_full_effect() {
    let cmd = LedModeCommand {
        command: Some(SetAuraBuiltin {
            mode: AuraModeNum::Static,
            zone: None,
            colour1: Some(Colour { r: 0, g: 0, b: 255 }),
            colour2: None,
            speed: None,
            direction: None,
        }),
        ..empty_mode_command()
    };
    match decide_led_mode(&cmd) {
        Ok(LedModeAction::ApplyEffect(e)) => {
            assert_eq!(e.mode, AuraModeNum::Static);
            assert_eq!(e.zone, AuraZone::Whole);
            assert_eq!(e.colour2, Colour { r: 0, g: 0, b: 0 });
        }
        other => panic!("unexpected decision: {:?}", other),
    }
}

#[test]
fn device_class_selects_power_command_generation() {
    assert_eq!(generation_for(AuraDeviceType::Old), Some(PowerCommandGeneration::Legacy));
    assert_eq!(generation_for(AuraDeviceType::Tuf), Some(PowerCommandGeneration::Legacy));
    assert_eq!(generation_for(AuraDeviceType::New), Some(PowerCommandGeneration::Current));
    assert_eq!(generation_for(AuraDeviceType::Unknown), None);
}

fn caps_for(device_type: AuraDeviceType) -> CapabilitySet {
    CapabilitySet {
        supported_brightness: vec![LedBrightness::Off, LedBrightness::Low, LedBrightness::High],
        supported_basic_modes: vec![AuraModeNum::Static, AuraModeNum::Breathe],
        supported_basic_zones: vec![AuraZone::Whole, AuraZone::Logo],
        supported_power_zones: vec![PowerZones::Keyboard, PowerZones::Lightbar],
        device_type,
    }
}

#[test]
fn old_device_rejects_new_only_zone_power_command() {
    let caps = caps_for(AuraDeviceType::Old);
    let op = AuraOperation::PowerCurrent(PowerZones::Keyboard);
    assert_eq!(caps.check(&op), Err(CmdError::Unsupported));
    assert!(!caps.is_supported(&op));
}

#[test]
fn new_device_accepts_zone_power_command_for_declared_zone() {
    let caps = caps_for(AuraDeviceType::New);
    assert_eq!(caps.check(&AuraOperation::PowerCurrent(PowerZones::Keyboard)), Ok(()));
    assert_eq!(
        caps.check(&AuraOperation::PowerCurrent(PowerZones::RearGlow)),
        Err(CmdError::Unsupported)
    );
}

#[test]
fn new_device_rejects_legacy_power_command() {
    let caps = caps_for(AuraDeviceType::New);
    assert_eq!(caps.check(&AuraOperation::PowerLegacy), Err(CmdError::Unsupported));
    assert_eq!(caps_for(AuraDeviceType::Tuf).check(&AuraOperation::PowerLegacy), Ok(()));
}

#[test]
fn undeclared_mode_and_brightness_are_unsupported() {
    let caps = caps_for(AuraDeviceType::New);
    assert!(caps.is_supported(&AuraOperation::SetMode(AuraModeNum::Breathe)));
    assert!(!caps.is_supported(&AuraOperation::SetMode(AuraModeNum::Rainbow)));
    assert!(caps.is_supported(&AuraOperation::SetBrightness(LedBrightness::High)));
    assert!(!caps.is_supported(&AuraOperation::SetBrightness(LedBrightness::Med)));
}

#[test]
fn command_menu_follows_interfaces_and_device_class() {
    let menu = visible_commands(true, false, AuraDeviceType::Old);
    assert!(menu.aura);
    assert!(menu.aura_power_old);
    assert!(!menu.aura_power);
    assert!(!menu.slash);
    let menu = visible_commands(true, true, AuraDeviceType::New);
    assert!(!menu.aura_power_old);
    assert!(menu.aura_power);
    assert!(menu.slash);
    let menu = visible_commands(false, true, AuraDeviceType::Unknown);
    assert!(!menu.aura);
    assert!(!menu.aura_power_old);
    assert!(!menu.aura_power);
}

#[test]
fn legacy_power_command_builds_one_entry_per_toggled_zone() {
    let cmd = LedPowerCommand1 {
        help: false,
        keyboard: true,
        lightbar: true,
        boot: Some(true),
        awake: None,
        sleep: Some(false),
    };
    let built = power1_states(&cmd);
    assert_eq!(
        built.states,
        vec![
            AuraPowerState {
                zone: PowerZones::Keyboard,
                boot: true,
                awake: false,
                sleep: false,
                shutdown: false,
            },
            AuraPowerState {
                zone: PowerZones::Lightbar,
                boot: true,
                awake: false,
                sleep: false,
                shutdown: false,
            },
        ]
    );
}

#[test]
fn legacy_power_command_with_nothing_shows_help() {
    let cmd = LedPowerCommand1 {
        help: false,
        keyboard: false,
        lightbar: false,
        boot: None,
        awake: None,
        sleep: None,
    };
    assert!(power1_shows_help(&cmd));
    let with_toggle = LedPowerCommand1 { keyboard: true, ..cmd };
    assert!(!power1_shows_help(&with_toggle));
}

#[test]
fn zone_subcommand_merges_onto_current_state() {
    let current = LaptopAuraPower {
        states: vec![
            AuraPowerState {
                zone: PowerZones::Keyboard,
                boot: false,
                awake: false,
                sleep: false,
                shutdown: false,
            },
            AuraPowerState {
                zone: PowerZones::Lightbar,
                boot: true,
                awake: true,
                sleep: true,
                shutdown: true,
            },
        ],
    };
    let update = zone_update_of(&SetAuraZoneEnabled::Keyboard(AuraPowerStates {
        boot: true,
        awake: true,
        sleep: false,
        shutdown: false,
    }));
    let (merged, missing) = merge_power_state(&current, &vec![update]);
    assert!(missing.is_empty());
    assert_eq!(merged.states[0].boot, true);
    assert_eq!(merged.states[0].awake, true);
    assert_eq!(merged.states[0].sleep, false);
    assert_eq!(merged.states[1], current.states[1]);
}

fn empty_slash_command() -> SlashCommand {
    SlashCommand {
        help: false,
        get: false,
        list: false,
        enable: false,
        disable: false,
        brightness: None,
        interval: None,
        mode: None,
        show_on_boot: None,
        show_on_shutdown: None,
        show_on_sleep: None,
        show_on_battery: None,
        show_battery_warning: None,
    }
}

#[test]
fn slash_plan_lists_writes_in_application_order() {
    let cmd = SlashCommand {
        enable: true,
        brightness: Some(128),
        interval: Some(3),
        mode: Some(SlashMode::Flow),
        show_on_boot: Some(true),
        ..empty_slash_command()
    };
    assert_eq!(
        slash_plan(&cmd),
        vec![
            SlashAction::SetEnabled(true),
            SlashAction::SetBrightness(128),
            SlashAction::SetInterval(3),
            SlashAction::SetMode(SlashMode::Flow),
            SlashAction::SetShowOnBoot(true),
        ]
    );
}

#[test]
fn empty_slash_command_plans_nothing_and_shows_help() {
    let cmd = empty_slash_command();
    assert!(slash_plan(&cmd).is_empty());
    assert!(slash_shows_help(&cmd));
    let listing = SlashCommand { list: true, ..empty_slash_command() };
    assert!(!slash_shows_help(&listing));
}

fn empty_scsi_command() -> ScsiCommand {
    ScsiCommand {
        help: false,
        list: false,
        enable: None,
        mode: None,
        colours: Vec::new(),
        speed: None,
        direction: None,
    }
}

#[test]
fn scsi_pre_actions_order_enable_before_mode() {
    let cmd = ScsiCommand {
        enable: Some(true),
        mode: Some(ScsiAuraMode::Rainbow),
        ..empty_scsi_command()
    };
    assert_eq!(
        scsi_pre_actions(&cmd),
        vec![ScsiAction::SetEnabled(true), ScsiAction::SetLedMode(ScsiAuraMode::Rainbow)]
    );
}

#[test]
fn empty_scsi_command_shows_help() {
    assert!(scsi_shows_help(&empty_scsi_command()));
    let with_colour = ScsiCommand {
        colours: vec![Colour { r: 1, g: 2, b: 3 }],
        ..empty_scsi_command()
    };
    assert!(!scsi_shows_help(&with_colour));
    let speed_only = ScsiCommand { speed: Some(Speed::High), ..empty_scsi_command() };
    assert!(scsi_shows_help(&speed_only));
}

#[test]
fn bare_invocation_shows_top_level_help() {
    let bare = asusctl::cli::CliStart::default();
    assert!(cli_shows_help(&bare));
    let with_flag = asusctl::cli::CliStart {
        next_kbd_bright: true,
        ..asusctl::cli::CliStart::default()
    };
    assert!(!cli_shows_help(&with_flag));
}

fn report(path: &str, outcome: DeviceOutcome) -> DeviceReport {
    DeviceReport { path: String::from(path), outcome }
}

#[test]
fn skips_do_not_fail_the_invocation() {
    let reports = vec![
        report("/a", DeviceOutcome::Success),
        report("/b", DeviceOutcome::Skipped(CmdError::Unsupported)),
    ];
    assert!(overall_success(&reports));
    assert_eq!(exit_code(true, &reports), 0);
}

#[test]
fn one_failed_device_fails_the_invocation_without_aborting_others() {
    let reports = vec![
        report("/a", DeviceOutcome::Success),
        report("/b", DeviceOutcome::Failed(CmdError::RemoteError(String::from("write refused")))),
        report("/c", DeviceOutcome::Success),
    ];
    assert!(!overall_success(&reports));
    assert_eq!(exit_code(true, &reports), 1);
}

#[test]
fn unresolved_required_devices_exit_nonzero_with_no_reports() {
    let reports: Vec<DeviceReport> = Vec::new();
    assert_eq!(exit_code(false, &reports), 1);
    assert_eq!(exit_code(true, &reports), 0);
}
