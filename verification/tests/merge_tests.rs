use asusctl::merge::{merge_effect, merge_power_state, scsi_patch, SetAuraBuiltin, ZonePowerUpdate,
    ZoneUpdate};
use asusctl::types::{AuraModeNum, AuraPowerState, AuraZone, Colour, Direction, LaptopAuraPower,
    PowerZones, ScsiAuraMode, ScsiModeData, Speed};

fn zone_state(zone: PowerZones, boot: bool, awake: bool, sleep: bool, shutdown: bool)
    -> AuraPowerState {
    AuraPowerState { zone, boot, awake, sleep, shutdown }
}

fn boot_only_update(zone: PowerZones, boot: bool) -> ZoneUpdate {
    ZoneUpdate {
        zone,
        update: ZonePowerUpdate { boot: Some(boot), awake: None, sleep: None, shutdown: None },
    }
}

#[test]
fn partial_update_touches_only_named_fields_and_zones() {
    let current = LaptopAuraPower {
        states: vec![
            zone_state(PowerZones::Keyboard, false, false, false, false),
            zone_state(PowerZones::Lightbar, true, true, true, true),
        ],
    };
    let updates = vec![boot_only_update(PowerZones::Keyboard, true)];
    let (merged, missing) = merge_power_state(&current, &updates);
    assert_eq!(
        merged.states,
        vec![
            zone_state(PowerZones::Keyboard, true, false, false, false),
            zone_state(PowerZones::Lightbar, true, true, true, true),
        ]
    );
    assert!(missing.is_empty());
}

#[test]
fn merging_twice_equals_merging_once() {
    let current = LaptopAuraPower {
        states: vec![
            zone_state(PowerZones::Keyboard, false, true, false, true),
            zone_state(PowerZones::Logo, true, false, true, false),
        ],
    };
    let updates = vec![ZoneUpdate {
        zone: PowerZones::Logo,
        update: ZonePowerUpdate {
            boot: Some(false),
            awake: Some(true),
            sleep: None,
            shutdown: None,
        },
    }];
    let (once, _) = merge_power_state(&current, &updates);
    let (twice, _) = merge_power_state(&once, &updates);
    assert_eq!(twice.states, once.states);
}

#[test]
fn zone_absent_from_current_is_reported_not_fabricated() {
    let current = LaptopAuraPower {
        states: vec![zone_state(PowerZones::Keyboard, false, false, false, false)],
    };
    let updates = vec![boot_only_update(PowerZones::RearGlow, true)];
    let (merged, missing) = merge_power_state(&current, &updates);
    assert_eq!(merged.states, current.states);
    assert_eq!(missing, vec![PowerZones::RearGlow]);
}

#[test]
fn empty_updates_change_nothing() {
    let current = LaptopAuraPower {
        states: vec![
            zone_state(PowerZones::Keyboard, true, false, true, false),
            zone_state(PowerZones::Lid, false, true, false, true),
        ],
    };
    let updates: Vec<ZoneUpdate> = Vec::new();
    let (merged, missing) = merge_power_state(&current, &updates);
    assert_eq!(merged.states, current.states);
    assert!(missing.is_empty());
}

#[test]
fn effect_defaults_absent_fields_to_type_defaults() {
    let template = SetAuraBuiltin {
        mode: AuraModeNum::Breathe,
        zone: None,
        colour1: Some(Colour { r: 255, g: 0, b: 20 }),
        colour2: None,
        speed: None,
        direction: None,
    };
    let effect = merge_effect(&template);
    assert_eq!(effect.mode, AuraModeNum::Breathe);
    assert_eq!(effect.zone, AuraZone::Whole);
    assert_eq!(effect.colour1, Colour { r: 255, g: 0, b: 20 });
    assert_eq!(effect.colour2, Colour { r: 0, g: 0, b: 0 });
    assert_eq!(effect.speed, Speed::Low);
    assert_eq!(effect.direction, Direction::Right);
}

#[test]
fn effect_passes_given_fields_through() {
    let template = SetAuraBuiltin {
        mode: AuraModeNum::Comet,
        zone: Some(AuraZone::Logo),
        colour1: Some(Colour { r: 1, g: 2, b: 3 }),
        colour2: Some(Colour { r: 4, g: 5, b: 6 }),
        speed: Some(Speed::High),
        direction: Some(Direction::Up),
    };
    let effect = merge_effect(&template);
    assert_eq!(effect.zone, AuraZone::Logo);
    assert_eq!(effect.colour2, Colour { r: 4, g: 5, b: 6 });
    assert_eq!(effect.speed, Speed::High);
    assert_eq!(effect.direction, Direction::Up);
}

fn sample_descriptor() -> ScsiModeData {
    ScsiModeData {
        mode: ScsiAuraMode::Breathe,
        colour1: Colour { r: 10, g: 10, b: 10 },
        colour2: Colour { r: 20, g: 20, b: 20 },
        colour3: Colour { r: 30, g: 30, b: 30 },
        colour4: Colour { r: 40, g: 40, b: 40 },
        speed: Speed::Med,
        direction: Direction::Left,
    }
}

#[test]
fn scsi_patch_assigns_colours_positionally() {
    let cur = sample_descriptor();
    let colours = vec![Colour { r: 1, g: 0, b: 0 }, Colour { r: 0, g: 1, b: 0 }];
    let (patched, do_update) = scsi_patch(&cur, &colours, None, None);
    assert!(do_update);
    assert_eq!(patched.colour1, Colour { r: 1, g: 0, b: 0 });
    assert_eq!(patched.colour2, Colour { r: 0, g: 1, b: 0 });
    assert_eq!(patched.colour3, cur.colour3);
    assert_eq!(patched.colour4, cur.colour4);
    assert_eq!(patched.mode, cur.mode);
    assert_eq!(patched.speed, cur.speed);
    assert_eq!(patched.direction, cur.direction);
}

#[test]
fn scsi_patch_without_input_needs_no_write() {
    let cur = sample_descriptor();
    let colours: Vec<Colour> = Vec::new();
    let (patched, do_update) = scsi_patch(&cur, &colours, None, None);
    assert!(!do_update);
    assert_eq!(patched, cur);
}

#[test]
fn scsi_patch_speed_and_direction_alone_force_write() {
    let cur = sample_descriptor();
    let colours: Vec<Colour> = Vec::new();
    let (patched, do_update) = scsi_patch(&cur, &colours, Some(Speed::High), Some(Direction::Down));
    assert!(do_update);
    assert_eq!(patched.speed, Speed::High);
    assert_eq!(patched.direction, Direction::Down);
    assert_eq!(patched.colour1, cur.colour1);
}

#[test]
fn scsi_patch_ignores_colours_past_the_fourth() {
    let cur = sample_descriptor();
    let c = Colour { r: 9, g: 9, b: 9 };
    let colours = vec![c, c, c, c, Colour { r: 7, g: 7, b: 7 }];
    let (patched, _) = scsi_patch(&cur, &colours, None, None);
    assert_eq!(patched.colour4, c);
}
