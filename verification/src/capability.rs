//! Capability filter: a device's declared capability set and the local
//! gate that rejects unsupported operations before any remote write.

use vstd::prelude::*;

use crate::error::CmdError;
use crate::find::distinct;
use crate::types::{AuraDeviceType, AuraEffect, AuraModeNum, AuraZone, LedBrightness, PowerZones};

verus! {

/// Which generation of power-command shape a device accepts.
#[derive(Clone, Copy, PartialEq, Eq, Structural, Debug)]
pub enum PowerCommandGeneration {
    /// Keyboard/lightbar toggles, device classes `Old` and `Tuf`.
    Legacy,
    /// Per-zone boot/awake/sleep/shutdown flags, device class `New`.
    Current,
}

/// One user-requested operation, as the filter judges it.
#[derive(Clone, Copy, PartialEq, Eq, Structural, Debug)]
pub enum AuraOperation {
    SetMode(AuraModeNum),
    SetEffect(AuraEffect),
    SetBrightness(LedBrightness),
    PowerLegacy,
    PowerCurrent(PowerZones),
}

/// Per-device declared support, read once per invocation from the device.
#[derive(Clone, PartialEq, Eq, Debug)]
pub struct CapabilitySet {
    pub supported_brightness: Vec<LedBrightness>,
    pub supported_basic_modes: Vec<AuraModeNum>,
    pub supported_basic_zones: Vec<AuraZone>,
    pub supported_power_zones: Vec<PowerZones>,
    pub device_type: AuraDeviceType,
}

/// The power-command generation a device class accepts, if any.
pub open spec fn generation_for_spec(dev: AuraDeviceType) -> Option<PowerCommandGeneration> {
    match dev {
        AuraDeviceType::Old => Some(PowerCommandGeneration::Legacy),
        AuraDeviceType::Tuf => Some(PowerCommandGeneration::Legacy),
        AuraDeviceType::New => Some(PowerCommandGeneration::Current),
        AuraDeviceType::Unknown => None,
    }
}

/// Selects the power-command generation for a device class: legacy for the
/// old and TUF families, current for the new family, none when the class
/// is unknown.
pub fn generation_for(dev: AuraDeviceType) -> (r: Option<PowerCommandGeneration>)
    ensures
        r == generation_for_spec(dev),
{
    match dev {
        AuraDeviceType::Old => Some(PowerCommandGeneration::Legacy),
        AuraDeviceType::Tuf => Some(PowerCommandGeneration::Legacy),
        AuraDeviceType::New => Some(PowerCommandGeneration::Current),
        AuraDeviceType::Unknown => None,
    }
}

impl CapabilitySet {
    /// A functioning device declares a non-empty, duplicate-free mode list;
    /// its order defines the cycle sequence.
    pub open spec fn wf(&self) -> bool {
        &&& self.supported_basic_modes@.len() > 0
        &&& distinct(self.supported_basic_modes@)
    }

    /// Whether this device supports operation `op`.
    pub open spec fn supports_spec(&self, op: AuraOperation) -> bool {
        match op {
            AuraOperation::SetMode(m) => self.supported_basic_modes@.contains(m),
            AuraOperation::SetEffect(e) => self.supported_basic_modes@.contains(e.mode) && (e.zone
                == AuraZone::Whole || self.supported_basic_zones@.contains(e.zone)),
            AuraOperation::SetBrightness(b) => self.supported_brightness@.contains(b),
            AuraOperation::PowerLegacy => generation_for_spec(self.device_type) == Some(
                PowerCommandGeneration::Legacy,
            ),
            AuraOperation::PowerCurrent(z) => generation_for_spec(self.device_type) == Some(
                PowerCommandGeneration::Current,
            ) && self.supported_power_zones@.contains(z),
        }
    }

    /// Answers whether `op` is valid for this device: a mode or brightness
    /// must be declared, an effect's mode and zone must be declared, and a
    /// power command's generation must match the device class.
    pub fn is_supported(&self, op: &AuraOperation) -> (r: bool)
        ensures
            r == self.supports_spec(*op),
    {
        match op {
            AuraOperation::SetMode(m) => contains_mode(&self.supported_basic_modes, *m),
            AuraOperation::SetEffect(e) => {
                let mode_ok = contains_mode(&self.supported_basic_modes, e.mode);
                let zone_ok = matches!(e.zone, AuraZone::Whole) || contains_zone(
                    &self.supported_basic_zones,
                    e.zone,
                );
                mode_ok && zone_ok
            },
            AuraOperation::SetBrightness(b) => contains_brightness(&self.supported_brightness, *b),
            AuraOperation::PowerLegacy => {
                matches!(self.device_type, AuraDeviceType::Old | AuraDeviceType::Tuf)
            },
            AuraOperation::PowerCurrent(z) => {
                matches!(self.device_type, AuraDeviceType::New) && contains_power_zone(
                    &self.supported_power_zones,
                    *z,
                )
            },
        }
    }

    /// The filter's verdict as the dispatcher consumes it: `Ok` exactly on
    /// supported operations, `Unsupported` otherwise, always before any
    /// write is attempted.
    pub fn check(&self, op: &AuraOperation) -> (r: Result<(), CmdError>)
        ensures
            self.supports_spec(*op) ==> r == Ok::<(), CmdError>(()),
            !self.supports_spec(*op) ==> r == Err::<(), CmdError>(CmdError::Unsupported),
    {
        if self.is_supported(op) {
            Ok(())
        } else {
            Err(CmdError::Unsupported)
        }
    }
}

/// Which subcommand groups are offered to the user at all, before any
/// device-level filtering.
#[derive(Clone, Copy, PartialEq, Eq, Structural, Debug)]
pub struct CommandMenu {
    pub aura: bool,
    pub aura_power_old: bool,
    pub aura_power: bool,
    pub slash: bool,
}

/// Gates which command groups are shown: lighting commands need the
/// lighting interface, the slash commands its own interface, and each
/// power-command generation the device class that accepts it.
pub fn visible_commands(has_aura_iface: bool, has_slash_iface: bool, dev: AuraDeviceType) -> (r:
    CommandMenu)
    ensures
        r.aura == has_aura_iface,
        r.slash == has_slash_iface,
        r.aura_power_old == (has_aura_iface && generation_for_spec(dev) == Some(
            PowerCommandGeneration::Legacy,
        )),
        r.aura_power == (has_aura_iface && generation_for_spec(dev) == Some(
            PowerCommandGeneration::Current,
        )),
{
    CommandMenu {
        aura: has_aura_iface,
        aura_power_old: has_aura_iface && matches!(
            dev,
            AuraDeviceType::Old | AuraDeviceType::Tuf,
        ),
        aura_power: has_aura_iface && matches!(dev, AuraDeviceType::New),
        slash: has_slash_iface,
    }
}

/// Linear membership scan of a declared mode list.
pub fn contains_mode(list: &Vec<AuraModeNum>, x: AuraModeNum) -> (r: bool)
    ensures
        r == list@.contains(x),
{
    let n = list.len();
    let mut i: usize = 0;
    while i < n
        invariant
            i <= n,
            n == list@.len(),
            forall|k: int| 0 <= k < i ==> list@[k] != x,
        decreases n - i,
    {
        if list[i] == x {
            return true;
        }
        i += 1;
    }
    false
}

/// Linear membership scan of a declared colour-zone list.
pub fn contains_zone(list: &Vec<AuraZone>, x: AuraZone) -> (r: bool)
    ensures
        r == list@.contains(x),
{
    let n = list.len();
    let mut i: usize = 0;
    while i < n
        invariant
            i <= n,
            n == list@.len(),
            forall|k: int| 0 <= k < i ==> list@[k] != x,
        decreases n - i,
    {
        if list[i] == x {
            return true;
        }
        i += 1;
    }
    false
}

/// Linear membership scan of a declared power-zone list.
pub fn contains_power_zone(list: &Vec<PowerZones>, x: PowerZones) -> (r: bool)
    ensures
        r == list@.contains(x),
{
    let n = list.len();
    let mut i: usize = 0;
    while i < n
        invariant
            i <= n,
            n == list@.len(),
            forall|k: int| 0 <= k < i ==> list@[k] != x,
        decreases n - i,
    {
        if list[i] == x {
            return true;
        }
        i += 1;
    }
    false
}

/// Linear membership scan of a declared brightness list.
pub fn contains_brightness(list: &Vec<LedBrightness>, x: LedBrightness) -> (r: bool)
    ensures
        r == list@.contains(x),
{
    let n = list.len();
    let mut i: usize = 0;
    while i < n
        invariant
            i <= n,
            n == list@.len(),
            forall|k: int| 0 <= k < i ==> list@[k] != x,
        decreases n - i,
    {
        if list[i] == x {
            return true;
        }
        i += 1;
    }
    false
}

} // verus!
