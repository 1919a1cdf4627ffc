//! Core data model: device classes, zones, lighting modes, colours and
//! per-zone power state, as plain values the verifier can reason about.

use vstd::prelude::*;

verus! {

/// Coarse hardware generation tag; it gates which power-command shapes a
/// device accepts.
#[derive(Clone, Copy, PartialEq, Eq, Structural, Debug)]
pub enum AuraDeviceType {
    Old,
    Tuf,
    New,
    Unknown,
}

impl AuraDeviceType {
    pub fn is_old_laptop(&self) -> (r: bool)
        ensures
            r == (*self == AuraDeviceType::Old),
    {
        matches!(self, AuraDeviceType::Old)
    }

    pub fn is_tuf_laptop(&self) -> (r: bool)
        ensures
            r == (*self == AuraDeviceType::Tuf),
    {
        matches!(self, AuraDeviceType::Tuf)
    }

    pub fn is_new_laptop(&self) -> (r: bool)
        ensures
            r == (*self == AuraDeviceType::New),
    {
        matches!(self, AuraDeviceType::New)
    }
}

/// A named illuminated region whose boot/awake/sleep/shutdown behaviour can
/// be configured independently.
#[derive(Clone, Copy, PartialEq, Eq, Structural, Debug)]
pub enum PowerZones {
    Keyboard,
    Logo,
    Lightbar,
    Lid,
    RearGlow,
    Ally,
}

/// A built-in lighting pattern.
#[derive(Clone, Copy, PartialEq, Eq, Structural, Debug)]
pub enum AuraModeNum {
    Static,
    Breathe,
    Strobe,
    Rainbow,
    Star,
    Rain,
    Highlight,
    Laser,
    Ripple,
    Pulse,
    Comet,
    Flash,
}

/// An addressable colour zone within one device.
#[derive(Clone, Copy, PartialEq, Eq, Structural, Debug)]
pub enum AuraZone {
    Whole,
    Key1,
    Key2,
    Key3,
    Key4,
    Logo,
    BarLeft,
    BarRight,
}

/// Animation speed of a lighting pattern.
#[derive(Clone, Copy, PartialEq, Eq, Structural, Debug)]
pub enum Speed {
    Low,
    Med,
    High,
}

/// Animation direction of a lighting pattern.
#[derive(Clone, Copy, PartialEq, Eq, Structural, Debug)]
pub enum Direction {
    Right,
    Left,
    Up,
    Down,
}

/// One RGB colour, three 0-255 channels.
#[derive(Clone, Copy, PartialEq, Eq, Structural, Debug)]
pub struct Colour {
    pub r: u8,
    pub g: u8,
    pub b: u8,
}

/// Keyboard backlight brightness step.
#[derive(Clone, Copy, PartialEq, Eq, Structural, Debug)]
pub enum LedBrightness {
    Off,
    Low,
    Med,
    High,
}

impl LedBrightness {
    /// What `next` returns: one step up, wrapping from `High` to `Off`.
    pub open spec fn next_spec(self) -> LedBrightness {
        match self {
            LedBrightness::Off => LedBrightness::Low,
            LedBrightness::Low => LedBrightness::Med,
            LedBrightness::Med => LedBrightness::High,
            LedBrightness::High => LedBrightness::Off,
        }
    }

    /// What `prev` returns: one step down, wrapping from `Off` to `High`.
    pub open spec fn prev_spec(self) -> LedBrightness {
        match self {
            LedBrightness::Off => LedBrightness::High,
            LedBrightness::Low => LedBrightness::Off,
            LedBrightness::Med => LedBrightness::Low,
            LedBrightness::High => LedBrightness::Med,
        }
    }

    /// Steps to the next brightness level, wrapping from `High` back to
    /// `Off`.
    pub fn next(&self) -> (r: LedBrightness)
        ensures
            r == self.next_spec(),
    {
        match self {
            LedBrightness::Off => LedBrightness::Low,
            LedBrightness::Low => LedBrightness::Med,
            LedBrightness::Med => LedBrightness::High,
            LedBrightness::High => LedBrightness::Off,
        }
    }

    /// Steps to the previous brightness level, wrapping from `Off` back to
    /// `High`.
    pub fn prev(&self) -> (r: LedBrightness)
        ensures
            r == self.prev_spec(),
    {
        match self {
            LedBrightness::Off => LedBrightness::High,
            LedBrightness::Low => LedBrightness::Off,
            LedBrightness::Med => LedBrightness::Low,
            LedBrightness::High => LedBrightness::Med,
        }
    }
}

/// Proves that stepping brightness forward then back (or back then
/// forward) returns to the starting level.
pub proof fn lemma_brightness_cycle_invertible(b: LedBrightness)
    ensures
        b.next_spec().prev_spec() == b,
        b.prev_spec().next_spec() == b,
{
}

/// Per-zone power behaviour: whether the zone is lit at boot, while awake,
/// while asleep, and during shutdown.
#[derive(Clone, Copy, PartialEq, Eq, Structural, Debug)]
pub struct AuraPowerState {
    pub zone: PowerZones,
    pub boot: bool,
    pub awake: bool,
    pub sleep: bool,
    pub shutdown: bool,
}

/// A device's full power state: one entry per configured zone.
///
/// Well-formed values carry at most one entry per zone.
#[derive(Clone, PartialEq, Eq, Debug)]
pub struct LaptopAuraPower {
    pub states: Vec<AuraPowerState>,
}

impl LaptopAuraPower {
    /// No two entries name the same zone.
    pub open spec fn wf(&self) -> bool {
        forall|i: int, j: int|
            0 <= i < j < self.states@.len() ==> self.states@[i].zone != self.states@[j].zone
    }
}

/// A lighting pattern of the accessory slash lightbar.
#[derive(Clone, Copy, PartialEq, Eq, Structural, Debug)]
pub enum SlashMode {
    Bounce,
    Slash,
    Loading,
    BitStream,
    Transmission,
    Flow,
    Flux,
    Phantom,
    Spectrum,
    Hazel,
    Nebula,
    Zephyr,
}

/// A lighting pattern of an external drive enclosure's LEDs.
#[derive(Clone, Copy, PartialEq, Eq, Structural, Debug)]
pub enum ScsiAuraMode {
    Off,
    Static,
    Breathe,
    Flashing,
    Rainbow,
}

/// The full LED descriptor of an external drive enclosure: one mode, four
/// positional colour slots, speed and direction.
#[derive(Clone, Copy, PartialEq, Eq, Structural, Debug)]
pub struct ScsiModeData {
    pub mode: ScsiAuraMode,
    pub colour1: Colour,
    pub colour2: Colour,
    pub colour3: Colour,
    pub colour4: Colour,
    pub speed: Speed,
    pub direction: Direction,
}

/// A full effect descriptor as written to a device: one mode with its
/// colours, speed and direction for one zone.
#[derive(Clone, Copy, PartialEq, Eq, Structural, Debug)]
pub struct AuraEffect {
    pub mode: AuraModeNum,
    pub zone: AuraZone,
    pub colour1: Colour,
    pub colour2: Colour,
    pub speed: Speed,
    pub direction: Direction,
}

} // verus!
