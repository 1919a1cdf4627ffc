//! State merge engine: applies a partial per-zone update onto a device's
//! full power state without disturbing untouched fields, and builds full
//! effect descriptors from partially specified user input.

use vstd::prelude::*;

use crate::types::{AuraEffect, AuraModeNum, AuraPowerState, AuraZone, Colour, Direction,
    LaptopAuraPower, PowerZones, ScsiModeData, Speed};

verus! {

/// The four optional flags of one zone's partial update. A flag left as
/// `None` must never overwrite the device's current value.
#[derive(Clone, Copy, PartialEq, Eq, Structural, Debug)]
pub struct ZonePowerUpdate {
    pub boot: Option<bool>,
    pub awake: Option<bool>,
    pub sleep: Option<bool>,
    pub shutdown: Option<bool>,
}

/// One entry of the update mapping: a zone and its partial update.
#[derive(Clone, Copy, PartialEq, Eq, Structural, Debug)]
pub struct ZoneUpdate {
    pub zone: PowerZones,
    pub update: ZonePowerUpdate,
}

/// One zone state with the present fields of `u` replaced and the absent
/// ones kept.
pub open spec fn apply_update_spec(s: AuraPowerState, u: ZonePowerUpdate) -> AuraPowerState {
    AuraPowerState {
        zone: s.zone,
        boot: match u.boot {
            Some(b) => b,
            None => s.boot,
        },
        awake: match u.awake {
            Some(b) => b,
            None => s.awake,
        },
        sleep: match u.sleep {
            Some(b) => b,
            None => s.sleep,
        },
        shutdown: match u.shutdown {
            Some(b) => b,
            None => s.shutdown,
        },
    }
}

/// The first update naming zone `z`, if any.
pub open spec fn lookup_update(updates: Seq<ZoneUpdate>, z: PowerZones) -> Option<ZonePowerUpdate>
    decreases updates.len(),
{
    if updates.len() == 0 {
        None
    } else if updates[0].zone == z {
        Some(updates[0].update)
    } else {
        lookup_update(updates.drop_first(), z)
    }
}

/// One entry of the merged state: patched when some update names its zone,
/// untouched otherwise.
pub open spec fn merge_one_spec(s: AuraPowerState, updates: Seq<ZoneUpdate>) -> AuraPowerState {
    match lookup_update(updates, s.zone) {
        Some(u) => apply_update_spec(s, u),
        None => s,
    }
}

/// The merged state sequence: entry order and length are those of
/// `current`.
pub open spec fn merge_spec(current: Seq<AuraPowerState>, updates: Seq<ZoneUpdate>) -> Seq<
    AuraPowerState,
> {
    Seq::new(current.len(), |i: int| merge_one_spec(current[i], updates))
}

/// Whether some entry of `states` configures zone `z`.
pub open spec fn has_zone(states: Seq<AuraPowerState>, z: PowerZones) -> bool {
    exists|i: int| 0 <= i < states.len() && states[i].zone == z
}

/// The zones named by `updates` that `current` does not configure, in
/// update order: these are reported, never fabricated into new entries.
pub open spec fn unmatched_zones_spec(updates: Seq<ZoneUpdate>, current: Seq<AuraPowerState>)
    -> Seq<PowerZones>
    decreases updates.len(),
{
    if updates.len() == 0 {
        Seq::empty()
    } else {
        let rest = unmatched_zones_spec(updates.drop_last(), current);
        if has_zone(current, updates.last().zone) {
            rest
        } else {
            rest.push(updates.last().zone)
        }
    }
}

/// Replaces, in each entry of `current` named by `updates`, exactly the
/// flags the update carries; every other flag and every unnamed entry is
/// returned unchanged, in the original order. The second result lists the
/// zones named in `updates` that `current` does not configure.
pub fn merge_power_state(current: &LaptopAuraPower, updates: &Vec<ZoneUpdate>) -> (r: (
    LaptopAuraPower,
    Vec<PowerZones>,
))
    ensures
        r.0.states@ == merge_spec(current.states@, updates@),
        r.1@ == unmatched_zones_spec(updates@, current.states@),
        current.wf() ==> r.0.wf(),
{
    let n = current.states.len();
    let mut out: Vec<AuraPowerState> = Vec::new();
    let mut i: usize = 0;
    while i < n
        invariant
            i <= n,
            n == current.states@.len(),
            out@.len() == i,
            forall|k: int| 0 <= k < i ==> out@[k] == merge_one_spec(current.states@[k], updates@),
        decreases n - i,
    {
        let s = current.states[i];
        let patched = apply_first_update(s, updates);
        out.push(patched);
        i += 1;
    }
    let mut missing: Vec<PowerZones> = Vec::new();
    let m = updates.len();
    let mut j: usize = 0;
    while j < m
        invariant
            j <= m,
            m == updates@.len(),
            missing@ == unmatched_zones_spec(updates@.take(j as int), current.states@),
        decreases m - j,
    {
        let z = updates[j].zone;
        if !state_has_zone(current, z) {
            missing.push(z);
        }
        proof {
            assert(updates@.take(j + 1).drop_last() == updates@.take(j as int));
            assert(updates@.take(j + 1).last() == updates@[j as int]);
        }
        j += 1;
    }
    proof {
        assert(updates@.take(m as int) == updates@);
        assert(out@ =~= merge_spec(current.states@, updates@));
        if current.wf() {
            assert forall|a: int, b: int| 0 <= a < b < out@.len() implies out@[a].zone
                != out@[b].zone by {
                assert(out@[a].zone == current.states@[a].zone);
                assert(out@[b].zone == current.states@[b].zone);
            }
        }
    }
    (LaptopAuraPower { states: out }, missing)
}

/// Applies the first update naming `s.zone`, or returns `s` unchanged.
fn apply_first_update(s: AuraPowerState, updates: &Vec<ZoneUpdate>) -> (r: AuraPowerState)
    ensures
        r == merge_one_spec(s, updates@),
{
    let m = updates.len();
    let mut j: usize = 0;
    proof {
        assert(updates@.skip(0) =~= updates@);
    }
    while j < m
        invariant
            j <= m,
            m == updates@.len(),
            lookup_update(updates@, s.zone) == lookup_update(updates@.skip(j as int), s.zone),
            forall|k: int| 0 <= k < j ==> updates@[k].zone != s.zone,
        decreases m - j,
    {
        let u = updates[j];
        proof {
            assert(updates@.skip(j as int)[0] == updates@[j as int]);
        }
        if u.zone == s.zone {
            proof {
                assert(lookup_update(updates@.skip(j as int), s.zone) == Some(u.update));
            }
            return AuraPowerState {
                zone: s.zone,
                boot: match u.update.boot {
                    Some(b) => b,
                    None => s.boot,
                },
                awake: match u.update.awake {
                    Some(b) => b,
                    None => s.awake,
                },
                sleep: match u.update.sleep {
                    Some(b) => b,
                    None => s.sleep,
                },
                shutdown: match u.update.shutdown {
                    Some(b) => b,
                    None => s.shutdown,
                },
            };
        }
        proof {
            assert(updates@.skip(j as int).drop_first() == updates@.skip(j + 1));
        }
        j += 1;
    }
    proof {
        assert(updates@.skip(m as int).len() == 0);
    }
    s
}

/// Whether the device's current state configures zone `z`.
pub fn state_has_zone(current: &LaptopAuraPower, z: PowerZones) -> (r: bool)
    ensures
        r == has_zone(current.states@, z),
{
    let n = current.states.len();
    let mut i: usize = 0;
    while i < n
        invariant
            i <= n,
            n == current.states@.len(),
            forall|k: int| 0 <= k < i ==> current.states@[k].zone != z,
        decreases n - i,
    {
        if current.states[i].zone == z {
            return true;
        }
        i += 1;
    }
    false
}

/// Merging the same updates twice gives the same result as merging once:
/// a present flag is overwritten with the same value again, and an absent
/// flag keeps what the first merge kept.
pub proof fn lemma_merge_idempotent(current: Seq<AuraPowerState>, updates: Seq<ZoneUpdate>)
    ensures
        merge_spec(merge_spec(current, updates), updates) == merge_spec(current, updates),
{
    let once = merge_spec(current, updates);
    let twice = merge_spec(once, updates);
    assert forall|i: int| 0 <= i < current.len() implies twice[i] == once[i] by {
        assert(once[i].zone == current[i].zone);
    }
    assert(twice =~= once);
}

/// Flags absent from an update never change, and zones not named by any
/// update keep their whole entry.
pub proof fn lemma_merge_preserves_untouched(current: Seq<AuraPowerState>, updates: Seq<
    ZoneUpdate,
>)
    ensures
        forall|i: int| 0 <= i < current.len() ==> merge_spec(current, updates)[i].zone
            == current[i].zone,
        forall|i: int|
            0 <= i < current.len() && lookup_update(updates, current[i].zone) is None ==> merge_spec(
                current,
                updates,
            )[i] == current[i],
        forall|i: int|
            #![trigger merge_spec(current, updates)[i]]
            0 <= i < current.len() && lookup_update(updates, current[i].zone) is Some ==> {
                let u = lookup_update(updates, current[i].zone)->0;
                let merged = merge_spec(current, updates)[i];
                &&& u.boot is None ==> merged.boot == current[i].boot
                &&& u.awake is None ==> merged.awake == current[i].awake
                &&& u.sleep is None ==> merged.sleep == current[i].sleep
                &&& u.shutdown is None ==> merged.shutdown == current[i].shutdown
            },
{
}

/// User input for one full effect write: fields the user may leave out.
///
/// An effect write replaces the whole descriptor, so an absent field falls
/// back to its type-level default (black, lowest speed, first direction),
/// not to the device's previous value. This is a deliberate asymmetry from
/// the power-state merge.
#[derive(Clone, Copy, PartialEq, Eq, Structural, Debug)]
pub struct SetAuraBuiltin {
    pub mode: AuraModeNum,
    pub zone: Option<AuraZone>,
    pub colour1: Option<Colour>,
    pub colour2: Option<Colour>,
    pub speed: Option<Speed>,
    pub direction: Option<Direction>,
}

/// The full descriptor an effect template denotes: given fields passed
/// through, absent fields at their type-level defaults.
pub open spec fn merge_effect_spec(t: SetAuraBuiltin) -> AuraEffect {
    AuraEffect {
        mode: t.mode,
        zone: match t.zone {
            Some(z) => z,
            None => AuraZone::Whole,
        },
        colour1: match t.colour1 {
            Some(c) => c,
            None => Colour { r: 0, g: 0, b: 0 },
        },
        colour2: match t.colour2 {
            Some(c) => c,
            None => Colour { r: 0, g: 0, b: 0 },
        },
        speed: match t.speed {
            Some(s) => s,
            None => Speed::Low,
        },
        direction: match t.direction {
            Some(d) => d,
            None => Direction::Right,
        },
    }
}

/// Builds the full effect descriptor for one write from a template,
/// defaulting every absent field and passing every present one through.
pub fn merge_effect(t: &SetAuraBuiltin) -> (r: AuraEffect)
    ensures
        r == merge_effect_spec(*t),
{
    AuraEffect {
        mode: t.mode,
        zone: match t.zone {
            Some(z) => z,
            None => AuraZone::Whole,
        },
        colour1: match t.colour1 {
            Some(c) => c,
            None => Colour { r: 0, g: 0, b: 0 },
        },
        colour2: match t.colour2 {
            Some(c) => c,
            None => Colour { r: 0, g: 0, b: 0 },
        },
        speed: match t.speed {
            Some(s) => s,
            None => Speed::Low,
        },
        direction: match t.direction {
            Some(d) => d,
            None => Direction::Right,
        },
    }
}

/// An enclosure descriptor with the user's colours written into the slots
/// they positionally name, and speed and direction replaced when given.
/// Every other field keeps the device's current value.
pub open spec fn scsi_patch_spec(
    cur: ScsiModeData,
    colours: Seq<Colour>,
    speed: Option<Speed>,
    direction: Option<Direction>,
) -> ScsiModeData {
    ScsiModeData {
        mode: cur.mode,
        colour1: if colours.len() > 0 {
            colours[0]
        } else {
            cur.colour1
        },
        colour2: if colours.len() > 1 {
            colours[1]
        } else {
            cur.colour2
        },
        colour3: if colours.len() > 2 {
            colours[2]
        } else {
            cur.colour3
        },
        colour4: if colours.len() > 3 {
            colours[3]
        } else {
            cur.colour4
        },
        speed: match speed {
            Some(s) => s,
            None => cur.speed,
        },
        direction: match direction {
            Some(d) => d,
            None => cur.direction,
        },
    }
}

/// Patches an enclosure's current descriptor with up to four positionally
/// assigned colours and optional speed and direction; colours past the
/// fourth are ignored. The flag says whether anything was given, that is,
/// whether a write-back is due.
pub fn scsi_patch(
    cur: &ScsiModeData,
    colours: &Vec<Colour>,
    speed: Option<Speed>,
    direction: Option<Direction>,
) -> (r: (ScsiModeData, bool))
    ensures
        r.0 == scsi_patch_spec(*cur, colours@, speed, direction),
        r.1 == (colours@.len() > 0 || speed is Some || direction is Some),
{
    let n = colours.len();
    let patched = ScsiModeData {
        mode: cur.mode,
        colour1: if n > 0 {
            colours[0]
        } else {
            cur.colour1
        },
        colour2: if n > 1 {
            colours[1]
        } else {
            cur.colour2
        },
        colour3: if n > 2 {
            colours[2]
        } else {
            cur.colour3
        },
        colour4: if n > 3 {
            colours[3]
        } else {
            cur.colour4
        },
        speed: match speed {
            Some(s) => s,
            None => cur.speed,
        },
        direction: match direction {
            Some(d) => d,
            None => cur.direction,
        },
    };
    let do_update = n > 0 || speed.is_some() || direction.is_some();
    (patched, do_update)
}

} // verus!
