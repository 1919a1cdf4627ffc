//! Mode cycle engine: the next or previous element of a device's
//! supported-mode list relative to its current mode, with wraparound.

use vstd::prelude::*;

use crate::error::CmdError;
use crate::find::{distinct, first_index_of, lemma_first_index_of_at, lemma_first_index_of_distinct,
    lemma_first_index_of_props};
use crate::types::AuraModeNum;

verus! {

/// The index one step forward from `i`, wrapping past the end to 0.
pub open spec fn next_index(i: int, len: int) -> int {
    if i + 1 >= len {
        0
    } else {
        i + 1
    }
}

/// The index one step back from `i`, wrapping before 0 to the last index.
pub open spec fn prev_index(i: int, len: int) -> int {
    if i == 0 {
        len - 1
    } else {
        i - 1
    }
}

/// The mode that follows `current` in `supported`, wrapping to the front.
/// Meaningful only when `current` occurs in `supported`.
pub open spec fn next_mode_spec(current: AuraModeNum, supported: Seq<AuraModeNum>) -> AuraModeNum {
    supported[next_index(first_index_of(supported, current), supported.len() as int)]
}

/// The mode that precedes `current` in `supported`, wrapping to the back.
/// Meaningful only when `current` occurs in `supported`.
pub open spec fn prev_mode_spec(current: AuraModeNum, supported: Seq<AuraModeNum>) -> AuraModeNum {
    supported[prev_index(first_index_of(supported, current), supported.len() as int)]
}

/// Returns the mode after `current` in the device's cycle order, wrapping
/// past the end; `ModeNotInSupportedSet` when the device's reported mode is
/// not in its own list.
pub fn next_mode(current: AuraModeNum, supported: &Vec<AuraModeNum>) -> (r: Result<
    AuraModeNum,
    CmdError,
>)
    ensures
        supported@.contains(current) ==> r == Ok::<AuraModeNum, CmdError>(
            next_mode_spec(current, supported@),
        ),
        !supported@.contains(current) ==> r == Err::<AuraModeNum, CmdError>(
            CmdError::ModeNotInSupportedSet,
        ),
{
    let n = supported.len();
    let mut i: usize = 0;
    while i < n
        invariant
            i <= n,
            n == supported@.len(),
            forall|k: int| 0 <= k < i ==> supported@[k] != current,
        decreases n - i,
    {
        if supported[i] == current {
            proof {
                lemma_first_index_of_at(supported@, current, i as int);
                assert(supported@.contains(current));
            }
            let pos = if i + 1 >= n {
                0
            } else {
                i + 1
            };
            return Ok(supported[pos]);
        }
        i += 1;
    }
    proof {
        lemma_first_index_of_props(supported@, current);
    }
    Err(CmdError::ModeNotInSupportedSet)
}

/// Returns the mode before `current` in the device's cycle order, wrapping
/// before the front; `ModeNotInSupportedSet` when the device's reported
/// mode is not in its own list.
pub fn prev_mode(current: AuraModeNum, supported: &Vec<AuraModeNum>) -> (r: Result<
    AuraModeNum,
    CmdError,
>)
    ensures
        supported@.contains(current) ==> r == Ok::<AuraModeNum, CmdError>(
            prev_mode_spec(current, supported@),
        ),
        !supported@.contains(current) ==> r == Err::<AuraModeNum, CmdError>(
            CmdError::ModeNotInSupportedSet,
        ),
{
    let n = supported.len();
    let mut i: usize = 0;
    while i < n
        invariant
            i <= n,
            n == supported@.len(),
            forall|k: int| 0 <= k < i ==> supported@[k] != current,
        decreases n - i,
    {
        if supported[i] == current {
            proof {
                lemma_first_index_of_at(supported@, current, i as int);
                assert(supported@.contains(current));
            }
            let pos = if i == 0 {
                n - 1
            } else {
                i - 1
            };
            return Ok(supported[pos]);
        }
        i += 1;
    }
    proof {
        lemma_first_index_of_props(supported@, current);
    }
    Err(CmdError::ModeNotInSupportedSet)
}

/// Cycle invertibility: in a non-empty, duplicate-free supported list,
/// stepping forward then back (or back then forward) from any supported
/// mode returns that mode.
pub proof fn lemma_mode_cycle_invertible(current: AuraModeNum, supported: Seq<AuraModeNum>)
    requires
        supported.len() > 0,
        supported.contains(current),
        distinct(supported),
    ensures
        prev_mode_spec(next_mode_spec(current, supported), supported) == current,
        next_mode_spec(prev_mode_spec(current, supported), supported) == current,
{
    let len = supported.len() as int;
    lemma_first_index_of_props(supported, current);
    let i = first_index_of(supported, current);
    let ni = next_index(i, len);
    lemma_first_index_of_distinct(supported, ni);
    assert(prev_index(ni, len) == i);
    let pi = prev_index(i, len);
    lemma_first_index_of_distinct(supported, pi);
    assert(next_index(pi, len) == i);
    lemma_first_index_of_distinct(supported, i);
}

/// Self-loop: on a single-element supported list both cycle directions
/// return that element.
pub proof fn lemma_mode_cycle_single(current: AuraModeNum, supported: Seq<AuraModeNum>)
    requires
        supported.len() == 1,
        supported[0] == current,
    ensures
        next_mode_spec(current, supported) == current,
        prev_mode_spec(current, supported) == current,
{
    lemma_first_index_of_at(supported, current, 0);
}

} // verus!
