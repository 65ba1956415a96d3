//! From the length of an echo pulse to a distance, and the filter on
//! readings that are too close.

use crate::units::{DistanceUnit, SPEED_OF_SOUND_MM_PER_SEC};
use vstd::prelude::*;

verus! {

/// Picometres between sensor and target when the echo pulse lasts
/// `tof` nanoseconds: the sound covers that distance twice, so it is half of
/// speed times time.
pub open spec fn echo_picometres(tof: nat) -> nat {
    (SPEED_OF_SOUND_MM_PER_SEC as nat) * tof / 2
}

/// Whether a reading is dropped as too close: a threshold is set and the
/// reading, both taken in centimetres, lies below it.
pub open spec fn too_close(distance: DistanceUnit, threshold: Option<DistanceUnit>) -> bool {
    match threshold {
        Some(least) => distance.as_cm().picometres() < least.as_cm().picometres(),
        None => false,
    }
}

/// What is left of a reading behind the threshold.
pub open spec fn kept(distance: Option<DistanceUnit>, threshold: Option<DistanceUnit>) -> Option<
    DistanceUnit,
> {
    match distance {
        Some(d) => if too_close(d, threshold) {
            None
        } else {
            Some(d)
        },
        None => None,
    }
}

/// An echo pulse of `tof` nanoseconds stands for `171_500 * tof` picometres,
/// which in centimetres is `50 * 343 * tof` with `tof` in seconds.
pub proof fn lemma_echo_distance(tof: u64)
    ensures
        echo_picometres(tof as nat) == 171_500 * tof,
        DistanceUnit::Cm(echo_picometres(tof as nat) as u128).measures(
            (50 * 343 * tof) as nat,
            1_000_000_000,
        ),
{
    let pm = echo_picometres(tof as nat);
    let num = (50 * 343 * tof) as nat;
    assert(pm == 171_500 * tof);
    assert(pm * 1_000_000_000 == num * 10_000_000_000) by (nonlinear_arith)
        requires
            pm == 171_500 * tof,
            num == 17_150 * tof,
    ;
}

/// The distance of the target whose echo pulse lasted `tof` nanoseconds, in
/// centimetres: `50 * 343 * tof` with `tof` in seconds, which is `171_500`
/// picometres for each nanosecond.
pub fn resolve_distance(tof: u64) -> (distance: DistanceUnit)
    ensures
        distance == DistanceUnit::Cm(echo_picometres(tof as nat) as u128),
        distance.picometres() == 171_500 * tof,
        distance.measures((50 * 343 * tof) as nat, 1_000_000_000),
{
    let nanos: u128 = tof as u128;
    let speed: u128 = SPEED_OF_SOUND_MM_PER_SEC as u128;
    assert(speed * nanos == 343_000 * tof) by (nonlinear_arith)
        requires
            speed == 343_000,
            nanos == tof,
    ;
    proof {
        lemma_echo_distance(tof);
    }
    let there_and_back: u128 = speed * nanos;
    DistanceUnit::Cm(there_and_back / 2)
}

/// Whether `distance` lies below the threshold, if one is set.
pub fn below_threshold(distance: &DistanceUnit, threshold: &Option<DistanceUnit>) -> (below: bool)
    ensures
        below == too_close(*distance, *threshold),
{
    match threshold {
        Some(least) => distance.to_cm().to_val() < least.to_cm().to_val(),
        None => false,
    }
}

/// Drops a reading that lies below the threshold.
pub fn apply_threshold(distance: Option<DistanceUnit>, threshold: &Option<DistanceUnit>) -> (left:
    Option<DistanceUnit>)
    ensures
        left == kept(distance, *threshold),
{
    match distance {
        Some(d) => if below_threshold(&d, threshold) {
            None
        } else {
            Some(d)
        },
        None => None,
    }
}

} // verus!
