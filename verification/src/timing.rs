//! The time budget of a measurement, in nanoseconds.

use crate::error::HcSr04Error;
use crate::units::{lemma_same_length_in_each_unit, DistanceUnit, SPEED_OF_SOUND_MM_PER_SEC};
use vstd::prelude::*;

verus! {

/// The budget of a measurement for which the caller names no timeout.
pub const DEFAULT_TIMEOUT_MICROSECS: u64 = 8746;

/// Nanoseconds in one microsecond.
pub const NANOS_PER_MICROSEC: u64 = 1_000;

/// Nanoseconds in one millisecond.
pub const NANOS_PER_MILLISEC: u128 = 1_000_000;

/// The whole budget of a measurement: twice the timeout that the caller
/// names, since the sound travels out and back, or the default.
pub open spec fn timeout_budget(timeout: Option<u64>) -> nat {
    match timeout {
        Some(val) => 2 * (val as nat),
        None => (DEFAULT_TIMEOUT_MICROSECS * NANOS_PER_MICROSEC) as nat,
    }
}

/// Nanoseconds from `from` to `to` on a clock that does not run backwards;
/// nothing where `to` lies before `from`.
pub open spec fn elapsed_between(from: u64, to: u64) -> nat {
    if to >= from {
        (to - from) as nat
    } else {
        0
    }
}

/// What is left of `budget` at `now` for a measurement whose clock started
/// at `start`; nothing once the budget is used up.
pub open spec fn remaining_budget(budget: u128, start: u64, now: u64) -> nat {
    if elapsed_between(start, now) >= budget {
        0
    } else {
        (budget - elapsed_between(start, now)) as nat
    }
}

/// The timeout that goes with a sensing range: the time in which sound covers
/// half of `range`, in whole nanoseconds, `(range / 2) / speed of sound`. A
/// measurement waits for twice the timeout it is given.
pub open spec fn range_timeout(range: DistanceUnit) -> nat {
    (range.picometres() / 2) / (SPEED_OF_SOUND_MM_PER_SEC as nat)
}

/// The whole budget of a measurement with the given timeout.
pub fn effective_timeout(timeout: Option<u64>) -> (budget: u128)
    ensures
        budget == timeout_budget(timeout),
{
    match timeout {
        Some(val) => {
            let single: u128 = val as u128;
            2 * single
        },
        None => {
            let micros: u128 = DEFAULT_TIMEOUT_MICROSECS as u128;
            micros * (NANOS_PER_MICROSEC as u128)
        },
    }
}

/// Nanoseconds from `from` to `to`, nothing where `to` lies before `from`.
pub fn elapsed(from: u64, to: u64) -> (nanos: u64)
    ensures
        nanos == elapsed_between(from, to),
{
    if to >= from {
        to - from
    } else {
        0
    }
}

/// What is left of `budget` at `now`, clamped to nothing.
pub fn remaining(budget: u128, start: u64, now: u64) -> (left: u128)
    ensures
        left == remaining_budget(budget, start, now),
{
    let spent: u128 = elapsed(start, now) as u128;
    if spent >= budget {
        0
    } else {
        budget - spent
    }
}

/// Whether `range` can be handed to [`range_to_timeout`]: it is in
/// millimetres, which is refused there, or its timeout fits into the
/// nanoseconds of a `u64`.
pub fn range_timeout_in_reach(range: &DistanceUnit) -> (ok: bool)
    ensures
        ok == (*range is Mm || range_timeout(*range) <= u64::MAX),
{
    match range {
        DistanceUnit::Mm(_) => true,
        DistanceUnit::Cm(val) => (*val / 2) / (SPEED_OF_SOUND_MM_PER_SEC as u128) <= u64::MAX as u128,
        DistanceUnit::Meter(val) => (*val / 2) / (SPEED_OF_SOUND_MM_PER_SEC as u128)
            <= u64::MAX as u128,
    }
}

/// The timeout to measure with for targets no farther than `range`.
///
/// A range in metres or centimetres gives `Ok` with [`range_timeout`]
/// nanoseconds; a range in millimetres is refused whatever its length.
pub fn range_to_timeout(range: DistanceUnit) -> (timeout: Result<u64, String>)
    requires
        range !is Mm ==> range_timeout(range) <= u64::MAX,
    ensures
        range is Mm ==> timeout is Err && timeout->Err_0@ == "range must be in m or cm"@,
        range !is Mm ==> timeout == Ok::<u64, String>(range_timeout(range) as u64),
{
    let res: u128 = match range {
        DistanceUnit::Meter(val) => (val / 2) / (SPEED_OF_SOUND_MM_PER_SEC as u128),
        DistanceUnit::Cm(val) => (val / 2) / (SPEED_OF_SOUND_MM_PER_SEC as u128),
        DistanceUnit::Mm(_) => {
            return Err("range must be in m or cm".to_owned());
        },
    };
    Ok(res as u64)
}

/// The timeout to hand to `poll(2)` for a wait of `timeout` nanoseconds: whole
/// milliseconds, and no more than the call can take.
pub fn poll_timeout_millis(timeout: u128) -> (millis: i32)
    ensures
        millis == if timeout / NANOS_PER_MILLISEC <= i32::MAX {
            (timeout / NANOS_PER_MILLISEC) as int
        } else {
            i32::MAX as int
        },
{
    let whole: u128 = timeout / NANOS_PER_MILLISEC;
    if whole <= i32::MAX as u128 {
        whole as i32
    } else {
        i32::MAX
    }
}

/// What a return value of `poll(2)` on one descriptor means: `-1` is a
/// failure, `0` says that the time ran out, anything else that an event waits.
pub fn poll_outcome(rc: i32) -> (ready: Result<bool, HcSr04Error>)
    ensures
        rc == -1 ==> ready == Err::<bool, HcSr04Error>(HcSr04Error::Io),
        rc == 0 ==> ready == Ok::<bool, HcSr04Error>(false),
        rc != -1 && rc != 0 ==> ready == Ok::<bool, HcSr04Error>(true),
{
    if rc == -1 {
        Err(HcSr04Error::Io)
    } else if rc == 0 {
        Ok(false)
    } else {
        Ok(true)
    }
}

/// The timeout of a range does not depend on the unit that the range is
/// given in: `num / den` centimetres and `num / (100 * den)` metres are one
/// length and get one timeout.
pub proof fn lemma_range_timeout_unit_equivalence(
    cm: DistanceUnit,
    m: DistanceUnit,
    num: nat,
    den: nat,
)
    requires
        cm is Cm,
        m is Meter,
        cm.measures(num, den),
        m.measures(num, 100 * den),
    ensures
        cm.picometres() == m.picometres(),
        range_timeout(cm) == range_timeout(m),
{
    let a = cm.picometres();
    let b = m.picometres();
    lemma_same_length_in_each_unit(b as u128, num, den);
    assert(a == b) by (nonlinear_arith)
        requires
            a * den == b * den,
            den > 0,
    ;
}

} // verus!
