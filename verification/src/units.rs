//! Lengths and speeds as exact integers.
//!
//! Every length is a whole number of picometres and every speed a whole number
//! of millimetres per second. One millimetre per second is one picometre per
//! nanosecond, so a speed times a time in nanoseconds is a length in
//! picometres with nothing rounded. The variant of a quantity names the unit
//! in which it is presented; it never changes what the quantity is.

use vstd::prelude::*;

verus! {

/// Picometres in one millimetre.
pub const PM_PER_MM: u128 = 1_000_000_000;

/// Picometres in one centimetre.
pub const PM_PER_CM: u128 = 10_000_000_000;

/// Picometres in one metre.
pub const PM_PER_METER: u128 = 1_000_000_000_000;

/// The speed of sound in air, 343 m/s, in millimetres per second.
pub const SPEED_OF_SOUND_MM_PER_SEC: u64 = 343_000;

/// A length in picometres, tagged with the unit it is presented in.
///
/// `DistanceUnit::Cm(171_500_000_000)` is 17.15 cm: the payload counts
/// picometres whatever the tag, and the magnitude in the tagged unit is the
/// payload divided by [`DistanceUnit::per_unit`].
#[derive(Clone, Copy, Debug, PartialEq, Eq)]
pub enum DistanceUnit {
    Mm(u128),
    Cm(u128),
    Meter(u128),
}

impl DistanceUnit {
    /// The length itself.
    pub open spec fn picometres(self) -> nat {
        match self {
            DistanceUnit::Mm(val) => val as nat,
            DistanceUnit::Cm(val) => val as nat,
            DistanceUnit::Meter(val) => val as nat,
        }
    }

    /// Picometres in one of the unit that the tag names.
    pub open spec fn unit(self) -> nat {
        match self {
            DistanceUnit::Mm(_) => PM_PER_MM as nat,
            DistanceUnit::Cm(_) => PM_PER_CM as nat,
            DistanceUnit::Meter(_) => PM_PER_METER as nat,
        }
    }

    /// Whether the magnitude in the tagged unit is the fraction `num / den`.
    pub open spec fn measures(self, num: nat, den: nat) -> bool {
        den > 0 && self.picometres() * den == num * self.unit()
    }

    /// The same tag around another length.
    pub open spec fn with_val(self, val: u128) -> DistanceUnit {
        match self {
            DistanceUnit::Mm(_) => DistanceUnit::Mm(val),
            DistanceUnit::Cm(_) => DistanceUnit::Cm(val),
            DistanceUnit::Meter(_) => DistanceUnit::Meter(val),
        }
    }

    /// The same length presented in millimetres.
    pub open spec fn as_mm(self) -> DistanceUnit {
        DistanceUnit::Mm(self.picometres() as u128)
    }

    /// The same length presented in centimetres.
    pub open spec fn as_cm(self) -> DistanceUnit {
        DistanceUnit::Cm(self.picometres() as u128)
    }

    /// The same length presented in metres.
    pub open spec fn as_meter(self) -> DistanceUnit {
        DistanceUnit::Meter(self.picometres() as u128)
    }

    /// Replaces the length and keeps the unit of presentation.
    pub fn write_val(&mut self, new_val: u128)
        ensures
            *final(self) == old(self).with_val(new_val),
            final(self).picometres() == new_val,
            final(self).unit() == old(self).unit(),
    {
        match self {
            DistanceUnit::Mm(val) => *val = new_val,
            DistanceUnit::Cm(val) => *val = new_val,
            DistanceUnit::Meter(val) => *val = new_val,
        }
    }

    /// The length in picometres.
    pub fn to_val(&self) -> (val: u128)
        ensures
            val == self.picometres(),
    {
        match self {
            DistanceUnit::Mm(val) => *val,
            DistanceUnit::Cm(val) => *val,
            DistanceUnit::Meter(val) => *val,
        }
    }

    /// Picometres in one of the unit that the tag names.
    pub fn per_unit(&self) -> (scale: u128)
        ensures
            scale == self.unit(),
            scale > 0,
    {
        match self {
            DistanceUnit::Mm(_) => PM_PER_MM,
            DistanceUnit::Cm(_) => PM_PER_CM,
            DistanceUnit::Meter(_) => PM_PER_METER,
        }
    }

    /// The same length presented in millimetres.
    pub fn to_mm(&self) -> (mm: DistanceUnit)
        ensures
            mm == self.as_mm(),
    {
        DistanceUnit::Mm(self.to_val())
    }

    /// The same length presented in centimetres.
    pub fn to_cm(&self) -> (cm: DistanceUnit)
        ensures
            cm == self.as_cm(),
    {
        DistanceUnit::Cm(self.to_val())
    }

    /// The same length presented in metres.
    pub fn to_meter(&self) -> (m: DistanceUnit)
        ensures
            m == self.as_meter(),
    {
        DistanceUnit::Meter(self.to_val())
    }
}

/// A speed in millimetres per second, tagged with the unit it is presented in.
#[derive(Clone, Copy, Debug, PartialEq, Eq)]
pub enum VelocityUnit {
    MetersPerSecs(u64),
    CentimeterPerSecs(u64),
}

impl VelocityUnit {
    /// The speed itself.
    pub open spec fn mm_per_sec(self) -> nat {
        match self {
            VelocityUnit::MetersPerSecs(val) => val as nat,
            VelocityUnit::CentimeterPerSecs(val) => val as nat,
        }
    }

    /// The speed in millimetres per second.
    pub fn to_val(&self) -> (val: u64)
        ensures
            val == self.mm_per_sec(),
    {
        match self {
            VelocityUnit::MetersPerSecs(val) => *val,
            VelocityUnit::CentimeterPerSecs(val) => *val,
        }
    }
}

/// The speed of sound in air.
pub fn speed_of_sound() -> (speed: VelocityUnit)
    ensures
        speed == VelocityUnit::MetersPerSecs(SPEED_OF_SOUND_MM_PER_SEC),
{
    VelocityUnit::MetersPerSecs(SPEED_OF_SOUND_MM_PER_SEC)
}

/// A length of `pm` picometres measures `num / den` centimetres just when it
/// measures `num / (100 * den)` metres, and just when it measures
/// `(10 * num) / den` millimetres.
pub proof fn lemma_same_length_in_each_unit(pm: u128, num: nat, den: nat)
    ensures
        DistanceUnit::Cm(pm).measures(num, den) <==> DistanceUnit::Meter(pm).measures(
            num,
            100 * den,
        ),
        DistanceUnit::Cm(pm).measures(num, den) <==> DistanceUnit::Mm(pm).measures(10 * num, den),
{
    assert(pm * (100 * den) == 100 * (pm * den)) by (nonlinear_arith);
    assert(num * 1_000_000_000_000nat == 100 * (num * 10_000_000_000nat)) by (nonlinear_arith);
    assert((10 * num) * 1_000_000_000nat == num * 10_000_000_000nat) by (nonlinear_arith);
}

/// Presenting a length in another unit scales its magnitude by the ratio of
/// the two units and by nothing else: what measures `num / den` centimetres
/// measures `num / (100 * den)` metres and `(10 * num) / den` millimetres, and
/// the other way round.
pub proof fn lemma_conversion_scales_magnitude(d: DistanceUnit, num: nat, den: nat)
    ensures
        d.as_cm().measures(num, den) <==> d.as_meter().measures(num, 100 * den),
        d.as_cm().measures(num, den) <==> d.as_mm().measures(10 * num, den),
{
    lemma_same_length_in_each_unit(d.picometres() as u128, num, den);
}

/// A change of unit loses nothing: the length stays what it was, so going
/// from centimetres to metres and back, or through any other chain of units,
/// gives the first value again.
pub proof fn lemma_conversion_round_trip(d: DistanceUnit)
    ensures
        d.as_mm().picometres() == d.picometres(),
        d.as_cm().picometres() == d.picometres(),
        d.as_meter().picometres() == d.picometres(),
        d.as_cm().as_meter().as_cm() == d.as_cm(),
        d.as_cm().as_mm().as_cm() == d.as_cm(),
        d is Mm ==> d.as_mm() == d,
        d is Cm ==> d.as_cm() == d,
        d is Meter ==> d.as_meter() == d,
{
}

} // verus!
