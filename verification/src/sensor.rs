//! The sensor handle: two pins, an optional least distance, and the
//! measurement that is under way.

use crate::error::HcSr04Error;
use crate::protocol::{
    action_for, next_phase, pending_action, step, within_budget, Action, Event, Level, Phase,
};
use crate::resolver::{apply_threshold, kept};
use crate::timing::{effective_timeout, timeout_budget};
use crate::units::DistanceUnit;
use vstd::prelude::*;

verus! {

/// An HC-SR04 on a trigger pin and an echo pin.
///
/// The handle drives no line itself. [`HcSr04::begin`] and
/// [`HcSr04::advance`] say what is to be done on the lines, one action at a
/// time, and take what came of it; when they say [`Action::Finish`] the
/// accessors `dist_cm`, `dist_meter` and `dist_mm` give the distance or the
/// reason why there is none.
#[derive(Debug)]
pub struct HcSr04 {
    trig: u32,
    echo: u32,
    /// Least distance that is not dropped as too close.
    dist_threshold: Option<DistanceUnit>,
    /// Nanoseconds that the measurement under way may wait in all.
    budget: u128,
    phase: Phase,
}

impl HcSr04 {
    /// No wait of the measurement under way is longer than its budget.
    #[verifier::type_invariant]
    spec fn wait_fits_budget(&self) -> bool {
        within_budget(self.budget, self.phase)
    }

    /// The pin of the trigger line.
    pub closed spec fn spec_trig(&self) -> u32 {
        self.trig
    }

    /// The pin of the echo line.
    pub closed spec fn spec_echo(&self) -> u32 {
        self.echo
    }

    /// The least distance that is reported, if one is set.
    pub closed spec fn spec_dist_threshold(&self) -> Option<DistanceUnit> {
        self.dist_threshold
    }

    /// The nanoseconds that the measurement under way may wait in all.
    pub closed spec fn spec_budget(&self) -> u128 {
        self.budget
    }

    /// Where the measurement stands.
    pub closed spec fn spec_phase(&self) -> Phase {
        self.phase
    }

    /// Whether `self` is `other` but for the measurement under way.
    pub open spec fn same_sensor(&self, other: &HcSr04) -> bool {
        &&& self.trig() == other.trig()
        &&& self.echo() == other.echo()
        &&& self.dist_threshold() == other.dist_threshold()
    }

    /// What the last measurement gave: the error it was given up with, the
    /// distance in centimetres, or nothing where there is no distance to
    /// report. There is none while a measurement is under way or before the
    /// first, where the rising edge was followed by another rising edge, and
    /// where the distance lies below the threshold.
    pub open spec fn reading(&self) -> Result<Option<DistanceUnit>, HcSr04Error> {
        match self.phase() {
            Phase::Failed { error } => Err(error),
            Phase::Computed { distance } => Ok(kept(distance, self.dist_threshold())),
            _ => Ok(None),
        }
    }

    /// The reading as a distance in centimetres or an error: where there is
    /// no distance to report, the error is `Io`.
    pub open spec fn reported(&self) -> Result<DistanceUnit, HcSr04Error> {
        match self.reading() {
            Ok(Some(distance)) => Ok(distance),
            Ok(None) => Err(HcSr04Error::Io),
            Err(error) => Err(error),
        }
    }

    /// A handle for the sensor on pins `trig` and `echo`, once the caller has
    /// tried to acquire the two lines. Where it could not, there is no
    /// handle and the error is `Init`.
    pub fn new(
        trig: u32,
        echo: u32,
        dist_threshold: Option<DistanceUnit>,
        lines_acquired: bool,
    ) -> (sensor: Result<HcSr04, HcSr04Error>)
        ensures
            lines_acquired ==> sensor is Ok,
            !lines_acquired ==> sensor == Err::<HcSr04, HcSr04Error>(HcSr04Error::Init),
            sensor matches Ok(s) ==> {
                &&& s.trig() == trig
                &&& s.echo() == echo
                &&& s.dist_threshold() == dist_threshold
                &&& s.phase() == Phase::Idle
                &&& s.budget() == timeout_budget(None)
            },
    {
        if !lines_acquired {
            return Err(HcSr04Error::Init);
        }
        Ok(HcSr04 { trig, echo, dist_threshold, budget: effective_timeout(None), phase: Phase::Idle })
    }

    /// The pin of the trigger line.
    #[verifier::when_used_as_spec(spec_trig)]
    pub fn trig(&self) -> (pin: u32)
        ensures
            pin == self.trig(),
    {
        self.trig
    }

    /// The pin of the echo line.
    #[verifier::when_used_as_spec(spec_echo)]
    pub fn echo(&self) -> (pin: u32)
        ensures
            pin == self.echo(),
    {
        self.echo
    }

    /// The least distance that is reported, if one is set.
    #[verifier::when_used_as_spec(spec_dist_threshold)]
    pub fn dist_threshold(&self) -> (least: Option<DistanceUnit>)
        ensures
            least == self.dist_threshold(),
    {
        self.dist_threshold
    }

    /// The nanoseconds that the measurement under way may wait in all.
    #[verifier::when_used_as_spec(spec_budget)]
    pub fn budget(&self) -> (nanos: u128)
        ensures
            nanos == self.budget(),
    {
        self.budget
    }

    /// Where the measurement stands.
    #[verifier::when_used_as_spec(spec_phase)]
    pub fn phase(&self) -> (phase: Phase)
        ensures
            phase == self.phase(),
    {
        self.phase
    }

    /// What the measurement waits on; `Finish` where none is under way. A
    /// wait is no longer than the budget.
    pub fn pending(&self) -> (action: Action)
        ensures
            action == pending_action(self.phase()),
            action matches Action::AwaitEdge(wait) ==> wait <= self.budget(),
    {
        proof {
            use_type_invariant(self);
        }
        action_for(&self.phase)
    }

    /// Begins a measurement, whatever stood before, and asks for the first
    /// step of the trigger pulse. The measurement may wait for twice
    /// `timeout` nanoseconds in all, or for the default where none is given.
    pub fn begin(&mut self, timeout: Option<u64>) -> (action: Action)
        ensures
            final(self).same_sensor(old(self)),
            final(self).budget() == timeout_budget(timeout),
            final(self).phase() == Phase::Lowering,
            action == Action::SetLevel(Level::Low),
    {
        self.phase = Phase::Lowering;
        self.budget = effective_timeout(timeout);
        Action::SetLevel(Level::Low)
    }

    /// Takes what came of the last action and says what is to be done next.
    /// A wait that is asked for is no longer than the budget.
    pub fn advance(&mut self, event: Event) -> (action: Action)
        ensures
            final(self).same_sensor(old(self)),
            final(self).budget() == old(self).budget(),
            final(self).phase() == next_phase(old(self).budget(), old(self).phase(), event),
            action == pending_action(final(self).phase()),
            action matches Action::AwaitEdge(wait) ==> wait <= final(self).budget(),
    {
        let (phase, action) = step(self.budget, self.phase, event);
        self.phase = phase;
        action
    }

    /// The reading of the last measurement, in centimetres.
    ///
    /// `Ok(None)` says that there is no distance to report and no failure
    /// either; the accessors by unit turn it into `Io`.
    pub fn dist(&self) -> (reading: Result<Option<DistanceUnit>, HcSr04Error>)
        ensures
            reading == self.reading(),
    {
        match self.phase {
            Phase::Failed { error } => Err(error),
            Phase::Computed { distance } => Ok(apply_threshold(distance, &self.dist_threshold)),
            _ => Ok(None),
        }
    }

    /// The distance in metres.
    pub fn dist_meter(&self) -> (distance: Result<DistanceUnit, HcSr04Error>)
        ensures
            distance == match self.reported() {
                Ok(cm) => Ok::<DistanceUnit, HcSr04Error>(cm.as_meter()),
                Err(error) => Err(error),
            },
    {
        match self.dist() {
            Ok(Some(res)) => Ok(res.to_meter()),
            Ok(None) => Err(HcSr04Error::Io),
            Err(error) => Err(error),
        }
    }

    /// The distance in centimetres.
    pub fn dist_cm(&self) -> (distance: Result<DistanceUnit, HcSr04Error>)
        ensures
            distance == match self.reported() {
                Ok(cm) => Ok::<DistanceUnit, HcSr04Error>(cm.as_cm()),
                Err(error) => Err(error),
            },
    {
        match self.dist() {
            Ok(Some(res)) => Ok(res.to_cm()),
            Ok(None) => Err(HcSr04Error::Io),
            Err(error) => Err(error),
        }
    }

    /// The distance in millimetres.
    pub fn dist_mm(&self) -> (distance: Result<DistanceUnit, HcSr04Error>)
        ensures
            distance == match self.reported() {
                Ok(cm) => Ok::<DistanceUnit, HcSr04Error>(cm.as_mm()),
                Err(error) => Err(error),
            },
    {
        match self.dist() {
            Ok(Some(res)) => Ok(res.to_mm()),
            Ok(None) => Err(HcSr04Error::Io),
            Err(error) => Err(error),
        }
    }
}

} // verus!
