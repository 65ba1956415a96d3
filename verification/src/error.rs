use vstd::prelude::*;

verus! {

/// Why a sensor could not be set up or a measurement gave no distance.
#[derive(Clone, Copy, Debug, PartialEq, Eq)]
pub enum HcSr04Error {
    /// A level could not be set on the trigger line, or no reading is to be had.
    Io,
    /// The GPIO chip or one of the two lines could not be acquired.
    Init,
    /// Edge events on the echo line could not be subscribed to.
    LineEventHandleRequest,
    /// No edge was seen on the echo line within the time allotted.
    PollFd,
}

} // verus!
