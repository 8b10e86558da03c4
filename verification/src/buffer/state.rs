use vstd::prelude::*;

verus! {

/// Marker vocabulary for the lifecycle phases a device buffer can occupy.
/// The set is closed: exactly the three phases below exist.
pub trait Sealed {}

/// Trait implemented by the three phase markers and by nothing else.
pub trait State: Sealed {}

/// Buffer is allocated and eligible for its first submission; no data has
/// been moved yet.
#[derive(Debug, Clone, Copy)]
pub struct Queued;

impl Sealed for Queued {

}

impl State for Queued {

}

/// An operation has been submitted against the buffer and has not been
/// resolved yet.
#[derive(Debug, Clone, Copy)]
pub struct InFlight;

impl Sealed for InFlight {

}

impl State for InFlight {

}

/// No operation is outstanding; the resource handle is safe to read or bind.
#[derive(Debug, Clone, Copy)]
pub struct Ready;

impl Sealed for Ready {

}

impl State for Ready {

}

/// Runtime tag carrying the same three phases as the marker types, used by
/// the dynamically checked protocol in the parent module.
#[derive(Debug, Clone, Copy, PartialEq, Eq, Structural)]
pub enum PhaseTag {
    /// Counterpart of [`Queued`].
    Queued,
    /// Counterpart of [`InFlight`].
    InFlight,
    /// Counterpart of [`Ready`].
    Ready,
}

} // verus!
