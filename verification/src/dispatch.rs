//! The probe dispatcher: which prober checks a monitor, and what the
//! prober's answer means for the loop.
//!
//! The dispatcher performs no probe itself. It hands out the one prober that
//! the monitor's protocol names, and turns what that prober returned into an
//! outcome that says which protocol failed and why. A further protocol is
//! one more variant of `ProtocolKind`, one more prober in `Probers`, and one
//! more arm in `route`; the loops need no change.

use vstd::prelude::*;
use crate::monitor::{Monitor, ProtocolKind};

verus! {

/// One prober of each kind, made once and shared by every loop.
pub struct Probers<H, I> {
    pub http: H,
    pub icmp: I,
}

/// The prober chosen for one probe: exactly one of the two.
pub enum Route<'a, H, I> {
    Http(&'a H),
    Icmp(&'a I),
}

/// A failed check: the protocol it was made with and the cause in words.
#[derive(Clone, Debug, PartialEq, Eq)]
pub struct CheckFailure {
    pub kind: ProtocolKind,
    pub cause: String,
}

/// What one check came to.
#[derive(Clone, Debug, PartialEq, Eq)]
pub enum CheckOutcome {
    Success,
    Failure(CheckFailure),
}

/// The outcome of a probe of protocol `kind` that returned `raw`: an error
/// is kept, with its cause as it came and the protocol beside it.
pub open spec fn outcome_of(kind: ProtocolKind, raw: Result<(), String>) -> CheckOutcome {
    match raw {
        Ok(_) => CheckOutcome::Success,
        Err(cause) => CheckOutcome::Failure(CheckFailure { kind, cause }),
    }
}

impl<H, I> Probers<H, I> {
    /// The prober for protocol `kind`.
    pub open spec fn chosen(&self, kind: ProtocolKind) -> Route<'_, H, I> {
        match kind {
            ProtocolKind::Http => Route::Http(&self.http),
            ProtocolKind::Icmp => Route::Icmp(&self.icmp),
        }
    }

    /// Chooses the prober for `monitor` by its protocol alone: the HTTP
    /// prober for an HTTP monitor, the ICMP prober for an ICMP monitor.
    pub fn route<'a, P>(&'a self, monitor: &Monitor<P>) -> (route: Route<'a, H, I>)
        ensures
            route == self.chosen(monitor.kind),
            monitor.kind == ProtocolKind::Http ==> route == Route::<H, I>::Http(&self.http),
            monitor.kind == ProtocolKind::Icmp ==> route == Route::<H, I>::Icmp(&self.icmp),
    {
        match monitor.kind {
            ProtocolKind::Http => Route::Http(&self.http),
            ProtocolKind::Icmp => Route::Icmp(&self.icmp),
        }
    }
}

impl<'a, H, I> Route<'a, H, I> {
    /// The protocol of the chosen prober.
    pub open spec fn protocol(&self) -> ProtocolKind {
        match self {
            Route::Http(_) => ProtocolKind::Http,
            Route::Icmp(_) => ProtocolKind::Icmp,
        }
    }

    /// The protocol of the chosen prober.
    pub fn kind(&self) -> (kind: ProtocolKind)
        ensures
            kind == self.protocol(),
    {
        match self {
            Route::Http(_) => ProtocolKind::Http,
            Route::Icmp(_) => ProtocolKind::Icmp,
        }
    }
}

/// Turns what the prober of protocol `kind` returned into the check's
/// outcome. An error is never dropped: it comes back as a failure that
/// carries the prober's cause unchanged and names the protocol.
pub fn normalize(kind: ProtocolKind, raw: Result<(), String>) -> (outcome: CheckOutcome)
    ensures
        outcome == outcome_of(kind, raw),
        raw is Ok <==> outcome is Success,
{
    match raw {
        Ok(_) => CheckOutcome::Success,
        Err(cause) => CheckOutcome::Failure(CheckFailure { kind, cause }),
    }
}

/// The route never leaves the protocol of the monitor: the prober handed
/// out is the one of the monitor's own kind, whichever two probers there are.
pub proof fn law_route_keeps_protocol<H, I>(probers: Probers<H, I>, kind: ProtocolKind)
    ensures
        probers.chosen(kind).protocol() == kind,
        probers.chosen(kind) is Http <==> kind == ProtocolKind::Http,
        probers.chosen(kind) is Icmp <==> kind == ProtocolKind::Icmp,
{
}

} // verus!
