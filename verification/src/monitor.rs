//! What is checked: a monitor is a target and the protocol to probe it with.

use vstd::prelude::*;

verus! {

/// The protocol a monitor is probed with. Each kind has one prober.
#[derive(Clone, Copy, Debug, PartialEq, Eq, Hash, Structural)]
pub enum ProtocolKind {
    Http,
    Icmp,
}

/// One monitor definition. It does not change while its loop runs.
///
/// `params` is whatever else the probers want to know (timeouts, what
/// response to expect). Nothing here looks inside it: it is handed on as
/// it came.
#[derive(Clone, Debug, PartialEq, Eq)]
pub struct Monitor<P> {
    /// Host, URL or address: the probe's argument, and the label under
    /// which the monitor shows in logs and traces.
    pub target: String,
    pub kind: ProtocolKind,
    pub params: P,
}

} // verus!
