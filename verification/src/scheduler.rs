//! The scheduler: one loop per monitor, all sharing one pair of probers.

use std::sync::Arc;
use tokio::time::Instant;
use vstd::prelude::*;
use crate::clock::{clock_nanos, clock_start};
use crate::cycle::{awaited, Action, Event, MonitorLoop};
use crate::dispatch::{Probers, Route};
use crate::monitor::Monitor;

verus! {

/// The loop of one monitor as it is handed to whoever runs it: the machine,
/// a handle on the shared probers, and a clock of its own.
pub struct LoopTask<P, H, I> {
    pub probers: Arc<Probers<H, I>>,
    pub state: MonitorLoop<P>,
    /// The instant from which this loop's clock counts.
    pub clock: Instant,
}

/// One more handle on a shared value. This is `Arc::clone`, taken on trust:
/// it hands out another pointer to the same allocation and copies nothing
/// behind it, so the new handle holds what the old one holds.
#[verifier::external_body]
fn share<T>(handle: &Arc<T>) -> (other: Arc<T>)
    ensures
        other == *handle,
{
    Arc::clone(handle)
}

impl<P, H, I> LoopTask<P, H, I> {
    /// The monitor that this loop checks.
    pub fn monitor(&self) -> (monitor: &Monitor<P>)
        ensures
            *monitor == self.state.monitor,
    {
        &self.state.monitor
    }

    /// The prober for this loop's monitor, out of the shared pair.
    pub fn route(&self) -> (route: Route<'_, H, I>)
        ensures
            route == self.probers.chosen(self.state.monitor.kind),
    {
        self.probers.route(&self.state.monitor)
    }

    /// Takes `event` at the moment of the call, by this loop's clock, and
    /// says what to do next.
    ///
    /// The loop moves as `MonitorLoop::step_at` moves it at some reading of
    /// the clock; which reading, only the clock knows. The monitor, the
    /// probers and the clock stay what they were.
    pub fn step(&mut self, event: Event) -> (action: Option<Action>)
        ensures
            exists|now: u128|
                (final(self).state, action) == #[trigger] old(self).state.transition(event, now),
            final(self).state.monitor == old(self).state.monitor,
            final(self).probers == old(self).probers,
            final(self).clock == old(self).clock,
            action is Some <==> awaited(old(self).state.phase, event),
    {
        let now: u128 = clock_nanos(&self.clock);
        self.state.step_at(event, now)
    }
}

/// Sets up the loops: one for each monitor, in the order given, each before
/// its first iteration. The two probers are taken once, here, and every
/// loop gets a handle on that one pair. No loop runs yet: running them, side
/// by side and without end, is the caller's part.
pub fn configure_monitors<P, H, I>(monitors: Vec<Monitor<P>>, http: H, icmp: I) -> (tasks: Vec<
    LoopTask<P, H, I>,
>)
    ensures
        tasks@.len() == monitors@.len(),
        forall|i: int|
            0 <= i < monitors@.len() ==> {
                &&& (#[trigger] tasks@[i]).state == MonitorLoop::initial(monitors@[i])
                &&& tasks@[i].probers == (Probers { http, icmp })
            },
{
    let probers = Arc::new(Probers { http, icmp });
    let mut tasks: Vec<LoopTask<P, H, I>> = Vec::new();
    for monitor in it: monitors
        invariant
            probers == (Probers { http, icmp }),
            tasks@.len() == it.index(),
            forall|i: int|
                0 <= i < tasks@.len() ==> {
                    &&& (#[trigger] tasks@[i]).state == MonitorLoop::initial(it.seq()[i])
                    &&& tasks@[i].probers == (Probers { http, icmp })
                },
    {
        tasks.push(
            LoopTask { probers: share(&probers), state: MonitorLoop::new(monitor), clock: clock_start() },
        );
    }
    tasks
}

/// The loops of a fleet after the one at `index` has taken `event` at clock
/// reading `now`.
pub open spec fn fleet_after<P>(
    fleet: Seq<MonitorLoop<P>>,
    index: int,
    event: Event,
    now: u128,
) -> Seq<MonitorLoop<P>> {
    fleet.update(index, fleet[index].transition(event, now).0)
}

/// Loops do not touch each other. What one loop takes, a failed probe
/// included, leaves every other loop where it was and changes nothing in
/// what that loop will do; and steps of two different loops come to the
/// same, whichever is taken first.
pub proof fn law_loops_do_not_interfere<P>(
    fleet: Seq<MonitorLoop<P>>,
    one: int,
    one_event: Event,
    one_now: u128,
    other: int,
    other_event: Event,
    other_now: u128,
)
    requires
        0 <= one < fleet.len(),
        0 <= other < fleet.len(),
        one != other,
    ensures
        fleet_after(fleet, one, one_event, one_now).len() == fleet.len(),
        fleet_after(fleet, one, one_event, one_now)[other] == fleet[other],
        fleet_after(fleet, one, one_event, one_now)[other].transition(other_event, other_now)
            == fleet[other].transition(other_event, other_now),
        fleet_after(fleet_after(fleet, one, one_event, one_now), other, other_event, other_now)
            == fleet_after(
            fleet_after(fleet, other, other_event, other_now),
            one,
            one_event,
            one_now,
        ),
{
    assert(fleet_after(fleet_after(fleet, one, one_event, one_now), other, other_event, other_now)
        =~= fleet_after(
        fleet_after(fleet, other, other_event, other_now),
        one,
        one_event,
        one_now,
    ));
}

} // verus!
