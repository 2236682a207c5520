//! The loop of one monitor, as a state machine.
//!
//! The machine asks for one action at a time; whoever runs it performs the
//! action and hands back the event that marks its end. One iteration reads
//!
//! ```text
//! Idle --Wake--> OpenSpan --SpanOpened--> Probe --Probed(Ok)--------------> CloseSpan
//!                                               --Probed(Err)--> Report --Reported--> CloseSpan
//! CloseSpan --SpanClosed--> Sleep(rest of the interval), back to Idle
//!                       --> OpenSpan of the next iteration, where none is left
//! ```
//!
//! The clock is read when the span is open, just before the probe, and again
//! when the span is closed. Nothing is kept from one iteration to the next
//! but the monitor itself, so a slow or failed check costs later ones nothing.

use vstd::prelude::*;
use crate::cadence::{pause_between, pause_for};
use crate::dispatch::{normalize, outcome_of, CheckFailure, CheckOutcome};
use crate::monitor::Monitor;

verus! {

/// Where a loop stands: which action it has asked for and waits to see done.
/// `since` is the clock reading, in nanoseconds, taken when the iteration's
/// span was open.
#[derive(Clone, Copy, Debug, PartialEq, Eq)]
pub enum Phase {
    /// Between iterations: not started yet, or pausing.
    Idle,
    /// The span is being opened and bound.
    Opening,
    /// The probe is under way.
    Probing { since: u128 },
    /// The probe failed and the failure is being reported.
    Reporting { since: u128 },
    /// The span is being closed.
    Closing { since: u128 },
}

/// What the runner of a loop is asked to do next.
#[derive(Clone, Debug, PartialEq, Eq)]
pub enum Action {
    /// Start a named tracing span and bind it as the active one.
    OpenSpan,
    /// Probe the monitor with the prober that the dispatcher chooses.
    Probe,
    /// Report the failure to telemetry and to the diagnostic log.
    Report(CheckFailure),
    /// Finish the span.
    CloseSpan,
    /// Suspend the loop for this many seconds.
    Sleep(u64),
}

/// The end of an action, with what it brought.
#[derive(Debug, PartialEq, Eq)]
pub enum Event {
    /// The loop is started, or its pause is over.
    Wake,
    /// The span is open and bound.
    SpanOpened,
    /// The prober returned: nothing, or the cause of its failure. A check
    /// that could not be made at all is handed in as a failure too, with
    /// what prevented it as the cause.
    Probed(Result<(), String>),
    /// The failure has been reported.
    Reported,
    /// The span is finished.
    SpanClosed,
}

/// One monitor and the place its loop has reached.
#[derive(Clone, Debug, PartialEq, Eq)]
pub struct MonitorLoop<P> {
    pub monitor: Monitor<P>,
    pub phase: Phase,
}

/// Whether `event` ends the action that a loop in `phase` waits for.
pub open spec fn awaited(phase: Phase, event: Event) -> bool {
    match (phase, event) {
        (Phase::Idle, Event::Wake) => true,
        (Phase::Opening, Event::SpanOpened) => true,
        (Phase::Probing { .. }, Event::Probed(_)) => true,
        (Phase::Reporting { .. }, Event::Reported) => true,
        (Phase::Closing { .. }, Event::SpanClosed) => true,
        _ => false,
    }
}

impl<P> MonitorLoop<P> {
    /// The loop of `monitor` before its first iteration.
    pub open spec fn initial(monitor: Monitor<P>) -> Self {
        MonitorLoop { monitor, phase: Phase::Idle }
    }

    /// This loop, moved to `phase`.
    pub open spec fn at(self, phase: Phase) -> Self {
        MonitorLoop { monitor: self.monitor, phase }
    }

    /// How an iteration ends once its span is closed, for work that ran from
    /// the reading `since` to the reading `now`: with a pause for the rest of
    /// the interval, or, where nothing is left of it, with the next
    /// iteration's first action.
    pub open spec fn settle(self, since: u128, now: u128) -> (Self, Option<Action>) {
        match pause_between(since, now) {
            Some(secs) => (self.at(Phase::Idle), Some(Action::Sleep(secs))),
            None => (self.at(Phase::Opening), Some(Action::OpenSpan)),
        }
    }

    /// The loop after `event`, seen at clock reading `now`, and the action
    /// it asks for. An event that the loop does not wait for leaves it as it
    /// is and asks for nothing.
    pub open spec fn transition(self, event: Event, now: u128) -> (Self, Option<Action>) {
        match (self.phase, event) {
            (Phase::Idle, Event::Wake) => (self.at(Phase::Opening), Some(Action::OpenSpan)),
            (Phase::Opening, Event::SpanOpened) => (
                self.at(Phase::Probing { since: now }),
                Some(Action::Probe),
            ),
            (Phase::Probing { since }, Event::Probed(raw)) => match outcome_of(
                self.monitor.kind,
                raw,
            ) {
                CheckOutcome::Success => (
                    self.at(Phase::Closing { since }),
                    Some(Action::CloseSpan),
                ),
                CheckOutcome::Failure(failure) => (
                    self.at(Phase::Reporting { since }),
                    Some(Action::Report(failure)),
                ),
            },
            (Phase::Reporting { since }, Event::Reported) => (
                self.at(Phase::Closing { since }),
                Some(Action::CloseSpan),
            ),
            (Phase::Closing { since }, Event::SpanClosed) => self.settle(since, now),
            _ => (self, None),
        }
    }

    /// The loop of `monitor`, ready for its first `Wake`.
    pub fn new(monitor: Monitor<P>) -> (fresh: Self)
        ensures
            fresh == Self::initial(monitor),
    {
        MonitorLoop { monitor, phase: Phase::Idle }
    }

    /// Takes `event`, which the runner saw at clock reading `now`
    /// (nanoseconds of one clock for the whole life of the loop), and says
    /// what to do next.
    ///
    /// `None` means that the loop waits for another event than this one; it
    /// has then not moved. Otherwise the action returned is the only one to
    /// perform, and its end is the next event to hand in. The monitor is never
    /// changed.
    pub fn step_at(&mut self, event: Event, now: u128) -> (action: Option<Action>)
        ensures
            (*final(self), action) == old(self).transition(event, now),
            final(self).monitor == old(self).monitor,
            action is Some <==> awaited(old(self).phase, event),
            action is None ==> *final(self) == *old(self),
    {
        match self.phase {
            Phase::Idle => match event {
                Event::Wake => {
                    self.phase = Phase::Opening;
                    Some(Action::OpenSpan)
                },
                _ => None,
            },
            Phase::Opening => match event {
                Event::SpanOpened => {
                    self.phase = Phase::Probing { since: now };
                    Some(Action::Probe)
                },
                _ => None,
            },
            Phase::Probing { since } => match event {
                Event::Probed(raw) => match normalize(self.monitor.kind, raw) {
                    CheckOutcome::Success => {
                        self.phase = Phase::Closing { since };
                        Some(Action::CloseSpan)
                    },
                    CheckOutcome::Failure(failure) => {
                        self.phase = Phase::Reporting { since };
                        Some(Action::Report(failure))
                    },
                },
                _ => None,
            },
            Phase::Reporting { since } => match event {
                Event::Reported => {
                    self.phase = Phase::Closing { since };
                    Some(Action::CloseSpan)
                },
                _ => None,
            },
            Phase::Closing { since } => match event {
                Event::SpanClosed => match pause_for(since, now) {
                    Some(secs) => {
                        self.phase = Phase::Idle;
                        Some(Action::Sleep(secs))
                    },
                    None => {
                        self.phase = Phase::Opening;
                        Some(Action::OpenSpan)
                    },
                },
                _ => None,
            },
        }
    }
}

/// What one iteration meets: what the probe returns, and the clock readings
/// at which the loop is told that the span is open, the probe back, the
/// failure reported, the span closed and the pause over.
pub struct Lap {
    pub raw: Result<(), String>,
    pub opened_at: u128,
    pub probed_at: u128,
    pub reported_at: u128,
    pub closed_at: u128,
    pub woken_at: u128,
}

impl<P> MonitorLoop<P> {
    /// The loop one iteration on: taken, event by event, from the opening
    /// of one span to the opening of the next, through the pause if there
    /// is one.
    pub open spec fn after_lap(self, lap: Lap) -> Self {
        let probing = self.transition(Event::SpanOpened, lap.opened_at).0;
        let probed = probing.transition(Event::Probed(lap.raw), lap.probed_at).0;
        let closing = match lap.raw {
            Ok(_) => probed,
            Err(_) => probed.transition(Event::Reported, lap.reported_at).0,
        };
        let settled = closing.transition(Event::SpanClosed, lap.closed_at);
        match settled.1 {
            Some(Action::Sleep(_)) => settled.0.transition(Event::Wake, lap.woken_at).0,
            _ => settled.0,
        }
    }

    /// The loop after one iteration for each of `laps`, in order.
    pub open spec fn after_laps(self, laps: Seq<Lap>) -> Self
        decreases laps.len(),
    {
        if laps.len() == 0 {
            self
        } else {
            self.after_laps(laps.drop_last()).after_lap(laps.last())
        }
    }
}

/// Every iteration ends where it began, whatever the probe returned.
///
/// From the opening of its span, the loop asks in turn for the probe, for a
/// report if and only if the probe failed, and for the end of the span. Then
/// it asks either for a pause of what the work left of the interval, and
/// for the next span when the pause is over, or, where the work left
/// nothing, for the next span at once. It then stands exactly where it
/// stood: the failure changes neither the pause nor what follows, and no
/// reading of the clock outlives the iteration.
pub proof fn law_iteration_ends_where_it_began<P>(start: MonitorLoop<P>, lap: Lap)
    requires
        start.phase is Opening,
    ensures
        ({
            let (probing, first) = start.transition(Event::SpanOpened, lap.opened_at);
            let (probed, second) = probing.transition(Event::Probed(lap.raw), lap.probed_at);
            let (closing, third) = match lap.raw {
                Ok(_) => (probed, second),
                Err(_) => probed.transition(Event::Reported, lap.reported_at),
            };
            let (settled, fourth) = closing.transition(Event::SpanClosed, lap.closed_at);
            let (again, fifth) = match pause_between(lap.opened_at, lap.closed_at) {
                Some(_) => settled.transition(Event::Wake, lap.woken_at),
                None => (settled, fourth),
            };
            &&& first == Some(Action::Probe)
            &&& second == match lap.raw {
                Ok(_) => Some(Action::CloseSpan),
                Err(cause) => Some(
                    Action::Report(CheckFailure { kind: start.monitor.kind, cause }),
                ),
            }
            &&& third == Some(Action::CloseSpan)
            &&& fourth == match pause_between(lap.opened_at, lap.closed_at) {
                Some(secs) => Some(Action::Sleep(secs)),
                None => Some(Action::OpenSpan),
            }
            &&& fifth == Some(Action::OpenSpan)
            &&& again == start
            &&& start.after_lap(lap) == start
        }),
{
}

/// The loop never stops and never wears out: after any number of
/// iterations, however many of them failed or ran late, it stands at the
/// opening of a span as it did before the first, so one more iteration
/// always follows and runs like any other.
pub proof fn law_loop_never_stops<P>(start: MonitorLoop<P>, laps: Seq<Lap>)
    requires
        start.phase is Opening,
    ensures
        start.after_laps(laps) == start,
    decreases laps.len(),
{
    if laps.len() > 0 {
        law_loop_never_stops(start, laps.drop_last());
        law_iteration_ends_where_it_began(start, laps.last());
    }
}

/// A new loop comes to its first iteration by the one `Wake`.
pub proof fn law_first_wake_opens_first_span<P>(monitor: Monitor<P>, now: u128)
    ensures
        MonitorLoop::initial(monitor).transition(Event::Wake, now) == (
            MonitorLoop::initial(monitor).at(Phase::Opening),
            Some(Action::OpenSpan),
        ),
{
}

/// Every action has its place in the iteration: a probe is asked for only
/// when a span has just been opened, a span is opened only from rest or when
/// the span before it has been closed, and a failure is reported only when
/// the probe has just returned one. So no iteration probes before the one
/// before it has closed its span.
pub proof fn law_actions_keep_their_order<P>(before: MonitorLoop<P>, event: Event, now: u128)
    ensures
        ({
            let (after, action) = before.transition(event, now);
            &&& (action == Some(Action::Probe)) <==> (before.phase is Opening
                && event is SpanOpened)
            &&& (action == Some(Action::OpenSpan)) <==> ({
                ||| before.phase is Idle && event is Wake
                ||| (before.phase matches Phase::Closing { since } && event is SpanClosed
                    && pause_between(since, now) is None)
            })
            &&& (action matches Some(Action::Report(_))) <==> (before.phase is Probing
                && event matches Event::Probed(Err(_)))
            &&& (action == Some(Action::CloseSpan)) <==> ({
                ||| (before.phase is Probing && event matches Event::Probed(Ok(_)))
                ||| before.phase is Reporting && event is Reported
            })
            &&& (action matches Some(Action::Sleep(_))) <==> (before.phase matches Phase::Closing {
                since,
            } && event is SpanClosed && pause_between(since, now) is Some)
            &&& after.monitor == before.monitor
        }),
{
}

} // verus!
