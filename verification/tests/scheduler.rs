use std::cell::Cell;
use std::sync::Arc;

use roselite::cadence::NANOS_PER_SEC;
use roselite::cycle::{Action, Event, MonitorLoop, Phase};
use roselite::dispatch::{CheckFailure, Route};
use roselite::monitor::{Monitor, ProtocolKind};
use roselite::scheduler::{configure_monitors, LoopTask};

/// A prober that counts its calls and fails where it is told to.
struct Counting {
    calls: Cell<u32>,
    fails: bool,
}

fn counting(fails: bool) -> Counting {
    Counting { calls: Cell::new(0), fails }
}

fn probe(prober: &Counting) -> Result<(), String> {
    prober.calls.set(prober.calls.get() + 1);
    if prober.fails {
        Err("simulated failure".to_string())
    } else {
        Ok(())
    }
}

fn monitor_of(target: &str, kind: ProtocolKind) -> Monitor<()> {
    Monitor { target: target.to_string(), kind, params: () }
}

/// Performs the probe that the task's route asks for, as a runner would.
fn probe_through(task: &LoopTask<(), Counting, Counting>) -> Result<(), String> {
    match task.route() {
        Route::Http(prober) => probe(prober),
        Route::Icmp(prober) => probe(prober),
    }
}

#[test]
fn no_monitors_no_loops() {
    let monitors: Vec<Monitor<()>> = Vec::new();
    let tasks = configure_monitors(monitors, counting(false), counting(false));
    assert!(tasks.is_empty());
}

#[test]
fn one_loop_for_each_monitor_in_order() {
    let monitors = vec![
        monitor_of("a.example", ProtocolKind::Http),
        monitor_of("10.0.0.2", ProtocolKind::Icmp),
        monitor_of("b.example", ProtocolKind::Http),
    ];
    let tasks = configure_monitors(monitors.clone(), counting(false), counting(false));
    assert_eq!(tasks.len(), 3);
    for (task, monitor) in tasks.iter().zip(monitors.iter()) {
        assert_eq!(task.monitor(), monitor);
        assert_eq!(task.state, MonitorLoop::new(monitor.clone()));
        assert_eq!(task.state.phase, Phase::Idle);
    }
}

#[test]
fn many_monitors_many_loops() {
    let mut monitors: Vec<Monitor<()>> = Vec::new();
    for n in 0..1000 {
        monitors.push(monitor_of(&format!("host-{n}.example"), ProtocolKind::Http));
    }
    let tasks = configure_monitors(monitors, counting(false), counting(false));
    assert_eq!(tasks.len(), 1000);
    assert_eq!(tasks[999].monitor().target, "host-999.example");
}

#[test]
fn the_same_monitor_twice_gets_two_loops() {
    let twice = vec![
        monitor_of("example.com", ProtocolKind::Http),
        monitor_of("example.com", ProtocolKind::Http),
    ];
    let tasks = configure_monitors(twice, counting(false), counting(false));
    assert_eq!(tasks.len(), 2);
    assert_eq!(tasks[0].state, tasks[1].state);
}

#[test]
fn all_loops_share_one_pair_of_probers() {
    let monitors = vec![
        monitor_of("a.example", ProtocolKind::Http),
        monitor_of("b.example", ProtocolKind::Http),
        monitor_of("10.0.0.3", ProtocolKind::Icmp),
    ];
    let tasks = configure_monitors(monitors, "the http prober", "the icmp prober");
    assert_eq!(tasks[0].probers.http, "the http prober");
    assert_eq!(tasks[0].probers.icmp, "the icmp prober");
    assert!(Arc::ptr_eq(&tasks[0].probers, &tasks[1].probers));
    assert!(Arc::ptr_eq(&tasks[1].probers, &tasks[2].probers));
    assert_eq!(Arc::strong_count(&tasks[0].probers), 3);
}

#[test]
fn a_task_routes_its_own_monitor() {
    let monitors =
        vec![monitor_of("example.com", ProtocolKind::Http), monitor_of("10.0.0.1", ProtocolKind::Icmp)];
    let tasks = configure_monitors(monitors, 'h', 'i');
    assert!(matches!(tasks[0].route(), Route::Http(&'h')));
    assert!(matches!(tasks[1].route(), Route::Icmp(&'i')));
}

#[test]
fn a_task_steps_by_its_own_clock() {
    let mut tasks =
        configure_monitors(vec![monitor_of("example.com", ProtocolKind::Http)], (), ());
    let task = &mut tasks[0];
    assert_eq!(task.step(Event::SpanClosed), None);
    assert_eq!(task.step(Event::Wake), Some(Action::OpenSpan));
    assert_eq!(task.step(Event::Wake), None);
    assert_eq!(task.step(Event::SpanOpened), Some(Action::Probe));
    assert_eq!(
        task.step(Event::Probed(Err("status 502".to_string()))),
        Some(Action::Report(CheckFailure {
            kind: ProtocolKind::Http,
            cause: "status 502".to_string()
        }))
    );
    assert_eq!(task.step(Event::Reported), Some(Action::CloseSpan));
    match task.step(Event::SpanClosed) {
        Some(Action::Sleep(secs)) => assert!((1..=60).contains(&secs)),
        other => panic!("a check of no time was followed by {other:?}"),
    }
    assert_eq!(task.state.phase, Phase::Idle);
    assert_eq!(task.monitor().target, "example.com");
}

#[test]
fn two_monitors_one_failing_do_not_disturb_each_other() {
    let monitors =
        vec![monitor_of("example.com", ProtocolKind::Http), monitor_of("10.0.0.1", ProtocolKind::Icmp)];
    let mut tasks = configure_monitors(monitors, counting(true), counting(false));
    assert_eq!(tasks.len(), 2);

    let mut actions: Vec<Vec<Action>> = vec![Vec::new(), Vec::new()];
    for cycle in 0..3u128 {
        let start: u128 = cycle * 60 * NANOS_PER_SEC;
        for (index, task) in tasks.iter_mut().enumerate() {
            let mut now: u128 = start;
            let mut event = Event::Wake;
            loop {
                let action = task.state.step_at(event, now).unwrap();
                actions[index].push(action.clone());
                now += NANOS_PER_SEC;
                event = match action {
                    Action::OpenSpan => Event::SpanOpened,
                    Action::Probe => Event::Probed(probe_through(task)),
                    Action::Report(_) => Event::Reported,
                    Action::CloseSpan => Event::SpanClosed,
                    Action::Sleep(_) => break,
                };
            }
            assert_eq!(task.state.phase, Phase::Idle);
        }
        let done: u32 = u32::try_from(cycle).unwrap() + 1;
        assert_eq!(tasks[0].probers.http.calls.get(), done);
        assert_eq!(tasks[0].probers.icmp.calls.get(), done);
    }

    let failure = CheckFailure { kind: ProtocolKind::Http, cause: "simulated failure".to_string() };
    let http_cycle = vec![
        Action::OpenSpan,
        Action::Probe,
        Action::Report(failure),
        Action::CloseSpan,
        Action::Sleep(57),
    ];
    let icmp_cycle = vec![Action::OpenSpan, Action::Probe, Action::CloseSpan, Action::Sleep(58)];
    assert_eq!(actions[0], [http_cycle.clone(), http_cycle.clone(), http_cycle].concat());
    assert_eq!(actions[1], [icmp_cycle.clone(), icmp_cycle.clone(), icmp_cycle].concat());
}

#[test]
fn a_failing_monitor_changes_nothing_for_its_neighbour() {
    let run_icmp = |http_fails: bool| -> Vec<Action> {
        let monitors = vec![
            monitor_of("example.com", ProtocolKind::Http),
            monitor_of("10.0.0.1", ProtocolKind::Icmp),
        ];
        let mut tasks = configure_monitors(monitors, counting(http_fails), counting(false));
        let mut seen: Vec<Action> = Vec::new();
        let mut events: Vec<Event> = vec![Event::Wake, Event::Wake];
        let mut now: u128 = 0;
        for _ in 0..12 {
            for index in 0..2 {
                let event = std::mem::replace(&mut events[index], Event::Wake);
                let action = tasks[index].state.step_at(event, now).unwrap();
                now += 250_000_000;
                if index == 1 {
                    seen.push(action.clone());
                }
                events[index] = match action {
                    Action::OpenSpan => Event::SpanOpened,
                    Action::Probe => Event::Probed(probe_through(&tasks[index])),
                    Action::Report(_) => Event::Reported,
                    Action::CloseSpan => Event::SpanClosed,
                    Action::Sleep(_) => Event::Wake,
                };
            }
        }
        seen
    };
    assert_eq!(run_icmp(true), run_icmp(false));
    assert_eq!(run_icmp(true)[..4], [
        Action::OpenSpan,
        Action::Probe,
        Action::CloseSpan,
        Action::Sleep(59)
    ]);
}
