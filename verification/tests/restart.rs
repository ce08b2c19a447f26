use nuko::restart::{restart_instance, RestartEvent, RestartPolicy, RestartProgress, RestartStep};

fn run(policy: &RestartPolicy, observed: &[bool]) -> Vec<RestartStep> {
    let mut steps = Vec::new();
    let mut polls = 0;
    let (mut progress, mut step) =
        restart_instance(policy, RestartProgress { polls: 0 }, RestartEvent::Requested);
    loop {
        steps.push(step);
        let event = match step {
            RestartStep::Start => return steps,
            RestartStep::Stop => RestartEvent::StopAttempted,
            RestartStep::Poll => {
                let running = observed.get(polls).copied().unwrap_or(true);
                polls += 1;
                RestartEvent::Polled { running }
            }
            RestartStep::Sleep { .. } => RestartEvent::Slept,
        };
        let next = restart_instance(policy, progress, event);
        progress = next.0;
        step = next.1;
    }
}

#[test]
fn default_policy_polls_every_half_second_sixty_times() {
    assert_eq!(RestartPolicy::default(), RestartPolicy { poll_interval_ms: 500, max_polls: 60 });
}

#[test]
fn restart_starts_at_once_when_the_process_is_gone() {
    let steps = run(&RestartPolicy::default(), &[false]);
    assert_eq!(steps, vec![RestartStep::Stop, RestartStep::Poll, RestartStep::Start]);
}

#[test]
fn restart_waits_until_the_process_disappears() {
    let steps = run(&RestartPolicy::default(), &[true, true, false]);
    let pause = RestartStep::Sleep { millis: 500 };
    assert_eq!(
        steps,
        vec![
            RestartStep::Stop,
            RestartStep::Poll,
            pause,
            RestartStep::Poll,
            pause,
            RestartStep::Poll,
            RestartStep::Start
        ]
    );
}

#[test]
fn restart_gives_up_waiting_after_the_budget() {
    let steps = run(&RestartPolicy::default(), &[]);
    let polls = steps.iter().filter(|s| **s == RestartStep::Poll).count();
    let pauses = steps.iter().filter(|s| matches!(s, RestartStep::Sleep { millis: 500 })).count();
    assert_eq!(polls, 60);
    assert_eq!(pauses, 60);
    assert_eq!(steps.len(), 122);
    assert_eq!(steps[0], RestartStep::Stop);
    assert_eq!(steps[121], RestartStep::Start);
}

#[test]
fn restart_with_a_short_budget() {
    let policy = RestartPolicy { poll_interval_ms: 5, max_polls: 2 };
    let pause = RestartStep::Sleep { millis: 5 };
    assert_eq!(
        run(&policy, &[true, true, true]),
        vec![RestartStep::Stop, RestartStep::Poll, pause, RestartStep::Poll, pause, RestartStep::Start]
    );
    let none = RestartPolicy { poll_interval_ms: 5, max_polls: 0 };
    assert_eq!(run(&none, &[true]), vec![RestartStep::Stop, RestartStep::Start]);
}

#[test]
fn poll_count_does_not_wrap() {
    let policy = RestartPolicy::default();
    let full = RestartProgress { polls: u32::MAX };
    let next = restart_instance(&policy, full, RestartEvent::Polled { running: true });
    assert_eq!(next, (full, RestartStep::Sleep { millis: 500 }));
    assert_eq!(restart_instance(&policy, full, RestartEvent::Slept), (full, RestartStep::Start));
}
