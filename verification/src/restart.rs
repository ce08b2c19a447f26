//! The restart of an instance: stop it, wait for its processes to disappear,
//! start it again.
//!
//! The wait polls the process table at a fixed interval and gives up after a
//! fixed number of polls; the start is attempted in either case.  The caller
//! runs the loop: it performs each step and reports back what happened.
use vstd::prelude::*;

verus! {

/// How long a restart waits for the old worker to exit.
#[derive(Debug, Clone, Copy, PartialEq, Eq, Structural)]
pub struct RestartPolicy {
    /// The pause between two polls, in milliseconds.
    pub poll_interval_ms: u64,
    /// The largest number of polls.
    pub max_polls: u32,
}

impl Default for RestartPolicy {
    /// A poll every 500 ms, at most 60 of them: a ceiling of about 30 s.
    fn default() -> (policy: Self)
        ensures
            policy == (RestartPolicy { poll_interval_ms: 500, max_polls: 60 }),
    {
        RestartPolicy { poll_interval_ms: 500, max_polls: 60 }
    }
}

/// How far a restart has come: the number of polls taken so far.
#[derive(Debug, Clone, Copy, PartialEq, Eq, Structural)]
pub struct RestartProgress {
    pub polls: u32,
}

/// What the caller reports to the restart.
#[derive(Debug, Clone, Copy, PartialEq, Eq, Structural)]
pub enum RestartEvent {
    /// A restart was asked for.
    Requested,
    /// The stop was attempted.  Whether it succeeded is not reported: a failed
    /// stop does not end the restart.
    StopAttempted,
    /// A fresh snapshot was taken; `running` tells whether a process still
    /// runs in the instance's working directory.
    Polled { running: bool },
    /// The pause is over.
    Slept,
}

/// What the caller does next.
#[derive(Debug, Clone, Copy, PartialEq, Eq, Structural)]
pub enum RestartStep {
    /// Stop the instance, then report `StopAttempted`.
    Stop,
    /// Take a fresh snapshot, then report `Polled`.
    Poll,
    /// Pause for `millis` milliseconds, then report `Slept`.
    Sleep { millis: u64 },
    /// Start the instance.  The restart ends with the result of that start.
    Start,
}

/// Whether another poll is within the budget.
pub open spec fn may_poll(policy: RestartPolicy, progress: RestartProgress) -> bool {
    progress.polls < policy.max_polls
}

/// The transition of the restart: the progress after `event`, and the step
/// that the caller takes next.
pub open spec fn restart_next(policy: RestartPolicy, progress: RestartProgress, event: RestartEvent)
    -> (RestartProgress, RestartStep) {
    match event {
        RestartEvent::Requested => (RestartProgress { polls: 0 }, RestartStep::Stop),
        RestartEvent::StopAttempted | RestartEvent::Slept => (
            progress,
            if may_poll(policy, progress) {
                RestartStep::Poll
            } else {
                RestartStep::Start
            },
        ),
        RestartEvent::Polled { running } => (
            RestartProgress {
                polls: if progress.polls < u32::MAX {
                    (progress.polls + 1) as u32
                } else {
                    progress.polls
                },
            },
            if running {
                RestartStep::Sleep { millis: policy.poll_interval_ms }
            } else {
                RestartStep::Start
            },
        ),
    }
}

/// Advances a restart by one event.
pub fn restart_instance(policy: &RestartPolicy, progress: RestartProgress, event: RestartEvent)
    -> (next: (RestartProgress, RestartStep))
    ensures
        next == restart_next(*policy, progress, event),
{
    match event {
        RestartEvent::Requested => (RestartProgress { polls: 0 }, RestartStep::Stop),
        RestartEvent::StopAttempted | RestartEvent::Slept => {
            if progress.polls < policy.max_polls {
                (progress, RestartStep::Poll)
            } else {
                (progress, RestartStep::Start)
            }
        },
        RestartEvent::Polled { running } => {
            let polls = if progress.polls < u32::MAX {
                progress.polls + 1
            } else {
                progress.polls
            };
            if running {
                (RestartProgress { polls }, RestartStep::Sleep { millis: policy.poll_interval_ms })
            } else {
                (RestartProgress { polls }, RestartStep::Start)
            }
        },
    }
}

/// What the `k`-th poll (counting from 0) observes: `observed[k]`, and a
/// process that still runs beyond the end of `observed`.
pub open spec fn observation(observed: Seq<bool>, k: int) -> bool {
    if 0 <= k < observed.len() {
        observed[k]
    } else {
        true
    }
}

/// The steps that a caller takes who reports `event` in state `progress` and
/// then goes on reporting what each step brings, up to `fuel` steps.
pub open spec fn restart_run(
    policy: RestartPolicy,
    observed: Seq<bool>,
    progress: RestartProgress,
    event: RestartEvent,
    fuel: nat,
) -> Seq<RestartStep>
    decreases fuel,
{
    if fuel == 0 {
        Seq::<RestartStep>::empty()
    } else {
        let (next, step) = restart_next(policy, progress, event);
        let rest = match step {
            RestartStep::Start => Seq::<RestartStep>::empty(),
            RestartStep::Stop => restart_run(
                policy,
                observed,
                next,
                RestartEvent::StopAttempted,
                (fuel - 1) as nat,
            ),
            RestartStep::Poll => restart_run(
                policy,
                observed,
                next,
                RestartEvent::Polled { running: observation(observed, next.polls as int) },
                (fuel - 1) as nat,
            ),
            RestartStep::Sleep { millis } => restart_run(
                policy,
                observed,
                next,
                RestartEvent::Slept,
                (fuel - 1) as nat,
            ),
        };
        seq![step] + rest
    }
}

/// The number of polls among `steps`.
pub open spec fn polls_in(steps: Seq<RestartStep>) -> nat
    decreases steps.len(),
{
    if steps.len() == 0 {
        0
    } else {
        polls_in(steps.drop_first()) + if steps[0] == RestartStep::Poll {
            1nat
        } else {
            0nat
        }
    }
}

/// The milliseconds paused among `steps`.
pub open spec fn paused_in(steps: Seq<RestartStep>) -> nat
    decreases steps.len(),
{
    if steps.len() == 0 {
        0
    } else {
        paused_in(steps.drop_first()) + match steps[0] {
            RestartStep::Sleep { millis } => millis as nat,
            _ => 0nat,
        }
    }
}

/// Enough fuel to run a restart from `progress` to its start.
pub open spec fn enough_fuel(policy: RestartPolicy, progress: RestartProgress, fuel: nat) -> bool {
    fuel >= 2 * (policy.max_polls - progress.polls) + 1
}

proof fn lemma_wait_is_bounded(
    policy: RestartPolicy,
    observed: Seq<bool>,
    progress: RestartProgress,
    fuel: nat,
)
    requires
        progress.polls <= policy.max_polls,
        enough_fuel(policy, progress, fuel),
    ensures
        ({
            let steps = restart_run(policy, observed, progress, RestartEvent::Slept, fuel);
            &&& steps.len() > 0
            &&& steps.last() == RestartStep::Start
            &&& polls_in(steps) <= policy.max_polls - progress.polls
            &&& paused_in(steps) <= (policy.max_polls - progress.polls) * policy.poll_interval_ms
            &&& restart_run(policy, observed, progress, RestartEvent::StopAttempted, fuel) == steps
        }),
    decreases policy.max_polls - progress.polls,
{
    let steps = restart_run(policy, observed, progress, RestartEvent::Slept, fuel);
    if progress.polls < policy.max_polls {
        let running = observation(observed, progress.polls as int);
        let polled = RestartProgress { polls: (progress.polls + 1) as u32 };
        let after_poll = restart_run(
            policy,
            observed,
            progress,
            RestartEvent::Polled { running },
            (fuel - 1) as nat,
        );
        assert(steps == seq![RestartStep::Poll] + after_poll);
        assert(steps.drop_first() == after_poll);
        assert(polls_in(steps) == polls_in(after_poll) + 1);
        assert(paused_in(steps) == paused_in(after_poll));
        if running {
            let tail = restart_run(
                policy,
                observed,
                polled,
                RestartEvent::Slept,
                (fuel - 2) as nat,
            );
            lemma_wait_is_bounded(policy, observed, polled, (fuel - 2) as nat);
            let pause = RestartStep::Sleep { millis: policy.poll_interval_ms };
            assert(after_poll == seq![pause] + tail);
            assert(after_poll.drop_first() == tail);
            assert(polls_in(after_poll) == polls_in(tail));
            assert(paused_in(after_poll) == paused_in(tail) + policy.poll_interval_ms);
            assert((policy.max_polls - progress.polls) * policy.poll_interval_ms == (
            policy.max_polls - polled.polls) * policy.poll_interval_ms + policy.poll_interval_ms)
                by (nonlinear_arith)
                requires
                    polled.polls == progress.polls + 1,
            ;
        } else {
            assert(after_poll == seq![RestartStep::Start]);
            assert(after_poll.drop_first() == Seq::<RestartStep>::empty());
            assert(polls_in(after_poll.drop_first()) == 0);
            assert(paused_in(after_poll.drop_first()) == 0);
            assert(polls_in(after_poll) == 0);
            assert(paused_in(after_poll) == 0);
            assert((policy.max_polls - progress.polls) * policy.poll_interval_ms >= 0)
                by (nonlinear_arith)
                requires
                    policy.max_polls - progress.polls >= 0,
                    policy.poll_interval_ms >= 0,
            ;
        }
    } else {
        assert(steps == seq![RestartStep::Start]);
        assert(steps.drop_first() == Seq::<RestartStep>::empty());
        assert(polls_in(steps.drop_first()) == 0);
        assert(paused_in(steps.drop_first()) == 0);
        assert((policy.max_polls - progress.polls) * policy.poll_interval_ms == 0)
            by (nonlinear_arith)
            requires
                policy.max_polls - progress.polls == 0,
        ;
    }
}

/// A restart is bounded and always reaches the start.
///
/// Whatever the polls observe, a restart first stops the instance, then takes
/// at most `max_polls` polls and pauses for at most `max_polls` times the
/// poll interval, and ends by starting the instance: also when the old
/// process never disappears.
pub proof fn law_restart_is_bounded(policy: RestartPolicy, observed: Seq<bool>, fuel: nat)
    requires
        fuel >= 2 * policy.max_polls + 2,
    ensures
        ({
            let steps = restart_run(
                policy,
                observed,
                RestartProgress { polls: 0 },
                RestartEvent::Requested,
                fuel,
            );
            &&& steps.len() >= 2
            &&& steps[0] == RestartStep::Stop
            &&& steps.last() == RestartStep::Start
            &&& polls_in(steps) <= policy.max_polls
            &&& paused_in(steps) <= policy.max_polls * policy.poll_interval_ms
        }),
{
    let begin = RestartProgress { polls: 0 };
    let steps = restart_run(policy, observed, begin, RestartEvent::Requested, fuel);
    let tail = restart_run(policy, observed, begin, RestartEvent::StopAttempted, (fuel - 1) as nat);
    lemma_wait_is_bounded(policy, observed, begin, (fuel - 1) as nat);
    assert(steps == seq![RestartStep::Stop] + tail);
    assert(steps.drop_first() == tail);
    assert(polls_in(steps) == polls_in(tail));
    assert(paused_in(steps) == paused_in(tail));
}

/// A restart goes on to the start as soon as a poll finds no process left.
pub proof fn law_restart_starts_when_process_is_gone(
    policy: RestartPolicy,
    progress: RestartProgress,
)
    ensures
        restart_next(policy, progress, RestartEvent::Polled { running: false }).1
            == RestartStep::Start,
{
}

} // verus!
