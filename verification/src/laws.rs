//! What holds of the supervisor across its operations.
//!
//! Each law is stated over the mathematical models that the contracts of the
//! operations use, and proved from their definitions.
use crate::error::SupervisorErrorView;
use crate::instance::{
    after_stop_request, command_channel_of, directive_result, info_of, instance_dir_of, knows,
    metrics_of, resolved, signal_order_of, start_of, status_of, stop_directive, stop_plan_of,
    working_dir_of, AfterDirectiveView, InstanceStoreView, Signal, SignalOrderView, StopPlanView,
};
use crate::launch::LaunchCommandView;
use crate::models::{InstanceInfoView, InstanceMetricsView};
use crate::process_table::{
    in_directory, lemma_running_iff_matching, running_in, ProcessEntryView,
};
use crate::supervisor::{
    after_line, after_lines, after_start, logged, without_channel, NotificationView,
    SupervisorView,
};
use vstd::prelude::*;

verus! {

/// An identifier without configuration is not found.
///
/// Start, stop, kill, status, description, metrics and sending all fail with
/// `NotFound` for an identifier for which no configuration exists, whatever
/// the supervisor holds and whatever the process table shows.
pub proof fn law_unknown_instance_is_not_found<H>(
    s: SupervisorView<H>,
    store: InstanceStoreView,
    procs: Seq<ProcessEntryView>,
    id: Seq<char>,
    time: Seq<char>,
)
    requires
        !knows(store, id),
    ensures
        start_of(store, procs, id) == Err::<LaunchCommandView, SupervisorErrorView>(
            SupervisorErrorView::NotFound { id },
        ),
        stop_plan_of(s, store, id) == Err::<StopPlanView<H>, SupervisorErrorView>(
            SupervisorErrorView::NotFound { id },
        ),
        signal_order_of(store, procs, id, Signal::Terminate) == Err::<
            SignalOrderView,
            SupervisorErrorView,
        >(SupervisorErrorView::NotFound { id }),
        signal_order_of(store, procs, id, Signal::Kill) == Err::<
            SignalOrderView,
            SupervisorErrorView,
        >(SupervisorErrorView::NotFound { id }),
        status_of(store, procs, id) == Err::<bool, SupervisorErrorView>(
            SupervisorErrorView::NotFound { id },
        ),
        info_of(store, procs, id) == Err::<InstanceInfoView, SupervisorErrorView>(
            SupervisorErrorView::NotFound { id },
        ),
        metrics_of(store, procs, id, time) == Err::<InstanceMetricsView, SupervisorErrorView>(
            SupervisorErrorView::NotFound { id },
        ),
        command_channel_of(s, store, id) == Err::<H, SupervisorErrorView>(
            SupervisorErrorView::NotFound { id },
        ),
        after_stop_request(s, store, id) == s,
{
}

/// A running instance is not started again.
///
/// Where a process already runs in the working directory of a known instance,
/// a start fails with `AlreadyRunning` and yields no command to spawn.
pub proof fn law_running_instance_is_not_started(
    store: InstanceStoreView,
    procs: Seq<ProcessEntryView>,
    id: Seq<char>,
)
    requires
        knows(store, id),
        running_in(procs, working_dir_of(store, id)),
    ensures
        start_of(store, procs, id) == Err::<LaunchCommandView, SupervisorErrorView>(
            SupervisorErrorView::AlreadyRunning { name: resolved(store, id).name },
        ),
{
}

/// Stopping what was never started fails.
///
/// For a known instance without a registered command channel and without a
/// process in its working directory, a stop falls back to signalling and the
/// fallback fails with `NotRunning`.
pub proof fn law_stop_of_idle_instance_fails<H>(
    s: SupervisorView<H>,
    store: InstanceStoreView,
    procs: Seq<ProcessEntryView>,
    id: Seq<char>,
)
    requires
        knows(store, id),
        !s.channels.contains_key(id),
        !running_in(procs, working_dir_of(store, id)),
    ensures
        stop_plan_of(s, store, id) == Ok::<StopPlanView<H>, SupervisorErrorView>(
            StopPlanView::Signal,
        ),
        signal_order_of(store, procs, id, Signal::Terminate) == Err::<
            SignalOrderView,
            SupervisorErrorView,
        >(SupervisorErrorView::NotRunning { name: resolved(store, id).name }),
{
}

/// A stop or a kill that signals announces a state change.
pub proof fn law_signalling_announces_a_state_change(
    store: InstanceStoreView,
    procs: Seq<ProcessEntryView>,
    id: Seq<char>,
    signal: Signal,
)
    requires
        signal_order_of(store, procs, id, signal) is Ok,
    ensures
        signal_order_of(store, procs, id, signal)->Ok_0.notify == NotificationView::StateChanged,
        signal_order_of(store, procs, id, signal)->Ok_0.signal == signal,
        signal_order_of(store, procs, id, signal)->Ok_0.pids.len() > 0,
{
    lemma_running_iff_matching(procs, working_dir_of(store, id));
}

/// A started worker counts as running for as long as the process table shows
/// it.
///
/// The command of a successful start runs in the instance's working
/// directory.  The status is `true` for every snapshot with a process in that
/// directory, and `false` for every snapshot without one.
pub proof fn law_status_follows_the_worker(
    store: InstanceStoreView,
    before: Seq<ProcessEntryView>,
    later: Seq<ProcessEntryView>,
    id: Seq<char>,
)
    requires
        start_of(store, before, id) is Ok,
    ensures
        start_of(store, before, id)->Ok_0.working_dir == working_dir_of(store, id),
        working_dir_of(store, id) == instance_dir_of(store.data_dir, resolved(store, id).name),
        status_of(store, later, id) == Ok::<bool, SupervisorErrorView>(
            exists|i: int|
                0 <= i < later.len() && in_directory(
                    #[trigger] later[i],
                    start_of(store, before, id)->Ok_0.working_dir,
                ),
        ),
{
}

/// The log holds the printed lines in the order of their arrival.
///
/// After a start the log of the instance is empty.  Recording lines one after
/// the other, from whichever stream they come, leaves the log as the lines
/// recorded so far, in that order: none is dropped, none is doubled, and what
/// the log held before a line arrived is a prefix of what it holds after.  The
/// command channels and the logs of other instances are not touched.
pub proof fn law_log_keeps_arrival_order<H>(
    s: SupervisorView<H>,
    id: Seq<char>,
    stdin: Option<H>,
    lines: Seq<Seq<char>>,
)
    ensures
        logged(after_start(s, id, stdin), id) == Seq::<Seq<char>>::empty(),
        logged(after_lines(after_start(s, id, stdin), id, lines), id) == lines,
        after_lines(after_start(s, id, stdin), id, lines).channels == after_start(
            s,
            id,
            stdin,
        ).channels,
        forall|other: Seq<char>|
            other != id ==> logged(after_lines(after_start(s, id, stdin), id, lines), other)
                == logged(s, other),
        forall|n: int|
            0 <= n <= lines.len() ==> logged(
                after_lines(after_start(s, id, stdin), id, #[trigger] lines.take(n)),
                id,
            ) == lines.take(n),
{
    let started = after_start(s, id, stdin);
    lemma_lines_append(started, id, lines);
    assert(Seq::<Seq<char>>::empty() + lines =~= lines);
    assert forall|n: int| 0 <= n <= lines.len() implies logged(
        after_lines(started, id, #[trigger] lines.take(n)),
        id,
    ) == lines.take(n) by {
        lemma_lines_append(started, id, lines.take(n));
        assert(Seq::<Seq<char>>::empty() + lines.take(n) =~= lines.take(n));
    }
    assert forall|other: Seq<char>| other != id implies logged(
        after_lines(started, id, lines),
        other,
    ) == logged(s, other) by {
        lemma_lines_append(started, id, lines);
        assert(logged(started, other) == logged(s, other));
    }
}

/// Recording `lines` for an instance with a log buffer appends them, in
/// order, and changes nothing else.
pub proof fn lemma_lines_append<H>(s: SupervisorView<H>, id: Seq<char>, lines: Seq<Seq<char>>)
    requires
        s.logs.contains_key(id),
    ensures
        after_lines(s, id, lines).logs.contains_key(id),
        after_lines(s, id, lines).logs[id] == s.logs[id] + lines,
        after_lines(s, id, lines).channels == s.channels,
        after_lines(s, id, lines).logs.dom() == s.logs.dom(),
        forall|other: Seq<char>|
            other != id ==> logged(after_lines(s, id, lines), other) == logged(s, other),
    decreases lines.len(),
{
    if lines.len() == 0 {
        assert(s.logs[id] + lines =~= s.logs[id]);
    } else {
        let earlier = after_lines(s, id, lines.drop_last());
        lemma_lines_append(s, id, lines.drop_last());
        assert(after_lines(s, id, lines) == after_line(earlier, id, lines.last()));
        assert((s.logs[id] + lines.drop_last()).push(lines.last()) =~= s.logs[id] + lines);
        assert(after_lines(s, id, lines).logs.dom() =~= s.logs.dom());
    }
}

/// A line for an instance that was never started is not kept.
pub proof fn law_line_without_buffer_is_not_kept<H>(
    s: SupervisorView<H>,
    id: Seq<char>,
    line: Seq<char>,
)
    requires
        !s.logs.contains_key(id),
    ensures
        after_line(s, id, line) == s,
{
}

/// A graceful stop succeeds at once.
///
/// Where a command channel is registered for a known instance, a stop hands
/// out that channel with the stop directive and takes it out of the registry.
/// Once the directive is written and flushed the stop is finished: no
/// snapshot is taken, no signal is sent, and nothing waits for the worker to
/// exit.
pub proof fn law_graceful_stop_finishes_at_once<H>(
    s: SupervisorView<H>,
    store: InstanceStoreView,
    id: Seq<char>,
)
    requires
        knows(store, id),
        s.channels.contains_key(id),
    ensures
        stop_plan_of(s, store, id) == Ok::<StopPlanView<H>, SupervisorErrorView>(
            StopPlanView::Graceful { channel: s.channels[id], directive: stop_directive() },
        ),
        !after_stop_request(s, store, id).channels.contains_key(id),
        after_stop_request(s, store, id).logs == s.logs,
        directive_result(true, true) == (AfterDirectiveView::Finished {
            notify: NotificationView::StateChanged,
        }),
{
}

/// A stop whose directive could not be delivered falls back to signalling.
pub proof fn law_failed_directive_falls_back(written: bool, flushed: bool)
    requires
        !(written && flushed),
    ensures
        directive_result(written, flushed) == AfterDirectiveView::FallBack,
{
}

/// A kill leaves no command channel behind.
///
/// After a kill no command channel is registered for the identifier, also
/// where no process matched and the kill reports `NotRunning`, and where the
/// identifier is unknown.  The channels of other identifiers and all logs are
/// as before.
pub proof fn law_kill_leaves_no_channel<H>(
    s: SupervisorView<H>,
    store: InstanceStoreView,
    procs: Seq<ProcessEntryView>,
    id: Seq<char>,
)
    ensures
        !without_channel(s, id).channels.contains_key(id),
        without_channel(s, id).logs == s.logs,
        forall|other: Seq<char>|
            other != id ==> without_channel(s, id).channels.contains_key(other)
                == s.channels.contains_key(other),
        forall|other: Seq<char>|
            other != id && s.channels.contains_key(other) ==> without_channel(
                s,
                id,
            ).channels[other] == s.channels[other],
        knows(store, id) && !running_in(procs, working_dir_of(store, id)) ==> signal_order_of(
            store,
            procs,
            id,
            Signal::Kill,
        ) == Err::<SignalOrderView, SupervisorErrorView>(
            SupervisorErrorView::NotRunning { name: resolved(store, id).name },
        ),
{
}

/// At most one command channel is registered per identifier: a new start
/// replaces the registration of an earlier one.
pub proof fn law_start_replaces_channel<H>(s: SupervisorView<H>, id: Seq<char>, stdin: H)
    ensures
        after_start(s, id, Some(stdin)).channels.contains_key(id),
        after_start(s, id, Some(stdin)).channels[id] == stdin,
        forall|other: Seq<char>|
            other != id && s.channels.contains_key(other) ==> after_start(
                s,
                id,
                Some(stdin),
            ).channels[other] == s.channels[other],
{
}

} // verus!
