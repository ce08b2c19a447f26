//! The operations of the process supervisor: start, stop, kill, restart,
//! status, logs and metrics of an instance's worker.
//!
//! Every operation here decides; none performs input or output.  The caller
//! supplies what was observed (the persisted configurations, a fresh process
//! snapshot, the result of a write) and carries out what the operation returns
//! (a command to spawn, a directive to write, processes to signal, a
//! notification to raise).
use crate::clock::{is_time_of_day, local_time_of_day};
use crate::error::{SupervisorError, SupervisorErrorView};
use crate::launch::{build_launch_command, launch_command_of, LaunchCommand, LaunchCommandView};
use crate::models::{
    Instance, InstanceConfig, InstanceConfigView, InstanceInfo, InstanceInfoView,
    InstanceMetrics, InstanceMetricsView, InstanceView,
};
use crate::process_table::{
    cpu_in, lemma_running_iff_matching, lemma_usage_bounded, memory_in, pids_in, running_in,
    ProcessEntryView, ProcessSnapshot,
};
use crate::registry::Registry;
use crate::supervisor::{
    after_line, after_start, logged, without_channel, Notification, NotificationView, Supervisor,
    SupervisorView,
};
use crate::text::{concat2, concat3, opt_text, same_text, texts};
use vstd::prelude::*;

verus! {

// ------------------------------------------------------- the instance store

/// A persisted instance: the directory in which its configuration was found,
/// and the configuration.
#[derive(Debug, Clone, PartialEq, Eq)]
pub struct StoredInstance {
    pub directory: String,
    pub config: InstanceConfig,
}

/// The mathematical content of a [`StoredInstance`].
pub struct StoredInstanceView {
    pub directory: Seq<char>,
    pub config: InstanceConfigView,
}

impl View for StoredInstance {
    type V = StoredInstanceView;

    open spec fn view(&self) -> StoredInstanceView {
        StoredInstanceView { directory: self.directory@, config: self.config@ }
    }
}

/// What the configuration store holds: the data directory under which all
/// instance directories live, and the persisted instances in the order in
/// which they were read.
#[derive(Debug, Clone, PartialEq, Eq)]
pub struct InstanceStore {
    pub data_dir: String,
    pub instances: Vec<StoredInstance>,
}

/// The mathematical content of an [`InstanceStore`].
pub struct InstanceStoreView {
    pub data_dir: Seq<char>,
    pub instances: Seq<StoredInstanceView>,
}

impl View for InstanceStore {
    type V = InstanceStoreView;

    open spec fn view(&self) -> InstanceStoreView {
        InstanceStoreView {
            data_dir: self.data_dir@,
            instances: self.instances@.map_values(|s: StoredInstance| s@),
        }
    }
}

/// The working directory of the instance called `name`:
/// `<data_dir>/instances/<name>`.
pub open spec fn instance_dir_of(data_dir: Seq<char>, name: Seq<char>) -> Seq<char> {
    data_dir + "/instances/"@ + name
}

/// Whether a configuration exists for `id`.
pub open spec fn knows(store: InstanceStoreView, id: Seq<char>) -> bool {
    exists|i: int| 0 <= i < store.instances.len() && (#[trigger] store.instances[i]).config.id == id
}

/// Whether the instance at position `i` is the first one configured for `id`.
pub open spec fn is_first(store: InstanceStoreView, id: Seq<char>, i: int) -> bool {
    &&& 0 <= i < store.instances.len()
    &&& store.instances[i].config.id == id
    &&& forall|j: int| 0 <= j < i ==> (#[trigger] store.instances[j]).config.id != id
}

/// The configuration of `id`: that of the first instance configured for it.
pub open spec fn resolved(store: InstanceStoreView, id: Seq<char>) -> InstanceConfigView {
    store.instances[choose|i: int| is_first(store, id, i)].config
}

/// The working directory of the instance `id`.
pub open spec fn working_dir_of(store: InstanceStoreView, id: Seq<char>) -> Seq<char> {
    instance_dir_of(store.data_dir, resolved(store, id).name)
}

/// The first instance configured for an identifier is unique.
pub proof fn lemma_first_is_resolved(store: InstanceStoreView, id: Seq<char>, i: int)
    requires
        is_first(store, id, i),
    ensures
        knows(store, id),
        resolved(store, id) == store.instances[i].config,
{
    let k = choose|k: int| is_first(store, id, k);
    assert(is_first(store, id, k));
    if k < i {
        assert(store.instances[k].config.id != id);
    } else if i < k {
        assert(store.instances[i].config.id != id);
    }
}

/// The working directory of the instance called `name` under `data_dir`.
pub fn instance_dir(data_dir: &str, name: &str) -> (dir: String)
    ensures
        dir@ == instance_dir_of(data_dir@, name@),
{
    concat3(data_dir, "/instances/", name)
}

/// Looks the configuration of `id` up.  Fails with `NotFound` exactly when no
/// configuration exists for `id`.
pub fn get_instance_by_id<'a>(store: &'a InstanceStore, id: &str) -> (r: Result<
    &'a InstanceConfig,
    SupervisorError,
>)
    ensures
        match r {
            Ok(config) => knows(store@, id@) && config@ == resolved(store@, id@),
            Err(e) => !knows(store@, id@) && e@ == (SupervisorErrorView::NotFound { id: id@ }),
        },
{
    let mut i: usize = 0;
    while i < store.instances.len()
        invariant
            i <= store.instances@.len(),
            forall|j: int| 0 <= j < i ==> (#[trigger] store@.instances[j]).config.id != id@,
        decreases store.instances@.len() - i,
    {
        if same_text(store.instances[i].config.id.as_str(), id) {
            proof {
                assert(store@.instances[i as int] == store.instances@[i as int]@);
                lemma_first_is_resolved(store@, id@, i as int);
            }
            return Ok(&store.instances[i].config);
        }
        assert(store@.instances[i as int] == store.instances@[i as int]@);
        i += 1;
    }
    Err(SupervisorError::NotFound { id: id.to_owned() })
}

// ------------------------------------------------------------------- status

/// Whether the instance `id` runs, as the snapshot `procs` shows it.
pub open spec fn status_of(store: InstanceStoreView, procs: Seq<ProcessEntryView>, id: Seq<char>)
    -> Result<bool, SupervisorErrorView> {
    if !knows(store, id) {
        Err(SupervisorErrorView::NotFound { id })
    } else {
        Ok(running_in(procs, working_dir_of(store, id)))
    }
}

/// Reports whether any process of the snapshot runs in the working directory
/// of the instance `id`.  "Starting" and "fully initialised" are not told
/// apart.
pub fn get_instance_status(store: &InstanceStore, snapshot: &ProcessSnapshot, id: &str) -> (r:
    Result<bool, SupervisorError>)
    ensures
        match r {
            Ok(running) => status_of(store@, snapshot@, id@) == Ok::<bool, SupervisorErrorView>(
                running,
            ),
            Err(e) => status_of(store@, snapshot@, id@) == Err::<bool, SupervisorErrorView>(e@),
        },
{
    match get_instance_by_id(store, id) {
        Ok(config) => {
            let dir = instance_dir(store.data_dir.as_str(), config.name.as_str());
            Ok(snapshot.is_running(dir.as_str()))
        },
        Err(e) => Err(e),
    }
}

/// What the instance list shows of the instance `id`.
pub open spec fn info_of(store: InstanceStoreView, procs: Seq<ProcessEntryView>, id: Seq<char>)
    -> Result<InstanceInfoView, SupervisorErrorView> {
    if !knows(store, id) {
        Err(SupervisorErrorView::NotFound { id })
    } else {
        let config = resolved(store, id);
        Ok(
            InstanceInfoView {
                id: config.id,
                name: config.name,
                software: config.software,
                version: config.version,
                running: running_in(procs, working_dir_of(store, id)),
            },
        )
    }
}

/// Describes the instance `id` and whether it runs.
pub fn get_instance_info(store: &InstanceStore, snapshot: &ProcessSnapshot, id: &str) -> (r: Result<
    InstanceInfo,
    SupervisorError,
>)
    ensures
        match r {
            Ok(info) => info_of(store@, snapshot@, id@) == Ok::<
                InstanceInfoView,
                SupervisorErrorView,
            >(info@),
            Err(e) => info_of(store@, snapshot@, id@) == Err::<
                InstanceInfoView,
                SupervisorErrorView,
            >(e@),
        },
{
    match get_instance_by_id(store, id) {
        Ok(config) => {
            let dir = instance_dir(store.data_dir.as_str(), config.name.as_str());
            let running = snapshot.is_running(dir.as_str());
            Ok(
                InstanceInfo {
                    id: config.id.clone(),
                    name: config.name.clone(),
                    software: config.software.clone(),
                    version: config.version.clone(),
                    running,
                },
            )
        },
        Err(e) => Err(e),
    }
}

/// What the instance list shows of a stored instance: it runs when a process
/// runs in the directory in which its configuration was found.
pub open spec fn listed(stored: StoredInstanceView, procs: Seq<ProcessEntryView>)
    -> InstanceInfoView {
    InstanceInfoView {
        id: stored.config.id,
        name: stored.config.name,
        software: stored.config.software,
        version: stored.config.version,
        running: running_in(procs, stored.directory),
    }
}

/// Lists every stored instance, in store order, with whether it runs.
pub fn list_instances(store: &InstanceStore, snapshot: &ProcessSnapshot) -> (infos: Vec<
    InstanceInfo,
>)
    ensures
        infos@.len() == store@.instances.len(),
        forall|i: int|
            0 <= i < infos@.len() ==> (#[trigger] infos@[i])@ == listed(
                store@.instances[i],
                snapshot@,
            ),
{
    let mut infos: Vec<InstanceInfo> = Vec::new();
    let mut i: usize = 0;
    while i < store.instances.len()
        invariant
            i <= store.instances@.len(),
            infos@.len() == i,
            forall|j: int|
                0 <= j < i ==> (#[trigger] infos@[j])@ == listed(store@.instances[j], snapshot@),
        decreases store.instances@.len() - i,
    {
        let stored = &store.instances[i];
        let running = snapshot.is_running(stored.directory.as_str());
        infos.push(
            InstanceInfo {
                id: stored.config.id.clone(),
                name: stored.config.name.clone(),
                software: stored.config.software.clone(),
                version: stored.config.version.clone(),
                running,
            },
        );
        assert(store@.instances[i as int] == store.instances@[i as int]@);
        i += 1;
    }
    infos
}

// --------------------------------------------------------------------- logs

/// The registry of log buffers: for each started identifier, the lines
/// recorded since its last start.
pub fn get_logs_map<H>(supervisor: &Supervisor<H>) -> (logs: &Registry<Vec<String>>)
    requires
        supervisor.wf(),
    ensures
        logs.wf(),
        logs@.map_values(|v: Vec<String>| texts(v@)) == supervisor@.logs,
{
    supervisor.log_registry()
}

/// The registry of command channels: for each identifier whose worker can be
/// written to, the handle of its standard input.
pub fn get_stdin_map<H>(supervisor: &Supervisor<H>) -> (channels: &Registry<H>)
    requires
        supervisor.wf(),
    ensures
        channels.wf(),
        channels@ == supervisor@.channels,
{
    supervisor.channel_registry()
}

/// The lines that the worker of `id` has printed since its last start, in the
/// order in which they were recorded.  An identifier without a log buffer has
/// no lines.
pub fn get_instance_logs<H>(supervisor: &Supervisor<H>, id: &str) -> (lines: Vec<String>)
    requires
        supervisor.wf(),
    ensures
        texts(lines@) == logged(supervisor@, id@),
{
    supervisor.logs_of(id)
}

// ------------------------------------------------------------------ metrics

/// The sample taken of the instance `id` at `time`: processor share and
/// memory summed over every process that runs in its working directory.
pub open spec fn metrics_of(
    store: InstanceStoreView,
    procs: Seq<ProcessEntryView>,
    id: Seq<char>,
    time: Seq<char>,
) -> Result<InstanceMetricsView, SupervisorErrorView> {
    if !knows(store, id) {
        Err(SupervisorErrorView::NotFound { id })
    } else {
        Ok(
            InstanceMetricsView {
                time,
                cpu_usage: cpu_in(procs, working_dir_of(store, id)) as u64,
                memory_usage: memory_in(procs, working_dir_of(store, id)) as u64,
            },
        )
    }
}

/// Samples the instance `id` from the snapshot and tags the sample with
/// `time`.  No matching process gives a sample of zeros, not a failure.
pub fn sample_instance(store: &InstanceStore, snapshot: &ProcessSnapshot, id: &str, time: String)
    -> (r: Result<InstanceMetrics, SupervisorError>)
    requires
        snapshot.wf(),
    ensures
        match r {
            Ok(m) => metrics_of(store@, snapshot@, id@, time@) == Ok::<
                InstanceMetricsView,
                SupervisorErrorView,
            >(m@),
            Err(e) => metrics_of(store@, snapshot@, id@, time@) == Err::<
                InstanceMetricsView,
                SupervisorErrorView,
            >(e@),
        },
        r is Ok ==> r->Ok_0.cpu_usage == cpu_in(snapshot@, working_dir_of(store@, id@)),
        r is Ok ==> r->Ok_0.memory_usage == memory_in(snapshot@, working_dir_of(store@, id@)),
{
    match get_instance_by_id(store, id) {
        Ok(config) => {
            let dir = instance_dir(store.data_dir.as_str(), config.name.as_str());
            let usage = snapshot.usage_in(dir.as_str());
            Ok(InstanceMetrics { time, cpu_usage: usage.0, memory_usage: usage.1 })
        },
        Err(e) => Err(e),
    }
}

/// Samples the instance `id` from the snapshot and tags the sample with the
/// local time of day, read now.
pub fn get_instance_metrics(store: &InstanceStore, snapshot: &ProcessSnapshot, id: &str) -> (r:
    Result<InstanceMetrics, SupervisorError>)
    requires
        snapshot.wf(),
    ensures
        match r {
            Ok(m) => is_time_of_day(m.time@) && metrics_of(store@, snapshot@, id@, m.time@) == Ok::<
                InstanceMetricsView,
                SupervisorErrorView,
            >(m@),
            Err(e) => !knows(store@, id@) && e@ == (SupervisorErrorView::NotFound { id: id@ }),
        },
{
    let time = local_time_of_day();
    sample_instance(store, snapshot, id, time)
}

// -------------------------------------------------------------------- start

/// What starting the instance `id` comes to: the command to spawn, unless no
/// configuration exists or a process already runs in its working directory.
pub open spec fn start_of(store: InstanceStoreView, procs: Seq<ProcessEntryView>, id: Seq<char>)
    -> Result<LaunchCommandView, SupervisorErrorView> {
    if !knows(store, id) {
        Err(SupervisorErrorView::NotFound { id })
    } else if running_in(procs, working_dir_of(store, id)) {
        Err(SupervisorErrorView::AlreadyRunning { name: resolved(store, id).name })
    } else {
        Ok(launch_command_of(resolved(store, id).java, working_dir_of(store, id)))
    }
}

/// Decides a start request.  On success the caller spawns the returned
/// command and reports the result of the spawn to [`register_spawn`].
pub fn start_instance(store: &InstanceStore, snapshot: &ProcessSnapshot, id: &str) -> (r: Result<
    LaunchCommand,
    SupervisorError,
>)
    ensures
        match r {
            Ok(cmd) => start_of(store@, snapshot@, id@) == Ok::<
                LaunchCommandView,
                SupervisorErrorView,
            >(cmd@),
            Err(e) => start_of(store@, snapshot@, id@) == Err::<
                LaunchCommandView,
                SupervisorErrorView,
            >(e@),
        },
{
    match get_instance_by_id(store, id) {
        Ok(config) => {
            let dir = instance_dir(store.data_dir.as_str(), config.name.as_str());
            if snapshot.is_running(dir.as_str()) {
                Err(SupervisorError::AlreadyRunning { name: config.name.clone() })
            } else {
                Ok(build_launch_command(&config.java, dir))
            }
        },
        Err(e) => Err(e),
    }
}

/// An output stream of a worker.
#[derive(Debug, Clone, Copy, PartialEq, Eq, Structural)]
pub enum OutputStream {
    Stdout,
    Stderr,
}

/// A task that runs beside a worker, detached from the caller.
#[derive(Debug, Clone, Copy, PartialEq, Eq, Structural)]
pub enum BackgroundTask {
    /// Reads the stream line by line and hands each read to [`relay_line`].
    Relay(OutputStream),
    /// Waits for the worker to exit, then calls
    /// [`Supervisor::worker_exited`] and raises what it returns.
    Reaper,
}

/// What follows a spawn: the tasks to detach, then the notification to raise.
#[derive(Debug, Clone, PartialEq, Eq)]
pub struct Started {
    pub detach: Vec<BackgroundTask>,
    pub notify: Notification,
}

/// The tasks that run beside every worker: one relay per output stream, and
/// the reaper.
pub open spec fn worker_tasks() -> Seq<BackgroundTask> {
    seq![
        BackgroundTask::Relay(OutputStream::Stdout),
        BackgroundTask::Relay(OutputStream::Stderr),
        BackgroundTask::Reaper,
    ]
}

/// Records the result of spawning the worker of `id`.  `spawned` holds the
/// worker's standard input, or the operating system's description of why the
/// spawn failed.  After a spawn the standard input is registered as the
/// command channel of `id`, in place of any earlier one, and the log of `id`
/// starts empty; the caller detaches the returned tasks, raises the
/// notification and returns without waiting for the worker.  A failed spawn
/// changes nothing and is reported as `SpawnFailed`.
pub fn register_spawn<H>(
    supervisor: &mut Supervisor<H>,
    id: &str,
    spawned: Result<Option<H>, String>,
) -> (r: Result<Started, SupervisorError>)
    requires
        old(supervisor).wf(),
    ensures
        final(supervisor).wf(),
        match spawned {
            Ok(stdin) => final(supervisor)@ == after_start(old(supervisor)@, id@, stdin) && r is Ok
                && r->Ok_0.detach@ == worker_tasks() && r->Ok_0.notify@
                == NotificationView::StateChanged,
            Err(detail) => final(supervisor)@ == old(supervisor)@ && r is Err && r->Err_0@
                == (SupervisorErrorView::SpawnFailed { detail: detail@ }),
        },
{
    match spawned {
        Ok(stdin) => {
            let notify = supervisor.worker_started(id, stdin);
            let mut detach: Vec<BackgroundTask> = Vec::new();
            detach.push(BackgroundTask::Relay(OutputStream::Stdout));
            detach.push(BackgroundTask::Relay(OutputStream::Stderr));
            detach.push(BackgroundTask::Reaper);
            assert(detach@ =~= worker_tasks());
            Ok(Started { detach, notify })
        },
        Err(detail) => Err(SupervisorError::SpawnFailed { detail }),
    }
}

// -------------------------------------------------------------------- relay

/// What reading a worker's output stream brought.
#[derive(Debug, Clone, PartialEq, Eq)]
pub enum StreamRead {
    /// A line of text, without its line ending.
    Line(String),
    /// The stream has ended.
    End,
    /// Reading or decoding failed.
    Failed,
}

/// What a relay does after a read.
#[derive(Debug, Clone, PartialEq, Eq)]
pub enum RelayStep {
    /// Publish the notification and read on.
    Publish(Notification),
    /// End the relay, silently.  The other relay and the worker go on.
    Stop,
}

/// Advances the relay of one output stream of the worker of `id`.  A line is
/// appended to the log of `id` and published; the end of the stream and a
/// failed read end this relay and change nothing.
pub fn relay_line<H>(supervisor: &mut Supervisor<H>, id: &str, read: StreamRead) -> (step:
    RelayStep)
    requires
        old(supervisor).wf(),
    ensures
        final(supervisor).wf(),
        match read {
            StreamRead::Line(line) => final(supervisor)@ == after_line(
                old(supervisor)@,
                id@,
                line@,
            ) && step is Publish && step->Publish_0@ == (NotificationView::LogLine {
                id: id@,
                line: line@,
            }),
            _ => final(supervisor)@ == old(supervisor)@ && step is Stop,
        },
{
    match read {
        StreamRead::Line(line) => RelayStep::Publish(supervisor.record_line(id, line)),
        _ => RelayStep::Stop,
    }
}

// --------------------------------------------------------------------- stop

/// The signal sent to a process.
#[derive(Debug, Clone, Copy, PartialEq, Eq, Structural)]
pub enum Signal {
    /// Asks the process to terminate.
    Terminate,
    /// Ends the process forcibly.
    Kill,
}

/// An order to send `signal` to each of `pids`, in that order, and to raise
/// `notify` afterwards.
#[derive(Debug, Clone, PartialEq, Eq)]
pub struct SignalOrder {
    pub pids: Vec<u32>,
    pub signal: Signal,
    pub notify: Notification,
}

/// The mathematical content of a [`SignalOrder`].
pub struct SignalOrderView {
    pub pids: Seq<u32>,
    pub signal: Signal,
    pub notify: NotificationView,
}

impl View for SignalOrder {
    type V = SignalOrderView;

    open spec fn view(&self) -> SignalOrderView {
        SignalOrderView { pids: self.pids@, signal: self.signal, notify: self.notify@ }
    }
}

/// The text written to a worker's standard input to make it shut down.
pub open spec fn stop_directive() -> Seq<char> {
    "stop\n"@
}

/// How a stop request is first pursued.
pub enum StopPlan<H> {
    /// A command channel was registered.  It has left the registry: write
    /// `directive` to it, flush it, and report both results to
    /// [`after_directive`].
    Graceful { channel: H, directive: String },
    /// No command channel was registered: take a fresh snapshot and go on with
    /// [`stop_by_signal`].
    Signal,
}

/// The mathematical content of a [`StopPlan`].
pub enum StopPlanView<H> {
    Graceful { channel: H, directive: Seq<char> },
    Signal,
}

impl<H> View for StopPlan<H> {
    type V = StopPlanView<H>;

    open spec fn view(&self) -> StopPlanView<H> {
        match self {
            StopPlan::Graceful { channel, directive } => StopPlanView::Graceful {
                channel: *channel,
                directive: directive@,
            },
            StopPlan::Signal => StopPlanView::Signal,
        }
    }
}

/// How a stop request for `id` is first pursued in state `s`.
pub open spec fn stop_plan_of<H>(s: SupervisorView<H>, store: InstanceStoreView, id: Seq<char>)
    -> Result<StopPlanView<H>, SupervisorErrorView> {
    if !knows(store, id) {
        Err(SupervisorErrorView::NotFound { id })
    } else if s.channels.contains_key(id) {
        Ok(StopPlanView::Graceful { channel: s.channels[id], directive: stop_directive() })
    } else {
        Ok(StopPlanView::Signal)
    }
}

/// The state after a stop request for `id` in state `s`: the command channel
/// of a known instance leaves the registry; log buffers are not touched.
pub open spec fn after_stop_request<H>(
    s: SupervisorView<H>,
    store: InstanceStoreView,
    id: Seq<char>,
) -> SupervisorView<H> {
    if knows(store, id) {
        without_channel(s, id)
    } else {
        s
    }
}

/// Begins a stop: graceful first.  Where a command channel is registered for
/// `id`, it is taken out of the registry and handed to the caller with the
/// stop directive; otherwise the caller falls back to signalling.
pub fn stop_instance<H>(supervisor: &mut Supervisor<H>, store: &InstanceStore, id: &str) -> (r:
    Result<StopPlan<H>, SupervisorError>)
    requires
        old(supervisor).wf(),
    ensures
        final(supervisor).wf(),
        final(supervisor)@ == after_stop_request(old(supervisor)@, store@, id@),
        match r {
            Ok(plan) => stop_plan_of(old(supervisor)@, store@, id@) == Ok::<
                StopPlanView<H>,
                SupervisorErrorView,
            >(plan@),
            Err(e) => stop_plan_of(old(supervisor)@, store@, id@) == Err::<
                StopPlanView<H>,
                SupervisorErrorView,
            >(e@),
        },
{
    match get_instance_by_id(store, id) {
        Ok(_) => match supervisor.take_channel(id) {
            Ok(channel) => Ok(StopPlan::Graceful { channel, directive: "stop\n".to_string() }),
            Err(_) => Ok(StopPlan::Signal),
        },
        Err(e) => Err(e),
    }
}

/// What follows the attempt to deliver the stop directive.
#[derive(Debug, Clone, PartialEq, Eq)]
pub enum AfterDirective {
    /// The directive was written and flushed.  The stop has succeeded: raise
    /// `notify` and return, without waiting for the worker to exit.
    Finished { notify: Notification },
    /// The channel failed: take a fresh snapshot and go on with
    /// [`stop_by_signal`].
    FallBack,
}

/// The mathematical content of an [`AfterDirective`].
pub enum AfterDirectiveView {
    Finished { notify: NotificationView },
    FallBack,
}

impl View for AfterDirective {
    type V = AfterDirectiveView;

    open spec fn view(&self) -> AfterDirectiveView {
        match self {
            AfterDirective::Finished { notify } => AfterDirectiveView::Finished { notify: notify@ },
            AfterDirective::FallBack => AfterDirectiveView::FallBack,
        }
    }
}

/// The rule for what follows the attempt to deliver the stop directive: the
/// stop is finished, and a state change announced, exactly when both the
/// write and the flush succeeded.
pub open spec fn directive_result(written: bool, flushed: bool) -> AfterDirectiveView {
    if written && flushed {
        AfterDirectiveView::Finished { notify: NotificationView::StateChanged }
    } else {
        AfterDirectiveView::FallBack
    }
}

/// Decides what follows the attempt to deliver the stop directive.
pub fn after_directive(written: bool, flushed: bool) -> (next: AfterDirective)
    ensures
        next@ == directive_result(written, flushed),
{
    if written && flushed {
        AfterDirective::Finished { notify: Notification::StateChanged }
    } else {
        AfterDirective::FallBack
    }
}

/// Which processes get `signal` for the instance `id`: every process that
/// runs in its working directory; `NotRunning` where there is none.
pub open spec fn signal_order_of(
    store: InstanceStoreView,
    procs: Seq<ProcessEntryView>,
    id: Seq<char>,
    signal: Signal,
) -> Result<SignalOrderView, SupervisorErrorView> {
    if !knows(store, id) {
        Err(SupervisorErrorView::NotFound { id })
    } else if !running_in(procs, working_dir_of(store, id)) {
        Err(SupervisorErrorView::NotRunning { name: resolved(store, id).name })
    } else {
        Ok(
            SignalOrderView {
                pids: pids_in(procs, working_dir_of(store, id)),
                signal,
                notify: NotificationView::StateChanged,
            },
        )
    }
}

fn order_signal(store: &InstanceStore, snapshot: &ProcessSnapshot, id: &str, signal: Signal) -> (r:
    Result<SignalOrder, SupervisorError>)
    ensures
        match r {
            Ok(order) => signal_order_of(store@, snapshot@, id@, signal) == Ok::<
                SignalOrderView,
                SupervisorErrorView,
            >(order@),
            Err(e) => signal_order_of(store@, snapshot@, id@, signal) == Err::<
                SignalOrderView,
                SupervisorErrorView,
            >(e@),
        },
{
    match get_instance_by_id(store, id) {
        Ok(config) => {
            let dir = instance_dir(store.data_dir.as_str(), config.name.as_str());
            let pids = snapshot.pids_in(dir.as_str());
            proof {
                lemma_running_iff_matching(snapshot@, dir@);
            }
            if pids.len() == 0 {
                Err(SupervisorError::NotRunning { name: config.name.clone() })
            } else {
                Ok(SignalOrder { pids, signal, notify: Notification::StateChanged })
            }
        },
        Err(e) => Err(e),
    }
}

/// The fallback of a stop: orders a termination signal, not a kill signal,
/// for every process that runs in the working directory of `id`.  Fails with
/// `NotRunning` exactly when the instance is known and no such process exists.
pub fn stop_by_signal(store: &InstanceStore, snapshot: &ProcessSnapshot, id: &str) -> (r: Result<
    SignalOrder,
    SupervisorError,
>)
    ensures
        match r {
            Ok(order) => signal_order_of(store@, snapshot@, id@, Signal::Terminate) == Ok::<
                SignalOrderView,
                SupervisorErrorView,
            >(order@),
            Err(e) => signal_order_of(store@, snapshot@, id@, Signal::Terminate) == Err::<
                SignalOrderView,
                SupervisorErrorView,
            >(e@),
        },
{
    order_signal(store, snapshot, id, Signal::Terminate)
}

// --------------------------------------------------------------------- kill

/// Kills the instance `id`: its command channel leaves the registry in every
/// case, without any attempt at graceful communication, and a kill signal is
/// ordered for every process that runs in its working directory.  Fails with
/// `NotFound` for an unknown identifier and with `NotRunning` where no process
/// matched.
pub fn kill_instance<H>(
    supervisor: &mut Supervisor<H>,
    store: &InstanceStore,
    snapshot: &ProcessSnapshot,
    id: &str,
) -> (r: Result<SignalOrder, SupervisorError>)
    requires
        old(supervisor).wf(),
    ensures
        final(supervisor).wf(),
        final(supervisor)@ == without_channel(old(supervisor)@, id@),
        match r {
            Ok(order) => signal_order_of(store@, snapshot@, id@, Signal::Kill) == Ok::<
                SignalOrderView,
                SupervisorErrorView,
            >(order@),
            Err(e) => signal_order_of(store@, snapshot@, id@, Signal::Kill) == Err::<
                SignalOrderView,
                SupervisorErrorView,
            >(e@),
        },
{
    supervisor.discard_channel(id);
    order_signal(store, snapshot, id, Signal::Kill)
}

// ---------------------------------------------------------- command channel

/// The command channel over which a text is sent to the worker of `id`.
pub open spec fn command_channel_of<H>(s: SupervisorView<H>, store: InstanceStoreView, id: Seq<char>)
    -> Result<H, SupervisorErrorView> {
    if !knows(store, id) {
        Err(SupervisorErrorView::NotFound { id })
    } else if !s.channels.contains_key(id) {
        Err(SupervisorErrorView::NotRunning { name: resolved(store, id).name })
    } else {
        Ok(s.channels[id])
    }
}

/// Finds the command channel over which to send a text to the worker of
/// `id`.  Fails with `NotRunning` where no channel is registered.  The caller
/// writes the text, flushes, and reports to [`command_sent`].
pub fn send_command<'a, H>(supervisor: &'a Supervisor<H>, store: &InstanceStore, id: &str) -> (r:
    Result<&'a H, SupervisorError>)
    requires
        supervisor.wf(),
    ensures
        match r {
            Ok(channel) => command_channel_of(supervisor@, store@, id@) == Ok::<
                H,
                SupervisorErrorView,
            >(*channel),
            Err(e) => command_channel_of(supervisor@, store@, id@) == Err::<H, SupervisorErrorView>(
                e@,
            ),
        },
{
    match get_instance_by_id(store, id) {
        Ok(config) => match supervisor.channel(id) {
            Some(channel) => Ok(channel),
            None => Err(SupervisorError::NotRunning { name: config.name.clone() }),
        },
        Err(e) => Err(e),
    }
}

/// The state after a text was sent over the channel of `id`: a channel that
/// failed is no longer usable and leaves the registry.
pub open spec fn after_send<H>(s: SupervisorView<H>, id: Seq<char>, failure: Option<Seq<char>>)
    -> SupervisorView<H> {
    match failure {
        Some(_) => without_channel(s, id),
        None => s,
    }
}

/// Records how sending over the channel of `id` went.  `failure` holds the
/// description of the write or flush that failed, if one did: the
/// registration is then dropped and the failure reported as `IoFailure`.
pub fn command_sent<H>(supervisor: &mut Supervisor<H>, id: &str, failure: Option<String>) -> (r:
    Result<(), SupervisorError>)
    requires
        old(supervisor).wf(),
    ensures
        final(supervisor).wf(),
        final(supervisor)@ == after_send(old(supervisor)@, id@, opt_text(failure)),
        match r {
            Ok(_) => failure is None,
            Err(e) => failure is Some && e@ == (SupervisorErrorView::IoFailure {
                detail: failure->0@,
            }),
        },
{
    match failure {
        Some(detail) => {
            supervisor.discard_channel(id);
            Err(SupervisorError::IoFailure { detail })
        },
        None => Ok(()),
    }
}

// ----------------------------------------------------------------- creation

/// A step of creating an instance.
#[derive(Debug, Clone, Copy, PartialEq, Eq, Structural)]
pub enum CreationStep {
    /// Create the instance directory.
    CreateDirectory,
    /// Copy the chosen icon into the directory as `server-icon.png`.
    CopyIcon,
    /// Write the instance's configuration.
    WriteProperties,
    /// Obtain the server file.
    DownloadServer,
    /// Write the licence acceptance.
    WriteEula,
}

/// The steps of creating an instance, in order.  The icon is copied only
/// where one was chosen.  After the last step the caller raises a
/// state-changed notification.
pub open spec fn creation_steps_of(has_icon: bool) -> Seq<CreationStep> {
    if has_icon {
        seq![
            CreationStep::CreateDirectory,
            CreationStep::CopyIcon,
            CreationStep::WriteProperties,
            CreationStep::DownloadServer,
            CreationStep::WriteEula,
        ]
    } else {
        seq![
            CreationStep::CreateDirectory,
            CreationStep::WriteProperties,
            CreationStep::DownloadServer,
            CreationStep::WriteEula,
        ]
    }
}

/// What creating an instance takes.
#[derive(Debug, Clone, PartialEq, Eq)]
pub struct CreationPlan {
    pub instance: Instance,
    pub steps: Vec<CreationStep>,
    /// What is raised after the last step.
    pub notify: Notification,
}

/// Plans the creation of an instance.  `directory_exists` tells whether the
/// directory of an instance of that name is already there: the creation is
/// then refused.
pub fn create_instance(
    name: String,
    software: String,
    version: String,
    loader: Option<String>,
    has_icon: bool,
    custom_jar_path: Option<String>,
    directory_exists: bool,
) -> (r: Result<CreationPlan, String>)
    ensures
        match r {
            Ok(plan) => !directory_exists && plan.steps@ == creation_steps_of(has_icon)
                && plan.notify@ == NotificationView::StateChanged && plan.instance@ == (InstanceView {
                name: name@,
                software: software@,
                version: version@,
                loader: opt_text(loader),
                custom_jar_path: opt_text(custom_jar_path),
            }),
            Err(e) => directory_exists && e@ == "Instance '"@ + name@ + "' already exists"@,
        },
{
    if directory_exists {
        return Err(concat3("Instance '", name.as_str(), "' already exists"));
    }
    let mut steps: Vec<CreationStep> = Vec::new();
    steps.push(CreationStep::CreateDirectory);
    if has_icon {
        steps.push(CreationStep::CopyIcon);
    }
    steps.push(CreationStep::WriteProperties);
    steps.push(CreationStep::DownloadServer);
    steps.push(CreationStep::WriteEula);
    assert(steps@ =~= creation_steps_of(has_icon));
    Ok(
        CreationPlan {
            instance: Instance { name, software, version, loader, custom_jar_path },
            steps,
            notify: Notification::StateChanged,
        },
    )
}

/// How the failure of a creation step is reported.
pub open spec fn creation_failure_of(step: CreationStep, detail: Seq<char>) -> Seq<char> {
    match step {
        CreationStep::CreateDirectory => "Error calling create_directory: "@ + detail,
        CreationStep::CopyIcon => "Failed to copy server icon: "@ + detail,
        CreationStep::WriteProperties => "Error calling create_nuko_manifest: "@ + detail,
        CreationStep::DownloadServer => "Error calling download_server_jar: "@ + detail,
        CreationStep::WriteEula => "Error calling create_eula_txt: "@ + detail,
    }
}

/// The message that reports the failure of a creation step.
pub fn creation_failure(step: CreationStep, detail: &str) -> (message: String)
    ensures
        message@ == creation_failure_of(step, detail@),
{
    let head = match step {
        CreationStep::CreateDirectory => "Error calling create_directory: ",
        CreationStep::CopyIcon => "Failed to copy server icon: ",
        CreationStep::WriteProperties => "Error calling create_nuko_manifest: ",
        CreationStep::DownloadServer => "Error calling download_server_jar: ",
        CreationStep::WriteEula => "Error calling create_eula_txt: ",
    };
    concat2(head, detail)
}

// --------------------------------------------------------------------- view

/// The window that shows an instance.
#[derive(Debug, Clone, PartialEq, Eq)]
pub struct InstanceWindow {
    /// The label by which the window is found again: `instance-<id>`.
    pub label: String,
    /// The page that the window shows: `/<id>`.
    pub page: String,
    /// The title of the window: `nuko | <name>`.
    pub title: String,
    /// The width of the window's content.
    pub width: u32,
    /// The height of the window's content.
    pub height: u32,
}

/// Describes the window that shows the instance `id` called `name`.  Where a
/// window of that label is open, the caller brings it to the front instead of
/// opening another.
pub fn open_instance_view(id: &str, name: &str) -> (window: InstanceWindow)
    ensures
        window.label@ == "instance-"@ + id@,
        window.page@ == "/"@ + id@,
        window.title@ == "nuko | "@ + name@,
        window.width == 1000,
        window.height == 800,
{
    InstanceWindow {
        label: concat2("instance-", id),
        page: concat2("/", id),
        title: concat2("nuko | ", name),
        width: 1000,
        height: 800,
    }
}

} // verus!
