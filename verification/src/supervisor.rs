//! The runtime state that the supervisor keeps per instance: the registry of
//! command channels and the registry of log buffers.
//!
//! The state is an ordinary value.  Whoever shares it between threads guards
//! it with a lock and keeps each critical section to one call.
use crate::error::{SupervisorError, SupervisorErrorView};
use crate::registry::Registry;
use crate::text::{concat2, copy_texts, texts};
use vstd::prelude::*;

verus! {

/// What subscribers are told.
#[derive(Debug, Clone, PartialEq, Eq)]
pub enum Notification {
    /// The set of running instances may have changed.  It carries no payload.
    StateChanged,
    /// The worker of instance `id` printed `line`.
    LogLine { id: String, line: String },
}

/// The mathematical content of a [`Notification`].
pub enum NotificationView {
    StateChanged,
    LogLine { id: Seq<char>, line: Seq<char> },
}

impl View for Notification {
    type V = NotificationView;

    open spec fn view(&self) -> NotificationView {
        match self {
            Notification::StateChanged => NotificationView::StateChanged,
            Notification::LogLine { id, line } => NotificationView::LogLine { id: id@, line: line@ },
        }
    }
}

/// The name of the event under which a notification is published.
pub open spec fn event_name_of(n: NotificationView) -> Seq<char> {
    match n {
        NotificationView::StateChanged => "instances-updated"@,
        NotificationView::LogLine { id, line } => "instance-log-"@ + id,
    }
}

impl Notification {
    /// The name of the event under which the notification is published.
    pub fn event_name(&self) -> (name: String)
        ensures
            name@ == event_name_of(self@),
    {
        match self {
            Notification::StateChanged => "instances-updated".to_string(),
            Notification::LogLine { id, line } => concat2("instance-log-", id.as_str()),
        }
    }
}

/// The mathematical content of a [`Supervisor`]: which identifier has which
/// command channel, and which lines each log buffer holds.
pub struct SupervisorView<H> {
    pub channels: Map<Seq<char>, H>,
    pub logs: Map<Seq<char>, Seq<Seq<char>>>,
}

/// The state after a worker of `id` was spawned with standard input `stdin`:
/// the channel, if there is one, replaces any earlier registration, and the
/// log buffer of `id` starts empty.
pub open spec fn after_start<H>(s: SupervisorView<H>, id: Seq<char>, stdin: Option<H>)
    -> SupervisorView<H> {
    SupervisorView {
        channels: match stdin {
            Some(h) => s.channels.insert(id, h),
            None => s.channels,
        },
        logs: s.logs.insert(id, Seq::<Seq<char>>::empty()),
    }
}

/// The state after the command channel of `id` left the registry.
pub open spec fn without_channel<H>(s: SupervisorView<H>, id: Seq<char>) -> SupervisorView<H> {
    SupervisorView { channels: s.channels.remove(id), logs: s.logs }
}

/// The state after the worker of `id` printed `line`: the line is appended to
/// the log buffer of `id` if there is one.
pub open spec fn after_line<H>(s: SupervisorView<H>, id: Seq<char>, line: Seq<char>)
    -> SupervisorView<H> {
    SupervisorView {
        channels: s.channels,
        logs: if s.logs.contains_key(id) {
            s.logs.insert(id, s.logs[id].push(line))
        } else {
            s.logs
        },
    }
}

/// The state after the worker of `id` printed `lines`, one after the other.
pub open spec fn after_lines<H>(s: SupervisorView<H>, id: Seq<char>, lines: Seq<Seq<char>>)
    -> SupervisorView<H>
    decreases lines.len(),
{
    if lines.len() == 0 {
        s
    } else {
        after_line(after_lines(s, id, lines.drop_last()), id, lines.last())
    }
}

/// The lines logged for `id`; none where no buffer exists.
pub open spec fn logged<H>(s: SupervisorView<H>, id: Seq<char>) -> Seq<Seq<char>> {
    if s.logs.contains_key(id) {
        s.logs[id]
    } else {
        Seq::<Seq<char>>::empty()
    }
}

/// The runtime registries of the supervisor.  `H` is the type of a command
/// channel: an exclusive write handle to a worker's standard input.
pub struct Supervisor<H> {
    channels: Registry<H>,
    logs: Registry<Vec<String>>,
}

impl<H> Supervisor<H> {
    /// Both registries are valid.
    pub closed spec fn wf(&self) -> bool {
        self.channels.wf() && self.logs.wf()
    }

    /// What the supervisor holds.
    pub closed spec fn view(&self) -> SupervisorView<H> {
        SupervisorView {
            channels: self.channels@,
            logs: self.logs@.map_values(|v: Vec<String>| texts(v@)),
        }
    }

    /// A supervisor that has started nothing yet.
    pub fn new() -> (s: Self)
        ensures
            s.wf(),
            s@.channels == Map::<Seq<char>, H>::empty(),
            s@.logs == Map::<Seq<char>, Seq<Seq<char>>>::empty(),
    {
        let s = Supervisor { channels: Registry::new(), logs: Registry::new() };
        assert(s@.logs =~= Map::<Seq<char>, Seq<Seq<char>>>::empty());
        s
    }

    /// Records that a worker of `id` was spawned with standard input `stdin`.
    /// The caller then detaches the two output relays and the reaper, and
    /// raises the returned notification.
    pub fn worker_started(&mut self, id: &str, stdin: Option<H>) -> (n: Notification)
        requires
            old(self).wf(),
        ensures
            final(self).wf(),
            final(self)@ == after_start(old(self)@, id@, stdin),
            n@ == NotificationView::StateChanged,
    {
        match stdin {
            Some(h) => {
                let _ = self.channels.insert(id.to_owned(), h);
            },
            None => {},
        }
        let _ = self.logs.insert(id.to_owned(), Vec::new());
        proof {
            assert(texts(Seq::<String>::empty()) =~= Seq::<Seq<char>>::empty());
            assert(self@.logs =~= old(self)@.logs.insert(id@, Seq::<Seq<char>>::empty()));
        }
        Notification::StateChanged
    }

    /// Drops the command channel of `id`, if one is registered.
    pub fn discard_channel(&mut self, id: &str)
        requires
            old(self).wf(),
        ensures
            final(self).wf(),
            final(self)@ == without_channel(old(self)@, id@),
    {
        let _ = self.channels.remove(id);
    }

    /// Records that the worker of `id` has exited: its command channel leaves
    /// the registry.  The log buffer stays.  The caller raises the returned
    /// notification.
    pub fn worker_exited(&mut self, id: &str) -> (n: Notification)
        requires
            old(self).wf(),
        ensures
            final(self).wf(),
            final(self)@ == without_channel(old(self)@, id@),
            n@ == NotificationView::StateChanged,
    {
        self.discard_channel(id);
        Notification::StateChanged
    }

    /// Records a line that the worker of `id` printed on either output stream,
    /// and returns the notification that publishes it.
    pub fn record_line(&mut self, id: &str, line: String) -> (n: Notification)
        requires
            old(self).wf(),
        ensures
            final(self).wf(),
            final(self)@ == after_line(old(self)@, id@, line@),
            n@ == (NotificationView::LogLine { id: id@, line: line@ }),
    {
        let copy = line.clone();
        let appended = self.logs.append(id, line);
        proof {
            if appended {
                assert(texts(self.logs@[id@]@) =~= texts(old(self).logs@[id@]@).push(line@));
                assert(self@.logs =~= old(self)@.logs.insert(
                    id@,
                    old(self)@.logs[id@].push(line@),
                ));
            }
        }
        Notification::LogLine { id: id.to_owned(), line: copy }
    }

    /// Takes the command channel of `id` out of the registry.
    pub fn take_channel(&mut self, id: &str) -> (r: Result<H, SupervisorError>)
        requires
            old(self).wf(),
        ensures
            final(self).wf(),
            final(self)@ == without_channel(old(self)@, id@),
            match r {
                Ok(h) => old(self)@.channels.contains_key(id@) && h == old(self)@.channels[id@],
                Err(e) => !old(self)@.channels.contains_key(id@) && e@
                    == (SupervisorErrorView::ChannelUnavailable { id: id@ }),
            },
    {
        match self.channels.remove(id) {
            Some(h) => Ok(h),
            None => Err(SupervisorError::ChannelUnavailable { id: id.to_owned() }),
        }
    }

    /// The command channel registered for `id`, if any.
    pub fn channel(&self, id: &str) -> (r: Option<&H>)
        requires
            self.wf(),
        ensures
            match r {
                Some(h) => self@.channels.contains_key(id@) && *h == self@.channels[id@],
                None => !self@.channels.contains_key(id@),
            },
    {
        self.channels.get(id)
    }

    /// Whether a command channel is registered for `id`.
    pub fn has_channel(&self, id: &str) -> (r: bool)
        requires
            self.wf(),
        ensures
            r == self@.channels.contains_key(id@),
    {
        self.channels.contains_key(id)
    }

    /// The registry of log buffers.
    pub fn log_registry(&self) -> (logs: &Registry<Vec<String>>)
        requires
            self.wf(),
        ensures
            logs.wf(),
            logs@.map_values(|v: Vec<String>| texts(v@)) == self@.logs,
    {
        &self.logs
    }

    /// The registry of command channels.
    pub fn channel_registry(&self) -> (channels: &Registry<H>)
        requires
            self.wf(),
        ensures
            channels.wf(),
            channels@ == self@.channels,
    {
        &self.channels
    }

    /// A copy of the lines logged for `id`, in the order in which they were
    /// recorded; empty where no buffer exists.
    pub fn logs_of(&self, id: &str) -> (lines: Vec<String>)
        requires
            self.wf(),
        ensures
            texts(lines@) == logged(self@, id@),
    {
        match self.logs.get(id) {
            Some(lines) => copy_texts(lines),
            None => {
                let lines: Vec<String> = Vec::new();
                assert(texts(lines@) =~= Seq::<Seq<char>>::empty());
                lines
            },
        }
    }
}

} // verus!
