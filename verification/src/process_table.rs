//! A point-in-time enumeration of operating-system processes.
//!
//! A worker is recognised by its working directory: a process belongs to an
//! instance exactly when its working directory equals the instance's.  A
//! snapshot is never kept current by itself; callers take a fresh one before
//! each decision.
use crate::text::{opt_text, same_text};
use vstd::prelude::*;

verus! {

/// One process of a snapshot.
///
/// `cpu_usage` is counted in hundredths of a percent of one core, `memory` in
/// bytes.  `cwd` is absent where the working directory could not be read.
#[derive(Debug, Clone, PartialEq, Eq)]
pub struct ProcessEntry {
    pub pid: u32,
    pub cwd: Option<String>,
    pub cpu_usage: u32,
    pub memory: u64,
}

/// The mathematical content of a [`ProcessEntry`].
pub struct ProcessEntryView {
    pub pid: u32,
    pub cwd: Option<Seq<char>>,
    pub cpu_usage: u32,
    pub memory: u64,
}

impl View for ProcessEntry {
    type V = ProcessEntryView;

    open spec fn view(&self) -> ProcessEntryView {
        ProcessEntryView {
            pid: self.pid,
            cwd: opt_text(self.cwd),
            cpu_usage: self.cpu_usage,
            memory: self.memory,
        }
    }
}

/// Whether the process runs in `dir`.
pub open spec fn in_directory(e: ProcessEntryView, dir: Seq<char>) -> bool {
    e.cwd == Some(dir)
}

/// The predicate "runs in `dir`".
pub open spec fn runs_in(dir: Seq<char>) -> spec_fn(ProcessEntryView) -> bool {
    |e: ProcessEntryView| in_directory(e, dir)
}

/// The processes that run in `dir`, in snapshot order.
pub open spec fn matching(procs: Seq<ProcessEntryView>, dir: Seq<char>) -> Seq<ProcessEntryView> {
    procs.filter(runs_in(dir))
}

/// Whether any process runs in `dir`.
pub open spec fn running_in(procs: Seq<ProcessEntryView>, dir: Seq<char>) -> bool {
    exists|i: int| 0 <= i < procs.len() && in_directory(#[trigger] procs[i], dir)
}

/// The identifiers of the processes that run in `dir`, in snapshot order.
pub open spec fn pids_in(procs: Seq<ProcessEntryView>, dir: Seq<char>) -> Seq<u32> {
    matching(procs, dir).map_values(|e: ProcessEntryView| e.pid)
}

/// The memory used by all the given processes together.
pub open spec fn total_memory(procs: Seq<ProcessEntryView>) -> nat
    decreases procs.len(),
{
    if procs.len() == 0 {
        0
    } else {
        total_memory(procs.drop_last()) + procs.last().memory as nat
    }
}

/// The processor share used by all the given processes together.
pub open spec fn total_cpu(procs: Seq<ProcessEntryView>) -> nat
    decreases procs.len(),
{
    if procs.len() == 0 {
        0
    } else {
        total_cpu(procs.drop_last()) + procs.last().cpu_usage as nat
    }
}

/// The memory used by the processes that run in `dir`.
pub open spec fn memory_in(procs: Seq<ProcessEntryView>, dir: Seq<char>) -> nat {
    total_memory(matching(procs, dir))
}

/// The processor share used by the processes that run in `dir`.
pub open spec fn cpu_in(procs: Seq<ProcessEntryView>, dir: Seq<char>) -> nat {
    total_cpu(matching(procs, dir))
}

/// Filtering a sequence that ends in `e`.
pub proof fn lemma_matching_push(procs: Seq<ProcessEntryView>, e: ProcessEntryView, dir: Seq<char>)
    ensures
        matching(procs.push(e), dir) == if in_directory(e, dir) {
            matching(procs, dir).push(e)
        } else {
            matching(procs, dir)
        },
{
    reveal(Seq::filter);
    assert(procs.push(e).drop_last() == procs);
}

/// A process runs in `dir` exactly when the list of those that do is not empty.
pub proof fn lemma_running_iff_matching(procs: Seq<ProcessEntryView>, dir: Seq<char>)
    ensures
        running_in(procs, dir) <==> matching(procs, dir).len() > 0,
    decreases procs.len(),
{
    reveal(Seq::filter);
    if procs.len() == 0 {
    } else {
        let rest = procs.drop_last();
        lemma_running_iff_matching(rest, dir);
        if in_directory(procs.last(), dir) {
            assert(in_directory(procs[procs.len() - 1], dir));
        } else if running_in(procs, dir) {
            let i = choose|i: int| 0 <= i < procs.len() && in_directory(#[trigger] procs[i], dir);
            assert(in_directory(rest[i], dir));
        } else if running_in(rest, dir) {
            let i = choose|i: int| 0 <= i < rest.len() && in_directory(#[trigger] rest[i], dir);
            assert(in_directory(procs[i], dir));
        }
    }
}

/// The processes of one directory use no more than all processes together.
pub proof fn lemma_usage_bounded(procs: Seq<ProcessEntryView>, dir: Seq<char>)
    ensures
        memory_in(procs, dir) <= total_memory(procs),
        cpu_in(procs, dir) <= total_cpu(procs),
    decreases procs.len(),
{
    reveal(Seq::filter);
    if procs.len() == 0 {
    } else {
        let rest = procs.drop_last();
        lemma_usage_bounded(rest, dir);
        if in_directory(procs.last(), dir) {
            assert(matching(procs, dir).drop_last() == matching(rest, dir));
        }
    }
}

/// A snapshot of the process table.
///
/// The snapshot keeps running totals of the usage figures of its entries, so
/// that the usage of any subset is known to fit the machine's integers.
pub struct ProcessSnapshot {
    entries: Vec<ProcessEntry>,
    cpu_total: u64,
    memory_total: u64,
}

impl ProcessSnapshot {
    /// The processes of the snapshot, in order.
    pub closed spec fn view(&self) -> Seq<ProcessEntryView> {
        self.entries@.map_values(|e: ProcessEntry| e@)
    }

    /// The running totals agree with the entries.
    pub closed spec fn wf(&self) -> bool {
        &&& self.cpu_total == total_cpu(self@)
        &&& self.memory_total == total_memory(self@)
    }

    /// A snapshot without processes.
    pub fn new() -> (s: Self)
        ensures
            s.wf(),
            s@ == Seq::<ProcessEntryView>::empty(),
    {
        let s = ProcessSnapshot { entries: Vec::new(), cpu_total: 0, memory_total: 0 };
        assert(s@ =~= Seq::<ProcessEntryView>::empty());
        s
    }

    /// Adds a process at the end of the snapshot.  Returns `false`, and leaves
    /// the snapshot as it was, where a usage total would leave the range of
    /// `u64`.
    pub fn record(&mut self, entry: ProcessEntry) -> (added: bool)
        requires
            old(self).wf(),
        ensures
            final(self).wf(),
            added == (total_cpu(old(self)@) + entry.cpu_usage <= u64::MAX && total_memory(
                old(self)@,
            ) + entry.memory <= u64::MAX),
            added ==> final(self)@ == old(self)@.push(entry@),
            !added ==> final(self)@ == old(self)@,
    {
        let cpu = self.cpu_total.checked_add(entry.cpu_usage as u64);
        let memory = self.memory_total.checked_add(entry.memory);
        match (cpu, memory) {
            (Some(c), Some(m)) => {
                self.entries.push(entry);
                self.cpu_total = c;
                self.memory_total = m;
                proof {
                    assert(self@ =~= old(self)@.push(entry@));
                    assert(self@.drop_last() == old(self)@);
                }
                true
            },
            _ => false,
        }
    }

    /// The number of processes.
    pub fn len(&self) -> (n: usize)
        ensures
            n == self@.len(),
    {
        self.entries.len()
    }

    /// Whether any process of the snapshot runs in `dir`.
    pub fn is_running(&self, dir: &str) -> (r: bool)
        ensures
            r == running_in(self@, dir@),
    {
        let mut i: usize = 0;
        while i < self.entries.len()
            invariant
                i <= self.entries@.len(),
                forall|j: int| 0 <= j < i ==> !in_directory(#[trigger] self@[j], dir@),
            decreases self.entries@.len() - i,
        {
            if entry_in_directory(&self.entries[i], dir) {
                assert(in_directory(self@[i as int], dir@));
                return true;
            }
            i += 1;
        }
        false
    }

    /// The identifiers of the processes that run in `dir`, in snapshot order.
    pub fn pids_in(&self, dir: &str) -> (pids: Vec<u32>)
        ensures
            pids@ == pids_in(self@, dir@),
    {
        let mut pids: Vec<u32> = Vec::new();
        let mut i: usize = 0;
        proof {
            reveal(Seq::filter);
            assert(self@.take(0) =~= Seq::<ProcessEntryView>::empty());
            assert(pids_in(self@.take(0), dir@) =~= Seq::<u32>::empty());
        }
        while i < self.entries.len()
            invariant
                i <= self.entries@.len(),
                pids@ == pids_in(self@.take(i as int), dir@),
            decreases self.entries@.len() - i,
        {
            proof {
                lemma_matching_push(self@.take(i as int), self@[i as int], dir@);
                assert(self@.take(i + 1) == self@.take(i as int).push(self@[i as int]));
            }
            if entry_in_directory(&self.entries[i], dir) {
                pids.push(self.entries[i].pid);
                assert(pids@ =~= pids_in(self@.take(i + 1), dir@));
            }
            i += 1;
        }
        assert(self@.take(self@.len() as int) == self@);
        pids
    }

    /// The processor share (first) and the memory (second) used by the
    /// processes that run in `dir`.
    pub fn usage_in(&self, dir: &str) -> (usage: (u64, u64))
        requires
            self.wf(),
        ensures
            usage.0 == cpu_in(self@, dir@),
            usage.1 == memory_in(self@, dir@),
    {
        let mut cpu: u64 = 0;
        let mut memory: u64 = 0;
        let mut i: usize = 0;
        proof {
            reveal(Seq::filter);
            assert(self@.take(0) =~= Seq::<ProcessEntryView>::empty());
        }
        while i < self.entries.len()
            invariant
                self.wf(),
                i <= self.entries@.len(),
                cpu == cpu_in(self@.take(i as int), dir@),
                memory == memory_in(self@.take(i as int), dir@),
            decreases self.entries@.len() - i,
        {
            proof {
                let next = self@.take(i + 1);
                lemma_matching_push(self@.take(i as int), self@[i as int], dir@);
                assert(next == self@.take(i as int).push(self@[i as int]));
                if in_directory(self@[i as int], dir@) {
                    assert(matching(next, dir@).drop_last() == matching(
                        self@.take(i as int),
                        dir@,
                    ));
                }
                lemma_usage_bounded(next, dir@);
                lemma_total_of_prefix(self@, i + 1);
            }
            if entry_in_directory(&self.entries[i], dir) {
                cpu = cpu + self.entries[i].cpu_usage as u64;
                memory = memory + self.entries[i].memory;
            }
            i += 1;
        }
        assert(self@.take(self@.len() as int) == self@);
        (cpu, memory)
    }
}

/// The totals of a prefix do not exceed the totals of the whole.
pub proof fn lemma_total_of_prefix(procs: Seq<ProcessEntryView>, n: int)
    requires
        0 <= n <= procs.len(),
    ensures
        total_memory(procs.take(n)) <= total_memory(procs),
        total_cpu(procs.take(n)) <= total_cpu(procs),
    decreases procs.len() - n,
{
    if n == procs.len() {
        assert(procs.take(n) == procs);
    } else {
        lemma_total_of_prefix(procs, n + 1);
        assert(procs.take(n + 1).drop_last() == procs.take(n));
    }
}

/// Whether the process runs in `dir`.
pub fn entry_in_directory(entry: &ProcessEntry, dir: &str) -> (r: bool)
    ensures
        r == in_directory(entry@, dir@),
{
    match &entry.cwd {
        Some(cwd) => same_text(cwd.as_str(), dir),
        None => false,
    }
}

} // verus!
