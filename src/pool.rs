//! The pool of running upscaler children and the sweep that checks on them.
use vstd::prelude::*;

verus! {

/// How a child ended: whether it reported success, and its exit code where
/// the platform gives one.
#[derive(Clone, Copy, Debug, PartialEq, Eq)]
pub struct ExitReport {
    pub success: bool,
    pub code: Option<i32>,
}

/// What one non-blocking check of a child found.
#[derive(Debug, PartialEq, Eq)]
pub enum ChildStatus {
    /// Still running; carries the line read from its diagnostic stream, if
    /// one could be read without waiting.
    Running(Option<String>),
    /// The child has ended.
    Exited(ExitReport),
    /// The status query itself failed, with the platform's message.
    WaitFailed(String),
}

/// An event reported to the front-end.
#[derive(Clone, Debug, PartialEq, Eq)]
pub enum CheckerResult {
    /// The pool became empty in the sweep that reports this.
    Ended,
    /// A line of a child's diagnostic output: (pid, line).
    ChildLog(u32, String),
    /// A child ended: (pid, how it ended).
    ChildExited(u32, ExitReport),
    /// Checking a child failed; it is dropped: (pid, message).
    ChildErrored(u32, String),
    /// A child could not be started, with the platform's message.
    SpawnError(String),
}

/// One running child: its process identifier and the caller's handle on it.
pub struct ProcessHandle<H> {
    pub pid: u32,
    pub process: H,
}

/// The children being supervised, in the order they joined.
pub struct ProcessPool<H> {
    children: Vec<ProcessHandle<H>>,
}

pub open spec fn is_terminal(status: ChildStatus) -> bool {
    !(status is Running)
}

/// The event that a status reports for the child `pid`, if any.
pub open spec fn status_event(pid: u32, status: ChildStatus) -> Seq<CheckerResult> {
    match status {
        ChildStatus::Running(Some(line)) => seq![CheckerResult::ChildLog(pid, line)],
        ChildStatus::Running(None) => Seq::empty(),
        ChildStatus::Exited(report) => seq![CheckerResult::ChildExited(pid, report)],
        ChildStatus::WaitFailed(message) => seq![CheckerResult::ChildErrored(pid, message)],
    }
}

/// The children that a sweep keeps: those still running, in order.
pub open spec fn survivors<H>(
    handles: Seq<ProcessHandle<H>>,
    statuses: Seq<ChildStatus>,
) -> Seq<ProcessHandle<H>>
    decreases handles.len(),
{
    if handles.len() == 0 {
        Seq::empty()
    } else {
        let kept = survivors(handles.drop_last(), statuses.drop_last());
        if is_terminal(statuses.last()) {
            kept
        } else {
            kept.push(handles.last())
        }
    }
}

/// The per-child events of a sweep, in pool order.
pub open spec fn child_events<H>(
    handles: Seq<ProcessHandle<H>>,
    statuses: Seq<ChildStatus>,
) -> Seq<CheckerResult>
    decreases handles.len(),
{
    if handles.len() == 0 {
        Seq::empty()
    } else {
        child_events(handles.drop_last(), statuses.drop_last()) + status_event(
            handles.last().pid,
            statuses.last(),
        )
    }
}

/// All events of a sweep: the per-child events, then `Ended` when the sweep
/// emptied a pool that had children.
pub open spec fn sweep_events<H>(
    handles: Seq<ProcessHandle<H>>,
    statuses: Seq<ChildStatus>,
) -> Seq<CheckerResult> {
    child_events(handles, statuses) + if handles.len() > 0 && survivors(handles, statuses).len()
        == 0 {
        seq![CheckerResult::Ended]
    } else {
        Seq::empty()
    }
}

impl<H> View for ProcessPool<H> {
    type V = Seq<ProcessHandle<H>>;

    closed spec fn view(&self) -> Seq<ProcessHandle<H>> {
        self.children@
    }
}

impl<H> ProcessPool<H> {
    pub fn new() -> (pool: Self)
        ensures
            pool@ == Seq::<ProcessHandle<H>>::empty(),
    {
        ProcessPool { children: Vec::new() }
    }

    pub fn len(&self) -> (n: usize)
        ensures
            n == self@.len(),
    {
        self.children.len()
    }

    pub fn is_empty(&self) -> (b: bool)
        ensures
            b == (self@.len() == 0),
    {
        self.children.is_empty()
    }

    /// The identifier of the `i`-th child.
    pub fn pid(&self, i: usize) -> (pid: u32)
        requires
            i < self@.len(),
        ensures
            pid == self@[i as int].pid,
    {
        self.children[i].pid
    }

    /// Adds a child at the end of the pool.
    pub fn add_child(&mut self, handle: ProcessHandle<H>)
        ensures
            final(self)@ == old(self)@.push(handle),
    {
        self.children.push(handle);
    }

    /// Lends the caller the `i`-th child's process, to check on it; the pool
    /// keeps its order and identifiers.
    pub fn process_mut(&mut self, i: usize) -> (process: &mut H)
        requires
            i < old(self)@.len(),
        ensures
            *process == old(self)@[i as int].process,
            final(self)@ == old(self)@.update(
                i as int,
                ProcessHandle { pid: old(self)@[i as int].pid, process: *final(process) },
            ),
    {
        &mut self.children[i].process
    }

    /// One sweep: `statuses[i]` is what checking the `i`-th child found.
    /// Each child still running stays, reporting the line it wrote if any;
    /// each ended or failed child reports once and leaves the pool. When
    /// the sweep empties a pool that had children, `Ended` comes last. On
    /// an empty pool the sweep reports nothing.
    pub fn sweep(&mut self, statuses: Vec<ChildStatus>) -> (events: Vec<CheckerResult>)
        requires
            statuses@.len() == old(self)@.len(),
        ensures
            final(self)@ == survivors(old(self)@, statuses@),
            events@ == sweep_events(old(self)@, statuses@),
            old(self)@.len() == 0 ==> events@.len() == 0 && final(self)@.len() == 0,
    {
        let ghost hs = self.children@;
        let ghost ss = statuses@;
        let n = self.children.len();
        let mut pending: Vec<ProcessHandle<H>> = Vec::new();
        std::mem::swap(&mut pending, &mut self.children);
        let mut statuses = statuses;
        let mut kept: Vec<ProcessHandle<H>> = Vec::new();
        let mut events: Vec<CheckerResult> = Vec::new();
        let mut k: usize = 0;
        while k < n
            invariant
                n == hs.len(),
                ss.len() == n,
                k <= n,
                pending@ == hs.subrange(k as int, n as int),
                statuses@ == ss.subrange(k as int, n as int),
                kept@ == survivors(hs.subrange(0, k as int), ss.subrange(0, k as int)),
                events@ == child_events(hs.subrange(0, k as int), ss.subrange(0, k as int)),
            decreases n - k,
        {
            let handle = pending.remove(0);
            let status = statuses.remove(0);
            proof {
                let hp = hs.subrange(0, k as int + 1);
                let sp = ss.subrange(0, k as int + 1);
                assert(hp.drop_last() =~= hs.subrange(0, k as int));
                assert(sp.drop_last() =~= ss.subrange(0, k as int));
                assert(hp.last() == handle);
                assert(sp.last() == status);
                assert(pending@ =~= hs.subrange(k as int + 1, n as int));
                assert(statuses@ =~= ss.subrange(k as int + 1, n as int));
            }
            let pid = handle.pid;
            let ghost before = events@;
            match status {
                ChildStatus::Running(line) => {
                    match line {
                        Some(text) => {
                            events.push(CheckerResult::ChildLog(pid, text));
                        },
                        None => {},
                    }
                    kept.push(handle);
                },
                ChildStatus::Exited(report) => {
                    events.push(CheckerResult::ChildExited(pid, report));
                },
                ChildStatus::WaitFailed(message) => {
                    events.push(CheckerResult::ChildErrored(pid, message));
                },
            }
            proof {
                assert(events@ =~= before + status_event(pid, ss[k as int]));
            }
            k = k + 1;
        }
        proof {
            assert(hs.subrange(0, n as int) =~= hs);
            assert(ss.subrange(0, n as int) =~= ss);
        }
        if n > 0 && kept.len() == 0 {
            events.push(CheckerResult::Ended);
        }
        self.children = kept;
        proof {
            assert(events@ =~= sweep_events(hs, ss));
        }
        events
    }
}

} // verus!
