//! The supervisor of the upscaler children, as a state machine. Whoever
//! runs it hands it each command in arrival order, performs the action it
//! answers with (start a process, check on the children), and hands the
//! outcome back; the supervisor decides what is reported.
use vstd::prelude::*;

use crate::command_line::{arg_views, command_line, spawn_arguments, CliArg};
use crate::pool::{survivors, sweep_events, CheckerResult, ChildStatus, ProcessHandle, ProcessPool};

verus! {

/// Before the supervisor has handed its command channel to the front-end,
/// and after.
#[derive(Clone, Copy, Debug, PartialEq, Eq)]
pub enum CheckerStatus {
    Starting,
    Ready,
}

/// A command from the front-end. `P` is the caller's path type.
#[derive(Debug, PartialEq, Eq)]
pub enum CheckerTask<P> {
    /// Start the upscaler on one input file.
    NewChild {
        input_path: P,
        output_path: P,
        upscale_ratio: u32,
        gpu_id: String,
        model_path: String,
        model_name: String,
        tta_mode: bool,
    },
    /// Check on every child now.
    Poll,
}

/// What the supervisor asks its runner to do for a command.
#[derive(Debug, PartialEq, Eq)]
pub enum CheckerAction<P> {
    /// Start the upscaler with these arguments, its diagnostic stream
    /// captured, and report the outcome to `finish_spawn`.
    Launch(Vec<CliArg<P>>),
    /// Check each child once, without blocking, and report the statuses to
    /// `finish_poll`.
    Probe,
    /// Nothing to do.
    Idle,
}

/// The supervisor: its start-up status and the children it owns.
pub struct ChildrenStatusChecker<H> {
    status: CheckerStatus,
    children: ProcessPool<H>,
}

impl<H> ChildrenStatusChecker<H> {
    pub closed spec fn spec_ready(&self) -> bool {
        self.status == CheckerStatus::Ready
    }

    /// The children, in the order they joined.
    pub closed spec fn spec_children(&self) -> Seq<ProcessHandle<H>> {
        self.children@
    }

    /// A supervisor that has not yet announced itself, with no children.
    pub fn new() -> (checker: Self)
        ensures
            !checker.spec_ready(),
            checker.spec_children().len() == 0,
    {
        ChildrenStatusChecker { status: CheckerStatus::Starting, children: ProcessPool::new() }
    }

    pub fn status(&self) -> (s: CheckerStatus)
        ensures
            (s == CheckerStatus::Ready) == self.spec_ready(),
    {
        self.status
    }

    pub fn is_ready(&self) -> (b: bool)
        ensures
            b == self.spec_ready(),
    {
        match self.status {
            CheckerStatus::Ready => true,
            CheckerStatus::Starting => false,
        }
    }

    /// Records that the command channel has reached the front-end. Returns
    /// whether this was the move from `Starting` to `Ready`, which happens
    /// once.
    pub fn mark_ready(&mut self) -> (moved: bool)
        ensures
            moved == !old(self).spec_ready(),
            final(self).spec_ready(),
            final(self).spec_children() == old(self).spec_children(),
    {
        let moved = !self.is_ready();
        self.status = CheckerStatus::Ready;
        moved
    }

    /// Decides what a command asks for; commands are taken once the
    /// supervisor is ready. A new child becomes the command line to start it
    /// with; a poll asks for a check of the children, or for nothing when
    /// there are none.
    pub fn accept<P>(&self, task: CheckerTask<P>) -> (action: CheckerAction<P>)
        requires
            self.spec_ready(),
        ensures
            match task {
                CheckerTask::NewChild {
                    input_path,
                    output_path,
                    upscale_ratio,
                    gpu_id,
                    model_path,
                    model_name,
                    tta_mode,
                } => action matches CheckerAction::Launch(args) && arg_views(args@)
                    == command_line(
                    input_path,
                    output_path,
                    upscale_ratio,
                    gpu_id@,
                    model_path@,
                    model_name@,
                    tta_mode,
                ),
                CheckerTask::Poll => if self.spec_children().len() == 0 {
                    action is Idle
                } else {
                    action is Probe
                },
            },
    {
        match task {
            CheckerTask::NewChild {
                input_path,
                output_path,
                upscale_ratio,
                gpu_id,
                model_path,
                model_name,
                tta_mode,
            } => CheckerAction::Launch(
                spawn_arguments(
                    input_path,
                    output_path,
                    upscale_ratio,
                    gpu_id,
                    model_path,
                    model_name,
                    tta_mode,
                ),
            ),
            CheckerTask::Poll => {
                if self.children.is_empty() {
                    CheckerAction::Idle
                } else {
                    CheckerAction::Probe
                }
            },
        }
    }

    /// Takes the outcome of a launch. A started child joins the pool without
    /// a report; a failed start is reported once and leaves the pool as it
    /// was.
    pub fn finish_spawn(&mut self, outcome: Result<ProcessHandle<H>, String>) -> (report: Option<
        CheckerResult,
    >)
        ensures
            final(self).spec_ready() == old(self).spec_ready(),
            match outcome {
                Ok(handle) => {
                    &&& final(self).spec_children() == old(self).spec_children().push(handle)
                    &&& report is None
                },
                Err(message) => {
                    &&& final(self).spec_children() == old(self).spec_children()
                    &&& report == Some(CheckerResult::SpawnError(message))
                },
            },
    {
        match outcome {
            Ok(handle) => {
                self.children.add_child(handle);
                None
            },
            Err(message) => Some(CheckerResult::SpawnError(message)),
        }
    }

    /// How many children are running.
    pub fn child_count(&self) -> (n: usize)
        ensures
            n == self.spec_children().len(),
    {
        self.children.len()
    }

    /// The identifier of the `i`-th child.
    pub fn child_pid(&self, i: usize) -> (pid: u32)
        requires
            i < self.spec_children().len(),
        ensures
            pid == self.spec_children()[i as int].pid,
    {
        self.children.pid(i)
    }

    /// Lends the runner the `i`-th child's process, to check on it.
    pub fn child_process_mut(&mut self, i: usize) -> (process: &mut H)
        requires
            i < old(self).spec_children().len(),
        ensures
            *process == old(self).spec_children()[i as int].process,
            final(self).spec_ready() == old(self).spec_ready(),
            final(self).spec_children() == old(self).spec_children().update(
                i as int,
                ProcessHandle {
                    pid: old(self).spec_children()[i as int].pid,
                    process: *final(process),
                },
            ),
    {
        self.children.process_mut(i)
    }

    /// Takes the statuses found by a check of every child, in pool order, and
    /// returns the reports of that sweep.
    pub fn finish_poll(&mut self, statuses: Vec<ChildStatus>) -> (events: Vec<CheckerResult>)
        requires
            statuses@.len() == old(self).spec_children().len(),
        ensures
            final(self).spec_ready() == old(self).spec_ready(),
            final(self).spec_children() == survivors(old(self).spec_children(), statuses@),
            events@ == sweep_events(old(self).spec_children(), statuses@),
    {
        self.children.sweep(statuses)
    }
}

} // verus!
