use vstd::prelude::*;

use crate::error::Error;
use crate::path_buffer::PathBuffer;
use crate::util::texts;

pub mod manager;

pub use manager::TaskManager;

verus! {

/// The abstract state of a task: what it runs, where its output goes, and
/// the process that currently runs it, if any.
pub struct TaskView {
    /// The binary to execute, as path bytes.
    pub program: Seq<u8>,
    /// The command-line arguments, in order.
    pub args: Seq<Seq<char>>,
    /// The file that receives the process's standard output; none discards it.
    pub log_file: Option<Seq<u8>>,
    /// The process id of the live child process.
    pub handle: Option<u32>,
}

impl TaskView {
    /// The task after a spawn attempt with the given outcome, and the result
    /// reported: a started process becomes the task's handle.
    pub open spec fn spawn_spec(self, started: Result<u32, Error>) -> (TaskView, Result<(), Error>) {
        match started {
            Ok(pid) => (TaskView { handle: Some(pid), ..self }, Ok(())),
            Err(e) => (self, Err(e)),
        }
    }

    /// The task after a kill, given the outcome of the termination request:
    /// without a live process nothing is sent and the kill succeeds; with one,
    /// a delivered request clears the handle and a failed one is reported.
    pub open spec fn kill_spec(self, delivered: Result<(), Error>) -> (TaskView, Result<(), Error>) {
        match self.handle {
            None => (self, Ok(())),
            Some(_) => match delivered {
                Ok(()) => (TaskView { handle: None, ..self }, Ok(())),
                Err(e) => (self, Err(e)),
            },
        }
    }
}

/// One supervised child process: the command that starts it and the handle
/// of the process once started.
///
/// Starting and signalling the process is done outside the library; the
/// task records the outcomes it is handed, so at most one process is ever
/// recorded and a kill without a process is a no-op.
#[derive(Debug)]
pub struct Task {
    program: PathBuffer,
    args: Vec<String>,
    log_file: Option<PathBuffer>,
    handle: Option<u32>,
}

impl View for Task {
    type V = TaskView;

    closed spec fn view(&self) -> TaskView {
        TaskView {
            program: self.program@,
            args: texts(self.args@),
            log_file: match self.log_file {
                Some(p) => Some(p@),
                None => None,
            },
            handle: self.handle,
        }
    }
}

impl Task {
    /// A task that runs `program` with `args`, its output sent to `log_file`
    /// (discarded when none); no process runs yet.
    pub fn new(program: PathBuffer, args: Vec<String>, log_file: Option<PathBuffer>) -> (r: Task)
        ensures
            r@ == (TaskView {
                program: program@,
                args: texts(args@),
                log_file: match log_file {
                    Some(p) => Some(p@),
                    None => None,
                },
                handle: None,
            }),
    {
        Task { program, args, log_file, handle: None }
    }

    /// The binary to run.
    pub fn program(&self) -> (r: &PathBuffer)
        ensures
            r@ == self@.program,
    {
        &self.program
    }

    /// The arguments passed to the binary.
    pub fn args(&self) -> (r: &Vec<String>)
        ensures
            texts(r@) == self@.args,
    {
        &self.args
    }

    /// The file that receives the process's standard output, if any.
    pub fn log_file(&self) -> (r: &Option<PathBuffer>)
        ensures
            match r {
                Some(p) => self@.log_file == Some(p@),
                None => self@.log_file is None,
            },
    {
        &self.log_file
    }

    /// The process id of the live child process, if one was started and not
    /// yet killed.
    pub fn handle(&self) -> (r: Option<u32>)
        ensures
            r == self@.handle,
    {
        self.handle
    }

    /// Whether a child process is recorded as live.
    pub fn is_running(&self) -> (r: bool)
        ensures
            r == self@.handle is Some,
    {
        self.handle.is_some()
    }

    /// Records the outcome of starting the process: the process id on
    /// success, the error otherwise, which is returned.
    pub fn spawn(&mut self, started: Result<u32, Error>) -> (r: Result<(), Error>)
        requires
            old(self)@.handle is None,
        ensures
            (final(self)@, r) == old(self)@.spawn_spec(started),
    {
        match started {
            Ok(pid) => {
                self.handle = Some(pid);
                Ok(())
            },
            Err(e) => Err(e),
        }
    }

    /// Records the outcome of a termination request sent to the process. Without a live process no request is due, and the kill is a
    /// successful no-op whatever `delivered` holds.
    pub fn kill(&mut self, delivered: Result<(), Error>) -> (r: Result<(), Error>)
        ensures
            (final(self)@, r) == old(self)@.kill_spec(delivered),
    {
        match self.handle {
            None => Ok(()),
            Some(_) => match delivered {
                Ok(()) => {
                    self.handle = None;
                    Ok(())
                },
                Err(e) => Err(e),
            },
        }
    }
}

/// A task without a live process accepts a kill as a no-op, whatever outcome
/// it is handed; and once a kill has succeeded, a second one succeeds too and
/// changes nothing.
pub proof fn lemma_kill_idempotent(t: TaskView, first: Result<(), Error>, second: Result<(), Error>)
    ensures
        t.handle is None ==> t.kill_spec(first) == (t, Ok::<(), Error>(())),
        t.kill_spec(first).1 is Ok ==> {
            let after = t.kill_spec(first).0;
            &&& after.handle is None
            &&& after.kill_spec(second) == (after, Ok::<(), Error>(()))
        },
{
}

} // verus!
