//! The protocol of one sandboxed run of a tool.
//!
//! A run draws a permit from the pool of open files, then one from the pool
//! of processes, starts the child, writes the input to it, closes its input
//! stream so that it sees the end, waits for it, and returns the permits in
//! reverse order. Whatever fails on the way, the child does not outlive the
//! run and both permits go back.
//!
//! The runner decides; its caller acts. The caller asks for the next action,
//! performs it, and reports how it ended.

use crate::exec::exec;
use crate::exec::failure_of;
use crate::exec::ChildOutput;
use crate::exec::ExecError;
use crate::exec::CommandLine;
use crate::exec::Invocation;
use crate::exec::WORKING_DIR;
use crate::text::clone_texts;
use vstd::prelude::*;
use vstd::string::StringExecFns;

verus! {

/// What the caller does next.
#[derive(Clone, Copy, PartialEq, Eq, Structural, Debug)]
pub enum Action {
    /// Draw a permit from the pool of open files.
    AcquireFile,
    /// Draw a permit from the pool of processes.
    AcquireProcess,
    /// Start the child: the runner's command line, an empty environment, the
    /// working directory of tools, and all three streams piped.
    Spawn,
    /// Write the runner's input to the child's input stream.
    WriteInput,
    /// Flush and close the child's input stream.
    CloseInput,
    /// Wait for the child and collect what it wrote.
    Wait,
    /// End the child by force.
    Kill,
    /// Return the permit of the pool of processes.
    ReleaseProcess,
    /// Return the permit of the pool of open files.
    ReleaseFile,
    /// Nothing more: take the outcome.
    Finish,
}

/// How an action ended.
pub enum Event {
    /// It was done.
    Done,
    /// The child ended, and left this behind. Answers `Wait`.
    Exited(ChildOutput),
    /// It could not be done.
    Failed,
}

/// Why a run gives no output.
pub enum RunError {
    /// An action could not be done; this is the action.
    Io(Action),
    /// The child ran and failed.
    Child(ExecError),
}

/// The state of a run.
pub struct RunView {
    pub next: Action,
    pub holds_file: bool,
    pub holds_process: bool,
    pub child_running: bool,
    pub outcome: Option<Result<Vec<u8>, RunError>>,
}

impl RunView {
    /// The state in which a run starts.
    pub open spec fn start() -> RunView {
        RunView {
            next: Action::AcquireFile,
            holds_file: false,
            holds_process: false,
            child_running: false,
            outcome: None,
        }
    }

    /// What a run may be in: the permit of processes is held only with that
    /// of files, a child runs only under both, the actions fit what is
    /// held, and a run that has finished holds nothing and has an outcome.
    pub open spec fn wf(self) -> bool {
        &&& self.holds_process ==> self.holds_file
        &&& self.child_running ==> self.holds_process
        &&& match self.next {
            Action::AcquireFile => !self.holds_file && self.outcome is None,
            Action::AcquireProcess => self.holds_file && !self.holds_process && self.outcome
                is None,
            Action::Spawn => self.holds_process && !self.child_running && self.outcome is None,
            Action::WriteInput | Action::CloseInput | Action::Wait => self.child_running
                && self.outcome is None,
            Action::Kill => self.child_running && self.outcome is Some,
            Action::ReleaseProcess => self.holds_process && !self.child_running && self.outcome
                is Some,
            Action::ReleaseFile => self.holds_file && !self.holds_process && self.outcome
                is Some,
            Action::Finish => !self.holds_file && self.outcome is Some,
        }
    }

    /// The first thing to undo: the child, then the permit of processes,
    /// then that of files.
    pub open spec fn unwind(self) -> Action {
        if self.child_running {
            Action::Kill
        } else if self.holds_process {
            Action::ReleaseProcess
        } else if self.holds_file {
            Action::ReleaseFile
        } else {
            Action::Finish
        }
    }

    /// The state after the next action failed: the failure is the outcome,
    /// and what is held is undone.
    pub open spec fn failed(self) -> RunView {
        let outcome = match self.outcome {
            Some(_) => self.outcome,
            None => Some(Err(RunError::Io(self.next))),
        };
        RunView { outcome, next: self.unwind(), ..self }
    }

    /// The state after the next action was done.
    pub open spec fn done(self) -> RunView {
        match self.next {
            Action::AcquireFile => RunView {
                holds_file: true,
                next: Action::AcquireProcess,
                ..self
            },
            Action::AcquireProcess => RunView {
                holds_process: true,
                next: Action::Spawn,
                ..self
            },
            Action::Spawn => RunView { child_running: true, next: Action::WriteInput, ..self },
            Action::WriteInput => RunView { next: Action::CloseInput, ..self },
            Action::CloseInput => RunView { next: Action::Wait, ..self },
            Action::Wait => self.failed(),
            Action::Kill => {
                let killed = RunView { child_running: false, ..self };
                RunView { next: killed.unwind(), ..killed }
            },
            Action::ReleaseProcess => RunView {
                holds_process: false,
                next: Action::ReleaseFile,
                ..self
            },
            Action::ReleaseFile => RunView { holds_file: false, next: Action::Finish, ..self },
            Action::Finish => self,
        }
    }

    /// Whether `after` is the state once the child has ended and left
    /// `output`: its output or its failure is the outcome, and the permits
    /// are returned next.
    pub open spec fn exited(self, output: ChildOutput, after: RunView) -> bool {
        &&& after.next == Action::ReleaseProcess
        &&& after.holds_file == self.holds_file
        &&& after.holds_process == self.holds_process
        &&& !after.child_running
        &&& match after.outcome {
            Some(Ok(stdout)) => output.status.success() && stdout == output.stdout,
            Some(Err(RunError::Child(err))) => !output.status.success() && failure_of(
                output.status,
                output.stderr@,
                err,
            ),
            _ => false,
        }
    }

    /// Whether `after` is the state once the next action ended with `event`.
    /// An action that returns something cannot fail; an event that does not
    /// answer the action counts as the action done.
    pub open spec fn stepped(self, event: Event, after: RunView) -> bool {
        match (self.next, event) {
            (Action::Wait, Event::Exited(output)) => self.exited(output, after),
            (
                Action::Kill | Action::ReleaseProcess | Action::ReleaseFile | Action::Finish,
                _,
            ) => after == self.done(),
            (_, Event::Failed) => after == self.failed(),
            _ => after == self.done(),
        }
    }

    /// How many actions a run has before it at most.
    pub open spec fn rank(self) -> nat {
        match self.next {
            Action::AcquireFile => 9,
            Action::AcquireProcess => 8,
            Action::Spawn => 7,
            Action::WriteInput => 6,
            Action::CloseInput => 5,
            Action::Wait => 4,
            Action::Kill => 3,
            Action::ReleaseProcess => 2,
            Action::ReleaseFile => 1,
            Action::Finish => 0,
        }
    }
}

/// Every step keeps a run in the states it may be in.
pub proof fn lemma_step_keeps_wf(before: RunView, event: Event, after: RunView)
    requires
        before.wf(),
        before.stepped(event, after),
    ensures
        after.wf(),
{
}

/// Every step brings a run nearer to its end: no run goes on for ever,
/// whatever happens to it.
pub proof fn lemma_step_decreases(before: RunView, event: Event, after: RunView)
    requires
        before.wf(),
        before.next != Action::Finish,
        before.stepped(event, after),
    ensures
        after.rank() < before.rank(),
{
}

/// A run that has finished holds no permit and has no child.
pub proof fn lemma_finished_holds_nothing(run: RunView)
    requires
        run.wf(),
        run.next == Action::Finish,
    ensures
        !run.holds_file,
        !run.holds_process,
        !run.child_running,
        run.outcome is Some,
{
}

/// The permits go back in reverse order: while the permit of processes is
/// held, that of files is not returned.
pub proof fn lemma_release_order(before: RunView, event: Event, after: RunView)
    requires
        before.wf(),
        before.stepped(event, after),
        before.holds_process,
        before.holds_file,
    ensures
        after.holds_file,
{
}

/// How the child of a run is started.
pub struct SpawnPlan {
    pub program: String,
    pub args: Vec<String>,
    /// The child gets no variable of this process's environment, so that it
    /// picks up no configuration from it.
    pub clear_env: bool,
    /// The directory the child runs in.
    pub working_dir: &'static str,
    /// The child is ended when the run is given up.
    pub kill_on_drop: bool,
    /// The child's input, output and error streams are pipes to this
    /// process.
    pub piped: bool,
}

/// One run of a tool.
pub struct Runner {
    invocation: Invocation,
    input: Vec<u8>,
    next: Action,
    holds_file: bool,
    holds_process: bool,
    child_running: bool,
    outcome: Option<Result<Vec<u8>, RunError>>,
}

impl View for Runner {
    type V = RunView;

    closed spec fn view(&self) -> RunView {
        RunView {
            next: self.next,
            holds_file: self.holds_file,
            holds_process: self.holds_process,
            child_running: self.child_running,
            outcome: self.outcome,
        }
    }
}

impl Runner {
    #[verifier::type_invariant]
    spec fn inv(&self) -> bool {
        self@.wf()
    }

    /// The command line of the run.
    pub closed spec fn spec_invocation(&self) -> Invocation {
        self.invocation
    }

    /// The input of the run.
    pub closed spec fn spec_input(&self) -> Seq<u8> {
        self.input@
    }

    /// A run of `invocation` over `input`, before its first action.
    pub fn new(invocation: Invocation, input: Vec<u8>) -> (runner: Self)
        ensures
            runner@ == RunView::start(),
            runner.spec_invocation() == invocation,
            runner.spec_input() == input@,
    {
        Runner {
            invocation,
            input,
            next: Action::AcquireFile,
            holds_file: false,
            holds_process: false,
            child_running: false,
            outcome: None,
        }
    }

    /// The command line to start the child with.
    pub fn invocation(&self) -> (invocation: &Invocation)
        ensures
            *invocation == self.spec_invocation(),
    {
        &self.invocation
    }

    /// How the child is started: with the command line of the run, without
    /// environment, in the working directory of tools, with piped streams,
    /// and not to outlive the run.
    pub fn spawn_plan(&self) -> (plan: SpawnPlan)
        ensures
            (CommandLine { program: plan.program@, args: plan.args.deep_view() })
                == self.spec_invocation()@,
            plan.clear_env,
            plan.working_dir@ == WORKING_DIR@,
            plan.kill_on_drop,
            plan.piped,
    {
        SpawnPlan {
            program: String::from_str(self.invocation.program.as_str()),
            args: clone_texts(&self.invocation.args),
            clear_env: true,
            working_dir: WORKING_DIR,
            kill_on_drop: true,
            piped: true,
        }
    }

    /// The bytes to write to the child.
    pub fn input(&self) -> (input: &Vec<u8>)
        ensures
            input@ == self.spec_input(),
    {
        &self.input
    }

    /// What the caller does next.
    pub fn next(&self) -> (action: Action)
        ensures
            action == self@.next,
            self@.wf(),
    {
        proof {
            use_type_invariant(self);
        }
        self.next
    }

    fn unwind(&self) -> (action: Action)
        ensures
            action == self@.unwind(),
    {
        if self.child_running {
            Action::Kill
        } else if self.holds_process {
            Action::ReleaseProcess
        } else if self.holds_file {
            Action::ReleaseFile
        } else {
            Action::Finish
        }
    }

    fn fail(self) -> (after: Self)
        requires
            self@.wf(),
            self@.next != Action::Finish,
        ensures
            after@ == self@.failed(),
            after.spec_invocation() == self.spec_invocation(),
            after.spec_input() == self.spec_input(),
    {
        let next = self.unwind();
        let Runner { invocation, input, next: failed, holds_file, holds_process, child_running, outcome } =
            self;
        let outcome = match outcome {
            Some(outcome) => Some(outcome),
            None => Some(Err(RunError::Io(failed))),
        };
        Runner { invocation, input, next, holds_file, holds_process, child_running, outcome }
    }

    /// Takes how the next action ended, and moves on.
    pub fn advance(self, event: Event) -> (after: Self)
        ensures
            self@.stepped(event, after@),
            self@.wf(),
            after@.wf(),
            after.spec_invocation() == self.spec_invocation(),
            after.spec_input() == self.spec_input(),
    {
        proof {
            use_type_invariant(&self);
        }
        let settled = match self.next {
            Action::Kill | Action::ReleaseProcess | Action::ReleaseFile | Action::Finish => true,
            _ => false,
        };
        match event {
            Event::Exited(output) => {
                if let Action::Wait = self.next {
                    let Runner {
                        invocation,
                        input,
                        next: _,
                        holds_file,
                        holds_process,
                        child_running: _,
                        outcome: _,
                    } = self;
                    let outcome = match exec(output) {
                        Ok(stdout) => Ok(stdout),
                        Err(err) => Err(RunError::Child(err)),
                    };
                    Runner {
                        invocation,
                        input,
                        next: Action::ReleaseProcess,
                        holds_file,
                        holds_process,
                        child_running: false,
                        outcome: Some(outcome),
                    }
                } else {
                    self.proceed()
                }
            },
            Event::Failed => {
                if settled {
                    self.proceed()
                } else {
                    self.fail()
                }
            },
            Event::Done => self.proceed(),
        }
    }

    fn proceed(self) -> (after: Self)
        requires
            self@.wf(),
        ensures
            after@ == self@.done(),
            after.spec_invocation() == self.spec_invocation(),
            after.spec_input() == self.spec_input(),
    {
        if let Action::Wait = self.next {
            return self.fail();
        }
        let Runner { invocation, input, next, holds_file, holds_process, child_running, outcome } =
            self;
        match next {
            Action::AcquireFile => Runner {
                invocation,
                input,
                next: Action::AcquireProcess,
                holds_file: true,
                holds_process,
                child_running,
                outcome,
            },
            Action::AcquireProcess => Runner {
                invocation,
                input,
                next: Action::Spawn,
                holds_file,
                holds_process: true,
                child_running,
                outcome,
            },
            Action::Spawn => Runner {
                invocation,
                input,
                next: Action::WriteInput,
                holds_file,
                holds_process,
                child_running: true,
                outcome,
            },
            Action::WriteInput => Runner {
                invocation,
                input,
                next: Action::CloseInput,
                holds_file,
                holds_process,
                child_running,
                outcome,
            },
            Action::CloseInput | Action::Wait => Runner {
                invocation,
                input,
                next: Action::Wait,
                holds_file,
                holds_process,
                child_running,
                outcome,
            },
            Action::Kill => Runner {
                invocation,
                input,
                next: if holds_process {
                    Action::ReleaseProcess
                } else if holds_file {
                    Action::ReleaseFile
                } else {
                    Action::Finish
                },
                holds_file,
                holds_process,
                child_running: false,
                outcome,
            },
            Action::ReleaseProcess => Runner {
                invocation,
                input,
                next: Action::ReleaseFile,
                holds_file,
                holds_process: false,
                child_running,
                outcome,
            },
            Action::ReleaseFile => Runner {
                invocation,
                input,
                next: Action::Finish,
                holds_file: false,
                holds_process,
                child_running,
                outcome,
            },
            Action::Finish => Runner {
                invocation,
                input,
                next: Action::Finish,
                holds_file,
                holds_process,
                child_running,
                outcome,
            },
        }
    }

    /// The outcome of a run that has finished: what the child wrote, or why
    /// there is no output. A run that has not finished has none yet.
    pub fn finish(self) -> (outcome: Option<Result<Vec<u8>, RunError>>)
        ensures
            outcome == if self@.next == Action::Finish {
                self@.outcome
            } else {
                None
            },
            self@.next == Action::Finish ==> outcome is Some,
    {
        proof {
            use_type_invariant(&self);
        }
        match self.next {
            Action::Finish => self.outcome,
            _ => None,
        }
    }
}

} // verus!
