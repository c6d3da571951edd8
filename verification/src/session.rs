use vstd::prelude::*;
use vstd::string::*;
use crate::cli::{Command, Opts};
use crate::device::Device;
use crate::error::Error;

verus! {

/// The steps of a run, in the order in which a recording takes them.
#[derive(Debug, Clone, Copy, PartialEq, Eq, Structural)]
pub enum Stage {
    Resolve,
    Open,
    Build,
    Delay,
    Play,
    AwaitStop,
    Finalize,
    Finish,
}

/// How a step ended.
#[derive(Debug, Clone, PartialEq)]
pub enum Outcome {
    /// The step was carried out.
    Done,
    /// The step failed.
    Failed(Error),
    /// The wait for the signal to stop ended without one. This answers
    /// `AwaitStop` only; after any other step it changes nothing.
    NoSignal,
}

/// What is to be done next.
#[derive(Debug, Clone, PartialEq)]
pub enum Step {
    /// Resolve the default device of this direction and prepare the stream
    /// on it.
    Resolve(Device),
    /// Create the file at this place, with the header that the device's
    /// configuration gives.
    Open(String),
    /// Build the stream, with the callback that feeds the file.
    Build,
    /// Count down for this long before going on.
    Delay { seconds: Option<u32>, quiet: bool },
    /// Start the stream.
    Play,
    /// Wait for the signal to stop.
    AwaitStop,
    /// Close the file.
    Finalize,
    /// Leave: the run is over.
    Finish,
    /// Leave with this error.
    Abort(Error),
}

impl Stage {
    /// The stage that follows `self` when its step was carried out. A
    /// recording resolves the device, opens the file, builds the stream,
    /// waits out the delay, plays, awaits the signal and finalizes. A
    /// loopback resolves the device and waits out the delay.
    pub open spec fn after_done(self, recording: bool) -> Stage {
        match self {
            Stage::Resolve => if recording {
                Stage::Open
            } else {
                Stage::Delay
            },
            Stage::Open => Stage::Build,
            Stage::Build => Stage::Delay,
            Stage::Delay => if recording {
                Stage::Play
            } else {
                Stage::Finish
            },
            Stage::Play => Stage::AwaitStop,
            Stage::AwaitStop => Stage::Finalize,
            Stage::Finalize => Stage::Finish,
            Stage::Finish => Stage::Finish,
        }
    }

    /// How many steps of a recording come before this one.
    pub open spec fn rank(self) -> nat {
        match self {
            Stage::Resolve => 0,
            Stage::Open => 1,
            Stage::Build => 2,
            Stage::Delay => 3,
            Stage::Play => 4,
            Stage::AwaitStop => 5,
            Stage::Finalize => 6,
            Stage::Finish => 7,
        }
    }
}

/// A run, seen from outside.
pub struct SessionState {
    pub command: Command,
    pub delay: Option<u32>,
    pub quiet: bool,
    /// The step that is due or, after a failure, the step that failed.
    pub stage: Stage,
    /// The error that ended the run, if one did.
    pub failure: Option<Error>,
}

impl SessionState {
    /// The run at its start.
    pub open spec fn start(opts: Opts) -> SessionState {
        SessionState {
            command: opts.command,
            delay: opts.delay,
            quiet: opts.quiet,
            stage: Stage::Resolve,
            failure: None,
        }
    }

    /// Whether the run is over: it came to its end, or a step failed.
    pub open spec fn is_over(self) -> bool {
        self.stage == Stage::Finish || self.failure is Some
    }

    /// The run after the step that was due ended with `outcome`. A run that
    /// is over stays as it is. A failure ends the run at once, with its
    /// error. A wait that ended without a signal ends the run without
    /// finalizing.
    pub open spec fn next(self, outcome: Outcome) -> SessionState {
        if self.is_over() {
            self
        } else {
            match outcome {
                Outcome::Done => SessionState {
                    stage: self.stage.after_done(self.command.spec_is_record()),
                    ..self
                },
                Outcome::Failed(e) => SessionState { failure: Some(e), ..self },
                Outcome::NoSignal => if self.stage == Stage::AwaitStop {
                    SessionState { stage: Stage::Finish, ..self }
                } else {
                    self
                },
            }
        }
    }

    /// The run after steps that ended with `outcomes`, one after the other.
    pub open spec fn reach(self, outcomes: Seq<Outcome>) -> SessionState
        decreases outcomes.len(),
    {
        if outcomes.len() == 0 {
            self
        } else {
            self.reach(outcomes.drop_last()).next(outcomes.last())
        }
    }

    /// Whether `step` is the step that is due.
    pub open spec fn due(self, step: Step) -> bool {
        match self.failure {
            Some(e) => step == Step::Abort(e),
            None => match self.stage {
                Stage::Resolve => step == Step::Resolve(self.command.spec_kind().spec_device()),
                Stage::Open => step matches Step::Open(path) && path@
                    == self.command.spec_output_path(),
                Stage::Build => step == Step::Build,
                Stage::Delay => step == (Step::Delay { seconds: self.delay, quiet: self.quiet }),
                Stage::Play => step == Step::Play,
                Stage::AwaitStop => step == Step::AwaitStop,
                Stage::Finalize => step == Step::Finalize,
                Stage::Finish => step == Step::Finish,
            },
        }
    }
}

/// The decisions of one run of the program: which step is due, and which
/// follows once the caller has carried it out and says how it ended.
pub struct Session {
    command: Command,
    delay: Option<u32>,
    quiet: bool,
    stage: Stage,
    failure: Option<Error>,
}

impl View for Session {
    type V = SessionState;

    closed spec fn view(&self) -> SessionState {
        SessionState {
            command: self.command,
            delay: self.delay,
            quiet: self.quiet,
            stage: self.stage,
            failure: self.failure,
        }
    }
}

impl Session {
    pub fn new(opts: Opts) -> (session: Session)
        ensures
            session@ == SessionState::start(opts),
    {
        Session {
            command: opts.command,
            delay: opts.delay,
            quiet: opts.quiet,
            stage: Stage::Resolve,
            failure: None,
        }
    }

    pub fn stage(&self) -> (stage: Stage)
        ensures
            stage == self@.stage,
    {
        self.stage
    }

    pub fn is_over(&self) -> (over: bool)
        ensures
            over == self@.is_over(),
    {
        self.failure.is_some() || match self.stage {
            Stage::Finish => true,
            _ => false,
        }
    }

    /// The step that is due.
    pub fn step(&self) -> (step: Step)
        ensures
            self@.due(step),
    {
        match &self.failure {
            Some(e) => Step::Abort(e.clone()),
            None => match self.stage {
                Stage::Resolve => Step::Resolve(self.command.kind().device()),
                Stage::Open => Step::Open(self.command.output_path()),
                Stage::Build => Step::Build,
                Stage::Delay => Step::Delay { seconds: self.delay, quiet: self.quiet },
                Stage::Play => Step::Play,
                Stage::AwaitStop => Step::AwaitStop,
                Stage::Finalize => Step::Finalize,
                Stage::Finish => Step::Finish,
            },
        }
    }

    /// Takes note of how the step that was due ended, and gives the step
    /// that is due now.
    pub fn advance(&mut self, outcome: Outcome) -> (step: Step)
        ensures
            final(self)@ == old(self)@.next(outcome),
            final(self)@.due(step),
    {
        if !self.is_over() {
            let recording = self.command.is_record();
            match outcome {
                Outcome::Done => {
                    self.stage = match self.stage {
                        Stage::Resolve => if recording {
                            Stage::Open
                        } else {
                            Stage::Delay
                        },
                        Stage::Open => Stage::Build,
                        Stage::Build => Stage::Delay,
                        Stage::Delay => if recording {
                            Stage::Play
                        } else {
                            Stage::Finish
                        },
                        Stage::Play => Stage::AwaitStop,
                        Stage::AwaitStop => Stage::Finalize,
                        Stage::Finalize => Stage::Finish,
                        Stage::Finish => Stage::Finish,
                    };
                },
                Outcome::Failed(e) => {
                    self.failure = Some(e);
                },
                Outcome::NoSignal => {
                    match self.stage {
                        Stage::AwaitStop => {
                            self.stage = Stage::Finish;
                        },
                        _ => {},
                    }
                },
            }
        }
        self.step()
    }
}

/// A step that fails ends the run at once, with its error: the step that
/// is due from then on is to leave with that error, whatever is reported
/// afterwards.
pub proof fn lemma_failure_ends_the_run(run: SessionState, e: Error, later: Seq<Outcome>)
    requires
        !run.is_over(),
    ensures
        run.next(Outcome::Failed(e)).reach(later) == run.next(Outcome::Failed(e)),
        run.next(Outcome::Failed(e)).reach(later).due(Step::Abort(e)),
        run.next(Outcome::Failed(e)).stage == run.stage,
    decreases later.len(),
{
    if later.len() > 0 {
        lemma_failure_ends_the_run(run, e, later.drop_last());
    }
}

/// Where no device can be resolved, nothing else is ever asked for: no file
/// is opened and no stream is built. The run leaves with the error of the
/// resolution.
pub proof fn lemma_no_device_no_file(opts: Opts, e: Error, later: Seq<Outcome>, step: Step)
    requires
        SessionState::start(opts).next(Outcome::Failed(e)).reach(later).due(step),
    ensures
        step == Step::Abort(e),
        !(step is Open),
        !(step is Build),
{
    lemma_failure_ends_the_run(SessionState::start(opts), e, later);
}

/// The steps of a recording come in one order, and each is due only once
/// the one before it was carried out. In particular the delay comes after
/// the stream is built and before it plays.
pub proof fn lemma_steps_in_order(run: SessionState, outcome: Outcome)
    requires
        run.command.spec_is_record(),
        !run.is_over(),
    ensures
        run.next(outcome).stage.rank() == run.stage.rank() || (run.next(outcome).stage.rank()
            == run.stage.rank() + 1 && outcome is Done) || (run.stage == Stage::AwaitStop
            && outcome is NoSignal && run.next(outcome).stage == Stage::Finish),
        outcome is Done ==> run.next(outcome).stage.rank() == run.stage.rank() + 1,
        Stage::Build.after_done(true) == Stage::Delay,
        Stage::Delay.after_done(true) == Stage::Play,
{
}

/// A loopback resolves the device and waits out the delay; nothing is
/// opened, built or played.
pub proof fn lemma_loopback_steps(opts: Opts)
    requires
        !opts.command.spec_is_record(),
    ensures
        SessionState::start(opts).stage == Stage::Resolve,
        SessionState::start(opts).next(Outcome::Done).stage == Stage::Delay,
        SessionState::start(opts).next(Outcome::Done).next(Outcome::Done).stage == Stage::Finish,
{
}

} // verus!
