//! One execution of the pipeline of a source, step by step: what the
//! executor is told to do, and what it does with each report. A pipeline
//! that was built is released before the execution returns, whatever
//! happens.

use super::supervision::SourceEvent;
use super::{
    on_bus_event, watch_of, BusEvent, PipelineError, Source, Watch, WatchView, BUS_WAIT_MS,
};
use crate::text::push_text;
use vstd::prelude::*;
use vstd::string::*;

verus! {

/// What the executor of a pipeline is told to do.
#[derive(Debug)]
pub enum ExecCommand {
    /// Build the pipeline from this description.
    Launch(String),
    /// Attach the frame callback to the sink of the pipeline.
    Attach,
    /// Set the pipeline to playing.
    Play,
    /// Wait for the next message on the bus, for `wait_ms` milliseconds at
    /// most.
    Watch { wait_ms: u64 },
    /// Set the pipeline to null, which releases it.
    Teardown,
    /// The execution is over, in good order or with the error given.
    Return(Result<(), String>),
}

/// What the executor reports of the command it was given.
#[derive(Debug)]
pub enum ExecReport {
    /// The command was carried out.
    Done,
    /// The command failed, for the cause given.
    Failed(String),
    /// The pipeline has no bus to watch.
    NoBus,
    /// What the bus brought within the wait.
    Bus(Option<BusEvent>),
}

/// Where an execution stands.
#[derive(Debug, Clone, Copy, PartialEq, Eq, Structural)]
pub enum ExecStage {
    /// The pipeline is being built.
    Launching,
    /// The frame callback is being attached.
    Attaching,
    /// The pipeline is being set to playing.
    Starting,
    /// The pipeline plays and its bus is watched.
    Watching,
    /// The pipeline is being released.
    Releasing,
    /// The execution is over.
    Over,
}

/// An execution as a plain value: where it stands, and the error that it
/// is to return once the pipeline is released.
pub ghost struct ExecutionView {
    pub stage: ExecStage,
    pub failure: Option<Seq<char>>,
}

/// A command as a plain value.
pub ghost enum CommandView {
    Launch(Seq<char>),
    Attach,
    Play,
    Watch { wait_ms: u64 },
    Teardown,
    Return(Option<Seq<char>>),
}

impl View for ExecCommand {
    type V = CommandView;

    open spec fn view(&self) -> CommandView {
        match *self {
            ExecCommand::Launch(text) => CommandView::Launch(text@),
            ExecCommand::Attach => CommandView::Attach,
            ExecCommand::Play => CommandView::Play,
            ExecCommand::Watch { wait_ms } => CommandView::Watch { wait_ms },
            ExecCommand::Teardown => CommandView::Teardown,
            ExecCommand::Return(Ok(())) => CommandView::Return(None),
            ExecCommand::Return(Err(text)) => CommandView::Return(Some(text@)),
        }
    }
}

/// The error of a pipeline that could not be set to playing for `cause`.
pub open spec fn start_error_text(cause: Seq<char>) -> Seq<char> {
    "Failed to start pipeline: "@ + cause
}

/// The error of a pipeline without a bus.
pub open spec fn no_bus_text() -> Seq<char> {
    "No bus on pipeline"@
}

impl ExecutionView {
    /// A pipeline exists and has not been released.
    pub open spec fn holding(self) -> bool {
        self.stage is Attaching || self.stage is Starting || self.stage is Watching
            || self.stage is Releasing
    }

    /// Whether `report` answers the command that was given last.
    pub open spec fn expects(self, report: ExecReport) -> bool {
        match self.stage {
            ExecStage::Launching | ExecStage::Attaching | ExecStage::Starting => report is Done
                || report is Failed,
            ExecStage::Watching => report is Bus || report is NoBus,
            ExecStage::Releasing => report is Done,
            ExecStage::Over => false,
        }
    }

    /// The pipeline is to be released, and the execution then returns
    /// `failure`.
    pub open spec fn release(failure: Option<Seq<char>>) -> (ExecutionView, CommandView) {
        (ExecutionView { stage: ExecStage::Releasing, failure }, CommandView::Teardown)
    }

    /// The bus is watched again if the source still runs; else the pipeline
    /// is released and the execution returns in good order.
    pub open spec fn watch_on(running: bool) -> (ExecutionView, CommandView) {
        if running {
            (
                ExecutionView { stage: ExecStage::Watching, failure: None },
                CommandView::Watch { wait_ms: BUS_WAIT_MS },
            )
        } else {
            Self::release(None)
        }
    }

    /// The execution after `report`, and the next command, where `running`
    /// says whether the source is still meant to run.
    pub open spec fn step(self, report: ExecReport, running: bool) -> (ExecutionView, CommandView)
        recommends
            self.expects(report),
    {
        match self.stage {
            ExecStage::Launching => match report {
                ExecReport::Failed(cause) => (
                    ExecutionView { stage: ExecStage::Over, failure: Some(cause@) },
                    CommandView::Return(Some(cause@)),
                ),
                _ => (
                    ExecutionView { stage: ExecStage::Attaching, failure: None },
                    CommandView::Attach,
                ),
            },
            ExecStage::Attaching => match report {
                ExecReport::Failed(cause) => Self::release(Some(cause@)),
                _ => (
                    ExecutionView { stage: ExecStage::Starting, failure: None },
                    CommandView::Play,
                ),
            },
            ExecStage::Starting => match report {
                ExecReport::Failed(cause) => Self::release(Some(start_error_text(cause@))),
                _ => Self::watch_on(running),
            },
            ExecStage::Watching => match report {
                ExecReport::Bus(event) => match watch_of(event) {
                    WatchView::Failed(text) => Self::release(Some(text)),
                    WatchView::Ended => Self::release(None),
                    WatchView::Continue => Self::watch_on(running),
                },
                _ => Self::release(Some(no_bus_text())),
            },
            _ => (
                ExecutionView { stage: ExecStage::Over, failure: self.failure },
                CommandView::Return(self.failure),
            ),
        }
    }
}

/// Release before return: an execution that holds a pipeline returns only
/// from the release of that pipeline, and is told to release it before that.
pub proof fn lemma_released_before_return(
    before: ExecutionView,
    report: ExecReport,
    running: bool,
)
    requires
        before.expects(report),
    ensures
        ({
            let (after, command) = before.step(report, running);
            &&& command is Return <==> after.stage is Over
            &&& command is Return ==> !after.holding() && (before.holding()
                ==> before.stage is Releasing)
            &&& command is Teardown <==> after.stage is Releasing
            &&& after.holding() ==> before.holding() || before.stage is Launching
        }),
{
}

/// Stop: the execution of a source that is no longer meant to run releases
/// its pipeline at the next report of a pipeline that plays or is about to,
/// whatever that report is, and returns at the report after that.
pub proof fn lemma_stopped_execution_returns(
    before: ExecutionView,
    report: ExecReport,
    released: ExecReport,
)
    requires
        before.stage is Starting || before.stage is Watching,
        before.expects(report),
        released is Done,
    ensures
        ({
            let (releasing, command) = before.step(report, false);
            &&& command is Teardown
            &&& releasing.expects(released)
            &&& releasing.step(released, false).1 is Return
        }),
{
}

/// One execution of a pipeline.
#[derive(Debug)]
pub struct Execution {
    stage: ExecStage,
    failure: Option<String>,
}

impl View for Execution {
    type V = ExecutionView;

    closed spec fn view(&self) -> ExecutionView {
        ExecutionView {
            stage: self.stage,
            failure: match self.failure {
                Some(text) => Some(text@),
                None => None,
            },
        }
    }
}

impl Execution {
    /// Begins an execution of the pipeline that `description` describes. A
    /// source that has no description fails at once.
    pub fn begin(description: Result<String, PipelineError>) -> (r: (Self, ExecCommand))
        ensures
            match description {
                Ok(text) => r.0@ == (ExecutionView { stage: ExecStage::Launching, failure: None })
                    && r.1@ == CommandView::Launch(text@),
                Err(error) => r.0@ == (ExecutionView {
                    stage: ExecStage::Over,
                    failure: Some(error.message_text()),
                }) && r.1@ == CommandView::Return(Some(error.message_text())),
            },
    {
        match description {
            Ok(text) => (
                Execution { stage: ExecStage::Launching, failure: None },
                ExecCommand::Launch(text),
            ),
            Err(error) => (
                Execution { stage: ExecStage::Over, failure: Some(error.message()) },
                ExecCommand::Return(Err(error.message())),
            ),
        }
    }

    /// Where the execution stands.
    pub fn stage(&self) -> (stage: ExecStage)
        ensures
            stage == self@.stage,
    {
        self.stage
    }

    /// Whether `report` answers the command that was given last.
    pub fn expects(&self, report: &ExecReport) -> (fits: bool)
        ensures
            fits == self@.expects(*report),
    {
        match self.stage {
            ExecStage::Launching | ExecStage::Attaching | ExecStage::Starting => match report {
                ExecReport::Done => true,
                ExecReport::Failed(_) => true,
                _ => false,
            },
            ExecStage::Watching => match report {
                ExecReport::Bus(_) => true,
                ExecReport::NoBus => true,
                _ => false,
            },
            ExecStage::Releasing => match report {
                ExecReport::Done => true,
                _ => false,
            },
            ExecStage::Over => false,
        }
    }

    fn release(&mut self, failure: Option<String>) -> (command: ExecCommand)
        ensures
            (final(self)@, command@) == ExecutionView::release(
                match failure {
                    Some(text) => Some(text@),
                    None => None,
                },
            ),
    {
        self.stage = ExecStage::Releasing;
        self.failure = failure;
        ExecCommand::Teardown
    }

    fn watch_on(&mut self, running: bool) -> (command: ExecCommand)
        ensures
            (final(self)@, command@) == ExecutionView::watch_on(running),
    {
        if running {
            self.stage = ExecStage::Watching;
            self.failure = None;
            ExecCommand::Watch { wait_ms: BUS_WAIT_MS }
        } else {
            self.release(None)
        }
    }

    /// Takes the report of the command that was given last and gives the
    /// next command; `running` says whether the source is still meant to run.
    pub fn report(&mut self, report: ExecReport, running: bool) -> (command: ExecCommand)
        requires
            old(self)@.expects(report),
        ensures
            (final(self)@, command@) == old(self)@.step(report, running),
    {
        match self.stage {
            ExecStage::Launching => match report {
                ExecReport::Failed(cause) => {
                    self.stage = ExecStage::Over;
                    self.failure = Some(cause.clone());
                    ExecCommand::Return(Err(cause))
                },
                _ => {
                    self.stage = ExecStage::Attaching;
                    self.failure = None;
                    ExecCommand::Attach
                },
            },
            ExecStage::Attaching => match report {
                ExecReport::Failed(cause) => self.release(Some(cause)),
                _ => {
                    self.stage = ExecStage::Starting;
                    self.failure = None;
                    ExecCommand::Play
                },
            },
            ExecStage::Starting => match report {
                ExecReport::Failed(cause) => {
                    let mut text = String::from_str("Failed to start pipeline: ");
                    push_text(&mut text, cause.as_str());
                    self.release(Some(text))
                },
                _ => self.watch_on(running),
            },
            ExecStage::Watching => match report {
                ExecReport::Bus(event) => match on_bus_event(event) {
                    Watch::Failed(text) => self.release(Some(text)),
                    Watch::Ended => self.release(None),
                    Watch::Continue => self.watch_on(running),
                },
                _ => self.release(Some(String::from_str("No bus on pipeline"))),
            },
            _ => {
                self.stage = ExecStage::Over;
                match &self.failure {
                    Some(text) => ExecCommand::Return(Err(text.clone())),
                    None => ExecCommand::Return(Ok(())),
                }
            },
        }
    }
}

impl Source {
    /// Takes the report of the executor of the pipeline of this source and
    /// gives the next command. The source is live from the moment at which
    /// its pipeline plays; and whether it is still meant to run is looked at
    /// before every wait for the bus.
    pub fn drive(&mut self, execution: &mut Execution, report: ExecReport) -> (command: ExecCommand)
        requires
            old(self)@.enabled(SourceEvent::PipelineStarted),
            old(execution)@.expects(report),
        ensures
            (final(execution)@, command@) == old(execution)@.step(report, old(self)@.running),
            final(self)@ == if old(execution)@.stage is Starting && report is Done {
                old(self)@.step(SourceEvent::PipelineStarted)
            } else {
                old(self)@
            },
            final(self).settings() == old(self).settings(),
            final(self).placeholder() == old(self).placeholder(),
            final(self).hardware() == old(self).hardware(),
    {
        let playing = match (execution.stage(), &report) {
            (ExecStage::Starting, ExecReport::Done) => true,
            _ => false,
        };
        if playing {
            self.pipeline_started();
        }
        execution.report(report, self.is_running())
    }
}

} // verus!
