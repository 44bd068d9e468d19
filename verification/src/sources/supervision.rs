//! The lifecycle of a source as a state machine over plain values, and what
//! holds of it whatever happens.

use super::{RunAction, RunPhase, SourceState, FAST_POLL_INTERVAL_SECS};
use vstd::prelude::*;

verus! {

/// What happens to a source.
pub ghost enum SourceEvent {
    /// The owner starts the source.
    Start,
    /// The run loop begins.
    Begin,
    /// The pipeline has reached the playing state.
    PipelineStarted,
    /// The pipeline execution has returned, with success or with an error.
    PipelineEnded { ok: bool },
    /// The run loop enters the reconnection poll.
    Poll,
    /// A probe has returned.
    Probed { available: bool },
    /// A standby emitter looks at the source, once per tick of its cadence.
    EmitterTick,
    /// The owner stops the source.
    Stop,
}

/// The supervision of one source, as a plain value: its state, the running
/// flag, where its run loop stands, how many standby emitters are at work,
/// and whether it has a placeholder to show (a remote source with a fallback
/// frame).
pub ghost struct Supervision {
    pub state: SourceState,
    pub running: bool,
    pub phase: RunPhase,
    pub emitters: nat,
    pub standby: bool,
}

impl Supervision {
    /// A source that was never started.
    pub open spec fn initial(standby: bool) -> Supervision {
        Supervision {
            state: SourceState::Stopped,
            running: false,
            phase: RunPhase::Idle,
            emitters: 0,
            standby,
        }
    }

    /// What holds of a source whatever has happened to it.
    pub open spec fn inv(self) -> bool {
        &&& self.emitters <= 1
        &&& self.emitters > 0 ==> self.standby
        &&& self.state is Fallback ==> self.standby
        &&& self.state is Fallback ==> self.phase is Executing || self.phase is Waiting
            || self.phase is Probing
        &&& self.phase is Idle ==> self.emitters == 0
        &&& self.phase is Idle || self.phase is Finished ==> !self.running && self.state is Stopped
    }

    /// Whether `event` can happen where the source stands.
    pub open spec fn enabled(self, event: SourceEvent) -> bool {
        match event {
            SourceEvent::Start => self.phase is Idle || self.phase is Finished,
            SourceEvent::Begin => self.phase is Ready,
            SourceEvent::PipelineStarted => self.phase is Executing,
            SourceEvent::PipelineEnded { .. } => self.phase is Executing,
            SourceEvent::Poll => self.phase is Waiting,
            SourceEvent::Probed { .. } => self.phase is Probing,
            SourceEvent::EmitterTick => self.emitters > 0,
            SourceEvent::Stop => true,
        }
    }

    /// The run loop has ended.
    pub open spec fn ended(self) -> Supervision {
        Supervision { state: SourceState::Stopped, phase: RunPhase::Finished, ..self }
    }

    /// The pipeline of a running source executes.
    pub open spec fn executing(self) -> bool {
        self.phase is Executing
    }

    /// The frames of the pipeline are forwarded.
    pub open spec fn live_producing(self) -> bool {
        self.executing() && self.state is Live
    }

    /// A standby emitter is at work and emits a frame at its next tick.
    pub open spec fn standby_producing(self) -> bool {
        self.emitters > 0 && self.running && self.state is Fallback
    }

    /// The supervision after `event`. An event that cannot happen changes
    /// nothing.
    pub open spec fn step(self, event: SourceEvent) -> Supervision {
        if !self.enabled(event) {
            self
        } else {
            match event {
                SourceEvent::Start => Supervision {
                    state: SourceState::Live,
                    running: true,
                    phase: RunPhase::Ready,
                    ..self
                },
                SourceEvent::Begin => if self.running {
                    Supervision { phase: RunPhase::Executing, ..self }
                } else {
                    self.ended()
                },
                SourceEvent::PipelineStarted => Supervision { state: SourceState::Live, ..self },
                SourceEvent::PipelineEnded { ok } => if ok && !self.running {
                    self.ended()
                } else if self.standby {
                    Supervision {
                        state: SourceState::Fallback,
                        phase: RunPhase::Waiting,
                        emitters: 1,
                        ..self
                    }
                } else {
                    Supervision { phase: RunPhase::Waiting, ..self }
                },
                SourceEvent::Poll => if self.running {
                    Supervision { phase: RunPhase::Probing, ..self }
                } else {
                    self.ended()
                },
                SourceEvent::Probed { available } => if !self.running {
                    self.ended()
                } else if available {
                    Supervision { phase: RunPhase::Executing, ..self }
                } else {
                    self
                },
                SourceEvent::EmitterTick => if self.standby_producing() {
                    self
                } else {
                    Supervision { emitters: (self.emitters - 1) as nat, ..self }
                },
                SourceEvent::Stop => Supervision {
                    state: SourceState::Stopped,
                    running: false,
                    ..self
                },
            }
        }
    }

    /// What the run loop is told to do after `event`, where `event` is a
    /// report of the run loop.
    pub open spec fn action(self, event: SourceEvent) -> Option<RunAction> {
        if !self.enabled(event) {
            None
        } else {
            match event {
                SourceEvent::Begin => Some(
                    if self.running {
                        RunAction::Execute
                    } else {
                        RunAction::Exit
                    },
                ),
                SourceEvent::PipelineEnded { ok } => Some(
                    if ok && !self.running {
                        RunAction::Exit
                    } else if self.standby && self.emitters == 0 {
                        RunAction::EnterStandby
                    } else {
                        RunAction::Retry
                    },
                ),
                SourceEvent::Poll => Some(
                    if self.running {
                        RunAction::Probe { sleep_secs: FAST_POLL_INTERVAL_SECS }
                    } else {
                        RunAction::Exit
                    },
                ),
                SourceEvent::Probed { available } => Some(
                    if !self.running {
                        RunAction::Exit
                    } else if available {
                        RunAction::Execute
                    } else {
                        RunAction::Probe { sleep_secs: FAST_POLL_INTERVAL_SECS }
                    },
                ),
                _ => None,
            }
        }
    }

    /// The supervision after all of `events`, in order.
    pub open spec fn run(self, events: Seq<SourceEvent>) -> Supervision
        decreases events.len(),
    {
        if events.len() == 0 {
            self
        } else {
            self.run(events.drop_last()).step(events.last())
        }
    }
}

/// No event breaks what holds of a source.
pub proof fn lemma_step_keeps_inv(before: Supervision, event: SourceEvent)
    requires
        before.inv(),
    ensures
        before.step(event).inv(),
        before.step(event).standby == before.standby,
{
}

/// Whatever happens to a source that was never started, in whatever order,
/// what holds of a source holds of it.
pub proof fn lemma_run_keeps_inv(standby: bool, events: Seq<SourceEvent>)
    ensures
        Supervision::initial(standby).run(events).inv(),
        Supervision::initial(standby).run(events).standby == standby,
    decreases events.len(),
{
    if events.len() > 0 {
        lemma_run_keeps_inv(standby, events.drop_last());
        lemma_step_keeps_inv(Supervision::initial(standby).run(events.drop_last()), events.last());
    }
}

/// Mutual exclusion: after any sequence of events, a source has one standby
/// emitter at work at most, and its pipeline and its standby emitter are
/// never both producing frames. A standby emitter is at work only for a
/// source that has a placeholder, and is started only when none is at work.
pub proof fn lemma_single_producer(standby: bool, events: Seq<SourceEvent>, report: SourceEvent)
    ensures
        ({
            let now = Supervision::initial(standby).run(events);
            &&& now.emitters <= 1
            &&& !(now.live_producing() && now.standby_producing())
            &&& now.emitters > 0 ==> standby
            &&& now.action(report) == Some(RunAction::EnterStandby) ==> now.executing()
                && now.emitters == 0 && now.step(report).emitters == 1 && !now.step(
                report,
            ).executing()
            &&& now.action(report) == Some(RunAction::Execute) ==> !now.executing() && now.step(
                report,
            ).executing()
        }),
{
    lemma_run_keeps_inv(standby, events);
}

/// The reports of `n` probes that found nothing.
pub open spec fn failed_probes(n: nat) -> Seq<SourceEvent> {
    Seq::new(n, |i: int| SourceEvent::Probed { available: false })
}

/// While a source keeps running, probes that find nothing change nothing.
pub proof fn lemma_failed_probes_change_nothing(polling: Supervision, n: nat)
    requires
        polling.running,
        polling.phase is Probing,
    ensures
        polling.run(failed_probes(n)) == polling,
    decreases n,
{
    if n > 0 {
        lemma_failed_probes_change_nothing(polling, (n - 1) as nat);
        assert(failed_probes(n).drop_last() =~= failed_probes((n - 1) as nat));
    }
}

/// Reconnection: while a source keeps running and its probes find nothing,
/// the run loop goes on probing and the pipeline is not touched; the first
/// probe that finds the source sends the run loop back to the pipeline.
pub proof fn lemma_reconnects_after_probes(polling: Supervision, n: nat)
    requires
        polling.running,
        polling.phase is Probing,
    ensures
        forall|k: nat| k <= n ==> #[trigger] polling.run(failed_probes(k)) == polling,
        polling.action(SourceEvent::Probed { available: false }) == Some(
            RunAction::Probe { sleep_secs: FAST_POLL_INTERVAL_SECS },
        ),
        polling.run(failed_probes(n)).action(SourceEvent::Probed { available: true }) == Some(
            RunAction::Execute,
        ),
        polling.run(failed_probes(n).push(SourceEvent::Probed { available: true })).phase
            is Executing,
{
    assert forall|k: nat| k <= n implies #[trigger] polling.run(failed_probes(k)) == polling by {
        lemma_failed_probes_change_nothing(polling, k);
    }
    let all = failed_probes(n).push(SourceEvent::Probed { available: true });
    assert(all.drop_last() =~= failed_probes(n));
}

/// `n` ticks of a standby emitter.
pub open spec fn emitter_ticks(n: nat) -> Seq<SourceEvent> {
    Seq::new(n, |i: int| SourceEvent::EmitterTick)
}

/// Standby: as long as nothing else happens to a source that shows its
/// placeholder, its emitter stays at work, and every tick brings a frame.
pub proof fn lemma_standby_keeps_emitting(showing: Supervision, n: nat)
    requires
        showing.standby_producing(),
    ensures
        showing.run(emitter_ticks(n)) == showing,
    decreases n,
{
    if n > 0 {
        lemma_standby_keeps_emitting(showing, (n - 1) as nat);
        assert(emitter_ticks(n).drop_last() =~= emitter_ticks((n - 1) as nat));
    }
}

/// Stop: once a source is stopped, the next report of its run loop ends the
/// loop, whatever the report is; only a pipeline that failed sends it through
/// the poll first, which ends it. No standby emitter emits any more, and one
/// that is at work is gone after its next tick.
pub proof fn lemma_stop_ends_run_loop(before: Supervision, report: SourceEvent)
    requires
        before.inv(),
        report is Begin || report is Poll || report is Probed || report is PipelineEnded,
        before.enabled(report),
    ensures
        ({
            let stopped = before.step(SourceEvent::Stop);
            &&& !stopped.running
            &&& stopped.state is Stopped
            &&& !stopped.standby_producing()
            &&& stopped.step(SourceEvent::EmitterTick).emitters == 0
            &&& stopped.enabled(report)
            &&& report != (SourceEvent::PipelineEnded { ok: false }) ==> stopped.action(report)
                == Some(RunAction::Exit) && stopped.step(report).phase is Finished
            &&& report == (SourceEvent::PipelineEnded { ok: false }) ==> stopped.step(
                report,
            ).action(SourceEvent::Poll) == Some(RunAction::Exit) && !stopped.step(
                report,
            ).standby_producing()
        }),
{
}

} // verus!
