//! The connectivity probe: a bounded number of looks at the bus of a
//! minimal pipeline.

use super::{BusEvent, Source};
use crate::config::SourceType;
use vstd::prelude::*;
use vstd::string::*;

verus! {

/// How many looks at the bus a probe takes at most.
pub const PROBE_LOOKS: u32 = 20;

/// Milliseconds that one look of a probe waits.
pub const PROBE_WAIT_MS: u64 = 100;

/// What a probe does after a look at the bus.
#[derive(Debug, Clone, Copy, PartialEq, Eq, Structural)]
pub enum ProbeStep {
    /// Look again.
    Continue,
    /// Tear the probe pipeline down and answer.
    Done(bool),
}

/// What a look at the bus settles: an error, that the source is not
/// available; an element that has reached the paused state, that it is;
/// anything else, or nothing within the wait, settles nothing.
pub open spec fn settles(look: Option<BusEvent>) -> Option<bool> {
    match look {
        Some(BusEvent::Error(_)) => Some(false),
        Some(BusEvent::StateChanged { paused }) => if paused {
            Some(true)
        } else {
            None
        },
        _ => None,
    }
}

/// The answer of a probe that has `left` looks to take and sees `looks`, in
/// order, from the index `from` on: what the first look that settles anything
/// settles, if it is among the looks taken; else that the source is not
/// available.
pub open spec fn probe_answer(looks: Seq<Option<BusEvent>>, from: int, left: nat) -> bool
    decreases left,
{
    if left == 0 || from < 0 || from >= looks.len() {
        false
    } else {
        match settles(looks[from]) {
            Some(answer) => answer,
            None => probe_answer(looks, from + 1, (left - 1) as nat),
        }
    }
}

/// A probe is bounded: it takes `left` looks at most, and what the bus
/// brings after them does not change its answer.
pub proof fn lemma_probe_is_bounded(looks: Seq<Option<BusEvent>>, from: int, left: nat)
    requires
        0 <= from,
        from + left <= looks.len(),
    ensures
        probe_answer(looks, from, left) == probe_answer(looks.take(from + left), from, left),
    decreases left,
{
    if left > 0 && from < looks.len() {
        let cut = looks.take(from + left);
        assert(cut[from] == looks[from]);
        if settles(looks[from]) is None {
            lemma_probe_is_bounded(looks, from + 1, (left - 1) as nat);
            assert(looks.take(from + 1 + (left - 1)) =~= cut);
        }
    }
}

/// A probe under way: it counts the looks that it may still take.
#[derive(Debug)]
pub struct Prober {
    looks_left: u32,
}

impl Prober {
    /// The looks that the probe may still take.
    pub closed spec fn left(&self) -> nat {
        self.looks_left as nat
    }

    /// A probe that has taken no look yet.
    pub fn new() -> (prober: Self)
        ensures
            prober.left() == PROBE_LOOKS,
    {
        Prober { looks_left: PROBE_LOOKS }
    }

    /// Takes one look: `look` is what the bus brought within the wait. The
    /// probe is done when the look settles the answer, and when it was the
    /// last look allowed; a probe that is done stays done.
    pub fn look(&mut self, look: Option<BusEvent>) -> (step: ProbeStep)
        ensures
            old(self).left() == 0 ==> step == ProbeStep::Done(false) && final(self).left() == 0,
            old(self).left() > 0 && settles(look) is Some ==> step == ProbeStep::Done(
                settles(look)->0,
            ) && final(self).left() == 0,
            old(self).left() == 1 && settles(look) is None ==> step == ProbeStep::Done(false)
                && final(self).left() == 0,
            old(self).left() > 1 && settles(look) is None ==> step == ProbeStep::Continue
                && final(self).left() == old(self).left() - 1,
    {
        if self.looks_left == 0 {
            return ProbeStep::Done(false);
        }
        let settled = match look {
            Some(BusEvent::Error(_)) => Some(false),
            Some(BusEvent::StateChanged { paused }) => if paused {
                Some(true)
            } else {
                None
            },
            _ => None,
        };
        match settled {
            Some(answer) => {
                self.looks_left = 0;
                ProbeStep::Done(answer)
            },
            None => {
                self.looks_left = self.looks_left - 1;
                if self.looks_left == 0 {
                    ProbeStep::Done(false)
                } else {
                    ProbeStep::Continue
                }
            },
        }
    }
}

/// The answer of a whole probe that sees `looks`, in order: the source is
/// available if and only if, among the first twenty looks, an element that
/// has reached the paused state is seen before any error.
pub fn probe_verdict(looks: Vec<Option<BusEvent>>) -> (available: bool)
    ensures
        available == probe_answer(looks@, 0, PROBE_LOOKS as nat),
{
    let ghost all = looks@;
    let mut prober = Prober::new();
    let mut answer: Option<bool> = None;
    for look in it: looks
        invariant
            it.seq() == all,
            answer is None ==> prober.left() > 0 && probe_answer(all, 0, PROBE_LOOKS as nat)
                == probe_answer(all, it.index() as int, prober.left()),
            answer is Some ==> answer->0 == probe_answer(all, 0, PROBE_LOOKS as nat),
    {
        if answer.is_none() {
            let ghost left = prober.left();
            let ghost index = it.index() as int;
            assert(all[index] == look);
            match prober.look(look) {
                ProbeStep::Done(found) => {
                    assert(probe_answer(all, index, left) == found) by {
                        if settles(look) is None {
                            assert(!probe_answer(all, index + 1, 0));
                        }
                    }
                    answer = Some(found);
                },
                ProbeStep::Continue => {},
            }
        }
    }
    match answer {
        Some(found) => found,
        None => false,
    }
}

/// What the one who runs a probe is told to do.
#[derive(Debug)]
pub enum ProbeCommand {
    /// Build the probe pipeline from this description.
    Launch(String),
    /// Set the pipeline to paused, which connects to the source or
    /// negotiates with the device.
    Pause,
    /// Wait for the next message on the bus, for `wait_ms` milliseconds at
    /// most.
    Look { wait_ms: u64 },
    /// Set the pipeline to null, which releases it.
    Teardown,
    /// The probe is over: the source is available, or it is not.
    Answer(bool),
}

/// What is reported of the command given.
#[derive(Debug)]
pub enum ProbeReport {
    /// The command was carried out.
    Done,
    /// The command failed.
    Failed,
    /// The pipeline has no bus to look at.
    NoBus,
    /// What the bus brought within the wait.
    Bus(Option<BusEvent>),
}

/// Where a probe stands.
#[derive(Debug, Clone, Copy, PartialEq, Eq, Structural)]
pub enum ProbeStage {
    /// The probe pipeline is being built.
    Launching,
    /// The pipeline is being set to paused.
    Pausing,
    /// The bus is looked at.
    Looking,
    /// The pipeline is being released.
    Releasing,
    /// The probe is over.
    Over,
}

/// A probe as a plain value: where it stands, the looks that it may still
/// take, and the answer that it gives once the pipeline is released.
pub ghost struct ProbeView {
    pub stage: ProbeStage,
    pub left: nat,
    pub answer: bool,
}

/// A command as a plain value.
pub ghost enum ProbeCommandView {
    Launch(Seq<char>),
    Pause,
    Look { wait_ms: u64 },
    Teardown,
    Answer(bool),
}

impl View for ProbeCommand {
    type V = ProbeCommandView;

    open spec fn view(&self) -> ProbeCommandView {
        match *self {
            ProbeCommand::Launch(text) => ProbeCommandView::Launch(text@),
            ProbeCommand::Pause => ProbeCommandView::Pause,
            ProbeCommand::Look { wait_ms } => ProbeCommandView::Look { wait_ms },
            ProbeCommand::Teardown => ProbeCommandView::Teardown,
            ProbeCommand::Answer(available) => ProbeCommandView::Answer(available),
        }
    }
}

impl ProbeView {
    /// A probe pipeline exists and has not been released.
    pub open spec fn holding(self) -> bool {
        self.stage is Pausing || self.stage is Looking || self.stage is Releasing
    }

    /// Whether `report` answers the command that was given last.
    pub open spec fn expects(self, report: ProbeReport) -> bool {
        match self.stage {
            ProbeStage::Launching | ProbeStage::Pausing => report is Done || report is Failed,
            ProbeStage::Looking => report is Bus || report is NoBus,
            ProbeStage::Releasing => report is Done,
            ProbeStage::Over => false,
        }
    }

    /// A probe that begins by building its pipeline.
    pub open spec fn launching() -> ProbeView {
        ProbeView { stage: ProbeStage::Launching, left: PROBE_LOOKS as nat, answer: false }
    }

    /// A probe that is over before it began.
    pub open spec fn refused() -> ProbeView {
        ProbeView { stage: ProbeStage::Over, left: 0, answer: false }
    }

    /// The pipeline is to be released, and the probe then answers `answer`.
    pub open spec fn release(answer: bool) -> (ProbeView, ProbeCommandView) {
        (ProbeView { stage: ProbeStage::Releasing, left: 0, answer }, ProbeCommandView::Teardown)
    }

    /// The probe after `report`, and the next command.
    pub open spec fn step(self, report: ProbeReport) -> (ProbeView, ProbeCommandView)
        recommends
            self.expects(report),
    {
        match self.stage {
            ProbeStage::Launching => match report {
                ProbeReport::Failed => (ProbeView::refused(), ProbeCommandView::Answer(false)),
                _ => (ProbeView { stage: ProbeStage::Pausing, ..self }, ProbeCommandView::Pause),
            },
            ProbeStage::Pausing => match report {
                ProbeReport::Failed => Self::release(false),
                _ => (
                    ProbeView { stage: ProbeStage::Looking, ..self },
                    ProbeCommandView::Look { wait_ms: PROBE_WAIT_MS },
                ),
            },
            ProbeStage::Looking => match report {
                ProbeReport::Bus(look) => if self.left == 0 {
                    Self::release(false)
                } else if settles(look) is Some {
                    Self::release(settles(look)->0)
                } else if self.left == 1 {
                    Self::release(false)
                } else {
                    (
                        ProbeView { left: (self.left - 1) as nat, ..self },
                        ProbeCommandView::Look { wait_ms: PROBE_WAIT_MS },
                    )
                },
                _ => Self::release(false),
            },
            _ => (
                ProbeView { stage: ProbeStage::Over, ..self },
                ProbeCommandView::Answer(self.answer),
            ),
        }
    }

    /// The probe after it has looked at `looks`, from index `from` on, for
    /// as long as it goes on looking.
    pub open spec fn look_at(self, looks: Seq<Option<BusEvent>>, from: int) -> ProbeView
        recommends
            0 <= from,
        decreases looks.len() - from,
    {
        if from < 0 || from >= looks.len() || !(self.stage is Looking) {
            self
        } else {
            self.step(ProbeReport::Bus(looks[from])).0.look_at(looks, from + 1)
        }
    }
}

/// Release before answer: a probe that holds a pipeline answers only from
/// the release of that pipeline, and is told to release it before that.
pub proof fn lemma_probe_released_before_answer(before: ProbeView, report: ProbeReport)
    requires
        before.expects(report),
    ensures
        ({
            let (after, command) = before.step(report);
            &&& command is Answer <==> after.stage is Over
            &&& command is Answer ==> !after.holding() && (before.holding()
                ==> before.stage is Releasing)
            &&& command is Teardown <==> after.stage is Releasing
            &&& after.holding() ==> before.holding() || before.stage is Launching
        }),
{
}

/// A probe that looks at the bus often enough ends its looks with the
/// answer of the looks it was allowed: it is then releasing its pipeline, and
/// will say that the source is available if and only if an element that has
/// reached the paused state was seen before any error.
pub proof fn lemma_probe_answers(looking: ProbeView, looks: Seq<Option<BusEvent>>, from: int)
    requires
        looking.stage is Looking,
        looking.left > 0,
        0 <= from,
        from + looking.left <= looks.len(),
    ensures
        looking.look_at(looks, from).stage is Releasing,
        looking.look_at(looks, from).answer == probe_answer(looks, from, looking.left),
    decreases looks.len() - from,
{
    let next = looking.step(ProbeReport::Bus(looks[from])).0;
    if next.stage is Looking {
        lemma_probe_answers(next, looks, from + 1);
    } else {
        assert(next.look_at(looks, from + 1) == next);
        if settles(looks[from]) is None {
            assert(!probe_answer(looks, from + 1, 0));
        }
    }
}

/// A probe under way, with its pipeline.
#[derive(Debug)]
pub struct Probe {
    stage: ProbeStage,
    prober: Prober,
    answer: bool,
}

impl View for Probe {
    type V = ProbeView;

    closed spec fn view(&self) -> ProbeView {
        ProbeView { stage: self.stage, left: self.prober.left(), answer: self.answer }
    }
}

impl Probe {
    /// Begins a probe with the pipeline that `description` describes. A
    /// source that has no description is not available, and neither is a
    /// capture device that is not there (`device_missing`).
    pub fn begin(description: Option<String>, device_missing: bool) -> (r: (Self, ProbeCommand))
        ensures
            description is None || device_missing ==> r.0@ == ProbeView::refused() && r.1@
                == ProbeCommandView::Answer(false),
            description is Some && !device_missing ==> r.0@ == ProbeView::launching() && r.1@
                == ProbeCommandView::Launch(description->0@),
    {
        match description {
            Some(text) => {
                if device_missing {
                    let mut prober = Prober::new();
                    prober.looks_left = 0;
                    (
                        Probe { stage: ProbeStage::Over, prober, answer: false },
                        ProbeCommand::Answer(false),
                    )
                } else {
                    (
                        Probe {
                            stage: ProbeStage::Launching,
                            prober: Prober::new(),
                            answer: false,
                        },
                        ProbeCommand::Launch(text),
                    )
                }
            },
            None => {
                let mut prober = Prober::new();
                prober.looks_left = 0;
                (
                    Probe { stage: ProbeStage::Over, prober, answer: false },
                    ProbeCommand::Answer(false),
                )
            },
        }
    }

    /// Where the probe stands.
    pub fn stage(&self) -> (stage: ProbeStage)
        ensures
            stage == self@.stage,
    {
        self.stage
    }

    /// Whether `report` answers the command that was given last.
    pub fn expects(&self, report: &ProbeReport) -> (fits: bool)
        ensures
            fits == self@.expects(*report),
    {
        match self.stage {
            ProbeStage::Launching | ProbeStage::Pausing => match report {
                ProbeReport::Done => true,
                ProbeReport::Failed => true,
                _ => false,
            },
            ProbeStage::Looking => match report {
                ProbeReport::Bus(_) => true,
                ProbeReport::NoBus => true,
                _ => false,
            },
            ProbeStage::Releasing => match report {
                ProbeReport::Done => true,
                _ => false,
            },
            ProbeStage::Over => false,
        }
    }

    fn release(&mut self, answer: bool) -> (command: ProbeCommand)
        ensures
            (final(self)@, command@) == ProbeView::release(answer),
    {
        self.stage = ProbeStage::Releasing;
        self.prober.looks_left = 0;
        self.answer = answer;
        ProbeCommand::Teardown
    }

    /// Takes the report of the command that was given last and gives the
    /// next command.
    pub fn report(&mut self, report: ProbeReport) -> (command: ProbeCommand)
        requires
            old(self)@.expects(report),
        ensures
            (final(self)@, command@) == old(self)@.step(report),
    {
        match self.stage {
            ProbeStage::Launching => match report {
                ProbeReport::Failed => {
                    self.stage = ProbeStage::Over;
                    self.prober.looks_left = 0;
                    self.answer = false;
                    ProbeCommand::Answer(false)
                },
                _ => {
                    self.stage = ProbeStage::Pausing;
                    ProbeCommand::Pause
                },
            },
            ProbeStage::Pausing => match report {
                ProbeReport::Failed => self.release(false),
                _ => {
                    self.stage = ProbeStage::Looking;
                    ProbeCommand::Look { wait_ms: PROBE_WAIT_MS }
                },
            },
            ProbeStage::Looking => match report {
                ProbeReport::Bus(look) => match self.prober.look(look) {
                    ProbeStep::Done(answer) => self.release(answer),
                    ProbeStep::Continue => ProbeCommand::Look { wait_ms: PROBE_WAIT_MS },
                },
                _ => self.release(false),
            },
            _ => {
                self.stage = ProbeStage::Over;
                ProbeCommand::Answer(self.answer)
            },
        }
    }
}

impl Source {
    /// The path of the capture device that a probe of this source looks
    /// for before anything else: a capture source has one, where its device is
    /// set.
    pub fn device_to_check(&self) -> (path: Option<&str>)
        ensures
            self.settings().source_type is V4l2 && self.settings().device is Some ==> path
                is Some && path->0@ == self.settings().device->0@,
            !(self.settings().source_type is V4l2 && self.settings().device is Some) ==> path
                is None,
    {
        match self.kind() {
            SourceType::V4l2 => match self.device() {
                Some(device) => Some(device.as_str()),
                None => None,
            },
            SourceType::Rtsp => None,
        }
    }

    /// Begins a probe of this source. For a capture source `device_present`
    /// says whether its device is there; a device that is not there needs no
    /// probe.
    pub fn begin_probe(&self, device_present: bool) -> (r: (Probe, ProbeCommand))
        ensures
            ({
                let config = self.settings();
                let missing = config.source_type is V4l2 && !device_present;
                let described = match config.source_type {
                    SourceType::V4l2 => config.device is Some,
                    SourceType::Rtsp => config.url is Some,
                };
                &&& !described || missing ==> r.0@ == ProbeView::refused() && r.1@
                    == ProbeCommandView::Answer(false)
                &&& described && !missing ==> r.0@ == ProbeView::launching() && r.1@
                    == ProbeCommandView::Launch(
                    match config.source_type {
                        SourceType::V4l2 => super::v4l2::probe_pipeline_text(
                            &config,
                            config.device->0@,
                        ),
                        SourceType::Rtsp => super::rtsp::probe_pipeline_text(
                            &config,
                            config.url->0@,
                        ),
                    },
                )
            }),
    {
        let missing = match self.kind() {
            SourceType::V4l2 => !device_present,
            SourceType::Rtsp => false,
        };
        Probe::begin(self.probe_pipeline(), missing)
    }
}

} // verus!
