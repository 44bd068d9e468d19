//! Sources: the pipelines that feed them and the supervision of their
//! lifecycle.

pub mod execution;
pub mod probe;
pub mod rtsp;
pub mod supervision;
pub mod v4l2;

use crate::config::{EncodeConfig, EncodeSettings, SourceConfig, SourceType};
use crate::fallback::FallbackFrame;
use crate::rtsp::FrameData;
use crate::text::{decimal, push_decimal, push_text};
use supervision::{SourceEvent, Supervision};
use vstd::prelude::*;
use vstd::string::*;

verus! {

/// Why no pipeline can be described for a source.
#[derive(Debug, Clone, Copy, PartialEq, Eq, Structural)]
pub enum PipelineError {
    /// A remote source without a URL.
    MissingUrl,
    /// A capture source without a device.
    MissingDevice,
}

impl PipelineError {
    pub open spec fn message_text(self) -> Seq<char> {
        match self {
            PipelineError::MissingUrl => "RTSP source requires 'url'"@,
            PipelineError::MissingDevice => "V4L2 source requires 'device'"@,
        }
    }

    /// Writes this error out.
    pub fn message(&self) -> (text: String)
        ensures
            text@ == self.message_text(),
    {
        match self {
            PipelineError::MissingUrl => String::from_str("RTSP source requires 'url'"),
            PipelineError::MissingDevice => String::from_str("V4L2 source requires 'device'"),
        }
    }
}

/// What the message bus of a pipeline reports.
#[derive(Debug)]
pub enum BusEvent {
    /// The pipeline failed, for the cause given.
    Error(String),
    /// The stream has ended.
    Eos,
    /// The pipeline warns, for the cause given, and goes on.
    Warning(String),
    /// An element changed state; `paused` says that it is now paused, that
    /// is connected and negotiated.
    StateChanged { paused: bool },
    /// Anything else.
    Other,
}

/// The software encoder with the settings `encode`; the bitrate is in kbps.
pub open spec fn encoder_string(encode: EncodeSettings) -> Seq<char> {
    "videoconvert ! x264enc bitrate="@ + decimal(encode.bitrate) + " key-int-max="@ + decimal(
        encode.keyframe_interval,
    ) + " speed-preset="@ + encode.preset + " tune="@ + encode.tune
}

/// The hardware H.265 encoder with the settings `encode`; it takes its
/// bitrate in bits per second, a thousand times the configured kbps.
pub open spec fn mpp_h265_encoder_string(encode: EncodeSettings) -> Seq<char> {
    "mpph265enc bps="@ + decimal(encode.bitrate * 1000) + " gop="@ + decimal(
        encode.keyframe_interval,
    )
}

/// The sink that hands encoded frames to this crate.
pub open spec fn appsink_text() -> Seq<char> {
    "appsink name=sink emit-signals=true sync=false"@
}

/// The caps of an H.264 byte stream, one access unit per buffer.
pub open spec fn h264_caps_text() -> Seq<char> {
    "video/x-h264,stream-format=byte-stream,alignment=au"@
}

/// The caps of an H.265 byte stream, one access unit per buffer.
pub open spec fn h265_caps_text() -> Seq<char> {
    "video/x-h265,stream-format=byte-stream,alignment=au"@
}

/// Build encoder pipeline string.
pub fn build_encoder_string(encode: &EncodeConfig) -> (text: String)
    ensures
        text@ == encoder_string(encode@),
{
    let mut text = String::from_str("videoconvert ! x264enc bitrate=");
    push_decimal(&mut text, encode.bitrate as u64);
    push_text(&mut text, " key-int-max=");
    push_decimal(&mut text, encode.keyframe_interval as u64);
    push_text(&mut text, " speed-preset=");
    push_text(&mut text, encode.preset.as_str());
    push_text(&mut text, " tune=");
    push_text(&mut text, encode.tune.as_str());
    text
}

/// Common appsink configuration.
pub fn appsink_config() -> (text: &'static str)
    ensures
        text@ == appsink_text(),
{
    "appsink name=sink emit-signals=true sync=false"
}

/// H.264 output caps.
pub fn h264_caps() -> (text: &'static str)
    ensures
        text@ == h264_caps_text(),
{
    "video/x-h264,stream-format=byte-stream,alignment=au"
}

/// H.265 output caps.
pub fn h265_caps() -> (text: &'static str)
    ensures
        text@ == h265_caps_text(),
{
    "video/x-h265,stream-format=byte-stream,alignment=au"
}

/// Build MPP H.265 encoder pipeline string.
pub fn build_mpp_h265_encoder_string(encode: &EncodeConfig) -> (text: String)
    ensures
        text@ == mpp_h265_encoder_string(encode@),
{
    let bps: u64 = encode.bitrate as u64 * 1000;
    let mut text = String::from_str("mpph265enc bps=");
    push_decimal(&mut text, bps);
    push_text(&mut text, " gop=");
    push_decimal(&mut text, encode.keyframe_interval as u64);
    text
}

/// Source state.
#[derive(Debug, Clone, Copy, PartialEq, Eq, Structural)]
pub enum SourceState {
    /// Streaming live from source.
    Live,
    /// Source disconnected, showing fallback.
    Fallback,
    /// Stopped.
    Stopped,
}

/// Where the run loop of a source stands.
#[derive(Debug, Clone, Copy, PartialEq, Eq, Structural)]
pub enum RunPhase {
    /// No run loop has been started yet.
    Idle,
    /// The run loop was started and is about to look at the running flag.
    Ready,
    /// The pipeline is being built or runs.
    Executing,
    /// The pipeline has returned; the reconnection poll is about to begin.
    Waiting,
    /// The run loop sleeps or probes.
    Probing,
    /// The run loop has ended.
    Finished,
}

/// What the run loop has to do next.
#[derive(Debug, Clone, Copy, PartialEq, Eq, Structural)]
pub enum RunAction {
    /// Build the pipeline and run it until it ends; report how it ended.
    Execute,
    /// Start a standby emitter, then poll.
    EnterStandby,
    /// Poll, and start no standby emitter: the source has no placeholder,
    /// or an emitter is at work already.
    Retry,
    /// Sleep for `sleep_secs` seconds, probe the source, report what the
    /// probe found.
    Probe { sleep_secs: u64 },
    /// Leave the run loop.
    Exit,
}

/// Seconds that the run loop sleeps before each probe.
pub const FAST_POLL_INTERVAL_SECS: u64 = 2;

/// Seconds between two frames of a standby emitter.
pub const STANDBY_INTERVAL_SECS: u64 = 1;

/// Milliseconds that one look at the bus of a running pipeline waits.
pub const BUS_WAIT_MS: u64 = 500;

/// What a standby emitter sends at one tick, and how long it waits before
/// its next tick.
#[derive(Debug)]
pub struct StandbyTick {
    pub frame: FrameData,
    pub wait_secs: u64,
}

/// One source under supervision: its configuration, its placeholder, and
/// where its lifecycle stands.
pub struct Source {
    name: String,
    config: SourceConfig,
    fallback: Option<FallbackFrame>,
    state: SourceState,
    running: bool,
    phase: RunPhase,
    emitter: bool,
    mpp: bool,
}

impl View for Source {
    type V = Supervision;

    closed spec fn view(&self) -> Supervision {
        Supervision {
            state: self.state,
            running: self.running,
            phase: self.phase,
            emitters: if self.emitter {
                1
            } else {
                0
            },
            standby: self.config.source_type is Rtsp && self.fallback is Some,
        }
    }
}

impl Source {
    #[verifier::type_invariant]
    spec fn well_formed(&self) -> bool {
        self@.inv() && self.name@ == self.config.name@
    }

    /// The configuration that the source was made from.
    pub closed spec fn settings(&self) -> SourceConfig {
        self.config
    }

    /// The placeholder that the source was given.
    pub closed spec fn placeholder(&self) -> Option<FallbackFrame> {
        self.fallback
    }

    /// Whether the source was told that the hardware encoder is present.
    pub closed spec fn hardware(&self) -> bool {
        self.mpp
    }

    /// Whether the source has a placeholder to show: it is a remote source
    /// and was given one. What holds of every supervision holds of the
    /// source at any time.
    pub fn has_standby(&self) -> (standby: bool)
        ensures
            standby == self@.standby,
            standby == (self.settings().source_type is Rtsp && self.placeholder() is Some),
            self@.inv(),
    {
        proof {
            use_type_invariant(self);
        }
        self.config.source_type == SourceType::Rtsp && self.fallback.is_some()
    }

    /// Create a new source from configuration: stopped, with no run loop.
    pub fn new(config: SourceConfig, fallback: Option<FallbackFrame>, mpp: bool) -> (source: Self)
        ensures
            source.settings() == config,
            source.placeholder() == fallback,
            source.hardware() == mpp,
            source@ == Supervision::initial(config.source_type is Rtsp && fallback is Some),
    {
        Source {
            name: config.name.clone(),
            config,
            fallback,
            state: SourceState::Stopped,
            running: false,
            phase: RunPhase::Idle,
            emitter: false,
            mpp,
        }
    }

    /// Get source name.
    pub fn name(&self) -> (name: &str)
        ensures
            name@ == self.settings().name@,
    {
        proof {
            use_type_invariant(self);
        }
        self.name.as_str()
    }

    /// The kind of this source.
    pub fn kind(&self) -> (kind: SourceType)
        ensures
            kind == self.settings().source_type,
    {
        self.config.source_type
    }

    /// The device of this source, where one is set.
    pub fn device(&self) -> (device: &Option<String>)
        ensures
            *device == self.settings().device,
    {
        &self.config.device
    }

    /// Get current state.
    pub fn state(&self) -> (state: SourceState)
        ensures
            state == self@.state,
    {
        self.state
    }

    /// Where the run loop stands.
    pub fn phase(&self) -> (phase: RunPhase)
        ensures
            phase == self@.phase,
    {
        self.phase
    }

    /// Whether the source is meant to run. Every waiting loop looks at this
    /// before it waits again.
    pub fn is_running(&self) -> (running: bool)
        ensures
            running == self@.running,
    {
        self.running
    }

    /// Whether `start` may be called: no run loop is under way.
    pub fn can_start(&self) -> (ok: bool)
        ensures
            ok == self@.enabled(SourceEvent::Start),
    {
        self.phase == RunPhase::Idle || self.phase == RunPhase::Finished
    }

    /// Start the source: it is live and running, and its run loop is to
    /// begin. Not for a source whose run loop is under way.
    pub fn start(&mut self)
        requires
            old(self)@.enabled(SourceEvent::Start),
        ensures
            final(self)@ == old(self)@.step(SourceEvent::Start),
            final(self).settings() == old(self).settings(),
            final(self).placeholder() == old(self).placeholder(),
            final(self).hardware() == old(self).hardware(),
    {
        proof {
            use_type_invariant(&*self);
        }
        self.phase = RunPhase::Ready;
        self.running = true;
        self.state = SourceState::Live;
    }

    /// Stop the source: the running flag is cleared and the state is
    /// `Stopped`. The run loop ends at its next report.
    pub fn stop(&mut self)
        ensures
            final(self)@ == old(self)@.step(SourceEvent::Stop),
            final(self).settings() == old(self).settings(),
            final(self).placeholder() == old(self).placeholder(),
            final(self).hardware() == old(self).hardware(),
    {
        proof {
            use_type_invariant(&*self);
        }
        self.running = false;
        self.state = SourceState::Stopped;
    }

    fn finish(&mut self)
        requires
            !old(self)@.running,
        ensures
            final(self)@ == old(self)@.ended(),
            final(self).settings() == old(self).settings(),
            final(self).placeholder() == old(self).placeholder(),
            final(self).hardware() == old(self).hardware(),
    {
        proof {
            use_type_invariant(&*self);
        }
        self.state = SourceState::Stopped;
        self.phase = RunPhase::Finished;
    }

    /// The head of the run loop: a running source goes to its pipeline, a
    /// stopped one leaves.
    pub fn begin(&mut self) -> (action: RunAction)
        requires
            old(self)@.enabled(SourceEvent::Begin),
        ensures
            final(self)@ == old(self)@.step(SourceEvent::Begin),
            Some(action) == old(self)@.action(SourceEvent::Begin),
            final(self).settings() == old(self).settings(),
            final(self).placeholder() == old(self).placeholder(),
            final(self).hardware() == old(self).hardware(),
    {
        proof {
            use_type_invariant(&*self);
        }
        if self.running {
            self.phase = RunPhase::Executing;
            RunAction::Execute
        } else {
            self.finish();
            RunAction::Exit
        }
    }

    /// The pipeline has reached the playing state: the source is live.
    pub fn pipeline_started(&mut self)
        requires
            old(self)@.enabled(SourceEvent::PipelineStarted),
        ensures
            final(self)@ == old(self)@.step(SourceEvent::PipelineStarted),
            final(self).settings() == old(self).settings(),
            final(self).placeholder() == old(self).placeholder(),
            final(self).hardware() == old(self).hardware(),
    {
        proof {
            use_type_invariant(&*self);
        }
        self.state = SourceState::Live;
    }

    /// The pipeline execution has returned, with success (`ok`) or with an
    /// error. A source that ended in good order and is stopped leaves the run
    /// loop. Any other goes to the reconnection poll: with a placeholder it
    /// is in `Fallback` from now on, and a standby emitter is to be started
    /// unless one is at work already.
    pub fn pipeline_ended(&mut self, ok: bool) -> (action: RunAction)
        requires
            old(self)@.enabled(SourceEvent::PipelineEnded { ok }),
        ensures
            final(self)@ == old(self)@.step(SourceEvent::PipelineEnded { ok }),
            Some(action) == old(self)@.action(SourceEvent::PipelineEnded { ok }),
            final(self).settings() == old(self).settings(),
            final(self).placeholder() == old(self).placeholder(),
            final(self).hardware() == old(self).hardware(),
    {
        proof {
            use_type_invariant(&*self);
        }
        if ok && !self.running {
            self.finish();
            return RunAction::Exit;
        }
        if self.config.source_type == SourceType::Rtsp && self.fallback.is_some() {
            self.phase = RunPhase::Waiting;
            self.state = SourceState::Fallback;
            if self.emitter {
                RunAction::Retry
            } else {
                self.emitter = true;
                RunAction::EnterStandby
            }
        } else {
            self.phase = RunPhase::Waiting;
            RunAction::Retry
        }
    }

    /// The run loop enters the reconnection poll: a running source sleeps
    /// and probes, a stopped one leaves.
    pub fn poll(&mut self) -> (action: RunAction)
        requires
            old(self)@.enabled(SourceEvent::Poll),
        ensures
            final(self)@ == old(self)@.step(SourceEvent::Poll),
            Some(action) == old(self)@.action(SourceEvent::Poll),
            final(self).settings() == old(self).settings(),
            final(self).placeholder() == old(self).placeholder(),
            final(self).hardware() == old(self).hardware(),
    {
        proof {
            use_type_invariant(&*self);
        }
        if self.running {
            self.phase = RunPhase::Probing;
            RunAction::Probe { sleep_secs: FAST_POLL_INTERVAL_SECS }
        } else {
            self.finish();
            RunAction::Exit
        }
    }

    /// A probe has returned. A stopped source leaves the run loop; a source
    /// that is available goes back to its pipeline; any other sleeps and
    /// probes again.
    pub fn probed(&mut self, available: bool) -> (action: RunAction)
        requires
            old(self)@.enabled(SourceEvent::Probed { available }),
        ensures
            final(self)@ == old(self)@.step(SourceEvent::Probed { available }),
            Some(action) == old(self)@.action(SourceEvent::Probed { available }),
            final(self).settings() == old(self).settings(),
            final(self).placeholder() == old(self).placeholder(),
            final(self).hardware() == old(self).hardware(),
    {
        proof {
            use_type_invariant(&*self);
        }
        if !self.running {
            self.finish();
            RunAction::Exit
        } else if available {
            self.phase = RunPhase::Executing;
            RunAction::Execute
        } else {
            RunAction::Probe { sleep_secs: FAST_POLL_INTERVAL_SECS }
        }
    }
}

impl Source {
    /// Describes the pipeline of this source, by its kind.
    pub fn describe_pipeline(&self) -> (r: Result<String, PipelineError>)
        ensures
            self.settings().source_type is V4l2 && self.settings().device is None ==> r == Err::<
                String,
                PipelineError,
            >(PipelineError::MissingDevice),
            self.settings().source_type is V4l2 && self.settings().device is Some ==> r is Ok
                && r->Ok_0@ == v4l2::capture_pipeline_text(
                &self.settings(),
                self.settings().device->0@,
            ),
            self.settings().source_type is Rtsp && self.settings().url is None ==> r == Err::<
                String,
                PipelineError,
            >(PipelineError::MissingUrl),
            self.settings().source_type is Rtsp && self.settings().url is Some ==> r is Ok
                && r->Ok_0@ == rtsp::remote_pipeline_text(
                &self.settings(),
                self.settings().url->0@,
                self.hardware(),
            ),
    {
        match self.config.source_type {
            SourceType::V4l2 => v4l2::create_pipeline(&self.config),
            SourceType::Rtsp => rtsp::create_pipeline(&self.config, self.mpp),
        }
    }

    /// Describes the pipeline that probes this source, by its kind. A source
    /// that lacks its URL or its device has none, and counts as unavailable.
    pub fn probe_pipeline(&self) -> (r: Option<String>)
        ensures
            self.settings().source_type is V4l2 && self.settings().device is None ==> r is None,
            self.settings().source_type is V4l2 && self.settings().device is Some ==> r is Some
                && r->0@ == v4l2::probe_pipeline_text(
                &self.settings(),
                self.settings().device->0@,
            ),
            self.settings().source_type is Rtsp && self.settings().url is None ==> r is None,
            self.settings().source_type is Rtsp && self.settings().url is Some ==> r is Some
                && r->0@ == rtsp::probe_pipeline_text(&self.settings(), self.settings().url->0@),
    {
        match self.config.source_type {
            SourceType::V4l2 => v4l2::probe_pipeline(&self.config),
            SourceType::Rtsp => rtsp::probe_pipeline(&self.config),
        }
    }

    /// Whether frames of the pipeline are forwarded: only while the source
    /// is live.
    pub fn forwards_live(&self) -> (forwards: bool)
        ensures
            forwards == self@.state is Live,
            self@.phase is Executing ==> forwards == self@.live_producing(),
    {
        self.state == SourceState::Live
    }

    /// Makes a frame of a sample of the pipeline: `data` is its payload and
    /// `delta_unit` says that it is marked as depending on earlier frames.
    /// While the source is not live the sample is dropped.
    pub fn live_frame(&self, data: Vec<u8>, delta_unit: bool) -> (frame: Option<FrameData>)
        ensures
            frame is Some <==> self@.state is Live,
            frame is Some ==> frame->0.data == data && frame->0.is_keyframe == !delta_unit,
    {
        if self.state != SourceState::Live {
            return None;
        }
        Some(FrameData { data, is_keyframe: !delta_unit })
    }

    /// One tick of the standby emitter: the frame to send and the wait
    /// before the next tick, or nothing, which ends the emitter. A frame is
    /// due while the source runs and is in `Fallback`; it holds the
    /// placeholder and is a keyframe, and the next tick is one interval later.
    /// Without an emitter at work there is nothing to send.
    pub fn standby_frame(&mut self) -> (tick: Option<StandbyTick>)
        ensures
            final(self)@ == old(self)@.step(SourceEvent::EmitterTick),
            tick is Some <==> old(self)@.standby_producing(),
            tick is Some ==> old(self).placeholder() is Some && tick->0.frame.is_keyframe
                && tick->0.frame.data@ == old(self).placeholder()->0.data@ && tick->0.wait_secs
                == STANDBY_INTERVAL_SECS,
            final(self).settings() == old(self).settings(),
            final(self).placeholder() == old(self).placeholder(),
            final(self).hardware() == old(self).hardware(),
    {
        proof {
            use_type_invariant(&*self);
        }
        if !self.emitter {
            return None;
        }
        if self.running && self.state == SourceState::Fallback {
            match &self.fallback {
                Some(fallback) => {
                    let data = fallback.data.clone();
                    assert(data@ =~= fallback.data@);
                    return Some(
                        StandbyTick {
                            frame: FrameData { data, is_keyframe: true },
                            wait_secs: STANDBY_INTERVAL_SECS,
                        },
                    );
                },
                None => {},
            }
        }
        self.emitter = false;
        None
    }
}

/// What the watcher of a running pipeline does after a look at the bus.
#[derive(Debug)]
pub enum Watch {
    /// Look again, as long as the source runs.
    Continue,
    /// The stream has ended: the execution returns in good order.
    Ended,
    /// The pipeline failed: the execution returns this error.
    Failed(String),
}

/// A `Watch` as a plain value.
pub ghost enum WatchView {
    Continue,
    Ended,
    Failed(Seq<char>),
}

impl View for Watch {
    type V = WatchView;

    open spec fn view(&self) -> WatchView {
        match *self {
            Watch::Continue => WatchView::Continue,
            Watch::Ended => WatchView::Ended,
            Watch::Failed(text) => WatchView::Failed(text@),
        }
    }
}

/// The error of a pipeline that failed for `cause`.
pub open spec fn pipeline_error_text(cause: Seq<char>) -> Seq<char> {
    "Pipeline error: "@ + cause
}

/// What a look at the bus of a running pipeline means, where the look
/// brought `event`, or nothing within the wait: an error ends the execution
/// with a failure, the end of the stream ends it in good order, and a
/// warning, like anything else, does not end it.
pub open spec fn watch_of(event: Option<BusEvent>) -> WatchView {
    match event {
        Some(BusEvent::Error(cause)) => WatchView::Failed(pipeline_error_text(cause@)),
        Some(BusEvent::Eos) => WatchView::Ended,
        _ => WatchView::Continue,
    }
}

/// What the watcher of a running pipeline does after a look at the bus that
/// brought `event`, or nothing within the wait.
pub fn on_bus_event(event: Option<BusEvent>) -> (watch: Watch)
    ensures
        watch@ == watch_of(event),
{
    match event {
        Some(BusEvent::Error(cause)) => {
            let mut text = String::from_str("Pipeline error: ");
            push_text(&mut text, cause.as_str());
            Watch::Failed(text)
        },
        Some(BusEvent::Eos) => Watch::Ended,
        _ => Watch::Continue,
    }
}

} // verus!
