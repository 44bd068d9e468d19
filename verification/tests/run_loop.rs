use dart::config::{SourceConfig, SourceType};
use dart::fallback::FallbackFrame;
use dart::rtsp::{gate_frames, FrameData};
use dart::sources::execution::{ExecCommand, ExecReport, Execution};
use dart::sources::probe::{ProbeCommand, ProbeReport};
use dart::sources::{BusEvent, RunAction, RunPhase, Source, SourceState};
use std::collections::VecDeque;

/// What happens at one look at the bus of a running pipeline.
enum Look {
    /// The bus brings this.
    Bus(Option<BusEvent>),
    /// The owner stops the source, and the bus brings nothing.
    Stop,
}

/// A media engine that plays back what it was told to do.
struct Engine {
    /// For each execution, in order: whether the pipeline can be built, and
    /// what happens at each look at its bus. A bus that runs dry ends the
    /// stream.
    executions: VecDeque<(bool, Vec<Look>)>,
    /// For each probe, in order: what its bus brings, look by look.
    probes: VecDeque<Vec<Option<BusEvent>>>,
    /// Samples that the pipeline hands over at each look at its bus.
    frames: Vec<FrameData>,
    log: Vec<String>,
    held: usize,
}

impl Engine {
    fn new() -> Self {
        Engine {
            executions: VecDeque::new(),
            probes: VecDeque::new(),
            frames: Vec::new(),
            log: Vec::new(),
            held: 0,
        }
    }

    fn say(&mut self, what: &str) {
        self.log.push(what.to_string());
    }
}

fn remote(fallback: bool) -> Source {
    let config = SourceConfig {
        name: "door".to_string(),
        source_type: SourceType::Rtsp,
        device: None,
        width: None,
        height: None,
        framerate: None,
        format: None,
        url: Some("rtsp://cam/1".to_string()),
        username: None,
        password: None,
        latency: None,
        transcode: false,
        encode: None,
        auth: None,
        fallback: if fallback { Some("offline.png".to_string()) } else { None },
        reconnect_interval: 10,
    };
    let frame = if fallback { Some(FallbackFrame { data: vec![0xFB] }) } else { None };
    Source::new(config, frame, false)
}

fn execute(source: &mut Source, engine: &mut Engine) -> bool {
    let (buildable, mut bus) = match engine.executions.pop_front() {
        Some((buildable, looks)) => (buildable, VecDeque::from(looks)),
        None => (false, VecDeque::new()),
    };
    let (mut execution, mut command) = Execution::begin(source.describe_pipeline());
    loop {
        let report = match command {
            ExecCommand::Launch(_) => {
                if buildable {
                    engine.held += 1;
                    engine.say("launch");
                    ExecReport::Done
                } else {
                    engine.say("launch failed");
                    ExecReport::Failed("cannot build".to_string())
                }
            }
            ExecCommand::Attach => ExecReport::Done,
            ExecCommand::Play => {
                engine.say("play");
                ExecReport::Done
            }
            ExecCommand::Watch { .. } => {
                // While the bus is watched the pipeline hands over a sample.
                if let Some(frame) = source.live_frame(vec![0x11], false) {
                    engine.frames.push(frame);
                }
                match bus.pop_front() {
                    Some(Look::Bus(event)) => ExecReport::Bus(event),
                    Some(Look::Stop) => {
                        source.stop();
                        engine.say("stop");
                        ExecReport::Bus(None)
                    }
                    None => ExecReport::Bus(Some(BusEvent::Eos)),
                }
            }
            ExecCommand::Teardown => {
                engine.held -= 1;
                engine.say("teardown");
                ExecReport::Done
            }
            ExecCommand::Return(result) => {
                assert_eq!(engine.held, 0, "the pipeline was not released");
                engine.say(if result.is_ok() { "ended" } else { "failed" });
                return result.is_ok();
            }
        };
        assert_eq!(source.phase(), RunPhase::Executing);
        assert!(execution.expects(&report));
        command = source.drive(&mut execution, report);
    }
}

fn probe(source: &mut Source, engine: &mut Engine) -> bool {
    let mut bus = VecDeque::from(engine.probes.pop_front().unwrap_or_default());
    let (mut probe, mut command) = source.begin_probe(true);
    loop {
        let report = match command {
            ProbeCommand::Launch(_) => {
                engine.held += 1;
                ProbeReport::Done
            }
            ProbeCommand::Pause => ProbeReport::Done,
            ProbeCommand::Look { .. } => ProbeReport::Bus(bus.pop_front().unwrap_or(None)),
            ProbeCommand::Teardown => {
                engine.held -= 1;
                ProbeReport::Done
            }
            ProbeCommand::Answer(available) => {
                assert_eq!(engine.held, 0, "the probe pipeline was not released");
                engine.say(if available { "probe: yes" } else { "probe: no" });
                return available;
            }
        };
        assert!(probe.expects(&report));
        command = probe.report(report);
    }
}

/// Runs the loop of `source` until it leaves, or until `steps` reports
/// were made, after which the source is stopped.
fn run(source: &mut Source, engine: &mut Engine, steps: usize) {
    let mut action = source.begin();
    let mut made = 0;
    loop {
        if made == steps {
            source.stop();
            engine.say("stop");
        }
        made += 1;
        action = match action {
            RunAction::Execute => {
                let ok = execute(source, engine);
                source.pipeline_ended(ok)
            }
            RunAction::EnterStandby => {
                engine.say("standby");
                source.poll()
            }
            RunAction::Retry => {
                engine.say("retry");
                source.poll()
            }
            RunAction::Probe { .. } => {
                // The emitter ticks while the run loop sleeps.
                if let Some(tick) = source.standby_frame() {
                    engine.frames.push(tick.frame);
                }
                let available = probe(source, engine);
                source.probed(available)
            }
            RunAction::Exit => {
                engine.say("exit");
                break;
            }
        };
    }
}

fn paused() -> Option<BusEvent> {
    Some(BusEvent::StateChanged { paused: true })
}

#[test]
fn failure_standby_and_reconnect_on_the_third_probe() {
    let mut source = remote(true);
    let mut engine = Engine::new();
    // The first pipeline fails at once; the second one plays until it is stopped.
    engine.executions.push_back((false, Vec::new()));
    engine.executions.push_back((true, vec![Look::Bus(None), Look::Bus(None), Look::Stop]));
    // The source is back at the third probe.
    engine.probes.push_back(vec![None, Some(BusEvent::Error("no route".to_string()))]);
    engine.probes.push_back(Vec::new());
    engine.probes.push_back(vec![None, paused()]);

    source.start();
    assert_eq!(source.state(), SourceState::Live);
    run(&mut source, &mut engine, usize::MAX);

    assert_eq!(engine.log, vec![
        "launch failed",
        "failed",
        "standby",
        "probe: no",
        "probe: no",
        "probe: yes",
        "launch",
        "play",
        "stop",
        "teardown",
        "ended",
        "exit",
    ]);
    assert_eq!(source.state(), SourceState::Stopped);
    assert_eq!(source.phase(), RunPhase::Finished);
    // One placeholder frame for each tick in standby, all of them keyframes.
    let placeholders: Vec<&FrameData> =
        engine.frames.iter().filter(|f| f.data == vec![0xFB]).collect();
    assert_eq!(placeholders.len(), 3);
    assert!(placeholders.iter().all(|f| f.is_keyframe));
}

#[test]
fn live_frames_follow_the_placeholder() {
    let mut source = remote(true);
    let mut engine = Engine::new();
    engine.executions.push_back((
        true,
        vec![Look::Bus(Some(BusEvent::Error("lost".to_string())))],
    ));
    engine.executions.push_back((
        true,
        vec![Look::Bus(None), Look::Bus(None), Look::Bus(Some(BusEvent::Eos))],
    ));
    engine.probes.push_back(vec![paused()]);

    source.start();
    run(&mut source, &mut engine, 5);

    let tags: Vec<u8> = engine.frames.iter().map(|f| f.data[0]).collect();
    // Live, then the placeholder during standby, then live again.
    assert_eq!(tags, vec![0x11, 0xFB, 0x11, 0x11, 0x11]);
    // A client that was attached all along is sent all of it, in order.
    let sent = gate_frames(engine.frames);
    assert_eq!(sent.len(), 5);
    assert_eq!(engine.log, vec![
        "launch",
        "play",
        "teardown",
        "failed",
        "standby",
        "probe: yes",
        "launch",
        "play",
        "teardown",
        "ended",
        // The emitter has not ticked since the pipeline played: it goes on.
        "retry",
        "stop",
        "probe: no",
        "exit",
    ]);
}

#[test]
fn source_without_placeholder_probes_until_stopped() {
    let mut source = remote(false);
    let mut engine = Engine::new();
    engine.executions.push_back((true, vec![Look::Bus(Some(BusEvent::Eos))]));

    source.start();
    run(&mut source, &mut engine, 5);

    assert_eq!(engine.log, vec![
        "launch",
        "play",
        "teardown",
        "ended",
        "retry",
        "probe: no",
        "probe: no",
        "probe: no",
        "stop",
        "probe: no",
        "exit",
    ]);
    assert!(engine.frames.iter().all(|f| f.data == vec![0x11]));
    assert_eq!(source.state(), SourceState::Stopped);
}
