use dart::config::{SourceConfig, SourceType};
use dart::fallback::FallbackFrame;
use dart::rtsp::{gate_frames, FrameData, FramePusher, PushDecision};
use dart::sources::probe::{probe_verdict, ProbeStep, Prober};
use dart::sources::{on_bus_event, BusEvent, RunAction, RunPhase, Source, SourceState, Watch};

fn remote_config() -> SourceConfig {
    SourceConfig {
        name: "door".to_string(),
        source_type: SourceType::Rtsp,
        device: None,
        width: None,
        height: None,
        framerate: None,
        format: None,
        url: Some("rtsp://cam/1".to_string()),
        username: None,
        password: None,
        latency: None,
        transcode: false,
        encode: None,
        auth: None,
        fallback: Some("offline.png".to_string()),
        reconnect_interval: 10,
    }
}

fn capture_config() -> SourceConfig {
    SourceConfig {
        name: "cam1".to_string(),
        source_type: SourceType::V4l2,
        device: Some("/dev/video0".to_string()),
        width: None,
        height: None,
        framerate: None,
        format: None,
        url: None,
        username: None,
        password: None,
        latency: None,
        transcode: false,
        encode: None,
        auth: None,
        fallback: None,
        reconnect_interval: 10,
    }
}

fn placeholder() -> FallbackFrame {
    FallbackFrame { data: vec![0, 0, 0, 1, 0x67, 42] }
}

fn key(tag: u8) -> FrameData {
    FrameData { data: vec![tag], is_keyframe: true }
}

fn delta(tag: u8) -> FrameData {
    FrameData { data: vec![tag], is_keyframe: false }
}

fn tags(frames: &[FrameData]) -> Vec<(u8, bool)> {
    frames.iter().map(|f| (f.data[0], f.is_keyframe)).collect()
}

#[test]
fn keyframe_gating_drops_leading_deltas_only() {
    let sent = gate_frames(vec![delta(1), delta(2), key(3), delta(4), key(5), delta(6)]);
    assert_eq!(tags(&sent), vec![(3, true), (4, false), (5, true), (6, false)]);
}

#[test]
fn keyframe_gating_edge_cases() {
    assert!(gate_frames(Vec::new()).is_empty());
    assert!(gate_frames(vec![delta(1), delta(2)]).is_empty());
    assert_eq!(tags(&gate_frames(vec![key(1)])), vec![(1, true)]);
    assert_eq!(tags(&gate_frames(vec![key(1), delta(2)])), vec![(1, true), (2, false)]);
    assert_eq!(tags(&gate_frames(vec![delta(1), key(2)])), vec![(2, true)]);
}

#[test]
fn frame_pusher_marks_deltas_and_counts() {
    let mut pusher = FramePusher::new();
    assert!(pusher.is_waiting());
    assert_eq!(pusher.offer(&delta(1)), PushDecision::Discard);
    assert!(pusher.is_waiting());
    assert_eq!(pusher.offer(&key(2)), PushDecision::Push { delta_unit: false });
    assert!(!pusher.is_waiting());
    assert_eq!(pusher.offer(&delta(3)), PushDecision::Push { delta_unit: true });
    assert_eq!(pusher.offer(&key(4)), PushDecision::Push { delta_unit: false });
    assert_eq!(pusher.frame_count(), 0);
    for n in 1..=600u64 {
        let report = pusher.pushed();
        assert_eq!(report, n == 300 || n == 600);
        assert_eq!(pusher.frame_count(), n);
    }
}

#[test]
fn new_source_is_stopped_and_idle() {
    let source = Source::new(remote_config(), Some(placeholder()), false);
    assert_eq!(source.name(), "door");
    assert_eq!(source.state(), SourceState::Stopped);
    assert_eq!(source.phase(), RunPhase::Idle);
    assert!(!source.is_running());
    assert!(source.can_start());
    assert!(source.has_standby());
    assert!(!Source::new(remote_config(), None, false).has_standby());
    assert!(!Source::new(capture_config(), Some(placeholder()), false).has_standby());
}

#[test]
fn end_to_end_failure_standby_reconnect() {
    let mut source = Source::new(remote_config(), Some(placeholder()), false);
    source.start();
    assert_eq!(source.state(), SourceState::Live);
    assert!(source.is_running());
    assert!(!source.can_start());
    assert_eq!(source.begin(), RunAction::Execute);
    assert_eq!(source.phase(), RunPhase::Executing);

    // The pipeline fails at once.
    assert_eq!(source.pipeline_ended(false), RunAction::EnterStandby);
    assert_eq!(source.state(), SourceState::Fallback);
    let tick = source.standby_frame().unwrap();
    assert!(tick.frame.is_keyframe);
    assert_eq!(tick.frame.data, placeholder().data);
    assert_eq!(tick.wait_secs, 1);
    assert!(!source.forwards_live());

    // The prober says yes on its third call.
    assert_eq!(source.poll(), RunAction::Probe { sleep_secs: 2 });
    assert_eq!(source.probed(false), RunAction::Probe { sleep_secs: 2 });
    assert_eq!(source.state(), SourceState::Fallback);
    assert_eq!(source.probed(false), RunAction::Probe { sleep_secs: 2 });
    assert_eq!(source.phase(), RunPhase::Probing);
    assert_eq!(source.probed(true), RunAction::Execute);
    assert_eq!(source.phase(), RunPhase::Executing);

    // Until the new pipeline plays, the placeholder is still shown.
    assert_eq!(source.state(), SourceState::Fallback);
    assert!(source.standby_frame().is_some());
    assert!(source.live_frame(vec![1], false).is_none());
    source.pipeline_started();
    assert_eq!(source.state(), SourceState::Live);
    assert!(source.standby_frame().is_none());
    assert!(source.forwards_live());
}

#[test]
fn reconnects_only_after_the_first_successful_probe() {
    for n in 0..5 {
        let mut source = Source::new(remote_config(), None, false);
        source.start();
        assert_eq!(source.begin(), RunAction::Execute);
        assert_eq!(source.pipeline_ended(true), RunAction::Retry);
        assert_eq!(source.poll(), RunAction::Probe { sleep_secs: 2 });
        for _ in 0..n {
            assert_eq!(source.probed(false), RunAction::Probe { sleep_secs: 2 });
            assert_eq!(source.phase(), RunPhase::Probing);
        }
        assert_eq!(source.probed(true), RunAction::Execute);
        assert_eq!(source.phase(), RunPhase::Executing);
    }
}

#[test]
fn source_without_placeholder_retries_without_standby() {
    let mut source = Source::new(capture_config(), None, false);
    source.start();
    assert_eq!(source.begin(), RunAction::Execute);
    source.pipeline_started();
    assert_eq!(source.pipeline_ended(false), RunAction::Retry);
    assert_eq!(source.state(), SourceState::Live);
    assert_eq!(source.phase(), RunPhase::Waiting);
    assert!(source.standby_frame().is_none());

    // A capture source never shows a placeholder, even when given one.
    let mut source = Source::new(capture_config(), Some(placeholder()), true);
    source.start();
    assert_eq!(source.begin(), RunAction::Execute);
    assert_eq!(source.pipeline_ended(true), RunAction::Retry);
    assert!(source.standby_frame().is_none());
}

#[test]
fn stop_ends_the_run_loop_at_its_next_report() {
    // Stopped before the loop begins.
    let mut source = Source::new(remote_config(), Some(placeholder()), false);
    source.start();
    source.stop();
    assert_eq!(source.state(), SourceState::Stopped);
    assert_eq!(source.begin(), RunAction::Exit);
    assert_eq!(source.phase(), RunPhase::Finished);
    assert!(source.can_start());

    // Stopped while the pipeline runs: it returns in good order.
    let mut source = Source::new(remote_config(), Some(placeholder()), false);
    source.start();
    source.begin();
    source.pipeline_started();
    source.stop();
    assert!(source.live_frame(vec![1], false).is_none());
    assert_eq!(source.pipeline_ended(true), RunAction::Exit);
    assert_eq!(source.state(), SourceState::Stopped);

    // Stopped while the pipeline runs, and the pipeline fails.
    let mut source = Source::new(remote_config(), Some(placeholder()), false);
    source.start();
    source.begin();
    source.stop();
    assert_eq!(source.pipeline_ended(false), RunAction::EnterStandby);
    assert!(source.standby_frame().is_none());
    assert_eq!(source.poll(), RunAction::Exit);
    assert_eq!(source.state(), SourceState::Stopped);
    assert_eq!(source.phase(), RunPhase::Finished);

    // Stopped during the poll.
    let mut source = Source::new(remote_config(), Some(placeholder()), false);
    source.start();
    source.begin();
    source.pipeline_ended(false);
    source.poll();
    assert!(source.standby_frame().is_some());
    source.stop();
    assert!(source.standby_frame().is_none());
    assert_eq!(source.probed(true), RunAction::Exit);
    assert_eq!(source.phase(), RunPhase::Finished);
}

#[test]
fn live_frames_carry_payload_and_keyframe_marker() {
    let mut source = Source::new(remote_config(), None, false);
    assert!(source.live_frame(vec![9], false).is_none());
    source.start();
    source.begin();
    source.pipeline_started();
    let frame = source.live_frame(vec![1, 2, 3], false).unwrap();
    assert_eq!(frame.data, vec![1, 2, 3]);
    assert!(frame.is_keyframe);
    let frame = source.live_frame(vec![4], true).unwrap();
    assert_eq!(frame.data, vec![4]);
    assert!(!frame.is_keyframe);
}

#[test]
fn source_describes_its_pipelines() {
    let source = Source::new(remote_config(), None, false);
    assert_eq!(
        source.describe_pipeline().unwrap(),
        "rtspsrc location=\"rtsp://cam/1\" latency=200 ! rtph264depay ! h264parse \
         ! video/x-h264,stream-format=byte-stream,alignment=au \
         ! appsink name=sink emit-signals=true sync=false"
    );
    assert_eq!(
        source.probe_pipeline().unwrap(),
        "rtspsrc location=\"rtsp://cam/1\" latency=0 timeout=2000000 ! fakesink"
    );
    let source = Source::new(capture_config(), None, true);
    assert_eq!(source.probe_pipeline().unwrap(), "v4l2src device=/dev/video0 ! fakesink");
    assert!(source.describe_pipeline().unwrap().starts_with("v4l2src device=/dev/video0 ! "));
}

#[test]
fn bus_events_of_a_running_pipeline() {
    assert!(matches!(on_bus_event(None), Watch::Continue));
    assert!(matches!(on_bus_event(Some(BusEvent::Other)), Watch::Continue));
    assert!(matches!(on_bus_event(Some(BusEvent::Warning("w".to_string()))), Watch::Continue));
    assert!(matches!(
        on_bus_event(Some(BusEvent::StateChanged { paused: true })),
        Watch::Continue
    ));
    assert!(matches!(on_bus_event(Some(BusEvent::Eos)), Watch::Ended));
    match on_bus_event(Some(BusEvent::Error("no route (None)".to_string()))) {
        Watch::Failed(text) => assert_eq!(text, "Pipeline error: no route (None)"),
        other => panic!("unexpected {:?}", other),
    }
}

fn paused() -> Option<BusEvent> {
    Some(BusEvent::StateChanged { paused: true })
}

fn failed() -> Option<BusEvent> {
    Some(BusEvent::Error("e".to_string()))
}

#[test]
fn probe_answers() {
    assert!(!probe_verdict(Vec::new()));
    assert!(probe_verdict(vec![paused()]));
    assert!(!probe_verdict(vec![failed()]));
    assert!(probe_verdict(vec![None, Some(BusEvent::Other), paused(), failed()]));
    assert!(!probe_verdict(vec![None, failed(), paused()]));
    assert!(!probe_verdict(vec![Some(BusEvent::StateChanged { paused: false }), None]));
    assert!(!probe_verdict(vec![Some(BusEvent::Eos), Some(BusEvent::Warning("w".to_string()))]));
}

#[test]
fn probe_takes_twenty_looks_at_most() {
    let mut looks: Vec<Option<BusEvent>> = (0..19).map(|_| None).collect();
    looks.push(paused());
    assert!(probe_verdict(looks));
    let mut looks: Vec<Option<BusEvent>> = (0..20).map(|_| None).collect();
    looks.push(paused());
    assert!(!probe_verdict(looks));

    let mut prober = Prober::new();
    for _ in 0..19 {
        assert_eq!(prober.look(None), ProbeStep::Continue);
    }
    assert_eq!(prober.look(None), ProbeStep::Done(false));
    assert_eq!(prober.look(paused()), ProbeStep::Done(false));

    let mut prober = Prober::new();
    assert_eq!(prober.look(Some(BusEvent::Other)), ProbeStep::Continue);
    assert_eq!(prober.look(paused()), ProbeStep::Done(true));
    let mut prober = Prober::new();
    assert_eq!(prober.look(failed()), ProbeStep::Done(false));
}
