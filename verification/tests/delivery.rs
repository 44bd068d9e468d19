use dart::config::{OutputCodec, SourceConfig, SourceType};
use dart::fallback::FallbackFrame;
use dart::rtsp::{gate_frames, ChannelSlot, FrameData};
use dart::sources::{RunAction, Source, SourceState, STANDBY_INTERVAL_SECS};
use dart::startup::{check_started, plan_source, SourcePlan, StartupError};

fn source_config(kind: SourceType) -> SourceConfig {
    SourceConfig {
        name: "s".to_string(),
        source_type: kind,
        device: Some("/dev/video0".to_string()),
        width: None,
        height: None,
        framerate: None,
        format: None,
        url: Some("rtsp://cam/1".to_string()),
        username: None,
        password: None,
        latency: None,
        transcode: false,
        encode: None,
        auth: None,
        fallback: None,
        reconnect_interval: 10,
    }
}

#[test]
fn slot_holds_the_channel_of_the_latest_session() {
    let mut slot: ChannelSlot<&str> = ChannelSlot::new();
    assert_eq!(slot.handle(), None);
    assert_eq!(slot.session(), None);

    assert_eq!(slot.register("first"), (1, None));
    assert_eq!(slot.handle(), Some(&"first"));
    assert_eq!(slot.session(), Some(1));

    // A client reconnects: the new channel takes the place of the old one.
    assert_eq!(slot.register("second"), (2, Some("first")));
    assert_eq!(slot.handle(), Some(&"second"));

    // The first session ends late: the channel of the second one stays.
    assert_eq!(slot.release(1), None);
    assert_eq!(slot.handle(), Some(&"second"));
    assert_eq!(slot.release(2), Some("second"));
    assert_eq!(slot.handle(), None);
    assert_eq!(slot.release(2), None);

    assert_eq!(slot.register("third"), (3, None));
    assert_eq!(slot.session(), Some(3));
}

#[test]
fn standby_frames_are_keyframes_with_the_placeholder() {
    assert_eq!(STANDBY_INTERVAL_SECS, 1);
    let payload = vec![0, 0, 0, 1, 0x65, 7, 7, 7];
    let mut source = Source::new(
        source_config(SourceType::Rtsp),
        Some(FallbackFrame { data: payload.clone() }),
        false,
    );
    assert!(source.standby_frame().is_none());
    source.start();
    source.begin();
    assert!(source.standby_frame().is_none());
    source.pipeline_ended(false);
    let mut emitted = Vec::new();
    for _ in 0..5 {
        let tick = source.standby_frame().unwrap();
        assert_eq!(tick.wait_secs, STANDBY_INTERVAL_SECS);
        assert!(tick.frame.is_keyframe);
        assert_eq!(tick.frame.data, payload);
        emitted.push(tick.frame);
    }
    // A client that attaches during standby starts on the first frame it gets.
    assert_eq!(gate_frames(emitted).len(), 5);
}

#[test]
fn live_and_standby_never_produce_together() {
    let mut source = Source::new(
        source_config(SourceType::Rtsp),
        Some(FallbackFrame { data: vec![1] }),
        false,
    );
    let both = |source: &mut Source| {
        let live = source.live_frame(vec![2], false).is_some();
        let standby = source.standby_frame().is_some();
        live && standby
    };
    assert!(!both(&mut source));
    source.start();
    assert!(!both(&mut source));
    source.begin();
    assert!(!both(&mut source));
    source.pipeline_started();
    assert!(!both(&mut source));
    source.pipeline_ended(true);
    assert!(!both(&mut source));
    source.poll();
    assert!(!both(&mut source));
    source.probed(false);
    assert!(!both(&mut source));
    source.probed(true);
    assert!(!both(&mut source));
    source.pipeline_started();
    assert!(!both(&mut source));
    source.stop();
    assert!(!both(&mut source));
    source.pipeline_ended(false);
    assert!(!both(&mut source));
}

#[test]
fn one_standby_emitter_at_most() {
    let mut source = Source::new(
        source_config(SourceType::Rtsp),
        Some(FallbackFrame { data: vec![1] }),
        false,
    );
    source.start();
    assert_eq!(source.begin(), RunAction::Execute);
    assert_eq!(source.pipeline_ended(false), RunAction::EnterStandby);
    assert!(source.standby_frame().is_some());
    assert_eq!(source.poll(), RunAction::Probe { sleep_secs: 2 });
    assert_eq!(source.probed(true), RunAction::Execute);

    // The pipeline fails before it plays: the emitter is still at work, and
    // no second one is started.
    assert_eq!(source.pipeline_ended(false), RunAction::Retry);
    assert_eq!(source.state(), SourceState::Fallback);
    assert!(source.standby_frame().is_some());
    assert_eq!(source.poll(), RunAction::Probe { sleep_secs: 2 });
    assert_eq!(source.probed(true), RunAction::Execute);

    // The pipeline plays: the emitter leaves at its next tick.
    source.pipeline_started();
    assert!(source.standby_frame().is_none());
    assert!(source.standby_frame().is_none());
    assert_eq!(source.pipeline_ended(true), RunAction::EnterStandby);
    assert!(source.standby_frame().is_some());

    // The pipeline plays and fails within one tick of the emitter: the
    // emitter has not left and goes on.
    assert_eq!(source.poll(), RunAction::Probe { sleep_secs: 2 });
    assert_eq!(source.probed(true), RunAction::Execute);
    source.pipeline_started();
    assert_eq!(source.pipeline_ended(false), RunAction::Retry);
    assert!(source.standby_frame().is_some());
}

#[test]
fn startup_plans() {
    let mut config = source_config(SourceType::V4l2);
    assert_eq!(plan_source(&config, true), SourcePlan::DirectMount);
    assert_eq!(plan_source(&config, false), SourcePlan::DirectMount);
    config.source_type = SourceType::Rtsp;
    assert_eq!(plan_source(&config, true), SourcePlan::Supervised {
        codec: OutputCodec::H264,
        placeholder: false
    });
    config.transcode = true;
    config.fallback = Some("offline.png".to_string());
    assert_eq!(plan_source(&config, true), SourcePlan::Supervised {
        codec: OutputCodec::H265,
        placeholder: true
    });
    assert_eq!(plan_source(&config, false), SourcePlan::Supervised {
        codec: OutputCodec::H264,
        placeholder: true
    });
}

#[test]
fn startup_needs_one_source() {
    assert_eq!(check_started(0), Err(StartupError::NoSources));
    assert_eq!(check_started(1), Ok(()));
    assert_eq!(check_started(usize::MAX), Ok(()));
    assert_eq!(StartupError::NoSources.message(), "No sources started successfully");
}
