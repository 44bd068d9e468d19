use dart::fallback::{FallbackError, FallbackFrame, ScanStep};
use dart::sources::BusEvent;

#[test]
fn fallback_encode_pipeline() {
    assert_eq!(
        FallbackFrame::encode_pipeline("/etc/dart/offline.png"),
        "filesrc location=\"/etc/dart/offline.png\" ! decodebin ! videoconvert ! videoscale \
         ! video/x-raw,width=640,height=480 ! x264enc tune=stillimage key-int-max=1 \
         ! video/x-h264,stream-format=byte-stream,alignment=au ! h264parse \
         ! appsink name=sink emit-signals=false sync=false"
    );
}

#[test]
fn fallback_frame_needs_data() {
    match FallbackFrame::from_encoded(Vec::new()) {
        Err(FallbackError::NoData) => {}
        other => panic!("unexpected {:?}", other),
    }
    let frame = FallbackFrame::from_encoded(vec![0, 0, 1, 9]).unwrap();
    assert_eq!(frame.data(), &[0, 0, 1, 9]);
    assert_eq!(frame.data, vec![0, 0, 1, 9]);
}

#[test]
fn fallback_messages() {
    assert!(matches!(FallbackFrame::on_message(BusEvent::Other), ScanStep::Next));
    assert!(matches!(
        FallbackFrame::on_message(BusEvent::Warning("w".to_string())),
        ScanStep::Next
    ));
    assert!(matches!(
        FallbackFrame::on_message(BusEvent::StateChanged { paused: true }),
        ScanStep::Next
    ));
    assert!(matches!(FallbackFrame::on_message(BusEvent::Eos), ScanStep::Pull));
    match FallbackFrame::on_message(BusEvent::Error("bad file".to_string())) {
        ScanStep::Fail(error) => {
            assert_eq!(error.message(), "Fallback encoding error: bad file")
        }
        other => panic!("unexpected {:?}", other),
    }
    assert_eq!(
        FallbackError::NoData.message(),
        "Failed to encode fallback image - no data produced"
    );
}
