//! The placeholder frame that is shown while a source is away: how the
//! still image is encoded, and what counts as an encoded frame.

use crate::sources::BusEvent;
use crate::text::push_text;
use vstd::prelude::*;
use vstd::string::*;

verus! {

/// Pre-encoded fallback frame data: one H.264 keyframe.
#[derive(Debug, Clone)]
pub struct FallbackFrame {
    /// H.264 encoded keyframe data.
    pub data: Vec<u8>,
}

/// Why no fallback frame was made.
#[derive(Debug)]
pub enum FallbackError {
    /// The encoder reported an error, with the cause given.
    Encoding(String),
    /// The encoder ended without a frame.
    NoData,
}

/// What the encoding loop does after a message of the pipeline.
#[derive(Debug)]
pub enum ScanStep {
    /// Look at the next pending message.
    Next,
    /// Leave the pending messages and pull again.
    Pull,
    /// Tear the pipeline down and give up with this error.
    Fail(FallbackError),
}

/// How long the encoder is given, in seconds.
pub const ENCODE_TIMEOUT_SECS: u64 = 5;

/// How long one pull waits for a frame, in milliseconds.
pub const PULL_WAIT_MS: u64 = 100;

/// The pipeline that encodes the still image at `path` to one H.264
/// keyframe of 640 by 480.
pub open spec fn encode_pipeline_text(path: Seq<char>) -> Seq<char> {
    "filesrc location=\""@ + path
        + "\" ! decodebin ! videoconvert ! videoscale ! video/x-raw,width=640,height=480 \
! x264enc tune=stillimage key-int-max=1 \
! video/x-h264,stream-format=byte-stream,alignment=au ! h264parse \
! appsink name=sink emit-signals=false sync=false"@
}

impl FallbackError {
    pub open spec fn message_text(self) -> Seq<char> {
        match self {
            FallbackError::Encoding(cause) => "Fallback encoding error: "@ + cause@,
            FallbackError::NoData => "Failed to encode fallback image - no data produced"@,
        }
    }

    /// Writes this error out.
    pub fn message(&self) -> (text: String)
        ensures
            text@ == self.message_text(),
    {
        match self {
            FallbackError::Encoding(cause) => {
                let mut text = String::from_str("Fallback encoding error: ");
                push_text(&mut text, cause.as_str());
                text
            },
            FallbackError::NoData => String::from_str(
                "Failed to encode fallback image - no data produced",
            ),
        }
    }
}

impl FallbackFrame {
    /// The pipeline that encodes the still image at `path`.
    pub fn encode_pipeline(path: &str) -> (text: String)
        ensures
            text@ == encode_pipeline_text(path@),
    {
        let mut text = String::from_str("filesrc location=\"");
        push_text(&mut text, path);
        push_text(
            &mut text,
            "\" ! decodebin ! videoconvert ! videoscale ! video/x-raw,width=640,height=480 \
! x264enc tune=stillimage key-int-max=1 \
! video/x-h264,stream-format=byte-stream,alignment=au ! h264parse \
! appsink name=sink emit-signals=false sync=false",
        );
        text
    }

    /// What the encoding loop does after the pipeline message `event`, met
    /// while no frame could be pulled: an error ends the encoding, the end
    /// of the stream ends the look at the pending messages, anything else is
    /// passed over.
    pub fn on_message(event: BusEvent) -> (step: ScanStep)
        ensures
            step == match event {
                BusEvent::Error(cause) => ScanStep::Fail(FallbackError::Encoding(cause)),
                BusEvent::Eos => ScanStep::Pull,
                _ => ScanStep::Next,
            },
    {
        match event {
            BusEvent::Error(cause) => ScanStep::Fail(FallbackError::Encoding(cause)),
            BusEvent::Eos => ScanStep::Pull,
            _ => ScanStep::Next,
        }
    }

    /// Makes a fallback frame of what the encoder produced. Nothing at all
    /// is no frame.
    pub fn from_encoded(frame_data: Vec<u8>) -> (r: Result<Self, FallbackError>)
        ensures
            frame_data@.len() == 0 ==> r == Err::<Self, FallbackError>(FallbackError::NoData),
            frame_data@.len() > 0 ==> r is Ok && r->Ok_0.data == frame_data,
    {
        if frame_data.len() == 0 {
            return Err(FallbackError::NoData);
        }
        Ok(FallbackFrame { data: frame_data })
    }

    /// Get the frame data.
    pub fn data(&self) -> (bytes: &[u8])
        ensures
            bytes@ == self.data@,
    {
        self.data.as_slice()
    }
}

} // verus!
