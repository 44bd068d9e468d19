//! Capture sources: Video4Linux2 devices (webcams, capture cards).
//!
//! Pipeline: v4l2src -> videoconvert -> videoscale -> x264enc -> h264parse -> appsink

use super::{
    appsink_config, appsink_text, build_encoder_string, encoder_string, h264_caps,
    h264_caps_text, PipelineError,
};
use crate::config::SourceConfig;
use crate::text::{decimal, push_decimal, push_text};
use vstd::prelude::*;
use vstd::string::*;

verus! {

/// The raw-video caps that are forced on a capture device: none unless the
/// source names a pixel format; with one, the format, the width and height
/// that are set, and bt601 colorimetry.
pub open spec fn capture_caps_text(config: &SourceConfig) -> Seq<char> {
    if config.format is Some {
        let with_format = " ! video/x-raw,format="@ + config.format->0@;
        let with_width = if config.width is Some {
            with_format + ",width="@ + decimal(config.width->0 as nat)
        } else {
            with_format
        };
        let with_height = if config.height is Some {
            with_width + ",height="@ + decimal(config.height->0 as nat)
        } else {
            with_width
        };
        with_height + ",colorimetry=bt601"@
    } else {
        Seq::<char>::empty()
    }
}

/// The raw-video caps after conversion and scaling: width and height where
/// both are set, and the framerate where all three are.
pub open spec fn output_caps_text(config: &SourceConfig) -> Seq<char> {
    if config.width is Some && config.height is Some {
        let sized = "video/x-raw,width="@ + decimal(config.width->0 as nat) + ",height="@
            + decimal(config.height->0 as nat);
        if config.framerate is Some {
            sized + ",framerate="@ + decimal(config.framerate->0 as nat) + "/1"@
        } else {
            sized
        }
    } else {
        "video/x-raw"@
    }
}

/// The capture pipeline of a source whose device is `device`.
pub open spec fn capture_pipeline_text(config: &SourceConfig, device: Seq<char>) -> Seq<char> {
    "v4l2src device="@ + device + capture_caps_text(config) + " ! videoconvert ! videoscale ! "@
        + output_caps_text(config) + " ! "@ + encoder_string(config.encode_settings()) + " ! "@
        + h264_caps_text() + " ! h264parse ! "@ + h264_caps_text() + " ! "@ + appsink_text()
}

/// Appends the forced raw-video caps of `config` to `out`.
pub fn push_capture_caps(out: &mut String, config: &SourceConfig)
    ensures
        final(out)@ == old(out)@ + capture_caps_text(config),
{
    match &config.format {
        Some(format) => {
            let ghost start = out@;
            push_text(out, " ! video/x-raw,format=");
            push_text(out, format.as_str());
            if let Some(w) = config.width {
                push_text(out, ",width=");
                push_decimal(out, w as u64);
            }
            if let Some(h) = config.height {
                push_text(out, ",height=");
                push_decimal(out, h as u64);
            }
            push_text(out, ",colorimetry=bt601");
            assert(out@ =~= start + capture_caps_text(config));
        },
        None => {
            assert(out@ =~= out@ + Seq::<char>::empty());
        },
    }
}

/// The raw-video caps after conversion and scaling.
pub fn output_caps(config: &SourceConfig) -> (caps: String)
    ensures
        caps@ == output_caps_text(config),
{
    match (config.width, config.height) {
        (Some(w), Some(h)) => {
            let mut caps = String::from_str("video/x-raw,width=");
            push_decimal(&mut caps, w as u64);
            push_text(&mut caps, ",height=");
            push_decimal(&mut caps, h as u64);
            if let Some(f) = config.framerate {
                push_text(&mut caps, ",framerate=");
                push_decimal(&mut caps, f as u64);
                push_text(&mut caps, "/1");
            }
            caps
        },
        _ => String::from_str("video/x-raw"),
    }
}

/// Describes the capture pipeline of `config`. A source without a device
/// has none.
pub fn create_pipeline(config: &SourceConfig) -> (r: Result<String, PipelineError>)
    ensures
        config.device is None ==> r == Err::<String, PipelineError>(PipelineError::MissingDevice),
        config.device is Some ==> r is Ok && r->Ok_0@ == capture_pipeline_text(
            config,
            config.device->0@,
        ),
{
    let device = match &config.device {
        Some(device) => device,
        None => {
            return Err(PipelineError::MissingDevice);
        },
    };
    let encode = config.encode_config();
    let encoder = build_encoder_string(&encode);
    let caps = output_caps(config);
    let mut text = String::from_str("v4l2src device=");
    push_text(&mut text, device.as_str());
    push_capture_caps(&mut text, config);
    push_text(&mut text, " ! videoconvert ! videoscale ! ");
    push_text(&mut text, caps.as_str());
    push_text(&mut text, " ! ");
    push_text(&mut text, encoder.as_str());
    push_text(&mut text, " ! ");
    push_text(&mut text, h264_caps());
    push_text(&mut text, " ! h264parse ! ");
    push_text(&mut text, h264_caps());
    push_text(&mut text, " ! ");
    push_text(&mut text, appsink_config());
    Ok(text)
}

/// The pipeline that only tries to negotiate caps with the device
/// `device`; with a capture card it fails while there is no signal.
pub open spec fn probe_pipeline_text(config: &SourceConfig, device: Seq<char>) -> Seq<char> {
    "v4l2src device="@ + device + capture_caps_text(config) + " ! fakesink"@
}

/// Describes the pipeline that probes the capture source `config`. A source
/// without a device has none.
pub fn probe_pipeline(config: &SourceConfig) -> (r: Option<String>)
    ensures
        config.device is None ==> r is None,
        config.device is Some ==> r is Some && r->0@ == probe_pipeline_text(
            config,
            config.device->0@,
        ),
{
    let device = match &config.device {
        Some(device) => device,
        None => {
            return None;
        },
    };
    let mut text = String::from_str("v4l2src device=");
    push_text(&mut text, device.as_str());
    push_capture_caps(&mut text, config);
    push_text(&mut text, " ! fakesink");
    Some(text)
}

} // verus!
