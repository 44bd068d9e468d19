//! Remote sources: streams received from other RTSP servers.
//!
//! Passthrough:       rtspsrc -> rtph264depay -> h264parse -> appsink
//! Transcode (x264):  rtspsrc -> rtph264depay -> avdec_h264 -> x264enc -> h264parse -> appsink
//! Transcode (MPP):   rtspsrc -> rtph264depay -> mppvideodec -> mpph265enc -> h265parse -> appsink

use super::{
    appsink_config, build_encoder_string, build_mpp_h265_encoder_string, encoder_string,
    appsink_text, h264_caps, h264_caps_text, h265_caps, h265_caps_text,
    mpp_h265_encoder_string, PipelineError,
};
use crate::config::SourceConfig;
use crate::text::{decimal, push_decimal, push_text};
use vstd::prelude::*;
use vstd::string::*;

verus! {

/// Latency in milliseconds of a source that sets none.
pub const DEFAULT_LATENCY: u32 = 200;

/// The latency that `config` asks for.
pub open spec fn latency_of(config: &SourceConfig) -> nat {
    if config.latency is Some {
        config.latency->0 as nat
    } else {
        DEFAULT_LATENCY as nat
    }
}

/// The receiving element for the stream at `url`, with the credentials that
/// `config` holds.
pub open spec fn rtspsrc_text(config: &SourceConfig, url: Seq<char>) -> Seq<char> {
    let located = "rtspsrc location=\""@ + url + "\" latency="@ + decimal(latency_of(config));
    let with_user = if config.username is Some {
        located + " user-id=\""@ + config.username->0@ + "\""@
    } else {
        located
    };
    if config.password is Some {
        with_user + " user-pw=\""@ + config.password->0@ + "\""@
    } else {
        with_user
    }
}

/// The pipeline that receives the stream at `url`: passed through as it
/// comes, or decoded and encoded again, in hardware where `mpp` says that the
/// hardware encoder is present.
pub open spec fn remote_pipeline_text(config: &SourceConfig, url: Seq<char>, mpp: bool) -> Seq<
    char,
> {
    let source = rtspsrc_text(config, url);
    if config.transcode && mpp {
        source + " ! rtph264depay ! mppvideodec ! "@ + mpp_h265_encoder_string(
            config.encode_settings(),
        ) + " ! "@ + h265_caps_text() + " ! h265parse ! "@ + h265_caps_text() + " ! "@
            + appsink_text()
    } else if config.transcode {
        source + " ! rtph264depay ! avdec_h264 ! "@ + encoder_string(config.encode_settings())
            + " ! "@ + h264_caps_text() + " ! h264parse ! "@ + h264_caps_text() + " ! "@
            + appsink_text()
    } else {
        source + " ! rtph264depay ! h264parse ! "@ + h264_caps_text() + " ! "@ + appsink_text()
    }
}

/// The receiving element for the stream at `url`.
pub fn rtspsrc(config: &SourceConfig, url: &str) -> (text: String)
    ensures
        text@ == rtspsrc_text(config, url@),
{
    let latency = match config.latency {
        Some(latency) => latency,
        None => DEFAULT_LATENCY,
    };
    let mut text = String::from_str("rtspsrc location=\"");
    push_text(&mut text, url);
    push_text(&mut text, "\" latency=");
    push_decimal(&mut text, latency as u64);
    if let Some(user) = &config.username {
        push_text(&mut text, " user-id=\"");
        push_text(&mut text, user.as_str());
        push_text(&mut text, "\"");
    }
    if let Some(pass) = &config.password {
        push_text(&mut text, " user-pw=\"");
        push_text(&mut text, pass.as_str());
        push_text(&mut text, "\"");
    }
    text
}

/// Describes the pipeline of the remote source `config`. A source without a
/// URL has none.
pub fn create_pipeline(config: &SourceConfig, mpp: bool) -> (r: Result<String, PipelineError>)
    ensures
        config.url is None ==> r == Err::<String, PipelineError>(PipelineError::MissingUrl),
        config.url is Some ==> r is Ok && r->Ok_0@ == remote_pipeline_text(
            config,
            config.url->0@,
            mpp,
        ),
{
    let url = match &config.url {
        Some(url) => url,
        None => {
            return Err(PipelineError::MissingUrl);
        },
    };
    let mut text = rtspsrc(config, url.as_str());
    if config.transcode {
        let encode = config.encode_config();
        if mpp {
            let encoder = build_mpp_h265_encoder_string(&encode);
            push_text(&mut text, " ! rtph264depay ! mppvideodec ! ");
            push_text(&mut text, encoder.as_str());
            push_text(&mut text, " ! ");
            push_text(&mut text, h265_caps());
            push_text(&mut text, " ! h265parse ! ");
            push_text(&mut text, h265_caps());
        } else {
            let encoder = build_encoder_string(&encode);
            push_text(&mut text, " ! rtph264depay ! avdec_h264 ! ");
            push_text(&mut text, encoder.as_str());
            push_text(&mut text, " ! ");
            push_text(&mut text, h264_caps());
            push_text(&mut text, " ! h264parse ! ");
            push_text(&mut text, h264_caps());
        }
    } else {
        push_text(&mut text, " ! rtph264depay ! h264parse ! ");
        push_text(&mut text, h264_caps());
    }
    push_text(&mut text, " ! ");
    push_text(&mut text, appsink_config());
    Ok(text)
}

/// The pipeline that only tries to connect to the stream at `url`: no
/// decoding, a timeout of two seconds, and the password only where a user
/// name is set.
pub open spec fn probe_pipeline_text(config: &SourceConfig, url: Seq<char>) -> Seq<char> {
    let located = "rtspsrc location=\""@ + url + "\" latency=0 timeout=2000000"@;
    if config.username is Some {
        let with_user = located + " user-id=\""@ + config.username->0@ + "\""@;
        if config.password is Some {
            with_user + " user-pw=\""@ + config.password->0@ + "\""@ + " ! fakesink"@
        } else {
            with_user + " ! fakesink"@
        }
    } else {
        located + " ! fakesink"@
    }
}

/// Describes the pipeline that probes the remote source `config`. A source
/// without a URL has none.
pub fn probe_pipeline(config: &SourceConfig) -> (r: Option<String>)
    ensures
        config.url is None ==> r is None,
        config.url is Some ==> r is Some && r->0@ == probe_pipeline_text(config, config.url->0@),
{
    let url = match &config.url {
        Some(url) => url,
        None => {
            return None;
        },
    };
    let mut text = String::from_str("rtspsrc location=\"");
    push_text(&mut text, url.as_str());
    push_text(&mut text, "\" latency=0 timeout=2000000");
    if let Some(user) = &config.username {
        push_text(&mut text, " user-id=\"");
        push_text(&mut text, user.as_str());
        push_text(&mut text, "\"");
        if let Some(pass) = &config.password {
            push_text(&mut text, " user-pw=\"");
            push_text(&mut text, pass.as_str());
            push_text(&mut text, "\"");
        }
    }
    push_text(&mut text, " ! fakesink");
    Some(text)
}

} // verus!
