//! What the owning process decides at startup: how each configured source
//! is served, and whether anything was started at all.

use crate::config::{OutputCodec, SourceConfig, SourceType};
use crate::rtsp::{codec_for, select_codec};
use vstd::prelude::*;
use vstd::string::*;

verus! {

/// How a configured source is served.
#[derive(Debug, Clone, Copy, PartialEq, Eq, Structural)]
pub enum SourcePlan {
    /// A capture source: the streaming server runs its pipeline itself.
    DirectMount,
    /// A remote source: it is supervised, and its frames are pushed to the
    /// server in the codec given; `placeholder` says that it names a fallback
    /// image, which is to be encoded first.
    Supervised { codec: OutputCodec, placeholder: bool },
}

/// How `config` is served, where `mpp` says that the hardware encoder is
/// present.
pub fn plan_source(config: &SourceConfig, mpp: bool) -> (plan: SourcePlan)
    ensures
        config.source_type is V4l2 ==> plan == SourcePlan::DirectMount,
        config.source_type is Rtsp ==> plan == (SourcePlan::Supervised {
            codec: codec_for(config.transcode, mpp),
            placeholder: config.fallback is Some,
        }),
{
    match config.source_type {
        SourceType::V4l2 => SourcePlan::DirectMount,
        SourceType::Rtsp => SourcePlan::Supervised {
            codec: select_codec(config.transcode, mpp),
            placeholder: config.fallback.is_some(),
        },
    }
}

/// Why the process does not start.
#[derive(Debug, Clone, Copy, PartialEq, Eq, Structural)]
pub enum StartupError {
    /// Not one source was started.
    NoSources,
}

impl StartupError {
    pub open spec fn message_text(self) -> Seq<char> {
        "No sources started successfully"@
    }

    /// Writes this error out.
    pub fn message(&self) -> (text: String)
        ensures
            text@ == self.message_text(),
    {
        String::from_str("No sources started successfully")
    }
}

/// The one condition that stops the process at startup: of all the sources
/// configured, `active` were started, and that is none.
pub fn check_started(active: usize) -> (r: Result<(), StartupError>)
    ensures
        active == 0 ==> r == Err::<(), StartupError>(StartupError::NoSources),
        active > 0 ==> r is Ok,
{
    if active == 0 {
        Err(StartupError::NoSources)
    } else {
        Ok(())
    }
}

} // verus!
