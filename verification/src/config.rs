//! Configuration of the server and of its sources, and the rules that a
//! configuration must meet before any source is started.

use crate::text::{char_is_ascii_alnum, chars_of, is_ascii_alnum, push_text};
use vstd::prelude::*;
use vstd::string::*;
use vstd::utf8::{encode_utf8, is_ascii_chars, is_ascii_chars_encode_utf8};

verus! {

/// Main configuration structure.
#[derive(Debug)]
pub struct Config {
    pub server: ServerConfig,
    pub sources: Vec<SourceConfig>,
}

/// Server configuration.
#[derive(Debug)]
pub struct ServerConfig {
    pub rtsp_port: u16,
    pub bind_address: String,
}

/// Source configuration: one input stream.
#[derive(Debug)]
pub struct SourceConfig {
    /// Unique name for this source (used in the RTSP path).
    pub name: String,
    pub source_type: SourceType,
    // Capture devices.
    pub device: Option<String>,
    pub width: Option<u32>,
    pub height: Option<u32>,
    pub framerate: Option<u32>,
    /// Pixel format (e.g. "UYVY", "RGB3"), for capture cards that need an
    /// explicit format.
    pub format: Option<String>,
    // Remote streams.
    pub url: Option<String>,
    pub username: Option<String>,
    pub password: Option<String>,
    pub latency: Option<u32>,
    pub transcode: bool,
    /// Encoding settings (for capture devices, or when `transcode` is set).
    pub encode: Option<EncodeConfig>,
    /// Output authentication.
    pub auth: Option<AuthConfig>,
    /// Path to the fallback image (shown when the source disconnects).
    pub fallback: Option<String>,
    /// Reconnect interval in seconds.
    pub reconnect_interval: u64,
}

/// Kind of source.
#[derive(Debug, Clone, Copy, PartialEq, Eq, Structural)]
pub enum SourceType {
    V4l2,
    Rtsp,
}

/// Output codec, chosen at run time from the hardware that is present.
#[derive(Debug, Clone, Copy, PartialEq, Eq, Structural)]
pub enum OutputCodec {
    H264,
    H265,
}

/// Encoding configuration.
#[derive(Debug, Clone)]
pub struct EncodeConfig {
    /// Bitrate in kbps.
    pub bitrate: u32,
    /// Keyframe interval in frames.
    pub keyframe_interval: u32,
    /// x264 preset.
    pub preset: String,
    /// x264 tune option.
    pub tune: String,
}

/// Authentication configuration for the RTSP output.
#[derive(Debug, Clone)]
pub struct AuthConfig {
    pub enabled: bool,
    pub username: Option<String>,
    pub password: Option<String>,
}

/// Why a source configuration is refused.
#[derive(Debug, Clone, Copy, PartialEq, Eq, Structural)]
pub enum ConfigError {
    /// The name is empty or longer than 32 bytes.
    NameLength,
    /// The name holds a character other than an ASCII letter, a digit, `-`
    /// or `_`.
    NameCharacters,
    /// The name does not start with an ASCII letter or digit.
    NameStart,
    /// A capture source without `device`.
    MissingDevice,
    /// A capture source without `encode` settings.
    MissingEncode,
    /// A remote source without `url`.
    MissingUrl,
    /// A remote source with `transcode` set and no `encode` settings.
    TranscodeWithoutEncode,
}

pub const MAX_NAME_LEN: usize = 32;

pub fn default_rtsp_port() -> (port: u16)
    ensures
        port == 8554,
{
    8554
}

pub fn default_bind_address() -> (address: String)
    ensures
        address@ == "0.0.0.0"@,
{
    String::from_str("0.0.0.0")
}

pub fn default_reconnect_interval() -> (seconds: u64)
    ensures
        seconds == 10,
{
    10
}

pub fn default_bitrate() -> (kbps: u32)
    ensures
        kbps == 2000,
{
    2000
}

pub fn default_keyframe_interval() -> (frames: u32)
    ensures
        frames == 60,
{
    60
}

pub fn default_preset() -> (preset: String)
    ensures
        preset@ == "veryfast"@,
{
    String::from_str("veryfast")
}

pub fn default_tune() -> (tune: String)
    ensures
        tune@ == "zerolatency"@,
{
    String::from_str("zerolatency")
}

/// What an `EncodeConfig` holds, as plain values.
pub ghost struct EncodeSettings {
    pub bitrate: nat,
    pub keyframe_interval: nat,
    pub preset: Seq<char>,
    pub tune: Seq<char>,
}

impl View for EncodeConfig {
    type V = EncodeSettings;

    open spec fn view(&self) -> EncodeSettings {
        EncodeSettings {
            bitrate: self.bitrate as nat,
            keyframe_interval: self.keyframe_interval as nat,
            preset: self.preset@,
            tune: self.tune@,
        }
    }
}

/// The settings that are used where a source names none.
pub open spec fn default_encode() -> EncodeSettings {
    EncodeSettings {
        bitrate: 2000,
        keyframe_interval: 60,
        preset: "veryfast"@,
        tune: "zerolatency"@,
    }
}

impl Default for EncodeConfig {
    fn default() -> (e: Self)
        ensures
            e@ == default_encode(),
    {
        Self {
            bitrate: default_bitrate(),
            keyframe_interval: default_keyframe_interval(),
            preset: default_preset(),
            tune: default_tune(),
        }
    }
}

/// A character that may stand in a source name.
pub open spec fn is_name_char(c: char) -> bool {
    is_ascii_alnum(c) || c == '-' || c == '_'
}

/// Every character of `name` may stand in a source name.
pub open spec fn all_name_chars(name: Seq<char>) -> bool {
    forall|i: int| 0 <= i < name.len() ==> is_name_char(#[trigger] name[i])
}

/// A source name is 1 to 32 characters, each an ASCII letter, a digit, `-`
/// or `_`, the first of them a letter or a digit.
pub open spec fn valid_source_name(name: Seq<char>) -> bool {
    &&& 1 <= name.len() <= 32
    &&& all_name_chars(name)
    &&& is_ascii_alnum(name[0])
}

/// The first rule on names that `name` breaks, if it breaks one. The length
/// is counted in bytes of UTF-8.
pub open spec fn name_error(name: Seq<char>) -> Option<ConfigError> {
    if name.len() == 0 || encode_utf8(name).len() > 32 {
        Some(ConfigError::NameLength)
    } else if !all_name_chars(name) {
        Some(ConfigError::NameCharacters)
    } else if !is_ascii_alnum(name[0]) {
        Some(ConfigError::NameStart)
    } else {
        None
    }
}

/// A name breaks no rule exactly when it is a valid source name.
pub proof fn lemma_name_error_none_iff_valid(name: Seq<char>)
    ensures
        name_error(name) is None <==> valid_source_name(name),
{
    if all_name_chars(name) {
        assert forall|i: int| 0 <= i < name.len() implies '\0' <= #[trigger] name[i]
            <= '\u{7f}' by {
            assert(is_name_char(name[i]));
        }
        assert(is_ascii_chars(name));
        is_ascii_chars_encode_utf8(name);
    }
}

/// A valid source name is one segment of a path: it holds no slash, no dot,
/// no quote and no white space, so it cannot lead out of the place where the
/// source is published.
pub proof fn lemma_valid_name_is_one_segment(name: Seq<char>)
    requires
        valid_source_name(name),
    ensures
        forall|i: int|
            0 <= i < name.len() ==> {
                let c = #[trigger] name[i];
                c != '/' && c != '.' && c != '\\' && c != '"' && c != '\'' && c != ' ' && c
                    != '\n'
            },
{
    assert forall|i: int| 0 <= i < name.len() implies {
        let c = #[trigger] name[i];
        c != '/' && c != '.' && c != '\\' && c != '"' && c != '\'' && c != ' ' && c != '\n'
    } by {
        assert(is_name_char(name[i]));
    }
}

/// Checks a source name against the rules on names.
pub fn validate_name(name: &str) -> (r: Result<(), ConfigError>)
    ensures
        r is Ok <==> valid_source_name(name@),
        r is Err ==> name_error(name@) == Some(r->Err_0),
{
    proof {
        lemma_name_error_none_iff_valid(name@);
    }
    if name.is_empty() || name.as_bytes().len() > MAX_NAME_LEN {
        return Err(ConfigError::NameLength);
    }
    let chars = chars_of(name);
    let mut i: usize = 0;
    while i < chars.len()
        invariant
            i <= chars.len(),
            chars@ == name@,
            name@.len() > 0,
            encode_utf8(name@).len() <= 32,
            name_error(name@) is None <==> valid_source_name(name@),
            forall|j: int| 0 <= j < i ==> is_name_char(#[trigger] name@[j]),
        decreases chars.len() - i,
    {
        let c = chars[i];
        if !(char_is_ascii_alnum(c) || c == '-' || c == '_') {
            assert(!is_name_char(name@[i as int]));
            return Err(ConfigError::NameCharacters);
        }
        i += 1;
    }
    assert(all_name_chars(name@));
    if !char_is_ascii_alnum(chars[0]) {
        return Err(ConfigError::NameStart);
    }
    Ok(())
}

impl ConfigError {
    /// The text of this error, about the source called `name`.
    pub open spec fn message_text(self, name: Seq<char>) -> Seq<char> {
        match self {
            ConfigError::NameLength => "Source name must be 1-32 characters: '"@ + name + "'"@,
            ConfigError::NameCharacters => {
                "Source name must contain only alphanumeric, dash, underscore: '"@ + name
                    + "'"@
            },
            ConfigError::NameStart => {
                "Source name must start with alphanumeric character: '"@ + name + "'"@
            },
            ConfigError::MissingDevice => {
                "V4L2 source '"@ + name + "' requires 'device' field"@
            },
            ConfigError::MissingEncode => {
                "V4L2 source '"@ + name
                    + "' requires 'encode' settings (raw video must be encoded)"@
            },
            ConfigError::MissingUrl => "RTSP source '"@ + name + "' requires 'url' field"@,
            ConfigError::TranscodeWithoutEncode => {
                "RTSP source '"@ + name + "' has transcode=true but no 'encode' settings"@
            },
        }
    }

    /// Writes this error out, about the source called `name`.
    pub fn message(&self, name: &str) -> (text: String)
        ensures
            text@ == self.message_text(name@),
    {
        let (head, tail) = match self {
            ConfigError::NameLength => ("Source name must be 1-32 characters: '", "'"),
            ConfigError::NameCharacters => (
                "Source name must contain only alphanumeric, dash, underscore: '",
                "'",
            ),
            ConfigError::NameStart => (
                "Source name must start with alphanumeric character: '",
                "'",
            ),
            ConfigError::MissingDevice => ("V4L2 source '", "' requires 'device' field"),
            ConfigError::MissingEncode => (
                "V4L2 source '",
                "' requires 'encode' settings (raw video must be encoded)",
            ),
            ConfigError::MissingUrl => ("RTSP source '", "' requires 'url' field"),
            ConfigError::TranscodeWithoutEncode => (
                "RTSP source '",
                "' has transcode=true but no 'encode' settings",
            ),
        };
        let mut text = String::from_str(head);
        push_text(&mut text, name);
        push_text(&mut text, tail);
        text
    }
}

impl SourceConfig {
    /// The first rule that this source breaks, if it breaks one: the rules
    /// on its name first, then what its kind requires.
    pub open spec fn first_error(&self) -> Option<ConfigError> {
        if name_error(self.name@) is Some {
            name_error(self.name@)
        } else {
            match self.source_type {
                SourceType::V4l2 => {
                    if self.device is None {
                        Some(ConfigError::MissingDevice)
                    } else if self.encode is None {
                        Some(ConfigError::MissingEncode)
                    } else {
                        None
                    }
                },
                SourceType::Rtsp => {
                    if self.url is None {
                        Some(ConfigError::MissingUrl)
                    } else if self.transcode && self.encode is None {
                        Some(ConfigError::TranscodeWithoutEncode)
                    } else {
                        None
                    }
                },
            }
        }
    }

    /// What the kind of this source requires of its other fields.
    pub open spec fn kind_complete(&self) -> bool {
        match self.source_type {
            SourceType::V4l2 => self.device is Some && self.encode is Some,
            SourceType::Rtsp => self.url is Some && (self.transcode ==> self.encode is Some),
        }
    }

    /// A source is well formed when its name is valid and its kind has what
    /// it requires.
    pub open spec fn well_formed(&self) -> bool {
        valid_source_name(self.name@) && self.kind_complete()
    }

    /// A source breaks no rule exactly when it is well formed.
    pub proof fn lemma_no_error_iff_well_formed(&self)
        ensures
            self.first_error() is None <==> self.well_formed(),
    {
        lemma_name_error_none_iff_valid(self.name@);
    }

    /// Validates the source configuration.
    pub fn validate(&self) -> (r: Result<(), ConfigError>)
        ensures
            r is Ok <==> self.well_formed(),
            r is Ok <==> self.first_error() is None,
            r is Err ==> self.first_error() == Some(r->Err_0),
    {
        proof {
            lemma_name_error_none_iff_valid(self.name@);
        }
        match validate_name(self.name.as_str()) {
            Err(e) => {
                return Err(e);
            },
            Ok(()) => {},
        }
        match self.source_type {
            SourceType::V4l2 => {
                if self.device.is_none() {
                    return Err(ConfigError::MissingDevice);
                }
                if self.encode.is_none() {
                    return Err(ConfigError::MissingEncode);
                }
            },
            SourceType::Rtsp => {
                if self.url.is_none() {
                    return Err(ConfigError::MissingUrl);
                }
                if self.transcode && self.encode.is_none() {
                    return Err(ConfigError::TranscodeWithoutEncode);
                }
            },
        }
        Ok(())
    }

    /// The encoding settings of this source: its own, or the defaults where
    /// it names none.
    pub open spec fn encode_settings(&self) -> EncodeSettings {
        if self.encode is Some {
            self.encode->0@
        } else {
            default_encode()
        }
    }

    /// Get encoding config, using defaults if not specified.
    pub fn encode_config(&self) -> (e: EncodeConfig)
        ensures
            e@ == self.encode_settings(),
    {
        match &self.encode {
            Some(own) => EncodeConfig {
                bitrate: own.bitrate,
                keyframe_interval: own.keyframe_interval,
                preset: own.preset.clone(),
                tune: own.tune.clone(),
            },
            None => EncodeConfig::default(),
        }
    }
}

impl Config {
    /// No source before index `n` breaks a rule.
    pub open spec fn valid_before(&self, n: int) -> bool {
        forall|i: int| 0 <= i < n ==> (#[trigger] self.sources@[i]).first_error() is None
    }

    /// Validates the configuration: every source in turn. The error names
    /// the first source that breaks a rule, by its index, and the rule.
    pub fn validate(&self) -> (r: Result<(), (usize, ConfigError)>)
        ensures
            r is Ok <==> self.valid_before(self.sources@.len() as int),
            r matches Err((index, error)) ==> {
                &&& index < self.sources@.len()
                &&& self.valid_before(index as int)
                &&& self.sources@[index as int].first_error() == Some(error)
            },
    {
        let mut i: usize = 0;
        while i < self.sources.len()
            invariant
                i <= self.sources@.len(),
                self.valid_before(i as int),
            decreases self.sources@.len() - i,
        {
            match self.sources[i].validate() {
                Err(error) => {
                    return Err((i, error));
                },
                Ok(()) => {},
            }
            i += 1;
        }
        Ok(())
    }
}

} // verus!
