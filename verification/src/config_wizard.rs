//! The configuration wizard: what it proposes, what it reads from the
//! listings of the capture tools, and the configuration file it writes.

use crate::scan::{
    after_last, before_first, fields, fields_of, find_first, find_last_end,
    find_text, first_in, first_match, has_prefix, last_end, lines, lines_of, parse_u32,
    slice_of, starts_with, string_of, take_after_last, take_before_first, trim, trimmed, u32_of,
    words, words_of, CharClass,
};
use crate::text::{chars_of, decimal, push_decimal, push_text};
use vstd::prelude::*;
use vstd::string::*;

verus! {

/// Source type selection.
#[derive(Debug, Clone, Copy, PartialEq, Eq, Structural)]
pub enum SourceType {
    V4l2,
    Rtsp,
}

/// Collected V4L2 configuration.
#[derive(Debug)]
pub struct V4l2Config {
    pub name: String,
    pub device: String,
    /// Only set for HDMI capture cards that need an explicit format.
    pub format: Option<String>,
    pub width: u32,
    pub height: u32,
    pub framerate: u32,
    pub bitrate: u32,
}

/// Collected RTSP configuration.
#[derive(Debug)]
pub struct RtspConfig {
    pub name: String,
    pub url: String,
    pub username: Option<String>,
    pub password: Option<String>,
    pub latency: u32,
    pub transcode: bool,
    /// Only if transcoding.
    pub bitrate: Option<u32>,
}

/// Why the wizard gives up.
#[derive(Debug, Clone, Copy, PartialEq, Eq, Structural)]
pub enum WizardError {
    /// The device listing names no video device.
    NoDevices,
    /// The format listing names no format.
    NoFormats,
    /// The stream listing has fewer than three fields.
    NoStreamInfo,
}

impl WizardError {
    pub open spec fn message_text(self) -> Seq<char> {
        match self {
            WizardError::NoDevices => "No V4L2 devices found. Is a camera connected?"@,
            WizardError::NoFormats => "No formats detected. Device may not be available."@,
            WizardError::NoStreamInfo => "Could not detect stream info. Is the URL correct?"@,
        }
    }

    /// Writes this error out.
    pub fn message(&self) -> (text: String)
        ensures
            text@ == self.message_text(),
    {
        match self {
            WizardError::NoDevices => String::from_str(
                "No V4L2 devices found. Is a camera connected?",
            ),
            WizardError::NoFormats => String::from_str(
                "No formats detected. Device may not be available.",
            ),
            WizardError::NoStreamInfo => String::from_str(
                "Could not detect stream info. Is the URL correct?",
            ),
        }
    }
}

/// The wizard goes on only with a device to choose from.
pub fn require_devices(devices: &Vec<V4l2Device>) -> (r: Result<(), WizardError>)
    ensures
        devices@.len() == 0 ==> r == Err::<(), WizardError>(WizardError::NoDevices),
        devices@.len() > 0 ==> r is Ok,
{
    if devices.len() == 0 {
        Err(WizardError::NoDevices)
    } else {
        Ok(())
    }
}

/// The wizard goes on only with a format to choose from.
pub fn require_formats(formats: &Vec<V4l2Format>) -> (r: Result<(), WizardError>)
    ensures
        formats@.len() == 0 ==> r == Err::<(), WizardError>(WizardError::NoFormats),
        formats@.len() > 0 ==> r is Ok,
{
    if formats.len() == 0 {
        Err(WizardError::NoFormats)
    } else {
        Ok(())
    }
}

/// The kind of source behind the entry `selection` of the first menu.
pub fn source_type_for(selection: usize) -> (kind: Option<SourceType>)
    ensures
        selection == 0 ==> kind == Some(SourceType::V4l2),
        selection == 1 ==> kind == Some(SourceType::Rtsp),
        selection > 1 ==> kind is None,
{
    if selection == 0 {
        Some(SourceType::V4l2)
    } else if selection == 1 {
        Some(SourceType::Rtsp)
    } else {
        None
    }
}

/// The head of every configuration file that the wizard writes.
pub open spec fn server_section_text() -> Seq<char> {
    "[server]\nrtsp_port = 8554\nbind_address = \"0.0.0.0\"\n\n[[sources]]\nname = \""@
}

/// The encoding section of a configuration file, for a bitrate in kbps.
pub open spec fn encode_section_text(bitrate: nat) -> Seq<char> {
    "\n[sources.encode]\nbitrate = "@ + decimal(bitrate)
        + "\npreset = \"veryfast\"\ntune = \"zerolatency\"\n"@
}

/// The configuration file for the capture source `config`. The pixel format
/// has a line only where one is set.
pub open spec fn v4l2_config_text(config: &V4l2Config) -> Seq<char> {
    let head = server_section_text() + config.name@ + "\"\ntype = \"v4l2\"\ndevice = \""@
        + config.device@ + "\"\n"@;
    let with_format = if config.format is Some {
        head + "format = \""@ + config.format->0@ + "\"\n"@
    } else {
        head
    };
    with_format + "width = "@ + decimal(config.width as nat) + "\nheight = "@ + decimal(
        config.height as nat,
    ) + "\nframerate = "@ + decimal(config.framerate as nat) + "\n"@ + encode_section_text(
        config.bitrate as nat,
    )
}

/// The configuration file for the remote source `config`. The encoding
/// section is there only for a source that is encoded again, with 2000 kbps
/// where no bitrate is set.
pub open spec fn rtsp_config_text(config: &RtspConfig) -> Seq<char> {
    let head = server_section_text() + config.name@ + "\"\ntype = \"rtsp\"\nurl = \""@
        + config.url@ + "\"\nlatency = "@ + decimal(config.latency as nat) + "\n"@;
    if config.transcode {
        head + "transcode = true\n"@ + encode_section_text(
            if config.bitrate is Some {
                config.bitrate->0 as nat
            } else {
                2000
            },
        )
    } else {
        head
    }
}

fn push_encode_section(out: &mut String, bitrate: u32)
    ensures
        final(out)@ == old(out)@ + encode_section_text(bitrate as nat),
{
    let ghost start = out@;
    push_text(out, "\n[sources.encode]\nbitrate = ");
    push_decimal(out, bitrate as u64);
    push_text(out, "\npreset = \"veryfast\"\ntune = \"zerolatency\"\n");
    assert(out@ =~= start + encode_section_text(bitrate as nat));
}

/// Generate TOML config content for V4L2 source.
pub fn generate_v4l2_config(config: &V4l2Config) -> (text: String)
    ensures
        text@ == v4l2_config_text(config),
{
    let mut text = String::from_str(
        "[server]\nrtsp_port = 8554\nbind_address = \"0.0.0.0\"\n\n[[sources]]\nname = \"",
    );
    push_text(&mut text, config.name.as_str());
    push_text(&mut text, "\"\ntype = \"v4l2\"\ndevice = \"");
    push_text(&mut text, config.device.as_str());
    push_text(&mut text, "\"\n");
    if let Some(format) = &config.format {
        push_text(&mut text, "format = \"");
        push_text(&mut text, format.as_str());
        push_text(&mut text, "\"\n");
    }
    push_text(&mut text, "width = ");
    push_decimal(&mut text, config.width as u64);
    push_text(&mut text, "\nheight = ");
    push_decimal(&mut text, config.height as u64);
    push_text(&mut text, "\nframerate = ");
    push_decimal(&mut text, config.framerate as u64);
    push_text(&mut text, "\n");
    push_encode_section(&mut text, config.bitrate);
    text
}

/// Generate TOML config content for RTSP source.
pub fn generate_rtsp_config(config: &RtspConfig) -> (text: String)
    ensures
        text@ == rtsp_config_text(config),
{
    let mut text = String::from_str(
        "[server]\nrtsp_port = 8554\nbind_address = \"0.0.0.0\"\n\n[[sources]]\nname = \"",
    );
    push_text(&mut text, config.name.as_str());
    push_text(&mut text, "\"\ntype = \"rtsp\"\nurl = \"");
    push_text(&mut text, config.url.as_str());
    push_text(&mut text, "\"\nlatency = ");
    push_decimal(&mut text, config.latency as u64);
    push_text(&mut text, "\n");
    if config.transcode {
        push_text(&mut text, "transcode = true\n");
        let bitrate = match config.bitrate {
            Some(bitrate) => bitrate,
            None => 2000,
        };
        push_encode_section(&mut text, bitrate);
    }
    text
}

/// The text of `text`, where there is one.
pub open spec fn text_of(text: Option<String>) -> Option<Seq<char>> {
    match text {
        Some(text) => Some(text@),
        None => None,
    }
}

/// The FOURCC code of a format line like `[0]: 'YUYV' (YUYV 4:2:2)`: what
/// stands between the first two single quotes.
pub open spec fn fourcc_of(line: Seq<char>) -> Option<Seq<char>> {
    let open = first_in(line, CharClass::Is('\''), 0);
    if open >= line.len() {
        None
    } else {
        let close = first_in(line, CharClass::Is('\''), open + 1);
        if close >= line.len() {
            None
        } else {
            Some(line.subrange(open + 1, close))
        }
    }
}

/// The description of a format line like `[0]: 'YUYV' (YUYV 4:2:2)`: what
/// stands between the first `(` and the last `)`, where the one comes before
/// the other.
pub open spec fn description_of(line: Seq<char>) -> Option<Seq<char>> {
    let open = first_in(line, CharClass::Is('('), 0);
    let close_end = last_end(line, CharClass::Is(')'), line.len() as int);
    if open < line.len() && close_end > 0 && open < close_end - 1 {
        Some(line.subrange(open + 1, close_end - 1))
    } else {
        None
    }
}

/// The resolution that the first word of `words`, from index `from` on,
/// with exactly one `x` in it gives: its two sides, where both are numbers;
/// where one is not, none, whatever words follow.
pub open spec fn resolution_in(words: Seq<Seq<char>>, from: int) -> Option<(u32, u32)>
    recommends
        0 <= from,
    decreases words.len() - from,
{
    if from < 0 || from >= words.len() {
        None
    } else {
        let sides = fields_of(words[from], 'x');
        if sides.len() == 2 {
            if u32_of(sides[0]) is Some && u32_of(sides[1]) is Some {
                Some((u32_of(sides[0])->0, u32_of(sides[1])->0))
            } else {
                None
            }
        } else {
            resolution_in(words, from + 1)
        }
    }
}

/// The resolution of a size line like `Size: Discrete 1920x1080`.
pub open spec fn resolution_of(line: Seq<char>) -> Option<(u32, u32)> {
    resolution_in(words_of(line), 0)
}

/// The numeral of the frame rate in an interval line like
/// `Interval: Discrete 0.033s (30.000 fps)`: what stands between the first
/// `(` and the first ` fps)`, where the one comes before the other.
pub open spec fn framerate_text_of(line: Seq<char>) -> Option<Seq<char>> {
    let open = first_in(line, CharClass::Is('('), 0);
    let end = first_match(line, " fps)"@, 0);
    if open < line.len() && end < line.len() && open < end {
        Some(line.subrange(open + 1, end))
    } else {
        None
    }
}

/// Extract FOURCC code from format line like "[0]: 'YUYV' (YUYV 4:2:2)".
pub fn extract_fourcc(line: &str) -> (fourcc: Option<String>)
    ensures
        text_of(fourcc) == fourcc_of(line@),
{
    let chars = chars_of(line);
    let open = find_first(&chars, CharClass::Is('\''), 0);
    if open >= chars.len() {
        return None;
    }
    let close = find_first(&chars, CharClass::Is('\''), open + 1);
    if close >= chars.len() {
        return None;
    }
    let inner = slice_of(&chars, open + 1, close);
    Some(string_of(&inner))
}

/// Extract description from format line like "[0]: 'YUYV' (YUYV 4:2:2)".
pub fn extract_description(line: &str) -> (description: Option<String>)
    ensures
        text_of(description) == description_of(line@),
{
    let chars = chars_of(line);
    let open = find_first(&chars, CharClass::Is('('), 0);
    let close_end = find_last_end(&chars, CharClass::Is(')'), chars.len());
    if open < chars.len() && close_end > 0 && open < close_end - 1 {
        let inner = slice_of(&chars, open + 1, close_end - 1);
        Some(string_of(&inner))
    } else {
        None
    }
}

/// Extract resolution from line like "Size: Discrete 1920x1080".
pub fn extract_resolution(line: &str) -> (resolution: Option<(u32, u32)>)
    ensures
        resolution == resolution_of(line@),
{
    let chars = chars_of(line);
    let parts = words(&chars);
    let mut i: usize = 0;
    while i < parts.len()
        invariant
            i <= parts.len(),
            parts@.len() == words_of(line@).len(),
            forall|k: int| 0 <= k < parts@.len() ==> (#[trigger] parts@[k])@ == words_of(line@)[k],
            resolution_of(line@) == resolution_in(words_of(line@), i as int),
        decreases parts.len() - i,
    {
        let sides = fields(&parts[i], 'x');
        assert(parts@[i as int]@ == words_of(line@)[i as int]);
        if sides.len() == 2 {
            let width = parse_u32(&sides[0]);
            let height = parse_u32(&sides[1]);
            return match (width, height) {
                (Some(width), Some(height)) => Some((width, height)),
                _ => None,
            };
        }
        i += 1;
    }
    None
}

/// Extract the numeral of the frame rate from a line like
/// "Interval: Discrete 0.033s (30.000 fps)".
pub fn extract_framerate(line: &str) -> (numeral: Option<String>)
    ensures
        text_of(numeral) == framerate_text_of(line@),
{
    let chars = chars_of(line);
    let open = find_first(&chars, CharClass::Is('('), 0);
    let end = find_text(&chars, " fps)", 0);
    if open < chars.len() && end < chars.len() && open < end {
        let inner = slice_of(&chars, open + 1, end);
        Some(string_of(&inner))
    } else {
        None
    }
}

/// V4L2 device info from the device listing.
#[derive(Debug, Clone)]
pub struct V4l2Device {
    pub name: String,
    /// Primary video device path (the first `/dev/videoX`).
    pub path: String,
}

/// What a `V4l2Device` holds, as plain values.
pub ghost struct DeviceView {
    pub name: Seq<char>,
    pub path: Seq<char>,
}

impl View for V4l2Device {
    type V = DeviceView;

    open spec fn view(&self) -> DeviceView {
        DeviceView { name: self.name@, path: self.path@ }
    }
}

/// A line that names a device: it is not indented and holds a colon.
pub open spec fn is_heading(line: Seq<char>) -> bool {
    !(line.len() > 0 && (line[0] == '\t' || line[0] == ' ')) && first_in(
        line,
        CharClass::Is(':'),
        0,
    ) < line.len()
}

/// The device name in a heading: what stands before the first `(` and
/// before the first colon, without the white space around it.
pub open spec fn heading_name(line: Seq<char>) -> Seq<char> {
    trimmed(before_first(before_first(line, '('), ':'))
}

/// The devices that the lines `lines` list from index `from` on, where
/// `current` is the device name that still waits for its path: under each
/// heading, the first path that begins with `/dev/video`.
pub open spec fn devices_in(lines: Seq<Seq<char>>, from: int, current: Option<Seq<char>>) -> Seq<
    DeviceView,
>
    recommends
        0 <= from,
    decreases lines.len() - from,
{
    if from < 0 || from >= lines.len() {
        Seq::<DeviceView>::empty()
    } else if is_heading(lines[from]) {
        devices_in(lines, from + 1, Some(heading_name(lines[from])))
    } else if current is Some && has_prefix(trimmed(lines[from]), "/dev/video"@) {
        seq![DeviceView { name: current->0, path: trimmed(lines[from]) }] + devices_in(
            lines,
            from + 1,
            None,
        )
    } else {
        devices_in(lines, from + 1, current)
    }
}

/// The devices that the device listing `output` names.
pub open spec fn devices_of(output: Seq<char>) -> Seq<DeviceView> {
    devices_in(lines_of(output), 0, None)
}

/// Parse the device listing. Format:
///
/// ```text
/// Device Name (bus info):
///     /dev/video0
///     /dev/video1
///     /dev/media0
/// ```
pub fn parse_v4l2_devices(output: &str) -> (devices: Vec<V4l2Device>)
    ensures
        devices@.len() == devices_of(output@).len(),
        forall|i: int|
            0 <= i < devices@.len() ==> (#[trigger] devices@[i])@ == devices_of(output@)[i],
{
    let chars = chars_of(output);
    let all = lines(&chars);
    let mut devices: Vec<V4l2Device> = Vec::new();
    let mut current: Option<Vec<char>> = None;
    let ghost mut done: Seq<DeviceView> = Seq::empty();
    let ghost texts = lines_of(output@);
    let mut i: usize = 0;
    while i < all.len()
        invariant
            i <= all.len(),
            texts == lines_of(output@),
            all@.len() == texts.len(),
            forall|k: int| 0 <= k < all@.len() ==> (#[trigger] all@[k])@ == texts[k],
            done.len() == devices@.len(),
            forall|k: int| 0 <= k < devices@.len() ==> (#[trigger] devices@[k])@ == done[k],
            devices_of(output@) == done + devices_in(
                texts,
                i as int,
                match current {
                    Some(name) => Some(name@),
                    None => None,
                },
            ),
        decreases all.len() - i,
    {
        let line = &all[i];
        assert(line@ == texts[i as int]);
        let indented = line.len() > 0 && (line[0] == '\t' || line[0] == ' ');
        let colon = find_first(line, CharClass::Is(':'), 0);
        if !indented && colon < line.len() {
            let head = take_before_first(line, '(');
            let head = take_before_first(&head, ':');
            current = Some(trim(&head));
        } else if current.is_some() {
            let path = trim(line);
            if starts_with(&path, "/dev/video") {
                let name = match &current {
                    Some(name) => string_of(name),
                    None => String::new(),
                };
                let device = V4l2Device { name, path: string_of(&path) };
                proof {
                    let rest = devices_in(texts, i + 1, None);
                    assert(done + (seq![device@] + rest) =~= done.push(device@) + rest);
                    done = done.push(device@);
                }
                devices.push(device);
                current = None;
            }
        }
        i += 1;
    }
    proof {
        assert(done + Seq::<DeviceView>::empty() =~= done);
    }
    devices
}

/// V4L2 resolution with framerates.
#[derive(Debug, Clone)]
pub struct V4l2Resolution {
    pub width: u32,
    pub height: u32,
    pub framerates: Vec<u32>,
}

/// V4L2 format info from the format listing.
#[derive(Debug, Clone)]
pub struct V4l2Format {
    pub fourcc: String,
    pub description: String,
    pub resolutions: Vec<V4l2Resolution>,
}

/// What a `V4l2Resolution` holds, as plain values.
pub ghost struct ResolutionView {
    pub width: u32,
    pub height: u32,
    pub framerates: Seq<u32>,
}

/// What a `V4l2Format` holds, as plain values.
pub ghost struct FormatView {
    pub fourcc: Seq<char>,
    pub description: Seq<char>,
    pub resolutions: Seq<ResolutionView>,
}

impl View for V4l2Resolution {
    type V = ResolutionView;

    open spec fn view(&self) -> ResolutionView {
        ResolutionView { width: self.width, height: self.height, framerates: self.framerates@ }
    }
}

/// The resolutions `resolutions` as plain values.
pub open spec fn resolution_views(resolutions: Seq<V4l2Resolution>) -> Seq<ResolutionView> {
    Seq::new(resolutions.len(), |i: int| resolutions[i]@)
}

impl View for V4l2Format {
    type V = FormatView;

    open spec fn view(&self) -> FormatView {
        FormatView {
            fourcc: self.fourcc@,
            description: self.description@,
            resolutions: resolution_views(self.resolutions@),
        }
    }
}

/// The formats `formats` as plain values.
pub open spec fn format_views(formats: Seq<V4l2Format>) -> Seq<FormatView> {
    Seq::new(formats.len(), |i: int| formats[i]@)
}

/// What one line of the format listing says.
#[derive(Debug)]
pub enum FormatLine {
    /// A format begins, like `[0]: 'YUYV' (YUYV 4:2:2)`; the FOURCC code
    /// where it can be read, and the description, empty where it cannot.
    Format { fourcc: Option<String>, description: String },
    /// A resolution begins, like `Size: Discrete 1920x1080`; the
    /// resolution where it can be read.
    Size(Option<(u32, u32)>),
    /// A frame rate, like `Interval: Discrete 0.033s (30.000 fps)`; its
    /// numeral where one is found.
    Interval(Option<String>),
    /// Anything else.
    Other,
}

/// A line, trimmed, that begins a format: it starts with `[` and holds a
/// single quote.
pub open spec fn is_format_line(line: Seq<char>) -> bool {
    line.len() > 0 && line[0] == '[' && first_in(line, CharClass::Is('\''), 0) < line.len()
}

/// A line, trimmed, that begins a resolution.
pub open spec fn is_size_line(line: Seq<char>) -> bool {
    !is_format_line(line) && has_prefix(line, "Size: Discrete"@)
}

/// A line, trimmed, that gives a frame rate.
pub open spec fn is_interval_line(line: Seq<char>) -> bool {
    !is_format_line(line) && !is_size_line(line) && has_prefix(line, "Interval: Discrete"@)
}

/// The description of a format line, empty where none can be read.
pub open spec fn description_or_empty(line: Seq<char>) -> Seq<char> {
    if description_of(line) is Some {
        description_of(line)->0
    } else {
        Seq::<char>::empty()
    }
}

/// Reads one line of the format listing, without the white space at its
/// ends.
pub fn classify_format_line(line: &str) -> (kind: FormatLine)
    ensures
        ({
            let text = trimmed(line@);
            match kind {
                FormatLine::Format { fourcc, description } => is_format_line(text) && text_of(
                    fourcc,
                ) == fourcc_of(text) && description@ == description_or_empty(text),
                FormatLine::Size(resolution) => is_size_line(text) && resolution == resolution_of(
                    text,
                ),
                FormatLine::Interval(numeral) => is_interval_line(text) && text_of(numeral)
                    == framerate_text_of(text),
                FormatLine::Other => !is_format_line(text) && !is_size_line(text)
                    && !is_interval_line(text),
            }
        }),
{
    let chars = chars_of(line);
    let text = trim(&chars);
    let text_string = string_of(&text);
    let text_str = text_string.as_str();
    if text.len() > 0 && text[0] == '[' && find_first(&text, CharClass::Is('\''), 0) < text.len() {
        let fourcc = extract_fourcc(text_str);
        let description = match extract_description(text_str) {
            Some(description) => description,
            None => String::new(),
        };
        FormatLine::Format { fourcc, description }
    } else if starts_with(&text, "Size: Discrete") {
        FormatLine::Size(extract_resolution(text_str))
    } else if starts_with(&text, "Interval: Discrete") {
        FormatLine::Interval(extract_framerate(text_str))
    } else {
        FormatLine::Other
    }
}

/// Where the reading of a format listing stands, as plain values: the
/// formats that are complete, the format that is being read, and the
/// resolution that is being read.
pub ghost struct ListingView {
    pub formats: Seq<FormatView>,
    pub format: Option<FormatView>,
    pub resolution: Option<ResolutionView>,
}

impl ListingView {
    /// Nothing has been read.
    pub open spec fn start() -> ListingView {
        ListingView { formats: Seq::empty(), format: None, resolution: None }
    }

    /// The format that is being read, with the resolution that is being
    /// read added to it.
    pub open spec fn closed_format(self) -> FormatView
        recommends
            self.format is Some,
    {
        if self.resolution is Some {
            FormatView {
                resolutions: self.format->0.resolutions.push(self.resolution->0),
                ..self.format->0
            }
        } else {
            self.format->0
        }
    }

    /// A format line was read. The format that was being read is complete,
    /// with the resolution that was being read; a new format begins where the
    /// line gave a FOURCC code.
    pub open spec fn after_format(
        self,
        fourcc: Option<Seq<char>>,
        description: Seq<char>,
    ) -> ListingView {
        let formats = if self.format is Some {
            self.formats.push(self.closed_format())
        } else {
            self.formats
        };
        let resolution = if self.format is Some {
            None
        } else {
            self.resolution
        };
        let format = if fourcc is Some {
            Some(FormatView { fourcc: fourcc->0, description, resolutions: Seq::empty() })
        } else {
            None
        };
        ListingView { formats, format, resolution }
    }

    /// A size line was read. The resolution that was being read goes to the
    /// format that is being read, if there is one; a new resolution begins
    /// where the line gave one.
    pub open spec fn after_size(self, size: Option<(u32, u32)>) -> ListingView {
        let (format, kept) = if self.format is Some {
            (Some(self.closed_format()), None)
        } else {
            (self.format, self.resolution)
        };
        let resolution = match size {
            Some((width, height)) => Some(
                ResolutionView { width, height, framerates: Seq::empty() },
            ),
            None => kept,
        };
        ListingView { formats: self.formats, format, resolution }
    }

    /// An interval line was read. Its frame rate goes to the resolution
    /// that is being read, unless that has it already.
    pub open spec fn after_interval(self, fps: Option<u32>) -> ListingView {
        if fps is Some && self.resolution is Some && !self.resolution->0.framerates.contains(
            fps->0,
        ) {
            ListingView {
                resolution: Some(
                    ResolutionView {
                        framerates: self.resolution->0.framerates.push(fps->0),
                        ..self.resolution->0
                    },
                ),
                ..self
            }
        } else {
            self
        }
    }

    /// The formats of the whole listing: those that are complete and the
    /// one that was being read, with the resolution that was being read.
    pub open spec fn finished(self) -> Seq<FormatView> {
        if self.format is Some {
            self.formats.push(self.closed_format())
        } else {
            self.formats
        }
    }
}

/// The reading of a format listing, line by line.
#[derive(Debug)]
pub struct FormatParser {
    formats: Vec<V4l2Format>,
    current_format: Option<V4l2Format>,
    current_resolution: Option<V4l2Resolution>,
}

/// Tells whether `values` holds `wanted`.
pub fn holds(values: &Vec<u32>, wanted: u32) -> (found: bool)
    ensures
        found == values@.contains(wanted),
{
    let mut i: usize = 0;
    while i < values.len()
        invariant
            i <= values.len(),
            forall|k: int| 0 <= k < i ==> values@[k] != wanted,
        decreases values.len() - i,
    {
        if values[i] == wanted {
            return true;
        }
        i += 1;
    }
    false
}

fn close_format(format: V4l2Format, resolution: Option<V4l2Resolution>) -> (closed: V4l2Format)
    ensures
        closed@ == (ListingView {
            formats: Seq::empty(),
            format: Some(format@),
            resolution: match resolution {
                Some(r) => Some(r@),
                None => None,
            },
        }).closed_format(),
{
    let mut format = format;
    match resolution {
        Some(resolution) => {
            let ghost before = format.resolutions@;
            format.resolutions.push(resolution);
            assert(resolution_views(before.push(resolution)) =~= resolution_views(before).push(
                resolution@,
            ));
            format
        },
        None => format,
    }
}

impl View for FormatParser {
    type V = ListingView;

    closed spec fn view(&self) -> ListingView {
        ListingView {
            formats: format_views(self.formats@),
            format: match self.current_format {
                Some(f) => Some(f@),
                None => None,
            },
            resolution: match self.current_resolution {
                Some(r) => Some(r@),
                None => None,
            },
        }
    }
}

impl FormatParser {
    /// A reading that has read nothing.
    pub fn new() -> (parser: Self)
        ensures
            parser@ == ListingView::start(),
    {
        let parser = FormatParser {
            formats: Vec::new(),
            current_format: None,
            current_resolution: None,
        };
        assert(format_views(parser.formats@) =~= Seq::<FormatView>::empty());
        parser
    }

    /// Reads a format line.
    pub fn format_line(self, fourcc: Option<String>, description: String) -> (next: Self)
        ensures
            next@ == self@.after_format(text_of(fourcc), description@),
    {
        let FormatParser { formats, current_format, current_resolution } = self;
        let mut formats = formats;
        let current_resolution = match current_format {
            Some(format) => {
                let closed = close_format(format, current_resolution);
                let ghost before = formats@;
                formats.push(closed);
                assert(format_views(before.push(closed)) =~= format_views(before).push(closed@));
                None
            },
            None => current_resolution,
        };
        let current_format = match fourcc {
            Some(fourcc) => {
                let format = V4l2Format { fourcc, description, resolutions: Vec::new() };
                assert(resolution_views(format.resolutions@) =~= Seq::<ResolutionView>::empty());
                Some(format)
            },
            None => None,
        };
        FormatParser { formats, current_format, current_resolution }
    }

    /// Reads a size line.
    pub fn size_line(self, size: Option<(u32, u32)>) -> (next: Self)
        ensures
            next@ == self@.after_size(size),
    {
        let FormatParser { formats, current_format, current_resolution } = self;
        let (current_format, kept) = match current_format {
            Some(format) => (Some(close_format(format, current_resolution)), None),
            None => (None, current_resolution),
        };
        let current_resolution = match size {
            Some((width, height)) => Some(
                V4l2Resolution { width, height, framerates: Vec::new() },
            ),
            None => kept,
        };
        FormatParser { formats, current_format, current_resolution }
    }

    /// Reads an interval line whose frame rate, rounded to a whole number,
    /// is `fps`.
    pub fn interval_line(self, fps: Option<u32>) -> (next: Self)
        ensures
            next@ == self@.after_interval(fps),
    {
        let FormatParser { formats, current_format, current_resolution } = self;
        let current_resolution = match (fps, current_resolution) {
            (Some(fps), Some(resolution)) => {
                let mut resolution = resolution;
                if !holds(&resolution.framerates, fps) {
                    resolution.framerates.push(fps);
                }
                Some(resolution)
            },
            (_, kept) => kept,
        };
        FormatParser { formats, current_format, current_resolution }
    }

    /// Ends the reading and returns the formats that were read.
    pub fn finish(self) -> (formats: Vec<V4l2Format>)
        ensures
            format_views(formats@) == self@.finished(),
    {
        let FormatParser { formats, current_format, current_resolution } = self;
        let mut formats = formats;
        match current_format {
            Some(format) => {
                let closed = close_format(format, current_resolution);
                let ghost before = formats@;
                formats.push(closed);
                assert(format_views(before.push(closed)) =~= format_views(before).push(closed@));
            },
            None => {},
        }
        formats
    }
}

/// The entry of the device menu for a device: its name, and its path in
/// round brackets.
pub open spec fn bracketed_text(name: Seq<char>, detail: Seq<char>) -> Seq<char> {
    name + " ("@ + detail + ")"@
}

/// The frame rates `rates`, each as a numeral, with `/` between two.
pub open spec fn joined_rates(rates: Seq<u32>) -> Seq<char>
    decreases rates.len(),
{
    if rates.len() == 0 {
        Seq::<char>::empty()
    } else if rates.len() == 1 {
        decimal(rates[0] as nat)
    } else {
        joined_rates(rates.drop_last()) + "/"@ + decimal(rates.last() as nat)
    }
}

/// The entry of the resolution menu for a resolution.
pub open spec fn resolution_label_text(resolution: ResolutionView) -> Seq<char> {
    decimal(resolution.width as nat) + "x"@ + decimal(resolution.height as nat) + " @ "@
        + joined_rates(resolution.framerates) + " fps"@
}

/// The entry of the device menu for `device`.
pub fn device_label(device: &V4l2Device) -> (label: String)
    ensures
        label@ == bracketed_text(device.name@, device.path@),
{
    let mut label = device.name.clone();
    push_text(&mut label, " (");
    push_text(&mut label, device.path.as_str());
    push_text(&mut label, ")");
    label
}

/// The entry of the format menu for `format`.
pub fn format_label(format: &V4l2Format) -> (label: String)
    ensures
        label@ == bracketed_text(format.fourcc@, format.description@),
{
    let mut label = format.fourcc.clone();
    push_text(&mut label, " (");
    push_text(&mut label, format.description.as_str());
    push_text(&mut label, ")");
    label
}

/// The entry of the resolution menu for `resolution`.
pub fn resolution_label(resolution: &V4l2Resolution) -> (label: String)
    ensures
        label@ == resolution_label_text(resolution@),
{
    let mut label = String::new();
    push_decimal(&mut label, resolution.width as u64);
    push_text(&mut label, "x");
    push_decimal(&mut label, resolution.height as u64);
    push_text(&mut label, " @ ");
    let ghost head = label@;
    assert(head =~= decimal(resolution.width as nat) + "x"@ + decimal(resolution.height as nat)
        + " @ "@);
    let mut i: usize = 0;
    while i < resolution.framerates.len()
        invariant
            i <= resolution.framerates.len(),
            label@ == head + joined_rates(resolution.framerates@.take(i as int)),
        decreases resolution.framerates.len() - i,
    {
        let ghost so_far = resolution.framerates@.take(i as int);
        let ghost next = resolution.framerates@.take(i + 1);
        assert(next.drop_last() =~= so_far);
        if i > 0 {
            push_text(&mut label, "/");
        }
        push_decimal(&mut label, resolution.framerates[i] as u64);
        assert(label@ =~= head + joined_rates(next)) by {
            if i == 0 {
                assert(joined_rates(so_far) =~= Seq::<char>::empty());
            }
        }
        i += 1;
    }
    assert(resolution.framerates@.take(i as int) =~= resolution.framerates@);
    push_text(&mut label, " fps");
    label
}

/// The entry of the frame rate menu for `fps`.
pub fn fps_label(fps: u32) -> (label: String)
    ensures
        label@ == decimal(fps as nat) + " fps"@,
{
    let mut label = String::new();
    push_decimal(&mut label, fps as u64);
    push_text(&mut label, " fps");
    assert(label@ =~= decimal(fps as nat) + " fps"@);
    label
}

/// How the frame rate of a resolution is settled.
#[derive(Debug, Clone, Copy, PartialEq, Eq, Structural)]
pub enum FramerateChoice {
    /// The resolution has several frame rates: the user picks one.
    Ask,
    /// The resolution has this one frame rate.
    Only(u32),
    /// The resolution has no frame rate.
    Missing,
}

/// How the frame rate of `resolution` is settled.
pub fn framerate_choice(resolution: &V4l2Resolution) -> (choice: FramerateChoice)
    ensures
        resolution.framerates@.len() > 1 ==> choice == FramerateChoice::Ask,
        resolution.framerates@.len() == 1 ==> choice == FramerateChoice::Only(
            resolution.framerates@[0],
        ),
        resolution.framerates@.len() == 0 ==> choice == FramerateChoice::Missing,
{
    if resolution.framerates.len() > 1 {
        FramerateChoice::Ask
    } else if resolution.framerates.len() == 1 {
        FramerateChoice::Only(resolution.framerates[0])
    } else {
        FramerateChoice::Missing
    }
}

/// The bitrate in kbps that the wizard proposes.
pub const DEFAULT_BITRATE: u32 = 2000;

/// The latency in milliseconds that the wizard writes for a remote source.
pub const DEFAULT_LATENCY: u32 = 200;

impl V4l2Config {
    /// The configuration of a capture source from the answers of the user.
    /// No pixel format is written: the device negotiates it.
    pub fn new(
        name: String,
        device: String,
        resolution: &V4l2Resolution,
        framerate: u32,
        bitrate: u32,
    ) -> (config: Self)
        ensures
            config.name == name,
            config.device == device,
            config.format is None,
            config.width == resolution.width,
            config.height == resolution.height,
            config.framerate == framerate,
            config.bitrate == bitrate,
    {
        V4l2Config {
            name,
            device,
            format: None,
            width: resolution.width,
            height: resolution.height,
            framerate,
            bitrate,
        }
    }
}

impl RtspConfig {
    /// The configuration of a remote source from the answers of the user:
    /// no credentials, and the latency that the wizard writes.
    pub fn new(name: String, url: String, transcode: bool, bitrate: Option<u32>) -> (config: Self)
        ensures
            config.name == name,
            config.url == url,
            config.username is None,
            config.password is None,
            config.latency == DEFAULT_LATENCY,
            config.transcode == transcode,
            config.bitrate == bitrate,
    {
        RtspConfig {
            name,
            url,
            username: None,
            password: None,
            latency: DEFAULT_LATENCY,
            transcode,
            bitrate,
        }
    }
}

/// The text `s` in lower case, as Unicode defines it.
pub uninterp spec fn lowercase_of(s: Seq<char>) -> Seq<char>;

/// `str::to_lowercase`: the lower case of a text depends on the text alone.
#[verifier::external_body]
fn to_lowercase(text: &str) -> (lowered: String)
    ensures
        lowered@ == lowercase_of(text@),
{
    text.to_lowercase()
}

/// The first word of `text`, or `otherwise` where it has no word.
pub open spec fn first_word_or(text: Seq<char>, otherwise: Seq<char>) -> Seq<char> {
    if words_of(text).len() > 0 {
        words_of(text)[0]
    } else {
        otherwise
    }
}

/// The first word of `text`, or `camera` where it has no word.
pub fn first_word_or_camera(text: &str) -> (name: String)
    ensures
        name@ == first_word_or(text@, "camera"@),
{
    let chars = chars_of(text);
    let all = words(&chars);
    if all.len() > 0 {
        string_of(&all[0])
    } else {
        String::from_str("camera")
    }
}

/// The stream name that the wizard proposes for the device called
/// `device_name`: the first word of that name in lower case, or `camera`.
pub fn default_device_name(device_name: &str) -> (name: String)
    ensures
        name@ == first_word_or(lowercase_of(device_name@), "camera"@),
{
    let lowered = to_lowercase(device_name);
    first_word_or_camera(lowered.as_str())
}

/// What stands in `url` after the first `://` and before the next one.
pub open spec fn after_scheme(url: Seq<char>) -> Option<Seq<char>> {
    let mark = first_match(url, "://"@, 0);
    if mark >= url.len() {
        None
    } else {
        Some(url.subrange(mark + "://"@.len(), first_match(url, "://"@, mark + "://"@.len())))
    }
}

/// `s` with every `.` turned into `-`.
pub open spec fn dots_to_dashes(s: Seq<char>) -> Seq<char> {
    Seq::new(
        s.len(),
        |i: int|
            if s[i] == '.' {
                '-'
            } else {
                s[i]
            },
    )
}

/// The stream name that the wizard proposes for the stream at `url`: of
/// what follows `://`, the part before the first `/`, of that the part before
/// the first `:`, and of that the part after the last `@`, with a dash for
/// every dot; `camera` for a URL without `://`.
pub open spec fn stream_name_text(url: Seq<char>) -> Seq<char> {
    dots_to_dashes(
        if after_scheme(url) is Some {
            after_last(before_first(before_first(after_scheme(url)->0, '/'), ':'), '@')
        } else {
            "camera"@
        },
    )
}

/// The stream name that the wizard proposes for the stream at `url`.
pub fn default_stream_name(url: &str) -> (name: String)
    ensures
        name@ == stream_name_text(url@),
{
    proof {
        reveal_strlit("://");
    }
    let chars = chars_of(url);
    let mark = find_text(&chars, "://", 0);
    let host = if mark >= chars.len() {
        chars_of("camera")
    } else {
        assert(mark + 3 <= chars.len());
        let next = find_text(&chars, "://", mark + 3);
        let rest = slice_of(&chars, mark + 3, next);
        let rest = take_before_first(&rest, '/');
        let rest = take_before_first(&rest, ':');
        take_after_last(&rest, '@')
    };
    let mut dashed: Vec<char> = Vec::new();
    let mut i: usize = 0;
    while i < host.len()
        invariant
            i <= host.len(),
            dashed@ == dots_to_dashes(host@).take(i as int),
        decreases host.len() - i,
    {
        let c = host[i];
        dashed.push(
            if c == '.' {
                '-'
            } else {
                c
            },
        );
        assert(dashed@ =~= dots_to_dashes(host@).take(i + 1));
        i += 1;
    }
    assert(dashed@ =~= dots_to_dashes(host@));
    string_of(&dashed)
}

/// What the stream listing says of the first video stream.
#[derive(Debug)]
pub struct StreamFields {
    pub codec: String,
    pub width: u32,
    pub height: u32,
    /// The two sides of the frame rate, like `30000` and `1001`, where the
    /// listing gives a rate with exactly one `/` in it.
    pub rate: Option<(String, String)>,
}

/// The number that `s` writes, or 0 where it writes none.
pub open spec fn u32_or_zero(s: Seq<char>) -> u32 {
    if u32_of(s) is Some {
        u32_of(s)->0
    } else {
        0
    }
}

/// The two sides of a frame rate, where it has exactly two.
pub open spec fn rate_sides(rate: Seq<char>) -> Option<(Seq<char>, Seq<char>)> {
    if fields_of(rate, '/').len() == 2 {
        Some((fields_of(rate, '/')[0], fields_of(rate, '/')[1]))
    } else {
        None
    }
}

/// Reads the stream listing `stdout`: codec, width, height and frame rate,
/// with commas between them. Fewer than three fields are no listing; a width
/// or a height that is no number counts as 0.
pub fn parse_stream_fields(stdout: &str) -> (r: Result<StreamFields, WizardError>)
    ensures
        ({
            let parts = fields_of(trimmed(stdout@), ',');
            &&& parts.len() < 3 ==> r == Err::<StreamFields, WizardError>(
                WizardError::NoStreamInfo,
            )
            &&& parts.len() >= 3 ==> r is Ok && r->Ok_0.codec@ == parts[0] && r->Ok_0.width
                == u32_or_zero(parts[1]) && r->Ok_0.height == u32_or_zero(parts[2])
            &&& parts.len() == 3 ==> r->Ok_0.rate is None
            &&& parts.len() > 3 ==> match r->Ok_0.rate {
                Some((above, below)) => rate_sides(parts[3]) == Some((above@, below@)),
                None => rate_sides(parts[3]) is None,
            }
        }),
{
    let chars = chars_of(stdout);
    let text = trim(&chars);
    let parts = fields(&text, ',');
    if parts.len() < 3 {
        return Err(WizardError::NoStreamInfo);
    }
    let codec = string_of(&parts[0]);
    let width = match parse_u32(&parts[1]) {
        Some(width) => width,
        None => 0,
    };
    let height = match parse_u32(&parts[2]) {
        Some(height) => height,
        None => 0,
    };
    let rate = if parts.len() > 3 {
        let sides = fields(&parts[3], '/');
        if sides.len() == 2 {
            Some((string_of(&sides[0]), string_of(&sides[1])))
        } else {
            None
        }
    } else {
        None
    };
    Ok(StreamFields { codec, width, height, rate })
}

} // verus!
