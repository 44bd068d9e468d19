//! The side of the streaming server: mount paths, the launch lines of the
//! media factories, output authentication, and the start of a client
//! session on a keyframe.

use crate::config::{AuthConfig, OutputCodec, SourceConfig};
use crate::sources::v4l2::{capture_caps_text, output_caps, output_caps_text, push_capture_caps};
use crate::sources::{
    build_encoder_string, build_mpp_h265_encoder_string, encoder_string, h264_caps,
    h264_caps_text, h265_caps, h265_caps_text, mpp_h265_encoder_string, PipelineError,
};
use crate::text::{decimal, push_decimal, push_text};
use vstd::prelude::*;
use vstd::string::*;

verus! {

/// Frame data sent from a source to the RTSP output: one encoded access
/// unit and whether a decoder can start from it.
#[derive(Debug)]
pub struct FrameData {
    pub data: Vec<u8>,
    pub is_keyframe: bool,
}

/// The path under which the source called `name` is published.
pub open spec fn mount_path_text(name: Seq<char>) -> Seq<char> {
    "/"@ + name + "/stream"@
}

/// The address at which clients find the source called `name`.
pub open spec fn stream_url_text(address: Seq<char>, port: u16, name: Seq<char>) -> Seq<char> {
    "rtsp://"@ + address + ":"@ + decimal(port as nat) + mount_path_text(name)
}

/// The path under which the source called `name` is published.
pub fn mount_path(name: &str) -> (path: String)
    ensures
        path@ == mount_path_text(name@),
{
    let mut path = String::from_str("/");
    push_text(&mut path, name);
    push_text(&mut path, "/stream");
    path
}

/// The address at which clients find the source called `name`.
pub fn stream_url(address: &str, port: u16, name: &str) -> (url: String)
    ensures
        url@ == stream_url_text(address@, port, name@),
{
    let mut url = String::from_str("rtsp://");
    push_text(&mut url, address);
    push_text(&mut url, ":");
    push_decimal(&mut url, port as u64);
    let ghost head = url@;
    push_text(&mut url, "/");
    push_text(&mut url, name);
    push_text(&mut url, "/stream");
    assert(url@ =~= head + mount_path_text(name@));
    url
}

/// The codec that goes out for a remote source: H.265 where the stream is
/// encoded again and the hardware encoder is present, else H.264.
pub open spec fn codec_for(transcode: bool, mpp: bool) -> OutputCodec {
    if transcode && mpp {
        OutputCodec::H265
    } else {
        OutputCodec::H264
    }
}

/// The codec that goes out for a remote source.
pub fn select_codec(transcode: bool, mpp: bool) -> (codec: OutputCodec)
    ensures
        codec == codec_for(transcode, mpp),
{
    if transcode && mpp {
        OutputCodec::H265
    } else {
        OutputCodec::H264
    }
}

/// The launch line of a factory whose frames are pushed in by this crate.
pub open spec fn appsrc_launch_text(codec: OutputCodec) -> Seq<char> {
    match codec {
        OutputCodec::H264 => {
            "( appsrc name=videosrc is-live=true format=time do-timestamp=true \
caps=video/x-h264,stream-format=byte-stream,alignment=au \
! h264parse \
! rtph264pay name=pay0 pt=96 )"@
        },
        OutputCodec::H265 => {
            "( appsrc name=videosrc is-live=true format=time do-timestamp=true \
caps=video/x-h265,stream-format=byte-stream,alignment=au \
! h265parse config-interval=-1 \
! rtph265pay name=pay0 pt=96 )"@
        },
    }
}

/// The launch line of a factory whose frames are pushed in by this crate.
pub fn appsrc_launch(codec: OutputCodec) -> (text: String)
    ensures
        text@ == appsrc_launch_text(codec),
{
    match codec {
        OutputCodec::H264 => String::from_str(
            "( appsrc name=videosrc is-live=true format=time do-timestamp=true \
caps=video/x-h264,stream-format=byte-stream,alignment=au \
! h264parse \
! rtph264pay name=pay0 pt=96 )",
        ),
        OutputCodec::H265 => String::from_str(
            "( appsrc name=videosrc is-live=true format=time do-timestamp=true \
caps=video/x-h265,stream-format=byte-stream,alignment=au \
! h265parse config-interval=-1 \
! rtph265pay name=pay0 pt=96 )",
        ),
    }
}

/// The raw-video caps asked of a capture device that feeds the hardware
/// encoder: NV12, and the width, height and framerate that are set.
pub open spec fn nv12_caps_text(source: &SourceConfig) -> Seq<char> {
    let base = "video/x-raw,format=NV12"@;
    let with_width = if source.width is Some {
        base + ",width="@ + decimal(source.width->0 as nat)
    } else {
        base
    };
    let with_height = if source.height is Some {
        with_width + ",height="@ + decimal(source.height->0 as nat)
    } else {
        with_width
    };
    if source.framerate is Some {
        with_height + ",framerate="@ + decimal(source.framerate->0 as nat) + "/1"@
    } else {
        with_height
    }
}

/// The launch line of a factory that runs the capture pipeline of `source`
/// itself, from the device `device`.
pub open spec fn v4l2_launch_text(source: &SourceConfig, device: Seq<char>, mpp: bool) -> Seq<
    char,
> {
    if mpp {
        "( v4l2src device="@ + device + " ! "@ + nv12_caps_text(source) + " ! "@
            + mpp_h265_encoder_string(source.encode_settings()) + " ! "@ + h265_caps_text()
            + " ! h265parse config-interval=-1 ! rtph265pay name=pay0 pt=96 )"@
    } else {
        "( v4l2src device="@ + device + capture_caps_text(source)
            + " ! videoconvert ! videoscale ! "@ + output_caps_text(source) + " ! "@
            + encoder_string(source.encode_settings()) + " ! "@ + h264_caps_text()
            + " ! h264parse ! rtph264pay name=pay0 pt=96 )"@
    }
}

/// The raw-video caps asked of a capture device that feeds the hardware
/// encoder.
pub fn nv12_caps(source: &SourceConfig) -> (caps: String)
    ensures
        caps@ == nv12_caps_text(source),
{
    let mut caps = String::from_str("video/x-raw,format=NV12");
    if let Some(w) = source.width {
        push_text(&mut caps, ",width=");
        push_decimal(&mut caps, w as u64);
    }
    if let Some(h) = source.height {
        push_text(&mut caps, ",height=");
        push_decimal(&mut caps, h as u64);
    }
    if let Some(f) = source.framerate {
        push_text(&mut caps, ",framerate=");
        push_decimal(&mut caps, f as u64);
        push_text(&mut caps, "/1");
    }
    caps
}

/// The launch line of the factory for the capture source `source`. A
/// source without a device has none.
pub fn v4l2_mount_launch(source: &SourceConfig, mpp: bool) -> (r: Result<String, PipelineError>)
    ensures
        source.device is None ==> r == Err::<String, PipelineError>(PipelineError::MissingDevice),
        source.device is Some ==> r is Ok && r->Ok_0@ == v4l2_launch_text(
            source,
            source.device->0@,
            mpp,
        ),
{
    let device = match &source.device {
        Some(device) => device,
        None => {
            return Err(PipelineError::MissingDevice);
        },
    };
    let encode = source.encode_config();
    let mut text = String::from_str("( v4l2src device=");
    push_text(&mut text, device.as_str());
    if mpp {
        let encoder = build_mpp_h265_encoder_string(&encode);
        let caps = nv12_caps(source);
        push_text(&mut text, " ! ");
        push_text(&mut text, caps.as_str());
        push_text(&mut text, " ! ");
        push_text(&mut text, encoder.as_str());
        push_text(&mut text, " ! ");
        push_text(&mut text, h265_caps());
        push_text(&mut text, " ! h265parse config-interval=-1 ! rtph265pay name=pay0 pt=96 )");
    } else {
        let encoder = build_encoder_string(&encode);
        let caps = output_caps(source);
        push_capture_caps(&mut text, source);
        push_text(&mut text, " ! videoconvert ! videoscale ! ");
        push_text(&mut text, caps.as_str());
        push_text(&mut text, " ! ");
        push_text(&mut text, encoder.as_str());
        push_text(&mut text, " ! ");
        push_text(&mut text, h264_caps());
        push_text(&mut text, " ! h264parse ! rtph264pay name=pay0 pt=96 )");
    }
    Ok(text)
}

/// Why output authentication cannot be set up.
#[derive(Debug, Clone, Copy, PartialEq, Eq, Structural)]
pub enum AuthError {
    /// Authentication is enabled and no user name is set.
    MissingUsername,
    /// Authentication is enabled and no password is set.
    MissingPassword,
}

impl AuthError {
    pub open spec fn message_text(self) -> Seq<char> {
        match self {
            AuthError::MissingUsername => "Auth enabled but username not set"@,
            AuthError::MissingPassword => "Auth enabled but password not set"@,
        }
    }

    /// Writes this error out.
    pub fn message(&self) -> (text: String)
        ensures
            text@ == self.message_text(),
    {
        match self {
            AuthError::MissingUsername => String::from_str("Auth enabled but username not set"),
            AuthError::MissingPassword => String::from_str("Auth enabled but password not set"),
        }
    }
}

/// Whether the output of `source` is to ask clients for credentials.
pub fn auth_enabled(source: &SourceConfig) -> (enabled: bool)
    ensures
        enabled == (source.auth is Some && source.auth->0.enabled),
{
    match &source.auth {
        Some(auth) => auth.enabled,
        None => false,
    }
}

/// The user name and password that clients must present: both must be set,
/// and the user name is looked at first.
pub fn auth_credentials(auth: &AuthConfig) -> (r: Result<(String, String), AuthError>)
    ensures
        auth.username is None ==> r == Err::<(String, String), AuthError>(
            AuthError::MissingUsername,
        ),
        auth.username is Some && auth.password is None ==> r == Err::<
            (String, String),
            AuthError,
        >(AuthError::MissingPassword),
        auth.username is Some && auth.password is Some ==> r == Ok::<
            (String, String),
            AuthError,
        >((auth.username->0, auth.password->0)),
{
    let username = match &auth.username {
        Some(username) => username,
        None => {
            return Err(AuthError::MissingUsername);
        },
    };
    let password = match &auth.password {
        Some(password) => password,
        None => {
            return Err(AuthError::MissingPassword);
        },
    };
    Ok((username.clone(), password.clone()))
}

/// The index of the first keyframe of `frames` at or after `from`, or the
/// length of `frames` where there is none.
pub open spec fn first_keyframe(frames: Seq<FrameData>, from: int) -> int
    recommends
        0 <= from,
    decreases frames.len() - from,
{
    if from >= frames.len() {
        frames.len() as int
    } else if frames[from].is_keyframe {
        from
    } else {
        first_keyframe(frames, from + 1)
    }
}

/// What a client session that starts on `frames` is sent: nothing before
/// the first keyframe, and from it on every frame, in order.
pub open spec fn gated(frames: Seq<FrameData>) -> Seq<FrameData> {
    frames.skip(first_keyframe(frames, 0))
}

/// `first_keyframe` finds the least index of a keyframe.
pub proof fn lemma_first_keyframe(frames: Seq<FrameData>, from: int)
    requires
        0 <= from <= frames.len(),
    ensures
        from <= first_keyframe(frames, from) <= frames.len(),
        forall|i: int|
            from <= i < first_keyframe(frames, from) ==> !(#[trigger] frames[i]).is_keyframe,
        first_keyframe(frames, from) < frames.len() ==> frames[first_keyframe(
            frames,
            from,
        )].is_keyframe,
    decreases frames.len() - from,
{
    if from < frames.len() && !frames[from].is_keyframe {
        lemma_first_keyframe(frames, from + 1);
    }
}

/// A session drops the frames that come before its first keyframe and
/// nothing else: what it sends is the rest of the input, unchanged and in
/// order, and starts with a keyframe.
pub proof fn lemma_gated_is_suffix(frames: Seq<FrameData>)
    ensures
        gated(frames).len() <= frames.len(),
        forall|i: int|
            0 <= i < gated(frames).len() ==> #[trigger] gated(frames)[i] == frames[frames.len()
                - gated(frames).len() + i],
        forall|i: int|
            0 <= i < frames.len() - gated(frames).len() ==> !(#[trigger] frames[i]).is_keyframe,
        gated(frames).len() > 0 ==> gated(frames)[0].is_keyframe,
{
    lemma_first_keyframe(frames, 0);
}

/// A session whose first frame is a keyframe is sent every frame: so a
/// client that attaches while a placeholder is shown, each frame of which is
/// a keyframe, starts at once.
pub proof fn lemma_session_starts_on_keyframe(frames: Seq<FrameData>)
    requires
        frames.len() > 0,
        frames[0].is_keyframe,
    ensures
        gated(frames) == frames,
{
    assert(frames.skip(0) =~= frames);
}

/// What the consumer of a delivery channel does with a frame.
#[derive(Debug, Clone, Copy, PartialEq, Eq, Structural)]
pub enum PushDecision {
    /// The session has not started yet: the frame is dropped.
    Discard,
    /// The frame goes to the client, marked as a delta unit or not.
    Push { delta_unit: bool },
}

/// The consuming end of one delivery channel: it holds a client session
/// back until the first keyframe and counts what it pushed.
#[derive(Debug)]
pub struct FramePusher {
    waiting_for_keyframe: bool,
    frame_count: u64,
}

/// After how many pushed frames progress is reported.
pub const REPORT_EVERY: u64 = 300;

impl FramePusher {
    /// No keyframe has been seen yet.
    pub closed spec fn waiting(&self) -> bool {
        self.waiting_for_keyframe
    }

    /// The number of frames pushed so far.
    pub closed spec fn count(&self) -> nat {
        self.frame_count as nat
    }

    /// The consumer of a fresh channel.
    pub fn new() -> (pusher: Self)
        ensures
            pusher.waiting(),
            pusher.count() == 0,
    {
        FramePusher { waiting_for_keyframe: true, frame_count: 0 }
    }

    /// Whether the session still waits for its first keyframe.
    pub fn is_waiting(&self) -> (waiting: bool)
        ensures
            waiting == self.waiting(),
    {
        self.waiting_for_keyframe
    }

    /// The number of frames pushed so far.
    pub fn frame_count(&self) -> (count: u64)
        ensures
            count == self.count(),
    {
        self.frame_count
    }

    /// Decides what becomes of `frame`: it is dropped while the session
    /// waits for a keyframe and is none; else it is pushed, and the session
    /// waits no longer.
    pub fn offer(&mut self, frame: &FrameData) -> (decision: PushDecision)
        ensures
            final(self).count() == old(self).count(),
            old(self).waiting() && !frame.is_keyframe ==> decision == PushDecision::Discard
                && final(self).waiting(),
            !(old(self).waiting() && !frame.is_keyframe) ==> decision == (PushDecision::Push {
                delta_unit: !frame.is_keyframe,
            }) && !final(self).waiting(),
    {
        if self.waiting_for_keyframe {
            if !frame.is_keyframe {
                return PushDecision::Discard;
            }
            self.waiting_for_keyframe = false;
        }
        PushDecision::Push { delta_unit: !frame.is_keyframe }
    }

    /// Records that a frame went out. Returns whether progress is to be
    /// reported: after every 300th frame. The count stops at `u64::MAX`.
    pub fn pushed(&mut self) -> (report: bool)
        ensures
            final(self).waiting() == old(self).waiting(),
            final(self).count() == if old(self).count() < u64::MAX {
                old(self).count() + 1
            } else {
                old(self).count()
            },
            report == (final(self).count() % 300 == 0),
    {
        if self.frame_count < u64::MAX {
            self.frame_count += 1;
        }
        self.frame_count % REPORT_EVERY == 0
    }
}

/// Runs a fresh session over `frames` and returns what it sends.
pub fn gate_frames(frames: Vec<FrameData>) -> (sent: Vec<FrameData>)
    ensures
        sent@ == gated(frames@),
{
    let ghost all = frames@;
    let mut pusher = FramePusher::new();
    let mut sent: Vec<FrameData> = Vec::new();
    proof {
        lemma_first_keyframe(all, 0);
    }
    for frame in it: frames
        invariant
            it.seq() == all,
            0 <= first_keyframe(all, 0) <= all.len(),
            forall|i: int| 0 <= i < first_keyframe(all, 0) ==> !(#[trigger] all[i]).is_keyframe,
            first_keyframe(all, 0) < all.len() ==> all[first_keyframe(all, 0)].is_keyframe,
            pusher.waiting() ==> it.index() <= first_keyframe(all, 0) && sent@.len() == 0,
            !pusher.waiting() ==> first_keyframe(all, 0) < it.index() && sent@ == all.subrange(
                first_keyframe(all, 0),
                it.index() as int,
            ),
    {
        match pusher.offer(&frame) {
            PushDecision::Discard => {},
            PushDecision::Push { .. } => {
                sent.push(frame);
            },
        }
        assert(!pusher.waiting() ==> sent@ =~= all.subrange(
            first_keyframe(all, 0),
            it.index() + 1,
        ));
    }
    assert(sent@ =~= gated(all));
    sent
}

/// The place where the producers of a source find the delivery channel of
/// the current client session. It holds the sending end of one channel at
/// most, with the number of the session that it belongs to; a new session
/// takes the place of the one before it.
pub struct ChannelSlot<H> {
    current: Option<(u64, H)>,
    sessions: u64,
}

impl<H> ChannelSlot<H> {
    /// The session whose channel is registered, and the sending end of
    /// that channel.
    pub closed spec fn registered(&self) -> Option<(u64, H)> {
        self.current
    }

    /// How many sessions have been registered so far.
    pub closed spec fn count(&self) -> nat {
        self.sessions as nat
    }

    /// A slot with no channel: no client has attached yet.
    pub fn new() -> (slot: Self)
        ensures
            slot.registered() is None,
            slot.count() == 0,
    {
        ChannelSlot { current: None, sessions: 0 }
    }

    /// Registers the channel of a new client session, whose sending end is
    /// `handle`, in place of any other, and returns the number of the session
    /// with the sending end that was registered before. Sessions are numbered
    /// from 1 in the order in which they attach; after `u64::MAX` sessions
    /// the number stays.
    pub fn register(&mut self, handle: H) -> (r: (u64, Option<H>))
        ensures
            final(self).registered() == Some((r.0, handle)),
            r.0 == final(self).count(),
            final(self).count() == if old(self).count() < u64::MAX {
                old(self).count() + 1
            } else {
                old(self).count()
            },
            r.1 == match old(self).registered() {
                Some((_, before)) => Some(before),
                None => None,
            },
    {
        if self.sessions < u64::MAX {
            self.sessions += 1;
        }
        let session = self.sessions;
        let before = self.current.take();
        self.current = Some((session, handle));
        match before {
            Some((_, handle)) => (session, Some(handle)),
            None => (session, None),
        }
    }

    /// The session `session` has ended: its channel leaves the slot. The
    /// channel of any other session stays, so a session that ends late does
    /// not take the channel of its successor away. Returns the sending end
    /// that left.
    pub fn release(&mut self, session: u64) -> (left: Option<H>)
        ensures
            final(self).count() == old(self).count(),
            match old(self).registered() {
                Some((current, handle)) => if current == session {
                    final(self).registered() is None && left == Some(handle)
                } else {
                    final(self).registered() == old(self).registered() && left is None
                },
                None => final(self).registered() is None && left is None,
            },
    {
        match self.current.take() {
            Some((current, handle)) => {
                if current == session {
                    Some(handle)
                } else {
                    self.current = Some((current, handle));
                    None
                }
            },
            None => None,
        }
    }

    /// The sending end of the channel of the current session: a producer
    /// looks it up before every frame, and drops the frame where there is
    /// none.
    pub fn handle(&self) -> (handle: Option<&H>)
        ensures
            match self.registered() {
                Some((_, current)) => handle == Some(&current),
                None => handle is None,
            },
    {
        match &self.current {
            Some((_, handle)) => Some(handle),
            None => None,
        }
    }

    /// The number of the session whose channel is registered.
    pub fn session(&self) -> (session: Option<u64>)
        ensures
            match self.registered() {
                Some((current, _)) => session == Some(current),
                None => session is None,
            },
    {
        match &self.current {
            Some((session, _)) => Some(*session),
            None => None,
        }
    }
}

} // verus!
