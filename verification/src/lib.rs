//! Staging core for externally produced media frames and clipboard
//! payloads: single-slot handoff from capture callbacks to a polling
//! consumer (freshest frame only, delivered at most once), a dual-slot
//! clipboard exchange keyed by data origin, and a one-shot-configured
//! pixel transform that masks frames judged visually blank before they
//! are staged.
//!
//! All state lives in an explicit [`StagingContext`] owned by the
//! process's composition root; the boundary adapter passes it to every
//! call together with the current monotonic time in milliseconds.

use vstd::prelude::*;

pub mod clipboard;
pub mod codec;
pub mod frame;
pub mod parse;
pub mod transform;

pub use clipboard::ClipboardExchange;
pub use codec::{MediaCodecInfo, MediaCodecInfos};
pub use frame::FrameRaw;
pub use transform::TransformConfig;

use crate::clipboard::{clip_take_model, clip_update_model, slot_of, ClipboardModel, CLIENT_ORIGIN_TAG};
use crate::frame::{set_enable_model, take_delivers, take_model, update_model, FrameModel};
use crate::parse::has_prefix;
use crate::transform::{config_tag, configure_model, transform_result};

verus! {

/// Timeout for a staged video frame, in milliseconds. A high-rate
/// producer makes an old frame worse than no frame.
pub const MAX_VIDEO_FRAME_TIMEOUT_MS: u64 = 100;

/// Timeout for a staged audio frame, in milliseconds. Audio arrives at a
/// lower rate, so longer gaps are tolerated.
pub const MAX_AUDIO_FRAME_TIMEOUT_MS: u64 = 1000;

/// The process-lifetime state of the staging core: one slot per media
/// channel, the clipboard exchange, the recorded codec capabilities and
/// the pixel-transform configuration.
///
/// A single-threaded composition root may own the context whole and use
/// the free functions below. A concurrent adapter instead holds each
/// component under its own exclusive lock and calls the component's
/// methods, which carry the same contracts — so a poisoned lock disables
/// only that component, and no call needs more than one component at a
/// time.
pub struct StagingContext {
    pub video: FrameRaw,
    pub audio: FrameRaw,
    pub clipboards: ClipboardExchange,
    pub codec_info: Option<MediaCodecInfos>,
    pub transform: TransformConfig,
}

impl StagingContext {
    /// The state at process start: both channels disabled and empty, no
    /// pending clipboard payloads, no codec information, transform
    /// unconfigured (a no-op).
    pub fn new() -> (r: StagingContext)
        ensures
            r.video@ == (FrameModel {
                enable: false,
                staged: None,
                last_update: 0,
                timeout: MAX_VIDEO_FRAME_TIMEOUT_MS as int,
            }),
            r.audio@ == (FrameModel {
                enable: false,
                staged: None,
                last_update: 0,
                timeout: MAX_AUDIO_FRAME_TIMEOUT_MS as int,
            }),
            r.clipboards@ == (ClipboardModel { host: None, client: None }),
            r.codec_info is None,
            !r.transform.configured,
            !transform::transform_active(r.transform),
    {
        StagingContext {
            video: FrameRaw::new(MAX_VIDEO_FRAME_TIMEOUT_MS),
            audio: FrameRaw::new(MAX_AUDIO_FRAME_TIMEOUT_MS),
            clipboards: ClipboardExchange::new(),
            codec_info: None,
            transform: TransformConfig::unconfigured(),
        }
    }
}

/// Poll the video channel at time `now_ms`. Delivers the staged frame
/// into `dst` (resized to fit) and records it in `prev`, unless the
/// channel is disabled, nothing is staged, the frame is stale, or it
/// equals `prev` byte for byte; a stale or duplicate frame is discarded
/// from the slot all the same.
pub fn get_video_raw(ctx: &mut StagingContext, dst: &mut Vec<u8>, prev: &mut Vec<u8>, now_ms: u64) -> (r: Option<()>)
    ensures
        final(ctx).video@ == take_model(old(ctx).video@),
        final(ctx).audio == old(ctx).audio,
        final(ctx).clipboards == old(ctx).clipboards,
        final(ctx).codec_info == old(ctx).codec_info,
        final(ctx).transform == old(ctx).transform,
        r is Some <==> take_delivers(old(ctx).video@, old(prev)@, now_ms as int),
        r is Some ==> final(dst)@ == old(ctx).video@.staged->Some_0
            && final(prev)@ == old(ctx).video@.staged->Some_0,
        r is None ==> final(dst)@ == old(dst)@ && final(prev)@ == old(prev)@,
{
    ctx.video.take(dst, prev, now_ms)
}

/// Poll the audio channel at time `now_ms`; same contract as the video
/// channel, against the audio slot.
pub fn get_audio_raw(ctx: &mut StagingContext, dst: &mut Vec<u8>, prev: &mut Vec<u8>, now_ms: u64) -> (r: Option<()>)
    ensures
        final(ctx).audio@ == take_model(old(ctx).audio@),
        final(ctx).video == old(ctx).video,
        final(ctx).clipboards == old(ctx).clipboards,
        final(ctx).codec_info == old(ctx).codec_info,
        final(ctx).transform == old(ctx).transform,
        r is Some <==> take_delivers(old(ctx).audio@, old(prev)@, now_ms as int),
        r is Some ==> final(dst)@ == old(ctx).audio@.staged->Some_0
            && final(prev)@ == old(ctx).audio@.staged->Some_0,
        r is None ==> final(dst)@ == old(dst)@ && final(prev)@ == old(prev)@,
{
    ctx.audio.take(dst, prev, now_ms)
}

/// Inbound video frame at time `now_ms`: run the pixel transform over the
/// bytes, then stage the result. While the channel is disabled the frame
/// is dropped.
pub fn notify_video_frame(ctx: &mut StagingContext, data: Vec<u8>, now_ms: u64)
    ensures
        final(ctx).video@ == update_model(
            old(ctx).video@,
            transform_result(old(ctx).transform, data@),
            now_ms as int,
        ),
        final(ctx).audio == old(ctx).audio,
        final(ctx).clipboards == old(ctx).clipboards,
        final(ctx).codec_info == old(ctx).codec_info,
        final(ctx).transform == old(ctx).transform,
{
    let mut buf = data;
    ctx.transform.apply(&mut buf);
    ctx.video.update(buf, now_ms);
}

/// Inbound audio frame at time `now_ms`: stage the bytes as they are.
/// While the channel is disabled the frame is dropped.
pub fn notify_audio_frame(ctx: &mut StagingContext, data: Vec<u8>, now_ms: u64)
    ensures
        final(ctx).audio@ == update_model(old(ctx).audio@, data@, now_ms as int),
        final(ctx).video == old(ctx).video,
        final(ctx).clipboards == old(ctx).clipboards,
        final(ctx).codec_info == old(ctx).codec_info,
        final(ctx).transform == old(ctx).transform,
{
    ctx.audio.update(data, now_ms);
}

/// Inbound clipboard payload: stored in the client-origin slot when the
/// tag marks it client-originated, in the host-origin slot otherwise,
/// overwriting any unconsumed payload of that origin.
pub fn notify_clipboard_update(ctx: &mut StagingContext, origin_tag: u8, payload: Vec<u8>)
    ensures
        final(ctx).clipboards@ == clip_update_model(
            old(ctx).clipboards@,
            origin_tag == CLIENT_ORIGIN_TAG,
            payload@,
        ),
        final(ctx).video == old(ctx).video,
        final(ctx).audio == old(ctx).audio,
        final(ctx).codec_info == old(ctx).codec_info,
        final(ctx).transform == old(ctx).transform,
{
    ctx.clipboards.update_tagged(origin_tag, payload);
}

/// Atomically remove and return the pending clipboard payload of one
/// origin, or `None` when that origin has nothing pending.
pub fn get_clipboards(ctx: &mut StagingContext, client: bool) -> (r: Option<Vec<u8>>)
    ensures
        final(ctx).clipboards@ == clip_take_model(old(ctx).clipboards@, client),
        final(ctx).video == old(ctx).video,
        final(ctx).audio == old(ctx).audio,
        final(ctx).codec_info == old(ctx).codec_info,
        final(ctx).transform == old(ctx).transform,
        r matches Some(p) ==> slot_of(old(ctx).clipboards@, client) == Some(p@),
        r is None ==> slot_of(old(ctx).clipboards@, client) is None,
{
    ctx.clipboards.take(client)
}

/// Toggle the named media channel. Whatever the direction of the toggle,
/// the channel's staged frame is discarded. A name that matches neither
/// channel does nothing.
pub fn set_channel_enabled(ctx: &mut StagingContext, name: &str, enabled: bool)
    ensures
        name@ == "video"@ ==> final(ctx).video@ == set_enable_model(old(ctx).video@, enabled)
            && final(ctx).audio == old(ctx).audio,
        name@ == "audio"@ ==> final(ctx).audio@ == set_enable_model(old(ctx).audio@, enabled)
            && final(ctx).video == old(ctx).video,
        name@ != "video"@ && name@ != "audio"@ ==> final(ctx).video == old(ctx).video
            && final(ctx).audio == old(ctx).audio,
        final(ctx).clipboards == old(ctx).clipboards,
        final(ctx).codec_info == old(ctx).codec_info,
        final(ctx).transform == old(ctx).transform,
{
    proof {
        reveal_strlit("video");
        reveal_strlit("audio");
        assert("video"@[0] == 'v');
        assert("audio"@[0] == 'a');
        assert("video"@ != "audio"@);
    }
    if parse::str_eq(name, "video") {
        ctx.video.set_enable(enabled);
    } else if parse::str_eq(name, "audio") {
        ctx.audio.set_enable(enabled);
    }
}

/// Offer a transform configuration message; see
/// [`TransformConfig::configure`] for when it is accepted.
pub fn configure_transform(ctx: &mut StagingContext, msg: &str)
    ensures
        final(ctx).transform == configure_model(old(ctx).transform, msg@),
        final(ctx).video == old(ctx).video,
        final(ctx).audio == old(ctx).audio,
        final(ctx).clipboards == old(ctx).clipboards,
        final(ctx).codec_info == old(ctx).codec_info,
{
    ctx.transform.configure(msg);
}

/// Decide how a pointer-input event is forwarded to the host, and apply
/// any configuration message it carries.
///
/// An event with mask 37 is the configuration carrier: its `url` must
/// start with the configuration tag, else the event is swallowed
/// (not forwarded); when tagged, the message is offered to the one-shot
/// transform configuration and the event is still forwarded. Every other
/// mask is forwarded untouched. The returned pair is (forward the event,
/// numeric kind: 0 for "touch", 1 otherwise).
pub fn prepare_pointer_input(ctx: &mut StagingContext, kind: &str, mask: i32, url: &str) -> (r: (bool, i32))
    ensures
        r.0 == !(mask == 37 && !has_prefix(url@, config_tag())),
        r.1 == (if kind@ == "touch"@ { 0i32 } else { 1i32 }),
        mask == 37 ==> final(ctx).transform == configure_model(old(ctx).transform, url@),
        mask != 37 ==> final(ctx).transform == old(ctx).transform,
        final(ctx).video == old(ctx).video,
        final(ctx).audio == old(ctx).audio,
        final(ctx).clipboards == old(ctx).clipboards,
        final(ctx).codec_info == old(ctx).codec_info,
{
    ctx.transform.plan_pointer_input(kind, mask, url)
}

/// Record the host's codec capability set, replacing any previous one.
pub fn set_codec_info(ctx: &mut StagingContext, info: MediaCodecInfos)
    ensures
        final(ctx).codec_info == Some(info),
        final(ctx).video == old(ctx).video,
        final(ctx).audio == old(ctx).audio,
        final(ctx).clipboards == old(ctx).clipboards,
        final(ctx).transform == old(ctx).transform,
{
    ctx.codec_info = Some(info);
}

/// A copy of the recorded codec capability set, if one is present.
pub fn get_codec_info(ctx: &StagingContext) -> (r: Option<MediaCodecInfos>)
    ensures
        r is Some <==> ctx.codec_info is Some,
        r matches Some(c) ==> codec::same_codec_infos(c, ctx.codec_info->Some_0),
{
    match &ctx.codec_info {
        Some(info) => Some(info.clone()),
        None => None,
    }
}

/// Forget the recorded codec capability set.
pub fn clear_codec_info(ctx: &mut StagingContext)
    ensures
        final(ctx).codec_info is None,
        final(ctx).video == old(ctx).video,
        final(ctx).audio == old(ctx).audio,
        final(ctx).clipboards == old(ctx).clipboards,
        final(ctx).transform == old(ctx).transform,
{
    ctx.codec_info = None;
}

} // verus!
