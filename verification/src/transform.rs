//! Runtime-configured pixel transform applied to raw video buffers before
//! they are staged. A frame is judged blank by sampling the first three
//! channel bytes of its first and last pixel; a judged-blank frame has
//! every pixel rewritten through a multiply-and-saturate attenuation, with
//! the alpha byte forced to a configured minimum opacity.

use vstd::prelude::*;

use crate::parse::{
    has_prefix, parse_clamped, parse_int_in_range, split_spec, split_str, str_eq,
    str_starts_with, views_of,
};

verus! {

/// The transform's parameters. The whole set is configured at most once
/// per process lifetime; until then every field is zero and the transform
/// is a no-op.
pub struct TransformConfig {
    /// Locked after the first successful configuration; later
    /// configuration attempts are silently ignored.
    pub configured: bool,
    /// Marker value for a blank screen; not read by the transform itself.
    pub blank_marker: usize,
    /// Opaque code accompanying the marker; not read by the transform.
    pub marker_code: isize,
    /// Screen width hint; not read by the transform itself.
    pub width: usize,
    /// Screen height hint; not read by the transform itself.
    pub height: usize,
    /// Value forced into every alpha byte of a rewritten frame.
    pub min_alpha: u8,
    /// Attenuation multiplier applied to every non-alpha channel byte.
    pub multiplier: u32,
    /// Stride of one pixel in bytes.
    pub bytes_per_pixel: usize,
    /// A sampled channel byte at or below this value contributes to the
    /// blank judgement; at or below the disabled sentinel the transform is
    /// off entirely.
    pub blank_threshold: u8,
    /// Saturation ceiling for attenuated channel values.
    pub ceiling: u32,
}

/// Highest `blank_threshold` value at which the transform stays disabled.
pub const BLANK_THRESHOLD_DISABLED: u8 = 3;

/// The transform does anything at all only above the disabled sentinel.
pub open spec fn transform_active(cfg: TransformConfig) -> bool {
    cfg.blank_threshold > BLANK_THRESHOLD_DISABLED
}

/// A buffer is considered for rewriting only when it is a non-empty whole
/// number of pixels and a pixel is wide enough to hold the three sampled
/// channels. Anything else is left untouched rather than read out of
/// bounds.
pub open spec fn well_strided(cfg: TransformConfig, len: int) -> bool {
    &&& cfg.bytes_per_pixel >= 3
    &&& len >= cfg.bytes_per_pixel
    &&& len % (cfg.bytes_per_pixel as int) == 0
}

/// The pixel starting at `base` is blank-contributing when its first three
/// channel bytes all lie at or below the threshold.
pub open spec fn pixel_blank_at(b: Seq<u8>, base: int, threshold: u8) -> bool {
    &&& b[base] <= threshold
    &&& b[base + 1] <= threshold
    &&& b[base + 2] <= threshold
}

/// The whole buffer is rewritten exactly when the transform is active, the
/// buffer is well strided, and both the first and the last pixel are
/// blank-contributing.
pub open spec fn should_rewrite(cfg: TransformConfig, b: Seq<u8>) -> bool {
    &&& transform_active(cfg)
    &&& well_strided(cfg, b.len() as int)
    &&& pixel_blank_at(b, 0, cfg.blank_threshold)
    &&& pixel_blank_at(b, b.len() - cfg.bytes_per_pixel, cfg.blank_threshold)
}

/// One attenuated channel byte: the original value times the multiplier,
/// saturated at the ceiling, written back as an in-range byte.
pub open spec fn attenuated(v: u8, multiplier: u32, ceiling: u32) -> u8 {
    let x = (v as int) * (multiplier as int);
    let capped = if x > ceiling as int {
        ceiling as int
    } else {
        x
    };
    (capped % 256) as u8
}

/// Byte `i` of a rewritten buffer: the alpha byte of each pixel is forced
/// to the configured minimum opacity, every other byte is attenuated.
pub open spec fn rewritten_byte(cfg: TransformConfig, b: Seq<u8>, i: int) -> u8 {
    if i % (cfg.bytes_per_pixel as int) == 3 {
        cfg.min_alpha
    } else {
        attenuated(b[i], cfg.multiplier, cfg.ceiling)
    }
}

/// A fully rewritten buffer.
pub open spec fn rewritten(cfg: TransformConfig, b: Seq<u8>) -> Seq<u8> {
    Seq::new(b.len(), |i: int| rewritten_byte(cfg, b, i))
}

/// What a buffer holds after the transform ran over it.
pub open spec fn transform_result(cfg: TransformConfig, b: Seq<u8>) -> Seq<u8> {
    if should_rewrite(cfg, b) {
        rewritten(cfg, b)
    } else {
        b
    }
}

/// Leading tag of a configuration message.
pub open spec fn config_tag() -> Seq<char> {
    "Clipboard_Management"@
}

/// One pipe-delimited segment of the configuration message, or empty when
/// the message has too few segments.
pub open spec fn config_segment(msg: Seq<char>, k: int) -> Seq<char> {
    let segs = split_spec(msg, '|');
    if 0 <= k < segs.len() {
        segs[k]
    } else {
        Seq::<char>::empty()
    }
}

/// A configuration message is applied when the configuration is not yet
/// locked, the message carries the tag, and it splits into at least nine
/// pipe-delimited segments.
pub open spec fn config_accepts(cfg: TransformConfig, msg: Seq<char>) -> bool {
    &&& !cfg.configured
    &&& has_prefix(msg, config_tag())
    &&& split_spec(msg, '|').len() >= 9
}

/// The parameter set carried by an accepted configuration message. Each
/// malformed, missing or out-of-range field falls back to its documented
/// default.
pub open spec fn configured_from(msg: Seq<char>) -> TransformConfig {
    TransformConfig {
        configured: true,
        blank_marker: parse_clamped(config_segment(msg, 1), 0, usize::MAX as int, 2032) as usize,
        marker_code: parse_clamped(
            config_segment(msg, 2),
            isize::MIN as int,
            isize::MAX as int,
            -2142501224,
        ) as isize,
        width: parse_clamped(config_segment(msg, 3), 0, usize::MAX as int, 1024) as usize,
        height: parse_clamped(config_segment(msg, 4), 0, usize::MAX as int, 1024) as usize,
        min_alpha: parse_clamped(config_segment(msg, 5), 0, 255, 122) as u8,
        multiplier: parse_clamped(config_segment(msg, 6), 0, u32::MAX as int, 80) as u32,
        bytes_per_pixel: parse_clamped(config_segment(msg, 7), 0, usize::MAX as int, 4) as usize,
        blank_threshold: parse_clamped(config_segment(msg, 8), 0, 255, 5) as u8,
        ceiling: parse_clamped(config_segment(msg, 9), 0, u32::MAX as int, 255) as u32,
    }
}

/// The configuration after a message was offered: the carried parameters
/// when the message is accepted, the previous state otherwise.
pub open spec fn configure_model(cfg: TransformConfig, msg: Seq<char>) -> TransformConfig {
    if config_accepts(cfg, msg) {
        configured_from(msg)
    } else {
        cfg
    }
}

/// Law: configuration is one-shot. Once a message has been applied, any
/// later message — with whatever parameters — has no effect.
pub proof fn lemma_configure_once(cfg: TransformConfig, m1: Seq<char>, m2: Seq<char>)
    requires
        config_accepts(cfg, m1),
    ensures
        configure_model(configure_model(cfg, m1), m2) == configure_model(cfg, m1),
{
}

impl TransformConfig {
    /// The state before any configuration message arrived: every parameter
    /// zero, every effect disabled.
    pub fn unconfigured() -> (r: TransformConfig)
        ensures
            r == (TransformConfig {
                configured: false,
                blank_marker: 0,
                marker_code: 0,
                width: 0,
                height: 0,
                min_alpha: 0,
                multiplier: 0,
                bytes_per_pixel: 0,
                blank_threshold: 0,
                ceiling: 0,
            }),
    {
        TransformConfig {
            configured: false,
            blank_marker: 0,
            marker_code: 0,
            width: 0,
            height: 0,
            min_alpha: 0,
            multiplier: 0,
            bytes_per_pixel: 0,
            blank_threshold: 0,
            ceiling: 0,
        }
    }

    /// Offer a configuration message. The first message that carries the
    /// tag and at least nine pipe-delimited segments locks the
    /// configuration; afterwards every call is a no-op. Within an accepted
    /// message, each malformed, missing or out-of-range field falls back
    /// to its documented default.
    pub fn configure(&mut self, msg: &str)
        ensures
            *final(self) == configure_model(*old(self), msg@),
    {
        if self.configured {
            return;
        }
        if !str_starts_with(msg, "Clipboard_Management") {
            return;
        }
        let segs = split_str(msg, '|');
        proof {
            assert(views_of(segs@).len() == segs@.len());
        }
        if segs.len() < 9 {
            return;
        }
        proof {
            assert forall|k: int| 0 <= k < segs@.len() implies segs@[k]@ == config_segment(msg@, k) by {
                assert(views_of(segs@)[k] == segs@[k]@);
            }
        }
        let v1 = parse_int_in_range(&segs[1], 0, usize::MAX as i128, 2032);
        let v2 = parse_int_in_range(&segs[2], isize::MIN as i128, isize::MAX as i128, -2142501224);
        let v3 = parse_int_in_range(&segs[3], 0, usize::MAX as i128, 1024);
        let v4 = parse_int_in_range(&segs[4], 0, usize::MAX as i128, 1024);
        let v5 = parse_int_in_range(&segs[5], 0, 255, 122);
        let v6 = parse_int_in_range(&segs[6], 0, u32::MAX as i128, 80);
        let v7 = parse_int_in_range(&segs[7], 0, usize::MAX as i128, 4);
        let v8 = parse_int_in_range(&segs[8], 0, 255, 5);
        let v9 = if segs.len() > 9 {
            parse_int_in_range(&segs[9], 0, u32::MAX as i128, 255)
        } else {
            proof {
                assert(!crate::parse::int_text_valid(Seq::<char>::empty()));
            }
            255
        };
        self.configured = true;
        self.blank_marker = v1 as usize;
        self.marker_code = v2 as isize;
        self.width = v3 as usize;
        self.height = v4 as usize;
        self.min_alpha = v5 as u8;
        self.multiplier = v6 as u32;
        self.bytes_per_pixel = v7 as usize;
        self.blank_threshold = v8 as u8;
        self.ceiling = v9 as u32;
    }

    /// Decide how a pointer-input event is forwarded to the host, and
    /// apply any configuration message it carries.
    ///
    /// An event with mask 37 is the configuration carrier: its `url` must
    /// start with the configuration tag, else the event is swallowed (not
    /// forwarded); when tagged, the message is offered to the one-shot
    /// configuration and the event is still forwarded. Every other mask
    /// is forwarded untouched. The returned pair is (forward the event,
    /// numeric kind: 0 for "touch", 1 otherwise).
    pub fn plan_pointer_input(&mut self, kind: &str, mask: i32, url: &str) -> (r: (bool, i32))
        ensures
            r.0 == !(mask == 37 && !has_prefix(url@, config_tag())),
            r.1 == (if kind@ == "touch"@ { 0i32 } else { 1i32 }),
            mask == 37 ==> *final(self) == configure_model(*old(self), url@),
            mask != 37 ==> *final(self) == *old(self),
    {
        let kind_code: i32 = if str_eq(kind, "touch") {
            0
        } else {
            1
        };
        if mask == 37 {
            if !str_starts_with(url, "Clipboard_Management") {
                return (false, kind_code);
            }
            self.configure(url);
            return (true, kind_code);
        }
        (true, kind_code)
    }

    /// Rewrite `buf` in place when it is judged blank; otherwise leave
    /// every byte as it was.
    pub fn apply(&self, buf: &mut Vec<u8>)
        ensures
            final(buf)@ == transform_result(*self, old(buf)@),
    {
        if self.blank_threshold <= BLANK_THRESHOLD_DISABLED {
            return;
        }
        let bpp = self.bytes_per_pixel;
        let len = buf.len();
        if bpp < 3 || len < bpp || len % bpp != 0 {
            return;
        }
        let t = self.blank_threshold;
        let first_blank = buf[0] <= t && buf[1] <= t && buf[2] <= t;
        let base = len - bpp;
        let last_blank = buf[base] <= t && buf[base + 1] <= t && buf[base + 2] <= t;
        if !(first_blank && last_blank) {
            return;
        }
        let mut i: usize = 0;
        while i < len
            invariant
                i <= len,
                buf@.len() == len,
                should_rewrite(*self, old(buf)@),
                bpp == self.bytes_per_pixel,
                forall|k: int| 0 <= k < i ==> buf@[k] == rewritten_byte(*self, old(buf)@, k),
                forall|k: int| i <= k < len ==> buf@[k] == old(buf)@[k],
            decreases len - i,
        {
            let nb: u8;
            if i % bpp == 3 {
                nb = self.min_alpha;
            } else {
                let v = buf[i];
                proof {
                    assert((v as int) * (self.multiplier as int) <= 255 * 0xffff_ffffi64)
                        by (nonlinear_arith)
                        requires
                            v <= 255,
                            self.multiplier <= 0xffff_ffffu32,
                    ;
                }
                let x: u64 = (v as u64) * (self.multiplier as u64);
                let capped: u64 = if x > self.ceiling as u64 {
                    self.ceiling as u64
                } else {
                    x
                };
                nb = (capped % 256) as u8;
            }
            buf[i] = nb;
            i += 1;
        }
        proof {
            assert(buf@ =~= rewritten(*self, old(buf)@));
        }
    }
}

} // verus!
