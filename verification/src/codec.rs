//! Process-lifetime storage of the host's media codec capabilities. The
//! core only records and hands back the capability set; negotiation and
//! the decoding of the host's description happen outside.

use vstd::prelude::*;

verus! {

/// Capabilities of one codec offered by the host.
pub struct MediaCodecInfo {
    pub name: String,
    pub is_encoder: bool,
    pub hw: Option<bool>,
    pub mime_type: String,
    pub surface: bool,
    pub nv12: bool,
    pub low_latency: Option<bool>,
    pub min_bitrate: u32,
    pub max_bitrate: u32,
    pub min_width: usize,
    pub max_width: usize,
    pub min_height: usize,
    pub max_height: usize,
}

impl Clone for MediaCodecInfo {
    fn clone(&self) -> (r: Self)
        ensures
            r == *self,
    {
        MediaCodecInfo {
            name: self.name.clone(),
            is_encoder: self.is_encoder,
            hw: self.hw,
            mime_type: self.mime_type.clone(),
            surface: self.surface,
            nv12: self.nv12,
            low_latency: self.low_latency,
            min_bitrate: self.min_bitrate,
            max_bitrate: self.max_bitrate,
            min_width: self.min_width,
            max_width: self.max_width,
            min_height: self.min_height,
            max_height: self.max_height,
        }
    }
}

/// The full capability set reported by the host.
pub struct MediaCodecInfos {
    pub version: usize,
    /// Aligned width.
    pub w: usize,
    /// Aligned height.
    pub h: usize,
    pub codecs: Vec<MediaCodecInfo>,
}

/// Two capability sets carry the same information: equal header fields
/// and the same run of codec entries.
pub open spec fn same_codec_infos(a: MediaCodecInfos, b: MediaCodecInfos) -> bool {
    &&& a.version == b.version
    &&& a.w == b.w
    &&& a.h == b.h
    &&& a.codecs@ == b.codecs@
}

impl Clone for MediaCodecInfos {
    fn clone(&self) -> (r: Self)
        ensures
            same_codec_infos(r, *self),
    {
        let mut codecs: Vec<MediaCodecInfo> = Vec::new();
        let n = self.codecs.len();
        let mut i: usize = 0;
        while i < n
            invariant
                i <= n,
                n == self.codecs.len(),
                codecs@.len() == i,
                forall|k: int| 0 <= k < i ==> codecs@[k] == self.codecs@[k],
            decreases n - i,
        {
            codecs.push(self.codecs[i].clone());
            i += 1;
        }
        proof {
            assert(codecs@ =~= self.codecs@);
        }
        MediaCodecInfos { version: self.version, w: self.w, h: self.h, codecs }
    }
}

} // verus!
