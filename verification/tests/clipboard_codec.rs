use media_staging::{
    clear_codec_info, get_clipboards, get_codec_info, notify_clipboard_update, set_codec_info,
    MediaCodecInfo, MediaCodecInfos, StagingContext,
};

#[test]
fn last_clipboard_update_wins() {
    let mut ctx = StagingContext::new();
    notify_clipboard_update(&mut ctx, 0, vec![1, 1]);
    notify_clipboard_update(&mut ctx, 0, vec![2, 2]);
    assert_eq!(get_clipboards(&mut ctx, false), Some(vec![2, 2]));
    // the first payload is never observable
    assert_eq!(get_clipboards(&mut ctx, false), None);
}

#[test]
fn clipboard_take_empties_the_slot() {
    let mut ctx = StagingContext::new();
    notify_clipboard_update(&mut ctx, 1, vec![7]);
    assert_eq!(get_clipboards(&mut ctx, true), Some(vec![7]));
    assert_eq!(get_clipboards(&mut ctx, true), None);
}

#[test]
fn clipboard_origins_are_independent() {
    let mut ctx = StagingContext::new();
    notify_clipboard_update(&mut ctx, 0, vec![10]);
    notify_clipboard_update(&mut ctx, 1, vec![20]);
    assert_eq!(get_clipboards(&mut ctx, true), Some(vec![20]));
    // taking the client slot left the host slot pending
    assert_eq!(get_clipboards(&mut ctx, false), Some(vec![10]));
    assert_eq!(get_clipboards(&mut ctx, true), None);
    assert_eq!(get_clipboards(&mut ctx, false), None);
}

#[test]
fn only_tag_one_is_client_origin() {
    let mut ctx = StagingContext::new();
    notify_clipboard_update(&mut ctx, 7, vec![3]);
    assert_eq!(get_clipboards(&mut ctx, true), None);
    assert_eq!(get_clipboards(&mut ctx, false), Some(vec![3]));
}

fn sample_infos() -> MediaCodecInfos {
    MediaCodecInfos {
        version: 1,
        w: 1280,
        h: 720,
        codecs: vec![
            MediaCodecInfo {
                name: "c2.android.avc.encoder".to_string(),
                is_encoder: true,
                hw: Some(false),
                mime_type: "video/avc".to_string(),
                surface: true,
                nv12: true,
                low_latency: None,
                min_bitrate: 1000,
                max_bitrate: 20000000,
                min_width: 64,
                max_width: 1920,
                min_height: 64,
                max_height: 1080,
            },
            MediaCodecInfo {
                name: "c2.android.hevc.decoder".to_string(),
                is_encoder: false,
                hw: None,
                mime_type: "video/hevc".to_string(),
                surface: false,
                nv12: false,
                low_latency: Some(true),
                min_bitrate: 500,
                max_bitrate: 10000000,
                min_width: 64,
                max_width: 3840,
                min_height: 64,
                max_height: 2160,
            },
        ],
    }
}

#[test]
fn codec_info_round_trips() {
    let mut ctx = StagingContext::new();
    assert!(get_codec_info(&ctx).is_none());
    set_codec_info(&mut ctx, sample_infos());
    let got = get_codec_info(&ctx).expect("codec info expected");
    assert_eq!(got.version, 1);
    assert_eq!(got.w, 1280);
    assert_eq!(got.h, 720);
    assert_eq!(got.codecs.len(), 2);
    assert_eq!(got.codecs[0].name, "c2.android.avc.encoder");
    assert!(got.codecs[0].is_encoder);
    assert_eq!(got.codecs[0].hw, Some(false));
    assert_eq!(got.codecs[1].mime_type, "video/hevc");
    assert_eq!(got.codecs[1].low_latency, Some(true));
    assert_eq!(got.codecs[1].max_width, 3840);
}

#[test]
fn set_codec_info_replaces_previous() {
    let mut ctx = StagingContext::new();
    set_codec_info(&mut ctx, sample_infos());
    let mut second = sample_infos();
    second.version = 2;
    second.codecs.truncate(1);
    set_codec_info(&mut ctx, second);
    let got = get_codec_info(&ctx).expect("codec info expected");
    assert_eq!(got.version, 2);
    assert_eq!(got.codecs.len(), 1);
}

#[test]
fn clear_codec_info_forgets() {
    let mut ctx = StagingContext::new();
    set_codec_info(&mut ctx, sample_infos());
    clear_codec_info(&mut ctx);
    assert!(get_codec_info(&ctx).is_none());
}
