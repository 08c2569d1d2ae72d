use media_staging::{ClipboardExchange, FrameRaw, TransformConfig};

#[test]
fn new_slot_is_disabled_and_empty() {
    let s = FrameRaw::new(100);
    assert!(!s.enable);
    assert!(s.buf.is_none());
    assert_eq!(s.timeout, 100);
}

#[test]
fn release_drops_the_staged_frame() {
    let mut s = FrameRaw::new(100);
    s.set_enable(true);
    s.update(vec![1, 2], 0);
    s.release();
    let mut dst: Vec<u8> = Vec::new();
    let mut prev: Vec<u8> = Vec::new();
    assert_eq!(s.take(&mut dst, &mut prev, 1), None);
}

#[test]
fn update_while_disabled_is_dropped() {
    let mut s = FrameRaw::new(100);
    s.update(vec![1, 2], 0);
    assert!(s.buf.is_none());
}

#[test]
fn take_at_exact_timeout_then_one_over() {
    let mut s = FrameRaw::new(100);
    s.set_enable(true);
    s.update(vec![9], 50);
    let mut dst: Vec<u8> = Vec::new();
    let mut prev: Vec<u8> = Vec::new();
    assert_eq!(s.take(&mut dst, &mut prev, 150), Some(()));
    assert_eq!(dst, vec![9]);
    s.update(vec![8], 200);
    assert_eq!(s.take(&mut dst, &mut prev, 301), None);
    // the stale frame is discarded from the slot as well
    assert!(s.buf.is_none());
}

#[test]
fn exchange_update_and_take_per_origin() {
    let mut e = ClipboardExchange::new();
    e.update(false, vec![1]);
    e.update(true, vec![2]);
    assert_eq!(e.take(false), Some(vec![1]));
    assert_eq!(e.take(false), None);
    assert_eq!(e.take(true), Some(vec![2]));
    assert_eq!(e.take(true), None);
}

#[test]
fn exchange_routes_payloads_by_origin_tag() {
    let mut e = ClipboardExchange::new();
    e.update_tagged(1, vec![5]);
    e.update_tagged(0, vec![6]);
    e.update_tagged(9, vec![7]);
    assert_eq!(e.take(true), Some(vec![5]));
    // every tag but 1 is host-origin; the later payload overwrote
    assert_eq!(e.take(false), Some(vec![7]));
}

#[test]
fn plan_pointer_input_decides_forwarding_and_configuration() {
    let mut cfg = media_staging::TransformConfig::unconfigured();
    let (forward, code) = cfg.plan_pointer_input("touch", 37, "nonsense");
    assert!(!forward);
    assert_eq!(code, 0);
    assert!(!cfg.configured);
    let (forward, code) =
        cfg.plan_pointer_input("mouse", 37, "Clipboard_Management|1|2|3|4|5|6|7|8|9");
    assert!(forward);
    assert_eq!(code, 1);
    assert!(cfg.configured);
    assert_eq!(cfg.blank_threshold, 8);
    let (forward, _code) = cfg.plan_pointer_input("touch", 2, "whatever");
    assert!(forward);
}

#[test]
fn transform_apply_without_configuration_changes_nothing() {
    let cfg = TransformConfig::unconfigured();
    let mut buf: Vec<u8> = vec![0, 0, 0, 0];
    cfg.apply(&mut buf);
    assert_eq!(buf, vec![0, 0, 0, 0]);
}
