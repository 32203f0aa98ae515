use headshot::bridge::{WakeBridge, WakePoll};
use headshot::codec::{encode_screenshot, flip_rows, EncodeError};
use headshot::session::WindowConfig;

// --- Wake bridge: coalescing, liveness, closure ---

#[test]
fn burst_of_sends_never_blocks_and_yields_one_wake() {
    let mut bridge = WakeBridge::new();
    // Five signals before the consumer polls: every send returns promptly,
    // and the consumer then observes exactly one wake.
    for _ in 0..5 {
        bridge.send();
    }
    assert_eq!(bridge.poll(), WakePoll::Signal);
    assert_eq!(bridge.poll(), WakePoll::Empty);
}

#[test]
fn single_send_observed() {
    let mut bridge = WakeBridge::new();
    assert_eq!(bridge.poll(), WakePoll::Empty);
    bridge.send();
    assert_eq!(bridge.poll(), WakePoll::Signal);
}

#[test]
fn pending_signal_drains_before_closure_reported() {
    let mut bridge = WakeBridge::new();
    bridge.send();
    bridge.close();
    assert_eq!(bridge.poll(), WakePoll::Signal);
    assert_eq!(bridge.poll(), WakePoll::Closed);
    assert_eq!(bridge.poll(), WakePoll::Closed);
}

// --- Screenshot encoder ---

fn distinct_pattern(width: u32, height: u32) -> Vec<u8> {
    // Every byte different from its row-mirrored counterpart.
    (0..width * height * 4).map(|i| (i % 251) as u8).collect()
}

#[test]
fn flip_rows_reverses_row_order() {
    // 2x3 frame, 8 bytes per row.
    let pixels: Vec<u8> = (0u8..24).collect();
    let flipped = flip_rows(&pixels, 2, 3);
    let mut expected: Vec<u8> = Vec::new();
    expected.extend_from_slice(&pixels[16..24]);
    expected.extend_from_slice(&pixels[8..16]);
    expected.extend_from_slice(&pixels[0..8]);
    assert_eq!(flipped, expected);
}

#[test]
fn flip_rows_twice_is_identity() {
    let pixels = distinct_pattern(5, 3);
    let twice = flip_rows(&flip_rows(&pixels, 5, 3), 5, 3);
    assert_eq!(twice, pixels);
}

#[test]
fn encode_rejects_mismatched_buffer() {
    let pixels = vec![0u8; 10];
    match encode_screenshot(&pixels, 2, 2) {
        Err(EncodeError::DimensionMismatch) => {}
        _ => panic!("a 10-byte buffer is not a 2x2 RGBA frame"),
    }
}

#[test]
fn encode_rejects_empty_frame() {
    let pixels: Vec<u8> = Vec::new();
    match encode_screenshot(&pixels, 0, 4) {
        Err(EncodeError::ZeroDimension) => {}
        _ => panic!("a zero-width frame cannot be encoded"),
    }
}

#[test]
fn encode_emits_png_signature() {
    let pixels = distinct_pattern(4, 2);
    let png = encode_screenshot(&pixels, 4, 2).expect("valid frame");
    assert_eq!(&png[0..8], &[0x89, b'P', b'N', b'G', b'\r', b'\n', 0x1a, b'\n']);
}

#[test]
fn encode_round_trip_unflips_to_original() {
    // A non-square frame with a known deterministic pattern: encoding, then
    // decoding and un-flipping, reproduces the capture exactly.
    let (width, height) = (5u32, 3u32);
    let pixels = distinct_pattern(width, height);
    let png = encode_screenshot(&pixels, width, height).expect("valid frame");

    let decoded = image::load_from_memory(&png).expect("library emitted valid png");
    let buffer = decoded.to_rgba8();
    assert_eq!(buffer.dimensions(), (width, height));
    let top_down = buffer.into_raw();
    // The stored image is the vertically flipped capture...
    assert_ne!(top_down, pixels);
    // ...and flipping it back reproduces the capture.
    assert_eq!(flip_rows(&top_down, width, height), pixels);
}

// --- Window geometry ---

#[test]
fn window_config_applies_scale_factor() {
    let config = WindowConfig::new(1024, 768, 2).expect("fits");
    assert_eq!(config.device_size(), (2048, 1536));
}

#[test]
fn window_config_rejects_zero_and_overflow() {
    assert!(WindowConfig::new(0, 768, 2).is_none());
    assert!(WindowConfig::new(1024, 0, 2).is_none());
    assert!(WindowConfig::new(1024, 768, 0).is_none());
    assert!(WindowConfig::new(u32::MAX, 1, 2).is_none());
}
