use alchemist::i2c::{clear_transfer_bytes, debug_transfer_bytes, frame_transfer_bytes, init_commands};
use alchemist::led::{blink_half_period_ms, steady_level, LedState};
use alchemist::usb::{
    consumer_report_bytes, event_reports, keyboard_report_bytes, Event, MyDeviceHandler,
    ReportWrites,
};

#[test]
fn keyboard_report_layout() {
    let r = keyboard_report_bytes(&[0x14, 0x2A, 0, 0, 0, 0xE1], 0x22);
    assert_eq!(r, [0x22, 0, 0x14, 0x2A, 0, 0, 0, 0xE1]);
}

#[test]
fn consumer_report_is_little_endian() {
    assert_eq!(consumer_report_bytes(0x00EA), [0xEA, 0x00]);
    assert_eq!(consumer_report_bytes(0x01B5), [0xB5, 0x01]);
    assert_eq!(consumer_report_bytes(0), [0, 0]);
}

#[test]
fn consumer_event_writes_usage_then_release() {
    match event_reports(&Event::Consumer(0xEA)) {
        ReportWrites::Consumer(first, release) => {
            assert_eq!(first, [0xEA, 0x00]);
            assert_eq!(release, [0x00, 0x00]);
        }
        _ => panic!("expected a consumer report pair"),
    }
    match event_reports(&Event::Update([0x2A, 0, 0, 0, 0, 0], 0)) {
        ReportWrites::Keyboard(bytes) => {
            assert_eq!(bytes, [0, 0, 0x2A, 0, 0, 0, 0, 0]);
        }
        _ => panic!("expected a keyboard report"),
    }
}

#[test]
fn device_handler_tracks_configuration() {
    let mut h = MyDeviceHandler::new();
    assert!(!h.is_configured());
    h.configured(true);
    assert!(h.is_configured());
    h.reset();
    assert!(!h.is_configured());
    h.configured(true);
    h.addressed(5);
    assert!(!h.is_configured());
    h.configured(true);
    h.enabled(true);
    assert!(!h.is_configured());
}

#[test]
fn clear_transfer_is_one_data_prefix_and_zeros() {
    let b = clear_transfer_bytes();
    assert_eq!(b.len(), 513);
    assert_eq!(b[0], 0x40);
    assert!(b[1..].iter().all(|&x| x == 0));
}

#[test]
fn debug_transfer_alternates_test_patterns() {
    let b = debug_transfer_bytes();
    assert_eq!(b.len(), 513);
    assert_eq!(b[0], 0x40);
    assert_eq!(b[1], 0x55);
    assert_eq!(b[4], 0x55);
    assert_eq!(b[5], 0xAA);
    assert_eq!(b[8], 0xAA);
    assert_eq!(b[9], 0x55);
    assert_eq!(b[512], 0xAA);
}

#[test]
fn frame_transfer_prefixes_the_framebuffer() {
    let mut data = vec![0u8; 512];
    data[0] = 0x12;
    data[511] = 0x34;
    let b = frame_transfer_bytes(&data);
    assert_eq!(b.len(), 513);
    assert_eq!(b[0], 0x40);
    assert_eq!(b[1], 0x12);
    assert_eq!(b[512], 0x34);
}

#[test]
fn init_sequence_is_the_documented_one() {
    let cmds = init_commands();
    assert_eq!(cmds.len(), 16);
    assert_eq!(cmds[0], vec![0x00, 0xAE]);
    assert_eq!(cmds[1], vec![0x00, 0xA8, 0x1F]);
    assert_eq!(cmds[11], vec![0x00, 0x8D, 0x14]);
    assert_eq!(cmds[12], vec![0x00, 0xAF]);
    assert_eq!(cmds[13], vec![0x00, 0x20, 0x01]);
    assert_eq!(cmds[14], vec![0x00, 0x21, 0x00, 0x7F]);
    assert_eq!(cmds[15], vec![0x00, 0x22, 0x00, 0x03]);
    for c in &cmds {
        assert_eq!(c[0], 0x00);
    }
}

#[test]
fn led_timings() {
    assert_eq!(blink_half_period_ms(LedState::BlinkFast), Some(100));
    assert_eq!(blink_half_period_ms(LedState::BlinkSlow), Some(500));
    assert_eq!(blink_half_period_ms(LedState::On), None);
    assert_eq!(steady_level(LedState::On), Some(true));
    assert_eq!(steady_level(LedState::Off), Some(false));
    assert_eq!(steady_level(LedState::BlinkFast), None);
}
