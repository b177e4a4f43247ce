use alchemist::led::LedState;
use alchemist::uart::Packet;
use alchemist::usb::Event;
use alchemist::{
    add_keycode, detect_side, dispatch_key, orchestrate, remove_keycode, update_key_data,
    BoardSide, InputEvent,
};
use alchemist::keyprobe;

#[test]
fn detect_side_levels() {
    assert!(matches!(detect_side(true, false), BoardSide::Right));
    assert!(matches!(detect_side(false, true), BoardSide::Right));
    assert!(matches!(detect_side(true, true), BoardSide::Right));
    assert!(matches!(detect_side(false, false), BoardSide::Left));
}

#[test]
fn single_keystroke_on_right() {
    // A local press at (0, 0) on the right half mirrors to logical column 11.
    let mut buf = [0u8; 6];
    let mut layers = 0u8;
    let mut mods = 0u8;
    let a = orchestrate(
        &mut buf,
        &mut layers,
        &mut mods,
        true,
        InputEvent::Key(keyprobe::Event::Down(0, 0)),
    );
    match a.usb {
        Some(Event::Update(keys, modifier)) => {
            assert_eq!(keys, [0x2A, 0, 0, 0, 0, 0]);
            assert_eq!(modifier, 0);
        }
        _ => panic!("expected a keyboard update"),
    }
    assert!(matches!(a.link, Some(Packet::Down(0, 0))));
    assert!(a.star);
    let a = orchestrate(
        &mut buf,
        &mut layers,
        &mut mods,
        true,
        InputEvent::Key(keyprobe::Event::Up(0, 0)),
    );
    match a.usb {
        Some(Event::Update(keys, modifier)) => {
            assert_eq!(keys, [0, 0, 0, 0, 0, 0]);
            assert_eq!(modifier, 0);
        }
        _ => panic!("expected a keyboard update"),
    }
    assert!(matches!(a.link, Some(Packet::Up(0, 0))));
}

#[test]
fn shift_combo_on_left() {
    // (0, 3) is the left-shift alias, (1, 1) is 'a'.
    let mut buf = [0u8; 6];
    let mut layers = 0u8;
    let mut mods = 0u8;
    let d = dispatch_key(&mut buf, &mut layers, &mut mods, 0, 3, true, false, true);
    match d.usb {
        Some(Event::Update(keys, modifier)) => {
            assert_eq!(keys, [0, 0, 0, 0, 0, 0]);
            assert_eq!(modifier, 0x02);
        }
        _ => panic!("expected a keyboard update"),
    }
    let d = dispatch_key(&mut buf, &mut layers, &mut mods, 1, 1, true, false, true);
    match d.usb {
        Some(Event::Update(keys, modifier)) => {
            assert_eq!(keys, [0x14, 0, 0, 0, 0, 0]);
            assert_eq!(modifier, 0x02);
        }
        _ => panic!("expected a keyboard update"),
    }
}

#[test]
fn layer_toggle_resolves_layer_one() {
    // Holding (9, 4) on the left raises layer bit 0, so (1, 1) maps through
    // layer 1 to F11.
    let mut buf = [0u8; 6];
    let mut layers = 0u8;
    let mut mods = 0u8;
    let d = dispatch_key(&mut buf, &mut layers, &mut mods, 9, 4, true, false, true);
    assert!(d.usb.is_none());
    assert_eq!(layers & 0b11, 1);
    let d = dispatch_key(&mut buf, &mut layers, &mut mods, 1, 1, true, false, true);
    match d.usb {
        Some(Event::Update(keys, modifier)) => {
            assert_eq!(keys, [0x44, 0, 0, 0, 0, 0]);
            assert_eq!(modifier, 0);
        }
        _ => panic!("expected a keyboard update"),
    }
}

#[test]
fn down_twice_is_idempotent() {
    let mut buf = [0u8; 6];
    let mut layers = 0u8;
    let mut mods = 0u8;
    let d = dispatch_key(&mut buf, &mut layers, &mut mods, 1, 1, true, false, true);
    assert!(d.usb.is_some());
    let before = buf;
    let d = dispatch_key(&mut buf, &mut layers, &mut mods, 1, 1, true, false, true);
    assert!(d.usb.is_none());
    assert_eq!(buf, before);
    assert_eq!(mods, 0);
}

#[test]
fn release_after_layer_change_clears_key() {
    // Press 'a' on the base layer, toggle layer 1, then release: the keycode
    // pressed on the old layer must still come up.
    let mut buf = [0u8; 6];
    let mut layers = 0u8;
    let mut mods = 0u8;
    dispatch_key(&mut buf, &mut layers, &mut mods, 1, 1, true, false, true);
    assert_eq!(buf[0], 0x14);
    dispatch_key(&mut buf, &mut layers, &mut mods, 9, 4, true, false, true);
    let d = dispatch_key(&mut buf, &mut layers, &mut mods, 1, 1, true, false, false);
    assert_eq!(buf, [0, 0, 0, 0, 0, 0]);
    match d.usb {
        Some(Event::Update(keys, _)) => assert_eq!(keys, [0, 0, 0, 0, 0, 0]),
        _ => panic!("expected a keyboard update"),
    }
}

#[test]
fn modifier_bit_survives_other_keys() {
    let mut buf = [0u8; 6];
    let mut mods = 0u8;
    assert!(add_keycode(&mut buf, &mut mods, 0xE1));
    assert_eq!(mods, 0x02);
    assert!(add_keycode(&mut buf, &mut mods, 0x14));
    assert_eq!(mods, 0x02);
    assert!(remove_keycode(&mut buf, &mut mods, 0x14));
    assert_eq!(mods, 0x02);
    assert!(remove_keycode(&mut buf, &mut mods, 0xE1));
    assert_eq!(mods, 0x00);
    assert!(!remove_keycode(&mut buf, &mut mods, 0xE1));
}

#[test]
fn shift_aliases_share_a_bit() {
    let mut buf = [0u8; 6];
    let mut mods = 0u8;
    assert!(add_keycode(&mut buf, &mut mods, 0xC5));
    assert_eq!(mods, 0x02);
    // Same bit already set through the alias: no change reported.
    assert!(!add_keycode(&mut buf, &mut mods, 0xE1));
    assert!(remove_keycode(&mut buf, &mut mods, 0xE1));
    assert_eq!(mods, 0);
}

#[test]
fn full_buffer_drops_seventh_key() {
    let mut buf = [0u8; 6];
    let mut mods = 0u8;
    for code in 4..10u8 {
        assert!(add_keycode(&mut buf, &mut mods, code));
    }
    assert_eq!(buf, [4, 5, 6, 7, 8, 9]);
    assert!(!add_keycode(&mut buf, &mut mods, 10));
    assert_eq!(buf, [4, 5, 6, 7, 8, 9]);
    assert_eq!(mods, 0);
}

#[test]
fn duplicate_keycode_fills_one_slot() {
    let mut buf = [0u8; 6];
    let mut mods = 0u8;
    assert!(add_keycode(&mut buf, &mut mods, 0x14));
    assert!(!add_keycode(&mut buf, &mut mods, 0x14));
    assert_eq!(buf, [0x14, 0, 0, 0, 0, 0]);
    assert!(remove_keycode(&mut buf, &mut mods, 0x14));
    assert_eq!(buf, [0, 0, 0, 0, 0, 0]);
}

#[test]
fn out_of_range_event_is_dropped() {
    let mut buf = [0u8; 6];
    let mut layers = 0u8;
    let mut mods = 0u8;
    let out = update_key_data(&mut buf, &mut layers, &mut mods, 12, 0, true, false, true);
    assert!(!out.changed);
    let out = update_key_data(&mut buf, &mut layers, &mut mods, 0, 5, false, false, true);
    assert!(!out.changed);
    assert_eq!(buf, [0; 6]);
}

#[test]
fn media_cells_emit_consumer_usages() {
    let mut buf = [0u8; 6];
    let mut layers = 0u8;
    let mut mods = 0u8;
    // (5, 4) reached without mirroring: a local event on the left half.
    let out = update_key_data(&mut buf, &mut layers, &mut mods, 5, 4, true, false, true);
    assert_eq!(out.consumer, Some(0xCD));
    assert_eq!(out.led, Some(LedState::BlinkFast));
    assert!(!out.changed);
    let out = update_key_data(&mut buf, &mut layers, &mut mods, 6, 4, true, false, true);
    assert_eq!(out.consumer, Some(0xE2));
    assert_eq!(out.led, Some(LedState::BlinkSlow));
    let out = update_key_data(&mut buf, &mut layers, &mut mods, 6, 4, true, false, false);
    assert_eq!(out.consumer, None);
    assert_eq!(out.led, Some(LedState::Off));
}

#[test]
fn encoder_detent_on_right_maps_to_volume() {
    let mut buf = [0u8; 6];
    let mut layers = 0u8;
    let mut mods = 0u8;
    let a = orchestrate(
        &mut buf,
        &mut layers,
        &mut mods,
        true,
        InputEvent::Encoder(alchemist::encoder::Event::Cw),
    );
    assert!(matches!(a.usb, Some(Event::Consumer(0xEA))));
    assert!(matches!(a.link, Some(Packet::EncoderCcw)));
    let a = orchestrate(
        &mut buf,
        &mut layers,
        &mut mods,
        true,
        InputEvent::Encoder(alchemist::encoder::Event::Ccw),
    );
    assert!(matches!(a.usb, Some(Event::Consumer(0xE9))));
    assert!(matches!(a.link, Some(Packet::EncoderCw)));
}

#[test]
fn remote_encoder_mapping_is_reversed() {
    let mut buf = [0u8; 6];
    let mut layers = 0u8;
    let mut mods = 0u8;
    let a = orchestrate(
        &mut buf,
        &mut layers,
        &mut mods,
        true,
        InputEvent::Link(Packet::EncoderCw),
    );
    assert!(matches!(a.usb, Some(Event::Consumer(0xB5))));
    assert!(a.link.is_none());
    let a = orchestrate(
        &mut buf,
        &mut layers,
        &mut mods,
        false,
        InputEvent::Link(Packet::EncoderCw),
    );
    assert!(matches!(a.usb, Some(Event::Consumer(0xE9))));
}

#[test]
fn remote_key_events_drive_the_led() {
    let mut buf = [0u8; 6];
    let mut layers = 0u8;
    let mut mods = 0u8;
    let a = orchestrate(
        &mut buf,
        &mut layers,
        &mut mods,
        false,
        InputEvent::Link(Packet::Down(0, 0)),
    );
    assert_eq!(a.led, Some(LedState::On));
    assert!(a.star);
    let a = orchestrate(
        &mut buf,
        &mut layers,
        &mut mods,
        false,
        InputEvent::Link(Packet::Up(0, 0)),
    );
    assert_eq!(a.led, Some(LedState::Off));
}
