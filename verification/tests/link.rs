use alchemist::i2c::{
    LinkAction, LinkDriver, LinkEvent, MultiplexedPacket, OledCommand, Packet,
};

#[test]
fn dial_tone_timeout_drops_after_three_attempts() {
    let mut d = LinkDriver::new();
    let a = d.step(
        LinkEvent::Outgoing,
        Some(MultiplexedPacket::I2c(Packet::Down(1, 2))),
    );
    assert!(matches!(a[..], [LinkAction::RingPeer]));
    let a = d.step(LinkEvent::DialToneTimeout, None);
    assert!(matches!(a[..], [LinkAction::RingPeer]));
    let a = d.step(LinkEvent::DialToneTimeout, None);
    assert!(matches!(a[..], [LinkAction::RingPeer]));
    // Third timeout: the frame is given up, the driver goes back to idle.
    let a = d.step(LinkEvent::DialToneTimeout, None);
    assert!(matches!(a[..], [LinkAction::DropItem]));
    assert!(d.is_idle());
}

#[test]
fn successful_key_send() {
    let mut d = LinkDriver::new();
    d.step(
        LinkEvent::Outgoing,
        Some(MultiplexedPacket::I2c(Packet::EncoderCw)),
    );
    let a = d.step(LinkEvent::DialTone, None);
    assert!(matches!(a[..], [LinkAction::SendFrame(Packet::EncoderCw)]));
    let a = d.step(LinkEvent::WriteDone(true), None);
    assert!(a.is_empty());
    assert!(d.is_idle());
}

#[test]
fn write_failures_retry_then_drop() {
    let mut d = LinkDriver::new();
    d.step(
        LinkEvent::Outgoing,
        Some(MultiplexedPacket::I2c(Packet::Up(0, 0))),
    );
    for _ in 0..2 {
        let a = d.step(LinkEvent::DialTone, None);
        assert!(matches!(a[..], [LinkAction::SendFrame(Packet::Up(0, 0))]));
        let a = d.step(LinkEvent::WriteDone(false), None);
        assert!(matches!(a[..], [LinkAction::RingPeer]));
    }
    let a = d.step(LinkEvent::DialTone, None);
    assert!(matches!(a[..], [LinkAction::SendFrame(Packet::Up(0, 0))]));
    let a = d.step(LinkEvent::WriteDone(false), None);
    assert!(matches!(a[..], [LinkAction::DropItem]));
    assert!(d.is_idle());
}

#[test]
fn oled_item_signals_idle_before_the_release_frame() {
    let mut d = LinkDriver::new();
    d.step(
        LinkEvent::Outgoing,
        Some(MultiplexedPacket::Oled(OledCommand::Clear)),
    );
    let a = d.step(LinkEvent::DialTone, None);
    assert!(matches!(a[..], [LinkAction::WriteOled(OledCommand::Clear)]));
    let a = d.step(LinkEvent::OledDone(true), None);
    assert!(matches!(
        a[..],
        [LinkAction::SignalOledIdle, LinkAction::SendFrame(Packet::Noop)]
    ));
    let a = d.step(LinkEvent::WriteDone(true), None);
    assert!(a.is_empty());
    assert!(d.is_idle());
    // A ring arriving now is serviced on the next iteration.
    let a = d.step(LinkEvent::RingSeen, None);
    assert!(matches!(a[..], [LinkAction::EmitDialTone, LinkAction::Listen]));
}

#[test]
fn failed_oled_write_latches_display_off() {
    let mut d = LinkDriver::new();
    d.step(
        LinkEvent::Outgoing,
        Some(MultiplexedPacket::Oled(OledCommand::Debug)),
    );
    d.step(LinkEvent::DialTone, None);
    d.step(LinkEvent::OledDone(false), None);
    d.step(LinkEvent::WriteDone(true), None);
    assert!(d.is_idle());
    assert!(!d.oled_ok);
    // Later display items skip the transaction and only release the peer.
    d.step(
        LinkEvent::Outgoing,
        Some(MultiplexedPacket::Oled(OledCommand::Clear)),
    );
    let a = d.step(LinkEvent::DialTone, None);
    assert!(matches!(
        a[..],
        [LinkAction::SignalOledIdle, LinkAction::SendFrame(Packet::Noop)]
    ));
}

#[test]
fn answered_ring_delivers_key_frames_only() {
    let mut d = LinkDriver::new();
    d.step(LinkEvent::RingSeen, None);
    let a = d.step(LinkEvent::ListenDone([1, 3, 4, 0], 3), None);
    assert!(matches!(a[..], [LinkAction::Deliver(Packet::Down(3, 4))]));
    assert!(d.is_idle());
    // A keep-alive frame is swallowed.
    d.step(LinkEvent::RingSeen, None);
    let a = d.step(LinkEvent::ListenDone([0xFF, 0, 0, 0], 1), None);
    assert!(a.is_empty());
    // An unknown tag is swallowed too.
    d.step(LinkEvent::RingSeen, None);
    let a = d.step(LinkEvent::ListenDone([9, 0, 0, 0], 1), None);
    assert!(a.is_empty());
}

#[test]
fn failed_listen_resets_the_slave() {
    let mut d = LinkDriver::new();
    d.step(LinkEvent::RingSeen, None);
    let a = d.step(LinkEvent::ListenFailed, None);
    assert!(matches!(a[..], [LinkAction::ResetSlave]));
    assert!(d.is_idle());
}

#[test]
fn stale_events_are_ignored() {
    let mut d = LinkDriver::new();
    let a = d.step(LinkEvent::DialTone, None);
    assert!(a.is_empty());
    assert!(d.is_idle());
    let a = d.step(LinkEvent::WriteDone(true), None);
    assert!(a.is_empty());
    assert!(d.is_idle());
}
