//! Inter-half link over the shared two-wire bus: wire codec, the byte streams
//! of the display transactions, and the caller/callee protocol state machine.
use vstd::prelude::*;

verus! {

/// I2C address the callee listens on while a frame is transferred.
pub const LINK_ADDR: u16 = 0x32;

/// I2C address of the display controller.
pub const OLED_ADDR: u16 = 0x3C;

/// Size of the wire buffer; frames occupy a one- to three-byte prefix of it.
pub const PACKET_SIZE: usize = 4;

/// Number of data bytes in one full display frame (128 x 32 pixels, 1 bpp).
pub const FRAME_BYTES: usize = 512;

/// A display transaction requested of the half that carries the OLED.
#[derive(Clone, Debug)]
pub enum OledCommand {
    Clear,
    Buffer(Vec<u8>),
    Debug,
    Init,
}

/// One event carried between the two halves over the link.
/// `Noop` is a transport keep-alive that is never delivered upward.
#[derive(Clone, Copy, PartialEq, Eq, Structural, Debug)]
pub enum Packet {
    Down(u8, u8),
    Up(u8, u8),
    EncoderCw,
    EncoderCcw,
    Noop,
}

/// The bytes of the wire frame that `serialize` produces for a packet.
/// Tag zero is reserved and never written.
pub open spec fn spec_serialize(p: Packet) -> Seq<u8> {
    match p {
        Packet::Down(x, y) => seq![1u8, x, y],
        Packet::Up(x, y) => seq![2u8, x, y],
        Packet::EncoderCw => seq![5u8],
        Packet::EncoderCcw => seq![6u8],
        Packet::Noop => seq![0xFFu8],
    }
}

/// The packet a received byte sequence decodes to: empty input and unknown
/// or truncated frames yield `None`.
pub open spec fn spec_deserialize(buf: Seq<u8>) -> Option<Packet> {
    if buf.len() == 0 {
        None
    } else if buf[0] == 1 && buf.len() >= 3 {
        Some(Packet::Down(buf[1], buf[2]))
    } else if buf[0] == 2 && buf.len() >= 3 {
        Some(Packet::Up(buf[1], buf[2]))
    } else if buf[0] == 5 {
        Some(Packet::EncoderCw)
    } else if buf[0] == 6 {
        Some(Packet::EncoderCcw)
    } else if buf[0] == 0xFF {
        Some(Packet::Noop)
    } else {
        None
    }
}

impl Packet {
    /// Writes the wire frame into the head of `buf` and returns its length;
    /// bytes past the frame keep their previous values.
    pub fn serialize(&self, buf: &mut [u8; PACKET_SIZE]) -> (sz: usize)
        ensures
            sz == spec_serialize(*self).len(),
            final(buf)@.take(sz as int) == spec_serialize(*self),
            final(buf)@.skip(sz as int) == old(buf)@.skip(sz as int),
    {
        let sz: usize = match self {
            Packet::Down(x, y) => {
                buf[0] = 1;
                buf[1] = *x;
                buf[2] = *y;
                3
            }
            Packet::Up(x, y) => {
                buf[0] = 2;
                buf[1] = *x;
                buf[2] = *y;
                3
            }
            Packet::EncoderCw => {
                buf[0] = 5;
                1
            }
            Packet::EncoderCcw => {
                buf[0] = 6;
                1
            }
            Packet::Noop => {
                buf[0] = 0xFF;
                1
            }
        };
        proof {
            assert(final(buf)@.take(sz as int) =~= spec_serialize(*self));
            assert(final(buf)@.skip(sz as int) =~= old(buf)@.skip(sz as int));
        }
        sz
    }

    /// Decodes a received byte sequence; unknown tags yield `None`.
    pub fn deserialize(buf: &[u8]) -> (r: Option<Self>)
        ensures
            r == spec_deserialize(buf@),
    {
        if buf.len() == 0 {
            return None;
        }
        let tag = buf[0];
        if tag == 1 && buf.len() >= 3 {
            Some(Packet::Down(buf[1], buf[2]))
        } else if tag == 2 && buf.len() >= 3 {
            Some(Packet::Up(buf[1], buf[2]))
        } else if tag == 5 {
            Some(Packet::EncoderCw)
        } else if tag == 6 {
            Some(Packet::EncoderCcw)
        } else if tag == 0xFF {
            Some(Packet::Noop)
        } else {
            None
        }
    }
}

/// Decoding a serialized packet gives back the same packet, for every
/// packet including the keep-alive, and the tag byte is never zero.
pub proof fn lemma_link_round_trip(p: Packet)
    ensures
        spec_deserialize(spec_serialize(p)) == Some(p),
        spec_serialize(p)[0] != 0,
        1 <= spec_serialize(p).len() <= 3,
{
}

/// What a received frame delivers to the orchestrator: keep-alives and
/// undecodable frames are dropped.
pub open spec fn spec_incoming(buf: Seq<u8>) -> Option<Packet> {
    match spec_deserialize(buf) {
        Some(p) => if p == Packet::Noop {
            None
        } else {
            Some(p)
        },
        None => None,
    }
}

/// Filters a received byte sequence down to the packet the orchestrator
/// should see, dropping keep-alives and unknown frames.
pub fn incoming_packet(buf: &[u8]) -> (r: Option<Packet>)
    ensures
        r == spec_incoming(buf@),
{
    match Packet::deserialize(buf) {
        Some(Packet::Noop) => None,
        Some(p) => Some(p),
        None => None,
    }
}

} // verus!

verus! {

/// One work item on the outgoing wire: a key/encoder packet for the partner,
/// or a display transaction tunnelled through the same channel.
#[derive(Clone, Debug)]
pub enum MultiplexedPacket {
    I2c(Packet),
    Oled(OledCommand),
}

/// Where the link task stands between two hardware operations.
#[derive(Clone, Debug)]
pub enum LinkState {
    /// Waiting for a ring from the partner or for outgoing work.
    Idle,
    /// Answered a ring; listening as an I2C slave for one frame.
    Listening,
    /// Rang the partner; waiting for the dial tone.
    Dialing { item: MultiplexedPacket, attempt: u8 },
    /// Dial tone seen; writing a key/encoder frame as the I2C master.
    SendingKey { packet: Packet, attempt: u8 },
    /// Dial tone seen; executing the display transaction locally.
    SendingOled,
    /// Writing the keep-alive frame that releases the partner's caller state.
    SendingNoop,
}

/// What the hardware loop reports to the link state machine.
#[derive(Clone, Copy, Debug)]
pub enum LinkEvent {
    /// The partner pulled the line low (debounced).
    RingSeen,
    /// The next outgoing work item arrived.
    Outgoing,
    /// The partner answered our ring.
    DialTone,
    /// No dial tone within the timeout.
    DialToneTimeout,
    /// A master write finished (successfully or not).
    WriteDone(bool),
    /// The local display transaction finished (successfully or not).
    OledDone(bool),
    /// Listening yielded a frame of the given length.
    ListenDone([u8; 4], usize),
    /// Listening timed out or failed.
    ListenFailed,
}

/// What the state machine asks the hardware loop to do next.
#[derive(Clone, Debug)]
pub enum LinkAction {
    /// Pull the line high briefly to answer a ring.
    EmitDialTone,
    /// Configure the I2C slave and listen for one frame.
    Listen,
    /// Pull the line low to request the partner's attention.
    RingPeer,
    /// Serialize and write this packet as the I2C master.
    SendFrame(Packet),
    /// Execute this display transaction on the local bus.
    WriteOled(OledCommand),
    /// Tell the waiting display producer the bus is free again.
    SignalOledIdle,
    /// Hand this received packet to the orchestrator.
    Deliver(Packet),
    /// Give the current outgoing item up as lost.
    DropItem,
    /// Reset the I2C slave after a failed listen.
    ResetSlave,
}

/// How often the caller rings before giving a frame up.
pub const LINK_ATTEMPTS: u8 = 3;

/// The link protocol driver: the current protocol state and whether the
/// display is still believed healthy (a failed display write latches it off).
pub struct LinkDriver {
    pub state: LinkState,
    pub oled_ok: bool,
}

/// One transition of the link state machine: the next state, the display
/// health flag, and the actions the hardware loop must perform, in order.
/// Events that make no sense in the current state are ignored.
pub open spec fn spec_link_step(s: LinkState, oled_ok: bool, ev: LinkEvent, item: Option<
    MultiplexedPacket,
>) -> (LinkState, bool, Seq<LinkAction>) {
    match (s, ev) {
        (LinkState::Idle, LinkEvent::RingSeen) => (
            LinkState::Listening,
            oled_ok,
            seq![LinkAction::EmitDialTone, LinkAction::Listen],
        ),
        (LinkState::Idle, LinkEvent::Outgoing) => match item {
            Some(it) => (
                LinkState::Dialing { item: it, attempt: 1u8 },
                oled_ok,
                seq![LinkAction::RingPeer],
            ),
            None => (LinkState::Idle, oled_ok, seq![]),
        },
        (LinkState::Listening, LinkEvent::ListenDone(buf, sz)) => (
            LinkState::Idle,
            oled_ok,
            match spec_incoming(buf@.take(if sz > 4 {
                4int
            } else {
                sz as int
            })) {
                Some(p) => seq![LinkAction::Deliver(p)],
                None => seq![],
            },
        ),
        (LinkState::Listening, LinkEvent::ListenFailed) => (
            LinkState::Idle,
            oled_ok,
            seq![LinkAction::ResetSlave],
        ),
        (LinkState::Dialing { item: it, attempt }, LinkEvent::DialTone) => match it {
            MultiplexedPacket::I2c(p) => (
                LinkState::SendingKey { packet: p, attempt },
                oled_ok,
                seq![LinkAction::SendFrame(p)],
            ),
            MultiplexedPacket::Oled(cmd) => if oled_ok {
                (LinkState::SendingOled, oled_ok, seq![LinkAction::WriteOled(cmd)])
            } else {
                (
                    LinkState::SendingNoop,
                    oled_ok,
                    seq![LinkAction::SignalOledIdle, LinkAction::SendFrame(Packet::Noop)],
                )
            },
        },
        (LinkState::Dialing { item: it, attempt }, LinkEvent::DialToneTimeout) => if attempt
            < LINK_ATTEMPTS {
            (
                LinkState::Dialing { item: it, attempt: (attempt + 1) as u8 },
                oled_ok,
                seq![LinkAction::RingPeer],
            )
        } else {
            (LinkState::Idle, oled_ok, seq![LinkAction::DropItem])
        },
        (LinkState::SendingKey { packet, attempt }, LinkEvent::WriteDone(ok)) => if ok {
            (LinkState::Idle, oled_ok, seq![])
        } else if attempt < LINK_ATTEMPTS {
            (
                LinkState::Dialing {
                    item: MultiplexedPacket::I2c(packet),
                    attempt: (attempt + 1) as u8,
                },
                oled_ok,
                seq![LinkAction::RingPeer],
            )
        } else {
            (LinkState::Idle, oled_ok, seq![LinkAction::DropItem])
        },
        (LinkState::SendingOled, LinkEvent::OledDone(ok)) => (
            LinkState::SendingNoop,
            oled_ok && ok,
            seq![LinkAction::SignalOledIdle, LinkAction::SendFrame(Packet::Noop)],
        ),
        (LinkState::SendingNoop, LinkEvent::WriteDone(_)) => (LinkState::Idle, oled_ok, seq![]),
        (other, _) => (other, oled_ok, seq![]),
    }
}

impl LinkDriver {
    /// A fresh driver: idle, display believed healthy.
    pub fn new() -> (r: Self)
        ensures
            r.state is Idle,
            r.oled_ok,
    {
        LinkDriver { state: LinkState::Idle, oled_ok: true }
    }

    /// Whether the driver is idle (ready for a ring or outgoing work).
    pub fn is_idle(&self) -> (r: bool)
        ensures
            r == (self.state is Idle),
    {
        match self.state {
            LinkState::Idle => true,
            _ => false,
        }
    }

    /// Feeds one hardware event to the state machine and returns the actions
    /// to perform, in order. `item` carries the work item when the event is
    /// `Outgoing` and is ignored otherwise.
    pub fn step(&mut self, ev: LinkEvent, item: Option<MultiplexedPacket>) -> (r: Vec<LinkAction>)
        ensures
            (final(self).state, final(self).oled_ok, r@) == spec_link_step(
                old(self).state,
                old(self).oled_ok,
                ev,
                item,
            ),
    {
        let mut st = LinkState::Idle;
        core::mem::swap(&mut self.state, &mut st);
        let mut actions: Vec<LinkAction> = Vec::new();
        match (st, ev) {
            (LinkState::Idle, LinkEvent::RingSeen) => {
                self.state = LinkState::Listening;
                actions.push(LinkAction::EmitDialTone);
                actions.push(LinkAction::Listen);
            }
            (LinkState::Idle, LinkEvent::Outgoing) => {
                match item {
                    Some(it) => {
                        self.state = LinkState::Dialing { item: it, attempt: 1 };
                        actions.push(LinkAction::RingPeer);
                    }
                    None => {
                        self.state = LinkState::Idle;
                    }
                }
            }
            (LinkState::Listening, LinkEvent::ListenDone(buf, sz)) => {
                self.state = LinkState::Idle;
                let sz = if sz > 4 {
                    4
                } else {
                    sz
                };
                match incoming_packet(vstd::slice::slice_subrange(buf.as_slice(), 0, sz)) {
                    Some(p) => {
                        actions.push(LinkAction::Deliver(p));
                    }
                    None => {}
                }
            }
            (LinkState::Listening, LinkEvent::ListenFailed) => {
                self.state = LinkState::Idle;
                actions.push(LinkAction::ResetSlave);
            }
            (LinkState::Dialing { item: it, attempt }, LinkEvent::DialTone) => {
                match it {
                    MultiplexedPacket::I2c(p) => {
                        self.state = LinkState::SendingKey { packet: p, attempt };
                        actions.push(LinkAction::SendFrame(p));
                    }
                    MultiplexedPacket::Oled(cmd) => {
                        if self.oled_ok {
                            self.state = LinkState::SendingOled;
                            actions.push(LinkAction::WriteOled(cmd));
                        } else {
                            self.state = LinkState::SendingNoop;
                            actions.push(LinkAction::SignalOledIdle);
                            actions.push(LinkAction::SendFrame(Packet::Noop));
                        }
                    }
                }
            }
            (LinkState::Dialing { item: it, attempt }, LinkEvent::DialToneTimeout) => {
                if attempt < LINK_ATTEMPTS {
                    self.state = LinkState::Dialing { item: it, attempt: attempt + 1 };
                    actions.push(LinkAction::RingPeer);
                } else {
                    self.state = LinkState::Idle;
                    actions.push(LinkAction::DropItem);
                }
            }
            (LinkState::SendingKey { packet, attempt }, LinkEvent::WriteDone(ok)) => {
                if ok {
                    self.state = LinkState::Idle;
                } else if attempt < LINK_ATTEMPTS {
                    self.state = LinkState::Dialing {
                        item: MultiplexedPacket::I2c(packet),
                        attempt: attempt + 1,
                    };
                    actions.push(LinkAction::RingPeer);
                } else {
                    self.state = LinkState::Idle;
                    actions.push(LinkAction::DropItem);
                }
            }
            (LinkState::SendingOled, LinkEvent::OledDone(ok)) => {
                self.oled_ok = self.oled_ok && ok;
                self.state = LinkState::SendingNoop;
                actions.push(LinkAction::SignalOledIdle);
                actions.push(LinkAction::SendFrame(Packet::Noop));
            }
            (LinkState::SendingNoop, LinkEvent::WriteDone(_)) => {
                self.state = LinkState::Idle;
            }
            (other, _) => {
                self.state = other;
            }
        }
        proof {
            assert(actions@ =~= spec_link_step(old(self).state, old(self).oled_ok, ev, item).2);
        }
        actions
    }
}

} // verus!

verus! {

/// Control prefix for a display data transfer.
pub const OLED_DATA_PREFIX: u8 = 0x40;

/// Control prefix for a display command transfer.
pub const OLED_CMD_PREFIX: u8 = 0x00;

/// The bytes of the transaction that blanks the display: the data prefix
/// followed by one zero byte per framebuffer byte.
pub fn clear_transfer_bytes() -> (r: Vec<u8>)
    ensures
        r@.len() == FRAME_BYTES + 1,
        r@[0] == OLED_DATA_PREFIX,
        forall|i: int| 1 <= i < r@.len() ==> r@[i] == 0u8,
{
    let mut r: Vec<u8> = Vec::new();
    r.push(OLED_DATA_PREFIX);
    let mut i: usize = 0;
    while i < FRAME_BYTES
        invariant
            i <= FRAME_BYTES,
            r@.len() == i + 1,
            r@[0] == OLED_DATA_PREFIX,
            forall|j: int| 1 <= j < r@.len() ==> r@[j] == 0u8,
        decreases FRAME_BYTES - i,
    {
        r.push(0);
        i = i + 1;
    }
    r
}

/// The bytes of the diagnostic test-pattern transaction: the data prefix,
/// then alternating runs of four 0x55 and four 0xAA bytes across the frame.
pub fn debug_transfer_bytes() -> (r: Vec<u8>)
    ensures
        r@.len() == FRAME_BYTES + 1,
        r@[0] == OLED_DATA_PREFIX,
        forall|i: int|
            0 <= i < FRAME_BYTES ==> #[trigger] r@[i + 1] == (if i % 8 < 4 {
                0x55u8
            } else {
                0xAAu8
            }),
{
    let mut r: Vec<u8> = Vec::new();
    r.push(OLED_DATA_PREFIX);
    let mut i: usize = 0;
    while i < FRAME_BYTES
        invariant
            i <= FRAME_BYTES,
            r@.len() == i + 1,
            r@[0] == OLED_DATA_PREFIX,
            forall|j: int|
                0 <= j < i ==> #[trigger] r@[j + 1] == (if j % 8 < 4 {
                    0x55u8
                } else {
                    0xAAu8
                }),
        decreases FRAME_BYTES - i,
    {
        if i % 8 < 4 {
            r.push(0x55);
        } else {
            r.push(0xAA);
        }
        i = i + 1;
    }
    r
}

/// The bytes of a frame upload: the data prefix followed by the framebuffer.
pub fn frame_transfer_bytes(data: &[u8]) -> (r: Vec<u8>)
    requires
        data@.len() == FRAME_BYTES,
    ensures
        r@ == seq![OLED_DATA_PREFIX] + data@,
{
    let mut r: Vec<u8> = Vec::new();
    r.push(OLED_DATA_PREFIX);
    let mut i: usize = 0;
    while i < FRAME_BYTES
        invariant
            i <= FRAME_BYTES,
            data@.len() == FRAME_BYTES,
            r@ == seq![OLED_DATA_PREFIX] + data@.take(i as int),
        decreases FRAME_BYTES - i,
    {
        let b = *vstd::slice::slice_index_get(data, i);
        r.push(b);
        proof {
            assert(seq![OLED_DATA_PREFIX] + data@.take(i + 1) =~= (seq![OLED_DATA_PREFIX]
                + data@.take(i as int)).push(data@[i as int]));
        }
        i = i + 1;
    }
    proof {
        assert(data@.take(FRAME_BYTES as int) =~= data@);
    }
    r
}

/// The display controller's initialization sequence: each entry is one I2C
/// command write, the command prefix followed by the command bytes.
pub open spec fn spec_init_commands() -> Seq<Seq<u8>> {
    seq![
        seq![OLED_CMD_PREFIX, 0xAEu8],  // display off
        seq![OLED_CMD_PREFIX, 0xA8u8, 0x1Fu8],  // multiplex ratio 32
        seq![OLED_CMD_PREFIX, 0xD3u8, 0x00u8],  // display offset 0
        seq![OLED_CMD_PREFIX, 0x40u8],  // start line 0
        seq![OLED_CMD_PREFIX, 0xA0u8],  // segment remap off
        seq![OLED_CMD_PREFIX, 0xC8u8],  // reversed column scan
        seq![OLED_CMD_PREFIX, 0xDAu8, 0x02u8],  // sequential pin layout
        seq![OLED_CMD_PREFIX, 0x81u8, 0x7Fu8],  // contrast
        seq![OLED_CMD_PREFIX, 0xA4u8],  // show RAM contents
        seq![OLED_CMD_PREFIX, 0xA6u8],  // non-inverted
        seq![OLED_CMD_PREFIX, 0xD5u8, 0x01u8],  // oscillator frequency
        seq![OLED_CMD_PREFIX, 0x8Du8, 0x14u8],  // charge pump on
        seq![OLED_CMD_PREFIX, 0xAFu8],  // display on
        seq![OLED_CMD_PREFIX, 0x20u8, 0x01u8],  // vertical addressing
        seq![OLED_CMD_PREFIX, 0x21u8, 0x00u8, 0x7Fu8],  // column range 0..=127
        seq![OLED_CMD_PREFIX, 0x22u8, 0x00u8, 0x03u8],  // page range 0..=3
    ]
}

/// Builds the display initialization sequence.
pub fn init_commands() -> (r: Vec<Vec<u8>>)
    ensures
        r@.map_values(|v: Vec<u8>| v@) == spec_init_commands(),
{
    let mut r: Vec<Vec<u8>> = Vec::new();
    r.push(vstd::slice::slice_to_vec([OLED_CMD_PREFIX, 0xAE].as_slice()));
    r.push(vstd::slice::slice_to_vec([OLED_CMD_PREFIX, 0xA8, 0x1F].as_slice()));
    r.push(vstd::slice::slice_to_vec([OLED_CMD_PREFIX, 0xD3, 0x00].as_slice()));
    r.push(vstd::slice::slice_to_vec([OLED_CMD_PREFIX, 0x40].as_slice()));
    r.push(vstd::slice::slice_to_vec([OLED_CMD_PREFIX, 0xA0].as_slice()));
    r.push(vstd::slice::slice_to_vec([OLED_CMD_PREFIX, 0xC8].as_slice()));
    r.push(vstd::slice::slice_to_vec([OLED_CMD_PREFIX, 0xDA, 0x02].as_slice()));
    r.push(vstd::slice::slice_to_vec([OLED_CMD_PREFIX, 0x81, 0x7F].as_slice()));
    r.push(vstd::slice::slice_to_vec([OLED_CMD_PREFIX, 0xA4].as_slice()));
    r.push(vstd::slice::slice_to_vec([OLED_CMD_PREFIX, 0xA6].as_slice()));
    r.push(vstd::slice::slice_to_vec([OLED_CMD_PREFIX, 0xD5, 0x01].as_slice()));
    r.push(vstd::slice::slice_to_vec([OLED_CMD_PREFIX, 0x8D, 0x14].as_slice()));
    r.push(vstd::slice::slice_to_vec([OLED_CMD_PREFIX, 0xAF].as_slice()));
    r.push(vstd::slice::slice_to_vec([OLED_CMD_PREFIX, 0x20, 0x01].as_slice()));
    r.push(vstd::slice::slice_to_vec([OLED_CMD_PREFIX, 0x21, 0x00, 0x7F].as_slice()));
    r.push(vstd::slice::slice_to_vec([OLED_CMD_PREFIX, 0x22, 0x00, 0x03].as_slice()));
    proof {
        assert(r@.map_values(|v: Vec<u8>| v@) =~~= spec_init_commands());
    }
    r
}

} // verus!
