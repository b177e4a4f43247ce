//! Wire codec for the inter-half serial transport: fixed three-byte frames.
use vstd::prelude::*;

verus! {

/// Number of bytes in one serial frame.
pub const PACKET_SIZE: usize = 3;

/// One key or encoder event carried between the two halves.
#[derive(Clone, Copy, PartialEq, Eq, Structural, Debug)]
pub enum Packet {
    Down(u8, u8),
    Up(u8, u8),
    EncoderCw,
    EncoderCcw,
}

/// The three bytes that `serialize` produces for a packet.
/// Tag zero is reserved and never written.
pub open spec fn spec_serialize(p: Packet) -> Seq<u8> {
    match p {
        Packet::Down(x, y) => seq![1u8, x, y],
        Packet::Up(x, y) => seq![2u8, x, y],
        Packet::EncoderCw => seq![5u8, 0u8, 0u8],
        Packet::EncoderCcw => seq![6u8, 0u8, 0u8],
    }
}

/// The packet that a three-byte frame decodes to, if its tag is known.
pub open spec fn spec_deserialize(buf: Seq<u8>) -> Option<Packet>
    recommends
        buf.len() == PACKET_SIZE,
{
    if buf[0] == 1 {
        Some(Packet::Down(buf[1], buf[2]))
    } else if buf[0] == 2 {
        Some(Packet::Up(buf[1], buf[2]))
    } else if buf[0] == 5 {
        Some(Packet::EncoderCw)
    } else if buf[0] == 6 {
        Some(Packet::EncoderCcw)
    } else {
        None
    }
}

impl Packet {
    /// Writes the wire frame for this packet into `buf`.
    pub fn serialize(&self, buf: &mut [u8; PACKET_SIZE])
        ensures
            final(buf)@ == spec_serialize(*self),
    {
        match self {
            Packet::Down(x, y) => {
                *buf = [1, *x, *y];
            }
            Packet::Up(x, y) => {
                *buf = [2, *x, *y];
            }
            Packet::EncoderCw => {
                *buf = [5, 0, 0];
            }
            Packet::EncoderCcw => {
                *buf = [6, 0, 0];
            }
        }
        proof {
            assert(final(buf)@ =~= spec_serialize(*self));
        }
    }

    /// Decodes a wire frame; an unknown tag yields `None`.
    pub fn deserialize(buf: [u8; PACKET_SIZE]) -> (r: Option<Self>)
        ensures
            r == spec_deserialize(buf@),
    {
        match buf[0] {
            1 => Some(Packet::Down(buf[1], buf[2])),
            2 => Some(Packet::Up(buf[1], buf[2])),
            5 => Some(Packet::EncoderCw),
            6 => Some(Packet::EncoderCcw),
            _ => None,
        }
    }
}

/// Decoding a serialized packet gives back the same packet,
/// and the frame's tag byte is never the reserved zero.
pub proof fn lemma_packet_round_trip(p: Packet)
    ensures
        spec_deserialize(spec_serialize(p)) == Some(p),
        spec_serialize(p)[0] != 0,
        spec_serialize(p).len() == PACKET_SIZE,
{
}

} // verus!
