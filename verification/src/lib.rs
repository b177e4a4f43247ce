//! Core logic of a split mechanical keyboard firmware: layered keymap engine,
//! quadrature decoding, matrix debouncing, the inter-half link protocol, the
//! OLED stars animation, and HID report construction.
use vstd::prelude::*;

pub mod encoder;
pub mod frames;
pub mod fx;
pub mod i2c;
pub mod keyprobe;
pub mod led;
pub mod oled;
pub mod uart;
pub mod usb;

use crate::led::LedState;

verus! {

/// Which physical half of the keyboard this firmware instance drives.
#[derive(PartialEq, Eq, Clone, Copy, Structural, Debug)]
pub enum BoardSide {
    Left,
    Right,
}

/// Latches the board side from the idle levels sampled on the link pins:
/// the right half sees its wires pulled high.
pub fn detect_side(sda_high: bool, scl_high: bool) -> (r: BoardSide)
    ensures
        (r == BoardSide::Right) <==> (sda_high || scl_high),
{
    if sda_high || scl_high {
        BoardSide::Right
    } else {
        BoardSide::Left
    }
}

/// Keycode tables for the three layers of the 12 x 5 logical matrix;
/// layer 0 is the base, 0 means the cell is unmapped on that layer.
pub const KEYMAP: [[[u8; 12]; 5]; 3] = [
    [
        [0x29, 0x1E, 0x1F, 0x20, 0x21, 0x22, 0x23, 0x24, 0x25, 0x26, 0x27, 0x2A],
        [0x2B, 0x14, 0x1A, 0x08, 0x15, 0x17, 0x1C, 0x18, 0x0C, 0x12, 0x13, 0x2E],
        [0xE0, 0x04, 0x16, 0x07, 0x09, 0x0A, 0x0B, 0x0D, 0x0E, 0x0F, 0x33, 0x34],
        [0xE1, 0x1D, 0x1B, 0x06, 0x19, 0x05, 0x11, 0x10, 0x36, 0x37, 0x38, 0x31],
        [0x4A, 0x4D, 0xE2, 0x2C, 0xE3, 0x00, 0x00, 0x28, 0x2C, 0x00, 0x00, 0x00],
    ],
    [
        [0x35, 0x3A, 0x3B, 0x3C, 0x3D, 0x3E, 0x3F, 0x40, 0x41, 0x42, 0x43, 0x2D],
        [0x00, 0x44, 0x45, 0x68, 0x69, 0x6A, 0x6B, 0x6C, 0x6D, 0x6E, 0x2F, 0x30],
        [0x00, 0x00, 0x00, 0x00, 0x00, 0x00, 0x00, 0x00, 0x52, 0x00, 0x00, 0x00],
        [0x00, 0x00, 0x00, 0x00, 0x00, 0x00, 0x00, 0x50, 0x51, 0x4F, 0x00, 0x00],
        [0x4B, 0x4E, 0x00, 0x00, 0x00, 0x00, 0x00, 0x00, 0x00, 0x00, 0x00, 0x00],
    ],
    [
        [0x00, 0x00, 0x00, 0x00, 0x00, 0x00, 0x00, 0x00, 0x00, 0x00, 0x00, 0x4C],
        [0x00, 0x00, 0x00, 0x00, 0x00, 0x00, 0x00, 0x00, 0x00, 0x00, 0x00, 0x00],
        [0x00, 0x00, 0x00, 0x00, 0x00, 0x00, 0x00, 0x00, 0x00, 0x00, 0x00, 0x00],
        [0x00, 0x00, 0x00, 0x00, 0x00, 0x00, 0x00, 0x00, 0x00, 0x00, 0x00, 0x00],
        [0x00, 0x00, 0x00, 0x00, 0x00, 0x00, 0x00, 0x00, 0x00, 0x00, 0x00, 0x00],
    ],
];

/// Resolves the two held layer-toggle bits to a layer index.
pub const LAYER_LUT: [u8; 4] = [0, 1, 2, 2];

/// The modifier bit a keycode maps to in the report's modifier byte, or 0 for
/// a non-modifier keycode. Covers the usage range 0xE0..=0xE7 plus the
/// 0xC5/0xC6 shift aliases.
pub open spec fn modifier_mask(code: u8) -> u8 {
    if code == 0xC6 || code == 0xE5 {
        0x20u8  // right shift
    } else if code == 0xE1 || code == 0xC5 {
        0x02u8  // left shift
    } else if code == 0xE4 {
        0x10u8  // right control
    } else if code == 0xE0 {
        0x01u8  // left control
    } else if code == 0xE6 {
        0x40u8  // right alt
    } else if code == 0xE2 {
        0x04u8  // left alt
    } else if code == 0xE7 {
        0x80u8  // right gui
    } else if code == 0xE3 {
        0x08u8  // left gui
    } else {
        0u8
    }
}

/// Whether a keycode is one of the modifier keys.
pub open spec fn is_modifier(code: u8) -> bool {
    modifier_mask(code) != 0
}

fn modifier_mask_ex(code: u8) -> (m: u8)
    ensures
        m == modifier_mask(code),
{
    if code == 0xC6 || code == 0xE5 {
        0x20
    } else if code == 0xE1 || code == 0xC5 {
        0x02
    } else if code == 0xE4 {
        0x10
    } else if code == 0xE0 {
        0x01
    } else if code == 0xE6 {
        0x40
    } else if code == 0xE2 {
        0x04
    } else if code == 0xE7 {
        0x80
    } else if code == 0xE3 {
        0x08
    } else {
        0
    }
}

/// Index of the first slot holding `v`, or `buf.len()` if no slot does.
pub open spec fn first_slot(buf: Seq<u8>, v: u8) -> int
    decreases buf.len(),
{
    if buf.len() == 0 {
        0
    } else if buf[0] == v {
        0
    } else {
        1 + first_slot(buf.drop_first(), v)
    }
}

/// `first_slot` returns exactly the least index holding `v`.
pub proof fn lemma_first_slot(buf: Seq<u8>, v: u8, i: int)
    requires
        0 <= i < buf.len(),
        buf[i] == v,
        forall|j: int| 0 <= j < i ==> buf[j] != v,
    ensures
        first_slot(buf, v) == i,
    decreases i,
{
    if i == 0 {
    } else {
        assert(buf[0] != v);
        assert(buf.drop_first()[i - 1] == v);
        assert(forall|j: int| 0 <= j < i - 1 ==> buf.drop_first()[j] != v);
        lemma_first_slot(buf.drop_first(), v, i - 1);
    }
}

/// The buffer and modifier byte after pressing `code`, and whether the state
/// changed: a modifier sets its bit; another code occupies the first empty
/// slot unless it is already held or the buffer is full.
pub open spec fn spec_add_keycode(buf: Seq<u8>, mods: u8, code: u8) -> (Seq<u8>, u8, bool) {
    if code == 0 {
        (buf, mods, false)
    } else if is_modifier(code) {
        (buf, mods | modifier_mask(code), mods & modifier_mask(code) == 0)
    } else if buf.contains(code) {
        (buf, mods, false)
    } else if buf.contains(0) {
        (buf.update(first_slot(buf, 0), code), mods, true)
    } else {
        (buf, mods, false)
    }
}

/// Every slot holding `code` cleared to empty.
pub open spec fn spec_cleared(buf: Seq<u8>, code: u8) -> Seq<u8> {
    Seq::new(buf.len(), |i: int| if buf[i] == code { 0u8 } else { buf[i] })
}

/// The buffer and modifier byte after releasing `code`, and whether the state
/// changed: a modifier clears its bit; another code is cleared from every
/// slot that holds it.
pub open spec fn spec_remove_keycode(buf: Seq<u8>, mods: u8, code: u8) -> (Seq<u8>, u8, bool) {
    if code == 0 {
        (buf, mods, false)
    } else if is_modifier(code) {
        (buf, mods & !modifier_mask(code), mods & modifier_mask(code) != 0)
    } else {
        (spec_cleared(buf, code), mods, buf.contains(code))
    }
}

/// Presses `code` into the six-slot key buffer and the modifier byte.
/// Returns whether the reported key state changed.
pub fn add_keycode(key_buffer: &mut [u8; 6], modifiers: &mut u8, code: u8) -> (r: bool)
    ensures
        (final(key_buffer)@, *final(modifiers), r) == spec_add_keycode(
            old(key_buffer)@,
            *old(modifiers),
            code,
        ),
{
    if code == 0 {
        return false;
    }
    let m = modifier_mask_ex(code);
    if m != 0 {
        let r = (*modifiers & m) == 0;
        *modifiers = *modifiers | m;
        return r;
    }
    let mut i: usize = 0;
    while i < 6
        invariant
            i <= 6,
            forall|j: int| 0 <= j < i ==> old(key_buffer)@[j] != code,
            key_buffer@ == old(key_buffer)@,
            modifiers == old(modifiers),
            code != 0,
            !is_modifier(code),
        decreases 6 - i,
    {
        if key_buffer[i] == code {
            return false;
        }
        i = i + 1;
    }
    let mut i: usize = 0;
    while i < 6
        invariant
            i <= 6,
            forall|j: int| 0 <= j < i ==> old(key_buffer)@[j] != 0,
            forall|j: int| 0 <= j < 6 ==> old(key_buffer)@[j] != code,
            key_buffer@ == old(key_buffer)@,
            modifiers == old(modifiers),
            code != 0,
            !is_modifier(code),
        decreases 6 - i,
    {
        if key_buffer[i] == 0 {
            proof {
                lemma_first_slot(key_buffer@, 0, i as int);
            }
            key_buffer[i] = code;
            return true;
        }
        i = i + 1;
    }
    false
}

/// Releases `code` from the six-slot key buffer and the modifier byte.
/// Returns whether the reported key state changed.
pub fn remove_keycode(key_buffer: &mut [u8; 6], modifiers: &mut u8, code: u8) -> (r: bool)
    ensures
        (final(key_buffer)@, *final(modifiers), r) == spec_remove_keycode(
            old(key_buffer)@,
            *old(modifiers),
            code,
        ),
{
    if code == 0 {
        return false;
    }
    let m = modifier_mask_ex(code);
    if m != 0 {
        let r = (*modifiers & m) != 0;
        *modifiers = *modifiers & !m;
        return r;
    }
    let mut update = false;
    let mut i: usize = 0;
    while i < 6
        invariant
            i <= 6,
            key_buffer@.len() == 6,
            forall|j: int|
                0 <= j < i ==> key_buffer@[j] == (if old(key_buffer)@[j] == code {
                    0u8
                } else {
                    old(key_buffer)@[j]
                }),
            forall|j: int| i <= j < 6 ==> key_buffer@[j] == old(key_buffer)@[j],
            update == exists|j: int| 0 <= j < i && old(key_buffer)@[j] == code,
            modifiers == old(modifiers),
            code != 0,
            !is_modifier(code),
        decreases 6 - i,
    {
        if key_buffer[i] == code {
            key_buffer[i] = 0;
            update = true;
        }
        i = i + 1;
    }
    proof {
        assert(key_buffer@ =~= spec_cleared(old(key_buffer)@, code));
    }
    update
}

/// The column of the 12-wide logical matrix a raw event lands in: events that
/// originate on the right half are mirrored into columns 6..=11.
pub open spec fn spec_logical_x(x: u8, from_us: bool, right_side: bool) -> u8 {
    if from_us == right_side {
        if x <= 5 {
            (11 - x) as u8
        } else {
            6u8
        }
    } else {
        x
    }
}

/// The keycode the held layers resolve to at a logical cell, falling back to
/// the base layer when the active layer leaves the cell unmapped.
pub open spec fn spec_resolved_key(layers: u8, y: u8, x: u8) -> u8
    recommends
        y < 5,
        x < 12,
{
    let layer = LAYER_LUT@[(layers & 3) as int];
    let key = KEYMAP@[layer as int]@[y as int]@[x as int];
    if key == 0 {
        KEYMAP@[0]@[y as int]@[x as int]
    } else {
        key
    }
}

/// What a dispatched key event asks of the surrounding tasks, beyond the
/// mutation of the key state itself.
#[derive(Clone, Copy, PartialEq, Eq, Structural, Debug)]
pub struct KeyUpdate {
    /// The reported key state changed; a fresh keyboard report is due.
    pub changed: bool,
    /// A consumer-control usage to emit (media keys handled in the matrix).
    pub consumer: Option<u16>,
    /// A status-LED state to signal.
    pub led: Option<LedState>,
}

/// A key update that asks for nothing.
pub open spec fn no_update() -> KeyUpdate {
    KeyUpdate { changed: false, consumer: None, led: None }
}

/// Full effect of one matrix or link key event on the key state:
/// the new buffer, layer mask, and modifier byte, plus the requested outputs.
pub open spec fn spec_update_key_data(
    buf: Seq<u8>,
    layers: u8,
    mods: u8,
    x: u8,
    y: u8,
    from_us: bool,
    right_side: bool,
    down: bool,
) -> (Seq<u8>, u8, u8, KeyUpdate) {
    let lx = spec_logical_x(x, from_us, right_side);
    if lx >= 12 || y >= 5 {
        (buf, layers, mods, no_update())
    } else if lx == 9 && y == 4 {
        (buf, if down { layers | 1 } else { layers & !1 }, mods, no_update())
    } else if lx == 11 && y == 4 {
        (buf, if down { layers | 2 } else { layers & !2 }, mods, no_update())
    } else if lx == 5 && y == 4 {
        (
            buf,
            layers,
            mods,
            KeyUpdate {
                changed: false,
                consumer: if down { Some(0xCDu16) } else { None },
                led: Some(if down { LedState::BlinkFast } else { LedState::Off }),
            },
        )
    } else if lx == 6 && y == 4 {
        (
            buf,
            layers,
            mods,
            KeyUpdate {
                changed: false,
                consumer: if down { Some(0xE2u16) } else { None },
                led: Some(if down { LedState::BlinkSlow } else { LedState::Off }),
            },
        )
    } else {
        let key = spec_resolved_key(layers, y, lx);
        if key == 0 {
            (buf, layers, mods, no_update())
        } else if down {
            let (b, m, c) = spec_add_keycode(buf, mods, key);
            (b, layers, m, KeyUpdate { changed: c, consumer: None, led: None })
        } else {
            let (b0, m0, c0) = spec_remove_keycode(buf, mods, KEYMAP@[0]@[y as int]@[lx as int]);
            let (b1, m1, c1) = spec_remove_keycode(b0, m0, KEYMAP@[1]@[y as int]@[lx as int]);
            let (b2, m2, c2) = spec_remove_keycode(b1, m1, KEYMAP@[2]@[y as int]@[lx as int]);
            (b2, layers, m2, KeyUpdate { changed: c0 || c1 || c2, consumer: None, led: None })
        }
    }
}

/// Applies one raw key event to the key buffer, layer mask, and modifier
/// byte. Returns what the event asks of the reporter and the LED. A release
/// clears the cell's keycode from every layer, so a key let go after a layer
/// change still comes up.
#[verifier::rlimit(60)]
pub fn update_key_data(
    key_buffer: &mut [u8; 6],
    layers: &mut u8,
    modifiers: &mut u8,
    x: u8,
    y: u8,
    from_us: bool,
    right_side: bool,
    down: bool,
) -> (out: KeyUpdate)
    ensures
        (final(key_buffer)@, *final(layers), *final(modifiers), out) == spec_update_key_data(
            old(key_buffer)@,
            *old(layers),
            *old(modifiers),
            x,
            y,
            from_us,
            right_side,
            down,
        ),
{
    let lx: u8 = if from_us == right_side {
        if x <= 5 {
            11 - x
        } else {
            6
        }
    } else {
        x
    };

    if lx >= 12 || y >= 5 {
        return KeyUpdate { changed: false, consumer: None, led: None };
    }

    if lx == 9 && y == 4 {
        if down {
            *layers = *layers | 1;
        } else {
            *layers = *layers & !1;
        }
        return KeyUpdate { changed: false, consumer: None, led: None };
    }

    if lx == 11 && y == 4 {
        if down {
            *layers = *layers | 2;
        } else {
            *layers = *layers & !2;
        }
        return KeyUpdate { changed: false, consumer: None, led: None };
    }

    // Media keys live directly in the matrix.
    if lx == 5 && y == 4 {
        return KeyUpdate {
            changed: false,
            consumer: if down { Some(0xCD) } else { None },
            led: Some(if down { LedState::BlinkFast } else { LedState::Off }),
        };
    }
    if lx == 6 && y == 4 {
        return KeyUpdate {
            changed: false,
            consumer: if down { Some(0xE2) } else { None },
            led: Some(if down { LedState::BlinkSlow } else { LedState::Off }),
        };
    }

    assert((*layers & 0b11) < 4) by (bit_vector);
    let layer = LAYER_LUT[(*layers & 0b11) as usize];
    assert(layer < 3);
    let mut key = KEYMAP[layer as usize][y as usize][lx as usize];
    if key == 0 {
        // Fall back to the base layer.
        key = KEYMAP[0][y as usize][lx as usize];
    }
    if key == 0 {
        // Not mapped; ignore.
        return KeyUpdate { changed: false, consumer: None, led: None };
    }

    if down {
        let c = add_keycode(key_buffer, modifiers, key);
        KeyUpdate { changed: c, consumer: None, led: None }
    } else {
        // Un-press the keycode this cell maps to on every layer, so a layer
        // change between press and release cannot leave a key stuck.
        let c0 = remove_keycode(key_buffer, modifiers, KEYMAP[0][y as usize][lx as usize]);
        let c1 = remove_keycode(key_buffer, modifiers, KEYMAP[1][y as usize][lx as usize]);
        let c2 = remove_keycode(key_buffer, modifiers, KEYMAP[2][y as usize][lx as usize]);
        KeyUpdate { changed: c0 || c1 || c2, consumer: None, led: None }
    }
}

/// What one dispatched event emits: at most one reporter event, and possibly
/// a status-LED change.
#[derive(Clone, Copy, Debug)]
pub struct DispatchResult {
    pub usb: Option<usb::Event>,
    pub led: Option<LedState>,
}

/// The reporter event a key update gives rise to: a fresh key-state snapshot
/// if the state changed, else the consumer usage if the cell is a media key.
pub open spec fn spec_dispatch_event(out: KeyUpdate, buf: Seq<u8>, mods: u8) -> Option<usb::Event>
    recommends
        buf.len() == 6,
{
    if out.changed {
        Some(usb::Event::Update([buf[0], buf[1], buf[2], buf[3], buf[4], buf[5]], mods))
    } else {
        match out.consumer {
            Some(u) => Some(usb::Event::Consumer(u)),
            None => None,
        }
    }
}

/// Applies one raw key event and returns the reporter event and LED change it
/// produces, if any.
pub fn dispatch_key(
    key_buffer: &mut [u8; 6],
    layers: &mut u8,
    modifiers: &mut u8,
    x: u8,
    y: u8,
    from_us: bool,
    right_side: bool,
    down: bool,
) -> (r: DispatchResult)
    ensures
        ({
            let (b, l, m, out) = spec_update_key_data(
                old(key_buffer)@,
                *old(layers),
                *old(modifiers),
                x,
                y,
                from_us,
                right_side,
                down,
            );
            &&& final(key_buffer)@ == b
            &&& *final(layers) == l
            &&& *final(modifiers) == m
            &&& r.usb == spec_dispatch_event(out, b, m)
            &&& r.led == out.led
        }),
{
    let out = update_key_data(key_buffer, layers, modifiers, x, y, from_us, right_side, down);
    let usb_event = if out.changed {
        let snapshot = [
            key_buffer[0],
            key_buffer[1],
            key_buffer[2],
            key_buffer[3],
            key_buffer[4],
            key_buffer[5],
        ];
        Some(usb::Event::Update(snapshot, *modifiers))
    } else {
        match out.consumer {
            Some(u) => Some(usb::Event::Consumer(u)),
            None => None,
        }
    };
    DispatchResult { usb: usb_event, led: out.led }
}

} // verus!

verus! {

/// Columns 0..=11 mirrored around the centre of the 12-wide logical matrix.
pub open spec fn mirror_col(x: u8) -> u8
    recommends
        x < 12,
{
    (11 - x) as u8
}

/// The column mirror is its own inverse on the logical matrix.
pub proof fn lemma_mirror_involution(x: u8)
    requires
        x < 12,
    ensures
        mirror_col(mirror_col(x)) == x,
{
}

/// An event from scanner column `x` lands in the mirrored logical column
/// exactly when it originates on the same side that is processing it being
/// the right half; otherwise the column is used as-is.
pub proof fn lemma_side_mirroring(x: u8, from_us: bool, right_side: bool)
    requires
        x <= 5,
    ensures
        spec_logical_x(x, from_us, right_side) == (if from_us == right_side {
            mirror_col(x)
        } else {
            x
        }),
{
}

/// Pressing a key that is already held changes nothing: a second down event
/// for the same cell leaves the buffer, layers, and modifiers as they were
/// and reports no further key-state change.
pub proof fn lemma_dispatch_down_idempotent(
    buf: Seq<u8>,
    layers: u8,
    mods: u8,
    x: u8,
    y: u8,
    from_us: bool,
    right_side: bool,
)
    requires
        buf.len() == 6,
    ensures
        ({
            let (b1, l1, m1, o1) = spec_update_key_data(
                buf,
                layers,
                mods,
                x,
                y,
                from_us,
                right_side,
                true,
            );
            let (b2, l2, m2, o2) = spec_update_key_data(
                b1,
                l1,
                m1,
                x,
                y,
                from_us,
                right_side,
                true,
            );
            b2 == b1 && l2 == l1 && m2 == m1 && !o2.changed
        }),
{
    let lx = spec_logical_x(x, from_us, right_side);
    let (b1, l1, m1, o1) = spec_update_key_data(buf, layers, mods, x, y, from_us, right_side, true);
    if lx == 9 && y == 4 {
        assert((layers | 1) | 1 == layers | 1) by (bit_vector);
    } else if lx == 11 && y == 4 {
        assert((layers | 2) | 2 == layers | 2) by (bit_vector);
    } else if lx < 12 && y < 5 && !(lx == 5 && y == 4) && !(lx == 6 && y == 4) {
        let key = spec_resolved_key(layers, y, lx);
        if key != 0 {
            if is_modifier(key) {
                let m = modifier_mask(key);
                assert((mods | m) | m == mods | m) by (bit_vector);
                assert(m != 0 ==> ((mods | m) & m) != 0) by (bit_vector);
            } else {
                if !buf.contains(key) && buf.contains(0) {
                    lemma_first_slot_in_range(buf, 0);
                    assert(b1.contains(key)) by {
                        assert(b1[first_slot(buf, 0)] == key);
                    }
                }
            }
        }
    }
}

/// `first_slot` of a value the buffer holds is a real slot index, holds the
/// value, and no earlier slot does.
pub proof fn lemma_first_slot_in_range(buf: Seq<u8>, v: u8)
    requires
        buf.contains(v),
    ensures
        0 <= first_slot(buf, v) < buf.len(),
        buf[first_slot(buf, v)] == v,
        forall|j: int| 0 <= j < first_slot(buf, v) ==> buf[j] != v,
    decreases buf.len(),
{
    if buf[0] == v {
    } else {
        assert(buf.drop_first().contains(v)) by {
            let i = choose|i: int| 0 <= i < buf.len() && buf[i] == v;
            assert(buf.drop_first()[i - 1] == v);
        }
        lemma_first_slot_in_range(buf.drop_first(), v);
        let fs = first_slot(buf, v);
        assert(fs == 1 + first_slot(buf.drop_first(), v));
        assert forall|j: int| 0 <= j < fs implies buf[j] != v by {
            if j > 0 {
                assert(buf.drop_first()[j - 1] == buf[j]);
            }
        }
    }
}

/// Clearing a keycode leaves no slot holding it.
pub proof fn lemma_cleared_absent(buf: Seq<u8>, code: u8)
    requires
        code != 0,
    ensures
        !spec_cleared(buf, code).contains(code),
{
    let c = spec_cleared(buf, code);
    assert forall|i: int| 0 <= i < c.len() implies c[i] != code by {}
}

/// Clearing one keycode never re-introduces another non-zero keycode.
pub proof fn lemma_cleared_preserves_absent(buf: Seq<u8>, cleared_code: u8, k: u8)
    requires
        !buf.contains(k),
        k != 0,
    ensures
        !spec_cleared(buf, cleared_code).contains(k),
{
    let c = spec_cleared(buf, cleared_code);
    assert forall|i: int| 0 <= i < c.len() implies c[i] != k by {
        assert(buf[i] != k);
    }
}

/// Pressing or releasing a non-modifier keycode never changes the modifier
/// byte.
pub proof fn lemma_modifier_independence(buf: Seq<u8>, mods: u8, code: u8)
    requires
        !is_modifier(code),
    ensures
        spec_add_keycode(buf, mods, code).1 == mods,
        spec_remove_keycode(buf, mods, code).1 == mods,
{
}

/// Releasing a modifier clears exactly its own bit: the bit is low
/// afterwards, every other bit is untouched, the key buffer is untouched,
/// and a change is reported exactly when the bit was high.
pub proof fn lemma_modifier_release_exact(buf: Seq<u8>, mods: u8, code: u8)
    requires
        is_modifier(code),
    ensures
        ({
            let (b, m, c) = spec_remove_keycode(buf, mods, code);
            let mask = modifier_mask(code);
            &&& b == buf
            &&& m & mask == 0
            &&& forall|other: u8| other & mask == 0 ==> m & other == mods & other
            &&& c == (mods & mask != 0)
        }),
{
    let mask = modifier_mask(code);
    assert((mods & !mask) & mask == 0) by (bit_vector);
    assert forall|other: u8| other & mask == 0 implies (mods & !mask) & other == mods & other by {
        assert(other & mask == 0 ==> (mods & !mask) & other == mods & other) by (bit_vector);
    }
}

/// Pressing a modifier sets exactly its own bit: the bit is high afterwards,
/// every other bit is untouched, and a change is reported exactly when the
/// bit was low.
pub proof fn lemma_modifier_press_exact(buf: Seq<u8>, mods: u8, code: u8)
    requires
        is_modifier(code),
    ensures
        ({
            let (b, m, c) = spec_add_keycode(buf, mods, code);
            let mask = modifier_mask(code);
            &&& b == buf
            &&& m & mask == mask
            &&& forall|other: u8| other & mask == 0 ==> m & other == mods & other
            &&& c == (mods & mask == 0)
        }),
{
    let mask = modifier_mask(code);
    assert((mods | mask) & mask == mask) by (bit_vector);
    assert forall|other: u8| other & mask == 0 implies (mods | mask) & other == mods & other by {
        assert(other & mask == 0 ==> (mods | mask) & other == mods & other) by (bit_vector);
    }
}

/// Whether a logical cell reaches the keymap at all: inside the matrix and
/// not one of the layer-toggle or media cells in the bottom row.
pub open spec fn in_key_cell(lx: u8, y: u8) -> bool {
    &&& lx < 12
    &&& y < 5
    &&& !(lx == 9 && y == 4)
    &&& !(lx == 11 && y == 4)
    &&& !(lx == 5 && y == 4)
    &&& !(lx == 6 && y == 4)
}

} // verus!

verus! {

proof fn lemma_and_not_preserves_zero(m: u8, o: u8, k: u8)
    requires
        m & k == 0,
    ensures
        (m & !o) & k == 0,
{
    assert(m & k == 0 ==> (m & !o) & k == 0) by (bit_vector);
}

/// A key pressed on one layer comes up even if the held layers change before
/// the release: after the release, no slot holds the keycode the press
/// resolved to, and for a modifier its bit is low.
pub proof fn lemma_layer_release_safety(
    buf: Seq<u8>,
    layers: u8,
    mods: u8,
    x: u8,
    y: u8,
    from_us: bool,
    right_side: bool,
    layers2: u8,
)
    requires
        buf.len() == 6,
    ensures
        ({
            let lx = spec_logical_x(x, from_us, right_side);
            let key = spec_resolved_key(layers, y, lx);
            let (b1, l1, m1, o1) = spec_update_key_data(
                buf,
                layers,
                mods,
                x,
                y,
                from_us,
                right_side,
                true,
            );
            let (b2, l2, m2, o2) = spec_update_key_data(
                b1,
                layers2,
                m1,
                x,
                y,
                from_us,
                right_side,
                false,
            );
            &&& (in_key_cell(lx, y) && key != 0 && !is_modifier(key)) ==> !b2.contains(key)
            &&& (in_key_cell(lx, y) && key != 0 && is_modifier(key)) ==> m2 & modifier_mask(key)
                == 0
        }),
{
    let lx = spec_logical_x(x, from_us, right_side);
    let key = spec_resolved_key(layers, y, lx);
    if in_key_cell(lx, y) && key != 0 {
        let (b1, m1, c1) = spec_add_keycode(buf, mods, key);
        let k0 = KEYMAP@[0]@[y as int]@[lx as int];
        let k1 = KEYMAP@[1]@[y as int]@[lx as int];
        let k2 = KEYMAP@[2]@[y as int]@[lx as int];
        // The press resolves to this cell's code on one of the three layers.
        assert(layers & 3 < 4) by (bit_vector);
        assert(layers2 & 3 < 4) by (bit_vector);
        assert(LAYER_LUT@[0] == 0 && LAYER_LUT@[1] == 1 && LAYER_LUT@[2] == 2 && LAYER_LUT@[3]
            == 2);
        assert(key == k0 || key == k1 || key == k2);
        // On this keymap, any cell mapped on a higher layer is mapped on the
        // base layer too, so the release also reaches the keymap.
        assert(k0 != 0);
        assert(spec_resolved_key(layers2, y, lx) != 0);
        let (r0, n0, d0) = spec_remove_keycode(b1, m1, k0);
        let (r1, n1, d1) = spec_remove_keycode(r0, n0, k1);
        let (r2, n2, d2) = spec_remove_keycode(r1, n1, k2);
        if !is_modifier(key) {
            // After the remove step for the matching layer the code is gone,
            // and the later steps cannot re-introduce it.
            if key == k0 {
                lemma_cleared_absent(b1, k0);
                if !is_modifier(k1) && k1 != 0 {
                    lemma_cleared_preserves_absent(r0, k1, key);
                }
                if !is_modifier(k2) && k2 != 0 {
                    lemma_cleared_preserves_absent(r1, k2, key);
                }
            } else if key == k1 {
                lemma_cleared_absent(r0, k1);
                if !is_modifier(k2) && k2 != 0 {
                    lemma_cleared_preserves_absent(r1, k2, key);
                }
            } else {
                lemma_cleared_absent(r1, k2);
            }
        } else {
            let mask = modifier_mask(key);
            if key == k0 {
                assert((m1 & !mask) & mask == 0) by (bit_vector);
                if is_modifier(k1) {
                    lemma_and_not_preserves_zero(n0, modifier_mask(k1), mask);
                }
                if is_modifier(k2) {
                    lemma_and_not_preserves_zero(n1, modifier_mask(k2), mask);
                }
            } else if key == k1 {
                assert((n0 & !mask) & mask == 0) by (bit_vector);
                if is_modifier(k2) {
                    lemma_and_not_preserves_zero(n1, modifier_mask(k2), mask);
                }
            } else {
                assert((n1 & !mask) & mask == 0) by (bit_vector);
            }
        }
    }
}

} // verus!

verus! {

/// One inbound event the orchestrator multiplexes: a local matrix edge, a
/// packet from the partner half, or a local encoder detent.
#[derive(Clone, Copy, Debug)]
pub enum InputEvent {
    Key(keyprobe::Event),
    Link(uart::Packet),
    Encoder(encoder::Event),
}

/// Everything one orchestrator step asks the surrounding tasks to do.
#[derive(Clone, Copy, Debug)]
pub struct Actions {
    /// Event for the HID reporter.
    pub usb: Option<usb::Event>,
    /// Packet to mirror to the partner half.
    pub link: Option<uart::Packet>,
    /// Status-LED change to signal.
    pub led: Option<LedState>,
    /// Spawn one star in the animation.
    pub star: bool,
}

/// The consumer-control usage a local encoder detent maps to, and the packet
/// mirrored to the partner (the direction is flipped on the right half so the
/// partner sees the knob from its own side).
pub open spec fn spec_encoder_actions(ev: encoder::Event, right_side: bool) -> (u16, uart::Packet) {
    match ev {
        encoder::Event::Cw => if right_side {
            (0xEAu16, uart::Packet::EncoderCcw)  // volume down
        } else {
            (0xB5u16, uart::Packet::EncoderCw)  // next track
        },
        encoder::Event::Ccw => if right_side {
            (0xE9u16, uart::Packet::EncoderCw)  // volume up
        } else {
            (0xB6u16, uart::Packet::EncoderCcw)  // previous track
        },
    }
}

/// The consumer-control usage a remote encoder detent maps to (the reverse of
/// the local mapping: the event already crossed sides).
pub open spec fn spec_remote_encoder_usage(cw: bool, right_side: bool) -> u16 {
    if cw {
        if right_side {
            0xB5u16  // next track
        } else {
            0xE9u16  // volume up
        }
    } else {
        if right_side {
            0xB6u16  // previous track
        } else {
            0xEAu16  // volume down
        }
    }
}

/// Full effect of one orchestrator step on the key state, plus the actions it
/// requests: key events run the keymap engine (local ones are also mirrored
/// onto the link), remote key events drive the LED, encoder detents synthesize
/// consumer keys on both halves, and every event spawns a star.
pub open spec fn spec_orchestrate(
    buf: Seq<u8>,
    layers: u8,
    mods: u8,
    right_side: bool,
    input: InputEvent,
) -> (Seq<u8>, u8, u8, Actions) {
    match input {
        InputEvent::Key(ev) => {
            let (x, y, down) = match ev {
                keyprobe::Event::Down(x, y) => (x, y, true),
                keyprobe::Event::Up(x, y) => (x, y, false),
            };
            let (b, l, m, out) = spec_update_key_data(
                buf,
                layers,
                mods,
                x,
                y,
                true,
                right_side,
                down,
            );
            let pkt = if down {
                uart::Packet::Down(x, y)
            } else {
                uart::Packet::Up(x, y)
            };
            (
                b,
                l,
                m,
                Actions {
                    usb: spec_dispatch_event(out, b, m),
                    link: Some(pkt),
                    led: out.led,
                    star: true,
                },
            )
        },
        InputEvent::Link(uart::Packet::Down(x, y)) => {
            let (b, l, m, out) = spec_update_key_data(buf, layers, mods, x, y, false, right_side, true);
            (
                b,
                l,
                m,
                Actions {
                    usb: spec_dispatch_event(out, b, m),
                    link: None,
                    led: Some(LedState::On),
                    star: true,
                },
            )
        },
        InputEvent::Link(uart::Packet::Up(x, y)) => {
            let (b, l, m, out) = spec_update_key_data(buf, layers, mods, x, y, false, right_side, false);
            (
                b,
                l,
                m,
                Actions {
                    usb: spec_dispatch_event(out, b, m),
                    link: None,
                    led: Some(LedState::Off),
                    star: true,
                },
            )
        },
        InputEvent::Link(uart::Packet::EncoderCw) => (
            buf,
            layers,
            mods,
            Actions {
                usb: Some(usb::Event::Consumer(spec_remote_encoder_usage(true, right_side))),
                link: None,
                led: None,
                star: true,
            },
        ),
        InputEvent::Link(uart::Packet::EncoderCcw) => (
            buf,
            layers,
            mods,
            Actions {
                usb: Some(usb::Event::Consumer(spec_remote_encoder_usage(false, right_side))),
                link: None,
                led: None,
                star: true,
            },
        ),
        InputEvent::Encoder(ev) => {
            let (usage, pkt) = spec_encoder_actions(ev, right_side);
            (
                buf,
                layers,
                mods,
                Actions {
                    usb: Some(usb::Event::Consumer(usage)),
                    link: Some(pkt),
                    led: None,
                    star: true,
                },
            )
        },
    }
}

/// Runs one orchestrator step: applies the event to the key state and returns
/// the actions the surrounding tasks must perform.
pub fn orchestrate(
    key_buffer: &mut [u8; 6],
    layers: &mut u8,
    modifiers: &mut u8,
    right_side: bool,
    input: InputEvent,
) -> (r: Actions)
    ensures
        (final(key_buffer)@, *final(layers), *final(modifiers), r) == spec_orchestrate(
            old(key_buffer)@,
            *old(layers),
            *old(modifiers),
            right_side,
            input,
        ),
{
    match input {
        InputEvent::Key(ev) => {
            let (x, y, down) = match ev {
                keyprobe::Event::Down(x, y) => (x, y, true),
                keyprobe::Event::Up(x, y) => (x, y, false),
            };
            let d = dispatch_key(key_buffer, layers, modifiers, x, y, true, right_side, down);
            let pkt = if down {
                uart::Packet::Down(x, y)
            } else {
                uart::Packet::Up(x, y)
            };
            Actions { usb: d.usb, link: Some(pkt), led: d.led, star: true }
        }
        InputEvent::Link(uart::Packet::Down(x, y)) => {
            let d = dispatch_key(key_buffer, layers, modifiers, x, y, false, right_side, true);
            Actions { usb: d.usb, link: None, led: Some(LedState::On), star: true }
        }
        InputEvent::Link(uart::Packet::Up(x, y)) => {
            let d = dispatch_key(key_buffer, layers, modifiers, x, y, false, right_side, false);
            Actions { usb: d.usb, link: None, led: Some(LedState::Off), star: true }
        }
        InputEvent::Link(uart::Packet::EncoderCw) => {
            let usage: u16 = if right_side {
                0xB5  // next track
            } else {
                0xE9  // volume up
            };
            Actions { usb: Some(usb::Event::Consumer(usage)), link: None, led: None, star: true }
        }
        InputEvent::Link(uart::Packet::EncoderCcw) => {
            let usage: u16 = if right_side {
                0xB6  // previous track
            } else {
                0xEA  // volume down
            };
            Actions { usb: Some(usb::Event::Consumer(usage)), link: None, led: None, star: true }
        }
        InputEvent::Encoder(ev) => {
            let (usage, pkt): (u16, uart::Packet) = match ev {
                encoder::Event::Cw => if right_side {
                    (0xEA, uart::Packet::EncoderCcw)  // volume down
                } else {
                    (0xB5, uart::Packet::EncoderCw)  // next track
                },
                encoder::Event::Ccw => if right_side {
                    (0xE9, uart::Packet::EncoderCw)  // volume up
                } else {
                    (0xB6, uart::Packet::EncoderCcw)  // previous track
                },
            };
            Actions {
                usb: Some(usb::Event::Consumer(usage)),
                link: Some(pkt),
                led: None,
                star: true,
            }
        }
    }
}

} // verus!
