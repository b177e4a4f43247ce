//! HID reporter: the events it consumes, the reports it writes for each, and
//! the device-handler state tracked across bus resets.
use vstd::prelude::*;

verus! {

/// One request to the HID reporter: a fresh key-state snapshot, or a
/// consumer-control (media) usage.
#[derive(Clone, Copy, Debug)]
pub enum Event {
    Update([u8; 6], u8),
    Consumer(u16),
}

/// The eight bytes of a boot-protocol keyboard input report:
/// modifier byte, reserved zero, six keycode slots.
pub open spec fn spec_keyboard_report(keycodes: Seq<u8>, modifier: u8) -> Seq<u8> {
    seq![modifier, 0u8] + keycodes
}

/// Builds the boot-protocol keyboard report for a key-state snapshot.
pub fn keyboard_report_bytes(keycodes: &[u8; 6], modifier: u8) -> (r: [u8; 8])
    ensures
        r@ == spec_keyboard_report(keycodes@, modifier),
{
    let r = [
        modifier,
        0,
        keycodes[0],
        keycodes[1],
        keycodes[2],
        keycodes[3],
        keycodes[4],
        keycodes[5],
    ];
    proof {
        assert(r@ =~= spec_keyboard_report(keycodes@, modifier));
    }
    r
}

/// The two bytes of a consumer-control report: the 16-bit usage id,
/// least-significant byte first.
pub open spec fn spec_consumer_report(usage: u16) -> Seq<u8> {
    seq![(usage & 0xFF) as u8, (usage >> 8) as u8]
}

/// Builds the consumer-control report for a usage id.
pub fn consumer_report_bytes(usage: u16) -> (r: [u8; 2])
    ensures
        r@ == spec_consumer_report(usage),
{
    let r = [(usage & 0xFF) as u8, (usage >> 8) as u8];
    proof {
        assert(r@ =~= spec_consumer_report(usage));
    }
    r
}

/// The writes the reporter performs for one event: a key-state snapshot is one
/// keyboard report; a consumer usage is the usage followed at once by a
/// zero-usage release report.
#[derive(Clone, Copy, Debug)]
pub enum ReportWrites {
    Keyboard([u8; 8]),
    Consumer([u8; 2], [u8; 2]),
}

/// Maps a reporter event to the exact report bytes it must write.
pub fn event_reports(ev: &Event) -> (r: ReportWrites)
    ensures
        (match *ev {
            Event::Update(keycodes, modifier) => {
                &&& r matches ReportWrites::Keyboard(bytes)
                &&& bytes@ == spec_keyboard_report(keycodes@, modifier)
            },
            Event::Consumer(usage) => {
                &&& r matches ReportWrites::Consumer(first, release)
                &&& first@ == spec_consumer_report(usage)
                &&& release@ == spec_consumer_report(0)
            },
        }),
{
    match ev {
        Event::Update(keycodes, modifier) => {
            ReportWrites::Keyboard(keyboard_report_bytes(keycodes, *modifier))
        }
        Event::Consumer(usage) => {
            ReportWrites::Consumer(consumer_report_bytes(*usage), consumer_report_bytes(0))
        }
    }
}

/// Tracks whether the host has configured the device; every reset, address
/// assignment, or enable transition marks it unconfigured again.
pub struct MyDeviceHandler {
    configured: bool,
}

impl MyDeviceHandler {
    /// Whether the handler currently records the device as configured.
    pub closed spec fn spec_configured(&self) -> bool {
        self.configured
    }

    /// A handler for a device that is not yet configured.
    pub fn new() -> (r: Self)
        ensures
            !r.spec_configured(),
    {
        MyDeviceHandler { configured: false }
    }

    /// Whether the host has configured the device.
    pub fn is_configured(&self) -> (r: bool)
        ensures
            r == self.spec_configured(),
    {
        self.configured
    }

    /// The bus was enabled or disabled: the device is no longer configured.
    pub fn enabled(&mut self, enabled: bool)
        ensures
            !final(self).spec_configured(),
    {
        self.configured = false;
    }

    /// The bus was reset: the device is no longer configured.
    pub fn reset(&mut self)
        ensures
            !final(self).spec_configured(),
    {
        self.configured = false;
    }

    /// The device received an address: it is not yet configured.
    pub fn addressed(&mut self, addr: u8)
        ensures
            !final(self).spec_configured(),
    {
        self.configured = false;
    }

    /// The host selected or deselected a configuration.
    pub fn configured(&mut self, configured: bool)
        ensures
            final(self).spec_configured() == configured,
    {
        self.configured = configured;
    }
}

} // verus!
