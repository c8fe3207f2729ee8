//! Power management: the port commands that reset or power off the machine.
//! Running them, and halting, is up to the caller.

use vstd::prelude::*;

verus! {

/// The keyboard controller's command and status port.
pub const CONTROLLER_PORT: u16 = 0x64;

/// The controller command that pulses the CPU reset line.
pub const RESET_COMMAND: u8 = 0xFE;

/// A value to write to an I/O port: a 16-bit word, or, when `wide` is
/// false, its low byte alone.
#[derive(Clone, Copy, Debug, PartialEq, Eq, Structural)]
pub struct PortWord {
    pub port: u16,
    pub value: u16,
    pub wide: bool,
}

pub open spec fn word(port: u16, value: u16) -> PortWord {
    PortWord { port, value, wide: true }
}

pub open spec fn byte(port: u16, value: u16) -> PortWord {
    PortWord { port, value, wide: false }
}

/// The power-off requests understood by common emulators, in the order
/// they are tried: newer QEMU, Bochs and older QEMU, VirtualBox, then Cloud
/// Hypervisor.
pub open spec fn shutdown_spec() -> Seq<PortWord> {
    seq![word(0x604, 0x2000), word(0xB004, 0x2000), word(0x4004, 0x3400), byte(0x600, 0x34)]
}

/// The machine's power controls.
pub struct PowerManager;

impl PowerManager {
    /// Whether the controller's input buffer is empty (status bit 1 clear),
    /// so that it takes a command.
    pub fn controller_ready(status: u8) -> (r: bool)
        ensures
            r == ((status / 2) % 2 == 0),
    {
        assert(status & 2 == 0 <==> (status / 2) % 2 == 0) by (bit_vector);
        status & 2 == 0
    }

    /// The reset request: the reset command to the controller's port.
    pub fn reset_command() -> (r: (u16, u8))
        ensures
            r == (CONTROLLER_PORT, RESET_COMMAND),
    {
        (CONTROLLER_PORT, RESET_COMMAND)
    }

    /// The power-off requests to try, in order.
    pub fn shutdown_sequence() -> (r: Vec<PortWord>)
        ensures
            r@ == shutdown_spec(),
    {
        let mut r: Vec<PortWord> = Vec::new();
        r.push(PortWord { port: 0x604, value: 0x2000, wide: true });
        r.push(PortWord { port: 0xB004, value: 0x2000, wide: true });
        r.push(PortWord { port: 0x4004, value: 0x3400, wide: true });
        r.push(PortWord { port: 0x600, value: 0x34, wide: false });
        assert(r@ =~= shutdown_spec());
        r
    }
}

} // verus!
