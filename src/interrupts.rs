//! The interrupt controllers: the port writes that remap and mask the two
//! 8259 PICs, and those that acknowledge an interrupt.

use vstd::prelude::*;

verus! {

pub const PIC1_CMD: u16 = 0x20;
pub const PIC1_DATA: u16 = 0x21;
pub const PIC2_CMD: u16 = 0xA0;
pub const PIC2_DATA: u16 = 0xA1;

/// The first vector of the secondary controller after remapping.
pub const PIC2_OFFSET: u8 = 0x28;

/// The vector of the keyboard interrupt (IRQ 1) after remapping.
pub const KEYBOARD_INTERRUPT_ID: u8 = 33;

/// The end-of-interrupt command byte.
pub const EOI: u8 = 0x20;

/// One byte to write to an I/O port.
#[derive(Clone, Copy, Debug, PartialEq, Eq, Structural)]
pub struct PortWrite {
    pub port: u16,
    pub value: u8,
}

pub open spec fn pw(port: u16, value: u8) -> PortWrite {
    PortWrite { port, value }
}

/// The initialisation words in order: start both controllers, move their
/// vectors to 0x20 and 0x28, wire the secondary to IRQ 2, select 8086 mode,
/// then mask every line but the keyboard's.
pub open spec fn pic_init_spec() -> Seq<PortWrite> {
    seq![
        pw(PIC1_CMD, 0x11),
        pw(PIC2_CMD, 0x11),
        pw(PIC1_DATA, 0x20),
        pw(PIC2_DATA, 0x28),
        pw(PIC1_DATA, 0x04),
        pw(PIC2_DATA, 0x02),
        pw(PIC1_DATA, 0x01),
        pw(PIC2_DATA, 0x01),
        pw(PIC1_DATA, 0xFD),
        pw(PIC2_DATA, 0xFF),
    ]
}

/// The acknowledgement of interrupt `interrupt_id`: the secondary
/// controller too when the vector is one of its own.
pub open spec fn eoi_spec(interrupt_id: u8) -> Seq<PortWrite> {
    if interrupt_id >= PIC2_OFFSET {
        seq![pw(PIC2_CMD, EOI), pw(PIC1_CMD, EOI)]
    } else {
        seq![pw(PIC1_CMD, EOI)]
    }
}

/// The port writes that initialise both controllers.
pub fn pic_init_sequence() -> (r: Vec<PortWrite>)
    ensures
        r@ == pic_init_spec(),
{
    let mut r: Vec<PortWrite> = Vec::new();
    r.push(PortWrite { port: PIC1_CMD, value: 0x11 });
    r.push(PortWrite { port: PIC2_CMD, value: 0x11 });
    r.push(PortWrite { port: PIC1_DATA, value: 0x20 });
    r.push(PortWrite { port: PIC2_DATA, value: 0x28 });
    r.push(PortWrite { port: PIC1_DATA, value: 0x04 });
    r.push(PortWrite { port: PIC2_DATA, value: 0x02 });
    r.push(PortWrite { port: PIC1_DATA, value: 0x01 });
    r.push(PortWrite { port: PIC2_DATA, value: 0x01 });
    r.push(PortWrite { port: PIC1_DATA, value: 0xFD });
    r.push(PortWrite { port: PIC2_DATA, value: 0xFF });
    assert(r@ =~= pic_init_spec());
    r
}

/// The port writes that acknowledge interrupt `interrupt_id`.
pub fn send_eoi(interrupt_id: u8) -> (r: Vec<PortWrite>)
    ensures
        r@ == eoi_spec(interrupt_id),
{
    let mut r: Vec<PortWrite> = Vec::new();
    if interrupt_id >= PIC2_OFFSET {
        r.push(PortWrite { port: PIC2_CMD, value: EOI });
    }
    r.push(PortWrite { port: PIC1_CMD, value: EOI });
    assert(r@ =~= eoi_spec(interrupt_id));
    r
}

} // verus!
