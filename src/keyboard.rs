//! The keyboard decoder: a state machine that turns raw scancode bytes into
//! key events while it tracks modifiers, locks and the extended prefix.

use vstd::prelude::*;
use crate::scancode::{
    NamedKey, keypad_char, keypad_char_spec, named_key, named_key_spec, typed_char,
    typed_char_spec,
};

verus! {

/// The byte that announces a two-byte extended code.
pub const EXTENDED_PREFIX: u8 = 0xE0;

/// Modifier and lock flags, and whether an extended prefix is pending.
#[derive(Clone, Copy, Debug, PartialEq, Eq, Structural)]
pub struct ModifierState {
    pub shift: bool,
    pub ctrl: bool,
    pub alt: bool,
    pub caps_lock: bool,
    pub num_lock: bool,
    pub scroll_lock: bool,
    pub extended_pending: bool,
}

/// What a key stands for.
#[derive(Clone, Copy, Debug, PartialEq, Eq, Structural)]
pub enum LogicalKey {
    Character(char),
    Named(NamedKey),
}

/// One decoded key press, with the modifier flags in force when it came.
#[derive(Clone, Copy, Debug, PartialEq, Eq, Structural)]
pub struct KeyEvent {
    pub key: LogicalKey,
    pub is_release: bool,
    pub modifiers: ModifierState,
}

/// The keyboard decoder. It owns the modifier state and remembers the LED
/// pattern that the last lock toggle asked for, until it is taken.
pub struct KeyboardState {
    pub modifiers: ModifierState,
    pub led_request: Option<u8>,
}

pub open spec fn no_modifiers() -> ModifierState {
    ModifierState {
        shift: false,
        ctrl: false,
        alt: false,
        caps_lock: false,
        num_lock: false,
        scroll_lock: false,
        extended_pending: false,
    }
}

pub open spec fn is_shift_code(code: u8) -> bool {
    code == 0x2A || code == 0x36
}

pub open spec fn is_ctrl_code(code: u8) -> bool {
    code == 0x1D
}

pub open spec fn is_alt_code(code: u8) -> bool {
    code == 0x38
}

/// Shift, Ctrl and Alt: keys whose flag follows the key's state.
pub open spec fn is_modifier_code(code: u8) -> bool {
    is_shift_code(code) || is_ctrl_code(code) || is_alt_code(code)
}

/// Caps Lock, Num Lock and Scroll Lock: keys whose flag flips on each press.
pub open spec fn is_lock_code(code: u8) -> bool {
    code == 0x3A || code == 0x45 || code == 0x46
}

/// The low seven bits of a scancode: the key, without its release bit.
pub open spec fn key_code(raw: u8) -> u8 {
    (raw % 128) as u8
}

pub open spec fn is_release_code(raw: u8) -> bool {
    raw >= 128
}

/// The LED pattern for the lock flags: Scroll Lock in bit 0, Num Lock in
/// bit 1, Caps Lock in bit 2.
pub open spec fn led_bits(m: ModifierState) -> u8 {
    ((if m.scroll_lock { 1int } else { 0int }) + (if m.num_lock { 2int } else { 0int }) + (
    if m.caps_lock {
        4int
    } else {
        0int
    })) as u8
}

/// What a pressed key resolves to. An extended code selects the navigation
/// block, keypad Enter or keypad slash; Num Lock turns the keypad into digits.
pub open spec fn resolve_spec(code: u8, extended: bool, m: ModifierState) -> Option<LogicalKey> {
    if !extended && m.num_lock && keypad_char_spec(code) is Some {
        Some(LogicalKey::Character(keypad_char_spec(code)->Some_0))
    } else if named_key_spec(code, extended) is Some {
        Some(LogicalKey::Named(named_key_spec(code, extended)->Some_0))
    } else if extended {
        if code == 0x35 {
            Some(LogicalKey::Character('/'))
        } else {
            None
        }
    } else {
        match typed_char_spec(code, m.shift, m.caps_lock) {
            Some(c) => Some(LogicalKey::Character(c)),
            None => None,
        }
    }
}

/// Whether the tables give a key for this code at all.
pub open spec fn has_mapping(code: u8, extended: bool, num_lock: bool) -> bool {
    if !extended && num_lock && keypad_char_spec(code) is Some {
        true
    } else if named_key_spec(code, extended) is Some {
        true
    } else if extended {
        code == 0x35
    } else {
        crate::scancode::char_pair(code) is Some
    }
}

/// One step of the decoder: the new modifier state and the event, if any, for
/// one raw byte.
pub open spec fn step(m: ModifierState, raw: u8) -> (ModifierState, Option<KeyEvent>) {
    if raw == EXTENDED_PREFIX {
        (ModifierState { extended_pending: true, ..m }, None)
    } else {
        let release = is_release_code(raw);
        let code = key_code(raw);
        let m0 = ModifierState { extended_pending: false, ..m };
        if is_shift_code(code) {
            (ModifierState { shift: !release, ..m0 }, None)
        } else if is_ctrl_code(code) {
            (ModifierState { ctrl: !release, ..m0 }, None)
        } else if is_alt_code(code) {
            (ModifierState { alt: !release, ..m0 }, None)
        } else if is_lock_code(code) {
            if release {
                (m0, None)
            } else if code == 0x3A {
                (ModifierState { caps_lock: !m.caps_lock, ..m0 }, None)
            } else if code == 0x45 {
                (ModifierState { num_lock: !m.num_lock, ..m0 }, None)
            } else {
                (ModifierState { scroll_lock: !m.scroll_lock, ..m0 }, None)
            }
        } else if release {
            (m0, None)
        } else {
            match resolve_spec(code, m.extended_pending, m0) {
                Some(k) => (m0, Some(KeyEvent { key: k, is_release: false, modifiers: m0 })),
                None => (m0, None),
            }
        }
    }
}

/// Whether a raw byte is the press of a lock key, which asks for new LEDs.
pub open spec fn toggles_lock(raw: u8) -> bool {
    raw != EXTENDED_PREFIX && !is_release_code(raw) && is_lock_code(key_code(raw))
}

/// Resolves a pressed key under the given modifier state.
pub fn resolve(code: u8, extended: bool, m: ModifierState) -> (r: Option<LogicalKey>)
    ensures
        r == resolve_spec(code, extended, m),
{
    if !extended && m.num_lock {
        if let Some(c) = keypad_char(code) {
            return Some(LogicalKey::Character(c));
        }
    }
    if let Some(k) = named_key(code, extended) {
        Some(LogicalKey::Named(k))
    } else if extended {
        if code == 0x35 {
            Some(LogicalKey::Character('/'))
        } else {
            None
        }
    } else {
        match typed_char(code, m.shift, m.caps_lock) {
            Some(c) => Some(LogicalKey::Character(c)),
            None => None,
        }
    }
}

/// The LED pattern for the lock flags of `m`.
pub fn led_pattern(m: ModifierState) -> (r: u8)
    ensures
        r == led_bits(m),
        r < 8,
{
    let mut bits: u8 = 0;
    if m.scroll_lock {
        bits = bits + 1;
    }
    if m.num_lock {
        bits = bits + 2;
    }
    if m.caps_lock {
        bits = bits + 4;
    }
    bits
}

impl KeyboardState {
    /// A decoder with every flag off and no LED request.
    pub fn new() -> (r: KeyboardState)
        ensures
            r.modifiers == no_modifiers(),
            r.led_request is None,
    {
        KeyboardState {
            modifiers: ModifierState {
                shift: false,
                ctrl: false,
                alt: false,
                caps_lock: false,
                num_lock: false,
                scroll_lock: false,
                extended_pending: false,
            },
            led_request: None,
        }
    }

    /// Consumes one raw scancode byte and returns the key event it completes,
    /// if any. A lock key press also records the new LED pattern.
    pub fn handle_scancode(&mut self, raw: u8) -> (r: Option<KeyEvent>)
        ensures
            final(self).modifiers == step(old(self).modifiers, raw).0,
            r == step(old(self).modifiers, raw).1,
            final(self).led_request == (if toggles_lock(raw) {
                Some(led_bits(final(self).modifiers))
            } else {
                old(self).led_request
            }),
    {
        if raw == EXTENDED_PREFIX {
            self.modifiers.extended_pending = true;
            return None;
        }
        let release = raw & 0x80 != 0;
        let code = raw & 0x7F;
        assert(release == (raw >= 128) && code == (raw % 128) as u8) by (bit_vector)
            requires
                release == (raw & 0x80 != 0),
                code == raw & 0x7F,
        ;
        let extended = self.modifiers.extended_pending;
        self.modifiers.extended_pending = false;
        if code == 0x2A || code == 0x36 {
            self.modifiers.shift = !release;
            None
        } else if code == 0x1D {
            self.modifiers.ctrl = !release;
            None
        } else if code == 0x38 {
            self.modifiers.alt = !release;
            None
        } else if code == 0x3A || code == 0x45 || code == 0x46 {
            if !release {
                if code == 0x3A {
                    self.modifiers.caps_lock = !self.modifiers.caps_lock;
                } else if code == 0x45 {
                    self.modifiers.num_lock = !self.modifiers.num_lock;
                } else {
                    self.modifiers.scroll_lock = !self.modifiers.scroll_lock;
                }
                self.led_request = Some(led_pattern(self.modifiers));
            }
            None
        } else if release {
            None
        } else {
            match resolve(code, extended, self.modifiers) {
                Some(k) => Some(KeyEvent { key: k, is_release: false, modifiers: self.modifiers }),
                None => None,
            }
        }
    }

    /// Hands out the pending LED pattern, if a lock key changed it.
    pub fn take_led_request(&mut self) -> (r: Option<u8>)
        ensures
            r == old(self).led_request,
            final(self).led_request is None,
            final(self).modifiers == old(self).modifiers,
    {
        let r = self.led_request;
        self.led_request = None;
        r
    }
}

/// Slots in the scancode queue; one stays free to tell full from empty.
pub const BUFFER_SIZE: usize = 64;

/// The keyboard as the interrupt handler sees it: a decoder and a ring
/// queue of the raw scancodes received and not yet read.
pub struct Keyboard {
    decoder: KeyboardState,
    buffer: Vec<u8>,
    buffer_start: usize,
    buffer_end: usize,
}

impl Keyboard {
    pub closed spec fn wf(&self) -> bool {
        &&& self.buffer@.len() == BUFFER_SIZE
        &&& self.buffer_start < BUFFER_SIZE
        &&& self.buffer_end < BUFFER_SIZE
    }

    /// The scancodes waiting in the queue, oldest first.
    pub closed spec fn queue(&self) -> Seq<u8> {
        Seq::new(
            ((self.buffer_end + BUFFER_SIZE - self.buffer_start) % (BUFFER_SIZE as int)) as nat,
            |i: int| self.buffer@[(self.buffer_start + i) % (BUFFER_SIZE as int)],
        )
    }

    pub closed spec fn modifiers(&self) -> ModifierState {
        self.decoder.modifiers
    }

    /// The LED pattern that the last lock toggle asked for, until taken.
    pub closed spec fn led_request(&self) -> Option<u8> {
        self.decoder.led_request
    }

    /// No flags set and nothing queued.
    pub fn new() -> (r: Keyboard)
        ensures
            r.wf(),
            r.queue() == Seq::<u8>::empty(),
            r.modifiers() == no_modifiers(),
    {
        let r = Keyboard {
            decoder: KeyboardState::new(),
            buffer: vec![0u8; BUFFER_SIZE],
            buffer_start: 0,
            buffer_end: 0,
        };
        assert(r.queue() =~= Seq::<u8>::empty());
        r
    }

    /// Queues a scancode, or drops it when the queue is full.
    fn add_to_buffer(&mut self, scancode: u8)
        requires
            old(self).wf(),
        ensures
            final(self).wf(),
            final(self).queue() == (if old(self).queue().len() < BUFFER_SIZE - 1 {
                old(self).queue().push(scancode)
            } else {
                old(self).queue()
            }),
            final(self).modifiers() == old(self).modifiers(),
            final(self).led_request() == old(self).led_request(),
    {
        let next_end = (self.buffer_end + 1) % BUFFER_SIZE;
        if next_end != self.buffer_start {
            let ghost q = self.queue();
            self.buffer.set(self.buffer_end, scancode);
            self.buffer_end = next_end;
            assert(self.queue() =~= q.push(scancode));
        }
    }

    /// Takes the oldest queued scancode, if any.
    pub fn get_from_buffer(&mut self) -> (r: Option<u8>)
        requires
            old(self).wf(),
        ensures
            final(self).wf(),
            old(self).queue().len() == 0 ==> r is None && final(self).queue() == old(self).queue(),
            old(self).queue().len() > 0 ==> r == Some(old(self).queue()[0]) && final(self).queue()
                == old(self).queue().drop_first(),
            final(self).modifiers() == old(self).modifiers(),
            final(self).led_request() == old(self).led_request(),
    {
        if self.buffer_start != self.buffer_end {
            let ghost q = self.queue();
            let scancode = self.buffer[self.buffer_start];
            self.buffer_start = (self.buffer_start + 1) % BUFFER_SIZE;
            assert(self.queue() =~= q.drop_first());
            Some(scancode)
        } else {
            None
        }
    }

    /// Receives one scancode from the controller: queues it and runs it
    /// through the decoder, returning the key event it completes.
    pub fn handle_interrupt(&mut self, scancode: u8) -> (r: Option<KeyEvent>)
        requires
            old(self).wf(),
        ensures
            final(self).wf(),
            final(self).queue() == (if old(self).queue().len() < BUFFER_SIZE - 1 {
                old(self).queue().push(scancode)
            } else {
                old(self).queue()
            }),
            final(self).modifiers() == step(old(self).modifiers(), scancode).0,
            r == step(old(self).modifiers(), scancode).1,
            final(self).led_request() == (if toggles_lock(scancode) {
                Some(led_bits(final(self).modifiers()))
            } else {
                old(self).led_request()
            }),
    {
        self.add_to_buffer(scancode);
        self.decoder.handle_scancode(scancode)
    }

    /// The character a main-block key types under the current Shift and
    /// Caps Lock state.
    pub fn scancode_to_char(&self, scancode: u8) -> (r: Option<char>)
        ensures
            r == typed_char_spec(scancode, self.modifiers().shift, self.modifiers().caps_lock),
    {
        typed_char(scancode, self.decoder.modifiers.shift, self.decoder.modifiers.caps_lock)
    }

    /// Hands out the pending LED pattern, if a lock key changed it.
    pub fn take_led_request(&mut self) -> (r: Option<u8>)
        requires
            old(self).wf(),
        ensures
            final(self).wf(),
            final(self).queue() == old(self).queue(),
            final(self).modifiers() == old(self).modifiers(),
            r == old(self).led_request(),
    {
        self.decoder.take_led_request()
    }
}

/// Passes one scancode from the controller to `keyboard`.
pub fn handle_keyboard_interrupt(keyboard: &mut Keyboard, scancode: u8) -> (r: Option<KeyEvent>)
    requires
        old(keyboard).wf(),
    ensures
        final(keyboard).wf(),
        final(keyboard).queue() == (if old(keyboard).queue().len() < BUFFER_SIZE - 1 {
            old(keyboard).queue().push(scancode)
        } else {
            old(keyboard).queue()
        }),
        final(keyboard).modifiers() == step(old(keyboard).modifiers(), scancode).0,
        r == step(old(keyboard).modifiers(), scancode).1,
        final(keyboard).led_request() == (if toggles_lock(scancode) {
            Some(led_bits(final(keyboard).modifiers()))
        } else {
            old(keyboard).led_request()
        }),
{
    keyboard.handle_interrupt(scancode)
}

/// Reads the oldest queued scancode as a character under the current Shift
/// and Caps Lock state; `None` when nothing is queued or the key types none.
pub fn get_char(keyboard: &mut Keyboard) -> (r: Option<char>)
    requires
        old(keyboard).wf(),
    ensures
        final(keyboard).wf(),
        final(keyboard).modifiers() == old(keyboard).modifiers(),
        old(keyboard).queue().len() == 0 ==> r is None && final(keyboard).queue() == old(keyboard).queue(),
        old(keyboard).queue().len() > 0 ==> final(keyboard).queue() == old(keyboard).queue().drop_first() && r == typed_char_spec(
            old(keyboard).queue()[0],
            old(keyboard).modifiers().shift,
            old(keyboard).modifiers().caps_lock,
        ),
{
    match keyboard.get_from_buffer() {
        Some(scancode) => keyboard.scancode_to_char(scancode),
        None => None,
    }
}

/// A pressed key (release bit clear) that is neither a modifier nor a lock
/// yields an event exactly when the tables give a key for its code.
pub proof fn lemma_press_reports_iff_mapped(m: ModifierState, raw: u8)
    requires
        raw < 0x80,
        !is_modifier_code(raw),
        !is_lock_code(raw),
    ensures
        step(m, raw).1 is Some <==> has_mapping(raw, m.extended_pending, m.num_lock),
{
    assert(key_code(raw) == raw);
}

/// A press of Shift, Ctrl or Alt sets its flag; the release of the same key
/// clears it.
pub proof fn lemma_modifier_follows_key(m: ModifierState, code: u8)
    requires
        code < 0x80,
        is_modifier_code(code),
    ensures
        is_shift_code(code) ==> step(m, code).0.shift && !step(m, (code + 0x80) as u8).0.shift,
        is_ctrl_code(code) ==> step(m, code).0.ctrl && !step(m, (code + 0x80) as u8).0.ctrl,
        is_alt_code(code) ==> step(m, code).0.alt && !step(m, (code + 0x80) as u8).0.alt,
{
    assert(key_code(code) == code);
    assert(key_code((code + 0x80) as u8) == code);
}

/// A byte that is not Shift, Ctrl or Alt, pressed or released, leaves those
/// three flags as they were.
pub proof fn lemma_other_keys_keep_modifiers(m: ModifierState, raw: u8)
    requires
        !is_modifier_code(key_code(raw)),
    ensures
        step(m, raw).0.shift == m.shift,
        step(m, raw).0.ctrl == m.ctrl,
        step(m, raw).0.alt == m.alt,
{
}

/// The byte after an extended prefix always consumes it, so after the
/// prefix and any other byte, the next byte is read as an ordinary code.
pub proof fn lemma_prefix_consumed(m: ModifierState, next: u8, third: u8)
    requires
        next != EXTENDED_PREFIX,
    ensures
        step(step(m, EXTENDED_PREFIX).0, next).0.extended_pending == false,
        step(step(step(m, EXTENDED_PREFIX).0, next).0, third) == step(
            ModifierState { extended_pending: false, ..step(step(m, EXTENDED_PREFIX).0, next).0 },
            third,
        ),
{
}

/// The release of a key other than Shift, Ctrl or Alt gives no event and,
/// with no prefix pending, changes nothing, the LED request included.
pub proof fn lemma_release_changes_nothing(m: ModifierState, raw: u8)
    requires
        is_release_code(raw),
        raw != EXTENDED_PREFIX,
        !is_modifier_code(key_code(raw)),
        !m.extended_pending,
    ensures
        step(m, raw) == (m, None::<KeyEvent>),
        !toggles_lock(raw),
{
}

} // verus!
