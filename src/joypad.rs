//! The joypad: eight buttons read through the matrix-selected P1 register.
use vstd::prelude::*;

verus! {

/// A button of the handheld.
#[derive(Debug, Clone, Copy, PartialEq, Eq, Structural)]
pub enum Button {
    Right,
    Left,
    Up,
    Down,
    A,
    B,
    Select,
    Start,
}

/// The button matrix and the row selection last written to P1.
#[derive(Clone, Copy)]
pub struct Joypad {
    pub right: bool,
    pub left: bool,
    pub up: bool,
    pub down: bool,
    pub a: bool,
    pub b: bool,
    pub select: bool,
    pub start: bool,
    /// Bits 4 and 5 of the last P1 write (0xFF before any write).
    pub selection: u8,
    /// Latched on every key press; the bus turns it into a joypad interrupt.
    pub interrupt_request: bool,
}

/// The low nibble bit that a pressed button pulls down in its row.
pub open spec fn bit_if(pressed: bool, bit: u8) -> u8 {
    if pressed { bit } else { 0 }
}

impl Joypad {
    /// The buttons of the direction row that are down, as P1 bits.
    pub open spec fn direction_bits(self) -> u8 {
        bit_if(self.right, 0x01) | bit_if(self.left, 0x02) | bit_if(self.up, 0x04) | bit_if(self.down, 0x08)
    }

    /// The buttons of the action row that are down, as P1 bits.
    pub open spec fn action_bits(self) -> u8 {
        bit_if(self.a, 0x01) | bit_if(self.b, 0x02) | bit_if(self.select, 0x04) | bit_if(self.start, 0x08)
    }

    /// The value of P1: bits 7..6 set, the selection in bits 5..4, and in
    /// bits 3..0 a zero for each pressed button of a selected row.
    pub open spec fn p1_value(self) -> u8 {
        let dirs = if self.selection & 0x10 == 0 { self.direction_bits() } else { 0 };
        let acts = if self.selection & 0x20 == 0 { self.action_bits() } else { 0 };
        (self.selection | 0xCF) & !(dirs | acts)
    }

    /// Whether `btn` is held down.
    pub open spec fn is_pressed(self, btn: Button) -> bool {
        match btn {
            Button::Right => self.right,
            Button::Left => self.left,
            Button::Up => self.up,
            Button::Down => self.down,
            Button::A => self.a,
            Button::B => self.b,
            Button::Select => self.select,
            Button::Start => self.start,
        }
    }

    /// This joypad with `btn` held down (`v`) or released.
    pub open spec fn with_button(self, btn: Button, v: bool) -> Joypad {
        match btn {
            Button::Right => Joypad { right: v, ..self },
            Button::Left => Joypad { left: v, ..self },
            Button::Up => Joypad { up: v, ..self },
            Button::Down => Joypad { down: v, ..self },
            Button::A => Joypad { a: v, ..self },
            Button::B => Joypad { b: v, ..self },
            Button::Select => Joypad { select: v, ..self },
            Button::Start => Joypad { start: v, ..self },
        }
    }

    /// No button is down, nothing is selected and no request is latched.
    pub open spec fn idle() -> Joypad {
        Joypad {
            right: false,
            left: false,
            up: false,
            down: false,
            a: false,
            b: false,
            select: false,
            start: false,
            selection: 0xFF,
            interrupt_request: false,
        }
    }

    /// The joypad at power-up.
    pub fn new() -> (r: Joypad)
        ensures
            r == Joypad::idle(),
            forall|btn: Button| !r.is_pressed(btn),
    {
        Joypad {
            right: false,
            left: false,
            up: false,
            down: false,
            a: false,
            b: false,
            select: false,
            start: false,
            selection: 0xFF,
            interrupt_request: false,
        }
    }

    /// A key press: the button goes down and a joypad request is latched.
    pub fn key_down(&mut self, btn: Button)
        ensures
            *final(self) == (Joypad { interrupt_request: true, ..old(self).with_button(btn, true) }),
    {
        match btn {
            Button::Right => self.right = true,
            Button::Left => self.left = true,
            Button::Up => self.up = true,
            Button::Down => self.down = true,
            Button::A => self.a = true,
            Button::B => self.b = true,
            Button::Select => self.select = true,
            Button::Start => self.start = true,
        }
        self.interrupt_request = true;
    }

    /// A key release: the button goes up; nothing else changes.
    pub fn key_up(&mut self, btn: Button)
        ensures
            *final(self) == old(self).with_button(btn, false),
    {
        match btn {
            Button::Right => self.right = false,
            Button::Left => self.left = false,
            Button::Up => self.up = false,
            Button::Down => self.down = false,
            Button::A => self.a = false,
            Button::B => self.b = false,
            Button::Select => self.select = false,
            Button::Start => self.start = false,
        }
    }

    /// Reads P1 (0xFF00).
    pub fn read(&self) -> (r: u8)
        ensures
            r == self.p1_value(),
    {
        let dirs: u8 = if (self.selection & 0x10) == 0 {
            (if self.right { 0x01u8 } else { 0 }) | (if self.left { 0x02u8 } else { 0 }) | (if self.up {
                0x04u8
            } else {
                0
            }) | (if self.down { 0x08u8 } else { 0 })
        } else {
            0
        };
        let acts: u8 = if (self.selection & 0x20) == 0 {
            (if self.a { 0x01u8 } else { 0 }) | (if self.b { 0x02u8 } else { 0 }) | (if self.select {
                0x04u8
            } else {
                0
            }) | (if self.start { 0x08u8 } else { 0 })
        } else {
            0
        };
        (self.selection | 0xCF) & !(dirs | acts)
    }

    /// Writes P1: only the two selection bits are kept.
    pub fn write(&mut self, val: u8)
        ensures
            *final(self) == (Joypad { selection: val & 0x30, ..*old(self) }),
    {
        self.selection = val & 0x30;
    }
}

} // verus!
