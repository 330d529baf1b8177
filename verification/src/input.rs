//! Joypad matrix register: eight logical buttons, the CPU-writable column
//! select bits, and the joypad interrupt latch.
//!
//! Bits 4 and 5 of the register choose which button column is exposed on
//! bits 0 to 3; a button that is **not** pressed reads as 1 (active low).
//! A key-down edge raises bit 4 of the interrupt latch.

use vstd::prelude::*;

verus! {

/// One of the eight logical buttons.
#[derive(Clone, Copy, PartialEq, Eq, Structural, Debug)]
pub enum KeyType {
    Right,
    Left,
    Up,
    Down,
    A,
    B,
    Select,
    Start,
}

/// A button together with its current pressed state.
#[derive(Clone, Copy, PartialEq, Eq, Structural, Debug)]
pub struct Key {
    pub key_type: KeyType,
    pub is_down: bool,
}

impl KeyType {
    /// The bit a button occupies inside its 4-bit matrix column.
    pub open spec fn spec_value(self) -> u8 {
        match self {
            KeyType::Right | KeyType::A => 0x01,
            KeyType::Left | KeyType::B => 0x02,
            KeyType::Up | KeyType::Select => 0x04,
            KeyType::Down | KeyType::Start => 0x08,
        }
    }

    pub fn value(&self) -> (r: u8)
        ensures
            r == self.spec_value(),
    {
        match *self {
            KeyType::Right | KeyType::A => 0x01,
            KeyType::Left | KeyType::B => 0x02,
            KeyType::Up | KeyType::Select => 0x04,
            KeyType::Down | KeyType::Start => 0x08,
        }
    }
}

/// The joypad: one [`Key`] per button, the matrix register byte as the CPU
/// last saw it, and the interrupt latch the bus collects.
#[derive(Clone, Copy, PartialEq, Eq, Structural, Debug)]
pub struct Input {
    pub up: Key,
    pub down: Key,
    pub left: Key,
    pub right: Key,
    pub a: Key,
    pub b: Key,
    pub select: Key,
    pub start: Key,
    pub input_reg: u8,
    pub interrupt: u8,
}

impl Input {
    pub fn new() -> (r: Input)
        ensures
            r == Input::spec_new(),
    {
        Input {
            up: Key { key_type: KeyType::Up, is_down: false },
            down: Key { key_type: KeyType::Down, is_down: false },
            left: Key { key_type: KeyType::Left, is_down: false },
            right: Key { key_type: KeyType::Right, is_down: false },
            a: Key { key_type: KeyType::A, is_down: false },
            b: Key { key_type: KeyType::B, is_down: false },
            select: Key { key_type: KeyType::Select, is_down: false },
            start: Key { key_type: KeyType::Start, is_down: false },
            input_reg: 0,
            interrupt: 0,
        }
    }

    /// Joypad at power-on: every button up, register and latch zero.
    pub open spec fn spec_new() -> Input {
        Input {
            up: Key { key_type: KeyType::Up, is_down: false },
            down: Key { key_type: KeyType::Down, is_down: false },
            left: Key { key_type: KeyType::Left, is_down: false },
            right: Key { key_type: KeyType::Right, is_down: false },
            a: Key { key_type: KeyType::A, is_down: false },
            b: Key { key_type: KeyType::B, is_down: false },
            select: Key { key_type: KeyType::Select, is_down: false },
            start: Key { key_type: KeyType::Start, is_down: false },
            input_reg: 0,
            interrupt: 0,
        }
    }

    /// The register byte the matrix exposes: the two select bits, plus, for
    /// each selected column, a 1 bit for every button of the column that is
    /// not pressed.
    pub open spec fn spec_reg(self) -> u8 {
        let base = self.input_reg & 0x30;
        let with_dir = if base & 0x10 == 0 {
            base
                | (if self.right.is_down { 0u8 } else { 0x01u8 })
                | (if self.left.is_down { 0u8 } else { 0x02u8 })
                | (if self.up.is_down { 0u8 } else { 0x04u8 })
                | (if self.down.is_down { 0u8 } else { 0x08u8 })
        } else {
            base
        };
        if base & 0x20 == 0 {
            with_dir
                | (if self.a.is_down { 0u8 } else { 0x01u8 })
                | (if self.b.is_down { 0u8 } else { 0x02u8 })
                | (if self.select.is_down { 0u8 } else { 0x04u8 })
                | (if self.start.is_down { 0u8 } else { 0x08u8 })
        } else {
            with_dir
        }
    }

    /// Recompute the exposed register byte from the select bits and the
    /// current button states.
    fn update_input_reg(&mut self)
        ensures
            *final(self) == (Input { input_reg: old(self).spec_reg(), ..*old(self) }),
    {
        let base = self.input_reg & 0x30;
        let mut reg = base;
        if base & 0x10 == 0 {
            reg = reg
                | (if self.right.is_down { 0u8 } else { 0x01u8 })
                | (if self.left.is_down { 0u8 } else { 0x02u8 })
                | (if self.up.is_down { 0u8 } else { 0x04u8 })
                | (if self.down.is_down { 0u8 } else { 0x08u8 });
        }
        if base & 0x20 == 0 {
            reg = reg
                | (if self.a.is_down { 0u8 } else { 0x01u8 })
                | (if self.b.is_down { 0u8 } else { 0x02u8 })
                | (if self.select.is_down { 0u8 } else { 0x04u8 })
                | (if self.start.is_down { 0u8 } else { 0x08u8 });
        }
        self.input_reg = reg;
    }

    /// The byte a CPU read of the joypad register returns.
    pub fn read(&self) -> (r: u8)
        ensures
            r == self.input_reg,
    {
        self.input_reg
    }

    /// The joypad after a CPU write: only bits 4 and 5 are writable, and
    /// the exposed byte is recomputed at once.
    pub open spec fn spec_write(self, value: u8) -> Input {
        let mid = Input { input_reg: value, ..self };
        Input { input_reg: mid.spec_reg(), ..mid }
    }

    pub fn write(&mut self, value: u8)
        ensures
            *final(self) == old(self).spec_write(value),
    {
        self.input_reg = value;
        self.update_input_reg();
    }

    /// The stored state of the button a key event names.
    pub open spec fn spec_button(self, t: KeyType) -> Key {
        match t {
            KeyType::Up => self.up,
            KeyType::Down => self.down,
            KeyType::Left => self.left,
            KeyType::Right => self.right,
            KeyType::A => self.a,
            KeyType::B => self.b,
            KeyType::Select => self.select,
            KeyType::Start => self.start,
        }
    }

    /// The joypad with the named button replaced.
    pub open spec fn spec_with_button(self, t: KeyType, k: Key) -> Input {
        match t {
            KeyType::Up => Input { up: k, ..self },
            KeyType::Down => Input { down: k, ..self },
            KeyType::Left => Input { left: k, ..self },
            KeyType::Right => Input { right: k, ..self },
            KeyType::A => Input { a: k, ..self },
            KeyType::B => Input { b: k, ..self },
            KeyType::Select => Input { select: k, ..self },
            KeyType::Start => Input { start: k, ..self },
        }
    }

    /// The joypad after a host key event: if the button's state changes the
    /// new state is stored and the exposed byte recomputed, and a key-down
    /// edge raises bit 4 of the interrupt latch; a repeated state changes
    /// nothing.
    pub open spec fn spec_key_event(self, key: Key) -> Input {
        if self.spec_button(key.key_type).is_down == key.is_down {
            self
        } else {
            let moved = self.spec_with_button(
                key.key_type,
                Key { key_type: key.key_type, is_down: key.is_down },
            );
            let latched = if key.is_down {
                Input { interrupt: moved.interrupt | 0x10, ..moved }
            } else {
                moved
            };
            Input { input_reg: latched.spec_reg(), ..latched }
        }
    }

    /// Apply one key event from the host.
    #[verifier::rlimit(50)]
    pub fn key_event(&mut self, key: Key)
        ensures
            *final(self) == old(self).spec_key_event(key),
    {
        let changed = match key.key_type {
            KeyType::Up => self.up.is_down != key.is_down,
            KeyType::Down => self.down.is_down != key.is_down,
            KeyType::Left => self.left.is_down != key.is_down,
            KeyType::Right => self.right.is_down != key.is_down,
            KeyType::A => self.a.is_down != key.is_down,
            KeyType::B => self.b.is_down != key.is_down,
            KeyType::Select => self.select.is_down != key.is_down,
            KeyType::Start => self.start.is_down != key.is_down,
        };
        if changed {
            let stored = Key { key_type: key.key_type, is_down: key.is_down };
            match key.key_type {
                KeyType::Up => self.up = stored,
                KeyType::Down => self.down = stored,
                KeyType::Left => self.left = stored,
                KeyType::Right => self.right = stored,
                KeyType::A => self.a = stored,
                KeyType::B => self.b = stored,
                KeyType::Select => self.select = stored,
                KeyType::Start => self.start = stored,
            }
            if key.is_down {
                self.interrupt |= 0x10;
            }
            self.update_input_reg();
        }
    }
}

} // verus!
