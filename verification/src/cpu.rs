//! The CPU interpreter: fetch, decode, execute, the flag-exact ALU, the
//! stack, control transfer, the delayed interrupt-enable staging and the
//! interrupt dispatcher.
//!
//! One call to [`CPU::run`] either dispatches an interrupt, executes one
//! decoded instruction, or idles for one M-cycle while halted; it then
//! advances the bus by the M-cycles consumed and returns them.

use vstd::prelude::*;
use crate::instructions::ArithmeticTarget;
use crate::instructions::Instruction;
use crate::instructions::JumpCondition;
use crate::instructions::JumpTest;
use crate::instructions::LoadByteSource;
use crate::instructions::LoadByteTarget;
use crate::instructions::LoadType;
use crate::instructions::LoadWordSource;
use crate::instructions::LoadWordTarget;
use crate::instructions::RstTarget;
use crate::instructions::StackTarget;
use crate::instructions::spec_decode;
use crate::memory::MemoryBus;
use crate::registers::Flags;
use crate::registers::Registers;
use crate::registers::spec_pair;

verus! {

/// A decode failure: the byte at `pc` has no entry in its table. The
/// interpreter stops making progress and the host reports it, because it
/// is a bug or a corrupt ROM, not a runtime condition.
#[derive(Clone, Copy, PartialEq, Eq, Structural, Debug)]
pub struct Fault {
    pub pc: u16,
    pub opcode: u8,
    pub prefixed: bool,
}

pub struct CPU {
    pub registers: Registers,
    pub pc: u16,
    pub bus: MemoryBus,
    pub sp: u16,
    pub interrupt_master_enable: bool,
    pub halt: bool,
    pub ei: u8,
    pub di: u8,
    pub cycle: u8,
    pub fault: Option<Fault>,
}

/// 16-bit wrap-around addition of a possibly negative offset.
pub open spec fn spec_wadd16(a: u16, d: int) -> u16 {
    (((a + d) % 0x10000) as u16)
}

/// 8-bit wrap-around of an integer.
pub open spec fn spec_w8(v: int) -> u8 {
    ((v % 256) as u8)
}

/// Flags after an 8-bit addition `a + v + c` (`c` is the carry-in, 0 or
/// 1): `Z` from the truncated sum, `N` clear, `H` from the low-nibble
/// carry, `C` from the 8-bit carry.
pub open spec fn spec_add_flags(a: u8, v: u8, c: u8) -> Flags {
    Flags {
        zero: (a + v + c) % 256 == 0,
        subtract: false,
        half_carry: (a & 0xF) + (v & 0xF) + c > 0xF,
        carry: a + v + c > 255,
    }
}

/// Flags after an 8-bit subtraction `a - v - c` (`c` is the borrow-in, 0
/// or 1): `Z` from the truncated difference, `N` set, `H` from the
/// low-nibble borrow, `C` from the 8-bit borrow.
pub open spec fn spec_sub_flags(a: u8, v: u8, c: u8) -> Flags {
    Flags {
        zero: spec_w8(a - v - c) == 0,
        subtract: true,
        half_carry: (a & 0xF) < (v & 0xF) + c,
        carry: a < v + c,
    }
}

/// The 8-bit register and memory operands: everything an ALU instruction
/// can read a byte from.
pub open spec fn spec_is_src8(t: ArithmeticTarget) -> bool {
    t is A || t is B || t is C || t is D || t is E || t is H || t is L || t is AddressHL
        || t is D8
}

/// The 8-bit operands that can also be written back: the registers and
/// the byte at `HL`.
pub open spec fn spec_is_dst8(t: ArithmeticTarget) -> bool {
    t is A || t is B || t is C || t is D || t is E || t is H || t is L || t is AddressHL
}

impl CPU {
    pub open spec fn wf(self) -> bool {
        self.bus.wf()
    }

    /// The byte an 8-bit operand denotes: a register, the byte at `HL`,
    /// or the immediate following the opcode.
    pub open spec fn spec_src8(self, t: ArithmeticTarget) -> u8 {
        match t {
            ArithmeticTarget::A => self.registers.a,
            ArithmeticTarget::B => self.registers.b,
            ArithmeticTarget::C => self.registers.c,
            ArithmeticTarget::D => self.registers.d,
            ArithmeticTarget::E => self.registers.e,
            ArithmeticTarget::H => self.registers.h,
            ArithmeticTarget::L => self.registers.l,
            ArithmeticTarget::AddressHL => self.bus.spec_read_byte(self.registers.spec_hl()),
            _ => self.bus.spec_read_byte(spec_wadd16(self.pc, 1)),
        }
    }

    /// The instruction length an 8-bit ALU operand implies: two bytes for
    /// the immediate form, one otherwise.
    pub open spec fn spec_src8_next_pc(self, t: ArithmeticTarget) -> u16 {
        if t is D8 {
            spec_wadd16(self.pc, 2)
        } else {
            spec_wadd16(self.pc, 1)
        }
    }

    /// Read the byte an 8-bit operand denotes.
    fn src8(&mut self, target: ArithmeticTarget) -> (r: u8)
        requires
            old(self).wf(),
            spec_is_src8(target),
        ensures
            *final(self) == *old(self),
            r == old(self).spec_src8(target),
    {
        match target {
            ArithmeticTarget::A => self.registers.a,
            ArithmeticTarget::B => self.registers.b,
            ArithmeticTarget::C => self.registers.c,
            ArithmeticTarget::D => self.registers.d,
            ArithmeticTarget::E => self.registers.e,
            ArithmeticTarget::H => self.registers.h,
            ArithmeticTarget::L => self.registers.l,
            ArithmeticTarget::AddressHL => {
                let hl = self.registers.get_hl();
                self.bus.read_byte(hl)
            },
            _ => self.read_next_byte(),
        }
    }

    /// Read the byte after the opcode, without moving `PC`.
    pub fn read_next_byte(&mut self) -> (r: u8)
        requires
            old(self).wf(),
        ensures
            *final(self) == *old(self),
            r == old(self).bus.spec_read_byte(spec_wadd16(old(self).pc, 1)),
    {
        self.bus.read_byte(self.pc.wrapping_add(1))
    }

    /// The 16-bit immediate after the opcode: little-endian, wrapping at
    /// the top of the address space.
    pub open spec fn spec_next_word(self) -> u16 {
        spec_pair(
            self.bus.spec_read_byte(spec_wadd16(self.pc, 2)),
            self.bus.spec_read_byte(spec_wadd16(self.pc, 1)),
        )
    }

    /// Read the 16-bit immediate after the opcode, without moving `PC`.
    pub fn read_next_word(&mut self) -> (r: u16)
        requires
            old(self).wf(),
        ensures
            *final(self) == *old(self),
            r == old(self).spec_next_word(),
    {
        let lo = self.bus.read_byte(self.pc.wrapping_add(1));
        let hi = self.bus.read_byte(self.pc.wrapping_add(2));
        (hi as u16) << 8 | lo as u16
    }

    /// Add a byte to `A` and set the flags; the caller stores the sum.
    pub fn add(&mut self, value: u8) -> (r: u8)
        ensures
            r == spec_w8(old(self).registers.a + value),
            *final(self) == (CPU {
                registers: Registers {
                    f: spec_add_flags(old(self).registers.a, value, 0),
                    ..old(self).registers
                },
                ..*old(self)
            }),
    {
        proof {
            crate::gpu::lemma_u8_mask_bounds(self.registers.a);
            crate::gpu::lemma_u8_mask_bounds(value);
        }
        let sum: u16 = self.registers.a as u16 + value as u16;
        let new_value: u8 = (sum % 256) as u8;
        self.registers.f.zero = new_value == 0;
        self.registers.f.subtract = false;
        self.registers.f.carry = sum > 255;
        self.registers.f.half_carry = (self.registers.a & 0xF) + (value & 0xF) > 0xF;
        new_value
    }

    /// `ADD A, src`: `A` becomes the flag-setting sum.
    pub fn execute_add(&mut self, target: ArithmeticTarget) -> (r: u16)
        requires
            old(self).wf(),
            spec_is_src8(target),
        ensures
            r == old(self).spec_src8_next_pc(target),
            *final(self) == (CPU {
                registers: Registers {
                    a: spec_w8(old(self).registers.a + old(self).spec_src8(target)),
                    f: spec_add_flags(old(self).registers.a, old(self).spec_src8(target), 0),
                    ..old(self).registers
                },
                ..*old(self)
            }),
    {
        let value = self.src8(target);
        let new_value = self.add(value);
        self.registers.a = new_value;
        match target {
            ArithmeticTarget::D8 => self.pc.wrapping_add(2),
            _ => self.pc.wrapping_add(1),
        }
    }

    /// `ADC A, src`: add with the carry flag as a third summand.
    pub fn execute_adc(&mut self, target: ArithmeticTarget) -> (r: u16)
        requires
            old(self).wf(),
            spec_is_src8(target),
        ensures
            r == old(self).spec_src8_next_pc(target),
            ({
                let v = old(self).spec_src8(target);
                let c: u8 = if old(self).registers.f.carry { 1 } else { 0 };
                *final(self) == (CPU {
                    registers: Registers {
                        a: spec_w8(old(self).registers.a + v + c),
                        f: spec_add_flags(old(self).registers.a, v, c),
                        ..old(self).registers
                    },
                    ..*old(self)
                })
            }),
    {
        let value = self.src8(target);
        proof {
            crate::gpu::lemma_u8_mask_bounds(self.registers.a);
            crate::gpu::lemma_u8_mask_bounds(value);
        }
        let carry: u8 = if self.registers.f.carry { 1 } else { 0 };
        let sum: u16 = self.registers.a as u16 + value as u16 + carry as u16;
        let new_value_with_carry: u8 = (sum % 256) as u8;

        self.registers.f.zero = new_value_with_carry == 0;
        self.registers.f.subtract = false;
        self.registers.f.carry = sum > 255;
        self.registers.f.half_carry = (self.registers.a & 0x0F) + (value & 0x0F) + carry > 0x0F;

        self.registers.a = new_value_with_carry;

        match target {
            ArithmeticTarget::D8 => self.pc.wrapping_add(2),
            _ => self.pc.wrapping_add(1),
        }
    }

    /// `SUB src`: `A` becomes the flag-setting difference.
    pub fn execute_sub(&mut self, target: ArithmeticTarget) -> (r: u16)
        requires
            old(self).wf(),
            spec_is_src8(target),
        ensures
            r == old(self).spec_src8_next_pc(target),
            ({
                let v = old(self).spec_src8(target);
                *final(self) == (CPU {
                    registers: Registers {
                        a: spec_w8(old(self).registers.a - v),
                        f: spec_sub_flags(old(self).registers.a, v, 0),
                        ..old(self).registers
                    },
                    ..*old(self)
                })
            }),
    {
        let value = self.src8(target);
        proof {
            crate::gpu::lemma_u8_mask_bounds(self.registers.a);
            crate::gpu::lemma_u8_mask_bounds(value);
        }
        let new_value: u8 = self.registers.a.wrapping_sub(value);

        self.registers.f.zero = new_value == 0;
        self.registers.f.subtract = true;
        self.registers.f.carry = self.registers.a < value;
        self.registers.f.half_carry = (self.registers.a & 0x0F) < (value & 0x0F);

        self.registers.a = new_value;

        match target {
            ArithmeticTarget::D8 => self.pc.wrapping_add(2),
            _ => self.pc.wrapping_add(1),
        }
    }

    /// `SBC A, src`: subtract with the carry flag as an extra borrow.
    pub fn execute_sbc(&mut self, target: ArithmeticTarget) -> (r: u16)
        requires
            old(self).wf(),
            spec_is_src8(target),
        ensures
            r == old(self).spec_src8_next_pc(target),
            ({
                let v = old(self).spec_src8(target);
                let c: u8 = if old(self).registers.f.carry { 1 } else { 0 };
                *final(self) == (CPU {
                    registers: Registers {
                        a: spec_w8(old(self).registers.a - v - c),
                        f: spec_sub_flags(old(self).registers.a, v, c),
                        ..old(self).registers
                    },
                    ..*old(self)
                })
            }),
    {
        let value = self.src8(target);
        proof {
            crate::gpu::lemma_u8_mask_bounds(self.registers.a);
            crate::gpu::lemma_u8_mask_bounds(value);
        }
        let carry_bit: u8 = if self.registers.f.carry { 1 } else { 0 };
        let with_carry: u8 = self.registers.a.wrapping_sub(value).wrapping_sub(carry_bit);

        self.registers.f.half_carry = (self.registers.a & 0x0F) < (value & 0x0F) + carry_bit;
        self.registers.f.zero = with_carry == 0;
        self.registers.f.subtract = true;
        self.registers.f.carry = (self.registers.a as u16) < value as u16 + carry_bit as u16;

        self.registers.a = with_carry;
        match target {
            ArithmeticTarget::D8 => self.pc.wrapping_add(2),
            _ => self.pc.wrapping_add(1),
        }
    }

    /// `AND src`: `Z` from the result, `N` and `C` clear, `H` set.
    pub fn execute_and(&mut self, target: ArithmeticTarget) -> (r: u16)
        requires
            old(self).wf(),
            spec_is_src8(target),
        ensures
            r == old(self).spec_src8_next_pc(target),
            ({
                let v = old(self).spec_src8(target);
                *final(self) == (CPU {
                    registers: Registers {
                        a: (old(self).registers.a & v) as u8,
                        f: Flags {
                            zero: old(self).registers.a & v == 0,
                            subtract: false,
                            half_carry: true,
                            carry: false,
                        },
                        ..old(self).registers
                    },
                    ..*old(self)
                })
            }),
    {
        let value = self.src8(target);
        let result = self.registers.a & value;
        self.registers.a = result;
        self.registers.f.zero = result == 0;
        self.registers.f.subtract = false;
        self.registers.f.half_carry = true;
        self.registers.f.carry = false;
        match target {
            ArithmeticTarget::D8 => self.pc.wrapping_add(2),
            _ => self.pc.wrapping_add(1),
        }
    }

    /// `OR src`: `Z` from the result, `N`, `H` and `C` clear.
    pub fn execute_or(&mut self, target: ArithmeticTarget) -> (r: u16)
        requires
            old(self).wf(),
            spec_is_src8(target),
        ensures
            r == old(self).spec_src8_next_pc(target),
            ({
                let v = old(self).spec_src8(target);
                *final(self) == (CPU {
                    registers: Registers {
                        a: (old(self).registers.a | v) as u8,
                        f: Flags {
                            zero: old(self).registers.a | v == 0,
                            subtract: false,
                            half_carry: false,
                            carry: false,
                        },
                        ..old(self).registers
                    },
                    ..*old(self)
                })
            }),
    {
        let value = self.src8(target);
        let result = self.registers.a | value;
        self.registers.a = result;
        self.registers.f.zero = result == 0;
        self.registers.f.subtract = false;
        self.registers.f.half_carry = false;
        self.registers.f.carry = false;
        match target {
            ArithmeticTarget::D8 => self.pc.wrapping_add(2),
            _ => self.pc.wrapping_add(1),
        }
    }

    /// `XOR src`: `Z` from the result, `N`, `H` and `C` clear.
    pub fn execute_xor(&mut self, target: ArithmeticTarget) -> (r: u16)
        requires
            old(self).wf(),
            spec_is_src8(target),
        ensures
            r == old(self).spec_src8_next_pc(target),
            ({
                let v = old(self).spec_src8(target);
                *final(self) == (CPU {
                    registers: Registers {
                        a: (old(self).registers.a ^ v) as u8,
                        f: Flags {
                            zero: old(self).registers.a ^ v == 0,
                            subtract: false,
                            half_carry: false,
                            carry: false,
                        },
                        ..old(self).registers
                    },
                    ..*old(self)
                })
            }),
    {
        let value = self.src8(target);
        let result = self.registers.a ^ value;
        self.registers.a = result;
        self.registers.f.zero = result == 0;
        self.registers.f.subtract = false;
        self.registers.f.half_carry = false;
        self.registers.f.carry = false;
        match target {
            ArithmeticTarget::D8 => self.pc.wrapping_add(2),
            _ => self.pc.wrapping_add(1),
        }
    }

    /// `CP src`: compare by subtraction, discarding the difference; only
    /// the flags change, with `Z` set exactly when `A` equals the operand.
    pub fn execute_cp(&mut self, target: ArithmeticTarget) -> (r: u16)
        requires
            old(self).wf(),
            spec_is_src8(target),
        ensures
            r == old(self).spec_src8_next_pc(target),
            ({
                let v = old(self).spec_src8(target);
                *final(self) == (CPU {
                    registers: Registers {
                        f: spec_sub_flags(old(self).registers.a, v, 0),
                        ..old(self).registers
                    },
                    ..*old(self)
                })
            }),
    {
        let value = self.src8(target);
        proof {
            crate::gpu::lemma_u8_mask_bounds(self.registers.a);
            crate::gpu::lemma_u8_mask_bounds(value);
        }
        let res: u8 = self.registers.a.wrapping_sub(value);
        self.registers.f.zero = res == 0;
        self.registers.f.subtract = true;
        self.registers.f.half_carry = (self.registers.a & 0x0F) < (value & 0x0F);
        self.registers.f.carry = self.registers.a < value;
        match target {
            ArithmeticTarget::D8 => self.pc.wrapping_add(2),
            _ => self.pc.wrapping_add(1),
        }
    }

    /// `CCF`: toggle the carry; clear `N` and `H`.
    pub fn execute_ccf(&mut self)
        ensures
            *final(self) == (CPU {
                registers: Registers {
                    f: Flags {
                        zero: old(self).registers.f.zero,
                        subtract: false,
                        half_carry: false,
                        carry: !old(self).registers.f.carry,
                    },
                    ..old(self).registers
                },
                ..*old(self)
            }),
    {
        self.registers.f.carry = !self.registers.f.carry;
        self.registers.f.subtract = false;
        self.registers.f.half_carry = false;
    }

    /// `SCF`: set the carry; clear `N` and `H`.
    pub fn execute_scf(&mut self)
        ensures
            *final(self) == (CPU {
                registers: Registers {
                    f: Flags {
                        zero: old(self).registers.f.zero,
                        subtract: false,
                        half_carry: false,
                        carry: true,
                    },
                    ..old(self).registers
                },
                ..*old(self)
            }),
    {
        self.registers.f.carry = true;
        self.registers.f.subtract = false;
        self.registers.f.half_carry = false;
    }

    /// `CPL`: complement `A`; set `N` and `H`.
    pub fn execute_cpl(&mut self)
        ensures
            *final(self) == (CPU {
                registers: Registers {
                    a: !old(self).registers.a,
                    f: Flags {
                        zero: old(self).registers.f.zero,
                        subtract: true,
                        half_carry: true,
                        carry: old(self).registers.f.carry,
                    },
                    ..old(self).registers
                },
                ..*old(self)
            }),
    {
        self.registers.a = !self.registers.a;
        self.registers.f.subtract = true;
        self.registers.f.half_carry = true;
    }
    /// `RRA`: rotate `A` right through the carry; `Z`, `N`, `H` clear.
    pub fn execute_rra(&mut self)
        ensures
            *final(self) == (CPU {
                registers: Registers {
                    a: ((old(self).registers.a >> 1)
                        | (if old(self).registers.f.carry { 0x80u8 } else { 0u8 })) as u8,
                    f: Flags {
                        zero: false,
                        subtract: false,
                        half_carry: false,
                        carry: old(self).registers.a & 0x01 != 0,
                    },
                    ..old(self).registers
                },
                ..*old(self)
            }),
    {
        let carry_flag = self.registers.f.carry;
        let bit0 = self.registers.a & 0x01;
        self.registers.a = (self.registers.a >> 1) | (if carry_flag { 0x80 } else { 0 });
        self.registers.f.zero = false;
        self.registers.f.subtract = false;
        self.registers.f.half_carry = false;
        self.registers.f.carry = bit0 != 0;
    }

    /// `RLA`: rotate `A` left through the carry; `Z`, `N`, `H` clear.
    pub fn execute_rla(&mut self)
        ensures
            *final(self) == (CPU {
                registers: Registers {
                    a: ((old(self).registers.a << 1)
                        | (if old(self).registers.f.carry { 1u8 } else { 0u8 })) as u8,
                    f: Flags {
                        zero: false,
                        subtract: false,
                        half_carry: false,
                        carry: old(self).registers.a & 0x80 != 0,
                    },
                    ..old(self).registers
                },
                ..*old(self)
            }),
    {
        let carry_flag = self.registers.f.carry;
        let bit7 = self.registers.a & 0x80 != 0;
        self.registers.a = (self.registers.a << 1) | (if carry_flag { 1 } else { 0 });
        self.registers.f.zero = false;
        self.registers.f.subtract = false;
        self.registers.f.half_carry = false;
        self.registers.f.carry = bit7;
    }

    /// `RRCA`: rotate `A` right circularly; the bit rotated out lands in
    /// the carry and in bit 7; `Z`, `N`, `H` clear.
    pub fn execute_rrca(&mut self)
        ensures
            *final(self) == (CPU {
                registers: Registers {
                    a: ((old(self).registers.a >> 1)
                        | (if old(self).registers.a & 0x01 != 0 { 0x80u8 } else { 0u8 })) as u8,
                    f: Flags {
                        zero: false,
                        subtract: false,
                        half_carry: false,
                        carry: old(self).registers.a & 0x01 != 0,
                    },
                    ..old(self).registers
                },
                ..*old(self)
            }),
    {
        let bit0 = self.registers.a & 0x01 != 0;
        self.registers.a = (self.registers.a >> 1) | (if bit0 { 0x80 } else { 0 });
        self.registers.f.carry = bit0;
        self.registers.f.zero = false;
        self.registers.f.subtract = false;
        self.registers.f.half_carry = false;
    }

    /// `RLCA`: rotate `A` left circularly; the bit rotated out lands in
    /// the carry and in bit 0; `Z`, `N`, `H` clear.
    pub fn execute_rlca(&mut self)
        ensures
            *final(self) == (CPU {
                registers: Registers {
                    a: ((old(self).registers.a << 1)
                        | (if old(self).registers.a & 0x80 != 0 { 1u8 } else { 0u8 })) as u8,
                    f: Flags {
                        zero: false,
                        subtract: false,
                        half_carry: false,
                        carry: old(self).registers.a & 0x80 != 0,
                    },
                    ..old(self).registers
                },
                ..*old(self)
            }),
    {
        let bit7 = self.registers.a & 0x80 != 0;
        self.registers.a = (self.registers.a << 1) | (if bit7 { 1 } else { 0 });
        self.registers.f.carry = bit7;
        self.registers.f.zero = false;
        self.registers.f.subtract = false;
        self.registers.f.half_carry = false;
    }

    /// `DAA`: decimal-adjust `A` after a BCD addition or subtraction,
    /// driven by `N`, `H` and `C`; `Z` comes from the adjusted `A`, `H`
    /// is cleared, and `C` is set when the add-mode high correction
    /// applies.
    #[verifier::spinoff_prover]
    pub fn daa(&mut self)
        ensures
            *final(self) == (CPU {
                registers: Registers {
                    a: spec_daa(old(self).registers.a, old(self).registers.f).0,
                    f: spec_daa(old(self).registers.a, old(self).registers.f).1,
                    ..old(self).registers
                },
                ..*old(self)
            }),
    {
        let a = self.registers.a;
        if !self.registers.f.subtract {
            let high = self.registers.f.carry || a > 0x99;
            let a1 = if high { a.wrapping_add(0x60) } else { a };
            let a2 = if self.registers.f.half_carry || a & 0x0F > 0x09 {
                a1.wrapping_add(0x06)
            } else {
                a1
            };
            self.registers.a = a2;
            self.registers.f.carry = self.registers.f.carry || high;
            self.registers.f.zero = a2 == 0;
            self.registers.f.half_carry = false;
        } else {
            let a1 = if self.registers.f.carry { a.wrapping_sub(0x60) } else { a };
            let a2 = if self.registers.f.half_carry { a1.wrapping_sub(0x06) } else { a1 };
            self.registers.a = a2;
            self.registers.f.zero = a2 == 0;
            self.registers.f.half_carry = false;
        }
    }

    /// The 16-bit pair an `ADD HL` operand denotes.
    pub open spec fn spec_word_src(self, t: ArithmeticTarget) -> u16 {
        match t {
            ArithmeticTarget::BC => self.registers.spec_bc(),
            ArithmeticTarget::DE => self.registers.spec_de(),
            ArithmeticTarget::HL => self.registers.spec_hl(),
            _ => self.sp,
        }
    }

    /// `ADD HL, rr`: 16-bit add into `HL`; `Z` untouched, `N` clear, `H`
    /// and `C` from the 12-bit and 16-bit carries.
    pub fn execute_add_hl(&mut self, target: ArithmeticTarget) -> (r: u16)
        requires
            old(self).wf(),
            target is BC || target is DE || target is HL || target is SP,
        ensures
            r == spec_wadd16(old(self).pc, 1),
            ({
                let hl = old(self).registers.spec_hl();
                let v = old(self).spec_word_src(target);
                *final(self) == (CPU {
                    registers: Registers {
                        f: Flags {
                            zero: old(self).registers.f.zero,
                            subtract: false,
                            half_carry: (hl & 0xFFF) + (v & 0xFFF) > 0xFFF,
                            carry: hl + v > 0xFFFF,
                        },
                        ..old(self).registers
                    }.spec_set_hl(spec_wadd16(hl, v as int)),
                    ..*old(self)
                })
            }),
    {
        let value = match target {
            ArithmeticTarget::BC => self.registers.get_bc(),
            ArithmeticTarget::DE => self.registers.get_de(),
            ArithmeticTarget::HL => self.registers.get_hl(),
            _ => self.sp,
        };
        let hl = self.registers.get_hl();
        proof {
            lemma_u16_mask_bounds(hl);
            lemma_u16_mask_bounds(value);
        }
        let sum: u32 = hl as u32 + value as u32;
        self.registers.f.subtract = false;
        self.registers.f.carry = sum > 0xFFFF;
        self.registers.f.half_carry = (hl & 0xFFF) + (value & 0xFFF) > 0xFFF;
        self.registers.set_hl((sum % 0x10000) as u16);
        self.pc.wrapping_add(1)
    }

    /// `ADD SP, i8`: sign-extend the immediate into `SP`; `Z` and `N`
    /// clear; `H` and `C` come from the low byte of the unsigned sum.
    pub fn execute_addsp(&mut self) -> (r: u16)
        requires
            old(self).wf(),
        ensures
            r == spec_wadd16(old(self).pc, 2),
            ({
                let imm = old(self).bus.spec_read_byte(spec_wadd16(old(self).pc, 1));
                let sp = old(self).sp;
                *final(self) == (CPU {
                    registers: Registers {
                        f: Flags {
                            zero: false,
                            subtract: false,
                            half_carry: (sp & 0xF) + (imm & 0xF) > 0xF,
                            carry: (sp & 0xFF) + imm > 0xFF,
                        },
                        ..old(self).registers
                    },
                    sp: spec_wadd16(sp, imm as i8 as int),
                    ..*old(self)
                })
            }),
    {
        let imm = self.read_next_byte();
        let sp = self.sp;
        proof {
            lemma_u16_mask_bounds(sp);
            crate::gpu::lemma_u8_mask_bounds(imm);
        }
        self.registers.f.zero = false;
        self.registers.f.subtract = false;
        self.registers.f.half_carry = (sp & 0xF) + (imm as u16 & 0xF) > 0xF;
        self.registers.f.carry = (sp & 0xFF) + imm as u16 > 0xFF;
        self.sp = wadd_signed(sp, imm);
        proof {
            assert(sp & 0xF == (sp & 0xFF) & 0xF && (imm as u16) & 0xF == (imm & 0xF) as u16)
                by (bit_vector);
        }
        self.pc.wrapping_add(2)
    }

    /// Whether `post` is `pre` with the operand `t` holding `v` and the
    /// flags replaced by `f`: a register takes the byte directly, and the
    /// `HL` form writes it through the bus.
    pub open spec fn spec_rmw_rel(pre: CPU, post: CPU, t: ArithmeticTarget, v: u8, f: Flags) -> bool {
        match t {
            ArithmeticTarget::A => post == (CPU {
                registers: Registers { a: v, f, ..pre.registers },
                ..pre
            }),
            ArithmeticTarget::B => post == (CPU {
                registers: Registers { b: v, f, ..pre.registers },
                ..pre
            }),
            ArithmeticTarget::C => post == (CPU {
                registers: Registers { c: v, f, ..pre.registers },
                ..pre
            }),
            ArithmeticTarget::D => post == (CPU {
                registers: Registers { d: v, f, ..pre.registers },
                ..pre
            }),
            ArithmeticTarget::E => post == (CPU {
                registers: Registers { e: v, f, ..pre.registers },
                ..pre
            }),
            ArithmeticTarget::H => post == (CPU {
                registers: Registers { h: v, f, ..pre.registers },
                ..pre
            }),
            ArithmeticTarget::L => post == (CPU {
                registers: Registers { l: v, f, ..pre.registers },
                ..pre
            }),
            ArithmeticTarget::AddressHL => {
                &&& post == (CPU {
                    registers: Registers { f, ..pre.registers },
                    bus: post.bus,
                    ..pre
                })
                &&& MemoryBus::spec_write_rel(pre.bus, post.bus, pre.registers.spec_hl(), v)
            },
            _ => false,
        }
    }

    /// Store a byte back into an 8-bit operand.
    fn store8(&mut self, target: ArithmeticTarget, v: u8)
        requires
            old(self).wf(),
            spec_is_dst8(target),
        ensures
            final(self).wf(),
            CPU::spec_rmw_rel(*old(self), *final(self), target, v, old(self).registers.f),
    {
        match target {
            ArithmeticTarget::A => self.registers.a = v,
            ArithmeticTarget::B => self.registers.b = v,
            ArithmeticTarget::C => self.registers.c = v,
            ArithmeticTarget::D => self.registers.d = v,
            ArithmeticTarget::E => self.registers.e = v,
            ArithmeticTarget::H => self.registers.h = v,
            ArithmeticTarget::L => self.registers.l = v,
            _ => {
                let hl = self.registers.get_hl();
                self.bus.write_byte(hl, v);
            },
        }
    }

    /// `INC src` (8-bit): increment with wrap; `Z` and `H` from the new
    /// value, `N` clear, `C` untouched.
    pub fn execute_inc(&mut self, target: ArithmeticTarget)
        requires
            old(self).wf(),
            spec_is_dst8(target),
        ensures
            final(self).wf(),
            ({
                let nv = spec_w8(old(self).spec_src8(target) + 1);
                CPU::spec_rmw_rel(*old(self), *final(self), target, nv, Flags {
                    zero: nv == 0,
                    subtract: false,
                    half_carry: nv & 0x0F == 0,
                    carry: old(self).registers.f.carry,
                })
            }),
    {
        let value = self.src8(target);
        let new_value = value.wrapping_add(1);
        self.store8(target, new_value);
        self.registers.f.zero = new_value == 0;
        self.registers.f.subtract = false;
        self.registers.f.half_carry = new_value & 0x0F == 0;
    }

    /// `DEC src` (8-bit): decrement with wrap; `Z` and `H` from the new
    /// value, `N` set, `C` untouched.
    pub fn execute_dec(&mut self, target: ArithmeticTarget)
        requires
            old(self).wf(),
            spec_is_dst8(target),
        ensures
            final(self).wf(),
            ({
                let nv = spec_w8(old(self).spec_src8(target) - 1);
                CPU::spec_rmw_rel(*old(self), *final(self), target, nv, Flags {
                    zero: nv == 0,
                    subtract: true,
                    half_carry: nv & 0x0F == 0x0F,
                    carry: old(self).registers.f.carry,
                })
            }),
    {
        let value = self.src8(target);
        let new_value = value.wrapping_sub(1);
        self.store8(target, new_value);
        self.registers.f.zero = new_value == 0;
        self.registers.f.subtract = true;
        self.registers.f.half_carry = new_value & 0x0F == 0x0F;
    }

    /// `BIT n, src`: `Z` is set exactly when bit `n` of the operand is
    /// clear; `N` clear, `H` set, `C` untouched.
    pub fn execute_bit(&mut self, target: ArithmeticTarget, bit_num: u8) -> (r: u16)
        requires
            old(self).wf(),
            spec_is_dst8(target),
            bit_num < 8,
        ensures
            r == spec_wadd16(old(self).pc, 2),
            *final(self) == (CPU {
                registers: Registers {
                    f: Flags {
                        zero: old(self).spec_src8(target) & (1u8 << bit_num) == 0,
                        subtract: false,
                        half_carry: true,
                        carry: old(self).registers.f.carry,
                    },
                    ..old(self).registers
                },
                ..*old(self)
            }),
    {
        let value = self.src8(target);
        let mask = 1u8 << bit_num;
        let bit_set = (value & mask) != 0;
        self.registers.f.zero = !bit_set;
        self.registers.f.subtract = false;
        self.registers.f.half_carry = true;
        self.pc.wrapping_add(2)
    }

    /// `RES n, src`: clear bit `n` of the operand; no flag effects.
    pub fn execute_reset(&mut self, target: ArithmeticTarget, bit_num: u8)
        requires
            old(self).wf(),
            spec_is_dst8(target),
            bit_num < 8,
        ensures
            final(self).wf(),
            CPU::spec_rmw_rel(
                *old(self),
                *final(self),
                target,
                (old(self).spec_src8(target) & !(1u8 << bit_num)) as u8,
                old(self).registers.f,
            ),
    {
        let value = self.src8(target);
        let new_value = value & !(1u8 << bit_num);
        self.store8(target, new_value);
    }

    /// `SET n, src`: set bit `n` of the operand; no flag effects.
    pub fn execute_set(&mut self, target: ArithmeticTarget, bit_num: u8)
        requires
            old(self).wf(),
            spec_is_dst8(target),
            bit_num < 8,
        ensures
            final(self).wf(),
            CPU::spec_rmw_rel(
                *old(self),
                *final(self),
                target,
                (old(self).spec_src8(target) | (1u8 << bit_num)) as u8,
                old(self).registers.f,
            ),
    {
        let value = self.src8(target);
        let new_value = value | (1u8 << bit_num);
        self.store8(target, new_value);
    }
}

impl CPU {
    /// `SRL src`: logical shift right; the bit shifted out becomes `C`,
    /// `Z` from the result, `N` and `H` clear.
    pub fn execute_srl(&mut self, target: ArithmeticTarget)
        requires
            old(self).wf(),
            spec_is_dst8(target),
        ensures
            final(self).wf(),
            ({
                let v = old(self).spec_src8(target);
                CPU::spec_rmw_rel(*old(self), *final(self), target, (v >> 1) as u8, Flags {
                    zero: v >> 1 == 0,
                    subtract: false,
                    half_carry: false,
                    carry: v & 0x01 != 0,
                })
            }),
    {
        let value = self.src8(target);
        let carry = value & 0x01 != 0;
        let new_value = value >> 1;
        self.store8(target, new_value);
        self.registers.f.zero = new_value == 0;
        self.registers.f.subtract = false;
        self.registers.f.half_carry = false;
        self.registers.f.carry = carry;
    }

    /// `RR src`: rotate right through the carry; `Z` from the result.
    pub fn execute_rr(&mut self, target: ArithmeticTarget)
        requires
            old(self).wf(),
            spec_is_dst8(target),
        ensures
            final(self).wf(),
            ({
                let v = old(self).spec_src8(target);
                let nv = ((v >> 1) | (if old(self).registers.f.carry { 0x80u8 } else { 0u8 })) as u8;
                CPU::spec_rmw_rel(*old(self), *final(self), target, nv, Flags {
                    zero: nv == 0,
                    subtract: false,
                    half_carry: false,
                    carry: v & 0x01 != 0,
                })
            }),
    {
        let value = self.src8(target);
        let carry = value & 0x01 != 0;
        let new_value = (value >> 1) | (if self.registers.f.carry { 0x80 } else { 0 });
        self.store8(target, new_value);
        self.registers.f.zero = new_value == 0;
        self.registers.f.subtract = false;
        self.registers.f.half_carry = false;
        self.registers.f.carry = carry;
    }

    /// `RL src`: rotate left through the carry; `Z` from the result.
    pub fn execute_rl(&mut self, target: ArithmeticTarget)
        requires
            old(self).wf(),
            spec_is_dst8(target),
        ensures
            final(self).wf(),
            ({
                let v = old(self).spec_src8(target);
                let nv = ((v << 1) | (if old(self).registers.f.carry { 1u8 } else { 0u8 })) as u8;
                CPU::spec_rmw_rel(*old(self), *final(self), target, nv, Flags {
                    zero: nv == 0,
                    subtract: false,
                    half_carry: false,
                    carry: v & 0x80 != 0,
                })
            }),
    {
        let value = self.src8(target);
        let carry = value & 0x80 != 0;
        let new_value = (value << 1) | (if self.registers.f.carry { 1 } else { 0 });
        self.store8(target, new_value);
        self.registers.f.zero = new_value == 0;
        self.registers.f.subtract = false;
        self.registers.f.half_carry = false;
        self.registers.f.carry = carry;
    }

    /// `RRC src`: rotate right circularly; `Z` from the result.
    pub fn execute_rrc(&mut self, target: ArithmeticTarget)
        requires
            old(self).wf(),
            spec_is_dst8(target),
        ensures
            final(self).wf(),
            ({
                let v = old(self).spec_src8(target);
                let nv = ((v >> 1) | (if v & 0x01 != 0 { 0x80u8 } else { 0u8 })) as u8;
                CPU::spec_rmw_rel(*old(self), *final(self), target, nv, Flags {
                    zero: nv == 0,
                    subtract: false,
                    half_carry: false,
                    carry: v & 0x01 != 0,
                })
            }),
    {
        let value = self.src8(target);
        let carry = value & 0x01 != 0;
        let new_value = (value >> 1) | (if carry { 0x80 } else { 0 });
        self.store8(target, new_value);
        self.registers.f.zero = new_value == 0;
        self.registers.f.subtract = false;
        self.registers.f.half_carry = false;
        self.registers.f.carry = carry;
    }

    /// `RLC src`: rotate left circularly; `Z` from the result.
    pub fn execute_rlc(&mut self, target: ArithmeticTarget)
        requires
            old(self).wf(),
            spec_is_dst8(target),
        ensures
            final(self).wf(),
            ({
                let v = old(self).spec_src8(target);
                let nv = ((v << 1) | (if v & 0x80 != 0 { 1u8 } else { 0u8 })) as u8;
                CPU::spec_rmw_rel(*old(self), *final(self), target, nv, Flags {
                    zero: nv == 0,
                    subtract: false,
                    half_carry: false,
                    carry: v & 0x80 != 0,
                })
            }),
    {
        let value = self.src8(target);
        let carry = value & 0x80 != 0;
        let new_value = (value << 1) | (if carry { 1 } else { 0 });
        self.store8(target, new_value);
        self.registers.f.zero = new_value == 0;
        self.registers.f.subtract = false;
        self.registers.f.half_carry = false;
        self.registers.f.carry = carry;
    }

    /// `SRA src`: arithmetic shift right, keeping the sign bit; `Z` from
    /// the result.
    pub fn execute_sra(&mut self, target: ArithmeticTarget)
        requires
            old(self).wf(),
            spec_is_dst8(target),
        ensures
            final(self).wf(),
            ({
                let v = old(self).spec_src8(target);
                let nv = ((v >> 1) | (v & 0x80)) as u8;
                CPU::spec_rmw_rel(*old(self), *final(self), target, nv, Flags {
                    zero: nv == 0,
                    subtract: false,
                    half_carry: false,
                    carry: v & 0x01 != 0,
                })
            }),
    {
        let value = self.src8(target);
        let carry = value & 0x01 != 0;
        let msb = value & 0x80;
        let new_value = (value >> 1) | msb;
        self.store8(target, new_value);
        self.registers.f.zero = new_value == 0;
        self.registers.f.subtract = false;
        self.registers.f.half_carry = false;
        self.registers.f.carry = carry;
    }

    /// `SLA src`: arithmetic shift left; `Z` from the result.
    pub fn execute_sla(&mut self, target: ArithmeticTarget)
        requires
            old(self).wf(),
            spec_is_dst8(target),
        ensures
            final(self).wf(),
            ({
                let v = old(self).spec_src8(target);
                CPU::spec_rmw_rel(*old(self), *final(self), target, (v << 1) as u8, Flags {
                    zero: v << 1 == 0,
                    subtract: false,
                    half_carry: false,
                    carry: v & 0x80 != 0,
                })
            }),
    {
        let value = self.src8(target);
        let carry = value & 0x80 != 0;
        let new_value = value << 1;
        self.store8(target, new_value);
        self.registers.f.zero = new_value == 0;
        self.registers.f.subtract = false;
        self.registers.f.half_carry = false;
        self.registers.f.carry = carry;
    }

    /// `SWAP src`: exchange the nibbles; `Z` from the result, the other
    /// flags clear.
    pub fn execute_swap(&mut self, target: ArithmeticTarget)
        requires
            old(self).wf(),
            spec_is_dst8(target),
        ensures
            final(self).wf(),
            ({
                let v = old(self).spec_src8(target);
                let nv = (((v & 0x0F) << 4) | ((v & 0xF0) >> 4)) as u8;
                CPU::spec_rmw_rel(*old(self), *final(self), target, nv, Flags {
                    zero: nv == 0,
                    subtract: false,
                    half_carry: false,
                    carry: false,
                })
            }),
    {
        let value = self.src8(target);
        let new_value = ((value & 0x0F) << 4) | ((value & 0xF0) >> 4);
        self.store8(target, new_value);
        self.registers.f.zero = new_value == 0;
        self.registers.f.subtract = false;
        self.registers.f.half_carry = false;
        self.registers.f.carry = false;
    }

    /// `PUSH`: decrement `SP` twice, storing the high byte first.
    pub fn push(&mut self, value: u16)
        requires
            old(self).wf(),
        ensures
            final(self).wf(),
            *final(self) == (CPU {
                sp: spec_wadd16(old(self).sp, -2),
                bus: final(self).bus,
                ..*old(self)
            }),
            exists|mid: MemoryBus|
                #[trigger] MemoryBus::spec_write_rel(
                    old(self).bus,
                    mid,
                    spec_wadd16(old(self).sp, -1),
                    (value >> 8) as u8,
                ) && MemoryBus::spec_write_rel(
                    mid,
                    final(self).bus,
                    spec_wadd16(old(self).sp, -2),
                    (value & 0xFF) as u8,
                ),
    {
        proof {
            assert(((value & 0xFF00) >> 8) as u8 == (value >> 8) as u8) by (bit_vector);
        }
        self.sp = self.sp.wrapping_sub(1);
        self.bus.write_byte(self.sp, ((value & 0xFF00) >> 8) as u8);
        let ghost mid = self.bus;
        self.sp = self.sp.wrapping_sub(1);
        self.bus.write_byte(self.sp, (value & 0xFF) as u8);
        proof {
            assert(MemoryBus::spec_write_rel(
                old(self).bus,
                mid,
                spec_wadd16(old(self).sp, -1),
                (value >> 8) as u8,
            ));
        }
    }

    /// The word `POP` returns: little-endian from the stack.
    pub open spec fn spec_stack_top(self) -> u16 {
        spec_pair(
            self.bus.spec_read_byte(spec_wadd16(self.sp, 1)),
            self.bus.spec_read_byte(self.sp),
        )
    }

    /// `POP`: read little-endian from the stack and increment `SP` twice.
    pub fn pop(&mut self) -> (r: u16)
        requires
            old(self).wf(),
        ensures
            final(self).wf(),
            r == old(self).spec_stack_top(),
            *final(self) == (CPU { sp: spec_wadd16(old(self).sp, 2), ..*old(self) }),
    {
        let lsb = self.bus.read_byte(self.sp) as u16;
        self.sp = self.sp.wrapping_add(1);
        let msb = self.bus.read_byte(self.sp) as u16;
        self.sp = self.sp.wrapping_add(1);
        (msb << 8) | lsb
    }

    /// `JP`: to the 16-bit immediate when the condition holds (one extra
    /// M-cycle), past the instruction otherwise; the `HL` form jumps to
    /// `HL` unconditionally.
    pub fn jump(&mut self, should_jump: bool, ju: JumpCondition) -> (r: u16)
        requires
            old(self).wf(),
            old(self).cycle <= 120,
        ensures
            final(self).wf(),
            ju is AddressHL ==> r == old(self).registers.spec_hl() && *final(self) == *old(self),
            ju is Address16 && should_jump ==> r == old(self).spec_next_word()
                && *final(self) == (CPU { cycle: (old(self).cycle + 1) as u8, ..*old(self) }),
            ju is Address16 && !should_jump ==> r == spec_wadd16(old(self).pc, 3)
                && *final(self) == *old(self),
    {
        match ju {
            JumpCondition::Address16 => {
                if should_jump {
                    let least_significant_byte = self.bus.read_byte(self.pc.wrapping_add(1)) as u16;
                    let most_significant_byte = self.bus.read_byte(self.pc.wrapping_add(2)) as u16;
                    self.cycle += 1;
                    (most_significant_byte << 8) | least_significant_byte
                } else {
                    self.pc.wrapping_add(3)
                }
            },
            JumpCondition::AddressHL => self.registers.get_hl(),
        }
    }

    /// `CALL`: when taken, push the return address and jump to the
    /// immediate, at three extra M-cycles; otherwise fall through.
    pub fn call(&mut self, should_jump: bool) -> (r: u16)
        requires
            old(self).wf(),
            old(self).cycle <= 120,
        ensures
            final(self).wf(),
            !should_jump ==> r == spec_wadd16(old(self).pc, 3) && *final(self) == *old(self),
            should_jump ==> {
                &&& r == old(self).spec_next_word()
                &&& *final(self) == (CPU {
                    sp: spec_wadd16(old(self).sp, -2),
                    cycle: (old(self).cycle + 3) as u8,
                    bus: final(self).bus,
                    ..*old(self)
                })
                &&& exists|mid: MemoryBus|
                    #[trigger] MemoryBus::spec_write_rel(
                        old(self).bus,
                        mid,
                        spec_wadd16(old(self).sp, -1),
                        (spec_wadd16(old(self).pc, 3) >> 8) as u8,
                    ) && MemoryBus::spec_write_rel(
                        mid,
                        final(self).bus,
                        spec_wadd16(old(self).sp, -2),
                        (spec_wadd16(old(self).pc, 3) & 0xFF) as u8,
                    )
            },
    {
        let next_pc = self.pc.wrapping_add(3);
        proof {
            lemma_u16_mask_bounds(next_pc);
            assert(next_pc == spec_wadd16(old(self).pc, 3));
            assert((next_pc >> 8) as u8 == (spec_wadd16(old(self).pc, 3) >> 8) as u8);
            assert((next_pc & 0xFF) as u8 == (spec_wadd16(old(self).pc, 3) & 0xFF) as u8);
        }
        if should_jump {
            let target = self.read_next_word();
            self.push(next_pc);
            self.cycle += 3;
            target
        } else {
            next_pc
        }
    }

    /// `JR`: when taken, `PC` moves past the two instruction bytes and
    /// then by the signed displacement, at one extra M-cycle; otherwise
    /// just past the instruction.
    pub fn jump_relative(&mut self, condition: bool)
        requires
            old(self).wf(),
            old(self).cycle <= 120,
        ensures
            final(self).wf(),
            !condition ==> *final(self) == (CPU { pc: spec_wadd16(old(self).pc, 2), ..*old(self) }),
            condition ==> *final(self) == (CPU {
                pc: spec_wadd16(
                    old(self).pc,
                    2 + (old(self).bus.spec_read_byte(spec_wadd16(old(self).pc, 1)) as i8 as int),
                ),
                cycle: (old(self).cycle + 1) as u8,
                ..*old(self)
            }),
    {
        if condition {
            self.cycle += 1;
            let r8 = self.read_next_byte();
            self.pc = wadd_signed(self.pc.wrapping_add(2), r8);
        } else {
            self.pc = self.pc.wrapping_add(2);
        }
    }

    /// `JP (HL)`: copy `HL` into `PC`.
    pub fn jump_indirect(&mut self)
        ensures
            *final(self) == (CPU { pc: old(self).registers.spec_hl(), ..*old(self) }),
    {
        let address = self.registers.get_hl();
        self.pc = address;
    }

    /// `RET`: when taken, pop the return address, at three extra
    /// M-cycles; otherwise fall through.
    pub fn return_(&mut self, should_jump: bool) -> (r: u16)
        requires
            old(self).wf(),
            old(self).cycle <= 120,
        ensures
            final(self).wf(),
            !should_jump ==> r == spec_wadd16(old(self).pc, 1) && *final(self) == *old(self),
            should_jump ==> r == old(self).spec_stack_top() && *final(self) == (CPU {
                sp: spec_wadd16(old(self).sp, 2),
                cycle: (old(self).cycle + 3) as u8,
                ..*old(self)
            }),
    {
        if should_jump {
            self.cycle += 3;
            self.pop()
        } else {
            self.pc.wrapping_add(1)
        }
    }

    /// Whether a branch condition holds of the current flags.
    pub open spec fn spec_condition(self, test: JumpTest) -> bool {
        match test {
            JumpTest::NotZero => !self.registers.f.zero,
            JumpTest::NotCarry => !self.registers.f.carry,
            JumpTest::Zero => self.registers.f.zero,
            JumpTest::Carry => self.registers.f.carry,
            JumpTest::Always => true,
        }
    }

    /// Evaluate a branch condition against the flags.
    fn condition(&self, test: JumpTest) -> (r: bool)
        ensures
            r == self.spec_condition(test),
    {
        match test {
            JumpTest::NotZero => !self.registers.f.zero,
            JumpTest::NotCarry => !self.registers.f.carry,
            JumpTest::Zero => self.registers.f.zero,
            JumpTest::Carry => self.registers.f.carry,
            JumpTest::Always => true,
        }
    }
}

/// The operand shapes the decoder can produce for each instruction form;
/// the interpreter is specified (and verified) exactly for these.
pub open spec fn spec_instr_wf(i: Instruction) -> bool {
    match i {
        Instruction::Add(t) | Instruction::Adc(t) | Instruction::Sub(t) | Instruction::Sbc(t)
            | Instruction::And(t) | Instruction::Or(t) | Instruction::Xor(t)
            | Instruction::Cp(t) => spec_is_src8(t),
        Instruction::Inc(t) | Instruction::Dec(t) => spec_is_dst8(t) || t is BC || t is DE
            || t is HL || t is SP,
        Instruction::Addhl(t) => t is BC || t is DE || t is HL || t is SP,
        Instruction::Bit(t, n) | Instruction::Reset(t, n) | Instruction::SetBit(t, n) =>
            spec_is_dst8(t) && n < 8,
        Instruction::Srl(t) | Instruction::Rr(t) | Instruction::Rl(t) | Instruction::Rrc(t)
            | Instruction::Rlc(t) | Instruction::Sra(t) | Instruction::Sla(t)
            | Instruction::Swap(t) => spec_is_dst8(t),
        Instruction::Ld(LoadType::Byte(t, s)) => !(t is Address8) && !(s is Address8),
        Instruction::Ld(LoadType::Word(t, s)) => {
            ||| s is D16 && (t is BC || t is DE || t is HL || t is SP)
            ||| s is SP && t is Address16
            ||| s is HL && t is SP
            ||| s is SPR8 && t is HL
        },
        Instruction::Ldh(LoadType::Byte(t, s)) => (t is Address8 && s is A) || (t is A
            && s is Address8),
        Instruction::Ldh(LoadType::Word(_, _)) => false,
        Instruction::PrefixCB => false,
        _ => true,
    }
}

/// The fixed vector a restart instruction jumps to.
pub open spec fn spec_rst_vector(t: RstTarget) -> u16 {
    match t {
        RstTarget::Rst00H => 0x00,
        RstTarget::Rst08H => 0x08,
        RstTarget::Rst10H => 0x10,
        RstTarget::Rst18H => 0x18,
        RstTarget::Rst20H => 0x20,
        RstTarget::Rst28H => 0x28,
        RstTarget::Rst30H => 0x30,
        RstTarget::Rst38H => 0x38,
    }
}

impl CPU {
    /// The 16-bit pair a stack instruction moves.
    pub open spec fn spec_stack_value(self, t: StackTarget) -> u16 {
        match t {
            StackTarget::AF => self.registers.spec_af(),
            StackTarget::BC => self.registers.spec_bc(),
            StackTarget::DE => self.registers.spec_de(),
            StackTarget::HL => self.registers.spec_hl(),
        }
    }

    /// The byte a load source denotes, read in the pre-state.
    pub open spec fn spec_ld_src_val(self, s: LoadByteSource) -> u8 {
        match s {
            LoadByteSource::A => self.registers.a,
            LoadByteSource::B => self.registers.b,
            LoadByteSource::C => self.registers.c,
            LoadByteSource::D => self.registers.d,
            LoadByteSource::E => self.registers.e,
            LoadByteSource::H => self.registers.h,
            LoadByteSource::L => self.registers.l,
            LoadByteSource::AddressHL => self.bus.spec_read_byte(self.registers.spec_hl()),
            LoadByteSource::AddressBC => self.bus.spec_read_byte(self.registers.spec_bc()),
            LoadByteSource::AddressDE => self.bus.spec_read_byte(self.registers.spec_de()),
            LoadByteSource::AddressHLP => self.bus.spec_read_byte(self.registers.spec_hl()),
            LoadByteSource::AddressHLM => self.bus.spec_read_byte(self.registers.spec_hl()),
            LoadByteSource::AddressC => self.bus.spec_read_byte(
                (0xFF00u16 | self.registers.c as u16) as u16,
            ),
            LoadByteSource::D8 => self.bus.spec_read_byte(spec_wadd16(self.pc, 1)),
            LoadByteSource::Address16 => self.bus.spec_read_byte(self.spec_next_word()),
            LoadByteSource::Address8 => 0,
        }
    }

    /// The CPU after evaluating a load source: the `HL+` and `HL-` forms
    /// post-modify `HL`; everything else reads without side effects.
    pub open spec fn spec_ld_src_mid(self, s: LoadByteSource) -> CPU {
        match s {
            LoadByteSource::AddressHLP => CPU {
                registers: self.registers.spec_set_hl(
                    spec_wadd16(self.registers.spec_hl(), 1),
                ),
                ..self
            },
            LoadByteSource::AddressHLM => CPU {
                registers: self.registers.spec_set_hl(
                    spec_wadd16(self.registers.spec_hl(), -1),
                ),
                ..self
            },
            _ => self,
        }
    }

    /// The length in bytes of a byte-load instruction: an immediate adds
    /// one, an absolute address two.
    pub open spec fn spec_ld_len(t: LoadByteTarget, s: LoadByteSource) -> int {
        if s is D8 {
            2
        } else if s is Address16 || t is Address16 {
            3
        } else {
            1
        }
    }

    /// Whether `post` and `r` are the outcome of a byte load: the source
    /// byte (read in the pre-state) lands in the target register or is
    /// written at the target address, the `HL+`/`HL-` forms post-modify
    /// `HL`, and `r` steps `PC` over the instruction.
    pub open spec fn spec_ld_byte_rel(
        pre: CPU,
        post: CPU,
        t: LoadByteTarget,
        s: LoadByteSource,
        r: u16,
    ) -> bool {
        let v = pre.spec_ld_src_val(s);
        let mid = pre.spec_ld_src_mid(s);
        &&& r == spec_wadd16(pre.pc, CPU::spec_ld_len(t, s))
        &&& match t {
            LoadByteTarget::A => post == (CPU {
                registers: Registers { a: v, ..mid.registers },
                ..mid
            }),
            LoadByteTarget::B => post == (CPU {
                registers: Registers { b: v, ..mid.registers },
                ..mid
            }),
            LoadByteTarget::C => post == (CPU {
                registers: Registers { c: v, ..mid.registers },
                ..mid
            }),
            LoadByteTarget::D => post == (CPU {
                registers: Registers { d: v, ..mid.registers },
                ..mid
            }),
            LoadByteTarget::E => post == (CPU {
                registers: Registers { e: v, ..mid.registers },
                ..mid
            }),
            LoadByteTarget::H => post == (CPU {
                registers: Registers { h: v, ..mid.registers },
                ..mid
            }),
            LoadByteTarget::L => post == (CPU {
                registers: Registers { l: v, ..mid.registers },
                ..mid
            }),
            LoadByteTarget::AddressHL => {
                &&& post == (CPU { bus: post.bus, ..mid })
                &&& MemoryBus::spec_write_rel(mid.bus, post.bus, mid.registers.spec_hl(), v)
            },
            LoadByteTarget::AddressBC => {
                &&& post == (CPU { bus: post.bus, ..mid })
                &&& MemoryBus::spec_write_rel(mid.bus, post.bus, mid.registers.spec_bc(), v)
            },
            LoadByteTarget::AddressDE => {
                &&& post == (CPU { bus: post.bus, ..mid })
                &&& MemoryBus::spec_write_rel(mid.bus, post.bus, mid.registers.spec_de(), v)
            },
            LoadByteTarget::AddressHLP => {
                &&& post == (CPU {
                    registers: mid.registers.spec_set_hl(
                        spec_wadd16(mid.registers.spec_hl(), 1),
                    ),
                    bus: post.bus,
                    ..mid
                })
                &&& MemoryBus::spec_write_rel(mid.bus, post.bus, mid.registers.spec_hl(), v)
            },
            LoadByteTarget::AddressHLM => {
                &&& post == (CPU {
                    registers: mid.registers.spec_set_hl(
                        spec_wadd16(mid.registers.spec_hl(), -1),
                    ),
                    bus: post.bus,
                    ..mid
                })
                &&& MemoryBus::spec_write_rel(mid.bus, post.bus, mid.registers.spec_hl(), v)
            },
            LoadByteTarget::AddressC => {
                &&& post == (CPU { bus: post.bus, ..mid })
                &&& MemoryBus::spec_write_rel(
                    mid.bus,
                    post.bus,
                    (0xFF00u16 | mid.registers.c as u16) as u16,
                    v,
                )
            },
            LoadByteTarget::Address16 => {
                &&& post == (CPU { bus: post.bus, ..mid })
                &&& MemoryBus::spec_write_rel(mid.bus, post.bus, mid.spec_next_word(), v)
            },
            LoadByteTarget::Address8 => false,
        }
    }

    /// Whether `post` and `r` are the outcome of a word load: the
    /// immediate forms fill a pair or `SP`, `LD (a16), SP` stores `SP`
    /// little-endian, `LD SP, HL` copies the pair, and `LD HL, SP+i8`
    /// adds the signed immediate with the quirky low-byte flags.
    pub open spec fn spec_ld_word_rel(
        pre: CPU,
        post: CPU,
        t: LoadWordTarget,
        s: LoadWordSource,
        r: u16,
    ) -> bool {
        match (s, t) {
            (LoadWordSource::D16, LoadWordTarget::BC) => post == (CPU {
                registers: pre.registers.spec_set_bc(pre.spec_next_word()),
                ..pre
            }) && r == spec_wadd16(pre.pc, 3),
            (LoadWordSource::D16, LoadWordTarget::DE) => post == (CPU {
                registers: pre.registers.spec_set_de(pre.spec_next_word()),
                ..pre
            }) && r == spec_wadd16(pre.pc, 3),
            (LoadWordSource::D16, LoadWordTarget::HL) => post == (CPU {
                registers: pre.registers.spec_set_hl(pre.spec_next_word()),
                ..pre
            }) && r == spec_wadd16(pre.pc, 3),
            (LoadWordSource::D16, LoadWordTarget::SP) => post == (CPU {
                sp: pre.spec_next_word(),
                ..pre
            }) && r == spec_wadd16(pre.pc, 3),
            (LoadWordSource::SP, LoadWordTarget::Address16) => {
                let a = pre.spec_next_word();
                &&& post == (CPU { bus: post.bus, ..pre })
                &&& exists|mid: MemoryBus|
                    #[trigger] MemoryBus::spec_write_rel(pre.bus, mid, a, (pre.sp & 0xFF) as u8)
                        && MemoryBus::spec_write_rel(
                        mid,
                        post.bus,
                        spec_wadd16(a, 1),
                        (pre.sp >> 8) as u8,
                    )
                &&& r == spec_wadd16(pre.pc, 3)
            },
            (LoadWordSource::HL, LoadWordTarget::SP) => post == (CPU {
                sp: pre.registers.spec_hl(),
                ..pre
            }) && r == spec_wadd16(pre.pc, 1),
            (LoadWordSource::SPR8, LoadWordTarget::HL) => {
                let imm = pre.bus.spec_read_byte(spec_wadd16(pre.pc, 1));
                &&& post == (CPU {
                    registers: Registers {
                        f: Flags {
                            zero: false,
                            subtract: false,
                            half_carry: (pre.sp & 0xF) + (imm & 0xF) > 0xF,
                            carry: (pre.sp & 0xFF) + imm > 0xFF,
                        },
                        ..pre.registers
                    }.spec_set_hl(spec_wadd16(pre.sp, imm as i8 as int)),
                    ..pre
                })
                &&& r == spec_wadd16(pre.pc, 2)
            },
            _ => false,
        }
    }
}

impl CPU {
    /// Whether `post` and `r` are the outcome of a high-page load: `LDH`
    /// addresses `0xFF00 | n` with the immediate byte `n`, moving `A` in
    /// or out.
    pub open spec fn spec_ldh_rel(
        pre: CPU,
        post: CPU,
        t: LoadByteTarget,
        s: LoadByteSource,
        r: u16,
    ) -> bool {
        let n = pre.bus.spec_read_byte(spec_wadd16(pre.pc, 1));
        let a = (0xFF00u16 | n as u16) as u16;
        &&& r == spec_wadd16(pre.pc, 2)
        &&& if t is Address8 && s is A {
            &&& post == (CPU { bus: post.bus, ..pre })
            &&& MemoryBus::spec_write_rel(pre.bus, post.bus, a, pre.registers.a)
        } else {
            post == (CPU {
                registers: Registers { a: pre.bus.spec_read_byte(a), ..pre.registers },
                ..pre
            })
        }
    }

    /// Read the byte a load source denotes, post-modifying `HL` for the
    /// `HL+` and `HL-` forms.
    fn ld_src(&mut self, source: LoadByteSource) -> (r: u8)
        requires
            old(self).wf(),
            !(source is Address8),
        ensures
            final(self).wf(),
            r == old(self).spec_ld_src_val(source),
            *final(self) == old(self).spec_ld_src_mid(source),
    {
        match source {
            LoadByteSource::A => self.registers.a,
            LoadByteSource::B => self.registers.b,
            LoadByteSource::C => self.registers.c,
            LoadByteSource::D => self.registers.d,
            LoadByteSource::E => self.registers.e,
            LoadByteSource::H => self.registers.h,
            LoadByteSource::L => self.registers.l,
            LoadByteSource::AddressHL => {
                let a = self.registers.get_hl();
                self.bus.read_byte(a)
            },
            LoadByteSource::AddressBC => {
                let a = self.registers.get_bc();
                self.bus.read_byte(a)
            },
            LoadByteSource::AddressDE => {
                let a = self.registers.get_de();
                self.bus.read_byte(a)
            },
            LoadByteSource::AddressHLP => {
                let a = self.registers.get_hlp();
                self.bus.read_byte(a)
            },
            LoadByteSource::AddressHLM => {
                let a = self.registers.get_hlm();
                self.bus.read_byte(a)
            },
            LoadByteSource::AddressC => self.bus.read_byte(0xFF00 | (self.registers.c as u16)),
            LoadByteSource::D8 => self.read_next_byte(),
            LoadByteSource::Address16 => {
                let address = self.read_next_word();
                self.bus.read_byte(address)
            },
            LoadByteSource::Address8 => 0,
        }
    }

    /// Move a byte between registers and memory.
    #[verifier::rlimit(60)]
    fn execute_ld_byte(&mut self, target: LoadByteTarget, source: LoadByteSource) -> (r: u16)
        requires
            old(self).wf(),
            !(target is Address8),
            !(source is Address8),
        ensures
            final(self).wf(),
            CPU::spec_ld_byte_rel(*old(self), *final(self), target, source, r),
    {
        let source_value = self.ld_src(source);
        match target {
            LoadByteTarget::A => self.registers.a = source_value,
            LoadByteTarget::B => self.registers.b = source_value,
            LoadByteTarget::C => self.registers.c = source_value,
            LoadByteTarget::D => self.registers.d = source_value,
            LoadByteTarget::E => self.registers.e = source_value,
            LoadByteTarget::H => self.registers.h = source_value,
            LoadByteTarget::L => self.registers.l = source_value,
            LoadByteTarget::AddressHL => {
                let a = self.registers.get_hl();
                self.bus.write_byte(a, source_value);
            },
            LoadByteTarget::AddressBC => {
                let a = self.registers.get_bc();
                self.bus.write_byte(a, source_value);
            },
            LoadByteTarget::AddressDE => {
                let a = self.registers.get_de();
                self.bus.write_byte(a, source_value);
            },
            LoadByteTarget::AddressHLP => {
                let a = self.registers.get_hlp();
                self.bus.write_byte(a, source_value);
            },
            LoadByteTarget::AddressHLM => {
                let a = self.registers.get_hlm();
                self.bus.write_byte(a, source_value);
            },
            LoadByteTarget::AddressC => {
                self.bus.write_byte(0xFF00 | (self.registers.c as u16), source_value);
            },
            LoadByteTarget::Address16 => {
                let address = self.read_next_word();
                self.bus.write_byte(address, source_value);
            },
            LoadByteTarget::Address8 => {},
        }
        let len: u16 = match source {
            LoadByteSource::D8 => 2,
            LoadByteSource::Address16 => 3,
            _ => match target {
                LoadByteTarget::Address16 => 3,
                _ => 1,
            },
        };
        self.pc.wrapping_add(len)
    }

    /// Move a 16-bit value between pairs, `SP` and memory.
    #[verifier::rlimit(100)]
    fn execute_ld_word(&mut self, target: LoadWordTarget, source: LoadWordSource) -> (r: u16)
        requires
            old(self).wf(),
            spec_instr_wf(Instruction::Ld(LoadType::Word(target, source))),
        ensures
            final(self).wf(),
            CPU::spec_ld_word_rel(*old(self), *final(self), target, source, r),
    {
        match (source, target) {
            (LoadWordSource::D16, LoadWordTarget::BC) => {
                let v = self.read_next_word();
                self.registers.set_bc(v);
                self.pc.wrapping_add(3)
            },
            (LoadWordSource::D16, LoadWordTarget::DE) => {
                let v = self.read_next_word();
                self.registers.set_de(v);
                self.pc.wrapping_add(3)
            },
            (LoadWordSource::D16, LoadWordTarget::HL) => {
                let v = self.read_next_word();
                self.registers.set_hl(v);
                self.pc.wrapping_add(3)
            },
            (LoadWordSource::D16, _) => {
                let v = self.read_next_word();
                self.sp = v;
                self.pc.wrapping_add(3)
            },
            (LoadWordSource::SP, _) => {
                let a = self.read_next_word();
                proof {
                    lemma_u16_mask_bounds(self.sp);
                }
                self.bus.write_byte(a, (self.sp & 0xFF) as u8);
                let ghost mid = self.bus;
                self.bus.write_byte(a.wrapping_add(1), (self.sp >> 8) as u8);
                proof {
                    assert(MemoryBus::spec_write_rel(
                        old(self).bus,
                        mid,
                        old(self).spec_next_word(),
                        (old(self).sp & 0xFF) as u8,
                    ));
                }
                self.pc.wrapping_add(3)
            },
            (LoadWordSource::HL, _) => {
                self.sp = self.registers.get_hl();
                self.pc.wrapping_add(1)
            },
            (LoadWordSource::SPR8, _) => {
                let imm = self.read_next_byte();
                let sp = self.sp;
                proof {
                    lemma_u16_mask_bounds(sp);
                    crate::gpu::lemma_u8_mask_bounds(imm);
                    assert(sp & 0xF == (sp & 0xFF) & 0xF && (imm as u16) & 0xF == (imm & 0xF) as u16)
                        by (bit_vector);
                }
                self.registers.f.zero = false;
                self.registers.f.subtract = false;
                self.registers.f.half_carry = (sp & 0xF) + (imm as u16 & 0xF) > 0xF;
                self.registers.f.carry = (sp & 0xFF) + imm as u16 > 0xFF;
                let v = wadd_signed(sp, imm);
                self.registers.set_hl(v);
                self.pc.wrapping_add(2)
            },
        }
    }

    /// Move `A` to or from the high page through an immediate offset.
    fn execute_ldh_byte(&mut self, target: LoadByteTarget, source: LoadByteSource) -> (r: u16)
        requires
            old(self).wf(),
            (target is Address8 && source is A) || (target is A && source is Address8),
        ensures
            final(self).wf(),
            CPU::spec_ldh_rel(*old(self), *final(self), target, source, r),
    {
        match target {
            LoadByteTarget::Address8 => {
                let n = self.read_next_byte();
                let v = self.registers.a;
                self.bus.write_byte(0xFF00 | n as u16, v);
            },
            _ => {
                let n = self.read_next_byte();
                let v = self.bus.read_byte(0xFF00 | n as u16);
                self.registers.a = v;
            },
        }
        self.pc.wrapping_add(2)
    }
}

impl CPU {
    /// Whether `post` and `r` are the outcome of executing one decoded
    /// instruction in `pre`: `r` is the next program counter and `post`
    /// the machine afterwards, with `pc` itself still to be stored by the
    /// fetch loop. Conditional control transfers add their extra
    /// M-cycles to `cycle` when taken.
    #[verifier::opaque]
    pub open spec fn spec_execute_rel(pre: CPU, post: CPU, i: Instruction, r: u16) -> bool {
        match i {
            Instruction::Nop => post == pre && r == spec_wadd16(pre.pc, 1),
            Instruction::Stop => post == pre && r == spec_wadd16(pre.pc, 2),
            Instruction::Halt => post == (CPU { halt: true, ..pre }) && r == spec_wadd16(pre.pc, 1),
            Instruction::Ei => post == (CPU { ei: 2, ..pre }) && r == spec_wadd16(pre.pc, 1),
            Instruction::Di => post == (CPU { di: 2, ..pre }) && r == spec_wadd16(pre.pc, 1),
            Instruction::Add(t) => {
                let v = pre.spec_src8(t);
                r == pre.spec_src8_next_pc(t) && post == (CPU {
                    registers: Registers {
                        a: spec_w8(pre.registers.a + v),
                        f: spec_add_flags(pre.registers.a, v, 0),
                        ..pre.registers
                    },
                    ..pre
                })
            },
            Instruction::Adc(t) => {
                let v = pre.spec_src8(t);
                let c: u8 = if pre.registers.f.carry { 1 } else { 0 };
                r == pre.spec_src8_next_pc(t) && post == (CPU {
                    registers: Registers {
                        a: spec_w8(pre.registers.a + v + c),
                        f: spec_add_flags(pre.registers.a, v, c),
                        ..pre.registers
                    },
                    ..pre
                })
            },
            Instruction::Sub(t) => {
                let v = pre.spec_src8(t);
                r == pre.spec_src8_next_pc(t) && post == (CPU {
                    registers: Registers {
                        a: spec_w8(pre.registers.a - v),
                        f: spec_sub_flags(pre.registers.a, v, 0),
                        ..pre.registers
                    },
                    ..pre
                })
            },
            Instruction::Sbc(t) => {
                let v = pre.spec_src8(t);
                let c: u8 = if pre.registers.f.carry { 1 } else { 0 };
                r == pre.spec_src8_next_pc(t) && post == (CPU {
                    registers: Registers {
                        a: spec_w8(pre.registers.a - v - c),
                        f: spec_sub_flags(pre.registers.a, v, c),
                        ..pre.registers
                    },
                    ..pre
                })
            },
            Instruction::And(t) => {
                let v = pre.spec_src8(t);
                r == pre.spec_src8_next_pc(t) && post == (CPU {
                    registers: Registers {
                        a: (pre.registers.a & v) as u8,
                        f: Flags {
                            zero: pre.registers.a & v == 0,
                            subtract: false,
                            half_carry: true,
                            carry: false,
                        },
                        ..pre.registers
                    },
                    ..pre
                })
            },
            Instruction::Or(t) => {
                let v = pre.spec_src8(t);
                r == pre.spec_src8_next_pc(t) && post == (CPU {
                    registers: Registers {
                        a: (pre.registers.a | v) as u8,
                        f: Flags {
                            zero: pre.registers.a | v == 0,
                            subtract: false,
                            half_carry: false,
                            carry: false,
                        },
                        ..pre.registers
                    },
                    ..pre
                })
            },
            Instruction::Xor(t) => {
                let v = pre.spec_src8(t);
                r == pre.spec_src8_next_pc(t) && post == (CPU {
                    registers: Registers {
                        a: (pre.registers.a ^ v) as u8,
                        f: Flags {
                            zero: pre.registers.a ^ v == 0,
                            subtract: false,
                            half_carry: false,
                            carry: false,
                        },
                        ..pre.registers
                    },
                    ..pre
                })
            },
            Instruction::Cp(t) => {
                let v = pre.spec_src8(t);
                r == pre.spec_src8_next_pc(t) && post == (CPU {
                    registers: Registers {
                        f: spec_sub_flags(pre.registers.a, v, 0),
                        ..pre.registers
                    },
                    ..pre
                })
            },
            Instruction::Inc(t) => {
                &&& r == spec_wadd16(pre.pc, 1)
                &&& if spec_is_dst8(t) {
                    let nv = spec_w8(pre.spec_src8(t) + 1);
                    CPU::spec_rmw_rel(pre, post, t, nv, Flags {
                        zero: nv == 0,
                        subtract: false,
                        half_carry: nv & 0x0F == 0,
                        carry: pre.registers.f.carry,
                    })
                } else {
                    match t {
                        ArithmeticTarget::BC => post == (CPU {
                            registers: pre.registers.spec_set_bc(
                                spec_wadd16(pre.registers.spec_bc(), 1),
                            ),
                            ..pre
                        }),
                        ArithmeticTarget::DE => post == (CPU {
                            registers: pre.registers.spec_set_de(
                                spec_wadd16(pre.registers.spec_de(), 1),
                            ),
                            ..pre
                        }),
                        ArithmeticTarget::HL => post == (CPU {
                            registers: pre.registers.spec_set_hl(
                                spec_wadd16(pre.registers.spec_hl(), 1),
                            ),
                            ..pre
                        }),
                        _ => post == (CPU { sp: spec_wadd16(pre.sp, 1), ..pre }),
                    }
                }
            },
            Instruction::Dec(t) => {
                &&& r == spec_wadd16(pre.pc, 1)
                &&& if spec_is_dst8(t) {
                    let nv = spec_w8(pre.spec_src8(t) - 1);
                    CPU::spec_rmw_rel(pre, post, t, nv, Flags {
                        zero: nv == 0,
                        subtract: true,
                        half_carry: nv & 0x0F == 0x0F,
                        carry: pre.registers.f.carry,
                    })
                } else {
                    match t {
                        ArithmeticTarget::BC => post == (CPU {
                            registers: pre.registers.spec_set_bc(
                                spec_wadd16(pre.registers.spec_bc(), -1),
                            ),
                            ..pre
                        }),
                        ArithmeticTarget::DE => post == (CPU {
                            registers: pre.registers.spec_set_de(
                                spec_wadd16(pre.registers.spec_de(), -1),
                            ),
                            ..pre
                        }),
                        ArithmeticTarget::HL => post == (CPU {
                            registers: pre.registers.spec_set_hl(
                                spec_wadd16(pre.registers.spec_hl(), -1),
                            ),
                            ..pre
                        }),
                        _ => post == (CPU { sp: spec_wadd16(pre.sp, -1), ..pre }),
                    }
                }
            },
            Instruction::Addhl(t) => {
                let hl = pre.registers.spec_hl();
                let v = pre.spec_word_src(t);
                r == spec_wadd16(pre.pc, 1) && post == (CPU {
                    registers: Registers {
                        f: Flags {
                            zero: pre.registers.f.zero,
                            subtract: false,
                            half_carry: (hl & 0xFFF) + (v & 0xFFF) > 0xFFF,
                            carry: hl + v > 0xFFFF,
                        },
                        ..pre.registers
                    }.spec_set_hl(spec_wadd16(hl, v as int)),
                    ..pre
                })
            },
            Instruction::Addsp => {
                let imm = pre.bus.spec_read_byte(spec_wadd16(pre.pc, 1));
                r == spec_wadd16(pre.pc, 2) && post == (CPU {
                    registers: Registers {
                        f: Flags {
                            zero: false,
                            subtract: false,
                            half_carry: (pre.sp & 0xF) + (imm & 0xF) > 0xF,
                            carry: (pre.sp & 0xFF) + imm > 0xFF,
                        },
                        ..pre.registers
                    },
                    sp: spec_wadd16(pre.sp, imm as i8 as int),
                    ..pre
                })
            },
            Instruction::Ccf => r == spec_wadd16(pre.pc, 1) && post == (CPU {
                registers: Registers {
                    f: Flags {
                        zero: pre.registers.f.zero,
                        subtract: false,
                        half_carry: false,
                        carry: !pre.registers.f.carry,
                    },
                    ..pre.registers
                },
                ..pre
            }),
            Instruction::Scf => r == spec_wadd16(pre.pc, 1) && post == (CPU {
                registers: Registers {
                    f: Flags {
                        zero: pre.registers.f.zero,
                        subtract: false,
                        half_carry: false,
                        carry: true,
                    },
                    ..pre.registers
                },
                ..pre
            }),
            Instruction::Cpl => r == spec_wadd16(pre.pc, 1) && post == (CPU {
                registers: Registers {
                    a: !pre.registers.a,
                    f: Flags {
                        zero: pre.registers.f.zero,
                        subtract: true,
                        half_carry: true,
                        carry: pre.registers.f.carry,
                    },
                    ..pre.registers
                },
                ..pre
            }),
            Instruction::Daa => r == spec_wadd16(pre.pc, 1) && post == (CPU {
                registers: Registers {
                    a: spec_daa(pre.registers.a, pre.registers.f).0,
                    f: spec_daa(pre.registers.a, pre.registers.f).1,
                    ..pre.registers
                },
                ..pre
            }),
            Instruction::Rra => r == spec_wadd16(pre.pc, 1) && post == (CPU {
                registers: Registers {
                    a: ((pre.registers.a >> 1)
                        | (if pre.registers.f.carry { 0x80u8 } else { 0u8 })) as u8,
                    f: Flags {
                        zero: false,
                        subtract: false,
                        half_carry: false,
                        carry: pre.registers.a & 0x01 != 0,
                    },
                    ..pre.registers
                },
                ..pre
            }),
            Instruction::Rla => r == spec_wadd16(pre.pc, 1) && post == (CPU {
                registers: Registers {
                    a: ((pre.registers.a << 1)
                        | (if pre.registers.f.carry { 1u8 } else { 0u8 })) as u8,
                    f: Flags {
                        zero: false,
                        subtract: false,
                        half_carry: false,
                        carry: pre.registers.a & 0x80 != 0,
                    },
                    ..pre.registers
                },
                ..pre
            }),
            Instruction::Rrca => r == spec_wadd16(pre.pc, 1) && post == (CPU {
                registers: Registers {
                    a: ((pre.registers.a >> 1)
                        | (if pre.registers.a & 0x01 != 0 { 0x80u8 } else { 0u8 })) as u8,
                    f: Flags {
                        zero: false,
                        subtract: false,
                        half_carry: false,
                        carry: pre.registers.a & 0x01 != 0,
                    },
                    ..pre.registers
                },
                ..pre
            }),
            Instruction::Rlca => r == spec_wadd16(pre.pc, 1) && post == (CPU {
                registers: Registers {
                    a: ((pre.registers.a << 1)
                        | (if pre.registers.a & 0x80 != 0 { 1u8 } else { 0u8 })) as u8,
                    f: Flags {
                        zero: false,
                        subtract: false,
                        half_carry: false,
                        carry: pre.registers.a & 0x80 != 0,
                    },
                    ..pre.registers
                },
                ..pre
            }),
            Instruction::Bit(t, n) => r == spec_wadd16(pre.pc, 2) && post == (CPU {
                registers: Registers {
                    f: Flags {
                        zero: pre.spec_src8(t) & (1u8 << n) == 0,
                        subtract: false,
                        half_carry: true,
                        carry: pre.registers.f.carry,
                    },
                    ..pre.registers
                },
                ..pre
            }),
            Instruction::Reset(t, n) => r == spec_wadd16(pre.pc, 2) && CPU::spec_rmw_rel(
                pre,
                post,
                t,
                (pre.spec_src8(t) & !(1u8 << n)) as u8,
                pre.registers.f,
            ),
            Instruction::SetBit(t, n) => r == spec_wadd16(pre.pc, 2) && CPU::spec_rmw_rel(
                pre,
                post,
                t,
                (pre.spec_src8(t) | (1u8 << n)) as u8,
                pre.registers.f,
            ),
            Instruction::Srl(t) => {
                let v = pre.spec_src8(t);
                r == spec_wadd16(pre.pc, 2) && CPU::spec_rmw_rel(pre, post, t, (v >> 1) as u8, Flags {
                    zero: v >> 1 == 0,
                    subtract: false,
                    half_carry: false,
                    carry: v & 0x01 != 0,
                })
            },
            Instruction::Rr(t) => {
                let v = pre.spec_src8(t);
                let nv = ((v >> 1) | (if pre.registers.f.carry { 0x80u8 } else { 0u8 })) as u8;
                r == spec_wadd16(pre.pc, 2) && CPU::spec_rmw_rel(pre, post, t, nv, Flags {
                    zero: nv == 0,
                    subtract: false,
                    half_carry: false,
                    carry: v & 0x01 != 0,
                })
            },
            Instruction::Rl(t) => {
                let v = pre.spec_src8(t);
                let nv = ((v << 1) | (if pre.registers.f.carry { 1u8 } else { 0u8 })) as u8;
                r == spec_wadd16(pre.pc, 2) && CPU::spec_rmw_rel(pre, post, t, nv, Flags {
                    zero: nv == 0,
                    subtract: false,
                    half_carry: false,
                    carry: v & 0x80 != 0,
                })
            },
            Instruction::Rrc(t) => {
                let v = pre.spec_src8(t);
                let nv = ((v >> 1) | (if v & 0x01 != 0 { 0x80u8 } else { 0u8 })) as u8;
                r == spec_wadd16(pre.pc, 2) && CPU::spec_rmw_rel(pre, post, t, nv, Flags {
                    zero: nv == 0,
                    subtract: false,
                    half_carry: false,
                    carry: v & 0x01 != 0,
                })
            },
            Instruction::Rlc(t) => {
                let v = pre.spec_src8(t);
                let nv = ((v << 1) | (if v & 0x80 != 0 { 1u8 } else { 0u8 })) as u8;
                r == spec_wadd16(pre.pc, 2) && CPU::spec_rmw_rel(pre, post, t, nv, Flags {
                    zero: nv == 0,
                    subtract: false,
                    half_carry: false,
                    carry: v & 0x80 != 0,
                })
            },
            Instruction::Sra(t) => {
                let v = pre.spec_src8(t);
                let nv = ((v >> 1) | (v & 0x80)) as u8;
                r == spec_wadd16(pre.pc, 2) && CPU::spec_rmw_rel(pre, post, t, nv, Flags {
                    zero: nv == 0,
                    subtract: false,
                    half_carry: false,
                    carry: v & 0x01 != 0,
                })
            },
            Instruction::Sla(t) => {
                let v = pre.spec_src8(t);
                r == spec_wadd16(pre.pc, 2) && CPU::spec_rmw_rel(pre, post, t, (v << 1) as u8, Flags {
                    zero: v << 1 == 0,
                    subtract: false,
                    half_carry: false,
                    carry: v & 0x80 != 0,
                })
            },
            Instruction::Swap(t) => {
                let v = pre.spec_src8(t);
                let nv = (((v & 0x0F) << 4) | ((v & 0xF0) >> 4)) as u8;
                r == spec_wadd16(pre.pc, 2) && CPU::spec_rmw_rel(pre, post, t, nv, Flags {
                    zero: nv == 0,
                    subtract: false,
                    half_carry: false,
                    carry: false,
                })
            },
            Instruction::Ld(LoadType::Byte(t, s)) => CPU::spec_ld_byte_rel(pre, post, t, s, r),
            Instruction::Ld(LoadType::Word(t, s)) => CPU::spec_ld_word_rel(pre, post, t, s, r),
            Instruction::Ldh(LoadType::Byte(t, s)) => CPU::spec_ldh_rel(pre, post, t, s, r),
            Instruction::Ldh(LoadType::Word(_, _)) => false,
            Instruction::Jp(test, ju) => {
                if ju is AddressHL {
                    post == pre && r == pre.registers.spec_hl()
                } else if pre.spec_condition(test) {
                    post == (CPU { cycle: (pre.cycle + 1) as u8, ..pre })
                        && r == pre.spec_next_word()
                } else {
                    post == pre && r == spec_wadd16(pre.pc, 3)
                }
            },
            Instruction::Jr(test) => {
                if pre.spec_condition(test) {
                    let target = spec_wadd16(
                        pre.pc,
                        2 + (pre.bus.spec_read_byte(spec_wadd16(pre.pc, 1)) as i8 as int),
                    );
                    post == (CPU { pc: target, cycle: (pre.cycle + 1) as u8, ..pre })
                        && r == target
                } else {
                    post == (CPU { pc: spec_wadd16(pre.pc, 2), ..pre })
                        && r == spec_wadd16(pre.pc, 2)
                }
            },
            Instruction::Call(test) => {
                if pre.spec_condition(test) {
                    &&& r == pre.spec_next_word()
                    &&& post == (CPU {
                        sp: spec_wadd16(pre.sp, -2),
                        cycle: (pre.cycle + 3) as u8,
                        bus: post.bus,
                        ..pre
                    })
                    &&& exists|mid: MemoryBus|
                        #[trigger] MemoryBus::spec_write_rel(
                            pre.bus,
                            mid,
                            spec_wadd16(pre.sp, -1),
                            (spec_wadd16(pre.pc, 3) >> 8) as u8,
                        ) && MemoryBus::spec_write_rel(
                            mid,
                            post.bus,
                            spec_wadd16(pre.sp, -2),
                            (spec_wadd16(pre.pc, 3) & 0xFF) as u8,
                        )
                } else {
                    post == pre && r == spec_wadd16(pre.pc, 3)
                }
            },
            Instruction::Ret(test) => {
                if pre.spec_condition(test) {
                    r == pre.spec_stack_top() && post == (CPU {
                        sp: spec_wadd16(pre.sp, 2),
                        cycle: (pre.cycle + 3) as u8,
                        ..pre
                    })
                } else {
                    post == pre && r == spec_wadd16(pre.pc, 1)
                }
            },
            Instruction::Reti => r == pre.spec_stack_top() && post == (CPU {
                pc: pre.spec_stack_top(),
                sp: spec_wadd16(pre.sp, 2),
                ei: 2,
                ..pre
            }),
            Instruction::Push(st) => {
                let v = pre.spec_stack_value(st);
                &&& r == spec_wadd16(pre.pc, 1)
                &&& post == (CPU { sp: spec_wadd16(pre.sp, -2), bus: post.bus, ..pre })
                &&& exists|mid: MemoryBus|
                    #[trigger] MemoryBus::spec_write_rel(
                        pre.bus,
                        mid,
                        spec_wadd16(pre.sp, -1),
                        (v >> 8) as u8,
                    ) && MemoryBus::spec_write_rel(
                        mid,
                        post.bus,
                        spec_wadd16(pre.sp, -2),
                        (v & 0xFF) as u8,
                    )
            },
            Instruction::Pop(st) => {
                let v = pre.spec_stack_top();
                &&& r == spec_wadd16(pre.pc, 1)
                &&& match st {
                    StackTarget::AF => post == (CPU {
                        registers: pre.registers.spec_set_af(v),
                        sp: spec_wadd16(pre.sp, 2),
                        ..pre
                    }),
                    StackTarget::BC => post == (CPU {
                        registers: pre.registers.spec_set_bc(v),
                        sp: spec_wadd16(pre.sp, 2),
                        ..pre
                    }),
                    StackTarget::DE => post == (CPU {
                        registers: pre.registers.spec_set_de(v),
                        sp: spec_wadd16(pre.sp, 2),
                        ..pre
                    }),
                    StackTarget::HL => post == (CPU {
                        registers: pre.registers.spec_set_hl(v),
                        sp: spec_wadd16(pre.sp, 2),
                        ..pre
                    }),
                }
            },
            Instruction::Rst(t) => {
                let vector = spec_rst_vector(t);
                let ret = spec_wadd16(pre.pc, 1);
                &&& r == vector
                &&& post == (CPU {
                    sp: spec_wadd16(pre.sp, -2),
                    pc: vector,
                    bus: post.bus,
                    ..pre
                })
                &&& exists|mid: MemoryBus|
                    #[trigger] MemoryBus::spec_write_rel(
                        pre.bus,
                        mid,
                        spec_wadd16(pre.sp, -1),
                        (ret >> 8) as u8,
                    ) && MemoryBus::spec_write_rel(
                        mid,
                        post.bus,
                        spec_wadd16(pre.sp, -2),
                        (ret & 0xFF) as u8,
                    )
            },
            Instruction::PrefixCB => false,
        }
    }

    /// Execute one decoded instruction; the returned next program counter
    /// is stored by the fetch loop.
    pub fn execute(&mut self, instruction: Instruction) -> (r: u16)
        requires
            old(self).wf(),
            spec_instr_wf(instruction),
            old(self).cycle <= 120,
        ensures
            final(self).wf(),
            CPU::spec_execute_rel(*old(self), *final(self), instruction, r),
            old(self).cycle <= final(self).cycle <= old(self).cycle + 3,
    {
        match instruction {
            Instruction::Nop | Instruction::Stop | Instruction::Halt | Instruction::Ei
                | Instruction::Di | Instruction::Ccf | Instruction::Scf | Instruction::Cpl
                | Instruction::Daa | Instruction::Rra | Instruction::Rla | Instruction::Rrca
                | Instruction::Rlca => self.execute_plain(instruction),
            Instruction::Add(_) | Instruction::Adc(_) | Instruction::Sub(_)
                | Instruction::Sbc(_) | Instruction::And(_) | Instruction::Or(_)
                | Instruction::Xor(_) | Instruction::Cp(_) | Instruction::Inc(_)
                | Instruction::Dec(_) | Instruction::Addhl(_) | Instruction::Addsp =>
                self.execute_arith(instruction),
            Instruction::Bit(_, _) | Instruction::Reset(_, _) | Instruction::SetBit(_, _)
                | Instruction::Srl(_) | Instruction::Rr(_) | Instruction::Rl(_)
                | Instruction::Rrc(_) | Instruction::Rlc(_) | Instruction::Sra(_)
                | Instruction::Sla(_) | Instruction::Swap(_) => self.execute_bits(instruction),
            Instruction::Ld(_) | Instruction::Ldh(_) => self.execute_loads(instruction),
            _ => self.execute_flow(instruction),
        }
    }

    /// The load instructions.
    #[verifier::rlimit(100)]
    fn execute_loads(&mut self, instruction: Instruction) -> (r: u16)
        requires
            old(self).wf(),
            spec_instr_wf(instruction),
            instruction is Ld || instruction is Ldh,
        ensures
            final(self).wf(),
            CPU::spec_execute_rel(*old(self), *final(self), instruction, r),
            final(self).cycle == old(self).cycle,
    {
        match instruction {
            Instruction::Ld(load_type) => match load_type {
                LoadType::Byte(target, source) => {
                    let rv = self.execute_ld_byte(target, source);
                    proof {
                        reveal(CPU::spec_execute_rel);
                        assert(CPU::spec_execute_rel(*old(self), *self, instruction, rv));
                    }
                    rv
                },
                LoadType::Word(target, source) => {
                    let rv = self.execute_ld_word(target, source);
                    proof {
                        reveal(CPU::spec_execute_rel);
                        assert(CPU::spec_execute_rel(*old(self), *self, instruction, rv));
                    }
                    rv
                },
            },
            Instruction::Ldh(load_type) => match load_type {
                LoadType::Byte(target, source) => {
                    let rv = self.execute_ldh_byte(target, source);
                    proof {
                        reveal(CPU::spec_execute_rel);
                        assert(CPU::spec_execute_rel(*old(self), *self, instruction, rv));
                    }
                    rv
                },
                LoadType::Word(_, _) => 0,
            },
            _ => 0,
        }
    }

    /// The instructions that touch only the registers, the flags and the
    /// interrupt staging.
    #[verifier::rlimit(100)]
    fn execute_plain(&mut self, instruction: Instruction) -> (r: u16)
        requires
            old(self).wf(),
            instruction is Nop || instruction is Stop || instruction is Halt
                || instruction is Ei || instruction is Di || instruction is Ccf
                || instruction is Scf || instruction is Cpl || instruction is Daa
                || instruction is Rra || instruction is Rla || instruction is Rrca
                || instruction is Rlca,
        ensures
            final(self).wf(),
            CPU::spec_execute_rel(*old(self), *final(self), instruction, r),
            final(self).cycle == old(self).cycle,
    {
        match instruction {
            Instruction::Nop => {
                let rv = self.pc.wrapping_add(1);
                proof {
                    reveal(CPU::spec_execute_rel);
                    assert(CPU::spec_execute_rel(*old(self), *self, instruction, rv));
                }
                rv
            },
            Instruction::Stop => {
                let rv = self.pc.wrapping_add(2);
                proof {
                    reveal(CPU::spec_execute_rel);
                    assert(CPU::spec_execute_rel(*old(self), *self, instruction, rv));
                }
                rv
            },
            Instruction::Halt => {
                self.halt = true;
                let rv = self.pc.wrapping_add(1);
                proof {
                    reveal(CPU::spec_execute_rel);
                    assert(CPU::spec_execute_rel(*old(self), *self, instruction, rv));
                }
                rv
            },
            Instruction::Ei => {
                self.ei = 2;
                let rv = self.pc.wrapping_add(1);
                proof {
                    reveal(CPU::spec_execute_rel);
                    assert(CPU::spec_execute_rel(*old(self), *self, instruction, rv));
                }
                rv
            },
            Instruction::Di => {
                self.di = 2;
                let rv = self.pc.wrapping_add(1);
                proof {
                    reveal(CPU::spec_execute_rel);
                    assert(CPU::spec_execute_rel(*old(self), *self, instruction, rv));
                }
                rv
            },
            Instruction::Ccf => {
                self.execute_ccf();
                let rv = self.pc.wrapping_add(1);
                proof {
                    reveal(CPU::spec_execute_rel);
                    assert(CPU::spec_execute_rel(*old(self), *self, instruction, rv));
                }
                rv
            },
            Instruction::Scf => {
                self.execute_scf();
                let rv = self.pc.wrapping_add(1);
                proof {
                    reveal(CPU::spec_execute_rel);
                    assert(CPU::spec_execute_rel(*old(self), *self, instruction, rv));
                }
                rv
            },
            Instruction::Cpl => {
                self.execute_cpl();
                let rv = self.pc.wrapping_add(1);
                proof {
                    reveal(CPU::spec_execute_rel);
                    assert(CPU::spec_execute_rel(*old(self), *self, instruction, rv));
                }
                rv
            },
            Instruction::Daa => {
                self.daa();
                let rv = self.pc.wrapping_add(1);
                proof {
                    reveal(CPU::spec_execute_rel);
                    assert(CPU::spec_execute_rel(*old(self), *self, instruction, rv));
                }
                rv
            },
            Instruction::Rra => {
                self.execute_rra();
                let rv = self.pc.wrapping_add(1);
                proof {
                    reveal(CPU::spec_execute_rel);
                    assert(CPU::spec_execute_rel(*old(self), *self, instruction, rv));
                }
                rv
            },
            Instruction::Rla => {
                self.execute_rla();
                let rv = self.pc.wrapping_add(1);
                proof {
                    reveal(CPU::spec_execute_rel);
                    assert(CPU::spec_execute_rel(*old(self), *self, instruction, rv));
                }
                rv
            },
            Instruction::Rrca => {
                self.execute_rrca();
                let rv = self.pc.wrapping_add(1);
                proof {
                    reveal(CPU::spec_execute_rel);
                    assert(CPU::spec_execute_rel(*old(self), *self, instruction, rv));
                }
                rv
            },
            _ => {
                self.execute_rlca();
                let rv = self.pc.wrapping_add(1);
                proof {
                    reveal(CPU::spec_execute_rel);
                    assert(CPU::spec_execute_rel(*old(self), *self, instruction, rv));
                }
                rv
            },
        }
    }

    /// The 8-bit and 16-bit arithmetic instructions.
    #[verifier::rlimit(100)]
    #[verifier::spinoff_prover]
    fn execute_arith(&mut self, instruction: Instruction) -> (r: u16)
        requires
            old(self).wf(),
            spec_instr_wf(instruction),
            instruction is Add || instruction is Adc || instruction is Sub
                || instruction is Sbc || instruction is And || instruction is Or
                || instruction is Xor || instruction is Cp || instruction is Inc
                || instruction is Dec || instruction is Addhl || instruction is Addsp,
        ensures
            final(self).wf(),
            CPU::spec_execute_rel(*old(self), *final(self), instruction, r),
            final(self).cycle == old(self).cycle,
    {
        match instruction {
            Instruction::Add(target) => {
                let rv = self.execute_add(target);
                proof {
                    reveal(CPU::spec_execute_rel);
                    assert(CPU::spec_execute_rel(*old(self), *self, instruction, rv));
                }
                rv
            },
            Instruction::Adc(target) => {
                let rv = self.execute_adc(target);
                proof {
                    reveal(CPU::spec_execute_rel);
                    assert(CPU::spec_execute_rel(*old(self), *self, instruction, rv));
                }
                rv
            },
            Instruction::Sub(target) => {
                let rv = self.execute_sub(target);
                proof {
                    reveal(CPU::spec_execute_rel);
                    assert(CPU::spec_execute_rel(*old(self), *self, instruction, rv));
                }
                rv
            },
            Instruction::Sbc(target) => {
                let rv = self.execute_sbc(target);
                proof {
                    reveal(CPU::spec_execute_rel);
                    assert(CPU::spec_execute_rel(*old(self), *self, instruction, rv));
                }
                rv
            },
            Instruction::And(target) => {
                let rv = self.execute_and(target);
                proof {
                    reveal(CPU::spec_execute_rel);
                    assert(CPU::spec_execute_rel(*old(self), *self, instruction, rv));
                }
                rv
            },
            Instruction::Or(target) => {
                let rv = self.execute_or(target);
                proof {
                    reveal(CPU::spec_execute_rel);
                    assert(CPU::spec_execute_rel(*old(self), *self, instruction, rv));
                }
                rv
            },
            Instruction::Xor(target) => {
                let rv = self.execute_xor(target);
                proof {
                    reveal(CPU::spec_execute_rel);
                    assert(CPU::spec_execute_rel(*old(self), *self, instruction, rv));
                }
                rv
            },
            Instruction::Cp(target) => {
                let rv = self.execute_cp(target);
                proof {
                    reveal(CPU::spec_execute_rel);
                    assert(CPU::spec_execute_rel(*old(self), *self, instruction, rv));
                }
                rv
            },
            Instruction::Inc(target) => {
                match target {
                    ArithmeticTarget::BC => {
                        let value = self.registers.get_bc();
                        self.registers.set_bc(value.wrapping_add(1));
                    },
                    ArithmeticTarget::DE => {
                        let value = self.registers.get_de();
                        self.registers.set_de(value.wrapping_add(1));
                    },
                    ArithmeticTarget::HL => {
                        let value = self.registers.get_hl();
                        self.registers.set_hl(value.wrapping_add(1));
                    },
                    ArithmeticTarget::SP => {
                        self.sp = self.sp.wrapping_add(1);
                    },
                    _ => {
                        self.execute_inc(target);
                    },
                }
                let rv = self.pc.wrapping_add(1);
                proof {
                    reveal(CPU::spec_execute_rel);
                    assert(CPU::spec_execute_rel(*old(self), *self, instruction, rv));
                }
                rv
            },
            Instruction::Dec(target) => {
                match target {
                    ArithmeticTarget::BC => {
                        let value = self.registers.get_bc();
                        self.registers.set_bc(value.wrapping_sub(1));
                    },
                    ArithmeticTarget::DE => {
                        let value = self.registers.get_de();
                        self.registers.set_de(value.wrapping_sub(1));
                    },
                    ArithmeticTarget::HL => {
                        let value = self.registers.get_hl();
                        self.registers.set_hl(value.wrapping_sub(1));
                    },
                    ArithmeticTarget::SP => {
                        self.sp = self.sp.wrapping_sub(1);
                    },
                    _ => {
                        self.execute_dec(target);
                    },
                }
                let rv = self.pc.wrapping_add(1);
                proof {
                    reveal(CPU::spec_execute_rel);
                    assert(CPU::spec_execute_rel(*old(self), *self, instruction, rv));
                }
                rv
            },
            Instruction::Addhl(target) => {
                let rv = self.execute_add_hl(target);
                proof {
                    reveal(CPU::spec_execute_rel);
                    assert(CPU::spec_execute_rel(*old(self), *self, instruction, rv));
                }
                rv
            },
            _ => {
                let rv = self.execute_addsp();
                proof {
                    reveal(CPU::spec_execute_rel);
                    assert(CPU::spec_execute_rel(*old(self), *self, instruction, rv));
                }
                rv
            },
        }
    }

    /// The single-bit and shift instructions of the prefixed table.
    #[verifier::rlimit(100)]
    fn execute_bits(&mut self, instruction: Instruction) -> (r: u16)
        requires
            old(self).wf(),
            spec_instr_wf(instruction),
            instruction is Bit || instruction is Reset || instruction is SetBit
                || instruction is Srl || instruction is Rr || instruction is Rl
                || instruction is Rrc || instruction is Rlc || instruction is Sra
                || instruction is Sla || instruction is Swap,
        ensures
            final(self).wf(),
            CPU::spec_execute_rel(*old(self), *final(self), instruction, r),
            final(self).cycle == old(self).cycle,
    {
        match instruction {
            Instruction::Bit(target, bit_num) => {
                let rv = self.execute_bit(target, bit_num);
                proof {
                    reveal(CPU::spec_execute_rel);
                    assert(CPU::spec_execute_rel(*old(self), *self, instruction, rv));
                }
                rv
            },
            Instruction::Reset(target, bit_num) => {
                self.execute_reset(target, bit_num);
                let rv = self.pc.wrapping_add(2);
                proof {
                    reveal(CPU::spec_execute_rel);
                    assert(CPU::spec_execute_rel(*old(self), *self, instruction, rv));
                }
                rv
            },
            Instruction::SetBit(target, bit_num) => {
                self.execute_set(target, bit_num);
                let rv = self.pc.wrapping_add(2);
                proof {
                    reveal(CPU::spec_execute_rel);
                    assert(CPU::spec_execute_rel(*old(self), *self, instruction, rv));
                }
                rv
            },
            Instruction::Srl(target) => {
                self.execute_srl(target);
                let rv = self.pc.wrapping_add(2);
                proof {
                    reveal(CPU::spec_execute_rel);
                    assert(CPU::spec_execute_rel(*old(self), *self, instruction, rv));
                }
                rv
            },
            Instruction::Rr(target) => {
                self.execute_rr(target);
                let rv = self.pc.wrapping_add(2);
                proof {
                    reveal(CPU::spec_execute_rel);
                    assert(CPU::spec_execute_rel(*old(self), *self, instruction, rv));
                }
                rv
            },
            Instruction::Rl(target) => {
                self.execute_rl(target);
                let rv = self.pc.wrapping_add(2);
                proof {
                    reveal(CPU::spec_execute_rel);
                    assert(CPU::spec_execute_rel(*old(self), *self, instruction, rv));
                }
                rv
            },
            Instruction::Rrc(target) => {
                self.execute_rrc(target);
                let rv = self.pc.wrapping_add(2);
                proof {
                    reveal(CPU::spec_execute_rel);
                    assert(CPU::spec_execute_rel(*old(self), *self, instruction, rv));
                }
                rv
            },
            Instruction::Rlc(target) => {
                self.execute_rlc(target);
                let rv = self.pc.wrapping_add(2);
                proof {
                    reveal(CPU::spec_execute_rel);
                    assert(CPU::spec_execute_rel(*old(self), *self, instruction, rv));
                }
                rv
            },
            Instruction::Sra(target) => {
                self.execute_sra(target);
                let rv = self.pc.wrapping_add(2);
                proof {
                    reveal(CPU::spec_execute_rel);
                    assert(CPU::spec_execute_rel(*old(self), *self, instruction, rv));
                }
                rv
            },
            Instruction::Sla(target) => {
                self.execute_sla(target);
                let rv = self.pc.wrapping_add(2);
                proof {
                    reveal(CPU::spec_execute_rel);
                    assert(CPU::spec_execute_rel(*old(self), *self, instruction, rv));
                }
                rv
            },
            Instruction::Swap(target) => {
                self.execute_swap(target);
                let rv = self.pc.wrapping_add(2);
                proof {
                    reveal(CPU::spec_execute_rel);
                    assert(CPU::spec_execute_rel(*old(self), *self, instruction, rv));
                }
                rv
            },
            _ => 0,
        }
    }

    /// The loads, the control transfers and the stack instructions.
    #[verifier::rlimit(100)]
    fn execute_flow(&mut self, instruction: Instruction) -> (r: u16)
        requires
            old(self).wf(),
            spec_instr_wf(instruction),
            old(self).cycle <= 120,
            !(instruction is Nop || instruction is Stop || instruction is Halt
                || instruction is Ei || instruction is Di || instruction is Ccf
                || instruction is Scf || instruction is Cpl || instruction is Daa
                || instruction is Rra || instruction is Rla || instruction is Rrca
                || instruction is Rlca || instruction is Add || instruction is Adc
                || instruction is Sub || instruction is Sbc || instruction is And
                || instruction is Or || instruction is Xor || instruction is Cp
                || instruction is Inc || instruction is Dec || instruction is Addhl
                || instruction is Addsp || instruction is Bit || instruction is Reset
                || instruction is SetBit || instruction is Srl || instruction is Rr
                || instruction is Rl || instruction is Rrc || instruction is Rlc
                || instruction is Sra || instruction is Sla || instruction is Swap
                || instruction is Ld || instruction is Ldh),
        ensures
            final(self).wf(),
            CPU::spec_execute_rel(*old(self), *final(self), instruction, r),
            old(self).cycle <= final(self).cycle <= old(self).cycle + 3,
    {
        match instruction {
            Instruction::Jp(test, ju) => {
                let jump_condition = self.condition(test);
                let rv = self.jump(jump_condition, ju);
                proof {
                    reveal(CPU::spec_execute_rel);
                    assert(CPU::spec_execute_rel(*old(self), *self, instruction, rv));
                }
                rv
            },
            Instruction::Jr(test) => {
                let jump_condition = self.condition(test);
                self.jump_relative(jump_condition);
                let rv = self.pc;
                proof {
                    reveal(CPU::spec_execute_rel);
                    assert(CPU::spec_execute_rel(*old(self), *self, instruction, rv));
                }
                rv
            },
            Instruction::Call(test) => {
                let jump_condition = self.condition(test);
                let rv = self.call(jump_condition);
                proof {
                    reveal(CPU::spec_execute_rel);
                    assert(CPU::spec_execute_rel(*old(self), *self, instruction, rv));
                }
                rv
            },
            Instruction::Ret(test) => {
                let jump_condition = self.condition(test);
                let rv = self.return_(jump_condition);
                proof {
                    reveal(CPU::spec_execute_rel);
                    assert(CPU::spec_execute_rel(*old(self), *self, instruction, rv));
                }
                rv
            },
            Instruction::Reti => {
                let v = self.pop();
                self.pc = v;
                self.ei = 2;
                let rv = self.pc;
                proof {
                    reveal(CPU::spec_execute_rel);
                    assert(CPU::spec_execute_rel(*old(self), *self, instruction, rv));
                }
                rv
            },
            Instruction::Push(target) => {
                let value = match target {
                    StackTarget::BC => self.registers.get_bc(),
                    StackTarget::DE => self.registers.get_de(),
                    StackTarget::HL => self.registers.get_hl(),
                    StackTarget::AF => self.registers.get_af(),
                };
                proof {
                    assert(value == old(self).spec_stack_value(target));
                }
                self.push(value);
                let rv = self.pc.wrapping_add(1);
                proof {
                    reveal(CPU::spec_execute_rel);
                    assert(CPU::spec_execute_rel(*old(self), *self, instruction, rv));
                }
                rv
            },
            Instruction::Pop(target) => {
                let result = self.pop();
                match target {
                    StackTarget::BC => self.registers.set_bc(result),
                    StackTarget::DE => self.registers.set_de(result),
                    StackTarget::HL => self.registers.set_hl(result),
                    StackTarget::AF => self.registers.set_af(result),
                }
                let rv = self.pc.wrapping_add(1);
                proof {
                    reveal(CPU::spec_execute_rel);
                    assert(CPU::spec_execute_rel(*old(self), *self, instruction, rv));
                }
                rv
            },
            Instruction::Rst(npc) => {
                let ret = self.pc.wrapping_add(1);
                proof {
                    lemma_u16_mask_bounds(ret);
                    assert(ret == spec_wadd16(old(self).pc, 1));
                    assert((ret >> 8) as u8 == (spec_wadd16(old(self).pc, 1) >> 8) as u8);
                    assert((ret & 0xFF) as u8 == (spec_wadd16(old(self).pc, 1) & 0xFF) as u8);
                }
                self.push(ret);
                self.pc = match npc {
                    RstTarget::Rst00H => 0x00,
                    RstTarget::Rst08H => 0x08,
                    RstTarget::Rst10H => 0x10,
                    RstTarget::Rst18H => 0x18,
                    RstTarget::Rst20H => 0x20,
                    RstTarget::Rst28H => 0x28,
                    RstTarget::Rst30H => 0x30,
                    RstTarget::Rst38H => 0x38,
                };
                let rv = self.pc;
                proof {
                    reveal(CPU::spec_execute_rel);
                    assert(CPU::spec_execute_rel(*old(self), *self, instruction, rv));
                }
                rv
            },
            _ => 0,
        }
    }
}

impl CPU {
    /// The CPU after the delayed `EI`/`DI` staging counters tick down:
    /// each positive counter decrements, and on reaching zero applies its
    /// effect to the interrupt master enable, `DI` first.
    pub open spec fn spec_update_ime(pre: CPU) -> CPU {
        let s1 = if pre.di > 0 {
            if pre.di == 1 {
                CPU { di: 0, interrupt_master_enable: false, ..pre }
            } else {
                CPU { di: (pre.di - 1) as u8, ..pre }
            }
        } else {
            pre
        };
        if s1.ei > 0 {
            if s1.ei == 1 {
                CPU { ei: 0, interrupt_master_enable: true, ..s1 }
            } else {
                CPU { ei: (s1.ei - 1) as u8, ..s1 }
            }
        } else {
            s1
        }
    }

    fn update_ime(&mut self)
        ensures
            *final(self) == CPU::spec_update_ime(*old(self)),
    {
        if self.di > 0 {
            self.di -= 1;
            if self.di == 0 {
                self.interrupt_master_enable = false;
            }
        }
        if self.ei > 0 {
            self.ei -= 1;
            if self.ei == 0 {
                self.interrupt_master_enable = true;
            }
        }
    }

    /// The pending-and-enabled interrupt bits: `IF & IE`, restricted to
    /// the five defined interrupts.
    pub open spec fn spec_pending(pre: CPU) -> u8 {
        (pre.bus.interrupt_flags & pre.bus.interrupt_enabled & 0x1F) as u8
    }

    /// The index of the lowest set bit among the five interrupt bits:
    /// vertical blank first, then LCD status, timer, serial, joypad.
    pub open spec fn spec_irq_index(p: u8) -> u8 {
        if p & 1 != 0 {
            0
        } else if p & 2 != 0 {
            1
        } else if p & 4 != 0 {
            2
        } else if p & 8 != 0 {
            3
        } else {
            4
        }
    }

    /// Whether `post` and `r` are the outcome of the interrupt check
    /// before a fetch. With the master enable off and the CPU running,
    /// nothing happens. A pending enabled interrupt always wakes a halted
    /// CPU; with the master enable on it is also dispatched: its `IF` bit
    /// is cleared, the master enable drops, `PC` is pushed, `PC` jumps to
    /// the interrupt's vector, and five M-cycles are consumed.
    pub open spec fn spec_dispatch_rel(pre: CPU, post: CPU, r: u16) -> bool {
        if !pre.interrupt_master_enable && !pre.halt {
            post == pre && r == 0
        } else if CPU::spec_pending(pre) == 0 {
            post == pre && r == 0
        } else if !pre.interrupt_master_enable {
            post == (CPU { halt: false, ..pre }) && r == 0
        } else {
            let k = CPU::spec_irq_index(CPU::spec_pending(pre));
            let flag = (1u8 << k) as u8;
            let busa = MemoryBus {
                interrupt_flags: (pre.bus.interrupt_flags & !flag) as u8,
                ..pre.bus
            };
            let vector = (0x40 + 8 * k as u16) as u16;
            &&& r == 5
            &&& post == (CPU {
                halt: false,
                interrupt_master_enable: false,
                pc: vector,
                sp: spec_wadd16(pre.sp, -2),
                bus: post.bus,
                ..pre
            })
            &&& exists|mid: MemoryBus|
                #[trigger] MemoryBus::spec_write_rel(
                    busa,
                    mid,
                    spec_wadd16(pre.sp, -1),
                    (pre.pc >> 8) as u8,
                ) && MemoryBus::spec_write_rel(
                    mid,
                    post.bus,
                    spec_wadd16(pre.sp, -2),
                    (pre.pc & 0xFF) as u8,
                )
        }
    }

    /// Check for a pending enabled interrupt and dispatch it; returns the
    /// M-cycles consumed, zero when nothing is dispatched.
    pub fn stat_interruption(&mut self) -> (r: u16)
        requires
            old(self).wf(),
        ensures
            final(self).wf(),
            CPU::spec_dispatch_rel(*old(self), *final(self), r),
            r == 0 || r == 5,
    {
        if !self.interrupt_master_enable && !self.halt {
            return 0;
        }
        let interruption = self.bus.interrupt_flags & self.bus.interrupt_enabled & 0x1F;
        if interruption == 0 {
            return 0;
        }
        self.halt = false;
        if !self.interrupt_master_enable {
            return 0;
        }
        self.interrupt_master_enable = false;
        let k: u8 = if interruption & 1 != 0 {
            0
        } else if interruption & 2 != 0 {
            1
        } else if interruption & 4 != 0 {
            2
        } else if interruption & 8 != 0 {
            3
        } else {
            4
        };
        let flag: u8 = 1u8 << k;
        self.bus.reset_interrupt(flag);
        let pc = self.pc;
        proof {
            lemma_u16_mask_bounds(pc);
        }
        self.push(pc);
        self.pc = 0x40 + 8 * k as u16;
        5
    }

    /// One decoded instruction executed from `pre`, with the next program
    /// counter `r` stored: the glue between [`CPU::spec_execute_rel`] and
    /// the fetch loop.
    pub open spec fn spec_steps_to(pre: CPU, mid: CPU, post: CPU, i: Instruction, r: u16) -> bool {
        CPU::spec_execute_rel(pre, mid, i, r) && post == (CPU { pc: r, ..mid })
    }

    /// Whether `post` is `pre` after one fetch-decode-execute step: the
    /// byte at `PC` selects the table (a `0xCB` byte switches to the
    /// prefixed one), a decoded instruction executes with its base cycle
    /// count and stores the next `PC`, and an undefined opcode latches a
    /// fault instead of making progress.
    /// The opcode byte one fetch decodes, and whether it came through the
    /// `0xCB` prefix.
    pub open spec fn spec_fetch(pre: CPU) -> (u8, bool) {
        let b0 = pre.bus.spec_read_byte(pre.pc);
        if b0 == 0xCB {
            (pre.bus.spec_read_byte(spec_wadd16(pre.pc, 1)), true)
        } else {
            (b0, false)
        }
    }

    pub open spec fn spec_step_rel(pre: CPU, post: CPU) -> bool {
        let f = CPU::spec_fetch(pre);
        let d = spec_decode(f.0, f.1);
        if d.0 is Some {
            exists|i: Instruction, mid: CPU, r: u16|
                #[trigger] CPU::spec_steps_to(CPU { cycle: d.1, ..pre }, mid, post, i, r)
                    && d.0 == Some(i)
        } else {
            post == (CPU {
                cycle: d.1,
                fault: Some(Fault { pc: pre.pc, opcode: f.0, prefixed: f.1 }),
                ..pre
            })
        }
    }

    /// Fetch, decode and execute one instruction.
    #[verifier::rlimit(100)]
    pub fn step(&mut self)
        requires
            old(self).wf(),
        ensures
            final(self).wf(),
            CPU::spec_step_rel(*old(self), *final(self)),
            1 <= final(self).cycle <= 8,
    {
        let mut instruction_byte = self.bus.read_byte(self.pc);
        let prefixed = instruction_byte == 0xCB;
        if prefixed {
            instruction_byte = self.bus.read_byte(self.pc.wrapping_add(1));
        }
        let (instruction, cycle) = Instruction::from_byte(instruction_byte, prefixed);
        self.cycle = cycle;
        match instruction {
            Some(inst) => {
                proof {
                    assert(*self == (CPU { cycle, ..*old(self) }));
                }
                let next_pc = self.execute(inst);
                let ghost midg = *self;
                self.pc = next_pc;
                proof {
                    let pre = *old(self);
                    let f = CPU::spec_fetch(pre);
                    let d = spec_decode(f.0, f.1);
                    assert(f.1 == prefixed && f.0 == instruction_byte);
                    assert(d.0 == Some(inst) && d.1 == cycle);
                    assert(*self == (CPU { pc: next_pc, ..midg }));
                    assert(CPU::spec_steps_to(
                        CPU { cycle: d.1, ..pre },
                        midg,
                        *self,
                        inst,
                        next_pc,
                    ));
                    assert(exists|i: Instruction, mid: CPU, r: u16|
                        #[trigger] CPU::spec_steps_to(CPU { cycle: d.1, ..pre }, mid, *self, i, r)
                            && d.0 == Some(i));
                    assert(CPU::spec_step_rel(*old(self), *self));
                }
            },
            None => {
                self.fault = Some(Fault { pc: self.pc, opcode: instruction_byte, prefixed });
                proof {
                    assert(CPU::spec_step_rel(*old(self), *self));
                }
            },
        }
    }

    /// Whether `post` and the cycle count `r` are the outcome of one full
    /// machine step: the `EI`/`DI` staging ticks, then either an
    /// interrupt dispatches (5 M-cycles), a halted CPU idles (1 M-cycle),
    /// or one instruction executes; finally the bus advances by the
    /// M-cycles consumed.
    pub open spec fn spec_run_rel(pre: CPU, post: CPU, r: u8) -> bool {
        let s1 = CPU::spec_update_ime(pre);
        exists|s2: CPU, rd: u16, s3: CPU|
            #![trigger CPU::spec_dispatch_rel(s1, s2, rd), MemoryBus::spec_run_rel(s3.bus, post.bus, r)]
            {
                &&& CPU::spec_dispatch_rel(s1, s2, rd)
                &&& if rd > 0 {
                    s3 == (CPU { cycle: 5, ..s2 })
                } else if s2.halt {
                    s3 == (CPU { cycle: 1, ..s2 })
                } else {
                    CPU::spec_step_rel(s2, s3)
                }
                &&& r == s3.cycle
                &&& post == (CPU { bus: post.bus, ..s3 })
                &&& MemoryBus::spec_run_rel(s3.bus, post.bus, r)
            }
    }

    /// One machine step: dispatch an interrupt, idle while halted, or run
    /// one instruction; advance the bus; return the M-cycles consumed.
    pub fn run(&mut self) -> (r: u8)
        requires
            old(self).wf(),
        ensures
            final(self).wf(),
            CPU::spec_run_rel(*old(self), *final(self), r),
            r == final(self).cycle,
            1 <= r <= 8,
    {
        self.update_ime();
        let interrupt = self.stat_interruption();
        let ghost s2g = *self;
        let ghost rdg = interrupt;
        if interrupt > 0 {
            self.cycle = 5;
        } else {
            if self.halt {
                self.cycle = 1;
            } else {
                self.step();
            }
        }
        let ghost s3g = *self;
        let cycle = self.cycle;
        self.bus.run(cycle);
        proof {
            assert(CPU::spec_dispatch_rel(CPU::spec_update_ime(*old(self)), s2g, rdg));
            assert(MemoryBus::spec_run_rel(s3g.bus, final(self).bus, cycle));
        }
        cycle
    }
}

/// The plain RAM windows whose bytes read back exactly as written: the
/// work RAM (the echo range folds onto it) and the high RAM.
pub open spec fn spec_plain_ram(a: u16) -> bool {
    (0xC000 <= a && a < 0xFE00) || (0xFF80 <= a && a <= 0xFFFE)
}

/// A `PUSH` onto a well-formed stack, one whose two stack bytes lie in
/// plain RAM, is undone exactly by the following `POP`: the popped word is
/// the pushed word, and `SP` returns to its pre-push value. The
/// hypotheses are the postcondition of [`CPU::push`].
pub proof fn lemma_push_pop_roundtrip(pre: CPU, post: CPU, v: u16)
    requires
        pre.wf(),
        spec_plain_ram(spec_wadd16(pre.sp, -1)),
        spec_plain_ram(spec_wadd16(pre.sp, -2)),
        post == (CPU { sp: spec_wadd16(pre.sp, -2), bus: post.bus, ..pre }),
        exists|mid: MemoryBus|
            #[trigger] MemoryBus::spec_write_rel(
                pre.bus,
                mid,
                spec_wadd16(pre.sp, -1),
                (v >> 8) as u8,
            ) && MemoryBus::spec_write_rel(
                mid,
                post.bus,
                spec_wadd16(pre.sp, -2),
                (v & 0xFF) as u8,
            ),
    ensures
        post.spec_stack_top() == v,
        spec_wadd16(post.sp, 2) == pre.sp,
{
    let a1 = spec_wadd16(pre.sp, -1);
    let a2 = spec_wadd16(pre.sp, -2);
    let hi = (v >> 8) as u8;
    let lo = (v & 0xFF) as u8;
    let mid = choose|mid: MemoryBus|
        #[trigger] MemoryBus::spec_write_rel(pre.bus, mid, a1, hi)
            && MemoryBus::spec_write_rel(mid, post.bus, a2, lo);
    crate::cartridge::lemma_mask_bounds(a1);
    crate::cartridge::lemma_mask_bounds(a2);
    assert(a1 == a2 + 1);
    assert(mid.spec_read_byte(a1) == hi);
    assert(post.bus.spec_read_byte(a2) == lo);
    if (0xC000 <= a1 && a1 < 0xFE00) && (0xC000 <= a2 && a2 < 0xFE00) {
        assert(a1 & 0x1FFF != a2 & 0x1FFF) by (bit_vector)
            requires
                a1 == a2 + 1,
                a2 < 0xFFFF,
        ;
    }
    if (0xFF80 <= a1 && a1 <= 0xFFFE) && (0xFF80 <= a2 && a2 <= 0xFFFE) {
        assert(a1 & 0x007F != a2 & 0x007F) by (bit_vector)
            requires
                a1 == a2 + 1,
                a2 < 0xFFFF,
        ;
    }
    assert(post.bus.spec_read_byte(a1) == hi);
    assert(spec_wadd16(post.sp, 1) == a1);
    assert(spec_pair(hi, lo) == v) by (bit_vector)
        requires
            hi == (v >> 8) as u8,
            lo == (v & 0xFF) as u8,
    ;
}

/// Popping the word that `PUSH AF` produced back into `AF` restores the
/// register file exactly: the accumulator returns unchanged, and the flag
/// byte round-trips because its low nibble is zero by construction.
pub proof fn lemma_pop_af_restores(regs: Registers)
    ensures
        regs.spec_set_af(regs.spec_af()) == regs,
{
    crate::registers::lemma_pair_split(regs.a, regs.f.spec_to_byte());
    crate::registers::lemma_flags_roundtrip(regs.f);
}

/// Masking a 16-bit value keeps it below the mask's power of two.
pub proof fn lemma_u16_mask_bounds(a: u16)
    ensures
        a & 0xFFF < 0x1000,
        a & 0xFF < 0x100,
        a & 0xF < 0x10,
        a >> 8 < 0x100,
{
    assert(a & 0xFFF < 0x1000 && a & 0xFF < 0x100 && a & 0xF < 0x10 && a >> 8 < 0x100)
        by (bit_vector);
}

/// `A` and the flags after a decimal adjust: in add mode a high
/// correction of `0x60` applies when `C` is set or `A` exceeds `0x99`
/// (setting `C`), and a low correction of `0x06` when `H` is set or the
/// low nibble exceeds 9; in subtract mode the corrections apply exactly
/// when `C` and `H` are set. `Z` follows the adjusted value, `H` clears.
pub open spec fn spec_daa(a: u8, f: Flags) -> (u8, Flags) {
    if !f.subtract {
        let high = f.carry || a > 0x99;
        let a1 = if high {
            spec_w8(a + 0x60)
        } else {
            a
        };
        let a2 = if f.half_carry || a & 0x0F > 0x09 {
            spec_w8(a1 + 0x06)
        } else {
            a1
        };
        (a2, Flags { zero: a2 == 0, subtract: false, half_carry: false, carry: f.carry || high })
    } else {
        let a1 = if f.carry {
            spec_w8(a - 0x60)
        } else {
            a
        };
        let a2 = if f.half_carry {
            spec_w8(a1 - 0x06)
        } else {
            a1
        };
        (a2, Flags { zero: a2 == 0, subtract: true, half_carry: false, carry: f.carry })
    }
}

/// 16-bit wrap-around addition of a byte taken as a signed offset.
fn wadd_signed(a: u16, off: u8) -> (r: u16)
    ensures
        r == spec_wadd16(a, off as i8 as int),
{
    if off < 0x80 {
        let r = a.wrapping_add(off as u16);
        proof {
            assert(off as i8 as int == off as int) by (bit_vector)
                requires
                    off < 0x80,
            ;
        }
        r
    } else {
        let r = a.wrapping_add(off as u16).wrapping_sub(256);
        proof {
            assert(off as i8 as int == off as int - 256) by (bit_vector)
                requires
                    off >= 0x80,
            ;
        }
        r
    }
}

} // verus!
