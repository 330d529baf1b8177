//! The 16-bit memory bus: dispatches every CPU byte access to the
//! cartridge, the PPU, the work and high RAM, the joypad, the timer and
//! the interrupt registers, and fans the per-component interrupt latches
//! into the interrupt-flag byte once per tick.

use vstd::prelude::*;
use crate::cartridge::Cartridge;
use crate::clock::Clock;
use crate::gpu::GPU;
use crate::input::Input;
use crate::input::Key;

verus! {

pub struct MemoryBus {
    pub rom: Cartridge,
    pub wram: Vec<u8>,
    pub hram: Vec<u8>,
    pub gpu: GPU,
    pub interrupt_flags: u8,
    pub interrupt_enabled: u8,
    pub input: Input,
    pub clock: Clock,
}

impl MemoryBus {
    pub open spec fn wf(self) -> bool {
        &&& self.rom.wf()
        &&& self.wram@.len() == 0x2000
        &&& self.hram@.len() == 0x80
        &&& self.gpu.wf()
        &&& self.clock.wf()
    }

    /// A fresh bus around a parsed cartridge: RAM zeroed, peripherals at
    /// power-on, no interrupts pending or enabled.
    pub fn new(rom: Cartridge) -> (r: MemoryBus)
        requires
            rom.wf(),
        ensures
            r.wf(),
            r.rom == rom,
            r.interrupt_flags == 0 && r.interrupt_enabled == 0,
            r.wram@ == Seq::new(0x2000nat, |i: int| 0u8),
            r.hram@ == Seq::new(0x80nat, |i: int| 0u8),
            r.input == Input::spec_new(),
            r.clock == (Clock { div: 0u8, counter_div: 0u32, tima: 0u8, tma: 0u8, tac: 0u8, interrupt: 0u8, counter: 0u32 }),
            r.gpu.ly == 0 && r.gpu.lcdc == 0x91 && r.gpu.render_clock == 0 && r.gpu.interrupt == 0
                && !r.gpu.frame_ready,
    {
        MemoryBus {
            rom,
            wram: crate::memory::zero_bytes(0x2000),
            hram: crate::memory::zero_bytes(0x80),
            gpu: GPU::new(),
            interrupt_flags: 0,
            interrupt_enabled: 0,
            input: Input::new(),
            clock: Clock::new(),
        }
    }

    /// The byte a read returns, with the OAM bytes overridden by `oam`:
    /// the byte the bus would hand back if the PPU's sprite RAM held
    /// `oam`. The OAM-DMA copy is specified with this, because it reads
    /// its source through the normal bus path while it rewrites the OAM.
    pub open spec fn spec_read_byte_with_oam(self, oam: Seq<u8>, address: u16) -> u8 {
        if address < 0x8000 || (0xA000 <= address && address < 0xC000) {
            self.rom.spec_read_byte(address)
        } else if address < 0xA000 {
            self.gpu.vram@[(address & 0x1FFF) as int]
        } else if address < 0xFE00 {
            self.wram@[(address & 0x1FFF) as int]
        } else if address < 0xFEA0 {
            oam[(address & 0x00FF) as int]
        } else if address < 0xFF00 {
            0xFF
        } else if address == 0xFF00 {
            self.input.input_reg
        } else if 0xFF04 <= address && address <= 0xFF07 {
            self.clock.spec_read(address)
        } else if address == 0xFF0F {
            self.interrupt_flags
        } else if 0xFF40 <= address && address <= 0xFF4B {
            self.gpu.spec_read_lcd_reg(address)
        } else if 0xFF80 <= address && address <= 0xFFFE {
            self.hram@[(address & 0x007F) as int]
        } else if address == 0xFFFF {
            self.interrupt_enabled
        } else {
            0
        }
    }

    /// The byte a read of `address` returns. The echo range
    /// `0xE000..=0xFDFF` masks to the same work-RAM index as the
    /// corresponding `0xC000` address; the prohibited range
    /// `0xFEA0..=0xFEFF` reads `0xFF`; unmapped I/O reads 0.
    pub open spec fn spec_read_byte(self, address: u16) -> u8 {
        self.spec_read_byte_with_oam(self.gpu.oam@, address)
    }

    pub fn read_byte(&self, address: u16) -> (r: u8)
        requires
            self.wf(),
        ensures
            r == self.spec_read_byte(address),
    {
        proof {
            crate::cartridge::lemma_mask_bounds(address);
        }
        if address < 0x8000 || (0xA000 <= address && address < 0xC000) {
            self.rom.read_byte(address)
        } else if address < 0xA000 {
            self.gpu.read_vram(address)
        } else if address < 0xFE00 {
            self.wram[(address & 0x1FFF) as usize]
        } else if address < 0xFEA0 {
            proof {
                assert(address & 0x00FF < 0xA0) by (bit_vector)
                    requires
                        0xFE00 <= address < 0xFEA0,
                ;
            }
            self.gpu.read_oam(address)
        } else if address < 0xFF00 {
            0xFF
        } else if address == 0xFF00 {
            self.input.read()
        } else if 0xFF04 <= address && address <= 0xFF07 {
            self.clock.read(address)
        } else if address == 0xFF0F {
            self.interrupt_flags
        } else if 0xFF40 <= address && address <= 0xFF4B {
            self.gpu.read_lcd_reg(address)
        } else if 0xFF80 <= address && address <= 0xFFFE {
            self.hram[(address & 0x007F) as usize]
        } else if address == 0xFFFF {
            self.interrupt_enabled
        } else {
            0
        }
    }

    /// The OAM contents after the first `n` bytes of an OAM-DMA copy with
    /// page `base`: each step stores the byte the bus reads at
    /// `base + i`, seen through the OAM written so far.
    pub open spec fn spec_dma_oam(self, base: u16, n: int) -> Seq<u8>
        decreases n,
    {
        if n <= 0 {
            self.gpu.oam@
        } else {
            let prev = self.spec_dma_oam(base, n - 1);
            prev.update(n - 1, self.spec_read_byte_with_oam(prev, (base + n - 1) as u16))
        }
    }

    /// Whether `post` is `pre` after the OAM-DMA triggered by writing `v`:
    /// the 160 bytes from `v * 0x100` are copied into the OAM through the
    /// normal bus read path, and nothing else changes.
    pub open spec fn spec_dma_rel(pre: MemoryBus, post: MemoryBus, v: u8) -> bool {
        &&& post == (MemoryBus { gpu: post.gpu, ..pre })
        &&& post.gpu == (GPU { oam: post.gpu.oam, ..pre.gpu })
        &&& post.gpu.oam@ == pre.spec_dma_oam((v as u16 * 0x100) as u16, 160)
    }

    /// Whether `post` is `pre` after writing `v` at `address`: the ranges
    /// of [`MemoryBus::spec_read_byte`] updated symmetrically, except that
    /// the echo range folds onto the work RAM, the prohibited range and
    /// unmapped I/O drop the write, and `0xFF46` triggers the OAM-DMA
    /// copy.
    pub open spec fn spec_write_rel(pre: MemoryBus, post: MemoryBus, address: u16, v: u8) -> bool {
        if address < 0x8000 || (0xA000 <= address && address < 0xC000) {
            &&& post == (MemoryBus { rom: post.rom, ..pre })
            &&& Cartridge::spec_write_rel(pre.rom, post.rom, address, v)
        } else if address < 0xA000 {
            &&& post == (MemoryBus { gpu: post.gpu, ..pre })
            &&& post.gpu == (GPU { vram: post.gpu.vram, ..pre.gpu })
            &&& post.gpu.vram@ == pre.gpu.vram@.update((address & 0x1FFF) as int, v)
        } else if address < 0xFE00 {
            &&& post == (MemoryBus { wram: post.wram, ..pre })
            &&& post.wram@ == pre.wram@.update((address & 0x1FFF) as int, v)
        } else if address < 0xFEA0 {
            &&& post == (MemoryBus { gpu: post.gpu, ..pre })
            &&& post.gpu == (GPU { oam: post.gpu.oam, ..pre.gpu })
            &&& post.gpu.oam@ == pre.gpu.oam@.update((address & 0x00FF) as int, v)
        } else if address < 0xFF00 {
            post == pre
        } else if address == 0xFF00 {
            post == (MemoryBus { input: pre.input.spec_write(v), ..pre })
        } else if 0xFF04 <= address && address <= 0xFF07 {
            post == (MemoryBus { clock: pre.clock.spec_write(address, v), ..pre })
        } else if address == 0xFF0F {
            post == (MemoryBus { interrupt_flags: v, ..pre })
        } else if address == 0xFF46 {
            MemoryBus::spec_dma_rel(pre, post, v)
        } else if 0xFF40 <= address && address <= 0xFF4B {
            post == (MemoryBus { gpu: pre.gpu.spec_write_lcd_reg(address, v), ..pre })
        } else if 0xFF80 <= address && address <= 0xFFFE {
            &&& post == (MemoryBus { hram: post.hram, ..pre })
            &&& post.hram@ == pre.hram@.update((address & 0x007F) as int, v)
        } else if address == 0xFFFF {
            post == (MemoryBus { interrupt_enabled: v, ..pre })
        } else {
            post == pre
        }
    }

    pub fn write_byte(&mut self, address: u16, byte: u8)
        requires
            old(self).wf(),
        ensures
            final(self).wf(),
            MemoryBus::spec_write_rel(*old(self), *final(self), address, byte),
    {
        proof {
            crate::cartridge::lemma_mask_bounds(address);
        }
        if address < 0x8000 || (0xA000 <= address && address < 0xC000) {
            self.rom.write_byte(address, byte);
        } else if address < 0xA000 {
            self.gpu.write_vram(address, byte);
        } else if address < 0xFE00 {
            self.wram.set((address & 0x1FFF) as usize, byte);
        } else if address < 0xFEA0 {
            proof {
                assert(address & 0x00FF < 0xA0) by (bit_vector)
                    requires
                        0xFE00 <= address < 0xFEA0,
                ;
            }
            self.gpu.write_oam(address, byte);
        } else if address < 0xFF00 {
        } else if address == 0xFF00 {
            self.input.write(byte);
        } else if 0xFF04 <= address && address <= 0xFF07 {
            self.clock.write(address, byte);
        } else if address == 0xFF0F {
            self.interrupt_flags = byte;
        } else if address == 0xFF46 {
            self.dma_into_oam(byte);
        } else if 0xFF40 <= address && address <= 0xFF4B {
            self.gpu.write_lcd_reg(address, byte);
        } else if 0xFF80 <= address && address <= 0xFFFE {
            self.hram.set((address & 0x007F) as usize, byte);
        } else if address == 0xFFFF {
            self.interrupt_enabled = byte;
        }
    }

    /// Copy 160 bytes from page `dma_start * 0x100` into the OAM, reading
    /// each source byte through the normal bus path.
    fn dma_into_oam(&mut self, dma_start: u8)
        requires
            old(self).wf(),
        ensures
            final(self).wf(),
            MemoryBus::spec_dma_rel(*old(self), *final(self), dma_start),
    {
        let base: u16 = dma_start as u16 * 0x100;
        let mut i: u16 = 0;
        while i < 0xA0
            invariant
                old(self).wf(),
                0 <= i <= 0xA0,
                base == dma_start as u16 * 0x100,
                *self == (MemoryBus { gpu: self.gpu, ..*old(self) }),
                self.gpu == (GPU { oam: self.gpu.oam, ..old(self).gpu }),
                self.gpu.oam@.len() == 0xA0,
                self.gpu.oam@ == old(self).spec_dma_oam(base, i as int),
            decreases 0xA0 - i,
        {
            let ghost prev = self.gpu.oam@;
            let value = self.read_byte(base + i);
            proof {
                assert(self.spec_read_byte_with_oam(prev, (base + i) as u16)
                    == old(self).spec_read_byte_with_oam(prev, (base + i) as u16));
                assert(i & 0x00FF == i && i & 0x00FF < 0xA0) by (bit_vector)
                    requires
                        i < 0xA0,
                ;
            }
            self.gpu.write_oam(i, value);
            i += 1;
        }
    }

    /// A 16-bit read, little-endian: the low byte at `address`, the high
    /// byte at the following address.
    pub fn read_word(&self, address: u16) -> (r: u16)
        requires
            self.wf(),
            address < 0xFFFF,
        ensures
            r == self.spec_read_byte(address) as u16
                | (self.spec_read_byte((address + 1) as u16) as u16) << 8,
    {
        u16::from(self.read_byte(address)) | (u16::from(self.read_byte(address + 1)) << 8)
    }

    /// A 16-bit write, little-endian: the low byte at `address`, then the
    /// high byte at the following address.
    pub fn write_word(&mut self, addr: u16, word: u16)
        requires
            old(self).wf(),
            addr < 0xFFFF,
        ensures
            final(self).wf(),
            exists|mid: MemoryBus|
                #[trigger] MemoryBus::spec_write_rel(*old(self), mid, addr, word as u8)
                && MemoryBus::spec_write_rel(mid, *final(self), (addr + 1) as u16, (word >> 8) as u8),
    {
        proof {
            assert((word & 0xFF) as u8 == word as u8 && ((word >> 8) & 0xFF) as u8 == (word >> 8) as u8)
                by (bit_vector);
        }
        self.write_byte(addr, (word & 0xFF) as u8);
        let ghost mid = *self;
        self.write_byte(addr + 1, ((word >> 8) & 0xFF) as u8);
        proof {
            assert(MemoryBus::spec_write_rel(*old(self), mid, addr, word as u8));
        }
    }

    /// Whether `post` is `pre` after one bus tick of `cycle` M-cycles:
    /// the PPU advances by the M-cycles and the timer by four times as
    /// many T-cycles; each component's interrupt latch is ORed into the
    /// interrupt-flag byte and cleared.
    pub open spec fn spec_run_rel(pre: MemoryBus, post: MemoryBus, cycle: u8) -> bool {
        exists|g2: GPU|
            {
                let c2 = pre.clock.spec_run((4 * cycle) as u32);
                &&& #[trigger] GPU::spec_run_rel(pre.gpu, g2, cycle)
                &&& post == (MemoryBus {
                    gpu: post.gpu,
                    interrupt_flags: post.interrupt_flags,
                    input: post.input,
                    clock: post.clock,
                    ..pre
                })
                &&& post.gpu == (GPU { interrupt: 0u8, ..g2 })
                &&& post.input == (Input { interrupt: 0u8, ..pre.input })
                &&& post.clock == (Clock { interrupt: 0u8, ..c2 })
                &&& post.interrupt_flags == pre.interrupt_flags | g2.interrupt
                    | pre.input.interrupt | c2.interrupt
            }
    }

    /// Advance the peripherals by one instruction's M-cycles and collect
    /// their interrupt latches into `IF`.
    pub fn run(&mut self, cycle: u8)
        requires
            old(self).wf(),
            cycle <= 114,
        ensures
            final(self).wf(),
            MemoryBus::spec_run_rel(*old(self), *final(self), cycle),
    {
        self.gpu.run(cycle);
        let ghost g2 = self.gpu;
        self.interrupt_flags |= self.gpu.interrupt;
        self.gpu.interrupt = 0;

        self.interrupt_flags |= self.input.interrupt;
        self.input.interrupt = 0;

        self.clock.run(cycle as u32 * 4);
        proof {
            assert(cycle as u32 * 4 == (4 * cycle) as u32);
        }
        self.interrupt_flags |= self.clock.interrupt;
        self.clock.interrupt = 0;
        proof {
            assert(GPU::spec_run_rel(old(self).gpu, g2, cycle));
        }
    }

    /// Clear the given bits of the interrupt-flag byte, as the interrupt
    /// dispatcher does when it takes an interrupt.
    pub fn reset_interrupt(&mut self, flag: u8)
        ensures
            *final(self) == (MemoryBus {
                interrupt_flags: old(self).interrupt_flags & !flag,
                ..*old(self)
            }),
    {
        self.interrupt_flags = self.interrupt_flags & !flag;
    }

    /// Hand a host key event to the joypad.
    pub fn key_event(&mut self, key: Key)
        ensures
            *final(self) == (MemoryBus { input: old(self).input.spec_key_event(key), ..*old(self) }),
    {
        self.input.key_event(key);
    }
}

/// A zero-filled byte vector of the given length.
pub fn zero_bytes(n: usize) -> (r: Vec<u8>)
    ensures
        r@ == Seq::new(n as nat, |i: int| 0u8),
{
    let mut out: Vec<u8> = Vec::new();
    let mut i: usize = 0;
    while i < n
        invariant
            0 <= i <= n,
            out@ =~= Seq::new(i as nat, |j: int| 0u8),
        decreases n - i,
    {
        out.push(0);
        assert(out@ =~= Seq::new((i + 1) as nat, |j: int| 0u8));
        i += 1;
    }
    assert(out@ =~= Seq::new(n as nat, |j: int| 0u8));
    out
}

/// Reading and writing the echo range `0xE000..=0xFDFF` behaves exactly
/// like the corresponding `0xC000..=0xDDFF` work-RAM access: both mask to
/// the same work-RAM index.
pub proof fn lemma_echo_ram(b: MemoryBus, post: MemoryBus, address: u16, v: u8)
    requires
        0xE000 <= address <= 0xFDFF,
    ensures
        b.spec_read_byte(address) == b.spec_read_byte((address - 0x2000) as u16),
        MemoryBus::spec_write_rel(b, post, address, v)
            == MemoryBus::spec_write_rel(b, post, (address - 0x2000) as u16, v),
{
    let mirror = (address - 0x2000) as u16;
    assert(address & 0x1FFF == mirror & 0x1FFF) by (bit_vector)
        requires
            0xE000 <= address <= 0xFDFF,
            mirror == (address - 0x2000) as u16,
    ;
}

/// A write to high RAM is read back unchanged: the round trip through the
/// bus returns the byte written, for every byte and every HRAM address.
pub proof fn lemma_hram_roundtrip(pre: MemoryBus, post: MemoryBus, address: u16, v: u8)
    requires
        pre.wf(),
        0xFF80 <= address <= 0xFFFE,
        MemoryBus::spec_write_rel(pre, post, address, v),
    ensures
        post.spec_read_byte(address) == v,
{
    crate::cartridge::lemma_mask_bounds(address);
}

} // verus!
