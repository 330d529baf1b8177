//! Programmable timer: the free-running divider `DIV`, the counter `TIMA`
//! with its reload value `TMA` and control byte `TAC`, and the timer
//! interrupt latch.
//!
//! `tick` amounts are T-cycles. `DIV` steps once per 256 T-cycles; `TIMA`
//! counts only while bit 2 of `TAC` is set, at the period selected by the
//! low two bits of `TAC`. Several periods may elapse in one call, so the
//! counters loop until their accumulator is within one period.

use vstd::prelude::*;

verus! {

#[derive(Clone, Copy, PartialEq, Eq, Structural, Debug)]
pub struct Clock {
    pub div: u8,
    pub counter_div: u32,
    pub tima: u8,
    pub tma: u8,
    pub tac: u8,
    pub interrupt: u8,
    pub counter: u32,
}

/// The `TIMA` period in T-cycles selected by the low two bits of `TAC`.
pub open spec fn spec_tac_limit(tac: u8) -> u32 {
    if tac & 0x3 == 0 {
        1024
    } else if tac & 0x3 == 1 {
        16
    } else if tac & 0x3 == 2 {
        64
    } else {
        256
    }
}

/// `TIMA`, the interrupt latch and the accumulator after stepping whole
/// periods out of `counter`: each period increments `TIMA`; on the wrap to
/// zero `TIMA` reloads from `TMA` and bit 2 of the latch is raised.
pub open spec fn spec_tima_loop(tima: u8, tma: u8, intr: u8, counter: u32, limit: u32) -> (u8, u8, u32)
    decreases counter,
{
    if limit == 0 {
        (tima, intr, counter)
    } else if counter >= limit {
        if tima == 255 {
            spec_tima_loop(tma, tma, intr | 0x04, (counter - limit) as u32, limit)
        } else {
            spec_tima_loop((tima + 1) as u8, tma, intr, (counter - limit) as u32, limit)
        }
    } else {
        (tima, intr, counter)
    }
}

impl Clock {
    /// The divider accumulator stays within one `DIV` period.
    pub open spec fn wf(self) -> bool {
        self.counter_div < 256 && self.counter < 1024
    }

    /// Timer state at power-on: all registers and accumulators zero.
    pub fn new() -> (r: Clock)
        ensures
            r == (Clock { div: 0u8, counter_div: 0u32, tima: 0u8, tma: 0u8, tac: 0u8, interrupt: 0u8, counter: 0u32 }),
            r.wf(),
    {
        Clock { div: 0, counter_div: 0, tima: 0, tma: 0, tac: 0, interrupt: 0, counter: 0 }
    }

    /// The byte a CPU read of a timer register returns.
    pub open spec fn spec_read(self, address: u16) -> u8 {
        if address == 0xFF04 {
            self.div
        } else if address == 0xFF05 {
            self.tima
        } else if address == 0xFF06 {
            self.tma
        } else {
            self.tac
        }
    }

    pub fn read(&self, address: u16) -> (r: u8)
        requires
            0xFF04 <= address <= 0xFF07,
        ensures
            r == self.spec_read(address),
    {
        match address {
            0xFF04 => self.div,
            0xFF05 => self.tima,
            0xFF06 => self.tma,
            _ => self.tac,
        }
    }

    /// The timer after a CPU write: a write to the `DIV` address clears
    /// `DIV` and its accumulator; the other three registers store the byte.
    pub open spec fn spec_write(self, address: u16, value: u8) -> Clock {
        if address == 0xFF04 {
            Clock { div: 0, counter_div: 0, ..self }
        } else if address == 0xFF05 {
            Clock { tima: value, ..self }
        } else if address == 0xFF06 {
            Clock { tma: value, ..self }
        } else {
            Clock { tac: value, ..self }
        }
    }

    pub fn write(&mut self, address: u16, value: u8)
        requires
            0xFF04 <= address <= 0xFF07,
        ensures
            *final(self) == old(self).spec_write(address, value),
    {
        match address {
            0xFF04 => {
                self.div = 0;
                self.counter_div = 0;
            },
            0xFF05 => self.tima = value,
            0xFF06 => self.tma = value,
            _ => self.tac = value,
        }
    }

    /// The timer after `ticks` T-cycles: `DIV` advances one step per full
    /// 256 accumulated T-cycles; when bit 2 of `TAC` is set, `TIMA` steps
    /// per [`spec_tima_loop`] at the selected period.
    pub open spec fn spec_run(self, ticks: u32) -> Clock {
        let total_div = self.counter_div + ticks;
        let div2 = ((self.div + total_div / 256) % 256) as u8;
        let acc2 = (total_div % 256) as u32;
        if self.tac & 0x4 != 0 {
            let r = spec_tima_loop(self.tima, self.tma, self.interrupt, (self.counter + ticks) as u32,
                spec_tac_limit(self.tac));
            Clock { div: div2, counter_div: acc2, tima: r.0, interrupt: r.1, counter: r.2, ..self }
        } else {
            Clock { div: div2, counter_div: acc2, ..self }
        }
    }

    pub fn run(&mut self, ticks: u32)
        requires
            old(self).wf(),
            ticks <= 0xFFFF_0000,
        ensures
            *final(self) == old(self).spec_run(ticks),
            final(self).wf(),
    {
        self.counter_div += ticks;
        let total = self.counter_div;
        let ghost div0 = old(self).div;
        let mut k: Ghost<int> = Ghost(0);
        while self.counter_div >= 256
            invariant
                0 <= k@,
                self.counter_div == total - k@ * 256,
                self.div == ((div0 + k@) % 256) as u8,
                self.tima == old(self).tima,
                self.tma == old(self).tma,
                self.tac == old(self).tac,
                self.interrupt == old(self).interrupt,
                self.counter == old(self).counter,
            decreases self.counter_div,
        {
            self.div = self.div.wrapping_add(1);
            self.counter_div -= 256;
            proof {
                k@ = k@ + 1;
            }
        }
        proof {
            assert(k@ == total as int / 256);
            assert(self.counter_div == total % 256);
        }

        if self.tac & 0x4 != 0 {
            self.counter += ticks;
            let limit: u32 = match self.tac & 0x3 {
                0 => 1024,
                1 => 16,
                2 => 64,
                _ => 256,
            };
            assert(limit == spec_tac_limit(self.tac));
            let ghost fix = spec_tima_loop(self.tima, self.tma, self.interrupt, self.counter, limit);
            while self.counter >= limit
                invariant
                    limit == spec_tac_limit(self.tac),
                    limit >= 16,
                    spec_tima_loop(self.tima, self.tma, self.interrupt, self.counter, limit) == fix,
                    self.div == old(self).spec_run(ticks).div,
                    self.counter_div == old(self).spec_run(ticks).counter_div,
                    self.tma == old(self).tma,
                    self.tac == old(self).tac,
                decreases self.counter,
            {
                self.tima = self.tima.wrapping_add(1);
                if self.tima == 0 {
                    self.tima = self.tma;
                    self.interrupt |= 0x04;
                }
                self.counter -= limit;
            }
        }
    }
}

/// With the timer control disabled, any 256 accumulated T-cycles advance
/// `DIV` by exactly one step and return the accumulator to where it began.
pub proof fn lemma_div_step(c: Clock)
    requires
        c.wf(),
    ensures
        c.spec_run(256).div == ((c.div + 1) % 256) as u8,
        c.spec_run(256).counter_div == c.counter_div,
{
}

/// Stepping `n` whole `TIMA` periods without reaching the 8-bit wrap adds
/// exactly `n` to `TIMA` and raises no timer interrupt.
proof fn lemma_tima_no_wrap(tima: u8, tma: u8, intr: u8, rest: u32, limit: u32, n: nat)
    requires
        limit >= 1,
        rest < limit,
        tima + n <= 255,
        n * limit + rest <= u32::MAX,
    ensures
        spec_tima_loop(tima, tma, intr, (n * limit + rest) as u32, limit)
            == (((tima + n) as u8, intr, rest)),
    decreases n,
{
    if n == 0 {
        assert(n * limit == 0) by (nonlinear_arith)
            requires
                n == 0,
        ;
        assert((n * limit + rest) as u32 == rest);
        assert((tima + n) as u8 == tima);
        assert(spec_tima_loop(tima, tma, intr, rest, limit) == ((tima, intr, rest)));
    } else {
        let c: u32 = (n * limit + rest) as u32;
        assert(c >= limit) by (nonlinear_arith)
            requires
                n >= 1,
                limit >= 1,
                c == n * limit + rest,
        ;
        assert((c - limit) as u32 == (n - 1) * limit + rest) by (nonlinear_arith)
            requires
                c == n * limit + rest,
                n >= 1,
        ;
        assert(tima != 255);
        lemma_tima_no_wrap((tima + 1) as u8, tma, intr, rest, limit, (n - 1) as nat);
        assert(((n - 1) as nat * limit + rest) as u32 == (c - limit) as u32);
        assert(spec_tima_loop((tima + 1) as u8, tma, intr, (c - limit) as u32, limit)
            == ((((tima + 1) as u8 + (n - 1) as nat) as u8, intr, rest)));
        assert(spec_tima_loop(tima, tma, intr, c, limit)
            == spec_tima_loop((tima + 1) as u8, tma, intr, (c - limit) as u32, limit));
        assert(((tima + 1) as u8 + (n - 1) as nat) as u8 == (tima + n) as u8);
        assert(spec_tima_loop(tima, tma, intr, c, limit) == (((tima + n) as u8, intr, rest)));
    }
}

/// With `TAC = 0x04` (timer enabled, longest period), `N` periods worth of
/// T-cycles add exactly `N` to `TIMA`, and no timer interrupt is raised as
/// long as `TIMA` does not wrap.
pub proof fn lemma_tima_steps(c: Clock, n: u32)
    requires
        c.tac == 0x04,
        c.counter < 1024,
        c.tima + n <= 255,
        n <= 0x3FFFFF,
        c.counter_div + n * 1024 <= u32::MAX,
    ensures
        c.spec_run((n * 1024) as u32).tima == (c.tima + n) as u8,
        c.spec_run((n * 1024) as u32).interrupt == c.interrupt,
        c.spec_run((n * 1024) as u32).counter == c.counter,
{
    assert(0x04u8 & 0x4u8 != 0 && 0x04u8 & 0x3u8 == 0) by (bit_vector);
    assert(spec_tac_limit(0x04) == 1024);
    assert(c.counter + n * 1024 == n * 1024 + c.counter);
    lemma_tima_no_wrap(c.tima, c.tma, c.interrupt, c.counter, 1024, n as nat);
}

} // verus!
