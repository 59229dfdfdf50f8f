//! The interval timer: a free-running 16-bit divider feeding an 8-bit
//! interval counter with edge-triggered increment and a 4-tick delayed
//! overflow.
//!
//! Every hardware tick increments the divider. A frequency-select
//! field of the control byte picks one divider bit (bit 9, 3, 5 or 7),
//! which is and-ed with the control byte's enable bit; the interval
//! counter increments exactly once per falling edge of that and-gate
//! output. When the counter would wrap from 0xFF it instead reads 0x00
//! for 4 ticks; on the 4th tick it is reloaded from the reload register
//! and the timer interrupt is raised. A write to the counter register
//! strictly before that 4th tick cancels the pending reload and takes
//! effect immediately; a write to the reload register during the window
//! is deferred until the reload has happened.

use vstd::prelude::*;

verus! {

/// Timer state. `div` is the free-running divider, `tima` the interval
/// counter, `tma` the reload value and `tac` the control byte (bit 2
/// enable, bits 1..0 frequency select). `edge` latches the previous
/// and-gate output for falling-edge detection; `tima_overflow` with
/// `overflow_cycle` tracks the 4-tick reload delay, and a reload-value
/// write arriving during that delay is parked in `pending_tma`.
#[derive(Clone, Copy, PartialEq, Eq, Structural, Debug)]
pub struct Timer {
    pub div: u16,
    pub tima: u8,
    pub tma: u8,
    pub tac: u8,
    pub edge: bool,
    pub tima_overflow: bool,
    pub overflow_cycle: u8,
    pub pending_tma: u8,
    pub has_pending_tma: bool,
}

/// The divider bit selected by the control byte's 2-bit frequency
/// code: 0b00 picks bit 9, 0b01 bit 3, 0b10 bit 5, 0b11 bit 7.
pub open spec fn spec_freq_bit(tac: u8) -> u16 {
    let code = tac & 0x03;
    if code == 0 { 9 } else if code == 1 { 3 } else if code == 2 { 5 } else { 7 }
}

/// The and-gate output: the selected divider bit and-ed with the
/// control byte's enable bit (bit 2).
pub open spec fn spec_and_result(div: u16, tac: u8) -> bool {
    (div >> spec_freq_bit(tac)) & 1 == 1 && tac & 0x04 != 0
}

/// Whether applying one tick to `t` sees a falling edge of the
/// and-gate output (latched 1, new output 0), computed against the
/// already-incremented divider.
pub open spec fn spec_falling_edge(t: Timer) -> bool {
    t.edge && !spec_and_result(t.div.wrapping_add(1), t.tac)
}

/// One hardware tick of the timer: increment the divider; if an
/// overflow is in progress, either advance its delay counter or, on
/// the 4th tick, reload the counter from the reload register (applying
/// a deferred reload-value write afterwards) and raise the interrupt;
/// then increment the counter on a falling edge of the and-gate
/// output, entering the overflow state when it would wrap from 0xFF;
/// finally latch the and-gate output.
pub open spec fn spec_tick(t: Timer) -> (Timer, bool) {
    let t1 = Timer { div: t.div.wrapping_add(1), ..t };
    let (t2, irq): (Timer, bool) = if t1.tima_overflow {
        if t1.overflow_cycle >= 4 {
            (Timer {
                tima: t1.tma,
                tma: if t1.has_pending_tma { t1.pending_tma } else { t1.tma },
                has_pending_tma: false,
                tima_overflow: false,
                overflow_cycle: 0,
                ..t1
            }, true)
        } else {
            (Timer { overflow_cycle: (t1.overflow_cycle + 1) as u8, ..t1 }, false)
        }
    } else {
        (t1, false)
    };
    let ar = spec_and_result(t2.div, t2.tac);
    let t3 = if t2.edge && !ar {
        if t2.tima == 0xFF && !t2.tima_overflow {
            Timer { tima_overflow: true, overflow_cycle: 1, tima: 0, ..t2 }
        } else {
            Timer { tima: t2.tima.wrapping_add(1), ..t2 }
        }
    } else {
        t2
    };
    (Timer { edge: ar, ..t3 }, irq)
}

/// The timer state after `n` ticks.
pub open spec fn spec_run(t: Timer, n: nat) -> Timer
    decreases n,
{
    if n == 0 {
        t
    } else {
        spec_tick(spec_run(t, (n - 1) as nat)).0
    }
}

/// How many of the first `n` ticks from state `t` see a falling edge
/// of the and-gate output.
pub open spec fn spec_falling_edges(t: Timer, n: nat) -> nat
    decreases n,
{
    if n == 0 {
        0
    } else {
        spec_falling_edges(t, (n - 1) as nat)
            + if spec_falling_edge(spec_run(t, (n - 1) as nat)) { 1nat } else { 0nat }
    }
}

/// The effect of writing the interval counter register: before the 4th
/// overflow tick the write cancels any pending reload and interrupt and
/// lands in the counter; on the tick on which the reload is due it is
/// discarded.
pub open spec fn spec_write_tima(t: Timer, new_value: u8) -> Timer {
    if t.tima_overflow && t.overflow_cycle >= 4 {
        t
    } else {
        Timer { tima: new_value, tima_overflow: false, overflow_cycle: 0, ..t }
    }
}

/// The effect of writing the reload register: deferred while an
/// overflow is in progress, immediate otherwise.
pub open spec fn spec_write_tma(t: Timer, new_value: u8) -> Timer {
    if t.tima_overflow {
        Timer { pending_tma: new_value, has_pending_tma: true, ..t }
    } else {
        Timer { tma: new_value, ..t }
    }
}

/// The timer's initial state: everything zero, nothing latched or
/// pending.
pub open spec fn spec_timer_new() -> Timer {
    Timer {
        div: 0,
        tima: 0,
        tma: 0,
        tac: 0,
        edge: false,
        tima_overflow: false,
        overflow_cycle: 0,
        pending_tma: 0,
        has_pending_tma: false,
    }
}

impl Timer {
    pub fn new() -> (r: Timer)
        ensures
            r == spec_timer_new(),
            r == (Timer {
                div: 0,
                tima: 0,
                tma: 0,
                tac: 0,
                edge: false,
                tima_overflow: false,
                overflow_cycle: 0,
                pending_tma: 0,
                has_pending_tma: false,
            }),
    {
        Timer {
            div: 0,
            tima: 0,
            tma: 0,
            tac: 0,
            edge: false,
            tima_overflow: false,
            overflow_cycle: 0,
            pending_tma: 0,
            has_pending_tma: false,
        }
    }

    /// One hardware tick; returns whether the tick raised the timer
    /// interrupt (the delayed reload completed on this tick).
    pub fn tick(&mut self) -> (r: bool)
        ensures
            *final(self) == spec_tick(*old(self)).0,
            r == spec_tick(*old(self)).1,
    {
        let mut timer_interrupt = false;

        self.div = self.div.wrapping_add(1);

        if self.tima_overflow {
            if self.overflow_cycle >= 4 {
                self.tima = self.tma;
                if self.has_pending_tma {
                    self.tma = self.pending_tma;
                }
                self.has_pending_tma = false;
                timer_interrupt = true;
                self.overflow_cycle = 0;
                self.tima_overflow = false;
            } else {
                self.overflow_cycle = self.overflow_cycle + 1;
            }
        }

        let tac_lower: u8 = self.tac & 0b00000011;
        let bit_pos: u16 = if tac_lower == 0b00 {
            9
        } else if tac_lower == 0b01 {
            3
        } else if tac_lower == 0b10 {
            5
        } else {
            7
        };
        let div_bit: u16 = (self.div >> bit_pos) & 1;
        let timer_enable: bool = self.tac & 0b00000100 != 0;

        let and_result: bool = div_bit == 1 && timer_enable;

        if self.edge && !and_result {
            if self.tima == 0xFF && !self.tima_overflow {
                self.tima_overflow = true;
                self.overflow_cycle = 1;
                self.tima = 0;
            } else {
                self.tima = self.tima.wrapping_add(1);
            }
        }
        self.edge = and_result;

        timer_interrupt
    }

    /// Up to four hardware ticks, stopping after the first one that
    /// raises the timer interrupt: returns whether one did, and how
    /// many of the four ticks were not consumed.
    pub fn m_tick(&mut self) -> (r: (bool, u8))
        ensures
            ({
                let (t1, i1) = spec_tick(*old(self));
                let (t2, i2) = spec_tick(t1);
                let (t3, i3) = spec_tick(t2);
                let (t4, i4) = spec_tick(t3);
                if i1 {
                    *final(self) == t1 && r == (true, 3u8)
                } else if i2 {
                    *final(self) == t2 && r == (true, 2u8)
                } else if i3 {
                    *final(self) == t3 && r == (true, 1u8)
                } else if i4 {
                    *final(self) == t4 && r == (true, 0u8)
                } else {
                    *final(self) == t4 && r == (false, 0u8)
                }
            }),
    {
        if self.tick() {
            return (true, 3);
        }
        if self.tick() {
            return (true, 2);
        }
        if self.tick() {
            return (true, 1);
        }
        if self.tick() {
            return (true, 0);
        }
        (false, 0)
    }

    /// The externally visible divider register: the divider's high
    /// byte.
    pub fn read_div(&self) -> (r: u8)
        ensures
            r == (self.div >> 8) as u8,
    {
        (self.div >> 8) as u8
    }

    /// Any write to the divider register resets the divider to 0; the
    /// written value is ignored.
    pub fn write_div(&mut self, byte: u8)
        ensures
            *final(self) == (Timer { div: 0, ..*old(self) }),
    {
        let _ = byte;
        self.div = 0;
    }

    /// Write the interval counter register. Strictly before the 4th
    /// overflow tick this cancels the pending reload and interrupt and
    /// takes effect immediately; on the tick on which the reload is due
    /// the write is discarded and the reload wins.
    pub fn write_tima(&mut self, new_value: u8)
        ensures
            *final(self) == spec_write_tima(*old(self), new_value),
    {
        if !(self.tima_overflow && self.overflow_cycle >= 4) {
            self.tima_overflow = false;
            self.overflow_cycle = 0;
            self.tima = new_value;
        }
    }

    /// Write the reload register. During the overflow window the write
    /// is deferred and has no effect until the pending reload has
    /// completed; otherwise it takes effect immediately.
    pub fn write_tma(&mut self, new_value: u8)
        ensures
            *final(self) == spec_write_tma(*old(self), new_value),
    {
        if self.tima_overflow {
            self.pending_tma = new_value;
            self.has_pending_tma = true;
        } else {
            self.tma = new_value;
        }
    }
}

/// Falling-edge counting: as long as the interval counter does not
/// reach its wrap (no overflow begins), running `n` ticks increases the
/// counter by exactly the number of falling edges seen, one increment
/// per edge.
pub proof fn lemma_edge_counting(t: Timer, n: nat)
    requires
        !t.tima_overflow,
        t.tima + spec_falling_edges(t, n) <= 0xFF,
    ensures
        !spec_run(t, n).tima_overflow,
        spec_run(t, n).tima == t.tima + spec_falling_edges(t, n),
        spec_run(t, n).tma == t.tma,
    decreases n,
{
    if n > 0 {
        lemma_falling_edges_monotone(t, (n - 1) as nat, n);
        lemma_edge_counting(t, (n - 1) as nat);
        let prev = spec_run(t, (n - 1) as nat);
        assert(spec_run(t, n) == spec_tick(prev).0);
        if spec_falling_edge(prev) {
            assert(spec_falling_edges(t, n) == spec_falling_edges(t, (n - 1) as nat) + 1);
            assert(prev.tima < 0xFF);
        }
    }
}

/// The number of falling edges seen over a run never decreases as the
/// run grows.
pub proof fn lemma_falling_edges_monotone(t: Timer, m: nat, n: nat)
    requires
        m <= n,
    ensures
        spec_falling_edges(t, m) <= spec_falling_edges(t, n),
    decreases n,
{
    if m < n {
        lemma_falling_edges_monotone(t, m, (n - 1) as nat);
    }
}

/// The 4-tick overflow delay: from the state just after the counter
/// crossed 0xFF to 0x00 (the crossing tick itself raised no
/// interrupt), the next three ticks raise no timer interrupt and the
/// 4th does, reloading the counter from the reload register in effect
/// at the crossing.
pub proof fn lemma_overflow_interrupt_delay(t: Timer)
    requires
        t.tima_overflow,
        t.overflow_cycle == 1,
        !t.has_pending_tma,
    ensures
        !spec_tick(spec_run(t, 0)).1,
        !spec_tick(spec_run(t, 1)).1,
        !spec_tick(spec_run(t, 2)).1,
        spec_tick(spec_run(t, 3)).1,
        !spec_falling_edge(spec_run(t, 3)) ==> !spec_run(t, 4).tima_overflow
            && spec_run(t, 4).tima == t.tma,
{
    assert(spec_run(t, 1) == spec_tick(spec_run(t, 0)).0);
    assert(spec_run(t, 2) == spec_tick(spec_run(t, 1)).0);
    assert(spec_run(t, 3) == spec_tick(spec_run(t, 2)).0);
    assert(spec_run(t, 4) == spec_tick(spec_run(t, 3)).0);
}

} // verus!
