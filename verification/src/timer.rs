//! The divider and the programmable timer.

use vstd::prelude::*;
use crate::address::Address;
use crate::utils::{get_bit, lemma_bits_as_arithmetic};

verus! {

pub const DIV: u16 = 0xFF04;

pub const TIMA: u16 = 0xFF05;

pub const TMA: u16 = 0xFF06;

pub const TAC: u16 = 0xFF07;

/// The four rates at which the timer can count, named by the clock ticks
/// that pass between two counts.
#[derive(Debug, Copy, Clone, PartialEq, Eq, Structural)]
pub enum ClockSelect {
    Div1024,
    Div16,
    Div64,
    Div256,
}

impl ClockSelect {
    pub open spec fn spec_period(self) -> int {
        match self {
            ClockSelect::Div1024 => 1024,
            ClockSelect::Div16 => 16,
            ClockSelect::Div64 => 64,
            ClockSelect::Div256 => 256,
        }
    }

    pub fn period(self) -> (r: usize)
        ensures
            r == self.spec_period(),
    {
        match self {
            ClockSelect::Div1024 => 1024,
            ClockSelect::Div16 => 16,
            ClockSelect::Div64 => 64,
            ClockSelect::Div256 => 256,
        }
    }
}

#[derive(Debug, Copy, Clone, PartialEq, Eq, Structural)]
pub struct Timer {
    /// Counts every clock tick; its upper byte is the divider register.
    pub divider: u16,
    pub timer_counter: u8,
    pub timer_modulo: u8,
    pub timer_control: u8,
    /// Clock ticks since the timer last counted.
    pub clock_counter: usize,
}

impl Timer {
    pub open spec fn inv(self) -> bool {
        self.clock_counter < 1024
    }

    pub open spec fn spec_new() -> Timer {
        Timer {
            divider: 0,
            timer_counter: 0,
            timer_modulo: 0,
            timer_control: 0,
            clock_counter: 0,
        }
    }

    /// Bit 2 of the control register switches the timer on.
    pub open spec fn spec_is_timer_enabled(self) -> bool {
        (self.timer_control / 4) % 2 == 1
    }

    /// Bits 0 and 1 of the control register pick the rate.
    pub open spec fn spec_clock_select(self) -> ClockSelect {
        let select = self.timer_control % 4;
        if select == 0 {
            ClockSelect::Div1024
        } else if select == 1 {
            ClockSelect::Div16
        } else if select == 2 {
            ClockSelect::Div64
        } else {
            ClockSelect::Div256
        }
    }

    pub open spec fn spec_read(self, addr: u16) -> u8 {
        if addr == DIV {
            (self.divider / 256) as u8
        } else if addr == TIMA {
            self.timer_counter
        } else if addr == TMA {
            self.timer_modulo
        } else {
            self.timer_control
        }
    }

    /// Any write to the divider clears the whole tick count behind it.
    pub open spec fn spec_write(self, addr: u16, value: u8) -> Timer {
        if addr == DIV {
            Timer { divider: 0, ..self }
        } else if addr == TIMA {
            Timer { timer_counter: value, ..self }
        } else if addr == TMA {
            Timer { timer_modulo: value, ..self }
        } else {
            Timer { timer_control: value, ..self }
        }
    }

    /// The timer after it counted once, and whether it ran over: past `0xFF`
    /// it starts again from the modulo.
    pub open spec fn spec_increment_timer_counter(self) -> (Timer, bool) {
        if self.timer_counter == 0xFF {
            (Timer { timer_counter: self.timer_modulo, ..self }, true)
        } else {
            (Timer { timer_counter: (self.timer_counter + 1) as u8, ..self }, false)
        }
    }

    /// The timer after one clock tick of the running timer, and whether it
    /// ran over.
    pub open spec fn spec_tick_clock(self) -> (Timer, bool) {
        let period = self.spec_clock_select().spec_period();
        if self.clock_counter + 1 < period {
            (Timer { clock_counter: (self.clock_counter + 1) as usize, ..self }, false)
        } else {
            (Timer {
                clock_counter: (self.clock_counter + 1 - period) as usize,
                ..self
            }).spec_increment_timer_counter()
        }
    }

    /// The timer after one clock tick, and whether it ran over.
    pub open spec fn spec_tick(self) -> (Timer, bool) {
        let t = Timer { divider: ((self.divider + 1) % 0x1_0000) as u16, ..self };
        if t.spec_is_timer_enabled() {
            t.spec_tick_clock()
        } else {
            (t, false)
        }
    }

    /// The timer after `ticks` clock ticks, and whether it ran over at any of
    /// them.
    pub open spec fn spec_ticks(self, ticks: nat) -> (Timer, bool)
        decreases ticks,
    {
        if ticks == 0 {
            (self, false)
        } else {
            let (t, fired) = self.spec_tick();
            let (t2, fired2) = t.spec_ticks((ticks - 1) as nat);
            (t2, fired || fired2)
        }
    }

    /// The timer after `elapsed_cycles` machine cycles of four clock ticks
    /// each, and whether it ran over at any of them.
    pub open spec fn spec_maybe_tick_cycles(self, elapsed_cycles: u8) -> (Timer, bool) {
        self.spec_ticks(4 * elapsed_cycles as nat)
    }

    pub fn new() -> (r: Self)
        ensures
            r == Timer::spec_new(),
            r.inv(),
    {
        Self { divider: 0, timer_counter: 0, timer_modulo: 0, timer_control: 0, clock_counter: 0 }
    }

    pub fn read(&self, address: Address) -> (r: u8)
        requires
            DIV <= address.addr <= TAC,
        ensures
            r == self.spec_read(address.addr),
    {
        let addr = address.value();
        if addr == DIV {
            (self.divider / 256) as u8
        } else if addr == TIMA {
            self.timer_counter
        } else if addr == TMA {
            self.timer_modulo
        } else {
            self.timer_control
        }
    }

    pub fn write(&mut self, address: Address, value: u8)
        requires
            DIV <= address.addr <= TAC,
            old(self).inv(),
        ensures
            *final(self) == old(self).spec_write(address.addr, value),
            final(self).inv(),
    {
        let addr = address.value();
        if addr == DIV {
            self.divider = 0;
        } else if addr == TIMA {
            self.timer_counter = value;
        } else if addr == TMA {
            self.timer_modulo = value;
        } else {
            self.timer_control = value;
        }
    }

    /// Advances the timer by `elapsed_cycles` machine cycles and says whether
    /// the timer interrupt is due.
    pub fn maybe_tick_cycles(&mut self, elapsed_cycles: u8) -> (fire_interrupt: bool)
        requires
            old(self).inv(),
        ensures
            final(self).inv(),
            (*final(self), fire_interrupt) == old(self).spec_maybe_tick_cycles(elapsed_cycles),
    {
        let mut fire_interrupt = false;
        let total: u16 = elapsed_cycles as u16 * 4;
        let mut done: u16 = 0;
        let ghost start = *self;
        while done < total
            invariant
                done <= total,
                total == 4 * elapsed_cycles,
                self.inv(),
                start.spec_ticks(total as nat) == ({
                    let (t, f) = self.spec_ticks((total - done) as nat);
                    (t, fire_interrupt || f)
                }),
            decreases total - done,
        {
            self.divider = self.divider.wrapping_add(1);
            if self.is_timer_enabled() {
                let fired = self.tick_clock();
                fire_interrupt = fire_interrupt || fired;
            }
            done += 1;
        }
        fire_interrupt
    }

    fn tick_clock(&mut self) -> (fired: bool)
        requires
            old(self).inv(),
        ensures
            final(self).inv(),
            (*final(self), fired) == old(self).spec_tick_clock(),
    {
        self.clock_counter += 1;

        let clock_select_div = self.get_clock_select().period();

        if self.clock_counter < clock_select_div {
            return false;
        }
        self.clock_counter -= clock_select_div;
        self.increment_timer_counter()
    }

    fn get_clock_select(&self) -> (r: ClockSelect)
        ensures
            r == self.spec_clock_select(),
    {
        proof {
            lemma_bits_as_arithmetic(self.timer_control);
        }
        let select = self.timer_control & 0b11;
        if select == 0b00 {
            ClockSelect::Div1024
        } else if select == 0b01 {
            ClockSelect::Div16
        } else if select == 0b10 {
            ClockSelect::Div64
        } else {
            ClockSelect::Div256
        }
    }

    fn increment_timer_counter(&mut self) -> (fired: bool)
        ensures
            (*final(self), fired) == old(self).spec_increment_timer_counter(),
    {
        self.timer_counter = self.timer_counter.wrapping_add(1);

        if self.timer_counter == 0x00 {
            self.timer_counter = self.timer_modulo;
            return true;
        }
        false
    }

    fn is_timer_enabled(&self) -> (r: bool)
        ensures
            r == self.spec_is_timer_enabled(),
    {
        proof {
            lemma_bits_as_arithmetic(self.timer_control);
        }
        get_bit(self.timer_control, 2)
    }
}

/// Ticking in two runs is ticking once for the sum.
pub proof fn lemma_ticks_split(timer: Timer, first: nat, second: nat)
    ensures
        timer.spec_ticks(first + second) == ({
            let (t, f) = timer.spec_ticks(first);
            let (t2, f2) = t.spec_ticks(second);
            (t2, f || f2)
        }),
    decreases first,
{
    if first > 0 {
        let (t, f) = timer.spec_tick();
        lemma_ticks_split(t, (first - 1) as nat, second);
        assert(first + second - 1 == (first - 1) as nat + second);
    }
}

/// The timer keeps its bound on the tick count through every tick.
pub proof fn lemma_ticks_keep_inv(timer: Timer, ticks: nat)
    requires
        timer.inv(),
    ensures
        timer.spec_ticks(ticks).0.inv(),
    decreases ticks,
{
    if ticks > 0 {
        lemma_ticks_keep_inv(timer.spec_tick().0, (ticks - 1) as nat);
    }
}

/// A timer that is switched on at one count per sixteen clock ticks, has
/// just counted and stands at `0xFE` runs over at the thirty-second clock
/// tick, which is the end of the eighth machine cycle, and not before; it
/// then holds its modulo.
pub proof fn lemma_timer_overflow_from_fe(timer: Timer, cycles: u8)
    requires
        timer.timer_control == 0x05,
        timer.timer_counter == 0xFE,
        timer.clock_counter == 0,
        cycles <= 8,
    ensures
        timer.spec_maybe_tick_cycles(cycles).1 == (cycles == 8),
        cycles == 8 ==> timer.spec_maybe_tick_cycles(cycles).0.timer_counter == timer.timer_modulo,
        cycles < 4 ==> timer.spec_maybe_tick_cycles(cycles).0.timer_counter == 0xFE,
        4 <= cycles < 8 ==> timer.spec_maybe_tick_cycles(cycles).0.timer_counter == 0xFF,
{
    let ticks = 4 * cycles as nat;
    if cycles <= 4 {
        lemma_run_without_count(timer, ticks);
    } else {
        lemma_run_without_count(timer, 16);
        let t16 = timer.spec_ticks(16).0;
        lemma_ticks_split(timer, 16, (ticks - 16) as nat);
        lemma_run_without_count(t16, (ticks - 16) as nat);
    }
}

/// While fewer clock ticks pass than are left in the current period, the
/// running timer does not count; the tick that completes the period counts
/// once, and runs the timer over if it stood at `0xFF`.
pub proof fn lemma_run_without_count(timer: Timer, ticks: nat)
    requires
        timer.spec_is_timer_enabled(),
        timer.clock_counter < timer.spec_clock_select().spec_period(),
        timer.clock_counter + ticks <= timer.spec_clock_select().spec_period(),
    ensures
        timer.clock_counter + ticks < timer.spec_clock_select().spec_period() ==> timer.spec_ticks(
            ticks,
        ) == (
            Timer {
                divider: ((timer.divider + ticks) % 0x1_0000) as u16,
                clock_counter: (timer.clock_counter + ticks) as usize,
                ..timer
            },
            false,
        ),
        timer.clock_counter + ticks == timer.spec_clock_select().spec_period() ==> timer.spec_ticks(
            ticks,
        ) == (
            (Timer {
                divider: ((timer.divider + ticks) % 0x1_0000) as u16,
                clock_counter: 0,
                ..timer
            }).spec_increment_timer_counter().0,
            timer.timer_counter == 0xFF,
        ),
    decreases ticks,
{
    if ticks > 0 {
        let (t, f) = timer.spec_tick();
        if timer.clock_counter + 1 < timer.spec_clock_select().spec_period() {
            lemma_run_without_count(t, (ticks - 1) as nat);
            assert(t.spec_ticks((ticks - 1) as nat).0.divider == ((timer.divider + ticks)
                % 0x1_0000) as u16);
        } else {
            assert(ticks == 1);
            assert(t.spec_ticks(0) == (t, false));
        }
    }
}

} // verus!
