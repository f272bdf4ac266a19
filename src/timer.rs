use vstd::prelude::*;

use crate::mode::EmulationMode;

verus! {

/// Counter bit whose falling edge drives TIMA, indexed by the TAC frequency.
pub open spec fn shift_of(freq: u8) -> u16 {
    if freq == 0 {
        9
    } else if freq == 1 {
        3
    } else if freq == 2 {
        5
    } else {
        7
    }
}

/// Mask of the tapped counter bit, indexed by the TAC frequency; the bit falls
/// every twice as many T-cycles.
pub open spec fn trigger_of(freq: u8) -> u16 {
    if freq == 0 {
        512
    } else if freq == 1 {
        8
    } else if freq == 2 {
        32
    } else {
        128
    }
}

fn counter_shift(freq: u8) -> (r: u16)
    ensures
        r == shift_of(freq),
{
    match freq {
        0 => 9,
        1 => 3,
        2 => 5,
        _ => 7,
    }
}

fn trigger_clocks(freq: u8) -> (r: u16)
    ensures
        r == trigger_of(freq),
{
    match freq {
        0 => 512,
        1 => 8,
        2 => 32,
        _ => 128,
    }
}

/// Free-running 16-bit up-counter; its upper byte is the DIV register.
pub struct Divider {
    pub counter: u16,
}

impl Divider {
    pub open spec fn initial(mode: EmulationMode) -> u16 {
        match mode {
            EmulationMode::Dmg => 0xABCC,
            EmulationMode::Cgb => 0x1EA0,
        }
    }

    pub fn new(mode: EmulationMode) -> (r: Self)
        ensures
            r.counter == Self::initial(mode),
    {
        Self {
            counter: match mode {
                EmulationMode::Dmg => 0xABCC,
                EmulationMode::Cgb => 0x1EA0,
            },
        }
    }

    pub fn tick(&mut self, cycles: usize)
        ensures
            final(self).counter == old(self).counter.wrapping_add(cycles as u16),
    {
        self.counter = self.counter.wrapping_add(#[verifier::truncate] (cycles as u16));
    }

    pub fn get_byte(&self) -> (r: u8)
        ensures
            r as int == self.counter as int / 256,
    {
        let c = self.counter;
        assert((c >> 8u16) as u8 == c / 256) by (bit_vector);
        (c >> 8) as u8
    }

    pub fn set_byte(&mut self)
        ensures
            final(self).counter == 0,
    {
        self.counter = 0;
    }
}

/// Phase of the TIMA reload that follows an overflow.
#[derive(Clone, Copy, Debug, PartialEq, Eq, Structural)]
pub enum TimerState {
    Reloading,
    Reloaded,
    Running,
}

/// TIMA, TMA and TAC with the divider that drives them.
pub struct Timer {
    /// TIMA
    pub acc: u8,
    /// TMA
    pub tma: u8,
    /// Enable bit of TAC, kept at bit 2.
    pub timer_enable: u8,
    /// Frequency bits of TAC.
    pub freq: u8,
    pub divider: Divider,
    pub request_timer_int: bool,
    pub tima_bit: u16,
    pub state: TimerState,
    pub clock: usize,
    pub tima_written_while_reload: bool,
}

/// Input of the falling-edge detector: the enable bit AND the tapped counter bit.
pub open spec fn signal_of(enable: u8, counter: u16, bit: u16) -> u8 {
    if enable & 4 != 0 && (counter >> bit) & 1 == 1 {
        1
    } else {
        0
    }
}

impl Timer {
    pub open spec fn wf(self) -> bool {
        &&& self.clock < 4
        &&& self.freq < 4
        &&& (self.timer_enable == 0 || self.timer_enable == 4)
        &&& self.tima_bit == shift_of(self.freq)
    }

    pub open spec fn signal_spec(self) -> u8 {
        signal_of(self.timer_enable, self.divider.counter, self.tima_bit)
    }

    /// TIMA plus one; an overflow to zero starts the reload.
    pub open spec fn incremented(self) -> Timer {
        let acc = self.acc.wrapping_add(1);
        if acc == 0 {
            Timer { acc, state: TimerState::Reloading, ..self }
        } else {
            Timer { acc, ..self }
        }
    }

    /// The reload state machine, advanced by one 4-cycle step.
    pub open spec fn advanced(self) -> Timer {
        match self.state {
            TimerState::Reloading => {
                if !self.tima_written_while_reload {
                    Timer {
                        acc: self.tma,
                        request_timer_int: true,
                        state: TimerState::Reloaded,
                        ..self
                    }
                } else {
                    Timer { tima_written_while_reload: false, state: TimerState::Reloaded, ..self }
                }
            },
            TimerState::Reloaded => Timer { state: TimerState::Running, ..self },
            TimerState::Running => self,
        }
    }

    /// TIMA is incremented when the signal went from high to low.
    pub open spec fn edge_checked(self, old_signal: u8) -> Timer {
        if old_signal != 0 && self.signal_spec() == 0 {
            self.incremented()
        } else {
            self
        }
    }

    /// One T-cycle: the clock and divider advance, every fourth cycle the reload
    /// state machine steps, then the falling edge is checked.
    pub open spec fn stepped(self) -> Timer {
        let old_signal = self.signal_spec();
        let t1 = Timer {
            clock: (self.clock + 1) as usize,
            divider: Divider { counter: self.divider.counter.wrapping_add(1) },
            ..self
        };
        let t2 = if t1.clock >= 4 {
            (Timer { clock: (t1.clock - 4) as usize, ..t1 }).advanced()
        } else {
            t1
        };
        t2.edge_checked(old_signal)
    }

    /// The timer after `n` T-cycles.
    pub open spec fn after(self, n: nat) -> Timer
        decreases n,
    {
        if n == 0 {
            self
        } else {
            self.after((n - 1) as nat).stepped()
        }
    }

    /// Increment caused by a TAC write while the timer is enabled: the AND gate
    /// sees its selected input fall.
    pub open spec fn toggled(self, value: u8) -> Timer {
        if self.timer_enable != 0 && self.divider.counter & trigger_of(self.freq) != 0 && (value
            & 4 == 0 || self.divider.counter & trigger_of(value & 3) != 0) {
            self.incremented()
        } else {
            self
        }
    }

    /// The timer after the CPU writes `value` to `addr`.
    pub open spec fn written(self, addr: u16, value: u8) -> Timer {
        if addr == 0xFF04 {
            (Timer { divider: Divider { counter: 0 }, ..self }).edge_checked(self.signal_spec())
        } else if addr == 0xFF05 {
            if self.state == TimerState::Reloaded {
                self
            } else if self.state == TimerState::Reloading {
                Timer { acc: value, tima_written_while_reload: true, ..self }
            } else {
                Timer { acc: value, ..self }
            }
        } else if addr == 0xFF06 {
            if self.state == TimerState::Reloaded {
                Timer { tma: value, acc: value, ..self }
            } else {
                Timer { tma: value, ..self }
            }
        } else if addr == 0xFF07 {
            let t = self.toggled(value);
            Timer {
                timer_enable: value & 4,
                freq: value & 3,
                tima_bit: shift_of(value & 3),
                ..t
            }
        } else {
            self
        }
    }

    /// What the CPU reads at `addr`.
    pub open spec fn read(self, addr: u16) -> u8 {
        if addr == 0xFF04 {
            (self.divider.counter / 256) as u8
        } else if addr == 0xFF05 {
            if self.state == TimerState::Reloading {
                0
            } else {
                self.acc
            }
        } else if addr == 0xFF06 {
            self.tma
        } else if addr == 0xFF07 {
            0xF8 | self.timer_enable | self.freq
        } else {
            0
        }
    }

    /// The timer at power-on: all registers clear, disabled, divider at its
    /// post-boot value.
    pub open spec fn initial(mode: EmulationMode) -> Timer {
        Timer {
            acc: 0,
            tma: 0,
            timer_enable: 0,
            freq: 0,
            divider: Divider { counter: Divider::initial(mode) },
            request_timer_int: false,
            tima_bit: 9,
            state: TimerState::Running,
            clock: 0,
            tima_written_while_reload: false,
        }
    }

    pub fn new(mode: EmulationMode) -> (r: Self)
        ensures
            r.wf(),
            r == Timer::initial(mode),
    {
        Self {
            acc: 0,
            tma: 0,
            timer_enable: 0,
            freq: 0,
            divider: Divider::new(mode),
            request_timer_int: false,
            tima_bit: 9,
            state: TimerState::Running,
            clock: 0,
            tima_written_while_reload: false,
        }
    }

    pub fn tick(&mut self, cycles: usize)
        requires
            old(self).wf(),
        ensures
            final(self).wf(),
            *final(self) == old(self).after(cycles as nat),
    {
        let ghost start = *self;
        let mut i: usize = 0;
        while i < cycles
            invariant
                i <= cycles,
                self.wf(),
                *self == start.after(i as nat),
            decreases cycles - i,
        {
            let ghost before = *self;
            let old_signal = self.signal();
            self.clock += 1;
            self.divider.tick(1);
            assert(self.divider.counter == before.divider.counter.wrapping_add(1));
            if self.clock >= 4 {
                self.clock -= 4;
                self.advance_state();
            }
            self.detect_falling_edge(old_signal);
            i += 1;
        }
    }

    fn advance_state(&mut self)
        ensures
            final(self).wf() == old(self).wf(),
            *final(self) == old(self).advanced(),
    {
        match self.state {
            TimerState::Reloading => {
                if !self.tima_written_while_reload {
                    self.acc = self.tma;
                    self.request_timer_int = true;
                } else {
                    self.tima_written_while_reload = false;
                }
                self.state = TimerState::Reloaded;
            },
            TimerState::Reloaded => {
                self.state = TimerState::Running;
            },
            TimerState::Running => {},
        }
    }

    fn detect_falling_edge(&mut self, old_signal: u8)
        requires
            old(self).wf(),
        ensures
            final(self).wf(),
            *final(self) == old(self).edge_checked(old_signal),
    {
        let new_signal = self.signal();
        if old_signal != 0 && new_signal == 0 {
            self.increment_tima();
        }
    }

    fn rapid_toggle_glitch(&mut self, value: u8)
        requires
            old(self).wf(),
        ensures
            final(self).wf(),
            *final(self) == old(self).toggled(value),
    {
        if self.timer_enable == 0 {
            return;
        }
        let old_period = trigger_clocks(self.freq);
        let new_period = trigger_clocks(value & 0x3);
        if self.divider.counter & old_period != 0 {
            if value & 4 == 0 || self.divider.counter & new_period != 0 {
                self.increment_tima();
            }
        }
    }

    fn increment_tima(&mut self)
        ensures
            final(self).wf() == old(self).wf(),
            *final(self) == old(self).incremented(),
    {
        self.acc = self.acc.wrapping_add(1);
        if self.acc == 0 {
            self.state = TimerState::Reloading;
        }
    }

    fn signal(&self) -> (r: u8)
        requires
            self.wf(),
        ensures
            r == self.signal_spec(),
    {
        if self.timer_enable & 4 != 0 && (self.divider.counter >> self.tima_bit) & 1 == 1 {
            1
        } else {
            0
        }
    }

    pub fn get_byte(&self, addr: u16) -> (r: u8)
        ensures
            r == self.read(addr),
    {
        match addr {
            0xFF04 => self.divider.get_byte(),
            0xFF05 => {
                if self.state == TimerState::Reloading {
                    0
                } else {
                    self.acc
                }
            },
            0xFF06 => self.tma,
            0xFF07 => 0xF8 | self.timer_enable | self.freq,
            _ => 0x00,
        }
    }

    pub fn set_byte(&mut self, addr: u16, value: u8)
        requires
            old(self).wf(),
        ensures
            final(self).wf(),
            *final(self) == old(self).written(addr, value),
    {
        match addr {
            0xFF04 => {
                let old_signal = self.signal();
                self.divider.set_byte();
                self.detect_falling_edge(old_signal);
            },
            0xFF05 => {
                if self.state != TimerState::Reloaded {
                    self.acc = value;
                    if self.state == TimerState::Reloading {
                        self.tima_written_while_reload = true;
                    }
                }
            },
            0xFF06 => {
                self.tma = value;
                if self.state == TimerState::Reloaded {
                    self.acc = value;
                }
            },
            0xFF07 => {
                self.rapid_toggle_glitch(value);
                self.timer_enable = value & 0x04;
                self.freq = value & 0x03;
                self.tima_bit = counter_shift(self.freq);
                assert(value & 4 == 0 || value & 4 == 4) by (bit_vector);
                assert(value & 3 < 4) by (bit_vector);
            },
            _ => {},
        }
    }
}

} // verus!
