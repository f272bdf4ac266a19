use vstd::prelude::*;

use crate::mmu::Mmu;
use crate::timer::{signal_of, trigger_of, Divider, Timer, TimerState};

verus! {

/// A byte written to high RAM reads back unchanged.
pub proof fn hram_round_trip(m: Mmu, after: Mmu, addr: u16, v: u8)
    requires
        m.wf(),
        0xFF80 <= addr <= 0xFFFE,
        m.written_to(after, addr, v),
    ensures
        after.read(addr) == v,
{
}

/// Echo RAM reads as work RAM `0x2000` lower, and a write through either
/// address is seen at both.
pub proof fn echo_mirrors_work_ram(m: Mmu, addr: u16, v: u8, via_echo: Mmu, via_wram: Mmu)
    requires
        m.wf(),
        0xE000 <= addr <= 0xFDFF,
        m.written_to(via_echo, addr, v),
        m.written_to(via_wram, (addr - 0x2000) as u16, v),
    ensures
        m.read(addr) == m.read((addr - 0x2000) as u16),
        via_echo.read(addr) == v,
        via_echo.read((addr - 0x2000) as u16) == v,
        via_wram.read(addr) == v,
        via_wram.read((addr - 0x2000) as u16) == v,
{
}

/// The prohibited region reads as `0xFF` and a write there changes nothing.
pub proof fn prohibited_region_inert(m: Mmu, after: Mmu, addr: u16, v: u8)
    requires
        m.wf(),
        0xFEA0 <= addr <= 0xFEFF,
        m.written_to(after, addr, v),
    ensures
        m.read(addr) == 0xFF,
        after == m,
        forall|a: u16| after.read(a) == m.read(a),
{
}

/// Addresses of the registers that exist on the color model only.
pub open spec fn is_cgb_register(addr: u16) -> bool {
    addr == 0xFF4D || addr == 0xFF4F || (0xFF51 <= addr <= 0xFF55) || (0xFF68 <= addr
        <= 0xFF6B) || addr == 0xFF70
}

/// On the monochrome model the color-only registers read as `0xFF` and ignore
/// writes.
pub proof fn cgb_registers_inert_on_dmg(m: Mmu, after: Mmu, addr: u16, v: u8)
    requires
        m.wf(),
        !m.is_cgb(),
        is_cgb_register(addr),
        m.written_to(after, addr, v),
    ensures
        m.read(addr) == 0xFF,
        after == m,
{
}

/// IF keeps the five request bits of a write and reads its top three bits as 1.
pub proof fn interrupt_flag_round_trip(m: Mmu, after: Mmu, v: u8)
    requires
        m.wf(),
        m.written_to(after, 0xFF0F, v),
    ensures
        after.read(0xFF0F) == (v & 0x1F) | 0xE0,
{
    let (a, b, c, d, e) = (
        after.joypad.request_joypad_int,
        after.request_serial_int,
        after.timer.request_timer_int,
        after.gpu.request_lcd_int,
        after.gpu.request_vblank_int,
    );
    assert(a == (v & 0x10 != 0) && b == (v & 0x08 != 0) && c == (v & 0x04 != 0) && d == (v & 0x02
        != 0) && e == (v & 0x01 != 0));
    assert(0xE0u8 | (if v & 0x10 != 0 {
        0x10u8
    } else {
        0
    }) | (if v & 0x08 != 0 {
        0x08u8
    } else {
        0
    }) | (if v & 0x04 != 0 {
        0x04u8
    } else {
        0
    }) | (if v & 0x02 != 0 {
        0x02u8
    } else {
        0
    }) | (if v & 0x01 != 0 {
        0x01u8
    } else {
        0
    }) == (v & 0x1F) | 0xE0) by (bit_vector);
}

/// The increment that overflows TIMA starts the reload, and TIMA reads as 0
/// until the next 4-cycle step.
pub proof fn overflow_reads_zero(t: Timer)
    requires
        t.wf(),
        t.acc == 0xFF,
    ensures
        t.incremented().state == TimerState::Reloading,
        t.incremented().read(0xFF05) == 0,
{
}

/// A TIMA write while the reload is pending wins over TMA, and no interrupt is
/// requested.
pub proof fn write_during_reload_wins(t: Timer, v: u8)
    requires
        t.wf(),
        t.state == TimerState::Reloading,
    ensures
        t.written(0xFF05, v).advanced().acc == v,
        t.written(0xFF05, v).advanced().request_timer_int == t.request_timer_int,
        t.written(0xFF05, v).advanced().state == TimerState::Reloaded,
{
}

/// Clearing DIV while the tapped bit 9 is high increments TIMA exactly once.
pub proof fn div_reset_increments(t: Timer, v: u8)
    requires
        t.wf(),
        t.timer_enable == 4,
        t.freq == 0,
        (t.divider.counter >> 9u16) & 1 == 1,
    ensures
        t.written(0xFF04, v).acc == t.acc.wrapping_add(1),
        t.written(0xFF04, v).divider.counter == 0,
{
    assert((0u16 >> 9u16) & 1 == 0) by (bit_vector);
    assert(4u8 & 4 != 0) by (bit_vector);
}

/// One increment of the 16-bit divider moves it one further modulo its range.
proof fn lemma_counter_step(c: int, k: int)
    requires
        0 <= c <= 0xFFFF,
        0 <= k,
    ensures
        (((c + k) % 0x10000) as u16).wrapping_add(1) == ((c + k + 1) % 0x10000) as u16,
{
}

/// Whether the timer's signal falls on the `j`-th T-cycle from now, with the
/// divider counting on undisturbed.
pub open spec fn falls_at(t: Timer, j: int) -> bool {
    signal_of(t.timer_enable, ((t.divider.counter + j) % 0x10000) as u16, t.tima_bit) == 1
        && signal_of(t.timer_enable, ((t.divider.counter + j + 1) % 0x10000) as u16, t.tima_bit)
        == 0
}

/// A TIMA write while the reload is pending survives the next four T-cycles:
/// TMA is not loaded, no interrupt is requested, and the reload completes,
/// provided the signal does not fall in that window.
pub proof fn write_during_reload_wins_over_four_cycles(t: Timer, v: u8)
    requires
        t.wf(),
        t.state == TimerState::Reloading,
        forall|j: int| 0 <= j < 4 ==> !falls_at(t, j),
    ensures
        t.written(0xFF05, v).after(4).acc == v,
        t.written(0xFF05, v).after(4).request_timer_int == t.request_timer_int,
        t.written(0xFF05, v).after(4).state == TimerState::Reloaded,
        !t.written(0xFF05, v).after(4).tima_written_while_reload,
{
    let w = t.written(0xFF05, v);
    let c = t.divider.counter as int;
    assert(!falls_at(t, 0) && !falls_at(t, 1) && !falls_at(t, 2) && !falls_at(t, 3));
    assert(w.after(0) == w);
    let w1 = w.after(1);
    assert(w1 == w.stepped());
    lemma_counter_step(c, 0);
    assert(w1.divider.counter == ((c + 1) % 0x10000) as u16);
    let w2 = w.after(2);
    assert(w2 == w1.stepped());
    lemma_counter_step(c, 1);
    assert(w2.divider.counter == ((c + 2) % 0x10000) as u16);
    let w3 = w.after(3);
    assert(w3 == w2.stepped());
    lemma_counter_step(c, 2);
    assert(w3.divider.counter == ((c + 3) % 0x10000) as u16);
    let w4 = w.after(4);
    assert(w4 == w3.stepped());
}

/// The tapped bit of the divider value `z` (taken modulo its range) is high
/// exactly on the upper half of each period.
proof fn lemma_bit_phase(freq: u8, z: int)
    requires
        freq < 4,
        0 <= z,
    ensures
        ((((z % 0x10000) as u16) >> crate::timer::shift_of(freq)) & 1 == 1) == (z % (2
            * trigger_of(freq) as int) >= trigger_of(freq)),
{
    let x = (z % 0x10000) as u16;
    if freq == 0 {
        vstd::arithmetic::div_mod::lemma_mod_mod(z, 1024, 64);
        assert((x >> 9u16) & 1 == 1 <==> x % 1024 >= 512) by (bit_vector);
    } else if freq == 1 {
        vstd::arithmetic::div_mod::lemma_mod_mod(z, 16, 4096);
        assert((x >> 3u16) & 1 == 1 <==> x % 16 >= 8) by (bit_vector);
    } else if freq == 2 {
        vstd::arithmetic::div_mod::lemma_mod_mod(z, 64, 1024);
        assert((x >> 5u16) & 1 == 1 <==> x % 64 >= 32) by (bit_vector);
    } else {
        vstd::arithmetic::div_mod::lemma_mod_mod(z, 256, 256);
        assert((x >> 7u16) & 1 == 1 <==> x % 256 >= 128) by (bit_vector);
    }
}

/// `(z + 1) % m` follows `z % m` around the cycle.
proof fn lemma_mod_succ(z: int, m: int)
    requires
        0 <= z,
        0 < m,
    ensures
        z % m + 1 < m ==> (z + 1) % m == z % m + 1,
        z % m + 1 == m ==> (z + 1) % m == 0,
{
    let r = z % m;
    vstd::arithmetic::div_mod::lemma_fundamental_div_mod(z, m);
    vstd::arithmetic::div_mod::lemma_mod_multiples_vanish(z / m, r + 1, m);
    assert(z + 1 == m * (z / m) + (r + 1));
    if r + 1 < m {
        vstd::arithmetic::div_mod::lemma_small_mod((r + 1) as nat, m as nat);
    } else {
        vstd::arithmetic::div_mod::lemma_mod_self_0(m);
    }
}

/// On an enabled timer the signal falls exactly when the divider reaches a
/// multiple of twice the trigger mask.
proof fn lemma_falls(t: Timer, j: int)
    requires
        t.wf(),
        t.timer_enable == 4,
        0 <= j,
    ensures
        falls_at(t, j) <==> (t.divider.counter + j + 1) % (2 * trigger_of(t.freq) as int) == 0,
{
    let z = t.divider.counter + j;
    let m = 2 * trigger_of(t.freq) as int;
    assert(4u8 & 4 != 0) by (bit_vector);
    lemma_bit_phase(t.freq, z);
    lemma_bit_phase(t.freq, z + 1);
    lemma_mod_succ(z, m);
    vstd::arithmetic::div_mod::lemma_mod_bound(z, m);
}

/// With no reload pending and no falling edge, T-cycles from `a` to `a + k`
/// keep TIMA, TMA and the interrupt request; a finished reload returns to
/// running at the next 4-cycle step.
proof fn lemma_calm_run(t: Timer, a: nat, k: nat)
    requires
        t.wf(),
        t.after(a).wf(),
        t.after(a).state != TimerState::Reloading,
        t.after(a).timer_enable == t.timer_enable,
        t.after(a).tima_bit == t.tima_bit,
        t.after(a).divider.counter == ((t.divider.counter + a) % 0x10000) as u16,
        forall|j: int| a <= j < a + k ==> !falls_at(t, j),
    ensures
        t.after(a + k).wf(),
        t.after(a + k).state != TimerState::Reloading,
        t.after(a).state == TimerState::Running ==> t.after(a + k).state == TimerState::Running,
        t.after(a + k).acc == t.after(a).acc,
        t.after(a + k).tma == t.after(a).tma,
        t.after(a + k).request_timer_int == t.after(a).request_timer_int,
        t.after(a + k).tima_written_while_reload == t.after(a).tima_written_while_reload,
        t.after(a + k).timer_enable == t.timer_enable,
        t.after(a + k).tima_bit == t.tima_bit,
        t.after(a + k).divider.counter == ((t.divider.counter + a + k) % 0x10000) as u16,
    decreases k,
{
    if k > 0 {
        lemma_calm_run(t, a, (k - 1) as nat);
        lemma_counter_step(t.divider.counter as int, a + k - 1);
        assert(!falls_at(t, a + k - 1));
        assert(t.after(a + k) == t.after((a + k - 1) as nat).stepped());
    }
}

/// While the reload waits for the end of the current 4-cycle step and the
/// signal does not fall, only the divider and the clock move.
proof fn lemma_pending_run(t: Timer, a: nat, k: nat)
    requires
        t.wf(),
        t.after(a).wf(),
        t.after(a).state == TimerState::Reloading,
        t.after(a).clock + k <= 3,
        t.after(a).timer_enable == t.timer_enable,
        t.after(a).tima_bit == t.tima_bit,
        t.after(a).divider.counter == ((t.divider.counter + a) % 0x10000) as u16,
        forall|j: int| a <= j < a + k ==> !falls_at(t, j),
    ensures
        t.after(a + k) == (Timer {
            divider: Divider { counter: ((t.divider.counter + a + k) % 0x10000) as u16 },
            clock: (t.after(a).clock + k) as usize,
            ..t.after(a)
        }),
    decreases k,
{
    if k > 0 {
        lemma_pending_run(t, a, (k - 1) as nat);
        lemma_counter_step(t.divider.counter as int, a + k - 1);
        assert(!falls_at(t, a + k - 1));
        assert(t.after(a + k) == t.after((a + k - 1) as nat).stepped());
    }
}

/// With TMA = 0 and TIMA = 0xFF, an enabled timer whose divider stands at
/// least four cycles past the rise of the tapped bit overflows and raises its
/// interrupt within the trigger mask's number of T-cycles; TIMA then equals TMA.
#[verifier::rlimit(50)]
#[verifier::spinoff_prover]
pub proof fn overflow_interrupt_within_trigger_any_phase(t: Timer)
    requires
        t.wf(),
        t.state == TimerState::Running,
        !t.tima_written_while_reload,
        t.timer_enable == 4,
        t.tma == 0,
        t.acc == 0xFF,
        trigger_of(t.freq) + 4 <= t.divider.counter as int % (2 * trigger_of(t.freq) as int),
    ensures
        t.after(trigger_of(t.freq) as nat).request_timer_int,
        t.after(trigger_of(t.freq) as nat).acc == 0,
        t.after(trigger_of(t.freq) as nat).read(0xFF05) == t.tma,
{
    let tt = trigger_of(t.freq) as int;
    let m2 = 2 * tt;
    let c = t.divider.counter as int;
    let ph = c % m2;
    let e = m2 - ph;
    vstd::arithmetic::div_mod::lemma_fundamental_div_mod(c, m2);
    assert(c == m2 * (c / m2) + ph);
    assert forall|j: int| 0 <= j < tt && j != e - 1 implies !falls_at(t, j) by {
        lemma_falls(t, j);
        let v = ph + j + 1;
        vstd::arithmetic::div_mod::lemma_mod_multiples_vanish(c / m2, v, m2);
        assert(c + j + 1 == m2 * (c / m2) + v);
        if v < m2 {
            vstd::arithmetic::div_mod::lemma_small_mod(v as nat, m2 as nat);
        } else {
            vstd::arithmetic::div_mod::lemma_mod_multiples_vanish(1, v - m2, m2);
            vstd::arithmetic::div_mod::lemma_small_mod((v - m2) as nat, m2 as nat);
        }
    }
    assert(falls_at(t, e - 1)) by {
        lemma_falls(t, e - 1);
        vstd::arithmetic::div_mod::lemma_mod_multiples_vanish(c / m2 + 1, 0, m2);
        assert(c + e == (c / m2 + 1) * m2) by (nonlinear_arith)
            requires
                c == m2 * (c / m2) + ph,
                e == m2 - ph,
        ;
    }
    assert(t.after(0) == t);
    lemma_calm_run(t, 0, (e - 1) as nat);
    let p = t.after((e - 1) as nat);
    assert(p.state == TimerState::Running);
    lemma_counter_step(c, e - 1);
    assert(t.after(e as nat) == p.stepped());
    let s = t.after(e as nat);
    assert(s.state == TimerState::Reloading && s.acc == 0);
    let w = 3 - s.clock;
    lemma_pending_run(t, e as nat, w as nat);
    let q = t.after((e + w) as nat);
    assert(q.clock == 3);
    assert(!falls_at(t, e + w));
    assert(!q.tima_written_while_reload && q.tma == 0);
    lemma_counter_step(c, e + w);
    assert(t.after((e + w + 1) as nat) == q.stepped());
    let r = t.after((e + w + 1) as nat);
    assert(r.state == TimerState::Reloaded && r.acc == 0 && r.request_timer_int);
    lemma_calm_run(t, (e + w + 1) as nat, (tt - (e + w + 1)) as nat);
}

} // verus!
