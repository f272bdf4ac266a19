use gb_core::mode::EmulationMode;
use gb_core::timer::{Divider, Timer, TimerState};

const DIV: u16 = 0xFF04;
const TIMA: u16 = 0xFF05;
const TMA: u16 = 0xFF06;
const TAC: u16 = 0xFF07;

#[test]
fn test_div_trigger() {
    let mut timer = Timer::new(EmulationMode::Dmg);

    let mut a = 0;
    let b = 4;
    timer.set_byte(DIV, a);
    a = b;
    timer.set_byte(TIMA, a);
    timer.set_byte(TMA, a);
    a = 0b00000100;
    timer.set_byte(TAC, a);
    a ^= a;
    timer.set_byte(DIV, a);

    timer.tick(512);
    println!("{}", timer.get_byte(TIMA));

    timer.set_byte(DIV, 0);

    println!("{}", timer.get_byte(TIMA));
}

#[test]
fn test_timer() {
    let mut timer = Timer::new(EmulationMode::Dmg);

    let mut a = 0;
    let b = 4;
    timer.set_byte(DIV, a);
    a = b;
    timer.set_byte(TIMA, a);
    timer.set_byte(TMA, a);
    a = 0b00000100;
    timer.set_byte(TAC, a);
    a ^= a;
    timer.set_byte(DIV, a);
    a = b;
    timer.set_byte(TIMA, a);
    a ^= a;
    timer.set_byte(DIV, a);
    timer.tick(252 * 4);
    a = timer.get_byte(TIMA);
    let d = a;
    println!("D: {}", d);

    a = b;
    timer.set_byte(TIMA, a);
    a ^= a;
    timer.set_byte(DIV, a);
    a = b;
    timer.set_byte(TIMA, a);
    a ^= a;
    timer.set_byte(DIV, a);
    timer.tick(253 * 4);
    a = timer.get_byte(TIMA);
    let e = a;
    println!("E: {}", e);
}

#[test]
fn divider_initial_values() {
    assert_eq!(Divider::new(EmulationMode::Dmg).counter, 0xABCC);
    assert_eq!(Divider::new(EmulationMode::Cgb).counter, 0x1EA0);
    assert_eq!(Divider::new(EmulationMode::Dmg).get_byte(), 0xAB);
}

#[test]
fn divider_wraps() {
    let mut d = Divider { counter: 0xFFFE };
    d.tick(3);
    assert_eq!(d.counter, 1);
    d.set_byte();
    assert_eq!(d.counter, 0);
}

fn armed(freq: u8) -> Timer {
    let mut t = Timer::new(EmulationMode::Dmg);
    t.set_byte(DIV, 0);
    t.set_byte(TMA, 0);
    t.set_byte(TIMA, 0xFF);
    t.set_byte(TAC, 0x04 | freq);
    t
}

#[test]
fn overflow_after_full_period_each_frequency() {
    let masks: [usize; 4] = [512, 8, 32, 128];
    for freq in 0..4u8 {
        let mut t = armed(freq);
        t.tick(2 * masks[freq as usize]);
        assert_eq!(t.state, TimerState::Reloading);
        assert_eq!(t.get_byte(TIMA), 0);
        assert!(!t.request_timer_int);
        t.tick(4);
        assert!(t.request_timer_int);
        assert_eq!(t.get_byte(TIMA), 0);
        assert_eq!(t.acc, t.tma);
    }
}

#[test]
fn interrupt_within_trigger_clocks_each_frequency() {
    let masks: [u16; 4] = [512, 8, 32, 128];
    for freq in 0..4u8 {
        let mut t = Timer::new(EmulationMode::Dmg);
        t.set_byte(TAC, 0x04 | freq);
        t.set_byte(TMA, 0);
        t.set_byte(TIMA, 0xFF);
        t.divider.counter = masks[freq as usize] + 4;
        t.tick(masks[freq as usize] as usize);
        assert!(t.request_timer_int);
        assert_eq!(t.acc, 0);
        assert_eq!(t.get_byte(TIMA), 0);
    }
}

#[test]
fn no_overflow_one_cycle_early() {
    let mut t = armed(1);
    t.tick(15);
    assert_eq!(t.get_byte(TIMA), 0xFF);
    assert_eq!(t.state, TimerState::Running);
}

#[test]
fn tima_write_during_reload_suppresses_interrupt() {
    let mut t = armed(1);
    t.set_byte(TMA, 0x42);
    t.tick(16);
    assert_eq!(t.state, TimerState::Reloading);
    assert_eq!(t.get_byte(TIMA), 0x00);
    t.set_byte(TIMA, 0x10);
    t.tick(4);
    assert_eq!(t.state, TimerState::Reloaded);
    assert_eq!(t.acc, 0x10);
    assert!(!t.request_timer_int);
}

#[test]
fn tima_write_ignored_and_tma_copied_when_reloaded() {
    let mut t = armed(1);
    t.tick(20);
    assert_eq!(t.state, TimerState::Reloaded);
    t.set_byte(TIMA, 0x33);
    assert_eq!(t.acc, 0);
    t.set_byte(TMA, 0x77);
    assert_eq!(t.acc, 0x77);
    assert_eq!(t.get_byte(TMA), 0x77);
}

#[test]
fn div_reset_with_bit_nine_high_increments_once() {
    let mut t = Timer::new(EmulationMode::Dmg);
    t.set_byte(TAC, 0x04);
    t.divider.counter = 0x0200;
    t.acc = 0x20;
    t.set_byte(DIV, 0x99);
    assert_eq!(t.acc, 0x21);
    assert_eq!(t.divider.counter, 0);
    t.set_byte(DIV, 0);
    assert_eq!(t.acc, 0x21);
}

#[test]
fn div_reset_with_bit_low_does_not_increment() {
    let mut t = Timer::new(EmulationMode::Dmg);
    t.set_byte(TAC, 0x04);
    t.divider.counter = 0x0100;
    t.acc = 0x20;
    t.set_byte(DIV, 0);
    assert_eq!(t.acc, 0x20);
}

#[test]
fn tac_disable_glitch_increments() {
    let mut t = Timer::new(EmulationMode::Dmg);
    t.set_byte(TAC, 0x05);
    t.divider.counter = 0x0008;
    t.acc = 5;
    t.set_byte(TAC, 0x00);
    assert_eq!(t.acc, 6);
    assert_eq!(t.get_byte(TAC), 0xF8);
}

#[test]
fn tac_reads_with_high_bits_set() {
    let mut t = Timer::new(EmulationMode::Dmg);
    t.set_byte(TAC, 0xFF);
    assert_eq!(t.get_byte(TAC), 0xFF);
    assert_eq!(t.timer_enable, 4);
    assert_eq!(t.freq, 3);
    assert_eq!(t.tima_bit, 7);
    assert_eq!(t.get_byte(0xFF08), 0);
}

#[test]
fn interrupt_within_trigger_clocks_other_phases() {
    let masks: [u16; 4] = [512, 8, 32, 128];
    for freq in 0..4u8 {
        let t_mask = masks[freq as usize];
        for phase in [t_mask + 4, t_mask + 5, 2 * t_mask - 1] {
            for clock in 0..4usize {
                let mut t = Timer::new(EmulationMode::Dmg);
                t.set_byte(TAC, 0x04 | freq);
                t.set_byte(TMA, 0);
                t.set_byte(TIMA, 0xFF);
                t.divider.counter = 0x4000 + phase;
                t.clock = clock;
                t.tick(t_mask as usize);
                assert!(t.request_timer_int);
                assert_eq!(t.acc, 0);
                assert_eq!(t.get_byte(TIMA), 0);
            }
        }
    }
}

#[test]
fn tima_write_in_reload_window_over_four_cycles() {
    for clock in 0..4usize {
        let mut t = Timer::new(EmulationMode::Dmg);
        t.set_byte(TMA, 0x42);
        t.acc = 0;
        t.state = TimerState::Reloading;
        t.clock = clock;
        t.set_byte(TIMA, 0x10);
        assert!(t.tima_written_while_reload);
        t.tick(4);
        assert_eq!(t.acc, 0x10);
        assert!(!t.request_timer_int);
        assert_eq!(t.state, TimerState::Reloaded);
        assert!(!t.tima_written_while_reload);
    }
}
