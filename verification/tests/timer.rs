use dmg_core::timer::Timer;

fn ticking(t: &mut Timer, n: u32) -> u32 {
    let mut interrupts = 0;
    for _ in 0..n {
        if t.tick() {
            interrupts += 1;
        }
    }
    interrupts
}

#[test]
fn divider_counts_every_tick() {
    let mut t = Timer::new();
    ticking(&mut t, 0x300);
    assert_eq!(t.div, 0x300);
    assert_eq!(t.read_div(), 0x03);
}

#[test]
fn divider_write_resets() {
    let mut t = Timer::new();
    ticking(&mut t, 0x1234);
    t.write_div(0xFF);
    assert_eq!(t.div, 0);
    assert_eq!(t.read_div(), 0);
}

#[test]
fn disabled_timer_never_counts() {
    let mut t = Timer::new();
    t.tac = 0b001;
    ticking(&mut t, 4096);
    assert_eq!(t.tima, 0);
}

#[test]
fn frequency_code_01_counts_every_16_ticks() {
    // Frequency code 0b01 watches divider bit 3, so the and-gate
    // output falls once every 16 ticks: K crossings leave the counter
    // at exactly K.
    let mut t = Timer::new();
    t.tac = 0b101;
    ticking(&mut t, 16 * 5);
    assert_eq!(t.tima, 5);
    ticking(&mut t, 16 * 7);
    assert_eq!(t.tima, 12);
}

#[test]
fn frequency_code_11_counts_every_256_ticks() {
    let mut t = Timer::new();
    t.tac = 0b111;
    ticking(&mut t, 256 * 3);
    assert_eq!(t.tima, 3);
}

#[test]
fn counter_wraps_modulo_256() {
    // 260 crossings of the bit-3 edge leave the counter at 260 mod 256
    // (the reload value is zero, so the wrap continues the count).
    let mut t = Timer::new();
    t.tac = 0b101;
    ticking(&mut t, 16 * 260);
    assert_eq!(t.tima, 4);
}

#[test]
fn overflow_interrupt_comes_four_ticks_late() {
    let mut t = Timer::new();
    t.tac = 0b101;
    t.tima = 0xFF;
    t.tma = 0x42;
    // Tick to the crossing: the counter leaves 0xFF without raising
    // the interrupt on the crossing tick itself.
    let mut crossed = false;
    for _ in 0..16 {
        let irq = t.tick();
        assert!(!irq);
        if t.tima == 0x00 {
            crossed = true;
            break;
        }
    }
    assert!(crossed);
    // During the delay the counter reads 0x00 and no interrupt fires.
    for _ in 0..3 {
        assert!(!t.tick());
        assert_eq!(t.tima, 0x00);
    }
    // The 4th tick reloads and raises the interrupt.
    assert!(t.tick());
    assert_eq!(t.tima, 0x42);
}

#[test]
fn counter_write_in_window_cancels_reload() {
    let mut t = Timer::new();
    t.tac = 0b101;
    t.tima = 0xFF;
    t.tma = 0x42;
    for _ in 0..16 {
        t.tick();
        if t.tima == 0x00 && t.tima_overflow {
            break;
        }
    }
    assert!(t.tima_overflow);
    t.write_tima(0x77);
    assert_eq!(t.tima, 0x77);
    for _ in 0..8 {
        assert!(!t.tick());
    }
}

#[test]
fn reload_write_in_window_is_deferred() {
    let mut t = Timer::new();
    t.tac = 0b101;
    t.tima = 0xFF;
    t.tma = 0x42;
    for _ in 0..16 {
        t.tick();
        if t.tima_overflow {
            break;
        }
    }
    // The write lands during the delay: the pending reload still uses
    // the old value, and the new one is in place afterwards.
    t.write_tma(0x99);
    let mut reloaded = false;
    for _ in 0..5 {
        if t.tick() {
            reloaded = true;
            break;
        }
    }
    assert!(reloaded);
    assert_eq!(t.tima, 0x42);
    assert_eq!(t.tma, 0x99);
}

#[test]
fn reload_write_outside_window_is_immediate() {
    let mut t = Timer::new();
    t.write_tma(0x55);
    assert_eq!(t.tma, 0x55);
}

#[test]
fn m_tick_stops_on_interrupt() {
    let mut t = Timer::new();
    let (irq, left) = t.m_tick();
    assert!(!irq);
    assert_eq!(left, 0);
    assert_eq!(t.div, 4);
}
