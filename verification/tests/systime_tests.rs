use systime::MicroSeconds;
use systime::MilliSeconds;
use systime::QuantTime;
use systime::SysTime;
use systime::TickWait;
use systime::U32time;
use systime::WaitOp;

#[test]
fn init_scale_and_reload() {
    let st = SysTime::new(8_000_000);
    assert_eq!(st.scale, 8);
    assert_eq!(st.ticks, 0);
    assert_eq!(SysTime::reload_value(8_000_000), 7999);
}

#[test]
fn delay_ms_takes_at_least_ten_ticks() {
    let st = SysTime::new(8_000_000);
    let w = SysTime::delay(MilliSeconds(10), &st);
    match w {
        WaitOp::Ticks(tw) => {
            assert_eq!(tw.start, 0);
            assert_eq!(tw.n, 10);
            // A simulated run: the wait refuses every reading short of ten
            // ticks past the captured start.
            let mut now: u32 = tw.start;
            let mut ticks_fired: u32 = 0;
            while !tw.elapsed(now) {
                now = now.wrapping_add(1);
                ticks_fired += 1;
            }
            assert_eq!(ticks_fired, 10);
            assert!(now - tw.start >= 10);
        }
        WaitOp::Cycles(_) => panic!("a millisecond delay is interrupt driven"),
    }
}

#[test]
fn now_equal_without_tick_and_advances_with_ticks() {
    let mut st = SysTime::new(8_000_000);
    assert_eq!(st.now(), st.now());
    let before = st.now();
    st.sys_tick();
    st.sys_tick();
    st.sys_tick();
    assert_eq!(st.now(), before.wrapping_add(3));
}

#[test]
fn tick_count_wraps_silently() {
    let mut st = SysTime { ticks: u32::MAX, scale: 8 };
    st.sys_tick();
    assert_eq!(st.ticks, 0);
    assert_eq!(st.scale, 8);
}

#[test]
fn now_us_exact_value() {
    let mut st = SysTime::new(8_000_000);
    // 0 full milliseconds; 4000 cycles remaining at 8 MHz leave 500 of the
    // 1000 microseconds still to come: 999 - 500.
    assert_eq!(st.now_us(4000, false), 499);
    assert_eq!(st.ticks, 0);
}

#[test]
fn now_us_pending_underflow_counts_one_tick() {
    let mut st = SysTime::new(8_000_000);
    let us = st.now_us(4000, true);
    assert_eq!(st.ticks, 1);
    assert_eq!(us, 1499);
}

#[test]
fn now_us_monotone_within_tick() {
    let mut a = SysTime::new(8_000_000);
    let mut b = SysTime::new(8_000_000);
    let earlier = a.now_us(6000, false);
    // The register only counts down within a tick: a later read sees less.
    let later = b.now_us(2000, false);
    assert!(later >= earlier);
}

#[test]
fn now_us_rises_about_a_thousand_across_tick() {
    let mut before = SysTime::new(8_000_000);
    let us_before = before.now_us(16, false);
    let mut after = SysTime::new(8_000_000);
    after.sys_tick();
    let us_after = after.now_us(7999, false);
    assert_eq!(us_before, 997);
    assert_eq!(us_after, 1000);
    assert!(us_after > us_before);
    // Exactly 1000 + 16/8 - 7999/8.
    assert_eq!(us_after - us_before, 3);
}

#[test]
fn unit_conversions_exact() {
    assert_eq!(5u32.hz(), 5);
    assert_eq!(5u32.hz().khz(), 5000);
    assert_eq!(2u32.khz(), 2000);
    assert_eq!(2u32.mhz(), 2_000_000);
    assert_eq!(7u32.ms().0, 7);
    assert_eq!(9u32.us().0, 9);
}

#[test]
fn micro_delay_cycles_per_tier() {
    // Up to 24 MHz: scale cycles per microsecond.
    assert_eq!(MicroSeconds(100).delay_cycles(8), 800);
    assert_eq!(MicroSeconds(100).delay_cycles(24), 2400);
    // Up to 48 MHz: half the scale.
    assert_eq!(MicroSeconds(100).delay_cycles(30), 1500);
    assert_eq!(MicroSeconds(100).delay_cycles(48), 2400);
    // Above: a third of the scale.
    assert_eq!(MicroSeconds(100).delay_cycles(72), 2400);
}

#[test]
fn micro_delay_dispatches_to_cycle_spin() {
    let st = SysTime::new(72_000_000);
    assert_eq!(st.scale, 72);
    assert_eq!(SysTime::delay(MicroSeconds(100), &st), WaitOp::Cycles(2400));
    assert_eq!(MicroSeconds(5).delay(&st), WaitOp::Cycles(120));
}

#[test]
fn milli_delay_dispatches_to_tick_wait() {
    let mut st = SysTime::new(8_000_000);
    st.sys_tick();
    st.sys_tick();
    assert_eq!(
        MilliSeconds(5).delay(&st),
        WaitOp::Ticks(TickWait { start: 2, n: 5 })
    );
}

#[test]
fn tick_wait_handles_wrapped_counter() {
    let tw = TickWait { start: u32::MAX - 1, n: 3 };
    // Two ticks have elapsed at a reading of 0, three at 1.
    assert!(!tw.elapsed(0));
    assert!(tw.elapsed(1));
}
