//! The timing subsystem: monotonic millisecond counter state, the
//! microsecond read algorithm, cycle-counter utilities, and typed durations
//! with their busy-wait strategies.
//!
//! Hardware model. A count-down timer register underflows once per
//! millisecond and raises an interrupt; the handler advances the tick count
//! by one ([`SysTime::sys_tick`]). A free-running cycle counter increments
//! once per CPU clock cycle. The firmware glue owns the single [`SysTime`]
//! value, reads the hardware registers with interrupts masked where a
//! consistent snapshot is needed, and hands the register values to the
//! verified functions here as plain numbers.

use vstd::prelude::*;

verus! {

use vstd::arithmetic::div_mod::lemma_add_mod_noop;
use vstd::arithmetic::div_mod::lemma_div_is_ordered;
use vstd::arithmetic::div_mod::lemma_div_pos_is_pos;
use vstd::arithmetic::div_mod::lemma_mod_add_multiples_vanish;
use vstd::arithmetic::div_mod::lemma_mod_sub_multiples_vanish;
use vstd::arithmetic::div_mod::lemma_small_mod;
use vstd::arithmetic::div_mod::lemma_sub_mod_noop;

/// Reduce a mathematical integer to the `u32` that stores it: the counters
/// are 32 bits wide and wrap silently.
pub open spec fn wrap32(x: int) -> u32 {
    (x % 0x1_0000_0000) as u32
}

/// `wrap32` spelled out over one modulus on either side of the `u32` range;
/// every sum, difference and product of two 32-bit counters that appears
/// here lies in that span.
pub proof fn lemma_wrap32_cases(x: int)
    requires
        -0x1_0000_0000 <= x,
        x < 2 * 0x1_0000_0000,
    ensures
        0 <= x < 0x1_0000_0000 ==> wrap32(x) == x,
        x < 0 ==> wrap32(x) == x + 0x1_0000_0000,
        0x1_0000_0000 <= x ==> wrap32(x) == x - 0x1_0000_0000,
{
    let m: int = 0x1_0000_0000;
    if 0 <= x < m {
        lemma_small_mod(x as nat, m as nat);
    } else if x < 0 {
        lemma_mod_add_multiples_vanish(x, m);
        lemma_small_mod((x + m) as nat, m as nat);
    } else {
        lemma_mod_sub_multiples_vanish(x, m);
        lemma_small_mod((x - m) as nat, m as nat);
    }
}

/// The tick count after the race-closing step of the microsecond read: an
/// underflow that the interrupt handler has not yet serviced counts as one
/// more elapsed millisecond.
pub open spec fn bumped(t: u32, countflag: bool) -> u32 {
    if countflag {
        wrap32(t + 1)
    } else {
        t
    }
}

/// The microsecond estimate reconstructed from a consistent snapshot. `ms`
/// full milliseconds have elapsed, and within the current millisecond the
/// count-down register still holds `cur_val` CPU cycles, that is
/// `cur_val / scale` microseconds to come; since the register counts down,
/// the part already spent is `999 - cur_val / scale`.
pub open spec fn micros_of(ms: u32, cur_val: u32, scale: u32) -> int {
    ms * 1000 + 999 - cur_val as int / scale as int
}

/// Busy-loop cycles per microsecond, by clock-speed tier. One loop
/// iteration costs more than one CPU cycle on the faster cores, so the
/// calibration divides the clock scale by a per-tier overhead factor; the
/// estimate is tuned for the three bands and approximate between them.
pub open spec fn tier_cycles_per_us(scale: u32) -> int {
    if scale <= 24 {
        scale as int
    } else if scale <= 48 {
        scale as int / 2
    } else {
        scale as int / 3
    }
}

/// An immutable millisecond quantity.
#[derive(Debug, Clone, Copy, PartialEq, Eq, Structural)]
pub struct MilliSeconds(pub u32);

/// An immutable microsecond quantity.
#[derive(Debug, Clone, Copy, PartialEq, Eq, Structural)]
pub struct MicroSeconds(pub u32);

/// The blocking wait a duration asks for, as a value: the firmware glue
/// performs it, since the spin itself is hardware work.
#[derive(Debug, Clone, Copy, PartialEq, Eq, Structural)]
pub enum WaitOp {
    /// Spin for this many CPU cycles in a fixed-cost instruction loop.
    Cycles(u32),
    /// Poll [`TickWait::elapsed`] against fresh counter readings until it
    /// holds.
    Ticks(TickWait),
}

/// A pending interrupt-driven wait: the tick count captured when the wait
/// began, and the number of ticks that must pass. The caller polls
/// [`TickWait::elapsed`] with fresh readings of the counter until it holds.
#[derive(Debug, Clone, Copy, PartialEq, Eq, Structural)]
pub struct TickWait {
    /// Tick count at the start of the wait.
    pub start: u32,
    /// Ticks that must elapse before the wait is over.
    pub n: u32,
}

impl TickWait {
    /// One decision step of the busy-wait loop: the wait is over once the
    /// counter has advanced by at least `n` since `start`. The unsigned
    /// wrapping difference is the elapsed tick count as long as the counter
    /// did not wrap during the wait.
    pub fn elapsed(&self, now: u32) -> (r: bool)
        ensures
            r == (wrap32(now - self.start) >= self.n),
    {
        proof {
            lemma_wrap32_cases(now - self.start);
        }
        now.wrapping_sub(self.start) >= self.n
    }
}

/// The process-wide timing state: the monotonic millisecond tick count and
/// the CPU clock scale in MHz. The firmware owns the single instance; the
/// timer interrupt handler drives [`SysTime::sys_tick`], every other context
/// only reads.
#[derive(Debug, Clone, Copy, PartialEq, Eq, Structural)]
pub struct SysTime {
    /// Milliseconds since start: incremented once per timer interrupt,
    /// wrapping on overflow.
    pub ticks: u32,
    /// CPU clock frequency in MHz, set once at initialization and read-only
    /// thereafter. A microsecond read or delay before it is set (that is,
    /// while it is zero) is a documented misuse.
    pub scale: u32,
}

impl SysTime {
    /// Initialization: derive the clock scale from the CPU clock frequency
    /// in Hz and start the tick count at zero. The hardware side of
    /// initialization writes [`SysTime::reload_value`] to the timer's
    /// reload register, zeroes its current-value register, enables its
    /// interrupt, and enables the cycle counter ([`SysTime::dwt_enable`]).
    pub fn new(ahb_clk: u32) -> (st: SysTime)
        requires
            1000 <= ahb_clk,
        ensures
            st.ticks == 0,
            st.scale == ahb_clk / 1_000_000,
    {
        SysTime { ticks: 0, scale: ahb_clk / 1_000_000 }
    }

    /// The value written to the timer's reload register at initialization:
    /// counting down from `ahb_clk / 1000 - 1` to zero takes one
    /// millisecond of CPU cycles, so the timer underflows once per
    /// millisecond.
    pub fn reload_value(ahb_clk: u32) -> (r: u32)
        requires
            1000 <= ahb_clk,
        ensures
            r == ahb_clk / 1000 - 1,
    {
        proof {
            lemma_div_is_ordered(1000, ahb_clk as int, 1000);
        }
        ahb_clk / 1000 - 1
    }

    /// The timer interrupt handler's whole work: advance the tick count by
    /// one, wrapping on overflow. Runs in interrupt context; it writes one
    /// word and never blocks.
    pub fn sys_tick(&mut self)
        ensures
            final(self).ticks == wrap32(old(self).ticks + 1),
            final(self).scale == old(self).scale,
    {
        proof {
            lemma_wrap32_cases(self.ticks + 1);
        }
        self.ticks = self.ticks.wrapping_add(1);
    }

    /// Coarse millisecond read: the tick count as it stands. A plain read
    /// of one word, safe from any context; a read that races the interrupt
    /// handler observes either the old or the new count.
    pub fn now(&self) -> (r: u32)
        ensures
            r == self.ticks,
    {
        self.ticks
    }

    /// Microsecond read algorithm, applied to a snapshot of the timer's
    /// count-down register (`cur_val`) and its underflow status bit
    /// (`countflag`). If the status bit reports an underflow that the
    /// interrupt handler has not yet serviced, the tick count is first
    /// advanced by one, closing the race between the underflow event and
    /// its interrupt; the estimate is then the full milliseconds plus the
    /// spent part of the current one, wrapping on overflow.
    ///
    /// The caller must take the snapshot and call this with interrupts
    /// masked, and must not do so from a region that already has interrupts
    /// masked for its own purposes: the surrounding unmask would re-enable
    /// them behind that region's back. This is a documented precondition of
    /// the read path, not a checked error.
    pub fn now_us(&mut self, cur_val: u32, countflag: bool) -> (r: u32)
        requires
            1 <= old(self).scale,
        ensures
            final(self).scale == old(self).scale,
            final(self).ticks == bumped(old(self).ticks, countflag),
            r == wrap32(micros_of(final(self).ticks, cur_val, old(self).scale)),
            0 <= micros_of(final(self).ticks, cur_val, old(self).scale) < 0x1_0000_0000
                ==> r == micros_of(final(self).ticks, cur_val, old(self).scale),
    {
        let t0 = self.ticks;
        if countflag {
            proof {
                lemma_wrap32_cases(t0 + 1);
            }
            self.ticks = self.ticks.wrapping_add(1);
        }
        let ms = self.ticks;
        let q = cur_val / self.scale;
        let a = ms.wrapping_mul(1000);
        let b = a.wrapping_add(999);
        let r = b.wrapping_sub(q);
        proof {
            let m: int = 0x1_0000_0000;
            assert(a == wrap32(ms * 1000));
            lemma_wrap32_cases(a + 999);
            lemma_small_mod(999 as nat, m as nat);
            lemma_add_mod_noop(ms * 1000, 999, m);
            assert(b == wrap32(ms * 1000 + 999));
            lemma_wrap32_cases(b - q);
            lemma_small_mod(q as nat, m as nat);
            lemma_sub_mod_noop(ms * 1000 + 999, q as int, m);
            assert(r == wrap32(ms * 1000 + 999 - q));
            let mic = micros_of(ms, cur_val, self.scale);
            if 0 <= mic < m {
                lemma_wrap32_cases(mic);
            }
        }
        r
    }

    /// Generic delay entry point: dispatch to the duration's own wait
    /// algorithm. The returned operation is the blocking wait itself: a
    /// fixed cycle count to spin for, or a tick wait to poll against fresh
    /// counter readings.
    pub fn delay<T: QuantTime>(delay: T, st: &SysTime) -> (r: WaitOp)
        ensures
            r == delay.wait_of(*st),
    {
        delay.delay(st)
    }

    /// Instantaneous read of the free-running cycle counter; wraps at
    /// `2^32` cycles.
    ///
    /// Relies on `cortex_m::peripheral::DWT::cycle_count`: reads the cycle
    /// count register. The value depends on the hardware's history alone,
    /// so nothing is stated of it.
    #[verifier::external_body]
    pub fn dwt_now() -> u32 {
        cortex_m::peripheral::DWT::cycle_count()
    }

    /// Reset the cycle counter to zero, for measuring an elapsed-cycle
    /// interval with a subsequent [`SysTime::dwt_now`].
    pub fn dwt_start(dwt: &mut cortex_m::peripheral::DWT) {
        SysTime::dwt_write(dwt, 0);
    }

    /// Relies on `cortex_m::peripheral::DWT::set_cycle_count`: writes the
    /// given value to the cycle count register.
    #[verifier::external_body]
    fn dwt_write(dwt: &mut cortex_m::peripheral::DWT, count: u32) {
        dwt.set_cycle_count(count);
    }

    /// Enable the cycle counter: set the trace-enable bit in the debug
    /// control block, then the counter-enable bit in the cycle counter's
    /// own control register. Invoked by the hardware side of
    /// initialization; a prerequisite for the counter to run at all.
    pub fn dwt_enable(dcb: &mut cortex_m::peripheral::DCB, dwt: &mut cortex_m::peripheral::DWT) {
        SysTime::dcb_trace_enable(dcb);
        SysTime::dwt_counter_enable(dwt);
    }

    /// Relies on `cortex_m::peripheral::DCB::enable_trace`: sets the
    /// trace-enable bit in the debug control register.
    #[verifier::external_body]
    fn dcb_trace_enable(dcb: &mut cortex_m::peripheral::DCB) {
        dcb.enable_trace();
    }

    /// Relies on `cortex_m::peripheral::DWT::enable_cycle_counter`: sets
    /// the counter-enable bit in the cycle counter's control register.
    #[verifier::external_body]
    fn dwt_counter_enable(dwt: &mut cortex_m::peripheral::DWT) {
        dwt.enable_cycle_counter();
    }
}

/// The cycle counter peripheral, held opaque: the library only passes it to
/// the `cortex_m` calls that operate on it.
#[verifier::external_type_specification]
#[verifier::external_body]
pub struct ExDwt(cortex_m::peripheral::DWT);

/// The debug control block peripheral, held opaque: the library only passes
/// it to the `cortex_m` call that sets its trace-enable bit.
#[verifier::external_type_specification]
#[verifier::external_body]
pub struct ExDcb(cortex_m::peripheral::DCB);

/// Unit-tagging helpers on a raw `u32`: pure scaling to hertz and
/// constructors for the two duration kinds.
pub trait U32time: Sized {
    /// The raw count that the conversions scale.
    spec fn raw(self) -> u32;

    /// The value read as a frequency in hertz: the identity.
    fn hz(self) -> (r: u32)
        ensures
            r == self.raw(),
    ;

    /// The value read as kilohertz, scaled to hertz.
    fn khz(self) -> (r: u32)
        requires
            self.raw() * 1000 <= u32::MAX,
        ensures
            r == self.raw() * 1000,
    ;

    /// The value read as megahertz, scaled to hertz.
    fn mhz(self) -> (r: u32)
        requires
            self.raw() * 1_000_000 <= u32::MAX,
        ensures
            r == self.raw() * 1_000_000,
    ;

    /// The value as a millisecond duration.
    fn ms(self) -> (r: MilliSeconds)
        ensures
            r.0 == self.raw(),
    ;

    /// The value as a microsecond duration.
    fn us(self) -> (r: MicroSeconds)
        ensures
            r.0 == self.raw(),
    ;
}

impl U32time for u32 {
    open spec fn raw(self) -> u32 {
        self
    }

    fn hz(self) -> (r: u32) {
        self
    }

    fn khz(self) -> (r: u32) {
        self * 1000
    }

    fn mhz(self) -> (r: u32) {
        self.khz() * 1000
    }

    fn ms(self) -> (r: MilliSeconds) {
        MilliSeconds(self)
    }

    fn us(self) -> (r: MicroSeconds) {
        MicroSeconds(self)
    }
}

/// The capability shared by the duration kinds: a blocking wait for the
/// quantity, decided here and performed by the firmware glue.
pub trait QuantTime: Sized {
    /// The wait operation the delay asks for, as a function of the timing
    /// state it starts from.
    spec fn wait_of(self, st: SysTime) -> WaitOp;

    /// Decide the wait for this quantity from the given state.
    fn delay(self, st: &SysTime) -> (r: WaitOp)
        ensures
            r == self.wait_of(*st),
    ;
}

impl MicroSeconds {
    /// The cycle count handed to the calibrated busy loop: the per-tier
    /// cycles-per-microsecond estimate times the microsecond count,
    /// wrapping on overflow.
    pub fn delay_cycles(self, scale: u32) -> (r: u32)
        ensures
            r == wrap32(tier_cycles_per_us(scale) * self.0),
    {
        let per_us: u32 = if scale <= 24 {
            scale
        } else if scale <= 48 {
            scale / 2
        } else {
            scale / 3
        };
        per_us.wrapping_mul(self.0)
    }
}

impl QuantTime for MicroSeconds {
    open spec fn wait_of(self, st: SysTime) -> WaitOp {
        WaitOp::Cycles(wrap32(tier_cycles_per_us(st.scale) * self.0))
    }

    /// Calibrated instruction-count busy wait: convert the microsecond
    /// count to CPU cycles with the tier table; the firmware spins for
    /// exactly that many cycles.
    fn delay(self, st: &SysTime) -> (r: WaitOp) {
        WaitOp::Cycles(self.delay_cycles(st.scale))
    }
}

impl QuantTime for MilliSeconds {
    open spec fn wait_of(self, st: SysTime) -> WaitOp {
        WaitOp::Ticks(TickWait { start: st.ticks, n: self.0 })
    }

    /// Interrupt-driven wait: capture the tick count at the start; the
    /// firmware polls [`TickWait::elapsed`] with fresh counter readings, so
    /// the wait ends only once the counter has advanced by the requested
    /// amount. Interrupts stay enabled throughout the wait.
    fn delay(self, st: &SysTime) -> (r: WaitOp) {
        WaitOp::Ticks(TickWait { start: st.now(), n: self.0 })
    }
}

/// The tick count after `k` timer interrupts starting from `t`.
pub open spec fn ticks_after(t: u32, k: nat) -> u32
    decreases k,
{
    if k == 0 {
        t
    } else {
        wrap32(ticks_after(t, (k - 1) as nat) + 1)
    }
}

/// Law: `now` is a pure read of the tick count, so two reads with no
/// intervening interrupt return equal values; after exactly `k` interrupts
/// the count, and with it the value read, is greater by exactly `k`,
/// modulo `2^32`.
pub proof fn lemma_now_after_k_ticks(t: u32, k: nat)
    ensures
        ticks_after(t, k) == wrap32(t + k),
    decreases k,
{
    let m: int = 0x1_0000_0000;
    if k == 0 {
        lemma_small_mod(t as nat, m as nat);
    } else {
        lemma_now_after_k_ticks(t, (k - 1) as nat);
        lemma_small_mod(1 as nat, m as nat);
        lemma_add_mod_noop(t + k - 1, 1, m);
        lemma_wrap32_cases(wrap32(t + k - 1) + 1);
        lemma_wrap32_cases(wrap32(t + k - 1) as int + 1 - m);
    }
}

/// Law: a millisecond delay never ends early. If the wait that a
/// millisecond duration plans from state `st` is polled until
/// [`TickWait::elapsed`] holds at a counter reading `stop`, and the counter
/// did not wrap between the captured start and `stop`, then at least the
/// requested number of ticks has passed.
pub proof fn lemma_delay_ms_min_ticks(st: SysTime, d: MilliSeconds, w: TickWait, stop: u32)
    requires
        d.wait_of(st) == WaitOp::Ticks(w),
        wrap32(stop - w.start) >= w.n,
        w.start <= stop,
    ensures
        stop - st.ticks >= d.0,
{
    lemma_wrap32_cases(stop - w.start);
}

/// Law: within one millisecond tick the microsecond estimate is
/// non-decreasing. The count-down register only decreases between two reads
/// in the same tick, and a smaller remaining value gives a larger or equal
/// estimate.
pub proof fn lemma_now_us_monotone_in_tick(ms: u32, cur_a: u32, cur_b: u32, scale: u32)
    requires
        1 <= scale,
        cur_b <= cur_a,
    ensures
        micros_of(ms, cur_b, scale) >= micros_of(ms, cur_a, scale),
{
    lemma_div_is_ordered(cur_b as int, cur_a as int, scale as int);
}

/// Law: crossing a tick boundary raises the microsecond estimate by
/// exactly `1000 + cur_a / scale - cur_b / scale`: approximately one
/// thousand, within the sub-millisecond remainders on either side of the
/// boundary. In particular the estimate strictly increases whenever the new
/// remaining value lies within the new millisecond.
pub proof fn lemma_now_us_tick_boundary(ms: u32, cur_a: u32, cur_b: u32, scale: u32)
    requires
        1 <= scale,
        ms < u32::MAX,
        cur_b as int / scale as int <= 999,
    ensures
        micros_of((ms + 1) as u32, cur_b, scale) - micros_of(ms, cur_a, scale) == 1000
            + cur_a as int / scale as int - cur_b as int / scale as int,
        micros_of((ms + 1) as u32, cur_b, scale) > micros_of(ms, cur_a, scale),
{
    lemma_div_pos_is_pos(cur_a as int, scale as int);
}

} // verus!
