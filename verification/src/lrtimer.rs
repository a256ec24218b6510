//! Low resolution timer.
//!
//! Meant for measuring start / stop times of events that take a relatively
//! long time to finish.
//!
//! The clock extends a 16-bit free-running hardware counter across overflow
//! ("update") interrupts: a 32-bit overflow counter is incremented by the
//! servicing routine, and a read combines the two into milliseconds since
//! creation. The 32-bit millisecond output wraps roughly every 49 days.
//!
//! Because the counter and the overflow counter cannot be read atomically
//! with respect to each other, every read follows a snapshot-then-validate
//! protocol: sample both, then check whether an overflow is outstanding. The
//! best-effort read services the overflow itself and resamples; the strict
//! read refuses with [`UpdatePending`] rather than report a stale value; the
//! retrying read services and tries again, at most once.
//!
//! The hardware registers and the interrupt controller's pending/active
//! state are modelled by [`TimerHw`], a deterministic stand-in that tests
//! (and proofs) drive explicitly; firmware glue maps it onto the real
//! counter, its update flag, and the interrupt controller's queries.

use vstd::arithmetic::div_mod::{
    lemma_add_mod_noop, lemma_div_is_ordered, lemma_fundamental_div_mod,
    lemma_fundamental_div_mod_converse_div, lemma_fundamental_div_mod_converse_mod,
    lemma_mod_bound, lemma_mod_self_0, lemma_mul_mod_noop_left, lemma_small_mod,
    lemma_sub_mod_noop,
};
use vstd::prelude::*;

use crate::instant::LrInstant;

verus! {

/// Timer instant type.
pub type Instant = LrInstant;

/// Timer reload value.
pub const RELOAD_VALUE: u16 = 0xffff;

/// Timer prescaler value: 36000 input clocks per counter tick, so a 72 MHz
/// timer clock yields 2000 counter ticks per second, 0.5 ms each.
pub const PRESCALER_VALUE: u16 = 35999;

/// Expected timer input clock frequency, in units of Hertz.
pub const TIM2CLK_EXPECTED_HZ: u32 = 72_000_000;

/// Number of counter ticks per counter update (overflow).
pub const TICKS_PER_UPDATE: u32 = 0x10000;

/// Number of milliseconds per counter update.
pub const MILLISECONDS_PER_UPDATE: u32 = 0x10000 / 2;

/// Number of timer ticks per millisecond.
///
/// Also indirectly specifies the timer resolution.
pub const COUNTS_PER_MILLISECOND: u16 = 2;

/// The strict read found an unserviced overflow; the servicing routine must
/// run before a consistent time can be reported.
#[derive(Debug, Clone, Copy, PartialEq, Eq, Structural)]
pub struct UpdatePending;

/// `x` reduced modulo the 32-bit wraparound horizon.
pub open spec fn spec_wrap32(x: int) -> int {
    x % 0x1_0000_0000
}

/// How many times a counter that has run for `t` ticks has overflowed.
pub open spec fn spec_overflows(t: nat) -> int {
    t as int / (TICKS_PER_UPDATE as int)
}

/// Milliseconds reported for a counter that has run for `t` ticks: half a
/// millisecond per tick, modulo the 32-bit horizon.
pub open spec fn spec_ms(t: nat) -> int {
    spec_wrap32(t as int / (COUNTS_PER_MILLISECOND as int))
}

/// Deterministic model of the timer registers and of the interrupt
/// controller state bound to the timer's update interrupt.
///
/// `cnt` is the 16-bit free-running counter; `pending` is the latched
/// pending bit of the update interrupt, raised when the counter wraps;
/// `active` says that the bound interrupt handler is currently executing.
/// The ghost `ticks` carries the true total number of counter ticks since
/// creation, which no register holds but every register reflects.
pub struct TimerHw {
    /// Current value of the free-running counter.
    pub cnt: u16,
    /// Latched pending bit of the update interrupt.
    pub pending: bool,
    /// Whether the update interrupt handler is currently executing.
    pub active: bool,
    /// Total counter ticks since creation.
    pub ticks: Ghost<nat>,
}

impl TimerHw {
    /// An overflow is outstanding: the servicing routine has work to do.
    pub open spec fn needs_servicing(self) -> bool {
        self.pending || self.active
    }

    /// The registers are a faithful snapshot of `ticks` total ticks: the
    /// counter holds the ticks modulo its width, and an overflow can only be
    /// outstanding once the counter has wrapped at least once.
    pub open spec fn wf(self) -> bool {
        &&& self.cnt == self.ticks@ as int % (TICKS_PER_UPDATE as int)
        &&& (self.needs_servicing() ==> self.ticks@ >= TICKS_PER_UPDATE)
    }

    /// A freshly configured, just-started counter: zero ticks, no overflow.
    pub fn new() -> (r: Self)
        ensures
            r.wf(),
            r.ticks@ == 0,
            r.cnt == 0,
            !r.pending,
            !r.active,
    {
        TimerHw { cnt: 0, pending: false, active: false, ticks: Ghost(0) }
    }

    /// The counter runs for `d` more ticks, latching the pending bit if it
    /// wraps.
    ///
    /// An outstanding overflow must be serviced before the counter wraps
    /// again, or a whole counter period would be lost; the caller (the
    /// surrounding firmware's interrupt discipline) guarantees that.
    pub fn advance(&mut self, d: u16)
        requires
            old(self).wf(),
            old(self).needs_servicing() ==> old(self).cnt + d < TICKS_PER_UPDATE,
        ensures
            final(self).wf(),
            final(self).ticks@ == old(self).ticks@ + d,
            final(self).cnt == (old(self).cnt + d) % (TICKS_PER_UPDATE as int),
            final(self).pending == (old(self).pending || old(self).cnt + d
                >= TICKS_PER_UPDATE),
            final(self).active == old(self).active,
    {
        let ghost t0 = self.ticks@;
        proof {
            lemma_fundamental_div_mod(t0 as int, TICKS_PER_UPDATE as int);
        }
        let wide: u32 = self.cnt as u32 + d as u32;
        if wide >= TICKS_PER_UPDATE {
            self.cnt = (wide - TICKS_PER_UPDATE) as u16;
            self.pending = true;
            proof {
                lemma_fundamental_div_mod_converse_mod(
                    t0 as int + d,
                    TICKS_PER_UPDATE as int,
                    t0 as int / (TICKS_PER_UPDATE as int) + 1,
                    self.cnt as int,
                );
            }
        } else {
            self.cnt = wide as u16;
            proof {
                lemma_fundamental_div_mod_converse_mod(
                    t0 as int + d,
                    TICKS_PER_UPDATE as int,
                    t0 as int / (TICKS_PER_UPDATE as int),
                    self.cnt as int,
                );
            }
        }
        self.ticks = Ghost((t0 + d) as nat);
    }

    /// The interrupt controller dispatches the update interrupt: the pending
    /// latch clears as the handler becomes active.
    pub fn take_interrupt(&mut self)
        requires
            old(self).wf(),
            old(self).pending,
        ensures
            final(self).wf(),
            final(self).ticks@ == old(self).ticks@,
            final(self).cnt == old(self).cnt,
            !final(self).pending,
            final(self).active,
    {
        self.pending = false;
        self.active = true;
    }

    /// Clears the hardware update flag and explicitly un-latches the pending
    /// interrupt state, so that a stale, already-serviced interrupt cannot be
    /// serviced a second time.
    pub fn acknowledge(&mut self)
        requires
            old(self).wf(),
        ensures
            final(self).wf(),
            final(self).ticks@ == old(self).ticks@,
            final(self).cnt == old(self).cnt,
            !final(self).pending,
            !final(self).active,
    {
        self.pending = false;
        self.active = false;
    }
}

/// Monotonic low-resolution clock: the hardware counter model plus the
/// 32-bit overflow counter maintained by the servicing routine.
pub struct LrTimer {
    /// Hardware timer associated with this software timer.
    pub hw: TimerHw,
    /// Number of timer updates / overflows serviced so far.
    pub updates: u32,
}

impl LrTimer {
    /// Total counter ticks since the clock was created.
    pub open spec fn ticks(self) -> nat {
        self.hw.ticks@
    }

    /// An overflow is outstanding.
    pub open spec fn needs_servicing(self) -> bool {
        self.hw.needs_servicing()
    }

    /// Number of overflows that have happened but have not been serviced:
    /// zero or one.
    pub open spec fn outstanding(self) -> int {
        if self.needs_servicing() {
            1
        } else {
            0
        }
    }

    /// The clock is consistent: the registers reflect the true tick count,
    /// and the overflow counter holds every overflow except an outstanding
    /// one, modulo the 32-bit horizon.
    pub open spec fn wf(self) -> bool {
        &&& self.hw.wf()
        &&& self.updates == spec_wrap32(spec_overflows(self.ticks()) - self.outstanding())
    }

    /// Creates a new `LrTimer` around a freshly started counter.
    ///
    /// A timer clock other than [`TIM2CLK_EXPECTED_HZ`] is a wiring defect,
    /// fatal at initialization and excluded here, not a runtime condition to
    /// recover from.
    pub fn new(hw: TimerHw, tim_clk_hz: u32) -> (r: Self)
        requires
            tim_clk_hz == TIM2CLK_EXPECTED_HZ,
            hw.wf(),
            hw.ticks@ == 0,
            !hw.pending,
            !hw.active,
        ensures
            r.wf(),
            r.ticks() == 0,
            !r.needs_servicing(),
            r.updates == 0,
    {
        proof {
            lemma_small_mod(0, 0x1_0000_0000);
        }
        LrTimer { hw, updates: 0 }
    }

    /// Determines if the timer interrupt needs to be serviced.
    ///
    /// Assumes that the timer is running & the timer is setup for interrupts
    /// to be generated.
    #[inline]
    fn isr_needs_servicing(&self) -> (r: bool)
        ensures
            r == self.needs_servicing(),
    {
        self.hw.pending || self.hw.active
    }

    /// Calculates the number of milliseconds given a counter value and an
    /// update count.
    fn calculate_ms(updates: u32, cnt: u16) -> (r: u32)
        ensures
            r == spec_wrap32(
                updates * (MILLISECONDS_PER_UPDATE as int) + cnt as int / (
                COUNTS_PER_MILLISECOND as int),
            ),
    {
        let wide: u64 = updates as u64 * 0x8000u64 + (cnt / COUNTS_PER_MILLISECOND) as u64;
        proof {
            assert(wide == updates * (MILLISECONDS_PER_UPDATE as int) + cnt as int / (
            COUNTS_PER_MILLISECOND as int));
        }
        (wide % 0x1_0000_0000) as u32
    }

    /// Function to be run on a timer interrupt.
    ///
    /// Users should schedule this to be run whenever the bound update
    /// interrupt fires; it is idempotent and safe to call redundantly.
    pub fn isr(&mut self)
        requires
            old(self).wf(),
        ensures
            final(self).wf(),
            final(self).ticks() == old(self).ticks(),
            final(self).hw.cnt == old(self).hw.cnt,
            !final(self).needs_servicing(),
            final(self).updates == if old(self).needs_servicing() {
                spec_wrap32(old(self).updates + 1)
            } else {
                old(self).updates as int
            },
    {
        if self.isr_needs_servicing() {
            proof {
                lemma_overflow_count_positive(self.ticks());
                lemma_wrap32_step(spec_overflows(self.ticks()), self.updates);
            }
            self.hw.acknowledge();
            self.updates = self.updates.wrapping_add(1);
        }
    }

    /// Obtain the timer's value, in units of milliseconds since it was
    /// created.
    ///
    /// This best-effort read services an outstanding overflow itself and
    /// resamples, so it must only be used where running the servicing
    /// routine is safe (outside the bound interrupt handler).
    pub fn ms(&mut self) -> (r: u32)
        requires
            old(self).wf(),
        ensures
            final(self).wf(),
            final(self).ticks() == old(self).ticks(),
            !final(self).needs_servicing(),
            r == spec_ms(old(self).ticks()),
            final(self).updates == if old(self).needs_servicing() {
                spec_wrap32(old(self).updates + 1)
            } else {
                old(self).updates as int
            },
    {
        let cnt: u16 = self.hw.cnt;
        let updates: u32 = self.updates;

        let (cnt, updates) = if self.isr_needs_servicing() {
            self.isr();
            (self.hw.cnt, self.updates)
        } else {
            (cnt, updates)
        };

        proof {
            lemma_combined_time(self.ticks());
        }
        Self::calculate_ms(updates, cnt)
    }

    /// Equivalent to `ms()`, with the added exception that an error is
    /// returned if an overflow is outstanding.
    ///
    /// This strict read never runs the servicing routine itself, so it may be
    /// called from contexts (such as another interrupt handler) where doing
    /// so would be unsafe. On hardware the three samples below are taken in a
    /// critical section with the update interrupt masked, which makes them
    /// atomic with respect to the servicing routine; the model samples them
    /// atomically by construction.
    ///
    /// `isr()` should be called before `ms_no_update()` is retried.
    pub fn ms_no_update(&self) -> (r: Result<u32, UpdatePending>)
        requires
            self.wf(),
        ensures
            r is Err <==> self.needs_servicing(),
            r matches Ok(ms) ==> ms == spec_ms(self.ticks()),
    {
        let cnt: u16 = self.hw.cnt;
        let updates: u32 = self.updates;
        let needs_servicing = self.isr_needs_servicing();

        if needs_servicing {
            Err(UpdatePending)
        } else {
            proof {
                lemma_combined_time(self.ticks());
            }
            Ok(Self::calculate_ms(updates, cnt))
        }
    }

    /// Try to obtain the current time as an instant.
    ///
    /// If `Err(UpdatePending)` is returned, then `isr()` must be called on
    /// the timer before retrying (through the bound interrupt handler, or
    /// manually in a context where that cannot run).
    pub fn try_now(&self) -> (r: Result<LrInstant, UpdatePending>)
        requires
            self.wf(),
        ensures
            r is Err <==> self.needs_servicing(),
            r matches Ok(now) ==> now.ticks == spec_ms(self.ticks()),
    {
        match self.ms_no_update() {
            Ok(ms) => Ok(LrInstant::new(ms)),
            Err(e) => Err(e),
        }
    }

    /// Retrieves the current timer value.
    ///
    /// An automatically-retrying version of `try_now()`: on `UpdatePending`
    /// it runs the servicing routine and retries. Only one overflow can be
    /// outstanding before being cleared, so at most one retry is ever
    /// needed; the loop's termination measure is exactly that bound.
    pub fn now(&mut self) -> (r: LrInstant)
        requires
            old(self).wf(),
        ensures
            final(self).wf(),
            final(self).ticks() == old(self).ticks(),
            !final(self).needs_servicing(),
            r.ticks == spec_ms(old(self).ticks()),
            final(self).updates == if old(self).needs_servicing() {
                spec_wrap32(old(self).updates + 1)
            } else {
                old(self).updates as int
            },
    {
        let ghost pre = *self;
        loop
            invariant
                pre == *old(self),
                self.wf(),
                self.ticks() == pre.ticks(),
                pre.wf(),
                (*self == pre) || (!self.needs_servicing() && pre.needs_servicing()
                    && self.updates == spec_wrap32(pre.updates + 1)),
            decreases (if self.needs_servicing() {
                1int
            } else {
                0int
            }),
        {
            match self.try_now() {
                Ok(now) => {
                    return now;
                },
                Err(_) => {
                    self.isr();
                },
            }
        }
    }

    /// The free-running counter underneath the clock advances by `d` ticks,
    /// as time passing does on hardware.
    ///
    /// This touches only the hardware model; the overflow counter is
    /// untouched and the clock stays consistent. An outstanding overflow
    /// must be serviced before the counter wraps again.
    pub fn hw_advance(&mut self, d: u16)
        requires
            old(self).wf(),
            old(self).needs_servicing() ==> old(self).ticks() as int % (TICKS_PER_UPDATE as int)
                + d < TICKS_PER_UPDATE,
        ensures
            final(self).wf(),
            final(self).ticks() == old(self).ticks() + d,
            final(self).updates == old(self).updates,
            final(self).needs_servicing() == (old(self).needs_servicing() || old(self).ticks()
                as int % (TICKS_PER_UPDATE as int) + d >= TICKS_PER_UPDATE),
    {
        let ghost t0 = self.ticks();
        self.hw.advance(d);
        proof {
            lemma_fundamental_div_mod(t0 as int, TICKS_PER_UPDATE as int);
            lemma_fundamental_div_mod(t0 as int + d, TICKS_PER_UPDATE as int);
            if t0 as int % (TICKS_PER_UPDATE as int) + d >= TICKS_PER_UPDATE {
                lemma_fundamental_div_mod_converse_div(
                    t0 as int + d,
                    TICKS_PER_UPDATE as int,
                    t0 as int / (TICKS_PER_UPDATE as int) + 1,
                    t0 as int % (TICKS_PER_UPDATE as int) + d - TICKS_PER_UPDATE,
                );
            } else {
                lemma_fundamental_div_mod_converse_div(
                    t0 as int + d,
                    TICKS_PER_UPDATE as int,
                    t0 as int / (TICKS_PER_UPDATE as int),
                    t0 as int % (TICKS_PER_UPDATE as int) + d,
                );
            }
        }
    }

    /// The interrupt controller dispatches the update interrupt on the model
    /// underneath the clock: pending turns into active. The clock stays
    /// consistent; the servicing routine still has work to do.
    pub fn hw_take_interrupt(&mut self)
        requires
            old(self).wf(),
            old(self).hw.pending,
        ensures
            final(self).wf(),
            final(self).ticks() == old(self).ticks(),
            final(self).updates == old(self).updates,
            final(self).needs_servicing(),
            !final(self).hw.pending,
            final(self).hw.active,
    {
        self.hw.take_interrupt();
    }
}

/// A counter that has an overflow outstanding has overflowed at least once.
proof fn lemma_overflow_count_positive(t: nat)
    requires
        t >= TICKS_PER_UPDATE,
    ensures
        spec_overflows(t) >= 1,
{
    lemma_div_is_ordered(TICKS_PER_UPDATE as int, t as int, TICKS_PER_UPDATE as int);
}

/// Incrementing a 32-bit wrapping counter that holds `x - 1` reduced modulo
/// the horizon yields `x` reduced modulo the horizon.
proof fn lemma_wrap32_step(x: int, u: u32)
    requires
        x >= 1,
        u == spec_wrap32(x - 1),
    ensures
        spec_wrap32(u + 1) == spec_wrap32(x),
        u.wrapping_add(1) == spec_wrap32(x),
{
    let m = 0x1_0000_0000int;
    lemma_mod_bound(x - 1, m);
    lemma_small_mod(1, m as nat);
    lemma_add_mod_noop(x - 1, 1, m);
    if u as int + 1 < m {
        lemma_small_mod((u + 1) as nat, m as nat);
    } else {
        lemma_mod_self_0(m);
    }
}

/// The combination rule of the clock: overflow count (reduced modulo the
/// horizon) times milliseconds-per-update, plus the counter's milliseconds,
/// equals the total milliseconds reduced modulo the horizon.
proof fn lemma_combined_time(t: nat)
    ensures
        spec_wrap32(
            spec_wrap32(spec_overflows(t)) * (MILLISECONDS_PER_UPDATE as int) + (t as int % (
            TICKS_PER_UPDATE as int)) / (COUNTS_PER_MILLISECOND as int),
        ) == spec_ms(t),
{
    let m = 0x1_0000_0000int;
    let q = spec_overflows(t);
    let r = t as int % (TICKS_PER_UPDATE as int);
    let s = r / (COUNTS_PER_MILLISECOND as int);

    lemma_fundamental_div_mod(t as int, TICKS_PER_UPDATE as int);
    lemma_mod_bound(t as int, TICKS_PER_UPDATE as int);
    lemma_fundamental_div_mod(r, COUNTS_PER_MILLISECOND as int);
    lemma_mod_bound(r, COUNTS_PER_MILLISECOND as int);

    // t == 2 * (32768 * q + s) + r % 2, so t / 2 == 32768 * q + s.
    lemma_fundamental_div_mod_converse_div(
        t as int,
        COUNTS_PER_MILLISECOND as int,
        (MILLISECONDS_PER_UPDATE as int) * q + s,
        r % (COUNTS_PER_MILLISECOND as int),
    );

    // Reducing the overflow count modulo the horizon first does not change
    // the combined value modulo the horizon.
    lemma_mod_bound(q, m);
    lemma_small_mod(s as nat, m as nat);
    lemma_mul_mod_noop_left(q, MILLISECONDS_PER_UPDATE as int, m);
    lemma_add_mod_noop(spec_wrap32(q) * (MILLISECONDS_PER_UPDATE as int), s, m);
    lemma_add_mod_noop(q * (MILLISECONDS_PER_UPDATE as int), s, m);
}

/// Two reads of the clock with the later one taken after at least as many
/// ticks report non-decreasing milliseconds, as long as the later total
/// stays below the 32-bit wraparound horizon.
///
/// Together with the reads' own contracts (every read reports `spec_ms` of
/// the total ticks, servicing never changes the total, and the counter only
/// ever advances), this says that best-effort and retrying reads are
/// non-decreasing under any interleaving of servicing calls and reads,
/// modulo the documented horizon.
pub proof fn lemma_reads_non_decreasing(t1: nat, t2: nat)
    requires
        t1 <= t2,
        t2 as int / (COUNTS_PER_MILLISECOND as int) < 0x1_0000_0000,
    ensures
        spec_ms(t1) <= spec_ms(t2),
{
    lemma_div_is_ordered(t1 as int, t2 as int, COUNTS_PER_MILLISECOND as int);
    lemma_small_mod((t1 as int / (COUNTS_PER_MILLISECOND as int)) as nat, 0x1_0000_0000nat);
    lemma_small_mod((t2 as int / (COUNTS_PER_MILLISECOND as int)) as nat, 0x1_0000_0000nat);
}

/// Across a wraparound, the true elapsed milliseconds between two reads is
/// recovered exactly by wrapping subtraction of the reported values, as long
/// as the elapsed time itself is shorter than the horizon. This is the sense
/// in which reads are non-decreasing modulo the 32-bit horizon.
pub proof fn lemma_wrapped_elapsed_exact(t1: nat, t2: nat)
    requires
        t1 <= t2,
        t2 as int / (COUNTS_PER_MILLISECOND as int) - t1 as int / (COUNTS_PER_MILLISECOND as int)
            < 0x1_0000_0000,
    ensures
        spec_wrap32(spec_ms(t2) - spec_ms(t1)) == t2 as int / (COUNTS_PER_MILLISECOND as int) - t1
            as int / (COUNTS_PER_MILLISECOND as int),
{
    let m = 0x1_0000_0000int;
    let a = t1 as int / (COUNTS_PER_MILLISECOND as int);
    let b = t2 as int / (COUNTS_PER_MILLISECOND as int);
    lemma_div_is_ordered(t1 as int, t2 as int, COUNTS_PER_MILLISECOND as int);
    lemma_sub_mod_noop(b, a, m);
    lemma_small_mod((b - a) as nat, m as nat);
}

} // verus!
