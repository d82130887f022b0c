//! Clock domains of the emulated machine.
//!
//! The CPU, the system bus and the peripherals do not share one clock. A
//! [`ClockFactor`] relates CPU cycles to system ticks, and a crystal frequency
//! relates both to wall time. Everything in this module is integer arithmetic:
//! elapsed time is a fixed-point count of microseconds ([`Microseconds`]), so
//! that every conversion has an exact mathematical statement.
use vstd::prelude::*;

verus! {

/// Number of rows in a bus timing table: one for each CPU cycle count `0..512`.
pub const TIMING_TABLE_LEN: usize = 512;

/// Number of rows in the bus's cycle-to-tick lookup table.
pub const CYCLE_LUT_LEN: usize = 256;

/// Millionths of a microsecond in one second.
pub const MILLIONTHS_PER_SECOND: u64 = 1_000_000_000_000;

/// Millionths of a microsecond in one microsecond.
pub const MILLIONTHS_PER_MICROSECOND: u64 = 1_000_000;

/// Ratio between the CPU clock and the system clock.
///
/// `Divisor(n)` and `Multiplier(n)` are meaningful for `n >= 1` only; see
/// [`ClockFactor::valid`].
#[derive(Copy, Clone, Debug, PartialEq, Eq, Structural)]
pub enum ClockFactor {
    Divisor(u8),
    Multiplier(u8),
}

impl ClockFactor {
    /// The number `n` that the factor carries.
    pub open spec fn ratio(self) -> int {
        match self {
            ClockFactor::Divisor(n) => n as int,
            ClockFactor::Multiplier(n) => n as int,
        }
    }

    /// A factor is valid when its ratio is at least one.
    pub open spec fn valid(self) -> bool {
        self.ratio() >= 1
    }

    /// Tells whether the factor is valid.
    pub fn is_valid(&self) -> (r: bool)
        ensures
            r == self.valid(),
    {
        match self {
            ClockFactor::Divisor(n) => *n >= 1,
            ClockFactor::Multiplier(n) => *n >= 1,
        }
    }
}

/// A span of emulated time in microseconds, as a fixed-point number with six
/// decimal places: `millionths` counts millionths of a microsecond.
#[derive(Copy, Clone, Debug, PartialEq, Eq, Structural)]
pub struct Microseconds {
    pub millionths: u64,
}

impl View for Microseconds {
    type V = int;

    /// The span as a count of millionths of a microsecond.
    open spec fn view(&self) -> int {
        self.millionths as int
    }
}

impl Microseconds {
    /// No time at all.
    pub fn zero() -> (r: Microseconds)
        ensures
            r@ == 0,
    {
        Microseconds { millionths: 0 }
    }

    /// A whole number of microseconds.
    pub fn from_whole(us: u32) -> (r: Microseconds)
        ensures
            r@ == us * MILLIONTHS_PER_MICROSECOND,
    {
        Microseconds { millionths: (us as u64) * MILLIONTHS_PER_MICROSECOND }
    }

    /// A span given in millionths of a microsecond.
    pub fn from_millionths(millionths: u64) -> (r: Microseconds)
        ensures
            r@ == millionths,
    {
        Microseconds { millionths }
    }

    /// The whole microseconds in the span, rounded down.
    pub fn whole(&self) -> (r: u64)
        ensures
            r == self@ / (MILLIONTHS_PER_MICROSECOND as int),
    {
        self.millionths / MILLIONTHS_PER_MICROSECOND
    }
}

/// One row of the timing table: what a number of CPU cycles amounts to in
/// system ticks and in elapsed time.
#[derive(Copy, Clone, Debug, PartialEq, Eq, Structural)]
pub struct TimingTableEntry {
    pub sys_ticks: u32,
    pub us: Microseconds,
}

/// `x / n` rounded up, for `x >= 0` and `n >= 1`.
pub open spec fn ceil_div(x: int, n: int) -> int {
    (x + n - 1) / n
}

/// System ticks that elapse during `cycles` CPU cycles, as the timing table
/// records them: the quotient rounded up under a divisor, the product under a
/// multiplier.
pub open spec fn table_sys_ticks(factor: ClockFactor, cycles: int) -> int {
    match factor {
        ClockFactor::Divisor(n) => ceil_div(cycles, n as int),
        ClockFactor::Multiplier(n) => cycles * n,
    }
}

/// Time that elapses during `cycles` CPU cycles, in millionths of a
/// microsecond, rounded down. The CPU runs at `crystal_hz / n` under a divisor
/// and at `crystal_hz * n` under a multiplier.
pub open spec fn table_us(factor: ClockFactor, crystal_hz: int, cycles: int) -> int {
    match factor {
        ClockFactor::Divisor(n) => (cycles * n * MILLIONTHS_PER_SECOND) / crystal_hz,
        ClockFactor::Multiplier(n) => (cycles * MILLIONTHS_PER_SECOND) / (crystal_hz * n),
    }
}

/// System ticks handed to a device for an access that the CPU makes `cycles`
/// cycles into an instruction: the product under a divisor, the quotient
/// rounded down under a multiplier.
pub open spec fn ticks_for_cycles(factor: ClockFactor, cycles: int) -> int {
    match factor {
        ClockFactor::Divisor(n) => cycles * n,
        ClockFactor::Multiplier(n) => cycles / (n as int),
    }
}

/// CPU cycles that a wait of `ticks` system ticks costs: the quotient rounded
/// up under a divisor, the product under a multiplier.
pub open spec fn cycles_for_ticks(factor: ClockFactor, ticks: int) -> int {
    match factor {
        ClockFactor::Divisor(n) => ceil_div(ticks, n as int),
        ClockFactor::Multiplier(n) => ticks * n,
    }
}

/// `cycles_for_ticks`, held at `u32::MAX` where the product does not fit.
pub open spec fn wait_cycles(factor: ClockFactor, ticks: int) -> int {
    if cycles_for_ticks(factor, ticks) <= u32::MAX {
        cycles_for_ticks(factor, ticks)
    } else {
        u32::MAX as int
    }
}

/// The system ticks that a device is handed for `cycles` CPU cycles:
/// `ticks_for_cycles`, held at `u32::MAX` where the product does not fit.
pub open spec fn device_ticks(factor: ClockFactor, cycles: int) -> int {
    if ticks_for_cycles(factor, cycles) <= u32::MAX {
        ticks_for_cycles(factor, cycles)
    } else {
        u32::MAX as int
    }
}

/// `ceil_div(x, n)` is the least `q` with `q * n >= x`.
pub proof fn lemma_ceil_div_is_ceiling(x: int, n: int)
    requires
        x >= 0,
        n >= 1,
    ensures
        ceil_div(x, n) * n >= x,
        (ceil_div(x, n) - 1) * n < x,
        0 <= ceil_div(x, n) <= x,
{
    let c = ceil_div(x, n);
    let y = x + n - 1;
    vstd::arithmetic::div_mod::lemma_fundamental_div_mod(y, n);
    vstd::arithmetic::div_mod::lemma_mod_bound(y, n);
    assert(n * c == c * n) by (nonlinear_arith);
    assert((c - 1) * n == c * n - n) by (nonlinear_arith);
    assert(c >= 0) by (nonlinear_arith)
        requires
            c * n >= x,
            x >= 0,
            n >= 1,
            (c - 1) * n < x,
    {
        if c < 0 {
            assert(c * n < 0) by (nonlinear_arith)
                requires
                    c < 0,
                    n >= 1,
            ;
        }
    }
    assert(c <= x) by (nonlinear_arith)
        requires
            (c - 1) * n < x,
            x >= 0,
            n >= 1,
            c >= 0,
    {
        if c > x {
            assert((c - 1) * n >= x) by (nonlinear_arith)
                requires
                    c - 1 >= x,
                    x >= 0,
                    n >= 1,
            ;
        }
    }
}

/// No number below `ceil_div(x, n)` reaches `x` when multiplied by `n`.
pub proof fn lemma_ceil_div_is_least(x: int, n: int, q: int)
    requires
        x >= 0,
        n >= 1,
        q * n >= x,
    ensures
        q >= ceil_div(x, n),
{
    lemma_ceil_div_is_ceiling(x, n);
    let c = ceil_div(x, n);
    if q < c {
        assert(q * n <= (c - 1) * n) by (nonlinear_arith)
            requires
                q <= c - 1,
                n >= 1,
        ;
    }
}

/// A timing-table row never counts a tick too many or too few: under a
/// divisor the ticks are the exact ceiling of `cycles / n`, under a multiplier
/// the exact product.
pub proof fn lemma_table_sys_ticks_exact(factor: ClockFactor, cycles: int)
    requires
        factor.valid(),
        cycles >= 0,
    ensures
        factor matches ClockFactor::Divisor(n) ==> {
            &&& table_sys_ticks(factor, cycles) * n >= cycles
            &&& (table_sys_ticks(factor, cycles) - 1) * n < cycles
        },
        factor matches ClockFactor::Multiplier(n) ==> table_sys_ticks(factor, cycles) == cycles * n,
        0 <= table_sys_ticks(factor, cycles) <= cycles * 255,
{
    match factor {
        ClockFactor::Divisor(n) => {
            lemma_ceil_div_is_ceiling(cycles, n as int);
        },
        ClockFactor::Multiplier(n) => {
            assert(0 <= cycles * n <= cycles * 255) by (nonlinear_arith)
                requires
                    cycles >= 0,
                    1 <= n <= 255,
            ;
        },
    }
}

/// Converts a wait in system ticks, as a device reports it, into the CPU
/// cycles that the bus charges for it: rounded up under a divisor, multiplied
/// under a multiplier. A product that would not fit 32 bits is held at
/// `u32::MAX`.
pub fn system_ticks_to_cpu_cycles(factor: ClockFactor, ticks: u32) -> (cycles: u32)
    requires
        factor.valid(),
    ensures
        cycles == wait_cycles(factor, ticks as int),
{
    match factor {
        ClockFactor::Divisor(n) => {
            proof {
                lemma_ceil_div_is_ceiling(ticks as int, n as int);
            }
            let up: u64 = (ticks as u64) + (n as u64) - 1;
            let q: u64 = up / (n as u64);
            q as u32
        },
        ClockFactor::Multiplier(n) => {
            assert(0 <= ticks * n <= 0xFFFF_FFFF * 255) by (nonlinear_arith)
                requires
                    0 <= ticks <= 0xFFFF_FFFF,
                    0 <= n <= 255,
            ;
            let product: u64 = (ticks as u64) * (n as u64);
            if product > 0xFFFF_FFFF {
                u32::MAX
            } else {
                product as u32
            }
        },
    }
}

/// Converts a count of CPU cycles into the system ticks that a device is
/// handed with an access: multiplied under a divisor, divided (rounding down)
/// under a multiplier. A product that would not fit 32 bits is held at
/// `u32::MAX`.
pub fn cpu_cycles_to_system_ticks(factor: ClockFactor, cycles: u32) -> (ticks: u32)
    requires
        factor.valid(),
    ensures
        ticks == device_ticks(factor, cycles as int),
{
    match factor {
        ClockFactor::Divisor(n) => {
            assert(0 <= cycles * n <= 0xFFFF_FFFF * 255) by (nonlinear_arith)
                requires
                    0 <= cycles <= 0xFFFF_FFFF,
                    0 <= n <= 255,
            ;
            let product: u64 = (cycles as u64) * (n as u64);
            if product > 0xFFFF_FFFF {
                u32::MAX
            } else {
                product as u32
            }
        },
        ClockFactor::Multiplier(n) => {
            proof {
                lemma_div_bounds(cycles as int, n as int);
            }
            cycles / (n as u32)
        },
    }
}

/// Tells whether `cycles` CPU cycles convert to a tick count that fits 32
/// bits, so that [`cpu_cycles_to_system_ticks`] gives the exact count.
pub fn cycles_convertible(factor: ClockFactor, cycles: u32) -> (r: bool)
    requires
        factor.valid(),
    ensures
        r == (ticks_for_cycles(factor, cycles as int) <= u32::MAX),
        r ==> device_ticks(factor, cycles as int) == ticks_for_cycles(factor, cycles as int),
{
    match factor {
        ClockFactor::Divisor(n) => {
            assert(0 <= cycles * n <= 0xFFFF_FFFF * 255) by (nonlinear_arith)
                requires
                    0 <= cycles <= 0xFFFF_FFFF,
                    0 <= n <= 255,
            ;
            (cycles as u64) * (n as u64) <= 0xFFFF_FFFF
        },
        ClockFactor::Multiplier(n) => {
            assert(cycles as int / n as int <= cycles) by (nonlinear_arith)
                requires
                    cycles >= 0,
                    n >= 1,
            ;
            true
        },
    }
}

/// The timing-table row for `cycles` under `factor` and a crystal of
/// `crystal_hz` hertz.
pub open spec fn timing_entry(factor: ClockFactor, crystal_hz: int, cycles: int) -> TimingTableEntry {
    TimingTableEntry {
        sys_ticks: table_sys_ticks(factor, cycles) as u32,
        us: Microseconds { millionths: table_us(factor, crystal_hz, cycles) as u64 },
    }
}

/// For every cycle count that a timing table holds, ticks and elapsed time fit
/// their fields.
pub proof fn lemma_timing_entry_fits(factor: ClockFactor, crystal_hz: int, cycles: int)
    requires
        factor.valid(),
        crystal_hz >= 1,
        0 <= cycles < TIMING_TABLE_LEN,
    ensures
        0 <= table_sys_ticks(factor, cycles) <= 511 * 255,
        0 <= table_us(factor, crystal_hz, cycles) <= 511 * 255 * MILLIONTHS_PER_SECOND,
        timing_entry(factor, crystal_hz, cycles).sys_ticks == table_sys_ticks(factor, cycles),
        timing_entry(factor, crystal_hz, cycles).us@ == table_us(factor, crystal_hz, cycles),
{
    lemma_table_sys_ticks_exact(factor, cycles);
    let n = factor.ratio();
    assert(0 <= cycles * n <= 511 * 255) by (nonlinear_arith)
        requires
            0 <= cycles <= 511,
            1 <= n <= 255,
    ;
    match factor {
        ClockFactor::Divisor(d) => {
            let num = cycles * d * MILLIONTHS_PER_SECOND;
            assert(0 <= num <= 511 * 255 * MILLIONTHS_PER_SECOND) by (nonlinear_arith)
                requires
                    0 <= cycles * d <= 511 * 255,
                    num == cycles * d * MILLIONTHS_PER_SECOND,
            ;
            lemma_div_bounds(num, crystal_hz);
        },
        ClockFactor::Multiplier(m) => {
            let num = cycles * MILLIONTHS_PER_SECOND;
            let den = crystal_hz * m;
            assert(den >= 1) by (nonlinear_arith)
                requires
                    crystal_hz >= 1,
                    m >= 1,
                    den == crystal_hz * m,
            ;
            lemma_div_bounds(num, den);
        },
    }
}

/// A quotient of a natural number by a positive one lies between zero and the
/// dividend.
pub proof fn lemma_div_bounds(x: int, d: int)
    requires
        x >= 0,
        d >= 1,
    ensures
        0 <= x / d <= x,
{
    vstd::arithmetic::div_mod::lemma_div_pos_is_pos(x, d);
    vstd::arithmetic::div_mod::lemma_div_is_ordered_by_denominator(x, 1, d);
    vstd::arithmetic::div_mod::lemma_div_basics(x);
}

/// Computes one timing-table row.
pub fn compute_timing_entry(factor: ClockFactor, crystal_hz: u32, cycles: usize) -> (entry: TimingTableEntry)
    requires
        factor.valid(),
        crystal_hz >= 1,
        cycles < TIMING_TABLE_LEN,
    ensures
        entry == timing_entry(factor, crystal_hz as int, cycles as int),
        entry.sys_ticks == table_sys_ticks(factor, cycles as int),
        entry.us@ == table_us(factor, crystal_hz as int, cycles as int),
{
    proof {
        lemma_timing_entry_fits(factor, crystal_hz as int, cycles as int);
    }
    let c: u64 = cycles as u64;
    match factor {
        ClockFactor::Divisor(n) => {
            assert(0 <= c * n <= 511 * 255) by (nonlinear_arith)
                requires
                    0 <= c <= 511,
                    0 <= n <= 255,
            ;
            let scaled: u64 = c * (n as u64);
            let sys_ticks: u64 = (c + (n as u64) - 1) / (n as u64);
            assert(scaled * MILLIONTHS_PER_SECOND == c * n * MILLIONTHS_PER_SECOND);
            let millionths: u64 = (scaled * MILLIONTHS_PER_SECOND) / (crystal_hz as u64);
            TimingTableEntry { sys_ticks: sys_ticks as u32, us: Microseconds { millionths } }
        },
        ClockFactor::Multiplier(n) => {
            assert(0 <= c * n <= 511 * 255) by (nonlinear_arith)
                requires
                    0 <= c <= 511,
                    0 <= n <= 255,
            ;
            assert(1 <= crystal_hz * n <= 0xFFFF_FFFF * 255) by (nonlinear_arith)
                requires
                    1 <= crystal_hz <= 0xFFFF_FFFF,
                    1 <= n <= 255,
            ;
            let sys_ticks: u64 = c * (n as u64);
            let rate: u64 = (crystal_hz as u64) * (n as u64);
            let millionths: u64 = (c * MILLIONTHS_PER_SECOND) / rate;
            TimingTableEntry { sys_ticks: sys_ticks as u32, us: Microseconds { millionths } }
        },
    }
}

/// A table holds, in each of its rows, what the closed formulas give for that
/// row's cycle count.
pub open spec fn timing_table_matches(
    table: Seq<TimingTableEntry>,
    factor: ClockFactor,
    crystal_hz: int,
) -> bool {
    &&& table.len() == TIMING_TABLE_LEN
    &&& forall|cycles: int|
        0 <= cycles < TIMING_TABLE_LEN ==> {
            &&& (#[trigger] table[cycles]).sys_ticks == table_sys_ticks(factor, cycles)
            &&& table[cycles].us@ == table_us(factor, crystal_hz, cycles)
        }
}

/// Fills all rows of a timing table for a clock factor and a crystal
/// frequency in hertz.
pub fn update_timing_table(
    timing_table: &mut Vec<TimingTableEntry>,
    clock_factor: ClockFactor,
    crystal_hz: u32,
)
    requires
        old(timing_table)@.len() == TIMING_TABLE_LEN,
        clock_factor.valid(),
        crystal_hz >= 1,
    ensures
        timing_table_matches(final(timing_table)@, clock_factor, crystal_hz as int),
{
    let mut cycles: usize = 0;
    while cycles < TIMING_TABLE_LEN
        invariant
            cycles <= TIMING_TABLE_LEN,
            timing_table@.len() == TIMING_TABLE_LEN,
            clock_factor.valid(),
            crystal_hz >= 1,
            forall|c: int|
                0 <= c < cycles ==> {
                    &&& (#[trigger] timing_table@[c]).sys_ticks == table_sys_ticks(clock_factor, c)
                    &&& timing_table@[c].us@ == table_us(clock_factor, crystal_hz as int, c)
                },
        decreases TIMING_TABLE_LEN - cycles,
    {
        let entry = compute_timing_entry(clock_factor, crystal_hz, cycles);
        timing_table[cycles] = entry;
        cycles += 1;
    }
}

/// Builds the lookup table from CPU cycle counts `0..256` to system ticks.
pub fn build_cycle_lut(factor: ClockFactor) -> (lut: Vec<u32>)
    requires
        factor.valid(),
    ensures
        cycle_lut_matches(lut@, factor),
{
    let mut lut: Vec<u32> = Vec::new();
    let mut c: u32 = 0;
    while c < 256
        invariant
            c <= 256,
            lut@.len() == c,
            factor.valid(),
            forall|i: int| 0 <= i < c ==> #[trigger] lut@[i] == ticks_for_cycles(factor, i),
        decreases 256 - c,
    {
        proof {
            lemma_small_cycles_convert(factor, c as int);
        }
        let ticks = cpu_cycles_to_system_ticks(factor, c);
        lut.push(ticks);
        c += 1;
    }
    lut
}

/// A cycle lookup table holds in row `c` the ticks for `c` cycles.
pub open spec fn cycle_lut_matches(lut: Seq<u32>, factor: ClockFactor) -> bool {
    &&& lut.len() == CYCLE_LUT_LEN
    &&& forall|c: int| 0 <= c < CYCLE_LUT_LEN ==> #[trigger] lut[c] == ticks_for_cycles(factor, c)
}

/// Every cycle count below 2^24 converts to ticks that fit 32 bits, so a
/// device is handed the exact count.
pub proof fn lemma_small_cycles_convert(factor: ClockFactor, cycles: int)
    requires
        factor.valid(),
        0 <= cycles <= 0xFF_FFFF,
    ensures
        0 <= ticks_for_cycles(factor, cycles) <= u32::MAX,
        device_ticks(factor, cycles) == ticks_for_cycles(factor, cycles),
{
    match factor {
        ClockFactor::Divisor(n) => {
            assert(0 <= cycles * n <= 0xFF_FFFF * 255) by (nonlinear_arith)
                requires
                    0 <= cycles <= 0xFF_FFFF,
                    0 <= n <= 255,
            ;
        },
        ClockFactor::Multiplier(n) => {
            lemma_div_bounds(cycles, n as int);
        },
    }
}

} // verus!
