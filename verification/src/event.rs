//! What the scheduler and the devices tell each other: units of elapsed time,
//! device identities and the events that a time slice can produce.
use vstd::prelude::*;
use std::collections::VecDeque;
use crate::timing::{
    lemma_ceil_div_is_ceiling, table_sys_ticks, table_us, ClockFactor, Microseconds,
    MILLIONTHS_PER_SECOND,
};

verus! {

/// The time by which a device is advanced, in the unit that it counts in.
#[derive(Copy, Clone, Debug, PartialEq, Eq, Structural)]
pub enum DeviceRunTimeUnit {
    SystemTicks(u32),
    Microseconds(Microseconds),
}

/// Names a device on the bus.
#[derive(Copy, Clone, Debug, PartialEq, Eq, Structural)]
pub enum DeviceId {
    NoDevice,
    Ppi,
    Pit,
    DmaPrimary,
    DmaSecondary,
    PicPrimary,
    PicSecondary,
    SerialController,
    FloppyController,
    HardDiskController,
    Mouse,
    Video,
}

/// An event that advancing the devices produced and that the CPU has to take
/// into account before its next instruction.
#[derive(Copy, Clone, Debug, PartialEq, Eq, Structural)]
pub enum DeviceEvent {
    /// The DRAM refresh timer was reprogrammed: reload value, current count
    /// and the ticks already gone of the running timer period.
    DramRefreshUpdate(u16, u16, u32),
    /// DRAM refresh was switched on or off.
    DramRefreshEnable(bool),
    /// Turbo mode was switched on or off.
    TurboToggled(bool),
}

/// What one time slice hands to the devices it runs: the elapsed time in both
/// units, a device to stop at, and the events emitted so far.
#[derive(Clone, Debug)]
pub struct DeviceRunContext {
    pub delta_ticks: u32,
    pub delta_us: Microseconds,
    pub break_on: Option<DeviceId>,
    pub events: VecDeque<DeviceEvent>,
}

impl Default for DeviceRunContext {
    /// A context in which no time has passed.
    fn default() -> (ctx: DeviceRunContext)
        ensures
            ctx.delta_ticks == 0,
            ctx.delta_us@ == 0,
            ctx.break_on is None,
            ctx.events@ == Seq::<DeviceEvent>::empty(),
    {
        DeviceRunContext {
            delta_ticks: 0,
            delta_us: Microseconds { millionths: 0 },
            break_on: None,
            events: VecDeque::with_capacity(16),
        }
    }
}

impl DeviceRunContext {
    /// The context for a slice of `cpu_ticks` CPU cycles under a clock factor
    /// and a system clock of `sysclock_hz` hertz. Ticks and time follow the
    /// formulas of the timing table.
    pub fn new(cpu_ticks: u32, factor: ClockFactor, sysclock_hz: u32) -> (ctx: DeviceRunContext)
        requires
            factor.valid(),
            sysclock_hz >= 1,
            table_sys_ticks(factor, cpu_ticks as int) <= u32::MAX,
            table_us(factor, sysclock_hz as int, cpu_ticks as int) <= u64::MAX,
        ensures
            ctx.delta_ticks == table_sys_ticks(factor, cpu_ticks as int),
            ctx.delta_us@ == table_us(factor, sysclock_hz as int, cpu_ticks as int),
            ctx.break_on is None,
            ctx.events@ == Seq::<DeviceEvent>::empty(),
    {
        let c: u128 = cpu_ticks as u128;
        let hz: u128 = sysclock_hz as u128;
        let (delta_ticks, millionths): (u32, u64) = match factor {
            ClockFactor::Divisor(n) => {
                let d: u128 = n as u128;
                assert(0 <= c * d <= 0xFFFF_FFFF * 255) by (nonlinear_arith)
                    requires
                        0 <= c <= 0xFFFF_FFFF,
                        0 <= d <= 255,
                ;
                let scaled: u128 = c * d;
                assert(scaled * MILLIONTHS_PER_SECOND == c * n * MILLIONTHS_PER_SECOND);
                let ticks: u128 = (c + d - 1) / d;
                ((ticks as u32), ((scaled * (MILLIONTHS_PER_SECOND as u128)) / hz) as u64)
            },
            ClockFactor::Multiplier(n) => {
                let m: u128 = n as u128;
                assert(1 <= hz * m <= 0xFFFF_FFFF * 255) by (nonlinear_arith)
                    requires
                        1 <= hz <= 0xFFFF_FFFF,
                        1 <= m <= 255,
                ;
                let ticks: u128 = c * m;
                ((ticks as u32), ((c * (MILLIONTHS_PER_SECOND as u128)) / (hz * m)) as u64)
            },
        };
        DeviceRunContext {
            delta_ticks,
            delta_us: Microseconds { millionths },
            break_on: None,
            events: VecDeque::with_capacity(16),
        }
    }

    /// Asks the slice to stop at a device.
    pub fn set_break_on(&mut self, device: DeviceId)
        ensures
            final(self).break_on == Some(device),
            final(self).delta_ticks == old(self).delta_ticks,
            final(self).delta_us == old(self).delta_us,
            final(self).events == old(self).events,
    {
        self.break_on = Some(device);
    }

    /// Appends an event to those that the slice has emitted.
    pub fn add_event(&mut self, event: DeviceEvent)
        ensures
            final(self).events@ == old(self).events@.push(event),
            final(self).break_on == old(self).break_on,
            final(self).delta_ticks == old(self).delta_ticks,
            final(self).delta_us == old(self).delta_us,
    {
        self.events.push_back(event);
    }
}

/// Tells whether a slice of `cpu_ticks` CPU cycles has ticks and time that fit
/// a [`DeviceRunContext`].
pub fn slice_representable(cpu_ticks: u32, factor: ClockFactor, sysclock_hz: u32) -> (r: bool)
    requires
        factor.valid(),
        sysclock_hz >= 1,
    ensures
        r == (table_sys_ticks(factor, cpu_ticks as int) <= u32::MAX && table_us(
            factor,
            sysclock_hz as int,
            cpu_ticks as int,
        ) <= u64::MAX),
{
    let c: u128 = cpu_ticks as u128;
    let hz: u128 = sysclock_hz as u128;
    match factor {
        ClockFactor::Divisor(n) => {
            let d: u128 = n as u128;
            assert(0 <= c * d <= 0xFFFF_FFFF * 255) by (nonlinear_arith)
                requires
                    0 <= c <= 0xFFFF_FFFF,
                    0 <= d <= 255,
            ;
            let scaled: u128 = c * d;
            assert(scaled * MILLIONTHS_PER_SECOND == c * n * MILLIONTHS_PER_SECOND);
            proof {
                lemma_ceil_div_is_ceiling(cpu_ticks as int, n as int);
            }
            let millionths: u128 = (scaled * (MILLIONTHS_PER_SECOND as u128)) / hz;
            millionths <= 0xFFFF_FFFF_FFFF_FFFF
        },
        ClockFactor::Multiplier(n) => {
            let m: u128 = n as u128;
            assert(1 <= hz * m <= 0xFFFF_FFFF * 255) by (nonlinear_arith)
                requires
                    1 <= hz <= 0xFFFF_FFFF,
                    1 <= m <= 255,
            ;
            assert(0 <= c * m <= 0xFFFF_FFFF * 255) by (nonlinear_arith)
                requires
                    0 <= c <= 0xFFFF_FFFF,
                    1 <= m <= 255,
            ;
            assert(c * MILLIONTHS_PER_SECOND <= 0xFFFF_FFFF * 1_000_000_000_000);
            let millionths: u128 = (c * (MILLIONTHS_PER_SECOND as u128)) / (hz * m);
            c * m <= 0xFFFF_FFFF && millionths <= 0xFFFF_FFFF_FFFF_FFFF
        },
    }
}

} // verus!
