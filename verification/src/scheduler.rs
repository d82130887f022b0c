//! Advancing the devices by one slice of time.
//!
//! The devices are advanced in a fixed order, because each step reads what
//! the steps before it left: keyboard, interrupt controller, peripheral
//! interface, timer, storage controllers with the DMA controller in hand, DMA
//! controller, serial controller and mouse, video cards. What the bus itself
//! decides on the way is computed by the functions at the head of this
//! module, each of which is stated exactly.
use vstd::prelude::*;
use std::collections::VecDeque;
use ringbuf::Producer;
use crate::bus::{BusInterface, CGA_TICK_THRESHOLD, KB_UPDATE_RATE};
use crate::device::{
    advance_dma, advance_fdc, advance_hdc, advance_keyboard, advance_mouse, advance_pic,
    advance_ppi, advance_serial, advance_timer_device, ask_channel, channel_asked, channel_count,
    dma_ran, fdc_ran, hdc_ran, kb_irq_enabled, key_pressed, key_released, keyboard_ran,
    line_pulsed, mouse_ran, pic_ran, ppi_ran, press_key, pulse_line, release_key, scancode_sent,
    scancode_taken, send_scancode, serial_ran, take_scancode, timer_accum, timer_ran, DeviceSet,
    DmaDevice, FloppyDevice, HardDiskDevice, InterruptController, KeybufferEntry, KeyboardDevice,
    MouseDevice, PpiDevice, SerialDevice, TimerDevice, VideoCard, VideoCardSlot,
};
use crate::event::{DeviceEvent, DeviceRunTimeUnit};
use crate::mmio::VideoType;
use crate::timing::{Microseconds, MILLIONTHS_PER_MICROSECOND};

verus! {

/// The interrupt line of the keyboard.
pub const KEYBOARD_IRQ: u8 = 1;

/// The timer channel that times the refresh of dynamic memory.
pub const REFRESH_CHANNEL: usize = 1;

/// The timer channel that times the system clock interrupt.
pub const SYSTEM_CHANNEL: usize = 0;

/// A reload value of the system channel that arms the first timing
/// workaround.
pub const TRIGGER1_RELOAD: u16 = 5117;

/// A reload value of the system channel that arms the second timing
/// workaround.
pub const TRIGGER2_RELOAD: u16 = 5162;

/// The reload value of the system channel at which an armed workaround is
/// released.
pub const TRIGGER_RELEASE_RELOAD: u16 = 19912;

/// The keyboard's update period in millionths of a microsecond.
pub open spec fn kb_period() -> int {
    KB_UPDATE_RATE * MILLIONTHS_PER_MICROSECOND
}

/// The time that the keyboard has waited once `us` more has passed, held at
/// the largest time that can be counted.
pub open spec fn kb_waited(accum: Microseconds, us: Microseconds) -> int {
    if accum@ + us@ <= u64::MAX {
        accum@ + us@
    } else {
        u64::MAX as int
    }
}

/// The keyboard is due: it has waited longer than its update period.
pub open spec fn kb_due(accum: Microseconds, us: Microseconds) -> bool {
    kb_waited(accum, us) > kb_period()
}

/// The time that the keyboard has waited, after the update that is due, if
/// any, has taken one period off it.
pub open spec fn kb_accum_after(accum: Microseconds, us: Microseconds) -> int {
    if kb_due(accum, us) {
        kb_waited(accum, us) - kb_period()
    } else {
        kb_waited(accum, us)
    }
}

/// Adds the elapsed time to the time that the keyboard has waited and tells
/// whether the keyboard is due. If it is, one update period is taken off the
/// waited time.
pub fn accumulate_keyboard_time(accum: Microseconds, us: Microseconds) -> (r: (bool, Microseconds))
    ensures
        r.0 == kb_due(accum, us),
        r.1@ == kb_accum_after(accum, us),
{
    let period: u64 = (KB_UPDATE_RATE as u64) * MILLIONTHS_PER_MICROSECOND;
    let waited: u64 = accum.millionths.saturating_add(us.millionths);
    if waited > period {
        (true, Microseconds { millionths: waited - period })
    } else {
        (false, Microseconds { millionths: waited })
    }
}

/// The sum of two tick counts, held at `u32::MAX` where it does not fit.
pub open spec fn ticks_sum(a: u32, b: u32) -> u32 {
    if a + b <= u32::MAX {
        (a + b) as u32
    } else {
        u32::MAX
    }
}

/// The ticks that a tick-driven video card is advanced by once `sys_ticks`
/// more have passed: all that have gathered, if they are more than the
/// threshold.
pub open spec fn video_ticks_due(accum: u32, sys_ticks: u32) -> Option<u32> {
    if ticks_sum(accum, sys_ticks) > CGA_TICK_THRESHOLD {
        Some(ticks_sum(accum, sys_ticks))
    } else {
        None
    }
}

/// The ticks that stay gathered for a tick-driven video card.
pub open spec fn video_ticks_left(accum: u32, sys_ticks: u32) -> u32 {
    if ticks_sum(accum, sys_ticks) > CGA_TICK_THRESHOLD {
        0
    } else {
        ticks_sum(accum, sys_ticks)
    }
}

/// Adds the elapsed ticks to those gathered for a tick-driven video card.
/// Once more than the threshold have gathered, the card is to be advanced by
/// all of them and none stay.
pub fn accumulate_video_ticks(accum: u32, sys_ticks: u32) -> (r: (Option<u32>, u32))
    ensures
        r.0 == video_ticks_due(accum, sys_ticks),
        r.1 == video_ticks_left(accum, sys_ticks),
        r.1 <= CGA_TICK_THRESHOLD,
{
    let gathered = accum.saturating_add(sys_ticks);
    if gathered > CGA_TICK_THRESHOLD {
        (Some(gathered), 0)
    } else {
        (None, gathered)
    }
}

/// What the bus does about memory refresh after it has asked the refresh
/// channel of the timer whether it changed.
#[derive(Copy, Clone, Debug, PartialEq, Eq, Structural)]
pub enum RefreshStep {
    /// The channel changed and counts: its count is read and the refresh
    /// may be updated.
    Inspect,
    /// The channel does not count any more while refresh is on: refresh is
    /// switched off.
    Disable,
    /// Nothing is done.
    Keep,
}

/// The step that follows from the channel's report and from whether refresh
/// is on. Only a change of the channel makes the bus inspect it; a channel
/// that just goes on counting is left alone.
pub open spec fn refresh_step_of(dirty: bool, counting: bool, refresh_active: bool) -> RefreshStep {
    if counting && dirty {
        RefreshStep::Inspect
    } else if !counting && refresh_active {
        RefreshStep::Disable
    } else {
        RefreshStep::Keep
    }
}

/// Decides what to do about memory refresh.
pub fn refresh_step(dirty: bool, counting: bool, refresh_active: bool) -> (step: RefreshStep)
    ensures
        step == refresh_step_of(dirty, counting, refresh_active),
{
    if counting && dirty {
        RefreshStep::Inspect
    } else if !counting && refresh_active {
        RefreshStep::Disable
    } else {
        RefreshStep::Keep
    }
}

/// The refresh update for a channel that changed and counts. A count above
/// the reload value is out of range and gives none. A count of zero on a
/// channel that has not ticked yet is the channel's first state: the update
/// carries no count and no ticks. Otherwise the update carries the count and
/// the ticks gone of the running timer period.
pub open spec fn refresh_update_of(
    count_register: u16,
    counting_element: u16,
    ticked: bool,
    accum: u32,
) -> Option<DeviceEvent> {
    if counting_element <= count_register {
        if counting_element == 0 && !ticked {
            Some(DeviceEvent::DramRefreshUpdate(count_register, 0, 0))
        } else {
            Some(DeviceEvent::DramRefreshUpdate(count_register, counting_element, accum))
        }
    } else {
        None
    }
}

/// Computes the refresh update for a channel that changed and counts.
pub fn refresh_update(count_register: u16, counting_element: u16, ticked: bool, accum: u32) -> (event:
    Option<DeviceEvent>)
    ensures
        event == refresh_update_of(count_register, counting_element, ticked, accum),
{
    if counting_element <= count_register {
        if counting_element == 0 && !ticked {
            Some(DeviceEvent::DramRefreshUpdate(count_register, 0, 0))
        } else {
            Some(DeviceEvent::DramRefreshUpdate(count_register, counting_element, accum))
        }
    } else {
        None
    }
}

/// The event that follows from what the refresh channel reports and from
/// whether refresh is on.
pub open spec fn refresh_event_of(
    dirty: bool,
    counting: bool,
    ticked: bool,
    count_register: u16,
    counting_element: u16,
    accum: u32,
    refresh_active: bool,
) -> Option<DeviceEvent> {
    match refresh_step_of(dirty, counting, refresh_active) {
        RefreshStep::Inspect => refresh_update_of(count_register, counting_element, ticked, accum),
        RefreshStep::Disable => Some(DeviceEvent::DramRefreshEnable(false)),
        RefreshStep::Keep => None,
    }
}

/// Whether refresh is on after the refresh channel has reported.
pub open spec fn refresh_on_after(
    dirty: bool,
    counting: bool,
    count_register: u16,
    counting_element: u16,
    refresh_active: bool,
) -> bool {
    match refresh_step_of(dirty, counting, refresh_active) {
        RefreshStep::Inspect => counting_element <= count_register || refresh_active,
        RefreshStep::Disable => false,
        RefreshStep::Keep => refresh_active,
    }
}

/// Refresh events come from changes only. A channel that counts and has not
/// changed gives no event and leaves refresh as it is, and so does a channel
/// that does not count while refresh is off. A channel that has stopped
/// counting while refresh is on switches refresh off. A channel that changed
/// and counts within its range gives an update and switches refresh on. No
/// other event than these is ever given.
pub proof fn lemma_refresh_is_edge_triggered(
    dirty: bool,
    counting: bool,
    ticked: bool,
    count_register: u16,
    counting_element: u16,
    accum: u32,
    refresh_active: bool,
)
    ensures
        ({
            let event = refresh_event_of(
                dirty,
                counting,
                ticked,
                count_register,
                counting_element,
                accum,
                refresh_active,
            );
            let on = refresh_on_after(dirty, counting, count_register, counting_element, refresh_active);
            &&& schedulable_event(event)
            &&& counting && !dirty ==> event is None && on == refresh_active
            &&& !counting && !refresh_active ==> event is None && !on
            &&& !counting && refresh_active ==> event == Some(DeviceEvent::DramRefreshEnable(false)) && !on
            &&& counting && dirty && counting_element <= count_register ==> (event matches Some(
                DeviceEvent::DramRefreshUpdate(register, _, _),
            ) && register == count_register) && on
            &&& counting && dirty && counting_element > count_register ==> event is None && on
                == refresh_active
        }),
{
}

/// An event that advancing the devices can return: a refresh update whose
/// count does not exceed its reload value, or refresh being switched off.
pub open spec fn schedulable_event(event: Option<DeviceEvent>) -> bool {
    match event {
        None => true,
        Some(DeviceEvent::DramRefreshUpdate(register, element, _)) => element <= register,
        Some(DeviceEvent::DramRefreshEnable(on)) => !on,
        Some(DeviceEvent::TurboToggled(_)) => false,
    }
}

/// The two timing workarounds after the system channel's reload value was
/// seen: each is armed by its own reload value and stays armed.
pub open spec fn triggers_armed(reload: u16, armed: (bool, bool)) -> (bool, bool) {
    if reload == TRIGGER1_RELOAD {
        (true, armed.1)
    } else if reload == TRIGGER2_RELOAD {
        (armed.0, true)
    } else {
        armed
    }
}

/// Arms the timing workarounds by the system channel's reload value.
pub fn arm_triggers(reload: u16, armed: (bool, bool)) -> (r: (bool, bool))
    ensures
        r == triggers_armed(reload, armed),
{
    if reload == TRIGGER1_RELOAD {
        (true, armed.1)
    } else if reload == TRIGGER2_RELOAD {
        (armed.0, true)
    } else {
        armed
    }
}

/// The two timing workarounds after a tick-driven video card was advanced:
/// at the release reload value one armed workaround is released, the first
/// before the second.
pub open spec fn triggers_released(reload: u16, armed: (bool, bool)) -> (bool, bool) {
    if armed.0 && reload == TRIGGER_RELEASE_RELOAD {
        (false, armed.1)
    } else if armed.1 && reload == TRIGGER_RELEASE_RELOAD {
        (armed.0, false)
    } else {
        armed
    }
}

/// Releases a timing workaround by the system channel's reload value.
pub fn release_triggers(reload: u16, armed: (bool, bool)) -> (r: (bool, bool))
    ensures
        r == triggers_released(reload, armed),
{
    if armed.0 && reload == TRIGGER_RELEASE_RELOAD {
        (false, armed.1)
    } else if armed.1 && reload == TRIGGER_RELEASE_RELOAD {
        (armed.0, false)
    } else {
        armed
    }
}

/// The ticks gathered for the tick-driven video cards after cards of the
/// given kinds have been advanced in turn, each by `sys_ticks` system ticks:
/// every colour adapter adds the ticks to those gathered and, once they pass
/// the threshold, takes them all; no other card counts ticks.
pub open spec fn video_ticks_after(kinds: Seq<Option<VideoType>>, accum: u32, sys_ticks: u32) -> u32
    decreases kinds.len(),
{
    if kinds.len() == 0 {
        accum
    } else {
        let gathered = video_ticks_after(kinds.drop_last(), accum, sys_ticks);
        if kinds.last() == Some(VideoType::CGA) {
            video_ticks_left(gathered, sys_ticks)
        } else {
            gathered
        }
    }
}

/// What the card at position `i` among cards of the given kinds is advanced
/// by, if it is advanced: a colour adapter by the ticks that have gathered for
/// it, once they pass the threshold; any other card by the elapsed time.
pub open spec fn video_delta(
    kinds: Seq<Option<VideoType>>,
    accum: u32,
    sys_ticks: u32,
    us: Microseconds,
    i: int,
) -> Option<DeviceRunTimeUnit> {
    match kinds[i] {
        Some(VideoType::CGA) => match video_ticks_due(
            video_ticks_after(kinds.subrange(0, i), accum, sys_ticks),
            sys_ticks,
        ) {
            Some(ticks) => Some(DeviceRunTimeUnit::SystemTicks(ticks)),
            None => None,
        },
        Some(_) => Some(DeviceRunTimeUnit::Microseconds(us)),
        None => None,
    }
}

/// The timing workarounds that are armed after cards of the given kinds
/// have been advanced in turn: every colour adapter that takes its gathered
/// ticks releases a workaround by the system channel's reload value, if the
/// workarounds are in use.
pub open spec fn triggers_after(
    kinds: Seq<Option<VideoType>>,
    accum: u32,
    sys_ticks: u32,
    reload: u16,
    enabled: bool,
    armed: (bool, bool),
) -> (bool, bool)
    decreases kinds.len(),
{
    if kinds.len() == 0 {
        armed
    } else {
        let gathered = video_ticks_after(kinds.drop_last(), accum, sys_ticks);
        let so_far = triggers_after(kinds.drop_last(), accum, sys_ticks, reload, enabled, armed);
        if kinds.last() == Some(VideoType::CGA) && video_ticks_due(gathered, sys_ticks) is Some && enabled {
            triggers_released(reload, so_far)
        } else {
            so_far
        }
    }
}

impl<D: DeviceSet> BusInterface<D> {
    /// The time that the keyboard has waited for its next update.
    pub open(crate) spec fn kb_accum(self) -> Microseconds {
        self.kb_us_accum
    }

    /// The timing workarounds that are armed: the first and the second.
    pub open(crate) spec fn triggers(self) -> (bool, bool) {
        (self.timer_trigger1_armed, self.timer_trigger2_armed)
    }

    /// Tells which timing workarounds are armed: the first and the second.
    pub fn armed_triggers(&self) -> (armed: (bool, bool))
        ensures
            armed == self.triggers(),
    {
        (self.timer_trigger1_armed, self.timer_trigger2_armed)
    }

    /// Memory refresh is on.
    pub open(crate) spec fn refresh_on(self) -> bool {
        self.refresh_active
    }

    /// A keyboard is installed.
    pub open(crate) spec fn has_keyboard(self) -> bool {
        self.keyboard is Some
    }

    /// The machine's timer is clocked by a crystal of its own.
    pub open(crate) spec fn timer_has_crystal(self) -> bool {
        match self.machine_desc {
            Some(desc) => desc.timer_crystal is Some,
            None => false,
        }
    }

    /// A peripheral interface is installed.
    pub open(crate) spec fn has_ppi(self) -> bool {
        self.ppi is Some
    }

    /// A primary DMA controller is installed.
    pub open(crate) spec fn has_dma(self) -> bool {
        self.dma1 is Some
    }

    /// A timer is installed.
    pub open(crate) spec fn has_timer(self) -> bool {
        self.pit is Some
    }

    /// A device that is handed the bus when it runs is installed: the timer
    /// or the primary DMA controller, without which no storage controller
    /// runs.
    pub open(crate) spec fn has_bus_master(self) -> bool {
        self.pit is Some || self.dma1 is Some
    }

    /// Nothing but devices and the bus's own counters has changed since the
    /// bus was as `before`: memory, flags, mappings and clock are the same,
    /// refresh is on or off as it was, the timer is owed the same ticks, and
    /// the same slots hold a timer and a DMA controller.
    pub open(crate) spec fn quiet_since(self, before: Self) -> bool {
        &&& self.same_memory(before)
        &&& self.same_maps(before)
        &&& self.same_clock(before)
        &&& self.refresh_active == before.refresh_active
        &&& self.dma_counter == before.dma_counter
        &&& self.pit_ticks_advance == before.pit_ticks_advance
        &&& (self.pit is Some) == (before.pit is Some)
        &&& (self.dma1 is Some) == (before.dma1 is Some)
        &&& (self.keyboard is Some) == (before.keyboard is Some)
        &&& self.videocard_ids == before.videocard_ids
        &&& self.videocards@.len() == before.videocards@.len()
    }

    /// The kinds of the installed video cards, in the order of the cards.
    pub open(crate) spec fn card_kinds(self) -> Seq<Option<VideoType>> {
        Seq::new(self.videocards@.len(), |i: int| self.videocards@[i].card.kind())
    }

    /// The video cards have the identities and the kinds of those on the
    /// other bus, each in its place.
    pub open(crate) spec fn same_card_kinds(self, other: Self) -> bool {
        &&& self.videocard_ids == other.videocard_ids
        &&& self.videocards@.len() == other.videocards@.len()
        &&& forall|i: int|
            0 <= i < self.videocards@.len() ==> (#[trigger] self.videocards@[i]).id == other.videocards@[i].id
                && self.videocards@[i].card.kind() == other.videocards@[i].card.kind()
    }

    /// Both buses hold the same devices in the slots that only a write to a
    /// port or a device with the bus in hand can reach: keyboard, timer, DMA
    /// controllers, secondary interrupt controller, floppy and hard disk
    /// controller.
    pub open(crate) spec fn same_idle_slots(self, other: Self) -> bool {
        &&& self.keyboard == other.keyboard
        &&& self.pit == other.pit
        &&& self.dma1 == other.dma1
        &&& self.dma2 == other.dma2
        &&& self.pic2 == other.pic2
        &&& self.fdc == other.fdc
        &&& self.hdc == other.hdc
    }

    /// The ticks of a slice of `sys_ticks` system ticks are exact: those that
    /// the timer and the video cards are advanced by fit 32 bits, so that
    /// none is held at `u32::MAX`.
    pub open spec fn slice_fits(self, sys_ticks: u32) -> bool {
        &&& sys_ticks + self.pit_advance() <= u32::MAX
        &&& sys_ticks + CGA_TICK_THRESHOLD <= u32::MAX
    }

    /// Tells whether the ticks of a slice of `sys_ticks` system ticks are
    /// exact.
    pub fn can_run_slice(&self, sys_ticks: u32) -> (r: bool)
        ensures
            r == self.slice_fits(sys_ticks),
    {
        sys_ticks <= u32::MAX - self.pit_ticks_advance && sys_ticks <= u32::MAX - CGA_TICK_THRESHOLD
    }
}

impl<D: DeviceSet> BusInterface<D> where
    D::Keyboard: KeyboardDevice,
    D::Ppi: PpiDevice<D>,
    D::Pit: TimerDevice<D>,
    D::Dma: DmaDevice<D>,
    D::Pic: InterruptController<D>,
    D::Serial: SerialDevice<D>,
    D::Fdc: FloppyDevice<D>,
    D::Hdc: HardDiskDevice<D>,
    D::Mouse: MouseDevice<D>,
    D::Mda: VideoCard<D>,
    D::Cga: VideoCard<D>,
    D::Ega: VideoCard<D>,
    D::Vga: VideoCard<D>,
 {
    /// What becomes of the peripheral interface and the interrupt controller
    /// when the keyboard has the scancode `scancode` to send, if any. The
    /// interface is sent the scancode once and is as that left it. If it then
    /// has keyboard interrupts enabled, the keyboard's line of the interrupt
    /// controller is pulsed once, and the controller is as that left it;
    /// else the controller is as it was. Without a scancode or an interface
    /// both are as they were.
    pub open(crate) spec fn scancode_forwarded(
        ppi: Option<D::Ppi>,
        pic: Option<D::Pic>,
        ppi_after: Option<D::Ppi>,
        pic_after: Option<D::Pic>,
        scancode: Option<u8>,
    ) -> bool {
        match (scancode, ppi) {
            (Some(byte), Some(interface)) => {
                ppi_after matches Some(latched) && scancode_sent::<D, D::Ppi>(interface, byte, latched) && {
                    ||| {
                        &&& kb_irq_enabled::<D, D::Ppi>(latched, true)
                        &&& match pic {
                            Some(controller) => pic_after matches Some(pulsed) && line_pulsed::<D, D::Pic>(
                                controller,
                                KEYBOARD_IRQ,
                                pulsed,
                            ),
                            None => pic_after is None,
                        }
                    }
                    ||| {
                        &&& kb_irq_enabled::<D, D::Ppi>(latched, false)
                        &&& pic_after == pic
                    }
                }
            },
            _ => ppi_after == ppi && pic_after == pic,
        }
    }

    /// The keyboard `keyboard` took the key event of the slice, if there is
    /// one, and was then asked once for a scancode, which is `scancode`;
    /// `asked` is the keyboard and `queue_after` the queue as that left them.
    /// Without a key event the keyboard is not asked, and both are as they
    /// were.
    pub open(crate) spec fn key_taken(
        keyboard: D::Keyboard,
        kb_event_opt: Option<KeybufferEntry>,
        queue: VecDeque<KeybufferEntry>,
        asked: D::Keyboard,
        queue_after: VecDeque<KeybufferEntry>,
        scancode: Option<u8>,
    ) -> bool {
        match kb_event_opt {
            Some(key) => exists|told: D::Keyboard|
                {
                    &&& if key.pressed {
                        key_pressed::<D::Keyboard>(
                            keyboard,
                            key.keycode,
                            key.modifiers,
                            queue,
                            told,
                            queue_after,
                        )
                    } else {
                        key_released::<D::Keyboard>(keyboard, key.keycode, told) && queue_after == queue
                    }
                    &&& #[trigger] scancode_taken::<D::Keyboard>(told, scancode, asked)
                },
            None => asked == keyboard && queue_after == queue && scancode is None,
        }
    }

    /// A keyboard that is due was advanced once by one update period and
    /// then asked once for a scancode, which is `scancode`; `after` is the
    /// keyboard as that left it. A keyboard that is not due is as it was and
    /// gives no scancode.
    pub open(crate) spec fn keyboard_updated(
        due: bool,
        keyboard: D::Keyboard,
        after: D::Keyboard,
        scancode: Option<u8>,
    ) -> bool {
        if due {
            exists|updated: D::Keyboard|
                {
                    &&& keyboard_ran::<D::Keyboard>(
                        keyboard,
                        Microseconds { millionths: (KB_UPDATE_RATE * MILLIONTHS_PER_MICROSECOND) as u64 },
                        updated,
                    )
                    &&& #[trigger] scancode_taken::<D::Keyboard>(updated, scancode, after)
                }
        } else {
            after == keyboard && scancode is None
        }
    }

    /// The keyboard step in its parts. The keyboard `keyboard` takes the key
    /// event and gives the scancode `first`, which is forwarded; `asked`,
    /// `ppi_between` and `pic_between` are the keyboard, the peripheral
    /// interface and the interrupt controller after that. A keyboard that is
    /// due is then updated and gives the scancode `second`, which is
    /// forwarded; `last`, `ppi_after` and `pic_after` are the three after
    /// that.
    pub open(crate) spec fn keys_forwarded(
        keyboard: D::Keyboard,
        kb_event_opt: Option<KeybufferEntry>,
        queue: VecDeque<KeybufferEntry>,
        queue_after: VecDeque<KeybufferEntry>,
        ppi: Option<D::Ppi>,
        pic: Option<D::Pic>,
        first: Option<u8>,
        asked: D::Keyboard,
        ppi_between: Option<D::Ppi>,
        pic_between: Option<D::Pic>,
        due: bool,
        second: Option<u8>,
        last: D::Keyboard,
        ppi_after: Option<D::Ppi>,
        pic_after: Option<D::Pic>,
    ) -> bool {
        &&& Self::key_taken(keyboard, kb_event_opt, queue, asked, queue_after, first)
        &&& Self::scancode_forwarded(ppi, pic, ppi_between, pic_between, first)
        &&& Self::keyboard_updated(due, asked, last, second)
        &&& Self::scancode_forwarded(ppi_between, pic_between, ppi_after, pic_after, second)
    }

    /// The bus `after` is what the keyboard step makes of this bus, and
    /// `queue_after` what it makes of the queue `queue`. The keyboard takes
    /// the key event and hands over a scancode, if it has one; its waiting
    /// time grows by `us`, and when it is due it is advanced and hands over a
    /// scancode again. Each scancode is forwarded in turn. Each device is as
    /// these calls left it, and nothing but the keyboard, its waiting time,
    /// the peripheral interface and the interrupt controller changes.
    /// Without a keyboard nothing happens.
    pub open(crate) spec fn keyboard_stepped(
        self,
        after: Self,
        us: Microseconds,
        kb_event_opt: Option<KeybufferEntry>,
        queue: VecDeque<KeybufferEntry>,
        queue_after: VecDeque<KeybufferEntry>,
    ) -> bool {
        match self.keyboard {
            None => after == self && queue_after == queue,
            Some(keyboard) => {
                &&& after.wf()
                &&& after.kb_us_accum@ == kb_accum_after(self.kb_us_accum, us)
                &&& after == (BusInterface {
                    keyboard: after.keyboard,
                    ppi: after.ppi,
                    pic1: after.pic1,
                    kb_us_accum: after.kb_us_accum,
                    ..self
                })
                &&& after.keyboard matches Some(last) && exists|
                    first: Option<u8>,
                    asked: D::Keyboard,
                    ppi_between: Option<D::Ppi>,
                    pic_between: Option<D::Pic>,
                    second: Option<u8>,
                | #[trigger]
                    Self::keys_forwarded(
                        keyboard,
                        kb_event_opt,
                        queue,
                        queue_after,
                        self.ppi,
                        self.pic1,
                        first,
                        asked,
                        ppi_between,
                        pic_between,
                        kb_due(self.kb_us_accum, us),
                        second,
                        last,
                        after.ppi,
                        after.pic1,
                    )
            },
        }
    }

    /// The bus `after` is what the interrupt step makes of this bus: the
    /// interrupt controller is advanced once by the ticks, then the
    /// peripheral interface once by the time, with the advanced controller in
    /// hand; both are as these calls left them. Nothing but these two
    /// changes, and without an interrupt controller nothing.
    pub open(crate) spec fn interrupts_stepped(self, after: Self, us: Microseconds, sys_ticks: u32) -> bool {
        match self.pic1 {
            None => after == self,
            Some(controller) => {
                &&& after.wf()
                &&& after == (BusInterface { pic1: after.pic1, ppi: after.ppi, ..self })
                &&& after.pic1 matches Some(last) && match self.ppi {
                    None => after.ppi is None && pic_ran::<D, D::Pic>(controller, sys_ticks, last),
                    Some(interface) => after.ppi matches Some(run) && exists|advanced: D::Pic|
                        pic_ran::<D, D::Pic>(controller, sys_ticks, advanced) && #[trigger] ppi_ran::<
                            D,
                            D::Ppi,
                        >(interface, advanced, us, run, last),
                }
            },
        }
    }

    /// What the timer is advanced by: the time if it has a crystal of its
    /// own, else the ticks and those that it is owed, held at `u32::MAX`.
    pub open(crate) spec fn timer_delta(self, us: Microseconds, sys_ticks: u32) -> DeviceRunTimeUnit {
        if self.timer_has_crystal() {
            DeviceRunTimeUnit::Microseconds(us)
        } else {
            DeviceRunTimeUnit::SystemTicks(ticks_sum(sys_ticks, self.pit_ticks_advance))
        }
    }

    /// What is decided about memory refresh once the refresh channel of
    /// `timer` has reported `report`, with refresh on or off as `active`
    /// says and `counter` as the recorded reload value: the event, whether
    /// refresh is on afterwards, and the reload value recorded afterwards.
    /// The channel's count and the timer's ticks are read only where the
    /// channel changed and counts.
    pub open(crate) spec fn refresh_decided(
        timer: D::Pit,
        report: (bool, bool, bool),
        active: bool,
        counter: u16,
        event: Option<DeviceEvent>,
        active_after: bool,
        counter_after: u16,
    ) -> bool {
        exists|register: u16, element: u16, ticks: u32|
            {
                &&& refresh_step_of(report.0, report.1, active) is Inspect ==> {
                    &&& channel_count::<D, D::Pit>(timer, REFRESH_CHANNEL, (register, element))
                    &&& timer_accum::<D, D::Pit>(timer, ticks)
                }
                &&& event == #[trigger] refresh_event_of(
                    report.0,
                    report.1,
                    report.2,
                    register,
                    element,
                    ticks,
                    active,
                )
                &&& active_after == refresh_on_after(report.0, report.1, register, element, active)
                &&& counter_after == (if event is Some && refresh_step_of(report.0, report.1, active)
                    is Inspect {
                    register
                } else {
                    counter
                })
            }
    }

    /// Refresh is decided on changes only. Whatever the timer is, a refresh
    /// channel that counts and has not changed gives no event and leaves
    /// refresh as it is, and so does one that does not count while refresh is
    /// off. One that has stopped counting while refresh is on gives the event
    /// that switches refresh off, and refresh is off afterwards. One that
    /// changed and counts gives the update that its count and the timer's
    /// ticks make, which are then read from the timer; an update switches
    /// refresh on and records the channel's reload value. The event is always
    /// one that advancing the devices can return.
    pub proof fn lemma_refresh_decided(
        timer: D::Pit,
        report: (bool, bool, bool),
        active: bool,
        counter: u16,
        event: Option<DeviceEvent>,
        active_after: bool,
        counter_after: u16,
    )
        requires
            Self::refresh_decided(timer, report, active, counter, event, active_after, counter_after),
        ensures
            schedulable_event(event),
            report.1 && !report.0 ==> event is None && active_after == active && counter_after == counter,
            !report.1 && !active ==> event is None && !active_after && counter_after == counter,
            !report.1 && active ==> event == Some(DeviceEvent::DramRefreshEnable(false)) && !active_after
                && counter_after == counter,
            report.1 && report.0 ==> exists|register: u16, element: u16, ticks: u32|
                {
                    &&& channel_count::<D, D::Pit>(timer, REFRESH_CHANNEL, (register, element))
                    &&& timer_accum::<D, D::Pit>(timer, ticks)
                    &&& event == #[trigger] refresh_update_of(register, element, report.2, ticks)
                    &&& event is Some ==> active_after && counter_after == register
                    &&& event is None ==> active_after == active && counter_after == counter
                },
    {
        let (register, element, ticks) = choose|register: u16, element: u16, ticks: u32|
            {
                &&& refresh_step_of(report.0, report.1, active) is Inspect ==> {
                    &&& channel_count::<D, D::Pit>(timer, REFRESH_CHANNEL, (register, element))
                    &&& timer_accum::<D, D::Pit>(timer, ticks)
                }
                &&& event == #[trigger] refresh_event_of(
                    report.0,
                    report.1,
                    report.2,
                    register,
                    element,
                    ticks,
                    active,
                )
                &&& active_after == refresh_on_after(report.0, report.1, register, element, active)
                &&& counter_after == (if event is Some && refresh_step_of(report.0, report.1, active)
                    is Inspect {
                    register
                } else {
                    counter
                })
            };
        lemma_refresh_is_edge_triggered(report.0, report.1, report.2, register, element, ticks, active);
        if report.1 && report.0 {
            assert(event == refresh_update_of(register, element, report.2, ticks));
        }
    }

    /// The bus `after` is the bus `self` as the timer left it, with the
    /// timer back in its slot, with what the bus decided on the timer's
    /// report, and with the ticks settled that the timer was owed.
    pub open(crate) spec fn timer_put_back(self, after: Self) -> bool {
        after == (BusInterface {
            pit: after.pit,
            refresh_active: after.refresh_active,
            dma_counter: after.dma_counter,
            timer_trigger1_armed: after.timer_trigger1_armed,
            timer_trigger2_armed: after.timer_trigger2_armed,
            pit_ticks_advance: after.pit_ticks_advance,
            ..self
        })
    }

    /// The timer step after the timer has run. `ran` is the timer and `left`
    /// the bus as the run left them. The timer was asked once whether its
    /// refresh channel changed and reported `report`; refresh was decided on
    /// that, with `event` as the event. The timer, as the question left it,
    /// is in its slot again; its system channel has the reload value
    /// `reload` and the count `count`, and the timing workarounds, if in use,
    /// are armed by that reload value. Ticks that a timer without a crystal
    /// of its own was owed are owed no more.
    pub open(crate) spec fn timer_heard(
        self,
        left: Self,
        after: Self,
        ran: D::Pit,
        report: (bool, bool, bool),
        count: u16,
        event: Option<DeviceEvent>,
        reload: u16,
    ) -> bool {
        &&& left.wf()
        &&& left.timer_put_back(after)
        &&& after.pit matches Some(asked) && {
            &&& channel_asked::<D, D::Pit>(ran, REFRESH_CHANNEL, report, asked)
            &&& Self::refresh_decided(
                asked,
                report,
                left.refresh_active,
                left.dma_counter,
                event,
                after.refresh_active,
                after.dma_counter,
            )
            &&& channel_count::<D, D::Pit>(asked, SYSTEM_CHANNEL, (reload, count))
        }
        &&& after.triggers() == (if left.timer_triggers_enabled {
            triggers_armed(reload, left.triggers())
        } else {
            left.triggers()
        })
        &&& after.pit_ticks_advance == (if self.timer_has_crystal() {
            left.pit_ticks_advance
        } else {
            0
        })
    }

    /// The timer step in its parts: the timer `timer` was advanced once with
    /// the bus without it and the speaker's buffer in hand, which left the
    /// timer as `ran`, the bus as `left` and the buffer as `speaker_after`;
    /// and the timer was then heard.
    pub open(crate) spec fn timer_run_and_heard(
        self,
        timer: D::Pit,
        after: Self,
        us: Microseconds,
        sys_ticks: u32,
        speaker: Producer<u8>,
        speaker_after: Producer<u8>,
        event: Option<DeviceEvent>,
        reload: u16,
        left: Self,
        ran: D::Pit,
        report: (bool, bool, bool),
        count: u16,
    ) -> bool {
        &&& timer_ran::<D, D::Pit>(
            timer,
            BusInterface { pit: None, ..self },
            speaker,
            self.timer_delta(us, sys_ticks),
            ran,
            left,
            speaker_after,
        )
        &&& self.timer_heard(left, after, ran, report, count, event, reload)
    }

    /// The bus `after` is what the timer step makes of this bus, and
    /// `speaker_after` what it makes of the speaker's buffer, with `event` as
    /// the event of the slice and `reload` as the reload value of the system
    /// channel. The timer is advanced once with the bus without it and the
    /// speaker's buffer in hand. Its refresh channel is then asked once
    /// whether it changed, and refresh is decided on its report. Without a
    /// timer nothing happens and there is no event.
    pub open(crate) spec fn timer_stepped(
        self,
        after: Self,
        us: Microseconds,
        sys_ticks: u32,
        speaker: Producer<u8>,
        speaker_after: Producer<u8>,
        event: Option<DeviceEvent>,
        reload: u16,
    ) -> bool {
        match self.pit {
            None => after == self && speaker_after == speaker && event is None && reload == 0,
            Some(timer) => {
                &&& after.wf()
                &&& exists|left: Self, ran: D::Pit, report: (bool, bool, bool), count: u16| #[trigger]
                    self.timer_run_and_heard(
                        timer,
                        after,
                        us,
                        sys_ticks,
                        speaker,
                        speaker_after,
                        event,
                        reload,
                        left,
                        ran,
                        report,
                        count,
                    )
            },
        }
    }

    /// The bus `after` and the DMA controller `dma_after` are what the floppy
    /// disk controller makes of this bus and of `dma`, which is out of its
    /// slot: the controller is advanced once with `dma` and the bus without
    /// the two in hand, and is put back as that left it, into the bus as
    /// that left it. Without a floppy disk controller nothing happens.
    pub open(crate) spec fn floppy_stepped(
        self,
        dma: D::Dma,
        after: Self,
        dma_after: D::Dma,
        us: Microseconds,
    ) -> bool {
        match self.fdc {
            None => after == self && dma_after == dma,
            Some(fdc) => exists|ran: D::Fdc, left: Self|
                {
                    &&& #[trigger] fdc_ran::<D, D::Fdc>(
                        fdc,
                        dma,
                        BusInterface { fdc: None, ..self },
                        us,
                        ran,
                        dma_after,
                        left,
                    )
                    &&& after == (BusInterface { fdc: Some(ran), dma1: None, ..left })
                    &&& after.wf()
                },
        }
    }

    /// The bus `after` and the DMA controller `dma_after` are what the hard
    /// disk controller makes of this bus and of `dma`, which is out of its
    /// slot: the controller is advanced once with `dma` and the bus without
    /// the two in hand, and is put back as that left it, into the bus as
    /// that left it. Without a hard disk controller nothing happens.
    pub open(crate) spec fn hard_disk_stepped(
        self,
        dma: D::Dma,
        after: Self,
        dma_after: D::Dma,
        us: Microseconds,
    ) -> bool {
        match self.hdc {
            None => after == self && dma_after == dma,
            Some(hdc) => exists|ran: D::Hdc, left: Self|
                {
                    &&& #[trigger] hdc_ran::<D, D::Hdc>(
                        hdc,
                        dma,
                        BusInterface { hdc: None, ..self },
                        us,
                        ran,
                        dma_after,
                        left,
                    )
                    &&& after == (BusInterface { hdc: Some(ran), dma1: None, ..left })
                    &&& after.wf()
                },
        }
    }

    /// The storage step in its parts, with the primary DMA controller `dma`
    /// out of its slot: the floppy disk controller steps, which gives
    /// `floppy_done` and `dma_between`; the hard disk controller steps, which
    /// gives `disk_done` and `dma_last`; the DMA controller is advanced once
    /// with the bus in hand, which leaves it as `ran` and the bus as `left`;
    /// and `after` is `left` with `ran` in its slot.
    pub open(crate) spec fn storage_chain(
        self,
        dma: D::Dma,
        after: Self,
        us: Microseconds,
        floppy_done: Self,
        dma_between: D::Dma,
        disk_done: Self,
        dma_last: D::Dma,
        ran: D::Dma,
        left: Self,
    ) -> bool {
        &&& (BusInterface { dma1: None, ..self }).floppy_stepped(dma, floppy_done, dma_between, us)
        &&& floppy_done.hard_disk_stepped(dma_between, disk_done, dma_last, us)
        &&& dma_ran::<D, D::Dma>(dma_last, disk_done, ran, left)
        &&& after == (BusInterface { dma1: Some(ran), ..left })
    }

    /// The bus `after` is what the storage step makes of this bus. The
    /// primary DMA controller is taken out of its slot. The floppy disk
    /// controller is advanced once with it in hand, then the hard disk
    /// controller, then the DMA controller itself with the bus in hand, and
    /// it is put back. Without a primary DMA controller nothing happens.
    pub open(crate) spec fn storage_stepped(self, after: Self, us: Microseconds) -> bool {
        match self.dma1 {
            None => after == self,
            Some(dma) => {
                &&& after.wf()
                &&& exists|
                    floppy_done: Self,
                    dma_between: D::Dma,
                    disk_done: Self,
                    dma_last: D::Dma,
                    ran: D::Dma,
                    left: Self,
                | #[trigger]
                    self.storage_chain(
                        dma,
                        after,
                        us,
                        floppy_done,
                        dma_between,
                        disk_done,
                        dma_last,
                        ran,
                        left,
                    )
            },
        }
    }

    /// The serial step in its parts. The serial controller `controller` is
    /// advanced once with the interrupt controller in hand, if there is one,
    /// and is `port` after that. The mouse, if there is one, is then advanced
    /// once with `port` in hand, and the serial controller is `last` after
    /// that. Each device is as these calls left it.
    pub open(crate) spec fn serial_chain(
        controller: D::Serial,
        pic: Option<D::Pic>,
        mouse: Option<D::Mouse>,
        us: Microseconds,
        port: D::Serial,
        last: D::Serial,
        pic_after: Option<D::Pic>,
        mouse_after: Option<D::Mouse>,
    ) -> bool {
        &&& match pic {
            None => port == controller && pic_after is None,
            Some(interrupts) => pic_after matches Some(raised) && serial_ran::<D, D::Serial>(
                controller,
                interrupts,
                us,
                port,
                raised,
            ),
        }
        &&& match mouse {
            None => last == port && mouse_after is None,
            Some(pointer) => mouse_after matches Some(moved) && mouse_ran::<D, D::Mouse>(
                pointer,
                port,
                us,
                moved,
                last,
            ),
        }
    }

    /// The bus `after` is what the serial step makes of this bus: the serial
    /// controller is advanced once with the interrupt controller in hand,
    /// then the mouse once with the advanced serial controller in hand.
    /// Nothing but these three changes, and without a serial controller
    /// nothing.
    pub open(crate) spec fn serial_stepped(self, after: Self, us: Microseconds) -> bool {
        match self.serial {
            None => after == self,
            Some(controller) => {
                &&& after.wf()
                &&& after == (BusInterface {
                    serial: after.serial,
                    pic1: after.pic1,
                    mouse: after.mouse,
                    ..self
                })
                &&& after.serial matches Some(last) && exists|port: D::Serial| #[trigger]
                    Self::serial_chain(
                        controller,
                        self.pic1,
                        self.mouse,
                        us,
                        port,
                        last,
                        after.pic1,
                        after.mouse,
                    )
            },
        }
    }

    /// What the video step makes of one card: a card that is due is advanced
    /// once by `delta` with the interrupt controller's slot in hand, and the
    /// card and the slot are as that left them; a card that is not due, and
    /// the slot with it, is as it was. The card keeps its identity.
    pub open(crate) spec fn card_stepped(
        slot: VideoCardSlot<D>,
        slot_after: VideoCardSlot<D>,
        delta: Option<DeviceRunTimeUnit>,
        pic: Option<D::Pic>,
        pic_after: Option<D::Pic>,
    ) -> bool {
        &&& slot_after.id == slot.id
        &&& match delta {
            None => slot_after.card == slot.card && pic_after == pic,
            Some(due) => slot.card.advanced(due, pic, slot_after.card, pic_after),
        }
    }

    /// The video cards of `after` are what the video step makes of the cards
    /// of this bus, one after the other, and `pics` are the states of the
    /// interrupt controller's slot on the way: before the first card, between
    /// the cards, and after the last.
    pub open(crate) spec fn cards_stepped(
        self,
        after: Self,
        us: Microseconds,
        sys_ticks: u32,
        pics: Seq<Option<D::Pic>>,
    ) -> bool {
        &&& pics.len() == self.videocards@.len() + 1
        &&& after.videocards@.len() == self.videocards@.len()
        &&& pics[0] == self.pic1
        &&& pics[self.videocards@.len() as int] == after.pic1
        &&& forall|i: int|
            0 <= i < self.videocards@.len() ==> Self::card_stepped(
                #[trigger] self.videocards@[i],
                after.videocards@[i],
                video_delta(self.card_kinds(), self.cga_tick_accum, sys_ticks, us, i),
                pics[i],
                pics[i + 1],
            )
    }

    /// The bus `after` is what the video step makes of this bus, with
    /// `reload` as the reload value of the system channel. Each card that is
    /// due is advanced once with the interrupt controller's slot in hand: a
    /// colour adapter by the ticks that have gathered once they pass the
    /// threshold, any other card by the elapsed time. A card that is not due
    /// is as it was. The cards keep their places, identities and kinds.
    /// Nothing but the cards, the interrupt controller, the gathered ticks
    /// and the armed workarounds changes.
    pub open(crate) spec fn video_stepped(
        self,
        after: Self,
        us: Microseconds,
        sys_ticks: u32,
        reload: u16,
    ) -> bool {
        &&& after.wf()
        &&& after == (BusInterface {
            videocards: after.videocards,
            pic1: after.pic1,
            cga_tick_accum: after.cga_tick_accum,
            timer_trigger1_armed: after.timer_trigger1_armed,
            timer_trigger2_armed: after.timer_trigger2_armed,
            ..self
        })
        &&& after.cga_tick_accum == video_ticks_after(self.card_kinds(), self.cga_tick_accum, sys_ticks)
        &&& after.triggers() == triggers_after(
            self.card_kinds(),
            self.cga_tick_accum,
            sys_ticks,
            reload,
            self.timer_triggers_enabled,
            self.triggers(),
        )
        &&& after.same_card_kinds(self)
        &&& self.videocards@.len() == 0 ==> after == self
        &&& exists|pics: Seq<Option<D::Pic>>| #[trigger] self.cards_stepped(after, us, sys_ticks, pics)
    }

    /// The slice in its steps: the keyboard step, the interrupt step, the
    /// timer step, the storage step, the serial step and the video step,
    /// each on the bus that the step before it left.
    pub open(crate) spec fn slice_chain(
        self,
        after: Self,
        us: Microseconds,
        sys_ticks: u32,
        kb_event_opt: Option<KeybufferEntry>,
        queue: VecDeque<KeybufferEntry>,
        queue_after: VecDeque<KeybufferEntry>,
        speaker: Producer<u8>,
        speaker_after: Producer<u8>,
        event: Option<DeviceEvent>,
        keyed: Self,
        interrupted: Self,
        timed: Self,
        stored: Self,
        sent: Self,
        reload: u16,
    ) -> bool {
        &&& self.keyboard_stepped(keyed, us, kb_event_opt, queue, queue_after)
        &&& keyed.interrupts_stepped(interrupted, us, sys_ticks)
        &&& interrupted.timer_stepped(timed, us, sys_ticks, speaker, speaker_after, event, reload)
        &&& timed.storage_stepped(stored, us)
        &&& stored.serial_stepped(sent, us)
        &&& sent.video_stepped(after, us, sys_ticks, reload)
    }

    /// The bus `after` and the event `event` are what one slice of time
    /// makes of this bus, `queue_after` what it makes of the key queue and
    /// `speaker_after` what it makes of the speaker's buffer: the keyboard
    /// step, the interrupt step, the timer step, the storage step, the serial
    /// step and the video step, each on the bus that the step before it
    /// left. Every device call of a step is made once, and each device is
    /// afterwards as its calls left it. The event is the one that the timer
    /// step decided, and the video step is told the reload value that the
    /// timer step read.
    pub open(crate) spec fn slice_ran(
        self,
        after: Self,
        us: Microseconds,
        sys_ticks: u32,
        kb_event_opt: Option<KeybufferEntry>,
        queue: VecDeque<KeybufferEntry>,
        queue_after: VecDeque<KeybufferEntry>,
        speaker: Producer<u8>,
        speaker_after: Producer<u8>,
        event: Option<DeviceEvent>,
    ) -> bool {
        exists|keyed: Self, interrupted: Self, timed: Self, stored: Self, sent: Self, reload: u16| #[trigger]
            self.slice_chain(
                after,
                us,
                sys_ticks,
                kb_event_opt,
                queue,
                queue_after,
                speaker,
                speaker_after,
                event,
                keyed,
                interrupted,
                timed,
                stored,
                sent,
                reload,
            )
    }

    /// A key of a slice reaches the interrupt line. Where a keyboard is
    /// installed, the key event of the slice is handed to the keyboard, the
    /// keyboard is then asked once for a scancode, and that scancode is
    /// forwarded with the peripheral interface and the interrupt controller
    /// as they were before the slice: the interface is sent it once, and the
    /// keyboard's line is pulsed once if the interface then has keyboard
    /// interrupts enabled, and left alone if not.
    pub proof fn lemma_slice_forwards_key(
        before: Self,
        after: Self,
        us: Microseconds,
        sys_ticks: u32,
        key: KeybufferEntry,
        queue: VecDeque<KeybufferEntry>,
        queue_after: VecDeque<KeybufferEntry>,
        speaker: Producer<u8>,
        speaker_after: Producer<u8>,
        event: Option<DeviceEvent>,
    )
        requires
            before.slice_ran(
                after,
                us,
                sys_ticks,
                Some(key),
                queue,
                queue_after,
                speaker,
                speaker_after,
                event,
            ),
            before.has_keyboard(),
        ensures
            exists|
                asked: D::Keyboard,
                scancode: Option<u8>,
                ppi_after: Option<D::Ppi>,
                pic_after: Option<D::Pic>,
            |
                {
                    &&& #[trigger] Self::key_taken(
                        before.keyboard_slot()->Some_0,
                        Some(key),
                        queue,
                        asked,
                        queue_after,
                        scancode,
                    )
                    &&& #[trigger] Self::scancode_forwarded(
                        before.ppi_slot(),
                        before.pic_slot(),
                        ppi_after,
                        pic_after,
                        scancode,
                    )
                },
    {
        let (keyed, interrupted, timed, stored, sent, reload) = choose|
            keyed: Self,
            interrupted: Self,
            timed: Self,
            stored: Self,
            sent: Self,
            reload: u16,
        | #[trigger]
            before.slice_chain(
                after,
                us,
                sys_ticks,
                Some(key),
                queue,
                queue_after,
                speaker,
                speaker_after,
                event,
                keyed,
                interrupted,
                timed,
                stored,
                sent,
                reload,
            );
        let keyboard = before.keyboard->Some_0;
        let last = keyed.keyboard->Some_0;
        let (first, asked, ppi_between, pic_between, second) = choose|
            first: Option<u8>,
            asked: D::Keyboard,
            ppi_between: Option<D::Ppi>,
            pic_between: Option<D::Pic>,
            second: Option<u8>,
        | #[trigger]
            Self::keys_forwarded(
                keyboard,
                Some(key),
                queue,
                queue_after,
                before.ppi,
                before.pic1,
                first,
                asked,
                ppi_between,
                pic_between,
                kb_due(before.kb_us_accum, us),
                second,
                last,
                keyed.ppi,
                keyed.pic1,
            );
        assert(Self::key_taken(keyboard, Some(key), queue, asked, queue_after, first));
        assert(Self::scancode_forwarded(before.ppi, before.pic1, ppi_between, pic_between, first));
    }

    /// The event of a slice is what the timer's report makes it. The timer
    /// step starts on a bus that has the timer, the owed ticks and the
    /// description of the machine that the bus had before the slice. Where a
    /// timer is installed, it is advanced once with the bus without it in
    /// hand, by the time if it has a crystal of its own and else by the ticks
    /// and those it is owed; its refresh channel is asked once whether it
    /// changed; and the event of the slice is decided on the channel's report
    /// and on whether refresh was on when the timer had run.
    pub proof fn lemma_slice_event(
        before: Self,
        after: Self,
        us: Microseconds,
        sys_ticks: u32,
        kb_event_opt: Option<KeybufferEntry>,
        queue: VecDeque<KeybufferEntry>,
        queue_after: VecDeque<KeybufferEntry>,
        speaker: Producer<u8>,
        speaker_after: Producer<u8>,
        event: Option<DeviceEvent>,
    )
        requires
            before.slice_ran(
                after,
                us,
                sys_ticks,
                kb_event_opt,
                queue,
                queue_after,
                speaker,
                speaker_after,
                event,
            ),
        ensures
            exists|timed_from: Self, timed: Self, reload: u16|
                {
                    &&& timed_from.pit_slot() == before.pit_slot()
                    &&& timed_from.pit_advance() == before.pit_advance()
                    &&& timed_from.descriptor() == before.descriptor()
                    &&& #[trigger] timed_from.timer_stepped(
                        timed,
                        us,
                        sys_ticks,
                        speaker,
                        speaker_after,
                        event,
                        reload,
                    )
                },
            !before.has_timer() ==> event is None,
    {
        let (keyed, interrupted, timed, stored, sent, reload) = choose|
            keyed: Self,
            interrupted: Self,
            timed: Self,
            stored: Self,
            sent: Self,
            reload: u16,
        | #[trigger]
            before.slice_chain(
                after,
                us,
                sys_ticks,
                kb_event_opt,
                queue,
                queue_after,
                speaker,
                speaker_after,
                event,
                keyed,
                interrupted,
                timed,
                stored,
                sent,
                reload,
            );
        assert(keyed.pit == before.pit && keyed.pit_ticks_advance == before.pit_ticks_advance
            && keyed.machine_desc == before.machine_desc);
        assert(interrupted.pit == keyed.pit && interrupted.pit_ticks_advance == keyed.pit_ticks_advance
            && interrupted.machine_desc == keyed.machine_desc);
        assert(interrupted.timer_stepped(timed, us, sys_ticks, speaker, speaker_after, event, reload));
    }

    /// Hands a scancode to the peripheral interface, which latches it. If
    /// the interface has keyboard interrupts enabled, the keyboard's line of
    /// the interrupt controller is pulsed.
    fn forward_scancode(ppi: &mut Option<D::Ppi>, pic: &mut Option<D::Pic>, byte: u8)
        ensures
            *old(ppi) is None ==> *final(ppi) == *old(ppi) && *final(pic) == *old(pic),
            *old(pic) is None ==> *final(pic) == *old(pic),
            (*final(ppi) is Some) == (*old(ppi) is Some),
            (*final(pic) is Some) == (*old(pic) is Some),
            Self::scancode_forwarded(*old(ppi), *old(pic), *final(ppi), *final(pic), Some(byte)),
    {
        if let Some(interface) = ppi {
            let ghost before = *interface;
            let Ghost(latched) = send_scancode::<D, D::Ppi>(interface, byte);
            let enabled = interface.kb_enabled();
            if enabled {
                if let Some(controller) = pic {
                    let ghost resting = *controller;
                    let Ghost(pulsed) = pulse_line::<D, D::Pic>(controller, KEYBOARD_IRQ);
                    assert(line_pulsed::<D, D::Pic>(resting, KEYBOARD_IRQ, pulsed));
                }
            }
            proof {
                assert(scancode_sent::<D, D::Ppi>(before, byte, latched));
                assert(kb_irq_enabled::<D, D::Ppi>(latched, enabled));
            }
        }
    }

    /// The first half of the keyboard step: the keyboard takes the key event
    /// of the slice and hands over a scancode, which is forwarded. Returns
    /// the scancode.
    fn take_key(
        keyboard: &mut D::Keyboard,
        ppi: &mut Option<D::Ppi>,
        pic: &mut Option<D::Pic>,
        kb_event_opt: Option<KeybufferEntry>,
        kb_buf: &mut VecDeque<KeybufferEntry>,
    ) -> (first: Ghost<Option<u8>>)
        ensures
            Self::key_taken(*old(keyboard), kb_event_opt, *old(kb_buf), *final(keyboard), *final(kb_buf), first@),
            Self::scancode_forwarded(*old(ppi), *old(pic), *final(ppi), *final(pic), first@),
            (*final(ppi) is Some) == (*old(ppi) is Some),
            (*final(pic) is Some) == (*old(pic) is Some),
    {
        if let Some(kb_event) = kb_event_opt {
            let ghost before = *keyboard;
            if kb_event.pressed {
                let Ghost(pressed) = press_key::<D::Keyboard>(
                    keyboard,
                    kb_event.keycode,
                    &kb_event.modifiers,
                    kb_buf,
                );
                assert(key_pressed::<D::Keyboard>(
                    before,
                    kb_event.keycode,
                    kb_event.modifiers,
                    *old(kb_buf),
                    pressed.0,
                    pressed.1,
                ));
            } else {
                let Ghost(released) = release_key::<D::Keyboard>(keyboard, kb_event.keycode);
                assert(key_released::<D::Keyboard>(before, kb_event.keycode, released));
            }
            let ghost told = *keyboard;
            let (scancode, Ghost(asked)) = take_scancode::<D::Keyboard>(keyboard);
            assert(scancode_taken::<D::Keyboard>(told, scancode, asked));
            if let Some(kb_byte) = scancode {
                Self::forward_scancode(ppi, pic, kb_byte);
            }
            Ghost(scancode)
        } else {
            Ghost(None)
        }
    }

    /// The second half of the keyboard step: a keyboard that is due is
    /// advanced by one update period and hands over a scancode, which is
    /// forwarded. Returns the scancode.
    fn update_keyboard(
        keyboard: &mut D::Keyboard,
        ppi: &mut Option<D::Ppi>,
        pic: &mut Option<D::Pic>,
        due: bool,
    ) -> (second: Ghost<Option<u8>>)
        ensures
            Self::keyboard_updated(due, *old(keyboard), *final(keyboard), second@),
            Self::scancode_forwarded(*old(ppi), *old(pic), *final(ppi), *final(pic), second@),
            (*final(ppi) is Some) == (*old(ppi) is Some),
            (*final(pic) is Some) == (*old(pic) is Some),
    {
        if due {
            let ghost waiting = *keyboard;
            let Ghost(updated) = advance_keyboard::<D::Keyboard>(
                keyboard,
                Microseconds::from_whole(KB_UPDATE_RATE),
            );
            let (scancode, Ghost(asked)) = take_scancode::<D::Keyboard>(keyboard);
            proof {
                assert(keyboard_ran::<D::Keyboard>(
                    waiting,
                    Microseconds { millionths: (KB_UPDATE_RATE * MILLIONTHS_PER_MICROSECOND) as u64 },
                    updated,
                ));
                assert(scancode_taken::<D::Keyboard>(updated, scancode, asked));
            }
            if let Some(kb_byte) = scancode {
                Self::forward_scancode(ppi, pic, kb_byte);
            }
            Ghost(scancode)
        } else {
            Ghost(None)
        }
    }

    /// Step 1: the keyboard takes the key event of the slice and is advanced
    /// when it is due; its scancodes go to the peripheral interface.
    fn run_keyboard(
        &mut self,
        us: Microseconds,
        kb_event_opt: Option<KeybufferEntry>,
        kb_buf: &mut VecDeque<KeybufferEntry>,
    )
        requires
            old(self).wf(),
        ensures
            final(self).wf(),
            final(self).quiet_since(*old(self)),
            final(self).video_ticks_gathered() == old(self).video_ticks_gathered(),
            final(self).kb_accum()@ == (if old(self).has_keyboard() {
                kb_accum_after(old(self).kb_accum(), us)
            } else {
                old(self).kb_accum()@
            }),
            old(self).keyboard_stepped(*final(self), us, kb_event_opt, *old(kb_buf), *final(kb_buf)),
    {
        let ghost mut first: Option<u8> = None;
        let ghost mut second: Option<u8> = None;
        let ghost mut ppi_between = self.ppi;
        let ghost mut pic_between = self.pic1;
        let ghost mut asked = self.keyboard;
        if let Some(keyboard) = &mut self.keyboard {
            let Ghost(taken) = Self::take_key(keyboard, &mut self.ppi, &mut self.pic1, kb_event_opt, kb_buf);
            proof {
                first = taken;
                asked = Some(*keyboard);
                ppi_between = self.ppi;
                pic_between = self.pic1;
            }
            let (due, waited) = accumulate_keyboard_time(self.kb_us_accum, us);
            self.kb_us_accum = waited;
            let Ghost(updated) = Self::update_keyboard(keyboard, &mut self.ppi, &mut self.pic1, due);
            proof {
                second = updated;
            }
        }
        proof {
            if old(self).keyboard is Some {
                assert(Self::keys_forwarded(
                    old(self).keyboard->Some_0,
                    kb_event_opt,
                    *old(kb_buf),
                    *kb_buf,
                    old(self).ppi,
                    old(self).pic1,
                    first,
                    asked->Some_0,
                    ppi_between,
                    pic_between,
                    kb_due(old(self).kb_us_accum, us),
                    second,
                    self.keyboard->Some_0,
                    self.ppi,
                    self.pic1,
                ));
                assert(old(self).keyboard_stepped(*self, us, kb_event_opt, *old(kb_buf), *kb_buf));
            }
        }
    }

    /// Steps 2 and 3: the interrupt controller is advanced by the ticks, then
    /// the peripheral interface by the time, with the interrupt controller in
    /// hand.
    fn run_interrupt_controller(&mut self, us: Microseconds, sys_ticks: u32)
        requires
            old(self).wf(),
        ensures
            final(self).wf(),
            final(self).quiet_since(*old(self)),
            final(self).video_ticks_gathered() == old(self).video_ticks_gathered(),
            final(self).kb_accum() == old(self).kb_accum(),
            final(self).same_schedule(*old(self)),
            final(self).same_idle_slots(*old(self)),
            final(self).serial == old(self).serial,
            final(self).mouse == old(self).mouse,
            final(self).videocards == old(self).videocards,
            (final(self).pic1 is Some) == (old(self).pic1 is Some),
            (final(self).ppi is Some) == (old(self).ppi is Some),
            old(self).pic1 is None ==> *final(self) == *old(self),
            old(self).ppi is None ==> final(self).ppi == old(self).ppi,
            old(self).interrupts_stepped(*final(self), us, sys_ticks),
    {
        let ghost mut advanced = self.pic1;
        if let Some(pic) = &mut self.pic1 {
            let ghost controller = *pic;
            let Ghost(ran) = advance_pic::<D, D::Pic>(pic, sys_ticks);
            proof {
                advanced = Some(*pic);
                assert(pic_ran::<D, D::Pic>(controller, sys_ticks, *pic));
            }
            if let Some(ppi) = &mut self.ppi {
                let ghost interface = *ppi;
                let ghost handed = *pic;
                let Ghost(run) = advance_ppi::<D, D::Ppi>(ppi, pic, us);
                assert(ppi_ran::<D, D::Ppi>(interface, handed, us, *ppi, *pic));
            }
        } else {
            assert(*self == *old(self));
        }
        proof {
            if old(self).pic1 is Some {
                assert(pic_ran::<D, D::Pic>(old(self).pic1->Some_0, sys_ticks, advanced->Some_0));
                if old(self).ppi is Some {
                    assert(ppi_ran::<D, D::Ppi>(
                        old(self).ppi->Some_0,
                        advanced->Some_0,
                        us,
                        self.ppi->Some_0,
                        self.pic1->Some_0,
                    ));
                }
                assert(old(self).interrupts_stepped(*self, us, sys_ticks));
            }
        }
    }

    /// Advances the timer, which is out of its slot, with the bus in hand: by
    /// the time if it has a crystal of its own, else by the ticks and those
    /// it is owed, which are owed no more. Returns the bus as the timer left
    /// it.
    fn advance_timer(
        &mut self,
        pit: &mut D::Pit,
        us: Microseconds,
        sys_ticks: u32,
        speaker_buf_producer: &mut Producer<u8>,
    ) -> (left: Ghost<Self>)
        requires
            old(self).wf(),
            old(self).pit is None,
        ensures
            final(self).wf(),
            left@.wf(),
            timer_ran::<D, D::Pit>(
                *old(pit),
                *old(self),
                *old(speaker_buf_producer),
                old(self).timer_delta(us, sys_ticks),
                *final(pit),
                left@,
                *final(speaker_buf_producer),
            ),
            *final(self) == (BusInterface {
                pit_ticks_advance: if old(self).timer_has_crystal() {
                    left@.pit_ticks_advance
                } else {
                    0
                },
                ..left@
            }),
    {
        let timer_crystal = match self.machine_desc {
            Some(desc) => desc.timer_crystal,
            None => None,
        };
        let ghost timer = *pit;
        if timer_crystal.is_some() {
            let Ghost(ran) = advance_timer_device::<D, D::Pit>(
                pit,
                self,
                speaker_buf_producer,
                DeviceRunTimeUnit::Microseconds(us),
            );
            proof {
                assert(timer_ran::<D, D::Pit>(
                    timer,
                    *old(self),
                    *old(speaker_buf_producer),
                    DeviceRunTimeUnit::Microseconds(us),
                    ran.0,
                    ran.1,
                    ran.2,
                ));
            }
            Ghost(*self)
        } else {
            let owed = self.pit_ticks_advance;
            let delta = DeviceRunTimeUnit::SystemTicks(sys_ticks.saturating_add(owed));
            let Ghost(ran) = advance_timer_device::<D, D::Pit>(pit, self, speaker_buf_producer, delta);
            proof {
                assert(timer_ran::<D, D::Pit>(
                    timer,
                    *old(self),
                    *old(speaker_buf_producer),
                    delta,
                    ran.0,
                    ran.1,
                    ran.2,
                ));
            }
            let ghost left = *self;
            self.pit_ticks_advance = 0;
            Ghost(left)
        }
    }

    /// Asks the refresh channel of the timer whether it changed and decides
    /// on its report what becomes of memory refresh. Returns the event and
    /// the report.
    fn decide_refresh(&mut self, pit: &mut D::Pit) -> (r: (Option<DeviceEvent>, Ghost<(bool, bool, bool)>))
        requires
            old(self).wf(),
        ensures
            final(self).wf(),
            schedulable_event(r.0),
            r.0 is Some ==> final(self).refresh_active == (r.0 matches Some(
                DeviceEvent::DramRefreshUpdate(_, _, _),
            )),
            *final(self) == (BusInterface {
                refresh_active: final(self).refresh_active,
                dma_counter: final(self).dma_counter,
                ..*old(self)
            }),
            channel_asked::<D, D::Pit>(*old(pit), REFRESH_CHANNEL, r.1@, *final(pit)),
            Self::refresh_decided(
                *final(pit),
                r.1@,
                old(self).refresh_active,
                old(self).dma_counter,
                r.0,
                final(self).refresh_active,
                final(self).dma_counter,
            ),
    {
        let mut event: Option<DeviceEvent> = None;
        let ghost ran = *pit;
        let ((pit_dirty, pit_counting, pit_ticked), Ghost(asked)) = ask_channel::<D, D::Pit>(
            pit,
            REFRESH_CHANNEL,
        );
        let ghost report = (pit_dirty, pit_counting, pit_ticked);
        assert(channel_asked::<D, D::Pit>(ran, REFRESH_CHANNEL, report, asked));
        let ghost mut register: u16 = 0;
        let ghost mut element: u16 = 0;
        let ghost mut ticks: u32 = 0;
        match refresh_step(pit_dirty, pit_counting, self.refresh_active) {
            RefreshStep::Inspect => {
                let (dma_count_register, dma_counting_element) = pit.get_channel_count(REFRESH_CHANNEL);
                let dma_add_ticks = pit.get_timer_accum();
                proof {
                    register = dma_count_register;
                    element = dma_counting_element;
                    ticks = dma_add_ticks;
                }
                let update = refresh_update(
                    dma_count_register,
                    dma_counting_element,
                    pit_ticked,
                    dma_add_ticks,
                );
                if update.is_some() {
                    self.dma_counter = dma_count_register;
                    self.refresh_active = true;
                    event = update;
                }
            },
            RefreshStep::Disable => {
                event = Some(DeviceEvent::DramRefreshEnable(false));
                self.refresh_active = false;
            },
            RefreshStep::Keep => {},
        }
        proof {
            assert(event == refresh_event_of(
                report.0,
                report.1,
                report.2,
                register,
                element,
                ticks,
                old(self).refresh_active,
            ));
        }
        (event, Ghost(report))
    }

    /// Reads the reload value of the timer's system channel and arms the
    /// timing workarounds by it, if they are in use. Returns the reload value
    /// and the channel's count.
    fn arm_workarounds(&mut self, pit: &D::Pit) -> (r: (u16, Ghost<u16>))
        requires
            old(self).wf(),
        ensures
            final(self).wf(),
            channel_count::<D, D::Pit>(*pit, SYSTEM_CHANNEL, (r.0, r.1@)),
            *final(self) == (BusInterface {
                timer_trigger1_armed: final(self).timer_trigger1_armed,
                timer_trigger2_armed: final(self).timer_trigger2_armed,
                ..*old(self)
            }),
            final(self).triggers() == (if old(self).timer_triggers_enabled {
                triggers_armed(r.0, old(self).triggers())
            } else {
                old(self).triggers()
            }),
    {
        let (reload, counting_element) = pit.get_channel_count(SYSTEM_CHANNEL);
        if self.timer_triggers_enabled {
            let armed = arm_triggers(reload, (self.timer_trigger1_armed, self.timer_trigger2_armed));
            self.timer_trigger1_armed = armed.0;
            self.timer_trigger2_armed = armed.1;
        }
        (reload, Ghost(counting_element))
    }

    /// Steps 4 and 5: the timer is advanced with the bus in hand, its refresh
    /// channel is asked whether it changed, and the event of the slice is
    /// decided. Returns the event and the reload value of the system channel.
    fn run_timer(&mut self, us: Microseconds, sys_ticks: u32, speaker_buf_producer: &mut Producer<u8>) -> (r:
        (Option<DeviceEvent>, u16))
        requires
            old(self).wf(),
        ensures
            final(self).wf(),
            schedulable_event(r.0),
            !old(self).has_timer() ==> r.0 is None && *final(self) == *old(self),
            final(self).has_timer() == old(self).has_timer(),
            r.0 is Some ==> final(self).refresh_on() == (r.0 matches Some(
                DeviceEvent::DramRefreshUpdate(_, _, _),
            )),
            old(self).has_timer() && !old(self).timer_has_crystal() ==> final(self).pit_advance() == 0,
            old(self).timer_stepped(
                *final(self),
                us,
                sys_ticks,
                *old(speaker_buf_producer),
                *final(speaker_buf_producer),
                r.0,
                r.1,
            ),
    {
        if let Some(mut pit) = self.pit.take() {
            let ghost timer = pit;
            let ghost handed = *self;
            let Ghost(left) = self.advance_timer(&mut pit, us, sys_ticks, speaker_buf_producer);
            let ghost ran = pit;
            let (event, Ghost(report)) = self.decide_refresh(&mut pit);
            let (reload, Ghost(count)) = self.arm_workarounds(&pit);
            self.pit = Some(pit);
            proof {
                assert(handed == (BusInterface { pit: None, ..*old(self) }));
                assert(handed.timer_delta(us, sys_ticks) == old(self).timer_delta(us, sys_ticks));
                assert(left.timer_put_back(*self));
                assert(old(self).timer_heard(left, *self, ran, report, count, event, reload));
                assert(old(self).timer_run_and_heard(
                    timer,
                    *self,
                    us,
                    sys_ticks,
                    *old(speaker_buf_producer),
                    *speaker_buf_producer,
                    event,
                    reload,
                    left,
                    ran,
                    report,
                    count,
                ));
            }
            (event, reload)
        } else {
            assert(*self == *old(self));
            (None, 0)
        }
    }

    /// The floppy disk controller's part of the storage step, with the DMA
    /// controller out of its slot.
    fn run_floppy(&mut self, dma1: &mut D::Dma, us: Microseconds)
        requires
            old(self).wf(),
            old(self).dma1 is None,
        ensures
            final(self).wf(),
            final(self).dma1 is None,
            old(self).floppy_stepped(*old(dma1), *final(self), *final(dma1), us),
    {
        if let Some(mut fdc) = self.fdc.take() {
            let ghost floppy = fdc;
            let ghost dma = *dma1;
            let ghost handed = *self;
            let Ghost(ran) = advance_fdc::<D, D::Fdc>(&mut fdc, dma1, self, us);
            self.fdc = Some(fdc);
            self.dma1 = None;
            proof {
                assert(handed == (BusInterface { fdc: None, ..*old(self) }));
                assert(fdc_ran::<D, D::Fdc>(floppy, dma, handed, us, ran.0, ran.1, ran.2));
                assert(*self == (BusInterface { fdc: Some(ran.0), dma1: None, ..ran.2 }));
            }
        }
    }

    /// The hard disk controller's part of the storage step, with the DMA
    /// controller out of its slot.
    fn run_hard_disk(&mut self, dma1: &mut D::Dma, us: Microseconds)
        requires
            old(self).wf(),
            old(self).dma1 is None,
        ensures
            final(self).wf(),
            final(self).dma1 is None,
            old(self).hard_disk_stepped(*old(dma1), *final(self), *final(dma1), us),
    {
        if let Some(mut hdc) = self.hdc.take() {
            let ghost disk = hdc;
            let ghost dma = *dma1;
            let ghost handed = *self;
            let Ghost(ran) = advance_hdc::<D, D::Hdc>(&mut hdc, dma1, self, us);
            self.hdc = Some(hdc);
            self.dma1 = None;
            proof {
                assert(handed == (BusInterface { hdc: None, ..*old(self) }));
                assert(hdc_ran::<D, D::Hdc>(disk, dma, handed, us, ran.0, ran.1, ran.2));
                assert(*self == (BusInterface { hdc: Some(ran.0), dma1: None, ..ran.2 }));
            }
        }
    }

    /// Step 6: the storage controllers are advanced with the DMA controller
    /// and the bus in hand, then the DMA controller with the bus in hand.
    /// The slot of the DMA controller is empty all the while: whatever a
    /// storage controller may have put there is dropped.
    fn run_storage(&mut self, us: Microseconds)
        requires
            old(self).wf(),
        ensures
            final(self).wf(),
            !old(self).has_dma() ==> *final(self) == *old(self),
            final(self).has_dma() == old(self).has_dma(),
            old(self).storage_stepped(*final(self), us),
    {
        if let Some(mut dma1) = self.dma1.take() {
            let ghost dma = dma1;
            let ghost taken = *self;
            self.run_floppy(&mut dma1, us);
            let ghost floppy_done = *self;
            let ghost dma_between = dma1;
            self.run_hard_disk(&mut dma1, us);
            let ghost disk_done = *self;
            let ghost dma_last = dma1;
            let Ghost(ran) = advance_dma::<D, D::Dma>(&mut dma1, self);
            self.dma1 = Some(dma1);
            proof {
                assert(taken == (BusInterface { dma1: None, ..*old(self) }));
                assert(dma_ran::<D, D::Dma>(dma_last, disk_done, ran.0, ran.1));
                assert(*self == (BusInterface { dma1: Some(ran.0), ..ran.1 }));
                assert(old(self).storage_chain(
                    dma,
                    *self,
                    us,
                    floppy_done,
                    dma_between,
                    disk_done,
                    dma_last,
                    ran.0,
                    ran.1,
                ));
            }
        } else {
            assert(*self == *old(self));
        }
    }

    /// Step 7: the serial controller is advanced with the interrupt
    /// controller in hand, then the mouse with the serial controller in hand.
    fn run_serial(&mut self, us: Microseconds)
        requires
            old(self).wf(),
        ensures
            final(self).wf(),
            final(self).quiet_since(*old(self)),
            final(self).video_ticks_gathered() == old(self).video_ticks_gathered(),
            final(self).kb_accum() == old(self).kb_accum(),
            final(self).same_schedule(*old(self)),
            final(self).same_idle_slots(*old(self)),
            final(self).ppi == old(self).ppi,
            final(self).videocards == old(self).videocards,
            (final(self).serial is Some) == (old(self).serial is Some),
            (final(self).pic1 is Some) == (old(self).pic1 is Some),
            (final(self).mouse is Some) == (old(self).mouse is Some),
            old(self).serial is None ==> *final(self) == *old(self),
            old(self).pic1 is None ==> final(self).pic1 == old(self).pic1,
            old(self).mouse is None ==> final(self).mouse == old(self).mouse,
            old(self).serial_stepped(*final(self), us),
    {
        let ghost mut port = self.serial;
        if let Some(serial) = &mut self.serial {
            let ghost controller = *serial;
            if let Some(pic) = &mut self.pic1 {
                let ghost interrupts = *pic;
                let Ghost(ran) = advance_serial::<D, D::Serial>(serial, pic, us);
                assert(serial_ran::<D, D::Serial>(controller, interrupts, us, *serial, *pic));
            }
            proof {
                port = Some(*serial);
            }
            if let Some(mouse) = &mut self.mouse {
                let ghost pointer = *mouse;
                let ghost handed = *serial;
                let Ghost(moved) = advance_mouse::<D, D::Mouse>(mouse, serial, us);
                assert(mouse_ran::<D, D::Mouse>(pointer, handed, us, *mouse, *serial));
            }
        } else {
            assert(*self == *old(self));
        }
        proof {
            if old(self).serial is Some {
                assert(Self::serial_chain(
                    old(self).serial->Some_0,
                    old(self).pic1,
                    old(self).mouse,
                    us,
                    port->Some_0,
                    self.serial->Some_0,
                    self.pic1,
                    self.mouse,
                ));
                assert(old(self).serial_stepped(*self, us));
            }
        }
    }

    /// Step 8: the video cards are advanced, each with the interrupt
    /// controller in hand. A colour adapter is advanced by the ticks that
    /// have gathered once they pass the threshold, any other card by the
    /// elapsed time. The cards keep their places, identities and kinds; of
    /// the other devices only the interrupt controller may change.
    fn run_video(&mut self, us: Microseconds, sys_ticks: u32, pit_reload_value: u16)
        requires
            old(self).wf(),
        ensures
            final(self).wf(),
            final(self).quiet_since(*old(self)),
            final(self).kb_accum() == old(self).kb_accum(),
            final(self).workarounds_enabled() == old(self).workarounds_enabled(),
            final(self).same_card_kinds(*old(self)),
            final(self).same_idle_slots(*old(self)),
            final(self).ppi == old(self).ppi,
            final(self).serial == old(self).serial,
            final(self).mouse == old(self).mouse,
            old(self).cards().len() == 0 ==> *final(self) == *old(self),
            old(self).video_stepped(*final(self), us, sys_ticks, pit_reload_value),
    {
        let card_count = self.videocards.len();
        let ghost kinds = self.card_kinds();
        let ghost mut pics: Seq<Option<D::Pic>> = seq![self.pic1];
        let mut i: usize = 0;
        proof {
            assert(kinds.subrange(0, 0) =~= Seq::<Option<VideoType>>::empty());
        }
        while i < card_count
            invariant
                i <= card_count,
                card_count == self.videocards@.len(),
                card_count == old(self).videocards@.len(),
                self.wf(),
                    self.quiet_since(*old(self)),
                self.kb_us_accum == old(self).kb_us_accum,
                self.timer_triggers_enabled == old(self).timer_triggers_enabled,
                kinds == old(self).card_kinds(),
                kinds.len() == card_count,
                self.same_card_kinds(*old(self)),
                self.same_idle_slots(*old(self)),
                self.ppi == old(self).ppi,
                self.serial == old(self).serial,
                self.mouse == old(self).mouse,
                *self == (BusInterface {
                    videocards: self.videocards,
                    pic1: self.pic1,
                    cga_tick_accum: self.cga_tick_accum,
                    timer_trigger1_armed: self.timer_trigger1_armed,
                    timer_trigger2_armed: self.timer_trigger2_armed,
                    ..*old(self)
                }),
                card_count == 0 ==> *self == *old(self),
                pics.len() == i + 1,
                pics[0] == old(self).pic1,
                pics[i as int] == self.pic1,
                forall|k: int|
                    i <= k < card_count ==> #[trigger] self.videocards@[k] == old(self).videocards@[k],
                forall|k: int|
                    0 <= k < i ==> Self::card_stepped(
                        #[trigger] old(self).videocards@[k],
                        self.videocards@[k],
                        video_delta(kinds, old(self).cga_tick_accum, sys_ticks, us, k),
                        pics[k],
                        pics[k + 1],
                    ),
                self.cga_tick_accum == video_ticks_after(
                    kinds.subrange(0, i as int),
                    old(self).cga_tick_accum,
                    sys_ticks,
                ),
                (self.timer_trigger1_armed, self.timer_trigger2_armed) == triggers_after(
                    kinds.subrange(0, i as int),
                    old(self).cga_tick_accum,
                    sys_ticks,
                    pit_reload_value,
                    old(self).timer_triggers_enabled,
                    (old(self).timer_trigger1_armed, old(self).timer_trigger2_armed),
                ),
            decreases card_count - i,
        {
            proof {
                assert(kinds.subrange(0, i + 1).drop_last() =~= kinds.subrange(0, i as int));
                assert(kinds.subrange(0, i + 1).last() == kinds[i as int]);
                assert(kinds[i as int] == self.videocards@[i as int].card.kind());
            }
            let ghost before = self.videocards@;
            let ghost pic_before = self.pic1;
            let ghost pics_before = pics;
            match self.videocards[i].card.card_kind() {
                Some(VideoType::CGA) => {
                    let (due, left) = accumulate_video_ticks(self.cga_tick_accum, sys_ticks);
                    self.cga_tick_accum = left;
                    if let Some(ticks) = due {
                        self.videocards[i].card.run(
                            DeviceRunTimeUnit::SystemTicks(ticks),
                            &mut self.pic1,
                        );
                        proof {
                            assert(before[i as int].card.advanced(
                                DeviceRunTimeUnit::SystemTicks(ticks),
                                pic_before,
                                self.videocards@[i as int].card,
                                self.pic1,
                            ));
                        }
                        if self.timer_triggers_enabled {
                            let armed = release_triggers(
                                pit_reload_value,
                                (self.timer_trigger1_armed, self.timer_trigger2_armed),
                            );
                            self.timer_trigger1_armed = armed.0;
                            self.timer_trigger2_armed = armed.1;
                        }
                    }
                },
                Some(_) => {
                    self.videocards[i].card.run(DeviceRunTimeUnit::Microseconds(us), &mut self.pic1);
                    proof {
                        assert(before[i as int].card.advanced(
                            DeviceRunTimeUnit::Microseconds(us),
                            pic_before,
                            self.videocards@[i as int].card,
                            self.pic1,
                        ));
                    }
                },
                None => {},
            }
            proof {
                pics = pics.push(self.pic1);
                assert(forall|k: int| 0 <= k < card_count && k != i ==> self.videocards@[k] == before[k]);
                assert(before[i as int] == old(self).videocards@[i as int]);
                assert(Self::card_stepped(
                    old(self).videocards@[i as int],
                    self.videocards@[i as int],
                    video_delta(kinds, old(self).cga_tick_accum, sys_ticks, us, i as int),
                    pics[i as int],
                    pics[i + 1],
                ));
                assert forall|k: int| 0 <= k < i + 1 implies Self::card_stepped(
                    #[trigger] old(self).videocards@[k],
                    self.videocards@[k],
                    video_delta(kinds, old(self).cga_tick_accum, sys_ticks, us, k),
                    pics[k],
                    pics[k + 1],
                ) by {
                    if k < i {
                        assert(self.videocards@[k] == before[k]);
                        assert(pics[k] == pics_before[k]);
                        assert(pics[k + 1] == pics_before[k + 1]);
                        assert(Self::card_stepped(
                            old(self).videocards@[k],
                            before[k],
                            video_delta(kinds, old(self).cga_tick_accum, sys_ticks, us, k),
                            pics_before[k],
                            pics_before[k + 1],
                        ));
                    }
                }
            }
            i += 1;
        }
        proof {
            assert(kinds.subrange(0, card_count as int) =~= kinds);
            assert(old(self).cards_stepped(*self, us, sys_ticks, pics));
        }
    }

    /// Advances every installed device by one slice of time: `us` of elapsed
    /// time, which is `sys_ticks` system ticks. `kb_event_opt` is the key
    /// event of this slice, if there is one.
    ///
    /// The steps, in order:
    /// 1. The keyboard takes the key event and hands over a scancode, if it
    ///    has one. It is advanced by one update period whenever it has
    ///    waited longer than that, and again hands over a scancode. Each
    ///    scancode goes to the peripheral interface.
    /// 2. The interrupt controller is advanced by the ticks.
    /// 3. The peripheral interface is advanced by the time, with the
    ///    interrupt controller in hand.
    /// 4. The timer is advanced, with the bus in hand: by the time if it has
    ///    a crystal of its own, else by the ticks and those it is owed.
    /// 5. The refresh channel of the timer is asked whether it changed, and
    ///    the event to return is decided.
    /// 6. The floppy and the hard disk controller are advanced, with the DMA
    ///    controller and the bus in hand, then the DMA controller.
    /// 7. The serial controller is advanced, then the mouse with the serial
    ///    controller in hand.
    /// 8. The video cards are advanced: a colour adapter by the ticks that
    ///    have gathered once they pass the threshold, any other by the time.
    ///
    /// A device that is not installed is passed over, and so is a step that
    /// needs it; every other device is advanced once. Devices that are handed
    /// the bus may change anything on it that leaves it well formed. The
    /// event returned is a refresh update or refresh being switched off;
    /// without a timer there is none.
    pub fn run_devices(
        &mut self,
        us: Microseconds,
        sys_ticks: u32,
        kb_event_opt: Option<KeybufferEntry>,
        kb_buf: &mut VecDeque<KeybufferEntry>,
        speaker_buf_producer: &mut Producer<u8>,
    ) -> (event: Option<DeviceEvent>)
        requires
            old(self).wf(),
        ensures
            final(self).wf(),
            schedulable_event(event),
            !old(self).has_timer() ==> event is None,
            !old(self).has_bus_master() ==> {
                &&& final(self).quiet_since(*old(self))
                &&& final(self).kb_accum()@ == (if old(self).has_keyboard() {
                    kb_accum_after(old(self).kb_accum(), us)
                } else {
                    old(self).kb_accum()@
                })
            },
            old(self).slice_ran(
                *final(self),
                us,
                sys_ticks,
                kb_event_opt,
                *old(kb_buf),
                *final(kb_buf),
                *old(speaker_buf_producer),
                *final(speaker_buf_producer),
                event,
            ),
            !old(self).has_keyboard() || !(kb_event_opt matches Some(key) && key.pressed) ==> *final(kb_buf)
                == *old(kb_buf),
    {
        self.run_keyboard(us, kb_event_opt, kb_buf);
        let ghost keyed = *self;
        self.run_interrupt_controller(us, sys_ticks);
        let ghost interrupted = *self;
        let (event, pit_reload_value) = self.run_timer(us, sys_ticks, speaker_buf_producer);
        let ghost timed = *self;
        self.run_storage(us);
        let ghost stored = *self;
        self.run_serial(us);
        let ghost sent = *self;
        self.run_video(us, sys_ticks, pit_reload_value);
        proof {
            assert(old(self).slice_chain(
                *self,
                us,
                sys_ticks,
                kb_event_opt,
                *old(kb_buf),
                *kb_buf,
                *old(speaker_buf_producer),
                *speaker_buf_producer,
                event,
                keyed,
                interrupted,
                timed,
                stored,
                sent,
                pit_reload_value,
            ));
        }
        event
    }
}

} // verus!
