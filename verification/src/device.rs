//! What the bus asks of the peripherals that it owns.
//!
//! The bus does not know how a timer counts or how a video card draws. It
//! knows each peripheral by a small set of capabilities: port I/O, memory
//! mapped I/O, and being advanced by a slice of time. A machine names the
//! types of its peripherals in a [`DeviceSet`].
//!
//! A device that is handed the bus gets all of it, less the device itself: the
//! bus takes the device out of its slot for the call and puts it back
//! afterwards. Such a device must leave the bus well formed.
//!
//! What a device does is the device's business; what the bus does with a
//! device is stated call by call. For each call that changes a device there
//! is a function here that makes the call and a relation that says that the
//! call was made once: with which arguments, on the device as it was, and
//! which device it left. The relation is stated through the function, whose
//! `ensures` ties the device before and after to the one call of the
//! device's method.
use vstd::prelude::*;
use std::collections::VecDeque;
use ringbuf::Producer;
use crate::bus::BusInterface;
use crate::config::{ClockingMode, KeyboardType, MachineType, PitType};
use crate::event::DeviceRunTimeUnit;
use crate::memory::{ADDRESS_SPACE, NO_IO_BYTE};
use crate::mmio::{VideoCardId, VideoType};
use crate::timing::Microseconds;

verus! {

/// `ringbuf::Producer`, the writing half of a ring buffer. The bus hands the
/// producer of the speaker's sample buffer to the timer and never looks into
/// it, so nothing is stated of what it holds.
#[verifier::external_type_specification]
#[verifier::external_body]
#[verifier::reject_recursive_types(T)]
pub struct ExProducer<T>(Producer<T>);

/// The modifier keys held down with a key.
#[derive(Copy, Clone, Debug, PartialEq, Eq, Structural)]
pub struct KeyboardModifiers {
    pub control: bool,
    pub alt: bool,
    pub shift: bool,
    pub meta: bool,
}

/// A key going down or up.
#[derive(Copy, Clone, Debug, PartialEq, Eq, Structural)]
pub struct KeybufferEntry {
    pub keycode: u8,
    pub pressed: bool,
    pub modifiers: KeyboardModifiers,
    pub translate: bool,
}

/// The device that answers to an I/O port.
#[derive(Copy, Clone, Debug, PartialEq, Eq, Structural)]
pub enum IoDeviceType {
    Ppi,
    Pit,
    DmaPrimary,
    DmaSecondary,
    PicPrimary,
    PicSecondary,
    Serial,
    FloppyController,
    HardDiskController,
    Mouse,
    Video(VideoCardId),
}

/// The types of the peripherals of one machine.
pub trait DeviceSet: Sized {
    type Keyboard;

    type Ppi;

    type Pit;

    type Dma;

    type Pic;

    type Serial;

    type Fdc;

    type Hdc;

    type Mouse;

    type Mda;

    type Cga;

    type Ega;

    type Vga;
}

/// A device that answers to I/O ports.
pub trait IoDevice<D: DeviceSet> {
    /// Reads a byte from one of the device's ports.
    fn read_u8(&mut self, port: u16, delta: DeviceRunTimeUnit) -> u8;

    /// Writes a byte to one of the device's ports. A device that reaches out
    /// to other devices is handed the bus, which it must leave well formed.
    fn write_u8(
        &mut self,
        port: u16,
        data: u8,
        bus: Option<&mut BusInterface<D>>,
        delta: DeviceRunTimeUnit,
    )
        requires
            bus is Some ==> bus.unwrap().wf(),
        ensures
            bus is Some ==> final(bus.unwrap()).wf(),
    ;

    /// The ports that the device answers to.
    fn port_list(&self) -> Vec<u16>;
}

/// How the device behind a port is found: by its tag among the devices that
/// the bus owns, or as a device of its own.
#[verifier::reject_recursive_types(D)]
pub enum IoDeviceDispatch<D: DeviceSet> {
    Static(IoDeviceType),
    Dynamic(Box<dyn IoDevice<D>>),
}

/// A device that answers to a range of memory addresses. Times are in system
/// ticks.
///
/// The bus hands a device addresses of the address space only, and with a
/// word its first address.
pub trait MemoryMappedDevice {
    /// How long a read would wait.
    fn get_read_wait(&mut self, address: usize, cycles: u32) -> u32
        requires
            address < ADDRESS_SPACE,
    ;

    /// Reads a byte: the byte and the wait.
    fn mmio_read_u8(&mut self, address: usize, cycles: u32) -> (u8, u32)
        requires
            address < ADDRESS_SPACE,
    ;

    /// Reads a word: the word and the wait.
    fn mmio_read_u16(&mut self, address: usize, cycles: u32) -> (u16, u32)
        requires
            address + 1 < ADDRESS_SPACE,
    ;

    /// Reads a byte without the device noticing.
    fn mmio_peek_u8(&self, address: usize) -> u8
        requires
            address < ADDRESS_SPACE,
    ;

    /// Reads a word without the device noticing.
    fn mmio_peek_u16(&self, address: usize) -> u16
        requires
            address + 1 < ADDRESS_SPACE,
    ;

    /// How long a write would wait.
    fn get_write_wait(&mut self, address: usize, cycles: u32) -> u32
        requires
            address < ADDRESS_SPACE,
    ;

    /// Writes a byte: the wait.
    fn mmio_write_u8(&mut self, address: usize, data: u8, cycles: u32) -> u32
        requires
            address < ADDRESS_SPACE,
    ;

    /// Writes a word: the wait.
    fn mmio_write_u16(&mut self, address: usize, data: u16, cycles: u32) -> u32
        requires
            address + 1 < ADDRESS_SPACE,
    ;
}

/// A keyboard.
pub trait KeyboardDevice: Sized {
    /// Makes a keyboard of a model.
    fn new(kb_type: KeyboardType, debug: bool) -> Self;

    /// Sets whether held keys repeat, after what delay and at what rate.
    fn set_typematic_params(&mut self, enabled: Option<bool>, delay: Option<u32>, rate: Option<u32>);

    /// A key went down. Keys that the keyboard cannot take go to `kb_buf`.
    fn key_down(
        &mut self,
        keycode: u8,
        modifiers: &KeyboardModifiers,
        kb_buf: Option<&mut VecDeque<KeybufferEntry>>,
    );

    /// A key went up.
    fn key_up(&mut self, keycode: u8);

    /// Takes the next scancode that the keyboard has to send, if any.
    fn recv_scancode(&mut self) -> Option<u8>;

    /// Advances the keyboard by a span of time.
    fn run(&mut self, us: Microseconds);
}

/// A peripheral interface adapter: it latches scancodes and holds the
/// machine's switches.
pub trait PpiDevice<D: DeviceSet>: IoDevice<D> + Sized {
    /// Makes the interface of a machine, with its switches set for the
    /// machine's memory, video cards and floppy drives.
    fn new(
        machine_type: MachineType,
        conventional_memory: u32,
        have_expansion: bool,
        video_types: Vec<VideoType>,
        num_floppies: u32,
    ) -> Self;

    /// Latches a scancode from the keyboard.
    fn send_keyboard(&mut self, byte: u8);

    /// Whether a latched scancode raises the keyboard's interrupt.
    fn kb_enabled(&self) -> bool;

    /// Whether the non-maskable interrupt is enabled.
    fn nmi_enabled(&self) -> bool;

    /// Advances the interface by a span of time, with the interrupt
    /// controller in hand.
    fn run(&mut self, pic: &mut D::Pic, us: Microseconds);
}

/// An interrupt controller.
pub trait InterruptController<D: DeviceSet>: IoDevice<D> + Sized {
    /// Makes an interrupt controller.
    fn new() -> Self;

    /// Raises an interrupt line and lowers it again.
    fn pulse_interrupt(&mut self, line: u8);

    /// Advances the controller by a number of system ticks.
    fn run(&mut self, sys_ticks: u32);

    /// Resets the controller.
    fn reset(&mut self);
}

/// A programmable interval timer.
pub trait TimerDevice<D: DeviceSet>: IoDevice<D> + Sized {
    /// Makes a timer of a model, clocked by a crystal through a divisor.
    fn new(pit_type: PitType, crystal_hz: u32, divisor: u32) -> Self;

    /// Drives a channel's gate input high or low. The timer is handed the
    /// bus, which it must leave well formed.
    fn set_channel_gate(&mut self, channel: usize, state: bool, bus: &mut BusInterface<D>)
        requires
            old(bus).wf(),
        ensures
            final(bus).wf(),
    ;

    /// Advances the timer, which writes the samples of the speaker to
    /// `speaker`. The bus that the timer is handed holds no timer; the timer
    /// must leave it well formed.
    fn run(&mut self, bus: &mut BusInterface<D>, speaker: &mut Producer<u8>, delta: DeviceRunTimeUnit)
        requires
            old(bus).wf(),
            old(bus).pit_slot() is None,
        ensures
            final(bus).wf(),
    ;

    /// Whether a channel changed since it was last asked: whether it changed,
    /// whether it is counting, and whether it ticked.
    fn is_dirty(&mut self, channel: usize) -> (bool, bool, bool);

    /// A channel's reload value and its current count.
    fn get_channel_count(&self, channel: usize) -> (u16, u16);

    /// The system ticks gone of the timer period that is running.
    fn get_timer_accum(&self) -> u32;

    /// Resets the timer.
    fn reset(&mut self);
}

/// A DMA controller.
pub trait DmaDevice<D: DeviceSet>: IoDevice<D> + Sized {
    /// Makes a DMA controller.
    fn new() -> Self;

    /// Advances the controller. The bus that it is handed holds no primary
    /// DMA controller; the controller must leave it well formed.
    fn run(&mut self, bus: &mut BusInterface<D>)
        requires
            old(bus).wf(),
            old(bus).dma_slot() is None,
        ensures
            final(bus).wf(),
    ;

    /// Resets the controller.
    fn reset(&mut self);
}

/// A floppy disk controller.
pub trait FloppyDevice<D: DeviceSet>: IoDevice<D> + Sized {
    /// Makes a controller for a number of drives.
    fn new(drive_ct: usize) -> Self;

    /// Advances the controller, with the primary DMA controller in hand. The
    /// bus that it is handed holds neither of the two; the controller must
    /// leave it well formed.
    fn run(&mut self, dma: &mut D::Dma, bus: &mut BusInterface<D>, us: Microseconds)
        requires
            old(bus).wf(),
            old(bus).fdc_slot() is None,
            old(bus).dma_slot() is None,
        ensures
            final(bus).wf(),
    ;

    /// The number of drives.
    fn drive_ct(&self) -> usize;
}

/// A hard disk controller.
pub trait HardDiskDevice<D: DeviceSet>: IoDevice<D> + Sized {
    /// Makes a controller for a number of drives, with its drive-type
    /// switches set.
    fn new(drive_ct: usize, drive_type_dip: u8) -> Self;

    /// Advances the controller, with the primary DMA controller in hand. The
    /// bus that it is handed holds neither of the two; the controller must
    /// leave it well formed.
    fn run(&mut self, dma: &mut D::Dma, bus: &mut BusInterface<D>, us: Microseconds)
        requires
            old(bus).wf(),
            old(bus).hdc_slot() is None,
            old(bus).dma_slot() is None,
        ensures
            final(bus).wf(),
    ;

    /// The number of drives.
    fn drive_ct(&self) -> usize;
}

/// A serial port controller.
pub trait SerialDevice<D: DeviceSet>: IoDevice<D> + Sized {
    /// Makes a serial controller.
    fn new() -> Self;

    /// Advances the controller by a span of time, with the interrupt
    /// controller in hand.
    fn run(&mut self, pic: &mut D::Pic, us: Microseconds);
}

/// A serial mouse.
pub trait MouseDevice<D: DeviceSet>: Sized {
    /// Makes a mouse that is plugged into a serial port.
    fn new(port: usize) -> Self;

    /// Advances the mouse by a span of time, with the serial controller in
    /// hand that it sends its movements to.
    fn run(&mut self, serial: &mut D::Serial, us: Microseconds);
}

/// A video card.
pub trait VideoCard<D: DeviceSet>: IoDevice<D> + MemoryMappedDevice + Sized {
    /// Makes a video card.
    fn new(clock_mode: ClockingMode, frame_debug: bool) -> Self;

    /// Advances the card. It may raise an interrupt for the vertical retrace.
    fn run(&mut self, delta: DeviceRunTimeUnit, pic: &mut Option<D::Pic>);

    /// Resets the card.
    fn reset(&mut self);
}

/// The device `dev` shows the byte `data` at `address` to a reader that it
/// does not notice: its `mmio_peek_u8` gives that byte.
pub open spec fn byte_peeked<T: MemoryMappedDevice>(dev: T, address: usize, data: u8) -> bool {
    call_ensures(<T as MemoryMappedDevice>::mmio_peek_u8, (&dev, address), data)
}

/// The device `dev` answers to the ports `ports`: its `port_list` gives them.
pub open spec fn lists_ports<D: DeviceSet, T: IoDevice<D>>(dev: T, ports: Vec<u16>) -> bool {
    call_ensures(<T as IoDevice<D>>::port_list, (&dev,), ports)
}

/// The timer `timer` was made of a model, for a crystal and a divisor.
pub open spec fn timer_made<D: DeviceSet, T: TimerDevice<D>>(
    pit_type: PitType,
    crystal_hz: u32,
    divisor: u32,
    timer: T,
) -> bool {
    call_ensures(<T as TimerDevice<D>>::new, (pit_type, crystal_hz, divisor), timer)
}

/// The peripheral interface `ppi` was made for a machine, with its switches
/// set for these values.
pub open spec fn ppi_made<D: DeviceSet, P: PpiDevice<D>>(
    machine_type: MachineType,
    conventional_memory: u32,
    have_expansion: bool,
    video_types: Vec<VideoType>,
    num_floppies: u32,
    ppi: P,
) -> bool {
    call_ensures(
        <P as PpiDevice<D>>::new,
        (machine_type, conventional_memory, have_expansion, video_types, num_floppies),
        ppi,
    )
}

/// The floppy disk controller `fdc` was made for a number of drives.
pub open spec fn fdc_made<D: DeviceSet, F: FloppyDevice<D>>(drive_ct: usize, fdc: F) -> bool {
    call_ensures(<F as FloppyDevice<D>>::new, (drive_ct,), fdc)
}

/// The hard disk controller `hdc` was made for a number of drives, with its
/// drive-type switches set.
pub open spec fn hdc_made<D: DeviceSet, H: HardDiskDevice<D>>(
    drive_ct: usize,
    drive_type_dip: u8,
    hdc: H,
) -> bool {
    call_ensures(<H as HardDiskDevice<D>>::new, (drive_ct, drive_type_dip), hdc)
}

/// The mouse `mouse` was made for a serial port.
pub open spec fn mouse_made<D: DeviceSet, M: MouseDevice<D>>(port: usize, mouse: M) -> bool {
    call_ensures(<M as MouseDevice<D>>::new, (port,), mouse)
}

/// The peripheral interface `ppi` tells whether a latched scancode raises the
/// keyboard's interrupt: its `kb_enabled` gives `enabled`.
pub open spec fn kb_irq_enabled<D: DeviceSet, P: PpiDevice<D>>(ppi: P, enabled: bool) -> bool {
    call_ensures(<P as PpiDevice<D>>::kb_enabled, (&ppi,), enabled)
}

/// The timer `timer` gives `count` as the reload value and the count of a
/// channel.
pub open spec fn channel_count<D: DeviceSet, T: TimerDevice<D>>(
    timer: T,
    channel: usize,
    count: (u16, u16),
) -> bool {
    call_ensures(<T as TimerDevice<D>>::get_channel_count, (&timer, channel), count)
}

/// The timer `timer` gives `ticks` as the system ticks gone of its running
/// period.
pub open spec fn timer_accum<D: DeviceSet, T: TimerDevice<D>>(timer: T, ticks: u32) -> bool {
    call_ensures(<T as TimerDevice<D>>::get_timer_accum, (&timer,), ticks)
}

/// Reads a byte from a port of a device. Returns the byte, and the device as
/// the read left it.
pub fn read_port<D: DeviceSet, T: IoDevice<D>>(
    dev: &mut T,
    port: u16,
    delta: DeviceRunTimeUnit,
) -> (r: (u8, Ghost<T>))
    ensures
        r.1@ == *final(dev),
        exists|w0: &mut T, out: u8|
            {
                &&& *w0 == *old(dev)
                &&& *final(w0) == *final(dev)
                &&& out == r.0
                &&& #[trigger] call_ensures(<T as IoDevice<D>>::read_u8, (w0, port, delta), out)
            },
{
    let out = dev.read_u8(port, delta);
    (out, Ghost(*dev))
}

/// The device `dev` was read once at a port and gave the byte `byte`: its
/// `read_u8` was called on it with these arguments, and `after` is the device
/// as that call left it.
pub open spec fn port_read<D: DeviceSet, T: IoDevice<D>>(
    dev: T,
    port: u16,
    delta: DeviceRunTimeUnit,
    byte: u8,
    after: T,
) -> bool {
    exists|w0: &mut T|
        {
            &&& *w0 == dev
            &&& #[trigger] call_ensures(read_port::<D, T>, (w0, port, delta), (byte, Ghost(after)))
        }
}

/// Writes a byte to a port of a device, without the bus in hand. Returns the
/// device as the write left it.
pub fn write_port<D: DeviceSet, T: IoDevice<D>>(
    dev: &mut T,
    port: u16,
    data: u8,
    delta: DeviceRunTimeUnit,
) -> (r: Ghost<T>)
    ensures
        r@ == *final(dev),
        exists|w0: &mut T|
            {
                &&& *w0 == *old(dev)
                &&& *final(w0) == *final(dev)
                &&& #[trigger] call_ensures(<T as IoDevice<D>>::write_u8, (w0, port, data, None::<&mut BusInterface<D>>, delta), ())
            },
{
    dev.write_u8(port, data, None, delta);
    Ghost(*dev)
}

/// The device `dev` was written to once at a port, without the bus in hand:
/// its `write_u8` was called on it with these arguments, and `after` is the
/// device as that call left it.
pub open spec fn port_written<D: DeviceSet, T: IoDevice<D>>(
    dev: T,
    port: u16,
    data: u8,
    delta: DeviceRunTimeUnit,
    after: T,
) -> bool {
    exists|w0: &mut T|
        {
            &&& *w0 == dev
            &&& #[trigger] call_ensures(write_port::<D, T>, (w0, port, data, delta), Ghost(after))
        }
}

/// Writes a byte to a port of a device, with the bus in hand. Returns the
/// device and the bus as the write left them.
pub fn write_port_with_bus<D: DeviceSet, T: IoDevice<D>>(
    dev: &mut T,
    port: u16,
    data: u8,
    bus: &mut BusInterface<D>,
    delta: DeviceRunTimeUnit,
) -> (r: Ghost<(T, BusInterface<D>)>)
    requires
        old(bus).wf(),
    ensures
        r@ == (*final(dev), *final(bus)),
        final(bus).wf(),
        exists|w0: &mut T, w1: &mut BusInterface<D>|
            {
                &&& *w0 == *old(dev)
                &&& *final(w0) == *final(dev)
                &&& *w1 == *old(bus)
                &&& *final(w1) == *final(bus)
                &&& #[trigger] call_ensures(<T as IoDevice<D>>::write_u8, (w0, port, data, Some(w1), delta), ())
            },
{
    dev.write_u8(port, data, Some(bus), delta);
    Ghost((*dev, *bus))
}

/// The device `dev` was written to once at a port with the bus `bus` in hand:
/// its `write_u8` was called on it with these arguments, and `after` and
/// `bus_after` are the device and the bus as that call left them.
pub open spec fn port_written_with_bus<D: DeviceSet, T: IoDevice<D>>(
    dev: T,
    port: u16,
    data: u8,
    bus: BusInterface<D>,
    delta: DeviceRunTimeUnit,
    after: T,
    bus_after: BusInterface<D>,
) -> bool {
    exists|w0: &mut T, w1: &mut BusInterface<D>|
        {
            &&& *w0 == dev
            &&& *w1 == bus
            &&& #[trigger] call_ensures(write_port_with_bus::<D, T>, (w0, port, data, w1, delta), Ghost((after, bus_after)))
        }
}

/// Asks a device how long a read at `address` would wait. Returns the answer,
/// and the device as the question left it.
pub fn ask_read_wait<T: MemoryMappedDevice>(
    dev: &mut T,
    address: usize,
    ticks: u32,
) -> (r: (u32, Ghost<T>))
    requires
        address < ADDRESS_SPACE,
    ensures
        r.1@ == *final(dev),
        exists|w0: &mut T, out: u32|
            {
                &&& *w0 == *old(dev)
                &&& *final(w0) == *final(dev)
                &&& out == r.0
                &&& #[trigger] call_ensures(<T as MemoryMappedDevice>::get_read_wait, (w0, address, ticks), out)
            },
{
    let out = dev.get_read_wait(address, ticks);
    (out, Ghost(*dev))
}

/// The device `dev` was asked once how long a read at `address` would wait and
/// answered `wait`: its `get_read_wait` was called on it with these arguments,
/// and `after` is the device as that call left it.
pub open spec fn read_wait_asked<T: MemoryMappedDevice>(
    dev: T,
    address: usize,
    ticks: u32,
    wait: u32,
    after: T,
) -> bool {
    exists|w0: &mut T|
        {
            &&& *w0 == dev
            &&& #[trigger] call_ensures(ask_read_wait::<T>, (w0, address, ticks), (wait, Ghost(after)))
        }
}

/// Asks a device how long a write at `address` would wait. Returns the answer,
/// and the device as the question left it.
pub fn ask_write_wait<T: MemoryMappedDevice>(
    dev: &mut T,
    address: usize,
    ticks: u32,
) -> (r: (u32, Ghost<T>))
    requires
        address < ADDRESS_SPACE,
    ensures
        r.1@ == *final(dev),
        exists|w0: &mut T, out: u32|
            {
                &&& *w0 == *old(dev)
                &&& *final(w0) == *final(dev)
                &&& out == r.0
                &&& #[trigger] call_ensures(<T as MemoryMappedDevice>::get_write_wait, (w0, address, ticks), out)
            },
{
    let out = dev.get_write_wait(address, ticks);
    (out, Ghost(*dev))
}

/// The device `dev` was asked once how long a write at `address` would wait
/// and answered `wait`: its `get_write_wait` was called on it with these
/// arguments, and `after` is the device as that call left it.
pub open spec fn write_wait_asked<T: MemoryMappedDevice>(
    dev: T,
    address: usize,
    ticks: u32,
    wait: u32,
    after: T,
) -> bool {
    exists|w0: &mut T|
        {
            &&& *w0 == dev
            &&& #[trigger] call_ensures(ask_write_wait::<T>, (w0, address, ticks), (wait, Ghost(after)))
        }
}

/// Reads a byte from a device at `address`. Returns the byte and the wait, and
/// the device as the read left it.
pub fn read_mapped_byte<T: MemoryMappedDevice>(
    dev: &mut T,
    address: usize,
    ticks: u32,
) -> (r: ((u8, u32), Ghost<T>))
    requires
        address < ADDRESS_SPACE,
    ensures
        r.1@ == *final(dev),
        exists|w0: &mut T, out: (u8, u32)|
            {
                &&& *w0 == *old(dev)
                &&& *final(w0) == *final(dev)
                &&& out == r.0
                &&& #[trigger] call_ensures(<T as MemoryMappedDevice>::mmio_read_u8, (w0, address, ticks), out)
            },
{
    let out = dev.mmio_read_u8(address, ticks);
    (out, Ghost(*dev))
}

/// The device `dev` was read once at `address` and gave the byte `data` with
/// the wait `wait`: its `mmio_read_u8` was called on it with these arguments,
/// and `after` is the device as that call left it.
pub open spec fn byte_read<T: MemoryMappedDevice>(
    dev: T,
    address: usize,
    ticks: u32,
    data: u8,
    wait: u32,
    after: T,
) -> bool {
    exists|w0: &mut T|
        {
            &&& *w0 == dev
            &&& #[trigger] call_ensures(read_mapped_byte::<T>, (w0, address, ticks), ((data, wait), Ghost(after)))
        }
}

/// Reads a word from a device at `address`. Returns the word and the wait, and
/// the device as the read left it.
pub fn read_mapped_word<T: MemoryMappedDevice>(
    dev: &mut T,
    address: usize,
    ticks: u32,
) -> (r: ((u16, u32), Ghost<T>))
    requires
        address + 1 < ADDRESS_SPACE,
    ensures
        r.1@ == *final(dev),
        exists|w0: &mut T, out: (u16, u32)|
            {
                &&& *w0 == *old(dev)
                &&& *final(w0) == *final(dev)
                &&& out == r.0
                &&& #[trigger] call_ensures(<T as MemoryMappedDevice>::mmio_read_u16, (w0, address, ticks), out)
            },
{
    let out = dev.mmio_read_u16(address, ticks);
    (out, Ghost(*dev))
}

/// The device `dev` was read once at `address` and gave the word `data` with
/// the wait `wait`: its `mmio_read_u16` was called on it with these arguments,
/// and `after` is the device as that call left it.
pub open spec fn word_read<T: MemoryMappedDevice>(
    dev: T,
    address: usize,
    ticks: u32,
    data: u16,
    wait: u32,
    after: T,
) -> bool {
    exists|w0: &mut T|
        {
            &&& *w0 == dev
            &&& #[trigger] call_ensures(read_mapped_word::<T>, (w0, address, ticks), ((data, wait), Ghost(after)))
        }
}

/// Writes a byte to a device at `address`. Returns the wait, and the device as
/// the write left it.
pub fn write_mapped_byte<T: MemoryMappedDevice>(
    dev: &mut T,
    address: usize,
    data: u8,
    ticks: u32,
) -> (r: (u32, Ghost<T>))
    requires
        address < ADDRESS_SPACE,
    ensures
        r.1@ == *final(dev),
        exists|w0: &mut T, out: u32|
            {
                &&& *w0 == *old(dev)
                &&& *final(w0) == *final(dev)
                &&& out == r.0
                &&& #[trigger] call_ensures(<T as MemoryMappedDevice>::mmio_write_u8, (w0, address, data, ticks), out)
            },
{
    let out = dev.mmio_write_u8(address, data, ticks);
    (out, Ghost(*dev))
}

/// The byte `data` was written once to the device `dev` at `address`, and the
/// device reported the wait `wait`: its `mmio_write_u8` was called on it with
/// these arguments, and `after` is the device as that call left it.
pub open spec fn byte_written<T: MemoryMappedDevice>(
    dev: T,
    address: usize,
    data: u8,
    ticks: u32,
    wait: u32,
    after: T,
) -> bool {
    exists|w0: &mut T|
        {
            &&& *w0 == dev
            &&& #[trigger] call_ensures(write_mapped_byte::<T>, (w0, address, data, ticks), (wait, Ghost(after)))
        }
}

/// Tells a keyboard that a key went down, with the queue in hand for the keys
/// that it cannot take. Returns the keyboard and the queue as that left them.
pub fn press_key<K: KeyboardDevice>(
    keyboard: &mut K,
    keycode: u8,
    modifiers: &KeyboardModifiers,
    queue: &mut VecDeque<KeybufferEntry>,
) -> (r: Ghost<(K, VecDeque<KeybufferEntry>)>)
    ensures
        r@ == (*final(keyboard), *final(queue)),
        exists|w0: &mut K, w1: &mut VecDeque<KeybufferEntry>|
            {
                &&& *w0 == *old(keyboard)
                &&& *final(w0) == *final(keyboard)
                &&& *w1 == *old(queue)
                &&& *final(w1) == *final(queue)
                &&& #[trigger] call_ensures(<K as KeyboardDevice>::key_down, (w0, keycode, modifiers, Some(w1)), ())
            },
{
    keyboard.key_down(keycode, modifiers, Some(queue));
    Ghost((*keyboard, *queue))
}

/// A key went down once on the keyboard `keyboard`, with the queue `queue` for
/// the keys that it cannot take: its `key_down` was called on it with these
/// arguments, and `after` and `queue_after` are the keyboard and the queue as
/// that call left them.
pub open spec fn key_pressed<K: KeyboardDevice>(
    keyboard: K,
    keycode: u8,
    modifiers: KeyboardModifiers,
    queue: VecDeque<KeybufferEntry>,
    after: K,
    queue_after: VecDeque<KeybufferEntry>,
) -> bool {
    exists|w0: &mut K, w1: &mut VecDeque<KeybufferEntry>|
        {
            &&& *w0 == keyboard
            &&& *w1 == queue
            &&& #[trigger] call_ensures(press_key::<K>, (w0, keycode, &modifiers, w1), Ghost((after, queue_after)))
        }
}

/// Tells a keyboard that a key went up. Returns the keyboard as that left it.
pub fn release_key<K: KeyboardDevice>(
    keyboard: &mut K,
    keycode: u8,
) -> (r: Ghost<K>)
    ensures
        r@ == *final(keyboard),
        exists|w0: &mut K|
            {
                &&& *w0 == *old(keyboard)
                &&& *final(w0) == *final(keyboard)
                &&& #[trigger] call_ensures(<K as KeyboardDevice>::key_up, (w0, keycode), ())
            },
{
    keyboard.key_up(keycode);
    Ghost(*keyboard)
}

/// A key went up once on the keyboard `keyboard`: its `key_up` was called on
/// it with the key, and `after` is the keyboard as that call left it.
pub open spec fn key_released<K: KeyboardDevice>(
    keyboard: K,
    keycode: u8,
    after: K,
) -> bool {
    exists|w0: &mut K|
        {
            &&& *w0 == keyboard
            &&& #[trigger] call_ensures(release_key::<K>, (w0, keycode), Ghost(after))
        }
}

/// Asks a keyboard for its next scancode. Returns the scancode, if there is
/// one, and the keyboard as the question left it.
pub fn take_scancode<K: KeyboardDevice>(
    keyboard: &mut K,
) -> (r: (Option<u8>, Ghost<K>))
    ensures
        r.1@ == *final(keyboard),
        exists|w0: &mut K, out: Option<u8>|
            {
                &&& *w0 == *old(keyboard)
                &&& *final(w0) == *final(keyboard)
                &&& out == r.0
                &&& #[trigger] call_ensures(<K as KeyboardDevice>::recv_scancode, (w0,), out)
            },
{
    let out = keyboard.recv_scancode();
    (out, Ghost(*keyboard))
}

/// The keyboard `keyboard` was asked once for its next scancode and gave
/// `scancode`: its `recv_scancode` was called on it, and `after` is the
/// keyboard as that call left it.
pub open spec fn scancode_taken<K: KeyboardDevice>(
    keyboard: K,
    scancode: Option<u8>,
    after: K,
) -> bool {
    exists|w0: &mut K|
        {
            &&& *w0 == keyboard
            &&& #[trigger] call_ensures(take_scancode::<K>, (w0,), (scancode, Ghost(after)))
        }
}

/// Advances a keyboard by a span of time. Returns the keyboard as that left
/// it.
pub fn advance_keyboard<K: KeyboardDevice>(
    keyboard: &mut K,
    us: Microseconds,
) -> (r: Ghost<K>)
    ensures
        r@ == *final(keyboard),
        exists|w0: &mut K|
            {
                &&& *w0 == *old(keyboard)
                &&& *final(w0) == *final(keyboard)
                &&& #[trigger] call_ensures(<K as KeyboardDevice>::run, (w0, us), ())
            },
{
    keyboard.run(us);
    Ghost(*keyboard)
}

/// The keyboard `keyboard` was advanced once by a span of time: its `run` was
/// called on it, and `after` is the keyboard as that call left it.
pub open spec fn keyboard_ran<K: KeyboardDevice>(
    keyboard: K,
    us: Microseconds,
    after: K,
) -> bool {
    exists|w0: &mut K|
        {
            &&& *w0 == keyboard
            &&& #[trigger] call_ensures(advance_keyboard::<K>, (w0, us), Ghost(after))
        }
}

/// Sets whether the held keys of a keyboard repeat, after what delay and at
/// what rate. Returns the keyboard as that left it.
pub fn set_typematic<K: KeyboardDevice>(
    keyboard: &mut K,
    enabled: Option<bool>,
    delay: Option<u32>,
    rate: Option<u32>,
) -> (r: Ghost<K>)
    ensures
        r@ == *final(keyboard),
        exists|w0: &mut K|
            {
                &&& *w0 == *old(keyboard)
                &&& *final(w0) == *final(keyboard)
                &&& #[trigger] call_ensures(<K as KeyboardDevice>::set_typematic_params, (w0, enabled, delay, rate), ())
            },
{
    keyboard.set_typematic_params(enabled, delay, rate);
    Ghost(*keyboard)
}

/// The key repeat of the keyboard `keyboard` was set once: its
/// `set_typematic_params` was called on it with these arguments, and `after`
/// is the keyboard as that call left it.
pub open spec fn typematic_set<K: KeyboardDevice>(
    keyboard: K,
    enabled: Option<bool>,
    delay: Option<u32>,
    rate: Option<u32>,
    after: K,
) -> bool {
    exists|w0: &mut K|
        {
            &&& *w0 == keyboard
            &&& #[trigger] call_ensures(set_typematic::<K>, (w0, enabled, delay, rate), Ghost(after))
        }
}

/// Sends a scancode to a peripheral interface. Returns the interface as that
/// left it.
pub fn send_scancode<D: DeviceSet, P: PpiDevice<D>>(
    ppi: &mut P,
    byte: u8,
) -> (r: Ghost<P>)
    ensures
        r@ == *final(ppi),
        exists|w0: &mut P|
            {
                &&& *w0 == *old(ppi)
                &&& *final(w0) == *final(ppi)
                &&& #[trigger] call_ensures(<P as PpiDevice<D>>::send_keyboard, (w0, byte), ())
            },
{
    ppi.send_keyboard(byte);
    Ghost(*ppi)
}

/// The peripheral interface `ppi` was sent a scancode once: its
/// `send_keyboard` was called on it with the scancode, and `after` is the
/// interface as that call left it.
pub open spec fn scancode_sent<D: DeviceSet, P: PpiDevice<D>>(
    ppi: P,
    byte: u8,
    after: P,
) -> bool {
    exists|w0: &mut P|
        {
            &&& *w0 == ppi
            &&& #[trigger] call_ensures(send_scancode::<D, P>, (w0, byte), Ghost(after))
        }
}

/// Advances a peripheral interface by a span of time, with the interrupt
/// controller in hand. Returns both as that left them.
pub fn advance_ppi<D: DeviceSet, P: PpiDevice<D>>(
    ppi: &mut P,
    pic: &mut D::Pic,
    us: Microseconds,
) -> (r: Ghost<(P, D::Pic)>)
    ensures
        r@ == (*final(ppi), *final(pic)),
        exists|w0: &mut P, w1: &mut D::Pic|
            {
                &&& *w0 == *old(ppi)
                &&& *final(w0) == *final(ppi)
                &&& *w1 == *old(pic)
                &&& *final(w1) == *final(pic)
                &&& #[trigger] call_ensures(<P as PpiDevice<D>>::run, (w0, w1, us), ())
            },
{
    ppi.run(pic, us);
    Ghost((*ppi, *pic))
}

/// The peripheral interface `ppi` was advanced once by a span of time, with
/// the interrupt controller `pic` in hand: its `run` was called on it, and
/// `after` and `pic_after` are the interface and the controller as that call
/// left them.
pub open spec fn ppi_ran<D: DeviceSet, P: PpiDevice<D>>(
    ppi: P,
    pic: D::Pic,
    us: Microseconds,
    after: P,
    pic_after: D::Pic,
) -> bool {
    exists|w0: &mut P, w1: &mut D::Pic|
        {
            &&& *w0 == ppi
            &&& *w1 == pic
            &&& #[trigger] call_ensures(advance_ppi::<D, P>, (w0, w1, us), Ghost((after, pic_after)))
        }
}

/// Pulses a line of an interrupt controller. Returns the controller as that
/// left it.
pub fn pulse_line<D: DeviceSet, C: InterruptController<D>>(
    pic: &mut C,
    line: u8,
) -> (r: Ghost<C>)
    ensures
        r@ == *final(pic),
        exists|w0: &mut C|
            {
                &&& *w0 == *old(pic)
                &&& *final(w0) == *final(pic)
                &&& #[trigger] call_ensures(<C as InterruptController<D>>::pulse_interrupt, (w0, line), ())
            },
{
    pic.pulse_interrupt(line);
    Ghost(*pic)
}

/// A line of the interrupt controller `pic` was pulsed once: its
/// `pulse_interrupt` was called on it with the line, and `after` is the
/// controller as that call left it.
pub open spec fn line_pulsed<D: DeviceSet, C: InterruptController<D>>(
    pic: C,
    line: u8,
    after: C,
) -> bool {
    exists|w0: &mut C|
        {
            &&& *w0 == pic
            &&& #[trigger] call_ensures(pulse_line::<D, C>, (w0, line), Ghost(after))
        }
}

/// Advances an interrupt controller by a number of system ticks. Returns the
/// controller as that left it.
pub fn advance_pic<D: DeviceSet, C: InterruptController<D>>(
    pic: &mut C,
    sys_ticks: u32,
) -> (r: Ghost<C>)
    ensures
        r@ == *final(pic),
        exists|w0: &mut C|
            {
                &&& *w0 == *old(pic)
                &&& *final(w0) == *final(pic)
                &&& #[trigger] call_ensures(<C as InterruptController<D>>::run, (w0, sys_ticks), ())
            },
{
    pic.run(sys_ticks);
    Ghost(*pic)
}

/// The interrupt controller `pic` was advanced once by a number of system
/// ticks: its `run` was called on it with the ticks, and `after` is the
/// controller as that call left it.
pub open spec fn pic_ran<D: DeviceSet, C: InterruptController<D>>(
    pic: C,
    sys_ticks: u32,
    after: C,
) -> bool {
    exists|w0: &mut C|
        {
            &&& *w0 == pic
            &&& #[trigger] call_ensures(advance_pic::<D, C>, (w0, sys_ticks), Ghost(after))
        }
}

/// Resets an interrupt controller. Returns the controller as that left it.
pub fn reset_pic<D: DeviceSet, C: InterruptController<D>>(
    pic: &mut C,
) -> (r: Ghost<C>)
    ensures
        r@ == *final(pic),
        exists|w0: &mut C|
            {
                &&& *w0 == *old(pic)
                &&& *final(w0) == *final(pic)
                &&& #[trigger] call_ensures(<C as InterruptController<D>>::reset, (w0,), ())
            },
{
    pic.reset();
    Ghost(*pic)
}

/// The interrupt controller `pic` was reset once: its `reset` was called on
/// it, and `after` is the controller as that call left it.
pub open spec fn pic_was_reset<D: DeviceSet, C: InterruptController<D>>(
    pic: C,
    after: C,
) -> bool {
    exists|w0: &mut C|
        {
            &&& *w0 == pic
            &&& #[trigger] call_ensures(reset_pic::<D, C>, (w0,), Ghost(after))
        }
}

/// Drives a channel's gate input of a timer, with the bus in hand. Returns the
/// timer and the bus as that left them.
pub fn tie_channel_gate<D: DeviceSet, T: TimerDevice<D>>(
    timer: &mut T,
    channel: usize,
    state: bool,
    bus: &mut BusInterface<D>,
) -> (r: Ghost<(T, BusInterface<D>)>)
    requires
        old(bus).wf(),
    ensures
        r@ == (*final(timer), *final(bus)),
        final(bus).wf(),
        exists|w0: &mut T, w1: &mut BusInterface<D>|
            {
                &&& *w0 == *old(timer)
                &&& *final(w0) == *final(timer)
                &&& *w1 == *old(bus)
                &&& *final(w1) == *final(bus)
                &&& #[trigger] call_ensures(<T as TimerDevice<D>>::set_channel_gate, (w0, channel, state, w1), ())
            },
{
    timer.set_channel_gate(channel, state, bus);
    Ghost((*timer, *bus))
}

/// A channel's gate input of the timer `timer` was driven once, with the bus
/// `bus` in hand: its `set_channel_gate` was called on it with these
/// arguments, and `after` and `bus_after` are the timer and the bus as that
/// call left them.
pub open spec fn gate_tied<D: DeviceSet, T: TimerDevice<D>>(
    timer: T,
    channel: usize,
    state: bool,
    bus: BusInterface<D>,
    after: T,
    bus_after: BusInterface<D>,
) -> bool {
    exists|w0: &mut T, w1: &mut BusInterface<D>|
        {
            &&& *w0 == timer
            &&& *w1 == bus
            &&& #[trigger] call_ensures(tie_channel_gate::<D, T>, (w0, channel, state, w1), Ghost((after, bus_after)))
        }
}

/// Advances a timer with the bus and the speaker's sample buffer in hand.
/// Returns the three as that left them.
pub fn advance_timer_device<D: DeviceSet, T: TimerDevice<D>>(
    timer: &mut T,
    bus: &mut BusInterface<D>,
    speaker: &mut Producer<u8>,
    delta: DeviceRunTimeUnit,
) -> (r: Ghost<(T, BusInterface<D>, Producer<u8>)>)
    requires
        old(bus).wf(),
        old(bus).pit_slot() is None,
    ensures
        r@ == (*final(timer), *final(bus), *final(speaker)),
        final(bus).wf(),
        exists|w0: &mut T, w1: &mut BusInterface<D>, w2: &mut Producer<u8>|
            {
                &&& *w0 == *old(timer)
                &&& *final(w0) == *final(timer)
                &&& *w1 == *old(bus)
                &&& *final(w1) == *final(bus)
                &&& *w2 == *old(speaker)
                &&& *final(w2) == *final(speaker)
                &&& #[trigger] call_ensures(<T as TimerDevice<D>>::run, (w0, w1, w2, delta), ())
            },
{
    timer.run(bus, speaker, delta);
    Ghost((*timer, *bus, *speaker))
}

/// The timer `timer` was advanced once by `delta` with the bus `bus` and the
/// speaker's sample buffer `speaker` in hand: its `run` was called on it, and
/// `after`, `bus_after` and `speaker_after` are the three as that call left
/// them.
pub open spec fn timer_ran<D: DeviceSet, T: TimerDevice<D>>(
    timer: T,
    bus: BusInterface<D>,
    speaker: Producer<u8>,
    delta: DeviceRunTimeUnit,
    after: T,
    bus_after: BusInterface<D>,
    speaker_after: Producer<u8>,
) -> bool {
    exists|w0: &mut T, w1: &mut BusInterface<D>, w2: &mut Producer<u8>|
        {
            &&& *w0 == timer
            &&& *w1 == bus
            &&& *w2 == speaker
            &&& #[trigger] call_ensures(advance_timer_device::<D, T>, (w0, w1, w2, delta), Ghost((after, bus_after, speaker_after)))
        }
}

/// Asks a timer whether a channel changed. Returns the report, and the timer
/// as the question left it.
pub fn ask_channel<D: DeviceSet, T: TimerDevice<D>>(
    timer: &mut T,
    channel: usize,
) -> (r: ((bool, bool, bool), Ghost<T>))
    ensures
        r.1@ == *final(timer),
        exists|w0: &mut T, out: (bool, bool, bool)|
            {
                &&& *w0 == *old(timer)
                &&& *final(w0) == *final(timer)
                &&& out == r.0
                &&& #[trigger] call_ensures(<T as TimerDevice<D>>::is_dirty, (w0, channel), out)
            },
{
    let out = timer.is_dirty(channel);
    (out, Ghost(*timer))
}

/// The timer `timer` was asked once whether a channel changed and reported
/// `report`: its `is_dirty` was called on it, and `after` is the timer as that
/// call left it.
pub open spec fn channel_asked<D: DeviceSet, T: TimerDevice<D>>(
    timer: T,
    channel: usize,
    report: (bool, bool, bool),
    after: T,
) -> bool {
    exists|w0: &mut T|
        {
            &&& *w0 == timer
            &&& #[trigger] call_ensures(ask_channel::<D, T>, (w0, channel), (report, Ghost(after)))
        }
}

/// Resets a timer. Returns the timer as that left it.
pub fn reset_timer<D: DeviceSet, T: TimerDevice<D>>(
    timer: &mut T,
) -> (r: Ghost<T>)
    ensures
        r@ == *final(timer),
        exists|w0: &mut T|
            {
                &&& *w0 == *old(timer)
                &&& *final(w0) == *final(timer)
                &&& #[trigger] call_ensures(<T as TimerDevice<D>>::reset, (w0,), ())
            },
{
    timer.reset();
    Ghost(*timer)
}

/// The timer `timer` was reset once: its `reset` was called on it, and `after`
/// is the timer as that call left it.
pub open spec fn timer_was_reset<D: DeviceSet, T: TimerDevice<D>>(
    timer: T,
    after: T,
) -> bool {
    exists|w0: &mut T|
        {
            &&& *w0 == timer
            &&& #[trigger] call_ensures(reset_timer::<D, T>, (w0,), Ghost(after))
        }
}

/// Advances a DMA controller with the bus in hand. Returns both as that left
/// them.
pub fn advance_dma<D: DeviceSet, T: DmaDevice<D>>(
    dma: &mut T,
    bus: &mut BusInterface<D>,
) -> (r: Ghost<(T, BusInterface<D>)>)
    requires
        old(bus).wf(),
        old(bus).dma_slot() is None,
    ensures
        r@ == (*final(dma), *final(bus)),
        final(bus).wf(),
        exists|w0: &mut T, w1: &mut BusInterface<D>|
            {
                &&& *w0 == *old(dma)
                &&& *final(w0) == *final(dma)
                &&& *w1 == *old(bus)
                &&& *final(w1) == *final(bus)
                &&& #[trigger] call_ensures(<T as DmaDevice<D>>::run, (w0, w1), ())
            },
{
    dma.run(bus);
    Ghost((*dma, *bus))
}

/// The DMA controller `dma` was advanced once with the bus `bus` in hand: its
/// `run` was called on it, and `after` and `bus_after` are the controller and
/// the bus as that call left them.
pub open spec fn dma_ran<D: DeviceSet, T: DmaDevice<D>>(
    dma: T,
    bus: BusInterface<D>,
    after: T,
    bus_after: BusInterface<D>,
) -> bool {
    exists|w0: &mut T, w1: &mut BusInterface<D>|
        {
            &&& *w0 == dma
            &&& *w1 == bus
            &&& #[trigger] call_ensures(advance_dma::<D, T>, (w0, w1), Ghost((after, bus_after)))
        }
}

/// Resets a DMA controller. Returns the controller as that left it.
pub fn reset_dma<D: DeviceSet, T: DmaDevice<D>>(
    dma: &mut T,
) -> (r: Ghost<T>)
    ensures
        r@ == *final(dma),
        exists|w0: &mut T|
            {
                &&& *w0 == *old(dma)
                &&& *final(w0) == *final(dma)
                &&& #[trigger] call_ensures(<T as DmaDevice<D>>::reset, (w0,), ())
            },
{
    dma.reset();
    Ghost(*dma)
}

/// The DMA controller `dma` was reset once: its `reset` was called on it, and
/// `after` is the controller as that call left it.
pub open spec fn dma_was_reset<D: DeviceSet, T: DmaDevice<D>>(
    dma: T,
    after: T,
) -> bool {
    exists|w0: &mut T|
        {
            &&& *w0 == dma
            &&& #[trigger] call_ensures(reset_dma::<D, T>, (w0,), Ghost(after))
        }
}

/// Advances a floppy disk controller by a span of time, with the DMA
/// controller and the bus in hand. Returns the three as that left them.
pub fn advance_fdc<D: DeviceSet, F: FloppyDevice<D>>(
    fdc: &mut F,
    dma: &mut D::Dma,
    bus: &mut BusInterface<D>,
    us: Microseconds,
) -> (r: Ghost<(F, D::Dma, BusInterface<D>)>)
    requires
        old(bus).wf(),
        old(bus).fdc_slot() is None,
        old(bus).dma_slot() is None,
    ensures
        r@ == (*final(fdc), *final(dma), *final(bus)),
        final(bus).wf(),
        exists|w0: &mut F, w1: &mut D::Dma, w2: &mut BusInterface<D>|
            {
                &&& *w0 == *old(fdc)
                &&& *final(w0) == *final(fdc)
                &&& *w1 == *old(dma)
                &&& *final(w1) == *final(dma)
                &&& *w2 == *old(bus)
                &&& *final(w2) == *final(bus)
                &&& #[trigger] call_ensures(<F as FloppyDevice<D>>::run, (w0, w1, w2, us), ())
            },
{
    fdc.run(dma, bus, us);
    Ghost((*fdc, *dma, *bus))
}

/// The floppy disk controller `fdc` was advanced once by a span of time, with
/// the DMA controller `dma` and the bus `bus` in hand: its `run` was called on
/// it, and `after`, `dma_after` and `bus_after` are the three as that call
/// left them.
pub open spec fn fdc_ran<D: DeviceSet, F: FloppyDevice<D>>(
    fdc: F,
    dma: D::Dma,
    bus: BusInterface<D>,
    us: Microseconds,
    after: F,
    dma_after: D::Dma,
    bus_after: BusInterface<D>,
) -> bool {
    exists|w0: &mut F, w1: &mut D::Dma, w2: &mut BusInterface<D>|
        {
            &&& *w0 == fdc
            &&& *w1 == dma
            &&& *w2 == bus
            &&& #[trigger] call_ensures(advance_fdc::<D, F>, (w0, w1, w2, us), Ghost((after, dma_after, bus_after)))
        }
}

/// Advances a hard disk controller by a span of time, with the DMA controller
/// and the bus in hand. Returns the three as that left them.
pub fn advance_hdc<D: DeviceSet, H: HardDiskDevice<D>>(
    hdc: &mut H,
    dma: &mut D::Dma,
    bus: &mut BusInterface<D>,
    us: Microseconds,
) -> (r: Ghost<(H, D::Dma, BusInterface<D>)>)
    requires
        old(bus).wf(),
        old(bus).hdc_slot() is None,
        old(bus).dma_slot() is None,
    ensures
        r@ == (*final(hdc), *final(dma), *final(bus)),
        final(bus).wf(),
        exists|w0: &mut H, w1: &mut D::Dma, w2: &mut BusInterface<D>|
            {
                &&& *w0 == *old(hdc)
                &&& *final(w0) == *final(hdc)
                &&& *w1 == *old(dma)
                &&& *final(w1) == *final(dma)
                &&& *w2 == *old(bus)
                &&& *final(w2) == *final(bus)
                &&& #[trigger] call_ensures(<H as HardDiskDevice<D>>::run, (w0, w1, w2, us), ())
            },
{
    hdc.run(dma, bus, us);
    Ghost((*hdc, *dma, *bus))
}

/// The hard disk controller `hdc` was advanced once by a span of time, with
/// the DMA controller `dma` and the bus `bus` in hand: its `run` was called on
/// it, and `after`, `dma_after` and `bus_after` are the three as that call
/// left them.
pub open spec fn hdc_ran<D: DeviceSet, H: HardDiskDevice<D>>(
    hdc: H,
    dma: D::Dma,
    bus: BusInterface<D>,
    us: Microseconds,
    after: H,
    dma_after: D::Dma,
    bus_after: BusInterface<D>,
) -> bool {
    exists|w0: &mut H, w1: &mut D::Dma, w2: &mut BusInterface<D>|
        {
            &&& *w0 == hdc
            &&& *w1 == dma
            &&& *w2 == bus
            &&& #[trigger] call_ensures(advance_hdc::<D, H>, (w0, w1, w2, us), Ghost((after, dma_after, bus_after)))
        }
}

/// Advances a serial controller by a span of time, with the interrupt
/// controller in hand. Returns both as that left them.
pub fn advance_serial<D: DeviceSet, S: SerialDevice<D>>(
    serial: &mut S,
    pic: &mut D::Pic,
    us: Microseconds,
) -> (r: Ghost<(S, D::Pic)>)
    ensures
        r@ == (*final(serial), *final(pic)),
        exists|w0: &mut S, w1: &mut D::Pic|
            {
                &&& *w0 == *old(serial)
                &&& *final(w0) == *final(serial)
                &&& *w1 == *old(pic)
                &&& *final(w1) == *final(pic)
                &&& #[trigger] call_ensures(<S as SerialDevice<D>>::run, (w0, w1, us), ())
            },
{
    serial.run(pic, us);
    Ghost((*serial, *pic))
}

/// The serial controller `serial` was advanced once by a span of time, with
/// the interrupt controller `pic` in hand: its `run` was called on it, and
/// `after` and `pic_after` are the two as that call left them.
pub open spec fn serial_ran<D: DeviceSet, S: SerialDevice<D>>(
    serial: S,
    pic: D::Pic,
    us: Microseconds,
    after: S,
    pic_after: D::Pic,
) -> bool {
    exists|w0: &mut S, w1: &mut D::Pic|
        {
            &&& *w0 == serial
            &&& *w1 == pic
            &&& #[trigger] call_ensures(advance_serial::<D, S>, (w0, w1, us), Ghost((after, pic_after)))
        }
}

/// Advances a mouse by a span of time, with the serial controller in hand.
/// Returns both as that left them.
pub fn advance_mouse<D: DeviceSet, M: MouseDevice<D>>(
    mouse: &mut M,
    serial: &mut D::Serial,
    us: Microseconds,
) -> (r: Ghost<(M, D::Serial)>)
    ensures
        r@ == (*final(mouse), *final(serial)),
        exists|w0: &mut M, w1: &mut D::Serial|
            {
                &&& *w0 == *old(mouse)
                &&& *final(w0) == *final(mouse)
                &&& *w1 == *old(serial)
                &&& *final(w1) == *final(serial)
                &&& #[trigger] call_ensures(<M as MouseDevice<D>>::run, (w0, w1, us), ())
            },
{
    mouse.run(serial, us);
    Ghost((*mouse, *serial))
}

/// The mouse `mouse` was advanced once by a span of time, with the serial
/// controller `serial` in hand: its `run` was called on it, and `after` and
/// `serial_after` are the two as that call left them.
pub open spec fn mouse_ran<D: DeviceSet, M: MouseDevice<D>>(
    mouse: M,
    serial: D::Serial,
    us: Microseconds,
    after: M,
    serial_after: D::Serial,
) -> bool {
    exists|w0: &mut M, w1: &mut D::Serial|
        {
            &&& *w0 == mouse
            &&& *w1 == serial
            &&& #[trigger] call_ensures(advance_mouse::<D, M>, (w0, w1, us), Ghost((after, serial_after)))
        }
}

/// Advances a video card, with the interrupt controller's slot in hand.
/// Returns both as that left them.
pub fn advance_card<D: DeviceSet, C: VideoCard<D>>(
    card: &mut C,
    delta: DeviceRunTimeUnit,
    pic: &mut Option<D::Pic>,
) -> (r: Ghost<(C, Option<D::Pic>)>)
    ensures
        r@ == (*final(card), *final(pic)),
        exists|w0: &mut C, w1: &mut Option<D::Pic>|
            {
                &&& *w0 == *old(card)
                &&& *final(w0) == *final(card)
                &&& *w1 == *old(pic)
                &&& *final(w1) == *final(pic)
                &&& #[trigger] call_ensures(<C as VideoCard<D>>::run, (w0, delta, w1), ())
            },
{
    card.run(delta, pic);
    Ghost((*card, *pic))
}

/// The video card `card` was advanced once by `delta` with the interrupt
/// controller's slot `pic` in hand: its `run` was called on it, and `after`
/// and `pic_after` are the card and the slot as that call left them.
pub open spec fn card_ran<D: DeviceSet, C: VideoCard<D>>(
    card: C,
    delta: DeviceRunTimeUnit,
    pic: Option<D::Pic>,
    after: C,
    pic_after: Option<D::Pic>,
) -> bool {
    exists|w0: &mut C, w1: &mut Option<D::Pic>|
        {
            &&& *w0 == card
            &&& *w1 == pic
            &&& #[trigger] call_ensures(advance_card::<D, C>, (w0, delta, w1), Ghost((after, pic_after)))
        }
}

/// Resets a video card. Returns the card as that left it.
pub fn reset_card<D: DeviceSet, C: VideoCard<D>>(
    card: &mut C,
) -> (r: Ghost<C>)
    ensures
        r@ == *final(card),
        exists|w0: &mut C|
            {
                &&& *w0 == *old(card)
                &&& *final(w0) == *final(card)
                &&& #[trigger] call_ensures(<C as VideoCard<D>>::reset, (w0,), ())
            },
{
    card.reset();
    Ghost(*card)
}

/// The video card `card` was reset once: its `reset` was called on it, and
/// `after` is the card as that call left it.
pub open spec fn card_was_reset<D: DeviceSet, C: VideoCard<D>>(
    card: C,
    after: C,
) -> bool {
    exists|w0: &mut C|
        {
            &&& *w0 == card
            &&& #[trigger] call_ensures(reset_card::<D, C>, (w0,), Ghost(after))
        }
}


/// What it means that a line was pulsed: there was one call of the
/// controller's `pulse_interrupt` with the line, on the controller as it was,
/// and the controller afterwards is the controller as that call left it.
pub proof fn lemma_line_pulsed<D: DeviceSet, C: InterruptController<D>>(pic: C, line: u8, after: C)
    requires
        line_pulsed::<D, C>(pic, line, after),
    ensures
        exists|c: &mut C|
            {
                &&& *c == pic
                &&& *final(c) == after
                &&& #[trigger] call_ensures(<C as InterruptController<D>>::pulse_interrupt, (c, line), ())
            },
{
    let c0 = choose|c: &mut C|
        *c == pic && #[trigger] call_ensures(pulse_line::<D, C>, (c, line), Ghost(after));
}

/// What it means that a timer ran: there was one call of the timer's `run`
/// with the bus, the speaker's sample buffer and the time, on the timer as it
/// was, and the timer, the bus and the buffer afterwards are as that call
/// left them; the bus is well formed.
pub proof fn lemma_timer_ran<D: DeviceSet, T: TimerDevice<D>>(
    timer: T,
    bus: BusInterface<D>,
    speaker: Producer<u8>,
    delta: DeviceRunTimeUnit,
    after: T,
    bus_after: BusInterface<D>,
    speaker_after: Producer<u8>,
)
    requires
        timer_ran::<D, T>(timer, bus, speaker, delta, after, bus_after, speaker_after),
    ensures
        bus_after.wf(),
        exists|t: &mut T, b: &mut BusInterface<D>, s: &mut Producer<u8>|
            {
                &&& *t == timer
                &&& *final(t) == after
                &&& *b == bus
                &&& *final(b) == bus_after
                &&& *s == speaker
                &&& *final(s) == speaker_after
                &&& #[trigger] call_ensures(<T as TimerDevice<D>>::run, (t, b, s, delta), ())
            },
{
    let (t0, b0, s0) = choose|t: &mut T, b: &mut BusInterface<D>, s: &mut Producer<u8>|
        *t == timer && *b == bus && *s == speaker && #[trigger] call_ensures(
            advance_timer_device::<D, T>,
            (t, b, s, delta),
            Ghost((after, bus_after, speaker_after)),
        );
}

/// The keyboard `keyboard` is a keyboard of a model with its key repeat set:
/// a keyboard was made by `new`, its key repeat was then set once, and
/// `keyboard` is the keyboard as that left it.
pub open spec fn keyboard_made<K: KeyboardDevice>(
    kb_type: KeyboardType,
    enabled: Option<bool>,
    delay: Option<u32>,
    rate: Option<u32>,
    keyboard: K,
) -> bool {
    exists|made: K|
        #[trigger] call_ensures(<K as KeyboardDevice>::new, (kb_type, false), made) && typematic_set::<K>(
            made,
            enabled,
            delay,
            rate,
            keyboard,
        )
}

/// A video card of one of the supported kinds.
pub enum VideoCardDispatch<D: DeviceSet> {
    Empty,
    Mda(D::Mda),
    Cga(D::Cga),
    Ega(D::Ega),
    Vga(D::Vga),
}

impl<D: DeviceSet> VideoCardDispatch<D> {
    /// The kind of card that is held, if any.
    pub open spec fn kind(self) -> Option<VideoType> {
        match self {
            VideoCardDispatch::Empty => None,
            VideoCardDispatch::Mda(_) => Some(VideoType::MDA),
            VideoCardDispatch::Cga(_) => Some(VideoType::CGA),
            VideoCardDispatch::Ega(_) => Some(VideoType::EGA),
            VideoCardDispatch::Vga(_) => Some(VideoType::VGA),
        }
    }

    /// A card is held.
    pub open spec fn live(self) -> bool {
        !(self is Empty)
    }

    /// Tells whether a card is held.
    pub fn is_live(&self) -> (r: bool)
        ensures
            r == self.live(),
    {
        match self {
            VideoCardDispatch::Empty => false,
            _ => true,
        }
    }
}

impl<D: DeviceSet> VideoCardDispatch<D> where
    D::Mda: MemoryMappedDevice,
    D::Cga: MemoryMappedDevice,
    D::Ega: MemoryMappedDevice,
    D::Vga: MemoryMappedDevice,
 {
    /// The card that is held was asked once how long a read would wait and
    /// answered `wait`, and `after` is the card as the question left it.
    pub open spec fn asked_read_wait(self, address: usize, ticks: u32, wait: u32, after: Self) -> bool {
        match self {
            VideoCardDispatch::Empty => false,
            VideoCardDispatch::Mda(card) => after matches VideoCardDispatch::Mda(left) && read_wait_asked::<D::Mda>(card, address, ticks, wait, left),
            VideoCardDispatch::Cga(card) => after matches VideoCardDispatch::Cga(left) && read_wait_asked::<D::Cga>(card, address, ticks, wait, left),
            VideoCardDispatch::Ega(card) => after matches VideoCardDispatch::Ega(left) && read_wait_asked::<D::Ega>(card, address, ticks, wait, left),
            VideoCardDispatch::Vga(card) => after matches VideoCardDispatch::Vga(left) && read_wait_asked::<D::Vga>(card, address, ticks, wait, left),
        }
    }

    /// The card that is held was asked once how long a write would wait and
    /// answered `wait`, and `after` is the card as the question left it.
    pub open spec fn asked_write_wait(self, address: usize, ticks: u32, wait: u32, after: Self) -> bool {
        match self {
            VideoCardDispatch::Empty => false,
            VideoCardDispatch::Mda(card) => after matches VideoCardDispatch::Mda(left) && write_wait_asked::<D::Mda>(card, address, ticks, wait, left),
            VideoCardDispatch::Cga(card) => after matches VideoCardDispatch::Cga(left) && write_wait_asked::<D::Cga>(card, address, ticks, wait, left),
            VideoCardDispatch::Ega(card) => after matches VideoCardDispatch::Ega(left) && write_wait_asked::<D::Ega>(card, address, ticks, wait, left),
            VideoCardDispatch::Vga(card) => after matches VideoCardDispatch::Vga(left) && write_wait_asked::<D::Vga>(card, address, ticks, wait, left),
        }
    }

    /// The card that is held was read once at `address` and gave `data` and
    /// `wait`, and `after` is the card as the read left it.
    pub open spec fn read_byte_at(self, address: usize, ticks: u32, data: u8, wait: u32, after: Self) -> bool {
        match self {
            VideoCardDispatch::Empty => false,
            VideoCardDispatch::Mda(card) => after matches VideoCardDispatch::Mda(left) && byte_read::<D::Mda>(card, address, ticks, data, wait, left),
            VideoCardDispatch::Cga(card) => after matches VideoCardDispatch::Cga(left) && byte_read::<D::Cga>(card, address, ticks, data, wait, left),
            VideoCardDispatch::Ega(card) => after matches VideoCardDispatch::Ega(left) && byte_read::<D::Ega>(card, address, ticks, data, wait, left),
            VideoCardDispatch::Vga(card) => after matches VideoCardDispatch::Vga(left) && byte_read::<D::Vga>(card, address, ticks, data, wait, left),
        }
    }

    /// The card that is held was read once at `address` and gave the word
    /// `data` and `wait`, and `after` is the card as the read left it.
    pub open spec fn read_word_at(self, address: usize, ticks: u32, data: u16, wait: u32, after: Self) -> bool {
        match self {
            VideoCardDispatch::Empty => false,
            VideoCardDispatch::Mda(card) => after matches VideoCardDispatch::Mda(left) && word_read::<D::Mda>(card, address, ticks, data, wait, left),
            VideoCardDispatch::Cga(card) => after matches VideoCardDispatch::Cga(left) && word_read::<D::Cga>(card, address, ticks, data, wait, left),
            VideoCardDispatch::Ega(card) => after matches VideoCardDispatch::Ega(left) && word_read::<D::Ega>(card, address, ticks, data, wait, left),
            VideoCardDispatch::Vga(card) => after matches VideoCardDispatch::Vga(left) && word_read::<D::Vga>(card, address, ticks, data, wait, left),
        }
    }

    /// The card that is held shows `data` at `address` to a reader that it
    /// does not notice.
    pub open spec fn peeked_at(self, address: usize, data: u8) -> bool {
        match self {
            VideoCardDispatch::Empty => false,
            VideoCardDispatch::Mda(card) => byte_peeked::<D::Mda>(card, address, data),
            VideoCardDispatch::Cga(card) => byte_peeked::<D::Cga>(card, address, data),
            VideoCardDispatch::Ega(card) => byte_peeked::<D::Ega>(card, address, data),
            VideoCardDispatch::Vga(card) => byte_peeked::<D::Vga>(card, address, data),
        }
    }

    /// The byte `data` was written once to the card that is held at `address`,
    /// the card reported `wait`, and `after` is the card as the write left it.
    pub open spec fn written_at(self, address: usize, data: u8, ticks: u32, wait: u32, after: Self) -> bool {
        match self {
            VideoCardDispatch::Empty => false,
            VideoCardDispatch::Mda(card) => after matches VideoCardDispatch::Mda(left) && byte_written::<D::Mda>(card, address, data, ticks, wait, left),
            VideoCardDispatch::Cga(card) => after matches VideoCardDispatch::Cga(left) && byte_written::<D::Cga>(card, address, data, ticks, wait, left),
            VideoCardDispatch::Ega(card) => after matches VideoCardDispatch::Ega(left) && byte_written::<D::Ega>(card, address, data, ticks, wait, left),
            VideoCardDispatch::Vga(card) => after matches VideoCardDispatch::Vga(left) && byte_written::<D::Vga>(card, address, data, ticks, wait, left),
        }
    }

    /// Asks the card how long a read would wait, in system ticks.
    pub fn get_read_wait(&mut self, address: usize, ticks: u32) -> (r: Option<u32>)
        requires
            address < ADDRESS_SPACE,
        ensures
            r is Some <==> old(self).live(),
            final(self).kind() == old(self).kind(),
            r is None ==> *final(self) == *old(self),
            r matches Some(wait) ==> old(self).asked_read_wait(address, ticks, wait, *final(self)),
    {
        match self {
            VideoCardDispatch::Empty => None,
            VideoCardDispatch::Mda(card) => {
                let ghost before = *card;
                let (wait, Ghost(left)) = ask_read_wait(card, address, ticks);
                assert(read_wait_asked::<D::Mda>(before, address, ticks, wait, left));
                Some(wait)
            },
            VideoCardDispatch::Cga(card) => {
                let ghost before = *card;
                let (wait, Ghost(left)) = ask_read_wait(card, address, ticks);
                assert(read_wait_asked::<D::Cga>(before, address, ticks, wait, left));
                Some(wait)
            },
            VideoCardDispatch::Ega(card) => {
                let ghost before = *card;
                let (wait, Ghost(left)) = ask_read_wait(card, address, ticks);
                assert(read_wait_asked::<D::Ega>(before, address, ticks, wait, left));
                Some(wait)
            },
            VideoCardDispatch::Vga(card) => {
                let ghost before = *card;
                let (wait, Ghost(left)) = ask_read_wait(card, address, ticks);
                assert(read_wait_asked::<D::Vga>(before, address, ticks, wait, left));
                Some(wait)
            },
        }
    }

    /// Asks the card how long a write would wait, in system ticks.
    pub fn get_write_wait(&mut self, address: usize, ticks: u32) -> (r: Option<u32>)
        requires
            address < ADDRESS_SPACE,
        ensures
            r is Some <==> old(self).live(),
            final(self).kind() == old(self).kind(),
            r is None ==> *final(self) == *old(self),
            r matches Some(wait) ==> old(self).asked_write_wait(address, ticks, wait, *final(self)),
    {
        match self {
            VideoCardDispatch::Empty => None,
            VideoCardDispatch::Mda(card) => {
                let ghost before = *card;
                let (wait, Ghost(left)) = ask_write_wait(card, address, ticks);
                assert(write_wait_asked::<D::Mda>(before, address, ticks, wait, left));
                Some(wait)
            },
            VideoCardDispatch::Cga(card) => {
                let ghost before = *card;
                let (wait, Ghost(left)) = ask_write_wait(card, address, ticks);
                assert(write_wait_asked::<D::Cga>(before, address, ticks, wait, left));
                Some(wait)
            },
            VideoCardDispatch::Ega(card) => {
                let ghost before = *card;
                let (wait, Ghost(left)) = ask_write_wait(card, address, ticks);
                assert(write_wait_asked::<D::Ega>(before, address, ticks, wait, left));
                Some(wait)
            },
            VideoCardDispatch::Vga(card) => {
                let ghost before = *card;
                let (wait, Ghost(left)) = ask_write_wait(card, address, ticks);
                assert(write_wait_asked::<D::Vga>(before, address, ticks, wait, left));
                Some(wait)
            },
        }
    }

    /// Reads a byte from the card: the byte and the wait in system ticks.
    pub fn mmio_read_u8(&mut self, address: usize, ticks: u32) -> (r: Option<(u8, u32)>)
        requires
            address < ADDRESS_SPACE,
        ensures
            r is Some <==> old(self).live(),
            final(self).kind() == old(self).kind(),
            r is None ==> *final(self) == *old(self),
            r matches Some(read) ==> old(self).read_byte_at(address, ticks, read.0, read.1, *final(self)),
    {
        match self {
            VideoCardDispatch::Empty => None,
            VideoCardDispatch::Mda(card) => {
                let ghost before = *card;
                let (read, Ghost(left)) = read_mapped_byte(card, address, ticks);
                assert(byte_read::<D::Mda>(before, address, ticks, read.0, read.1, left));
                Some(read)
            },
            VideoCardDispatch::Cga(card) => {
                let ghost before = *card;
                let (read, Ghost(left)) = read_mapped_byte(card, address, ticks);
                assert(byte_read::<D::Cga>(before, address, ticks, read.0, read.1, left));
                Some(read)
            },
            VideoCardDispatch::Ega(card) => {
                let ghost before = *card;
                let (read, Ghost(left)) = read_mapped_byte(card, address, ticks);
                assert(byte_read::<D::Ega>(before, address, ticks, read.0, read.1, left));
                Some(read)
            },
            VideoCardDispatch::Vga(card) => {
                let ghost before = *card;
                let (read, Ghost(left)) = read_mapped_byte(card, address, ticks);
                assert(byte_read::<D::Vga>(before, address, ticks, read.0, read.1, left));
                Some(read)
            },
        }
    }

    /// Reads a word from the card: the word and the wait in system ticks.
    pub fn mmio_read_u16(&mut self, address: usize, ticks: u32) -> (r: Option<(u16, u32)>)
        requires
            address + 1 < ADDRESS_SPACE,
        ensures
            r is Some <==> old(self).live(),
            final(self).kind() == old(self).kind(),
            r is None ==> *final(self) == *old(self),
            r matches Some(read) ==> old(self).read_word_at(address, ticks, read.0, read.1, *final(self)),
    {
        match self {
            VideoCardDispatch::Empty => None,
            VideoCardDispatch::Mda(card) => {
                let ghost before = *card;
                let (read, Ghost(left)) = read_mapped_word(card, address, ticks);
                assert(word_read::<D::Mda>(before, address, ticks, read.0, read.1, left));
                Some(read)
            },
            VideoCardDispatch::Cga(card) => {
                let ghost before = *card;
                let (read, Ghost(left)) = read_mapped_word(card, address, ticks);
                assert(word_read::<D::Cga>(before, address, ticks, read.0, read.1, left));
                Some(read)
            },
            VideoCardDispatch::Ega(card) => {
                let ghost before = *card;
                let (read, Ghost(left)) = read_mapped_word(card, address, ticks);
                assert(word_read::<D::Ega>(before, address, ticks, read.0, read.1, left));
                Some(read)
            },
            VideoCardDispatch::Vga(card) => {
                let ghost before = *card;
                let (read, Ghost(left)) = read_mapped_word(card, address, ticks);
                assert(word_read::<D::Vga>(before, address, ticks, read.0, read.1, left));
                Some(read)
            },
        }
    }

    /// Reads a byte from the card without the card noticing.
    pub fn mmio_peek_u8(&self, address: usize) -> (r: Option<u8>)
        requires
            address < ADDRESS_SPACE,
        ensures
            r is Some <==> self.live(),
            r matches Some(data) ==> self.peeked_at(address, data),
    {
        match self {
            VideoCardDispatch::Empty => None,
            VideoCardDispatch::Mda(card) => Some(card.mmio_peek_u8(address)),
            VideoCardDispatch::Cga(card) => Some(card.mmio_peek_u8(address)),
            VideoCardDispatch::Ega(card) => Some(card.mmio_peek_u8(address)),
            VideoCardDispatch::Vga(card) => Some(card.mmio_peek_u8(address)),
        }
    }

    /// Writes a byte to the card: the wait in system ticks.
    pub fn mmio_write_u8(&mut self, address: usize, data: u8, ticks: u32) -> (r: Option<u32>)
        requires
            address < ADDRESS_SPACE,
        ensures
            r is Some <==> old(self).live(),
            final(self).kind() == old(self).kind(),
            r is None ==> *final(self) == *old(self),
            r matches Some(wait) ==> old(self).written_at(address, data, ticks, wait, *final(self)),
    {
        match self {
            VideoCardDispatch::Empty => None,
            VideoCardDispatch::Mda(card) => {
                let ghost before = *card;
                let (wait, Ghost(left)) = write_mapped_byte(card, address, data, ticks);
                assert(byte_written::<D::Mda>(before, address, data, ticks, wait, left));
                Some(wait)
            },
            VideoCardDispatch::Cga(card) => {
                let ghost before = *card;
                let (wait, Ghost(left)) = write_mapped_byte(card, address, data, ticks);
                assert(byte_written::<D::Cga>(before, address, data, ticks, wait, left));
                Some(wait)
            },
            VideoCardDispatch::Ega(card) => {
                let ghost before = *card;
                let (wait, Ghost(left)) = write_mapped_byte(card, address, data, ticks);
                assert(byte_written::<D::Ega>(before, address, data, ticks, wait, left));
                Some(wait)
            },
            VideoCardDispatch::Vga(card) => {
                let ghost before = *card;
                let (wait, Ghost(left)) = write_mapped_byte(card, address, data, ticks);
                assert(byte_written::<D::Vga>(before, address, data, ticks, wait, left));
                Some(wait)
            },
        }
    }

}

impl<D: DeviceSet> VideoCardDispatch<D> where
    D::Mda: IoDevice<D>,
    D::Cga: IoDevice<D>,
    D::Ega: IoDevice<D>,
    D::Vga: IoDevice<D>,
 {
    /// The card that is held answers to the ports `ports`.
    pub open spec fn lists_ports(self, ports: Vec<u16>) -> bool {
        match self {
            VideoCardDispatch::Empty => false,
            VideoCardDispatch::Mda(card) => lists_ports::<D, D::Mda>(card, ports),
            VideoCardDispatch::Cga(card) => lists_ports::<D, D::Cga>(card, ports),
            VideoCardDispatch::Ega(card) => lists_ports::<D, D::Ega>(card, ports),
            VideoCardDispatch::Vga(card) => lists_ports::<D, D::Vga>(card, ports),
        }
    }

    /// The time that a card of the kind that is held is told with a port
    /// access: the monochrome and the colour adapter the elapsed system
    /// ticks, the others no time.
    pub open spec fn port_time(self, sys_ticks: u32) -> DeviceRunTimeUnit {
        match self {
            VideoCardDispatch::Mda(_) => DeviceRunTimeUnit::SystemTicks(sys_ticks),
            VideoCardDispatch::Cga(_) => DeviceRunTimeUnit::SystemTicks(sys_ticks),
            _ => DeviceRunTimeUnit::Microseconds(Microseconds { millionths: 0 }),
        }
    }

    /// The card that is held was read once at a port and gave `byte`, with
    /// the time that its kind is told, and `after` is the card as the read
    /// left it. Without a card the port reads as unconnected.
    pub open spec fn read_from(self, port: u16, sys_ticks: u32, byte: u8, after: Self) -> bool {
        match self {
            VideoCardDispatch::Empty => byte == NO_IO_BYTE && after == self,
            VideoCardDispatch::Mda(card) => after matches VideoCardDispatch::Mda(left) && port_read::<D, D::Mda>(
                card,
                port,
                self.port_time(sys_ticks),
                byte,
                left,
            ),
            VideoCardDispatch::Cga(card) => after matches VideoCardDispatch::Cga(left) && port_read::<D, D::Cga>(
                card,
                port,
                self.port_time(sys_ticks),
                byte,
                left,
            ),
            VideoCardDispatch::Ega(card) => after matches VideoCardDispatch::Ega(left) && port_read::<D, D::Ega>(
                card,
                port,
                self.port_time(sys_ticks),
                byte,
                left,
            ),
            VideoCardDispatch::Vga(card) => after matches VideoCardDispatch::Vga(left) && port_read::<D, D::Vga>(
                card,
                port,
                self.port_time(sys_ticks),
                byte,
                left,
            ),
        }
    }

    /// Reads a byte from one of the card's ports. The monochrome and the
    /// colour adapter are told the elapsed system ticks, the others no time.
    /// Without a card the port is unconnected.
    pub fn io_read_u8(&mut self, port: u16, sys_ticks: u32) -> (byte: u8)
        ensures
            !old(self).live() ==> byte == NO_IO_BYTE && *final(self) == *old(self),
            final(self).kind() == old(self).kind(),
            old(self).read_from(port, sys_ticks, byte, *final(self)),
    {
        let no_time = DeviceRunTimeUnit::Microseconds(Microseconds { millionths: 0 });
        match self {
            VideoCardDispatch::Empty => NO_IO_BYTE,
            VideoCardDispatch::Mda(card) => {
                let ghost before = *card;
                let (byte, Ghost(left)) = read_port::<D, D::Mda>(card, port, DeviceRunTimeUnit::SystemTicks(sys_ticks));
                assert(port_read::<D, D::Mda>(before, port, DeviceRunTimeUnit::SystemTicks(sys_ticks), byte, left));
                byte
            },
            VideoCardDispatch::Cga(card) => {
                let ghost before = *card;
                let (byte, Ghost(left)) = read_port::<D, D::Cga>(card, port, DeviceRunTimeUnit::SystemTicks(sys_ticks));
                assert(port_read::<D, D::Cga>(before, port, DeviceRunTimeUnit::SystemTicks(sys_ticks), byte, left));
                byte
            },
            VideoCardDispatch::Ega(card) => {
                let ghost before = *card;
                let (byte, Ghost(left)) = read_port::<D, D::Ega>(card, port, no_time);
                assert(port_read::<D, D::Ega>(before, port, no_time, byte, left));
                byte
            },
            VideoCardDispatch::Vga(card) => {
                let ghost before = *card;
                let (byte, Ghost(left)) = read_port::<D, D::Vga>(card, port, no_time);
                assert(port_read::<D, D::Vga>(before, port, no_time, byte, left));
                byte
            },
        }
    }

    /// The card that is held was written to once at a port, with the time
    /// that its kind is told and without the bus, and `after` is the card as
    /// the write left it.
    pub open spec fn written_to(self, port: u16, data: u8, sys_ticks: u32, after: Self) -> bool {
        match self {
            VideoCardDispatch::Empty => after == self,
            VideoCardDispatch::Mda(card) => after matches VideoCardDispatch::Mda(left) && port_written::<D, D::Mda>(
                card,
                port,
                data,
                self.port_time(sys_ticks),
                left,
            ),
            VideoCardDispatch::Cga(card) => after matches VideoCardDispatch::Cga(left) && port_written::<D, D::Cga>(
                card,
                port,
                data,
                self.port_time(sys_ticks),
                left,
            ),
            VideoCardDispatch::Ega(card) => after matches VideoCardDispatch::Ega(left) && port_written::<D, D::Ega>(
                card,
                port,
                data,
                self.port_time(sys_ticks),
                left,
            ),
            VideoCardDispatch::Vga(card) => after matches VideoCardDispatch::Vga(left) && port_written::<D, D::Vga>(
                card,
                port,
                data,
                self.port_time(sys_ticks),
                left,
            ),
        }
    }

    /// Writes a byte to one of the card's ports. The monochrome and the
    /// colour adapter are told the elapsed system ticks, the others no time.
    /// The card is not handed the bus. Without a card nothing happens.
    pub fn io_write_u8(&mut self, port: u16, data: u8, sys_ticks: u32)
        ensures
            !old(self).live() ==> *final(self) == *old(self),
            final(self).kind() == old(self).kind(),
            old(self).written_to(port, data, sys_ticks, *final(self)),
    {
        let no_time = DeviceRunTimeUnit::Microseconds(Microseconds { millionths: 0 });
        match self {
            VideoCardDispatch::Empty => {},
            VideoCardDispatch::Mda(card) => {
                let ghost before = *card;
                let Ghost(left) = write_port::<D, D::Mda>(card, port, data, DeviceRunTimeUnit::SystemTicks(sys_ticks));
                assert(port_written::<D, D::Mda>(before, port, data, DeviceRunTimeUnit::SystemTicks(sys_ticks), left));
            },
            VideoCardDispatch::Cga(card) => {
                let ghost before = *card;
                let Ghost(left) = write_port::<D, D::Cga>(card, port, data, DeviceRunTimeUnit::SystemTicks(sys_ticks));
                assert(port_written::<D, D::Cga>(before, port, data, DeviceRunTimeUnit::SystemTicks(sys_ticks), left));
            },
            VideoCardDispatch::Ega(card) => {
                let ghost before = *card;
                let Ghost(left) = write_port::<D, D::Ega>(card, port, data, no_time);
                assert(port_written::<D, D::Ega>(before, port, data, no_time, left));
            },
            VideoCardDispatch::Vga(card) => {
                let ghost before = *card;
                let Ghost(left) = write_port::<D, D::Vga>(card, port, data, no_time);
                assert(port_written::<D, D::Vga>(before, port, data, no_time, left));
            },
        }
    }
}

impl<D: DeviceSet> VideoCardDispatch<D> where
    D::Mda: VideoCard<D>,
    D::Cga: VideoCard<D>,
    D::Ega: VideoCard<D>,
    D::Vga: VideoCard<D>,
 {
    /// The card that is held was made by `new` with these settings.
    pub open spec fn made_with(self, clock_mode: ClockingMode, frame_debug: bool) -> bool {
        match self {
            VideoCardDispatch::Empty => false,
            VideoCardDispatch::Mda(card) => call_ensures(
                <D::Mda as VideoCard<D>>::new,
                (clock_mode, frame_debug),
                card,
            ),
            VideoCardDispatch::Cga(card) => call_ensures(
                <D::Cga as VideoCard<D>>::new,
                (clock_mode, frame_debug),
                card,
            ),
            VideoCardDispatch::Ega(card) => call_ensures(
                <D::Ega as VideoCard<D>>::new,
                (clock_mode, frame_debug),
                card,
            ),
            VideoCardDispatch::Vga(card) => call_ensures(
                <D::Vga as VideoCard<D>>::new,
                (clock_mode, frame_debug),
                card,
            ),
        }
    }

    /// Tells the kind of card that is held, if any.
    pub fn card_kind(&self) -> (r: Option<VideoType>)
        ensures
            r == self.kind(),
    {
        match self {
            VideoCardDispatch::Empty => None,
            VideoCardDispatch::Mda(_) => Some(VideoType::MDA),
            VideoCardDispatch::Cga(_) => Some(VideoType::CGA),
            VideoCardDispatch::Ega(_) => Some(VideoType::EGA),
            VideoCardDispatch::Vga(_) => Some(VideoType::VGA),
        }
    }

    /// The card that is held was advanced once by `delta` with the interrupt
    /// controller's slot `pic` in hand, and `after` and `pic_after` are the
    /// card and the slot as that left them. Without a card nothing happens.
    pub open spec fn advanced(
        self,
        delta: DeviceRunTimeUnit,
        pic: Option<D::Pic>,
        after: Self,
        pic_after: Option<D::Pic>,
    ) -> bool {
        match self {
            VideoCardDispatch::Empty => after == self && pic_after == pic,
            VideoCardDispatch::Mda(card) => after matches VideoCardDispatch::Mda(left) && card_ran::<D, D::Mda>(
                card,
                delta,
                pic,
                left,
                pic_after,
            ),
            VideoCardDispatch::Cga(card) => after matches VideoCardDispatch::Cga(left) && card_ran::<D, D::Cga>(
                card,
                delta,
                pic,
                left,
                pic_after,
            ),
            VideoCardDispatch::Ega(card) => after matches VideoCardDispatch::Ega(left) && card_ran::<D, D::Ega>(
                card,
                delta,
                pic,
                left,
                pic_after,
            ),
            VideoCardDispatch::Vga(card) => after matches VideoCardDispatch::Vga(left) && card_ran::<D, D::Vga>(
                card,
                delta,
                pic,
                left,
                pic_after,
            ),
        }
    }

    /// The card that is held was reset once, and `after` is the card as that
    /// left it. Without a card nothing happens.
    pub open spec fn was_reset(self, after: Self) -> bool {
        match self {
            VideoCardDispatch::Empty => after == self,
            VideoCardDispatch::Mda(card) => after matches VideoCardDispatch::Mda(left) && card_was_reset::<D, D::Mda>(
                card,
                left,
            ),
            VideoCardDispatch::Cga(card) => after matches VideoCardDispatch::Cga(left) && card_was_reset::<D, D::Cga>(
                card,
                left,
            ),
            VideoCardDispatch::Ega(card) => after matches VideoCardDispatch::Ega(left) && card_was_reset::<D, D::Ega>(
                card,
                left,
            ),
            VideoCardDispatch::Vga(card) => after matches VideoCardDispatch::Vga(left) && card_was_reset::<D, D::Vga>(
                card,
                left,
            ),
        }
    }

    /// Advances the card by a span of time, with the interrupt controller
    /// in hand. Where no card is held, nothing happens.
    pub fn run(&mut self, delta: DeviceRunTimeUnit, pic: &mut Option<D::Pic>)
        ensures
            final(self).kind() == old(self).kind(),
            !old(self).live() ==> *final(self) == *old(self) && *final(pic) == *old(pic),
            old(self).advanced(delta, *old(pic), *final(self), *final(pic)),
    {
        match self {
            VideoCardDispatch::Empty => {},
            VideoCardDispatch::Mda(card) => {
                let ghost before = *card;
                let Ghost(left) = advance_card::<D, D::Mda>(card, delta, pic);
                assert(card_ran::<D, D::Mda>(before, delta, *old(pic), left.0, left.1));
            },
            VideoCardDispatch::Cga(card) => {
                let ghost before = *card;
                let Ghost(left) = advance_card::<D, D::Cga>(card, delta, pic);
                assert(card_ran::<D, D::Cga>(before, delta, *old(pic), left.0, left.1));
            },
            VideoCardDispatch::Ega(card) => {
                let ghost before = *card;
                let Ghost(left) = advance_card::<D, D::Ega>(card, delta, pic);
                assert(card_ran::<D, D::Ega>(before, delta, *old(pic), left.0, left.1));
            },
            VideoCardDispatch::Vga(card) => {
                let ghost before = *card;
                let Ghost(left) = advance_card::<D, D::Vga>(card, delta, pic);
                assert(card_ran::<D, D::Vga>(before, delta, *old(pic), left.0, left.1));
            },
        }
    }

    /// Resets the card. Where no card is held, nothing happens.
    pub fn reset(&mut self)
        ensures
            final(self).kind() == old(self).kind(),
            !old(self).live() ==> *final(self) == *old(self),
            old(self).was_reset(*final(self)),
    {
        match self {
            VideoCardDispatch::Empty => {},
            VideoCardDispatch::Mda(card) => {
                let ghost before = *card;
                let Ghost(left) = reset_card::<D, D::Mda>(card);
                assert(card_was_reset::<D, D::Mda>(before, left));
            },
            VideoCardDispatch::Cga(card) => {
                let ghost before = *card;
                let Ghost(left) = reset_card::<D, D::Cga>(card);
                assert(card_was_reset::<D, D::Cga>(before, left));
            },
            VideoCardDispatch::Ega(card) => {
                let ghost before = *card;
                let Ghost(left) = reset_card::<D, D::Ega>(card);
                assert(card_was_reset::<D, D::Ega>(before, left));
            },
            VideoCardDispatch::Vga(card) => {
                let ghost before = *card;
                let Ghost(left) = reset_card::<D, D::Vga>(card);
                assert(card_was_reset::<D, D::Vga>(before, left));
            },
        }
    }
}

/// An installed video card with its identity.
pub struct VideoCardSlot<D: DeviceSet> {
    pub id: VideoCardId,
    pub card: VideoCardDispatch<D>,
}

} // verus!

