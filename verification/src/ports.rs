//! The port accesses of the CPU.
//!
//! A port that no device answers to reads as [`NO_IO_BYTE`], and a write to
//! it does nothing. A device that may reach out to other devices when it is
//! written to is handed the bus: it is taken out of its slot for the call and
//! put back afterwards, so that it never meets itself there.
use vstd::prelude::*;
use crate::bus::BusInterface;
use crate::device::{
    port_read, port_written, port_written_with_bus, read_port, write_port, write_port_with_bus,
    DeviceSet, IoDevice, IoDeviceType,
};
use crate::event::DeviceRunTimeUnit;
use crate::memory::NO_IO_BYTE;
use crate::timing::Microseconds;

verus! {

impl<D: DeviceSet> BusInterface<D> {
    /// Both buses hold the same devices in their slots, but for the slot of
    /// the device `which`; video cards apart.
    pub open(crate) spec fn same_slots_but(self, other: Self, which: IoDeviceType) -> bool {
        &&& self.keyboard == other.keyboard
        &&& self.mouse == other.mouse
        &&& !(which is Ppi) ==> self.ppi == other.ppi
        &&& !(which is Pit) ==> self.pit == other.pit
        &&& !(which is DmaPrimary) ==> self.dma1 == other.dma1
        &&& !(which is DmaSecondary) ==> self.dma2 == other.dma2
        &&& !(which is PicPrimary) ==> self.pic1 == other.pic1
        &&& !(which is PicSecondary) ==> self.pic2 == other.pic2
        &&& !(which is Serial) ==> self.serial == other.serial
        &&& !(which is FloppyController) ==> self.fdc == other.fdc
        &&& !(which is HardDiskController) ==> self.hdc == other.hdc
    }

    /// The device `which` is installed. A mouse never answers to a port.
    pub open(crate) spec fn device_present(self, which: IoDeviceType) -> bool {
        match which {
            IoDeviceType::Ppi => self.ppi is Some,
            IoDeviceType::Pit => self.pit is Some,
            IoDeviceType::DmaPrimary => self.dma1 is Some,
            IoDeviceType::DmaSecondary => self.dma2 is Some,
            IoDeviceType::PicPrimary => self.pic1 is Some,
            IoDeviceType::PicSecondary => self.pic2 is Some,
            IoDeviceType::Serial => self.serial is Some,
            IoDeviceType::FloppyController => self.fdc is Some,
            IoDeviceType::HardDiskController => self.hdc is Some,
            IoDeviceType::Mouse => false,
            IoDeviceType::Video(vid) => match self.card_index(vid) {
                Some(i) => self.videocards@[i as int].card.live(),
                None => false,
            },
        }
    }

    /// An installed device answers to the port.
    pub open(crate) spec fn port_answered(self, port: u16) -> bool {
        self.io_map@.contains_key(port) && self.device_present(self.io_map@[port])
    }

    /// The video cards are as on the other bus, but for the one that the
    /// device `which` names, which has kept its identity and its kind.
    pub open(crate) spec fn same_cards_but_of(self, other: Self, which: IoDeviceType) -> bool {
        match which {
            IoDeviceType::Video(vid) => match other.card_index(vid) {
                Some(i) => self.same_cards_but(other, i as int),
                None => self.videocards == other.videocards && self.videocard_ids
                    == other.videocard_ids,
            },
            _ => self.videocards == other.videocards && self.videocard_ids == other.videocard_ids,
        }
    }

    /// The device that the port is mapped to, if it is mapped.
    pub fn port_device(&self, port: u16) -> (r: Option<IoDeviceType>)
        ensures
            r == (if self.io_ports().contains_key(port) {
                Some(self.io_ports()[port])
            } else {
                None
            }),
    {
        match self.io_map.get(&port) {
            Some(device) => Some(*device),
            None => None,
        }
    }
}

impl<D: DeviceSet> BusInterface<D> where
    D::Ppi: IoDevice<D>,
    D::Pit: IoDevice<D>,
    D::Dma: IoDevice<D>,
    D::Pic: IoDevice<D>,
    D::Serial: IoDevice<D>,
    D::Fdc: IoDevice<D>,
    D::Hdc: IoDevice<D>,
    D::Mda: IoDevice<D>,
    D::Cga: IoDevice<D>,
    D::Ega: IoDevice<D>,
    D::Vga: IoDevice<D>,
 {
    /// `byte` is what reading `port` gives, `cycles` CPU cycles into an
    /// instruction, and `after` is the bus as the read leaves it. The device
    /// to which the port is mapped, if it is installed, was read once, gave
    /// the byte, and is in its place as that read left it. The timer and the
    /// tick-driven video cards were told the elapsed system ticks, every
    /// other device no time. Without the device the port reads as
    /// [`NO_IO_BYTE`] and the bus is as it was.
    pub open(crate) spec fn read_handed(self, port: u16, cycles: u32, byte: u8, after: Self) -> bool {
        let no_time = DeviceRunTimeUnit::Microseconds(Microseconds { millionths: 0 });
        let ticks = self.handed_ticks(cycles);
        match self.io_map@[port] {
            IoDeviceType::Ppi => match self.ppi {
                Some(dev) => after.ppi matches Some(left) && port_read::<D, D::Ppi>(
                    dev,
                    port,
                    no_time,
                    byte,
                    left,
                ),
                None => byte == NO_IO_BYTE && after == self,
            },
            IoDeviceType::Pit => match self.pit {
                Some(dev) => after.pit matches Some(left) && port_read::<D, D::Pit>(
                    dev,
                    port,
                    DeviceRunTimeUnit::SystemTicks(ticks),
                    byte,
                    left,
                ),
                None => byte == NO_IO_BYTE && after == self,
            },
            IoDeviceType::DmaPrimary => match self.dma1 {
                Some(dev) => after.dma1 matches Some(left) && port_read::<D, D::Dma>(
                    dev,
                    port,
                    no_time,
                    byte,
                    left,
                ),
                None => byte == NO_IO_BYTE && after == self,
            },
            IoDeviceType::DmaSecondary => match self.dma2 {
                Some(dev) => after.dma2 matches Some(left) && port_read::<D, D::Dma>(
                    dev,
                    port,
                    no_time,
                    byte,
                    left,
                ),
                None => byte == NO_IO_BYTE && after == self,
            },
            IoDeviceType::PicPrimary => match self.pic1 {
                Some(dev) => after.pic1 matches Some(left) && port_read::<D, D::Pic>(
                    dev,
                    port,
                    no_time,
                    byte,
                    left,
                ),
                None => byte == NO_IO_BYTE && after == self,
            },
            IoDeviceType::PicSecondary => match self.pic2 {
                Some(dev) => after.pic2 matches Some(left) && port_read::<D, D::Pic>(
                    dev,
                    port,
                    no_time,
                    byte,
                    left,
                ),
                None => byte == NO_IO_BYTE && after == self,
            },
            IoDeviceType::FloppyController => match self.fdc {
                Some(dev) => after.fdc matches Some(left) && port_read::<D, D::Fdc>(
                    dev,
                    port,
                    no_time,
                    byte,
                    left,
                ),
                None => byte == NO_IO_BYTE && after == self,
            },
            IoDeviceType::HardDiskController => match self.hdc {
                Some(dev) => after.hdc matches Some(left) && port_read::<D, D::Hdc>(
                    dev,
                    port,
                    no_time,
                    byte,
                    left,
                ),
                None => byte == NO_IO_BYTE && after == self,
            },
            IoDeviceType::Serial => match self.serial {
                Some(dev) => after.serial matches Some(left) && port_read::<D, D::Serial>(
                    dev,
                    port,
                    no_time,
                    byte,
                    left,
                ),
                None => byte == NO_IO_BYTE && after == self,
            },
            IoDeviceType::Video(vid) => match self.live_card_index(vid) {
                Some(i) => self.videocards@[i as int].card.read_from(
                    port,
                    ticks,
                    byte,
                    after.videocards@[i as int].card,
                ),
                None => byte == NO_IO_BYTE && after == self,
            },
            IoDeviceType::Mouse => byte == NO_IO_BYTE && after == self,
        }
    }

    /// Reads a byte from an I/O port, `cycles` CPU cycles into the current
    /// instruction. A port that no installed device answers to reads as
    /// [`NO_IO_BYTE`] and nothing changes. Otherwise the device that the port
    /// is mapped to is read once; the timer and the tick-driven video cards
    /// are told the elapsed system ticks. Memory, mappings and every other
    /// device stay as they are.
    pub fn io_read_u8(&mut self, port: u16, cycles: u32) -> (byte: u8)
        requires
            old(self).wf(),
        ensures
            final(self).wf(),
            final(self).same_memory(*old(self)),
            final(self).same_maps(*old(self)),
            final(self).same_clock(*old(self)),
            final(self).same_schedule(*old(self)),
            !old(self).port_answered(port) ==> byte == NO_IO_BYTE && *final(self) == *old(self),
            old(self).io_ports().contains_key(port) ==> old(self).read_handed(
                port,
                cycles,
                byte,
                *final(self),
            ),
            old(self).io_ports().contains_key(port) ==> {
                &&& final(self).same_slots_but(*old(self), old(self).io_ports()[port])
                &&& final(self).same_cards_but_of(*old(self), old(self).io_ports()[port])
            },
    {
        let sys_ticks = self.cycles_to_device_ticks(cycles);
        let nul_delta = DeviceRunTimeUnit::Microseconds(Microseconds { millionths: 0 });
        match self.port_device(port) {
            Some(IoDeviceType::Ppi) => match &mut self.ppi {
                Some(dev) => {
                    let ghost before = *dev;
                    let (byte, Ghost(left)) = read_port::<D, D::Ppi>(dev, port, nul_delta);
                    assert(port_read::<D, D::Ppi>(before, port, nul_delta, byte, left));
                    byte
                },
                None => {
                    assert(*self == *old(self));
                    NO_IO_BYTE
                },
            },
            Some(IoDeviceType::Pit) => match &mut self.pit {
                Some(dev) => {
                    let ghost before = *dev;
                    let (byte, Ghost(left)) = read_port::<D, D::Pit>(dev, port, DeviceRunTimeUnit::SystemTicks(sys_ticks));
                    assert(port_read::<D, D::Pit>(before, port, DeviceRunTimeUnit::SystemTicks(sys_ticks), byte, left));
                    byte
                },
                None => {
                    assert(*self == *old(self));
                    NO_IO_BYTE
                },
            },
            Some(IoDeviceType::DmaPrimary) => match &mut self.dma1 {
                Some(dev) => {
                    let ghost before = *dev;
                    let (byte, Ghost(left)) = read_port::<D, D::Dma>(dev, port, nul_delta);
                    assert(port_read::<D, D::Dma>(before, port, nul_delta, byte, left));
                    byte
                },
                None => {
                    assert(*self == *old(self));
                    NO_IO_BYTE
                },
            },
            Some(IoDeviceType::DmaSecondary) => match &mut self.dma2 {
                Some(dev) => {
                    let ghost before = *dev;
                    let (byte, Ghost(left)) = read_port::<D, D::Dma>(dev, port, nul_delta);
                    assert(port_read::<D, D::Dma>(before, port, nul_delta, byte, left));
                    byte
                },
                None => {
                    assert(*self == *old(self));
                    NO_IO_BYTE
                },
            },
            Some(IoDeviceType::PicPrimary) => match &mut self.pic1 {
                Some(dev) => {
                    let ghost before = *dev;
                    let (byte, Ghost(left)) = read_port::<D, D::Pic>(dev, port, nul_delta);
                    assert(port_read::<D, D::Pic>(before, port, nul_delta, byte, left));
                    byte
                },
                None => {
                    assert(*self == *old(self));
                    NO_IO_BYTE
                },
            },
            Some(IoDeviceType::PicSecondary) => match &mut self.pic2 {
                Some(dev) => {
                    let ghost before = *dev;
                    let (byte, Ghost(left)) = read_port::<D, D::Pic>(dev, port, nul_delta);
                    assert(port_read::<D, D::Pic>(before, port, nul_delta, byte, left));
                    byte
                },
                None => {
                    assert(*self == *old(self));
                    NO_IO_BYTE
                },
            },
            Some(IoDeviceType::FloppyController) => match &mut self.fdc {
                Some(dev) => {
                    let ghost before = *dev;
                    let (byte, Ghost(left)) = read_port::<D, D::Fdc>(dev, port, nul_delta);
                    assert(port_read::<D, D::Fdc>(before, port, nul_delta, byte, left));
                    byte
                },
                None => {
                    assert(*self == *old(self));
                    NO_IO_BYTE
                },
            },
            Some(IoDeviceType::HardDiskController) => match &mut self.hdc {
                Some(dev) => {
                    let ghost before = *dev;
                    let (byte, Ghost(left)) = read_port::<D, D::Hdc>(dev, port, nul_delta);
                    assert(port_read::<D, D::Hdc>(before, port, nul_delta, byte, left));
                    byte
                },
                None => {
                    assert(*self == *old(self));
                    NO_IO_BYTE
                },
            },
            Some(IoDeviceType::Serial) => match &mut self.serial {
                Some(dev) => {
                    let ghost before = *dev;
                    let (byte, Ghost(left)) = read_port::<D, D::Serial>(dev, port, nul_delta);
                    assert(port_read::<D, D::Serial>(before, port, nul_delta, byte, left));
                    byte
                },
                None => {
                    assert(*self == *old(self));
                    NO_IO_BYTE
                },
            },
            Some(IoDeviceType::Video(vid)) => match self.find_card(vid) {
                Some(i) => if self.videocards[i].card.is_live() {
                    self.videocards[i].card.io_read_u8(port, sys_ticks)
                } else {
                    NO_IO_BYTE
                },
                None => NO_IO_BYTE,
            },
            Some(IoDeviceType::Mouse) => NO_IO_BYTE,
            None => NO_IO_BYTE,
        }
    }

    /// The device `dev`, out of its slot, was written to once at a port with
    /// the bus `handed` in hand, left the bus as `left`, and is in the slot
    /// `slot` as that write left it.
    pub open(crate) spec fn slot_written<T: IoDevice<D>>(
        dev: T,
        port: u16,
        data: u8,
        handed: Self,
        delta: DeviceRunTimeUnit,
        slot: Option<T>,
        left: Self,
    ) -> bool {
        slot matches Some(written) && port_written_with_bus::<D, T>(
            dev,
            port,
            data,
            handed,
            delta,
            written,
            left,
        )
    }

    /// The bus `after` is what the write of `data` to `port`, `cycles` CPU
    /// cycles into an instruction, makes of this bus. The device to which
    /// the port is mapped, if it is installed, was written to once. The
    /// timer and the tick-driven video cards were told the elapsed system
    /// ticks, every other device no time. The serial controller and the video
    /// cards were written to without the bus, and are in their place as the
    /// write left them. Every other device was handed the bus as it is
    /// without that device; `after` is the bus as the device left it, with
    /// the device, as the write left it, back in its slot. Without the
    /// device the bus is as it was.
    pub open(crate) spec fn write_handed(self, port: u16, data: u8, cycles: u32, after: Self) -> bool {
        let no_time = DeviceRunTimeUnit::Microseconds(Microseconds { millionths: 0 });
        let ticks = self.handed_ticks(cycles);
        match self.io_map@[port] {
            IoDeviceType::Ppi => match self.ppi {
                Some(dev) => exists|left: Self|
                    {
                        &&& #[trigger] Self::slot_written::<D::Ppi>(
                            dev,
                            port,
                            data,
                            BusInterface { ppi: None, ..self },
                            no_time,
                            after.ppi,
                            left,
                        )
                        &&& after == (BusInterface { ppi: after.ppi, ..left })
                    },
                None => after == self,
            },
            IoDeviceType::Pit => match self.pit {
                Some(dev) => exists|left: Self|
                    {
                        &&& #[trigger] Self::slot_written::<D::Pit>(
                            dev,
                            port,
                            data,
                            BusInterface { pit: None, ..self },
                            DeviceRunTimeUnit::SystemTicks(ticks),
                            after.pit,
                            left,
                        )
                        &&& after == (BusInterface { pit: after.pit, ..left })
                    },
                None => after == self,
            },
            IoDeviceType::DmaPrimary => match self.dma1 {
                Some(dev) => exists|left: Self|
                    {
                        &&& #[trigger] Self::slot_written::<D::Dma>(
                            dev,
                            port,
                            data,
                            BusInterface { dma1: None, ..self },
                            no_time,
                            after.dma1,
                            left,
                        )
                        &&& after == (BusInterface { dma1: after.dma1, ..left })
                    },
                None => after == self,
            },
            IoDeviceType::DmaSecondary => match self.dma2 {
                Some(dev) => exists|left: Self|
                    {
                        &&& #[trigger] Self::slot_written::<D::Dma>(
                            dev,
                            port,
                            data,
                            BusInterface { dma2: None, ..self },
                            no_time,
                            after.dma2,
                            left,
                        )
                        &&& after == (BusInterface { dma2: after.dma2, ..left })
                    },
                None => after == self,
            },
            IoDeviceType::PicPrimary => match self.pic1 {
                Some(dev) => exists|left: Self|
                    {
                        &&& #[trigger] Self::slot_written::<D::Pic>(
                            dev,
                            port,
                            data,
                            BusInterface { pic1: None, ..self },
                            no_time,
                            after.pic1,
                            left,
                        )
                        &&& after == (BusInterface { pic1: after.pic1, ..left })
                    },
                None => after == self,
            },
            IoDeviceType::PicSecondary => match self.pic2 {
                Some(dev) => exists|left: Self|
                    {
                        &&& #[trigger] Self::slot_written::<D::Pic>(
                            dev,
                            port,
                            data,
                            BusInterface { pic2: None, ..self },
                            no_time,
                            after.pic2,
                            left,
                        )
                        &&& after == (BusInterface { pic2: after.pic2, ..left })
                    },
                None => after == self,
            },
            IoDeviceType::FloppyController => match self.fdc {
                Some(dev) => exists|left: Self|
                    {
                        &&& #[trigger] Self::slot_written::<D::Fdc>(
                            dev,
                            port,
                            data,
                            BusInterface { fdc: None, ..self },
                            no_time,
                            after.fdc,
                            left,
                        )
                        &&& after == (BusInterface { fdc: after.fdc, ..left })
                    },
                None => after == self,
            },
            IoDeviceType::HardDiskController => match self.hdc {
                Some(dev) => exists|left: Self|
                    {
                        &&& #[trigger] Self::slot_written::<D::Hdc>(
                            dev,
                            port,
                            data,
                            BusInterface { hdc: None, ..self },
                            no_time,
                            after.hdc,
                            left,
                        )
                        &&& after == (BusInterface { hdc: after.hdc, ..left })
                    },
                None => after == self,
            },
            IoDeviceType::Serial => match self.serial {
                Some(dev) => after.serial matches Some(written) && port_written::<D, D::Serial>(
                    dev,
                    port,
                    data,
                    no_time,
                    written,
                ),
                None => after == self,
            },
            IoDeviceType::Video(vid) => match self.live_card_index(vid) {
                Some(i) => self.videocards@[i as int].card.written_to(
                    port,
                    data,
                    ticks,
                    after.videocards@[i as int].card,
                ),
                None => after == self,
            },
            IoDeviceType::Mouse => after == self,
        }
    }

    /// Writes a byte to a port of the device in the slot `ppi`, which is
    /// taken out of its slot, handed the rest of the bus with the write, and
    /// put back. Returns the bus as the device left it.
    fn write_ppi_port(&mut self, port: u16, data: u8, delta: DeviceRunTimeUnit) -> (left: Ghost<Self>)
        requires
            old(self).wf(),
            old(self).ppi is Some,
        ensures
            final(self).wf(),
            Self::slot_written::<D::Ppi>(
                old(self).ppi->Some_0,
                port,
                data,
                BusInterface { ppi: None, ..*old(self) },
                delta,
                final(self).ppi,
                left@,
            ),
            *final(self) == (BusInterface { ppi: final(self).ppi, ..left@ }),
    {
        let ghost mut left = *self;
        if let Some(mut dev) = self.ppi.take() {
            let ghost before = dev;
            let ghost handed = *self;
            let Ghost(snap) = write_port_with_bus::<D, D::Ppi>(&mut dev, port, data, self, delta);
            proof {
                left = *self;
                assert(handed == (BusInterface { ppi: None, ..*old(self) }));
                assert(port_written_with_bus::<D, D::Ppi>(before, port, data, handed, delta, snap.0, snap.1));
            }
            self.ppi = Some(dev);
        }
        Ghost(left)
    }

    /// Writes a byte to a port of the device in the slot `pit`, which is
    /// taken out of its slot, handed the rest of the bus with the write, and
    /// put back. Returns the bus as the device left it.
    fn write_pit_port(&mut self, port: u16, data: u8, delta: DeviceRunTimeUnit) -> (left: Ghost<Self>)
        requires
            old(self).wf(),
            old(self).pit is Some,
        ensures
            final(self).wf(),
            Self::slot_written::<D::Pit>(
                old(self).pit->Some_0,
                port,
                data,
                BusInterface { pit: None, ..*old(self) },
                delta,
                final(self).pit,
                left@,
            ),
            *final(self) == (BusInterface { pit: final(self).pit, ..left@ }),
    {
        let ghost mut left = *self;
        if let Some(mut dev) = self.pit.take() {
            let ghost before = dev;
            let ghost handed = *self;
            let Ghost(snap) = write_port_with_bus::<D, D::Pit>(&mut dev, port, data, self, delta);
            proof {
                left = *self;
                assert(handed == (BusInterface { pit: None, ..*old(self) }));
                assert(port_written_with_bus::<D, D::Pit>(before, port, data, handed, delta, snap.0, snap.1));
            }
            self.pit = Some(dev);
        }
        Ghost(left)
    }

    /// Writes a byte to a port of the device in the slot `dma1`, which is
    /// taken out of its slot, handed the rest of the bus with the write, and
    /// put back. Returns the bus as the device left it.
    fn write_dma1_port(&mut self, port: u16, data: u8, delta: DeviceRunTimeUnit) -> (left: Ghost<Self>)
        requires
            old(self).wf(),
            old(self).dma1 is Some,
        ensures
            final(self).wf(),
            Self::slot_written::<D::Dma>(
                old(self).dma1->Some_0,
                port,
                data,
                BusInterface { dma1: None, ..*old(self) },
                delta,
                final(self).dma1,
                left@,
            ),
            *final(self) == (BusInterface { dma1: final(self).dma1, ..left@ }),
    {
        let ghost mut left = *self;
        if let Some(mut dev) = self.dma1.take() {
            let ghost before = dev;
            let ghost handed = *self;
            let Ghost(snap) = write_port_with_bus::<D, D::Dma>(&mut dev, port, data, self, delta);
            proof {
                left = *self;
                assert(handed == (BusInterface { dma1: None, ..*old(self) }));
                assert(port_written_with_bus::<D, D::Dma>(before, port, data, handed, delta, snap.0, snap.1));
            }
            self.dma1 = Some(dev);
        }
        Ghost(left)
    }

    /// Writes a byte to a port of the device in the slot `dma2`, which is
    /// taken out of its slot, handed the rest of the bus with the write, and
    /// put back. Returns the bus as the device left it.
    fn write_dma2_port(&mut self, port: u16, data: u8, delta: DeviceRunTimeUnit) -> (left: Ghost<Self>)
        requires
            old(self).wf(),
            old(self).dma2 is Some,
        ensures
            final(self).wf(),
            Self::slot_written::<D::Dma>(
                old(self).dma2->Some_0,
                port,
                data,
                BusInterface { dma2: None, ..*old(self) },
                delta,
                final(self).dma2,
                left@,
            ),
            *final(self) == (BusInterface { dma2: final(self).dma2, ..left@ }),
    {
        let ghost mut left = *self;
        if let Some(mut dev) = self.dma2.take() {
            let ghost before = dev;
            let ghost handed = *self;
            let Ghost(snap) = write_port_with_bus::<D, D::Dma>(&mut dev, port, data, self, delta);
            proof {
                left = *self;
                assert(handed == (BusInterface { dma2: None, ..*old(self) }));
                assert(port_written_with_bus::<D, D::Dma>(before, port, data, handed, delta, snap.0, snap.1));
            }
            self.dma2 = Some(dev);
        }
        Ghost(left)
    }

    /// Writes a byte to a port of the device in the slot `pic1`, which is
    /// taken out of its slot, handed the rest of the bus with the write, and
    /// put back. Returns the bus as the device left it.
    fn write_pic1_port(&mut self, port: u16, data: u8, delta: DeviceRunTimeUnit) -> (left: Ghost<Self>)
        requires
            old(self).wf(),
            old(self).pic1 is Some,
        ensures
            final(self).wf(),
            Self::slot_written::<D::Pic>(
                old(self).pic1->Some_0,
                port,
                data,
                BusInterface { pic1: None, ..*old(self) },
                delta,
                final(self).pic1,
                left@,
            ),
            *final(self) == (BusInterface { pic1: final(self).pic1, ..left@ }),
    {
        let ghost mut left = *self;
        if let Some(mut dev) = self.pic1.take() {
            let ghost before = dev;
            let ghost handed = *self;
            let Ghost(snap) = write_port_with_bus::<D, D::Pic>(&mut dev, port, data, self, delta);
            proof {
                left = *self;
                assert(handed == (BusInterface { pic1: None, ..*old(self) }));
                assert(port_written_with_bus::<D, D::Pic>(before, port, data, handed, delta, snap.0, snap.1));
            }
            self.pic1 = Some(dev);
        }
        Ghost(left)
    }

    /// Writes a byte to a port of the device in the slot `pic2`, which is
    /// taken out of its slot, handed the rest of the bus with the write, and
    /// put back. Returns the bus as the device left it.
    fn write_pic2_port(&mut self, port: u16, data: u8, delta: DeviceRunTimeUnit) -> (left: Ghost<Self>)
        requires
            old(self).wf(),
            old(self).pic2 is Some,
        ensures
            final(self).wf(),
            Self::slot_written::<D::Pic>(
                old(self).pic2->Some_0,
                port,
                data,
                BusInterface { pic2: None, ..*old(self) },
                delta,
                final(self).pic2,
                left@,
            ),
            *final(self) == (BusInterface { pic2: final(self).pic2, ..left@ }),
    {
        let ghost mut left = *self;
        if let Some(mut dev) = self.pic2.take() {
            let ghost before = dev;
            let ghost handed = *self;
            let Ghost(snap) = write_port_with_bus::<D, D::Pic>(&mut dev, port, data, self, delta);
            proof {
                left = *self;
                assert(handed == (BusInterface { pic2: None, ..*old(self) }));
                assert(port_written_with_bus::<D, D::Pic>(before, port, data, handed, delta, snap.0, snap.1));
            }
            self.pic2 = Some(dev);
        }
        Ghost(left)
    }

    /// Writes a byte to a port of the device in the slot `fdc`, which is
    /// taken out of its slot, handed the rest of the bus with the write, and
    /// put back. Returns the bus as the device left it.
    fn write_fdc_port(&mut self, port: u16, data: u8, delta: DeviceRunTimeUnit) -> (left: Ghost<Self>)
        requires
            old(self).wf(),
            old(self).fdc is Some,
        ensures
            final(self).wf(),
            Self::slot_written::<D::Fdc>(
                old(self).fdc->Some_0,
                port,
                data,
                BusInterface { fdc: None, ..*old(self) },
                delta,
                final(self).fdc,
                left@,
            ),
            *final(self) == (BusInterface { fdc: final(self).fdc, ..left@ }),
    {
        let ghost mut left = *self;
        if let Some(mut dev) = self.fdc.take() {
            let ghost before = dev;
            let ghost handed = *self;
            let Ghost(snap) = write_port_with_bus::<D, D::Fdc>(&mut dev, port, data, self, delta);
            proof {
                left = *self;
                assert(handed == (BusInterface { fdc: None, ..*old(self) }));
                assert(port_written_with_bus::<D, D::Fdc>(before, port, data, handed, delta, snap.0, snap.1));
            }
            self.fdc = Some(dev);
        }
        Ghost(left)
    }

    /// Writes a byte to a port of the device in the slot `hdc`, which is
    /// taken out of its slot, handed the rest of the bus with the write, and
    /// put back. Returns the bus as the device left it.
    fn write_hdc_port(&mut self, port: u16, data: u8, delta: DeviceRunTimeUnit) -> (left: Ghost<Self>)
        requires
            old(self).wf(),
            old(self).hdc is Some,
        ensures
            final(self).wf(),
            Self::slot_written::<D::Hdc>(
                old(self).hdc->Some_0,
                port,
                data,
                BusInterface { hdc: None, ..*old(self) },
                delta,
                final(self).hdc,
                left@,
            ),
            *final(self) == (BusInterface { hdc: final(self).hdc, ..left@ }),
    {
        let ghost mut left = *self;
        if let Some(mut dev) = self.hdc.take() {
            let ghost before = dev;
            let ghost handed = *self;
            let Ghost(snap) = write_port_with_bus::<D, D::Hdc>(&mut dev, port, data, self, delta);
            proof {
                left = *self;
                assert(handed == (BusInterface { hdc: None, ..*old(self) }));
                assert(port_written_with_bus::<D, D::Hdc>(before, port, data, handed, delta, snap.0, snap.1));
            }
            self.hdc = Some(dev);
        }
        Ghost(left)
    }

    /// Writes a byte to an I/O port, `cycles` CPU cycles into the current
    /// instruction. A write to a port that no installed device answers to
    /// changes nothing. Otherwise the device that the port is mapped to is
    /// written to once. The serial controller and the video cards are
    /// written to in place, and nothing but the device changes. Every other
    /// device is taken out of its slot, handed the rest of the bus with the
    /// write, and put back.
    pub fn io_write_u8(&mut self, port: u16, data: u8, cycles: u32)
        requires
            old(self).wf(),
        ensures
            final(self).wf(),
            !old(self).port_answered(port) ==> *final(self) == *old(self),
            old(self).io_ports().contains_key(port) ==> old(self).write_handed(
                port,
                data,
                cycles,
                *final(self),
            ),
            old(self).port_answered(port) && !(old(self).io_ports()[port] is Video) ==> final(self).device_present(old(self).io_ports()[port]),
            old(self).io_ports().contains_key(port) && (old(self).io_ports()[port] is Serial || old(self).io_ports()[port] is Video) ==> {
                &&& final(self).same_memory(*old(self))
                &&& final(self).same_maps(*old(self))
                &&& final(self).same_clock(*old(self))
                &&& final(self).same_schedule(*old(self))
                &&& final(self).same_slots_but(*old(self), old(self).io_ports()[port])
                &&& final(self).same_cards_but_of(*old(self), old(self).io_ports()[port])
            },
    {
        let sys_ticks = self.cycles_to_device_ticks(cycles);
        let nul_delta = DeviceRunTimeUnit::Microseconds(Microseconds { millionths: 0 });
        match self.port_device(port) {
            Some(IoDeviceType::Ppi) => {
                if self.ppi.is_some() {
                    let Ghost(left) = self.write_ppi_port(port, data, nul_delta);
                } else {
                    assert(*self == *old(self));
                }
            },
            Some(IoDeviceType::Pit) => {
                if self.pit.is_some() {
                    let Ghost(left) = self.write_pit_port(port, data, DeviceRunTimeUnit::SystemTicks(sys_ticks));
                } else {
                    assert(*self == *old(self));
                }
            },
            Some(IoDeviceType::DmaPrimary) => {
                if self.dma1.is_some() {
                    let Ghost(left) = self.write_dma1_port(port, data, nul_delta);
                } else {
                    assert(*self == *old(self));
                }
            },
            Some(IoDeviceType::DmaSecondary) => {
                if self.dma2.is_some() {
                    let Ghost(left) = self.write_dma2_port(port, data, nul_delta);
                } else {
                    assert(*self == *old(self));
                }
            },
            Some(IoDeviceType::PicPrimary) => {
                if self.pic1.is_some() {
                    let Ghost(left) = self.write_pic1_port(port, data, nul_delta);
                } else {
                    assert(*self == *old(self));
                }
            },
            Some(IoDeviceType::PicSecondary) => {
                if self.pic2.is_some() {
                    let Ghost(left) = self.write_pic2_port(port, data, nul_delta);
                } else {
                    assert(*self == *old(self));
                }
            },
            Some(IoDeviceType::FloppyController) => {
                if self.fdc.is_some() {
                    let Ghost(left) = self.write_fdc_port(port, data, nul_delta);
                } else {
                    assert(*self == *old(self));
                }
            },
            Some(IoDeviceType::HardDiskController) => {
                if self.hdc.is_some() {
                    let Ghost(left) = self.write_hdc_port(port, data, nul_delta);
                } else {
                    assert(*self == *old(self));
                }
            },
            Some(IoDeviceType::Serial) => {
                if let Some(serial) = &mut self.serial {
                    let ghost before = *serial;
                    let Ghost(left) = write_port::<D, D::Serial>(serial, port, data, nul_delta);
                    assert(port_written::<D, D::Serial>(before, port, data, nul_delta, left));
                } else {
                    assert(*self == *old(self));
                }
            },
            Some(IoDeviceType::Video(vid)) => {
                if let Some(i) = self.find_card(vid) {
                    if self.videocards[i].card.is_live() {
                        self.videocards[i].card.io_write_u8(port, data, sys_ticks);
                    }
                }
            },
            Some(IoDeviceType::Mouse) => {},
            None => {},
        }
    }
}

} // verus!
