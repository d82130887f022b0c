//! The memory accesses of the CPU.
//!
//! Every access is first routed: to plain memory, to an installed video card,
//! or nowhere. What an access to plain memory does is stated exactly. An
//! access that reaches a card leaves memory alone; the card decides what is
//! read and how long the access waits, and the bus converts between the CPU's
//! cycles and the card's system ticks.
use vstd::prelude::*;
use crate::bus::BusInterface;
use crate::device::{DeviceSet, MemoryMappedDevice, VideoCardDispatch};
use crate::memory::{
    has_flag, high_byte, join_word, low_byte, split_word, word_of, MemError, ADDRESS_SPACE,
    DEFAULT_WAIT_STATES, MEM_MMIO_BIT, MEM_ROM_BIT,
};
use crate::mmio::{bucket_index, bucket_of, MmioDeviceType, VideoCardId};
use crate::timing::{
    cpu_cycles_to_system_ticks, device_ticks, lemma_small_cycles_convert,
    system_ticks_to_cpu_cycles, wait_cycles, CYCLE_LUT_LEN,
};

verus! {

/// Where a memory access goes.
#[derive(Copy, Clone, Debug, PartialEq, Eq, Structural)]
pub enum MemRoute {
    /// Beyond the address space.
    OutOfBounds,
    /// To plain memory.
    Raw,
    /// To the installed video card at this position.
    Card(usize),
    /// To a device that is not installed.
    Unresolvable,
}

impl<D: DeviceSet> BusInterface<D> {
    /// Where an access to the byte at `address` goes. An address that is not
    /// flagged memory-mapped is plain memory. A flagged address goes by its
    /// bucket of the coarse map: to the video card that the bucket names, if
    /// that card is installed; nowhere, if the bucket names a device that is
    /// not installed; to plain memory, if the bucket names no device.
    pub open(crate) spec fn route(self, address: usize) -> MemRoute {
        if address >= ADDRESS_SPACE {
            MemRoute::OutOfBounds
        } else if !has_flag(self.memory_mask@[address as int], MEM_MMIO_BIT) {
            MemRoute::Raw
        } else {
            match self.mmio_map_fast@[bucket_of(address as int)] {
                MmioDeviceType::Video(vid) => match self.card_index(vid) {
                    Some(i) => if self.videocards@[i as int].card.live() {
                        MemRoute::Card(i)
                    } else {
                        MemRoute::Unresolvable
                    },
                    None => MemRoute::Unresolvable,
                },
                MmioDeviceType::Cga => MemRoute::Unresolvable,
                MmioDeviceType::Ega => MemRoute::Unresolvable,
                MmioDeviceType::Vga => MemRoute::Unresolvable,
                MmioDeviceType::Unmapped => MemRoute::Raw,
                MmioDeviceType::Memory => MemRoute::Raw,
                MmioDeviceType::Rom => MemRoute::Raw,
            }
        }
    }

    /// Where an access to the word at `address` goes: where its first byte
    /// goes, if both bytes lie in the address space.
    pub open(crate) spec fn route16(self, address: usize) -> MemRoute {
        if address >= ADDRESS_SPACE - 1 {
            MemRoute::OutOfBounds
        } else {
            self.route(address)
        }
    }

    /// A write to plain memory at `a` is stored: the byte is not ROM and lies
    /// in conventional memory.
    pub open(crate) spec fn writable(self, a: int) -> bool {
        &&& !has_flag(self.memory_mask@[a], MEM_ROM_BIT)
        &&& a < self.conventional_size
    }

    /// Memory after a byte is written to `address`. It changes only where the
    /// write goes to plain memory and is stored.
    pub open(crate) spec fn mem_after_write_u8(self, address: usize, data: u8) -> Seq<u8> {
        if self.route(address) is Raw && self.writable(address as int) {
            self.memory@.update(address as int, data)
        } else {
            self.memory@
        }
    }

    /// Memory after a word is written to `address`. It changes only where the
    /// write goes to plain memory that is not ROM; then each of the two bytes
    /// is stored if it lies in conventional memory, and the high byte only if
    /// it is not ROM either.
    pub open(crate) spec fn mem_after_write_u16(self, address: usize, data: u16) -> Seq<u8> {
        if self.route16(address) is Raw && !has_flag(self.memory_mask@[address as int], MEM_ROM_BIT) {
            let low = if address < self.conventional_size {
                self.memory@.update(address as int, low_byte(data))
            } else {
                self.memory@
            };
            if self.writable(address + 1) {
                low.update(address + 1, high_byte(data))
            } else {
                low
            }
        } else {
            self.memory@
        }
    }

    /// What reading the byte at `address` returns, where no device has a say.
    pub open(crate) spec fn read_u8_outcome(self, address: usize) -> Option<Result<(u8, u32), MemError>> {
        match self.route(address) {
            MemRoute::OutOfBounds => Some(Err(MemError::ReadOutOfBoundsError)),
            MemRoute::Raw => Some(Ok((self.memory@[address as int], DEFAULT_WAIT_STATES))),
            MemRoute::Unresolvable => Some(Err(MemError::MmioError)),
            MemRoute::Card(_) => None,
        }
    }

    /// What peeking at the byte at `address` returns, where no device has a
    /// say.
    pub open(crate) spec fn peek_u8_outcome(self, address: usize) -> Option<Result<u8, MemError>> {
        match self.route(address) {
            MemRoute::OutOfBounds => Some(Err(MemError::ReadOutOfBoundsError)),
            MemRoute::Raw => Some(Ok(self.memory@[address as int])),
            MemRoute::Unresolvable => Some(Err(MemError::MmioError)),
            MemRoute::Card(_) => None,
        }
    }

    /// What reading the word at `address` returns, where no device has a say.
    pub open(crate) spec fn read_u16_outcome(self, address: usize) -> Option<
        Result<(u16, u32), MemError>,
    > {
        match self.route16(address) {
            MemRoute::OutOfBounds => Some(Err(MemError::ReadOutOfBoundsError)),
            MemRoute::Raw => Some(
                Ok(
                    (
                        word_of(self.memory@[address as int], self.memory@[address + 1]),
                        DEFAULT_WAIT_STATES,
                    ),
                ),
            ),
            MemRoute::Unresolvable => Some(Err(MemError::MmioError)),
            MemRoute::Card(_) => None,
        }
    }

    /// The wait that a write or a wait query reports, where no device has a
    /// say.
    pub open spec fn wait_outcome(route: MemRoute) -> Option<Result<u32, MemError>> {
        match route {
            MemRoute::OutOfBounds => Some(Err(MemError::ReadOutOfBoundsError)),
            MemRoute::Raw => Some(Ok(DEFAULT_WAIT_STATES)),
            MemRoute::Unresolvable => Some(Err(MemError::MmioError)),
            MemRoute::Card(_) => None,
        }
    }

    /// The system ticks that a device is handed with an access that the CPU
    /// makes `cycles` cycles into an instruction.
    pub open(crate) spec fn handed_ticks(self, cycles: u32) -> u32 {
        device_ticks(self.cpu_factor, cycles as int) as u32
    }

    /// The CPU cycles that the bus charges for a wait of `ticks` system
    /// ticks.
    pub open(crate) spec fn charged_wait(self, ticks: u32) -> u32 {
        wait_cycles(self.cpu_factor, ticks as int) as u32
    }

    /// A byte that is written to plain, writable memory is the byte that is
    /// read back. Let `address` lie in no registered memory-mapped range, not
    /// be ROM and lie in conventional memory; let `after` be a bus with the
    /// memory that `write_u8(address, data, _)` leaves on `before` and with
    /// the flags of `before`. Then the write reports no wait, and reading
    /// `address` on `after` returns `data` without wait.
    pub proof fn lemma_write_then_read_u8(before: Self, after: Self, address: usize, data: u8)
        requires
            before.wf(),
            address < ADDRESS_SPACE,
            !before.mmio_covered(address as int),
            !has_flag(before.flags()[address as int], MEM_ROM_BIT),
            address < before.conventional(),
            after.mem() == before.mem_after_write_u8(address, data),
            after.flags() == before.flags(),
        ensures
            Self::wait_outcome(before.route(address)) == Some(Ok::<u32, MemError>(0u32)),
            after.read_u8_outcome(address) == Some(Ok::<(u8, u32), MemError>((data, 0u32))),
            after.peek_u8_outcome(address) == Some(Ok::<u8, MemError>(data)),
    {
        assert(!has_flag(before.memory_mask@[address as int], MEM_MMIO_BIT));
    }

    /// A write to a ROM address changes nothing that a read could see. Let
    /// `address` be flagged ROM and not be answered by an installed video
    /// card; let `after` be a bus with the memory that `write_u8(address,
    /// data, _)` leaves on `before` and otherwise equal to `before`. Then
    /// memory is as it was, and reading or peeking at `address` on `after`
    /// returns what it returned on `before`.
    pub proof fn lemma_rom_write_discarded(before: Self, after: Self, address: usize, data: u8)
        requires
            before.wf(),
            address < ADDRESS_SPACE,
            has_flag(before.flags()[address as int], MEM_ROM_BIT),
            !(before.route(address) is Card),
            after.mem() == before.mem_after_write_u8(address, data),
            after.flags() == before.flags(),
            after.same_maps(before),
            after.same_devices(before),
        ensures
            after.mem() == before.mem(),
            after.route(address) == before.route(address),
            after.read_u8_outcome(address) == before.read_u8_outcome(address),
            after.peek_u8_outcome(address) == before.peek_u8_outcome(address),
    {
    }

    /// No write of the CPU changes a byte of plain memory that is flagged
    /// ROM: the memory that `write_u8` and `write_u16` leave holds at every
    /// ROM address `a` what it held before.
    pub proof fn lemma_rom_is_immutable(bus: Self, address: usize, byte: u8, word: u16, a: int)
        requires
            bus.wf(),
            0 <= a < ADDRESS_SPACE,
            has_flag(bus.flags()[a], MEM_ROM_BIT),
        ensures
            bus.mem_after_write_u8(address, byte)[a] == bus.mem()[a],
            bus.mem_after_write_u16(address, word)[a] == bus.mem()[a],
    {
    }

    /// A write at or above the size of conventional memory leaves memory as
    /// it is.
    pub proof fn lemma_write_beyond_conventional(bus: Self, address: usize, byte: u8, word: u16)
        requires
            bus.wf(),
            address >= bus.conventional(),
        ensures
            bus.mem_after_write_u8(address, byte) == bus.mem(),
            bus.mem_after_write_u16(address, word) == bus.mem(),
    {
    }

    /// The position of a card does not change while the cards keep their
    /// identities: if all cards but the one at `i` are the same on two buses
    /// and that one has kept its identity, a card is found at the same
    /// position on both.
    pub proof fn lemma_card_index_stable(before: Self, after: Self, vid: VideoCardId, i: int)
        requires
            before.wf(),
            after.same_cards_but(before, i),
        ensures
            after.card_index(vid) == before.card_index(vid),
    {
        let a = after.videocards@;
        let b = before.videocards@;
        assert forall|k: int| 0 <= k < a.len() implies (#[trigger] a[k]).id == b[k].id by {
            if k != i {
                assert(a[k] == b[k]);
            }
        }
        if exists|k: int| 0 <= k < b.len() && (#[trigger] b[k]).id == vid {
            let kb = choose|k: int| 0 <= k < b.len() && (#[trigger] b[k]).id == vid;
            assert(a[kb].id == vid);
            let ka = choose|k: int| 0 <= k < a.len() && (#[trigger] a[k]).id == vid;
            if ka < kb {
                assert(b[ka].id != b[kb].id);
            } else if kb < ka {
                assert(b[kb].id != b[ka].id);
            }
        } else {
            if exists|k: int| 0 <= k < a.len() && (#[trigger] a[k]).id == vid {
                let ka = choose|k: int| 0 <= k < a.len() && (#[trigger] a[k]).id == vid;
                assert(b[ka].id == vid);
            }
        }
    }

    /// Where an access goes does not change while flags and the coarse map
    /// stay and the cards keep their places, identities and kinds.
    pub proof fn lemma_route_stable(before: Self, after: Self, address: usize)
        requires
            before.wf(),
            after.flags() == before.flags(),
            after.mmio_buckets() == before.mmio_buckets(),
            after.same_card_kinds(before),
        ensures
            after.route(address) == before.route(address),
            after.route16(address) == before.route16(address),
    {
        let a = after.videocards@;
        let b = before.videocards@;
        if address < ADDRESS_SPACE && has_flag(before.memory_mask@[address as int], MEM_MMIO_BIT) {
            match before.mmio_map_fast@[bucket_of(address as int)] {
                MmioDeviceType::Video(vid) => {
                    if exists|k: int| 0 <= k < b.len() && (#[trigger] b[k]).id == vid {
                        let kb = choose|k: int| 0 <= k < b.len() && (#[trigger] b[k]).id == vid;
                        assert(a[kb].id == vid);
                        let ka = choose|k: int| 0 <= k < a.len() && (#[trigger] a[k]).id == vid;
                        assert(b[ka].id == a[ka].id);
                        if ka < kb {
                            assert(b[ka].id != b[kb].id);
                        } else if kb < ka {
                            assert(b[kb].id != b[ka].id);
                        }
                        assert(a[ka].card.kind() == b[ka].card.kind());
                    } else {
                        if exists|k: int| 0 <= k < a.len() && (#[trigger] a[k]).id == vid {
                            let ka = choose|k: int| 0 <= k < a.len() && (#[trigger] a[k]).id == vid;
                            assert(b[ka].id == a[ka].id);
                        }
                    }
                },
                _ => {},
            }
        }
    }

    /// Finds where an access to the byte at `address` goes.
    pub fn classify(&self, address: usize) -> (r: MemRoute)
        requires
            self.wf(),
        ensures
            r == self.route(address),
            r matches MemRoute::Card(i) ==> i < self.cards().len() && self.cards()[i as int].card.live(),
    {
        if address >= ADDRESS_SPACE {
            return MemRoute::OutOfBounds;
        }
        if self.memory_mask[address] & MEM_MMIO_BIT == 0 {
            return MemRoute::Raw;
        }
        match self.mmio_map_fast[bucket_index(address)] {
            MmioDeviceType::Video(vid) => match self.find_card(vid) {
                Some(i) => if self.videocards[i].card.is_live() {
                    MemRoute::Card(i)
                } else {
                    MemRoute::Unresolvable
                },
                None => MemRoute::Unresolvable,
            },
            MmioDeviceType::Cga => MemRoute::Unresolvable,
            MmioDeviceType::Ega => MemRoute::Unresolvable,
            MmioDeviceType::Vga => MemRoute::Unresolvable,
            MmioDeviceType::Unmapped => MemRoute::Raw,
            MmioDeviceType::Memory => MemRoute::Raw,
            MmioDeviceType::Rom => MemRoute::Raw,
        }
    }

    /// Finds where an access to the word at `address` goes.
    pub fn classify16(&self, address: usize) -> (r: MemRoute)
        requires
            self.wf(),
        ensures
            r == self.route16(address),
            r matches MemRoute::Card(i) ==> i < self.cards().len() && self.cards()[i as int].card.live(),
    {
        if address >= ADDRESS_SPACE - 1 {
            MemRoute::OutOfBounds
        } else {
            self.classify(address)
        }
    }

    /// Converts CPU cycles into the system ticks that a device is handed.
    pub fn cycles_to_device_ticks(&self, cycles: u32) -> (ticks: u32)
        requires
            self.wf(),
        ensures
            ticks == device_ticks(self.factor(), cycles as int),
            ticks == self.handed_ticks(cycles),
    {
        if (cycles as usize) < CYCLE_LUT_LEN {
            proof {
                lemma_small_cycles_convert(self.cpu_factor, cycles as int);
            }
            self.cycles_to_ticks[cycles as usize]
        } else {
            cpu_cycles_to_system_ticks(self.cpu_factor, cycles)
        }
    }
}

impl<D: DeviceSet> BusInterface<D> where
    D::Mda: MemoryMappedDevice,
    D::Cga: MemoryMappedDevice,
    D::Ega: MemoryMappedDevice,
    D::Vga: MemoryMappedDevice,
 {
    /// `r` is what reading the byte at `address` returns, `cycles` CPU cycles
    /// into an instruction, and `after` is the bus as the read leaves it.
    /// Where a video card answers, the card was read once at the address
    /// with the elapsed system ticks; the byte is the card's, the wait is the
    /// card's wait in CPU cycles, and the card is as that read left it.
    /// Elsewhere the bus is as it was.
    pub open(crate) spec fn read_u8_result(
        self,
        address: usize,
        cycles: u32,
        r: Result<(u8, u32), MemError>,
        after: Self,
    ) -> bool {
        match self.route(address) {
            MemRoute::Card(i) => exists|data: u8, wait: u32|
                #[trigger] self.videocards@[i as int].card.read_byte_at(
                    address,
                    self.handed_ticks(cycles),
                    data,
                    wait,
                    after.videocards@[i as int].card,
                ) && r == Ok::<(u8, u32), MemError>((data, self.charged_wait(wait))),
            _ => Some(r) == self.read_u8_outcome(address) && after == self,
        }
    }

    /// `r` is what peeking at the byte at `address` returns. Where a video
    /// card answers, the byte is the one that the card shows.
    pub open(crate) spec fn peek_u8_result(self, address: usize, r: Result<u8, MemError>) -> bool {
        match self.route(address) {
            MemRoute::Card(i) => r matches Ok(data) && self.videocards@[i as int].card.peeked_at(
                address,
                data,
            ),
            _ => Some(r) == self.peek_u8_outcome(address),
        }
    }

    /// `r` is what reading the word at `address` returns, `cycles` CPU cycles
    /// into an instruction, and `after` is the bus as the read leaves it.
    /// Where a video card answers, the card was read once at the address
    /// with the elapsed system ticks; the word is the card's, the wait is the
    /// card's wait in CPU cycles, and the card is as that read left it.
    /// Elsewhere the bus is as it was.
    pub open(crate) spec fn read_u16_result(
        self,
        address: usize,
        cycles: u32,
        r: Result<(u16, u32), MemError>,
        after: Self,
    ) -> bool {
        match self.route16(address) {
            MemRoute::Card(i) => exists|data: u16, wait: u32|
                #[trigger] self.videocards@[i as int].card.read_word_at(
                    address,
                    self.handed_ticks(cycles),
                    data,
                    wait,
                    after.videocards@[i as int].card,
                ) && r == Ok::<(u16, u32), MemError>((data, self.charged_wait(wait))),
            _ => Some(r) == self.read_u16_outcome(address) && after == self,
        }
    }

    /// `r` is what writing `data` to `address` returns, `cycles` CPU cycles
    /// into an instruction, and `after` is the bus as the write leaves it.
    /// Where a video card answers, the byte was written once to the card
    /// with the elapsed system ticks, the wait is the card's wait in CPU
    /// cycles, and the card is as that write left it. Elsewhere the devices
    /// are as they were.
    pub open(crate) spec fn write_u8_result(
        self,
        address: usize,
        data: u8,
        cycles: u32,
        r: Result<u32, MemError>,
        after: Self,
    ) -> bool {
        match self.route(address) {
            MemRoute::Card(i) => exists|wait: u32|
                #[trigger] self.videocards@[i as int].card.written_at(
                    address,
                    data,
                    self.handed_ticks(cycles),
                    wait,
                    after.videocards@[i as int].card,
                ) && r == Ok::<u32, MemError>(self.charged_wait(wait)),
            other => Some(r) == Self::wait_outcome(other) && after.same_devices(self),
        }
    }

    /// `r` is what writing the word `data` to `address` returns, and `after`
    /// is the bus as the write leaves it. Where a video card answers, the low
    /// byte was written once to the card with the elapsed system ticks, then
    /// the high byte once, with no ticks, to the card `between` as the first
    /// write left it; the card is as the second write left it, and the wait
    /// is the sum of the card's two waits, held at `u32::MAX`, in CPU cycles.
    /// Elsewhere the devices are as they were.
    pub open(crate) spec fn write_u16_result(
        self,
        address: usize,
        data: u16,
        cycles: u32,
        r: Result<u32, MemError>,
        after: Self,
    ) -> bool {
        match self.route16(address) {
            MemRoute::Card(i) => exists|wait_low: u32, between: VideoCardDispatch<D>, wait_high: u32|
                {
                    &&& #[trigger] self.videocards@[i as int].card.written_at(
                        address,
                        low_byte(data),
                        self.handed_ticks(cycles),
                        wait_low,
                        between,
                    )
                    &&& #[trigger] between.written_at(
                        (address + 1) as usize,
                        high_byte(data),
                        0,
                        wait_high,
                        after.videocards@[i as int].card,
                    )
                    &&& r == Ok::<u32, MemError>(
                        self.charged_wait(
                            if wait_low + wait_high <= u32::MAX {
                                (wait_low + wait_high) as u32
                            } else {
                                u32::MAX
                            },
                        ),
                    )
                },
            other => Some(r) == Self::wait_outcome(other) && after.same_devices(self),
        }
    }

    /// `r` is what asking for the wait of a read at `address` returns, and
    /// `after` is the bus as the question leaves it. Where a video card
    /// answers, the card was asked once with the elapsed system ticks, the
    /// wait is the card's answer in CPU cycles, and the card is as the
    /// question alone left it. Elsewhere the bus is as it was.
    pub open(crate) spec fn read_wait_result(
        self,
        address: usize,
        cycles: u32,
        r: Result<u32, MemError>,
        after: Self,
    ) -> bool {
        match self.route(address) {
            MemRoute::Card(i) => exists|wait: u32|
                #[trigger] self.videocards@[i as int].card.asked_read_wait(
                    address,
                    self.handed_ticks(cycles),
                    wait,
                    after.videocards@[i as int].card,
                ) && r == Ok::<u32, MemError>(self.charged_wait(wait)),
            other => Some(r) == Self::wait_outcome(other) && after == self,
        }
    }

    /// `r` is what asking for the wait of a write to `address` returns, and
    /// `after` is the bus as the question leaves it. Where a video card
    /// answers, the card was asked once with the elapsed system ticks, the
    /// wait is the card's answer in CPU cycles, and the card is as the
    /// question alone left it: nothing is written. Elsewhere the bus is as it
    /// was.
    pub open(crate) spec fn write_wait_result(
        self,
        address: usize,
        cycles: u32,
        r: Result<u32, MemError>,
        after: Self,
    ) -> bool {
        match self.route(address) {
            MemRoute::Card(i) => exists|wait: u32|
                #[trigger] self.videocards@[i as int].card.asked_write_wait(
                    address,
                    self.handed_ticks(cycles),
                    wait,
                    after.videocards@[i as int].card,
                ) && r == Ok::<u32, MemError>(self.charged_wait(wait)),
            other => Some(r) == Self::wait_outcome(other) && after == self,
        }
    }

    /// The card at `i` reports for a write the wait that it announces: what
    /// it answers when asked for the wait of a write is what it reports when
    /// the byte is then written to it as the question left it.
    pub open(crate) spec fn card_keeps_its_word(
        self,
        asked: Self,
        i: int,
        address: usize,
        data: u8,
        ticks: u32,
    ) -> bool {
        forall|announced: u32, reported: u32, written: VideoCardDispatch<D>|
            #[trigger] self.videocards@[i].card.asked_write_wait(
                address,
                ticks,
                announced,
                asked.videocards@[i].card,
            ) && #[trigger] asked.videocards@[i].card.written_at(address, data, ticks, reported, written)
                ==> announced == reported
    }

    /// Asking how long a write would wait does not change what the write
    /// reports. Let `asked` be the bus as `get_write_wait(address, cycles)`
    /// leaves `before`, and `predicted` its result; let `reported` be the
    /// result of `write_u8(address, data, cycles)` on `asked`, which leaves
    /// `written`. Both go the same way, the card is handed the same ticks
    /// both times, and both results are made of the card's answer by the
    /// same conversion. So `predicted` is `reported` wherever no card
    /// answers, and on a card that reports for a write the wait that it
    /// announced.
    pub proof fn lemma_wait_query_then_write(
        before: Self,
        asked: Self,
        written: Self,
        address: usize,
        data: u8,
        cycles: u32,
        predicted: Result<u32, MemError>,
        reported: Result<u32, MemError>,
    )
        requires
            before.wf(),
            asked.same_memory(before),
            asked.same_maps(before),
            asked.same_clock(before),
            before.route(address) matches MemRoute::Card(i) ==> asked.same_cards_but(before, i as int),
            before.write_wait_result(address, cycles, predicted, asked),
            asked.write_u8_result(address, data, cycles, reported, written),
            before.route(address) matches MemRoute::Card(i) ==> before.card_keeps_its_word(
                asked,
                i as int,
                address,
                data,
                before.handed_ticks(cycles),
            ),
        ensures
            asked.route(address) == before.route(address),
            asked.handed_ticks(cycles) == before.handed_ticks(cycles),
            predicted == reported,
    {
        match before.route(address) {
            MemRoute::Card(i) => {
                let vid = before.mmio_map_fast@[bucket_of(address as int)]->Video_0;
                Self::lemma_card_index_stable(before, asked, vid, i as int);
                assert(asked.route(address) == before.route(address));
                let ticks = before.handed_ticks(cycles);
                let announced = choose|wait: u32|
                    #[trigger] before.videocards@[i as int].card.asked_write_wait(
                        address,
                        ticks,
                        wait,
                        asked.videocards@[i as int].card,
                    ) && predicted == Ok::<u32, MemError>(before.charged_wait(wait));
                let told = choose|wait: u32|
                    #[trigger] asked.videocards@[i as int].card.written_at(
                        address,
                        data,
                        ticks,
                        wait,
                        written.videocards@[i as int].card,
                    ) && reported == Ok::<u32, MemError>(asked.charged_wait(wait));
                assert(announced == told);
            },
            _ => {},
        }
    }

    /// Reads the byte at `address`. Plain memory is read without wait. A
    /// video card is handed the address and the elapsed time in system ticks;
    /// the wait that it reports comes back in CPU cycles.
    pub fn read_u8(&mut self, address: usize, cycles: u32) -> (r: Result<(u8, u32), MemError>)
        requires
            old(self).wf(),
        ensures
            final(self).wf(),
            final(self).same_memory(*old(self)),
            final(self).same_maps(*old(self)),
            final(self).same_clock(*old(self)),
            final(self).same_schedule(*old(self)),
            final(self).same_slots(*old(self)),
            old(self).read_u8_result(address, cycles, r, *final(self)),
            old(self).read_u8_outcome(address) matches Some(outcome) ==> r == outcome && *final(self)
                == *old(self),
            old(self).route(address) matches MemRoute::Card(i) ==> final(self).same_cards_but(
                *old(self),
                i as int,
            ),
    {
        match self.classify(address) {
            MemRoute::OutOfBounds => Err(MemError::ReadOutOfBoundsError),
            MemRoute::Raw => Ok((self.memory[address], DEFAULT_WAIT_STATES)),
            MemRoute::Unresolvable => Err(MemError::MmioError),
            MemRoute::Card(i) => {
                let system_ticks = self.cycles_to_device_ticks(cycles);
                match self.videocards[i].card.mmio_read_u8(address, system_ticks) {
                    Some((data, syswait)) => {
                        let wait = system_ticks_to_cpu_cycles(self.cpu_factor, syswait);
                        assert(old(self).videocards@[i as int].card.read_byte_at(
                            address,
                            system_ticks,
                            data,
                            syswait,
                            self.videocards@[i as int].card,
                        ));
                        Ok((data, wait))
                    },
                    None => Err(MemError::MmioError),
                }
            },
        }
    }

    /// Reads the byte at `address` as an inspector does: nothing on the bus
    /// changes, no device is advanced and no wait is charged.
    pub fn peek_u8(&self, address: usize) -> (r: Result<u8, MemError>)
        requires
            self.wf(),
        ensures
            self.peek_u8_result(address, r),
            self.peek_u8_outcome(address) matches Some(outcome) ==> r == outcome,
            self.route(address) is Card ==> r is Ok,
    {
        match self.classify(address) {
            MemRoute::OutOfBounds => Err(MemError::ReadOutOfBoundsError),
            MemRoute::Raw => Ok(self.memory[address]),
            MemRoute::Unresolvable => Err(MemError::MmioError),
            MemRoute::Card(i) => match self.videocards[i].card.mmio_peek_u8(address) {
                Some(data) => Ok(data),
                None => Err(MemError::MmioError),
            },
        }
    }

    /// Reads the word at `address`, low byte first. The access is routed by
    /// its first byte.
    pub fn read_u16(&mut self, address: usize, cycles: u32) -> (r: Result<(u16, u32), MemError>)
        requires
            old(self).wf(),
        ensures
            final(self).wf(),
            final(self).same_memory(*old(self)),
            final(self).same_maps(*old(self)),
            final(self).same_clock(*old(self)),
            final(self).same_schedule(*old(self)),
            final(self).same_slots(*old(self)),
            old(self).read_u16_result(address, cycles, r, *final(self)),
            old(self).read_u16_outcome(address) matches Some(outcome) ==> r == outcome && *final(self)
                == *old(self),
            old(self).route16(address) matches MemRoute::Card(i) ==> final(self).same_cards_but(
                *old(self),
                i as int,
            ),
    {
        match self.classify16(address) {
            MemRoute::OutOfBounds => Err(MemError::ReadOutOfBoundsError),
            MemRoute::Raw => Ok(
                (join_word(self.memory[address], self.memory[address + 1]), DEFAULT_WAIT_STATES),
            ),
            MemRoute::Unresolvable => Err(MemError::MmioError),
            MemRoute::Card(i) => {
                let system_ticks = self.cycles_to_device_ticks(cycles);
                match self.videocards[i].card.mmio_read_u16(address, system_ticks) {
                    Some((data, syswait)) => {
                        let wait = system_ticks_to_cpu_cycles(self.cpu_factor, syswait);
                        assert(old(self).videocards@[i as int].card.read_word_at(
                            address,
                            system_ticks,
                            data,
                            syswait,
                            self.videocards@[i as int].card,
                        ));
                        Ok((data, wait))
                    },
                    None => Err(MemError::MmioError),
                }
            },
        }
    }

    /// Writes a byte to `address`. A write to plain memory is stored unless
    /// the byte is ROM or lies at or above the size of conventional memory;
    /// a write that is not stored is no error. A write to a video card never
    /// changes memory; the card is handed the byte and the elapsed time in
    /// system ticks, and the wait that it reports comes back in CPU cycles.
    pub fn write_u8(&mut self, address: usize, data: u8, cycles: u32) -> (r: Result<u32, MemError>)
        requires
            old(self).wf(),
        ensures
            final(self).wf(),
            final(self).same_maps(*old(self)),
            final(self).same_clock(*old(self)),
            final(self).same_schedule(*old(self)),
            final(self).same_slots(*old(self)),
            final(self).flags() == old(self).flags(),
            final(self).conventional() == old(self).conventional(),
            final(self).descriptors() == old(self).descriptors(),
            final(self).queue_cursor() == old(self).queue_cursor(),
            final(self).mem() == old(self).mem_after_write_u8(address, data),
            address >= old(self).conventional() ==> final(self).mem() == old(self).mem(),
            old(self).write_u8_result(address, data, cycles, r, *final(self)),
            Self::wait_outcome(old(self).route(address)) matches Some(outcome) ==> r == outcome
                && final(self).same_devices(*old(self)),
            old(self).route(address) matches MemRoute::Card(i) ==> final(self).same_cards_but(
                *old(self),
                i as int,
            ),
    {
        match self.classify(address) {
            MemRoute::OutOfBounds => Err(MemError::ReadOutOfBoundsError),
            MemRoute::Raw => {
                if self.memory_mask[address] & MEM_ROM_BIT == 0 && address < self.conventional_size {
                    self.memory[address] = data;
                }
                proof {
                    Self::lemma_wf_after_memory_change(*old(self), *self);
                }
                Ok(DEFAULT_WAIT_STATES)
            },
            MemRoute::Unresolvable => Err(MemError::MmioError),
            MemRoute::Card(i) => {
                let system_ticks = self.cycles_to_device_ticks(cycles);
                match self.videocards[i].card.mmio_write_u8(address, data, system_ticks) {
                    Some(syswait) => {
                        let wait = system_ticks_to_cpu_cycles(self.cpu_factor, syswait);
                        assert(old(self).videocards@[i as int].card.written_at(
                            address,
                            data,
                            system_ticks,
                            syswait,
                            self.videocards@[i as int].card,
                        ));
                        Ok(wait)
                    },
                    None => Err(MemError::MmioError),
                }
            },
        }
    }

    /// Writes a word to `address`, low byte first. The access is routed by its
    /// first byte. In plain memory nothing is stored if the first byte is ROM;
    /// otherwise each byte is stored if it lies in conventional memory, and
    /// the high byte only if it is not ROM itself. A video card is written
    /// byte by byte, and the waits of both writes add up.
    pub fn write_u16(&mut self, address: usize, data: u16, cycles: u32) -> (r: Result<u32, MemError>)
        requires
            old(self).wf(),
        ensures
            final(self).wf(),
            final(self).same_maps(*old(self)),
            final(self).same_clock(*old(self)),
            final(self).same_schedule(*old(self)),
            final(self).same_slots(*old(self)),
            final(self).flags() == old(self).flags(),
            final(self).conventional() == old(self).conventional(),
            final(self).descriptors() == old(self).descriptors(),
            final(self).queue_cursor() == old(self).queue_cursor(),
            final(self).mem() == old(self).mem_after_write_u16(address, data),
            address >= old(self).conventional() ==> final(self).mem() == old(self).mem(),
            old(self).write_u16_result(address, data, cycles, r, *final(self)),
            Self::wait_outcome(old(self).route16(address)) matches Some(outcome) ==> r == outcome
                && final(self).same_devices(*old(self)),
            old(self).route16(address) matches MemRoute::Card(i) ==> final(self).same_cards_but(
                *old(self),
                i as int,
            ),
    {
        let (low, high) = split_word(data);
        match self.classify16(address) {
            MemRoute::OutOfBounds => Err(MemError::ReadOutOfBoundsError),
            MemRoute::Raw => {
                if self.memory_mask[address] & MEM_ROM_BIT == 0 {
                    if address < self.conventional_size {
                        self.memory[address] = low;
                    }
                    if self.memory_mask[address + 1] & MEM_ROM_BIT == 0 && address + 1
                        < self.conventional_size {
                        self.memory[address + 1] = high;
                    }
                }
                proof {
                    Self::lemma_wf_after_memory_change(*old(self), *self);
                }
                Ok(DEFAULT_WAIT_STATES)
            },
            MemRoute::Unresolvable => Err(MemError::MmioError),
            MemRoute::Card(i) => {
                let system_ticks = self.cycles_to_device_ticks(cycles);
                let first = self.videocards[i].card.mmio_write_u8(address, low, system_ticks);
                let ghost between = self.videocards@[i as int].card;
                let second = self.videocards[i].card.mmio_write_u8(address + 1, high, 0);
                match (first, second) {
                    (Some(wait_low), Some(wait_high)) => {
                        let wait = system_ticks_to_cpu_cycles(
                            self.cpu_factor,
                            wait_low.saturating_add(wait_high),
                        );
                        assert(old(self).videocards@[i as int].card.written_at(
                            address,
                            low,
                            system_ticks,
                            wait_low,
                            between,
                        ));
                        assert(between.written_at(
                            (address + 1) as usize,
                            high,
                            0,
                            wait_high,
                            self.videocards@[i as int].card,
                        ));
                        Ok(wait)
                    },
                    _ => Err(MemError::MmioError),
                }
            },
        }
    }

    /// Tells how long a read of `address` would wait, in CPU cycles, without
    /// reading. A video card is asked with the elapsed time in system ticks.
    pub fn get_read_wait(&mut self, address: usize, cycles: u32) -> (r: Result<u32, MemError>)
        requires
            old(self).wf(),
        ensures
            final(self).wf(),
            final(self).same_memory(*old(self)),
            final(self).same_maps(*old(self)),
            final(self).same_clock(*old(self)),
            final(self).same_schedule(*old(self)),
            final(self).same_slots(*old(self)),
            old(self).read_wait_result(address, cycles, r, *final(self)),
            Self::wait_outcome(old(self).route(address)) matches Some(outcome) ==> r == outcome
                && *final(self) == *old(self),
            old(self).route(address) matches MemRoute::Card(i) ==> final(self).same_cards_but(
                *old(self),
                i as int,
            ),
    {
        match self.classify(address) {
            MemRoute::OutOfBounds => Err(MemError::ReadOutOfBoundsError),
            MemRoute::Raw => Ok(DEFAULT_WAIT_STATES),
            MemRoute::Unresolvable => Err(MemError::MmioError),
            MemRoute::Card(i) => {
                let system_ticks = self.cycles_to_device_ticks(cycles);
                match self.videocards[i].card.get_read_wait(address, system_ticks) {
                    Some(syswait) => {
                        let wait = system_ticks_to_cpu_cycles(self.cpu_factor, syswait);
                        assert(old(self).videocards@[i as int].card.asked_read_wait(
                            address,
                            system_ticks,
                            syswait,
                            self.videocards@[i as int].card,
                        ));
                        Ok(wait)
                    },
                    None => Err(MemError::MmioError),
                }
            },
        }
    }

    /// Tells how long a write to `address` would wait, in CPU cycles, without
    /// writing. A video card is asked with the elapsed time in system ticks.
    pub fn get_write_wait(&mut self, address: usize, cycles: u32) -> (r: Result<u32, MemError>)
        requires
            old(self).wf(),
        ensures
            final(self).wf(),
            final(self).same_memory(*old(self)),
            final(self).same_maps(*old(self)),
            final(self).same_clock(*old(self)),
            final(self).same_schedule(*old(self)),
            final(self).same_slots(*old(self)),
            old(self).write_wait_result(address, cycles, r, *final(self)),
            Self::wait_outcome(old(self).route(address)) matches Some(outcome) ==> r == outcome
                && *final(self) == *old(self),
            old(self).route(address) matches MemRoute::Card(i) ==> final(self).same_cards_but(
                *old(self),
                i as int,
            ),
    {
        match self.classify(address) {
            MemRoute::OutOfBounds => Err(MemError::ReadOutOfBoundsError),
            MemRoute::Raw => Ok(DEFAULT_WAIT_STATES),
            MemRoute::Unresolvable => Err(MemError::MmioError),
            MemRoute::Card(i) => {
                let system_ticks = self.cycles_to_device_ticks(cycles);
                match self.videocards[i].card.get_write_wait(address, system_ticks) {
                    Some(syswait) => {
                        let wait = system_ticks_to_cpu_cycles(self.cpu_factor, syswait);
                        assert(old(self).videocards@[i as int].card.asked_write_wait(
                            address,
                            system_ticks,
                            syswait,
                            self.videocards@[i as int].card,
                        ));
                        Ok(wait)
                    },
                    None => Err(MemError::MmioError),
                }
            },
        }
    }
}

} // verus!
