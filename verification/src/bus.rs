//! The system bus.
//!
//! The bus owns the memory of the machine and every device in it. It routes
//! the CPU's memory and port accesses to memory or to the device that answers,
//! and it advances the devices in step with the CPU.
use vstd::prelude::*;
use std::collections::HashMap;
use crate::config::{KeyboardType, MachineDescriptor};
use crate::device::{DeviceSet, IoDeviceType, VideoCardSlot};
use crate::event::DeviceRunContext;
use crate::memory::{
    add_bits_in_range, add_flags, copy_bytes, fill_bytes, flags_added, flags_removed, has_flag,
    lemma_clear_bit, lemma_set_bit, overlay, remove_bits_everywhere, remove_flags, with_flags,
    without_flags, MemRangeDescriptor, ADDRESS_SPACE, MEM_CP_BIT, MEM_MMIO_BIT, MEM_RET_BIT,
    MEM_ROM_BIT, OPEN_BUS_BYTE,
};
use crate::mmio::{
    buckets_filled, fill_buckets, registrable, MmioData, MmioDeviceType, VideoCardId,
    MMIO_MAP_LEN, MMIO_MAP_SIZE,
};
use crate::timing::{
    build_cycle_lut, cycle_lut_matches, table_sys_ticks, table_us, timing_table_matches,
    update_timing_table, ClockFactor, Microseconds, TimingTableEntry, TIMING_TABLE_LEN,
};

verus! {

/// The keyboard is advanced once in this many microseconds.
pub const KB_UPDATE_RATE: u32 = 5000;

/// A tick-driven video card is advanced once more than this many system ticks
/// have gathered.
pub const CGA_TICK_THRESHOLD: u32 = 8;

/// The crystal of a machine that no descriptor was given for, in hertz.
pub const DEFAULT_SYSTEM_CRYSTAL: u32 = 14_318_180;

/// The bus of one machine, with its memory and the devices of the set `D`.
pub struct BusInterface<D: DeviceSet> {
    pub(crate) cpu_factor: ClockFactor,
    pub(crate) crystal_hz: u32,
    pub(crate) timing_table: Vec<TimingTableEntry>,
    pub(crate) machine_desc: Option<MachineDescriptor>,
    pub(crate) keyboard_type: KeyboardType,
    pub(crate) keyboard: Option<D::Keyboard>,
    pub(crate) conventional_size: usize,
    pub(crate) memory: Vec<u8>,
    pub(crate) memory_mask: Vec<u8>,
    pub(crate) desc_vec: Vec<MemRangeDescriptor>,
    pub(crate) mmio_map: Vec<(MemRangeDescriptor, MmioDeviceType)>,
    pub(crate) mmio_map_fast: Vec<MmioDeviceType>,
    pub(crate) mmio_data: MmioData,
    pub(crate) cursor: usize,
    pub(crate) io_map: HashMap<u16, IoDeviceType>,
    pub(crate) ppi: Option<D::Ppi>,
    pub(crate) pit: Option<D::Pit>,
    pub(crate) dma_counter: u16,
    pub(crate) dma1: Option<D::Dma>,
    pub(crate) dma2: Option<D::Dma>,
    pub(crate) pic1: Option<D::Pic>,
    pub(crate) pic2: Option<D::Pic>,
    pub(crate) serial: Option<D::Serial>,
    pub(crate) fdc: Option<D::Fdc>,
    pub(crate) hdc: Option<D::Hdc>,
    pub(crate) mouse: Option<D::Mouse>,
    pub(crate) videocards: Vec<VideoCardSlot<D>>,
    pub(crate) videocard_ids: Vec<VideoCardId>,
    pub(crate) cycles_to_ticks: Vec<u32>,
    pub(crate) pit_ticks_advance: u32,
    pub(crate) timer_triggers_enabled: bool,
    pub(crate) timer_trigger1_armed: bool,
    pub(crate) timer_trigger2_armed: bool,
    pub(crate) cga_tick_accum: u32,
    pub(crate) kb_us_accum: Microseconds,
    pub(crate) refresh_active: bool,
}

/// An address at which a collaborator outside the bus wants to be told that
/// execution arrived.
#[derive(Copy, Clone, Debug, PartialEq, Eq, Structural)]
pub struct MachineCheckpoint {
    pub addr: u32,
    pub lvl: u32,
}

impl MachineCheckpoint {
    /// The checkpoint's place in the address space.
    pub open spec fn flat(self) -> int {
        (self.addr as int) % (ADDRESS_SPACE as int)
    }
}

/// One of the checkpoints lies at the address `a`.
pub open spec fn is_checkpoint(checkpoints: Seq<MachineCheckpoint>, a: int) -> bool {
    exists|k: int| 0 <= k < checkpoints.len() && (#[trigger] checkpoints[k]).flat() == a
}

/// Some range of a list of registrations holds the address `a`.
pub open spec fn covered_by(
    ranges: Seq<(MemRangeDescriptor, MmioDeviceType)>,
    a: int,
) -> bool {
    exists|i: int| 0 <= i < ranges.len() && (#[trigger] ranges[i]).0.covers(a)
}

impl<D: DeviceSet> BusInterface<D> {
    /// The contents of memory, byte by byte.
    pub open(crate) spec fn mem(self) -> Seq<u8> {
        self.memory@
    }

    /// The flag bytes, one for each byte of memory.
    pub open(crate) spec fn flags(self) -> Seq<u8> {
        self.memory_mask@
    }

    /// The size of conventional memory: writes at or above it are discarded.
    pub open(crate) spec fn conventional(self) -> usize {
        self.conventional_size
    }

    /// The clock factor in force.
    pub open(crate) spec fn factor(self) -> ClockFactor {
        self.cpu_factor
    }

    /// The frequency of the system crystal in hertz.
    pub open(crate) spec fn crystal(self) -> u32 {
        self.crystal_hz
    }

    /// The registered memory-mapped ranges, in the order of registration.
    pub open(crate) spec fn mmio_ranges(self) -> Seq<(MemRangeDescriptor, MmioDeviceType)> {
        self.mmio_map@
    }

    /// The coarse map: what each bucket is mapped to.
    pub open(crate) spec fn mmio_buckets(self) -> Seq<MmioDeviceType> {
        self.mmio_map_fast@
    }

    /// The recorded memory ranges.
    pub open(crate) spec fn descriptors(self) -> Seq<MemRangeDescriptor> {
        self.desc_vec@
    }

    /// The device that answers to each mapped port.
    pub open(crate) spec fn io_ports(self) -> Map<u16, IoDeviceType> {
        self.io_map@
    }

    /// The installed video cards.
    pub open(crate) spec fn cards(self) -> Seq<VideoCardSlot<D>> {
        self.videocards@
    }

    /// The address `a` lies in a registered memory-mapped range.
    pub open(crate) spec fn mmio_covered(self, a: int) -> bool {
        covered_by(self.mmio_map@, a)
    }

    /// The bus is well formed: memory and flags span the address space, the
    /// timing tables agree with the clock factor and the crystal, and a byte
    /// is flagged memory-mapped exactly if a registered range holds it.
    pub open(crate) spec fn wf(self) -> bool {
        &&& self.memory@.len() == ADDRESS_SPACE
        &&& self.memory_mask@.len() == ADDRESS_SPACE
        &&& self.cpu_factor.valid()
        &&& self.crystal_hz >= 1
        &&& timing_table_matches(self.timing_table@, self.cpu_factor, self.crystal_hz as int)
        &&& cycle_lut_matches(self.cycles_to_ticks@, self.cpu_factor)
        &&& self.mmio_map_fast@.len() == MMIO_MAP_LEN
        &&& forall|i: int|
            0 <= i < self.mmio_map@.len() ==> registrable((#[trigger] self.mmio_map@[i]).0)
        &&& forall|a: int|
            0 <= a < ADDRESS_SPACE ==> (has_flag(#[trigger] self.memory_mask@[a], MEM_MMIO_BIT)
                <==> covered_by(self.mmio_map@, a))
        &&& forall|i: int, j: int|
            0 <= i < j < self.videocards@.len() ==> (#[trigger] self.videocards@[i]).id != (
            #[trigger] self.videocards@[j]).id
        &&& self.cga_tick_accum <= CGA_TICK_THRESHOLD
        &&& self.machine_desc matches Some(desc) ==> desc.system_crystal == self.crystal_hz
    }

    /// This bus with conventional memory of `size` bytes.
    pub open(crate) spec fn resized(self, size: usize) -> Self {
        BusInterface { conventional_size: size, ..self }
    }

    /// The bus is as it is made: no device is installed and no video card
    /// listed, no port is mapped and no memory range registered or recorded,
    /// every bucket of the coarse map names plain memory, the timer is owed
    /// no ticks, refresh is off, nothing has gathered for the keyboard or the
    /// video cards, and the timing workarounds are in use with none armed.
    pub open(crate) spec fn bare(self) -> bool {
        &&& self.keyboard is None
        &&& self.ppi is None
        &&& self.pit is None
        &&& self.dma1 is None
        &&& self.dma2 is None
        &&& self.pic1 is None
        &&& self.pic2 is None
        &&& self.serial is None
        &&& self.fdc is None
        &&& self.hdc is None
        &&& self.mouse is None
        &&& self.videocards@.len() == 0
        &&& self.videocard_ids@.len() == 0
        &&& self.io_map@ == Map::<u16, IoDeviceType>::empty()
        &&& self.mmio_map@.len() == 0
        &&& self.desc_vec@.len() == 0
        &&& self.mmio_map_fast@ == Seq::new(MMIO_MAP_LEN as nat, |i: int| MmioDeviceType::Memory)
        &&& self.mmio_data == (MmioData { first_map: 0xFFFFF, last_map: 0 })
        &&& self.cursor == 0
        &&& self.dma_counter == 0
        &&& self.pit_ticks_advance == 0
        &&& !self.refresh_active
        &&& self.cga_tick_accum == 0
        &&& self.kb_us_accum@ == 0
        &&& self.timer_triggers_enabled
        &&& !self.timer_trigger1_armed
        &&& !self.timer_trigger2_armed
    }

    /// The model of the keyboard that the bus was made for.
    pub open(crate) spec fn keyboard_model(self) -> KeyboardType {
        self.keyboard_type
    }

    /// The rows of the table from CPU cycles to system ticks.
    pub open(crate) spec fn cycle_lut(self) -> Seq<u32> {
        self.cycles_to_ticks@
    }

    /// The rows of the timing table.
    pub open(crate) spec fn timing_rows(self) -> Seq<TimingTableEntry> {
        self.timing_table@
    }

    /// The bounds of the registered memory-mapped ranges.
    pub open(crate) spec fn mmio_bounds(self) -> MmioData {
        self.mmio_data
    }

    /// The system ticks that the timer is owed beyond the elapsed ones.
    pub open(crate) spec fn pit_advance(self) -> u32 {
        self.pit_ticks_advance
    }

    /// The ticks gathered for the tick-driven video cards.
    pub open(crate) spec fn video_ticks_gathered(self) -> u32 {
        self.cga_tick_accum
    }

    /// The timing workarounds are in use.
    pub open(crate) spec fn workarounds_enabled(self) -> bool {
        self.timer_triggers_enabled
    }

    /// The description of the machine, once one was given.
    pub open(crate) spec fn descriptor(self) -> Option<MachineDescriptor> {
        self.machine_desc
    }

    /// Both buses hold the same devices in their slots; video cards apart.
    pub open(crate) spec fn same_slots(self, other: Self) -> bool {
        &&& self.keyboard == other.keyboard
        &&& self.ppi == other.ppi
        &&& self.pit == other.pit
        &&& self.dma1 == other.dma1
        &&& self.dma2 == other.dma2
        &&& self.pic1 == other.pic1
        &&& self.pic2 == other.pic2
        &&& self.serial == other.serial
        &&& self.fdc == other.fdc
        &&& self.hdc == other.hdc
        &&& self.mouse == other.mouse
    }

    /// Both buses hold the same devices, video cards included.
    pub open(crate) spec fn same_devices(self, other: Self) -> bool {
        &&& self.same_slots(other)
        &&& self.videocards == other.videocards
        &&& self.videocard_ids == other.videocard_ids
    }

    /// Both buses hold the same video cards, but for the card at position
    /// `i`, which has kept its identity and its kind.
    pub open(crate) spec fn same_cards_but(self, other: Self, i: int) -> bool {
        &&& self.videocard_ids == other.videocard_ids
        &&& self.videocards@.len() == other.videocards@.len()
        &&& 0 <= i < self.videocards@.len()
        &&& self.videocards@[i].id == other.videocards@[i].id
        &&& self.videocards@[i].card.kind() == other.videocards@[i].card.kind()
        &&& forall|j: int|
            0 <= j < self.videocards@.len() && j != i ==> #[trigger] self.videocards@[j]
                == other.videocards@[j]
    }

    /// The position of the card with the identity `vid` among the installed
    /// cards, if there is one.
    pub open(crate) spec fn card_index(self, vid: VideoCardId) -> Option<usize> {
        if exists|i: int| 0 <= i < self.videocards@.len() && (#[trigger] self.videocards@[i]).id == vid {
            Some(
                (choose|i: int| 0 <= i < self.videocards@.len() && (#[trigger] self.videocards@[i]).id
                    == vid) as usize,
            )
        } else {
            None
        }
    }

    /// Finds the card with the identity `vid` among the installed cards.
    pub fn find_card(&self, vid: VideoCardId) -> (r: Option<usize>)
        requires
            self.wf(),
        ensures
            r == self.card_index(vid),
            r matches Some(i) ==> i < self.cards().len() && self.cards()[i as int].id == vid,
    {
        let n = self.videocards.len();
        let mut i: usize = 0;
        while i < n
            invariant
                i <= n,
                n == self.videocards@.len(),
                self.wf(),
                forall|j: int| 0 <= j < i ==> (#[trigger] self.videocards@[j]).id != vid,
            decreases n - i,
        {
            if self.videocards[i].id == vid {
                proof {
                    let c = choose|c: int|
                        0 <= c < self.videocards@.len() && (#[trigger] self.videocards@[c]).id == vid;
                    assert(self.videocards@[i as int].id == vid);
                    if c < i {
                        assert(self.videocards@[c].id != self.videocards@[i as int].id);
                    } else if c > i {
                        assert(self.videocards@[i as int].id != self.videocards@[c].id);
                    }
                }
                return Some(i);
            }
            i += 1;
        }
        None
    }

    /// Both buses map ports and memory ranges alike.
    pub open(crate) spec fn same_maps(self, other: Self) -> bool {
        &&& self.io_map == other.io_map
        &&& self.mmio_map == other.mmio_map
        &&& self.mmio_map_fast == other.mmio_map_fast
        &&& self.mmio_data == other.mmio_data
    }

    /// Both buses are clocked alike and describe the same machine.
    pub open(crate) spec fn same_clock(self, other: Self) -> bool {
        &&& self.cpu_factor == other.cpu_factor
        &&& self.crystal_hz == other.crystal_hz
        &&& self.timing_table == other.timing_table
        &&& self.cycles_to_ticks == other.cycles_to_ticks
        &&& self.machine_desc == other.machine_desc
        &&& self.keyboard_type == other.keyboard_type
    }

    /// Both buses are at the same point of their schedule.
    pub open(crate) spec fn same_schedule(self, other: Self) -> bool {
        &&& self.dma_counter == other.dma_counter
        &&& self.pit_ticks_advance == other.pit_ticks_advance
        &&& self.timer_triggers_enabled == other.timer_triggers_enabled
        &&& self.timer_trigger1_armed == other.timer_trigger1_armed
        &&& self.timer_trigger2_armed == other.timer_trigger2_armed
        &&& self.cga_tick_accum == other.cga_tick_accum
        &&& self.kb_us_accum == other.kb_us_accum
        &&& self.refresh_active == other.refresh_active
    }

    /// Both buses hold the same memory, flags and memory records.
    pub open(crate) spec fn same_memory(self, other: Self) -> bool {
        &&& self.memory == other.memory
        &&& self.memory_mask == other.memory_mask
        &&& self.conventional_size == other.conventional_size
        &&& self.cursor == other.cursor
        &&& self.desc_vec == other.desc_vec
    }

    /// Both buses agree in all but memory, flags and memory records.
    pub open(crate) spec fn same_but_memory(self, other: Self) -> bool {
        &&& self.same_devices(other)
        &&& self.same_maps(other)
        &&& self.same_clock(other)
        &&& self.same_schedule(other)
    }

    /// What a well-formed bus is made of: memory and flags span the address
    /// space, the coarse map has a bucket for every part of it, the clock
    /// factor is valid and the crystal oscillates.
    pub proof fn lemma_wf_shape(self)
        requires
            self.wf(),
        ensures
            self.mem().len() == ADDRESS_SPACE,
            self.flags().len() == ADDRESS_SPACE,
            self.mmio_buckets().len() == MMIO_MAP_LEN,
            self.factor().valid(),
            self.crystal() >= 1,
            self.video_ticks_gathered() <= CGA_TICK_THRESHOLD,
            self.descriptor() matches Some(desc) ==> desc.system_crystal == self.crystal(),
    {
    }

    /// On a well-formed bus a byte is flagged memory-mapped exactly if a
    /// registered range holds it.
    pub proof fn lemma_mmio_flag_iff_covered(self, a: int)
        requires
            self.wf(),
            0 <= a < ADDRESS_SPACE,
        ensures
            has_flag(self.flags()[a], MEM_MMIO_BIT) <==> self.mmio_covered(a),
    {
    }

    /// On a well-formed bus every registered range is a whole number of
    /// buckets long and lies inside the address space.
    pub proof fn lemma_ranges_registrable(self, i: int)
        requires
            self.wf(),
            0 <= i < self.mmio_ranges().len(),
        ensures
            registrable(self.mmio_ranges()[i].0),
    {
    }

    /// On a well-formed bus no two installed video cards have the same
    /// identity.
    pub proof fn lemma_card_ids_differ(self, i: int, j: int)
        requires
            self.wf(),
            0 <= i < self.cards().len(),
            0 <= j < self.cards().len(),
            i != j,
        ensures
            self.cards()[i].id != self.cards()[j].id,
    {
        if i < j {
            assert(self.videocards@[i].id != self.videocards@[j].id);
        } else {
            assert(self.videocards@[j].id != self.videocards@[i].id);
        }
    }

    /// A well-formed bus stays so when memory, flags and memory records
    /// change, as long as no flag byte gains or loses the MMIO bit.
    pub(crate) proof fn lemma_wf_after_memory_change(pre: Self, post: Self)
        requires
            pre.wf(),
            post.same_but_memory(pre),
            post.memory@.len() == ADDRESS_SPACE,
            post.memory_mask@.len() == ADDRESS_SPACE,
            forall|a: int|
                0 <= a < ADDRESS_SPACE ==> has_flag(#[trigger] post.memory_mask@[a], MEM_MMIO_BIT)
                    == has_flag(pre.memory_mask@[a], MEM_MMIO_BIT),
        ensures
            post.wf(),
    {
        assert forall|a: int| 0 <= a < ADDRESS_SPACE implies (has_flag(
            #[trigger] post.memory_mask@[a],
            MEM_MMIO_BIT,
        ) <==> covered_by(post.mmio_map@, a)) by {
            assert(has_flag(pre.memory_mask@[a], MEM_MMIO_BIT) <==> covered_by(pre.mmio_map@, a));
        }
    }

    /// A bus for a machine, clocked by `cpu_factor`, without devices yet.
    pub fn new(cpu_factor: ClockFactor, machine_desc: MachineDescriptor, keyboard_type: KeyboardType) -> (bus:
        BusInterface<D>)
        requires
            cpu_factor.valid(),
            machine_desc.valid(),
        ensures
            bus.wf(),
            bus.factor() == cpu_factor,
            bus.crystal() == machine_desc.system_crystal,
            bus.descriptor() == Some(machine_desc),
            bus.conventional() == ADDRESS_SPACE,
            bus.mem() == Seq::new(ADDRESS_SPACE as nat, |a: int| OPEN_BUS_BYTE),
            bus.flags() == Seq::new(ADDRESS_SPACE as nat, |a: int| 0u8),
            bus.mmio_ranges().len() == 0,
            bus.descriptors().len() == 0,
            bus.io_ports() == Map::<u16, IoDeviceType>::empty(),
            bus.cards().len() == 0,
            bus.bare(),
            bus.keyboard_model() == keyboard_type,
    {
        let mut bus: BusInterface<D> = BusInterface::default();
        update_timing_table(&mut bus.timing_table, cpu_factor, machine_desc.system_crystal);
        bus.cycles_to_ticks = build_cycle_lut(cpu_factor);
        bus.cpu_factor = cpu_factor;
        bus.crystal_hz = machine_desc.system_crystal;
        bus.machine_desc = Some(machine_desc);
        bus.keyboard_type = keyboard_type;
        bus
    }

    /// Fills a timing table for a clock factor and a crystal in hertz: row
    /// `cycles` holds the ticks and the time of that many CPU cycles.
    pub fn update_timing_table(
        timing_table: &mut Vec<TimingTableEntry>,
        clock_factor: ClockFactor,
        crystal_hz: u32,
    )
        requires
            old(timing_table)@.len() == TIMING_TABLE_LEN,
            clock_factor.valid(),
            crystal_hz >= 1,
        ensures
            timing_table_matches(final(timing_table)@, clock_factor, crystal_hz as int),
    {
        update_timing_table(timing_table, clock_factor, crystal_hz);
    }

    /// The ticks and the time that `cycles` CPU cycles amount to.
    pub fn get_timings_for_cycles(&self, cycles: u32) -> (entry: &TimingTableEntry)
        requires
            self.wf(),
            cycles < TIMING_TABLE_LEN,
        ensures
            entry.sys_ticks == table_sys_ticks(self.factor(), cycles as int),
            entry.us@ == table_us(self.factor(), self.crystal() as int, cycles as int),
    {
        &self.timing_table[cycles as usize]
    }

    /// Sets the elapsed ticks and time of a run context to those of `cycles`
    /// CPU cycles.
    pub fn set_context_timings(&self, context: &mut DeviceRunContext, cycles: u32)
        requires
            self.wf(),
            cycles < TIMING_TABLE_LEN,
        ensures
            final(context).delta_ticks == table_sys_ticks(self.factor(), cycles as int),
            final(context).delta_us@ == table_us(self.factor(), self.crystal() as int, cycles as int),
            final(context).break_on == old(context).break_on,
            final(context).events == old(context).events,
    {
        context.delta_ticks = self.timing_table[cycles as usize].sys_ticks;
        context.delta_us = self.timing_table[cycles as usize].us;
    }

    /// Flags the address of every given checkpoint as a checkpoint. Addresses
    /// wrap around at the end of the address space.
    pub fn install_checkpoints(&mut self, checkpoints: &Vec<MachineCheckpoint>)
        requires
            old(self).wf(),
        ensures
            final(self).wf(),
            final(self).same_but_memory(*old(self)),
            final(self).mem() == old(self).mem(),
            final(self).conventional() == old(self).conventional(),
            final(self).descriptors() == old(self).descriptors(),
            final(self).flags().len() == ADDRESS_SPACE,
            forall|a: int|
                0 <= a < ADDRESS_SPACE ==> #[trigger] final(self).flags()[a] == (if is_checkpoint(
                    checkpoints@,
                    a,
                ) {
                    old(self).flags()[a] | MEM_CP_BIT
                } else {
                    old(self).flags()[a]
                }),
    {
        let n = checkpoints.len();
        let mut i: usize = 0;
        while i < n
            invariant
                i <= n,
                n == checkpoints@.len(),
                self.same_but_memory(*old(self)),
                self.memory == old(self).memory,
                self.conventional_size == old(self).conventional_size,
                self.desc_vec == old(self).desc_vec,
                self.memory_mask@.len() == ADDRESS_SPACE,
                forall|a: int|
                    0 <= a < ADDRESS_SPACE ==> #[trigger] self.memory_mask@[a] == (if is_checkpoint(
                        checkpoints@.subrange(0, i as int),
                        a,
                    ) {
                        old(self).memory_mask@[a] | MEM_CP_BIT
                    } else {
                        old(self).memory_mask@[a]
                    }),
            decreases n - i,
        {
            let address = (checkpoints[i].addr as usize) % ADDRESS_SPACE;
            let current = self.memory_mask[address];
            let ghost before = self.memory_mask@;
            self.memory_mask[address] = current | MEM_CP_BIT;
            proof {
                let done = checkpoints@.subrange(0, i as int);
                let next = checkpoints@.subrange(0, i + 1);
                let fresh = old(self).memory_mask@[address as int];
                assert(next[i as int] == checkpoints@[i as int]);
                assert(next[i as int].flat() == address);
                assert((fresh | MEM_CP_BIT) | MEM_CP_BIT == fresh | MEM_CP_BIT) by (bit_vector);
                assert forall|a: int| 0 <= a < ADDRESS_SPACE implies #[trigger] self.memory_mask@[a]
                    == (if is_checkpoint(next, a) {
                    old(self).memory_mask@[a] | MEM_CP_BIT
                } else {
                    old(self).memory_mask@[a]
                }) by {
                    assert(before[a] == (if is_checkpoint(done, a) {
                        old(self).memory_mask@[a] | MEM_CP_BIT
                    } else {
                        old(self).memory_mask@[a]
                    }));
                    if is_checkpoint(done, a) {
                        let k = choose|k: int| 0 <= k < done.len() && (#[trigger] done[k]).flat() == a;
                        assert(next[k] == done[k]);
                        assert(is_checkpoint(next, a));
                    }
                    if a == address {
                        assert(is_checkpoint(next, a));
                    } else if is_checkpoint(next, a) {
                        let k = choose|k: int| 0 <= k < next.len() && (#[trigger] next[k]).flat() == a;
                        assert(k < i);
                        assert(done[k] == next[k]);
                        assert(is_checkpoint(done, a));
                    }
                }
            }
            i += 1;
        }
        proof {
            assert(checkpoints@.subrange(0, n as int) =~= checkpoints@);
            assert forall|a: int| 0 <= a < ADDRESS_SPACE implies has_flag(
                #[trigger] self.memory_mask@[a],
                MEM_MMIO_BIT,
            ) == has_flag(old(self).memory_mask@[a], MEM_MMIO_BIT) by {
                lemma_set_bit(old(self).memory_mask@[a]);
            }
            Self::lemma_wf_after_memory_change(*old(self), *self);
        }
    }

    /// Removes the checkpoint flag from every address.
    pub fn clear_checkpoints(&mut self)
        requires
            old(self).wf(),
        ensures
            final(self).wf(),
            final(self).same_but_memory(*old(self)),
            final(self).mem() == old(self).mem(),
            final(self).conventional() == old(self).conventional(),
            final(self).descriptors() == old(self).descriptors(),
            final(self).flags() == flags_removed(old(self).flags(), MEM_CP_BIT),
    {
        remove_bits_everywhere(&mut self.memory_mask, MEM_CP_BIT);
        proof {
            assert forall|a: int| 0 <= a < ADDRESS_SPACE implies has_flag(
                #[trigger] self.memory_mask@[a],
                MEM_MMIO_BIT,
            ) == has_flag(old(self).memory_mask@[a], MEM_MMIO_BIT) by {
                lemma_clear_bit(old(self).memory_mask@[a]);
            }
            Self::lemma_wf_after_memory_change(*old(self), *self);
        }
    }

    /// Registers a memory-mapped range for a device. The range must be a
    /// whole number of buckets long and lie inside the address space. It is
    /// flagged memory-mapped byte by byte, its buckets of the coarse map name
    /// the device, and it joins the list of registrations.
    pub fn register_map(&mut self, device: MmioDeviceType, mem_descriptor: MemRangeDescriptor)
        requires
            old(self).wf(),
            registrable(mem_descriptor),
        ensures
            final(self).wf(),
            final(self).mmio_ranges() == old(self).mmio_ranges().push((mem_descriptor, device)),
            final(self).flags() == flags_added(
                old(self).flags(),
                mem_descriptor.address as int,
                mem_descriptor.address + mem_descriptor.size,
                MEM_MMIO_BIT,
            ),
            final(self).mmio_buckets() == buckets_filled(
                old(self).mmio_buckets(),
                mem_descriptor,
                device,
            ),
            final(self).mmio_bounds() == old(self).mmio_bounds().widened(
                mem_descriptor.address,
                mem_descriptor.size,
            ),
            final(self).mem() == old(self).mem(),
            final(self).conventional() == old(self).conventional(),
            final(self).descriptors() == old(self).descriptors(),
            final(self).queue_cursor() == old(self).queue_cursor(),
            final(self).io_ports() == old(self).io_ports(),
            final(self).same_devices(*old(self)),
            final(self).same_clock(*old(self)),
            final(self).same_schedule(*old(self)),
    {
        let end = mem_descriptor.address + mem_descriptor.size;
        self.mmio_data.widen(mem_descriptor.address, mem_descriptor.size);
        add_bits_in_range(&mut self.memory_mask, mem_descriptor.address, end, MEM_MMIO_BIT);
        fill_buckets(&mut self.mmio_map_fast, mem_descriptor, device);
        self.mmio_map.push((mem_descriptor, device));
        proof {
            let pre = old(self).mmio_map@;
            let post = self.mmio_map@;
            let last = pre.len() as int;
            assert(post[last] == (mem_descriptor, device));
            assert forall|i: int| 0 <= i < post.len() implies registrable((#[trigger] post[i]).0) by {
                if i < last {
                    assert(post[i] == pre[i]);
                }
            }
            assert forall|a: int| 0 <= a < ADDRESS_SPACE implies (has_flag(
                #[trigger] self.memory_mask@[a],
                MEM_MMIO_BIT,
            ) <==> covered_by(post, a)) by {
                lemma_set_bit(old(self).memory_mask@[a]);
                assert(has_flag(old(self).memory_mask@[a], MEM_MMIO_BIT) <==> covered_by(pre, a));
                if covered_by(pre, a) {
                    let i = choose|i: int| 0 <= i < pre.len() && (#[trigger] pre[i]).0.covers(a);
                    assert(post[i] == pre[i]);
                    assert(covered_by(post, a));
                }
                if mem_descriptor.covers(a) {
                    assert(post[last].0.covers(a));
                    assert(covered_by(post, a));
                } else if covered_by(post, a) {
                    let i = choose|i: int| 0 <= i < post.len() && (#[trigger] post[i]).0.covers(a);
                    assert(i < last);
                    assert(pre[i] == post[i]);
                    assert(covered_by(pre, a));
                }
            }
        }
    }

    /// Copies `src` into memory from `location` on, whatever is mapped there,
    /// and records the range. With `read_only` the bytes are flagged ROM.
    /// Fails with `Err(false)`, changing nothing, if the bytes do not fit the
    /// address space.
    pub fn copy_from(&mut self, src: &[u8], location: usize, cycle_cost: u32, read_only: bool) -> (r:
        Result<(), bool>)
        requires
            old(self).wf(),
        ensures
            final(self).wf(),
            final(self).same_but_memory(*old(self)),
            final(self).conventional() == old(self).conventional(),
            location + src@.len() > ADDRESS_SPACE ==> {
                &&& r == Err::<(), bool>(false)
                &&& *final(self) == *old(self)
            },
            location + src@.len() <= ADDRESS_SPACE ==> {
                &&& r == Ok::<(), bool>(())
                &&& final(self).mem() == overlay(old(self).mem(), location as int, src@)
                &&& final(self).flags() == (if read_only {
                    flags_added(old(self).flags(), location as int, location + src@.len(), MEM_ROM_BIT)
                } else {
                    old(self).flags()
                })
                &&& final(self).descriptors() == old(self).descriptors().push(
                    MemRangeDescriptor { address: location, size: src@.len() as usize, cycle_cost, read_only },
                )
            },
    {
        let src_size = src.len();
        if location > ADDRESS_SPACE || src_size > ADDRESS_SPACE - location {
            return Err(false);
        }
        copy_bytes(&mut self.memory, location, src);
        if read_only {
            add_bits_in_range(&mut self.memory_mask, location, location + src_size, MEM_ROM_BIT);
        }
        self.desc_vec.push(MemRangeDescriptor { address: location, size: src_size, cycle_cost, read_only });
        proof {
            assert forall|a: int| 0 <= a < ADDRESS_SPACE implies has_flag(
                #[trigger] self.memory_mask@[a],
                MEM_MMIO_BIT,
            ) == has_flag(old(self).memory_mask@[a], MEM_MMIO_BIT) by {
                lemma_set_bit(old(self).memory_mask@[a]);
            }
            Self::lemma_wf_after_memory_change(*old(self), *self);
        }
        Ok(())
    }

    /// Writes `src_vec` into memory from `location` on, whatever is mapped
    /// there. Fails with `Err(false)`, changing nothing, if the bytes do not
    /// fit the address space.
    pub fn patch_from(&mut self, src_vec: &Vec<u8>, location: usize) -> (r: Result<(), bool>)
        requires
            old(self).wf(),
        ensures
            final(self).wf(),
            final(self).same_but_memory(*old(self)),
            final(self).conventional() == old(self).conventional(),
            final(self).flags() == old(self).flags(),
            final(self).descriptors() == old(self).descriptors(),
            location + src_vec@.len() > ADDRESS_SPACE ==> {
                &&& r == Err::<(), bool>(false)
                &&& *final(self) == *old(self)
            },
            location + src_vec@.len() <= ADDRESS_SPACE ==> {
                &&& r == Ok::<(), bool>(())
                &&& final(self).mem() == overlay(old(self).mem(), location as int, src_vec@)
            },
    {
        let src_size = src_vec.len();
        if location > ADDRESS_SPACE || src_size > ADDRESS_SPACE - location {
            return Err(false);
        }
        copy_bytes(&mut self.memory, location, src_vec.as_slice());
        proof {
            Self::lemma_wf_after_memory_change(*old(self), *self);
        }
        Ok(())
    }

    /// The `len` bytes of memory from `start` on, whatever is mapped there.
    pub fn get_vec_at(&self, start: usize, len: usize) -> (bytes: Vec<u8>)
        requires
            self.wf(),
            start + len <= ADDRESS_SPACE,
        ensures
            bytes@ == self.mem().subrange(start as int, start + len),
    {
        let mut bytes: Vec<u8> = Vec::with_capacity(len);
        let mut i: usize = 0;
        while i < len
            invariant
                i <= len,
                start + len <= ADDRESS_SPACE,
                self.memory@.len() == ADDRESS_SPACE,
                bytes@ == self.memory@.subrange(start as int, start + i),
            decreases len - i,
        {
            bytes.push(self.memory[start + i]);
            assert(bytes@ =~= self.memory@.subrange(start as int, start + i + 1));
            i += 1;
        }
        bytes
    }

    /// Records a memory range.
    pub fn set_descriptor(&mut self, start: usize, size: usize, cycle_cost: u32, read_only: bool)
        requires
            old(self).wf(),
        ensures
            final(self).wf(),
            final(self).same_but_memory(*old(self)),
            final(self).mem() == old(self).mem(),
            final(self).flags() == old(self).flags(),
            final(self).conventional() == old(self).conventional(),
            final(self).descriptors() == old(self).descriptors().push(
                MemRangeDescriptor { address: start, size, cycle_cost, read_only },
            ),
    {
        self.desc_vec.push(MemRangeDescriptor { address: start, size, cycle_cost, read_only });
    }

    /// Sets every byte of memory to zero and removes the return-address flag
    /// everywhere. Mappings and devices stay.
    pub fn clear(&mut self)
        requires
            old(self).wf(),
        ensures
            final(self).wf(),
            final(self).same_but_memory(*old(self)),
            final(self).conventional() == old(self).conventional(),
            final(self).descriptors() == old(self).descriptors(),
            final(self).mem() == Seq::new(ADDRESS_SPACE as nat, |a: int| 0u8),
            final(self).flags() == flags_removed(old(self).flags(), MEM_RET_BIT),
    {
        remove_bits_everywhere(&mut self.memory_mask, MEM_RET_BIT);
        fill_bytes(&mut self.memory, 0);
        proof {
            assert forall|a: int| 0 <= a < ADDRESS_SPACE implies has_flag(
                #[trigger] self.memory_mask@[a],
                MEM_MMIO_BIT,
            ) == has_flag(old(self).memory_mask@[a], MEM_MMIO_BIT) by {
                lemma_clear_bit(old(self).memory_mask@[a]);
            }
            Self::lemma_wf_after_memory_change(*old(self), *self);
        }
    }

    /// Clears memory as [`clear`](Self::clear) does and forgets the recorded
    /// memory ranges. Mappings and devices stay.
    pub fn reset(&mut self)
        requires
            old(self).wf(),
        ensures
            final(self).wf(),
            final(self).same_but_memory(*old(self)),
            final(self).conventional() == old(self).conventional(),
            final(self).descriptors() == Seq::<MemRangeDescriptor>::empty(),
            final(self).mem() == Seq::new(ADDRESS_SPACE as nat, |a: int| 0u8),
            final(self).flags() == flags_removed(old(self).flags(), MEM_RET_BIT),
    {
        self.desc_vec.clear();
        self.clear();
    }

    /// Changes the clock factor and rebuilds both timing tables for it.
    pub fn set_cpu_factor(&mut self, cpu_factor: ClockFactor)
        requires
            old(self).wf(),
            cpu_factor.valid(),
        ensures
            final(self).wf(),
            final(self).factor() == cpu_factor,
            final(self).crystal() == old(self).crystal(),
            final(self).descriptor() == old(self).descriptor(),
            final(self).same_memory(*old(self)),
            final(self).same_devices(*old(self)),
            final(self).same_maps(*old(self)),
            final(self).same_schedule(*old(self)),
    {
        update_timing_table(&mut self.timing_table, cpu_factor, self.crystal_hz);
        self.cycles_to_ticks = build_cycle_lut(cpu_factor);
        self.cpu_factor = cpu_factor;
    }

    /// Rebuilds the table from CPU cycles to system ticks for the clock
    /// factor in force: row `c` holds the ticks for `c` cycles. On a
    /// well-formed bus these are the rows that the table held already.
    pub fn recalculate_cycle_lut(&mut self)
        requires
            old(self).wf(),
        ensures
            final(self).wf(),
            cycle_lut_matches(final(self).cycle_lut(), old(self).factor()),
            final(self).cycle_lut() == old(self).cycle_lut(),
            timing_table_matches(final(self).timing_rows(), old(self).factor(), old(self).crystal() as int),
            final(self).timing_rows() == old(self).timing_rows(),
            final(self).factor() == old(self).factor(),
            final(self).crystal() == old(self).crystal(),
            final(self).descriptor() == old(self).descriptor(),
            final(self).same_memory(*old(self)),
            final(self).same_devices(*old(self)),
            final(self).same_maps(*old(self)),
            final(self).same_schedule(*old(self)),
    {
        let ghost before = self.cycles_to_ticks@;
        self.cycles_to_ticks = build_cycle_lut(self.cpu_factor);
        assert(self.cycles_to_ticks@ =~= before);
    }

    /// The flags of an address. An address beyond the address space has
    /// none.
    pub fn get_flags(&self, address: usize) -> (flags: u8)
        requires
            self.wf(),
        ensures
            flags == (if address < ADDRESS_SPACE {
                self.flags()[address as int]
            } else {
                0u8
            }),
    {
        if address < self.memory.len() {
            self.memory_mask[address]
        } else {
            0
        }
    }

    /// Adds flags to an address. The MMIO flag is not among those that can be
    /// added, and an address beyond the address space takes none.
    pub fn set_flags(&mut self, address: usize, flags: u8)
        requires
            old(self).wf(),
        ensures
            final(self).wf(),
            final(self).same_but_memory(*old(self)),
            final(self).mem() == old(self).mem(),
            final(self).conventional() == old(self).conventional(),
            final(self).descriptors() == old(self).descriptors(),
            final(self).flags() == (if address < ADDRESS_SPACE {
                old(self).flags().update(
                    address as int,
                    with_flags(old(self).flags()[address as int], flags),
                )
            } else {
                old(self).flags()
            }),
    {
        if address < self.memory.len() {
            let updated = add_flags(self.memory_mask[address], flags);
            self.memory_mask[address] = updated;
            proof {
                Self::lemma_wf_after_memory_change(*old(self), *self);
            }
        }
    }

    /// Removes flags from an address. The ROM and MMIO flags are not among
    /// those that can be removed.
    pub fn clear_flags(&mut self, address: usize, flags: u8)
        requires
            old(self).wf(),
        ensures
            final(self).wf(),
            final(self).same_but_memory(*old(self)),
            final(self).mem() == old(self).mem(),
            final(self).conventional() == old(self).conventional(),
            final(self).descriptors() == old(self).descriptors(),
            final(self).flags() == (if address < ADDRESS_SPACE {
                old(self).flags().update(
                    address as int,
                    without_flags(old(self).flags()[address as int], flags),
                )
            } else {
                old(self).flags()
            }),
    {
        if address < self.memory.len() {
            let updated = remove_flags(self.memory_mask[address], flags);
            self.memory_mask[address] = updated;
            proof {
                Self::lemma_wf_after_memory_change(*old(self), *self);
            }
        }
    }

    /// Puts the timing workarounds in or out of use. Out of use, none is
    /// armed.
    pub fn set_timing_workarounds(&mut self, enabled: bool)
        requires
            old(self).wf(),
        ensures
            final(self).wf(),
            final(self).workarounds_enabled() == enabled,
            final(self).same_memory(*old(self)),
            final(self).same_devices(*old(self)),
            final(self).same_maps(*old(self)),
            final(self).same_clock(*old(self)),
            final(self).pit_advance() == old(self).pit_advance(),
    {
        self.timer_triggers_enabled = enabled;
        if !enabled {
            self.timer_trigger1_armed = false;
            self.timer_trigger2_armed = false;
        }
    }

    /// Owes the timer `ticks` system ticks more, to be paid when the devices
    /// next run.
    pub fn adjust_pit(&mut self, ticks: u32)
        requires
            old(self).wf(),
            old(self).pit_advance() + ticks <= u32::MAX,
        ensures
            final(self).wf(),
            final(self).pit_advance() == old(self).pit_advance() + ticks,
            final(self).same_memory(*old(self)),
            final(self).same_devices(*old(self)),
            final(self).same_maps(*old(self)),
            final(self).same_clock(*old(self)),
    {
        self.pit_ticks_advance += ticks;
    }

    /// The size of conventional memory.
    pub fn conventional_size(&self) -> (size: usize)
        ensures
            size == self.conventional(),
    {
        self.conventional_size
    }

    /// Sets the size of conventional memory.
    pub fn set_conventional_size(&mut self, size: usize)
        requires
            old(self).wf(),
        ensures
            final(self).wf(),
            *final(self) == old(self).resized(size),
            final(self).conventional() == size,
            final(self).mem() == old(self).mem(),
            final(self).flags() == old(self).flags(),
            final(self).descriptors() == old(self).descriptors(),
            final(self).queue_cursor() == old(self).queue_cursor(),
            final(self).same_but_memory(*old(self)),
    {
        self.conventional_size = size;
    }

    /// The size of the address space.
    pub fn size(&self) -> (size: usize)
        requires
            self.wf(),
        ensures
            size == ADDRESS_SPACE,
    {
        self.memory.len()
    }
}

impl<D: DeviceSet> Default for BusInterface<D> {
    /// A bus without devices, clocked at a third of the default crystal, with
    /// memory that nothing has written yet.
    fn default() -> (bus: BusInterface<D>)
        ensures
            bus.wf(),
            bus.factor() == ClockFactor::Divisor(3),
            bus.crystal() == DEFAULT_SYSTEM_CRYSTAL,
            bus.conventional() == ADDRESS_SPACE,
            bus.mem() == Seq::new(ADDRESS_SPACE as nat, |a: int| OPEN_BUS_BYTE),
            bus.flags() == Seq::new(ADDRESS_SPACE as nat, |a: int| 0u8),
            bus.mmio_ranges().len() == 0,
            bus.descriptors().len() == 0,
            bus.io_ports() == Map::<u16, IoDeviceType>::empty(),
            bus.cards().len() == 0,
            bus.bare(),
            bus.keyboard_model() == KeyboardType::ModelF,
    {
        let cpu_factor = ClockFactor::Divisor(3);
        let mut timing_table = vec![
            TimingTableEntry { sys_ticks: 0, us: Microseconds { millionths: 0 } };
            TIMING_TABLE_LEN
        ];
        update_timing_table(&mut timing_table, cpu_factor, DEFAULT_SYSTEM_CRYSTAL);
        let bus = BusInterface {
            cpu_factor,
            crystal_hz: DEFAULT_SYSTEM_CRYSTAL,
            timing_table,
            machine_desc: None,
            keyboard_type: KeyboardType::ModelF,
            keyboard: None,
            conventional_size: ADDRESS_SPACE,
            memory: vec![OPEN_BUS_BYTE; ADDRESS_SPACE],
            memory_mask: vec![0u8; ADDRESS_SPACE],
            desc_vec: Vec::new(),
            mmio_map: Vec::new(),
            mmio_map_fast: vec![MmioDeviceType::Memory; MMIO_MAP_LEN],
            mmio_data: MmioData::new(),
            cursor: 0,
            io_map: HashMap::new(),
            ppi: None,
            pit: None,
            dma_counter: 0,
            dma1: None,
            dma2: None,
            pic1: None,
            pic2: None,
            serial: None,
            fdc: None,
            hdc: None,
            mouse: None,
            videocards: Vec::new(),
            videocard_ids: Vec::new(),
            cycles_to_ticks: build_cycle_lut(cpu_factor),
            pit_ticks_advance: 0,
            timer_triggers_enabled: true,
            timer_trigger1_armed: false,
            timer_trigger2_armed: false,
            cga_tick_accum: 0,
            kb_us_accum: Microseconds { millionths: 0 },
            refresh_active: false,
        };
        proof {
            assert(bus.mem() =~= Seq::new(ADDRESS_SPACE as nat, |a: int| OPEN_BUS_BYTE));
            assert(bus.flags() =~= Seq::new(ADDRESS_SPACE as nat, |a: int| 0u8));
            assert(bus.mmio_map_fast@ =~= Seq::new(MMIO_MAP_LEN as nat, |i: int| MmioDeviceType::Memory));
            assert(0u8 & MEM_MMIO_BIT == 0) by (bit_vector);
            assert forall|a: int| 0 <= a < ADDRESS_SPACE implies (has_flag(
                #[trigger] bus.memory_mask@[a],
                MEM_MMIO_BIT,
            ) <==> covered_by(bus.mmio_map@, a)) by {}
        }
        bus
    }
}

} // verus!
