//! The address space and its per-byte flags.
//!
//! Every byte of the address space has a flag byte beside it. Two of its bits
//! are protected: the ROM bit can be set but never cleared, and the MMIO bit
//! belongs to the registration of memory-mapped ranges and cannot be set or
//! cleared through the flag interface.
use vstd::prelude::*;

verus! {

/// The byte read from an unconnected I/O port.
pub const NO_IO_BYTE: u8 = 0xFF;

/// The byte that fills memory which nothing has written yet.
pub const OPEN_BUS_BYTE: u8 = 0xFF;

/// Size of the physical address space in bytes.
pub const ADDRESS_SPACE: usize = 0x10_0000;

/// Wait states charged for an access to plain memory.
pub const DEFAULT_WAIT_STATES: u32 = 0;

/// The address is read-only memory.
pub const MEM_ROM_BIT: u8 = 0b1000_0000;

/// The address is the return address of a call or interrupt.
pub const MEM_RET_BIT: u8 = 0b0100_0000;

/// A breakpoint on execution is set at the address.
pub const MEM_BPE_BIT: u8 = 0b0010_0000;

/// A breakpoint on access is set at the address.
pub const MEM_BPA_BIT: u8 = 0b0001_0000;

/// The address is a ROM checkpoint.
pub const MEM_CP_BIT: u8 = 0b0000_1000;

/// The address lies in a registered memory-mapped range.
pub const MEM_MMIO_BIT: u8 = 0b0000_0100;

/// The bits that `set_flags` can set: all but the MMIO bit.
pub const MEM_SETTABLE_BITS: u8 = 0b1111_1011;

/// The bits that `clear_flags` can clear: all but the ROM and MMIO bits.
pub const MEM_CLEARABLE_BITS: u8 = 0b0111_1011;

/// Why a memory access failed.
#[derive(Copy, Clone, Debug, PartialEq, Eq, Structural)]
pub enum MemError {
    /// The access reaches beyond the address space.
    ReadOutOfBoundsError,
    /// The address is memory-mapped to a device that is not installed.
    MmioError,
}

/// A range of the address space with its wait-state cost and access mode. The
/// bus keeps these records for inspection; they take no part in dispatch.
#[derive(Copy, Clone, Debug, PartialEq, Eq, Structural)]
pub struct MemRangeDescriptor {
    pub address: usize,
    pub size: usize,
    pub cycle_cost: u32,
    pub read_only: bool,
}

impl MemRangeDescriptor {
    /// A range without wait-state cost.
    pub fn new(address: usize, size: usize, read_only: bool) -> (d: MemRangeDescriptor)
        ensures
            d == (MemRangeDescriptor { address, size, cycle_cost: 0, read_only }),
    {
        MemRangeDescriptor { address, size, cycle_cost: 0, read_only }
    }

    /// The range holds the address `a`.
    pub open spec fn covers(self, a: int) -> bool {
        self.address <= a < self.address + self.size
    }

    /// The range lies inside the address space.
    pub open spec fn in_address_space(self) -> bool {
        self.address + self.size <= ADDRESS_SPACE
    }
}

/// The flag byte `flags` has the bit `bit` set.
pub open spec fn has_flag(flags: u8, bit: u8) -> bool {
    flags & bit != 0
}

/// The flag byte after `set_flags`: the requested bits are added, the MMIO bit
/// excepted.
pub open spec fn with_flags(current: u8, flags: u8) -> u8 {
    current | (flags & MEM_SETTABLE_BITS)
}

/// The flag byte after `clear_flags`: the requested bits are removed, the ROM
/// and MMIO bits excepted.
pub open spec fn without_flags(current: u8, flags: u8) -> u8 {
    current & !(flags & MEM_CLEARABLE_BITS)
}

/// Adds flags to a flag byte.
pub fn add_flags(current: u8, flags: u8) -> (r: u8)
    ensures
        r == with_flags(current, flags),
        has_flag(r, MEM_MMIO_BIT) == has_flag(current, MEM_MMIO_BIT),
        has_flag(current, MEM_ROM_BIT) ==> has_flag(r, MEM_ROM_BIT),
{
    proof {
        lemma_with_flags(current, flags);
    }
    current | (flags & MEM_SETTABLE_BITS)
}

/// Removes flags from a flag byte.
pub fn remove_flags(current: u8, flags: u8) -> (r: u8)
    ensures
        r == without_flags(current, flags),
        has_flag(r, MEM_MMIO_BIT) == has_flag(current, MEM_MMIO_BIT),
        has_flag(r, MEM_ROM_BIT) == has_flag(current, MEM_ROM_BIT),
{
    proof {
        lemma_without_flags(current, flags);
    }
    current & !(flags & MEM_CLEARABLE_BITS)
}

/// Setting flags leaves the MMIO bit as it was and never removes the ROM bit;
/// every other requested bit is set afterwards.
pub proof fn lemma_with_flags(current: u8, flags: u8)
    ensures
        has_flag(with_flags(current, flags), MEM_MMIO_BIT) == has_flag(current, MEM_MMIO_BIT),
        has_flag(current, MEM_ROM_BIT) ==> has_flag(with_flags(current, flags), MEM_ROM_BIT),
        with_flags(current, flags) & (flags & MEM_SETTABLE_BITS) == flags & MEM_SETTABLE_BITS,
{
    assert(((current | (flags & 0b1111_1011u8)) & 0b0000_0100u8 != 0) == (current & 0b0000_0100u8
        != 0)) by (bit_vector);
    assert((current & 0b1000_0000u8 != 0) ==> ((current | (flags & 0b1111_1011u8)) & 0b1000_0000u8
        != 0)) by (bit_vector);
    assert((current | (flags & 0b1111_1011u8)) & (flags & 0b1111_1011u8) == flags & 0b1111_1011u8)
        by (bit_vector);
}

/// Clearing flags leaves the ROM and MMIO bits as they were; every other
/// requested bit is clear afterwards.
pub proof fn lemma_without_flags(current: u8, flags: u8)
    ensures
        has_flag(without_flags(current, flags), MEM_MMIO_BIT) == has_flag(current, MEM_MMIO_BIT),
        has_flag(without_flags(current, flags), MEM_ROM_BIT) == has_flag(current, MEM_ROM_BIT),
        without_flags(current, flags) & (flags & MEM_CLEARABLE_BITS) == 0,
{
    assert(((current & !(flags & 0b0111_1011u8)) & 0b0000_0100u8 != 0) == (current & 0b0000_0100u8
        != 0)) by (bit_vector);
    assert(((current & !(flags & 0b0111_1011u8)) & 0b1000_0000u8 != 0) == (current & 0b1000_0000u8
        != 0)) by (bit_vector);
    assert((current & !(flags & 0b0111_1011u8)) & (flags & 0b0111_1011u8) == 0) by (bit_vector);
}

/// Setting one of the bits ROM, checkpoint or MMIO sets that bit and leaves
/// the other two as they were.
pub proof fn lemma_set_bit(current: u8)
    ensures
        has_flag(current | MEM_MMIO_BIT, MEM_MMIO_BIT),
        has_flag(current | MEM_MMIO_BIT, MEM_ROM_BIT) == has_flag(current, MEM_ROM_BIT),
        has_flag(current | MEM_ROM_BIT, MEM_ROM_BIT),
        has_flag(current | MEM_ROM_BIT, MEM_MMIO_BIT) == has_flag(current, MEM_MMIO_BIT),
        has_flag(current | MEM_CP_BIT, MEM_CP_BIT),
        has_flag(current | MEM_CP_BIT, MEM_MMIO_BIT) == has_flag(current, MEM_MMIO_BIT),
        has_flag(current | MEM_CP_BIT, MEM_ROM_BIT) == has_flag(current, MEM_ROM_BIT),
{
    assert((current | 0b0000_0100u8) & 0b0000_0100u8 != 0) by (bit_vector);
    assert(((current | 0b0000_0100u8) & 0b1000_0000u8 != 0) == (current & 0b1000_0000u8 != 0))
        by (bit_vector);
    assert((current | 0b1000_0000u8) & 0b1000_0000u8 != 0) by (bit_vector);
    assert(((current | 0b1000_0000u8) & 0b0000_0100u8 != 0) == (current & 0b0000_0100u8 != 0))
        by (bit_vector);
    assert((current | 0b0000_1000u8) & 0b0000_1000u8 != 0) by (bit_vector);
    assert(((current | 0b0000_1000u8) & 0b0000_0100u8 != 0) == (current & 0b0000_0100u8 != 0))
        by (bit_vector);
    assert(((current | 0b0000_1000u8) & 0b1000_0000u8 != 0) == (current & 0b1000_0000u8 != 0))
        by (bit_vector);
}

/// Clearing the checkpoint bit or the return-address bit clears it and leaves
/// the ROM and MMIO bits as they were.
pub proof fn lemma_clear_bit(current: u8)
    ensures
        !has_flag(current & !MEM_CP_BIT, MEM_CP_BIT),
        has_flag(current & !MEM_CP_BIT, MEM_MMIO_BIT) == has_flag(current, MEM_MMIO_BIT),
        has_flag(current & !MEM_CP_BIT, MEM_ROM_BIT) == has_flag(current, MEM_ROM_BIT),
        !has_flag(current & !MEM_RET_BIT, MEM_RET_BIT),
        has_flag(current & !MEM_RET_BIT, MEM_MMIO_BIT) == has_flag(current, MEM_MMIO_BIT),
        has_flag(current & !MEM_RET_BIT, MEM_ROM_BIT) == has_flag(current, MEM_ROM_BIT),
{
    assert((current & !0b0000_1000u8) & 0b0000_1000u8 == 0) by (bit_vector);
    assert(((current & !0b0000_1000u8) & 0b0000_0100u8 != 0) == (current & 0b0000_0100u8 != 0))
        by (bit_vector);
    assert(((current & !0b0000_1000u8) & 0b1000_0000u8 != 0) == (current & 0b1000_0000u8 != 0))
        by (bit_vector);
    assert((current & !0b0100_0000u8) & 0b0100_0000u8 == 0) by (bit_vector);
    assert(((current & !0b0100_0000u8) & 0b0000_0100u8 != 0) == (current & 0b0000_0100u8 != 0))
        by (bit_vector);
    assert(((current & !0b0100_0000u8) & 0b1000_0000u8 != 0) == (current & 0b1000_0000u8 != 0))
        by (bit_vector);
}

/// Memory with the bytes `src` laid over it from `location` on.
pub open spec fn overlay(mem: Seq<u8>, location: int, src: Seq<u8>) -> Seq<u8> {
    Seq::new(
        mem.len(),
        |a: int|
            if location <= a < location + src.len() {
                src[a - location]
            } else {
                mem[a]
            },
    )
}

/// Flag bytes with `bits` added to every byte from `start` up to `end`.
pub open spec fn flags_added(flags: Seq<u8>, start: int, end: int, bits: u8) -> Seq<u8> {
    Seq::new(
        flags.len(),
        |a: int|
            if start <= a < end {
                flags[a] | bits
            } else {
                flags[a]
            },
    )
}

/// Flag bytes with `bits` removed from every byte.
pub open spec fn flags_removed(flags: Seq<u8>, bits: u8) -> Seq<u8> {
    Seq::new(flags.len(), |a: int| flags[a] & !bits)
}

/// Copies `src` into memory from `location` on.
pub fn copy_bytes(mem: &mut Vec<u8>, location: usize, src: &[u8])
    requires
        location + src@.len() <= old(mem)@.len(),
    ensures
        final(mem)@ == overlay(old(mem)@, location as int, src@),
{
    let n = src.len();
    let total = mem.len();
    let mut i: usize = 0;
    while i < n
        invariant
            i <= n,
            n == src@.len(),
            total == mem@.len(),
            location + n <= total,
            mem@.len() == old(mem)@.len(),
            forall|a: int|
                0 <= a < mem@.len() ==> #[trigger] mem@[a] == (if location <= a < location + i {
                    src@[a - location]
                } else {
                    old(mem)@[a]
                }),
        decreases n - i,
    {
        mem[location + i] = src[i];
        i += 1;
    }
    assert(mem@ =~= overlay(old(mem)@, location as int, src@));
}

/// Sets every byte of memory to `value`.
pub fn fill_bytes(mem: &mut Vec<u8>, value: u8)
    ensures
        final(mem)@ == Seq::new(old(mem)@.len(), |a: int| value),
{
    let n = mem.len();
    let mut i: usize = 0;
    while i < n
        invariant
            i <= n,
            n == mem@.len(),
            mem@.len() == old(mem)@.len(),
            forall|a: int| 0 <= a < i ==> #[trigger] mem@[a] == value,
        decreases n - i,
    {
        mem[i] = value;
        i += 1;
    }
    assert(mem@ =~= Seq::new(old(mem)@.len(), |a: int| value));
}

/// Adds `bits` to every flag byte from `start` up to `end`.
pub fn add_bits_in_range(flags: &mut Vec<u8>, start: usize, end: usize, bits: u8)
    requires
        start <= end <= old(flags)@.len(),
    ensures
        final(flags)@ == flags_added(old(flags)@, start as int, end as int, bits),
{
    let mut i: usize = start;
    while i < end
        invariant
            start <= i <= end,
            end <= flags@.len(),
            flags@.len() == old(flags)@.len(),
            forall|a: int|
                0 <= a < flags@.len() ==> #[trigger] flags@[a] == (if start <= a < i {
                    old(flags)@[a] | bits
                } else {
                    old(flags)@[a]
                }),
        decreases end - i,
    {
        let current = flags[i];
        flags[i] = current | bits;
        i += 1;
    }
    assert(flags@ =~= flags_added(old(flags)@, start as int, end as int, bits));
}

/// Removes `bits` from every flag byte.
pub fn remove_bits_everywhere(flags: &mut Vec<u8>, bits: u8)
    ensures
        final(flags)@ == flags_removed(old(flags)@, bits),
{
    let n = flags.len();
    let mut i: usize = 0;
    while i < n
        invariant
            i <= n,
            n == flags@.len(),
            flags@.len() == old(flags)@.len(),
            forall|a: int|
                0 <= a < flags@.len() ==> #[trigger] flags@[a] == (if a < i {
                    old(flags)@[a] & !bits
                } else {
                    old(flags)@[a]
                }),
        decreases n - i,
    {
        let current = flags[i];
        flags[i] = current & !bits;
        i += 1;
    }
    assert(flags@ =~= flags_removed(old(flags)@, bits));
}

/// The low byte of a 16-bit word.
pub open spec fn low_byte(word: u16) -> u8 {
    (word & 0xFF) as u8
}

/// The high byte of a 16-bit word.
pub open spec fn high_byte(word: u16) -> u8 {
    (word >> 8) as u8
}

/// The 16-bit word with the given low and high bytes.
pub open spec fn word_of(low: u8, high: u8) -> u16 {
    (low as u16) | ((high as u16) << 8)
}

/// Splitting a word into bytes and joining them gives the word back, and the
/// other way round.
pub proof fn lemma_word_bytes(word: u16, low: u8, high: u8)
    ensures
        word_of(low_byte(word), high_byte(word)) == word,
        low_byte(word_of(low, high)) == low,
        high_byte(word_of(low, high)) == high,
        word_of(low, high) == low + 256 * high,
{
    assert((((word & 0xFF) as u8) as u16) | ((((word >> 8) as u8) as u16) << 8) == word)
        by (bit_vector);
    assert(((((low as u16) | ((high as u16) << 8)) & 0xFF) as u8) == low) by (bit_vector);
    assert(((((low as u16) | ((high as u16) << 8)) >> 8) as u8) == high) by (bit_vector);
    assert(((low as u16) | ((high as u16) << 8)) == low + 256 * high) by (bit_vector);
}

/// Splits a word into its low and high byte.
pub fn split_word(word: u16) -> (bytes: (u8, u8))
    ensures
        bytes.0 == low_byte(word),
        bytes.1 == high_byte(word),
{
    ((word & 0xFF) as u8, (word >> 8) as u8)
}

/// Joins a low and a high byte into a word.
pub fn join_word(low: u8, high: u8) -> (word: u16)
    ensures
        word == word_of(low, high),
{
    (low as u16) | ((high as u16) << 8)
}

} // verus!
