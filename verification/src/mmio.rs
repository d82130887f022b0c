//! The map of memory-mapped I/O.
//!
//! Memory-mapped ranges are looked up through a coarse map with one entry for
//! each bucket of [`MMIO_MAP_SIZE`] bytes. A registered range is a whole number
//! of buckets long, so that every bucket it fills names one device.
use vstd::prelude::*;
use crate::memory::{MemRangeDescriptor, ADDRESS_SPACE};

verus! {

/// Size of one bucket of the coarse map, in bytes.
pub const MMIO_MAP_SIZE: usize = 0x2000;

/// Number of address bits below the bucket number.
pub const MMIO_MAP_SHIFT: usize = 13;

/// Number of buckets in the address space.
pub const MMIO_MAP_LEN: usize = 128;

/// Where the monochrome adapter's memory starts.
pub const MDA_MEM_ADDRESS: usize = 0xB0000;

/// Length of the monochrome adapter's aperture.
pub const MDA_MEM_APERTURE: usize = 0x8000;

/// Where the colour adapter's memory starts.
pub const CGA_MEM_ADDRESS: usize = 0xB8000;

/// Length of the colour adapter's aperture.
pub const CGA_MEM_APERTURE: usize = 0x8000;

/// Where the enhanced adapter's graphics memory starts.
pub const EGA_MEM_ADDRESS: usize = 0xA0000;

/// Length of one graphics plane of the enhanced adapter.
pub const EGA_GFX_PLANE_SIZE: usize = 0x10000;

/// Where the VGA's graphics memory starts.
pub const VGA_GFX_ADDRESS: usize = 0xA0000;

/// Length of one graphics plane of the VGA.
pub const VGA_GFX_PLANE_SIZE: usize = 0x10000;

/// The kinds of video adapter.
#[derive(Copy, Clone, Debug, PartialEq, Eq, Structural)]
pub enum VideoType {
    MDA,
    CGA,
    EGA,
    VGA,
}

/// The identity of an installed video card: its position in the machine's
/// configuration and its kind.
#[derive(Copy, Clone, Debug, PartialEq, Eq, Structural)]
pub struct VideoCardId {
    pub idx: usize,
    pub vtype: VideoType,
}

/// What a bucket of the coarse map is mapped to.
#[derive(Copy, Clone, Debug, PartialEq, Eq, Structural)]
pub enum MmioDeviceType {
    Unmapped,
    Memory,
    Video(VideoCardId),
    Cga,
    Ega,
    Vga,
    Rom,
}

impl MmioDeviceType {
    /// The tag names a device, as opposed to plain memory.
    pub open spec fn claims_device(self) -> bool {
        match self {
            MmioDeviceType::Unmapped => false,
            MmioDeviceType::Memory => false,
            MmioDeviceType::Rom => false,
            MmioDeviceType::Video(_) => true,
            MmioDeviceType::Cga => true,
            MmioDeviceType::Ega => true,
            MmioDeviceType::Vga => true,
        }
    }

    /// Tells whether the tag names a device.
    pub fn is_device(&self) -> (r: bool)
        ensures
            r == self.claims_device(),
    {
        match self {
            MmioDeviceType::Unmapped => false,
            MmioDeviceType::Memory => false,
            MmioDeviceType::Rom => false,
            MmioDeviceType::Video(_) => true,
            MmioDeviceType::Cga => true,
            MmioDeviceType::Ega => true,
            MmioDeviceType::Vga => true,
        }
    }
}

/// The lowest and highest address that any registered range reaches.
#[derive(Copy, Clone, Debug, PartialEq, Eq, Structural)]
pub struct MmioData {
    pub first_map: usize,
    pub last_map: usize,
}

impl MmioData {
    /// The bounds before anything is registered: an empty interval.
    pub fn new() -> (d: MmioData)
        ensures
            d == (MmioData { first_map: 0xFFFFF, last_map: 0 }),
    {
        MmioData { first_map: 0xFFFFF, last_map: 0x00000 }
    }

    /// The bounds after a range from `address` of `size` bytes is registered.
    pub open spec fn widened(self, address: usize, size: usize) -> MmioData {
        MmioData {
            first_map: if address < self.first_map { address } else { self.first_map },
            last_map: if address + size > self.last_map { (address + size) as usize } else { self.last_map },
        }
    }

    /// Widens the bounds to hold a range from `address` of `size` bytes.
    pub fn widen(&mut self, address: usize, size: usize)
        requires
            address + size <= usize::MAX,
        ensures
            *final(self) == old(self).widened(address, size),
    {
        if address < self.first_map {
            self.first_map = address;
        }
        if address + size > self.last_map {
            self.last_map = address + size;
        }
    }
}

/// The bucket that holds an address.
pub open spec fn bucket_of(address: int) -> int {
    address / (MMIO_MAP_SIZE as int)
}

/// Computes the bucket that holds an address.
pub fn bucket_index(address: usize) -> (b: usize)
    ensures
        b == bucket_of(address as int),
        address < ADDRESS_SPACE ==> b < MMIO_MAP_LEN,
{
    address / MMIO_MAP_SIZE
}

/// A range can be registered: it is a whole number of buckets long and lies
/// inside the address space.
pub open spec fn registrable(d: MemRangeDescriptor) -> bool {
    &&& d.size % MMIO_MAP_SIZE == 0
    &&& d.address + d.size <= ADDRESS_SPACE
}

/// Tells whether a range can be registered as memory-mapped: whether it is a
/// whole number of buckets long and lies inside the address space.
pub fn can_register(d: &MemRangeDescriptor) -> (r: bool)
    ensures
        r == registrable(*d),
{
    d.size % MMIO_MAP_SIZE == 0 && d.address <= ADDRESS_SPACE && d.size <= ADDRESS_SPACE - d.address
}

/// The range fills the bucket `b` of the coarse map: buckets are counted from
/// the one that holds the range's first address.
pub open spec fn fills_bucket(d: MemRangeDescriptor, b: int) -> bool {
    bucket_of(d.address as int) <= b < bucket_of(d.address as int) + d.size / MMIO_MAP_SIZE
}

/// The buckets that a registrable range fills all lie in the coarse map.
pub proof fn lemma_filled_buckets_in_map(d: MemRangeDescriptor, b: int)
    requires
        registrable(d),
        fills_bucket(d, b),
    ensures
        0 <= b < MMIO_MAP_LEN,
{
    let a = d.address as int;
    let s = d.size as int;
    let k = s / 0x2000;
    assert(s == 0x2000 * k);
    assert(a / 0x2000 + k <= 128) by {
        assert((a + 0x2000 * k) / 0x2000 == a / 0x2000 + k) by {
            vstd::arithmetic::div_mod::lemma_div_multiples_vanish_fancy(k, a % 0x2000, 0x2000);
            vstd::arithmetic::div_mod::lemma_fundamental_div_mod(a, 0x2000);
            vstd::arithmetic::div_mod::lemma_div_plus_one(a, 0x2000);
            lemma_div_add_multiple(a, k);
        }
    }
}

/// Adding `k` buckets to an address adds `k` to its bucket number.
pub proof fn lemma_div_add_multiple(a: int, k: int)
    requires
        a >= 0,
        k >= 0,
    ensures
        (a + 0x2000 * k) / 0x2000 == a / 0x2000 + k,
    decreases k,
{
    if k > 0 {
        lemma_div_add_multiple(a, k - 1);
        assert(a + 0x2000 * k == (a + 0x2000 * (k - 1)) + 0x2000);
    }
}

/// The coarse map after a range is registered for a device: the buckets that
/// the range fills name the device, the others are as before.
pub open spec fn buckets_filled(
    buckets: Seq<MmioDeviceType>,
    d: MemRangeDescriptor,
    device: MmioDeviceType,
) -> Seq<MmioDeviceType> {
    Seq::new(
        buckets.len(),
        |b: int|
            if fills_bucket(d, b) {
                device
            } else {
                buckets[b]
            },
    )
}

/// Maps the buckets that a range fills to a device.
pub fn fill_buckets(buckets: &mut Vec<MmioDeviceType>, d: MemRangeDescriptor, device: MmioDeviceType)
    requires
        old(buckets)@.len() == MMIO_MAP_LEN,
        registrable(d),
    ensures
        final(buckets)@ == buckets_filled(old(buckets)@, d, device),
{
    let first = bucket_index(d.address);
    let count = d.size / MMIO_MAP_SIZE;
    let mut i: usize = 0;
    while i < count
        invariant
            i <= count,
            first == bucket_of(d.address as int),
            count == d.size / MMIO_MAP_SIZE,
            registrable(d),
            buckets@.len() == MMIO_MAP_LEN,
            forall|b: int|
                0 <= b < MMIO_MAP_LEN ==> #[trigger] buckets@[b] == (if first <= b < first + i {
                    device
                } else {
                    old(buckets)@[b]
                }),
        decreases count - i,
    {
        proof {
            lemma_filled_buckets_in_map(d, first + i);
        }
        buckets[first + i] = device;
        i += 1;
    }
    assert(buckets@ =~= buckets_filled(old(buckets)@, d, device));
}

/// The memory ranges that a video card of a kind answers to.
pub open spec fn apertures(vtype: VideoType) -> Seq<MemRangeDescriptor> {
    match vtype {
        VideoType::MDA => seq![
            MemRangeDescriptor {
                address: MDA_MEM_ADDRESS,
                size: MDA_MEM_APERTURE,
                cycle_cost: 0,
                read_only: false,
            },
        ],
        VideoType::CGA => seq![
            MemRangeDescriptor {
                address: CGA_MEM_ADDRESS,
                size: CGA_MEM_APERTURE,
                cycle_cost: 0,
                read_only: false,
            },
        ],
        VideoType::EGA => seq![
            MemRangeDescriptor {
                address: CGA_MEM_ADDRESS,
                size: CGA_MEM_APERTURE,
                cycle_cost: 0,
                read_only: false,
            },
            MemRangeDescriptor {
                address: EGA_MEM_ADDRESS,
                size: EGA_GFX_PLANE_SIZE,
                cycle_cost: 0,
                read_only: false,
            },
        ],
        VideoType::VGA => seq![
            MemRangeDescriptor {
                address: CGA_MEM_ADDRESS,
                size: CGA_MEM_APERTURE,
                cycle_cost: 0,
                read_only: false,
            },
            MemRangeDescriptor {
                address: VGA_GFX_ADDRESS,
                size: VGA_GFX_PLANE_SIZE,
                cycle_cost: 0,
                read_only: false,
            },
        ],
    }
}

/// Lists the memory ranges that a video card of a kind answers to.
pub fn video_apertures(vtype: VideoType) -> (ranges: Vec<MemRangeDescriptor>)
    ensures
        ranges@ == apertures(vtype),
        forall|i: int| 0 <= i < ranges@.len() ==> registrable(#[trigger] ranges@[i]),
{
    let mut ranges: Vec<MemRangeDescriptor> = Vec::new();
    match vtype {
        VideoType::MDA => {
            ranges.push(MemRangeDescriptor::new(MDA_MEM_ADDRESS, MDA_MEM_APERTURE, false));
        },
        VideoType::CGA => {
            ranges.push(MemRangeDescriptor::new(CGA_MEM_ADDRESS, CGA_MEM_APERTURE, false));
        },
        VideoType::EGA => {
            ranges.push(MemRangeDescriptor::new(CGA_MEM_ADDRESS, CGA_MEM_APERTURE, false));
            ranges.push(MemRangeDescriptor::new(EGA_MEM_ADDRESS, EGA_GFX_PLANE_SIZE, false));
        },
        VideoType::VGA => {
            ranges.push(MemRangeDescriptor::new(CGA_MEM_ADDRESS, CGA_MEM_APERTURE, false));
            ranges.push(MemRangeDescriptor::new(VGA_GFX_ADDRESS, VGA_GFX_PLANE_SIZE, false));
        },
    }
    assert(ranges@ =~= apertures(vtype));
    ranges
}

} // verus!
