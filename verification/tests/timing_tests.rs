use marty_core::event::{slice_representable, DeviceEvent, DeviceId, DeviceRunContext};
use marty_core::memory::{
    add_flags, join_word, remove_flags, split_word, MemRangeDescriptor, MEM_BPA_BIT, MEM_BPE_BIT,
    MEM_CP_BIT, MEM_MMIO_BIT, MEM_RET_BIT, MEM_ROM_BIT,
};
use marty_core::mmio::{
    bucket_index, video_apertures, MmioData, MmioDeviceType, VideoCardId, VideoType,
};
use marty_core::timing::{
    build_cycle_lut, compute_timing_entry, cpu_cycles_to_system_ticks, cycles_convertible,
    system_ticks_to_cpu_cycles, update_timing_table, ClockFactor, Microseconds, TimingTableEntry,
    TIMING_TABLE_LEN,
};

const CRYSTAL: u32 = 14_318_180;

fn blank_table() -> Vec<TimingTableEntry> {
    vec![TimingTableEntry { sys_ticks: 0, us: Microseconds { millionths: 0 } }; TIMING_TABLE_LEN]
}

#[test]
fn timing_table_divisor_rounds_ticks_up() {
    let mut table = blank_table();
    update_timing_table(&mut table, ClockFactor::Divisor(3), CRYSTAL);
    let ticks: Vec<u32> = table.iter().take(11).map(|e| e.sys_ticks).collect();
    assert_eq!(ticks, vec![0, 1, 1, 1, 2, 2, 2, 3, 3, 3, 4]);
    assert_eq!(table[511].sys_ticks, 171);
}

#[test]
fn timing_table_divisor_matches_formula_for_every_row() {
    for n in [1u8, 2, 3, 4, 7, 255] {
        let mut table = blank_table();
        update_timing_table(&mut table, ClockFactor::Divisor(n), CRYSTAL);
        for cycles in 0..TIMING_TABLE_LEN {
            let c = cycles as u64;
            let n64 = n as u64;
            let ticks = table[cycles].sys_ticks as u64;
            assert!(ticks * n64 >= c);
            assert!(ticks == 0 || (ticks - 1) * n64 < c);
            assert_eq!(table[cycles].us.millionths, c * n64 * 1_000_000_000_000 / CRYSTAL as u64);
        }
    }
}

#[test]
fn timing_table_multiplier_matches_formula_for_every_row() {
    for n in [1u8, 2, 3, 255] {
        let mut table = blank_table();
        update_timing_table(&mut table, ClockFactor::Multiplier(n), CRYSTAL);
        for cycles in 0..TIMING_TABLE_LEN {
            let c = cycles as u64;
            assert_eq!(table[cycles].sys_ticks as u64, c * n as u64);
            assert_eq!(
                table[cycles].us.millionths,
                c * 1_000_000_000_000 / (CRYSTAL as u64 * n as u64)
            );
        }
    }
}

#[test]
fn timing_entry_exact_values() {
    let e = compute_timing_entry(ClockFactor::Divisor(3), CRYSTAL, 10);
    assert_eq!(e.sys_ticks, 4);
    assert_eq!(e.us.millionths, 2_095_238);
    let e = compute_timing_entry(ClockFactor::Divisor(3), CRYSTAL, 1);
    assert_eq!(e.sys_ticks, 1);
    assert_eq!(e.us.millionths, 209_523);
    let e = compute_timing_entry(ClockFactor::Divisor(3), CRYSTAL, 511);
    assert_eq!(e.sys_ticks, 171);
    assert_eq!(e.us.millionths, 107_066_680);
    let e = compute_timing_entry(ClockFactor::Multiplier(2), CRYSTAL, 10);
    assert_eq!(e.sys_ticks, 20);
    assert_eq!(e.us.millionths, 349_206);
    let e = compute_timing_entry(ClockFactor::Multiplier(2), CRYSTAL, 0);
    assert_eq!(e.sys_ticks, 0);
    assert_eq!(e.us.millionths, 0);
}

#[test]
fn clock_factor_validity() {
    assert!(ClockFactor::Divisor(1).is_valid());
    assert!(ClockFactor::Multiplier(255).is_valid());
    assert!(!ClockFactor::Divisor(0).is_valid());
    assert!(!ClockFactor::Multiplier(0).is_valid());
}

#[test]
fn wait_ticks_round_up_under_divisor() {
    let f = ClockFactor::Divisor(3);
    assert_eq!(system_ticks_to_cpu_cycles(f, 0), 0);
    assert_eq!(system_ticks_to_cpu_cycles(f, 1), 1);
    assert_eq!(system_ticks_to_cpu_cycles(f, 3), 1);
    assert_eq!(system_ticks_to_cpu_cycles(f, 4), 2);
    assert_eq!(system_ticks_to_cpu_cycles(f, u32::MAX), 1_431_655_765);
    assert_eq!(system_ticks_to_cpu_cycles(ClockFactor::Divisor(1), u32::MAX), u32::MAX);
}

#[test]
fn wait_ticks_multiply_under_multiplier() {
    let f = ClockFactor::Multiplier(2);
    assert_eq!(system_ticks_to_cpu_cycles(f, 0), 0);
    assert_eq!(system_ticks_to_cpu_cycles(f, 5), 10);
    assert_eq!(system_ticks_to_cpu_cycles(f, 0x7FFF_FFFF), 0xFFFF_FFFE);
    assert_eq!(system_ticks_to_cpu_cycles(f, 0x8000_0000), u32::MAX);
    assert_eq!(system_ticks_to_cpu_cycles(ClockFactor::Multiplier(255), u32::MAX), u32::MAX);
}

#[test]
fn cycles_to_device_ticks() {
    assert_eq!(cpu_cycles_to_system_ticks(ClockFactor::Divisor(3), 4), 12);
    assert_eq!(cpu_cycles_to_system_ticks(ClockFactor::Divisor(1), 7), 7);
    assert_eq!(cpu_cycles_to_system_ticks(ClockFactor::Multiplier(2), 5), 2);
    assert_eq!(cpu_cycles_to_system_ticks(ClockFactor::Multiplier(2), 4), 2);
    assert_eq!(cpu_cycles_to_system_ticks(ClockFactor::Multiplier(3), 2), 0);
    assert_eq!(cpu_cycles_to_system_ticks(ClockFactor::Divisor(3), 0x5555_5555), 0xFFFF_FFFF);
    assert_eq!(cpu_cycles_to_system_ticks(ClockFactor::Divisor(3), 0x5555_5556), u32::MAX);
    assert_eq!(cpu_cycles_to_system_ticks(ClockFactor::Divisor(255), u32::MAX), u32::MAX);
    assert_eq!(cpu_cycles_to_system_ticks(ClockFactor::Multiplier(255), u32::MAX), 0x0101_0101);
    assert!(cycles_convertible(ClockFactor::Divisor(3), 0x5555_5555));
    assert!(!cycles_convertible(ClockFactor::Divisor(3), 0x5555_5556));
    assert!(cycles_convertible(ClockFactor::Multiplier(3), u32::MAX));
}

#[test]
fn cycle_lut_rows() {
    let lut = build_cycle_lut(ClockFactor::Divisor(3));
    assert_eq!(lut.len(), 256);
    assert_eq!(lut[0], 0);
    assert_eq!(lut[1], 3);
    assert_eq!(lut[255], 765);
    let lut = build_cycle_lut(ClockFactor::Multiplier(4));
    assert_eq!(lut[3], 0);
    assert_eq!(lut[4], 1);
    assert_eq!(lut[255], 63);
}

#[test]
fn microseconds_fixed_point() {
    assert_eq!(Microseconds::zero().millionths, 0);
    assert_eq!(Microseconds::from_whole(5000).millionths, 5_000_000_000);
    assert_eq!(Microseconds::from_millionths(1_999_999).whole(), 1);
    assert_eq!(Microseconds::from_whole(u32::MAX).whole(), u32::MAX as u64);
}

#[test]
fn run_context_new_follows_table_formulas() {
    let ctx = DeviceRunContext::new(10, ClockFactor::Divisor(3), CRYSTAL);
    assert_eq!(ctx.delta_ticks, 4);
    assert_eq!(ctx.delta_us.millionths, 2_095_238);
    assert_eq!(ctx.break_on, None);
    assert!(ctx.events.is_empty());
    let ctx = DeviceRunContext::new(10, ClockFactor::Multiplier(2), CRYSTAL);
    assert_eq!(ctx.delta_ticks, 20);
    assert_eq!(ctx.delta_us.millionths, 349_206);
}

#[test]
fn run_context_default_and_events() {
    let mut ctx = DeviceRunContext::default();
    assert_eq!(ctx.delta_ticks, 0);
    assert_eq!(ctx.delta_us.millionths, 0);
    assert_eq!(ctx.break_on, None);
    ctx.set_break_on(DeviceId::Pit);
    assert_eq!(ctx.break_on, Some(DeviceId::Pit));
    ctx.add_event(DeviceEvent::DramRefreshEnable(true));
    ctx.add_event(DeviceEvent::TurboToggled(false));
    assert_eq!(ctx.events.len(), 2);
    assert_eq!(ctx.events[0], DeviceEvent::DramRefreshEnable(true));
    assert_eq!(ctx.events[1], DeviceEvent::TurboToggled(false));
}

#[test]
fn slice_representable_limits() {
    assert!(slice_representable(1000, ClockFactor::Divisor(3), CRYSTAL));
    assert!(slice_representable(u32::MAX, ClockFactor::Divisor(3), CRYSTAL));
    assert!(!slice_representable(u32::MAX, ClockFactor::Divisor(255), 1));
    assert!(slice_representable(0x7FFF_FFFF, ClockFactor::Multiplier(2), CRYSTAL));
    assert!(!slice_representable(0x8000_0000, ClockFactor::Multiplier(2), CRYSTAL));
}

#[test]
fn flags_protect_rom_and_mmio() {
    assert_eq!(add_flags(0, 0xFF), 0xFB);
    assert_eq!(add_flags(MEM_MMIO_BIT, MEM_RET_BIT), MEM_MMIO_BIT | MEM_RET_BIT);
    assert_eq!(add_flags(0, MEM_MMIO_BIT), 0);
    assert_eq!(add_flags(0, MEM_ROM_BIT), MEM_ROM_BIT);
    assert_eq!(remove_flags(0xFF, 0xFF), MEM_ROM_BIT | MEM_MMIO_BIT);
    assert_eq!(remove_flags(0xFF, MEM_ROM_BIT), 0xFF);
    assert_eq!(remove_flags(0xFF, MEM_MMIO_BIT), 0xFF);
    assert_eq!(remove_flags(0xFF, MEM_BPE_BIT | MEM_BPA_BIT), 0xCF);
    assert_eq!(remove_flags(MEM_CP_BIT, MEM_CP_BIT), 0);
}

#[test]
fn words_split_and_join() {
    assert_eq!(split_word(0x1234), (0x34, 0x12));
    assert_eq!(join_word(0x34, 0x12), 0x1234);
    assert_eq!(join_word(0xFF, 0x00), 0x00FF);
    for w in [0u16, 1, 0x00FF, 0xFF00, 0xABCD, 0xFFFF] {
        let (lo, hi) = split_word(w);
        assert_eq!(join_word(lo, hi), w);
    }
}

#[test]
fn descriptor_new_has_no_cost() {
    let d = MemRangeDescriptor::new(0xB8000, 0x8000, true);
    assert_eq!(d.address, 0xB8000);
    assert_eq!(d.size, 0x8000);
    assert_eq!(d.cycle_cost, 0);
    assert!(d.read_only);
}

#[test]
fn mmio_data_bounds() {
    let mut d = MmioData::new();
    assert_eq!(d.first_map, 0xFFFFF);
    assert_eq!(d.last_map, 0);
    d.widen(0xB8000, 0x8000);
    assert_eq!(d.first_map, 0xB8000);
    assert_eq!(d.last_map, 0xC0000);
    d.widen(0xA0000, 0x10000);
    assert_eq!(d.first_map, 0xA0000);
    assert_eq!(d.last_map, 0xC0000);
}

#[test]
fn buckets_and_apertures() {
    assert_eq!(bucket_index(0), 0);
    assert_eq!(bucket_index(0x1FFF), 0);
    assert_eq!(bucket_index(0x2000), 1);
    assert_eq!(bucket_index(0xB8000), 92);
    assert_eq!(bucket_index(0xFFFFF), 127);
    let cga = video_apertures(VideoType::CGA);
    assert_eq!(cga, vec![MemRangeDescriptor::new(0xB8000, 0x8000, false)]);
    let mda = video_apertures(VideoType::MDA);
    assert_eq!(mda, vec![MemRangeDescriptor::new(0xB0000, 0x8000, false)]);
    let ega = video_apertures(VideoType::EGA);
    assert_eq!(
        ega,
        vec![
            MemRangeDescriptor::new(0xB8000, 0x8000, false),
            MemRangeDescriptor::new(0xA0000, 0x10000, false)
        ]
    );
    let vga = video_apertures(VideoType::VGA);
    assert_eq!(vga.len(), 2);
    assert_eq!(vga[1], MemRangeDescriptor::new(0xA0000, 0x10000, false));
}

#[test]
fn mmio_tags_that_name_devices() {
    let id = VideoCardId { idx: 0, vtype: VideoType::CGA };
    assert!(MmioDeviceType::Video(id).is_device());
    assert!(MmioDeviceType::Cga.is_device());
    assert!(MmioDeviceType::Ega.is_device());
    assert!(MmioDeviceType::Vga.is_device());
    assert!(!MmioDeviceType::Unmapped.is_device());
    assert!(!MmioDeviceType::Memory.is_device());
    assert!(!MmioDeviceType::Rom.is_device());
}
