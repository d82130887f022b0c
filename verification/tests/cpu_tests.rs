use marty_core::bus::BusInterface;
use marty_core::bytequeue::ByteQueue;
use marty_core::cpu::{
    flat, Cpu, ReadWriteFlag, Register16, CPU_FLAGS_RESERVED_ON, CPU_FLAG_TRAP, FLAGS_POP_MASK,
};
use marty_core::device::{DeviceSet, MemoryMappedDevice, VideoCardDispatch};
use marty_core::dump::{
    dump_row_text, out_of_bounds_row, token_row, vector_name_of, vector_row, MemoryDebug,
    SyntaxToken,
};
use marty_core::memory::{MemError, MemRangeDescriptor};
use marty_core::mmio::{MmioDeviceType, VideoCardId, VideoType};
use marty_core::text::{ascii_char_of, hex_char_of, hex_len_of, push_dec3, push_hex, push_hex_min};

struct Bare;

struct Screen {
    fill: u8,
}

impl MemoryMappedDevice for Screen {
    fn get_read_wait(&mut self, _address: usize, _cycles: u32) -> u32 {
        0
    }

    fn mmio_read_u8(&mut self, _address: usize, _cycles: u32) -> (u8, u32) {
        (self.fill, 0)
    }

    fn mmio_read_u16(&mut self, _address: usize, _cycles: u32) -> (u16, u32) {
        (self.fill as u16 * 0x101, 0)
    }

    fn mmio_peek_u8(&self, _address: usize) -> u8 {
        self.fill
    }

    fn mmio_peek_u16(&self, _address: usize) -> u16 {
        self.fill as u16 * 0x101
    }

    fn get_write_wait(&mut self, _address: usize, _cycles: u32) -> u32 {
        0
    }

    fn mmio_write_u8(&mut self, _address: usize, data: u8, _cycles: u32) -> u32 {
        self.fill = data;
        0
    }

    fn mmio_write_u16(&mut self, _address: usize, data: u16, _cycles: u32) -> u32 {
        self.fill = data as u8;
        0
    }
}

impl DeviceSet for Bare {
    type Keyboard = ();
    type Ppi = ();
    type Pit = ();
    type Dma = ();
    type Pic = ();
    type Serial = ();
    type Fdc = ();
    type Hdc = ();
    type Mouse = ();
    type Mda = Screen;
    type Cga = Screen;
    type Ega = Screen;
    type Vga = Screen;
}

type Bus = BusInterface<Bare>;

fn cpu() -> Cpu<Bare> {
    let mut cpu = Cpu::new(Bus::default(), 0xFFFF, 0);
    cpu.ss = 0x1000;
    cpu.sp = 0x0100;
    cpu
}

const CGA0: VideoCardId = VideoCardId { idx: 0, vtype: VideoType::CGA };

fn text(s: &str) -> String {
    s.to_string()
}

// ---------------------------------------------------------------------------
// The stack
// ---------------------------------------------------------------------------

#[test]
fn flat_addresses_wrap_at_one_megabyte() {
    assert_eq!(flat(0, 0), 0);
    assert_eq!(flat(0x1000, 0x0100), 0x10100);
    assert_eq!(flat(0xF000, 0xFFFF), 0xFFFFF);
    assert_eq!(flat(0xFFFF, 0x0010), 0);
    assert_eq!(flat(0xFFFF, 0xFFFF), 0x0FFEF);
}

#[test]
fn a_new_cpu_is_reset() {
    let cpu = Cpu::new(Bus::default(), 0xFFFF, 0);
    assert_eq!((cpu.cs, cpu.ip), (0xFFFF, 0));
    assert_eq!(cpu.flags, CPU_FLAGS_RESERVED_ON);
    assert_eq!((cpu.ax, cpu.bx, cpu.cx, cpu.dx, cpu.sp, cpu.bp, cpu.si, cpu.di), (0, 0, 0, 0, 0, 0, 0, 0));
    assert_eq!((cpu.ds, cpu.ss, cpu.es), (0, 0, 0));
    assert!(!cpu.interrupt_inhibit);
    let mut cpu = self::cpu();
    cpu.ax = 5;
    cpu.interrupt_inhibit = true;
    cpu.bus_mut().write_u8(0x10, 0x42, 0).unwrap();
    cpu.reset(0xF000, 0xFFF0);
    assert_eq!((cpu.cs, cpu.ip, cpu.ax, cpu.ss, cpu.sp), (0xF000, 0xFFF0, 0, 0, 0));
    assert!(!cpu.interrupt_inhibit);
    assert_eq!(cpu.bus().peek_u8(0x10), Ok(0x42));
}

#[test]
fn a_pushed_word_is_popped() {
    let mut cpu = cpu();
    assert_eq!(cpu.push_u16(0xBEEF, ReadWriteFlag::Normal), Ok(()));
    assert_eq!(cpu.sp, 0x00FE);
    assert_eq!(cpu.bus().peek_u8(0x100FE), Ok(0xEF));
    assert_eq!(cpu.bus().peek_u8(0x100FF), Ok(0xBE));
    assert_eq!(cpu.push_u16(0x1234, ReadWriteFlag::RNI), Ok(()));
    assert_eq!(cpu.sp, 0x00FC);
    assert_eq!(cpu.pop_u16(), Ok(0x1234));
    assert_eq!(cpu.pop_u16(), Ok(0xBEEF));
    assert_eq!(cpu.sp, 0x0100);
}

#[test]
fn push_u8_takes_a_whole_word() {
    let mut cpu = cpu();
    cpu.bus_mut().write_u16(0x100FE, 0xAAAA, 0).unwrap();
    assert_eq!(cpu.push_u8(0x55, ReadWriteFlag::Normal), Ok(()));
    assert_eq!(cpu.sp, 0x00FE);
    assert_eq!(cpu.bus().peek_u8(0x100FE), Ok(0x55));
    assert_eq!(cpu.bus().peek_u8(0x100FF), Ok(0xAA));
}

#[test]
fn the_stack_pointer_wraps() {
    let mut cpu = cpu();
    cpu.sp = 1;
    assert_eq!(cpu.push_u16(0xA1B2, ReadWriteFlag::Normal), Ok(()));
    assert_eq!(cpu.sp, 0xFFFF);
    assert_eq!(cpu.bus().peek_u8(0x1FFFF), Ok(0xB2));
    assert_eq!(cpu.bus().peek_u8(0x10000), Ok(0xA1));
    assert_eq!(cpu.pop_u16(), Ok(0xA1B2));
    assert_eq!(cpu.sp, 1);
    cpu.sp = 0;
    cpu.push_u16(7, ReadWriteFlag::Normal).unwrap();
    assert_eq!(cpu.sp, 0xFFFE);
    cpu.release(4);
    assert_eq!(cpu.sp, 2);
    cpu.release(0xFFFF);
    assert_eq!(cpu.sp, 1);
}

#[test]
fn registers_are_pushed_and_popped() {
    let mut cpu = cpu();
    cpu.ax = 0x1111;
    cpu.bx = 0x2222;
    cpu.cx = 0x3333;
    cpu.dx = 0x4444;
    cpu.bp = 0x5555;
    cpu.si = 0x6666;
    cpu.di = 0x7777;
    cpu.ds = 0x8888;
    cpu.es = 0x9999;
    cpu.cs = 0xAAAA;
    cpu.ip = 0xBBBB;
    let order = [
        Register16::AX,
        Register16::BX,
        Register16::CX,
        Register16::DX,
        Register16::BP,
        Register16::SI,
        Register16::DI,
        Register16::DS,
        Register16::ES,
        Register16::CS,
        Register16::IP,
    ];
    for reg in order {
        assert_eq!(cpu.push_register16(reg, ReadWriteFlag::Normal), Ok(()));
    }
    assert_eq!(cpu.sp, 0x0100 - 22);
    for reg in order {
        assert_eq!(cpu.pop_register16(reg, ReadWriteFlag::Normal), Ok(()));
    }
    assert_eq!(cpu.sp, 0x0100);
    assert_eq!((cpu.ax, cpu.bx, cpu.cx, cpu.dx), (0xBBBB, 0xAAAA, 0x9999, 0x8888));
    assert_eq!((cpu.bp, cpu.si, cpu.di), (0x7777, 0x6666, 0x5555));
    assert_eq!((cpu.ds, cpu.es, cpu.cs, cpu.ip), (0x4444, 0x3333, 0x2222, 0x1111));
    assert!(!cpu.interrupt_inhibit);
}

#[test]
fn the_stack_pointer_is_pushed_as_it_is_after_the_push() {
    let mut cpu = cpu();
    assert_eq!(cpu.push_register16(Register16::SP, ReadWriteFlag::Normal), Ok(()));
    assert_eq!(cpu.sp, 0x00FE);
    assert_eq!(cpu.bus().peek_u8(0x100FE), Ok(0xFE));
    assert_eq!(cpu.bus().peek_u8(0x100FF), Ok(0x00));
    cpu.bus_mut().write_u16(0x100FE, 0x0200, 0).unwrap();
    assert_eq!(cpu.pop_register16(Register16::SP, ReadWriteFlag::Normal), Ok(()));
    assert_eq!(cpu.sp, 0x0200);
}

#[test]
fn popping_the_stack_segment_holds_interrupts_off() {
    let mut cpu = cpu();
    cpu.push_u16(0x2000, ReadWriteFlag::Normal).unwrap();
    assert_eq!(cpu.pop_register16(Register16::SS, ReadWriteFlag::Normal), Ok(()));
    assert_eq!(cpu.ss, 0x2000);
    assert_eq!(cpu.sp, 0x0100);
    assert!(cpu.interrupt_inhibit);
}

#[test]
fn flags_are_pushed_and_popped_through_the_mask() {
    let mut cpu = cpu();
    cpu.flags = 0xF246;
    assert_eq!(cpu.push_flags(ReadWriteFlag::Normal), Ok(()));
    assert_eq!(cpu.bus().peek_u8(0x100FE), Ok(0x46));
    assert_eq!(cpu.bus().peek_u8(0x100FF), Ok(0xF2));
    cpu.bus_mut().write_u16(0x100FE, 0xFFFF, 0).unwrap();
    assert_eq!(cpu.pop_flags(), Ok(()));
    assert_eq!(cpu.flags, FLAGS_POP_MASK | CPU_FLAGS_RESERVED_ON);
    assert_eq!(cpu.flags, 0xFFD7);
    assert_eq!(cpu.sp, 0x0100);
    cpu.push_u16(0, ReadWriteFlag::Normal).unwrap();
    assert_eq!(cpu.pop_flags(), Ok(()));
    assert_eq!(cpu.flags, 0xF002);
}

#[test]
fn the_trap_flag_takes_effect_with_a_delay() {
    let mut cpu = cpu();
    assert!(!cpu.trap_flag());
    cpu.push_u16(CPU_FLAG_TRAP, ReadWriteFlag::Normal).unwrap();
    cpu.pop_flags().unwrap();
    assert!(cpu.trap_flag());
    assert_eq!((cpu.trap_enable_delay, cpu.trap_disable_delay), (2, 0));
    cpu.trap_enable_delay = 0;
    cpu.push_u16(CPU_FLAG_TRAP, ReadWriteFlag::Normal).unwrap();
    cpu.pop_flags().unwrap();
    assert_eq!((cpu.trap_enable_delay, cpu.trap_disable_delay), (0, 0));
    cpu.push_u16(0, ReadWriteFlag::Normal).unwrap();
    cpu.pop_flags().unwrap();
    assert!(!cpu.trap_flag());
    assert_eq!((cpu.trap_enable_delay, cpu.trap_disable_delay), (0, 1));
}

#[test]
fn a_stack_in_rom_keeps_its_contents() {
    let mut cpu = cpu();
    cpu.bus_mut().copy_from(&[0x11, 0x22], 0x100FE, 0, true).unwrap();
    assert_eq!(cpu.push_u16(0xBEEF, ReadWriteFlag::Normal), Ok(()));
    assert_eq!(cpu.sp, 0x00FE);
    assert_eq!(cpu.pop_u16(), Ok(0x2211));
}

#[test]
fn a_stack_in_unmapped_device_memory_fails() {
    let mut cpu = cpu();
    cpu.bus_mut()
        .register_map(MmioDeviceType::Video(CGA0), MemRangeDescriptor::new(0x10000, 0x2000, false));
    assert_eq!(cpu.push_u16(0xBEEF, ReadWriteFlag::Normal), Err(MemError::MmioError));
    assert_eq!(cpu.sp, 0x00FE);
    assert_eq!(cpu.pop_u16(), Err(MemError::MmioError));
    assert_eq!(cpu.sp, 0x0100);
    assert_eq!(cpu.push_u8(1, ReadWriteFlag::Normal), Err(MemError::MmioError));
    cpu.sp = 0x0100;
    cpu.ax = 7;
    assert_eq!(cpu.pop_register16(Register16::AX, ReadWriteFlag::Normal), Err(MemError::MmioError));
    assert_eq!((cpu.ax, cpu.sp), (7, 0x0100));
    let flags = cpu.flags;
    assert_eq!(cpu.pop_flags(), Err(MemError::MmioError));
    assert_eq!((cpu.flags, cpu.sp), (flags, 0x0100));
    assert_eq!(cpu.push_flags(ReadWriteFlag::Normal), Err(MemError::MmioError));
    assert_eq!(cpu.push_register16(Register16::AX, ReadWriteFlag::Normal), Err(MemError::MmioError));
}

#[test]
fn a_stack_word_with_one_byte_in_unmapped_device_memory_fails() {
    let mut cpu = cpu();
    cpu.bus_mut()
        .register_map(MmioDeviceType::Video(CGA0), MemRangeDescriptor::new(0x10000, 0x2000, false));
    cpu.ss = 0x0FFF;
    cpu.sp = 0x000F;
    assert_eq!(cpu.pop_u16(), Err(MemError::MmioError));
    assert_eq!(cpu.sp, 0x0011);
    assert_eq!(cpu.push_u16(0xBEEF, ReadWriteFlag::Normal), Err(MemError::MmioError));
    assert_eq!(cpu.sp, 0x000F);
    assert_eq!(cpu.bus().get_vec_at(0xFFFF, 1), vec![0xEF]);
    cpu.sp = 0x000F;
    assert_eq!(cpu.push_u16(0x1234, ReadWriteFlag::Normal), Ok(()));
    assert_eq!(cpu.sp, 0x000D);
    assert_eq!(cpu.pop_u16(), Ok(0x1234));
}

#[test]
fn a_stack_on_a_video_card_goes_to_the_card() {
    let mut cpu = cpu();
    cpu.bus_mut()
        .register_map(MmioDeviceType::Video(CGA0), MemRangeDescriptor::new(0x10000, 0x2000, false));
    cpu.bus_mut().insert_card(CGA0, VideoCardDispatch::Cga(Screen { fill: 0 }));
    assert_eq!(cpu.push_u16(0xBEEF, ReadWriteFlag::Normal), Ok(()));
    assert_eq!(cpu.pop_u16(), Ok(0xBEBE));
    assert_eq!(cpu.bus().get_vec_at(0x100FE, 2), vec![0xFF, 0xFF]);
}

#[test]
fn set_register16_sets_one_register() {
    let mut cpu = cpu();
    cpu.set_register16(Register16::DX, 0x1234);
    assert_eq!(cpu.dx, 0x1234);
    cpu.set_register16(Register16::InvalidRegister, 0x9999);
    assert_eq!((cpu.ax, cpu.bx, cpu.cx, cpu.dx, cpu.sp, cpu.ss), (0, 0, 0, 0x1234, 0x0100, 0x1000));
    cpu.set_register16(Register16::SP, 2);
    cpu.set_register16(Register16::SS, 3);
    assert_eq!((cpu.sp, cpu.ss), (2, 3));
}

// ---------------------------------------------------------------------------
// Text
// ---------------------------------------------------------------------------

#[test]
fn hexadecimal_digits() {
    let upper: String = (0..16).map(|d| hex_char_of(d, true)).collect();
    let lower: String = (0..16).map(|d| hex_char_of(d, false)).collect();
    assert_eq!(upper, "0123456789ABCDEF");
    assert_eq!(lower, "0123456789abcdef");
}

#[test]
fn hexadecimal_numbers() {
    let mut s = text("x");
    push_hex(&mut s, 0xB8000, 5, true);
    assert_eq!(s, "xB8000");
    push_hex(&mut s, 0xAB, 2, false);
    assert_eq!(s, "xB8000ab");
    push_hex(&mut s, 0x12345, 2, true);
    assert_eq!(s, "xB8000ab45");
    push_hex(&mut s, 7, 0, true);
    assert_eq!(s, "xB8000ab45");
    let mut s = String::new();
    push_hex(&mut s, u64::MAX, 16, true);
    assert_eq!(s, "FFFFFFFFFFFFFFFF");
    let mut s = String::new();
    push_hex(&mut s, 5, 4, true);
    assert_eq!(s, "0005");
}

#[test]
fn hexadecimal_numbers_of_a_least_width() {
    for (value, min, expected) in [
        (0u64, 4usize, "0000"),
        (0, 0, "0"),
        (0xF, 1, "F"),
        (0x10, 1, "10"),
        (0xABCD, 4, "ABCD"),
        (0x1ABCD, 4, "1ABCD"),
        (0x12345678, 4, "12345678"),
        (0x100000, 5, "100000"),
        (u64::MAX, 2, "FFFFFFFFFFFFFFFF"),
    ] {
        let mut s = String::new();
        push_hex_min(&mut s, value, min, true);
        assert_eq!(s, expected);
        assert_eq!(s, format!("{:0width$X}", value, width = min));
    }
    assert_eq!(hex_len_of(0), 1);
    assert_eq!(hex_len_of(15), 1);
    assert_eq!(hex_len_of(16), 2);
    assert_eq!(hex_len_of(0xFFFF_FFFF), 8);
    assert_eq!(hex_len_of(0x1_0000_0000), 9);
    assert_eq!(hex_len_of(u64::MAX), 16);
}

#[test]
fn decimal_numbers_of_three_digits() {
    for v in [0u16, 7, 10, 99, 100, 255, 999] {
        let mut s = String::new();
        push_dec3(&mut s, v);
        assert_eq!(s, format!("{:03}", v));
    }
}

#[test]
fn bytes_as_characters() {
    assert_eq!(ascii_char_of(0), '.');
    assert_eq!(ascii_char_of(31), '.');
    assert_eq!(ascii_char_of(32), ' ');
    assert_eq!(ascii_char_of(0x41), 'A');
    assert_eq!(ascii_char_of(126), '~');
    assert_eq!(ascii_char_of(127), '\u{7f}');
    assert_eq!(ascii_char_of(128), '.');
    assert_eq!(ascii_char_of(255), '.');
}

// ---------------------------------------------------------------------------
// Dumps
// ---------------------------------------------------------------------------

fn row_of(bytes: &[u8; 16]) -> String {
    let hex: String = bytes.iter().map(|b| format!("{:02x} ", b)).collect();
    let ascii: String =
        bytes.iter().map(|b| if (32..=127).contains(b) { *b as char } else { '.' }).collect();
    format!("{} {}", hex, ascii)
}

#[test]
fn a_row_of_a_dump() {
    let bytes: [u8; 16] = *b"Hello, world!\x00\x01\xFF";
    let row = dump_row_text(0x1230, &bytes);
    assert_eq!(
        row,
        "01230 48 65 6c 6c 6f 2c 20 77 6f 72 6c 64 21 00 01 ff  Hello, world!...\n"
    );
    assert_eq!(row, format!("{:05X} {}\n", 0x1230, row_of(&bytes)));
    assert_eq!(dump_row_text(0xFFFFF, &[]), "FFFFF  \n");
}

#[test]
fn dump_flat_writes_whole_rows() {
    let mut bus = Bus::default();
    let bytes: Vec<u8> = (0..40).collect();
    bus.copy_from(&bytes, 0x100, 0, false).unwrap();
    let dump = bus.dump_flat(0x100, 40);
    let lines: Vec<&str> = dump.lines().collect();
    assert_eq!(lines.len(), 2);
    assert_eq!(lines[0], "00100 00 01 02 03 04 05 06 07 08 09 0a 0b 0c 0d 0e 0f  ................");
    assert_eq!(lines[1], "00110 10 11 12 13 14 15 16 17 18 19 1a 1b 1c 1d 1e 1f  ................");
    assert!(dump.ends_with('\n'));
    assert_eq!(bus.dump_flat(0x100, 15), "");
    assert_eq!(bus.dump_flat(0x100, 0), "");
    assert_eq!(bus.dump_flat_vec(0x100, 40), vec![format!("{}\n", lines[0]), format!("{}\n", lines[1])]);
    assert!(bus.dump_flat_vec(0x100, 15).is_empty());
}

#[test]
fn dump_flat_refuses_requests_that_reach_the_end() {
    let bus = Bus::default();
    assert_eq!(bus.dump_flat(0xFFFF0, 16), "REQUEST OUT OF BOUNDS");
    assert_eq!(bus.dump_flat(0x10_0000, 0), "REQUEST OUT OF BOUNDS");
    assert_eq!(bus.dump_flat(0, 0x10_0000), "REQUEST OUT OF BOUNDS");
    assert_eq!(bus.dump_flat(usize::MAX, usize::MAX), "REQUEST OUT OF BOUNDS");
    assert_eq!(bus.dump_flat_vec(0xFFFF0, 16), vec![text("REQUEST OUT OF BOUNDS")]);
    assert_eq!(bus.dump_flat_vec(usize::MAX, 1), vec![text("REQUEST OUT OF BOUNDS")]);
    let last = bus.dump_flat(0xFFFE0, 31);
    assert_eq!(last.lines().count(), 1);
    assert!(last.starts_with("FFFE0 ff ff"));
}

#[test]
fn a_row_of_tokens() {
    let bytes: [u8; 16] = *b"0123456789ABCDE\xFF";
    let row = token_row(0x200, &bytes, 0x203);
    assert_eq!(row.len(), 33);
    assert_eq!(row[0], SyntaxToken::MemoryAddressFlat(0x200, text("00200")));
    assert_eq!(row[1], SyntaxToken::MemoryByteHexValue(0x200, 0x30, text("30"), false, 0));
    assert_eq!(row[4], SyntaxToken::MemoryByteHexValue(0x203, 0x33, text("33"), true, 0));
    assert_eq!(row[16], SyntaxToken::MemoryByteHexValue(0x20F, 0xFF, text("FF"), false, 0));
    assert_eq!(row[17], SyntaxToken::MemoryByteAsciiValue(0x200, 0x30, text("0"), 0));
    assert_eq!(row[32], SyntaxToken::MemoryByteAsciiValue(0x20F, 0xFF, text("."), 0));
    for (i, token) in row.iter().enumerate().skip(1).take(16) {
        match token {
            SyntaxToken::MemoryByteHexValue(address, byte, _, cursor, _) => {
                assert_eq!(*address as usize, 0x200 + i - 1);
                assert_eq!(*byte, bytes[i - 1]);
                assert_eq!(*cursor, i - 1 == 3);
            }
            _ => panic!("no hex token"),
        }
    }
    assert_eq!(out_of_bounds_row(), vec![SyntaxToken::ErrorString(text("REQUEST OUT OF BOUNDS"))]);
}

#[test]
fn dump_flat_tokens_cuts_off_at_the_end_of_memory() {
    let mut bus = Bus::default();
    bus.write_u8(0xFFFE0, 0x41, 0).unwrap();
    let rows = bus.dump_flat_tokens(0xFFFE0, 0xFFFE0, 0x1000);
    assert_eq!(rows.len(), 2);
    assert_eq!(rows[0][0], SyntaxToken::MemoryAddressFlat(0xFFFE0, text("FFFE0")));
    assert_eq!(rows[0][1], SyntaxToken::MemoryByteHexValue(0xFFFE0, 0x41, text("41"), true, 0));
    assert_eq!(rows[0][17], SyntaxToken::MemoryByteAsciiValue(0xFFFE0, 0x41, text("A"), 0));
    assert_eq!(rows[1][0], SyntaxToken::MemoryAddressFlat(0xFFFF0, text("FFFF0")));
    assert_eq!(rows[1][16], SyntaxToken::MemoryByteHexValue(0xFFFFF, 0xFF, text("FF"), false, 0));
    assert_eq!(bus.dump_flat_tokens(0x100, 0, 47).len(), 2);
    assert_eq!(bus.dump_flat_tokens(0x100, 0, 48).len(), 3);
    assert_eq!(bus.dump_flat_tokens(0xFFFF1, 0, 100).len(), 0);
    assert_eq!(bus.dump_flat_tokens(0xFFFF0, 0, usize::MAX).len(), 1);
    assert_eq!(bus.dump_flat_tokens(0x10_0000, 0, 16), vec![out_of_bounds_row()]);
    assert_eq!(bus.dump_flat_tokens_ex(0x10_0000, 0, 16), Ok(vec![out_of_bounds_row()]));
}

#[test]
fn dump_flat_tokens_ex_shows_what_the_cpu_sees() {
    let mut bus = Bus::default();
    bus.write_u8(0xB7FFF, 0x41, 0).unwrap();
    bus.register_map(MmioDeviceType::Video(CGA0), MemRangeDescriptor::new(0xB8000, 0x8000, false));
    assert_eq!(bus.dump_flat_tokens_ex(0xB7FF0, 0, 16), Ok(bus.dump_flat_tokens(0xB7FF0, 0, 16)));
    assert_eq!(bus.dump_flat_tokens_ex(0xB7FF0, 0, 32), Err(MemError::MmioError));
    assert_eq!(bus.dump_flat_tokens_ex(0xB7FF0, 0, 31), Ok(bus.dump_flat_tokens(0xB7FF0, 0, 16)));
    bus.insert_card(CGA0, VideoCardDispatch::Cga(Screen { fill: 0x2A }));
    let rows = bus.dump_flat_tokens_ex(0xB7FF0, 0xB8001, 32).unwrap();
    assert_eq!(rows.len(), 2);
    assert_eq!(rows[0][16], SyntaxToken::MemoryByteHexValue(0xB7FFF, 0x41, text("41"), false, 0));
    assert_eq!(rows[1][1], SyntaxToken::MemoryByteHexValue(0xB8000, 0x2A, text("2A"), false, 0));
    assert_eq!(rows[1][2], SyntaxToken::MemoryByteHexValue(0xB8001, 0x2A, text("2A"), true, 0));
    assert_eq!(rows[1][17], SyntaxToken::MemoryByteAsciiValue(0xB8000, 0x2A, text("*"), 0));
    assert_eq!(bus.dump_flat_tokens(0xB8000, 0, 16)[0][1], SyntaxToken::MemoryByteHexValue(
        0xB8000,
        0xFF,
        text("FF"),
        false,
        0
    ));
}

#[test]
fn interrupt_vectors_are_listed() {
    let mut bus = Bus::default();
    bus.copy_from(&[0x34, 0x12, 0x00, 0xF0], 8 * 4, 0, false).unwrap();
    let rows = bus.dump_ivr_tokens().unwrap();
    assert_eq!(rows.len(), 256);
    assert_eq!(
        rows[8],
        vec![
            SyntaxToken::Text(text("008")),
            SyntaxToken::Colon,
            SyntaxToken::OpenBracket,
            SyntaxToken::StateMemoryAddressSeg16(0xF000, 0x1234, text("F000:1234"), 255),
            SyntaxToken::CloseBracket,
            SyntaxToken::Text(text("Timer")),
        ]
    );
    assert_eq!(rows[10].len(), 5);
    assert_eq!(rows[10][0], SyntaxToken::Text(text("010")));
    assert_eq!(rows[255][0], SyntaxToken::Text(text("255")));
    assert_eq!(rows[255][3], SyntaxToken::StateMemoryAddressSeg16(0xFFFF, 0xFFFF, text("FFFF:FFFF"), 255));
    let names: Vec<(usize, &str)> = vec![
        (0, "Divide Error"),
        (1, "Single Step"),
        (2, "NMI"),
        (3, "Breakpoint"),
        (4, "Overflow"),
        (8, "Timer"),
        (9, "Keyboard"),
        (11, "Serial Port 2"),
        (12, "Serial Port 1"),
        (13, "HDC"),
        (14, "FDC"),
        (15, "Parallel Port 1"),
    ];
    for v in 0..256usize {
        let expected = names.iter().find(|(n, _)| *n == v).map(|(_, name)| name.to_string());
        assert_eq!(vector_name_of(v), expected);
        assert_eq!(rows[v].len(), if expected.is_some() { 6 } else { 5 });
        assert_eq!(rows[v].get(5), expected.map(SyntaxToken::Text).as_ref());
    }
    assert_eq!(vector_row(3, 1, 2)[3], SyntaxToken::StateMemoryAddressSeg16(1, 2, text("0001:0002"), 255));
}

#[test]
fn interrupt_vectors_in_unmapped_device_memory_fail() {
    let mut bus = Bus::default();
    bus.register_map(MmioDeviceType::Video(CGA0), MemRangeDescriptor::new(0, 0x2000, false));
    assert_eq!(bus.dump_ivr_tokens(), Err(MemError::MmioError));
}

#[test]
fn memory_is_described() {
    let mut bus = Bus::default();
    bus.copy_from(&[0x78, 0x56, 0x34, 0x12], 0x400, 0, false).unwrap();
    let debug = bus.get_memory_debug(0x400, Some(text("NOP")));
    assert_eq!(debug.addr, "00400");
    assert_eq!(debug.byte, "78");
    assert_eq!(debug.word, "5678");
    assert_eq!(debug.dword, "12345678");
    assert_eq!(debug.instr, "NOP");
    assert_eq!(
        debug.to_string(),
        " ADDR: 00400\n BYTE: 78\n WORD: 5678\nDWORD: 12345678\nINSTR: NOP"
    );
    assert_eq!(bus.tell(), 0x400);
    bus.copy_from(&[0x01, 0x00, 0x00, 0x00], 0x500, 0, false).unwrap();
    let debug = bus.get_memory_debug(0x500, None);
    assert_eq!(debug.dword, "0001");
    assert_eq!(debug.instr, "Invalid");
}

#[test]
fn memory_near_the_end_is_described_in_part() {
    let mut bus = Bus::default();
    let debug = bus.get_memory_debug(0xFFFFC, None);
    assert_eq!((debug.byte.as_str(), debug.word.as_str(), debug.dword.as_str()), ("FF", "FFFF", ""));
    let debug = bus.get_memory_debug(0xFFFFB, None);
    assert_eq!(debug.dword, "FFFFFFFF");
    let debug = bus.get_memory_debug(0xFFFFE, None);
    assert_eq!((debug.byte.as_str(), debug.word.as_str(), debug.dword.as_str()), ("FF", "", ""));
    let debug = bus.get_memory_debug(0xFFFFF, None);
    assert_eq!((debug.byte.as_str(), debug.word.as_str(), debug.dword.as_str()), ("", "", ""));
    let debug = bus.get_memory_debug(0x123456, None);
    assert_eq!(debug.addr, "123456");
    assert_eq!(debug.byte, "");
    let shown = MemoryDebug {
        addr: text("A"),
        byte: text("B"),
        word: text("C"),
        dword: text("D"),
        instr: text("E"),
    };
    assert_eq!(shown.to_string(), " ADDR: A\n BYTE: B\n WORD: C\nDWORD: D\nINSTR: E");
}
