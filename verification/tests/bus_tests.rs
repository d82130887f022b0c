use std::cell::RefCell;
use std::collections::VecDeque;
use std::rc::Rc;

use marty_core::access::MemRoute;
use marty_core::bus::{BusInterface, MachineCheckpoint, DEFAULT_SYSTEM_CRYSTAL};
use marty_core::bytequeue::{ByteQueue, QueueReader, QueueType};
use marty_core::config::{
    normalize_conventional_memory, ClockingMode, FloppyControllerConfig, HardDiskControllerType,
    HardDriveControllerConfig, InstallError, KeyboardConfig, KeyboardType, MachineConfiguration,
    MachineDescriptor, MachineType, PitType, SerialControllerConfig, SerialControllerType,
    SerialMouseConfig, SerialMouseType, VideoCardConfig,
};
use marty_core::device::{
    DeviceSet, DmaDevice, FloppyDevice, HardDiskDevice, InterruptController, IoDevice,
    IoDeviceType, KeybufferEntry, KeyboardDevice, KeyboardModifiers, MemoryMappedDevice,
    MouseDevice, PpiDevice, SerialDevice, TimerDevice, VideoCard, VideoCardDispatch,
};
use marty_core::event::{DeviceEvent, DeviceRunContext, DeviceRunTimeUnit};
use marty_core::cpu::Cpu;
use marty_core::install::map_ports;
use marty_core::machine::{judge_step, ExecutionState, Machine as Computer, StepReport, StepResult};
use marty_core::memory::{
    MemError, MemRangeDescriptor, ADDRESS_SPACE, MEM_BPA_BIT, MEM_BPE_BIT, MEM_CP_BIT,
    MEM_MMIO_BIT, MEM_RET_BIT, MEM_ROM_BIT, NO_IO_BYTE,
};
use marty_core::mmio::{can_register, MmioDeviceType, VideoCardId, VideoType};
use marty_core::scheduler::{
    accumulate_keyboard_time, accumulate_video_ticks, arm_triggers, refresh_step, refresh_update,
    release_triggers, RefreshStep,
};
use marty_core::timing::{ClockFactor, Microseconds};
use ringbuf::{Consumer, Producer, RingBuffer};

type Log = Rc<RefCell<Vec<String>>>;

fn note(log: &Option<Log>, what: String) {
    if let Some(log) = log {
        log.borrow_mut().push(what);
    }
}

fn unit(delta: DeviceRunTimeUnit) -> String {
    match delta {
        DeviceRunTimeUnit::SystemTicks(t) => format!("ticks {}", t),
        DeviceRunTimeUnit::Microseconds(us) => format!("us {}", us.millionths),
    }
}

struct Machine;

impl DeviceSet for Machine {
    type Keyboard = Keyboard;
    type Ppi = Ppi;
    type Pit = Pit;
    type Dma = Dma;
    type Pic = Pic;
    type Serial = Serial;
    type Fdc = Fdc;
    type Hdc = Hdc;
    type Mouse = Mouse;
    type Mda = Card;
    type Cga = Card;
    type Ega = Card;
    type Vga = Card;
}

type Bus = BusInterface<Machine>;

#[derive(Default)]
struct Keyboard {
    log: Option<Log>,
    kb_type: Option<KeyboardType>,
    typematic: Option<(Option<bool>, Option<u32>, Option<u32>)>,
    queue: VecDeque<u8>,
    on_run: VecDeque<u8>,
    runs: Vec<u64>,
    overflow: bool,
}

impl KeyboardDevice for Keyboard {
    fn new(kb_type: KeyboardType, _debug: bool) -> Self {
        Keyboard { kb_type: Some(kb_type), ..Keyboard::default() }
    }

    fn set_typematic_params(&mut self, enabled: Option<bool>, delay: Option<u32>, rate: Option<u32>) {
        self.typematic = Some((enabled, delay, rate));
    }

    fn key_down(
        &mut self,
        keycode: u8,
        modifiers: &KeyboardModifiers,
        kb_buf: Option<&mut VecDeque<KeybufferEntry>>,
    ) {
        note(&self.log, format!("kb down {:02X}", keycode));
        if self.overflow {
            if let Some(buf) = kb_buf {
                buf.push_back(KeybufferEntry {
                    keycode,
                    pressed: true,
                    modifiers: *modifiers,
                    translate: false,
                });
            }
        } else {
            self.queue.push_back(keycode);
        }
    }

    fn key_up(&mut self, keycode: u8) {
        note(&self.log, format!("kb up {:02X}", keycode));
        self.queue.push_back(keycode | 0x80);
    }

    fn recv_scancode(&mut self) -> Option<u8> {
        self.queue.pop_front()
    }

    fn run(&mut self, us: Microseconds) {
        note(&self.log, format!("kb run {}", us.millionths));
        self.runs.push(us.millionths);
        if let Some(code) = self.on_run.pop_front() {
            self.queue.push_back(code);
        }
    }
}

#[derive(Default)]
struct Ppi {
    log: Option<Log>,
    made_with: Option<(MachineType, u32, bool, Vec<VideoType>, u32)>,
    kb_enabled: bool,
    nmi: bool,
    latched: Vec<u8>,
    writes: Vec<(u16, u8, bool)>,
}

impl IoDevice<Machine> for Ppi {
    fn read_u8(&mut self, port: u16, delta: DeviceRunTimeUnit) -> u8 {
        note(&self.log, format!("ppi read {:03X} {}", port, unit(delta)));
        0x11
    }

    fn write_u8(&mut self, port: u16, data: u8, bus: Option<&mut Bus>, _delta: DeviceRunTimeUnit) {
        note(&self.log, format!("ppi write {:03X} {:02X}", port, data));
        self.writes.push((port, data, bus.is_some()));
    }

    fn port_list(&self) -> Vec<u16> {
        vec![0x60, 0x61, 0x62, 0x63]
    }
}

impl PpiDevice<Machine> for Ppi {
    fn new(
        machine_type: MachineType,
        conventional_memory: u32,
        have_expansion: bool,
        video_types: Vec<VideoType>,
        num_floppies: u32,
    ) -> Self {
        Ppi {
            made_with: Some((machine_type, conventional_memory, have_expansion, video_types, num_floppies)),
            kb_enabled: true,
            nmi: true,
            ..Ppi::default()
        }
    }

    fn send_keyboard(&mut self, byte: u8) {
        note(&self.log, format!("ppi latch {:02X}", byte));
        self.latched.push(byte);
    }

    fn kb_enabled(&self) -> bool {
        self.kb_enabled
    }

    fn nmi_enabled(&self) -> bool {
        self.nmi
    }

    fn run(&mut self, pic: &mut Pic, us: Microseconds) {
        note(&self.log, format!("ppi run {} pic ran {}", us.millionths, pic.ticks.len()));
    }
}

#[derive(Default)]
struct Pic {
    log: Option<Log>,
    pulses: Vec<u8>,
    ticks: Vec<u32>,
    resets: u32,
    writes: Vec<(u16, u8, bool)>,
}

impl IoDevice<Machine> for Pic {
    fn read_u8(&mut self, port: u16, delta: DeviceRunTimeUnit) -> u8 {
        note(&self.log, format!("pic read {:03X} {}", port, unit(delta)));
        0x22
    }

    fn write_u8(&mut self, port: u16, data: u8, bus: Option<&mut Bus>, _delta: DeviceRunTimeUnit) {
        note(&self.log, format!("pic write {:03X} {:02X}", port, data));
        self.writes.push((port, data, bus.is_some()));
    }

    fn port_list(&self) -> Vec<u16> {
        vec![0x20, 0x21]
    }
}

impl InterruptController<Machine> for Pic {
    fn new() -> Self {
        Pic::default()
    }

    fn pulse_interrupt(&mut self, line: u8) {
        note(&self.log, format!("pic pulse {}", line));
        self.pulses.push(line);
    }

    fn run(&mut self, sys_ticks: u32) {
        note(&self.log, format!("pic run {}", sys_ticks));
        self.ticks.push(sys_ticks);
    }

    fn reset(&mut self) {
        self.resets += 1;
    }
}

#[derive(Default)]
struct Pit {
    log: Option<Log>,
    made_with: Option<(PitType, u32, u32)>,
    gates: Vec<(usize, bool)>,
    report: (bool, bool, bool),
    channel0: (u16, u16),
    channel1: (u16, u16),
    accum: u32,
    runs: Vec<DeviceRunTimeUnit>,
    resets: u32,
    writes: Vec<(u16, u8, bool)>,
    asked: u32,
    saw_own_slot_empty: Vec<bool>,
    gated_on: Vec<(usize, bool, bool)>,
}

impl IoDevice<Machine> for Pit {
    fn read_u8(&mut self, port: u16, delta: DeviceRunTimeUnit) -> u8 {
        note(&self.log, format!("pit read {:03X} {}", port, unit(delta)));
        0x33
    }

    fn write_u8(&mut self, port: u16, data: u8, bus: Option<&mut Bus>, delta: DeviceRunTimeUnit) {
        note(&self.log, format!("pit write {:03X} {:02X} {}", port, data, unit(delta)));
        self.writes.push((port, data, bus.is_some()));
        if let Some(bus) = bus {
            self.saw_own_slot_empty.push(bus.pit().is_none());
            if let Some(pic) = bus.pic_mut() {
                pic.pulse_interrupt(0);
            }
        }
    }

    fn port_list(&self) -> Vec<u16> {
        vec![0x40, 0x41, 0x42, 0x43]
    }
}

impl TimerDevice<Machine> for Pit {
    fn new(pit_type: PitType, crystal_hz: u32, divisor: u32) -> Self {
        Pit { made_with: Some((pit_type, crystal_hz, divisor)), ..Pit::default() }
    }

    fn set_channel_gate(&mut self, channel: usize, state: bool, bus: &mut Bus) {
        self.gates.push((channel, state));
        self.gated_on.push((bus.conventional_size(), bus.ppi_mut().is_some(), bus.pit().is_some()));
    }

    fn run(&mut self, bus: &mut Bus, speaker: &mut Producer<u8>, delta: DeviceRunTimeUnit) {
        note(&self.log, format!("pit run {}", unit(delta)));
        self.saw_own_slot_empty.push(bus.pit().is_none());
        self.runs.push(delta);
        let _ = speaker.push(0x5A);
    }

    fn is_dirty(&mut self, channel: usize) -> (bool, bool, bool) {
        note(&self.log, format!("pit dirty? {}", channel));
        self.asked += 1;
        let report = self.report;
        self.report.0 = false;
        self.report.2 = false;
        report
    }

    fn get_channel_count(&self, channel: usize) -> (u16, u16) {
        if channel == 1 {
            self.channel1
        } else {
            self.channel0
        }
    }

    fn get_timer_accum(&self) -> u32 {
        self.accum
    }

    fn reset(&mut self) {
        self.resets += 1;
    }
}

#[derive(Default)]
struct Dma {
    log: Option<Log>,
    runs: u32,
    resets: u32,
    store: Option<(usize, u8)>,
    writes: Vec<(u16, u8, bool)>,
}

impl IoDevice<Machine> for Dma {
    fn read_u8(&mut self, port: u16, delta: DeviceRunTimeUnit) -> u8 {
        note(&self.log, format!("dma read {:03X} {}", port, unit(delta)));
        0x44
    }

    fn write_u8(&mut self, port: u16, data: u8, bus: Option<&mut Bus>, _delta: DeviceRunTimeUnit) {
        self.writes.push((port, data, bus.is_some()));
    }

    fn port_list(&self) -> Vec<u16> {
        (0x00..0x10).collect()
    }
}

impl DmaDevice<Machine> for Dma {
    fn new() -> Self {
        Dma::default()
    }

    fn run(&mut self, bus: &mut Bus) {
        note(&self.log, "dma run".to_string());
        self.runs += 1;
        if let Some((address, byte)) = self.store {
            let _ = bus.write_u8(address, byte, 0);
        }
    }

    fn reset(&mut self) {
        self.resets += 1;
    }
}

#[derive(Default)]
struct Fdc {
    log: Option<Log>,
    drives: usize,
    runs: u32,
    dma_runs_seen: Vec<u32>,
}

impl IoDevice<Machine> for Fdc {
    fn read_u8(&mut self, _port: u16, _delta: DeviceRunTimeUnit) -> u8 {
        0x55
    }

    fn write_u8(&mut self, _port: u16, _data: u8, _bus: Option<&mut Bus>, _delta: DeviceRunTimeUnit) {
    }

    fn port_list(&self) -> Vec<u16> {
        vec![0x3F2, 0x3F4, 0x3F5]
    }
}

impl FloppyDevice<Machine> for Fdc {
    fn new(drive_ct: usize) -> Self {
        Fdc { drives: drive_ct, ..Fdc::default() }
    }

    fn run(&mut self, dma: &mut Dma, bus: &mut Bus, us: Microseconds) {
        note(&self.log, format!("fdc run {} dma slot empty {}", us.millionths, bus.dma_mut().is_none()));
        self.runs += 1;
        self.dma_runs_seen.push(dma.runs);
    }

    fn drive_ct(&self) -> usize {
        self.drives
    }
}

#[derive(Default)]
struct Hdc {
    log: Option<Log>,
    made_with: Option<(usize, u8)>,
    runs: u32,
}

impl IoDevice<Machine> for Hdc {
    fn read_u8(&mut self, _port: u16, _delta: DeviceRunTimeUnit) -> u8 {
        0x66
    }

    fn write_u8(&mut self, _port: u16, _data: u8, _bus: Option<&mut Bus>, _delta: DeviceRunTimeUnit) {
    }

    fn port_list(&self) -> Vec<u16> {
        vec![0x320, 0x321, 0x322, 0x323]
    }
}

impl HardDiskDevice<Machine> for Hdc {
    fn new(drive_ct: usize, drive_type_dip: u8) -> Self {
        Hdc { made_with: Some((drive_ct, drive_type_dip)), ..Hdc::default() }
    }

    fn run(&mut self, _dma: &mut Dma, _bus: &mut Bus, us: Microseconds) {
        note(&self.log, format!("hdc run {}", us.millionths));
        self.runs += 1;
    }

    fn drive_ct(&self) -> usize {
        match self.made_with {
            Some((drives, _)) => drives,
            None => 0,
        }
    }
}

#[derive(Default)]
struct Serial {
    log: Option<Log>,
    runs: u32,
    writes: Vec<(u16, u8, bool)>,
    mouse_bytes: Vec<u8>,
}

impl IoDevice<Machine> for Serial {
    fn read_u8(&mut self, _port: u16, _delta: DeviceRunTimeUnit) -> u8 {
        0x77
    }

    fn write_u8(&mut self, port: u16, data: u8, bus: Option<&mut Bus>, _delta: DeviceRunTimeUnit) {
        self.writes.push((port, data, bus.is_some()));
    }

    fn port_list(&self) -> Vec<u16> {
        (0x3F8..0x400).collect()
    }
}

impl SerialDevice<Machine> for Serial {
    fn new() -> Self {
        Serial::default()
    }

    fn run(&mut self, _pic: &mut Pic, us: Microseconds) {
        note(&self.log, format!("serial run {}", us.millionths));
        self.runs += 1;
    }
}

#[derive(Default)]
struct Mouse {
    log: Option<Log>,
    port: usize,
    runs: u32,
}

impl MouseDevice<Machine> for Mouse {
    fn new(port: usize) -> Self {
        Mouse { port, ..Mouse::default() }
    }

    fn run(&mut self, serial: &mut Serial, us: Microseconds) {
        note(&self.log, format!("mouse run {}", us.millionths));
        self.runs += 1;
        serial.mouse_bytes.push(0x4D);
    }
}

#[derive(Default)]
struct Card {
    log: Option<Log>,
    name: String,
    cells: std::collections::HashMap<usize, u8>,
    read_wait: u32,
    write_wait: u32,
    ticks_seen: Vec<u32>,
    runs: Vec<DeviceRunTimeUnit>,
    resets: u32,
    io: Vec<String>,
    raise_on_run: bool,
}

impl Card {
    fn named(name: &str, log: &Log) -> Card {
        Card { name: name.to_string(), log: Some(log.clone()), ..Card::default() }
    }
}

impl IoDevice<Machine> for Card {
    fn read_u8(&mut self, port: u16, delta: DeviceRunTimeUnit) -> u8 {
        self.io.push(format!("read {:03X} {}", port, unit(delta)));
        0x88
    }

    fn write_u8(&mut self, port: u16, data: u8, bus: Option<&mut Bus>, delta: DeviceRunTimeUnit) {
        self.io.push(format!("write {:03X} {:02X} {} bus {}", port, data, unit(delta), bus.is_some()));
    }

    fn port_list(&self) -> Vec<u16> {
        vec![0x3D4, 0x3D5, 0x3DA]
    }
}

impl MemoryMappedDevice for Card {
    fn get_read_wait(&mut self, _address: usize, cycles: u32) -> u32 {
        self.ticks_seen.push(cycles);
        self.read_wait
    }

    fn mmio_read_u8(&mut self, address: usize, cycles: u32) -> (u8, u32) {
        self.ticks_seen.push(cycles);
        (*self.cells.get(&address).unwrap_or(&0xEE), self.read_wait)
    }

    fn mmio_read_u16(&mut self, address: usize, cycles: u32) -> (u16, u32) {
        self.ticks_seen.push(cycles);
        let lo = *self.cells.get(&address).unwrap_or(&0xEE) as u16;
        let hi = *self.cells.get(&(address + 1)).unwrap_or(&0xEE) as u16;
        (lo | (hi << 8), self.read_wait)
    }

    fn mmio_peek_u8(&self, address: usize) -> u8 {
        *self.cells.get(&address).unwrap_or(&0xEE)
    }

    fn mmio_peek_u16(&self, address: usize) -> u16 {
        let lo = *self.cells.get(&address).unwrap_or(&0xEE) as u16;
        let hi = *self.cells.get(&(address + 1)).unwrap_or(&0xEE) as u16;
        lo | (hi << 8)
    }

    fn get_write_wait(&mut self, _address: usize, cycles: u32) -> u32 {
        self.ticks_seen.push(cycles);
        self.write_wait
    }

    fn mmio_write_u8(&mut self, address: usize, data: u8, cycles: u32) -> u32 {
        self.ticks_seen.push(cycles);
        self.cells.insert(address, data);
        self.write_wait
    }

    fn mmio_write_u16(&mut self, address: usize, data: u16, cycles: u32) -> u32 {
        self.ticks_seen.push(cycles);
        self.cells.insert(address, data as u8);
        self.cells.insert(address + 1, (data >> 8) as u8);
        self.write_wait
    }
}

impl VideoCard<Machine> for Card {
    fn new(_clock_mode: ClockingMode, _frame_debug: bool) -> Self {
        Card::default()
    }

    fn run(&mut self, delta: DeviceRunTimeUnit, pic: &mut Option<Pic>) {
        note(&self.log, format!("card {} run {}", self.name, unit(delta)));
        self.runs.push(delta);
        if self.raise_on_run {
            if let Some(pic) = pic {
                pic.pulse_interrupt(2);
            }
        }
    }

    fn reset(&mut self) {
        self.resets += 1;
    }
}

fn descriptor() -> MachineDescriptor {
    MachineDescriptor {
        machine_type: MachineType::Ibm5160,
        system_crystal: 14_318_180,
        timer_crystal: None,
        timer_divisor: 12,
        pit_type: PitType::Model8253,
        have_ppi: true,
    }
}

fn configuration(video: &[VideoType]) -> MachineConfiguration {
    MachineConfiguration {
        conventional_memory: 0xA0000,
        keyboard: Some(KeyboardConfig {
            kb_type: KeyboardType::ModelF,
            typematic: true,
            typematic_delay: Some(500),
            typematic_rate: Some(50),
        }),
        fdc: Some(FloppyControllerConfig { drives: 2 }),
        hdc: Some(HardDriveControllerConfig { hdc_type: HardDiskControllerType::IbmXebec }),
        serial: vec![SerialControllerConfig { sc_type: SerialControllerType::IbmAsync }],
        serial_mouse: Some(SerialMouseConfig { mouse_type: SerialMouseType::Microsoft, port: 1 }),
        video: video.iter().map(|t| VideoCardConfig { video_type: *t }).collect(),
    }
}

fn minimal_configuration() -> MachineConfiguration {
    MachineConfiguration {
        conventional_memory: 0x10000,
        keyboard: None,
        fdc: None,
        hdc: None,
        serial: vec![],
        serial_mouse: None,
        video: vec![],
    }
}

fn machine(video: &[VideoType]) -> (Bus, Log) {
    let mut bus = Bus::new(ClockFactor::Divisor(3), descriptor(), KeyboardType::ModelF);
    bus.install_devices(&descriptor(), &configuration(video)).unwrap();
    let log: Log = Rc::new(RefCell::new(Vec::new()));
    bus.keyboard_mut().unwrap().log = Some(log.clone());
    bus.ppi_mut().as_mut().unwrap().log = Some(log.clone());
    bus.pic_mut().as_mut().unwrap().log = Some(log.clone());
    bus.pit_mut().as_mut().unwrap().log = Some(log.clone());
    bus.dma_mut().as_mut().unwrap().log = Some(log.clone());
    bus.fdc_mut().as_mut().unwrap().log = Some(log.clone());
    bus.hdc_mut().as_mut().unwrap().log = Some(log.clone());
    bus.serial_mut().as_mut().unwrap().log = Some(log.clone());
    bus.mouse_mut().as_mut().unwrap().log = Some(log.clone());
    for (i, vtype) in video.iter().enumerate() {
        let id = VideoCardId { idx: i, vtype: *vtype };
        let card = card_of(&mut bus, id);
        card.log = Some(log.clone());
        card.name = format!("{}", i);
    }
    (bus, log)
}

fn card_of(bus: &mut Bus, id: VideoCardId) -> &mut Card {
    match bus.video_mut(&id).unwrap() {
        VideoCardDispatch::Mda(card) => card,
        VideoCardDispatch::Cga(card) => card,
        VideoCardDispatch::Ega(card) => card,
        VideoCardDispatch::Vga(card) => card,
        VideoCardDispatch::Empty => unreachable!(),
    }
}

fn speaker() -> (Producer<u8>, Consumer<u8>) {
    RingBuffer::<u8>::new(64).split()
}

fn run(bus: &mut Bus, us: u32, ticks: u32, key: Option<KeybufferEntry>) -> Option<DeviceEvent> {
    let mut kb_buf = VecDeque::new();
    let (mut producer, _consumer) = speaker();
    assert!(bus.can_run_slice(ticks));
    bus.run_devices(Microseconds::from_whole(us), ticks, key, &mut kb_buf, &mut producer)
}

fn key(code: u8, pressed: bool) -> KeybufferEntry {
    KeybufferEntry {
        keycode: code,
        pressed,
        modifiers: KeyboardModifiers { control: false, alt: false, shift: false, meta: false },
        translate: false,
    }
}

const CGA0: VideoCardId = VideoCardId { idx: 0, vtype: VideoType::CGA };

// ---------------------------------------------------------------------------
// Memory
// ---------------------------------------------------------------------------

#[test]
fn a_new_bus_is_empty() {
    let bus = Bus::default();
    assert_eq!(bus.size(), 0x10_0000);
    assert_eq!(bus.conventional_size(), 0x10_0000);
    assert_eq!(bus.peek_u8(0), Ok(0xFF));
    assert_eq!(bus.peek_u8(0xFFFFF), Ok(0xFF));
    assert_eq!(bus.get_flags(0), 0);
    assert_eq!(bus.get_timings_for_cycles(10).sys_ticks, 4);
    assert_eq!(
        bus.get_timings_for_cycles(10).us.millionths,
        10 * 3 * 1_000_000_000_000 / DEFAULT_SYSTEM_CRYSTAL as u64
    );
    assert!(bus.enumerate_videocards().is_empty());
    assert!(bus.pit().is_none());
    assert_eq!(bus.port_device(0x60), None);
}

#[test]
fn new_builds_the_timing_table_for_its_factor() {
    let mut desc = descriptor();
    desc.system_crystal = 10_000_000;
    let bus = Bus::new(ClockFactor::Multiplier(2), desc, KeyboardType::ModelM);
    let e = bus.get_timings_for_cycles(10);
    assert_eq!(e.sys_ticks, 20);
    assert_eq!(e.us.millionths, 500_000);
    assert_eq!(bus.cycles_to_device_ticks(10), 5);
    assert_eq!(bus.cycles_to_device_ticks(1000), 500);
}

#[test]
fn set_cpu_factor_rebuilds_both_tables() {
    let mut bus = Bus::default();
    assert_eq!(bus.cycles_to_device_ticks(5), 15);
    bus.set_cpu_factor(ClockFactor::Divisor(4));
    assert_eq!(bus.get_timings_for_cycles(9).sys_ticks, 3);
    assert_eq!(bus.cycles_to_device_ticks(5), 20);
    bus.set_cpu_factor(ClockFactor::Multiplier(2));
    assert_eq!(bus.get_timings_for_cycles(9).sys_ticks, 18);
    assert_eq!(bus.cycles_to_device_ticks(5), 2);
    bus.recalculate_cycle_lut();
    assert_eq!(bus.cycles_to_device_ticks(5), 2);
}

#[test]
fn context_timings_come_from_the_table() {
    let bus = Bus::default();
    let mut ctx = DeviceRunContext::default();
    bus.set_context_timings(&mut ctx, 7);
    assert_eq!(ctx.delta_ticks, 3);
    assert_eq!(ctx.delta_us.millionths, 1_466_666);
}

#[test]
fn raw_memory_round_trip() {
    let mut bus = Bus::default();
    for address in [0usize, 1, 0x400, 0x9FFFF, 0xFFFFF] {
        assert_eq!(bus.write_u8(address, 0x5A, 4), Ok(0));
        assert_eq!(bus.read_u8(address, 4), Ok((0x5A, 0)));
        assert_eq!(bus.peek_u8(address), Ok(0x5A));
        assert_eq!(bus.write_u8(address, 0xA5, 0), Ok(0));
        assert_eq!(bus.read_u8(address, 0), Ok((0xA5, 0)));
    }
}

#[test]
fn raw_words_are_little_endian() {
    let mut bus = Bus::default();
    assert_eq!(bus.write_u16(0x100, 0x1234, 0), Ok(0));
    assert_eq!(bus.read_u8(0x100, 0), Ok((0x34, 0)));
    assert_eq!(bus.read_u8(0x101, 0), Ok((0x12, 0)));
    assert_eq!(bus.read_u16(0x100, 0), Ok((0x1234, 0)));
    assert_eq!(bus.read_u16(0x101, 0), Ok((0xFF12, 0)));
}

#[test]
fn accesses_beyond_the_address_space_fail() {
    let mut bus = Bus::default();
    assert_eq!(bus.read_u8(0x10_0000, 0), Err(MemError::ReadOutOfBoundsError));
    assert_eq!(bus.peek_u8(0x10_0000), Err(MemError::ReadOutOfBoundsError));
    assert_eq!(bus.write_u8(0x10_0000, 1, 0), Err(MemError::ReadOutOfBoundsError));
    assert_eq!(bus.get_read_wait(0x10_0000, 0), Err(MemError::ReadOutOfBoundsError));
    assert_eq!(bus.get_write_wait(usize::MAX, 0), Err(MemError::ReadOutOfBoundsError));
    assert_eq!(bus.read_u16(0xFFFFF, 0), Err(MemError::ReadOutOfBoundsError));
    assert_eq!(bus.write_u16(0xFFFFF, 0x1234, 0), Err(MemError::ReadOutOfBoundsError));
    assert_eq!(bus.peek_u8(0xFFFFF), Ok(0xFF));
    assert_eq!(bus.read_u16(0xFFFFE, 0), Ok((0xFFFF, 0)));
    assert_eq!(bus.classify(0x10_0000), MemRoute::OutOfBounds);
    assert_eq!(bus.classify16(0xFFFFF), MemRoute::OutOfBounds);
    assert_eq!(bus.classify(0xFFFFF), MemRoute::Raw);
    assert_eq!(bus.get_read_wait(0xFFFFF, 0), Ok(0));
}

#[test]
fn rom_is_not_written() {
    let mut bus = Bus::default();
    assert_eq!(bus.copy_from(&[1, 2, 3, 4], 0xFE000, 0, true), Ok(()));
    for offset in 0..4usize {
        let before = bus.read_u8(0xFE000 + offset, 0);
        assert_eq!(before, Ok((offset as u8 + 1, 0)));
        assert_eq!(bus.write_u8(0xFE000 + offset, 0x99, 0), Ok(0));
        assert_eq!(bus.read_u8(0xFE000 + offset, 0), before);
    }
    assert_eq!(bus.get_flags(0xFE000) & MEM_ROM_BIT, MEM_ROM_BIT);
    assert_eq!(bus.get_flags(0xFE004) & MEM_ROM_BIT, 0);
    assert_eq!(bus.write_u8(0xFE004, 0x99, 0), Ok(0));
    assert_eq!(bus.read_u8(0xFE004, 0), Ok((0x99, 0)));
}

#[test]
fn word_writes_respect_rom() {
    let mut bus = Bus::default();
    bus.copy_from(&[1, 2], 0x2000, 0, true).unwrap();
    assert_eq!(bus.write_u16(0x2000, 0xAABB, 0), Ok(0));
    assert_eq!(bus.get_vec_at(0x2000, 2), vec![1, 2]);
    assert_eq!(bus.write_u16(0x2001, 0xAABB, 0), Ok(0));
    assert_eq!(bus.get_vec_at(0x2000, 3), vec![1, 2, 0xFF]);
    assert_eq!(bus.write_u16(0x1FFF, 0xAABB, 0), Ok(0));
    assert_eq!(bus.get_vec_at(0x1FFF, 3), vec![0xBB, 1, 2]);
}

#[test]
fn writes_beyond_conventional_memory_are_dropped() {
    let mut bus = Bus::default();
    bus.set_conventional_size(0x1000);
    assert_eq!(bus.conventional_size(), 0x1000);
    let before = bus.get_vec_at(0, 0x3000);
    for address in [0x1000usize, 0x1001, 0x2FFF, 0xFFFFF] {
        assert_eq!(bus.write_u8(address, 0x12, 0), Ok(0));
        if address < 0xFFFFF {
            assert_eq!(bus.write_u16(address, 0x1234, 0), Ok(0));
        }
    }
    assert_eq!(bus.get_vec_at(0, 0x3000), before);
    assert_eq!(bus.peek_u8(0xFFFFF), Ok(0xFF));
    assert_eq!(bus.write_u8(0xFFF, 0x12, 0), Ok(0));
    assert_eq!(bus.peek_u8(0xFFF), Ok(0x12));
    assert_eq!(bus.write_u16(0xFFF, 0xABCD, 0), Ok(0));
    assert_eq!(bus.peek_u8(0xFFF), Ok(0xCD));
    assert_eq!(bus.peek_u8(0x1000), Ok(0xFF));
    bus.set_conventional_size(0);
    assert_eq!(bus.write_u8(0, 0x12, 0), Ok(0));
    assert_eq!(bus.write_u16(0, 0x1234, 0), Ok(0));
    assert_eq!(bus.peek_u8(0), Ok(0xFF));
}

#[test]
fn copy_from_places_bytes_and_records_them() {
    let mut bus = Bus::default();
    assert_eq!(bus.copy_from(&[9, 8, 7], 0x500, 3, false), Ok(()));
    assert_eq!(bus.get_vec_at(0x4FF, 5), vec![0xFF, 9, 8, 7, 0xFF]);
    assert_eq!(bus.get_slice_at(0x500, 3), &[9, 8, 7]);
    assert_eq!(bus.get_flags(0x500), 0);
    assert_eq!(bus.copy_from(&[1], 0xFFFFF, 0, true), Ok(()));
    assert_eq!(bus.peek_u8(0xFFFFF), Ok(1));
    assert_eq!(bus.copy_from(&[], 0x10_0000, 0, true), Ok(()));
}

#[test]
fn copy_from_out_of_range_changes_nothing() {
    let mut bus = Bus::default();
    assert_eq!(bus.copy_from(&[1, 2], 0xFFFFF, 0, true), Err(false));
    assert_eq!(bus.peek_u8(0xFFFFF), Ok(0xFF));
    assert_eq!(bus.get_flags(0xFFFFE), 0);
    assert_eq!(bus.copy_from(&[1], usize::MAX, 0, true), Err(false));
    assert_eq!(bus.patch_from(&vec![1, 2], 0xFFFFF), Err(false));
    assert_eq!(bus.patch_from(&vec![1], 0x10_0000), Err(false));
    assert_eq!(bus.peek_u8(0xFFFFF), Ok(0xFF));
}

#[test]
fn patch_from_overwrites_rom() {
    let mut bus = Bus::default();
    bus.copy_from(&[1, 2, 3], 0xF0000, 0, true).unwrap();
    assert_eq!(bus.patch_from(&vec![0xAA, 0xBB], 0xF0001), Ok(()));
    assert_eq!(bus.get_vec_at(0xF0000, 3), vec![1, 0xAA, 0xBB]);
    assert_eq!(bus.get_flags(0xF0001), MEM_ROM_BIT);
}

#[test]
fn flags_can_be_set_and_cleared_but_for_rom_and_mmio() {
    let mut bus = Bus::default();
    bus.set_flags(0x10, MEM_BPE_BIT | MEM_RET_BIT);
    assert_eq!(bus.get_flags(0x10), MEM_BPE_BIT | MEM_RET_BIT);
    bus.set_flags(0x10, MEM_BPA_BIT);
    assert_eq!(bus.get_flags(0x10), MEM_BPE_BIT | MEM_RET_BIT | MEM_BPA_BIT);
    bus.clear_flags(0x10, MEM_RET_BIT);
    assert_eq!(bus.get_flags(0x10), MEM_BPE_BIT | MEM_BPA_BIT);
    bus.set_flags(0x10, MEM_ROM_BIT);
    bus.clear_flags(0x10, 0xFF);
    assert_eq!(bus.get_flags(0x10), MEM_ROM_BIT);
    bus.set_flags(0x11, MEM_MMIO_BIT);
    assert_eq!(bus.get_flags(0x11), 0);
    assert_eq!(bus.classify(0x11), MemRoute::Raw);
    assert_eq!(bus.get_flags(0x12), 0);
}

#[test]
fn the_last_address_takes_flags_and_addresses_beyond_it_none() {
    let mut bus = Bus::default();
    bus.set_flags(0xFFFFF, MEM_BPE_BIT);
    assert_eq!(bus.get_flags(0xFFFFF), MEM_BPE_BIT);
    bus.set_flags(0xFFFFE, MEM_BPE_BIT);
    assert_eq!(bus.get_flags(0xFFFFE), MEM_BPE_BIT);
    bus.clear_flags(0xFFFFF, MEM_BPE_BIT);
    assert_eq!(bus.get_flags(0xFFFFF), 0);
    bus.copy_from(&[1], 0xFFFFF, 0, true).unwrap();
    assert_eq!(bus.get_flags(0xFFFFF), MEM_ROM_BIT);
    bus.clear_flags(0xFFFFF, 0xFF);
    assert_eq!(bus.get_flags(0xFFFFF), MEM_ROM_BIT);
    bus.set_flags(0x10_0000, MEM_BPE_BIT);
    assert_eq!(bus.get_flags(0x10_0000), 0);
    bus.clear_flags(usize::MAX, MEM_BPE_BIT);
    assert_eq!(bus.get_flags(usize::MAX), 0);
}

#[test]
fn checkpoints_are_flagged_and_unflagged() {
    let mut bus = Bus::default();
    bus.set_flags(0x200, MEM_BPE_BIT);
    bus.install_checkpoints(&vec![
        MachineCheckpoint { addr: 0x200, lvl: 0 },
        MachineCheckpoint { addr: 0xFE05B, lvl: 1 },
        MachineCheckpoint { addr: 0x10_0300, lvl: 1 },
        MachineCheckpoint { addr: 0x200, lvl: 2 },
    ]);
    assert_eq!(bus.get_flags(0x200), MEM_BPE_BIT | MEM_CP_BIT);
    assert_eq!(bus.get_flags(0xFE05B), MEM_CP_BIT);
    assert_eq!(bus.get_flags(0x300), MEM_CP_BIT);
    assert_eq!(bus.get_flags(0x201), 0);
    bus.clear_checkpoints();
    assert_eq!(bus.get_flags(0x200), MEM_BPE_BIT);
    assert_eq!(bus.get_flags(0xFE05B), 0);
    assert_eq!(bus.get_flags(0x300), 0);
}

#[test]
fn clear_zeroes_memory_and_drops_return_flags() {
    let mut bus = Bus::default();
    bus.copy_from(&[1, 2, 3], 0xF0000, 0, true).unwrap();
    bus.set_flags(0x20, MEM_RET_BIT | MEM_BPE_BIT);
    bus.register_map(MmioDeviceType::Video(CGA0), MemRangeDescriptor::new(0xB8000, 0x8000, false));
    bus.clear();
    assert_eq!(bus.get_vec_at(0xF0000, 3), vec![0, 0, 0]);
    assert_eq!(bus.peek_u8(0), Ok(0));
    assert_eq!(bus.get_flags(0x20), MEM_BPE_BIT);
    assert_eq!(bus.get_flags(0xF0000), MEM_ROM_BIT);
    assert_eq!(bus.get_flags(0xB8000), MEM_MMIO_BIT);
    bus.set_flags(0x20, MEM_RET_BIT);
    bus.set_descriptor(0, 0x1000, 0, false);
    bus.reset();
    assert_eq!(bus.get_flags(0x20), MEM_BPE_BIT);
    assert_eq!(bus.get_flags(0xB8000), MEM_MMIO_BIT);
    assert_eq!(bus.classify(0xB8000), MemRoute::Unresolvable);
}

// ---------------------------------------------------------------------------
// Memory-mapped I/O
// ---------------------------------------------------------------------------

#[test]
fn sizes_that_are_no_bucket_multiple_cannot_be_registered() {
    for size in [1usize, 0x1000, 0x1FFF, 0x2001, 0x3000] {
        assert!(!can_register(&MemRangeDescriptor::new(0xB8000, size, false)));
    }
    for size in [0usize, 0x2000, 0x4000, 0x8000, 0x10_0000] {
        assert!(can_register(&MemRangeDescriptor::new(0, size, false)));
    }
    let mut bus = Bus::default();
    let range = MemRangeDescriptor::new(0xB8000, 0x2000, false);
    assert!(can_register(&range));
    bus.register_map(MmioDeviceType::Video(CGA0), range);
    assert_eq!(bus.get_flags(0xB8000), MEM_MMIO_BIT);
    assert_eq!(bus.get_flags(0xB9FFF), MEM_MMIO_BIT);
    assert_eq!(bus.get_flags(0xBA000), 0);
}

#[test]
fn ranges_beyond_the_address_space_cannot_be_registered() {
    assert!(!can_register(&MemRangeDescriptor::new(0xFE000, 0x4000, false)));
    assert!(!can_register(&MemRangeDescriptor::new(usize::MAX, 0x2000, false)));
    assert!(!can_register(&MemRangeDescriptor::new(0x10_0001, 0, false)));
    assert!(can_register(&MemRangeDescriptor::new(0xFE000, 0x2000, false)));
    assert!(can_register(&MemRangeDescriptor::new(0x10_0000, 0, false)));
    let mut bus = Bus::default();
    bus.register_map(MmioDeviceType::Video(CGA0), MemRangeDescriptor::new(0xFE000, 0x2000, false));
    assert_eq!(bus.get_flags(0xFE000), MEM_MMIO_BIT);
    assert_eq!(bus.get_flags(0xFFFFF), MEM_MMIO_BIT);
    bus.register_map(MmioDeviceType::Video(CGA0), MemRangeDescriptor::new(0x10_0000, 0, false));
    assert_eq!(bus.get_flags(0xFDFFF), 0);
}

#[test]
fn register_map_flags_exactly_its_range() {
    let mut bus = Bus::default();
    bus.set_flags(0xB8000, MEM_BPE_BIT);
    bus.register_map(MmioDeviceType::Video(CGA0), MemRangeDescriptor::new(0xB8000, 0x4000, false));
    assert_eq!(bus.get_flags(0xB7FFF), 0);
    assert_eq!(bus.get_flags(0xB8000), MEM_MMIO_BIT | MEM_BPE_BIT);
    assert_eq!(bus.get_flags(0xBBFFF), MEM_MMIO_BIT);
    assert_eq!(bus.get_flags(0xBC000), 0);
    bus.clear_flags(0xB8000, 0xFF);
    assert_eq!(bus.get_flags(0xB8000), MEM_MMIO_BIT);
}

#[test]
fn a_mapped_range_without_its_card_is_an_error() {
    let mut bus = Bus::default();
    bus.write_u8(0xB8000, 0x77, 0).unwrap();
    bus.register_map(MmioDeviceType::Video(CGA0), MemRangeDescriptor::new(0xB8000, 0x8000, false));
    assert_eq!(bus.classify(0xB8000), MemRoute::Unresolvable);
    assert_eq!(bus.read_u8(0xB8000, 0), Err(MemError::MmioError));
    assert_eq!(bus.read_u16(0xB8000, 0), Err(MemError::MmioError));
    assert_eq!(bus.peek_u8(0xB8000), Err(MemError::MmioError));
    assert_eq!(bus.write_u8(0xB8000, 1, 0), Err(MemError::MmioError));
    assert_eq!(bus.write_u16(0xB8000, 1, 0), Err(MemError::MmioError));
    assert_eq!(bus.get_read_wait(0xB8000, 0), Err(MemError::MmioError));
    assert_eq!(bus.get_write_wait(0xB8000, 0), Err(MemError::MmioError));
    assert_eq!(bus.get_vec_at(0xB8000, 1), vec![0x77]);
    bus.insert_card(CGA0, VideoCardDispatch::Empty);
    assert_eq!(bus.classify(0xB8000), MemRoute::Unresolvable);
    assert_eq!(bus.read_u8(0xB8000, 0), Err(MemError::MmioError));
    for tag in [MmioDeviceType::Cga, MmioDeviceType::Ega, MmioDeviceType::Vga] {
        bus.register_map(tag, MemRangeDescriptor::new(0xA0000, 0x2000, false));
        assert_eq!(bus.read_u8(0xA0000, 0), Err(MemError::MmioError));
    }
}

#[test]
fn a_mapped_range_that_names_no_device_is_plain_memory() {
    let mut bus = Bus::default();
    for (i, tag) in [MmioDeviceType::Memory, MmioDeviceType::Unmapped, MmioDeviceType::Rom]
        .iter()
        .enumerate()
    {
        let base = 0x40000 + i * 0x2000;
        bus.register_map(*tag, MemRangeDescriptor::new(base, 0x2000, false));
        assert_eq!(bus.get_flags(base), MEM_MMIO_BIT);
        assert_eq!(bus.classify(base), MemRoute::Raw);
        assert_eq!(bus.write_u8(base, 0x42, 0), Ok(0));
        assert_eq!(bus.read_u8(base, 0), Ok((0x42, 0)));
        assert_eq!(bus.peek_u8(base), Ok(0x42));
        assert_eq!(bus.write_u16(base + 2, 0x1234, 0), Ok(0));
        assert_eq!(bus.read_u16(base + 2, 0), Ok((0x1234, 0)));
        assert_eq!(bus.get_read_wait(base, 0), Ok(0));
        assert_eq!(bus.get_write_wait(base, 0), Ok(0));
    }
}

#[test]
fn a_card_answers_in_its_range() {
    let (mut bus, _log) = machine(&[VideoType::CGA]);
    assert_eq!(bus.classify(0xB8000), MemRoute::Card(0));
    assert_eq!(bus.classify(0xBFFFF), MemRoute::Card(0));
    assert_eq!(bus.classify(0xB7FFF), MemRoute::Raw);
    assert_eq!(bus.classify(0xC0000), MemRoute::Raw);
    card_of(&mut bus, CGA0).read_wait = 4;
    card_of(&mut bus, CGA0).write_wait = 7;
    assert_eq!(bus.write_u8(0xB8000, 0x41, 2), Ok(3));
    assert_eq!(bus.read_u8(0xB8000, 2), Ok((0x41, 2)));
    assert_eq!(bus.peek_u8(0xB8000), Ok(0x41));
    assert_eq!(bus.read_u8(0xB8001, 0), Ok((0xEE, 2)));
    assert_eq!(bus.get_vec_at(0xB8000, 1), vec![0xFF]);
    assert_eq!(bus.get_read_wait(0xB8000, 5), Ok(2));
    assert_eq!(bus.get_write_wait(0xB8000, 5), Ok(3));
    assert_eq!(card_of(&mut bus, CGA0).ticks_seen, vec![6, 6, 0, 15, 15]);
}

#[test]
fn a_card_is_handed_the_largest_count_where_the_ticks_do_not_fit() {
    let (mut bus, _log) = machine(&[VideoType::CGA]);
    card_of(&mut bus, CGA0).read_wait = 4;
    assert_eq!(bus.read_u8(0xB8000, 0x5555_5555), Ok((0xEE, 2)));
    assert_eq!(bus.read_u8(0xB8000, 0x5555_5556), Ok((0xEE, 2)));
    assert_eq!(bus.write_u8(0xB8000, 1, u32::MAX), Ok(0));
    assert_eq!(bus.get_read_wait(0xB8000, u32::MAX), Ok(2));
    assert_eq!(card_of(&mut bus, CGA0).ticks_seen, vec![0xFFFF_FFFF, u32::MAX, u32::MAX, u32::MAX]);
    assert_eq!(bus.write_u8(0x100, 7, u32::MAX), Ok(0));
    assert_eq!(bus.read_u8(0x100, u32::MAX), Ok((7, 0)));
    assert_eq!(bus.io_read_u8(0x278, u32::MAX), 0xFF);
}

#[test]
fn a_card_answers_even_where_memory_is_rom() {
    let (mut bus, _log) = machine(&[VideoType::CGA]);
    bus.copy_from(&[0x11], 0xB8000, 0, true).unwrap();
    assert_eq!(bus.get_flags(0xB8000), MEM_ROM_BIT | MEM_MMIO_BIT);
    assert_eq!(bus.read_u8(0xB8000, 0), Ok((0xEE, 0)));
    assert_eq!(bus.write_u8(0xB8000, 0x22, 0), Ok(0));
    assert_eq!(bus.read_u8(0xB8000, 0), Ok((0x22, 0)));
    assert_eq!(bus.get_vec_at(0xB8000, 1), vec![0x11]);
}

#[test]
fn a_card_is_written_words_byte_by_byte() {
    let (mut bus, _log) = machine(&[VideoType::CGA]);
    card_of(&mut bus, CGA0).write_wait = 4;
    card_of(&mut bus, CGA0).read_wait = 3;
    assert_eq!(bus.write_u16(0xB8010, 0xBEEF, 3), Ok(3));
    assert_eq!(card_of(&mut bus, CGA0).ticks_seen, vec![9, 0]);
    assert_eq!(bus.read_u16(0xB8010, 1), Ok((0xBEEF, 1)));
    assert_eq!(bus.peek_u8(0xB8010), Ok(0xEF));
    assert_eq!(bus.peek_u8(0xB8011), Ok(0xBE));
    assert_eq!(bus.get_vec_at(0xB8010, 2), vec![0xFF, 0xFF]);
}

#[test]
fn write_wait_query_agrees_with_the_write() {
    let (mut bus, _log) = machine(&[VideoType::CGA, VideoType::MDA]);
    let mda = VideoCardId { idx: 1, vtype: VideoType::MDA };
    card_of(&mut bus, CGA0).write_wait = 10;
    card_of(&mut bus, mda).write_wait = 1;
    for factor in [ClockFactor::Divisor(3), ClockFactor::Divisor(1), ClockFactor::Multiplier(2)] {
        bus.set_cpu_factor(factor);
        for address in [0xB8000usize, 0xBFFFF, 0xB0000, 0xB7FFF, 0x500] {
            for cycles in [0u32, 4, 200, 300] {
                let asked = bus.get_write_wait(address, cycles);
                let direct = bus.write_u8(address, 0x20, cycles);
                assert_eq!(asked, direct);
                let again = bus.write_u8(address, 0x20, cycles);
                assert_eq!(direct, again);
            }
        }
    }
    bus.set_cpu_factor(ClockFactor::Divisor(3));
    assert_eq!(bus.get_write_wait(0xB8000, 0), Ok(4));
    assert_eq!(bus.get_write_wait(0xB0000, 0), Ok(1));
    assert_eq!(bus.get_write_wait(0x500, 0), Ok(0));
    bus.set_cpu_factor(ClockFactor::Multiplier(2));
    assert_eq!(bus.get_write_wait(0xB8000, 0), Ok(20));
}

#[test]
fn card_waits_are_held_at_the_largest_count() {
    let (mut bus, _log) = machine(&[VideoType::CGA]);
    bus.set_cpu_factor(ClockFactor::Multiplier(4));
    card_of(&mut bus, CGA0).write_wait = u32::MAX;
    card_of(&mut bus, CGA0).read_wait = 0x4000_0000;
    assert_eq!(bus.write_u8(0xB8000, 0, 0), Ok(u32::MAX));
    assert_eq!(bus.write_u16(0xB8000, 0, 0), Ok(u32::MAX));
    assert_eq!(bus.read_u8(0xB8000, 0), Ok((0, u32::MAX)));
    card_of(&mut bus, CGA0).read_wait = 0x3FFF_FFFF;
    assert_eq!(bus.read_u8(0xB8000, 0), Ok((0, 0xFFFF_FFFC)));
}

#[test]
fn two_cards_answer_each_in_its_own_range() {
    let (mut bus, _log) = machine(&[VideoType::MDA, VideoType::CGA]);
    let mda = VideoCardId { idx: 0, vtype: VideoType::MDA };
    let cga = VideoCardId { idx: 1, vtype: VideoType::CGA };
    assert_eq!(bus.enumerate_videocards(), vec![mda, cga]);
    assert_eq!(bus.classify(0xB0000), MemRoute::Card(0));
    assert_eq!(bus.classify(0xB8000), MemRoute::Card(1));
    bus.write_u8(0xB0000, 1, 0).unwrap();
    bus.write_u8(0xB8000, 2, 0).unwrap();
    assert_eq!(card_of(&mut bus, mda).cells.get(&0xB0000), Some(&1));
    assert_eq!(card_of(&mut bus, mda).cells.get(&0xB8000), None);
    assert_eq!(card_of(&mut bus, cga).cells.get(&0xB8000), Some(&2));
    assert!(bus.video(&mda).is_some());
    assert!(bus.video(&VideoCardId { idx: 0, vtype: VideoType::CGA }).is_none());
    assert!(bus.primary_video().is_some());
    assert!(matches!(bus.primary_video_mut(), Some(VideoCardDispatch::Mda(_))));
}

#[test]
fn an_enhanced_card_has_two_ranges() {
    let (bus, _log) = machine(&[VideoType::EGA]);
    assert_eq!(bus.classify(0xA0000), MemRoute::Card(0));
    assert_eq!(bus.classify(0xAFFFF), MemRoute::Card(0));
    assert_eq!(bus.classify(0xB0000), MemRoute::Raw);
    assert_eq!(bus.classify(0xB8000), MemRoute::Card(0));
    assert_eq!(bus.get_flags(0xA0000), MEM_MMIO_BIT);
    assert_eq!(bus.get_flags(0xB7FFF), 0);
}

#[test]
fn inserting_a_card_twice_replaces_it() {
    let mut bus = Bus::default();
    let log: Log = Rc::new(RefCell::new(Vec::new()));
    bus.insert_card(CGA0, VideoCardDispatch::Cga(Card::named("first", &log)));
    bus.insert_card(CGA0, VideoCardDispatch::Cga(Card::named("second", &log)));
    assert_eq!(bus.enumerate_videocards(), vec![CGA0, CGA0]);
    assert_eq!(bus.find_card(CGA0), Some(0));
    assert_eq!(card_of(&mut bus, CGA0).name, "second");
    let other = VideoCardId { idx: 1, vtype: VideoType::CGA };
    assert_eq!(bus.find_card(other), None);
    bus.insert_card(other, VideoCardDispatch::Cga(Card::named("third", &log)));
    assert_eq!(bus.find_card(other), Some(1));
    assert_eq!(card_of(&mut bus, CGA0).name, "second");
}

// ---------------------------------------------------------------------------
// Ports
// ---------------------------------------------------------------------------

#[test]
fn an_unmapped_port_reads_as_open_bus() {
    let (mut bus, log) = machine(&[VideoType::CGA]);
    assert_eq!(bus.port_device(0x278), None);
    assert_eq!(bus.io_read_u8(0x0278, 4), 0xFF);
    assert_eq!(bus.io_read_u8(0x0278, 4), NO_IO_BYTE);
    bus.io_write_u8(0x0278, 0x12, 4);
    assert!(log.borrow().is_empty());
    assert!(bus.pit().as_ref().unwrap().writes.is_empty());
    assert!(bus.pic_mut().as_ref().unwrap().pulses.is_empty());
    assert!(card_of(&mut bus, CGA0).io.is_empty());
    assert_eq!(bus.get_vec_at(0, 16), vec![0xFF; 16]);
}

#[test]
fn a_port_of_an_absent_device_reads_as_open_bus() {
    let (mut bus, log) = machine(&[]);
    *bus.ppi_mut() = None;
    *bus.fdc_mut() = None;
    assert_eq!(bus.port_device(0x60), Some(IoDeviceType::Ppi));
    assert_eq!(bus.io_read_u8(0x60, 0), 0xFF);
    assert_eq!(bus.io_read_u8(0x3F4, 0), 0xFF);
    bus.io_write_u8(0x60, 1, 0);
    bus.io_write_u8(0x3F4, 1, 0);
    assert!(log.borrow().is_empty());
    assert!(bus.ppi_mut().is_none());
    let mut bare = Bus::default();
    let mut ports = std::collections::HashMap::new();
    map_ports(&mut ports, &vec![1, 2], IoDeviceType::Mouse);
    assert_eq!(ports.get(&1), Some(&IoDeviceType::Mouse));
    assert_eq!(bare.io_read_u8(0x40, 0), 0xFF);
}

#[test]
fn mapped_ports_reach_their_devices() {
    let (mut bus, log) = machine(&[VideoType::CGA, VideoType::EGA]);
    assert_eq!(bus.io_read_u8(0x60, 4), 0x11);
    assert_eq!(bus.io_read_u8(0x21, 4), 0x22);
    assert_eq!(bus.io_read_u8(0x43, 4), 0x33);
    assert_eq!(bus.io_read_u8(0x0F, 4), 0x44);
    assert_eq!(bus.io_read_u8(0x3F5, 4), 0x55);
    assert_eq!(bus.io_read_u8(0x322, 4), 0x66);
    assert_eq!(bus.io_read_u8(0x3FD, 4), 0x77);
    assert_eq!(
        *log.borrow(),
        vec!["ppi read 060 us 0", "pic read 021 us 0", "pit read 043 ticks 12", "dma read 00F us 0"]
    );
    // Both cards advertise the same ports: the card installed last answers.
    assert_eq!(bus.io_read_u8(0x3DA, 4), 0x88);
    let ega = VideoCardId { idx: 1, vtype: VideoType::EGA };
    assert_eq!(bus.port_device(0x3DA), Some(IoDeviceType::Video(ega)));
    assert_eq!(card_of(&mut bus, ega).io, vec!["read 3DA us 0"]);
    assert!(card_of(&mut bus, CGA0).io.is_empty());
}

#[test]
fn tick_driven_cards_are_told_the_ticks_of_a_port_access() {
    let (mut bus, _log) = machine(&[VideoType::CGA]);
    assert_eq!(bus.io_read_u8(0x3D4, 5), 0x88);
    bus.io_write_u8(0x3D5, 0x0E, 6);
    assert_eq!(card_of(&mut bus, CGA0).io, vec!["read 3D4 ticks 15", "write 3D5 0E ticks 18 bus false"]);
    bus.set_cpu_factor(ClockFactor::Multiplier(2));
    assert_eq!(bus.io_read_u8(0x3D4, 5), 0x88);
    assert_eq!(card_of(&mut bus, CGA0).io[2], "read 3D4 ticks 2");
}

#[test]
fn a_written_device_is_handed_the_bus_without_itself() {
    let (mut bus, log) = machine(&[]);
    bus.io_write_u8(0x43, 0x36, 2);
    assert_eq!(*log.borrow(), vec!["pit write 043 36 ticks 6", "pic pulse 0"]);
    let pit = bus.pit().as_ref().unwrap();
    assert_eq!(pit.writes, vec![(0x43, 0x36, true)]);
    assert_eq!(pit.saw_own_slot_empty, vec![true]);
    assert_eq!(bus.pic_mut().as_ref().unwrap().pulses, vec![0]);
    bus.io_write_u8(0x61, 0x4C, 0);
    bus.io_write_u8(0x20, 0x20, 0);
    bus.io_write_u8(0x0A, 0x04, 0);
    bus.io_write_u8(0x3F8, 0x41, 0);
    assert_eq!(bus.ppi_mut().as_ref().unwrap().writes, vec![(0x61, 0x4C, true)]);
    assert_eq!(bus.pic_mut().as_ref().unwrap().writes, vec![(0x20, 0x20, true)]);
    assert_eq!(bus.dma_mut().as_ref().unwrap().writes, vec![(0x0A, 0x04, true)]);
    assert_eq!(bus.serial_mut().as_ref().unwrap().writes, vec![(0x3F8, 0x41, false)]);
}

// ---------------------------------------------------------------------------
// The scheduler's decisions
// ---------------------------------------------------------------------------

#[test]
fn keyboard_time_gathers_until_an_update_is_due() {
    let us = Microseconds::from_whole;
    assert_eq!(accumulate_keyboard_time(us(0), us(1000)), (false, us(1000)));
    assert_eq!(accumulate_keyboard_time(us(4000), us(1000)), (false, us(5000)));
    assert_eq!(
        accumulate_keyboard_time(us(5000), Microseconds::from_millionths(1)),
        (true, Microseconds::from_millionths(1))
    );
    assert_eq!(accumulate_keyboard_time(us(4000), us(3000)), (true, us(2000)));
    assert_eq!(accumulate_keyboard_time(us(0), us(20000)), (true, us(15000)));
    assert_eq!(
        accumulate_keyboard_time(Microseconds::from_millionths(u64::MAX), us(1)),
        (true, Microseconds::from_millionths(u64::MAX - 5_000_000_000))
    );
}

#[test]
fn video_ticks_gather_until_past_the_threshold() {
    assert_eq!(accumulate_video_ticks(0, 0), (None, 0));
    assert_eq!(accumulate_video_ticks(0, 8), (None, 8));
    assert_eq!(accumulate_video_ticks(0, 9), (Some(9), 0));
    assert_eq!(accumulate_video_ticks(8, 1), (Some(9), 0));
    assert_eq!(accumulate_video_ticks(4, 4), (None, 8));
    assert_eq!(accumulate_video_ticks(8, u32::MAX - 8), (Some(u32::MAX), 0));
}

#[test]
fn refresh_steps() {
    assert_eq!(refresh_step(true, true, false), RefreshStep::Inspect);
    assert_eq!(refresh_step(true, true, true), RefreshStep::Inspect);
    assert_eq!(refresh_step(false, true, false), RefreshStep::Keep);
    assert_eq!(refresh_step(false, true, true), RefreshStep::Keep);
    assert_eq!(refresh_step(true, false, true), RefreshStep::Disable);
    assert_eq!(refresh_step(false, false, true), RefreshStep::Disable);
    assert_eq!(refresh_step(true, false, false), RefreshStep::Keep);
    assert_eq!(refresh_step(false, false, false), RefreshStep::Keep);
}

#[test]
fn refresh_updates() {
    assert_eq!(refresh_update(18, 0, false, 5), Some(DeviceEvent::DramRefreshUpdate(18, 0, 0)));
    assert_eq!(refresh_update(18, 0, true, 5), Some(DeviceEvent::DramRefreshUpdate(18, 0, 5)));
    assert_eq!(refresh_update(18, 7, false, 5), Some(DeviceEvent::DramRefreshUpdate(18, 7, 5)));
    assert_eq!(refresh_update(18, 18, true, 11), Some(DeviceEvent::DramRefreshUpdate(18, 18, 11)));
    assert_eq!(refresh_update(18, 19, true, 11), None);
    assert_eq!(refresh_update(0, 0, false, 3), Some(DeviceEvent::DramRefreshUpdate(0, 0, 0)));
    assert_eq!(refresh_update(0, 1, false, 3), None);
}

#[test]
fn timing_workarounds_arm_and_release() {
    assert_eq!(arm_triggers(5117, (false, false)), (true, false));
    assert_eq!(arm_triggers(5162, (false, false)), (false, true));
    assert_eq!(arm_triggers(5162, (true, false)), (true, true));
    assert_eq!(arm_triggers(5117, (true, true)), (true, true));
    assert_eq!(arm_triggers(19912, (true, false)), (true, false));
    assert_eq!(arm_triggers(0, (false, false)), (false, false));
    assert_eq!(release_triggers(19912, (true, false)), (false, false));
    assert_eq!(release_triggers(19912, (false, true)), (false, false));
    assert_eq!(release_triggers(19912, (true, true)), (false, true));
    assert_eq!(release_triggers(19912, (false, false)), (false, false));
    assert_eq!(release_triggers(5117, (true, true)), (true, true));
}

// ---------------------------------------------------------------------------
// The scheduler
// ---------------------------------------------------------------------------

#[test]
fn devices_run_in_order() {
    let (mut bus, log) = machine(&[VideoType::MDA, VideoType::CGA]);
    let event = run(&mut bus, 1000, 9, None);
    assert_eq!(event, None);
    assert_eq!(
        *log.borrow(),
        vec![
            "pic run 9",
            "ppi run 1000000000 pic ran 1",
            "pit run ticks 9",
            "pit dirty? 1",
            "fdc run 1000000000 dma slot empty true",
            "hdc run 1000000000",
            "dma run",
            "serial run 1000000000",
            "mouse run 1000000000",
            "card 0 run us 1000000000",
            "card 1 run ticks 9",
        ]
    );
    assert_eq!(bus.pit().as_ref().unwrap().saw_own_slot_empty, vec![true]);
    assert_eq!(bus.fdc_mut().as_ref().unwrap().dma_runs_seen, vec![0]);
    assert_eq!(bus.dma_mut().as_ref().unwrap().runs, 1);
    assert_eq!(bus.serial_mut().as_ref().unwrap().mouse_bytes, vec![0x4D]);
}

#[test]
fn a_key_press_pulses_the_keyboard_interrupt_once() {
    let (mut bus, log) = machine(&[]);
    let event = run(&mut bus, 1000, 12, Some(key(0x1E, true)));
    assert_eq!(event, None);
    assert_eq!(bus.pic_mut().as_ref().unwrap().pulses, vec![1]);
    assert_eq!(bus.ppi_mut().as_ref().unwrap().latched, vec![0x1E]);
    assert_eq!(log.borrow()[..3], ["kb down 1E", "ppi latch 1E", "pic pulse 1"]);
    assert_eq!(log.borrow()[3], "pic run 12");
    run(&mut bus, 1000, 12, None);
    assert_eq!(bus.pic_mut().as_ref().unwrap().pulses, vec![1]);
    assert!(bus.keyboard_mut().unwrap().runs.is_empty());
}

#[test]
fn a_key_reaches_no_interrupt_while_keyboard_interrupts_are_off() {
    let (mut bus, _log) = machine(&[]);
    bus.ppi_mut().as_mut().unwrap().kb_enabled = false;
    run(&mut bus, 1000, 12, Some(key(0x1E, true)));
    assert_eq!(bus.ppi_mut().as_ref().unwrap().latched, vec![0x1E]);
    assert!(bus.pic_mut().as_ref().unwrap().pulses.is_empty());
    bus.ppi_mut().as_mut().unwrap().kb_enabled = true;
    run(&mut bus, 1000, 12, Some(key(0x1E, false)));
    assert_eq!(bus.ppi_mut().as_ref().unwrap().latched, vec![0x1E, 0x9E]);
    assert_eq!(bus.pic_mut().as_ref().unwrap().pulses, vec![1]);
}

#[test]
fn keys_that_the_keyboard_cannot_take_go_to_the_buffer() {
    let (mut bus, _log) = machine(&[]);
    bus.keyboard_mut().unwrap().overflow = true;
    let mut kb_buf = VecDeque::new();
    let (mut producer, _consumer) = speaker();
    bus.run_devices(Microseconds::from_whole(10), 1, Some(key(0x30, true)), &mut kb_buf, &mut producer);
    assert_eq!(kb_buf.len(), 1);
    assert_eq!(kb_buf[0].keycode, 0x30);
    assert!(bus.ppi_mut().as_ref().unwrap().latched.is_empty());
}

#[test]
fn the_keyboard_is_advanced_once_its_period_has_passed() {
    let (mut bus, _log) = machine(&[]);
    bus.keyboard_mut().unwrap().on_run.push_back(0x2A);
    run(&mut bus, 3000, 1, None);
    assert!(bus.keyboard_mut().unwrap().runs.is_empty());
    run(&mut bus, 2000, 1, None);
    assert!(bus.keyboard_mut().unwrap().runs.is_empty());
    run(&mut bus, 1, 1, None);
    assert_eq!(bus.keyboard_mut().unwrap().runs, vec![5_000_000_000]);
    assert_eq!(bus.ppi_mut().as_ref().unwrap().latched, vec![0x2A]);
    assert_eq!(bus.pic_mut().as_ref().unwrap().pulses, vec![1]);
    run(&mut bus, 4999, 1, None);
    assert_eq!(bus.keyboard_mut().unwrap().runs.len(), 1);
    run(&mut bus, 11_000, 1, None);
    assert_eq!(bus.keyboard_mut().unwrap().runs.len(), 2);
    run(&mut bus, 0, 1, None);
    assert_eq!(bus.keyboard_mut().unwrap().runs.len(), 3);
    run(&mut bus, 0, 1, None);
    assert_eq!(bus.keyboard_mut().unwrap().runs.len(), 4);
    run(&mut bus, 0, 1, None);
    assert_eq!(bus.keyboard_mut().unwrap().runs.len(), 4);
}

#[test]
fn a_refresh_update_is_returned_once_when_the_timer_starts_counting() {
    let (mut bus, _log) = machine(&[]);
    assert_eq!(run(&mut bus, 10, 12, None), None);
    {
        let pit = bus.pit_mut().as_mut().unwrap();
        pit.channel1 = (18, 18);
        pit.report = (true, true, true);
        pit.accum = 5;
    }
    assert_eq!(run(&mut bus, 10, 12, None), Some(DeviceEvent::DramRefreshUpdate(18, 18, 5)));
    bus.pit_mut().as_mut().unwrap().report = (false, true, false);
    assert_eq!(run(&mut bus, 10, 12, None), None);
    assert_eq!(run(&mut bus, 10, 12, None), None);
    assert_eq!(bus.pit().as_ref().unwrap().asked, 4);
}

#[test]
fn a_timer_that_has_not_ticked_yet_gives_an_update_without_count() {
    let (mut bus, _log) = machine(&[]);
    {
        let pit = bus.pit_mut().as_mut().unwrap();
        pit.channel1 = (18, 0);
        pit.report = (true, true, false);
        pit.accum = 7;
    }
    assert_eq!(run(&mut bus, 10, 12, None), Some(DeviceEvent::DramRefreshUpdate(18, 0, 0)));
}

#[test]
fn a_count_out_of_range_gives_no_update() {
    let (mut bus, _log) = machine(&[]);
    {
        let pit = bus.pit_mut().as_mut().unwrap();
        pit.channel1 = (18, 19);
        pit.report = (true, true, true);
    }
    assert_eq!(run(&mut bus, 10, 12, None), None);
    bus.pit_mut().as_mut().unwrap().report = (false, false, false);
    assert_eq!(run(&mut bus, 10, 12, None), None);
}

#[test]
fn refresh_is_switched_off_when_the_timer_stops_counting() {
    let (mut bus, _log) = machine(&[]);
    {
        let pit = bus.pit_mut().as_mut().unwrap();
        pit.channel1 = (18, 3);
        pit.report = (true, true, true);
        pit.accum = 2;
    }
    assert_eq!(run(&mut bus, 10, 12, None), Some(DeviceEvent::DramRefreshUpdate(18, 3, 2)));
    bus.pit_mut().as_mut().unwrap().report = (true, false, false);
    assert_eq!(run(&mut bus, 10, 12, None), Some(DeviceEvent::DramRefreshEnable(false)));
    bus.pit_mut().as_mut().unwrap().report = (false, false, false);
    assert_eq!(run(&mut bus, 10, 12, None), None);
    bus.pit_mut().as_mut().unwrap().report = (true, true, true);
    assert_eq!(run(&mut bus, 10, 12, None), Some(DeviceEvent::DramRefreshUpdate(18, 3, 2)));
}

#[test]
fn timing_workarounds_follow_the_system_channel() {
    let (mut bus, _log) = machine(&[VideoType::CGA]);
    assert_eq!(bus.armed_triggers(), (false, false));
    bus.pit_mut().as_mut().unwrap().channel0 = (5117, 0);
    run(&mut bus, 10, 20, None);
    assert_eq!(bus.armed_triggers(), (true, false));
    bus.pit_mut().as_mut().unwrap().channel0 = (5162, 0);
    run(&mut bus, 10, 20, None);
    assert_eq!(bus.armed_triggers(), (true, true));
    bus.pit_mut().as_mut().unwrap().channel0 = (19912, 0);
    run(&mut bus, 10, 1, None);
    assert_eq!(bus.armed_triggers(), (true, true));
    run(&mut bus, 10, 20, None);
    assert_eq!(bus.armed_triggers(), (false, true));
    run(&mut bus, 10, 20, None);
    assert_eq!(bus.armed_triggers(), (false, false));
    bus.set_timing_workarounds(false);
    bus.pit_mut().as_mut().unwrap().channel0 = (5117, 0);
    run(&mut bus, 10, 20, None);
    assert_eq!(bus.armed_triggers(), (false, false));
    bus.set_timing_workarounds(true);
    run(&mut bus, 10, 20, None);
    assert_eq!(bus.armed_triggers(), (true, false));
    bus.set_timing_workarounds(false);
    assert_eq!(bus.armed_triggers(), (false, false));
}

#[test]
fn ticks_owed_to_the_timer_are_paid_once() {
    let (mut bus, _log) = machine(&[]);
    bus.adjust_pit(5);
    bus.adjust_pit(2);
    assert!(bus.can_run_slice(u32::MAX - 8));
    assert!(!bus.can_run_slice(u32::MAX - 6));
    run(&mut bus, 10, 12, None);
    run(&mut bus, 10, 12, None);
    assert_eq!(
        bus.pit().as_ref().unwrap().runs,
        vec![DeviceRunTimeUnit::SystemTicks(19), DeviceRunTimeUnit::SystemTicks(12)]
    );
}

#[test]
fn a_timer_with_its_own_crystal_runs_on_time() {
    let mut desc = descriptor();
    desc.timer_crystal = Some(1_193_182);
    let mut bus = Bus::new(ClockFactor::Divisor(3), desc, KeyboardType::ModelF);
    bus.install_devices(&desc, &minimal_configuration()).unwrap();
    assert_eq!(bus.pit().as_ref().unwrap().made_with, Some((PitType::Model8253, 1_193_182, 12)));
    bus.adjust_pit(5);
    run(&mut bus, 10, 12, None);
    assert_eq!(
        bus.pit().as_ref().unwrap().runs,
        vec![DeviceRunTimeUnit::Microseconds(Microseconds::from_whole(10))]
    );
    run(&mut bus, 10, 12, None);
    assert_eq!(bus.pit().as_ref().unwrap().runs.len(), 2);
    assert!(!bus.can_run_slice(u32::MAX - 4));
    assert!(bus.can_run_slice(u32::MAX - 8));
}

#[test]
fn ticks_that_do_not_fit_are_held_at_the_largest_count() {
    let (mut bus, _log) = machine(&[VideoType::CGA]);
    bus.adjust_pit(7);
    assert!(!bus.can_run_slice(u32::MAX - 3));
    let mut kb_buf = VecDeque::new();
    let (mut producer, _consumer) = speaker();
    bus.run_devices(Microseconds::from_whole(10), u32::MAX - 3, None, &mut kb_buf, &mut producer);
    assert_eq!(bus.pit().as_ref().unwrap().runs, vec![DeviceRunTimeUnit::SystemTicks(u32::MAX)]);
    bus.run_devices(Microseconds::from_whole(10), 5, None, &mut kb_buf, &mut producer);
    assert_eq!(
        bus.pit().as_ref().unwrap().runs,
        vec![DeviceRunTimeUnit::SystemTicks(u32::MAX), DeviceRunTimeUnit::SystemTicks(5)]
    );
    assert_eq!(accumulate_video_ticks(8, u32::MAX), (Some(u32::MAX), 0));
    assert_eq!(accumulate_video_ticks(1, u32::MAX), (Some(u32::MAX), 0));
}

#[test]
fn the_timer_writes_speaker_samples() {
    let (mut bus, _log) = machine(&[]);
    let mut kb_buf = VecDeque::new();
    let (mut producer, mut consumer) = speaker();
    bus.run_devices(Microseconds::from_whole(10), 12, None, &mut kb_buf, &mut producer);
    bus.run_devices(Microseconds::from_whole(10), 12, None, &mut kb_buf, &mut producer);
    assert_eq!(consumer.pop(), Some(0x5A));
    assert_eq!(consumer.pop(), Some(0x5A));
    assert_eq!(consumer.pop(), None);
}

#[test]
fn a_colour_adapter_runs_on_gathered_ticks() {
    let (mut bus, _log) = machine(&[VideoType::CGA]);
    run(&mut bus, 10, 4, None);
    run(&mut bus, 10, 4, None);
    assert!(card_of(&mut bus, CGA0).runs.is_empty());
    run(&mut bus, 10, 4, None);
    assert_eq!(card_of(&mut bus, CGA0).runs, vec![DeviceRunTimeUnit::SystemTicks(12)]);
    run(&mut bus, 10, 9, None);
    assert_eq!(card_of(&mut bus, CGA0).runs[1], DeviceRunTimeUnit::SystemTicks(9));
    run(&mut bus, 10, 8, None);
    run(&mut bus, 10, 0, None);
    assert_eq!(card_of(&mut bus, CGA0).runs.len(), 2);
    run(&mut bus, 10, 1, None);
    assert_eq!(card_of(&mut bus, CGA0).runs[2], DeviceRunTimeUnit::SystemTicks(9));
}

#[test]
fn other_cards_run_on_time_and_may_raise_interrupts() {
    for vtype in [VideoType::MDA, VideoType::EGA, VideoType::VGA] {
        let (mut bus, _log) = machine(&[vtype]);
        let id = VideoCardId { idx: 0, vtype };
        card_of(&mut bus, id).raise_on_run = true;
        run(&mut bus, 25, 1, None);
        assert_eq!(
            card_of(&mut bus, id).runs,
            vec![DeviceRunTimeUnit::Microseconds(Microseconds::from_whole(25))]
        );
        assert_eq!(bus.pic_mut().as_ref().unwrap().pulses, vec![2]);
    }
}

#[test]
fn devices_with_the_bus_in_hand_can_write_memory() {
    let (mut bus, _log) = machine(&[]);
    bus.dma_mut().as_mut().unwrap().store = Some((0x1234, 0xAB));
    run(&mut bus, 10, 1, None);
    assert_eq!(bus.peek_u8(0x1234), Ok(0xAB));
}

#[test]
fn a_bus_without_devices_runs_nothing() {
    let mut bus = Bus::default();
    bus.write_u8(0x10, 0x42, 0).unwrap();
    assert_eq!(run(&mut bus, 1000, 100, Some(key(0x1E, true))), None);
    assert_eq!(run(&mut bus, 10_000, 100, None), None);
    assert_eq!(bus.peek_u8(0x10), Ok(0x42));
    assert!(bus.pit().is_none());
    assert!(bus.keyboard_mut().is_none());
}

#[test]
fn a_bus_without_a_timer_returns_no_event() {
    let (mut bus, log) = machine(&[VideoType::CGA]);
    *bus.pit_mut() = None;
    assert_eq!(run(&mut bus, 10, 12, None), None);
    assert!(!log.borrow().iter().any(|l| l.starts_with("pit")));
    assert!(log.borrow().iter().any(|l| l == "dma run"));
}

#[test]
fn storage_controllers_need_the_dma_controller() {
    let (mut bus, log) = machine(&[]);
    *bus.dma_mut() = None;
    run(&mut bus, 10, 12, None);
    assert!(!log.borrow().iter().any(|l| l.starts_with("fdc") || l.starts_with("hdc")));
    assert!(log.borrow().iter().any(|l| l == "serial run 10000000"));
}

// ---------------------------------------------------------------------------
// Installing and resetting devices
// ---------------------------------------------------------------------------

#[test]
fn conventional_memory_is_normalized() {
    let mut config = minimal_configuration();
    for (given, expected) in [
        (0x4000u32, Ok(0x4000u32)),
        (0x4FFF, Ok(0x4000)),
        (0x5000, Ok(0x5000)),
        (0xA0000, Ok(0xA0000)),
        (0xA0FFF, Ok(0xA0000)),
        (0xA1000, Err(InstallError::InvalidConventionalMemory)),
        (0x3FFF, Err(InstallError::InvalidConventionalMemory)),
        (0, Err(InstallError::InvalidConventionalMemory)),
        (u32::MAX, Err(InstallError::InvalidConventionalMemory)),
    ] {
        config.conventional_memory = given;
        assert_eq!(normalize_conventional_memory(&config), expected);
    }
}

#[test]
fn install_fails_on_invalid_memory_and_changes_nothing() {
    let mut bus = Bus::new(ClockFactor::Divisor(3), descriptor(), KeyboardType::ModelF);
    let mut config = configuration(&[VideoType::CGA]);
    config.conventional_memory = 0x100;
    assert_eq!(bus.install_devices(&descriptor(), &config), Err(InstallError::InvalidConventionalMemory));
    assert!(bus.pit().is_none());
    assert!(bus.pic_mut().is_none());
    assert!(bus.keyboard_mut().is_none());
    assert!(bus.enumerate_videocards().is_empty());
    assert_eq!(bus.port_device(0x40), None);
    assert_eq!(bus.get_flags(0xB8000), 0);
    assert_eq!(bus.conventional_size(), 0x10_0000);
}

#[test]
fn install_makes_the_configured_devices() {
    let (mut bus, _log) = machine(&[VideoType::CGA]);
    assert_eq!(bus.conventional_size(), 0xA0000);
    assert_eq!(
        bus.ppi_mut().as_ref().unwrap().made_with,
        Some((MachineType::Ibm5160, 0xA0000, false, vec![VideoType::CGA], 2))
    );
    let pit = bus.pit().as_ref().unwrap();
    assert_eq!(pit.made_with, Some((PitType::Model8253, 14_318_180, 12)));
    assert_eq!(pit.gates, vec![(0, true), (1, true)]);
    assert_eq!(bus.keyboard_mut().unwrap().kb_type, Some(KeyboardType::ModelF));
    assert_eq!(bus.keyboard_mut().unwrap().typematic, Some((Some(true), Some(500), Some(50))));
    assert_eq!(bus.floppy_drive_ct(), 2);
    assert_eq!(bus.hdd_ct(), 2);
    assert_eq!(bus.hdc_mut().as_ref().unwrap().made_with, Some((2, 0b1010)));
    assert_eq!(bus.mouse_mut().as_ref().unwrap().port, 1);
    assert!(bus.serial_mut().is_some());
    assert!(bus.nmi_enabled());
    bus.ppi_mut().as_mut().unwrap().nmi = false;
    assert!(!bus.nmi_enabled());
    for (port, device) in [
        (0x60u16, IoDeviceType::Ppi),
        (0x43, IoDeviceType::Pit),
        (0x00, IoDeviceType::DmaPrimary),
        (0x21, IoDeviceType::PicPrimary),
        (0x3F4, IoDeviceType::FloppyController),
        (0x320, IoDeviceType::HardDiskController),
        (0x3F8, IoDeviceType::Serial),
        (0x3D4, IoDeviceType::Video(CGA0)),
    ] {
        assert_eq!(bus.port_device(port), Some(device));
    }
    assert_eq!(bus.port_device(0x64), None);
}

#[test]
fn the_timer_is_gated_once_memory_and_the_peripheral_interface_are_set_up() {
    let (bus, _log) = machine(&[VideoType::CGA]);
    let pit = bus.pit().as_ref().unwrap();
    assert_eq!(pit.gates, vec![(0, true), (1, true)]);
    assert_eq!(pit.gated_on, vec![(0xA0000, true, false), (0xA0000, true, false)]);
    assert_eq!(bus.conventional_size(), 0xA0000);
}

#[test]
fn install_makes_only_what_is_configured() {
    let mut desc = descriptor();
    desc.have_ppi = false;
    let mut bus = Bus::new(ClockFactor::Divisor(3), desc, KeyboardType::ModelF);
    let mut config = minimal_configuration();
    config.serial_mouse = Some(SerialMouseConfig { mouse_type: SerialMouseType::Microsoft, port: 0 });
    assert_eq!(bus.install_devices(&desc, &config), Ok(()));
    assert_eq!(bus.conventional_size(), 0x10000);
    assert!(bus.ppi_mut().is_none());
    assert!(bus.pit().is_some());
    assert!(bus.dma_mut().is_some());
    assert!(bus.pic_mut().is_some());
    assert!(bus.keyboard_mut().is_none());
    assert!(bus.fdc_mut().is_none());
    assert!(bus.hdc_mut().is_none());
    assert!(bus.serial_mut().is_none());
    assert!(bus.mouse_mut().is_none());
    assert_eq!(bus.floppy_drive_ct(), 0);
    assert_eq!(bus.hdd_ct(), 0);
    assert!(bus.nmi_enabled());
    assert_eq!(bus.port_device(0x60), None);
    assert!(bus.primary_video().is_none());
    assert!(bus.primary_video_mut().is_none());
}

#[test]
fn install_follows_the_crystal_of_the_descriptor() {
    let mut bus = Bus::default();
    let mut desc = descriptor();
    desc.system_crystal = 10_000_000;
    bus.install_devices(&desc, &minimal_configuration()).unwrap();
    assert_eq!(bus.get_timings_for_cycles(10).us.millionths, 3_000_000);
    assert_eq!(bus.get_timings_for_cycles(10).sys_ticks, 4);
}

#[test]
fn devices_are_reset() {
    let (mut bus, _log) = machine(&[VideoType::CGA, VideoType::MDA]);
    bus.write_u8(0x10, 0x42, 0).unwrap();
    bus.reset_devices();
    assert_eq!(bus.pit().as_ref().unwrap().resets, 1);
    assert_eq!(bus.pic_mut().as_ref().unwrap().resets, 1);
    assert_eq!(bus.dma_mut().as_ref().unwrap().resets, 1);
    assert_eq!(card_of(&mut bus, CGA0).resets, 1);
    assert_eq!(card_of(&mut bus, VideoCardId { idx: 1, vtype: VideoType::MDA }).resets, 1);
    bus.reset_devices_warm();
    assert_eq!(bus.pit().as_ref().unwrap().resets, 2);
    assert_eq!(bus.pic_mut().as_ref().unwrap().resets, 1);
    assert_eq!(bus.peek_u8(0x10), Ok(0x42));
    let mut bare = Bus::default();
    bare.reset_devices();
    bare.reset_devices_warm();
    assert!(bare.pit().is_none());
}

// ---------------------------------------------------------------------------
// The byte queue
// ---------------------------------------------------------------------------

#[test]
fn the_byte_queue_reads_along_memory() {
    let mut bus = Bus::default();
    bus.copy_from(&[0x34, 0x12, 0xFE, 0x80, 0x00, 0x10], 0x100, 0, false).unwrap();
    bus.seek(0x100);
    assert_eq!(bus.tell(), 0x100);
    assert_eq!(bus.q_peek_u16(), 0x1234);
    assert_eq!(bus.q_peek_farptr16(), (0x80FE, 0x1234));
    assert_eq!(bus.q_read_u8(QueueType::First, QueueReader::Biu), 0x34);
    assert_eq!(bus.q_peek_u8(), 0x12);
    assert_eq!(bus.q_peek_i8(), 0x12);
    assert_eq!(bus.q_read_i8(QueueType::Subsequent, QueueReader::Eu), 0x12);
    assert_eq!(bus.tell(), 0x102);
    assert_eq!(bus.q_peek_i8(), -2);
    assert_eq!(bus.q_peek_i16(), -32514);
    assert_eq!(bus.q_read_i16(QueueType::Subsequent, QueueReader::Eu), -32514);
    assert_eq!(bus.q_read_u16(QueueType::Subsequent, QueueReader::Eu), 0x1000);
    assert_eq!(bus.tell(), 0x106);
    bus.wait(3);
    bus.wait_i(3, &[1, 2]);
    bus.wait_comment("nothing");
    bus.set_pc(7);
    assert_eq!(bus.tell(), 0x106);
}

#[test]
fn the_byte_queue_ends_with_memory() {
    let mut bus = Bus::default();
    bus.copy_from(&[1, 2, 3, 4], 0xFFFFC, 0, false).unwrap();
    bus.seek(0xFFFFC);
    assert_eq!(bus.q_peek_farptr16(), (0x0403, 0x0201));
    bus.seek(0xFFFFD);
    assert_eq!(bus.q_peek_farptr16(), (0xFFFF, 0xFFFF));
    bus.seek(0xFFFFE);
    assert_eq!(bus.q_read_u16(QueueType::First, QueueReader::Biu), 0x0403);
    assert_eq!(bus.tell(), 0x10_0000);
    assert_eq!(bus.q_read_u8(QueueType::First, QueueReader::Biu), 0xFF);
    assert_eq!(bus.q_read_i8(QueueType::First, QueueReader::Biu), -1);
    assert_eq!(bus.q_peek_u8(), 0xFF);
    assert_eq!(bus.q_peek_i8(), -1);
    assert_eq!(bus.tell(), 0x10_0000);
    bus.seek(0xFFFFF);
    assert_eq!(bus.q_peek_u16(), 0xFFFF);
    assert_eq!(bus.q_peek_i16(), -1);
    assert_eq!(bus.q_read_u16(QueueType::First, QueueReader::Biu), 0xFFFF);
    assert_eq!(bus.q_read_i16(QueueType::First, QueueReader::Biu), -1);
    assert_eq!(bus.tell(), 0xFFFFF);
    assert_eq!(bus.q_read_u8(QueueType::First, QueueReader::Biu), 4);
    assert_eq!(bus.tell(), ADDRESS_SPACE);
}

// ---------------------------------------------------------------------------
// The machine
// ---------------------------------------------------------------------------

fn computer(video: &[VideoType]) -> Computer<Machine> {
    let (bus, _log) = machine(video);
    Computer::new(Cpu::new(bus, 0xFFFF, 0))
}

#[test]
fn the_machine_hands_over_one_key_in_a_frame() {
    let mut pc = computer(&[]);
    pc.key_press(0x1E);
    pc.key_release(0x1E);
    assert_eq!(pc.kb_buf.len(), 2);
    let (mut producer, _consumer) = speaker();
    let mut processed = false;
    assert!(pc.can_run_devices(12));
    assert_eq!(pc.run_devices(12, &mut processed, &mut producer), None);
    assert!(processed);
    assert_eq!(pc.kb_buf.len(), 1);
    assert_eq!(pc.run_devices(12, &mut processed, &mut producer), None);
    assert_eq!(pc.kb_buf.len(), 1);
    assert_eq!(pc.bus_mut().ppi_mut().as_ref().unwrap().latched, vec![0x1E]);
    let mut processed = false;
    pc.run_devices(12, &mut processed, &mut producer);
    assert!(processed);
    assert_eq!(pc.bus_mut().ppi_mut().as_ref().unwrap().latched, vec![0x1E, 0x9E]);
    assert!(pc.kb_buf.is_empty());
    let mut processed = false;
    pc.run_devices(12, &mut processed, &mut producer);
    assert!(!processed);
    assert_eq!(pc.bus().pit().as_ref().unwrap().runs.len(), 4);
}

#[test]
fn the_machine_runs_devices_by_the_time_of_the_cycles() {
    let mut pc = computer(&[]);
    let (mut producer, _consumer) = speaker();
    let mut processed = true;
    pc.run_devices(10, &mut processed, &mut producer);
    assert_eq!(pc.bus().pit().as_ref().unwrap().runs, vec![DeviceRunTimeUnit::SystemTicks(4)]);
    assert_eq!(pc.bus_mut().pic_mut().as_ref().unwrap().ticks, vec![4]);
    assert_eq!(pc.bus_mut().serial_mut().as_ref().unwrap().runs, 1);
    assert!(pc.can_run_devices(u32::MAX - 100));
    pc.bus_mut().set_cpu_factor(ClockFactor::Multiplier(2));
    assert!(!pc.can_run_devices(0x8000_0000));
    assert!(pc.can_run_devices(0x7FFF_FFFF));
    assert!(pc.can_run_devices(0x7FFF_FFF0));
}

#[test]
fn the_machine_counts_steps_and_remembers_errors() {
    let mut pc = computer(&[]);
    let ok = judge_step(StepReport::Done { result: StepResult::Normal, cycles: 12 }, ExecutionState::Running);
    pc.record_step(ok, "fine".to_string());
    pc.record_step(ok, "fine".to_string());
    assert_eq!(pc.cpu_cycles(), 24);
    assert_eq!(pc.get_error_str(), &None);
    assert!(!pc.error);
    let halted = judge_step(StepReport::Halted, ExecutionState::Running);
    pc.record_step(halted, "CPU halted".to_string());
    assert_eq!(pc.cpu_cycles(), 24);
    assert_eq!(pc.get_error_str(), &Some("CPU halted".to_string()));
    assert!(pc.error);
    pc.cpu_cycles = u64::MAX - 5;
    pc.record_step(ok, "fine".to_string());
    assert_eq!(pc.cpu_cycles(), u64::MAX);
    assert!(pc.error);
}

#[test]
fn the_machine_is_reset() {
    let mut pc = computer(&[VideoType::CGA]);
    pc.bus_mut().copy_from(&[1, 2, 3], 0xF0000, 0, true).unwrap();
    pc.cpu.ax = 7;
    pc.key_press(0x1E);
    pc.record_step(judge_step(StepReport::Failed, ExecutionState::Running), "bad".to_string());
    pc.reset();
    assert!(!pc.error);
    assert_eq!(pc.get_error_str(), &None);
    assert_eq!((pc.cpu().cs, pc.cpu().ip, pc.cpu().ax), (0xFFFF, 0, 0));
    assert_eq!(pc.bus().get_vec_at(0xF0000, 3), vec![0, 0, 0]);
    assert_eq!(pc.bus().get_flags(0xF0000), MEM_ROM_BIT);
    assert_eq!(pc.bus().classify(0xB8000), MemRoute::Card(0));
    assert_eq!(pc.bus().pit().as_ref().unwrap().resets, 1);
    assert_eq!(pc.kb_buf.len(), 1);
    assert!(pc.videocard().is_some());
    assert!(pc.fdc().is_some());
    assert!(pc.hdc().is_some());
    assert!(pc.mouse_mut().is_some());
}

#[test]
fn every_card_is_visited_in_order() {
    let (mut bus, _log) = machine(&[VideoType::MDA, VideoType::CGA, VideoType::VGA]);
    let mut seen = Vec::new();
    bus.for_each_videocard(|id, card| {
        seen.push(id);
        if let VideoCardDispatch::Cga(card) = card {
            card.resets = 9;
        }
    });
    assert_eq!(seen, bus.enumerate_videocards());
    assert_eq!(seen.len(), 3);
    assert_eq!(card_of(&mut bus, VideoCardId { idx: 1, vtype: VideoType::CGA }).resets, 9);
    assert_eq!(card_of(&mut bus, VideoCardId { idx: 0, vtype: VideoType::MDA }).resets, 0);
}
