//! The CPU's registers and its stack.
//!
//! The stack lives in the stack segment and grows downwards. A word is
//! pushed and popped byte by byte over the bus, low byte at the lower
//! address; an access that the bus refuses is reported to the caller.
use vstd::prelude::*;
use crate::bus::BusInterface;
use crate::device::{DeviceSet, MemoryMappedDevice};
use crate::memory::{
    high_byte, join_word, lemma_word_bytes, low_byte, split_word, word_of, MemError, ADDRESS_SPACE,
};

verus! {

/// The trap flag.
pub const CPU_FLAG_TRAP: u16 = 0b0000_0001_0000_0000;

/// The flag bits that always read as set.
pub const CPU_FLAGS_RESERVED_ON: u16 = 0b1111_0000_0000_0010;

/// The flag bits that a pop from the stack can set.
pub const FLAGS_POP_MASK: u16 = 0b0000_1111_1101_0101;

/// The instructions after which a trap flag that was just set takes effect.
pub const TRAP_ENABLE_DELAY: u32 = 2;

/// The instructions after which a trap flag that was just cleared takes
/// effect.
pub const TRAP_DISABLE_DELAY: u32 = 1;

/// The 16-bit registers.
#[derive(Copy, Clone, Debug, PartialEq, Eq, Structural)]
pub enum Register16 {
    AX,
    CX,
    DX,
    BX,
    SP,
    BP,
    SI,
    DI,
    ES,
    CS,
    SS,
    DS,
    IP,
    InvalidRegister,
}

/// How the bus unit schedules an access.
#[derive(Copy, Clone, Debug, PartialEq, Eq, Structural)]
pub enum ReadWriteFlag {
    Normal,
    RNI,
}

/// The CPU with the bus that it drives.
pub struct Cpu<D: DeviceSet> {
    pub ax: u16,
    pub bx: u16,
    pub cx: u16,
    pub dx: u16,
    pub sp: u16,
    pub bp: u16,
    pub si: u16,
    pub di: u16,
    pub cs: u16,
    pub ds: u16,
    pub ss: u16,
    pub es: u16,
    pub ip: u16,
    pub flags: u16,
    pub interrupt_inhibit: bool,
    pub trap_enable_delay: u32,
    pub trap_disable_delay: u32,
    pub bus: BusInterface<D>,
}

/// The place in memory of an offset in a segment. Addresses wrap around at
/// the end of the address space.
pub open spec fn flat_address(segment: u16, offset: u16) -> usize {
    ((segment * 16 + offset) % (ADDRESS_SPACE as int)) as usize
}

/// Computes the place in memory of an offset in a segment.
pub fn flat(segment: u16, offset: u16) -> (address: usize)
    ensures
        address == flat_address(segment, offset),
        address < ADDRESS_SPACE,
{
    ((segment as usize) * 16 + (offset as usize)) % ADDRESS_SPACE
}

/// Two neighbouring numbers lie at different places of the address space.
pub proof fn lemma_mod_step(x: int)
    requires
        x >= 0,
    ensures
        x % 0x100000 != (x + 1) % 0x100000,
{
}

/// Two numbers that are `0xFFFF` apart lie at different places of the
/// address space.
pub proof fn lemma_mod_far(x: int)
    requires
        x >= 0,
    ensures
        x % 0x100000 != (x + 0xFFFF) % 0x100000,
{
}

/// A 16-bit number less two, wrapping around below zero.
pub open spec fn down2(x: u16) -> u16 {
    if x >= 2 {
        (x - 2) as u16
    } else {
        (x + 0x10000 - 2) as u16
    }
}

/// A 16-bit sum, wrapping around above `0xFFFF`.
pub open spec fn wrapping_sum(x: u16, y: u16) -> u16 {
    if x + y <= 0xFFFF {
        (x + y) as u16
    } else {
        (x + y - 0x10000) as u16
    }
}

/// The flags after a word is popped into them: the bits that a pop can set
/// come from the word, the reserved bits are set.
pub open spec fn popped_flags(word: u16) -> u16 {
    (word & FLAGS_POP_MASK) | CPU_FLAGS_RESERVED_ON
}

/// The trap flag is set in a flag word.
pub open spec fn trap_set(flags: u16) -> bool {
    flags & CPU_FLAG_TRAP != 0
}

impl<D: DeviceSet> Cpu<D> {
    /// The CPU has the registers of `other`, the stack pointer apart.
    pub open spec fn same_registers_but_sp(self, other: Self) -> bool {
        &&& self.ax == other.ax
        &&& self.bx == other.bx
        &&& self.cx == other.cx
        &&& self.dx == other.dx
        &&& self.bp == other.bp
        &&& self.si == other.si
        &&& self.di == other.di
        &&& self.cs == other.cs
        &&& self.ds == other.ds
        &&& self.ss == other.ss
        &&& self.es == other.es
        &&& self.ip == other.ip
        &&& self.flags == other.flags
        &&& self.interrupt_inhibit == other.interrupt_inhibit
        &&& self.trap_enable_delay == other.trap_enable_delay
        &&& self.trap_disable_delay == other.trap_disable_delay
    }

    /// The value of a register.
    pub open spec fn register16(self, reg: Register16) -> u16 {
        match reg {
            Register16::AX => self.ax,
            Register16::BX => self.bx,
            Register16::CX => self.cx,
            Register16::DX => self.dx,
            Register16::SP => self.sp,
            Register16::BP => self.bp,
            Register16::SI => self.si,
            Register16::DI => self.di,
            Register16::CS => self.cs,
            Register16::DS => self.ds,
            Register16::SS => self.ss,
            Register16::ES => self.es,
            Register16::IP => self.ip,
            Register16::InvalidRegister => 0,
        }
    }

    /// The address of the low byte of the word at the top of the stack.
    pub open spec fn stack_low(self) -> usize {
        flat_address(self.ss, self.sp)
    }

    /// The address of the high byte of the word at the top of the stack.
    pub open spec fn stack_high(self) -> usize {
        flat_address(self.ss, wrapping_sum(self.sp, 1))
    }

    /// Both bytes of the word at the top of the stack are plain memory.
    pub open spec fn stack_top_plain(self) -> bool {
        &&& self.bus.route(self.stack_low()) is Raw
        &&& self.bus.route(self.stack_high()) is Raw
    }

    /// One of the bytes of the word at the top of the stack belongs to a
    /// device that is not installed.
    pub open spec fn stack_top_unresolvable(self) -> bool {
        ||| self.bus.route(self.stack_low()) is Unresolvable
        ||| self.bus.route(self.stack_high()) is Unresolvable
    }

    /// Memory after a word is stored at the top of a stack in plain memory:
    /// each byte is stored if it is writable.
    pub open spec fn mem_with_top(self, data: u16) -> Seq<u8> {
        let low = self.bus.mem_after_write_u8(self.stack_low(), low_byte(data));
        if self.bus.writable(self.stack_high() as int) {
            low.update(self.stack_high() as int, high_byte(data))
        } else {
            low
        }
    }

    /// The word at the top of a stack in plain memory.
    pub open spec fn top_word(self) -> u16 {
        word_of(self.bus.mem()[self.stack_low() as int], self.bus.mem()[self.stack_high() as int])
    }

    /// A word that is pushed onto a stack in plain, writable memory is the
    /// word that is popped next, and the pop leaves the stack pointer where
    /// it was before the push. `after` is the CPU as `push_u16(data, _)`
    /// leaves `before`.
    pub proof fn lemma_push_then_pop(before: Self, after: Self, data: u16)
        requires
            before.bus.wf(),
            after.sp == down2(before.sp),
            after.ss == before.ss,
            after.stack_top_plain(),
            before.bus.writable(after.stack_low() as int),
            before.bus.writable(after.stack_high() as int),
            after.bus.mem() == (Cpu { sp: down2(before.sp), ..before }).mem_with_top(data),
            after.bus.flags() == before.bus.flags(),
            after.bus.same_maps(before.bus),
            after.bus.same_devices(before.bus),
        ensures
            after.top_word() == data,
            wrapping_sum(after.sp, 2) == before.sp,
    {
        let pushed = Cpu { sp: down2(before.sp), ..before };
        let low = after.stack_low();
        let high = after.stack_high();
        assert(pushed.stack_low() == low && pushed.stack_high() == high);
        assert(before.bus.route(low) == after.bus.route(low));
        assert(low != high) by {
            let base = after.ss * 16;
            if after.sp < 0xFFFF {
                assert(wrapping_sum(after.sp, 1) == after.sp + 1);
                lemma_mod_step(base + after.sp);
            } else {
                assert(wrapping_sum(after.sp, 1) == 0);
                lemma_mod_far(base);
            }
        }
        lemma_word_bytes(data, low_byte(data), high_byte(data));
    }

    /// The registers are those of `other`, the bus apart.
    pub open spec fn same_registers(self, other: Self) -> bool {
        self.same_registers_but_sp(other) && self.sp == other.sp
    }

    /// Sets a register. The invalid register takes nothing.
    pub fn set_register16(&mut self, reg: Register16, value: u16)
        ensures
            final(self).bus == old(self).bus,
            !(reg is InvalidRegister) ==> final(self).register16(reg) == value,
            forall|other: Register16|
                other != reg ==> #[trigger] final(self).register16(other) == old(self).register16(other),
            final(self).flags == old(self).flags,
            final(self).interrupt_inhibit == old(self).interrupt_inhibit,
            final(self).trap_enable_delay == old(self).trap_enable_delay,
            final(self).trap_disable_delay == old(self).trap_disable_delay,
    {
        match reg {
            Register16::AX => self.ax = value,
            Register16::BX => self.bx = value,
            Register16::CX => self.cx = value,
            Register16::DX => self.dx = value,
            Register16::SP => self.sp = value,
            Register16::BP => self.bp = value,
            Register16::SI => self.si = value,
            Register16::DI => self.di = value,
            Register16::CS => self.cs = value,
            Register16::DS => self.ds = value,
            Register16::SS => self.ss = value,
            Register16::ES => self.es = value,
            Register16::IP => self.ip = value,
            Register16::InvalidRegister => {},
        }
    }

    /// A CPU as it is after a reset, with a bus to drive: execution starts
    /// at the given segment and offset, every other register is zero, and of
    /// the flags only the reserved ones are set.
    pub fn new(bus: BusInterface<D>, segment: u16, offset: u16) -> (cpu: Cpu<D>)
        ensures
            cpu.bus == bus,
            cpu.cs == segment,
            cpu.ip == offset,
            cpu.flags == CPU_FLAGS_RESERVED_ON,
            forall|reg: Register16|
                !(reg is CS) && !(reg is IP) ==> #[trigger] cpu.register16(reg) == 0,
            !cpu.interrupt_inhibit,
            cpu.trap_enable_delay == 0,
            cpu.trap_disable_delay == 0,
    {
        Cpu {
            ax: 0,
            bx: 0,
            cx: 0,
            dx: 0,
            sp: 0,
            bp: 0,
            si: 0,
            di: 0,
            cs: segment,
            ds: 0,
            ss: 0,
            es: 0,
            ip: offset,
            flags: CPU_FLAGS_RESERVED_ON,
            interrupt_inhibit: false,
            trap_enable_delay: 0,
            trap_disable_delay: 0,
            bus,
        }
    }

    /// Resets the CPU: execution starts at the given segment and offset,
    /// every other register is zero, and of the flags only the reserved ones
    /// are set. The bus is not touched.
    pub fn reset(&mut self, segment: u16, offset: u16)
        ensures
            final(self).bus == old(self).bus,
            final(self).cs == segment,
            final(self).ip == offset,
            final(self).flags == CPU_FLAGS_RESERVED_ON,
            forall|reg: Register16|
                !(reg is CS) && !(reg is IP) ==> #[trigger] final(self).register16(reg) == 0,
            !final(self).interrupt_inhibit,
            final(self).trap_enable_delay == 0,
            final(self).trap_disable_delay == 0,
    {
        self.ax = 0;
        self.bx = 0;
        self.cx = 0;
        self.dx = 0;
        self.sp = 0;
        self.bp = 0;
        self.si = 0;
        self.di = 0;
        self.cs = segment;
        self.ds = 0;
        self.ss = 0;
        self.es = 0;
        self.ip = offset;
        self.flags = CPU_FLAGS_RESERVED_ON;
        self.interrupt_inhibit = false;
        self.trap_enable_delay = 0;
        self.trap_disable_delay = 0;
    }

    /// The bus that the CPU drives.
    pub fn bus(&self) -> (bus: &BusInterface<D>)
        ensures
            *bus == self.bus,
    {
        &self.bus
    }

    /// The bus that the CPU drives, to work on.
    pub fn bus_mut(&mut self) -> (bus: &mut BusInterface<D>)
        ensures
            *bus == old(self).bus,
            final(self).bus == *final(bus),
            final(self).same_registers(*old(self)),
    {
        &mut self.bus
    }

    /// Tells whether the trap flag is set.
    pub fn trap_flag(&self) -> (r: bool)
        ensures
            r == trap_set(self.flags),
    {
        self.flags & CPU_FLAG_TRAP != 0
    }

    /// Gives up `disp` bytes of the stack.
    pub fn release(&mut self, disp: u16)
        ensures
            final(self).sp == wrapping_sum(old(self).sp, disp),
            final(self).same_registers_but_sp(*old(self)),
            final(self).bus == old(self).bus,
    {
        self.sp = self.sp.wrapping_add(disp);
    }
}

impl<D: DeviceSet> Cpu<D> where
    D::Mda: MemoryMappedDevice,
    D::Cga: MemoryMappedDevice,
    D::Ega: MemoryMappedDevice,
    D::Vga: MemoryMappedDevice,
 {
    /// Writes a byte to an offset in the stack segment.
    pub fn biu_write_u8(&mut self, offset: u16, data: u8, _flag: ReadWriteFlag) -> (r: Result<(), MemError>)
        requires
            old(self).bus.wf(),
        ensures
            final(self).bus.wf(),
            final(self).same_registers(*old(self)),
            final(self).bus.flags() == old(self).bus.flags(),
            final(self).bus.conventional() == old(self).bus.conventional(),
            final(self).bus.same_maps(old(self).bus),
            final(self).bus.same_slots(old(self).bus),
            final(self).bus.mem() == old(self).bus.mem_after_write_u8(
                flat_address(old(self).ss, offset),
                data,
            ),
            final(self).bus.same_card_kinds(old(self).bus),
            r is Err <==> old(self).bus.route(flat_address(old(self).ss, offset)) is Unresolvable,
            r is Err ==> r == Err::<(), MemError>(MemError::MmioError),
            !(old(self).bus.route(flat_address(old(self).ss, offset)) is Card) ==> final(self).bus.same_devices(old(self).bus),
    {
        let address = flat(self.ss, offset);
        match self.bus.write_u8(address, data, 0) {
            Ok(_) => Ok(()),
            Err(e) => Err(e),
        }
    }

    /// Writes a word to an offset in the stack segment, low byte first. If
    /// the bus refuses the low byte, the high byte is not written.
    pub fn biu_write_u16(&mut self, offset: u16, data: u16, flag: ReadWriteFlag) -> (r: Result<(), MemError>)
        requires
            old(self).bus.wf(),
        ensures
            final(self).bus.wf(),
            final(self).same_registers(*old(self)),
            final(self).bus.flags() == old(self).bus.flags(),
            final(self).bus.conventional() == old(self).bus.conventional(),
            final(self).bus.same_maps(old(self).bus),
            final(self).bus.same_slots(old(self).bus),
            final(self).bus.same_card_kinds(old(self).bus),
            r is Err <==> (Cpu { sp: offset, ..*old(self) }).stack_top_unresolvable(),
            r is Err ==> r == Err::<(), MemError>(MemError::MmioError),
            old(self).bus.route(flat_address(old(self).ss, offset)) is Raw && old(self).bus.route(
                flat_address(old(self).ss, wrapping_sum(offset, 1)),
            ) is Raw ==> {
                &&& r is Ok
                &&& final(self).bus.same_devices(old(self).bus)
                &&& final(self).bus.mem() == (Cpu { sp: offset, ..*old(self) }).mem_with_top(data)
            },
    {
        let (low, high) = split_word(data);
        match self.biu_write_u8(offset, low, flag) {
            Ok(_) => {},
            Err(e) => {
                return Err(e);
            },
        }
        proof {
            BusInterface::lemma_route_stable(
                old(self).bus,
                self.bus,
                flat_address(self.ss, wrapping_sum(offset, 1)),
            );
        }
        self.biu_write_u8(offset.wrapping_add(1), high, flag)
    }

    /// Reads a word from an offset in the stack segment, low byte first.
    pub fn biu_read_u16(&mut self, offset: u16, _flag: ReadWriteFlag) -> (r: Result<u16, MemError>)
        requires
            old(self).bus.wf(),
        ensures
            final(self).bus.wf(),
            final(self).same_registers(*old(self)),
            final(self).bus.same_memory(old(self).bus),
            final(self).bus.same_maps(old(self).bus),
            final(self).bus.same_slots(old(self).bus),
            final(self).bus.same_card_kinds(old(self).bus),
            r is Err <==> (Cpu { sp: offset, ..*old(self) }).stack_top_unresolvable(),
            r is Err ==> r == Err::<u16, MemError>(MemError::MmioError),
            old(self).bus.route(flat_address(old(self).ss, offset)) is Raw && old(self).bus.route(
                flat_address(old(self).ss, wrapping_sum(offset, 1)),
            ) is Raw ==> {
                &&& r == Ok::<u16, MemError>((Cpu { sp: offset, ..*old(self) }).top_word())
                &&& final(self).bus == old(self).bus
            },
    {
        let low_address = flat(self.ss, offset);
        let high_address = flat(self.ss, offset.wrapping_add(1));
        let low = match self.bus.read_u8(low_address, 0) {
            Ok((byte, _)) => byte,
            Err(e) => {
                return Err(e);
            },
        };
        proof {
            assert(self.bus.same_card_kinds(old(self).bus));
            BusInterface::lemma_route_stable(old(self).bus, self.bus, high_address);
        }
        let high = match self.bus.read_u8(high_address, 0) {
            Ok((byte, _)) => byte,
            Err(e) => {
                return Err(e);
            },
        };
        Ok(join_word(low, high))
    }

    /// Pushes a byte: the stack grows by a word, whose low byte is written.
    pub fn push_u8(&mut self, data: u8, flag: ReadWriteFlag) -> (r: Result<(), MemError>)
        requires
            old(self).bus.wf(),
        ensures
            final(self).bus.wf(),
            final(self).sp == down2(old(self).sp),
            final(self).same_registers_but_sp(*old(self)),
            final(self).bus.flags() == old(self).bus.flags(),
            final(self).bus.mem() == old(self).bus.mem_after_write_u8(final(self).stack_low(), data),
            r is Err <==> old(self).bus.route(final(self).stack_low()) is Unresolvable,
            r is Err ==> r == Err::<(), MemError>(MemError::MmioError),
    {
        self.sp = self.sp.wrapping_sub(2);
        self.biu_write_u8(self.sp, data, flag)
    }

    /// Pushes a word: the stack grows by a word, which is written.
    pub fn push_u16(&mut self, data: u16, flag: ReadWriteFlag) -> (r: Result<(), MemError>)
        requires
            old(self).bus.wf(),
        ensures
            final(self).bus.wf(),
            final(self).sp == down2(old(self).sp),
            final(self).same_registers_but_sp(*old(self)),
            final(self).bus.flags() == old(self).bus.flags(),
            final(self).bus.conventional() == old(self).bus.conventional(),
            final(self).bus.same_maps(old(self).bus),
            r is Err <==> (Cpu { sp: down2(old(self).sp), ..*old(self) }).stack_top_unresolvable(),
            r is Err ==> r == Err::<(), MemError>(MemError::MmioError),
            (Cpu { sp: down2(old(self).sp), ..*old(self) }).stack_top_plain() ==> {
                &&& r is Ok
                &&& final(self).bus.same_devices(old(self).bus)
                &&& final(self).bus.mem() == (Cpu { sp: down2(old(self).sp), ..*old(self) }).mem_with_top(
                    data,
                )
            },
    {
        self.sp = self.sp.wrapping_sub(2);
        self.biu_write_u16(self.sp, data, flag)
    }

    /// Pops a word: the word at the top of the stack is read, and the stack
    /// shrinks by a word.
    pub fn pop_u16(&mut self) -> (r: Result<u16, MemError>)
        requires
            old(self).bus.wf(),
        ensures
            final(self).bus.wf(),
            final(self).sp == wrapping_sum(old(self).sp, 2),
            final(self).same_registers_but_sp(*old(self)),
            final(self).bus.same_memory(old(self).bus),
            final(self).bus.same_maps(old(self).bus),
            r is Err <==> old(self).stack_top_unresolvable(),
            r is Err ==> r == Err::<u16, MemError>(MemError::MmioError),
            old(self).stack_top_plain() ==> {
                &&& r == Ok::<u16, MemError>(old(self).top_word())
                &&& final(self).bus == old(self).bus
            },
    {
        let result = self.biu_read_u16(self.sp, ReadWriteFlag::Normal);
        self.sp = self.sp.wrapping_add(2);
        result
    }

    /// Pushes a register. The stack pointer is pushed as it is after the
    /// stack has grown.
    pub fn push_register16(&mut self, reg: Register16, flag: ReadWriteFlag) -> (r: Result<(), MemError>)
        requires
            old(self).bus.wf(),
            !(reg is InvalidRegister),
        ensures
            final(self).bus.wf(),
            final(self).sp == down2(old(self).sp),
            final(self).same_registers_but_sp(*old(self)),
            final(self).bus.flags() == old(self).bus.flags(),
            r is Err <==> (Cpu { sp: down2(old(self).sp), ..*old(self) }).stack_top_unresolvable(),
            r is Err ==> r == Err::<(), MemError>(MemError::MmioError),
            (Cpu { sp: down2(old(self).sp), ..*old(self) }).stack_top_plain() ==> {
                &&& r is Ok
                &&& final(self).bus.same_devices(old(self).bus)
                &&& final(self).bus.mem() == (Cpu { sp: down2(old(self).sp), ..*old(self) }).mem_with_top(
                    (Cpu { sp: down2(old(self).sp), ..*old(self) }).register16(reg),
                )
            },
    {
        self.sp = self.sp.wrapping_sub(2);
        let data = match reg {
            Register16::AX => self.ax,
            Register16::BX => self.bx,
            Register16::CX => self.cx,
            Register16::DX => self.dx,
            Register16::SP => self.sp,
            Register16::BP => self.bp,
            Register16::SI => self.si,
            Register16::DI => self.di,
            Register16::CS => self.cs,
            Register16::DS => self.ds,
            Register16::SS => self.ss,
            Register16::ES => self.es,
            Register16::IP => self.ip,
            Register16::InvalidRegister => 0,
        };
        self.biu_write_u16(self.sp, data, flag)
    }

    /// Pops a word into a register. A pop into the stack pointer leaves the
    /// stack pointer at the word popped; any other pop shrinks the stack by a
    /// word. A pop into the stack segment holds interrupts off for one
    /// instruction. If the bus refuses the read, no register changes.
    pub fn pop_register16(&mut self, reg: Register16, flag: ReadWriteFlag) -> (r: Result<(), MemError>)
        requires
            old(self).bus.wf(),
            !(reg is InvalidRegister),
        ensures
            final(self).bus.wf(),
            final(self).bus.same_memory(old(self).bus),
            final(self).bus.same_maps(old(self).bus),
            final(self).flags == old(self).flags,
            final(self).trap_enable_delay == old(self).trap_enable_delay,
            final(self).trap_disable_delay == old(self).trap_disable_delay,
            r is Err <==> old(self).stack_top_unresolvable(),
            r is Err ==> r == Err::<(), MemError>(MemError::MmioError) && final(self).same_registers(
                *old(self),
            ),
            r is Ok ==> {
                &&& forall|other: Register16|
                    other != reg && !(other is SP) ==> #[trigger] final(self).register16(other) == old(self).register16(other)
                &&& !(reg is SP) ==> final(self).sp == wrapping_sum(old(self).sp, 2)
                &&& final(self).interrupt_inhibit == (old(self).interrupt_inhibit || reg is SS)
            },
            old(self).stack_top_plain() ==> {
                &&& r is Ok
                &&& final(self).register16(reg) == old(self).top_word()
                &&& final(self).bus == old(self).bus
            },
    {
        let data = match self.biu_read_u16(self.sp, flag) {
            Ok(word) => word,
            Err(e) => {
                return Err(e);
            },
        };
        let mut update_sp = true;
        match reg {
            Register16::SP => {
                self.sp = data;
                update_sp = false;
            },
            Register16::SS => {
                self.ss = data;
                self.interrupt_inhibit = true;
            },
            _ => self.set_register16(reg, data),
        }
        let ghost loaded = *self;
        proof {
            if !(reg is SP) {
                assert(loaded.register16(Register16::SP) == old(self).register16(Register16::SP));
            }
        }
        if update_sp {
            self.sp = self.sp.wrapping_add(2);
        }
        proof {
            assert forall|other: Register16| other != reg && !(other is SP) implies #[trigger] self.register16(
                other,
            ) == old(self).register16(other) by {
                assert(loaded.register16(other) == old(self).register16(other));
            }
        }
        Ok(())
    }

    /// Pushes the flags.
    pub fn push_flags(&mut self, wflag: ReadWriteFlag) -> (r: Result<(), MemError>)
        requires
            old(self).bus.wf(),
        ensures
            final(self).bus.wf(),
            final(self).sp == down2(old(self).sp),
            final(self).same_registers_but_sp(*old(self)),
            final(self).bus.flags() == old(self).bus.flags(),
            r is Err <==> (Cpu { sp: down2(old(self).sp), ..*old(self) }).stack_top_unresolvable(),
            r is Err ==> r == Err::<(), MemError>(MemError::MmioError),
            (Cpu { sp: down2(old(self).sp), ..*old(self) }).stack_top_plain() ==> {
                &&& r is Ok
                &&& final(self).bus.same_devices(old(self).bus)
                &&& final(self).bus.mem() == (Cpu { sp: down2(old(self).sp), ..*old(self) }).mem_with_top(
                    old(self).flags,
                )
            },
    {
        self.sp = self.sp.wrapping_sub(2);
        self.biu_write_u16(self.sp, self.flags, wflag)
    }

    /// Pops the flags. Of the word popped only the bits that a pop can set
    /// are taken; the reserved bits are set. Setting the trap flag takes
    /// effect two instructions later, clearing it one instruction later. If
    /// the bus refuses the read, nothing changes.
    pub fn pop_flags(&mut self) -> (r: Result<(), MemError>)
        requires
            old(self).bus.wf(),
        ensures
            final(self).bus.wf(),
            final(self).bus.same_memory(old(self).bus),
            final(self).bus.same_maps(old(self).bus),
            forall|reg: Register16|
                !(reg is SP) ==> #[trigger] final(self).register16(reg) == old(self).register16(reg),
            final(self).interrupt_inhibit == old(self).interrupt_inhibit,
            r is Err <==> old(self).stack_top_unresolvable(),
            r is Err ==> r == Err::<(), MemError>(MemError::MmioError) && final(self).same_registers(
                *old(self),
            ),
            r is Ok ==> {
                &&& final(self).sp == wrapping_sum(old(self).sp, 2)
                &&& final(self).flags & CPU_FLAGS_RESERVED_ON == CPU_FLAGS_RESERVED_ON
                &&& final(self).trap_enable_delay == (if !trap_set(old(self).flags) && trap_set(
                    final(self).flags,
                ) {
                    TRAP_ENABLE_DELAY
                } else {
                    old(self).trap_enable_delay
                })
                &&& final(self).trap_disable_delay == (if trap_set(old(self).flags) && !trap_set(
                    final(self).flags,
                ) {
                    TRAP_DISABLE_DELAY
                } else {
                    old(self).trap_disable_delay
                })
            },
            old(self).stack_top_plain() ==> {
                &&& r is Ok
                &&& final(self).flags == popped_flags(old(self).top_word())
                &&& final(self).bus == old(self).bus
            },
    {
        let result = match self.biu_read_u16(self.sp, ReadWriteFlag::Normal) {
            Ok(word) => word,
            Err(e) => {
                return Err(e);
            },
        };
        let trap_was_set = self.trap_flag();
        self.flags = (result & FLAGS_POP_MASK) | CPU_FLAGS_RESERVED_ON;
        assert(((result & 0x0FD5u16) | 0xF002u16) & 0xF002u16 == 0xF002u16) by (bit_vector);
        let trap_is_set = self.trap_flag();
        if !trap_was_set && trap_is_set {
            self.trap_enable_delay = TRAP_ENABLE_DELAY;
        }
        if trap_was_set && !trap_is_set {
            self.trap_disable_delay = TRAP_DISABLE_DELAY;
        }
        self.sp = self.sp.wrapping_add(2);
        Ok(())
    }
}

} // verus!
