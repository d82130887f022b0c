//! Reading memory as a stream of bytes, as an instruction decoder does.
use vstd::prelude::*;
use crate::bus::BusInterface;
use crate::device::DeviceSet;
use crate::memory::{join_word, word_of};

verus! {

/// Whether a byte is the first of an instruction or a later one.
#[derive(Copy, Clone, Debug, PartialEq, Eq, Structural)]
pub enum QueueType {
    First,
    Subsequent,
}

/// The part of the CPU that reads a byte.
#[derive(Copy, Clone, Debug, PartialEq, Eq, Structural)]
pub enum QueueReader {
    Biu,
    Eu,
}

/// A source of instruction bytes with a cursor.
pub trait ByteQueue {
    /// Moves the cursor.
    fn seek(&mut self, pos: usize);

    /// The position of the cursor.
    fn tell(&self) -> usize;

    /// Lets a number of cycles pass.
    fn wait(&mut self, cycles: u32);

    /// Lets a number of cycles pass for the given steps of microcode.
    fn wait_i(&mut self, cycles: u32, instr: &[u16]);

    /// Notes a comment in the trace of cycles.
    fn wait_comment(&mut self, comment: &str);

    /// Sets the position in the microcode.
    fn set_pc(&mut self, pc: u16);

    /// Reads a byte and moves on.
    fn q_read_u8(&mut self, dtype: QueueType, reader: QueueReader) -> u8;

    /// Reads a byte as a signed number and moves on.
    fn q_read_i8(&mut self, dtype: QueueType, reader: QueueReader) -> i8;

    /// Reads a word, low byte first, and moves on.
    fn q_read_u16(&mut self, dtype: QueueType, reader: QueueReader) -> u16;

    /// Reads a word as a signed number and moves on.
    fn q_read_i16(&mut self, dtype: QueueType, reader: QueueReader) -> i16;

    /// Reads a byte and stays.
    fn q_peek_u8(&mut self) -> u8;

    /// Reads a byte as a signed number and stays.
    fn q_peek_i8(&mut self) -> i8;

    /// Reads a word and stays.
    fn q_peek_u16(&mut self) -> u16;

    /// Reads a word as a signed number and stays.
    fn q_peek_i16(&mut self) -> i16;

    /// Reads a far pointer as segment and offset, and stays.
    fn q_peek_farptr16(&mut self) -> (u16, u16);
}

impl<D: DeviceSet> BusInterface<D> {
    /// The position of the byte-queue cursor.
    pub open(crate) spec fn queue_cursor(self) -> usize {
        self.cursor
    }

    /// The byte under the cursor, or `0xFF` past the end of memory. Read as a
    /// signed number, a byte counts from -128 and a word from -32768.
    pub open(crate) spec fn queue_u8(self) -> u8 {
        if self.cursor < self.memory@.len() {
            self.memory@[self.cursor as int]
        } else {
            0xFFu8
        }
    }

    /// The word under the cursor, low byte first, or `0xFFFF` where fewer
    /// than two bytes are left.
    pub open(crate) spec fn queue_u16(self) -> u16 {
        if self.cursor + 1 < self.memory@.len() {
            word_of(self.memory@[self.cursor as int], self.memory@[self.cursor + 1])
        } else {
            0xFFFFu16
        }
    }

    /// The far pointer under the cursor as segment and offset: the offset
    /// comes first in memory. Both are `0xFFFF` where fewer than four bytes
    /// are left.
    pub open(crate) spec fn queue_farptr16(self) -> (u16, u16) {
        if self.cursor + 3 < self.memory@.len() {
            (
                word_of(self.memory@[self.cursor + 2], self.memory@[self.cursor + 3]),
                word_of(self.memory@[self.cursor as int], self.memory@[self.cursor + 1]),
            )
        } else {
            (0xFFFFu16, 0xFFFFu16)
        }
    }

    /// Both buses are the same but for the cursor.
    pub open(crate) spec fn same_but_cursor(self, other: Self) -> bool {
        &&& self.same_but_memory(other)
        &&& self.memory == other.memory
        &&& self.memory_mask == other.memory_mask
        &&& self.conventional_size == other.conventional_size
        &&& self.desc_vec == other.desc_vec
    }

    /// The cursor after `n` bytes were read, if they were there to read.
    pub open(crate) spec fn cursor_after(self, n: int) -> usize {
        if self.cursor + n <= self.memory@.len() {
            (self.cursor + n) as usize
        } else {
            self.cursor
        }
    }
}

impl<D: DeviceSet> ByteQueue for BusInterface<D> {
    fn seek(&mut self, pos: usize)
        ensures
            final(self).queue_cursor() == pos,
            final(self).same_but_cursor(*old(self)),
            final(self).wf() == old(self).wf(),
    {
        self.cursor = pos;
    }

    fn tell(&self) -> (pos: usize)
        ensures
            pos == self.queue_cursor(),
    {
        self.cursor
    }

    fn wait(&mut self, _cycles: u32)
        ensures
            *final(self) == *old(self),
    {
    }

    fn wait_i(&mut self, _cycles: u32, _instr: &[u16])
        ensures
            *final(self) == *old(self),
    {
    }

    fn wait_comment(&mut self, _comment: &str)
        ensures
            *final(self) == *old(self),
    {
    }

    fn set_pc(&mut self, _pc: u16)
        ensures
            *final(self) == *old(self),
    {
    }

    fn q_read_u8(&mut self, _dtype: QueueType, _reader: QueueReader) -> (b: u8)
        ensures
            b == old(self).queue_u8(),
            final(self).queue_cursor() == old(self).cursor_after(1),
            final(self).same_but_cursor(*old(self)),
            final(self).wf() == old(self).wf(),
    {
        if self.cursor < self.memory.len() {
            let b: u8 = self.memory[self.cursor];
            self.cursor += 1;
            return b;
        }
        0xffu8
    }

    fn q_read_i8(&mut self, _dtype: QueueType, _reader: QueueReader) -> (b: i8)
        ensures
            b == #[verifier::truncate] (old(self).queue_u8() as i8),
            final(self).queue_cursor() == old(self).cursor_after(1),
            final(self).same_but_cursor(*old(self)),
            final(self).wf() == old(self).wf(),
    {
        if self.cursor < self.memory.len() {
            let b: i8 = #[verifier::truncate] (self.memory[self.cursor] as i8);
            self.cursor += 1;
            return b;
        }
        #[verifier::truncate] (0xffu8 as i8)
    }

    fn q_read_u16(&mut self, _dtype: QueueType, _reader: QueueReader) -> (w: u16)
        ensures
            w == old(self).queue_u16(),
            final(self).queue_cursor() == old(self).cursor_after(2),
            final(self).same_but_cursor(*old(self)),
            final(self).wf() == old(self).wf(),
    {
        if self.memory.len() > 1 && self.cursor < self.memory.len() - 1 {
            let w: u16 = join_word(self.memory[self.cursor], self.memory[self.cursor + 1]);
            self.cursor += 2;
            return w;
        }
        0xffffu16
    }

    fn q_read_i16(&mut self, _dtype: QueueType, _reader: QueueReader) -> (w: i16)
        ensures
            w == #[verifier::truncate] (old(self).queue_u16() as i16),
            final(self).queue_cursor() == old(self).cursor_after(2),
            final(self).same_but_cursor(*old(self)),
            final(self).wf() == old(self).wf(),
    {
        if self.memory.len() > 1 && self.cursor < self.memory.len() - 1 {
            let w: i16 = #[verifier::truncate] (join_word(self.memory[self.cursor], self.memory[self.cursor + 1]) as i16);
            self.cursor += 2;
            return w;
        }
        #[verifier::truncate] (0xffffu16 as i16)
    }

    fn q_peek_u8(&mut self) -> (b: u8)
        ensures
            b == old(self).queue_u8(),
            *final(self) == *old(self),
    {
        if self.cursor < self.memory.len() {
            let b: u8 = self.memory[self.cursor];
            return b;
        }
        0xffu8
    }

    fn q_peek_i8(&mut self) -> (b: i8)
        ensures
            b == #[verifier::truncate] (old(self).queue_u8() as i8),
            *final(self) == *old(self),
    {
        if self.cursor < self.memory.len() {
            let b: i8 = #[verifier::truncate] (self.memory[self.cursor] as i8);
            return b;
        }
        #[verifier::truncate] (0xffu8 as i8)
    }

    fn q_peek_u16(&mut self) -> (w: u16)
        ensures
            w == old(self).queue_u16(),
            *final(self) == *old(self),
    {
        if self.memory.len() > 1 && self.cursor < self.memory.len() - 1 {
            let w: u16 = join_word(self.memory[self.cursor], self.memory[self.cursor + 1]);
            return w;
        }
        0xffffu16
    }

    fn q_peek_i16(&mut self) -> (w: i16)
        ensures
            w == #[verifier::truncate] (old(self).queue_u16() as i16),
            *final(self) == *old(self),
    {
        if self.memory.len() > 1 && self.cursor < self.memory.len() - 1 {
            let w: i16 = #[verifier::truncate] (join_word(self.memory[self.cursor], self.memory[self.cursor + 1]) as i16);
            return w;
        }
        #[verifier::truncate] (0xffffu16 as i16)
    }

    fn q_peek_farptr16(&mut self) -> (ptr: (u16, u16))
        ensures
            ptr == old(self).queue_farptr16(),
            *final(self) == *old(self),
    {
        if self.memory.len() > 3 && self.cursor < self.memory.len() - 3 {
            let offset: u16 = join_word(self.memory[self.cursor], self.memory[self.cursor + 1]);
            let segment: u16 = join_word(self.memory[self.cursor + 2], self.memory[self.cursor + 3]);
            return (segment, offset);
        }
        (0xffffu16, 0xffffu16)
    }
}

} // verus!
