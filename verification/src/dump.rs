//! Memory shown to a person: rows of sixteen bytes, each with its address, the
//! bytes in hexadecimal digits and the bytes as characters.
//!
//! The dumps read memory as it is, whatever is mapped over it.
use vstd::prelude::*;
use vstd::string::StringExecFns;
use crate::bus::BusInterface;
use crate::bytequeue::ByteQueue;
use crate::device::{DeviceSet, MemoryMappedDevice};
use crate::memory::{join_word, word_of, MemError, ADDRESS_SPACE};
use crate::text::{
    ascii_char, ascii_char_of, dec_text3, hex_text, hex_text_min, push_dec3, push_hex, push_hex_min,
};

verus! {

/// The number of bytes in a row of a dump.
pub const DUMP_ROW: usize = 16;

/// The bytes of a row in small hexadecimal digits, each followed by a blank.
pub open spec fn hex_column(bytes: Seq<u8>) -> Seq<char>
    decreases bytes.len(),
{
    if bytes.len() == 0 {
        Seq::empty()
    } else {
        hex_column(bytes.drop_last()) + hex_text(bytes.last() as int, 2, false).push(' ')
    }
}

/// The bytes of a row as characters.
pub open spec fn ascii_column(bytes: Seq<u8>) -> Seq<char> {
    Seq::new(bytes.len(), |i: int| ascii_char(bytes[i]))
}

/// One row of a dump: the address in five capital hexadecimal digits, the
/// bytes in hexadecimal digits, the bytes as characters, and a line feed.
pub open spec fn dump_row(address: int, bytes: Seq<u8>) -> Seq<char> {
    hex_text(address, 5, true).push(' ') + hex_column(bytes).push(' ') + ascii_column(bytes).push(
        '\n',
    )
}

/// The bytes of row `r` of a dump that starts at `address`.
pub open spec fn row_bytes(mem: Seq<u8>, address: int, r: int) -> Seq<u8> {
    mem.subrange(address + DUMP_ROW * r, address + DUMP_ROW * (r + 1))
}

/// The first `rows` rows of a dump that starts at `address`.
pub open spec fn dump_text(mem: Seq<u8>, address: int, rows: nat) -> Seq<char>
    decreases rows,
{
    if rows == 0 {
        Seq::empty()
    } else {
        dump_text(mem, address, (rows - 1) as nat) + dump_row(
            address + DUMP_ROW * (rows - 1),
            row_bytes(mem, address, rows - 1),
        )
    }
}

/// What a dump says when it is asked for more than there is.
pub open spec fn out_of_bounds_text() -> Seq<char> {
    "REQUEST OUT OF BOUNDS"@
}

/// A request for `size` bytes from `address` on stays inside memory: it ends
/// before the last byte of the address space.
pub open spec fn dump_in_bounds(address: usize, size: usize) -> bool {
    address + size < ADDRESS_SPACE
}

/// What is known of a place in memory: its address, and the byte, the word
/// and the double word there in hexadecimal digits, and the instruction there.
pub struct MemoryDebug {
    pub addr: String,
    pub byte: String,
    pub word: String,
    pub dword: String,
    pub instr: String,
}

/// The text of a memory description, one line for each thing known.
pub open spec fn memory_debug_text(
    addr: Seq<char>,
    byte: Seq<char>,
    word: Seq<char>,
    dword: Seq<char>,
    instr: Seq<char>,
) -> Seq<char> {
    " ADDR: "@ + addr + "\n BYTE: "@ + byte + "\n WORD: "@ + word + "\nDWORD: "@ + dword + "\nINSTR: "@
        + instr
}

impl MemoryDebug {
    /// The description as text.
    pub fn to_string(&self) -> (text: String)
        ensures
            text@ == memory_debug_text(self.addr@, self.byte@, self.word@, self.dword@, self.instr@),
    {
        let mut text = String::from_str(" ADDR: ");
        text.append(self.addr.as_str());
        text.append("\n BYTE: ");
        text.append(self.byte.as_str());
        text.append("\n WORD: ");
        text.append(self.word.as_str());
        text.append("\nDWORD: ");
        text.append(self.dword.as_str());
        text.append("\nINSTR: ");
        text.append(self.instr.as_str());
        text
    }
}

/// Writes one row of a dump.
pub fn dump_row_text(address: usize, bytes: &[u8]) -> (row: String)
    requires
        address < ADDRESS_SPACE,
    ensures
        row@ == dump_row(address as int, bytes@),
{
    let mut row = String::new();
    push_hex(&mut row, address as u64, 5, true);
    row.push(' ');
    let ghost head = row@;
    let n = bytes.len();
    let mut i: usize = 0;
    assert(bytes@.subrange(0, 0) =~= Seq::<u8>::empty());
    assert(row@ =~= head + hex_column(bytes@.subrange(0, 0)));
    while i < n
        invariant
            i <= n,
            n == bytes@.len(),
            row@ == head + hex_column(bytes@.subrange(0, i as int)),
        decreases n - i,
    {
        let ghost before = row@;
        push_hex(&mut row, bytes[i] as u64, 2, false);
        row.push(' ');
        proof {
            let done = bytes@.subrange(0, i as int);
            let next = bytes@.subrange(0, i + 1);
            assert(next.drop_last() =~= done);
            assert(next.last() == bytes@[i as int]);
            assert(row@ =~= head + hex_column(next));
        }
        i += 1;
    }
    assert(bytes@.subrange(0, n as int) =~= bytes@);
    row.push(' ');
    let ghost middle = row@;
    let mut j: usize = 0;
    while j < n
        invariant
            j <= n,
            n == bytes@.len(),
            row@ == middle + ascii_column(bytes@).subrange(0, j as int),
        decreases n - j,
    {
        row.push(ascii_char_of(bytes[j]));
        assert(row@ =~= middle + ascii_column(bytes@).subrange(0, j + 1));
        j += 1;
    }
    assert(ascii_column(bytes@).subrange(0, n as int) =~= ascii_column(bytes@));
    row.push('\n');
    assert(row@ =~= dump_row(address as int, bytes@));
    row
}

impl<D: DeviceSet> BusInterface<D> {
    /// Dumps `size` bytes of memory from `address` on as text, in rows of
    /// sixteen bytes; bytes that do not fill a row are left out. A request
    /// that does not end before the last byte of memory is answered with
    /// `REQUEST OUT OF BOUNDS`.
    pub fn dump_flat(&self, address: usize, size: usize) -> (text: String)
        requires
            self.wf(),
        ensures
            text@ == (if dump_in_bounds(address, size) {
                dump_text(self.mem(), address as int, (size / DUMP_ROW) as nat)
            } else {
                out_of_bounds_text()
            }),
    {
        if address >= ADDRESS_SPACE || size >= ADDRESS_SPACE - address {
            return String::from_str("REQUEST OUT OF BOUNDS");
        }
        let rows = size / DUMP_ROW;
        let mut text = String::new();
        let mut r: usize = 0;
        assert(text@ =~= dump_text(self.mem(), address as int, 0));
        while r < rows
            invariant
                r <= rows,
                rows == size / DUMP_ROW,
                address + size < ADDRESS_SPACE,
                self.wf(),
                text@ == dump_text(self.mem(), address as int, r as nat),
            decreases rows - r,
        {
            let start = address + DUMP_ROW * r;
            let row = dump_row_text(
                start,
                vstd::slice::slice_subrange(self.memory.as_slice(), start, start + DUMP_ROW),
            );
            text.append(row.as_str());
            r += 1;
        }
        text
    }

    /// Dumps `size` bytes of memory from `address` on as lines of text, one
    /// for each row of sixteen bytes; bytes that do not fill a row are left
    /// out. A request that does not end before the last byte of memory is
    /// answered with the one line `REQUEST OUT OF BOUNDS`.
    pub fn dump_flat_vec(&self, address: usize, size: usize) -> (lines: Vec<String>)
        requires
            self.wf(),
        ensures
            dump_in_bounds(address, size) ==> {
                &&& lines@.len() == size / DUMP_ROW
                &&& forall|r: int|
                    0 <= r < lines@.len() ==> (#[trigger] lines@[r])@ == dump_row(
                        address + DUMP_ROW * r,
                        row_bytes(self.mem(), address as int, r),
                    )
            },
            !dump_in_bounds(address, size) ==> {
                &&& lines@.len() == 1
                &&& lines@[0]@ == out_of_bounds_text()
            },
    {
        let mut lines: Vec<String> = Vec::new();
        if address >= ADDRESS_SPACE || size >= ADDRESS_SPACE - address {
            lines.push(String::from_str("REQUEST OUT OF BOUNDS"));
            return lines;
        }
        let rows = size / DUMP_ROW;
        let mut r: usize = 0;
        while r < rows
            invariant
                r <= rows,
                rows == size / DUMP_ROW,
                address + size < ADDRESS_SPACE,
                self.wf(),
                lines@.len() == r,
                forall|k: int|
                    0 <= k < r ==> (#[trigger] lines@[k])@ == dump_row(
                        address + DUMP_ROW * k,
                        row_bytes(self.mem(), address as int, k),
                    ),
            decreases rows - r,
        {
            let start = address + DUMP_ROW * r;
            let row = dump_row_text(
                start,
                vstd::slice::slice_subrange(self.memory.as_slice(), start, start + DUMP_ROW),
            );
            lines.push(row);
            r += 1;
        }
        lines
    }

    /// The byte at `a` in two capital hexadecimal digits, if `a` is not the
    /// last address of memory; else nothing.
    pub open(crate) spec fn debug_byte(self, a: usize) -> Seq<char> {
        if a < ADDRESS_SPACE - 1 {
            hex_text(self.memory@[a as int] as int, 2, true)
        } else {
            Seq::empty()
        }
    }

    /// The word at `a` in four capital hexadecimal digits, if it ends before
    /// the last address of memory; else nothing.
    pub open(crate) spec fn debug_word(self, a: usize) -> Seq<char> {
        if a < ADDRESS_SPACE - 2 {
            hex_text(word_of(self.memory@[a as int], self.memory@[a + 1]) as int, 4, true)
        } else {
            Seq::empty()
        }
    }

    /// The double word at `a`, low word first.
    pub open(crate) spec fn dword_at(self, a: usize) -> int {
        word_of(self.memory@[a as int], self.memory@[a + 1]) + 0x10000 * word_of(
            self.memory@[a + 2],
            self.memory@[a + 3],
        )
    }

    /// The double word at `a` in at least four capital hexadecimal digits,
    /// if it ends before the last address of memory; else nothing.
    pub open(crate) spec fn debug_dword(self, a: usize) -> Seq<char> {
        if a < ADDRESS_SPACE - 4 {
            hex_text_min(self.dword_at(a), 4, true)
        } else {
            Seq::empty()
        }
    }

    /// Describes a place in memory: its address in at least five capital
    /// hexadecimal digits, and the byte, the word and the double word there.
    /// The instruction there is described by `instr`, which the caller has
    /// decoded: `Invalid` if there is none. The byte-queue cursor moves to
    /// the address.
    pub fn get_memory_debug(&mut self, address: usize, instr: Option<String>) -> (debug: MemoryDebug)
        requires
            old(self).wf(),
        ensures
            final(self).wf(),
            final(self).queue_cursor() == address,
            final(self).same_but_cursor(*old(self)),
            debug.addr@ == hex_text_min(address as int, 5, true),
            debug.byte@ == old(self).debug_byte(address),
            debug.word@ == old(self).debug_word(address),
            debug.dword@ == old(self).debug_dword(address),
            debug.instr@ == (match instr {
                Some(text) => text@,
                None => "Invalid"@,
            }),
    {
        let mut addr = String::new();
        push_hex_min(&mut addr, address as u64, 5, true);
        assert(addr@ =~= hex_text_min(address as int, 5, true));
        let mut byte = String::new();
        let mut word = String::new();
        let mut dword = String::new();
        if address < ADDRESS_SPACE - 1 {
            push_hex(&mut byte, self.memory[address] as u64, 2, true);
            assert(byte@ =~= self.debug_byte(address));
        }
        if address < ADDRESS_SPACE - 2 {
            let w = join_word(self.memory[address], self.memory[address + 1]);
            push_hex(&mut word, w as u64, 4, true);
            assert(word@ =~= self.debug_word(address));
        }
        if address < ADDRESS_SPACE - 4 {
            let low = join_word(self.memory[address], self.memory[address + 1]);
            let high = join_word(self.memory[address + 2], self.memory[address + 3]);
            let both: u64 = (low as u64) + 0x10000 * (high as u64);
            push_hex_min(&mut dword, both, 4, true);
            assert(dword@ =~= self.debug_dword(address));
        }
        self.seek(address);
        let instr = match instr {
            Some(text) => text,
            None => String::from_str("Invalid"),
        };
        MemoryDebug { addr, byte, word, dword, instr }
    }
}

/// A piece of a view of the machine, for a front end to lay out and colour.
#[derive(Clone, Debug, PartialEq)]
pub enum SyntaxToken {
    /// A message that something went wrong.
    ErrorString(String),
    /// An address in memory, and its text.
    MemoryAddressFlat(u32, String),
    /// A byte of memory: its address, the byte, its text in hexadecimal
    /// digits, whether the cursor is on it, and its age.
    MemoryByteHexValue(u32, u8, String, bool, u8),
    /// A byte of memory: its address, the byte, its text as a character, and
    /// its age.
    MemoryByteAsciiValue(u32, u8, String, u8),
    /// An address as segment and offset, its text, and its age.
    StateMemoryAddressSeg16(u16, u16, String, u8),
    /// Plain text.
    Text(String),
    Colon,
    OpenBracket,
    CloseBracket,
}

/// The number of tokens in a row of a dump: the address, and each byte twice.
pub const TOKEN_ROW_LEN: usize = 33;

/// The number of interrupt vectors.
pub const INTERRUPT_VECTORS: usize = 256;

/// The age of a token that was never seen to change.
pub const TOKEN_AGE_OLD: u8 = 255;

/// The token names the address in five capital hexadecimal digits.
pub open spec fn is_address_token(token: SyntaxToken, address: int) -> bool {
    token matches SyntaxToken::MemoryAddressFlat(a, text) && a == address && text@ == hex_text(
        address,
        5,
        true,
    )
}

/// The token shows the byte at the address in two capital hexadecimal
/// digits and says whether the cursor is on it.
pub open spec fn is_hex_token(token: SyntaxToken, address: int, byte: u8, at_cursor: bool) -> bool {
    token matches SyntaxToken::MemoryByteHexValue(a, b, text, c, age) && a == address && b == byte
        && text@ == hex_text(byte as int, 2, true) && c == at_cursor && age == 0
}

/// The token shows the byte at the address as a character.
pub open spec fn is_ascii_token(token: SyntaxToken, address: int, byte: u8) -> bool {
    token matches SyntaxToken::MemoryByteAsciiValue(a, b, text, age) && a == address && b == byte
        && text@ == seq![ascii_char(byte)] && age == 0
}

/// The tokens are a row of a dump of sixteen bytes from `address` on: the
/// address, then each byte in hexadecimal digits, then each byte as a
/// character.
pub open spec fn is_token_row(row: Seq<SyntaxToken>, address: int, bytes: Seq<u8>, cursor: int) -> bool {
    &&& row.len() == TOKEN_ROW_LEN
    &&& bytes.len() == DUMP_ROW
    &&& is_address_token(row[0], address)
    &&& forall|i: int|
        0 <= i < DUMP_ROW ==> is_hex_token(#[trigger] row[1 + i], address + i, bytes[i], address + i == cursor)
    &&& forall|i: int|
        0 <= i < DUMP_ROW ==> is_ascii_token(#[trigger] row[1 + DUMP_ROW + i], address + i, bytes[i])
}

/// The tokens are the one row that says that a request was out of bounds.
pub open spec fn is_out_of_bounds_row(row: Seq<SyntaxToken>) -> bool {
    row.len() == 1 && (row[0] matches SyntaxToken::ErrorString(text) && text@ == out_of_bounds_text())
}

/// The bytes that a dump of `size` bytes from `address` on covers: as many
/// as were asked for, unless they reach the last byte of memory; then all
/// that there are from `address` on.
pub open spec fn dump_span(address: usize, size: usize) -> int {
    if address + size >= ADDRESS_SPACE {
        ADDRESS_SPACE - address
    } else {
        size as int
    }
}

/// The name of what an interrupt vector serves by convention, if it has one.
pub open spec fn vector_name(v: int) -> Option<Seq<char>> {
    if v == 0 {
        Some("Divide Error"@)
    } else if v == 1 {
        Some("Single Step"@)
    } else if v == 2 {
        Some("NMI"@)
    } else if v == 3 {
        Some("Breakpoint"@)
    } else if v == 4 {
        Some("Overflow"@)
    } else if v == 8 {
        Some("Timer"@)
    } else if v == 9 {
        Some("Keyboard"@)
    } else if v == 11 {
        Some("Serial Port 2"@)
    } else if v == 12 {
        Some("Serial Port 1"@)
    } else if v == 13 {
        Some("HDC"@)
    } else if v == 14 {
        Some("FDC"@)
    } else if v == 15 {
        Some("Parallel Port 1"@)
    } else {
        None
    }
}

/// Gives the name of what an interrupt vector serves by convention.
pub fn vector_name_of(v: usize) -> (name: Option<String>)
    ensures
        name is Some == vector_name(v as int) is Some,
        name matches Some(text) ==> Some(text@) == vector_name(v as int),
{
    if v == 0 {
        Some(String::from_str("Divide Error"))
    } else if v == 1 {
        Some(String::from_str("Single Step"))
    } else if v == 2 {
        Some(String::from_str("NMI"))
    } else if v == 3 {
        Some(String::from_str("Breakpoint"))
    } else if v == 4 {
        Some(String::from_str("Overflow"))
    } else if v == 8 {
        Some(String::from_str("Timer"))
    } else if v == 9 {
        Some(String::from_str("Keyboard"))
    } else if v == 11 {
        Some(String::from_str("Serial Port 2"))
    } else if v == 12 {
        Some(String::from_str("Serial Port 1"))
    } else if v == 13 {
        Some(String::from_str("HDC"))
    } else if v == 14 {
        Some(String::from_str("FDC"))
    } else if v == 15 {
        Some(String::from_str("Parallel Port 1"))
    } else {
        None
    }
}

/// The text of a vector: segment and offset in four capital hexadecimal
/// digits each, with a colon between them.
pub open spec fn vector_text(cs: u16, ip: u16) -> Seq<char> {
    hex_text(cs as int, 4, true).push(':') + hex_text(ip as int, 4, true)
}

/// The tokens describe the interrupt vector `v`, which holds the given
/// segment and offset: the number of the vector in three decimal digits, a
/// colon, the vector in brackets, and the name of what it serves, if it has
/// one.
pub open spec fn is_vector_row(row: Seq<SyntaxToken>, v: int, cs: u16, ip: u16) -> bool {
    &&& row.len() == (if vector_name(v) is Some {
        6int
    } else {
        5int
    })
    &&& (row[0] matches SyntaxToken::Text(text) && text@ == dec_text3(v))
    &&& row[1] is Colon
    &&& row[2] is OpenBracket
    &&& (row[3] matches SyntaxToken::StateMemoryAddressSeg16(s, o, text, age) && s == cs && o == ip
        && text@ == vector_text(cs, ip) && age == TOKEN_AGE_OLD)
    &&& row[4] is CloseBracket
    &&& vector_name(v) matches Some(name) ==> (row[5] matches SyntaxToken::Text(text) && text@ == name)
}

/// Makes the tokens of one row of a dump.
pub fn token_row(address: usize, bytes: &[u8], cursor: usize) -> (row: Vec<SyntaxToken>)
    requires
        address + DUMP_ROW <= ADDRESS_SPACE,
        bytes@.len() == DUMP_ROW,
    ensures
        is_token_row(row@, address as int, bytes@, cursor as int),
{
    let mut row: Vec<SyntaxToken> = Vec::new();
    let mut text = String::new();
    push_hex(&mut text, address as u64, 5, true);
    assert(text@ =~= hex_text(address as int, 5, true));
    row.push(SyntaxToken::MemoryAddressFlat(address as u32, text));
    let mut i: usize = 0;
    while i < DUMP_ROW
        invariant
            i <= DUMP_ROW,
            address + DUMP_ROW <= ADDRESS_SPACE,
            bytes@.len() == DUMP_ROW,
            row@.len() == 1 + i,
            is_address_token(row@[0], address as int),
            forall|k: int|
                0 <= k < i ==> is_hex_token(
                    #[trigger] row@[1 + k],
                    address + k,
                    bytes@[k],
                    address + k == cursor,
                ),
        decreases DUMP_ROW - i,
    {
        let byte = bytes[i];
        let mut text = String::new();
        push_hex(&mut text, byte as u64, 2, true);
        assert(text@ =~= hex_text(byte as int, 2, true));
        row.push(
            SyntaxToken::MemoryByteHexValue((address + i) as u32, byte, text, address + i == cursor, 0),
        );
        i += 1;
    }
    let mut j: usize = 0;
    while j < DUMP_ROW
        invariant
            j <= DUMP_ROW,
            address + DUMP_ROW <= ADDRESS_SPACE,
            bytes@.len() == DUMP_ROW,
            row@.len() == 1 + DUMP_ROW + j,
            is_address_token(row@[0], address as int),
            forall|k: int|
                0 <= k < DUMP_ROW ==> is_hex_token(
                    #[trigger] row@[1 + k],
                    address + k,
                    bytes@[k],
                    address + k == cursor,
                ),
            forall|k: int|
                0 <= k < j ==> is_ascii_token(#[trigger] row@[1 + DUMP_ROW + k], address + k, bytes@[k]),
        decreases DUMP_ROW - j,
    {
        let byte = bytes[j];
        let mut text = String::new();
        text.push(ascii_char_of(byte));
        assert(text@ =~= seq![ascii_char(byte)]);
        let ghost before = row@;
        row.push(SyntaxToken::MemoryByteAsciiValue((address + j) as u32, byte, text, 0));
        proof {
            assert forall|k: int| 0 <= k < DUMP_ROW implies is_hex_token(
                #[trigger] row@[1 + k],
                address + k,
                bytes@[k],
                address + k == cursor,
            ) by {
                assert(row@[1 + k] == before[1 + k]);
            }
            assert forall|k: int| 0 <= k < j + 1 implies is_ascii_token(
                #[trigger] row@[1 + DUMP_ROW + k],
                address + k,
                bytes@[k],
            ) by {
                if k < j {
                    assert(row@[1 + DUMP_ROW + k] == before[1 + DUMP_ROW + k]);
                }
            }
        }
        j += 1;
    }
    row
}

/// Makes the tokens that describe one interrupt vector.
pub fn vector_row(v: usize, cs: u16, ip: u16) -> (row: Vec<SyntaxToken>)
    requires
        v < INTERRUPT_VECTORS,
    ensures
        is_vector_row(row@, v as int, cs, ip),
{
    let mut row: Vec<SyntaxToken> = Vec::new();
    let mut number = String::new();
    push_dec3(&mut number, v as u16);
    assert(number@ =~= dec_text3(v as int));
    row.push(SyntaxToken::Text(number));
    row.push(SyntaxToken::Colon);
    row.push(SyntaxToken::OpenBracket);
    let mut text = String::new();
    push_hex(&mut text, cs as u64, 4, true);
    text.push(':');
    push_hex(&mut text, ip as u64, 4, true);
    assert(text@ =~= vector_text(cs, ip));
    row.push(SyntaxToken::StateMemoryAddressSeg16(cs, ip, text, TOKEN_AGE_OLD));
    row.push(SyntaxToken::CloseBracket);
    match vector_name_of(v) {
        Some(name) => {
            row.push(SyntaxToken::Text(name));
        },
        None => {},
    }
    row
}

/// Makes the one row that says that a request was out of bounds.
pub fn out_of_bounds_row() -> (row: Vec<SyntaxToken>)
    ensures
        is_out_of_bounds_row(row@),
{
    let mut row: Vec<SyntaxToken> = Vec::new();
    row.push(SyntaxToken::ErrorString(String::from_str("REQUEST OUT OF BOUNDS")));
    row
}

impl<D: DeviceSet> BusInterface<D> {
    /// Dumps `size` bytes of memory from `address` on as rows of tokens, one
    /// row for each sixteen bytes; bytes that do not fill a row are left out.
    /// The token of the byte at `cursor` says that the cursor is on it. A
    /// request that reaches the last byte of memory is cut off there; one
    /// that starts beyond memory is answered with one error token.
    pub fn dump_flat_tokens(&self, address: usize, cursor: usize, size: usize) -> (rows: Vec<
        Vec<SyntaxToken>,
    >)
        requires
            self.wf(),
        ensures
            address >= ADDRESS_SPACE ==> rows@.len() == 1 && is_out_of_bounds_row(rows@[0]@),
            address < ADDRESS_SPACE ==> {
                &&& rows@.len() == dump_span(address, size) / (DUMP_ROW as int)
                &&& forall|r: int|
                    0 <= r < rows@.len() ==> is_token_row(
                        (#[trigger] rows@[r])@,
                        address + DUMP_ROW * r,
                        row_bytes(self.mem(), address as int, r),
                        cursor as int,
                    )
            },
    {
        let mut rows: Vec<Vec<SyntaxToken>> = Vec::new();
        if address >= ADDRESS_SPACE {
            rows.push(out_of_bounds_row());
            return rows;
        }
        let span = if size >= ADDRESS_SPACE - address {
            ADDRESS_SPACE - address
        } else {
            size
        };
        let count = span / DUMP_ROW;
        let mut r: usize = 0;
        while r < count
            invariant
                r <= count,
                count == span / DUMP_ROW,
                address + span <= ADDRESS_SPACE,
                self.wf(),
                rows@.len() == r,
                forall|k: int|
                    0 <= k < r ==> is_token_row(
                        (#[trigger] rows@[k])@,
                        address + DUMP_ROW * k,
                        row_bytes(self.mem(), address as int, k),
                        cursor as int,
                    ),
            decreases count - r,
        {
            let start = address + DUMP_ROW * r;
            let row = token_row(
                start,
                vstd::slice::slice_subrange(self.memory.as_slice(), start, start + DUMP_ROW),
                cursor,
            );
            rows.push(row);
            r += 1;
        }
        rows
    }

    /// No address from `start` up to `end` is flagged memory-mapped, so that
    /// every access there goes to plain memory.
    pub open(crate) spec fn span_plain(self, start: int, end: int) -> bool {
        forall|a: int|
            start <= a < end && 0 <= a < ADDRESS_SPACE ==> !crate::memory::has_flag(
                #[trigger] self.memory_mask@[a],
                crate::memory::MEM_MMIO_BIT,
            )
    }

    /// No address from `start` up to `end` belongs to a device that is not
    /// installed.
    pub open(crate) spec fn span_resolvable(self, start: int, end: int) -> bool {
        forall|a: usize| start <= a < end ==> !(#[trigger] self.route(a) is Unresolvable)
    }
}

impl<D: DeviceSet> BusInterface<D> where
    D::Mda: MemoryMappedDevice,
    D::Cga: MemoryMappedDevice,
    D::Ega: MemoryMappedDevice,
    D::Vga: MemoryMappedDevice,
 {
    /// A peek at `a` shows `byte`: the byte that plain memory holds there, or
    /// the byte that the video card shows that answers for the address.
    pub open(crate) spec fn shows(self, a: usize, byte: u8) -> bool {
        self.peek_u8_result(a, Ok::<u8, MemError>(byte))
    }

    /// The tokens are a row of a dump of the sixteen bytes that sixteen
    /// peeks from `address` on show.
    pub open(crate) spec fn is_peeked_row(self, row: Seq<SyntaxToken>, address: int, cursor: int) -> bool {
        exists|bytes: Seq<u8>|
            {
                &&& #[trigger] is_token_row(row, address, bytes, cursor)
                &&& forall|i: int|
                    0 <= i < DUMP_ROW ==> self.shows((address + i) as usize, #[trigger] bytes[i])
            }
    }

    /// The interrupt vector `v` can be read: neither of its words belongs to
    /// a device that is not installed.
    pub open(crate) spec fn vector_readable(self, v: int) -> bool {
        &&& !(self.route16((4 * v) as usize) is Unresolvable)
        &&& !(self.route16((4 * v + 2) as usize) is Unresolvable)
    }

    /// The bus `then` is this bus at some time while its vectors are listed:
    /// memory, flags, mappings and clock are the same, and the cards have
    /// kept their places, identities and kinds.
    pub open(crate) spec fn listed_at(self, then: Self) -> bool {
        &&& then.wf()
        &&& then.same_memory(self)
        &&& then.same_maps(self)
        &&& then.same_clock(self)
        &&& then.same_card_kinds(self)
    }

    /// The tokens describe the interrupt vector `v` with the offset `ip` and
    /// the segment `cs`, which are the words that the CPU reads at the
    /// vector's place: the offset first, on the bus `first` as it was then,
    /// and the segment after it on the bus `second` as the first read left
    /// it; `third` is the bus as the second read left it.
    pub open(crate) spec fn vector_read(
        self,
        row: Seq<SyntaxToken>,
        v: int,
        cs: u16,
        ip: u16,
        first: Self,
        second: Self,
        third: Self,
        wait_ip: u32,
        wait_cs: u32,
    ) -> bool {
        &&& is_vector_row(row, v, cs, ip)
        &&& self.listed_at(first)
        &&& self.listed_at(second)
        &&& first.read_u16_result((4 * v) as usize, 0, Ok::<(u16, u32), MemError>((ip, wait_ip)), second)
        &&& second.read_u16_result(
            (4 * v + 2) as usize,
            0,
            Ok::<(u16, u32), MemError>((cs, wait_cs)),
            third,
        )
        &&& self.span_plain(4 * v, 4 * v + 4) ==> {
            &&& ip == word_of(self.memory@[4 * v], self.memory@[4 * v + 1])
            &&& cs == word_of(self.memory@[4 * v + 2], self.memory@[4 * v + 3])
        }
    }

    /// The tokens describe the interrupt vector `v` as the CPU reads it.
    pub open(crate) spec fn is_read_vector_row(self, row: Seq<SyntaxToken>, v: int) -> bool {
        exists|cs: u16, ip: u16, first: Self, second: Self, third: Self, wait_ip: u32, wait_cs: u32| #[trigger]
            self.vector_read(row, v, cs, ip, first, second, third, wait_ip, wait_cs)
    }

    /// Peeks at the sixteen bytes of a row.
    fn peek_row(&self, start: usize) -> (r: Result<Vec<u8>, MemError>)
        requires
            self.wf(),
            start + DUMP_ROW <= ADDRESS_SPACE,
        ensures
            r is Ok <==> self.span_resolvable(start as int, start + DUMP_ROW),
            r is Err ==> r == Err::<Vec<u8>, MemError>(MemError::MmioError),
            r matches Ok(bytes) ==> bytes@.len() == DUMP_ROW && forall|i: int|
                0 <= i < DUMP_ROW ==> self.shows((start + i) as usize, #[trigger] bytes@[i]),
    {
        let mut bytes: Vec<u8> = Vec::new();
        let mut i: usize = 0;
        while i < DUMP_ROW
            invariant
                i <= DUMP_ROW,
                start + DUMP_ROW <= ADDRESS_SPACE,
                self.wf(),
                bytes@.len() == i,
                self.span_resolvable(start as int, start + i),
                forall|k: int| 0 <= k < i ==> self.shows((start + k) as usize, #[trigger] bytes@[k]),
            decreases DUMP_ROW - i,
        {
            match self.peek_u8(start + i) {
                Ok(byte) => {
                    bytes.push(byte);
                },
                Err(e) => {
                    assert(self.route((start + i) as usize) is Unresolvable);
                    return Err(e);
                },
            }
            i += 1;
        }
        Ok(bytes)
    }

    /// Dumps memory as [`dump_flat_tokens`](Self::dump_flat_tokens) does, but
    /// as the CPU sees it: a byte that a video card answers for is the byte
    /// that the card shows. Fails if a byte to be dumped belongs to a device
    /// that is not installed.
    pub fn dump_flat_tokens_ex(&self, address: usize, cursor: usize, size: usize) -> (r: Result<
        Vec<Vec<SyntaxToken>>,
        MemError,
    >)
        requires
            self.wf(),
        ensures
            address >= ADDRESS_SPACE ==> (r matches Ok(rows) && rows@.len() == 1 && is_out_of_bounds_row(
                rows@[0]@,
            )),
            address < ADDRESS_SPACE ==> {
                &&& r is Ok <==> self.span_resolvable(
                    address as int,
                    address + DUMP_ROW * (dump_span(address, size) / (DUMP_ROW as int)),
                )
                &&& r is Err ==> r == Err::<Vec<Vec<SyntaxToken>>, MemError>(MemError::MmioError)
                &&& r matches Ok(rows) ==> {
                    &&& rows@.len() == dump_span(address, size) / (DUMP_ROW as int)
                    &&& forall|k: int|
                        0 <= k < rows@.len() ==> self.is_peeked_row(
                            (#[trigger] rows@[k])@,
                            address + DUMP_ROW * k,
                            cursor as int,
                        )
                }
            },
    {
        let mut rows: Vec<Vec<SyntaxToken>> = Vec::new();
        if address >= ADDRESS_SPACE {
            rows.push(out_of_bounds_row());
            return Ok(rows);
        }
        let span = if size >= ADDRESS_SPACE - address {
            ADDRESS_SPACE - address
        } else {
            size
        };
        let count = span / DUMP_ROW;
        let mut r: usize = 0;
        while r < count
            invariant
                r <= count,
                count == span / DUMP_ROW,
                span == dump_span(address, size),
                address + span <= ADDRESS_SPACE,
                self.wf(),
                rows@.len() == r,
                self.span_resolvable(address as int, address + DUMP_ROW * r),
                forall|k: int|
                    0 <= k < r ==> self.is_peeked_row(
                        (#[trigger] rows@[k])@,
                        address + DUMP_ROW * k,
                        cursor as int,
                    ),
            decreases count - r,
        {
            let start = address + DUMP_ROW * r;
            let bytes = match self.peek_row(start) {
                Ok(bytes) => bytes,
                Err(e) => {
                    proof {
                        if self.span_resolvable(address as int, address + DUMP_ROW * count) {
                            assert forall|a: usize| start <= a < start + DUMP_ROW implies !(
                            #[trigger] self.route(a) is Unresolvable) by {
                                assert(address <= a < address + DUMP_ROW * count);
                            }
                            assert(self.span_resolvable(start as int, start + DUMP_ROW));
                        }
                    }
                    return Err(e);
                },
            };
            proof {
                assert forall|a: usize| address <= a < address + DUMP_ROW * (r + 1) implies !(
                #[trigger] self.route(a) is Unresolvable) by {
                    if a < start {
                        assert(address <= a < address + DUMP_ROW * r);
                    } else {
                        assert(start <= a < start + DUMP_ROW);
                    }
                }
            }
            let row = token_row(start, bytes.as_slice(), cursor);
            let ghost before = rows@;
            rows.push(row);
            proof {
                assert forall|k: int| 0 <= k < r + 1 implies self.is_peeked_row(
                    (#[trigger] rows@[k])@,
                    address + DUMP_ROW * k,
                    cursor as int,
                ) by {
                    if k < r {
                        assert(rows@[k] == before[k]);
                    } else {
                        assert(is_token_row(rows@[k]@, address + DUMP_ROW * k, bytes@, cursor as int));
                    }
                }
            }
            r += 1;
        }
        Ok(rows)
    }

    /// Lists the interrupt vectors: for each of the 256 vectors its number,
    /// the segment and offset that it holds, and the name of what it serves
    /// by convention. The vectors are read as the CPU reads memory. Fails if
    /// a vector belongs to a device that is not installed.
    pub fn dump_ivr_tokens(&mut self) -> (r: Result<Vec<Vec<SyntaxToken>>, MemError>)
        requires
            old(self).wf(),
        ensures
            final(self).wf(),
            final(self).same_memory(*old(self)),
            final(self).same_maps(*old(self)),
            final(self).same_clock(*old(self)),
            final(self).same_schedule(*old(self)),
            final(self).same_slots(*old(self)),
            final(self).same_card_kinds(*old(self)),
            r is Ok <==> forall|v: int| 0 <= v < INTERRUPT_VECTORS ==> #[trigger] old(self).vector_readable(v),
            r is Err ==> r == Err::<Vec<Vec<SyntaxToken>>, MemError>(MemError::MmioError),
            r matches Ok(rows) ==> {
                &&& rows@.len() == INTERRUPT_VECTORS
                &&& forall|v: int|
                    0 <= v < INTERRUPT_VECTORS ==> old(self).is_read_vector_row((#[trigger] rows@[v])@, v)
            },
            old(self).span_plain(0, 4 * INTERRUPT_VECTORS) ==> r is Ok && *final(self) == *old(self),
    {
        let mut rows: Vec<Vec<SyntaxToken>> = Vec::new();
        let mut v: usize = 0;
        while v < INTERRUPT_VECTORS
            invariant
                v <= INTERRUPT_VECTORS,
                self.wf(),
                old(self).wf(),
                self.same_memory(*old(self)),
                self.same_maps(*old(self)),
                self.same_clock(*old(self)),
                self.same_schedule(*old(self)),
                self.same_slots(*old(self)),
                self.same_card_kinds(*old(self)),
                old(self).span_plain(0, 4 * INTERRUPT_VECTORS) ==> *self == *old(self),
                rows@.len() == v,
                forall|k: int| 0 <= k < v ==> #[trigger] old(self).vector_readable(k),
                forall|k: int| 0 <= k < v ==> old(self).is_read_vector_row((#[trigger] rows@[k])@, k),
            decreases INTERRUPT_VECTORS - v,
        {
            let ghost first = *self;
            proof {
                Self::lemma_route_stable(*old(self), first, (4 * v) as usize);
                if old(self).span_plain(0, 4 * INTERRUPT_VECTORS) {
                    assert(self.route((4 * v) as usize) is Raw);
                    assert(self.route((4 * v + 2) as usize) is Raw);
                }
                if old(self).span_plain(4 * v, 4 * v + 4) {
                    assert(old(self).route((4 * v) as usize) is Raw);
                    assert(old(self).route((4 * v + 2) as usize) is Raw);
                    assert(self.memory_mask == old(self).memory_mask);
                    assert(self.mmio_map_fast == old(self).mmio_map_fast);
                    assert(!crate::memory::has_flag(
                        self.memory_mask@[4 * v],
                        crate::memory::MEM_MMIO_BIT,
                    ));
                    assert(!crate::memory::has_flag(
                        self.memory_mask@[4 * v + 2],
                        crate::memory::MEM_MMIO_BIT,
                    ));
                }
            }
            let (ip, wait_ip) = match self.read_u16(v * 4, 0) {
                Ok(read) => read,
                Err(_) => {
                    assert(!old(self).vector_readable(v as int));
                    return Err(MemError::MmioError);
                },
            };
            let ghost second = *self;
            proof {
                assert(second.same_card_kinds(first));
                assert(second.same_card_kinds(*old(self)));
                Self::lemma_route_stable(*old(self), second, (4 * v + 2) as usize);
            }
            let (cs, wait_cs) = match self.read_u16(v * 4 + 2, 0) {
                Ok(read) => read,
                Err(_) => {
                    assert(!old(self).vector_readable(v as int));
                    return Err(MemError::MmioError);
                },
            };
            let ghost third = *self;
            proof {
                assert(self.same_card_kinds(second));
                assert(self.same_card_kinds(*old(self)));
                assert(old(self).vector_readable(v as int));
            }
            let row = vector_row(v, cs, ip);
            let ghost before = rows@;
            rows.push(row);
            proof {
                assert forall|k: int| 0 <= k < v + 1 implies old(self).is_read_vector_row(
                    (#[trigger] rows@[k])@,
                    k,
                ) by {
                    if k < v {
                        assert(rows@[k] == before[k]);
                    } else {
                        assert(is_vector_row(rows@[k]@, k, cs, ip));
                        assert(old(self).vector_read(
                            rows@[k]@,
                            k,
                            cs,
                            ip,
                            first,
                            second,
                            third,
                            wait_ip,
                            wait_cs,
                        ));
                    }
                }
            }
            v += 1;
        }
        Ok(rows)
    }
}

} // verus!
