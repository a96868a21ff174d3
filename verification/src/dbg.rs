//! The debugger's state and the commands of its prompt.
use vstd::prelude::*;
use vstd::slice::slice_subrange;
use vstd::string::StringSliceAdditionalSpecFns;
use crate::dram::is_space;
use crate::util::{hex_text_to_usize, hex_to_usize_spec};

verus! {

/// Whether the debugger is on, and where it stops.
#[derive(Debug, Clone, Copy, PartialEq, Eq, Structural)]
pub struct Debug {
    pub enable: bool,
    /// Breakpoint address.
    pub bp: u64,
}

/// What a line typed at the debugger's prompt asks for.
#[derive(Debug, Clone, Copy, PartialEq, Eq, Structural)]
pub enum DebugCommand {
    /// An empty line: execute the next instruction.
    Step,
    /// `p`: show the registers.
    Registers,
    /// `m <begin> <end>`: show the bytes of DRAM between two addresses.
    Memory(usize, usize),
    /// `uart`: show the registers of the UART.
    Uart,
    /// `b <addr>`: set the breakpoint and run on.
    Breakpoint(u64),
    /// Anything else: the line is passed over.
    Nothing,
}

/// The first position from `i` on that holds no white space; the length of
/// the text where there is none.
pub open spec fn word_start(text: Seq<u8>, i: int) -> int
    decreases text.len() - i,
{
    if 0 <= i < text.len() && is_space(text[i]) {
        word_start(text, i + 1)
    } else {
        i
    }
}

/// The first position from `i` on that holds white space; the length of the
/// text where there is none.
pub open spec fn word_end(text: Seq<u8>, i: int) -> int
    decreases text.len() - i,
{
    if 0 <= i < text.len() && !is_space(text[i]) {
        word_end(text, i + 1)
    } else {
        i
    }
}

/// The range of the first word from `i` on, if there is one. A word is a
/// run of characters that are no white space.
pub open spec fn word_at(text: Seq<u8>, i: int) -> Option<(int, int)> {
    let a = word_start(text, i);
    if a < text.len() {
        Some((a, word_end(text, a)))
    } else {
        None
    }
}

/// The address that the word after position `i` spells, if there is such a
/// word and it spells one; with it, where the word ends.
pub open spec fn address_at(text: Seq<u8>, i: int) -> Option<(usize, int)> {
    match word_at(text, i) {
        None => None,
        Some((a, b)) => match hex_to_usize_spec(text.subrange(a, b)) {
            Some(v) => Some((v, b)),
            None => None,
        },
    }
}

/// What a line asks for. An empty line steps. A line whose first word
/// starts with `m` shows memory between the addresses that its next two
/// words spell, and one whose first word starts with `b` sets the
/// breakpoint that its next word spells. The lines `p` and `uart` show the
/// registers and the UART. Every other line asks for nothing.
pub open spec fn command_of(text: Seq<u8>) -> DebugCommand {
    match word_at(text, 0) {
        None => DebugCommand::Step,
        Some((a, b)) => {
            let first = text.subrange(a, b);
            if first[0] == 0x6D {
                match address_at(text, b) {
                    None => DebugCommand::Nothing,
                    Some((begin, c)) => match address_at(text, c) {
                        None => DebugCommand::Nothing,
                        Some((end, _)) => DebugCommand::Memory(begin, end),
                    },
                }
            } else if first[0] == 0x62 {
                match address_at(text, b) {
                    None => DebugCommand::Nothing,
                    Some((addr, _)) => DebugCommand::Breakpoint(addr as u64),
                }
            } else if word_at(text, b) is Some {
                DebugCommand::Nothing
            } else if first == seq![0x70u8] {
                DebugCommand::Registers
            } else if first == seq![0x75u8, 0x61u8, 0x72u8, 0x74u8] {
                DebugCommand::Uart
            } else {
                DebugCommand::Nothing
            }
        },
    }
}

/// Tells whether a byte is ASCII white space.
fn is_white(c: u8) -> (r: bool)
    ensures
        r == is_space(c),
{
    c == 0x20 || (0x09 <= c && c <= 0x0D)
}

/// Finds the first word from position `i` on.
pub fn next_word(text: &[u8], i: usize) -> (r: Option<(usize, usize)>)
    requires
        i <= text@.len(),
    ensures
        match r {
            Some((a, b)) => word_at(text@, i as int) == Some((a as int, b as int)) && i <= a < b <= text@.len(),
            None => word_at(text@, i as int) is None,
        },
{
    let n = text.len();
    let mut a = i;
    while a < n && is_white(text[a])
        invariant
            i <= a <= n == text@.len(),
            word_start(text@, a as int) == word_start(text@, i as int),
        decreases n - a,
    {
        a += 1;
    }
    if a >= n {
        return None;
    }
    let mut b = a + 1;
    while b < n && !is_white(text[b])
        invariant
            a < b <= n == text@.len(),
            word_end(text@, b as int) == word_end(text@, a as int),
        decreases n - b,
    {
        b += 1;
    }
    Some((a, b))
}

/// Reads the address that the word after position `i` spells.
fn next_address(text: &[u8], i: usize) -> (r: Option<(usize, usize)>)
    requires
        i <= text@.len(),
    ensures
        match r {
            Some((v, b)) => address_at(text@, i as int) == Some((v, b as int)) && b <= text@.len(),
            None => address_at(text@, i as int) is None,
        },
{
    match next_word(text, i) {
        None => None,
        Some((a, b)) => match hex_text_to_usize(slice_subrange(text, a, b)) {
            Some(v) => Some((v, b)),
            None => None,
        },
    }
}

/// Reads a line typed at the debugger's prompt.
pub fn parse_command(line: &str) -> (r: DebugCommand)
    ensures
        r == command_of(line.spec_bytes()),
{
    let text = line.as_bytes();
    let (a, b) = match next_word(text, 0) {
        None => {
            return DebugCommand::Step;
        },
        Some(w) => w,
    };
    let ghost first = text@.subrange(a as int, b as int);
    if text[a] == 0x6D {
        let (begin, c) = match next_address(text, b) {
            None => {
                return DebugCommand::Nothing;
            },
            Some(v) => v,
        };
        return match next_address(text, c) {
            None => DebugCommand::Nothing,
            Some((end, _)) => DebugCommand::Memory(begin, end),
        };
    }
    if text[a] == 0x62 {
        return match next_address(text, b) {
            None => DebugCommand::Nothing,
            Some((addr, _)) => DebugCommand::Breakpoint(addr as u64),
        };
    }
    if next_word(text, b).is_some() {
        return DebugCommand::Nothing;
    }
    if b - a == 1 && text[a] == 0x70 {
        assert(first =~= seq![0x70u8]);
        return DebugCommand::Registers;
    }
    if b - a == 4 && text[a] == 0x75 && text[a + 1] == 0x61 && text[a + 2] == 0x72 && text[a + 3] == 0x74 {
        assert(first =~= seq![0x75u8, 0x61u8, 0x72u8, 0x74u8]);
        return DebugCommand::Uart;
    }
    assert(first != seq![0x70u8]) by {
        if first == seq![0x70u8] {
            assert(first.len() == 1);
            assert(first[0] == 0x70u8);
        }
    }
    assert(first != seq![0x75u8, 0x61u8, 0x72u8, 0x74u8]) by {
        let u = seq![0x75u8, 0x61u8, 0x72u8, 0x74u8];
        if first == u {
            assert(first.len() == 4);
            assert(first[0] == u[0] && first[1] == u[1] && first[2] == u[2] && first[3] == u[3]);
        }
    }
    DebugCommand::Nothing
}

impl Debug {
    pub fn new(enable: bool, addr: u64) -> (r: Debug)
        ensures
            r == (Debug { enable, bp: addr }),
    {
        Debug { enable, bp: addr }
    }

    /// Whether `addr` is the breakpoint.
    pub fn is_bp(&mut self, addr: u64) -> (r: bool)
        ensures
            r == (old(self).bp == addr),
            *final(self) == *old(self),
    {
        self.bp == addr
    }
}

} // verus!
