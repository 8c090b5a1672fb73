//! The instruction set: one byte per instruction, named here by what it does.
//!
//! The bytes `0`-`9` and `a`-`f` are instructions too: each pushes the
//! hexadecimal digit it shows. Any byte that is neither one of those nor named
//! below halts the machine, as `HALT` does.

use vstd::prelude::*;

verus! {

/// `x`: stop.
pub const HALT: u8 = 0x78;

/// `.`: pop `lo`, pop `hi`, push `hi << 4 | lo`.
pub const COMBINE: u8 = 0x2e;

/// `i`: prompt, read a line, push the decimal number on it.
pub const READ_LINE: u8 = 0x69;

/// `o`: pop, write the value as a decimal numeral and a newline.
pub const WRITE_DECIMAL: u8 = 0x6f;

/// `:`: read one raw byte, push it.
pub const READ_BYTE: u8 = 0x3a;

/// `'`: pop, write the value as one raw byte.
pub const WRITE_BYTE: u8 = 0x27;

/// `"`: write a picture of the registers and memory.
pub const DUMP: u8 = 0x22;

/// `@`: exchange the two values on top of the stack.
pub const SWAP: u8 = 0x40;

/// `(`: push a second copy of the value on top of the stack.
pub const DUP: u8 = 0x28;

/// `)`: pop and discard.
pub const DROP: u8 = 0x29;

/// `+`: pop `b`, pop `a`, push `a + b` modulo 256.
pub const ADD: u8 = 0x2b;

/// `-`: pop `b`, pop `a`, push `a - b` modulo 256.
pub const SUB: u8 = 0x2d;

/// `*`: pop `b`, pop `a`, push `a * b` modulo 256.
pub const MUL: u8 = 0x2a;

/// `/`: pop `b`, pop `a`, push the quotient of `a` by `b`.
pub const DIV: u8 = 0x2f;

/// `%`: pop `b`, pop `a`, push the remainder of `a` by `b`.
pub const REM: u8 = 0x25;

/// `^`: pop `b`, pop `a`, push `a` to the power `b` modulo 256.
pub const POW: u8 = 0x5e;

/// `!`: pop `a`, push 1 if `a` is 0 and 0 otherwise.
pub const NOT: u8 = 0x21;

/// `=`: pop `b`, pop `a`, push 1 if `a == b` and 0 otherwise.
pub const EQUAL: u8 = 0x3d;

/// `<`: pop `b`, pop `a`, push 1 if `a < b` and 0 otherwise.
pub const LESS: u8 = 0x3c;

/// `>`: pop `b`, pop `a`, push 1 if `a > b` and 0 otherwise.
pub const GREATER: u8 = 0x3e;

/// `~`: pop `a`, push its bitwise complement.
pub const INVERT: u8 = 0x7e;

/// `|`: pop `b`, pop `a`, push `a | b`.
pub const OR: u8 = 0x7c;

/// `&`: pop `b`, pop `a`, push `a & b`.
pub const AND: u8 = 0x26;

/// `X`: pop `b`, pop `a`, push `a ^ b`, the bitwise exclusive or.
pub const XOR: u8 = 0x58;

/// `g`: pop `addr`, continue at `addr`.
pub const GOTO: u8 = 0x67;

/// `j`: pop `addr`, pop `cond`, continue at `addr` if `cond` is not 0.
pub const JUMP: u8 = 0x6a;

/// `l`: pop `addr`, push the byte at `addr`.
pub const LOAD: u8 = 0x6c;

/// `s`: pop `addr`, pop `val`, set the byte at `addr` to `val`.
pub const STORE: u8 = 0x73;

/// The value that a digit instruction pushes, if `op` is one: `0`-`9` push 0
/// to 9 and `a`-`f` push 10 to 15.
pub open spec fn digit(op: u8) -> Option<u8> {
    if 0x30 <= op <= 0x39 {
        Some((op - 0x30) as u8)
    } else if 0x61 <= op <= 0x66 {
        Some((op - 0x61 + 10) as u8)
    } else {
        None
    }
}

} // verus!
