//! A picture of the machine for human eyes: the two registers in decimal,
//! then memory as a grid of sixteen rows of sixteen cells in hexadecimal,
//! each row followed by the same cells as characters.
//!
//! The cell that the program counter names and the cell that the stack
//! pointer names are shown in reverse video.

use crate::machine::{Machine, State};
use crate::text::{ascii, decimal_text, put_decimal, put_text};
use vstd::prelude::*;
use vstd::string::is_ascii;

verus! {

/// The lower-case hexadecimal digit for `d`.
pub open spec fn hex_digit(d: int) -> u8
    recommends
        0 <= d < 16,
{
    if d < 10 {
        (0x30 + d) as u8
    } else {
        (0x61 + d - 10) as u8
    }
}

/// A byte as two hexadecimal digits.
pub open spec fn hex_byte(b: u8) -> Seq<u8> {
    seq![hex_digit(b as int / 16), hex_digit(b as int % 16)]
}

/// A byte as a character of the sidebar: itself if it is printable ASCII, a
/// full stop otherwise.
pub open spec fn glyph(b: u8) -> u8 {
    if 0x20 <= b <= 0x7e {
        b
    } else {
        0x2e
    }
}

/// The cell at `addr` is one that a register names.
pub open spec fn marked(s: State, addr: int) -> bool {
    addr == s.pc || addr == s.sp
}

/// One cell of the grid: a space and the byte in hexadecimal, wrapped in the
/// escape sequences for reverse video if the cell is marked.
pub open spec fn cell(s: State, addr: int) -> Seq<u8> {
    if marked(s, addr) {
        ascii(" \u{1b}[7m"@) + hex_byte(s.mem[addr]) + ascii("\u{1b}[m"@)
    } else {
        ascii(" "@) + hex_byte(s.mem[addr])
    }
}

/// The first `n` cells of row `row`.
pub open spec fn cells(s: State, row: int, n: int) -> Seq<u8>
    decreases n,
{
    if n <= 0 {
        Seq::empty()
    } else {
        cells(s, row, n - 1) + cell(s, 16 * row + n - 1)
    }
}

/// The first `n` cells of row `row` as characters of the sidebar.
pub open spec fn glyphs(s: State, row: int, n: nat) -> Seq<u8> {
    Seq::new(n, |j: int| glyph(s.mem[16 * row + j]))
}

/// Row `row` of the grid: its label, its cells, its sidebar and a newline.
pub open spec fn row(s: State, row: int) -> Seq<u8> {
    seq![hex_digit(row)] + ascii("_ "@) + cells(s, row, 16) + ascii("  "@) + glyphs(
        s,
        row,
        16,
    ) + ascii("\n"@)
}

/// The first `n` rows of the grid.
pub open spec fn rows(s: State, n: int) -> Seq<u8>
    decreases n,
{
    if n <= 0 {
        Seq::empty()
    } else {
        rows(s, n - 1) + row(s, n - 1)
    }
}

/// The first `n` column labels.
pub open spec fn column_labels(n: int) -> Seq<u8>
    decreases n,
{
    if n <= 0 {
        Seq::empty()
    } else {
        column_labels(n - 1) + ascii(" _"@) + seq![hex_digit(n - 1)]
    }
}

/// The two lines that show the registers.
pub open spec fn registers(s: State) -> Seq<u8> {
    ascii("   pc: "@) + decimal_text(s.pc as nat) + ascii("\n"@) + ascii("stack: "@) + decimal_text(
        s.sp as nat,
    ) + ascii("\n"@)
}

/// Everything above the grid: the registers and the line of column labels.
pub open spec fn heading(s: State) -> Seq<u8> {
    registers(s) + ascii("   "@) + column_labels(16) + ascii("\n"@)
}

/// The whole picture.
pub open spec fn dump_text(s: State) -> Seq<u8> {
    heading(s) + rows(s, 16)
}

/// The lower-case hexadecimal digit for `d`.
fn hex(d: u8) -> (c: u8)
    requires
        d < 16,
    ensures
        c == hex_digit(d as int),
{
    if d < 10 {
        0x30 + d
    } else {
        0x61 + (d - 10)
    }
}

/// Appends `b` as two hexadecimal digits.
fn put_hex_byte(out: &mut Vec<u8>, b: u8)
    ensures
        final(out)@ == old(out)@ + hex_byte(b),
{
    out.push(hex(b / 16));
    out.push(hex(b % 16));
}

/// Appends the cell at `addr`.
fn put_cell(m: &Machine, out: &mut Vec<u8>, addr: u8)
    ensures
        final(out)@ == old(out)@ + cell(m@, addr as int),
{
    proof {
        reveal_strlit(" \u{1b}[7m");
        reveal_strlit("\u{1b}[m");
        reveal_strlit(" ");
    }
    let b = m.read(addr);
    if addr == m.pc() || addr == m.stack() {
        put_text(out, " \u{1b}[7m");
        put_hex_byte(out, b);
        put_text(out, "\u{1b}[m");
    } else {
        put_text(out, " ");
        put_hex_byte(out, b);
    }
}

/// Appends row `i` of the grid.
fn put_row(m: &Machine, out: &mut Vec<u8>, i: u8)
    requires
        i < 16,
    ensures
        final(out)@ == old(out)@ + row(m@, i as int),
{
    proof {
        reveal_strlit("_ ");
        reveal_strlit("  ");
        reveal_strlit("\n");
    }
    out.push(hex(i));
    put_text(out, "_ ");
    let ghost label = out@;
    let mut j: u8 = 0;
    while j < 16
        invariant
            i < 16,
            j <= 16,
            out@ == label + cells(m@, i as int, j as int),
        decreases 16 - j,
    {
        put_cell(m, out, 16 * i + j);
        j += 1;
    }
    put_text(out, "  ");
    let ghost cells_done = out@;
    let mut j: u8 = 0;
    while j < 16
        invariant
            i < 16,
            j <= 16,
            out@ == cells_done + glyphs(m@, i as int, j as nat),
        decreases 16 - j,
    {
        let b = m.read(16 * i + j);
        if 0x20 <= b && b <= 0x7e {
            out.push(b);
        } else {
            out.push(0x2e);
        }
        j += 1;
    }
    put_text(out, "\n");
}

impl Machine {
    /// Renders the registers and memory as text.
    pub fn dump(&self) -> (out: Vec<u8>)
        ensures
            out@ == dump_text(self@),
    {
        proof {
            reveal_strlit("   pc: ");
            reveal_strlit("stack: ");
            reveal_strlit("\n");
            reveal_strlit("   ");
            reveal_strlit(" _");
        }
        let mut out: Vec<u8> = Vec::new();
        put_text(&mut out, "   pc: ");
        put_decimal(&mut out, self.pc());
        put_text(&mut out, "\n");
        put_text(&mut out, "stack: ");
        put_decimal(&mut out, self.stack());
        put_text(&mut out, "\n");
        assert(out@ == registers(self@));
        put_text(&mut out, "   ");
        let ghost margin = out@;
        let mut j: u8 = 0;
        while j < 16
            invariant
                j <= 16,
                is_ascii(" _"),
                out@ == margin + column_labels(j as int),
            decreases 16 - j,
        {
            put_text(&mut out, " _");
            out.push(hex(j));
            j += 1;
        }
        put_text(&mut out, "\n");
        assert(out@ == heading(self@));
        let mut i: u8 = 0;
        while i < 16
            invariant
                i <= 16,
                out@ == heading(self@) + rows(self@, i as int),
            decreases 16 - i,
        {
            put_row(self, &mut out, i);
            i += 1;
        }
        out
    }
}

} // verus!
