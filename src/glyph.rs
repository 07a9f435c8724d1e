use vstd::prelude::*;

verus! {

/// A complete 5×5 frame of LED brightness levels, listed row by row.
#[derive(Clone, Copy, Debug, PartialEq, Eq)]
pub struct Frame {
    pub rows: [[u8; 5]; 5],
}

/// Brightness of the cell in row `i`, column `j`.
pub open spec fn cell(f: Frame, i: int, j: int) -> u8 {
    f.rows@[i]@[j]
}

/// Whether cell `(i, j)` is lit in a 25-bit mask whose highest bit is the
/// top-left cell and whose lowest bit is the bottom-right cell.
pub open spec fn lit(mask: u32, i: int, j: int) -> bool {
    (mask >> ((24 - (5 * i + j)) as u32)) & 1u32 == 1u32
}

/// The shape of the glyph for byte `ch`, one bit per cell, top row first.
///
/// Letters, digits, Enter and Backspace have a shape; space and escape show
/// nothing; any other byte lights every cell, so that a byte without a glyph
/// is still visibly acknowledged.
pub open spec fn glyph_bits(ch: u8) -> u32 {
    match ch {
        0x41 => 0b01110_10001_11111_10001_10001, // 'A'
        0x61 => 0b11110_00001_01111_10001_01111, // 'a'
        0x42 => 0b11110_10001_11110_10001_11110, // 'B'
        0x62 => 0b10000_11110_10001_10001_11110, // 'b'
        0x43 => 0b01111_10000_10000_10000_01111, // 'C'
        0x63 => 0b01110_10001_10000_10001_01110, // 'c'
        0x44 => 0b11110_10001_10001_10001_11110, // 'D'
        0x64 => 0b00001_01111_10001_10001_01111, // 'd'
        0x45 => 0b11111_10000_11111_10000_11111, // 'E'
        0x65 => 0b01110_10001_11111_10000_01111, // 'e'
        0x46 => 0b11111_10000_11100_10000_10000, // 'F'
        0x66 => 0b01111_10000_11100_10000_10000, // 'f'
        0x47 => 0b01111_10000_10111_10001_01111, // 'G'
        0x67 => 0b01110_10001_01111_00001_11110, // 'g'
        0x48 => 0b10001_10001_11111_10001_10001, // 'H'
        0x68 => 0b10000_11110_10001_10001_10001, // 'h'
        0x49 => 0b01110_00100_00100_00100_01110, // 'I'
        0x69 => 0b00100_00000_00100_00100_00100, // 'i'
        0x4A => 0b00111_00001_00001_10001_01110, // 'J'
        0x6A => 0b00001_00001_00001_00001_11110, // 'j'
        0x4B => 0b10010_10100_11110_10001_10001, // 'K'
        0x6B => 0b10001_10010_11100_10010_10001, // 'k'
        0x4C => 0b10000_10000_10000_10000_11111, // 'L'
        0x6C => 0b10000_10000_10000_10000_01111, // 'l'
        0x4D => 0b10001_11011_10101_10001_10001, // 'M'
        0x6D => 0b01010_10101_10101_10101_10101, // 'm'
        0x4E => 0b11001_10101_10101_10101_10011, // 'N'
        0x6E => 0b11110_10001_10001_10001_10001, // 'n'
        0x4F => 0b01110_10001_10001_10001_01110, // 'O'
        0x6F => 0b00000_01100_10010_10010_01100, // 'o'
        0x50 => 0b11110_10001_11110_10000_10000, // 'P'
        0x70 => 0b11110_10001_10001_11110_10000, // 'p'
        0x51 => 0b01100_10010_10010_10010_01111, // 'Q'
        0x71 => 0b01111_10001_10001_01111_00001, // 'q'
        0x52 => 0b11110_10001_11110_10010_10001, // 'R'
        0x72 => 0b10110_11001_10000_10000_10000, // 'r'
        0x53 => 0b01111_10000_01110_00001_11110, // 'S'
        0x73 => 0b00110_01000_00100_00010_01100, // 's'
        0x54 => 0b11111_00100_00100_00100_00100, // 'T'
        0x74 => 0b10000_11100_10000_10001_01110, // 't'
        0x55 => 0b10001_10001_10001_10001_01110, // 'U'
        0x75 => 0b10001_10001_10001_10011_01101, // 'u'
        0x56 => 0b10001_10001_01010_01010_00100, // 'V'
        0x76 => 0b00000_10001_01010_00100_00000, // 'v'
        0x57 => 0b10001_10001_10101_11011_10001, // 'W'
        0x77 => 0b10001_10101_10101_10101_01010, // 'w'
        0x58 => 0b10001_01010_00100_01010_10001, // 'X'
        0x78 => 0b10001_10001_01110_10001_10001, // 'x'
        0x59 => 0b10001_10001_01110_00100_00100, // 'Y'
        0x79 => 0b10001_10001_01111_00001_11110, // 'y'
        0x5A => 0b11111_00001_01110_10000_11111, // 'Z'
        0x7A => 0b11111_00010_00100_01000_11111, // 'z'
        0x30 => 0b01110_10011_10101_11001_01110, // '0'
        0x31 => 0b00100_01100_00100_00100_01110, // '1'
        0x32 => 0b11110_00001_01110_10000_11111, // '2'
        0x33 => 0b11110_00001_00110_00001_11111, // '3'
        0x34 => 0b10001_10001_01111_00001_00001, // '4'
        0x35 => 0b11111_10000_11110_00001_11110, // '5'
        0x36 => 0b01111_10000_11110_10001_01110, // '6'
        0x37 => 0b11111_00001_00010_00010_00010, // '7'
        0x38 => 0b01110_10001_01110_10001_01110, // '8'
        0x39 => 0b01110_10001_01111_00001_00110, // '9'
        0x0D => 0b00001_00001_01001_11111_01000, // carriage return (Enter)
        0x08 => 0b00000_01000_11111_01000_00000, // backspace
        0x20 => 0, // space
        0x1B => 0, // escape
        _ => 0b11111_11111_11111_11111_11111, // no glyph: every cell lit
    }
}

/// The brightness of cell `(i, j)` when `ch` is drawn at level `b`; with
/// no byte at all every cell is dark.
pub open spec fn glyph_cell(ch: Option<u8>, b: u8, i: int, j: int) -> u8 {
    match ch {
        None => 0,
        Some(c) => if lit(glyph_bits(c), i, j) {
            b
        } else {
            0
        },
    }
}

/// `f` is the glyph of `ch` drawn at brightness `b`.
pub open spec fn is_glyph(f: Frame, ch: Option<u8>, b: u8) -> bool {
    forall|i: int, j: int| 0 <= i < 5 && 0 <= j < 5 ==> cell(f, i, j) == glyph_cell(ch, b, i, j)
}

/// The cells of `f` that are not dark.
pub open spec fn lit_cells(f: Frame) -> Set<(int, int)> {
    Set::new(|p: (int, int)| 0 <= p.0 < 5 && 0 <= p.1 < 5 && cell(f, p.0, p.1) != 0)
}

/// Drawing a glyph is a function of the byte and the brightness: two frames
/// drawn for the same byte at the same level agree cell for cell. At any two
/// non-zero levels the same cells are lit, so the count of lit cells does not
/// change with brightness; only the value of those cells does, and each lit
/// cell holds exactly the requested level.
pub proof fn lemma_glyph_shape_fixed(f1: Frame, f2: Frame, ch: Option<u8>, b1: u8, b2: u8)
    requires
        is_glyph(f1, ch, b1),
        is_glyph(f2, ch, b2),
        b1 > 0,
        b2 > 0,
    ensures
        b1 == b2 ==> forall|i: int, j: int| 0 <= i < 5 && 0 <= j < 5 ==> cell(f1, i, j) == cell(f2, i, j),
        lit_cells(f1) == lit_cells(f2),
        lit_cells(f1).len() == lit_cells(f2).len(),
        forall|i: int, j: int| 0 <= i < 5 && 0 <= j < 5 && cell(f1, i, j) != 0 ==> cell(f1, i, j) == b1,
        forall|i: int, j: int| 0 <= i < 5 && 0 <= j < 5 && cell(f2, i, j) != 0 ==> cell(f2, i, j) == b2,
{
    assert(lit_cells(f1) =~= lit_cells(f2));
}

fn glyph_mask(ch: u8) -> (r: u32)
    ensures
        r == glyph_bits(ch),
{
    match ch {
        0x41 => 0b01110_10001_11111_10001_10001, // 'A'
        0x61 => 0b11110_00001_01111_10001_01111, // 'a'
        0x42 => 0b11110_10001_11110_10001_11110, // 'B'
        0x62 => 0b10000_11110_10001_10001_11110, // 'b'
        0x43 => 0b01111_10000_10000_10000_01111, // 'C'
        0x63 => 0b01110_10001_10000_10001_01110, // 'c'
        0x44 => 0b11110_10001_10001_10001_11110, // 'D'
        0x64 => 0b00001_01111_10001_10001_01111, // 'd'
        0x45 => 0b11111_10000_11111_10000_11111, // 'E'
        0x65 => 0b01110_10001_11111_10000_01111, // 'e'
        0x46 => 0b11111_10000_11100_10000_10000, // 'F'
        0x66 => 0b01111_10000_11100_10000_10000, // 'f'
        0x47 => 0b01111_10000_10111_10001_01111, // 'G'
        0x67 => 0b01110_10001_01111_00001_11110, // 'g'
        0x48 => 0b10001_10001_11111_10001_10001, // 'H'
        0x68 => 0b10000_11110_10001_10001_10001, // 'h'
        0x49 => 0b01110_00100_00100_00100_01110, // 'I'
        0x69 => 0b00100_00000_00100_00100_00100, // 'i'
        0x4A => 0b00111_00001_00001_10001_01110, // 'J'
        0x6A => 0b00001_00001_00001_00001_11110, // 'j'
        0x4B => 0b10010_10100_11110_10001_10001, // 'K'
        0x6B => 0b10001_10010_11100_10010_10001, // 'k'
        0x4C => 0b10000_10000_10000_10000_11111, // 'L'
        0x6C => 0b10000_10000_10000_10000_01111, // 'l'
        0x4D => 0b10001_11011_10101_10001_10001, // 'M'
        0x6D => 0b01010_10101_10101_10101_10101, // 'm'
        0x4E => 0b11001_10101_10101_10101_10011, // 'N'
        0x6E => 0b11110_10001_10001_10001_10001, // 'n'
        0x4F => 0b01110_10001_10001_10001_01110, // 'O'
        0x6F => 0b00000_01100_10010_10010_01100, // 'o'
        0x50 => 0b11110_10001_11110_10000_10000, // 'P'
        0x70 => 0b11110_10001_10001_11110_10000, // 'p'
        0x51 => 0b01100_10010_10010_10010_01111, // 'Q'
        0x71 => 0b01111_10001_10001_01111_00001, // 'q'
        0x52 => 0b11110_10001_11110_10010_10001, // 'R'
        0x72 => 0b10110_11001_10000_10000_10000, // 'r'
        0x53 => 0b01111_10000_01110_00001_11110, // 'S'
        0x73 => 0b00110_01000_00100_00010_01100, // 's'
        0x54 => 0b11111_00100_00100_00100_00100, // 'T'
        0x74 => 0b10000_11100_10000_10001_01110, // 't'
        0x55 => 0b10001_10001_10001_10001_01110, // 'U'
        0x75 => 0b10001_10001_10001_10011_01101, // 'u'
        0x56 => 0b10001_10001_01010_01010_00100, // 'V'
        0x76 => 0b00000_10001_01010_00100_00000, // 'v'
        0x57 => 0b10001_10001_10101_11011_10001, // 'W'
        0x77 => 0b10001_10101_10101_10101_01010, // 'w'
        0x58 => 0b10001_01010_00100_01010_10001, // 'X'
        0x78 => 0b10001_10001_01110_10001_10001, // 'x'
        0x59 => 0b10001_10001_01110_00100_00100, // 'Y'
        0x79 => 0b10001_10001_01111_00001_11110, // 'y'
        0x5A => 0b11111_00001_01110_10000_11111, // 'Z'
        0x7A => 0b11111_00010_00100_01000_11111, // 'z'
        0x30 => 0b01110_10011_10101_11001_01110, // '0'
        0x31 => 0b00100_01100_00100_00100_01110, // '1'
        0x32 => 0b11110_00001_01110_10000_11111, // '2'
        0x33 => 0b11110_00001_00110_00001_11111, // '3'
        0x34 => 0b10001_10001_01111_00001_00001, // '4'
        0x35 => 0b11111_10000_11110_00001_11110, // '5'
        0x36 => 0b01111_10000_11110_10001_01110, // '6'
        0x37 => 0b11111_00001_00010_00010_00010, // '7'
        0x38 => 0b01110_10001_01110_10001_01110, // '8'
        0x39 => 0b01110_10001_01111_00001_00110, // '9'
        0x0D => 0b00001_00001_01001_11111_01000, // carriage return (Enter)
        0x08 => 0b00000_01000_11111_01000_00000, // backspace
        0x20 => 0, // space
        0x1B => 0, // escape
        _ => 0b11111_11111_11111_11111_11111, // no glyph: every cell lit
    }
}

fn cell_value(mask: u32, i: u32, j: u32, b: u8) -> (r: u8)
    requires
        i < 5,
        j < 5,
    ensures
        r == (if lit(mask, i as int, j as int) { b } else { 0 }),
{
    if (mask >> (24 - (5 * i + j))) & 1 == 1 {
        b
    } else {
        0
    }
}

fn row_of(mask: u32, i: u32, b: u8) -> (r: [u8; 5])
    requires
        i < 5,
    ensures
        forall|j: int| 0 <= j < 5 ==> r@[j] == (if lit(mask, i as int, j) { b } else { 0 }),
{
    [
        cell_value(mask, i, 0, b),
        cell_value(mask, i, 1, b),
        cell_value(mask, i, 2, b),
        cell_value(mask, i, 3, b),
        cell_value(mask, i, 4, b),
    ]
}

/// The frame in which no cell is lit.
pub fn blank_frame() -> (f: Frame)
    ensures
        forall|b: u8| is_glyph(f, None, b),
        forall|i: int, j: int| 0 <= i < 5 && 0 <= j < 5 ==> cell(f, i, j) == 0,
{
    let f = Frame { rows: [[0u8; 5]; 5] };
    assert(forall|i: int, j: int| 0 <= i < 5 && 0 <= j < 5 ==> cell(f, i, j) == 0);
    f
}

/// Draws the glyph of `ch` with every lit cell at `brightness` and every
/// other cell dark; `None` gives the blank frame.
pub fn ch_to_matrix(ch: Option<u8>, brightness: u8) -> (f: Frame)
    ensures
        is_glyph(f, ch, brightness),
{
    match ch {
        None => blank_frame(),
        Some(c) => {
            let mask = glyph_mask(c);
            Frame {
                rows: [
                    row_of(mask, 0, brightness),
                    row_of(mask, 1, brightness),
                    row_of(mask, 2, brightness),
                    row_of(mask, 3, brightness),
                    row_of(mask, 4, brightness),
                ],
            }
        },
    }
}

} // verus!
