//! Classic hex-dump rendering of a byte string: one line per chunk,
//! each line holding an eight-digit offset, the bytes as two-digit
//! hexadecimal cells, padding for a short final chunk, and optionally
//! the printable-ASCII column between pipes.

use vstd::prelude::*;

use crate::text;

verus! {

/// The lowercase hexadecimal digit of a nibble value, as an ASCII byte.
pub open spec fn hex_digit_byte(v: int) -> u8 {
    if v <= 9 {
        (v + 48) as u8
    } else {
        (v + 87) as u8
    }
}

/// The eight-digit hexadecimal rendering of a line offset, most
/// significant nibble first.
pub open spec fn offset_cells(off: int) -> Seq<u8> {
    seq![
        hex_digit_byte((off / 268435456) % 16),
        hex_digit_byte((off / 16777216) % 16),
        hex_digit_byte((off / 1048576) % 16),
        hex_digit_byte((off / 65536) % 16),
        hex_digit_byte((off / 4096) % 16),
        hex_digit_byte((off / 256) % 16),
        hex_digit_byte((off / 16) % 16),
        hex_digit_byte(off % 16),
    ]
}

/// One byte rendered as two hexadecimal digits and its trailing space;
/// after the eighth byte of a sixteen-column line an extra space splits
/// the line into two groups.
pub open spec fn one_cell(b: u8, cols: int, j: int) -> Seq<u8> {
    seq![hex_digit_byte(b as int / 16), hex_digit_byte(b as int % 16)] + (if cols == 16 && j == 7 {
        seq![32u8, 32u8]
    } else {
        seq![32u8]
    })
}

/// The cells of the first `j` bytes of a chunk.
pub open spec fn byte_cells(chunk: Seq<u8>, cols: int, j: int) -> Seq<u8>
    decreases j,
{
    if j <= 0 {
        Seq::empty()
    } else {
        byte_cells(chunk, cols, j - 1) + one_cell(chunk[j - 1], cols, j - 1)
    }
}

/// One padding cell standing in for a missing byte of a short final
/// chunk; the group-splitting space is kept aligned.
pub open spec fn one_pad(chunk_len: int, cols: int, j: int) -> Seq<u8> {
    (if cols == 16 && chunk_len + j == 8 {
        seq![32u8]
    } else {
        Seq::<u8>::empty()
    }) + seq![32u8, 32u8, 32u8]
}

/// The first `j` padding cells.
pub open spec fn pad_cells(chunk_len: int, cols: int, j: int) -> Seq<u8>
    decreases j,
{
    if j <= 0 {
        Seq::empty()
    } else {
        pad_cells(chunk_len, cols, j - 1) + one_pad(chunk_len, cols, j - 1)
    }
}

/// How a byte shows in the ASCII column: itself when printable, a dot
/// otherwise.
pub open spec fn ascii_cell(b: u8) -> u8 {
    if 32 <= b && b <= 126 {
        b
    } else {
        46
    }
}

/// The ASCII column of the first `j` bytes of a chunk.
pub open spec fn ascii_cells(chunk: Seq<u8>, j: int) -> Seq<u8>
    decreases j,
{
    if j <= 0 {
        Seq::empty()
    } else {
        ascii_cells(chunk, j - 1) + seq![ascii_cell(chunk[j - 1])]
    }
}

/// One rendered line: the chunk starting at `start`.
pub open spec fn dump_line(bytes: Seq<u8>, cols: int, show_ascii: bool, start: int) -> Seq<u8> {
    let end = if start + cols <= bytes.len() {
        start + cols
    } else {
        bytes.len() as int
    };
    let chunk = bytes.subrange(start, end);
    offset_cells(start) + seq![32u8, 32u8] + byte_cells(chunk, cols, chunk.len() as int)
        + pad_cells(chunk.len() as int, cols, cols - chunk.len()) + (if show_ascii {
        seq![32u8, 124u8] + ascii_cells(chunk, chunk.len() as int) + seq![124u8]
    } else {
        Seq::<u8>::empty()
    }) + seq![10u8]
}

/// The first `k` rendered lines.
pub open spec fn dump_upto(bytes: Seq<u8>, cols: int, show_ascii: bool, k: int) -> Seq<u8>
    decreases k,
{
    if k <= 0 {
        Seq::empty()
    } else {
        dump_upto(bytes, cols, show_ascii, k - 1) + dump_line(
            bytes,
            cols,
            show_ascii,
            (k - 1) * cols,
        )
    }
}

/// How many lines a dump has: one per started chunk.
pub open spec fn n_lines(len: int, cols: int) -> int {
    (len + cols - 1) / cols
}

/// The whole dump, as the ASCII bytes of its text.
pub open spec fn spec_hexdump(bytes: Seq<u8>, cols: int, show_ascii: bool) -> Seq<u8> {
    dump_upto(bytes, cols, show_ascii, n_lines(bytes.len() as int, cols))
}

/// The lowercase hexadecimal digit of a nibble value.
fn hex_digit(v: u8) -> (r: u8)
    requires
        v < 16,
    ensures
        r == hex_digit_byte(v as int),
{
    if v <= 9 {
        v + 48
    } else {
        v + 87
    }
}

/// Appends one rendered line for the chunk starting at `pos`, and
/// reports that chunk's length.
#[verifier::rlimit(100)]
fn render_line(
    out: &mut Vec<u8>,
    bytes: &[u8],
    bytes_per_line: usize,
    show_ascii: bool,
    pos: usize,
) -> (chunk_len: usize)
    requires
        1 <= bytes_per_line,
        bytes@.len() <= u32::MAX,
        pos < bytes@.len(),
        text::is_ascii_bytes(old(out)@),
    ensures
        final(out)@ == old(out)@ + dump_line(
            bytes@,
            bytes_per_line as int,
            show_ascii,
            pos as int,
        ),
        text::is_ascii_bytes(final(out)@),
        pos + chunk_len <= bytes@.len(),
        chunk_len == bytes_per_line || pos + chunk_len == bytes@.len(),
        1 <= chunk_len <= bytes_per_line,
{
    let ghost cols = bytes_per_line as int;
    let ghost line_base = out@;
    let rem = bytes.len() - pos;
    let chunk_len = if bytes_per_line < rem {
        bytes_per_line
    } else {
        rem
    };
    let ghost chunk = bytes@.subrange(pos as int, pos as int + chunk_len as int);
    // offset column
    let off = pos as u32;
    out.push(hex_digit(((off / 268435456) % 16) as u8));
    out.push(hex_digit(((off / 16777216) % 16) as u8));
    out.push(hex_digit(((off / 1048576) % 16) as u8));
    out.push(hex_digit(((off / 65536) % 16) as u8));
    out.push(hex_digit(((off / 4096) % 16) as u8));
    out.push(hex_digit(((off / 256) % 16) as u8));
    out.push(hex_digit(((off / 16) % 16) as u8));
    out.push(hex_digit((off % 16) as u8));
    out.push(32);
    out.push(32);
    proof {
        assert(out@ =~= line_base + offset_cells(pos as int) + seq![32u8, 32u8]);
    }
    let ghost hex_base = out@;
    let mut j: usize = 0;
    while j < chunk_len
        invariant
            j <= chunk_len,
            pos + chunk_len <= bytes@.len(),
            bytes@.len() <= usize::MAX,
            cols == bytes_per_line as int,
            chunk == bytes@.subrange(pos as int, pos as int + chunk_len as int),
            out@ == hex_base + byte_cells(chunk, cols, j as int),
            text::is_ascii_bytes(out@),
        decreases chunk_len - j,
    {
        let b = bytes[pos + j];
        out.push(hex_digit(b / 16));
        out.push(hex_digit(b % 16));
        if bytes_per_line == 16 && j == 7 {
            out.push(32);
        }
        out.push(32);
        proof {
            assert(chunk[j as int] == b);
            assert(out@ =~= hex_base + byte_cells(chunk, cols, j as int + 1));
        }
        j = j + 1;
    }
    proof {
        assert(out@ =~= hex_base + byte_cells(chunk, cols, chunk.len() as int));
    }
    let ghost pad_base = out@;
    let padding = bytes_per_line - chunk_len;
    let mut j: usize = 0;
    while j < padding
        invariant
            j <= padding,
            padding == bytes_per_line - chunk_len,
            chunk_len <= bytes_per_line,
            cols == bytes_per_line as int,
            out@ == pad_base + pad_cells(chunk_len as int, cols, j as int),
            text::is_ascii_bytes(out@),
        decreases padding - j,
    {
        if bytes_per_line == 16 && chunk_len + j == 8 {
            out.push(32);
        }
        out.push(32);
        out.push(32);
        out.push(32);
        proof {
            assert(out@ =~= pad_base + pad_cells(chunk_len as int, cols, j as int + 1));
        }
        j = j + 1;
    }
    proof {
        assert(out@ =~= pad_base + pad_cells(chunk_len as int, cols, cols - chunk.len()));
    }
    if show_ascii {
        out.push(32);
        out.push(124);
        let ghost ascii_base = out@;
        let mut j: usize = 0;
        while j < chunk_len
            invariant
                j <= chunk_len,
                pos + chunk_len <= bytes@.len(),
                bytes@.len() <= usize::MAX,
                chunk == bytes@.subrange(pos as int, pos as int + chunk_len as int),
                out@ == ascii_base + ascii_cells(chunk, j as int),
                text::is_ascii_bytes(out@),
            decreases chunk_len - j,
        {
            let b = bytes[pos + j];
            if (32 <= b && b <= 126) {
                out.push(b);
            } else {
                out.push(46);
            }
            proof {
                assert(chunk[j as int] == b);
                assert(out@ =~= ascii_base + ascii_cells(chunk, j as int + 1));
            }
            j = j + 1;
        }
        out.push(124);
    }
    out.push(10);
    proof {
        assert(out@ =~= line_base + dump_line(bytes@, cols, show_ascii, pos as int));
    }
    chunk_len
}

/// Renders a hex dump with a chosen column count and with or without
/// the ASCII column.
#[verifier::rlimit(100)]
pub fn hexdump_with_options(bytes: &[u8], bytes_per_line: usize, show_ascii: bool) -> (r: String)
    requires
        1 <= bytes_per_line,
        bytes@.len() <= u32::MAX,
    ensures
        r@ == text::ascii_chars(spec_hexdump(bytes@, bytes_per_line as int, show_ascii)),
{
    let ghost cols = bytes_per_line as int;
    let mut out: Vec<u8> = Vec::new();
    let mut line: usize = 0;
    let mut pos: usize = 0;
    while pos < bytes.len()
        invariant
            1 <= bytes_per_line,
            bytes@.len() <= u32::MAX,
            cols == bytes_per_line as int,
            pos <= bytes@.len(),
            pos < bytes@.len() ==> pos == line * bytes_per_line,
            pos <= line * cols,
            line <= pos,
            line >= 1 ==> (line - 1) * cols < bytes@.len(),
            out@ == dump_upto(bytes@, cols, show_ascii, line as int),
            text::is_ascii_bytes(out@),
        decreases bytes@.len() - pos,
    {
        proof {
            assert(pos == line * bytes_per_line);
        }
        let chunk_len = render_line(&mut out, bytes, bytes_per_line, show_ascii, pos);
        proof {
            assert(out@ =~= dump_upto(bytes@, cols, show_ascii, line as int + 1));
        }
        let ghost old_line = line as int;
        let ghost old_pos = pos as int;
        line = line + 1;
        pos = pos + chunk_len;
        proof {
            assert(old_line * cols + cols == (old_line + 1) * cols) by (nonlinear_arith);
            assert(pos as int == old_line * cols + chunk_len as int);
            assert(pos as int <= line as int * cols);
            if pos < bytes.len() {
                assert(pos as int == line as int * cols);
            }
        }
    }
    proof {
        assert(line as int == n_lines(bytes@.len() as int, cols)) by (nonlinear_arith)
            requires
                cols >= 1,
                pos as int <= line as int * cols,
                pos as int >= bytes@.len(),
                line >= 1 ==> (line as int - 1) * cols < bytes@.len(),
                line == 0 ==> pos == 0,
        ;
    }
    text::utf8_lossy(out.as_slice())
}

/// Renders a hex dump with sixteen columns and the ASCII column.
pub fn hexdump(bytes: &[u8]) -> (r: String)
    requires
        bytes@.len() <= u32::MAX,
    ensures
        r@ == text::ascii_chars(spec_hexdump(bytes@, 16, true)),
{
    hexdump_with_options(bytes, 16, true)
}

/// Renders a hex dump with a chosen column count and the ASCII column.
pub fn hexdump_cols(bytes: &[u8], bytes_per_line: usize) -> (r: String)
    requires
        1 <= bytes_per_line,
        bytes@.len() <= u32::MAX,
    ensures
        r@ == text::ascii_chars(spec_hexdump(bytes@, bytes_per_line as int, true)),
{
    hexdump_with_options(bytes, bytes_per_line, true)
}

/// Renders a hex dump with sixteen columns and no ASCII column.
pub fn hexdump_no_ascii(bytes: &[u8]) -> (r: String)
    requires
        bytes@.len() <= u32::MAX,
    ensures
        r@ == text::ascii_chars(spec_hexdump(bytes@, 16, false)),
{
    hexdump_with_options(bytes, 16, false)
}

/// Renders a hex dump with sixteen columns and the ASCII column, as a
/// string.
pub fn hexdump_string(bytes: &[u8]) -> (r: String)
    requires
        bytes@.len() <= u32::MAX,
    ensures
        r@ == text::ascii_chars(spec_hexdump(bytes@, 16, true)),
{
    hexdump_with_options(bytes, 16, true)
}

} // verus!
