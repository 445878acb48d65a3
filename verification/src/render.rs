//! Textual rendering of dispatch results.
//!
//! A word reads back as `0x` and eight hexadecimal digits; a SID as four
//! colon-separated groups of eight digits; a memory dump as fixed-width lines
//! of sixteen byte cells.  Every renderer's output is pinned down character
//! by character by a specification function.

use vstd::prelude::*;

verus! {

/// Character of one hexadecimal digit (lower case).
pub open spec fn hex_digit(d: nat) -> char
    recommends
        d < 16,
{
    if d < 10 {
        (0x30 + d) as char
    } else {
        (0x57 + d) as char
    }
}

/// Fixed-width hexadecimal rendering of `v`, most significant digit first.
pub open spec fn hex_digits(v: nat, width: nat) -> Seq<char>
    decreases width,
{
    if width == 0 {
        Seq::empty()
    } else {
        hex_digits(v / 16, (width - 1) as nat).push(hex_digit(v % 16))
    }
}

/// A word rendered as `0x` and eight hexadecimal digits.
pub open spec fn word_text(v: u32) -> Seq<char> {
    seq!['0', 'x'] + hex_digits(v as nat, 8)
}

/// A SID rendered as four colon-separated groups of eight hexadecimal
/// digits.
pub open spec fn sid_text(sid: Seq<u32>) -> Seq<char>
    recommends
        sid.len() == 4,
{
    hex_digits(sid[0] as nat, 8) + seq![':'] + hex_digits(sid[1] as nat, 8) + seq![':']
        + hex_digits(sid[2] as nat, 8) + seq![':'] + hex_digits(sid[3] as nat, 8)
}

/// Bytes per hex-dump line.
pub const HEX_DUMP_LINE: usize = 0x10;

/// The ASCII-column character of one byte: itself when printable, `.`
/// otherwise.
pub open spec fn ascii_char_of(b: u8) -> char {
    if 0x20 <= b && b <= 0x7E {
        b as char
    } else {
        '.'
    }
}

/// The hex column's cell for position `idx`: two digits and a space, or the
/// `__ ` placeholder past the end of the data.
pub open spec fn dump_hex_cell(data: Seq<u8>, idx: int) -> Seq<char> {
    if 0 <= idx < data.len() {
        hex_digits(data[idx] as nat, 2).push(' ')
    } else {
        seq!['_', '_', ' ']
    }
}

/// The first `count` hex cells of the line starting at data position `base`.
pub open spec fn dump_hex_cells(data: Seq<u8>, base: int, count: int) -> Seq<char>
    decreases count,
{
    if count <= 0 {
        Seq::empty()
    } else {
        dump_hex_cells(data, base, count - 1) + dump_hex_cell(data, base + count - 1)
    }
}

/// The ASCII column's cell for position `idx`: `.` past the end of the data.
pub open spec fn dump_ascii_cell(data: Seq<u8>, idx: int) -> char {
    if 0 <= idx < data.len() {
        ascii_char_of(data[idx])
    } else {
        '.'
    }
}

/// The first `count` ASCII cells of the line starting at data position
/// `base`.
pub open spec fn dump_ascii_cells(data: Seq<u8>, base: int, count: int) -> Seq<char>
    decreases count,
{
    if count <= 0 {
        Seq::empty()
    } else {
        dump_ascii_cells(data, base, count - 1).push(dump_ascii_cell(data, base + count - 1))
    }
}

/// Line `i` of the dump of `data` at `offset`: the absolute address of the
/// line's first byte, a colon, sixteen hex cells, a separating space, and
/// sixteen ASCII cells.
pub open spec fn dump_line(data: Seq<u8>, offset: u32, i: int) -> Seq<char> {
    hex_digits((offset + 16 * i) as nat, 8) + seq![':', ' '] + dump_hex_cells(data, 16 * i, 16)
        + seq![' '] + dump_ascii_cells(data, 16 * i, 16)
}

/// Number of lines in the dump of `len` bytes: one per started group of
/// sixteen.
pub open spec fn dump_line_count(len: nat) -> nat {
    (len + 15) / 16
}

/// Relies on `String::push`: appends exactly the given character to the end
/// of the string.
#[verifier::external_body]
fn push_char(s: &mut String, c: char)
    ensures
        final(s)@ == old(s)@.push(c),
{
    s.push(c);
}

/// The character of one hexadecimal digit value.
fn hex_digit_char(d: u8) -> (c: char)
    requires
        d < 16,
    ensures
        c == hex_digit(d as nat),
{
    if d < 10 {
        (0x30 + d) as char
    } else {
        (0x57 + d) as char
    }
}

/// Appends the fixed-width hexadecimal rendering of `v`.
fn push_hex(s: &mut String, v: u32, width: usize)
    ensures
        final(s)@ == old(s)@ + hex_digits(v as nat, width as nat),
    decreases width,
{
    if width > 0 {
        push_hex(s, v / 16, width - 1);
        let c = hex_digit_char((v % 16) as u8);
        push_char(s, c);
        proof {
            assert((v % 16) as u8 as nat == v as nat % 16);
            assert((v / 16) as nat == v as nat / 16);
            assert(old(s)@ + hex_digits(v as nat, width as nat) =~= (old(s)@ + hex_digits(
                v as nat / 16,
                (width - 1) as nat,
            )).push(hex_digit(v as nat % 16)));
        }
    } else {
        proof {
            assert(s@ + hex_digits(v as nat, 0) =~= s@);
        }
    }
}

/// Renders a word as the console prints it.
pub fn format_word(v: u32) -> (r: String)
    ensures
        r@ == word_text(v),
{
    let mut s = String::new();
    push_char(&mut s, '0');
    push_char(&mut s, 'x');
    push_hex(&mut s, v, 8);
    proof {
        assert(s@ =~= word_text(v));
    }
    s
}

/// Renders a SID register set as the console prints it.
pub fn format_sid(sid: &[u32; 4]) -> (r: String)
    ensures
        r@ == sid_text(sid@),
{
    let mut s = String::new();
    push_hex(&mut s, sid[0], 8);
    push_char(&mut s, ':');
    push_hex(&mut s, sid[1], 8);
    push_char(&mut s, ':');
    push_hex(&mut s, sid[2], 8);
    push_char(&mut s, ':');
    push_hex(&mut s, sid[3], 8);
    proof {
        assert(s@ =~= sid_text(sid@));
    }
    s
}

/// Renders the dump of `data` read at `offset` as fixed-width lines: each
/// line the absolute address of its first byte, sixteen space-separated hex
/// pairs (a final partial line padded with `__`), and a printable-ASCII
/// column padded with `.`.
pub fn hex_dump(data: &Vec<u8>, offset: u32) -> (r: Vec<String>)
    requires
        offset + data@.len() <= 0x1_0000_0000,
    ensures
        r@.len() == dump_line_count(data@.len()),
        forall|i: int| 0 <= i < r@.len() ==> (#[trigger] r@[i])@ == dump_line(data@, offset, i),
{
    let n = data.len();
    let count = n / HEX_DUMP_LINE + if n % HEX_DUMP_LINE == 0 {
        0
    } else {
        1
    };
    assert(count == dump_line_count(n as nat));
    let mut lines: Vec<String> = Vec::new();
    let mut i: usize = 0;
    while i < count
        invariant
            i <= count,
            n == data@.len(),
            offset + n <= 0x1_0000_0000,
            count == dump_line_count(n as nat),
            lines@.len() == i,
            forall|k: int|
                0 <= k < i ==> (#[trigger] lines@[k])@ == dump_line(data@, offset, k),
        decreases count - i,
    {
        let base = i * HEX_DUMP_LINE;
        assert(base < n);
        let start_address = offset + (base as u32);
        let mut line = String::new();
        push_hex(&mut line, start_address, 8);
        push_char(&mut line, ':');
        push_char(&mut line, ' ');
        let ghost head = hex_digits((offset + 16 * (i as int)) as nat, 8) + seq![':', ' '];
        proof {
            assert(line@ =~= head);
        }
        let mut j: usize = 0;
        while j < HEX_DUMP_LINE
            invariant
                j <= HEX_DUMP_LINE,
                n == data@.len(),
                base == i * HEX_DUMP_LINE,
                base < n,
                line@ == head + dump_hex_cells(data@, base as int, j as int),
            decreases HEX_DUMP_LINE - j,
        {
            let ghost before = line@;
            let idx = base + j;
            if idx < n {
                push_hex(&mut line, data[idx] as u32, 2);
                push_char(&mut line, ' ');
                proof {
                    assert(line@ =~= before + dump_hex_cell(data@, base + j));
                }
            } else {
                push_char(&mut line, '_');
                push_char(&mut line, '_');
                push_char(&mut line, ' ');
                proof {
                    assert(line@ =~= before + dump_hex_cell(data@, base + j));
                }
            }
            proof {
                assert(before + dump_hex_cell(data@, base + j) =~= head + dump_hex_cells(
                    data@,
                    base as int,
                    j + 1,
                ));
            }
            j = j + 1;
        }
        push_char(&mut line, ' ');
        let ghost mid = head + dump_hex_cells(data@, base as int, 16) + seq![' '];
        proof {
            assert(line@ =~= mid);
        }
        let mut j2: usize = 0;
        while j2 < HEX_DUMP_LINE
            invariant
                j2 <= HEX_DUMP_LINE,
                n == data@.len(),
                base == i * HEX_DUMP_LINE,
                base < n,
                line@ == mid + dump_ascii_cells(data@, base as int, j2 as int),
            decreases HEX_DUMP_LINE - j2,
        {
            let ghost before = line@;
            let idx = base + j2;
            if idx < n {
                let b = data[idx];
                if 0x20 <= b && b <= 0x7E {
                    push_char(&mut line, b as char);
                } else {
                    push_char(&mut line, '.');
                }
            } else {
                push_char(&mut line, '.');
            }
            proof {
                assert(line@ =~= mid + dump_ascii_cells(data@, base as int, j2 + 1));
            }
            j2 = j2 + 1;
        }
        proof {
            assert(line@ =~= dump_line(data@, offset, i as int));
        }
        lines.push(line);
        i = i + 1;
    }
    lines
}

} // verus!
