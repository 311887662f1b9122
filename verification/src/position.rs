//! Position translation: from byte offsets in UTF-8 source text to zero-based
//! (line, character) positions counted in UTF-16 code units, the editor
//! protocol's native text-position encoding.

use vstd::prelude::*;

verus! {

/// A zero-based text position: `line` counts newline bytes before the offset,
/// `character` counts UTF-16 code units from the start of the line.
#[derive(Clone, Copy, Debug, PartialEq, Eq, Structural)]
pub struct Position {
    pub line: usize,
    pub character: usize,
}

/// A half-open range of positions, `start` inclusive and `end` exclusive.
#[derive(Clone, Copy, Debug, PartialEq, Eq, Structural)]
pub struct TextRange {
    pub start: Position,
    pub end: Position,
}

/// UTF-16 code units contributed by the UTF-8 byte `b`: one for an ASCII byte
/// or the leading byte of a two- or three-byte sequence, two for the leading
/// byte of a four-byte sequence (a supplementary-plane scalar is a surrogate
/// pair), and none for a continuation byte.
pub open spec fn utf16_width(b: u8) -> nat {
    if b < 0x80 {
        1
    } else if b < 0xc0 {
        0
    } else if b < 0xf0 {
        1
    } else {
        2
    }
}

/// Number of newline bytes in `text` strictly before `off`.
pub open spec fn line_of(text: Seq<u8>, off: int) -> nat
    decreases off,
{
    if off <= 0 {
        0
    } else {
        line_of(text, off - 1) + (if text[off - 1] == 10 {
            1nat
        } else {
            0nat
        })
    }
}

/// UTF-16 code units between the last newline before `off` and `off` itself.
pub open spec fn col_of(text: Seq<u8>, off: int) -> nat
    decreases off,
{
    if off <= 0 {
        0
    } else if text[off - 1] == 10 {
        0
    } else {
        col_of(text, off - 1) + utf16_width(text[off - 1])
    }
}

/// The position of byte offset `off` in `text`.
pub open spec fn position_of(text: Seq<u8>, off: int) -> Position {
    Position { line: line_of(text, off) as usize, character: col_of(text, off) as usize }
}

/// `off` clamped into `[0, len]`, the valid offsets of a text of length `len`.
pub open spec fn clamp_offset(len: int, off: int) -> int {
    if off <= len {
        off
    } else {
        len
    }
}

/// The range that a byte span `[start, end)` denotes in `text`: both ends are
/// clamped to the end of the text, and an end before the start collapses onto
/// the start, so a stale span never yields an out-of-bounds or inverted range.
pub open spec fn range_of_span(text: Seq<u8>, start: int, end: int) -> TextRange {
    let s = clamp_offset(text.len() as int, start);
    let e = if clamp_offset(text.len() as int, end) < s {
        s
    } else {
        clamp_offset(text.len() as int, end)
    };
    TextRange { start: position_of(text, s), end: position_of(text, e) }
}

/// The line count never exceeds the offset.
pub proof fn lemma_line_of_le(text: Seq<u8>, off: int)
    requires
        0 <= off,
    ensures
        line_of(text, off) <= off,
    decreases off,
{
    if off > 0 {
        lemma_line_of_le(text, off - 1);
    }
}

/// The column never exceeds twice the offset: each byte adds at most two
/// UTF-16 code units.
pub proof fn lemma_col_of_le(text: Seq<u8>, off: int)
    requires
        0 <= off,
    ensures
        col_of(text, off) <= 2 * off,
    decreases off,
{
    if off > 0 {
        lemma_col_of_le(text, off - 1);
    }
}

/// Translates the byte offset `off` into a zero-based (line, character)
/// position, counting characters in UTF-16 code units.
pub fn position_at(text: &[u8], off: usize) -> (p: Position)
    requires
        off <= text@.len(),
        text@.len() <= usize::MAX / 2,
    ensures
        p == position_of(text@, off as int),
{
    let mut line: usize = 0;
    let mut character: usize = 0;
    let mut i: usize = 0;
    while i < off
        invariant
            i <= off <= text@.len() <= usize::MAX / 2,
            line == line_of(text@, i as int),
            character == col_of(text@, i as int),
        decreases off - i,
    {
        proof {
            lemma_line_of_le(text@, i as int);
            lemma_col_of_le(text@, i as int);
        }
        let b = text[i];
        if b == 10 {
            line = line + 1;
            character = 0;
        } else {
            let w: usize = if b < 0x80 {
                1
            } else if b < 0xc0 {
                0
            } else if b < 0xf0 {
                1
            } else {
                2
            };
            character = character + w;
        }
        i = i + 1;
    }
    Position { line, character }
}

/// Translates a byte span `[start, end)` into a position range, clamping a
/// span that lies beyond the end of the text to the text's final position.
pub fn span_to_range(text: &[u8], start: usize, end: usize) -> (r: TextRange)
    requires
        text@.len() <= usize::MAX / 2,
    ensures
        r == range_of_span(text@, start as int, end as int),
{
    let len = text.len();
    let s = if start <= len {
        start
    } else {
        len
    };
    let e0 = if end <= len {
        end
    } else {
        len
    };
    let e = if e0 < s {
        s
    } else {
        e0
    };
    let start_pos = position_at(text, s);
    let end_pos = position_at(text, e);
    TextRange { start: start_pos, end: end_pos }
}

} // verus!
