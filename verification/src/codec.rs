//! Position codec: maps editor-protocol positions, expressed as a line and a
//! character count in a configurable encoding, onto absolute byte offsets in
//! a document snapshot.
//!
//! Lines are separated by the byte `\n`.  In the UTF-8 encoding a character
//! count is a byte column inside the line; in the UTF-16 encoding it counts
//! UTF-16 code units, derived from the leading byte of each encoded
//! character (one unit below U+10000, two above).

use vstd::prelude::*;

verus! {

/// The unit in which editor-protocol character columns are expressed.
#[derive(Debug, Clone, Copy, PartialEq, Eq, Structural)]
pub enum PositionEncoding {
    /// Columns count bytes of the line's UTF-8 form.
    Utf8,
    /// Columns count UTF-16 code units.
    Utf16,
}

/// A protocol position: zero-based line and character column.
#[derive(Debug, Clone, Copy, PartialEq, Eq, Structural)]
pub struct LspPosition {
    /// Zero-based line index.
    pub line: usize,
    /// Zero-based character column, in the configured encoding.
    pub character: usize,
}

/// A half-open protocol range.
#[derive(Debug, Clone, Copy, PartialEq, Eq, Structural)]
pub struct LspRange {
    /// Start position, inclusive.
    pub start: LspPosition,
    /// End position, exclusive.
    pub end: LspPosition,
}

/// The line-separator byte.
pub const NEWLINE: u8 = 10;

/// Index of the first `\n` at or after `from`, if any.
pub open spec fn find_newline(text: Seq<u8>, from: int) -> Option<int>
    decreases text.len() - from,
{
    if from < 0 || from >= text.len() {
        None
    } else if text[from] == NEWLINE {
        Some(from)
    } else {
        find_newline(text, from + 1)
    }
}

/// Byte offset where line `line` starts, if the text has that many lines.
pub open spec fn line_start(text: Seq<u8>, line: int) -> Option<int>
    decreases line,
{
    if line < 0 {
        None
    } else if line == 0 {
        Some(0)
    } else {
        match line_start(text, line - 1) {
            None => None,
            Some(s) => match find_newline(text, s) {
                None => None,
                Some(nl) => Some(nl + 1),
            },
        }
    }
}

/// Byte offset one past the last byte of the line starting at `s` (its `\n`
/// excluded), or the end of the text for the last line.
pub open spec fn line_end(text: Seq<u8>, s: int) -> int {
    match find_newline(text, s) {
        None => text.len() as int,
        Some(nl) => nl,
    }
}

/// UTF-16 code units contributed by an encoded character whose leading byte
/// is `b`; continuation bytes contribute none.
pub open spec fn utf16_len(b: u8) -> int {
    if b < 0x80 {
        1
    } else if b < 0xC0 {
        0
    } else if b < 0xF0 {
        1
    } else {
        2
    }
}

/// Byte offset reached after walking `units` UTF-16 code units from `i`,
/// staying inside `[i, end)`; `None` when the count overruns the line or
/// splits a surrogate pair.
pub open spec fn offset_of_units(text: Seq<u8>, i: int, end: int, units: int) -> Option<int>
    decreases end - i,
{
    if i < 0 || i >= end || end > text.len() {
        if units == 0 {
            Some(i)
        } else {
            None
        }
    } else {
        let u = utf16_len(text[i]);
        if u == 0 {
            offset_of_units(text, i + 1, end, units)
        } else if units == 0 {
            Some(i)
        } else if u > units {
            None
        } else {
            offset_of_units(text, i + 1, end, units - u)
        }
    }
}

/// Absolute byte offset of a protocol position against `text`, or `None`
/// when the position does not fall within the text.
pub open spec fn position_offset(
    text: Seq<u8>,
    pos: LspPosition,
    enc: PositionEncoding,
) -> Option<int> {
    match line_start(text, pos.line as int) {
        None => None,
        Some(s) => {
            let e = line_end(text, s);
            match enc {
                PositionEncoding::Utf8 => if pos.character as int <= e - s {
                    Some(s + pos.character as int)
                } else {
                    None
                },
                PositionEncoding::Utf16 => offset_of_units(text, s, e, pos.character as int),
            }
        },
    }
}

/// The byte range a protocol range decodes to: both offsets in the text and
/// ordered, or `None` when either end is invalid or they cross.
pub open spec fn range_offsets(
    text: Seq<u8>,
    range: LspRange,
    enc: PositionEncoding,
) -> Option<(int, int)> {
    match (position_offset(text, range.start, enc), position_offset(text, range.end, enc)) {
        (Some(s), Some(e)) => if s <= e {
            Some((s, e))
        } else {
            None
        },
        _ => None,
    }
}

/// Executable search for the next `\n` at or after `from`.
fn find_newline_at(text: &Vec<u8>, from: usize) -> (r: Option<usize>)
    requires
        from <= text@.len(),
    ensures
        match r {
            Some(k) => find_newline(text@, from as int) == Some(k as int) && from <= k
                < text@.len(),
            None => find_newline(text@, from as int) is None,
        },
{
    let mut j: usize = from;
    while j < text.len()
        invariant
            from <= j <= text@.len(),
            find_newline(text@, from as int) == find_newline(text@, j as int),
        decreases text@.len() - j,
    {
        if text[j] == NEWLINE {
            return Some(j);
        }
        j = j + 1;
    }
    None
}

/// Executable decoding of a single position; mirrors [`position_offset`].
pub fn position_to_offset(
    text: &Vec<u8>,
    pos: LspPosition,
    enc: PositionEncoding,
) -> (r: Option<usize>)
    ensures
        match r {
            Some(off) => position_offset(text@, pos, enc) == Some(off as int) && off
                <= text@.len(),
            None => position_offset(text@, pos, enc) is None,
        },
{
    let tlen: usize = text.len();
    let mut line: usize = 0;
    let mut s: usize = 0;
    while line < pos.line
        invariant
            tlen == text@.len(),
            s <= text@.len(),
            line <= pos.line,
            line_start(text@, line as int) == Some(s as int),
        decreases pos.line - line,
    {
        match find_newline_at(text, s) {
            Some(nl) => {
                proof {
                    assert(nl < tlen);
                }
                s = nl + 1;
                line = line + 1;
            },
            None => {
                proof {
                    lemma_line_start_after_miss(text@, line as int, pos.line as int, s as int);
                }
                return None;
            },
        }
    }
    let e: usize = match find_newline_at(text, s) {
        Some(nl) => nl,
        None => text.len(),
    };
    proof {
        assert(line_start(text@, pos.line as int) == Some(s as int));
        assert(e as int == line_end(text@, s as int));
    }
    match enc {
        PositionEncoding::Utf8 => {
            if pos.character <= e - s {
                Some(s + pos.character)
            } else {
                None
            }
        },
        PositionEncoding::Utf16 => {
            let mut i: usize = s;
            let mut left: usize = pos.character;
            loop
                invariant
                    enc == PositionEncoding::Utf16,
                    s <= i <= e,
                    e <= text@.len(),
                    line_start(text@, pos.line as int) == Some(s as int),
                    e as int == line_end(text@, s as int),
                    offset_of_units(text@, s as int, e as int, pos.character as int)
                        == offset_of_units(text@, i as int, e as int, left as int),
                decreases e - i, left,
            {
                if i >= e {
                    if left == 0 {
                        return Some(i);
                    } else {
                        return None;
                    }
                }
                let u: usize = if text[i] < 0x80 {
                    1
                } else if text[i] < 0xC0 {
                    0
                } else if text[i] < 0xF0 {
                    1
                } else {
                    2
                };
                if u == 0 {
                    i = i + 1;
                } else if left == 0 {
                    return Some(i);
                } else if u > left {
                    return None;
                } else {
                    left = left - u;
                    i = i + 1;
                }
            }
        },
    }
}

/// A line that ran past the last newline has no start: positions beyond the
/// final line are invalid.
proof fn lemma_line_start_after_miss(text: Seq<u8>, line: int, target: int, s: int)
    requires
        0 <= line < target,
        line_start(text, line) == Some(s),
        find_newline(text, s) is None,
    ensures
        line_start(text, target) is None,
    decreases target - line,
{
    if target == line + 1 {
    } else {
        assert(line_start(text, line + 1) is None);
        lemma_line_start_none_stays(text, line + 1, target);
    }
}

/// Once a line index has no start, no later line index has one.
proof fn lemma_line_start_none_stays(text: Seq<u8>, line: int, target: int)
    requires
        0 <= line <= target,
        line_start(text, line) is None,
    ensures
        line_start(text, target) is None,
    decreases target - line,
{
    if line < target {
        lemma_line_start_none_stays(text, line + 1, target);
    }
}

} // verus!
