//! Text mutation for the document overlay: splicing a replacement into a
//! byte range, and folding an ordered batch of protocol changes over a
//! snapshot.  Each change in a batch observes the text produced by the
//! previous one, so later ranges are expressed against earlier results.

use vstd::prelude::*;

use crate::codec::{range_offsets, LspRange, PositionEncoding};

verus! {

/// One element of an edit batch: a ranged replacement, or a full-text
/// replacement when no range is given.
#[derive(Debug, Clone)]
pub struct TextChange {
    /// The protocol range the replacement applies to, if any.
    pub range: Option<LspRange>,
    /// The replacement bytes.
    pub text: Vec<u8>,
}

/// The text after replacing the byte range `[start, end)` with `repl`.
pub open spec fn splice(text: Seq<u8>, start: int, end: int, repl: Seq<u8>) -> Seq<u8> {
    text.subrange(0, start) + repl + text.subrange(end, text.len() as int)
}

/// The text after one change, or `None` when its range does not decode
/// against `text`.
pub open spec fn apply_change_spec(
    text: Seq<u8>,
    c: TextChange,
    enc: PositionEncoding,
) -> Option<Seq<u8>> {
    match c.range {
        None => Some(c.text@),
        Some(r) => match range_offsets(text, r, enc) {
            None => None,
            Some((s, e)) => Some(splice(text, s, e, c.text@)),
        },
    }
}

/// The text after an ordered batch, each change applied to the previous
/// result; `None` as soon as one change fails to decode.
pub open spec fn apply_changes_spec(
    text: Seq<u8>,
    cs: Seq<TextChange>,
    enc: PositionEncoding,
) -> Option<Seq<u8>>
    decreases cs.len(),
{
    if cs.len() == 0 {
        Some(text)
    } else {
        match apply_change_spec(text, cs[0], enc) {
            None => None,
            Some(t) => apply_changes_spec(t, cs.drop_first(), enc),
        }
    }
}

/// Batch application is deterministic: reapplying the same ordered batch
/// to a fresh copy of the original text yields an identical result, since
/// the outcome is a pure function of the text, the batch and the encoding.
pub proof fn lemma_edit_batch_deterministic(
    t1: Seq<u8>,
    t2: Seq<u8>,
    cs: Seq<TextChange>,
    enc: PositionEncoding,
)
    requires
        t1 == t2,
    ensures
        apply_changes_spec(t1, cs, enc) == apply_changes_spec(t2, cs, enc),
{
}

/// Executable splice; builds the new snapshot from the three pieces.
pub fn splice_bytes(text: &Vec<u8>, start: usize, end: usize, repl: &Vec<u8>) -> (r: Vec<u8>)
    requires
        start <= end <= text@.len(),
    ensures
        r@ == splice(text@, start as int, end as int, repl@),
{
    let mut out: Vec<u8> = Vec::new();
    let mut i: usize = 0;
    while i < start
        invariant
            i <= start,
            start <= end <= text@.len(),
            out@ == text@.subrange(0, i as int),
        decreases start - i,
    {
        out.push(text[i]);
        i = i + 1;
        proof {
            assert(out@ =~= text@.subrange(0, i as int));
        }
    }
    let ghost head = out@;
    let mut j: usize = 0;
    while j < repl.len()
        invariant
            j <= repl@.len(),
            out@ == head + repl@.subrange(0, j as int),
        decreases repl@.len() - j,
    {
        out.push(repl[j]);
        j = j + 1;
        proof {
            assert(out@ =~= head + repl@.subrange(0, j as int));
        }
    }
    proof {
        assert(out@ =~= text@.subrange(0, start as int) + repl@);
    }
    let ghost mid = out@;
    let mut k: usize = end;
    while k < text.len()
        invariant
            end <= k <= text@.len(),
            out@ == mid + text@.subrange(end as int, k as int),
        decreases text@.len() - k,
    {
        out.push(text[k]);
        k = k + 1;
        proof {
            assert(out@ =~= mid + text@.subrange(end as int, k as int));
        }
    }
    proof {
        assert(out@ =~= splice(text@, start as int, end as int, repl@));
    }
    out
}

/// Copies a byte snapshot.
pub fn dup_bytes(text: &Vec<u8>) -> (r: Vec<u8>)
    ensures
        r@ == text@,
{
    let mut out: Vec<u8> = Vec::new();
    let mut i: usize = 0;
    while i < text.len()
        invariant
            i <= text@.len(),
            out@ == text@.subrange(0, i as int),
        decreases text@.len() - i,
    {
        out.push(text[i]);
        i = i + 1;
        proof {
            assert(out@ =~= text@.subrange(0, i as int));
        }
    }
    proof {
        assert(out@ =~= text@);
    }
    out
}

/// Applies one change to a snapshot; mirrors [`apply_change_spec`].
pub fn apply_change(text: &Vec<u8>, c: &TextChange, enc: PositionEncoding) -> (r: Option<
    Vec<u8>,
>)
    ensures
        match r {
            Some(t) => apply_change_spec(text@, *c, enc) == Some(t@),
            None => apply_change_spec(text@, *c, enc) is None,
        },
{
    match &c.range {
        None => Some(dup_bytes(&c.text)),
        Some(range) => {
            let s = crate::codec::position_to_offset(text, range.start, enc);
            let e = crate::codec::position_to_offset(text, range.end, enc);
            match (s, e) {
                (Some(so), Some(eo)) => {
                    if so <= eo {
                        Some(splice_bytes(text, so, eo, &c.text))
                    } else {
                        None
                    }
                },
                _ => None,
            }
        },
    }
}

/// Applies an ordered batch atomically; mirrors [`apply_changes_spec`].
/// The input snapshot is untouched: a failing change yields `None` and the
/// caller keeps the original text.
pub fn apply_changes(text: &Vec<u8>, cs: &Vec<TextChange>, enc: PositionEncoding) -> (r: Option<
    Vec<u8>,
>)
    ensures
        match r {
            Some(t) => apply_changes_spec(text@, cs@, enc) == Some(t@),
            None => apply_changes_spec(text@, cs@, enc) is None,
        },
{
    let mut cur: Vec<u8> = dup_bytes(text);
    let mut i: usize = 0;
    proof {
        assert(cs@.skip(0) =~= cs@);
    }
    while i < cs.len()
        invariant
            i <= cs@.len(),
            apply_changes_spec(text@, cs@, enc) == apply_changes_spec(
                cur@,
                cs@.skip(i as int),
                enc,
            ),
        decreases cs@.len() - i,
    {
        proof {
            assert(cs@.skip(i as int)[0] == cs@[i as int]);
        }
        match apply_change(&cur, &cs[i], enc) {
            Some(t) => {
                proof {
                    assert(cs@.skip(i as int).drop_first() =~= cs@.skip(i as int + 1));
                }
                cur = t;
                i = i + 1;
            },
            None => {
                return None;
            },
        }
    }
    proof {
        assert(cs@.skip(cs@.len() as int) =~= Seq::<TextChange>::empty());
    }
    Some(cur)
}

} // verus!
