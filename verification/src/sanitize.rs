//! Light cleaning of block text before it is sent to the model, with a map
//! from every character of the cleaned text back to the original text, and
//! the mapping of the offsets that the model reports back onto the original
//! text.

use vstd::prelude::*;

use crate::text::{chars_of, char_is_whitespace, is_white_space};

verus! {

/// Text sent to the model, with `char_map[k]` the index in the original
/// text of the `k`-th character sent.
#[derive(Clone, Debug)]
pub struct SanitizedText {
    pub text: String,
    pub char_map: Vec<usize>,
}

/// CJK Unified Ideographs, Extension A, and Compatibility Ideographs.
pub open spec fn is_cjk_spec(c: char) -> bool {
    ('\u{4E00}' <= c && c <= '\u{9FFF}') || ('\u{3400}' <= c && c <= '\u{4DBF}') || (
    '\u{F900}' <= c && c <= '\u{FAFF}')
}

/// ASCII letters and digits.
pub open spec fn is_ascii_alnum_spec(c: char) -> bool {
    ('0' <= c && c <= '9') || ('a' <= c && c <= 'z') || ('A' <= c && c <= 'Z')
}

/// Characters that count as part of a word on either side of a gap.
pub open spec fn is_cjk_or_word_spec(c: char) -> bool {
    is_ascii_alnum_spec(c) || is_cjk_spec(c)
}

/// Separator characters that are removed from model input.
pub open spec fn is_separator_spec(c: char) -> bool {
    c == '-' || c == '—' || c == '－' || c == '_' || c == '─' || c == '━'
}

/// Whether character `i` of `t` lies between two word characters.
pub open spec fn between_words(t: Seq<char>, i: int) -> bool {
    0 < i && i + 1 < t.len() && is_cjk_or_word_spec(t[i - 1]) && is_cjk_or_word_spec(t[i + 1])
}

/// Whether character `i` of `t` is left out of the model input: a
/// whitespace character between two word characters, or a separator.
pub open spec fn is_dropped(t: Seq<char>, i: int) -> bool {
    (is_white_space(t[i]) && between_words(t, i)) || is_separator_spec(t[i])
}

/// The character sent for a kept character `i` of `t`: a line break between
/// two word characters becomes a space, everything else is kept as is.
pub open spec fn sent_char(t: Seq<char>, i: int) -> char {
    if t[i] == '\n' && between_words(t, i) {
        ' '
    } else {
        t[i]
    }
}

/// Indices of the kept characters among the first `n` characters of `t`.
pub open spec fn kept_indices(t: Seq<char>, n: nat) -> Seq<usize>
    decreases n,
{
    if n == 0 {
        Seq::empty()
    } else {
        let p = kept_indices(t, (n - 1) as nat);
        if is_dropped(t, n - 1) {
            p
        } else {
            p.push((n - 1) as usize)
        }
    }
}

/// Characters sent for the first `n` characters of `t`.
pub open spec fn sent_text(t: Seq<char>, n: nat) -> Seq<char>
    decreases n,
{
    if n == 0 {
        Seq::empty()
    } else {
        let p = sent_text(t, (n - 1) as nat);
        if is_dropped(t, n - 1) {
            p
        } else {
            p.push(sent_char(t, n - 1))
        }
    }
}

/// A character map into a text of `len` characters: strictly increasing
/// and within the text.
pub open spec fn char_map_valid(m: Seq<usize>, len: nat) -> bool {
    &&& forall|k: int| 0 <= k < m.len() ==> #[trigger] m[k] < len
    &&& forall|j: int, k: int| 0 <= j < k < m.len() ==> m[j] < m[k]
}

/// Whether `c` is a CJK ideograph.
pub fn is_cjk(value: char) -> (r: bool)
    ensures
        r == is_cjk_spec(value),
{
    ('\u{4E00}' <= value && value <= '\u{9FFF}') || ('\u{3400}' <= value && value <= '\u{4DBF}')
        || ('\u{F900}' <= value && value <= '\u{FAFF}')
}

/// Whether `c` is an ASCII letter or digit (`char::is_ascii_alphanumeric`).
pub fn is_ascii_alphanumeric(value: char) -> (r: bool)
    ensures
        r == is_ascii_alnum_spec(value),
{
    ('0' <= value && value <= '9') || ('a' <= value && value <= 'z') || ('A' <= value && value
        <= 'Z')
}

/// Whether `c` counts as part of a word.
pub fn is_cjk_or_word(value: char) -> (r: bool)
    ensures
        r == is_cjk_or_word_spec(value),
{
    is_ascii_alphanumeric(value) || is_cjk(value)
}

/// Whether `c` is a separator character.
pub fn is_separator_char(value: char) -> (r: bool)
    ensures
        r == is_separator_spec(value),
{
    value == '-' || value == '—' || value == '－' || value == '_' || value == '─' || value == '━'
}

/// Whether a line break with these neighbours joins two words.
pub fn is_inline_line_break(previous: Option<char>, next: Option<char>) -> (r: bool)
    ensures
        r == (previous is Some && next is Some && is_cjk_or_word_spec(previous->0)
            && is_cjk_or_word_spec(next->0)),
{
    match (previous, next) {
        (Some(left), Some(right)) => is_cjk_or_word(left) && is_cjk_or_word(right),
        _ => false,
    }
}

/// Whether `current` is whitespace between two words.
pub fn should_drop_inline_gap(current: char, previous: Option<char>, next: Option<char>) -> (r:
    bool)
    ensures
        r == (is_white_space(current) && previous is Some && next is Some && is_cjk_or_word_spec(
            previous->0,
        ) && is_cjk_or_word_spec(next->0)),
        current == '\n' ==> is_white_space(current),
{
    let ws = char_is_whitespace(current);
    ws && is_inline_line_break(previous, next)
}

/// The kept characters map into the text, in increasing order.
pub proof fn lemma_kept_indices_valid(t: Seq<char>, n: nat)
    requires
        n <= t.len(),
        t.len() <= usize::MAX,
    ensures
        char_map_valid(kept_indices(t, n), n),
        kept_indices(t, n).len() == sent_text(t, n).len(),
        forall|k: int|
            0 <= k < kept_indices(t, n).len() ==> #[trigger] sent_text(t, n)[k] == sent_char(
                t,
                kept_indices(t, n)[k] as int,
            ),
    decreases n,
{
    if n > 0 {
        let m = (n - 1) as nat;
        lemma_kept_indices_valid(t, m);
        let p = kept_indices(t, m);
        let q = sent_text(t, m);
        if !is_dropped(t, n - 1) {
            let p2 = p.push((n - 1) as usize);
            let q2 = q.push(sent_char(t, n - 1));
            assert(kept_indices(t, n) == p2);
            assert(sent_text(t, n) == q2);
            assert forall|k: int| 0 <= k < p2.len() implies #[trigger] p2[k] < n by {
                if k < p.len() {
                    assert(p[k] < m);
                }
            }
            assert forall|j: int, k: int| 0 <= j < k < p2.len() implies p2[j] < p2[k] by {
                if k < p.len() {
                    assert(p[j] < p[k]);
                } else {
                    assert(p[j] < m);
                }
            }
            assert forall|k: int| 0 <= k < p2.len() implies #[trigger] q2[k] == sent_char(
                t,
                p2[k] as int,
            ) by {
                if k < p.len() {
                    assert(q[k] == sent_char(t, p[k] as int));
                }
            }
        } else {
            assert forall|k: int| 0 <= k < p.len() implies #[trigger] p[k] < n by {
                assert(p[k] < m);
            }
        }
    }
}

/// Cleans block text for the model.  Whitespace between two word
/// characters and separator characters are left out; every other character
/// is sent, and `char_map` records where each sent character came from.
pub fn sanitize_model_input(text: &str) -> (r: SanitizedText)
    ensures
        r.char_map@ == kept_indices(text@, text@.len()),
        r.text@ == sent_text(text@, text@.len()),
        char_map_valid(r.char_map@, text@.len()),
        r.text@.len() == r.char_map@.len(),
        forall|k: int|
            0 <= k < r.char_map@.len() ==> #[trigger] r.text@[k] == text@[r.char_map@[k] as int],
{
    let chars = chars_of(text);
    let ghost t = chars@;
    let mut output = String::new();
    let mut char_map: Vec<usize> = Vec::new();
    let mut index: usize = 0;
    while index < chars.len()
        invariant
            index <= chars.len(),
            t == chars@,
            char_map@ == kept_indices(t, index as nat),
            output@ == sent_text(t, index as nat),
            forall|k: int|
                0 <= k < char_map@.len() ==> #[trigger] output@[k] == t[char_map@[k] as int],
        decreases chars.len() - index,
    {
        proof {
            lemma_kept_indices_valid(t, index as nat);
        }
        let current = chars[index];
        let previous = if index > 0 {
            Some(chars[index - 1])
        } else {
            None
        };
        let next = if index + 1 < chars.len() {
            Some(chars[index + 1])
        } else {
            None
        };
        let gap = should_drop_inline_gap(current, previous, next);
        let sep = is_separator_char(current);
        assert(is_dropped(t, index as int) == (gap || sep));
        if gap || sep {
            index = index + 1;
            continue ;
        }
        let inline_break = is_inline_line_break(previous, next);
        if current == '\n' && inline_break {
            // A line break is whitespace, so it was left out above.
            assert(is_white_space(current));
            output.push(' ');
            char_map.push(index);
            index = index + 1;
            continue ;
        }
        output.push(current);
        char_map.push(index);
        index = index + 1;
    }
    proof {
        lemma_kept_indices_valid(t, t.len());
    }
    SanitizedText { text: output, char_map }
}

/// Where an offset into the text sent to the model lands in the original
/// text of `len` characters: offsets at or below zero land at the start;
/// otherwise the offset lands just after the original character of the
/// sent character before it, and offsets past the sent text land just after
/// the last sent character (or at the end when nothing was sent).
pub open spec fn mapped_offset(m: Seq<usize>, offset: int, len: nat) -> int {
    let o = if offset < 0 {
        0
    } else {
        offset
    };
    if o == 0 {
        0
    } else if m.len() == 0 {
        len as int
    } else if o >= m.len() {
        m.last() + 1
    } else {
        m[o - 1] + 1
    }
}

/// Maps an offset reported by the model back onto the original text.
pub fn map_offset_to_original(char_map: &[usize], offset: i64, original_len: usize) -> (r:
    Option<usize>)
    requires
        forall|k: int| 0 <= k < char_map@.len() ==> #[trigger] char_map@[k] < usize::MAX,
    ensures
        r == Some(mapped_offset(char_map@, offset as int, original_len as nat) as usize),
        0 <= mapped_offset(char_map@, offset as int, original_len as nat) <= usize::MAX,
{
    if offset <= 0 {
        return Some(0);
    }
    if char_map.len() == 0 {
        return Some(original_len);
    }
    if (offset as u64) >= (char_map.len() as u64) {
        let last = char_map[char_map.len() - 1];
        return Some(last + 1);
    }
    let i = (offset - 1) as usize;
    Some(char_map[i] + 1)
}

/// Offsets land inside the original text, and larger offsets never land
/// before smaller ones.
pub proof fn lemma_mapped_offset_monotone(m: Seq<usize>, len: nat, a: int, b: int)
    requires
        char_map_valid(m, len),
        a <= b,
    ensures
        0 <= mapped_offset(m, a, len) <= len,
        0 <= mapped_offset(m, b, len) <= len,
        mapped_offset(m, a, len) <= mapped_offset(m, b, len),
{
    if m.len() > 0 {
        assert(m.last() < len);
        let oa = if a < 0 {
            0
        } else {
            a
        };
        let ob = if b < 0 {
            0
        } else {
            b
        };
        if 0 < oa && oa < m.len() {
            assert(m[oa - 1] < len);
            if ob < m.len() {
                if oa < ob {
                    assert(m[oa - 1] < m[ob - 1]);
                }
            } else {
                if oa - 1 < m.len() - 1 {
                    assert(m[oa - 1] < m[m.len() - 1]);
                }
            }
        }
        if 0 < ob && ob < m.len() {
            assert(m[ob - 1] < len);
        }
    }
}

/// A model issue as returned by the model.
#[derive(Clone, Debug)]
pub struct ModelIssue {
    pub issue_type: String,
    pub severity: String,
    pub start_offset: i64,
    pub end_offset: i64,
    pub quote: String,
    pub suggestion: String,
    pub explanation: String,
    pub normalized_replacement: Option<String>,
}

/// The span of an issue in the original text, when it is not empty.
pub open spec fn issue_span(m: Seq<usize>, len: nat, start: int, end: int) -> Option<(int, int)> {
    let s = mapped_offset(m, start, len);
    let e = mapped_offset(m, end, len);
    if s >= e {
        None
    } else {
        Some((s, e))
    }
}

/// Maps the offsets of a model issue onto the original text; an issue
/// whose span is empty or reversed is dropped.
pub fn map_issue_offsets(sanitized: &SanitizedText, original_text: &str, issue: &ModelIssue) -> (r:
    Option<(i64, i64)>)
    requires
        char_map_valid(sanitized.char_map@, original_text@.len()),
        original_text@.len() <= i64::MAX,
    ensures
        match issue_span(
            sanitized.char_map@,
            original_text@.len(),
            issue.start_offset as int,
            issue.end_offset as int,
        ) {
            Some((s, e)) => r == Some((s as i64, e as i64)) && 0 <= s < e <= original_text@.len(),
            None => r is None,
        },
{
    let chars = chars_of(original_text);
    let original_len = chars.len();
    proof {
        lemma_mapped_offset_monotone(
            sanitized.char_map@,
            original_len as nat,
            issue.start_offset as int,
            issue.start_offset as int,
        );
        lemma_mapped_offset_monotone(
            sanitized.char_map@,
            original_len as nat,
            issue.end_offset as int,
            issue.end_offset as int,
        );
        assert forall|k: int| 0 <= k < sanitized.char_map@.len() implies #[trigger]
            sanitized.char_map@[k] < usize::MAX by {
            assert(sanitized.char_map@[k] < original_len);
        }
    }
    let start = match map_offset_to_original(sanitized.char_map.as_slice(), issue.start_offset, original_len) {
        Some(v) => v,
        None => {
            return None;
        },
    };
    let end = match map_offset_to_original(sanitized.char_map.as_slice(), issue.end_offset, original_len) {
        Some(v) => v,
        None => {
            return None;
        },
    };
    if start >= end {
        return None;
    }
    Some((start as i64, end as i64))
}

/// Up to eight characters of `t` that precede `start`.
pub open spec fn prefix_context(t: Seq<char>, start: int) -> Seq<char> {
    let s = if start < 0 {
        0
    } else {
        start
    };
    let end = if s < t.len() {
        s
    } else {
        t.len() as int
    };
    let from = if end >= 8 {
        end - 8
    } else {
        0
    };
    t.subrange(from, end)
}

/// Up to eight characters of `t` that follow `end`.
pub open spec fn suffix_context(t: Seq<char>, end: int) -> Seq<char> {
    let e = if end < 0 {
        0
    } else {
        end
    };
    let lo = if e < t.len() {
        e
    } else {
        t.len() as int
    };
    let hi = if e + 8 < t.len() {
        e + 8
    } else {
        t.len() as int
    };
    t.subrange(lo, hi)
}

/// Context before an issue, shown with it; `None` when there is none.
pub fn text_prefix(text: &str, start_offset: i64) -> (r: Option<String>)
    ensures
        prefix_context(text@, start_offset as int).len() == 0 ==> r is None,
        prefix_context(text@, start_offset as int).len() > 0 ==> r is Some && r->0@
            == prefix_context(text@, start_offset as int),
{
    let chars = chars_of(text);
    let len = chars.len();
    let end: usize = if start_offset <= 0 {
        0
    } else if (start_offset as u64) >= (len as u64) {
        len
    } else {
        start_offset as usize
    };
    let from: usize = if end >= 8 {
        end - 8
    } else {
        0
    };
    if from == end {
        return None;
    }
    Some(crate::text::string_from_range(&chars, from, end))
}

/// Context after an issue, shown with it; `None` when there is none.
pub fn text_suffix(text: &str, end_offset: i64) -> (r: Option<String>)
    ensures
        suffix_context(text@, end_offset as int).len() == 0 ==> r is None,
        suffix_context(text@, end_offset as int).len() > 0 ==> r is Some && r->0@
            == suffix_context(text@, end_offset as int),
{
    let chars = chars_of(text);
    let len = chars.len();
    let lo: usize = if end_offset <= 0 {
        0
    } else if (end_offset as u64) >= (len as u64) {
        len
    } else {
        end_offset as usize
    };
    let hi: usize = if end_offset <= 0 {
        if 8 < len {
            8
        } else {
            len
        }
    } else if (end_offset as u64) + 8 >= (len as u64) {
        len
    } else {
        ((end_offset as u64) + 8) as usize
    };
    if lo >= hi {
        return None;
    }
    Some(crate::text::string_from_range(&chars, lo, hi))
}

/// The context shown around an issue is at most eight characters on each
/// side, and is taken from directly before its start and after its end.
pub proof fn lemma_context_is_short(t: Seq<char>, start: int, end: int)
    ensures
        prefix_context(t, start).len() <= 8,
        suffix_context(t, end).len() <= 8,
        0 <= start <= t.len() ==> prefix_context(t, start) == t.subrange(
            if start >= 8 {
                start - 8
            } else {
                0
            },
            start,
        ),
        0 <= end <= t.len() ==> suffix_context(t, end) == t.subrange(
            end,
            if end + 8 <= t.len() {
                end + 8
            } else {
                t.len() as int
            },
        ),
{
}

} // verus!
