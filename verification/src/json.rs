//! Recovering the JSON object in a model reply.  Models sometimes wrap the
//! object in Markdown fences or add words around it; the object is then cut
//! out between the first `{` and the last `}`.

use vstd::prelude::*;

use crate::error::AppError;
use crate::text::{chars_of, is_blank, owned, string_from_range, trim_bounds, trim_spec};

verus! {

/// The compact rendering that `serde_json` gives of `raw` when `raw` is one
/// JSON value, and `None` when it is not.
pub uninterp spec fn json_compact(raw: Seq<char>) -> Option<Seq<char>>;

/// Parses `raw` as a `serde_json::Value` with `serde_json::from_str` and
/// renders the value again with its `Display`.  The contract names the
/// result: a function of `raw` alone.
#[verifier::external_body]
fn json_reformat(raw: &str) -> (r: Option<String>)
    ensures
        r is Some <==> json_compact(raw@) is Some,
        r is Some ==> r->0@ == json_compact(raw@)->0,
{
    match serde_json::from_str::<serde_json::Value>(raw) {
        Ok(value) => Some(value.to_string()),
        Err(_) => None,
    }
}

/// `i` is the first position of `c` in `s`.
pub open spec fn is_first_position(s: Seq<char>, c: char, i: int) -> bool {
    0 <= i < s.len() && s[i] == c && forall|j: int| 0 <= j < i ==> s[j] != c
}

/// `i` is the last position of `c` in `s`.
pub open spec fn is_last_position(s: Seq<char>, c: char, i: int) -> bool {
    0 <= i < s.len() && s[i] == c && forall|j: int| i < j < s.len() ==> s[j] != c
}

/// Whether `c` occurs in `s`.
pub open spec fn occurs(s: Seq<char>, c: char) -> bool {
    exists|i: int| 0 <= i < s.len() && s[i] == c
}

/// The first `{` follows the last `}`, so there is no object to cut out.
pub open spec fn braces_reversed(s: Seq<char>) -> bool {
    exists|a: int, b: int|
        is_first_position(s, '{', a) && is_last_position(s, '}', b) && b < a
}

/// Where the search for `c` in `s[lo..hi]` from the front stops.
fn find_first(s: &Vec<char>, lo: usize, hi: usize, c: char) -> (r: Option<usize>)
    requires
        lo <= hi <= s.len(),
    ensures
        match r {
            Some(i) => lo <= i < hi && s@[i as int] == c && forall|j: int|
                lo <= j < i ==> s@[j] != c,
            None => forall|j: int| lo <= j < hi ==> s@[j] != c,
        },
{
    let mut i = lo;
    while i < hi
        invariant
            lo <= i <= hi <= s.len(),
            forall|j: int| lo <= j < i ==> s@[j] != c,
        decreases hi - i,
    {
        if s[i] == c {
            return Some(i);
        }
        i = i + 1;
    }
    None
}

/// Where the search for `c` in `s[lo..hi]` from the back stops.
fn find_last(s: &Vec<char>, lo: usize, hi: usize, c: char) -> (r: Option<usize>)
    requires
        lo <= hi <= s.len(),
    ensures
        match r {
            Some(i) => lo <= i < hi && s@[i as int] == c && forall|j: int|
                i < j < hi ==> s@[j] != c,
            None => forall|j: int| lo <= j < hi ==> s@[j] != c,
        },
{
    let mut k = hi;
    while k > lo
        invariant
            lo <= k <= hi <= s.len(),
            forall|j: int| k <= j < hi ==> s@[j] != c,
        decreases k,
    {
        if s[k - 1] == c {
            return Some(k - 1);
        }
        k = k - 1;
    }
    None
}

/// The text from which the model payload is parsed: the reply itself when
/// it is one JSON value (in compact form); otherwise, after trimming, the
/// stretch from the first `{` to the last `}`; otherwise the reply
/// unchanged.
pub open spec fn extracted_json(raw: Seq<char>, r: Seq<char>) -> bool {
    match json_compact(raw) {
        Some(v) => r == v,
        None => {
            let t = trim_spec(raw);
            if occurs(t, '{') && occurs(t, '}') {
                forall|a: int, b: int|
                    is_first_position(t, '{', a) && is_last_position(t, '}', b) ==> r
                        == t.subrange(a, b + 1)
            } else {
                r == raw
            }
        },
    }
}

/// Cuts the JSON object out of a model reply.  A reply that is not one JSON
/// value and whose first `{` comes after its last `}` is left out: there the
/// cut would be reversed.
pub fn extract_json_object(raw: &str) -> (r: String)
    requires
        json_compact(raw@) is Some || !braces_reversed(trim_spec(raw@)),
    ensures
        extracted_json(raw@, r@),
{
    match json_reformat(raw) {
        Some(v) => {
            return v;
        },
        None => {},
    }
    let chars = chars_of(raw);
    let (lo, hi) = trim_bounds(&chars);
    let ghost t = chars@.subrange(lo as int, hi as int);
    match find_first(&chars, lo, hi, '{') {
        Some(start) => {
            match find_last(&chars, lo, hi, '}') {
                Some(end) => {
                    proof {
                        assert(is_first_position(t, '{', start - lo));
                        assert(is_last_position(t, '}', end - lo));
                        if end < start {
                            assert(braces_reversed(t));
                        }
                        assert forall|a: int, b: int|
                            is_first_position(t, '{', a) && is_last_position(
                                t,
                                '}',
                                b,
                            ) implies chars@.subrange(start as int, end + 1) == t.subrange(
                            a,
                            b + 1,
                        ) by {
                            if a < start - lo {
                                assert(t[a] == chars@[a + lo]);
                            }
                            if a > start - lo {
                                assert(t[start - lo] == '{');
                            }
                            if b > end - lo {
                                assert(t[b] == chars@[b + lo]);
                            }
                            if b < end - lo {
                                assert(t[end - lo] == '}');
                            }
                            assert(chars@.subrange(start as int, end + 1) =~= t.subrange(
                                a,
                                b + 1,
                            ));
                        }
                    }
                    return string_from_range(&chars, start, end + 1);
                },
                None => {
                    proof {
                        assert forall|j: int| 0 <= j < t.len() implies t[j] != '}' by {
                            assert(t[j] == chars@[j + lo]);
                        }
                    }
                },
            }
        },
        None => {
            proof {
                assert forall|j: int| 0 <= j < t.len() implies t[j] != '{' by {
                    assert(t[j] == chars@[j + lo]);
                }
            }
        },
    }
    owned(raw)
}

/// Whether cutting the object out of a reply is well defined: the reply
/// is one JSON value, or its braces are not reversed.
pub fn can_extract_json_object(raw: &str) -> (r: bool)
    ensures
        r == (json_compact(raw@) is Some || !braces_reversed(trim_spec(raw@))),
{
    if json_reformat(raw).is_some() {
        return true;
    }
    let chars = chars_of(raw);
    let (lo, hi) = trim_bounds(&chars);
    let ghost t = chars@.subrange(lo as int, hi as int);
    match (find_first(&chars, lo, hi, '{'), find_last(&chars, lo, hi, '}')) {
        (Some(start), Some(end)) => {
            proof {
                assert(is_first_position(t, '{', start - lo));
                assert(is_last_position(t, '}', end - lo));
                if start <= end {
                    assert forall|a: int, b: int|
                        is_first_position(t, '{', a) && is_last_position(t, '}', b) implies !(b
                        < a) by {
                        if a < start - lo {
                            assert(t[a] == chars@[a + lo]);
                        }
                        if a > start - lo {
                            assert(t[start - lo] == '{');
                        }
                        if b > end - lo {
                            assert(t[b] == chars@[b + lo]);
                        }
                        if b < end - lo {
                            assert(t[end - lo] == '}');
                        }
                    }
                }
            }
            start <= end
        },
        (None, _) => {
            proof {
                assert forall|a: int| !is_first_position(t, '{', a) by {
                    if 0 <= a < t.len() {
                        assert(t[a] == chars@[a + lo]);
                    }
                }
            }
            true
        },
        (_, None) => {
            proof {
                assert forall|b: int| !is_last_position(t, '}', b) by {
                    if 0 <= b < t.len() {
                        assert(t[b] == chars@[b + lo]);
                    }
                }
            }
            true
        },
    }
}

/// The text of a model reply from which its payload is parsed.  An empty or
/// blank reply is refused with `empty_model_content`; otherwise the text is
/// the JSON object cut out of the reply.
pub fn model_payload_text(raw_content: &str) -> (r: Result<String, AppError>)
    requires
        json_compact(raw_content@) is Some || !braces_reversed(trim_spec(raw_content@)),
    ensures
        trim_spec(raw_content@).len() == 0 <==> r is Err,
        r matches Err(e) ==> e.code@ == "empty_model_content"@,
        r matches Ok(t) ==> extracted_json(raw_content@, t@),
{
    if is_blank(raw_content) {
        return Err(
            AppError::new("empty_model_content", owned("模型返回空内容，无法解析校对结果")),
        );
    }
    Ok(extract_json_object(raw_content))
}

/// `model_payload_text` for any reply: `None` when the reply is not one
/// JSON value and its braces are reversed, the one case where the cut is
/// not defined.
pub fn checked_model_payload_text(raw_content: &str) -> (r: Option<Result<String, AppError>>)
    ensures
        r is None <==> (json_compact(raw_content@) is None && braces_reversed(
            trim_spec(raw_content@),
        )),
        r matches Some(Err(e)) ==> e.code@ == "empty_model_content"@ && trim_spec(
            raw_content@,
        ).len() == 0,
        r matches Some(Ok(t)) ==> trim_spec(raw_content@).len() > 0 && extracted_json(
            raw_content@,
            t@,
        ),
{
    if can_extract_json_object(raw_content) {
        Some(model_payload_text(raw_content))
    } else {
        None
    }
}

} // verus!
