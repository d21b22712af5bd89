//! Finding out the length of a resource from the headers of a small ranged request.

use crate::text::{chars_of, parse_u64, parse_u64_spec};
use crate::transfer::ByteRange;
use vstd::prelude::*;
use vstd::slice::slice_subrange;

verus! {

/// The character that stands before the total in a content-range header.
pub const SLASH: char = '/';

/// The first position at or after `from` where `s` holds `c`, or the length of `s` where
/// it holds none there.
pub open spec fn position_from(s: Seq<char>, c: char, from: int) -> int
    decreases s.len() - from,
{
    if from >= s.len() {
        s.len() as int
    } else if s[from] == c {
        from
    } else {
        position_from(s, c, from + 1)
    }
}

/// The text between the first slash of `s` and the next one, or the end of `s` where no
/// other slash follows. A text without a slash has none.
pub open spec fn field_after_slash(s: Seq<char>) -> Option<Seq<char>> {
    let first = position_from(s, SLASH, 0);
    if first >= s.len() {
        None
    } else {
        Some(s.subrange(first + 1, position_from(s, SLASH, first + 1)))
    }
}

/// The total that a content-range header tells. The header has the form
/// `bytes <start>-<end>/<total>`; the total is what stands behind the slash, read as an
/// unsigned decimal number. A header without a slash, or with anything else behind it,
/// tells none.
pub open spec fn content_range_total(header: Seq<char>) -> Option<u64> {
    match field_after_slash(header) {
        Some(field) => parse_u64_spec(field),
        None => None,
    }
}

/// The length of the resource as the answer to a probe tells it: the total of its
/// content-range header where that header is there and tells one, else the number in its
/// content-length header, else nothing.
pub open spec fn probed_total(
    content_range: Option<Seq<char>>,
    content_length: Option<Seq<char>>,
) -> Option<u64> {
    let from_range = match content_range {
        Some(header) => content_range_total(header),
        None => None,
    };
    match from_range {
        Some(total) => Some(total),
        None => match content_length {
            Some(header) => parse_u64_spec(header),
            None => None,
        },
    }
}

/// The bounds of `position_from`, and what stands at the position and before it.
pub proof fn law_position_is_first(s: Seq<char>, c: char, from: int)
    requires
        0 <= from <= s.len(),
    ensures
        from <= position_from(s, c, from) <= s.len(),
        position_from(s, c, from) < s.len() ==> s[position_from(s, c, from)] == c,
        forall|j: int| from <= j < position_from(s, c, from) ==> s[j] != c,
    decreases s.len() - from,
{
    if from < s.len() && s[from] != c {
        law_position_is_first(s, c, from + 1);
    }
}

/// The first position at or after `from` where `s` holds `c`, or the length of `s`.
pub fn find_from(s: &[char], c: char, from: usize) -> (at: usize)
    requires
        from <= s.len(),
    ensures
        at == position_from(s@, c, from as int),
        from <= at <= s.len(),
        at < s.len() ==> s@[at as int] == c,
        forall|j: int| from <= j < at ==> s@[j] != c,
{
    proof {
        law_position_is_first(s@, c, from as int);
    }
    let mut i: usize = from;
    while i < s.len() && s[i] != c
        invariant
            from <= i <= s.len(),
            position_from(s@, c, from as int) == position_from(s@, c, i as int),
        decreases s.len() - i,
    {
        i += 1;
    }
    i
}

/// The total that a content-range header tells.
pub fn total_from_content_range(header: &str) -> (total: Option<u64>)
    ensures
        total == content_range_total(header@),
{
    let chars = chars_of(header);
    let first = find_from(chars.as_slice(), SLASH, 0);
    if first >= chars.len() {
        return None;
    }
    let next = find_from(chars.as_slice(), SLASH, first + 1);
    let field = slice_subrange(chars.as_slice(), first + 1, next);
    parse_u64(field)
}

/// The number in a content-length header.
pub fn total_from_content_length(header: &str) -> (total: Option<u64>)
    ensures
        total == parse_u64_spec(header@),
{
    let chars = chars_of(header);
    parse_u64(chars.as_slice())
}

/// The headers of the answer to a probe that tell the length of the resource.
#[derive(Debug, PartialEq, Eq)]
pub struct ProbeAnswer {
    /// The content-range header, where the answer has one that is text.
    pub content_range: Option<String>,
    /// The content-length header, where the answer has one that is text.
    pub content_length: Option<String>,
}

/// The view of a header that may be missing.
pub open spec fn header_view(header: Option<String>) -> Option<Seq<char>> {
    match header {
        Some(text) => Some(text@),
        None => None,
    }
}

/// The length of the resource as a probe found it. A probe that got no answer has found
/// none; one that got an answer has found what `probed_total` reads from its headers.
pub open spec fn probe_result(answer: Option<ProbeAnswer>) -> Option<u64> {
    match answer {
        Some(found) => probed_total(
            header_view(found.content_range),
            header_view(found.content_length),
        ),
        None => None,
    }
}

/// The range that a probe asks for: the first two bytes of the resource.
pub fn probe_range() -> (range: ByteRange)
    ensures
        range == (ByteRange { start: 0, end: Some(1u64) }),
{
    ByteRange { start: 0, end: Some(1) }
}

/// The length of the resource as the answer to a probe tells it.
pub fn total_size(content_range: Option<&str>, content_length: Option<&str>) -> (total: Option<
    u64,
>)
    ensures
        total == probed_total(
            match content_range {
                Some(header) => Some(header@),
                None => None,
            },
            match content_length {
                Some(header) => Some(header@),
                None => None,
            },
        ),
{
    let from_range = match content_range {
        Some(header) => total_from_content_range(header),
        None => None,
    };
    match from_range {
        Some(total) => Some(total),
        None => match content_length {
            Some(header) => total_from_content_length(header),
            None => None,
        },
    }
}

/// The length of the resource as a probe found it. A probe that failed is no error: the
/// length is then unknown.
pub fn probe_outcome(answer: &Option<ProbeAnswer>) -> (total: Option<u64>)
    ensures
        total == probe_result(*answer),
{
    match answer {
        Some(found) => {
            let content_range = match &found.content_range {
                Some(text) => Some(text.as_str()),
                None => None,
            };
            let content_length = match &found.content_length {
                Some(text) => Some(text.as_str()),
                None => None,
            };
            total_size(content_range, content_length)
        },
        None => None,
    }
}

} // verus!
