//! The grammar of a wire frame: `[event](value)`.
//!
//! A frame may stand anywhere in a text. Its event is one or more characters,
//! its value any number of characters, and neither holds a line feed. Where a
//! text holds several frames, or one frame can be cut in several ways, the
//! first one counts: the one that starts earliest, among those the one with
//! the shortest event, among those the one with the shortest value.

use vstd::prelude::*;

verus! {

/// The pattern of a frame in the syntax of the `regex` crate. The event is
/// its first group, the value its second.
pub const FRAME_PATTERN: &'static str = "\\[(?P<event>.+?)\\]\\((?P<value>.*?)\\)";

/// No character of `s` is a line feed.
pub open spec fn is_field(s: Seq<char>) -> bool {
    forall|i: int| 0 <= i < s.len() ==> #[trigger] s[i] != '\n'
}

/// A frame lies in `text` with its `[` at `start`, its `](` at `mid` and
/// its `)` at `end`.
pub open spec fn is_frame(text: Seq<char>, start: int, mid: int, end: int) -> bool {
    &&& 0 <= start
    &&& start + 2 <= mid
    &&& mid + 2 <= end
    &&& end < text.len()
    &&& text[start] == '['
    &&& text[mid] == ']'
    &&& text[mid + 1] == '('
    &&& text[end] == ')'
    &&& is_field(text.subrange(start + 1, mid))
    &&& is_field(text.subrange(mid + 2, end))
}

/// `(s1, m1, e1)` comes no later than `(s2, m2, e2)`: by start, then by the
/// end of the event, then by the end of the value.
pub open spec fn no_later(s1: int, m1: int, e1: int, s2: int, m2: int, e2: int) -> bool {
    s1 < s2 || (s1 == s2 && (m1 < m2 || (m1 == m2 && e1 <= e2)))
}

/// Some frame lies in `text`.
pub open spec fn has_frame(text: Seq<char>) -> bool {
    exists|s: int, m: int, e: int| is_frame(text, s, m, e)
}

/// The frame at `start`, `mid`, `end` is the first one of `text`.
pub open spec fn is_first_frame(text: Seq<char>, start: int, mid: int, end: int) -> bool {
    &&& is_frame(text, start, mid, end)
    &&& forall|s: int, m: int, e: int| #[trigger]
        is_frame(text, s, m, e) ==> no_later(start, mid, end, s, m, e)
}

/// The event and the value of the first frame of `text`; two empty texts
/// where it holds no frame.
pub open spec fn frame_fields(text: Seq<char>) -> (Seq<char>, Seq<char>) {
    if has_frame(text) {
        let (s, m, e) = choose|s: int, m: int, e: int| is_first_frame(text, s, m, e);
        (text.subrange(s + 1, m), text.subrange(m + 2, e))
    } else {
        (Seq::empty(), Seq::empty())
    }
}

/// A text has at most one first frame.
pub proof fn lemma_first_frame_unique(
    text: Seq<char>,
    s1: int,
    m1: int,
    e1: int,
    s2: int,
    m2: int,
    e2: int,
)
    requires
        is_first_frame(text, s1, m1, e1),
        is_first_frame(text, s2, m2, e2),
    ensures
        s1 == s2,
        m1 == m2,
        e1 == e2,
{
    assert(no_later(s1, m1, e1, s2, m2, e2));
    assert(no_later(s2, m2, e2, s1, m1, e1));
}

/// Where the first frame of a text is known, its fields are the fields of
/// the text.
pub proof fn lemma_fields_of_first_frame(text: Seq<char>, start: int, mid: int, end: int)
    requires
        is_first_frame(text, start, mid, end),
    ensures
        frame_fields(text) == (text.subrange(start + 1, mid), text.subrange(mid + 2, end)),
{
    assert(has_frame(text));
    let (s, m, e) = choose|s: int, m: int, e: int| is_first_frame(text, s, m, e);
    lemma_first_frame_unique(text, s, m, e, start, mid, end);
}

/// The text of one frame with the given event and value.
pub open spec fn wire_frame(event: Seq<char>, value: Seq<char>) -> Seq<char> {
    seq!['['] + event + seq![']', '('] + value + seq![')']
}

/// An event name that a frame can carry as it is: not empty, and without
/// `]` and without a line feed.
pub open spec fn is_event_name(event: Seq<char>) -> bool {
    event.len() > 0 && forall|i: int|
        0 <= i < event.len() ==> #[trigger] event[i] != ']' && event[i] != '\n'
}

/// A value that a frame can carry as it is: without `)` and without a line
/// feed.
pub open spec fn is_plain_value(value: Seq<char>) -> bool {
    forall|i: int| 0 <= i < value.len() ==> #[trigger] value[i] != ')' && value[i] != '\n'
}

/// Framing and taking apart are inverse: the fields of the frame made of an
/// event name and a plain value are that event name and that value.
pub proof fn lemma_wire_frame_fields(event: Seq<char>, value: Seq<char>)
    requires
        is_event_name(event),
        is_plain_value(value),
    ensures
        has_frame(wire_frame(event, value)),
        frame_fields(wire_frame(event, value)) == (event, value),
{
    let text = wire_frame(event, value);
    let mid = event.len() as int + 1;
    let end = event.len() as int + value.len() as int + 3;
    assert(text.subrange(1, mid) =~= event);
    assert(text.subrange(mid + 2, end) =~= value);
    assert(is_frame(text, 0, mid, end));
    assert forall|s: int, m: int, e: int| #[trigger] is_frame(text, s, m, e) implies no_later(
        0,
        mid,
        end,
        s,
        m,
        e,
    ) by {
        if s == 0 {
            if m < mid {
                assert(text[m] == event[m - 1]);
            } else if m == mid && e < end {
                assert(text[e] == value[e - mid - 2]);
            }
        }
    }
    lemma_fields_of_first_frame(text, 0, mid, end);
}

/// `Regex::new` on the frame pattern, then `Regex::captures` on the text,
/// and the texts of groups 1 and 2 of what it found.
///
/// Trusted: `captures` returns the first match of the pattern, and `None`
/// where there is none. For this pattern a match is a frame as `is_frame`
/// says (`.` is any character but a line feed). The search is leftmost, and
/// `+?` and `*?` are lazy, so that among the frames of the earliest start the
/// one with the shortest event and then the shortest value is found: the
/// first frame.
#[verifier::external_body]
fn capture_frame(pattern: &str, text: &str) -> (r: Option<(String, String)>)
    requires
        pattern@ == FRAME_PATTERN@,
    ensures
        match r {
            Some((event, value)) => exists|s: int, m: int, e: int|
                is_first_frame(text@, s, m, e) && event@ == text@.subrange(s + 1, m) && value@
                    == text@.subrange(m + 2, e),
            None => !has_frame(text@),
        },
{
    let re = regex::Regex::new(pattern).unwrap();
    match re.captures(text) {
        Some(caps) => Some((caps[1].to_string(), caps[2].to_string())),
        None => None,
    }
}

/// Takes the first frame of `text` apart. `None` where the text holds no
/// frame.
pub fn find_frame(text: &str) -> (r: Option<(String, String)>)
    ensures
        r is Some == has_frame(text@),
        r matches Some((event, value)) ==> (event@, value@) == frame_fields(text@),
{
    let found = capture_frame(FRAME_PATTERN, text);
    proof {
        if let Some((event, value)) = &found {
            let (s, m, e) = choose|s: int, m: int, e: int|
                is_first_frame(text@, s, m, e) && event@ == text@.subrange(s + 1, m) && value@
                    == text@.subrange(m + 2, e);
            lemma_fields_of_first_frame(text@, s, m, e);
        }
    }
    found
}

} // verus!
