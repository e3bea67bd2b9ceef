//! The two matchers that `login` runs over every `set-cookie` header value:
//! one captures the value of a `JSESSIONID` cookie, the other only looks for
//! a `SERVERID` cookie.
//!
//! Written as regular expressions the two are `JSESSIONID=([^;]+)`, taken at
//! its leftmost match with the longest capture, and `SERVERID=`. Here each
//! is a scan over the characters of the value, proved against a definition
//! of what it finds.

use crate::text::chars_of;
use vstd::prelude::*;
use vstd::string::StrSliceExecFns;

verus! {

/// The text that introduces the session identifier in a cookie.
pub const SESSION_KEY: &'static str = "JSESSIONID=";

/// The text that introduces the server identifier in a cookie.
pub const SERVER_KEY: &'static str = "SERVERID=";

/// A character that may stand in the text of a header value: printable
/// ASCII, the space and the tab.
pub open spec fn is_visible_ascii(c: char) -> bool {
    (' ' <= c && c < '\u{7f}') || c == '\t'
}

/// True when every character of `text` may stand in a header value.
pub open spec fn is_header_text(text: Seq<char>) -> bool {
    forall|i: int| 0 <= i < text.len() ==> is_visible_ascii(#[trigger] text[i])
}

/// True when `word` stands in `text` at position `at`.
pub open spec fn occurs_at(text: Seq<char>, word: Seq<char>, at: int) -> bool {
    &&& 0 <= at
    &&& at + word.len() <= text.len()
    &&& text.subrange(at, at + word.len()) == word
}

/// True when `word` stands somewhere in `text`.
pub open spec fn contains_word(text: Seq<char>, word: Seq<char>) -> bool {
    exists|at: int| occurs_at(text, word, at)
}

/// True when `text` names a `SERVERID` cookie.
pub open spec fn mentions_server_id(text: Seq<char>) -> bool {
    contains_word(text, SERVER_KEY@)
}

/// True when a session identifier starts at `at`: the key stands there and
/// at least one character other than `;` follows it.
pub open spec fn session_starts_at(text: Seq<char>, at: int) -> bool {
    &&& occurs_at(text, SESSION_KEY@, at)
    &&& at + SESSION_KEY@.len() < text.len()
    &&& text[at + SESSION_KEY@.len()] != ';'
}

/// The leftmost position at or after `from` where a session identifier
/// starts.
pub open spec fn first_session_start(text: Seq<char>, from: int) -> Option<int>
    decreases text.len() - from,
{
    if from < 0 || from >= text.len() {
        None
    } else if session_starts_at(text, from) {
        Some(from)
    } else {
        first_session_start(text, from + 1)
    }
}

/// The end of the longest run of characters other than `;` that starts at
/// `from`.
pub open spec fn value_end(text: Seq<char>, from: int) -> int
    decreases text.len() - from,
{
    if 0 <= from < text.len() && text[from] != ';' {
        value_end(text, from + 1)
    } else {
        from
    }
}

/// The session identifier that `text` carries: what follows the leftmost
/// `JSESSIONID=` that has a value, up to the next `;` or the end of the text.
pub open spec fn captured_session_id(text: Seq<char>) -> Option<Seq<char>> {
    match first_session_start(text, 0) {
        Some(at) => Some(
            text.subrange(at + SESSION_KEY@.len(), value_end(text, at + SESSION_KEY@.len())),
        ),
        None => None,
    }
}

/// `first_session_start` gives the least position at or after `from` where a
/// session identifier starts, and `None` exactly when there is none.
pub proof fn lemma_first_session_start(text: Seq<char>, from: int)
    requires
        0 <= from,
    ensures
        match first_session_start(text, from) {
            Some(at) => {
                &&& from <= at
                &&& session_starts_at(text, at)
                &&& forall|j: int| from <= j < at ==> !session_starts_at(text, j)
            },
            None => forall|j: int| from <= j ==> !session_starts_at(text, j),
        },
    decreases text.len() - from,
{
    if from < text.len() && !session_starts_at(text, from) {
        lemma_first_session_start(text, from + 1);
    }
}

/// Skipping positions where no session identifier starts does not change
/// which one is found first.
pub proof fn lemma_first_session_start_skip(text: Seq<char>, from: int, to: int)
    requires
        0 <= from <= to,
        forall|j: int| from <= j < to ==> !session_starts_at(text, j),
    ensures
        first_session_start(text, from) == first_session_start(text, to),
    decreases to - from,
{
    if from < to {
        lemma_first_session_start_skip(text, from + 1, to);
        if from >= text.len() {
            assert(first_session_start(text, to) is None);
        }
    }
}

/// `value_end` stops at the first `;` at or after `from`, or at the end of
/// the text.
pub proof fn lemma_value_end(text: Seq<char>, from: int)
    requires
        0 <= from <= text.len(),
    ensures
        from <= value_end(text, from) <= text.len(),
        forall|k: int| from <= k < value_end(text, from) ==> text[k] != ';',
        value_end(text, from) == text.len() || text[value_end(text, from)] == ';',
    decreases text.len() - from,
{
    if from < text.len() && text[from] != ';' {
        lemma_value_end(text, from + 1);
    }
}

/// A run of characters other than `;` that cannot be made longer ends where
/// `value_end` says.
pub proof fn lemma_value_end_is_unique(text: Seq<char>, from: int, end: int)
    requires
        0 <= from <= end <= text.len(),
        forall|k: int| from <= k < end ==> text[k] != ';',
        end == text.len() || text[end] == ';',
    ensures
        value_end(text, from) == end,
    decreases end - from,
{
    if from < end {
        lemma_value_end_is_unique(text, from + 1, end);
    }
}

/// The capture, said without recursion: where a session identifier starts
/// at `at` and at no earlier position, and the characters after the key up
/// to `end` hold no `;` and cannot be extended, those characters are the
/// captured session identifier.
pub proof fn lemma_leftmost_longest_is_captured(text: Seq<char>, at: int, end: int)
    requires
        session_starts_at(text, at),
        forall|j: int| 0 <= j < at ==> !session_starts_at(text, j),
        at + SESSION_KEY@.len() <= end <= text.len(),
        forall|k: int| at + SESSION_KEY@.len() <= k < end ==> text[k] != ';',
        end == text.len() || text[end] == ';',
    ensures
        captured_session_id(text) == Some(text.subrange(at + SESSION_KEY@.len(), end)),
{
    lemma_first_session_start_skip(text, 0, at);
    lemma_value_end_is_unique(text, at + SESSION_KEY@.len(), end);
}

/// A captured session identifier is never empty, holds no `;`, and is made
/// of characters of the text it was taken from.
pub proof fn lemma_captured_session_id(text: Seq<char>)
    requires
        captured_session_id(text) is Some,
    ensures
        captured_session_id(text)->0.len() > 0,
        forall|k: int|
            0 <= k < captured_session_id(text)->0.len() ==> #[trigger] captured_session_id(
                text,
            )->0[k] != ';',
        is_header_text(text) ==> is_header_text(captured_session_id(text)->0),
{
    lemma_first_session_start(text, 0);
    let at = first_session_start(text, 0)->0;
    let start = at + SESSION_KEY@.len();
    lemma_value_end(text, start);
    lemma_value_end(text, start + 1);
    let id = captured_session_id(text)->0;
    assert forall|k: int| 0 <= k < id.len() implies #[trigger] id[k] != ';' by {
        assert(id[k] == text[start + k]);
    }
    if is_header_text(text) {
        assert forall|k: int| 0 <= k < id.len() implies is_visible_ascii(#[trigger] id[k]) by {
            assert(id[k] == text[start + k]);
        }
    }
}

/// Tells whether every character of `chars` may stand in a header value.
fn chars_are_header_text(chars: &Vec<char>) -> (yes: bool)
    ensures
        yes == is_header_text(chars@),
{
    let mut i: usize = 0;
    while i < chars.len()
        invariant
            i <= chars.len(),
            forall|k: int| 0 <= k < i ==> is_visible_ascii(#[trigger] chars@[k]),
        decreases chars.len() - i,
    {
        let c = chars[i];
        if !((' ' <= c && c < '\u{7f}') || c == '\t') {
            return false;
        }
        i += 1;
    }
    true
}

/// Tells whether `word` stands in `text` at position `at`.
fn word_at(text: &Vec<char>, word: &Vec<char>, at: usize) -> (yes: bool)
    ensures
        yes == occurs_at(text@, word@, at as int),
{
    if word.len() > text.len() || at > text.len() - word.len() {
        return false;
    }
    let mut k: usize = 0;
    while k < word.len()
        invariant
            k <= word.len(),
            at + word.len() <= text.len(),
            forall|j: int| 0 <= j < k ==> text@[at + j] == word@[j],
        decreases word.len() - k,
    {
        if text[at + k] != word[k] {
            proof {
                let part = text@.subrange(at as int, at + word.len());
                assert(part[k as int] == text@[at + k]);
            }
            return false;
        }
        k += 1;
    }
    proof {
        assert(text@.subrange(at as int, at + word.len()) =~= word@);
    }
    true
}

/// The leftmost position at or after `from` where `word` stands in `text`.
fn find_word(text: &Vec<char>, word: &Vec<char>, from: usize) -> (found: Option<usize>)
    ensures
        match found {
            Some(at) => {
                &&& from <= at
                &&& occurs_at(text@, word@, at as int)
                &&& forall|j: int| from <= j < at ==> !occurs_at(text@, word@, j)
            },
            None => forall|j: int| from <= j ==> !occurs_at(text@, word@, j),
        },
{
    if from > text.len() {
        return None;
    }
    let mut at: usize = from;
    loop
        invariant
            from <= at <= text.len(),
            forall|j: int| from <= j < at ==> !occurs_at(text@, word@, j),
        decreases text.len() - at,
    {
        if word_at(text, word, at) {
            return Some(at);
        }
        if at == text.len() {
            return None;
        }
        at += 1;
    }
}

/// The span of the session identifier in `text`: where it starts and where
/// it ends.
fn session_span(text: &Vec<char>) -> (span: Option<(usize, usize)>)
    ensures
        match span {
            Some((start, end)) => {
                &&& start <= end <= text@.len()
                &&& captured_session_id(text@) == Some(text@.subrange(start as int, end as int))
            },
            None => captured_session_id(text@) is None,
        },
{
    let key = chars_of(SESSION_KEY);
    proof {
        reveal_strlit("JSESSIONID=");
    }
    let mut from: usize = 0;
    loop
        invariant
            key@ == SESSION_KEY@,
            key@.len() > 0,
            first_session_start(text@, 0) == first_session_start(text@, from as int),
        decreases text.len() + 1 - from,
    {
        match find_word(text, &key, from) {
            None => {
                proof {
                    lemma_first_session_start(text@, from as int);
                }
                return None;
            },
            Some(at) => {
                let start = at + key.len();
                proof {
                    lemma_first_session_start_skip(text@, from as int, at as int);
                }
                if start < text.len() && text[start] != ';' {
                    let mut end: usize = start;
                    while end < text.len() && text[end] != ';'
                        invariant
                            start <= end <= text.len(),
                            value_end(text@, start as int) == value_end(text@, end as int),
                        decreases text.len() - end,
                    {
                        end += 1;
                    }
                    proof {
                        assert(session_starts_at(text@, at as int));
                    }
                    return Some((start, end));
                }
                proof {
                    assert(!session_starts_at(text@, at as int));
                    lemma_first_session_start_skip(text@, at as int, at + 1);
                }
                from = at + 1;
            },
        }
    }
}

/// Tells whether `text` may stand as a header value: printable ASCII, spaces
/// and tabs only.
pub fn header_text(text: &str) -> (yes: bool)
    ensures
        yes == is_header_text(text@),
{
    let chars = chars_of(text);
    chars_are_header_text(&chars)
}

/// Captures the session identifier of a `set-cookie` value: what follows the
/// leftmost `JSESSIONID=` that has a value, up to the next `;` or the end.
pub fn session_id<'a>(text: &'a str) -> (id: Option<&'a str>)
    ensures
        id is Some <==> captured_session_id(text@) is Some,
        id matches Some(s) ==> captured_session_id(text@) == Some(s@),
{
    let chars = chars_of(text);
    match session_span(&chars) {
        Some((start, end)) => Some(text.substring_char(start, end)),
        None => None,
    }
}

/// Tells whether a `set-cookie` value names a `SERVERID` cookie.
pub fn has_server_id(text: &str) -> (yes: bool)
    ensures
        yes == mentions_server_id(text@),
{
    let chars = chars_of(text);
    let key = chars_of(SERVER_KEY);
    find_word(&chars, &key, 0).is_some()
}

} // verus!
