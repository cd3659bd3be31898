//! Small operations on text, stated over sequences of characters.

use vstd::prelude::*;
use vstd::string::*;

verus! {

/// `s` without the run of `c` at its end.
pub open spec fn without_trailing(s: Seq<char>, c: char) -> Seq<char>
    decreases s.len(),
{
    if s.len() > 0 && s.last() == c {
        without_trailing(s.drop_last(), c)
    } else {
        s
    }
}

/// Whether `char::is_whitespace` holds of `c`: the Unicode property White_Space.
pub uninterp spec fn white_space(c: char) -> bool;

/// `s` without the white space at its start.
pub open spec fn trimmed_start(s: Seq<char>) -> Seq<char>
    decreases s.len(),
{
    if s.len() > 0 && white_space(s.first()) {
        trimmed_start(s.drop_first())
    } else {
        s
    }
}

/// `s` without the white space at its end.
pub open spec fn trimmed_end(s: Seq<char>) -> Seq<char>
    decreases s.len(),
{
    if s.len() > 0 && white_space(s.last()) {
        trimmed_end(s.drop_last())
    } else {
        s
    }
}

/// `s` without the white space around it.
pub open spec fn trimmed(s: Seq<char>) -> Seq<char> {
    trimmed_end(trimmed_start(s))
}

/// Calls `char::is_whitespace`, which tells whether `c` has the Unicode
/// property White_Space.  The contract gives that answer its name.
#[verifier::external_body]
fn is_white_space(c: char) -> (yes: bool)
    ensures
        yes == white_space(c),
{
    c.is_whitespace()
}

/// Removing a trailing run up to `end` leaves what removing it from the whole leaves.
proof fn lemma_without_trailing_prefix(s: Seq<char>, c: char, end: int)
    requires
        0 <= end <= s.len(),
        forall|j: int| end <= j < s.len() ==> s[j] == c,
    ensures
        without_trailing(s, c) == without_trailing(s.subrange(0, end), c),
    decreases s.len() - end,
{
    if end < s.len() {
        assert(s.drop_last().subrange(0, end) == s.subrange(0, end));
        lemma_without_trailing_prefix(s.drop_last(), c, end);
    } else {
        assert(s.subrange(0, end) == s);
    }
}

proof fn lemma_trimmed_end_prefix(s: Seq<char>, end: int)
    requires
        0 <= end <= s.len(),
        forall|j: int| end <= j < s.len() ==> white_space(s[j]),
    ensures
        trimmed_end(s) == trimmed_end(s.subrange(0, end)),
    decreases s.len() - end,
{
    if end < s.len() {
        assert(s.drop_last().subrange(0, end) == s.subrange(0, end));
        lemma_trimmed_end_prefix(s.drop_last(), end);
    } else {
        assert(s.subrange(0, end) == s);
    }
}

proof fn lemma_trimmed_start_suffix(s: Seq<char>, start: int)
    requires
        0 <= start <= s.len(),
        forall|j: int| 0 <= j < start ==> white_space(s[j]),
    ensures
        trimmed_start(s) == trimmed_start(s.subrange(start, s.len() as int)),
    decreases start,
{
    if start > 0 {
        let t = s.drop_first();
        assert(t.subrange(start - 1, t.len() as int) == s.subrange(start, s.len() as int));
        assert forall|j: int| 0 <= j < start - 1 implies white_space(t[j]) by {
            assert(t[j] == s[j + 1]);
        }
        lemma_trimmed_start_suffix(t, start - 1);
    } else {
        assert(s.subrange(start, s.len() as int) == s);
    }
}

/// `s` without the slashes at its end.
pub fn strip_trailing_slashes(s: &str) -> (stripped: &str)
    ensures
        stripped@ == without_trailing(s@, '/'),
{
    let mut end: usize = s.unicode_len();
    while end > 0 && s.get_char(end - 1) == '/'
        invariant
            end <= s@.len(),
            forall|j: int| end <= j < s@.len() ==> s@[j] == '/',
        decreases end,
    {
        end = end - 1;
    }
    proof {
        lemma_without_trailing_prefix(s@, '/', end as int);
    }
    s.substring_char(0, end)
}

/// `s` without the white space around it, as `str::trim` gives it.
pub fn trim(s: &str) -> (inner: &str)
    ensures
        inner@ == trimmed(s@),
{
    let len: usize = s.unicode_len();
    let mut start: usize = 0;
    while start < len && is_white_space(s.get_char(start))
        invariant
            start <= len,
            len == s@.len(),
            forall|j: int| 0 <= j < start ==> white_space(s@[j]),
        decreases len - start,
    {
        start = start + 1;
    }
    let mut end: usize = len;
    while end > start && is_white_space(s.get_char(end - 1))
        invariant
            start <= end <= len,
            len == s@.len(),
            forall|j: int| end <= j < len ==> white_space(s@[j]),
        decreases end,
    {
        end = end - 1;
    }
    proof {
        let rest = s@.subrange(start as int, len as int);
        lemma_trimmed_start_suffix(s@, start as int);
        assert(trimmed_start(s@) == rest) by {
            if start < len {
                assert(rest.first() == s@[start as int]);
            }
        }
        assert(rest.subrange(0, end - start) == s@.subrange(start as int, end as int));
        assert forall|j: int| end - start <= j < rest.len() implies white_space(rest[j]) by {
            assert(rest[j] == s@[j + start]);
        }
        lemma_trimmed_end_prefix(rest, end - start);
        let core = s@.subrange(start as int, end as int);
        assert(trimmed_end(core) == core) by {
            if end > start {
                assert(core.last() == s@[end - 1]);
            }
        }
    }
    s.substring_char(start, end)
}

/// The two texts joined.
pub fn join2(a: &str, b: &str) -> (out: String)
    ensures
        out@ == a@ + b@,
{
    String::from_str(a).concat(b)
}

/// The three texts joined.
pub fn join3(a: &str, b: &str, c: &str) -> (out: String)
    ensures
        out@ == a@ + b@ + c@,
{
    String::from_str(a).concat(b).concat(c)
}

/// What `str::to_lowercase` makes of `s`: its lowercase form by the Unicode
/// rules, which is a function of the characters alone.
pub uninterp spec fn lowercased(s: Seq<char>) -> Seq<char>;

/// Calls `str::to_lowercase`, which returns the lowercase equivalent of the
/// text as a new `String`.  The contract gives that result its name.
#[verifier::external_body]
pub(crate) fn lowercase(s: &str) -> (lower: String)
    ensures
        lower@ == lowercased(s@),
{
    s.to_lowercase()
}

/// Whether `s` begins with `head`.
pub open spec fn starts_with(s: Seq<char>, head: Seq<char>) -> bool {
    s.len() >= head.len() && s.subrange(0, head.len() as int) == head
}

/// The characters of an optional text.
pub open spec fn opt_text(o: Option<String>) -> Option<Seq<char>> {
    match o {
        Some(s) => Some(s@),
        None => None,
    }
}

/// Whether the two texts hold the same characters.
pub fn same_text(a: &str, b: &str) -> (same: bool)
    ensures
        same == (a@ == b@),
{
    String::from_str(a) == String::from_str(b)
}

} // verus!
