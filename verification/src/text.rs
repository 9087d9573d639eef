//! Cutting strings at a separator: the three parts of a discussion's title
//! and the day of a timestamp.

use vstd::prelude::*;
use vstd::string::*;

verus! {

/// The separator between the parts of a discussion's title.
pub const TITLE_SEPARATOR: char = '#';

/// The character that stands between the day and the time of a timestamp.
pub const TIME_SEPARATOR: char = 'T';

/// The characters of an optional string slice.
pub open spec fn optional_str_view(s: Option<&str>) -> Option<Seq<char>> {
    match s {
        Some(s) => Some(s@),
        None => None,
    }
}

/// The characters of an optional string.
pub open spec fn optional_string_view(s: Option<String>) -> Option<Seq<char>> {
    match s {
        Some(s) => Some(s@),
        None => None,
    }
}

/// Where `c` first stands in `s`; the length of `s` where it does not.
pub open spec fn first_at(s: Seq<char>, c: char) -> int
    decreases s.len(),
{
    if s.len() == 0 || s[0] == c {
        0
    } else {
        1 + first_at(s.drop_first(), c)
    }
}

/// How often `c` stands in `s`.
pub open spec fn occurrences(s: Seq<char>, c: char) -> nat
    decreases s.len(),
{
    if s.len() == 0 {
        0
    } else {
        occurrences(s.drop_last(), c) + if s.last() == c {
            1nat
        } else {
            0nat
        }
    }
}

/// `first_at` is within the string, nothing before it is `c`, and `c`
/// stands there unless it is the string's end.
pub proof fn lemma_first_at(s: Seq<char>, c: char)
    ensures
        0 <= first_at(s, c) <= s.len(),
        forall|j: int| 0 <= j < first_at(s, c) ==> s[j] != c,
        first_at(s, c) < s.len() ==> s[first_at(s, c)] == c,
    decreases s.len(),
{
    if s.len() == 0 || s[0] == c {
    } else {
        let rest = s.drop_first();
        lemma_first_at(rest, c);
        assert forall|j: int| 0 <= j < first_at(s, c) implies s[j] != c by {
            if j > 0 {
                assert(s[j] == rest[j - 1]);
            }
        }
    }
}

/// The only place with nothing equal to `c` before it, and with `c` at it
/// or the string's end, is `first_at`.
pub proof fn lemma_first_at_is(s: Seq<char>, c: char, i: int)
    requires
        0 <= i <= s.len(),
        forall|j: int| 0 <= j < i ==> s[j] != c,
        i < s.len() ==> s[i] == c,
    ensures
        first_at(s, c) == i,
{
    lemma_first_at(s, c);
}

/// The place of the first `c` at or after `from`, or the length of `s` when
/// there is none.
pub(crate) fn find_from(s: &str, c: char, from: usize) -> (i: usize)
    requires
        from <= s@.len(),
    ensures
        i == from + first_at(s@.skip(from as int), c),
{
    let n = s.unicode_len();
    let mut at: usize = 0;
    for ch in it: s.chars()
        invariant
            n == s@.len(),
            it.seq() == s@,
            at == it.index(),
            forall|j: int| from <= j < at ==> s@[j] != c,
    {
        if at >= from && ch == c {
            proof {
                lemma_first_at_is(s@.skip(from as int), c, at - from);
            }
            return at;
        }
        at += 1;
    }
    proof {
        lemma_first_at_is(s@.skip(from as int), c, n - from);
    }
    n
}

/// The three parts of a title: what stands before the first separator, what
/// stands between the first and the second, and all that follows the second.
/// A title with fewer than two separators has no parts.
pub open spec fn title_parts(raw: Seq<char>) -> Option<(Seq<char>, Seq<char>, Seq<char>)> {
    let i = first_at(raw, TITLE_SEPARATOR);
    if i >= raw.len() {
        None
    } else {
        let rest = raw.skip(i + 1);
        let j = first_at(rest, TITLE_SEPARATOR);
        if j >= rest.len() {
            None
        } else {
            Some((raw.take(i), rest.take(j), rest.skip(j + 1)))
        }
    }
}

/// Splits a title of the form `Title#Description#Slug` into its parts.
pub fn split_title(raw: &str) -> (parts: Option<(String, String, String)>)
    ensures
        match parts {
            Some((title, description, slug)) => title_parts(raw@) == Some(
                (title@, description@, slug@),
            ),
            None => title_parts(raw@) is None,
        },
{
    let n = raw.unicode_len();
    let i = find_from(raw, TITLE_SEPARATOR, 0);
    assert(raw@.skip(0) == raw@);
    if i >= n {
        return None;
    }
    let j = find_from(raw, TITLE_SEPARATOR, i + 1);
    proof {
        lemma_first_at(raw@.skip(i + 1), TITLE_SEPARATOR);
    }
    if j >= n {
        return None;
    }
    let title = raw.substring_char(0, i).to_owned();
    let description = raw.substring_char(i + 1, j).to_owned();
    let slug = raw.substring_char(j + 1, n).to_owned();
    Some((title, description, slug))
}

/// The day of a timestamp: what stands before its first `T`, or all of it
/// where it has none.
pub open spec fn date_part(timestamp: Seq<char>) -> Seq<char> {
    timestamp.take(first_at(timestamp, TIME_SEPARATOR))
}

/// Cuts an ISO-8601 timestamp down to its day.
pub fn date_of(timestamp: &str) -> (date: String)
    ensures
        date@ == date_part(timestamp@),
{
    let i = find_from(timestamp, TIME_SEPARATOR, 0);
    assert(timestamp@.skip(0) == timestamp@);
    proof {
        lemma_first_at(timestamp@, TIME_SEPARATOR);
    }
    timestamp.substring_char(0, i).to_owned()
}

/// A string in which `c` stands nowhere holds it zero times, and the other
/// way round.
pub proof fn lemma_occurrences_none(s: Seq<char>, c: char)
    ensures
        occurrences(s, c) == 0 <==> (forall|j: int| 0 <= j < s.len() ==> s[j] != c),
    decreases s.len(),
{
    if s.len() > 0 {
        let front = s.drop_last();
        lemma_occurrences_none(front, c);
        if occurrences(s, c) == 0 {
            assert forall|j: int| 0 <= j < s.len() implies s[j] != c by {
                if j < front.len() {
                    assert(s[j] == front[j]);
                }
            }
        }
    }
}

/// The occurrences in two strings put together are those of the first and
/// those of the second.
pub proof fn lemma_occurrences_concat(a: Seq<char>, b: Seq<char>, c: char)
    ensures
        occurrences(a + b, c) == occurrences(a, c) + occurrences(b, c),
    decreases b.len(),
{
    if b.len() > 0 {
        assert((a + b).drop_last() == a + b.drop_last());
        lemma_occurrences_concat(a, b.drop_last(), c);
    }
}

/// A title has three parts exactly when it holds two separators or more.
pub proof fn law_parts_need_two_separators(raw: Seq<char>)
    ensures
        title_parts(raw) is Some <==> occurrences(raw, TITLE_SEPARATOR) >= 2,
{
    let c = TITLE_SEPARATOR;
    let i = first_at(raw, c);
    lemma_first_at(raw, c);
    if i >= raw.len() {
        lemma_occurrences_none(raw, c);
    } else {
        let head = raw.take(i);
        let rest = raw.skip(i + 1);
        lemma_first_at(rest, c);
        assert(raw == head + seq![c] + rest);
        lemma_occurrences_concat(head + seq![c], rest, c);
        lemma_occurrences_concat(head, seq![c], c);
        lemma_occurrences_none(head, c);
        assert(occurrences(seq![c], c) == 1) by {
            assert(occurrences(seq![c].drop_last(), c) == 0);
        }
        lemma_occurrences_none(rest, c);
    }
}

/// A title made of three parts with a separator between each two, the first
/// two parts free of separators, splits into those three parts.
pub proof fn law_three_parts_split(a: Seq<char>, b: Seq<char>, c: Seq<char>)
    requires
        !a.contains(TITLE_SEPARATOR),
        !b.contains(TITLE_SEPARATOR),
    ensures
        title_parts(a + seq![TITLE_SEPARATOR] + b + seq![TITLE_SEPARATOR] + c) == Some((a, b, c)),
{
    let sep = TITLE_SEPARATOR;
    let raw = a + seq![sep] + b + seq![sep] + c;
    assert forall|j: int| 0 <= j < a.len() implies raw[j] != sep by {
        assert(raw[j] == a[j]);
        assert(a.contains(a[j]));
    }
    assert(raw[a.len() as int] == sep);
    lemma_first_at_is(raw, sep, a.len() as int);
    let rest = raw.skip(a.len() as int + 1);
    assert(rest == b + seq![sep] + c);
    assert forall|j: int| 0 <= j < b.len() implies rest[j] != sep by {
        assert(rest[j] == b[j]);
        assert(b.contains(b[j]));
    }
    assert(rest[b.len() as int] == sep);
    lemma_first_at_is(rest, sep, b.len() as int);
    assert(raw.take(a.len() as int) == a);
    assert(rest.take(b.len() as int) == b);
    assert(rest.skip(b.len() as int + 1) == c);
}

} // verus!
