//! Character-level helpers shared by the parsers: whitespace, comparison of
//! texts, and searches for a character or a piece of text.
use vstd::prelude::*;

verus! {

/// Whether `c` has the Unicode property `White_Space`.
pub open spec fn is_whitespace(c: char) -> bool {
    ||| '\u{9}' <= c <= '\u{d}'
    ||| c == ' '
    ||| c == '\u{85}'
    ||| c == '\u{a0}'
    ||| c == '\u{1680}'
    ||| '\u{2000}' <= c <= '\u{200a}'
    ||| c == '\u{2028}'
    ||| c == '\u{2029}'
    ||| c == '\u{202f}'
    ||| c == '\u{205f}'
    ||| c == '\u{3000}'
}

/// Whether `needle` stands in `hay` at index `at`.
pub open spec fn occurs_at(hay: Seq<char>, needle: Seq<char>, at: int) -> bool {
    &&& 0 <= at
    &&& at + needle.len() <= hay.len()
    &&& hay.subrange(at, at + needle.len()) == needle
}

/// Whether `needle` stands somewhere in `hay`. The empty text stands in every text.
pub open spec fn contains_text(hay: Seq<char>, needle: Seq<char>) -> bool {
    exists|at: int| occurs_at(hay, needle, at)
}

/// The texts that a sequence of string slices holds.
pub open spec fn texts(items: Seq<&str>) -> Seq<Seq<char>> {
    items.map_values(|t: &str| t@)
}

/// The texts that a sequence of strings holds.
pub open spec fn strings(items: Seq<String>) -> Seq<Seq<char>> {
    items.map_values(|t: String| t@)
}

/// The index of the first line feed at or after `from`, or the length of `s`
/// if there is none.
pub open spec fn line_end(s: Seq<char>, from: int) -> int
    decreases s.len() - from,
{
    if 0 <= from < s.len() && s[from] != '\n' {
        line_end(s, from + 1)
    } else {
        from
    }
}

/// `line` without the carriage return at its end, if it ends in one.
pub open spec fn without_carriage_return(line: Seq<char>) -> Seq<char> {
    if line.len() > 0 && line.last() == '\r' {
        line.drop_last()
    } else {
        line
    }
}

/// The lines of `s` that start at or after `from`.
pub open spec fn lines_from(s: Seq<char>, from: int) -> Seq<Seq<char>>
    decreases s.len() - from,
    via lines_from_decreases
{
    if !(0 <= from < s.len()) {
        Seq::empty()
    } else if line_end(s, from) < s.len() {
        seq![without_carriage_return(s.subrange(from, line_end(s, from)))] + lines_from(
            s,
            line_end(s, from) + 1,
        )
    } else {
        seq![s.subrange(from, s.len() as int)]
    }
}

#[via_fn]
proof fn lines_from_decreases(s: Seq<char>, from: int) {
    if 0 <= from < s.len() {
        lemma_line_end(s, from);
    }
}

/// The lines of `s`. A line ends with a line feed, or with the text. The line
/// feed is no part of the line, nor is a carriage return that stands directly
/// before it. Behind the last line feed of the text no empty line follows.
pub open spec fn lines(s: Seq<char>) -> Seq<Seq<char>> {
    lines_from(s, 0)
}

/// A line ends at or after its start, at the first line feed.
pub proof fn lemma_line_end(s: Seq<char>, from: int)
    requires
        0 <= from <= s.len(),
    ensures
        from <= line_end(s, from) <= s.len(),
        forall|k: int| from <= k < line_end(s, from) ==> s[k] != '\n',
        line_end(s, from) < s.len() ==> s[line_end(s, from)] == '\n',
    decreases s.len() - from,
{
    if from < s.len() && s[from] != '\n' {
        lemma_line_end(s, from + 1);
    }
}

/// Decides [`is_whitespace`].
pub fn whitespace(c: char) -> (r: bool)
    ensures
        r == is_whitespace(c),
{
    ('\u{9}' <= c && c <= '\u{d}') || c == ' ' || c == '\u{85}' || c == '\u{a0}' || c == '\u{1680}'
        || ('\u{2000}' <= c && c <= '\u{200a}') || c == '\u{2028}' || c == '\u{2029}' || c
        == '\u{202f}' || c == '\u{205f}' || c == '\u{3000}'
}

/// The characters of `s`, in order.
pub fn chars_of(s: &str) -> (v: Vec<char>)
    ensures
        v@ == s@,
{
    let mut v: Vec<char> = Vec::new();
    for c in it: s.chars()
        invariant
            it.seq() == s@,
            v@ == it.seq().take(it.index() as int),
    {
        v.push(c);
    }
    v
}

/// The lines of `text`, as slices of it.
pub fn split_lines<'a>(text: &'a str) -> (r: Vec<&'a str>)
    ensures
        texts(r@) == lines(text@),
{
    let chars = chars_of(text);
    let n: usize = chars.len();
    let mut found: Vec<&'a str> = Vec::new();
    let mut start: usize = 0;
    while start < n
        invariant
            start <= n,
            n == chars.len(),
            chars@ == text@,
            texts(found@) + lines_from(text@, start as int) == lines(text@),
        decreases n - start,
    {
        let mut end: usize = start;
        while end < n && chars[end] != '\n'
            invariant
                start <= end <= n,
                n == chars.len(),
                line_end(chars@, start as int) == line_end(chars@, end as int),
            decreases n - end,
        {
            end += 1;
        }
        let ghost before = texts(found@);
        if end < n {
            let stop: usize = if end > start && chars[end - 1] == '\r' {
                end - 1
            } else {
                end
            };
            let line = text.substring_char(start, stop);
            found.push(line);
            proof {
                assert(line@ =~= without_carriage_return(text@.subrange(start as int, end as int)));
                assert(texts(found@) =~= before + seq![line@]);
                assert(texts(found@) + lines_from(text@, end + 1) =~= before
                    + lines_from(text@, start as int));
            }
            start = end + 1;
        } else {
            let line = text.substring_char(start, n);
            found.push(line);
            proof {
                assert(texts(found@) =~= before + seq![line@]);
                assert(lines_from(text@, n as int) =~= Seq::<Seq<char>>::empty());
                assert(texts(found@) + lines_from(text@, n as int) =~= before
                    + lines_from(text@, start as int));
            }
            start = n;
        }
    }
    assert(lines_from(text@, start as int) =~= Seq::<Seq<char>>::empty());
    assert(texts(found@) =~= texts(found@)
        + lines_from(text@, start as int));
    found
}

/// Whether two slices hold the same characters.
pub fn same_chars(a: &[char], b: &[char]) -> (r: bool)
    ensures
        r == (a@ == b@),
{
    if a.len() != b.len() {
        return false;
    }
    let mut i: usize = 0;
    while i < a.len()
        invariant
            i <= a.len(),
            a.len() == b.len(),
            forall|j: int| 0 <= j < i ==> a@[j] == b@[j],
        decreases a.len() - i,
    {
        if a[i] != b[i] {
            return false;
        }
        i += 1;
    }
    assert(a@ =~= b@);
    true
}

/// Whether two texts hold the same characters.
pub fn same_text(a: &str, b: &str) -> (r: bool)
    ensures
        r == (a@ == b@),
{
    let x = chars_of(a);
    let y = chars_of(b);
    same_chars(x.as_slice(), y.as_slice())
}

/// The index of the first `c` in `s`.
pub fn find_char(s: &[char], c: char) -> (r: Option<usize>)
    ensures
        match r {
            Some(i) => {
                &&& s@.index_of_first(c) == Some(i as int)
                &&& i < s.len()
                &&& s@[i as int] == c
                &&& forall|j: int| 0 <= j < i ==> s@[j] != c
            },
            None => s@.index_of_first(c) is None && !s@.contains(c),
        },
{
    let mut i: usize = 0;
    while i < s.len()
        invariant
            i <= s.len(),
            forall|j: int| 0 <= j < i ==> s@[j] != c,
        decreases s.len() - i,
    {
        if s[i] == c {
            proof {
                s@.index_of_first_ensures(c);
                assert(s@.contains(c));
            }
            return Some(i);
        }
        i += 1;
    }
    proof {
        s@.index_of_first_ensures(c);
    }
    None
}

/// Whether `needle` stands in `hay` at index `at`.
pub fn matches_at(hay: &[char], needle: &[char], at: usize) -> (r: bool)
    ensures
        r == occurs_at(hay@, needle@, at as int),
{
    if needle.len() > hay.len() || at > hay.len() - needle.len() {
        return false;
    }
    let mut k: usize = 0;
    while k < needle.len()
        invariant
            k <= needle.len(),
            at + needle.len() <= hay.len(),
            forall|j: int| 0 <= j < k ==> hay@[at + j] == needle@[j],
        decreases needle.len() - k,
    {
        if hay[at + k] != needle[k] {
            assert(hay@.subrange(at as int, at + needle.len())[k as int] != needle@[k as int]);
            return false;
        }
        k += 1;
    }
    assert(hay@.subrange(at as int, at + needle.len()) =~= needle@);
    true
}

/// Whether `needle` stands somewhere in `hay`.
pub fn has_text(hay: &[char], needle: &[char]) -> (r: bool)
    ensures
        r == contains_text(hay@, needle@),
{
    if needle.len() > hay.len() {
        return false;
    }
    let last: usize = hay.len() - needle.len();
    let mut at: usize = 0;
    loop
        invariant
            at <= last,
            last + needle.len() == hay.len(),
            forall|j: int| 0 <= j < at ==> !occurs_at(hay@, needle@, j),
        decreases last - at,
    {
        if matches_at(hay, needle, at) {
            return true;
        }
        if at == last {
            return false;
        }
        at += 1;
    }
}

} // verus!
