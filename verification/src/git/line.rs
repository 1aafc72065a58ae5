//! The tokenizer: splits one line of the listing into its tokens.
//!
//! A token is either a bracketed span, from `[` through the first `]` after
//! it, or a maximal run of characters that are not whitespace. A `[` opens a
//! span only where a token starts and where a `]` follows before the next line
//! feed; any other `[` is an ordinary character.
use crate::text::{chars_of, is_whitespace, same_text, texts, whitespace};
use vstd::prelude::*;

verus! {

/// The token that marks the line of the branch that is checked out.
pub open spec fn head_marker() -> Seq<char> {
    "*"@
}

/// The index of the first whitespace at or after `from`, or the length of `s`
/// if there is none: the end of the run of other characters that starts at `from`.
pub open spec fn run_end(s: Seq<char>, from: int) -> int
    decreases s.len() - from,
{
    if 0 <= from < s.len() && !is_whitespace(s[from]) {
        run_end(s, from + 1)
    } else {
        from
    }
}

/// The index of the first `]` at or after `from`, if no line feed stands before it.
pub open spec fn closing_bracket(s: Seq<char>, from: int) -> Option<int>
    decreases s.len() - from,
{
    if !(0 <= from < s.len()) || s[from] == '\n' {
        None
    } else if s[from] == ']' {
        Some(from)
    } else {
        closing_bracket(s, from + 1)
    }
}

/// The index just behind the token that starts at `start`.
pub open spec fn token_end(s: Seq<char>, start: int) -> int {
    if s[start] == '[' && closing_bracket(s, start + 1) is Some {
        closing_bracket(s, start + 1)->0 + 1
    } else {
        run_end(s, start)
    }
}

/// The tokens of `s` that start at or after `from`, left to right.
pub open spec fn tokens_from(s: Seq<char>, from: int) -> Seq<Seq<char>>
    decreases s.len() - from,
    via tokens_from_decreases
{
    if !(0 <= from < s.len()) {
        Seq::empty()
    } else if is_whitespace(s[from]) {
        tokens_from(s, from + 1)
    } else {
        seq![s.subrange(from, token_end(s, from))] + tokens_from(s, token_end(s, from))
    }
}

#[via_fn]
proof fn tokens_from_decreases(s: Seq<char>, from: int) {
    if 0 <= from < s.len() && !is_whitespace(s[from]) {
        lemma_token_end_bounds(s, from);
    }
}

/// The tokens of the line `s`, left to right.
pub open spec fn tokens(s: Seq<char>) -> Seq<Seq<char>> {
    tokens_from(s, 0)
}

/// A run ends at or after its start and within the text.
pub proof fn lemma_run_end_bounds(s: Seq<char>, from: int)
    requires
        0 <= from <= s.len(),
    ensures
        from <= run_end(s, from) <= s.len(),
        forall|k: int| from <= k < run_end(s, from) ==> !is_whitespace(s[k]),
        run_end(s, from) < s.len() ==> is_whitespace(s[run_end(s, from)]),
    decreases s.len() - from,
{
    if from < s.len() && !is_whitespace(s[from]) {
        lemma_run_end_bounds(s, from + 1);
    }
}

/// A closing bracket that was found is the first one, and no line feed stands before it.
pub proof fn lemma_closing_bracket(s: Seq<char>, from: int)
    requires
        0 <= from <= s.len(),
    ensures
        match closing_bracket(s, from) {
            Some(j) => {
                &&& from <= j < s.len()
                &&& s[j] == ']'
                &&& forall|k: int| from <= k < j ==> s[k] != ']' && s[k] != '\n'
            },
            None => forall|j: int|
                from <= j < s.len() && s[j] == ']' ==> exists|k: int| from <= k < j && s[k] == '\n',
        },
    decreases s.len() - from,
{
    if from < s.len() && s[from] != '\n' && s[from] != ']' {
        lemma_closing_bracket(s, from + 1);
        if closing_bracket(s, from) is None {
            assert forall|j: int| from <= j < s.len() && s[j] == ']' implies exists|k: int|
                from <= k < j && s[k] == '\n' by {
                let k = choose|k: int| from + 1 <= k < j && s[k] == '\n';
                assert(from <= k < j && s[k] == '\n');
            }
        }
    } else if from < s.len() && s[from] == '\n' {
        assert forall|j: int| from <= j < s.len() && s[j] == ']' implies exists|k: int|
            from <= k < j && s[k] == '\n' by {
            assert(from <= from < j && s[from] == '\n');
        }
    }
}

/// A token is not empty and ends within the text.
pub proof fn lemma_token_end_bounds(s: Seq<char>, start: int)
    requires
        0 <= start < s.len(),
        !is_whitespace(s[start]),
    ensures
        start < token_end(s, start) <= s.len(),
{
    lemma_run_end_bounds(s, start + 1);
    lemma_closing_bracket(s, start + 1);
}

/// The tokens in one text, a comma between each two.
pub open spec fn joined(items: Seq<Seq<char>>) -> Seq<char>
    decreases items.len(),
{
    if items.len() == 0 {
        Seq::empty()
    } else if items.len() == 1 {
        items[0]
    } else {
        joined(items.drop_last()) + ","@ + items.last()
    }
}

/// Whether `token` has the shape of a token: it is not empty and starts with no
/// whitespace; and either it holds no whitespace at all, or it is a bracketed
/// span, from `[` through `]`, with no `]` and no line feed between them.
pub open spec fn is_token(token: Seq<char>) -> bool {
    &&& token.len() > 0
    &&& !is_whitespace(token[0])
    &&& {
        ||| forall|i: int| 0 <= i < token.len() ==> !is_whitespace(token[i])
        ||| {
            &&& token.len() >= 2
            &&& token[0] == '['
            &&& token[token.len() - 1] == ']'
            &&& forall|i: int| 0 < i < token.len() - 1 ==> token[i] != ']' && token[i] != '\n'
        }
    }
}

/// Every token of a line has the shape of a token. So whitespace is never a
/// token, nor the start of one.
pub proof fn lemma_tokens_are_tokens(s: Seq<char>, from: int)
    requires
        0 <= from <= s.len(),
    ensures
        forall|k: int| 0 <= k < tokens_from(s, from).len() ==> is_token(#[trigger] tokens_from(s, from)[k]),
    decreases s.len() - from,
{
    if from < s.len() {
        if is_whitespace(s[from]) {
            lemma_tokens_are_tokens(s, from + 1);
            assert(tokens_from(s, from) == tokens_from(s, from + 1));
        } else {
            lemma_token_end_bounds(s, from);
            lemma_run_end_bounds(s, from);
            lemma_closing_bracket(s, from + 1);
            let end = token_end(s, from);
            let token = s.subrange(from, end);
            lemma_tokens_are_tokens(s, end);
            if s[from] == '[' && closing_bracket(s, from + 1) is Some {
                assert forall|i: int| 0 < i < token.len() - 1 implies token[i] != ']' && token[i]
                    != '\n' by {
                    assert(token[i] == s[from + i]);
                }
                assert(token[token.len() - 1] == s[end - 1]);
            } else {
                assert forall|i: int| 0 <= i < token.len() implies !is_whitespace(token[i]) by {
                    assert(token[i] == s[from + i]);
                }
            }
            assert(token[0] == s[from]);
            assert(is_token(token));
            let found = tokens_from(s, from);
            assert(found == seq![token] + tokens_from(s, end));
            assert forall|k: int| 0 <= k < found.len() implies is_token(#[trigger] found[k]) by {
                if k > 0 {
                    assert(found[k] == tokens_from(s, end)[k - 1]);
                } else {
                    assert(found[0] == token);
                }
            }
        }
    } else {
        assert(tokens_from(s, from).len() == 0);
    }
}

/// A line has no token exactly if it holds nothing but whitespace.
pub proof fn lemma_blank_line(s: Seq<char>, from: int)
    requires
        0 <= from <= s.len(),
    ensures
        tokens_from(s, from).len() == 0 <==> forall|i: int|
            from <= i < s.len() ==> is_whitespace(s[i]),
    decreases s.len() - from,
{
    if from < s.len() {
        if is_whitespace(s[from]) {
            lemma_blank_line(s, from + 1);
        }
    }
}

/// The tokens of one line.
#[derive(Debug)]
pub struct Line<'a>(Vec<&'a str>);

impl<'a> View for Line<'a> {
    type V = Seq<Seq<char>>;

    closed spec fn view(&self) -> Seq<Seq<char>> {
        texts(self.0@)
    }
}

/// The index just behind the token of `chars` that starts at `start`.
fn scan_token(chars: &[char], start: usize) -> (end: usize)
    requires
        start < chars.len(),
        !is_whitespace(chars@[start as int]),
    ensures
        end == token_end(chars@, start as int),
        start < end <= chars.len(),
{
    proof {
        lemma_token_end_bounds(chars@, start as int);
    }
    if chars[start] == '[' {
        let mut j: usize = start + 1;
        while j < chars.len() && chars[j] != '\n'
            invariant
                start < j <= chars.len(),
                chars@[start as int] == '[',
                closing_bracket(chars@, start + 1) == closing_bracket(chars@, j as int),
            decreases chars.len() - j,
        {
            if chars[j] == ']' {
                return j + 1;
            }
            j += 1;
        }
    }
    let mut i: usize = start + 1;
    while i < chars.len() && !whitespace(chars[i])
        invariant
            start < i <= chars.len(),
            run_end(chars@, start as int) == run_end(chars@, i as int),
        decreases chars.len() - i,
    {
        i += 1;
    }
    i
}

impl<'a> Line<'a> {
    /// Splits `line` into its tokens.
    pub fn parse(line: &'a str) -> (r: Self)
        ensures
            r@ == tokens(line@),
    {
        let chars = chars_of(line);
        let mut found: Vec<&'a str> = Vec::new();
        let mut i: usize = 0;
        while i < chars.len()
            invariant
                i <= chars.len(),
                chars@ == line@,
                texts(found@) + tokens_from(line@, i as int) == tokens(line@),
            decreases chars.len() - i,
        {
            if whitespace(chars[i]) {
                i += 1;
            } else {
                let end = scan_token(chars.as_slice(), i);
                let token = line.substring_char(i, end);
                proof {
                    assert(texts(found@.push(token)) =~= texts(found@) + seq![token@]);
                    assert(texts(found@.push(token)) + tokens_from(line@, end as int) =~= texts(
                        found@,
                    ) + tokens_from(line@, i as int));
                }
                found.push(token);
                i = end;
            }
        }
        assert(texts(found@) =~= texts(found@) + tokens_from(line@, i as int));
        Line(found)
    }

    /// The tokens, as slices of the line.
    pub fn into_tokens(self) -> (r: Vec<&'a str>)
        ensures
            texts(r@) == self@,
    {
        self.0
    }

    /// The tokens in one text, a comma between each two.
    pub fn to_string(&self) -> (r: String)
        ensures
            r@ == joined(self@),
    {
        let mut r = String::new();
        let mut k: usize = 0;
        while k < self.0.len()
            invariant
                k <= self.0.len(),
                r@ == joined(self@.take(k as int)),
            decreases self.0.len() - k,
        {
            assert(self@.take(k + 1).drop_last() =~= self@.take(k as int));
            assert(self@.take(k + 1).last() == self.0@[k as int]@);
            if k > 0 {
                r.append(",");
            }
            r.append(self.0[k]);
            k += 1;
        }
        assert(self@.take(k as int) =~= self@);
        r
    }

    /// Whether the line starts with the marker of the checked-out branch.
    pub fn is_head(&self) -> (r: bool)
        ensures
            r == (self@.len() > 0 && self@[0] == head_marker()),
    {
        self.0.len() > 0 && same_text(self.0[0], "*")
    }

    /// The tokens of the line, without the marker of the checked-out branch.
    pub fn components(&self) -> (r: &[&'a str])
        ensures
            texts(r@) == if self@.len() > 0 && self@[0] == head_marker() {
                self@.skip(1)
            } else {
                self@
            },
    {
        if self.is_head() {
            let r = vstd::slice::slice_subrange(self.0.as_slice(), 1, self.0.len());
            assert(texts(r@) =~= self@.skip(1));
            r
        } else {
            self.0.as_slice()
        }
    }
}

} // verus!
