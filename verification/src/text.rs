//! Text as a sequence of characters: fields, lines and surrounding white
//! space.
//!
//! The specifications speak of `Seq<char>`, the view of `str` and `String`.
//! The executable functions work on a `[char]` and on positions in it, so
//! that one pass over a text suffices.

use vstd::prelude::*;

verus! {

/// The number of characters of `s` that stand before its first `sep`:
/// the length of `s` where it holds none.
pub open spec fn span(s: Seq<char>, sep: char) -> int
    decreases s.len(),
{
    if s.len() == 0 || s[0] == sep {
        0
    } else {
        1 + span(s.skip(1), sep)
    }
}

/// The fields of `s`: the pieces between its separators, in order. There
/// is one field more than there are separators, and a field may be empty.
pub open spec fn split(s: Seq<char>, sep: char) -> Seq<Seq<char>>
    decreases s.len(),
{
    let n = span(s, sep);
    if 0 <= n < s.len() {
        seq![s.take(n)] + split(s.skip(n + 1), sep)
    } else {
        seq![s]
    }
}

/// The lines of `text`: the pieces between its line feeds, each as it
/// stands. The line feed is the one line separator, so a carriage return
/// before it belongs to the line. A text that ends in a line feed ends
/// in an empty line, and the empty text is one empty line.
pub open spec fn lines(text: Seq<char>) -> Seq<Seq<char>> {
    split(text, '\n')
}

/// The characters with the Unicode property `White_Space`.
pub open spec fn is_space(c: char) -> bool {
    ||| c == '\u{9}' || c == '\u{a}' || c == '\u{b}' || c == '\u{c}' || c == '\u{d}'
    ||| c == ' ' || c == '\u{85}' || c == '\u{a0}' || c == '\u{1680}'
    ||| c == '\u{2000}' || c == '\u{2001}' || c == '\u{2002}' || c == '\u{2003}'
    ||| c == '\u{2004}' || c == '\u{2005}' || c == '\u{2006}' || c == '\u{2007}'
    ||| c == '\u{2008}' || c == '\u{2009}' || c == '\u{200a}'
    ||| c == '\u{2028}' || c == '\u{2029}' || c == '\u{202f}' || c == '\u{205f}'
    ||| c == '\u{3000}'
}

/// The number of white-space characters that `s` begins with.
pub open spec fn leading_space(s: Seq<char>) -> int
    decreases s.len(),
{
    if s.len() > 0 && is_space(s[0]) {
        1 + leading_space(s.skip(1))
    } else {
        0
    }
}

/// The number of white-space characters that `s` ends with.
pub open spec fn trailing_space(s: Seq<char>) -> int
    decreases s.len(),
{
    if s.len() > 0 && is_space(s.last()) {
        1 + trailing_space(s.drop_last())
    } else {
        0
    }
}

/// `s` without the white space before its first and after its last
/// character that is none. Empty where `s` holds nothing else.
pub open spec fn trim(s: Seq<char>) -> Seq<char> {
    let a = leading_space(s);
    if a >= s.len() {
        Seq::empty()
    } else {
        s.subrange(a, s.len() - trailing_space(s))
    }
}

/// A span is a position in the sequence, or its length.
pub proof fn lemma_span_bounds(s: Seq<char>, sep: char)
    ensures
        0 <= span(s, sep) <= s.len(),
        span(s, sep) < s.len() ==> s[span(s, sep)] == sep,
        forall|i: int| 0 <= i < span(s, sep) ==> s[i] != sep,
    decreases s.len(),
{
    if s.len() == 0 || s[0] == sep {
    } else {
        let t = s.skip(1);
        lemma_span_bounds(t, sep);
        assert forall|i: int| 0 <= i < span(s, sep) implies s[i] != sep by {
            if i > 0 {
                assert(s[i] == t[i - 1]);
            }
        }
        if span(s, sep) < s.len() {
            assert(s[span(s, sep)] == t[span(t, sep)]);
        }
    }
}

/// The span is the one position that holds the first separator.
pub proof fn lemma_span_is(s: Seq<char>, sep: char, n: int)
    requires
        0 <= n <= s.len(),
        forall|i: int| 0 <= i < n ==> s[i] != sep,
        n < s.len() ==> s[n] == sep,
    ensures
        span(s, sep) == n,
{
    lemma_span_bounds(s, sep);
    let m = span(s, sep);
    if m < n {
        assert(s[m] == sep);
    } else if n < m {
        assert(s[n] == sep);
    }
}

/// How a text falls into its first field and the rest, and that it has at
/// least one field.
pub proof fn lemma_split_first(s: Seq<char>, sep: char)
    ensures
        0 <= span(s, sep) <= s.len(),
        split(s, sep).len() >= 1,
        split(s, sep)[0] == s.take(span(s, sep)),
        span(s, sep) == s.len() ==> split(s, sep) == seq![s],
        span(s, sep) < s.len() ==> split(s, sep) == seq![s.take(span(s, sep))] + split(
            s.skip(span(s, sep) + 1),
            sep,
        ),
{
    lemma_span_bounds(s, sep);
    if span(s, sep) == s.len() {
        assert(s.take(s.len() as int) == s);
    }
}

/// Whether `s` holds no `c`.
pub open spec fn has_no(s: Seq<char>, c: char) -> bool {
    forall|i: int| 0 <= i < s.len() ==> s[i] != c
}

/// A text without a separator is one field.
pub proof fn lemma_split_one(field: Seq<char>, sep: char)
    requires
        has_no(field, sep),
    ensures
        split(field, sep) == seq![field],
{
    lemma_span_is(field, sep, field.len() as int);
}

/// A field, a separator and more text fall into that field and the
/// fields of the text after the separator.
pub proof fn lemma_split_more(field: Seq<char>, sep: char, rest: Seq<char>)
    requires
        has_no(field, sep),
    ensures
        split(field + seq![sep] + rest, sep) == seq![field] + split(rest, sep),
{
    let s = field + seq![sep] + rest;
    let n = field.len() as int;
    assert forall|i: int| 0 <= i < n implies s[i] != sep by {
        assert(s[i] == field[i]);
    }
    lemma_span_is(s, sep, n);
    assert(s.take(n) == field);
    assert(s.skip(n + 1) == rest);
}

/// A text with a separator is its first field, the separator, and what
/// follows; the first field holds no separator.
pub proof fn lemma_first_field(s: Seq<char>, sep: char)
    requires
        span(s, sep) < s.len(),
    ensures
        has_no(split(s, sep)[0], sep),
        s == split(s, sep)[0] + seq![sep] + s.skip(span(s, sep) + 1),
{
    lemma_split_first(s, sep);
    lemma_span_bounds(s, sep);
    let n = span(s, sep);
    assert(s == s.take(n) + seq![sep] + s.skip(n + 1));
}

/// The characters of a string, in a vector.
pub fn chars_of(s: &str) -> (v: Vec<char>)
    ensures
        v@ == s@,
{
    let mut v: Vec<char> = Vec::new();
    for c in it: s.chars()
        invariant
            it.seq() == s@,
            v@ == s@.take(it.index()),
    {
        v.push(c);
    }
    v
}

/// The position of the first `sep` in `v` at or after `from`, or the
/// length of `v` where none follows.
pub fn find_from(v: &[char], from: usize, sep: char) -> (j: usize)
    requires
        from <= v.len(),
    ensures
        from <= j <= v.len(),
        j - from == span(v@.skip(from as int), sep),
{
    let mut j: usize = from;
    while j < v.len() && v[j] != sep
        invariant
            from <= j <= v.len(),
            forall|i: int| from <= i < j ==> v@[i] != sep,
        decreases v.len() - j,
    {
        j = j + 1;
    }
    proof {
        lemma_span_is(v@.skip(from as int), sep, j - from);
    }
    j
}

/// White space in front is counted up to the first character that is none.
pub proof fn lemma_leading_space_is(s: Seq<char>, n: int)
    requires
        0 <= n <= s.len(),
        forall|i: int| 0 <= i < n ==> is_space(s[i]),
        n < s.len() ==> !is_space(s[n]),
    ensures
        leading_space(s) == n,
    decreases s.len(),
{
    if n > 0 {
        let t = s.skip(1);
        assert forall|i: int| 0 <= i < n - 1 implies is_space(t[i]) by {
            assert(t[i] == s[i + 1]);
        }
        lemma_leading_space_is(t, n - 1);
    }
}

/// White space at the end is counted back to the last character that is
/// none.
pub proof fn lemma_trailing_space_is(s: Seq<char>, n: int)
    requires
        0 <= n <= s.len(),
        forall|i: int| s.len() - n <= i < s.len() ==> is_space(s[i]),
        n < s.len() ==> !is_space(s[s.len() - n - 1]),
    ensures
        trailing_space(s) == n,
    decreases s.len(),
{
    if n > 0 {
        let t = s.drop_last();
        assert forall|i: int| t.len() - (n - 1) <= i < t.len() implies is_space(t[i]) by {
            assert(t[i] == s[i]);
        }
        lemma_trailing_space_is(t, n - 1);
    }
}

/// Whether `c` is white space.
pub fn is_white_space(c: char) -> (r: bool)
    ensures
        r == is_space(c),
{
    c == '\u{9}' || c == '\u{a}' || c == '\u{b}' || c == '\u{c}' || c == '\u{d}' || c == ' '
        || c == '\u{85}' || c == '\u{a0}' || c == '\u{1680}' || c == '\u{2000}' || c
        == '\u{2001}' || c == '\u{2002}' || c == '\u{2003}' || c == '\u{2004}' || c
        == '\u{2005}' || c == '\u{2006}' || c == '\u{2007}' || c == '\u{2008}' || c
        == '\u{2009}' || c == '\u{200a}' || c == '\u{2028}' || c == '\u{2029}' || c
        == '\u{202f}' || c == '\u{205f}' || c == '\u{3000}'
}

/// Where the trimmed text stands in `v`: from the first position to just
/// before the second.
pub fn trim_bounds(v: &[char]) -> (r: (usize, usize))
    ensures
        r.0 <= r.1 <= v.len(),
        v@.subrange(r.0 as int, r.1 as int) == trim(v@),
{
    let mut a: usize = 0;
    while a < v.len() && is_white_space(v[a])
        invariant
            a <= v.len(),
            forall|i: int| 0 <= i < a ==> is_space(v@[i]),
        decreases v.len() - a,
    {
        a = a + 1;
    }
    proof {
        lemma_leading_space_is(v@, a as int);
    }
    if a == v.len() {
        return (a, a);
    }
    let mut b: usize = v.len();
    while b > a + 1 && is_white_space(v[b - 1])
        invariant
            a < b <= v.len(),
            !is_space(v@[a as int]),
            forall|i: int| b <= i < v.len() ==> is_space(v@[i]),
        decreases b,
    {
        b = b - 1;
    }
    proof {
        lemma_trailing_space_is(v@, v.len() - b);
    }
    (a, b)
}

/// Whether the characters of `v` from `from` to just before `to` are
/// those of `word`.
pub fn matches_at(v: &[char], from: usize, to: usize, word: &str) -> (r: bool)
    requires
        from <= to <= v.len(),
    ensures
        r == (v@.subrange(from as int, to as int) == word@),
{
    let mut i: usize = from;
    for c in it: word.chars()
        invariant
            from <= to <= v.len(),
            it.seq() == word@,
            i == from + it.index(),
            i <= to,
            v@.subrange(from as int, i as int) == word@.take(it.index()),
    {
        if i >= to || v[i] != c {
            proof {
                let k = it.index();
                if i < to {
                    assert(v@.subrange(from as int, to as int)[k] == v@[i as int]);
                }
            }
            return false;
        }
        proof {
            assert(v@.subrange(from as int, i + 1) == v@.subrange(from as int, i as int).push(
                v@[i as int],
            ));
            assert(word@.take(it.index() + 1) == word@.take(it.index()).push(c));
        }
        i = i + 1;
    }
    proof {
        assert(word@.take(word@.len() as int) == word@);
        if i != to {
            assert(v@.subrange(from as int, to as int).len() != word@.len());
        }
    }
    i == to
}

} // verus!
