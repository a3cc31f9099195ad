//! The character classes of the grammar, and the longest-prefix scan over them.

use vstd::prelude::*;
use crate::scan::is_alphanum as is_ascii_alphanum;

verus! {

/// A set of characters that the grammar scans over.
#[derive(Debug, Clone, Copy, PartialEq, Eq)]
pub enum CharClass {
    /// Space and tab.
    Blank,
    /// Space, tab, carriage return and line feed.
    Whitespace,
    /// The ASCII decimal digits.
    Digit,
    /// ASCII letters and digits, `_` and `-`.
    Identifier,
    /// The identifier characters and `.`.
    Qualified,
    /// The qualified-name characters and `*`.
    Namespace,
    /// Every character but `@` and `*`.
    AnnotationText,
}

/// ASCII letter or decimal digit.
pub open spec fn is_alphanum(c: char) -> bool {
    ('a' <= c && c <= 'z') || ('A' <= c && c <= 'Z') || ('0' <= c && c <= '9')
}

/// The value of a decimal digit.
pub open spec fn digit_value(c: char) -> nat {
    (c as u32 - '0' as u32) as nat
}

/// The number that a sequence of decimal digits writes.
pub open spec fn decimal(digits: Seq<char>) -> nat
    decreases digits.len(),
{
    if digits.len() == 0 {
        0
    } else {
        decimal(digits.drop_last()) * 10 + digit_value(digits.last())
    }
}

impl CharClass {
    /// Whether `c` belongs to the class.
    pub open spec fn spec_contains(self, c: char) -> bool {
        match self {
            CharClass::Blank => c == ' ' || c == '\t',
            CharClass::Whitespace => c == ' ' || c == '\t' || c == '\r' || c == '\n',
            CharClass::Digit => '0' <= c && c <= '9',
            CharClass::Identifier => is_alphanum(c) || c == '_' || c == '-',
            CharClass::Qualified => is_alphanum(c) || c == '_' || c == '-' || c == '.',
            CharClass::Namespace => is_alphanum(c) || c == '_' || c == '-' || c == '.' || c
                == '*',
            CharClass::AnnotationText => c != '@' && c != '*',
        }
    }

    /// Whether `c` belongs to the class.
    pub fn contains(self, c: char) -> (r: bool)
        ensures
            r == self.spec_contains(c),
    {
        match self {
            CharClass::Blank => c == ' ' || c == '\t',
            CharClass::Whitespace => c == ' ' || c == '\t' || c == '\r' || c == '\n',
            CharClass::Digit => '0' <= c && c <= '9',
            CharClass::Identifier => is_ascii_alphanum(c) || c == '_' || c == '-',
            CharClass::Qualified => is_ascii_alphanum(c) || c == '_' || c == '-' || c == '.',
            CharClass::Namespace => is_ascii_alphanum(c) || c == '_' || c == '-' || c == '.'
                || c == '*',
            CharClass::AnnotationText => c != '@' && c != '*',
        }
    }

    /// Whether `c` lies outside the class: where a scan over the class stops.
    pub fn excludes(self, c: char) -> (r: bool)
        ensures
            r == !self.spec_contains(c),
    {
        !self.contains(c)
    }
}

/// The length of the longest prefix of `s` whose characters all belong to
/// `class`.
pub open spec fn span(s: Seq<char>, class: CharClass) -> nat
    decreases s.len(),
{
    if s.len() > 0 && class.spec_contains(s[0]) {
        1 + span(s.skip(1), class)
    } else {
        0
    }
}

/// A span never exceeds the text.
pub proof fn lemma_span_bound(s: Seq<char>, class: CharClass)
    ensures
        span(s, class) <= s.len(),
    decreases s.len(),
{
    if s.len() > 0 && class.spec_contains(s[0]) {
        lemma_span_bound(s.skip(1), class);
    }
}

/// Whether every character of `s` belongs to `class`.
pub open spec fn all_in(s: Seq<char>, class: CharClass) -> bool {
    forall|i: int| 0 <= i < s.len() ==> class.spec_contains(#[trigger] s[i])
}

/// Whether `s` is empty or starts with a character outside `class`: where a
/// scan over the class stops at once.
pub open spec fn stops(s: Seq<char>, class: CharClass) -> bool {
    s.len() > 0 ==> !class.spec_contains(s[0])
}

/// The span of a text is the length of any prefix of it that lies in the
/// class and behind which the scan stops.
pub proof fn lemma_span_exact(a: Seq<char>, b: Seq<char>, class: CharClass)
    requires
        all_in(a, class),
        stops(b, class),
    ensures
        span(a + b, class) == a.len(),
        (a + b).take(span(a + b, class) as int) == a,
        (a + b).skip(span(a + b, class) as int) == b,
    decreases a.len(),
{
    if a.len() == 0 {
        assert(a + b =~= b);
    } else {
        assert((a + b).skip(1) =~= a.skip(1) + b);
        assert((a + b)[0] == a[0]);
        assert forall|i: int| 0 <= i < a.skip(1).len() implies class.spec_contains(
            #[trigger] a.skip(1)[i],
        ) by {
            assert(a.skip(1)[i] == a[i + 1]);
        }
        lemma_span_exact(a.skip(1), b, class);
    }
    assert((a + b).take(a.len() as int) =~= a);
    assert((a + b).skip(a.len() as int) =~= b);
}

/// The prefix that a span measures lies in the class, and the scan stops
/// behind it.
pub proof fn lemma_span_splits(s: Seq<char>, class: CharClass)
    ensures
        span(s, class) <= s.len(),
        all_in(s.take(span(s, class) as int), class),
        stops(s.skip(span(s, class) as int), class),
    decreases s.len(),
{
    if s.len() > 0 && class.spec_contains(s[0]) {
        let t = s.skip(1);
        lemma_span_splits(t, class);
        let n = span(t, class) as int;
        assert(s.skip(n + 1) =~= t.skip(n));
        assert forall|i: int| 0 <= i < n + 1 implies class.spec_contains(
            #[trigger] s.take(n + 1)[i],
        ) by {
            if i > 0 {
                assert(s.take(n + 1)[i] == t.take(n)[i - 1]);
            }
        }
    } else {
        assert(s.skip(0) =~= s);
    }
}

} // verus!
