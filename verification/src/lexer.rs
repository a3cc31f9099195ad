//! The lexical primitives of the grammar: white space, line endings, braces,
//! keywords, names and numbers. Each takes the text that is left and either
//! returns what is left behind the token, or fails at the text it was given.

use vstd::prelude::*;
use vstd::string::StrSliceExecFns;
use crate::chars::{CharClass, span, decimal};
use crate::scan;
use crate::scan::{
    line_ending_len, starts_with, reads_unsigned, reads_signed, signed_body, signed_value,
};

verus! {

/// The words that the grammar is written in.
#[derive(Debug, Clone, Copy, PartialEq, Eq)]
pub enum Keyword {
    Package,
    Import,
    From,
    Interface,
    TypeCollection,
    Version,
    Major,
    Minor,
    Method,
    In,
    Out,
    Error,
    Broadcast,
    Selective,
    Attribute,
    Readonly,
    NoSubscriptions,
    FireAndForget,
    StructType,
    Polymorphic,
    UnionType,
    EnumerationType,
    Extends,
    ArrayType,
    Of,
    MapType,
    To,
    TypeDef,
    Is,
    Specification,
    Define,
    For,
    Key,
    Value,
    Default,
    True,
    False,
}

impl Keyword {
    /// The keyword as it is written.
    pub open spec fn spec_text(self) -> Seq<char> {
        match self {
            Keyword::Package => "package"@,
            Keyword::Import => "import"@,
            Keyword::From => "from"@,
            Keyword::Interface => "interface"@,
            Keyword::TypeCollection => "typeCollection"@,
            Keyword::Version => "version"@,
            Keyword::Major => "major"@,
            Keyword::Minor => "minor"@,
            Keyword::Method => "method"@,
            Keyword::In => "in"@,
            Keyword::Out => "out"@,
            Keyword::Error => "error"@,
            Keyword::Broadcast => "broadcast"@,
            Keyword::Selective => "selective"@,
            Keyword::Attribute => "attribute"@,
            Keyword::Readonly => "readonly"@,
            Keyword::NoSubscriptions => "noSubscriptions"@,
            Keyword::FireAndForget => "fireAndForget"@,
            Keyword::StructType => "struct"@,
            Keyword::Polymorphic => "polymorphic"@,
            Keyword::UnionType => "union"@,
            Keyword::EnumerationType => "enumeration"@,
            Keyword::Extends => "extends"@,
            Keyword::ArrayType => "array"@,
            Keyword::Of => "of"@,
            Keyword::MapType => "map"@,
            Keyword::To => "to"@,
            Keyword::TypeDef => "typedef"@,
            Keyword::Is => "is"@,
            Keyword::Specification => "specification"@,
            Keyword::Define => "define"@,
            Keyword::For => "for"@,
            Keyword::Key => "key"@,
            Keyword::Value => "value"@,
            Keyword::Default => "default"@,
            Keyword::True => "true"@,
            Keyword::False => "false"@,
        }
    }

    /// The keyword as it is written.
    pub fn text(self) -> (t: &'static str)
        ensures
            t@ == self.spec_text(),
    {
        match self {
            Keyword::Package => "package",
            Keyword::Import => "import",
            Keyword::From => "from",
            Keyword::Interface => "interface",
            Keyword::TypeCollection => "typeCollection",
            Keyword::Version => "version",
            Keyword::Major => "major",
            Keyword::Minor => "minor",
            Keyword::Method => "method",
            Keyword::In => "in",
            Keyword::Out => "out",
            Keyword::Error => "error",
            Keyword::Broadcast => "broadcast",
            Keyword::Selective => "selective",
            Keyword::Attribute => "attribute",
            Keyword::Readonly => "readonly",
            Keyword::NoSubscriptions => "noSubscriptions",
            Keyword::FireAndForget => "fireAndForget",
            Keyword::StructType => "struct",
            Keyword::Polymorphic => "polymorphic",
            Keyword::UnionType => "union",
            Keyword::EnumerationType => "enumeration",
            Keyword::Extends => "extends",
            Keyword::ArrayType => "array",
            Keyword::Of => "of",
            Keyword::MapType => "map",
            Keyword::To => "to",
            Keyword::TypeDef => "typedef",
            Keyword::Is => "is",
            Keyword::Specification => "specification",
            Keyword::Define => "define",
            Keyword::For => "for",
            Keyword::Key => "key",
            Keyword::Value => "value",
            Keyword::Default => "default",
            Keyword::True => "true",
            Keyword::False => "false",
        }
    }
}

/// What the grammar wanted to read where it failed.
#[derive(Debug, Clone, Copy, PartialEq, Eq)]
pub enum Expected {
    /// At least one character of the class.
    Class(CharClass),
    /// A line feed, or a carriage return and a line feed.
    LineEnding,
    /// This character.
    Char(char),
    /// This keyword.
    Keyword(Keyword),
    /// A decimal number that fits in 16 bits.
    UInt16,
    /// A decimal number with an optional sign that fits in 32 bits.
    Int32,
    /// The name of a predefined type.
    BasicType,
    /// A reference to a type.
    TypeRef,
    /// A declaration: one of the keywords that may start one here.
    Declaration,
    /// The kind of value that a property takes.
    ValueKind,
    /// The value of a property.
    Value,
    /// Less nesting: the element that is opened here lies deeper than the
    /// limit allows.
    Nesting,
}

/// A failure of the grammar: the text at which it failed, and what it wanted
/// to read there.
#[derive(Debug, Clone, Copy, PartialEq, Eq)]
pub struct SyntaxError<'a> {
    pub input: &'a str,
    pub expected: Expected,
}

/// A syntax error over mathematical text.
pub ghost struct SyntaxErrorView {
    pub input: Seq<char>,
    pub expected: Expected,
}

impl<'a> View for SyntaxError<'a> {
    type V = SyntaxErrorView;

    open spec fn view(&self) -> SyntaxErrorView {
        SyntaxErrorView { input: self.input@, expected: self.expected }
    }
}

/// What is left of `s` behind `text` where `text` ends there: `s` starts
/// with `text`, and what follows is empty or starts with a character
/// outside `class`.
pub open spec fn spec_word_before(
    text: Seq<char>,
    s: Seq<char>,
    class: CharClass,
) -> Option<Seq<char>> {
    if text.is_prefix_of(s) && span(s.skip(text.len() as int), class) == 0 {
        Some(s.skip(text.len() as int))
    } else {
        None
    }
}

/// What is left of `s` behind the word `text`: `s` starts with `text`, and no
/// character that could continue a qualified name follows it.
pub open spec fn spec_word(text: Seq<char>, s: Seq<char>) -> Option<Seq<char>> {
    spec_word_before(text, s, CharClass::Qualified)
}

/// The state of a parse between two tokens: the text that is left, or the
/// failure that ended it. Every step of a failed parse is that failure.
pub ghost enum Cursor {
    At(Seq<char>),
    Failed(SyntaxErrorView),
}

/// The failure at `s` for want of `expected`.
pub open spec fn fail(s: Seq<char>, expected: Expected) -> Cursor {
    Cursor::Failed(SyntaxErrorView { input: s, expected })
}

impl Cursor {
    /// Skips any characters of `class`.
    pub open spec fn skip0(self, class: CharClass) -> Cursor {
        match self {
            Cursor::At(s) => Cursor::At(s.skip(span(s, class) as int)),
            Cursor::Failed(e) => Cursor::Failed(e),
        }
    }

    /// Skips at least one character of `class`.
    pub open spec fn skip1(self, class: CharClass) -> Cursor {
        match self {
            Cursor::At(s) => if span(s, class) > 0 {
                Cursor::At(s.skip(span(s, class) as int))
            } else {
                fail(s, Expected::Class(class))
            },
            Cursor::Failed(e) => Cursor::Failed(e),
        }
    }

    /// Skips any white space, line endings included.
    pub open spec fn ws0(self) -> Cursor {
        self.skip0(CharClass::Whitespace)
    }

    /// Skips at least one character of white space, line endings included.
    pub open spec fn ws1(self) -> Cursor {
        self.skip1(CharClass::Whitespace)
    }

    /// Skips any spaces and tabs.
    pub open spec fn sp0(self) -> Cursor {
        self.skip0(CharClass::Blank)
    }

    /// Skips at least one space or tab.
    pub open spec fn sp1(self) -> Cursor {
        self.skip1(CharClass::Blank)
    }

    /// Takes one line ending.
    pub open spec fn eol(self) -> Cursor {
        match self {
            Cursor::At(s) => if line_ending_len(s) > 0 {
                Cursor::At(s.skip(line_ending_len(s) as int))
            } else {
                fail(s, Expected::LineEnding)
            },
            Cursor::Failed(e) => Cursor::Failed(e),
        }
    }

    /// Takes the character `c`.
    pub open spec fn ch(self, c: char) -> Cursor {
        match self {
            Cursor::At(s) => if starts_with(s, c) {
                Cursor::At(s.skip(1))
            } else {
                fail(s, Expected::Char(c))
            },
            Cursor::Failed(e) => Cursor::Failed(e),
        }
    }

    /// Takes the keyword `k` as a whole word.
    pub open spec fn word(self, k: Keyword) -> Cursor {
        match self {
            Cursor::At(s) => match spec_word(k.spec_text(), s) {
                Some(rest) => Cursor::At(rest),
                None => fail(s, Expected::Keyword(k)),
            },
            Cursor::Failed(e) => Cursor::Failed(e),
        }
    }

    /// Takes the letters of the keyword `k`, whatever follows them.
    pub open spec fn kw(self, k: Keyword) -> Cursor {
        match self {
            Cursor::At(s) => if k.spec_text().is_prefix_of(s) {
                Cursor::At(s.skip(k.spec_text().len() as int))
            } else {
                fail(s, Expected::Keyword(k))
            },
            Cursor::Failed(e) => Cursor::Failed(e),
        }
    }
}

/// A parse that yields no value.
pub type Skipped<'a> = Result<&'a str, SyntaxError<'a>>;

/// A parse that yields a value: what is left of the text, and the value.
pub type Parsed<'a, T> = Result<(&'a str, T), SyntaxError<'a>>;

/// The result of a parse over mathematical text.
pub type SpecParsed<V> = Result<(Seq<char>, V), SyntaxErrorView>;

/// The cursor that the result of a parse without a value stands for.
pub open spec fn cursor_of(r: Skipped) -> Cursor {
    match r {
        Ok(rest) => Cursor::At(rest@),
        Err(e) => Cursor::Failed(e@),
    }
}

/// Whether the result `r` of a parse is the result `expected` over
/// mathematical text: the same text left and a value with that view, or the
/// same failure.
pub open spec fn agrees<T: DeepView>(r: Parsed<T>, expected: SpecParsed<T::V>) -> bool {
    match expected {
        Ok((rest, v)) => r is Ok && r->Ok_0.0@ == rest && r->Ok_0.1.deep_view() == v,
        Err(e) => r is Err && r->Err_0@ == e,
    }
}

/// Whether a parse of `s` that succeeded has taken something off the text,
/// and one that failed has failed within it.
pub open spec fn advances<T>(r: Parsed<T>, s: Seq<char>) -> bool {
    match r {
        Ok((rest, _)) => rest@.len() < s.len(),
        Err(e) => e.input@.len() <= s.len(),
    }
}

/// Whether a parse of `s` has stayed within the text: what it leaves, and
/// where it failed, is no longer than `s`.
pub open spec fn within<T>(r: Parsed<T>, s: Seq<char>) -> bool {
    match r {
        Ok((rest, _)) => rest@.len() <= s.len(),
        Err(e) => e.input@.len() <= s.len(),
    }
}

/// The parse of a list with `seen` in front of what it yields.
pub open spec fn spec_behind<V>(seen: Seq<V>, others: SpecParsed<Seq<V>>) -> SpecParsed<Seq<V>> {
    match others {
        Ok((end, vs)) => Ok((end, seen + vs)),
        Err(e) => Err(e),
    }
}

/// What a cursor and a value make of a parse.
pub open spec fn yield_at<V>(c: Cursor, v: V) -> SpecParsed<V> {
    match c {
        Cursor::At(rest) => Ok((rest, v)),
        Cursor::Failed(e) => Err(e),
    }
}

/// A name: the longest prefix of characters of `class`, which is not empty.
pub open spec fn spec_name(s: Seq<char>, class: CharClass) -> SpecParsed<Seq<char>> {
    if span(s, class) > 0 {
        Ok((s.skip(span(s, class) as int), s.take(span(s, class) as int)))
    } else {
        Err(SyntaxErrorView { input: s, expected: Expected::Class(class) })
    }
}

/// An opening brace.
pub open spec fn spec_brc_open(s: Seq<char>) -> SpecParsed<char> {
    yield_at(Cursor::At(s).ch('{'), '{')
}

/// A closing brace.
pub open spec fn spec_brc_close(s: Seq<char>) -> SpecParsed<char> {
    yield_at(Cursor::At(s).ch('}'), '}')
}

/// An identifier: letters, digits, `_` and `-`, at least one.
pub open spec fn spec_e_string(s: Seq<char>) -> SpecParsed<Seq<char>> {
    spec_name(s, CharClass::Identifier)
}

/// A qualified name: identifier characters and `.`, at least one.
pub open spec fn spec_fqn(s: Seq<char>) -> SpecParsed<Seq<char>> {
    spec_name(s, CharClass::Qualified)
}

/// An unsigned decimal number of 16 bits.
pub open spec fn spec_uint16(s: Seq<char>) -> SpecParsed<u16> {
    if reads_unsigned(s, u16::MAX as nat) {
        Ok(
            (
                s.skip(span(s, CharClass::Digit) as int),
                decimal(s.take(span(s, CharClass::Digit) as int)) as u16,
            ),
        )
    } else {
        Err(SyntaxErrorView { input: s, expected: Expected::UInt16 })
    }
}

/// A decimal number of 32 bits with an optional sign.
pub open spec fn spec_int32(s: Seq<char>) -> SpecParsed<i32> {
    if reads_signed(s, i32::MIN as int, i32::MAX as int) {
        Ok(
            (
                signed_body(s).1.skip(span(signed_body(s).1, CharClass::Digit) as int),
                signed_value(signed_body(s).0, signed_body(s).1) as i32,
            ),
        )
    } else {
        Err(SyntaxErrorView { input: s, expected: Expected::Int32 })
    }
}

/// The failure at `s` for want of `expected`.
pub fn error_at<'a>(s: &'a str, expected: Expected) -> (e: SyntaxError<'a>)
    ensures
        e@ == (SyntaxErrorView { input: s@, expected }),
{
    SyntaxError { input: s, expected }
}

/// What is left of `s` behind any white space at its start.
pub open spec fn spec_ws0(s: Seq<char>) -> Seq<char> {
    s.skip(span(s, CharClass::Whitespace) as int)
}

/// Skips any white space, line endings included.
pub fn ws0(s: &str) -> (rest: &str)
    ensures
        rest@ == spec_ws0(s@),
        Cursor::At(rest@) == Cursor::At(s@).ws0(),
        rest@.len() <= s@.len(),
{
    proof {
        crate::chars::lemma_span_bound(s@, CharClass::Whitespace);
    }
    match scan::multispace0(s) {
        Ok((rest, _)) => rest,
        Err(_) => s,
    }
}

/// Skips at least one character of white space, line endings included.
pub fn ws1(s: &str) -> (r: Skipped)
    ensures
        cursor_of(r) == Cursor::At(s@).ws1(),
        r is Ok ==> r->Ok_0@.len() < s@.len(),
{
    proof {
        crate::chars::lemma_span_bound(s@, CharClass::Whitespace);
    }
    match scan::multispace1(s) {
        Ok((rest, _)) => Ok(rest),
        Err(_) => Err(error_at(s, Expected::Class(CharClass::Whitespace))),
    }
}

/// What is left of `s` behind any spaces and tabs at its start.
pub open spec fn spec_sp0(s: Seq<char>) -> Seq<char> {
    s.skip(span(s, CharClass::Blank) as int)
}

/// Skips any spaces and tabs.
pub fn sp0(s: &str) -> (rest: &str)
    ensures
        rest@ == spec_sp0(s@),
        Cursor::At(rest@) == Cursor::At(s@).sp0(),
        rest@.len() <= s@.len(),
{
    proof {
        crate::chars::lemma_span_bound(s@, CharClass::Blank);
    }
    match scan::space0(s) {
        Ok((rest, _)) => rest,
        Err(_) => s,
    }
}

/// Skips at least one space or tab.
pub fn sp1(s: &str) -> (r: Skipped)
    ensures
        cursor_of(r) == Cursor::At(s@).sp1(),
        r is Ok ==> r->Ok_0@.len() < s@.len(),
{
    proof {
        crate::chars::lemma_span_bound(s@, CharClass::Blank);
    }
    match scan::space1(s) {
        Ok((rest, _)) => Ok(rest),
        Err(_) => Err(error_at(s, Expected::Class(CharClass::Blank))),
    }
}

/// Takes one line ending.
pub fn eol(s: &str) -> (r: Skipped)
    ensures
        cursor_of(r) == Cursor::At(s@).eol(),
        r is Ok ==> r->Ok_0@.len() < s@.len(),
{
    match scan::line_ending(s) {
        Ok((rest, _)) => Ok(rest),
        Err(_) => Err(error_at(s, Expected::LineEnding)),
    }
}

/// Takes the character `c`.
pub fn ch(c: char, s: &str) -> (r: Skipped)
    ensures
        cursor_of(r) == Cursor::At(s@).ch(c),
        r is Ok ==> r->Ok_0@.len() < s@.len(),
{
    match scan::char(c, s) {
        Ok((rest, _)) => Ok(rest),
        Err(_) => Err(error_at(s, Expected::Char(c))),
    }
}

/// Takes the letters of the keyword `k`, whatever follows them.
pub fn kw(k: Keyword, s: &str) -> (r: Skipped)
    ensures
        cursor_of(r) == Cursor::At(s@).kw(k),
        r is Ok ==> r->Ok_0@.len() <= s@.len(),
{
    match scan::tag(k.text(), s) {
        Ok((rest, _)) => Ok(rest),
        Err(_) => Err(error_at(s, Expected::Keyword(k))),
    }
}

/// Takes `text` off the start of `s` where it ends there: no character of
/// `class` may follow it.
pub fn word_before<'a>(text: &str, class: CharClass, s: &'a str) -> (r: Option<&'a str>)
    ensures
        match spec_word_before(text@, s@, class) {
            Some(rest) => r is Some && r->Some_0@ == rest,
            None => r is None,
        },
        r is Some ==> r->Some_0@.len() + text@.len() == s@.len(),
{
    match scan::tag(text, s) {
        Ok((rest, _)) => {
            match scan::take_till(class, rest) {
                Ok((_, more)) => {
                    proof {
                        crate::chars::lemma_span_bound(rest@, class);
                    }
                    if more.is_empty() {
                        Some(rest)
                    } else {
                        None
                    }
                },
                Err(_) => None,
            }
        },
        Err(_) => None,
    }
}

/// Takes `text` off the start of `s` as a whole word: no character that could
/// continue a qualified name may follow it.
pub fn word<'a>(text: &str, s: &'a str) -> (r: Option<&'a str>)
    ensures
        match spec_word(text@, s@) {
            Some(rest) => r is Some && r->Some_0@ == rest,
            None => r is None,
        },
        r is Some ==> r->Some_0@.len() + text@.len() == s@.len(),
{
    word_before(text, CharClass::Qualified, s)
}

/// Takes the keyword `k` as a whole word.
pub fn keyword(k: Keyword, s: &str) -> (r: Skipped)
    ensures
        cursor_of(r) == Cursor::At(s@).word(k),
        r is Ok ==> r->Ok_0@.len() <= s@.len(),
{
    match word(k.text(), s) {
        Some(rest) => Ok(rest),
        None => Err(error_at(s, Expected::Keyword(k))),
    }
}

/// Takes a name off the start of `s`: its longest prefix of characters of
/// `class`, which must not be empty.
pub fn name<'a>(class: CharClass, s: &'a str) -> (r: Parsed<'a, &'a str>)
    ensures
        agrees(r, spec_name(s@, class)),
        advances(r, s@),
{
    proof {
        crate::chars::lemma_span_bound(s@, class);
    }
    match scan::take_till1(class, s) {
        Ok((rest, taken)) => Ok((rest, taken)),
        Err(_) => Err(error_at(s, Expected::Class(class))),
    }
}

/// Splits `s` behind its longest prefix of characters of `class`, which may
/// be empty: what is left, and the prefix.
pub fn take0<'a>(class: CharClass, s: &'a str) -> (r: (&'a str, &'a str))
    ensures
        r.0@ == s@.skip(span(s@, class) as int),
        r.1@ == s@.take(span(s@, class) as int),
        r.0@.len() <= s@.len(),
{
    proof {
        crate::chars::lemma_span_bound(s@, class);
    }
    match scan::take_till(class, s) {
        Ok(split) => split,
        Err(_) => (s, ""),
    }
}

/// The first character of `s`, where it has one.
pub open spec fn spec_first(s: Seq<char>) -> Option<char> {
    if s.len() > 0 {
        Some(s[0])
    } else {
        None
    }
}

/// The first character of `s`, where it has one.
pub fn first(s: &str) -> (r: Option<char>)
    ensures
        r == spec_first(s@),
{
    match scan::anychar(s) {
        Ok((_, c)) => Some(c),
        Err(_) => None,
    }
}

/// What is left of `s` behind its first token: behind the name that it
/// starts with or, where it starts with none, behind its first character.
pub open spec fn spec_skip_token(s: Seq<char>) -> Seq<char> {
    if span(s, CharClass::Qualified) > 0 {
        s.skip(span(s, CharClass::Qualified) as int)
    } else if s.len() > 0 {
        s.skip(1)
    } else {
        s
    }
}

/// Skips the first token of `s`.
pub fn skip_token(s: &str) -> (rest: &str)
    ensures
        rest@ == spec_skip_token(s@),
        rest@.len() <= s@.len(),
        s@.len() > 0 ==> rest@.len() < s@.len(),
{
    proof {
        crate::chars::lemma_span_bound(s@, CharClass::Qualified);
    }
    match scan::take_till1(CharClass::Qualified, s) {
        Ok((rest, _)) => rest,
        Err(_) => match scan::anychar(s) {
            Ok((rest, _)) => rest,
            Err(_) => s,
        },
    }
}

/// The length of the text of a quoted string at the start of `s`: the
/// characters up to the first `"` or line feed that no `\` escapes. A `\`
/// escapes the character behind it and stands for itself; one that a line
/// feed or nothing at all follows ends the text.
pub open spec fn spec_quoted_len(s: Seq<char>) -> nat
    decreases s.len(),
{
    if s.len() == 0 || s[0] == '"' || s[0] == '\n' {
        0
    } else if s[0] == '\\' {
        if s.len() >= 2 && s[1] != '\n' {
            2 + spec_quoted_len(s.skip(2))
        } else {
            0
        }
    } else {
        1 + spec_quoted_len(s.skip(1))
    }
}

/// The text of a quoted string is no longer than the text that it stands
/// in.
pub proof fn lemma_quoted_len_bound(s: Seq<char>)
    ensures
        spec_quoted_len(s) <= s.len(),
    decreases s.len(),
{
    if s.len() == 0 || s[0] == '"' || s[0] == '\n' {
    } else if s[0] == '\\' {
        if s.len() >= 2 && s[1] != '\n' {
            lemma_quoted_len_bound(s.skip(2));
        }
    } else {
        lemma_quoted_len_bound(s.skip(1));
    }
}

/// Splits `s` behind the text of a quoted string: what is left, and the
/// text as it is written, escapes included.
pub fn quoted_text<'a>(s: &'a str) -> (r: (&'a str, &'a str))
    ensures
        r.0@ == s@.skip(spec_quoted_len(s@) as int),
        r.1@ == s@.take(spec_quoted_len(s@) as int),
        r.0@.len() <= s@.len(),
{
    let total = s.unicode_len();
    let mut rest = s;
    let mut taken: usize = 0;
    assert(s@.skip(0) =~= s@);
    loop
        invariant
            total == s@.len(),
            taken <= total,
            rest@ == s@.skip(taken as int),
            spec_quoted_len(s@) == taken + spec_quoted_len(rest@),
        ensures
            taken <= total,
            taken == spec_quoted_len(s@),
            rest@ == s@.skip(taken as int),
        decreases rest@.len(),
    {
        match scan::anychar(rest) {
            Err(_) => {
                break ;
            },
            Ok((after, c)) => {
                if c == '"' || c == '\n' {
                    break ;
                }
                if c == '\\' {
                    match scan::anychar(after) {
                        Err(_) => {
                            break ;
                        },
                        Ok((behind, escaped)) => {
                            if escaped == '\n' {
                                break ;
                            }
                            assert(behind@ =~= rest@.skip(2));
                            assert(rest@.skip(2) =~= s@.skip(taken + 2));
                            taken = taken + 2;
                            rest = behind;
                        },
                    }
                } else {
                    assert(after@ =~= s@.skip(taken + 1));
                    taken = taken + 1;
                    rest = after;
                }
            },
        }
    }
    let text = s.substring_char(0, taken);
    assert(s@.subrange(0, taken as int) =~= s@.take(taken as int));
    (rest, text)
}

/// Takes an opening brace.
pub fn brc_open(s: &str) -> (r: Parsed<char>)
    ensures
        agrees(r, spec_brc_open(s@)),
        advances(r, s@),
{
    match ch('{', s) {
        Ok(rest) => Ok((rest, '{')),
        Err(e) => Err(e),
    }
}

/// Takes a closing brace.
pub fn brc_close(s: &str) -> (r: Parsed<char>)
    ensures
        agrees(r, spec_brc_close(s@)),
        advances(r, s@),
{
    match ch('}', s) {
        Ok(rest) => Ok((rest, '}')),
        Err(e) => Err(e),
    }
}

/// Takes an identifier: letters, digits, `_` and `-`, at least one.
pub fn e_string<'a>(s: &'a str) -> (r: Parsed<'a, &'a str>)
    ensures
        agrees(r, spec_e_string(s@)),
        advances(r, s@),
{
    name(CharClass::Identifier, s)
}

/// Takes a qualified name: identifier characters and `.`, at least one.
pub fn fqn<'a>(s: &'a str) -> (r: Parsed<'a, &'a str>)
    ensures
        agrees(r, spec_fqn(s@)),
        advances(r, s@),
{
    name(CharClass::Qualified, s)
}

/// Takes an unsigned decimal number of 16 bits.
pub fn uint16(s: &str) -> (r: Parsed<u16>)
    ensures
        agrees(r, spec_uint16(s@)),
        advances(r, s@),
{
    proof {
        crate::chars::lemma_span_bound(s@, CharClass::Digit);
    }
    match scan::u16(s) {
        Ok((rest, n)) => Ok((rest, n)),
        Err(_) => Err(error_at(s, Expected::UInt16)),
    }
}

/// Takes a decimal number of 32 bits with an optional sign.
pub fn int32(s: &str) -> (r: Parsed<i32>)
    ensures
        agrees(r, spec_int32(s@)),
        advances(r, s@),
{
    proof {
        crate::chars::lemma_span_bound(signed_body(s@).1, CharClass::Digit);
    }
    match scan::i32(s) {
        Ok((rest, n)) => Ok((rest, n)),
        Err(_) => Err(error_at(s, Expected::Int32)),
    }
}

} // verus!
