//! The scanning functions of `nom` that the grammar is built on, each with
//! the contract that the grammar relies on. Nothing here is proved: every
//! contract restates what the function does on `&str` input.

use vstd::prelude::*;
use crate::chars::{CharClass, span, decimal};

verus! {

#[verifier::external_type_specification]
#[verifier::external_body]
#[verifier::reject_recursive_types(E)]
pub struct ExNomErr<E>(nom::Err<E>);

#[verifier::external_type_specification]
#[verifier::external_body]
#[verifier::reject_recursive_types(I)]
pub struct ExNomError<I>(nom::error::Error<I>);

/// What `nom::character::complete::i32` reads off the start of `s`: whether
/// a `-` leads, and the text behind the sign.
pub open spec fn signed_body(s: Seq<char>) -> (bool, Seq<char>) {
    if starts_with(s, '-') {
        (true, s.skip(1))
    } else if starts_with(s, '+') {
        (false, s.skip(1))
    } else {
        (false, s)
    }
}

/// The number that the leading digits of `body` write, negated where
/// `negative` holds.
pub open spec fn signed_value(negative: bool, body: Seq<char>) -> int {
    let magnitude = decimal(body.take(span(body, CharClass::Digit) as int));
    if negative {
        -magnitude
    } else {
        magnitude as int
    }
}

/// Whether `s` starts with an unsigned number of at most `high`: at least
/// one digit, and a value in that range.
pub open spec fn reads_unsigned(s: Seq<char>, high: nat) -> bool {
    span(s, CharClass::Digit) > 0 && decimal(s.take(span(s, CharClass::Digit) as int)) <= high
}

/// Whether `s` starts with a signed number between `low` and `high`: at
/// least one digit behind the optional sign, and a value in that range.
pub open spec fn reads_signed(s: Seq<char>, low: int, high: int) -> bool {
    let (negative, body) = signed_body(s);
    span(body, CharClass::Digit) > 0 && low <= signed_value(negative, body) <= high
}

/// `nom::AsChar::is_alphanum` on a `char`: whether it is an ASCII letter or
/// an ASCII decimal digit.
#[verifier::external_body]
pub(crate) fn is_alphanum(c: char) -> (r: bool)
    ensures
        r == crate::chars::is_alphanum(c),
{
    nom::AsChar::is_alphanum(c)
}

/// `nom::character::complete::multispace0`: splits the text behind its
/// longest prefix of spaces, tabs, carriage returns and line feeds. It never
/// fails.
#[verifier::external_body]
pub(crate) fn multispace0<'a>(s: &'a str) -> (r: Result<
    (&'a str, &'a str),
    nom::Err<nom::error::Error<&'a str>>,
>)
    ensures
        r is Ok,
        r->Ok_0.1@ == s@.take(span(s@, CharClass::Whitespace) as int),
        r->Ok_0.0@ == s@.skip(span(s@, CharClass::Whitespace) as int),
{
    nom::character::complete::multispace0(s)
}

/// `nom::character::complete::multispace1`: as `multispace0`, but fails where
/// that prefix is empty.
#[verifier::external_body]
pub(crate) fn multispace1<'a>(s: &'a str) -> (r: Result<
    (&'a str, &'a str),
    nom::Err<nom::error::Error<&'a str>>,
>)
    ensures
        r is Ok <==> span(s@, CharClass::Whitespace) > 0,
        r is Ok ==> r->Ok_0.1@ == s@.take(span(s@, CharClass::Whitespace) as int),
        r is Ok ==> r->Ok_0.0@ == s@.skip(span(s@, CharClass::Whitespace) as int),
{
    nom::character::complete::multispace1(s)
}

/// `nom::character::complete::space0`: splits the text behind its longest
/// prefix of spaces and tabs. It never fails.
#[verifier::external_body]
pub(crate) fn space0<'a>(s: &'a str) -> (r: Result<
    (&'a str, &'a str),
    nom::Err<nom::error::Error<&'a str>>,
>)
    ensures
        r is Ok,
        r->Ok_0.1@ == s@.take(span(s@, CharClass::Blank) as int),
        r->Ok_0.0@ == s@.skip(span(s@, CharClass::Blank) as int),
{
    nom::character::complete::space0(s)
}

/// `nom::character::complete::space1`: as `space0`, but fails where that
/// prefix is empty.
#[verifier::external_body]
pub(crate) fn space1<'a>(s: &'a str) -> (r: Result<
    (&'a str, &'a str),
    nom::Err<nom::error::Error<&'a str>>,
>)
    ensures
        r is Ok <==> span(s@, CharClass::Blank) > 0,
        r is Ok ==> r->Ok_0.1@ == s@.take(span(s@, CharClass::Blank) as int),
        r is Ok ==> r->Ok_0.0@ == s@.skip(span(s@, CharClass::Blank) as int),
{
    nom::character::complete::space1(s)
}

/// The length of the line ending that `s` starts with: 1 for a line feed, 2
/// for a carriage return and a line feed, 0 where it starts with neither.
pub open spec fn line_ending_len(s: Seq<char>) -> nat {
    if s.len() >= 1 && s[0] == '\n' {
        1
    } else if s.len() >= 2 && s[0] == '\r' && s[1] == '\n' {
        2
    } else {
        0
    }
}

/// `nom::character::complete::line_ending`: takes a line feed, or a carriage
/// return and a line feed, off the start of the text, and fails where it
/// starts with neither.
#[verifier::external_body]
pub(crate) fn line_ending<'a>(s: &'a str) -> (r: Result<
    (&'a str, &'a str),
    nom::Err<nom::error::Error<&'a str>>,
>)
    ensures
        r is Ok <==> line_ending_len(s@) > 0,
        r is Ok ==> r->Ok_0.1@ == s@.take(line_ending_len(s@) as int),
        r is Ok ==> r->Ok_0.0@ == s@.skip(line_ending_len(s@) as int),
{
    nom::character::complete::line_ending(s)
}

/// Whether `s` starts with the character `c`.
pub open spec fn starts_with(s: Seq<char>, c: char) -> bool {
    s.len() > 0 && s[0] == c
}

/// `nom::character::complete::char`: takes the character `c` off the start
/// of the text and returns it, and fails where the text does not start with
/// it.
#[verifier::external_body]
pub(crate) fn char<'a>(c: char, s: &'a str) -> (r: Result<
    (&'a str, char),
    nom::Err<nom::error::Error<&'a str>>,
>)
    ensures
        r is Ok <==> starts_with(s@, c),
        r is Ok ==> r->Ok_0.1 == c,
        r is Ok ==> r->Ok_0.0@ == s@.skip(1),
{
    nom::character::complete::char(c)(s)
}

/// `nom::character::complete::anychar`: takes the first character off the
/// text and returns it, and fails where the text is empty.
#[verifier::external_body]
pub(crate) fn anychar<'a>(s: &'a str) -> (r: Result<
    (&'a str, char),
    nom::Err<nom::error::Error<&'a str>>,
>)
    ensures
        r is Ok <==> s@.len() > 0,
        r is Ok ==> r->Ok_0.1 == s@[0],
        r is Ok ==> r->Ok_0.0@ == s@.skip(1),
{
    nom::character::complete::anychar(s)
}

/// `nom::bytes::complete::tag`: takes the text `t` off the start of `s`, and
/// fails where `s` does not start with it.
#[verifier::external_body]
pub(crate) fn tag<'a>(t: &str, s: &'a str) -> (r: Result<
    (&'a str, &'a str),
    nom::Err<nom::error::Error<&'a str>>,
>)
    ensures
        r is Ok <==> t@.is_prefix_of(s@),
        r is Ok ==> r->Ok_0.1@ == t@,
        r is Ok ==> r->Ok_0.0@ == s@.skip(t@.len() as int),
{
    nom::bytes::complete::tag(t)(s)
}

/// `nom::bytes::complete::take_till`, stopping at the first character
/// outside `class`: splits the text behind its longest prefix of characters
/// of the class. It never fails.
#[verifier::external_body]
pub(crate) fn take_till<'a>(class: CharClass, s: &'a str) -> (r: Result<
    (&'a str, &'a str),
    nom::Err<nom::error::Error<&'a str>>,
>)
    ensures
        r is Ok,
        r->Ok_0.1@ == s@.take(span(s@, class) as int),
        r->Ok_0.0@ == s@.skip(span(s@, class) as int),
{
    nom::bytes::complete::take_till(|c: char| class.excludes(c))(s)
}

/// `nom::bytes::complete::take_till1`, stopping at the first character
/// outside `class`: as `take_till`, but fails where that prefix is empty.
#[verifier::external_body]
pub(crate) fn take_till1<'a>(class: CharClass, s: &'a str) -> (r: Result<
    (&'a str, &'a str),
    nom::Err<nom::error::Error<&'a str>>,
>)
    ensures
        r is Ok <==> span(s@, class) > 0,
        r is Ok ==> r->Ok_0.1@ == s@.take(span(s@, class) as int),
        r is Ok ==> r->Ok_0.0@ == s@.skip(span(s@, class) as int),
{
    nom::bytes::complete::take_till1(|c: char| class.excludes(c))(s)
}

/// `nom::character::complete::u16`: reads the longest prefix of decimal
/// digits as a number. It fails where there is no digit, and where the
/// number does not fit in 16 bits.
#[verifier::external_body]
pub(crate) fn u16<'a>(s: &'a str) -> (r: Result<
    (&'a str, u16),
    nom::Err<nom::error::Error<&'a str>>,
>)
    ensures
        r is Ok <==> reads_unsigned(s@, u16::MAX as nat),
        r is Ok ==> r->Ok_0.1 == decimal(s@.take(span(s@, CharClass::Digit) as int)),
        r is Ok ==> r->Ok_0.0@ == s@.skip(span(s@, CharClass::Digit) as int),
{
    nom::character::complete::u16(s)
}

/// `nom::character::complete::i32`: reads an optional `-` or `+` and then
/// the longest prefix of decimal digits as a number. It fails where no digit
/// follows the sign, and where the number does not fit in 32 bits.
#[verifier::external_body]
pub(crate) fn i32<'a>(s: &'a str) -> (r: Result<
    (&'a str, i32),
    nom::Err<nom::error::Error<&'a str>>,
>)
    ensures
        r is Ok <==> reads_signed(s@, i32::MIN as int, i32::MAX as int),
        r is Ok ==> r->Ok_0.1 == signed_value(signed_body(s@).0, signed_body(s@).1),
        r is Ok ==> r->Ok_0.0@ == signed_body(s@).1.skip(
            span(signed_body(s@).1, CharClass::Digit) as int,
        ),
{
    nom::character::complete::i32(s)
}

} // verus!
