//! The type grammar: the names of the predefined types, and references to
//! types.

use vstd::prelude::*;
use crate::ast::{FBasicTypeId, FTypeRef, FTypeRefView};
use crate::chars::{
    CharClass, all_in, lemma_span_bound, lemma_span_exact, lemma_span_splits, span, stops,
};
use crate::lexer::{
    Expected, Parsed, SpecParsed, SyntaxErrorView, agrees, advances, error_at, fqn, spec_fqn,
    spec_word_before, word_before,
};

verus! {

impl FBasicTypeId {
    /// The name of the type as it is written. `Undefined` has none.
    pub open spec fn spec_text(self) -> Seq<char> {
        match self {
            FBasicTypeId::Undefined => ""@,
            FBasicTypeId::UInt8 => "UInt8"@,
            FBasicTypeId::Int8 => "Int8"@,
            FBasicTypeId::UInt16 => "UInt16"@,
            FBasicTypeId::Int16 => "Int16"@,
            FBasicTypeId::UInt32 => "UInt32"@,
            FBasicTypeId::Int32 => "Int32"@,
            FBasicTypeId::UInt64 => "UInt64"@,
            FBasicTypeId::Int64 => "Int64"@,
            FBasicTypeId::Integer => "Integer"@,
            FBasicTypeId::Boolean => "Boolean"@,
            FBasicTypeId::Float => "Float"@,
            FBasicTypeId::Double => "Double"@,
            FBasicTypeId::String => "String"@,
            FBasicTypeId::ByteBuffer => "ByteBuffer"@,
        }
    }

    /// The name of the type as it is written. `Undefined` has none.
    pub fn text(self) -> (t: &'static str)
        ensures
            t@ == self.spec_text(),
    {
        match self {
            FBasicTypeId::Undefined => "",
            FBasicTypeId::UInt8 => "UInt8",
            FBasicTypeId::Int8 => "Int8",
            FBasicTypeId::UInt16 => "UInt16",
            FBasicTypeId::Int16 => "Int16",
            FBasicTypeId::UInt32 => "UInt32",
            FBasicTypeId::Int32 => "Int32",
            FBasicTypeId::UInt64 => "UInt64",
            FBasicTypeId::Int64 => "Int64",
            FBasicTypeId::Integer => "Integer",
            FBasicTypeId::Boolean => "Boolean",
            FBasicTypeId::Float => "Float",
            FBasicTypeId::Double => "Double",
            FBasicTypeId::String => "String",
            FBasicTypeId::ByteBuffer => "ByteBuffer",
        }
    }
}

/// What is left of `s` behind the name of the predefined type `id`: `s`
/// starts with the name, and what follows is empty or starts with a
/// character that is no letter, no digit, no `_` and no `-`. A `.` may
/// follow.
pub open spec fn spec_type_name(id: FBasicTypeId, s: Seq<char>) -> Option<Seq<char>> {
    spec_word_before(id.spec_text(), s, CharClass::Identifier)
}

/// The predefined type `id` where `s` starts with its name as a whole
/// identifier, and `otherwise` where it does not.
pub open spec fn spec_type_word(
    id: FBasicTypeId,
    s: Seq<char>,
    otherwise: SpecParsed<FBasicTypeId>,
) -> SpecParsed<FBasicTypeId> {
    match spec_type_name(id, s) {
        Some(rest) => Ok((rest, id)),
        None => otherwise,
    }
}

/// The name of a predefined type, as a whole word: a name that goes on
/// behind it, as in `UInt8Value`, is not that type. The names are tried from
/// `UInt8` to `ByteBuffer`; as whole words no two of them fit the same text.
#[verifier::opaque]
pub open spec fn spec_f_basic_type_id(s: Seq<char>) -> SpecParsed<FBasicTypeId> {
    let none = Err(SyntaxErrorView { input: s, expected: Expected::BasicType });
    let from_byte_buffer = spec_type_word(FBasicTypeId::ByteBuffer, s, none);
    let from_string = spec_type_word(FBasicTypeId::String, s, from_byte_buffer);
    let from_double = spec_type_word(FBasicTypeId::Double, s, from_string);
    let from_float = spec_type_word(FBasicTypeId::Float, s, from_double);
    let from_boolean = spec_type_word(FBasicTypeId::Boolean, s, from_float);
    let from_integer = spec_type_word(FBasicTypeId::Integer, s, from_boolean);
    let from_int64 = spec_type_word(FBasicTypeId::Int64, s, from_integer);
    let from_uint64 = spec_type_word(FBasicTypeId::UInt64, s, from_int64);
    let from_int32 = spec_type_word(FBasicTypeId::Int32, s, from_uint64);
    let from_uint32 = spec_type_word(FBasicTypeId::UInt32, s, from_int32);
    let from_int16 = spec_type_word(FBasicTypeId::Int16, s, from_uint32);
    let from_uint16 = spec_type_word(FBasicTypeId::UInt16, s, from_int16);
    let from_int8 = spec_type_word(FBasicTypeId::Int8, s, from_uint16);
    spec_type_word(FBasicTypeId::UInt8, s, from_int8)
}

/// Reads the name of the predefined type `id` as a whole identifier.
fn type_word<'a>(id: FBasicTypeId, s: &'a str) -> (r: Option<(&'a str, FBasicTypeId)>)
    ensures
        match spec_type_name(id, s@) {
            Some(rest) => r is Some && r->Some_0.0@ == rest && r->Some_0.1 == id,
            None => r is None,
        },
        id != FBasicTypeId::Undefined && r is Some ==> r->Some_0.0@.len() < s@.len(),
{
    proof {
        lemma_type_names_not_empty(id);
    }
    match word_before(id.text(), CharClass::Identifier, s) {
        Some(rest) => Some((rest, id)),
        None => None,
    }
}

/// Every predefined type but `Undefined` has a name.
pub proof fn lemma_type_names_not_empty(id: FBasicTypeId)
    ensures
        id != FBasicTypeId::Undefined ==> id.spec_text().len() > 0,
{
    reveal_strlit("UInt8");
    reveal_strlit("Int8");
    reveal_strlit("UInt16");
    reveal_strlit("Int16");
    reveal_strlit("UInt32");
    reveal_strlit("Int32");
    reveal_strlit("UInt64");
    reveal_strlit("Int64");
    reveal_strlit("Integer");
    reveal_strlit("Boolean");
    reveal_strlit("Float");
    reveal_strlit("Double");
    reveal_strlit("String");
    reveal_strlit("ByteBuffer");
}

/// The name of a predefined type is read as a whole identifier only: what
/// is left behind it is empty or starts with a character that is no letter,
/// no digit, no `_` and no `-`. So a name that starts with the letters of a
/// predefined type and goes on, as `UInt8Value` does, is never split into
/// that type and a rest.
pub proof fn law_basic_type_is_whole_word(s: Seq<char>)
    ensures
        match spec_f_basic_type_id(s) {
            Ok((rest, id)) => {
                &&& id != FBasicTypeId::Undefined
                &&& s == id.spec_text() + rest
                &&& stops(rest, CharClass::Identifier)
            },
            Err(e) => e == (SyntaxErrorView { input: s, expected: Expected::BasicType }),
        },
{
    reveal(spec_f_basic_type_id);
    match spec_f_basic_type_id(s) {
        Ok((rest, id)) => {
            assert(spec_type_name(id, s) == Some(rest));
            lemma_span_splits(rest, CharClass::Identifier);
            assert(rest.skip(0) =~= rest);
            assert(s =~= id.spec_text() + rest);
        },
        Err(_) => {},
    }
}

/// The name of a predefined type is made of characters of identifiers, and
/// no two predefined types have the same name.
pub proof fn lemma_type_names_are_names(id: FBasicTypeId)
    ensures
        all_in(id.spec_text(), CharClass::Identifier),
        forall|other: FBasicTypeId| #[trigger] other.spec_text() == id.spec_text() ==> other == id,
{
    reveal_strlit("");
    reveal_strlit("UInt8");
    reveal_strlit("Int8");
    reveal_strlit("UInt16");
    reveal_strlit("Int16");
    reveal_strlit("UInt32");
    reveal_strlit("Int32");
    reveal_strlit("UInt64");
    reveal_strlit("Int64");
    reveal_strlit("Integer");
    reveal_strlit("Boolean");
    reveal_strlit("Float");
    reveal_strlit("Double");
    reveal_strlit("String");
    reveal_strlit("ByteBuffer");
    assert forall|other: FBasicTypeId| #[trigger] other.spec_text() == id.spec_text() implies other
        == id by {
        // names of one length differ in their first or in one of their last two characters
        let a = other.spec_text();
        let b = id.spec_text();
        if a.len() >= 2 {
            assert(a[0] == b[0]);
            assert(a[a.len() - 2] == b[b.len() - 2]);
            assert(a[a.len() - 1] == b[b.len() - 1]);
        }
    }
}

/// The identifier that a text starts with, where a name of a predefined
/// type ends in it as a whole identifier, is that name.
pub proof fn lemma_whole_identifier(id: FBasicTypeId, word: Seq<char>, rest: Seq<char>)
    requires
        all_in(word, CharClass::Identifier),
        stops(rest, CharClass::Identifier),
        spec_type_name(id, word + rest) is Some,
    ensures
        id.spec_text() == word,
        spec_type_name(id, word + rest) == Some(rest),
{
    let s = word + rest;
    let text = id.spec_text();
    let behind = s.skip(text.len() as int);
    lemma_type_names_are_names(id);
    lemma_span_splits(behind, CharClass::Identifier);
    assert(behind.skip(0) =~= behind);
    assert(s =~= text + behind);
    lemma_span_exact(text, behind, CharClass::Identifier);
    lemma_span_exact(word, rest, CharClass::Identifier);
}

/// Where a text starts with the name of a predefined type, and what
/// follows the name is empty or starts with a character that is no letter,
/// no digit, no `_` and no `-`, that type is read and what follows is left:
/// `UInt8.x` is read as `UInt8`, with `.x` left.
pub proof fn law_basic_type_is_read(id: FBasicTypeId, rest: Seq<char>)
    requires
        id != FBasicTypeId::Undefined,
        stops(rest, CharClass::Identifier),
    ensures
        spec_f_basic_type_id(id.spec_text() + rest) == Ok::<
            (Seq<char>, FBasicTypeId),
            SyntaxErrorView,
        >((rest, id)),
{
    reveal(spec_f_basic_type_id);
    let word = id.spec_text();
    let s = word + rest;
    lemma_type_names_are_names(id);
    lemma_span_exact(Seq::<char>::empty(), rest, CharClass::Identifier);
    assert(Seq::<char>::empty() + rest =~= rest);
    assert(s.skip(word.len() as int) =~= rest);
    assert(word.is_prefix_of(s)) by {
        assert(s.subrange(0, word.len() as int) =~= word);
    }
    assert(spec_type_name(id, s) == Some(rest));
    assert forall|other: FBasicTypeId| (#[trigger] spec_type_name(other, s)) is Some implies other
        == id by {
        lemma_whole_identifier(other, word, rest);
    }
}

/// A name that does not start with the name of a predefined type as a
/// whole identifier is read as a reference to a type defined elsewhere,
/// and as a whole: whether or not it starts with the letters of a
/// predefined type.
pub proof fn law_type_ref_reads_whole_name(name: Seq<char>, after: Seq<char>)
    requires
        name.len() > 0,
        all_in(name, CharClass::Qualified),
        stops(after, CharClass::Qualified),
        forall|id: FBasicTypeId|
            id != FBasicTypeId::Undefined ==> name.take(span(name, CharClass::Identifier) as int)
                != #[trigger] id.spec_text(),
    ensures
        spec_f_type_ref(name + after) == Ok::<(Seq<char>, FTypeRefView), SyntaxErrorView>(
            (after, FTypeRefView { predefined: None, derived: Some(name) }),
        ),
{
    reveal(spec_f_type_ref);
    let s = name + after;
    law_basic_type_is_whole_word(s);
    lemma_span_exact(name, after, CharClass::Qualified);
    match spec_f_basic_type_id(s) {
        Ok((rest, id)) => {
            // the identifier that `s` starts with is the one that `name` starts with
            let word = id.spec_text();
            lemma_type_names_are_names(id);
            lemma_span_exact(word, rest, CharClass::Identifier);
            lemma_leading_identifier(name, after);
            assert(word == name.take(span(name, CharClass::Identifier) as int));
        },
        Err(_) => {},
    }
}

/// A qualified name and the text that it stands in front of start with the
/// same identifier.
pub proof fn lemma_leading_identifier(name: Seq<char>, after: Seq<char>)
    requires
        all_in(name, CharClass::Qualified),
        stops(after, CharClass::Qualified),
    ensures
        span(name + after, CharClass::Identifier) == span(name, CharClass::Identifier),
        (name + after).take(span(name, CharClass::Identifier) as int) == name.take(
            span(name, CharClass::Identifier) as int,
        ),
{
    lemma_span_splits(name, CharClass::Identifier);
    let n = span(name, CharClass::Identifier) as int;
    let lead = name.take(n);
    let tail = name.skip(n) + after;
    assert(name + after =~= lead + tail);
    assert(stops(tail, CharClass::Identifier)) by {
        if name.skip(n).len() > 0 {
            assert(tail[0] == name.skip(n)[0]);
        } else if after.len() > 0 {
            assert(tail[0] == after[0]);
        }
    }
    lemma_span_exact(lead, tail, CharClass::Identifier);
}

/// Reads the name of a predefined type.
pub fn f_basic_type_id(s: &str) -> (r: Parsed<FBasicTypeId>)
    ensures
        agrees(r, spec_f_basic_type_id(s@)),
        advances(r, s@),
{
    proof {
        reveal(spec_f_basic_type_id);
    }
    if let Some(found) = type_word(FBasicTypeId::UInt8, s) {
        return Ok(found);
    }
    if let Some(found) = type_word(FBasicTypeId::Int8, s) {
        return Ok(found);
    }
    if let Some(found) = type_word(FBasicTypeId::UInt16, s) {
        return Ok(found);
    }
    if let Some(found) = type_word(FBasicTypeId::Int16, s) {
        return Ok(found);
    }
    if let Some(found) = type_word(FBasicTypeId::UInt32, s) {
        return Ok(found);
    }
    if let Some(found) = type_word(FBasicTypeId::Int32, s) {
        return Ok(found);
    }
    if let Some(found) = type_word(FBasicTypeId::UInt64, s) {
        return Ok(found);
    }
    if let Some(found) = type_word(FBasicTypeId::Int64, s) {
        return Ok(found);
    }
    if let Some(found) = type_word(FBasicTypeId::Integer, s) {
        return Ok(found);
    }
    if let Some(found) = type_word(FBasicTypeId::Boolean, s) {
        return Ok(found);
    }
    if let Some(found) = type_word(FBasicTypeId::Float, s) {
        return Ok(found);
    }
    if let Some(found) = type_word(FBasicTypeId::Double, s) {
        return Ok(found);
    }
    if let Some(found) = type_word(FBasicTypeId::String, s) {
        return Ok(found);
    }
    if let Some(found) = type_word(FBasicTypeId::ByteBuffer, s) {
        return Ok(found);
    }
    Err(error_at(s, Expected::BasicType))
}

/// A reference to a type: the name of a predefined type, or else a
/// qualified name, which stands for a type defined elsewhere.
#[verifier::opaque]
pub open spec fn spec_f_type_ref(s: Seq<char>) -> SpecParsed<FTypeRefView> {
    match spec_f_basic_type_id(s) {
        Ok((rest, id)) => Ok((rest, FTypeRefView { predefined: Some(id), derived: None })),
        Err(_) => match spec_fqn(s) {
            Ok((rest, name)) => Ok((rest, FTypeRefView { predefined: None, derived: Some(name) })),
            Err(_) => Err(SyntaxErrorView { input: s, expected: Expected::TypeRef }),
        },
    }
}

/// Reads a reference to a type.
pub fn f_type_ref(s: &str) -> (r: Parsed<FTypeRef>)
    ensures
        agrees(r, spec_f_type_ref(s@)),
        advances(r, s@),
        r is Ok ==> r->Ok_0.1.deep_view().well_formed(),
{
    proof {
        reveal(spec_f_type_ref);
    }
    proof {
        lemma_span_bound(s@, CharClass::Qualified);
    }
    match f_basic_type_id(s) {
        Ok((rest, id)) => Ok((rest, FTypeRef { predefined: Some(id), derived: None })),
        Err(_) => match fqn(s) {
            Ok((rest, name)) => Ok(
                (rest, FTypeRef { predefined: None, derived: Some(name.to_string()) }),
            ),
            Err(_) => Err(error_at(s, Expected::TypeRef)),
        },
    }
}

} // verus!
