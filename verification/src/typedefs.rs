//! The grammar of type definitions: enumerations, structs, unions, arrays,
//! maps and type aliases. A base is read as a name and kept as one.

use vstd::prelude::*;
use crate::ast::{
    FArrayType, FArrayTypeView, FEnumerationType, FEnumerationTypeView, FEnumerator,
    FEnumeratorView, FMapType, FMapTypeView, FStructType, FStructTypeView, FType, FTypeDef,
    FTypeDefView, FTypeView, FUnionType, FUnionTypeView,
};
use crate::decl::{spec_fields, spec_opt_annotation_block, fields, opt_annotation_block};
use crate::lexer::{
    spec_ws0, Cursor, Expected, Keyword, Parsed, SpecParsed, SyntaxErrorView, agrees, advances,
    spec_behind, within, yield_at, error_at, spec_e_string, spec_fqn, spec_int32, ws0, ws1, sp0,
    sp1, kw, keyword, ch, int32, e_string, fqn,
};
use crate::types::{spec_f_type_ref, f_type_ref};

verus! {

/// Whether a declaration with the keyword `k` stands at the start of `s`:
/// behind an optional annotation block and any white space, the letters of
/// the keyword follow.
pub open spec fn spec_starts_declaration(k: Keyword, s: Seq<char>) -> bool {
    Cursor::At(spec_opt_annotation_block(s).0).ws0().kw(k) is At
}

/// Tells whether a declaration with the keyword `k` stands at the start of
/// `s`.
pub fn starts_declaration(k: Keyword, s: &str) -> (r: bool)
    ensures
        r == spec_starts_declaration(k, s@),
{
    let (s0, _) = opt_annotation_block(s);
    let s0 = ws0(s0);
    kw(k, s0).is_ok()
}

/// The base of a declaration, where one is named: `extends` and a qualified
/// name, between white space.
pub open spec fn spec_opt_extends(s: Seq<char>) -> (Seq<char>, Option<Seq<char>>) {
    match Cursor::At(s).ws1().kw(Keyword::Extends).ws1() {
        Cursor::Failed(_) => (s, None),
        Cursor::At(s1) => match spec_fqn(s1) {
            Ok((rest, base)) => (rest, Some(base)),
            Err(_) => (s, None),
        },
    }
}

/// Reads the base of a declaration where one is named.
pub fn opt_extends(s: &str) -> (r: (&str, Option<String>))
    ensures
        r.0@ == spec_opt_extends(s@).0,
        r.1.deep_view() == spec_opt_extends(s@).1,
        r.0@.len() <= s@.len(),
{
    let s1 = match ws1(s) {
        Ok(rest) => rest,
        Err(_) => { return (s, None); },
    };
    let s1 = match kw(Keyword::Extends, s1) {
        Ok(rest) => rest,
        Err(_) => { return (s, None); },
    };
    let s1 = match ws1(s1) {
        Ok(rest) => rest,
        Err(_) => { return (s, None); },
    };
    match fqn(s1) {
        Ok((rest, base)) => (rest, Some(base.to_string())),
        Err(_) => (s, None),
    }
}

/// A flag: the keyword `k` as a whole word behind any white space, where it
/// is there.
pub open spec fn spec_opt_flag(k: Keyword, s: Seq<char>) -> (Seq<char>, bool) {
    match Cursor::At(s).ws0().word(k) {
        Cursor::At(rest) => (rest, true),
        Cursor::Failed(_) => (s, false),
    }
}

/// Reads the flag `k` where it is there.
pub fn opt_flag(k: Keyword, s: &str) -> (r: (&str, bool))
    ensures
        r.0@ == spec_opt_flag(k, s@).0,
        r.1 == spec_opt_flag(k, s@).1,
        r.0@.len() <= s@.len(),
{
    match keyword(k, ws0(s)) {
        Ok(rest) => (rest, true),
        Err(_) => (s, false),
    }
}

/// The value written for an enumerator, where one is: `=` and a number.
pub open spec fn spec_opt_value(s: Seq<char>) -> (Seq<char>, Option<i32>) {
    match Cursor::At(s).sp0().ch('=').sp0() {
        Cursor::Failed(_) => (s, None),
        Cursor::At(s1) => match spec_int32(s1) {
            Ok((rest, value)) => (rest, Some(value)),
            Err(_) => (s, None),
        },
    }
}

/// Reads the value written for an enumerator, where one is.
pub fn opt_value(s: &str) -> (r: (&str, Option<i32>))
    ensures
        r.0@ == spec_opt_value(s@).0,
        r.1 == spec_opt_value(s@).1,
        r.0@.len() <= s@.len(),
{
    let s1 = sp0(s);
    let s1 = match ch('=', s1) {
        Ok(rest) => rest,
        Err(_) => { return (s, None); },
    };
    let s1 = sp0(s1);
    match int32(s1) {
        Ok((rest, value)) => (rest, Some(value)),
        Err(_) => (s, None),
    }
}

/// An enumerator: an optional annotation block, a name, and an optional
/// value.
#[verifier::opaque]
pub open spec fn spec_f_enumerator(s: Seq<char>) -> SpecParsed<FEnumeratorView> {
    let (s0, comment) = spec_opt_annotation_block(s);
    match spec_e_string(spec_ws0(s0)) {
        Err(e) => Err(e),
        Ok((s1, name)) => Ok(
            (spec_opt_value(s1).0, FEnumeratorView { name, comment, value: spec_opt_value(s1).1 }),
        ),
    }
}

/// Reads an enumerator.
pub fn f_enumerator(s: &str) -> (r: Parsed<FEnumerator>)
    ensures
        agrees(r, spec_f_enumerator(s@)),
        advances(r, s@),
{
    proof {
        reveal(spec_f_enumerator);
    }
    let (s0, comment) = opt_annotation_block(s);
    let s0 = ws0(s0);
    let (s1, name) = e_string(s0)?;
    let (s2, value) = opt_value(s1);
    Ok((s2, FEnumerator { name: name.to_string(), comment, value }))
}

/// The enumerators that stand at the start of `s`, and what is left behind
/// them.
#[verifier::opaque]
pub open spec fn spec_enumerators(s: Seq<char>) -> (Seq<char>, Seq<FEnumeratorView>)
    decreases s.len(),
{
    match spec_f_enumerator(s) {
        Ok((rest, first)) => if rest.len() < s.len() {
            (spec_enumerators(rest).0, seq![first] + spec_enumerators(rest).1)
        } else {
            (s, Seq::empty())
        },
        Err(_) => (s, Seq::empty()),
    }
}

/// Reads enumerators for as long as one stands at the start of the text.
pub fn enumerators(s: &str) -> (r: (&str, Vec<FEnumerator>))
    ensures
        r.0@ == spec_enumerators(s@).0,
        r.1.deep_view() == spec_enumerators(s@).1,
        r.0@.len() <= s@.len(),
{
    let mut rest = s;
    let mut found: Vec<FEnumerator> = Vec::new();
    loop
        invariant
            rest@.len() <= s@.len(),
            spec_enumerators(s@).0 == spec_enumerators(rest@).0,
            spec_enumerators(s@).1 == found.deep_view() + spec_enumerators(rest@).1,
        ensures
            rest@ == spec_enumerators(s@).0,
            found.deep_view() == spec_enumerators(s@).1,
        decreases rest@.len(),
    {
        proof {
            reveal(spec_enumerators);
        }
        match f_enumerator(rest) {
            Ok((next, one)) => {
                proof {
                    let before = found.deep_view();
                    let tail = spec_enumerators(next@).1;
                    assert(before.push(one.deep_view()) + tail =~= before + (seq![
                        one.deep_view(),
                    ] + tail));
                }
                found.push(one);
                rest = next;
            },
            Err(_) => {
                assert(found.deep_view() + Seq::<FEnumeratorView>::empty() =~= found.deep_view());
                break ;
            },
        }
    }
    (rest, found)
}

/// An enumeration: `enumeration NAME [extends BASE] { enumerators }`.
#[verifier::opaque]
pub open spec fn spec_f_enumeration_type(s: Seq<char>) -> SpecParsed<FEnumerationTypeView> {
    let (s0, comment) = spec_opt_annotation_block(s);
    match Cursor::At(s0).ws0().kw(Keyword::EnumerationType).sp1() {
        Cursor::Failed(e) => Err(e),
        Cursor::At(s1) => match spec_e_string(s1) {
            Err(e) => Err(e),
            Ok((s2, name)) => {
                let (s3, base) = spec_opt_extends(s2);
                match Cursor::At(s3).ws0().ch('{') {
                    Cursor::Failed(e) => Err(e),
                    Cursor::At(s4) => yield_at(
                        Cursor::At(spec_enumerators(s4).0).ws0().ch('}'),
                        FEnumerationTypeView {
                            name,
                            comment,
                            enumerators: spec_enumerators(s4).1,
                            base,
                        },
                    ),
                }
            },
        },
    }
}

/// Reads an enumeration.
pub fn f_enumeration_type(s: &str) -> (r: Parsed<FEnumerationType>)
    ensures
        agrees(r, spec_f_enumeration_type(s@)),
        advances(r, s@),
{
    proof {
        reveal(spec_f_enumeration_type);
    }
    let (s0, comment) = opt_annotation_block(s);
    let s0 = ws0(s0);
    let s0 = kw(Keyword::EnumerationType, s0)?;
    let s1 = sp1(s0)?;
    let (s2, name) = e_string(s1)?;
    let (s3, base) = opt_extends(s2);
    let s3 = ws0(s3);
    let s4 = ch('{', s3)?;
    let (s5, enumerators) = enumerators(s4);
    let s5 = ws0(s5);
    let s6 = ch('}', s5)?;
    Ok((s6, FEnumerationType { name: name.to_string(), comment, enumerators, base }))
}

/// A struct: `struct NAME [extends BASE] [polymorphic] { fields }`.
#[verifier::opaque]
pub open spec fn spec_f_struct_type(s: Seq<char>) -> SpecParsed<FStructTypeView> {
    let (s0, comment) = spec_opt_annotation_block(s);
    match Cursor::At(s0).ws0().kw(Keyword::StructType).sp1() {
        Cursor::Failed(e) => Err(e),
        Cursor::At(s1) => match spec_e_string(s1) {
            Err(e) => Err(e),
            Ok((s2, name)) => {
                let (s3, base) = spec_opt_extends(s2);
                let (s4, polymorphic) = spec_opt_flag(Keyword::Polymorphic, s3);
                match Cursor::At(s4).ws0().ch('{') {
                    Cursor::Failed(e) => Err(e),
                    Cursor::At(s5) => yield_at(
                        Cursor::At(spec_fields(s5).0).ws0().ch('}'),
                        FStructTypeView {
                            name,
                            comment,
                            elements: spec_fields(s5).1,
                            base,
                            polymorphic: if polymorphic {
                                Some(true)
                            } else {
                                None
                            },
                        },
                    ),
                }
            },
        },
    }
}

/// Reads a struct.
pub fn f_struct_type(s: &str) -> (r: Parsed<FStructType>)
    ensures
        agrees(r, spec_f_struct_type(s@)),
        advances(r, s@),
{
    proof {
        reveal(spec_f_struct_type);
    }
    let (s0, comment) = opt_annotation_block(s);
    let s0 = ws0(s0);
    let s0 = kw(Keyword::StructType, s0)?;
    let s1 = sp1(s0)?;
    let (s2, name) = e_string(s1)?;
    let (s3, base) = opt_extends(s2);
    let (s4, is_polymorphic) = opt_flag(Keyword::Polymorphic, s3);
    let s4 = ws0(s4);
    let s5 = ch('{', s4)?;
    let (s6, elements) = fields(s5);
    let s6 = ws0(s6);
    let s7 = ch('}', s6)?;
    let polymorphic = if is_polymorphic {
        Some(true)
    } else {
        None
    };
    Ok((s7, FStructType { name: name.to_string(), comment, elements, base, polymorphic }))
}

/// A union: `union NAME [extends BASE] { fields }`.
#[verifier::opaque]
pub open spec fn spec_f_union_type(s: Seq<char>) -> SpecParsed<FUnionTypeView> {
    let (s0, comment) = spec_opt_annotation_block(s);
    match Cursor::At(s0).ws0().kw(Keyword::UnionType).sp1() {
        Cursor::Failed(e) => Err(e),
        Cursor::At(s1) => match spec_e_string(s1) {
            Err(e) => Err(e),
            Ok((s2, name)) => {
                let (s3, base) = spec_opt_extends(s2);
                match Cursor::At(s3).ws0().ch('{') {
                    Cursor::Failed(e) => Err(e),
                    Cursor::At(s4) => yield_at(
                        Cursor::At(spec_fields(s4).0).ws0().ch('}'),
                        FUnionTypeView { name, comment, elements: spec_fields(s4).1, base },
                    ),
                }
            },
        },
    }
}

/// Reads a union.
pub fn f_union_type(s: &str) -> (r: Parsed<FUnionType>)
    ensures
        agrees(r, spec_f_union_type(s@)),
        advances(r, s@),
{
    proof {
        reveal(spec_f_union_type);
    }
    let (s0, comment) = opt_annotation_block(s);
    let s0 = ws0(s0);
    let s0 = kw(Keyword::UnionType, s0)?;
    let s1 = sp1(s0)?;
    let (s2, name) = e_string(s1)?;
    let (s3, base) = opt_extends(s2);
    let s3 = ws0(s3);
    let s4 = ch('{', s3)?;
    let (s5, elements) = fields(s4);
    let s5 = ws0(s5);
    let s6 = ch('}', s5)?;
    Ok((s6, FUnionType { name: name.to_string(), comment, elements, base }))
}

/// A named array: `array NAME of TYPE`.
#[verifier::opaque]
pub open spec fn spec_f_array_type(s: Seq<char>) -> SpecParsed<FArrayTypeView> {
    let (s0, comment) = spec_opt_annotation_block(s);
    match Cursor::At(s0).ws0().kw(Keyword::ArrayType).sp1() {
        Cursor::Failed(e) => Err(e),
        Cursor::At(s1) => match spec_e_string(s1) {
            Err(e) => Err(e),
            Ok((s2, name)) => match Cursor::At(s2).sp1().kw(Keyword::Of).sp1() {
                Cursor::Failed(e) => Err(e),
                Cursor::At(s3) => match spec_f_type_ref(s3) {
                    Err(e) => Err(e),
                    Ok((s4, element_type)) => Ok(
                        (s4, FArrayTypeView { name, comment, element_type }),
                    ),
                },
            },
        },
    }
}

/// Reads a named array.
pub fn f_array_type(s: &str) -> (r: Parsed<FArrayType>)
    ensures
        agrees(r, spec_f_array_type(s@)),
        advances(r, s@),
{
    proof {
        reveal(spec_f_array_type);
    }
    let (s0, comment) = opt_annotation_block(s);
    let s0 = ws0(s0);
    let s0 = kw(Keyword::ArrayType, s0)?;
    let s1 = sp1(s0)?;
    let (s2, name) = e_string(s1)?;
    let s2 = sp1(s2)?;
    let s2 = kw(Keyword::Of, s2)?;
    let s3 = sp1(s2)?;
    let (s4, element_type) = f_type_ref(s3)?;
    Ok((s4, FArrayType { name: name.to_string(), comment, element_type }))
}

/// A named map: `map NAME { KEY to VALUE }`.
#[verifier::opaque]
pub open spec fn spec_f_map_type(s: Seq<char>) -> SpecParsed<FMapTypeView> {
    let (s0, comment) = spec_opt_annotation_block(s);
    match Cursor::At(s0).ws0().kw(Keyword::MapType).sp1() {
        Cursor::Failed(e) => Err(e),
        Cursor::At(s1) => match spec_e_string(s1) {
            Err(e) => Err(e),
            Ok((s2, name)) => match Cursor::At(s2).ws0().ch('{').ws0() {
                Cursor::Failed(e) => Err(e),
                Cursor::At(s3) => match spec_f_type_ref(s3) {
                    Err(e) => Err(e),
                    Ok((s4, key_type)) => match Cursor::At(s4).ws1().kw(Keyword::To).ws1() {
                        Cursor::Failed(e) => Err(e),
                        Cursor::At(s5) => match spec_f_type_ref(s5) {
                            Err(e) => Err(e),
                            Ok((s6, value_type)) => yield_at(
                                Cursor::At(s6).ws0().ch('}'),
                                FMapTypeView { name, comment, key_type, value_type },
                            ),
                        },
                    },
                },
            },
        },
    }
}

/// Reads a named map.
pub fn f_map_type(s: &str) -> (r: Parsed<FMapType>)
    ensures
        agrees(r, spec_f_map_type(s@)),
        advances(r, s@),
{
    proof {
        reveal(spec_f_map_type);
    }
    let (s0, comment) = opt_annotation_block(s);
    let s0 = ws0(s0);
    let s0 = kw(Keyword::MapType, s0)?;
    let s1 = sp1(s0)?;
    let (s2, name) = e_string(s1)?;
    let s2 = ws0(s2);
    let s2 = ch('{', s2)?;
    let s3 = ws0(s2);
    let (s4, key_type) = f_type_ref(s3)?;
    let s4 = ws1(s4)?;
    let s4 = kw(Keyword::To, s4)?;
    let s5 = ws1(s4)?;
    let (s6, value_type) = f_type_ref(s5)?;
    let s6 = ws0(s6);
    let s7 = ch('}', s6)?;
    Ok((s7, FMapType { name: name.to_string(), comment, key_type, value_type }))
}

/// A type alias: `typedef NAME is TYPE`.
#[verifier::opaque]
pub open spec fn spec_f_type_def(s: Seq<char>) -> SpecParsed<FTypeDefView> {
    let (s0, comment) = spec_opt_annotation_block(s);
    match Cursor::At(s0).ws0().kw(Keyword::TypeDef).sp1() {
        Cursor::Failed(e) => Err(e),
        Cursor::At(s1) => match spec_e_string(s1) {
            Err(e) => Err(e),
            Ok((s2, name)) => match Cursor::At(s2).sp1().kw(Keyword::Is).sp1() {
                Cursor::Failed(e) => Err(e),
                Cursor::At(s3) => match spec_f_type_ref(s3) {
                    Err(e) => Err(e),
                    Ok((s4, actual_type)) => Ok((s4, FTypeDefView { name, comment, actual_type })),
                },
            },
        },
    }
}

/// Reads a type alias.
pub fn f_type_def(s: &str) -> (r: Parsed<FTypeDef>)
    ensures
        agrees(r, spec_f_type_def(s@)),
        advances(r, s@),
{
    proof {
        reveal(spec_f_type_def);
    }
    let (s0, comment) = opt_annotation_block(s);
    let s0 = ws0(s0);
    let s0 = kw(Keyword::TypeDef, s0)?;
    let s1 = sp1(s0)?;
    let (s2, name) = e_string(s1)?;
    let s2 = sp1(s2)?;
    let s2 = kw(Keyword::Is, s2)?;
    let s3 = sp1(s2)?;
    let (s4, actual_type) = f_type_ref(s3)?;
    Ok((s4, FTypeDef { name: name.to_string(), comment, actual_type }))
}

/// What a parse of one kind of type definition makes of a type definition.
pub open spec fn spec_as_type<V>(
    parsed: SpecParsed<V>,
    wrap: spec_fn(V) -> FTypeView,
) -> SpecParsed<FTypeView> {
    match parsed {
        Ok((rest, v)) => Ok((rest, wrap(v))),
        Err(e) => Err(e),
    }
}

/// A type definition: the keyword at its start decides which kind is read.
/// Where none of the six keywords stands there, it fails at the start.
#[verifier::opaque]
pub open spec fn spec_f_type(s: Seq<char>) -> SpecParsed<FTypeView> {
    if spec_starts_declaration(Keyword::StructType, s) {
        spec_as_type(spec_f_struct_type(s), |v| FTypeView::StructType(v))
    } else if spec_starts_declaration(Keyword::UnionType, s) {
        spec_as_type(spec_f_union_type(s), |v| FTypeView::UnionType(v))
    } else if spec_starts_declaration(Keyword::EnumerationType, s) {
        spec_as_type(spec_f_enumeration_type(s), |v| FTypeView::EnumerationType(v))
    } else if spec_starts_declaration(Keyword::ArrayType, s) {
        spec_as_type(spec_f_array_type(s), |v| FTypeView::ArrayType(v))
    } else if spec_starts_declaration(Keyword::MapType, s) {
        spec_as_type(spec_f_map_type(s), |v| FTypeView::MapType(v))
    } else if spec_starts_declaration(Keyword::TypeDef, s) {
        spec_as_type(spec_f_type_def(s), |v| FTypeView::TypeDef(v))
    } else {
        Err(SyntaxErrorView { input: s, expected: Expected::Declaration })
    }
}

/// Reads a type definition.
pub fn f_type(s: &str) -> (r: Parsed<FType>)
    ensures
        agrees(r, spec_f_type(s@)),
        advances(r, s@),
{
    proof {
        reveal(spec_f_type);
    }
    if starts_declaration(Keyword::StructType, s) {
        let (rest, v) = f_struct_type(s)?;
        Ok((rest, FType::StructType(v)))
    } else if starts_declaration(Keyword::UnionType, s) {
        let (rest, v) = f_union_type(s)?;
        Ok((rest, FType::UnionType(v)))
    } else if starts_declaration(Keyword::EnumerationType, s) {
        let (rest, v) = f_enumeration_type(s)?;
        Ok((rest, FType::EnumerationType(v)))
    } else if starts_declaration(Keyword::ArrayType, s) {
        let (rest, v) = f_array_type(s)?;
        Ok((rest, FType::ArrayType(v)))
    } else if starts_declaration(Keyword::MapType, s) {
        let (rest, v) = f_map_type(s)?;
        Ok((rest, FType::MapType(v)))
    } else if starts_declaration(Keyword::TypeDef, s) {
        let (rest, v) = f_type_def(s)?;
        Ok((rest, FType::TypeDef(v)))
    } else {
        Err(error_at(s, Expected::Declaration))
    }
}

/// Whether a type definition starts at the start of `s`: one of its six
/// keywords stands there.
pub open spec fn spec_starts_type(s: Seq<char>) -> bool {
    ||| spec_starts_declaration(Keyword::StructType, s)
    ||| spec_starts_declaration(Keyword::UnionType, s)
    ||| spec_starts_declaration(Keyword::EnumerationType, s)
    ||| spec_starts_declaration(Keyword::ArrayType, s)
    ||| spec_starts_declaration(Keyword::MapType, s)
    ||| spec_starts_declaration(Keyword::TypeDef, s)
}

/// Tells whether a type definition starts at the start of `s`.
pub fn starts_type(s: &str) -> (r: bool)
    ensures
        r == spec_starts_type(s@),
{
    starts_declaration(Keyword::StructType, s) || starts_declaration(Keyword::UnionType, s)
        || starts_declaration(Keyword::EnumerationType, s) || starts_declaration(
        Keyword::ArrayType,
        s,
    ) || starts_declaration(Keyword::MapType, s) || starts_declaration(Keyword::TypeDef, s)
}

/// The type definitions at the start of `s`, and what is left behind them. They
/// go on for as long as a type definition starts; one that starts and cannot be read
/// fails the whole.
#[verifier::opaque]
pub open spec fn spec_types(s: Seq<char>) -> SpecParsed<Seq<FTypeView>>
    decreases s.len(),
{
    if !spec_starts_type(s) {
        Ok((s, Seq::empty()))
    } else {
        match spec_f_type(s) {
            Err(e) => Err(e),
            Ok((rest, first)) => if rest.len() < s.len() {
                spec_behind(seq![first], spec_types(rest))
            } else {
                Ok((s, Seq::empty()))
            },
        }
    }
}

/// Reads type definitions for as long as one starts.
pub fn types(s: &str) -> (r: Parsed<Vec<FType>>)
    ensures
        agrees(r, spec_types(s@)),
        within(r, s@),
{
    let mut rest = s;
    let mut found: Vec<FType> = Vec::new();
    assert(found.deep_view() =~= Seq::<FTypeView>::empty());
    loop
        invariant
            rest@.len() <= s@.len(),
            spec_types(s@) == spec_behind(found.deep_view(), spec_types(rest@)),
        decreases rest@.len(),
    {
        proof {
            reveal(spec_types);
        }
        if !starts_type(rest) {
            assert(found.deep_view() + Seq::<FTypeView>::empty() =~= found.deep_view());
            return Ok((rest, found));
        }
        match f_type(rest) {
            Err(e) => {
                return Err(e);
            },
            Ok((next, one)) => {
                proof {
                    let before = found.deep_view();
                    match spec_types(next@) {
                        Ok((_, tail)) => {
                            assert(before.push(one.deep_view()) + tail =~= before + (seq![
                                one.deep_view(),
                            ] + tail));
                        },
                        Err(_) => {},
                    }
                }
                let ghost before = found.deep_view();
                found.push(one);
                assert(found.deep_view() =~= before.push(one.deep_view()));
                rest = next;
            },
        }
    }
}

} // verus!
