//! The declarations that interfaces and types are made of: versions,
//! annotations, arguments and fields.

use vstd::prelude::*;
use crate::ast::{
    FAnnotation, FAnnotationBlock, FAnnotationBlockView, FAnnotationType, FAnnotationView,
    FArgument, FArgumentView, FField, FFieldView, FVersion,
};
use crate::chars::{CharClass, span};
use crate::lexer::{
    spec_sp0, spec_ws0, Cursor, Keyword, Parsed, Skipped, SpecParsed, agrees, cursor_of, advances,
    yield_at, spec_uint16, spec_word, spec_e_string, within, ws0, ws1, sp0, sp1, kw, ch, eol,
    uint16, word, e_string, take0,
};
use crate::scan::starts_with;
use crate::types::{spec_f_type_ref, f_type_ref};

verus! {

/// A version block: `version { major N minor N }` and a line ending.
#[verifier::opaque]
pub open spec fn spec_f_version(s: Seq<char>) -> SpecParsed<FVersion> {
    match Cursor::At(s).ws0().kw(Keyword::Version).ws1().ch('{').ws1().kw(Keyword::Major).ws1() {
        Cursor::Failed(e) => Err(e),
        Cursor::At(s1) => match spec_uint16(s1) {
            Err(e) => Err(e),
            Ok((s2, major)) => match Cursor::At(s2).ws1().kw(Keyword::Minor).ws1() {
                Cursor::Failed(e) => Err(e),
                Cursor::At(s3) => match spec_uint16(s3) {
                    Err(e) => Err(e),
                    Ok((s4, minor)) => yield_at(
                        Cursor::At(s4).ws1().ch('}').eol(),
                        FVersion { major, minor },
                    ),
                },
            },
        },
    }
}

/// Reads a version block.
pub fn f_version(s: &str) -> (r: Parsed<FVersion>)
    ensures
        agrees(r, spec_f_version(s@)),
        advances(r, s@),
{
    proof {
        reveal(spec_f_version);
    }
    let s1 = ws0(s);
    let s1 = kw(Keyword::Version, s1)?;
    let s1 = ws1(s1)?;
    let s1 = ch('{', s1)?;
    let s1 = ws1(s1)?;
    let s1 = kw(Keyword::Major, s1)?;
    let s1 = ws1(s1)?;
    let (s2, major) = uint16(s1)?;
    let s2 = ws1(s2)?;
    let s2 = kw(Keyword::Minor, s2)?;
    let s3 = ws1(s2)?;
    let (s4, minor) = uint16(s3)?;
    let s4 = ws1(s4)?;
    let s4 = ch('}', s4)?;
    let s5 = eol(s4)?;
    Ok((s5, FVersion { major, minor }))
}

/// A version block, where one stands at the start of `s`.
pub open spec fn spec_opt_version(s: Seq<char>) -> (Seq<char>, Option<FVersion>) {
    match spec_f_version(s) {
        Ok((rest, version)) => (rest, Some(version)),
        Err(_) => (s, None),
    }
}

/// Reads a version block where one stands at the start of `s`, and takes
/// nothing where none does.
pub fn opt_version(s: &str) -> (r: (&str, Option<FVersion>))
    ensures
        r.0@ == spec_opt_version(s@).0,
        r.1 == spec_opt_version(s@).1,
        r.0@.len() <= s@.len(),
{
    match f_version(s) {
        Ok((rest, version)) => (rest, Some(version)),
        Err(_) => (s, None),
    }
}

impl FAnnotationType {
    /// The tag of the kind as it is written behind `@`.
    pub open spec fn spec_text(self) -> Seq<char> {
        match self {
            FAnnotationType::Description => "description"@,
            FAnnotationType::Author => "author"@,
            FAnnotationType::Experimental => "experimental"@,
            FAnnotationType::Deprecated => "deprecated"@,
            FAnnotationType::See => "see"@,
            FAnnotationType::Param => "param"@,
            FAnnotationType::HighVolume => "high-volume"@,
            FAnnotationType::HighFrequency => "high-frequency"@,
            FAnnotationType::SourceUri => "source-uri"@,
            FAnnotationType::SourceAlias => "source-alias"@,
            FAnnotationType::Details => "details"@,
        }
    }

    /// The tag of the kind as it is written behind `@`.
    pub fn text(self) -> (t: &'static str)
        ensures
            t@ == self.spec_text(),
    {
        match self {
            FAnnotationType::Description => "description",
            FAnnotationType::Author => "author",
            FAnnotationType::Experimental => "experimental",
            FAnnotationType::Deprecated => "deprecated",
            FAnnotationType::See => "see",
            FAnnotationType::Param => "param",
            FAnnotationType::HighVolume => "high-volume",
            FAnnotationType::HighFrequency => "high-frequency",
            FAnnotationType::SourceUri => "source-uri",
            FAnnotationType::SourceAlias => "source-alias",
            FAnnotationType::Details => "details",
        }
    }
}

/// The kind `kind` where `s` starts with its tag as a whole word, and
/// `otherwise` where it does not.
pub open spec fn spec_kind_word(
    kind: FAnnotationType,
    s: Seq<char>,
    otherwise: SpecParsed<Option<FAnnotationType>>,
) -> SpecParsed<Option<FAnnotationType>> {
    match spec_word(kind.spec_text(), s) {
        Some(rest) => Ok((rest, Some(kind))),
        None => otherwise,
    }
}

/// The tag of an annotation: one of the known kinds as a whole word, or else
/// any identifier, which is of no known kind.
#[verifier::opaque]
pub open spec fn spec_annotation_tag(s: Seq<char>) -> SpecParsed<Option<FAnnotationType>> {
    let unknown = match spec_e_string(s) {
        Ok((rest, _)) => Ok((rest, None)),
        Err(e) => Err(e),
    };
    let from_details = spec_kind_word(FAnnotationType::Details, s, unknown);
    let from_source_alias = spec_kind_word(FAnnotationType::SourceAlias, s, from_details);
    let from_source_uri = spec_kind_word(FAnnotationType::SourceUri, s, from_source_alias);
    let from_high_frequency = spec_kind_word(FAnnotationType::HighFrequency, s, from_source_uri);
    let from_high_volume = spec_kind_word(FAnnotationType::HighVolume, s, from_high_frequency);
    let from_param = spec_kind_word(FAnnotationType::Param, s, from_high_volume);
    let from_see = spec_kind_word(FAnnotationType::See, s, from_param);
    let from_deprecated = spec_kind_word(FAnnotationType::Deprecated, s, from_see);
    let from_experimental = spec_kind_word(FAnnotationType::Experimental, s, from_deprecated);
    let from_author = spec_kind_word(FAnnotationType::Author, s, from_experimental);
    spec_kind_word(FAnnotationType::Description, s, from_author)
}

/// Reads the tag of the kind `kind` as a whole word.
fn kind_word<'a>(kind: FAnnotationType, s: &'a str) -> (r: Option<
    (&'a str, Option<FAnnotationType>),
>)
    ensures
        match spec_word(kind.spec_text(), s@) {
            Some(rest) => r is Some && r->Some_0.0@ == rest && r->Some_0.1 == Some(kind),
            None => r is None,
        },
        r is Some ==> r->Some_0.0@.len() <= s@.len(),
{
    match word(kind.text(), s) {
        Some(rest) => Some((rest, Some(kind))),
        None => None,
    }
}

/// Reads the tag of an annotation.
pub fn annotation_tag(s: &str) -> (r: Parsed<Option<FAnnotationType>>)
    ensures
        agrees(r, spec_annotation_tag(s@)),
        within(r, s@),
{
    proof {
        reveal(spec_annotation_tag);
    }
    if let Some(found) = kind_word(FAnnotationType::Description, s) {
        return Ok(found);
    }
    if let Some(found) = kind_word(FAnnotationType::Author, s) {
        return Ok(found);
    }
    if let Some(found) = kind_word(FAnnotationType::Experimental, s) {
        return Ok(found);
    }
    if let Some(found) = kind_word(FAnnotationType::Deprecated, s) {
        return Ok(found);
    }
    if let Some(found) = kind_word(FAnnotationType::See, s) {
        return Ok(found);
    }
    if let Some(found) = kind_word(FAnnotationType::Param, s) {
        return Ok(found);
    }
    if let Some(found) = kind_word(FAnnotationType::HighVolume, s) {
        return Ok(found);
    }
    if let Some(found) = kind_word(FAnnotationType::HighFrequency, s) {
        return Ok(found);
    }
    if let Some(found) = kind_word(FAnnotationType::SourceUri, s) {
        return Ok(found);
    }
    if let Some(found) = kind_word(FAnnotationType::SourceAlias, s) {
        return Ok(found);
    }
    if let Some(found) = kind_word(FAnnotationType::Details, s) {
        return Ok(found);
    }
    match e_string(s) {
        Ok((rest, _)) => Ok((rest, None)),
        Err(e) => Err(e),
    }
}

/// One annotation: `@`, a tag, `:` and the text up to the next `@` or `*`.
#[verifier::opaque]
pub open spec fn spec_annotation(s: Seq<char>) -> SpecParsed<FAnnotationView> {
    match Cursor::At(s).ws0().ch('@') {
        Cursor::Failed(e) => Err(e),
        Cursor::At(s1) => match spec_annotation_tag(s1) {
            Err(e) => Err(e),
            Ok((s2, kind)) => match Cursor::At(s2).sp0().ch(':') {
                Cursor::Failed(e) => Err(e),
                Cursor::At(s3) => Ok(
                    (
                        s3.skip(span(s3, CharClass::AnnotationText) as int),
                        FAnnotationView {
                            kind,
                            comment: Some(s3.take(span(s3, CharClass::AnnotationText) as int)),
                        },
                    ),
                ),
            },
        },
    }
}

/// Reads one annotation.
pub fn annotation(s: &str) -> (r: Parsed<FAnnotation>)
    ensures
        agrees(r, spec_annotation(s@)),
        advances(r, s@),
{
    proof {
        reveal(spec_annotation);
    }
    let s1 = ws0(s);
    let s1 = ch('@', s1)?;
    let (s2, kind) = annotation_tag(s1)?;
    let s2 = sp0(s2);
    let s3 = ch(':', s2)?;
    let (rest, text) = take0(CharClass::AnnotationText, s3);
    Ok((rest, FAnnotation { kind, comment: Some(text.to_string()) }))
}

/// The annotations that stand at the start of `s`, and what is left behind
/// them.
#[verifier::opaque]
pub open spec fn spec_annotations(s: Seq<char>) -> (Seq<char>, Seq<FAnnotationView>)
    decreases s.len(),
{
    match spec_annotation(s) {
        Ok((rest, first)) => if rest.len() < s.len() {
            (spec_annotations(rest).0, seq![first] + spec_annotations(rest).1)
        } else {
            (s, Seq::empty())
        },
        Err(_) => (s, Seq::empty()),
    }
}

/// Reads annotations for as long as one stands at the start of the text.
pub fn annotations(s: &str) -> (r: (&str, Vec<FAnnotation>))
    ensures
        r.0@ == spec_annotations(s@).0,
        r.1.deep_view() == spec_annotations(s@).1,
        r.0@.len() <= s@.len(),
{
    let mut rest = s;
    let mut found: Vec<FAnnotation> = Vec::new();
    loop
        invariant
            rest@.len() <= s@.len(),
            spec_annotations(s@).0 == spec_annotations(rest@).0,
            spec_annotations(s@).1 == found.deep_view() + spec_annotations(rest@).1,
        ensures
            rest@ == spec_annotations(s@).0,
            found.deep_view() == spec_annotations(s@).1,
        decreases rest@.len(),
    {
        proof {
            reveal(spec_annotations);
        }
        match annotation(rest) {
            Ok((next, one)) => {
                proof {
                    let before = found.deep_view();
                    let tail = spec_annotations(next@).1;
                    assert(before.push(one.deep_view()) + tail =~= before + (seq![
                        one.deep_view(),
                    ] + tail));
                }
                found.push(one);
                rest = next;
            },
            Err(_) => {
                assert(found.deep_view() + Seq::<FAnnotationView>::empty() =~= found.deep_view());
                break ;
            },
        }
    }
    (rest, found)
}

/// An annotation block: `<**`, annotations, and `**>`.
#[verifier::opaque]
pub open spec fn spec_annotation_block(s: Seq<char>) -> SpecParsed<FAnnotationBlockView> {
    match Cursor::At(s).ws0().ch('<').ch('*').ch('*') {
        Cursor::Failed(e) => Err(e),
        Cursor::At(s1) => yield_at(
            Cursor::At(spec_annotations(s1).0).ws0().ch('*').ch('*').ch('>'),
            FAnnotationBlockView { elements: spec_annotations(s1).1 },
        ),
    }
}

/// Reads an annotation block.
pub fn annotation_block(s: &str) -> (r: Parsed<FAnnotationBlock>)
    ensures
        agrees(r, spec_annotation_block(s@)),
        advances(r, s@),
{
    proof {
        reveal(spec_annotation_block);
    }
    let s1 = ws0(s);
    let s1 = ch('<', s1)?;
    let s1 = ch('*', s1)?;
    let s1 = ch('*', s1)?;
    let (s2, elements) = annotations(s1);
    let s2 = ws0(s2);
    let s2 = ch('*', s2)?;
    let s2 = ch('*', s2)?;
    let s3 = ch('>', s2)?;
    Ok((s3, FAnnotationBlock { elements }))
}

/// The annotation block in front of a declaration, where there is one.
/// Where there is none, nothing is taken, white space included.
pub open spec fn spec_opt_annotation_block(s: Seq<char>) -> (
    Seq<char>,
    Option<FAnnotationBlockView>,
) {
    match spec_annotation_block(s) {
        Ok((rest, block)) => (rest, Some(block)),
        Err(_) => (s, None),
    }
}

/// Reads the annotation block in front of a declaration, where there is one.
pub fn opt_annotation_block(s: &str) -> (r: (&str, Option<FAnnotationBlock>))
    ensures
        r.0@ == spec_opt_annotation_block(s@).0,
        r.1.deep_view() == spec_opt_annotation_block(s@).1,
        r.0@.len() <= s@.len(),
{
    match annotation_block(s) {
        Ok((rest, block)) => (rest, Some(block)),
        Err(_) => (s, None),
    }
}

/// The array marker `[]` behind a name, where there is one.
pub open spec fn spec_array_marker(s: Seq<char>) -> (Seq<char>, Option<Seq<char>>) {
    match Cursor::At(s).ch('[').ch(']') {
        Cursor::At(rest) => (rest, Some(seq!['[', ']'])),
        Cursor::Failed(_) => (s, None),
    }
}

/// Reads the array marker `[]` where there is one.
pub fn array_marker(s: &str) -> (r: (&str, Option<String>))
    ensures
        r.0@ == spec_array_marker(s@).0,
        r.1.deep_view() == spec_array_marker(s@).1,
        r.0@.len() <= s@.len(),
{
    let opened = match ch('[', s) {
        Ok(rest) => rest,
        Err(_) => { return (s, None); },
    };
    match ch(']', opened) {
        Ok(rest) => {
            proof {
                reveal_strlit("[]");
                assert("[]"@ =~= seq!['[', ']']);
            }
            (rest, Some("[]".to_string()))
        },
        Err(_) => (s, None),
    }
}

impl Cursor {
    /// The end of a declaration: a line ending, or nothing at all where the
    /// closing brace of the block follows.
    pub open spec fn end_of_declaration(self) -> Cursor {
        match self {
            Cursor::At(s) => if starts_with(s, '}') {
                Cursor::At(s)
            } else {
                Cursor::At(s).eol()
            },
            Cursor::Failed(e) => Cursor::Failed(e),
        }
    }
}

/// Reads the end of a declaration.
pub fn end_of_declaration(s: &str) -> (r: Skipped)
    ensures
        cursor_of(r) == Cursor::At(s@).end_of_declaration(),
        r is Ok ==> r->Ok_0@.len() <= s@.len(),
{
    match ch('}', s) {
        Ok(_) => Ok(s),
        Err(_) => eol(s),
    }
}

/// The annotation block behind a declaration, where there is one on the
/// same line: behind any blanks, a block that starts with `<`.
pub open spec fn spec_trailing_annotation_block(s: Seq<char>) -> (
    Seq<char>,
    Option<FAnnotationBlockView>,
) {
    if starts_with(spec_sp0(s), '<') {
        match spec_annotation_block(spec_sp0(s)) {
            Ok((rest, block)) => (rest, Some(block)),
            Err(_) => (s, None),
        }
    } else {
        (s, None)
    }
}

/// Reads the annotation block behind a declaration, where there is one on
/// the same line.
pub fn trailing_annotation_block(s: &str) -> (r: (&str, Option<FAnnotationBlock>))
    ensures
        r.0@ == spec_trailing_annotation_block(s@).0,
        r.1.deep_view() == spec_trailing_annotation_block(s@).1,
        r.0@.len() <= s@.len(),
{
    let s1 = sp0(s);
    if ch('<', s1).is_ok() {
        match annotation_block(s1) {
            Ok((rest, block)) => (rest, Some(block)),
            Err(_) => (s, None),
        }
    } else {
        (s, None)
    }
}

/// The annotations of a declaration: those in front of it, and then those
/// behind it.
pub open spec fn spec_all_annotations(
    leading: Option<FAnnotationBlockView>,
    trailing: Option<FAnnotationBlockView>,
) -> Option<FAnnotationBlockView> {
    match (leading, trailing) {
        (Some(a), Some(b)) => Some(FAnnotationBlockView { elements: a.elements + b.elements }),
        (Some(a), None) => Some(a),
        (None, b) => b,
    }
}

/// Puts the annotations behind a declaration behind those in front of it.
pub fn all_annotations(
    leading: Option<FAnnotationBlock>,
    trailing: Option<FAnnotationBlock>,
) -> (r: Option<FAnnotationBlock>)
    ensures
        r.deep_view() == spec_all_annotations(leading.deep_view(), trailing.deep_view()),
{
    match leading {
        None => trailing,
        Some(a) => match trailing {
            None => Some(a),
            Some(b) => {
                let mut elements = a.elements;
                let mut more = b.elements;
                let ghost first = elements.deep_view();
                let ghost second = more.deep_view();
                elements.append(&mut more);
                assert(elements.deep_view() =~= first + second);
                Some(FAnnotationBlock { elements })
            },
        },
    }
}

/// An argument: an optional annotation block, a type, a name, an optional
/// array marker, an optional annotation block on the same line, and the end
/// of the declaration.
#[verifier::opaque]
pub open spec fn spec_f_argument(s: Seq<char>) -> SpecParsed<FArgumentView> {
    let (s0, leading) = spec_opt_annotation_block(s);
    match spec_f_type_ref(spec_ws0(s0)) {
        Err(e) => Err(e),
        Ok((s1, type_ref)) => match Cursor::At(s1).sp1() {
            Cursor::Failed(e) => Err(e),
            Cursor::At(s2) => match spec_e_string(s2) {
                Err(e) => Err(e),
                Ok((s3, name)) => {
                    let (s4, array) = spec_array_marker(s3);
                    let (s5, trailing) = spec_trailing_annotation_block(s4);
                    yield_at(
                        Cursor::At(s5).sp0().end_of_declaration(),
                        FArgumentView {
                            name,
                            comment: spec_all_annotations(leading, trailing),
                            type_ref,
                            array,
                        },
                    )
                },
            },
        },
    }
}

/// Reads an argument.
pub fn f_argument(s: &str) -> (r: Parsed<FArgument>)
    ensures
        agrees(r, spec_f_argument(s@)),
        advances(r, s@),
{
    proof {
        reveal(spec_f_argument);
    }
    let (s0, leading) = opt_annotation_block(s);
    let s0 = ws0(s0);
    let (s1, type_ref) = f_type_ref(s0)?;
    let s2 = sp1(s1)?;
    let (s3, name) = e_string(s2)?;
    let (s4, array) = array_marker(s3);
    let (s5, trailing) = trailing_annotation_block(s4);
    let s5 = sp0(s5);
    let s6 = end_of_declaration(s5)?;
    let comment = all_annotations(leading, trailing);
    Ok((s6, FArgument { name: name.to_string(), comment, type_ref, array }))
}

/// The arguments that stand at the start of `s`, and what is left behind
/// them.
#[verifier::opaque]
pub open spec fn spec_arguments(s: Seq<char>) -> (Seq<char>, Seq<FArgumentView>)
    decreases s.len(),
{
    match spec_f_argument(s) {
        Ok((rest, first)) => if rest.len() < s.len() {
            (spec_arguments(rest).0, seq![first] + spec_arguments(rest).1)
        } else {
            (s, Seq::empty())
        },
        Err(_) => (s, Seq::empty()),
    }
}

/// Reads arguments for as long as one stands at the start of the text.
pub fn arguments(s: &str) -> (r: (&str, Vec<FArgument>))
    ensures
        r.0@ == spec_arguments(s@).0,
        r.1.deep_view() == spec_arguments(s@).1,
        r.0@.len() <= s@.len(),
{
    let mut rest = s;
    let mut found: Vec<FArgument> = Vec::new();
    loop
        invariant
            rest@.len() <= s@.len(),
            spec_arguments(s@).0 == spec_arguments(rest@).0,
            spec_arguments(s@).1 == found.deep_view() + spec_arguments(rest@).1,
        ensures
            rest@ == spec_arguments(s@).0,
            found.deep_view() == spec_arguments(s@).1,
        decreases rest@.len(),
    {
        proof {
            reveal(spec_arguments);
        }
        match f_argument(rest) {
            Ok((next, one)) => {
                proof {
                    let before = found.deep_view();
                    let tail = spec_arguments(next@).1;
                    assert(before.push(one.deep_view()) + tail =~= before + (seq![
                        one.deep_view(),
                    ] + tail));
                }
                found.push(one);
                rest = next;
            },
            Err(_) => {
                assert(found.deep_view() + Seq::<FArgumentView>::empty() =~= found.deep_view());
                break ;
            },
        }
    }
    (rest, found)
}

/// A field: what an argument is, in a struct or a union.
#[verifier::opaque]
pub open spec fn spec_f_field(s: Seq<char>) -> SpecParsed<FFieldView> {
    match spec_f_argument(s) {
        Ok((rest, a)) => Ok(
            (
                rest,
                FFieldView {
                    name: a.name,
                    comment: a.comment,
                    type_ref: a.type_ref,
                    array: a.array,
                },
            ),
        ),
        Err(e) => Err(e),
    }
}

/// Reads a field.
pub fn f_field(s: &str) -> (r: Parsed<FField>)
    ensures
        agrees(r, spec_f_field(s@)),
        advances(r, s@),
{
    proof {
        reveal(spec_f_field);
    }
    match f_argument(s) {
        Ok((rest, a)) => Ok(
            (
                rest,
                FField { name: a.name, comment: a.comment, type_ref: a.type_ref, array: a.array },
            ),
        ),
        Err(e) => Err(e),
    }
}

/// The fields that stand at the start of `s`, and what is left behind
/// them.
#[verifier::opaque]
pub open spec fn spec_fields(s: Seq<char>) -> (Seq<char>, Seq<FFieldView>)
    decreases s.len(),
{
    match spec_f_field(s) {
        Ok((rest, first)) => if rest.len() < s.len() {
            (spec_fields(rest).0, seq![first] + spec_fields(rest).1)
        } else {
            (s, Seq::empty())
        },
        Err(_) => (s, Seq::empty()),
    }
}

/// Reads fields for as long as one stands at the start of the text.
pub fn fields(s: &str) -> (r: (&str, Vec<FField>))
    ensures
        r.0@ == spec_fields(s@).0,
        r.1.deep_view() == spec_fields(s@).1,
        r.0@.len() <= s@.len(),
{
    let mut rest = s;
    let mut found: Vec<FField> = Vec::new();
    loop
        invariant
            rest@.len() <= s@.len(),
            spec_fields(s@).0 == spec_fields(rest@).0,
            spec_fields(s@).1 == found.deep_view() + spec_fields(rest@).1,
        ensures
            rest@ == spec_fields(s@).0,
            found.deep_view() == spec_fields(s@).1,
        decreases rest@.len(),
    {
        proof {
            reveal(spec_fields);
        }
        match f_field(rest) {
            Ok((next, one)) => {
                proof {
                    let before = found.deep_view();
                    let tail = spec_fields(next@).1;
                    assert(before.push(one.deep_view()) + tail =~= before + (seq![
                        one.deep_view(),
                    ] + tail));
                }
                found.push(one);
                rest = next;
            },
            Err(_) => {
                assert(found.deep_view() + Seq::<FFieldView>::empty() =~= found.deep_view());
                break ;
            },
        }
    }
    (rest, found)
}

} // verus!
