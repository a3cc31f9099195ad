//! Every parse stays inside its text: what it leaves, and where it fails, is
//! an end of the text that it was given. So the position that is reported
//! for a syntax error is the place in the text at which reading failed.

use vstd::prelude::*;
use crate::chars::{CharClass, lemma_span_bound, span};
use crate::decl::{
    spec_annotation, spec_annotation_block, spec_annotation_tag, spec_annotations, spec_arguments,
    spec_f_argument, spec_f_field, spec_f_version, spec_fields,
};
use crate::diag::{DiagnosticView, spec_syntax_diagnostic};
use crate::interface::{
    spec_argument_block, spec_f_attribute, spec_f_broadcast, spec_f_interface, spec_f_member,
    spec_f_method, spec_f_method_errors, spec_f_type_collection, spec_members,
};
use crate::lexer::{
    Cursor, Keyword, SpecParsed, SyntaxErrorView, lemma_quoted_len_bound, spec_first, spec_int32,
    spec_name, spec_quoted_len, spec_skip_token, spec_uint16, spec_word_before, spec_ws0,
};
use crate::model::{
    spec_f_model, spec_f_model_item, spec_import, spec_import_uri, spec_imported_namespace,
    spec_imports, spec_model_items, spec_package,
};
use crate::scan::signed_body;
use crate::syntax::{
    spec_resync, spec_scan, spec_scan_step, spec_step_report, spec_syntax_diagnostics,
};
use crate::typedefs::{
    spec_enumerators, spec_f_array_type, spec_f_enumeration_type, spec_f_enumerator,
    spec_f_map_type, spec_f_struct_type, spec_f_type, spec_f_type_def, spec_f_union_type,
    spec_types,
};
use crate::types::{spec_f_basic_type_id, spec_f_type_ref};

verus! {

/// Whether `a` is an end of `s`: what is left of `s` behind some of its
/// characters.
pub open spec fn is_end_of(a: Seq<char>, s: Seq<char>) -> bool {
    a.len() <= s.len() && a == s.skip(s.len() - a.len())
}

/// Whether the cursor `c` stands inside the text `s`: at an end of it, or
/// failed at one.
pub open spec fn cursor_inside(c: Cursor, s: Seq<char>) -> bool {
    match c {
        Cursor::At(rest) => is_end_of(rest, s),
        Cursor::Failed(e) => is_end_of(e.input, s),
    }
}

/// Whether the parse `r` has stayed inside the text `s`.
pub open spec fn inside<V>(r: SpecParsed<V>, s: Seq<char>) -> bool {
    match r {
        Ok((rest, _)) => is_end_of(rest, s),
        Err(e) => is_end_of(e.input, s),
    }
}

/// Whether what the parse `r`, which cannot fail, has left is inside the
/// text `s`.
pub open spec fn left_inside<V>(r: (Seq<char>, V), s: Seq<char>) -> bool {
    is_end_of(r.0, s)
}

/// What is left behind the first `n` characters of an end of `s` is an end
/// of `s`.
pub proof fn lemma_skip_is_end(a: Seq<char>, n: int, s: Seq<char>)
    requires
        is_end_of(a, s),
        0 <= n <= a.len(),
    ensures
        is_end_of(a.skip(n), s),
{
    assert(a.skip(n) =~= s.skip(s.len() - a.skip(n).len()));
}

/// A text is an end of itself.
pub proof fn lemma_whole_is_end(s: Seq<char>)
    ensures
        is_end_of(s, s),
{
    assert(s.skip(0) =~= s);
}

/// Every step of a cursor that stands inside the text `s` stays inside it.
pub proof fn lemma_steps_inside(s: Seq<char>)
    ensures
        forall|c: Cursor, class: CharClass|
            cursor_inside(c, s) ==> cursor_inside(#[trigger] c.skip0(class), s),
        forall|c: Cursor, class: CharClass|
            cursor_inside(c, s) ==> cursor_inside(#[trigger] c.skip1(class), s),
        forall|c: Cursor| cursor_inside(c, s) ==> cursor_inside(#[trigger] c.eol(), s),
        forall|c: Cursor| cursor_inside(c, s) ==> cursor_inside(
            #[trigger] c.end_of_declaration(),
            s,
        ),
        forall|c: Cursor, x: char| cursor_inside(c, s) ==> cursor_inside(#[trigger] c.ch(x), s),
        forall|c: Cursor, k: Keyword| cursor_inside(c, s) ==> cursor_inside(#[trigger] c.kw(k), s),
        forall|c: Cursor, k: Keyword|
            cursor_inside(c, s) ==> cursor_inside(#[trigger] c.word(k), s),
        forall|a: Seq<char>| is_end_of(a, s) ==> is_end_of(#[trigger] spec_ws0(a), s),
        forall|a: Seq<char>| is_end_of(a, s) ==> is_end_of(#[trigger] spec_skip_token(a), s),
        forall|a: Seq<char>| is_end_of(a, s) && a.len() > 0 ==> is_end_of(#[trigger] a.skip(1), s),
        forall|text: Seq<char>, a: Seq<char>, class: CharClass|
            is_end_of(a, s) && (#[trigger] spec_word_before(text, a, class)) is Some ==> is_end_of(
                spec_word_before(text, a, class).unwrap(),
                s,
            ),
{
    assert forall|c: Cursor, class: CharClass| cursor_inside(c, s) implies cursor_inside(
        #[trigger] c.skip0(class),
        s,
    ) by {
        if let Cursor::At(a) = c {
            lemma_span_bound(a, class);
            lemma_skip_is_end(a, span(a, class) as int, s);
        }
    }
    assert forall|c: Cursor, class: CharClass| cursor_inside(c, s) implies cursor_inside(
        #[trigger] c.skip1(class),
        s,
    ) by {
        if let Cursor::At(a) = c {
            lemma_span_bound(a, class);
            lemma_skip_is_end(a, span(a, class) as int, s);
        }
    }
    assert forall|c: Cursor| cursor_inside(c, s) implies cursor_inside(#[trigger] c.eol(), s) by {
        if let Cursor::At(a) = c {
            if a.len() >= 1 {
                lemma_skip_is_end(a, 1, s);
            }
            if a.len() >= 2 {
                lemma_skip_is_end(a, 2, s);
            }
        }
    }
    assert forall|c: Cursor| cursor_inside(c, s) implies cursor_inside(
        #[trigger] c.end_of_declaration(),
        s,
    ) by {
        if let Cursor::At(a) = c {
            if a.len() >= 1 {
                lemma_skip_is_end(a, 1, s);
            }
            if a.len() >= 2 {
                lemma_skip_is_end(a, 2, s);
            }
        }
    }
    assert forall|c: Cursor, x: char| cursor_inside(c, s) implies cursor_inside(
        #[trigger] c.ch(x),
        s,
    ) by {
        if let Cursor::At(a) = c {
            if a.len() >= 1 {
                lemma_skip_is_end(a, 1, s);
            }
        }
    }
    assert forall|c: Cursor, k: Keyword| cursor_inside(c, s) implies cursor_inside(
        #[trigger] c.kw(k),
        s,
    ) by {
        if let Cursor::At(a) = c {
            if k.spec_text().is_prefix_of(a) {
                lemma_skip_is_end(a, k.spec_text().len() as int, s);
            }
        }
    }
    assert forall|c: Cursor, k: Keyword| cursor_inside(c, s) implies cursor_inside(
        #[trigger] c.word(k),
        s,
    ) by {
        if let Cursor::At(a) = c {
            if k.spec_text().is_prefix_of(a) {
                lemma_skip_is_end(a, k.spec_text().len() as int, s);
            }
        }
    }
    assert forall|a: Seq<char>| is_end_of(a, s) implies is_end_of(#[trigger] spec_ws0(a), s) by {
        lemma_span_bound(a, CharClass::Whitespace);
        lemma_skip_is_end(a, span(a, CharClass::Whitespace) as int, s);
    }
    assert forall|a: Seq<char>| is_end_of(a, s) implies is_end_of(
        #[trigger] spec_skip_token(a),
        s,
    ) by {
        lemma_span_bound(a, CharClass::Qualified);
        lemma_skip_is_end(a, span(a, CharClass::Qualified) as int, s);
        if a.len() > 0 {
            lemma_skip_is_end(a, 1, s);
        }
    }
    assert forall|a: Seq<char>| is_end_of(a, s) && a.len() > 0 implies is_end_of(
        #[trigger] a.skip(1),
        s,
    ) by {
        lemma_skip_is_end(a, 1, s);
    }
    assert forall|text: Seq<char>, a: Seq<char>, class: CharClass|
        is_end_of(a, s) && (#[trigger] spec_word_before(text, a, class)) is Some implies is_end_of(
        spec_word_before(text, a, class).unwrap(),
        s,
    ) by {
        lemma_skip_is_end(a, text.len() as int, s);
    }
}

/// Names and numbers are read inside the text.
pub proof fn lemma_tokens_inside(s: Seq<char>)
    ensures
        forall|a: Seq<char>, class: CharClass|
            is_end_of(a, s) ==> inside(#[trigger] spec_name(a, class), s),
        forall|a: Seq<char>| is_end_of(a, s) ==> inside(#[trigger] spec_uint16(a), s),
        forall|a: Seq<char>| is_end_of(a, s) ==> inside(#[trigger] spec_int32(a), s),
        forall|a: Seq<char>, class: CharClass|
            is_end_of(a, s) ==> is_end_of(#[trigger] a.skip(span(a, class) as int), s),
        forall|a: Seq<char>|
            is_end_of(a, s) ==> is_end_of(#[trigger] a.skip(spec_quoted_len(a) as int), s),
{
    assert forall|a: Seq<char>| is_end_of(a, s) implies is_end_of(
        #[trigger] a.skip(spec_quoted_len(a) as int),
        s,
    ) by {
        lemma_quoted_len_bound(a);
        lemma_skip_is_end(a, spec_quoted_len(a) as int, s);
    }
    assert forall|a: Seq<char>, class: CharClass| is_end_of(a, s) implies inside(
        #[trigger] spec_name(a, class),
        s,
    ) by {
        lemma_span_bound(a, class);
        lemma_skip_is_end(a, span(a, class) as int, s);
    }
    assert forall|a: Seq<char>| is_end_of(a, s) implies inside(#[trigger] spec_uint16(a), s) by {
        lemma_span_bound(a, CharClass::Digit);
        lemma_skip_is_end(a, span(a, CharClass::Digit) as int, s);
    }
    assert forall|a: Seq<char>| is_end_of(a, s) implies inside(#[trigger] spec_int32(a), s) by {
        let body = signed_body(a).1;
        if a.len() > 0 {
            lemma_skip_is_end(a, 1, s);
        }
        lemma_span_bound(body, CharClass::Digit);
        lemma_skip_is_end(body, span(body, CharClass::Digit) as int, s);
    }
    assert forall|a: Seq<char>, class: CharClass| is_end_of(a, s) implies is_end_of(
        #[trigger] a.skip(span(a, class) as int),
        s,
    ) by {
        lemma_span_bound(a, class);
        lemma_skip_is_end(a, span(a, class) as int, s);
    }
}

/// A version block is read inside the text.
pub proof fn lemma_f_version_inside(s: Seq<char>)
    ensures
        forall|a: Seq<char>| is_end_of(a, s) ==> inside(#[trigger] spec_f_version(a), s),
{
    lemma_steps_inside(s);
    lemma_tokens_inside(s);
    assert forall|a: Seq<char>| is_end_of(a, s) implies inside(
        #[trigger] spec_f_version(a),
        s,
    ) by {
        reveal(spec_f_version);
    }
}

/// The name of a predefined type is read inside the text.
pub proof fn lemma_f_basic_type_id_inside(s: Seq<char>)
    ensures
        forall|a: Seq<char>| is_end_of(a, s) ==> inside(#[trigger] spec_f_basic_type_id(a), s),
{
    lemma_steps_inside(s);
    lemma_tokens_inside(s);
    assert forall|a: Seq<char>| is_end_of(a, s) implies inside(
        #[trigger] spec_f_basic_type_id(a),
        s,
    ) by {
        reveal(spec_f_basic_type_id);
    }
}

/// A reference to a type is read inside the text.
pub proof fn lemma_f_type_ref_inside(s: Seq<char>)
    ensures
        forall|a: Seq<char>| is_end_of(a, s) ==> inside(#[trigger] spec_f_type_ref(a), s),
{
    lemma_steps_inside(s);
    lemma_tokens_inside(s);
    lemma_f_basic_type_id_inside(s);
    assert forall|a: Seq<char>| is_end_of(a, s) implies inside(
        #[trigger] spec_f_type_ref(a),
        s,
    ) by {
        reveal(spec_f_type_ref);
    }
}

/// The tag of an annotation is read inside the text.
pub proof fn lemma_annotation_tag_inside(s: Seq<char>)
    ensures
        forall|a: Seq<char>| is_end_of(a, s) ==> inside(#[trigger] spec_annotation_tag(a), s),
{
    lemma_steps_inside(s);
    lemma_tokens_inside(s);
    assert forall|a: Seq<char>| is_end_of(a, s) implies inside(
        #[trigger] spec_annotation_tag(a),
        s,
    ) by {
        reveal(spec_annotation_tag);
    }
}

/// An annotation is read inside the text.
pub proof fn lemma_annotation_inside(s: Seq<char>)
    ensures
        forall|a: Seq<char>| is_end_of(a, s) ==> inside(#[trigger] spec_annotation(a), s),
{
    lemma_steps_inside(s);
    lemma_tokens_inside(s);
    lemma_annotation_tag_inside(s);
    assert forall|a: Seq<char>| is_end_of(a, s) implies inside(
        #[trigger] spec_annotation(a),
        s,
    ) by {
        reveal(spec_annotation);
    }
}

proof fn lemma_annotations_inside_at(a: Seq<char>, s: Seq<char>)
    requires
        is_end_of(a, s),
    ensures
        left_inside(spec_annotations(a), s),
    decreases a.len(),
{
    reveal(spec_annotations);
    lemma_annotation_inside(s);
    match spec_annotation(a) {
        Ok((rest, _)) => {
            if rest.len() < a.len() {
                lemma_annotations_inside_at(rest, s);
            }
        },
        Err(_) => {},
    }
}

/// Annotations are read inside the text.
pub proof fn lemma_annotations_inside(s: Seq<char>)
    ensures
        forall|a: Seq<char>| is_end_of(a, s) ==> left_inside(#[trigger] spec_annotations(a), s),
{
    assert forall|a: Seq<char>| is_end_of(a, s) implies left_inside(
        #[trigger] spec_annotations(a),
        s,
    ) by {
        lemma_annotations_inside_at(a, s);
    }
}

/// An annotation block is read inside the text.
pub proof fn lemma_annotation_block_inside(s: Seq<char>)
    ensures
        forall|a: Seq<char>| is_end_of(a, s) ==> inside(#[trigger] spec_annotation_block(a), s),
{
    lemma_steps_inside(s);
    lemma_tokens_inside(s);
    lemma_annotations_inside(s);
    assert forall|a: Seq<char>| is_end_of(a, s) implies inside(
        #[trigger] spec_annotation_block(a),
        s,
    ) by {
        reveal(spec_annotation_block);
    }
}

/// An argument is read inside the text.
pub proof fn lemma_f_argument_inside(s: Seq<char>)
    ensures
        forall|a: Seq<char>| is_end_of(a, s) ==> inside(#[trigger] spec_f_argument(a), s),
{
    lemma_steps_inside(s);
    lemma_tokens_inside(s);
    lemma_annotation_block_inside(s);
    lemma_f_type_ref_inside(s);
    assert forall|a: Seq<char>| is_end_of(a, s) implies inside(
        #[trigger] spec_f_argument(a),
        s,
    ) by {
        reveal(spec_f_argument);
    }
}

proof fn lemma_arguments_inside_at(a: Seq<char>, s: Seq<char>)
    requires
        is_end_of(a, s),
    ensures
        left_inside(spec_arguments(a), s),
    decreases a.len(),
{
    reveal(spec_arguments);
    lemma_f_argument_inside(s);
    match spec_f_argument(a) {
        Ok((rest, _)) => {
            if rest.len() < a.len() {
                lemma_arguments_inside_at(rest, s);
            }
        },
        Err(_) => {},
    }
}

/// Arguments are read inside the text.
pub proof fn lemma_arguments_inside(s: Seq<char>)
    ensures
        forall|a: Seq<char>| is_end_of(a, s) ==> left_inside(#[trigger] spec_arguments(a), s),
{
    assert forall|a: Seq<char>| is_end_of(a, s) implies left_inside(
        #[trigger] spec_arguments(a),
        s,
    ) by {
        lemma_arguments_inside_at(a, s);
    }
}

/// A field is read inside the text.
pub proof fn lemma_f_field_inside(s: Seq<char>)
    ensures
        forall|a: Seq<char>| is_end_of(a, s) ==> inside(#[trigger] spec_f_field(a), s),
{
    lemma_f_argument_inside(s);
    assert forall|a: Seq<char>| is_end_of(a, s) implies inside(
        #[trigger] spec_f_field(a),
        s,
    ) by {
        reveal(spec_f_field);
    }
}

proof fn lemma_fields_inside_at(a: Seq<char>, s: Seq<char>)
    requires
        is_end_of(a, s),
    ensures
        left_inside(spec_fields(a), s),
    decreases a.len(),
{
    reveal(spec_fields);
    lemma_f_field_inside(s);
    match spec_f_field(a) {
        Ok((rest, _)) => {
            if rest.len() < a.len() {
                lemma_fields_inside_at(rest, s);
            }
        },
        Err(_) => {},
    }
}

/// Fields are read inside the text.
pub proof fn lemma_fields_inside(s: Seq<char>)
    ensures
        forall|a: Seq<char>| is_end_of(a, s) ==> left_inside(#[trigger] spec_fields(a), s),
{
    assert forall|a: Seq<char>| is_end_of(a, s) implies left_inside(
        #[trigger] spec_fields(a),
        s,
    ) by {
        lemma_fields_inside_at(a, s);
    }
}

/// An enumerator is read inside the text.
pub proof fn lemma_f_enumerator_inside(s: Seq<char>)
    ensures
        forall|a: Seq<char>| is_end_of(a, s) ==> inside(#[trigger] spec_f_enumerator(a), s),
{
    lemma_steps_inside(s);
    lemma_tokens_inside(s);
    lemma_annotation_block_inside(s);
    assert forall|a: Seq<char>| is_end_of(a, s) implies inside(
        #[trigger] spec_f_enumerator(a),
        s,
    ) by {
        reveal(spec_f_enumerator);
    }
}

proof fn lemma_enumerators_inside_at(a: Seq<char>, s: Seq<char>)
    requires
        is_end_of(a, s),
    ensures
        left_inside(spec_enumerators(a), s),
    decreases a.len(),
{
    reveal(spec_enumerators);
    lemma_f_enumerator_inside(s);
    match spec_f_enumerator(a) {
        Ok((rest, _)) => {
            if rest.len() < a.len() {
                lemma_enumerators_inside_at(rest, s);
            }
        },
        Err(_) => {},
    }
}

/// Enumerators are read inside the text.
pub proof fn lemma_enumerators_inside(s: Seq<char>)
    ensures
        forall|a: Seq<char>| is_end_of(a, s) ==> left_inside(#[trigger] spec_enumerators(a), s),
{
    assert forall|a: Seq<char>| is_end_of(a, s) implies left_inside(
        #[trigger] spec_enumerators(a),
        s,
    ) by {
        lemma_enumerators_inside_at(a, s);
    }
}

/// An enumeration is read inside the text.
pub proof fn lemma_f_enumeration_type_inside(s: Seq<char>)
    ensures
        forall|a: Seq<char>| is_end_of(a, s) ==> inside(#[trigger] spec_f_enumeration_type(a), s),
{
    lemma_steps_inside(s);
    lemma_tokens_inside(s);
    lemma_annotation_block_inside(s);
    lemma_enumerators_inside(s);
    assert forall|a: Seq<char>| is_end_of(a, s) implies inside(
        #[trigger] spec_f_enumeration_type(a),
        s,
    ) by {
        reveal(spec_f_enumeration_type);
    }
}

/// A struct is read inside the text.
pub proof fn lemma_f_struct_type_inside(s: Seq<char>)
    ensures
        forall|a: Seq<char>| is_end_of(a, s) ==> inside(#[trigger] spec_f_struct_type(a), s),
{
    lemma_steps_inside(s);
    lemma_tokens_inside(s);
    lemma_annotation_block_inside(s);
    lemma_fields_inside(s);
    assert forall|a: Seq<char>| is_end_of(a, s) implies inside(
        #[trigger] spec_f_struct_type(a),
        s,
    ) by {
        reveal(spec_f_struct_type);
    }
}

/// A union is read inside the text.
pub proof fn lemma_f_union_type_inside(s: Seq<char>)
    ensures
        forall|a: Seq<char>| is_end_of(a, s) ==> inside(#[trigger] spec_f_union_type(a), s),
{
    lemma_steps_inside(s);
    lemma_tokens_inside(s);
    lemma_annotation_block_inside(s);
    lemma_fields_inside(s);
    assert forall|a: Seq<char>| is_end_of(a, s) implies inside(
        #[trigger] spec_f_union_type(a),
        s,
    ) by {
        reveal(spec_f_union_type);
    }
}

/// A named array is read inside the text.
pub proof fn lemma_f_array_type_inside(s: Seq<char>)
    ensures
        forall|a: Seq<char>| is_end_of(a, s) ==> inside(#[trigger] spec_f_array_type(a), s),
{
    lemma_steps_inside(s);
    lemma_tokens_inside(s);
    lemma_annotation_block_inside(s);
    lemma_f_type_ref_inside(s);
    assert forall|a: Seq<char>| is_end_of(a, s) implies inside(
        #[trigger] spec_f_array_type(a),
        s,
    ) by {
        reveal(spec_f_array_type);
    }
}

/// A named map is read inside the text.
pub proof fn lemma_f_map_type_inside(s: Seq<char>)
    ensures
        forall|a: Seq<char>| is_end_of(a, s) ==> inside(#[trigger] spec_f_map_type(a), s),
{
    lemma_steps_inside(s);
    lemma_tokens_inside(s);
    lemma_annotation_block_inside(s);
    lemma_f_type_ref_inside(s);
    assert forall|a: Seq<char>| is_end_of(a, s) implies inside(
        #[trigger] spec_f_map_type(a),
        s,
    ) by {
        reveal(spec_f_map_type);
    }
}

/// A type alias is read inside the text.
pub proof fn lemma_f_type_def_inside(s: Seq<char>)
    ensures
        forall|a: Seq<char>| is_end_of(a, s) ==> inside(#[trigger] spec_f_type_def(a), s),
{
    lemma_steps_inside(s);
    lemma_tokens_inside(s);
    lemma_annotation_block_inside(s);
    lemma_f_type_ref_inside(s);
    assert forall|a: Seq<char>| is_end_of(a, s) implies inside(
        #[trigger] spec_f_type_def(a),
        s,
    ) by {
        reveal(spec_f_type_def);
    }
}

/// A type definition is read inside the text.
pub proof fn lemma_f_type_inside(s: Seq<char>)
    ensures
        forall|a: Seq<char>| is_end_of(a, s) ==> inside(#[trigger] spec_f_type(a), s),
{
    lemma_f_enumeration_type_inside(s);
    lemma_f_struct_type_inside(s);
    lemma_f_union_type_inside(s);
    lemma_f_array_type_inside(s);
    lemma_f_map_type_inside(s);
    lemma_f_type_def_inside(s);
    assert forall|a: Seq<char>| is_end_of(a, s) implies inside(
        #[trigger] spec_f_type(a),
        s,
    ) by {
        reveal(spec_f_type);
    }
}

proof fn lemma_types_inside_at(a: Seq<char>, s: Seq<char>)
    requires
        is_end_of(a, s),
    ensures
        inside(spec_types(a), s),
    decreases a.len(),
{
    reveal(spec_types);
    lemma_f_type_inside(s);
    match spec_f_type(a) {
        Ok((rest, _)) => {
            if rest.len() < a.len() {
                lemma_types_inside_at(rest, s);
            }
        },
        Err(_) => {},
    }
}

/// Type definitions are read inside the text.
pub proof fn lemma_types_inside(s: Seq<char>)
    ensures
        forall|a: Seq<char>| is_end_of(a, s) ==> inside(#[trigger] spec_types(a), s),
{
    assert forall|a: Seq<char>| is_end_of(a, s) implies inside(#[trigger] spec_types(a), s) by {
        lemma_types_inside_at(a, s);
    }
}

/// An attribute is read inside the text.
pub proof fn lemma_f_attribute_inside(s: Seq<char>)
    ensures
        forall|a: Seq<char>| is_end_of(a, s) ==> inside(#[trigger] spec_f_attribute(a), s),
{
    lemma_steps_inside(s);
    lemma_tokens_inside(s);
    lemma_annotation_block_inside(s);
    lemma_f_type_ref_inside(s);
    assert forall|a: Seq<char>| is_end_of(a, s) implies inside(
        #[trigger] spec_f_attribute(a),
        s,
    ) by {
        reveal(spec_f_attribute);
    }
}

/// A block of arguments is read inside the text.
pub proof fn lemma_argument_block_inside(s: Seq<char>)
    ensures
        forall|k: Keyword, a: Seq<char>| is_end_of(a, s) ==> inside(
            #[trigger] spec_argument_block(k, a),
            s,
        ),
{
    lemma_steps_inside(s);
    lemma_tokens_inside(s);
    lemma_arguments_inside(s);
    assert forall|k: Keyword, a: Seq<char>| is_end_of(a, s) implies inside(
        #[trigger] spec_argument_block(k, a),
        s,
    ) by {
    }
}

/// The errors of a method are read inside the text.
pub proof fn lemma_f_method_errors_inside(s: Seq<char>)
    ensures
        forall|a: Seq<char>| is_end_of(a, s) ==> inside(#[trigger] spec_f_method_errors(a), s),
{
    lemma_steps_inside(s);
    lemma_tokens_inside(s);
    lemma_enumerators_inside(s);
    assert forall|a: Seq<char>| is_end_of(a, s) implies inside(
        #[trigger] spec_f_method_errors(a),
        s,
    ) by {
        reveal(spec_f_method_errors);
    }
}

/// A method is read inside the text.
pub proof fn lemma_f_method_inside(s: Seq<char>)
    ensures
        forall|a: Seq<char>| is_end_of(a, s) ==> inside(#[trigger] spec_f_method(a), s),
{
    lemma_steps_inside(s);
    lemma_tokens_inside(s);
    lemma_annotation_block_inside(s);
    lemma_argument_block_inside(s);
    lemma_f_method_errors_inside(s);
    assert forall|a: Seq<char>| is_end_of(a, s) implies inside(
        #[trigger] spec_f_method(a),
        s,
    ) by {
        reveal(spec_f_method);
    }
}

/// A broadcast is read inside the text.
pub proof fn lemma_f_broadcast_inside(s: Seq<char>)
    ensures
        forall|a: Seq<char>| is_end_of(a, s) ==> inside(#[trigger] spec_f_broadcast(a), s),
{
    lemma_steps_inside(s);
    lemma_tokens_inside(s);
    lemma_annotation_block_inside(s);
    lemma_argument_block_inside(s);
    assert forall|a: Seq<char>| is_end_of(a, s) implies inside(
        #[trigger] spec_f_broadcast(a),
        s,
    ) by {
        reveal(spec_f_broadcast);
    }
}

/// A member of an interface is read inside the text.
pub proof fn lemma_f_member_inside(s: Seq<char>)
    ensures
        forall|a: Seq<char>| is_end_of(a, s) ==> inside(#[trigger] spec_f_member(a), s),
{
    lemma_f_attribute_inside(s);
    lemma_f_method_inside(s);
    lemma_f_broadcast_inside(s);
    lemma_f_type_inside(s);
    assert forall|a: Seq<char>| is_end_of(a, s) implies inside(
        #[trigger] spec_f_member(a),
        s,
    ) by {
        reveal(spec_f_member);
    }
}

proof fn lemma_members_inside_at(a: Seq<char>, s: Seq<char>)
    requires
        is_end_of(a, s),
    ensures
        inside(spec_members(a), s),
    decreases a.len(),
{
    reveal(spec_members);
    lemma_f_member_inside(s);
    match spec_f_member(a) {
        Ok((rest, _)) => {
            if rest.len() < a.len() {
                lemma_members_inside_at(rest, s);
            }
        },
        Err(_) => {},
    }
}

/// Members are read inside the text.
pub proof fn lemma_members_inside(s: Seq<char>)
    ensures
        forall|a: Seq<char>| is_end_of(a, s) ==> inside(#[trigger] spec_members(a), s),
{
    assert forall|a: Seq<char>| is_end_of(a, s) implies inside(#[trigger] spec_members(a), s) by {
        lemma_members_inside_at(a, s);
    }
}

/// An interface is read inside the text.
pub proof fn lemma_f_interface_inside(s: Seq<char>)
    ensures
        forall|a: Seq<char>| is_end_of(a, s) ==> inside(#[trigger] spec_f_interface(a), s),
{
    lemma_steps_inside(s);
    lemma_tokens_inside(s);
    lemma_annotation_block_inside(s);
    lemma_f_version_inside(s);
    lemma_members_inside(s);
    assert forall|a: Seq<char>| is_end_of(a, s) implies inside(
        #[trigger] spec_f_interface(a),
        s,
    ) by {
        reveal(spec_f_interface);
    }
}

/// A type collection is read inside the text.
pub proof fn lemma_f_type_collection_inside(s: Seq<char>)
    ensures
        forall|a: Seq<char>| is_end_of(a, s) ==> inside(#[trigger] spec_f_type_collection(a), s),
{
    lemma_steps_inside(s);
    lemma_tokens_inside(s);
    lemma_annotation_block_inside(s);
    lemma_f_version_inside(s);
    lemma_types_inside(s);
    assert forall|a: Seq<char>| is_end_of(a, s) implies inside(
        #[trigger] spec_f_type_collection(a),
        s,
    ) by {
        reveal(spec_f_type_collection);
    }
}

/// The namespace of an import is read inside the text.
pub proof fn lemma_imported_namespace_inside(s: Seq<char>)
    ensures
        forall|a: Seq<char>| is_end_of(a, s) ==> inside(#[trigger] spec_imported_namespace(a), s),
{
    lemma_steps_inside(s);
    lemma_tokens_inside(s);
    assert forall|a: Seq<char>| is_end_of(a, s) implies inside(
        #[trigger] spec_imported_namespace(a),
        s,
    ) by {
        reveal(spec_imported_namespace);
    }
}

/// The resource of an import is read inside the text.
pub proof fn lemma_import_uri_inside(s: Seq<char>)
    ensures
        forall|a: Seq<char>| is_end_of(a, s) ==> inside(#[trigger] spec_import_uri(a), s),
{
    lemma_steps_inside(s);
    lemma_tokens_inside(s);
    assert forall|a: Seq<char>| is_end_of(a, s) implies inside(
        #[trigger] spec_import_uri(a),
        s,
    ) by {
        reveal(spec_import_uri);
    }
}

/// An import is read inside the text.
pub proof fn lemma_import_inside(s: Seq<char>)
    ensures
        forall|a: Seq<char>| is_end_of(a, s) ==> inside(#[trigger] spec_import(a), s),
{
    lemma_steps_inside(s);
    lemma_tokens_inside(s);
    lemma_imported_namespace_inside(s);
    lemma_import_uri_inside(s);
    assert forall|a: Seq<char>| is_end_of(a, s) implies inside(
        #[trigger] spec_import(a),
        s,
    ) by {
        reveal(spec_import);
    }
}

proof fn lemma_imports_inside_at(a: Seq<char>, s: Seq<char>)
    requires
        is_end_of(a, s),
    ensures
        left_inside(spec_imports(a), s),
    decreases a.len(),
{
    reveal(spec_imports);
    lemma_import_inside(s);
    match spec_import(a) {
        Ok((rest, _)) => {
            if rest.len() < a.len() {
                lemma_imports_inside_at(rest, s);
            }
        },
        Err(_) => {},
    }
}

/// Imports are read inside the text.
pub proof fn lemma_imports_inside(s: Seq<char>)
    ensures
        forall|a: Seq<char>| is_end_of(a, s) ==> left_inside(#[trigger] spec_imports(a), s),
{
    assert forall|a: Seq<char>| is_end_of(a, s) implies left_inside(
        #[trigger] spec_imports(a),
        s,
    ) by {
        lemma_imports_inside_at(a, s);
    }
}

/// A package header is read inside the text.
pub proof fn lemma_package_inside(s: Seq<char>)
    ensures
        forall|a: Seq<char>| is_end_of(a, s) ==> inside(#[trigger] spec_package(a), s),
{
    lemma_steps_inside(s);
    lemma_tokens_inside(s);
    assert forall|a: Seq<char>| is_end_of(a, s) implies inside(
        #[trigger] spec_package(a),
        s,
    ) by {
        reveal(spec_package);
    }
}

/// An item of a model is read inside the text.
pub proof fn lemma_f_model_item_inside(s: Seq<char>)
    ensures
        forall|a: Seq<char>| is_end_of(a, s) ==> inside(#[trigger] spec_f_model_item(a), s),
{
    lemma_f_interface_inside(s);
    lemma_f_type_collection_inside(s);
    assert forall|a: Seq<char>| is_end_of(a, s) implies inside(
        #[trigger] spec_f_model_item(a),
        s,
    ) by {
        reveal(spec_f_model_item);
    }
}

proof fn lemma_model_items_inside_at(a: Seq<char>, s: Seq<char>)
    requires
        is_end_of(a, s),
    ensures
        left_inside(spec_model_items(a), s),
    decreases a.len(),
{
    reveal(spec_model_items);
    lemma_f_model_item_inside(s);
    match spec_f_model_item(a) {
        Ok((rest, _)) => {
            if rest.len() < a.len() {
                lemma_model_items_inside_at(rest, s);
            }
        },
        Err(_) => {},
    }
}

/// Items of a model are read inside the text.
pub proof fn lemma_model_items_inside(s: Seq<char>)
    ensures
        forall|a: Seq<char>| is_end_of(a, s) ==> left_inside(#[trigger] spec_model_items(a), s),
{
    assert forall|a: Seq<char>| is_end_of(a, s) implies left_inside(
        #[trigger] spec_model_items(a),
        s,
    ) by {
        lemma_model_items_inside_at(a, s);
    }
}

/// A model is read inside the text.
pub proof fn lemma_f_model_inside(s: Seq<char>)
    ensures
        forall|a: Seq<char>| is_end_of(a, s) ==> inside(#[trigger] spec_f_model(a), s),
{
    lemma_package_inside(s);
    lemma_imports_inside(s);
    lemma_model_items_inside(s);
    assert forall|a: Seq<char>| is_end_of(a, s) implies inside(
        #[trigger] spec_f_model(a),
        s,
    ) by {
        reveal(spec_f_model);
    }
}

/// Whatever a text holds, what is left of it behind the model that is
/// read, and the place at which reading it fails, is an end of the text.
pub proof fn law_model_is_read_inside(text: Seq<char>)
    ensures
        inside(spec_f_model(text), text),
{
    lemma_whole_is_end(text);
    lemma_f_model_inside(text);
}

proof fn lemma_resync_inside_at(a: Seq<char>, s: Seq<char>)
    requires
        is_end_of(a, s),
    ensures
        is_end_of(spec_resync(a), s),
    decreases a.len(),
{
    lemma_steps_inside(s);
    let s0 = spec_ws0(a);
    if !(s0.len() == 0 || crate::syntax::spec_at_sync_point(s0)) && spec_skip_token(s0).len()
        < a.len() {
        lemma_resync_inside_at(spec_skip_token(s0), s);
    }
}

/// Whether the report `d` points into the text `text`: it is the report of
/// a syntax error, its position is a place in the text or its end, and what
/// it says was found is the character at that place, or nothing at the end.
pub open spec fn points_into(d: DiagnosticView, text: Seq<char>) -> bool {
    match d {
        DiagnosticView::SyntaxError { position, expected: _, found } => position <= text.len()
            && found == spec_first(text.skip(position as int)),
        _ => false,
    }
}

/// The report of a failure inside the text points into the text.
pub proof fn lemma_report_points(e: SyntaxErrorView, text: Seq<char>)
    requires
        is_end_of(e.input, text),
    ensures
        points_into(spec_syntax_diagnostic(e, text.len()), text),
{
}

proof fn lemma_scan_points(a: Seq<char>, recovering: bool, text: Seq<char>)
    requires
        is_end_of(a, text),
    ensures
        forall|i: int|
            0 <= i < spec_scan(a, recovering, text.len()).len() ==> points_into(
                #[trigger] spec_scan(a, recovering, text.len())[i],
                text,
            ),
    decreases a.len(),
{
    lemma_steps_inside(text);
    lemma_f_model_item_inside(text);
    lemma_f_member_inside(text);
    let s0 = spec_ws0(a);
    if s0.len() > 0 {
        let step = spec_scan_step(s0, recovering);
        match step.2 {
            Some(e) => {
                assert(is_end_of(e.input, text));
                lemma_report_points(e, text);
                if e.input.len() < s0.len() {
                    lemma_resync_inside_at(e.input, text);
                } else {
                    lemma_resync_inside_at(spec_skip_token(s0), text);
                }
            },
            None => {},
        }
        assert(is_end_of(step.0, text));
        let all = spec_scan(a, recovering, text.len());
        let report = spec_step_report(step.2, text.len());
        if step.0.len() < a.len() {
            lemma_scan_points(step.0, step.1, text);
            let tail = spec_scan(step.0, step.1, text.len());
            assert forall|i: int| 0 <= i < all.len() implies points_into(
                #[trigger] all[i],
                text,
            ) by {
                if i < report.len() {
                    assert(all[i] == report[i]);
                } else {
                    assert(all[i] == tail[i - report.len()]);
                }
            }
        } else {
            assert(all == report);
        }
    }
}

/// Every syntax error that is reported of a text points into the text: its
/// position is the place at which reading failed, counted in characters
/// from the start, and what it says was found is the character that stands
/// there.
pub proof fn law_reports_point_into_the_text(text: Seq<char>)
    ensures
        forall|i: int|
            0 <= i < spec_syntax_diagnostics(text).len() ==> points_into(
                #[trigger] spec_syntax_diagnostics(text)[i],
                text,
            ),
{
    lemma_whole_is_end(text);
    lemma_steps_inside(text);
    lemma_package_inside(text);
    lemma_imports_inside(text);
    match spec_package(text) {
        Err(e) => {
            lemma_report_points(e, text);
            let from = if e.input.len() < text.len() {
                e.input
            } else {
                spec_skip_token(text)
            };
            lemma_resync_inside_at(from, text);
            lemma_scan_points(spec_resync(from), true, text);
            let all = spec_syntax_diagnostics(text);
            let tail = spec_scan(spec_resync(from), true, text.len());
            assert forall|i: int| 0 <= i < all.len() implies points_into(
                #[trigger] all[i],
                text,
            ) by {
                if i > 0 {
                    assert(all[i] == tail[i - 1]);
                }
            }
        },
        Ok((s1, _)) => {
            lemma_scan_points(spec_imports(s1).0, false, text);
        },
    }
}

} // verus!
