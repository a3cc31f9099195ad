//! A text in which the pass over it finds no syntax error is a model: it is
//! read from its first character to its last, and nothing but white space
//! is left behind it.

use vstd::prelude::*;
use crate::api::spec_leftover;
use crate::chars::{CharClass, lemma_span_splits, span};
use crate::decl::{spec_annotation_block, spec_opt_annotation_block};
use crate::diag::DiagnosticView;
use crate::inside::{
    is_end_of, lemma_annotation_block_inside, lemma_f_version_inside, lemma_members_inside,
    lemma_steps_inside, lemma_tokens_inside, lemma_types_inside, lemma_whole_is_end,
};
use crate::interface::{spec_f_interface, spec_f_type_collection};
use crate::lexer::{Cursor, Keyword, spec_ws0};
use crate::model::{
    spec_f_model, spec_f_model_item, spec_imports, spec_model_items, spec_package,
    spec_starts_item,
};
use crate::syntax::{spec_scan, spec_scan_step, spec_syntax_diagnostics};
use crate::typedefs::spec_starts_declaration;

verus! {

/// Skipping white space twice skips no more than skipping it once.
pub proof fn lemma_ws0_twice(a: Seq<char>)
    ensures
        spec_ws0(spec_ws0(a)) == spec_ws0(a),
        Cursor::At(spec_ws0(a)).ws0() == Cursor::At(a).ws0(),
{
    lemma_span_splits(a, CharClass::Whitespace);
    let b = spec_ws0(a);
    assert(span(b, CharClass::Whitespace) == 0);
    assert(b.skip(0) =~= b);
}

/// White space in front of an annotation block makes no difference to it.
pub proof fn lemma_annotation_block_ws(a: Seq<char>)
    ensures
        spec_annotation_block(spec_ws0(a)) == spec_annotation_block(a),
{
    reveal(spec_annotation_block);
    lemma_ws0_twice(a);
}

/// White space in front of a declaration makes no difference to whether it
/// starts with the keyword `k`.
pub proof fn lemma_starts_declaration_ws(k: Keyword, a: Seq<char>)
    ensures
        spec_starts_declaration(k, spec_ws0(a)) == spec_starts_declaration(k, a),
{
    lemma_annotation_block_ws(a);
    lemma_ws0_twice(a);
}

/// White space in front of an item of a model that starts makes no
/// difference to the item.
pub proof fn lemma_f_model_item_ws(a: Seq<char>)
    requires
        spec_starts_item(a),
    ensures
        spec_starts_item(spec_ws0(a)),
        spec_f_model_item(spec_ws0(a)) == spec_f_model_item(a),
{
    reveal(spec_f_model_item);
    reveal(spec_f_interface);
    reveal(spec_f_type_collection);
    lemma_starts_declaration_ws(Keyword::Interface, a);
    lemma_starts_declaration_ws(Keyword::TypeCollection, a);
    lemma_annotation_block_ws(a);
    lemma_ws0_twice(a);
}

/// Nothing starts in a text of white space alone.
pub proof fn lemma_nothing_starts_in_white_space(a: Seq<char>)
    requires
        spec_ws0(a).len() == 0,
    ensures
        !spec_starts_item(a),
{
    reveal(spec_annotation_block);
    reveal_strlit("interface");
    reveal_strlit("typeCollection");
}

/// An interface that is read takes at least its keyword off the text.
#[verifier::rlimit(40)]
pub proof fn lemma_f_interface_advances(a: Seq<char>)
    ensures
        spec_f_interface(a) is Ok ==> spec_f_interface(a)->Ok_0.0.len() < a.len(),
{
    reveal(spec_f_interface);
    reveal_strlit("interface");
    lemma_whole_is_end(a);
    lemma_steps_inside(a);
    lemma_annotation_block_inside(a);
    let s0 = spec_opt_annotation_block(a).0;
    assert(is_end_of(s0, a));
    match Cursor::At(s0).ws0().kw(Keyword::Interface) {
        Cursor::At(x) => {
            assert(x.len() < a.len());
            lemma_whole_is_end(x);
            lemma_steps_inside(x);
            lemma_tokens_inside(x);
            lemma_f_version_inside(x);
            lemma_members_inside(x);
        },
        Cursor::Failed(_) => {},
    }
}

/// A type collection that is read takes at least its keyword off the text.
#[verifier::rlimit(40)]
pub proof fn lemma_f_type_collection_advances(a: Seq<char>)
    ensures
        spec_f_type_collection(a) is Ok ==> spec_f_type_collection(a)->Ok_0.0.len() < a.len(),
{
    reveal(spec_f_type_collection);
    reveal_strlit("typeCollection");
    lemma_whole_is_end(a);
    lemma_steps_inside(a);
    lemma_annotation_block_inside(a);
    let s0 = spec_opt_annotation_block(a).0;
    assert(is_end_of(s0, a));
    match Cursor::At(s0).ws0().kw(Keyword::TypeCollection) {
        Cursor::At(x) => {
            assert(x.len() < a.len());
            lemma_whole_is_end(x);
            lemma_steps_inside(x);
            lemma_tokens_inside(x);
            lemma_f_version_inside(x);
            lemma_types_inside(x);
        },
        Cursor::Failed(_) => {},
    }
}

/// An item of a model that is read takes something off the text.
pub proof fn lemma_f_model_item_advances(a: Seq<char>)
    ensures
        spec_f_model_item(a) is Ok ==> spec_f_model_item(a)->Ok_0.0.len() < a.len(),
{
    reveal(spec_f_model_item);
    lemma_f_interface_advances(a);
    lemma_f_type_collection_advances(a);
}

/// Where the pass over the items of a model finds no syntax error, the
/// items are read, and nothing but white space is left behind them.
pub proof fn lemma_clean_items_are_read(a: Seq<char>, total: nat)
    requires
        spec_scan(a, false, total).len() == 0,
    ensures
        spec_ws0(spec_model_items(a).0).len() == 0,
    decreases a.len(),
{
    reveal(spec_model_items);
    let s0 = spec_ws0(a);
    lemma_span_splits(a, CharClass::Whitespace);
    if s0.len() == 0 {
        lemma_nothing_starts_in_white_space(a);
        assert(spec_f_model_item(a) is Err) by {
            reveal(spec_f_model_item);
        }
    } else {
        let step = spec_scan_step(s0, false);
        assert(step.2 is None);
        assert(spec_starts_item(s0));
        lemma_starts_declaration_ws(Keyword::Interface, a);
        lemma_starts_declaration_ws(Keyword::TypeCollection, a);
        lemma_f_model_item_ws(a);
        lemma_f_model_item_advances(s0);
        let rest = spec_f_model_item(s0)->Ok_0.0;
        assert(step.0 == rest);
        lemma_clean_items_are_read(rest, total);
    }
}

/// A text in which no syntax error is found is read as a model, and
/// nothing but white space is left behind the model.
pub proof fn law_clean_text_is_read(text: Seq<char>)
    requires
        spec_syntax_diagnostics(text).len() == 0,
    ensures
        spec_f_model(text) is Ok,
        spec_leftover(spec_f_model(text)->Ok_0.0, text.len()) == Seq::<DiagnosticView>::empty(),
{
    reveal(spec_f_model);
    match spec_package(text) {
        Err(_) => {},
        Ok((s1, _)) => {
            lemma_clean_items_are_read(spec_imports(s1).0, text.len());
        },
    }
}

} // verus!
