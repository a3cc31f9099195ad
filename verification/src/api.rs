//! Source text in, a model or diagnostics out.

use vstd::prelude::*;
use vstd::string::StrSliceExecFns;
use vstd::pervasive::unreached;
use crate::ast::{FModel, FModelView};
use crate::clean::law_clean_text_is_read;
use crate::deploy::{spec_fd_model, fd_model};
use crate::deployment::{FdModel, FdModelView};
use crate::diag::{Diagnostic, DiagnosticView, spec_syntax_diagnostic, syntax_diagnostic};
use crate::fd_syntax::{
    spec_fd_diagnostic, spec_fd_syntax_diagnostics, fd_diagnostic, fd_syntax_diagnostics,
};
use crate::lexer::{Expected, SyntaxErrorView, error_at, spec_ws0, ws0};
use crate::model::{spec_f_model, f_model};
use crate::syntax::{spec_syntax_diagnostics, syntax_diagnostics};
use crate::validate::{spec_validate, validate};

verus! {

/// How many declarations a chain of bases may hold where the caller names
/// no limit.
pub const DEFAULT_MAX_DEPTH: usize = 64;

/// What is reported where a text goes on behind the last declaration that
/// could be read: that a declaration was wanted at what is left behind
/// white space. Nothing is reported where only white space is left.
pub open spec fn spec_leftover(rest: Seq<char>, total: nat) -> Seq<DiagnosticView> {
    if spec_ws0(rest).len() > 0 {
        seq![
            spec_syntax_diagnostic(
                SyntaxErrorView { input: spec_ws0(rest), expected: Expected::Declaration },
                total,
            ),
        ]
    } else {
        Seq::empty()
    }
}

/// Reports what is left of a text of `total` characters behind the last
/// declaration that could be read.
pub(crate) fn leftover(rest: &str, total: usize) -> (found: Vec<Diagnostic>)
    requires
        rest@.len() <= total,
    ensures
        found.deep_view() == spec_leftover(rest@, total as nat),
{
    let mut found: Vec<Diagnostic> = Vec::new();
    assert(found.deep_view() =~= Seq::<DiagnosticView>::empty());
    let left = ws0(rest);
    if !left.is_empty() {
        let d = syntax_diagnostic(&error_at(left, Expected::Declaration), total);
        found.push(d);
        assert(found.deep_view() =~= seq![d.deep_view()]);
    }
    found
}

/// The model that a text without syntax errors stands for.
pub open spec fn spec_model_of(text: Seq<char>) -> FModelView
    recommends
        spec_syntax_diagnostics(text).len() == 0,
{
    spec_f_model(text)->Ok_0.1
}

/// The model that the text of a core model stands for, or everything that
/// is wrong with it: the syntax errors, every one of them, where the text
/// has any; else what validating the model by itself finds, with
/// `max_depth` as the limit for chains of bases, where it finds anything;
/// and else the model.
pub open spec fn spec_parse_model(text: Seq<char>, max_depth: nat) -> Result<
    FModelView,
    Seq<DiagnosticView>,
> {
    if spec_syntax_diagnostics(text).len() > 0 {
        Err(spec_syntax_diagnostics(text))
    } else if spec_validate(spec_model_of(text), max_depth).len() > 0 {
        Err(spec_validate(spec_model_of(text), max_depth))
    } else {
        Ok(spec_model_of(text))
    }
}

/// Whether the result `r` of reading a text is the result `expected` over
/// mathematical values: a model with that value, or findings with those
/// values.
pub open spec fn reads<T: DeepView>(
    r: Result<T, Vec<Diagnostic>>,
    expected: Result<T::V, Seq<DiagnosticView>>,
) -> bool {
    match expected {
        Ok(m) => r is Ok && r->Ok_0.deep_view() == m,
        Err(found) => r is Err && r->Err_0.deep_view() == found,
    }
}

/// Reads and validates the text of a core model, following chains of bases
/// over at most `max_depth` declarations.
pub fn parse_model_within(text: &str, max_depth: usize) -> (r: Result<FModel, Vec<Diagnostic>>)
    ensures
        reads(r, spec_parse_model(text@, max_depth as nat)),
        r is Err ==> r->Err_0.len() > 0,
{
    let syntax = syntax_diagnostics(text);
    if syntax.len() > 0 {
        return Err(syntax);
    }
    proof {
        law_clean_text_is_read(text@);
    }
    match f_model(text) {
        Ok((_, model)) => {
            let (model, found) = validate(model, max_depth);
            if found.len() > 0 {
                Err(found)
            } else {
                Ok(model)
            }
        },
        Err(_) => unreached(),
    }
}

/// Reads and validates the text of a core model, with the default limit
/// for chains of bases.
pub fn parse_model(text: &str) -> (r: Result<FModel, Vec<Diagnostic>>)
    ensures
        reads(r, spec_parse_model(text@, DEFAULT_MAX_DEPTH as nat)),
        r is Err ==> r->Err_0.len() > 0,
{
    parse_model_within(text, DEFAULT_MAX_DEPTH)
}

/// The deployment model that a text stands for, or every syntax error in
/// it and every place at which the limit of nesting is exceeded.
///
/// Where the text has syntax errors, they are the result. Else the model is
/// read; where something is left behind it, or it cannot be read after
/// all, that is the result, and else the model is. What the model is laid
/// over is not looked at here.
pub open spec fn spec_parse_deployment(
    text: Seq<char>,
) -> Result<FdModelView, Seq<DiagnosticView>> {
    if spec_fd_syntax_diagnostics(text).len() > 0 {
        Err(spec_fd_syntax_diagnostics(text))
    } else {
        match spec_fd_model(text) {
            Err(e) => Err(seq![spec_fd_diagnostic(e, text.len())]),
            Ok((rest, m)) => if spec_leftover(rest, text.len()).len() > 0 {
                Err(spec_leftover(rest, text.len()))
            } else {
                Ok(m)
            },
        }
    }
}

/// Reads the text of a deployment model.
pub fn parse_deployment(text: &str) -> (r: Result<FdModel, Vec<Diagnostic>>)
    ensures
        reads(r, spec_parse_deployment(text@)),
        r is Err ==> r->Err_0.len() > 0,
{
    let syntax = fd_syntax_diagnostics(text);
    if syntax.len() > 0 {
        return Err(syntax);
    }
    let total = text.unicode_len();
    match fd_model(text) {
        Err(e) => {
            let d = fd_diagnostic(&e, total);
            let mut found: Vec<Diagnostic> = Vec::new();
            found.push(d);
            assert(found.deep_view() =~= seq![d.deep_view()]);
            Err(found)
        },
        Ok((rest, model)) => {
            let left = leftover(rest, total);
            if left.len() > 0 {
                Err(left)
            } else {
                Ok(model)
            }
        },
    }
}

} // verus!
