//! Reading the whole text of a deployment model and reporting every
//! independent syntax error in it, and every place at which extension
//! elements lie deeper in each other than the limit allows. A specification or a deployment that
//! fails is given up, and reading is taken up again where the next one
//! starts.

use vstd::prelude::*;
use vstd::string::StrSliceExecFns;
use crate::deploy::{
    spec_fd_root_element, spec_fd_specification, spec_imports, spec_starts_keyword,
    fd_root_element, fd_specification, imports, starts_keyword,
};
use crate::diag::{Diagnostic, DiagnosticView, spec_syntax_diagnostic, syntax_diagnostic};
use crate::lexer::{
    Expected, Keyword, SyntaxError, SyntaxErrorView, error_at, skip_token, spec_skip_token,
    spec_ws0, ws0,
};
use crate::model::{spec_package, package};
use crate::extension::DEFAULT_MAX_NESTING;

verus! {

/// What is reported of a failure in the text of a deployment model of
/// `total` characters: that the limit of nesting is exceeded, where the
/// failure is for want of less nesting, with the limit as the depth; and
/// else the syntax error.
pub open spec fn spec_fd_diagnostic(e: SyntaxErrorView, total: nat) -> DiagnosticView {
    if e.expected == Expected::Nesting {
        DiagnosticView::RecursionLimitExceeded { depth: DEFAULT_MAX_NESTING as nat }
    } else {
        spec_syntax_diagnostic(e, total)
    }
}

/// Reports a failure in the text of a deployment model of `total`
/// characters.
pub(crate) fn fd_diagnostic(e: &SyntaxError, total: usize) -> (d: Diagnostic)
    requires
        e.input@.len() <= total,
    ensures
        d.deep_view() == spec_fd_diagnostic(e@, total as nat),
{
    match e.expected {
        Expected::Nesting => Diagnostic::RecursionLimitExceeded { depth: DEFAULT_MAX_NESTING },
        _ => syntax_diagnostic(e, total),
    }
}

/// What a step reports in the text of a deployment model of `total`
/// characters.
pub open spec fn spec_fd_step_report(failure: Option<SyntaxErrorView>, total: nat) -> Seq<
    DiagnosticView,
> {
    match failure {
        Some(e) => seq![spec_fd_diagnostic(e, total)],
        None => Seq::empty(),
    }
}

/// Where reading a deployment model is taken up again from `s` on: behind
/// white space, at the first token at which a specification or a
/// deployment starts, or at the end of the text.
pub open spec fn spec_fd_resync(s: Seq<char>) -> Seq<char>
    decreases s.len(),
{
    let s0 = spec_ws0(s);
    if s0.len() == 0 || spec_starts_keyword(Keyword::Specification, s0) || spec_starts_keyword(
        Keyword::Define,
        s0,
    ) {
        s0
    } else if spec_skip_token(s0).len() < s.len() {
        spec_fd_resync(spec_skip_token(s0))
    } else {
        s0
    }
}

/// Finds where reading a deployment model is taken up again from `s` on.
pub fn fd_resync(s: &str) -> (r: &str)
    ensures
        r@ == spec_fd_resync(s@),
        r@.len() <= s@.len(),
{
    let mut rest = s;
    loop
        invariant_except_break
            spec_fd_resync(s@) == spec_fd_resync(rest@),
        invariant
            rest@.len() <= s@.len(),
        ensures
            rest@ == spec_fd_resync(s@),
            rest@.len() <= s@.len(),
        decreases rest@.len(),
    {
        let s0 = ws0(rest);
        if s0.is_empty() || starts_keyword(Keyword::Specification, s0) || starts_keyword(
            Keyword::Define,
            s0,
        ) {
            rest = s0;
            break ;
        }
        rest = skip_token(s0);
    }
    rest
}

/// Where reading a deployment model is taken up again after the failure
/// `e` of a declaration at `s0`.
pub open spec fn spec_fd_after_failure(s0: Seq<char>, e: SyntaxErrorView) -> Seq<char> {
    if e.input.len() < s0.len() {
        spec_fd_resync(e.input)
    } else {
        spec_fd_resync(spec_skip_token(s0))
    }
}

/// Finds where reading a deployment model is taken up again after the
/// failure `e` of a declaration at `s0`.
pub(crate) fn fd_after_failure<'a>(s0: &'a str, e: &SyntaxError<'a>) -> (r: &'a str)
    requires
        s0@.len() > 0,
        e.input@.len() <= s0@.len(),
    ensures
        r@ == spec_fd_after_failure(s0@, e@),
        r@.len() < s0@.len(),
{
    if e.input.unicode_len() < s0.unicode_len() {
        fd_resync(e.input)
    } else {
        fd_resync(skip_token(s0))
    }
}

/// One step of the pass over the text of a deployment model: what is read
/// at `s0`, which does not start with white space and is not empty. It is
/// the text to go on with, and the failure, if there was one. A
/// specification or a deployment is read where one starts; anything else
/// is a failure.
pub open spec fn spec_fd_scan_step(s0: Seq<char>) -> (Seq<char>, Option<SyntaxErrorView>) {
    if spec_starts_keyword(Keyword::Specification, s0) {
        match spec_fd_specification(s0) {
            Ok((rest, _)) => (rest, None),
            Err(e) => (spec_fd_after_failure(s0, e), Some(e)),
        }
    } else if spec_starts_keyword(Keyword::Define, s0) {
        match spec_fd_root_element(s0) {
            Ok((rest, _)) => (rest, None),
            Err(e) => (spec_fd_after_failure(s0, e), Some(e)),
        }
    } else {
        let e = SyntaxErrorView { input: s0, expected: Expected::Declaration };
        (spec_fd_after_failure(s0, e), Some(e))
    }
}

/// Takes one step of the pass over the text of a deployment model.
pub(crate) fn fd_scan_step<'a>(s0: &'a str) -> (r: (&'a str, Option<SyntaxError<'a>>))
    requires
        s0@.len() > 0,
    ensures
        r.0@ == spec_fd_scan_step(s0@).0,
        r.1.is_some() == spec_fd_scan_step(s0@).1.is_some(),
        r.1.is_some() ==> r.1.unwrap()@ == spec_fd_scan_step(s0@).1.unwrap(),
        r.1.is_some() ==> r.1.unwrap().input@.len() <= s0@.len(),
        r.0@.len() < s0@.len(),
{
    if starts_keyword(Keyword::Specification, s0) {
        match fd_specification(s0) {
            Ok((rest, _)) => (rest, None),
            Err(e) => (fd_after_failure(s0, &e), Some(e)),
        }
    } else if starts_keyword(Keyword::Define, s0) {
        match fd_root_element(s0) {
            Ok((rest, _)) => (rest, None),
            Err(e) => (fd_after_failure(s0, &e), Some(e)),
        }
    } else {
        let e = error_at(s0, Expected::Declaration);
        (fd_after_failure(s0, &e), Some(e))
    }
}

/// The syntax errors from `s` on to the end of the text of a deployment
/// model of `total` characters, in the order in which they stand there.
pub open spec fn spec_fd_scan(s: Seq<char>, total: nat) -> Seq<DiagnosticView>
    decreases s.len(),
{
    let s0 = spec_ws0(s);
    if s0.len() == 0 {
        Seq::empty()
    } else {
        let step = spec_fd_scan_step(s0);
        if step.0.len() < s.len() {
            spec_fd_step_report(step.1, total) + spec_fd_scan(step.0, total)
        } else {
            spec_fd_step_report(step.1, total)
        }
    }
}

/// Reports the syntax errors from `s` on to the end of the text of a
/// deployment model of `total` characters, behind those in `found`.
pub(crate) fn fd_scan(s: &str, total: usize, found: &mut Vec<Diagnostic>)
    requires
        s@.len() <= total,
    ensures
        final(found).deep_view() == old(found).deep_view() + spec_fd_scan(s@, total as nat),
{
    let mut rest = s;
    let ghost start = found.deep_view();
    assert(start + Seq::<DiagnosticView>::empty() =~= start);
    loop
        invariant
            rest@.len() <= total,
            start + spec_fd_scan(s@, total as nat) == found.deep_view() + spec_fd_scan(
                rest@,
                total as nat,
            ),
        ensures
            found.deep_view() == start + spec_fd_scan(s@, total as nat),
        decreases rest@.len(),
    {
        let s0 = ws0(rest);
        if s0.is_empty() {
            assert(found.deep_view() + Seq::<DiagnosticView>::empty() =~= found.deep_view());
            break ;
        }
        let step = fd_scan_step(s0);
        let ghost before = found.deep_view();
        let ghost tail = spec_fd_scan(step.0@, total as nat);
        match step.1 {
            Some(e) => {
                let d = fd_diagnostic(&e, total);
                found.push(d);
                assert(found.deep_view() =~= before.push(d.deep_view()));
                assert(before.push(d.deep_view()) + tail =~= before + (seq![d.deep_view()] + tail));
            },
            None => {
                assert(before + (Seq::<DiagnosticView>::empty() + tail) =~= before + tail);
            },
        }
        rest = step.0;
    }
}

/// Every syntax error of the text of a deployment model, in the order in
/// which they stand there. Where the package header fails, that is the
/// first error, and reading is taken up behind it as behind any other
/// failure.
pub open spec fn spec_fd_syntax_diagnostics(text: Seq<char>) -> Seq<DiagnosticView> {
    match spec_package(text) {
        Err(e) => seq![spec_fd_diagnostic(e, text.len())] + spec_fd_scan(
            spec_fd_after_failure(text, e),
            text.len(),
        ),
        Ok((s1, _)) => spec_fd_scan(spec_imports(s1).0, text.len()),
    }
}

/// Reports every syntax error of the text of a deployment model.
pub fn fd_syntax_diagnostics(text: &str) -> (found: Vec<Diagnostic>)
    ensures
        found.deep_view() == spec_fd_syntax_diagnostics(text@),
{
    let total = text.unicode_len();
    let mut found: Vec<Diagnostic> = Vec::new();
    assert(found.deep_view() =~= Seq::<DiagnosticView>::empty());
    match package(text) {
        Err(e) => {
            let d = fd_diagnostic(&e, total);
            found.push(d);
            assert(found.deep_view() =~= seq![d.deep_view()]);
            let from = if e.input.unicode_len() < total {
                fd_resync(e.input)
            } else {
                fd_resync(skip_token(text))
            };
            fd_scan(from, total, &mut found);
        },
        Ok((s1, _)) => {
            let (s2, _) = imports(s1);
            fd_scan(s2, total, &mut found);
            assert(Seq::<DiagnosticView>::empty() + spec_fd_scan(s2@, total as nat)
                =~= spec_fd_scan(s2@, total as nat));
        },
    }
    found
}

} // verus!
