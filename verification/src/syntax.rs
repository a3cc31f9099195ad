//! Reading a whole text and reporting every independent syntax error in it.
//! A declaration that fails is given up, and reading is taken up again at the
//! next closing brace or keyword of a declaration, so that one pass finds
//! the errors behind the first one too.

use vstd::prelude::*;
use vstd::string::StrSliceExecFns;
use crate::diag::{Diagnostic, DiagnosticView, spec_syntax_diagnostic, syntax_diagnostic};
use crate::interface::{spec_f_member, spec_starts_member, f_member, starts_member};
use crate::lexer::{
    Expected, SyntaxError, SyntaxErrorView, ch, error_at, skip_token, spec_skip_token, spec_ws0,
    ws0,
};
use crate::model::{
    spec_f_model_item, spec_imports, spec_package, spec_starts_item, f_model_item, imports,
    package, starts_item,
};
use crate::scan::starts_with;

verus! {

/// Whether reading can be taken up again at the start of `s`: at a closing
/// brace, or at the keyword of a declaration.
pub open spec fn spec_at_sync_point(s: Seq<char>) -> bool {
    starts_with(s, '}') || spec_starts_item(s) || spec_starts_member(s)
}

/// Tells whether reading can be taken up again at the start of `s`.
pub fn at_sync_point(s: &str) -> (r: bool)
    ensures
        r == spec_at_sync_point(s@),
{
    ch('}', s).is_ok() || starts_item(s) || starts_member(s)
}

/// Where reading is taken up again from `s` on: behind white space, at the
/// first token at which it can be, or at the end of the text.
pub open spec fn spec_resync(s: Seq<char>) -> Seq<char>
    decreases s.len(),
{
    let s0 = spec_ws0(s);
    if s0.len() == 0 || spec_at_sync_point(s0) {
        s0
    } else if spec_skip_token(s0).len() < s.len() {
        spec_resync(spec_skip_token(s0))
    } else {
        s0
    }
}

/// Finds where reading is taken up again from `s` on.
pub fn resync(s: &str) -> (r: &str)
    ensures
        r@ == spec_resync(s@),
        r@.len() <= s@.len(),
{
    let mut rest = s;
    loop
        invariant_except_break
            spec_resync(s@) == spec_resync(rest@),
        invariant
            rest@.len() <= s@.len(),
        ensures
            rest@ == spec_resync(s@),
            rest@.len() <= s@.len(),
        decreases rest@.len(),
    {
        let s0 = ws0(rest);
        if s0.is_empty() || at_sync_point(s0) {
            rest = s0;
            break ;
        }
        rest = skip_token(s0);
    }
    rest
}

/// Where reading is taken up again after the failure `e` of a declaration
/// at `s0`: from the place of the failure on or, where that is the start of
/// the declaration itself, from behind its first token on.
pub open spec fn spec_after_failure(s0: Seq<char>, e: SyntaxErrorView) -> Seq<char> {
    if e.input.len() < s0.len() {
        spec_resync(e.input)
    } else {
        spec_resync(spec_skip_token(s0))
    }
}

/// Finds where reading is taken up again after the failure `e` of a
/// declaration at `s0`.
pub(crate) fn after_failure<'a>(s0: &'a str, e: &SyntaxError<'a>) -> (r: &'a str)
    requires
        s0@.len() > 0,
        e.input@.len() <= s0@.len(),
    ensures
        r@ == spec_after_failure(s0@, e@),
        r@.len() < s0@.len(),
{
    if e.input.unicode_len() < s0.unicode_len() {
        resync(e.input)
    } else {
        resync(skip_token(s0))
    }
}

/// One step of the pass over a text: what is read at `s0`, which does not
/// start with white space and is not empty. It is the text to go on with,
/// whether a declaration was given up and has not ended yet, and the
/// failure, if there was one.
///
/// An item of a model is read where one starts. Otherwise, behind a
/// declaration that was given up, a closing brace is passed over and a
/// member is read as if it stood in an interface; anything else is a
/// failure.
pub open spec fn spec_scan_step(s0: Seq<char>, recovering: bool) -> (
    Seq<char>,
    bool,
    Option<SyntaxErrorView>,
) {
    if spec_starts_item(s0) {
        match spec_f_model_item(s0) {
            Ok((rest, _)) => (rest, false, None),
            Err(e) => (spec_after_failure(s0, e), true, Some(e)),
        }
    } else if recovering && starts_with(s0, '}') {
        (s0.skip(1), true, None)
    } else if recovering {
        match spec_f_member(s0) {
            Ok((rest, _)) => (rest, true, None),
            Err(e) => (spec_after_failure(s0, e), true, Some(e)),
        }
    } else {
        let e = SyntaxErrorView { input: s0, expected: Expected::Declaration };
        (spec_after_failure(s0, e), true, Some(e))
    }
}

/// Takes one step of the pass over a text.
pub(crate) fn scan_step<'a>(s0: &'a str, recovering: bool) -> (r: (
    &'a str,
    bool,
    Option<SyntaxError<'a>>,
))
    requires
        s0@.len() > 0,
    ensures
        r.0@ == spec_scan_step(s0@, recovering).0,
        r.1 == spec_scan_step(s0@, recovering).1,
        r.2.is_some() == spec_scan_step(s0@, recovering).2.is_some(),
        r.2.is_some() ==> r.2.unwrap()@ == spec_scan_step(s0@, recovering).2.unwrap(),
        r.2.is_some() ==> r.2.unwrap().input@.len() <= s0@.len(),
        r.0@.len() < s0@.len(),
{
    if starts_item(s0) {
        match f_model_item(s0) {
            Ok((rest, _)) => (rest, false, None),
            Err(e) => (after_failure(s0, &e), true, Some(e)),
        }
    } else if recovering && ch('}', s0).is_ok() {
        match ch('}', s0) {
            Ok(rest) => (rest, true, None),
            Err(e) => (after_failure(s0, &e), true, Some(e)),
        }
    } else if recovering {
        match f_member(s0) {
            Ok((rest, _)) => (rest, true, None),
            Err(e) => (after_failure(s0, &e), true, Some(e)),
        }
    } else {
        let e = error_at(s0, Expected::Declaration);
        (after_failure(s0, &e), true, Some(e))
    }
}

/// What a step reports in a text of `total` characters.
pub open spec fn spec_step_report(failure: Option<SyntaxErrorView>, total: nat) -> Seq<
    DiagnosticView,
> {
    match failure {
        Some(e) => seq![spec_syntax_diagnostic(e, total)],
        None => Seq::empty(),
    }
}

/// The syntax errors from `s` on to the end of a text of `total`
/// characters, in the order in which they stand there.
pub open spec fn spec_scan(s: Seq<char>, recovering: bool, total: nat) -> Seq<DiagnosticView>
    decreases s.len(),
{
    let s0 = spec_ws0(s);
    if s0.len() == 0 {
        Seq::empty()
    } else {
        let step = spec_scan_step(s0, recovering);
        if step.0.len() < s.len() {
            spec_step_report(step.2, total) + spec_scan(step.0, step.1, total)
        } else {
            spec_step_report(step.2, total)
        }
    }
}

/// Reports the syntax errors from `s` on to the end of a text of `total`
/// characters, behind those in `found`.
pub(crate) fn scan(s: &str, recovering: bool, total: usize, found: &mut Vec<Diagnostic>)
    requires
        s@.len() <= total,
    ensures
        final(found).deep_view() == old(found).deep_view() + spec_scan(
            s@,
            recovering,
            total as nat,
        ),
{
    let mut rest = s;
    let mut recovering = recovering;
    let ghost start = found.deep_view();
    let ghost first_recovering = recovering;
    assert(start + Seq::<DiagnosticView>::empty() =~= start);
    loop
        invariant
            rest@.len() <= total,
            start + spec_scan(s@, first_recovering, total as nat) == found.deep_view() + spec_scan(
                rest@,
                recovering,
                total as nat,
            ),
        ensures
            found.deep_view() == start + spec_scan(s@, first_recovering, total as nat),
        decreases rest@.len(),
    {
        let s0 = ws0(rest);
        if s0.is_empty() {
            assert(found.deep_view() + Seq::<DiagnosticView>::empty() =~= found.deep_view());
            break ;
        }
        let step = scan_step(s0, recovering);
        let ghost before = found.deep_view();
        let ghost tail = spec_scan(step.0@, step.1, total as nat);
        match step.2 {
            Some(e) => {
                let d = syntax_diagnostic(&e, total);
                found.push(d);
                assert(found.deep_view() =~= before.push(d.deep_view()));
                assert(before.push(d.deep_view()) + tail =~= before + (seq![d.deep_view()] + tail));
            },
            None => {
                assert(before + (Seq::<DiagnosticView>::empty() + tail) =~= before + tail);
            },
        }
        rest = step.0;
        recovering = step.1;
    }
}

/// Every syntax error of the text of a core model, in the order in which
/// they stand there. Where the package header fails, that is the first
/// error, and reading is taken up behind it as behind any other failure.
pub open spec fn spec_syntax_diagnostics(text: Seq<char>) -> Seq<DiagnosticView> {
    match spec_package(text) {
        Err(e) => seq![spec_syntax_diagnostic(e, text.len())] + spec_scan(
            spec_resync(if e.input.len() < text.len() {
                e.input
            } else {
                spec_skip_token(text)
            }),
            true,
            text.len(),
        ),
        Ok((s1, _)) => spec_scan(spec_imports(s1).0, false, text.len()),
    }
}

/// Reports every syntax error of the text of a core model.
pub fn syntax_diagnostics(text: &str) -> (found: Vec<Diagnostic>)
    ensures
        found.deep_view() == spec_syntax_diagnostics(text@),
{
    let total = text.unicode_len();
    let mut found: Vec<Diagnostic> = Vec::new();
    assert(found.deep_view() =~= Seq::<DiagnosticView>::empty());
    match package(text) {
        Err(e) => {
            let d = syntax_diagnostic(&e, total);
            found.push(d);
            assert(found.deep_view() =~= seq![d.deep_view()]);
            let from = if e.input.unicode_len() < total {
                e.input
            } else {
                skip_token(text)
            };
            scan(resync(from), true, total, &mut found);
        },
        Ok((s1, _)) => {
            let (s2, _) = imports(s1);
            scan(s2, false, total, &mut found);
            assert(Seq::<DiagnosticView>::empty() + spec_scan(s2@, false, total as nat)
                =~= spec_scan(s2@, false, total as nat));
        },
    }
    found
}

} // verus!
