//! The grammar of extension elements: properties set on things that are no
//! declarations of the core model. Extension elements hold extension
//! elements, to a depth that the caller limits.

use vstd::prelude::*;
use crate::deploy::{spec_id, spec_property_set, id, property_set};
use crate::deployment::{
    FdExtensionElement, FdExtensionElementView, FdSpecification, FdSpecificationView,
    lemma_extension_view,
};
use crate::diag::{Diagnostic, DiagnosticView};
use crate::overlay::{spec_check_property_set, check_property_set};
use crate::lexer::{
    Cursor, Expected, Parsed, SpecParsed, SyntaxErrorView, agrees, advances, ch, error_at, fqn,
    sp1, spec_behind, spec_fqn, spec_ws0, within, ws0, yield_at,
};

verus! {

/// How deep extension elements may lie in each other where the caller names
/// no limit.
pub const DEFAULT_MAX_NESTING: usize = 64;

/// Whether an extension element starts at the start of `s`: behind any white
/// space stand a tag, a name and an opening brace.
pub open spec fn spec_starts_extension(s: Seq<char>) -> bool {
    match spec_id(spec_ws0(s)) {
        Err(_) => false,
        Ok((s1, _)) => match Cursor::At(s1).sp1() {
            Cursor::Failed(_) => false,
            Cursor::At(s2) => match spec_fqn(s2) {
                Err(_) => false,
                Ok((s3, _)) => Cursor::At(s3).ws0().ch('{') is At,
            },
        },
    }
}

/// Tells whether an extension element starts at the start of `s`.
pub fn starts_extension(s: &str) -> (r: bool)
    ensures
        r == spec_starts_extension(s@),
{
    let s0 = ws0(s);
    let s1 = match id(s0) {
        Ok((rest, _)) => rest,
        Err(_) => { return false; },
    };
    let s2 = match sp1(s1) {
        Ok(rest) => rest,
        Err(_) => { return false; },
    };
    let s3 = match fqn(s2) {
        Ok((rest, _)) => rest,
        Err(_) => { return false; },
    };
    ch('{', ws0(s3)).is_ok()
}

/// An extension element of which `depth` levels may still be opened:
/// `TAG NAME { properties elements }`. Where no level may be opened, it
/// fails at its opening brace for want of less nesting. The extension
/// elements that it holds may open one level less.
pub open spec fn spec_fd_extension_element_within(
    s: Seq<char>,
    depth: nat,
) -> SpecParsed<FdExtensionElementView>
    decreases depth, s.len(), 0nat,
{
    match spec_id(spec_ws0(s)) {
        Err(e) => Err(e),
        Ok((s1, tag)) => match Cursor::At(s1).sp1() {
            Cursor::Failed(e) => Err(e),
            Cursor::At(s2) => match spec_fqn(s2) {
                Err(e) => Err(e),
                Ok((s3, name)) => match Cursor::At(s3).ws0().ch('{') {
                    Cursor::Failed(e) => Err(e),
                    Cursor::At(s4) => if depth == 0 {
                        Err(SyntaxErrorView { input: spec_ws0(s3), expected: Expected::Nesting })
                    } else {
                        let (s5, properties) = spec_property_set(s4);
                        match spec_fd_extension_elements(s5, (depth - 1) as nat) {
                            Err(e) => Err(e),
                            Ok((s6, elements)) => yield_at(
                                Cursor::At(s6).ws0().ch('}'),
                                FdExtensionElementView { tag, name, properties, elements },
                            ),
                        }
                    },
                },
            },
        },
    }
}

/// The extension elements at the start of `s`, of which `depth` levels may
/// still be opened, and what is left behind them. They go on for as long as
/// an extension element starts; one that starts and cannot be read fails
/// the whole.
pub open spec fn spec_fd_extension_elements(s: Seq<char>, depth: nat) -> SpecParsed<
    Seq<FdExtensionElementView>,
>
    decreases depth, s.len(), 1nat,
{
    if !spec_starts_extension(s) {
        Ok((s, Seq::empty()))
    } else {
        match spec_fd_extension_element_within(s, depth) {
            Err(e) => Err(e),
            Ok((rest, first)) => if rest.len() < s.len() {
                spec_behind(seq![first], spec_fd_extension_elements(rest, depth))
            } else {
                Ok((s, Seq::empty()))
            },
        }
    }
}

/// Reads an extension element of which `depth` levels may still be opened.
pub fn fd_extension_element_within(s: &str, depth: usize) -> (r: Parsed<FdExtensionElement>)
    ensures
        agrees(r, spec_fd_extension_element_within(s@, depth as nat)),
        advances(r, s@),
    decreases depth, s@.len(), 0nat,
{
    let s0 = ws0(s);
    let (s1, tag) = id(s0)?;
    let s2 = sp1(s1)?;
    let (s3, name) = fqn(s2)?;
    let opening = ws0(s3);
    let s4 = ch('{', opening)?;
    if depth == 0 {
        return Err(error_at(opening, Expected::Nesting));
    }
    let (s5, properties) = property_set(s4);
    let (s6, elements) = fd_extension_elements(s5, depth - 1)?;
    let s6 = ws0(s6);
    let s7 = ch('}', s6)?;
    let e = FdExtensionElement { tag, name: name.to_string(), properties, elements };
    proof {
        lemma_extension_view(e);
    }
    Ok((s7, e))
}

/// Reads extension elements of which `depth` levels may still be opened,
/// for as long as one starts.
pub fn fd_extension_elements(s: &str, depth: usize) -> (r: Parsed<Vec<FdExtensionElement>>)
    ensures
        agrees(r, spec_fd_extension_elements(s@, depth as nat)),
        within(r, s@),
    decreases depth, s@.len(), 1nat,
{
    let mut rest = s;
    let mut found: Vec<FdExtensionElement> = Vec::new();
    assert(found.deep_view() =~= Seq::<FdExtensionElementView>::empty());
    loop
        invariant
            rest@.len() <= s@.len(),
            spec_fd_extension_elements(s@, depth as nat) == spec_behind(
                found.deep_view(),
                spec_fd_extension_elements(rest@, depth as nat),
            ),
        decreases rest@.len(),
    {
        if !starts_extension(rest) {
            assert(found.deep_view() + Seq::<FdExtensionElementView>::empty()
                =~= found.deep_view());
            return Ok((rest, found));
        }
        match fd_extension_element_within(rest, depth) {
            Err(e) => {
                return Err(e);
            },
            Ok((next, one)) => {
                proof {
                    let before = found.deep_view();
                    match spec_fd_extension_elements(next@, depth as nat) {
                        Ok((_, tail)) => {
                            assert(before.push(one.deep_view()) + tail =~= before + (seq![
                                one.deep_view(),
                            ] + tail));
                        },
                        Err(_) => {},
                    }
                }
                let ghost before = found.deep_view();
                found.push(one);
                assert(found.deep_view() =~= before.push(one.deep_view()));
                rest = next;
            },
        }
    }
}

/// An extension element, nested as deep as the default limit allows.
pub open spec fn spec_fd_extension_element(s: Seq<char>) -> SpecParsed<FdExtensionElementView> {
    spec_fd_extension_element_within(s, DEFAULT_MAX_NESTING as nat)
}

/// Reads an extension element, nested as deep as the default limit allows.
pub fn fd_extension_element(s: &str) -> (r: Parsed<FdExtensionElement>)
    ensures
        agrees(r, spec_fd_extension_element(s@)),
        advances(r, s@),
{
    fd_extension_element_within(s, DEFAULT_MAX_NESTING)
}

/// What is found in extension elements under the specification `spec`:
/// in the properties of each and in the extension elements that it holds,
/// one element after the other.
pub open spec fn spec_check_extensions(
    elements: Seq<FdExtensionElementView>,
    spec: Option<FdSpecificationView>,
) -> Seq<DiagnosticView>
    decreases elements,
{
    if elements.len() == 0 {
        Seq::empty()
    } else {
        spec_check_extensions(elements.drop_last(), spec) + spec_check_property_set(
            elements.last().properties,
            spec,
        ) + spec_check_extensions(elements.last().elements, spec)
    }
}

/// Checks extension elements under the specification `spec`, and reports
/// behind the reports in `found`.
pub fn check_extensions(
    elements: &Vec<FdExtensionElement>,
    spec: Option<&FdSpecification>,
    found: &mut Vec<Diagnostic>,
)
    ensures
        final(found).deep_view() == old(found).deep_view() + spec_check_extensions(
            elements.deep_view(),
            spec.deep_view(),
        ),
    decreases elements,
{
    let ghost all = elements.deep_view();
    let ghost start = found.deep_view();
    let mut i: usize = 0;
    assert(start + Seq::<DiagnosticView>::empty() =~= start);
    assert(all.take(0) =~= Seq::<FdExtensionElementView>::empty());
    while i < elements.len()
        invariant
            i <= elements.len(),
            all == elements.deep_view(),
            found.deep_view() == start + spec_check_extensions(
                all.take(i as int),
                spec.deep_view(),
            ),
        decreases elements.len() - i,
    {
        let e = &elements[i];
        proof {
            assert(all.take(i + 1).drop_last() =~= all.take(i as int));
            assert(all[i as int] == e.deep_view());
            lemma_extension_view(*e);
        }
        let ghost earlier = spec_check_extensions(all.take(i as int), spec.deep_view());
        let ghost own = spec_check_property_set(all[i as int].properties, spec.deep_view());
        let ghost inner = spec_check_extensions(all[i as int].elements, spec.deep_view());
        check_property_set(&e.properties, spec, found);
        check_extensions(&e.elements, spec, found);
        assert(((start + earlier) + own) + inner =~= start + (earlier + own + inner));
        i += 1;
    }
    assert(all.take(elements.len() as int) =~= all);
}

} // verus!
