//! What is reported of a text or of a model: syntax errors with their
//! position, and the findings of validation. Nothing is reported silently or
//! dropped; every finding carries what is needed to show it.

use vstd::prelude::*;
use vstd::string::StrSliceExecFns;
use crate::lexer::{Expected, SyntaxError, SyntaxErrorView, first, spec_first};

verus! {

/// The kinds of value that a property of a deployment can have.
#[derive(Debug, Clone, Copy, PartialEq, Eq)]
pub enum FdValueKind {
    Integer,
    Text,
    Boolean,
    InterfaceRef,
}

impl DeepView for FdValueKind {
    type V = FdValueKind;

    open spec fn deep_view(&self) -> FdValueKind {
        *self
    }
}

/// One finding.
#[derive(Debug, Clone, PartialEq, Eq)]
pub enum Diagnostic {
    /// The text does not follow the grammar: at the character with the index
    /// `position`, counted from the start of the text, `expected` was
    /// wanted and `found` stands (nothing at the end of the text).
    SyntaxError { position: usize, expected: Expected, found: Option<char> },
    /// In `scope`, `name` refers to nothing that is declared.
    UnknownTypeReference { name: String, scope: String },
    /// In `scope`, `name` is declared twice: first as the declaration with
    /// the index `first`, and again as the one with the index `second`.
    DuplicateDeclaration { name: String, scope: String, first: usize, second: usize },
    /// The value given for `property` is not of the kind that its
    /// declaration asks for.
    InvalidPropertyValue { property: String, expected_kind: FdValueKind, found_kind: FdValueKind },
    /// Nothing that was handed over answers this import.
    UnresolvedImport { import: String },
    /// A chain of bases is longer than allowed: `depth` declarations were
    /// followed without reaching its end.
    RecursionLimitExceeded { depth: usize },
    /// A chain of bases comes back to a declaration on it; the chain lists
    /// the names as they were followed, the repeated one last.
    CyclicBaseType { chain: Vec<String> },
}

/// The mathematical value of [`Diagnostic`].
pub ghost enum DiagnosticView {
    SyntaxError { position: nat, expected: Expected, found: Option<char> },
    UnknownTypeReference { name: Seq<char>, scope: Seq<char> },
    DuplicateDeclaration { name: Seq<char>, scope: Seq<char>, first: nat, second: nat },
    InvalidPropertyValue {
        property: Seq<char>,
        expected_kind: FdValueKind,
        found_kind: FdValueKind,
    },
    UnresolvedImport { import: Seq<char> },
    RecursionLimitExceeded { depth: nat },
    CyclicBaseType { chain: Seq<Seq<char>> },
}

impl DeepView for Diagnostic {
    type V = DiagnosticView;

    open spec fn deep_view(&self) -> DiagnosticView {
        match self {
            Diagnostic::SyntaxError { position, expected, found } => DiagnosticView::SyntaxError {
                position: *position as nat,
                expected: *expected,
                found: *found,
            },
            Diagnostic::UnknownTypeReference { name, scope } => {
                DiagnosticView::UnknownTypeReference { name: name@, scope: scope@ }
            },
            Diagnostic::DuplicateDeclaration {
                name,
                scope,
                first,
                second,
            } => DiagnosticView::DuplicateDeclaration {
                name: name@,
                scope: scope@,
                first: *first as nat,
                second: *second as nat,
            },
            Diagnostic::InvalidPropertyValue {
                property,
                expected_kind,
                found_kind,
            } => DiagnosticView::InvalidPropertyValue {
                property: property@,
                expected_kind: *expected_kind,
                found_kind: *found_kind,
            },
            Diagnostic::UnresolvedImport { import } => DiagnosticView::UnresolvedImport {
                import: import@,
            },
            Diagnostic::RecursionLimitExceeded { depth } => DiagnosticView::RecursionLimitExceeded {
                depth: *depth as nat,
            },
            Diagnostic::CyclicBaseType { chain } => DiagnosticView::CyclicBaseType {
                chain: chain.deep_view(),
            },
        }
    }
}

/// What is reported of a syntax error in a text of `total` characters: the
/// index of the character at which the grammar failed, what it wanted
/// there, and what stands there.
pub open spec fn spec_syntax_diagnostic(e: SyntaxErrorView, total: nat) -> DiagnosticView {
    DiagnosticView::SyntaxError {
        position: (total - e.input.len()) as nat,
        expected: e.expected,
        found: spec_first(e.input),
    }
}

/// Reports a syntax error in a text of `total` characters.
pub(crate) fn syntax_diagnostic(e: &SyntaxError, total: usize) -> (d: Diagnostic)
    requires
        e.input@.len() <= total,
    ensures
        d.deep_view() == spec_syntax_diagnostic(e@, total as nat),
{
    let left = e.input.unicode_len();
    Diagnostic::SyntaxError { position: total - left, expected: e.expected, found: first(e.input) }
}

} // verus!
