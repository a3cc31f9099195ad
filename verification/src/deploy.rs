//! The grammar of deployment models: specifications, which declare
//! properties, and deployments, which set them on the declarations of a core
//! model that they name.

use vstd::prelude::*;
use crate::deployment::{
    FdArgument, FdArgumentList, FdArgumentListView, FdArgumentView, FdArray, FdArrayView,
    FdAttribute, FdAttributeView, FdBroadcast, FdBroadcastView, FdCompound, FdCompoundView,
    FdElement, FdElementView, FdEnumValue, FdEnumValueView, FdEnumeration, FdEnumerationOverwrites,
    FdEnumerationOverwritesView, FdEnumerationView, FdField, FdFieldView, FdInterface,
    FdInterfaceRef, FdInterfaceRefView, FdInterfaceView, FdMap, FdMapKey, FdMapKeyView, FdMapValue,
    FdMapValueView, FdMapView, FdMethod, FdMethodView, FdModel, FdModelView, FdOperation,
    FdOperationView, FdPlainTypeOverwrites, FdPlainTypeOverwritesView, FdProperty, FdPropertyDecl,
    FdPropertyDeclView, FdPropertySet, FdPropertySetView, FdPropertyView, FdRootElement,
    FdRootElementView, FdSpecification, FdSpecificationView, FdStruct, FdStructOverwrites,
    FdStructOverwritesView, FdStructView, FdTypeDef, FdTypeDefView, FdTypeDefinition,
    FdTypeDefinitionView, FdTypeOverwrites, FdTypeOverwritesView, FdUnion, FdUnionOverwrites,
    FdUnionOverwritesView, FdUnionView, FdValue, FdValueView, Id, IdView, Import, ImportView,
};
use crate::diag::FdValueKind;
use crate::extension::{DEFAULT_MAX_NESTING, spec_fd_extension_elements, fd_extension_elements};
use crate::lexer::{
    Cursor, Expected, Keyword, Parsed, SpecParsed, SyntaxErrorView, agrees, advances, error_at,
    spec_behind, spec_e_string, spec_fqn, spec_int32, spec_word, within, yield_at, ch, e_string,
    fqn, int32, keyword, kw, sp0, sp1, word, ws0,
};
use crate::model::{spec_import_uri, spec_package, import_uri, package};
use crate::scan::starts_with;

verus! {

/// An identifier.
pub open spec fn spec_id(s: Seq<char>) -> SpecParsed<IdView> {
    match spec_e_string(s) {
        Ok((rest, name)) => Ok((rest, IdView { name })),
        Err(e) => Err(e),
    }
}

/// Reads an identifier.
pub fn id(s: &str) -> (r: Parsed<Id>)
    ensures
        agrees(r, spec_id(s@)),
        advances(r, s@),
{
    match e_string(s) {
        Ok((rest, name)) => Ok((rest, Id { name: name.to_string() })),
        Err(e) => Err(e),
    }
}

/// The selector behind a qualified name, where one is written: `:` and an
/// identifier.
pub open spec fn spec_opt_selector(s: Seq<char>) -> (Seq<char>, Option<IdView>) {
    match Cursor::At(s).ch(':') {
        Cursor::Failed(_) => (s, None),
        Cursor::At(s1) => match spec_id(s1) {
            Ok((rest, selector)) => (rest, Some(selector)),
            Err(_) => (s, None),
        },
    }
}

/// A qualified name with an optional selector: `NAME` or `NAME:SELECTOR`.
pub open spec fn spec_fqn_with_selector(s: Seq<char>) -> SpecParsed<(Seq<char>, Option<IdView>)> {
    match spec_fqn(s) {
        Err(e) => Err(e),
        Ok((s1, name)) => Ok((spec_opt_selector(s1).0, (name, spec_opt_selector(s1).1))),
    }
}

/// Reads a qualified name with an optional selector.
pub fn fqn_with_selector<'a>(s: &'a str) -> (r: Parsed<'a, (&'a str, Option<Id>)>)
    ensures
        agrees(r, spec_fqn_with_selector(s@)),
        advances(r, s@),
{
    let (s1, name) = fqn(s)?;
    match ch(':', s1) {
        Err(_) => Ok((s1, (name, None))),
        Ok(s2) => match id(s2) {
            Ok((rest, selector)) => Ok((rest, (name, Some(selector)))),
            Err(_) => Ok((s1, (name, None))),
        },
    }
}

/// What the import of a core model makes of an import of a deployment
/// model.
pub open spec fn spec_as_import(i: crate::ast::ImportView) -> ImportView {
    match (i.imported_namespace, i.import_uri) {
        (Some(namespace), Some(uri)) => ImportView::ImportedSpec(namespace, uri),
        (None, Some(uri)) => ImportView::ImportUri(uri),
        (Some(namespace), None) => ImportView::ImportedSpec(namespace, Seq::empty()),
        (None, None) => ImportView::ImportUri(Seq::empty()),
    }
}

/// An import of a deployment model. It is written as an import of a core
/// model is: `import NAMESPACE from "URI"`, or `import "URI"`.
pub open spec fn spec_import(s: Seq<char>) -> SpecParsed<ImportView> {
    match crate::model::spec_import(s) {
        Ok((rest, i)) => Ok((rest, spec_as_import(i))),
        Err(e) => Err(e),
    }
}

/// Reads an import of a deployment model.
pub fn import(s: &str) -> (r: Parsed<Import>)
    ensures
        agrees(r, spec_import(s@)),
        advances(r, s@),
{
    match crate::model::import(s) {
        Ok((rest, i)) => {
            let uri = match i.import_uri {
                Some(uri) => uri,
                None => String::new(),
            };
            match i.imported_namespace {
                Some(namespace) => Ok((rest, Import::ImportedSpec(namespace, uri))),
                None => Ok((rest, Import::ImportUri(uri))),
            }
        },
        Err(e) => Err(e),
    }
}

/// The imports that stand at the start of `s`, and what is left behind
/// them.
#[verifier::opaque]
pub open spec fn spec_imports(s: Seq<char>) -> (Seq<char>, Seq<ImportView>)
    decreases s.len(),
{
    match spec_import(s) {
        Ok((rest, first)) => if rest.len() < s.len() {
            (spec_imports(rest).0, seq![first] + spec_imports(rest).1)
        } else {
            (s, Seq::empty())
        },
        Err(_) => (s, Seq::empty()),
    }
}

/// Reads imports for as long as one stands at the start of the text.
pub fn imports(s: &str) -> (r: (&str, Vec<Import>))
    ensures
        r.0@ == spec_imports(s@).0,
        r.1.deep_view() == spec_imports(s@).1,
        r.0@.len() <= s@.len(),
{
    let mut rest = s;
    let mut found: Vec<Import> = Vec::new();
    loop
        invariant
            rest@.len() <= s@.len(),
            spec_imports(s@).0 == spec_imports(rest@).0,
            spec_imports(s@).1 == found.deep_view() + spec_imports(rest@).1,
        ensures
            rest@ == spec_imports(s@).0,
            found.deep_view() == spec_imports(s@).1,
        decreases rest@.len(),
    {
        proof {
            reveal(spec_imports);
        }
        match import(rest) {
            Ok((next, one)) => {
                proof {
                    let before = found.deep_view();
                    let tail = spec_imports(next@).1;
                    assert(before.push(one.deep_view()) + tail =~= before + (seq![
                        one.deep_view(),
                    ] + tail));
                }
                found.push(one);
                rest = next;
            },
            Err(_) => {
                assert(found.deep_view() + Seq::<ImportView>::empty() =~= found.deep_view());
                break ;
            },
        }
    }
    (rest, found)
}

impl FdValueKind {
    /// The kind as it is written in a specification.
    pub open spec fn spec_text(self) -> Seq<char> {
        match self {
            FdValueKind::Integer => "Integer"@,
            FdValueKind::Text => "String"@,
            FdValueKind::Boolean => "Boolean"@,
            FdValueKind::InterfaceRef => "Interface"@,
        }
    }

    /// The kind as it is written in a specification.
    pub fn text(self) -> (t: &'static str)
        ensures
            t@ == self.spec_text(),
    {
        match self {
            FdValueKind::Integer => "Integer",
            FdValueKind::Text => "String",
            FdValueKind::Boolean => "Boolean",
            FdValueKind::InterfaceRef => "Interface",
        }
    }
}

/// The kind `kind` where `s` starts with its name as a whole word, and
/// `otherwise` where it does not.
pub open spec fn spec_kind_name(
    kind: FdValueKind,
    s: Seq<char>,
    otherwise: SpecParsed<FdValueKind>,
) -> SpecParsed<FdValueKind> {
    match spec_word(kind.spec_text(), s) {
        Some(rest) => Ok((rest, kind)),
        None => otherwise,
    }
}

/// The kind of value that a property takes: `Integer`, `String`, `Boolean`
/// or `Interface`, as a whole word.
#[verifier::opaque]
pub open spec fn spec_fd_value_kind(s: Seq<char>) -> SpecParsed<FdValueKind> {
    let none = Err(SyntaxErrorView { input: s, expected: Expected::ValueKind });
    let from_interface = spec_kind_name(FdValueKind::InterfaceRef, s, none);
    let from_boolean = spec_kind_name(FdValueKind::Boolean, s, from_interface);
    let from_text = spec_kind_name(FdValueKind::Text, s, from_boolean);
    spec_kind_name(FdValueKind::Integer, s, from_text)
}

/// Reads the name of the kind `kind` as a whole word.
fn kind_name<'a>(kind: FdValueKind, s: &'a str) -> (r: Option<(&'a str, FdValueKind)>)
    ensures
        match spec_word(kind.spec_text(), s@) {
            Some(rest) => r is Some && r->Some_0.0@ == rest && r->Some_0.1 == kind,
            None => r is None,
        },
        r is Some ==> r->Some_0.0@.len() < s@.len(),
{
    proof {
        reveal_strlit("Integer");
        reveal_strlit("String");
        reveal_strlit("Boolean");
        reveal_strlit("Interface");
    }
    match word(kind.text(), s) {
        Some(rest) => Some((rest, kind)),
        None => None,
    }
}

/// Reads the kind of value that a property takes.
pub fn fd_value_kind(s: &str) -> (r: Parsed<FdValueKind>)
    ensures
        agrees(r, spec_fd_value_kind(s@)),
        advances(r, s@),
{
    proof {
        reveal(spec_fd_value_kind);
    }
    if let Some(found) = kind_name(FdValueKind::Integer, s) {
        return Ok(found);
    }
    if let Some(found) = kind_name(FdValueKind::Text, s) {
        return Ok(found);
    }
    if let Some(found) = kind_name(FdValueKind::Boolean, s) {
        return Ok(found);
    }
    if let Some(found) = kind_name(FdValueKind::InterfaceRef, s) {
        return Ok(found);
    }
    Err(error_at(s, Expected::ValueKind))
}

/// A value: a text between two `"`, the name of an interface behind `&`,
/// `true` or `false` as a whole word, or else a number.
#[verifier::opaque]
pub open spec fn spec_fd_value(s: Seq<char>) -> SpecParsed<FdValueView> {
    if starts_with(s, '"') {
        match spec_import_uri(s) {
            Ok((rest, text)) => Ok((rest, FdValueView::FdString(text))),
            Err(e) => Err(e),
        }
    } else if starts_with(s, '&') {
        match spec_fqn(s.skip(1)) {
            Ok((rest, name)) => Ok(
                (rest, FdValueView::FdInterfaceRef(FdInterfaceRefView { value: name })),
            ),
            Err(e) => Err(e),
        }
    } else if spec_word(Keyword::True.spec_text(), s) is Some {
        Ok((spec_word(Keyword::True.spec_text(), s).unwrap(), FdValueView::FdBoolean(true)))
    } else if spec_word(Keyword::False.spec_text(), s) is Some {
        Ok((spec_word(Keyword::False.spec_text(), s).unwrap(), FdValueView::FdBoolean(false)))
    } else {
        match spec_int32(s) {
            Ok((rest, n)) => Ok((rest, FdValueView::FdInteger(n))),
            Err(_) => Err(SyntaxErrorView { input: s, expected: Expected::Value }),
        }
    }
}

/// Reads a value.
pub fn fd_value(s: &str) -> (r: Parsed<FdValue>)
    ensures
        agrees(r, spec_fd_value(s@)),
        advances(r, s@),
{
    proof {
        reveal(spec_fd_value);
        reveal_strlit("true");
        reveal_strlit("false");
    }
    if ch('"', s).is_ok() {
        let (rest, text) = import_uri(s)?;
        return Ok((rest, FdValue::FdString(text.to_string())));
    }
    if let Ok(s1) = ch('&', s) {
        let (rest, name) = fqn(s1)?;
        return Ok((rest, FdValue::FdInterfaceRef(FdInterfaceRef { value: name.to_string() })));
    }
    if let Some(rest) = word(Keyword::True.text(), s) {
        return Ok((rest, FdValue::FdBoolean(true)));
    }
    if let Some(rest) = word(Keyword::False.text(), s) {
        return Ok((rest, FdValue::FdBoolean(false)));
    }
    match int32(s) {
        Ok((rest, n)) => Ok((rest, FdValue::FdInteger(n))),
        Err(_) => Err(error_at(s, Expected::Value)),
    }
}

/// A property that is set: `NAME = VALUE`.
#[verifier::opaque]
pub open spec fn spec_fd_property(s: Seq<char>) -> SpecParsed<FdPropertyView> {
    match spec_e_string(crate::lexer::spec_ws0(s)) {
        Err(e) => Err(e),
        Ok((s1, decl)) => match Cursor::At(s1).sp0().ch('=').sp0() {
            Cursor::Failed(e) => Err(e),
            Cursor::At(s2) => match spec_fd_value(s2) {
                Err(e) => Err(e),
                Ok((s3, value)) => Ok((s3, FdPropertyView { decl, value })),
            },
        },
    }
}

/// Reads a property that is set.
pub fn fd_property(s: &str) -> (r: Parsed<FdProperty>)
    ensures
        agrees(r, spec_fd_property(s@)),
        advances(r, s@),
{
    proof {
        reveal(spec_fd_property);
    }
    let s0 = ws0(s);
    let (s1, decl) = e_string(s0)?;
    let s1 = sp0(s1);
    let s1 = ch('=', s1)?;
    let s2 = sp0(s1);
    let (s3, value) = fd_value(s2)?;
    Ok((s3, FdProperty { decl: decl.to_string(), value }))
}

/// The properties that stand at the start of `s`, and what is left behind
/// them.
#[verifier::opaque]
pub open spec fn spec_fd_properties(s: Seq<char>) -> (Seq<char>, Seq<FdPropertyView>)
    decreases s.len(),
{
    match spec_fd_property(s) {
        Ok((rest, first)) => if rest.len() < s.len() {
            (spec_fd_properties(rest).0, seq![first] + spec_fd_properties(rest).1)
        } else {
            (s, Seq::empty())
        },
        Err(_) => (s, Seq::empty()),
    }
}

/// Reads properties for as long as one stands at the start of the text.
pub fn fd_properties(s: &str) -> (r: (&str, Vec<FdProperty>))
    ensures
        r.0@ == spec_fd_properties(s@).0,
        r.1.deep_view() == spec_fd_properties(s@).1,
        r.0@.len() <= s@.len(),
{
    let mut rest = s;
    let mut found: Vec<FdProperty> = Vec::new();
    loop
        invariant
            rest@.len() <= s@.len(),
            spec_fd_properties(s@).0 == spec_fd_properties(rest@).0,
            spec_fd_properties(s@).1 == found.deep_view() + spec_fd_properties(rest@).1,
        ensures
            rest@ == spec_fd_properties(s@).0,
            found.deep_view() == spec_fd_properties(s@).1,
        decreases rest@.len(),
    {
        proof {
            reveal(spec_fd_properties);
        }
        match fd_property(rest) {
            Ok((next, one)) => {
                proof {
                    let before = found.deep_view();
                    let tail = spec_fd_properties(next@).1;
                    assert(before.push(one.deep_view()) + tail =~= before + (seq![
                        one.deep_view(),
                    ] + tail));
                }
                found.push(one);
                rest = next;
            },
            Err(_) => {
                assert(found.deep_view() + Seq::<FdPropertyView>::empty() =~= found.deep_view());
                break ;
            },
        }
    }
    (rest, found)
}

/// The properties that are set at the start of `s`, as a set.
pub open spec fn spec_property_set(s: Seq<char>) -> (Seq<char>, FdPropertySetView) {
    (spec_fd_properties(s).0, FdPropertySetView { items: spec_fd_properties(s).1 })
}

/// Reads the properties that are set at the start of `s`.
pub fn property_set(s: &str) -> (r: (&str, FdPropertySet))
    ensures
        r.0@ == spec_property_set(s@).0,
        r.1.deep_view() == spec_property_set(s@).1,
        r.0@.len() <= s@.len(),
{
    let (rest, items) = fd_properties(s);
    (rest, FdPropertySet { items })
}

/// The properties that are set at the start of `s`. There may be none, so
/// this never fails.
pub open spec fn spec_fd_property_set(s: Seq<char>) -> SpecParsed<FdPropertySetView> {
    Ok(spec_property_set(s))
}

/// Reads the properties that are set at the start of `s`.
pub fn fd_property_set(s: &str) -> (r: Parsed<FdPropertySet>)
    ensures
        agrees(r, spec_fd_property_set(s@)),
        r is Ok,
        r->Ok_0.0@.len() <= s@.len(),
{
    Ok(property_set(s))
}

/// The value that a property has where none is given, where the
/// declaration names one: `(default: VALUE)`.
pub open spec fn spec_opt_default(s: Seq<char>) -> (Seq<char>, Option<FdValueView>) {
    match Cursor::At(s).sp0().ch('(').sp0().word(Keyword::Default).sp0().ch(':').sp0() {
        Cursor::Failed(_) => (s, None),
        Cursor::At(s1) => match spec_fd_value(s1) {
            Err(_) => (s, None),
            Ok((s2, value)) => match Cursor::At(s2).sp0().ch(')') {
                Cursor::At(rest) => (rest, Some(value)),
                Cursor::Failed(_) => (s, None),
            },
        },
    }
}

/// Reads the default of a declaration where it names one.
pub fn opt_default(s: &str) -> (r: (&str, Option<FdValue>))
    ensures
        r.0@ == spec_opt_default(s@).0,
        r.1.deep_view() == spec_opt_default(s@).1,
        r.0@.len() <= s@.len(),
{
    let s0 = sp0(s);
    let s0 = match ch('(', s0) {
        Ok(rest) => rest,
        Err(_) => { return (s, None); },
    };
    let s0 = sp0(s0);
    let s0 = match keyword(Keyword::Default, s0) {
        Ok(rest) => rest,
        Err(_) => { return (s, None); },
    };
    let s0 = sp0(s0);
    let s0 = match ch(':', s0) {
        Ok(rest) => rest,
        Err(_) => { return (s, None); },
    };
    let s1 = sp0(s0);
    let (s2, value) = match fd_value(s1) {
        Ok(read) => read,
        Err(_) => { return (s, None); },
    };
    let s2 = sp0(s2);
    match ch(')', s2) {
        Ok(rest) => (rest, Some(value)),
        Err(_) => (s, None),
    }
}

/// The declaration of a property: `NAME : KIND`, and an optional default.
#[verifier::opaque]
pub open spec fn spec_fd_property_decl(s: Seq<char>) -> SpecParsed<FdPropertyDeclView> {
    match spec_e_string(crate::lexer::spec_ws0(s)) {
        Err(e) => Err(e),
        Ok((s1, name)) => match Cursor::At(s1).sp0().ch(':').sp0() {
            Cursor::Failed(e) => Err(e),
            Cursor::At(s2) => match spec_fd_value_kind(s2) {
                Err(e) => Err(e),
                Ok((s3, kind)) => Ok(
                    (
                        spec_opt_default(s3).0,
                        FdPropertyDeclView { name, kind, default: spec_opt_default(s3).1 },
                    ),
                ),
            },
        },
    }
}

/// Reads the declaration of a property.
pub fn fd_property_decl(s: &str) -> (r: Parsed<FdPropertyDecl>)
    ensures
        agrees(r, spec_fd_property_decl(s@)),
        advances(r, s@),
{
    proof {
        reveal(spec_fd_property_decl);
    }
    let s0 = ws0(s);
    let (s1, name) = e_string(s0)?;
    let s1 = sp0(s1);
    let s1 = ch(':', s1)?;
    let s2 = sp0(s1);
    let (s3, kind) = fd_value_kind(s2)?;
    let (s4, default) = opt_default(s3);
    Ok((s4, FdPropertyDecl { name: name.to_string(), kind, default }))
}

/// The declarations of properties that stand at the start of `s`, and what is left behind
/// them.
#[verifier::opaque]
pub open spec fn spec_fd_property_decls(s: Seq<char>) -> (Seq<char>, Seq<FdPropertyDeclView>)
    decreases s.len(),
{
    match spec_fd_property_decl(s) {
        Ok((rest, first)) => if rest.len() < s.len() {
            (spec_fd_property_decls(rest).0, seq![first] + spec_fd_property_decls(rest).1)
        } else {
            (s, Seq::empty())
        },
        Err(_) => (s, Seq::empty()),
    }
}

/// Reads declarations of properties for as long as one stands at the start of the text.
pub fn fd_property_decls(s: &str) -> (r: (&str, Vec<FdPropertyDecl>))
    ensures
        r.0@ == spec_fd_property_decls(s@).0,
        r.1.deep_view() == spec_fd_property_decls(s@).1,
        r.0@.len() <= s@.len(),
{
    let mut rest = s;
    let mut found: Vec<FdPropertyDecl> = Vec::new();
    loop
        invariant
            rest@.len() <= s@.len(),
            spec_fd_property_decls(s@).0 == spec_fd_property_decls(rest@).0,
            spec_fd_property_decls(s@).1 == found.deep_view() + spec_fd_property_decls(rest@).1,
        ensures
            rest@ == spec_fd_property_decls(s@).0,
            found.deep_view() == spec_fd_property_decls(s@).1,
        decreases rest@.len(),
    {
        proof {
            reveal(spec_fd_property_decls);
        }
        match fd_property_decl(rest) {
            Ok((next, one)) => {
                proof {
                    let before = found.deep_view();
                    let tail = spec_fd_property_decls(next@).1;
                    assert(before.push(one.deep_view()) + tail =~= before + (seq![
                        one.deep_view(),
                    ] + tail));
                }
                found.push(one);
                rest = next;
            },
            Err(_) => {
                assert(
                    found.deep_view() + Seq::<FdPropertyDeclView>::empty() =~= found.deep_view()
                );
                break ;
            },
        }
    }
    (rest, found)
}

/// Whether the keyword `k` stands at the start of `s`, behind any white
/// space.
pub open spec fn spec_starts_keyword(k: Keyword, s: Seq<char>) -> bool {
    Cursor::At(s).ws0().kw(k) is At
}

/// Tells whether the keyword `k` stands at the start of `s`, behind any
/// white space.
pub fn starts_keyword(k: Keyword, s: &str) -> (r: bool)
    ensures
        r == spec_starts_keyword(k, s@),
{
    kw(k, ws0(s)).is_ok()
}

/// A specification: `specification NAME { declarations }`.
#[verifier::opaque]
pub open spec fn spec_fd_specification(s: Seq<char>) -> SpecParsed<FdSpecificationView> {
    match Cursor::At(s).ws0().kw(Keyword::Specification).sp1() {
        Cursor::Failed(e) => Err(e),
        Cursor::At(s1) => match spec_fqn(s1) {
            Err(e) => Err(e),
            Ok((s2, name)) => match Cursor::At(s2).ws0().ch('{') {
                Cursor::Failed(e) => Err(e),
                Cursor::At(s3) => yield_at(
                    Cursor::At(spec_fd_property_decls(s3).0).ws0().ch('}'),
                    FdSpecificationView { name, declarations: spec_fd_property_decls(s3).1 },
                ),
            },
        },
    }
}

/// Reads a specification.
pub fn fd_specification(s: &str) -> (r: Parsed<FdSpecification>)
    ensures
        agrees(r, spec_fd_specification(s@)),
        advances(r, s@),
{
    proof {
        reveal(spec_fd_specification);
    }
    let s0 = ws0(s);
    let s0 = kw(Keyword::Specification, s0)?;
    let s1 = sp1(s0)?;
    let (s2, name) = fqn(s1)?;
    let s2 = ws0(s2);
    let s3 = ch('{', s2)?;
    let (s4, declarations) = fd_property_decls(s3);
    let s4 = ws0(s4);
    let s5 = ch('}', s4)?;
    Ok((s5, FdSpecification { name: name.to_string(), declarations }))
}

/// The specifications at the start of `s`, and what is left behind them. They
/// go on for as long as a specification starts; one that starts and cannot be read
/// fails the whole.
#[verifier::opaque]
pub open spec fn spec_fd_specifications(s: Seq<char>) -> SpecParsed<Seq<FdSpecificationView>>
    decreases s.len(),
{
    if !spec_starts_keyword(Keyword::Specification, s) {
        Ok((s, Seq::empty()))
    } else {
        match spec_fd_specification(s) {
            Err(e) => Err(e),
            Ok((rest, first)) => if rest.len() < s.len() {
                spec_behind(seq![first], spec_fd_specifications(rest))
            } else {
                Ok((s, Seq::empty()))
            },
        }
    }
}

/// Reads specifications for as long as one starts.
pub fn fd_specifications(s: &str) -> (r: Parsed<Vec<FdSpecification>>)
    ensures
        agrees(r, spec_fd_specifications(s@)),
        within(r, s@),
{
    let mut rest = s;
    let mut found: Vec<FdSpecification> = Vec::new();
    assert(found.deep_view() =~= Seq::<FdSpecificationView>::empty());
    loop
        invariant
            rest@.len() <= s@.len(),
            spec_fd_specifications(s@) == spec_behind(
                found.deep_view(),
                spec_fd_specifications(rest@),
            ),
        decreases rest@.len(),
    {
        proof {
            reveal(spec_fd_specifications);
        }
        if !starts_keyword(Keyword::Specification, rest) {
            assert(found.deep_view() + Seq::<FdSpecificationView>::empty() =~= found.deep_view());
            return Ok((rest, found));
        }
        match fd_specification(rest) {
            Err(e) => {
                return Err(e);
            },
            Ok((next, one)) => {
                proof {
                    let before = found.deep_view();
                    match spec_fd_specifications(next@) {
                        Ok((_, tail)) => {
                            assert(before.push(one.deep_view()) + tail =~= before + (seq![
                                one.deep_view(),
                            ] + tail));
                        },
                        Err(_) => {},
                    }
                }
                let ghost before = found.deep_view();
                found.push(one);
                assert(found.deep_view() =~= before.push(one.deep_view()));
                rest = next;
            },
        }
    }
}

/// Properties between braces: `{ properties }`.
pub open spec fn spec_property_block(s: Seq<char>) -> SpecParsed<FdPropertySetView> {
    match Cursor::At(s).ws0().ch('{') {
        Cursor::Failed(e) => Err(e),
        Cursor::At(s1) => yield_at(
            Cursor::At(spec_property_set(s1).0).ws0().ch('}'),
            spec_property_set(s1).1,
        ),
    }
}

/// Reads properties between braces.
pub fn property_block(s: &str) -> (r: Parsed<FdPropertySet>)
    ensures
        agrees(r, spec_property_block(s@)),
        advances(r, s@),
{
    let s0 = ws0(s);
    let s1 = ch('{', s0)?;
    let (s2, properties) = property_set(s1);
    let s2 = ws0(s2);
    let s3 = ch('}', s2)?;
    Ok((s3, properties))
}

/// A refinement of the type of a field: `#` and properties between braces.
#[verifier::opaque]
pub open spec fn spec_plain_overwrites(s: Seq<char>) -> SpecParsed<FdPlainTypeOverwritesView> {
    match Cursor::At(s).ws0().ch('#') {
        Cursor::Failed(e) => Err(e),
        Cursor::At(s1) => match spec_property_block(s1) {
            Ok((rest, properties)) => Ok((rest, FdPlainTypeOverwritesView { properties })),
            Err(e) => Err(e),
        },
    }
}

/// Reads a refinement of the type of a field.
pub fn plain_overwrites(s: &str) -> (r: Parsed<FdPlainTypeOverwrites>)
    ensures
        agrees(r, spec_plain_overwrites(s@)),
        advances(r, s@),
{
    proof {
        reveal(spec_plain_overwrites);
    }
    let s0 = ws0(s);
    let s1 = ch('#', s0)?;
    let (rest, properties) = property_block(s1)?;
    Ok((rest, FdPlainTypeOverwrites { properties }))
}

/// A refinement of the type of a field, where one stands at the start of `s`.
pub open spec fn spec_opt_plain_overwrites(
    s: Seq<char>) -> (Seq<char>, Option<FdPlainTypeOverwritesView>,
) {
    match spec_plain_overwrites(s) {
        Ok((rest, v)) => (rest, Some(v)),
        Err(_) => (s, None),
    }
}

/// Reads a refinement of the type of a field where one stands at the start
/// of `s`, and takes nothing where none does.
pub fn opt_plain_overwrites(s: &str) -> (r: (&str, Option<FdPlainTypeOverwrites>))
    ensures
        r.0@ == spec_opt_plain_overwrites(s@).0,
        r.1.deep_view() == spec_opt_plain_overwrites(s@).1,
        r.0@.len() <= s@.len(),
{
    match plain_overwrites(s) {
        Ok((rest, v)) => (rest, Some(v)),
        Err(_) => (s, None),
    }
}

/// The deployment of a field: `NAME { properties [overwrites] }`.
#[verifier::opaque]
pub open spec fn spec_fd_field(s: Seq<char>) -> SpecParsed<FdFieldView> {
    match Cursor::At(s).ws0() {
        Cursor::Failed(e) => Err(e),
        Cursor::At(s1) => match spec_e_string(s1) {
            Err(e) => Err(e),
            Ok((s2, target)) => match Cursor::At(s2).ws0().ch('{') {
                Cursor::Failed(e) => Err(e),
                Cursor::At(s3) => {
                    let (s4, properties) = spec_property_set(s3);
                    yield_at(
                        Cursor::At(spec_opt_plain_overwrites(s4).0).ws0().ch('}'),
                        FdFieldView {
                            target,
                            properties,
                            overwrites: spec_opt_plain_overwrites(s4).1,
                        },
                    )
                },
            },
        },
    }
}

/// Reads the deployment of a field: `NAME { properties [overwrites] }`.
pub fn fd_field(s: &str) -> (r: Parsed<FdField>)
    ensures
        agrees(r, spec_fd_field(s@)),
        advances(r, s@),
{
    proof {
        reveal(spec_fd_field);
    }
    let s1 = ws0(s);
    let (s2, target) = e_string(s1)?;
    let s2 = ws0(s2);
    let s3 = ch('{', s2)?;
    let (s4, properties) = property_set(s3);
    let (s5, overwrites) = opt_plain_overwrites(s4);
    let s9 = ws0(s5);
    let s9 = ch('}', s9)?;
    Ok((s9, FdField { target: target.to_string(), properties, overwrites }))
}

/// The deployments of fields that stand at the start of `s`, and what is left behind
/// them.
#[verifier::opaque]
pub open spec fn spec_fd_fields(s: Seq<char>) -> (Seq<char>, Seq<FdFieldView>)
    decreases s.len(),
{
    match spec_fd_field(s) {
        Ok((rest, first)) => if rest.len() < s.len() {
            (spec_fd_fields(rest).0, seq![first] + spec_fd_fields(rest).1)
        } else {
            (s, Seq::empty())
        },
        Err(_) => (s, Seq::empty()),
    }
}

/// Reads deployments of fields for as long as one stands at the start of the text.
pub fn fd_fields(s: &str) -> (r: (&str, Vec<FdField>))
    ensures
        r.0@ == spec_fd_fields(s@).0,
        r.1.deep_view() == spec_fd_fields(s@).1,
        r.0@.len() <= s@.len(),
{
    let mut rest = s;
    let mut found: Vec<FdField> = Vec::new();
    loop
        invariant
            rest@.len() <= s@.len(),
            spec_fd_fields(s@).0 == spec_fd_fields(rest@).0,
            spec_fd_fields(s@).1 == found.deep_view() + spec_fd_fields(rest@).1,
        ensures
            rest@ == spec_fd_fields(s@).0,
            found.deep_view() == spec_fd_fields(s@).1,
        decreases rest@.len(),
    {
        proof {
            reveal(spec_fd_fields);
        }
        match fd_field(rest) {
            Ok((next, one)) => {
                proof {
                    let before = found.deep_view();
                    let tail = spec_fd_fields(next@).1;
                    assert(before.push(one.deep_view()) + tail =~= before + (seq![
                        one.deep_view(),
                    ] + tail));
                }
                found.push(one);
                rest = next;
            },
            Err(_) => {
                assert(found.deep_view() + Seq::<FdFieldView>::empty() =~= found.deep_view());
                break ;
            },
        }
    }
    (rest, found)
}

/// The deployment of an enumerator: `NAME { properties }`.
#[verifier::opaque]
pub open spec fn spec_fd_enum_value(s: Seq<char>) -> SpecParsed<FdEnumValueView> {
    match Cursor::At(s).ws0() {
        Cursor::Failed(e) => Err(e),
        Cursor::At(s1) => match spec_e_string(s1) {
            Err(e) => Err(e),
            Ok((s2, target)) => match Cursor::At(s2).ws0().ch('{') {
                Cursor::Failed(e) => Err(e),
                Cursor::At(s3) => {
                    let (s4, properties) = spec_property_set(s3);
                    yield_at(
                        Cursor::At(s4).ws0().ch('}'),
                        FdEnumValueView { target, properties },
                    )
                },
            },
        },
    }
}

/// Reads the deployment of an enumerator: `NAME { properties }`.
pub fn fd_enum_value(s: &str) -> (r: Parsed<FdEnumValue>)
    ensures
        agrees(r, spec_fd_enum_value(s@)),
        advances(r, s@),
{
    proof {
        reveal(spec_fd_enum_value);
    }
    let s1 = ws0(s);
    let (s2, target) = e_string(s1)?;
    let s2 = ws0(s2);
    let s3 = ch('{', s2)?;
    let (s4, properties) = property_set(s3);
    let s9 = ws0(s4);
    let s9 = ch('}', s9)?;
    Ok((s9, FdEnumValue { target: target.to_string(), properties }))
}

/// The deployments of enumerators that stand at the start of `s`, and what is left behind
/// them.
#[verifier::opaque]
pub open spec fn spec_fd_enum_values(s: Seq<char>) -> (Seq<char>, Seq<FdEnumValueView>)
    decreases s.len(),
{
    match spec_fd_enum_value(s) {
        Ok((rest, first)) => if rest.len() < s.len() {
            (spec_fd_enum_values(rest).0, seq![first] + spec_fd_enum_values(rest).1)
        } else {
            (s, Seq::empty())
        },
        Err(_) => (s, Seq::empty()),
    }
}

/// Reads deployments of enumerators for as long as one stands at the start of the text.
pub fn fd_enum_values(s: &str) -> (r: (&str, Vec<FdEnumValue>))
    ensures
        r.0@ == spec_fd_enum_values(s@).0,
        r.1.deep_view() == spec_fd_enum_values(s@).1,
        r.0@.len() <= s@.len(),
{
    let mut rest = s;
    let mut found: Vec<FdEnumValue> = Vec::new();
    loop
        invariant
            rest@.len() <= s@.len(),
            spec_fd_enum_values(s@).0 == spec_fd_enum_values(rest@).0,
            spec_fd_enum_values(s@).1 == found.deep_view() + spec_fd_enum_values(rest@).1,
        ensures
            rest@ == spec_fd_enum_values(s@).0,
            found.deep_view() == spec_fd_enum_values(s@).1,
        decreases rest@.len(),
    {
        proof {
            reveal(spec_fd_enum_values);
        }
        match fd_enum_value(rest) {
            Ok((next, one)) => {
                proof {
                    let before = found.deep_view();
                    let tail = spec_fd_enum_values(next@).1;
                    assert(before.push(one.deep_view()) + tail =~= before + (seq![
                        one.deep_view(),
                    ] + tail));
                }
                found.push(one);
                rest = next;
            },
            Err(_) => {
                assert(found.deep_view() + Seq::<FdEnumValueView>::empty() =~= found.deep_view());
                break ;
            },
        }
    }
    (rest, found)
}

/// A refinement of a type: `#` and then `struct { properties fields }`,
/// `union { properties fields }`, `enumeration { properties enumerators }`,
/// or properties between braces alone.
#[verifier::opaque]
pub open spec fn spec_type_overwrites(s: Seq<char>) -> SpecParsed<FdTypeOverwritesView> {
    match Cursor::At(s).ws0().ch('#') {
        Cursor::Failed(e) => Err(e),
        Cursor::At(s1) => if Cursor::At(s1).word(Keyword::StructType) is At {
            match Cursor::At(s1).word(Keyword::StructType).ws0().ch('{') {
                Cursor::Failed(e) => Err(e),
                Cursor::At(s2) => {
                    let (s3, properties) = spec_property_set(s2);
                    yield_at(
                        Cursor::At(spec_fd_fields(s3).0).ws0().ch('}'),
                        FdTypeOverwritesView::FdStructOverwrites(
                            FdStructOverwritesView { properties, fields: spec_fd_fields(s3).1 },
                        ),
                    )
                },
            }
        } else if Cursor::At(s1).word(Keyword::UnionType) is At {
            match Cursor::At(s1).word(Keyword::UnionType).ws0().ch('{') {
                Cursor::Failed(e) => Err(e),
                Cursor::At(s2) => {
                    let (s3, properties) = spec_property_set(s2);
                    yield_at(
                        Cursor::At(spec_fd_fields(s3).0).ws0().ch('}'),
                        FdTypeOverwritesView::FdUnionOverwrites(
                            FdUnionOverwritesView { properties, fields: spec_fd_fields(s3).1 },
                        ),
                    )
                },
            }
        } else if Cursor::At(s1).word(Keyword::EnumerationType) is At {
            match Cursor::At(s1).word(Keyword::EnumerationType).ws0().ch('{') {
                Cursor::Failed(e) => Err(e),
                Cursor::At(s2) => {
                    let (s3, properties) = spec_property_set(s2);
                    yield_at(
                        Cursor::At(spec_fd_enum_values(s3).0).ws0().ch('}'),
                        FdTypeOverwritesView::FdEnumerationOverwrites(
                            FdEnumerationOverwritesView {
                                properties,
                                enumerators: spec_fd_enum_values(s3).1,
                            },
                        ),
                    )
                },
            }
        } else {
            match spec_property_block(s1) {
                Ok((rest, properties)) => Ok(
                    (
                        rest,
                        FdTypeOverwritesView::FdPlainTypeOverwrites(
                            FdPlainTypeOverwritesView { properties },
                        ),
                    ),
                ),
                Err(e) => Err(e),
            }
        },
    }
}

/// Reads a refinement of a type.
pub fn type_overwrites(s: &str) -> (r: Parsed<FdTypeOverwrites>)
    ensures
        agrees(r, spec_type_overwrites(s@)),
        advances(r, s@),
{
    proof {
        reveal(spec_type_overwrites);
    }
    let s0 = ws0(s);
    let s1 = ch('#', s0)?;
    if let Ok(opened) = keyword(Keyword::StructType, s1) {
        let opened = ws0(opened);
        let s2 = ch('{', opened)?;
        let (s3, properties) = property_set(s2);
        let (s4, fields) = fd_fields(s3);
        let s4 = ws0(s4);
        let s5 = ch('}', s4)?;
        return Ok(
            (s5, FdTypeOverwrites::FdStructOverwrites(FdStructOverwrites { properties, fields })),
        );
    }
    if let Ok(opened) = keyword(Keyword::UnionType, s1) {
        let opened = ws0(opened);
        let s2 = ch('{', opened)?;
        let (s3, properties) = property_set(s2);
        let (s4, fields) = fd_fields(s3);
        let s4 = ws0(s4);
        let s5 = ch('}', s4)?;
        return Ok(
            (s5, FdTypeOverwrites::FdUnionOverwrites(FdUnionOverwrites { properties, fields })),
        );
    }
    if let Ok(opened) = keyword(Keyword::EnumerationType, s1) {
        let opened = ws0(opened);
        let s2 = ch('{', opened)?;
        let (s3, properties) = property_set(s2);
        let (s4, enumerators) = fd_enum_values(s3);
        let s4 = ws0(s4);
        let s5 = ch('}', s4)?;
        return Ok(
            (
                s5,
                FdTypeOverwrites::FdEnumerationOverwrites(
                    FdEnumerationOverwrites { properties, enumerators },
                ),
            ),
        );
    }
    let (rest, properties) = property_block(s1)?;
    Ok((rest, FdTypeOverwrites::FdPlainTypeOverwrites(FdPlainTypeOverwrites { properties })))
}

/// A refinement of a type, where one stands at the start of `s`.
pub open spec fn spec_opt_type_overwrites(
    s: Seq<char>) -> (Seq<char>, Option<FdTypeOverwritesView>,
) {
    match spec_type_overwrites(s) {
        Ok((rest, v)) => (rest, Some(v)),
        Err(_) => (s, None),
    }
}

/// Reads a refinement of a type where one stands at the start of `s`, and takes nothing
/// where none does.
pub fn opt_type_overwrites(s: &str) -> (r: (&str, Option<FdTypeOverwrites>))
    ensures
        r.0@ == spec_opt_type_overwrites(s@).0,
        r.1.deep_view() == spec_opt_type_overwrites(s@).1,
        r.0@.len() <= s@.len(),
{
    match type_overwrites(s) {
        Ok((rest, v)) => (rest, Some(v)),
        Err(_) => (s, None),
    }
}

/// The deployment of an attribute: `attribute NAME { properties [overwrites] }`.
#[verifier::opaque]
pub open spec fn spec_fd_attribute(s: Seq<char>) -> SpecParsed<FdAttributeView> {
    match Cursor::At(s).ws0().kw(Keyword::Attribute).sp1() {
        Cursor::Failed(e) => Err(e),
        Cursor::At(s1) => match spec_e_string(s1) {
            Err(e) => Err(e),
            Ok((s2, target)) => match Cursor::At(s2).ws0().ch('{') {
                Cursor::Failed(e) => Err(e),
                Cursor::At(s3) => {
                    let (s4, properties) = spec_property_set(s3);
                    yield_at(
                        Cursor::At(spec_opt_type_overwrites(s4).0).ws0().ch('}'),
                        FdAttributeView {
                            target,
                            properties,
                            overwrites: spec_opt_type_overwrites(s4).1,
                        },
                    )
                },
            },
        },
    }
}

/// Reads the deployment of an attribute: `attribute NAME { properties [overwrites] }`.
pub fn fd_attribute(s: &str) -> (r: Parsed<FdAttribute>)
    ensures
        agrees(r, spec_fd_attribute(s@)),
        advances(r, s@),
{
    proof {
        reveal(spec_fd_attribute);
    }
    let s0 = ws0(s);
    let s0 = kw(Keyword::Attribute, s0)?;
    let s1 = sp1(s0)?;
    let (s2, target) = e_string(s1)?;
    let s2 = ws0(s2);
    let s3 = ch('{', s2)?;
    let (s4, properties) = property_set(s3);
    let (s5, overwrites) = opt_type_overwrites(s4);
    let s9 = ws0(s5);
    let s9 = ch('}', s9)?;
    Ok((s9, FdAttribute { target: target.to_string(), properties, overwrites }))
}

/// The deployment of an argument: `NAME { properties [overwrites] }`.
#[verifier::opaque]
pub open spec fn spec_fd_argument(s: Seq<char>) -> SpecParsed<FdArgumentView> {
    match Cursor::At(s).ws0() {
        Cursor::Failed(e) => Err(e),
        Cursor::At(s1) => match spec_e_string(s1) {
            Err(e) => Err(e),
            Ok((s2, target)) => match Cursor::At(s2).ws0().ch('{') {
                Cursor::Failed(e) => Err(e),
                Cursor::At(s3) => {
                    let (s4, properties) = spec_property_set(s3);
                    yield_at(
                        Cursor::At(spec_opt_type_overwrites(s4).0).ws0().ch('}'),
                        FdArgumentView {
                            target,
                            properties,
                            overwrites: spec_opt_type_overwrites(s4).1,
                        },
                    )
                },
            },
        },
    }
}

/// Reads the deployment of an argument: `NAME { properties [overwrites] }`.
pub fn fd_argument(s: &str) -> (r: Parsed<FdArgument>)
    ensures
        agrees(r, spec_fd_argument(s@)),
        advances(r, s@),
{
    proof {
        reveal(spec_fd_argument);
    }
    let s1 = ws0(s);
    let (s2, target) = e_string(s1)?;
    let s2 = ws0(s2);
    let s3 = ch('{', s2)?;
    let (s4, properties) = property_set(s3);
    let (s5, overwrites) = opt_type_overwrites(s4);
    let s9 = ws0(s5);
    let s9 = ch('}', s9)?;
    Ok((s9, FdArgument { target: target.to_string(), properties, overwrites }))
}

/// The deployments of arguments that stand at the start of `s`, and what is left behind
/// them.
#[verifier::opaque]
pub open spec fn spec_fd_arguments(s: Seq<char>) -> (Seq<char>, Seq<FdArgumentView>)
    decreases s.len(),
{
    match spec_fd_argument(s) {
        Ok((rest, first)) => if rest.len() < s.len() {
            (spec_fd_arguments(rest).0, seq![first] + spec_fd_arguments(rest).1)
        } else {
            (s, Seq::empty())
        },
        Err(_) => (s, Seq::empty()),
    }
}

/// Reads deployments of arguments for as long as one stands at the start of the text.
pub fn fd_arguments(s: &str) -> (r: (&str, Vec<FdArgument>))
    ensures
        r.0@ == spec_fd_arguments(s@).0,
        r.1.deep_view() == spec_fd_arguments(s@).1,
        r.0@.len() <= s@.len(),
{
    let mut rest = s;
    let mut found: Vec<FdArgument> = Vec::new();
    loop
        invariant
            rest@.len() <= s@.len(),
            spec_fd_arguments(s@).0 == spec_fd_arguments(rest@).0,
            spec_fd_arguments(s@).1 == found.deep_view() + spec_fd_arguments(rest@).1,
        ensures
            rest@ == spec_fd_arguments(s@).0,
            found.deep_view() == spec_fd_arguments(s@).1,
        decreases rest@.len(),
    {
        proof {
            reveal(spec_fd_arguments);
        }
        match fd_argument(rest) {
            Ok((next, one)) => {
                proof {
                    let before = found.deep_view();
                    let tail = spec_fd_arguments(next@).1;
                    assert(before.push(one.deep_view()) + tail =~= before + (seq![
                        one.deep_view(),
                    ] + tail));
                }
                found.push(one);
                rest = next;
            },
            Err(_) => {
                assert(found.deep_view() + Seq::<FdArgumentView>::empty() =~= found.deep_view());
                break ;
            },
        }
    }
    (rest, found)
}

/// The deployments of the arguments of one direction, behind the keyword
/// `k`: `k { arguments }`.
pub open spec fn spec_fd_argument_list(k: Keyword, s: Seq<char>) -> SpecParsed<FdArgumentListView> {
    match Cursor::At(s).ws0().word(k).ws0().ch('{') {
        Cursor::Failed(e) => Err(e),
        Cursor::At(s1) => yield_at(
            Cursor::At(spec_fd_arguments(s1).0).ws0().ch('}'),
            FdArgumentListView { arguments: spec_fd_arguments(s1).1 },
        ),
    }
}

/// Reads the deployments of the arguments of one direction.
pub fn fd_argument_list(k: Keyword, s: &str) -> (r: Parsed<FdArgumentList>)
    ensures
        agrees(r, spec_fd_argument_list(k, s@)),
        advances(r, s@),
{
    let s0 = ws0(s);
    let s0 = keyword(k, s0)?;
    let s0 = ws0(s0);
    let s1 = ch('{', s0)?;
    let (s2, arguments) = fd_arguments(s1);
    let s2 = ws0(s2);
    let s3 = ch('}', s2)?;
    Ok((s3, FdArgumentList { arguments }))
}

/// The deployments of the arguments of one direction, where they stand at
/// the start of `s`.
pub open spec fn spec_opt_fd_argument_list(k: Keyword, s: Seq<char>) -> (
    Seq<char>,
    Option<FdArgumentListView>,
) {
    match spec_fd_argument_list(k, s) {
        Ok((rest, v)) => (rest, Some(v)),
        Err(_) => (s, None),
    }
}

/// Reads the deployments of the arguments of one direction where they
/// stand at the start of `s`.
pub fn opt_fd_argument_list(k: Keyword, s: &str) -> (r: (&str, Option<FdArgumentList>))
    ensures
        r.0@ == spec_opt_fd_argument_list(k, s@).0,
        r.1.deep_view() == spec_opt_fd_argument_list(k, s@).1,
        r.0@.len() <= s@.len(),
{
    match fd_argument_list(k, s) {
        Ok((rest, v)) => (rest, Some(v)),
        Err(_) => (s, None),
    }
}

/// The deployment of a method:
/// `method NAME[:SELECTOR] { properties [in { .. }] [out { .. }] }`.
#[verifier::opaque]
pub open spec fn spec_fd_method(s: Seq<char>) -> SpecParsed<FdMethodView> {
    match Cursor::At(s).ws0().kw(Keyword::Method).sp1() {
        Cursor::Failed(e) => Err(e),
        Cursor::At(s1) => match spec_fqn_with_selector(s1) {
            Err(e) => Err(e),
            Ok((s2, (target, selector))) => match Cursor::At(s2).ws0().ch('{') {
                Cursor::Failed(e) => Err(e),
                Cursor::At(s3) => {
                    let (s4, properties) = spec_property_set(s3);
                    let (s5, in_args) = spec_opt_fd_argument_list(Keyword::In, s4);
                    let (s6, out_args) = spec_opt_fd_argument_list(Keyword::Out, s5);
                    yield_at(
                        Cursor::At(s6).ws0().ch('}'),
                        FdMethodView { target, selector, properties, in_args, out_args },
                    )
                },
            },
        },
    }
}

/// Reads the deployment of a method.
pub fn fd_method(s: &str) -> (r: Parsed<FdMethod>)
    ensures
        agrees(r, spec_fd_method(s@)),
        advances(r, s@),
{
    proof {
        reveal(spec_fd_method);
    }
    let s0 = ws0(s);
    let s0 = kw(Keyword::Method, s0)?;
    let s1 = sp1(s0)?;
    let (s2, (target, selector)) = fqn_with_selector(s1)?;
    let s2 = ws0(s2);
    let s3 = ch('{', s2)?;
    let (s4, properties) = property_set(s3);
    let (s5, in_args) = opt_fd_argument_list(Keyword::In, s4);
    let (s6, out_args) = opt_fd_argument_list(Keyword::Out, s5);
    let s6 = ws0(s6);
    let s7 = ch('}', s6)?;
    Ok((s7, FdMethod { target: target.to_string(), selector, properties, in_args, out_args }))
}

/// The deployment of a broadcast:
/// `broadcast NAME[:SELECTOR] { properties [out { .. }] }`.
#[verifier::opaque]
pub open spec fn spec_fd_broadcast(s: Seq<char>) -> SpecParsed<FdBroadcastView> {
    match Cursor::At(s).ws0().kw(Keyword::Broadcast).sp1() {
        Cursor::Failed(e) => Err(e),
        Cursor::At(s1) => match spec_fqn_with_selector(s1) {
            Err(e) => Err(e),
            Ok((s2, (target, selector))) => match Cursor::At(s2).ws0().ch('{') {
                Cursor::Failed(e) => Err(e),
                Cursor::At(s3) => {
                    let (s4, properties) = spec_property_set(s3);
                    let (s5, out_args) = spec_opt_fd_argument_list(Keyword::Out, s4);
                    yield_at(
                        Cursor::At(s5).ws0().ch('}'),
                        FdBroadcastView { target, selector, properties, out_args },
                    )
                },
            },
        },
    }
}

/// Reads the deployment of a broadcast.
pub fn fd_broadcast(s: &str) -> (r: Parsed<FdBroadcast>)
    ensures
        agrees(r, spec_fd_broadcast(s@)),
        advances(r, s@),
{
    proof {
        reveal(spec_fd_broadcast);
    }
    let s0 = ws0(s);
    let s0 = kw(Keyword::Broadcast, s0)?;
    let s1 = sp1(s0)?;
    let (s2, (target, selector)) = fqn_with_selector(s1)?;
    let s2 = ws0(s2);
    let s3 = ch('{', s2)?;
    let (s4, properties) = property_set(s3);
    let (s5, out_args) = opt_fd_argument_list(Keyword::Out, s4);
    let s5 = ws0(s5);
    let s6 = ch('}', s5)?;
    Ok((s6, FdBroadcast { target: target.to_string(), selector, properties, out_args }))
}

/// The deployment of a named array: `array NAME { properties [overwrites] }`.
#[verifier::opaque]
pub open spec fn spec_fd_array(s: Seq<char>) -> SpecParsed<FdArrayView> {
    match Cursor::At(s).ws0().kw(Keyword::ArrayType).sp1() {
        Cursor::Failed(e) => Err(e),
        Cursor::At(s1) => match spec_e_string(s1) {
            Err(e) => Err(e),
            Ok((s2, target)) => match Cursor::At(s2).ws0().ch('{') {
                Cursor::Failed(e) => Err(e),
                Cursor::At(s3) => {
                    let (s4, properties) = spec_property_set(s3);
                    yield_at(
                        Cursor::At(spec_opt_type_overwrites(s4).0).ws0().ch('}'),
                        FdArrayView {
                            target,
                            properties,
                            overwrites: spec_opt_type_overwrites(s4).1,
                        },
                    )
                },
            },
        },
    }
}

/// Reads the deployment of a named array: `array NAME { properties [overwrites] }`.
pub fn fd_array(s: &str) -> (r: Parsed<FdArray>)
    ensures
        agrees(r, spec_fd_array(s@)),
        advances(r, s@),
{
    proof {
        reveal(spec_fd_array);
    }
    let s0 = ws0(s);
    let s0 = kw(Keyword::ArrayType, s0)?;
    let s1 = sp1(s0)?;
    let (s2, target) = e_string(s1)?;
    let s2 = ws0(s2);
    let s3 = ch('{', s2)?;
    let (s4, properties) = property_set(s3);
    let (s5, overwrites) = opt_type_overwrites(s4);
    let s9 = ws0(s5);
    let s9 = ch('}', s9)?;
    Ok((s9, FdArray { target: target.to_string(), properties, overwrites }))
}

/// The deployment of a struct: `struct NAME { properties fields }`.
#[verifier::opaque]
pub open spec fn spec_fd_struct(s: Seq<char>) -> SpecParsed<FdStructView> {
    match Cursor::At(s).ws0().kw(Keyword::StructType).sp1() {
        Cursor::Failed(e) => Err(e),
        Cursor::At(s1) => match spec_e_string(s1) {
            Err(e) => Err(e),
            Ok((s2, target)) => match Cursor::At(s2).ws0().ch('{') {
                Cursor::Failed(e) => Err(e),
                Cursor::At(s3) => {
                    let (s4, properties) = spec_property_set(s3);
                    yield_at(
                        Cursor::At(spec_fd_fields(s4).0).ws0().ch('}'),
                        FdStructView { target, properties, fields: spec_fd_fields(s4).1 },
                    )
                },
            },
        },
    }
}

/// Reads the deployment of a struct: `struct NAME { properties fields }`.
pub fn fd_struct(s: &str) -> (r: Parsed<FdStruct>)
    ensures
        agrees(r, spec_fd_struct(s@)),
        advances(r, s@),
{
    proof {
        reveal(spec_fd_struct);
    }
    let s0 = ws0(s);
    let s0 = kw(Keyword::StructType, s0)?;
    let s1 = sp1(s0)?;
    let (s2, target) = e_string(s1)?;
    let s2 = ws0(s2);
    let s3 = ch('{', s2)?;
    let (s4, properties) = property_set(s3);
    let (s5, fields) = fd_fields(s4);
    let s9 = ws0(s5);
    let s9 = ch('}', s9)?;
    Ok((s9, FdStruct { target: target.to_string(), properties, fields }))
}

/// The deployment of a union: `union NAME { properties fields }`.
#[verifier::opaque]
pub open spec fn spec_fd_union(s: Seq<char>) -> SpecParsed<FdUnionView> {
    match Cursor::At(s).ws0().kw(Keyword::UnionType).sp1() {
        Cursor::Failed(e) => Err(e),
        Cursor::At(s1) => match spec_e_string(s1) {
            Err(e) => Err(e),
            Ok((s2, target)) => match Cursor::At(s2).ws0().ch('{') {
                Cursor::Failed(e) => Err(e),
                Cursor::At(s3) => {
                    let (s4, properties) = spec_property_set(s3);
                    yield_at(
                        Cursor::At(spec_fd_fields(s4).0).ws0().ch('}'),
                        FdUnionView { target, properties, fields: spec_fd_fields(s4).1 },
                    )
                },
            },
        },
    }
}

/// Reads the deployment of a union: `union NAME { properties fields }`.
pub fn fd_union(s: &str) -> (r: Parsed<FdUnion>)
    ensures
        agrees(r, spec_fd_union(s@)),
        advances(r, s@),
{
    proof {
        reveal(spec_fd_union);
    }
    let s0 = ws0(s);
    let s0 = kw(Keyword::UnionType, s0)?;
    let s1 = sp1(s0)?;
    let (s2, target) = e_string(s1)?;
    let s2 = ws0(s2);
    let s3 = ch('{', s2)?;
    let (s4, properties) = property_set(s3);
    let (s5, fields) = fd_fields(s4);
    let s9 = ws0(s5);
    let s9 = ch('}', s9)?;
    Ok((s9, FdUnion { target: target.to_string(), properties, fields }))
}

/// The deployment of an enumeration: `enumeration NAME { properties enumerators }`.
#[verifier::opaque]
pub open spec fn spec_fd_enumeration(s: Seq<char>) -> SpecParsed<FdEnumerationView> {
    match Cursor::At(s).ws0().kw(Keyword::EnumerationType).sp1() {
        Cursor::Failed(e) => Err(e),
        Cursor::At(s1) => match spec_e_string(s1) {
            Err(e) => Err(e),
            Ok((s2, target)) => match Cursor::At(s2).ws0().ch('{') {
                Cursor::Failed(e) => Err(e),
                Cursor::At(s3) => {
                    let (s4, properties) = spec_property_set(s3);
                    yield_at(
                        Cursor::At(spec_fd_enum_values(s4).0).ws0().ch('}'),
                        FdEnumerationView {
                            target,
                            properties,
                            enumerators: spec_fd_enum_values(s4).1,
                        },
                    )
                },
            },
        },
    }
}

/// Reads the deployment of an enumeration: `enumeration NAME { properties enumerators }`.
pub fn fd_enumeration(s: &str) -> (r: Parsed<FdEnumeration>)
    ensures
        agrees(r, spec_fd_enumeration(s@)),
        advances(r, s@),
{
    proof {
        reveal(spec_fd_enumeration);
    }
    let s0 = ws0(s);
    let s0 = kw(Keyword::EnumerationType, s0)?;
    let s1 = sp1(s0)?;
    let (s2, target) = e_string(s1)?;
    let s2 = ws0(s2);
    let s3 = ch('{', s2)?;
    let (s4, properties) = property_set(s3);
    let (s5, enumerators) = fd_enum_values(s4);
    let s9 = ws0(s5);
    let s9 = ch('}', s9)?;
    Ok((s9, FdEnumeration { target: target.to_string(), properties, enumerators }))
}

/// The deployment of a type alias: `typedef NAME { properties }`.
#[verifier::opaque]
pub open spec fn spec_fd_type_def(s: Seq<char>) -> SpecParsed<FdTypeDefView> {
    match Cursor::At(s).ws0().kw(Keyword::TypeDef).sp1() {
        Cursor::Failed(e) => Err(e),
        Cursor::At(s1) => match spec_e_string(s1) {
            Err(e) => Err(e),
            Ok((s2, target)) => match Cursor::At(s2).ws0().ch('{') {
                Cursor::Failed(e) => Err(e),
                Cursor::At(s3) => {
                    let (s4, properties) = spec_property_set(s3);
                    yield_at(
                        Cursor::At(s4).ws0().ch('}'),
                        FdTypeDefView { target, properties },
                    )
                },
            },
        },
    }
}

/// Reads the deployment of a type alias: `typedef NAME { properties }`.
pub fn fd_type_def(s: &str) -> (r: Parsed<FdTypeDef>)
    ensures
        agrees(r, spec_fd_type_def(s@)),
        advances(r, s@),
{
    proof {
        reveal(spec_fd_type_def);
    }
    let s0 = ws0(s);
    let s0 = kw(Keyword::TypeDef, s0)?;
    let s1 = sp1(s0)?;
    let (s2, target) = e_string(s1)?;
    let s2 = ws0(s2);
    let s3 = ch('{', s2)?;
    let (s4, properties) = property_set(s3);
    let s9 = ws0(s4);
    let s9 = ch('}', s9)?;
    Ok((s9, FdTypeDef { target: target.to_string(), properties }))
}

/// The properties of the keys or of the values of a map, behind the
/// keyword `k`, where they stand at the start of `s`: `k { properties }`.
pub open spec fn spec_opt_map_part(k: Keyword, s: Seq<char>) -> (
    Seq<char>,
    Option<FdPropertySetView>,
) {
    match Cursor::At(s).ws0().word(k) {
        Cursor::Failed(_) => (s, None),
        Cursor::At(s1) => match spec_property_block(s1) {
            Ok((rest, properties)) => (rest, Some(properties)),
            Err(_) => (s, None),
        },
    }
}

/// Reads the properties of the keys or of the values of a map where they
/// stand at the start of `s`.
pub fn opt_map_part(k: Keyword, s: &str) -> (r: (&str, Option<FdPropertySet>))
    ensures
        r.0@ == spec_opt_map_part(k, s@).0,
        r.1.deep_view() == spec_opt_map_part(k, s@).1,
        r.0@.len() <= s@.len(),
{
    let s0 = ws0(s);
    match keyword(k, s0) {
        Err(_) => (s, None),
        Ok(s1) => match property_block(s1) {
            Ok((rest, properties)) => (rest, Some(properties)),
            Err(_) => (s, None),
        },
    }
}

/// What the properties of the keys of a map make of its key part.
pub open spec fn spec_map_key(properties: Option<FdPropertySetView>) -> Option<FdMapKeyView> {
    match properties {
        Some(properties) => Some(FdMapKeyView { properties }),
        None => None,
    }
}

/// What the properties of the values of a map make of its value part.
pub open spec fn spec_map_value(properties: Option<FdPropertySetView>) -> Option<FdMapValueView> {
    match properties {
        Some(properties) => Some(FdMapValueView { properties }),
        None => None,
    }
}

/// The deployment of a named map:
/// `map NAME { properties [key { .. }] [value { .. }] }`.
#[verifier::opaque]
pub open spec fn spec_fd_map(s: Seq<char>) -> SpecParsed<FdMapView> {
    match Cursor::At(s).ws0().kw(Keyword::MapType).sp1() {
        Cursor::Failed(e) => Err(e),
        Cursor::At(s1) => match spec_e_string(s1) {
            Err(e) => Err(e),
            Ok((s2, target)) => match Cursor::At(s2).ws0().ch('{') {
                Cursor::Failed(e) => Err(e),
                Cursor::At(s3) => {
                    let (s4, properties) = spec_property_set(s3);
                    let (s5, key) = spec_opt_map_part(Keyword::Key, s4);
                    let (s6, value) = spec_opt_map_part(Keyword::Value, s5);
                    yield_at(
                        Cursor::At(s6).ws0().ch('}'),
                        FdMapView {
                            target,
                            properties,
                            key: spec_map_key(key),
                            value: spec_map_value(value),
                        },
                    )
                },
            },
        },
    }
}

/// Reads the deployment of a named map.
pub fn fd_map(s: &str) -> (r: Parsed<FdMap>)
    ensures
        agrees(r, spec_fd_map(s@)),
        advances(r, s@),
{
    proof {
        reveal(spec_fd_map);
    }
    let s0 = ws0(s);
    let s0 = kw(Keyword::MapType, s0)?;
    let s1 = sp1(s0)?;
    let (s2, target) = e_string(s1)?;
    let s2 = ws0(s2);
    let s3 = ch('{', s2)?;
    let (s4, properties) = property_set(s3);
    let (s5, key_properties) = opt_map_part(Keyword::Key, s4);
    let (s6, value_properties) = opt_map_part(Keyword::Value, s5);
    let s6 = ws0(s6);
    let s7 = ch('}', s6)?;
    let key = match key_properties {
        Some(properties) => Some(FdMapKey { properties }),
        None => None,
    };
    let value = match value_properties {
        Some(properties) => Some(FdMapValue { properties }),
        None => None,
    };
    Ok((s7, FdMap { target: target.to_string(), properties, key, value }))
}

/// What a parse of one kind of deployment makes of an element.
pub open spec fn spec_as_element<V>(
    parsed: SpecParsed<V>,
    wrap: spec_fn(V) -> FdElementView,
) -> SpecParsed<FdElementView> {
    match parsed {
        Ok((rest, v)) => Ok((rest, wrap(v))),
        Err(e) => Err(e),
    }
}

/// An element of the deployment of an interface: the keyword at its start
/// decides what is read. Where none of the keywords stands there, it fails
/// at the start.
#[verifier::opaque]
pub open spec fn spec_fd_element(s: Seq<char>) -> SpecParsed<FdElementView> {
    if spec_starts_keyword(Keyword::Attribute, s) {
        spec_as_element(spec_fd_attribute(s), |v| FdElementView::FdAttribute(v))
    } else if spec_starts_keyword(Keyword::Method, s) {
        spec_as_element(
            spec_fd_method(s),
            |v| FdElementView::FdOperation(FdOperationView::FdMethod(v)),
        )
    } else if spec_starts_keyword(Keyword::Broadcast, s) {
        spec_as_element(
            spec_fd_broadcast(s),
            |v| FdElementView::FdOperation(FdOperationView::FdBroadcast(v)),
        )
    } else if spec_starts_keyword(Keyword::ArrayType, s) {
        spec_as_element(
            spec_fd_array(s),
            |v| FdElementView::FdTypeDefinition(FdTypeDefinitionView::FdArray(v)),
        )
    } else if spec_starts_keyword(Keyword::StructType, s) {
        spec_as_element(
            spec_fd_struct(s),
            |v|
                FdElementView::FdTypeDefinition(
                    FdTypeDefinitionView::FdCompound(FdCompoundView::FdStruct(v)),
                ),
        )
    } else if spec_starts_keyword(Keyword::UnionType, s) {
        spec_as_element(
            spec_fd_union(s),
            |v|
                FdElementView::FdTypeDefinition(
                    FdTypeDefinitionView::FdCompound(FdCompoundView::FdUnion(v)),
                ),
        )
    } else if spec_starts_keyword(Keyword::EnumerationType, s) {
        spec_as_element(
            spec_fd_enumeration(s),
            |v| FdElementView::FdTypeDefinition(FdTypeDefinitionView::FdEnumeration(v)),
        )
    } else if spec_starts_keyword(Keyword::TypeDef, s) {
        spec_as_element(
            spec_fd_type_def(s),
            |v| FdElementView::FdTypeDefinition(FdTypeDefinitionView::FdTypeDef(v)),
        )
    } else if spec_starts_keyword(Keyword::MapType, s) {
        spec_as_element(
            spec_fd_map(s),
            |v| FdElementView::FdTypeDefinition(FdTypeDefinitionView::FdMap(v)),
        )
    } else {
        Err(SyntaxErrorView { input: s, expected: Expected::Declaration })
    }
}

/// Reads an element of the deployment of an interface.
pub fn fd_element(s: &str) -> (r: Parsed<FdElement>)
    ensures
        agrees(r, spec_fd_element(s@)),
        advances(r, s@),
{
    proof {
        reveal(spec_fd_element);
    }
    if starts_keyword(Keyword::Attribute, s) {
        let (rest, v) = fd_attribute(s)?;
        Ok((rest, FdElement::FdAttribute(v)))
    } else if starts_keyword(Keyword::Method, s) {
        let (rest, v) = fd_method(s)?;
        Ok((rest, FdElement::FdOperation(FdOperation::FdMethod(v))))
    } else if starts_keyword(Keyword::Broadcast, s) {
        let (rest, v) = fd_broadcast(s)?;
        Ok((rest, FdElement::FdOperation(FdOperation::FdBroadcast(v))))
    } else if starts_keyword(Keyword::ArrayType, s) {
        let (rest, v) = fd_array(s)?;
        Ok((rest, FdElement::FdTypeDefinition(FdTypeDefinition::FdArray(v))))
    } else if starts_keyword(Keyword::StructType, s) {
        let (rest, v) = fd_struct(s)?;
        let compound = FdCompound::FdStruct(v);
        Ok((rest, FdElement::FdTypeDefinition(FdTypeDefinition::FdCompound(compound))))
    } else if starts_keyword(Keyword::UnionType, s) {
        let (rest, v) = fd_union(s)?;
        let compound = FdCompound::FdUnion(v);
        Ok((rest, FdElement::FdTypeDefinition(FdTypeDefinition::FdCompound(compound))))
    } else if starts_keyword(Keyword::EnumerationType, s) {
        let (rest, v) = fd_enumeration(s)?;
        Ok((rest, FdElement::FdTypeDefinition(FdTypeDefinition::FdEnumeration(v))))
    } else if starts_keyword(Keyword::TypeDef, s) {
        let (rest, v) = fd_type_def(s)?;
        Ok((rest, FdElement::FdTypeDefinition(FdTypeDefinition::FdTypeDef(v))))
    } else if starts_keyword(Keyword::MapType, s) {
        let (rest, v) = fd_map(s)?;
        Ok((rest, FdElement::FdTypeDefinition(FdTypeDefinition::FdMap(v))))
    } else {
        Err(error_at(s, Expected::Declaration))
    }
}

/// Whether an element of the deployment of an interface starts at the
/// start of `s`: one of the keywords of its kinds stands there.
pub open spec fn spec_starts_element(s: Seq<char>) -> bool {
    ||| spec_starts_keyword(Keyword::Attribute, s)
    ||| spec_starts_keyword(Keyword::Method, s)
    ||| spec_starts_keyword(Keyword::Broadcast, s)
    ||| spec_starts_keyword(Keyword::ArrayType, s)
    ||| spec_starts_keyword(Keyword::StructType, s)
    ||| spec_starts_keyword(Keyword::UnionType, s)
    ||| spec_starts_keyword(Keyword::EnumerationType, s)
    ||| spec_starts_keyword(Keyword::TypeDef, s)
    ||| spec_starts_keyword(Keyword::MapType, s)
}

/// Tells whether an element of the deployment of an interface starts at
/// the start of `s`.
pub fn starts_element(s: &str) -> (r: bool)
    ensures
        r == spec_starts_element(s@),
{
    starts_keyword(Keyword::Attribute, s) || starts_keyword(Keyword::Method, s) || starts_keyword(
        Keyword::Broadcast,
        s,
    ) || starts_keyword(Keyword::ArrayType, s) || starts_keyword(Keyword::StructType, s)
        || starts_keyword(Keyword::UnionType, s) || starts_keyword(Keyword::EnumerationType, s)
        || starts_keyword(Keyword::TypeDef, s) || starts_keyword(Keyword::MapType, s)
}

/// The deployments of attributes among `elements`, in their order.
pub open spec fn fd_attributes_of(elements: Seq<FdElementView>) -> Seq<FdAttributeView>
    decreases elements.len(),
{
    if elements.len() == 0 {
        Seq::empty()
    } else {
        match elements.last() {
            FdElementView::FdAttribute(x) => fd_attributes_of(elements.drop_last()).push(x),
            _ => fd_attributes_of(elements.drop_last()),
        }
    }
}

/// The deployments of methods among `elements`, in their order.
pub open spec fn fd_methods_of(elements: Seq<FdElementView>) -> Seq<FdMethodView>
    decreases elements.len(),
{
    if elements.len() == 0 {
        Seq::empty()
    } else {
        match elements.last() {
            FdElementView::FdOperation(FdOperationView::FdMethod(x)) => fd_methods_of(
                elements.drop_last(),
            ).push(x),
            _ => fd_methods_of(elements.drop_last()),
        }
    }
}

/// The deployments of broadcasts among `elements`, in their order.
pub open spec fn fd_broadcasts_of(elements: Seq<FdElementView>) -> Seq<FdBroadcastView>
    decreases elements.len(),
{
    if elements.len() == 0 {
        Seq::empty()
    } else {
        match elements.last() {
            FdElementView::FdOperation(FdOperationView::FdBroadcast(x)) => fd_broadcasts_of(
                elements.drop_last(),
            ).push(x),
            _ => fd_broadcasts_of(elements.drop_last()),
        }
    }
}

/// The deployments of type definitions among `elements`, in their order.
pub open spec fn fd_types_of(elements: Seq<FdElementView>) -> Seq<FdTypeDefinitionView>
    decreases elements.len(),
{
    if elements.len() == 0 {
        Seq::empty()
    } else {
        match elements.last() {
            FdElementView::FdTypeDefinition(x) => fd_types_of(elements.drop_last()).push(x),
            _ => fd_types_of(elements.drop_last()),
        }
    }
}

/// The elements of the deployment of an interface, sorted by kind.
pub struct FdElements {
    pub attributes: Vec<FdAttribute>,
    pub methods: Vec<FdMethod>,
    pub broadcasts: Vec<FdBroadcast>,
    pub types: Vec<FdTypeDefinition>,
}

impl FdElements {
    /// Whether the four lists hold the elements `elements`, each list those
    /// of its kind in the order in which they stand there.
    pub open spec fn holds(&self, elements: Seq<FdElementView>) -> bool {
        &&& self.attributes.deep_view() == fd_attributes_of(elements)
        &&& self.methods.deep_view() == fd_methods_of(elements)
        &&& self.broadcasts.deep_view() == fd_broadcasts_of(elements)
        &&& self.types.deep_view() == fd_types_of(elements)
    }

    /// No elements.
    pub fn new() -> (r: FdElements)
        ensures
            r.holds(Seq::empty()),
    {
        let r = FdElements {
            attributes: Vec::new(),
            methods: Vec::new(),
            broadcasts: Vec::new(),
            types: Vec::new(),
        };
        assert(r.attributes.deep_view() =~= Seq::empty());
        assert(r.methods.deep_view() =~= Seq::empty());
        assert(r.broadcasts.deep_view() =~= Seq::empty());
        assert(r.types.deep_view() =~= Seq::empty());
        r
    }

    /// Puts `element` at the end of the list of its kind.
    fn add(&mut self, element: FdElement, Ghost(before): Ghost<Seq<FdElementView>>)
        requires
            old(self).holds(before),
        ensures
            final(self).holds(before.push(element.deep_view())),
    {
        let ghost after = before.push(element.deep_view());
        assert(after.drop_last() =~= before);
        match element {
            FdElement::FdAttribute(x) => {
                let ghost list = self.attributes.deep_view();
                self.attributes.push(x);
                assert(self.attributes.deep_view() =~= list.push(x.deep_view()));
            },
            FdElement::FdOperation(FdOperation::FdMethod(x)) => {
                let ghost list = self.methods.deep_view();
                self.methods.push(x);
                assert(self.methods.deep_view() =~= list.push(x.deep_view()));
            },
            FdElement::FdOperation(FdOperation::FdBroadcast(x)) => {
                let ghost list = self.broadcasts.deep_view();
                self.broadcasts.push(x);
                assert(self.broadcasts.deep_view() =~= list.push(x.deep_view()));
            },
            FdElement::FdTypeDefinition(x) => {
                let ghost list = self.types.deep_view();
                self.types.push(x);
                assert(self.types.deep_view() =~= list.push(x.deep_view()));
            },
        }
    }
}


/// The elements at the start of `s`, and what is left behind them. They
/// go on for as long as an element starts; one that starts and cannot be read
/// fails the whole.
#[verifier::opaque]
pub open spec fn spec_fd_elements(s: Seq<char>) -> SpecParsed<Seq<FdElementView>>
    decreases s.len(),
{
    if !spec_starts_element(s) {
        Ok((s, Seq::empty()))
    } else {
        match spec_fd_element(s) {
            Err(e) => Err(e),
            Ok((rest, first)) => if rest.len() < s.len() {
                spec_behind(seq![first], spec_fd_elements(rest))
            } else {
                Ok((s, Seq::empty()))
            },
        }
    }
}

/// Reads elements for as long as one starts, and sorts them by kind.
pub fn fd_elements(s: &str) -> (r: Parsed<FdElements>)
    ensures
        match spec_fd_elements(s@) {
            Ok((rest, all)) => r is Ok && r->Ok_0.0@ == rest && r->Ok_0.1.holds(all),
            Err(e) => r is Err && r->Err_0@ == e,
        },
        within(r, s@),
{
    let mut rest = s;
    let mut found = FdElements::new();
    let ghost mut seen: Seq<FdElementView> = Seq::empty();
    loop
        invariant
            rest@.len() <= s@.len(),
            spec_fd_elements(s@) == spec_behind(seen, spec_fd_elements(rest@)),
            found.holds(seen),
        decreases rest@.len(),
    {
        proof {
            reveal(spec_fd_elements);
        }
        if !starts_element(rest) {
            assert(seen + Seq::<FdElementView>::empty() =~= seen);
            return Ok((rest, found));
        }
        match fd_element(rest) {
            Err(e) => {
                return Err(e);
            },
            Ok((next, one)) => {
                proof {
                    match spec_fd_elements(next@) {
                        Ok((_, tail)) => {
                            assert(seen.push(one.deep_view()) + tail =~= seen + (seq![
                                one.deep_view(),
                            ] + tail));
                        },
                        Err(_) => {},
                    }
                }
                found.add(one, Ghost(seen));
                proof {
                    seen = seen.push(one.deep_view());
                }
                rest = next;
            },
        }
    }
}

/// A deployment at the top level of a model:
/// `define SPECIFICATION for interface NAME[:SELECTOR] { properties elements extensions }`.
/// The extension elements stand behind the elements of the interface, and
/// may lie in each other as deep as the default limit allows.
#[verifier::opaque]
pub open spec fn spec_fd_root_element(s: Seq<char>) -> SpecParsed<FdRootElementView> {
    match Cursor::At(s).ws0().kw(Keyword::Define).sp1() {
        Cursor::Failed(e) => Err(e),
        Cursor::At(s1) => match spec_fqn(s1) {
            Err(e) => Err(e),
            Ok((s2, spec)) => match Cursor::At(s2).sp1().kw(Keyword::For).sp1().kw(
                Keyword::Interface,
            ).sp1() {
                Cursor::Failed(e) => Err(e),
                Cursor::At(s3) => match spec_fqn_with_selector(s3) {
                    Err(e) => Err(e),
                    Ok((s4, (target, selector))) => match Cursor::At(s4).ws0().ch('{') {
                        Cursor::Failed(e) => Err(e),
                        Cursor::At(s5) => {
                            let (s6, properties) = spec_property_set(s5);
                            match spec_fd_elements(s6) {
                                Err(e) => Err(e),
                                Ok((s7, elements)) => match spec_fd_extension_elements(
                                    s7,
                                    DEFAULT_MAX_NESTING as nat,
                                ) {
                                    Err(e) => Err(e),
                                    Ok((s8, extensions)) => yield_at(
                                        Cursor::At(s8).ws0().ch('}'),
                                        FdRootElementView {
                                            spec,
                                            selector,
                                            interface: FdInterfaceView {
                                                target,
                                                properties,
                                                attributes: fd_attributes_of(elements),
                                                methods: fd_methods_of(elements),
                                                broadcasts: fd_broadcasts_of(elements),
                                                types: fd_types_of(elements),
                                            },
                                            extensions,
                                        },
                                    ),
                                },
                            }
                        },
                    },
                },
            },
        },
    }
}

/// Reads a deployment at the top level of a model.
pub fn fd_root_element(s: &str) -> (r: Parsed<FdRootElement>)
    ensures
        agrees(r, spec_fd_root_element(s@)),
        advances(r, s@),
{
    proof {
        reveal(spec_fd_root_element);
    }
    let s0 = ws0(s);
    let s0 = kw(Keyword::Define, s0)?;
    let s1 = sp1(s0)?;
    let (s2, spec) = fqn(s1)?;
    let s2 = sp1(s2)?;
    let s2 = kw(Keyword::For, s2)?;
    let s2 = sp1(s2)?;
    let s2 = kw(Keyword::Interface, s2)?;
    let s3 = sp1(s2)?;
    let (s4, (target, selector)) = fqn_with_selector(s3)?;
    let s4 = ws0(s4);
    let s5 = ch('{', s4)?;
    let (s6, properties) = property_set(s5);
    let (s7, found) = fd_elements(s6)?;
    let (s8, extensions) = fd_extension_elements(s7, DEFAULT_MAX_NESTING)?;
    let s8 = ws0(s8);
    let s9 = ch('}', s8)?;
    Ok(
        (
            s9,
            FdRootElement {
                spec: spec.to_string(),
                selector,
                interface: FdInterface {
                    target: target.to_string(),
                    properties,
                    attributes: found.attributes,
                    methods: found.methods,
                    broadcasts: found.broadcasts,
                    types: found.types,
                },
                extensions,
            },
        ),
    )
}

/// The deployments at the start of `s`, and what is left behind them. They
/// go on for as long as a deployment starts; one that starts and cannot be read
/// fails the whole.
#[verifier::opaque]
pub open spec fn spec_fd_root_elements(s: Seq<char>) -> SpecParsed<Seq<FdRootElementView>>
    decreases s.len(),
{
    if !spec_starts_keyword(Keyword::Define, s) {
        Ok((s, Seq::empty()))
    } else {
        match spec_fd_root_element(s) {
            Err(e) => Err(e),
            Ok((rest, first)) => if rest.len() < s.len() {
                spec_behind(seq![first], spec_fd_root_elements(rest))
            } else {
                Ok((s, Seq::empty()))
            },
        }
    }
}

/// Reads deployments for as long as one starts.
pub fn fd_root_elements(s: &str) -> (r: Parsed<Vec<FdRootElement>>)
    ensures
        agrees(r, spec_fd_root_elements(s@)),
        within(r, s@),
{
    let mut rest = s;
    let mut found: Vec<FdRootElement> = Vec::new();
    assert(found.deep_view() =~= Seq::<FdRootElementView>::empty());
    loop
        invariant
            rest@.len() <= s@.len(),
            spec_fd_root_elements(s@) == spec_behind(
                found.deep_view(),
                spec_fd_root_elements(rest@),
            ),
        decreases rest@.len(),
    {
        proof {
            reveal(spec_fd_root_elements);
        }
        if !starts_keyword(Keyword::Define, rest) {
            assert(found.deep_view() + Seq::<FdRootElementView>::empty() =~= found.deep_view());
            return Ok((rest, found));
        }
        match fd_root_element(rest) {
            Err(e) => {
                return Err(e);
            },
            Ok((next, one)) => {
                proof {
                    let before = found.deep_view();
                    match spec_fd_root_elements(next@) {
                        Ok((_, tail)) => {
                            assert(before.push(one.deep_view()) + tail =~= before + (seq![
                                one.deep_view(),
                            ] + tail));
                        },
                        Err(_) => {},
                    }
                }
                let ghost before = found.deep_view();
                found.push(one);
                assert(found.deep_view() =~= before.push(one.deep_view()));
                rest = next;
            },
        }
    }
}

/// A deployment model: the package header, the imports, the specifications
/// and the deployments, in this order. What is left is the text at which
/// no further deployment starts.
#[verifier::opaque]
pub open spec fn spec_fd_model(s: Seq<char>) -> SpecParsed<FdModelView> {
    match spec_package(s) {
        Err(e) => Err(e),
        Ok((s1, name)) => {
            let (s2, imports) = spec_imports(s1);
            match spec_fd_specifications(s2) {
                Err(e) => Err(e),
                Ok((s3, specifications)) => match spec_fd_root_elements(s3) {
                    Err(e) => Err(e),
                    Ok((s4, deployments)) => Ok(
                        (s4, FdModelView { name, imports, specifications, deployments }),
                    ),
                },
            }
        },
    }
}

/// Reads a deployment model.
pub fn fd_model(s: &str) -> (r: Parsed<FdModel>)
    ensures
        agrees(r, spec_fd_model(s@)),
        advances(r, s@),
{
    proof {
        reveal(spec_fd_model);
    }
    let (s1, name) = package(s)?;
    let (s2, imports) = imports(s1);
    let (s3, specifications) = fd_specifications(s2)?;
    let (s4, deployments) = fd_root_elements(s3)?;
    Ok((s4, FdModel { name: name.to_string(), imports, specifications, deployments }))
}

} // verus!
