//! The top level of a core model: the package header, the imports, and the
//! interfaces and type collections in the order in which they are declared.

use vstd::prelude::*;
use crate::ast::{
    FInterface, FInterfaceView, FModel, FModelItem, FModelItemView, FModelView, FTypeCollection,
    FTypeCollectionView, Import, ImportView,
};
use crate::chars::{CharClass, all_in, lemma_span_exact, stops};
use crate::interface::{spec_f_interface, spec_f_type_collection, f_interface, f_type_collection};
use crate::lexer::{
    Cursor, Expected, Keyword, Parsed, SpecParsed, SyntaxErrorView, agrees, advances, yield_at,
    error_at, spec_fqn, spec_name, spec_quoted_len, ws0, sp1, kw, ch, fqn, name, quoted_text,
};
use crate::typedefs::{spec_starts_declaration, starts_declaration};

verus! {

/// The namespace that an import brings in: a name that may hold `*`, between
/// blanks, and then `from`.
#[verifier::opaque]
pub open spec fn spec_imported_namespace(s: Seq<char>) -> SpecParsed<Seq<char>> {
    match Cursor::At(s).sp1() {
        Cursor::Failed(e) => Err(e),
        Cursor::At(s1) => match spec_name(s1, CharClass::Namespace) {
            Err(e) => Err(e),
            Ok((s2, namespace)) => yield_at(Cursor::At(s2).sp1().kw(Keyword::From), namespace),
        },
    }
}

/// Reads the namespace that an import brings in.
pub fn imported_namespace<'a>(s: &'a str) -> (r: Parsed<'a, &'a str>)
    ensures
        agrees(r, spec_imported_namespace(s@)),
        advances(r, s@),
{
    proof {
        reveal(spec_imported_namespace);
    }
    let s1 = sp1(s)?;
    let (s2, namespace) = name(CharClass::Namespace, s1)?;
    let s2 = sp1(s2)?;
    let s3 = kw(Keyword::From, s2)?;
    Ok((s3, namespace))
}

/// Where an import is found: between two `"`, the text of a quoted
/// string, as it is written.
#[verifier::opaque]
pub open spec fn spec_import_uri(s: Seq<char>) -> SpecParsed<Seq<char>> {
    match Cursor::At(s).ch('"') {
        Cursor::Failed(e) => Err(e),
        Cursor::At(s1) => yield_at(
            Cursor::At(s1.skip(spec_quoted_len(s1) as int)).ch('"'),
            s1.take(spec_quoted_len(s1) as int),
        ),
    }
}

/// Reads where an import is found.
pub fn import_uri<'a>(s: &'a str) -> (r: Parsed<'a, &'a str>)
    ensures
        agrees(r, spec_import_uri(s@)),
        advances(r, s@),
{
    proof {
        reveal(spec_import_uri);
    }
    let s1 = ch('"', s)?;
    let (s2, uri) = quoted_text(s1);
    let s3 = ch('"', s2)?;
    Ok((s3, uri))
}

/// The namespace of an import, where it names one.
pub open spec fn spec_opt_imported_namespace(s: Seq<char>) -> (Seq<char>, Option<Seq<char>>) {
    match spec_imported_namespace(s) {
        Ok((rest, namespace)) => (rest, Some(namespace)),
        Err(_) => (s, None),
    }
}

/// An import: `import NAMESPACE from "URI"`, or `import "URI"`.
#[verifier::opaque]
pub open spec fn spec_import(s: Seq<char>) -> SpecParsed<ImportView> {
    match Cursor::At(s).ws0().kw(Keyword::Import) {
        Cursor::Failed(e) => Err(e),
        Cursor::At(s1) => {
            let (s2, imported_namespace) = spec_opt_imported_namespace(s1);
            match Cursor::At(s2).sp1() {
                Cursor::Failed(e) => Err(e),
                Cursor::At(s3) => match spec_import_uri(s3) {
                    Err(e) => Err(e),
                    Ok((s4, uri)) => Ok(
                        (s4, ImportView { imported_namespace, import_uri: Some(uri) }),
                    ),
                },
            }
        },
    }
}

/// Reads an import.
pub fn import(s: &str) -> (r: Parsed<Import>)
    ensures
        agrees(r, spec_import(s@)),
        advances(r, s@),
        r is Ok ==> r->Ok_0.1.deep_view().well_formed(),
{
    proof {
        reveal(spec_import);
    }
    let s0 = ws0(s);
    let s1 = kw(Keyword::Import, s0)?;
    let (s2, imported_namespace) = match imported_namespace(s1) {
        Ok((rest, namespace)) => (rest, Some(namespace.to_string())),
        Err(_) => (s1, None),
    };
    let s3 = sp1(s2)?;
    let (s4, uri) = import_uri(s3)?;
    Ok((s4, Import { imported_namespace, import_uri: Some(uri.to_string()) }))
}

/// The imports that stand at the start of `s`, and what is left behind
/// them.
#[verifier::opaque]
pub open spec fn spec_imports(s: Seq<char>) -> (Seq<char>, Seq<ImportView>)
    decreases s.len(),
{
    match spec_import(s) {
        Ok((rest, first)) => if rest.len() < s.len() {
            (spec_imports(rest).0, seq![first] + spec_imports(rest).1)
        } else {
            (s, Seq::empty())
        },
        Err(_) => (s, Seq::empty()),
    }
}

/// Reads imports for as long as one stands at the start of the text.
pub fn imports(s: &str) -> (r: (&str, Vec<Import>))
    ensures
        r.0@ == spec_imports(s@).0,
        r.1.deep_view() == spec_imports(s@).1,
        r.0@.len() <= s@.len(),
{
    let mut rest = s;
    let mut found: Vec<Import> = Vec::new();
    loop
        invariant
            rest@.len() <= s@.len(),
            spec_imports(s@).0 == spec_imports(rest@).0,
            spec_imports(s@).1 == found.deep_view() + spec_imports(rest@).1,
        ensures
            rest@ == spec_imports(s@).0,
            found.deep_view() == spec_imports(s@).1,
        decreases rest@.len(),
    {
        proof {
            reveal(spec_imports);
        }
        match import(rest) {
            Ok((next, one)) => {
                proof {
                    let before = found.deep_view();
                    let tail = spec_imports(next@).1;
                    assert(before.push(one.deep_view()) + tail =~= before + (seq![
                        one.deep_view(),
                    ] + tail));
                }
                found.push(one);
                rest = next;
            },
            Err(_) => {
                assert(found.deep_view() + Seq::<ImportView>::empty() =~= found.deep_view());
                break ;
            },
        }
    }
    (rest, found)
}

/// The header of a model: `package` and a qualified name.
#[verifier::opaque]
pub open spec fn spec_package(s: Seq<char>) -> SpecParsed<Seq<char>> {
    match Cursor::At(s).ws0().kw(Keyword::Package).sp1() {
        Cursor::Failed(e) => Err(e),
        Cursor::At(s1) => spec_fqn(s1),
    }
}

/// Reads the header of a model.
pub fn package<'a>(s: &'a str) -> (r: Parsed<'a, &'a str>)
    ensures
        agrees(r, spec_package(s@)),
        advances(r, s@),
{
    proof {
        reveal(spec_package);
    }
    let s0 = ws0(s);
    let s0 = kw(Keyword::Package, s0)?;
    let s1 = sp1(s0)?;
    fqn(s1)
}

/// A package header names the model. Whatever white space stands in front
/// of `package`, and whatever blanks stand between it and the name, the
/// header yields the name exactly as it is written, up to the first
/// character that cannot belong to a qualified name.
pub proof fn law_package_name(
    before: Seq<char>,
    gap: Seq<char>,
    name: Seq<char>,
    after: Seq<char>,
)
    requires
        all_in(before, CharClass::Whitespace),
        gap.len() > 0,
        all_in(gap, CharClass::Blank),
        name.len() > 0,
        all_in(name, CharClass::Qualified),
        stops(after, CharClass::Qualified),
    ensures
        spec_package(before + Keyword::Package.spec_text() + gap + name + after) == Ok::<
            (Seq<char>, Seq<char>),
            SyntaxErrorView,
        >((after, name)),
{
    reveal(spec_package);
    reveal_strlit("package");
    let word = Keyword::Package.spec_text();
    let text = before + word + gap + name + after;
    let t1 = word + (gap + (name + after));
    let t2 = gap + (name + after);
    assert(text =~= before + t1);
    assert(name[0] == (name + after)[0]);
    assert(gap[0] == t2[0]);
    assert(t1[0] == 'p');
    lemma_span_exact(before, t1, CharClass::Whitespace);
    assert(word.is_prefix_of(t1)) by {
        assert(t1.subrange(0, word.len() as int) =~= word);
    }
    assert(t1.skip(word.len() as int) =~= t2);
    lemma_span_exact(gap, name + after, CharClass::Blank);
    lemma_span_exact(name, after, CharClass::Qualified);
}

/// What a parse of one kind of declaration makes of an item of a model.
pub open spec fn spec_as_item<V>(
    parsed: SpecParsed<V>,
    wrap: spec_fn(V) -> FModelItemView,
) -> SpecParsed<FModelItemView> {
    match parsed {
        Ok((rest, v)) => Ok((rest, wrap(v))),
        Err(e) => Err(e),
    }
}

/// An item of a model: the keyword at its start decides whether an
/// interface or a type collection is read. Where neither keyword stands
/// there, it fails at the start.
#[verifier::opaque]
pub open spec fn spec_f_model_item(s: Seq<char>) -> SpecParsed<FModelItemView> {
    if spec_starts_declaration(Keyword::Interface, s) {
        spec_as_item(spec_f_interface(s), |v| FModelItemView::Interface(v))
    } else if spec_starts_declaration(Keyword::TypeCollection, s) {
        spec_as_item(spec_f_type_collection(s), |v| FModelItemView::TypeCollection(v))
    } else {
        Err(SyntaxErrorView { input: s, expected: Expected::Declaration })
    }
}

/// Reads an item of a model.
pub fn f_model_item(s: &str) -> (r: Parsed<FModelItem>)
    ensures
        agrees(r, spec_f_model_item(s@)),
        advances(r, s@),
{
    proof {
        reveal(spec_f_model_item);
    }
    if starts_declaration(Keyword::Interface, s) {
        let (rest, v) = f_interface(s)?;
        Ok((rest, FModelItem::Interface(v)))
    } else if starts_declaration(Keyword::TypeCollection, s) {
        let (rest, v) = f_type_collection(s)?;
        Ok((rest, FModelItem::TypeCollection(v)))
    } else {
        Err(error_at(s, Expected::Declaration))
    }
}

/// Whether an item of a model starts at the start of `s`: the keyword of
/// an interface or of a type collection stands there.
pub open spec fn spec_starts_item(s: Seq<char>) -> bool {
    spec_starts_declaration(Keyword::Interface, s) || spec_starts_declaration(
        Keyword::TypeCollection,
        s,
    )
}

/// Tells whether an item of a model starts at the start of `s`.
pub fn starts_item(s: &str) -> (r: bool)
    ensures
        r == spec_starts_item(s@),
{
    starts_declaration(Keyword::Interface, s) || starts_declaration(Keyword::TypeCollection, s)
}

/// The interfaces among `items`, in the order in which they stand there.
pub open spec fn interfaces_of(items: Seq<FModelItemView>) -> Seq<FInterfaceView>
    decreases items.len(),
{
    if items.len() == 0 {
        Seq::empty()
    } else {
        match items.last() {
            FModelItemView::Interface(x) => interfaces_of(items.drop_last()).push(x),
            _ => interfaces_of(items.drop_last()),
        }
    }
}

/// The type collections among `items`, in the order in which they stand there.
pub open spec fn type_collections_of(items: Seq<FModelItemView>) -> Seq<FTypeCollectionView>
    decreases items.len(),
{
    if items.len() == 0 {
        Seq::empty()
    } else {
        match items.last() {
            FModelItemView::TypeCollection(x) => type_collections_of(items.drop_last()).push(x),
            _ => type_collections_of(items.drop_last()),
        }
    }
}

/// The items of a model, sorted by kind.
pub struct FModelItems {
    pub interfaces: Vec<FInterface>,
    pub type_collections: Vec<FTypeCollection>,
}

impl FModelItems {
    /// Whether the two lists hold the items `items`, each list those of its
    /// kind in the order in which they stand there.
    pub open spec fn holds(&self, items: Seq<FModelItemView>) -> bool {
        &&& self.interfaces.deep_view() == interfaces_of(items)
        &&& self.type_collections.deep_view() == type_collections_of(items)
    }

    /// No items.
    pub fn new() -> (r: FModelItems)
        ensures
            r.holds(Seq::empty()),
    {
        let r = FModelItems { interfaces: Vec::new(), type_collections: Vec::new() };
        assert(r.interfaces.deep_view() =~= Seq::empty());
        assert(r.type_collections.deep_view() =~= Seq::empty());
        r
    }

    /// Puts `item` at the end of the list of its kind.
    fn add(&mut self, item: FModelItem, Ghost(before): Ghost<Seq<FModelItemView>>)
        requires
            old(self).holds(before),
        ensures
            final(self).holds(before.push(item.deep_view())),
    {
        let ghost after = before.push(item.deep_view());
        assert(after.drop_last() =~= before);
        match item {
            FModelItem::Interface(x) => {
                let ghost list = self.interfaces.deep_view();
                self.interfaces.push(x);
                assert(self.interfaces.deep_view() =~= list.push(x.deep_view()));
            },
            FModelItem::TypeCollection(x) => {
                let ghost list = self.type_collections.deep_view();
                self.type_collections.push(x);
                assert(self.type_collections.deep_view() =~= list.push(x.deep_view()));
            },
        }
    }
}


/// The items of a model at the start of `s`, and what is left behind them.
/// They go on for as long as an item can be read; one that cannot be read
/// is left where it stands.
#[verifier::opaque]
pub open spec fn spec_model_items(s: Seq<char>) -> (Seq<char>, Seq<FModelItemView>)
    decreases s.len(),
{
    match spec_f_model_item(s) {
        Ok((rest, first)) => if rest.len() < s.len() {
            (spec_model_items(rest).0, seq![first] + spec_model_items(rest).1)
        } else {
            (s, Seq::empty())
        },
        Err(_) => (s, Seq::empty()),
    }
}

/// Reads items of a model for as long as one can be read, and sorts them by
/// kind.
pub fn model_items(s: &str) -> (r: (&str, FModelItems))
    ensures
        r.0@ == spec_model_items(s@).0,
        r.1.holds(spec_model_items(s@).1),
        r.0@.len() <= s@.len(),
{
    let mut rest = s;
    let mut found = FModelItems::new();
    let ghost mut seen: Seq<FModelItemView> = Seq::empty();
    loop
        invariant
            rest@.len() <= s@.len(),
            spec_model_items(s@).0 == spec_model_items(rest@).0,
            spec_model_items(s@).1 == seen + spec_model_items(rest@).1,
            found.holds(seen),
        ensures
            rest@ == spec_model_items(s@).0,
            found.holds(spec_model_items(s@).1),
            rest@.len() <= s@.len(),
        decreases rest@.len(),
    {
        proof {
            reveal(spec_model_items);
        }
        match f_model_item(rest) {
            Ok((next, one)) => {
                proof {
                    let tail = spec_model_items(next@).1;
                    assert(seen.push(one.deep_view()) + tail =~= seen + (seq![one.deep_view()]
                        + tail));
                }
                found.add(one, Ghost(seen));
                proof {
                    seen = seen.push(one.deep_view());
                }
                rest = next;
            },
            Err(_) => {
                assert(seen + Seq::<FModelItemView>::empty() =~= seen);
                break ;
            },
        }
    }
    (rest, found)
}

/// A model: the package header, the imports, and the interfaces and type
/// collections that follow. It fails only where the header does; what is
/// left is the text at which no further item can be read.
#[verifier::opaque]
pub open spec fn spec_f_model(s: Seq<char>) -> SpecParsed<FModelView> {
    match spec_package(s) {
        Err(e) => Err(e),
        Ok((s1, name)) => {
            let (s2, imports) = spec_imports(s1);
            let (s3, items) = spec_model_items(s2);
            Ok(
                (
                    s3,
                    FModelView {
                        name,
                        imports,
                        interfaces: interfaces_of(items),
                        type_collections: type_collections_of(items),
                    },
                ),
            )
        },
    }
}

/// Whatever white space stands around the package header, and whatever
/// follows it, a model is read, and it has the name that the header gives,
/// exactly as it is written.
pub proof fn law_model_is_named(
    before: Seq<char>,
    gap: Seq<char>,
    name: Seq<char>,
    after: Seq<char>,
)
    requires
        all_in(before, CharClass::Whitespace),
        gap.len() > 0,
        all_in(gap, CharClass::Blank),
        name.len() > 0,
        all_in(name, CharClass::Qualified),
        stops(after, CharClass::Qualified),
    ensures
        spec_f_model(before + Keyword::Package.spec_text() + gap + name + after) is Ok,
        spec_f_model(before + Keyword::Package.spec_text() + gap + name + after)->Ok_0.1.name
            == name,
{
    law_package_name(before, gap, name, after);
    law_model_name(before + Keyword::Package.spec_text() + gap + name + after);
}

/// A model is read wherever its package header is, and has the name that
/// the header gives; where the header fails, the model fails as the header
/// does.
pub proof fn law_model_name(s: Seq<char>)
    ensures
        match spec_package(s) {
            Ok((_, name)) => spec_f_model(s) is Ok && spec_f_model(s)->Ok_0.1.name == name,
            Err(e) => spec_f_model(s) == Err::<(Seq<char>, FModelView), SyntaxErrorView>(e),
        },
{
    reveal(spec_f_model);
}

/// Reads a model.
pub fn f_model(s: &str) -> (r: Parsed<FModel>)
    ensures
        agrees(r, spec_f_model(s@)),
        advances(r, s@),
{
    proof {
        reveal(spec_f_model);
    }
    let (s1, name) = package(s)?;
    let (s2, imports) = imports(s1);
    let (s3, found) = model_items(s2);
    Ok(
        (
            s3,
            FModel {
                name: name.to_string(),
                imports,
                interfaces: found.interfaces,
                type_collections: found.type_collections,
            },
        ),
    )
}

} // verus!
