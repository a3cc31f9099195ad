//! Validation of a core model that was read: names that are declared
//! twice, enumerators with the same value, types that are referred to and
//! that nothing declares, and chains of bases that come back to themselves
//! or are too long. Every finding is reported; none stops the
//! validation.

use vstd::prelude::*;
use vstd::string::StringExecFns;
use crate::ast::{
    FArgument, FArgumentView, FAttribute, FAttributeView, FBroadcast, FBroadcastView, FEnumerator,
    FField, FFieldView, FInterface, FInterfaceView, FMethod, FMethodView, FModel, FModelView,
    FType, FTypeCollection, FTypeCollectionView, FTypeRef, FTypeRefView, FTypeView,
};
use crate::diag::{Diagnostic, DiagnosticView};
use crate::names::{
    Named, duplicates, enumerator_values, first_occurrence, lemma_found_stays_found, names_of,
    spec_duplicates, spec_enumerator_values,
};

verus! {

/// The kinds of type definition.
#[derive(Debug, Clone, Copy, PartialEq, Eq)]
pub enum TypeKind {
    StructType,
    UnionType,
    EnumerationType,
    ArrayType,
    MapType,
    TypeDef,
}

impl DeepView for TypeKind {
    type V = TypeKind;

    open spec fn deep_view(&self) -> TypeKind {
        *self
    }
}

/// What the index of a scope holds of a type definition: its kind, a name
/// under which it can be referred to, and the name of its base, if it
/// declares one.
#[derive(Debug, Clone, PartialEq, Eq)]
pub struct TypeEntry {
    pub kind: TypeKind,
    pub name: String,
    pub base: Option<String>,
}

/// The mathematical value of [`TypeEntry`].
pub ghost struct TypeEntryView {
    pub kind: TypeKind,
    pub name: Seq<char>,
    pub base: Option<Seq<char>>,
}

impl DeepView for TypeEntry {
    type V = TypeEntryView;

    open spec fn deep_view(&self) -> TypeEntryView {
        TypeEntryView {
            kind: self.kind.deep_view(),
            name: self.name.deep_view(),
            base: self.base.deep_view(),
        }
    }
}

impl Named for TypeEntry {
    open spec fn name_of(v: TypeEntryView) -> Seq<char> {
        v.name
    }

    fn name(&self) -> (r: &String) {
        &self.name
    }
}

/// The entry of the index for the type definition `t`.
pub open spec fn spec_entry(t: FTypeView) -> TypeEntryView {
    match t {
        FTypeView::StructType(x) => TypeEntryView {
            kind: TypeKind::StructType,
            name: x.name,
            base: x.base,
        },
        FTypeView::UnionType(x) => TypeEntryView {
            kind: TypeKind::UnionType,
            name: x.name,
            base: x.base,
        },
        FTypeView::EnumerationType(x) => TypeEntryView {
            kind: TypeKind::EnumerationType,
            name: x.name,
            base: x.base,
        },
        FTypeView::ArrayType(x) => TypeEntryView {
            kind: TypeKind::ArrayType,
            name: x.name,
            base: None,
        },
        FTypeView::MapType(x) => TypeEntryView {
            kind: TypeKind::MapType,
            name: x.name,
            base: None,
        },
        FTypeView::TypeDef(x) => TypeEntryView {
            kind: TypeKind::TypeDef,
            name: x.name,
            base: None,
        },
    }
}

/// Makes the entry of the index for the type definition `t`.
pub fn entry(t: &FType) -> (e: TypeEntry)
    ensures
        e.deep_view() == spec_entry(t.deep_view()),
{
    match t {
        FType::StructType(x) => TypeEntry {
            kind: TypeKind::StructType,
            name: x.name.clone(),
            base: clone_name(&x.base),
        },
        FType::UnionType(x) => TypeEntry {
            kind: TypeKind::UnionType,
            name: x.name.clone(),
            base: clone_name(&x.base),
        },
        FType::EnumerationType(x) => TypeEntry {
            kind: TypeKind::EnumerationType,
            name: x.name.clone(),
            base: clone_name(&x.base),
        },
        FType::ArrayType(x) => TypeEntry {
            kind: TypeKind::ArrayType,
            name: x.name.clone(),
            base: None,
        },
        FType::MapType(x) => TypeEntry {
            kind: TypeKind::MapType,
            name: x.name.clone(),
            base: None,
        },
        FType::TypeDef(x) => TypeEntry {
            kind: TypeKind::TypeDef,
            name: x.name.clone(),
            base: None,
        },
    }
}

/// A copy of an optional name.
pub fn clone_name(name: &Option<String>) -> (r: Option<String>)
    ensures
        r.deep_view() == name.deep_view(),
{
    match name {
        Some(n) => Some(n.clone()),
        None => None,
    }
}

/// The entries of the index for the type definitions `types`, in their
/// order.
pub open spec fn spec_entries(types: Seq<FTypeView>) -> Seq<TypeEntryView> {
    types.map_values(|t: FTypeView| spec_entry(t))
}

/// Puts the entries for the type definitions `types` behind those in
/// `index`.
pub fn add_entries(types: &Vec<FType>, index: &mut Vec<TypeEntry>)
    ensures
        final(index).deep_view() == old(index).deep_view() + spec_entries(types.deep_view()),
{
    let ghost all = types.deep_view();
    let ghost start = index.deep_view();
    let mut i: usize = 0;
    assert(start + spec_entries(all).take(0) =~= start);
    while i < types.len()
        invariant
            i <= types.len(),
            all == types.deep_view(),
            index.deep_view() == start + spec_entries(all).take(i as int),
        decreases types.len() - i,
    {
        let e = entry(&types[i]);
        let ghost before = index.deep_view();
        index.push(e);
        proof {
            assert(all[i as int] == types[i as int].deep_view());
            assert(index.deep_view() =~= before.push(e.deep_view()));
            assert(before.push(e.deep_view()) =~= start + spec_entries(all).take(i + 1));
        }
        i += 1;
    }
    assert(spec_entries(all).take(types.len() as int) =~= spec_entries(all));
}

/// The entry of the index for the type definition `t` under a qualified
/// name: `prefix`, `.` and its own name.
pub open spec fn spec_qualified_entry(t: FTypeView, prefix: Seq<char>) -> TypeEntryView {
    TypeEntryView {
        kind: spec_entry(t).kind,
        name: prefix + seq!['.'] + spec_entry(t).name,
        base: spec_entry(t).base,
    }
}

/// Makes the entry of the index for the type definition `t` under a
/// qualified name.
pub fn qualified_entry(t: &FType, prefix: &String) -> (e: TypeEntry)
    ensures
        e.deep_view() == spec_qualified_entry(t.deep_view(), prefix@),
{
    let plain = entry(t);
    proof {
        reveal_strlit(".");
        assert("."@ =~= seq!['.']);
    }
    let name = prefix.clone().concat(".").concat(plain.name.as_str());
    TypeEntry { kind: plain.kind, name, base: plain.base }
}

/// The entries of the index for the type definitions `types` under
/// qualified names, in their order.
pub open spec fn spec_qualified_entries(types: Seq<FTypeView>, prefix: Seq<char>) -> Seq<
    TypeEntryView,
> {
    types.map_values(|t: FTypeView| spec_qualified_entry(t, prefix))
}

/// Puts the entries for the type definitions `types` under qualified names
/// behind those in `index`.
pub fn add_qualified_entries(types: &Vec<FType>, prefix: &String, index: &mut Vec<TypeEntry>)
    ensures
        final(index).deep_view() == old(index).deep_view() + spec_qualified_entries(
            types.deep_view(),
            prefix@,
        ),
{
    let ghost all = types.deep_view();
    let ghost start = index.deep_view();
    let mut i: usize = 0;
    assert(start + spec_qualified_entries(all, prefix@).take(0) =~= start);
    while i < types.len()
        invariant
            i <= types.len(),
            all == types.deep_view(),
            index.deep_view() == start + spec_qualified_entries(all, prefix@).take(i as int),
        decreases types.len() - i,
    {
        let e = qualified_entry(&types[i], prefix);
        let ghost before = index.deep_view();
        index.push(e);
        proof {
            assert(all[i as int] == types[i as int].deep_view());
            assert(index.deep_view() =~= before.push(e.deep_view()));
            assert(before.push(e.deep_view()) =~= start + spec_qualified_entries(
                all,
                prefix@,
            ).take(i + 1));
        }
        i += 1;
    }
    assert(spec_qualified_entries(all, prefix@).take(types.len() as int) =~= spec_qualified_entries(
        all,
        prefix@,
    ));
}

/// The entries for the type definitions `types` of an interface or of a
/// type collection of the package `package`. Each type definition is
/// entered under its own name; where the interface or collection has the
/// name `name`, also under `name`, `.` and its own name, and under that
/// with `package` and `.` in front; and where it has no name, under
/// `package`, `.` and its own name.
pub open spec fn spec_container_entries(
    types: Seq<FTypeView>,
    name: Option<Seq<char>>,
    package: Seq<char>,
) -> Seq<TypeEntryView> {
    match name {
        Some(n) => spec_entries(types) + spec_qualified_entries(types, n) + spec_qualified_entries(
            types,
            package + seq!['.'] + n,
        ),
        None => spec_entries(types) + spec_qualified_entries(types, package),
    }
}

/// Puts the entries for the type definitions `types` of an interface or of
/// a type collection behind those in `index`.
pub fn add_container_entries(
    types: &Vec<FType>,
    name: &Option<String>,
    package: &String,
    index: &mut Vec<TypeEntry>,
)
    ensures
        final(index).deep_view() == old(index).deep_view() + spec_container_entries(
            types.deep_view(),
            name.deep_view(),
            package@,
        ),
{
    let ghost start = index.deep_view();
    let ghost all = types.deep_view();
    add_entries(types, index);
    match name {
        Some(n) => {
            add_qualified_entries(types, n, index);
            proof {
                reveal_strlit(".");
                assert("."@ =~= seq!['.']);
            }
            let full = package.clone().concat(".").concat(n.as_str());
            add_qualified_entries(types, &full, index);
            assert(index.deep_view() =~= start + (spec_entries(all) + spec_qualified_entries(
                all,
                n@,
            )
                + spec_qualified_entries(all, package@ + seq!['.'] + n@)));
        },
        None => {
            add_qualified_entries(types, package, index);
            assert(index.deep_view() =~= start + (spec_entries(all) + spec_qualified_entries(
                all,
                package@,
            )));
        },
    }
}

/// The entries for the type definitions of `interfaces`, which are those
/// of the package `package`, interface by interface.
pub open spec fn spec_interface_entries(
    interfaces: Seq<FInterfaceView>,
    package: Seq<char>,
) -> Seq<TypeEntryView>
    decreases interfaces.len(),
{
    if interfaces.len() == 0 {
        Seq::empty()
    } else {
        spec_interface_entries(interfaces.drop_last(), package) + spec_container_entries(
            interfaces.last().types,
            Some(interfaces.last().name),
            package,
        )
    }
}

/// The entries for the type definitions of `collections`, which are those
/// of the package `package`, collection by collection.
pub open spec fn spec_collection_entries(
    collections: Seq<FTypeCollectionView>,
    package: Seq<char>,
) -> Seq<TypeEntryView>
    decreases collections.len(),
{
    if collections.len() == 0 {
        Seq::empty()
    } else {
        spec_collection_entries(collections.drop_last(), package) + spec_container_entries(
            collections.last().types,
            collections.last().name,
            package,
        )
    }
}

/// The index of a model: the entries for the type definitions of its
/// interfaces, and then of its type collections.
pub open spec fn spec_index(m: FModelView) -> Seq<TypeEntryView> {
    spec_interface_entries(m.interfaces, m.name) + spec_collection_entries(
        m.type_collections,
        m.name,
    )
}

/// Puts the index of the model `m` behind the entries in `index`.
pub fn index_model(m: &FModel, index: &mut Vec<TypeEntry>)
    ensures
        final(index).deep_view() == old(index).deep_view() + spec_index(m.deep_view()),
{
    let ghost start = index.deep_view();
    let ghost interfaces = m.interfaces.deep_view();
    let ghost collections = m.type_collections.deep_view();
    let ghost package = m.name@;
    let mut i: usize = 0;
    assert(start + Seq::<TypeEntryView>::empty() =~= start);
    assert(interfaces.take(0) =~= Seq::<FInterfaceView>::empty());
    while i < m.interfaces.len()
        invariant
            i <= m.interfaces.len(),
            interfaces == m.interfaces.deep_view(),
            package == m.name@,
            index.deep_view() == start + spec_interface_entries(interfaces.take(i as int), package),
        decreases m.interfaces.len() - i,
    {
        proof {
            assert(interfaces.take(i + 1).drop_last() =~= interfaces.take(i as int));
            assert(interfaces[i as int] == m.interfaces[i as int].deep_view());
        }
        let ghost earlier = spec_interface_entries(interfaces.take(i as int), package);
        let ghost one = spec_container_entries(
            interfaces[i as int].types,
            Some(interfaces[i as int].name),
            package,
        );
        let name = Some(m.interfaces[i].name.clone());
        add_container_entries(&m.interfaces[i].types, &name, &m.name, index);
        assert((start + earlier) + one =~= start + (earlier + one));
        i += 1;
    }
    assert(interfaces.take(m.interfaces.len() as int) =~= interfaces);
    let ghost middle = index.deep_view();
    let mut j: usize = 0;
    assert(middle + Seq::<TypeEntryView>::empty() =~= middle);
    assert(collections.take(0) =~= Seq::<FTypeCollectionView>::empty());
    while j < m.type_collections.len()
        invariant
            j <= m.type_collections.len(),
            collections == m.type_collections.deep_view(),
            package == m.name@,
            index.deep_view() == middle + spec_collection_entries(
                collections.take(j as int),
                package,
            ),
        decreases m.type_collections.len() - j,
    {
        proof {
            assert(collections.take(j + 1).drop_last() =~= collections.take(j as int));
            assert(collections[j as int] == m.type_collections[j as int].deep_view());
        }
        let ghost earlier = spec_collection_entries(collections.take(j as int), package);
        let ghost one = spec_container_entries(
            collections[j as int].types,
            collections[j as int].name,
            package,
        );
        add_container_entries(
            &m.type_collections[j].types,
            &m.type_collections[j].name,
            &m.name,
            index,
        );
        assert((middle + earlier) + one =~= middle + (earlier + one));
        j += 1;
    }
    assert(collections.take(m.type_collections.len() as int) =~= collections);
    assert((start + spec_interface_entries(interfaces, package)) + spec_collection_entries(
        collections,
        package,
    ) =~= start + spec_index(m.deep_view()));
}

/// Whether `index` holds a type definition with the name `name`.
pub open spec fn spec_resolves(index: Seq<TypeEntryView>, name: Seq<char>) -> bool {
    first_occurrence(names_of::<TypeEntry>(index), name) is Some
}

/// Tells whether `index` holds a type definition with the name `name`.
pub fn resolves(index: &Vec<TypeEntry>, name: &String) -> (r: bool)
    ensures
        r == spec_resolves(index.deep_view(), name@),
{
    assert(names_of::<TypeEntry>(index.deep_view()).take(index.len() as int) =~= names_of::<
        TypeEntry,
    >(index.deep_view()));
    crate::names::find_named(index, index.len(), name).is_some()
}

/// The kinds and names of the entries of `index`, in their order.
pub open spec fn spec_keys(index: Seq<TypeEntryView>) -> Seq<(TypeKind, Seq<char>)> {
    index.map_values(|e: TypeEntryView| (e.kind, e.name))
}

/// The index of the first entry of `index` for a type definition of the
/// kind `kind` with the name `name`, if there is one.
pub open spec fn spec_find_entry(
    index: Seq<TypeEntryView>,
    kind: TypeKind,
    name: Seq<char>,
) -> Option<nat> {
    first_occurrence(spec_keys(index), (kind, name))
}

/// Whether two kinds are the same.
pub fn same_kind(a: TypeKind, b: TypeKind) -> (r: bool)
    ensures
        r == (a == b),
{
    match (a, b) {
        (TypeKind::StructType, TypeKind::StructType) => true,
        (TypeKind::UnionType, TypeKind::UnionType) => true,
        (TypeKind::EnumerationType, TypeKind::EnumerationType) => true,
        (TypeKind::ArrayType, TypeKind::ArrayType) => true,
        (TypeKind::MapType, TypeKind::MapType) => true,
        (TypeKind::TypeDef, TypeKind::TypeDef) => true,
        _ => false,
    }
}

/// Finds the first entry of `index` for a type definition of the kind
/// `kind` with the name `name`.
pub fn find_entry(index: &Vec<TypeEntry>, kind: TypeKind, name: &String) -> (r: Option<usize>)
    ensures
        r.is_some() == spec_find_entry(index.deep_view(), kind, name@).is_some(),
        r.is_some() ==> r.unwrap() as nat == spec_find_entry(
            index.deep_view(),
            kind,
            name@,
        ).unwrap(),
        r.is_some() ==> r.unwrap() < index.len(),
{
    let ghost keys = spec_keys(index.deep_view());
    let mut i: usize = 0;
    assert(keys.take(0) =~= Seq::<(TypeKind, Seq<char>)>::empty());
    while i < index.len()
        invariant
            i <= index.len(),
            keys == spec_keys(index.deep_view()),
            first_occurrence(keys.take(i as int), (kind, name@)) is None,
        decreases index.len() - i,
    {
        proof {
            assert(keys.take(i + 1).drop_last() =~= keys.take(i as int));
            assert(keys[i as int] == (
                index.deep_view()[i as int].kind,
                index.deep_view()[i as int].name,
            ));
            assert(index.deep_view()[i as int] == index[i as int].deep_view());
        }
        if same_kind(index[i].kind, kind) && index[i].name == *name {
            proof {
                lemma_found_stays_found(keys, i as int, index.len() as int, (kind, name@));
                assert(keys.take(index.len() as int) =~= keys);
            }
            return Some(i);
        }
        i += 1;
    }
    assert(keys.take(index.len() as int) =~= keys);
    None
}

/// Tells whether `name` is one of the names in `chain`.
pub fn on_chain(chain: &Vec<String>, name: &String) -> (r: bool)
    ensures
        r == chain.deep_view().contains(name@),
{
    let ghost names = chain.deep_view();
    let mut i: usize = 0;
    while i < chain.len()
        invariant
            i <= chain.len(),
            names == chain.deep_view(),
            forall|k: int| 0 <= k < i ==> names[k] != name@,
        decreases chain.len() - i,
    {
        assert(names[i as int] == chain[i as int]@);
        if chain[i] == *name {
            return true;
        }
        i += 1;
    }
    false
}

/// What following a chain of bases finds. `chain` holds the names of the
/// declarations that were followed, the first one first, and `next` is the
/// base that the last of them names.
///
/// Where `next` is on the chain already, the chain is cyclic. Where `index`
/// holds no declaration of the kind `kind` for `next`, the chain ends
/// there. Where it holds one, and `max_depth` declarations or more were
/// followed already, the chain is too long. Otherwise the chain goes on
/// with the base of that declaration, and ends where it names none.
pub open spec fn spec_base_chain(
    index: Seq<TypeEntryView>,
    kind: TypeKind,
    chain: Seq<Seq<char>>,
    next: Seq<char>,
    max_depth: nat,
) -> Option<DiagnosticView>
    decreases max_depth - chain.len(),
{
    if chain.contains(next) {
        Some(DiagnosticView::CyclicBaseType { chain: chain.push(next) })
    } else {
        match spec_find_entry(index, kind, next) {
            None => None,
            Some(i) => if chain.len() >= max_depth {
                Some(DiagnosticView::RecursionLimitExceeded { depth: chain.len() })
            } else {
                match index[i as int].base {
                    None => None,
                    Some(base) => spec_base_chain(index, kind, chain.push(next), base, max_depth),
                }
            },
        }
    }
}

/// Follows the chain of bases of the declaration `name` of the kind `kind`,
/// which names the base `base`.
pub fn base_chain(
    index: &Vec<TypeEntry>,
    kind: TypeKind,
    name: &String,
    base: &String,
    max_depth: usize,
) -> (r: Option<Diagnostic>)
    ensures
        r.deep_view() == spec_base_chain(
            index.deep_view(),
            kind,
            seq![name@],
            base@,
            max_depth as nat,
        ),
{
    let mut chain: Vec<String> = Vec::new();
    chain.push(name.clone());
    let mut next: String = base.clone();
    assert(chain.deep_view() =~= seq![name@]);
    loop
        invariant
            spec_base_chain(index.deep_view(), kind, seq![name@], base@, max_depth as nat)
                == spec_base_chain(
                index.deep_view(),
                kind,
                chain.deep_view(),
                next@,
                max_depth as nat,
            ),
        decreases max_depth - chain.len(),
    {
        let ghost before = chain.deep_view();
        if on_chain(&chain, &next) {
            chain.push(next);
            assert(chain.deep_view() =~= before.push(next@));
            return Some(Diagnostic::CyclicBaseType { chain });
        }
        match find_entry(index, kind, &next) {
            None => {
                return None;
            },
            Some(i) => {
                if chain.len() >= max_depth {
                    return Some(Diagnostic::RecursionLimitExceeded { depth: chain.len() });
                }
                assert(index.deep_view()[i as int] == index[i as int].deep_view());
                match &index[i].base {
                    None => {
                        return None;
                    },
                    Some(b) => {
                        let following = b.clone();
                        chain.push(next);
                        assert(chain.deep_view() =~= before.push(next@));
                        next = following;
                    },
                }
            },
        }
    }
}

/// A chain of bases that is longer than allowed is reported as too long.
/// The chain is given by the names on it, no name twice: each of them but
/// the last is declared with the next one as its base, and the last is
/// declared too. Where more than `max_depth` declarations stand on it,
/// following it from the first one stops after `max_depth` declarations.
pub proof fn law_long_chain_is_reported(
    index: Seq<TypeEntryView>,
    kind: TypeKind,
    names: Seq<Seq<char>>,
    max_depth: nat,
)
    requires
        names.no_duplicates(),
        1 <= max_depth < names.len(),
        forall|i: int|
            0 <= i < names.len() ==> (#[trigger] spec_find_entry(index, kind, names[i])) is Some,
        forall|i: int|
            0 <= i < names.len() - 1 ==> index[(#[trigger] spec_find_entry(
                index,
                kind,
                names[i],
            )).unwrap() as int].base == Some(names[i + 1]),
    ensures
        spec_base_chain(index, kind, seq![names[0]], names[1], max_depth) == Some(
            DiagnosticView::RecursionLimitExceeded { depth: max_depth },
        ),
        spec_check_base(index, kind, names[0], Some(names[1]), max_depth) == seq![
            DiagnosticView::RecursionLimitExceeded { depth: max_depth },
        ],
{
    assert(names.take(1) =~= seq![names[0]]);
    lemma_long_chain_from(index, kind, names, max_depth, 1);
    assert(spec_find_entry(index, kind, names[1]) is Some);
}

/// The same, from the declaration with the index `at` on.
proof fn lemma_long_chain_from(
    index: Seq<TypeEntryView>,
    kind: TypeKind,
    names: Seq<Seq<char>>,
    max_depth: nat,
    at: int,
)
    requires
        names.no_duplicates(),
        1 <= at <= max_depth < names.len(),
        forall|i: int|
            0 <= i < names.len() ==> (#[trigger] spec_find_entry(index, kind, names[i])) is Some,
        forall|i: int|
            0 <= i < names.len() - 1 ==> index[(#[trigger] spec_find_entry(
                index,
                kind,
                names[i],
            )).unwrap() as int].base == Some(names[i + 1]),
    ensures
        spec_base_chain(index, kind, names.take(at), names[at], max_depth) == Some(
            DiagnosticView::RecursionLimitExceeded { depth: max_depth },
        ),
    decreases max_depth - at,
{
    assert(!names.take(at).contains(names[at])) by {
        if names.take(at).contains(names[at]) {
            let k = choose|k: int| 0 <= k < at && names.take(at)[k] == names[at];
            assert(names[k] == names[at]);
        }
    }
    assert(spec_find_entry(index, kind, names[at]) is Some);
    if at < max_depth {
        assert(names.take(at).push(names[at]) =~= names.take(at + 1));
        lemma_long_chain_from(index, kind, names, max_depth, at + 1);
    }
}

/// What is found of a base: nothing where none is named; that it is unknown
/// where `index` holds no declaration of the same kind with that name; and
/// else what following the chain of bases finds.
pub open spec fn spec_check_base(
    index: Seq<TypeEntryView>,
    kind: TypeKind,
    name: Seq<char>,
    base: Option<Seq<char>>,
    max_depth: nat,
) -> Seq<DiagnosticView> {
    match base {
        None => Seq::empty(),
        Some(b) => match spec_find_entry(index, kind, b) {
            None => seq![DiagnosticView::UnknownTypeReference { name: b, scope: name }],
            Some(_) => match spec_base_chain(index, kind, seq![name], b, max_depth) {
                Some(d) => seq![d],
                None => Seq::empty(),
            },
        },
    }
}

/// Checks the base of the declaration `name` of the kind `kind`.
pub fn check_base(
    index: &Vec<TypeEntry>,
    kind: TypeKind,
    name: &String,
    base: &Option<String>,
    max_depth: usize,
    found: &mut Vec<Diagnostic>,
)
    ensures
        final(found).deep_view() == old(found).deep_view() + spec_check_base(
            index.deep_view(),
            kind,
            name@,
            base.deep_view(),
            max_depth as nat,
        ),
{
    let ghost before = found.deep_view();
    assert(before + Seq::<DiagnosticView>::empty() =~= before);
    match base {
        None => {},
        Some(b) => match find_entry(index, kind, b) {
            None => {
                let d = Diagnostic::UnknownTypeReference { name: b.clone(), scope: name.clone() };
                found.push(d);
                assert(found.deep_view() =~= before + seq![d.deep_view()]);
            },
            Some(_) => match base_chain(index, kind, name, b, max_depth) {
                Some(d) => {
                    found.push(d);
                    assert(found.deep_view() =~= before + seq![d.deep_view()]);
                },
                None => {},
            },
        },
    }
}

/// What is found of a reference to a type in `scope`: that it is unknown,
/// where it names a type that `index` does not hold.
pub open spec fn spec_check_type_ref(
    r: FTypeRefView,
    index: Seq<TypeEntryView>,
    scope: Seq<char>,
) -> Seq<DiagnosticView> {
    match r.derived {
        Some(name) => if spec_resolves(index, name) {
            Seq::empty()
        } else {
            seq![DiagnosticView::UnknownTypeReference { name, scope }]
        },
        None => Seq::empty(),
    }
}

/// Checks a reference to a type in `scope`.
pub fn check_type_ref(
    r: &FTypeRef,
    index: &Vec<TypeEntry>,
    scope: &String,
    found: &mut Vec<Diagnostic>,
)
    ensures
        final(found).deep_view() == old(found).deep_view() + spec_check_type_ref(
            r.deep_view(),
            index.deep_view(),
            scope@,
        ),
{
    let ghost before = found.deep_view();
    assert(before + Seq::<DiagnosticView>::empty() =~= before);
    match &r.derived {
        Some(name) => {
            if !resolves(index, name) {
                let d = Diagnostic::UnknownTypeReference {
                    name: name.clone(),
                    scope: scope.clone(),
                };
                found.push(d);
                assert(found.deep_view() =~= before + seq![d.deep_view()]);
            }
        },
        None => {},
    }
}

/// The names of `enumerators` and their values, where two of them have the
/// same.
pub open spec fn spec_check_enumerators(
    enumerators: Seq<crate::ast::FEnumeratorView>,
    scope: Seq<char>,
) -> Seq<DiagnosticView> {
    spec_duplicates(
        names_of::<FEnumerator>(enumerators),
        names_of::<FEnumerator>(enumerators),
        scope,
    ) + spec_duplicates(
        spec_enumerator_values(enumerators),
        names_of::<FEnumerator>(enumerators),
        scope,
    )
}

/// Finds the first of the first `end` values that is `value`.
pub(crate) fn find_value(values: &Vec<i128>, end: usize, value: i128) -> (r: Option<usize>)
    requires
        end <= values.len(),
    ensures
        r.is_some() == first_occurrence(
            values@.map_values(|v: i128| v as int).take(end as int),
            value as int,
        ).is_some(),
        r.is_some() ==> r.unwrap() as nat == first_occurrence(
            values@.map_values(|v: i128| v as int).take(end as int),
            value as int,
        ).unwrap(),
{
    let ghost keys = values@.map_values(|v: i128| v as int);
    let mut i: usize = 0;
    assert(keys.take(0) =~= Seq::<int>::empty());
    while i < end
        invariant
            i <= end <= values.len(),
            keys == values@.map_values(|v: i128| v as int),
            first_occurrence(keys.take(i as int), value as int) is None,
        decreases end - i,
    {
        proof {
            assert(keys.take(i + 1).drop_last() =~= keys.take(i as int));
            assert(keys[i as int] == values@[i as int] as int);
        }
        if values[i] == value {
            proof {
                lemma_found_stays_found(keys, i as int, end as int, value as int);
            }
            return Some(i);
        }
        i += 1;
    }
    None
}

/// Checks the enumerators of an enumeration: no name twice, and no value
/// twice.
pub fn check_enumerators(
    enumerators: &Vec<FEnumerator>,
    scope: &String,
    found: &mut Vec<Diagnostic>,
)
    ensures
        final(found).deep_view() == old(found).deep_view() + spec_check_enumerators(
            enumerators.deep_view(),
            scope@,
        ),
{
    let ghost start = found.deep_view();
    let ghost all = enumerators.deep_view();
    let ghost names = names_of::<FEnumerator>(all);
    duplicates(enumerators, scope, found);
    let ghost middle = found.deep_view();
    let values = enumerator_values(enumerators);
    let ghost keys = values@.map_values(|v: i128| v as int);
    proof {
        crate::names::lemma_enumerator_values_bound(all);
    }
    let mut j: usize = 0;
    assert(middle + Seq::<DiagnosticView>::empty() =~= middle);
    assert(keys.take(0) =~= Seq::<int>::empty());
    assert(names.take(0) =~= Seq::<Seq<char>>::empty());
    while j < enumerators.len()
        invariant
            j <= enumerators.len(),
            values.len() == enumerators.len(),
            all == enumerators.deep_view(),
            names == names_of::<FEnumerator>(all),
            keys == values@.map_values(|v: i128| v as int),
            found.deep_view() == middle + spec_duplicates(
                keys.take(j as int),
                names.take(j as int),
                scope@,
            ),
        decreases enumerators.len() - j,
    {
        proof {
            assert(keys.take(j + 1).drop_last() =~= keys.take(j as int));
            assert(names.take(j + 1).drop_last() =~= names.take(j as int));
            assert(keys[j as int] == values@[j as int] as int);
            assert(names[j as int] == all[j as int].name);
            assert(all[j as int] == enumerators[j as int].deep_view());
        }
        let ghost before = found.deep_view();
        match find_value(&values, j, values[j]) {
            Some(first) => {
                let d = Diagnostic::DuplicateDeclaration {
                    name: enumerators[j].name.clone(),
                    scope: scope.clone(),
                    first,
                    second: j,
                };
                found.push(d);
                proof {
                    let earlier = spec_duplicates(
                        keys.take(j as int),
                        names.take(j as int),
                        scope@,
                    );
                    assert(found.deep_view() =~= before.push(d.deep_view()));
                    assert(before.push(d.deep_view()) =~= middle + earlier.push(d.deep_view()));
                }
            },
            None => {},
        }
        j += 1;
    }
    proof {
        assert(keys.take(enumerators.len() as int) =~= keys);
        assert(names.take(enumerators.len() as int) =~= names);
        let a = spec_duplicates(names, names, scope@);
        let b = spec_duplicates(keys, names, scope@);
        assert((start + a) + b =~= start + (a + b));
    }
}


/// What is found in a field in `scope`: what is found of the type that it
/// refers to.
pub open spec fn spec_check_field(
    x: FFieldView,
    index: Seq<TypeEntryView>,
    scope: Seq<char>,
) -> Seq<DiagnosticView> {
    spec_check_type_ref(x.type_ref, index, scope)
}

/// Checks a field in `scope`.
pub fn check_field(
    x: &FField,
    index: &Vec<TypeEntry>,
    scope: &String,
    found: &mut Vec<Diagnostic>,
)
    ensures
        final(found).deep_view() == old(found).deep_view() + spec_check_field(
            x.deep_view(),
            index.deep_view(),
            scope@,
        ),
{
    check_type_ref(&x.type_ref, index, scope, found);
}

/// What is found in fields, one after the other.
pub open spec fn spec_check_fields(
    items: Seq<FFieldView>,
    index: Seq<TypeEntryView>,
    scope: Seq<char>,
) -> Seq<DiagnosticView>
    decreases items.len(),
{
    if items.len() == 0 {
        Seq::empty()
    } else {
        spec_check_fields(items.drop_last(), index, scope) + spec_check_field(
            items.last(), index, scope,
        )
    }
}

/// Checks fields, one after the other, and reports behind the reports in
/// `found`.
pub fn check_fields(
    items: &Vec<FField>,
    index: &Vec<TypeEntry>,
    scope: &String,
    found: &mut Vec<Diagnostic>,
)
    ensures
        final(found).deep_view() == old(found).deep_view() + spec_check_fields(
            items.deep_view(), index.deep_view(), scope@,
        ),
{
    let ghost all = items.deep_view();
    let ghost start = found.deep_view();
    let mut i: usize = 0;
    assert(start + Seq::<DiagnosticView>::empty() =~= start);
    assert(all.take(0) =~= Seq::<FFieldView>::empty());
    while i < items.len()
        invariant
            i <= items.len(),
            all == items.deep_view(),
            found.deep_view() == start + spec_check_fields(
                all.take(i as int),
                index.deep_view(),
                scope@,
            ),
        decreases items.len() - i,
    {
        proof {
            assert(all.take(i + 1).drop_last() =~= all.take(i as int));
            assert(all[i as int] == items[i as int].deep_view());
        }
        let ghost earlier = spec_check_fields(all.take(i as int), index.deep_view(), scope@);
        let ghost one = spec_check_field(all[i as int], index.deep_view(), scope@);
        check_field(&items[i], index, scope, found);
        assert((start + earlier) + one =~= start + (earlier + one));
        i += 1;
    }
    assert(all.take(items.len() as int) =~= all);
}

/// What is found in an argument in `scope`: what is found of the type that it
/// refers to.
pub open spec fn spec_check_argument(
    x: FArgumentView,
    index: Seq<TypeEntryView>,
    scope: Seq<char>,
) -> Seq<DiagnosticView> {
    spec_check_type_ref(x.type_ref, index, scope)
}

/// Checks an argument in `scope`.
pub fn check_argument(
    x: &FArgument,
    index: &Vec<TypeEntry>,
    scope: &String,
    found: &mut Vec<Diagnostic>,
)
    ensures
        final(found).deep_view() == old(found).deep_view() + spec_check_argument(
            x.deep_view(),
            index.deep_view(),
            scope@,
        ),
{
    check_type_ref(&x.type_ref, index, scope, found);
}

/// What is found in arguments, one after the other.
pub open spec fn spec_check_arguments(
    items: Seq<FArgumentView>,
    index: Seq<TypeEntryView>,
    scope: Seq<char>,
) -> Seq<DiagnosticView>
    decreases items.len(),
{
    if items.len() == 0 {
        Seq::empty()
    } else {
        spec_check_arguments(items.drop_last(), index, scope) + spec_check_argument(
            items.last(), index, scope,
        )
    }
}

/// Checks arguments, one after the other, and reports behind the reports in
/// `found`.
pub fn check_arguments(
    items: &Vec<FArgument>,
    index: &Vec<TypeEntry>,
    scope: &String,
    found: &mut Vec<Diagnostic>,
)
    ensures
        final(found).deep_view() == old(found).deep_view() + spec_check_arguments(
            items.deep_view(), index.deep_view(), scope@,
        ),
{
    let ghost all = items.deep_view();
    let ghost start = found.deep_view();
    let mut i: usize = 0;
    assert(start + Seq::<DiagnosticView>::empty() =~= start);
    assert(all.take(0) =~= Seq::<FArgumentView>::empty());
    while i < items.len()
        invariant
            i <= items.len(),
            all == items.deep_view(),
            found.deep_view() == start + spec_check_arguments(
                all.take(i as int),
                index.deep_view(),
                scope@,
            ),
        decreases items.len() - i,
    {
        proof {
            assert(all.take(i + 1).drop_last() =~= all.take(i as int));
            assert(all[i as int] == items[i as int].deep_view());
        }
        let ghost earlier = spec_check_arguments(all.take(i as int), index.deep_view(), scope@);
        let ghost one = spec_check_argument(all[i as int], index.deep_view(), scope@);
        check_argument(&items[i], index, scope, found);
        assert((start + earlier) + one =~= start + (earlier + one));
        i += 1;
    }
    assert(all.take(items.len() as int) =~= all);
}

/// What is found in an attribute in `scope`: what is found of the type that it
/// refers to.
pub open spec fn spec_check_attribute(
    x: FAttributeView,
    index: Seq<TypeEntryView>,
    scope: Seq<char>,
) -> Seq<DiagnosticView> {
    spec_check_type_ref(x.type_ref, index, scope)
}

/// Checks an attribute in `scope`.
pub fn check_attribute(
    x: &FAttribute,
    index: &Vec<TypeEntry>,
    scope: &String,
    found: &mut Vec<Diagnostic>,
)
    ensures
        final(found).deep_view() == old(found).deep_view() + spec_check_attribute(
            x.deep_view(),
            index.deep_view(),
            scope@,
        ),
{
    check_type_ref(&x.type_ref, index, scope, found);
}

/// What is found in attributes, one after the other.
pub open spec fn spec_check_attributes(
    items: Seq<FAttributeView>,
    index: Seq<TypeEntryView>,
    scope: Seq<char>,
) -> Seq<DiagnosticView>
    decreases items.len(),
{
    if items.len() == 0 {
        Seq::empty()
    } else {
        spec_check_attributes(items.drop_last(), index, scope) + spec_check_attribute(
            items.last(), index, scope,
        )
    }
}

/// Checks attributes, one after the other, and reports behind the reports in
/// `found`.
pub fn check_attributes(
    items: &Vec<FAttribute>,
    index: &Vec<TypeEntry>,
    scope: &String,
    found: &mut Vec<Diagnostic>,
)
    ensures
        final(found).deep_view() == old(found).deep_view() + spec_check_attributes(
            items.deep_view(), index.deep_view(), scope@,
        ),
{
    let ghost all = items.deep_view();
    let ghost start = found.deep_view();
    let mut i: usize = 0;
    assert(start + Seq::<DiagnosticView>::empty() =~= start);
    assert(all.take(0) =~= Seq::<FAttributeView>::empty());
    while i < items.len()
        invariant
            i <= items.len(),
            all == items.deep_view(),
            found.deep_view() == start + spec_check_attributes(
                all.take(i as int),
                index.deep_view(),
                scope@,
            ),
        decreases items.len() - i,
    {
        proof {
            assert(all.take(i + 1).drop_last() =~= all.take(i as int));
            assert(all[i as int] == items[i as int].deep_view());
        }
        let ghost earlier = spec_check_attributes(all.take(i as int), index.deep_view(), scope@);
        let ghost one = spec_check_attribute(all[i as int], index.deep_view(), scope@);
        check_attribute(&items[i], index, scope, found);
        assert((start + earlier) + one =~= start + (earlier + one));
        i += 1;
    }
    assert(all.take(items.len() as int) =~= all);
}

/// What is found in a type definition. In a struct and in a union: the
/// fields that repeat a name, what is found in the fields, and what is
/// found of the base. In an
/// enumeration: the enumerators that repeat a name or a value, and what is
/// found of the base. In an array, a map and an alias: what is found of the
/// types that they refer to.
pub open spec fn spec_check_type(
    t: FTypeView,
    index: Seq<TypeEntryView>,
    max_depth: nat,
) -> Seq<DiagnosticView> {
    match t {
        FTypeView::StructType(x) => spec_duplicates(
            names_of::<FField>(x.elements),
            names_of::<FField>(x.elements),
            x.name,
        ) + spec_check_fields(x.elements, index, x.name) + spec_check_base(
            index,
            TypeKind::StructType,
            x.name,
            x.base,
            max_depth,
        ),
        FTypeView::UnionType(x) => spec_duplicates(
            names_of::<FField>(x.elements),
            names_of::<FField>(x.elements),
            x.name,
        ) + spec_check_fields(x.elements, index, x.name) + spec_check_base(
            index,
            TypeKind::UnionType,
            x.name,
            x.base,
            max_depth,
        ),
        FTypeView::EnumerationType(x) => spec_check_enumerators(x.enumerators, x.name)
            + spec_check_base(index, TypeKind::EnumerationType, x.name, x.base, max_depth),
        FTypeView::ArrayType(x) => spec_check_type_ref(x.element_type, index, x.name),
        FTypeView::MapType(x) => spec_check_type_ref(x.key_type, index, x.name)
            + spec_check_type_ref(x.value_type, index, x.name),
        FTypeView::TypeDef(x) => spec_check_type_ref(x.actual_type, index, x.name),
    }
}

/// Checks a type definition.
pub fn check_type(t: &FType, index: &Vec<TypeEntry>, max_depth: usize, found: &mut Vec<Diagnostic>)
    ensures
        final(found).deep_view() == old(found).deep_view() + spec_check_type(
            t.deep_view(),
            index.deep_view(),
            max_depth as nat,
        ),
{
    let ghost start = found.deep_view();
    match t {
        FType::StructType(x) => {
            duplicates(&x.elements, &x.name, found);
            let ghost a = spec_duplicates(
                names_of::<FField>(x.elements.deep_view()),
                names_of::<FField>(x.elements.deep_view()),
                x.name@,
            );
            check_fields(&x.elements, index, &x.name, found);
            let ghost b = spec_check_fields(x.elements.deep_view(), index.deep_view(), x.name@);
            assert(found.deep_view() =~= start + (a + b));
            check_base(index, TypeKind::StructType, &x.name, &x.base, max_depth, found);
            assert(found.deep_view() =~= start + (a + b + spec_check_base(
                index.deep_view(),
                TypeKind::StructType,
                x.name@,
                x.base.deep_view(),
                max_depth as nat,
            )));
        },
        FType::UnionType(x) => {
            duplicates(&x.elements, &x.name, found);
            let ghost a = spec_duplicates(
                names_of::<FField>(x.elements.deep_view()),
                names_of::<FField>(x.elements.deep_view()),
                x.name@,
            );
            check_fields(&x.elements, index, &x.name, found);
            let ghost b = spec_check_fields(x.elements.deep_view(), index.deep_view(), x.name@);
            assert(found.deep_view() =~= start + (a + b));
            check_base(index, TypeKind::UnionType, &x.name, &x.base, max_depth, found);
            assert(found.deep_view() =~= start + (a + b + spec_check_base(
                index.deep_view(),
                TypeKind::UnionType,
                x.name@,
                x.base.deep_view(),
                max_depth as nat,
            )));
        },
        FType::EnumerationType(x) => {
            check_enumerators(&x.enumerators, &x.name, found);
            let ghost a = spec_check_enumerators(x.enumerators.deep_view(), x.name@);
            check_base(index, TypeKind::EnumerationType, &x.name, &x.base, max_depth, found);
            assert(found.deep_view() =~= start + (a + spec_check_base(
                index.deep_view(),
                TypeKind::EnumerationType,
                x.name@,
                x.base.deep_view(),
                max_depth as nat,
            )));
        },
        FType::ArrayType(x) => {
            check_type_ref(&x.element_type, index, &x.name, found);
        },
        FType::MapType(x) => {
            check_type_ref(&x.key_type, index, &x.name, found);
            let ghost a = spec_check_type_ref(x.key_type.deep_view(), index.deep_view(), x.name@);
            check_type_ref(&x.value_type, index, &x.name, found);
            assert(found.deep_view() =~= start + (a + spec_check_type_ref(
                x.value_type.deep_view(),
                index.deep_view(),
                x.name@,
            )));
        },
        FType::TypeDef(x) => {
            check_type_ref(&x.actual_type, index, &x.name, found);
        },
    }
}

/// What is found in type definitions, one after the other.
pub open spec fn spec_check_types(
    items: Seq<FTypeView>,
    index: Seq<TypeEntryView>,
    max_depth: nat,
) -> Seq<DiagnosticView>
    decreases items.len(),
{
    if items.len() == 0 {
        Seq::empty()
    } else {
        spec_check_types(items.drop_last(), index, max_depth) + spec_check_type(
            items.last(), index, max_depth,
        )
    }
}

/// Checks type definitions, one after the other, and reports behind the reports in
/// `found`.
pub fn check_types(
    items: &Vec<FType>,
    index: &Vec<TypeEntry>,
    max_depth: usize,
    found: &mut Vec<Diagnostic>,
)
    ensures
        final(found).deep_view() == old(found).deep_view() + spec_check_types(
            items.deep_view(), index.deep_view(), max_depth as nat,
        ),
{
    let ghost all = items.deep_view();
    let ghost start = found.deep_view();
    let mut i: usize = 0;
    assert(start + Seq::<DiagnosticView>::empty() =~= start);
    assert(all.take(0) =~= Seq::<FTypeView>::empty());
    while i < items.len()
        invariant
            i <= items.len(),
            all == items.deep_view(),
            found.deep_view() == start + spec_check_types(
                all.take(i as int),
                index.deep_view(),
                max_depth as nat,
            ),
        decreases items.len() - i,
    {
        proof {
            assert(all.take(i + 1).drop_last() =~= all.take(i as int));
            assert(all[i as int] == items[i as int].deep_view());
        }
        let ghost earlier = spec_check_types(
            all.take(i as int),
            index.deep_view(),
            max_depth as nat,
        );
        let ghost one = spec_check_type(all[i as int], index.deep_view(), max_depth as nat);
        check_type(&items[i], index, max_depth, found);
        assert((start + earlier) + one =~= start + (earlier + one));
        i += 1;
    }
    assert(all.take(items.len() as int) =~= all);
}

/// What is found of the errors of a method: that the enumeration is
/// unknown, where the method names one that `index` does not hold; and the
/// enumerators that repeat a name or a value, where they are written in
/// place.
pub open spec fn spec_check_errors(m: FMethodView, index: Seq<TypeEntryView>) -> Seq<
    DiagnosticView,
> {
    (match m.error_enum {
        Some(name) => if spec_find_entry(index, TypeKind::EnumerationType, name) is Some {
            Seq::empty()
        } else {
            seq![DiagnosticView::UnknownTypeReference { name, scope: m.name }]
        },
        None => Seq::empty(),
    }) + (match m.errors {
        Some(errors) => spec_check_enumerators(errors.enumerators, m.name),
        None => Seq::empty(),
    })
}

/// Checks the errors of a method.
pub fn check_errors(m: &FMethod, index: &Vec<TypeEntry>, found: &mut Vec<Diagnostic>)
    ensures
        final(found).deep_view() == old(found).deep_view() + spec_check_errors(
            m.deep_view(),
            index.deep_view(),
        ),
{
    let ghost start = found.deep_view();
    assert(start + Seq::<DiagnosticView>::empty() =~= start);
    match &m.error_enum {
        Some(name) => {
            if find_entry(index, TypeKind::EnumerationType, name).is_none() {
                let d = Diagnostic::UnknownTypeReference {
                    name: name.clone(),
                    scope: m.name.clone(),
                };
                found.push(d);
                assert(found.deep_view() =~= start + seq![d.deep_view()]);
            }
        },
        None => {},
    }
    let ghost middle = found.deep_view();
    assert(middle + Seq::<DiagnosticView>::empty() =~= middle);
    match &m.errors {
        Some(errors) => {
            check_enumerators(&errors.enumerators, &m.name, found);
        },
        None => {},
    }
    assert(found.deep_view() =~= start + spec_check_errors(m.deep_view(), index.deep_view()));
}

/// What is found in a method: in the arguments that it takes, in those
/// that it gives, and of its errors.
pub open spec fn spec_check_method(m: FMethodView, index: Seq<TypeEntryView>) -> Seq<
    DiagnosticView,
> {
    spec_check_arguments(m.in_args, index, m.name) + spec_check_arguments(
        m.out_args,
        index,
        m.name,
    ) + spec_check_errors(m, index)
}

/// Checks a method.
pub fn check_method(m: &FMethod, index: &Vec<TypeEntry>, found: &mut Vec<Diagnostic>)
    ensures
        final(found).deep_view() == old(found).deep_view() + spec_check_method(
            m.deep_view(),
            index.deep_view(),
        ),
{
    let ghost start = found.deep_view();
    check_arguments(&m.in_args, index, &m.name, found);
    let ghost a = spec_check_arguments(m.in_args.deep_view(), index.deep_view(), m.name@);
    check_arguments(&m.out_args, index, &m.name, found);
    let ghost b = spec_check_arguments(m.out_args.deep_view(), index.deep_view(), m.name@);
    assert(found.deep_view() =~= start + (a + b));
    check_errors(m, index, found);
    assert(found.deep_view() =~= start + (a + b + spec_check_errors(
        m.deep_view(),
        index.deep_view(),
    )));
}

/// What is found in methods, one after the other.
pub open spec fn spec_check_methods(
    items: Seq<FMethodView>,
    index: Seq<TypeEntryView>,
) -> Seq<DiagnosticView>
    decreases items.len(),
{
    if items.len() == 0 {
        Seq::empty()
    } else {
        spec_check_methods(items.drop_last(), index) + spec_check_method(
            items.last(), index,
        )
    }
}

/// Checks methods, one after the other, and reports behind the reports in
/// `found`.
pub fn check_methods(items: &Vec<FMethod>, index: &Vec<TypeEntry>, found: &mut Vec<Diagnostic>)
    ensures
        final(found).deep_view() == old(found).deep_view() + spec_check_methods(
            items.deep_view(), index.deep_view(),
        ),
{
    let ghost all = items.deep_view();
    let ghost start = found.deep_view();
    let mut i: usize = 0;
    assert(start + Seq::<DiagnosticView>::empty() =~= start);
    assert(all.take(0) =~= Seq::<FMethodView>::empty());
    while i < items.len()
        invariant
            i <= items.len(),
            all == items.deep_view(),
            found.deep_view() == start + spec_check_methods(all.take(i as int), index.deep_view()),
        decreases items.len() - i,
    {
        proof {
            assert(all.take(i + 1).drop_last() =~= all.take(i as int));
            assert(all[i as int] == items[i as int].deep_view());
        }
        let ghost earlier = spec_check_methods(all.take(i as int), index.deep_view());
        let ghost one = spec_check_method(all[i as int], index.deep_view());
        check_method(&items[i], index, found);
        assert((start + earlier) + one =~= start + (earlier + one));
        i += 1;
    }
    assert(all.take(items.len() as int) =~= all);
}

/// What is found in a broadcast: in the arguments that it gives.
pub open spec fn spec_check_broadcast(b: FBroadcastView, index: Seq<TypeEntryView>) -> Seq<
    DiagnosticView,
> {
    spec_check_arguments(b.out_args, index, b.name)
}

/// Checks a broadcast.
pub fn check_broadcast(b: &FBroadcast, index: &Vec<TypeEntry>, found: &mut Vec<Diagnostic>)
    ensures
        final(found).deep_view() == old(found).deep_view() + spec_check_broadcast(
            b.deep_view(),
            index.deep_view(),
        ),
{
    check_arguments(&b.out_args, index, &b.name, found);
}

/// What is found in broadcasts, one after the other.
pub open spec fn spec_check_broadcasts(
    items: Seq<FBroadcastView>,
    index: Seq<TypeEntryView>,
) -> Seq<DiagnosticView>
    decreases items.len(),
{
    if items.len() == 0 {
        Seq::empty()
    } else {
        spec_check_broadcasts(items.drop_last(), index) + spec_check_broadcast(
            items.last(), index,
        )
    }
}

/// Checks broadcasts, one after the other, and reports behind the reports in
/// `found`.
pub fn check_broadcasts(
    items: &Vec<FBroadcast>,
    index: &Vec<TypeEntry>,
    found: &mut Vec<Diagnostic>,
)
    ensures
        final(found).deep_view() == old(found).deep_view() + spec_check_broadcasts(
            items.deep_view(), index.deep_view(),
        ),
{
    let ghost all = items.deep_view();
    let ghost start = found.deep_view();
    let mut i: usize = 0;
    assert(start + Seq::<DiagnosticView>::empty() =~= start);
    assert(all.take(0) =~= Seq::<FBroadcastView>::empty());
    while i < items.len()
        invariant
            i <= items.len(),
            all == items.deep_view(),
            found.deep_view() == start + spec_check_broadcasts(
                all.take(i as int),
                index.deep_view(),
            ),
        decreases items.len() - i,
    {
        proof {
            assert(all.take(i + 1).drop_last() =~= all.take(i as int));
            assert(all[i as int] == items[i as int].deep_view());
        }
        let ghost earlier = spec_check_broadcasts(all.take(i as int), index.deep_view());
        let ghost one = spec_check_broadcast(all[i as int], index.deep_view());
        check_broadcast(&items[i], index, found);
        assert((start + earlier) + one =~= start + (earlier + one));
        i += 1;
    }
    assert(all.take(items.len() as int) =~= all);
}

/// What is found in an interface: the attributes, the methods, the
/// broadcasts and the type definitions that repeat a name of their kind,
/// and what is found in each attribute, method, broadcast and type
/// definition.
pub open spec fn spec_check_interface(
    i: FInterfaceView,
    index: Seq<TypeEntryView>,
    max_depth: nat,
) -> Seq<DiagnosticView> {
    spec_duplicates(
        names_of::<FAttribute>(i.attributes),
        names_of::<FAttribute>(i.attributes),
        i.name,
    ) + spec_duplicates(names_of::<FMethod>(i.methods), names_of::<FMethod>(i.methods), i.name)
        + spec_duplicates(
        names_of::<FBroadcast>(i.broadcasts),
        names_of::<FBroadcast>(i.broadcasts),
        i.name,
    ) + spec_duplicates(names_of::<FType>(i.types), names_of::<FType>(i.types), i.name)
        + spec_check_attributes(i.attributes, index, i.name) + spec_check_methods(i.methods, index)
        + spec_check_broadcasts(i.broadcasts, index) + spec_check_types(i.types, index, max_depth)
}

/// Checks an interface.
pub fn check_interface(
    i: &FInterface,
    index: &Vec<TypeEntry>,
    max_depth: usize,
    found: &mut Vec<Diagnostic>,
)
    ensures
        final(found).deep_view() == old(found).deep_view() + spec_check_interface(
            i.deep_view(),
            index.deep_view(),
            max_depth as nat,
        ),
{
    let ghost start = found.deep_view();
    let ghost v = i.deep_view();
    duplicates(&i.attributes, &i.name, found);
    duplicates(&i.methods, &i.name, found);
    duplicates(&i.broadcasts, &i.name, found);
    duplicates(&i.types, &i.name, found);
    let ghost names = found.deep_view();
    check_attributes(&i.attributes, index, &i.name, found);
    check_methods(&i.methods, index, found);
    check_broadcasts(&i.broadcasts, index, found);
    check_types(&i.types, index, max_depth, found);
    proof {
        let a = spec_duplicates(
            names_of::<FAttribute>(v.attributes),
            names_of::<FAttribute>(v.attributes),
            v.name,
        );
        let b = spec_duplicates(
            names_of::<FMethod>(v.methods),
            names_of::<FMethod>(v.methods),
            v.name,
        );
        let c = spec_duplicates(
            names_of::<FBroadcast>(v.broadcasts),
            names_of::<FBroadcast>(v.broadcasts),
            v.name,
        );
        let d = spec_duplicates(names_of::<FType>(v.types), names_of::<FType>(v.types), v.name);
        assert(names =~= start + (a + b + c + d));
        let e = spec_check_attributes(v.attributes, index.deep_view(), v.name);
        let f = spec_check_methods(v.methods, index.deep_view());
        let g = spec_check_broadcasts(v.broadcasts, index.deep_view());
        let h = spec_check_types(v.types, index.deep_view(), max_depth as nat);
        assert((((names + e) + f) + g) + h =~= start + (a + b + c + d + e + f + g + h));
    }
}

/// What is found in interfaces, one after the other.
pub open spec fn spec_check_interfaces(
    items: Seq<FInterfaceView>,
    index: Seq<TypeEntryView>,
    max_depth: nat,
) -> Seq<DiagnosticView>
    decreases items.len(),
{
    if items.len() == 0 {
        Seq::empty()
    } else {
        spec_check_interfaces(items.drop_last(), index, max_depth) + spec_check_interface(
            items.last(), index, max_depth,
        )
    }
}

/// Checks interfaces, one after the other, and reports behind the reports in
/// `found`.
pub fn check_interfaces(
    items: &Vec<FInterface>,
    index: &Vec<TypeEntry>,
    max_depth: usize,
    found: &mut Vec<Diagnostic>,
)
    ensures
        final(found).deep_view() == old(found).deep_view() + spec_check_interfaces(
            items.deep_view(), index.deep_view(), max_depth as nat,
        ),
{
    let ghost all = items.deep_view();
    let ghost start = found.deep_view();
    let mut i: usize = 0;
    assert(start + Seq::<DiagnosticView>::empty() =~= start);
    assert(all.take(0) =~= Seq::<FInterfaceView>::empty());
    while i < items.len()
        invariant
            i <= items.len(),
            all == items.deep_view(),
            found.deep_view() == start + spec_check_interfaces(
                all.take(i as int),
                index.deep_view(),
                max_depth as nat,
            ),
        decreases items.len() - i,
    {
        proof {
            assert(all.take(i + 1).drop_last() =~= all.take(i as int));
            assert(all[i as int] == items[i as int].deep_view());
        }
        let ghost earlier = spec_check_interfaces(
            all.take(i as int),
            index.deep_view(),
            max_depth as nat,
        );
        let ghost one = spec_check_interface(all[i as int], index.deep_view(), max_depth as nat);
        check_interface(&items[i], index, max_depth, found);
        assert((start + earlier) + one =~= start + (earlier + one));
        i += 1;
    }
    assert(all.take(items.len() as int) =~= all);
}

/// The name under which the findings in a type collection are reported: its
/// own, or none.
pub open spec fn spec_collection_scope(name: Option<Seq<char>>) -> Seq<char> {
    match name {
        Some(n) => n,
        None => Seq::empty(),
    }
}

/// What is found in a type collection: the type definitions that repeat a
/// name, and what is found in each of them.
pub open spec fn spec_check_collection(
    c: FTypeCollectionView,
    index: Seq<TypeEntryView>,
    max_depth: nat,
) -> Seq<DiagnosticView> {
    spec_duplicates(
        names_of::<FType>(c.types),
        names_of::<FType>(c.types),
        spec_collection_scope(c.name),
    ) + spec_check_types(c.types, index, max_depth)
}

/// Checks a type collection.
pub fn check_collection(
    c: &FTypeCollection,
    index: &Vec<TypeEntry>,
    max_depth: usize,
    found: &mut Vec<Diagnostic>,
)
    ensures
        final(found).deep_view() == old(found).deep_view() + spec_check_collection(
            c.deep_view(),
            index.deep_view(),
            max_depth as nat,
        ),
{
    let ghost start = found.deep_view();
    let ghost v = c.deep_view();
    let scope = match &c.name {
        Some(n) => n.clone(),
        None => String::new(),
    };
    duplicates(&c.types, &scope, found);
    check_types(&c.types, index, max_depth, found);
    proof {
        let a = spec_duplicates(names_of::<FType>(v.types), names_of::<FType>(v.types), scope@);
        let b = spec_check_types(v.types, index.deep_view(), max_depth as nat);
        assert((start + a) + b =~= start + (a + b));
    }
}

/// What is found in type collections, one after the other.
pub open spec fn spec_check_collections(
    items: Seq<FTypeCollectionView>,
    index: Seq<TypeEntryView>,
    max_depth: nat,
) -> Seq<DiagnosticView>
    decreases items.len(),
{
    if items.len() == 0 {
        Seq::empty()
    } else {
        spec_check_collections(items.drop_last(), index, max_depth) + spec_check_collection(
            items.last(), index, max_depth,
        )
    }
}

/// Checks type collections, one after the other, and reports behind the reports in
/// `found`.
pub fn check_collections(
    items: &Vec<FTypeCollection>,
    index: &Vec<TypeEntry>,
    max_depth: usize,
    found: &mut Vec<Diagnostic>,
)
    ensures
        final(found).deep_view() == old(found).deep_view() + spec_check_collections(
            items.deep_view(), index.deep_view(), max_depth as nat,
        ),
{
    let ghost all = items.deep_view();
    let ghost start = found.deep_view();
    let mut i: usize = 0;
    assert(start + Seq::<DiagnosticView>::empty() =~= start);
    assert(all.take(0) =~= Seq::<FTypeCollectionView>::empty());
    while i < items.len()
        invariant
            i <= items.len(),
            all == items.deep_view(),
            found.deep_view() == start + spec_check_collections(
                all.take(i as int),
                index.deep_view(),
                max_depth as nat,
            ),
        decreases items.len() - i,
    {
        proof {
            assert(all.take(i + 1).drop_last() =~= all.take(i as int));
            assert(all[i as int] == items[i as int].deep_view());
        }
        let ghost earlier = spec_check_collections(
            all.take(i as int),
            index.deep_view(),
            max_depth as nat,
        );
        let ghost one = spec_check_collection(all[i as int], index.deep_view(), max_depth as nat);
        check_collection(&items[i], index, max_depth, found);
        assert((start + earlier) + one =~= start + (earlier + one));
        i += 1;
    }
    assert(all.take(items.len() as int) =~= all);
}

/// What is found in a model when the types of `index` can be referred to:
/// the interfaces that repeat a name, what is found in each interface, and
/// what is found in each type collection.
pub open spec fn spec_check_model(
    m: FModelView,
    index: Seq<TypeEntryView>,
    max_depth: nat,
) -> Seq<DiagnosticView> {
    spec_duplicates(
        names_of::<FInterface>(m.interfaces),
        names_of::<FInterface>(m.interfaces),
        m.name,
    ) + spec_check_interfaces(m.interfaces, index, max_depth) + spec_check_collections(
        m.type_collections,
        index,
        max_depth,
    )
}

/// Where two interfaces of a model have the same name, and no other two
/// have, that name is reported exactly once among the interfaces that
/// repeat a name, with the places of both, and this report is the first
/// finding in the model.
pub proof fn law_duplicate_interface_is_reported(
    m: FModelView,
    index: Seq<TypeEntryView>,
    max_depth: nat,
    first: int,
    second: int,
)
    requires
        0 <= first < second < m.interfaces.len(),
        m.interfaces[first].name == m.interfaces[second].name,
        forall|i: int, j: int|
            0 <= i < j < m.interfaces.len() && !(i == first && j == second)
                ==> m.interfaces[i].name != m.interfaces[j].name,
    ensures
        spec_duplicates(
            names_of::<FInterface>(m.interfaces),
            names_of::<FInterface>(m.interfaces),
            m.name,
        ) == seq![
            DiagnosticView::DuplicateDeclaration {
                name: m.interfaces[second].name,
                scope: m.name,
                first: first as nat,
                second: second as nat,
            },
        ],
        spec_check_model(m, index, max_depth).len() > 0,
        spec_check_model(m, index, max_depth)[0] == (DiagnosticView::DuplicateDeclaration {
            name: m.interfaces[second].name,
            scope: m.name,
            first: first as nat,
            second: second as nat,
        }),
{
    let names = names_of::<FInterface>(m.interfaces);
    crate::names::law_one_duplicate_one_report(names, names, m.name, first, second);
}

/// Checks a model when the types of `index` can be referred to.
pub fn check_model(
    m: &FModel,
    index: &Vec<TypeEntry>,
    max_depth: usize,
    found: &mut Vec<Diagnostic>,
)
    ensures
        final(found).deep_view() == old(found).deep_view() + spec_check_model(
            m.deep_view(),
            index.deep_view(),
            max_depth as nat,
        ),
{
    let ghost start = found.deep_view();
    let ghost v = m.deep_view();
    duplicates(&m.interfaces, &m.name, found);
    check_interfaces(&m.interfaces, index, max_depth, found);
    check_collections(&m.type_collections, index, max_depth, found);
    proof {
        let a = spec_duplicates(
            names_of::<FInterface>(v.interfaces),
            names_of::<FInterface>(v.interfaces),
            v.name,
        );
        let b = spec_check_interfaces(v.interfaces, index.deep_view(), max_depth as nat);
        let c = spec_check_collections(v.type_collections, index.deep_view(), max_depth as nat);
        assert(((start + a) + b) + c =~= start + (a + b + c));
    }
}

/// What one part of the findings holds, the whole holds.
pub proof fn lemma_part_is_held(a: Seq<DiagnosticView>, b: Seq<DiagnosticView>, d: DiagnosticView)
    requires
        a.contains(d) || b.contains(d),
    ensures
        (a + b).contains(d),
{
    if a.contains(d) {
        let k = choose|k: int| 0 <= k < a.len() && a[k] == d;
        assert((a + b)[k] == d);
    } else {
        let k = choose|k: int| 0 <= k < b.len() && b[k] == d;
        assert((a + b)[a.len() + k] == d);
    }
}

/// Everything that is found in one of the type definitions `types` is
/// found in all of them together.
pub proof fn lemma_types_hold_each(
    types: Seq<FTypeView>,
    index: Seq<TypeEntryView>,
    max_depth: nat,
    j: int,
    d: DiagnosticView,
)
    requires
        0 <= j < types.len(),
        spec_check_type(types[j], index, max_depth).contains(d),
    ensures
        spec_check_types(types, index, max_depth).contains(d),
    decreases types.len(),
{
    if j < types.len() - 1 {
        lemma_types_hold_each(types.drop_last(), index, max_depth, j, d);
    }
    lemma_part_is_held(
        spec_check_types(types.drop_last(), index, max_depth),
        spec_check_type(types.last(), index, max_depth),
        d,
    );
}

/// Everything that is found in one of the type collections `collections`
/// is found in all of them together.
pub proof fn lemma_collections_hold_each(
    collections: Seq<FTypeCollectionView>,
    index: Seq<TypeEntryView>,
    max_depth: nat,
    i: int,
    d: DiagnosticView,
)
    requires
        0 <= i < collections.len(),
        spec_check_collection(collections[i], index, max_depth).contains(d),
    ensures
        spec_check_collections(collections, index, max_depth).contains(d),
    decreases collections.len(),
{
    if i < collections.len() - 1 {
        lemma_collections_hold_each(collections.drop_last(), index, max_depth, i, d);
    }
    lemma_part_is_held(
        spec_check_collections(collections.drop_last(), index, max_depth),
        spec_check_collection(collections.last(), index, max_depth),
        d,
    );
}

/// A struct of a type collection whose chain of bases is longer than
/// allowed is reported when the model is validated, whatever else the
/// model holds. The chain is given by the names on it, no name twice,
/// the struct first: each of them but the last is declared as a struct
/// with the next one as its base, and the last is declared too. Where
/// more than `max_depth` structs stand on it, the findings hold the report
/// that the limit is exceeded after `max_depth` of them.
pub proof fn law_long_chain_in_a_model_is_reported(
    m: FModelView,
    max_depth: nat,
    i: int,
    j: int,
    names: Seq<Seq<char>>,
)
    requires
        0 <= i < m.type_collections.len(),
        0 <= j < m.type_collections[i].types.len(),
        m.type_collections[i].types[j] is StructType,
        names.no_duplicates(),
        1 <= max_depth < names.len(),
        m.type_collections[i].types[j]->StructType_0.name == names[0],
        m.type_collections[i].types[j]->StructType_0.base == Some(names[1]),
        forall|k: int|
            0 <= k < names.len() ==> (#[trigger] spec_find_entry(
                spec_index(m),
                TypeKind::StructType,
                names[k],
            )) is Some,
        forall|k: int|
            0 <= k < names.len() - 1 ==> spec_index(m)[(#[trigger] spec_find_entry(
                spec_index(m),
                TypeKind::StructType,
                names[k],
            )).unwrap() as int].base == Some(names[k + 1]),
    ensures
        spec_validate(m, max_depth).contains(
            DiagnosticView::RecursionLimitExceeded { depth: max_depth },
        ),
{
    let index = spec_index(m);
    let report = DiagnosticView::RecursionLimitExceeded { depth: max_depth };
    let c = m.type_collections[i];
    let t = c.types[j];
    let x = t->StructType_0;
    law_long_chain_is_reported(index, TypeKind::StructType, names, max_depth);
    let base = spec_check_base(index, TypeKind::StructType, x.name, x.base, max_depth);
    assert(base[0] == report);
    let fields = spec_duplicates(
        names_of::<FField>(x.elements),
        names_of::<FField>(x.elements),
        x.name,
    ) + spec_check_fields(x.elements, index, x.name);
    lemma_part_is_held(fields, base, report);
    assert(spec_check_type(t, index, max_depth) == fields + base);
    lemma_types_hold_each(c.types, index, max_depth, j, report);
    lemma_part_is_held(
        spec_duplicates(
            names_of::<FType>(c.types),
            names_of::<FType>(c.types),
            spec_collection_scope(c.name),
        ),
        spec_check_types(c.types, index, max_depth),
        report,
    );
    lemma_collections_hold_each(m.type_collections, index, max_depth, i, report);
    lemma_part_is_held(
        spec_duplicates(
            names_of::<FInterface>(m.interfaces),
            names_of::<FInterface>(m.interfaces),
            m.name,
        ) + spec_check_interfaces(m.interfaces, index, max_depth),
        spec_check_collections(m.type_collections, index, max_depth),
        report,
    );
}

/// What is found in a model by itself: what is found in it when the types
/// that it declares can be referred to, and no others.
pub open spec fn spec_validate(m: FModelView, max_depth: nat) -> Seq<DiagnosticView> {
    spec_check_model(m, spec_index(m), max_depth)
}

/// Validates a model by itself, following chains of bases over at most
/// `max_depth` declarations. The model is handed back as it was given,
/// together with everything that was found, in the order of the
/// declarations.
pub fn validate(model: FModel, max_depth: usize) -> (r: (FModel, Vec<Diagnostic>))
    ensures
        r.0 == model,
        r.1.deep_view() == spec_validate(model.deep_view(), max_depth as nat),
{
    let mut index: Vec<TypeEntry> = Vec::new();
    assert(index.deep_view() =~= Seq::<TypeEntryView>::empty());
    index_model(&model, &mut index);
    assert(Seq::<TypeEntryView>::empty() + spec_index(model.deep_view()) =~= spec_index(
        model.deep_view(),
    ));
    let mut found: Vec<Diagnostic> = Vec::new();
    assert(found.deep_view() =~= Seq::<DiagnosticView>::empty());
    check_model(&model, &index, max_depth, &mut found);
    assert(Seq::<DiagnosticView>::empty() + spec_validate(model.deep_view(), max_depth as nat)
        =~= spec_validate(model.deep_view(), max_depth as nat));
    (model, found)
}

} // verus!
