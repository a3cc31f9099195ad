//! Validation of a deployment model against the core model that it is laid
//! over: every target must be declared there, under the name and of the
//! kind that the deployment says; every property that is set must be
//! declared in the governing specification; and every value must be of the
//! kind that its declaration asks for. The specifications themselves are
//! checked too: no name twice, and no default of another kind than
//! declared.

use vstd::prelude::*;
use vstd::string::StringExecFns;
use crate::ast::{
    FArgument, FArgumentView, FAttribute, FAttributeView, FBroadcast, FBroadcastView, FEnumerator,
    FEnumeratorView, FField, FFieldView, FInterface, FInterfaceView, FMethod, FMethodView, FModel,
    FModelView, FType, FTypeView,
};
use crate::deployment::{
    FdArgument, FdArgumentList, FdArgumentListView, FdArgumentView, FdAttribute, FdAttributeView,
    FdArray, FdArrayView, FdBroadcast, FdBroadcastView, FdCompound, FdCompoundView, FdEnumValue,
    FdEnumValueView, FdEnumeration, FdEnumerationView, FdMap, FdMapView, FdStruct, FdStructView,
    FdTypeDef, FdTypeDefView, FdUnion, FdUnionView, FdField, FdFieldView, FdInterface,
    FdInterfaceView, FdMethod, FdMethodView, FdModel, FdModelView, FdPlainTypeOverwrites,
    FdProperty, FdPropertyDecl, FdPropertyDeclView, FdPropertySet, FdPropertySetView,
    FdPropertyView, FdRootElement, FdRootElementView, FdSpecification, FdSpecificationView,
    FdTypeDefinition, FdTypeDefinitionView, FdTypeOverwrites, FdTypeOverwritesView, FdValue,
    FdValueView,
};
use crate::diag::{Diagnostic, DiagnosticView, FdValueKind};
use crate::extension::{spec_check_extensions, check_extensions};
use crate::names::{
    Named, duplicates, find_named, first_occurrence, lemma_found_stays_found, names_of,
    spec_duplicates,
};
use crate::validate::{TypeKind, same_kind, spec_entry};

verus! {

impl Named for FdSpecification {
    open spec fn name_of(v: FdSpecificationView) -> Seq<char> {
        v.name
    }

    fn name(&self) -> (r: &String) {
        &self.name
    }
}

impl Named for FdPropertyDecl {
    open spec fn name_of(v: FdPropertyDeclView) -> Seq<char> {
        v.name
    }

    fn name(&self) -> (r: &String) {
        &self.name
    }
}

/// The kind of the value `v`.
pub open spec fn spec_kind_of(v: FdValueView) -> FdValueKind {
    match v {
        FdValueView::FdInteger(_) => FdValueKind::Integer,
        FdValueView::FdString(_) => FdValueKind::Text,
        FdValueView::FdBoolean(_) => FdValueKind::Boolean,
        FdValueView::FdInterfaceRef(_) => FdValueKind::InterfaceRef,
    }
}

/// Tells the kind of the value `v`.
pub fn kind_of(v: &FdValue) -> (k: FdValueKind)
    ensures
        k == spec_kind_of(v.deep_view()),
{
    match v {
        FdValue::FdInteger(_) => FdValueKind::Integer,
        FdValue::FdString(_) => FdValueKind::Text,
        FdValue::FdBoolean(_) => FdValueKind::Boolean,
        FdValue::FdInterfaceRef(_) => FdValueKind::InterfaceRef,
    }
}

/// Whether two kinds of value are the same.
pub fn same_value_kind(a: FdValueKind, b: FdValueKind) -> (r: bool)
    ensures
        r == (a == b),
{
    match (a, b) {
        (FdValueKind::Integer, FdValueKind::Integer) => true,
        (FdValueKind::Text, FdValueKind::Text) => true,
        (FdValueKind::Boolean, FdValueKind::Boolean) => true,
        (FdValueKind::InterfaceRef, FdValueKind::InterfaceRef) => true,
        _ => false,
    }
}

/// The declaration among `among` that `target` names: the first one with
/// that name. Where no declarations are known, none is found.
pub open spec fn spec_target<T: Named>(
    target: Seq<char>,
    among: Option<Seq<T::V>>,
) -> Option<T::V> {
    match among {
        None => None,
        Some(items) => match first_occurrence(names_of::<T>(items), target) {
            Some(i) => Some(items[i as int]),
            None => None,
        },
    }
}

/// Finds the declaration among `among` that `target` names.
pub fn find_target<'a, T: Named>(target: &String, among: Option<&'a Vec<T>>) -> (r: Option<&'a T>)
    ensures
        r.deep_view() == spec_target::<T>(target@, among.deep_view()),
{
    match among {
        None => None,
        Some(items) => {
            assert(names_of::<T>(items.deep_view()).take(items.len() as int) =~= names_of::<T>(
                items.deep_view(),
            ));
            match find_named(items, items.len(), target) {
                Some(i) => {
                    assert(items.deep_view()[i as int] == items[i as int].deep_view());
                    Some(&items[i])
                },
                None => None,
            }
        },
    }
}

/// What is found of a target in `scope`: that it is unknown, where the
/// declarations that it could name are known and none of them has its
/// name.
pub open spec fn spec_check_target<T: Named>(
    target: Seq<char>,
    among: Option<Seq<T::V>>,
    scope: Seq<char>,
) -> Seq<DiagnosticView> {
    match among {
        None => Seq::empty(),
        Some(items) => if first_occurrence(names_of::<T>(items), target) is Some {
            Seq::empty()
        } else {
            seq![DiagnosticView::UnknownTypeReference { name: target, scope }]
        },
    }
}

/// A target that names none of the declarations that it could name is
/// reported as unknown, whatever else is found.
pub proof fn law_unknown_target_is_reported<T: Named>(
    target: Seq<char>,
    items: Seq<T::V>,
    scope: Seq<char>,
)
    requires
        forall|i: int| 0 <= i < items.len() ==> T::name_of(#[trigger] items[i]) != target,
    ensures
        spec_check_target::<T>(target, Some(items), scope) == seq![
            DiagnosticView::UnknownTypeReference { name: target, scope },
        ],
        spec_target::<T>(target, Some(items)) is None,
{
    crate::names::lemma_first_occurrence(names_of::<T>(items), target);
    if first_occurrence(names_of::<T>(items), target) is Some {
        let i = first_occurrence(names_of::<T>(items), target).unwrap() as int;
        assert(names_of::<T>(items)[i] == T::name_of(items[i]));
    }
}

/// Checks a target in `scope` and finds the declaration that it names.
pub fn check_target<'a, T: Named>(
    target: &String,
    among: Option<&'a Vec<T>>,
    scope: &String,
    found: &mut Vec<Diagnostic>,
) -> (r: Option<&'a T>)
    ensures
        r.deep_view() == spec_target::<T>(target@, among.deep_view()),
        final(found).deep_view() == old(found).deep_view() + spec_check_target::<T>(
            target@,
            among.deep_view(),
            scope@,
        ),
{
    let ghost before = found.deep_view();
    assert(before + Seq::<DiagnosticView>::empty() =~= before);
    let r = find_target(target, among);
    if among.is_some() && r.is_none() {
        let d = Diagnostic::UnknownTypeReference { name: target.clone(), scope: scope.clone() };
        found.push(d);
        assert(found.deep_view() =~= before + seq![d.deep_view()]);
    }
    r
}

/// What is found of a property that is set under the specification `spec`:
/// that it is unknown, where the specification does not declare it, and
/// that its value is invalid, where it is not of the kind that the
/// declaration asks for. Where the specification is not known, nothing is
/// found.
pub open spec fn spec_check_fd_property(
    p: FdPropertyView,
    spec: Option<FdSpecificationView>,
) -> Seq<DiagnosticView> {
    match spec {
        None => Seq::empty(),
        Some(sp) => match spec_target::<FdPropertyDecl>(p.decl, Some(sp.declarations)) {
            None => seq![DiagnosticView::UnknownTypeReference { name: p.decl, scope: sp.name }],
            Some(decl) => if spec_kind_of(p.value) == decl.kind {
                Seq::empty()
            } else {
                seq![
                    DiagnosticView::InvalidPropertyValue {
                        property: p.decl,
                        expected_kind: decl.kind,
                        found_kind: spec_kind_of(p.value),
                    },
                ]
            },
        },
    }
}

/// Checks a property that is set under the specification `spec`.
pub fn check_fd_property(
    p: &FdProperty,
    spec: Option<&FdSpecification>,
    found: &mut Vec<Diagnostic>,
)
    ensures
        final(found).deep_view() == old(found).deep_view() + spec_check_fd_property(
            p.deep_view(),
            spec.deep_view(),
        ),
{
    let ghost before = found.deep_view();
    assert(before + Seq::<DiagnosticView>::empty() =~= before);
    match spec {
        None => {},
        Some(sp) => match find_target(&p.decl, Some(&sp.declarations)) {
            None => {
                let d = Diagnostic::UnknownTypeReference {
                    name: p.decl.clone(),
                    scope: sp.name.clone(),
                };
                found.push(d);
                assert(found.deep_view() =~= before + seq![d.deep_view()]);
            },
            Some(decl) => {
                let kind = kind_of(&p.value);
                if !same_value_kind(kind, decl.kind) {
                    let d = Diagnostic::InvalidPropertyValue {
                        property: p.decl.clone(),
                        expected_kind: decl.kind,
                        found_kind: kind,
                    };
                    found.push(d);
                    assert(found.deep_view() =~= before + seq![d.deep_view()]);
                }
            },
        },
    }
}

/// What is found in properties that are set, one after the other.
pub open spec fn spec_check_fd_properties(
    items: Seq<FdPropertyView>,
    spec: Option<FdSpecificationView>,
) -> Seq<DiagnosticView>
    decreases items.len(),
{
    if items.len() == 0 {
        Seq::empty()
    } else {
        spec_check_fd_properties(items.drop_last(), spec) + spec_check_fd_property(
            items.last(), spec,
        )
    }
}

/// Checks properties that are set, one after the other, and reports behind the reports in
/// `found`.
pub fn check_fd_properties(
    items: &Vec<FdProperty>,
    spec: Option<&FdSpecification>,
    found: &mut Vec<Diagnostic>,
)
    ensures
        final(found).deep_view() == old(found).deep_view() + spec_check_fd_properties(
            items.deep_view(), spec.deep_view(),
        ),
{
    let ghost all = items.deep_view();
    let ghost start = found.deep_view();
    let mut i: usize = 0;
    assert(start + Seq::<DiagnosticView>::empty() =~= start);
    assert(all.take(0) =~= Seq::<FdPropertyView>::empty());
    while i < items.len()
        invariant
            i <= items.len(),
            all == items.deep_view(),
            found.deep_view() == start + spec_check_fd_properties(
                all.take(i as int),
                spec.deep_view(),
            ),
        decreases items.len() - i,
    {
        proof {
            assert(all.take(i + 1).drop_last() =~= all.take(i as int));
            assert(all[i as int] == items[i as int].deep_view());
        }
        let ghost earlier = spec_check_fd_properties(all.take(i as int), spec.deep_view());
        let ghost one = spec_check_fd_property(all[i as int], spec.deep_view());
        check_fd_property(&items[i], spec, found);
        assert((start + earlier) + one =~= start + (earlier + one));
        i += 1;
    }
    assert(all.take(items.len() as int) =~= all);
}

/// What is found in the properties that are set on one element.
pub open spec fn spec_check_property_set(
    set: FdPropertySetView,
    spec: Option<FdSpecificationView>,
) -> Seq<DiagnosticView> {
    spec_check_fd_properties(set.items, spec)
}

/// Checks the properties that are set on one element.
pub fn check_property_set(
    set: &FdPropertySet,
    spec: Option<&FdSpecification>,
    found: &mut Vec<Diagnostic>,
)
    ensures
        final(found).deep_view() == old(found).deep_view() + spec_check_property_set(
            set.deep_view(),
            spec.deep_view(),
        ),
{
    check_fd_properties(&set.items, spec, found);
}

/// What is found in properties that may be there or not.
pub open spec fn spec_check_opt_property_set(
    set: Option<FdPropertySetView>,
    spec: Option<FdSpecificationView>,
) -> Seq<DiagnosticView> {
    match set {
        Some(set) => spec_check_property_set(set, spec),
        None => Seq::empty(),
    }
}

/// What is found in the deployment of a field: what is found of its target
/// among the fields `among`, in its properties, and in the properties that
/// refine its type.
pub open spec fn spec_check_fd_field(
    d: FdFieldView,
    spec: Option<FdSpecificationView>,
    among: Option<Seq<FFieldView>>,
    scope: Seq<char>,
) -> Seq<DiagnosticView> {
    spec_check_target::<FField>(d.target, among, scope) + spec_check_property_set(
        d.properties,
        spec,
    ) + spec_check_opt_property_set(
        match d.overwrites {
            Some(o) => Some(o.properties),
            None => None,
        },
        spec,
    )
}

/// Checks the deployment of a field.
pub fn check_fd_field(
    d: &FdField,
    spec: Option<&FdSpecification>,
    among: Option<&Vec<FField>>,
    scope: &String,
    found: &mut Vec<Diagnostic>,
)
    ensures
        final(found).deep_view() == old(found).deep_view() + spec_check_fd_field(
            d.deep_view(),
            spec.deep_view(),
            among.deep_view(),
            scope@,
        ),
{
    let ghost start = found.deep_view();
    let _ = check_target(&d.target, among, scope, found);
    let ghost a = spec_check_target::<FField>(d.target@, among.deep_view(), scope@);
    check_property_set(&d.properties, spec, found);
    let ghost b = spec_check_property_set(d.properties.deep_view(), spec.deep_view());
    let ghost middle = found.deep_view();
    assert(middle + Seq::<DiagnosticView>::empty() =~= middle);
    match &d.overwrites {
        Some(o) => {
            check_property_set(&o.properties, spec, found);
        },
        None => {},
    }
    assert(found.deep_view() =~= start + spec_check_fd_field(
        d.deep_view(),
        spec.deep_view(),
        among.deep_view(),
        scope@,
    ));
}

/// What is found in deployments of fields, one after the other.
pub open spec fn spec_check_fd_fields(
    items: Seq<FdFieldView>,
    spec: Option<FdSpecificationView>,
    among: Option<Seq<FFieldView>>,
    scope: Seq<char>,
) -> Seq<DiagnosticView>
    decreases items.len(),
{
    if items.len() == 0 {
        Seq::empty()
    } else {
        spec_check_fd_fields(items.drop_last(), spec, among, scope) + spec_check_fd_field(
            items.last(), spec, among, scope,
        )
    }
}

/// Checks deployments of fields, one after the other, and reports behind the reports in
/// `found`.
pub fn check_fd_fields(
    items: &Vec<FdField>,
    spec: Option<&FdSpecification>,
    among: Option<&Vec<FField>>,
    scope: &String,
    found: &mut Vec<Diagnostic>,
)
    ensures
        final(found).deep_view() == old(found).deep_view() + spec_check_fd_fields(
            items.deep_view(), spec.deep_view(), among.deep_view(), scope@,
        ),
{
    let ghost all = items.deep_view();
    let ghost start = found.deep_view();
    let mut i: usize = 0;
    assert(start + Seq::<DiagnosticView>::empty() =~= start);
    assert(all.take(0) =~= Seq::<FdFieldView>::empty());
    while i < items.len()
        invariant
            i <= items.len(),
            all == items.deep_view(),
            found.deep_view() == start + spec_check_fd_fields(
                all.take(i as int),
                spec.deep_view(),
                among.deep_view(),
                scope@,
            ),
        decreases items.len() - i,
    {
        proof {
            assert(all.take(i + 1).drop_last() =~= all.take(i as int));
            assert(all[i as int] == items[i as int].deep_view());
        }
        let ghost earlier = spec_check_fd_fields(
            all.take(i as int),
            spec.deep_view(),
            among.deep_view(),
            scope@,
        );
        let ghost one = spec_check_fd_field(
            all[i as int],
            spec.deep_view(),
            among.deep_view(),
            scope@,
        );
        check_fd_field(&items[i], spec, among, scope, found);
        assert((start + earlier) + one =~= start + (earlier + one));
        i += 1;
    }
    assert(all.take(items.len() as int) =~= all);
}

/// What is found in the deployment of an enumerator: what is found of its
/// target among the enumerators `among`, and in its properties.
pub open spec fn spec_check_fd_enum_value(
    d: FdEnumValueView,
    spec: Option<FdSpecificationView>,
    among: Option<Seq<FEnumeratorView>>,
    scope: Seq<char>,
) -> Seq<DiagnosticView> {
    spec_check_target::<FEnumerator>(d.target, among, scope) + spec_check_property_set(
        d.properties,
        spec,
    )
}

/// Checks the deployment of an enumerator.
pub fn check_fd_enum_value(
    d: &FdEnumValue,
    spec: Option<&FdSpecification>,
    among: Option<&Vec<FEnumerator>>,
    scope: &String,
    found: &mut Vec<Diagnostic>,
)
    ensures
        final(found).deep_view() == old(found).deep_view() + spec_check_fd_enum_value(
            d.deep_view(),
            spec.deep_view(),
            among.deep_view(),
            scope@,
        ),
{
    let ghost start = found.deep_view();
    let _ = check_target(&d.target, among, scope, found);
    check_property_set(&d.properties, spec, found);
    assert(found.deep_view() =~= start + spec_check_fd_enum_value(
        d.deep_view(),
        spec.deep_view(),
        among.deep_view(),
        scope@,
    ));
}

/// What is found in deployments of enumerators, one after the other.
pub open spec fn spec_check_fd_enum_values(
    items: Seq<FdEnumValueView>,
    spec: Option<FdSpecificationView>,
    among: Option<Seq<FEnumeratorView>>,
    scope: Seq<char>,
) -> Seq<DiagnosticView>
    decreases items.len(),
{
    if items.len() == 0 {
        Seq::empty()
    } else {
        spec_check_fd_enum_values(items.drop_last(), spec, among, scope) + spec_check_fd_enum_value(
            items.last(), spec, among, scope,
        )
    }
}

/// Checks deployments of enumerators, one after the other, and reports behind the reports in
/// `found`.
pub fn check_fd_enum_values(
    items: &Vec<FdEnumValue>,
    spec: Option<&FdSpecification>,
    among: Option<&Vec<FEnumerator>>,
    scope: &String,
    found: &mut Vec<Diagnostic>,
)
    ensures
        final(found).deep_view() == old(found).deep_view() + spec_check_fd_enum_values(
            items.deep_view(), spec.deep_view(), among.deep_view(), scope@,
        ),
{
    let ghost all = items.deep_view();
    let ghost start = found.deep_view();
    let mut i: usize = 0;
    assert(start + Seq::<DiagnosticView>::empty() =~= start);
    assert(all.take(0) =~= Seq::<FdEnumValueView>::empty());
    while i < items.len()
        invariant
            i <= items.len(),
            all == items.deep_view(),
            found.deep_view() == start + spec_check_fd_enum_values(
                all.take(i as int),
                spec.deep_view(),
                among.deep_view(),
                scope@,
            ),
        decreases items.len() - i,
    {
        proof {
            assert(all.take(i + 1).drop_last() =~= all.take(i as int));
            assert(all[i as int] == items[i as int].deep_view());
        }
        let ghost earlier = spec_check_fd_enum_values(
            all.take(i as int),
            spec.deep_view(),
            among.deep_view(),
            scope@,
        );
        let ghost one = spec_check_fd_enum_value(
            all[i as int],
            spec.deep_view(),
            among.deep_view(),
            scope@,
        );
        check_fd_enum_value(&items[i], spec, among, scope, found);
        assert((start + earlier) + one =~= start + (earlier + one));
        i += 1;
    }
    assert(all.take(items.len() as int) =~= all);
}

/// What is found in a refinement of a type: in its properties, and in the
/// properties of the fields and enumerators that it refines. The targets
/// in it are not looked up: what they name depends on the type, which the
/// refinement does not say.
pub open spec fn spec_check_overwrites(
    o: Option<FdTypeOverwritesView>,
    spec: Option<FdSpecificationView>,
    scope: Seq<char>,
) -> Seq<DiagnosticView> {
    match o {
        None => Seq::empty(),
        Some(FdTypeOverwritesView::FdPlainTypeOverwrites(x)) => spec_check_property_set(
            x.properties,
            spec,
        ),
        Some(FdTypeOverwritesView::FdStructOverwrites(x)) => spec_check_property_set(
            x.properties,
            spec,
        ) + spec_check_fd_fields(x.fields, spec, None, scope),
        Some(FdTypeOverwritesView::FdUnionOverwrites(x)) => spec_check_property_set(
            x.properties,
            spec,
        ) + spec_check_fd_fields(x.fields, spec, None, scope),
        Some(FdTypeOverwritesView::FdEnumerationOverwrites(x)) => spec_check_property_set(
            x.properties,
            spec,
        ) + spec_check_fd_enum_values(x.enumerators, spec, None, scope),
    }
}

/// Checks a refinement of a type.
pub fn check_overwrites(
    o: &Option<FdTypeOverwrites>,
    spec: Option<&FdSpecification>,
    scope: &String,
    found: &mut Vec<Diagnostic>,
)
    ensures
        final(found).deep_view() == old(found).deep_view() + spec_check_overwrites(
            o.deep_view(),
            spec.deep_view(),
            scope@,
        ),
{
    let ghost start = found.deep_view();
    assert(start + Seq::<DiagnosticView>::empty() =~= start);
    match o {
        None => {},
        Some(FdTypeOverwrites::FdPlainTypeOverwrites(x)) => {
            check_property_set(&x.properties, spec, found);
        },
        Some(FdTypeOverwrites::FdStructOverwrites(x)) => {
            check_property_set(&x.properties, spec, found);
            check_fd_fields(&x.fields, spec, None, scope, found);
        },
        Some(FdTypeOverwrites::FdUnionOverwrites(x)) => {
            check_property_set(&x.properties, spec, found);
            check_fd_fields(&x.fields, spec, None, scope, found);
        },
        Some(FdTypeOverwrites::FdEnumerationOverwrites(x)) => {
            check_property_set(&x.properties, spec, found);
            check_fd_enum_values(&x.enumerators, spec, None, scope, found);
        },
    }
    assert(found.deep_view() =~= start + spec_check_overwrites(
        o.deep_view(),
        spec.deep_view(),
        scope@,
    ));
}

/// What is found in the deployment of an argument: what is found of its
/// target among the arguments `among`, in its properties, and in the
/// refinement of its type.
pub open spec fn spec_check_fd_argument(
    d: FdArgumentView,
    spec: Option<FdSpecificationView>,
    among: Option<Seq<FArgumentView>>,
    scope: Seq<char>,
) -> Seq<DiagnosticView> {
    spec_check_target::<FArgument>(d.target, among, scope) + spec_check_property_set(
        d.properties,
        spec,
    ) + spec_check_overwrites(d.overwrites, spec, d.target)
}

/// Checks the deployment of an argument.
pub fn check_fd_argument(
    d: &FdArgument,
    spec: Option<&FdSpecification>,
    among: Option<&Vec<FArgument>>,
    scope: &String,
    found: &mut Vec<Diagnostic>,
)
    ensures
        final(found).deep_view() == old(found).deep_view() + spec_check_fd_argument(
            d.deep_view(),
            spec.deep_view(),
            among.deep_view(),
            scope@,
        ),
{
    let ghost start = found.deep_view();
    let _ = check_target(&d.target, among, scope, found);
    check_property_set(&d.properties, spec, found);
    check_overwrites(&d.overwrites, spec, &d.target, found);
    assert(found.deep_view() =~= start + spec_check_fd_argument(
        d.deep_view(),
        spec.deep_view(),
        among.deep_view(),
        scope@,
    ));
}

/// What is found in deployments of arguments, one after the other.
pub open spec fn spec_check_fd_arguments(
    items: Seq<FdArgumentView>,
    spec: Option<FdSpecificationView>,
    among: Option<Seq<FArgumentView>>,
    scope: Seq<char>,
) -> Seq<DiagnosticView>
    decreases items.len(),
{
    if items.len() == 0 {
        Seq::empty()
    } else {
        spec_check_fd_arguments(items.drop_last(), spec, among, scope) + spec_check_fd_argument(
            items.last(), spec, among, scope,
        )
    }
}

/// Checks deployments of arguments, one after the other, and reports behind the reports in
/// `found`.
pub fn check_fd_arguments(
    items: &Vec<FdArgument>,
    spec: Option<&FdSpecification>,
    among: Option<&Vec<FArgument>>,
    scope: &String,
    found: &mut Vec<Diagnostic>,
)
    ensures
        final(found).deep_view() == old(found).deep_view() + spec_check_fd_arguments(
            items.deep_view(), spec.deep_view(), among.deep_view(), scope@,
        ),
{
    let ghost all = items.deep_view();
    let ghost start = found.deep_view();
    let mut i: usize = 0;
    assert(start + Seq::<DiagnosticView>::empty() =~= start);
    assert(all.take(0) =~= Seq::<FdArgumentView>::empty());
    while i < items.len()
        invariant
            i <= items.len(),
            all == items.deep_view(),
            found.deep_view() == start + spec_check_fd_arguments(
                all.take(i as int),
                spec.deep_view(),
                among.deep_view(),
                scope@,
            ),
        decreases items.len() - i,
    {
        proof {
            assert(all.take(i + 1).drop_last() =~= all.take(i as int));
            assert(all[i as int] == items[i as int].deep_view());
        }
        let ghost earlier = spec_check_fd_arguments(
            all.take(i as int),
            spec.deep_view(),
            among.deep_view(),
            scope@,
        );
        let ghost one = spec_check_fd_argument(
            all[i as int],
            spec.deep_view(),
            among.deep_view(),
            scope@,
        );
        check_fd_argument(&items[i], spec, among, scope, found);
        assert((start + earlier) + one =~= start + (earlier + one));
        i += 1;
    }
    assert(all.take(items.len() as int) =~= all);
}

/// What is found in the deployments of the arguments of one direction,
/// where there are any.
pub open spec fn spec_check_fd_argument_list(
    list: Option<FdArgumentListView>,
    spec: Option<FdSpecificationView>,
    among: Option<Seq<FArgumentView>>,
    scope: Seq<char>,
) -> Seq<DiagnosticView> {
    match list {
        Some(list) => spec_check_fd_arguments(list.arguments, spec, among, scope),
        None => Seq::empty(),
    }
}

/// Checks the deployments of the arguments of one direction.
pub fn check_fd_argument_list(
    list: &Option<FdArgumentList>,
    spec: Option<&FdSpecification>,
    among: Option<&Vec<FArgument>>,
    scope: &String,
    found: &mut Vec<Diagnostic>,
)
    ensures
        final(found).deep_view() == old(found).deep_view() + spec_check_fd_argument_list(
            list.deep_view(),
            spec.deep_view(),
            among.deep_view(),
            scope@,
        ),
{
    assert(found.deep_view() + Seq::<DiagnosticView>::empty() =~= found.deep_view());
    match list {
        Some(list) => {
            check_fd_arguments(&list.arguments, spec, among, scope, found);
        },
        None => {},
    }
}

/// What is found in the deployment of an attribute: what is found of its
/// target among the attributes `among`, in its properties, and in the
/// refinement of its type.
pub open spec fn spec_check_fd_attribute(
    d: FdAttributeView,
    spec: Option<FdSpecificationView>,
    among: Option<Seq<FAttributeView>>,
    scope: Seq<char>,
) -> Seq<DiagnosticView> {
    spec_check_target::<FAttribute>(d.target, among, scope) + spec_check_property_set(
        d.properties,
        spec,
    ) + spec_check_overwrites(d.overwrites, spec, d.target)
}

/// Checks the deployment of an attribute.
pub fn check_fd_attribute(
    d: &FdAttribute,
    spec: Option<&FdSpecification>,
    among: Option<&Vec<FAttribute>>,
    scope: &String,
    found: &mut Vec<Diagnostic>,
)
    ensures
        final(found).deep_view() == old(found).deep_view() + spec_check_fd_attribute(
            d.deep_view(),
            spec.deep_view(),
            among.deep_view(),
            scope@,
        ),
{
    let ghost start = found.deep_view();
    let _ = check_target(&d.target, among, scope, found);
    check_property_set(&d.properties, spec, found);
    check_overwrites(&d.overwrites, spec, &d.target, found);
    assert(found.deep_view() =~= start + spec_check_fd_attribute(
        d.deep_view(),
        spec.deep_view(),
        among.deep_view(),
        scope@,
    ));
}

/// What is found in deployments of attributes, one after the other.
pub open spec fn spec_check_fd_attributes(
    items: Seq<FdAttributeView>,
    spec: Option<FdSpecificationView>,
    among: Option<Seq<FAttributeView>>,
    scope: Seq<char>,
) -> Seq<DiagnosticView>
    decreases items.len(),
{
    if items.len() == 0 {
        Seq::empty()
    } else {
        spec_check_fd_attributes(items.drop_last(), spec, among, scope) + spec_check_fd_attribute(
            items.last(), spec, among, scope,
        )
    }
}

/// Checks deployments of attributes, one after the other, and reports behind the reports in
/// `found`.
pub fn check_fd_attributes(
    items: &Vec<FdAttribute>,
    spec: Option<&FdSpecification>,
    among: Option<&Vec<FAttribute>>,
    scope: &String,
    found: &mut Vec<Diagnostic>,
)
    ensures
        final(found).deep_view() == old(found).deep_view() + spec_check_fd_attributes(
            items.deep_view(), spec.deep_view(), among.deep_view(), scope@,
        ),
{
    let ghost all = items.deep_view();
    let ghost start = found.deep_view();
    let mut i: usize = 0;
    assert(start + Seq::<DiagnosticView>::empty() =~= start);
    assert(all.take(0) =~= Seq::<FdAttributeView>::empty());
    while i < items.len()
        invariant
            i <= items.len(),
            all == items.deep_view(),
            found.deep_view() == start + spec_check_fd_attributes(
                all.take(i as int),
                spec.deep_view(),
                among.deep_view(),
                scope@,
            ),
        decreases items.len() - i,
    {
        proof {
            assert(all.take(i + 1).drop_last() =~= all.take(i as int));
            assert(all[i as int] == items[i as int].deep_view());
        }
        let ghost earlier = spec_check_fd_attributes(
            all.take(i as int),
            spec.deep_view(),
            among.deep_view(),
            scope@,
        );
        let ghost one = spec_check_fd_attribute(
            all[i as int],
            spec.deep_view(),
            among.deep_view(),
            scope@,
        );
        check_fd_attribute(&items[i], spec, among, scope, found);
        assert((start + earlier) + one =~= start + (earlier + one));
        i += 1;
    }
    assert(all.take(items.len() as int) =~= all);
}

/// The arguments that a method takes, where the method is known.
pub open spec fn spec_in_args(m: Option<FMethodView>) -> Option<Seq<FArgumentView>> {
    match m {
        Some(m) => Some(m.in_args),
        None => None,
    }
}

/// The arguments that a method gives, where the method is known.
pub open spec fn spec_out_args(m: Option<FMethodView>) -> Option<Seq<FArgumentView>> {
    match m {
        Some(m) => Some(m.out_args),
        None => None,
    }
}

/// What is found in the deployment of a method: what is found of its
/// target among the methods `among`, in its properties, and in the
/// deployments of its arguments, whose targets are looked up among the
/// arguments of the method that was found.
pub open spec fn spec_check_fd_method(
    d: FdMethodView,
    spec: Option<FdSpecificationView>,
    among: Option<Seq<FMethodView>>,
    scope: Seq<char>,
) -> Seq<DiagnosticView> {
    let method = spec_target::<FMethod>(d.target, among);
    spec_check_target::<FMethod>(d.target, among, scope) + spec_check_property_set(
        d.properties,
        spec,
    ) + spec_check_fd_argument_list(d.in_args, spec, spec_in_args(method), d.target)
        + spec_check_fd_argument_list(d.out_args, spec, spec_out_args(method), d.target)
}

/// Checks the deployment of a method.
pub fn check_fd_method(
    d: &FdMethod,
    spec: Option<&FdSpecification>,
    among: Option<&Vec<FMethod>>,
    scope: &String,
    found: &mut Vec<Diagnostic>,
)
    ensures
        final(found).deep_view() == old(found).deep_view() + spec_check_fd_method(
            d.deep_view(),
            spec.deep_view(),
            among.deep_view(),
            scope@,
        ),
{
    let ghost start = found.deep_view();
    let method = check_target(&d.target, among, scope, found);
    check_property_set(&d.properties, spec, found);
    let (in_args, out_args) = match method {
        Some(m) => (Some(&m.in_args), Some(&m.out_args)),
        None => (None, None),
    };
    check_fd_argument_list(&d.in_args, spec, in_args, &d.target, found);
    check_fd_argument_list(&d.out_args, spec, out_args, &d.target, found);
    assert(found.deep_view() =~= start + spec_check_fd_method(
        d.deep_view(),
        spec.deep_view(),
        among.deep_view(),
        scope@,
    ));
}

/// What is found in deployments of methods, one after the other.
pub open spec fn spec_check_fd_methods(
    items: Seq<FdMethodView>,
    spec: Option<FdSpecificationView>,
    among: Option<Seq<FMethodView>>,
    scope: Seq<char>,
) -> Seq<DiagnosticView>
    decreases items.len(),
{
    if items.len() == 0 {
        Seq::empty()
    } else {
        spec_check_fd_methods(items.drop_last(), spec, among, scope) + spec_check_fd_method(
            items.last(), spec, among, scope,
        )
    }
}

/// Checks deployments of methods, one after the other, and reports behind the reports in
/// `found`.
pub fn check_fd_methods(
    items: &Vec<FdMethod>,
    spec: Option<&FdSpecification>,
    among: Option<&Vec<FMethod>>,
    scope: &String,
    found: &mut Vec<Diagnostic>,
)
    ensures
        final(found).deep_view() == old(found).deep_view() + spec_check_fd_methods(
            items.deep_view(), spec.deep_view(), among.deep_view(), scope@,
        ),
{
    let ghost all = items.deep_view();
    let ghost start = found.deep_view();
    let mut i: usize = 0;
    assert(start + Seq::<DiagnosticView>::empty() =~= start);
    assert(all.take(0) =~= Seq::<FdMethodView>::empty());
    while i < items.len()
        invariant
            i <= items.len(),
            all == items.deep_view(),
            found.deep_view() == start + spec_check_fd_methods(
                all.take(i as int),
                spec.deep_view(),
                among.deep_view(),
                scope@,
            ),
        decreases items.len() - i,
    {
        proof {
            assert(all.take(i + 1).drop_last() =~= all.take(i as int));
            assert(all[i as int] == items[i as int].deep_view());
        }
        let ghost earlier = spec_check_fd_methods(
            all.take(i as int),
            spec.deep_view(),
            among.deep_view(),
            scope@,
        );
        let ghost one = spec_check_fd_method(
            all[i as int],
            spec.deep_view(),
            among.deep_view(),
            scope@,
        );
        check_fd_method(&items[i], spec, among, scope, found);
        assert((start + earlier) + one =~= start + (earlier + one));
        i += 1;
    }
    assert(all.take(items.len() as int) =~= all);
}

/// The arguments that a broadcast gives, where the broadcast is known.
pub open spec fn spec_broadcast_args(b: Option<FBroadcastView>) -> Option<Seq<FArgumentView>> {
    match b {
        Some(b) => Some(b.out_args),
        None => None,
    }
}

/// What is found in the deployment of a broadcast: what is found of its
/// target among the broadcasts `among`, in its properties, and in the
/// deployments of its arguments.
pub open spec fn spec_check_fd_broadcast(
    d: FdBroadcastView,
    spec: Option<FdSpecificationView>,
    among: Option<Seq<FBroadcastView>>,
    scope: Seq<char>,
) -> Seq<DiagnosticView> {
    let broadcast = spec_target::<FBroadcast>(d.target, among);
    spec_check_target::<FBroadcast>(d.target, among, scope) + spec_check_property_set(
        d.properties,
        spec,
    ) + spec_check_fd_argument_list(d.out_args, spec, spec_broadcast_args(broadcast), d.target)
}

/// Checks the deployment of a broadcast.
pub fn check_fd_broadcast(
    d: &FdBroadcast,
    spec: Option<&FdSpecification>,
    among: Option<&Vec<FBroadcast>>,
    scope: &String,
    found: &mut Vec<Diagnostic>,
)
    ensures
        final(found).deep_view() == old(found).deep_view() + spec_check_fd_broadcast(
            d.deep_view(),
            spec.deep_view(),
            among.deep_view(),
            scope@,
        ),
{
    let ghost start = found.deep_view();
    let broadcast = check_target(&d.target, among, scope, found);
    check_property_set(&d.properties, spec, found);
    let out_args = match broadcast {
        Some(b) => Some(&b.out_args),
        None => None,
    };
    check_fd_argument_list(&d.out_args, spec, out_args, &d.target, found);
    assert(found.deep_view() =~= start + spec_check_fd_broadcast(
        d.deep_view(),
        spec.deep_view(),
        among.deep_view(),
        scope@,
    ));
}

/// What is found in deployments of broadcasts, one after the other.
pub open spec fn spec_check_fd_broadcasts(
    items: Seq<FdBroadcastView>,
    spec: Option<FdSpecificationView>,
    among: Option<Seq<FBroadcastView>>,
    scope: Seq<char>,
) -> Seq<DiagnosticView>
    decreases items.len(),
{
    if items.len() == 0 {
        Seq::empty()
    } else {
        spec_check_fd_broadcasts(items.drop_last(), spec, among, scope) + spec_check_fd_broadcast(
            items.last(), spec, among, scope,
        )
    }
}

/// Checks deployments of broadcasts, one after the other, and reports behind the reports in
/// `found`.
pub fn check_fd_broadcasts(
    items: &Vec<FdBroadcast>,
    spec: Option<&FdSpecification>,
    among: Option<&Vec<FBroadcast>>,
    scope: &String,
    found: &mut Vec<Diagnostic>,
)
    ensures
        final(found).deep_view() == old(found).deep_view() + spec_check_fd_broadcasts(
            items.deep_view(), spec.deep_view(), among.deep_view(), scope@,
        ),
{
    let ghost all = items.deep_view();
    let ghost start = found.deep_view();
    let mut i: usize = 0;
    assert(start + Seq::<DiagnosticView>::empty() =~= start);
    assert(all.take(0) =~= Seq::<FdBroadcastView>::empty());
    while i < items.len()
        invariant
            i <= items.len(),
            all == items.deep_view(),
            found.deep_view() == start + spec_check_fd_broadcasts(
                all.take(i as int),
                spec.deep_view(),
                among.deep_view(),
                scope@,
            ),
        decreases items.len() - i,
    {
        proof {
            assert(all.take(i + 1).drop_last() =~= all.take(i as int));
            assert(all[i as int] == items[i as int].deep_view());
        }
        let ghost earlier = spec_check_fd_broadcasts(
            all.take(i as int),
            spec.deep_view(),
            among.deep_view(),
            scope@,
        );
        let ghost one = spec_check_fd_broadcast(
            all[i as int],
            spec.deep_view(),
            among.deep_view(),
            scope@,
        );
        check_fd_broadcast(&items[i], spec, among, scope, found);
        assert((start + earlier) + one =~= start + (earlier + one));
        i += 1;
    }
    assert(all.take(items.len() as int) =~= all);
}

/// The kinds and names of the type definitions `types`, in their order.
pub open spec fn spec_type_keys(types: Seq<FTypeView>) -> Seq<(TypeKind, Seq<char>)> {
    types.map_values(|t: FTypeView| (spec_entry(t).kind, spec_entry(t).name))
}

/// The type definition of the kind `kind` among `among` that `target`
/// names: the first one of that kind with that name.
pub open spec fn spec_type_target(
    kind: TypeKind,
    target: Seq<char>,
    among: Option<Seq<FTypeView>>,
) -> Option<FTypeView> {
    match among {
        None => None,
        Some(types) => match first_occurrence(spec_type_keys(types), (kind, target)) {
            Some(i) => Some(types[i as int]),
            None => None,
        },
    }
}

/// The kind of a type definition.
pub fn kind_of_type(t: &FType) -> (k: TypeKind)
    ensures
        k == spec_entry(t.deep_view()).kind,
{
    match t {
        FType::StructType(_) => TypeKind::StructType,
        FType::UnionType(_) => TypeKind::UnionType,
        FType::EnumerationType(_) => TypeKind::EnumerationType,
        FType::ArrayType(_) => TypeKind::ArrayType,
        FType::MapType(_) => TypeKind::MapType,
        FType::TypeDef(_) => TypeKind::TypeDef,
    }
}

/// What is found of the target of the deployment of a type definition in
/// `scope`: that it is unknown, where the type definitions that it could
/// name are known and none of them is of its kind and has its name.
pub open spec fn spec_check_type_target(
    kind: TypeKind,
    target: Seq<char>,
    among: Option<Seq<FTypeView>>,
    scope: Seq<char>,
) -> Seq<DiagnosticView> {
    match among {
        None => Seq::empty(),
        Some(types) => if first_occurrence(spec_type_keys(types), (kind, target)) is Some {
            Seq::empty()
        } else {
            seq![DiagnosticView::UnknownTypeReference { name: target, scope }]
        },
    }
}

/// Checks the target of the deployment of a type definition and finds the
/// type definition that it names.
pub fn check_type_target<'a>(
    kind: TypeKind,
    target: &String,
    among: Option<&'a Vec<FType>>,
    scope: &String,
    found: &mut Vec<Diagnostic>,
) -> (r: Option<&'a FType>)
    ensures
        r.deep_view() == spec_type_target(kind, target@, among.deep_view()),
        final(found).deep_view() == old(found).deep_view() + spec_check_type_target(
            kind,
            target@,
            among.deep_view(),
            scope@,
        ),
{
    let ghost before = found.deep_view();
    assert(before + Seq::<DiagnosticView>::empty() =~= before);
    let types = match among {
        None => { return None; },
        Some(types) => types,
    };
    let ghost keys = spec_type_keys(types.deep_view());
    let mut i: usize = 0;
    assert(keys.take(0) =~= Seq::<(TypeKind, Seq<char>)>::empty());
    while i < types.len()
        invariant
            i <= types.len(),
            among == Some(types),
            keys == spec_type_keys(types.deep_view()),
            first_occurrence(keys.take(i as int), (kind, target@)) is None,
            found.deep_view() == before,
        decreases types.len() - i,
    {
        proof {
            assert(keys.take(i + 1).drop_last() =~= keys.take(i as int));
            assert(types.deep_view()[i as int] == types[i as int].deep_view());
            assert(keys[i as int] == (
                spec_entry(types.deep_view()[i as int]).kind,
                spec_entry(types.deep_view()[i as int]).name,
            ));
        }
        if same_kind(kind_of_type(&types[i]), kind) && *types[i].name() == *target {
            proof {
                lemma_found_stays_found(keys, i as int, types.len() as int, (kind, target@));
                assert(keys.take(types.len() as int) =~= keys);
            }
            return Some(&types[i]);
        }
        i += 1;
    }
    assert(keys.take(types.len() as int) =~= keys);
    let d = Diagnostic::UnknownTypeReference { name: target.clone(), scope: scope.clone() };
    found.push(d);
    assert(found.deep_view() =~= before + seq![d.deep_view()]);
    None
}

/// The fields of a struct or of a union, where the type definition is
/// known and is one.
pub open spec fn spec_fields_of(t: Option<FTypeView>) -> Option<Seq<FFieldView>> {
    match t {
        Some(FTypeView::StructType(x)) => Some(x.elements),
        Some(FTypeView::UnionType(x)) => Some(x.elements),
        _ => None,
    }
}

/// The enumerators of an enumeration, where the type definition is known
/// and is one.
pub open spec fn spec_enumerators_of(t: Option<FTypeView>) -> Option<Seq<FEnumeratorView>> {
    match t {
        Some(FTypeView::EnumerationType(x)) => Some(x.enumerators),
        _ => None,
    }
}

/// The fields of a struct or of a union, where the type definition is
/// known and is one.
pub fn fields_of<'a>(t: Option<&'a FType>) -> (r: Option<&'a Vec<FField>>)
    ensures
        r.deep_view() == spec_fields_of(t.deep_view()),
{
    match t {
        Some(FType::StructType(x)) => Some(&x.elements),
        Some(FType::UnionType(x)) => Some(&x.elements),
        _ => None,
    }
}

/// The enumerators of an enumeration, where the type definition is known
/// and is one.
pub fn enumerators_of<'a>(t: Option<&'a FType>) -> (r: Option<&'a Vec<FEnumerator>>)
    ensures
        r.deep_view() == spec_enumerators_of(t.deep_view()),
{
    match t {
        Some(FType::EnumerationType(x)) => Some(&x.enumerators),
        _ => None,
    }
}


/// What is found in the deployment of a named array: what is found of its target
/// among the type definitions `among`, in its properties, and in what it
/// holds besides.
pub open spec fn spec_check_fd_array(
    x: FdArrayView,
    spec: Option<FdSpecificationView>,
    among: Option<Seq<FTypeView>>,
    scope: Seq<char>,
) -> Seq<DiagnosticView> {
    spec_check_type_target(TypeKind::ArrayType, x.target, among, scope) + spec_check_property_set(
        x.properties,
        spec,
    ) + spec_check_overwrites(x.overwrites, spec, x.target)
}

/// Checks the deployment of a named array.
pub fn check_fd_array(
    x: &FdArray,
    spec: Option<&FdSpecification>,
    among: Option<&Vec<FType>>,
    scope: &String,
    found: &mut Vec<Diagnostic>,
)
    ensures
        final(found).deep_view() == old(found).deep_view() + spec_check_fd_array(
            x.deep_view(),
            spec.deep_view(),
            among.deep_view(),
            scope@,
        ),
{
    let ghost start = found.deep_view();
    let _ = check_type_target(TypeKind::ArrayType, &x.target, among, scope, found);
    let ghost a = spec_check_type_target(TypeKind::ArrayType, x.target@, among.deep_view(), scope@);
    check_property_set(&x.properties, spec, found);
    let ghost b = spec_check_property_set(x.properties.deep_view(), spec.deep_view());
    assert(found.deep_view() =~= start + (a + b));
    check_overwrites(&x.overwrites, spec, &x.target, found);
    let ghost c = spec_check_overwrites(x.overwrites.deep_view(), spec.deep_view(), x.target@);
    assert(found.deep_view() =~= start + (a + b + c));
}

/// What is found in the deployment of a struct: what is found of its target
/// among the type definitions `among`, in its properties, and in what it
/// holds besides.
pub open spec fn spec_check_fd_struct(
    x: FdStructView,
    spec: Option<FdSpecificationView>,
    among: Option<Seq<FTypeView>>,
    scope: Seq<char>,
) -> Seq<DiagnosticView> {
    spec_check_type_target(TypeKind::StructType, x.target, among, scope) + spec_check_property_set(
        x.properties,
        spec,
    ) + spec_check_fd_fields(
        x.fields,
        spec,
        spec_fields_of(spec_type_target(TypeKind::StructType, x.target, among)),
        x.target,
    )
}

/// Checks the deployment of a struct.
pub fn check_fd_struct(
    x: &FdStruct,
    spec: Option<&FdSpecification>,
    among: Option<&Vec<FType>>,
    scope: &String,
    found: &mut Vec<Diagnostic>,
)
    ensures
        final(found).deep_view() == old(found).deep_view() + spec_check_fd_struct(
            x.deep_view(),
            spec.deep_view(),
            among.deep_view(),
            scope@,
        ),
{
    let ghost start = found.deep_view();
    let t = check_type_target(TypeKind::StructType, &x.target, among, scope, found);
    let ghost a = spec_check_type_target(
        TypeKind::StructType,
        x.target@,
        among.deep_view(),
        scope@,
    );
    check_property_set(&x.properties, spec, found);
    let ghost b = spec_check_property_set(x.properties.deep_view(), spec.deep_view());
    assert(found.deep_view() =~= start + (a + b));
    check_fd_fields(&x.fields, spec, fields_of(t), &x.target, found);
    let ghost c = spec_check_fd_fields(
        x.fields.deep_view(),
        spec.deep_view(),
        spec_fields_of(t.deep_view()),
        x.target@,
    );
    assert(found.deep_view() =~= start + (a + b + c));
}

/// What is found in the deployment of a union: what is found of its target
/// among the type definitions `among`, in its properties, and in what it
/// holds besides.
pub open spec fn spec_check_fd_union(
    x: FdUnionView,
    spec: Option<FdSpecificationView>,
    among: Option<Seq<FTypeView>>,
    scope: Seq<char>,
) -> Seq<DiagnosticView> {
    spec_check_type_target(TypeKind::UnionType, x.target, among, scope) + spec_check_property_set(
        x.properties,
        spec,
    ) + spec_check_fd_fields(
        x.fields,
        spec,
        spec_fields_of(spec_type_target(TypeKind::UnionType, x.target, among)),
        x.target,
    )
}

/// Checks the deployment of a union.
pub fn check_fd_union(
    x: &FdUnion,
    spec: Option<&FdSpecification>,
    among: Option<&Vec<FType>>,
    scope: &String,
    found: &mut Vec<Diagnostic>,
)
    ensures
        final(found).deep_view() == old(found).deep_view() + spec_check_fd_union(
            x.deep_view(),
            spec.deep_view(),
            among.deep_view(),
            scope@,
        ),
{
    let ghost start = found.deep_view();
    let t = check_type_target(TypeKind::UnionType, &x.target, among, scope, found);
    let ghost a = spec_check_type_target(TypeKind::UnionType, x.target@, among.deep_view(), scope@);
    check_property_set(&x.properties, spec, found);
    let ghost b = spec_check_property_set(x.properties.deep_view(), spec.deep_view());
    assert(found.deep_view() =~= start + (a + b));
    check_fd_fields(&x.fields, spec, fields_of(t), &x.target, found);
    let ghost c = spec_check_fd_fields(
        x.fields.deep_view(),
        spec.deep_view(),
        spec_fields_of(t.deep_view()),
        x.target@,
    );
    assert(found.deep_view() =~= start + (a + b + c));
}

/// What is found in the deployment of an enumeration: what is found of its target
/// among the type definitions `among`, in its properties, and in what it
/// holds besides.
pub open spec fn spec_check_fd_enumeration(
    x: FdEnumerationView,
    spec: Option<FdSpecificationView>,
    among: Option<Seq<FTypeView>>,
    scope: Seq<char>,
) -> Seq<DiagnosticView> {
    spec_check_type_target(TypeKind::EnumerationType, x.target, among, scope)
        + spec_check_property_set(x.properties, spec) + spec_check_fd_enum_values(
        x.enumerators,
        spec,
        spec_enumerators_of(spec_type_target(TypeKind::EnumerationType, x.target, among)),
        x.target,
    )
}

/// Checks the deployment of an enumeration.
pub fn check_fd_enumeration(
    x: &FdEnumeration,
    spec: Option<&FdSpecification>,
    among: Option<&Vec<FType>>,
    scope: &String,
    found: &mut Vec<Diagnostic>,
)
    ensures
        final(found).deep_view() == old(found).deep_view() + spec_check_fd_enumeration(
            x.deep_view(),
            spec.deep_view(),
            among.deep_view(),
            scope@,
        ),
{
    let ghost start = found.deep_view();
    let t = check_type_target(TypeKind::EnumerationType, &x.target, among, scope, found);
    let ghost a = spec_check_type_target(
        TypeKind::EnumerationType,
        x.target@,
        among.deep_view(),
        scope@,
    );
    check_property_set(&x.properties, spec, found);
    let ghost b = spec_check_property_set(x.properties.deep_view(), spec.deep_view());
    assert(found.deep_view() =~= start + (a + b));
    check_fd_enum_values(&x.enumerators, spec, enumerators_of(t), &x.target, found);
    let ghost c = spec_check_fd_enum_values(
        x.enumerators.deep_view(),
        spec.deep_view(),
        spec_enumerators_of(t.deep_view()),
        x.target@,
    );
    assert(found.deep_view() =~= start + (a + b + c));
}

/// What is found in the deployment of a type alias: what is found of its target
/// among the type definitions `among`, in its properties, and in what it
/// holds besides.
pub open spec fn spec_check_fd_type_def(
    x: FdTypeDefView,
    spec: Option<FdSpecificationView>,
    among: Option<Seq<FTypeView>>,
    scope: Seq<char>,
) -> Seq<DiagnosticView> {
    spec_check_type_target(TypeKind::TypeDef, x.target, among, scope) + spec_check_property_set(
        x.properties,
        spec,
    )
}

/// Checks the deployment of a type alias.
pub fn check_fd_type_def(
    x: &FdTypeDef,
    spec: Option<&FdSpecification>,
    among: Option<&Vec<FType>>,
    scope: &String,
    found: &mut Vec<Diagnostic>,
)
    ensures
        final(found).deep_view() == old(found).deep_view() + spec_check_fd_type_def(
            x.deep_view(),
            spec.deep_view(),
            among.deep_view(),
            scope@,
        ),
{
    let ghost start = found.deep_view();
    let _ = check_type_target(TypeKind::TypeDef, &x.target, among, scope, found);
    let ghost a = spec_check_type_target(TypeKind::TypeDef, x.target@, among.deep_view(), scope@);
    check_property_set(&x.properties, spec, found);
    let ghost b = spec_check_property_set(x.properties.deep_view(), spec.deep_view());
    assert(found.deep_view() =~= start + (a + b));

}

/// The properties of the keys of a map, where it has any.
pub open spec fn spec_key_properties(key: Option<crate::deployment::FdMapKeyView>) -> Option<
    FdPropertySetView,
> {
    match key {
        Some(k) => Some(k.properties),
        None => None,
    }
}

/// The properties of the values of a map, where it has any.
pub open spec fn spec_value_properties(value: Option<crate::deployment::FdMapValueView>) -> Option<
    FdPropertySetView,
> {
    match value {
        Some(v) => Some(v.properties),
        None => None,
    }
}

/// What is found in the deployment of a named map: what is found of its target
/// among the type definitions `among`, in its properties, and in what it
/// holds besides.
pub open spec fn spec_check_fd_map(
    x: FdMapView,
    spec: Option<FdSpecificationView>,
    among: Option<Seq<FTypeView>>,
    scope: Seq<char>,
) -> Seq<DiagnosticView> {
    spec_check_type_target(TypeKind::MapType, x.target, among, scope) + spec_check_property_set(
        x.properties,
        spec,
    ) + spec_check_opt_property_set(spec_key_properties(x.key), spec)
        + spec_check_opt_property_set(spec_value_properties(x.value), spec)
}

/// Checks the deployment of a named map.
pub fn check_fd_map(
    x: &FdMap,
    spec: Option<&FdSpecification>,
    among: Option<&Vec<FType>>,
    scope: &String,
    found: &mut Vec<Diagnostic>,
)
    ensures
        final(found).deep_view() == old(found).deep_view() + spec_check_fd_map(
            x.deep_view(),
            spec.deep_view(),
            among.deep_view(),
            scope@,
        ),
{
    let ghost start = found.deep_view();
    let _ = check_type_target(TypeKind::MapType, &x.target, among, scope, found);
    let ghost a = spec_check_type_target(TypeKind::MapType, x.target@, among.deep_view(), scope@);
    check_property_set(&x.properties, spec, found);
    let ghost b = spec_check_property_set(x.properties.deep_view(), spec.deep_view());
    assert(found.deep_view() =~= start + (a + b));
    let ghost middle = found.deep_view();
    assert(middle + Seq::<DiagnosticView>::empty() =~= middle);
    match &x.key {
        Some(k) => {
            check_property_set(&k.properties, spec, found);
        },
        None => {},
    }
    let ghost c = spec_check_opt_property_set(
        spec_key_properties(x.key.deep_view()),
        spec.deep_view(),
    );
    assert(found.deep_view() =~= start + (a + b + c));
    let ghost late = found.deep_view();
    assert(late + Seq::<DiagnosticView>::empty() =~= late);
    match &x.value {
        Some(v) => {
            check_property_set(&v.properties, spec, found);
        },
        None => {},
    }
    let ghost e = spec_check_opt_property_set(
        spec_value_properties(x.value.deep_view()),
        spec.deep_view(),
    );
    assert(found.deep_view() =~= start + (a + b + c + e));
}

/// What is found in the deployment of a type definition, whatever its
/// kind.
pub open spec fn spec_check_fd_type(
    d: FdTypeDefinitionView,
    spec: Option<FdSpecificationView>,
    among: Option<Seq<FTypeView>>,
    scope: Seq<char>,
) -> Seq<DiagnosticView> {
    match d {
        FdTypeDefinitionView::FdArray(x) => spec_check_fd_array(x, spec, among, scope),
        FdTypeDefinitionView::FdCompound(FdCompoundView::FdStruct(x)) => spec_check_fd_struct(
            x,
            spec,
            among,
            scope,
        ),
        FdTypeDefinitionView::FdCompound(FdCompoundView::FdUnion(x)) => spec_check_fd_union(
            x,
            spec,
            among,
            scope,
        ),
        FdTypeDefinitionView::FdEnumeration(x) => spec_check_fd_enumeration(x, spec, among, scope),
        FdTypeDefinitionView::FdTypeDef(x) => spec_check_fd_type_def(x, spec, among, scope),
        FdTypeDefinitionView::FdMap(x) => spec_check_fd_map(x, spec, among, scope),
    }
}

/// Checks the deployment of a type definition.
pub fn check_fd_type(
    d: &FdTypeDefinition,
    spec: Option<&FdSpecification>,
    among: Option<&Vec<FType>>,
    scope: &String,
    found: &mut Vec<Diagnostic>,
)
    ensures
        final(found).deep_view() == old(found).deep_view() + spec_check_fd_type(
            d.deep_view(),
            spec.deep_view(),
            among.deep_view(),
            scope@,
        ),
{
    match d {
        FdTypeDefinition::FdArray(x) => check_fd_array(x, spec, among, scope, found),
        FdTypeDefinition::FdCompound(FdCompound::FdStruct(x)) => check_fd_struct(
            x,
            spec,
            among,
            scope,
            found,
        ),
        FdTypeDefinition::FdCompound(FdCompound::FdUnion(x)) => check_fd_union(
            x,
            spec,
            among,
            scope,
            found,
        ),
        FdTypeDefinition::FdEnumeration(x) => check_fd_enumeration(x, spec, among, scope, found),
        FdTypeDefinition::FdTypeDef(x) => check_fd_type_def(x, spec, among, scope, found),
        FdTypeDefinition::FdMap(x) => check_fd_map(x, spec, among, scope, found),
    }
}

/// What is found in deployments of type definitions, one after the other.
pub open spec fn spec_check_fd_types(
    items: Seq<FdTypeDefinitionView>,
    spec: Option<FdSpecificationView>,
    among: Option<Seq<FTypeView>>,
    scope: Seq<char>,
) -> Seq<DiagnosticView>
    decreases items.len(),
{
    if items.len() == 0 {
        Seq::empty()
    } else {
        spec_check_fd_types(items.drop_last(), spec, among, scope) + spec_check_fd_type(
            items.last(), spec, among, scope,
        )
    }
}

/// Checks deployments of type definitions, one after the other, and reports behind the reports in
/// `found`.
pub fn check_fd_types(
    items: &Vec<FdTypeDefinition>,
    spec: Option<&FdSpecification>,
    among: Option<&Vec<FType>>,
    scope: &String,
    found: &mut Vec<Diagnostic>,
)
    ensures
        final(found).deep_view() == old(found).deep_view() + spec_check_fd_types(
            items.deep_view(), spec.deep_view(), among.deep_view(), scope@,
        ),
{
    let ghost all = items.deep_view();
    let ghost start = found.deep_view();
    let mut i: usize = 0;
    assert(start + Seq::<DiagnosticView>::empty() =~= start);
    assert(all.take(0) =~= Seq::<FdTypeDefinitionView>::empty());
    while i < items.len()
        invariant
            i <= items.len(),
            all == items.deep_view(),
            found.deep_view() == start + spec_check_fd_types(
                all.take(i as int),
                spec.deep_view(),
                among.deep_view(),
                scope@,
            ),
        decreases items.len() - i,
    {
        proof {
            assert(all.take(i + 1).drop_last() =~= all.take(i as int));
            assert(all[i as int] == items[i as int].deep_view());
        }
        let ghost earlier = spec_check_fd_types(
            all.take(i as int),
            spec.deep_view(),
            among.deep_view(),
            scope@,
        );
        let ghost one = spec_check_fd_type(
            all[i as int],
            spec.deep_view(),
            among.deep_view(),
            scope@,
        );
        check_fd_type(&items[i], spec, among, scope, found);
        assert((start + earlier) + one =~= start + (earlier + one));
        i += 1;
    }
    assert(all.take(items.len() as int) =~= all);
}

/// Whether `target` names the interface `name` of the package `package`:
/// by its name alone, or by the name of the package, `.` and its name.
pub open spec fn spec_names_interface(
    package: Seq<char>,
    name: Seq<char>,
    target: Seq<char>,
) -> bool {
    target == name || target == package + seq!['.'] + name
}

/// The index of the first interface of `interfaces`, which are those of
/// the package `package`, that `target` names, if it names one.
pub open spec fn spec_find_interface(
    interfaces: Seq<FInterfaceView>,
    package: Seq<char>,
    target: Seq<char>,
) -> Option<nat>
    decreases interfaces.len(),
{
    if interfaces.len() == 0 {
        None
    } else {
        match spec_find_interface(interfaces.drop_last(), package, target) {
            Some(i) => Some(i),
            None => if spec_names_interface(package, interfaces.last().name, target) {
                Some((interfaces.len() - 1) as nat)
            } else {
                None
            },
        }
    }
}

/// What `spec_find_interface` finds: an interface that `target` names and
/// in front of which it names none, or nothing where it names none at all.
pub proof fn lemma_find_interface(
    interfaces: Seq<FInterfaceView>,
    package: Seq<char>,
    target: Seq<char>,
)
    ensures
        match spec_find_interface(interfaces, package, target) {
            Some(i) => {
                &&& i < interfaces.len()
                &&& spec_names_interface(package, interfaces[i as int].name, target)
                &&& forall|k: int|
                    0 <= k < i ==> !spec_names_interface(
                        package,
                        (#[trigger] interfaces[k]).name,
                        target,
                    )
            },
            None => forall|k: int|
                0 <= k < interfaces.len() ==> !spec_names_interface(
                    package,
                    (#[trigger] interfaces[k]).name,
                    target,
                ),
        },
    decreases interfaces.len(),
{
    if interfaces.len() > 0 {
        let before = interfaces.drop_last();
        lemma_find_interface(before, package, target);
        assert forall|k: int| 0 <= k < before.len() implies before[k] == interfaces[k] by {}
    }
}

/// Tells whether `target` names the interface `name` of the package
/// `package`.
pub fn names_interface(package: &String, name: &String, target: &String) -> (r: bool)
    ensures
        r == spec_names_interface(package@, name@, target@),
{
    if *target == *name {
        return true;
    }
    let qualified = package.clone().concat(".").concat(name.as_str());
    proof {
        reveal_strlit(".");
        assert("."@ =~= seq!['.']);
    }
    qualified == *target
}

/// Finds the first interface of the model `core` that `target` names.
pub fn find_interface<'a>(core: &'a FModel, target: &String) -> (r: Option<&'a FInterface>)
    ensures
        r.is_some() == spec_find_interface(
            core.deep_view().interfaces,
            core.deep_view().name,
            target@,
        ).is_some(),
        r.is_some() ==> r.unwrap().deep_view() == core.deep_view().interfaces[spec_find_interface(
            core.deep_view().interfaces,
            core.deep_view().name,
            target@,
        ).unwrap() as int],
{
    let ghost all = core.deep_view().interfaces;
    let ghost package = core.deep_view().name;
    let mut i: usize = 0;
    assert(all.take(0) =~= Seq::<FInterfaceView>::empty());
    while i < core.interfaces.len()
        invariant
            i <= core.interfaces.len(),
            all == core.deep_view().interfaces,
            all == core.interfaces.deep_view(),
            package == core.name@,
            spec_find_interface(all.take(i as int), package, target@) is None,
        decreases core.interfaces.len() - i,
    {
        proof {
            assert(all.take(i + 1).drop_last() =~= all.take(i as int));
            assert(all[i as int] == core.interfaces[i as int].deep_view());
        }
        if names_interface(&core.name, &core.interfaces[i].name, target) {
            proof {
                lemma_interface_stays_found(all, package, target@, i as int, all.len() as int);
                assert(all.take(all.len() as int) =~= all);
            }
            return Some(&core.interfaces[i]);
        }
        i += 1;
    }
    assert(all.take(core.interfaces.len() as int) =~= all);
    None
}

/// The interface that is found among the first interfaces is found among
/// all of them.
pub proof fn lemma_interface_stays_found(
    interfaces: Seq<FInterfaceView>,
    package: Seq<char>,
    target: Seq<char>,
    at: int,
    end: int,
)
    requires
        0 <= at < end <= interfaces.len(),
        spec_find_interface(interfaces.take(at + 1), package, target) == Some(at as nat),
    ensures
        spec_find_interface(interfaces.take(end), package, target) == Some(at as nat),
    decreases end - at,
{
    if end > at + 1 {
        lemma_interface_stays_found(interfaces, package, target, at, end - 1);
        assert(interfaces.take(end).drop_last() =~= interfaces.take(end - 1));
    }
}

/// The interface of the model `core` that `target` names, if it names one.
pub open spec fn spec_interface_target(core: FModelView, target: Seq<char>) -> Option<
    FInterfaceView,
> {
    match spec_find_interface(core.interfaces, core.name, target) {
        Some(i) => Some(core.interfaces[i as int]),
        None => None,
    }
}

/// The attributes of an interface, where the interface is known.
pub open spec fn spec_attributes_in(i: Option<FInterfaceView>) -> Option<Seq<FAttributeView>> {
    match i {
        Some(i) => Some(i.attributes),
        None => None,
    }
}

/// The methods of an interface, where the interface is known.
pub open spec fn spec_methods_in(i: Option<FInterfaceView>) -> Option<Seq<FMethodView>> {
    match i {
        Some(i) => Some(i.methods),
        None => None,
    }
}

/// The broadcasts of an interface, where the interface is known.
pub open spec fn spec_broadcasts_in(i: Option<FInterfaceView>) -> Option<Seq<FBroadcastView>> {
    match i {
        Some(i) => Some(i.broadcasts),
        None => None,
    }
}

/// The type definitions of an interface, where the interface is known.
pub open spec fn spec_types_in(i: Option<FInterfaceView>) -> Option<Seq<FTypeView>> {
    match i {
        Some(i) => Some(i.types),
        None => None,
    }
}

/// What is found in the deployment of an interface: in its properties, and
/// in the deployments of attributes, methods, broadcasts and type
/// definitions that it holds, in this order. Properties are checked where
/// the specification is known, and the targets of the elements where the
/// interface is.
pub open spec fn spec_check_fd_interface(
    d: FdInterfaceView,
    spec: Option<FdSpecificationView>,
    interface: Option<FInterfaceView>,
) -> Seq<DiagnosticView> {
    spec_check_property_set(d.properties, spec) + spec_check_fd_attributes(
        d.attributes,
        spec,
        spec_attributes_in(interface),
        d.target,
    ) + spec_check_fd_methods(d.methods, spec, spec_methods_in(interface), d.target)
        + spec_check_fd_broadcasts(d.broadcasts, spec, spec_broadcasts_in(interface), d.target)
        + spec_check_fd_types(d.types, spec, spec_types_in(interface), d.target)
}

/// Checks the deployment of an interface.
pub fn check_fd_interface(
    d: &FdInterface,
    spec: Option<&FdSpecification>,
    interface: Option<&FInterface>,
    found: &mut Vec<Diagnostic>,
)
    ensures
        final(found).deep_view() == old(found).deep_view() + spec_check_fd_interface(
            d.deep_view(),
            spec.deep_view(),
            interface.deep_view(),
        ),
{
    let ghost start = found.deep_view();
    let ghost v = d.deep_view();
    let ghost i = interface.deep_view();
    let (attributes, methods, broadcasts, types) = match interface {
        Some(i) => (Some(&i.attributes), Some(&i.methods), Some(&i.broadcasts), Some(&i.types)),
        None => (None, None, None, None),
    };
    check_property_set(&d.properties, spec, found);
    let ghost a = spec_check_property_set(v.properties, spec.deep_view());
    check_fd_attributes(&d.attributes, spec, attributes, &d.target, found);
    let ghost b = spec_check_fd_attributes(
        v.attributes,
        spec.deep_view(),
        spec_attributes_in(i),
        v.target,
    );
    assert(found.deep_view() =~= start + (a + b));
    check_fd_methods(&d.methods, spec, methods, &d.target, found);
    let ghost c = spec_check_fd_methods(v.methods, spec.deep_view(), spec_methods_in(i), v.target);
    assert(found.deep_view() =~= start + (a + b + c));
    check_fd_broadcasts(&d.broadcasts, spec, broadcasts, &d.target, found);
    let ghost e = spec_check_fd_broadcasts(
        v.broadcasts,
        spec.deep_view(),
        spec_broadcasts_in(i),
        v.target,
    );
    assert(found.deep_view() =~= start + (a + b + c + e));
    check_fd_types(&d.types, spec, types, &d.target, found);
    let ghost f = spec_check_fd_types(v.types, spec.deep_view(), spec_types_in(i), v.target);
    assert(found.deep_view() =~= start + (a + b + c + e + f));
}

/// What is found of the target of the deployment of an interface in
/// `scope`: that it is unknown, where no interface was found for it.
pub open spec fn spec_check_interface_target(
    target: Seq<char>,
    interface: Option<FInterfaceView>,
    scope: Seq<char>,
) -> Seq<DiagnosticView> {
    match interface {
        Some(_) => Seq::empty(),
        None => seq![DiagnosticView::UnknownTypeReference { name: target, scope }],
    }
}

/// What is found in a deployment at the top level of the deployment model
/// `dep`, laid over the core model `core`: that its specification is
/// unknown, where `dep` declares none with that name; that its target is
/// unknown, where `core` declares no interface that it names; what is
/// found in the deployment of the interface; and what is found in the
/// extension elements, whose properties are checked where the
/// specification is known.
pub open spec fn spec_check_root(
    root: FdRootElementView,
    dep: FdModelView,
    core: FModelView,
) -> Seq<DiagnosticView> {
    let spec = spec_target::<FdSpecification>(root.spec, Some(dep.specifications));
    let interface = spec_interface_target(core, root.interface.target);
    spec_check_target::<FdSpecification>(root.spec, Some(dep.specifications), dep.name)
        + spec_check_interface_target(root.interface.target, interface, dep.name)
        + spec_check_fd_interface(root.interface, spec, interface) + spec_check_extensions(
        root.extensions,
        spec,
    )
}

/// A deployment whose target names no interface of the core model is
/// reported: what is found in it holds the report that the target is
/// unknown.
pub proof fn law_unresolved_target_is_reported(
    root: FdRootElementView,
    dep: FdModelView,
    core: FModelView,
)
    requires
        forall|i: int|
            0 <= i < core.interfaces.len() ==> !spec_names_interface(
                core.name,
                (#[trigger] core.interfaces[i]).name,
                root.interface.target,
            ),
    ensures
        spec_check_root(root, dep, core).contains(
            DiagnosticView::UnknownTypeReference { name: root.interface.target, scope: dep.name },
        ),
{
    lemma_find_interface(core.interfaces, core.name, root.interface.target);
    let a = spec_check_target::<FdSpecification>(root.spec, Some(dep.specifications), dep.name);
    let report = DiagnosticView::UnknownTypeReference {
        name: root.interface.target,
        scope: dep.name,
    };
    let all = spec_check_root(root, dep, core);
    assert(all[a.len() as int] == report);
}

/// Checks a deployment at the top level of the deployment model `dep`,
/// laid over the core model `core`.
pub fn check_root(
    root: &FdRootElement,
    dep: &FdModel,
    core: &FModel,
    found: &mut Vec<Diagnostic>,
)
    ensures
        final(found).deep_view() == old(found).deep_view() + spec_check_root(
            root.deep_view(),
            dep.deep_view(),
            core.deep_view(),
        ),
{
    let ghost start = found.deep_view();
    let d = &root.interface;
    let spec = check_target(&root.spec, Some(&dep.specifications), &dep.name, found);
    let ghost a = spec_check_target::<FdSpecification>(
        root.spec@,
        Some(dep.deep_view().specifications),
        dep.name@,
    );
    let interface = find_interface(core, &d.target);
    let ghost middle = found.deep_view();
    assert(middle + Seq::<DiagnosticView>::empty() =~= middle);
    if interface.is_none() {
        let report = Diagnostic::UnknownTypeReference {
            name: d.target.clone(),
            scope: dep.name.clone(),
        };
        found.push(report);
        assert(found.deep_view() =~= middle + seq![report.deep_view()]);
    }
    let ghost b = spec_check_interface_target(d.target@, interface.deep_view(), dep.name@);
    assert(found.deep_view() =~= start + (a + b));
    check_fd_interface(d, spec, interface, found);
    let ghost c = spec_check_fd_interface(d.deep_view(), spec.deep_view(), interface.deep_view());
    assert(found.deep_view() =~= start + (a + b + c));
    check_extensions(&root.extensions, spec, found);
    let ghost e = spec_check_extensions(root.extensions.deep_view(), spec.deep_view());
    assert(found.deep_view() =~= start + (a + b + c + e));
}

/// What is found in the declaration of a property: that its default is
/// invalid, where it names one that is not of the kind that it asks for.
pub open spec fn spec_check_declaration(d: FdPropertyDeclView) -> Seq<DiagnosticView> {
    match d.default {
        Some(v) => if spec_kind_of(v) == d.kind {
            Seq::empty()
        } else {
            seq![
                DiagnosticView::InvalidPropertyValue {
                    property: d.name,
                    expected_kind: d.kind,
                    found_kind: spec_kind_of(v),
                },
            ]
        },
        None => Seq::empty(),
    }
}

/// Checks the declaration of a property.
pub fn check_declaration(d: &FdPropertyDecl, found: &mut Vec<Diagnostic>)
    ensures
        final(found).deep_view() == old(found).deep_view() + spec_check_declaration(
            d.deep_view(),
        ),
{
    let ghost before = found.deep_view();
    assert(before + Seq::<DiagnosticView>::empty() =~= before);
    match &d.default {
        Some(v) => {
            let kind = kind_of(v);
            if !same_value_kind(kind, d.kind) {
                let report = Diagnostic::InvalidPropertyValue {
                    property: d.name.clone(),
                    expected_kind: d.kind,
                    found_kind: kind,
                };
                found.push(report);
                assert(found.deep_view() =~= before + seq![report.deep_view()]);
            }
        },
        None => {},
    }
}

/// What is found in declarations of properties, one after the other.
pub open spec fn spec_check_declarations(items: Seq<FdPropertyDeclView>) -> Seq<DiagnosticView>
    decreases items.len(),
{
    if items.len() == 0 {
        Seq::empty()
    } else {
        spec_check_declarations(items.drop_last()) + spec_check_declaration(items.last())
    }
}

/// Checks declarations of properties, one after the other, and reports behind the reports in
/// `found`.
pub fn check_declarations(items: &Vec<FdPropertyDecl>, found: &mut Vec<Diagnostic>)
    ensures
        final(found).deep_view() == old(found).deep_view() + spec_check_declarations(
            items.deep_view(),
        ),
{
    let ghost all = items.deep_view();
    let ghost start = found.deep_view();
    let mut i: usize = 0;
    assert(start + Seq::<DiagnosticView>::empty() =~= start);
    assert(all.take(0) =~= Seq::<FdPropertyDeclView>::empty());
    while i < items.len()
        invariant
            i <= items.len(),
            all == items.deep_view(),
            found.deep_view() == start + spec_check_declarations(all.take(i as int)),
        decreases items.len() - i,
    {
        proof {
            assert(all.take(i + 1).drop_last() =~= all.take(i as int));
            assert(all[i as int] == items[i as int].deep_view());
        }
        let ghost earlier = spec_check_declarations(all.take(i as int));
        let ghost one = spec_check_declaration(all[i as int]);
        check_declaration(&items[i], found);
        assert((start + earlier) + one =~= start + (earlier + one));
        i += 1;
    }
    assert(all.take(items.len() as int) =~= all);
}

/// What is found in a specification: the declarations that repeat a name,
/// and what is found in each declaration.
pub open spec fn spec_check_specification(sp: FdSpecificationView) -> Seq<DiagnosticView> {
    spec_duplicates(
        names_of::<FdPropertyDecl>(sp.declarations),
        names_of::<FdPropertyDecl>(sp.declarations),
        sp.name,
    ) + spec_check_declarations(sp.declarations)
}

/// Checks a specification.
pub fn check_specification(sp: &FdSpecification, found: &mut Vec<Diagnostic>)
    ensures
        final(found).deep_view() == old(found).deep_view() + spec_check_specification(
            sp.deep_view(),
        ),
{
    let ghost start = found.deep_view();
    duplicates(&sp.declarations, &sp.name, found);
    let ghost a = spec_duplicates(
        names_of::<FdPropertyDecl>(sp.declarations.deep_view()),
        names_of::<FdPropertyDecl>(sp.declarations.deep_view()),
        sp.name@,
    );
    check_declarations(&sp.declarations, found);
    let ghost b = spec_check_declarations(sp.declarations.deep_view());
    assert((start + a) + b =~= start + (a + b));
}

/// What is found in specifications, one after the other.
pub open spec fn spec_check_specifications(items: Seq<FdSpecificationView>) -> Seq<DiagnosticView>
    decreases items.len(),
{
    if items.len() == 0 {
        Seq::empty()
    } else {
        spec_check_specifications(items.drop_last()) + spec_check_specification(items.last())
    }
}

/// Checks specifications, one after the other, and reports behind the reports in
/// `found`.
pub fn check_specifications(items: &Vec<FdSpecification>, found: &mut Vec<Diagnostic>)
    ensures
        final(found).deep_view() == old(found).deep_view() + spec_check_specifications(
            items.deep_view(),
        ),
{
    let ghost all = items.deep_view();
    let ghost start = found.deep_view();
    let mut i: usize = 0;
    assert(start + Seq::<DiagnosticView>::empty() =~= start);
    assert(all.take(0) =~= Seq::<FdSpecificationView>::empty());
    while i < items.len()
        invariant
            i <= items.len(),
            all == items.deep_view(),
            found.deep_view() == start + spec_check_specifications(all.take(i as int)),
        decreases items.len() - i,
    {
        proof {
            assert(all.take(i + 1).drop_last() =~= all.take(i as int));
            assert(all[i as int] == items[i as int].deep_view());
        }
        let ghost earlier = spec_check_specifications(all.take(i as int));
        let ghost one = spec_check_specification(all[i as int]);
        check_specification(&items[i], found);
        assert((start + earlier) + one =~= start + (earlier + one));
        i += 1;
    }
    assert(all.take(items.len() as int) =~= all);
}

/// What is found in the specifications of a deployment model: those that
/// repeat a name, and what is found in each.
pub open spec fn spec_check_schemas(dep: FdModelView) -> Seq<DiagnosticView> {
    spec_duplicates(
        names_of::<FdSpecification>(dep.specifications),
        names_of::<FdSpecification>(dep.specifications),
        dep.name,
    ) + spec_check_specifications(dep.specifications)
}

/// Checks the specifications of a deployment model.
pub fn check_schemas(dep: &FdModel, found: &mut Vec<Diagnostic>)
    ensures
        final(found).deep_view() == old(found).deep_view() + spec_check_schemas(dep.deep_view()),
{
    let ghost start = found.deep_view();
    duplicates(&dep.specifications, &dep.name, found);
    let ghost a = spec_duplicates(
        names_of::<FdSpecification>(dep.specifications.deep_view()),
        names_of::<FdSpecification>(dep.specifications.deep_view()),
        dep.name@,
    );
    check_specifications(&dep.specifications, found);
    let ghost b = spec_check_specifications(dep.specifications.deep_view());
    assert((start + a) + b =~= start + (a + b));
}

/// What is found in a deployment model laid over a core model: what is
/// found in its specifications, and then in each of its deployments, one
/// after the other.
pub open spec fn spec_validate_deployment(dep: FdModelView, core: FModelView) -> Seq<
    DiagnosticView,
> {
    spec_check_schemas(dep) + spec_check_roots(dep.deployments, dep, core)
}

/// What is found in the deployments `roots` of the deployment model `dep`,
/// one after the other.
pub open spec fn spec_check_roots(
    roots: Seq<FdRootElementView>,
    dep: FdModelView,
    core: FModelView,
) -> Seq<DiagnosticView>
    decreases roots.len(),
{
    if roots.len() == 0 {
        Seq::empty()
    } else {
        spec_check_roots(roots.drop_last(), dep, core) + spec_check_root(roots.last(), dep, core)
    }
}

/// Everything that is found in one of the deployments `roots` is found in
/// all of them together.
pub proof fn lemma_roots_hold_each(
    roots: Seq<FdRootElementView>,
    dep: FdModelView,
    core: FModelView,
    i: int,
    d: DiagnosticView,
)
    requires
        0 <= i < roots.len(),
        spec_check_root(roots[i], dep, core).contains(d),
    ensures
        spec_check_roots(roots, dep, core).contains(d),
    decreases roots.len(),
{
    let earlier = spec_check_roots(roots.drop_last(), dep, core);
    let last = spec_check_root(roots.last(), dep, core);
    if i == roots.len() - 1 {
        let k = choose|k: int| 0 <= k < last.len() && last[k] == d;
        assert((earlier + last)[earlier.len() + k] == d);
    } else {
        lemma_roots_hold_each(roots.drop_last(), dep, core, i, d);
        let k = choose|k: int| 0 <= k < earlier.len() && earlier[k] == d;
        assert((earlier + last)[k] == d);
    }
}

/// A deployment of a deployment model whose target names no interface of
/// the core model is reported when the model is validated, whatever else
/// the model holds.
pub proof fn law_unresolved_targets_are_reported(dep: FdModelView, core: FModelView, i: int)
    requires
        0 <= i < dep.deployments.len(),
        forall|k: int|
            0 <= k < core.interfaces.len() ==> !spec_names_interface(
                core.name,
                (#[trigger] core.interfaces[k]).name,
                dep.deployments[i].interface.target,
            ),
    ensures
        spec_validate_deployment(dep, core).contains(
            DiagnosticView::UnknownTypeReference {
                name: dep.deployments[i].interface.target,
                scope: dep.name,
            },
        ),
{
    let report = DiagnosticView::UnknownTypeReference {
        name: dep.deployments[i].interface.target,
        scope: dep.name,
    };
    law_unresolved_target_is_reported(dep.deployments[i], dep, core);
    lemma_roots_hold_each(dep.deployments, dep, core, i, report);
    let schemas = spec_check_schemas(dep);
    let roots = spec_check_roots(dep.deployments, dep, core);
    let k = choose|k: int| 0 <= k < roots.len() && roots[k] == report;
    assert((schemas + roots)[schemas.len() + k] == report);
}

/// Validates the deployment model `dep` against the core model `core`
/// that it is laid over. Neither model is changed; everything that is
/// found is reported, in the order of the deployments.
pub fn validate_deployment(dep: &FdModel, core: &FModel) -> (found: Vec<Diagnostic>)
    ensures
        found.deep_view() == spec_validate_deployment(dep.deep_view(), core.deep_view()),
{
    let mut found: Vec<Diagnostic> = Vec::new();
    assert(found.deep_view() =~= Seq::<DiagnosticView>::empty());
    check_schemas(dep, &mut found);
    let ghost schemas = found.deep_view();
    assert(schemas =~= spec_check_schemas(dep.deep_view()));
    let ghost all = dep.deployments.deep_view();
    let mut i: usize = 0;
    assert(schemas + Seq::<DiagnosticView>::empty() =~= schemas);
    assert(all.take(0) =~= Seq::<FdRootElementView>::empty());
    while i < dep.deployments.len()
        invariant
            i <= dep.deployments.len(),
            all == dep.deployments.deep_view(),
            found.deep_view() == schemas + spec_check_roots(
                all.take(i as int),
                dep.deep_view(),
                core.deep_view(),
            ),
        decreases dep.deployments.len() - i,
    {
        proof {
            assert(all.take(i + 1).drop_last() =~= all.take(i as int));
            assert(all[i as int] == dep.deployments[i as int].deep_view());
        }
        let ghost earlier = spec_check_roots(all.take(i as int), dep.deep_view(), core.deep_view());
        let ghost one = spec_check_root(all[i as int], dep.deep_view(), core.deep_view());
        check_root(&dep.deployments[i], dep, core, &mut found);
        assert((schemas + earlier) + one =~= schemas + (earlier + one));
        i += 1;
    }
    assert(all.take(dep.deployments.len() as int) =~= all);
    found
}

} // verus!
