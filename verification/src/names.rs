//! Declarations by name: finding the declaration that a name stands for,
//! and finding the names that are declared twice.

use vstd::prelude::*;
use crate::ast::{
    FArgument, FArgumentView, FAttribute, FAttributeView, FBroadcast, FBroadcastView, FEnumerator,
    FEnumeratorView, FField, FFieldView, FInterface, FInterfaceView, FMethod, FMethodView, FType,
    FTypeView,
};
use crate::diag::{Diagnostic, DiagnosticView};

verus! {

/// A declaration with a name.
pub trait Named: DeepView {
    /// The name of the declaration with the value `v`.
    spec fn name_of(v: Self::V) -> Seq<char>;

    /// The name of the declaration.
    fn name(&self) -> (r: &String)
        ensures
            r@ == Self::name_of(self.deep_view()),
    ;
}

impl Named for FInterface {
    open spec fn name_of(v: FInterfaceView) -> Seq<char> {
        v.name
    }

    fn name(&self) -> (r: &String) {
        &self.name
    }
}

impl Named for FAttribute {
    open spec fn name_of(v: FAttributeView) -> Seq<char> {
        v.name
    }

    fn name(&self) -> (r: &String) {
        &self.name
    }
}

impl Named for FMethod {
    open spec fn name_of(v: FMethodView) -> Seq<char> {
        v.name
    }

    fn name(&self) -> (r: &String) {
        &self.name
    }
}

impl Named for FBroadcast {
    open spec fn name_of(v: FBroadcastView) -> Seq<char> {
        v.name
    }

    fn name(&self) -> (r: &String) {
        &self.name
    }
}

impl Named for FArgument {
    open spec fn name_of(v: FArgumentView) -> Seq<char> {
        v.name
    }

    fn name(&self) -> (r: &String) {
        &self.name
    }
}

impl Named for FField {
    open spec fn name_of(v: FFieldView) -> Seq<char> {
        v.name
    }

    fn name(&self) -> (r: &String) {
        &self.name
    }
}

impl Named for FEnumerator {
    open spec fn name_of(v: FEnumeratorView) -> Seq<char> {
        v.name
    }

    fn name(&self) -> (r: &String) {
        &self.name
    }
}

impl Named for FType {
    open spec fn name_of(v: FTypeView) -> Seq<char> {
        match v {
            FTypeView::StructType(x) => x.name,
            FTypeView::UnionType(x) => x.name,
            FTypeView::EnumerationType(x) => x.name,
            FTypeView::ArrayType(x) => x.name,
            FTypeView::MapType(x) => x.name,
            FTypeView::TypeDef(x) => x.name,
        }
    }

    fn name(&self) -> (r: &String) {
        match self {
            FType::StructType(x) => &x.name,
            FType::UnionType(x) => &x.name,
            FType::EnumerationType(x) => &x.name,
            FType::ArrayType(x) => &x.name,
            FType::MapType(x) => &x.name,
            FType::TypeDef(x) => &x.name,
        }
    }
}

/// The names of `items`, in their order.
pub open spec fn names_of<T: Named>(items: Seq<T::V>) -> Seq<Seq<char>> {
    items.map_values(|v: T::V| T::name_of(v))
}

/// The index of the first of `keys` that is `key`, if any is.
pub open spec fn first_occurrence<K>(keys: Seq<K>, key: K) -> Option<nat>
    decreases keys.len(),
{
    if keys.len() == 0 {
        None
    } else {
        match first_occurrence(keys.drop_last(), key) {
            Some(i) => Some(i),
            None => if keys.last() == key {
                Some((keys.len() - 1) as nat)
            } else {
                None
            },
        }
    }
}

/// What `first_occurrence` finds: an index at which `key` stands and in
/// front of which it does not, or nothing where `key` stands nowhere.
pub proof fn lemma_first_occurrence<K>(keys: Seq<K>, key: K)
    ensures
        match first_occurrence(keys, key) {
            Some(i) => {
                &&& i < keys.len()
                &&& keys[i as int] == key
                &&& forall|k: int| 0 <= k < i ==> keys[k] != key
            },
            None => forall|k: int| 0 <= k < keys.len() ==> keys[k] != key,
        },
    decreases keys.len(),
{
    if keys.len() > 0 {
        let before = keys.drop_last();
        lemma_first_occurrence(before, key);
        assert forall|k: int| 0 <= k < before.len() implies before[k] == keys[k] by {}
    }
}

/// The declarations that repeat an earlier one: for each of `keys` that
/// stands at an earlier index too, in the order of the later indices, the
/// report that `names` at the later index is declared again, with the first
/// index at which the key stands and the later index.
pub open spec fn spec_duplicates<K>(
    keys: Seq<K>,
    names: Seq<Seq<char>>,
    scope: Seq<char>,
) -> Seq<DiagnosticView>
    recommends
        keys.len() == names.len(),
    decreases keys.len(),
{
    if keys.len() == 0 {
        Seq::empty()
    } else {
        let earlier = spec_duplicates(keys.drop_last(), names.drop_last(), scope);
        match first_occurrence(keys.drop_last(), keys.last()) {
            Some(first) => earlier.push(
                DiagnosticView::DuplicateDeclaration {
                    name: names.last(),
                    scope,
                    first,
                    second: (keys.len() - 1) as nat,
                },
            ),
            None => earlier,
        }
    }
}

/// Names of which none is declared twice are not reported.
pub proof fn law_distinct_names_pass<K>(keys: Seq<K>, names: Seq<Seq<char>>, scope: Seq<char>)
    requires
        keys.len() == names.len(),
        keys.no_duplicates(),
    ensures
        spec_duplicates(keys, names, scope) == Seq::<DiagnosticView>::empty(),
    decreases keys.len(),
{
    if keys.len() > 0 {
        law_distinct_names_pass(keys.drop_last(), names.drop_last(), scope);
        lemma_first_occurrence(keys.drop_last(), keys.last());
    }
}

/// A name that is declared twice, among names that are otherwise all
/// different, is reported exactly once, and the report gives both places:
/// the index of the first declaration and the index of the second.
pub proof fn law_one_duplicate_one_report<K>(
    keys: Seq<K>,
    names: Seq<Seq<char>>,
    scope: Seq<char>,
    first: int,
    second: int,
)
    requires
        keys.len() == names.len(),
        0 <= first < second < keys.len(),
        keys[first] == keys[second],
        forall|i: int, j: int|
            0 <= i < j < keys.len() && !(i == first && j == second) ==> keys[i] != keys[j],
    ensures
        spec_duplicates(keys, names, scope) == seq![
            DiagnosticView::DuplicateDeclaration {
                name: names[second],
                scope,
                first: first as nat,
                second: second as nat,
            },
        ],
    decreases keys.len(),
{
    let before = keys.drop_last();
    lemma_first_occurrence(before, keys.last());
    if second == keys.len() - 1 {
        assert(before.no_duplicates());
        law_distinct_names_pass(before, names.drop_last(), scope);
        assert(before[first] == keys.last());
        assert(spec_duplicates(keys, names, scope) =~= seq![
            DiagnosticView::DuplicateDeclaration {
                name: names[second],
                scope,
                first: first as nat,
                second: second as nat,
            },
        ]);
    } else {
        law_one_duplicate_one_report(before, names.drop_last(), scope, first, second);
    }
}

/// Finds the first of the first `end` declarations in `items` that has the
/// name `name`.
pub(crate) fn find_named<T: Named>(items: &Vec<T>, end: usize, name: &String) -> (r: Option<usize>)
    requires
        end <= items.len(),
    ensures
        r.is_some() == first_occurrence(
            names_of::<T>(items.deep_view()).take(end as int),
            name@,
        ).is_some(),
        r.is_some() ==> r.unwrap() as nat == first_occurrence(
            names_of::<T>(items.deep_view()).take(end as int),
            name@,
        ).unwrap(),
        r.is_some() ==> r.unwrap() < end,
{
    let ghost names = names_of::<T>(items.deep_view());
    let mut i: usize = 0;
    while i < end
        invariant
            i <= end <= items.len(),
            names == names_of::<T>(items.deep_view()),
            first_occurrence(names.take(i as int), name@) is None,
        decreases end - i,
    {
        proof {
            assert(names.take(i + 1).drop_last() =~= names.take(i as int));
            assert(names[i as int] == T::name_of(items.deep_view()[i as int]));
        }
        if *items[i].name() == *name {
            proof {
                lemma_found_stays_found(names, i as int, end as int, name@);
            }
            return Some(i);
        }
        i += 1;
    }
    None
}

/// What is found in a prefix of `keys` is found in every longer prefix.
pub proof fn lemma_found_stays_found<K>(keys: Seq<K>, at: int, end: int, key: K)
    requires
        0 <= at < end <= keys.len(),
        first_occurrence(keys.take(at + 1), key) == Some(at as nat),
    ensures
        first_occurrence(keys.take(end), key) == Some(at as nat),
    decreases end - at,
{
    if end > at + 1 {
        lemma_found_stays_found(keys, at, end - 1, key);
        assert(keys.take(end).drop_last() =~= keys.take(end - 1));
    }
}

/// Reports the declarations in `items` that repeat the name of an earlier
/// one, behind the reports in `found`.
pub fn duplicates<T: Named>(items: &Vec<T>, scope: &String, found: &mut Vec<Diagnostic>)
    ensures
        final(found).deep_view() == old(found).deep_view() + spec_duplicates(
            names_of::<T>(items.deep_view()),
            names_of::<T>(items.deep_view()),
            scope@,
        ),
{
    let ghost names = names_of::<T>(items.deep_view());
    let ghost start = found.deep_view();
    let mut j: usize = 0;
    assert(start + Seq::<DiagnosticView>::empty() =~= start);
    assert(names.take(0) =~= Seq::<Seq<char>>::empty());
    while j < items.len()
        invariant
            j <= items.len(),
            names == names_of::<T>(items.deep_view()),
            found.deep_view() == start + spec_duplicates(
                names.take(j as int),
                names.take(j as int),
                scope@,
            ),
        decreases items.len() - j,
    {
        let name = items[j].name();
        proof {
            assert(names.take(j + 1).drop_last() =~= names.take(j as int));
            assert(names[j as int] == T::name_of(items.deep_view()[j as int]));
        }
        let ghost before = found.deep_view();
        match find_named(items, j, name) {
            Some(first) => {
                let d = Diagnostic::DuplicateDeclaration {
                    name: name.clone(),
                    scope: scope.clone(),
                    first,
                    second: j,
                };
                found.push(d);
                proof {
                    let earlier = spec_duplicates(
                        names.take(j as int),
                        names.take(j as int),
                        scope@,
                    );
                    assert(found.deep_view() =~= before.push(d.deep_view()));
                    assert(before.push(d.deep_view()) =~= start + earlier.push(d.deep_view()));
                }
            },
            None => {},
        }
        j += 1;
    }
    assert(names.take(items.len() as int) =~= names);
}

/// The value of each enumerator: the value written for it or, where none
/// is written, one more than the value of the enumerator in front of it,
/// and 0 for the first.
pub open spec fn spec_enumerator_values(enumerators: Seq<FEnumeratorView>) -> Seq<int>
    decreases enumerators.len(),
{
    if enumerators.len() == 0 {
        Seq::empty()
    } else {
        let earlier = spec_enumerator_values(enumerators.drop_last());
        earlier.push(
            match enumerators.last().value {
                Some(v) => v as int,
                None => if earlier.len() == 0 {
                    0
                } else {
                    earlier.last() + 1
                },
            },
        )
    }
}

/// Every enumerator has a value, and none lies further from the range of
/// the written values than there are enumerators.
pub proof fn lemma_enumerator_values_bound(enumerators: Seq<FEnumeratorView>)
    ensures
        spec_enumerator_values(enumerators).len() == enumerators.len(),
        forall|i: int|
            0 <= i < enumerators.len() ==> i32::MIN <= #[trigger] spec_enumerator_values(
                enumerators,
            )[i] <= i32::MAX + i,
    decreases enumerators.len(),
{
    if enumerators.len() > 0 {
        lemma_enumerator_values_bound(enumerators.drop_last());
    }
}

/// Enumerators for which no value is written count up from 0 in the order
/// in which they are declared: each has its index as its value.
pub proof fn law_implicit_values_count_up(enumerators: Seq<FEnumeratorView>)
    requires
        forall|i: int| 0 <= i < enumerators.len() ==> (#[trigger] enumerators[i]).value is None,
    ensures
        spec_enumerator_values(enumerators).len() == enumerators.len(),
        forall|i: int|
            0 <= i < enumerators.len() ==> #[trigger] spec_enumerator_values(enumerators)[i] == i,
    decreases enumerators.len(),
{
    if enumerators.len() > 0 {
        let earlier = enumerators.drop_last();
        assert forall|i: int| 0 <= i < earlier.len() implies (#[trigger] earlier[i]).value
            is None by {
            assert(earlier[i] == enumerators[i]);
        }
        law_implicit_values_count_up(earlier);
    }
}

/// An enumerator for which no value is written has one more than the
/// enumerator in front of it, whatever that one has.
pub proof fn law_implicit_value_follows(enumerators: Seq<FEnumeratorView>, i: int)
    requires
        0 < i < enumerators.len(),
        enumerators[i].value is None,
    ensures
        spec_enumerator_values(enumerators)[i] == spec_enumerator_values(enumerators)[i - 1] + 1,
    decreases enumerators.len(),
{
    lemma_enumerator_values_bound(enumerators.drop_last());
    if i < enumerators.len() - 1 {
        law_implicit_value_follows(enumerators.drop_last(), i);
    }
}

/// Computes the value of each enumerator.
pub fn enumerator_values(enumerators: &Vec<FEnumerator>) -> (values: Vec<i128>)
    ensures
        values@.map_values(|v: i128| v as int) == spec_enumerator_values(
            enumerators.deep_view(),
        ),
{
    let ghost all = enumerators.deep_view();
    let mut values: Vec<i128> = Vec::new();
    let mut i: usize = 0;
    assert(all.take(0) =~= Seq::<FEnumeratorView>::empty());
    assert(values@.map_values(|v: i128| v as int) =~= Seq::<int>::empty());
    while i < enumerators.len()
        invariant
            i <= enumerators.len(),
            all == enumerators.deep_view(),
            values.len() == i,
            values@.map_values(|v: i128| v as int) == spec_enumerator_values(all.take(i as int)),
        decreases enumerators.len() - i,
    {
        proof {
            assert(all.take(i + 1).drop_last() =~= all.take(i as int));
            assert(all[i as int] == enumerators[i as int].deep_view());
            lemma_enumerator_values_bound(all.take(i as int));
            if i > 0 {
                assert(values@.map_values(|v: i128| v as int)[i - 1] == values@[i - 1] as int);
            }
        }
        let ghost before = values@.map_values(|v: i128| v as int);
        let value: i128 = match enumerators[i].value {
            Some(v) => v as i128,
            None => if i == 0 {
                0
            } else {
                values[i - 1] + 1
            },
        };
        values.push(value);
        assert(values@.map_values(|v: i128| v as int) =~= before.push(value as int));
        i += 1;
    }
    assert(all.take(enumerators.len() as int) =~= all);
    values
}

} // verus!
