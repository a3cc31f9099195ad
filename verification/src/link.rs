//! Linking: what several models that were read make of each other. An
//! import of a core model brings the types of another core model into
//! reach, and a deployment is laid over the core model that declares its
//! target. All models are only read; none is changed.

use vstd::prelude::*;
use vstd::string::StringExecFns;
use crate::ast::{FModel, FModelView, Import, ImportView};
use crate::deployment::{
    FdModel, FdModelView, FdRootElement, FdRootElementView, Import as FdImport,
    ImportView as FdImportView,
};
use crate::diag::{Diagnostic, DiagnosticView};
use crate::names::{first_occurrence, lemma_found_stays_found};
use crate::overlay::{
    check_root, check_schemas, find_interface, spec_check_root, spec_check_schemas,
    spec_find_interface,
};
use crate::scan;
use crate::validate::{
    TypeEntry, TypeEntryView, check_model, index_model, spec_check_model, spec_index,
};

verus! {

/// Whether an import of the namespace `namespace` brings in the package
/// `package`: the namespace is the package itself, or it starts with the
/// package and `.`, as `org.example.*` and `org.example.Player` do for the
/// package `org.example`.
pub open spec fn spec_imports_from(namespace: Seq<char>, package: Seq<char>) -> bool {
    namespace == package || (package + seq!['.']).is_prefix_of(namespace)
}

/// Tells whether an import of the namespace `namespace` brings in the
/// package `package`.
pub fn imports_from(namespace: &String, package: &String) -> (r: bool)
    ensures
        r == spec_imports_from(namespace@, package@),
{
    if *namespace == *package {
        return true;
    }
    let prefix = package.clone().concat(".");
    proof {
        reveal_strlit(".");
        assert("."@ =~= seq!['.']);
    }
    scan::tag(prefix.as_str(), namespace.as_str()).is_ok()
}

/// For each of `models`, whether an import of `namespace` brings it in.
pub open spec fn spec_brought_in(models: Seq<FModelView>, namespace: Seq<char>) -> Seq<bool> {
    models.map_values(|m: FModelView| spec_imports_from(namespace, m.name))
}

/// The index of the first of `models` that an import of `namespace` brings
/// in, if it brings in any.
pub open spec fn spec_find_package(models: Seq<FModelView>, namespace: Seq<char>) -> Option<nat> {
    first_occurrence(spec_brought_in(models, namespace), true)
}

/// Finds the first of `models` that an import of `namespace` brings in.
pub fn find_package(models: &Vec<FModel>, namespace: &String) -> (r: Option<usize>)
    ensures
        r.is_some() == spec_find_package(models.deep_view(), namespace@).is_some(),
        r.is_some() ==> r.unwrap() as nat == spec_find_package(
            models.deep_view(),
            namespace@,
        ).unwrap(),
        r.is_some() ==> r.unwrap() < models.len(),
{
    let ghost keys = spec_brought_in(models.deep_view(), namespace@);
    let mut i: usize = 0;
    assert(keys.take(0) =~= Seq::<bool>::empty());
    while i < models.len()
        invariant
            i <= models.len(),
            keys == spec_brought_in(models.deep_view(), namespace@),
            first_occurrence(keys.take(i as int), true) is None,
        decreases models.len() - i,
    {
        proof {
            assert(keys.take(i + 1).drop_last() =~= keys.take(i as int));
            assert(models.deep_view()[i as int] == models[i as int].deep_view());
            assert(keys[i as int] == spec_imports_from(
                namespace@,
                models.deep_view()[i as int].name,
            ));
        }
        if imports_from(namespace, &models[i].name) {
            proof {
                lemma_found_stays_found(keys, i as int, models.len() as int, true);
                assert(keys.take(models.len() as int) =~= keys);
            }
            return Some(i);
        }
        i += 1;
    }
    assert(keys.take(models.len() as int) =~= keys);
    None
}

/// What is found of an import of a core model among `models`: that it is
/// unresolved, where it names a namespace that brings in none of them. An
/// import of a resource alone names nothing that could be looked up.
pub open spec fn spec_check_import(i: ImportView, models: Seq<FModelView>) -> Seq<DiagnosticView> {
    match i.imported_namespace {
        Some(namespace) => if spec_find_package(models, namespace) is Some {
            Seq::empty()
        } else {
            seq![DiagnosticView::UnresolvedImport { import: namespace }]
        },
        None => Seq::empty(),
    }
}

/// The types that an import of a core model brings into reach: those of
/// the first of `models` that it brings in.
pub open spec fn spec_import_scope(i: ImportView, models: Seq<FModelView>) -> Seq<TypeEntryView> {
    match i.imported_namespace {
        Some(namespace) => match spec_find_package(models, namespace) {
            Some(k) => spec_index(models[k as int]),
            None => Seq::empty(),
        },
        None => Seq::empty(),
    }
}

/// Resolves an import of a core model among `models`: puts the types that
/// it brings into reach behind those in `scope`, and reports behind the
/// reports in `found`.
pub fn resolve_import(
    i: &Import,
    models: &Vec<FModel>,
    scope: &mut Vec<TypeEntry>,
    found: &mut Vec<Diagnostic>,
)
    ensures
        final(scope).deep_view() == old(scope).deep_view() + spec_import_scope(
            i.deep_view(),
            models.deep_view(),
        ),
        final(found).deep_view() == old(found).deep_view() + spec_check_import(
            i.deep_view(),
            models.deep_view(),
        ),
{
    let ghost scope_before = scope.deep_view();
    let ghost found_before = found.deep_view();
    assert(scope_before + Seq::<TypeEntryView>::empty() =~= scope_before);
    assert(found_before + Seq::<DiagnosticView>::empty() =~= found_before);
    match &i.imported_namespace {
        Some(namespace) => match find_package(models, namespace) {
            Some(k) => {
                assert(models.deep_view()[k as int] == models[k as int].deep_view());
                index_model(&models[k], scope);
            },
            None => {
                let d = Diagnostic::UnresolvedImport { import: namespace.clone() };
                found.push(d);
                assert(found.deep_view() =~= found_before + seq![d.deep_view()]);
            },
        },
        None => {},
    }
}

/// What is found of the imports `imports` of a core model among `models`,
/// one after the other.
pub open spec fn spec_check_imports(
    imports: Seq<ImportView>,
    models: Seq<FModelView>,
) -> Seq<DiagnosticView>
    decreases imports.len(),
{
    if imports.len() == 0 {
        Seq::empty()
    } else {
        spec_check_imports(imports.drop_last(), models) + spec_check_import(imports.last(), models)
    }
}

/// The types that the imports `imports` of a core model bring into reach,
/// one import after the other.
pub open spec fn spec_imports_scope(
    imports: Seq<ImportView>,
    models: Seq<FModelView>,
) -> Seq<TypeEntryView>
    decreases imports.len(),
{
    if imports.len() == 0 {
        Seq::empty()
    } else {
        spec_imports_scope(imports.drop_last(), models) + spec_import_scope(imports.last(), models)
    }
}

/// The types that the model `m` can refer to among `models`: its own, and
/// then those that its imports bring into reach.
pub open spec fn spec_scope(m: FModelView, models: Seq<FModelView>) -> Seq<TypeEntryView> {
    spec_index(m) + spec_imports_scope(m.imports, models)
}

/// What is found in the core model `m` among `models`: the imports that
/// are unresolved, and what is found in the model when it can refer to the
/// types of its scope.
pub open spec fn spec_link_core(
    m: FModelView,
    models: Seq<FModelView>,
    max_depth: nat,
) -> Seq<DiagnosticView> {
    spec_check_imports(m.imports, models) + spec_check_model(m, spec_scope(m, models), max_depth)
}

/// Links the core model `m` among `models`: builds its scope, and reports
/// behind the reports in `found`.
pub fn link_core(
    m: &FModel,
    models: &Vec<FModel>,
    max_depth: usize,
    found: &mut Vec<Diagnostic>,
) -> (scope: Vec<TypeEntry>)
    ensures
        scope.deep_view() == spec_scope(m.deep_view(), models.deep_view()),
        final(found).deep_view() == old(found).deep_view() + spec_link_core(
            m.deep_view(),
            models.deep_view(),
            max_depth as nat,
        ),
{
    let ghost start = found.deep_view();
    let ghost imports = m.imports.deep_view();
    let mut scope: Vec<TypeEntry> = Vec::new();
    assert(scope.deep_view() =~= Seq::<TypeEntryView>::empty());
    index_model(m, &mut scope);
    let ghost own = spec_index(m.deep_view());
    assert(scope.deep_view() =~= own);
    let mut i: usize = 0;
    assert(own + Seq::<TypeEntryView>::empty() =~= own);
    assert(start + Seq::<DiagnosticView>::empty() =~= start);
    assert(imports.take(0) =~= Seq::<ImportView>::empty());
    while i < m.imports.len()
        invariant
            i <= m.imports.len(),
            imports == m.imports.deep_view(),
            scope.deep_view() == own + spec_imports_scope(
                imports.take(i as int),
                models.deep_view(),
            ),
            found.deep_view() == start + spec_check_imports(
                imports.take(i as int),
                models.deep_view(),
            ),
        decreases m.imports.len() - i,
    {
        proof {
            assert(imports.take(i + 1).drop_last() =~= imports.take(i as int));
            assert(imports[i as int] == m.imports[i as int].deep_view());
        }
        let ghost scope_earlier = spec_imports_scope(imports.take(i as int), models.deep_view());
        let ghost found_earlier = spec_check_imports(imports.take(i as int), models.deep_view());
        let ghost scope_one = spec_import_scope(imports[i as int], models.deep_view());
        let ghost found_one = spec_check_import(imports[i as int], models.deep_view());
        resolve_import(&m.imports[i], models, &mut scope, found);
        assert((own + scope_earlier) + scope_one =~= own + (scope_earlier + scope_one));
        assert((start + found_earlier) + found_one =~= start + (found_earlier + found_one));
        i += 1;
    }
    assert(imports.take(m.imports.len() as int) =~= imports);
    let ghost a = spec_check_imports(imports, models.deep_view());
    check_model(m, &scope, max_depth, found);
    let ghost b = spec_check_model(m.deep_view(), scope.deep_view(), max_depth as nat);
    assert((start + a) + b =~= start + (a + b));
    scope
}

/// For each of `cores`, whether it declares an interface that `target`
/// names.
pub open spec fn spec_declares(cores: Seq<FModelView>, target: Seq<char>) -> Seq<bool> {
    cores.map_values(|m: FModelView| spec_find_interface(m.interfaces, m.name, target) is Some)
}

/// The index of the first of `cores` that declares an interface that
/// `target` names, if any does.
pub open spec fn spec_find_core(cores: Seq<FModelView>, target: Seq<char>) -> Option<nat> {
    first_occurrence(spec_declares(cores, target), true)
}

/// Finds the first of `cores` that declares an interface that `target`
/// names.
pub fn find_core(cores: &Vec<FModel>, target: &String) -> (r: Option<usize>)
    ensures
        r.is_some() == spec_find_core(cores.deep_view(), target@).is_some(),
        r.is_some() ==> r.unwrap() as nat == spec_find_core(cores.deep_view(), target@).unwrap(),
        r.is_some() ==> r.unwrap() < cores.len(),
{
    let ghost keys = spec_declares(cores.deep_view(), target@);
    let mut i: usize = 0;
    assert(keys.take(0) =~= Seq::<bool>::empty());
    while i < cores.len()
        invariant
            i <= cores.len(),
            keys == spec_declares(cores.deep_view(), target@),
            first_occurrence(keys.take(i as int), true) is None,
        decreases cores.len() - i,
    {
        proof {
            assert(keys.take(i + 1).drop_last() =~= keys.take(i as int));
            assert(cores.deep_view()[i as int] == cores[i as int].deep_view());
            assert(keys[i as int] == (spec_find_interface(
                cores.deep_view()[i as int].interfaces,
                cores.deep_view()[i as int].name,
                target@,
            ) is Some));
        }
        if find_interface(&cores[i], target).is_some() {
            proof {
                lemma_found_stays_found(keys, i as int, cores.len() as int, true);
                assert(keys.take(cores.len() as int) =~= keys);
            }
            return Some(i);
        }
        i += 1;
    }
    assert(keys.take(cores.len() as int) =~= keys);
    None
}

/// A core model that declares nothing.
pub open spec fn spec_no_model() -> FModelView {
    FModelView {
        name: Seq::empty(),
        imports: Seq::empty(),
        interfaces: Seq::empty(),
        type_collections: Seq::empty(),
    }
}

/// Makes a core model that declares nothing.
pub fn no_model() -> (m: FModel)
    ensures
        m.deep_view() == spec_no_model(),
{
    let m = FModel {
        name: String::new(),
        imports: Vec::new(),
        interfaces: Vec::new(),
        type_collections: Vec::new(),
    };
    assert(m.imports.deep_view() =~= Seq::empty());
    assert(m.interfaces.deep_view() =~= Seq::empty());
    assert(m.type_collections.deep_view() =~= Seq::empty());
    m
}

/// What is found in a deployment at the top level of the deployment model
/// `dep` among the core models `cores`: what is found in it when it is laid
/// over the first of them that declares its target or, where none does,
/// over a model that declares nothing.
pub open spec fn spec_link_root(
    root: FdRootElementView,
    dep: FdModelView,
    cores: Seq<FModelView>,
) -> Seq<DiagnosticView> {
    match spec_find_core(cores, root.interface.target) {
        Some(k) => spec_check_root(root, dep, cores[k as int]),
        None => spec_check_root(root, dep, spec_no_model()),
    }
}

/// Links a deployment at the top level of the deployment model `dep` among
/// the core models `cores`.
pub fn link_root(
    root: &FdRootElement,
    dep: &FdModel,
    cores: &Vec<FModel>,
    found: &mut Vec<Diagnostic>,
)
    ensures
        final(found).deep_view() == old(found).deep_view() + spec_link_root(
            root.deep_view(),
            dep.deep_view(),
            cores.deep_view(),
        ),
{
    match find_core(cores, &root.interface.target) {
        Some(k) => {
            assert(cores.deep_view()[k as int] == cores[k as int].deep_view());
            check_root(root, dep, &cores[k], found);
        },
        None => {
            let nothing = no_model();
            check_root(root, dep, &nothing, found);
        },
    }
}

/// For each of `deps`, whether an import of `namespace` brings it in.
pub open spec fn spec_fd_brought_in(deps: Seq<FdModelView>, namespace: Seq<char>) -> Seq<bool> {
    deps.map_values(|m: FdModelView| spec_imports_from(namespace, m.name))
}

/// Tells whether an import of `namespace` brings in one of `deps`.
pub fn brings_in_deployment(deps: &Vec<FdModel>, namespace: &String) -> (r: bool)
    ensures
        r == (first_occurrence(spec_fd_brought_in(deps.deep_view(), namespace@), true) is Some),
{
    let ghost keys = spec_fd_brought_in(deps.deep_view(), namespace@);
    let mut i: usize = 0;
    assert(keys.take(0) =~= Seq::<bool>::empty());
    while i < deps.len()
        invariant
            i <= deps.len(),
            keys == spec_fd_brought_in(deps.deep_view(), namespace@),
            first_occurrence(keys.take(i as int), true) is None,
        decreases deps.len() - i,
    {
        proof {
            assert(keys.take(i + 1).drop_last() =~= keys.take(i as int));
            assert(deps.deep_view()[i as int] == deps[i as int].deep_view());
            assert(
                keys[i as int] == spec_imports_from(namespace@, deps.deep_view()[i as int].name)
            );
        }
        if imports_from(namespace, &deps[i].name) {
            proof {
                lemma_found_stays_found(keys, i as int, deps.len() as int, true);
                assert(keys.take(deps.len() as int) =~= keys);
            }
            return true;
        }
        i += 1;
    }
    assert(keys.take(deps.len() as int) =~= keys);
    false
}

/// What is found of an import of a deployment model: that it is
/// unresolved, where it names a namespace that brings in none of the core
/// models `cores` and none of the deployment models `deps`. An import of a
/// resource alone names nothing that could be looked up.
pub open spec fn spec_check_fd_import(
    i: FdImportView,
    cores: Seq<FModelView>,
    deps: Seq<FdModelView>,
) -> Seq<DiagnosticView> {
    match i {
        FdImportView::ImportedSpec(namespace, _) => if spec_find_package(cores, namespace) is Some
            || first_occurrence(spec_fd_brought_in(deps, namespace), true) is Some {
            Seq::empty()
        } else {
            seq![DiagnosticView::UnresolvedImport { import: namespace }]
        },
        FdImportView::ImportUri(_) => Seq::empty(),
    }
}

/// Checks an import of a deployment model.
pub fn check_fd_import(
    i: &FdImport,
    cores: &Vec<FModel>,
    deps: &Vec<FdModel>,
    found: &mut Vec<Diagnostic>,
)
    ensures
        final(found).deep_view() == old(found).deep_view() + spec_check_fd_import(
            i.deep_view(),
            cores.deep_view(),
            deps.deep_view(),
        ),
{
    let ghost before = found.deep_view();
    assert(before + Seq::<DiagnosticView>::empty() =~= before);
    match i {
        FdImport::ImportedSpec(namespace, _) => {
            if find_package(cores, namespace).is_none() && !brings_in_deployment(deps, namespace) {
                let d = Diagnostic::UnresolvedImport { import: namespace.clone() };
                found.push(d);
                assert(found.deep_view() =~= before + seq![d.deep_view()]);
            }
        },
        FdImport::ImportUri(_) => {},
    }
}

/// What is found of the imports `imports` of a deployment model, one after
/// the other.
pub open spec fn spec_check_fd_imports(
    imports: Seq<FdImportView>,
    cores: Seq<FModelView>,
    deps: Seq<FdModelView>,
) -> Seq<DiagnosticView>
    decreases imports.len(),
{
    if imports.len() == 0 {
        Seq::empty()
    } else {
        spec_check_fd_imports(imports.drop_last(), cores, deps) + spec_check_fd_import(
            imports.last(),
            cores,
            deps,
        )
    }
}

/// What is found in the deployment model `dep` among the core models
/// `cores` and the deployment models `deps`: the imports that are
/// unresolved, what is found in its specifications, and what is found in
/// its deployments.
pub open spec fn spec_link_deployment(
    dep: FdModelView,
    cores: Seq<FModelView>,
    deps: Seq<FdModelView>,
) -> Seq<DiagnosticView> {
    spec_check_fd_imports(dep.imports, cores, deps) + spec_check_schemas(dep) + spec_link_roots(
        dep.deployments,
        dep,
        cores,
    )
}

/// What is found in the deployments `roots` of the deployment model `dep`
/// among the core models `cores`, one after the other.
pub open spec fn spec_link_roots(
    roots: Seq<FdRootElementView>,
    dep: FdModelView,
    cores: Seq<FModelView>,
) -> Seq<DiagnosticView>
    decreases roots.len(),
{
    if roots.len() == 0 {
        Seq::empty()
    } else {
        spec_link_roots(roots.drop_last(), dep, cores) + spec_link_root(roots.last(), dep, cores)
    }
}

/// Links the deployment model `dep` among the core models `cores` and the
/// deployment models `deps`, and reports behind the reports in `found`.
pub fn link_deployment(
    dep: &FdModel,
    cores: &Vec<FModel>,
    deps: &Vec<FdModel>,
    found: &mut Vec<Diagnostic>,
)
    ensures
        final(found).deep_view() == old(found).deep_view() + spec_link_deployment(
            dep.deep_view(),
            cores.deep_view(),
            deps.deep_view(),
        ),
{
    let ghost first = found.deep_view();
    let ghost imports = dep.imports.deep_view();
    let mut k: usize = 0;
    assert(first + Seq::<DiagnosticView>::empty() =~= first);
    assert(imports.take(0) =~= Seq::<FdImportView>::empty());
    while k < dep.imports.len()
        invariant
            k <= dep.imports.len(),
            imports == dep.imports.deep_view(),
            found.deep_view() == first + spec_check_fd_imports(
                imports.take(k as int),
                cores.deep_view(),
                deps.deep_view(),
            ),
        decreases dep.imports.len() - k,
    {
        proof {
            assert(imports.take(k + 1).drop_last() =~= imports.take(k as int));
            assert(imports[k as int] == dep.imports[k as int].deep_view());
        }
        let ghost earlier = spec_check_fd_imports(
            imports.take(k as int),
            cores.deep_view(),
            deps.deep_view(),
        );
        let ghost one = spec_check_fd_import(
            imports[k as int],
            cores.deep_view(),
            deps.deep_view(),
        );
        check_fd_import(&dep.imports[k], cores, deps, found);
        assert((first + earlier) + one =~= first + (earlier + one));
        k += 1;
    }
    assert(imports.take(dep.imports.len() as int) =~= imports);
    let ghost unresolved = spec_check_fd_imports(imports, cores.deep_view(), deps.deep_view());
    check_schemas(dep, found);
    let ghost schemas = spec_check_schemas(dep.deep_view());
    let ghost start = found.deep_view();
    assert(start =~= first + (unresolved + schemas));
    let ghost all = dep.deployments.deep_view();
    let mut i: usize = 0;
    assert(start + Seq::<DiagnosticView>::empty() =~= start);
    assert(all.take(0) =~= Seq::<FdRootElementView>::empty());
    while i < dep.deployments.len()
        invariant
            i <= dep.deployments.len(),
            all == dep.deployments.deep_view(),
            found.deep_view() == start + spec_link_roots(
                all.take(i as int),
                dep.deep_view(),
                cores.deep_view(),
            ),
        decreases dep.deployments.len() - i,
    {
        proof {
            assert(all.take(i + 1).drop_last() =~= all.take(i as int));
            assert(all[i as int] == dep.deployments[i as int].deep_view());
        }
        let ghost earlier = spec_link_roots(all.take(i as int), dep.deep_view(), cores.deep_view());
        let ghost one = spec_link_root(all[i as int], dep.deep_view(), cores.deep_view());
        link_root(&dep.deployments[i], dep, cores, found);
        assert((start + earlier) + one =~= start + (earlier + one));
        i += 1;
    }
    assert(all.take(dep.deployments.len() as int) =~= all);
    assert((first + (unresolved + schemas)) + spec_link_roots(
        all,
        dep.deep_view(),
        cores.deep_view(),
    ) =~= first + (unresolved + schemas + spec_link_roots(
        all,
        dep.deep_view(),
        cores.deep_view(),
    )));
}

/// What is found in the first `n` of the core models `cores`, one after
/// the other.
pub open spec fn spec_link_cores(cores: Seq<FModelView>, n: nat, max_depth: nat) -> Seq<
    DiagnosticView,
>
    recommends
        n <= cores.len(),
    decreases n,
{
    if n == 0 {
        Seq::empty()
    } else {
        spec_link_cores(cores, (n - 1) as nat, max_depth) + spec_link_core(
            cores[n - 1],
            cores,
            max_depth,
        )
    }
}

/// What is found in the deployment models `deps`, which are the first of
/// the deployment models `all`, among the core models `cores`, one after
/// the other.
pub open spec fn spec_link_deployments(
    deps: Seq<FdModelView>,
    cores: Seq<FModelView>,
    all: Seq<FdModelView>,
) -> Seq<DiagnosticView>
    decreases deps.len(),
{
    if deps.len() == 0 {
        Seq::empty()
    } else {
        spec_link_deployments(deps.drop_last(), cores, all) + spec_link_deployment(
            deps.last(),
            cores,
            all,
        )
    }
}

/// Everything that linking finds: in the core models, and then in the
/// deployment models.
pub open spec fn spec_link_findings(
    cores: Seq<FModelView>,
    deps: Seq<FdModelView>,
    max_depth: nat,
) -> Seq<DiagnosticView> {
    spec_link_cores(cores, cores.len(), max_depth) + spec_link_deployments(deps, cores, deps)
}

/// What linking yields where nothing is found: for each core model, in the
/// order given, the types that it can refer to.
#[derive(Debug, Clone, PartialEq, Eq)]
pub struct LinkedModel {
    pub scopes: Vec<Vec<TypeEntry>>,
}

/// The mathematical value of [`LinkedModel`].
pub ghost struct LinkedModelView {
    pub scopes: Seq<Seq<TypeEntryView>>,
}

impl DeepView for LinkedModel {
    type V = LinkedModelView;

    open spec fn deep_view(&self) -> LinkedModelView {
        LinkedModelView { scopes: self.scopes.deep_view() }
    }
}

/// The scopes of the core models `cores`, in their order.
pub open spec fn spec_scopes(cores: Seq<FModelView>) -> Seq<Seq<TypeEntryView>> {
    cores.map_values(|m: FModelView| spec_scope(m, cores))
}

/// What linking makes of core models and deployment models: the scopes of
/// the core models where nothing is found, and else everything that is
/// found.
pub open spec fn spec_link(
    cores: Seq<FModelView>,
    deps: Seq<FdModelView>,
    max_depth: nat,
) -> Result<LinkedModelView, Seq<DiagnosticView>> {
    if spec_link_findings(cores, deps, max_depth).len() > 0 {
        Err(spec_link_findings(cores, deps, max_depth))
    } else {
        Ok(LinkedModelView { scopes: spec_scopes(cores) })
    }
}

/// Links the core models `core_models` among themselves: builds the scope
/// of each, and reports behind the reports in `found`.
pub fn link_cores(
    core_models: &Vec<FModel>,
    max_depth: usize,
    found: &mut Vec<Diagnostic>,
) -> (scopes: Vec<Vec<TypeEntry>>)
    ensures
        scopes.deep_view() == spec_scopes(core_models.deep_view()),
        final(found).deep_view() == old(found).deep_view() + spec_link_cores(
            core_models.deep_view(),
            core_models.len() as nat,
            max_depth as nat,
        ),
{
    let ghost cores = core_models.deep_view();
    let ghost start = found.deep_view();
    let mut scopes: Vec<Vec<TypeEntry>> = Vec::new();
    assert(scopes.deep_view() =~= spec_scopes(cores).take(0));
    assert(start + Seq::<DiagnosticView>::empty() =~= start);
    let mut i: usize = 0;
    while i < core_models.len()
        invariant
            i <= core_models.len(),
            cores == core_models.deep_view(),
            scopes.deep_view() == spec_scopes(cores).take(i as int),
            found.deep_view() == start + spec_link_cores(cores, i as nat, max_depth as nat),
        decreases core_models.len() - i,
    {
        proof {
            assert(cores[i as int] == core_models[i as int].deep_view());
        }
        let ghost earlier = spec_link_cores(cores, i as nat, max_depth as nat);
        let ghost one = spec_link_core(cores[i as int], cores, max_depth as nat);
        let ghost before = scopes.deep_view();
        let scope = link_core(&core_models[i], core_models, max_depth, found);
        assert((start + earlier) + one =~= start + (earlier + one));
        scopes.push(scope);
        assert(scopes.deep_view() =~= before.push(scope.deep_view()));
        assert(before.push(scope.deep_view()) =~= spec_scopes(cores).take(i + 1));
        i += 1;
    }
    assert(spec_scopes(cores).take(core_models.len() as int) =~= spec_scopes(cores));
    scopes
}

/// Links the deployment models `deployment_models` among the core models
/// `core_models`, and reports behind the reports in `found`.
pub fn link_deployments(
    deployment_models: &Vec<FdModel>,
    core_models: &Vec<FModel>,
    found: &mut Vec<Diagnostic>,
)
    ensures
        final(found).deep_view() == old(found).deep_view() + spec_link_deployments(
            deployment_models.deep_view(),
            core_models.deep_view(),
            deployment_models.deep_view(),
        ),
{
    let ghost cores = core_models.deep_view();
    let ghost deps = deployment_models.deep_view();
    let ghost first = found.deep_view();
    let mut j: usize = 0;
    assert(first + Seq::<DiagnosticView>::empty() =~= first);
    assert(deps.take(0) =~= Seq::<FdModelView>::empty());
    while j < deployment_models.len()
        invariant
            j <= deployment_models.len(),
            cores == core_models.deep_view(),
            deps == deployment_models.deep_view(),
            found.deep_view() == first + spec_link_deployments(deps.take(j as int), cores, deps),
        decreases deployment_models.len() - j,
    {
        proof {
            assert(deps.take(j + 1).drop_last() =~= deps.take(j as int));
            assert(deps[j as int] == deployment_models[j as int].deep_view());
        }
        let ghost earlier = spec_link_deployments(deps.take(j as int), cores, deps);
        let ghost one = spec_link_deployment(deps[j as int], cores, deps);
        link_deployment(&deployment_models[j], core_models, deployment_models, found);
        assert((first + earlier) + one =~= first + (earlier + one));
        j += 1;
    }
    assert(deps.take(deployment_models.len() as int) =~= deps);
}

/// Links models that were read, following chains of bases over at most
/// `max_depth` declarations. Every core model is validated with the types
/// of the models that it imports in reach, and every deployment is laid
/// over the core model that declares its target.
pub fn link_within(
    core_models: &Vec<FModel>,
    deployment_models: &Vec<FdModel>,
    max_depth: usize,
) -> (r: Result<LinkedModel, Vec<Diagnostic>>)
    ensures
        crate::api::reads(
            r,
            spec_link(
                core_models.deep_view(),
                deployment_models.deep_view(),
                max_depth as nat,
            ),
        ),
        r is Err ==> r->Err_0.len() > 0,
{
    let mut found: Vec<Diagnostic> = Vec::new();
    assert(found.deep_view() =~= Seq::<DiagnosticView>::empty());
    let scopes = link_cores(core_models, max_depth, &mut found);
    let ghost first = found.deep_view();
    assert(first =~= spec_link_cores(
        core_models.deep_view(),
        core_models.len() as nat,
        max_depth as nat,
    ));
    link_deployments(deployment_models, core_models, &mut found);
    if found.len() > 0 {
        Err(found)
    } else {
        Ok(LinkedModel { scopes })
    }
}

/// Links models that were read, with the default limit for chains of
/// bases.
pub fn link(core_models: &Vec<FModel>, deployment_models: &Vec<FdModel>) -> (r: Result<
    LinkedModel,
    Vec<Diagnostic>,
>)
    ensures
        crate::api::reads(
            r,
            spec_link(
                core_models.deep_view(),
                deployment_models.deep_view(),
                crate::api::DEFAULT_MAX_DEPTH as nat,
            ),
        ),
        r is Err ==> r->Err_0.len() > 0,
{
    link_within(core_models, deployment_models, crate::api::DEFAULT_MAX_DEPTH)
}

} // verus!
