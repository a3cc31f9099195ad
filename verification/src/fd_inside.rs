//! Every parse of a deployment model stays inside its text, and every
//! syntax error that is reported of one points into it.

use vstd::prelude::*;
use crate::api::spec_parse_deployment;
use crate::fd_syntax::{
    spec_fd_diagnostic, spec_fd_resync, spec_fd_scan, spec_fd_scan_step, spec_fd_step_report,
    spec_fd_syntax_diagnostics,
};
use crate::deploy::{
    spec_fd_argument, spec_fd_arguments, spec_fd_array, spec_fd_attribute, spec_fd_broadcast,
    spec_fd_element, spec_fd_elements, spec_fd_enum_value, spec_fd_enum_values,
    spec_fd_enumeration, spec_fd_field, spec_fd_fields, spec_fd_map, spec_fd_method, spec_fd_model,
    spec_fd_properties, spec_fd_property, spec_fd_property_decl, spec_fd_property_decls,
    spec_fd_root_element, spec_fd_root_elements, spec_fd_specification, spec_fd_specifications,
    spec_fd_struct, spec_fd_type_def, spec_fd_union, spec_fd_value, spec_fd_value_kind, spec_id,
    spec_import, spec_imports, spec_plain_overwrites, spec_property_set, spec_starts_keyword,
    spec_type_overwrites,
};
use crate::diag::{DiagnosticView, spec_syntax_diagnostic};
use crate::extension::{
    DEFAULT_MAX_NESTING, spec_fd_extension_element_within, spec_fd_extension_elements,
    spec_starts_extension,
};
use crate::inside::{
    inside, is_end_of, left_inside, lemma_import_inside, lemma_import_uri_inside,
    lemma_package_inside, lemma_report_points, lemma_steps_inside, lemma_tokens_inside,
    lemma_whole_is_end, points_into,
};
use crate::lexer::{Cursor, Expected, Keyword, SyntaxErrorView, spec_fqn, spec_skip_token, spec_ws0};
use crate::model::spec_package;

verus! {

/// The kind of a property is read inside the text.
pub proof fn lemma_fd_value_kind_inside(s: Seq<char>)
    ensures
        forall|a: Seq<char>| is_end_of(a, s) ==> inside(#[trigger] spec_fd_value_kind(a), s),
{
    lemma_steps_inside(s);
    lemma_tokens_inside(s);
    assert forall|a: Seq<char>| is_end_of(a, s) implies inside(
        #[trigger] spec_fd_value_kind(a),
        s,
    ) by {
        reveal(spec_fd_value_kind);
    }
}

/// A value is read inside the text.
pub proof fn lemma_fd_value_inside(s: Seq<char>)
    ensures
        forall|a: Seq<char>| is_end_of(a, s) ==> inside(#[trigger] spec_fd_value(a), s),
{
    lemma_steps_inside(s);
    lemma_tokens_inside(s);
    lemma_import_uri_inside(s);
    assert forall|a: Seq<char>| is_end_of(a, s) implies inside(
        #[trigger] spec_fd_value(a),
        s,
    ) by {
        reveal(spec_fd_value);
    }
}

/// A property that is set is read inside the text.
pub proof fn lemma_fd_property_inside(s: Seq<char>)
    ensures
        forall|a: Seq<char>| is_end_of(a, s) ==> inside(#[trigger] spec_fd_property(a), s),
{
    lemma_steps_inside(s);
    lemma_tokens_inside(s);
    lemma_fd_value_inside(s);
    assert forall|a: Seq<char>| is_end_of(a, s) implies inside(
        #[trigger] spec_fd_property(a),
        s,
    ) by {
        reveal(spec_fd_property);
    }
}

proof fn lemma_fd_properties_inside_at(a: Seq<char>, s: Seq<char>)
    requires
        is_end_of(a, s),
    ensures
        left_inside(spec_fd_properties(a), s),
    decreases a.len(),
{
    reveal(spec_fd_properties);
    lemma_fd_property_inside(s);
    match spec_fd_property(a) {
        Ok((rest, _)) => {
            if rest.len() < a.len() {
                lemma_fd_properties_inside_at(rest, s);
            }
        },
        Err(_) => {},
    }
}

/// Properties that are set are read inside the text.
pub proof fn lemma_fd_properties_inside(s: Seq<char>)
    ensures
        forall|a: Seq<char>| is_end_of(a, s) ==> left_inside(#[trigger] spec_fd_properties(a), s),
{
    assert forall|a: Seq<char>| is_end_of(a, s) implies left_inside(
        #[trigger] spec_fd_properties(a),
        s,
    ) by {
        lemma_fd_properties_inside_at(a, s);
    }
}

/// The declaration of a property is read inside the text.
pub proof fn lemma_fd_property_decl_inside(s: Seq<char>)
    ensures
        forall|a: Seq<char>| is_end_of(a, s) ==> inside(#[trigger] spec_fd_property_decl(a), s),
{
    lemma_steps_inside(s);
    lemma_tokens_inside(s);
    lemma_fd_value_kind_inside(s);
    lemma_fd_value_inside(s);
    assert forall|a: Seq<char>| is_end_of(a, s) implies inside(
        #[trigger] spec_fd_property_decl(a),
        s,
    ) by {
        reveal(spec_fd_property_decl);
    }
}

proof fn lemma_fd_property_decls_inside_at(a: Seq<char>, s: Seq<char>)
    requires
        is_end_of(a, s),
    ensures
        left_inside(spec_fd_property_decls(a), s),
    decreases a.len(),
{
    reveal(spec_fd_property_decls);
    lemma_fd_property_decl_inside(s);
    match spec_fd_property_decl(a) {
        Ok((rest, _)) => {
            if rest.len() < a.len() {
                lemma_fd_property_decls_inside_at(rest, s);
            }
        },
        Err(_) => {},
    }
}

/// Declarations of properties are read inside the text.
pub proof fn lemma_fd_property_decls_inside(s: Seq<char>)
    ensures
        forall|a: Seq<char>| is_end_of(a, s) ==> left_inside(
            #[trigger] spec_fd_property_decls(a),
            s,
        ),
{
    assert forall|a: Seq<char>| is_end_of(a, s) implies left_inside(
        #[trigger] spec_fd_property_decls(a),
        s,
    ) by {
        lemma_fd_property_decls_inside_at(a, s);
    }
}

/// A specification is read inside the text.
pub proof fn lemma_fd_specification_inside(s: Seq<char>)
    ensures
        forall|a: Seq<char>| is_end_of(a, s) ==> inside(#[trigger] spec_fd_specification(a), s),
{
    lemma_steps_inside(s);
    lemma_tokens_inside(s);
    lemma_fd_property_decls_inside(s);
    assert forall|a: Seq<char>| is_end_of(a, s) implies inside(
        #[trigger] spec_fd_specification(a),
        s,
    ) by {
        reveal(spec_fd_specification);
    }
}

proof fn lemma_fd_specifications_inside_at(a: Seq<char>, s: Seq<char>)
    requires
        is_end_of(a, s),
    ensures
        inside(spec_fd_specifications(a), s),
    decreases a.len(),
{
    reveal(spec_fd_specifications);
    lemma_fd_specification_inside(s);
    match spec_fd_specification(a) {
        Ok((rest, _)) => {
            if rest.len() < a.len() {
                lemma_fd_specifications_inside_at(rest, s);
            }
        },
        Err(_) => {},
    }
}

/// Specifications are read inside the text.
pub proof fn lemma_fd_specifications_inside(s: Seq<char>)
    ensures
        forall|a: Seq<char>| is_end_of(a, s) ==> inside(#[trigger] spec_fd_specifications(a), s),
{
    assert forall|a: Seq<char>| is_end_of(a, s) implies inside(
        #[trigger] spec_fd_specifications(a),
        s,
    ) by {
        lemma_fd_specifications_inside_at(a, s);
    }
}

/// A refinement of the type of a field is read inside the text.
pub proof fn lemma_plain_overwrites_inside(s: Seq<char>)
    ensures
        forall|a: Seq<char>| is_end_of(a, s) ==> inside(#[trigger] spec_plain_overwrites(a), s),
{
    lemma_steps_inside(s);
    lemma_tokens_inside(s);
    lemma_fd_properties_inside(s);
    assert forall|a: Seq<char>| is_end_of(a, s) implies inside(
        #[trigger] spec_plain_overwrites(a),
        s,
    ) by {
        reveal(spec_plain_overwrites);
    }
}

/// The deployment of a field is read inside the text.
pub proof fn lemma_fd_field_inside(s: Seq<char>)
    ensures
        forall|a: Seq<char>| is_end_of(a, s) ==> inside(#[trigger] spec_fd_field(a), s),
{
    lemma_steps_inside(s);
    lemma_tokens_inside(s);
    lemma_fd_properties_inside(s);
    lemma_plain_overwrites_inside(s);
    assert forall|a: Seq<char>| is_end_of(a, s) implies inside(
        #[trigger] spec_fd_field(a),
        s,
    ) by {
        reveal(spec_fd_field);
    }
}

proof fn lemma_fd_fields_inside_at(a: Seq<char>, s: Seq<char>)
    requires
        is_end_of(a, s),
    ensures
        left_inside(spec_fd_fields(a), s),
    decreases a.len(),
{
    reveal(spec_fd_fields);
    lemma_fd_field_inside(s);
    match spec_fd_field(a) {
        Ok((rest, _)) => {
            if rest.len() < a.len() {
                lemma_fd_fields_inside_at(rest, s);
            }
        },
        Err(_) => {},
    }
}

/// Deployments of fields are read inside the text.
pub proof fn lemma_fd_fields_inside(s: Seq<char>)
    ensures
        forall|a: Seq<char>| is_end_of(a, s) ==> left_inside(#[trigger] spec_fd_fields(a), s),
{
    assert forall|a: Seq<char>| is_end_of(a, s) implies left_inside(
        #[trigger] spec_fd_fields(a),
        s,
    ) by {
        lemma_fd_fields_inside_at(a, s);
    }
}

/// The deployment of an enumerator is read inside the text.
pub proof fn lemma_fd_enum_value_inside(s: Seq<char>)
    ensures
        forall|a: Seq<char>| is_end_of(a, s) ==> inside(#[trigger] spec_fd_enum_value(a), s),
{
    lemma_steps_inside(s);
    lemma_tokens_inside(s);
    lemma_fd_properties_inside(s);
    assert forall|a: Seq<char>| is_end_of(a, s) implies inside(
        #[trigger] spec_fd_enum_value(a),
        s,
    ) by {
        reveal(spec_fd_enum_value);
    }
}

proof fn lemma_fd_enum_values_inside_at(a: Seq<char>, s: Seq<char>)
    requires
        is_end_of(a, s),
    ensures
        left_inside(spec_fd_enum_values(a), s),
    decreases a.len(),
{
    reveal(spec_fd_enum_values);
    lemma_fd_enum_value_inside(s);
    match spec_fd_enum_value(a) {
        Ok((rest, _)) => {
            if rest.len() < a.len() {
                lemma_fd_enum_values_inside_at(rest, s);
            }
        },
        Err(_) => {},
    }
}

/// Deployments of enumerators are read inside the text.
pub proof fn lemma_fd_enum_values_inside(s: Seq<char>)
    ensures
        forall|a: Seq<char>| is_end_of(a, s) ==> left_inside(#[trigger] spec_fd_enum_values(a), s),
{
    assert forall|a: Seq<char>| is_end_of(a, s) implies left_inside(
        #[trigger] spec_fd_enum_values(a),
        s,
    ) by {
        lemma_fd_enum_values_inside_at(a, s);
    }
}

/// A refinement of a type is read inside the text.
pub proof fn lemma_type_overwrites_inside(s: Seq<char>)
    ensures
        forall|a: Seq<char>| is_end_of(a, s) ==> inside(#[trigger] spec_type_overwrites(a), s),
{
    lemma_steps_inside(s);
    lemma_tokens_inside(s);
    lemma_fd_properties_inside(s);
    lemma_fd_fields_inside(s);
    lemma_fd_enum_values_inside(s);
    assert forall|a: Seq<char>| is_end_of(a, s) implies inside(
        #[trigger] spec_type_overwrites(a),
        s,
    ) by {
        reveal(spec_type_overwrites);
    }
}

/// The deployment of an attribute is read inside the text.
pub proof fn lemma_fd_attribute_inside(s: Seq<char>)
    ensures
        forall|a: Seq<char>| is_end_of(a, s) ==> inside(#[trigger] spec_fd_attribute(a), s),
{
    lemma_steps_inside(s);
    lemma_tokens_inside(s);
    lemma_fd_properties_inside(s);
    lemma_type_overwrites_inside(s);
    assert forall|a: Seq<char>| is_end_of(a, s) implies inside(
        #[trigger] spec_fd_attribute(a),
        s,
    ) by {
        reveal(spec_fd_attribute);
    }
}

/// The deployment of an argument is read inside the text.
pub proof fn lemma_fd_argument_inside(s: Seq<char>)
    ensures
        forall|a: Seq<char>| is_end_of(a, s) ==> inside(#[trigger] spec_fd_argument(a), s),
{
    lemma_steps_inside(s);
    lemma_tokens_inside(s);
    lemma_fd_properties_inside(s);
    lemma_type_overwrites_inside(s);
    assert forall|a: Seq<char>| is_end_of(a, s) implies inside(
        #[trigger] spec_fd_argument(a),
        s,
    ) by {
        reveal(spec_fd_argument);
    }
}

proof fn lemma_fd_arguments_inside_at(a: Seq<char>, s: Seq<char>)
    requires
        is_end_of(a, s),
    ensures
        left_inside(spec_fd_arguments(a), s),
    decreases a.len(),
{
    reveal(spec_fd_arguments);
    lemma_fd_argument_inside(s);
    match spec_fd_argument(a) {
        Ok((rest, _)) => {
            if rest.len() < a.len() {
                lemma_fd_arguments_inside_at(rest, s);
            }
        },
        Err(_) => {},
    }
}

/// Deployments of arguments are read inside the text.
pub proof fn lemma_fd_arguments_inside(s: Seq<char>)
    ensures
        forall|a: Seq<char>| is_end_of(a, s) ==> left_inside(#[trigger] spec_fd_arguments(a), s),
{
    assert forall|a: Seq<char>| is_end_of(a, s) implies left_inside(
        #[trigger] spec_fd_arguments(a),
        s,
    ) by {
        lemma_fd_arguments_inside_at(a, s);
    }
}

/// The deployment of a method is read inside the text.
pub proof fn lemma_fd_method_inside(s: Seq<char>)
    ensures
        forall|a: Seq<char>| is_end_of(a, s) ==> inside(#[trigger] spec_fd_method(a), s),
{
    lemma_steps_inside(s);
    lemma_tokens_inside(s);
    lemma_fd_properties_inside(s);
    lemma_fd_arguments_inside(s);
    assert forall|a: Seq<char>| is_end_of(a, s) implies inside(
        #[trigger] spec_fd_method(a),
        s,
    ) by {
        reveal(spec_fd_method);
    }
}

/// The deployment of a broadcast is read inside the text.
pub proof fn lemma_fd_broadcast_inside(s: Seq<char>)
    ensures
        forall|a: Seq<char>| is_end_of(a, s) ==> inside(#[trigger] spec_fd_broadcast(a), s),
{
    lemma_steps_inside(s);
    lemma_tokens_inside(s);
    lemma_fd_properties_inside(s);
    lemma_fd_arguments_inside(s);
    assert forall|a: Seq<char>| is_end_of(a, s) implies inside(
        #[trigger] spec_fd_broadcast(a),
        s,
    ) by {
        reveal(spec_fd_broadcast);
    }
}

/// The deployment of a named array is read inside the text.
pub proof fn lemma_fd_array_inside(s: Seq<char>)
    ensures
        forall|a: Seq<char>| is_end_of(a, s) ==> inside(#[trigger] spec_fd_array(a), s),
{
    lemma_steps_inside(s);
    lemma_tokens_inside(s);
    lemma_fd_properties_inside(s);
    lemma_type_overwrites_inside(s);
    assert forall|a: Seq<char>| is_end_of(a, s) implies inside(
        #[trigger] spec_fd_array(a),
        s,
    ) by {
        reveal(spec_fd_array);
    }
}

/// The deployment of a struct is read inside the text.
pub proof fn lemma_fd_struct_inside(s: Seq<char>)
    ensures
        forall|a: Seq<char>| is_end_of(a, s) ==> inside(#[trigger] spec_fd_struct(a), s),
{
    lemma_steps_inside(s);
    lemma_tokens_inside(s);
    lemma_fd_properties_inside(s);
    lemma_fd_fields_inside(s);
    assert forall|a: Seq<char>| is_end_of(a, s) implies inside(
        #[trigger] spec_fd_struct(a),
        s,
    ) by {
        reveal(spec_fd_struct);
    }
}

/// The deployment of a union is read inside the text.
pub proof fn lemma_fd_union_inside(s: Seq<char>)
    ensures
        forall|a: Seq<char>| is_end_of(a, s) ==> inside(#[trigger] spec_fd_union(a), s),
{
    lemma_steps_inside(s);
    lemma_tokens_inside(s);
    lemma_fd_properties_inside(s);
    lemma_fd_fields_inside(s);
    assert forall|a: Seq<char>| is_end_of(a, s) implies inside(
        #[trigger] spec_fd_union(a),
        s,
    ) by {
        reveal(spec_fd_union);
    }
}

/// The deployment of an enumeration is read inside the text.
pub proof fn lemma_fd_enumeration_inside(s: Seq<char>)
    ensures
        forall|a: Seq<char>| is_end_of(a, s) ==> inside(#[trigger] spec_fd_enumeration(a), s),
{
    lemma_steps_inside(s);
    lemma_tokens_inside(s);
    lemma_fd_properties_inside(s);
    lemma_fd_enum_values_inside(s);
    assert forall|a: Seq<char>| is_end_of(a, s) implies inside(
        #[trigger] spec_fd_enumeration(a),
        s,
    ) by {
        reveal(spec_fd_enumeration);
    }
}

/// The deployment of a type alias is read inside the text.
pub proof fn lemma_fd_type_def_inside(s: Seq<char>)
    ensures
        forall|a: Seq<char>| is_end_of(a, s) ==> inside(#[trigger] spec_fd_type_def(a), s),
{
    lemma_steps_inside(s);
    lemma_tokens_inside(s);
    lemma_fd_properties_inside(s);
    assert forall|a: Seq<char>| is_end_of(a, s) implies inside(
        #[trigger] spec_fd_type_def(a),
        s,
    ) by {
        reveal(spec_fd_type_def);
    }
}

/// The deployment of a named map is read inside the text.
pub proof fn lemma_fd_map_inside(s: Seq<char>)
    ensures
        forall|a: Seq<char>| is_end_of(a, s) ==> inside(#[trigger] spec_fd_map(a), s),
{
    lemma_steps_inside(s);
    lemma_tokens_inside(s);
    lemma_fd_properties_inside(s);
    assert forall|a: Seq<char>| is_end_of(a, s) implies inside(
        #[trigger] spec_fd_map(a),
        s,
    ) by {
        reveal(spec_fd_map);
    }
}

/// An element of a deployment is read inside the text.
pub proof fn lemma_fd_element_inside(s: Seq<char>)
    ensures
        forall|a: Seq<char>| is_end_of(a, s) ==> inside(#[trigger] spec_fd_element(a), s),
{
    lemma_fd_attribute_inside(s);
    lemma_fd_method_inside(s);
    lemma_fd_broadcast_inside(s);
    lemma_fd_array_inside(s);
    lemma_fd_struct_inside(s);
    lemma_fd_union_inside(s);
    lemma_fd_enumeration_inside(s);
    lemma_fd_type_def_inside(s);
    lemma_fd_map_inside(s);
    assert forall|a: Seq<char>| is_end_of(a, s) implies inside(
        #[trigger] spec_fd_element(a),
        s,
    ) by {
        reveal(spec_fd_element);
    }
}

proof fn lemma_fd_elements_inside_at(a: Seq<char>, s: Seq<char>)
    requires
        is_end_of(a, s),
    ensures
        inside(spec_fd_elements(a), s),
    decreases a.len(),
{
    reveal(spec_fd_elements);
    lemma_fd_element_inside(s);
    match spec_fd_element(a) {
        Ok((rest, _)) => {
            if rest.len() < a.len() {
                lemma_fd_elements_inside_at(rest, s);
            }
        },
        Err(_) => {},
    }
}

/// Elements of a deployment are read inside the text.
pub proof fn lemma_fd_elements_inside(s: Seq<char>)
    ensures
        forall|a: Seq<char>| is_end_of(a, s) ==> inside(#[trigger] spec_fd_elements(a), s),
{
    assert forall|a: Seq<char>| is_end_of(a, s) implies inside(
        #[trigger] spec_fd_elements(a),
        s,
    ) by {
        lemma_fd_elements_inside_at(a, s);
    }
}

proof fn lemma_extension_inside_at(a: Seq<char>, depth: nat, s: Seq<char>)
    requires
        is_end_of(a, s),
    ensures
        inside(spec_fd_extension_element_within(a, depth), s),
    decreases depth, a.len(), 0nat,
{
    lemma_steps_inside(s);
    lemma_tokens_inside(s);
    lemma_fd_properties_inside(s);
    match spec_id(spec_ws0(a)) {
        Err(_) => {},
        Ok((s1, _)) => match Cursor::At(s1).sp1() {
            Cursor::Failed(_) => {},
            Cursor::At(s2) => match spec_fqn(s2) {
                Err(_) => {},
                Ok((s3, _)) => match Cursor::At(s3).ws0().ch('{') {
                    Cursor::Failed(_) => {},
                    Cursor::At(s4) => {
                        if depth > 0 {
                            let s5 = spec_property_set(s4).0;
                            assert(is_end_of(s5, s));
                            lemma_extensions_inside_at(s5, (depth - 1) as nat, s);
                        }
                    },
                },
            },
        },
    }
}

proof fn lemma_extensions_inside_at(a: Seq<char>, depth: nat, s: Seq<char>)
    requires
        is_end_of(a, s),
    ensures
        inside(spec_fd_extension_elements(a, depth), s),
    decreases depth, a.len(), 1nat,
{
    if spec_starts_extension(a) {
        lemma_extension_inside_at(a, depth, s);
        match spec_fd_extension_element_within(a, depth) {
            Ok((rest, _)) => {
                if rest.len() < a.len() {
                    lemma_extensions_inside_at(rest, depth, s);
                }
            },
            Err(_) => {},
        }
    }
}

/// Extension elements are read inside the text.
pub proof fn lemma_fd_extension_elements_inside(s: Seq<char>)
    ensures
        forall|a: Seq<char>, depth: nat|
            is_end_of(a, s) ==> inside(#[trigger] spec_fd_extension_elements(a, depth), s),
        forall|a: Seq<char>, depth: nat|
            is_end_of(a, s) ==> inside(#[trigger] spec_fd_extension_element_within(a, depth), s),
{
    assert forall|a: Seq<char>, depth: nat| is_end_of(a, s) implies inside(
        #[trigger] spec_fd_extension_elements(a, depth),
        s,
    ) by {
        lemma_extensions_inside_at(a, depth, s);
    }
    assert forall|a: Seq<char>, depth: nat| is_end_of(a, s) implies inside(
        #[trigger] spec_fd_extension_element_within(a, depth),
        s,
    ) by {
        lemma_extension_inside_at(a, depth, s);
    }
}

/// A deployment is read inside the text.
pub proof fn lemma_fd_root_element_inside(s: Seq<char>)
    ensures
        forall|a: Seq<char>| is_end_of(a, s) ==> inside(#[trigger] spec_fd_root_element(a), s),
{
    lemma_fd_extension_elements_inside(s);
    lemma_steps_inside(s);
    lemma_tokens_inside(s);
    lemma_fd_properties_inside(s);
    lemma_fd_elements_inside(s);
    assert forall|a: Seq<char>| is_end_of(a, s) implies inside(
        #[trigger] spec_fd_root_element(a),
        s,
    ) by {
        reveal(spec_fd_root_element);
    }
}

proof fn lemma_fd_root_elements_inside_at(a: Seq<char>, s: Seq<char>)
    requires
        is_end_of(a, s),
    ensures
        inside(spec_fd_root_elements(a), s),
    decreases a.len(),
{
    reveal(spec_fd_root_elements);
    lemma_fd_root_element_inside(s);
    match spec_fd_root_element(a) {
        Ok((rest, _)) => {
            if rest.len() < a.len() {
                lemma_fd_root_elements_inside_at(rest, s);
            }
        },
        Err(_) => {},
    }
}

/// Deployments are read inside the text.
pub proof fn lemma_fd_root_elements_inside(s: Seq<char>)
    ensures
        forall|a: Seq<char>| is_end_of(a, s) ==> inside(#[trigger] spec_fd_root_elements(a), s),
{
    assert forall|a: Seq<char>| is_end_of(a, s) implies inside(
        #[trigger] spec_fd_root_elements(a),
        s,
    ) by {
        lemma_fd_root_elements_inside_at(a, s);
    }
}

proof fn lemma_fd_imports_inside_at(a: Seq<char>, s: Seq<char>)
    requires
        is_end_of(a, s),
    ensures
        left_inside(spec_imports(a), s),
    decreases a.len(),
{
    reveal(spec_imports);
    lemma_import_inside(s);
    match spec_import(a) {
        Ok((rest, _)) => {
            if rest.len() < a.len() {
                lemma_fd_imports_inside_at(rest, s);
            }
        },
        Err(_) => {},
    }
}

/// Imports of a deployment model are read inside the text.
pub proof fn lemma_fd_imports_inside(s: Seq<char>)
    ensures
        forall|a: Seq<char>| is_end_of(a, s) ==> left_inside(#[trigger] spec_imports(a), s),
{
    assert forall|a: Seq<char>| is_end_of(a, s) implies left_inside(
        #[trigger] spec_imports(a),
        s,
    ) by {
        lemma_fd_imports_inside_at(a, s);
    }
}

/// A deployment model is read inside the text.
pub proof fn lemma_fd_model_inside(s: Seq<char>)
    ensures
        forall|a: Seq<char>| is_end_of(a, s) ==> inside(#[trigger] spec_fd_model(a), s),
{
    lemma_package_inside(s);
    lemma_fd_imports_inside(s);
    lemma_fd_specifications_inside(s);
    lemma_fd_root_elements_inside(s);
    assert forall|a: Seq<char>| is_end_of(a, s) implies inside(
        #[trigger] spec_fd_model(a),
        s,
    ) by {
        reveal(spec_fd_model);
    }
}

/// Whatever a text holds, what is left of it behind the deployment model
/// that is read, and the place at which reading it fails, is an end of the
/// text.
pub proof fn law_deployment_is_read_inside(text: Seq<char>)
    ensures
        inside(spec_fd_model(text), text),
{
    lemma_whole_is_end(text);
    lemma_fd_model_inside(text);
}

/// Whether the report `d` of the text `text` of a deployment model is what
/// such a report can be: a syntax error that points into the text, or the
/// report that the limit of nesting is exceeded, with the limit as the
/// depth.
pub open spec fn points_or_limits(d: DiagnosticView, text: Seq<char>) -> bool {
    points_into(d, text) || d == (DiagnosticView::RecursionLimitExceeded {
        depth: DEFAULT_MAX_NESTING as nat,
    })
}

/// The report of a failure inside the text of a deployment model points
/// into the text, or is that the limit of nesting is exceeded.
pub proof fn lemma_fd_report_points(e: SyntaxErrorView, text: Seq<char>)
    requires
        is_end_of(e.input, text),
    ensures
        points_or_limits(spec_fd_diagnostic(e, text.len()), text),
        e.expected != Expected::Nesting ==> points_or_limits(
            spec_syntax_diagnostic(e, text.len()),
            text,
        ),
{
    lemma_report_points(e, text);
}

proof fn lemma_fd_resync_inside_at(a: Seq<char>, s: Seq<char>)
    requires
        is_end_of(a, s),
    ensures
        is_end_of(spec_fd_resync(a), s),
    decreases a.len(),
{
    lemma_steps_inside(s);
    let s0 = spec_ws0(a);
    if !(s0.len() == 0 || spec_starts_keyword(Keyword::Specification, s0) || spec_starts_keyword(
        Keyword::Define,
        s0,
    )) && spec_skip_token(s0).len() < a.len() {
        lemma_fd_resync_inside_at(spec_skip_token(s0), s);
    }
}

proof fn lemma_fd_scan_points(a: Seq<char>, text: Seq<char>)
    requires
        is_end_of(a, text),
    ensures
        forall|i: int|
            0 <= i < spec_fd_scan(a, text.len()).len() ==> points_or_limits(
                #[trigger] spec_fd_scan(a, text.len())[i],
                text,
            ),
    decreases a.len(),
{
    lemma_steps_inside(text);
    lemma_fd_specification_inside(text);
    lemma_fd_root_element_inside(text);
    let s0 = spec_ws0(a);
    if s0.len() > 0 {
        let step = spec_fd_scan_step(s0);
        match step.1 {
            Some(e) => {
                assert(is_end_of(e.input, text));
                lemma_fd_report_points(e, text);
                if e.input.len() < s0.len() {
                    lemma_fd_resync_inside_at(e.input, text);
                } else {
                    lemma_fd_resync_inside_at(spec_skip_token(s0), text);
                }
            },
            None => {},
        }
        assert(is_end_of(step.0, text));
        let all = spec_fd_scan(a, text.len());
        let report = spec_fd_step_report(step.1, text.len());
        if step.0.len() < a.len() {
            lemma_fd_scan_points(step.0, text);
            let tail = spec_fd_scan(step.0, text.len());
            assert forall|i: int| 0 <= i < all.len() implies points_or_limits(
                #[trigger] all[i],
                text,
            ) by {
                if i < report.len() {
                    assert(all[i] == report[i]);
                } else {
                    assert(all[i] == tail[i - report.len()]);
                }
            }
        } else {
            assert(all == report);
        }
    }
}

/// Everything that is reported of the text of a deployment model is a
/// syntax error that points into the text, or the report that the limit of
/// nesting is exceeded.
pub proof fn law_deployment_reports_point_into_the_text(text: Seq<char>)
    ensures
        forall|i: int|
            0 <= i < spec_fd_syntax_diagnostics(text).len() ==> points_or_limits(
                #[trigger] spec_fd_syntax_diagnostics(text)[i],
                text,
            ),
{
    lemma_whole_is_end(text);
    lemma_steps_inside(text);
    lemma_package_inside(text);
    lemma_fd_imports_inside(text);
    match spec_package(text) {
        Err(e) => {
            lemma_fd_report_points(e, text);
            let from = if e.input.len() < text.len() {
                e.input
            } else {
                spec_skip_token(text)
            };
            lemma_fd_resync_inside_at(from, text);
            lemma_fd_scan_points(spec_fd_resync(from), text);
            let all = spec_fd_syntax_diagnostics(text);
            let tail = spec_fd_scan(spec_fd_resync(from), text.len());
            assert forall|i: int| 0 <= i < all.len() implies points_or_limits(
                #[trigger] all[i],
                text,
            ) by {
                if i > 0 {
                    assert(all[i] == tail[i - 1]);
                }
            }
        },
        Ok((s1, _)) => {
            lemma_fd_scan_points(spec_imports(s1).0, text);
        },
    }
}

/// Where a text is not read as a deployment model, everything that is
/// reported of it is a syntax error that points into the text, or the
/// report that the limit of nesting is exceeded.
pub proof fn law_parse_deployment_reports_point(text: Seq<char>)
    ensures
        match spec_parse_deployment(text) {
            Ok(_) => true,
            Err(found) => found.len() > 0 && forall|i: int|
                0 <= i < found.len() ==> points_or_limits(#[trigger] found[i], text),
        },
{
    law_deployment_reports_point_into_the_text(text);
    law_deployment_is_read_inside(text);
    lemma_steps_inside(text);
    match spec_fd_model(text) {
        Ok((rest, _)) => {
            lemma_fd_report_points(
                crate::lexer::SyntaxErrorView {
                    input: spec_ws0(rest),
                    expected: crate::lexer::Expected::Declaration,
                },
                text,
            );
        },
        Err(e) => {
            lemma_fd_report_points(e, text);
        },
    }
}

} // verus!
