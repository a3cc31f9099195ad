//! A front end for an interface definition language. It reads the text of a
//! core model (a package with its interfaces, methods, broadcasts,
//! attributes and types) and of a deployment model, which lays properties
//! over the declarations of a core model, and it validates what it has read.
//! Source text goes in; a model or diagnostics come out.
//!
//! The grammar is built from the bottom up: [`scan`] holds the scanning
//! functions that everything rests on, [`lexer`] the tokens, [`types`],
//! [`decl`], [`typedefs`], [`interface`] and [`model`] the productions of
//! the core language, and [`deploy`] and [`extension`] those of the
//! deployment language. Each production is a function on text with a
//! grammar beside it that says what it reads, what it leaves, and where it
//! fails.
//!
//! [`ast`] and [`deployment`] hold the two models, [`syntax`] and
//! [`fd_syntax`] find every syntax error of a text in one pass,
//! [`validate`] and [`overlay`] check a core model and a deployment model,
//! [`link`] puts several models together, and [`api`] is the way in.
//! [`inside`], [`fd_inside`] and [`clean`] hold what is proved of the
//! grammar as a whole.

pub mod api;
pub mod ast;
pub mod chars;
pub mod clean;
pub mod decl;
pub mod deploy;
pub mod deployment;
pub mod diag;
pub mod extension;
pub mod fd_inside;
pub mod fd_syntax;
pub mod inside;
pub mod interface;
pub mod lexer;
pub mod link;
pub mod model;
pub mod names;
pub mod overlay;
pub mod scan;
pub mod syntax;
pub mod typedefs;
pub mod types;
pub mod validate;

pub use api::{parse_deployment, parse_model, parse_model_within, DEFAULT_MAX_DEPTH};
pub use ast::{
    FAnnotation, FAnnotationBlock, FAnnotationType, FArgument, FArrayType, FAttribute,
    FBasicTypeId, FBroadcast, FCompoundType, FEnumerationType, FEnumerator, FField, FInterface,
    FMapType, FMember, FMethod, FModel, FModelItem, FStructType, FType, FTypeCollection, FTypeDef,
    FTypeRef, FUnionType, FVersion, Import,
};
pub use chars::CharClass;
pub use decl::{f_argument, f_field, f_version};
pub use diag::{Diagnostic, FdValueKind};
pub use interface::{
    f_attribute, f_broadcast, f_interface, f_member, f_method, f_method_in_args,
    f_method_out_args, f_type_collection,
};
pub use lexer::{brc_close, brc_open, e_string, fqn, Expected, Keyword, SyntaxError};
pub use link::{link, link_within, LinkedModel};
pub use model::{f_model, f_model_item, import, import_uri, imported_namespace};
pub use names::enumerator_values;
pub use overlay::validate_deployment;
pub use syntax::syntax_diagnostics;
pub use typedefs::{
    f_array_type, f_enumeration_type, f_enumerator, f_map_type, f_struct_type, f_type,
    f_type_def, f_union_type,
};
pub use types::{f_basic_type_id, f_type_ref};
pub use validate::{validate, TypeEntry, TypeKind};
