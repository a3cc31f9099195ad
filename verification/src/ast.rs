//! The core model: what a package declares, as the grammar reads it. Every
//! relation between declarations (a base, a referenced type) is a name, which
//! validation resolves; no declaration owns another one that it refers to.

use vstd::prelude::*;

verus! {

/// The predefined types.
#[derive(Debug, Clone, Copy, PartialEq, Eq)]
pub enum FBasicTypeId {
    Undefined,
    UInt8,
    Int8,
    UInt16,
    Int16,
    UInt32,
    Int32,
    UInt64,
    Int64,
    Integer,
    Boolean,
    Float,
    Double,
    String,
    ByteBuffer,
}

impl DeepView for FBasicTypeId {
    type V = FBasicTypeId;

    open spec fn deep_view(&self) -> FBasicTypeId {
        *self
    }
}

/// The kinds of annotation.
#[derive(Debug, Clone, Copy, PartialEq, Eq)]
pub enum FAnnotationType {
    Description,
    Author,
    Experimental,
    Deprecated,
    See,
    Param,
    HighVolume,
    HighFrequency,
    SourceUri,
    SourceAlias,
    Details,
}

impl DeepView for FAnnotationType {
    type V = FAnnotationType;

    open spec fn deep_view(&self) -> FAnnotationType {
        *self
    }
}

/// One annotation: its kind, where the tag names a known one, and its text.
#[derive(Debug, Clone, PartialEq, Eq)]
pub struct FAnnotation {
    pub kind: Option<FAnnotationType>,
    pub comment: Option<String>,
}

/// The mathematical value of [`FAnnotation`].
pub ghost struct FAnnotationView {
    pub kind: Option<FAnnotationType>,
    pub comment: Option<Seq<char>>,
}

impl DeepView for FAnnotation {
    type V = FAnnotationView;

    open spec fn deep_view(&self) -> FAnnotationView {
        FAnnotationView {
            kind: self.kind.deep_view(),
            comment: self.comment.deep_view(),
        }
    }
}

/// The annotations in front of a declaration, in the order written.
#[derive(Debug, Clone, PartialEq, Eq)]
pub struct FAnnotationBlock {
    pub elements: Vec<FAnnotation>,
}

/// The mathematical value of [`FAnnotationBlock`].
pub ghost struct FAnnotationBlockView {
    pub elements: Seq<FAnnotationView>,
}

impl DeepView for FAnnotationBlock {
    type V = FAnnotationBlockView;

    open spec fn deep_view(&self) -> FAnnotationBlockView {
        FAnnotationBlockView {
            elements: self.elements.deep_view(),
        }
    }
}

/// The version of an interface or of a type collection.
#[derive(Debug, Copy, Clone, PartialEq, Eq)]
pub struct FVersion {
    pub major: u16,
    pub minor: u16,
}

impl DeepView for FVersion {
    type V = FVersion;

    open spec fn deep_view(&self) -> FVersion {
        *self
    }
}

/// A reference to a type: a predefined type, or the name of a type that is
/// defined elsewhere. Exactly one of the two is present.
#[derive(Debug, Clone, PartialEq, Eq)]
pub struct FTypeRef {
    pub predefined: Option<FBasicTypeId>,
    pub derived: Option<String>,
}

/// The mathematical value of [`FTypeRef`].
pub ghost struct FTypeRefView {
    pub predefined: Option<FBasicTypeId>,
    pub derived: Option<Seq<char>>,
}

impl DeepView for FTypeRef {
    type V = FTypeRefView;

    open spec fn deep_view(&self) -> FTypeRefView {
        FTypeRefView {
            predefined: self.predefined.deep_view(),
            derived: self.derived.deep_view(),
        }
    }
}

impl FTypeRefView {
    /// Exactly one of the two forms is present, and a name is not empty.
    pub open spec fn well_formed(self) -> bool {
        match (self.predefined, self.derived) {
            (Some(_), None) => true,
            (None, Some(name)) => name.len() > 0,
            _ => false,
        }
    }
}

/// An argument of a method or of a broadcast.
#[derive(Debug, Clone, PartialEq, Eq)]
pub struct FArgument {
    pub name: String,
    pub comment: Option<FAnnotationBlock>,
    pub type_ref: FTypeRef,
    /// The array marker, where the declaration carries one.
    pub array: Option<String>,
}

/// The mathematical value of [`FArgument`].
pub ghost struct FArgumentView {
    pub name: Seq<char>,
    pub comment: Option<FAnnotationBlockView>,
    pub type_ref: FTypeRefView,
    pub array: Option<Seq<char>>,
}

impl DeepView for FArgument {
    type V = FArgumentView;

    open spec fn deep_view(&self) -> FArgumentView {
        FArgumentView {
            name: self.name.deep_view(),
            comment: self.comment.deep_view(),
            type_ref: self.type_ref.deep_view(),
            array: self.array.deep_view(),
        }
    }
}

/// A field of a struct or of a union.
#[derive(Debug, Clone, PartialEq, Eq)]
pub struct FField {
    pub name: String,
    pub comment: Option<FAnnotationBlock>,
    pub type_ref: FTypeRef,
    /// The array marker, where the declaration carries one.
    pub array: Option<String>,
}

/// The mathematical value of [`FField`].
pub ghost struct FFieldView {
    pub name: Seq<char>,
    pub comment: Option<FAnnotationBlockView>,
    pub type_ref: FTypeRefView,
    pub array: Option<Seq<char>>,
}

impl DeepView for FField {
    type V = FFieldView;

    open spec fn deep_view(&self) -> FFieldView {
        FFieldView {
            name: self.name.deep_view(),
            comment: self.comment.deep_view(),
            type_ref: self.type_ref.deep_view(),
            array: self.array.deep_view(),
        }
    }
}

/// An attribute of an interface.
#[derive(Debug, Clone, PartialEq, Eq)]
pub struct FAttribute {
    pub name: String,
    pub comment: Option<FAnnotationBlock>,
    pub type_ref: FTypeRef,
    /// The array marker, where the declaration carries one.
    pub array: Option<String>,
    pub readonly: Option<bool>,
    pub no_subscriptions: Option<bool>,
}

/// The mathematical value of [`FAttribute`].
pub ghost struct FAttributeView {
    pub name: Seq<char>,
    pub comment: Option<FAnnotationBlockView>,
    pub type_ref: FTypeRefView,
    pub array: Option<Seq<char>>,
    pub readonly: Option<bool>,
    pub no_subscriptions: Option<bool>,
}

impl DeepView for FAttribute {
    type V = FAttributeView;

    open spec fn deep_view(&self) -> FAttributeView {
        FAttributeView {
            name: self.name.deep_view(),
            comment: self.comment.deep_view(),
            type_ref: self.type_ref.deep_view(),
            array: self.array.deep_view(),
            readonly: self.readonly.deep_view(),
            no_subscriptions: self.no_subscriptions.deep_view(),
        }
    }
}

/// One enumerator, with the value that was written for it, if any.
#[derive(Debug, Clone, PartialEq, Eq)]
pub struct FEnumerator {
    pub name: String,
    pub comment: Option<FAnnotationBlock>,
    pub value: Option<i32>,
}

/// The mathematical value of [`FEnumerator`].
pub ghost struct FEnumeratorView {
    pub name: Seq<char>,
    pub comment: Option<FAnnotationBlockView>,
    pub value: Option<i32>,
}

impl DeepView for FEnumerator {
    type V = FEnumeratorView;

    open spec fn deep_view(&self) -> FEnumeratorView {
        FEnumeratorView {
            name: self.name.deep_view(),
            comment: self.comment.deep_view(),
            value: self.value.deep_view(),
        }
    }
}

/// An enumeration. Its base, if any, is the name of another enumeration.
#[derive(Debug, Clone, PartialEq, Eq)]
pub struct FEnumerationType {
    pub name: String,
    pub comment: Option<FAnnotationBlock>,
    pub enumerators: Vec<FEnumerator>,
    pub base: Option<String>,
}

/// The mathematical value of [`FEnumerationType`].
pub ghost struct FEnumerationTypeView {
    pub name: Seq<char>,
    pub comment: Option<FAnnotationBlockView>,
    pub enumerators: Seq<FEnumeratorView>,
    pub base: Option<Seq<char>>,
}

impl DeepView for FEnumerationType {
    type V = FEnumerationTypeView;

    open spec fn deep_view(&self) -> FEnumerationTypeView {
        FEnumerationTypeView {
            name: self.name.deep_view(),
            comment: self.comment.deep_view(),
            enumerators: self.enumerators.deep_view(),
            base: self.base.deep_view(),
        }
    }
}

/// Another name for a type.
#[derive(Debug, Clone, PartialEq, Eq)]
pub struct FTypeDef {
    pub name: String,
    pub comment: Option<FAnnotationBlock>,
    pub actual_type: FTypeRef,
}

/// The mathematical value of [`FTypeDef`].
pub ghost struct FTypeDefView {
    pub name: Seq<char>,
    pub comment: Option<FAnnotationBlockView>,
    pub actual_type: FTypeRefView,
}

impl DeepView for FTypeDef {
    type V = FTypeDefView;

    open spec fn deep_view(&self) -> FTypeDefView {
        FTypeDefView {
            name: self.name.deep_view(),
            comment: self.comment.deep_view(),
            actual_type: self.actual_type.deep_view(),
        }
    }
}

/// What a struct and a union have in common.
#[derive(Debug, Clone, PartialEq, Eq)]
pub struct FCompoundType {
    pub name: String,
    pub comment: Option<FAnnotationBlock>,
    pub elements: Vec<FField>,
}

/// The mathematical value of [`FCompoundType`].
pub ghost struct FCompoundTypeView {
    pub name: Seq<char>,
    pub comment: Option<FAnnotationBlockView>,
    pub elements: Seq<FFieldView>,
}

impl DeepView for FCompoundType {
    type V = FCompoundTypeView;

    open spec fn deep_view(&self) -> FCompoundTypeView {
        FCompoundTypeView {
            name: self.name.deep_view(),
            comment: self.comment.deep_view(),
            elements: self.elements.deep_view(),
        }
    }
}

/// A union. Its base, if any, is the name of another union.
#[derive(Debug, Clone, PartialEq, Eq)]
pub struct FUnionType {
    pub name: String,
    pub comment: Option<FAnnotationBlock>,
    pub elements: Vec<FField>,
    pub base: Option<String>,
}

/// The mathematical value of [`FUnionType`].
pub ghost struct FUnionTypeView {
    pub name: Seq<char>,
    pub comment: Option<FAnnotationBlockView>,
    pub elements: Seq<FFieldView>,
    pub base: Option<Seq<char>>,
}

impl DeepView for FUnionType {
    type V = FUnionTypeView;

    open spec fn deep_view(&self) -> FUnionTypeView {
        FUnionTypeView {
            name: self.name.deep_view(),
            comment: self.comment.deep_view(),
            elements: self.elements.deep_view(),
            base: self.base.deep_view(),
        }
    }
}

/// A struct. Its base, if any, is the name of another struct.
#[derive(Debug, Clone, PartialEq, Eq)]
pub struct FStructType {
    pub name: String,
    pub comment: Option<FAnnotationBlock>,
    pub elements: Vec<FField>,
    pub base: Option<String>,
    pub polymorphic: Option<bool>,
}

/// The mathematical value of [`FStructType`].
pub ghost struct FStructTypeView {
    pub name: Seq<char>,
    pub comment: Option<FAnnotationBlockView>,
    pub elements: Seq<FFieldView>,
    pub base: Option<Seq<char>>,
    pub polymorphic: Option<bool>,
}

impl DeepView for FStructType {
    type V = FStructTypeView;

    open spec fn deep_view(&self) -> FStructTypeView {
        FStructTypeView {
            name: self.name.deep_view(),
            comment: self.comment.deep_view(),
            elements: self.elements.deep_view(),
            base: self.base.deep_view(),
            polymorphic: self.polymorphic.deep_view(),
        }
    }
}

/// A named array type.
#[derive(Debug, Clone, PartialEq, Eq)]
pub struct FArrayType {
    pub name: String,
    pub comment: Option<FAnnotationBlock>,
    pub element_type: FTypeRef,
}

/// The mathematical value of [`FArrayType`].
pub ghost struct FArrayTypeView {
    pub name: Seq<char>,
    pub comment: Option<FAnnotationBlockView>,
    pub element_type: FTypeRefView,
}

impl DeepView for FArrayType {
    type V = FArrayTypeView;

    open spec fn deep_view(&self) -> FArrayTypeView {
        FArrayTypeView {
            name: self.name.deep_view(),
            comment: self.comment.deep_view(),
            element_type: self.element_type.deep_view(),
        }
    }
}

/// A named map type.
#[derive(Debug, Clone, PartialEq, Eq)]
pub struct FMapType {
    pub name: String,
    pub comment: Option<FAnnotationBlock>,
    pub key_type: FTypeRef,
    pub value_type: FTypeRef,
}

/// The mathematical value of [`FMapType`].
pub ghost struct FMapTypeView {
    pub name: Seq<char>,
    pub comment: Option<FAnnotationBlockView>,
    pub key_type: FTypeRefView,
    pub value_type: FTypeRefView,
}

impl DeepView for FMapType {
    type V = FMapTypeView;

    open spec fn deep_view(&self) -> FMapTypeView {
        FMapTypeView {
            name: self.name.deep_view(),
            comment: self.comment.deep_view(),
            key_type: self.key_type.deep_view(),
            value_type: self.value_type.deep_view(),
        }
    }
}

/// A type definition.
#[derive(Debug, Clone, PartialEq, Eq)]
pub enum FType {
    StructType(FStructType),
    UnionType(FUnionType),
    EnumerationType(FEnumerationType),
    ArrayType(FArrayType),
    MapType(FMapType),
    TypeDef(FTypeDef),
}

/// The mathematical value of [`FType`].
pub ghost enum FTypeView {
    StructType(FStructTypeView),
    UnionType(FUnionTypeView),
    EnumerationType(FEnumerationTypeView),
    ArrayType(FArrayTypeView),
    MapType(FMapTypeView),
    TypeDef(FTypeDefView),
}

impl DeepView for FType {
    type V = FTypeView;

    open spec fn deep_view(&self) -> FTypeView {
        match self {
            FType::StructType(x) => FTypeView::StructType(x.deep_view()),
            FType::UnionType(x) => FTypeView::UnionType(x.deep_view()),
            FType::EnumerationType(x) => FTypeView::EnumerationType(x.deep_view()),
            FType::ArrayType(x) => FTypeView::ArrayType(x.deep_view()),
            FType::MapType(x) => FTypeView::MapType(x.deep_view()),
            FType::TypeDef(x) => FTypeView::TypeDef(x.deep_view()),
        }
    }
}

/// A method. Its errors are the name of an enumeration or an enumeration
/// written in place.
#[derive(Debug, Clone, PartialEq, Eq)]
pub struct FMethod {
    pub name: String,
    pub comment: Option<FAnnotationBlock>,
    pub fire_and_forget: Option<String>,
    pub in_args: Vec<FArgument>,
    pub out_args: Vec<FArgument>,
    pub error_enum: Option<String>,
    pub errors: Option<FEnumerationType>,
}

/// The mathematical value of [`FMethod`].
pub ghost struct FMethodView {
    pub name: Seq<char>,
    pub comment: Option<FAnnotationBlockView>,
    pub fire_and_forget: Option<Seq<char>>,
    pub in_args: Seq<FArgumentView>,
    pub out_args: Seq<FArgumentView>,
    pub error_enum: Option<Seq<char>>,
    pub errors: Option<FEnumerationTypeView>,
}

impl DeepView for FMethod {
    type V = FMethodView;

    open spec fn deep_view(&self) -> FMethodView {
        FMethodView {
            name: self.name.deep_view(),
            comment: self.comment.deep_view(),
            fire_and_forget: self.fire_and_forget.deep_view(),
            in_args: self.in_args.deep_view(),
            out_args: self.out_args.deep_view(),
            error_enum: self.error_enum.deep_view(),
            errors: self.errors.deep_view(),
        }
    }
}

/// A broadcast.
#[derive(Debug, Clone, PartialEq, Eq)]
pub struct FBroadcast {
    pub name: String,
    pub comment: Option<FAnnotationBlock>,
    pub out_args: Vec<FArgument>,
    pub selective: Option<String>,
}

/// The mathematical value of [`FBroadcast`].
pub ghost struct FBroadcastView {
    pub name: Seq<char>,
    pub comment: Option<FAnnotationBlockView>,
    pub out_args: Seq<FArgumentView>,
    pub selective: Option<Seq<char>>,
}

impl DeepView for FBroadcast {
    type V = FBroadcastView;

    open spec fn deep_view(&self) -> FBroadcastView {
        FBroadcastView {
            name: self.name.deep_view(),
            comment: self.comment.deep_view(),
            out_args: self.out_args.deep_view(),
            selective: self.selective.deep_view(),
        }
    }
}

/// An interface. Its base, if any, is the name of another interface.
#[derive(Debug, Clone, PartialEq, Eq)]
pub struct FInterface {
    pub name: String,
    pub comment: Option<FAnnotationBlock>,
    pub version: Option<FVersion>,
    pub base: Option<String>,
    pub attributes: Vec<FAttribute>,
    pub methods: Vec<FMethod>,
    pub broadcasts: Vec<FBroadcast>,
    pub types: Vec<FType>,
}

/// The mathematical value of [`FInterface`].
pub ghost struct FInterfaceView {
    pub name: Seq<char>,
    pub comment: Option<FAnnotationBlockView>,
    pub version: Option<FVersion>,
    pub base: Option<Seq<char>>,
    pub attributes: Seq<FAttributeView>,
    pub methods: Seq<FMethodView>,
    pub broadcasts: Seq<FBroadcastView>,
    pub types: Seq<FTypeView>,
}

impl DeepView for FInterface {
    type V = FInterfaceView;

    open spec fn deep_view(&self) -> FInterfaceView {
        FInterfaceView {
            name: self.name.deep_view(),
            comment: self.comment.deep_view(),
            version: self.version.deep_view(),
            base: self.base.deep_view(),
            attributes: self.attributes.deep_view(),
            methods: self.methods.deep_view(),
            broadcasts: self.broadcasts.deep_view(),
            types: self.types.deep_view(),
        }
    }
}

/// What an interface declares in its body, one declaration at a time.
#[derive(Debug, Clone, PartialEq, Eq)]
pub enum FMember {
    Attribute(FAttribute),
    Method(FMethod),
    Broadcast(FBroadcast),
    TypeDefinition(FType),
}

/// The mathematical value of [`FMember`].
pub ghost enum FMemberView {
    Attribute(FAttributeView),
    Method(FMethodView),
    Broadcast(FBroadcastView),
    TypeDefinition(FTypeView),
}

impl DeepView for FMember {
    type V = FMemberView;

    open spec fn deep_view(&self) -> FMemberView {
        match self {
            FMember::Attribute(x) => FMemberView::Attribute(x.deep_view()),
            FMember::Method(x) => FMemberView::Method(x.deep_view()),
            FMember::Broadcast(x) => FMemberView::Broadcast(x.deep_view()),
            FMember::TypeDefinition(x) => FMemberView::TypeDefinition(x.deep_view()),
        }
    }
}

/// A collection of type definitions, with or without a name.
#[derive(Debug, Clone, PartialEq, Eq)]
pub struct FTypeCollection {
    pub name: Option<String>,
    pub comment: Option<FAnnotationBlock>,
    pub version: Option<FVersion>,
    pub types: Vec<FType>,
}

/// The mathematical value of [`FTypeCollection`].
pub ghost struct FTypeCollectionView {
    pub name: Option<Seq<char>>,
    pub comment: Option<FAnnotationBlockView>,
    pub version: Option<FVersion>,
    pub types: Seq<FTypeView>,
}

impl DeepView for FTypeCollection {
    type V = FTypeCollectionView;

    open spec fn deep_view(&self) -> FTypeCollectionView {
        FTypeCollectionView {
            name: self.name.deep_view(),
            comment: self.comment.deep_view(),
            version: self.version.deep_view(),
            types: self.types.deep_view(),
        }
    }
}

/// An import: the namespace that it brings in, if it names one, and where
/// it is found.
#[derive(Debug, Clone, PartialEq, Eq)]
pub struct Import {
    /// Namespace addressed by import
    pub imported_namespace: Option<String>,
    /// Uri of the imported resource
    pub import_uri: Option<String>,
}

/// The mathematical value of [`Import`].
pub ghost struct ImportView {
    pub imported_namespace: Option<Seq<char>>,
    pub import_uri: Option<Seq<char>>,
}

impl DeepView for Import {
    type V = ImportView;

    open spec fn deep_view(&self) -> ImportView {
        ImportView {
            imported_namespace: self.imported_namespace.deep_view(),
            import_uri: self.import_uri.deep_view(),
        }
    }
}

impl ImportView {
    /// An import names a namespace, a resource, or both.
    pub open spec fn well_formed(self) -> bool {
        self.imported_namespace is Some || self.import_uri is Some
    }
}

/// What a package declares at its top level, one declaration at a time.
#[derive(Debug, Clone, PartialEq, Eq)]
pub enum FModelItem {
    Interface(FInterface),
    TypeCollection(FTypeCollection),
}

/// The mathematical value of [`FModelItem`].
pub ghost enum FModelItemView {
    Interface(FInterfaceView),
    TypeCollection(FTypeCollectionView),
}

impl DeepView for FModelItem {
    type V = FModelItemView;

    open spec fn deep_view(&self) -> FModelItemView {
        match self {
            FModelItem::Interface(x) => FModelItemView::Interface(x.deep_view()),
            FModelItem::TypeCollection(x) => FModelItemView::TypeCollection(x.deep_view()),
        }
    }
}

/// The root of a core model.
#[derive(Debug, Clone, PartialEq, Eq)]
pub struct FModel {
    /// Package declaration
    pub name: String,
    pub imports: Vec<Import>,
    pub interfaces: Vec<FInterface>,
    pub type_collections: Vec<FTypeCollection>,
}

/// The mathematical value of [`FModel`].
pub ghost struct FModelView {
    pub name: Seq<char>,
    pub imports: Seq<ImportView>,
    pub interfaces: Seq<FInterfaceView>,
    pub type_collections: Seq<FTypeCollectionView>,
}

impl DeepView for FModel {
    type V = FModelView;

    open spec fn deep_view(&self) -> FModelView {
        FModelView {
            name: self.name.deep_view(),
            imports: self.imports.deep_view(),
            interfaces: self.interfaces.deep_view(),
            type_collections: self.type_collections.deep_view(),
        }
    }
}

} // verus!
