//! The deployment model: properties laid over the declarations of a core
//! model. A deployment never owns or copies what it is laid over: every
//! target is the name of a declaration, and its kind is the kind of the
//! node that names it.

use vstd::prelude::*;
use crate::diag::FdValueKind;

verus! {

/// An import of a deployment model: of a resource alone, or of a namespace
/// from a resource.
#[derive(Debug, Clone, PartialEq, Eq)]
pub enum Import {
    /// `import "URI"`: where the resource is found.
    ImportUri(String),
    /// `import NAMESPACE from "URI"`: the namespace, and where it is found.
    ImportedSpec(String, String),
}

/// The mathematical value of [`Import`].
pub ghost enum ImportView {
    ImportUri(Seq<char>),
    ImportedSpec(Seq<char>, Seq<char>),
}

impl DeepView for Import {
    type V = ImportView;

    open spec fn deep_view(&self) -> ImportView {
        match self {
            Import::ImportUri(uri) => ImportView::ImportUri(uri.deep_view()),
            Import::ImportedSpec(namespace, uri) => ImportView::ImportedSpec(
                namespace.deep_view(),
                uri.deep_view(),
            ),
        }
    }
}

/// An identifier.
#[derive(Debug, Clone, PartialEq, Eq)]
pub struct Id {
    pub name: String,
}

/// The mathematical value of [`Id`].
pub ghost struct IdView {
    pub name: Seq<char>,
}

impl DeepView for Id {
    type V = IdView;

    open spec fn deep_view(&self) -> IdView {
        IdView {
            name: self.name.deep_view(),
        }
    }
}

/// A reference to an interface of the core model, by its name.
#[derive(Debug, Clone, PartialEq, Eq)]
pub struct FdInterfaceRef {
    pub value: String,
}

/// The mathematical value of [`FdInterfaceRef`].
pub ghost struct FdInterfaceRefView {
    pub value: Seq<char>,
}

impl DeepView for FdInterfaceRef {
    type V = FdInterfaceRefView;

    open spec fn deep_view(&self) -> FdInterfaceRefView {
        FdInterfaceRefView {
            value: self.value.deep_view(),
        }
    }
}

/// The value of a property.
#[derive(Debug, Clone, PartialEq, Eq)]
pub enum FdValue {
    FdInteger(i32),
    FdString(String),
    FdBoolean(bool),
    FdInterfaceRef(FdInterfaceRef),
}

/// The mathematical value of [`FdValue`].
pub ghost enum FdValueView {
    FdInteger(i32),
    FdString(Seq<char>),
    FdBoolean(bool),
    FdInterfaceRef(FdInterfaceRefView),
}

impl DeepView for FdValue {
    type V = FdValueView;

    open spec fn deep_view(&self) -> FdValueView {
        match self {
            FdValue::FdInteger(x) => FdValueView::FdInteger(x.deep_view()),
            FdValue::FdString(x) => FdValueView::FdString(x.deep_view()),
            FdValue::FdBoolean(x) => FdValueView::FdBoolean(x.deep_view()),
            FdValue::FdInterfaceRef(x) => FdValueView::FdInterfaceRef(x.deep_view()),
        }
    }
}

/// The declaration of a property in a specification: its name, the kind of
/// value that it takes, and the value that it has where none is given.
#[derive(Debug, Clone, PartialEq, Eq)]
pub struct FdPropertyDecl {
    pub name: String,
    pub kind: FdValueKind,
    pub default: Option<FdValue>,
}

/// The mathematical value of [`FdPropertyDecl`].
pub ghost struct FdPropertyDeclView {
    pub name: Seq<char>,
    pub kind: FdValueKind,
    pub default: Option<FdValueView>,
}

impl DeepView for FdPropertyDecl {
    type V = FdPropertyDeclView;

    open spec fn deep_view(&self) -> FdPropertyDeclView {
        FdPropertyDeclView {
            name: self.name.deep_view(),
            kind: self.kind.deep_view(),
            default: self.default.deep_view(),
        }
    }
}

/// A property that is set: the name of its declaration, and the value.
#[derive(Debug, Clone, PartialEq, Eq)]
pub struct FdProperty {
    pub decl: String,
    pub value: FdValue,
}

/// The mathematical value of [`FdProperty`].
pub ghost struct FdPropertyView {
    pub decl: Seq<char>,
    pub value: FdValueView,
}

impl DeepView for FdProperty {
    type V = FdPropertyView;

    open spec fn deep_view(&self) -> FdPropertyView {
        FdPropertyView {
            decl: self.decl.deep_view(),
            value: self.value.deep_view(),
        }
    }
}

/// The properties that are set on one element, in the order written.
#[derive(Debug, Clone, PartialEq, Eq)]
pub struct FdPropertySet {
    pub items: Vec<FdProperty>,
}

/// The mathematical value of [`FdPropertySet`].
pub ghost struct FdPropertySetView {
    pub items: Seq<FdPropertyView>,
}

impl DeepView for FdPropertySet {
    type V = FdPropertySetView;

    open spec fn deep_view(&self) -> FdPropertySetView {
        FdPropertySetView {
            items: self.items.deep_view(),
        }
    }
}

/// A specification: the properties that a deployment under it may set.
#[derive(Debug, Clone, PartialEq, Eq)]
pub struct FdSpecification {
    pub name: String,
    pub declarations: Vec<FdPropertyDecl>,
}

/// The mathematical value of [`FdSpecification`].
pub ghost struct FdSpecificationView {
    pub name: Seq<char>,
    pub declarations: Seq<FdPropertyDeclView>,
}

impl DeepView for FdSpecification {
    type V = FdSpecificationView;

    open spec fn deep_view(&self) -> FdSpecificationView {
        FdSpecificationView {
            name: self.name.deep_view(),
            declarations: self.declarations.deep_view(),
        }
    }
}

/// Properties that refine the type of an element.
#[derive(Debug, Clone, PartialEq, Eq)]
pub struct FdPlainTypeOverwrites {
    pub properties: FdPropertySet,
}

/// The mathematical value of [`FdPlainTypeOverwrites`].
pub ghost struct FdPlainTypeOverwritesView {
    pub properties: FdPropertySetView,
}

impl DeepView for FdPlainTypeOverwrites {
    type V = FdPlainTypeOverwritesView;

    open spec fn deep_view(&self) -> FdPlainTypeOverwritesView {
        FdPlainTypeOverwritesView {
            properties: self.properties.deep_view(),
        }
    }
}

/// The deployment of a field of a struct or of a union.
#[derive(Debug, Clone, PartialEq, Eq)]
pub struct FdField {
    pub target: String,
    pub properties: FdPropertySet,
    pub overwrites: Option<FdPlainTypeOverwrites>,
}

/// The mathematical value of [`FdField`].
pub ghost struct FdFieldView {
    pub target: Seq<char>,
    pub properties: FdPropertySetView,
    pub overwrites: Option<FdPlainTypeOverwritesView>,
}

impl DeepView for FdField {
    type V = FdFieldView;

    open spec fn deep_view(&self) -> FdFieldView {
        FdFieldView {
            target: self.target.deep_view(),
            properties: self.properties.deep_view(),
            overwrites: self.overwrites.deep_view(),
        }
    }
}

/// The deployment of an enumerator.
#[derive(Debug, Clone, PartialEq, Eq)]
pub struct FdEnumValue {
    pub target: String,
    pub properties: FdPropertySet,
}

/// The mathematical value of [`FdEnumValue`].
pub ghost struct FdEnumValueView {
    pub target: Seq<char>,
    pub properties: FdPropertySetView,
}

impl DeepView for FdEnumValue {
    type V = FdEnumValueView;

    open spec fn deep_view(&self) -> FdEnumValueView {
        FdEnumValueView {
            target: self.target.deep_view(),
            properties: self.properties.deep_view(),
        }
    }
}

/// Properties that refine a struct type and its fields.
#[derive(Debug, Clone, PartialEq, Eq)]
pub struct FdStructOverwrites {
    pub properties: FdPropertySet,
    pub fields: Vec<FdField>,
}

/// The mathematical value of [`FdStructOverwrites`].
pub ghost struct FdStructOverwritesView {
    pub properties: FdPropertySetView,
    pub fields: Seq<FdFieldView>,
}

impl DeepView for FdStructOverwrites {
    type V = FdStructOverwritesView;

    open spec fn deep_view(&self) -> FdStructOverwritesView {
        FdStructOverwritesView {
            properties: self.properties.deep_view(),
            fields: self.fields.deep_view(),
        }
    }
}

/// Properties that refine a union type and its fields.
#[derive(Debug, Clone, PartialEq, Eq)]
pub struct FdUnionOverwrites {
    pub properties: FdPropertySet,
    pub fields: Vec<FdField>,
}

/// The mathematical value of [`FdUnionOverwrites`].
pub ghost struct FdUnionOverwritesView {
    pub properties: FdPropertySetView,
    pub fields: Seq<FdFieldView>,
}

impl DeepView for FdUnionOverwrites {
    type V = FdUnionOverwritesView;

    open spec fn deep_view(&self) -> FdUnionOverwritesView {
        FdUnionOverwritesView {
            properties: self.properties.deep_view(),
            fields: self.fields.deep_view(),
        }
    }
}

/// Properties that refine an enumeration type and its enumerators.
#[derive(Debug, Clone, PartialEq, Eq)]
pub struct FdEnumerationOverwrites {
    pub properties: FdPropertySet,
    pub enumerators: Vec<FdEnumValue>,
}

/// The mathematical value of [`FdEnumerationOverwrites`].
pub ghost struct FdEnumerationOverwritesView {
    pub properties: FdPropertySetView,
    pub enumerators: Seq<FdEnumValueView>,
}

impl DeepView for FdEnumerationOverwrites {
    type V = FdEnumerationOverwritesView;

    open spec fn deep_view(&self) -> FdEnumerationOverwritesView {
        FdEnumerationOverwritesView {
            properties: self.properties.deep_view(),
            enumerators: self.enumerators.deep_view(),
        }
    }
}

/// A refinement of the type of an element. It describes how the type is
/// represented; the type itself stays what the core model says.
#[derive(Debug, Clone, PartialEq, Eq)]
pub enum FdTypeOverwrites {
    FdPlainTypeOverwrites(FdPlainTypeOverwrites),
    FdStructOverwrites(FdStructOverwrites),
    FdUnionOverwrites(FdUnionOverwrites),
    FdEnumerationOverwrites(FdEnumerationOverwrites),
}

/// The mathematical value of [`FdTypeOverwrites`].
pub ghost enum FdTypeOverwritesView {
    FdPlainTypeOverwrites(FdPlainTypeOverwritesView),
    FdStructOverwrites(FdStructOverwritesView),
    FdUnionOverwrites(FdUnionOverwritesView),
    FdEnumerationOverwrites(FdEnumerationOverwritesView),
}

impl DeepView for FdTypeOverwrites {
    type V = FdTypeOverwritesView;

    open spec fn deep_view(&self) -> FdTypeOverwritesView {
        match self {
            FdTypeOverwrites::FdPlainTypeOverwrites(x) => {
                FdTypeOverwritesView::FdPlainTypeOverwrites(x.deep_view())
            },
            FdTypeOverwrites::FdStructOverwrites(x) => FdTypeOverwritesView::FdStructOverwrites(
                x.deep_view(),
            ),
            FdTypeOverwrites::FdUnionOverwrites(x) => FdTypeOverwritesView::FdUnionOverwrites(
                x.deep_view(),
            ),
            FdTypeOverwrites::FdEnumerationOverwrites(x) => {
                FdTypeOverwritesView::FdEnumerationOverwrites(x.deep_view())
            },
        }
    }
}

/// The deployment of an attribute.
#[derive(Debug, Clone, PartialEq, Eq)]
pub struct FdAttribute {
    pub target: String,
    pub properties: FdPropertySet,
    pub overwrites: Option<FdTypeOverwrites>,
}

/// The mathematical value of [`FdAttribute`].
pub ghost struct FdAttributeView {
    pub target: Seq<char>,
    pub properties: FdPropertySetView,
    pub overwrites: Option<FdTypeOverwritesView>,
}

impl DeepView for FdAttribute {
    type V = FdAttributeView;

    open spec fn deep_view(&self) -> FdAttributeView {
        FdAttributeView {
            target: self.target.deep_view(),
            properties: self.properties.deep_view(),
            overwrites: self.overwrites.deep_view(),
        }
    }
}

/// The deployment of an argument.
#[derive(Debug, Clone, PartialEq, Eq)]
pub struct FdArgument {
    pub target: String,
    pub properties: FdPropertySet,
    pub overwrites: Option<FdTypeOverwrites>,
}

/// The mathematical value of [`FdArgument`].
pub ghost struct FdArgumentView {
    pub target: Seq<char>,
    pub properties: FdPropertySetView,
    pub overwrites: Option<FdTypeOverwritesView>,
}

impl DeepView for FdArgument {
    type V = FdArgumentView;

    open spec fn deep_view(&self) -> FdArgumentView {
        FdArgumentView {
            target: self.target.deep_view(),
            properties: self.properties.deep_view(),
            overwrites: self.overwrites.deep_view(),
        }
    }
}

/// The deployments of the arguments of one direction.
#[derive(Debug, Clone, PartialEq, Eq)]
pub struct FdArgumentList {
    pub arguments: Vec<FdArgument>,
}

/// The mathematical value of [`FdArgumentList`].
pub ghost struct FdArgumentListView {
    pub arguments: Seq<FdArgumentView>,
}

impl DeepView for FdArgumentList {
    type V = FdArgumentListView;

    open spec fn deep_view(&self) -> FdArgumentListView {
        FdArgumentListView {
            arguments: self.arguments.deep_view(),
        }
    }
}

/// The deployment of a method.
#[derive(Debug, Clone, PartialEq, Eq)]
pub struct FdMethod {
    pub target: String,
    pub selector: Option<Id>,
    pub properties: FdPropertySet,
    pub in_args: Option<FdArgumentList>,
    pub out_args: Option<FdArgumentList>,
}

/// The mathematical value of [`FdMethod`].
pub ghost struct FdMethodView {
    pub target: Seq<char>,
    pub selector: Option<IdView>,
    pub properties: FdPropertySetView,
    pub in_args: Option<FdArgumentListView>,
    pub out_args: Option<FdArgumentListView>,
}

impl DeepView for FdMethod {
    type V = FdMethodView;

    open spec fn deep_view(&self) -> FdMethodView {
        FdMethodView {
            target: self.target.deep_view(),
            selector: self.selector.deep_view(),
            properties: self.properties.deep_view(),
            in_args: self.in_args.deep_view(),
            out_args: self.out_args.deep_view(),
        }
    }
}

/// The deployment of a broadcast.
#[derive(Debug, Clone, PartialEq, Eq)]
pub struct FdBroadcast {
    pub target: String,
    pub selector: Option<Id>,
    pub properties: FdPropertySet,
    pub out_args: Option<FdArgumentList>,
}

/// The mathematical value of [`FdBroadcast`].
pub ghost struct FdBroadcastView {
    pub target: Seq<char>,
    pub selector: Option<IdView>,
    pub properties: FdPropertySetView,
    pub out_args: Option<FdArgumentListView>,
}

impl DeepView for FdBroadcast {
    type V = FdBroadcastView;

    open spec fn deep_view(&self) -> FdBroadcastView {
        FdBroadcastView {
            target: self.target.deep_view(),
            selector: self.selector.deep_view(),
            properties: self.properties.deep_view(),
            out_args: self.out_args.deep_view(),
        }
    }
}

/// The deployment of a method or of a broadcast.
#[derive(Debug, Clone, PartialEq, Eq)]
pub enum FdOperation {
    FdMethod(FdMethod),
    FdBroadcast(FdBroadcast),
}

/// The mathematical value of [`FdOperation`].
pub ghost enum FdOperationView {
    FdMethod(FdMethodView),
    FdBroadcast(FdBroadcastView),
}

impl DeepView for FdOperation {
    type V = FdOperationView;

    open spec fn deep_view(&self) -> FdOperationView {
        match self {
            FdOperation::FdMethod(x) => FdOperationView::FdMethod(x.deep_view()),
            FdOperation::FdBroadcast(x) => FdOperationView::FdBroadcast(x.deep_view()),
        }
    }
}

/// The deployment of a named array.
#[derive(Debug, Clone, PartialEq, Eq)]
pub struct FdArray {
    pub target: String,
    pub properties: FdPropertySet,
    pub overwrites: Option<FdTypeOverwrites>,
}

/// The mathematical value of [`FdArray`].
pub ghost struct FdArrayView {
    pub target: Seq<char>,
    pub properties: FdPropertySetView,
    pub overwrites: Option<FdTypeOverwritesView>,
}

impl DeepView for FdArray {
    type V = FdArrayView;

    open spec fn deep_view(&self) -> FdArrayView {
        FdArrayView {
            target: self.target.deep_view(),
            properties: self.properties.deep_view(),
            overwrites: self.overwrites.deep_view(),
        }
    }
}

/// The deployment of a struct.
#[derive(Debug, Clone, PartialEq, Eq)]
pub struct FdStruct {
    pub target: String,
    pub properties: FdPropertySet,
    pub fields: Vec<FdField>,
}

/// The mathematical value of [`FdStruct`].
pub ghost struct FdStructView {
    pub target: Seq<char>,
    pub properties: FdPropertySetView,
    pub fields: Seq<FdFieldView>,
}

impl DeepView for FdStruct {
    type V = FdStructView;

    open spec fn deep_view(&self) -> FdStructView {
        FdStructView {
            target: self.target.deep_view(),
            properties: self.properties.deep_view(),
            fields: self.fields.deep_view(),
        }
    }
}

/// The deployment of a union.
#[derive(Debug, Clone, PartialEq, Eq)]
pub struct FdUnion {
    pub target: String,
    pub properties: FdPropertySet,
    pub fields: Vec<FdField>,
}

/// The mathematical value of [`FdUnion`].
pub ghost struct FdUnionView {
    pub target: Seq<char>,
    pub properties: FdPropertySetView,
    pub fields: Seq<FdFieldView>,
}

impl DeepView for FdUnion {
    type V = FdUnionView;

    open spec fn deep_view(&self) -> FdUnionView {
        FdUnionView {
            target: self.target.deep_view(),
            properties: self.properties.deep_view(),
            fields: self.fields.deep_view(),
        }
    }
}

/// The deployment of a struct or of a union.
#[derive(Debug, Clone, PartialEq, Eq)]
pub enum FdCompound {
    FdStruct(FdStruct),
    FdUnion(FdUnion),
}

/// The mathematical value of [`FdCompound`].
pub ghost enum FdCompoundView {
    FdStruct(FdStructView),
    FdUnion(FdUnionView),
}

impl DeepView for FdCompound {
    type V = FdCompoundView;

    open spec fn deep_view(&self) -> FdCompoundView {
        match self {
            FdCompound::FdStruct(x) => FdCompoundView::FdStruct(x.deep_view()),
            FdCompound::FdUnion(x) => FdCompoundView::FdUnion(x.deep_view()),
        }
    }
}

/// The deployment of a type alias.
#[derive(Debug, Clone, PartialEq, Eq)]
pub struct FdTypeDef {
    pub target: String,
    pub properties: FdPropertySet,
}

/// The mathematical value of [`FdTypeDef`].
pub ghost struct FdTypeDefView {
    pub target: Seq<char>,
    pub properties: FdPropertySetView,
}

impl DeepView for FdTypeDef {
    type V = FdTypeDefView;

    open spec fn deep_view(&self) -> FdTypeDefView {
        FdTypeDefView {
            target: self.target.deep_view(),
            properties: self.properties.deep_view(),
        }
    }
}

/// The deployment of an enumeration.
#[derive(Debug, Clone, PartialEq, Eq)]
pub struct FdEnumeration {
    pub target: String,
    pub properties: FdPropertySet,
    pub enumerators: Vec<FdEnumValue>,
}

/// The mathematical value of [`FdEnumeration`].
pub ghost struct FdEnumerationView {
    pub target: Seq<char>,
    pub properties: FdPropertySetView,
    pub enumerators: Seq<FdEnumValueView>,
}

impl DeepView for FdEnumeration {
    type V = FdEnumerationView;

    open spec fn deep_view(&self) -> FdEnumerationView {
        FdEnumerationView {
            target: self.target.deep_view(),
            properties: self.properties.deep_view(),
            enumerators: self.enumerators.deep_view(),
        }
    }
}

/// The properties of the keys of a map.
#[derive(Debug, Clone, PartialEq, Eq)]
pub struct FdMapKey {
    pub properties: FdPropertySet,
}

/// The mathematical value of [`FdMapKey`].
pub ghost struct FdMapKeyView {
    pub properties: FdPropertySetView,
}

impl DeepView for FdMapKey {
    type V = FdMapKeyView;

    open spec fn deep_view(&self) -> FdMapKeyView {
        FdMapKeyView {
            properties: self.properties.deep_view(),
        }
    }
}

/// The properties of the values of a map.
#[derive(Debug, Clone, PartialEq, Eq)]
pub struct FdMapValue {
    pub properties: FdPropertySet,
}

/// The mathematical value of [`FdMapValue`].
pub ghost struct FdMapValueView {
    pub properties: FdPropertySetView,
}

impl DeepView for FdMapValue {
    type V = FdMapValueView;

    open spec fn deep_view(&self) -> FdMapValueView {
        FdMapValueView {
            properties: self.properties.deep_view(),
        }
    }
}

/// The deployment of a named map.
#[derive(Debug, Clone, PartialEq, Eq)]
pub struct FdMap {
    pub target: String,
    pub properties: FdPropertySet,
    pub key: Option<FdMapKey>,
    pub value: Option<FdMapValue>,
}

/// The mathematical value of [`FdMap`].
pub ghost struct FdMapView {
    pub target: Seq<char>,
    pub properties: FdPropertySetView,
    pub key: Option<FdMapKeyView>,
    pub value: Option<FdMapValueView>,
}

impl DeepView for FdMap {
    type V = FdMapView;

    open spec fn deep_view(&self) -> FdMapView {
        FdMapView {
            target: self.target.deep_view(),
            properties: self.properties.deep_view(),
            key: self.key.deep_view(),
            value: self.value.deep_view(),
        }
    }
}

/// The deployment of a type definition.
#[derive(Debug, Clone, PartialEq, Eq)]
pub enum FdTypeDefinition {
    FdArray(FdArray),
    FdCompound(FdCompound),
    FdEnumeration(FdEnumeration),
    FdTypeDef(FdTypeDef),
    FdMap(FdMap),
}

/// The mathematical value of [`FdTypeDefinition`].
pub ghost enum FdTypeDefinitionView {
    FdArray(FdArrayView),
    FdCompound(FdCompoundView),
    FdEnumeration(FdEnumerationView),
    FdTypeDef(FdTypeDefView),
    FdMap(FdMapView),
}

impl DeepView for FdTypeDefinition {
    type V = FdTypeDefinitionView;

    open spec fn deep_view(&self) -> FdTypeDefinitionView {
        match self {
            FdTypeDefinition::FdArray(x) => FdTypeDefinitionView::FdArray(x.deep_view()),
            FdTypeDefinition::FdCompound(x) => FdTypeDefinitionView::FdCompound(x.deep_view()),
            FdTypeDefinition::FdEnumeration(x) => FdTypeDefinitionView::FdEnumeration(
                x.deep_view(),
            ),
            FdTypeDefinition::FdTypeDef(x) => FdTypeDefinitionView::FdTypeDef(x.deep_view()),
            FdTypeDefinition::FdMap(x) => FdTypeDefinitionView::FdMap(x.deep_view()),
        }
    }
}

/// What the deployment of an interface holds, one element at a time.
#[derive(Debug, Clone, PartialEq, Eq)]
pub enum FdElement {
    FdAttribute(FdAttribute),
    FdOperation(FdOperation),
    FdTypeDefinition(FdTypeDefinition),
}

/// The mathematical value of [`FdElement`].
pub ghost enum FdElementView {
    FdAttribute(FdAttributeView),
    FdOperation(FdOperationView),
    FdTypeDefinition(FdTypeDefinitionView),
}

impl DeepView for FdElement {
    type V = FdElementView;

    open spec fn deep_view(&self) -> FdElementView {
        match self {
            FdElement::FdAttribute(x) => FdElementView::FdAttribute(x.deep_view()),
            FdElement::FdOperation(x) => FdElementView::FdOperation(x.deep_view()),
            FdElement::FdTypeDefinition(x) => FdElementView::FdTypeDefinition(x.deep_view()),
        }
    }
}

/// The deployment of an interface.
#[derive(Debug, Clone, PartialEq, Eq)]
pub struct FdInterface {
    pub target: String,
    pub properties: FdPropertySet,
    pub attributes: Vec<FdAttribute>,
    pub methods: Vec<FdMethod>,
    pub broadcasts: Vec<FdBroadcast>,
    pub types: Vec<FdTypeDefinition>,
}

/// The mathematical value of [`FdInterface`].
pub ghost struct FdInterfaceView {
    pub target: Seq<char>,
    pub properties: FdPropertySetView,
    pub attributes: Seq<FdAttributeView>,
    pub methods: Seq<FdMethodView>,
    pub broadcasts: Seq<FdBroadcastView>,
    pub types: Seq<FdTypeDefinitionView>,
}

impl DeepView for FdInterface {
    type V = FdInterfaceView;

    open spec fn deep_view(&self) -> FdInterfaceView {
        FdInterfaceView {
            target: self.target.deep_view(),
            properties: self.properties.deep_view(),
            attributes: self.attributes.deep_view(),
            methods: self.methods.deep_view(),
            broadcasts: self.broadcasts.deep_view(),
            types: self.types.deep_view(),
        }
    }
}

/// An extension element: properties set on something that is no declaration
/// of the core model. It has a tag, which says what kind of thing it is, a
/// name, and extension elements of its own.
#[derive(Debug, PartialEq, Eq)]
pub struct FdExtensionElement {
    pub tag: Id,
    pub name: String,
    pub properties: FdPropertySet,
    pub elements: Vec<FdExtensionElement>,
}

/// The mathematical value of [`FdExtensionElement`].
pub ghost struct FdExtensionElementView {
    pub tag: IdView,
    pub name: Seq<char>,
    pub properties: FdPropertySetView,
    pub elements: Seq<FdExtensionElementView>,
}

/// The mathematical value of the extension element `e`: its own, with the
/// values of the extension elements that it holds.
pub open spec fn spec_extension_view(e: FdExtensionElement) -> FdExtensionElementView
    decreases e,
{
    FdExtensionElementView {
        tag: e.tag.deep_view(),
        name: e.name@,
        properties: e.properties.deep_view(),
        elements: Seq::new(
            e.elements.len() as nat,
            |i: int|
                if 0 <= i < e.elements.len() {
                    spec_extension_view(e.elements[i])
                } else {
                    arbitrary()
                },
        ),
    }
}

impl DeepView for FdExtensionElement {
    type V = FdExtensionElementView;

    open spec fn deep_view(&self) -> FdExtensionElementView {
        spec_extension_view(*self)
    }
}

/// The value of an extension element holds the values of the extension
/// elements that it holds, in their order.
pub proof fn lemma_extension_view(e: FdExtensionElement)
    ensures
        e.deep_view() == (FdExtensionElementView {
            tag: e.tag.deep_view(),
            name: e.name@,
            properties: e.properties.deep_view(),
            elements: e.elements.deep_view(),
        }),
{
    assert(e.deep_view().elements =~= e.elements.deep_view());
}

/// A deployment at the top level of a model: the name of the specification
/// that governs it, the selector behind the name of its target, if one is
/// written, the deployment of the interface, and the extension elements
/// that stand behind it.
#[derive(Debug, PartialEq, Eq)]
pub struct FdRootElement {
    pub spec: String,
    pub selector: Option<Id>,
    pub interface: FdInterface,
    pub extensions: Vec<FdExtensionElement>,
}

/// The mathematical value of [`FdRootElement`].
pub ghost struct FdRootElementView {
    pub spec: Seq<char>,
    pub selector: Option<IdView>,
    pub interface: FdInterfaceView,
    pub extensions: Seq<FdExtensionElementView>,
}

impl DeepView for FdRootElement {
    type V = FdRootElementView;

    open spec fn deep_view(&self) -> FdRootElementView {
        FdRootElementView {
            spec: self.spec.deep_view(),
            selector: self.selector.deep_view(),
            interface: self.interface.deep_view(),
            extensions: self.extensions.deep_view(),
        }
    }
}

/// Deployment model root
#[derive(Debug, PartialEq, Eq)]
pub struct FdModel {
    pub name: String,
    pub imports: Vec<Import>,
    pub specifications: Vec<FdSpecification>,
    pub deployments: Vec<FdRootElement>,
}

/// The mathematical value of [`FdModel`].
pub ghost struct FdModelView {
    pub name: Seq<char>,
    pub imports: Seq<ImportView>,
    pub specifications: Seq<FdSpecificationView>,
    pub deployments: Seq<FdRootElementView>,
}

impl DeepView for FdModel {
    type V = FdModelView;

    open spec fn deep_view(&self) -> FdModelView {
        FdModelView {
            name: self.name.deep_view(),
            imports: self.imports.deep_view(),
            specifications: self.specifications.deep_view(),
            deployments: self.deployments.deep_view(),
        }
    }
}

} // verus!
