use franca_idl::deploy::{fd_model, fd_root_element, fd_specification, fqn_with_selector, id};
use franca_idl::extension::{fd_extension_element, fd_extension_element_within};
use franca_idl::deployment::{
    FdArgument, FdArgumentList, FdAttribute, FdExtensionElement, FdInterface, FdMethod, FdModel,
    FdProperty, FdPropertyDecl, FdPropertySet, FdRootElement, FdSpecification, FdTypeOverwrites,
    FdValue, Id,
};
use franca_idl::{
    enumerator_values, f_argument, f_attribute, f_basic_type_id, f_enumeration_type, f_field,
    f_interface, f_method, f_model, f_struct_type, f_type, f_type_collection, f_type_ref,
    f_version, import, parse_deployment, parse_model, parse_model_within, syntax_diagnostics,
    validate, validate_deployment, CharClass, Diagnostic, Expected, FAnnotation,
    FAnnotationBlock, FAnnotationType, FArgument, FBasicTypeId, FEnumerator, FField, FInterface,
    FModel, FType, FTypeRef, FVersion, FdValueKind, Import, Keyword,
};

fn basic(id: FBasicTypeId) -> FTypeRef {
    FTypeRef {
        predefined: Some(id),
        derived: None,
    }
}

fn derived(name: &str) -> FTypeRef {
    FTypeRef {
        predefined: None,
        derived: Some(name.to_string()),
    }
}

fn argument(name: &str, type_ref: FTypeRef) -> FArgument {
    FArgument {
        name: name.to_string(),
        comment: None,
        type_ref,
        array: None,
    }
}

fn interface(name: &str) -> FInterface {
    FInterface {
        name: name.to_string(),
        comment: None,
        version: None,
        base: None,
        attributes: Vec::new(),
        methods: Vec::new(),
        broadcasts: Vec::new(),
        types: Vec::new(),
    }
}

#[test]
fn hello_world_on_one_line_blocks() {
    let text = "package test\n\ninterface HelloWorld {\n  version { major 1 minor 0 }\n  method sayHello {\n    in { String name }\n    out { String value_a\n      Double value_b\n      UInt32 value_c }\n  }\n}\n";
    let model = parse_model(text).unwrap();
    assert_eq!(model.name, "test");
    assert_eq!(model.interfaces.len(), 1);
    let hello = &model.interfaces[0];
    assert_eq!(hello.name, "HelloWorld");
    assert_eq!(hello.version, Some(FVersion { major: 1, minor: 0 }));
    assert_eq!(hello.methods.len(), 1);
    let say = &hello.methods[0];
    assert_eq!(say.name, "sayHello");
    assert_eq!(say.in_args, vec![argument("name", basic(FBasicTypeId::String))]);
    assert_eq!(
        say.out_args,
        vec![
            argument("value_a", basic(FBasicTypeId::String)),
            argument("value_b", basic(FBasicTypeId::Double)),
            argument("value_c", basic(FBasicTypeId::UInt32)),
        ]
    );
}

#[test]
fn import_with_namespace() {
    let (rest, read) = import("import org.example.* from \"basic.fidl\"").unwrap();
    assert_eq!(rest, "");
    assert_eq!(
        read,
        Import {
            imported_namespace: Some("org.example.*".to_string()),
            import_uri: Some("basic.fidl".to_string()),
        }
    );
}

#[test]
fn import_of_a_resource_alone() {
    let (_, read) = import("import \"platform:/plugin/abc.fdepl\"").unwrap();
    assert_eq!(
        read,
        Import {
            imported_namespace: None,
            import_uri: Some("platform:/plugin/abc.fdepl".to_string()),
        }
    );
}

#[test]
fn import_without_a_resource_fails() {
    let error = import("import org.example.*\n").unwrap_err();
    assert_eq!(error.expected, Expected::Char('"'));
    assert_eq!(error.input, "org.example.*\n");
}

#[test]
fn package_name_whatever_the_white_space() {
    for text in [
        "package org.example.demo",
        "  \n\t package \t org.example.demo\n\n",
        "\r\npackage  org.example.demo   ",
    ] {
        let (_, model) = f_model(text).unwrap();
        assert_eq!(model.name, "org.example.demo");
    }
}

#[test]
fn methods_and_broadcasts_interleaved() {
    let text = "interface Mixed {
    broadcast b1 {
        out {
        }
    }
    method m1 {
    }
    attribute UInt8 level readonly
    broadcast b2 { out { } }
    method m2 {
    }
    method m3 {
    }
    broadcast b3 { out { } }
}";
    let (rest, read) = f_interface(text).unwrap();
    assert_eq!(rest, "");
    let methods: Vec<&str> = read.methods.iter().map(|m| m.name.as_str()).collect();
    let broadcasts: Vec<&str> = read.broadcasts.iter().map(|b| b.name.as_str()).collect();
    assert_eq!(methods, vec!["m1", "m2", "m3"]);
    assert_eq!(broadcasts, vec!["b1", "b2", "b3"]);
    assert_eq!(read.attributes.len(), 1);
    assert_eq!(read.attributes[0].name, "level");
    assert_eq!(read.attributes[0].readonly, Some(true));
    assert_eq!(read.attributes[0].no_subscriptions, None);
}

#[test]
fn method_with_out_before_in() {
    let text = "method swap {\n  out { UInt8 a }\n  in { UInt16 b }\n}\n";
    let (rest, read) = f_method(text).unwrap();
    assert_eq!(rest, "");
    assert_eq!(read.in_args, vec![argument("b", basic(FBasicTypeId::UInt16))]);
    assert_eq!(read.out_args, vec![argument("a", basic(FBasicTypeId::UInt8))]);
}

#[test]
fn method_with_two_in_blocks_fails() {
    let text = "method twice {\n  in { UInt8 a }\n  in { UInt16 b }\n}\n";
    let error = f_method(text).unwrap_err();
    assert_eq!(error.expected, Expected::Char('}'));
    assert_eq!(error.input, "in { UInt16 b }\n}\n");
}

#[test]
fn method_flags_and_errors() {
    let text = "method fire {\n  fireAndForget\n  in { UInt8 a }\n}\n";
    let (_, read) = f_method(text).unwrap();
    assert_eq!(read.fire_and_forget, Some("fireAndForget".to_string()));

    let text = "method risky {\n  error Failures\n}\n";
    let (_, read) = f_method(text).unwrap();
    assert_eq!(read.error_enum, Some("Failures".to_string()));
    assert_eq!(read.errors, None);

    let text = "method risky {\n  error { BUSY FULL = 7 }\n}\n";
    let (_, read) = f_method(text).unwrap();
    assert_eq!(read.error_enum, None);
    let errors = read.errors.unwrap();
    assert_eq!(errors.name, "");
    assert_eq!(
        errors.enumerators,
        vec![
            FEnumerator { name: "BUSY".to_string(), comment: None, value: None },
            FEnumerator { name: "FULL".to_string(), comment: None, value: Some(7) },
        ]
    );
}

#[test]
fn enumerators_count_up_from_zero() {
    let (_, colours) = f_enumeration_type("enumeration Colour { RED GREEN BLUE }").unwrap();
    assert_eq!(colours.name, "Colour");
    assert_eq!(colours.base, None);
    assert_eq!(enumerator_values(&colours.enumerators), vec![0, 1, 2]);
}

#[test]
fn enumerators_go_on_from_written_values() {
    let (_, read) =
        f_enumeration_type("enumeration Level extends Base { LOW = 10\n MID\n HIGH = -3 NEXT TOP=2147483647 OVER }")
            .unwrap();
    assert_eq!(read.base, Some("Base".to_string()));
    assert_eq!(
        enumerator_values(&read.enumerators),
        vec![10, 11, -3, -2, 2147483647, 2147483648]
    );
}

#[test]
fn name_that_starts_like_a_type() {
    let (rest, read) = f_field("String UInt8Value\n").unwrap();
    assert_eq!(rest, "");
    assert_eq!(
        read,
        FField {
            name: "UInt8Value".to_string(),
            comment: None,
            type_ref: basic(FBasicTypeId::String),
            array: None,
        }
    );

    let (rest, read) = f_type_ref("UInt8Value x").unwrap();
    assert_eq!(rest, " x");
    assert_eq!(read, derived("UInt8Value"));

    let error = f_basic_type_id("UInt8Value").unwrap_err();
    assert_eq!(error.expected, Expected::BasicType);
    assert_eq!(error.input, "UInt8Value");
}

#[test]
fn type_name_ends_where_the_identifier_ends() {
    assert_eq!(f_basic_type_id("UInt8.x").unwrap(), (".x", FBasicTypeId::UInt8));
    assert_eq!(f_basic_type_id("String").unwrap(), ("", FBasicTypeId::String));
    assert_eq!(f_basic_type_id("Int64[]").unwrap(), ("[]", FBasicTypeId::Int64));
    assert_eq!(f_type_ref("UInt8.x").unwrap(), (".x", basic(FBasicTypeId::UInt8)));
    for text in ["UInt8x", "UInt8_x", "UInt8-x", "UInt80"] {
        let error = f_basic_type_id(text).unwrap_err();
        assert_eq!(error.expected, Expected::BasicType);
        assert_eq!(error.input, text);
        assert_eq!(f_type_ref(text).unwrap(), ("", derived(text)));
    }
    assert_eq!(f_type_ref("Types.UInt8 x").unwrap(), (" x", derived("Types.UInt8")));
}

#[test]
fn every_predefined_type_is_read() {
    let all = [
        ("UInt8", FBasicTypeId::UInt8),
        ("Int8", FBasicTypeId::Int8),
        ("UInt16", FBasicTypeId::UInt16),
        ("Int16", FBasicTypeId::Int16),
        ("UInt32", FBasicTypeId::UInt32),
        ("Int32", FBasicTypeId::Int32),
        ("UInt64", FBasicTypeId::UInt64),
        ("Int64", FBasicTypeId::Int64),
        ("Integer", FBasicTypeId::Integer),
        ("Boolean", FBasicTypeId::Boolean),
        ("Float", FBasicTypeId::Float),
        ("Double", FBasicTypeId::Double),
        ("String", FBasicTypeId::String),
        ("ByteBuffer", FBasicTypeId::ByteBuffer),
    ];
    for (text, id) in all {
        let line = format!("{} rest", text);
        let (rest, read) = f_basic_type_id(&line).unwrap();
        assert_eq!(read, id);
        assert_eq!(rest, " rest");
        assert_eq!(f_type_ref(text).unwrap().1, basic(id));
    }
}

#[test]
fn version_numbers_fit_sixteen_bits() {
    let (_, read) = f_version("version { major 65535 minor 007 }\n").unwrap();
    assert_eq!(read, FVersion { major: 65535, minor: 7 });

    let error = f_version("version { major 65536 minor 0 }\n").unwrap_err();
    assert_eq!(error.expected, Expected::UInt16);
    assert_eq!(error.input, "65536 minor 0 }\n");

    let error = f_version("version { major +1 minor 0 }\n").unwrap_err();
    assert_eq!(error.expected, Expected::UInt16);

    let error = f_version("version { major 1 minor 0 }").unwrap_err();
    assert_eq!(error.expected, Expected::LineEnding);
    assert_eq!(error.input, "");

    let (rest, _) = f_version("version { major 1 minor 0 }\r\nx").unwrap();
    assert_eq!(rest, "x");
}

#[test]
fn failures_say_where_and_what() {
    let error = f_version("  versio { major 1 minor 0 }\n").unwrap_err();
    assert_eq!(error.expected, Expected::Keyword(Keyword::Version));
    assert_eq!(error.input, "versio { major 1 minor 0 }\n");

    let error = f_interface("interface A{}").unwrap_err();
    assert_eq!(error.expected, Expected::Class(CharClass::Whitespace));
    assert_eq!(error.input, "{}");

    let error = f_interface("interface  {}").unwrap_err();
    assert_eq!(error.expected, Expected::Class(CharClass::Identifier));

    let error = f_argument("  ?").unwrap_err();
    assert_eq!(error.expected, Expected::TypeRef);
    assert_eq!(error.input, "?");

    let error = f_type("interface X {}").unwrap_err();
    assert_eq!(error.expected, Expected::Declaration);
}

#[test]
fn arguments_with_array_marker_and_annotation() {
    let text = "<** @description: the names @author: me @custom: x **>\n  String names[]\n";
    let (rest, read) = f_argument(text).unwrap();
    assert_eq!(rest, "");
    assert_eq!(read.name, "names");
    assert_eq!(read.array, Some("[]".to_string()));
    assert_eq!(
        read.comment,
        Some(FAnnotationBlock {
            elements: vec![
                FAnnotation {
                    kind: Some(FAnnotationType::Description),
                    comment: Some(" the names ".to_string()),
                },
                FAnnotation {
                    kind: Some(FAnnotationType::Author),
                    comment: Some(" me ".to_string()),
                },
                FAnnotation {
                    kind: None,
                    comment: Some(" x ".to_string()),
                },
            ],
        })
    );
}

#[test]
fn annotation_behind_a_field() {
    let text = "UInt8 level <** @see: gauge **>\nrest";
    let (rest, read) = f_field(text).unwrap();
    assert_eq!(rest, "rest");
    assert_eq!(
        read.comment,
        Some(FAnnotationBlock {
            elements: vec![FAnnotation {
                kind: Some(FAnnotationType::See),
                comment: Some(" gauge ".to_string()),
            }],
        })
    );

    let text = "<** @param: first **> UInt8 level[] <** @param: second **> }";
    let (rest, read) = f_argument(text).unwrap();
    assert_eq!(rest, "}");
    assert_eq!(read.array, Some("[]".to_string()));
    let both = read.comment.unwrap();
    assert_eq!(both.elements.len(), 2);
    assert_eq!(both.elements[0].comment, Some(" first ".to_string()));
    assert_eq!(both.elements[1].comment, Some(" second ".to_string()));

    // a block on the next line belongs to what follows
    let text = "UInt8 level\n<** @see: gauge **>\nUInt8 other\n";
    let (rest, read) = f_field(text).unwrap();
    assert_eq!(read.comment, None);
    assert_eq!(rest, "<** @see: gauge **>\nUInt8 other\n");
}

#[test]
fn type_definitions_of_every_kind() {
    let text = "typeCollection Shapes {
    version { major 2 minor 1 }
    struct Point { Int32 x
        Int32 y }
    struct Point3 extends Point polymorphic { Int32 z }
    union Either { Point p
        String text }
    enumeration Side { LEFT RIGHT }
    array Points of Point
    map Named { String to Point }
    typedef Distance is UInt32
}";
    let (rest, read) = f_type_collection(text).unwrap();
    assert_eq!(rest, "");
    assert_eq!(read.name, Some("Shapes".to_string()));
    assert_eq!(read.version, Some(FVersion { major: 2, minor: 1 }));
    assert_eq!(read.types.len(), 7);
    match &read.types[1] {
        FType::StructType(s) => {
            assert_eq!(s.name, "Point3");
            assert_eq!(s.base, Some("Point".to_string()));
            assert_eq!(s.polymorphic, Some(true));
            assert_eq!(s.elements.len(), 1);
        }
        other => panic!("{:?}", other),
    }
    match &read.types[4] {
        FType::ArrayType(a) => {
            assert_eq!(a.name, "Points");
            assert_eq!(a.element_type, derived("Point"));
        }
        other => panic!("{:?}", other),
    }
    match &read.types[5] {
        FType::MapType(m) => {
            assert_eq!(m.key_type, basic(FBasicTypeId::String));
            assert_eq!(m.value_type, derived("Point"));
        }
        other => panic!("{:?}", other),
    }
    match &read.types[6] {
        FType::TypeDef(t) => {
            assert_eq!(t.name, "Distance");
            assert_eq!(t.actual_type, basic(FBasicTypeId::UInt32));
        }
        other => panic!("{:?}", other),
    }

    let (_, anonymous) = f_type_collection("typeCollection { }").unwrap();
    assert_eq!(anonymous.name, None);
}

#[test]
fn attribute_with_both_flags() {
    let (rest, read) = f_attribute("attribute Shapes.Point origin readonly noSubscriptions\n").unwrap();
    assert_eq!(rest, "\n");
    assert_eq!(read.name, "origin");
    assert_eq!(read.type_ref, derived("Shapes.Point"));
    assert_eq!(read.readonly, Some(true));
    assert_eq!(read.no_subscriptions, Some(true));
}

#[test]
fn duplicate_interface_is_reported_once() {
    let model = FModel {
        name: "demo".to_string(),
        imports: Vec::new(),
        interfaces: vec![interface("A"), interface("B"), interface("A")],
        type_collections: Vec::new(),
    };
    let (same, found) = validate(model.clone(), 8);
    assert_eq!(same, model);
    assert_eq!(
        found,
        vec![Diagnostic::DuplicateDeclaration {
            name: "A".to_string(),
            scope: "demo".to_string(),
            first: 0,
            second: 2,
        }]
    );
}

#[test]
fn three_of_one_name_are_two_reports() {
    let model = FModel {
        name: "demo".to_string(),
        imports: Vec::new(),
        interfaces: vec![interface("A"), interface("A"), interface("A")],
        type_collections: Vec::new(),
    };
    let (_, found) = validate(model, 8);
    assert_eq!(found.len(), 2);
    assert_eq!(
        found[1],
        Diagnostic::DuplicateDeclaration {
            name: "A".to_string(),
            scope: "demo".to_string(),
            first: 0,
            second: 2,
        }
    );
}

#[test]
fn duplicates_inside_an_interface() {
    let text = "package demo
interface I {
    method m {
    }
    method m {
    }
    struct S { UInt8 a
        UInt8 a }
    enumeration E { X Y X Z = 1 }
}
";
    let found = parse_model(text).unwrap_err();
    assert_eq!(
        found,
        vec![
            Diagnostic::DuplicateDeclaration {
                name: "m".to_string(),
                scope: "I".to_string(),
                first: 0,
                second: 1,
            },
            Diagnostic::DuplicateDeclaration {
                name: "a".to_string(),
                scope: "S".to_string(),
                first: 0,
                second: 1,
            },
            Diagnostic::DuplicateDeclaration {
                name: "X".to_string(),
                scope: "E".to_string(),
                first: 0,
                second: 2,
            },
            Diagnostic::DuplicateDeclaration {
                name: "Z".to_string(),
                scope: "E".to_string(),
                first: 1,
                second: 3,
            },
        ]
    );
}

#[test]
fn unknown_types_of_arrays_and_maps() {
    let text = "package demo
typeCollection T {
    array Known of UInt8
    array Broken of Missing
    map M { Known to Lost }
    struct S extends Nowhere { }
}
";
    let found = parse_model(text).unwrap_err();
    assert_eq!(
        found,
        vec![
            Diagnostic::UnknownTypeReference {
                name: "Missing".to_string(),
                scope: "Broken".to_string(),
            },
            Diagnostic::UnknownTypeReference {
                name: "Lost".to_string(),
                scope: "M".to_string(),
            },
            Diagnostic::UnknownTypeReference {
                name: "Nowhere".to_string(),
                scope: "S".to_string(),
            },
        ]
    );
}

fn chain_text(depth: usize) -> String {
    let mut text = String::from("package demo\ntypeCollection Chain {\n");
    for i in 0..depth {
        if i + 1 < depth {
            text.push_str(&format!("    struct S{} extends S{} {{ }}\n", i, i + 1));
        } else {
            text.push_str(&format!("    struct S{} {{ }}\n", i));
        }
    }
    text.push_str("}\n");
    text
}

#[test]
fn chain_within_the_limit_passes() {
    assert!(parse_model_within(&chain_text(4), 4).is_ok());
    assert!(parse_model(&chain_text(64)).is_ok());
}

#[test]
fn chain_beyond_the_limit_is_reported() {
    let found = parse_model_within(&chain_text(5), 4).unwrap_err();
    assert_eq!(found, vec![Diagnostic::RecursionLimitExceeded { depth: 4 }]);

    let found = parse_model(&chain_text(66)).unwrap_err();
    assert_eq!(
        found,
        vec![
            Diagnostic::RecursionLimitExceeded { depth: 64 },
            Diagnostic::RecursionLimitExceeded { depth: 64 },
        ]
    );
}

#[test]
fn cyclic_bases_are_reported() {
    let text = "package demo
typeCollection Loop {
    struct A extends B { }
    struct B extends A { }
    union U extends U { }
    enumeration Fine extends Other { }
    enumeration Other { }
}
";
    let found = parse_model(text).unwrap_err();
    assert_eq!(
        found,
        vec![
            Diagnostic::CyclicBaseType {
                chain: vec!["A".to_string(), "B".to_string(), "A".to_string()],
            },
            Diagnostic::CyclicBaseType {
                chain: vec!["B".to_string(), "A".to_string(), "B".to_string()],
            },
            Diagnostic::CyclicBaseType {
                chain: vec!["U".to_string(), "U".to_string()],
            },
        ]
    );
}

#[test]
fn every_syntax_error_is_reported() {
    let text = "package demo
interface A {
    method broken
    method fine {
    }
    broadcast alsoBroken { }
}
interface B {
}
interface {
}
";
    let found = parse_model(text).unwrap_err();
    assert_eq!(found, syntax_diagnostics(text));
    assert_eq!(
        found,
        vec![
            Diagnostic::SyntaxError {
                position: 49,
                expected: Expected::Char('{'),
                found: Some('m'),
            },
            Diagnostic::SyntaxError {
                position: 96,
                expected: Expected::Keyword(Keyword::Out),
                found: Some('}'),
            },
            Diagnostic::SyntaxError {
                position: 126,
                expected: Expected::Class(CharClass::Identifier),
                found: Some('{'),
            },
        ]
    );
}

#[test]
fn text_behind_the_model_is_an_error() {
    let found = parse_model("package demo\ninterface A {\n}\nnonsense").unwrap_err();
    assert_eq!(
        found,
        vec![Diagnostic::SyntaxError {
            position: 29,
            expected: Expected::Declaration,
            found: Some('n'),
        }]
    );
}

#[test]
fn missing_package_header_is_an_error() {
    let found = parse_model("").unwrap_err();
    assert_eq!(
        found,
        vec![Diagnostic::SyntaxError {
            position: 0,
            expected: Expected::Keyword(Keyword::Package),
            found: None,
        }]
    );
}

#[test]
fn positions_count_characters() {
    let found = parse_model("package d\ninterface Ä {\n}\n").unwrap_err();
    assert_eq!(
        found[0],
        Diagnostic::SyntaxError {
            position: 20,
            expected: Expected::Class(CharClass::Identifier),
            found: Some('Ä'),
        }
    );
}

const CORE: &str = "package org.example
interface Player {
    attribute UInt8 volume
    method play {
        in { String title }
        out { Boolean started }
    }
    broadcast stopped { out { UInt32 position } }
    struct Track { String title
        UInt32 length }
    enumeration Mode { ONCE LOOP }
}
";

const DEPLOYMENT: &str = "package org.example.deploy
import \"player.fidl\"
import org.example.* from \"player.fidl\"

specification Wire {
    Id : Integer (default: 0)
    Label : String
    Reliable : Boolean (default: true)
    Peer : Interface
}

define Wire for interface org.example.Player {
    Id = 7
    Label = \"player\"
    attribute volume { Id = 1 }
    method play:quick {
        Reliable = false
        in { title { Label = \"t\" # { Id = 3 } } }
        out { started { } }
    }
    broadcast stopped { out { position { Id = 4 } } }
    struct Track { title { Id = 5 } length { } }
    enumeration Mode { ONCE { Id = 1 } LOOP { Id = 2 } }
}
";

#[test]
fn deployment_is_read() {
    let model = parse_deployment(DEPLOYMENT).unwrap();
    assert_eq!(model.name, "org.example.deploy");
    assert_eq!(
        model.imports,
        vec![
            franca_idl::deployment::Import::ImportUri("player.fidl".to_string()),
            franca_idl::deployment::Import::ImportedSpec(
                "org.example.*".to_string(),
                "player.fidl".to_string()
            ),
        ]
    );
    assert_eq!(
        model.specifications,
        vec![FdSpecification {
            name: "Wire".to_string(),
            declarations: vec![
                FdPropertyDecl {
                    name: "Id".to_string(),
                    kind: FdValueKind::Integer,
                    default: Some(FdValue::FdInteger(0)),
                },
                FdPropertyDecl {
                    name: "Label".to_string(),
                    kind: FdValueKind::Text,
                    default: None,
                },
                FdPropertyDecl {
                    name: "Reliable".to_string(),
                    kind: FdValueKind::Boolean,
                    default: Some(FdValue::FdBoolean(true)),
                },
                FdPropertyDecl {
                    name: "Peer".to_string(),
                    kind: FdValueKind::InterfaceRef,
                    default: None,
                },
            ],
        }]
    );
    assert_eq!(model.deployments.len(), 1);
    let root = &model.deployments[0];
    assert_eq!(root.spec, "Wire");
    assert_eq!(root.selector, None);
    assert_eq!(root.interface.target, "org.example.Player");
    assert_eq!(root.interface.properties.items.len(), 2);
    assert_eq!(root.interface.attributes.len(), 1);
    assert_eq!(root.interface.broadcasts.len(), 1);
    assert_eq!(root.interface.types.len(), 2);
    let play = &root.interface.methods[0];
    assert_eq!(play.target, "play");
    assert_eq!(play.selector, Some(Id { name: "quick".to_string() }));
    let title = &play.in_args.as_ref().unwrap().arguments[0];
    assert_eq!(title.target, "title");
    match &title.overwrites {
        Some(FdTypeOverwrites::FdPlainTypeOverwrites(plain)) => {
            assert_eq!(
                plain.properties.items,
                vec![FdProperty { decl: "Id".to_string(), value: FdValue::FdInteger(3) }]
            );
        }
        other => panic!("{:?}", other),
    }
}

#[test]
fn deployment_that_fits_passes() {
    let core = parse_model(CORE).unwrap();
    let deployment = parse_deployment(DEPLOYMENT).unwrap();
    assert_eq!(validate_deployment(&deployment, &core), Vec::new());
}

fn property_set(items: Vec<FdProperty>) -> FdPropertySet {
    FdPropertySet { items }
}

fn root(spec: &str, target: &str) -> FdRootElement {
    FdRootElement {
        spec: spec.to_string(),
        selector: None,
        interface: FdInterface {
            target: target.to_string(),
            properties: property_set(Vec::new()),
            attributes: Vec::new(),
            methods: Vec::new(),
            broadcasts: Vec::new(),
            types: Vec::new(),
        },
        extensions: Vec::new(),
    }
}

#[test]
fn unresolved_target_is_reported() {
    let core = parse_model(CORE).unwrap();
    let (_, wire) = fd_specification("specification Wire { Id : Integer }").unwrap();
    let deployment = FdModel {
        name: "d".to_string(),
        imports: Vec::new(),
        specifications: vec![wire],
        deployments: vec![root("Wire", "org.example.Recorder"), root("Wire", "Player")],
    };
    assert_eq!(
        validate_deployment(&deployment, &core),
        vec![Diagnostic::UnknownTypeReference {
            name: "org.example.Recorder".to_string(),
            scope: "d".to_string(),
        }]
    );
}

#[test]
fn nested_targets_and_properties_are_checked() {
    let core = parse_model(CORE).unwrap();
    let (_, wire) = fd_specification("specification Wire { Id : Integer }").unwrap();
    let mut player = root("Wire", "Player");
    player.interface.properties = property_set(vec![
        FdProperty { decl: "Id".to_string(), value: FdValue::FdString("seven".to_string()) },
        FdProperty { decl: "Colour".to_string(), value: FdValue::FdInteger(1) },
    ]);
    player.interface.attributes.push(FdAttribute {
        target: "balance".to_string(),
        properties: property_set(Vec::new()),
        overwrites: None,
    });
    player.interface.methods.push(FdMethod {
        target: "play".to_string(),
        selector: None,
        properties: property_set(Vec::new()),
        in_args: Some(FdArgumentList {
            arguments: vec![FdArgument {
                target: "started".to_string(),
                properties: property_set(Vec::new()),
                overwrites: None,
            }],
        }),
        out_args: None,
    });
    let mut stray = root("Cable", "Player");
    stray.interface.properties = property_set(vec![FdProperty {
        decl: "Anything".to_string(),
        value: FdValue::FdBoolean(true),
    }]);
    let deployment = FdModel {
        name: "d".to_string(),
        imports: Vec::new(),
        specifications: vec![wire],
        deployments: vec![player, stray],
    };
    assert_eq!(
        validate_deployment(&deployment, &core),
        vec![
            Diagnostic::InvalidPropertyValue {
                property: "Id".to_string(),
                expected_kind: FdValueKind::Integer,
                found_kind: FdValueKind::Text,
            },
            Diagnostic::UnknownTypeReference {
                name: "Colour".to_string(),
                scope: "Wire".to_string(),
            },
            Diagnostic::UnknownTypeReference {
                name: "balance".to_string(),
                scope: "Player".to_string(),
            },
            Diagnostic::UnknownTypeReference {
                name: "started".to_string(),
                scope: "play".to_string(),
            },
            Diagnostic::UnknownTypeReference {
                name: "Cable".to_string(),
                scope: "d".to_string(),
            },
        ]
    );
}

#[test]
fn type_deployments_go_by_kind() {
    let core = parse_model(CORE).unwrap();
    let text = "package d
specification W { }
define W for interface Player {
    union Track { }
    struct Track { title { } width { } }
    enumeration Mode { TWICE { } }
    array Mode { }
}
";
    let deployment = parse_deployment(text).unwrap();
    assert_eq!(
        validate_deployment(&deployment, &core),
        vec![
            Diagnostic::UnknownTypeReference {
                name: "Track".to_string(),
                scope: "Player".to_string(),
            },
            Diagnostic::UnknownTypeReference {
                name: "width".to_string(),
                scope: "Track".to_string(),
            },
            Diagnostic::UnknownTypeReference {
                name: "TWICE".to_string(),
                scope: "Mode".to_string(),
            },
            Diagnostic::UnknownTypeReference {
                name: "Mode".to_string(),
                scope: "Player".to_string(),
            },
        ]
    );
}

const EXTENDED: &str = "package d
specification W { Id : Integer }
define W for interface Player {
    Id = 1
    attribute volume { }
    provider audio.Main {
        Id = 2
        port left { Id = \"l\" }
        port right {
            pin one { }
        }
    }
    consumer Radio { Colour = 3 }
}
";

#[test]
fn extension_elements_are_read_and_checked() {
    let core = parse_model(CORE).unwrap();
    let deployment = parse_deployment(EXTENDED).unwrap();
    let root = &deployment.deployments[0];
    assert_eq!(root.interface.attributes.len(), 1);
    assert_eq!(root.extensions.len(), 2);
    let provider = &root.extensions[0];
    assert_eq!(provider.tag, Id { name: "provider".to_string() });
    assert_eq!(provider.name, "audio.Main");
    assert_eq!(
        provider.properties.items,
        vec![FdProperty { decl: "Id".to_string(), value: FdValue::FdInteger(2) }]
    );
    assert_eq!(provider.elements.len(), 2);
    assert_eq!(provider.elements[1].name, "right");
    assert_eq!(
        provider.elements[1].elements,
        vec![FdExtensionElement {
            tag: Id { name: "pin".to_string() },
            name: "one".to_string(),
            properties: FdPropertySet { items: Vec::new() },
            elements: Vec::new(),
        }]
    );
    assert_eq!(
        validate_deployment(&deployment, &core),
        vec![
            Diagnostic::InvalidPropertyValue {
                property: "Id".to_string(),
                expected_kind: FdValueKind::Integer,
                found_kind: FdValueKind::Text,
            },
            Diagnostic::UnknownTypeReference {
                name: "Colour".to_string(),
                scope: "W".to_string(),
            },
        ]
    );
}

#[test]
fn extension_elements_nest_to_the_limit() {
    let text = "a A { b B { c C { } } } rest";
    let (rest, read) = fd_extension_element_within(text, 3).unwrap();
    assert_eq!(rest, " rest");
    assert_eq!(read.elements[0].elements[0].name, "C");
    assert_eq!(fd_extension_element(text).unwrap().1, read);

    let error = fd_extension_element_within(text, 2).unwrap_err();
    assert_eq!(error.expected, Expected::Nesting);
    assert_eq!(error.input, "{ } } } rest");
    let error = fd_extension_element_within(text, 0).unwrap_err();
    assert_eq!(error.expected, Expected::Nesting);
    assert_eq!(error.input, "{ b B { c C { } } } rest");

    let error = fd_extension_element("a { }").unwrap_err();
    assert_eq!(error.expected, Expected::Class(CharClass::Qualified));
    let error = fd_extension_element("a A { b B { }").unwrap_err();
    assert_eq!(error.expected, Expected::Char('}'));
    assert_eq!(error.input, "");
}

#[test]
fn nesting_beyond_the_default_is_reported() {
    let nested = |levels: usize| {
        let mut text = String::from("package d\ndefine W for interface P {\n");
        for i in 0..levels {
            text.push_str(&format!("e n{} {{ ", i));
        }
        for _ in 0..levels {
            text.push_str("} ");
        }
        text.push_str("}\n");
        text
    };
    assert!(parse_deployment(&nested(64)).is_ok());
    assert_eq!(
        parse_deployment(&nested(65)).unwrap_err(),
        vec![Diagnostic::RecursionLimitExceeded { depth: 64 }]
    );
}

#[test]
fn specifications_are_checked() {
    let core = parse_model(CORE).unwrap();
    let text = "package d
specification W {
    Id : Integer (default: \"one\")
    Id : String (default: \"two\")
    Peer : Interface (default: &org.example.Player)
    On : Boolean (default: 1)
}
specification V { }
specification W { }
";
    let deployment = parse_deployment(text).unwrap();
    assert_eq!(
        validate_deployment(&deployment, &core),
        vec![
            Diagnostic::DuplicateDeclaration {
                name: "W".to_string(),
                scope: "d".to_string(),
                first: 0,
                second: 2,
            },
            Diagnostic::DuplicateDeclaration {
                name: "Id".to_string(),
                scope: "W".to_string(),
                first: 0,
                second: 1,
            },
            Diagnostic::InvalidPropertyValue {
                property: "Id".to_string(),
                expected_kind: FdValueKind::Integer,
                found_kind: FdValueKind::Text,
            },
            Diagnostic::InvalidPropertyValue {
                property: "On".to_string(),
                expected_kind: FdValueKind::Boolean,
                found_kind: FdValueKind::Integer,
            },
        ]
    );
}

#[test]
fn deployment_syntax_errors_are_all_reported() {
    let text = "package d
specification W { Id Integer }
define W for interface A { }
define W for A { }
";
    let found = parse_deployment(text).unwrap_err();
    assert_eq!(
        found,
        vec![
            Diagnostic::SyntaxError {
                position: 28,
                expected: Expected::Char('}'),
                found: Some('I'),
            },
            Diagnostic::SyntaxError {
                position: 83,
                expected: Expected::Keyword(Keyword::Interface),
                found: Some('A'),
            },
        ]
    );
}

#[test]
fn names_with_selectors() {
    let (rest, (name, selector)) = fqn_with_selector("org.example.Player:fast {").unwrap();
    assert_eq!(name, "org.example.Player");
    assert_eq!(selector, Some(Id { name: "fast".to_string() }));
    assert_eq!(rest, " {");

    let (rest, (name, selector)) = fqn_with_selector("Player: x").unwrap();
    assert_eq!(name, "Player");
    assert_eq!(selector, None);
    assert_eq!(rest, ": x");

    let (rest, read) = id("abc-d_e.f").unwrap();
    assert_eq!(read, Id { name: "abc-d_e".to_string() });
    assert_eq!(rest, ".f");

    let (_, root) = fd_root_element("define S for interface P:sel { }").unwrap();
    assert_eq!(root.selector, Some(Id { name: "sel".to_string() }));
    assert_eq!(root.interface.target, "P");

    let (rest, model) = fd_model("package p define S for interface P { } rest").unwrap();
    assert_eq!(model.deployments.len(), 1);
    assert_eq!(rest, " rest");
}

#[test]
fn struct_and_field_lists() {
    let (_, read) = f_struct_type("struct Empty {}").unwrap();
    assert_eq!(read.elements, Vec::new());
    assert_eq!(read.polymorphic, None);
}
