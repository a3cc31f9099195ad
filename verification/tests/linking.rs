use franca_idl::{
    link, link_within, parse_deployment, parse_model, Diagnostic, FModel, LinkedModel, TypeEntry,
    TypeKind,
};

const SHAPES: &str = "package org.shapes
typeCollection Basics {
    struct Point { Int32 x
        Int32 y }
    enumeration Failure { NONE LOST }
}
";

const CANVAS: &str = "package org.canvas
import org.shapes.* from \"shapes.fidl\"
import \"other.fidl\"
interface Canvas {
    attribute Point origin
    method draw {
        in { Point at }
        error Failure
    }
    struct Pixel extends Point { UInt8 shade }
    array Path of Point
}
";

fn canvas() -> FModel {
    // by itself the model refers to types that it does not declare
    franca_idl::f_model(CANVAS).unwrap().1
}

fn entry(kind: TypeKind, name: &str, base: Option<&str>) -> TypeEntry {
    TypeEntry {
        kind,
        name: name.to_string(),
        base: base.map(|b| b.to_string()),
    }
}

#[test]
fn imported_types_are_in_reach() {
    let shapes = parse_model(SHAPES).unwrap();
    let linked = link(&vec![shapes, canvas()], &Vec::new()).unwrap();
    let shapes_scope = vec![
        entry(TypeKind::StructType, "Point", None),
        entry(TypeKind::EnumerationType, "Failure", None),
        entry(TypeKind::StructType, "Basics.Point", None),
        entry(TypeKind::EnumerationType, "Basics.Failure", None),
        entry(TypeKind::StructType, "org.shapes.Basics.Point", None),
        entry(TypeKind::EnumerationType, "org.shapes.Basics.Failure", None),
    ];
    let mut canvas_scope = vec![
        entry(TypeKind::StructType, "Pixel", Some("Point")),
        entry(TypeKind::ArrayType, "Path", None),
        entry(TypeKind::StructType, "Canvas.Pixel", Some("Point")),
        entry(TypeKind::ArrayType, "Canvas.Path", None),
        entry(TypeKind::StructType, "org.canvas.Canvas.Pixel", Some("Point")),
        entry(TypeKind::ArrayType, "org.canvas.Canvas.Path", None),
    ];
    canvas_scope.extend(shapes_scope.clone());
    assert_eq!(
        linked,
        LinkedModel {
            scopes: vec![shapes_scope, canvas_scope],
        }
    );
}

#[test]
fn types_are_known_by_their_qualified_names() {
    let text = "package org.shapes
typeCollection Basics {
    struct Point { Int32 x }
    struct Point3 extends org.shapes.Basics.Point { Int32 z }
}
typeCollection {
    typedef Here is Basics.Point
    typedef There is org.shapes.Here
    typedef Nowhere is shapes.Here
}
interface Canvas {
    attribute Basics.Point origin
    attribute org.shapes.Canvas.Side side
    enumeration Side { LEFT RIGHT }
}
";
    assert_eq!(
        parse_model(text).unwrap_err(),
        vec![Diagnostic::UnknownTypeReference {
            name: "shapes.Here".to_string(),
            scope: "Nowhere".to_string(),
        }]
    );
}

#[test]
fn without_the_import_the_types_are_unknown() {
    let found = parse_model(CANVAS).unwrap_err();
    assert_eq!(
        found,
        vec![
            Diagnostic::UnknownTypeReference {
                name: "Point".to_string(),
                scope: "Canvas".to_string(),
            },
            Diagnostic::UnknownTypeReference {
                name: "Point".to_string(),
                scope: "draw".to_string(),
            },
            Diagnostic::UnknownTypeReference {
                name: "Failure".to_string(),
                scope: "draw".to_string(),
            },
            Diagnostic::UnknownTypeReference {
                name: "Point".to_string(),
                scope: "Pixel".to_string(),
            },
            Diagnostic::UnknownTypeReference {
                name: "Point".to_string(),
                scope: "Path".to_string(),
            },
        ]
    );
}

#[test]
fn unresolved_import_is_reported() {
    let found = link(&vec![canvas()], &Vec::new()).unwrap_err();
    assert_eq!(
        found[0],
        Diagnostic::UnresolvedImport {
            import: "org.shapes.*".to_string(),
        }
    );
    assert_eq!(found.len(), 6);
}

#[test]
fn deployments_find_their_core_model() {
    let shapes = parse_model(SHAPES).unwrap();
    let deployment = parse_deployment(
        "package org.canvas.deploy
import org.canvas.* from \"canvas.fidl\"
import org.nowhere.* from \"nowhere.fidl\"
specification S { Depth : Integer }
define S for interface org.canvas.Canvas {
    Depth = 8
    method draw { in { at { } to { } } }
}
define S for interface org.shapes.Canvas { }
",
    )
    .unwrap();
    let found = link(&vec![shapes, canvas()], &vec![deployment]).unwrap_err();
    assert_eq!(
        found,
        vec![
            Diagnostic::UnresolvedImport {
                import: "org.nowhere.*".to_string(),
            },
            Diagnostic::UnknownTypeReference {
                name: "to".to_string(),
                scope: "draw".to_string(),
            },
            Diagnostic::UnknownTypeReference {
                name: "org.shapes.Canvas".to_string(),
                scope: "org.canvas.deploy".to_string(),
            },
        ]
    );
}

#[test]
fn the_limit_of_linking_is_the_callers() {
    let text = "package p
typeCollection T {
    struct A extends B { }
    struct B extends C { }
    struct C { }
}
";
    let model = parse_model(text).unwrap();
    assert!(link_within(&vec![model.clone()], &Vec::new(), 3).is_ok());
    assert_eq!(
        link_within(&vec![model], &Vec::new(), 2).unwrap_err(),
        vec![Diagnostic::RecursionLimitExceeded { depth: 2 }]
    );
}

#[test]
fn nothing_to_link() {
    assert_eq!(
        link(&Vec::new(), &Vec::new()).unwrap(),
        LinkedModel { scopes: Vec::new() }
    );
}
