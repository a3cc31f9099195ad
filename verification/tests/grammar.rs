use franca_idl::{
    f_broadcast, f_method, f_model, f_version, import, imported_namespace, FArgument,
    FBasicTypeId, FBroadcast, FInterface, FMethod, FModel, FTypeRef, FVersion, Import,
};

#[test]
pub fn lib_f_model_test() {
    let def = "package test

interface HelloWorld {
    version { major 1 minor 0 }

    method sayHello {
        in {
            String name
        }
        out {
            String value_a
            Double value_b
            UInt32 value_c
        }
    }
}
";

    let in_args = vec![FArgument {
        name: "name".to_string(),
        comment: None,
        type_ref: FTypeRef {
            predefined: Some(FBasicTypeId::String),
            derived: None,
        },
        array: None,
    }];

    let out_args = vec![
        FArgument {
            name: "value_a".to_string(),
            comment: None,
            type_ref: FTypeRef {
                predefined: Some(FBasicTypeId::String),
                derived: None,
            },
            array: None,
        },
        FArgument {
            name: "value_b".to_string(),
            comment: None,
            type_ref: FTypeRef {
                predefined: Some(FBasicTypeId::Double),
                derived: None,
            },
            array: None,
        },
        FArgument {
            name: "value_c".to_string(),
            comment: None,
            type_ref: FTypeRef {
                predefined: Some(FBasicTypeId::UInt32),
                derived: None,
            },
            array: None,
        },
    ];

    let method = FMethod {
        name: "sayHello".to_string(),
        comment: None,
        fire_and_forget: None,
        in_args,
        out_args,
        error_enum: None,
        errors: None,
    };

    let interface = FInterface {
        name: "HelloWorld".to_string(),
        comment: None,
        version: Some(FVersion { major: 1, minor: 0 }),
        base: None,
        attributes: Vec::new(),
        methods: vec![method],
        broadcasts: Vec::new(),
        types: Vec::new(),
    };

    let exp_model = FModel {
        name: "test".to_string(),
        imports: Vec::new(),
        interfaces: vec![interface],
        type_collections: Vec::new(),
    };

    let (_, model) = f_model(def).unwrap();
    assert_eq!(model, exp_model);
}

#[test]
pub fn lib_f_method_test() {
    let def = "method sayHello {
        in {
            String name
        }
        out {
            String value_a
            Double value_b
            UInt32 value_c
        }
    }
}
";

    let in_args = vec![FArgument {
        name: "name".to_string(),
        comment: None,
        type_ref: FTypeRef {
            predefined: Some(FBasicTypeId::String),
            derived: None,
        },
        array: None,
    }];

    let out_args = vec![
        FArgument {
            name: "value_a".to_string(),
            comment: None,
            type_ref: FTypeRef {
                predefined: Some(FBasicTypeId::String),
                derived: None,
            },
            array: None,
        },
        FArgument {
            name: "value_b".to_string(),
            comment: None,
            type_ref: FTypeRef {
                predefined: Some(FBasicTypeId::Double),
                derived: None,
            },
            array: None,
        },
        FArgument {
            name: "value_c".to_string(),
            comment: None,
            type_ref: FTypeRef {
                predefined: Some(FBasicTypeId::UInt32),
                derived: None,
            },
            array: None,
        },
    ];

    let exp_method = FMethod {
        name: "sayHello".to_string(),
        comment: None,
        fire_and_forget: None,
        in_args,
        out_args,
        error_enum: None,
        errors: None,
    };

    let (_, method) = f_method(def).unwrap();
    assert_eq!(method, exp_method);
}

#[test]
pub fn lib_f_version_test() {
    let def = "version { major 1 minor 0 }\n";

    let exp_version = FVersion { major: 1, minor: 0 };

    let (_, version) = f_version(def).unwrap();
    assert_eq!(version, exp_version);
}

#[test]
pub fn lib_f_broadcast_test() {
    let def = "broadcast Greeting {
    out {
        String message
    }
}
";
    let out_args = vec![FArgument {
        name: "message".to_string(),
        comment: None,
        type_ref: FTypeRef {
            predefined: Some(FBasicTypeId::String),
            derived: None,
        },
        array: None,
    }];

    let exp_broadcast = FBroadcast {
        name: "Greeting".to_string(),
        comment: None,
        out_args,
        selective: None,
    };

    let (_, broadcast) = f_broadcast(def).unwrap();
    assert_eq!(broadcast, exp_broadcast);
}

#[test]
pub fn lib_import_uri_test() {
    let (_, ns) = imported_namespace(" org.franca*.examples.demo.* from").unwrap();
    assert_eq!(ns, "org.franca*.examples.demo.*");
    let def = r##"import org.franca.examples.demo.* from "basic.fidl""##;

    let exp_import = Import {
        imported_namespace: Some("org.franca.examples.demo.*".to_string()),
        import_uri: Some("basic.fidl".to_string()),
    };

    let (_, broadcast) = import(def).unwrap();
    assert_eq!(broadcast, exp_import);
}

#[test]
pub fn lib_import_uri_test_without_from() {
    let def = r##"import "platform:/plugin/abc.fdepl"""##;

    let exp_import = Import {
        imported_namespace: None,
        import_uri: Some("platform:/plugin/abc.fdepl".to_string()),
    };

    let (_, broadcast) = import(def).unwrap();
    assert_eq!(broadcast, exp_import);
}

#[test]
pub fn parser_f_model_test() {
    let def = "package test

interface HelloWorld {
    version { major 1 minor 0 }

    method sayHello {
        in {
            String name
        }
        out {
            String value_a
            Double value_b
            UInt32 value_c
        }
    }
}
";

    let in_args = vec![FArgument {
        name: "name".to_string(),
        comment: None,
        type_ref: FTypeRef {
            predefined: Some(FBasicTypeId::String),
            derived: None,
        },
        array: None,
    }];

    let out_args = vec![
        FArgument {
            name: "value_a".to_string(),
            comment: None,
            type_ref: FTypeRef {
                predefined: Some(FBasicTypeId::String),
                derived: None,
            },
            array: None,
        },
        FArgument {
            name: "value_b".to_string(),
            comment: None,
            type_ref: FTypeRef {
                predefined: Some(FBasicTypeId::Double),
                derived: None,
            },
            array: None,
        },
        FArgument {
            name: "value_c".to_string(),
            comment: None,
            type_ref: FTypeRef {
                predefined: Some(FBasicTypeId::UInt32),
                derived: None,
            },
            array: None,
        },
    ];

    let method = FMethod {
        name: "sayHello".to_string(),
        comment: None,
        fire_and_forget: None,
        in_args,
        out_args,
        error_enum: None,
        errors: None,
    };

    let interface = FInterface {
        name: "HelloWorld".to_string(),
        comment: None,
        version: Some(FVersion { major: 1, minor: 0 }),
        base: None,
        attributes: Vec::new(),
        methods: vec![method],
        broadcasts: Vec::new(),
        types: Vec::new(),
    };

    let exp_model = FModel {
        name: "test".to_string(),
        imports: Vec::new(),
        interfaces: vec![interface],
        type_collections: Vec::new(),
    };

    let (rest, model) = f_model(def).unwrap();
    assert_eq!(model, exp_model);
    assert_eq!(rest, "\n");
}

#[test]
pub fn parser_f_method_test() {
    let def = "method sayHello {
        in {
            String name
        }
        out {
            String value_a
            Double value_b
            UInt32 value_c
        }
    }
}
";

    let in_args = vec![FArgument {
        name: "name".to_string(),
        comment: None,
        type_ref: FTypeRef {
            predefined: Some(FBasicTypeId::String),
            derived: None,
        },
        array: None,
    }];

    let out_args = vec![
        FArgument {
            name: "value_a".to_string(),
            comment: None,
            type_ref: FTypeRef {
                predefined: Some(FBasicTypeId::String),
                derived: None,
            },
            array: None,
        },
        FArgument {
            name: "value_b".to_string(),
            comment: None,
            type_ref: FTypeRef {
                predefined: Some(FBasicTypeId::Double),
                derived: None,
            },
            array: None,
        },
        FArgument {
            name: "value_c".to_string(),
            comment: None,
            type_ref: FTypeRef {
                predefined: Some(FBasicTypeId::UInt32),
                derived: None,
            },
            array: None,
        },
    ];

    let exp_method = FMethod {
        name: "sayHello".to_string(),
        comment: None,
        fire_and_forget: None,
        in_args,
        out_args,
        error_enum: None,
        errors: None,
    };

    let (rest, method) = f_method(def).unwrap();
    assert_eq!(method, exp_method);
    assert_eq!(rest, "}\n");
}

#[test]
pub fn parser_f_version_test() {
    let def = "version { major 1 minor 0 }\n";

    let exp_version = FVersion { major: 1, minor: 0 };

    let (rest, version) = f_version(def).unwrap();
    assert_eq!(version, exp_version);
    assert_eq!(rest, "");
}

#[test]
pub fn parser_f_broadcast_test() {
    let def = "broadcast Greeting {
    out {
        String message
    }
}
";
    let out_args = vec![FArgument {
        name: "message".to_string(),
        comment: None,
        type_ref: FTypeRef {
            predefined: Some(FBasicTypeId::String),
            derived: None,
        },
        array: None,
    }];

    let exp_broadcast = FBroadcast {
        name: "Greeting".to_string(),
        comment: None,
        out_args,
        selective: None,
    };

    let (rest, broadcast) = f_broadcast(def).unwrap();
    assert_eq!(broadcast, exp_broadcast);
    assert_eq!(rest, "\n");
}

#[test]
pub fn parser_import_uri_test() {
    let (rest, ns) = imported_namespace(" org.franca*.examples.demo.* from").unwrap();
    assert_eq!(ns, "org.franca*.examples.demo.*");
    assert_eq!(rest, "");
    let def = r##"import org.franca.examples.demo.* from "basic.fidl""##;

    let exp_import = Import {
        imported_namespace: Some("org.franca.examples.demo.*".to_string()),
        import_uri: Some("basic.fidl".to_string()),
    };

    let (_, broadcast) = import(def).unwrap();
    assert_eq!(broadcast, exp_import);
}

#[test]
pub fn parser_import_uri_test_without_from() {
    let def = r##"import "platform:/plugin/abc.fdepl"""##;

    let exp_import = Import {
        imported_namespace: None,
        import_uri: Some("platform:/plugin/abc.fdepl".to_string()),
    };

    let (rest, broadcast) = import(def).unwrap();
    assert_eq!(broadcast, exp_import);
    assert_eq!(rest, "\"");
}
