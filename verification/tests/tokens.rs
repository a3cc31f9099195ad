use franca_idl::deploy::{fd_property_decl, fd_property_set, fd_value};
use franca_idl::deployment::{FdInterfaceRef, FdProperty, FdValue};
use franca_idl::lexer::{int32, keyword, quoted_text, skip_token, uint16, ws0, ws1};
use franca_idl::{
    brc_close, brc_open, e_string, fqn, import_uri, CharClass, Expected, Keyword,
};

#[test]
fn braces() {
    assert_eq!(brc_open("{x").unwrap(), ("x", '{'));
    assert_eq!(brc_close("}").unwrap(), ("", '}'));
    let error = brc_open(" {").unwrap_err();
    assert_eq!(error.expected, Expected::Char('{'));
    assert_eq!(error.input, " {");
    let error = brc_close("").unwrap_err();
    assert_eq!(error.expected, Expected::Char('}'));
}

#[test]
fn identifiers_and_qualified_names() {
    assert_eq!(e_string("say_Hello-2.x").unwrap(), (".x", "say_Hello-2"));
    assert_eq!(fqn("org.example.Say_Hello-2 x").unwrap(), (" x", "org.example.Say_Hello-2"));
    assert_eq!(fqn("a.*").unwrap(), ("*", "a."));
    let error = e_string("").unwrap_err();
    assert_eq!(error.expected, Expected::Class(CharClass::Identifier));
    let error = fqn("{").unwrap_err();
    assert_eq!(error.expected, Expected::Class(CharClass::Qualified));
    // letters beyond ASCII are not letters of names
    let error = e_string("ärger").unwrap_err();
    assert_eq!(error.input, "ärger");
    assert_eq!(e_string("aä").unwrap(), ("ä", "a"));
}

#[test]
fn white_space() {
    assert_eq!(ws0(" \t\r\n x "), "x ");
    assert_eq!(ws0("x"), "x");
    assert_eq!(ws1("\nx").unwrap(), "x");
    let error = ws1("x").unwrap_err();
    assert_eq!(error.expected, Expected::Class(CharClass::Whitespace));
    // a no-break space is no white space of the grammar
    assert_eq!(ws0("\u{a0}x"), "\u{a0}x");
}

#[test]
fn numbers() {
    assert_eq!(uint16("0").unwrap(), ("", 0));
    assert_eq!(uint16("00065535x").unwrap(), ("x", 65535));
    assert_eq!(uint16("12 3").unwrap(), (" 3", 12));
    assert_eq!(uint16("65536").unwrap_err().expected, Expected::UInt16);
    assert_eq!(uint16("-1").unwrap_err().expected, Expected::UInt16);
    assert_eq!(uint16("").unwrap_err().expected, Expected::UInt16);

    assert_eq!(int32("42;").unwrap(), (";", 42));
    assert_eq!(int32("+7").unwrap(), ("", 7));
    assert_eq!(int32("-0").unwrap(), ("", 0));
    assert_eq!(int32("-2147483648").unwrap(), ("", i32::MIN));
    assert_eq!(int32("2147483647").unwrap(), ("", i32::MAX));
    assert_eq!(int32("2147483648").unwrap_err().expected, Expected::Int32);
    assert_eq!(int32("-2147483649").unwrap_err().expected, Expected::Int32);
    assert_eq!(int32("-").unwrap_err().expected, Expected::Int32);
    assert_eq!(int32("- 1").unwrap_err().expected, Expected::Int32);
    assert_eq!(int32("x").unwrap_err().input, "x");
}

#[test]
fn keywords_are_whole_words() {
    assert_eq!(keyword(Keyword::Readonly, "readonly\n").unwrap(), "\n");
    assert_eq!(keyword(Keyword::Readonly, "readonly").unwrap(), "");
    assert_eq!(keyword(Keyword::In, "in{").unwrap(), "{");
    let error = keyword(Keyword::In, "interface").unwrap_err();
    assert_eq!(error.expected, Expected::Keyword(Keyword::In));
    assert_eq!(error.input, "interface");
    assert!(keyword(Keyword::In, "in.x").is_err());
    assert!(keyword(Keyword::In, "In").is_err());
}

#[test]
fn tokens_are_skipped_one_at_a_time() {
    assert_eq!(skip_token("org.example {"), " {");
    assert_eq!(skip_token("{ x"), " x");
    assert_eq!(skip_token("é"), "");
    assert_eq!(skip_token(""), "");
}

#[test]
fn values_of_properties() {
    assert_eq!(fd_value("-12 ").unwrap(), (" ", FdValue::FdInteger(-12)));
    assert_eq!(
        fd_value("\"a b\" c").unwrap(),
        (" c", FdValue::FdString("a b".to_string()))
    );
    assert_eq!(fd_value("true}").unwrap(), ("}", FdValue::FdBoolean(true)));
    assert_eq!(fd_value("false").unwrap(), ("", FdValue::FdBoolean(false)));
    assert_eq!(
        fd_value("&org.example.Player ").unwrap(),
        (
            " ",
            FdValue::FdInterfaceRef(FdInterfaceRef {
                value: "org.example.Player".to_string()
            })
        )
    );
    let error = fd_value("truely").unwrap_err();
    assert_eq!(error.expected, Expected::Value);
    assert_eq!(error.input, "truely");
    let error = fd_value("\"open").unwrap_err();
    assert_eq!(error.expected, Expected::Char('"'));
    assert_eq!(error.input, "");
    let error = fd_value("\"two\nlines\"").unwrap_err();
    assert_eq!(error.input, "\nlines\"");
}

#[test]
fn quoted_strings_with_escapes() {
    assert_eq!(quoted_text("plain\" rest"), ("\" rest", "plain"));
    assert_eq!(quoted_text("a\\\"b\" rest"), ("\" rest", "a\\\"b"));
    assert_eq!(quoted_text("back\\\\\" x"), ("\" x", "back\\\\"));
    assert_eq!(quoted_text("é\\é\""), ("\"", "é\\é"));
    // a line feed ends the text, escaped or not, and so does a last backslash
    assert_eq!(quoted_text("two\nlines"), ("\nlines", "two"));
    assert_eq!(quoted_text("two\\\nlines"), ("\\\nlines", "two"));
    assert_eq!(quoted_text("end\\"), ("\\", "end"));
    assert_eq!(quoted_text(""), ("", ""));

    assert_eq!(
        import_uri("\"say \\\"hello\\\".fidl\" x").unwrap(),
        (" x", "say \\\"hello\\\".fidl")
    );
    assert_eq!(import_uri("\"\"").unwrap(), ("", ""));
    let error = import_uri("\"open\\\"").unwrap_err();
    assert_eq!(error.expected, Expected::Char('"'));
    assert_eq!(error.input, "");
}

#[test]
fn kinds_of_properties() {
    let error = fd_property_decl("Id : Number").unwrap_err();
    assert_eq!(error.expected, Expected::ValueKind);
    assert_eq!(error.input, "Number");
    let (rest, read) = fd_property_decl(" Id:Integer(default:3) x").unwrap();
    assert_eq!(rest, " x");
    assert_eq!(read.default, Some(FdValue::FdInteger(3)));
    // a default that cannot be read is no default; the declaration ends in front of it
    let (rest, read) = fd_property_decl("Id : Integer (default: ?)").unwrap();
    assert_eq!(rest, " (default: ?)");
    assert_eq!(read.default, None);
}

#[test]
fn property_sets_may_be_empty() {
    let (rest, set) = fd_property_set("}").unwrap();
    assert_eq!(rest, "}");
    assert_eq!(set.items, Vec::new());
    let (rest, set) = fd_property_set(" A = 1\n B=\"x\" method m { }").unwrap();
    assert_eq!(rest, " method m { }");
    assert_eq!(
        set.items,
        vec![
            FdProperty { decl: "A".to_string(), value: FdValue::FdInteger(1) },
            FdProperty { decl: "B".to_string(), value: FdValue::FdString("x".to_string()) },
        ]
    );
}
