use deno_bindgen_codegen::cargo::{Artifact, Build, CompilerArtifact};
use deno_bindgen_codegen::example::{
    add2, buf_mut, bytelen, inc_foo, make_foo, non_blocking, Foo, Input,
};
use deno_bindgen_codegen::ir::Type as Boundary;
use deno_bindgen_codegen::macros::attrs::SerdeAttr;
use deno_bindgen_codegen::macros::docs::{format_docs, get_docs};
use deno_bindgen_codegen::macros::syntax::{Attribute, Lit, Meta, PathArguments, PathSegment, RustType};
use deno_bindgen_codegen::macros::types::{custom_type, parse_type};
use deno_bindgen_codegen::macros::meta::{rs_to_ts, CType, Glue, Symbol, Type};
use deno_bindgen_codegen::macros::util::Error;

fn rename(style: &str, name: &str) -> Option<String> {
    SerdeAttr::RenameAll(style.to_string()).try_transform(name)
}

#[test]
fn renaming_in_every_style() {
    assert_eq!(rename("lowercase", "FooBar"), Some("foobar".to_string()));
    assert_eq!(rename("UPPERCASE", "FooBar"), Some("FOOBAR".to_string()));
    assert_eq!(rename("camelCase", "foo_bar"), Some("fooBar".to_string()));
    assert_eq!(rename("snake_case", "fooBar"), Some("foo_bar".to_string()));
    assert_eq!(rename("PascalCase", "foo_bar"), Some("FooBar".to_string()));
    assert_eq!(
        rename("SCREAMING_SNAKE_CASE", "fooBar"),
        Some("FOO_BAR".to_string())
    );
    assert_eq!(rename("kebab-case", "fooBar"), None);
    let attr = SerdeAttr::RenameAll("camelCase".to_string());
    assert!(attr.is_applicable());
    assert_eq!(attr.transform("some_name"), Some("someName".to_string()));
    assert!(!SerdeAttr::RenameAll("Title Case".to_string()).is_applicable());
    let tagged = SerdeAttr::TagAndContent("key".to_string(), "value".to_string());
    assert!(tagged.is_applicable());
    assert_eq!(tagged.transform("fooBar"), None);
    assert_eq!(tagged.try_transform("fooBar"), None);
}

#[test]
fn managed_types_of_native_names() {
    for number in [
        "i8", "i16", "i32", "i64", "u8", "u16", "u32", "u64", "usize", "f32", "f64",
    ] {
        assert_eq!(rs_to_ts(number), "number");
    }
    assert_eq!(rs_to_ts("bool"), "boolean");
    assert_eq!(rs_to_ts("String"), "string");
    assert_eq!(rs_to_ts("str"), "string");
    assert_eq!(rs_to_ts("HashMap"), "Record");
    assert_eq!(rs_to_ts("Vec"), "Array");
    assert_eq!(rs_to_ts("HashSet"), "Array");
    assert_eq!(rs_to_ts("Value"), "any");
    assert_eq!(rs_to_ts("MyStruct"), "MyStruct");
}

#[test]
fn documentation_comments() {
    assert_eq!(format_docs(&Vec::new()), "");
    assert_eq!(format_docs(&vec![" One line".to_string()]), "/**\n  * One line\n  **/\n");
    assert_eq!(
        format_docs(&vec![" First".to_string(), " Second".to_string()]),
        "/**\n  * First\n  * Second\n  **/\n"
    );
    let doc = |text: &str| Attribute {
        path: "doc".to_string(),
        meta: Some(Meta::NameValue(Lit::Str(text.to_string()))),
    };
    let attributes = vec![
        doc(" First"),
        Attribute { path: "derive".to_string(), meta: Some(Meta::List(Vec::new())) },
        Attribute { path: "doc".to_string(), meta: Some(Meta::NameValue(Lit::Other)) },
        Attribute { path: "cfg".to_string(), meta: Some(Meta::NameValue(Lit::Str("x".to_string()))) },
        Attribute { path: "doc".to_string(), meta: None },
        Attribute { path: "inline".to_string(), meta: Some(Meta::Path) },
        doc(" Second"),
    ];
    assert_eq!(get_docs(&attributes), "/**\n  * First\n  * Second\n  **/\n");
    assert_eq!(get_docs(&Vec::new()), "");
}

#[test]
fn boundary_types() {
    assert_eq!(CType::from(&Type::I8), CType::I8);
    assert_eq!(CType::from(&Type::Usize), CType::Usize);
    assert_eq!(CType::from(&Type::Void), CType::Void);
    assert_eq!(CType::from(&Type::BufferMut), CType::BufferMut);
    assert_eq!(CType::from(&Type::Str), CType::Str);
    assert_eq!(
        CType::from(&Type::StructEnum { ident: "Foo".to_string() }),
        CType::Ptr
    );
    let glue = Glue {
        name: "lib".to_string(),
        little_endian: true,
        symbols: vec![(
            "add".to_string(),
            Symbol {
                parameters: vec![Type::I32, Type::I32],
                result: Type::I32,
                non_blocking: false,
            },
        )],
        type_defs: Vec::new(),
        ts_types: Vec::new(),
    };
    assert_eq!(glue.symbols[0].1.parameters.len(), 2);
}

#[test]
fn extraction_errors() {
    assert_eq!(Error::Asyncness.message(), "async functions are not supported");
    assert_eq!(Error::Reciever.message(), "methods are not supported");
    assert_eq!(Error::UnsupportedType.message(), "unsupported type");
    assert_eq!(Error::Generics.message(), "generics are not supported");
    assert_eq!(Error::WhereClause.message(), "where clauses are not supported");
    assert_eq!(
        Error::MissingReceiver.message(),
        "methods must take the value itself"
    );
}

#[test]
fn cargo_arguments() {
    assert_eq!(
        Build::new().arguments(),
        vec!["build", "--lib", "--message-format=json"]
    );
    assert_eq!(
        Build::new().release(true).arguments(),
        vec!["build", "--lib", "--message-format=json", "--release"]
    );
    assert_eq!(
        Build::default().release(true).release(false).arguments(),
        vec!["build", "--lib", "--message-format=json"]
    );
}

fn report(kinds: &[&str], files: &[&str], package: &str) -> CompilerArtifact {
    CompilerArtifact {
        kinds: kinds.iter().map(|k| k.to_string()).collect(),
        filenames: files.iter().map(|f| f.to_string()).collect(),
        manifest_path: package.to_string(),
    }
}

#[test]
fn last_dynamic_library_is_the_artifact() {
    assert!(Build::select(&Vec::new()).is_none());
    assert!(Build::select(&vec![report(&["lib"], &["a.rlib"], "a/Cargo.toml")]).is_none());
    assert!(Build::select(&vec![report(&["cdylib"], &[], "a/Cargo.toml")]).is_none());
    let reports = vec![
        report(&["cdylib"], &["first.so"], "first/Cargo.toml"),
        report(&["lib", "cdylib"], &["second.so", "second.d"], "second/Cargo.toml"),
        report(&["bin"], &["third"], "third/Cargo.toml"),
    ];
    assert!(Build::reports_library(&reports[0]));
    assert!(!Build::reports_library(&reports[2]));
    let Artifact { path, manifest_path } = Build::select(&reports).unwrap();
    assert_eq!(path, "second.so");
    assert_eq!(manifest_path, "second/Cargo.toml");
}

#[test]
fn example_functions() {
    assert_eq!(add2(&Input::new(3, 4)), 7);
    assert_eq!(bytelen(&[1, 2, 3]), 3);
    let mut buffer = vec![1u8, 2, 3];
    buf_mut(&mut buffer);
    assert_eq!(buffer, vec![99, 2, 3]);
    assert_eq!(non_blocking(), 42);
    let mut foo = make_foo();
    assert_eq!(foo, Foo::new(42));
    inc_foo(&mut foo);
    foo.inc();
    assert_eq!(foo.internal, 44);
    assert_eq!(foo.bar(6), 50);
}

fn named(name: &str) -> RustType {
    RustType::Path(vec![PathSegment {
        ident: name.to_string(),
        arguments: PathArguments::Absent,
    }])
}

fn reference(elem: RustType) -> RustType {
    RustType::Reference { mutable: false, lifetime: false, elem: Box::new(elem) }
}

#[test]
fn written_types_become_boundary_types() {
    assert!(matches!(parse_type(&named("u8")), Ok(Boundary::Uint8)));
    assert!(matches!(parse_type(&named("u16")), Ok(Boundary::Uint16)));
    assert!(matches!(parse_type(&named("u32")), Ok(Boundary::Uint32)));
    assert!(matches!(parse_type(&named("u64")), Ok(Boundary::Uint64)));
    assert!(matches!(parse_type(&named("usize")), Ok(Boundary::Uint64)));
    assert!(matches!(parse_type(&named("i8")), Ok(Boundary::Int8)));
    assert!(matches!(parse_type(&named("i16")), Ok(Boundary::Int16)));
    assert!(matches!(parse_type(&named("i32")), Ok(Boundary::Int32)));
    assert!(matches!(parse_type(&named("i64")), Ok(Boundary::Int64)));
    assert!(matches!(parse_type(&named("isize")), Ok(Boundary::Int64)));
    assert!(matches!(parse_type(&named("f32")), Ok(Boundary::Float32)));
    assert!(matches!(parse_type(&named("f64")), Ok(Boundary::Float64)));
    assert!(matches!(
        parse_type(&named("Foo")),
        Ok(Boundary::CustomType(name)) if name == "Foo"
    ));
    assert!(matches!(custom_type("Bar"), Boundary::CustomType(name) if name == "Bar"));
    assert!(matches!(parse_type(&RustType::Ptr), Ok(Boundary::Pointer)));
    assert!(matches!(
        parse_type(&reference(RustType::Slice(Box::new(named("u8"))))),
        Ok(Boundary::Buffer)
    ));
    assert!(matches!(
        parse_type(&reference(named("Foo"))),
        Ok(Boundary::CustomType(name)) if name == "Foo"
    ));
    assert!(matches!(
        parse_type(&reference(named("u8"))),
        Ok(Boundary::CustomType(name)) if name == "u8"
    ));
}

#[test]
fn written_types_that_bindings_cannot_carry() {
    let unsupported = vec![
        RustType::Array,
        RustType::Other,
        RustType::Slice(Box::new(named("u8"))),
        reference(RustType::Slice(Box::new(named("Foo")))),
        reference(RustType::Slice(Box::new(RustType::Array))),
        reference(RustType::Ptr),
        reference(reference(named("Foo"))),
        RustType::Path(vec![
            PathSegment { ident: "std".to_string(), arguments: PathArguments::Absent },
            PathSegment { ident: "Foo".to_string(), arguments: PathArguments::Absent },
        ]),
        RustType::Path(vec![PathSegment {
            ident: "Vec".to_string(),
            arguments: PathArguments::AngleBracketed(Vec::new()),
        }]),
    ];
    for ty in unsupported {
        assert_eq!(parse_type(&ty).unwrap_err(), Error::UnsupportedType);
    }
}
