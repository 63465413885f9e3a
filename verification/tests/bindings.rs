use deno_bindgen_codegen::ir::inventory::Struct;
use deno_bindgen_codegen::ir::Type as Boundary;
use deno_bindgen_codegen::macros::attrs::{find_value, get_serde_attrs, read_list, SerdeAttr};
use deno_bindgen_codegen::macros::derive_fn::{
    boundary_parameters, make_args, make_ret, process_function, Passing,
};
use deno_bindgen_codegen::macros::derive_struct::{
    describe, find_tag_and_content, member, members, process_struct, rename, kept_type, variant,
};
use deno_bindgen_codegen::macros::fn_::{
    build_symbol, handle as handle_fn, handle_inner, parse_inputs, plan_inputs, raw_parameter,
    receiver, FfiInput, FnAttributes,
};
use deno_bindgen_codegen::macros::impl_::{dealloc, handle as handle_impl, handle_method, mangle};
use deno_bindgen_codegen::macros::meta::{CType, Glue, Type};
use deno_bindgen_codegen::macros::struct_::handle as handle_struct;
use deno_bindgen_codegen::macros::syntax::{
    Attribute, Data, DeriveInput, Field, FnArg, GenericArgument, ImplMethod, ItemImpl, ItemStruct,
    Lit, Meta, Nested, PathArguments, PathSegment, RustType, Signature, Variant,
};
use deno_bindgen_codegen::macros::types::{name_to_ts, types_to_ts};
use deno_bindgen_codegen::macros::util::Error;

fn named(name: &str) -> RustType {
    RustType::Path(vec![PathSegment {
        ident: name.to_string(),
        arguments: PathArguments::Absent,
    }])
}

fn generic(name: &str, arguments: Vec<GenericArgument>) -> RustType {
    RustType::Path(vec![PathSegment {
        ident: name.to_string(),
        arguments: PathArguments::AngleBracketed(arguments),
    }])
}

fn reference(mutable: bool, lifetime: bool, elem: RustType) -> RustType {
    RustType::Reference { mutable, lifetime, elem: Box::new(elem) }
}

fn bytes(mutable: bool) -> RustType {
    reference(mutable, false, RustType::Slice(Box::new(named("u8"))))
}

fn doc(text: &str) -> Attribute {
    Attribute {
        path: "doc".to_string(),
        meta: Some(Meta::NameValue(Lit::Str(text.to_string()))),
    }
}

fn pair(key: &str, value: &str) -> Nested {
    Nested::NameValue {
        path: key.to_string(),
        lit: Lit::Str(value.to_string()),
    }
}

fn serde(items: Vec<Nested>) -> Attribute {
    Attribute { path: "serde".to_string(), meta: Some(Meta::List(items)) }
}

fn field(name: &str, ty: RustType) -> Field {
    Field { ident: Some(name.to_string()), attrs: Vec::new(), ty }
}

fn glue() -> Glue {
    Glue {
        name: "lib".to_string(),
        little_endian: true,
        symbols: Vec::new(),
        type_defs: Vec::new(),
        ts_types: Vec::new(),
    }
}

fn signature(name: &str, inputs: Vec<FnArg>, output: Option<RustType>) -> Signature {
    Signature { ident: name.to_string(), asyncness: false, inputs, output }
}

#[test]
fn managed_types_of_written_types() {
    assert_eq!(types_to_ts(&RustType::Array).unwrap(), "any");
    assert_eq!(types_to_ts(&RustType::Ptr).unwrap(), "any");
    assert_eq!(types_to_ts(&named("i32")).unwrap(), "number");
    assert_eq!(types_to_ts(&named("Foo")).unwrap(), "Foo");
    assert_eq!(
        types_to_ts(&reference(false, true, named("str"))).unwrap(),
        "string"
    );
    assert_eq!(
        types_to_ts(&generic("Vec", vec![GenericArgument::Type(named("u8"))])).unwrap(),
        "Array<number>"
    );
    assert_eq!(
        types_to_ts(&generic(
            "HashMap",
            vec![
                GenericArgument::Type(named("String")),
                GenericArgument::Type(generic("Vec", vec![GenericArgument::Type(named("bool"))])),
            ],
        ))
        .unwrap(),
        "Record<string, Array<boolean>>"
    );
    assert_eq!(
        types_to_ts(&generic("Option", vec![GenericArgument::Type(named("String"))])).unwrap(),
        "string | undefined | null"
    );
    assert_eq!(
        types_to_ts(&generic(
            "Cow",
            vec![GenericArgument::Lifetime, GenericArgument::Type(named("str"))],
        ))
        .unwrap(),
        "Cow<string>"
    );
    let path = RustType::Path(vec![
        PathSegment { ident: "std".to_string(), arguments: PathArguments::Absent },
        PathSegment { ident: "String".to_string(), arguments: PathArguments::Absent },
    ]);
    assert_eq!(types_to_ts(&path).unwrap(), "string");
    assert_eq!(name_to_ts("Vec", &vec!["u8".to_string()]).unwrap(), "Array<number>");
    assert_eq!(name_to_ts("Value", &Vec::new()).unwrap(), "any");
}

#[test]
fn written_types_without_a_managed_type() {
    let unsupported = vec![
        RustType::Other,
        RustType::Slice(Box::new(named("u8"))),
        RustType::Path(Vec::new()),
        generic("Option", Vec::new()),
        generic("Option", vec![GenericArgument::Lifetime]),
        generic("Vec", vec![GenericArgument::Other]),
        generic("Vec", vec![GenericArgument::Type(RustType::Other)]),
        generic(
            "Vec",
            vec![GenericArgument::Type(named("u8")), GenericArgument::Other],
        ),
        RustType::Path(vec![PathSegment {
            ident: "Fn".to_string(),
            arguments: PathArguments::Parenthesized,
        }]),
    ];
    for ty in unsupported {
        assert_eq!(types_to_ts(&ty).unwrap_err(), Error::UnsupportedType);
    }
    assert_eq!(name_to_ts("Option", &Vec::new()).unwrap_err(), Error::UnsupportedType);
}

#[test]
fn renaming_attributes_are_read_in_order() {
    let attributes = vec![
        doc(" Documented"),
        serde(vec![Nested::Other, pair("rename_all", "camelCase"), pair("tag", "t")]),
        Attribute { path: "serde".to_string(), meta: Some(Meta::Path) },
        Attribute {
            path: "other".to_string(),
            meta: Some(Meta::List(vec![pair("rename_all", "snake_case")])),
        },
        serde(vec![pair("default", "x")]),
        serde(vec![pair("tag", "kind"), pair("content", "value")]),
        serde(vec![pair("content", "c"), pair("tag", "t")]),
        serde(vec![
            Nested::NameValue { path: "rename_all".to_string(), lit: Lit::Other },
            pair("rename_all", "UPPERCASE"),
        ]),
    ];
    let found = get_serde_attrs(&attributes).unwrap();
    assert_eq!(found.len(), 4);
    assert!(matches!(&found[0], SerdeAttr::RenameAll(style) if style == "camelCase"));
    assert!(matches!(
        &found[1],
        SerdeAttr::TagAndContent(tag, content) if tag == "kind" && content == "value"
    ));
    assert!(matches!(
        &found[2],
        SerdeAttr::TagAndContent(tag, content) if tag == "t" && content == "c"
    ));
    assert!(matches!(&found[3], SerdeAttr::RenameAll(style) if style == "UPPERCASE"));
    assert!(get_serde_attrs(&Vec::new()).unwrap().is_empty());
}

#[test]
fn tag_and_content_need_each_other() {
    assert_eq!(
        get_serde_attrs(&vec![serde(vec![pair("tag", "t")])]).unwrap_err(),
        "Missing `content` attribute with `tag`."
    );
    assert_eq!(
        get_serde_attrs(&vec![doc("d"), serde(vec![pair("content", "c")])]).unwrap_err(),
        "Missing `tag` attribute with `content`."
    );
    let unreadable = vec![
        pair("tag", "t"),
        Nested::NameValue { path: "content".to_string(), lit: Lit::Other },
        pair("content", "later"),
    ];
    assert_eq!(
        read_list(&unreadable).unwrap_err(),
        "Missing `content` attribute with `tag`."
    );
    let items = vec![Nested::Other, pair("a", "1"), pair("b", "2"), pair("a", "3")];
    assert_eq!(find_value(&items, "a"), Some(&"1".to_string()));
    assert_eq!(find_value(&items, "b"), Some(&"2".to_string()));
    assert_eq!(find_value(&items, "c"), None);
    assert!(matches!(read_list(&items), Ok(None)));
}

#[test]
fn renames_apply_one_after_another() {
    let attrs = vec![
        SerdeAttr::TagAndContent("t".to_string(), "c".to_string()),
        SerdeAttr::RenameAll("snake_case".to_string()),
        SerdeAttr::RenameAll("UPPERCASE".to_string()),
    ];
    assert_eq!(rename(&attrs, "fooBar").unwrap(), "FOO_BAR");
    assert_eq!(rename(&Vec::new(), "fooBar").unwrap(), "fooBar");
    let invalid = vec![
        SerdeAttr::RenameAll("lowercase".to_string()),
        SerdeAttr::RenameAll("sarcasm".to_string()),
    ];
    assert_eq!(
        rename(&invalid, "FooBar").unwrap_err(),
        "Invalid attribute value: foobar"
    );
    let tagged = find_tag_and_content(&attrs).unwrap();
    assert_eq!((tagged.0.as_str(), tagged.1.as_str()), ("t", "c"));
    assert!(find_tag_and_content(&invalid).is_none());
}

#[test]
fn struct_declaration() {
    let input = DeriveInput {
        ident: "Point".to_string(),
        attrs: vec![
            doc(" A point."),
            serde(vec![pair("rename_all", "camelCase")]),
        ],
        data: Data::Struct(vec![
            field("x_position", named("i32")),
            Field {
                ident: Some("label".to_string()),
                attrs: vec![doc(" Its label.")],
                ty: generic("Option", vec![GenericArgument::Type(named("String"))]),
            },
            field("name", reference(false, true, named("str"))),
        ]),
    };
    let record = describe(&input).unwrap();
    assert_eq!(record.name, "Point");
    assert_eq!(
        record.fields,
        vec![
            ("x_position".to_string(), "i32".to_string()),
            ("label".to_string(), "Option".to_string()),
            ("name".to_string(), "str".to_string()),
        ]
    );
    assert_eq!(
        record.typescript,
        "/**\n  * A point.\n  **/\nexport type Point = {\n    xPosition: number;\n/**\n  * Its label.\n  **/\n  label: string | undefined | null;\n  name: string;\n};"
    );
    let mut metadata = glue();
    metadata.ts_types.push(("Old".to_string(), "old".to_string()));
    process_struct(&mut metadata, &input).unwrap();
    assert_eq!(metadata.ts_types.len(), 2);
    assert_eq!(metadata.ts_types[1].0, "Point");
    assert_eq!(metadata.ts_types[1].1, record.typescript);
    assert_eq!(metadata.type_defs.len(), 1);
    assert_eq!(metadata.type_defs[0].0, "Point");
    assert_eq!(metadata.type_defs[0].1, record.fields);
}

#[test]
fn enum_declaration() {
    let variants = vec![
        Variant { ident: "Unit".to_string(), attrs: Vec::new(), fields: Vec::new() },
        Variant {
            ident: "Move".to_string(),
            attrs: vec![doc(" Moves.")],
            fields: vec![field("x", named("i32")), field("y", named("i32"))],
        },
    ];
    let plain = DeriveInput {
        ident: "Action".to_string(),
        attrs: Vec::new(),
        data: Data::Enum(variants),
    };
    let record = describe(&plain).unwrap();
    assert!(record.fields.is_empty());
    assert_eq!(
        record.typescript,
        "export type Action =   \"Unit\"  |\n/**\n  * Moves.\n  **/\n { Move: {\n   x: number;\n  y: number;\n} };"
    );
    let attrs = vec![
        SerdeAttr::RenameAll("lowercase".to_string()),
        SerdeAttr::TagAndContent("kind".to_string(), "value".to_string()),
    ];
    let moved = Variant {
        ident: "Move".to_string(),
        attrs: Vec::new(),
        fields: vec![field("X", named("i32"))],
    };
    assert_eq!(
        variant(&moved, &attrs).unwrap(),
        " { kind: \"move\", value: {   x: number; } }"
    );
    let unit = Variant { ident: "Unit".to_string(), attrs: Vec::new(), fields: Vec::new() };
    assert_eq!(variant(&unit, &attrs).unwrap(), "  \"unit\"");
}

#[test]
fn declarations_that_raise_complaints() {
    let nameless = Field { ident: None, attrs: Vec::new(), ty: named("i32") };
    assert_eq!(
        member(&nameless, &Vec::new(), true).unwrap_err(),
        "Field without ident"
    );
    let odd = field("f", RustType::Array);
    assert_eq!(member(&odd, &Vec::new(), true).unwrap_err(), "not implemented");
    assert_eq!(member(&odd, &Vec::new(), false).unwrap(), "  f: any;");
    let unmanaged = field("f", RustType::Path(vec![PathSegment {
        ident: "Fn".to_string(),
        arguments: PathArguments::Parenthesized,
    }]));
    assert_eq!(member(&unmanaged, &Vec::new(), true).unwrap_err(), "not implemented");
    let styled = vec![SerdeAttr::RenameAll("sarcasm".to_string())];
    assert_eq!(
        member(&field("f", named("i32")), &styled, true).unwrap_err(),
        "Invalid attribute value: f"
    );
    assert_eq!(
        members(&vec![field("a", named("i32")), nameless], &Vec::new(), true).unwrap_err(),
        "Field without ident"
    );
    assert_eq!(
        members(&vec![field("a", named("i32"))], &Vec::new(), true).unwrap(),
        vec!["  a: number;"]
    );
    assert_eq!(kept_type(&named("i32")), Some(&"i32".to_string()));
    assert_eq!(kept_type(&reference(true, true, named("str"))), None);
    assert_eq!(kept_type(&reference(false, false, named("str"))), None);
    assert_eq!(
        kept_type(&reference(false, true, named("str"))),
        Some(&"str".to_string())
    );
    let other = DeriveInput { ident: "U".to_string(), attrs: Vec::new(), data: Data::Other };
    assert_eq!(describe(&other).unwrap_err(), "not implemented");
    let bad_attribute = DeriveInput {
        ident: "S".to_string(),
        attrs: vec![serde(vec![pair("tag", "t")])],
        data: Data::Struct(Vec::new()),
    };
    let mut metadata = glue();
    assert_eq!(
        process_struct(&mut metadata, &bad_attribute).unwrap_err(),
        "Missing `content` attribute with `tag`."
    );
    assert!(metadata.ts_types.is_empty() && metadata.type_defs.is_empty());
    let bad_variant = DeriveInput {
        ident: "E".to_string(),
        attrs: Vec::new(),
        data: Data::Enum(vec![Variant {
            ident: "V".to_string(),
            attrs: Vec::new(),
            fields: vec![Field { ident: None, attrs: Vec::new(), ty: named("i32") }],
        }]),
    };
    assert_eq!(describe(&bad_variant).unwrap_err(), "Field without ident");
}

#[test]
fn recorded_functions() {
    let mut metadata = glue();
    metadata.type_defs.push(("Input".to_string(), Vec::new()));
    let function = signature(
        "add",
        vec![
            FnArg::Typed(named("i32")),
            FnArg::Typed(named("Input")),
            FnArg::Typed(reference(false, false, named("str"))),
            FnArg::Typed(bytes(false)),
            FnArg::Typed(bytes(true)),
        ],
        Some(named("f64")),
    );
    let symbol = process_function(&function, Some("non_blocking"), &mut metadata).unwrap();
    assert!(symbol.non_blocking);
    assert!(matches!(symbol.result, Type::F64));
    assert!(matches!(
        &symbol.parameters[..],
        [Type::I32, Type::StructEnum { ident }, Type::Str, Type::Buffer, Type::BufferMut]
            if ident == "Input"
    ));
    assert_eq!(metadata.symbols.len(), 1);
    assert_eq!(metadata.symbols[0].0, "add");
    assert_eq!(metadata.symbols[0].1.parameters.len(), 5);
    assert!(metadata.symbols[0].1.non_blocking);
    let blocking = process_function(&signature("f", vec![], None), None, &mut metadata).unwrap();
    assert!(!blocking.non_blocking);
    assert!(matches!(blocking.result, Type::Void));
    let other = process_function(&signature("g", vec![], None), Some("other"), &mut metadata);
    assert!(!other.unwrap().non_blocking);
    assert_eq!(metadata.symbols.len(), 3);
}

#[test]
fn parameter_and_result_types() {
    let mut metadata = glue();
    metadata.type_defs.push(("Known".to_string(), Vec::new()));
    for (name, expected) in [
        ("i8", CType::I8),
        ("u8", CType::U8),
        ("i16", CType::I16),
        ("u16", CType::U16),
        ("i32", CType::I32),
        ("u32", CType::U32),
        ("i64", CType::I64),
        ("u64", CType::U64),
        ("usize", CType::Usize),
        ("isize", CType::Isize),
        ("Known", CType::Ptr),
    ] {
        assert_eq!(CType::from(&make_args(&named(name), &metadata).unwrap()), expected);
        assert_eq!(
            CType::from(&make_ret(&Some(named(name)), &metadata).unwrap()),
            expected
        );
    }
    assert_eq!(
        make_args(&named("f32"), &metadata).unwrap_err(),
        "Type definition not found for `f32` identifier"
    );
    assert_eq!(
        make_args(&named("Unknown"), &metadata).unwrap_err(),
        "Type definition not found for `Unknown` identifier"
    );
    assert_eq!(make_args(&RustType::Ptr, &metadata).unwrap_err(), "not implemented");
    assert_eq!(
        make_args(&reference(false, false, named("String")), &metadata).unwrap_err(),
        "not implemented"
    );
    assert!(matches!(make_ret(&None, &metadata), Ok(Type::Void)));
    assert!(matches!(make_ret(&Some(RustType::Ptr), &metadata), Ok(Type::Ptr)));
    assert!(matches!(make_ret(&Some(named("f32")), &metadata), Ok(Type::F32)));
    assert!(matches!(make_ret(&Some(named("f64")), &metadata), Ok(Type::F64)));
    assert!(matches!(make_ret(&Some(named("String")), &metadata), Ok(Type::Str)));
    assert!(matches!(make_ret(&Some(bytes(false)), &metadata), Ok(Type::Buffer)));
    assert_eq!(
        make_ret(&Some(bytes(true)), &metadata).unwrap_err(),
        "Mutable slices are not mutable from JS"
    );
    assert_eq!(
        make_ret(&Some(named("Unknown")), &metadata).unwrap_err(),
        "Unknown return type not supported by Deno FFI"
    );
    assert_eq!(
        make_ret(&Some(RustType::Array), &metadata).unwrap_err(),
        "not implemented"
    );
    assert!(metadata.declares("Known"));
    assert!(!metadata.declares("Unknown"));
}

#[test]
fn functions_that_cannot_be_recorded() {
    let mut metadata = glue();
    let with_receiver = signature("m", vec![FnArg::Receiver], None);
    assert_eq!(
        process_function(&with_receiver, None, &mut metadata).unwrap_err(),
        "not implemented"
    );
    let unknown_then_bad = signature(
        "f",
        vec![FnArg::Typed(named("Missing")), FnArg::Typed(RustType::Array)],
        Some(named("Nope")),
    );
    assert_eq!(
        process_function(&unknown_then_bad, None, &mut metadata).unwrap_err(),
        "Type definition not found for `Missing` identifier"
    );
    let bad_result = signature("f", vec![FnArg::Typed(named("u8"))], Some(named("Nope")));
    assert_eq!(
        process_function(&bad_result, None, &mut metadata).unwrap_err(),
        "Nope return type not supported by Deno FFI"
    );
    assert!(metadata.symbols.is_empty());
}

#[test]
fn boundary_parameters_are_named_by_position() {
    let parameters = vec![
        Type::I32,
        Type::StructEnum { ident: "Input".to_string() },
        Type::Str,
        Type::F64,
        Type::Buffer,
    ];
    let bound = boundary_parameters(&parameters).unwrap();
    let summary: Vec<(&str, Passing)> =
        bound.iter().map(|p| (p.name.as_str(), p.passing)).collect();
    assert_eq!(
        summary,
        vec![
            ("arg0", Passing::Value),
            ("arg1", Passing::Json),
            ("arg2", Passing::Length),
            ("arg3", Passing::Text),
            ("arg4", Passing::Length),
            ("arg5", Passing::Value),
            ("arg6", Passing::Bytes),
            ("arg7", Passing::Length),
        ]
    );
    assert!(boundary_parameters(&Vec::new()).unwrap().is_empty());
    assert!(boundary_parameters(&vec![Type::I8, Type::Void]).is_none());
    assert!(boundary_parameters(&vec![Type::BufferMut]).is_none());
    assert!(boundary_parameters(&vec![Type::Ptr]).is_none());
}

#[test]
fn bound_functions_become_symbols() {
    let add = signature(
        "add",
        vec![FnArg::Typed(named("i32")), FnArg::Typed(named("i32"))],
        Some(named("i32")),
    );
    let symbol = handle_fn(&add, FnAttributes::default()).unwrap();
    assert_eq!(symbol.name, "add");
    assert!(matches!(symbol.parameters[..], [Boundary::Int32, Boundary::Int32]));
    assert!(matches!(symbol.return_type, Boundary::Int32));
    assert!(!symbol.non_blocking && !symbol.internal && !symbol.is_constructor);

    let write = signature("write_hello", vec![FnArg::Typed(bytes(true))], None);
    let (inputs, builder) = handle_inner(
        &write,
        FnAttributes { non_blocking: true, constructor: false, internal: true },
    )
    .unwrap();
    let built = builder.build();
    assert!(matches!(built.parameters[..], [Boundary::Buffer]));
    assert!(matches!(built.return_type, Boundary::Void));
    assert!(built.non_blocking && built.internal);
    assert!(matches!(
        &inputs[..],
        [
            FfiInput::Raw { name: first, ty: Boundary::Pointer },
            FfiInput::Raw { name: second, ty: Boundary::Uint32 },
        ] if first == "__arg_0" && second == "__arg_1"
    ));

    let is_utf8 = signature(
        "is_utf8",
        vec![FnArg::Typed(RustType::Ptr), FnArg::Typed(named("usize"))],
        Some(named("i32")),
    );
    let (inputs, builder) = handle_inner(&is_utf8, FnAttributes::default()).unwrap();
    assert!(matches!(
        builder.build().parameters[..],
        [Boundary::Pointer, Boundary::Uint64]
    ));
    assert!(matches!(
        &inputs[..],
        [FfiInput::Raw { name, ty: Boundary::Pointer }, FfiInput::Kept(1)] if name == "__arg_0"
    ));
    let planned = plan_inputs(&vec![
        Boundary::Uint8,
        Boundary::Buffer,
        Boundary::CustomType("Foo".to_string()),
    ]);
    assert!(matches!(
        &planned[..],
        [
            FfiInput::Kept(0),
            FfiInput::Raw { name: a, ty: Boundary::Pointer },
            FfiInput::Raw { name: b, ty: Boundary::Uint32 },
            FfiInput::Raw { name: c, ty: Boundary::Pointer },
        ] if a == "__arg_1" && b == "__arg_2" && c == "__arg_3"
    ));
    assert_eq!(raw_parameter(7), "__arg_7");
}

#[test]
fn functions_that_cannot_be_bound() {
    let mut asynchronous = signature("f", vec![FnArg::Receiver], Some(RustType::Other));
    asynchronous.asyncness = true;
    assert_eq!(
        handle_fn(&asynchronous, FnAttributes::default()).unwrap_err(),
        Error::Asyncness
    );
    let method = signature(
        "f",
        vec![FnArg::Typed(RustType::Other), FnArg::Receiver],
        None,
    );
    assert_eq!(
        handle_fn(&method, FnAttributes::default()).unwrap_err(),
        Error::Reciever
    );
    assert!(receiver(&method.inputs));
    assert!(!receiver(&vec![FnArg::Typed(named("u8"))]));
    let parameter = signature("f", vec![FnArg::Typed(RustType::Array)], None);
    assert_eq!(
        handle_fn(&parameter, FnAttributes::default()).unwrap_err(),
        Error::UnsupportedType
    );
    let result = signature("f", vec![], Some(RustType::Array));
    assert_eq!(
        handle_fn(&result, FnAttributes::default()).unwrap_err(),
        Error::UnsupportedType
    );
    assert_eq!(
        parse_inputs(&vec![FnArg::Typed(named("u8")), FnArg::Receiver], 0).unwrap_err(),
        Error::Reciever
    );
    assert!(parse_inputs(&vec![FnArg::Receiver, FnArg::Typed(named("u8"))], 1).is_ok());
    assert!(parse_inputs(&vec![FnArg::Receiver], 1).unwrap().is_empty());
}

#[test]
fn binding_attributes() {
    let mut attrs = FnAttributes::default();
    assert!(!attrs.non_blocking && !attrs.constructor && !attrs.internal);
    assert!(attrs.parse("non_blocking").is_ok());
    assert!(attrs.non_blocking);
    assert_eq!(attrs.parse("blocking").unwrap_err(), Error::UnsupportedAttribute);
    assert!(attrs.non_blocking);
    assert_eq!(Error::UnsupportedAttribute.message(), "unsupported attribute");
    let symbol = build_symbol(
        "s",
        &vec![Boundary::Uint8],
        Boundary::Pointer,
        FnAttributes { non_blocking: false, constructor: true, internal: false },
    )
    .build();
    assert_eq!(symbol.name, "s");
    assert!(symbol.is_constructor);
    assert!(matches!(symbol.return_type, Boundary::Pointer));
}

fn method(name: &str, attr: Option<&str>, inputs: Vec<FnArg>, output: Option<RustType>) -> ImplMethod {
    ImplMethod { sig: signature(name, inputs, output), first_attr: attr.map(|a| a.to_string()) }
}

#[test]
fn impl_blocks_become_custom_types() {
    let block = ItemImpl {
        generics: false,
        where_clause: false,
        self_ty: named("Foo"),
        methods: vec![
            method(
                "new",
                Some("constructor"),
                vec![FnArg::Typed(named("u32"))],
                Some(named("Foo")),
            ),
            method("inc", None, vec![FnArg::Receiver], None),
            method(
                "bar",
                Some("inline"),
                vec![FnArg::Receiver, FnArg::Typed(named("u32"))],
                Some(named("u32")),
            ),
        ],
    };
    let Struct { name, methods } = handle_impl(&block).unwrap();
    assert_eq!(name, "Foo");
    assert_eq!(methods.len(), 4);
    assert_eq!(methods[0].name, "new");
    assert!(methods[0].is_constructor && methods[0].internal);
    assert!(matches!(methods[0].parameters[..], [Boundary::Uint32]));
    assert!(matches!(&methods[0].return_type, Boundary::CustomType(n) if n == "Foo"));
    assert_eq!(methods[1].name, "inc");
    assert!(!methods[1].is_constructor && methods[1].internal);
    assert!(matches!(methods[1].parameters[..], [Boundary::Pointer]));
    assert!(matches!(methods[1].return_type, Boundary::Void));
    assert_eq!(methods[2].name, "bar");
    assert!(matches!(
        methods[2].parameters[..],
        [Boundary::Pointer, Boundary::Uint32]
    ));
    assert_eq!(methods[3].name, "dealloc");
    assert!(matches!(methods[3].parameters[..], [Boundary::Pointer]));
    assert!(methods[3].internal && !methods[3].is_constructor);
    assert_eq!(dealloc().name, "dealloc");
    assert_eq!(mangle("Foo", "bar"), "__Foo_bar");
}

#[test]
fn impl_blocks_that_cannot_be_bound() {
    let block = |generics, where_clause, self_ty, methods| ItemImpl {
        generics,
        where_clause,
        self_ty,
        methods,
    };
    assert_eq!(
        handle_impl(&block(true, true, RustType::Other, Vec::new())).unwrap_err(),
        Error::Generics
    );
    assert_eq!(
        handle_impl(&block(false, true, RustType::Other, Vec::new())).unwrap_err(),
        Error::WhereClause
    );
    assert_eq!(
        handle_impl(&block(false, false, RustType::Other, Vec::new())).unwrap_err(),
        Error::UnsupportedType
    );
    let free = method("free", None, vec![FnArg::Typed(named("u8"))], None);
    assert_eq!(handle_method(&free).unwrap_err(), Error::MissingReceiver);
    assert_eq!(
        handle_impl(&block(false, false, named("Foo"), vec![free])).unwrap_err(),
        Error::MissingReceiver
    );
    let odd = method("odd", None, vec![FnArg::Receiver, FnArg::Typed(RustType::Array)], None);
    assert_eq!(handle_method(&odd).unwrap_err(), Error::UnsupportedType);
    let twice = method("twice", None, vec![FnArg::Receiver, FnArg::Receiver], None);
    assert_eq!(handle_method(&twice).unwrap_err(), Error::Reciever);
    let result = method("r", Some("constructor"), vec![], Some(RustType::Other));
    assert_eq!(handle_method(&result).unwrap_err(), Error::UnsupportedType);
    let only_dealloc = handle_impl(&block(false, false, named("Foo"), Vec::new())).unwrap();
    assert_eq!(only_dealloc.methods.len(), 1);
}

#[test]
fn structs_become_custom_types() {
    let plain = ItemStruct { ident: "Foo".to_string(), generics: false, where_clause: false };
    assert_eq!(handle_struct(&plain).unwrap(), "Foo");
    let generic = ItemStruct { ident: "Foo".to_string(), generics: true, where_clause: true };
    assert_eq!(handle_struct(&generic).unwrap_err(), Error::Generics);
    let bounded = ItemStruct { ident: "Foo".to_string(), generics: false, where_clause: true };
    assert_eq!(handle_struct(&bounded).unwrap_err(), Error::WhereClause);
}
