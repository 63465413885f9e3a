use deno_bindgen_codegen::example::add;
use deno_bindgen_codegen::function::{Function, FunctionParameters};
use deno_bindgen_codegen::library::{Library, LibraryElement};
use deno_bindgen_codegen::loader::plug::{PlugLoader, PlugLoaderOptions, PlugLoaderSingleOptions};
use deno_bindgen_codegen::loader::Loader;
use deno_bindgen_codegen::types::buffer::Buffer;
use deno_bindgen_codegen::types::pointer::Pointer;
use deno_bindgen_codegen::types::primitive::Primitive;
use deno_bindgen_codegen::types::structure::Struct;
use deno_bindgen_codegen::types::tuple::Tuple;
use deno_bindgen_codegen::types::{BufferType, NativeType, TypeDefinition};

#[test]
fn normal() {
    assert_eq!(add(1, 2), 3);
}

#[test]
fn testing() {
    let mut library = Library::new(
        None,
        Loader::Plug(PlugLoader::new(
            true,
            None,
            PlugLoaderOptions::Single(PlugLoaderSingleOptions {
                name: "test".to_string(),
                url: "abcdef".to_string(),
                policy: None,
                cache: None,
                log: None,
            }),
        )),
    );

    library
        .register_type(
            "usize",
            TypeDefinition::Primitive(Primitive::new(NativeType::USize)),
        )
        .unwrap();
    library
        .register_type("cstring", TypeDefinition::CString)
        .unwrap();
    library
        .register_type(
            "ExampleStruct",
            TypeDefinition::Struct(Struct::new(
                Some("ExampleStruct"),
                true,
                vec![
                    (
                        "a".to_string(),
                        TypeDefinition::Pointer(Pointer::new(Box::new(
                            TypeDefinition::Primitive(Primitive::new(NativeType::U16)),
                        ))),
                    ),
                    ("b".to_string(), TypeDefinition::CString),
                    (
                        "c".to_string(),
                        TypeDefinition::Primitive(Primitive::new(NativeType::Pointer)),
                    ),
                    (
                        "d".to_string(),
                        TypeDefinition::Primitive(Primitive::new(NativeType::I8)),
                    ),
                    (
                        "f".to_string(),
                        TypeDefinition::Buffer(Buffer::new(BufferType::I64, 13)),
                    ),
                    (
                        "g".to_string(),
                        TypeDefinition::Struct(Struct::new(
                            Some("ExampleInnerStruct"),
                            false,
                            vec![
                                (
                                    "inner_a".to_string(),
                                    TypeDefinition::Primitive(Primitive::new(NativeType::U32)),
                                ),
                                (
                                    "inner_b".to_string(),
                                    TypeDefinition::Primitive(Primitive::new(NativeType::Pointer)),
                                ),
                            ],
                        )),
                    ),
                ],
            )),
        )
        .unwrap();

    library
        .register_type(
            "TestTuple",
            TypeDefinition::Tuple(Tuple::new(
                Some("TestTuple"),
                true,
                vec![
                    TypeDefinition::Pointer(Pointer::new(Box::new(TypeDefinition::Primitive(
                        Primitive::new(NativeType::U16),
                    )))),
                    TypeDefinition::CString,
                    TypeDefinition::Primitive(Primitive::new(NativeType::Pointer)),
                ],
            )),
        )
        .unwrap();

    library.append(LibraryElement::Function(Function::new(
        "test",
        None,
        None,
        FunctionParameters::Unnamed(vec!["usize".to_string()]),
        "ExampleStruct",
        false,
        true,
    )));

    let source = library.generate().unwrap();
    println!("{}", source.read());
}

use deno_bindgen_codegen::document::{SerdeFunction, SerdeLibrary, SerdeLoader};
use deno_bindgen_codegen::error::Error;
use deno_bindgen_codegen::loader::deno::DenoLoader;
use deno_bindgen_codegen::loader::plug::{
    default_import, PlugLoaderCachePolicy, PlugLoaderCrossOptions, PlugLoaderUrlOptions,
    PlugLoaderUrls,
};
use deno_bindgen_codegen::source::Source;

const CSTRING_HELPER: &str = "const __cstring_encoder = new TextEncoder();\nfunction __cstring_into(__cstring: string): Deno.UnsafePointer {\nconst __buffer = new Uint8Array(__cstring.length + 1);\n__cstring_encoder.encodeInto(__cstring, __buffer);\nreturn Deno.UnsafePointer.of(__buffer);\n}\n";

fn local_library() -> Library {
    Library::new(None, Loader::Deno(DenoLoader::new(false, "./libadd.so")))
}

fn register(library: &mut Library, name: &str, native: NativeType) {
    library
        .register_type(name, TypeDefinition::Primitive(Primitive::new(native)))
        .unwrap();
}

fn unnamed(types: &[&str]) -> FunctionParameters {
    FunctionParameters::Unnamed(types.iter().map(|t| t.to_string()).collect())
}

fn count(text: &str, part: &str) -> usize {
    text.matches(part).count()
}

#[test]
fn add_is_a_synchronous_wrapper() {
    let mut library = local_library();
    register(&mut library, "u32", NativeType::U32);
    library.append(LibraryElement::Function(Function::new(
        "add",
        None,
        None,
        unnamed(&["u32", "u32"]),
        "u32",
        false,
        true,
    )));
    assert_eq!(
        library.generate().unwrap().read(),
        "const library = await Plug.prepare(\"./libadd.so\", { add: { parameters: [\"u32\", \"u32\"], result: \"u32\", nonblocking: false } });\nexport function add(parameter0: number, parameter1: number): number {\nreturn library.symbols.add(parameter0, parameter1);\n}\n"
    );
}

#[test]
fn nonblocking_wrapper_returns_a_promise() {
    let mut library = local_library();
    register(&mut library, "u32", NativeType::U32);
    let function = Function::new("slow", None, None, unnamed(&["u32"]), "u32", true, false);
    assert_eq!(
        function.symbol(&library).unwrap(),
        "slow: { parameters: [\"u32\"], result: \"u32\", nonblocking: true }"
    );
    assert_eq!(
        function.text(&library).unwrap(),
        "async function slow(parameter0: number): Promise<number> {\nreturn library.symbols.slow(parameter0);\n}\n"
    );
    let blocking = Function::new("slow", None, None, unnamed(&["u32"]), "u32", false, false);
    assert_eq!(
        blocking.text(&library).unwrap(),
        "function slow(parameter0: number): number {\nreturn library.symbols.slow(parameter0);\n}\n"
    );
}

#[test]
fn named_parameters_docs_and_void() {
    let mut library = Library::new(
        Some("native"),
        Loader::Deno(DenoLoader::new(true, "lib.so")),
    );
    assert_eq!(library.variable(), "native");
    register(&mut library, "void", NativeType::Void);
    register(&mut library, "pointer", NativeType::Pointer);
    library.register_type("cstring", TypeDefinition::CString).unwrap();
    let function = Function::new(
        "log_message",
        Some("log"),
        Some("/** Writes a message. */"),
        FunctionParameters::Named(vec![
            ("handle".to_string(), "pointer".to_string()),
            ("message".to_string(), "cstring".to_string()),
        ]),
        "void",
        false,
        true,
    );
    assert_eq!(
        function.text(&library).unwrap(),
        "/** Writes a message. */\nexport function log(handle: Deno.UnsafePointer, message: string): void {\nnative.symbols.log_message(handle, __cstring_into(message));\n}\n"
    );
    assert_eq!(
        function.symbol(&library).unwrap(),
        "log_message: { parameters: [\"pointer\", \"pointer\"], result: \"void\", nonblocking: false }"
    );
    let mut source = Source::new();
    source.write_str("// head\n");
    function.generate(&library, &mut source).unwrap();
    assert!(source.read().starts_with("// head\n/** Writes a message. */\nexport function log("));
    library.append(LibraryElement::Function(function));
    assert_eq!(
        library.symbols().unwrap(),
        "{ log_message: { parameters: [\"pointer\", \"pointer\"], result: \"void\", nonblocking: false } }"
    );
    let text = library.generate().unwrap().read();
    assert!(text.starts_with("export const native = await Plug.prepare(\"lib.so\", { log_message: "));
}

#[test]
fn result_goes_through_its_from_template() {
    let mut library = local_library();
    register(&mut library, "pointer", NativeType::Pointer);
    let function = Function::new("make", None, None, unnamed(&[]), "pointer", false, false);
    assert_eq!(
        function.text(&library).unwrap(),
        "function make(): Deno.UnsafePointer {\nreturn new Deno.UnsafePointer(library.symbols.make());\n}\n"
    );
}

#[test]
fn string_helper_appears_once() {
    let mut library = local_library();
    library.register_type("cstring", TypeDefinition::CString).unwrap();
    library.register_type("text", TypeDefinition::CString).unwrap();
    library
        .register_type(
            "Pair",
            TypeDefinition::Struct(Struct::new(
                Some("Pair"),
                true,
                vec![
                    ("left".to_string(), TypeDefinition::CString),
                    ("right".to_string(), TypeDefinition::CString),
                ],
            )),
        )
        .unwrap();
    register(&mut library, "void", NativeType::Void);
    for symbol in ["first", "second"] {
        library.append(LibraryElement::Function(Function::new(
            symbol,
            None,
            None,
            unnamed(&["cstring"]),
            "void",
            false,
            true,
        )));
    }
    let helpers = library.helpers();
    assert_eq!(helpers[0], CSTRING_HELPER);
    assert_eq!(helpers.len(), 4);
    let text = library.generate().unwrap().read();
    assert_eq!(count(&text, "function __cstring_into("), 1);
    assert_eq!(count(&text, "const __cstring_encoder"), 1);
    assert_eq!(count(&text, "__cstring_into(parameter0)"), 2);
    assert_eq!(count(&text, "function __from_Pair("), 1);
    let loader = text.find("await Plug.prepare").unwrap();
    let helper = text.find("function __cstring_into(").unwrap();
    let first = text.find("export function first(").unwrap();
    let second = text.find("export function second(").unwrap();
    assert!(loader < helper && helper < first && first < second);
}

#[test]
fn generating_twice_gives_the_same_text() {
    let build = || {
        let mut library = local_library();
        library.register_type("cstring", TypeDefinition::CString).unwrap();
        library
            .register_type(
                "anonymous",
                TypeDefinition::Tuple(Tuple::new(
                    None,
                    true,
                    vec![
                        TypeDefinition::CString,
                        TypeDefinition::Primitive(Primitive::new(NativeType::U8)),
                    ],
                )),
            )
            .unwrap();
        library.append(LibraryElement::Function(Function::new(
            "f",
            None,
            None,
            unnamed(&["cstring"]),
            "anonymous",
            true,
            true,
        )));
        library
    };
    let library = build();
    let first = library.generate().unwrap().read();
    let second = library.generate().unwrap().read();
    assert_eq!(first, second);
    assert_eq!(first, build().generate().unwrap().read());
}

#[test]
fn unknown_types_abort_generation() {
    let mut library = local_library();
    register(&mut library, "u32", NativeType::U32);
    assert!(library.lookup_type("u32").is_ok());
    assert!(matches!(
        library.lookup_type("missing"),
        Err(Error::UnknownType(name)) if name == "missing"
    ));
    let function = Function::new(
        "f",
        None,
        None,
        unnamed(&["u32", "first_missing", "second_missing"]),
        "third_missing",
        false,
        true,
    );
    assert!(matches!(
        function.text(&library),
        Err(Error::UnknownType(name)) if name == "first_missing"
    ));
    assert!(matches!(
        function.symbol(&library),
        Err(Error::UnknownType(name)) if name == "first_missing"
    ));
    assert!(function.resolve(&library).is_err());
    let mut source = Source::new();
    assert!(function.generate(&library, &mut source).is_err());
    assert_eq!(source.read(), "");
    let result = Function::new("g", None, None, unnamed(&["u32"]), "nothing", false, true);
    assert!(matches!(
        result.text(&library),
        Err(Error::UnknownType(name)) if name == "nothing"
    ));
    library.append(LibraryElement::Function(Function::new(
        "ok",
        None,
        None,
        unnamed(&["u32"]),
        "u32",
        false,
        true,
    )));
    library.append(LibraryElement::Function(result));
    library.append(LibraryElement::Function(function));
    assert!(matches!(
        library.generate(),
        Err(Error::UnknownType(name)) if name == "nothing"
    ));
    assert!(matches!(
        library.symbols(),
        Err(Error::UnknownType(name)) if name == "nothing"
    ));
    let error = library.generate().unwrap_err();
    assert_eq!(error.message(), "Unknown type: nothing");
}

#[test]
fn registering_again_replaces_in_place() {
    let mut library = local_library();
    register(&mut library, "a", NativeType::U8);
    library.register_type("b", TypeDefinition::CString).unwrap();
    register(&mut library, "a", NativeType::U64);
    assert_eq!(library.lookup_type("a").unwrap().converter.typescript, "bigint");
    assert_eq!(library.lookup_type("b").unwrap().converter.typescript, "string");
    let refused = library.register_type(
        "b",
        TypeDefinition::Struct(Struct::new(
            None,
            true,
            vec![(
                "v".to_string(),
                TypeDefinition::Primitive(Primitive::new(NativeType::Void)),
            )],
        )),
    );
    assert!(matches!(refused, Err(Error::UnsupportedLayout)));
    assert_eq!(library.lookup_type("b").unwrap().converter.typescript, "string");
}

#[test]
fn text_elements_are_written_as_they_are() {
    let mut library = local_library();
    register(&mut library, "u8", NativeType::U8);
    library.append(LibraryElement::Text("// tail\n".to_string()));
    library.prepend(LibraryElement::Text("// head\n".to_string()));
    library.append(LibraryElement::Function(Function::new(
        "f",
        None,
        None,
        unnamed(&[]),
        "u8",
        false,
        false,
    )));
    assert_eq!(
        library.generate().unwrap().read(),
        "const library = await Plug.prepare(\"./libadd.so\", { f: { parameters: [], result: \"u8\", nonblocking: false } });\n// head\n// tail\nfunction f(): number {\nreturn library.symbols.f();\n}\n"
    );
}

#[test]
fn loaders() {
    let deno = Loader::Deno(DenoLoader::new(true, "target/libx.so"));
    assert_eq!(
        deno.generate("lib", "{  }"),
        "export const lib = await Plug.prepare(\"target/libx.so\", {  });\n"
    );
    assert_eq!(default_import(), "https://deno.land/x/plug/mod.ts");
    let single = PlugLoaderOptions::Single(PlugLoaderSingleOptions {
        name: "test".to_string(),
        url: "abcdef".to_string(),
        policy: None,
        cache: None,
        log: None,
    });
    assert_eq!(single.generate(), "{ name: \"test\", url: \"abcdef\" }");
    let plug = PlugLoader::new(true, None, single);
    assert_eq!(
        plug.generate("library", "{  }"),
        "import { Plug } from \"https://deno.land/x/plug/mod.ts\";\nexport const library = await Plug.prepare({ name: \"test\", url: \"abcdef\" }, {  });\n"
    );
    let url = PlugLoaderOptions::Url(PlugLoaderUrlOptions {
        url: "https://example.com/lib".to_string(),
        policy: Some(PlugLoaderCachePolicy::Store),
        cache: Some("\"./cache\"".to_string()),
        log: Some(true),
    });
    assert_eq!(
        PlugLoader::new(false, Some("./plug.ts"), url).generate("native", "{ }"),
        "import { Plug } from \"./plug.ts\";\nconst native = await Plug.prepare({ url: \"https://example.com/lib\", policy: Plug.CachePolicy.STORE, cache: \"./cache\", log: true }, { });\n"
    );
    let cross = PlugLoaderOptions::Cross(PlugLoaderCrossOptions {
        name: "x".to_string(),
        urls: PlugLoaderUrls {
            darwin: Some("d".to_string()),
            linux: None,
            windows: Some("w".to_string()),
        },
        policy: Some(PlugLoaderCachePolicy::NoCache),
        cache: None,
        log: Some(false),
    });
    assert_eq!(
        cross.generate(),
        "{ name: \"x\", urls: { darwin: \"d\", windows: \"w\" }, policy: Plug.CachePolicy.NONE, log: false }"
    );
    let none = PlugLoaderUrls { darwin: None, linux: None, windows: None };
    assert_eq!(none.generate(), "{  }");
    assert_eq!(PlugLoaderCachePolicy::Store.generate(), "Plug.CachePolicy.STORE");
}

fn describe_function(parameters: &[&str], result: &str) -> SerdeFunction {
    SerdeFunction {
        name: None,
        docs: None,
        parameters: unnamed(parameters),
        result: result.to_string(),
        nonblocking: false,
        export: true,
    }
}

fn document() -> SerdeLibrary {
    SerdeLibrary {
        variable: Some("lib".to_string()),
        loader: SerdeLoader::Deno(DenoLoader::new(false, "x.so")),
        types: vec![
            (
                "u8".to_string(),
                TypeDefinition::Primitive(Primitive::new(NativeType::U8)),
            ),
            ("text".to_string(), TypeDefinition::CString),
        ],
        functions: vec![
            ("second".to_string(), describe_function(&["u8"], "u8")),
            ("first".to_string(), describe_function(&["text"], "u8")),
        ],
    }
}

#[test]
fn document_builds_a_library_in_its_own_order() {
    let library = document().into_library().unwrap();
    assert_eq!(library.variable(), "lib");
    let text = library.generate().unwrap().read();
    assert_eq!(
        text,
        format!("const lib = await Plug.prepare(\"x.so\", {{ second: {{ parameters: [\"u8\"], result: \"u8\", nonblocking: false }}, first: {{ parameters: [\"pointer\"], result: \"u8\", nonblocking: false }} }});\n{}export function second(parameter0: number): number {{\nreturn lib.symbols.second(parameter0);\n}}\nexport function first(parameter0: string): number {{\nreturn lib.symbols.first(__cstring_into(parameter0));\n}}\n", CSTRING_HELPER)
    );
    let plug = SerdeLoader::Plug(PlugLoader::new(
        false,
        None,
        PlugLoaderOptions::Url(PlugLoaderUrlOptions {
            url: "u".to_string(),
            policy: None,
            cache: None,
            log: None,
        }),
    ));
    assert!(matches!(plug.into_loader(), Loader::Plug(_)));
    let function = SerdeFunction {
        name: Some("shown".to_string()),
        docs: Some("// doc".to_string()),
        parameters: unnamed(&[]),
        result: "u8".to_string(),
        nonblocking: true,
        export: false,
    }
    .into_function("hidden");
    assert_eq!(
        function.text(&library).unwrap(),
        "// doc\nasync function shown(): Promise<number> {\nreturn lib.symbols.hidden();\n}\n"
    );
}

#[test]
fn document_with_a_repeated_name_is_invalid() {
    let mut types_twice = document();
    types_twice.types.push(("u8".to_string(), TypeDefinition::CString));
    assert!(matches!(
        types_twice.into_library(),
        Err(Error::InvalidIR(name)) if name == "u8"
    ));
    let mut symbols_twice = document();
    symbols_twice
        .functions
        .push(("second".to_string(), describe_function(&[], "u8")));
    assert!(matches!(
        symbols_twice.into_library(),
        Err(Error::InvalidIR(name)) if name == "second"
    ));
}

#[test]
fn document_with_a_type_without_layout_is_refused() {
    let mut bad = document();
    bad.types.push((
        "bad".to_string(),
        TypeDefinition::Tuple(Tuple::new(
            None,
            true,
            vec![TypeDefinition::Primitive(Primitive::new(NativeType::Void))],
        )),
    ));
    assert!(matches!(bad.into_library(), Err(Error::UnsupportedLayout)));
}

#[test]
fn void_wrapper_returns_nothing() {
    let mut library = local_library();
    register(&mut library, "void", NativeType::Void);
    let function = Function::new("g", None, None, unnamed(&[]), "void", false, true);
    let mut source = Source::new();
    function.generate(&library, &mut source).unwrap();
    assert_eq!(
        source.read(),
        "export function g(): void {\nlibrary.symbols.g();\n}\n"
    );
}

#[test]
fn docs_stand_above_the_exposed_name() {
    let mut library = local_library();
    register(&mut library, "u8", NativeType::U8);
    let function = Function::new(
        "sym",
        Some("shown"),
        Some("/** doc */"),
        unnamed(&[]),
        "u8",
        false,
        false,
    );
    let mut source = Source::new();
    function.generate(&library, &mut source).unwrap();
    assert_eq!(
        source.read(),
        "/** doc */\nfunction shown(): number {\nreturn library.symbols.sym();\n}\n"
    );
}

#[test]
fn output_is_loader_then_helpers_then_wrappers_and_nothing_else() {
    let mut library = local_library();
    register(&mut library, "u8", NativeType::U8);
    library.register_type("text", TypeDefinition::CString).unwrap();
    library
        .register_type(
            "Pair",
            TypeDefinition::Struct(Struct::new(
                Some("Pair"),
                true,
                vec![
                    ("left".to_string(), TypeDefinition::CString),
                    (
                        "right".to_string(),
                        TypeDefinition::Primitive(Primitive::new(NativeType::U8)),
                    ),
                ],
            )),
        )
        .unwrap();
    let first = Function::new("first", None, None, unnamed(&["text"]), "Pair", false, true);
    let second = Function::new("second", None, None, unnamed(&["Pair"]), "u8", true, false);
    let mut expected = Loader::Deno(DenoLoader::new(false, "./libadd.so")).generate(
        "library",
        &format!(
            "{{ {}, {} }}",
            first.symbol(&library).unwrap(),
            second.symbol(&library).unwrap()
        ),
    );
    let helpers = library.helpers();
    assert_eq!(helpers.len(), 4);
    assert_eq!(helpers[0], CSTRING_HELPER);
    for helper in &helpers {
        expected.push_str(helper);
    }
    expected.push_str(&first.text(&library).unwrap());
    expected.push_str(&second.text(&library).unwrap());
    library.append(LibraryElement::Function(first));
    library.append(LibraryElement::Function(second));
    assert_eq!(library.generate().unwrap().read(), expected);
}
