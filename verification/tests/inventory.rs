use deno_bindgen_codegen::ir::codegen::deno::{
    argument, enclose, passed, Codegen, DenoFfiType, TypeScriptType,
};
use deno_bindgen_codegen::ir::codegen::{generate, Generator, Options, Target};
use deno_bindgen_codegen::ir::inventory::{Inventory, Struct};
use deno_bindgen_codegen::ir::{Symbol, SymbolBuilder, Type};

const PRELUDE: &str = "// deno-lint-ignore-file\n\n// This file is automatically generated by deno_bindgen.\n// Do not edit this file directly.\n\n";

const FOO_HEAD: &str = "  ptr: Deno.PointerObject | null = null;\n\n  static __constructor(ptr: Deno.PointerObject | null) {\n    const self = Object.create(Foo.prototype);\n    self.ptr = ptr;\n    return self;\n  }\n\n  [Symbol.dispose]() {\n    this.dealloc();\n    this.ptr = null;\n  }\n";

fn symbol(name: &str, parameters: Vec<Type>, return_type: Type) -> Symbol {
    Symbol {
        name: name.to_string(),
        parameters,
        return_type,
        non_blocking: false,
        internal: false,
        is_constructor: false,
    }
}

fn add() -> Symbol {
    symbol("add", vec![Type::Int32, Type::Int32], Type::Int32)
}

#[test]
fn raw_types() {
    assert!(matches!(Type::Buffer.raw()[..], [Type::Pointer, Type::Uint32]));
    assert!(matches!(Type::Pointer.raw()[..], [Type::Pointer]));
    assert!(matches!(
        Type::CustomType("Foo".to_string()).raw()[..],
        [Type::Pointer]
    ));
    assert!(Type::Uint8.raw().is_empty());
    assert!(Type::Void.raw().is_empty());
}

#[test]
fn numbers_are_integers_and_floats() {
    for ty in [
        Type::Uint8,
        Type::Uint16,
        Type::Uint32,
        Type::Uint64,
        Type::Int8,
        Type::Int16,
        Type::Int32,
        Type::Int64,
        Type::Float32,
        Type::Float64,
    ] {
        assert!(ty.is_number());
    }
    for ty in [
        Type::Void,
        Type::Pointer,
        Type::Buffer,
        Type::CustomType("Foo".to_string()),
    ] {
        assert!(!ty.is_number());
    }
    assert!(matches!(Type::default(), Type::Void));
    assert!(matches!(
        Type::CustomType("Foo".to_string()).clone(),
        Type::CustomType(name) if name == "Foo"
    ));
}

#[test]
fn symbol_builder() {
    let mut builder = SymbolBuilder::new("__Foo_bar");
    builder.push(Type::Pointer);
    builder.push(Type::Uint32);
    builder.return_type(Type::Uint32);
    builder.non_blocking(true);
    builder.internal(true);
    builder.is_constructor(false);
    builder.set_name("bar");
    let symbol = builder.build();
    assert_eq!(symbol.name, "bar");
    assert!(matches!(symbol.parameters[..], [Type::Pointer, Type::Uint32]));
    assert!(matches!(symbol.return_type, Type::Uint32));
    assert!(symbol.non_blocking);
    assert!(symbol.internal);
    assert!(!symbol.is_constructor);
    let plain = SymbolBuilder::new("f").build();
    assert!(plain.parameters.is_empty());
    assert!(matches!(plain.return_type, Type::Void));
    assert!(!plain.non_blocking && !plain.internal && !plain.is_constructor);
}

#[test]
fn managed_types() {
    assert_eq!(TypeScriptType::from(&Type::Void).name, "void");
    assert_eq!(TypeScriptType::from(&Type::Float64).name, "number");
    assert_eq!(
        TypeScriptType::from(&Type::Pointer).name,
        "Deno.PointerObject | null"
    );
    let buffer = TypeScriptType::from(&Type::Buffer);
    assert_eq!(buffer.name, "Uint8Array");
    assert!(!buffer.custom);
    assert_eq!(buffer.into_raw("arg0"), "arg0,\n    arg0.byteLength");
    assert_eq!(buffer.from_raw("ret"), None);
    let custom = TypeScriptType::from(&Type::CustomType("Foo".to_string()));
    assert!(custom.custom);
    assert_eq!(custom.into_raw("arg1"), "arg1.ptr");
    assert_eq!(custom.from_raw("ret"), Some("Foo.__constructor(ret)".to_string()));
    assert_eq!(custom.apply_promise(true), "Promise<Foo>");
    assert_eq!(custom.apply_promise(false), "Foo");
    let number = TypeScriptType::from(&Type::Uint8);
    assert_eq!(number.into_raw("arg2"), "arg2");
    let impostor = TypeScriptType::from(&Type::CustomType("Uint8Array".to_string()));
    assert_eq!(impostor.into_raw("a"), "a.ptr");
}

#[test]
fn call_table_types() {
    assert_eq!(DenoFfiType::from(&Type::Void).0, "'void'");
    assert_eq!(DenoFfiType::from(&Type::Uint64).0, "'u64'");
    assert_eq!(DenoFfiType::from(&Type::Float32).0, "'f32'");
    assert_eq!(DenoFfiType::from(&Type::Pointer).0, "'pointer'");
    assert_eq!(
        DenoFfiType::from(&Type::CustomType("Foo".to_string())).0,
        "'pointer'"
    );
    assert_eq!(DenoFfiType::from(&Type::Buffer).0, "'buffer',\n      'usize'");
}

#[test]
fn small_pieces() {
    assert_eq!(argument(0), "arg0");
    assert_eq!(argument(12), "arg12");
    assert_eq!(enclose("x\n", true, "  ", "(", ")"), "(\nx\n  )");
    assert_eq!(enclose("x\n", false, "  ", "(", ")"), "()");
    let parameters = vec![Type::Pointer, Type::Buffer, Type::CustomType("Foo".to_string())];
    assert_eq!(
        passed(&parameters, 1, "  "),
        "  arg0,\n    arg0.byteLength,\n  arg1.ptr,\n"
    );
    assert_eq!(passed(&parameters, 3, "  "), "");
}

#[test]
fn bindings_for_add() {
    let inventory = vec![Inventory::Symbol(add())];
    let codegen = Codegen::new(&inventory, "/tmp/libadd.so", false);
    assert_eq!(
        codegen.write_symbols(),
        "  add: {\n    parameters: [\n      'i32',\n      'i32',\n    ],\n    result: 'i32',\n    nonblocking: false\n  },\n"
    );
    assert_eq!(
        codegen.dlopen(),
        "const { dlopen } = Deno;\n\nconst { symbols } = dlopen(\"/tmp/libadd.so\", {\n  add: {\n    parameters: [\n      'i32',\n      'i32',\n    ],\n    result: 'i32',\n    nonblocking: false\n  },\n});\n\n"
    );
    assert_eq!(
        codegen.exports(),
        "export function add(\n  arg0: number,\n  arg1: number,\n): number {\n  return symbols.add(\n    arg0,\n    arg1,\n  )\n}\n\n"
    );
    assert_eq!(
        codegen.text(),
        format!("{}{}{}", PRELUDE, codegen.dlopen(), codegen.exports())
    );
    assert_eq!(codegen.generate(), codegen.text());
}

#[test]
fn target_is_quoted_with_escapes() {
    let inventory: Vec<Inventory> = Vec::new();
    let codegen = Codegen::new(&inventory, "C:\\libs\\\"x\".dll", false);
    assert_eq!(
        codegen.dlopen(),
        "const { dlopen } = Deno;\n\nconst { symbols } = dlopen(\"C:\\\\libs\\\\\\\"x\\\".dll\", {\n});\n\n"
    );
}

#[test]
fn lazy_bindings_load_on_demand() {
    let inventory = vec![Inventory::Symbol(symbol("noop", vec![], Type::Void))];
    let codegen = Codegen::new(&inventory, "lib.so", true);
    let expected = "let symbols: any;\n\nexport function load(path: string = \"lib.so\") {\n  const { dlopen } = Deno;\n\n  const { symbols: symbols_ } = dlopen(path, {\n    noop: {\n      parameters: [],\n      result: 'void',\n      nonblocking: false\n    },\n  });\n  \n  symbols = symbols_;\n}\n\n";
    assert_eq!(codegen.dlopen(), expected);
    assert_eq!(codegen.lazy_dlopen(), expected);
}

#[test]
fn wrappers_of_symbols() {
    let empty = symbol("noop", vec![], Type::Void);
    assert_eq!(
        Codegen::function_export(&empty),
        "export function noop(): void {\n  return symbols.noop()\n}\n\n"
    );
    let mut hidden = symbol("make_foo", vec![], Type::CustomType("Foo".to_string()));
    hidden.internal = true;
    hidden.non_blocking = true;
    assert_eq!(
        Codegen::function_export(&hidden),
        "function make_foo(): Promise<Foo> {\n  const ret = symbols.make_foo()\n  return Foo.__constructor(ret);\n}\n\n"
    );
    let bytes = symbol("bytelen", vec![Type::Buffer], Type::Uint32);
    assert_eq!(
        Codegen::function_export(&bytes),
        "export function bytelen(\n  arg0: Uint8Array,\n): number {\n  return symbols.bytelen(\n    arg0,\n    arg0.byteLength,\n  )\n}\n\n"
    );
    assert_eq!(
        Codegen::symbol_entry(&bytes),
        "  bytelen: {\n    parameters: [\n      'buffer',\n      'usize',\n    ],\n    result: 'u32',\n    nonblocking: false\n  },\n"
    );
}

fn foo_methods() -> Vec<Symbol> {
    let mut new = symbol("new", vec![Type::Uint32], Type::CustomType("Foo".to_string()));
    new.is_constructor = true;
    new.internal = true;
    let mut inc = symbol("inc", vec![Type::Pointer], Type::Void);
    inc.internal = true;
    let mut bar = symbol("bar", vec![Type::Pointer, Type::Uint32], Type::Uint32);
    bar.internal = true;
    vec![new, inc, bar]
}

#[test]
fn class_of_a_custom_type() {
    let methods = foo_methods();
    assert_eq!(
        Codegen::method_export("Foo", &methods[0]),
        "\n  constructor(arg0: number) {\n    return __Foo_new(\n      arg0,\n    )\n  }\n"
    );
    assert_eq!(
        Codegen::method_export("Foo", &methods[1]),
        "\n  inc(): void {\n    return __Foo_inc(\n      this.ptr,\n    )\n  }\n"
    );
    assert_eq!(
        Codegen::method_export("Foo", &methods[2]),
        "\n  bar(arg0: number): number {\n    return __Foo_bar(\n      this.ptr,\n      arg0,\n    )\n  }\n"
    );
    let expected = format!(
        "export class Foo {{\n{}{}{}{}}}\n\n",
        FOO_HEAD,
        Codegen::method_export("Foo", &methods[0]),
        Codegen::method_export("Foo", &methods[1]),
        Codegen::method_export("Foo", &methods[2]),
    );
    assert_eq!(Codegen::class_export("Foo", &methods), expected);
    assert_eq!(Codegen::class_export("Bare", &Vec::new()), "export class Bare {}\n\n");
    let mut bare_constructor = symbol("new", vec![], Type::CustomType("Foo".to_string()));
    bare_constructor.is_constructor = true;
    assert_eq!(
        Codegen::method_export("Foo", &bare_constructor),
        "\n  constructor() {\n    return __Foo_new()\n  }\n"
    );
    let lonely = symbol("lonely", vec![], Type::Void);
    assert_eq!(
        Codegen::method_export("Foo", &lonely),
        "\n  lonely(): void {\n    return __Foo_lonely(\n      this.ptr,\n    )\n  }\n"
    );
}

#[test]
fn whole_file_in_inventory_order() {
    let inventory = vec![
        Inventory::Symbol(add()),
        Inventory::Struct(Struct {
            name: "Foo".to_string(),
            methods: foo_methods(),
        }),
        Inventory::Symbol(symbol("noop", vec![], Type::Void)),
    ];
    let options = Options {
        target: Target::Deno,
        out: None,
        local_dylib_path: "lib.so".to_string(),
        lazy_init: false,
    };
    let text = generate(&inventory, &options);
    assert!(text.starts_with(PRELUDE));
    let table = text.find("const { symbols } = dlopen(\"lib.so\", {\n").unwrap();
    let add = text.find("export function add(").unwrap();
    let class = text.find("export class Foo {").unwrap();
    let noop = text.find("export function noop(").unwrap();
    assert!(table < add && add < class && class < noop);
    assert!(!text[..add].contains("Foo"));
    assert_eq!(text, Codegen::new(&inventory, "lib.so", false).text());
    let lazy = Options { lazy_init: true, ..options };
    assert!(generate(&inventory, &lazy).contains("export function load(path: string = \"lib.so\") {"));
}
