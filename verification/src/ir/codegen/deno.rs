//! Bindings for Deno: the raw call table and a wrapper for every
//! symbol and custom type.
use vstd::prelude::*;
use vstd::string::*;
use crate::ir::codegen::Generator;
use crate::ir::inventory::{inventory_views, symbol_views, Inventory, InventoryView};
use crate::ir::{type_views, Symbol, SymbolView, Type, TypeView};
use crate::text::{
    boolean, boolean_string, decimal, decimal_string, indent, indented, join, joined, push_text,
    same,
};

verus! {

/// What std's `Debug` makes of a text: the text between double quotes,
/// with what needs it escaped.
pub uninterp spec fn debug_text(text: Seq<char>) -> Seq<char>;

/// Formats a text with std's `Debug`. Trusted: the result depends on
/// the characters of `text` alone.
#[verifier::external_body]
fn debug_string(text: &str) -> (r: String)
    ensures
        r@ == debug_text(text@),
{
    format!("{:?}", text)
}

impl TypeView {
    /// The managed type that carries a value of this type.
    pub open spec fn typescript(self) -> Seq<char> {
        match self {
            TypeView::Void => "void"@,
            TypeView::Uint8
            | TypeView::Uint16
            | TypeView::Uint32
            | TypeView::Uint64
            | TypeView::Int8
            | TypeView::Int16
            | TypeView::Int32
            | TypeView::Int64
            | TypeView::Float32
            | TypeView::Float64 => "number"@,
            TypeView::Pointer => "Deno.PointerObject | null"@,
            TypeView::Buffer => "Uint8Array"@,
            TypeView::CustomType(name) => name,
        }
    }

    /// The name of the type in the raw call table.
    pub open spec fn ffi_name(self) -> Seq<char> {
        match self {
            TypeView::Void => "void"@,
            TypeView::Uint8 => "u8"@,
            TypeView::Uint16 => "u16"@,
            TypeView::Uint32 => "u32"@,
            TypeView::Uint64 => "u64"@,
            TypeView::Int8 => "i8"@,
            TypeView::Int16 => "i16"@,
            TypeView::Int32 => "i32"@,
            TypeView::Int64 => "i64"@,
            TypeView::Float32 => "f32"@,
            TypeView::Float64 => "f64"@,
            TypeView::CustomType(_) | TypeView::Pointer => "pointer"@,
            TypeView::Buffer => "buffer"@,
        }
    }

    /// The type as the raw call table declares it: its name between
    /// quotes; a buffer is followed by the length that travels with it.
    pub open spec fn ffi(self) -> Seq<char> {
        "'"@ + self.ffi_name() + "'"@ + (if self is Buffer {
            ",\n      'usize'"@
        } else {
            Seq::empty()
        })
    }

    /// The expression that passes the managed value `ident` on to the
    /// raw symbol: a buffer with its length, a value of a custom type
    /// by its pointer, anything else as it is.
    pub open spec fn into_raw(self, ident: Seq<char>) -> Seq<char> {
        match self {
            TypeView::Buffer => ident + ",\n    "@ + ident + ".byteLength"@,
            TypeView::CustomType(_) => ident + ".ptr"@,
            _ => ident,
        }
    }

    /// The expression that makes a managed value of the raw value
    /// `ident`, where one is needed: a custom type is constructed
    /// around its pointer.
    pub open spec fn from_raw(self, ident: Seq<char>) -> Option<Seq<char>> {
        match self {
            TypeView::CustomType(name) => Some(name + ".__constructor("@ + ident + ")"@),
            _ => None,
        }
    }

    /// The declared result type: a promise where the call does not
    /// block.
    pub open spec fn promised(self, non_blocking: bool) -> Seq<char> {
        if non_blocking {
            "Promise<"@ + self.typescript() + ">"@
        } else {
            self.typescript()
        }
    }
}

/// The name of the argument at position `i`.
pub open spec fn argument_name(i: nat) -> Seq<char> {
    "arg"@ + decimal(i)
}

/// `body` between `open` and `close`. Where it is `filled`, the body
/// starts on a line of its own and `indent` precedes `close`; else
/// `close` follows `open` at once.
pub open spec fn enclosed(
    body: Seq<char>,
    filled: bool,
    indent: Seq<char>,
    open: Seq<char>,
    close: Seq<char>,
) -> Seq<char> {
    if filled {
        open + "\n"@ + body + indent + close
    } else {
        open + close
    }
}

/// The first `n` parameters as the raw call table declares them, each
/// on a line of its own.
pub open spec fn ffi_lines(parameters: Seq<TypeView>, n: nat) -> Seq<char>
    decreases n,
{
    if n == 0 || n > parameters.len() {
        Seq::empty()
    } else {
        ffi_lines(parameters, (n - 1) as nat) + "      "@ + parameters[n - 1].ffi() + ",\n"@
    }
}

/// The first `n` parameters as a wrapper declares them, each on a line
/// of its own.
pub open spec fn declared_lines(parameters: Seq<TypeView>, n: nat) -> Seq<char>
    decreases n,
{
    if n == 0 || n > parameters.len() {
        Seq::empty()
    } else {
        declared_lines(parameters, (n - 1) as nat) + "  "@ + argument_name((n - 1) as nat) + ": "@
            + parameters[n - 1].typescript() + ",\n"@
    }
}

/// The first `n` arguments as a wrapper passes them on, each on a line
/// of its own behind `indent`.
pub open spec fn passed_lines(parameters: Seq<TypeView>, n: nat, indent: Seq<char>) -> Seq<char>
    decreases n,
{
    if n == 0 || n > parameters.len() {
        Seq::empty()
    } else {
        passed_lines(parameters, (n - 1) as nat, indent) + indent + parameters[n - 1].into_raw(
            argument_name((n - 1) as nat),
        ) + ",\n"@
    }
}

/// The parameters of a method as its callers see them: a constructor
/// has them all; any other method takes the value itself first, which
/// is left out.
pub open spec fn visible_parameters(method: SymbolView) -> Seq<TypeView> {
    if method.is_constructor || method.parameters.len() == 0 {
        method.parameters
    } else {
        method.parameters.skip(1)
    }
}

/// The entry of a symbol in the raw call table.
pub open spec fn symbol_entry(symbol: SymbolView) -> Seq<char> {
    "  "@ + symbol.name + ": {\n    parameters: "@ + (if symbol.parameters.len() > 0 {
        "[\n"@ + ffi_lines(symbol.parameters, symbol.parameters.len()) + "    ],\n"@
    } else {
        "[],\n"@
    }) + "    result: "@ + symbol.return_type.ffi() + ",\n    nonblocking: "@ + boolean(
        symbol.non_blocking,
    ) + "\n  },\n"@
}

/// The raw call table of the first `n` entries: one entry for each
/// free symbol, in order.
pub open spec fn symbols_table(entries: Seq<InventoryView>, n: nat) -> Seq<char>
    decreases n,
{
    if n == 0 || n > entries.len() {
        Seq::empty()
    } else {
        symbols_table(entries, (n - 1) as nat) + (match entries[n - 1] {
            InventoryView::Symbol(symbol) => symbol_entry(symbol),
            InventoryView::Struct { .. } => Seq::empty(),
        })
    }
}

/// The lines that every generated file opens with.
pub open spec fn prelude_text() -> Seq<char> {
    "// deno-lint-ignore-file\n\n// This file is automatically generated by deno_bindgen.\n// Do not edit this file directly.\n\n"@
}

/// The part that opens the native library at `target` and binds the
/// raw call table: at once, or, where `lazy`, inside a function `load`
/// that the importer calls.
pub open spec fn dlopen_text(
    entries: Seq<InventoryView>,
    target: Seq<char>,
    lazy: bool,
) -> Seq<char> {
    if lazy {
        "let symbols: any;\n\nexport function load(path: string = "@ + debug_text(target)
            + ") {\n  const { dlopen } = Deno;\n\n  const { symbols: symbols_ } = dlopen(path, {\n  "@
            + indented(symbols_table(entries, entries.len()) + "});\n\nsymbols = symbols_;"@, 2)
            + "\n}\n\n"@
    } else {
        "const { dlopen } = Deno;\n\nconst { symbols } = dlopen("@ + debug_text(target) + ", {\n"@
            + symbols_table(entries, entries.len()) + "});\n\n"@
    }
}

/// The wrapper of a free symbol: exported unless internal, it passes
/// its arguments on to the raw symbol and returns what comes back, a
/// custom type constructed around its pointer.
pub open spec fn function_export(symbol: SymbolView) -> Seq<char> {
    let count = symbol.parameters.len();
    (if symbol.internal {
        Seq::empty()
    } else {
        "export "@
    }) + "function "@ + symbol.name + enclosed(
        declared_lines(symbol.parameters, count),
        count > 0,
        Seq::empty(),
        "("@,
        ")"@,
    ) + ": "@ + symbol.return_type.promised(symbol.non_blocking) + " {\n"@ + (if symbol.return_type.from_raw(
        "ret"@,
    ) is Some {
        "  const ret = "@
    } else {
        "  return "@
    }) + "symbols."@ + symbol.name + enclosed(
        passed_lines(symbol.parameters, count, "    "@),
        count > 0,
        "  "@,
        "("@,
        ")"@,
    ) + (match symbol.return_type.from_raw("ret"@) {
        Some(made) => "\n  return "@ + made + ";"@,
        None => Seq::empty(),
    }) + "\n}\n\n"@
}

/// What every class of a custom type `name` opens with: the pointer,
/// the constructor around a pointer, and the disposal.
pub open spec fn class_head(name: Seq<char>) -> Seq<char> {
    "  ptr: Deno.PointerObject | null = null;\n\n  static __constructor(ptr: Deno.PointerObject | null) {\n    const self = Object.create("@
        + name
        + ".prototype);\n    self.ptr = ptr;\n    return self;\n  }\n\n  [Symbol.dispose]() {\n    this.dealloc();\n    this.ptr = null;\n  }\n"@
}

/// The parameters of a method as it declares them, in a row.
pub open spec fn method_parameters(parameters: Seq<TypeView>) -> Seq<Seq<char>> {
    Seq::new(
        parameters.len(),
        |i: int| argument_name(i as nat) + ": "@ + parameters[i].typescript(),
    )
}

/// A method of the class of the custom type `name`. It calls the
/// wrapper of the mangled symbol, with the value's own pointer first
/// unless it is a constructor.
pub open spec fn method_text(name: Seq<char>, method: SymbolView) -> Seq<char> {
    let parameters = visible_parameters(method);
    "\n  "@ + (if method.is_constructor {
        "constructor"@
    } else {
        method.name
    }) + "("@ + joined(method_parameters(parameters), ", "@) + ")"@ + (if method.is_constructor {
        " {\n"@
    } else {
        ": "@ + method.return_type.typescript() + " {\n"@
    }) + "    return __"@ + name + "_"@ + method.name + enclosed(
        (if method.is_constructor {
            Seq::empty()
        } else {
            "      this.ptr,\n"@
        }) + passed_lines(parameters, parameters.len(), "      "@),
        parameters.len() > 0 || !method.is_constructor,
        "    "@,
        "("@,
        ")"@,
    ) + "\n  }\n"@
}

/// The first `n` methods of the class of the custom type `name`.
pub open spec fn methods_text(name: Seq<char>, methods: Seq<SymbolView>, n: nat) -> Seq<char>
    decreases n,
{
    if n == 0 || n > methods.len() {
        Seq::empty()
    } else {
        methods_text(name, methods, (n - 1) as nat) + method_text(name, methods[n - 1])
    }
}

/// The class of a custom type: empty where it has no methods.
pub open spec fn class_export(name: Seq<char>, methods: Seq<SymbolView>) -> Seq<char> {
    "export class "@ + name + " "@ + enclosed(
        class_head(name) + methods_text(name, methods, methods.len()),
        methods.len() > 0,
        Seq::empty(),
        "{"@,
        "}\n\n"@,
    )
}

/// The wrappers of the first `n` entries: a function for each free
/// symbol and a class for each custom type, in order.
pub open spec fn exports_text(entries: Seq<InventoryView>, n: nat) -> Seq<char>
    decreases n,
{
    if n == 0 || n > entries.len() {
        Seq::empty()
    } else {
        exports_text(entries, (n - 1) as nat) + (match entries[n - 1] {
            InventoryView::Symbol(symbol) => function_export(symbol),
            InventoryView::Struct { name, methods } => class_export(name, methods),
        })
    }
}

/// The whole generated file: the opening lines, the part that opens
/// the library, and the wrappers.
pub open spec fn generated_text(
    entries: Seq<InventoryView>,
    target: Seq<char>,
    lazy: bool,
) -> Seq<char> {
    prelude_text() + dlopen_text(entries, target, lazy) + exports_text(entries, entries.len())
}

/// A managed type: its name, and whether it is a custom type.
#[derive(Debug)]
pub struct TypeScriptType {
    pub name: String,
    pub custom: bool,
}

impl TypeScriptType {
    /// Whether this is the managed type of `ty`.
    pub open spec fn is_for(&self, ty: TypeView) -> bool {
        &&& self.name@ == ty.typescript()
        &&& self.custom == (ty is CustomType)
        &&& !self.custom ==> (self.name@ == "Uint8Array"@ <==> ty is Buffer)
    }

    /// The expression that passes the managed value `ident` on to the
    /// raw symbol.
    pub open spec fn into_raw_text(&self, ident: Seq<char>) -> Seq<char> {
        if self.custom {
            ident + ".ptr"@
        } else if self.name@ == "Uint8Array"@ {
            ident + ",\n    "@ + ident + ".byteLength"@
        } else {
            ident
        }
    }

    /// The managed type of `ty`.
    pub fn from(ty: &Type) -> (t: Self)
        ensures
            t.is_for(ty@),
    {
        proof {
            reveal_strlit("Uint8Array");
            reveal_strlit("void");
            reveal_strlit("number");
            reveal_strlit("Deno.PointerObject | null");
            assert("Uint8Array"@.len() == 10);
            assert("void"@.len() == 4);
            assert("number"@.len() == 6);
            assert("Deno.PointerObject | null"@.len() == 25);
        }
        match ty {
            Type::Void => Self { name: String::from_str("void"), custom: false },
            Type::Uint8
            | Type::Uint16
            | Type::Uint32
            | Type::Uint64
            | Type::Int8
            | Type::Int16
            | Type::Int32
            | Type::Int64
            | Type::Float32
            | Type::Float64 => Self { name: String::from_str("number"), custom: false },
            Type::Pointer => Self {
                name: String::from_str("Deno.PointerObject | null"),
                custom: false,
            },
            Type::Buffer => Self { name: String::from_str("Uint8Array"), custom: false },
            Type::CustomType(name) => Self { name: name.clone(), custom: true },
        }
    }

    /// The expression that passes the managed value `ident` on to the
    /// raw symbol: a buffer with its length, a value of a custom type
    /// by its pointer, anything else as it is.
    pub fn into_raw(&self, ident: &str) -> (s: String)
        ensures
            s@ == self.into_raw_text(ident@),
            forall|ty: TypeView| self.is_for(ty) ==> s@ == ty.into_raw(ident@),
    {
        if self.custom {
            String::from_str(ident).concat(".ptr")
        } else if same(self.name.as_str(), "Uint8Array") {
            let mut out = String::from_str(ident);
            out.append(",\n    ");
            out.append(ident);
            out.append(".byteLength");
            out
        } else {
            String::from_str(ident)
        }
    }

    /// The expression that makes a managed value of the raw value
    /// `ident`, for a custom type only.
    pub fn from_raw(&self, ident: &str) -> (made: Option<String>)
        ensures
            made is Some <==> self.custom,
            made matches Some(s) ==> s@ == self.name@ + ".__constructor("@ + ident@ + ")"@,
    {
        if self.custom {
            let mut out = self.name.clone();
            out.append(".__constructor(");
            out.append(ident);
            out.append(")");
            Some(out)
        } else {
            None
        }
    }

    /// The declared result type: a promise where the call does not
    /// block.
    pub fn apply_promise(&self, non_blocking: bool) -> (s: String)
        ensures
            s@ == if non_blocking {
                "Promise<"@ + self.name@ + ">"@
            } else {
                self.name@
            },
    {
        if non_blocking {
            let mut out = String::from_str("Promise<");
            out.append(self.name.as_str());
            out.append(">");
            out
        } else {
            self.name.clone()
        }
    }
}

/// A type as the raw call table declares it.
#[derive(Debug)]
pub struct DenoFfiType(pub String);

impl DenoFfiType {
    /// The declaration of `ty` in the raw call table.
    pub fn from(ty: &Type) -> (t: Self)
        ensures
            t.0@ == ty@.ffi(),
    {
        let name = match ty {
            Type::Void => "void",
            Type::Uint8 => "u8",
            Type::Uint16 => "u16",
            Type::Uint32 => "u32",
            Type::Uint64 => "u64",
            Type::Int8 => "i8",
            Type::Int16 => "i16",
            Type::Int32 => "i32",
            Type::Int64 => "i64",
            Type::Float32 => "f32",
            Type::Float64 => "f64",
            Type::CustomType(_) | Type::Pointer => "pointer",
            Type::Buffer => "buffer",
        };
        let mut raw = String::from_str("'");
        raw.append(name);
        raw.append("'");
        match ty {
            Type::Buffer => {
                raw.append(",\n      'usize'");
            },
            _ => {
                assert(raw@ + Seq::<char>::empty() == raw@);
            },
        }
        Self(raw)
    }
}

/// The name of the argument at position `i`.
pub fn argument(i: usize) -> (s: String)
    ensures
        s@ == argument_name(i as nat),
{
    String::from_str("arg").concat(decimal_string(i).as_str())
}

/// `body` between `open` and `close`.
pub fn enclose(body: &str, filled: bool, indent: &str, open: &str, close: &str) -> (s: String)
    ensures
        s@ == enclosed(body@, filled, indent@, open@, close@),
{
    let mut out = String::from_str(open);
    if filled {
        out.append("\n");
        out.append(body);
        out.append(indent);
    }
    out.append(close);
    out
}

/// The arguments from position `first` on as a wrapper passes them on,
/// each on a line of its own behind `indent`.
pub fn passed(parameters: &Vec<Type>, first: usize, indent: &str) -> (s: String)
    requires
        first <= parameters.len(),
    ensures
        s@ == passed_lines(
            type_views(parameters@).skip(first as int),
            (parameters.len() - first) as nat,
            indent@,
        ),
{
    let ghost visible = type_views(parameters@).skip(first as int);
    let count = parameters.len() - first;
    let mut out = String::new();
    let mut i: usize = 0;
    while i < count
        invariant
            0 <= i <= count,
            first <= parameters.len(),
            count == parameters.len() - first,
            visible == type_views(parameters@).skip(first as int),
            out@ == passed_lines(visible, i as nat, indent@),
        decreases count - i,
    {
        assert(visible[i as int] == parameters[first + i]@);
        let ty = TypeScriptType::from(&parameters[first + i]);
        out.append(indent);
        out.append(ty.into_raw(argument(i).as_str()).as_str());
        out.append(",\n");
        i = i + 1;
    }
    out
}

/// A codegen for Deno over an inventory.
#[derive(Debug)]
pub struct Codegen<'a> {
    symbols: &'a [Inventory],
    target: &'a str,
    lazy: bool,
}

impl<'a> Codegen<'a> {
    /// The inventory that bindings are generated for.
    pub closed spec fn entries(&self) -> Seq<InventoryView> {
        inventory_views(self.symbols@)
    }

    /// Where the native library lies.
    pub closed spec fn target(&self) -> Seq<char> {
        self.target@
    }

    /// Whether the bindings load the library on demand.
    pub closed spec fn lazy(&self) -> bool {
        self.lazy
    }

    /// A codegen for `symbols`, for the native library at `target`.
    pub fn new(symbols: &'a [Inventory], target: &'a str, lazy: bool) -> (c: Self)
        ensures
            c.entries() == inventory_views(symbols@),
            c.target() == target@,
            c.lazy() == lazy,
    {
        Self { symbols, target, lazy }
    }

    /// The entry of a symbol in the raw call table.
    pub fn symbol_entry(symbol: &Symbol) -> (s: String)
        ensures
            s@ == symbol_entry(symbol@),
    {
        let ghost parameters = symbol@.parameters;
        let mut out = String::from_str("  ");
        out.append(symbol.name.as_str());
        out.append(": {\n    parameters: ");
        if symbol.parameters.len() > 0 {
            let mut lines = String::new();
            let mut i: usize = 0;
            while i < symbol.parameters.len()
                invariant
                    0 <= i <= symbol.parameters.len(),
                    parameters == type_views(symbol.parameters@),
                    lines@ == ffi_lines(parameters, i as nat),
                decreases symbol.parameters.len() - i,
            {
                lines.append("      ");
                lines.append(DenoFfiType::from(&symbol.parameters[i]).0.as_str());
                lines.append(",\n");
                i = i + 1;
            }
            let mut list = String::from_str("[\n");
            list.append(lines.as_str());
            list.append("    ],\n");
            out.append(list.as_str());
        } else {
            out.append("[],\n");
        }
        out.append("    result: ");
        out.append(DenoFfiType::from(&symbol.return_type).0.as_str());
        out.append(",\n    nonblocking: ");
        out.append(boolean_string(symbol.non_blocking).as_str());
        out.append("\n  },\n");
        out
    }

    /// The raw call table: one entry for each free symbol.
    pub fn write_symbols(&self) -> (s: String)
        ensures
            s@ == symbols_table(self.entries(), self.entries().len()),
    {
        let mut out = String::new();
        let mut i: usize = 0;
        while i < self.symbols.len()
            invariant
                0 <= i <= self.symbols.len(),
                out@ == symbols_table(self.entries(), i as nat),
            decreases self.symbols.len() - i,
        {
            assert(self.entries()[i as int] == self.symbols[i as int]@);
            match &self.symbols[i] {
                Inventory::Symbol(symbol) => {
                    out.append(Self::symbol_entry(symbol).as_str());
                },
                Inventory::Struct(_) => {
                    assert(out@ + Seq::<char>::empty() == out@);
                },
            }
            i = i + 1;
        }
        out
    }

    /// The part that opens the native library and binds the raw call
    /// table.
    pub fn dlopen(&self) -> (s: String)
        ensures
            s@ == dlopen_text(self.entries(), self.target(), self.lazy()),
    {
        if self.lazy {
            return self.lazy_dlopen();
        }
        let mut out = String::from_str("const { dlopen } = Deno;\n\nconst { symbols } = dlopen(");
        out.append(debug_string(self.target).as_str());
        out.append(", {\n");
        out.append(self.write_symbols().as_str());
        out.append("});\n\n");
        out
    }

    /// The part that opens the native library inside a function `load`.
    pub fn lazy_dlopen(&self) -> (s: String)
        ensures
            s@ == dlopen_text(self.entries(), self.target(), true),
    {
        let mut out = String::from_str("let symbols: any;\n\nexport function load(path: string = ");
        out.append(debug_string(self.target).as_str());
        out.append(
            ") {\n  const { dlopen } = Deno;\n\n  const { symbols: symbols_ } = dlopen(path, {\n  ",
        );
        let mut inner = self.write_symbols();
        inner.append("});\n\nsymbols = symbols_;");
        out.append(indent(inner.as_str(), 2).as_str());
        out.append("\n}\n\n");
        out
    }

    /// The wrapper of a free symbol.
    pub fn function_export(symbol: &Symbol) -> (s: String)
        ensures
            s@ == function_export(symbol@),
    {
        let ghost parameters = symbol@.parameters;
        let count = symbol.parameters.len();
        let mut out = if symbol.internal {
            String::new()
        } else {
            String::from_str("export ")
        };
        out.append("function ");
        out.append(symbol.name.as_str());
        let mut declared = String::new();
        let mut i: usize = 0;
        while i < count
            invariant
                0 <= i <= count,
                count == symbol.parameters.len(),
                parameters == type_views(symbol.parameters@),
                declared@ == declared_lines(parameters, i as nat),
            decreases count - i,
        {
            declared.append("  ");
            declared.append(argument(i).as_str());
            declared.append(": ");
            declared.append(TypeScriptType::from(&symbol.parameters[i]).name.as_str());
            declared.append(",\n");
            i = i + 1;
        }
        out.append(enclose(declared.as_str(), count > 0, "", "(", ")").as_str());
        out.append(": ");
        let result = TypeScriptType::from(&symbol.return_type);
        out.append(result.apply_promise(symbol.non_blocking).as_str());
        out.append(" {\n");
        let made = result.from_raw("ret");
        if made.is_some() {
            out.append("  const ret = ");
        } else {
            out.append("  return ");
        }
        out.append("symbols.");
        out.append(symbol.name.as_str());
        assert(parameters.skip(0) =~= parameters);
        out.append(
            enclose(passed(&symbol.parameters, 0, "    ").as_str(), count > 0, "  ", "(", ")").as_str(),
        );
        match made {
            Some(made) => {
                let mut last = String::from_str("\n  return ");
                last.append(made.as_str());
                last.append(";");
                out.append(last.as_str());
            },
            None => {
                assert(out@ + Seq::<char>::empty() == out@);
            },
        }
        out.append("\n}\n\n");
        proof {
            reveal_strlit("");
            assert(""@ =~= Seq::<char>::empty());
        }
        out
    }

    /// A method of the class of the custom type `name`.
    pub fn method_export(name: &str, method: &Symbol) -> (s: String)
        ensures
            s@ == method_text(name@, method@),
    {
        let ghost visible = visible_parameters(method@);
        let first: usize = if method.is_constructor || method.parameters.len() == 0 {
            0
        } else {
            1
        };
        let count = method.parameters.len() - first;
        assert(visible =~= type_views(method.parameters@).skip(first as int));
        let mut out = String::from_str("\n  ");
        if method.is_constructor {
            out.append("constructor");
        } else {
            out.append(method.name.as_str());
        }
        out.append("(");
        let mut declared: Vec<String> = Vec::new();
        let mut i: usize = 0;
        assert(declared.deep_view() =~= method_parameters(visible).take(0));
        while i < count
            invariant
                0 <= i <= count,
                first <= method.parameters.len(),
                count == method.parameters.len() - first,
                visible == type_views(method.parameters@).skip(first as int),
                declared.deep_view() == method_parameters(visible).take(i as int),
            decreases count - i,
        {
            assert(visible[i as int] == method.parameters[first + i]@);
            let mut parameter = argument(i);
            parameter.append(": ");
            parameter.append(TypeScriptType::from(&method.parameters[first + i]).name.as_str());
            push_text(&mut declared, parameter);
            assert(declared.deep_view() =~= method_parameters(visible).take(i + 1));
            i = i + 1;
        }
        assert(method_parameters(visible).take(count as int) =~= method_parameters(visible));
        out.append(join(&declared, ", ").as_str());
        out.append(")");
        if method.is_constructor {
            out.append(" {\n");
        } else {
            let mut result = String::from_str(": ");
            result.append(TypeScriptType::from(&method.return_type).name.as_str());
            result.append(" {\n");
            out.append(result.as_str());
        }
        out.append("    return __");
        out.append(name);
        out.append("_");
        out.append(method.name.as_str());
        let mut body = if method.is_constructor {
            String::new()
        } else {
            String::from_str("      this.ptr,\n")
        };
        body.append(passed(&method.parameters, first, "      ").as_str());
        out.append(
            enclose(body.as_str(), count > 0 || !method.is_constructor, "    ", "(", ")").as_str(),
        );
        out.append("\n  }\n");
        out
    }

    /// The class of the custom type `name` with its `methods`.
    pub fn class_export(name: &str, methods: &Vec<Symbol>) -> (s: String)
        ensures
            s@ == class_export(name@, symbol_views(methods@)),
    {
        let ghost views = symbol_views(methods@);
        let mut body = String::from_str(
            "  ptr: Deno.PointerObject | null = null;\n\n  static __constructor(ptr: Deno.PointerObject | null) {\n    const self = Object.create(",
        );
        body.append(name);
        body.append(
            ".prototype);\n    self.ptr = ptr;\n    return self;\n  }\n\n  [Symbol.dispose]() {\n    this.dealloc();\n    this.ptr = null;\n  }\n",
        );
        let ghost head = body@;
        let mut i: usize = 0;
        assert(body@ =~= head + methods_text(name@, views, 0));
        while i < methods.len()
            invariant
                0 <= i <= methods.len(),
                views == symbol_views(methods@),
                body@ == head + methods_text(name@, views, i as nat),
            decreases methods.len() - i,
        {
            assert(views[i as int] == methods[i as int]@);
            let ghost before = body@;
            body.append(Self::method_export(name, &methods[i]).as_str());
            assert(body@ =~= head + methods_text(name@, views, (i + 1) as nat));
            i = i + 1;
        }
        let mut out = String::from_str("export class ");
        out.append(name);
        out.append(" ");
        out.append(enclose(body.as_str(), methods.len() > 0, "", "{", "}\n\n").as_str());
        proof {
            reveal_strlit("");
            assert(""@ =~= Seq::<char>::empty());
        }
        out
    }

    /// The wrappers: a function for each free symbol and a class for
    /// each custom type, in order.
    pub fn exports(&self) -> (s: String)
        ensures
            s@ == exports_text(self.entries(), self.entries().len()),
    {
        let mut out = String::new();
        let mut i: usize = 0;
        while i < self.symbols.len()
            invariant
                0 <= i <= self.symbols.len(),
                out@ == exports_text(self.entries(), i as nat),
            decreases self.symbols.len() - i,
        {
            assert(self.entries()[i as int] == self.symbols[i as int]@);
            match &self.symbols[i] {
                Inventory::Symbol(symbol) => {
                    out.append(Self::function_export(symbol).as_str());
                },
                Inventory::Struct(s) => {
                    out.append(Self::class_export(s.name.as_str(), &s.methods).as_str());
                },
            }
            i = i + 1;
        }
        out
    }

    /// The whole generated file.
    pub fn text(&self) -> (s: String)
        ensures
            s@ == generated_text(self.entries(), self.target(), self.lazy()),
    {
        let mut out = String::from_str(
            "// deno-lint-ignore-file\n\n// This file is automatically generated by deno_bindgen.\n// Do not edit this file directly.\n\n",
        );
        out.append(self.dlopen().as_str());
        out.append(self.exports().as_str());
        out
    }
}

impl<'a> Generator for Codegen<'a> {
    fn generate(&self) -> (s: String)
        ensures
            s@ == generated_text(self.entries(), self.target(), self.lazy()),
    {
        self.text()
    }
}

} // verus!
