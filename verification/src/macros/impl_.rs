//! Binding the methods of a native struct: each becomes a symbol of
//! the custom type, and one more symbol frees a value.
use vstd::prelude::*;
use vstd::string::*;
use crate::ir::inventory::{symbol_views, Struct};
use crate::ir::{type_views, Symbol, SymbolView, Type, TypeView};
use crate::macros::fn_::{build_symbol, parse_inputs, parsed_inputs, FnAttributes};
use crate::macros::syntax::{FnArg, ImplMethod, ItemImpl, RustType};
use crate::macros::types::{parse_type, parsed_type};
use crate::macros::util::Error;
use crate::text::same;

verus! {

/// The name of the symbol that the boundary calls for the method
/// `method` of the type `ty`.
pub open spec fn mangled_name(ty: Seq<char>, method: Seq<char>) -> Seq<char> {
    "__"@ + ty + "_"@ + method
}

/// The name of the symbol that the boundary calls for a method.
pub fn mangle(ty: &str, method: &str) -> (s: String)
    ensures
        s@ == mangled_name(ty@, method@),
{
    let mut out = String::from_str("__");
    out.append(ty);
    out.append("_");
    out.append(method);
    out
}

/// Whether a method is marked as the constructor.
pub open spec fn marked_constructor(method: ImplMethod) -> bool {
    method.first_attr matches Some(path) && path@ == "constructor"@
}

/// Whether a method takes the value itself first.
pub open spec fn takes_self(method: ImplMethod) -> bool {
    method.sig.inputs@.len() > 0 && method.sig.inputs@[0] is Receiver
}

/// The boundary type of a result; void where none is written.
pub open spec fn parsed_output(output: Option<RustType>) -> Result<TypeView, Error> {
    match output {
        None => Ok(TypeView::Void),
        Some(ty) => match parsed_type(ty) {
            Some(parsed) => Ok(parsed),
            None => Err(Error::UnsupportedType),
        },
    }
}

/// The symbol that a method becomes, under the method's own name and
/// hidden from importers. A method that takes the value itself gets
/// a pointer to the value as its first parameter; a method that does
/// not must be marked as the constructor.
pub open spec fn method_symbol(method: ImplMethod) -> Result<SymbolView, Error> {
    let inputs = method.sig.inputs@;
    if !takes_self(method) && !marked_constructor(method) {
        Err(Error::MissingReceiver)
    } else {
        let rest = if takes_self(method) {
            inputs.skip(1)
        } else {
            inputs
        };
        match parsed_inputs(rest, rest.len()) {
            Err(e) => Err(e),
            Ok(types) => match parsed_output(method.sig.output) {
                Err(e) => Err(e),
                Ok(return_type) => Ok(
                    SymbolView {
                        name: method.sig.ident@,
                        parameters: if takes_self(method) {
                            seq![TypeView::Pointer] + types
                        } else {
                            types
                        },
                        return_type,
                        non_blocking: false,
                        internal: true,
                        is_constructor: marked_constructor(method),
                    },
                ),
            },
        }
    }
}

/// The symbol that frees a value: it takes a pointer to the value.
pub open spec fn dealloc_symbol() -> SymbolView {
    SymbolView {
        name: "dealloc"@,
        parameters: seq![TypeView::Pointer],
        return_type: TypeView::Void,
        non_blocking: false,
        internal: true,
        is_constructor: false,
    }
}

/// The symbols of the first `n` methods, or the first reason why a
/// method cannot be bound.
pub open spec fn method_symbols(methods: Seq<ImplMethod>, n: nat) -> Result<Seq<SymbolView>, Error>
    decreases n,
{
    if n == 0 || n > methods.len() {
        Ok(Seq::empty())
    } else {
        match method_symbols(methods, (n - 1) as nat) {
            Ok(symbols) => match method_symbol(methods[n - 1]) {
                Ok(symbol) => Ok(symbols.push(symbol)),
                Err(e) => Err(e),
            },
            Err(e) => Err(e),
        }
    }
}

/// The symbols that an `impl` block becomes: those of its methods in
/// order, then the one that frees a value. There are none where the
/// block has generic parameters or a `where` clause, is for a type
/// that is no single name, or holds a method that cannot be bound.
pub open spec fn impl_symbols(block: ItemImpl) -> Result<Seq<SymbolView>, Error> {
    if block.generics {
        Err(Error::Generics)
    } else if block.where_clause {
        Err(Error::WhereClause)
    } else if block.self_ty.single_name() is None {
        Err(Error::UnsupportedType)
    } else {
        match method_symbols(block.methods@, block.methods@.len()) {
            Ok(symbols) => Ok(symbols.push(dealloc_symbol())),
            Err(e) => Err(e),
        }
    }
}

/// Once a method fails, looking at more methods changes nothing.
pub proof fn lemma_methods_fail(methods: Seq<ImplMethod>, i: nat, n: nat)
    requires
        i <= n <= methods.len(),
        method_symbols(methods, i) is Err,
    ensures
        method_symbols(methods, n) == method_symbols(methods, i),
    decreases n,
{
    if i < n {
        lemma_methods_fail(methods, i, (n - 1) as nat);
    }
}

/// The symbol that a method becomes.
pub fn handle_method(method: &ImplMethod) -> (r: Result<Symbol, Error>)
    ensures
        match r {
            Ok(symbol) => method_symbol(*method) == Ok::<SymbolView, Error>(symbol@),
            Err(e) => method_symbol(*method) == Err::<SymbolView, Error>(e),
        },
{
    let constructor = match &method.first_attr {
        Some(path) => same(path.as_str(), "constructor"),
        None => false,
    };
    let receiver = method.sig.inputs.len() > 0 && match &method.sig.inputs[0] {
        FnArg::Receiver => true,
        FnArg::Typed(_) => false,
    };
    if !receiver && !constructor {
        return Err(Error::MissingReceiver);
    }
    let first: usize = if receiver {
        1
    } else {
        0
    };
    assert(method.sig.inputs@.skip(0) =~= method.sig.inputs@);
    let types = match parse_inputs(&method.sig.inputs, first) {
        Ok(types) => types,
        Err(e) => {
            return Err(e);
        },
    };
    let return_type = match &method.sig.output {
        None => Type::Void,
        Some(output) => {
            match parse_type(output) {
                Ok(parsed) => parsed,
                Err(e) => {
                    return Err(e);
                },
            }
        },
    };
    let mut parameters: Vec<Type> = Vec::new();
    if receiver {
        parameters.push(Type::Pointer);
    }
    let ghost leading = type_views(parameters@);
    assert(leading =~= if receiver {
        seq![TypeView::Pointer]
    } else {
        Seq::empty()
    });
    for ty in iter: types
        invariant
            type_views(parameters@) == leading + type_views(iter.seq()).take(iter.index()),
    {
        let ghost before = type_views(parameters@);
        parameters.push(ty);
        assert(type_views(parameters@) =~= before.push(ty@));
        assert(type_views(iter.seq()).take(iter.index() + 1) =~= type_views(iter.seq()).take(
            iter.index(),
        ).push(ty@));
    }
    assert(type_views(parameters@) =~= leading + type_views(types@)) by {
        assert(type_views(types@).take(types@.len() as int) =~= type_views(types@));
    }
    let symbol = build_symbol(
        method.sig.ident.as_str(),
        &parameters,
        return_type,
        FnAttributes { non_blocking: false, constructor, internal: true },
    );
    Ok(symbol.build())
}

/// The symbol that frees a value.
pub fn dealloc() -> (symbol: Symbol)
    ensures
        symbol@ == dealloc_symbol(),
{
    let mut parameters: Vec<Type> = Vec::new();
    parameters.push(Type::Pointer);
    assert(type_views(parameters@) =~= seq![TypeView::Pointer]);
    build_symbol(
        "dealloc",
        &parameters,
        Type::Void,
        FnAttributes { non_blocking: false, constructor: false, internal: true },
    ).build()
}

/// The custom type that an `impl` block becomes: the type's name with
/// the symbols of its methods and the one that frees a value. Fails
/// with the first reason why the block cannot be bound.
#[verifier::loop_isolation(false)]
pub fn handle(block: &ItemImpl) -> (r: Result<Struct, Error>)
    ensures
        match r {
            Ok(bound) => Some(bound.name@) == block.self_ty.single_name() && impl_symbols(*block)
                == Ok::<Seq<SymbolView>, Error>(symbol_views(bound.methods@)),
            Err(e) => impl_symbols(*block) == Err::<Seq<SymbolView>, Error>(e),
        },
{
    if block.generics {
        return Err(Error::Generics);
    }
    if block.where_clause {
        return Err(Error::WhereClause);
    }
    let name = match block.self_ty.get_ident() {
        Some(name) => name.clone(),
        None => {
            return Err(Error::UnsupportedType);
        },
    };
    let mut methods: Vec<Symbol> = Vec::new();
    let mut i: usize = 0;
    assert(symbol_views(methods@) =~= Seq::<SymbolView>::empty());
    while i < block.methods.len()
        invariant
            0 <= i <= block.methods.len(),
            method_symbols(block.methods@, i as nat) == Ok::<Seq<SymbolView>, Error>(
                symbol_views(methods@),
            ),
        decreases block.methods.len() - i,
    {
        match handle_method(&block.methods[i]) {
            Ok(symbol) => {
                let ghost before = symbol_views(methods@);
                methods.push(symbol);
                assert(symbol_views(methods@) =~= before.push(symbol@));
            },
            Err(e) => {
                proof {
                    lemma_methods_fail(block.methods@, (i + 1) as nat, block.methods@.len());
                }
                return Err(e);
            },
        }
        i = i + 1;
    }
    let ghost before = symbol_views(methods@);
    let last = dealloc();
    methods.push(last);
    assert(symbol_views(methods@) =~= before.push(dealloc_symbol()));
    Ok(Struct { name, methods })
}

} // verus!
