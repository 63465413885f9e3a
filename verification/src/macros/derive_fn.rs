//! Recording a native function: the types of its parameters and of
//! its result.
use vstd::prelude::*;
use vstd::string::*;
use crate::macros::meta::{meta_views, CType, Glue, Symbol, Type};
use crate::macros::syntax::{FnArg, RustType, Signature};
use crate::text::{decimal, decimal_string, same};

verus! {

/// The complaint about a declaration that is not supported.
pub open spec fn unsupported() -> Seq<char> {
    "not implemented"@
}

/// The complaint about a parameter of a type that was never declared.
pub open spec fn undefined_type(name: Seq<char>) -> Seq<char> {
    "Type definition not found for `"@ + name + "` identifier"@
}

/// The complaint about a result of a type that cannot come back.
pub open spec fn unsupported_result(name: Seq<char>) -> Seq<char> {
    name + " return type not supported by Deno FFI"@
}

/// The complaint about a mutable slice as a result.
pub open spec fn mutable_result() -> Seq<char> {
    "Mutable slices are not mutable from JS"@
}

/// The integer type that a name stands for.
pub open spec fn integer_named(name: Seq<char>) -> Option<CType> {
    if name == "i8"@ {
        Some(CType::I8)
    } else if name == "u8"@ {
        Some(CType::U8)
    } else if name == "i16"@ {
        Some(CType::I16)
    } else if name == "u16"@ {
        Some(CType::U16)
    } else if name == "i32"@ {
        Some(CType::I32)
    } else if name == "u32"@ {
        Some(CType::U32)
    } else if name == "i64"@ {
        Some(CType::I64)
    } else if name == "u64"@ {
        Some(CType::U64)
    } else if name == "usize"@ {
        Some(CType::Usize)
    } else if name == "isize"@ {
        Some(CType::Isize)
    } else {
        None
    }
}

/// Whether a type is declared under `name`.
pub open spec fn declared(
    definitions: Seq<(String, Vec<(String, String)>)>,
    name: Seq<char>,
) -> bool {
    exists|i: int| 0 <= i < definitions.len() && (#[trigger] definitions[i]).0@ == name
}

/// Whether a written type is a slice of bytes.
pub open spec fn is_bytes(ty: RustType) -> bool {
    ty matches RustType::Slice(inner) && inner.first_name() == Some("u8"@)
}

/// The type of a parameter. An integer name is that integer; any
/// other name must be declared and is that struct or enum; `&str` is a
/// text; a reference to a slice of bytes is a buffer, mutable if the
/// reference is.
pub open spec fn argument_type(
    ty: RustType,
    definitions: Seq<(String, Vec<(String, String)>)>,
) -> Result<(CType, Option<Seq<char>>), Seq<char>> {
    match ty {
        RustType::Path(_) => match ty.first_name() {
            None => Err(unsupported()),
            Some(name) => match integer_named(name) {
                Some(integer) => Ok((integer, None)),
                None => if declared(definitions, name) {
                    Ok((CType::Ptr, Some(name)))
                } else {
                    Err(undefined_type(name))
                },
            },
        },
        RustType::Reference { mutable, elem, .. } => if elem.first_name() == Some("str"@) {
            Ok((CType::Str, None))
        } else if is_bytes(*elem) {
            Ok(
                (
                    if mutable {
                        CType::BufferMut
                    } else {
                        CType::Buffer
                    },
                    None,
                ),
            )
        } else {
            Err(unsupported())
        },
        _ => Err(unsupported()),
    }
}

/// The type of a result. Nothing written is void; a raw pointer is a
/// pointer; a number name is that number; `String` is a text; any
/// other name must be declared; a shared reference to a slice of bytes
/// is a buffer.
pub open spec fn result_type(
    output: Option<RustType>,
    definitions: Seq<(String, Vec<(String, String)>)>,
) -> Result<(CType, Option<Seq<char>>), Seq<char>> {
    match output {
        None => Ok((CType::Void, None)),
        Some(RustType::Ptr) => Ok((CType::Ptr, None)),
        Some(RustType::Path(segments)) => match RustType::Path(segments).first_name() {
            None => Err(unsupported()),
            Some(name) => match integer_named(name) {
                Some(integer) => Ok((integer, None)),
                None => if name == "f32"@ {
                    Ok((CType::F32, None))
                } else if name == "f64"@ {
                    Ok((CType::F64, None))
                } else if name == "String"@ {
                    Ok((CType::Str, None))
                } else if declared(definitions, name) {
                    Ok((CType::Ptr, Some(name)))
                } else {
                    Err(unsupported_result(name))
                },
            },
        },
        Some(RustType::Reference { mutable, elem, .. }) => if is_bytes(*elem) {
            if mutable {
                Err(mutable_result())
            } else {
                Ok((CType::Buffer, None))
            }
        } else {
            Err(unsupported())
        },
        Some(_) => Err(unsupported()),
    }
}

/// The types of the first `n` parameters, or the first complaint. A
/// receiver is not supported.
pub open spec fn argument_types(
    inputs: Seq<FnArg>,
    definitions: Seq<(String, Vec<(String, String)>)>,
    n: nat,
) -> Result<Seq<(CType, Option<Seq<char>>)>, Seq<char>>
    decreases n,
{
    if n == 0 || n > inputs.len() {
        Ok(Seq::empty())
    } else {
        match argument_types(inputs, definitions, (n - 1) as nat) {
            Ok(types) => match inputs[n - 1] {
                FnArg::Receiver => Err(unsupported()),
                FnArg::Typed(ty) => match argument_type(ty, definitions) {
                    Ok(parsed) => Ok(types.push(parsed)),
                    Err(complaint) => Err(complaint),
                },
            },
            Err(complaint) => Err(complaint),
        }
    }
}

/// Once a parameter raises a complaint, looking at more parameters
/// changes nothing.
pub proof fn lemma_arguments_complaint(
    inputs: Seq<FnArg>,
    definitions: Seq<(String, Vec<(String, String)>)>,
    i: nat,
    n: nat,
)
    requires
        i <= n <= inputs.len(),
        argument_types(inputs, definitions, i) is Err,
    ensures
        argument_types(inputs, definitions, n) == argument_types(inputs, definitions, i),
    decreases n,
{
    if i < n {
        lemma_arguments_complaint(inputs, definitions, i, (n - 1) as nat);
    }
}

fn integer(name: &str) -> (r: Option<Type>)
    ensures
        match r {
            Some(ty) => integer_named(name@) == Some(ty.boundary()) && ty.struct_name() is None,
            None => integer_named(name@) is None,
        },
{
    if same(name, "i8") {
        Some(Type::I8)
    } else if same(name, "u8") {
        Some(Type::U8)
    } else if same(name, "i16") {
        Some(Type::I16)
    } else if same(name, "u16") {
        Some(Type::U16)
    } else if same(name, "i32") {
        Some(Type::I32)
    } else if same(name, "u32") {
        Some(Type::U32)
    } else if same(name, "i64") {
        Some(Type::I64)
    } else if same(name, "u64") {
        Some(Type::U64)
    } else if same(name, "usize") {
        Some(Type::Usize)
    } else if same(name, "isize") {
        Some(Type::Isize)
    } else {
        None
    }
}

fn bytes(ty: &RustType) -> (r: bool)
    ensures
        r == is_bytes(*ty),
{
    match ty {
        RustType::Slice(inner) => {
            match inner.first_ident() {
                Some(name) => same(name.as_str(), "u8"),
                None => false,
            }
        },
        _ => false,
    }
}

impl Glue {
    /// Whether a type is declared under `name`.
    pub fn declares(&self, name: &str) -> (r: bool)
        ensures
            r == declared(self.type_defs@, name@),
    {
        let mut i: usize = 0;
        while i < self.type_defs.len()
            invariant
                0 <= i <= self.type_defs.len(),
                forall|k: int| 0 <= k < i ==> (#[trigger] self.type_defs[k]).0@ != name@,
            decreases self.type_defs.len() - i,
        {
            if same(self.type_defs[i].0.as_str(), name) {
                return true;
            }
            i = i + 1;
        }
        false
    }
}

/// The type of a parameter written as `ty`, given what `metadata`
/// declares.
pub fn make_args(ty: &RustType, metadata: &Glue) -> (r: Result<Type, String>)
    ensures
        match r {
            Ok(parsed) => argument_type(*ty, metadata.type_defs@) == Ok::<
                (CType, Option<Seq<char>>),
                Seq<char>,
            >(parsed@),
            Err(complaint) => argument_type(*ty, metadata.type_defs@) == Err::<
                (CType, Option<Seq<char>>),
                Seq<char>,
            >(complaint@),
        },
{
    match ty {
        RustType::Path(_) => {
            let name = match ty.first_ident() {
                Some(name) => name,
                None => {
                    return Err(String::from_str("not implemented"));
                },
            };
            match integer(name.as_str()) {
                Some(parsed) => Ok(parsed),
                None => {
                    if metadata.declares(name.as_str()) {
                        Ok(Type::StructEnum { ident: name.clone() })
                    } else {
                        let mut complaint = String::from_str("Type definition not found for `");
                        complaint.append(name.as_str());
                        complaint.append("` identifier");
                        Err(complaint)
                    }
                },
            }
        },
        RustType::Reference { mutable, elem, .. } => {
            let text = match elem.first_ident() {
                Some(name) => same(name.as_str(), "str"),
                None => false,
            };
            if text {
                Ok(Type::Str)
            } else if bytes(elem) {
                if *mutable {
                    Ok(Type::BufferMut)
                } else {
                    Ok(Type::Buffer)
                }
            } else {
                Err(String::from_str("not implemented"))
            }
        },
        _ => Err(String::from_str("not implemented")),
    }
}

/// The type of a result written as `output`, given what `metadata`
/// declares.
pub fn make_ret(output: &Option<RustType>, metadata: &Glue) -> (r: Result<Type, String>)
    ensures
        match r {
            Ok(parsed) => result_type(*output, metadata.type_defs@) == Ok::<
                (CType, Option<Seq<char>>),
                Seq<char>,
            >(parsed@),
            Err(complaint) => result_type(*output, metadata.type_defs@) == Err::<
                (CType, Option<Seq<char>>),
                Seq<char>,
            >(complaint@),
        },
{
    match output {
        None => Ok(Type::Void),
        Some(RustType::Ptr) => Ok(Type::Ptr),
        Some(RustType::Path(segments)) => {
            if segments.len() == 0 {
                return Err(String::from_str("not implemented"));
            }
            let name = &segments[0].ident;
            match integer(name.as_str()) {
                Some(parsed) => Ok(parsed),
                None => {
                    if same(name.as_str(), "f32") {
                        Ok(Type::F32)
                    } else if same(name.as_str(), "f64") {
                        Ok(Type::F64)
                    } else if same(name.as_str(), "String") {
                        Ok(Type::Str)
                    } else if metadata.declares(name.as_str()) {
                        Ok(Type::StructEnum { ident: name.clone() })
                    } else {
                        Err(name.clone().concat(" return type not supported by Deno FFI"))
                    }
                },
            }
        },
        Some(RustType::Reference { mutable, elem, .. }) => {
            if bytes(elem) {
                if *mutable {
                    Err(String::from_str("Mutable slices are not mutable from JS"))
                } else {
                    Ok(Type::Buffer)
                }
            } else {
                Err(String::from_str("not implemented"))
            }
        },
        Some(_) => Err(String::from_str("not implemented")),
    }
}

/// Records the function with the signature `function` in `metadata`
/// under its name, and gives what was recorded. `attribute` is the
/// first argument of the binding attribute; `non_blocking` makes calls
/// of the function not block. Fails, and records nothing, with the
/// first complaint: of a parameter, in order, else of the result.
pub fn process_function(function: &Signature, attribute: Option<&str>, metadata: &mut Glue) -> (r:
    Result<Symbol, String>)
    ensures
        match r {
            Ok(symbol) => {
                &&& argument_types(
                    function.inputs@,
                    old(metadata).type_defs@,
                    function.inputs@.len(),
                ) == Ok::<Seq<(CType, Option<Seq<char>>)>, Seq<char>>(
                    meta_views(symbol.parameters@),
                )
                &&& result_type(function.output, old(metadata).type_defs@) == Ok::<
                    (CType, Option<Seq<char>>),
                    Seq<char>,
                >(symbol.result@)
                &&& symbol.non_blocking == (attribute matches Some(path) && path@
                    == "non_blocking"@)
                &&& final(metadata).symbols@.len() == old(metadata).symbols@.len() + 1
                &&& final(metadata).symbols@.drop_last() == old(metadata).symbols@
                &&& final(metadata).symbols@.last().0@ == function.ident@
                &&& meta_views(final(metadata).symbols@.last().1.parameters@) == meta_views(
                    symbol.parameters@,
                )
                &&& final(metadata).symbols@.last().1.result@ == symbol.result@
                &&& final(metadata).symbols@.last().1.non_blocking == symbol.non_blocking
                &&& final(metadata).name == old(metadata).name
                &&& final(metadata).type_defs == old(metadata).type_defs
                &&& final(metadata).ts_types == old(metadata).ts_types
            },
            Err(complaint) => {
                &&& *final(metadata) == *old(metadata)
                &&& match argument_types(
                    function.inputs@,
                    old(metadata).type_defs@,
                    function.inputs@.len(),
                ) {
                    Err(first) => complaint@ == first,
                    Ok(_) => result_type(function.output, old(metadata).type_defs@) == Err::<
                        (CType, Option<Seq<char>>),
                        Seq<char>,
                    >(complaint@),
                }
            },
        },
{
    let ghost definitions = metadata.type_defs@;
    let mut parameters: Vec<Type> = Vec::new();
    let mut copies: Vec<Type> = Vec::new();
    let mut i: usize = 0;
    assert(meta_views(parameters@) =~= Seq::empty());
    while i < function.inputs.len()
        invariant
            0 <= i <= function.inputs.len(),
            *metadata == *old(metadata),
            definitions == metadata.type_defs@,
            argument_types(function.inputs@, definitions, i as nat) == Ok::<
                Seq<(CType, Option<Seq<char>>)>,
                Seq<char>,
            >(meta_views(parameters@)),
            meta_views(copies@) == meta_views(parameters@),
        decreases function.inputs.len() - i,
    {
        match &function.inputs[i] {
            FnArg::Typed(ty) => {
                match make_args(ty, metadata) {
                    Ok(parsed) => {
                        let ghost before = meta_views(parameters@);
                        copies.push(parsed.clone());
                        parameters.push(parsed);
                        assert(meta_views(parameters@) =~= before.push(parsed@));
                        assert(meta_views(copies@) =~= before.push(parsed@));
                    },
                    Err(complaint) => {
                        proof {
                            lemma_arguments_complaint(
                                function.inputs@,
                                definitions,
                                (i + 1) as nat,
                                function.inputs@.len(),
                            );
                        }
                        return Err(complaint);
                    },
                }
            },
            FnArg::Receiver => {
                proof {
                    lemma_arguments_complaint(
                        function.inputs@,
                        definitions,
                        (i + 1) as nat,
                        function.inputs@.len(),
                    );
                }
                return Err(String::from_str("not implemented"));
            },
        }
        i = i + 1;
    }
    let result = match make_ret(&function.output, metadata) {
        Ok(result) => result,
        Err(complaint) => {
            return Err(complaint);
        },
    };
    let non_blocking = match attribute {
        Some(path) => same(path, "non_blocking"),
        None => false,
    };
    let ghost before = metadata.symbols@;
    let recorded = Symbol { parameters: copies, result: result.clone(), non_blocking };
    metadata.symbols.push((function.ident.clone(), recorded));
    assert(metadata.symbols@.drop_last() =~= before);
    Ok(Symbol { parameters, result, non_blocking })
}

/// How the boundary hands a parameter to the native function.
#[derive(Clone, Copy, Debug, PartialEq, Eq, Structural)]
pub enum Passing {
    /// As it is.
    Value,
    /// As bytes that hold a struct or an enum in JSON.
    Json,
    /// As bytes that hold a text.
    Text,
    /// As bytes.
    Bytes,
    /// As the length of the bytes before it.
    Length,
}

/// A parameter of the function that the boundary calls.
#[derive(Debug)]
pub struct BoundaryParameter {
    pub name: String,
    pub passing: Passing,
}

/// The name of the boundary parameter at `position`.
pub open spec fn boundary_name(position: nat) -> Seq<char> {
    "arg"@ + decimal(position)
}

/// How a parameter of this type is passed, where it can be: numbers
/// as they are, and a struct or an enum, a text and a buffer as bytes,
/// each followed by their length.
pub open spec fn passing_of(ty: CType, is_struct: bool) -> Option<Passing> {
    if is_struct {
        Some(Passing::Json)
    } else {
        match ty {
            CType::Str => Some(Passing::Text),
            CType::Buffer => Some(Passing::Bytes),
            CType::Void | CType::BufferMut | CType::Ptr => None,
            _ => Some(Passing::Value),
        }
    }
}

/// How the first `n` parameters are passed, one after another, or
/// `None` where one of them cannot be passed.
pub open spec fn boundary_passings(
    types: Seq<(CType, Option<Seq<char>>)>,
    n: nat,
) -> Option<Seq<Passing>>
    decreases n,
{
    if n == 0 || n > types.len() {
        Some(Seq::empty())
    } else {
        match boundary_passings(types, (n - 1) as nat) {
            Some(before) => match passing_of(types[n - 1].0, types[n - 1].1 is Some) {
                Some(Passing::Value) => Some(before.push(Passing::Value)),
                Some(bytes) => Some(before.push(bytes).push(Passing::Length)),
                None => None,
            },
            None => None,
        }
    }
}

/// Once a parameter cannot be passed, looking at more parameters
/// changes nothing.
pub proof fn lemma_passings_fail(types: Seq<(CType, Option<Seq<char>>)>, i: nat, n: nat)
    requires
        i <= n <= types.len(),
        boundary_passings(types, i) is None,
    ensures
        boundary_passings(types, n) is None,
    decreases n,
{
    if i < n {
        lemma_passings_fail(types, i, (n - 1) as nat);
    }
}

/// The name of the boundary parameter at `position`.
pub fn boundary_parameter(position: usize, passing: Passing) -> (p: BoundaryParameter)
    ensures
        p.name@ == boundary_name(position as nat),
        p.passing == passing,
{
    BoundaryParameter {
        name: String::from_str("arg").concat(decimal_string(position).as_str()),
        passing,
    }
}

/// The parameters of the function that the boundary calls for a
/// native function with the parameters `parameters`: each is named
/// after its position, and what is passed as bytes is followed by its
/// length. `None` where a parameter cannot be passed.
pub fn boundary_parameters(parameters: &Vec<Type>) -> (r: Option<Vec<BoundaryParameter>>)
    ensures
        r is Some <==> boundary_passings(meta_views(parameters@), parameters.len() as nat) is Some,
        r matches Some(bound) ==> {
            let passings = boundary_passings(meta_views(parameters@), parameters.len() as nat)->0;
            &&& bound.len() == passings.len()
            &&& forall|k: int|
                0 <= k < bound.len() ==> (#[trigger] bound[k]).name@ == boundary_name(k as nat)
                    && bound[k].passing == passings[k]
        },
{
    let ghost views = meta_views(parameters@);
    let mut bound: Vec<BoundaryParameter> = Vec::new();
    let mut i: usize = 0;
    while i < parameters.len()
        invariant
            0 <= i <= parameters.len(),
            views == meta_views(parameters@),
            boundary_passings(views, i as nat) is Some,
            bound.len() == boundary_passings(views, i as nat)->0.len(),
            forall|k: int|
                0 <= k < bound.len() ==> (#[trigger] bound[k]).name@ == boundary_name(k as nat)
                    && bound[k].passing == boundary_passings(views, i as nat)->0[k],
        decreases parameters.len() - i,
    {
        assert(views[i as int] == parameters[i as int]@);
        let passing = match &parameters[i] {
            Type::StructEnum { .. } => Some(Passing::Json),
            Type::Str => Some(Passing::Text),
            Type::Buffer => Some(Passing::Bytes),
            Type::Void | Type::BufferMut | Type::Ptr => None,
            _ => Some(Passing::Value),
        };
        match passing {
            Some(Passing::Value) => {
                let position = bound.len();
                bound.push(boundary_parameter(position, Passing::Value));
            },
            Some(bytes) => {
                let position = bound.len();
                bound.push(boundary_parameter(position, bytes));
                let position = bound.len();
                bound.push(boundary_parameter(position, Passing::Length));
            },
            None => {
                proof {
                    lemma_passings_fail(views, (i + 1) as nat, parameters.len() as nat);
                }
                return None;
            },
        }
        i = i + 1;
    }
    Some(bound)
}

} // verus!
