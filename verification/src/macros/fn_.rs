//! Binding a native function: the symbol it becomes and the raw
//! parameters of the function that the boundary calls.
use vstd::prelude::*;
use vstd::string::*;
use crate::ir::{type_views, Symbol, SymbolBuilder, SymbolView, Type, TypeView};
use crate::macros::syntax::{FnArg, Signature};
use crate::macros::types::{parse_type, parsed_type};
use crate::macros::util::Error;
use crate::text::{decimal, decimal_string, same};

verus! {

/// What the attribute of a bound function asks for.
#[derive(Clone, Copy, Debug, PartialEq, Eq, Structural)]
pub struct FnAttributes {
    pub non_blocking: bool,
    pub constructor: bool,
    pub internal: bool,
}

impl Default for FnAttributes {
    fn default() -> (attrs: FnAttributes)
        ensures
            !attrs.non_blocking,
            !attrs.constructor,
            !attrs.internal,
    {
        FnAttributes { non_blocking: false, constructor: false, internal: false }
    }
}

impl FnAttributes {
    /// Takes one argument of the attribute into account:
    /// `non_blocking` is the only one there is.
    pub fn parse(&mut self, path: &str) -> (r: Result<(), Error>)
        ensures
            r is Ok <==> path@ == "non_blocking"@,
            r is Ok ==> *final(self) == (FnAttributes { non_blocking: true, ..*old(self) }),
            r matches Err(e) ==> e is UnsupportedAttribute && *final(self) == *old(self),
    {
        if same(path, "non_blocking") {
            self.non_blocking = true;
            Ok(())
        } else {
            Err(Error::UnsupportedAttribute)
        }
    }
}

/// A parameter of the function that the boundary calls.
#[derive(Debug)]
pub enum FfiInput {
    /// The parameter at this position of the native function, kept as
    /// it is.
    Kept(usize),
    /// A raw parameter under a name of its own.
    Raw { name: String, ty: Type },
}

/// The mathematical value of an [`FfiInput`]. A raw parameter goes by
/// its position among all parameters.
pub ghost enum FfiInputView {
    Kept(nat),
    Raw { position: nat, ty: TypeView },
}

/// The name of the raw parameter at `position`.
pub open spec fn raw_name(position: nat) -> Seq<char> {
    "__arg_"@ + decimal(position)
}

impl FfiInput {
    /// Whether this parameter has the given value.
    pub open spec fn is_view(&self, view: FfiInputView) -> bool {
        match (self, view) {
            (FfiInput::Kept(index), FfiInputView::Kept(position)) => *index == position,
            (FfiInput::Raw { name, ty }, FfiInputView::Raw { position, ty: raw }) => name@
                == raw_name(position) && ty@ == raw,
            _ => false,
        }
    }
}

/// The boundary types of the first `n` parameters, or the reason why
/// there are none: a receiver, or a type that bindings cannot carry.
pub open spec fn parsed_inputs(inputs: Seq<FnArg>, n: nat) -> Result<Seq<TypeView>, Error>
    decreases n,
{
    if n == 0 || n > inputs.len() {
        Ok(Seq::empty())
    } else {
        match parsed_inputs(inputs, (n - 1) as nat) {
            Ok(types) => match inputs[n - 1] {
                FnArg::Receiver => Err(Error::Reciever),
                FnArg::Typed(ty) => match parsed_type(ty) {
                    Some(parsed) => Ok(types.push(parsed)),
                    None => Err(Error::UnsupportedType),
                },
            },
            Err(e) => Err(e),
        }
    }
}

/// The parameters of the function that the boundary calls, for the
/// first `n` parameters of the native function: a parameter that
/// passes as itself is kept; any other is replaced by its raw parts,
/// each named after its position among all parameters.
pub open spec fn ffi_inputs(types: Seq<TypeView>, n: nat) -> Seq<FfiInputView>
    decreases n,
{
    if n == 0 || n > types.len() {
        Seq::empty()
    } else {
        let before = ffi_inputs(types, (n - 1) as nat);
        let raw = types[n - 1].raw();
        if raw.len() == 0 {
            before.push(FfiInputView::Kept((n - 1) as nat))
        } else {
            before + Seq::new(
                raw.len(),
                |k: int| FfiInputView::Raw { position: (before.len() + k) as nat, ty: raw[k] },
            )
        }
    }
}

/// Whether a function has a receiver among its parameters.
pub open spec fn has_receiver(inputs: Seq<FnArg>) -> bool {
    exists|i: int| 0 <= i < inputs.len() && #[trigger] inputs[i] is Receiver
}

/// The symbol that a function with this signature becomes, or the
/// reason why it cannot be bound: it is `async`, it takes a receiver,
/// or a type of it cannot be carried.
pub open spec fn symbol_of(sig: Signature, attrs: FnAttributes) -> Result<SymbolView, Error> {
    if sig.asyncness {
        Err(Error::Asyncness)
    } else if has_receiver(sig.inputs@) {
        Err(Error::Reciever)
    } else {
        match parsed_inputs(sig.inputs@, sig.inputs@.len()) {
            Err(e) => Err(e),
            Ok(parameters) => match sig.output {
                None => Ok(
                    SymbolView {
                        name: sig.ident@,
                        parameters,
                        return_type: TypeView::Void,
                        non_blocking: attrs.non_blocking,
                        internal: attrs.internal,
                        is_constructor: attrs.constructor,
                    },
                ),
                Some(output) => match parsed_type(output) {
                    None => Err(Error::UnsupportedType),
                    Some(return_type) => Ok(
                        SymbolView {
                            name: sig.ident@,
                            parameters,
                            return_type,
                            non_blocking: attrs.non_blocking,
                            internal: attrs.internal,
                            is_constructor: attrs.constructor,
                        },
                    ),
                },
            },
        }
    }
}

/// Once a parameter fails, looking at more parameters changes nothing.
pub proof fn lemma_inputs_fail(inputs: Seq<FnArg>, i: nat, n: nat)
    requires
        i <= n <= inputs.len(),
        parsed_inputs(inputs, i) is Err,
    ensures
        parsed_inputs(inputs, n) == parsed_inputs(inputs, i),
    decreases n,
{
    if i < n {
        lemma_inputs_fail(inputs, i, (n - 1) as nat);
    }
}

/// The name of the raw parameter at `position`.
pub fn raw_parameter(position: usize) -> (s: String)
    ensures
        s@ == raw_name(position as nat),
{
    String::from_str("__arg_").concat(decimal_string(position).as_str())
}

/// Whether a function has a receiver among its parameters.
pub fn receiver(inputs: &Vec<FnArg>) -> (r: bool)
    ensures
        r == has_receiver(inputs@),
{
    let mut i: usize = 0;
    while i < inputs.len()
        invariant
            0 <= i <= inputs.len(),
            forall|k: int| 0 <= k < i ==> !(#[trigger] inputs[k] is Receiver),
        decreases inputs.len() - i,
    {
        match &inputs[i] {
            FnArg::Receiver => {
                return true;
            },
            FnArg::Typed(_) => {},
        }
        i = i + 1;
    }
    false
}

/// The parameters of the function that the boundary calls, given the
/// boundary types of the native function's parameters.
pub fn plan_inputs(types: &Vec<Type>) -> (inputs: Vec<FfiInput>)
    ensures
        inputs.len() == ffi_inputs(type_views(types@), types.len() as nat).len(),
        forall|k: int|
            0 <= k < inputs.len() ==> (#[trigger] inputs[k]).is_view(
                ffi_inputs(type_views(types@), types.len() as nat)[k],
            ),
{
    let ghost views = type_views(types@);
    let mut inputs: Vec<FfiInput> = Vec::new();
    let mut i: usize = 0;
    while i < types.len()
        invariant
            0 <= i <= types.len(),
            views == type_views(types@),
            inputs.len() == ffi_inputs(views, i as nat).len(),
            forall|k: int|
                0 <= k < inputs.len() ==> (#[trigger] inputs[k]).is_view(ffi_inputs(views, i as nat)[k]),
        decreases types.len() - i,
    {
        let ghost before = ffi_inputs(views, i as nat);
        assert(views[i as int] == types[i as int]@);
        let raw = types[i].raw();
        let ghost parts = types[i as int]@.raw();
        assert(type_views(raw@).len() == raw.len());
        if raw.len() == 0 {
            inputs.push(FfiInput::Kept(i));
        } else {
            let ghost start = inputs.len();
            let mut k: usize = 0;
            for ty in iter: raw
                invariant
                    k == iter.index(),
                    iter.seq().len() == parts.len(),
                    parts.len() <= 2,
                    forall|j: int| 0 <= j < parts.len() ==> (#[trigger] iter.seq()[j])@ == parts[j],
                    start == before.len(),
                    inputs.len() == start + k,
                    forall|j: int| 0 <= j < start ==> (#[trigger] inputs[j]).is_view(before[j]),
                    forall|j: int|
                        0 <= j < k ==> (#[trigger] inputs[start + j]).is_view(
                            (FfiInputView::Raw { position: (start + j) as nat, ty: parts[j] }),
                        ),
            {
                let position = inputs.len();
                inputs.push(FfiInput::Raw { name: raw_parameter(position), ty });
                k = k + 1;
            }
        }
        i = i + 1;
    }
    inputs
}

/// The boundary types of the parameters from position `first` on.
/// Fails with the reason why there are none: a receiver, or a type
/// that bindings cannot carry.
pub fn parse_inputs(inputs: &Vec<FnArg>, first: usize) -> (r: Result<Vec<Type>, Error>)
    requires
        first <= inputs.len(),
    ensures
        match r {
            Ok(types) => parsed_inputs(
                inputs@.skip(first as int),
                (inputs.len() - first) as nat,
            ) == Ok::<Seq<TypeView>, Error>(type_views(types@)),
            Err(e) => parsed_inputs(inputs@.skip(first as int), (inputs.len() - first) as nat)
                == Err::<Seq<TypeView>, Error>(e),
        },
{
    let ghost rest = inputs@.skip(first as int);
    let count = inputs.len() - first;
    let mut types: Vec<Type> = Vec::new();
    let mut i: usize = 0;
    assert(type_views(types@) =~= Seq::<TypeView>::empty());
    while i < count
        invariant
            0 <= i <= count,
            first <= inputs.len(),
            count == inputs.len() - first,
            rest == inputs@.skip(first as int),
            parsed_inputs(rest, i as nat) == Ok::<Seq<TypeView>, Error>(type_views(types@)),
        decreases count - i,
    {
        assert(rest[i as int] == inputs[first + i]);
        match &inputs[first + i] {
            FnArg::Receiver => {
                proof {
                    lemma_inputs_fail(rest, (i + 1) as nat, count as nat);
                }
                return Err(Error::Reciever);
            },
            FnArg::Typed(ty) => {
                match parse_type(ty) {
                    Ok(parsed) => {
                        let ghost before = type_views(types@);
                        types.push(parsed);
                        assert(type_views(types@) =~= before.push(parsed@));
                    },
                    Err(e) => {
                        proof {
                            lemma_inputs_fail(rest, (i + 1) as nat, count as nat);
                        }
                        return Err(e);
                    },
                }
            },
        }
        i = i + 1;
    }
    Ok(types)
}

/// The symbol called `name` with the given parameters and result.
pub fn build_symbol(
    name: &str,
    parameters: &Vec<Type>,
    return_type: Type,
    attrs: FnAttributes,
) -> (symbol: SymbolBuilder)
    ensures
        symbol@ == (SymbolView {
            name: name@,
            parameters: type_views(parameters@),
            return_type: return_type@,
            non_blocking: attrs.non_blocking,
            internal: attrs.internal,
            is_constructor: attrs.constructor,
        }),
{
    let mut symbol = SymbolBuilder::new(name);
    symbol.non_blocking(attrs.non_blocking);
    symbol.internal(attrs.internal);
    symbol.is_constructor(attrs.constructor);
    let mut i: usize = 0;
    assert(type_views(parameters@).take(0) =~= Seq::<TypeView>::empty());
    while i < parameters.len()
        invariant
            0 <= i <= parameters.len(),
            symbol@ == (SymbolView {
                name: name@,
                parameters: type_views(parameters@).take(i as int),
                return_type: TypeView::Void,
                non_blocking: attrs.non_blocking,
                internal: attrs.internal,
                is_constructor: attrs.constructor,
            }),
        decreases parameters.len() - i,
    {
        symbol.push(parameters[i].clone());
        assert(type_views(parameters@).take(i + 1) =~= type_views(parameters@).take(i as int).push(
            parameters[i as int]@,
        ));
        i = i + 1;
    }
    assert(type_views(parameters@).take(parameters.len() as int) =~= type_views(parameters@));
    symbol.return_type(return_type);
    symbol
}

/// The symbol that a function with this signature becomes, with the
/// parameters of the function that the boundary calls. Fails where
/// the function is `async`, takes a receiver, or has a type that
/// bindings cannot carry.
pub fn handle_inner(
    sig: &Signature,
    attrs: FnAttributes,
) -> (r: Result<(Vec<FfiInput>, SymbolBuilder), Error>)
    ensures
        match r {
            Ok((inputs, symbol)) => symbol_of(*sig, attrs) == Ok::<SymbolView, Error>(symbol@)
                && inputs.len() == ffi_inputs(symbol@.parameters, symbol@.parameters.len()).len()
                && forall|k: int|
                0 <= k < inputs.len() ==> (#[trigger] inputs[k]).is_view(
                    ffi_inputs(symbol@.parameters, symbol@.parameters.len())[k],
                ),
            Err(e) => symbol_of(*sig, attrs) == Err::<SymbolView, Error>(e),
        },
{
    if sig.asyncness {
        return Err(Error::Asyncness);
    }
    if receiver(&sig.inputs) {
        return Err(Error::Reciever);
    }
    assert(sig.inputs@.skip(0) =~= sig.inputs@);
    let types = match parse_inputs(&sig.inputs, 0) {
        Ok(types) => types,
        Err(e) => {
            return Err(e);
        },
    };
    let return_type = match &sig.output {
        None => Type::Void,
        Some(output) => {
            match parse_type(output) {
                Ok(parsed) => parsed,
                Err(e) => {
                    return Err(e);
                },
            }
        },
    };
    let symbol = build_symbol(sig.ident.as_str(), &types, return_type, attrs);
    let inputs = plan_inputs(&types);
    Ok((inputs, symbol))
}

/// The symbol that a function with this signature becomes.
pub fn handle(sig: &Signature, attrs: FnAttributes) -> (r: Result<Symbol, Error>)
    ensures
        match r {
            Ok(symbol) => symbol_of(*sig, attrs) == Ok::<SymbolView, Error>(symbol@),
            Err(e) => symbol_of(*sig, attrs) == Err::<SymbolView, Error>(e),
        },
{
    match handle_inner(sig, attrs) {
        Ok((_, symbol)) => Ok(symbol.build()),
        Err(e) => Err(e),
    }
}

} // verus!
