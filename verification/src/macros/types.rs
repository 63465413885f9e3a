//! From the types of native declarations to boundary types and to
//! managed types.
use vstd::prelude::*;
use vstd::string::*;
use crate::ir::{Type, TypeView};
use crate::macros::meta::{managed_type, rs_to_ts};
use crate::macros::syntax::{GenericArgument, PathArguments, RustType};
use crate::macros::util::Error;
use crate::text::{join, joined, push_text, same};

verus! {

/// The boundary type that a type name stands for: the number types
/// for their names, with machine-sized integers as 64-bit ones, and a
/// custom type for any other name.
pub open spec fn named_type(name: Seq<char>) -> TypeView {
    if name == "u8"@ {
        TypeView::Uint8
    } else if name == "u16"@ {
        TypeView::Uint16
    } else if name == "u32"@ {
        TypeView::Uint32
    } else if name == "u64"@ || name == "usize"@ {
        TypeView::Uint64
    } else if name == "i8"@ {
        TypeView::Int8
    } else if name == "i16"@ {
        TypeView::Int16
    } else if name == "i32"@ {
        TypeView::Int32
    } else if name == "i64"@ || name == "isize"@ {
        TypeView::Int64
    } else if name == "f32"@ {
        TypeView::Float32
    } else if name == "f64"@ {
        TypeView::Float64
    } else {
        TypeView::CustomType(name)
    }
}

/// How deeply types nest inside a written type.
pub open spec fn nesting(ty: RustType) -> nat
    decreases ty,
{
    match ty {
        RustType::Reference { elem, .. } => 1 + nesting(*elem),
        RustType::Slice(elem) => 1 + nesting(*elem),
        _ => 0,
    }
}

/// The boundary type of a written type, or `None` where bindings
/// cannot carry it. A single name is the type it names; a reference to
/// a slice of numbers is a buffer; a reference to a single name is
/// that custom type; a raw pointer is a pointer.
pub open spec fn parsed_type(ty: RustType) -> Option<TypeView>
    decreases ty,
{
    match ty {
        RustType::Path(_) => match ty.single_name() {
            Some(name) => Some(named_type(name)),
            None => None,
        },
        RustType::Reference { elem, .. } => match *elem {
            RustType::Slice(inner) => match parsed_type(*inner) {
                Some(element) => if element.is_number() {
                    Some(TypeView::Buffer)
                } else {
                    None
                },
                None => None,
            },
            RustType::Path(_) => match elem.single_name() {
                Some(name) => Some(TypeView::CustomType(name)),
                None => None,
            },
            _ => None,
        },
        RustType::Ptr => Some(TypeView::Pointer),
        _ => None,
    }
}

/// The custom type called `ty`.
pub fn custom_type(ty: &str) -> (t: Type)
    ensures
        t@ == TypeView::CustomType(ty@),
{
    Type::CustomType(String::from_str(ty))
}

fn type_named(name: &str) -> (t: Type)
    ensures
        t@ == named_type(name@),
{
    if same(name, "u8") {
        Type::Uint8
    } else if same(name, "u16") {
        Type::Uint16
    } else if same(name, "u32") {
        Type::Uint32
    } else if same(name, "u64") || same(name, "usize") {
        Type::Uint64
    } else if same(name, "i8") {
        Type::Int8
    } else if same(name, "i16") {
        Type::Int16
    } else if same(name, "i32") {
        Type::Int32
    } else if same(name, "i64") || same(name, "isize") {
        Type::Int64
    } else if same(name, "f32") {
        Type::Float32
    } else if same(name, "f64") {
        Type::Float64
    } else {
        custom_type(name)
    }
}

/// The boundary type of a written type. Fails with
/// [`Error::UnsupportedType`] exactly where bindings cannot carry it.
pub fn parse_type(ty: &RustType) -> (r: Result<Type, Error>)
    ensures
        r is Ok <==> parsed_type(*ty) is Some,
        r matches Ok(t) ==> Some(t@) == parsed_type(*ty),
        r matches Err(e) ==> e is UnsupportedType,
    decreases nesting(*ty),
{
    proof {
        reveal_with_fuel(nesting, 3);
    }
    match ty {
        RustType::Path(_) => {
            match ty.get_ident() {
                Some(name) => Ok(type_named(name.as_str())),
                None => Err(Error::UnsupportedType),
            }
        },
        RustType::Reference { elem, .. } => {
            match &**elem {
                RustType::Slice(inner) => {
                    match parse_type(inner) {
                        Ok(element) => {
                            if element.is_number() {
                                Ok(Type::Buffer)
                            } else {
                                Err(Error::UnsupportedType)
                            }
                        },
                        Err(e) => Err(e),
                    }
                },
                RustType::Path(_) => {
                    match elem.get_ident() {
                        Some(name) => Ok(custom_type(name.as_str())),
                        None => Err(Error::UnsupportedType),
                    }
                },
                _ => Err(Error::UnsupportedType),
            }
        },
        RustType::Ptr => Ok(Type::Pointer),
        _ => Err(Error::UnsupportedType),
    }
}

/// The managed type of a written type, or `None` where it has none.
/// An array or a raw pointer is `any`; a reference is what it refers
/// to; a path goes by its last segment: an `Option` is its argument or
/// nothing, a name with type arguments is the managed name with the
/// managed arguments between angle brackets, and a bare name is its
/// managed name.
pub open spec fn managed_text(ty: RustType) -> Option<Seq<char>>
    decreases ty, 0nat,
{
    match ty {
        RustType::Array | RustType::Ptr => Some("any"@),
        RustType::Reference { elem, .. } => managed_text(*elem),
        RustType::Path(segments) => if segments@.len() == 0 {
            None
        } else {
            let last = segments@[segments@.len() - 1];
            match (match last.arguments {
                PathArguments::Absent => Some(Seq::empty()),
                PathArguments::AngleBracketed(arguments) => argument_texts(
                    arguments@,
                    arguments@.len(),
                ),
                PathArguments::Parenthesized => None,
            }) {
                Some(arguments) => named_text(last.ident@, arguments),
                None => None,
            }
        },
        _ => None,
    }
}

/// The managed types of the first `n` generic arguments. Lifetimes
/// are left out; there is no result where an argument is neither a
/// type nor a lifetime, or is a type without a managed type.
pub open spec fn argument_texts(arguments: Seq<GenericArgument>, n: nat) -> Option<Seq<Seq<char>>>
    decreases arguments, n,
{
    if n == 0 || n > arguments.len() {
        Some(Seq::empty())
    } else {
        match argument_texts(arguments, (n - 1) as nat) {
            Some(before) => match arguments[n - 1] {
                GenericArgument::Type(ty) => match managed_text(ty) {
                    Some(text) => Some(before.push(text)),
                    None => None,
                },
                GenericArgument::Lifetime => Some(before),
                GenericArgument::Other => None,
            },
            None => None,
        }
    }
}

/// The arguments of a generic type, each by its managed name.
pub open spec fn managed_arguments(arguments: Seq<Seq<char>>) -> Seq<Seq<char>> {
    Seq::new(arguments.len(), |i: int| managed_type(arguments[i]))
}

/// The managed type of the name `name` with the managed `arguments`.
/// An `Option` needs an argument.
pub open spec fn named_text(name: Seq<char>, arguments: Seq<Seq<char>>) -> Option<Seq<char>> {
    if name == "Option"@ {
        if arguments.len() > 0 {
            Some(managed_type(arguments[0]) + " | undefined | null"@)
        } else {
            None
        }
    } else if arguments.len() > 0 {
        Some(managed_type(name) + "<"@ + joined(managed_arguments(arguments), ", "@) + ">"@)
    } else {
        Some(managed_type(name))
    }
}

/// The managed type of the name `name` with the managed `arguments`.
pub fn name_to_ts(name: &str, arguments: &Vec<String>) -> (r: Result<String, Error>)
    ensures
        r is Ok <==> named_text(name@, arguments.deep_view()) is Some,
        r matches Ok(s) ==> Some(s@) == named_text(name@, arguments.deep_view()),
        r matches Err(e) ==> e is UnsupportedType,
{
    let ghost views = arguments.deep_view();
    if same(name, "Option") {
        if arguments.len() > 0 {
            assert(views[0] == arguments[0]@);
            let mut out = rs_to_ts(arguments[0].as_str());
            out.append(" | undefined | null");
            Ok(out)
        } else {
            Err(Error::UnsupportedType)
        }
    } else if arguments.len() > 0 {
        let mut managed: Vec<String> = Vec::new();
        let mut i: usize = 0;
        assert(managed.deep_view() =~= managed_arguments(views).take(0));
        while i < arguments.len()
            invariant
                0 <= i <= arguments.len(),
                views == arguments.deep_view(),
                managed.deep_view() == managed_arguments(views).take(i as int),
            decreases arguments.len() - i,
        {
            assert(views[i as int] == arguments[i as int]@);
            push_text(&mut managed, rs_to_ts(arguments[i].as_str()));
            assert(managed.deep_view() =~= managed_arguments(views).take(i + 1));
            i = i + 1;
        }
        assert(managed_arguments(views).take(arguments.len() as int) =~= managed_arguments(views));
        let mut out = rs_to_ts(name);
        out.append("<");
        out.append(join(&managed, ", ").as_str());
        out.append(">");
        Ok(out)
    } else {
        Ok(rs_to_ts(name))
    }
}

/// The managed type of a written type. Fails with
/// [`Error::UnsupportedType`] exactly where it has none.
pub fn types_to_ts(ty: &RustType) -> (r: Result<String, Error>)
    ensures
        r is Ok <==> managed_text(*ty) is Some,
        r matches Ok(s) ==> Some(s@) == managed_text(*ty),
        r matches Err(e) ==> e is UnsupportedType,
    decreases ty,
{
    match ty {
        RustType::Array | RustType::Ptr => Ok(String::from_str("any")),
        RustType::Reference { elem, .. } => types_to_ts(elem),
        RustType::Path(segments) => {
            if segments.len() == 0 {
                return Err(Error::UnsupportedType);
            }
            let last = &segments[segments.len() - 1];
            let mut generics: Vec<String> = Vec::new();
            match &last.arguments {
                PathArguments::Absent => {
                    assert(generics.deep_view() =~= Seq::<Seq<char>>::empty());
                },
                PathArguments::AngleBracketed(arguments) => {
                    let mut i: usize = 0;
                    assert(Some(generics.deep_view()) =~= argument_texts(arguments@, 0));
                    while i < arguments.len()
                        invariant
                            0 <= i <= arguments.len(),
                            segments@.len() > 0,
                            *ty == RustType::Path(*segments),
                            *last == segments@[segments@.len() - 1],
                            last.arguments == PathArguments::AngleBracketed(*arguments),
                            Some(generics.deep_view()) == argument_texts(arguments@, i as nat),
                        decreases arguments.len() - i,
                    {
                        match &arguments[i] {
                            GenericArgument::Type(inner) => {
                                match types_to_ts(inner) {
                                    Ok(text) => {
                                        push_text(&mut generics, text);
                                    },
                                    Err(e) => {
                                        proof {
                                            lemma_arguments_fail(
                                                arguments@,
                                                (i + 1) as nat,
                                                arguments@.len(),
                                            );
                                        }
                                        return Err(e);
                                    },
                                }
                            },
                            GenericArgument::Lifetime => {},
                            GenericArgument::Other => {
                                proof {
                                    lemma_arguments_fail(
                                        arguments@,
                                        (i + 1) as nat,
                                        arguments@.len(),
                                    );
                                }
                                return Err(Error::UnsupportedType);
                            },
                        }
                        i = i + 1;
                    }
                },
                PathArguments::Parenthesized => {
                    return Err(Error::UnsupportedType);
                },
            }
            name_to_ts(last.ident.as_str(), &generics)
        },
        _ => Err(Error::UnsupportedType),
    }
}

/// Once an argument is found without a managed type, looking at more
/// arguments changes nothing.
pub proof fn lemma_arguments_fail(arguments: Seq<GenericArgument>, i: nat, n: nat)
    requires
        i <= n <= arguments.len(),
        argument_texts(arguments, i) is None,
    ensures
        argument_texts(arguments, n) is None,
    decreases n,
{
    if i < n {
        lemma_arguments_fail(arguments, i, (n - 1) as nat);
    }
}

} // verus!
