//! The parts of a native declaration that extraction reads, as plain
//! data.
use vstd::prelude::*;
use vstd::string::*;

verus! {

/// A literal: a text, or anything else.
#[derive(Debug)]
pub enum Lit {
    Str(String),
    Other,
}

/// One item inside the parentheses of an attribute.
#[derive(Debug)]
pub enum Nested {
    /// `path = lit`; `path` is empty unless it is a single name.
    NameValue { path: String, lit: Lit },
    /// Anything else.
    Other,
}

/// What an attribute holds.
#[derive(Debug)]
pub enum Meta {
    /// A bare path: `#[path]`.
    Path,
    /// A list: `#[path(..)]`.
    List(Vec<Nested>),
    /// A value: `#[path = lit]`.
    NameValue(Lit),
}

/// An attribute of a declaration. `path` is empty unless the
/// attribute's path is a single name; `meta` is `None` where the
/// attribute cannot be read as one of the three forms.
#[derive(Debug)]
pub struct Attribute {
    pub path: String,
    pub meta: Option<Meta>,
}

/// A generic argument of a path segment.
#[derive(Debug)]
pub enum GenericArgument {
    Type(RustType),
    Lifetime,
    Other,
}

/// The arguments of a path segment.
#[derive(Debug)]
pub enum PathArguments {
    /// None at all.
    Absent,
    /// Between angle brackets.
    AngleBracketed(Vec<GenericArgument>),
    /// Between parentheses.
    Parenthesized,
}

/// One segment of a path: a name and its arguments.
#[derive(Debug)]
pub struct PathSegment {
    pub ident: String,
    pub arguments: PathArguments,
}

/// A type as it is written in a native declaration.
#[derive(Debug)]
pub enum RustType {
    /// A path of at least one segment, such as `u8` or
    /// `std::vec::Vec<T>`.
    Path(Vec<PathSegment>),
    /// A reference `&T` or `&mut T`; `lifetime` says whether it names
    /// a lifetime.
    Reference { mutable: bool, lifetime: bool, elem: Box<RustType> },
    /// A slice `[T]`.
    Slice(Box<RustType>),
    /// An array `[T; n]`.
    Array,
    /// A raw pointer.
    Ptr,
    /// Any other type.
    Other,
}

/// A field of a struct or of a variant.
#[derive(Debug)]
pub struct Field {
    /// The name of the field; `None` for a field by position.
    pub ident: Option<String>,
    pub attrs: Vec<Attribute>,
    pub ty: RustType,
}

/// A variant of an enum.
#[derive(Debug)]
pub struct Variant {
    pub ident: String,
    pub attrs: Vec<Attribute>,
    pub fields: Vec<Field>,
}

/// What a declaration of a type declares.
#[derive(Debug)]
pub enum Data {
    /// A struct with named fields.
    Struct(Vec<Field>),
    /// An enum.
    Enum(Vec<Variant>),
    /// Anything else.
    Other,
}

/// The declaration of a struct or of an enum.
#[derive(Debug)]
pub struct DeriveInput {
    pub ident: String,
    pub attrs: Vec<Attribute>,
    pub data: Data,
}

/// A parameter of a function.
#[derive(Debug)]
pub enum FnArg {
    /// The value itself: `self`, `&self` or `&mut self`.
    Receiver,
    /// Any other parameter, by its type.
    Typed(RustType),
}

/// The signature of a function.
#[derive(Debug)]
pub struct Signature {
    pub ident: String,
    /// Whether the function is `async`.
    pub asyncness: bool,
    pub inputs: Vec<FnArg>,
    /// The type of the result; `None` where none is written.
    pub output: Option<RustType>,
}

/// A method inside an `impl` block.
#[derive(Debug)]
pub struct ImplMethod {
    pub sig: Signature,
    /// The path of the first attribute of the method, empty unless it
    /// is a single name; `None` where the method has no attribute.
    pub first_attr: Option<String>,
}

/// An `impl` block.
#[derive(Debug)]
pub struct ItemImpl {
    /// Whether the block has generic parameters.
    pub generics: bool,
    /// Whether the block has a `where` clause.
    pub where_clause: bool,
    /// The type that the block is for.
    pub self_ty: RustType,
    pub methods: Vec<ImplMethod>,
}

/// The declaration of a struct, as far as binding it goes.
#[derive(Debug)]
pub struct ItemStruct {
    pub ident: String,
    /// Whether the struct has generic parameters.
    pub generics: bool,
    /// Whether the struct has a `where` clause.
    pub where_clause: bool,
}

impl RustType {
    /// The first name of the path by which the type is written, where
    /// it is written as a path.
    pub open spec fn first_name(&self) -> Option<Seq<char>> {
        match self {
            RustType::Path(segments) => if segments@.len() > 0 {
                Some(segments@[0].ident@)
            } else {
                None
            },
            _ => None,
        }
    }

    /// The first name of the path by which the type is written.
    pub fn first_ident(&self) -> (name: Option<&String>)
        ensures
            name is Some <==> self.first_name() is Some,
            name matches Some(n) ==> Some(n@) == self.first_name(),
    {
        match self {
            RustType::Path(segments) => {
                if segments.len() > 0 {
                    Some(&segments[0].ident)
                } else {
                    None
                }
            },
            _ => None,
        }
    }

    /// The name of the type where it is a single name without
    /// arguments.
    pub open spec fn single_name(&self) -> Option<Seq<char>> {
        match self {
            RustType::Path(segments) => if segments@.len() == 1 && segments@[0].arguments is Absent {
                Some(segments@[0].ident@)
            } else {
                None
            },
            _ => None,
        }
    }

    /// The name of the type where it is a single name without
    /// arguments.
    pub fn get_ident(&self) -> (name: Option<&String>)
        ensures
            name is Some <==> self.single_name() is Some,
            name matches Some(n) ==> Some(n@) == self.single_name(),
    {
        match self {
            RustType::Path(segments) => {
                if segments.len() == 1 {
                    match segments[0].arguments {
                        PathArguments::Absent => Some(&segments[0].ident),
                        _ => None,
                    }
                } else {
                    None
                }
            },
            _ => None,
        }
    }
}

} // verus!
