//! The inventory of native symbols that bindings are generated from.
use vstd::prelude::*;
use vstd::string::*;

pub mod codegen;
pub mod inventory;

verus! {

/// The type of a parameter or of a result of a native symbol.
#[derive(Debug)]
pub enum Type {
    Void,
    Uint8,
    Uint16,
    Uint32,
    Uint64,
    Int8,
    Int16,
    Int32,
    Int64,
    Float32,
    Float64,
    Pointer,
    Buffer,
    /// A type of the native library itself, by its name; it crosses
    /// the boundary as a pointer.
    CustomType(String),
}

/// The mathematical value of a [`Type`].
pub ghost enum TypeView {
    Void,
    Uint8,
    Uint16,
    Uint32,
    Uint64,
    Int8,
    Int16,
    Int32,
    Int64,
    Float32,
    Float64,
    Pointer,
    Buffer,
    CustomType(Seq<char>),
}

impl View for Type {
    type V = TypeView;

    open spec fn view(&self) -> TypeView {
        match self {
            Type::Void => TypeView::Void,
            Type::Uint8 => TypeView::Uint8,
            Type::Uint16 => TypeView::Uint16,
            Type::Uint32 => TypeView::Uint32,
            Type::Uint64 => TypeView::Uint64,
            Type::Int8 => TypeView::Int8,
            Type::Int16 => TypeView::Int16,
            Type::Int32 => TypeView::Int32,
            Type::Int64 => TypeView::Int64,
            Type::Float32 => TypeView::Float32,
            Type::Float64 => TypeView::Float64,
            Type::Pointer => TypeView::Pointer,
            Type::Buffer => TypeView::Buffer,
            Type::CustomType(name) => TypeView::CustomType(name@),
        }
    }
}

/// Types in a list, each by its value.
pub open spec fn type_views(types: Seq<Type>) -> Seq<TypeView> {
    Seq::new(types.len(), |i: int| types[i]@)
}

impl TypeView {
    /// The raw types that a value of this type is passed as: a buffer
    /// as a pointer and a length, a pointer or a custom type as a
    /// pointer, and anything else as itself, for which the list is
    /// empty.
    pub open spec fn raw(self) -> Seq<TypeView> {
        match self {
            TypeView::Buffer => seq![TypeView::Pointer, TypeView::Uint32],
            TypeView::Pointer | TypeView::CustomType(_) => seq![TypeView::Pointer],
            _ => Seq::empty(),
        }
    }

    /// Whether the type is a number: an integer or a float.
    pub open spec fn is_number(self) -> bool {
        !(self is Void || self is Pointer || self is Buffer || self is CustomType)
    }
}

impl Default for Type {
    fn default() -> (t: Type)
        ensures
            t is Void,
    {
        Type::Void
    }
}

impl Clone for Type {
    fn clone(&self) -> (t: Type)
        ensures
            t@ == self@,
    {
        match self {
            Type::Void => Type::Void,
            Type::Uint8 => Type::Uint8,
            Type::Uint16 => Type::Uint16,
            Type::Uint32 => Type::Uint32,
            Type::Uint64 => Type::Uint64,
            Type::Int8 => Type::Int8,
            Type::Int16 => Type::Int16,
            Type::Int32 => Type::Int32,
            Type::Int64 => Type::Int64,
            Type::Float32 => Type::Float32,
            Type::Float64 => Type::Float64,
            Type::Pointer => Type::Pointer,
            Type::Buffer => Type::Buffer,
            Type::CustomType(name) => Type::CustomType(name.clone()),
        }
    }
}

impl Type {
    /// The raw types that a value of this type is passed as.
    pub fn raw(&self) -> (raw: Vec<Type>)
        ensures
            type_views(raw@) == self@.raw(),
    {
        let mut raw: Vec<Type> = Vec::new();
        match self {
            Type::Buffer => {
                raw.push(Type::Pointer);
                raw.push(Type::Uint32);
            },
            Type::Pointer | Type::CustomType(_) => {
                raw.push(Type::Pointer);
            },
            _ => {},
        }
        assert(type_views(raw@) =~= self@.raw());
        raw
    }

    /// Whether the type is a number: an integer or a float.
    pub fn is_number(&self) -> (number: bool)
        ensures
            number == self@.is_number(),
    {
        !matches!(self, Type::Void | Type::Pointer | Type::Buffer | Type::CustomType(_))
    }
}

/// A native symbol: a function of the native library.
#[derive(Debug)]
pub struct Symbol {
    pub name: String,
    pub parameters: Vec<Type>,
    pub return_type: Type,
    pub non_blocking: bool,
    pub internal: bool,
    pub is_constructor: bool,
}

/// The mathematical value of a [`Symbol`].
pub ghost struct SymbolView {
    pub name: Seq<char>,
    pub parameters: Seq<TypeView>,
    pub return_type: TypeView,
    pub non_blocking: bool,
    pub internal: bool,
    pub is_constructor: bool,
}

impl View for Symbol {
    type V = SymbolView;

    open spec fn view(&self) -> SymbolView {
        SymbolView {
            name: self.name@,
            parameters: type_views(self.parameters@),
            return_type: self.return_type@,
            non_blocking: self.non_blocking,
            internal: self.internal,
            is_constructor: self.is_constructor,
        }
    }
}

/// Builds a [`Symbol`] piece by piece.
#[derive(Debug)]
pub struct SymbolBuilder {
    name: String,
    parameters: Vec<Type>,
    return_type: Type,
    non_blocking: bool,
    internal: bool,
    is_constructor: bool,
}

impl View for SymbolBuilder {
    type V = SymbolView;

    closed spec fn view(&self) -> SymbolView {
        SymbolView {
            name: self.name@,
            parameters: type_views(self.parameters@),
            return_type: self.return_type@,
            non_blocking: self.non_blocking,
            internal: self.internal,
            is_constructor: self.is_constructor,
        }
    }
}

impl SymbolBuilder {
    /// A builder for a symbol called `name`: no parameters, no result,
    /// blocking, exported, and no constructor.
    pub fn new(name: &str) -> (b: Self)
        ensures
            b@ == (SymbolView {
                name: name@,
                parameters: Seq::empty(),
                return_type: TypeView::Void,
                non_blocking: false,
                internal: false,
                is_constructor: false,
            }),
    {
        let b = Self {
            name: String::from_str(name),
            parameters: Vec::new(),
            return_type: Type::Void,
            non_blocking: false,
            internal: false,
            is_constructor: false,
        };
        assert(b@.parameters =~= Seq::empty());
        b
    }

    /// Renames the symbol.
    pub fn set_name(&mut self, name: &str)
        ensures
            final(self)@ == (SymbolView { name: name@, ..old(self)@ }),
    {
        self.name = String::from_str(name);
    }

    /// Adds a parameter after those already there.
    pub fn push(&mut self, ty: Type)
        ensures
            final(self)@ == (SymbolView { parameters: old(self)@.parameters.push(ty@), ..old(self)@ }),
    {
        let ghost before = self@.parameters;
        self.parameters.push(ty);
        assert(self@.parameters =~= before.push(ty@));
    }

    /// Sets the type of the result.
    pub fn return_type(&mut self, ty: Type)
        ensures
            final(self)@ == (SymbolView { return_type: ty@, ..old(self)@ }),
    {
        self.return_type = ty;
    }

    /// Sets whether calls of the symbol do not block.
    pub fn non_blocking(&mut self, non_blocking: bool)
        ensures
            final(self)@ == (SymbolView { non_blocking, ..old(self)@ }),
    {
        self.non_blocking = non_blocking;
    }

    /// Sets whether the symbol stays hidden from importers.
    pub fn internal(&mut self, internal: bool)
        ensures
            final(self)@ == (SymbolView { internal, ..old(self)@ }),
    {
        self.internal = internal;
    }

    /// Sets whether the symbol constructs a value of a custom type.
    pub fn is_constructor(&mut self, is_constructor: bool)
        ensures
            final(self)@ == (SymbolView { is_constructor, ..old(self)@ }),
    {
        self.is_constructor = is_constructor;
    }

    /// The symbol as built.
    pub fn build(self) -> (symbol: Symbol)
        ensures
            symbol@ == self@,
    {
        Symbol {
            name: self.name,
            parameters: self.parameters,
            return_type: self.return_type,
            non_blocking: self.non_blocking,
            internal: self.internal,
            is_constructor: self.is_constructor,
        }
    }
}

} // verus!
