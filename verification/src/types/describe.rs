//! From a type definition to its descriptor.
use vstd::prelude::*;
use vstd::string::*;
use crate::error::Error;
use crate::inflect::{pascal_case, to_pascal_case};
use crate::ordered::lemma_distinct_no_duplicates;
use crate::types::buffer::{buffer_describable, buffer_descriptor};
use crate::types::composite::{
    compose, composite_converter, declaration_text, descriptor_views, field_helpers,
    from_function_text, into_function_text, shape_text,
};
use crate::types::cstring::{cstring_descriptor, CString};
use crate::types::layout::lemma_max_depth;
use crate::types::pointer::{pointer_descriptor, Pointer};
use crate::types::primitive::primitive_descriptor;
use crate::types::structure::Struct;
use crate::types::tuple::Tuple;
use crate::types::{DescriptorModel, NativeType, TypeDefinition, TypeDescriptor, TypeModel};

verus! {

/// Whether each of the first `n` of `fields` can be described.
pub open spec fn all_describable(fields: Seq<TypeModel>, n: nat) -> bool
    decreases fields, n,
{
    if n == 0 || n > fields.len() {
        true
    } else {
        all_describable(fields, (n - 1) as nat) && fields[n - 1].describable()
    }
}

/// The descriptors of the first `n` of `fields`, in order.
pub open spec fn field_descriptors(fields: Seq<TypeModel>, n: nat) -> Seq<DescriptorModel>
    decreases fields, n,
{
    if n == 0 || n > fields.len() {
        Seq::empty()
    } else {
        field_descriptors(fields, (n - 1) as nat).push(fields[n - 1].descriptor())
    }
}

/// The managed type of a composite, given its fields' descriptors: the
/// identifier in PascalCase if it has one, else its literal shape.
pub open spec fn managed_name(m: TypeModel, fields: Seq<DescriptorModel>) -> Seq<char> {
    match m.composite().identifier {
        Some(identifier) => pascal_case(identifier),
        None => shape_text(m, fields),
    }
}

impl TypeModel {
    /// Whether the type has a descriptor: every buffer in it fits the
    /// address range, and the helper routines of every composite in it
    /// can be written.
    pub open spec fn describable(self) -> bool
        decreases self, 0nat,
    {
        match self {
            TypeModel::Pointer(target) => target.describable(),
            TypeModel::Buffer(ty, length) => buffer_describable(ty, length),
            TypeModel::Struct(c) | TypeModel::Tuple(c) => all_describable(c.fields, c.fields.len())
                && self.composable(),
            _ => true,
        }
    }

    /// The descriptor of the type. Everything but a primitive is a
    /// pointer at the boundary.
    pub open spec fn descriptor(self) -> DescriptorModel
        decreases self, 0nat,
    {
        match self {
            TypeModel::Primitive(native) => primitive_descriptor(native),
            TypeModel::Pointer(target) => pointer_descriptor(*target, target.descriptor()),
            TypeModel::Buffer(ty, length) => buffer_descriptor(ty, length),
            TypeModel::CString => cstring_descriptor(),
            TypeModel::Struct(c) | TypeModel::Tuple(c) => {
                let fields = field_descriptors(c.fields, c.fields.len());
                DescriptorModel {
                    native: NativeType::Pointer,
                    converter: composite_converter(self, fields, managed_name(self, fields)),
                }
            },
        }
    }
}

/// Where the first `n` fields can all be described, each of them can.
pub proof fn lemma_all_describable(fields: Seq<TypeModel>, n: nat, i: nat)
    requires
        i < n <= fields.len(),
        all_describable(fields, n),
    ensures
        fields[i as int].describable(),
    decreases n,
{
    if i + 1 < n {
        lemma_all_describable(fields, (n - 1) as nat, i);
    }
}

/// The descriptors of fields are as many as the fields, and each is
/// the descriptor of its field.
pub proof fn lemma_field_descriptors(fields: Seq<TypeModel>, n: nat)
    requires
        n <= fields.len(),
    ensures
        field_descriptors(fields, n).len() == n,
        forall|i: int| 0 <= i < n ==> (#[trigger] field_descriptors(fields, n)[i]) == fields[i].descriptor(),
    decreases n,
{
    if n > 0 {
        lemma_field_descriptors(fields, (n - 1) as nat);
    }
}

/// Two anonymous composites with the same fields, names and types in
/// order, have the same identity and the same alignment. If they also
/// pad alike they have the same size, and if besides both are structs
/// or both are tuples, the same descriptor: the same managed type, the
/// same templates and the same helper source.
pub proof fn lemma_structural_identity(a: TypeModel, b: TypeModel)
    requires
        a.is_composite(),
        b.is_composite(),
        a.composite().identifier is None,
        b.composite().identifier is None,
        a.composite().names == b.composite().names,
        a.fields() == b.fields(),
    ensures
        a.identity() == b.identity(),
        a.align_of() == b.align_of(),
        a.padded() == b.padded() ==> a.size_of() == b.size_of(),
        a.padded() == b.padded() && (a is Tuple <==> b is Tuple) ==> a.describable()
            == b.describable() && a.descriptor() == b.descriptor(),
{
    if a.padded() == b.padded() && (a is Tuple <==> b is Tuple) {
        assert(a.composite() == b.composite());
        assert(a == b);
    }
}

/// No helper occurs twice among those that a type requires.
pub proof fn lemma_helpers_distinct(m: TypeModel)
    ensures
        m.descriptor().converter.globals.no_duplicates(),
    decreases m,
{
    match m {
        TypeModel::Pointer(target) => {
            lemma_helpers_distinct(*target);
        },
        TypeModel::Struct(c) | TypeModel::Tuple(c) => {
            let fields = field_descriptors(c.fields, c.fields.len());
            let typescript = managed_name(m, fields);
            lemma_distinct_no_duplicates(
                (if m.composite().identifier is Some {
                    seq![declaration_text(m, fields, typescript)]
                } else {
                    Seq::empty()
                }) + field_helpers(fields, m.fields().len()) + seq![
                    from_function_text(m, fields, typescript),
                    into_function_text(m, fields, typescript),
                ],
            );
        },
        _ => {},
    }
}

impl Struct {
    /// The descriptors of the fields, in order. Fails with the first
    /// field's error where a field cannot be described.
    pub fn describe_fields(&self) -> (r: Result<Vec<TypeDescriptor>, Error>)
        ensures
            r is Ok <==> all_describable(self@.fields, self@.fields.len()),
            r matches Ok(d) ==> descriptor_views(d@) == field_descriptors(
                self@.fields,
                self@.fields.len(),
            ),
            r matches Err(e) ==> e is UnsupportedLayout,
        decreases self.as_type().depth(), 0nat,
    {
        let mut descriptors: Vec<TypeDescriptor> = Vec::new();
        let mut i: usize = 0;
        assert(descriptor_views(descriptors@) =~= field_descriptors(self@.fields, 0));
        while i < self.fields.len()
            invariant
                0 <= i <= self.fields.len(),
                all_describable(self@.fields, i as nat),
                descriptor_views(descriptors@) == field_descriptors(self@.fields, i as nat),
            decreases self.fields.len() - i,
        {
            proof {
                lemma_max_depth(self@.fields, self@.fields.len(), i as nat);
                if all_describable(self@.fields, self@.fields.len()) {
                    lemma_all_describable(self@.fields, self@.fields.len(), i as nat);
                }
            }
            match TypeDescriptor::from(&self.fields[i].1) {
                Ok(descriptor) => {
                    let ghost before = descriptor_views(descriptors@);
                    descriptors.push(descriptor);
                    assert(descriptor_views(descriptors@) =~= before.push(descriptor@));
                },
                Err(e) => {
                    return Err(e);
                },
            }
            i = i + 1;
        }
        Ok(descriptors)
    }

    /// The literal shape of the struct in the managed language. Fails
    /// where a field cannot be described.
    pub fn typescript_type(&self) -> (r: Result<String, Error>)
        ensures
            r is Ok <==> all_describable(self@.fields, self@.fields.len()),
            r matches Ok(s) ==> s@ == shape_text(
                self.as_type(),
                field_descriptors(self@.fields, self@.fields.len()),
            ),
            r matches Err(e) ==> e is UnsupportedLayout,
    {
        match self.describe_fields() {
            Ok(descriptors) => {
                proof {
                    lemma_field_descriptors(self@.fields, self@.fields.len());
                }
                Ok(self.shape(&descriptors))
            },
            Err(e) => Err(e),
        }
    }

    /// The managed type of the struct: its identifier in PascalCase if
    /// it has one, else its literal shape. Fails where the struct is
    /// anonymous and a field cannot be described.
    pub fn typescript(&self) -> (r: Result<String, Error>)
        ensures
            r is Ok <==> self@.identifier is Some || all_describable(
                self@.fields,
                self@.fields.len(),
            ),
            r matches Ok(s) ==> s@ == managed_name(
                self.as_type(),
                field_descriptors(self@.fields, self@.fields.len()),
            ),
            r matches Err(e) ==> e is UnsupportedLayout,
    {
        match &self.identifier {
            Some(identifier) => Ok(to_pascal_case(identifier.as_str())),
            None => self.typescript_type(),
        }
    }
}

impl Struct {
    /// The fields, each with its name, a copy of its definition and
    /// its descriptor. Fails where a field cannot be described.
    pub fn fields(&self) -> (r: Result<Vec<(String, TypeDefinition, TypeDescriptor)>, Error>)
        ensures
            r is Ok <==> all_describable(self@.fields, self@.fields.len()),
            r matches Ok(fields) ==> fields.len() == self@.fields.len() && forall|i: int|
                0 <= i < fields.len() ==> (#[trigger] fields[i]).0@ == self@.names[i] && fields[i].1@
                    == self@.fields[i] && fields[i].2@ == self@.fields[i].descriptor(),
            r matches Err(e) ==> e is UnsupportedLayout,
    {
        let descriptors = match self.describe_fields() {
            Ok(descriptors) => descriptors,
            Err(e) => {
                return Err(e);
            },
        };
        proof {
            lemma_field_descriptors(self@.fields, self@.fields.len());
        }
        let ghost described = descriptors@;
        let mut fields: Vec<(String, TypeDefinition, TypeDescriptor)> = Vec::new();
        for descriptor in iter: descriptors
            invariant
                iter.seq() == described,
                described.len() == self.fields.len(),
                descriptor_views(described) == field_descriptors(self@.fields, self@.fields.len()),
                fields.len() == iter.index(),
                forall|i: int|
                    0 <= i < fields.len() ==> (#[trigger] fields[i]).0@ == self@.names[i]
                        && fields[i].1@ == self@.fields[i] && fields[i].2@
                        == self@.fields[i].descriptor(),
        {
            let i = fields.len();
            assert(descriptor_views(described)[i as int] == descriptor@);
            proof {
                lemma_field_descriptors(self@.fields, self@.fields.len());
            }
            fields.push((self.fields[i].0.clone(), self.fields[i].1.duplicate(), descriptor));
        }
        Ok(fields)
    }
}

impl Tuple {
    /// The fields, each with a copy of its definition and its
    /// descriptor. Fails where a field cannot be described.
    pub fn fields(&self) -> (r: Result<Vec<(TypeDefinition, TypeDescriptor)>, Error>)
        ensures
            r is Ok <==> all_describable(self@.fields, self@.fields.len()),
            r matches Ok(fields) ==> fields.len() == self@.fields.len() && forall|i: int|
                0 <= i < fields.len() ==> (#[trigger] fields[i]).0@ == self@.fields[i] && fields[i].1@
                    == self@.fields[i].descriptor(),
            r matches Err(e) ==> e is UnsupportedLayout,
    {
        let descriptors = match self.describe_fields() {
            Ok(descriptors) => descriptors,
            Err(e) => {
                return Err(e);
            },
        };
        proof {
            lemma_field_descriptors(self@.fields, self@.fields.len());
        }
        let ghost described = descriptors@;
        let mut fields: Vec<(TypeDefinition, TypeDescriptor)> = Vec::new();
        for descriptor in iter: descriptors
            invariant
                iter.seq() == described,
                described.len() == self.fields.len(),
                descriptor_views(described) == field_descriptors(self@.fields, self@.fields.len()),
                fields.len() == iter.index(),
                forall|i: int|
                    0 <= i < fields.len() ==> (#[trigger] fields[i]).0@ == self@.fields[i]
                        && fields[i].1@ == self@.fields[i].descriptor(),
        {
            let i = fields.len();
            assert(descriptor_views(described)[i as int] == descriptor@);
            proof {
                lemma_field_descriptors(self@.fields, self@.fields.len());
            }
            fields.push((self.fields[i].duplicate(), descriptor));
        }
        Ok(fields)
    }

    /// The descriptors of the fields, in order. Fails with the first
    /// field's error where a field cannot be described.
    pub fn describe_fields(&self) -> (r: Result<Vec<TypeDescriptor>, Error>)
        ensures
            r is Ok <==> all_describable(self@.fields, self@.fields.len()),
            r matches Ok(d) ==> descriptor_views(d@) == field_descriptors(
                self@.fields,
                self@.fields.len(),
            ),
            r matches Err(e) ==> e is UnsupportedLayout,
        decreases self.as_type().depth(), 0nat,
    {
        let mut descriptors: Vec<TypeDescriptor> = Vec::new();
        let mut i: usize = 0;
        assert(descriptor_views(descriptors@) =~= field_descriptors(self@.fields, 0));
        while i < self.fields.len()
            invariant
                0 <= i <= self.fields.len(),
                all_describable(self@.fields, i as nat),
                descriptor_views(descriptors@) == field_descriptors(self@.fields, i as nat),
            decreases self.fields.len() - i,
        {
            proof {
                lemma_max_depth(self@.fields, self@.fields.len(), i as nat);
                if all_describable(self@.fields, self@.fields.len()) {
                    lemma_all_describable(self@.fields, self@.fields.len(), i as nat);
                }
            }
            match TypeDescriptor::from(&self.fields[i]) {
                Ok(descriptor) => {
                    let ghost before = descriptor_views(descriptors@);
                    descriptors.push(descriptor);
                    assert(descriptor_views(descriptors@) =~= before.push(descriptor@));
                },
                Err(e) => {
                    return Err(e);
                },
            }
            i = i + 1;
        }
        Ok(descriptors)
    }

    /// The literal shape of the tuple in the managed language. Fails
    /// where a field cannot be described.
    pub fn typescript_type(&self) -> (r: Result<String, Error>)
        ensures
            r is Ok <==> all_describable(self@.fields, self@.fields.len()),
            r matches Ok(s) ==> s@ == shape_text(
                self.as_type(),
                field_descriptors(self@.fields, self@.fields.len()),
            ),
            r matches Err(e) ==> e is UnsupportedLayout,
    {
        match self.describe_fields() {
            Ok(descriptors) => {
                proof {
                    lemma_field_descriptors(self@.fields, self@.fields.len());
                }
                Ok(self.shape(&descriptors))
            },
            Err(e) => Err(e),
        }
    }

    /// The managed type of the tuple: its identifier in PascalCase if
    /// it has one, else its literal shape. Fails where the tuple is
    /// anonymous and a field cannot be described.
    pub fn typescript(&self) -> (r: Result<String, Error>)
        ensures
            r is Ok <==> self@.identifier is Some || all_describable(
                self@.fields,
                self@.fields.len(),
            ),
            r matches Ok(s) ==> s@ == managed_name(
                self.as_type(),
                field_descriptors(self@.fields, self@.fields.len()),
            ),
            r matches Err(e) ==> e is UnsupportedLayout,
    {
        match &self.identifier {
            Some(identifier) => Ok(to_pascal_case(identifier.as_str())),
            None => self.typescript_type(),
        }
    }
}

impl TypeDescriptor {
    /// The descriptor of a definition. Fails with
    /// [`Error::UnsupportedLayout`] exactly where the type has none: a
    /// buffer or a composite in it is too large to address, or a
    /// composite in it holds void or a buffer of open length.
    pub fn from(definition: &TypeDefinition) -> (r: Result<TypeDescriptor, Error>)
        ensures
            r is Ok <==> definition@.describable(),
            r matches Ok(d) ==> d@ == definition@.descriptor(),
            r matches Err(e) ==> e is UnsupportedLayout,
        decreases definition@.depth(), 1nat,
    {
        proof {
            reveal_with_fuel(TypeDefinition::model, 2);
        }
        match definition {
            TypeDefinition::Primitive(primitive) => Ok(primitive.descriptor()),
            TypeDefinition::Pointer(pointer) => {
                match TypeDescriptor::from(&pointer.target) {
                    Ok(described) => Ok(Pointer::descriptor_over(&pointer.target, described)),
                    Err(e) => Err(e),
                }
            },
            TypeDefinition::Buffer(buffer) => buffer.descriptor(),
            TypeDefinition::CString => Ok(CString::descriptor()),
            TypeDefinition::Struct(s) => {
                let descriptors = match s.describe_fields() {
                    Ok(descriptors) => descriptors,
                    Err(e) => {
                        return Err(e);
                    },
                };
                proof {
                    lemma_field_descriptors(s@.fields, s@.fields.len());
                }
                let typescript = match &s.identifier {
                    Some(identifier) => to_pascal_case(identifier.as_str()),
                    None => s.shape(&descriptors),
                };
                match compose(definition, &descriptors, typescript) {
                    Ok(converter) => Ok(TypeDescriptor { native: NativeType::Pointer, converter }),
                    Err(e) => Err(e),
                }
            },
            TypeDefinition::Tuple(t) => {
                let descriptors = match t.describe_fields() {
                    Ok(descriptors) => descriptors,
                    Err(e) => {
                        return Err(e);
                    },
                };
                proof {
                    lemma_field_descriptors(t@.fields, t@.fields.len());
                }
                let typescript = match &t.identifier {
                    Some(identifier) => to_pascal_case(identifier.as_str()),
                    None => t.shape(&descriptors),
                };
                match compose(definition, &descriptors, typescript) {
                    Ok(converter) => Ok(TypeDescriptor { native: NativeType::Pointer, converter }),
                    Err(e) => Err(e),
                }
            },
        }
    }
}

} // verus!
