//! Copies of type definitions.
use vstd::prelude::*;
use vstd::string::*;
use crate::types::buffer::Buffer;
use crate::types::layout::lemma_max_depth;
use crate::types::pointer::Pointer;
use crate::types::primitive::Primitive;
use crate::types::structure::Struct;
use crate::types::tuple::Tuple;
use crate::types::TypeDefinition;

verus! {

impl TypeDefinition {
    /// A copy of the definition.
    pub fn duplicate(&self) -> (copy: TypeDefinition)
        ensures
            copy@ == self@,
        decreases self@.depth(), 1nat,
    {
        proof {
            reveal_with_fuel(TypeDefinition::model, 2);
        }
        match self {
            TypeDefinition::Primitive(primitive) => TypeDefinition::Primitive(
                Primitive { native: primitive.native },
            ),
            TypeDefinition::Pointer(pointer) => TypeDefinition::Pointer(
                Pointer { target: Box::new(pointer.target.duplicate()) },
            ),
            TypeDefinition::Buffer(buffer) => TypeDefinition::Buffer(
                Buffer { ty: buffer.ty, length: buffer.length },
            ),
            TypeDefinition::CString => TypeDefinition::CString,
            TypeDefinition::Struct(s) => TypeDefinition::Struct(s.duplicate()),
            TypeDefinition::Tuple(t) => TypeDefinition::Tuple(t.duplicate()),
        }
    }
}

impl Struct {
    /// A copy of the struct.
    pub fn duplicate(&self) -> (copy: Struct)
        ensures
            copy@ == self@,
        decreases self.as_type().depth(), 0nat,
    {
        let identifier = match &self.identifier {
            Some(identifier) => Some(identifier.clone()),
            None => None,
        };
        let mut fields: Vec<(String, TypeDefinition)> = Vec::new();
        let mut i: usize = 0;
        while i < self.fields.len()
            invariant
                0 <= i <= self.fields.len(),
                fields.len() == i,
                forall|k: int|
                    0 <= k < i ==> (#[trigger] fields[k]).0@ == self.fields[k].0@ && fields[k].1@
                        == self.fields[k].1@,
            decreases self.fields.len() - i,
        {
            proof {
                lemma_max_depth(self@.fields, self@.fields.len(), i as nat);
            }
            fields.push((self.fields[i].0.clone(), self.fields[i].1.duplicate()));
            i = i + 1;
        }
        let copy = Struct { identifier, padded: self.padded, fields };
        assert(copy@.names =~= self@.names);
        assert(copy@.fields =~= self@.fields);
        copy
    }
}

impl Tuple {
    /// A copy of the tuple.
    pub fn duplicate(&self) -> (copy: Tuple)
        ensures
            copy@ == self@,
        decreases self.as_type().depth(), 0nat,
    {
        let identifier = match &self.identifier {
            Some(identifier) => Some(identifier.clone()),
            None => None,
        };
        let mut fields: Vec<TypeDefinition> = Vec::new();
        let mut i: usize = 0;
        while i < self.fields.len()
            invariant
                0 <= i <= self.fields.len(),
                fields.len() == i,
                forall|k: int| 0 <= k < i ==> (#[trigger] fields[k])@ == self.fields[k]@,
            decreases self.fields.len() - i,
        {
            proof {
                lemma_max_depth(self@.fields, self@.fields.len(), i as nat);
            }
            fields.push(self.fields[i].duplicate());
            i = i + 1;
        }
        let copy = Tuple { identifier, padded: self.padded, fields };
        assert(copy@.names =~= self@.names);
        assert(copy@.fields =~= self@.fields);
        copy
    }
}

impl Clone for TypeDefinition {
    fn clone(&self) -> (copy: Self)
        ensures
            copy@ == self@,
    {
        self.duplicate()
    }
}

impl Clone for Struct {
    fn clone(&self) -> (copy: Self)
        ensures
            copy@ == self@,
    {
        self.duplicate()
    }
}

impl Clone for Tuple {
    fn clone(&self) -> (copy: Self)
        ensures
            copy@ == self@,
    {
        self.duplicate()
    }
}

impl Clone for Pointer {
    fn clone(&self) -> (copy: Self)
        ensures
            copy.target@ == self.target@,
    {
        Pointer { target: Box::new(self.target.duplicate()) }
    }
}

} // verus!
