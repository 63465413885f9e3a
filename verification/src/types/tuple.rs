//! Tuples: positional fields laid out one after another.
use vstd::prelude::*;
use vstd::string::*;
use crate::text::{decimal_string, hexadecimal_string, join, push_text};
use crate::types::composite::{
    descriptor_views, fields_signature, hash_text, name_label, shape_text,
};
use crate::types::layout::lemma_max_depth;
use crate::types::{Composite, TypeDefinition, TypeDescriptor, TypeModel};

verus! {

/// A tuple; anonymous where `identifier` is `None`.
#[derive(Debug)]
pub struct Tuple {
    pub identifier: Option<String>,
    pub padded: bool,
    pub fields: Vec<TypeDefinition>,
}

impl Tuple {
    /// The mathematical value of this tuple. Its fields have no names.
    pub open spec fn model(&self) -> Composite
        decreases self,
    {
        Composite {
            identifier: match self.identifier {
                Some(i) => Some(i@),
                None => None,
            },
            padded: self.padded,
            names: Seq::empty(),
            fields: Seq::new(
                self.fields@.len(),
                |i: int|
                    if 0 <= i < self.fields@.len() {
                        self.fields@[i].model()
                    } else {
                        arbitrary()
                    },
            ),
        }
    }

    /// This tuple as a type.
    pub open spec fn as_type(&self) -> TypeModel {
        TypeModel::Tuple(self.model())
    }

    /// A tuple with the given identifier, padding and fields.
    pub fn new(identifier: Option<&str>, padded: bool, fields: Vec<TypeDefinition>) -> (t: Self)
        ensures
            t.padded == padded,
            t.fields == fields,
            identifier matches Some(name) ==> t.identifier matches Some(own) && own@ == name@,
            identifier is None ==> t.identifier is None,
    {
        let identifier = match identifier {
            Some(name) => Some(String::from_str(name)),
            None => None,
        };
        Self { identifier, padded, fields }
    }

    /// The signatures of the fields, in order.
    pub fn fields_signature(&self) -> (s: String)
        ensures
            s@ == fields_signature(self@.names, self@.fields, self@.fields.len()),
        decreases self.as_type().depth(), 0nat,
    {
        let mut out = String::new();
        let mut i: usize = 0;
        while i < self.fields.len()
            invariant
                0 <= i <= self.fields.len(),
                out@ == fields_signature(self@.names, self@.fields, i as nat),
            decreases self.fields.len() - i,
        {
            let ghost before = out@;
            proof {
                lemma_max_depth(self@.fields, self@.fields.len(), i as nat);
            }
            let signature = self.fields[i].signature();
            out.append(signature.as_str());
            out.append(",");
            proof {
                assert(name_label(self@.names, i as int) == Seq::<char>::empty());
                assert(out@ == before + name_label(self@.names, i as int) + signature@ + ","@);
            }
            i = i + 1;
        }
        out
    }

    /// The identity of the tuple: its identifier if it has one, else
    /// the hash of its fields.
    pub fn identifier(&self) -> (s: String)
        ensures
            s@ == self.as_type().identity(),
    {
        match &self.identifier {
            Some(identifier) => identifier.clone(),
            None => {
                let signature = self.fields_signature();
                hexadecimal_string(hash_text(signature.as_str()))
            },
        }
    }

    /// The name of the routine that turns a managed value into bytes.
    pub fn into_function_name(&self) -> (s: String)
        ensures
            s@ == self.as_type().into_name(),
    {
        String::from_str("__into_").concat(self.identifier().as_str())
    }

    /// The name of the routine that turns bytes into a managed value.
    pub fn from_function_name(&self) -> (s: String)
        ensures
            s@ == self.as_type().from_name(),
    {
        String::from_str("__from_").concat(self.identifier().as_str())
    }

    /// The expression that reads field `i` of the managed value.
    pub fn accessor(&self, i: usize) -> (s: String)
        requires
            i < self.fields.len(),
        ensures
            s@ == self.as_type().accessor(i as nat),
    {
        let mut out = String::from_str("__data[");
        out.append(decimal_string(i).as_str());
        out.append("]");
        out
    }

    /// The literal shape of the tuple, given its fields' descriptors.
    pub fn shape(&self, descriptors: &Vec<TypeDescriptor>) -> (s: String)
        requires
            descriptors.len() == self.fields.len(),
        ensures
            s@ == shape_text(self.as_type(), descriptor_views(descriptors@)),
    {
        let ghost views = descriptor_views(descriptors@);
        let ghost member = |i: int| views[i].converter.typescript;
        let mut parts: Vec<String> = Vec::new();
        let mut i: usize = 0;
        assert(parts.deep_view() =~= Seq::new(0, member));
        while i < self.fields.len()
            invariant
                0 <= i <= self.fields.len(),
                descriptors.len() == self.fields.len(),
                views == descriptor_views(descriptors@),
                member == (|i: int| views[i].converter.typescript),
                parts.deep_view() == Seq::new(i as nat, member),
            decreases self.fields.len() - i,
        {
            push_text(&mut parts, descriptors[i].converter.typescript.clone());
            assert(parts.deep_view() =~= Seq::new((i + 1) as nat, member));
            i = i + 1;
        }
        let mut out = String::from_str("[");
        out.append(join(&parts, ", ").as_str());
        out.append("]");
        out
    }
}

impl View for Tuple {
    type V = Composite;

    open spec fn view(&self) -> Composite {
        self.model()
    }
}

} // verus!
