//! Structs: named fields laid out one after another.
use vstd::prelude::*;
use vstd::string::*;
use crate::text::{decimal_string, hexadecimal_string, join, push_text};
use crate::types::composite::{
    counted, descriptor_views, fields_signature, hash_text, name_label, shape_text,
};
use crate::types::layout::lemma_max_depth;
use crate::types::{Composite, TypeDefinition, TypeDescriptor, TypeModel};

verus! {

/// A struct; anonymous where `identifier` is `None`.
#[derive(Debug)]
pub struct Struct {
    pub identifier: Option<String>,
    pub padded: bool,
    pub fields: Vec<(String, TypeDefinition)>,
}

/// A text with its length in front.
pub fn counted_text(text: &str) -> (s: String)
    ensures
        s@ == counted(text@),
{
    let mut s = decimal_string(text.unicode_len());
    s.append(":");
    s.append(text);
    s
}

impl Struct {
    /// The mathematical value of this struct.
    pub open spec fn model(&self) -> Composite
        decreases self,
    {
        Composite {
            identifier: match self.identifier {
                Some(i) => Some(i@),
                None => None,
            },
            padded: self.padded,
            names: Seq::new(self.fields@.len(), |i: int| self.fields@[i].0@),
            fields: Seq::new(
                self.fields@.len(),
                |i: int|
                    if 0 <= i < self.fields@.len() {
                        self.fields@[i].1.model()
                    } else {
                        arbitrary()
                    },
            ),
        }
    }

    /// This struct as a type.
    pub open spec fn as_type(&self) -> TypeModel {
        TypeModel::Struct(self.model())
    }

    /// A struct with the given identifier, padding and fields.
    pub fn new(
        identifier: Option<&str>,
        padded: bool,
        fields: Vec<(String, TypeDefinition)>,
    ) -> (s: Self)
        ensures
            s.padded == padded,
            s.fields == fields,
            identifier matches Some(name) ==> s.identifier matches Some(own) && own@ == name@,
            identifier is None ==> s.identifier is None,
    {
        let identifier = match identifier {
            Some(name) => Some(String::from_str(name)),
            None => None,
        };
        Self { identifier, padded, fields }
    }

    /// The signatures of the fields, each with its name in front.
    pub fn fields_signature(&self) -> (s: String)
        ensures
            s@ == fields_signature(self@.names, self@.fields, self@.fields.len()),
        decreases self.as_type().depth(), 0nat,
    {
        let mut out = String::new();
        let mut i: usize = 0;
        while i < self.fields.len()
            invariant
                0 <= i <= self.fields.len(),
                out@ == fields_signature(self@.names, self@.fields, i as nat),
            decreases self.fields.len() - i,
        {
            let ghost before = out@;
            proof {
                lemma_max_depth(self@.fields, self@.fields.len(), i as nat);
            }
            let label = counted_text(self.fields[i].0.as_str());
            out.append(label.as_str());
            out.append("=");
            let signature = self.fields[i].1.signature();
            out.append(signature.as_str());
            out.append(",");
            proof {
                assert(name_label(self@.names, i as int) == label@ + "="@);
                assert(out@ == before + name_label(self@.names, i as int) + signature@ + ","@);
            }
            i = i + 1;
        }
        out
    }

    /// The identity of the struct: its identifier if it has one, else
    /// the hash of its fields.
    pub fn identifier(&self) -> (s: String)
        ensures
            s@ == self.as_type().identity(),
    {
        match &self.identifier {
            Some(identifier) => identifier.clone(),
            None => {
                let signature = self.fields_signature();
                hexadecimal_string(hash_text(signature.as_str()))
            },
        }
    }

    /// The name of the routine that turns a managed value into bytes.
    pub fn into_function_name(&self) -> (s: String)
        ensures
            s@ == self.as_type().into_name(),
    {
        String::from_str("__into_").concat(self.identifier().as_str())
    }

    /// The name of the routine that turns bytes into a managed value.
    pub fn from_function_name(&self) -> (s: String)
        ensures
            s@ == self.as_type().from_name(),
    {
        String::from_str("__from_").concat(self.identifier().as_str())
    }

    /// The expression that reads field `i` of the managed value.
    pub fn accessor(&self, i: usize) -> (s: String)
        requires
            i < self.fields.len(),
        ensures
            s@ == self.as_type().accessor(i as nat),
    {
        String::from_str("__data.").concat(self.fields[i].0.as_str())
    }

    /// The literal shape of the struct, given its fields' descriptors.
    pub fn shape(&self, descriptors: &Vec<TypeDescriptor>) -> (s: String)
        requires
            descriptors.len() == self.fields.len(),
        ensures
            s@ == shape_text(self.as_type(), descriptor_views(descriptors@)),
    {
        let ghost views = descriptor_views(descriptors@);
        let ghost member = |i: int|
            self.as_type().composite().names[i] + ": "@ + views[i].converter.typescript + ";"@;
        let mut lines: Vec<String> = Vec::new();
        let mut i: usize = 0;
        assert(lines.deep_view() =~= Seq::new(0, member));
        while i < self.fields.len()
            invariant
                0 <= i <= self.fields.len(),
                descriptors.len() == self.fields.len(),
                views == descriptor_views(descriptors@),
                member == (|i: int|
                    self.as_type().composite().names[i] + ": "@
                        + views[i].converter.typescript + ";"@),
                lines.deep_view() == Seq::new(i as nat, member),
            decreases self.fields.len() - i,
        {
            let mut line = self.fields[i].0.clone();
            line.append(": ");
            line.append(descriptors[i].converter.typescript.as_str());
            line.append(";");
            push_text(&mut lines, line);
            assert(lines.deep_view() =~= Seq::new((i + 1) as nat, member));
            i = i + 1;
        }
        let mut out = String::from_str("{\n");
        out.append(join(&lines, "\n").as_str());
        out.append("\n}");
        out
    }
}

impl View for Struct {
    type V = Composite;

    open spec fn view(&self) -> Composite {
        self.model()
    }
}

} // verus!
