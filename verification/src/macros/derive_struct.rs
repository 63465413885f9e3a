//! The managed declaration of a native struct or enum.
use vstd::prelude::*;
use vstd::string::*;
use crate::macros::attrs::{
    attr_views, get_serde_attrs, read_attributes, renamed, SerdeAttr, SerdeAttrView,
};
use crate::macros::docs::{doc_lines, docs_text, get_docs};
use crate::macros::meta::Glue;
use crate::macros::syntax::{Attribute, Data, DeriveInput, Field, RustType, Variant};
use crate::macros::types::{managed_text, types_to_ts};
use crate::text::{join, joined, push_text};

verus! {

/// What is recorded of a declared type: its name, its fields as pairs
/// of name and type name, and its managed declaration.
#[derive(Debug)]
pub struct TypeRecord {
    pub name: String,
    pub fields: Vec<(String, String)>,
    pub typescript: String,
}

/// The complaint about a field that has no name.
pub open spec fn nameless_field() -> Seq<char> {
    "Field without ident"@
}

/// The complaint about a declaration that is not supported.
pub open spec fn unsupported() -> Seq<char> {
    "not implemented"@
}

/// The complaint about a renaming in an unknown style, met while
/// renaming `name`.
pub open spec fn invalid_style(name: Seq<char>) -> Seq<char> {
    "Invalid attribute value: "@ + name
}

/// The documentation comment of a declaration with these attributes.
pub open spec fn docs_of(attrs: Seq<Attribute>) -> Seq<char> {
    docs_text(doc_lines(attrs, attrs.len()))
}

/// The name `name` after the first `n` of `attrs` are applied in
/// order; a renaming in an unknown style is a complaint.
pub open spec fn apply_renames(
    attrs: Seq<SerdeAttrView>,
    name: Seq<char>,
    n: nat,
) -> Result<Seq<char>, Seq<char>>
    decreases n,
{
    if n == 0 || n > attrs.len() {
        Ok(name)
    } else {
        match apply_renames(attrs, name, (n - 1) as nat) {
            Ok(current) => match attrs[n - 1] {
                SerdeAttrView::RenameAll(style) => match renamed(style, current) {
                    Some(next) => Ok(next),
                    None => Err(invalid_style(current)),
                },
                SerdeAttrView::TagAndContent(_, _) => Ok(current),
            },
            Err(complaint) => Err(complaint),
        }
    }
}

/// The name of the type of a field as a record keeps it: the first
/// name of a path, or of a path behind a shared reference that names
/// a lifetime.
pub open spec fn recorded_type(ty: RustType) -> Option<Seq<char>> {
    match ty {
        RustType::Path(_) => ty.first_name(),
        RustType::Reference { mutable, lifetime, elem } => if !mutable && lifetime {
            elem.first_name()
        } else {
            None
        },
        _ => None,
    }
}

/// The member that a field becomes in a managed declaration: its
/// documentation, its name after renaming, and its managed type.
/// Where `recorded`, the field must have a type that a record keeps.
pub open spec fn member_text(
    field: Field,
    attrs: Seq<SerdeAttrView>,
    recorded: bool,
) -> Result<Seq<char>, Seq<char>> {
    match field.ident {
        None => Err(nameless_field()),
        Some(ident) => if recorded && recorded_type(field.ty) is None {
            Err(unsupported())
        } else {
            match apply_renames(attrs, ident@, attrs.len()) {
                Err(complaint) => Err(complaint),
                Ok(name) => match managed_text(field.ty) {
                    None => Err(unsupported()),
                    Some(managed) => Ok(
                        docs_of(field.attrs@) + "  "@ + name + ": "@ + managed + ";"@,
                    ),
                },
            }
        },
    }
}

/// The members that the first `n` fields become, or the first
/// complaint.
pub open spec fn member_texts(
    fields: Seq<Field>,
    attrs: Seq<SerdeAttrView>,
    recorded: bool,
    n: nat,
) -> Result<Seq<Seq<char>>, Seq<char>>
    decreases n,
{
    if n == 0 || n > fields.len() {
        Ok(Seq::empty())
    } else {
        match member_texts(fields, attrs, recorded, (n - 1) as nat) {
            Ok(members) => match member_text(fields[n - 1], attrs, recorded) {
                Ok(member) => Ok(members.push(member)),
                Err(complaint) => Err(complaint),
            },
            Err(complaint) => Err(complaint),
        }
    }
}

/// The fields as a record keeps them: each by its name as declared and
/// the name of its type.
pub open spec fn recorded_fields(fields: Seq<Field>) -> Seq<(Seq<char>, Seq<char>)> {
    Seq::new(fields.len(), |i: int| (fields[i].ident->0@, recorded_type(fields[i].ty)->0))
}

/// The managed declaration of a struct called `name`.
pub open spec fn struct_text(
    docs: Seq<char>,
    name: Seq<char>,
    members: Seq<Seq<char>>,
) -> Seq<char> {
    docs + "export type "@ + name + " = {\n  "@ + joined(members, "\n"@) + "\n};"@
}

/// The tag and the content of the first attribute that gives them.
pub open spec fn tag_and_content(
    attrs: Seq<SerdeAttrView>,
    from: nat,
) -> Option<(Seq<char>, Seq<char>)>
    decreases attrs.len() - from,
{
    if from >= attrs.len() {
        None
    } else {
        match attrs[from as int] {
            SerdeAttrView::TagAndContent(tag, content) => Some((tag, content)),
            SerdeAttrView::RenameAll(_) => tag_and_content(attrs, from + 1),
        }
    }
}

/// The managed form of a variant: without fields its name between
/// quotes; with fields an object under its name, or, where a tag and
/// a content are asked for, an object with its name as the tag and its
/// fields as the content.
pub open spec fn variant_text(
    variant: Variant,
    attrs: Seq<SerdeAttrView>,
) -> Result<Seq<char>, Seq<char>> {
    match member_texts(variant.fields@, attrs, false, variant.fields@.len()) {
        Err(complaint) => Err(complaint),
        Ok(members) => match apply_renames(attrs, variant.ident@, attrs.len()) {
            Err(complaint) => Err(complaint),
            Ok(name) => Ok(
                if members.len() > 0 {
                    match tag_and_content(attrs, 0) {
                        None => docs_of(variant.attrs@) + " { "@ + name + ": {\n "@ + joined(
                            members,
                            "\n"@,
                        ) + "\n} }"@,
                        Some((tag, content)) => docs_of(variant.attrs@) + " { "@ + tag + ": \""@
                            + name + "\", "@ + content + ": { "@ + joined(members, "\n"@)
                            + " } }"@,
                    }
                } else {
                    docs_of(variant.attrs@) + "  \""@ + name + "\""@
                },
            ),
        },
    }
}

/// The managed forms of the first `n` variants, or the first
/// complaint.
pub open spec fn variant_texts(
    variants: Seq<Variant>,
    attrs: Seq<SerdeAttrView>,
    n: nat,
) -> Result<Seq<Seq<char>>, Seq<char>>
    decreases n,
{
    if n == 0 || n > variants.len() {
        Ok(Seq::empty())
    } else {
        match variant_texts(variants, attrs, (n - 1) as nat) {
            Ok(texts) => match variant_text(variants[n - 1], attrs) {
                Ok(text) => Ok(texts.push(text)),
                Err(complaint) => Err(complaint),
            },
            Err(complaint) => Err(complaint),
        }
    }
}

/// The managed declaration of an enum called `name`.
pub open spec fn enum_text(
    docs: Seq<char>,
    name: Seq<char>,
    variants: Seq<Seq<char>>,
) -> Seq<char> {
    docs + "export type "@ + name + " = "@ + joined(variants, "  |\n"@) + ";"@
}

/// The mathematical value of a [`TypeRecord`].
pub ghost struct RecordView {
    pub name: Seq<char>,
    pub fields: Seq<(Seq<char>, Seq<char>)>,
    pub typescript: Seq<char>,
}

impl View for TypeRecord {
    type V = RecordView;

    open spec fn view(&self) -> RecordView {
        RecordView {
            name: self.name@,
            fields: Seq::new(self.fields@.len(), |i: int| (self.fields@[i].0@, self.fields@[i].1@)),
            typescript: self.typescript@,
        }
    }
}

/// What is recorded of a declaration, or the complaint that it
/// raises. A struct is recorded with its fields; an enum without.
pub open spec fn record_of(input: DeriveInput) -> Result<RecordView, Seq<char>> {
    match read_attributes(input.attrs@, input.attrs@.len()) {
        Err(complaint) => Err(complaint),
        Ok(attrs) => match input.data {
            Data::Struct(fields) => match member_texts(fields@, attrs, true, fields@.len()) {
                Err(complaint) => Err(complaint),
                Ok(members) => Ok(
                    RecordView {
                        name: input.ident@,
                        fields: recorded_fields(fields@),
                        typescript: struct_text(docs_of(input.attrs@), input.ident@, members),
                    },
                ),
            },
            Data::Enum(variants) => match variant_texts(variants@, attrs, variants@.len()) {
                Err(complaint) => Err(complaint),
                Ok(texts) => Ok(
                    RecordView {
                        name: input.ident@,
                        fields: Seq::empty(),
                        typescript: enum_text(docs_of(input.attrs@), input.ident@, texts),
                    },
                ),
            },
            Data::Other => Err(unsupported()),
        },
    }
}

/// Once a field raises a complaint, looking at more fields changes
/// nothing.
pub proof fn lemma_member_complaint(
    fields: Seq<Field>,
    attrs: Seq<SerdeAttrView>,
    recorded: bool,
    i: nat,
    n: nat,
)
    requires
        i <= n <= fields.len(),
        member_texts(fields, attrs, recorded, i) is Err,
    ensures
        member_texts(fields, attrs, recorded, n) == member_texts(fields, attrs, recorded, i),
    decreases n,
{
    if i < n {
        lemma_member_complaint(fields, attrs, recorded, i, (n - 1) as nat);
    }
}

/// Once a variant raises a complaint, looking at more variants changes
/// nothing.
pub proof fn lemma_variant_complaint(
    variants: Seq<Variant>,
    attrs: Seq<SerdeAttrView>,
    i: nat,
    n: nat,
)
    requires
        i <= n <= variants.len(),
        variant_texts(variants, attrs, i) is Err,
    ensures
        variant_texts(variants, attrs, n) == variant_texts(variants, attrs, i),
    decreases n,
{
    if i < n {
        lemma_variant_complaint(variants, attrs, i, (n - 1) as nat);
    }
}

/// The name `name` after `attrs` are applied in order.
pub fn rename(attrs: &Vec<SerdeAttr>, name: &str) -> (r: Result<String, String>)
    ensures
        match r {
            Ok(renamed) => apply_renames(attr_views(attrs@), name@, attrs.len() as nat) == Ok::<
                Seq<char>,
                Seq<char>,
            >(renamed@),
            Err(complaint) => apply_renames(attr_views(attrs@), name@, attrs.len() as nat) == Err::<
                Seq<char>,
                Seq<char>,
            >(complaint@),
        },
{
    let ghost views = attr_views(attrs@);
    let mut current = String::from_str(name);
    let mut i: usize = 0;
    while i < attrs.len()
        invariant
            0 <= i <= attrs.len(),
            views == attr_views(attrs@),
            apply_renames(views, name@, i as nat) == Ok::<Seq<char>, Seq<char>>(current@),
        decreases attrs.len() - i,
    {
        assert(views[i as int] == attrs[i as int]@);
        match &attrs[i] {
            SerdeAttr::RenameAll(_) => {
                match attrs[i].try_transform(current.as_str()) {
                    Some(next) => {
                        current = next;
                    },
                    None => {
                        proof {
                            lemma_rename_complaint(views, name@, (i + 1) as nat, attrs.len() as nat);
                        }
                        return Err(
                            String::from_str("Invalid attribute value: ").concat(current.as_str()),
                        );
                    },
                }
            },
            SerdeAttr::TagAndContent(_, _) => {},
        }
        i = i + 1;
    }
    Ok(current)
}

/// Once a renaming raises a complaint, applying more attributes
/// changes nothing.
pub proof fn lemma_rename_complaint(attrs: Seq<SerdeAttrView>, name: Seq<char>, i: nat, n: nat)
    requires
        i <= n <= attrs.len(),
        apply_renames(attrs, name, i) is Err,
    ensures
        apply_renames(attrs, name, n) == apply_renames(attrs, name, i),
    decreases n,
{
    if i < n {
        lemma_rename_complaint(attrs, name, i, (n - 1) as nat);
    }
}

/// The name of the type of a field as a record keeps it.
pub fn kept_type(ty: &RustType) -> (name: Option<&String>)
    ensures
        name is Some <==> recorded_type(*ty) is Some,
        name matches Some(n) ==> Some(n@) == recorded_type(*ty),
{
    match ty {
        RustType::Path(_) => ty.first_ident(),
        RustType::Reference { mutable, lifetime, elem } => {
            if !*mutable && *lifetime {
                elem.first_ident()
            } else {
                None
            }
        },
        _ => None,
    }
}

/// The member that a field becomes in a managed declaration.
pub fn member(field: &Field, attrs: &Vec<SerdeAttr>, recorded: bool) -> (r: Result<String, String>)
    ensures
        match r {
            Ok(text) => member_text(*field, attr_views(attrs@), recorded) == Ok::<
                Seq<char>,
                Seq<char>,
            >(text@),
            Err(complaint) => member_text(*field, attr_views(attrs@), recorded) == Err::<
                Seq<char>,
                Seq<char>,
            >(complaint@),
        },
{
    let ident = match &field.ident {
        Some(ident) => ident,
        None => {
            return Err(String::from_str("Field without ident"));
        },
    };
    if recorded && kept_type(&field.ty).is_none() {
        return Err(String::from_str("not implemented"));
    }
    let name = match rename(attrs, ident.as_str()) {
        Ok(name) => name,
        Err(complaint) => {
            return Err(complaint);
        },
    };
    let managed = match types_to_ts(&field.ty) {
        Ok(managed) => managed,
        Err(_) => {
            return Err(String::from_str("not implemented"));
        },
    };
    let mut out = get_docs(&field.attrs);
    out.append("  ");
    out.append(name.as_str());
    out.append(": ");
    out.append(managed.as_str());
    out.append(";");
    Ok(out)
}

/// The members that fields become, or the first complaint.
pub fn members(
    fields: &Vec<Field>,
    attrs: &Vec<SerdeAttr>,
    recorded: bool,
) -> (r: Result<Vec<String>, String>)
    ensures
        match r {
            Ok(texts) => member_texts(fields@, attr_views(attrs@), recorded, fields.len() as nat)
                == Ok::<Seq<Seq<char>>, Seq<char>>(texts.deep_view()),
            Err(complaint) => member_texts(
                fields@,
                attr_views(attrs@),
                recorded,
                fields.len() as nat,
            ) == Err::<Seq<Seq<char>>, Seq<char>>(complaint@),
        },
{
    let mut texts: Vec<String> = Vec::new();
    let mut i: usize = 0;
    assert(texts.deep_view() =~= Seq::<Seq<char>>::empty());
    while i < fields.len()
        invariant
            0 <= i <= fields.len(),
            member_texts(fields@, attr_views(attrs@), recorded, i as nat) == Ok::<
                Seq<Seq<char>>,
                Seq<char>,
            >(texts.deep_view()),
        decreases fields.len() - i,
    {
        match member(&fields[i], attrs, recorded) {
            Ok(text) => {
                push_text(&mut texts, text);
            },
            Err(complaint) => {
                proof {
                    lemma_member_complaint(
                        fields@,
                        attr_views(attrs@),
                        recorded,
                        (i + 1) as nat,
                        fields.len() as nat,
                    );
                }
                return Err(complaint);
            },
        }
        i = i + 1;
    }
    Ok(texts)
}

/// The tag and the content of the first attribute that gives them.
pub fn find_tag_and_content(attrs: &Vec<SerdeAttr>) -> (found: Option<(&String, &String)>)
    ensures
        match found {
            Some((tag, content)) => tag_and_content(attr_views(attrs@), 0) == Some((tag@, content@)),
            None => tag_and_content(attr_views(attrs@), 0) is None,
        },
{
    let ghost views = attr_views(attrs@);
    let mut i: usize = 0;
    while i < attrs.len()
        invariant
            0 <= i <= attrs.len(),
            views == attr_views(attrs@),
            tag_and_content(views, 0) == tag_and_content(views, i as nat),
        decreases attrs.len() - i,
    {
        assert(views[i as int] == attrs[i as int]@);
        match &attrs[i] {
            SerdeAttr::TagAndContent(tag, content) => {
                return Some((tag, content));
            },
            SerdeAttr::RenameAll(_) => {},
        }
        i = i + 1;
    }
    None
}

/// The managed form of a variant.
pub fn variant(declared: &Variant, attrs: &Vec<SerdeAttr>) -> (r: Result<String, String>)
    ensures
        match r {
            Ok(text) => variant_text(*declared, attr_views(attrs@)) == Ok::<Seq<char>, Seq<char>>(
                text@,
            ),
            Err(complaint) => variant_text(*declared, attr_views(attrs@)) == Err::<
                Seq<char>,
                Seq<char>,
            >(complaint@),
        },
{
    let fields = match members(&declared.fields, attrs, false) {
        Ok(fields) => fields,
        Err(complaint) => {
            return Err(complaint);
        },
    };
    let name = match rename(attrs, declared.ident.as_str()) {
        Ok(name) => name,
        Err(complaint) => {
            return Err(complaint);
        },
    };
    let mut out = get_docs(&declared.attrs);
    if fields.len() > 0 {
        match find_tag_and_content(attrs) {
            None => {
                out.append(" { ");
                out.append(name.as_str());
                out.append(": {\n ");
                out.append(join(&fields, "\n").as_str());
                out.append("\n} }");
            },
            Some((tag, content)) => {
                out.append(" { ");
                out.append(tag.as_str());
                out.append(": \"");
                out.append(name.as_str());
                out.append("\", ");
                out.append(content.as_str());
                out.append(": { ");
                out.append(join(&fields, "\n").as_str());
                out.append(" } }");
            },
        }
    } else {
        out.append("  \"");
        out.append(name.as_str());
        out.append("\"");
    }
    Ok(out)
}

/// What is recorded of a declaration: for a struct its fields and its
/// managed declaration, for an enum its managed declaration. Fails
/// with the first complaint that the declaration raises.
#[verifier::loop_isolation(false)]
pub fn describe(input: &DeriveInput) -> (r: Result<TypeRecord, String>)
    ensures
        match r {
            Ok(record) => record_of(*input) == Ok::<RecordView, Seq<char>>(record@),
            Err(complaint) => record_of(*input) == Err::<RecordView, Seq<char>>(complaint@),
        },
{
    let attrs = match get_serde_attrs(&input.attrs) {
        Ok(attrs) => attrs,
        Err(complaint) => {
            return Err(complaint);
        },
    };
    match &input.data {
        Data::Struct(fields) => {
            let texts = match members(fields, &attrs, true) {
                Ok(texts) => texts,
                Err(complaint) => {
                    return Err(complaint);
                },
            };
            let mut kept: Vec<(String, String)> = Vec::new();
            let mut i: usize = 0;
            while i < fields.len()
                invariant
                    0 <= i <= fields.len(),
                    member_texts(fields@, attr_views(attrs@), true, fields.len() as nat) is Ok,
                    kept.len() == i,
                    forall|k: int|
                        0 <= k < i ==> (#[trigger] kept[k]).0@ == fields[k].ident->0@ && Some(
                            kept[k].1@,
                        ) == recorded_type(fields[k].ty),
                decreases fields.len() - i,
            {
                proof {
                    lemma_members_recorded(
                        fields@,
                        attr_views(attrs@),
                        fields.len() as nat,
                        i as int,
                    );
                }
                match (&fields[i].ident, kept_type(&fields[i].ty)) {
                    (Some(ident), Some(ty)) => {
                        kept.push((ident.clone(), ty.clone()));
                    },
                    _ => {},
                }
                i = i + 1;
            }
            let mut typescript = get_docs(&input.attrs);
            typescript.append("export type ");
            typescript.append(input.ident.as_str());
            typescript.append(" = {\n  ");
            typescript.append(join(&texts, "\n").as_str());
            typescript.append("\n};");
            let record = TypeRecord { name: input.ident.clone(), fields: kept, typescript };
            assert(record@.fields =~= recorded_fields(fields@));
            Ok(record)
        },
        Data::Enum(variants) => {
            let mut texts: Vec<String> = Vec::new();
            let mut i: usize = 0;
            assert(texts.deep_view() =~= Seq::<Seq<char>>::empty());
            while i < variants.len()
                invariant
                    0 <= i <= variants.len(),
                    variant_texts(variants@, attr_views(attrs@), i as nat) == Ok::<
                        Seq<Seq<char>>,
                        Seq<char>,
                    >(texts.deep_view()),
                decreases variants.len() - i,
            {
                match variant(&variants[i], &attrs) {
                    Ok(text) => {
                        push_text(&mut texts, text);
                    },
                    Err(complaint) => {
                        proof {
                            lemma_variant_complaint(
                                variants@,
                                attr_views(attrs@),
                                (i + 1) as nat,
                                variants.len() as nat,
                            );
                        }
                        return Err(complaint);
                    },
                }
                i = i + 1;
            }
            let mut typescript = get_docs(&input.attrs);
            typescript.append("export type ");
            typescript.append(input.ident.as_str());
            typescript.append(" = ");
            typescript.append(join(&texts, "  |\n").as_str());
            typescript.append(";");
            let record = TypeRecord { name: input.ident.clone(), fields: Vec::new(), typescript };
            assert(record@.fields =~= Seq::empty());
            Ok(record)
        },
        Data::Other => Err(String::from_str("not implemented")),
    }
}

/// Where the fields of a struct all become members, each has a name
/// and a type that a record keeps.
pub proof fn lemma_members_recorded(fields: Seq<Field>, attrs: Seq<SerdeAttrView>, n: nat, i: int)
    requires
        0 <= i < n <= fields.len(),
        member_texts(fields, attrs, true, n) is Ok,
    ensures
        fields[i].ident is Some,
        recorded_type(fields[i].ty) is Some,
    decreases n,
{
    if i + 1 < n {
        lemma_members_recorded(fields, attrs, (n - 1) as nat, i);
    }
}

impl Glue {
    /// Records a declared type: its fields and its managed
    /// declaration go under its name, after what was recorded before.
    /// Under a name that is recorded twice the later record counts.
    pub fn record(&mut self, record: TypeRecord)
        ensures
            final(self).name == old(self).name,
            final(self).little_endian == old(self).little_endian,
            final(self).symbols == old(self).symbols,
            final(self).type_defs@.len() == old(self).type_defs@.len() + 1,
            final(self).type_defs@.drop_last() == old(self).type_defs@,
            final(self).type_defs@.last().0@ == record.name@,
            final(self).type_defs@.last().1 == record.fields,
            final(self).ts_types@.len() == old(self).ts_types@.len() + 1,
            final(self).ts_types@.drop_last() == old(self).ts_types@,
            final(self).ts_types@.last().0@ == record.name@,
            final(self).ts_types@.last().1@ == record.typescript@,
    {
        let TypeRecord { name, fields, typescript } = record;
        let ghost types = self.ts_types@;
        let ghost definitions = self.type_defs@;
        self.ts_types.push((name.clone(), typescript));
        self.type_defs.push((name, fields));
        assert(self.ts_types@.drop_last() =~= types);
        assert(self.type_defs@.drop_last() =~= definitions);
    }
}

/// Records what `input` declares in `metadata`. Fails, and records
/// nothing, with the first complaint that the declaration raises.
pub fn process_struct(metadata: &mut Glue, input: &DeriveInput) -> (r: Result<(), String>)
    ensures
        r is Ok <==> record_of(*input) is Ok,
        r matches Err(complaint) ==> record_of(*input) == Err::<RecordView, Seq<char>>(complaint@),
        r is Err ==> *final(metadata) == *old(metadata),
        r is Ok ==> final(metadata).ts_types@.drop_last() == old(metadata).ts_types@
            && final(metadata).ts_types@.last().0@ == input.ident@
            && final(metadata).ts_types@.last().1@ == record_of(*input)->Ok_0.typescript,
        r is Ok ==> final(metadata).type_defs@.drop_last() == old(metadata).type_defs@
            && final(metadata).type_defs@.last().0@ == input.ident@ && Seq::new(
            final(metadata).type_defs@.last().1@.len(),
            |i: int|
                (final(metadata).type_defs@.last().1@[i].0@, final(metadata).type_defs@.last().1@[i].1@),
        ) == record_of(*input)->Ok_0.fields,
{
    match describe(input) {
        Ok(record) => {
            metadata.record(record);
            Ok(())
        },
        Err(complaint) => Err(complaint),
    }
}

} // verus!
