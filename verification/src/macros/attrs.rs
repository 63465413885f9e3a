//! Renaming attributes and what they do to a name.
use vstd::prelude::*;
use vstd::string::*;
use crate::inflect::{
    camel_case, lower_case, pascal_case, screaming_snake_case, snake_case, to_camel_case,
    to_lower_case, to_pascal_case, to_screaming_snake_case, to_snake_case, to_upper_case, upper_case,
};
use crate::macros::syntax::{Attribute, Lit, Meta, Nested};
use crate::text::same;

verus! {

/// An attribute that changes how names are written.
#[derive(Debug)]
pub enum SerdeAttr {
    /// All names are rewritten in the given style.
    RenameAll(String),
    /// Variants are written as a tag and a content under these keys.
    TagAndContent(String, String),
}

/// Whether `style` is one of the six styles of renaming.
pub open spec fn is_style(style: Seq<char>) -> bool {
    style == "lowercase"@ || style == "UPPERCASE"@ || style == "camelCase"@ || style
        == "snake_case"@ || style == "PascalCase"@ || style == "SCREAMING_SNAKE_CASE"@
}

/// The name `name` rewritten in `style`, for the six styles that
/// exist.
pub open spec fn renamed(style: Seq<char>, name: Seq<char>) -> Option<Seq<char>> {
    if style == "lowercase"@ {
        Some(lower_case(name))
    } else if style == "UPPERCASE"@ {
        Some(upper_case(name))
    } else if style == "camelCase"@ {
        Some(camel_case(name))
    } else if style == "snake_case"@ {
        Some(snake_case(name))
    } else if style == "PascalCase"@ {
        Some(pascal_case(name))
    } else if style == "SCREAMING_SNAKE_CASE"@ {
        Some(screaming_snake_case(name))
    } else {
        None
    }
}

impl SerdeAttr {
    /// Whether the attribute can be applied: a renaming names one of
    /// the six styles.
    pub open spec fn applicable(&self) -> bool {
        match self {
            SerdeAttr::RenameAll(style) => is_style(style@),
            SerdeAttr::TagAndContent(_, _) => true,
        }
    }

    /// What the attribute makes of `name`: a renaming rewrites it in
    /// its style; any other attribute leaves names alone.
    pub open spec fn transformed(&self, name: Seq<char>) -> Option<Seq<char>> {
        match self {
            SerdeAttr::RenameAll(style) => renamed(style@, name),
            SerdeAttr::TagAndContent(_, _) => None,
        }
    }

    /// Whether the attribute can be applied.
    pub fn is_applicable(&self) -> (r: bool)
        ensures
            r == self.applicable(),
    {
        match self {
            SerdeAttr::RenameAll(style) => {
                let style = style.as_str();
                same(style, "lowercase") || same(style, "UPPERCASE") || same(style, "camelCase")
                    || same(style, "snake_case") || same(style, "PascalCase") || same(
                    style,
                    "SCREAMING_SNAKE_CASE",
                )
            },
            SerdeAttr::TagAndContent(_, _) => true,
        }
    }

    /// What the attribute makes of the name `s`. A renaming must name
    /// one of the six styles.
    pub fn transform(&self, s: &str) -> (r: Option<String>)
        requires
            self.applicable(),
        ensures
            r is Some <==> self.transformed(s@) is Some,
            r matches Some(name) ==> Some(name@) == self.transformed(s@),
    {
        match self {
            SerdeAttr::RenameAll(style) => {
                let style = style.as_str();
                if same(style, "lowercase") {
                    Some(to_lower_case(s))
                } else if same(style, "UPPERCASE") {
                    Some(to_upper_case(s))
                } else if same(style, "camelCase") {
                    Some(to_camel_case(s))
                } else if same(style, "snake_case") {
                    Some(to_snake_case(s))
                } else if same(style, "PascalCase") {
                    Some(to_pascal_case(s))
                } else {
                    Some(to_screaming_snake_case(s))
                }
            },
            SerdeAttr::TagAndContent(_, _) => None,
        }
    }

    /// What the attribute makes of the name `s`, or `None` where it
    /// cannot be applied or leaves names alone.
    pub fn try_transform(&self, s: &str) -> (r: Option<String>)
        ensures
            r is Some <==> self.transformed(s@) is Some,
            r matches Some(name) ==> Some(name@) == self.transformed(s@),
    {
        if self.is_applicable() {
            self.transform(s)
        } else {
            None
        }
    }
}

/// The mathematical value of a [`SerdeAttr`].
pub ghost enum SerdeAttrView {
    RenameAll(Seq<char>),
    TagAndContent(Seq<char>, Seq<char>),
}

impl View for SerdeAttr {
    type V = SerdeAttrView;

    open spec fn view(&self) -> SerdeAttrView {
        match self {
            SerdeAttr::RenameAll(style) => SerdeAttrView::RenameAll(style@),
            SerdeAttr::TagAndContent(tag, content) => SerdeAttrView::TagAndContent(tag@, content@),
        }
    }
}

/// Attributes in a list, each by its value.
pub open spec fn attr_views(attrs: Seq<SerdeAttr>) -> Seq<SerdeAttrView> {
    Seq::new(attrs.len(), |i: int| attrs[i]@)
}

/// What reading an item or a list of items gives.
pub ghost enum Reading {
    /// An attribute.
    Found(SerdeAttrView),
    /// A complaint: a tag without its content, or a content without
    /// its tag.
    Refused(Seq<char>),
    /// Nothing of interest.
    Nothing,
}

/// The complaint about a tag that has no content.
pub open spec fn missing_content() -> Seq<char> {
    "Missing `content` attribute with `tag`."@
}

/// The complaint about a content that has no tag.
pub open spec fn missing_tag() -> Seq<char> {
    "Missing `tag` attribute with `content`."@
}

/// The text of a literal, if it is one.
pub open spec fn lit_text(lit: Lit) -> Option<Seq<char>> {
    match lit {
        Lit::Str(text) => Some(text@),
        Lit::Other => None,
    }
}

/// The text given to `key` by the first item from position `from` on
/// that is `key = ..`; `None` where there is no such item or its
/// value is no text.
pub open spec fn value_of(items: Seq<Nested>, key: Seq<char>, from: nat) -> Option<Seq<char>>
    decreases items.len() - from,
{
    if from >= items.len() {
        None
    } else {
        match items[from as int] {
            Nested::NameValue { path, lit } => if path@ == key {
                lit_text(lit)
            } else {
                value_of(items, key, from + 1)
            },
            Nested::Other => value_of(items, key, from + 1),
        }
    }
}

/// What one item of a list says. `rename_all = "style"` is a
/// renaming. `tag = "t"` is a tag and content with the content that
/// the list gives, which it must give; `content = "c"` likewise with
/// the tag.
pub open spec fn read_item(item: Nested, items: Seq<Nested>) -> Reading {
    match item {
        Nested::NameValue { path, lit } => match lit_text(lit) {
            Some(text) => if path@ == "rename_all"@ {
                Reading::Found(SerdeAttrView::RenameAll(text))
            } else if path@ == "tag"@ {
                match value_of(items, "content"@, 0) {
                    Some(content) => Reading::Found(SerdeAttrView::TagAndContent(text, content)),
                    None => Reading::Refused(missing_content()),
                }
            } else if path@ == "content"@ {
                match value_of(items, "tag"@, 0) {
                    Some(tag) => Reading::Found(SerdeAttrView::TagAndContent(tag, text)),
                    None => Reading::Refused(missing_tag()),
                }
            } else {
                Reading::Nothing
            },
            None => Reading::Nothing,
        },
        Nested::Other => Reading::Nothing,
    }
}

/// What a list says from position `from` on: what its first item
/// says that says anything.
pub open spec fn read_items(items: Seq<Nested>, from: nat) -> Reading
    decreases items.len() - from,
{
    if from >= items.len() {
        Reading::Nothing
    } else {
        match read_item(items[from as int], items) {
            Reading::Nothing => read_items(items, from + 1),
            reading => reading,
        }
    }
}

/// What an attribute says: a `serde(..)` list says what its items
/// say; any other attribute says nothing.
pub open spec fn read_attribute(attribute: Attribute) -> Reading {
    match attribute.meta {
        Some(Meta::List(items)) => if attribute.path@ == "serde"@ {
            read_items(items@, 0)
        } else {
            Reading::Nothing
        },
        _ => Reading::Nothing,
    }
}

/// What the first `n` attributes say together: the attributes found,
/// in order, or the first complaint.
pub open spec fn read_attributes(
    attributes: Seq<Attribute>,
    n: nat,
) -> Result<Seq<SerdeAttrView>, Seq<char>>
    decreases n,
{
    if n == 0 || n > attributes.len() {
        Ok(Seq::empty())
    } else {
        match read_attributes(attributes, (n - 1) as nat) {
            Ok(found) => match read_attribute(attributes[n - 1]) {
                Reading::Found(attr) => Ok(found.push(attr)),
                Reading::Refused(complaint) => Err(complaint),
                Reading::Nothing => Ok(found),
            },
            Err(complaint) => Err(complaint),
        }
    }
}

/// Once a complaint is raised, looking at more attributes changes
/// nothing.
pub proof fn lemma_complaint_stays(attributes: Seq<Attribute>, i: nat, n: nat)
    requires
        i <= n <= attributes.len(),
        read_attributes(attributes, i) is Err,
    ensures
        read_attributes(attributes, n) == read_attributes(attributes, i),
    decreases n,
{
    if i < n {
        lemma_complaint_stays(attributes, i, (n - 1) as nat);
    }
}

/// The text given to `key` by the first item that is `key = ..`.
pub fn find_value<'a>(items: &'a Vec<Nested>, key: &str) -> (value: Option<&'a String>)
    ensures
        value is Some <==> value_of(items@, key@, 0) is Some,
        value matches Some(text) ==> Some(text@) == value_of(items@, key@, 0),
{
    let mut i: usize = 0;
    while i < items.len()
        invariant
            0 <= i <= items.len(),
            value_of(items@, key@, 0) == value_of(items@, key@, i as nat),
        decreases items.len() - i,
    {
        match &items[i] {
            Nested::NameValue { path, lit } => {
                if same(path.as_str(), key) {
                    return match lit {
                        Lit::Str(text) => Some(text),
                        Lit::Other => None,
                    };
                }
            },
            Nested::Other => {},
        }
        i = i + 1;
    }
    None
}

/// What the items of a `serde(..)` list say.
pub fn read_list(items: &Vec<Nested>) -> (r: Result<Option<SerdeAttr>, String>)
    ensures
        match r {
            Ok(Some(attr)) => read_items(items@, 0) == Reading::Found(attr@),
            Ok(None) => read_items(items@, 0) == Reading::Nothing,
            Err(complaint) => read_items(items@, 0) == Reading::Refused(complaint@),
        },
{
    let mut i: usize = 0;
    while i < items.len()
        invariant
            0 <= i <= items.len(),
            read_items(items@, 0) == read_items(items@, i as nat),
        decreases items.len() - i,
    {
        match &items[i] {
            Nested::NameValue { path, lit: Lit::Str(text) } => {
                if same(path.as_str(), "rename_all") {
                    return Ok(Some(SerdeAttr::RenameAll(text.clone())));
                } else if same(path.as_str(), "tag") {
                    return match find_value(items, "content") {
                        Some(content) => Ok(
                            Some(SerdeAttr::TagAndContent(text.clone(), content.clone())),
                        ),
                        None => Err(String::from_str("Missing `content` attribute with `tag`.")),
                    };
                } else if same(path.as_str(), "content") {
                    return match find_value(items, "tag") {
                        Some(tag) => Ok(Some(SerdeAttr::TagAndContent(tag.clone(), text.clone()))),
                        None => Err(String::from_str("Missing `tag` attribute with `content`.")),
                    };
                }
            },
            _ => {},
        }
        i = i + 1;
    }
    Ok(None)
}

/// The renaming attributes among the attributes of a declaration, in
/// order. Fails with the first complaint: a tag without its content,
/// or a content without its tag.
pub fn get_serde_attrs(attrs: &Vec<Attribute>) -> (r: Result<Vec<SerdeAttr>, String>)
    ensures
        match r {
            Ok(found) => read_attributes(attrs@, attrs.len() as nat) == Ok::<
                Seq<SerdeAttrView>,
                Seq<char>,
            >(attr_views(found@)),
            Err(complaint) => read_attributes(attrs@, attrs.len() as nat) == Err::<
                Seq<SerdeAttrView>,
                Seq<char>,
            >(complaint@),
        },
{
    let mut found: Vec<SerdeAttr> = Vec::new();
    let mut i: usize = 0;
    assert(attr_views(found@) =~= Seq::<SerdeAttrView>::empty());
    while i < attrs.len()
        invariant
            0 <= i <= attrs.len(),
            read_attributes(attrs@, i as nat) == Ok::<Seq<SerdeAttrView>, Seq<char>>(
                attr_views(found@),
            ),
        decreases attrs.len() - i,
    {
        match &attrs[i].meta {
            Some(Meta::List(items)) => {
                if same(attrs[i].path.as_str(), "serde") {
                    match read_list(items) {
                        Ok(Some(attr)) => {
                            let ghost before = attr_views(found@);
                            found.push(attr);
                            assert(attr_views(found@) =~= before.push(attr@));
                        },
                        Ok(None) => {},
                        Err(complaint) => {
                            proof {
                                lemma_complaint_stays(attrs@, (i + 1) as nat, attrs.len() as nat);
                            }
                            return Err(complaint);
                        },
                    }
                }
            },
            _ => {},
        }
        i = i + 1;
    }
    Ok(found)
}

} // verus!
