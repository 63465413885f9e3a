//! Documentation comments carried over to the generated source.
use vstd::prelude::*;
use vstd::string::*;
use crate::macros::syntax::{Attribute, Lit, Meta};
use crate::text::{join, joined, push_text, same};

verus! {

/// The line of documentation that an attribute holds: the text of a
/// `doc = "text"` attribute.
pub open spec fn doc_line(attribute: Attribute) -> Option<Seq<char>> {
    match attribute.meta {
        Some(Meta::NameValue(Lit::Str(text))) => if attribute.path@ == "doc"@ {
            Some(text@)
        } else {
            None
        },
        _ => None,
    }
}

/// The lines of documentation among the first `n` attributes, in
/// order.
pub open spec fn doc_lines(attributes: Seq<Attribute>, n: nat) -> Seq<Seq<char>>
    decreases n,
{
    if n == 0 || n > attributes.len() {
        Seq::empty()
    } else {
        match doc_line(attributes[n - 1]) {
            Some(line) => doc_lines(attributes, (n - 1) as nat).push(line),
            None => doc_lines(attributes, (n - 1) as nat),
        }
    }
}

/// The documentation comment of the given lines: nothing for no
/// lines, else one block comment with a line for each.
pub open spec fn docs_text(lines: Seq<Seq<char>>) -> Seq<char> {
    if lines.len() > 0 {
        "/**\n  *"@ + joined(lines, "\n  *"@) + "\n  **/\n"@
    } else {
        Seq::empty()
    }
}

/// The documentation comment of the given lines.
pub fn format_docs(lines: &Vec<String>) -> (s: String)
    ensures
        s@ == docs_text(lines.deep_view()),
{
    if lines.len() > 0 {
        let mut out = String::from_str("/**\n  *");
        out.append(join(lines, "\n  *").as_str());
        out.append("\n  **/\n");
        out
    } else {
        String::new()
    }
}

/// The documentation comment that the attributes of a declaration
/// amount to.
pub fn get_docs(attrs: &Vec<Attribute>) -> (s: String)
    ensures
        s@ == docs_text(doc_lines(attrs@, attrs.len() as nat)),
{
    let mut doc: Vec<String> = Vec::new();
    let mut i: usize = 0;
    assert(doc.deep_view() =~= doc_lines(attrs@, 0));
    while i < attrs.len()
        invariant
            0 <= i <= attrs.len(),
            doc.deep_view() == doc_lines(attrs@, i as nat),
        decreases attrs.len() - i,
    {
        match &attrs[i].meta {
            Some(Meta::NameValue(Lit::Str(text))) => {
                if same(attrs[i].path.as_str(), "doc") {
                    push_text(&mut doc, text.clone());
                }
            },
            _ => {},
        }
        i = i + 1;
    }
    format_docs(&doc)
}

} // verus!
