//! The text that every emitter writes into.
use vstd::prelude::*;
use vstd::string::*;

verus! {

/// Generated source: text that only grows at its end.
#[derive(Debug)]
pub struct Source(String);

impl View for Source {
    type V = Seq<char>;

    closed spec fn view(&self) -> Seq<char> {
        self.0@
    }
}

impl Source {
    /// An empty source.
    pub fn new() -> (s: Self)
        ensures
            s@ == Seq::<char>::empty(),
    {
        Self(String::new())
    }

    /// The text written so far.
    pub fn read(&self) -> (text: String)
        ensures
            text@ == self@,
    {
        self.0.clone()
    }

    /// Writes `text` at the end.
    pub fn write_str(&mut self, text: &str)
        ensures
            final(self)@ == old(self)@ + text@,
    {
        self.0.append(text);
    }

    /// Writes one character at the end.
    pub fn write_char(&mut self, c: char)
        ensures
            final(self)@ == old(self)@.push(c),
    {
        self.0.push(c);
    }
}

} // verus!
