//! The bootstrap that locates the native module and binds the raw call
//! table.
use vstd::prelude::*;
use vstd::string::*;

pub mod deno;
pub mod plug;

use crate::loader::deno::DenoLoader;
use crate::loader::plug::PlugLoader;

verus! {

/// How the native module is located.
#[derive(Debug)]
pub enum Loader {
    /// By a path on the local machine.
    Deno(DenoLoader),
    /// By fetching it, with a cache.
    Plug(PlugLoader),
}

impl Loader {
    /// The bootstrap text for a library bound to `variable` whose raw
    /// call table is `symbols`.
    pub open spec fn text(&self, variable: Seq<char>, symbols: Seq<char>) -> Seq<char> {
        match self {
            Loader::Deno(loader) => loader.text(variable, symbols),
            Loader::Plug(loader) => loader.text(variable, symbols),
        }
    }

    /// Writes the bootstrap for a library bound to `variable` whose raw
    /// call table is `symbols`.
    pub fn generate(&self, variable: &str, symbols: &str) -> (s: String)
        ensures
            s@ == self.text(variable@, symbols@),
    {
        match self {
            Loader::Deno(loader) => loader.generate(variable, symbols),
            Loader::Plug(loader) => loader.generate(variable, symbols),
        }
    }
}

} // verus!
