//! Generating bindings from an inventory.
use vstd::prelude::*;

pub mod deno;

use crate::ir::codegen::deno::{generated_text, Codegen};
use crate::ir::inventory::{inventory_views, Inventory};

verus! {

/// What to generate and how.
#[derive(Debug)]
pub struct Options {
    pub target: Target,
    /// Where the caller writes the bindings; standard output if `None`.
    pub out: Option<String>,
    /// Where the native library lies.
    pub local_dylib_path: String,
    /// Whether the bindings load the library on demand.
    pub lazy_init: bool,
}

/// The runtime that bindings are generated for.
#[derive(Clone, Copy, Debug, PartialEq, Eq, Structural)]
pub enum Target {
    Deno,
}

/// Something that generates source text.
pub trait Generator {
    /// The generated text.
    fn generate(&self) -> String;
}

/// The bindings for `symbols` under the options `opt`.
pub fn generate(symbols: &[Inventory], opt: &Options) -> (text: String)
    ensures
        text@ == generated_text(inventory_views(symbols@), opt.local_dylib_path@, opt.lazy_init),
{
    match opt.target {
        Target::Deno => {
            let codegen = Codegen::new(symbols, opt.local_dylib_path.as_str(), opt.lazy_init);
            codegen.text()
        },
    }
}

} // verus!
