//! Loading the native module from a local path.
use vstd::prelude::*;
use vstd::string::*;

verus! {

/// Locates the native module by a file name.
#[derive(Debug)]
pub struct DenoLoader {
    pub filename: String,
    pub export: bool,
}

impl DenoLoader {
    /// A loader for the module at `filename`; `export` makes the bound
    /// library visible to importers.
    pub fn new(export: bool, filename: &str) -> (l: Self)
        ensures
            l.export == export,
            l.filename@ == filename@,
    {
        Self { export, filename: String::from_str(filename) }
    }

    /// The bootstrap: one binding of `variable` to the prepared module.
    pub open spec fn text(&self, variable: Seq<char>, symbols: Seq<char>) -> Seq<char> {
        (if self.export {
            "export "@
        } else {
            Seq::empty()
        }) + "const "@ + variable + " = await Plug.prepare(\""@ + self.filename@ + "\", "@ + symbols
            + ");\n"@
    }

    /// Writes the bootstrap.
    pub fn generate(&self, variable: &str, symbols: &str) -> (s: String)
        ensures
            s@ == self.text(variable@, symbols@),
    {
        let mut out = if self.export {
            String::from_str("export ")
        } else {
            String::new()
        };
        out.append("const ");
        out.append(variable);
        out.append(" = await Plug.prepare(\"");
        out.append(self.filename.as_str());
        out.append("\", ");
        out.append(symbols);
        out.append(");\n");
        out
    }
}

} // verus!
