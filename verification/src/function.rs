//! Functions: the wrappers around the raw symbols.
use vstd::prelude::*;
use vstd::string::*;
use crate::error::Error;
use crate::library::{lookup, Library, LibraryModel};
use crate::source::Source;
use crate::text::{
    boolean, boolean_string, decimal, decimal_string, fill, join, joined, push_text, substitute,
};
use crate::types::{DescriptorModel, NativeType, TypeDescriptor};

verus! {

/// The parameters of a function: type names, each with a name of its
/// own or by position only.
#[derive(Debug)]
pub enum FunctionParameters {
    Named(Vec<(String, String)>),
    Unnamed(Vec<String>),
}

/// A native function and the wrapper that exposes it.
#[derive(Debug)]
pub struct Function {
    symbol: String,
    name: String,
    docs: Option<String>,
    parameters: Vec<(String, String)>,
    result: String,
    nonblocking: bool,
    export: bool,
}

/// The mathematical value of a [`Function`]. Parameters are pairs of a
/// name and a type name; `result` is a type name.
pub ghost struct FunctionModel {
    pub symbol: Seq<char>,
    pub name: Seq<char>,
    pub docs: Option<Seq<char>>,
    pub parameters: Seq<(Seq<char>, Seq<char>)>,
    pub result: Seq<char>,
    pub nonblocking: bool,
    pub export: bool,
}

/// The name that a parameter gets where it was declared by position.
pub open spec fn parameter_name(index: nat) -> Seq<char> {
    "parameter"@ + decimal(index)
}

/// Pairs of texts, each by its value.
pub open spec fn pair_views(pairs: Seq<(String, String)>) -> Seq<(Seq<char>, Seq<char>)> {
    Seq::new(pairs.len(), |i: int| (pairs[i].0@, pairs[i].1@))
}

/// The parameters of a function as pairs of name and type name:
/// declared names are kept; positions are named `parameter0`,
/// `parameter1` and so on in declaration order.
pub open spec fn parameter_pairs(parameters: FunctionParameters) -> Seq<(Seq<char>, Seq<char>)> {
    match parameters {
        FunctionParameters::Named(pairs) => pair_views(pairs@),
        FunctionParameters::Unnamed(types) => Seq::new(
            types@.len(),
            |i: int| (parameter_name(i as nat), types@[i]@),
        ),
    }
}

impl FunctionModel {
    /// The type names that the function refers to: those of its
    /// parameters in order, then that of its result.
    pub open spec fn references(self) -> Seq<Seq<char>> {
        Seq::new(self.parameters.len(), |i: int| self.parameters[i].1).push(self.result)
    }

    /// The first type name of this function that `library` does not
    /// know, if there is one.
    pub open spec fn unknown(self, library: LibraryModel) -> Option<Seq<char>> {
        first_unknown(self.references(), library.names, self.references().len())
    }

    /// The descriptor that `library` holds for reference `i`.
    pub open spec fn resolved(self, library: LibraryModel, i: int) -> DescriptorModel {
        lookup(library.names, library.descriptors, self.references()[i])->0
    }

    /// The descriptor that `library` holds for the result.
    pub open spec fn resolved_result(self, library: LibraryModel) -> DescriptorModel {
        self.resolved(library, self.parameters.len() as int)
    }

    /// The native kinds of the parameters, each between quotes.
    pub open spec fn native_parameters(self, library: LibraryModel) -> Seq<Seq<char>> {
        Seq::new(
            self.parameters.len(),
            |i: int| "\""@ + self.resolved(library, i).native.name_text() + "\""@,
        )
    }

    /// The entry of the function in the raw call table: the native
    /// kinds of its parameters in declaration order, that of its
    /// result, and whether it blocks.
    pub open spec fn symbol_text(self, library: LibraryModel) -> Seq<char> {
        self.symbol + ": { parameters: ["@ + joined(self.native_parameters(library), ", "@)
            + "], result: \""@ + self.resolved_result(library).native.name_text()
            + "\", nonblocking: "@ + boolean(self.nonblocking) + " }"@
    }

    /// The parameters as the wrapper declares them: each name with the
    /// managed type of its parameter.
    pub open spec fn declared_parameters(self, library: LibraryModel) -> Seq<Seq<char>> {
        Seq::new(
            self.parameters.len(),
            |i: int| self.parameters[i].0 + ": "@ + self.resolved(library, i).converter.typescript,
        )
    }

    /// The arguments as the wrapper passes them on: each parameter
    /// through the template `into` of its type.
    pub open spec fn passed_arguments(self, library: LibraryModel) -> Seq<Seq<char>> {
        Seq::new(
            self.parameters.len(),
            |i: int| fill(self.resolved(library, i).converter.into, self.parameters[i].0),
        )
    }

    /// The call of the raw symbol through the bound call table.
    pub open spec fn call_text(self, library: LibraryModel) -> Seq<char> {
        library.variable + ".symbols."@ + self.symbol + "("@ + joined(
            self.passed_arguments(library),
            ", "@,
        ) + ")"@
    }

    /// The wrapper. The documentation, if any, stands above it as it
    /// is; `export` and `async` precede it where asked for; the
    /// declared result is a promise where the function does not block;
    /// the body passes the converted arguments to the raw symbol and
    /// converts what comes back, which it returns unless the result is
    /// void.
    pub open spec fn text(self, library: LibraryModel) -> Seq<char> {
        let result = self.resolved_result(library);
        (match self.docs {
            Some(docs) => docs + "\n"@,
            None => Seq::empty(),
        }) + (if self.export {
            "export "@
        } else {
            Seq::empty()
        }) + (if self.nonblocking {
            "async "@
        } else {
            Seq::empty()
        }) + "function "@ + self.name + "("@ + joined(self.declared_parameters(library), ", "@)
            + "): "@ + (if self.nonblocking {
            "Promise<"@ + result.converter.typescript + ">"@
        } else {
            result.converter.typescript
        }) + " {\n"@ + (if result.native != NativeType::Void {
            "return "@
        } else {
            Seq::empty()
        }) + fill(result.converter.from, self.call_text(library)) + ";\n}\n"@
    }
}

/// The first of the first `n` references that is not among `names`.
pub open spec fn first_unknown(
    references: Seq<Seq<char>>,
    names: Seq<Seq<char>>,
    n: nat,
) -> Option<Seq<char>>
    decreases n,
{
    if n == 0 || n > references.len() {
        None
    } else {
        match first_unknown(references, names, (n - 1) as nat) {
            Some(name) => Some(name),
            None => if names.contains(references[n - 1]) {
                None
            } else {
                Some(references[n - 1])
            },
        }
    }
}

impl View for Function {
    type V = FunctionModel;

    closed spec fn view(&self) -> FunctionModel {
        FunctionModel {
            symbol: self.symbol@,
            name: self.name@,
            docs: match self.docs {
                Some(docs) => Some(docs@),
                None => None,
            },
            parameters: pair_views(self.parameters@),
            result: self.result@,
            nonblocking: self.nonblocking,
            export: self.export,
        }
    }
}

impl Function {
    /// A function. `name` is how the wrapper is called; without it the
    /// wrapper goes by the symbol.
    pub fn new(
        symbol: &str,
        name: Option<&str>,
        docs: Option<&str>,
        parameters: FunctionParameters,
        result: &str,
        nonblocking: bool,
        export: bool,
    ) -> (f: Self)
        ensures
            f@.symbol == symbol@,
            f@.name == match name {
                Some(name) => name@,
                None => symbol@,
            },
            f@.docs == match docs {
                Some(docs) => Some(docs@),
                None => None,
            },
            f@.parameters == parameter_pairs(parameters),
            f@.result == result@,
            f@.nonblocking == nonblocking,
            f@.export == export,
    {
        let name = match name {
            Some(name) => String::from_str(name),
            None => String::from_str(symbol),
        };
        let docs = match docs {
            Some(docs) => Some(String::from_str(docs)),
            None => None,
        };
        let ghost declared = parameter_pairs(parameters);
        let parameters = match parameters {
            FunctionParameters::Named(pairs) => pairs,
            FunctionParameters::Unnamed(types) => {
                let mut pairs: Vec<(String, String)> = Vec::new();
                let mut i: usize = 0;
                assert(pair_views(pairs@) =~= declared.take(0));
                while i < types.len()
                    invariant
                        0 <= i <= types.len(),
                        declared == Seq::new(
                            types@.len(),
                            |i: int| (parameter_name(i as nat), types@[i]@),
                        ),
                        pair_views(pairs@) == declared.take(i as int),
                    decreases types.len() - i,
                {
                    let mut name = String::from_str("parameter");
                    name.append(decimal_string(i).as_str());
                    let ghost before = pairs@;
                    assert(before.len() == i) by {
                        assert(pair_views(before).len() == declared.take(i as int).len());
                    }
                    pairs.push((name, types[i].clone()));
                    assert forall|k: int| 0 <= k <= i implies pair_views(pairs@)[k] == declared[k] by {
                        if k < i {
                            assert(pair_views(before)[k] == declared.take(i as int)[k]);
                        }
                    }
                    assert(pair_views(pairs@) =~= declared.take(i + 1));
                    i = i + 1;
                }
                assert(declared.take(types.len() as int) =~= declared);
                pairs
            },
        };
        Self {
            symbol: String::from_str(symbol),
            name,
            docs,
            parameters,
            result: String::from_str(result),
            nonblocking,
            export,
        }
    }

    /// The descriptors of the parameters in order, then that of the
    /// result. Fails with [`Error::UnknownType`], naming the first
    /// type name that `library` does not know.
    pub fn resolve<'a>(&self, library: &'a Library) -> (r: Result<Vec<&'a TypeDescriptor>, Error>)
        ensures
            r is Ok <==> self@.unknown(library@) is None,
            r matches Ok(found) ==> found.len() == self@.references().len() && forall|i: int|
                0 <= i < found.len() ==> (#[trigger] found[i])@ == self@.resolved(library@, i),
            r matches Err(e) ==> e matches Error::UnknownType(name) && Some(name@) == self@.unknown(
                library@,
            ),
    {
        let ghost references = self@.references();
        let ghost names = library@.names;
        let mut found: Vec<&'a TypeDescriptor> = Vec::new();
        let n = self.parameters.len();
        let mut i: usize = 0;
        while i < n
            invariant
                0 <= i <= n,
                n == self.parameters.len(),
                references == self@.references(),
                names == library@.names,
                found.len() == i,
                first_unknown(references, names, i as nat) is None,
                forall|k: int| 0 <= k < i ==> (#[trigger] found[k])@ == self@.resolved(library@, k),
            decreases n - i,
        {
            assert(references[i as int] == self.parameters[i as int].1@);
            match library.lookup_type(self.parameters[i].1.as_str()) {
                Ok(descriptor) => {
                    found.push(descriptor);
                },
                Err(e) => {
                    assert(first_unknown(references, names, (i + 1) as nat) == Some(
                        references[i as int],
                    ));
                    proof {
                        lemma_first_unknown_stays(references, names, (i + 1) as nat, (n + 1) as nat);
                    }
                    return Err(e);
                },
            }
            i = i + 1;
        }
        assert(references[n as int] == self.result@);
        match library.lookup_type(self.result.as_str()) {
            Ok(descriptor) => {
                found.push(descriptor);
                Ok(found)
            },
            Err(e) => Err(e),
        }
    }

    /// The entry of the function in the raw call table of `library`.
    /// Fails with [`Error::UnknownType`], naming the first type name
    /// that `library` does not know.
    pub fn symbol(&self, library: &Library) -> (r: Result<String, Error>)
        ensures
            r is Ok <==> self@.unknown(library@) is None,
            r matches Ok(s) ==> s@ == self@.symbol_text(library@),
            r matches Err(e) ==> e matches Error::UnknownType(name) && Some(name@) == self@.unknown(
                library@,
            ),
    {
        let found = match self.resolve(library) {
            Ok(found) => found,
            Err(e) => {
                return Err(e);
            },
        };
        let n = self.parameters.len();
        let mut natives: Vec<String> = Vec::new();
        let mut i: usize = 0;
        assert(natives.deep_view() =~= self@.native_parameters(library@).take(0));
        while i < n
            invariant
                0 <= i <= n,
                n == self.parameters.len(),
                found.len() == n + 1,
                forall|k: int| 0 <= k < found.len() ==> (#[trigger] found[k])@ == self@.resolved(library@, k),
                natives.deep_view() == self@.native_parameters(library@).take(i as int),
            decreases n - i,
        {
            let mut native = String::from_str("\"");
            native.append(found[i].native.name().as_str());
            native.append("\"");
            push_text(&mut natives, native);
            assert(natives.deep_view() =~= self@.native_parameters(library@).take(i + 1));
            i = i + 1;
        }
        assert(self@.native_parameters(library@).take(n as int) =~= self@.native_parameters(library@));
        let mut out = self.symbol.clone();
        out.append(": { parameters: [");
        out.append(join(&natives, ", ").as_str());
        out.append("], result: \"");
        out.append(found[n].native.name().as_str());
        out.append("\", nonblocking: ");
        out.append(boolean_string(self.nonblocking).as_str());
        out.append(" }");
        Ok(out)
    }

    /// The wrapper, with type names resolved in `library`. Fails with
    /// [`Error::UnknownType`], naming the first type name that
    /// `library` does not know.
    pub fn text(&self, library: &Library) -> (r: Result<String, Error>)
        ensures
            r is Ok <==> self@.unknown(library@) is None,
            r matches Ok(s) ==> s@ == self@.text(library@),
            r matches Err(e) ==> e matches Error::UnknownType(name) && Some(name@) == self@.unknown(
                library@,
            ),
    {
        let found = match self.resolve(library) {
            Ok(found) => found,
            Err(e) => {
                return Err(e);
            },
        };
        let n = self.parameters.len();
        let result = found[n];
        let mut declared: Vec<String> = Vec::new();
        let mut passed: Vec<String> = Vec::new();
        let mut i: usize = 0;
        assert(declared.deep_view() =~= self@.declared_parameters(library@).take(0));
        assert(passed.deep_view() =~= self@.passed_arguments(library@).take(0));
        while i < n
            invariant
                0 <= i <= n,
                n == self.parameters.len(),
                found.len() == n + 1,
                forall|k: int| 0 <= k < found.len() ==> (#[trigger] found[k])@ == self@.resolved(library@, k),
                declared.deep_view() == self@.declared_parameters(library@).take(i as int),
                passed.deep_view() == self@.passed_arguments(library@).take(i as int),
            decreases n - i,
        {
            let mut parameter = self.parameters[i].0.clone();
            parameter.append(": ");
            parameter.append(found[i].converter.typescript.as_str());
            push_text(&mut declared, parameter);
            push_text(
                &mut passed,
                substitute(found[i].converter.into.as_str(), self.parameters[i].0.as_str()),
            );
            assert(declared.deep_view() =~= self@.declared_parameters(library@).take(i + 1));
            assert(passed.deep_view() =~= self@.passed_arguments(library@).take(i + 1));
            i = i + 1;
        }
        assert(self@.declared_parameters(library@).take(n as int) =~= self@.declared_parameters(
            library@,
        ));
        assert(self@.passed_arguments(library@).take(n as int) =~= self@.passed_arguments(library@));
        let mut call = library.variable().clone();
        call.append(".symbols.");
        call.append(self.symbol.as_str());
        call.append("(");
        call.append(join(&passed, ", ").as_str());
        call.append(")");
        assert(call@ == self@.call_text(library@));
        let mut out = match &self.docs {
            Some(docs) => docs.clone().concat("\n"),
            None => String::new(),
        };
        if self.export {
            out.append("export ");
        } else {
            assert(out@ + Seq::<char>::empty() == out@);
        }
        if self.nonblocking {
            out.append("async ");
        } else {
            assert(out@ + Seq::<char>::empty() == out@);
        }
        out.append("function ");
        out.append(self.name.as_str());
        out.append("(");
        out.append(join(&declared, ", ").as_str());
        out.append("): ");
        if self.nonblocking {
            let mut promise = String::from_str("Promise<");
            promise.append(result.converter.typescript.as_str());
            promise.append(">");
            out.append(promise.as_str());
        } else {
            out.append(result.converter.typescript.as_str());
        }
        out.append(" {\n");
        if result.returns_value() {
            out.append("return ");
        } else {
            assert(out@ + Seq::<char>::empty() == out@);
        }
        out.append(substitute(result.converter.from.as_str(), call.as_str()).as_str());
        out.append(";\n}\n");
        Ok(out)
    }

    /// Writes the wrapper at the end of `source`; on failure, nothing.
    pub fn generate(&self, library: &Library, source: &mut Source) -> (r: Result<(), Error>)
        ensures
            r is Ok <==> self@.unknown(library@) is None,
            r is Ok ==> final(source)@ == old(source)@ + self@.text(library@),
            r is Err ==> final(source)@ == old(source)@,
            r matches Err(e) ==> e matches Error::UnknownType(name) && Some(name@) == self@.unknown(
                library@,
            ),
    {
        match self.text(library) {
            Ok(text) => {
                source.write_str(text.as_str());
                Ok(())
            },
            Err(e) => Err(e),
        }
    }
}

/// Once a reference is found unknown, looking at more references
/// changes nothing.
pub proof fn lemma_first_unknown_stays(
    references: Seq<Seq<char>>,
    names: Seq<Seq<char>>,
    i: nat,
    n: nat,
)
    requires
        i <= n <= references.len(),
        first_unknown(references, names, i) is Some,
    ensures
        first_unknown(references, names, n) == first_unknown(references, names, i),
    decreases n,
{
    if i < n {
        lemma_first_unknown_stays(references, names, i, (n - 1) as nat);
    }
}

} // verus!
