//! The input document: a whole library described as plain data.
use vstd::prelude::*;
use vstd::string::*;
use crate::error::Error;
use crate::function::{parameter_pairs, Function, FunctionModel, FunctionParameters};
use crate::library::{ElementModel, Library, LibraryElement, LibraryModel};
use crate::loader::deno::DenoLoader;
use crate::loader::plug::PlugLoader;
use crate::loader::Loader;
use crate::ordered::OrderedSet;
use crate::text::push_text;
use crate::types::TypeDefinition;

verus! {

/// A library as the input document describes it. Types are pairs of a
/// name and a definition, functions pairs of a symbol and a
/// description, both in the order of the document; no name and no
/// symbol may occur twice.
#[derive(Debug)]
pub struct SerdeLibrary {
    pub variable: Option<String>,
    pub loader: SerdeLoader,
    pub types: Vec<(String, TypeDefinition)>,
    pub functions: Vec<(String, SerdeFunction)>,
}

/// The loader as the input document describes it.
#[derive(Debug)]
pub enum SerdeLoader {
    Deno(DenoLoader),
    Plug(PlugLoader),
}

/// A function as the input document describes it, under its symbol.
#[derive(Debug)]
pub struct SerdeFunction {
    pub name: Option<String>,
    pub docs: Option<String>,
    pub parameters: FunctionParameters,
    pub result: String,
    pub nonblocking: bool,
    pub export: bool,
}

/// The first of the first `n` names that repeats a name before it.
pub open spec fn first_repeated(names: Seq<Seq<char>>, n: nat) -> Option<Seq<char>>
    decreases n,
{
    if n == 0 || n > names.len() {
        None
    } else {
        match first_repeated(names, (n - 1) as nat) {
            Some(name) => Some(name),
            None => if names.take(n - 1).contains(names[n - 1]) {
                Some(names[n - 1])
            } else {
                None
            },
        }
    }
}

/// No name is found repeated exactly where no name occurs twice.
pub proof fn lemma_first_repeated(names: Seq<Seq<char>>, n: nat)
    requires
        n <= names.len(),
    ensures
        first_repeated(names, n) is None <==> names.take(n as int).no_duplicates(),
    decreases n,
{
    if n > 0 {
        lemma_first_repeated(names, (n - 1) as nat);
        let shorter = names.take(n - 1);
        let longer = names.take(n as int);
        assert(shorter =~= longer.take(n - 1));
        if first_repeated(names, n) is None {
            assert forall|i: int, j: int| 0 <= i < j < n implies longer[i] != longer[j] by {
                if j < n - 1 {
                    assert(shorter[i] != shorter[j]);
                } else {
                    if longer[i] == longer[j] {
                        assert(shorter[i] == names[n - 1]);
                        assert(shorter.contains(names[n - 1]));
                    }
                }
            }
        }
        if longer.no_duplicates() {
            assert forall|i: int, j: int| 0 <= i < j < n - 1 implies shorter[i] != shorter[j] by {
                assert(longer[i] != longer[j]);
            }
            if shorter.contains(names[n - 1]) {
                let i = choose|i: int| 0 <= i < shorter.len() && shorter[i] == names[n - 1];
                assert(longer[i] == longer[n - 1]);
            }
        }
    }
}

impl SerdeLoader {
    /// The loader that this describes.
    pub open spec fn loader_model(self) -> Loader {
        match self {
            SerdeLoader::Deno(loader) => Loader::Deno(loader),
            SerdeLoader::Plug(loader) => Loader::Plug(loader),
        }
    }

    /// The loader that this describes.
    pub fn into_loader(self) -> (loader: Loader)
        ensures
            loader == self.loader_model(),
    {
        match self {
            SerdeLoader::Deno(loader) => Loader::Deno(loader),
            SerdeLoader::Plug(loader) => Loader::Plug(loader),
        }
    }
}

impl SerdeFunction {
    /// The function that this describes under `symbol`.
    pub open spec fn function_model(self, symbol: Seq<char>) -> FunctionModel {
        FunctionModel {
            symbol,
            name: match self.name {
                Some(name) => name@,
                None => symbol,
            },
            docs: match self.docs {
                Some(docs) => Some(docs@),
                None => None,
            },
            parameters: parameter_pairs(self.parameters),
            result: self.result@,
            nonblocking: self.nonblocking,
            export: self.export,
        }
    }

    /// The function that this describes under `symbol`.
    pub fn into_function(self, symbol: &str) -> (function: Function)
        ensures
            function@ == self.function_model(symbol@),
    {
        let name = match &self.name {
            Some(name) => Some(name.as_str()),
            None => None,
        };
        let docs = match &self.docs {
            Some(docs) => Some(docs.as_str()),
            None => None,
        };
        Function::new(
            symbol,
            name,
            docs,
            self.parameters,
            self.result.as_str(),
            self.nonblocking,
            self.export,
        )
    }
}

impl SerdeLibrary {
    /// The names of the types, in the order of the document.
    pub open spec fn type_names(&self) -> Seq<Seq<char>> {
        Seq::new(self.types@.len(), |i: int| self.types@[i].0@)
    }

    /// The symbols of the functions, in the order of the document.
    pub open spec fn symbols(&self) -> Seq<Seq<char>> {
        Seq::new(self.functions@.len(), |i: int| self.functions@[i].0@)
    }

    /// The name or symbol that makes the document invalid: the first
    /// type name that repeats an earlier one, else the first such
    /// symbol.
    pub open spec fn repeated(&self) -> Option<Seq<char>> {
        match first_repeated(self.type_names(), self.type_names().len()) {
            Some(name) => Some(name),
            None => first_repeated(self.symbols(), self.symbols().len()),
        }
    }

    /// Whether every type of the document has a descriptor.
    pub open spec fn describable(&self) -> bool {
        forall|i: int| 0 <= i < self.types@.len() ==> (#[trigger] self.types@[i]).1@.describable()
    }

    /// The library that the document describes: its types registered
    /// and its functions appended, both in the order of the document.
    pub open spec fn library_model(&self) -> LibraryModel {
        LibraryModel {
            variable: match self.variable {
                Some(variable) => variable@,
                None => "library"@,
            },
            names: self.type_names(),
            descriptors: Seq::new(self.types@.len(), |i: int| self.types@[i].1@.descriptor()),
            loader: self.loader.loader_model(),
            elements: Seq::new(
                self.functions@.len(),
                |i: int| ElementModel::Function(self.functions@[i].1.function_model(self.functions@[i].0@)),
            ),
        }
    }

    /// Checks that none of `names` occurs twice; if one does, gives the
    /// first that repeats an earlier one.
    fn check_unique(names: &Vec<String>) -> (repeated: Option<String>)
        ensures
            repeated is Some <==> first_repeated(names.deep_view(), names.len() as nat) is Some,
            repeated matches Some(name) ==> Some(name@) == first_repeated(
                names.deep_view(),
                names.len() as nat,
            ),
    {
        let ghost all = names.deep_view();
        let mut seen = OrderedSet::new();
        let mut i: usize = 0;
        assert(seen@ =~= all.take(0));
        while i < names.len()
            invariant
                0 <= i <= names.len(),
                all == names.deep_view(),
                seen@ == all.take(i as int),
                first_repeated(all, i as nat) is None,
            decreases names.len() - i,
        {
            assert(all[i as int] == names[i as int]@);
            if !seen.insert(names[i].clone()) {
                proof {
                    lemma_repeated_stays(all, (i + 1) as nat, names.len() as nat);
                }
                return Some(names[i].clone());
            }
            assert(seen@ =~= all.take(i + 1));
            i = i + 1;
        }
        None
    }

    /// Builds the library that the document describes. Fails with
    /// [`Error::InvalidIR`], naming the repeated name, exactly where a
    /// type name or a symbol occurs twice; else with
    /// [`Error::UnsupportedLayout`] exactly where a type has no
    /// descriptor.
    pub fn into_library(self) -> (r: Result<Library, Error>)
        ensures
            r is Ok <==> self.repeated() is None && self.describable(),
            r matches Ok(library) ==> library@ == self.library_model(),
            r matches Err(e) ==> match e {
                Error::InvalidIR(name) => Some(name@) == self.repeated(),
                Error::UnsupportedLayout => self.repeated() is None,
                Error::UnknownType(_) => false,
            },
    {
        let ghost model = self.library_model();
        let ghost type_names = self.type_names();
        let ghost symbols = self.symbols();
        let ghost types = self.types@;
        let ghost functions = self.functions@;
        let mut names: Vec<String> = Vec::new();
        let mut i: usize = 0;
        assert(names.deep_view() =~= type_names.take(0));
        while i < self.types.len()
            invariant
                0 <= i <= self.types.len(),
                type_names == self.type_names(),
                names.deep_view() == type_names.take(i as int),
            decreases self.types.len() - i,
        {
            push_text(&mut names, self.types[i].0.clone());
            assert(names.deep_view() =~= type_names.take(i + 1));
            i = i + 1;
        }
        assert(type_names.take(self.types.len() as int) =~= type_names);
        match Self::check_unique(&names) {
            Some(name) => {
                return Err(Error::InvalidIR(name));
            },
            None => {},
        }
        let mut entries: Vec<String> = Vec::new();
        let mut k: usize = 0;
        assert(entries.deep_view() =~= symbols.take(0));
        while k < self.functions.len()
            invariant
                0 <= k <= self.functions.len(),
                symbols == self.symbols(),
                entries.deep_view() == symbols.take(k as int),
            decreases self.functions.len() - k,
        {
            push_text(&mut entries, self.functions[k].0.clone());
            assert(entries.deep_view() =~= symbols.take(k + 1));
            k = k + 1;
        }
        assert(symbols.take(self.functions.len() as int) =~= symbols);
        match Self::check_unique(&entries) {
            Some(symbol) => {
                return Err(Error::InvalidIR(symbol));
            },
            None => {},
        }
        proof {
            lemma_first_repeated(type_names, type_names.len());
            assert(type_names.take(type_names.len() as int) =~= type_names);
        }
        let SerdeLibrary { variable, loader, types: declared, functions: described } = self;
        let variable = match &variable {
            Some(variable) => Some(variable.as_str()),
            None => None,
        };
        let mut library = Library::new(variable, loader.into_loader());
        assert(library@.names =~= type_names.take(0));
        assert(library@.descriptors =~= model.descriptors.take(0));
        for pair in iter: declared
            invariant
                iter.seq() == types,
                types == self.types@,
                self.repeated() is None,
                type_names == Seq::new(types.len(), |i: int| types[i].0@),
                type_names.no_duplicates(),
                model.descriptors == Seq::new(types.len(), |i: int| types[i].1@.descriptor()),
                forall|i: int| 0 <= i < iter.index() ==> (#[trigger] types[i]).1@.describable(),
                library@.variable == model.variable,
                library@.loader == model.loader,
                library@.elements == Seq::<ElementModel>::empty(),
                library@.names == type_names.take(iter.index()),
                library@.descriptors == model.descriptors.take(iter.index()),
        {
            let ghost done = iter.index();
            let (name, definition) = pair;
            proof {
                if type_names.take(done).contains(name@) {
                    let j = choose|j: int| 0 <= j < done && type_names.take(done)[j] == name@;
                    assert(type_names[j] == type_names[done]);
                }
            }
            match library.register_type(name.as_str(), definition) {
                Ok(()) => {},
                Err(e) => {
                    assert(!types[done].1@.describable());
                    return Err(e);
                },
            }
            assert(library@.names =~= type_names.take(done + 1));
            assert(library@.descriptors =~= model.descriptors.take(done + 1));
        }
        assert(type_names.take(types.len() as int) =~= type_names);
        assert(model.descriptors.take(types.len() as int) =~= model.descriptors);
        assert(library@.elements =~= model.elements.take(0));
        for pair in iter: described
            invariant
                iter.seq() == functions,
                model.elements == Seq::new(
                    functions.len(),
                    |i: int| ElementModel::Function(functions[i].1.function_model(functions[i].0@)),
                ),
                library@.variable == model.variable,
                library@.loader == model.loader,
                library@.names == model.names,
                library@.descriptors == model.descriptors,
                library@.elements == model.elements.take(iter.index()),
        {
            let ghost added = iter.index();
            let (symbol, function) = pair;
            library.append(LibraryElement::Function(function.into_function(symbol.as_str())));
            assert(library@.elements =~= model.elements.take(added + 1));
        }
        assert(model.elements.take(functions.len() as int) =~= model.elements);
        Ok(library)
    }
}

/// Once a name is found repeated, looking at more names changes
/// nothing.
pub proof fn lemma_repeated_stays(names: Seq<Seq<char>>, i: nat, n: nat)
    requires
        i <= n <= names.len(),
        first_repeated(names, i) is Some,
    ensures
        first_repeated(names, n) == first_repeated(names, i),
    decreases n,
{
    if i < n {
        lemma_repeated_stays(names, i, (n - 1) as nat);
    }
}

} // verus!
