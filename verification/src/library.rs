//! The library: the type registry, the loader and the declared
//! elements, and the generation of the whole output from them.
use vstd::prelude::*;
use vstd::string::*;
use crate::error::{unknown_type, Error};
use crate::function::{Function, FunctionModel};
use crate::loader::Loader;
use crate::ordered::{
    distinct, lemma_distinct_contains, lemma_distinct_no_duplicates, lemma_distinct_prefix, unique,
    OrderedSet,
};
use crate::source::Source;
use crate::text::{extend_texts, join, joined, push_text};
use crate::types::composite::descriptor_views;
use crate::types::{DescriptorModel, TypeDefinition, TypeDescriptor};

verus! {

/// What a library declares after its loader.
#[derive(Debug)]
pub enum LibraryElement {
    /// A wrapper around a native function.
    Function(Function),
    /// Source text that is written out as it is.
    Text(String),
}

/// The mathematical value of a [`LibraryElement`].
pub ghost enum ElementModel {
    Function(FunctionModel),
    Text(Seq<char>),
}

impl View for LibraryElement {
    type V = ElementModel;

    open spec fn view(&self) -> ElementModel {
        match self {
            LibraryElement::Function(function) => ElementModel::Function(function@),
            LibraryElement::Text(text) => ElementModel::Text(text@),
        }
    }
}

impl ElementModel {
    /// The first type name that the element refers to and `library`
    /// does not know, if there is one. Text refers to none.
    pub open spec fn unknown(self, library: LibraryModel) -> Option<Seq<char>> {
        match self {
            ElementModel::Function(function) => function.unknown(library),
            ElementModel::Text(_) => None,
        }
    }

    /// The entry of the element in the raw call table: functions have
    /// one, text has none.
    pub open spec fn entry(self, library: LibraryModel) -> Option<Seq<char>> {
        match self {
            ElementModel::Function(function) => Some(function.symbol_text(library)),
            ElementModel::Text(_) => None,
        }
    }

    /// The source of the element.
    pub open spec fn text(self, library: LibraryModel) -> Seq<char> {
        match self {
            ElementModel::Function(function) => function.text(library),
            ElementModel::Text(text) => text,
        }
    }
}

impl LibraryElement {
    /// The entry of the element in the raw call table of `library`, if
    /// it has one. Fails with [`Error::UnknownType`], naming the first
    /// type name that `library` does not know.
    pub fn symbol(&self, library: &Library) -> (r: Result<Option<String>, Error>)
        ensures
            r is Ok <==> self@.unknown(library@) is None,
            r matches Ok(entry) ==> match entry {
                Some(entry) => Some(entry@) == self@.entry(library@),
                None => self@.entry(library@) is None,
            },
            r matches Err(e) ==> e matches Error::UnknownType(name) && Some(name@) == self@.unknown(
                library@,
            ),
    {
        match self {
            LibraryElement::Function(function) => {
                match function.symbol(library) {
                    Ok(entry) => Ok(Some(entry)),
                    Err(e) => Err(e),
                }
            },
            LibraryElement::Text(_) => Ok(None),
        }
    }

    /// Writes the source of the element at the end of `source`; on
    /// failure, nothing.
    pub fn generate(&self, library: &Library, source: &mut Source) -> (r: Result<(), Error>)
        ensures
            r is Ok <==> self@.unknown(library@) is None,
            r is Ok ==> final(source)@ == old(source)@ + self@.text(library@),
            r is Err ==> final(source)@ == old(source)@,
            r matches Err(e) ==> e matches Error::UnknownType(name) && Some(name@) == self@.unknown(
                library@,
            ),
    {
        match self {
            LibraryElement::Function(function) => function.generate(library, source),
            LibraryElement::Text(text) => {
                source.write_str(text.as_str());
                Ok(())
            },
        }
    }
}

/// The registered types: names in order of first registration, and
/// the descriptor of each at the same position.
struct Registry {
    names: OrderedSet,
    types: Vec<TypeDescriptor>,
}

impl Registry {
    spec fn sound(&self) -> bool {
        &&& self.names@.len() == self.types@.len()
        &&& self.names@.no_duplicates()
    }

    fn new() -> (r: Self)
        ensures
            r.sound(),
            r.names@ == Seq::<Seq<char>>::empty(),
            descriptor_views(r.types@) == Seq::<DescriptorModel>::empty(),
    {
        let r = Self { names: OrderedSet::new(), types: Vec::new() };
        assert(descriptor_views(r.types@) =~= Seq::<DescriptorModel>::empty());
        r
    }

    fn insert(&mut self, name: &str, descriptor: TypeDescriptor)
        requires
            old(self).sound(),
        ensures
            final(self).sound(),
            old(self).names@.contains(name@) ==> final(self).names@ == old(self).names@
                && descriptor_views(final(self).types@) == descriptor_views(old(self).types@).update(
                old(self).names@.index_of(name@),
                descriptor@,
            ),
            !old(self).names@.contains(name@) ==> final(self).names@ == old(self).names@.push(name@)
                && descriptor_views(final(self).types@) == descriptor_views(old(self).types@).push(
                descriptor@,
            ),
    {
        let ghost names = self.names@;
        let ghost descriptors = descriptor_views(self.types@);
        match self.names.position(name) {
            Some(i) => {
                proof {
                    lemma_lookup(names, descriptors, i as int);
                    assert(names.index_of(name@) == i);
                }
                self.types.set(i, descriptor);
                assert(descriptor_views(self.types@) =~= descriptors.update(i as int, descriptor@));
            },
            None => {
                self.names.insert(String::from_str(name));
                self.types.push(descriptor);
                assert(descriptor_views(self.types@) =~= descriptors.push(descriptor@));
            },
        }
    }

    fn get(&self, name: &str) -> (found: Option<&TypeDescriptor>)
        requires
            self.sound(),
        ensures
            found is Some <==> self.names@.contains(name@),
            found matches Some(descriptor) ==> Some(descriptor@) == lookup(
                self.names@,
                descriptor_views(self.types@),
                name@,
            ),
    {
        match self.names.position(name) {
            Some(i) => {
                proof {
                    lemma_lookup(self.names@, descriptor_views(self.types@), i as int);
                }
                Some(&self.types[i])
            },
            None => None,
        }
    }
}

/// A library under construction.
pub struct Library {
    variable: String,
    registry: Registry,
    loader: Loader,
    elements: Vec<LibraryElement>,
}

/// The mathematical value of a [`Library`]: `names` are the registered
/// type names in order of first registration, and `descriptors` holds
/// the descriptor of each at the same position.
pub ghost struct LibraryModel {
    pub variable: Seq<char>,
    pub names: Seq<Seq<char>>,
    pub descriptors: Seq<DescriptorModel>,
    pub loader: Loader,
    pub elements: Seq<ElementModel>,
}

/// The elements in a list, each by its value.
pub open spec fn element_views(elements: Seq<LibraryElement>) -> Seq<ElementModel> {
    Seq::new(elements.len(), |i: int| elements[i]@)
}

/// The descriptor registered under `name`, if there is one.
pub open spec fn lookup(
    names: Seq<Seq<char>>,
    descriptors: Seq<DescriptorModel>,
    name: Seq<char>,
) -> Option<DescriptorModel> {
    if names.contains(name) {
        Some(descriptors[names.index_of(name)])
    } else {
        None
    }
}

/// Where no name occurs twice, a name is looked up at its one position.
pub proof fn lemma_lookup(names: Seq<Seq<char>>, descriptors: Seq<DescriptorModel>, i: int)
    requires
        0 <= i < names.len(),
        names.no_duplicates(),
    ensures
        lookup(names, descriptors, names[i]) == Some(descriptors[i]),
{
    assert(names.contains(names[i]));
    let j = names.index_of(names[i]);
    assert(0 <= j < names.len() && names[j] == names[i]);
}

impl LibraryModel {
    /// The library after `descriptor` is registered under `name`: a new
    /// name goes to the end; a known name keeps its place and gets the
    /// new descriptor.
    pub open spec fn registered(
        self,
        name: Seq<char>,
        descriptor: DescriptorModel,
    ) -> LibraryModel {
        if self.names.contains(name) {
            LibraryModel {
                descriptors: self.descriptors.update(self.names.index_of(name), descriptor),
                ..self
            }
        } else {
            LibraryModel {
                names: self.names.push(name),
                descriptors: self.descriptors.push(descriptor),
                ..self
            }
        }
    }

    /// The first type name that one of the first `n` elements refers
    /// to and the library does not know, if there is one.
    pub open spec fn unknown(self, n: nat) -> Option<Seq<char>>
        decreases n,
    {
        if n == 0 || n > self.elements.len() {
            None
        } else {
            match self.unknown((n - 1) as nat) {
                Some(name) => Some(name),
                None => self.elements[n - 1].unknown(self),
            }
        }
    }

    /// The call-table entries of the first `n` elements: one for each
    /// function, in order.
    pub open spec fn entries(self, n: nat) -> Seq<Seq<char>>
        decreases n,
    {
        if n == 0 || n > self.elements.len() {
            Seq::empty()
        } else {
            match self.elements[n - 1].entry(self) {
                Some(entry) => self.entries((n - 1) as nat).push(entry),
                None => self.entries((n - 1) as nat),
            }
        }
    }

    /// The raw call table: the entries of all functions as one object.
    pub open spec fn symbols_text(self) -> Seq<char> {
        "{ "@ + joined(self.entries(self.elements.len()), ", "@) + " }"@
    }

    /// The helpers that the first `n` registered types require, in
    /// registration order, with repetitions.
    pub open spec fn required(self, n: nat) -> Seq<Seq<char>>
        decreases n,
    {
        if n == 0 || n > self.descriptors.len() {
            Seq::empty()
        } else {
            self.required((n - 1) as nat) + self.descriptors[n - 1].converter.globals
        }
    }

    /// The helpers that the output holds: what the registered types
    /// require, each once, in order of first contribution.
    pub open spec fn helpers(self) -> Seq<Seq<char>> {
        distinct(self.required(self.descriptors.len()))
    }

    /// The first `n` of `helpers`, one after another, each as it is.
    pub open spec fn helpers_text(helpers: Seq<Seq<char>>, n: nat) -> Seq<char>
        decreases n,
    {
        if n == 0 || n > helpers.len() {
            Seq::empty()
        } else {
            Self::helpers_text(helpers, (n - 1) as nat) + helpers[n - 1]
        }
    }

    /// The text of the first `n` elements, in declaration order.
    pub open spec fn elements_text(self, n: nat) -> Seq<char>
        decreases n,
    {
        if n == 0 || n > self.elements.len() {
            Seq::empty()
        } else {
            self.elements_text((n - 1) as nat) + self.elements[n - 1].text(self)
        }
    }

    /// The whole output: the loader's bootstrap with the raw call
    /// table, then the helpers, then the elements.
    pub open spec fn text(self) -> Seq<char> {
        self.loader.text(self.variable, self.symbols_text()) + Self::helpers_text(
            self.helpers(),
            self.helpers().len(),
        ) + self.elements_text(self.elements.len())
    }
}

/// Once an element is found to refer to an unknown type, looking at
/// more elements changes nothing.
pub proof fn lemma_unknown_stays(library: LibraryModel, i: nat, n: nat)
    requires
        i <= n <= library.elements.len(),
        library.unknown(i) is Some,
    ensures
        library.unknown(n) == library.unknown(i),
    decreases n,
{
    if i < n {
        lemma_unknown_stays(library, i, (n - 1) as nat);
    }
}

/// Where none of the first `n` elements refers to an unknown type,
/// none of the first `i` does.
pub proof fn lemma_unknown_none(library: LibraryModel, i: nat, n: nat)
    requires
        i <= n <= library.elements.len(),
        library.unknown(n) is None,
    ensures
        library.unknown(i) is None,
        i < n ==> library.elements[i as int].unknown(library) is None,
    decreases n,
{
    if i < n {
        if i + 1 < n {
            lemma_unknown_none(library, i, (n - 1) as nat);
        }
    }
}

/// A helper is among those that the first `n` registered types
/// require exactly if one of these types requires it.
pub proof fn lemma_required_contains(library: LibraryModel, n: nat, helper: Seq<char>)
    requires
        n <= library.descriptors.len(),
    ensures
        library.required(n).contains(helper) <==> exists|i: int|
            0 <= i < n && (#[trigger] library.descriptors[i]).converter.globals.contains(helper),
    decreases n,
{
    if n > 0 {
        lemma_required_contains(library, (n - 1) as nat, helper);
        let before = library.required((n - 1) as nat);
        let last = library.descriptors[n - 1].converter.globals;
        if library.required(n).contains(helper) {
            let k = choose|k: int| 0 <= k < library.required(n).len() && library.required(n)[k] == helper;
            if k < before.len() {
                assert(before[k] == helper);
                assert(before.contains(helper));
            } else {
                assert(last[k - before.len()] == helper);
                assert(library.descriptors[n - 1].converter.globals.contains(helper));
            }
        }
        if exists|i: int|
            0 <= i < n && (#[trigger] library.descriptors[i]).converter.globals.contains(helper) {
            let i = choose|i: int|
                0 <= i < n && (#[trigger] library.descriptors[i]).converter.globals.contains(helper);
            if i < n - 1 {
                assert(before.contains(helper));
                let k = choose|k: int| 0 <= k < before.len() && before[k] == helper;
                assert(library.required(n)[k] == helper);
            } else {
                let k = choose|k: int| 0 <= k < last.len() && last[k] == helper;
                assert(library.required(n)[before.len() + k] == helper);
            }
        }
    }
}

/// However many registered types require a helper, the output holds
/// it once: no helper occurs twice in the output, and a helper is in
/// the output exactly if a registered type requires it.
pub proof fn lemma_helpers_once(library: LibraryModel, helper: Seq<char>)
    ensures
        library.helpers().no_duplicates(),
        library.helpers().contains(helper) <==> exists|i: int|
            0 <= i < library.descriptors.len() && (#[trigger] library.descriptors[i]).converter.globals.contains(
                helper,
            ),
{
    let required = library.required(library.descriptors.len());
    lemma_distinct_no_duplicates(required);
    lemma_distinct_contains(required, helper);
    lemma_required_contains(library, library.descriptors.len(), helper);
}

/// Registering more types never moves the helpers that are already
/// there: the helpers of the first `n` registered types, each once,
/// open the list of all helpers.
pub proof fn lemma_helpers_keep_order(library: LibraryModel, n: nat)
    requires
        n <= library.descriptors.len(),
    ensures
        distinct(library.required(n)).len() <= library.helpers().len(),
        library.helpers().take(distinct(library.required(n)).len() as int) == distinct(
            library.required(n),
        ),
    decreases library.descriptors.len() - n,
{
    let all = library.descriptors.len();
    if n < all {
        lemma_helpers_keep_order(library, n + 1);
        lemma_distinct_prefix(library.required(n), library.descriptors[n as int].converter.globals);
        let short = distinct(library.required(n));
        let longer = distinct(library.required(n + 1));
        assert(library.helpers().take(short.len() as int) =~= library.helpers().take(
            longer.len() as int,
        ).take(short.len() as int));
    } else {
        assert(library.helpers().take(library.helpers().len() as int) =~= library.helpers());
    }
}

/// Generation is a function of the library's value alone: two
/// libraries of the same value fail alike or give the same text.
pub proof fn lemma_generation_deterministic(first: Library, second: Library)
    requires
        first@ == second@,
    ensures
        first@.unknown(first@.elements.len()) == second@.unknown(second@.elements.len()),
        first@.text() == second@.text(),
{
}

impl View for Library {
    type V = LibraryModel;

    closed spec fn view(&self) -> LibraryModel {
        LibraryModel {
            variable: self.variable@,
            names: self.registry.names@,
            descriptors: descriptor_views(self.registry.types@),
            loader: self.loader,
            elements: element_views(self.elements@),
        }
    }
}

impl Library {
    /// Every name of the registry has its descriptor, and no name
    /// occurs twice.
    #[verifier::type_invariant]
    spec fn sound(&self) -> bool {
        self.registry.sound()
    }

    /// The variable that the generated source binds the native module
    /// to.
    pub fn variable(&self) -> (variable: &String)
        ensures
            variable@ == self@.variable,
    {
        &self.variable
    }

    /// An empty library bound to `variable`, or to `library` if none is
    /// given.
    pub fn new(variable: Option<&str>, loader: Loader) -> (l: Self)
        ensures
            l@.variable == match variable {
                Some(variable) => variable@,
                None => "library"@,
            },
            l@.names == Seq::<Seq<char>>::empty(),
            l@.descriptors == Seq::<DescriptorModel>::empty(),
            l@.loader == loader,
            l@.elements == Seq::<ElementModel>::empty(),
    {
        let variable = match variable {
            Some(variable) => String::from_str(variable),
            None => String::from_str("library"),
        };
        let l = Self { variable, registry: Registry::new(), loader, elements: Vec::new() };
        assert(l@.elements =~= Seq::<ElementModel>::empty());
        l
    }

    /// Registers `definition` under `name`. Fails with
    /// [`Error::UnsupportedLayout`], and registers nothing, exactly
    /// where the definition has no descriptor.
    pub fn register_type(&mut self, name: &str, definition: TypeDefinition) -> (r: Result<(), Error>)
        ensures
            r is Ok <==> definition@.describable(),
            r is Ok ==> final(self)@ == old(self)@.registered(name@, definition@.descriptor()),
            r is Err ==> final(self)@ == old(self)@,
            r matches Err(e) ==> e is UnsupportedLayout,
    {
        let descriptor = match TypeDescriptor::from(&definition) {
            Ok(descriptor) => descriptor,
            Err(e) => {
                return Err(e);
            },
        };
        proof {
            use_type_invariant(&*self);
        }
        let mut registry = Registry::new();
        core::mem::swap(&mut registry, &mut self.registry);
        registry.insert(name, descriptor);
        core::mem::swap(&mut registry, &mut self.registry);
        Ok(())
    }

    /// The descriptor registered under `name`. Fails with
    /// [`Error::UnknownType`] naming `name` exactly where nothing is
    /// registered under it.
    pub fn lookup_type(&self, name: &str) -> (r: Result<&TypeDescriptor, Error>)
        ensures
            r is Ok <==> self@.names.contains(name@),
            r matches Ok(descriptor) ==> Some(descriptor@) == lookup(
                self@.names,
                self@.descriptors,
                name@,
            ),
            r matches Err(e) ==> e matches Error::UnknownType(unknown) && unknown@ == name@,
    {
        proof {
            use_type_invariant(self);
        }
        match self.registry.get(name) {
            Some(descriptor) => Ok(descriptor),
            None => Err(unknown_type(name)),
        }
    }

    /// Puts `element` before all others.
    pub fn prepend(&mut self, element: LibraryElement)
        ensures
            final(self)@ == (LibraryModel {
                elements: seq![element@] + old(self)@.elements,
                ..old(self)@
            }),
    {
        proof {
            use_type_invariant(&*self);
        }
        let ghost before = self@.elements;
        let mut elements: Vec<LibraryElement> = Vec::new();
        core::mem::swap(&mut elements, &mut self.elements);
        elements.insert(0, element);
        core::mem::swap(&mut elements, &mut self.elements);
        assert(self@.elements =~= seq![element@] + before);
    }

    /// Puts `element` after all others.
    pub fn append(&mut self, element: LibraryElement)
        ensures
            final(self)@ == (LibraryModel { elements: old(self)@.elements.push(element@), ..old(self)@ }),
    {
        proof {
            use_type_invariant(&*self);
        }
        let ghost before = self@.elements;
        let mut elements: Vec<LibraryElement> = Vec::new();
        core::mem::swap(&mut elements, &mut self.elements);
        elements.push(element);
        core::mem::swap(&mut elements, &mut self.elements);
        assert(self@.elements =~= before.push(element@));
    }

    /// The raw call table. Fails with [`Error::UnknownType`], naming
    /// the first type name that a function refers to and the library
    /// does not know.
    pub fn symbols(&self) -> (r: Result<String, Error>)
        ensures
            r is Ok <==> self@.unknown(self@.elements.len()) is None,
            r matches Ok(s) ==> s@ == self@.symbols_text(),
            r matches Err(e) ==> e matches Error::UnknownType(name) && Some(name@) == self@.unknown(
                self@.elements.len(),
            ),
    {
        let n = self.elements.len();
        let mut entries: Vec<String> = Vec::new();
        let mut i: usize = 0;
        assert(entries.deep_view() =~= self@.entries(0));
        while i < n
            invariant
                0 <= i <= n,
                n == self.elements.len(),
                n == self@.elements.len(),
                self@.unknown(i as nat) is None,
                entries.deep_view() == self@.entries(i as nat),
            decreases n - i,
        {
            assert(self@.elements[i as int] == self.elements[i as int]@);
            match self.elements[i].symbol(self) {
                Ok(Some(entry)) => {
                    push_text(&mut entries, entry);
                },
                Ok(None) => {},
                Err(e) => {
                    proof {
                        lemma_unknown_stays(self@, (i + 1) as nat, n as nat);
                    }
                    return Err(e);
                },
            }
            i = i + 1;
        }
        let mut out = String::from_str("{ ");
        out.append(join(&entries, ", ").as_str());
        out.append(" }");
        Ok(out)
    }

    /// The helpers that the output holds: what the registered types
    /// require, each once, in order of first contribution.
    pub fn helpers(&self) -> (helpers: Vec<String>)
        ensures
            helpers.deep_view() == self@.helpers(),
    {
        let mut required: Vec<String> = Vec::new();
        let mut i: usize = 0;
        assert(required.deep_view() =~= self@.required(0));
        while i < self.registry.types.len()
            invariant
                0 <= i <= self.registry.types.len(),
                required.deep_view() == self@.required(i as nat),
            decreases self.registry.types.len() - i,
        {
            extend_texts(&mut required, &self.registry.types[i].converter.globals);
            i = i + 1;
        }
        unique(&required)
    }

    /// Generates the whole output: the loader's bootstrap, then the
    /// helpers, then the elements in declaration order. Fails with
    /// [`Error::UnknownType`], naming the first type name that a
    /// function refers to and the library does not know.
    pub fn generate(&self) -> (r: Result<Source, Error>)
        ensures
            r is Ok <==> self@.unknown(self@.elements.len()) is None,
            r matches Ok(source) ==> source@ == self@.text(),
            r matches Err(e) ==> e matches Error::UnknownType(name) && Some(name@) == self@.unknown(
                self@.elements.len(),
            ),
    {
        let symbols = match self.symbols() {
            Ok(symbols) => symbols,
            Err(e) => {
                return Err(e);
            },
        };
        let mut source = Source::new();
        source.write_str(self.loader.generate(self.variable.as_str(), symbols.as_str()).as_str());
        let ghost bootstrap = source@;
        assert(bootstrap =~= self@.loader.text(self@.variable, self@.symbols_text()));
        let helpers = self.helpers();
        let mut i: usize = 0;
        assert(source@ =~= bootstrap + LibraryModel::helpers_text(helpers.deep_view(), 0));
        while i < helpers.len()
            invariant
                0 <= i <= helpers.len(),
                helpers.deep_view() == self@.helpers(),
                source@ == bootstrap + LibraryModel::helpers_text(helpers.deep_view(), i as nat),
            decreases helpers.len() - i,
        {
            let ghost before = source@;
            source.write_str(helpers[i].as_str());
            assert(source@ =~= bootstrap + LibraryModel::helpers_text(
                helpers.deep_view(),
                (i + 1) as nat,
            )) by {
                assert(helpers.deep_view()[i as int] == helpers[i as int]@);
            }
            i = i + 1;
        }
        let ghost preamble = source@;
        let n = self.elements.len();
        let mut k: usize = 0;
        assert(source@ =~= preamble + self@.elements_text(0));
        while k < n
            invariant
                0 <= k <= n,
                n == self.elements.len(),
                n == self@.elements.len(),
                self@.unknown(n as nat) is None,
                source@ == preamble + self@.elements_text(k as nat),
            decreases n - k,
        {
            let ghost before = source@;
            assert(self@.elements[k as int] == self.elements[k as int]@);
            proof {
                lemma_unknown_none(self@, k as nat, n as nat);
            }
            match self.elements[k].generate(self, &mut source) {
                Ok(()) => {},
                Err(e) => {
                    return Err(e);
                },
            }
            assert(source@ =~= preamble + self@.elements_text((k + 1) as nat));
            k = k + 1;
        }
        Ok(source)
    }
}

} // verus!
