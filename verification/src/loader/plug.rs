//! Loading the native module by fetching it.
use vstd::prelude::*;
use vstd::string::*;
use crate::text::{boolean, boolean_string, join, joined, push_text};

verus! {

/// What to fetch: one of three descriptions.
#[derive(Debug)]
pub enum PlugLoaderOptions {
    Single(PlugLoaderSingleOptions),
    Cross(PlugLoaderCrossOptions),
    Url(PlugLoaderUrlOptions),
}

/// One address for each platform.
#[derive(Debug)]
pub struct PlugLoaderUrls {
    pub darwin: Option<String>,
    pub linux: Option<String>,
    pub windows: Option<String>,
}

/// Whether a fetched module is kept.
#[derive(Clone, Copy, Debug, PartialEq, Eq, Structural)]
pub enum PlugLoaderCachePolicy {
    /// Nothing is kept.
    NoCache,
    /// The module is stored.
    Store,
}

/// A name and one address for each platform.
#[derive(Debug)]
pub struct PlugLoaderCrossOptions {
    pub name: String,
    pub urls: PlugLoaderUrls,
    pub policy: Option<PlugLoaderCachePolicy>,
    pub cache: Option<String>,
    pub log: Option<bool>,
}

/// One address.
#[derive(Debug)]
pub struct PlugLoaderUrlOptions {
    pub url: String,
    pub policy: Option<PlugLoaderCachePolicy>,
    pub cache: Option<String>,
    pub log: Option<bool>,
}

/// A name and one address.
#[derive(Debug)]
pub struct PlugLoaderSingleOptions {
    pub name: String,
    pub url: String,
    pub policy: Option<PlugLoaderCachePolicy>,
    pub cache: Option<String>,
    pub log: Option<bool>,
}

/// Locates the native module by fetching it.
#[derive(Debug)]
pub struct PlugLoader {
    export: bool,
    import: String,
    options: PlugLoaderOptions,
}

/// Where the fetching library is imported from unless told otherwise.
pub open spec fn default_import_text() -> Seq<char> {
    "https://deno.land/x/plug/mod.ts"@
}

/// Where the fetching library is imported from unless told otherwise.
pub fn default_import() -> (s: String)
    ensures
        s@ == default_import_text(),
{
    String::from_str("https://deno.land/x/plug/mod.ts")
}

/// A property whose value is a quoted text.
pub open spec fn quoted_property(key: Seq<char>, value: Seq<char>) -> Seq<char> {
    key + ": \""@ + value + "\""@
}

/// A property whose value is written as it is.
pub open spec fn plain_property(key: Seq<char>, value: Seq<char>) -> Seq<char> {
    key + ": "@ + value
}

/// An object literal of the given properties.
pub open spec fn object_text(properties: Seq<Seq<char>>) -> Seq<char> {
    "{ "@ + joined(properties, ", "@) + " }"@
}

/// The properties that every description may end with: the cache
/// policy, the cache location and the verbosity, each if it is set.
pub open spec fn common_properties(
    policy: Option<PlugLoaderCachePolicy>,
    cache: Option<Seq<char>>,
    log: Option<bool>,
) -> Seq<Seq<char>> {
    (match policy {
        Some(policy) => seq![plain_property("policy"@, policy.text())],
        None => Seq::empty(),
    }) + (match cache {
        Some(cache) => seq![plain_property("cache"@, cache)],
        None => Seq::empty(),
    }) + (match log {
        Some(log) => seq![plain_property("log"@, boolean(log))],
        None => Seq::empty(),
    })
}

/// The view of an optional text.
pub open spec fn optional_text(text: Option<String>) -> Option<Seq<char>> {
    match text {
        Some(text) => Some(text@),
        None => None,
    }
}

fn quoted(key: &str, value: &str) -> (s: String)
    ensures
        s@ == quoted_property(key@, value@),
{
    let mut out = String::from_str(key);
    out.append(": \"");
    out.append(value);
    out.append("\"");
    out
}

fn plain(key: &str, value: &str) -> (s: String)
    ensures
        s@ == plain_property(key@, value@),
{
    let mut out = String::from_str(key);
    out.append(": ");
    out.append(value);
    out
}

fn object(properties: &Vec<String>) -> (s: String)
    ensures
        s@ == object_text(properties.deep_view()),
{
    let mut out = String::from_str("{ ");
    out.append(join(properties, ", ").as_str());
    out.append(" }");
    out
}

fn push_common(
    properties: &mut Vec<String>,
    policy: &Option<PlugLoaderCachePolicy>,
    cache: &Option<String>,
    log: &Option<bool>,
)
    ensures
        final(properties).deep_view() == old(properties).deep_view() + common_properties(
            *policy,
            optional_text(*cache),
            *log,
        ),
{
    let ghost before = properties.deep_view();
    match policy {
        Some(policy) => {
            push_text(properties, plain("policy", policy.generate().as_str()));
        },
        None => {},
    }
    match cache {
        Some(cache) => {
            push_text(properties, plain("cache", cache.as_str()));
        },
        None => {},
    }
    match log {
        Some(log) => {
            push_text(properties, plain("log", boolean_string(*log).as_str()));
        },
        None => {},
    }
    assert(properties.deep_view() =~= before + common_properties(
        *policy,
        optional_text(*cache),
        *log,
    ));
}

impl PlugLoaderCachePolicy {
    /// The policy as the fetching library names it.
    pub open spec fn text(self) -> Seq<char> {
        match self {
            PlugLoaderCachePolicy::NoCache => "Plug.CachePolicy.NONE"@,
            PlugLoaderCachePolicy::Store => "Plug.CachePolicy.STORE"@,
        }
    }

    /// Writes the policy as the fetching library names it.
    pub fn generate(&self) -> (s: String)
        ensures
            s@ == self.text(),
    {
        match self {
            PlugLoaderCachePolicy::NoCache => String::from_str("Plug.CachePolicy.NONE"),
            PlugLoaderCachePolicy::Store => String::from_str("Plug.CachePolicy.STORE"),
        }
    }
}

impl PlugLoaderUrls {
    /// The addresses as an object literal: one property for each
    /// platform that has an address.
    pub open spec fn text(&self) -> Seq<char> {
        object_text(
            (match self.darwin {
                Some(url) => seq![quoted_property("darwin"@, url@)],
                None => Seq::empty(),
            }) + (match self.linux {
                Some(url) => seq![quoted_property("linux"@, url@)],
                None => Seq::empty(),
            }) + (match self.windows {
                Some(url) => seq![quoted_property("windows"@, url@)],
                None => Seq::empty(),
            }),
        )
    }

    /// Writes the addresses as an object literal.
    pub fn generate(&self) -> (s: String)
        ensures
            s@ == self.text(),
    {
        let mut properties: Vec<String> = Vec::new();
        match &self.darwin {
            Some(url) => {
                push_text(&mut properties, quoted("darwin", url.as_str()));
            },
            None => {},
        }
        match &self.linux {
            Some(url) => {
                push_text(&mut properties, quoted("linux", url.as_str()));
            },
            None => {},
        }
        match &self.windows {
            Some(url) => {
                push_text(&mut properties, quoted("windows", url.as_str()));
            },
            None => {},
        }
        assert(properties.deep_view() =~= (match self.darwin {
            Some(url) => seq![quoted_property("darwin"@, url@)],
            None => Seq::empty(),
        }) + (match self.linux {
            Some(url) => seq![quoted_property("linux"@, url@)],
            None => Seq::empty(),
        }) + (match self.windows {
            Some(url) => seq![quoted_property("windows"@, url@)],
            None => Seq::empty(),
        }));
        object(&properties)
    }
}

impl PlugLoaderSingleOptions {
    /// The description as an object literal.
    pub open spec fn text(&self) -> Seq<char> {
        object_text(
            seq![quoted_property("name"@, self.name@), quoted_property("url"@, self.url@)]
                + common_properties(self.policy, optional_text(self.cache), self.log),
        )
    }

    /// Writes the description as an object literal.
    pub fn generate(&self) -> (s: String)
        ensures
            s@ == self.text(),
    {
        let mut properties: Vec<String> = Vec::new();
        push_text(&mut properties, quoted("name", self.name.as_str()));
        push_text(&mut properties, quoted("url", self.url.as_str()));
        assert(properties.deep_view() =~= seq![
            quoted_property("name"@, self.name@),
            quoted_property("url"@, self.url@),
        ]);
        push_common(&mut properties, &self.policy, &self.cache, &self.log);
        object(&properties)
    }
}

impl PlugLoaderCrossOptions {
    /// The description as an object literal.
    pub open spec fn text(&self) -> Seq<char> {
        object_text(
            seq![quoted_property("name"@, self.name@), plain_property("urls"@, self.urls.text())]
                + common_properties(self.policy, optional_text(self.cache), self.log),
        )
    }

    /// Writes the description as an object literal.
    pub fn generate(&self) -> (s: String)
        ensures
            s@ == self.text(),
    {
        let mut properties: Vec<String> = Vec::new();
        push_text(&mut properties, quoted("name", self.name.as_str()));
        push_text(&mut properties, plain("urls", self.urls.generate().as_str()));
        assert(properties.deep_view() =~= seq![
            quoted_property("name"@, self.name@),
            plain_property("urls"@, self.urls.text()),
        ]);
        push_common(&mut properties, &self.policy, &self.cache, &self.log);
        object(&properties)
    }
}

impl PlugLoaderUrlOptions {
    /// The description as an object literal.
    pub open spec fn text(&self) -> Seq<char> {
        object_text(
            seq![quoted_property("url"@, self.url@)] + common_properties(
                self.policy,
                optional_text(self.cache),
                self.log,
            ),
        )
    }

    /// Writes the description as an object literal.
    pub fn generate(&self) -> (s: String)
        ensures
            s@ == self.text(),
    {
        let mut properties: Vec<String> = Vec::new();
        push_text(&mut properties, quoted("url", self.url.as_str()));
        assert(properties.deep_view() =~= seq![quoted_property("url"@, self.url@)]);
        push_common(&mut properties, &self.policy, &self.cache, &self.log);
        object(&properties)
    }
}

impl PlugLoaderOptions {
    /// The description as an object literal.
    pub open spec fn text(&self) -> Seq<char> {
        match self {
            PlugLoaderOptions::Single(options) => options.text(),
            PlugLoaderOptions::Cross(options) => options.text(),
            PlugLoaderOptions::Url(options) => options.text(),
        }
    }

    /// Writes the description as an object literal.
    pub fn generate(&self) -> (s: String)
        ensures
            s@ == self.text(),
    {
        match self {
            PlugLoaderOptions::Single(options) => options.generate(),
            PlugLoaderOptions::Cross(options) => options.generate(),
            PlugLoaderOptions::Url(options) => options.generate(),
        }
    }
}

impl PlugLoader {
    /// Whether the bound library is visible to importers.
    pub closed spec fn exported(&self) -> bool {
        self.export
    }

    /// Where the fetching library is imported from.
    pub closed spec fn import_text(&self) -> Seq<char> {
        self.import@
    }

    /// What to fetch.
    pub closed spec fn options(&self) -> PlugLoaderOptions {
        self.options
    }

    /// A loader that fetches what `options` describe; the fetching
    /// library comes from `import`, or from its home if none is given.
    pub fn new(export: bool, import: Option<&str>, options: PlugLoaderOptions) -> (l: Self)
        ensures
            l.exported() == export,
            l.import_text() == match import {
                Some(import) => import@,
                None => default_import_text(),
            },
            l.options() == options,
    {
        let import = match import {
            Some(import) => String::from_str(import),
            None => default_import(),
        };
        Self { export, import, options }
    }

    /// The bootstrap: the import of the fetching library, then one
    /// binding of `variable` to the prepared module.
    pub open spec fn text(&self, variable: Seq<char>, symbols: Seq<char>) -> Seq<char> {
        "import { Plug } from \""@ + self.import_text() + "\";\n"@ + (if self.exported() {
            "export "@
        } else {
            Seq::empty()
        }) + "const "@ + variable + " = await Plug.prepare("@ + self.options().text() + ", "@
            + symbols + ");\n"@
    }

    /// Writes the bootstrap.
    pub fn generate(&self, variable: &str, symbols: &str) -> (s: String)
        ensures
            s@ == self.text(variable@, symbols@),
    {
        let mut out = String::from_str("import { Plug } from \"");
        out.append(self.import.as_str());
        out.append("\";\n");
        if self.export {
            out.append("export ");
        } else {
            assert(out@ + Seq::<char>::empty() == out@);
        }
        out.append("const ");
        out.append(variable);
        out.append(" = await Plug.prepare(");
        out.append(self.options.generate().as_str());
        out.append(", ");
        out.append(symbols);
        out.append(");\n");
        out
    }
}

} // verus!
