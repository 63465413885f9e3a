//! Building the native library with cargo: what to ask of cargo, and
//! which of its answers names the library.
use vstd::prelude::*;
use vstd::string::*;
use crate::text::{push_text, same};

verus! {

/// A built native library.
#[derive(Debug)]
pub struct Artifact {
    /// Where the library lies.
    pub path: String,
    /// The manifest of the package that it was built from.
    pub manifest_path: String,
}

/// A build of the native library.
#[derive(Debug)]
pub struct Build {
    release: bool,
}

/// What cargo reports of one compiled target.
#[derive(Debug)]
pub struct CompilerArtifact {
    /// The kinds of the target, such as `lib` or `cdylib`.
    pub kinds: Vec<String>,
    /// The files that were written.
    pub filenames: Vec<String>,
    /// The manifest of the package.
    pub manifest_path: String,
}

/// The arguments of the cargo call that builds the library as a
/// dynamic library and reports in JSON; `--release` where asked for.
pub open spec fn cargo_arguments(release: bool) -> Seq<Seq<char>> {
    seq!["build"@, "--lib"@, "--message-format=json"@] + (if release {
        seq!["--release"@]
    } else {
        Seq::empty()
    })
}

/// Whether a report names a dynamic library: the target is of the
/// kind `cdylib`, and a file was written for it.
pub open spec fn is_library(report: CompilerArtifact) -> bool {
    report.kinds.deep_view().contains("cdylib"@) && report.filenames.len() > 0
}

/// The position of the last of the first `n` reports that is a
/// dynamic library's.
pub open spec fn last_library(reports: Seq<CompilerArtifact>, n: nat) -> Option<int>
    decreases n,
{
    if n == 0 || n > reports.len() {
        None
    } else if is_library(reports[n - 1]) {
        Some(n - 1)
    } else {
        last_library(reports, (n - 1) as nat)
    }
}

impl Default for Build {
    fn default() -> (b: Build)
        ensures
            !b.is_release(),
    {
        Build { release: false }
    }
}

impl Build {
    /// Whether the build is optimised.
    pub closed spec fn is_release(&self) -> bool {
        self.release
    }

    /// A build without optimisation.
    pub fn new() -> (b: Self)
        ensures
            !b.is_release(),
    {
        Build { release: false }
    }

    /// The same build, optimised or not as `release` says.
    pub fn release(self, release: bool) -> (b: Self)
        ensures
            b.is_release() == release,
    {
        Build { release }
    }

    /// The arguments of the cargo call.
    pub fn arguments(&self) -> (arguments: Vec<String>)
        ensures
            arguments.deep_view() == cargo_arguments(self.is_release()),
    {
        let mut arguments: Vec<String> = Vec::new();
        push_text(&mut arguments, String::from_str("build"));
        push_text(&mut arguments, String::from_str("--lib"));
        push_text(&mut arguments, String::from_str("--message-format=json"));
        if self.release {
            push_text(&mut arguments, String::from_str("--release"));
        }
        assert(arguments.deep_view() =~= cargo_arguments(self.release));
        arguments
    }

    /// Whether a report names a dynamic library.
    pub fn reports_library(report: &CompilerArtifact) -> (r: bool)
        ensures
            r == is_library(*report),
    {
        if report.filenames.len() == 0 {
            return false;
        }
        let ghost kinds = report.kinds.deep_view();
        let mut i: usize = 0;
        while i < report.kinds.len()
            invariant
                0 <= i <= report.kinds.len(),
                report.filenames.len() > 0,
                kinds == report.kinds.deep_view(),
                forall|k: int| 0 <= k < i ==> kinds[k] != "cdylib"@,
            decreases report.kinds.len() - i,
        {
            if same(report.kinds[i].as_str(), "cdylib") {
                assert(kinds[i as int] == "cdylib"@);
                assert(kinds.contains("cdylib"@));
                return true;
            }
            i = i + 1;
        }
        false
    }

    /// The library among cargo's reports: the last dynamic library
    /// reported, by the first file that was written for it.
    pub fn select(reports: &Vec<CompilerArtifact>) -> (artifact: Option<Artifact>)
        ensures
            artifact is Some <==> last_library(reports@, reports.len() as nat) is Some,
            artifact matches Some(found) ==> {
                let report = reports[last_library(reports@, reports.len() as nat)->0];
                found.path@ == report.filenames[0]@ && found.manifest_path@ == report.manifest_path@
            },
    {
        let mut i: usize = reports.len();
        while i > 0
            invariant
                0 <= i <= reports.len(),
                last_library(reports@, reports.len() as nat) == last_library(reports@, i as nat),
            decreases i,
        {
            i = i - 1;
            if Self::reports_library(&reports[i]) {
                return Some(
                    Artifact {
                        path: reports[i].filenames[0].clone(),
                        manifest_path: reports[i].manifest_path.clone(),
                    },
                );
            }
        }
        None
    }
}

} // verus!
