//! Build-time provisioning: which work brings the native library and its
//! header into place, and where a release archive is published.
use vstd::prelude::*;

verus! {

/// How the native library is obtained; decided once, at configuration.
#[derive(Debug, Clone, Copy, PartialEq, Eq, Structural)]
pub enum BuildStrategy {
    CompileFromSource,
    Download,
}

/// One piece of provisioning work.
#[derive(Debug, Clone, Copy, PartialEq, Eq, Structural)]
pub enum ProvisionStep {
    /// Compile the library from source with the native toolchain.
    Compile,
    /// Download the release archive.
    Fetch,
    /// Extract the library from the downloaded archive.
    PlaceLibrary,
    /// Extract the header from the downloaded archive.
    PlaceHeader,
    /// Generate the interface from the header.
    GenerateBindings,
}

/// The work to do, given which artifacts are already on disk. With both in
/// place only the interface is generated. Otherwise a source build
/// compiles; a download fetches one archive and extracts from it each
/// artifact that is missing, and only those.
pub open spec fn plan(strategy: BuildStrategy, library_present: bool, header_present: bool) -> Seq<
    ProvisionStep,
> {
    if library_present && header_present {
        seq![ProvisionStep::GenerateBindings]
    } else {
        match strategy {
            BuildStrategy::CompileFromSource => seq![
                ProvisionStep::Compile,
                ProvisionStep::GenerateBindings,
            ],
            BuildStrategy::Download => seq![ProvisionStep::Fetch] + (if library_present {
                Seq::empty()
            } else {
                seq![ProvisionStep::PlaceLibrary]
            }) + (if header_present {
                Seq::empty()
            } else {
                seq![ProvisionStep::PlaceHeader]
            }) + seq![ProvisionStep::GenerateBindings],
        }
    }
}

/// Which artifacts are on disk after the given steps all succeed: a
/// compile produces both, each extraction produces its own.
pub open spec fn present_after(steps: Seq<ProvisionStep>, library_present: bool, header_present: bool) -> (
    bool,
    bool,
)
    decreases steps.len(),
{
    if steps.len() == 0 {
        (library_present, header_present)
    } else {
        let (l, h) = match steps[0] {
            ProvisionStep::Compile => (true, true),
            ProvisionStep::PlaceLibrary => (true, header_present),
            ProvisionStep::PlaceHeader => (library_present, true),
            _ => (library_present, header_present),
        };
        present_after(steps.drop_first(), l, h)
    }
}

/// The provisioning work for a strategy and the artifacts on disk.
pub fn provisioning_plan(strategy: BuildStrategy, library_present: bool, header_present: bool) -> (r:
    Vec<ProvisionStep>)
    ensures
        r@ == plan(strategy, library_present, header_present),
{
    let mut steps: Vec<ProvisionStep> = Vec::new();
    if !(library_present && header_present) {
        match strategy {
            BuildStrategy::CompileFromSource => {
                steps.push(ProvisionStep::Compile);
            },
            BuildStrategy::Download => {
                steps.push(ProvisionStep::Fetch);
                if !library_present {
                    steps.push(ProvisionStep::PlaceLibrary);
                }
                if !header_present {
                    steps.push(ProvisionStep::PlaceHeader);
                }
            },
        }
    }
    steps.push(ProvisionStep::GenerateBindings);
    assert(steps@ =~= plan(strategy, library_present, header_present));
    steps
}

/// Provisioning is idempotent: once the work of one run has succeeded,
/// both artifacts are on disk, and a second run fetches nothing and
/// compiles nothing. In particular a run that finds both artifacts in
/// place does neither.
pub proof fn lemma_provisioning_idempotent(
    strategy: BuildStrategy,
    library_present: bool,
    header_present: bool,
)
    ensures
        ({
            let (l, h) = present_after(plan(strategy, library_present, header_present), library_present, header_present);
            &&& l
            &&& h
            &&& !plan(strategy, l, h).contains(ProvisionStep::Fetch)
            &&& !plan(strategy, l, h).contains(ProvisionStep::Compile)
        }),
        library_present && header_present ==> {
            &&& !plan(strategy, library_present, header_present).contains(ProvisionStep::Fetch)
            &&& !plan(strategy, library_present, header_present).contains(ProvisionStep::Compile)
        },
{
    let p = plan(strategy, library_present, header_present);
    reveal_with_fuel(present_after, 5);
    assert(seq![ProvisionStep::GenerateBindings][0] == ProvisionStep::GenerateBindings);
    assert(!seq![ProvisionStep::GenerateBindings].contains(ProvisionStep::Fetch));
    assert(!seq![ProvisionStep::GenerateBindings].contains(ProvisionStep::Compile));
    if !(library_present && header_present) {
        match strategy {
            BuildStrategy::CompileFromSource => {
                assert(p.drop_first() =~= seq![ProvisionStep::GenerateBindings]);
            },
            BuildStrategy::Download => {
                if library_present {
                    assert(p =~= seq![
                        ProvisionStep::Fetch,
                        ProvisionStep::PlaceHeader,
                        ProvisionStep::GenerateBindings,
                    ]);
                    assert(p.drop_first() =~= seq![ProvisionStep::PlaceHeader, ProvisionStep::GenerateBindings]);
                    assert(p.drop_first().drop_first() =~= seq![ProvisionStep::GenerateBindings]);
                } else if header_present {
                    assert(p =~= seq![
                        ProvisionStep::Fetch,
                        ProvisionStep::PlaceLibrary,
                        ProvisionStep::GenerateBindings,
                    ]);
                    assert(p.drop_first() =~= seq![ProvisionStep::PlaceLibrary, ProvisionStep::GenerateBindings]);
                    assert(p.drop_first().drop_first() =~= seq![ProvisionStep::GenerateBindings]);
                } else {
                    assert(p =~= seq![
                        ProvisionStep::Fetch,
                        ProvisionStep::PlaceLibrary,
                        ProvisionStep::PlaceHeader,
                        ProvisionStep::GenerateBindings,
                    ]);
                    assert(p.drop_first() =~= seq![
                        ProvisionStep::PlaceLibrary,
                        ProvisionStep::PlaceHeader,
                        ProvisionStep::GenerateBindings,
                    ]);
                    assert(p.drop_first().drop_first() =~= seq![ProvisionStep::PlaceHeader, ProvisionStep::GenerateBindings]);
                    assert(p.drop_first().drop_first().drop_first() =~= seq![ProvisionStep::GenerateBindings]);
                }
            },
        }
    }
}

/// The file name of the release archive for a version and a target.
pub open spec fn archive_name(version: Seq<char>, target: Seq<char>) -> Seq<char> {
    "zrraw-v"@ + version + "-"@ + target + ".zip"@
}

/// Where the release archive for a version and a target is published:
/// under the version's release tag of the repository.
pub open spec fn release_url(repo: Seq<char>, version: Seq<char>, target: Seq<char>) -> Seq<char> {
    repo + "/releases/download/v"@ + version + "/"@ + archive_name(version, target)
}

/// The download location of the release archive.
pub fn download_url(repo: &str, version: &str, target: &str) -> (r: String)
    ensures
        r@ == release_url(repo@, version@, target@),
{
    let r = String::from_str(repo)
        .concat("/releases/download/v")
        .concat(version)
        .concat("/")
        .concat("zrraw-v")
        .concat(version)
        .concat("-")
        .concat(target)
        .concat(".zip");
    assert(r@ =~= release_url(repo@, version@, target@));
    r
}

/// The name of the header inside a release archive, and on disk.
pub fn header_file_name() -> (r: &'static str)
    ensures
        r@ == "zrraw.h"@,
{
    "zrraw.h"
}

} // verus!
