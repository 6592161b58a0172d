//! Where the platform-tools live, and how one installation is chosen.
//!
//! The versioned cache holds one directory per installed version:
//!
//! ```text
//! <home>/.cache/tos/<version>/platform-tools/
//!     rust/bin/   cargo, rustc
//!     llvm/bin/   clang, lld, llvm-ar, llvm-objcopy, llvm-objdump
//! ```
//!
//! Older installations sit in a few fixed directories without a version.

use crate::disk::{is_dir, listing, present, Disk, DiskView};
use crate::path::{join, join_path};
use crate::process::{EnvVar, EnvVarView, Invocation, InvocationView, RunOutcome, RunOutcomeView};
use crate::text::{followed_by, option_view, same_text};
use vstd::prelude::*;

verus! {

/// The version of the platform-tools that a build asks for first.
pub const DEFAULT_PLATFORM_TOOLS_VERSION: &'static str = "v1.52";

/// The version of the Rust compiler that those platform-tools bundle.
pub const DEFAULT_RUST_VERSION: &'static str = "1.89.0";

/// `<home>/.cache/tos`
pub open spec fn cache_dir_of(home: Seq<char>) -> Seq<char> {
    join(join(home, ".cache"@), "tos"@)
}

/// `<home>/.cache/tos/<version>/platform-tools`
pub open spec fn platform_tools_of(home: Seq<char>, version: Seq<char>) -> Seq<char> {
    join(join(cache_dir_of(home), version), "platform-tools"@)
}

/// `<home>/.cache/tos/<version>/platform-tools/rust/bin`
pub open spec fn rust_bin_of(home: Seq<char>, version: Seq<char>) -> Seq<char> {
    join(join(platform_tools_of(home, version), "rust"@), "bin"@)
}

/// `<home>/.cache/tos/<version>/platform-tools/llvm/bin`
pub open spec fn llvm_bin_of(home: Seq<char>, version: Seq<char>) -> Seq<char> {
    join(join(platform_tools_of(home, version), "llvm"@), "bin"@)
}

/// The cache directory of the tools, below the user's home directory.
pub fn cache_dir(home: &str) -> (r: String)
    ensures
        r@ == cache_dir_of(home@),
{
    join_path(join_path(home, ".cache").as_str(), "tos")
}

/// The directory of the platform-tools of one version.
pub fn platform_tools_path(home: &str, version: &str) -> (r: String)
    ensures
        r@ == platform_tools_of(home@, version@),
{
    join_path(join_path(cache_dir(home).as_str(), version).as_str(), "platform-tools")
}

/// The directory of the Rust binaries of one version.
pub fn rust_bin_path(home: &str, version: &str) -> (r: String)
    ensures
        r@ == rust_bin_of(home@, version@),
{
    join_path(join_path(platform_tools_path(home, version).as_str(), "rust").as_str(), "bin")
}

/// The directory of the LLVM binaries of one version.
pub fn llvm_bin_path(home: &str, version: &str) -> (r: String)
    ensures
        r@ == llvm_bin_of(home@, version@),
{
    join_path(join_path(platform_tools_path(home, version).as_str(), "llvm").as_str(), "bin")
}

/// Which search tier an installation was found in. It decides how the
/// installation is shown, and nothing else.
#[derive(Debug, Clone, Copy, PartialEq, Eq, Structural)]
pub enum ToolchainSource {
    /// Below the versioned cache.
    VersionedCache,
    /// In one of the fixed directories without a version.
    Legacy,
}

/// One installation of the platform-tools.
#[derive(Debug, Clone, PartialEq, Eq)]
pub struct PlatformTools {
    /// The version, or `unknown` for an installation without one.
    pub version: String,
    /// The directory of `cargo` and `rustc`.
    pub rust_bin: String,
    /// The directory of `clang` and the LLVM utilities.
    pub llvm_bin: String,
    /// The tier that the installation was found in.
    pub source: ToolchainSource,
}

/// The mathematical value of a `PlatformTools`.
pub struct PlatformToolsView {
    pub version: Seq<char>,
    pub rust_bin: Seq<char>,
    pub llvm_bin: Seq<char>,
    pub source: ToolchainSource,
}

impl View for PlatformTools {
    type V = PlatformToolsView;

    open spec fn view(&self) -> PlatformToolsView {
        PlatformToolsView {
            version: self.version@,
            rust_bin: self.rust_bin@,
            llvm_bin: self.llvm_bin@,
            source: self.source,
        }
    }
}

impl DeepView for PlatformTools {
    type V = PlatformToolsView;

    open spec fn deep_view(&self) -> PlatformToolsView {
        self@
    }
}

impl PlatformToolsView {
    /// The path of the compiler.
    pub open spec fn rustc(self) -> Seq<char> {
        join(self.rust_bin, "rustc"@)
    }

    /// The path of the build driver.
    pub open spec fn cargo(self) -> Seq<char> {
        join(self.rust_bin, "cargo"@)
    }

    /// How the place of the installation is shown: the cache path with `~`
    /// for the home directory, or the directory of the Rust binaries.
    pub open spec fn display_path(self) -> Seq<char> {
        match self.source {
            ToolchainSource::VersionedCache => "~/.cache/tos/"@ + self.version + "/platform-tools"@,
            ToolchainSource::Legacy => self.rust_bin,
        }
    }
}

impl PlatformTools {
    /// The path of `rustc`.
    pub fn rustc(&self) -> (r: String)
        ensures
            r@ == self@.rustc(),
    {
        join_path(self.rust_bin.as_str(), "rustc")
    }

    /// The path of `cargo`.
    pub fn cargo(&self) -> (r: String)
        ensures
            r@ == self@.cargo(),
    {
        join_path(self.rust_bin.as_str(), "cargo")
    }

    /// The path of `clang`.
    pub fn clang(&self) -> (r: String)
        ensures
            r@ == join(self@.llvm_bin, "clang"@),
    {
        join_path(self.llvm_bin.as_str(), "clang")
    }

    /// The path of `lld`.
    pub fn lld(&self) -> (r: String)
        ensures
            r@ == join(self@.llvm_bin, "lld"@),
    {
        join_path(self.llvm_bin.as_str(), "lld")
    }

    /// The path of `llvm-objdump`.
    pub fn llvm_objdump(&self) -> (r: String)
        ensures
            r@ == join(self@.llvm_bin, "llvm-objdump"@),
    {
        join_path(self.llvm_bin.as_str(), "llvm-objdump")
    }

    /// The path of `llvm-objcopy`.
    pub fn llvm_objcopy(&self) -> (r: String)
        ensures
            r@ == join(self@.llvm_bin, "llvm-objcopy"@),
    {
        join_path(self.llvm_bin.as_str(), "llvm-objcopy")
    }

    /// The path of `llvm-ar`.
    pub fn llvm_ar(&self) -> (r: String)
        ensures
            r@ == join(self@.llvm_bin, "llvm-ar"@),
    {
        join_path(self.llvm_bin.as_str(), "llvm-ar")
    }

    /// Whether both `rustc` and `cargo` of this installation exist.
    pub fn is_valid(&self, disk: &Disk) -> (r: bool)
        ensures
            r == (present(disk@, self@.rustc()) && present(disk@, self@.cargo())),
    {
        disk.holds(self.rustc().as_str()) && disk.holds(self.cargo().as_str())
    }

    /// How the place of the installation is shown.
    pub fn display_path(&self) -> (r: String)
        ensures
            r@ == self@.display_path(),
    {
        match self.source {
            ToolchainSource::VersionedCache => {
                let mut r = followed_by("~/.cache/tos/", self.version.as_str());
                r.append("/platform-tools");
                r
            },
            ToolchainSource::Legacy => self.rust_bin.clone(),
        }
    }
}

/// The entry names of the cache directory that stand for an installation:
/// those with a `platform-tools` directory below them.
pub open spec fn has_tools(d: DiskView, home: Seq<char>) -> spec_fn(Seq<char>) -> bool {
    |name: Seq<char>| is_dir(d, platform_tools_of(home, name))
}

/// The installed versions, in the order in which the cache directory lists
/// them; none where the cache directory cannot be listed.
pub open spec fn installed_versions(d: DiskView, home: Seq<char>) -> Seq<Seq<char>> {
    match listing(d, cache_dir_of(home)) {
        Some(names) => names.filter(has_tools(d, home)),
        None => Seq::empty(),
    }
}

/// The versions that are installed below the cache directory, in the order
/// in which the directory lists them. That order is the system's: it is
/// not sorted, and may differ from one machine to the next.
pub fn find_installed_versions(home: &str, disk: &Disk) -> (r: Vec<String>)
    ensures
        r.deep_view() == installed_versions(disk@, home@),
{
    let cache = cache_dir(home);
    let mut out: Vec<String> = Vec::new();
    match disk.read_dir(cache.as_str()) {
        None => {
            proof {
                assert(out.deep_view() == Seq::<Seq<char>>::empty());
            }
        },
        Some(names) => {
            let ghost all = names.deep_view();
            let ghost keep = has_tools(disk@, home@);
            let mut i: usize = 0;
            proof {
                reveal(Seq::filter);
                assert(out.deep_view() == all.take(0).filter(keep));
            }
            while i < names.len()
                invariant
                    i <= names.len(),
                    all == names.deep_view(),
                    keep == has_tools(disk@, home@),
                    out.deep_view() == all.take(i as int).filter(keep),
                decreases names.len() - i,
            {
                let tools = platform_tools_path(home, names[i].as_str());
                let ghost before = out.deep_view();
                proof {
                    reveal(Seq::filter);
                    assert(all.take(i + 1).drop_last() == all.take(i as int));
                    assert(all.take(i + 1).last() == names[i as int]@);
                }
                if disk.is_dir(tools.as_str()) {
                    out.push(names[i].clone());
                    proof {
                        assert(out.deep_view() == before.push(names[i as int]@));
                    }
                }
                i = i + 1;
            }
            proof {
                assert(all.take(names.len() as int) == all);
            }
        },
    }
    out
}

/// Whether both `rustc` and `cargo` of the given version exist in the cache.
pub fn is_installed(home: &str, version: &str, disk: &Disk) -> (r: bool)
    ensures
        r == (present(disk@, join(rust_bin_of(home@, version@), "rustc"@)) && present(
            disk@,
            join(rust_bin_of(home@, version@), "cargo"@),
        )),
{
    let bin = rust_bin_path(home, version);
    let rustc = join_path(bin.as_str(), "rustc");
    let cargo = join_path(bin.as_str(), "cargo");
    disk.holds(rustc.as_str()) && disk.holds(cargo.as_str())
}

/// The installation of one version in the cache.
pub open spec fn versioned_tools(home: Seq<char>, version: Seq<char>) -> PlatformToolsView {
    PlatformToolsView {
        version,
        rust_bin: rust_bin_of(home, version),
        llvm_bin: llvm_bin_of(home, version),
        source: ToolchainSource::VersionedCache,
    }
}

/// An installation without a version.
pub open spec fn legacy_tools(rust_bin: Seq<char>, llvm_bin: Seq<char>) -> PlatformToolsView {
    PlatformToolsView {
        version: "unknown"@,
        rust_bin,
        llvm_bin,
        source: ToolchainSource::Legacy,
    }
}

/// First tier: the version asked for, if one was.
pub open spec fn preferred_candidates(home: Seq<char>, version: Option<Seq<char>>) -> Seq<
    PlatformToolsView,
> {
    match version {
        Some(v) => seq![versioned_tools(home, v)],
        None => Seq::empty(),
    }
}

/// Second tier: every installed version, in the order of the cache directory.
pub open spec fn cached_candidates(d: DiskView, home: Seq<char>) -> Seq<PlatformToolsView> {
    let versions = installed_versions(d, home);
    Seq::new(versions.len(), |i: int| versioned_tools(home, versions[i]))
}

/// Third tier: the fixed directories without a version, in their fixed order.
pub open spec fn legacy_candidates(home: Seq<char>) -> Seq<PlatformToolsView> {
    seq![
        legacy_tools(
            join(home, "tos-network/platform-tools/rust/bin"@),
            join(home, "tos-network/platform-tools/llvm/bin"@),
        ),
        legacy_tools(
            join(home, "tos-network/platform-tools/out/rust/bin"@),
            join(home, "tos-network/platform-tools/out/llvm/bin"@),
        ),
        legacy_tools(
            join(home, ".tos/platform-tools/rust/bin"@),
            join(home, ".tos/platform-tools/llvm/bin"@),
        ),
        legacy_tools(
            "/usr/local/tos/platform-tools/rust/bin"@,
            "/usr/local/tos/platform-tools/llvm/bin"@,
        ),
    ]
}

/// Every place that the search looks at, in the order of the search.
pub open spec fn candidates(d: DiskView, home: Seq<char>, version: Option<Seq<char>>) -> Seq<
    PlatformToolsView,
> {
    preferred_candidates(home, version) + cached_candidates(d, home) + legacy_candidates(home)
}

/// An installation can be used when its compiler exists.
pub open spec fn usable(d: DiskView, tools: PlatformToolsView) -> bool {
    present(d, tools.rustc())
}

/// The first of `list` that can be used.
pub open spec fn first_usable(d: DiskView, list: Seq<PlatformToolsView>) -> Option<
    PlatformToolsView,
>
    decreases list.len(),
{
    if list.len() == 0 {
        None
    } else if usable(d, list[0]) {
        Some(list[0])
    } else {
        first_usable(d, list.drop_first())
    }
}

/// The installation that the search settles on: the first candidate whose
/// compiler exists.
pub open spec fn located(d: DiskView, home: Seq<char>, version: Option<Seq<char>>) -> Option<
    PlatformToolsView,
> {
    first_usable(d, candidates(d, home, version))
}

/// Where no member of `list` can be used, nothing is found.
pub proof fn lemma_first_usable_none(d: DiskView, list: Seq<PlatformToolsView>)
    requires
        forall|i: int| 0 <= i < list.len() ==> !usable(d, list[i]),
    ensures
        first_usable(d, list) is None,
    decreases list.len(),
{
    if list.len() > 0 {
        let rest = list.drop_first();
        assert forall|i: int| 0 <= i < rest.len() implies !usable(d, rest[i]) by {
            assert(rest[i] == list[i + 1]);
        }
        lemma_first_usable_none(d, rest);
    }
}

/// The member at `i` is found when it can be used and none before it can.
pub proof fn lemma_first_usable_at(d: DiskView, list: Seq<PlatformToolsView>, i: int)
    requires
        0 <= i < list.len(),
        usable(d, list[i]),
        forall|j: int| 0 <= j < i ==> !usable(d, list[j]),
    ensures
        first_usable(d, list) == Some(list[i]),
    decreases list.len(),
{
    if i > 0 {
        let rest = list.drop_first();
        assert forall|j: int| 0 <= j < i - 1 implies !usable(d, rest[j]) by {
            assert(rest[j] == list[j + 1]);
        }
        assert(rest[i - 1] == list[i]);
        lemma_first_usable_at(d, rest, i - 1);
    }
}

/// What is found is a member of the list that can be used, and no member
/// before it can.
pub proof fn lemma_first_usable_some(d: DiskView, list: Seq<PlatformToolsView>) -> (i: int)
    requires
        first_usable(d, list) is Some,
    ensures
        0 <= i < list.len(),
        first_usable(d, list) == Some(list[i]),
        usable(d, list[i]),
        forall|j: int| 0 <= j < i ==> !usable(d, list[j]),
    decreases list.len(),
{
    if usable(d, list[0]) {
        0
    } else {
        let rest = list.drop_first();
        let k = lemma_first_usable_some(d, rest);
        assert forall|j: int| 0 <= j < k + 1 implies !usable(d, list[j]) by {
            if j > 0 {
                assert(list[j] == rest[j - 1]);
            }
        }
        k + 1
    }
}

/// Where some member of `list` can be used, something is found.
pub proof fn lemma_first_usable_hit(d: DiskView, list: Seq<PlatformToolsView>, i: int)
    requires
        0 <= i < list.len(),
        usable(d, list[i]),
    ensures
        first_usable(d, list) is Some,
    decreases list.len(),
{
    if !usable(d, list[0]) {
        let rest = list.drop_first();
        assert(rest[i - 1] == list[i]);
        lemma_first_usable_hit(d, rest, i - 1);
    }
}

/// The search finds nothing exactly when no candidate of any tier holds a
/// compiler; that is no failure, and the caller falls back to the system's
/// own toolchain.
pub proof fn lemma_located_none(d: DiskView, home: Seq<char>, version: Option<Seq<char>>)
    ensures
        ({
            let list = candidates(d, home, version);
            located(d, home, version) is None <==> forall|i: int|
                0 <= i < list.len() ==> !#[trigger] usable(d, list[i])
        }),
{
    let list = candidates(d, home, version);
    if located(d, home, version) is None {
        assert forall|i: int| 0 <= i < list.len() implies !#[trigger] usable(d, list[i]) by {
            if usable(d, list[i]) {
                lemma_first_usable_hit(d, list, i);
            }
        }
    } else {
        let i = lemma_first_usable_some(d, list);
        assert(usable(d, list[i]));
    }
}

/// What the search finds is a candidate whose compiler exists, and no
/// candidate before it in the order of the search has one.
pub proof fn lemma_located_first(d: DiskView, home: Seq<char>, version: Option<Seq<char>>) -> (i:
    int)
    requires
        located(d, home, version) is Some,
    ensures
        0 <= i < candidates(d, home, version).len(),
        located(d, home, version) == Some(candidates(d, home, version)[i]),
        usable(d, candidates(d, home, version)[i]),
        forall|j: int| 0 <= j < i ==> !usable(d, candidates(d, home, version)[j]),
{
    lemma_first_usable_some(d, candidates(d, home, version))
}

fn versioned(home: &str, version: &str) -> (r: PlatformTools)
    ensures
        r@ == versioned_tools(home@, version@),
{
    PlatformTools {
        version: String::from_str(version),
        rust_bin: rust_bin_path(home, version),
        llvm_bin: llvm_bin_path(home, version),
        source: ToolchainSource::VersionedCache,
    }
}

fn legacy(rust_bin: String, llvm_bin: String) -> (r: PlatformTools)
    ensures
        r@ == legacy_tools(rust_bin@, llvm_bin@),
{
    PlatformTools {
        version: String::from_str("unknown"),
        rust_bin,
        llvm_bin,
        source: ToolchainSource::Legacy,
    }
}

/// Every place that the search looks at, in the order of the search: the
/// version asked for, the installed versions, the fixed directories.
pub fn candidate_tools(home: &str, version: Option<&str>, disk: &Disk) -> (r: Vec<PlatformTools>)
    ensures
        r.deep_view() == candidates(disk@, home@, option_view(version)),
{
    let ghost first = preferred_candidates(home@, option_view(version));
    let ghost cached = cached_candidates(disk@, home@);
    let mut out: Vec<PlatformTools> = Vec::new();
    if let Some(v) = version {
        out.push(versioned(home, v));
    }
    proof {
        assert(out.deep_view() == first);
    }
    let installed = find_installed_versions(home, disk);
    let mut i: usize = 0;
    proof {
        assert(out.deep_view() == first + cached.take(0));
    }
    while i < installed.len()
        invariant
            i <= installed.len(),
            installed.deep_view() == installed_versions(disk@, home@),
            cached == cached_candidates(disk@, home@),
            out.deep_view() == first + cached.take(i as int),
        decreases installed.len() - i,
    {
        let ghost before = out.deep_view();
        out.push(versioned(home, installed[i].as_str()));
        proof {
            assert(installed.deep_view()[i as int] == installed[i as int]@);
            assert(out.deep_view() == before.push(cached[i as int]));
            assert(cached.take(i + 1) == cached.take(i as int).push(cached[i as int]));
        }
        i = i + 1;
    }
    proof {
        assert(cached.take(installed.len() as int) == cached);
    }
    let ghost before = out.deep_view();
    out.push(
        legacy(
            join_path(home, "tos-network/platform-tools/rust/bin"),
            join_path(home, "tos-network/platform-tools/llvm/bin"),
        ),
    );
    out.push(
        legacy(
            join_path(home, "tos-network/platform-tools/out/rust/bin"),
            join_path(home, "tos-network/platform-tools/out/llvm/bin"),
        ),
    );
    out.push(
        legacy(
            join_path(home, ".tos/platform-tools/rust/bin"),
            join_path(home, ".tos/platform-tools/llvm/bin"),
        ),
    );
    out.push(
        legacy(
            String::from_str("/usr/local/tos/platform-tools/rust/bin"),
            String::from_str("/usr/local/tos/platform-tools/llvm/bin"),
        ),
    );
    proof {
        assert(out.deep_view() == before + legacy_candidates(home@));
    }
    out
}

/// Looks for an installation of the platform-tools: first the version
/// asked for, next every installed version in the order of the cache
/// directory, last the fixed directories. The first place whose compiler
/// exists wins. `None` means that no place holds a compiler.
pub fn find_platform_tools(home: &str, version: Option<&str>, disk: &Disk) -> (r: Option<
    PlatformTools,
>)
    ensures
        option_view(r) == located(disk@, home@, option_view(version)),
{
    let mut list = candidate_tools(home, version, disk);
    let ghost all = list.deep_view();
    let mut i: usize = 0;
    while i < list.len()
        invariant
            i <= list.len(),
            list.deep_view() == all,
            all == candidates(disk@, home@, option_view(version)),
            forall|j: int| 0 <= j < i ==> !usable(disk@, all[j]),
        decreases list.len() - i,
    {
        let rustc = list[i].rustc();
        if disk.holds(rustc.as_str()) {
            proof {
                assert(all[i as int] == list[i as int]@);
                lemma_first_usable_at(disk@, all, i as int);
            }
            let found = list.remove(i);
            return Some(found);
        }
        proof {
            assert(all[i as int] == list[i as int]@);
        }
        i = i + 1;
    }
    proof {
        lemma_first_usable_none(disk@, all);
    }
    None
}

/// The name of the archive to download for a platform.
pub open spec fn download_filename(os: Seq<char>, arch: Seq<char>) -> Seq<char> {
    let system = if os == "windows"@ {
        "windows"@
    } else if os == "macos"@ {
        "osx"@
    } else {
        "linux"@
    };
    let machine = if arch == "aarch64"@ {
        "aarch64"@
    } else {
        "x86_64"@
    };
    "tos-platform-tools-"@ + system + "-"@ + machine + ".tar.bz2"@
}

/// The name of the archive to download for the platform with the given
/// operating system (`windows`, `macos`, anything else counts as Linux)
/// and machine (`aarch64`, anything else counts as `x86_64`).
pub fn get_download_filename(os: &str, arch: &str) -> (r: String)
    ensures
        r@ == download_filename(os@, arch@),
{
    let system = if same_text(os, "windows") {
        "windows"
    } else if same_text(os, "macos") {
        "osx"
    } else {
        "linux"
    };
    let machine = if same_text(arch, "aarch64") {
        "aarch64"
    } else {
        "x86_64"
    };
    let mut r = followed_by("tos-platform-tools-", system);
    r.append("-");
    r.append(machine);
    r.append(".tar.bz2");
    r
}

/// The address from which the archive of one version is downloaded.
pub fn get_download_url(version: &str, os: &str, arch: &str) -> (r: String)
    ensures
        r@ == "https://github.com/tos-network/platform-tools/releases/download/"@ + version@
            + "/"@ + download_filename(os@, arch@),
{
    let name = get_download_filename(os, arch);
    let mut r = followed_by(
        "https://github.com/tos-network/platform-tools/releases/download/",
        version,
    );
    r.append("/");
    r.append(name.as_str());
    r
}

/// How a search tier is shown.
pub open spec fn source_name(source: ToolchainSource) -> Seq<char> {
    match source {
        ToolchainSource::VersionedCache => "VersionedCache"@,
        ToolchainSource::Legacy => "Legacy"@,
    }
}

/// The lines that describe an installation; the LLVM directory is named
/// only where it exists.
pub open spec fn info_lines(d: DiskView, tools: PlatformToolsView) -> Seq<Seq<char>> {
    let head = seq![
        "Platform-tools Information:"@,
        "  Version: "@ + tools.version,
        "  Location: "@ + tools.display_path(),
        "  Source: "@ + source_name(tools.source),
        "  Rustc: "@ + tools.rustc(),
        "  Cargo: "@ + tools.cargo(),
    ];
    if present(d, tools.llvm_bin) {
        head.push("  LLVM: "@ + tools.llvm_bin)
    } else {
        head
    }
}

/// The lines that describe an installation, for display.
pub fn toolchain_info(tools: &PlatformTools, disk: &Disk) -> (r: Vec<String>)
    ensures
        r.deep_view() == info_lines(disk@, tools@),
{
    let source = match tools.source {
        ToolchainSource::VersionedCache => "VersionedCache",
        ToolchainSource::Legacy => "Legacy",
    };
    let mut r: Vec<String> = Vec::new();
    r.push(String::from_str("Platform-tools Information:"));
    r.push(followed_by("  Version: ", tools.version.as_str()));
    r.push(followed_by("  Location: ", tools.display_path().as_str()));
    r.push(followed_by("  Source: ", source));
    r.push(followed_by("  Rustc: ", tools.rustc().as_str()));
    r.push(followed_by("  Cargo: ", tools.cargo().as_str()));
    let ghost head = r.deep_view();
    proof {
        assert(head == seq![
            "Platform-tools Information:"@,
            "  Version: "@ + tools@.version,
            "  Location: "@ + tools@.display_path(),
            "  Source: "@ + source_name(tools@.source),
            "  Rustc: "@ + tools@.rustc(),
            "  Cargo: "@ + tools@.cargo(),
        ]);
    }
    if disk.holds(tools.llvm_bin.as_str()) {
        r.push(followed_by("  LLVM: ", tools.llvm_bin.as_str()));
        proof {
            assert(r.deep_view() == head.push("  LLVM: "@ + tools@.llvm_bin));
        }
    }
    r
}

/// What installing the platform-tools of a version from an archive sets
/// out to do.
#[derive(Debug, PartialEq, Eq)]
pub struct InstallPlan {
    /// The directory of the version in the cache, which the caller
    /// creates before anything else.
    pub target_dir: String,
    /// The directory that will hold the platform-tools.
    pub tools_dir: String,
    /// The compiler of the version is in place: nothing is left to do.
    pub installed: bool,
    /// An unfinished installation is in the way and is removed first.
    pub remove_old: bool,
    /// The command that unpacks the archive into `target_dir`.
    pub extract: Invocation,
}

/// The mathematical value of an `InstallPlan`.
pub struct InstallPlanView {
    pub target_dir: Seq<char>,
    pub tools_dir: Seq<char>,
    pub installed: bool,
    pub remove_old: bool,
    pub extract: InvocationView,
}

impl View for InstallPlan {
    type V = InstallPlanView;

    open spec fn view(&self) -> InstallPlanView {
        InstallPlanView {
            target_dir: self.target_dir@,
            tools_dir: self.tools_dir@,
            installed: self.installed,
            remove_old: self.remove_old,
            extract: self.extract@,
        }
    }
}

/// The plan for installing `version` from the archive at `archive`.
pub open spec fn install_plan(d: DiskView, archive: Seq<char>, version: Seq<char>, home: Seq<char>) -> InstallPlanView {
    let target_dir = join(cache_dir_of(home), version);
    let tools_dir = platform_tools_of(home, version);
    let installed = present(d, join(rust_bin_of(home, version), "rustc"@));
    InstallPlanView {
        target_dir,
        tools_dir,
        installed,
        remove_old: !installed && present(d, tools_dir),
        extract: InvocationView {
            program: "tar"@,
            args: seq!["-xjf"@, archive, "-C"@, target_dir],
            env: Seq::empty(),
            dir: None,
        },
    }
}

/// Plans the installation of the platform-tools of `version` from the
/// archive at `archive_path`.
pub fn plan_install(archive_path: &str, version: &str, home: &str, disk: &Disk) -> (r: InstallPlan)
    ensures
        r@ == install_plan(disk@, archive_path@, version@, home@),
{
    let target_dir = join_path(cache_dir(home).as_str(), version);
    let tools_dir = platform_tools_path(home, version);
    let rustc = join_path(rust_bin_path(home, version).as_str(), "rustc");
    let installed = disk.holds(rustc.as_str());
    let remove_old = !installed && disk.holds(tools_dir.as_str());
    let mut args: Vec<String> = Vec::new();
    args.push(String::from_str("-xjf"));
    args.push(String::from_str(archive_path));
    args.push(String::from_str("-C"));
    args.push(target_dir.clone());
    let env: Vec<EnvVar> = Vec::new();
    proof {
        assert(args.deep_view() == seq!["-xjf"@, archive_path@, "-C"@, target_dir@]);
        assert(env.deep_view() == Seq::<EnvVarView>::empty());
    }
    InstallPlan {
        target_dir,
        tools_dir,
        installed,
        remove_old,
        extract: Invocation { program: String::from_str("tar"), args, env, dir: None },
    }
}

/// What an installation ends in: the directory of the platform-tools
/// where the archive was unpacked and left a compiler there, else the
/// reason for the failure.
pub open spec fn install_result(
    outcome: RunOutcomeView,
    d: DiskView,
    version: Seq<char>,
    home: Seq<char>,
) -> Result<Seq<char>, Seq<char>> {
    match outcome {
        RunOutcomeView::NotStarted(m) => Err("Failed to run tar: "@ + m),
        RunOutcomeView::Lost(m) => Err("Failed to run tar: "@ + m),
        RunOutcomeView::Exited { success, code, stdout, stderr } => if !success {
            Err("Failed to extract archive"@)
        } else if !present(d, join(rust_bin_of(home, version), "rustc"@)) {
            Err("Installation verification failed: rustc not found"@)
        } else {
            Ok(platform_tools_of(home, version))
        },
    }
}

/// Reads the outcome of the unpacking. `disk` is the file system as the
/// unpacking left it.
pub fn finish_install(outcome: &RunOutcome, version: &str, home: &str, disk: &Disk) -> (r: Result<
    String,
    String,
>)
    ensures
        match install_result(outcome@, disk@, version@, home@) {
            Ok(dir) => r matches Ok(p) && p@ == dir,
            Err(reason) => r matches Err(m) && m@ == reason,
        },
{
    match outcome {
        RunOutcome::NotStarted(m) => Err(followed_by("Failed to run tar: ", m.as_str())),
        RunOutcome::Lost(m) => Err(followed_by("Failed to run tar: ", m.as_str())),
        RunOutcome::Exited { success, code: _, stdout: _, stderr: _ } => {
            if !*success {
                return Err(String::from_str("Failed to extract archive"));
            }
            let rustc = join_path(rust_bin_path(home, version).as_str(), "rustc");
            if !disk.holds(rustc.as_str()) {
                return Err(String::from_str("Installation verification failed: rustc not found"));
            }
            Ok(platform_tools_path(home, version))
        },
    }
}

} // verus!
