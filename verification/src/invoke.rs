//! From an architecture and a profile to the command that builds the
//! contract, and from the command's outcome to the built binary.

use crate::disk::{present, Disk, DiskView};
use crate::error::{result_view, Error, ErrorView};
use crate::path::{join, join_path};
use crate::process::{env_var, EnvVar, EnvVarView, Invocation, InvocationView, RunOutcome, RunOutcomeView};
use crate::text::{followed_by, option_view, same_text};
use crate::toolchain::{
    find_platform_tools, located, PlatformTools, PlatformToolsView, DEFAULT_PLATFORM_TOOLS_VERSION,
};
use crate::util::{artifact, find_contract_binary_for_target};
use vstd::prelude::*;

verus! {

/// The target of an architecture version: the base target for `v0`, and
/// for any other version the base target with the version inserted after
/// `tbpf`.
pub open spec fn target_triple(arch: Seq<char>) -> Seq<char> {
    if arch == "v0"@ {
        "tbpf-tos-tos"@
    } else {
        "tbpf"@ + arch + "-tos-tos"@
    }
}

/// The header flags that a binary of an architecture version carries:
/// the number of the version, and 0 for anything that is no version.
pub open spec fn expected_flags(arch: Seq<char>) -> u32 {
    if arch == "v0"@ {
        0
    } else if arch == "v1"@ {
        1
    } else if arch == "v2"@ {
        2
    } else if arch == "v3"@ {
        3
    } else if arch == "v4"@ {
        4
    } else {
        0
    }
}

/// `arch` is one of the five architecture versions.
pub open spec fn is_arch(arch: Seq<char>) -> bool {
    arch == "v0"@ || arch == "v1"@ || arch == "v2"@ || arch == "v3"@ || arch == "v4"@
}

/// The five versions are five different texts.
pub proof fn lemma_arch_names_differ()
    ensures
        "v0"@ != "v1"@,
        "v0"@ != "v2"@,
        "v0"@ != "v3"@,
        "v0"@ != "v4"@,
        "v1"@ != "v2"@,
        "v1"@ != "v3"@,
        "v1"@ != "v4"@,
        "v2"@ != "v3"@,
        "v2"@ != "v4"@,
        "v3"@ != "v4"@,
{
    reveal_strlit("v0");
    reveal_strlit("v1");
    reveal_strlit("v2");
    reveal_strlit("v3");
    reveal_strlit("v4");
    assert("v0"@[1] == '0');
    assert("v1"@[1] == '1');
    assert("v2"@[1] == '2');
    assert("v3"@[1] == '3');
    assert("v4"@[1] == '4');
}

/// The flags of `v0` to `v4` are 0 to 4, and every other text has the
/// flags 0.
pub proof fn lemma_expected_flags()
    ensures
        expected_flags("v0"@) == 0,
        expected_flags("v1"@) == 1,
        expected_flags("v2"@) == 2,
        expected_flags("v3"@) == 3,
        expected_flags("v4"@) == 4,
        forall|arch: Seq<char>| !is_arch(arch) ==> #[trigger] expected_flags(arch) == 0,
{
    lemma_arch_names_differ();
}

/// Two different architecture versions never share their flags.
pub proof fn lemma_flags_tell_versions_apart(a: Seq<char>, b: Seq<char>)
    requires
        is_arch(a),
        is_arch(b),
        a != b,
    ensures
        expected_flags(a) != expected_flags(b),
{
    lemma_arch_names_differ();
}

/// The target of `v0` is the base target; the target of each later
/// version is the base target with the version after `tbpf`.
pub proof fn lemma_target_triple(arch: Seq<char>)
    requires
        is_arch(arch),
    ensures
        arch == "v0"@ ==> target_triple(arch) == "tbpf-tos-tos"@,
        arch != "v0"@ ==> target_triple(arch) == "tbpf"@ + arch + "-tos-tos"@,
        "tbpf-tos-tos"@ == "tbpf"@ + "-tos-tos"@,
{
    reveal_strlit("tbpf-tos-tos");
    reveal_strlit("tbpf");
    reveal_strlit("-tos-tos");
    assert("tbpf-tos-tos"@ =~= "tbpf"@ + "-tos-tos"@);
}

/// The target of an architecture version.
pub fn get_target_triple(arch: &str) -> (r: String)
    ensures
        r@ == target_triple(arch@),
{
    if same_text(arch, "v0") {
        String::from_str("tbpf-tos-tos")
    } else {
        let mut r = followed_by("tbpf", arch);
        r.append("-tos-tos");
        r
    }
}

/// The header flags that a binary of an architecture version carries.
pub fn get_expected_flags(arch: &str) -> (r: u32)
    ensures
        r == expected_flags(arch@),
{
    if same_text(arch, "v0") {
        0
    } else if same_text(arch, "v1") {
        1
    } else if same_text(arch, "v2") {
        2
    } else if same_text(arch, "v3") {
        3
    } else if same_text(arch, "v4") {
        4
    } else {
        0
    }
}

/// The target that is built: the one given, or else that of the architecture.
pub open spec fn resolved_target(arch: Seq<char>, target: Option<Seq<char>>) -> Seq<char> {
    match target {
        Some(t) => t,
        None => target_triple(arch),
    }
}

/// The target that is built: the one given, or else that of the architecture.
pub fn resolve_target(arch: &str, target: Option<&str>) -> (r: String)
    ensures
        r@ == resolved_target(arch@, option_view(target)),
{
    match target {
        Some(t) => String::from_str(t),
        None => get_target_triple(arch),
    }
}

/// The build driver to run and the compiler to hand to it.
///
/// With an installation whose `cargo` exists, that `cargo` runs with the
/// installation's `rustc`. With one that lacks `cargo` but has `rustc`,
/// the system's `cargo` runs with the installation's `rustc`. Otherwise
/// the system's `cargo` runs with its own compiler.
pub open spec fn driver(d: DiskView, tools: Option<PlatformToolsView>) -> (
    Seq<char>,
    Option<Seq<char>>,
) {
    match tools {
        Some(t) => if present(d, t.cargo()) {
            (t.cargo(), Some(t.rustc()))
        } else if present(d, t.rustc()) {
            ("cargo"@, Some(t.rustc()))
        } else {
            ("cargo"@, None)
        },
        None => ("cargo"@, None),
    }
}

/// The build driver to run and, if the compiler is overridden, the
/// compiler to name in `RUSTC`.
pub fn get_cargo_and_rustc(platform_tools: &Option<PlatformTools>, disk: &Disk) -> (r: (
    String,
    Option<String>,
))
    ensures
        (r.0@, option_view(r.1)) == driver(disk@, option_view(*platform_tools)),
{
    match platform_tools {
        Some(tools) => {
            let cargo = tools.cargo();
            let rustc = tools.rustc();
            if disk.holds(cargo.as_str()) {
                (cargo, Some(rustc))
            } else if disk.holds(rustc.as_str()) {
                (String::from_str("cargo"), Some(rustc))
            } else {
                (String::from_str("cargo"), None)
            }
        },
        None => (String::from_str("cargo"), None),
    }
}

/// The arguments of the build: the verb, `--release` for a release build,
/// the target, and the request to build `core` and `alloc` from source,
/// which the targets need because no prebuilt libraries exist for them.
pub open spec fn build_args(release: bool, target: Seq<char>) -> Seq<Seq<char>> {
    if release {
        seq!["build"@, "--release"@, "--target"@, target, "-Zbuild-std=core,alloc"@]
    } else {
        seq!["build"@, "--target"@, target, "-Zbuild-std=core,alloc"@]
    }
}

/// The variables of the build: `RUSTC` where the compiler is overridden,
/// and `CC`, `AR`, `OBJDUMP` and `OBJCOPY` where an installation was found
/// and its LLVM directory exists.
pub open spec fn build_env(d: DiskView, tools: Option<PlatformToolsView>) -> Seq<EnvVarView> {
    let compiler = match driver(d, tools).1 {
        Some(rustc) => seq![EnvVarView { name: "RUSTC"@, value: rustc }],
        None => Seq::empty(),
    };
    let utilities = match tools {
        Some(t) => if present(d, t.llvm_bin) {
            seq![
                EnvVarView { name: "CC"@, value: join(t.llvm_bin, "clang"@) },
                EnvVarView { name: "AR"@, value: join(t.llvm_bin, "llvm-ar"@) },
                EnvVarView { name: "OBJDUMP"@, value: join(t.llvm_bin, "llvm-objdump"@) },
                EnvVarView { name: "OBJCOPY"@, value: join(t.llvm_bin, "llvm-objcopy"@) },
            ]
        } else {
            Seq::empty()
        },
        None => Seq::empty(),
    };
    compiler + utilities
}

/// The command that builds for `target`.
pub open spec fn build_invocation(
    d: DiskView,
    release: bool,
    target: Seq<char>,
    tools: Option<PlatformToolsView>,
) -> InvocationView {
    InvocationView {
        program: driver(d, tools).0,
        args: build_args(release, target),
        env: build_env(d, tools),
        dir: None,
    }
}

/// The command that builds for `target` with the given installation, or
/// with the system's toolchain where there is none.
pub fn build_command(
    release: bool,
    target: &str,
    platform_tools: &Option<PlatformTools>,
    disk: &Disk,
) -> (r: Invocation)
    ensures
        r@ == build_invocation(disk@, release, target@, option_view(*platform_tools)),
{
    let (program, rustc) = get_cargo_and_rustc(platform_tools, disk);
    let mut args: Vec<String> = Vec::new();
    args.push(String::from_str("build"));
    if release {
        args.push(String::from_str("--release"));
    }
    args.push(String::from_str("--target"));
    args.push(String::from_str(target));
    args.push(String::from_str("-Zbuild-std=core,alloc"));
    let mut env: Vec<EnvVar> = Vec::new();
    if let Some(path) = rustc {
        env.push(env_var("RUSTC", path));
    }
    let ghost compiler = env.deep_view();
    if let Some(tools) = platform_tools {
        if disk.holds(tools.llvm_bin.as_str()) {
            env.push(env_var("CC", tools.clang()));
            env.push(env_var("AR", tools.llvm_ar()));
            env.push(env_var("OBJDUMP", tools.llvm_objdump()));
            env.push(env_var("OBJCOPY", tools.llvm_objcopy()));
        }
    }
    proof {
        assert(args.deep_view() == build_args(release, target@));
        assert(env.deep_view() == build_env(disk@, option_view(*platform_tools)));
    }
    Invocation { program, args, env, dir: None }
}

/// What a build sets out to do.
#[derive(Debug, PartialEq, Eq)]
pub struct BuildPlan {
    /// The target that is built.
    pub target: String,
    /// The installation that the build uses, if one was found.
    pub tools: Option<PlatformTools>,
    /// The command to run.
    pub command: Invocation,
}

/// Plans a build: resolves the target, looks for the platform-tools of
/// the default version, and writes the command.
pub fn plan_build(release: bool, arch: &str, target: Option<&str>, home: &str, disk: &Disk) -> (r:
    BuildPlan)
    ensures
        r.target@ == resolved_target(arch@, option_view(target)),
        option_view(r.tools) == located(disk@, home@, Some(DEFAULT_PLATFORM_TOOLS_VERSION@)),
        r.command@ == build_invocation(disk@, release, r.target@, option_view(r.tools)),
{
    let target = resolve_target(arch, target);
    let tools = find_platform_tools(home, Some(DEFAULT_PLATFORM_TOOLS_VERSION), disk);
    let command = build_command(release, target.as_str(), &tools, disk);
    BuildPlan { target, tools, command }
}

/// What a build ends in: the failure to run the driver, the driver's own
/// failure with what it wrote to its standard error, or whatever the
/// search for the built binary gives.
pub open spec fn build_result(
    outcome: RunOutcomeView,
    d: DiskView,
    release: bool,
    target: Seq<char>,
    manifest: Option<Seq<char>>,
) -> Result<Seq<char>, ErrorView> {
    match outcome {
        RunOutcomeView::NotStarted(m) => Err(
            ErrorView::BuildFailed("Failed to execute cargo: "@ + m),
        ),
        RunOutcomeView::Lost(m) => Err(ErrorView::BuildFailed("Failed to execute cargo: "@ + m)),
        RunOutcomeView::Exited { success, code, stdout, stderr } => if success {
            artifact(d, release, target, manifest)
        } else {
            Err(ErrorView::BuildFailed("Build failed:\n"@ + stderr))
        },
    }
}

/// Reads the outcome of the build command and, after a successful build,
/// finds the built binary. `disk` is the file system as the build left it.
pub fn finish_build(
    outcome: &RunOutcome,
    release: bool,
    target: &str,
    manifest: Option<&str>,
    disk: &Disk,
) -> (r: Result<String, Error>)
    ensures
        result_view(r) == build_result(outcome@, disk@, release, target@, option_view(manifest)),
{
    match outcome {
        RunOutcome::NotStarted(m) => Err(
            Error::BuildFailed(followed_by("Failed to execute cargo: ", m.as_str())),
        ),
        RunOutcome::Lost(m) => Err(
            Error::BuildFailed(followed_by("Failed to execute cargo: ", m.as_str())),
        ),
        RunOutcome::Exited { success, code: _, stdout: _, stderr } => {
            if *success {
                find_contract_binary_for_target(release, target, manifest, disk)
            } else {
                Err(Error::BuildFailed(followed_by("Build failed:\n", stderr.as_str())))
            }
        },
    }
}

/// One way to dump a binary: a `readelf` program with the flags for the
/// file header and the program headers, and the path of the binary.
pub open spec fn readelf(program: Seq<char>, path: Seq<char>) -> InvocationView {
    InvocationView { program, args: seq!["-h"@, "-l"@, path], env: Seq::empty(), dir: None }
}

/// The commands to try for a dump, in order: the `llvm-readelf` of the
/// installation, where one is found and holds it, the system's
/// `llvm-readelf`, and the system's `readelf`.
pub open spec fn dump_invocations(d: DiskView, path: Seq<char>, tools: Option<PlatformToolsView>) -> Seq<
    InvocationView,
> {
    let local = match tools {
        Some(t) => if present(d, join(t.llvm_bin, "llvm-readelf"@)) {
            seq![readelf(join(t.llvm_bin, "llvm-readelf"@), path)]
        } else {
            Seq::empty()
        },
        None => Seq::empty(),
    };
    local + seq![readelf("llvm-readelf"@, path), readelf("readelf"@, path)]
}

fn readelf_command(program: String, path: &str) -> (r: Invocation)
    ensures
        r@ == readelf(program@, path@),
{
    let mut args: Vec<String> = Vec::new();
    args.push(String::from_str("-h"));
    args.push(String::from_str("-l"));
    args.push(String::from_str(path));
    let env: Vec<EnvVar> = Vec::new();
    proof {
        assert(args.deep_view() == seq!["-h"@, "-l"@, path@]);
        assert(env.deep_view() == Seq::<EnvVarView>::empty());
    }
    Invocation { program, args, env, dir: None }
}

/// The commands to try for a dump of the binary at `path`, in order. The
/// caller runs them one after the other until one can be started, and
/// hands what that one gave to `dump_report`.
pub fn dump_commands(path: &str, home: &str, disk: &Disk) -> (r: Vec<Invocation>)
    ensures
        r.deep_view() == dump_invocations(disk@, path@, located(disk@, home@, None)),
{
    let tools = find_platform_tools(home, None, disk);
    let mut r: Vec<Invocation> = Vec::new();
    if let Some(t) = tools {
        let local = join_path(t.llvm_bin.as_str(), "llvm-readelf");
        if disk.holds(local.as_str()) {
            r.push(readelf_command(local, path));
        }
    }
    r.push(readelf_command(String::from_str("llvm-readelf"), path));
    r.push(readelf_command(String::from_str("readelf"), path));
    proof {
        assert(r.deep_view() == dump_invocations(disk@, path@, located(disk@, home@, None)));
    }
    r
}

/// What a dump shows.
#[derive(Debug, PartialEq, Eq)]
pub enum DumpReport {
    /// The dump itself, for the standard output.
    Output(String),
    /// The tool ran and failed; a warning for the standard error. The
    /// command goes on.
    Warning(String),
}

/// The mathematical value of a `DumpReport`.
pub enum DumpReportView {
    Output(Seq<char>),
    Warning(Seq<char>),
}

impl View for DumpReport {
    type V = DumpReportView;

    open spec fn view(&self) -> DumpReportView {
        match self {
            DumpReport::Output(t) => DumpReportView::Output(t@),
            DumpReport::Warning(t) => DumpReportView::Warning(t@),
        }
    }
}

/// What a dump ends in, given the outcome of the first command that
/// could be started, or `None` where none could: only that none ran is a
/// failure.
pub open spec fn dump_result(outcome: Option<RunOutcomeView>) -> Result<DumpReportView, ErrorView> {
    match outcome {
        Some(RunOutcomeView::Exited { success, code, stdout, stderr }) => if success {
            Ok(DumpReportView::Output(stdout))
        } else {
            Ok(DumpReportView::Warning("Warning: readelf failed: "@ + stderr))
        },
        _ => Err(ErrorView::BuildFailed("Failed to run readelf or llvm-readelf"@)),
    }
}

/// Reads the outcome of the dump commands.
pub fn dump_report(outcome: Option<&RunOutcome>) -> (r: Result<DumpReport, Error>)
    ensures
        result_view(r) == dump_result(option_view(outcome)),
{
    match outcome {
        Some(RunOutcome::Exited { success, code: _, stdout, stderr }) => {
            if *success {
                Ok(DumpReport::Output(stdout.clone()))
            } else {
                Ok(DumpReport::Warning(followed_by("Warning: readelf failed: ", stderr.as_str())))
            }
        },
        _ => Err(Error::BuildFailed(String::from_str("Failed to run readelf or llvm-readelf"))),
    }
}

} // verus!
