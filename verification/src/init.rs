//! Laying out a new project, or adding a contract to an existing one.
//!
//! The library writes down what is to be done, step by step; its caller
//! does it. A failure of the file system at any step ends the command
//! there.

use crate::disk::{present, Disk, DiskView};
use crate::error::{Error, ErrorView};
use crate::path::{join, join_path, last_segment, last_segment_of};
use crate::process::{EnvVar, EnvVarView, Invocation, InvocationView, RunOutcome, RunOutcomeView};
use crate::template::{get_template, process_template, processed, template_of};
use crate::text::{chars_of, option_view, same_text, string_of};
use vstd::prelude::*;

verus! {

/// The build settings written to `.cargo/config.toml`. They set no
/// default target, so that tests still run on the host.
pub const CARGO_CONFIG: &'static str = "# TAKO Contract Build Configuration
#
# For development and testing:
#   cargo test                    # Run tests with native target
#
# For TBPF deployment build:
#   cargo tako build --release    # Build with tbpf-tos-tos target
#   cargo build --target tbpf-tos-tos --release

[target.tbpf-tos-tos]
linker = \"rust-lld\"
";

/// What version control leaves out of a new project.
pub const GITIGNORE: &'static str = "target/\n*.log\n*.so\nCargo.lock\n";

/// The name given to a project whose directory has no usable name.
pub const FALLBACK_NAME: &'static str = "my-contract";

/// One thing to do.
#[derive(Debug, PartialEq, Eq)]
pub enum Step {
    /// Create the directory, and its parents, unless it exists.
    EnsureDir(String),
    /// Write the text to the file at the path.
    WriteFile { path: String, content: String },
    /// Run the command; whatever it gives is ignored.
    RunQuietly(Invocation),
    /// Run the command; a failure is a warning, read by `check_report`.
    RunCheck(Invocation),
}

/// The mathematical value of a `Step`.
pub enum StepView {
    EnsureDir(Seq<char>),
    WriteFile { path: Seq<char>, content: Seq<char> },
    RunQuietly(InvocationView),
    RunCheck(InvocationView),
}

impl View for Step {
    type V = StepView;

    open spec fn view(&self) -> StepView {
        match self {
            Step::EnsureDir(p) => StepView::EnsureDir(p@),
            Step::WriteFile { path, content } => StepView::WriteFile {
                path: path@,
                content: content@,
            },
            Step::RunQuietly(c) => StepView::RunQuietly(c@),
            Step::RunCheck(c) => StepView::RunCheck(c@),
        }
    }
}

impl DeepView for Step {
    type V = StepView;

    open spec fn deep_view(&self) -> StepView {
        self@
    }
}

/// What a command sets out to do: the steps, in order, and how the
/// command ends once they are done.
#[derive(Debug, PartialEq, Eq)]
pub struct Scaffold {
    pub steps: Vec<Step>,
    pub end: Result<(), Error>,
}

/// The mathematical value of a `Scaffold`.
pub struct ScaffoldView {
    pub steps: Seq<StepView>,
    pub end: Result<(), ErrorView>,
}

impl View for Scaffold {
    type V = ScaffoldView;

    open spec fn view(&self) -> ScaffoldView {
        ScaffoldView {
            steps: self.steps.deep_view(),
            end: match self.end {
                Ok(_) => Ok(()),
                Err(e) => Err(e@),
            },
        }
    }
}

/// A command without arguments beyond `verb`, run in `dir`.
pub open spec fn run_in(program: Seq<char>, verb: Seq<char>, dir: Seq<char>) -> InvocationView {
    InvocationView { program, args: seq![verb], env: Seq::empty(), dir: Some(dir) }
}

/// The directory of a new project: its name, below the parent if one is given.
pub open spec fn project_root(name: Seq<char>, parent: Option<Seq<char>>) -> Seq<char> {
    match parent {
        Some(p) => join(p, name),
        None => name,
    }
}

/// The directories of a new project.
pub open spec fn new_project_dirs(root: Seq<char>) -> Seq<StepView> {
    seq![
        StepView::EnsureDir(root),
        StepView::EnsureDir(join(root, "src"@)),
        StepView::EnsureDir(join(root, ".cargo"@)),
    ]
}

/// What creating a project does.
///
/// Where the directory exists already, nothing is done and the command
/// fails. Otherwise the directories are created first; an unknown
/// template fails the command after that. With a template its three
/// files are written, rendered for the project, then the build settings;
/// a repository is started, its ignore file written, and the project
/// checked.
pub open spec fn new_project(
    d: DiskView,
    name: Seq<char>,
    parent: Option<Seq<char>>,
    template: Seq<char>,
) -> ScaffoldView {
    let root = project_root(name, parent);
    if present(d, root) {
        ScaffoldView { steps: Seq::empty(), end: Err(ErrorView::ProjectExists(name)) }
    } else {
        match template_of(template) {
            None => ScaffoldView {
                steps: new_project_dirs(root),
                end: Err(ErrorView::InvalidTemplate(template)),
            },
            Some(t) => ScaffoldView {
                steps: new_project_dirs(root) + seq![
                    StepView::WriteFile {
                        path: join(root, "Cargo.toml"@),
                        content: processed(t.cargo_toml, name),
                    },
                    StepView::WriteFile {
                        path: join(join(root, "src"@), "lib.rs"@),
                        content: processed(t.lib_rs, name),
                    },
                    StepView::WriteFile {
                        path: join(root, "README.md"@),
                        content: processed(t.readme, name),
                    },
                    StepView::WriteFile {
                        path: join(join(root, ".cargo"@), "config.toml"@),
                        content: CARGO_CONFIG@,
                    },
                    StepView::RunQuietly(run_in("git"@, "init"@, root)),
                    StepView::WriteFile { path: join(root, ".gitignore"@), content: GITIGNORE@ },
                    StepView::RunCheck(run_in("cargo"@, "check"@, root)),
                ],
                end: Ok(()),
            },
        }
    }
}

fn run_command(program: &str, verb: &str, dir: &str) -> (r: Invocation)
    ensures
        r@ == run_in(program@, verb@, dir@),
{
    let mut args: Vec<String> = Vec::new();
    args.push(String::from_str(verb));
    let env: Vec<EnvVar> = Vec::new();
    proof {
        assert(args.deep_view() == seq![verb@]);
        assert(env.deep_view() == Seq::<EnvVarView>::empty());
    }
    Invocation {
        program: String::from_str(program),
        args,
        env,
        dir: Some(String::from_str(dir)),
    }
}

fn write_step(path: String, content: String) -> (r: Step)
    ensures
        r@ == (StepView::WriteFile { path: path@, content: content@ }),
{
    Step::WriteFile { path, content }
}

/// Plans a new project named `name`, below `path` or else in the current
/// directory, from the template `template`.
pub fn create_new_project(name: &str, path: Option<&str>, template: &str, disk: &Disk) -> (r:
    Scaffold)
    ensures
        r@ == new_project(disk@, name@, option_view(path), template@),
{
    let root = match path {
        Some(parent) => join_path(parent, name),
        None => String::from_str(name),
    };
    let mut steps: Vec<Step> = Vec::new();
    if disk.holds(root.as_str()) {
        proof {
            assert(steps.deep_view() == Seq::<StepView>::empty());
        }
        return Scaffold { steps, end: Err(Error::ProjectExists(String::from_str(name))) };
    }
    let src_dir = join_path(root.as_str(), "src");
    let cargo_dir = join_path(root.as_str(), ".cargo");
    steps.push(Step::EnsureDir(root.clone()));
    steps.push(Step::EnsureDir(src_dir.clone()));
    steps.push(Step::EnsureDir(cargo_dir.clone()));
    proof {
        assert(steps.deep_view() == new_project_dirs(root@));
    }
    let tmpl = match get_template(template) {
        Ok(t) => t,
        Err(e) => {
            return Scaffold { steps, end: Err(e) };
        },
    };
    let ghost dirs = steps.deep_view();
    steps.push(
        write_step(
            join_path(root.as_str(), "Cargo.toml"),
            process_template(tmpl.cargo_toml.as_str(), name),
        ),
    );
    steps.push(
        write_step(
            join_path(src_dir.as_str(), "lib.rs"),
            process_template(tmpl.lib_rs.as_str(), name),
        ),
    );
    steps.push(
        write_step(
            join_path(root.as_str(), "README.md"),
            process_template(tmpl.readme.as_str(), name),
        ),
    );
    steps.push(
        write_step(join_path(cargo_dir.as_str(), "config.toml"), String::from_str(CARGO_CONFIG)),
    );
    steps.push(Step::RunQuietly(run_command("git", "init", root.as_str())));
    steps.push(write_step(join_path(root.as_str(), ".gitignore"), String::from_str(GITIGNORE)));
    steps.push(Step::RunCheck(run_command("cargo", "check", root.as_str())));
    proof {
        let t = template_of(template@)->0;
        assert(steps.deep_view() == dirs + seq![
            StepView::WriteFile {
                path: join(root@, "Cargo.toml"@),
                content: processed(t.cargo_toml, name@),
            },
            StepView::WriteFile {
                path: join(join(root@, "src"@), "lib.rs"@),
                content: processed(t.lib_rs, name@),
            },
            StepView::WriteFile {
                path: join(root@, "README.md"@),
                content: processed(t.readme, name@),
            },
            StepView::WriteFile {
                path: join(join(root@, ".cargo"@), "config.toml"@),
                content: CARGO_CONFIG@,
            },
            StepView::RunQuietly(run_in("git"@, "init"@, root@)),
            StepView::WriteFile { path: join(root@, ".gitignore"@), content: GITIGNORE@ },
            StepView::RunCheck(run_in("cargo"@, "check"@, root@)),
        ]);
    }
    Scaffold { steps, end: Ok(()) }
}

/// The name of the project in a directory: the name of the directory,
/// or `my-contract` where the path ends in no name.
pub open spec fn project_name(dir: Seq<char>) -> Seq<char> {
    let name = last_segment(dir);
    if name.len() == 0 || name == "."@ || name == ".."@ {
        FALLBACK_NAME@
    } else {
        name
    }
}

/// What adding a contract to the project in `dir` does.
///
/// Without a manifest, or with a library source in place already, the
/// command fails and nothing is done; so it does for an unknown
/// template. Otherwise the source and settings directories are created,
/// the build settings written, and the template's source written,
/// rendered for the name of the directory.
pub open spec fn init_project(d: DiskView, dir: Seq<char>, template: Seq<char>) -> ScaffoldView {
    if !present(d, join(dir, "Cargo.toml"@)) {
        ScaffoldView {
            steps: Seq::empty(),
            end: Err(
                ErrorView::Other(
                    "No Cargo.toml found in current directory. Use 'cargo tako new' instead."@,
                ),
            ),
        }
    } else if present(d, join(dir, "src/lib.rs"@)) {
        ScaffoldView {
            steps: Seq::empty(),
            end: Err(
                ErrorView::Other("src/lib.rs already exists. Remove it or use a fresh project."@),
            ),
        }
    } else {
        match template_of(template) {
            None => ScaffoldView {
                steps: Seq::empty(),
                end: Err(ErrorView::InvalidTemplate(template)),
            },
            Some(t) => ScaffoldView {
                steps: seq![
                    StepView::EnsureDir(join(dir, "src"@)),
                    StepView::EnsureDir(join(dir, ".cargo"@)),
                    StepView::WriteFile {
                        path: join(join(dir, ".cargo"@), "config.toml"@),
                        content: CARGO_CONFIG@,
                    },
                    StepView::WriteFile {
                        path: join(dir, "src/lib.rs"@),
                        content: processed(t.lib_rs, project_name(dir)),
                    },
                ],
                end: Ok(()),
            },
        }
    }
}

/// Plans the addition of a contract from the template `template` to the
/// project in the directory `current_dir`.
pub fn init_current_project(template: &str, current_dir: &str, disk: &Disk) -> (r: Scaffold)
    ensures
        r@ == init_project(disk@, current_dir@, template@),
{
    let mut steps: Vec<Step> = Vec::new();
    proof {
        assert(steps.deep_view() == Seq::<StepView>::empty());
    }
    let manifest = join_path(current_dir, "Cargo.toml");
    if !disk.holds(manifest.as_str()) {
        return Scaffold {
            steps,
            end: Err(
                Error::Other(
                    String::from_str(
                        "No Cargo.toml found in current directory. Use 'cargo tako new' instead.",
                    ),
                ),
            ),
        };
    }
    let lib_rs_path = join_path(current_dir, "src/lib.rs");
    if disk.holds(lib_rs_path.as_str()) {
        return Scaffold {
            steps,
            end: Err(
                Error::Other(
                    String::from_str("src/lib.rs already exists. Remove it or use a fresh project."),
                ),
            ),
        };
    }
    let tmpl = match get_template(template) {
        Ok(t) => t,
        Err(e) => {
            return Scaffold { steps, end: Err(e) };
        },
    };
    let dir_chars = chars_of(current_dir);
    let last = string_of(last_segment_of(dir_chars.as_slice()).as_slice());
    let name = if last.as_str().unicode_len() == 0 || same_text(last.as_str(), ".") || same_text(
        last.as_str(),
        "..",
    ) {
        String::from_str(FALLBACK_NAME)
    } else {
        last
    };
    let lib_rs = process_template(tmpl.lib_rs.as_str(), name.as_str());
    let cargo_dir = join_path(current_dir, ".cargo");
    steps.push(Step::EnsureDir(join_path(current_dir, "src")));
    steps.push(Step::EnsureDir(cargo_dir.clone()));
    steps.push(
        write_step(join_path(cargo_dir.as_str(), "config.toml"), String::from_str(CARGO_CONFIG)),
    );
    steps.push(write_step(lib_rs_path, lib_rs));
    proof {
        let t = template_of(template@)->0;
        assert(steps.deep_view() == seq![
            StepView::EnsureDir(join(current_dir@, "src"@)),
            StepView::EnsureDir(join(current_dir@, ".cargo"@)),
            StepView::WriteFile {
                path: join(join(current_dir@, ".cargo"@), "config.toml"@),
                content: CARGO_CONFIG@,
            },
            StepView::WriteFile {
                path: join(current_dir@, "src/lib.rs"@),
                content: processed(t.lib_rs, project_name(current_dir@)),
            },
        ]);
    }
    Scaffold { steps, end: Ok(()) }
}

/// What the check of a new project gave.
#[derive(Debug, PartialEq, Eq)]
pub enum CheckReport {
    /// The check passed.
    Verified,
    /// The check ran and failed; holds what it wrote to its standard
    /// error. A warning: the project stays.
    Failed(String),
    /// The check could not be run; holds the system's message. A warning.
    NotRun(String),
}

/// The mathematical value of a `CheckReport`.
pub enum CheckReportView {
    Verified,
    Failed(Seq<char>),
    NotRun(Seq<char>),
}

impl View for CheckReport {
    type V = CheckReportView;

    open spec fn view(&self) -> CheckReportView {
        match self {
            CheckReport::Verified => CheckReportView::Verified,
            CheckReport::Failed(m) => CheckReportView::Failed(m@),
            CheckReport::NotRun(m) => CheckReportView::NotRun(m@),
        }
    }
}

/// What the outcome of the check means.
pub open spec fn check_result(outcome: RunOutcomeView) -> CheckReportView {
    match outcome {
        RunOutcomeView::NotStarted(m) => CheckReportView::NotRun(m),
        RunOutcomeView::Lost(m) => CheckReportView::NotRun(m),
        RunOutcomeView::Exited { success, code, stdout, stderr } => if success {
            CheckReportView::Verified
        } else {
            CheckReportView::Failed(stderr)
        },
    }
}

/// Reads the outcome of the check of a new project.
pub fn check_report(outcome: &RunOutcome) -> (r: CheckReport)
    ensures
        r@ == check_result(outcome@),
{
    match outcome {
        RunOutcome::NotStarted(m) => CheckReport::NotRun(m.clone()),
        RunOutcome::Lost(m) => CheckReport::NotRun(m.clone()),
        RunOutcome::Exited { success, code: _, stdout: _, stderr } => {
            if *success {
                CheckReport::Verified
            } else {
                CheckReport::Failed(stderr.clone())
            }
        },
    }
}

} // verus!
