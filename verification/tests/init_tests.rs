use cargo_tako::disk::Disk;
use cargo_tako::error::Error;
use cargo_tako::init::{
    check_report, create_new_project, init_current_project, CheckReport, Scaffold, Step,
    CARGO_CONFIG, FALLBACK_NAME, GITIGNORE,
};
use cargo_tako::process::{Invocation, RunOutcome};
use cargo_tako::template::{get_template, process_template};

fn dir(path: &str) -> Step {
    Step::EnsureDir(path.to_string())
}

fn write(path: &str, content: &str) -> Step {
    Step::WriteFile { path: path.to_string(), content: content.to_string() }
}

fn command(program: &str, verb: &str, dir: &str) -> Invocation {
    Invocation {
        program: program.to_string(),
        args: vec![verb.to_string()],
        env: vec![],
        dir: Some(dir.to_string()),
    }
}

#[test]
fn fixed_texts() {
    assert!(CARGO_CONFIG.starts_with("# TAKO Contract Build Configuration\n"));
    assert!(CARGO_CONFIG.ends_with("[target.tbpf-tos-tos]\nlinker = \"rust-lld\"\n"));
    assert_eq!(GITIGNORE, "target/\n*.log\n*.so\nCargo.lock\n");
    assert_eq!(FALLBACK_NAME, "my-contract");
}

#[test]
fn new_project_in_the_current_directory() {
    let disk = Disk::new();
    let t = get_template("erc20").unwrap();
    let plan = create_new_project("my-token", None, "erc20", &disk);
    assert_eq!(
        plan,
        Scaffold {
            steps: vec![
                dir("my-token"),
                dir("my-token/src"),
                dir("my-token/.cargo"),
                write("my-token/Cargo.toml", &process_template(&t.cargo_toml, "my-token")),
                write("my-token/src/lib.rs", &process_template(&t.lib_rs, "my-token")),
                write("my-token/README.md", &process_template(&t.readme, "my-token")),
                write("my-token/.cargo/config.toml", CARGO_CONFIG),
                Step::RunQuietly(command("git", "init", "my-token")),
                write("my-token/.gitignore", GITIGNORE),
                Step::RunCheck(command("cargo", "check", "my-token")),
            ],
            end: Ok(()),
        }
    );
}

#[test]
fn new_project_below_a_parent() {
    let disk = Disk::new();
    let plan = create_new_project("c", Some("/work/area"), "empty", &disk);
    assert_eq!(plan.steps.len(), 10);
    assert_eq!(plan.steps[0], dir("/work/area/c"));
    assert_eq!(plan.steps[1], dir("/work/area/c/src"));
    assert_eq!(plan.steps[9], Step::RunCheck(command("cargo", "check", "/work/area/c")));
    assert_eq!(plan.end, Ok(()));
}

#[test]
fn existing_project_is_left_alone() {
    let mut disk = Disk::new();
    disk.add_dir("work/c", vec![]);
    let plan = create_new_project("c", Some("work"), "default", &disk);
    assert_eq!(plan, Scaffold { steps: vec![], end: Err(Error::ProjectExists("c".to_string())) });
}

#[test]
fn unknown_template_fails_after_the_directories() {
    let disk = Disk::new();
    let plan = create_new_project("c", None, "nope", &disk);
    assert_eq!(
        plan,
        Scaffold {
            steps: vec![dir("c"), dir("c/src"), dir("c/.cargo")],
            end: Err(Error::InvalidTemplate("nope".to_string())),
        }
    );
}

#[test]
fn init_needs_a_manifest() {
    let disk = Disk::new();
    assert_eq!(
        init_current_project("default", "/w/proj", &disk),
        Scaffold {
            steps: vec![],
            end: Err(Error::Other(
                "No Cargo.toml found in current directory. Use 'cargo tako new' instead.".to_string()
            )),
        }
    );
}

#[test]
fn init_refuses_to_overwrite_the_source() {
    let mut disk = Disk::new();
    disk.add_file("/w/proj/Cargo.toml");
    disk.add_file("/w/proj/src/lib.rs");
    assert_eq!(
        init_current_project("default", "/w/proj", &disk),
        Scaffold {
            steps: vec![],
            end: Err(Error::Other(
                "src/lib.rs already exists. Remove it or use a fresh project.".to_string()
            )),
        }
    );
}

#[test]
fn init_with_unknown_template_does_nothing() {
    let mut disk = Disk::new();
    disk.add_file("/w/proj/Cargo.toml");
    assert_eq!(
        init_current_project("nope", "/w/proj", &disk),
        Scaffold { steps: vec![], end: Err(Error::InvalidTemplate("nope".to_string())) }
    );
}

#[test]
fn init_writes_settings_and_source() {
    let mut disk = Disk::new();
    disk.add_file("/w/my-proj/Cargo.toml");
    let t = get_template("default").unwrap();
    assert_eq!(
        init_current_project("default", "/w/my-proj", &disk),
        Scaffold {
            steps: vec![
                dir("/w/my-proj/src"),
                dir("/w/my-proj/.cargo"),
                write("/w/my-proj/.cargo/config.toml", CARGO_CONFIG),
                write("/w/my-proj/src/lib.rs", &process_template(&t.lib_rs, "my-proj")),
            ],
            end: Ok(()),
        }
    );
}

#[test]
fn init_in_a_directory_without_name_uses_the_fallback() {
    let mut disk = Disk::new();
    disk.add_file("/Cargo.toml");
    let t = get_template("default").unwrap();
    let plan = init_current_project("default", "/", &disk);
    assert_eq!(plan.steps[3], write("/src/lib.rs", &process_template(&t.lib_rs, "my-contract")));
}

#[test]
fn check_reports() {
    let ok = RunOutcome::Exited {
        success: true,
        code: Some(0),
        stdout: String::new(),
        stderr: "warning\n".to_string(),
    };
    assert_eq!(check_report(&ok), CheckReport::Verified);
    let failed = RunOutcome::Exited {
        success: false,
        code: Some(101),
        stdout: String::new(),
        stderr: "error: x\n".to_string(),
    };
    assert_eq!(check_report(&failed), CheckReport::Failed("error: x\n".to_string()));
    assert_eq!(
        check_report(&RunOutcome::NotStarted("no cargo".to_string())),
        CheckReport::NotRun("no cargo".to_string())
    );
    assert_eq!(
        check_report(&RunOutcome::Lost("gone".to_string())),
        CheckReport::NotRun("gone".to_string())
    );
}
