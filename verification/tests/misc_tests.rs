use cargo_tako::config::{
    default_abi_version, default_entry, default_opt_level, default_target, BuildConfig,
    ContractConfig, PackageConfig, CONFIG_FILE,
};
use cargo_tako::disk::{Disk, Entry, Node};
use cargo_tako::error::Error;
use cargo_tako::process::{env_var, EnvVar, Invocation, RunOutcome};
use cargo_tako::testing::{test_command, test_report};
use cargo_tako::toolchain::{
    finish_install, plan_install, toolchain_info, PlatformTools, ToolchainSource,
};

fn strings(list: &[&str]) -> Vec<String> {
    list.iter().map(|s| s.to_string()).collect()
}

#[test]
fn error_messages() {
    let m = |s: &str| s.to_string();
    assert_eq!(Error::Io(m("denied")).message(), "IO error: denied");
    assert_eq!(Error::ProjectExists(m("p")).message(), "Project 'p' already exists");
    assert_eq!(Error::InvalidTemplate(m("t")).message(), "Invalid template: t");
    assert_eq!(Error::BuildFailed(m("b")).message(), "Build failed: b");
    assert_eq!(Error::TestFailed(m("x")).message(), "Tests failed: x");
    assert_eq!(Error::Config(m("c")).message(), "Configuration error: c");
    assert_eq!(Error::Other(m("plain")).message(), "plain");
    assert_eq!(Error::Other(m("")).message(), "");
}

#[test]
fn config_defaults() {
    assert_eq!(CONFIG_FILE, "Tako.toml");
    assert_eq!(default_entry(), "entrypoint");
    assert_eq!(default_abi_version(), "1.0");
    assert_eq!(default_target(), "tbpf-tos-tos");
    assert_eq!(default_opt_level(), "z");
    assert_eq!(
        ContractConfig::default(),
        ContractConfig { entry: "entrypoint".to_string(), abi_version: "1.0".to_string() }
    );
    assert_eq!(
        BuildConfig::default(),
        BuildConfig { target: "tbpf-tos-tos".to_string(), opt_level: "z".to_string() }
    );
    assert_eq!(PackageConfig::default(), PackageConfig { name: String::new(), version: String::new() });
}

#[test]
fn disk_lookups() {
    let mut disk = Disk::new();
    assert!(!disk.holds("a"));
    assert!(!disk.is_dir("a"));
    assert_eq!(disk.read_dir("a"), None);
    assert_eq!(disk.node("a"), None);
    disk.add_file("a");
    disk.add_dir("d", strings(&["x", "y"]));
    assert!(disk.holds("a"));
    assert!(!disk.is_dir("a"));
    assert_eq!(disk.read_dir("a"), None);
    assert_eq!(disk.node("a"), Some(&Node::File));
    assert!(disk.holds("d"));
    assert!(disk.is_dir("d"));
    assert_eq!(disk.read_dir("d"), Some(&strings(&["x", "y"])));
    assert!(!disk.holds("d/x"));
    assert!(!disk.holds("A"));
    assert_eq!(
        disk.entries,
        vec![
            Entry { path: "a".to_string(), node: Node::File },
            Entry { path: "d".to_string(), node: Node::Dir(strings(&["x", "y"])) },
        ]
    );
}

#[test]
fn first_entry_of_a_path_counts() {
    let mut disk = Disk::new();
    disk.add_dir("p", strings(&["first"]));
    disk.add_file("p");
    disk.add_dir("p", strings(&["second"]));
    assert!(disk.is_dir("p"));
    assert_eq!(disk.read_dir("p"), Some(&strings(&["first"])));
}

#[test]
fn environment_variable() {
    assert_eq!(
        env_var("CC", "/x/clang".to_string()),
        EnvVar { name: "CC".to_string(), value: "/x/clang".to_string() }
    );
}

#[test]
fn test_commands() {
    let command = |args: &[&str]| Invocation {
        program: "cargo".to_string(),
        args: strings(args),
        env: vec![],
        dir: None,
    };
    assert_eq!(test_command(None, false), command(&["test"]));
    assert_eq!(test_command(None, true), command(&["test", "--release"]));
    assert_eq!(test_command(Some("test_inc"), false), command(&["test", "test_inc"]));
    assert_eq!(test_command(Some("--x y"), true), command(&["test", "--release", "--x y"]));
}

#[test]
fn test_reports() {
    let exited = |success: bool, code: Option<i32>| RunOutcome::Exited {
        success,
        code,
        stdout: String::new(),
        stderr: String::new(),
    };
    let failed = |m: &str| Err(Error::TestFailed(m.to_string()));
    assert_eq!(test_report(&exited(true, Some(0))), Ok(()));
    assert_eq!(test_report(&exited(false, Some(101))), failed("Tests failed with exit code: Some(101)"));
    assert_eq!(test_report(&exited(false, Some(-1))), failed("Tests failed with exit code: Some(-1)"));
    assert_eq!(test_report(&exited(false, None)), failed("Tests failed with exit code: None"));
    assert_eq!(
        test_report(&exited(false, Some(i32::MIN))),
        failed(&format!("Tests failed with exit code: {:?}", Some(i32::MIN)))
    );
    assert_eq!(
        test_report(&RunOutcome::NotStarted("not found".to_string())),
        failed("Failed to execute cargo test: not found")
    );
    assert_eq!(
        test_report(&RunOutcome::Lost("gone".to_string())),
        failed("Failed to wait for tests: gone")
    );
}

fn cached_tools() -> PlatformTools {
    PlatformTools {
        version: "v1.52".to_string(),
        rust_bin: "/h/.cache/tos/v1.52/platform-tools/rust/bin".to_string(),
        llvm_bin: "/h/.cache/tos/v1.52/platform-tools/llvm/bin".to_string(),
        source: ToolchainSource::VersionedCache,
    }
}

#[test]
fn toolchain_information() {
    let mut disk = Disk::new();
    let head = strings(&[
        "Platform-tools Information:",
        "  Version: v1.52",
        "  Location: ~/.cache/tos/v1.52/platform-tools",
        "  Source: VersionedCache",
        "  Rustc: /h/.cache/tos/v1.52/platform-tools/rust/bin/rustc",
        "  Cargo: /h/.cache/tos/v1.52/platform-tools/rust/bin/cargo",
    ]);
    assert_eq!(toolchain_info(&cached_tools(), &disk), head);
    disk.add_dir("/h/.cache/tos/v1.52/platform-tools/llvm/bin", vec![]);
    let mut with_llvm = head.clone();
    with_llvm.push("  LLVM: /h/.cache/tos/v1.52/platform-tools/llvm/bin".to_string());
    assert_eq!(toolchain_info(&cached_tools(), &disk), with_llvm);

    let legacy = PlatformTools {
        version: "unknown".to_string(),
        rust_bin: "/l/rust/bin".to_string(),
        llvm_bin: "/l/llvm/bin".to_string(),
        source: ToolchainSource::Legacy,
    };
    let lines = toolchain_info(&legacy, &disk);
    assert_eq!(lines[2], "  Location: /l/rust/bin");
    assert_eq!(lines[3], "  Source: Legacy");
    assert_eq!(format!("{:?}", legacy.source), "Legacy");
}

#[test]
fn install_plans() {
    let mut disk = Disk::new();
    let plan = plan_install("/tmp/tools.tar.bz2", "v1.52", "/h", &disk);
    assert_eq!(plan.target_dir, "/h/.cache/tos/v1.52");
    assert_eq!(plan.tools_dir, "/h/.cache/tos/v1.52/platform-tools");
    assert!(!plan.installed);
    assert!(!plan.remove_old);
    assert_eq!(
        plan.extract,
        Invocation {
            program: "tar".to_string(),
            args: strings(&["-xjf", "/tmp/tools.tar.bz2", "-C", "/h/.cache/tos/v1.52"]),
            env: vec![],
            dir: None,
        }
    );

    disk.add_dir("/h/.cache/tos/v1.52/platform-tools", vec![]);
    let plan = plan_install("a.tar.bz2", "v1.52", "/h", &disk);
    assert!(!plan.installed);
    assert!(plan.remove_old);

    disk.add_file("/h/.cache/tos/v1.52/platform-tools/rust/bin/rustc");
    let plan = plan_install("a.tar.bz2", "v1.52", "/h", &disk);
    assert!(plan.installed);
    assert!(!plan.remove_old);
}

#[test]
fn install_results() {
    let exited = |success: bool| RunOutcome::Exited {
        success,
        code: Some(if success { 0 } else { 2 }),
        stdout: String::new(),
        stderr: String::new(),
    };
    let mut disk = Disk::new();
    assert_eq!(
        finish_install(&RunOutcome::NotStarted("no tar".to_string()), "v1", "/h", &disk),
        Err("Failed to run tar: no tar".to_string())
    );
    assert_eq!(
        finish_install(&RunOutcome::Lost("gone".to_string()), "v1", "/h", &disk),
        Err("Failed to run tar: gone".to_string())
    );
    assert_eq!(finish_install(&exited(false), "v1", "/h", &disk), Err("Failed to extract archive".to_string()));
    assert_eq!(
        finish_install(&exited(true), "v1", "/h", &disk),
        Err("Installation verification failed: rustc not found".to_string())
    );
    disk.add_file("/h/.cache/tos/v1/platform-tools/rust/bin/rustc");
    assert_eq!(
        finish_install(&exited(true), "v1", "/h", &disk),
        Ok("/h/.cache/tos/v1/platform-tools".to_string())
    );
    assert_eq!(finish_install(&exited(false), "v1", "/h", &disk), Err("Failed to extract archive".to_string()));
}
