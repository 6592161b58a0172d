use cargo_tako::disk::Disk;
use cargo_tako::error::Error;
use cargo_tako::util::{
    artifact_probes, check_cargo_available, contract_to_show, find_contract_binary,
    find_contract_binary_for_target, get_package_name, names_library, target_dirs,
};

fn strings(list: &[&str]) -> Vec<String> {
    list.iter().map(|s| s.to_string()).collect()
}

fn name_of(manifest: &str) -> Option<String> {
    get_package_name(manifest)
}

#[test]
fn output_directories() {
    assert_eq!(
        target_dirs(true, "tbpfv3-tos-tos"),
        strings(&[
            "target/tbpfv3-tos-tos/release",
            "target/release",
            "../target/tbpfv3-tos-tos/release",
            "../../target/tbpfv3-tos-tos/release",
        ])
    );
    assert_eq!(
        target_dirs(false, "t"),
        strings(&["target/t/debug", "target/debug", "../target/t/debug", "../../target/t/debug"])
    );
}

#[test]
fn package_name_from_a_usual_manifest() {
    let manifest = "[package]\nname = \"my-thing\"\nversion = \"0.1.0\"\n";
    assert_eq!(name_of(manifest), Some("my_thing".to_string()));
}

#[test]
fn package_name_edge_cases() {
    assert_eq!(name_of(""), None);
    assert_eq!(name_of("[package]\nversion = \"1\"\n"), None);
    assert_eq!(name_of("name"), None);
    assert_eq!(name_of("name=x"), Some("x".to_string()));
    assert_eq!(name_of("  name   =   'a-b-c'   "), Some("a_b_c".to_string()));
    assert_eq!(name_of("\tname = \"x\"\r\nname = \"y\"\r\n"), Some("x".to_string()));
    assert_eq!(name_of("name = \"a=b\""), Some("a".to_string()));
    assert_eq!(name_of("name ="), Some("".to_string()));
    assert_eq!(name_of("names = [\"q\"]"), Some("[\"q\"]".to_string()));
    assert_eq!(name_of("# name = \"x\"\nname = \"real\""), Some("real".to_string()));
    assert_eq!(name_of("name = \"'mixed'\""), Some("mixed".to_string()));
    assert_eq!(name_of("name = '\"mixed\"'"), Some("\"mixed\"".to_string()));
    assert_eq!(name_of("\n\n\nname = \"late\""), Some("late".to_string()));
    assert_eq!(name_of("nam = \"x\"\n"), None);
}

fn scan_by_std(text: &str) -> Option<String> {
    for line in text.lines() {
        let line = line.trim();
        if line.starts_with("name") && line.contains('=') {
            if let Some(value) = line.split('=').nth(1) {
                let name = value.trim().trim_matches('"').trim_matches('\'');
                return Some(name.replace('-', "_"));
            }
        }
    }
    None
}

#[test]
fn package_name_agrees_with_a_scan_by_the_standard_library() {
    let manifests = [
        "",
        "\n",
        "name",
        "name=",
        "=name",
        "name = \"a\"\n",
        "[package]\r\nname = \"cr-lf\"\r\n",
        "[package]\n  name=\"x-y\" # c = d\n",
        "x\nname\n=\nname = 'late'",
        "name = \u{a0}\"nbsp\"\u{a0}",
        "name = \"\"\"triple\"\"\"",
        "[dependencies]\nfoo = { name = \"x\" }\nname = \"pkg\"",
        "name\t=\t\"tabs\"\n\n",
        "name = a = b = c",
        "name == x",
        "description = \"name = x\"",
        "name = \"trailing\"\r",
    ];
    for m in manifests {
        assert_eq!(get_package_name(m), scan_by_std(m), "{m:?}");
    }
}

#[test]
fn library_names() {
    assert!(names_library("target/release/foo.so"));
    assert!(names_library("target/release/foo.dylib"));
    assert!(names_library("target/release/foo.dll"));
    assert!(!names_library("target/release/foo.rlib"));
    assert!(!names_library("target/release/foo"));
    assert!(!names_library("target/release/.so"));
    assert!(!names_library("target/release/deps/foo.so"));
    assert!(!names_library("target/release/foo.SO"));
    assert!(names_library("deps/foo.so"));
}

#[test]
fn scan_skips_the_deps_directory() {
    let mut disk = Disk::new();
    disk.add_dir("target/tbpf-tos-tos/release", strings(&["deps", "build", "bar.so"]));
    disk.add_dir("target/tbpf-tos-tos/release/deps", strings(&["foo.so"]));
    disk.add_file("target/tbpf-tos-tos/release/deps/foo.so");
    assert_eq!(
        find_contract_binary_for_target(true, "tbpf-tos-tos", None, &disk),
        Ok("target/tbpf-tos-tos/release/bar.so".to_string())
    );
}

#[test]
fn scan_never_returns_a_file_below_deps() {
    let mut disk = Disk::new();
    // a target whose output directory lies below a directory named deps
    disk.add_dir("target/x/deps/y/release", strings(&["foo.so"]));
    disk.add_dir("target/release", strings(&["bar.so"]));
    assert_eq!(
        find_contract_binary_for_target(true, "x/deps/y", None, &disk),
        Ok("target/release/bar.so".to_string())
    );
}

#[test]
fn package_binary_is_preferred_to_any_other() {
    let mut disk = Disk::new();
    disk.add_dir(
        "target/tbpfv3-tos-tos/release",
        strings(&["aaa.so", "my_thing.so", "zzz.so"]),
    );
    disk.add_file("target/tbpfv3-tos-tos/release/aaa.so");
    disk.add_file("target/tbpfv3-tos-tos/release/my_thing.so");
    disk.add_file("target/tbpfv3-tos-tos/release/zzz.so");
    let manifest = "[package]\nname = \"my-thing\"\nversion = \"0.1.0\"\n";
    assert_eq!(
        find_contract_binary_for_target(true, "tbpfv3-tos-tos", Some(manifest), &disk),
        Ok("target/tbpfv3-tos-tos/release/my_thing.so".to_string())
    );
    // without the manifest the scan takes the first library listed
    assert_eq!(
        find_contract_binary_for_target(true, "tbpfv3-tos-tos", None, &disk),
        Ok("target/tbpfv3-tos-tos/release/aaa.so".to_string())
    );
}

#[test]
fn package_binary_in_a_later_directory_beats_a_scan_hit_in_an_earlier_one() {
    let mut disk = Disk::new();
    disk.add_dir("target/t/debug", strings(&["other.so"]));
    disk.add_file("../target/t/debug/pkg.so");
    assert_eq!(
        find_contract_binary_for_target(false, "t", Some("name = \"pkg\""), &disk),
        Ok("../target/t/debug/pkg.so".to_string())
    );
}

#[test]
fn scan_goes_through_the_directories_in_order() {
    let mut disk = Disk::new();
    disk.add_dir("target/t/debug", strings(&["a.txt", "deps"]));
    disk.add_dir("../../target/t/debug", strings(&["far.dll"]));
    disk.add_dir("../target/t/debug", strings(&["near.dylib"]));
    assert_eq!(
        find_contract_binary_for_target(false, "t", Some("name = \"absent\""), &disk),
        Ok("../target/t/debug/near.dylib".to_string())
    );
}

#[test]
fn profile_selects_the_directory() {
    let mut disk = Disk::new();
    disk.add_dir("target/t/release", strings(&["r.so"]));
    assert_eq!(find_contract_binary_for_target(true, "t", None, &disk), Ok("target/t/release/r.so".to_string()));
    assert_eq!(
        find_contract_binary_for_target(false, "t", None, &disk),
        Err(Error::BuildFailed(
            "Contract binary (.so/.dylib/.dll) not found in target/t/debug".to_string()
        ))
    );
}

#[test]
fn nothing_built_is_a_failure() {
    let disk = Disk::new();
    assert_eq!(
        find_contract_binary_for_target(true, "tbpfv3-tos-tos", Some("name = \"x\""), &disk),
        Err(Error::BuildFailed(
            "Contract binary (.so/.dylib/.dll) not found in target/tbpfv3-tos-tos/release".to_string()
        ))
    );
}

#[test]
fn base_target_is_the_default() {
    let mut disk = Disk::new();
    disk.add_dir("target/tbpf-tos-tos/debug", strings(&["c.so"]));
    assert_eq!(find_contract_binary(false, None, &disk), Ok("target/tbpf-tos-tos/debug/c.so".to_string()));
    assert_eq!(
        find_contract_binary(true, None, &disk),
        Err(Error::BuildFailed(
            "Contract binary (.so/.dylib/.dll) not found in target/tbpf-tos-tos/release".to_string()
        ))
    );
}

#[test]
fn probes_name_all_that_is_read() {
    assert_eq!(
        artifact_probes(true, "t", Some("name = \"my-thing\"")),
        strings(&[
            "target/t/release/my_thing.so",
            "target/release/my_thing.so",
            "../target/t/release/my_thing.so",
            "../../target/t/release/my_thing.so",
            "target/t/release",
            "target/release",
            "../target/t/release",
            "../../target/t/release",
        ])
    );
    assert_eq!(
        artifact_probes(false, "t", None),
        strings(&["target/t/debug", "target/debug", "../target/t/debug", "../../target/t/debug"])
    );
}

#[test]
fn contract_to_show_named_or_found() {
    let mut disk = Disk::new();
    assert_eq!(
        contract_to_show(Some("a/b.so"), None, &disk),
        Err(Error::Other("Contract not found: a/b.so".to_string()))
    );
    disk.add_file("a/b.so");
    assert_eq!(contract_to_show(Some("a/b.so"), None, &disk), Ok("a/b.so".to_string()));
    assert_eq!(
        contract_to_show(None, None, &disk),
        Err(Error::BuildFailed(
            "Contract binary (.so/.dylib/.dll) not found in target/tbpf-tos-tos/debug".to_string()
        ))
    );
    disk.add_dir("target/debug", strings(&["c.so"]));
    assert_eq!(contract_to_show(None, None, &disk), Ok("target/debug/c.so".to_string()));
}

#[test]
fn cargo_availability() {
    assert_eq!(check_cargo_available(true), Ok(()));
    assert_eq!(check_cargo_available(false), Err(Error::Other("cargo not found in PATH".to_string())));
}
