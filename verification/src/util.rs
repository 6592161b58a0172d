//! Finding the binary that a build produced.

use crate::disk::{listing, present, Disk, DiskView};
use crate::error::{result_view, Error, ErrorView};
use crate::path::{extension, extension_of, join, join_path};
use crate::text::{
    after, before, chars_of, followed_by, contains, find_char, find_char_from, has_part,
    lemma_position, option_view, position, replace_char, same_chars, slice_of, starts_with,
    string_of, swap_char, trim, trimmed, Strip,
};
use vstd::prelude::*;

verus! {

/// The name of the output directory of a profile.
pub open spec fn profile_dir(release: bool) -> Seq<char> {
    if release {
        "release"@
    } else {
        "debug"@
    }
}

/// The directories in which a built binary is looked for, in order: the
/// project's own output for the target, its output without a target, and
/// the output for the target of a workspace one and two levels up.
pub open spec fn target_dirs_of(release: bool, target: Seq<char>) -> Seq<Seq<char>> {
    let profile = profile_dir(release);
    seq![
        "target/"@ + target + "/"@ + profile,
        "target/"@ + profile,
        "../target/"@ + target + "/"@ + profile,
        "../../target/"@ + target + "/"@ + profile,
    ]
}

/// The directories in which a built binary is looked for, in order.
pub fn target_dirs(release: bool, target: &str) -> (r: Vec<String>)
    ensures
        r.deep_view() == target_dirs_of(release, target@),
{
    let profile = if release {
        "release"
    } else {
        "debug"
    };
    let mut own = followed_by("target/", target);
    own.append("/");
    own.append(profile);
    let plain = followed_by("target/", profile);
    let mut parent = followed_by("../target/", target);
    parent.append("/");
    parent.append(profile);
    let mut grandparent = followed_by("../../target/", target);
    grandparent.append("/");
    grandparent.append(profile);
    let mut r: Vec<String> = Vec::new();
    r.push(own);
    r.push(plain);
    r.push(parent);
    r.push(grandparent);
    proof {
        assert(r.deep_view() == target_dirs_of(release, target@));
    }
    r
}

/// A manifest line declares the package's name when, trimmed, it begins
/// with `name` and holds a `=`.
pub open spec fn declares_name(line: Seq<char>) -> bool {
    "name"@.is_prefix_of(line) && position(line, '=') < line.len()
}

/// The name that such a line declares: what stands between its first `=`
/// and its next one, without blanks around it, without double quotes and
/// then single quotes around that, and with `_` for every `-`, as the
/// compiler names the binary.
pub open spec fn declared_name(line: Seq<char>) -> Seq<char> {
    let value = before(after(line, '='), '=');
    let bare = trimmed(
        trimmed(trimmed(value, Strip::Whitespace), Strip::Char('"')),
        Strip::Char('\''),
    );
    swap_char(bare, '-', '_')
}

/// The package name that a manifest declares: that of its first line which
/// declares one. The manifest is scanned line by line; it is not parsed.
pub open spec fn package_name(manifest: Seq<char>) -> Option<Seq<char>>
    decreases manifest.len(),
{
    let line = trimmed(before(manifest, '\n'), Strip::Whitespace);
    if declares_name(line) {
        Some(declared_name(line))
    } else if position(manifest, '\n') < manifest.len() {
        package_name(after(manifest, '\n'))
    } else {
        None
    }
}

/// The package name that the text of a manifest declares, as the name of
/// the binary built from it.
pub fn get_package_name(manifest: &str) -> (r: Option<String>)
    ensures
        option_view(r) == package_name(manifest@),
{
    let text = chars_of(manifest);
    let name = chars_of("name");
    let mut start: usize = 0;
    proof {
        assert(text@.skip(0) == text@);
    }
    loop
        invariant
            start <= text.len(),
            name@ == "name"@,
            text@ == manifest@,
            package_name(manifest@) == package_name(text@.skip(start as int)),
        decreases text.len() - start,
    {
        let ghost rest = text@.skip(start as int);
        let end = find_char_from(text.as_slice(), '\n', start);
        let raw = slice_of(text.as_slice(), start, end);
        proof {
            assert(raw@ == before(rest, '\n'));
        }
        let line = trim(raw.as_slice(), Strip::Whitespace);
        let eq = find_char(line.as_slice(), '=');
        if starts_with(line.as_slice(), name.as_slice()) && eq < line.len() {
            let tail = slice_of(line.as_slice(), eq + 1, line.len());
            let stop = find_char(tail.as_slice(), '=');
            proof {
                lemma_position(tail@, '=');
            }
            let value = slice_of(tail.as_slice(), 0, stop);
            let unspaced = trim(value.as_slice(), Strip::Whitespace);
            let unquoted = trim(unspaced.as_slice(), Strip::Char('"'));
            let bare = trim(unquoted.as_slice(), Strip::Char('\''));
            let normal = replace_char(bare.as_slice(), '-', '_');
            proof {
                assert(tail@ == after(line@, '='));
                assert(value@ == before(tail@, '='));
            }
            return Some(string_of(normal.as_slice()));
        }
        if end == text.len() {
            return None;
        }
        proof {
            assert(after(rest, '\n') == text@.skip(end + 1));
        }
        start = end + 1;
    }
}

/// The first of `dirs` that holds `file`, as the path of the file in it.
pub open spec fn named_artifact(d: DiskView, dirs: Seq<Seq<char>>, file: Seq<char>) -> Option<
    Seq<char>,
>
    decreases dirs.len(),
{
    if dirs.len() == 0 {
        None
    } else if present(d, join(dirs[0], file)) {
        Some(join(dirs[0], file))
    } else {
        named_artifact(d, dirs.drop_first(), file)
    }
}

/// A path names a final library: its extension is `so`, `dylib` or `dll`,
/// and it does not pass through a `deps` directory, which holds
/// intermediate outputs.
pub open spec fn is_library(path: Seq<char>) -> bool {
    &&& extension(path) == Some("so"@) || extension(path) == Some("dylib"@) || extension(path)
        == Some("dll"@)
    &&& !contains(path, "/deps/"@)
}

/// The first entry of a directory that names a final library, as a path.
pub open spec fn first_library(dir: Seq<char>, names: Seq<Seq<char>>) -> Option<Seq<char>>
    decreases names.len(),
{
    if names.len() == 0 {
        None
    } else if is_library(join(dir, names[0])) {
        Some(join(dir, names[0]))
    } else {
        first_library(dir, names.drop_first())
    }
}

/// The first final library of a directory; none where the directory
/// cannot be listed.
pub open spec fn library_in(d: DiskView, dir: Seq<char>) -> Option<Seq<char>> {
    match listing(d, dir) {
        Some(names) => first_library(dir, names),
        None => None,
    }
}

/// The first final library of the first of `dirs` that has one.
pub open spec fn scanned_artifact(d: DiskView, dirs: Seq<Seq<char>>) -> Option<Seq<char>>
    decreases dirs.len(),
{
    if dirs.len() == 0 {
        None
    } else if library_in(d, dirs[0]) is Some {
        library_in(d, dirs[0])
    } else {
        scanned_artifact(d, dirs.drop_first())
    }
}

/// The name under which the manifest's package is built, if the manifest
/// could be read and declares one.
pub open spec fn binary_name(manifest: Option<Seq<char>>) -> Option<Seq<char>> {
    match manifest {
        Some(text) => package_name(text),
        None => None,
    }
}

/// The binary of the package by its name, if the name is known and one of
/// the directories holds `<name>.so`.
pub open spec fn exact_artifact(d: DiskView, dirs: Seq<Seq<char>>, manifest: Option<Seq<char>>) -> Option<
    Seq<char>,
> {
    match binary_name(manifest) {
        Some(name) => named_artifact(d, dirs, name + ".so"@),
        None => None,
    }
}

/// The built binary: the package's own by its name, else the first final
/// library that a scan of the directories meets, else a failure that
/// names the profile and the target.
pub open spec fn artifact(
    d: DiskView,
    release: bool,
    target: Seq<char>,
    manifest: Option<Seq<char>>,
) -> Result<Seq<char>, ErrorView> {
    let dirs = target_dirs_of(release, target);
    if exact_artifact(d, dirs, manifest) is Some {
        Ok(exact_artifact(d, dirs, manifest)->0)
    } else if scanned_artifact(d, dirs) is Some {
        Ok(scanned_artifact(d, dirs)->0)
    } else {
        Err(
            ErrorView::BuildFailed(
                "Contract binary (.so/.dylib/.dll) not found in target/"@ + target + "/"@
                    + profile_dir(release),
            ),
        )
    }
}

/// The name under which a package is built holds no `-`.
pub proof fn lemma_package_name_has_no_hyphen(manifest: Seq<char>)
    requires
        package_name(manifest) is Some,
    ensures
        !package_name(manifest)->0.contains('-'),
    decreases manifest.len(),
{
    let line = trimmed(before(manifest, '\n'), Strip::Whitespace);
    if declares_name(line) {
        let name = declared_name(line);
        assert forall|i: int| 0 <= i < name.len() implies name[i] != '-' by {}
    } else {
        lemma_package_name_has_no_hyphen(after(manifest, '\n'));
    }
}

/// What a scan of one directory finds names a final library.
pub proof fn lemma_first_library(dir: Seq<char>, names: Seq<Seq<char>>)
    requires
        first_library(dir, names) is Some,
    ensures
        is_library(first_library(dir, names)->0),
    decreases names.len(),
{
    if !is_library(join(dir, names[0])) {
        lemma_first_library(dir, names.drop_first());
    }
}

/// Whatever the scan finds names a final library: it has the extension
/// of one and passes through no `deps` directory.
pub proof fn lemma_scan_finds_library(d: DiskView, dirs: Seq<Seq<char>>)
    requires
        scanned_artifact(d, dirs) is Some,
    ensures
        is_library(scanned_artifact(d, dirs)->0),
        !contains(scanned_artifact(d, dirs)->0, "/deps/"@),
    decreases dirs.len(),
{
    if library_in(d, dirs[0]) is Some {
        lemma_first_library(dirs[0], listing(d, dirs[0])->0);
    } else {
        lemma_scan_finds_library(d, dirs.drop_first());
    }
}

/// Where the manifest declares a package and the first output directory
/// holds the binary named after it, that binary is the one found,
/// whatever else the directories hold.
pub proof fn lemma_package_binary_preferred(
    d: DiskView,
    release: bool,
    target: Seq<char>,
    manifest: Option<Seq<char>>,
)
    requires
        binary_name(manifest) is Some,
        present(d, join(target_dirs_of(release, target)[0], binary_name(manifest)->0 + ".so"@)),
    ensures
        artifact(d, release, target, manifest) == Ok::<Seq<char>, ErrorView>(
            join(target_dirs_of(release, target)[0], binary_name(manifest)->0 + ".so"@),
        ),
{
}

/// Whether a path names a final library.
pub fn names_library(path: &str) -> (r: bool)
    ensures
        r == is_library(path@),
{
    let text = chars_of(path);
    match extension_of(text.as_slice()) {
        None => false,
        Some(ext) => {
            let so = chars_of("so");
            let dylib = chars_of("dylib");
            let dll = chars_of("dll");
            let deps = chars_of("/deps/");
            (same_chars(ext.as_slice(), so.as_slice()) || same_chars(
                ext.as_slice(),
                dylib.as_slice(),
            ) || same_chars(ext.as_slice(), dll.as_slice())) && !has_part(
                text.as_slice(),
                deps.as_slice(),
            )
        },
    }
}

fn find_named(dirs: &Vec<String>, file: &str, disk: &Disk) -> (r: Option<String>)
    ensures
        option_view(r) == named_artifact(disk@, dirs.deep_view(), file@),
{
    let ghost all = dirs.deep_view();
    let mut i: usize = 0;
    proof {
        assert(all.skip(0) == all);
    }
    while i < dirs.len()
        invariant
            i <= dirs.len(),
            all == dirs.deep_view(),
            named_artifact(disk@, all, file@) == named_artifact(disk@, all.skip(i as int), file@),
        decreases dirs.len() - i,
    {
        let path = join_path(dirs[i].as_str(), file);
        proof {
            assert(all.skip(i as int)[0] == dirs[i as int]@);
            assert(all.skip(i as int).drop_first() == all.skip(i + 1));
        }
        if disk.holds(path.as_str()) {
            return Some(path);
        }
        i = i + 1;
    }
    None
}

fn find_library(dir: &str, names: &Vec<String>) -> (r: Option<String>)
    ensures
        option_view(r) == first_library(dir@, names.deep_view()),
{
    let ghost all = names.deep_view();
    let mut i: usize = 0;
    proof {
        assert(all.skip(0) == all);
    }
    while i < names.len()
        invariant
            i <= names.len(),
            all == names.deep_view(),
            first_library(dir@, all) == first_library(dir@, all.skip(i as int)),
        decreases names.len() - i,
    {
        let path = join_path(dir, names[i].as_str());
        proof {
            assert(all.skip(i as int)[0] == names[i as int]@);
            assert(all.skip(i as int).drop_first() == all.skip(i + 1));
        }
        if names_library(path.as_str()) {
            return Some(path);
        }
        i = i + 1;
    }
    None
}

fn find_scanned(dirs: &Vec<String>, disk: &Disk) -> (r: Option<String>)
    ensures
        option_view(r) == scanned_artifact(disk@, dirs.deep_view()),
{
    let ghost all = dirs.deep_view();
    let mut i: usize = 0;
    proof {
        assert(all.skip(0) == all);
    }
    while i < dirs.len()
        invariant
            i <= dirs.len(),
            all == dirs.deep_view(),
            scanned_artifact(disk@, all) == scanned_artifact(disk@, all.skip(i as int)),
        decreases dirs.len() - i,
    {
        proof {
            assert(all.skip(i as int)[0] == dirs[i as int]@);
            assert(all.skip(i as int).drop_first() == all.skip(i + 1));
        }
        if let Some(names) = disk.read_dir(dirs[i].as_str()) {
            if let Some(path) = find_library(dirs[i].as_str(), names) {
                return Some(path);
            }
        }
        i = i + 1;
    }
    None
}

/// Finds the binary that a build for `target` produced.
///
/// `manifest` is the text of the project's manifest, or `None` where it
/// could not be read. Where it declares a package name, `<name>.so` is
/// looked for in each output directory first. Otherwise, and where no
/// directory holds that file, the directories are scanned in order for
/// the first final library.
pub fn find_contract_binary_for_target(
    release: bool,
    target: &str,
    manifest: Option<&str>,
    disk: &Disk,
) -> (r: Result<String, Error>)
    ensures
        result_view(r) == artifact(disk@, release, target@, option_view(manifest)),
{
    let dirs = target_dirs(release, target);
    let name = match manifest {
        Some(text) => get_package_name(text),
        None => None,
    };
    if let Some(n) = name {
        let file = followed_by(n.as_str(), ".so");
        if let Some(path) = find_named(&dirs, file.as_str(), disk) {
            return Ok(path);
        }
    }
    if let Some(path) = find_scanned(&dirs, disk) {
        return Ok(path);
    }
    let mut message = followed_by("Contract binary (.so/.dylib/.dll) not found in target/", target);
    message.append("/");
    message.append(
        if release {
            "release"
        } else {
            "debug"
        },
    );
    Err(Error::BuildFailed(message))
}

/// Finds the binary that a build for the base target produced.
pub fn find_contract_binary(release: bool, manifest: Option<&str>, disk: &Disk) -> (r: Result<
    String,
    Error,
>)
    ensures
        result_view(r) == artifact(disk@, release, "tbpf-tos-tos"@, option_view(manifest)),
{
    find_contract_binary_for_target(release, "tbpf-tos-tos", manifest, disk)
}

/// Every path that the search for the binary looks at: for each output
/// directory the file named after the package, where its name is known,
/// and after those the directories themselves.
pub open spec fn artifact_probes_of(release: bool, target: Seq<char>, manifest: Option<Seq<char>>) -> Seq<
    Seq<char>,
> {
    let dirs = target_dirs_of(release, target);
    let named = match binary_name(manifest) {
        Some(name) => Seq::new(dirs.len(), |i: int| join(dirs[i], name + ".so"@)),
        None => Seq::empty(),
    };
    named + dirs
}

/// Every path that the search for the binary looks at. A caller that
/// records what stands at each of them has recorded all that
/// `find_contract_binary_for_target` reads.
pub fn artifact_probes(release: bool, target: &str, manifest: Option<&str>) -> (r: Vec<String>)
    ensures
        r.deep_view() == artifact_probes_of(release, target@, option_view(manifest)),
{
    let dirs = target_dirs(release, target);
    let ghost all = dirs.deep_view();
    let name = match manifest {
        Some(text) => get_package_name(text),
        None => None,
    };
    let mut out: Vec<String> = Vec::new();
    if let Some(n) = name {
        let file = followed_by(n.as_str(), ".so");
        let ghost named = Seq::new(all.len(), |i: int| join(all[i], file@));
        let mut i: usize = 0;
        proof {
            assert(out.deep_view() == named.take(0));
        }
        while i < dirs.len()
            invariant
                i <= dirs.len(),
                all == dirs.deep_view(),
                named == Seq::new(all.len(), |i: int| join(all[i], file@)),
                out.deep_view() == named.take(i as int),
            decreases dirs.len() - i,
        {
            let ghost before = out.deep_view();
            out.push(join_path(dirs[i].as_str(), file.as_str()));
            proof {
                assert(all[i as int] == dirs[i as int]@);
                assert(out.deep_view() == before.push(named[i as int]));
                assert(named.take(i + 1) == named.take(i as int).push(named[i as int]));
            }
            i = i + 1;
        }
        proof {
            assert(named.take(dirs.len() as int) == named);
        }
    }
    let ghost named = out.deep_view();
    let mut k: usize = 0;
    proof {
        assert(out.deep_view() == named + all.take(0));
    }
    while k < dirs.len()
        invariant
            k <= dirs.len(),
            all == dirs.deep_view(),
            out.deep_view() == named + all.take(k as int),
        decreases dirs.len() - k,
    {
        let ghost before = out.deep_view();
        out.push(dirs[k].clone());
        proof {
            assert(all[k as int] == dirs[k as int]@);
            assert(out.deep_view() == before.push(all[k as int]));
            assert(all.take(k + 1) == all.take(k as int).push(all[k as int]));
        }
        k = k + 1;
    }
    proof {
        assert(all.take(dirs.len() as int) == all);
    }
    out
}

/// The binary whose information is shown: the one named, where it
/// exists, or else the debug build for the base target.
pub open spec fn shown_contract(
    d: DiskView,
    contract_path: Option<Seq<char>>,
    manifest: Option<Seq<char>>,
) -> Result<Seq<char>, ErrorView> {
    match contract_path {
        Some(p) => if present(d, p) {
            Ok(p)
        } else {
            Err(ErrorView::Other("Contract not found: "@ + p))
        },
        None => artifact(d, false, "tbpf-tos-tos"@, manifest),
    }
}

/// The path of the binary whose information is shown. A path that is
/// given must exist; without one the debug build for the base target is
/// looked for.
pub fn contract_to_show(contract_path: Option<&str>, manifest: Option<&str>, disk: &Disk) -> (r:
    Result<String, Error>)
    ensures
        result_view(r) == shown_contract(disk@, option_view(contract_path), option_view(manifest)),
{
    match contract_path {
        Some(p) => {
            if disk.holds(p) {
                Ok(String::from_str(p))
            } else {
                Err(Error::Other(followed_by("Contract not found: ", p)))
            }
        },
        None => find_contract_binary(false, manifest, disk),
    }
}

/// Whether the build driver can be used, given whether a search of the
/// program path found `cargo`.
pub fn check_cargo_available(found: bool) -> (r: Result<(), Error>)
    ensures
        result_view(r) == if found {
            Ok::<(), ErrorView>(())
        } else {
            Err::<(), ErrorView>(ErrorView::Other("cargo not found in PATH"@))
        },
{
    if found {
        Ok(())
    } else {
        Err(Error::Other(String::from_str("cargo not found in PATH")))
    }
}

} // verus!
