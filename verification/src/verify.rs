//! Checking the header of a built binary against its architecture.
//!
//! A contract is a 64-bit ELF file. Of its header the check reads the
//! magic number, the class byte and the flags, a little-endian 32-bit
//! number at offset 48 that tells the architecture version.

use crate::error::{result_view, Error, ErrorView};
use crate::invoke::{expected_flags, get_expected_flags, is_arch, lemma_flags_tell_versions_apart};
use crate::text::{followed_by, decimal, hex, push_decimal, push_hex};
use vstd::prelude::*;

verus! {

/// The length of the header of a 64-bit ELF file; a shorter file is no contract.
pub const HEADER_LEN: usize = 64;

/// The size above which a contract is reported as very large: 10 MiB.
pub const MAX_REASONABLE_SIZE: usize = 10485760;

/// The file begins with the magic number of ELF: `0x7F`, `E`, `L`, `F`.
pub open spec fn has_magic(b: Seq<u8>) -> bool {
    b.len() >= 4 && b[0] == 0x7f && b[1] == 0x45 && b[2] == 0x4c && b[3] == 0x46
}

/// The flags of the header: the little-endian number in the four bytes
/// from offset 48.
pub open spec fn flags_field(b: Seq<u8>) -> u32
    recommends
        b.len() >= 52,
{
    (b[48] + b[49] * 0x100 + b[50] * 0x1_0000 + b[51] * 0x100_0000) as u32
}

/// What a passed check reports, for display.
#[derive(Debug, Clone, Copy, PartialEq, Eq, Structural)]
pub struct Verified {
    /// The flags found in the header.
    pub e_flags: u32,
    /// The size of the file in bytes.
    pub size: usize,
    /// Whether the file is larger than `MAX_REASONABLE_SIZE`, which earns
    /// a warning and fails nothing.
    pub oversized: bool,
}

impl View for Verified {
    type V = Verified;

    open spec fn view(&self) -> Verified {
        *self
    }
}

/// The file passes for the architecture: it holds a whole header with the
/// magic number, the class of 64-bit files, and the flags of `arch`.
pub open spec fn accepted(b: Seq<u8>, arch: Seq<char>) -> bool {
    &&& b.len() >= HEADER_LEN
    &&& has_magic(b)
    &&& b[4] == 2
    &&& flags_field(b) == expected_flags(arch)
}

/// The outcome of the check of a file's bytes. The length is checked
/// first, then the magic number, then the class, then the flags; the
/// first check that fails decides the message.
pub open spec fn checked(b: Seq<u8>, arch: Seq<char>) -> Result<Verified, ErrorView> {
    if b.len() < HEADER_LEN {
        Err(
            ErrorView::BuildFailed(
                "Contract file too small ("@ + decimal(b.len()) + " bytes)"@,
            ),
        )
    } else if !has_magic(b) {
        Err(ErrorView::BuildFailed("Invalid ELF file: wrong magic bytes"@))
    } else if b[4] != 2 {
        Err(
            ErrorView::BuildFailed(
                "Invalid ELF class: expected 64-bit (2), got "@ + decimal(b[4] as nat),
            ),
        )
    } else if flags_field(b) != expected_flags(arch) {
        Err(
            ErrorView::BuildFailed(
                "Wrong e_flags: expected 0x"@ + hex(expected_flags(arch) as nat) + " for "@ + arch
                    + ", got 0x"@ + hex(flags_field(b) as nat),
            ),
        )
    } else {
        Ok(
            Verified {
                e_flags: flags_field(b),
                size: b.len() as usize,
                oversized: b.len() > MAX_REASONABLE_SIZE,
            },
        )
    }
}

/// The check passes exactly for the files that are accepted.
pub proof fn lemma_checked_ok(b: Seq<u8>, arch: Seq<char>)
    ensures
        checked(b, arch) is Ok <==> accepted(b, arch),
{
}

/// A file with a whole header, the magic number and the class of 64-bit
/// files passes for exactly the architectures whose flags it carries.
pub proof fn lemma_passes_for_its_flags(b: Seq<u8>, arch: Seq<char>)
    requires
        b.len() >= HEADER_LEN,
        has_magic(b),
        b[4] == 2,
    ensures
        checked(b, arch) is Ok <==> expected_flags(arch) == flags_field(b),
{
}

/// A file that passes for one architecture version fails for every other
/// version.
pub proof fn lemma_passes_for_one_version(b: Seq<u8>, arch: Seq<char>, other: Seq<char>)
    requires
        is_arch(arch),
        is_arch(other),
        arch != other,
        checked(b, arch) is Ok,
    ensures
        checked(b, other) is Err,
{
    lemma_flags_tell_versions_apart(arch, other);
}

/// The check fails a file that is shorter than a header, one without the
/// magic number, one of another class, and one whose flags differ from
/// those of the architecture in any bit. A file shorter than a header
/// fails for its length, whatever it holds.
pub proof fn lemma_rejects(b: Seq<u8>, arch: Seq<char>)
    ensures
        b.len() < HEADER_LEN ==> checked(b, arch) == Err::<Verified, ErrorView>(
            ErrorView::BuildFailed("Contract file too small ("@ + decimal(b.len()) + " bytes)"@),
        ),
        !has_magic(b) ==> checked(b, arch) is Err,
        b.len() >= 5 && b[4] != 2 ==> checked(b, arch) is Err,
        b.len() >= 52 && flags_field(b) != expected_flags(arch) ==> checked(b, arch) is Err,
{
}

/// Checks the bytes of a file against the architecture.
pub fn verify_bytes(contents: &[u8], arch: &str) -> (r: Result<Verified, Error>)
    ensures
        result_view(r) == checked(contents@, arch@),
{
    if contents.len() < HEADER_LEN {
        let mut message = String::from_str("Contract file too small (");
        push_decimal(&mut message, contents.len() as u64);
        message.append(" bytes)");
        return Err(Error::BuildFailed(message));
    }
    if contents[0] != 0x7f || contents[1] != 0x45 || contents[2] != 0x4c || contents[3] != 0x46 {
        return Err(Error::BuildFailed(String::from_str("Invalid ELF file: wrong magic bytes")));
    }
    let elf_class: u8 = contents[4];
    if elf_class != 2 {
        let mut message = String::from_str("Invalid ELF class: expected 64-bit (2), got ");
        push_decimal(&mut message, elf_class as u64);
        return Err(Error::BuildFailed(message));
    }
    let e_flags: u32 = contents[48] as u32 + (contents[49] as u32) * 0x100 + (contents[50] as u32)
        * 0x1_0000 + (contents[51] as u32) * 0x100_0000;
    let expected: u32 = get_expected_flags(arch);
    if e_flags != expected {
        let mut message = String::from_str("Wrong e_flags: expected 0x");
        push_hex(&mut message, expected as u64);
        message.append(" for ");
        message.append(arch);
        message.append(", got 0x");
        push_hex(&mut message, e_flags as u64);
        return Err(Error::BuildFailed(message));
    }
    Ok(Verified { e_flags, size: contents.len(), oversized: contents.len() > MAX_REASONABLE_SIZE })
}

/// What reading the file of a contract gave.
#[derive(Debug, PartialEq, Eq)]
pub enum Loaded {
    /// Nothing exists at the path.
    Missing,
    /// The file exists and could not be read; holds the system's message.
    Unreadable(String),
    /// The bytes of the file.
    Bytes(Vec<u8>),
}

/// The mathematical value of a `Loaded`.
pub enum LoadedView {
    Missing,
    Unreadable(Seq<char>),
    Bytes(Seq<u8>),
}

impl View for Loaded {
    type V = LoadedView;

    open spec fn view(&self) -> LoadedView {
        match self {
            Loaded::Missing => LoadedView::Missing,
            Loaded::Unreadable(m) => LoadedView::Unreadable(m@),
            Loaded::Bytes(b) => LoadedView::Bytes(b@),
        }
    }
}

/// The outcome of the verification of the file at `path`: a file that is
/// missing or cannot be read fails at once, and a file that was read is
/// checked by its bytes.
pub open spec fn verified(path: Seq<char>, file: LoadedView, arch: Seq<char>) -> Result<
    Verified,
    ErrorView,
> {
    match file {
        LoadedView::Missing => Err(ErrorView::BuildFailed("Contract binary not found: "@ + path)),
        LoadedView::Unreadable(m) => Err(ErrorView::BuildFailed("Failed to read contract: "@ + m)),
        LoadedView::Bytes(b) => checked(b, arch),
    }
}

/// Verifies a built contract: the file exists, can be read, and its
/// header is that of a 64-bit ELF file for the architecture `arch`.
pub fn verify_contract(path: &str, file: &Loaded, arch: &str) -> (r: Result<Verified, Error>)
    ensures
        result_view(r) == verified(path@, file@, arch@),
{
    match file {
        Loaded::Missing => Err(Error::BuildFailed(followed_by("Contract binary not found: ", path))),
        Loaded::Unreadable(m) => Err(
            Error::BuildFailed(followed_by("Failed to read contract: ", m.as_str())),
        ),
        Loaded::Bytes(b) => verify_bytes(b.as_slice(), arch),
    }
}

/// How the class byte of an ELF header is shown.
pub open spec fn class_label(class: u8) -> Seq<char> {
    if class == 1 {
        "32-bit"@
    } else if class == 2 {
        "64-bit"@
    } else {
        "unknown"@
    }
}

/// The lines that describe the format of a file: whether it is an ELF
/// file and, where it is one and holds a class byte, its class.
pub open spec fn format_lines(b: Seq<u8>) -> Seq<Seq<char>> {
    if !has_magic(b) {
        seq!["  Format: Invalid (not ELF)"@]
    } else if b.len() >= 5 {
        seq!["  Format: ELF (valid)"@, "  Class: "@ + class_label(b[4])]
    } else {
        seq!["  Format: ELF (valid)"@]
    }
}

/// The lines that describe the format of a file, for display.
pub fn describe_format(contents: &[u8]) -> (r: Vec<String>)
    ensures
        r.deep_view() == format_lines(contents@),
{
    let mut r: Vec<String> = Vec::new();
    if contents.len() >= 4 && contents[0] == 0x7f && contents[1] == 0x45 && contents[2] == 0x4c
        && contents[3] == 0x46 {
        r.push(String::from_str("  Format: ELF (valid)"));
        if contents.len() >= 5 {
            let label = if contents[4] == 1 {
                "32-bit"
            } else if contents[4] == 2 {
                "64-bit"
            } else {
                "unknown"
            };
            r.push(followed_by("  Class: ", label));
        }
    } else {
        r.push(String::from_str("  Format: Invalid (not ELF)"));
    }
    proof {
        assert(r.deep_view() == format_lines(contents@));
    }
    r
}

} // verus!
