//! The settings of a project, as its `Tako.toml` holds them.
//!
//! The library holds the settings and their defaults; reading and writing
//! the file is left to the caller.

use vstd::prelude::*;

verus! {

/// The name of the settings file in a project's directory.
pub const CONFIG_FILE: &'static str = "Tako.toml";

/// The package that a project builds.
#[derive(Debug, PartialEq, Eq)]
pub struct PackageConfig {
    pub name: String,
    pub version: String,
}

/// The contract of a project.
#[derive(Debug, PartialEq, Eq)]
pub struct ContractConfig {
    /// The name of the entry function.
    pub entry: String,
    /// The version of the binary interface.
    pub abi_version: String,
}

/// How a project is built.
#[derive(Debug, PartialEq, Eq)]
pub struct BuildConfig {
    /// The target to build for.
    pub target: String,
    /// The optimization level.
    pub opt_level: String,
}

/// All settings of a project. A section that the file leaves out holds
/// its defaults.
#[derive(Debug, PartialEq, Eq)]
pub struct TakoConfig {
    pub package: PackageConfig,
    pub contract: ContractConfig,
    pub build: BuildConfig,
}

/// The entry function of a contract unless the settings name another.
pub fn default_entry() -> (r: String)
    ensures
        r@ == "entrypoint"@,
{
    String::from_str("entrypoint")
}

/// The interface version of a contract unless the settings name another.
pub fn default_abi_version() -> (r: String)
    ensures
        r@ == "1.0"@,
{
    String::from_str("1.0")
}

/// The target of a build unless the settings name another.
pub fn default_target() -> (r: String)
    ensures
        r@ == "tbpf-tos-tos"@,
{
    String::from_str("tbpf-tos-tos")
}

/// The optimization level of a build unless the settings name another.
pub fn default_opt_level() -> (r: String)
    ensures
        r@ == "z"@,
{
    String::from_str("z")
}

impl Default for PackageConfig {
    fn default() -> (r: Self)
        ensures
            r.name@ == Seq::<char>::empty(),
            r.version@ == Seq::<char>::empty(),
    {
        PackageConfig { name: String::new(), version: String::new() }
    }
}

impl Default for ContractConfig {
    fn default() -> (r: Self)
        ensures
            r.entry@ == "entrypoint"@,
            r.abi_version@ == "1.0"@,
    {
        ContractConfig { entry: default_entry(), abi_version: default_abi_version() }
    }
}

impl Default for BuildConfig {
    fn default() -> (r: Self)
        ensures
            r.target@ == "tbpf-tos-tos"@,
            r.opt_level@ == "z"@,
    {
        BuildConfig { target: default_target(), opt_level: default_opt_level() }
    }
}

} // verus!
