//! The fixed configuration of a harness run.
//!
//! No command-line flag or environment variable is read: the source URL, the
//! workspace paths and the iteration count are one explicit value built at
//! startup and passed down.  The working root holds the three logical slots
//! of a run — the extraction destination, the nominal target prefix (a path
//! value that need not exist on disk) and the real install prefix.

use crate::format::{spec_classify, FormatTag};
use vstd::prelude::*;

verus! {

/// The explicit configuration of a harness run.
pub struct HarnessConfig {
    /// The URL of the package archive, fetched once at run start.
    pub package_url: String,
    /// The disposable working root that is recreated empty at the start of
    /// every iteration.
    pub working_root: String,
    /// The extraction destination below the working root.
    pub extract_dir: String,
    /// The nominal target prefix handed to the linking collaborator for path
    /// rewriting; it need not exist on disk.
    pub target_prefix: String,
    /// The real prefix below the working root that linking installs into.
    pub real_prefix: String,
    /// How many reset-extract-link iterations to run.
    pub rounds: u64,
}

/// The configuration value for the linking collaborator: an optional
/// override for the nominal target prefix, with every unspecified field left
/// to the collaborator's default.
pub struct InstallSettings {
    /// Overrides the prefix path used for path rewriting inside installed
    /// files.
    pub target_prefix: Option<String>,
}

impl HarnessConfig {
    /// The linking options this configuration asks for: the nominal target
    /// prefix overridden with the configured path value.
    pub fn install_settings(&self) -> (r: InstallSettings)
        ensures
            r.target_prefix is Some,
            r.target_prefix->Some_0@ == self.target_prefix@,
    {
        InstallSettings { target_prefix: Some(self.target_prefix.clone()) }
    }
}

/// The built-in configuration: one libgfortran archive from conda-forge, a
/// working root under `target/test-tmp` with the extraction destination and
/// the real prefix below it, and one hundred rounds.
pub fn default_config() -> (c: HarnessConfig)
    ensures
        c.package_url@ == "https://conda.anaconda.org/conda-forge/linux-64/libgfortran-3.0.0-1.tar.bz2"@,
        c.working_root@ == "target/test-tmp"@,
        c.extract_dir@ == "target/test-tmp/fortran"@,
        c.target_prefix@ == "/foo/bar/baz"@,
        c.real_prefix@ == "target/test-tmp/prefix"@,
        c.rounds == 100,
        spec_classify(c.package_url@) == Some(FormatTag::TarBz2),
{
    let c = HarnessConfig {
        package_url:
            "https://conda.anaconda.org/conda-forge/linux-64/libgfortran-3.0.0-1.tar.bz2".to_string(),
        working_root: "target/test-tmp".to_string(),
        extract_dir: "target/test-tmp/fortran".to_string(),
        target_prefix: "/foo/bar/baz".to_string(),
        real_prefix: "target/test-tmp/prefix".to_string(),
        rounds: 100,
    };
    proof {
        reveal_strlit("https://conda.anaconda.org/conda-forge/linux-64/libgfortran-3.0.0-1.tar.bz2");
        reveal_strlit(".tar.bz2");
        assert(c.package_url@.subrange(
            c.package_url@.len() - ".tar.bz2"@.len(),
            c.package_url@.len() as int,
        ) =~= ".tar.bz2"@);
    }
    c
}

} // verus!
