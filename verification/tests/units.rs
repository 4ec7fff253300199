use stress_harness::config::default_config;
use stress_harness::errors::HarnessError;
use stress_harness::format::{classify_url, FormatTag};
use stress_harness::workspace::WorkspaceModel;

#[test]
fn classify_recognizes_tar_bz2() {
    assert_eq!(
        classify_url("https://conda.anaconda.org/conda-forge/linux-64/libgfortran-3.0.0-1.tar.bz2"),
        Ok(FormatTag::TarBz2)
    );
    assert_eq!(classify_url("libgfortran-3.0.0-1.tar.bz2"), Ok(FormatTag::TarBz2));
}

#[test]
fn classify_recognizes_conda() {
    assert_eq!(
        classify_url("https://conda.anaconda.org/conda-forge/linux-64/zlib-1.2.13-0.conda"),
        Ok(FormatTag::Conda)
    );
    assert_eq!(classify_url("zlib-1.2.13-0.conda"), Ok(FormatTag::Conda));
}

#[test]
fn classify_rejects_other_suffixes() {
    assert_eq!(classify_url("package.zip"), Err(HarnessError::UnsupportedFormat));
    assert_eq!(classify_url("package.tar.gz"), Err(HarnessError::UnsupportedFormat));
    assert_eq!(classify_url("package.condax"), Err(HarnessError::UnsupportedFormat));
    assert_eq!(classify_url("package.tar.bz2.sig"), Err(HarnessError::UnsupportedFormat));
    assert_eq!(classify_url(""), Err(HarnessError::UnsupportedFormat));
    // The suffix has to sit at the very end, not merely occur somewhere.
    assert_eq!(classify_url("a.conda/listing"), Err(HarnessError::UnsupportedFormat));
}

#[test]
fn classify_accepts_bare_suffixes() {
    // The trailing path segment alone decides; any stem, even none, will do.
    assert_eq!(classify_url(".tar.bz2"), Ok(FormatTag::TarBz2));
    assert_eq!(classify_url(".conda"), Ok(FormatTag::Conda));
}

#[test]
fn default_config_holds_the_fixed_paths() {
    let c = default_config();
    assert_eq!(
        c.package_url,
        "https://conda.anaconda.org/conda-forge/linux-64/libgfortran-3.0.0-1.tar.bz2"
    );
    assert_eq!(c.working_root, "target/test-tmp");
    assert_eq!(c.extract_dir, "target/test-tmp/fortran");
    assert_eq!(c.target_prefix, "/foo/bar/baz");
    assert_eq!(c.real_prefix, "target/test-tmp/prefix");
    assert_eq!(c.rounds, 100);
    assert_eq!(classify_url(&c.package_url), Ok(FormatTag::TarBz2));
}

#[test]
fn install_settings_carry_the_target_prefix_override() {
    let c = default_config();
    let s = c.install_settings();
    assert_eq!(s.target_prefix.as_deref(), Some("/foo/bar/baz"));
}

#[test]
fn error_accessors_report_step_and_iteration() {
    assert_eq!(HarnessError::UnsupportedFormat.step_name(), "unsupported archive type");
    assert_eq!(HarnessError::NetworkError.step_name(), "unable to fetch package");
    assert_eq!(HarnessError::BodyReadError.step_name(), "unable to stream response body");
    assert_eq!(
        HarnessError::WorkspaceError { iteration: 7 }.step_name(),
        "unable to reset workspace"
    );
    assert_eq!(
        HarnessError::ExtractionError { iteration: 9 }.step_name(),
        "unable to extract package"
    );
    assert_eq!(HarnessError::LinkError { iteration: 11 }.step_name(), "unable to link package");
    assert_eq!(HarnessError::UnsupportedFormat.iteration(), None);
    assert_eq!(HarnessError::NetworkError.iteration(), None);
    assert_eq!(HarnessError::BodyReadError.iteration(), None);
    assert_eq!(HarnessError::WorkspaceError { iteration: 7 }.iteration(), Some(7));
    assert_eq!(HarnessError::ExtractionError { iteration: 9 }.iteration(), Some(9));
    assert_eq!(HarnessError::LinkError { iteration: 11 }.iteration(), Some(11));
}

#[test]
fn workspace_reset_clears_any_leftover_state() {
    let mut w = WorkspaceModel::absent();
    assert!(!w.check_empty());
    w.reset();
    assert!(w.check_empty());
    w.deposit(3);
    assert!(!w.check_empty());
    assert_eq!(w.entries, 3);
    w.deposit(2);
    assert_eq!(w.entries, 5);
    w.reset();
    assert!(w.check_empty());
    assert_eq!(w.entries, 0);
}
