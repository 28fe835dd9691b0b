use reves::model::Error;
use reves::names::parse_unused_crate_diagnostic;
use reves::version::{parse_cargo_version_output, supports_default_workspace_members, Version};

struct UnusedCrateDiagnosticTest {
    message: String,
    crate_name: String,
}

#[test]
fn lib_test_find_crates() {
    let unused_crate_tests: Vec<UnusedCrateDiagnosticTest> = vec![UnusedCrateDiagnosticTest {
        message:
            "external crate `toml` unused in `reves`: remove the dependency or add `use toml as _;`"
                .to_owned(),
        crate_name: "toml".to_owned(),
    }];

    for unused_crate_test in unused_crate_tests.iter() {
        assert_eq!(
            parse_unused_crate_diagnostic(unused_crate_test.message.as_str()).unwrap().name,
            unused_crate_test.crate_name
        );
    }
}

#[test]
fn diagnostic_without_the_fixed_format_is_rejected() {
    assert_eq!(
        parse_unused_crate_diagnostic("unused variable: `x`"),
        Err(Error::UnparseableDiagnostic)
    );
    assert_eq!(
        parse_unused_crate_diagnostic("external crate `toml` unused in reves"),
        Err(Error::UnparseableDiagnostic)
    );
    assert_eq!(parse_unused_crate_diagnostic(""), Err(Error::UnparseableDiagnostic));
}

struct CargoVersionTest {
    message: &'static str,
    version: Version,
}

fn version(major: u64, minor: u64, patch: u64) -> Version {
    Version { major, minor, patch, pre: String::new() }
}

#[test]
fn test_cargo_version() {
    let version_tests: &[CargoVersionTest] = &[
        CargoVersionTest {
            message: "cargo 1.72.1 (103a7ff2e 2023-08-15)\nrelease: 1.72.1\ncommit-hash: 103a7ff2ee7678d34f34d778614c5eb2525ae9de\ncommit-date: 2023-08-15\nhost: x86_64-unknown-linux-gnu\nlibgit2: 1.6.4 (sys:0.17.2 vendored)\nlibcurl: 8.1.2-DEV (sys:0.4.63+curl-8.1.2 vendored ssl:OpenSSL/1.1.1u)\nssl: OpenSSL 1.1.1u  30 May 2023\nos: Linux 4 (chimaera) [64-bit]\n",
            version: version(1, 72, 1),
        },
        CargoVersionTest {
            message: "cargo 1.68.0 (115f34552 2023-02-26)\nrelease: 1.68.0\ncommit-hash: 115f34552518a2f9b96d740192addbac1271e7e6\ncommit-date: 2023-02-26\nhost: x86_64-unknown-linux-gnu\nlibgit2: 1.5.0 (sys:0.16.0 vendored)\nlibcurl: 7.86.0-DEV (sys:0.4.59+curl-7.86.0 vendored ssl:OpenSSL/1.1.1q)\nos: Linux 4 (chimaera) [64-bit]\n",
            version: version(1, 68, 0),
        },
        CargoVersionTest {
            message: "cargo 1.65.0\nrelease: 1.65.0\nhost: x86_64-unknown-linux-gnu\nlibgit2: 1.5.1 (sys:0.16.0 system)\nlibcurl: 7.88.1 (sys:0.4.59+curl-7.86.0 system ssl:GnuTLS/3.7.9)\nos: Linux [64-bit]\n",
            version: version(1, 65, 0),
        },
    ];
    for version_test in version_tests.iter() {
        assert_eq!(parse_cargo_version_output(version_test.message).unwrap(), version_test.version);
    }
}

#[test]
fn version_report_without_release_line_is_rejected() {
    assert_eq!(
        parse_cargo_version_output("cargo 1.65.0\nhost: x86_64-unknown-linux-gnu\n"),
        Err(Error::MissingCargoVersion)
    );
    assert_eq!(parse_cargo_version_output(""), Err(Error::MissingCargoVersion));
}

#[test]
fn version_report_with_two_release_lines_is_rejected() {
    assert_eq!(
        parse_cargo_version_output("release: 1.65.0\nrelease: 1.66.0\n"),
        Err(Error::MultipleCargoVersions)
    );
}

#[test]
fn version_report_with_garbage_release_line_is_rejected() {
    assert_eq!(
        parse_cargo_version_output("release: not-a-version\n"),
        Err(Error::UnparseableCargoVersion)
    );
}

#[test]
fn pre_release_versions_parse_and_never_support_default_members() {
    let nightly = parse_cargo_version_output("release: 1.75.0-nightly\n").unwrap();
    assert_eq!(nightly.major, 1);
    assert_eq!(nightly.minor, 75);
    assert_eq!(nightly.patch, 0);
    assert_eq!(nightly.pre, "nightly".to_owned());
    assert!(!supports_default_workspace_members(&nightly));
}

#[test]
fn default_member_support_starts_at_one_seventy_one() {
    assert!(!supports_default_workspace_members(&version(1, 70, 9)));
    assert!(supports_default_workspace_members(&version(1, 71, 0)));
    assert!(supports_default_workspace_members(&version(1, 72, 1)));
    assert!(supports_default_workspace_members(&version(2, 0, 0)));
    assert!(!supports_default_workspace_members(&version(0, 99, 0)));
}

#[test]
fn carriage_returns_are_stripped_from_report_lines() {
    let v = parse_cargo_version_output("cargo 1.65.0\r\nrelease: 1.65.0\r\n").unwrap();
    assert_eq!(v, version(1, 65, 0));
}
