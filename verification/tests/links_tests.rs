use reves::links::{find_crate, find_crates, LinkEntry, LinkResolution};
use reves::model::PackageId;
use reves::text::envify;

fn entry(key: &str, package: &str) -> LinkEntry {
    LinkEntry { key: envify(key), package: PackageId { repr: package.to_owned() } }
}

fn sample_links() -> Vec<LinkEntry> {
    vec![
        entry("banana", "apple"),
        entry("banana_banana", "apple_apple"),
        entry("cherry", "blueberry"),
    ]
}

#[test]
fn cargo_links_test_find_crates() {
    let crate_links = sample_links();
    let env_tests: Vec<(&str, Vec<PackageId>)> = vec![
        ("BANANA_", vec![PackageId { repr: "apple".to_owned() }]),
        (
            "BANANA_BANANA_",
            vec![
                PackageId { repr: "apple".to_owned() },
                PackageId { repr: "apple_apple".to_owned() },
            ],
        ),
        ("BANANA_A", vec![PackageId { repr: "apple".to_owned() }]),
        (
            "BANANA_BANANA_A",
            vec![
                PackageId { repr: "apple".to_owned() },
                PackageId { repr: "apple_apple".to_owned() },
            ],
        ),
        ("BANANA_A_B", vec![PackageId { repr: "apple".to_owned() }]),
        (
            "BANANA_BANANA_A_B",
            vec![
                PackageId { repr: "apple".to_owned() },
                PackageId { repr: "apple_apple".to_owned() },
            ],
        ),
        ("BANANA_A_B_C", vec![PackageId { repr: "apple".to_owned() }]),
        (
            "BANANA_BANANA_A_B_C",
            vec![
                PackageId { repr: "apple".to_owned() },
                PackageId { repr: "apple_apple".to_owned() },
            ],
        ),
        ("BANANA_A_B_C_", vec![PackageId { repr: "apple".to_owned() }]),
        (
            "BANANA_BANANA_A_B_C_",
            vec![
                PackageId { repr: "apple".to_owned() },
                PackageId { repr: "apple_apple".to_owned() },
            ],
        ),
        ("FOO_", vec![]),
    ];

    for env_test in env_tests.iter() {
        assert_eq!(find_crates(env_test.0, &crate_links), env_test.1);
    }
}

#[test]
fn find_crate_single_match_is_found() {
    let crate_links = sample_links();
    assert_eq!(
        find_crate("BANANA_ROOT", &crate_links),
        LinkResolution::Found(PackageId { repr: "apple".to_owned() })
    );
}

#[test]
fn find_crate_no_match_is_not_found() {
    let crate_links = sample_links();
    assert_eq!(find_crate("FOO_BAR", &crate_links), LinkResolution::NotFound);
}

#[test]
fn find_crate_several_matches_are_ambiguous() {
    let crate_links = sample_links();
    assert_eq!(find_crate("BANANA_BANANA_X", &crate_links), LinkResolution::Ambiguous);
}

#[test]
fn find_crate_is_deterministic() {
    let crate_links = sample_links();
    for variable in ["BANANA_ROOT", "BANANA_BANANA_X", "FOO_BAR", "", "_", "___"] {
        let first = find_crate(variable, &crate_links);
        let second = find_crate(variable, &crate_links);
        assert_eq!(first, second);
    }
}

#[test]
fn envify_upper_cases_and_replaces_separators() {
    assert_eq!(envify("banana-split"), "BANANA_SPLIT".to_owned());
    assert_eq!(envify(""), "".to_owned());
    assert_eq!(envify("a-b_c9"), "A_B_C9".to_owned());
}

#[test]
fn find_crates_key_must_end_at_separator() {
    let crate_links = sample_links();
    // The whole variable equals a key, but no separator follows, so nothing
    // matches.
    assert_eq!(find_crates("BANANA", &crate_links), Vec::<PackageId>::new());
}

#[test]
fn find_crates_normalizes_the_candidate_prefix() {
    let crate_links = sample_links();
    assert_eq!(find_crates("banana_x", &crate_links), vec![PackageId { repr: "apple".to_owned() }]);
}
