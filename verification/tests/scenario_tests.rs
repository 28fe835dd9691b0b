use reves::correlate::{correlate, BuildEvent};
use reves::fix::{apply_fix, removal_plan, toml_key_to_dep_kind, ManifestDoc, ManifestSection};
use reves::model::{
    ArtifactRecord, DependencyDecl, Error, OrphanArtifact, OrphanArtifactKind, PackageId,
    RawMetadata, RawNode, RawNodeDep, RawDependencyKind, RawPackage, TargetRecord,
    UnusedDependency,
};
use reves::normalize::{dependency_kinds, metadata_to_structured_metadata, StructuredMetadata};
use reves::passes::{
    doc_eligible_members, find_unused_dependencies_all_invocations, find_unused_dependencies_check,
    find_unused_dependencies_doc, merge_unused_dependencies, unused_dep_in, DocReport,
};
use reves::version::Version;
use reves::DependencyKind;

fn pid(s: &str) -> PackageId {
    PackageId { repr: s.to_owned() }
}

fn target(kinds: &[&str], name: &str, src_path: &str) -> TargetRecord {
    TargetRecord {
        kinds: kinds.iter().map(|k| k.to_string()).collect(),
        name: name.to_owned(),
        src_path: src_path.to_owned(),
    }
}

fn package(
    id: &str,
    name: &str,
    links: Option<&str>,
    deps: &[&str],
    targets: Vec<TargetRecord>,
) -> RawPackage {
    RawPackage {
        id: pid(id),
        name: name.to_owned(),
        manifest_path: format!("/ws/{}/Cargo.toml", name),
        links: links.map(|l| l.to_owned()),
        dependencies: deps.iter().map(|d| DependencyDecl { name: d.to_string() }).collect(),
        targets,
    }
}

fn node_dep(name: &str, pkg: &str, kinds: &[RawDependencyKind]) -> RawNodeDep {
    RawNodeDep { name: name.to_owned(), pkg: pid(pkg), dep_kinds: kinds.to_vec() }
}

fn node(id: &str, deps: Vec<RawNodeDep>) -> RawNode {
    RawNode { id: pid(id), deps }
}

fn modern_version() -> Version {
    Version { major: 1, minor: 72, patch: 1, pre: String::new() }
}

fn artifact(pkg: &str, t: &TargetRecord, profile_test: bool) -> ArtifactRecord {
    ArtifactRecord { package_id: pid(pkg), target: t.clone(), profile_test }
}

fn unused_diag(pkg: &str, t: &TargetRecord, krate: &str, in_target: &str) -> BuildEvent {
    BuildEvent::CompilerMessage {
        package_id: pid(pkg),
        target: t.clone(),
        code: Some("unused_crate_dependencies".to_owned()),
        message: format!(
            "external crate `{}` unused in `{}`: remove the dependency or add `use {} as _;`",
            krate, in_target, krate
        ),
    }
}

fn finding(dependant: &str, dependency: &str, kind: DependencyKind, name: &str) -> UnusedDependency {
    UnusedDependency {
        dependant: pid(dependant),
        dependency: pid(dependency),
        dep_kind: kind,
        dependency_name: name.to_owned(),
        dependant_manifest_path: format!("/ws/{}/Cargo.toml", dependant),
    }
}

/// Package `magenta` declares normal dep `fuchsia`, build dep `fuchsia` and
/// dev-dep `purple`, none referenced in source.
fn magenta_metadata() -> StructuredMetadata {
    let raw = RawMetadata {
        packages: vec![
            package(
                "magenta",
                "magenta",
                None,
                &["fuchsia", "purple"],
                vec![
                    target(&["lib"], "magenta", "/ws/magenta/src/lib.rs"),
                    target(&["custom-build"], "build-script-build", "/ws/magenta/build.rs"),
                ],
            ),
            package("fuchsia", "fuchsia", None, &[], vec![target(
                &["lib"],
                "fuchsia",
                "/ws/fuchsia/src/lib.rs",
            )]),
            package("purple", "purple", None, &[], vec![target(
                &["lib"],
                "purple",
                "/ws/purple/src/lib.rs",
            )]),
        ],
        resolve: Some(vec![
            node(
                "magenta",
                vec![
                    node_dep(
                        "fuchsia",
                        "fuchsia",
                        &[RawDependencyKind::Normal, RawDependencyKind::Build],
                    ),
                    node_dep("purple", "purple", &[RawDependencyKind::Development]),
                ],
            ),
            node("fuchsia", vec![]),
            node("purple", vec![]),
        ]),
        workspace_members: vec![pid("magenta")],
        workspace_default_members: vec![pid("magenta")],
    };
    metadata_to_structured_metadata(raw, &modern_version()).unwrap()
}

#[test]
fn three_unused_facts_for_magenta() {
    let sm = magenta_metadata();
    let lib_t = target(&["lib"], "magenta", "/ws/magenta/src/lib.rs");
    let bs_t = target(&["custom-build"], "build-script-build", "/ws/magenta/build.rs");

    let events = vec![
        unused_diag("magenta", &bs_t, "fuchsia", "build_script_build"),
        BuildEvent::CompilerArtifact { artifact: artifact("magenta", &bs_t, false) },
        BuildEvent::BuildScriptExecuted { package_id: pid("magenta"), lines: vec![] },
        unused_diag("magenta", &lib_t, "fuchsia", "magenta"),
        BuildEvent::CompilerArtifact { artifact: artifact("magenta", &lib_t, false) },
        unused_diag("magenta", &lib_t, "fuchsia", "magenta"),
        unused_diag("magenta", &lib_t, "purple", "magenta"),
        BuildEvent::CompilerArtifact { artifact: artifact("magenta", &lib_t, true) },
        BuildEvent::BuildFinished,
    ];
    let (results, warnings) = find_unused_dependencies_check(&events, &sm).unwrap();
    assert!(warnings.is_empty());
    assert_eq!(results.unused_dependencies.len(), 3);
    assert!(results.orphans.is_empty());

    let doc_reports = vec![DocReport {
        package_id: pid("magenta"),
        unused_extern_names: vec!["fuchsia".to_owned(), "purple".to_owned()],
    }];
    let doc_unused = find_unused_dependencies_doc(&sm, &doc_reports).unwrap();
    let combined = find_unused_dependencies_all_invocations(&results, &Some(doc_unused));

    assert_eq!(combined.unused_dependencies.len(), 3);
    assert!(combined.orphans.is_empty());
    for expected in [
        finding("magenta", "fuchsia", DependencyKind::Normal, "fuchsia"),
        finding("magenta", "fuchsia", DependencyKind::Build, "fuchsia"),
        finding("magenta", "purple", DependencyKind::Development, "purple"),
    ] {
        assert!(unused_dep_in(&combined.unused_dependencies, &expected));
    }
}

/// Package `lily` declares normal dep `buttercup`, used only through its
/// published link key inside `lily`'s build step.
fn lily_metadata() -> StructuredMetadata {
    let raw = RawMetadata {
        packages: vec![
            package(
                "lily",
                "lily",
                None,
                &["buttercup"],
                vec![
                    target(&["lib"], "lily", "/ws/lily/src/lib.rs"),
                    target(&["custom-build"], "build-script-build", "/ws/lily/build.rs"),
                ],
            ),
            package("buttercup", "buttercup", Some("buttercup"), &[], vec![target(
                &["lib"],
                "buttercup",
                "/ws/buttercup/src/lib.rs",
            )]),
        ],
        resolve: Some(vec![
            node("lily", vec![node_dep("buttercup", "buttercup", &[RawDependencyKind::Normal])]),
            node("buttercup", vec![]),
        ]),
        workspace_members: vec![pid("lily")],
        workspace_default_members: vec![pid("lily")],
    };
    metadata_to_structured_metadata(raw, &modern_version()).unwrap()
}

#[test]
fn link_key_consumption_suppresses_the_finding() {
    let sm = lily_metadata();
    let lib_t = target(&["lib"], "lily", "/ws/lily/src/lib.rs");
    let bs_t = target(&["custom-build"], "build-script-build", "/ws/lily/build.rs");

    let events = vec![
        BuildEvent::CompilerArtifact { artifact: artifact("lily", &bs_t, false) },
        BuildEvent::BuildScriptExecuted {
            package_id: pid("lily"),
            lines: vec![
                "cargo:rerun-if-env-changed=DEP_BUTTERCUP_ROOT".to_owned(),
                "cargo:rustc-cfg=has_buttercup".to_owned(),
            ],
        },
        unused_diag("lily", &lib_t, "buttercup", "lily"),
        BuildEvent::CompilerArtifact { artifact: artifact("lily", &lib_t, false) },
        BuildEvent::BuildFinished,
    ];
    let (results, warnings) = find_unused_dependencies_check(&events, &sm).unwrap();
    assert!(warnings.is_empty());
    assert!(results.unused_dependencies.is_empty());
    assert!(results.orphans.is_empty());
}

#[test]
fn unresolvable_link_variable_is_a_warning_not_a_fault() {
    let sm = lily_metadata();
    let bs_t = target(&["custom-build"], "build-script-build", "/ws/lily/build.rs");
    let events = vec![
        BuildEvent::CompilerArtifact { artifact: artifact("lily", &bs_t, false) },
        BuildEvent::BuildScriptExecuted {
            package_id: pid("lily"),
            lines: vec!["cargo:rerun-if-env-changed=DEP_NOBODY_HOME".to_owned()],
        },
        BuildEvent::BuildFinished,
    ];
    let (results, warnings) = find_unused_dependencies_check(&events, &sm).unwrap();
    assert_eq!(warnings, vec!["NOBODY_HOME".to_owned()]);
    assert!(results.unused_dependencies.is_empty());
}

/// Package `pepper`'s binary artifact never references `pepper`'s own
/// library.
fn pepper_metadata() -> StructuredMetadata {
    let raw = RawMetadata {
        packages: vec![package(
            "pepper",
            "pepper",
            None,
            &[],
            vec![
                target(&["lib"], "pepper", "/ws/pepper/src/lib.rs"),
                target(&["bin"], "pepper", "/ws/pepper/src/main.rs"),
            ],
        )],
        resolve: Some(vec![node("pepper", vec![])]),
        workspace_members: vec![pid("pepper")],
        workspace_default_members: vec![pid("pepper")],
    };
    metadata_to_structured_metadata(raw, &modern_version()).unwrap()
}

#[test]
fn orphaned_binary_is_reported() {
    let sm = pepper_metadata();
    let lib_t = target(&["lib"], "pepper", "/ws/pepper/src/lib.rs");
    let bin_t = target(&["bin"], "pepper", "/ws/pepper/src/main.rs");

    let events = vec![
        BuildEvent::CompilerArtifact { artifact: artifact("pepper", &lib_t, false) },
        unused_diag("pepper", &bin_t, "pepper", "pepper"),
        BuildEvent::CompilerArtifact { artifact: artifact("pepper", &bin_t, false) },
        BuildEvent::BuildFinished,
    ];
    let (results, _) = find_unused_dependencies_check(&events, &sm).unwrap();
    assert!(results.unused_dependencies.is_empty());
    assert_eq!(results.orphans.len(), 1);
    assert_eq!(
        results.orphans[0],
        OrphanArtifact {
            crate_id: pid("pepper"),
            kind: OrphanArtifactKind::Binary,
            artifact_name: "pepper".to_owned(),
            crate_relative_path: "src/main.rs".to_owned(),
        }
    );
}

#[test]
fn uncovered_possible_user_drops_the_candidate() {
    // The library compiled twice, but only one compilation flagged the
    // dependency unused: some possible user exercised it, so the candidate is
    // dropped as benign.
    let sm = magenta_metadata();
    let lib_t = target(&["lib"], "magenta", "/ws/magenta/src/lib.rs");
    let events = vec![
        unused_diag("magenta", &lib_t, "purple", "magenta"),
        BuildEvent::CompilerArtifact { artifact: artifact("magenta", &lib_t, false) },
        BuildEvent::CompilerArtifact { artifact: artifact("magenta", &lib_t, true) },
        BuildEvent::BuildFinished,
    ];
    let (results, _) = find_unused_dependencies_check(&events, &sm).unwrap();
    // The dev-kind candidate's possible user is the test-profile compilation,
    // which never flagged it.
    assert!(results.unused_dependencies.is_empty());
}

#[test]
fn diagnostic_for_another_target_while_accumulating_is_fatal() {
    let sm = pepper_metadata();
    let lib_t = target(&["lib"], "pepper", "/ws/pepper/src/lib.rs");
    let bin_t = target(&["bin"], "pepper", "/ws/pepper/src/main.rs");
    let events = vec![
        unused_diag("pepper", &bin_t, "pepper", "pepper"),
        unused_diag("pepper", &lib_t, "pepper", "pepper"),
    ];
    assert_eq!(correlate(&events, &sm), Err(Error::DiagnosticTargetMismatch));
}

#[test]
fn text_line_in_the_stream_is_fatal() {
    let sm = pepper_metadata();
    let events = vec![BuildEvent::TextLine];
    assert_eq!(correlate(&events, &sm), Err(Error::UnexpectedTextLine));
}

#[test]
fn stream_ending_mid_target_is_fatal() {
    let sm = pepper_metadata();
    let bin_t = target(&["bin"], "pepper", "/ws/pepper/src/main.rs");
    let events = vec![unused_diag("pepper", &bin_t, "pepper", "pepper")];
    assert_eq!(correlate(&events, &sm), Err(Error::DanglingDiagnostics));
}

#[test]
fn unresolvable_foreign_name_is_fatal() {
    let sm = pepper_metadata();
    let bin_t = target(&["bin"], "pepper", "/ws/pepper/src/main.rs");
    let events = vec![unused_diag("pepper", &bin_t, "salt", "pepper")];
    assert_eq!(correlate(&events, &sm), Err(Error::MissingNodeDependency));
}

#[test]
fn non_member_diagnostics_are_ignored() {
    let sm = lily_metadata();
    // `buttercup` is in the graph but not a workspace member.
    let lib_t = target(&["lib"], "buttercup", "/ws/buttercup/src/lib.rs");
    let events = vec![unused_diag("buttercup", &lib_t, "nonsense", "buttercup")];
    let c = correlate(&events, &sm).unwrap();
    assert!(c.candidates.is_empty());
    assert!(c.orphans.is_empty());
}

#[test]
fn merge_keeps_build_findings_and_doc_confirmed_findings() {
    let regular = vec![
        finding("magenta", "fuchsia", DependencyKind::Normal, "fuchsia"),
        finding("magenta", "fuchsia", DependencyKind::Build, "fuchsia"),
        finding("magenta", "purple", DependencyKind::Development, "purple"),
    ];
    let doc = Some(vec![finding("magenta", "fuchsia", DependencyKind::Normal, "fuchsia")]);
    let merged = merge_unused_dependencies(&regular, &doc);
    assert_eq!(
        merged,
        vec![
            finding("magenta", "fuchsia", DependencyKind::Normal, "fuchsia"),
            finding("magenta", "fuchsia", DependencyKind::Build, "fuchsia"),
        ]
    );
}

#[test]
fn merge_without_doc_pass_keeps_everything() {
    let regular = vec![
        finding("magenta", "fuchsia", DependencyKind::Normal, "fuchsia"),
        finding("magenta", "purple", DependencyKind::Development, "purple"),
    ];
    let merged = merge_unused_dependencies(&regular, &None);
    assert_eq!(merged, regular);
}

#[test]
fn merging_twice_changes_nothing() {
    let regular = vec![
        finding("magenta", "fuchsia", DependencyKind::Normal, "fuchsia"),
        finding("magenta", "fuchsia", DependencyKind::Build, "fuchsia"),
        finding("magenta", "purple", DependencyKind::Development, "purple"),
    ];
    let doc = Some(vec![finding("magenta", "purple", DependencyKind::Development, "purple")]);
    let once = merge_unused_dependencies(&regular, &doc);
    let twice = merge_unused_dependencies(&once, &doc);
    assert_eq!(once, twice);
}

#[test]
fn doc_pass_reports_one_fact_per_kind_and_skips_self_references() {
    let sm = magenta_metadata();
    let reports = vec![DocReport {
        package_id: pid("magenta"),
        unused_extern_names: vec!["fuchsia".to_owned(), "magenta".to_owned()],
    }];
    let unused = find_unused_dependencies_doc(&sm, &reports).unwrap();
    assert_eq!(unused.len(), 2);
    assert!(unused_dep_in(&unused, &finding("magenta", "fuchsia", DependencyKind::Normal, "fuchsia")));
    assert!(unused_dep_in(&unused, &finding("magenta", "fuchsia", DependencyKind::Build, "fuchsia")));
}

#[test]
fn doc_pass_rejects_a_fact_reported_twice() {
    let sm = magenta_metadata();
    let reports = vec![DocReport {
        package_id: pid("magenta"),
        unused_extern_names: vec!["fuchsia".to_owned(), "fuchsia".to_owned()],
    }];
    assert_eq!(
        find_unused_dependencies_doc(&sm, &reports),
        Err(Error::DuplicateUnusedDependency)
    );
}

#[test]
fn doc_eligible_members_require_a_library() {
    let sm = pepper_metadata();
    let eligible = doc_eligible_members(&sm, &sm.all_workspace_members).unwrap();
    assert_eq!(eligible, vec![pid("pepper")]);
}

#[test]
fn normalizer_rejects_duplicate_link_keys() {
    let raw = RawMetadata {
        packages: vec![
            package("a", "a", Some("zlib"), &[], vec![]),
            package("b", "b", Some("zlib"), &[], vec![]),
        ],
        resolve: Some(vec![]),
        workspace_members: vec![],
        workspace_default_members: vec![],
    };
    assert_eq!(
        metadata_to_structured_metadata(raw, &modern_version()),
        Err(Error::DuplicateLinkKey)
    );
}

#[test]
fn normalizer_rejects_default_members_outside_the_workspace() {
    let raw = RawMetadata {
        packages: vec![package("a", "a", None, &[], vec![])],
        resolve: Some(vec![]),
        workspace_members: vec![pid("a")],
        workspace_default_members: vec![pid("b")],
    };
    assert_eq!(
        metadata_to_structured_metadata(raw, &modern_version()),
        Err(Error::DefaultMembersNotSubset)
    );
}

#[test]
fn normalizer_ignores_default_members_on_old_build_tools() {
    let raw = RawMetadata {
        packages: vec![package("a", "a", None, &[], vec![])],
        resolve: Some(vec![]),
        workspace_members: vec![pid("a")],
        workspace_default_members: vec![pid("b")],
    };
    let old = Version { major: 1, minor: 65, patch: 0, pre: String::new() };
    let sm = metadata_to_structured_metadata(raw, &old).unwrap();
    assert_eq!(sm.default_workspace_members, None);
}

#[test]
fn normalizer_rejects_a_graph_without_a_resolve_section() {
    let raw = RawMetadata {
        packages: vec![],
        resolve: None,
        workspace_members: vec![],
        workspace_default_members: vec![],
    };
    assert_eq!(metadata_to_structured_metadata(raw, &modern_version()), Err(Error::MissingResolve));
}

#[test]
fn normalizer_rejects_duplicate_package_ids() {
    let raw = RawMetadata {
        packages: vec![package("a", "a", None, &[], vec![]), package("a", "a2", None, &[], vec![])],
        resolve: Some(vec![]),
        workspace_members: vec![],
        workspace_default_members: vec![],
    };
    assert_eq!(
        metadata_to_structured_metadata(raw, &modern_version()),
        Err(Error::DuplicatePackage)
    );
}

#[test]
fn fix_plan_names_exactly_the_matching_sections() {
    let doc = ManifestDoc {
        sections: vec![
            ManifestSection {
                name: "dependencies".to_owned(),
                entries: vec!["fuchsia".to_owned(), "serde".to_owned()],
            },
            ManifestSection {
                name: "dev-dependencies".to_owned(),
                entries: vec!["fuchsia".to_owned()],
            },
            ManifestSection {
                name: "build-dependencies".to_owned(),
                entries: vec!["fuchsia".to_owned()],
            },
        ],
    };
    let f = finding("magenta", "fuchsia", DependencyKind::Build, "fuchsia");
    assert_eq!(removal_plan(&doc, &f), vec!["build-dependencies".to_owned()]);

    let missing = finding("magenta", "lavender", DependencyKind::Normal, "lavender");
    assert_eq!(removal_plan(&doc, &missing), Vec::<String>::new());
}

#[test]
fn applying_a_fix_round_trips_to_zero_findings_for_that_triple() {
    let doc = ManifestDoc {
        sections: vec![
            ManifestSection {
                name: "dependencies".to_owned(),
                entries: vec!["fuchsia".to_owned(), "serde".to_owned()],
            },
            ManifestSection {
                name: "dev-dependencies".to_owned(),
                entries: vec!["purple".to_owned()],
            },
        ],
    };
    let f = finding("magenta", "fuchsia", DependencyKind::Normal, "fuchsia");
    let edited = apply_fix(&doc, &f);
    // The fixed triple is gone...
    assert_eq!(removal_plan(&edited, &f), Vec::<String>::new());
    assert_eq!(edited.sections[0].entries, vec!["serde".to_owned()]);
    // ...and everything else is untouched.
    assert_eq!(edited.sections[1].entries, vec!["purple".to_owned()]);
    assert_eq!(edited.sections[0].name, "dependencies".to_owned());
}

#[test]
fn toml_keys_map_to_their_kinds() {
    assert_eq!(toml_key_to_dep_kind("dependencies"), Some(DependencyKind::Normal));
    assert_eq!(toml_key_to_dep_kind("dev-dependencies"), Some(DependencyKind::Development));
    assert_eq!(toml_key_to_dep_kind("build-dependencies"), Some(DependencyKind::Build));
    assert_eq!(toml_key_to_dep_kind("features"), None);
}

#[test]
fn normalizer_rejects_duplicate_renamed_dependencies() {
    let raw = RawMetadata {
        packages: vec![package("a", "a", None, &[], vec![])],
        resolve: Some(vec![node(
            "a",
            vec![
                node_dep("dep", "b", &[RawDependencyKind::Normal]),
                node_dep("dep", "c", &[RawDependencyKind::Normal]),
            ],
        )]),
        workspace_members: vec![],
        workspace_default_members: vec![],
    };
    assert_eq!(
        metadata_to_structured_metadata(raw, &modern_version()),
        Err(Error::DuplicateRenamedDependency)
    );
}

#[test]
fn normalizer_rejects_duplicate_nodes() {
    let raw = RawMetadata {
        packages: vec![package("a", "a", None, &[], vec![])],
        resolve: Some(vec![node("a", vec![]), node("a", vec![])]),
        workspace_members: vec![],
        workspace_default_members: vec![],
    };
    assert_eq!(metadata_to_structured_metadata(raw, &modern_version()), Err(Error::DuplicateNode));
}

#[test]
fn normalizer_rejects_duplicate_members() {
    let raw = RawMetadata {
        packages: vec![package("a", "a", None, &[], vec![])],
        resolve: Some(vec![]),
        workspace_members: vec![pid("a"), pid("a")],
        workspace_default_members: vec![],
    };
    assert_eq!(
        metadata_to_structured_metadata(raw, &modern_version()),
        Err(Error::DuplicateWorkspaceMember)
    );
    let raw = RawMetadata {
        packages: vec![package("a", "a", None, &[], vec![])],
        resolve: Some(vec![]),
        workspace_members: vec![pid("a")],
        workspace_default_members: vec![pid("a"), pid("a")],
    };
    assert_eq!(
        metadata_to_structured_metadata(raw, &modern_version()),
        Err(Error::DuplicateDefaultWorkspaceMember)
    );
}

#[test]
fn edge_kind_faults_are_reported() {
    let unknown = node_dep("dep", "b", &[RawDependencyKind::Unknown]);
    assert_eq!(dependency_kinds(&unknown), Err(Error::UnsupportedDependencyKind));
    let empty = node_dep("dep", "b", &[]);
    assert_eq!(dependency_kinds(&empty), Err(Error::EmptyDependencyKinds));
    let dedup = node_dep(
        "dep",
        "b",
        &[RawDependencyKind::Normal, RawDependencyKind::Normal, RawDependencyKind::Build],
    );
    assert_eq!(dependency_kinds(&dedup), Ok(vec![DependencyKind::Normal, DependencyKind::Build]));
}

#[test]
fn dependency_missing_from_the_declared_list_is_fatal() {
    // The edge resolves, but the dependant's manifest never declares the
    // dependency under its package name.
    let raw = RawMetadata {
        packages: vec![
            package("a", "a", None, &[], vec![target(&["lib"], "a", "/ws/a/src/lib.rs")]),
            package("b", "b", None, &[], vec![]),
        ],
        resolve: Some(vec![
            node("a", vec![node_dep("b", "b", &[RawDependencyKind::Normal])]),
            node("b", vec![]),
        ]),
        workspace_members: vec![pid("a")],
        workspace_default_members: vec![pid("a")],
    };
    let sm = metadata_to_structured_metadata(raw, &modern_version()).unwrap();
    let lib_t = target(&["lib"], "a", "/ws/a/src/lib.rs");
    let events = vec![unused_diag("a", &lib_t, "b", "a")];
    assert_eq!(correlate(&events, &sm), Err(Error::MissingPackageDependency));
}

#[test]
fn member_without_a_package_record_is_fatal() {
    // Membership alone does not guarantee a package record; a diagnostic for
    // such a member cannot be placed.
    let raw = RawMetadata {
        packages: vec![],
        resolve: Some(vec![]),
        workspace_members: vec![pid("ghost")],
        workspace_default_members: vec![pid("ghost")],
    };
    let sm = metadata_to_structured_metadata(raw, &modern_version()).unwrap();
    let lib_t = target(&["lib"], "ghost", "/ws/ghost/src/lib.rs");
    let events = vec![unused_diag("ghost", &lib_t, "anything", "ghost")];
    assert_eq!(correlate(&events, &sm), Err(Error::UnknownPackage));
}

#[test]
fn artifact_for_another_target_while_accumulating_is_fatal() {
    let sm = pepper_metadata();
    let lib_t = target(&["lib"], "pepper", "/ws/pepper/src/lib.rs");
    let bin_t = target(&["bin"], "pepper", "/ws/pepper/src/main.rs");
    let events = vec![
        unused_diag("pepper", &bin_t, "pepper", "pepper"),
        BuildEvent::CompilerArtifact { artifact: artifact("pepper", &lib_t, false) },
    ];
    assert_eq!(correlate(&events, &sm), Err(Error::ArtifactTargetMismatch));
}

#[test]
fn orphan_source_outside_the_package_directory_is_fatal() {
    let raw = RawMetadata {
        packages: vec![package("pepper", "pepper", None, &[], vec![
            target(&["lib"], "pepper", "/ws/pepper/src/lib.rs"),
            target(&["bin"], "pepper", "/elsewhere/main.rs"),
        ])],
        resolve: Some(vec![node("pepper", vec![])]),
        workspace_members: vec![pid("pepper")],
        workspace_default_members: vec![pid("pepper")],
    };
    let sm = metadata_to_structured_metadata(raw, &modern_version()).unwrap();
    let bin_t = target(&["bin"], "pepper", "/elsewhere/main.rs");
    let events = vec![unused_diag("pepper", &bin_t, "pepper", "pepper")];
    assert_eq!(correlate(&events, &sm), Err(Error::ArtifactPathOutsidePackage));
}

#[test]
fn build_finished_while_accumulating_is_fatal() {
    let sm = pepper_metadata();
    let bin_t = target(&["bin"], "pepper", "/ws/pepper/src/main.rs");
    let events = vec![unused_diag("pepper", &bin_t, "pepper", "pepper"), BuildEvent::BuildFinished];
    assert_eq!(correlate(&events, &sm), Err(Error::DanglingDiagnostics));
}
