use reves::args::{
    compute_cargo_args, compute_encoded_flags, compute_feature_args, compute_target_args,
    CargoArgs, CheckTarget, ColorChoice, Features,
};
use reves::artifact::{has_lib_artifact, kind_to_artifact_kind};
use reves::model::{ArtifactKind, Error, OrphanArtifactKind, TargetRecord};

fn kinds(ks: &[&str]) -> Vec<String> {
    ks.iter().map(|k| k.to_string()).collect()
}

#[test]
fn artifact_kind_strings_flatten() {
    assert_eq!(kind_to_artifact_kind(&kinds(&["bin"])), Ok(ArtifactKind::Binary));
    assert_eq!(kind_to_artifact_kind(&kinds(&["bench"])), Ok(ArtifactKind::Bench));
    assert_eq!(kind_to_artifact_kind(&kinds(&["example"])), Ok(ArtifactKind::Example));
    assert_eq!(kind_to_artifact_kind(&kinds(&["test"])), Ok(ArtifactKind::Test));
    assert_eq!(kind_to_artifact_kind(&kinds(&["custom-build"])), Ok(ArtifactKind::BuildScript));
    assert_eq!(
        kind_to_artifact_kind(&kinds(&["lib", "rlib", "dylib", "cdylib", "staticlib"])),
        Ok(ArtifactKind::Library)
    );
    assert_eq!(kind_to_artifact_kind(&kinds(&["proc-macro"])), Ok(ArtifactKind::Library));
}

#[test]
fn artifact_kind_faults_are_reported() {
    assert_eq!(kind_to_artifact_kind(&kinds(&["sculpture"])), Err(Error::UnsupportedArtifactKind));
    assert_eq!(kind_to_artifact_kind(&kinds(&["lib", "bin"])), Err(Error::MismatchedArtifactKinds));
    assert_eq!(kind_to_artifact_kind(&kinds(&[])), Err(Error::MissingArtifactKind));
}

#[test]
fn orphan_kinds_exclude_libraries_and_build_scripts() {
    assert_eq!(OrphanArtifactKind::of_artifact_kind(ArtifactKind::Binary), Ok(OrphanArtifactKind::Binary));
    assert_eq!(OrphanArtifactKind::of_artifact_kind(ArtifactKind::Bench), Ok(OrphanArtifactKind::Bench));
    assert_eq!(OrphanArtifactKind::of_artifact_kind(ArtifactKind::Example), Ok(OrphanArtifactKind::Example));
    assert_eq!(OrphanArtifactKind::of_artifact_kind(ArtifactKind::Test), Ok(OrphanArtifactKind::Test));
    assert_eq!(
        OrphanArtifactKind::of_artifact_kind(ArtifactKind::Library),
        Err(Error::UnexpectedOrphanArtifactKind)
    );
    assert_eq!(
        OrphanArtifactKind::of_artifact_kind(ArtifactKind::BuildScript),
        Err(Error::UnexpectedOrphanArtifactKind)
    );
}

#[test]
fn library_detection_scans_the_target_list() {
    let lib = TargetRecord {
        kinds: kinds(&["lib"]),
        name: "x".to_owned(),
        src_path: "src/lib.rs".to_owned(),
    };
    let bin = TargetRecord {
        kinds: kinds(&["bin"]),
        name: "x".to_owned(),
        src_path: "src/main.rs".to_owned(),
    };
    assert_eq!(has_lib_artifact(&vec![bin.clone(), lib.clone()]), Ok(true));
    assert_eq!(has_lib_artifact(&vec![bin]), Ok(false));
    assert_eq!(has_lib_artifact(&vec![]), Ok(false));
}

#[test]
fn cargo_args_carry_every_switch() {
    let args = CargoArgs {
        color: ColorChoice::Auto,
        frozen: true,
        locked: false,
        offline: true,
        workspace: true,
        config: vec!["net.offline=true".to_owned()],
        target_dir: Some("/tmp/target".to_owned()),
        manifest_path: None,
    };
    assert_eq!(
        compute_cargo_args(&args),
        vec![
            "--color".to_owned(),
            "auto".to_owned(),
            "--frozen".to_owned(),
            "--offline".to_owned(),
            "--workspace".to_owned(),
            "--config".to_owned(),
            "net.offline=true".to_owned(),
            "--target-dir".to_owned(),
            "/tmp/target".to_owned(),
        ]
    );
}

#[test]
fn feature_args_follow_the_selection() {
    assert_eq!(compute_feature_args(&Features::Default), Vec::<String>::new());
    assert_eq!(compute_feature_args(&Features::All), vec!["--all-features".to_owned()]);
    assert_eq!(
        compute_feature_args(&Features::Specified(vec!["a".to_owned(), "b".to_owned()])),
        vec!["--features".to_owned(), "--features".to_owned(), "a,b".to_owned()]
    );
}

#[test]
fn target_args_follow_the_platform() {
    assert_eq!(compute_target_args(&CheckTarget::Host), Vec::<String>::new());
    assert_eq!(
        compute_target_args(&CheckTarget::Target("x86_64-unknown-linux-gnu".to_owned())),
        vec!["--target".to_owned(), "x86_64-unknown-linux-gnu".to_owned()]
    );
}

#[test]
fn encoded_flags_are_joined_by_the_unit_separator() {
    let flags = vec![
        "--json=unused-externs-silent".to_owned(),
        "--warn=unused-crate-dependencies".to_owned(),
    ];
    assert_eq!(
        compute_encoded_flags(&flags),
        "--json=unused-externs-silent\u{1f}--warn=unused-crate-dependencies".to_owned()
    );
    assert_eq!(compute_encoded_flags(&vec!["one".to_owned()]), "one".to_owned());
    assert_eq!(compute_encoded_flags(&Vec::new()), "".to_owned());
}
