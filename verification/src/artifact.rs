//! Maps the build tool's artifact kind strings onto this audit's flattened
//! artifact kinds. Every fine-grained library variant collapses to one
//! `Library` kind, and one artifact declared under two different flattened
//! kinds is rejected.

use vstd::prelude::*;
use crate::model::{ArtifactKind, Error, TargetRecord, TargetRecordView};
use crate::text::str_eq;

verus! {

/// The flattened kind one kind string denotes, if the build tool is known to
/// emit it.
pub open spec fn artifact_kind_of_string(s: Seq<char>) -> Option<ArtifactKind> {
    if s == "custom-build"@ {
        Some(ArtifactKind::BuildScript)
    } else if s == "bench"@ {
        Some(ArtifactKind::Bench)
    } else if s == "bin"@ {
        Some(ArtifactKind::Binary)
    } else if s == "example"@ {
        Some(ArtifactKind::Example)
    } else if s == "test"@ {
        Some(ArtifactKind::Test)
    } else if s == "lib"@ || s == "rlib"@ || s == "dylib"@ || s == "cdylib"@ || s == "staticlib"@
        || s == "proc-macro"@ {
        Some(ArtifactKind::Library)
    } else {
        None
    }
}

fn artifact_kind_of_string_exec(s: &str) -> (r: Option<ArtifactKind>)
    ensures
        r == artifact_kind_of_string(s@),
{
    if str_eq(s, "custom-build") {
        Some(ArtifactKind::BuildScript)
    } else if str_eq(s, "bench") {
        Some(ArtifactKind::Bench)
    } else if str_eq(s, "bin") {
        Some(ArtifactKind::Binary)
    } else if str_eq(s, "example") {
        Some(ArtifactKind::Example)
    } else if str_eq(s, "test") {
        Some(ArtifactKind::Test)
    } else if str_eq(s, "lib") || str_eq(s, "rlib") || str_eq(s, "dylib") || str_eq(s, "cdylib")
        || str_eq(s, "staticlib") || str_eq(s, "proc-macro") {
        Some(ArtifactKind::Library)
    } else {
        None
    }
}

/// Flattens the kind strings from position `i` on, carrying the kind seen so
/// far: an unknown string or two different flattened kinds are errors, and so
/// is an artifact with no kind at all.
pub open spec fn flatten_kinds_from(
    kinds: Seq<Seq<char>>,
    acc: Option<ArtifactKind>,
    i: int,
) -> Result<ArtifactKind, Error>
    decreases kinds.len() - i,
{
    if i < 0 || i >= kinds.len() {
        match acc {
            Some(k) => Ok(k),
            None => Err(Error::MissingArtifactKind),
        }
    } else {
        match artifact_kind_of_string(kinds[i]) {
            None => Err(Error::UnsupportedArtifactKind),
            Some(k) => {
                if acc matches Some(prev) && prev != k {
                    Err(Error::MismatchedArtifactKinds)
                } else {
                    flatten_kinds_from(kinds, Some(k), i + 1)
                }
            },
        }
    }
}

/// The one flattened kind a whole kind-string list denotes.
pub open spec fn spec_kind_to_artifact_kind(kinds: Seq<Seq<char>>) -> Result<ArtifactKind, Error> {
    flatten_kinds_from(kinds, None, 0)
}

/// Flattens an artifact's kind strings to the one kind they all denote.
pub fn kind_to_artifact_kind(kind_strings: &Vec<String>) -> (r: Result<ArtifactKind, Error>)
    ensures
        r == spec_kind_to_artifact_kind(kind_strings.deep_view()),
{
    let ghost all = kind_strings.deep_view();
    let n = kind_strings.len();
    let mut flattened: Option<ArtifactKind> = None;
    let mut i: usize = 0;
    while i < n
        invariant
            n == kind_strings.len(),
            all == kind_strings.deep_view(),
            i <= n,
            flatten_kinds_from(all, flattened, i as int) == spec_kind_to_artifact_kind(all),
        decreases n - i,
    {
        let kind = match artifact_kind_of_string_exec(kind_strings[i].as_str()) {
            Some(k) => k,
            None => {
                return Err(Error::UnsupportedArtifactKind);
            },
        };
        if let Some(prev) = flattened {
            if prev != kind {
                return Err(Error::MismatchedArtifactKinds);
            }
        }
        flattened = Some(kind);
        i = i + 1;
    }
    match flattened {
        Some(k) => Ok(k),
        None => Err(Error::MissingArtifactKind),
    }
}

/// Whether the target list declares a library artifact, from position `i` on;
/// a malformed kind list is an error.
pub open spec fn has_lib_from(targets: Seq<TargetRecordView>, i: int) -> Result<bool, Error>
    decreases targets.len() - i,
{
    if i < 0 || i >= targets.len() {
        Ok(false)
    } else {
        match spec_kind_to_artifact_kind(targets[i].kinds) {
            Err(e) => Err(e),
            Ok(k) => {
                if k == ArtifactKind::Library {
                    Ok(true)
                } else {
                    has_lib_from(targets, i + 1)
                }
            },
        }
    }
}

/// Whether the target list declares a library artifact.
pub open spec fn spec_has_lib_artifact(targets: Seq<TargetRecordView>) -> Result<bool, Error> {
    has_lib_from(targets, 0)
}

/// Whether a package's declared artifacts include a library.
pub fn has_lib_artifact(artifacts: &Vec<TargetRecord>) -> (r: Result<bool, Error>)
    ensures
        r == spec_has_lib_artifact(artifacts.deep_view()),
{
    let ghost all = artifacts.deep_view();
    let n = artifacts.len();
    let mut i: usize = 0;
    while i < n
        invariant
            n == artifacts.len(),
            all == artifacts.deep_view(),
            i <= n,
            has_lib_from(all, i as int) == spec_has_lib_artifact(all),
        decreases n - i,
    {
        match kind_to_artifact_kind(&artifacts[i].kinds) {
            Err(e) => {
                return Err(e);
            },
            Ok(k) => {
                if k == ArtifactKind::Library {
                    return Ok(true);
                }
            },
        }
        i = i + 1;
    }
    Ok(false)
}

} // verus!
