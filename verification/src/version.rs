//! Reads the build tool's version out of its version report and decides
//! whether that version distinguishes default workspace members from the full
//! member set.

use vstd::prelude::*;
use vstd::string::*;
use crate::model::Error;
use crate::text::{is_prefix_of, lines_of, split_lines, str_starts_with, trim_ws, trim_ws_exec};

verus! {

/// One parsed build-tool version: the three numeric components and the
/// pre-release identifier, which is empty for release builds.
#[derive(Clone, Debug, PartialEq, Eq)]
pub struct Version {
    pub major: u64,
    pub minor: u64,
    pub patch: u64,
    pub pre: String,
}

/// Mathematical contents of a `Version`.
#[verifier::ext_equal]
pub ghost struct VersionView {
    pub major: u64,
    pub minor: u64,
    pub patch: u64,
    pub pre: Seq<char>,
}

impl View for Version {
    type V = VersionView;

    open spec fn view(&self) -> VersionView {
        VersionView { major: self.major, minor: self.minor, patch: self.patch, pre: self.pre@ }
    }
}

/// What the semantic-version grammar makes of a text: nothing when the text
/// is not a well-formed version, else its major, minor and patch numbers and
/// its pre-release identifier.
pub uninterp spec fn semver_parse_of(s: Seq<char>) -> Option<(u64, u64, u64, Seq<char>)>;

/// The version value a successful parse denotes.
pub open spec fn version_view_of(t: (u64, u64, u64, Seq<char>)) -> VersionView {
    VersionView { major: t.0, minor: t.1, patch: t.2, pre: t.3 }
}

/// Relies on `cargo_metadata::semver::Version::parse`: the parse is a
/// function of the input text alone; a well-formed version yields its
/// `major`, `minor` and `patch` numbers and its pre-release identifier, and
/// any other text is rejected.
#[verifier::external_body]
pub fn parse_semver_version(s: &str) -> (r: Option<Version>)
    ensures
        r is Some <==> semver_parse_of(s@) is Some,
        r matches Some(v) ==> v@ == version_view_of(semver_parse_of(s@).unwrap()),
{
    match cargo_metadata::semver::Version::parse(s) {
        Ok(v) => Some(
            Version {
                major: v.major,
                minor: v.minor,
                patch: v.patch,
                pre: v.pre.as_str().to_owned(),
            },
        ),
        Err(_) => None,
    }
}

/// The prefix that marks the version line of the build tool's report.
pub open spec fn release_prefix() -> Seq<char> {
    "release:"@
}

/// Scans the report's lines from position `i` on, carrying the version found
/// so far: a second version line, or one that does not parse, is an error,
/// and so is a report with no version line at all.
pub open spec fn scan_release_lines(
    lines: Seq<Seq<char>>,
    acc: Option<VersionView>,
    i: int,
) -> Result<VersionView, Error>
    decreases lines.len() - i,
{
    if i < 0 || i >= lines.len() {
        match acc {
            Some(v) => Ok(v),
            None => Err(Error::MissingCargoVersion),
        }
    } else if is_prefix_of(release_prefix(), lines[i]) {
        if acc is Some {
            Err(Error::MultipleCargoVersions)
        } else {
            let payload = lines[i].skip(release_prefix().len() as int);
            match semver_parse_of(trim_ws(payload)) {
                None => Err(Error::UnparseableCargoVersion),
                Some(t) => scan_release_lines(lines, Some(version_view_of(t)), i + 1),
            }
        }
    } else {
        scan_release_lines(lines, acc, i + 1)
    }
}

/// The version the whole report denotes.
pub open spec fn spec_parse_cargo_version_output(s: Seq<char>) -> Result<VersionView, Error> {
    scan_release_lines(lines_of(s), None, 0)
}

/// Reads the one `release:` line of the build tool's version report and
/// parses the version it carries.
pub fn parse_cargo_version_output(output: &str) -> (r: Result<Version, Error>)
    ensures
        match r {
            Ok(v) => spec_parse_cargo_version_output(output@) == Ok::<VersionView, Error>(v@),
            Err(e) => spec_parse_cargo_version_output(output@) == Err::<VersionView, Error>(e),
        },
{
    let lines = split_lines(output);
    let ghost lv = lines.deep_view();
    let n = lines.len();
    let mut release: Option<Version> = None;
    let mut i: usize = 0;
    while i < n
        invariant
            n == lines.len(),
            lv == lines.deep_view(),
            lv == lines_of(output@),
            i <= n,
            match release {
                Some(v) => scan_release_lines(lv, Some(v@), i as int) == scan_release_lines(
                    lv,
                    None,
                    0,
                ),
                None => scan_release_lines(lv, None, i as int) == scan_release_lines(lv, None, 0),
            },
        decreases n - i,
    {
        let line = lines[i].as_str();
        proof {
            assert(line@ == lv[i as int]);
        }
        if str_starts_with(line, "release:") {
            proof {
                assert(is_prefix_of(release_prefix(), lv[i as int]));
            }
            if release.is_some() {
                proof {
                    let rv = release->0;
                    assert(scan_release_lines(lv, Some(rv@), i as int) == Err::<
                        VersionView,
                        Error,
                    >(Error::MultipleCargoVersions));
                }
                return Err(Error::MultipleCargoVersions);
            }
            let plen = "release:".unicode_len();
            assert(plen == release_prefix().len());
            let payload = line.substring_char(plen, line.unicode_len());
            proof {
                assert(payload@ =~= lv[i as int].skip(release_prefix().len() as int));
            }
            let trimmed = trim_ws_exec(payload);
            match parse_semver_version(trimmed.as_str()) {
                Some(v) => {
                    proof {
                        let t = semver_parse_of(trim_ws(payload@)).unwrap();
                        assert(scan_release_lines(lv, None, i as int) == scan_release_lines(
                            lv,
                            Some(version_view_of(t)),
                            i + 1,
                        ));
                        assert(v@ == version_view_of(t));
                    }
                    release = Some(v);
                },
                None => {
                    proof {
                        assert(scan_release_lines(lv, None, i as int) == Err::<
                            VersionView,
                            Error,
                        >(Error::UnparseableCargoVersion));
                    }
                    return Err(Error::UnparseableCargoVersion);
                },
            }
        } else {
            proof {
                assert(!is_prefix_of(release_prefix(), lv[i as int]));
                if release is Some {
                    let rv = release->0;
                    assert(scan_release_lines(lv, Some(rv@), i as int) == scan_release_lines(
                        lv,
                        Some(rv@),
                        i + 1,
                    ));
                } else {
                    assert(scan_release_lines(lv, None, i as int) == scan_release_lines(
                        lv,
                        None,
                        i + 1,
                    ));
                }
            }
        }
        i = i + 1;
    }
    match release {
        Some(v) => Ok(v),
        None => Err(Error::MissingCargoVersion),
    }
}

/// Whether this build-tool version distinguishes the default workspace
/// members from the full member set: release `1.71` or newer.
pub open spec fn spec_supports_default_workspace_members(v: VersionView) -> bool {
    v.pre.len() == 0 && (v.major > 1 || (v.major == 1 && v.minor >= 71))
}

/// Decides whether the build tool distinguishes default workspace members,
/// the way a `>=1.71` requirement does: pre-release versions never match.
pub fn supports_default_workspace_members(cargo_version: &Version) -> (r: bool)
    ensures
        r == spec_supports_default_workspace_members(cargo_version@),
{
    cargo_version.pre.as_str().is_empty() && (cargo_version.major > 1 || (cargo_version.major == 1
        && cargo_version.minor >= 71))
}

} // verus!
