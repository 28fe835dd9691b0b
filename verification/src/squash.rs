//! Filters candidate findings against the realized artifacts. For each
//! candidate, the artifacts of its package that could possibly have exercised
//! the dependency are computed by a kind-compatibility rule; the candidate is
//! confirmed only when every possible user was observed as evidence while the
//! diagnostic held. A possible user missing from evidence is tolerated as
//! benign — the diagnostic simply never flagged it — and the candidate is
//! dropped.

use vstd::prelude::*;
use vstd::pervasive::unreached;
use crate::artifact::{kind_to_artifact_kind, spec_kind_to_artifact_kind};
use crate::correlate::{Correlation, UnusedCandidateView};
use crate::model::{ArtifactKind, ArtifactRecord, ArtifactRecordView, Error, PackageId,
    UnusedDependency, UnusedDependencyView, artifact_record_eq, package_id_eq};
use crate::DependencyKind;

verus! {

/// The kind-compatibility rule: which artifact kinds can exercise a
/// dependency of which declared kind. Libraries and binaries use normal
/// dependencies always and development ones only under a test profile;
/// benches, examples and tests use normal or development ones; only build
/// scripts use build-time ones.
pub open spec fn eligible(ak: ArtifactKind, profile_test: bool, dk: DependencyKind) -> bool {
    match ak {
        ArtifactKind::Binary | ArtifactKind::Library => match dk {
            DependencyKind::Normal => true,
            DependencyKind::Development => profile_test,
            DependencyKind::Build => false,
        },
        ArtifactKind::Bench | ArtifactKind::Example | ArtifactKind::Test => match dk {
            DependencyKind::Normal | DependencyKind::Development => true,
            DependencyKind::Build => false,
        },
        ArtifactKind::BuildScript => dk == DependencyKind::Build,
    }
}

/// The kind-compatibility rule, decided.
pub fn eligible_exec(ak: ArtifactKind, profile_test: bool, dk: DependencyKind) -> (r: bool)
    ensures
        r == eligible(ak, profile_test, dk),
{
    match ak {
        ArtifactKind::Binary | ArtifactKind::Library => match dk {
            DependencyKind::Normal => true,
            DependencyKind::Development => profile_test,
            DependencyKind::Build => false,
        },
        ArtifactKind::Bench | ArtifactKind::Example | ArtifactKind::Test => match dk {
            DependencyKind::Normal | DependencyKind::Development => true,
            DependencyKind::Build => false,
        },
        ArtifactKind::BuildScript => dk == DependencyKind::Build,
    }
}

/// Whether some realized artifact belongs to `dependant`.
pub open spec fn has_realized(realized: Seq<ArtifactRecordView>, dependant: Seq<char>) -> bool {
    exists|t: int| 0 <= t < realized.len() && realized[t].package_id == dependant
}

fn has_realized_exec(realized: &Vec<ArtifactRecord>, dependant: &PackageId) -> (r: bool)
    ensures
        r == has_realized(realized.deep_view(), dependant@),
{
    let n = realized.len();
    let mut i: usize = 0;
    while i < n
        invariant
            n == realized.len(),
            i <= n,
            forall|t: int| 0 <= t < i ==> realized.deep_view()[t].package_id != dependant@,
        decreases n - i,
    {
        if package_id_eq(&realized[i].package_id, dependant) {
            assert(realized.deep_view()[i as int].package_id == dependant@);
            return true;
        }
        i = i + 1;
    }
    false
}

/// The first malformed kind list among `dependant`'s realized artifacts, from
/// position `i` on.
pub open spec fn kinds_ok_from(
    realized: Seq<ArtifactRecordView>,
    i: int,
    dependant: Seq<char>,
) -> Result<(), Error>
    decreases realized.len() - i,
{
    if i < 0 || i >= realized.len() {
        Ok(())
    } else if realized[i].package_id == dependant {
        match spec_kind_to_artifact_kind(realized[i].target.kinds) {
            Err(e) => Err(e),
            Ok(_) => kinds_ok_from(realized, i + 1, dependant),
        }
    } else {
        kinds_ok_from(realized, i + 1, dependant)
    }
}

/// A clean scan means every artifact of the package flattens to a kind.
proof fn lemma_kinds_ok_all(realized: Seq<ArtifactRecordView>, i: int, dependant: Seq<char>)
    requires
        0 <= i,
        kinds_ok_from(realized, i, dependant) is Ok,
    ensures
        forall|t: int|
            i <= t < realized.len() && realized[t].package_id == dependant
                ==> #[trigger] spec_kind_to_artifact_kind(realized[t].target.kinds) is Ok,
    decreases realized.len() - i,
{
    if i < realized.len() {
        lemma_kinds_ok_all(realized, i + 1, dependant);
        if realized[i].package_id == dependant {
            assert(spec_kind_to_artifact_kind(realized[i].target.kinds) is Ok);
        }
    }
}

fn kinds_ok_exec(realized: &Vec<ArtifactRecord>, dependant: &PackageId) -> (r: Result<(), Error>)
    ensures
        r == kinds_ok_from(realized.deep_view(), 0, dependant@),
{
    let ghost rv = realized.deep_view();
    let n = realized.len();
    let mut i: usize = 0;
    while i < n
        invariant
            n == realized.len(),
            rv == realized.deep_view(),
            i <= n,
            kinds_ok_from(rv, i as int, dependant@) == kinds_ok_from(rv, 0, dependant@),
        decreases n - i,
    {
        if package_id_eq(&realized[i].package_id, dependant) {
            match kind_to_artifact_kind(&realized[i].target.kinds) {
                Err(e) => {
                    return Err(e);
                },
                Ok(_) => {},
            }
        }
        i = i + 1;
    }
    Ok(())
}

/// Whether the evidence holds this artifact.
pub fn artifact_in(evidence: &Vec<ArtifactRecord>, a: &ArtifactRecord) -> (r: bool)
    ensures
        r == evidence.deep_view().contains(a@),
{
    let n = evidence.len();
    let mut i: usize = 0;
    while i < n
        invariant
            n == evidence.len(),
            i <= n,
            forall|t: int| 0 <= t < i ==> evidence.deep_view()[t] != a@,
        decreases n - i,
    {
        if artifact_record_eq(&evidence[i], a) {
            assert(evidence.deep_view()[i as int] == a@);
            return true;
        }
        i = i + 1;
    }
    proof {
        if evidence.deep_view().contains(a@) {
            let t = choose|t: int|
                0 <= t < evidence.deep_view().len() && evidence.deep_view()[t] == a@;
            assert(false);
        }
    }
    false
}

/// Whether the evidence fully covers the possible users: every realized
/// artifact of `dependant` whose kind could exercise a `dk` dependency was
/// observed as evidence.
pub open spec fn covered(
    realized: Seq<ArtifactRecordView>,
    dependant: Seq<char>,
    dk: DependencyKind,
    evidence: Seq<ArtifactRecordView>,
) -> bool {
    forall|t: int|
        0 <= t < realized.len() && realized[t].package_id == dependant && eligible(
            spec_kind_to_artifact_kind(realized[t].target.kinds).unwrap(),
            realized[t].profile_test,
            dk,
        ) ==> evidence.contains(#[trigger] realized[t])
}

fn covered_exec(
    realized: &Vec<ArtifactRecord>,
    dependant: &PackageId,
    dk: DependencyKind,
    evidence: &Vec<ArtifactRecord>,
) -> (r: bool)
    requires
        kinds_ok_from(realized.deep_view(), 0, dependant@) is Ok,
    ensures
        r == covered(realized.deep_view(), dependant@, dk, evidence.deep_view()),
{
    let ghost rv = realized.deep_view();
    proof {
        lemma_kinds_ok_all(rv, 0, dependant@);
    }
    let n = realized.len();
    let mut i: usize = 0;
    while i < n
        invariant
            n == realized.len(),
            rv == realized.deep_view(),
            i <= n,
            forall|t: int|
                0 <= t < rv.len() && rv[t].package_id == dependant@
                    ==> #[trigger] spec_kind_to_artifact_kind(rv[t].target.kinds) is Ok,
            forall|t: int|
                0 <= t < i && rv[t].package_id == dependant@ && eligible(
                    spec_kind_to_artifact_kind(rv[t].target.kinds).unwrap(),
                    rv[t].profile_test,
                    dk,
                ) ==> evidence.deep_view().contains(#[trigger] rv[t]),
        decreases n - i,
    {
        if package_id_eq(&realized[i].package_id, dependant) {
            proof {
                assert(spec_kind_to_artifact_kind(rv[i as int].target.kinds) is Ok);
            }
            let kind = match kind_to_artifact_kind(&realized[i].target.kinds) {
                Ok(k) => k,
                Err(_) => unreached(),
            };
            if eligible_exec(kind, realized[i].profile_test, dk) {
                if !artifact_in(evidence, &realized[i]) {
                    proof {
                        assert(rv[i as int].package_id == dependant@ && eligible(
                            spec_kind_to_artifact_kind(rv[i as int].target.kinds).unwrap(),
                            rv[i as int].profile_test,
                            dk,
                        ) && !evidence.deep_view().contains(rv[i as int]));
                        assert(!covered(rv, dependant@, dk, evidence.deep_view()));
                    }
                    return false;
                }
            }
        }
        i = i + 1;
    }
    true
}

/// The confirmed findings among the candidates from position `i` on, given
/// the realized artifacts: a candidate whose package never realized an
/// artifact, or realized one with a malformed kind list, is a fault; one
/// whose possible users the evidence fully covers is confirmed; the rest are
/// dropped as benign.
pub open spec fn squash_from(
    candidates: Seq<UnusedCandidateView>,
    i: int,
    realized: Seq<ArtifactRecordView>,
    acc: Seq<UnusedDependencyView>,
) -> Result<Seq<UnusedDependencyView>, Error>
    decreases candidates.len() - i,
{
    if i < 0 || i >= candidates.len() {
        Ok(acc)
    } else {
        let c = candidates[i];
        if !has_realized(realized, c.dep.dependant) {
            Err(Error::UnknownPackage)
        } else {
            match kinds_ok_from(realized, 0, c.dep.dependant) {
                Err(e) => Err(e),
                Ok(_) => squash_from(
                    candidates,
                    i + 1,
                    realized,
                    if covered(realized, c.dep.dependant, c.dep.dep_kind, c.evidence) {
                        acc.push(c.dep)
                    } else {
                        acc
                    },
                ),
            }
        }
    }
}

/// The confirmed findings of one whole correlation pass.
pub open spec fn spec_squash(
    candidates: Seq<UnusedCandidateView>,
    realized: Seq<ArtifactRecordView>,
) -> Result<Seq<UnusedDependencyView>, Error> {
    squash_from(candidates, 0, realized, Seq::empty())
}

/// Confirms the candidates whose possible users are fully covered by the
/// observed evidence, dropping the rest.
pub fn squash(correlation: &Correlation) -> (r: Result<Vec<UnusedDependency>, Error>)
    ensures
        match r {
            Ok(out) => spec_squash(correlation@.candidates, correlation@.realized) == Ok::<
                Seq<UnusedDependencyView>,
                Error,
            >(out.deep_view()),
            Err(e) => spec_squash(correlation@.candidates, correlation@.realized) == Err::<
                Seq<UnusedDependencyView>,
                Error,
            >(e),
        },
{
    let ghost cv = correlation@.candidates;
    let ghost rv = correlation@.realized;
    let n = correlation.candidates.len();
    let mut out: Vec<UnusedDependency> = Vec::new();
    proof {
        assert(out.deep_view() =~= Seq::<UnusedDependencyView>::empty());
    }
    let mut i: usize = 0;
    while i < n
        invariant
            n == correlation.candidates.len(),
            cv == correlation@.candidates,
            rv == correlation@.realized,
            i <= n,
            squash_from(cv, i as int, rv, out.deep_view()) == squash_from(
                cv,
                0,
                rv,
                Seq::empty(),
            ),
        decreases n - i,
    {
        let candidate = &correlation.candidates[i];
        if !has_realized_exec(&correlation.realized, &candidate.dep.dependant) {
            return Err(Error::UnknownPackage);
        }
        match kinds_ok_exec(&correlation.realized, &candidate.dep.dependant) {
            Err(e) => {
                return Err(e);
            },
            Ok(_) => {},
        }
        if covered_exec(
            &correlation.realized,
            &candidate.dep.dependant,
            candidate.dep.dep_kind,
            &candidate.evidence,
        ) {
            let ghost before = out.deep_view();
            out.push(candidate.dep.dup());
            proof {
                assert(out.deep_view() =~= before.push(cv[i as int].dep));
            }
        }
        i = i + 1;
    }
    Ok(out)
}

/// A confirmed finding never contradicts the evidence: whenever the squash
/// confirms a dependency as unused under one kind, every realized artifact of
/// the dependant that could have exercised a dependency of that kind was
/// observed while the unused diagnostic held — no realized eligible artifact
/// compiled against the dependency unobserved.
pub proof fn lemma_squash_sound(
    candidates: Seq<UnusedCandidateView>,
    i: int,
    realized: Seq<ArtifactRecordView>,
    acc: Seq<UnusedDependencyView>,
    out: Seq<UnusedDependencyView>,
    ud: UnusedDependencyView,
)
    requires
        squash_from(candidates, i, realized, acc) == Ok::<Seq<UnusedDependencyView>, Error>(out),
        out.contains(ud),
        !acc.contains(ud),
    ensures
        exists|j: int|
            0 <= j < candidates.len() && #[trigger] candidates[j].dep == ud && covered(
                realized,
                ud.dependant,
                ud.dep_kind,
                candidates[j].evidence,
            ),
    decreases candidates.len() - i,
{
    if i < 0 || i >= candidates.len() {
        assert(out == acc);
        assert(false);
    } else {
        let c = candidates[i];
        if covered(realized, c.dep.dependant, c.dep.dep_kind, c.evidence) {
            if c.dep == ud {
                assert(0 <= i < candidates.len() && candidates[i].dep == ud && covered(
                    realized,
                    ud.dependant,
                    ud.dep_kind,
                    candidates[i].evidence,
                ));
            } else {
                assert(!acc.push(c.dep).contains(ud)) by {
                    if acc.push(c.dep).contains(ud) {
                        let t = choose|t: int|
                            0 <= t < acc.push(c.dep).len() && acc.push(c.dep)[t] == ud;
                        if t < acc.len() {
                            assert(acc.contains(ud));
                        }
                    }
                }
                lemma_squash_sound(candidates, i + 1, realized, acc.push(c.dep), out, ud);
            }
        } else {
            lemma_squash_sound(candidates, i + 1, realized, acc, out, ud);
        }
    }
}

/// No finding contradicts the evidence: a dependency confirmed unused under
/// one kind comes from a candidate whose evidence covers every realized
/// artifact of the dependant that could have exercised that kind.
pub proof fn lemma_no_unobserved_eligible_user(
    candidates: Seq<UnusedCandidateView>,
    realized: Seq<ArtifactRecordView>,
    out: Seq<UnusedDependencyView>,
    ud: UnusedDependencyView,
)
    requires
        spec_squash(candidates, realized) == Ok::<Seq<UnusedDependencyView>, Error>(out),
        out.contains(ud),
    ensures
        exists|j: int|
            0 <= j < candidates.len() && #[trigger] candidates[j].dep == ud && covered(
                realized,
                ud.dependant,
                ud.dep_kind,
                candidates[j].evidence,
            ),
{
    lemma_squash_sound(candidates, 0, realized, Seq::empty(), out, ud);
}

} // verus!
