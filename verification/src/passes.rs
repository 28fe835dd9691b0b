//! The whole-pass drivers: the regular check pass correlated and squashed,
//! the independent documentation-example pass, and the merge of the two.
//! The two passes have different blind spots: documentation examples may be
//! the sole consumer of a dependency, invisible to the regular pass, while
//! the documentation pass has no build-script visibility.

use vstd::prelude::*;
use crate::artifact::{has_lib_artifact, spec_has_lib_artifact};
use crate::correlate::{correlate, spec_correlate, BuildEvent, ResolvedName,
    ResolvedNameView, resolve_reported_name, spec_resolve_reported_name};
use crate::model::{DependencyLintResults, DependencyLintResultsView, Error, PackageId,
    RawPackageView, UnusedDependency, UnusedDependencyView, unused_dependency_eq};
use crate::names::RenamedCrate;
use crate::normalize::{find_package, package_lookup, StructuredMetadata, StructuredMetadataView};
use crate::squash::{spec_squash, squash};
use crate::DependencyKind;

verus! {

/// Whether the evidence list holds this fact.
pub fn unused_dep_in(v: &Vec<UnusedDependency>, ud: &UnusedDependency) -> (r: bool)
    ensures
        r == v.deep_view().contains(ud@),
{
    let n = v.len();
    let mut i: usize = 0;
    while i < n
        invariant
            n == v.len(),
            i <= n,
            forall|t: int| 0 <= t < i ==> v.deep_view()[t] != ud@,
        decreases n - i,
    {
        if unused_dependency_eq(&v[i], ud) {
            assert(v.deep_view()[i as int] == ud@);
            return true;
        }
        i = i + 1;
    }
    proof {
        if v.deep_view().contains(ud@) {
            let t = choose|t: int| 0 <= t < v.deep_view().len() && v.deep_view()[t] == ud@;
            assert(false);
        }
    }
    false
}

/// The members whose packages declare a library artifact, from position `i`
/// on: only those can carry documentation examples. A member without a
/// package record, or with a malformed artifact kind, is a fault.
pub open spec fn doc_eligible_from(
    packages: Seq<RawPackageView>,
    members: Seq<Seq<char>>,
    i: int,
    acc: Seq<Seq<char>>,
) -> Result<Seq<Seq<char>>, Error>
    decreases members.len() - i,
{
    if i < 0 || i >= members.len() {
        Ok(acc)
    } else {
        match package_lookup(packages, members[i]) {
            None => Err(Error::UnknownPackage),
            Some(p) => match spec_has_lib_artifact(p.targets) {
                Err(e) => Err(e),
                Ok(true) => doc_eligible_from(packages, members, i + 1, acc.push(members[i])),
                Ok(false) => doc_eligible_from(packages, members, i + 1, acc),
            },
        }
    }
}

/// The members the documentation pass visits: those declaring a library
/// artifact, in membership order.
pub fn doc_eligible_members(sm: &StructuredMetadata, members: &Vec<PackageId>) -> (r: Result<
    Vec<PackageId>,
    Error,
>)
    ensures
        match r {
            Ok(out) => doc_eligible_from(sm@.packages, members.deep_view(), 0, Seq::empty())
                == Ok::<Seq<Seq<char>>, Error>(out.deep_view()),
            Err(e) => doc_eligible_from(sm@.packages, members.deep_view(), 0, Seq::empty())
                == Err::<Seq<Seq<char>>, Error>(e),
        },
{
    let ghost mv = members.deep_view();
    let n = members.len();
    let mut out: Vec<PackageId> = Vec::new();
    proof {
        assert(out.deep_view() =~= Seq::<Seq<char>>::empty());
    }
    let mut i: usize = 0;
    while i < n
        invariant
            n == members.len(),
            mv == members.deep_view(),
            i <= n,
            doc_eligible_from(sm@.packages, mv, i as int, out.deep_view()) == doc_eligible_from(
                sm@.packages,
                mv,
                0,
                Seq::empty(),
            ),
        decreases n - i,
    {
        let package = match find_package(&sm.packages, &members[i]) {
            Some(p) => p,
            None => {
                return Err(Error::UnknownPackage);
            },
        };
        match has_lib_artifact(&package.targets) {
            Err(e) => {
                return Err(e);
            },
            Ok(true) => {
                let ghost before = out.deep_view();
                out.push(members[i].dup());
                proof {
                    assert(out.deep_view() =~= before.push(mv[i as int]));
                }
            },
            Ok(false) => {},
        }
        i = i + 1;
    }
    Ok(out)
}

/// One member's documentation-pass report: the post-rename names its example
/// compilation left unused.
#[derive(Clone, Debug, PartialEq, Eq)]
pub struct DocReport {
    pub package_id: PackageId,
    pub unused_extern_names: Vec<String>,
}

/// Mathematical contents of a `DocReport`.
#[verifier::ext_equal]
pub ghost struct DocReportView {
    pub package_id: Seq<char>,
    pub unused_extern_names: Seq<Seq<char>>,
}

impl View for DocReport {
    type V = DocReportView;

    open spec fn view(&self) -> DocReportView {
        DocReportView {
            package_id: self.package_id@,
            unused_extern_names: self.unused_extern_names.deep_view(),
        }
    }
}

impl DeepView for DocReport {
    type V = DocReportView;

    open spec fn deep_view(&self) -> DocReportView {
        self.view()
    }
}

/// Stages resolved candidates, from position `k` on, each one required to be
/// new: the same fact reported twice in one pass is a fault.
pub open spec fn stage_new(
    acc: Seq<UnusedDependencyView>,
    uds: Seq<UnusedDependencyView>,
    k: int,
) -> Result<Seq<UnusedDependencyView>, Error>
    decreases uds.len() - k,
{
    if k < 0 || k >= uds.len() {
        Ok(acc)
    } else if acc.contains(uds[k]) {
        Err(Error::DuplicateUnusedDependency)
    } else {
        stage_new(acc.push(uds[k]), uds, k + 1)
    }
}

/// Resolves one member's reported names, from position `j` on: each resolved
/// name stages one fact per declared kind, and a self-reference is ignored —
/// this pass records no orphans.
pub open spec fn collect_names(
    sm: StructuredMetadataView,
    pkg: Seq<char>,
    names: Seq<Seq<char>>,
    j: int,
    acc: Seq<UnusedDependencyView>,
) -> Result<Seq<UnusedDependencyView>, Error>
    decreases names.len() - j,
{
    if j < 0 || j >= names.len() {
        Ok(acc)
    } else {
        match spec_resolve_reported_name(sm, pkg, names[j]) {
            Err(e) => Err(e),
            Ok(ResolvedNameView::SelfReference) => collect_names(sm, pkg, names, j + 1, acc),
            Ok(ResolvedNameView::Deps(uds)) => match stage_new(acc, uds, 0) {
                Err(e) => Err(e),
                Ok(acc2) => collect_names(sm, pkg, names, j + 1, acc2),
            },
        }
    }
}

/// Resolves one member's reported names into the running evidence set.
fn collect_names_exec(
    sm: &StructuredMetadata,
    package_id: &PackageId,
    names: &Vec<String>,
    cur: &mut Vec<UnusedDependency>,
) -> (r: Result<(), Error>)
    ensures
        match r {
            Ok(_) => collect_names(sm@, package_id@, names.deep_view(), 0, old(cur).deep_view())
                == Ok::<Seq<UnusedDependencyView>, Error>(final(cur).deep_view()),
            Err(e) => collect_names(sm@, package_id@, names.deep_view(), 0, old(cur).deep_view())
                == Err::<Seq<UnusedDependencyView>, Error>(e),
        },
{
    let ghost nv = names.deep_view();
    let ghost acc0 = old(cur).deep_view();
    let m = names.len();
    let mut j: usize = 0;
    while j < m
        invariant
            m == names.len(),
            nv == names.deep_view(),
            acc0 == old(cur).deep_view(),
            j <= m,
            collect_names(sm@, package_id@, nv, j as int, cur.deep_view()) == collect_names(
                sm@,
                package_id@,
                nv,
                0,
                acc0,
            ),
        decreases m - j,
    {
        let krate = RenamedCrate { name: names[j].clone() };
        proof {
            assert(krate@ == nv[j as int]);
        }
        match resolve_reported_name(sm, package_id, &krate) {
            Err(e) => {
                proof {
                    assert(collect_names(sm@, package_id@, nv, j as int, cur.deep_view()) == Err::<
                        Seq<UnusedDependencyView>,
                        Error,
                    >(e));
                }
                return Err(e);
            },

            Ok(ResolvedName::SelfReference) => {},
            Ok(ResolvedName::Deps(uds)) => {
                let ghost udv = uds.deep_view();
                let ghost acc_stage = cur.deep_view();
                let kn = uds.len();
                let mut k: usize = 0;
                while k < kn
                    invariant
                        kn == uds.len(),
                        udv == uds.deep_view(),
                        m == names.len(),
                        nv == names.deep_view(),
                        acc0 == old(cur).deep_view(),
                        j < m,
                        k <= kn,
                        collect_names(sm@, package_id@, nv, j as int, acc_stage) == collect_names(
                            sm@,
                            package_id@,
                            nv,
                            0,
                            acc0,
                        ),
                        spec_resolve_reported_name(sm@, package_id@, nv[j as int]) == Ok::<
                            ResolvedNameView,
                            Error,
                        >(ResolvedNameView::Deps(udv)),
                        stage_new(cur.deep_view(), udv, k as int) == stage_new(acc_stage, udv, 0),
                    decreases kn - k,
                {
                    if unused_dep_in(&cur, &uds[k]) {
                        proof {
                            assert(stage_new(cur.deep_view(), udv, k as int) == Err::<
                                Seq<UnusedDependencyView>,
                                Error,
                            >(Error::DuplicateUnusedDependency));
                            assert(collect_names(sm@, package_id@, nv, j as int, acc_stage)
                                == Err::<Seq<UnusedDependencyView>, Error>(
                                Error::DuplicateUnusedDependency,
                            ));
                        }
                        return Err(Error::DuplicateUnusedDependency);
                    }
                    let ghost before = cur.deep_view();
                    cur.push(uds[k].dup());
                    proof {
                        assert(cur.deep_view() =~= before.push(udv[k as int]));
                    }
                    k = k + 1;
                }
            },
        }
        j = j + 1;
    }
    Ok(())
}

/// Folds every member's report, from position `i` on, into one evidence set.
pub open spec fn collect_reports(
    sm: StructuredMetadataView,
    reports: Seq<DocReportView>,
    i: int,
    acc: Seq<UnusedDependencyView>,
) -> Result<Seq<UnusedDependencyView>, Error>
    decreases reports.len() - i,
{
    if i < 0 || i >= reports.len() {
        Ok(acc)
    } else {
        match collect_names(sm, reports[i].package_id, reports[i].unused_extern_names, 0, acc) {
            Err(e) => Err(e),
            Ok(acc2) => collect_reports(sm, reports, i + 1, acc2),
        }
    }
}

/// What the documentation pass yields over all reports.
pub open spec fn spec_find_unused_dependencies_doc(
    sm: StructuredMetadataView,
    reports: Seq<DocReportView>,
) -> Result<Seq<UnusedDependencyView>, Error> {
    collect_reports(sm, reports, 0, Seq::empty())
}

/// Resolves the documentation pass's reports into its independent evidence
/// set: one fact per declared kind of each reported name, self-references
/// ignored, the same fact never staged twice.
pub fn find_unused_dependencies_doc(sm: &StructuredMetadata, reports: &Vec<DocReport>) -> (r:
    Result<Vec<UnusedDependency>, Error>)
    ensures
        match r {
            Ok(out) => spec_find_unused_dependencies_doc(sm@, reports.deep_view()) == Ok::<
                Seq<UnusedDependencyView>,
                Error,
            >(out.deep_view()),
            Err(e) => spec_find_unused_dependencies_doc(sm@, reports.deep_view()) == Err::<
                Seq<UnusedDependencyView>,
                Error,
            >(e),
        },
{
    let ghost rv = reports.deep_view();
    let n = reports.len();
    let mut acc: Vec<UnusedDependency> = Vec::new();
    proof {
        assert(acc.deep_view() =~= Seq::<UnusedDependencyView>::empty());
    }
    let mut i: usize = 0;
    while i < n
        invariant
            n == reports.len(),
            rv == reports.deep_view(),
            i <= n,
            collect_reports(sm@, rv, i as int, acc.deep_view()) == collect_reports(
                sm@,
                rv,
                0,
                Seq::empty(),
            ),
        decreases n - i,
    {
        let report = &reports[i];
        proof {
            assert(report@ == rv[i as int]);
        }
        match collect_names_exec(sm, &report.package_id, &report.unused_extern_names, &mut acc) {
            Ok(_) => {},
            Err(e) => {
                return Err(e);
            },
        }
        i = i + 1;
    }
    Ok(acc)
}

/// Whether the merge keeps one regular finding: build-time findings are
/// always kept — the documentation pass has no build-script visibility — and
/// the rest only when that pass, if it ran at all, also reports them unused.
pub open spec fn keep_finding(
    ud: UnusedDependencyView,
    doc: Option<Seq<UnusedDependencyView>>,
) -> bool {
    ||| ud.dep_kind == DependencyKind::Build
    ||| match doc {
        None => true,
        Some(d) => d.contains(ud),
    }
}

/// The merged findings, from position `i` of the regular findings on.
pub open spec fn merge_from(
    regular: Seq<UnusedDependencyView>,
    i: int,
    doc: Option<Seq<UnusedDependencyView>>,
) -> Seq<UnusedDependencyView>
    decreases regular.len() - i,
{
    if i < 0 || i >= regular.len() {
        Seq::empty()
    } else {
        let rest = merge_from(regular, i + 1, doc);
        if keep_finding(regular[i], doc) {
            seq![regular[i]] + rest
        } else {
            rest
        }
    }
}

/// The cross-check merge of the two passes' findings.
pub open spec fn merge_spec(
    regular: Seq<UnusedDependencyView>,
    doc: Option<Seq<UnusedDependencyView>>,
) -> Seq<UnusedDependencyView> {
    merge_from(regular, 0, doc)
}

/// Merges the regular findings with the documentation pass's evidence.
pub fn merge_unused_dependencies(
    regular: &Vec<UnusedDependency>,
    doc: &Option<Vec<UnusedDependency>>,
) -> (r: Vec<UnusedDependency>)
    ensures
        r.deep_view() == merge_spec(
            regular.deep_view(),
            match doc {
                Some(d) => Some(d.deep_view()),
                None => None,
            },
        ),
{
    let ghost regv = regular.deep_view();
    let ghost docv: Option<Seq<UnusedDependencyView>> = match doc {
        Some(d) => Some(d.deep_view()),
        None => None,
    };
    let n = regular.len();
    let mut out: Vec<UnusedDependency> = Vec::new();
    let mut i: usize = 0;
    while i < n
        invariant
            n == regular.len(),
            regv == regular.deep_view(),
            docv == (match doc {
                Some(d) => Some(d.deep_view()),
                None => None,
            }),
            i <= n,
            out.deep_view() + merge_from(regv, i as int, docv) =~= merge_from(regv, 0, docv),
        decreases n - i,
    {
        let ud = &regular[i];
        let kept: bool = match doc {
            None => true,
            Some(d) => {
                if ud.dep_kind == DependencyKind::Build {
                    true
                } else {
                    unused_dep_in(d, ud)
                }
            },
        };
        if kept {
            let ghost before = out.deep_view();
            out.push(ud.dup());
            proof {
                assert(out.deep_view() =~= before + seq![regv[i as int]]);
            }
        }
        proof {
            assert(keep_finding(regv[i as int], docv) == kept);
        }
        i = i + 1;
    }
    proof {
        assert(out.deep_view() + merge_from(regv, n as int, docv) =~= out.deep_view());
    }
    out
}

/// Every merged finding satisfies the keep rule.
proof fn lemma_merge_all_kept(
    regular: Seq<UnusedDependencyView>,
    i: int,
    doc: Option<Seq<UnusedDependencyView>>,
)
    ensures
        forall|t: int|
            0 <= t < merge_from(regular, i, doc).len() ==> keep_finding(
                #[trigger] merge_from(regular, i, doc)[t],
                doc,
            ),
    decreases regular.len() - i,
{
    if 0 <= i < regular.len() {
        lemma_merge_all_kept(regular, i + 1, doc);
        let rest = merge_from(regular, i + 1, doc);
        if keep_finding(regular[i], doc) {
            let whole = merge_from(regular, i, doc);
            assert forall|t: int| 0 <= t < whole.len() implies keep_finding(
                whole[t],
                doc,
            ) by {
                if t == 0 {
                    assert(whole[t] == regular[i]);
                } else {
                    assert(whole[t] == rest[t - 1]);
                }
            }
        }
    }
}

/// Merging keeps a list whose entries all satisfy the keep rule as it is.
proof fn lemma_merge_noop(
    s: Seq<UnusedDependencyView>,
    i: int,
    doc: Option<Seq<UnusedDependencyView>>,
)
    requires
        0 <= i <= s.len(),
        forall|t: int| i <= t < s.len() ==> keep_finding(#[trigger] s[t], doc),
    ensures
        merge_from(s, i, doc) =~= s.skip(i),
    decreases s.len() - i,
{
    if i < s.len() {
        lemma_merge_noop(s, i + 1, doc);
        assert(merge_from(s, i, doc) =~= seq![s[i]] + s.skip(i + 1));
        assert(seq![s[i]] + s.skip(i + 1) =~= s.skip(i));
    } else {
        assert(s.skip(i) =~= Seq::<UnusedDependencyView>::empty());
    }
}

/// The cross-check merge is idempotent: merging the merged findings with the
/// same documentation evidence again changes nothing.
pub proof fn lemma_merge_idempotent(
    regular: Seq<UnusedDependencyView>,
    doc: Option<Seq<UnusedDependencyView>>,
)
    ensures
        merge_spec(merge_spec(regular, doc), doc) == merge_spec(regular, doc),
{
    let merged = merge_spec(regular, doc);
    lemma_merge_all_kept(regular, 0, doc);
    lemma_merge_noop(merged, 0, doc);
    assert(merged.skip(0) =~= merged);
}

/// The cross-check merge is a pure set operation: a finding is merged exactly
/// when the regular pass found it and the keep rule holds of it — the order
/// of either evidence set plays no part.
pub proof fn lemma_merge_membership(
    regular: Seq<UnusedDependencyView>,
    i: int,
    doc: Option<Seq<UnusedDependencyView>>,
    ud: UnusedDependencyView,
)
    requires
        0 <= i <= regular.len(),
    ensures
        merge_from(regular, i, doc).contains(ud) <==> (exists|t: int|
            i <= t < regular.len() && regular[t] == ud) && keep_finding(ud, doc),
    decreases regular.len() - i,
{
    if i < regular.len() {
        lemma_merge_membership(regular, i + 1, doc, ud);
        let rest = merge_from(regular, i + 1, doc);
        if keep_finding(regular[i], doc) {
            let whole = seq![regular[i]] + rest;
            if whole.contains(ud) {
                let t = choose|t: int| 0 <= t < whole.len() && whole[t] == ud;
                if t == 0 {
                    assert(regular[i] == ud);
                } else {
                    assert(rest[t - 1] == ud);
                    assert(rest.contains(ud));
                }
            }
            if regular[i] == ud || rest.contains(ud) {
                if regular[i] == ud {
                    assert(whole[0] == ud);
                } else {
                    let t = choose|t: int| 0 <= t < rest.len() && rest[t] == ud;
                    assert(whole[t + 1] == ud);
                }
                assert(whole.contains(ud));
            }
        } else {
            if (exists|t: int| i <= t < regular.len() && regular[t] == ud) && keep_finding(
                ud,
                doc,
            ) {
                let t = choose|t: int| i <= t < regular.len() && regular[t] == ud;
                assert(t > i);
            }
        }
    }
}

/// What the regular pass concludes from one event stream: the correlation's
/// candidates squashed against its realized artifacts, plus its orphans, and
/// the link variables nobody published, each worth a warning.
pub open spec fn spec_find_unused_dependencies_check(
    events: Seq<crate::correlate::BuildEventView>,
    sm: StructuredMetadataView,
) -> Result<(DependencyLintResultsView, Seq<Seq<char>>), Error> {
    match spec_correlate(events, sm) {
        Err(e) => Err(e),
        Ok(c) => match spec_squash(c.candidates, c.realized) {
            Err(e) => Err(e),
            Ok(unused) => Ok(
                (
                    DependencyLintResultsView { unused_dependencies: unused, orphans: c.orphans },
                    c.unresolved_link_vars,
                ),
            ),
        },
    }
}

/// Runs the regular pass over one event stream: correlates it with the graph
/// and squashes the candidates against the realized artifacts. Returns the
/// results together with the link variables that resolved to no publisher,
/// which the caller reports as warnings.
pub fn find_unused_dependencies_check(events: &Vec<BuildEvent>, sm: &StructuredMetadata) -> (r:
    Result<(DependencyLintResults, Vec<String>), Error>)
    ensures
        match r {
            Ok(out) => spec_find_unused_dependencies_check(events.deep_view(), sm@) == Ok::<
                (DependencyLintResultsView, Seq<Seq<char>>),
                Error,
            >((out.0@, out.1.deep_view())),
            Err(e) => spec_find_unused_dependencies_check(events.deep_view(), sm@) == Err::<
                (DependencyLintResultsView, Seq<Seq<char>>),
                Error,
            >(e),
        },
{
    let c = match correlate(events, sm) {
        Ok(c) => c,
        Err(e) => {
            return Err(e);
        },
    };
    let unused = match squash(&c) {
        Ok(u) => u,
        Err(e) => {
            return Err(e);
        },
    };
    let results = DependencyLintResults { unused_dependencies: unused, orphans: c.orphans };
    Ok((results, c.unresolved_link_vars))
}

/// Combines the two passes: regular findings merged against the
/// documentation pass's evidence — or kept unconditionally when that pass was
/// disabled — with the regular pass's orphans carried through unchanged.
pub fn find_unused_dependencies_all_invocations(
    regular: &DependencyLintResults,
    doc_unused: &Option<Vec<UnusedDependency>>,
) -> (r: DependencyLintResults)
    ensures
        r@.unused_dependencies == merge_spec(
            regular@.unused_dependencies,
            match doc_unused {
                Some(d) => Some(d.deep_view()),
                None => None,
            },
        ),
        r@.orphans == regular@.orphans,
{
    let combined = merge_unused_dependencies(&regular.unused_dependencies, doc_unused);
    let n = regular.orphans.len();
    let mut orphans: Vec<crate::model::OrphanArtifact> = Vec::new();
    let mut i: usize = 0;
    while i < n
        invariant
            n == regular.orphans.len(),
            i <= n,
            orphans.deep_view() =~= regular.orphans.deep_view().take(i as int),
        decreases n - i,
    {
        let o = &regular.orphans[i];
        let copy = crate::model::OrphanArtifact {
            crate_id: o.crate_id.dup(),
            kind: o.kind,
            artifact_name: o.artifact_name.clone(),
            crate_relative_path: o.crate_relative_path.clone(),
        };
        proof {
            assert(copy@ =~= regular.orphans.deep_view()[i as int]);
        }
        let ghost before = orphans.deep_view();
        orphans.push(copy);
        proof {
            assert(before.len() == i as int);
            assert(orphans.deep_view() =~= before.push(regular.orphans.deep_view()[i as int]));
            assert(orphans.deep_view() =~= regular.orphans.deep_view().take(i + 1));
        }
        i = i + 1;
    }
    proof {
        assert(regular.orphans.deep_view().take(n as int) =~= regular.orphans.deep_view());
    }
    DependencyLintResults { unused_dependencies: combined, orphans }
}

} // verus!
