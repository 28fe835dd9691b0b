//! Correlates the streamed build-event protocol with the normalized package
//! graph. A finite-state machine consumes the events in strict emission
//! order: diagnostics staged against the target in progress are flushed into
//! the evidence map when that target's artifact is produced, build-script
//! side channels feed the link-dependency set, and self-referential
//! diagnostics become orphan candidates. Any malformed or out-of-order event
//! aborts the whole pass with no partial results.

use vstd::prelude::*;
use vstd::string::*;
use crate::artifact::{kind_to_artifact_kind, spec_kind_to_artifact_kind};
use crate::links::{find_crate, resolve_link_spec, LinkEntry, LinkEntryView, LinkResolution,
    LinkResolutionView};
use crate::model::{ArtifactRecord, ArtifactRecordView, Error, LinkDependency, LinkDependencyView,
    OrphanArtifact, OrphanArtifactKind, OrphanArtifactView, PackageId, TargetRecord,
    TargetRecordView, UnusedDependency, UnusedDependencyView, orphan_artifact_eq, package_id_eq,
    target_record_eq, unused_dependency_eq};
use crate::names::{parse_unused_crate_diagnostic, spec_parse_unused_crate_diagnostic,
    RenamedCrate, UnrenamedCrate};
use crate::normalize::{contains_package_id, dependency_kinds, find_node, find_node_dep,
    find_package, find_package_dependency, node_dep_lookup, node_lookup, package_dependency_lookup,
    package_lookup, spec_dependency_kinds, StructuredMetadata, StructuredMetadataView};
use crate::text::{dash_to_underscore, dash_to_underscore_exec, find_char_from, is_prefix_of,
    parent_of, parent_of_exec, str_eq, str_find_char_from, str_starts_with, strip_dir,
    strip_dir_exec};
use crate::DependencyKind;

verus! {

/// One event of the build tool's streamed protocol, in emission order.
#[derive(Clone, Debug, PartialEq, Eq)]
pub enum BuildEvent {
    /// An artifact finished compiling.
    CompilerArtifact { artifact: ArtifactRecord },
    /// The compiler reported a diagnostic for one target of one package.
    CompilerMessage {
        package_id: PackageId,
        target: TargetRecord,
        code: Option<String>,
        message: String,
    },
    /// A build script ran; `lines` is its side-channel output.
    BuildScriptExecuted { package_id: PackageId, lines: Vec<String> },
    /// The terminal marker of the stream.
    BuildFinished,
    /// A plain text line where a structured event was expected.
    TextLine,
    /// An event kind this audit does not care about.
    Other,
}

/// Mathematical contents of a `BuildEvent`.
#[verifier::ext_equal]
pub ghost enum BuildEventView {
    CompilerArtifact { artifact: ArtifactRecordView },
    CompilerMessage {
        package_id: Seq<char>,
        target: TargetRecordView,
        code: Option<Seq<char>>,
        message: Seq<char>,
    },
    BuildScriptExecuted { package_id: Seq<char>, lines: Seq<Seq<char>> },
    BuildFinished,
    TextLine,
    Other,
}

impl View for BuildEvent {
    type V = BuildEventView;

    open spec fn view(&self) -> BuildEventView {
        match self {
            BuildEvent::CompilerArtifact { artifact } => BuildEventView::CompilerArtifact {
                artifact: artifact@,
            },
            BuildEvent::CompilerMessage { package_id, target, code, message } => {
                BuildEventView::CompilerMessage {
                    package_id: package_id@,
                    target: target@,
                    code: match code {
                        Some(c) => Some(c@),
                        None => None,
                    },
                    message: message@,
                }
            },
            BuildEvent::BuildScriptExecuted { package_id, lines } => {
                BuildEventView::BuildScriptExecuted {
                    package_id: package_id@,
                    lines: lines.deep_view(),
                }
            },
            BuildEvent::BuildFinished => BuildEventView::BuildFinished,
            BuildEvent::TextLine => BuildEventView::TextLine,
            BuildEvent::Other => BuildEventView::Other,
        }
    }
}

impl DeepView for BuildEvent {
    type V = BuildEventView;

    open spec fn deep_view(&self) -> BuildEventView {
        self.view()
    }
}

/// One candidate finding with the realized artifacts observed while its
/// diagnostic held.
#[derive(Clone, Debug, PartialEq, Eq)]
pub struct UnusedCandidate {
    pub dep: UnusedDependency,
    pub evidence: Vec<ArtifactRecord>,
}

/// Mathematical contents of an `UnusedCandidate`.
#[verifier::ext_equal]
pub ghost struct UnusedCandidateView {
    pub dep: UnusedDependencyView,
    pub evidence: Seq<ArtifactRecordView>,
}

impl View for UnusedCandidate {
    type V = UnusedCandidateView;

    open spec fn view(&self) -> UnusedCandidateView {
        UnusedCandidateView { dep: self.dep@, evidence: self.evidence.deep_view() }
    }
}

impl DeepView for UnusedCandidate {
    type V = UnusedCandidateView;

    open spec fn deep_view(&self) -> UnusedCandidateView {
        self.view()
    }
}

/// Everything one correlation pass accumulates.
#[derive(Clone, Debug, PartialEq, Eq)]
pub struct Correlation {
    /// Every realized artifact, in emission order.
    pub realized: Vec<ArtifactRecord>,
    /// Candidate findings with their observed evidence.
    pub candidates: Vec<UnusedCandidate>,
    /// Observed consumptions of published link keys.
    pub link_deps: Vec<LinkDependency>,
    /// Artifacts whose own self-reference condition fired with no other edge
    /// explaining it.
    pub orphans: Vec<OrphanArtifact>,
    /// Link variables whose publisher could not be resolved; each is worth a
    /// warning, never a fault.
    pub unresolved_link_vars: Vec<String>,
}

/// Mathematical contents of a `Correlation`.
#[verifier::ext_equal]
pub ghost struct CorrelationView {
    pub realized: Seq<ArtifactRecordView>,
    pub candidates: Seq<UnusedCandidateView>,
    pub link_deps: Seq<LinkDependencyView>,
    pub orphans: Seq<OrphanArtifactView>,
    pub unresolved_link_vars: Seq<Seq<char>>,
}

impl View for Correlation {
    type V = CorrelationView;

    open spec fn view(&self) -> CorrelationView {
        CorrelationView {
            realized: self.realized.deep_view(),
            candidates: self.candidates.deep_view(),
            link_deps: self.link_deps.deep_view(),
            orphans: self.orphans.deep_view(),
            unresolved_link_vars: self.unresolved_link_vars.deep_view(),
        }
    }
}

/// The target in progress and the candidates staged against it.
#[derive(Clone, Debug, PartialEq, Eq)]
pub struct Accumulating {
    pub target: TargetRecord,
    pub pending: Vec<UnusedDependency>,
}

/// Mathematical contents of an `Accumulating`.
#[verifier::ext_equal]
pub ghost struct AccumulatingView {
    pub target: TargetRecordView,
    pub pending: Seq<UnusedDependencyView>,
}

impl View for Accumulating {
    type V = AccumulatingView;

    open spec fn view(&self) -> AccumulatingView {
        AccumulatingView { target: self.target@, pending: self.pending.deep_view() }
    }
}

/// The whole machine state: idle, or accumulating against one target, plus
/// everything gathered so far.
pub struct CorrelatorState {
    pub active: Option<Accumulating>,
    pub out: Correlation,
}

/// Mathematical contents of a `CorrelatorState`.
#[verifier::ext_equal]
pub ghost struct CorrelatorStateView {
    pub active: Option<AccumulatingView>,
    pub out: CorrelationView,
}

impl View for CorrelatorState {
    type V = CorrelatorStateView;

    open spec fn view(&self) -> CorrelatorStateView {
        CorrelatorStateView {
            active: match self.active {
                Some(ref a) => Some(a@),
                None => None,
            },
            out: self.out@,
        }
    }
}

/// Whether a link-key consumption from `dependant` to `dependency` was
/// observed.
pub open spec fn link_dep_present(
    links: Seq<LinkDependencyView>,
    dependant: Seq<char>,
    dependency: Seq<char>,
) -> bool {
    exists|i: int|
        0 <= i < links.len() && links[i].dependant == dependant && links[i].dependency
            == dependency
}

/// Whether the observed link-key consumptions hold this pair.
pub fn link_dep_contains(
    links: &Vec<LinkDependency>,
    dependant: &PackageId,
    dependency: &PackageId,
) -> (r: bool)
    ensures
        r == link_dep_present(links.deep_view(), dependant@, dependency@),
{
    let n = links.len();
    let mut i: usize = 0;
    while i < n
        invariant
            n == links.len(),
            i <= n,
            forall|t: int|
                0 <= t < i ==> !(links.deep_view()[t].dependant == dependant@
                    && links.deep_view()[t].dependency == dependency@),
        decreases n - i,
    {
        if package_id_eq(&links[i].dependant, dependant) && package_id_eq(
            &links[i].dependency,
            dependency,
        ) {
            assert(links.deep_view()[i as int].dependant == dependant@);
            return true;
        }
        i = i + 1;
    }
    false
}

/// The evidence map with `a` recorded against `ud`: the first entry for `ud`
/// grows by one artifact, and a fact seen for the first time opens a new
/// entry at the end.
pub open spec fn evidence_add(
    ev: Seq<UnusedCandidateView>,
    ud: UnusedDependencyView,
    a: ArtifactRecordView,
) -> Seq<UnusedCandidateView>
    decreases ev.len(),
{
    if ev.len() == 0 {
        seq![UnusedCandidateView { dep: ud, evidence: seq![a] }]
    } else if ev[0].dep == ud {
        seq![UnusedCandidateView { dep: ev[0].dep, evidence: ev[0].evidence.push(a) }]
            + ev.drop_first()
    } else {
        seq![ev[0]] + evidence_add(ev.drop_first(), ud, a)
    }
}

/// Recording against the first matching entry is updating that entry in
/// place.
proof fn lemma_evidence_add_update(
    ev: Seq<UnusedCandidateView>,
    ud: UnusedDependencyView,
    a: ArtifactRecordView,
    j: int,
)
    requires
        0 <= j < ev.len(),
        ev[j].dep == ud,
        forall|k: int| 0 <= k < j ==> ev[k].dep != ud,
    ensures
        evidence_add(ev, ud, a) =~= ev.update(
            j,
            UnusedCandidateView { dep: ev[j].dep, evidence: ev[j].evidence.push(a) },
        ),
    decreases j,
{
    if j == 0 {
        assert(seq![UnusedCandidateView { dep: ev[0].dep, evidence: ev[0].evidence.push(a) }]
            + ev.drop_first() =~= ev.update(
            0,
            UnusedCandidateView { dep: ev[0].dep, evidence: ev[0].evidence.push(a) },
        ));
    } else {
        lemma_evidence_add_update(ev.drop_first(), ud, a, j - 1);
        assert(seq![ev[0]] + ev.drop_first().update(
            j - 1,
            UnusedCandidateView { dep: ev[j].dep, evidence: ev[j].evidence.push(a) },
        ) =~= ev.update(j, UnusedCandidateView { dep: ev[j].dep, evidence: ev[j].evidence.push(a) }));
    }
}

/// Recording a fact no entry holds appends a fresh entry.
proof fn lemma_evidence_add_append(
    ev: Seq<UnusedCandidateView>,
    ud: UnusedDependencyView,
    a: ArtifactRecordView,
)
    requires
        forall|k: int| 0 <= k < ev.len() ==> ev[k].dep != ud,
    ensures
        evidence_add(ev, ud, a) =~= ev.push(UnusedCandidateView { dep: ud, evidence: seq![a] }),
    decreases ev.len(),
{
    if ev.len() == 0 {
        assert(evidence_add(ev, ud, a) =~= ev.push(
            UnusedCandidateView { dep: ud, evidence: seq![a] },
        ));
    } else {
        lemma_evidence_add_append(ev.drop_first(), ud, a);
        assert(seq![ev[0]] + ev.drop_first().push(
            UnusedCandidateView { dep: ud, evidence: seq![a] },
        ) =~= ev.push(UnusedCandidateView { dep: ud, evidence: seq![a] }));
    }
}

/// Records `a` against `ud` in the evidence map.
fn evidence_add_exec(
    candidates: &mut Vec<UnusedCandidate>,
    ud: &UnusedDependency,
    artifact: &ArtifactRecord,
)
    ensures
        final(candidates).deep_view() == evidence_add(
            old(candidates).deep_view(),
            ud@,
            artifact@,
        ),
{
    let ghost orig = candidates.deep_view();
    let n = candidates.len();
    let mut j: usize = 0;
    while j < n
        invariant
            n == candidates.len(),
            orig == candidates.deep_view(),
            orig == old(candidates).deep_view(),
            j <= n,
            forall|t: int| 0 <= t < j ==> orig[t].dep != ud@,
        decreases n - j,
    {
        if unused_dependency_eq(&candidates[j].dep, ud) {
            assert(orig[j as int].dep == ud@);
            let ghost updated = UnusedCandidateView {
                dep: orig[j as int].dep,
                evidence: orig[j as int].evidence.push(artifact@),
            };
            let ghost pre = candidates@;
            let mut entry = candidates.remove(j);
            proof {
                assert(entry@ == orig[j as int]);
            }
            let ghost ev_before = entry.evidence.deep_view();
            entry.evidence.push(artifact.dup());
            proof {
                assert(entry.evidence.deep_view() =~= ev_before.push(artifact@));
                assert(entry@ =~= updated);
            }
            let ghost entry_exec = entry;
            candidates.insert(j, entry);
            proof {
                lemma_evidence_add_update(orig, ud@, artifact@, j as int);
                assert(candidates@ =~= pre.update(j as int, entry_exec));
                assert forall|t: int| 0 <= t < orig.len() implies candidates.deep_view()[t]
                    == orig.update(j as int, updated)[t] by {
                    if t == j {
                        assert(candidates.deep_view()[t] == entry_exec@);
                    } else {
                        assert(candidates@[t] == pre[t]);
                        assert(candidates.deep_view()[t] == pre[t]@);
                    }
                }
                assert(candidates.deep_view() =~= orig.update(j as int, updated));
            }
            return;
        }
        j = j + 1;
    }
    let mut fresh_evidence: Vec<ArtifactRecord> = Vec::new();
    fresh_evidence.push(artifact.dup());
    proof {
        assert(fresh_evidence.deep_view() =~= seq![artifact@]);
    }
    let fresh = UnusedCandidate { dep: ud.dup(), evidence: fresh_evidence };
    proof {
        assert(fresh@ =~= UnusedCandidateView { dep: ud@, evidence: seq![artifact@] });
    }
    let ghost fresh_snap = fresh@;
    let ghost pre = candidates@;
    candidates.push(fresh);
    proof {
        lemma_evidence_add_append(orig, ud@, artifact@);
        assert forall|t: int| 0 <= t < orig.len() + 1 implies candidates.deep_view()[t] == orig.push(
            fresh_snap,
        )[t] by {
            if t < orig.len() {
                assert(candidates@[t] == pre[t]);
                assert(candidates.deep_view()[t] == pre[t]@);
            } else {
                assert(candidates.deep_view()[t] == fresh_snap);
            }
        }
        assert(candidates.deep_view() =~= orig.push(
            UnusedCandidateView { dep: ud@, evidence: seq![artifact@] },
        ));
    }
}

/// Flushes staged candidates against the artifact that just finished: a
/// Normal-kind candidate whose pair already has an observed link-key
/// consumption is dropped — link-key use counts as usage even without a
/// type-level edge — and every other candidate gains the artifact as
/// evidence.
pub open spec fn flush_pending(
    ev: Seq<UnusedCandidateView>,
    pending: Seq<UnusedDependencyView>,
    links: Seq<LinkDependencyView>,
    a: ArtifactRecordView,
) -> Seq<UnusedCandidateView>
    decreases pending.len(),
{
    if pending.len() == 0 {
        ev
    } else {
        let head = pending[0];
        let ev1 = if head.dep_kind == DependencyKind::Normal && link_dep_present(
            links,
            head.dependant,
            head.dependency,
        ) {
            ev
        } else {
            evidence_add(ev, head, a)
        };
        flush_pending(ev1, pending.drop_first(), links, a)
    }
}

/// Flushes staged candidates against a finished artifact.
fn flush_pending_exec(
    candidates: &mut Vec<UnusedCandidate>,
    pending: Vec<UnusedDependency>,
    link_deps: &Vec<LinkDependency>,
    artifact: &ArtifactRecord,
)
    ensures
        final(candidates).deep_view() == flush_pending(
            old(candidates).deep_view(),
            pending.deep_view(),
            link_deps.deep_view(),
            artifact@,
        ),
{
    let ghost pv = pending.deep_view();
    let ghost orig = candidates.deep_view();
    proof {
        assert(pv.skip(0) =~= pv);
    }
    let n = pending.len();
    let mut i: usize = 0;
    while i < n
        invariant
            n == pending.len(),
            pv == pending.deep_view(),
            i <= n,
            flush_pending(candidates.deep_view(), pv.skip(i as int), link_deps.deep_view(), artifact@)
                == flush_pending(orig, pv, link_deps.deep_view(), artifact@),
        decreases n - i,
    {
        proof {
            assert(pv.skip(i as int).drop_first() =~= pv.skip(i + 1));
            assert(pv.skip(i as int)[0] == pv[i as int]);
        }
        let ud = &pending[i];
        let suppressed = ud.dep_kind == DependencyKind::Normal && link_dep_contains(
            link_deps,
            &ud.dependant,
            &ud.dependency,
        );
        if !suppressed {
            evidence_add_exec(candidates, ud, artifact);
        }
        i = i + 1;
    }
    proof {
        assert(pv.skip(n as int) =~= Seq::<UnusedDependencyView>::empty());
    }
}

/// The prefix of build-script directives.
pub open spec fn cargo_directive_prefix() -> Seq<char> {
    "cargo:"@
}

/// The directive key that names a watched environment variable.
pub open spec fn rerun_env_key() -> Seq<char> {
    "rerun-if-env-changed"@
}

/// The reserved prefix of dependency-link environment variables.
pub open spec fn dep_prefix() -> Seq<char> {
    "DEP_"@
}

/// The link variable one side-channel line names, when it is a
/// `rerun-if-env-changed` directive whose value carries the reserved
/// dependency-link prefix: the variable with that prefix removed.
pub open spec fn link_var_of_line(l: Seq<char>) -> Option<Seq<char>> {
    match find_char_from(l, 0, '=') {
        None => None,
        Some(i) => {
            let key = l.take(i);
            let value = l.skip(i + 1);
            if !is_prefix_of(cargo_directive_prefix(), key) {
                None
            } else if key.skip(cargo_directive_prefix().len() as int) != rerun_env_key() {
                None
            } else if !is_prefix_of(dep_prefix(), value) {
                None
            } else {
                Some(value.skip(dep_prefix().len() as int))
            }
        },
    }
}

/// Reads the link variable out of one side-channel line, if the line names
/// one.
pub fn link_var_of_line_exec(line: &str) -> (r: Option<String>)
    ensures
        match r {
            Some(v) => link_var_of_line(line@) == Some(v@),
            None => link_var_of_line(line@) is None,
        },
{
    let len = line.unicode_len();
    let i = match str_find_char_from(line, 0, '=') {
        Some(i) => i,
        None => {
            return None;
        },
    };
    proof {
        crate::text::lemma_find_char_from(line@, 0, '=');
    }
    let key = line.substring_char(0, i);
    let value = line.substring_char(i + 1, len);
    proof {
        assert(key@ =~= line@.take(i as int));
        assert(value@ =~= line@.skip(i as int + 1));
    }
    if !str_starts_with(key, "cargo:") {
        return None;
    }
    let clen = "cargo:".unicode_len();
    let bare_key = key.substring_char(clen, key.unicode_len());
    proof {
        assert(bare_key@ =~= key@.skip(cargo_directive_prefix().len() as int));
    }
    if !str_eq(bare_key, "rerun-if-env-changed") {
        return None;
    }
    if !str_starts_with(value, "DEP_") {
        return None;
    }
    let dlen = "DEP_".unicode_len();
    let link_var = value.substring_char(dlen, value.unicode_len());
    proof {
        assert(link_var@ =~= value@.skip(dep_prefix().len() as int));
    }
    Some(link_var.to_owned())
}

/// The link-dependency set and warning list after one side channel's lines,
/// from position `i` on: each resolvable link variable adds one consumption,
/// and each unresolvable one — none found or several — adds one warning.
pub open spec fn apply_build_script_lines(
    links: Seq<LinkDependencyView>,
    unresolved: Seq<Seq<char>>,
    pkg: Seq<char>,
    lines: Seq<Seq<char>>,
    i: int,
    table: Seq<LinkEntryView>,
) -> (Seq<LinkDependencyView>, Seq<Seq<char>>)
    decreases lines.len() - i,
{
    if i < 0 || i >= lines.len() {
        (links, unresolved)
    } else {
        match link_var_of_line(lines[i]) {
            None => apply_build_script_lines(links, unresolved, pkg, lines, i + 1, table),
            Some(var) => match resolve_link_spec(var, table) {
                LinkResolutionView::Found(provider) => apply_build_script_lines(
                    links.push(LinkDependencyView { dependant: pkg, dependency: provider }),
                    unresolved,
                    pkg,
                    lines,
                    i + 1,
                    table,
                ),
                _ => apply_build_script_lines(
                    links,
                    unresolved.push(var),
                    pkg,
                    lines,
                    i + 1,
                    table,
                ),
            },
        }
    }
}

/// Works one build script's side channel into the link-dependency set and the
/// warning list.
fn apply_build_script_lines_exec(
    link_deps: &mut Vec<LinkDependency>,
    unresolved: &mut Vec<String>,
    package_id: &PackageId,
    lines: &Vec<String>,
    table: &Vec<LinkEntry>,
)
    ensures
        (final(link_deps).deep_view(), final(unresolved).deep_view()) == apply_build_script_lines(
            old(link_deps).deep_view(),
            old(unresolved).deep_view(),
            package_id@,
            lines.deep_view(),
            0,
            table.deep_view(),
        ),
{
    let ghost lv = lines.deep_view();
    let ghost orig_links = link_deps.deep_view();
    let ghost orig_unres = unresolved.deep_view();
    let n = lines.len();
    let mut i: usize = 0;
    while i < n
        invariant
            n == lines.len(),
            lv == lines.deep_view(),
            i <= n,
            apply_build_script_lines(
                link_deps.deep_view(),
                unresolved.deep_view(),
                package_id@,
                lv,
                i as int,
                table.deep_view(),
            ) == apply_build_script_lines(
                orig_links,
                orig_unres,
                package_id@,
                lv,
                0,
                table.deep_view(),
            ),
        decreases n - i,
    {
        match link_var_of_line_exec(lines[i].as_str()) {
            None => {},
            Some(var) => {
                match find_crate(var.as_str(), table) {
                    LinkResolution::Found(provider) => {
                        let ghost before = link_deps.deep_view();
                        link_deps.push(
                            LinkDependency { dependant: package_id.dup(), dependency: provider },
                        );
                        proof {
                            assert(link_deps.deep_view() =~= before.push(
                                LinkDependencyView {
                                    dependant: package_id@,
                                    dependency: resolve_link_spec(
                                        var@,
                                        table.deep_view(),
                                    )->Found_0,
                                },
                            ));
                        }
                    },
                    _ => {
                        let ghost before = unresolved.deep_view();
                        unresolved.push(var);
                        proof {
                            assert(unresolved.deep_view() =~= before.push(
                                link_var_of_line(lv[i as int]).unwrap(),
                            ));
                        }
                    },
                }
            },
        }
        i = i + 1;
    }
}

/// The resolution of one reported dependency name: the staged candidates it
/// denotes, or the package's own self-reference.
#[derive(Clone, Debug, PartialEq, Eq)]
pub enum ResolvedName {
    Deps(Vec<UnusedDependency>),
    SelfReference,
}

/// Mathematical contents of a `ResolvedName`.
#[verifier::ext_equal]
pub ghost enum ResolvedNameView {
    Deps(Seq<UnusedDependencyView>),
    SelfReference,
}

impl View for ResolvedName {
    type V = ResolvedNameView;

    open spec fn view(&self) -> ResolvedNameView {
        match self {
            ResolvedName::Deps(uds) => ResolvedNameView::Deps(uds.deep_view()),
            ResolvedName::SelfReference => ResolvedNameView::SelfReference,
        }
    }
}

/// One candidate fact per kind of one resolved edge.
pub open spec fn uds_of(
    dependant: Seq<char>,
    dependency: Seq<char>,
    kinds: Seq<DependencyKind>,
    dependency_name: Seq<char>,
    manifest: Seq<char>,
) -> Seq<UnusedDependencyView> {
    kinds.map_values(
        |k: DependencyKind|
            UnusedDependencyView {
                dependant: dependant,
                dependency: dependency,
                dep_kind: k,
                dependency_name: dependency_name,
                dependant_manifest_path: manifest,
            },
    )
}

/// What a reported post-rename name means for one workspace member: resolved
/// through the rename map it stages one candidate per declared kind; a name
/// with no edge must be the member's own normalized name — a self-reference —
/// or the diagnostic cannot be placed at all.
pub open spec fn spec_resolve_reported_name(
    sm: StructuredMetadataView,
    pkg: Seq<char>,
    name: Seq<char>,
) -> Result<ResolvedNameView, Error> {
    match package_lookup(sm.packages, pkg) {
        None => Err(Error::UnknownPackage),
        Some(package) => match node_lookup(sm.nodes, pkg) {
            None => Err(Error::UnknownPackage),
            Some(node) => match node_dep_lookup(node.deps, name) {
                Some(nd) => match package_lookup(sm.packages, nd.pkg) {
                    None => Err(Error::UnknownPackage),
                    Some(dep_pkg) => match package_dependency_lookup(
                        package.dependencies,
                        dep_pkg.name,
                    ) {
                        None => Err(Error::MissingPackageDependency),
                        Some(decl) => match spec_dependency_kinds(nd.dep_kinds) {
                            Err(e) => Err(e),
                            Ok(kinds) => Ok(
                                ResolvedNameView::Deps(
                                    uds_of(pkg, nd.pkg, kinds, decl, package.manifest_path),
                                ),
                            ),
                        },
                    },
                },
                None => {
                    if name == dash_to_underscore(package.name) {
                        Ok(ResolvedNameView::SelfReference)
                    } else {
                        Err(Error::MissingNodeDependency)
                    }
                },
            },
        },
    }
}

/// Resolves one reported post-rename name against the normalized graph.
pub fn resolve_reported_name(
    sm: &StructuredMetadata,
    package_id: &PackageId,
    name: &RenamedCrate,
) -> (r: Result<ResolvedName, Error>)
    ensures
        match r {
            Ok(rn) => spec_resolve_reported_name(sm@, package_id@, name@) == Ok::<
                ResolvedNameView,
                Error,
            >(rn@),
            Err(e) => spec_resolve_reported_name(sm@, package_id@, name@) == Err::<
                ResolvedNameView,
                Error,
            >(e),
        },
{
    let package = match find_package(&sm.packages, package_id) {
        Some(p) => p,
        None => {
            return Err(Error::UnknownPackage);
        },
    };
    let node = match find_node(&sm.nodes, package_id) {
        Some(n) => n,
        None => {
            return Err(Error::UnknownPackage);
        },
    };
    match find_node_dep(name, node) {
        Ok(node_dep) => {
            let dep_pkg = match find_package(&sm.packages, &node_dep.pkg) {
                Some(p) => p,
                None => {
                    return Err(Error::UnknownPackage);
                },
            };
            let krate = UnrenamedCrate { name: dep_pkg.name.clone() };
            let decl = match find_package_dependency(&krate, &package.dependencies) {
                Ok(d) => d,
                Err(e) => {
                    return Err(e);
                },
            };
            let kinds = match dependency_kinds(node_dep) {
                Ok(k) => k,
                Err(e) => {
                    return Err(e);
                },
            };
            let ghost kv = kinds@;
            let ghost expected = uds_of(
                package_id@,
                node_dep@.pkg,
                kv,
                decl@,
                package@.manifest_path,
            );
            let kn = kinds.len();
            let mut uds: Vec<UnusedDependency> = Vec::new();
            let mut i: usize = 0;
            while i < kn
                invariant
                    kn == kinds.len(),
                    kv == kinds@,
                    expected == uds_of(
                        package_id@,
                        node_dep@.pkg,
                        kv,
                        decl@,
                        package@.manifest_path,
                    ),
                    i <= kn,
                    uds.deep_view() =~= expected.take(i as int),
                decreases kn - i,
            {
                let ghost before = uds.deep_view();
                uds.push(
                    UnusedDependency {
                        dependant: package_id.dup(),
                        dependency: node_dep.pkg.dup(),
                        dep_kind: kinds[i],
                        dependency_name: decl.name.clone(),
                        dependant_manifest_path: package.manifest_path.clone(),
                    },
                );
                proof {
                    assert(before.len() == i as int);
                    assert(uds.deep_view() =~= before.push(expected[i as int]));
                    assert(uds.deep_view() =~= expected.take(i + 1));
                }
                i = i + 1;
            }
            proof {
                assert(expected.take(kn as int) =~= expected);
            }
            Ok(ResolvedName::Deps(uds))
        },
        Err(e) => {
            let normalized = dash_to_underscore_exec(package.name.as_str());
            if str_eq(name.name.as_str(), normalized.as_str()) {
                Ok(ResolvedName::SelfReference)
            } else {
                Err(e)
            }
        },
    }
}

/// The orphan fact one self-referential diagnostic denotes: the target's
/// kind, collapsed and narrowed to an orphan kind, and its source path made
/// relative to the package directory.
pub open spec fn spec_orphan_of(
    sm: StructuredMetadataView,
    pkg: Seq<char>,
    target: TargetRecordView,
) -> Result<OrphanArtifactView, Error> {
    match package_lookup(sm.packages, pkg) {
        None => Err(Error::UnknownPackage),
        Some(package) => match spec_kind_to_artifact_kind(target.kinds) {
            Err(e) => Err(e),
            Ok(k) => match OrphanArtifactKind::spec_of_artifact_kind(k) {
                Err(e) => Err(e),
                Ok(ok) => match strip_dir(target.src_path, parent_of(package.manifest_path)) {
                    None => Err(Error::ArtifactPathOutsidePackage),
                    Some(rel) => Ok(
                        OrphanArtifactView {
                            crate_id: pkg,
                            kind: ok,
                            artifact_name: target.name,
                            crate_relative_path: rel,
                        },
                    ),
                },
            },
        },
    }
}

/// Builds the orphan fact for one self-referential diagnostic.
fn orphan_of(sm: &StructuredMetadata, package_id: &PackageId, target: &TargetRecord) -> (r: Result<
    OrphanArtifact,
    Error,
>)
    ensures
        match r {
            Ok(o) => spec_orphan_of(sm@, package_id@, target@) == Ok::<OrphanArtifactView, Error>(
                o@,
            ),
            Err(e) => spec_orphan_of(sm@, package_id@, target@) == Err::<OrphanArtifactView, Error>(
                e,
            ),
        },
{
    let package = match find_package(&sm.packages, package_id) {
        Some(p) => p,
        None => {
            return Err(Error::UnknownPackage);
        },
    };
    let kind = match kind_to_artifact_kind(&target.kinds) {
        Ok(k) => k,
        Err(e) => {
            return Err(e);
        },
    };
    let orphan_kind = match OrphanArtifactKind::of_artifact_kind(kind) {
        Ok(k) => k,
        Err(e) => {
            return Err(e);
        },
    };
    let dir = parent_of_exec(package.manifest_path.as_str());
    let rel = match strip_dir_exec(target.src_path.as_str(), dir.as_str()) {
        Some(r) => r,
        None => {
            return Err(Error::ArtifactPathOutsidePackage);
        },
    };
    let o = OrphanArtifact {
        crate_id: package_id.dup(),
        kind: orphan_kind,
        artifact_name: target.name.clone(),
        crate_relative_path: rel,
    };
    proof {
        assert(o@ =~= spec_orphan_of(sm@, package_id@, target@).unwrap());
    }
    Ok(o)
}

/// The orphan set with `o` recorded once.
pub open spec fn orphans_add(
    orphans: Seq<OrphanArtifactView>,
    o: OrphanArtifactView,
) -> Seq<OrphanArtifactView> {
    if orphans.contains(o) {
        orphans
    } else {
        orphans.push(o)
    }
}

/// Records an orphan fact once.
fn orphans_add_exec(orphans: &mut Vec<OrphanArtifact>, o: OrphanArtifact)
    ensures
        final(orphans).deep_view() == orphans_add(old(orphans).deep_view(), o@),
{
    let ghost orig = orphans.deep_view();
    let n = orphans.len();
    let mut i: usize = 0;
    while i < n
        invariant
            n == orphans.len(),
            orig == orphans.deep_view(),
            i <= n,
            forall|t: int| 0 <= t < i ==> orig[t] != o@,
        decreases n - i,
    {
        if orphan_artifact_eq(&orphans[i], &o) {
            assert(orig[i as int] == o@);
            assert(orig.contains(o@));
            return;
        }
        i = i + 1;
    }
    proof {
        if orig.contains(o@) {
            let t = choose|t: int| 0 <= t < orig.len() && orig[t] == o@;
            assert(false);
        }
    }
    let ghost before = orphans.deep_view();
    let ghost ov = o@;
    orphans.push(o);
    proof {
        assert(orphans.deep_view() =~= before.push(ov));
    }
}

/// The diagnostic code whose messages this audit correlates.
pub open spec fn unused_code() -> Seq<char> {
    "unused_crate_dependencies"@
}

/// One transition of the correlation machine.
pub open spec fn step(
    st: CorrelatorStateView,
    ev: BuildEventView,
    sm: StructuredMetadataView,
) -> Result<CorrelatorStateView, Error> {
    match ev {
        BuildEventView::CompilerArtifact { artifact } => {
            let out1 = CorrelationView { realized: st.out.realized.push(artifact), ..st.out };
            match st.active {
                Some(acc) => {
                    if acc.target != artifact.target {
                        Err(Error::ArtifactTargetMismatch)
                    } else {
                        Ok(
                            CorrelatorStateView {
                                active: None,
                                out: CorrelationView {
                                    candidates: flush_pending(
                                        out1.candidates,
                                        acc.pending,
                                        out1.link_deps,
                                        artifact,
                                    ),
                                    ..out1
                                },
                            },
                        )
                    }
                },
                None => Ok(CorrelatorStateView { active: None, out: out1 }),
            }
        },
        BuildEventView::CompilerMessage { package_id, target, code, message } => {
            if !sm.all_workspace_members.contains(package_id) {
                Ok(st)
            } else {
                match st.active {
                    Some(acc) => {
                        if acc.target != target {
                            Err(Error::DiagnosticTargetMismatch)
                        } else {
                            step_diagnostic(st, acc, package_id, target, code, message, sm)
                        }
                    },
                    None => step_diagnostic(
                        st,
                        AccumulatingView { target: target, pending: Seq::empty() },
                        package_id,
                        target,
                        code,
                        message,
                        sm,
                    ),
                }
            }
        },
        BuildEventView::BuildScriptExecuted { package_id, lines } => {
            if st.active is Some {
                Err(Error::DanglingDiagnostics)
            } else {
                let pair = apply_build_script_lines(
                    st.out.link_deps,
                    st.out.unresolved_link_vars,
                    package_id,
                    lines,
                    0,
                    sm.crate_links,
                );
                Ok(
                    CorrelatorStateView {
                        active: None,
                        out: CorrelationView {
                            link_deps: pair.0,
                            unresolved_link_vars: pair.1,
                            ..st.out
                        },
                    },
                )
            }
        },
        BuildEventView::BuildFinished => {
            if st.active is Some {
                Err(Error::DanglingDiagnostics)
            } else {
                Ok(st)
            }
        },
        BuildEventView::TextLine => Err(Error::UnexpectedTextLine),
        BuildEventView::Other => Ok(st),
    }
}

/// The diagnostic part of one transition, once the member and target checks
/// passed: a tagged message stages candidates or records an orphan; any other
/// message only opens or keeps the accumulating phase.
pub open spec fn step_diagnostic(
    st: CorrelatorStateView,
    acc: AccumulatingView,
    package_id: Seq<char>,
    target: TargetRecordView,
    code: Option<Seq<char>>,
    message: Seq<char>,
    sm: StructuredMetadataView,
) -> Result<CorrelatorStateView, Error> {
    if !(code matches Some(c) && c == unused_code()) {
        Ok(CorrelatorStateView { active: Some(acc), out: st.out })
    } else {
        match spec_parse_unused_crate_diagnostic(message) {
            None => Err(Error::UnparseableDiagnostic),
            Some(name) => match spec_resolve_reported_name(sm, package_id, name) {
                Err(e) => Err(e),
                Ok(ResolvedNameView::Deps(uds)) => Ok(
                    CorrelatorStateView {
                        active: Some(
                            AccumulatingView { target: acc.target, pending: acc.pending + uds },
                        ),
                        out: st.out,
                    },
                ),
                Ok(ResolvedNameView::SelfReference) => match spec_orphan_of(
                    sm,
                    package_id,
                    target,
                ) {
                    Err(e) => Err(e),
                    Ok(o) => Ok(
                        CorrelatorStateView {
                            active: Some(acc),
                            out: CorrelationView {
                                orphans: orphans_add(st.out.orphans, o),
                                ..st.out
                            },
                        },
                    ),
                },
            },
        }
    }
}

/// Applies one event to the machine state; on a fault the state is dead and
/// the whole pass must be abandoned.
fn step_event(st: &mut CorrelatorState, ev: &BuildEvent, sm: &StructuredMetadata) -> (r: Result<
    (),
    Error,
>)
    ensures
        match r {
            Ok(_) => step(old(st)@, ev@, sm@) == Ok::<CorrelatorStateView, Error>(final(st)@),
            Err(e) => step(old(st)@, ev@, sm@) == Err::<CorrelatorStateView, Error>(e),
        },
{
    match ev {
        BuildEvent::CompilerArtifact { artifact } => {
            let ghost realized_before = st.out.realized.deep_view();
            st.out.realized.push(artifact.dup());
            proof {
                assert(st.out.realized.deep_view() =~= realized_before.push(artifact@));
            }
            let acc_opt = st.active.take();
            match acc_opt {
                Some(acc) => {
                    if !target_record_eq(&acc.target, &artifact.target) {
                        return Err(Error::ArtifactTargetMismatch);
                    }
                    flush_pending_exec(
                        &mut st.out.candidates,
                        acc.pending,
                        &st.out.link_deps,
                        artifact,
                    );
                    proof {
                        assert(st@ =~= step(old(st)@, ev@, sm@).unwrap());
                    }
                    Ok(())
                },
                None => {
                    proof {
                        assert(st@ =~= step(old(st)@, ev@, sm@).unwrap());
                    }
                    Ok(())
                },
            }
        },
        BuildEvent::CompilerMessage { package_id, target, code, message } => {
            if !contains_package_id(&sm.all_workspace_members, package_id) {
                proof {
                    assert(st@ =~= step(old(st)@, ev@, sm@).unwrap());
                }
                return Ok(());
            }
            let acc_opt = st.active.take();
            let acc: Accumulating = match acc_opt {
                Some(acc) => {
                    if !target_record_eq(&acc.target, target) {
                        return Err(Error::DiagnosticTargetMismatch);
                    }
                    acc
                },
                None => Accumulating { target: target.dup(), pending: Vec::new() },
            };
            let ghost acc_v = acc@;
            proof {
                assert(acc_v.pending =~= (match old(st)@.active {
                    Some(a) => a.pending,
                    None => Seq::<UnusedDependencyView>::empty(),
                }));
            }
            let is_unused_code = match code {
                Some(c) => str_eq(c.as_str(), "unused_crate_dependencies"),
                None => false,
            };
            if !is_unused_code {
                st.active = Some(acc);
                proof {
                    assert(st@ =~= step(old(st)@, ev@, sm@).unwrap());
                }
                return Ok(());
            }
            let name = match parse_unused_crate_diagnostic(message.as_str()) {
                Ok(n) => n,
                Err(e) => {
                    return Err(e);
                },
            };
            match resolve_reported_name(sm, package_id, &name) {
                Err(e) => {
                    return Err(e);
                },
                Ok(ResolvedName::Deps(mut uds)) => {
                    let mut acc = acc;
                    let ghost pend_shallow = acc.pending@;
                    let ghost pend_before = acc.pending.deep_view();
                    let ghost uds_shallow = uds@;
                    let ghost uds_v = uds.deep_view();
                    acc.pending.append(&mut uds);
                    proof {
                        assert(acc.pending@ == pend_shallow + uds_shallow);
                        assert forall|t: int|
                            0 <= t < pend_before.len() + uds_v.len() implies acc.pending.deep_view()[t]
                            == (pend_before + uds_v)[t] by {
                            if t < pend_before.len() {
                                assert(acc.pending@[t] == pend_shallow[t]);
                            } else {
                                assert(acc.pending@[t] == uds_shallow[t - pend_shallow.len()]);
                            }
                        }
                        assert(acc.pending.deep_view() =~= pend_before + uds_v);
                    }
                    st.active = Some(acc);
                    proof {
                        assert(st@ =~= step(old(st)@, ev@, sm@).unwrap());
                    }
                    Ok(())
                },
                Ok(ResolvedName::SelfReference) => {
                    let orphan = match orphan_of(sm, package_id, target) {
                        Ok(o) => o,
                        Err(e) => {
                            return Err(e);
                        },
                    };
                    orphans_add_exec(&mut st.out.orphans, orphan);
                    st.active = Some(acc);
                    proof {
                        assert(st@ =~= step(old(st)@, ev@, sm@).unwrap());
                    }
                    Ok(())
                },
            }
        },
        BuildEvent::BuildScriptExecuted { package_id, lines } => {
            if st.active.is_some() {
                return Err(Error::DanglingDiagnostics);
            }
            apply_build_script_lines_exec(
                &mut st.out.link_deps,
                &mut st.out.unresolved_link_vars,
                package_id,
                lines,
                &sm.crate_links,
            );
            proof {
                assert(st@ =~= step(old(st)@, ev@, sm@).unwrap());
            }
            Ok(())
        },
        BuildEvent::BuildFinished => {
            if st.active.is_some() {
                return Err(Error::DanglingDiagnostics);
            }
            proof {
                assert(st@ =~= step(old(st)@, ev@, sm@).unwrap());
            }
            Ok(())
        },
        BuildEvent::TextLine => Err(Error::UnexpectedTextLine),
        BuildEvent::Other => {
            proof {
                assert(st@ =~= step(old(st)@, ev@, sm@).unwrap());
            }
            Ok(())
        },
    }
}

/// The machine's state before any event.
pub open spec fn init_state() -> CorrelatorStateView {
    CorrelatorStateView {
        active: None,
        out: CorrelationView {
            realized: Seq::empty(),
            candidates: Seq::empty(),
            link_deps: Seq::empty(),
            orphans: Seq::empty(),
            unresolved_link_vars: Seq::empty(),
        },
    }
}

/// The machine run over the events from position `i` on.
pub open spec fn run_events(
    events: Seq<BuildEventView>,
    i: int,
    st: CorrelatorStateView,
    sm: StructuredMetadataView,
) -> Result<CorrelatorStateView, Error>
    decreases events.len() - i,
{
    if i < 0 || i >= events.len() {
        Ok(st)
    } else {
        match step(st, events[i], sm) {
            Err(e) => Err(e),
            Ok(st2) => run_events(events, i + 1, st2, sm),
        }
    }
}

/// What one whole correlation pass yields: the machine run over all events in
/// emission order, which must end idle — no artifact may remain in progress.
pub open spec fn spec_correlate(
    events: Seq<BuildEventView>,
    sm: StructuredMetadataView,
) -> Result<CorrelationView, Error> {
    match run_events(events, 0, init_state(), sm) {
        Err(e) => Err(e),
        Ok(st) => {
            if st.active is Some {
                Err(Error::DanglingDiagnostics)
            } else {
                Ok(st.out)
            }
        },
    }
}

/// Consumes one build pass's event stream in strict emission order and
/// correlates it with the normalized graph. Any protocol violation aborts
/// with no partial results.
pub fn correlate(events: &Vec<BuildEvent>, sm: &StructuredMetadata) -> (r: Result<
    Correlation,
    Error,
>)
    ensures
        match r {
            Ok(c) => spec_correlate(events.deep_view(), sm@) == Ok::<CorrelationView, Error>(c@),
            Err(e) => spec_correlate(events.deep_view(), sm@) == Err::<CorrelationView, Error>(e),
        },
{
    let ghost evs = events.deep_view();
    let mut st = CorrelatorState {
        active: None,
        out: Correlation {
            realized: Vec::new(),
            candidates: Vec::new(),
            link_deps: Vec::new(),
            orphans: Vec::new(),
            unresolved_link_vars: Vec::new(),
        },
    };
    proof {
        assert(st@.out.realized =~= init_state().out.realized);
        assert(st@.out.candidates =~= init_state().out.candidates);
        assert(st@.out.link_deps =~= init_state().out.link_deps);
        assert(st@.out.orphans =~= init_state().out.orphans);
        assert(st@.out.unresolved_link_vars =~= init_state().out.unresolved_link_vars);
        assert(st@ =~= init_state());
    }
    let n = events.len();
    let mut i: usize = 0;
    while i < n
        invariant
            n == events.len(),
            evs == events.deep_view(),
            i <= n,
            run_events(evs, i as int, st@, sm@) == run_events(evs, 0, init_state(), sm@),
        decreases n - i,
    {
        let ghost prev = st@;
        proof {
            assert(events@[i as int]@ == evs[i as int]);
        }
        match step_event(&mut st, &events[i], sm) {
            Ok(_) => {
                proof {
                    assert(run_events(evs, i as int, prev, sm@) == run_events(
                        evs,
                        i + 1,
                        st@,
                        sm@,
                    ));
                }
            },
            Err(e) => {
                proof {
                    assert(run_events(evs, i as int, prev, sm@) == Err::<
                        CorrelatorStateView,
                        Error,
                    >(e));
                }
                return Err(e);
            },
        }
        i = i + 1;
    }
    if st.active.is_some() {
        return Err(Error::DanglingDiagnostics);
    }
    Ok(st.out)
}


} // verus!
