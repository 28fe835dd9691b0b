//! Whole-run laws of the correlation machine: which orphan facts a
//! successful pass reports, characterized over the event stream itself.

use vstd::prelude::*;
use crate::correlate::{orphans_add, run_events, spec_correlate, spec_orphan_of,
    spec_resolve_reported_name, step, unused_code, BuildEventView,
    CorrelationView, CorrelatorStateView, ResolvedNameView, init_state};
use crate::names::spec_parse_unused_crate_diagnostic;
use crate::artifact::spec_has_lib_artifact;
use crate::model::{Error, OrphanArtifactView};
use crate::normalize::{package_lookup, StructuredMetadataView};

verus! {

/// Whether one event is a self-referential unused-dependency diagnostic of a
/// workspace member that denotes exactly the orphan fact `o`: the reported
/// name has no edge in the member's rename map explaining it — it is the
/// member's own normalized name.
pub open spec fn orphan_event(
    ev: BuildEventView,
    sm: StructuredMetadataView,
    o: OrphanArtifactView,
) -> bool {
    match ev {
        BuildEventView::CompilerMessage { package_id, target, code, message } => {
            &&& package_id == o.crate_id
            &&& sm.all_workspace_members.contains(package_id)
            &&& code == Some(unused_code())
            &&& match spec_parse_unused_crate_diagnostic(message) {
                Some(name) => spec_resolve_reported_name(sm, package_id, name) == Ok::<
                    ResolvedNameView,
                    Error,
                >(ResolvedNameView::SelfReference),
                None => false,
            }
            &&& spec_orphan_of(sm, package_id, target) == Ok::<OrphanArtifactView, Error>(o)
        },
        _ => false,
    }
}

/// Recording once holds exactly the old facts and the new one.
proof fn lemma_orphans_add_contains(
    s: Seq<OrphanArtifactView>,
    x: OrphanArtifactView,
    o: OrphanArtifactView,
)
    ensures
        orphans_add(s, x).contains(o) <==> (s.contains(o) || o == x),
{
    let added = orphans_add(s, x);
    if s.contains(x) {
        assert(added == s);
        if o == x {
            assert(s.contains(o));
        }
    } else {
        if added.contains(o) {
            let t = choose|t: int| 0 <= t < added.len() && added[t] == o;
            if t < s.len() {
                assert(s.contains(o));
            } else {
                assert(o == x);
            }
        }
        if s.contains(o) {
            let t = choose|t: int| 0 <= t < s.len() && s[t] == o;
            assert(added[t] == o);
            assert(added.contains(o));
        }
        if o == x {
            assert(added[s.len() as int] == o);
            assert(added.contains(o));
        }
    }
}

/// One step adds an orphan fact exactly for a self-referential diagnostic
/// that denotes it, and never loses one.
proof fn lemma_step_orphans(
    st: CorrelatorStateView,
    ev: BuildEventView,
    sm: StructuredMetadataView,
    st2: CorrelatorStateView,
    o: OrphanArtifactView,
)
    requires
        step(st, ev, sm) == Ok::<CorrelatorStateView, Error>(st2),
    ensures
        st2.out.orphans.contains(o) <==> (st.out.orphans.contains(o) || orphan_event(ev, sm, o)),
{
    match ev {
        BuildEventView::CompilerMessage { package_id, target, code, message } => {
            if sm.all_workspace_members.contains(package_id) {
                if (code matches Some(c) && c == unused_code()) {
                    match spec_parse_unused_crate_diagnostic(message) {
                        Some(name) => {
                            match spec_resolve_reported_name(sm, package_id, name) {
                                Ok(ResolvedNameView::SelfReference) => {
                                    match spec_orphan_of(sm, package_id, target) {
                                        Ok(o2) => {
                                            lemma_orphans_add_contains(st.out.orphans, o2, o);
                                        },
                                        Err(_) => {},
                                    }
                                },
                                _ => {},
                            }
                        },
                        None => {},
                    }
                }
            }
        },
        _ => {},
    }
}

/// Over a run from position `i`, the final orphan set holds exactly what the
/// starting state held plus one fact per self-referential diagnostic left in
/// the stream.
proof fn lemma_run_orphans(
    events: Seq<BuildEventView>,
    i: int,
    st: CorrelatorStateView,
    sm: StructuredMetadataView,
    fin: CorrelatorStateView,
    o: OrphanArtifactView,
)
    requires
        0 <= i,
        run_events(events, i, st, sm) == Ok::<CorrelatorStateView, Error>(fin),
    ensures
        fin.out.orphans.contains(o) <==> (st.out.orphans.contains(o) || exists|t: int|
            i <= t < events.len() && orphan_event(#[trigger] events[t], sm, o)),
    decreases events.len() - i,
{
    if i >= events.len() {
        assert(fin == st);
    } else {
        let st2 = step(st, events[i], sm).unwrap();
        lemma_step_orphans(st, events[i], sm, st2, o);
        lemma_run_orphans(events, i + 1, st2, sm, fin, o);
        if orphan_event(events[i], sm, o) {
            assert(i <= i < events.len() && orphan_event(events[i], sm, o));
        }
    }
}

/// Whether the normalized graph shows `pkg` declaring a library artifact.
pub open spec fn package_declares_library(sm: StructuredMetadataView, pkg: Seq<char>) -> bool {
    match package_lookup(sm.packages, pkg) {
        Some(p) => spec_has_lib_artifact(p.targets) == Ok::<bool, Error>(true),
        None => false,
    }
}

/// An artifact is orphaned exactly when its package declares a library
/// artifact and its own self-reference condition fired with no other edge
/// explaining it. The library-declaration half rests on what the build tool
/// guarantees: it emits a self-referential unused-dependency diagnostic only
/// where the package's own library exists to be depended on, which the first
/// premise states of the stream at hand.
pub proof fn lemma_orphan_iff_self_reference(
    events: Seq<BuildEventView>,
    sm: StructuredMetadataView,
    c: CorrelationView,
    o: OrphanArtifactView,
)
    requires
        forall|i: int, x: OrphanArtifactView|
            0 <= i < events.len() && #[trigger] orphan_event(events[i], sm, x)
                ==> package_declares_library(sm, x.crate_id),
        spec_correlate(events, sm) == Ok::<CorrelationView, Error>(c),
    ensures
        c.orphans.contains(o) <==> (package_declares_library(sm, o.crate_id) && exists|i: int|
            0 <= i < events.len() && orphan_event(#[trigger] events[i], sm, o)),
{
    let fin = run_events(events, 0, init_state(), sm).unwrap();
    lemma_run_orphans(events, 0, init_state(), sm, fin, o);
    assert(!init_state().out.orphans.contains(o));
}

} // verus!
