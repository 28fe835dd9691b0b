//! Plans manifest edits that remove confirmed-unused entries. A manifest is
//! modelled as its top-level sections, each a name and the dependency names
//! it declares; the caller owns the real document and performs the planned
//! removals on it. One removal is the expected outcome; none or several are
//! worth a warning, never a fault.

use vstd::prelude::*;
use vstd::string::*;
use crate::model::UnusedDependency;
use crate::text::str_eq;
use crate::DependencyKind;

verus! {

/// The dependency kind a manifest section name denotes, if it is one of the
/// three recognized section names.
pub open spec fn spec_toml_key_to_dep_kind(key: Seq<char>) -> Option<DependencyKind> {
    if key == "dependencies"@ {
        Some(DependencyKind::Normal)
    } else if key == "dev-dependencies"@ {
        Some(DependencyKind::Development)
    } else if key == "build-dependencies"@ {
        Some(DependencyKind::Build)
    } else {
        None
    }
}

/// Maps a manifest section name onto the dependency kind it declares.
pub fn toml_key_to_dep_kind(key: &str) -> (r: Option<DependencyKind>)
    ensures
        r == spec_toml_key_to_dep_kind(key@),
{
    if str_eq(key, "dependencies") {
        Some(DependencyKind::Normal)
    } else if str_eq(key, "dev-dependencies") {
        Some(DependencyKind::Development)
    } else if str_eq(key, "build-dependencies") {
        Some(DependencyKind::Build)
    } else {
        None
    }
}

/// One top-level manifest section: its name and the dependency names it
/// declares.
#[derive(Clone, Debug, PartialEq, Eq)]
pub struct ManifestSection {
    pub name: String,
    pub entries: Vec<String>,
}

/// Mathematical contents of a `ManifestSection`.
#[verifier::ext_equal]
pub ghost struct ManifestSectionView {
    pub name: Seq<char>,
    pub entries: Seq<Seq<char>>,
}

impl View for ManifestSection {
    type V = ManifestSectionView;

    open spec fn view(&self) -> ManifestSectionView {
        ManifestSectionView { name: self.name@, entries: self.entries.deep_view() }
    }
}

impl DeepView for ManifestSection {
    type V = ManifestSectionView;

    open spec fn deep_view(&self) -> ManifestSectionView {
        self.view()
    }
}

/// A manifest as this audit reads it: its top-level sections in document
/// order.
#[derive(Clone, Debug, PartialEq, Eq)]
pub struct ManifestDoc {
    pub sections: Vec<ManifestSection>,
}

impl View for ManifestDoc {
    type V = Seq<ManifestSectionView>;

    open spec fn view(&self) -> Seq<ManifestSectionView> {
        self.sections.deep_view()
    }
}

/// Whether a section declares the entry under this kind.
pub open spec fn section_declares(
    s: ManifestSectionView,
    name: Seq<char>,
    kind: DependencyKind,
) -> bool {
    spec_toml_key_to_dep_kind(s.name) == Some(kind) && s.entries.contains(name)
}

/// Whether the manifest declares the entry under this kind at all.
pub open spec fn manifest_declares(
    sections: Seq<ManifestSectionView>,
    name: Seq<char>,
    kind: DependencyKind,
) -> bool {
    exists|i: int| 0 <= i < sections.len() && section_declares(#[trigger] sections[i], name, kind)
}

/// The names of the sections a fix removes the entry from, in document order:
/// every section of the finding's kind that declares the finding's name.
pub open spec fn removal_plan_spec(
    sections: Seq<ManifestSectionView>,
    name: Seq<char>,
    kind: DependencyKind,
    i: int,
) -> Seq<Seq<char>>
    decreases sections.len() - i,
{
    if i < 0 || i >= sections.len() {
        Seq::empty()
    } else if section_declares(sections[i], name, kind) {
        seq![sections[i].name] + removal_plan_spec(sections, name, kind, i + 1)
    } else {
        removal_plan_spec(sections, name, kind, i + 1)
    }
}

/// Whether a list of names holds `name`.
fn entries_contain(entries: &Vec<String>, name: &str) -> (r: bool)
    ensures
        r == entries.deep_view().contains(name@),
{
    let n = entries.len();
    let mut i: usize = 0;
    while i < n
        invariant
            n == entries.len(),
            i <= n,
            forall|t: int| 0 <= t < i ==> entries.deep_view()[t] != name@,
        decreases n - i,
    {
        if str_eq(entries[i].as_str(), name) {
            assert(entries.deep_view()[i as int] == name@);
            return true;
        }
        i = i + 1;
    }
    proof {
        if entries.deep_view().contains(name@) {
            let t = choose|t: int|
                0 <= t < entries.deep_view().len() && entries.deep_view()[t] == name@;
            assert(false);
        }
    }
    false
}

/// Whether this section declares the entry under this kind.
fn section_declares_exec(s: &ManifestSection, name: &str, kind: DependencyKind) -> (r: bool)
    ensures
        r == section_declares(s@, name@, kind),
{
    match toml_key_to_dep_kind(s.name.as_str()) {
        Some(k) => k == kind && entries_contain(&s.entries, name),
        None => false,
    }
}

/// Plans the fix for one finding: the sections of the finding's kind that
/// declare the dependency under its declared — not import-renamed — name.
/// The caller removes the entry from each planned section of the real
/// document; an empty plan, or one with several sections, is worth a warning.
pub fn removal_plan(doc: &ManifestDoc, finding: &UnusedDependency) -> (r: Vec<String>)
    ensures
        r.deep_view() == removal_plan_spec(
            doc@,
            finding@.dependency_name,
            finding@.dep_kind,
            0,
        ),
{
    let ghost dv = doc@;
    let ghost name_v = finding@.dependency_name;
    let kind = finding.dep_kind;
    let n = doc.sections.len();
    let mut plan: Vec<String> = Vec::new();
    let mut i: usize = 0;
    while i < n
        invariant
            n == doc.sections.len(),
            dv == doc@,
            name_v == finding@.dependency_name,
            kind == finding@.dep_kind,
            i <= n,
            plan.deep_view() + removal_plan_spec(dv, name_v, kind, i as int) =~= removal_plan_spec(
                dv,
                name_v,
                kind,
                0,
            ),
        decreases n - i,
    {
        if section_declares_exec(&doc.sections[i], finding.dependency_name.as_str(), kind) {
            let ghost before = plan.deep_view();
            plan.push(doc.sections[i].name.clone());
            proof {
                assert(plan.deep_view() =~= before + seq![dv[i as int].name]);
            }
        }
        i = i + 1;
    }
    proof {
        assert(plan.deep_view() + removal_plan_spec(dv, name_v, kind, n as int) =~= plan.deep_view());
    }
    plan
}

/// A list of names with every occurrence of `name` removed, from position
/// `i` on.
pub open spec fn remove_entry_spec(entries: Seq<Seq<char>>, name: Seq<char>, i: int) -> Seq<
    Seq<char>,
>
    decreases entries.len() - i,
{
    if i < 0 || i >= entries.len() {
        Seq::empty()
    } else if entries[i] == name {
        remove_entry_spec(entries, name, i + 1)
    } else {
        seq![entries[i]] + remove_entry_spec(entries, name, i + 1)
    }
}

/// Nothing removed is left: the cut list never holds the removed name.
pub proof fn lemma_remove_entry_complete(entries: Seq<Seq<char>>, name: Seq<char>, i: int)
    ensures
        !remove_entry_spec(entries, name, i).contains(name),
    decreases entries.len() - i,
{
    if 0 <= i < entries.len() {
        lemma_remove_entry_complete(entries, name, i + 1);
        let cut = remove_entry_spec(entries, name, i);
        if entries[i] != name && cut.contains(name) {
            let t = choose|t: int| 0 <= t < cut.len() && cut[t] == name;
            if t > 0 {
                assert(remove_entry_spec(entries, name, i + 1)[t - 1] == name);
                assert(remove_entry_spec(entries, name, i + 1).contains(name));
            }
        }
    }
}

/// The manifest after applying one fix: every section of the finding's kind
/// loses the entries carrying the finding's declared name; every other
/// section stays as it is.
pub open spec fn apply_fix_spec(
    sections: Seq<ManifestSectionView>,
    name: Seq<char>,
    kind: DependencyKind,
) -> Seq<ManifestSectionView> {
    sections.map_values(
        |s: ManifestSectionView|
            if spec_toml_key_to_dep_kind(s.name) == Some(kind) {
                ManifestSectionView { name: s.name, entries: remove_entry_spec(s.entries, name, 0) }
            } else {
                s
            },
    )
}

/// Removes every occurrence of `name` from a list of names.
fn remove_entry(entries: &Vec<String>, name: &str) -> (r: Vec<String>)
    ensures
        r.deep_view() == remove_entry_spec(entries.deep_view(), name@, 0),
{
    let ghost ev = entries.deep_view();
    let n = entries.len();
    let mut out: Vec<String> = Vec::new();
    let mut i: usize = 0;
    while i < n
        invariant
            n == entries.len(),
            ev == entries.deep_view(),
            i <= n,
            out.deep_view() + remove_entry_spec(ev, name@, i as int) =~= remove_entry_spec(
                ev,
                name@,
                0,
            ),
        decreases n - i,
    {
        if !str_eq(entries[i].as_str(), name) {
            let ghost before = out.deep_view();
            out.push(entries[i].clone());
            proof {
                assert(out.deep_view() =~= before + seq![ev[i as int]]);
            }
        }
        i = i + 1;
    }
    proof {
        assert(out.deep_view() + remove_entry_spec(ev, name@, n as int) =~= out.deep_view());
    }
    out
}

/// Applies one fix to the manifest model: removes the finding's declared
/// name from every section of the finding's kind.
pub fn apply_fix(doc: &ManifestDoc, finding: &UnusedDependency) -> (r: ManifestDoc)
    ensures
        r@ == apply_fix_spec(doc@, finding@.dependency_name, finding@.dep_kind),
{
    let ghost dv = doc@;
    let ghost expected = apply_fix_spec(dv, finding@.dependency_name, finding@.dep_kind);
    let n = doc.sections.len();
    let mut sections: Vec<ManifestSection> = Vec::new();
    let mut i: usize = 0;
    while i < n
        invariant
            n == doc.sections.len(),
            dv == doc@,
            expected == apply_fix_spec(dv, finding@.dependency_name, finding@.dep_kind),
            i <= n,
            sections.deep_view() =~= expected.take(i as int),
        decreases n - i,
    {
        let section = &doc.sections[i];
        let replacement: ManifestSection = match toml_key_to_dep_kind(section.name.as_str()) {
            Some(k) => {
                if k == finding.dep_kind {
                    ManifestSection {
                        name: section.name.clone(),
                        entries: remove_entry(&section.entries, finding.dependency_name.as_str()),
                    }
                } else {
                    section_dup(section)
                }
            },
            None => section_dup(section),
        };
        proof {
            assert(replacement@ =~= expected[i as int]);
        }
        let ghost before = sections.deep_view();
        sections.push(replacement);
        proof {
            assert(before.len() == i as int);
            assert(sections.deep_view() =~= before.push(expected[i as int]));
            assert(sections.deep_view() =~= expected.take(i + 1));
        }
        i = i + 1;
    }
    proof {
        assert(expected.take(n as int) =~= expected);
    }
    ManifestDoc { sections }
}

/// An equal copy of one section.
fn section_dup(s: &ManifestSection) -> (r: ManifestSection)
    ensures
        r@ == s@,
{
    let n = s.entries.len();
    let mut entries: Vec<String> = Vec::new();
    let mut i: usize = 0;
    while i < n
        invariant
            n == s.entries.len(),
            i <= n,
            entries.deep_view() =~= s.entries.deep_view().take(i as int),
        decreases n - i,
    {
        let ghost before = entries.deep_view();
        entries.push(s.entries[i].clone());
        proof {
            assert(before.len() == i as int);
            assert(entries.deep_view() =~= before.push(s.entries.deep_view()[i as int]));
            assert(entries.deep_view() =~= s.entries.deep_view().take(i + 1));
        }
        i = i + 1;
    }
    proof {
        assert(s.entries.deep_view().take(n as int) =~= s.entries.deep_view());
    }
    let r = ManifestSection { name: s.name.clone(), entries };
    proof {
        assert(r@ =~= s@);
    }
    r
}

/// Round trip: after the fix for a finding is applied, the edited manifest no
/// longer declares that dependency name under that kind, so re-deriving
/// findings from it can never yield the same triple of dependant, dependency
/// name and kind again.
pub proof fn lemma_fix_round_trip(
    sections: Seq<ManifestSectionView>,
    name: Seq<char>,
    kind: DependencyKind,
)
    ensures
        !manifest_declares(apply_fix_spec(sections, name, kind), name, kind),
{
    let edited = apply_fix_spec(sections, name, kind);
    assert forall|i: int| 0 <= i < edited.len() implies !section_declares(
        #[trigger] edited[i],
        name,
        kind,
    ) by {
        lemma_remove_entry_complete(sections[i].entries, name, 0);
    }
}

/// A fix only cuts: whatever the edited manifest still declares, the unedited
/// manifest declared too.
pub proof fn lemma_fix_monotone(
    sections: Seq<ManifestSectionView>,
    name: Seq<char>,
    kind: DependencyKind,
    other_name: Seq<char>,
    other_kind: DependencyKind,
)
    requires
        manifest_declares(apply_fix_spec(sections, name, kind), other_name, other_kind),
    ensures
        manifest_declares(sections, other_name, other_kind),
{
    let edited = apply_fix_spec(sections, name, kind);
    let i = choose|i: int|
        0 <= i < edited.len() && section_declares(#[trigger] edited[i], other_name, other_kind);
    if spec_toml_key_to_dep_kind(sections[i].name) == Some(kind) {
        lemma_remove_entry_subset(sections[i].entries, name, 0, other_name);
        assert(section_declares(sections[i], other_name, other_kind));
    } else {
        assert(section_declares(sections[i], other_name, other_kind));
    }
}

/// Cutting entries never invents one.
proof fn lemma_remove_entry_subset(
    entries: Seq<Seq<char>>,
    name: Seq<char>,
    i: int,
    other: Seq<char>,
)
    requires
        remove_entry_spec(entries, name, i).contains(other),
    ensures
        entries.contains(other),
    decreases entries.len() - i,
{
    if 0 <= i < entries.len() {
        let cut = remove_entry_spec(entries, name, i);
        if entries[i] == name {
            lemma_remove_entry_subset(entries, name, i + 1, other);
        } else {
            if cut[0] == other {
                assert(entries[i] == other);
                assert(entries.contains(other));
            } else {
                let t = choose|t: int| 0 <= t < cut.len() && cut[t] == other;
                assert(remove_entry_spec(entries, name, i + 1)[t - 1] == other);
                assert(remove_entry_spec(entries, name, i + 1).contains(other));
                lemma_remove_entry_subset(entries, name, i + 1, other);
            }
        }
    } else {
        assert(remove_entry_spec(entries, name, i).len() == 0);
    }
}

} // verus!
