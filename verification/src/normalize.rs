//! Normalizes a raw package graph into indexed lookup structures: nodes with
//! unique identifiers and unique post-rename import names, packages with
//! unique identifiers, the workspace membership sets, and the table of
//! published link keys. Normalization fails if two packages publish the same
//! normalized link key or if the default-member subset is not contained in
//! the full member set.

use vstd::prelude::*;
use vstd::pervasive::unreached;
use crate::links::{key_in_table, LinkEntry, LinkEntryView};
use crate::model::{DependencyDecl, Error, PackageId, RawDependencyKind, RawMetadata, RawNode,
    RawNodeDep, RawNodeDepView, RawNodeView, RawPackage, RawPackageView};
use crate::names::{RenamedCrate, UnrenamedCrate};
use crate::text::{envify, envify_seq, str_eq};
use crate::version::{spec_supports_default_workspace_members, supports_default_workspace_members,
    Version};
use crate::DependencyKind;

verus! {

/// Which membership set one pass works on.
#[derive(Clone, Copy, Debug, PartialEq, Eq, Structural)]
pub enum WorkspaceMembers {
    Default,
    All,
}

impl WorkspaceMembers {
    /// The membership set a caller's workspace switch selects: the whole
    /// workspace, or only its default members.
    pub fn from_workspace_arg(workspace: bool) -> (r: WorkspaceMembers)
        ensures
            r == (if workspace {
                WorkspaceMembers::All
            } else {
                WorkspaceMembers::Default
            }),
    {
        if workspace {
            WorkspaceMembers::All
        } else {
            WorkspaceMembers::Default
        }
    }
}

/// The raw package graph, indexed: nodes and packages with unique
/// identifiers, the membership sets, and the link-key table.
#[derive(Clone, Debug, PartialEq, Eq)]
pub struct StructuredMetadata {
    pub nodes: Vec<RawNode>,
    pub packages: Vec<RawPackage>,
    pub all_workspace_members: Vec<PackageId>,
    pub default_workspace_members: Option<Vec<PackageId>>,
    pub crate_links: Vec<LinkEntry>,
}

/// Mathematical contents of a `StructuredMetadata`.
#[verifier::ext_equal]
pub ghost struct StructuredMetadataView {
    pub nodes: Seq<RawNodeView>,
    pub packages: Seq<RawPackageView>,
    pub all_workspace_members: Seq<Seq<char>>,
    pub default_workspace_members: Option<Seq<Seq<char>>>,
    pub crate_links: Seq<LinkEntryView>,
}

impl View for StructuredMetadata {
    type V = StructuredMetadataView;

    open spec fn view(&self) -> StructuredMetadataView {
        StructuredMetadataView {
            nodes: self.nodes.deep_view(),
            packages: self.packages.deep_view(),
            all_workspace_members: self.all_workspace_members.deep_view(),
            default_workspace_members: match self.default_workspace_members {
                Some(ref d) => Some(d.deep_view()),
                None => None,
            },
            crate_links: self.crate_links.deep_view(),
        }
    }
}

/// Whether an earlier edge of the same node carries the same post-rename
/// import name.
pub open spec fn dup_dep_name_before(deps: Seq<RawNodeDepView>, j: int) -> bool {
    exists|k: int| 0 <= k < j && deps[k].name == deps[j].name
}

/// Checks one node's edges, from position `j` on, for repeated post-rename
/// import names.
pub open spec fn node_deps_check(deps: Seq<RawNodeDepView>, j: int) -> Result<(), Error>
    decreases deps.len() - j,
{
    if j < 0 || j >= deps.len() {
        Ok(())
    } else if dup_dep_name_before(deps, j) {
        Err(Error::DuplicateRenamedDependency)
    } else {
        node_deps_check(deps, j + 1)
    }
}

/// Whether an earlier node carries the same package identifier.
pub open spec fn dup_node_id_before(nodes: Seq<RawNodeView>, i: int) -> bool {
    exists|k: int| 0 <= k < i && nodes[k].id == nodes[i].id
}

/// Checks the resolve section, from node `i` on: each node's edges must have
/// unique import names, and each node a fresh package identifier.
pub open spec fn nodes_check(nodes: Seq<RawNodeView>, i: int) -> Result<(), Error>
    decreases nodes.len() - i,
{
    if i < 0 || i >= nodes.len() {
        Ok(())
    } else {
        match node_deps_check(nodes[i].deps, 0) {
            Err(e) => Err(e),
            Ok(_) => {
                if dup_node_id_before(nodes, i) {
                    Err(Error::DuplicateNode)
                } else {
                    nodes_check(nodes, i + 1)
                }
            },
        }
    }
}

/// Whether an earlier package carries the same identifier.
pub open spec fn dup_package_id_before(packages: Seq<RawPackageView>, i: int) -> bool {
    exists|k: int| 0 <= k < i && packages[k].id == packages[i].id
}

/// Checks the package list, from position `i` on, for repeated identifiers.
pub open spec fn packages_check(packages: Seq<RawPackageView>, i: int) -> Result<(), Error>
    decreases packages.len() - i,
{
    if i < 0 || i >= packages.len() {
        Ok(())
    } else if dup_package_id_before(packages, i) {
        Err(Error::DuplicatePackage)
    } else {
        packages_check(packages, i + 1)
    }
}

/// Whether an earlier entry of an identifier list equals entry `i`.
pub open spec fn dup_id_before(ids: Seq<Seq<char>>, i: int) -> bool {
    exists|k: int| 0 <= k < i && ids[k] == ids[i]
}

/// Checks an identifier list, from position `i` on, for repeated entries;
/// a repetition yields `e`.
pub open spec fn ids_check(ids: Seq<Seq<char>>, i: int, e: Error) -> Result<(), Error>
    decreases ids.len() - i,
{
    if i < 0 || i >= ids.len() {
        Ok(())
    } else if dup_id_before(ids, i) {
        Err(e)
    } else {
        ids_check(ids, i + 1, e)
    }
}

/// Whether every identifier of `sub` occurs in `sup`.
pub open spec fn ids_subset(sub: Seq<Seq<char>>, sup: Seq<Seq<char>>) -> bool {
    forall|i: int| 0 <= i < sub.len() ==> sup.contains(sub[i])
}

/// The link-key table built from the packages before position `i`: one entry
/// per published link key, normalized, in package order.
pub open spec fn links_upto(packages: Seq<RawPackageView>, i: int) -> Seq<LinkEntryView>
    decreases i,
{
    if i <= 0 || i > packages.len() {
        Seq::empty()
    } else {
        let rest = links_upto(packages, i - 1);
        match packages[i - 1].links {
            None => rest,
            Some(l) => rest.push(LinkEntryView { key: envify_seq(l), package: packages[i - 1].id }),
        }
    }
}

/// Checks the packages, from position `i` on, for two publishers of one
/// normalized link key.
pub open spec fn links_check(packages: Seq<RawPackageView>, i: int) -> Result<(), Error>
    decreases packages.len() - i,
{
    if i < 0 || i >= packages.len() {
        Ok(())
    } else {
        match packages[i].links {
            None => links_check(packages, i + 1),
            Some(l) => {
                if key_in_table(links_upto(packages, i), envify_seq(l)) {
                    Err(Error::DuplicateLinkKey)
                } else {
                    links_check(packages, i + 1)
                }
            },
        }
    }
}

/// What normalization makes of a raw graph: the indexed structures, or the
/// first fault found, checking the resolve section, then the packages, then
/// the membership sets, then the link keys.
pub open spec fn normalize_spec(m: crate::model::RawMetadataView, supports: bool) -> Result<
    StructuredMetadataView,
    Error,
> {
    match m.resolve {
        None => Err(Error::MissingResolve),
        Some(nodes) => match nodes_check(nodes, 0) {
            Err(e) => Err(e),
            Ok(_) => match packages_check(m.packages, 0) {
                Err(e) => Err(e),
                Ok(_) => match ids_check(m.workspace_members, 0, Error::DuplicateWorkspaceMember) {
                    Err(e) => Err(e),
                    Ok(_) => {
                        if supports && ids_check(
                            m.workspace_default_members,
                            0,
                            Error::DuplicateDefaultWorkspaceMember,
                        ) is Err {
                            Err(Error::DuplicateDefaultWorkspaceMember)
                        } else if supports && !ids_subset(
                            m.workspace_default_members,
                            m.workspace_members,
                        ) {
                            Err(Error::DefaultMembersNotSubset)
                        } else {
                            match links_check(m.packages, 0) {
                                Err(e) => Err(e),
                                Ok(_) => Ok(
                                    StructuredMetadataView {
                                        nodes,
                                        packages: m.packages,
                                        all_workspace_members: m.workspace_members,
                                        default_workspace_members: if supports {
                                            Some(m.workspace_default_members)
                                        } else {
                                            None
                                        },
                                        crate_links: links_upto(
                                            m.packages,
                                            m.packages.len() as int,
                                        ),
                                    },
                                ),
                            }
                        }
                    },
                },
            },
        },
    }
}

/// A clean link scan means no package's normalized key was already published
/// by an earlier package.
proof fn lemma_links_check_all(packages: Seq<RawPackageView>, i: int)
    requires
        0 <= i,
        links_check(packages, i) is Ok,
    ensures
        forall|t: int|
            i <= t < packages.len() && packages[t].links is Some ==> !key_in_table(
                links_upto(packages, t),
                envify_seq(#[trigger] packages[t].links.unwrap()),
            ),
    decreases packages.len() - i,
{
    if i < packages.len() {
        lemma_links_check_all(packages, i + 1);
    }
}

/// A link table built from a clean scan is well formed: every key normalized,
/// no key published twice — at most one package publishes a given normalized
/// link key per snapshot.
pub proof fn lemma_link_table_unique(packages: Seq<RawPackageView>, i: int)
    requires
        0 <= i <= packages.len(),
        links_check(packages, 0) is Ok,
    ensures
        crate::links::link_table_well_formed(links_upto(packages, i)),
    decreases i,
{
    if i == 0 {
    } else {
        lemma_link_table_unique(packages, i - 1);
        let prev = links_upto(packages, i - 1);
        match packages[i - 1].links {
            None => {},
            Some(l) => {
                lemma_links_check_all(packages, 0);
                assert(!key_in_table(prev, envify_seq(l)));
                crate::text::lemma_envify_idempotent(l);
                let cur = links_upto(packages, i);
                assert forall|a: int, b: int| 0 <= a < b < cur.len() implies #[trigger] cur[a].key
                    != #[trigger] cur[b].key by {
                    if b == cur.len() - 1 {
                        if cur[a].key == envify_seq(l) {
                            assert(prev[a].key == envify_seq(l));
                            assert(key_in_table(prev, envify_seq(l)));
                        }
                    } else {
                        assert(cur[a] == prev[a] && cur[b] == prev[b]);
                    }
                }
            },
        }
    }
}

/// What normalization accepts publishes each link key once: the indexed
/// structures carry a well-formed link table.
pub proof fn lemma_normalized_link_table_well_formed(
    m: crate::model::RawMetadataView,
    supports: bool,
    sm: StructuredMetadataView,
)
    requires
        normalize_spec(m, supports) == Ok::<StructuredMetadataView, Error>(sm),
    ensures
        crate::links::link_table_well_formed(sm.crate_links),
{
    lemma_link_table_unique(m.packages, m.packages.len() as int);
}

/// Whether any of the first `upto` edges carries the import name `name`.
fn contains_dep_name(deps: &Vec<RawNodeDep>, upto: usize, name: &str) -> (r: bool)
    requires
        upto <= deps.len(),
    ensures
        r == exists|k: int| 0 <= k < upto && deps.deep_view()[k].name == name@,
{
    let mut k: usize = 0;
    while k < upto
        invariant
            upto <= deps.len(),
            k <= upto,
            forall|t: int| 0 <= t < k ==> deps.deep_view()[t].name != name@,
        decreases upto - k,
    {
        if str_eq(deps[k].name.as_str(), name) {
            assert(deps.deep_view()[k as int].name == name@);
            return true;
        }
        k = k + 1;
    }
    false
}

/// Checks one node's edges for repeated post-rename import names.
fn deps_names_unique_check(deps: &Vec<RawNodeDep>) -> (r: Result<(), Error>)
    ensures
        r == node_deps_check(deps.deep_view(), 0),
{
    let ghost dv = deps.deep_view();
    let n = deps.len();
    let mut j: usize = 0;
    while j < n
        invariant
            n == deps.len(),
            dv == deps.deep_view(),
            j <= n,
            node_deps_check(dv, j as int) == node_deps_check(dv, 0),
        decreases n - j,
    {
        if contains_dep_name(deps, j, deps[j].name.as_str()) {
            assert(dup_dep_name_before(dv, j as int));
            return Err(Error::DuplicateRenamedDependency);
        }
        assert(!dup_dep_name_before(dv, j as int));
        j = j + 1;
    }
    Ok(())
}

/// Whether any of the first `upto` identifiers equals `id`.
fn contains_id_upto(ids: &Vec<PackageId>, upto: usize, id: &PackageId) -> (r: bool)
    requires
        upto <= ids.len(),
    ensures
        r == exists|k: int| 0 <= k < upto && ids.deep_view()[k] == id@,
{
    let mut k: usize = 0;
    while k < upto
        invariant
            upto <= ids.len(),
            k <= upto,
            forall|t: int| 0 <= t < k ==> ids.deep_view()[t] != id@,
        decreases upto - k,
    {
        if str_eq(ids[k].repr.as_str(), id.repr.as_str()) {
            assert(ids.deep_view()[k as int] == id@);
            return true;
        }
        k = k + 1;
    }
    false
}

/// Whether an identifier list holds `id` at all.
pub fn contains_package_id(ids: &Vec<PackageId>, id: &PackageId) -> (r: bool)
    ensures
        r == ids.deep_view().contains(id@),
{
    let n = ids.len();
    let r = contains_id_upto(ids, n, id);
    proof {
        if ids.deep_view().contains(id@) {
            let k = choose|k: int| 0 <= k < ids.deep_view().len() && ids.deep_view()[k] == id@;
            assert(0 <= k < n && ids.deep_view()[k] == id@);
        }
    }
    r
}

/// Checks an identifier list for repeated entries.
fn ids_unique_check(ids: &Vec<PackageId>, e: Error) -> (r: Result<(), Error>)
    ensures
        r == ids_check(ids.deep_view(), 0, e),
{
    let ghost iv = ids.deep_view();
    let n = ids.len();
    let mut i: usize = 0;
    while i < n
        invariant
            n == ids.len(),
            iv == ids.deep_view(),
            i <= n,
            ids_check(iv, i as int, e) == ids_check(iv, 0, e),
        decreases n - i,
    {
        if contains_id_upto(ids, i, &ids[i]) {
            assert(dup_id_before(iv, i as int));
            return Err(e);
        }
        assert(!dup_id_before(iv, i as int));
        i = i + 1;
    }
    Ok(())
}

/// Checks the resolve section: unique import names within each node, unique
/// node identifiers across nodes.
fn nodes_unique_check(nodes: &Vec<RawNode>) -> (r: Result<(), Error>)
    ensures
        r == nodes_check(nodes.deep_view(), 0),
{
    let ghost nv = nodes.deep_view();
    let n = nodes.len();
    let mut i: usize = 0;
    while i < n
        invariant
            n == nodes.len(),
            nv == nodes.deep_view(),
            i <= n,
            nodes_check(nv, i as int) == nodes_check(nv, 0),
        decreases n - i,
    {
        proof {
            assert(nodes.deep_view()[i as int].deps =~= nodes@[i as int].deps.deep_view());
        }
        match deps_names_unique_check(&nodes[i].deps) {
            Err(e) => {
                return Err(e);
            },
            Ok(_) => {},
        }
        let mut k: usize = 0;
        while k < i
            invariant
                n == nodes.len(),
                nv == nodes.deep_view(),
                i < n,
                k <= i,
                nodes_check(nv, i as int) == nodes_check(nv, 0),
                node_deps_check(nv[i as int].deps, 0) is Ok,
                forall|t: int| 0 <= t < k ==> nv[t].id != nv[i as int].id,
            decreases i - k,
        {
            if str_eq(nodes[k].id.repr.as_str(), nodes[i].id.repr.as_str()) {
                assert(nv[k as int].id == nv[i as int].id);
                assert(dup_node_id_before(nv, i as int));
                return Err(Error::DuplicateNode);
            }
            k = k + 1;
        }
        assert(!dup_node_id_before(nv, i as int));
        i = i + 1;
    }
    Ok(())
}

/// Checks the package list for repeated identifiers.
fn packages_unique_check(packages: &Vec<RawPackage>) -> (r: Result<(), Error>)
    ensures
        r == packages_check(packages.deep_view(), 0),
{
    let ghost pv = packages.deep_view();
    let n = packages.len();
    let mut i: usize = 0;
    while i < n
        invariant
            n == packages.len(),
            pv == packages.deep_view(),
            i <= n,
            packages_check(pv, i as int) == packages_check(pv, 0),
        decreases n - i,
    {
        let mut k: usize = 0;
        while k < i
            invariant
                n == packages.len(),
                pv == packages.deep_view(),
                i < n,
                k <= i,
                packages_check(pv, i as int) == packages_check(pv, 0),
                forall|t: int| 0 <= t < k ==> pv[t].id != pv[i as int].id,
            decreases i - k,
        {
            if str_eq(packages[k].id.repr.as_str(), packages[i].id.repr.as_str()) {
                assert(pv[k as int].id == pv[i as int].id);
                assert(dup_package_id_before(pv, i as int));
                return Err(Error::DuplicatePackage);
            }
            k = k + 1;
        }
        assert(!dup_package_id_before(pv, i as int));
        i = i + 1;
    }
    Ok(())
}

/// Whether the table already holds `key`.
fn table_contains_key(table: &Vec<LinkEntry>, key: &str) -> (r: bool)
    ensures
        r == key_in_table(table.deep_view(), key@),
{
    let n = table.len();
    let mut k: usize = 0;
    while k < n
        invariant
            n == table.len(),
            k <= n,
            forall|t: int| 0 <= t < k ==> table.deep_view()[t].key != key@,
        decreases n - k,
    {
        if str_eq(table[k].key.as_str(), key) {
            assert(table.deep_view()[k as int].key == key@);
            return true;
        }
        k = k + 1;
    }
    false
}

/// Builds the link-key table: one normalized key per publishing package, each
/// key published at most once.
fn build_link_table(packages: &Vec<RawPackage>) -> (r: Result<Vec<LinkEntry>, Error>)
    ensures
        match r {
            Ok(t) => links_check(packages.deep_view(), 0) is Ok && t.deep_view() == links_upto(
                packages.deep_view(),
                packages.deep_view().len() as int,
            ),
            Err(e) => links_check(packages.deep_view(), 0) == Err::<(), Error>(e),
        },
{
    let ghost pv = packages.deep_view();
    let n = packages.len();
    let mut table: Vec<LinkEntry> = Vec::new();
    let mut i: usize = 0;
    while i < n
        invariant
            n == packages.len(),
            pv == packages.deep_view(),
            i <= n,
            table.deep_view() == links_upto(pv, i as int),
            links_check(pv, i as int) == links_check(pv, 0),
        decreases n - i,
    {
        match packages[i].links {
            Some(ref link) => {
                let key = envify(link.as_str());
                proof {
                    assert(pv[i as int].links == Some(packages@[i as int].links->0@));
                    assert(key@ == envify_seq(pv[i as int].links->0));
                }
                if table_contains_key(&table, key.as_str()) {
                    return Err(Error::DuplicateLinkKey);
                }
                let ghost before = table.deep_view();
                table.push(LinkEntry { key, package: packages[i].id.dup() });
                proof {
                    assert(table.deep_view() =~= before.push(
                        LinkEntryView {
                            key: envify_seq(pv[i as int].links->0),
                            package: pv[i as int].id,
                        },
                    ));
                }
            },
            None => {},
        }
        i = i + 1;
    }
    Ok(table)
}

/// Whether every identifier of `sub` occurs in `sup`, decided entry by
/// entry.
fn ids_subset_check(sub: &Vec<PackageId>, sup: &Vec<PackageId>) -> (r: bool)
    ensures
        r == ids_subset(sub.deep_view(), sup.deep_view()),
{
    let ghost dv = sub.deep_view();
    let n = sub.len();
    let mut i: usize = 0;
    while i < n
        invariant
            n == sub.len(),
            dv == sub.deep_view(),
            i <= n,
            forall|t: int| 0 <= t < i ==> sup.deep_view().contains(dv[t]),
        decreases n - i,
    {
        if !contains_package_id(sup, &sub[i]) {
            assert(!sup.deep_view().contains(dv[i as int]));
            return false;
        }
        i = i + 1;
    }
    true
}

/// Normalizes a raw package graph against the build tool's version: checks
/// every uniqueness and containment condition, and indexes what passed.
pub fn metadata_to_structured_metadata(metadata: RawMetadata, cargo_version: &Version) -> (r:
    Result<StructuredMetadata, Error>)
    ensures
        match r {
            Ok(sm) => normalize_spec(
                metadata@,
                spec_supports_default_workspace_members(cargo_version@),
            ) == Ok::<StructuredMetadataView, Error>(sm@),
            Err(e) => normalize_spec(
                metadata@,
                spec_supports_default_workspace_members(cargo_version@),
            ) == Err::<StructuredMetadataView, Error>(e),
        },
{
    let ghost mv = metadata@;
    let supports = supports_default_workspace_members(cargo_version);
    let nodes = match metadata.resolve {
        Some(nodes) => nodes,
        None => {
            return Err(Error::MissingResolve);
        },
    };
    proof {
        assert(mv.resolve == Some(nodes.deep_view()));
    }
    match nodes_unique_check(&nodes) {
        Err(e) => {
            return Err(e);
        },
        Ok(_) => {},
    }
    match packages_unique_check(&metadata.packages) {
        Err(e) => {
            return Err(e);
        },
        Ok(_) => {},
    }
    match ids_unique_check(&metadata.workspace_members, Error::DuplicateWorkspaceMember) {
        Err(e) => {
            return Err(e);
        },
        Ok(_) => {},
    }
    let default_workspace_members: Option<Vec<PackageId>> = if supports {
        match ids_unique_check(
            &metadata.workspace_default_members,
            Error::DuplicateDefaultWorkspaceMember,
        ) {
            Err(_) => {
                return Err(Error::DuplicateDefaultWorkspaceMember);
            },
            Ok(_) => {},
        }
        if !ids_subset_check(&metadata.workspace_default_members, &metadata.workspace_members) {
            return Err(Error::DefaultMembersNotSubset);
        }
        Some(metadata.workspace_default_members)
    } else {
        None
    };
    let crate_links = match build_link_table(&metadata.packages) {
        Ok(t) => t,
        Err(e) => {
            return Err(e);
        },
    };
    let sm = StructuredMetadata {
        nodes,
        packages: metadata.packages,
        all_workspace_members: metadata.workspace_members,
        default_workspace_members,
        crate_links,
    };
    proof {
        assert(normalize_spec(mv, spec_supports_default_workspace_members(cargo_version@)) == Ok::<
            StructuredMetadataView,
            Error,
        >(sm@));
    }
    Ok(sm)
}

/// The membership set one pass works on. The default set is only present
/// when the build tool distinguishes it; asking for it otherwise is the
/// caller's fault.
pub fn workspace_members<'a>(
    structured_metadata: &'a StructuredMetadata,
    members: WorkspaceMembers,
) -> (r: &'a Vec<PackageId>)
    requires
        members is Default ==> structured_metadata.default_workspace_members is Some,
    ensures
        r.deep_view() == (match members {
            WorkspaceMembers::Default => structured_metadata@.default_workspace_members.unwrap(),
            WorkspaceMembers::All => structured_metadata@.all_workspace_members,
        }),
{
    match members {
        WorkspaceMembers::Default => {
            match structured_metadata.default_workspace_members {
                Some(ref d) => d,
                None => unreached(),
            }
        },
        WorkspaceMembers::All => &structured_metadata.all_workspace_members,
    }
}

/// The dependency kind an edge annotation denotes, if this audit can place
/// it.
pub open spec fn spec_dep_kind_of_raw(k: RawDependencyKind) -> Option<DependencyKind> {
    match k {
        RawDependencyKind::Normal => Some(DependencyKind::Normal),
        RawDependencyKind::Development => Some(DependencyKind::Development),
        RawDependencyKind::Build => Some(DependencyKind::Build),
        RawDependencyKind::Unknown => None,
    }
}

fn dep_kind_of_raw(k: RawDependencyKind) -> (r: Option<DependencyKind>)
    ensures
        r == spec_dep_kind_of_raw(k),
{
    match k {
        RawDependencyKind::Normal => Some(DependencyKind::Normal),
        RawDependencyKind::Development => Some(DependencyKind::Development),
        RawDependencyKind::Build => Some(DependencyKind::Build),
        RawDependencyKind::Unknown => None,
    }
}

/// Deduplicates an edge's kind annotations, from position `i` on, into the
/// distinct kinds in order of first occurrence.
pub open spec fn kinds_from(
    kinds: Seq<RawDependencyKind>,
    i: int,
    acc: Seq<DependencyKind>,
) -> Result<Seq<DependencyKind>, Error>
    decreases kinds.len() - i,
{
    if i < 0 || i >= kinds.len() {
        Ok(acc)
    } else {
        match spec_dep_kind_of_raw(kinds[i]) {
            None => Err(Error::UnsupportedDependencyKind),
            Some(k) => {
                if acc.contains(k) {
                    kinds_from(kinds, i + 1, acc)
                } else {
                    kinds_from(kinds, i + 1, acc.push(k))
                }
            },
        }
    }
}

/// The distinct dependency kinds of one resolved edge. An edge declared in
/// several ways lists a kind several times; an edge with no kind at all is
/// malformed.
pub open spec fn spec_dependency_kinds(kinds: Seq<RawDependencyKind>) -> Result<
    Seq<DependencyKind>,
    Error,
> {
    if kinds.len() == 0 {
        Err(Error::EmptyDependencyKinds)
    } else {
        kinds_from(kinds, 0, Seq::empty())
    }
}

/// Whether a kind list already holds `k`.
fn kinds_contain(kinds: &Vec<DependencyKind>, k: DependencyKind) -> (r: bool)
    ensures
        r == kinds@.contains(k),
{
    let n = kinds.len();
    let mut i: usize = 0;
    while i < n
        invariant
            n == kinds.len(),
            i <= n,
            forall|t: int| 0 <= t < i ==> kinds@[t] != k,
        decreases n - i,
    {
        if kinds[i] == k {
            assert(kinds@[i as int] == k);
            return true;
        }
        i = i + 1;
    }
    false
}

/// The distinct kinds under which one resolved edge was declared, in order
/// of first occurrence.
pub fn dependency_kinds(dep: &RawNodeDep) -> (r: Result<Vec<DependencyKind>, Error>)
    ensures
        match r {
            Ok(ks) => spec_dependency_kinds(dep.dep_kinds@) == Ok::<Seq<DependencyKind>, Error>(
                ks@,
            ),
            Err(e) => spec_dependency_kinds(dep.dep_kinds@) == Err::<Seq<DependencyKind>, Error>(
                e,
            ),
        },
{
    let n = dep.dep_kinds.len();
    if n == 0 {
        return Err(Error::EmptyDependencyKinds);
    }
    let mut acc: Vec<DependencyKind> = Vec::new();
    let mut i: usize = 0;
    while i < n
        invariant
            n == dep.dep_kinds.len(),
            i <= n,
            kinds_from(dep.dep_kinds@, i as int, acc@) == kinds_from(
                dep.dep_kinds@,
                0,
                Seq::empty(),
            ),
        decreases n - i,
    {
        match dep_kind_of_raw(dep.dep_kinds[i]) {
            None => {
                return Err(Error::UnsupportedDependencyKind);
            },
            Some(k) => {
                if !kinds_contain(&acc, k) {
                    acc.push(k);
                }
            },
        }
        i = i + 1;
    }
    Ok(acc)
}

/// The first package of the list with identifier `id`, if any.
pub open spec fn package_lookup(packages: Seq<RawPackageView>, id: Seq<char>) -> Option<
    RawPackageView,
>
    decreases packages.len(),
{
    if packages.len() == 0 {
        None
    } else if packages[0].id == id {
        Some(packages[0])
    } else {
        package_lookup(packages.drop_first(), id)
    }
}

/// Finds a package record by identifier.
pub fn find_package<'a>(packages: &'a Vec<RawPackage>, id: &PackageId) -> (r: Option<
    &'a RawPackage,
>)
    ensures
        match r {
            Some(p) => package_lookup(packages.deep_view(), id@) == Some(p@),
            None => package_lookup(packages.deep_view(), id@) is None,
        },
{
    let ghost pv = packages.deep_view();
    proof {
        assert(pv.skip(0) =~= pv);
    }
    let n = packages.len();
    let mut i: usize = 0;
    while i < n
        invariant
            n == packages.len(),
            pv == packages.deep_view(),
            i <= n,
            package_lookup(pv, id@) == package_lookup(pv.skip(i as int), id@),
        decreases n - i,
    {
        proof {
            assert(pv.skip(i as int).drop_first() =~= pv.skip(i + 1));
            assert(pv.skip(i as int)[0] == pv[i as int]);
        }
        if str_eq(packages[i].id.repr.as_str(), id.repr.as_str()) {
            return Some(&packages[i]);
        }
        i = i + 1;
    }
    proof {
        assert(pv.skip(n as int) =~= Seq::<RawPackageView>::empty());
    }
    None
}

/// The first node of the resolve section with identifier `id`, if any.
pub open spec fn node_lookup(nodes: Seq<RawNodeView>, id: Seq<char>) -> Option<RawNodeView>
    decreases nodes.len(),
{
    if nodes.len() == 0 {
        None
    } else if nodes[0].id == id {
        Some(nodes[0])
    } else {
        node_lookup(nodes.drop_first(), id)
    }
}

/// Finds a resolve node by identifier.
pub fn find_node<'a>(nodes: &'a Vec<RawNode>, id: &PackageId) -> (r: Option<&'a RawNode>)
    ensures
        match r {
            Some(nd) => node_lookup(nodes.deep_view(), id@) == Some(nd@),
            None => node_lookup(nodes.deep_view(), id@) is None,
        },
{
    let ghost nv = nodes.deep_view();
    proof {
        assert(nv.skip(0) =~= nv);
    }
    let n = nodes.len();
    let mut i: usize = 0;
    while i < n
        invariant
            n == nodes.len(),
            nv == nodes.deep_view(),
            i <= n,
            node_lookup(nv, id@) == node_lookup(nv.skip(i as int), id@),
        decreases n - i,
    {
        proof {
            assert(nv.skip(i as int).drop_first() =~= nv.skip(i + 1));
            assert(nv.skip(i as int)[0] == nv[i as int]);
        }
        if str_eq(nodes[i].id.repr.as_str(), id.repr.as_str()) {
            return Some(&nodes[i]);
        }
        i = i + 1;
    }
    proof {
        assert(nv.skip(n as int) =~= Seq::<RawNodeView>::empty());
    }
    None
}

/// The first edge of a node whose post-rename import name is `name`, if any.
pub open spec fn node_dep_lookup(deps: Seq<RawNodeDepView>, name: Seq<char>) -> Option<
    RawNodeDepView,
>
    decreases deps.len(),
{
    if deps.len() == 0 {
        None
    } else if deps[0].name == name {
        Some(deps[0])
    } else {
        node_dep_lookup(deps.drop_first(), name)
    }
}

/// Finds the resolved edge a post-rename import name denotes within one
/// node's rename map.
pub fn find_node_dep<'a>(krate: &RenamedCrate, metadata_node: &'a RawNode) -> (r: Result<
    &'a RawNodeDep,
    Error,
>)
    ensures
        match r {
            Ok(d) => node_dep_lookup(metadata_node@.deps, krate@) == Some(d@),
            Err(e) => node_dep_lookup(metadata_node@.deps, krate@) is None && e
                == Error::MissingNodeDependency,
        },
{
    let ghost dv = metadata_node@.deps;
    proof {
        assert(dv.skip(0) =~= dv);
    }
    let n = metadata_node.deps.len();
    let mut i: usize = 0;
    while i < n
        invariant
            n == metadata_node.deps.len(),
            dv == metadata_node@.deps,
            i <= n,
            node_dep_lookup(dv, krate@) == node_dep_lookup(dv.skip(i as int), krate@),
        decreases n - i,
    {
        proof {
            assert(dv.skip(i as int).drop_first() =~= dv.skip(i + 1));
            assert(dv.skip(i as int)[0] == dv[i as int]);
        }
        if str_eq(metadata_node.deps[i].name.as_str(), krate.name.as_str()) {
            return Ok(&metadata_node.deps[i]);
        }
        i = i + 1;
    }
    proof {
        assert(dv.skip(n as int) =~= Seq::<RawNodeDepView>::empty());
    }
    Err(Error::MissingNodeDependency)
}

/// The first declared dependency called `name`, if any.
pub open spec fn package_dependency_lookup(deps: Seq<Seq<char>>, name: Seq<char>) -> Option<
    Seq<char>,
>
    decreases deps.len(),
{
    if deps.len() == 0 {
        None
    } else if deps[0] == name {
        Some(deps[0])
    } else {
        package_dependency_lookup(deps.drop_first(), name)
    }
}

/// Finds the declared dependency a declared name denotes within a package's
/// dependency list.
pub fn find_package_dependency<'a>(krate: &UnrenamedCrate, deps: &'a Vec<DependencyDecl>) -> (r:
    Result<&'a DependencyDecl, Error>)
    ensures
        match r {
            Ok(d) => package_dependency_lookup(deps.deep_view(), krate@) == Some(d@),
            Err(e) => package_dependency_lookup(deps.deep_view(), krate@) is None && e
                == Error::MissingPackageDependency,
        },
{
    let ghost dv = deps.deep_view();
    proof {
        assert(dv.skip(0) =~= dv);
    }
    let n = deps.len();
    let mut i: usize = 0;
    while i < n
        invariant
            n == deps.len(),
            dv == deps.deep_view(),
            i <= n,
            package_dependency_lookup(dv, krate@) == package_dependency_lookup(
                dv.skip(i as int),
                krate@,
            ),
        decreases n - i,
    {
        proof {
            assert(dv.skip(i as int).drop_first() =~= dv.skip(i + 1));
            assert(dv.skip(i as int)[0] == dv[i as int]);
        }
        if str_eq(deps[i].name.as_str(), krate.name.as_str()) {
            return Ok(&deps[i]);
        }
        i = i + 1;
    }
    proof {
        assert(dv.skip(n as int) =~= Seq::<Seq<char>>::empty());
    }
    Err(Error::MissingPackageDependency)
}

} // verus!
