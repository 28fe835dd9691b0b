//! The data model: package identifiers, dependency and artifact kinds, the
//! raw package graph handed in by the caller, and the derived facts the audit
//! produces. Every type carries a mathematical view over sequences of
//! characters so that contracts can speak about contents, not allocations.

use vstd::prelude::*;
use crate::DependencyKind;
use crate::text::str_eq;

verus! {

/// Everything that can go wrong while auditing. Fatal conditions abort a
/// whole pass with no partial results.
#[derive(Clone, Copy, Debug, PartialEq, Eq, Structural)]
pub enum Error {
    /// An artifact kind string the build tool is not known to emit.
    UnsupportedArtifactKind,
    /// One artifact declared under two different kinds.
    MismatchedArtifactKinds,
    /// An artifact declared with no kind at all.
    MissingArtifactKind,
    /// A library or build-script artifact where an orphan candidate was expected.
    UnexpectedOrphanArtifactKind,
    /// More than one `release:` line in the build tool's version report.
    MultipleCargoVersions,
    /// No `release:` line in the build tool's version report.
    MissingCargoVersion,
    /// The `release:` line does not hold a well-formed version.
    UnparseableCargoVersion,
    /// The raw package graph came without a resolve section.
    MissingResolve,
    /// Two resolved edges of one node share their post-rename import name.
    DuplicateRenamedDependency,
    /// Two nodes of the resolve section share a package identifier.
    DuplicateNode,
    /// Two packages share a package identifier.
    DuplicatePackage,
    /// One package listed twice as a workspace member.
    DuplicateWorkspaceMember,
    /// One package listed twice as a default workspace member.
    DuplicateDefaultWorkspaceMember,
    /// A default workspace member that is not a workspace member at all.
    DefaultMembersNotSubset,
    /// Two packages publish the same normalized link key.
    DuplicateLinkKey,
    /// A resolved edge declared under a dependency kind this audit cannot place.
    UnsupportedDependencyKind,
    /// A resolved edge with an empty kind set.
    EmptyDependencyKinds,
    /// A post-rename import name with no edge in the dependant's rename map.
    MissingNodeDependency,
    /// A dependency name missing from the dependant's declared dependencies.
    MissingPackageDependency,
    /// A diagnostic whose text does not follow the fixed unused-dependency format.
    UnparseableDiagnostic,
    /// A diagnostic for a workspace member whose package record is missing.
    UnknownPackage,
    /// A plain text line where a structured build event was expected.
    UnexpectedTextLine,
    /// A diagnostic for one target while another target was still in progress.
    DiagnosticTargetMismatch,
    /// An artifact finished for one target while another target was in progress.
    ArtifactTargetMismatch,
    /// The event stream ended, or left the diagnostic phase, with staged
    /// candidates that no artifact ever flushed.
    DanglingDiagnostics,
    /// One candidate staged twice for the same package, dependency and kind.
    DuplicateUnusedDependency,
    /// An artifact's source path does not lie under its package's directory.
    ArtifactPathOutsidePackage,
}

/// Opaque stable identifier of one package, unique within one invocation's
/// graph snapshot.
#[derive(Clone, Debug, PartialEq, Eq, Hash)]
pub struct PackageId {
    pub repr: String,
}

impl View for PackageId {
    type V = Seq<char>;

    open spec fn view(&self) -> Seq<char> {
        self.repr@
    }
}

impl DeepView for PackageId {
    type V = Seq<char>;

    open spec fn deep_view(&self) -> Seq<char> {
        self.repr@
    }
}

impl PackageId {
    /// An equal copy.
    pub fn dup(&self) -> (r: PackageId)
        ensures
            r == *self,
    {
        PackageId { repr: self.repr.clone() }
    }
}

/// Equality of package identifiers, by contents.
pub fn package_id_eq(a: &PackageId, b: &PackageId) -> (r: bool)
    ensures
        r == (a@ == b@),
{
    str_eq(a.repr.as_str(), b.repr.as_str())
}

/// The kind of one compiled unit. Fine-grained library variants collapse to
/// `Library`, intentionally losing the distinction.
#[derive(Clone, Copy, Debug, Hash, PartialEq, Eq, Structural)]
pub enum ArtifactKind {
    Bench,
    Binary,
    BuildScript,
    Example,
    Library,
    Test,
}

/// The kind of a non-library artifact that never referenced its own package's
/// library.
#[derive(Clone, Copy, Debug, Hash, PartialEq, Eq, Structural)]
pub enum OrphanArtifactKind {
    Bench,
    Binary,
    Example,
    Test,
}

impl OrphanArtifactKind {
    /// Which orphan kind an artifact kind maps to; libraries and build
    /// scripts cannot be orphans.
    pub open spec fn spec_of_artifact_kind(value: ArtifactKind) -> Result<OrphanArtifactKind, Error> {
        match value {
            ArtifactKind::Bench => Ok(OrphanArtifactKind::Bench),
            ArtifactKind::Binary => Ok(OrphanArtifactKind::Binary),
            ArtifactKind::Example => Ok(OrphanArtifactKind::Example),
            ArtifactKind::Test => Ok(OrphanArtifactKind::Test),
            _ => Err(Error::UnexpectedOrphanArtifactKind),
        }
    }

    /// Converts an artifact kind into an orphan kind, rejecting libraries and
    /// build scripts.
    pub fn of_artifact_kind(value: ArtifactKind) -> (r: Result<OrphanArtifactKind, Error>)
        ensures
            r == Self::spec_of_artifact_kind(value),
    {
        match value {
            ArtifactKind::Bench => Ok(OrphanArtifactKind::Bench),
            ArtifactKind::Binary => Ok(OrphanArtifactKind::Binary),
            ArtifactKind::Example => Ok(OrphanArtifactKind::Example),
            ArtifactKind::Test => Ok(OrphanArtifactKind::Test),
            _ => Err(Error::UnexpectedOrphanArtifactKind),
        }
    }
}

/// One artifact as a package declares it: its kind strings, its name, and its
/// source path. The same shape identifies the target of a build event.
#[derive(Clone, Debug, PartialEq, Eq)]
pub struct TargetRecord {
    pub kinds: Vec<String>,
    pub name: String,
    pub src_path: String,
}

/// Mathematical contents of a `TargetRecord`.
#[verifier::ext_equal]
pub ghost struct TargetRecordView {
    pub kinds: Seq<Seq<char>>,
    pub name: Seq<char>,
    pub src_path: Seq<char>,
}

impl View for TargetRecord {
    type V = TargetRecordView;

    open spec fn view(&self) -> TargetRecordView {
        TargetRecordView {
            kinds: self.kinds.deep_view(),
            name: self.name@,
            src_path: self.src_path@,
        }
    }
}

impl DeepView for TargetRecord {
    type V = TargetRecordView;

    open spec fn deep_view(&self) -> TargetRecordView {
        self.view()
    }
}

/// Equality of target records, by contents.
pub fn target_record_eq(a: &TargetRecord, b: &TargetRecord) -> (r: bool)
    ensures
        r == (a@ == b@),
{
    if !str_eq(a.name.as_str(), b.name.as_str()) {
        return false;
    }
    if !str_eq(a.src_path.as_str(), b.src_path.as_str()) {
        return false;
    }
    if a.kinds.len() != b.kinds.len() {
        assert(a@.kinds.len() != b@.kinds.len());
        return false;
    }
    let n = a.kinds.len();
    let mut i: usize = 0;
    while i < n
        invariant
            n == a.kinds.len(),
            n == b.kinds.len(),
            i <= n,
            a@.name == b@.name,
            a@.src_path == b@.src_path,
            forall|j: int| 0 <= j < i ==> a.kinds.deep_view()[j] == b.kinds.deep_view()[j],
        decreases n - i,
    {
        if !str_eq(a.kinds[i].as_str(), b.kinds[i].as_str()) {
            assert(a.kinds.deep_view()[i as int] != b.kinds.deep_view()[i as int]);
            return false;
        }
        i = i + 1;
    }
    proof {
        assert(a.kinds.deep_view() =~= b.kinds.deep_view());
        assert(a@ =~= b@);
    }
    true
}

/// One realized artifact: which package produced it, which declared target it
/// came from, and whether it was compiled under a test profile.
#[derive(Clone, Debug, PartialEq, Eq)]
pub struct ArtifactRecord {
    pub package_id: PackageId,
    pub target: TargetRecord,
    pub profile_test: bool,
}

/// Mathematical contents of an `ArtifactRecord`.
#[verifier::ext_equal]
pub ghost struct ArtifactRecordView {
    pub package_id: Seq<char>,
    pub target: TargetRecordView,
    pub profile_test: bool,
}

impl View for ArtifactRecord {
    type V = ArtifactRecordView;

    open spec fn view(&self) -> ArtifactRecordView {
        ArtifactRecordView {
            package_id: self.package_id@,
            target: self.target@,
            profile_test: self.profile_test,
        }
    }
}

impl DeepView for ArtifactRecord {
    type V = ArtifactRecordView;

    open spec fn deep_view(&self) -> ArtifactRecordView {
        self.view()
    }
}

impl TargetRecord {
    /// An equal copy.
    pub fn dup(&self) -> (r: TargetRecord)
        ensures
            r@ == self@,
    {
        let n = self.kinds.len();
        let mut kinds: Vec<String> = Vec::new();
        let mut i: usize = 0;
        while i < n
            invariant
                n == self.kinds.len(),
                i <= n,
                kinds.deep_view() =~= self.kinds.deep_view().take(i as int),
            decreases n - i,
        {
            let ghost before = kinds.deep_view();
            kinds.push(self.kinds[i].clone());
            proof {
                assert(before.len() == i as int);
                assert(kinds.deep_view() =~= before.push(self.kinds.deep_view()[i as int]));
                assert(kinds.deep_view() =~= self.kinds.deep_view().take(i + 1));
            }
            i = i + 1;
        }
        proof {
            assert(self.kinds.deep_view().take(n as int) =~= self.kinds.deep_view());
        }
        let r = TargetRecord { kinds, name: self.name.clone(), src_path: self.src_path.clone() };
        proof {
            assert(r@ =~= self@);
        }
        r
    }
}

impl ArtifactRecord {
    /// An equal copy.
    pub fn dup(&self) -> (r: ArtifactRecord)
        ensures
            r@ == self@,
    {
        let r = ArtifactRecord {
            package_id: self.package_id.dup(),
            target: self.target.dup(),
            profile_test: self.profile_test,
        };
        proof {
            assert(r@ =~= self@);
        }
        r
    }
}

/// Equality of artifact records, by contents.
pub fn artifact_record_eq(a: &ArtifactRecord, b: &ArtifactRecord) -> (r: bool)
    ensures
        r == (a@ == b@),
{
    let r = package_id_eq(&a.package_id, &b.package_id) && target_record_eq(&a.target, &b.target)
        && a.profile_test == b.profile_test;
    proof {
        if r {
            assert(a@ =~= b@);
        }
    }
    r
}

/// One declared dependency of a package: the name under which the manifest
/// declares it.
#[derive(Clone, Debug, PartialEq, Eq)]
pub struct DependencyDecl {
    pub name: String,
}

impl View for DependencyDecl {
    type V = Seq<char>;

    open spec fn view(&self) -> Seq<char> {
        self.name@
    }
}

impl DeepView for DependencyDecl {
    type V = Seq<char>;

    open spec fn deep_view(&self) -> Seq<char> {
        self.name@
    }
}

/// A dependency kind as the raw graph reports it; kinds this audit cannot
/// place stay `Unknown` and are rejected later.
#[derive(Clone, Copy, Debug, Hash, PartialEq, Eq, Structural)]
pub enum RawDependencyKind {
    Normal,
    Development,
    Build,
    Unknown,
}

/// One resolved edge out of a node: the post-rename import name, the
/// dependency it reaches, and every kind under which it was declared.
#[derive(Clone, Debug, PartialEq, Eq)]
pub struct RawNodeDep {
    pub name: String,
    pub pkg: PackageId,
    pub dep_kinds: Vec<RawDependencyKind>,
}

/// Mathematical contents of a `RawNodeDep`.
#[verifier::ext_equal]
pub ghost struct RawNodeDepView {
    pub name: Seq<char>,
    pub pkg: Seq<char>,
    pub dep_kinds: Seq<RawDependencyKind>,
}

impl View for RawNodeDep {
    type V = RawNodeDepView;

    open spec fn view(&self) -> RawNodeDepView {
        RawNodeDepView { name: self.name@, pkg: self.pkg@, dep_kinds: self.dep_kinds@ }
    }
}

impl DeepView for RawNodeDep {
    type V = RawNodeDepView;

    open spec fn deep_view(&self) -> RawNodeDepView {
        self.view()
    }
}

/// One node of the resolve section: a package and its resolved edges.
#[derive(Clone, Debug, PartialEq, Eq)]
pub struct RawNode {
    pub id: PackageId,
    pub deps: Vec<RawNodeDep>,
}

/// Mathematical contents of a `RawNode`.
#[verifier::ext_equal]
pub ghost struct RawNodeView {
    pub id: Seq<char>,
    pub deps: Seq<RawNodeDepView>,
}

impl View for RawNode {
    type V = RawNodeView;

    open spec fn view(&self) -> RawNodeView {
        RawNodeView { id: self.id@, deps: self.deps.deep_view() }
    }
}

impl DeepView for RawNode {
    type V = RawNodeView;

    open spec fn deep_view(&self) -> RawNodeView {
        self.view()
    }
}

/// One package of the raw graph: identity, name, manifest location, optional
/// published link key, declared dependencies and declared artifacts.
#[derive(Clone, Debug, PartialEq, Eq)]
pub struct RawPackage {
    pub id: PackageId,
    pub name: String,
    pub manifest_path: String,
    pub links: Option<String>,
    pub dependencies: Vec<DependencyDecl>,
    pub targets: Vec<TargetRecord>,
}

/// Mathematical contents of a `RawPackage`.
#[verifier::ext_equal]
pub ghost struct RawPackageView {
    pub id: Seq<char>,
    pub name: Seq<char>,
    pub manifest_path: Seq<char>,
    pub links: Option<Seq<char>>,
    pub dependencies: Seq<Seq<char>>,
    pub targets: Seq<TargetRecordView>,
}

impl View for RawPackage {
    type V = RawPackageView;

    open spec fn view(&self) -> RawPackageView {
        RawPackageView {
            id: self.id@,
            name: self.name@,
            manifest_path: self.manifest_path@,
            links: match self.links {
                Some(l) => Some(l@),
                None => None,
            },
            dependencies: self.dependencies.deep_view(),
            targets: self.targets.deep_view(),
        }
    }
}

impl DeepView for RawPackage {
    type V = RawPackageView;

    open spec fn deep_view(&self) -> RawPackageView {
        self.view()
    }
}

/// The raw package graph as the caller hands it in: packages, the resolve
/// section if the graph query produced one, and the workspace membership
/// sets.
#[derive(Clone, Debug, PartialEq, Eq)]
pub struct RawMetadata {
    pub packages: Vec<RawPackage>,
    pub resolve: Option<Vec<RawNode>>,
    pub workspace_members: Vec<PackageId>,
    pub workspace_default_members: Vec<PackageId>,
}

/// Mathematical contents of a `RawMetadata`.
#[verifier::ext_equal]
pub ghost struct RawMetadataView {
    pub packages: Seq<RawPackageView>,
    pub resolve: Option<Seq<RawNodeView>>,
    pub workspace_members: Seq<Seq<char>>,
    pub workspace_default_members: Seq<Seq<char>>,
}

impl View for RawMetadata {
    type V = RawMetadataView;

    open spec fn view(&self) -> RawMetadataView {
        RawMetadataView {
            packages: self.packages.deep_view(),
            resolve: match self.resolve {
                Some(ref nodes) => Some(nodes.deep_view()),
                None => None,
            },
            workspace_members: self.workspace_members.deep_view(),
            workspace_default_members: self.workspace_default_members.deep_view(),
        }
    }
}

/// One dependency that appears removable: who declares it, what it reaches,
/// under which single kind, plus what the manifest calls it and where that
/// manifest lies.
#[derive(Clone, Debug, PartialEq, Eq)]
pub struct UnusedDependency {
    pub dependant: PackageId,
    pub dependency: PackageId,
    pub dep_kind: DependencyKind,
    pub dependency_name: String,
    pub dependant_manifest_path: String,
}

/// Mathematical contents of an `UnusedDependency`.
#[verifier::ext_equal]
pub ghost struct UnusedDependencyView {
    pub dependant: Seq<char>,
    pub dependency: Seq<char>,
    pub dep_kind: DependencyKind,
    pub dependency_name: Seq<char>,
    pub dependant_manifest_path: Seq<char>,
}

impl View for UnusedDependency {
    type V = UnusedDependencyView;

    open spec fn view(&self) -> UnusedDependencyView {
        UnusedDependencyView {
            dependant: self.dependant@,
            dependency: self.dependency@,
            dep_kind: self.dep_kind,
            dependency_name: self.dependency_name@,
            dependant_manifest_path: self.dependant_manifest_path@,
        }
    }
}

impl DeepView for UnusedDependency {
    type V = UnusedDependencyView;

    open spec fn deep_view(&self) -> UnusedDependencyView {
        self.view()
    }
}

impl UnusedDependency {
    /// An equal copy.
    pub fn dup(&self) -> (r: UnusedDependency)
        ensures
            r@ == self@,
    {
        let r = UnusedDependency {
            dependant: self.dependant.dup(),
            dependency: self.dependency.dup(),
            dep_kind: self.dep_kind,
            dependency_name: self.dependency_name.clone(),
            dependant_manifest_path: self.dependant_manifest_path.clone(),
        };
        proof {
            assert(r@ =~= self@);
        }
        r
    }
}

/// Equality of unused-dependency facts, by contents.
pub fn unused_dependency_eq(a: &UnusedDependency, b: &UnusedDependency) -> (r: bool)
    ensures
        r == (a@ == b@),
{
    let r = package_id_eq(&a.dependant, &b.dependant) && package_id_eq(
        &a.dependency,
        &b.dependency,
    ) && a.dep_kind == b.dep_kind && str_eq(a.dependency_name.as_str(), b.dependency_name.as_str())
        && str_eq(a.dependant_manifest_path.as_str(), b.dependant_manifest_path.as_str());
    proof {
        if r {
            assert(a@ =~= b@);
        }
    }
    r
}

/// One non-library artifact that never referenced its own package's library.
#[derive(Clone, Debug, PartialEq, Eq)]
pub struct OrphanArtifact {
    pub crate_id: PackageId,
    pub kind: OrphanArtifactKind,
    pub artifact_name: String,
    pub crate_relative_path: String,
}

/// Mathematical contents of an `OrphanArtifact`.
#[verifier::ext_equal]
pub ghost struct OrphanArtifactView {
    pub crate_id: Seq<char>,
    pub kind: OrphanArtifactKind,
    pub artifact_name: Seq<char>,
    pub crate_relative_path: Seq<char>,
}

impl View for OrphanArtifact {
    type V = OrphanArtifactView;

    open spec fn view(&self) -> OrphanArtifactView {
        OrphanArtifactView {
            crate_id: self.crate_id@,
            kind: self.kind,
            artifact_name: self.artifact_name@,
            crate_relative_path: self.crate_relative_path@,
        }
    }
}

impl DeepView for OrphanArtifact {
    type V = OrphanArtifactView;

    open spec fn deep_view(&self) -> OrphanArtifactView {
        self.view()
    }
}

/// Equality of orphan-artifact facts, by contents.
pub fn orphan_artifact_eq(a: &OrphanArtifact, b: &OrphanArtifact) -> (r: bool)
    ensures
        r == (a@ == b@),
{
    let r = package_id_eq(&a.crate_id, &b.crate_id) && a.kind == b.kind && str_eq(
        a.artifact_name.as_str(),
        b.artifact_name.as_str(),
    ) && str_eq(a.crate_relative_path.as_str(), b.crate_relative_path.as_str());
    proof {
        if r {
            assert(a@ =~= b@);
        }
    }
    r
}

/// One observed consumption of a published link key: the dependant's build
/// step read an environment variable the dependency published.
#[derive(Clone, Debug, PartialEq, Eq)]
pub struct LinkDependency {
    pub dependant: PackageId,
    pub dependency: PackageId,
}

/// Mathematical contents of a `LinkDependency`.
#[verifier::ext_equal]
pub ghost struct LinkDependencyView {
    pub dependant: Seq<char>,
    pub dependency: Seq<char>,
}

impl View for LinkDependency {
    type V = LinkDependencyView;

    open spec fn view(&self) -> LinkDependencyView {
        LinkDependencyView { dependant: self.dependant@, dependency: self.dependency@ }
    }
}

impl DeepView for LinkDependency {
    type V = LinkDependencyView;

    open spec fn deep_view(&self) -> LinkDependencyView {
        self.view()
    }
}

/// What one whole audit produces: the confirmed unused dependencies and the
/// orphaned artifacts.
#[derive(Clone, Debug, PartialEq, Eq)]
pub struct DependencyLintResults {
    pub unused_dependencies: Vec<UnusedDependency>,
    pub orphans: Vec<OrphanArtifact>,
}

/// Mathematical contents of a `DependencyLintResults`.
#[verifier::ext_equal]
pub ghost struct DependencyLintResultsView {
    pub unused_dependencies: Seq<UnusedDependencyView>,
    pub orphans: Seq<OrphanArtifactView>,
}

impl View for DependencyLintResults {
    type V = DependencyLintResultsView;

    open spec fn view(&self) -> DependencyLintResultsView {
        DependencyLintResultsView {
            unused_dependencies: self.unused_dependencies.deep_view(),
            orphans: self.orphans.deep_view(),
        }
    }
}

} // verus!
