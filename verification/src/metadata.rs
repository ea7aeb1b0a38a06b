//! Discovery of the binaries that a project declares, from the project
//! metadata that the build tool reports.

use vstd::prelude::*;

verus! {

/// The metadata of a workspace, as `cargo_metadata` parsed it. Opaque here.
#[verifier::external_type_specification]
#[verifier::external_body]
pub struct ExMetadata(cargo_metadata::Metadata);

/// One package of a workspace, as `cargo_metadata` parsed it. Opaque here.
#[verifier::external_type_specification]
#[verifier::external_body]
pub struct ExPackage(cargo_metadata::Package);

/// What a target is built as.
#[derive(Debug, Clone, Copy, PartialEq, Eq, Structural)]
pub enum TargetKind {
    Bench,
    Bin,
    CustomBuild,
    CDyLib,
    DyLib,
    Example,
    Lib,
    ProcMacro,
    RLib,
    StaticLib,
    Test,
    /// A kind that has no name here.
    Unknown,
}

/// A target of a package, reduced to what discovery reads: its name and its
/// kinds.
#[derive(Debug, Clone, PartialEq, Eq)]
pub struct BuildTarget {
    pub name: String,
    pub kinds: Vec<TargetKind>,
}

/// The mathematical content of [`BuildTarget`].
pub struct BuildTargetView {
    pub name: Seq<char>,
    pub kinds: Seq<TargetKind>,
}

impl View for BuildTarget {
    type V = BuildTargetView;

    open spec fn view(&self) -> BuildTargetView {
        BuildTargetView { name: self.name@, kinds: self.kinds@ }
    }
}

impl DeepView for BuildTarget {
    type V = BuildTargetView;

    open spec fn deep_view(&self) -> BuildTargetView {
        self@
    }
}

/// Why no binaries could be discovered.
#[derive(Debug, Clone, Copy, PartialEq, Eq, Structural)]
pub enum DetectError {
    /// The metadata names no root package: the working directory is not
    /// inside a package.
    NoRootPackage,
}

/// The root package that `Metadata::root_package` finds in `metadata`.
pub uninterp spec fn root_package_of(metadata: cargo_metadata::Metadata) -> Option<
    cargo_metadata::Package,
>;

/// What the field `targets` of `package` holds: of each target, in their
/// order, the name and the kinds.
pub uninterp spec fn package_view(package: cargo_metadata::Package) -> Seq<BuildTargetView>;

/// Calls `cargo_metadata::Metadata::root_package`. It is a function of the
/// metadata alone: the package that the dependency graph names as its root
/// or, without a graph, the package whose manifest lies at the workspace
/// root; nothing where there is no such package.
#[verifier::external_body]
fn root_package(metadata: &cargo_metadata::Metadata) -> (r: Option<&cargo_metadata::Package>)
    ensures
        match r {
            Some(p) => root_package_of(*metadata) == Some(*p),
            None => root_package_of(*metadata) is None,
        },
{
    metadata.root_package()
}

/// The length of the field `targets` of a `cargo_metadata::Package`.
#[verifier::external_body]
fn target_count(package: &cargo_metadata::Package) -> (r: usize)
    ensures
        r == package_view(*package).len(),
{
    package.targets.len()
}

/// Copies the field `name` of the target at `index` of a
/// `cargo_metadata::Package`.
#[verifier::external_body]
fn target_name(package: &cargo_metadata::Package, index: usize) -> (r: String)
    requires
        index < package_view(*package).len(),
    ensures
        r@ == package_view(*package)[index as int].name,
{
    package.targets[index].name.clone()
}

/// The length of the field `kind` of the target at `index` of a
/// `cargo_metadata::Package`.
#[verifier::external_body]
fn kind_count(package: &cargo_metadata::Package, index: usize) -> (r: usize)
    requires
        index < package_view(*package).len(),
    ensures
        r == package_view(*package)[index as int].kinds.len(),
{
    package.targets[index].kind.len()
}

/// The entry at `position` of the field `kind` of the target at `index` of a
/// `cargo_metadata::Package`, variant for variant; a variant that has no
/// counterpart here is `Unknown`.
#[verifier::external_body]
fn kind_at(package: &cargo_metadata::Package, index: usize, position: usize) -> (r: TargetKind)
    requires
        index < package_view(*package).len(),
        position < package_view(*package)[index as int].kinds.len(),
    ensures
        r == package_view(*package)[index as int].kinds[position as int],
{
    match &package.targets[index].kind[position] {
        cargo_metadata::TargetKind::Bench => TargetKind::Bench,
        cargo_metadata::TargetKind::Bin => TargetKind::Bin,
        cargo_metadata::TargetKind::CustomBuild => TargetKind::CustomBuild,
        cargo_metadata::TargetKind::CDyLib => TargetKind::CDyLib,
        cargo_metadata::TargetKind::DyLib => TargetKind::DyLib,
        cargo_metadata::TargetKind::Example => TargetKind::Example,
        cargo_metadata::TargetKind::Lib => TargetKind::Lib,
        cargo_metadata::TargetKind::ProcMacro => TargetKind::ProcMacro,
        cargo_metadata::TargetKind::RLib => TargetKind::RLib,
        cargo_metadata::TargetKind::StaticLib => TargetKind::StaticLib,
        cargo_metadata::TargetKind::Test => TargetKind::Test,
        _ => TargetKind::Unknown,
    }
}

/// A target is a binary when one of its kinds is `Bin`.
pub open spec fn is_binary(target: BuildTargetView) -> bool {
    target.kinds.contains(TargetKind::Bin)
}

/// The names of the binaries among `targets`, in the order of the targets.
pub open spec fn binary_names(targets: Seq<BuildTargetView>) -> Seq<Seq<char>> {
    targets.filter_map(
        |t: BuildTargetView|
            if is_binary(t) {
                Some(t.name)
            } else {
                None
            },
    )
}

/// Whether one of the kinds of `target` is `Bin`.
pub fn is_binary_target(target: &BuildTarget) -> (r: bool)
    ensures
        r == is_binary(target@),
{
    let mut i: usize = 0;
    while i < target.kinds.len()
        invariant
            i <= target.kinds.len(),
            forall|j: int| 0 <= j < i ==> target.kinds@[j] != TargetKind::Bin,
        decreases target.kinds.len() - i,
    {
        if target.kinds[i] == TargetKind::Bin {
            return true;
        }
        i = i + 1;
    }
    false
}

/// The names of the binaries among `targets`, in the order of the targets.
pub fn binary_target_names(targets: &Vec<BuildTarget>) -> (r: Vec<String>)
    ensures
        r.deep_view() == binary_names(targets.deep_view()),
{
    let mut names: Vec<String> = Vec::new();
    let mut i: usize = 0;
    assert(targets.deep_view().take(0) =~= Seq::<BuildTargetView>::empty());
    while i < targets.len()
        invariant
            i <= targets.len(),
            names.deep_view() == binary_names(targets.deep_view().take(i as int)),
        decreases targets.len() - i,
    {
        let ghost before = names.deep_view();
        let ghost seen = targets.deep_view().take(i as int + 1);
        assert(seen.drop_last() =~= targets.deep_view().take(i as int));
        assert(seen.last() == targets@[i as int]@);
        if is_binary_target(&targets[i]) {
            names.push(targets[i].name.clone());
            assert(names.deep_view() =~= before + seq![targets@[i as int]@.name]);
        }
        i = i + 1;
    }
    assert(targets.deep_view().take(i as int) =~= targets.deep_view());
    names
}

/// Copies out of `package` what discovery reads of each of its targets.
pub fn read_targets(package: &cargo_metadata::Package) -> (r: Vec<BuildTarget>)
    ensures
        r.deep_view() == package_view(*package),
{
    let count = target_count(package);
    let mut targets: Vec<BuildTarget> = Vec::new();
    let mut i: usize = 0;
    while i < count
        invariant
            i <= count,
            count == package_view(*package).len(),
            targets.len() == i,
            forall|j: int| 0 <= j < i ==> (#[trigger] targets@[j])@ == package_view(*package)[j],
        decreases count - i,
    {
        let kind_total = kind_count(package, i);
        let mut kinds: Vec<TargetKind> = Vec::new();
        let mut k: usize = 0;
        while k < kind_total
            invariant
                k <= kind_total,
                i < package_view(*package).len(),
                kind_total == package_view(*package)[i as int].kinds.len(),
                kinds.len() == k,
                forall|j: int|
                    0 <= j < k ==> kinds@[j] == package_view(*package)[i as int].kinds[j],
            decreases kind_total - k,
        {
            kinds.push(kind_at(package, i, k));
            k = k + 1;
        }
        assert(kinds@ =~= package_view(*package)[i as int].kinds);
        targets.push(BuildTarget { name: target_name(package, i), kinds });
        i = i + 1;
    }
    assert(targets.deep_view() =~= package_view(*package));
    targets
}

/// The names of the binaries that the root package of `metadata` declares,
/// in the order of its targets; an error where there is no root package.
pub fn detect_cargo_binaries(metadata: &cargo_metadata::Metadata) -> (r: Result<
    Vec<String>,
    DetectError,
>)
    ensures
        match root_package_of(*metadata) {
            Some(package) => r matches Ok(names) && names.deep_view() == binary_names(
                package_view(package),
            ),
            None => r == Err::<Vec<String>, DetectError>(DetectError::NoRootPackage),
        },
{
    match root_package(metadata) {
        Some(package) => {
            let targets = read_targets(package);
            Ok(binary_target_names(&targets))
        },
        None => Err(DetectError::NoRootPackage),
    }
}

} // verus!
