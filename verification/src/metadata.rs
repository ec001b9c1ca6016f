//! What the build toolchain reports about a project, and the names derived from it.

use vstd::prelude::*;
use vstd::string::*;
use crate::path::{Path, PathView};

verus! {

/// One build target of a package, tagged with its kinds (`bin`, `lib`, ...).
#[derive(Debug, PartialEq, Eq)]
pub struct Target {
    pub kind: Vec<String>,
}

/// The mathematical value of a [`Target`].
pub struct TargetView {
    pub kind: Seq<Seq<char>>,
}

impl View for Target {
    type V = TargetView;

    open spec fn view(&self) -> TargetView {
        TargetView { kind: self.kind.deep_view() }
    }
}

impl DeepView for Target {
    type V = TargetView;

    open spec fn deep_view(&self) -> TargetView {
        self@
    }
}

impl Clone for Target {
    fn clone(&self) -> (copy: Target)
        ensures
            copy@ == self@,
    {
        let kind = self.kind.clone();
        assert(kind.deep_view() =~= self.kind.deep_view());
        Target { kind }
    }
}

/// A package: its name and its build targets, in the order the toolchain lists them.
#[derive(Debug, PartialEq, Eq)]
pub struct Package {
    pub name: String,
    pub targets: Vec<Target>,
}

/// The mathematical value of a [`Package`].
pub struct PackageView {
    pub name: Seq<char>,
    pub targets: Seq<TargetView>,
}

impl View for Package {
    type V = PackageView;

    open spec fn view(&self) -> PackageView {
        PackageView { name: self.name@, targets: self.targets.deep_view() }
    }
}

impl DeepView for Package {
    type V = PackageView;

    open spec fn deep_view(&self) -> PackageView {
        self@
    }
}

impl Clone for Package {
    fn clone(&self) -> (copy: Package)
        ensures
            copy@ == self@,
    {
        let targets = self.targets.clone();
        assert(targets.deep_view() =~= self.targets.deep_view());
        Package { name: self.name.clone(), targets }
    }
}

/// A snapshot of a project, taken once per run.
#[derive(Debug, PartialEq, Eq)]
pub struct Metadata {
    pub workspace_root: Path,
    pub target_directory: Path,
    pub packages: Vec<Package>,
}

/// The mathematical value of a [`Metadata`].
pub struct MetadataView {
    pub workspace_root: PathView,
    pub target_directory: PathView,
    pub packages: Seq<PackageView>,
}

impl View for Metadata {
    type V = MetadataView;

    open spec fn view(&self) -> MetadataView {
        MetadataView {
            workspace_root: self.workspace_root@,
            target_directory: self.target_directory@,
            packages: self.packages.deep_view(),
        }
    }
}

/// The package this tool works on: always the first one listed.
pub fn get_package(metadata: &Metadata) -> (package: Package)
    requires
        metadata@.packages.len() > 0,
    ensures
        package@ == metadata@.packages[0],
{
    metadata.packages[0].clone()
}

/// The top-level directory of the workspace.
pub fn get_workspace_dir(metadata: &Metadata) -> (dir: Path)
    ensures
        dir@ == metadata@.workspace_root,
{
    metadata.workspace_root.clone()
}

/// The root of the toolchain's output tree.
pub fn target_dir(metadata: &Metadata) -> (dir: Path)
    ensures
        dir@ == metadata@.target_directory,
{
    metadata.target_directory.clone()
}

/// Whether the first kind of the first target of `package` is `bin`.
pub open spec fn leads_with_binary(package: PackageView) -> bool {
    &&& package.targets.len() > 0
    &&& package.targets[0].kind.len() > 0
    &&& package.targets[0].kind[0] == "bin"@
}

/// `name` with every dash turned into an underscore.
pub open spec fn underscored(name: Seq<char>) -> Seq<char> {
    Seq::new(name.len(), |i: int| if name[i] == '-' { '_' } else { name[i] })
}

/// The file name under which the compiler leaves the module built from `package`.
///
/// A binary keeps the package name as it is; anything else is a library, whose
/// file name has underscores where the package name has dashes. A package
/// without a target, or whose first target has no kind, counts as a library.
pub open spec fn binary_name(package: PackageView) -> Seq<char> {
    if leads_with_binary(package) {
        package.name + ".wasm"@
    } else {
        underscored(package.name) + ".wasm"@
    }
}

/// Replaces the dashes of `name` by underscores.
fn replace_dashes(name: &str) -> (out: String)
    ensures
        out@ == underscored(name@),
{
    let n: usize = name.unicode_len();
    let mut out = String::new();
    let mut i: usize = 0;
    while i < n
        invariant
            i <= n,
            n == name@.len(),
            out@ == underscored(name@).take(i as int),
        decreases n - i,
    {
        let c: char = name.get_char(i);
        if c == '-' {
            proof {
                reveal_strlit("_");
            }
            out.append("_");
            assert(out@ =~= underscored(name@).take(i + 1));
        } else {
            out.append(name.substring_char(i, i + 1));
            assert(out@ =~= underscored(name@).take(i + 1));
        }
        i += 1;
    }
    assert(out@ =~= underscored(name@));
    out
}

/// Whether the first kind of the first target of `package` is `bin`.
fn is_binary(package: &Package) -> (binary: bool)
    ensures
        binary == leads_with_binary(package@),
{
    if package.targets.len() == 0 {
        return false;
    }
    let target = &package.targets[0];
    if target.kind.len() == 0 {
        return false;
    }
    let bin = String::from_str("bin");
    target.kind[0] == bin
}

/// Derives the name of the compiled module from the package.
pub fn get_binary_name(pkg: &Package) -> (name: String)
    ensures
        name@ == binary_name(pkg@),
{
    let stem = if is_binary(pkg) {
        pkg.name.clone()
    } else {
        replace_dashes(pkg.name.as_str())
    };
    stem.concat(".wasm")
}

} // verus!
