//! The web harness around the compiled module: where the module is expected,
//! which files are laid out beside it, and how its bindings are generated.
//!
//! Files that are already there belong to the user and are left alone.

use vstd::prelude::*;
use vstd::string::*;
use crate::disk::{lemma_after_both, lemma_after_one, Disk};
use crate::effect::{schedule, text, Arg, ArgView, Command, CommandView, Effect, EffectView};
use crate::failure::{Failure, FailureView};
use crate::metadata::{
    binary_name, get_binary_name, get_workspace_dir, target_dir, Metadata, MetadataView,
    Package, PackageView,
};
use crate::path::{contains, Path, PathView};

verus! {

/// The page that loads the script.
pub const INDEX_HTML: &'static str =
    "\n<html>\n  <head>\n    <meta content=\"text/html;charset=utf-8\" http-equiv=\"Content-Type\"/>\n  </head>\n  <body>\n    <script src='./index.js'></script>\n  </body>\n</html>\n    ";

/// The package descriptor: a `serve` script and the pinned development tools.
pub const PACKAGE_JSON: &'static str =
    "\n{\n  \"scripts\": {\n    \"serve\": \"webpack-dev-server\"\n  },\n  \"devDependencies\": {\n    \"webpack\": \"^4.0.1\",\n    \"webpack-cli\": \"^2.0.10\",\n    \"webpack-dev-server\": \"^3.1.0\"\n  }\n}\n    ";

/// The bundler configuration: `index.js` goes in, `dist/` comes out.
pub const WEBPACK_CONFIG: &'static str =
    "\nconst path = require('path');\n\nmodule.exports = {\n  entry: \"./index.js\",\n  output: {\n    path: path.resolve(__dirname, \"dist\"),\n    filename: \"index.js\",\n  },\n  mode: \"development\"\n};\n    ";

/// What the loader script says before the name of the module.
pub const LOADER_HEAD: &'static str = "\nlet wasm = import('./";

/// What the loader script says after the name of the module.
pub const LOADER_TAIL: &'static str = "');\nwasm.then(m => m.main && m.main());    \n    ";

/// The part of `binary` before its first dot: the name under which the script
/// imports the module.
pub open spec fn module_name(binary: Seq<char>) -> Seq<char> {
    match binary.index_of_first('.') {
        Some(dot) => binary.take(dot),
        None => binary,
    }
}

/// The script that imports the module and calls its `main`, if it has one.
pub open spec fn loader(binary: Seq<char>) -> Seq<char> {
    LOADER_HEAD@ + module_name(binary) + LOADER_TAIL@
}

/// The directory of the harness, directly under the workspace root.
pub open spec fn static_dir(metadata: MetadataView) -> PathView {
    metadata.workspace_root.join("static"@)
}

/// Where the compiler leaves the module built from `package`.
pub open spec fn artifact_location(metadata: MetadataView, package: PackageView) -> PathView {
    metadata.target_directory.join("wasm32-unknown-unknown"@).join("release"@).join(
        binary_name(package),
    )
}

/// Making `dir`, unless it is among `present`.
pub open spec fn directory_effects(dir: PathView, present: Seq<PathView>) -> Seq<EffectView> {
    if present.contains(dir) {
        Seq::empty()
    } else {
        seq![EffectView::CreateDir(dir)]
    }
}

/// Writing `content` to `name` in `dir`, unless that file is among `present`.
pub open spec fn asset_effects(
    dir: PathView,
    name: Seq<char>,
    content: Seq<char>,
    present: Seq<PathView>,
) -> Seq<EffectView> {
    if present.contains(dir.join(name)) {
        Seq::empty()
    } else {
        seq![EffectView::WriteFile(dir.join(name), content)]
    }
}

/// Laying out the harness in `out` for the module `binary`: the directory, then
/// the page, the loader, the package descriptor and the bundler configuration,
/// each only if it is not among `present`.
pub open spec fn scaffold(out: PathView, binary: Seq<char>, present: Seq<PathView>) -> Seq<
    EffectView,
> {
    directory_effects(out, present) + asset_effects(out, "index.html"@, INDEX_HTML@, present)
        + asset_effects(out, "index.js"@, loader(binary), present) + asset_effects(
        out,
        "package.json"@,
        PACKAGE_JSON@,
        present,
    ) + asset_effects(out, "webpack.config.js"@, WEBPACK_CONFIG@, present)
}

/// The binding generator, run on `artifact` with `out` as its output directory.
pub open spec fn bindgen_command(artifact: PathView, out: PathView) -> CommandView {
    CommandView {
        program: "wasm-bindgen"@,
        args: seq![
            ArgView::Location(artifact),
            ArgView::Text("--out-dir"@),
            ArgView::Location(out),
        ],
        current_dir: None,
    }
}

/// What is to be done once the compiler has succeeded: nothing but to report
/// the missing module if it is not among `present`; else the harness is laid
/// out and the bindings are generated into it.
pub open spec fn generate_plan(
    metadata: MetadataView,
    package: PackageView,
    present: Seq<PathView>,
) -> Result<Seq<EffectView>, FailureView> {
    let artifact = artifact_location(metadata, package);
    let out = static_dir(metadata);
    if present.contains(artifact) {
        Ok(
            scaffold(out, binary_name(package), present).push(
                EffectView::Run(bindgen_command(artifact, out)),
            ),
        )
    } else {
        Err(FailureView::ArtifactMissing(artifact))
    }
}

/// What has to be looked at before the harness can be planned: the module, the
/// directory of the harness and the four files in it.
pub open spec fn generate_probes(metadata: MetadataView, package: PackageView) -> Seq<PathView> {
    seq![artifact_location(metadata, package)] + scaffold_paths(static_dir(metadata))
}

/// The locations that the harness in `out` consists of.
pub open spec fn scaffold_paths(out: PathView) -> Seq<PathView> {
    seq![
        out,
        out.join("index.html"@),
        out.join("index.js"@),
        out.join("package.json"@),
        out.join("webpack.config.js"@),
    ]
}

/// Computes where the compiled module of `pkg` is expected.
pub fn artifact_path(metadata: &Metadata, pkg: &Package) -> (artifact: Path)
    ensures
        artifact@ == artifact_location(metadata@, pkg@),
{
    let name = get_binary_name(pkg);
    target_dir(metadata).join("wasm32-unknown-unknown").join("release").join(name.as_str())
}

/// Names the directory of the harness under `dir` and plans to make it unless
/// it is among `present`.
pub fn create_static(dir: Path, present: &Vec<Path>, plan: &mut Vec<Effect>) -> (out: Path)
    ensures
        out@ == dir@.join("static"@),
        final(plan).deep_view() == old(plan).deep_view() + directory_effects(
            out@,
            present.deep_view(),
        ),
{
    let out = dir.join("static");
    if !contains(present, &out) {
        schedule(plan, Effect::CreateDir(out.clone()));
    }
    assert(plan.deep_view() =~= old(plan).deep_view() + directory_effects(
        out@,
        present.deep_view(),
    ));
    out
}

/// Plans to write `content` to `asset_name` in `dir` unless that file is among
/// `present`, and hands `dir` back either way.
pub fn generate_asset(
    dir: Path,
    asset_name: &str,
    content: &str,
    present: &Vec<Path>,
    plan: &mut Vec<Effect>,
) -> (out: Path)
    ensures
        out@ == dir@,
        final(plan).deep_view() == old(plan).deep_view() + asset_effects(
            dir@,
            asset_name@,
            content@,
            present.deep_view(),
        ),
{
    let asset = dir.clone().join(asset_name);
    if !contains(present, &asset) {
        schedule(plan, Effect::WriteFile(asset, String::from_str(content)));
    }
    assert(plan.deep_view() =~= old(plan).deep_view() + asset_effects(
        dir@,
        asset_name@,
        content@,
        present.deep_view(),
    ));
    dir
}

/// Cuts `binary` off at its first dot.
fn module_of(binary: &str) -> (module: String)
    ensures
        module@ == module_name(binary@),
{
    let n: usize = binary.unicode_len();
    let mut i: usize = 0;
    while i < n && binary.get_char(i) != '.'
        invariant
            i <= n,
            n == binary@.len(),
            forall|j: int| 0 <= j < i ==> binary@[j] != '.',
        decreases n - i,
    {
        i += 1;
    }
    proof {
        binary@.index_of_first_ensures('.');
        if i < n {
            assert(binary@.contains('.'));
        } else {
            assert(binary@.take(i as int) =~= binary@);
        }
    }
    String::from_str(binary.substring_char(0, i))
}

/// Writes the loader script for the module `binary`.
pub fn loader_script(binary: &str) -> (script: String)
    ensures
        script@ == loader(binary@),
{
    let module = module_of(binary);
    String::from_str(LOADER_HEAD).concat(module.as_str()).concat(LOADER_TAIL)
}

/// The binding generator, run on `artifact` with `out` as its output directory.
pub fn bindgen(artifact: Path, out: Path) -> (command: Command)
    ensures
        command@ == bindgen_command(artifact@, out@),
{
    let mut args: Vec<Arg> = Vec::new();
    args.push(Arg::Location(artifact));
    args.push(text("--out-dir"));
    args.push(Arg::Location(out));
    assert(args.deep_view() =~= bindgen_command(artifact@, out@).args);
    Command { program: String::from_str("wasm-bindgen"), args, current_dir: None }
}

/// Lists what has to be looked at before [`generate_wasm`] can plan.
pub fn generate_wasm_probes(metadata: &Metadata, pkg: &Package) -> (probes: Vec<Path>)
    ensures
        probes.deep_view() == generate_probes(metadata@, pkg@),
{
    let out = get_workspace_dir(metadata).join("static");
    let mut probes: Vec<Path> = Vec::new();
    probes.push(artifact_path(metadata, pkg));
    probes.push(out.clone());
    probes.push(out.clone().join("index.html"));
    probes.push(out.clone().join("index.js"));
    probes.push(out.clone().join("package.json"));
    probes.push(out.join("webpack.config.js"));
    assert(probes.deep_view() =~= generate_probes(metadata@, pkg@));
    probes
}

/// Plans the step after a successful build, given which of the
/// [probed](generate_wasm_probes) locations are `present`.
///
/// A module that is not where it is expected ends the run before anything is
/// written. Otherwise the harness is laid out under the workspace root, without
/// touching a file that is already there, and the binding generator is run on
/// the module.
pub fn generate_wasm(metadata: &Metadata, pkg: Package, present: &Vec<Path>) -> (planned: Result<
    Vec<Effect>,
    Failure,
>)
    ensures
        match generate_plan(metadata@, pkg@, present.deep_view()) {
            Ok(effects) => planned matches Ok(plan) && plan.deep_view() == effects,
            Err(failure) => planned matches Err(reported) && reported@ == failure,
        },
{
    let dir = get_workspace_dir(metadata);
    let bin_name = get_binary_name(&pkg);
    let target = artifact_path(metadata, &pkg);
    if !contains(present, &target) {
        return Err(Failure::ArtifactMissing(target));
    }
    let mut plan: Vec<Effect> = Vec::new();
    assert(plan.deep_view() =~= Seq::<EffectView>::empty());
    let out_dir = create_static(dir, present, &mut plan);
    let out_dir = generate_asset(out_dir, "index.html", INDEX_HTML, present, &mut plan);
    let index_js = loader_script(bin_name.as_str());
    let out_dir = generate_asset(out_dir, "index.js", index_js.as_str(), present, &mut plan);
    let out_dir = generate_asset(out_dir, "package.json", PACKAGE_JSON, present, &mut plan);
    let out_dir = generate_asset(out_dir, "webpack.config.js", WEBPACK_CONFIG, present, &mut plan);
    assert(plan.deep_view() =~= scaffold(out_dir@, bin_name@, present.deep_view()));
    schedule(&mut plan, Effect::Run(bindgen(target, out_dir)));
    Ok(plan)
}

/// Carrying out the plan for one file either leaves the disk alone or writes
/// that file.
proof fn lemma_asset_step(
    disk: Disk,
    dir: PathView,
    name: Seq<char>,
    content: Seq<char>,
    present: Seq<PathView>,
)
    ensures
        disk.after_all(asset_effects(dir, name, content, present)) == if present.contains(
            dir.join(name),
        ) {
            disk
        } else {
            disk.after(EffectView::WriteFile(dir.join(name), content))
        },
{
    if !present.contains(dir.join(name)) {
        lemma_after_one(disk, EffectView::WriteFile(dir.join(name), content));
    }
}

/// The disk after each part of the layout, the last being the disk after all
/// of it.
spec fn layout_stages(disk: Disk, out: PathView, binary: Seq<char>, present: Seq<PathView>) -> (
    Disk,
    Disk,
    Disk,
    Disk,
    Disk,
) {
    let made = disk.after_all(directory_effects(out, present));
    let page = made.after_all(asset_effects(out, "index.html"@, INDEX_HTML@, present));
    let script = page.after_all(asset_effects(out, "index.js"@, loader(binary), present));
    let package = script.after_all(asset_effects(out, "package.json"@, PACKAGE_JSON@, present));
    let bundler = package.after_all(
        asset_effects(out, "webpack.config.js"@, WEBPACK_CONFIG@, present),
    );
    (made, page, script, package, bundler)
}

/// Laying out the harness is laying out its parts one after the other.
proof fn lemma_layout_in_stages(
    disk: Disk,
    out: PathView,
    binary: Seq<char>,
    present: Seq<PathView>,
)
    ensures
        disk.after_all(scaffold(out, binary, present)) == layout_stages(
            disk,
            out,
            binary,
            present,
        ).4,
{
    let dir = directory_effects(out, present);
    let page = asset_effects(out, "index.html"@, INDEX_HTML@, present);
    let script = asset_effects(out, "index.js"@, loader(binary), present);
    let package = asset_effects(out, "package.json"@, PACKAGE_JSON@, present);
    let bundler = asset_effects(out, "webpack.config.js"@, WEBPACK_CONFIG@, present);
    lemma_after_both(disk, dir, page);
    lemma_after_both(disk, dir + page, script);
    lemma_after_both(disk, dir + page + script, package);
    lemma_after_both(disk, dir + page + script + package, bundler);
}

/// A file that is on the disk when the harness is laid out keeps its contents:
/// nothing that exists is ever written over.
pub proof fn lemma_scaffold_keeps_files(
    disk: Disk,
    out: PathView,
    binary: Seq<char>,
    present: Seq<PathView>,
    path: PathView,
)
    requires
        disk.seen_as(present, scaffold_paths(out)),
        disk.files.contains_key(path),
    ensures
        disk.after_all(scaffold(out, binary, present)).files.contains_key(path),
        disk.after_all(scaffold(out, binary, present)).files[path] == disk.files[path],
{
    lemma_layout_in_stages(disk, out, binary, present);
    let stages = layout_stages(disk, out, binary, present);
    if !present.contains(out) {
        lemma_after_one(disk, EffectView::CreateDir(out));
    }
    lemma_asset_step(stages.0, out, "index.html"@, INDEX_HTML@, present);
    lemma_asset_step(stages.1, out, "index.js"@, loader(binary), present);
    lemma_asset_step(stages.2, out, "package.json"@, PACKAGE_JSON@, present);
    lemma_asset_step(stages.3, out, "webpack.config.js"@, WEBPACK_CONFIG@, present);
    let paths = scaffold_paths(out);
    assert(paths[1] == out.join("index.html"@));
    assert(paths[2] == out.join("index.js"@));
    assert(paths[3] == out.join("package.json"@));
    assert(paths[4] == out.join("webpack.config.js"@));
    assert(disk.holds(path));
}

/// Once the harness has been laid out, everything it consists of is on the disk.
pub proof fn lemma_scaffold_completes(
    disk: Disk,
    out: PathView,
    binary: Seq<char>,
    present: Seq<PathView>,
)
    requires
        disk.seen_as(present, scaffold_paths(out)),
    ensures
        forall|i: int|
            0 <= i < 5 ==> disk.after_all(scaffold(out, binary, present)).holds(
                #[trigger] scaffold_paths(out)[i],
            ),
{
    lemma_layout_in_stages(disk, out, binary, present);
    let stages = layout_stages(disk, out, binary, present);
    if !present.contains(out) {
        lemma_after_one(disk, EffectView::CreateDir(out));
    }
    lemma_asset_step(stages.0, out, "index.html"@, INDEX_HTML@, present);
    lemma_asset_step(stages.1, out, "index.js"@, loader(binary), present);
    lemma_asset_step(stages.2, out, "package.json"@, PACKAGE_JSON@, present);
    lemma_asset_step(stages.3, out, "webpack.config.js"@, WEBPACK_CONFIG@, present);
    let paths = scaffold_paths(out);
    assert(paths[0] == out);
    assert(paths[1] == out.join("index.html"@));
    assert(paths[2] == out.join("index.js"@));
    assert(paths[3] == out.join("package.json"@));
    assert(paths[4] == out.join("webpack.config.js"@));
}

/// Laying out the harness twice is laying it out once: the second time, with
/// the disk looked at afresh, nothing is left to do and the disk stays as the
/// first time left it.
pub proof fn lemma_scaffold_idempotent(
    disk: Disk,
    out: PathView,
    binary: Seq<char>,
    first: Seq<PathView>,
    second: Seq<PathView>,
)
    requires
        disk.seen_as(first, scaffold_paths(out)),
        disk.after_all(scaffold(out, binary, first)).seen_as(second, scaffold_paths(out)),
    ensures
        scaffold(out, binary, second) == Seq::<EffectView>::empty(),
        disk.after_all(scaffold(out, binary, first)).after_all(scaffold(out, binary, second))
            == disk.after_all(scaffold(out, binary, first)),
{
    lemma_scaffold_completes(disk, out, binary, first);
    let once = disk.after_all(scaffold(out, binary, first));
    let paths = scaffold_paths(out);
    assert(once.holds(paths[0]) && second.contains(paths[0]));
    assert(once.holds(paths[1]) && second.contains(paths[1]));
    assert(once.holds(paths[2]) && second.contains(paths[2]));
    assert(once.holds(paths[3]) && second.contains(paths[3]));
    assert(once.holds(paths[4]) && second.contains(paths[4]));
    assert(scaffold(out, binary, second) =~= Seq::<EffectView>::empty());
}

} // verus!
