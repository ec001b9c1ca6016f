//! Installing the JavaScript dependencies of the harness, once, and starting
//! the development server in it.

use vstd::prelude::*;
use vstd::string::*;
use crate::effect::{schedule, text, Arg, ArgView, Command, CommandView, Effect, EffectView};
use crate::metadata::{get_workspace_dir, Metadata, MetadataView};
use crate::path::{contains, Path, PathView};
use crate::scaffold::{create_static, directory_effects, static_dir};

verus! {

/// The package manager's install, run in `dir`.
pub open spec fn install_command(dir: PathView) -> CommandView {
    CommandView { program: "npm"@, args: seq![ArgView::Text("i"@)], current_dir: Some(dir) }
}

/// The `serve` script of the package descriptor, run in `dir`.
pub open spec fn serve_command(dir: PathView) -> CommandView {
    CommandView {
        program: "npm"@,
        args: seq![ArgView::Text("run"@), ArgView::Text("serve"@)],
        current_dir: Some(dir),
    }
}

/// Where the package manager keeps what it has installed for the harness in `out`.
pub open spec fn modules_dir(out: PathView) -> PathView {
    out.join("node_modules"@)
}

/// Installing the dependencies of the harness in `out`, unless their directory
/// is among `present`.
pub open spec fn install_effects(out: PathView, present: Seq<PathView>) -> Seq<EffectView> {
    if present.contains(modules_dir(out)) {
        Seq::empty()
    } else {
        seq![EffectView::Run(install_command(out))]
    }
}

/// The last stage: the directory of the harness is made if it is missing, the
/// dependencies are installed if they are missing, and the server is started.
pub open spec fn serve_plan(metadata: MetadataView, present: Seq<PathView>) -> Seq<EffectView> {
    let out = static_dir(metadata);
    (directory_effects(out, present) + install_effects(out, present)).push(
        EffectView::Run(serve_command(out)),
    )
}

/// What has to be looked at before the last stage can be planned: the
/// directory of the harness and that of its installed dependencies.
pub open spec fn serve_paths(metadata: MetadataView) -> Seq<PathView> {
    seq![static_dir(metadata), modules_dir(static_dir(metadata))]
}

/// The package manager, run in `dir` with the plain arguments `words`.
fn npm(words: Vec<Arg>, dir: Path) -> (command: Command)
    ensures
        command@ == (CommandView {
            program: "npm"@,
            args: words.deep_view(),
            current_dir: Some(dir@),
        }),
{
    Command { program: String::from_str("npm"), args: words, current_dir: Some(dir) }
}

/// Lists what has to be looked at before [`serve`] can plan.
pub fn serve_probes(metadata: &Metadata) -> (probes: Vec<Path>)
    ensures
        probes.deep_view() == serve_paths(metadata@),
{
    let out = get_workspace_dir(metadata).join("static");
    let mut probes: Vec<Path> = Vec::new();
    probes.push(out.clone());
    probes.push(out.join("node_modules"));
    assert(probes.deep_view() =~= serve_paths(metadata@));
    probes
}

/// Plans the last stage, given which of the [probed](serve_probes) locations
/// are `present`: the dependencies are installed only where their directory is
/// missing, and the development server is started in the harness whatever the
/// installation came to.
pub fn serve(metadata: &Metadata, present: &Vec<Path>) -> (plan: Vec<Effect>)
    ensures
        plan.deep_view() == serve_plan(metadata@, present.deep_view()),
{
    let mut plan: Vec<Effect> = Vec::new();
    assert(plan.deep_view() =~= Seq::<EffectView>::empty());
    let out_dir = create_static(get_workspace_dir(metadata), present, &mut plan);
    let modules = out_dir.clone().join("node_modules");
    if !contains(present, &modules) {
        let mut words: Vec<Arg> = Vec::new();
        words.push(text("i"));
        assert(words.deep_view() =~= install_command(out_dir@).args);
        schedule(&mut plan, Effect::Run(npm(words, out_dir.clone())));
    }
    assert(plan.deep_view() =~= directory_effects(out_dir@, present.deep_view())
        + install_effects(out_dir@, present.deep_view()));
    let mut words: Vec<Arg> = Vec::new();
    words.push(text("run"));
    words.push(text("serve"));
    assert(words.deep_view() =~= serve_command(out_dir@).args);
    schedule(&mut plan, Effect::Run(npm(words, out_dir)));
    plan
}

} // verus!
