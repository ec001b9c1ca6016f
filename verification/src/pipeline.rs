//! The run as a whole, one turn at a time.
//!
//! The pipeline never acts. Each turn it is told what the driver found or did,
//! and answers with its next state and with what the driver is to do next:
//! look at the disk, read the project metadata, carry out a plan, or stop.

use vstd::prelude::*;
use crate::effect::{build_command, cargo_build, Effect, EffectView};
use crate::failure::{Failure, FailureView};
use crate::locate::{candidates, get_manifest_path, locate, manifest_candidates};
use crate::metadata::{get_package, Metadata, MetadataView, Package, PackageView};
use crate::path::{Path, PathView};
use crate::scaffold::{
    artifact_location, generate_plan, generate_probes, generate_wasm, generate_wasm_probes,
};
use crate::serve::{serve, serve_paths, serve_plan, serve_probes};

verus! {

/// What the driver is asked to do.
#[derive(Debug, PartialEq, Eq)]
pub enum Action {
    /// Report which of these locations exist, with [`Event::Present`].
    Inspect(Vec<Path>),
    /// Ask the toolchain about the project with this manifest, and report with
    /// [`Event::Metadata`].
    ReadMetadata(Path),
    /// Carry out these effects in order, and report with [`Event::Performed`].
    Perform(Vec<Effect>),
    /// Tell the user of this failure and leave with its exit code.
    Exit(Failure),
    /// Leave; nothing went wrong and nothing is left to do.
    Finish,
}

/// The mathematical value of an [`Action`].
pub enum ActionView {
    Inspect(Seq<PathView>),
    ReadMetadata(PathView),
    Perform(Seq<EffectView>),
    Exit(FailureView),
    Finish,
}

impl View for Action {
    type V = ActionView;

    open spec fn view(&self) -> ActionView {
        match self {
            Action::Inspect(paths) => ActionView::Inspect(paths.deep_view()),
            Action::ReadMetadata(manifest) => ActionView::ReadMetadata(manifest@),
            Action::Perform(plan) => ActionView::Perform(plan.deep_view()),
            Action::Exit(failure) => ActionView::Exit(failure@),
            Action::Finish => ActionView::Finish,
        }
    }
}

/// What the driver reports.
#[derive(Debug, PartialEq, Eq)]
pub enum Event {
    /// The run begins.
    Begin,
    /// Of the locations it was asked to inspect, these exist.
    Present(Vec<Path>),
    /// The toolchain's account of the project.
    Metadata(Metadata),
    /// The plan was carried out; the flag tells whether every program in it
    /// came back with success.
    Performed(bool),
}

/// The mathematical value of an [`Event`].
pub enum EventView {
    Begin,
    Present(Seq<PathView>),
    Metadata(MetadataView),
    Performed(bool),
}

impl View for Event {
    type V = EventView;

    open spec fn view(&self) -> EventView {
        match self {
            Event::Begin => EventView::Begin,
            Event::Present(present) => EventView::Present(present.deep_view()),
            Event::Metadata(metadata) => EventView::Metadata(metadata@),
            Event::Performed(success) => EventView::Performed(*success),
        }
    }
}

/// How far a run has come.
#[derive(Debug, PartialEq, Eq)]
pub enum Pipeline {
    /// Nothing has happened yet. The run is to start in `dir`.
    Start { dir: Path },
    /// The manifests from `dir` upwards are being looked for.
    Locating { dir: Path },
    /// The manifest is found and the toolchain is being asked about the project.
    ManifestFound,
    /// The project is known and the compiler is running.
    MetadataRead { metadata: Metadata },
    /// The compiler succeeded; the module and the harness are being looked at.
    Compiled { metadata: Metadata, package: Package },
    /// The module is where it belongs; the harness is being laid out and the
    /// bindings generated.
    ArtifactVerified { metadata: Metadata },
    /// The bindings are generated; the installed dependencies are being looked at.
    BindingsGenerated { metadata: Metadata },
    /// The dependencies are seen to and the development server is running.
    Serving,
    /// The compiler failed. The run is over, without a word of its own.
    BuildFailed,
    /// The development server has ended. The run is over.
    Finished,
    /// The run was given up.
    Failed,
}

/// The mathematical value of a [`Pipeline`].
pub enum PipelineView {
    Start { dir: PathView },
    Locating { dir: PathView },
    ManifestFound,
    MetadataRead { metadata: MetadataView },
    Compiled { metadata: MetadataView, package: PackageView },
    ArtifactVerified { metadata: MetadataView },
    BindingsGenerated { metadata: MetadataView },
    Serving,
    BuildFailed,
    Finished,
    Failed,
}

impl View for Pipeline {
    type V = PipelineView;

    open spec fn view(&self) -> PipelineView {
        match self {
            Pipeline::Start { dir } => PipelineView::Start { dir: dir@ },
            Pipeline::Locating { dir } => PipelineView::Locating { dir: dir@ },
            Pipeline::ManifestFound => PipelineView::ManifestFound,
            Pipeline::MetadataRead { metadata } => PipelineView::MetadataRead {
                metadata: metadata@,
            },
            Pipeline::Compiled { metadata, package } => PipelineView::Compiled {
                metadata: metadata@,
                package: package@,
            },
            Pipeline::ArtifactVerified { metadata } => PipelineView::ArtifactVerified {
                metadata: metadata@,
            },
            Pipeline::BindingsGenerated { metadata } => PipelineView::BindingsGenerated {
                metadata: metadata@,
            },
            Pipeline::Serving => PipelineView::Serving,
            Pipeline::BuildFailed => PipelineView::BuildFailed,
            Pipeline::Finished => PipelineView::Finished,
            Pipeline::Failed => PipelineView::Failed,
        }
    }
}

/// Giving the run up because of `failure`.
pub open spec fn give_up(failure: FailureView) -> (PipelineView, ActionView) {
    (PipelineView::Failed, ActionView::Exit(failure))
}

/// What follows the search for the manifest from `dir` upwards, `present` being
/// what was found on the way: the toolchain is asked about the project of the
/// nearest manifest, or the run is given up for want of one.
pub open spec fn metadata_request(dir: PathView, present: Seq<PathView>) -> (
    PipelineView,
    ActionView,
) {
    match locate(dir, present) {
        Some(manifest) => (PipelineView::ManifestFound, ActionView::ReadMetadata(manifest)),
        None => give_up(FailureView::ManifestNotFound),
    }
}

/// One turn of the pipeline: the state after `event` and what is to be done next.
///
/// The stages follow one another in a fixed order: manifest, metadata,
/// compiler, module and harness, bindings, dependencies, server. Only the
/// compiler's outcome is looked at: a failed build ends the run quietly, while
/// what the binding generator and the package manager come back with is
/// ignored. A run that is over stays over, and an event that the state was not
/// waiting for gives the run up.
pub open spec fn turn(state: PipelineView, event: EventView) -> (PipelineView, ActionView) {
    match (state, event) {
        (PipelineView::Start { dir }, EventView::Begin) => (
            PipelineView::Locating { dir },
            ActionView::Inspect(candidates(dir)),
        ),
        (PipelineView::Locating { dir }, EventView::Present(present)) => metadata_request(
            dir,
            present,
        ),
        (PipelineView::ManifestFound, EventView::Metadata(metadata)) => (
            PipelineView::MetadataRead { metadata },
            ActionView::Perform(seq![EffectView::Run(build_command())]),
        ),
        (PipelineView::MetadataRead { metadata }, EventView::Performed(success)) => if !success {
            (PipelineView::BuildFailed, ActionView::Finish)
        } else if metadata.packages.len() == 0 {
            give_up(FailureView::NoPackage)
        } else {
            (
                PipelineView::Compiled { metadata, package: metadata.packages[0] },
                ActionView::Inspect(generate_probes(metadata, metadata.packages[0])),
            )
        },
        (
            PipelineView::Compiled { metadata, package },
            EventView::Present(present),
        ) => match generate_plan(metadata, package, present) {
            Ok(plan) => (PipelineView::ArtifactVerified { metadata }, ActionView::Perform(plan)),
            Err(failure) => give_up(failure),
        },
        (PipelineView::ArtifactVerified { metadata }, EventView::Performed(_)) => (
            PipelineView::BindingsGenerated { metadata },
            ActionView::Inspect(serve_paths(metadata)),
        ),
        (PipelineView::BindingsGenerated { metadata }, EventView::Present(present)) => (
            PipelineView::Serving,
            ActionView::Perform(serve_plan(metadata, present)),
        ),
        (PipelineView::Serving, EventView::Performed(_)) => (
            PipelineView::Finished,
            ActionView::Finish,
        ),
        (PipelineView::BuildFailed, _) => (PipelineView::BuildFailed, ActionView::Finish),
        (PipelineView::Finished, _) => (PipelineView::Finished, ActionView::Finish),
        _ => give_up(FailureView::UnexpectedEvent),
    }
}

/// Gives the run up because of `failure`.
fn abandon(failure: Failure) -> (next: (Pipeline, Action))
    ensures
        (next.0@, next.1@) == give_up(failure@),
{
    (Pipeline::Failed, Action::Exit(failure))
}

/// Settles how the metadata of the project around `dir` is to be had: finds the
/// nearest manifest from `dir` upwards among `present` and asks the driver to
/// read the metadata of its project. Without a manifest the run is given up.
pub fn get_pkg_metadata(dir: Path, present: &Vec<Path>) -> (next: (Pipeline, Action))
    ensures
        (next.0@, next.1@) == metadata_request(dir@, present.deep_view()),
{
    match get_manifest_path(dir, present) {
        Ok(manifest) => (Pipeline::ManifestFound, Action::ReadMetadata(manifest)),
        Err(failure) => abandon(failure),
    }
}

/// Takes one turn: from the state of the run and what the driver reports to
/// the next state and what the driver is to do.
///
/// A run starts in [`Pipeline::Start`] with [`Event::Begin`] and is over when
/// the answer is [`Action::Finish`] or [`Action::Exit`].
pub fn wasm_build(state: Pipeline, event: Event) -> (next: (Pipeline, Action))
    ensures
        (next.0@, next.1@) == turn(state@, event@),
{
    match state {
        Pipeline::Start { dir } => match event {
            Event::Begin => {
                let paths = manifest_candidates(&dir);
                (Pipeline::Locating { dir }, Action::Inspect(paths))
            },
            _ => abandon(Failure::UnexpectedEvent),
        },
        Pipeline::Locating { dir } => match event {
            Event::Present(present) => get_pkg_metadata(dir, &present),
            _ => abandon(Failure::UnexpectedEvent),
        },
        Pipeline::ManifestFound => match event {
            Event::Metadata(metadata) => {
                let mut plan: Vec<Effect> = Vec::new();
                plan.push(Effect::Run(cargo_build()));
                assert(plan.deep_view() =~= seq![EffectView::Run(build_command())]);
                (Pipeline::MetadataRead { metadata }, Action::Perform(plan))
            },
            _ => abandon(Failure::UnexpectedEvent),
        },
        Pipeline::MetadataRead { metadata } => match event {
            Event::Performed(success) => {
                if !success {
                    (Pipeline::BuildFailed, Action::Finish)
                } else if metadata.packages.len() == 0 {
                    abandon(Failure::NoPackage)
                } else {
                    let package = get_package(&metadata);
                    let paths = generate_wasm_probes(&metadata, &package);
                    (Pipeline::Compiled { metadata, package }, Action::Inspect(paths))
                }
            },
            _ => abandon(Failure::UnexpectedEvent),
        },
        Pipeline::Compiled { metadata, package } => match event {
            Event::Present(present) => match generate_wasm(&metadata, package, &present) {
                Ok(plan) => (Pipeline::ArtifactVerified { metadata }, Action::Perform(plan)),
                Err(failure) => abandon(failure),
            },
            _ => abandon(Failure::UnexpectedEvent),
        },
        Pipeline::ArtifactVerified { metadata } => match event {
            Event::Performed(_) => {
                let paths = serve_probes(&metadata);
                (Pipeline::BindingsGenerated { metadata }, Action::Inspect(paths))
            },
            _ => abandon(Failure::UnexpectedEvent),
        },
        Pipeline::BindingsGenerated { metadata } => match event {
            Event::Present(present) => {
                let plan = serve(&metadata, &present);
                (Pipeline::Serving, Action::Perform(plan))
            },
            _ => abandon(Failure::UnexpectedEvent),
        },
        Pipeline::Serving => match event {
            Event::Performed(_) => (Pipeline::Finished, Action::Finish),
            _ => abandon(Failure::UnexpectedEvent),
        },
        Pipeline::BuildFailed => (Pipeline::BuildFailed, Action::Finish),
        Pipeline::Finished => (Pipeline::Finished, Action::Finish),
        Pipeline::Failed => abandon(Failure::UnexpectedEvent),
    }
}

/// How many turns a run in `state` can still take.
pub open spec fn turns_left(state: PipelineView) -> nat {
    match state {
        PipelineView::Start { .. } => 8,
        PipelineView::Locating { .. } => 7,
        PipelineView::ManifestFound => 6,
        PipelineView::MetadataRead { .. } => 5,
        PipelineView::Compiled { .. } => 4,
        PipelineView::ArtifactVerified { .. } => 3,
        PipelineView::BindingsGenerated { .. } => 2,
        PipelineView::Serving => 1,
        PipelineView::BuildFailed => 0,
        PipelineView::Finished => 0,
        PipelineView::Failed => 0,
    }
}

/// Whether `action` ends the run.
pub open spec fn ends_run(action: ActionView) -> bool {
    action is Finish || action is Exit
}

/// Every turn brings the run nearer to its end, whatever the driver reports:
/// a run is over after eight turns at most. Once it is over it stays over, and
/// a run that is not over yet asks for nothing that would end it unless it is
/// over with that turn.
pub proof fn lemma_run_ends(state: PipelineView, event: EventView)
    ensures
        turns_left(state) > 0 ==> turns_left(turn(state, event).0) < turns_left(state),
        turns_left(state) == 0 ==> turn(state, event).0 == state,
        ends_run(turn(state, event).1) <==> turns_left(turn(state, event).0) == 0,
{
}

/// Nothing is written, made or run beyond the compiler itself unless the
/// compiler came back with success: after a failed build the run is over and
/// asks for nothing more.
pub proof fn lemma_failed_build_ends_run(metadata: MetadataView, event: EventView)
    ensures
        turn(PipelineView::MetadataRead { metadata }, EventView::Performed(false)) == (
            PipelineView::BuildFailed,
            ActionView::Finish,
        ),
        turn(PipelineView::BuildFailed, event) == (PipelineView::BuildFailed, ActionView::Finish),
{
}

/// A module that is not where it is expected ends the run with a failure that
/// names the place, and with no plan: nothing is written before the module is
/// seen to be there.
pub proof fn lemma_missing_artifact_ends_run(
    metadata: MetadataView,
    package: PackageView,
    present: Seq<PathView>,
)
    requires
        !present.contains(artifact_location(metadata, package)),
    ensures
        turn(PipelineView::Compiled { metadata, package }, EventView::Present(present)) == give_up(
            FailureView::ArtifactMissing(artifact_location(metadata, package)),
        ),
{
}

} // verus!
