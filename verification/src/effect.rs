//! What the driver is asked to do to the world: make a directory, write a file,
//! run a program.

use vstd::prelude::*;
use vstd::string::*;
use crate::path::{Path, PathView};

verus! {

/// One argument of a command line: plain text, or a location that the driver
/// spells out in the way of its platform.
#[derive(Debug, PartialEq, Eq)]
pub enum Arg {
    Text(String),
    Location(Path),
}

/// The mathematical value of an [`Arg`].
pub enum ArgView {
    Text(Seq<char>),
    Location(PathView),
}

impl View for Arg {
    type V = ArgView;

    open spec fn view(&self) -> ArgView {
        match self {
            Arg::Text(text) => ArgView::Text(text@),
            Arg::Location(path) => ArgView::Location(path@),
        }
    }
}

impl DeepView for Arg {
    type V = ArgView;

    open spec fn deep_view(&self) -> ArgView {
        self@
    }
}

/// A program to run to its end, with the console handed through to it.
///
/// Without a `current_dir` it runs where the driver itself runs.
#[derive(Debug, PartialEq, Eq)]
pub struct Command {
    pub program: String,
    pub args: Vec<Arg>,
    pub current_dir: Option<Path>,
}

/// The mathematical value of a [`Command`].
pub struct CommandView {
    pub program: Seq<char>,
    pub args: Seq<ArgView>,
    pub current_dir: Option<PathView>,
}

impl View for Command {
    type V = CommandView;

    open spec fn view(&self) -> CommandView {
        CommandView {
            program: self.program@,
            args: self.args.deep_view(),
            current_dir: self.current_dir.deep_view(),
        }
    }
}

/// A change to the world.
#[derive(Debug, PartialEq, Eq)]
pub enum Effect {
    /// Make this directory.
    CreateDir(Path),
    /// Create this file with these contents.
    WriteFile(Path, String),
    /// Run this program and wait for it.
    Run(Command),
}

/// The mathematical value of an [`Effect`].
pub enum EffectView {
    CreateDir(PathView),
    WriteFile(PathView, Seq<char>),
    Run(CommandView),
}

impl View for Effect {
    type V = EffectView;

    open spec fn view(&self) -> EffectView {
        match self {
            Effect::CreateDir(path) => EffectView::CreateDir(path@),
            Effect::WriteFile(path, content) => EffectView::WriteFile(path@, content@),
            Effect::Run(command) => EffectView::Run(command@),
        }
    }
}

impl DeepView for Effect {
    type V = EffectView;

    open spec fn deep_view(&self) -> EffectView {
        self@
    }
}

/// Appends `effect` to `plan`.
pub fn schedule(plan: &mut Vec<Effect>, effect: Effect)
    ensures
        final(plan).deep_view() == old(plan).deep_view().push(effect@),
{
    let ghost before = plan.deep_view();
    plan.push(effect);
    assert(plan.deep_view() =~= before.push(effect@));
}

/// A plain-text argument.
pub fn text(word: &str) -> (arg: Arg)
    ensures
        arg@ == ArgView::Text(word@),
{
    Arg::Text(String::from_str(word))
}

/// The release build for the browser target.
pub open spec fn build_command() -> CommandView {
    CommandView {
        program: "cargo"@,
        args: seq![
            ArgView::Text("build"@),
            ArgView::Text("--release"@),
            ArgView::Text("--target"@),
            ArgView::Text("wasm32-unknown-unknown"@),
        ],
        current_dir: None,
    }
}

/// The compiler invocation: a release build for the browser target, run where
/// the driver runs.
pub fn cargo_build() -> (command: Command)
    ensures
        command@ == build_command(),
{
    let mut args: Vec<Arg> = Vec::new();
    args.push(text("build"));
    args.push(text("--release"));
    args.push(text("--target"));
    args.push(text("wasm32-unknown-unknown"));
    assert(args.deep_view() =~= build_command().args);
    Command { program: String::from_str("cargo"), args, current_dir: None }
}

} // verus!
