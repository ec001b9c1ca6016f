//! The ways in which a run ends early.

use vstd::prelude::*;
use crate::path::{Path, PathView};

verus! {

/// Why the pipeline gave up.
#[derive(Debug, PartialEq, Eq)]
pub enum Failure {
    /// Neither the starting directory nor any directory above it holds a manifest.
    ManifestNotFound,
    /// The project metadata lists no package.
    NoPackage,
    /// The compiler succeeded, yet the module is not where it was expected.
    ArtifactMissing(Path),
    /// The driver reported something the pipeline was not waiting for.
    UnexpectedEvent,
}

/// The mathematical value of a [`Failure`].
pub enum FailureView {
    ManifestNotFound,
    NoPackage,
    ArtifactMissing(PathView),
    UnexpectedEvent,
}

impl View for Failure {
    type V = FailureView;

    open spec fn view(&self) -> FailureView {
        match self {
            Failure::ManifestNotFound => FailureView::ManifestNotFound,
            Failure::NoPackage => FailureView::NoPackage,
            Failure::ArtifactMissing(path) => FailureView::ArtifactMissing(path@),
            Failure::UnexpectedEvent => FailureView::UnexpectedEvent,
        }
    }
}

impl Failure {
    /// The status with which the process leaves after this failure: never zero.
    pub fn exit_code(&self) -> (code: i32)
        ensures
            code == 1,
    {
        1
    }
}

} // verus!
