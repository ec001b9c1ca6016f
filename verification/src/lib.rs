//! Planning core of a launcher that builds a crate for the browser, scaffolds a
//! small web harness around the compiled module and starts a development server.
//!
//! Nothing in this library touches the disk or starts a process. Every function
//! decides from plain values what should happen next; a thin driver observes the
//! world, carries out the effects and reports back.

pub mod disk;
pub mod effect;
pub mod failure;
pub mod locate;
pub mod metadata;
pub mod path;
pub mod pipeline;
pub mod scaffold;
pub mod serve;

pub use effect::{cargo_build, Arg, Command, Effect};
pub use failure::Failure;
pub use locate::get_manifest_path;
pub use metadata::{get_binary_name, get_package, get_workspace_dir, Metadata, Package, Target};
pub use path::Path;
pub use pipeline::{get_pkg_metadata, wasm_build, Action, Event, Pipeline};
pub use scaffold::generate_wasm;
pub use serve::serve;
