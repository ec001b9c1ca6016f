use wasm_harness::scaffold::{INDEX_HTML, PACKAGE_JSON, WEBPACK_CONFIG};
use wasm_harness::{
    get_pkg_metadata, wasm_build, Action, Arg, Command, Effect, Event, Failure, Metadata, Package, Path, Pipeline,
    Target,
};

fn at(names: &[&str]) -> Path {
    let mut path = Path::new("/");
    for name in names {
        path = path.join(name);
    }
    path
}

fn project() -> Metadata {
    Metadata {
        workspace_root: at(&["work"]),
        target_directory: at(&["work", "target"]),
        packages: vec![Package {
            name: "my-crate".to_string(),
            targets: vec![Target { kind: vec!["cdylib".to_string()] }],
        }],
    }
}

fn artifact() -> Path {
    at(&["work", "target", "wasm32-unknown-unknown", "release", "my_crate.wasm"])
}

/// A disk and a set of tools that exist only in memory.
struct World {
    dirs: Vec<Path>,
    files: Vec<(Path, String)>,
    metadata_reads: Vec<Path>,
    build_succeeds: bool,
    built: Option<Path>,
    programs: Vec<String>,
}

impl World {
    fn new() -> World {
        World {
            dirs: vec![at(&[]), at(&["work"]), at(&["work", "src"])],
            files: vec![(at(&["work", "Cargo.toml"]), "[package]".to_string())],
            metadata_reads: Vec::new(),
            build_succeeds: true,
            built: Some(artifact()),
            programs: Vec::new(),
        }
    }

    fn holds(&self, path: &Path) -> bool {
        self.dirs.contains(path) || self.files.iter().any(|(file, _)| file == path)
    }

    fn content(&self, path: &Path) -> Option<&str> {
        self.files.iter().find(|(file, _)| file == path).map(|(_, content)| content.as_str())
    }

    fn written(&self, names: &[&str]) -> Option<&str> {
        self.content(&at(names))
    }

    fn runs_of(&self, line: &str) -> usize {
        self.programs.iter().filter(|program| program.as_str() == line).count()
    }

    fn run(&mut self, command: &Command) -> bool {
        let mut line = command.program.clone();
        for arg in &command.args {
            match arg {
                Arg::Text(word) => line = format!("{} {}", line, word),
                Arg::Location(_) => line = format!("{} <path>", line),
            }
        }
        self.programs.push(line.clone());
        if line == "cargo build --release --target wasm32-unknown-unknown" {
            if self.build_succeeds {
                if let Some(path) = self.built.clone() {
                    self.files.push((path, "wasm".to_string()));
                }
            }
            self.build_succeeds
        } else if line == "wasm-bindgen <path> --out-dir <path>" {
            if let Arg::Location(out) = &command.args[2] {
                self.files.push((out.clone().join("my_crate_bg.wasm"), "bindings".to_string()));
            }
            false
        } else if line == "npm i" {
            let dir = command.current_dir.clone().unwrap();
            self.dirs.push(dir.join("node_modules"));
            false
        } else {
            false
        }
    }

    fn perform(&mut self, effect: &Effect) -> bool {
        match effect {
            Effect::CreateDir(path) => {
                assert!(!self.holds(path), "made a directory that was there");
                self.dirs.push(path.clone());
                true
            }
            Effect::WriteFile(path, content) => {
                assert!(!self.holds(path), "wrote over a file that was there");
                self.files.push((path.clone(), content.clone()));
                true
            }
            Effect::Run(command) => self.run(command),
        }
    }

    /// Runs the pipeline from `dir` to its end and returns the last state and action.
    fn drive(&mut self, dir: Path) -> (Pipeline, Action) {
        let mut state = Pipeline::Start { dir };
        let mut event = Event::Begin;
        for _ in 0..20 {
            let (next, action) = wasm_build(state, event);
            state = next;
            event = match action {
                Action::Inspect(paths) => {
                    Event::Present(paths.into_iter().filter(|path| self.holds(path)).collect())
                }
                Action::ReadMetadata(manifest) => {
                    self.metadata_reads.push(manifest);
                    Event::Metadata(project())
                }
                Action::Perform(plan) => {
                    let mut success = true;
                    for effect in &plan {
                        success = self.perform(effect) && success;
                    }
                    Event::Performed(success)
                }
                last => return (state, last),
            };
        }
        panic!("the pipeline did not end");
    }
}

const LOADER: &str =
    "\nlet wasm = import('./my_crate');\nwasm.then(m => m.main && m.main());    \n    ";

#[test]
fn fresh_workspace_is_scaffolded_installed_and_served() {
    let mut world = World::new();
    let end = world.drive(at(&["work", "src"]));
    assert_eq!(end, (Pipeline::Finished, Action::Finish));
    assert_eq!(world.metadata_reads, vec![at(&["work", "Cargo.toml"])]);
    assert!(world.dirs.contains(&at(&["work", "static"])));
    assert_eq!(world.written(&["work", "static", "index.html"]), Some(INDEX_HTML));
    assert_eq!(world.written(&["work", "static", "index.js"]), Some(LOADER));
    assert_eq!(world.written(&["work", "static", "package.json"]), Some(PACKAGE_JSON));
    assert_eq!(world.written(&["work", "static", "webpack.config.js"]), Some(WEBPACK_CONFIG));
    assert_eq!(world.written(&["work", "static", "my_crate_bg.wasm"]), Some("bindings"));
    assert_eq!(
        world.programs,
        vec![
            "cargo build --release --target wasm32-unknown-unknown".to_string(),
            "wasm-bindgen <path> --out-dir <path>".to_string(),
            "npm i".to_string(),
            "npm run serve".to_string(),
        ]
    );
}

#[test]
fn hand_edited_page_survives_a_run() {
    let mut world = World::new();
    world.dirs.push(at(&["work", "static"]));
    world.files.push((at(&["work", "static", "index.html"]), "<p>mine</p>".to_string()));
    let end = world.drive(at(&["work"]));
    assert_eq!(end, (Pipeline::Finished, Action::Finish));
    assert_eq!(world.written(&["work", "static", "index.html"]), Some("<p>mine</p>"));
    assert_eq!(world.written(&["work", "static", "index.js"]), Some(LOADER));
    assert_eq!(world.written(&["work", "static", "package.json"]), Some(PACKAGE_JSON));
    assert_eq!(world.written(&["work", "static", "webpack.config.js"]), Some(WEBPACK_CONFIG));
}

#[test]
fn second_run_changes_no_file_and_installs_nothing() {
    let mut world = World::new();
    world.drive(at(&["work"]));
    let files_after_first: Vec<(Path, String)> =
        world.files.iter().map(|(path, content)| (path.clone(), content.clone())).collect();
    world.files.retain(|(path, _)| *path != at(&["work", "static", "index.js"]));
    world.files.push((at(&["work", "static", "index.js"]), "// edited".to_string()));
    let end = world.drive(at(&["work"]));
    assert_eq!(end, (Pipeline::Finished, Action::Finish));
    assert_eq!(world.written(&["work", "static", "index.js"]), Some("// edited"));
    for (path, content) in &files_after_first {
        if *path != at(&["work", "static", "index.js"]) {
            assert_eq!(world.content(path), Some(content.as_str()));
        }
    }
    assert_eq!(world.runs_of("npm i"), 1);
    assert_eq!(world.runs_of("npm run serve"), 2);
}

#[test]
fn failed_build_stops_the_run_quietly() {
    let mut world = World::new();
    world.build_succeeds = false;
    let end = world.drive(at(&["work", "src"]));
    assert_eq!(end, (Pipeline::BuildFailed, Action::Finish));
    assert!(!world.holds(&at(&["work", "static"])));
    assert!(!world.holds(&at(&["work", "static", "index.html"])));
    assert_eq!(world.files.len(), 1);
    assert_eq!(
        world.programs,
        vec!["cargo build --release --target wasm32-unknown-unknown".to_string()]
    );
}

#[test]
fn missing_artifact_ends_the_run_before_any_write() {
    let mut world = World::new();
    world.built = Some(at(&["work", "target", "wasm32-unknown-unknown", "release", "other.wasm"]));
    let end = world.drive(at(&["work", "src"]));
    assert_eq!(end, (Pipeline::Failed, Action::Exit(Failure::ArtifactMissing(artifact()))));
    assert_eq!(Failure::ArtifactMissing(artifact()).exit_code(), 1);
    assert!(!world.holds(&at(&["work", "static"])));
    assert_eq!(world.files.len(), 2);
    assert_eq!(
        world.programs,
        vec!["cargo build --release --target wasm32-unknown-unknown".to_string()]
    );
}

#[test]
fn run_without_manifest_fails_before_anything_is_run() {
    let mut world = World::new();
    world.files.clear();
    let end = world.drive(at(&["work", "src"]));
    assert_eq!(end, (Pipeline::Failed, Action::Exit(Failure::ManifestNotFound)));
    assert!(world.metadata_reads.is_empty());
    assert!(world.programs.is_empty());
}

#[test]
fn first_turn_asks_for_the_manifests_on_the_way_up() {
    let (state, action) = wasm_build(Pipeline::Start { dir: at(&["work", "src"]) }, Event::Begin);
    assert_eq!(state, Pipeline::Locating { dir: at(&["work", "src"]) });
    assert_eq!(
        action,
        Action::Inspect(vec![
            at(&["work", "src", "Cargo.toml"]),
            at(&["work", "Cargo.toml"]),
            at(&["Cargo.toml"]),
        ])
    );
}

#[test]
fn found_manifest_is_handed_to_the_metadata_reader() {
    let present = vec![at(&["work", "Cargo.toml"])];
    assert_eq!(
        wasm_build(Pipeline::Locating { dir: at(&["work", "src"]) }, Event::Present(present)),
        (Pipeline::ManifestFound, Action::ReadMetadata(at(&["work", "Cargo.toml"])))
    );
}

#[test]
fn metadata_starts_the_compiler() {
    let (state, action) = wasm_build(Pipeline::ManifestFound, Event::Metadata(project()));
    assert_eq!(state, Pipeline::MetadataRead { metadata: project() });
    assert_eq!(action, Action::Perform(vec![Effect::Run(wasm_harness::cargo_build())]));
}

#[test]
fn successful_build_asks_for_artifact_and_harness() {
    let (state, action) =
        wasm_build(Pipeline::MetadataRead { metadata: project() }, Event::Performed(true));
    assert_eq!(
        state,
        Pipeline::Compiled { metadata: project(), package: project().packages.remove(0) }
    );
    assert_eq!(
        action,
        Action::Inspect(vec![
            artifact(),
            at(&["work", "static"]),
            at(&["work", "static", "index.html"]),
            at(&["work", "static", "index.js"]),
            at(&["work", "static", "package.json"]),
            at(&["work", "static", "webpack.config.js"]),
        ])
    );
}

#[test]
fn metadata_without_packages_gives_the_run_up() {
    let mut metadata = project();
    metadata.packages.clear();
    assert_eq!(
        wasm_build(Pipeline::MetadataRead { metadata }, Event::Performed(true)),
        (Pipeline::Failed, Action::Exit(Failure::NoPackage))
    );
}

#[test]
fn binding_generator_result_is_ignored() {
    for success in [true, false] {
        let (state, action) = wasm_build(
            Pipeline::ArtifactVerified { metadata: project() },
            Event::Performed(success),
        );
        assert_eq!(state, Pipeline::BindingsGenerated { metadata: project() });
        assert_eq!(
            action,
            Action::Inspect(vec![
                at(&["work", "static"]),
                at(&["work", "static", "node_modules"]),
            ])
        );
    }
}

#[test]
fn server_result_is_ignored() {
    for success in [true, false] {
        assert_eq!(
            wasm_build(Pipeline::Serving, Event::Performed(success)),
            (Pipeline::Finished, Action::Finish)
        );
    }
}

#[test]
fn unexpected_event_gives_the_run_up() {
    assert_eq!(
        wasm_build(Pipeline::Start { dir: at(&["work"]) }, Event::Performed(true)),
        (Pipeline::Failed, Action::Exit(Failure::UnexpectedEvent))
    );
    assert_eq!(
        wasm_build(Pipeline::ManifestFound, Event::Begin),
        (Pipeline::Failed, Action::Exit(Failure::UnexpectedEvent))
    );
    assert_eq!(
        wasm_build(Pipeline::Serving, Event::Present(Vec::new())),
        (Pipeline::Failed, Action::Exit(Failure::UnexpectedEvent))
    );
    let compiled =
        Pipeline::Compiled { metadata: project(), package: project().packages.remove(0) };
    assert_eq!(
        wasm_build(compiled, Event::Metadata(project())),
        (Pipeline::Failed, Action::Exit(Failure::UnexpectedEvent))
    );
}

#[test]
fn finished_runs_stay_finished() {
    assert_eq!(wasm_build(Pipeline::Finished, Event::Begin), (Pipeline::Finished, Action::Finish));
    assert_eq!(
        wasm_build(Pipeline::BuildFailed, Event::Performed(true)),
        (Pipeline::BuildFailed, Action::Finish)
    );
    assert_eq!(
        wasm_build(Pipeline::Failed, Event::Begin),
        (Pipeline::Failed, Action::Exit(Failure::UnexpectedEvent))
    );
}

#[test]
fn metadata_is_asked_for_the_nearest_manifest() {
    let present = vec![at(&["Cargo.toml"]), at(&["work", "app", "Cargo.toml"])];
    assert_eq!(
        get_pkg_metadata(at(&["work", "app", "src"]), &present),
        (Pipeline::ManifestFound, Action::ReadMetadata(at(&["work", "app", "Cargo.toml"])))
    );
    assert_eq!(
        get_pkg_metadata(at(&["work"]), &present),
        (Pipeline::ManifestFound, Action::ReadMetadata(at(&["Cargo.toml"])))
    );
}

#[test]
fn metadata_cannot_be_had_without_a_manifest() {
    assert_eq!(
        get_pkg_metadata(at(&["work", "app"]), &Vec::new()),
        (Pipeline::Failed, Action::Exit(Failure::ManifestNotFound))
    );
}
