use std::collections::{BTreeMap, BTreeSet};

use newx::error::ScaffoldError;
use newx::machine::{Action, Event, Materializer};
use newx::request::CreationRequest;

/// A file system and a generator that live in memory.
#[derive(Clone, Debug, PartialEq, Eq)]
struct World {
    exe_dir: String,
    directories: BTreeSet<String>,
    files: BTreeMap<String, String>,
    generator_fails_with: Option<String>,
    generated: Vec<Vec<String>>,
    printed: Vec<String>,
}

impl World {
    fn new(exe_dir: &str) -> World {
        World {
            exe_dir: String::from(exe_dir),
            directories: BTreeSet::new(),
            files: BTreeMap::new(),
            generator_fails_with: None,
            generated: Vec::new(),
            printed: Vec::new(),
        }
    }

    fn with_file(mut self, path: &str, text: &str) -> World {
        self.files.insert(String::from(path), String::from(text));
        self
    }

    fn holds(&self, path: &str) -> bool {
        self.directories.contains(path) || self.files.contains_key(path)
    }

    fn perform(&mut self, action: Action) -> Event {
        match action {
            Action::CheckTarget { path } | Action::Probe { path } => {
                Event::Existence { exists: self.holds(&path) }
            },
            Action::RunGenerator { program, args } => {
                assert_eq!(program, "cargo");
                assert_eq!(args[0], "new");
                self.generated.push(args.clone());
                match &self.generator_fails_with {
                    Some(stderr) => Event::GeneratorExited { success: false, stderr: stderr.clone() },
                    None => {
                        self.directories.insert(args[1].clone());
                        let main = if args.len() > 2 { "src/lib.rs" } else { "src/main.rs" };
                        self.files.insert(format!("{}/{}", args[1], main), String::new());
                        Event::GeneratorExited { success: true, stderr: String::new() }
                    },
                }
            },
            Action::LocateExecutable => Event::ExecutableLocated { dir: self.exe_dir.clone() },
            Action::Read { path } => match self.files.get(&path) {
                Some(text) => Event::Contents { text: text.clone() },
                None => Event::Failed { cause: String::from("not found") },
            },
            Action::Write { path, contents } => {
                self.files.insert(path, contents);
                Event::Written
            },
            Action::Finish | Action::Abort { .. } => unreachable!(),
        }
    }

    fn run(&mut self, name: &str, lib: bool, clippy: bool, all: bool) -> Result<(), ScaffoldError> {
        let request = CreationRequest::new(String::from(name), lib, clippy, all);
        let (mut machine, mut step) = Materializer::start(request);
        loop {
            self.printed.extend(step.lines);
            let event = match step.action {
                Action::Finish => return Ok(()),
                Action::Abort { error } => return Err(error),
                action => self.perform(action),
            };
            let next = machine.advance(event);
            machine = next.0;
            step = next.1;
        }
    }
}

fn installed() -> World {
    World::new("/opt/newx/bin")
        .with_file("/opt/newx/bin/../templates/rustfmt.toml", "max_width = 100\n")
        .with_file("/opt/newx/bin/../templates/clippy.toml", "msrv = \"1.70\"\n")
}

fn checked_out() -> World {
    World::new("/work/target/debug")
        .with_file("templates/rustfmt.toml", "edition = \"2021\"\n")
        .with_file("templates/clippy.toml", "too-many-arguments-threshold = 8\n")
}

#[test]
fn demo_gets_the_formatting_config() {
    let mut world = installed();
    assert_eq!(world.run("demo", false, false, false), Ok(()));
    assert_eq!(world.generated, vec![vec![String::from("new"), String::from("demo")]]);
    assert!(world.holds("demo"));
    assert!(world.holds("demo/src/main.rs"));
    assert_eq!(world.files.get("demo/rustfmt.toml"), Some(&String::from("max_width = 100\n")));
    assert!(!world.holds("demo/clippy.toml"));
    assert_eq!(
        world.printed,
        vec![
            String::from("Created new Rust project: demo"),
            String::from("Added rustfmt.toml configuration"),
            String::from("Project 'demo' created successfully!"),
        ]
    );
}

#[test]
fn demo_lib_all_gets_both_configs() {
    let mut world = installed();
    assert_eq!(world.run("demo", true, false, true), Ok(()));
    assert_eq!(
        world.generated,
        vec![vec![String::from("new"), String::from("demo"), String::from("--lib")]]
    );
    assert!(world.holds("demo/src/lib.rs"));
    assert_eq!(world.files.get("demo/rustfmt.toml"), Some(&String::from("max_width = 100\n")));
    assert_eq!(world.files.get("demo/clippy.toml"), Some(&String::from("msrv = \"1.70\"\n")));
    assert_eq!(
        world.printed,
        vec![
            String::from("Created new Rust project: demo"),
            String::from("Added rustfmt.toml configuration"),
            String::from("Added clippy.toml configuration"),
            String::from("Project 'demo' created successfully!"),
        ]
    );
}

#[test]
fn clippy_and_all_place_the_same_files() {
    let mut by_clippy = installed();
    let mut by_all = installed();
    assert_eq!(by_clippy.run("demo", false, true, false), Ok(()));
    assert_eq!(by_all.run("demo", false, false, true), Ok(()));
    assert_eq!(by_clippy, by_all);
    assert!(by_clippy.holds("demo/clippy.toml"));
}

#[test]
fn templates_of_the_working_directory_serve_as_fallback() {
    let mut world = checked_out();
    assert_eq!(world.run("demo", false, true, false), Ok(()));
    assert_eq!(world.files.get("demo/rustfmt.toml"), Some(&String::from("edition = \"2021\"\n")));
    assert_eq!(
        world.files.get("demo/clippy.toml"),
        Some(&String::from("too-many-arguments-threshold = 8\n"))
    );
}

#[test]
fn installed_templates_win_over_those_of_the_working_directory() {
    let mut world = installed().with_file("templates/rustfmt.toml", "edition = \"2021\"\n");
    assert_eq!(world.run("demo", false, false, false), Ok(()));
    assert_eq!(world.files.get("demo/rustfmt.toml"), Some(&String::from("max_width = 100\n")));
}

#[test]
fn existing_directory_is_left_alone() {
    let mut world = installed();
    world.directories.insert(String::from("demo"));
    let before = world.clone();
    assert_eq!(
        world.run("demo", false, true, false),
        Err(ScaffoldError::TargetExists { name: String::from("demo") })
    );
    assert_eq!(world, before);
}

#[test]
fn existing_file_is_left_alone() {
    let mut world = installed().with_file("demo", "notes");
    let before = world.clone();
    assert_eq!(
        world.run("demo", true, false, false),
        Err(ScaffoldError::TargetExists { name: String::from("demo") })
    );
    assert_eq!(world, before);
}

#[test]
fn second_run_is_refused_and_changes_nothing() {
    let mut world = installed();
    assert_eq!(world.run("demo", false, false, false), Ok(()));
    let after_first = world.clone();
    assert_eq!(
        world.run("demo", false, true, false),
        Err(ScaffoldError::TargetExists { name: String::from("demo") })
    );
    assert_eq!(world, after_first);
    assert!(!world.holds("demo/clippy.toml"));
}

#[test]
fn failed_generator_leaves_no_config() {
    let mut world = installed();
    world.generator_fails_with = Some(String::from("error: `demo` is not a valid name\n"));
    let result = world.run("demo", false, false, true);
    assert_eq!(
        result,
        Err(ScaffoldError::GeneratorFailed {
            stderr: String::from("error: `demo` is not a valid name\n"),
        })
    );
    assert!(result.unwrap_err().message().contains("error: `demo` is not a valid name\n"));
    assert_eq!(world.generated.len(), 1);
    assert!(!world.holds("demo/rustfmt.toml"));
    assert!(!world.holds("demo/clippy.toml"));
    assert!(world.printed.is_empty());
}

#[test]
fn missing_templates_leave_the_generated_project() {
    let mut world = World::new("/opt/newx/bin");
    assert_eq!(
        world.run("demo", false, true, false),
        Err(ScaffoldError::TemplateNotFound { template: newx::request::Template::Formatting })
    );
    assert!(world.holds("demo"));
    assert!(world.holds("demo/src/main.rs"));
    assert!(!world.holds("demo/rustfmt.toml"));
    assert_eq!(world.printed, vec![String::from("Created new Rust project: demo")]);
}

#[test]
fn missing_lint_template_leaves_the_formatting_config() {
    let mut world = World::new("/opt/newx/bin")
        .with_file("/opt/newx/bin/../templates/rustfmt.toml", "max_width = 100\n");
    assert_eq!(
        world.run("demo", false, false, true),
        Err(ScaffoldError::TemplateNotFound { template: newx::request::Template::Lint })
    );
    assert_eq!(world.files.get("demo/rustfmt.toml"), Some(&String::from("max_width = 100\n")));
    assert!(!world.holds("demo/clippy.toml"));
    assert_eq!(
        world.printed,
        vec![
            String::from("Created new Rust project: demo"),
            String::from("Added rustfmt.toml configuration"),
        ]
    );
}
