//! What the user asked for.

use vstd::prelude::*;
use vstd::string::*;

verus! {

/// The program that scaffolds the base project.
pub const GENERATOR: &'static str = "cargo";

/// A configuration file that is copied into a new project.
#[derive(Clone, Copy, Debug, PartialEq, Eq, Structural)]
pub enum Template {
    /// The formatting configuration, placed in every project.
    Formatting,
    /// The lint configuration, placed on request.
    Lint,
}

impl Template {
    /// The name of the file, both among the templates and in the project.
    pub open spec fn spec_file_name(self) -> Seq<char> {
        match self {
            Template::Formatting => "rustfmt.toml"@,
            Template::Lint => "clippy.toml"@,
        }
    }

    /// The name of the file, both among the templates and in the project.
    pub fn file_name(self) -> (name: &'static str)
        ensures
            name@ == self.spec_file_name(),
    {
        match self {
            Template::Formatting => "rustfmt.toml",
            Template::Lint => "clippy.toml",
        }
    }
}

/// The texts that a sequence of strings holds, in order.
pub open spec fn texts(strings: Seq<String>) -> Seq<Seq<char>> {
    Seq::new(strings.len(), |i: int| strings[i]@)
}

/// A request to create one project, as mathematics sees it.
pub struct CreationRequestView {
    pub project_name: Seq<char>,
    pub is_library: bool,
    pub include_clippy_config: bool,
}

impl CreationRequestView {
    /// The request that the command line's project name and three flags
    /// stand for: either of `clippy` and `all` asks for the lint
    /// configuration.
    pub open spec fn from_flags(project_name: Seq<char>, lib: bool, clippy: bool, all: bool) -> Self {
        CreationRequestView {
            project_name,
            is_library: lib,
            include_clippy_config: clippy || all,
        }
    }

    /// The arguments handed to the generator.
    pub open spec fn generator_args(self) -> Seq<Seq<char>> {
        if self.is_library {
            seq!["new"@, self.project_name, "--lib"@]
        } else {
            seq!["new"@, self.project_name]
        }
    }

    /// The templates to place, in the order in which they are placed.
    pub open spec fn templates(self) -> Seq<Template> {
        if self.include_clippy_config {
            seq![Template::Formatting, Template::Lint]
        } else {
            seq![Template::Formatting]
        }
    }

    /// Whether `template` is among those to place.
    pub open spec fn places(self, template: Template) -> bool {
        template == Template::Formatting || self.include_clippy_config
    }
}

/// A request to create one project.
#[derive(Clone, Debug, PartialEq, Eq)]
pub struct CreationRequest {
    /// The name of the project, which is also the path of its directory.
    pub project_name: String,
    /// Whether a library is generated, not an executable.
    pub is_library: bool,
    /// Whether the lint configuration is placed too.
    pub include_clippy_config: bool,
}

impl View for CreationRequest {
    type V = CreationRequestView;

    open spec fn view(&self) -> CreationRequestView {
        CreationRequestView {
            project_name: self.project_name@,
            is_library: self.is_library,
            include_clippy_config: self.include_clippy_config,
        }
    }
}

impl CreationRequest {
    /// The request that a project name and the flags `--lib`, `--clippy` and
    /// `--all` stand for.
    pub fn new(project_name: String, lib: bool, clippy: bool, all: bool) -> (request: Self)
        ensures
            request@ == CreationRequestView::from_flags(project_name@, lib, clippy, all),
    {
        CreationRequest { project_name, is_library: lib, include_clippy_config: clippy || all }
    }

    /// The arguments handed to the generator.
    pub fn generator_args(&self) -> (args: Vec<String>)
        ensures
            texts(args@) == self@.generator_args(),
    {
        let mut args: Vec<String> = Vec::new();
        args.push(String::from_str("new"));
        args.push(self.project_name.clone());
        if self.is_library {
            args.push(String::from_str("--lib"));
        }
        assert(texts(args@) =~= self@.generator_args());
        args
    }

    /// The templates to place, in the order in which they are placed.
    pub fn templates(&self) -> (templates: Vec<Template>)
        ensures
            templates@ == self@.templates(),
    {
        let mut templates: Vec<Template> = Vec::new();
        templates.push(Template::Formatting);
        if self.include_clippy_config {
            templates.push(Template::Lint);
        }
        assert(templates@ =~= self@.templates());
        templates
    }

    /// Whether `template` is among those to place.
    pub fn places(&self, template: Template) -> (placed: bool)
        ensures
            placed == self@.places(template),
    {
        match template {
            Template::Formatting => true,
            Template::Lint => self.include_clippy_config,
        }
    }
}

/// Asking for the lint configuration by `--clippy`, by `--all` or by both
/// makes one and the same request.
pub proof fn lint_flags_agree(project_name: Seq<char>, lib: bool)
    ensures
        CreationRequestView::from_flags(project_name, lib, true, false)
            == CreationRequestView::from_flags(project_name, lib, false, true),
        CreationRequestView::from_flags(project_name, lib, true, false)
            == CreationRequestView::from_flags(project_name, lib, true, true),
        CreationRequestView::from_flags(project_name, lib, false, false).templates()
            == seq![Template::Formatting],
        CreationRequestView::from_flags(project_name, lib, true, false).templates()
            == seq![Template::Formatting, Template::Lint],
{
}

} // verus!
