//! The run as executable code: the caller performs each action that the
//! machine asks for and hands back what happened.

use vstd::prelude::*;
use vstd::string::*;
use crate::error::{IoOperation, ScaffoldError};
use crate::model;
use crate::model::{ActionView, Candidate, EventView, MaterializerView, PhaseView, StepView};
use crate::paths::{destination, installed_candidate, local_candidate};
use crate::request::{texts, CreationRequest, Template, GENERATOR};

verus! {

/// What the caller reports back after performing an action.
#[derive(Clone, Debug, PartialEq, Eq)]
pub enum Event {
    /// Answers `CheckTarget` and `Probe`: whether anything is at the path.
    Existence { exists: bool },
    /// Answers `RunGenerator`: the generator ran, ended with success or
    /// without, and wrote `stderr` to its standard error.
    GeneratorExited { success: bool, stderr: String },
    /// Answers `LocateExecutable`: the directory that holds the executable.
    ExecutableLocated { dir: String },
    /// Answers `LocateExecutable`: the executable's path has no directory
    /// above it.
    ExecutableWithoutParent,
    /// Answers `Read`: what the file holds.
    Contents { text: String },
    /// Answers `Write`: the file was written.
    Written,
    /// The action could not be performed; `cause` is what the system said.
    Failed { cause: String },
}

impl View for Event {
    type V = EventView;

    open spec fn view(&self) -> EventView {
        match self {
            Event::Existence { exists } => EventView::Existence { exists: *exists },
            Event::GeneratorExited { success, stderr } => EventView::GeneratorExited {
                success: *success,
                stderr: stderr@,
            },
            Event::ExecutableLocated { dir } => EventView::ExecutableLocated { dir: dir@ },
            Event::ExecutableWithoutParent => EventView::ExecutableWithoutParent,
            Event::Contents { text } => EventView::Contents { text: text@ },
            Event::Written => EventView::Written,
            Event::Failed { cause } => EventView::Failed { cause: cause@ },
        }
    }
}

/// What the machine asks the caller to do.
#[derive(Clone, Debug, PartialEq, Eq)]
pub enum Action {
    /// Find out whether anything exists at `path`, the path of the project.
    CheckTarget { path: String },
    /// Run `program` with `args`, wait for it, and capture its standard
    /// error.
    RunGenerator { program: String, args: Vec<String> },
    /// Find the directory that holds the running executable.
    LocateExecutable,
    /// Find out whether a template exists at `path`.
    Probe { path: String },
    /// Read the whole file at `path` as text.
    Read { path: String },
    /// Create or overwrite the file at `path` with `contents`.
    Write { path: String, contents: String },
    /// Nothing is left to do: the run succeeded.
    Finish,
    /// Nothing more is done: the run failed with `error`.
    Abort { error: ScaffoldError },
}

impl View for Action {
    type V = ActionView;

    open spec fn view(&self) -> ActionView {
        match self {
            Action::CheckTarget { path } => ActionView::CheckTarget { path: path@ },
            Action::RunGenerator { program, args } => ActionView::RunGenerator {
                program: program@,
                args: texts(args@),
            },
            Action::LocateExecutable => ActionView::LocateExecutable,
            Action::Probe { path } => ActionView::Probe { path: path@ },
            Action::Read { path } => ActionView::Read { path: path@ },
            Action::Write { path, contents } => ActionView::Write {
                path: path@,
                contents: contents@,
            },
            Action::Finish => ActionView::Finish,
            Action::Abort { error } => ActionView::Abort { error: error@ },
        }
    }
}

/// One answer of the machine: the lines to print, then the action to
/// perform.
#[derive(Clone, Debug, PartialEq, Eq)]
pub struct Step {
    pub lines: Vec<String>,
    pub action: Action,
}

impl View for Step {
    type V = StepView;

    open spec fn view(&self) -> StepView {
        StepView { lines: texts(self.lines@), action: self.action@ }
    }
}

/// What the machine is waiting for.
#[derive(Clone, Debug, PartialEq, Eq)]
enum Phase {
    AwaitingTargetCheck,
    AwaitingGenerator,
    AwaitingExecutable { template: Template },
    AwaitingProbe { template: Template, candidate: Candidate, path: String },
    AwaitingContents { template: Template, path: String },
    AwaitingWrite { template: Template, path: String },
    Finished,
}

impl View for Phase {
    type V = PhaseView;

    closed spec fn view(&self) -> PhaseView {
        match self {
            Phase::AwaitingTargetCheck => PhaseView::AwaitingTargetCheck,
            Phase::AwaitingGenerator => PhaseView::AwaitingGenerator,
            Phase::AwaitingExecutable { template } => PhaseView::AwaitingExecutable {
                template: *template,
            },
            Phase::AwaitingProbe { template, candidate, path } => PhaseView::AwaitingProbe {
                template: *template,
                candidate: *candidate,
                path: path@,
            },
            Phase::AwaitingContents { template, path } => PhaseView::AwaitingContents {
                template: *template,
                path: path@,
            },
            Phase::AwaitingWrite { template, path } => PhaseView::AwaitingWrite {
                template: *template,
                path: path@,
            },
            Phase::Finished => PhaseView::Finished,
        }
    }
}

/// The line printed once the generator has made the project.
pub fn created_line(project_name: &str) -> (line: String)
    ensures
        line@ == model::created_line(project_name@),
{
    let mut line = String::from_str("Created new Rust project: ");
    line.append(project_name);
    line
}

/// The line printed once `template` has been placed.
pub fn added_line(template: Template) -> (line: String)
    ensures
        line@ == model::added_line(template),
{
    let mut line = String::from_str("Added ");
    line.append(template.file_name());
    line.append(" configuration");
    line
}

/// The line printed at the end of a run that placed every file.
pub fn success_line(project_name: &str) -> (line: String)
    ensures
        line@ == model::success_line(project_name@),
{
    let mut line = String::from_str("Project '");
    line.append(project_name);
    line.append("' created successfully!");
    line
}

/// The template placed after `template`, if the request asks for another.
pub fn template_after(request: &CreationRequest, template: Template) -> (next: Option<Template>)
    ensures
        next == model::template_after(request@, template),
{
    match template {
        Template::Formatting => if request.include_clippy_config {
            Some(Template::Lint)
        } else {
            None
        },
        Template::Lint => None,
    }
}

/// Drives the creation of one project, step by step.
#[derive(Clone, Debug, PartialEq, Eq)]
pub struct Materializer {
    request: CreationRequest,
    phase: Phase,
}

impl View for Materializer {
    type V = MaterializerView;

    closed spec fn view(&self) -> MaterializerView {
        MaterializerView { request: self.request@, phase: self.phase@ }
    }
}

impl Materializer {
    /// Begins a run: the machine, and its first question.
    pub fn start(request: CreationRequest) -> (begun: (Materializer, Step))
        ensures
            (begun.0@, begun.1@) == model::start(request@),
            begun.0@.well_formed(),
    {
        let path = request.project_name.clone();
        let step = Step { lines: Vec::new(), action: Action::CheckTarget { path } };
        assert(step@.lines =~= seq![]);
        (Materializer { request, phase: Phase::AwaitingTargetCheck }, step)
    }

    /// The request that this run serves.
    pub fn request(&self) -> (request: &CreationRequest)
        ensures
            request@ == self@.request,
    {
        &self.request
    }

    /// Whether the run has ended, with success or without.
    pub fn is_finished(&self) -> (finished: bool)
        ensures
            finished == (self@.phase == PhaseView::Finished),
    {
        match &self.phase {
            Phase::Finished => true,
            _ => false,
        }
    }

    fn halt(request: CreationRequest, error: ScaffoldError) -> (next: (Materializer, Step))
        ensures
            next.0@ == (MaterializerView { request: request@, phase: PhaseView::Finished }),
            next.1@ == (StepView { lines: seq![], action: ActionView::Abort { error: error@ } }),
    {
        let step = Step { lines: Vec::new(), action: Action::Abort { error } };
        assert(step@.lines =~= seq![]);
        (Materializer { request, phase: Phase::Finished }, step)
    }

    fn ask(request: CreationRequest, phase: Phase, action: Action) -> (next: (Materializer, Step))
        ensures
            next.0@ == (MaterializerView { request: request@, phase: phase@ }),
            next.1@ == (StepView { lines: seq![], action: action@ }),
    {
        let step = Step { lines: Vec::new(), action };
        assert(step@.lines =~= seq![]);
        (Materializer { request, phase }, step)
    }

    fn begin_copy(request: CreationRequest, template: Template, line: String) -> (next: (
        Materializer,
        Step,
    ))
        ensures
            next.0@ == (MaterializerView {
                request: request@,
                phase: PhaseView::AwaitingExecutable { template },
            }),
            next.1@ == (StepView { lines: seq![line@], action: ActionView::LocateExecutable }),
    {
        let mut lines: Vec<String> = Vec::new();
        lines.push(line);
        let step = Step { lines, action: Action::LocateExecutable };
        assert(step@.lines =~= seq![line@]);
        (Materializer { request, phase: Phase::AwaitingExecutable { template } }, step)
    }

    /// Takes what happened when the caller performed the pending action, and
    /// says what to print and what to do next.
    pub fn advance(self, event: Event) -> (next: (Materializer, Step))
        ensures
            (next.0@, next.1@) == self@.advance(event@),
            self@.well_formed() ==> next.0@.well_formed(),
    {
        let Materializer { request, phase } = self;
        match phase {
            Phase::AwaitingTargetCheck => match event {
                Event::Existence { exists } => if exists {
                    let name = request.project_name.clone();
                    Self::halt(request, ScaffoldError::TargetExists { name })
                } else {
                    let args = request.generator_args();
                    let program = String::from_str(GENERATOR);
                    Self::ask(
                        request,
                        Phase::AwaitingGenerator,
                        Action::RunGenerator { program, args },
                    )
                },
                _ => Self::halt(request, ScaffoldError::OutOfTurn),
            },
            Phase::AwaitingGenerator => match event {
                Event::GeneratorExited { success, stderr } => if success {
                    let line = created_line(request.project_name.as_str());
                    Self::begin_copy(request, Template::Formatting, line)
                } else {
                    Self::halt(request, ScaffoldError::GeneratorFailed { stderr })
                },
                Event::Failed { cause } => Self::halt(
                    request,
                    ScaffoldError::GeneratorNotStarted { cause },
                ),
                _ => Self::halt(request, ScaffoldError::OutOfTurn),
            },
            Phase::AwaitingExecutable { template } => match event {
                Event::ExecutableLocated { dir } => {
                    let path = installed_candidate(dir.as_str(), template.file_name());
                    let probed = path.clone();
                    Self::ask(
                        request,
                        Phase::AwaitingProbe { template, candidate: Candidate::Installed, path },
                        Action::Probe { path: probed },
                    )
                },
                Event::ExecutableWithoutParent => Self::halt(
                    request,
                    ScaffoldError::ExecutableWithoutParent,
                ),
                Event::Failed { cause } => Self::halt(
                    request,
                    ScaffoldError::ExecutableUnknown { cause },
                ),
                _ => Self::halt(request, ScaffoldError::OutOfTurn),
            },
            Phase::AwaitingProbe { template, candidate, path } => match event {
                Event::Existence { exists } => if exists {
                    let found = path.clone();
                    Self::ask(
                        request,
                        Phase::AwaitingContents { template, path },
                        Action::Read { path: found },
                    )
                } else {
                    match candidate {
                        Candidate::Installed => {
                            let next = local_candidate(template.file_name());
                            let probed = next.clone();
                            Self::ask(
                                request,
                                Phase::AwaitingProbe {
                                    template,
                                    candidate: Candidate::Local,
                                    path: next,
                                },
                                Action::Probe { path: probed },
                            )
                        },
                        Candidate::Local => Self::halt(
                            request,
                            ScaffoldError::TemplateNotFound { template },
                        ),
                    }
                },
                _ => Self::halt(request, ScaffoldError::OutOfTurn),
            },
            Phase::AwaitingContents { template, path } => match event {
                Event::Contents { text } => {
                    let target = destination(request.project_name.as_str(), template.file_name());
                    let written = target.clone();
                    Self::ask(
                        request,
                        Phase::AwaitingWrite { template, path: target },
                        Action::Write { path: written, contents: text },
                    )
                },
                Event::Failed { cause } => Self::halt(
                    request,
                    ScaffoldError::Io { operation: IoOperation::Read, path, cause },
                ),
                _ => Self::halt(request, ScaffoldError::OutOfTurn),
            },
            Phase::AwaitingWrite { template, path } => match event {
                Event::Written => match template_after(&request, template) {
                    Some(next) => Self::begin_copy(request, next, added_line(template)),
                    None => {
                        let mut lines: Vec<String> = Vec::new();
                        lines.push(added_line(template));
                        lines.push(success_line(request.project_name.as_str()));
                        let step = Step { lines, action: Action::Finish };
                        assert(step@.lines =~= seq![
                            model::added_line(template),
                            model::success_line(request@.project_name),
                        ]);
                        (Materializer { request, phase: Phase::Finished }, step)
                    },
                },
                Event::Failed { cause } => Self::halt(
                    request,
                    ScaffoldError::Io { operation: IoOperation::Write, path, cause },
                ),
                _ => Self::halt(request, ScaffoldError::OutOfTurn),
            },
            Phase::Finished => Self::halt(request, ScaffoldError::OutOfTurn),
        }
    }
}

} // verus!
