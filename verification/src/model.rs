//! The run as a state machine over mathematical values: what the machine
//! asks for next, given what it was told.

use vstd::prelude::*;
use crate::error::{IoOperation, ScaffoldErrorView};
use crate::paths::{spec_destination, spec_installed_candidate, spec_local_candidate};
use crate::request::{CreationRequestView, Template, GENERATOR};

verus! {

/// A place where a template is looked for. They are tried in this order.
#[derive(Clone, Copy, Debug, PartialEq, Eq, Structural)]
pub enum Candidate {
    /// Beside the running executable.
    Installed,
    /// Below the working directory.
    Local,
}

/// What the caller reports back after performing an action.
pub enum EventView {
    Existence { exists: bool },
    GeneratorExited { success: bool, stderr: Seq<char> },
    ExecutableLocated { dir: Seq<char> },
    ExecutableWithoutParent,
    Contents { text: Seq<char> },
    Written,
    Failed { cause: Seq<char> },
}

/// What the machine asks the caller to do.
pub enum ActionView {
    CheckTarget { path: Seq<char> },
    RunGenerator { program: Seq<char>, args: Seq<Seq<char>> },
    LocateExecutable,
    Probe { path: Seq<char> },
    Read { path: Seq<char> },
    Write { path: Seq<char>, contents: Seq<char> },
    Finish,
    Abort { error: ScaffoldErrorView },
}

/// One answer of the machine: the lines to print, then the action to
/// perform.
pub struct StepView {
    pub lines: Seq<Seq<char>>,
    pub action: ActionView,
}

/// What the machine is waiting for.
pub enum PhaseView {
    AwaitingTargetCheck,
    AwaitingGenerator,
    AwaitingExecutable { template: Template },
    AwaitingProbe { template: Template, candidate: Candidate, path: Seq<char> },
    AwaitingContents { template: Template, path: Seq<char> },
    AwaitingWrite { template: Template, path: Seq<char> },
    Finished,
}

/// The machine between two steps.
pub struct MaterializerView {
    pub request: CreationRequestView,
    pub phase: PhaseView,
}

/// The line printed once the generator has made the project.
pub open spec fn created_line(project_name: Seq<char>) -> Seq<char> {
    "Created new Rust project: "@ + project_name
}

/// The line printed once `template` has been placed.
pub open spec fn added_line(template: Template) -> Seq<char> {
    "Added "@ + template.spec_file_name() + " configuration"@
}

/// The line printed at the end of a run that placed every file.
pub open spec fn success_line(project_name: Seq<char>) -> Seq<char> {
    "Project '"@ + project_name + "' created successfully!"@
}

/// The template placed after `template`, if the request asks for another.
pub open spec fn template_after(request: CreationRequestView, template: Template) -> Option<
    Template,
> {
    match template {
        Template::Formatting => if request.include_clippy_config {
            Some(Template::Lint)
        } else {
            None
        },
        Template::Lint => None,
    }
}

impl MaterializerView {
    /// The machine in another phase.
    pub open spec fn at(self, phase: PhaseView) -> MaterializerView {
        MaterializerView { request: self.request, phase }
    }

    /// The run ends here with `error`.
    pub open spec fn halt(self, error: ScaffoldErrorView) -> (MaterializerView, StepView) {
        (self.at(PhaseView::Finished), StepView { lines: seq![], action: ActionView::Abort { error } })
    }

    /// The machine goes on to `phase` and asks for `action`, with nothing to
    /// print.
    pub open spec fn ask(self, phase: PhaseView, action: ActionView) -> (
        MaterializerView,
        StepView,
    ) {
        (self.at(phase), StepView { lines: seq![], action })
    }

    /// The copy of `template` begins, after printing `lines`: the first thing
    /// to find out is where the executable is.
    pub open spec fn begin_copy(self, template: Template, lines: Seq<Seq<char>>) -> (
        MaterializerView,
        StepView,
    ) {
        (
            self.at(PhaseView::AwaitingExecutable { template }),
            StepView { lines, action: ActionView::LocateExecutable },
        )
    }

    /// The machine is told whether the path of the project is taken.
    pub open spec fn on_target_checked(self, event: EventView) -> (MaterializerView, StepView) {
        match event {
            EventView::Existence { exists } => if exists {
                self.halt(ScaffoldErrorView::TargetExists { name: self.request.project_name })
            } else {
                self.ask(
                    PhaseView::AwaitingGenerator,
                    ActionView::RunGenerator {
                        program: GENERATOR@,
                        args: self.request.generator_args(),
                    },
                )
            },
            _ => self.halt(ScaffoldErrorView::OutOfTurn),
        }
    }

    /// The machine is told how the generator ended.
    pub open spec fn on_generator(self, event: EventView) -> (MaterializerView, StepView) {
        match event {
            EventView::GeneratorExited { success, stderr } => if success {
                self.begin_copy(Template::Formatting, seq![created_line(self.request.project_name)])
            } else {
                self.halt(ScaffoldErrorView::GeneratorFailed { stderr })
            },
            EventView::Failed { cause } => self.halt(ScaffoldErrorView::GeneratorNotStarted { cause }),
            _ => self.halt(ScaffoldErrorView::OutOfTurn),
        }
    }

    /// The machine is told where the executable is.
    pub open spec fn on_executable(self, template: Template, event: EventView) -> (
        MaterializerView,
        StepView,
    ) {
        match event {
            EventView::ExecutableLocated { dir } => {
                let path = spec_installed_candidate(dir, template.spec_file_name());
                self.ask(
                    PhaseView::AwaitingProbe { template, candidate: Candidate::Installed, path },
                    ActionView::Probe { path },
                )
            },
            EventView::ExecutableWithoutParent => self.halt(
                ScaffoldErrorView::ExecutableWithoutParent,
            ),
            EventView::Failed { cause } => self.halt(ScaffoldErrorView::ExecutableUnknown { cause }),
            _ => self.halt(ScaffoldErrorView::OutOfTurn),
        }
    }

    /// The machine is told whether the template is at `path`, the place of
    /// `candidate`.
    pub open spec fn on_probe(
        self,
        template: Template,
        candidate: Candidate,
        path: Seq<char>,
        event: EventView,
    ) -> (MaterializerView, StepView) {
        match event {
            EventView::Existence { exists } => if exists {
                self.ask(PhaseView::AwaitingContents { template, path }, ActionView::Read { path })
            } else {
                match candidate {
                    Candidate::Installed => {
                        let next = spec_local_candidate(template.spec_file_name());
                        self.ask(
                            PhaseView::AwaitingProbe {
                                template,
                                candidate: Candidate::Local,
                                path: next,
                            },
                            ActionView::Probe { path: next },
                        )
                    },
                    Candidate::Local => self.halt(ScaffoldErrorView::TemplateNotFound { template }),
                }
            },
            _ => self.halt(ScaffoldErrorView::OutOfTurn),
        }
    }

    /// The machine is handed what the template at `path` holds.
    pub open spec fn on_contents(self, template: Template, path: Seq<char>, event: EventView) -> (
        MaterializerView,
        StepView,
    ) {
        match event {
            EventView::Contents { text } => {
                let target = spec_destination(self.request.project_name, template.spec_file_name());
                self.ask(
                    PhaseView::AwaitingWrite { template, path: target },
                    ActionView::Write { path: target, contents: text },
                )
            },
            EventView::Failed { cause } => self.halt(
                ScaffoldErrorView::Io { operation: IoOperation::Read, path, cause },
            ),
            _ => self.halt(ScaffoldErrorView::OutOfTurn),
        }
    }

    /// The machine is told whether the file at `path` was written.
    pub open spec fn on_written(self, template: Template, path: Seq<char>, event: EventView) -> (
        MaterializerView,
        StepView,
    ) {
        match event {
            EventView::Written => match template_after(self.request, template) {
                Some(next) => self.begin_copy(next, seq![added_line(template)]),
                None => (
                    self.at(PhaseView::Finished),
                    StepView {
                        lines: seq![added_line(template), success_line(self.request.project_name)],
                        action: ActionView::Finish,
                    },
                ),
            },
            EventView::Failed { cause } => self.halt(
                ScaffoldErrorView::Io { operation: IoOperation::Write, path, cause },
            ),
            _ => self.halt(ScaffoldErrorView::OutOfTurn),
        }
    }

    /// The machine's answer to `event`: its next state, and what it asks for.
    ///
    /// An event that does not answer the pending action ends the run, and so
    /// does any event after the run has ended.
    pub open spec fn advance(self, event: EventView) -> (MaterializerView, StepView) {
        match self.phase {
            PhaseView::AwaitingTargetCheck => self.on_target_checked(event),
            PhaseView::AwaitingGenerator => self.on_generator(event),
            PhaseView::AwaitingExecutable { template } => self.on_executable(template, event),
            PhaseView::AwaitingProbe { template, candidate, path } => self.on_probe(
                template,
                candidate,
                path,
                event,
            ),
            PhaseView::AwaitingContents { template, path } => self.on_contents(
                template,
                path,
                event,
            ),
            PhaseView::AwaitingWrite { template, path } => self.on_written(template, path, event),
            PhaseView::Finished => self.halt(ScaffoldErrorView::OutOfTurn),
        }
    }

    /// The template that is being copied, if one is.
    pub open spec fn template(self) -> Option<Template> {
        match self.phase {
            PhaseView::AwaitingExecutable { template } => Some(template),
            PhaseView::AwaitingProbe { template, .. } => Some(template),
            PhaseView::AwaitingContents { template, .. } => Some(template),
            PhaseView::AwaitingWrite { template, .. } => Some(template),
            _ => None,
        }
    }

    /// The machine only ever copies a template that the request places.
    pub open spec fn well_formed(self) -> bool {
        match self.template() {
            Some(template) => self.request.places(template),
            None => true,
        }
    }
}

/// The machine at the start of a run, and its first question: is the path of
/// the project taken?
pub open spec fn start(request: CreationRequestView) -> (MaterializerView, StepView) {
    (
        MaterializerView { request, phase: PhaseView::AwaitingTargetCheck },
        StepView { lines: seq![], action: ActionView::CheckTarget { path: request.project_name } },
    )
}

} // verus!
