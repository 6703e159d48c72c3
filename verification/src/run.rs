//! Whole runs of the machine, and what holds of every one of them.

use vstd::prelude::*;
use crate::error::ScaffoldErrorView;
use crate::model::{
    added_line, created_line, start, success_line, ActionView, Candidate, EventView,
    MaterializerView, PhaseView, StepView,
};
use crate::paths::{spec_destination, spec_installed_candidate, spec_local_candidate};
use crate::request::{CreationRequestView, Template, GENERATOR};

verus! {

/// The machine `machine` after it was told `events`, one after the other.
pub open spec fn state_after(machine: MaterializerView, events: Seq<EventView>) -> MaterializerView
    decreases events.len(),
{
    if events.len() == 0 {
        machine
    } else {
        state_after(machine, events.drop_last()).advance(events.last()).0
    }
}

/// The state of a run for `request` just before it is told the event at
/// `index` of `events`.
pub open spec fn state_at(
    request: CreationRequestView,
    events: Seq<EventView>,
    index: int,
) -> MaterializerView {
    state_after(start(request).0, events.take(index))
}

/// What a run for `request` answers to the event at `index` of `events`.
pub open spec fn answer_at(
    request: CreationRequestView,
    events: Seq<EventView>,
    index: int,
) -> StepView {
    state_at(request, events, index).advance(events[index]).1
}

/// Whether `action` changes anything outside the machine: it runs the
/// generator or writes a file.
pub open spec fn has_effect(action: ActionView) -> bool {
    action is RunGenerator || action is Write
}

/// Whether `action` is part of copying a template.
pub open spec fn copies(action: ActionView) -> bool {
    action is LocateExecutable || action is Probe || action is Read || action is Write
}

/// A run begins in the state that `start` gives, and each event moves it on
/// by one step of the machine.
pub proof fn run_unfolds(request: CreationRequestView, events: Seq<EventView>, index: int)
    requires
        0 <= index < events.len(),
    ensures
        state_at(request, events, 0) == start(request).0,
        state_at(request, events, index + 1) == state_at(request, events, index).advance(
            events[index],
        ).0,
{
    assert(events.take(0).len() == 0);
    assert(events.take(index + 1).drop_last() =~= events.take(index));
    assert(events.take(index + 1).last() == events[index]);
}

/// The request never changes during a run, and the machine only ever copies
/// a template that the request places.
pub proof fn run_keeps_request(request: CreationRequestView, events: Seq<EventView>, index: int)
    requires
        0 <= index <= events.len(),
    ensures
        state_at(request, events, index).request == request,
        state_at(request, events, index).well_formed(),
    decreases index,
{
    if index > 0 {
        run_keeps_request(request, events, index - 1);
        run_unfolds(request, events, index - 1);
    } else {
        assert(events.take(0).len() == 0);
    }
}

/// Once a run has ended it stays ended: every later event is answered by an
/// abort, with nothing printed.
pub proof fn ended_run_stays_ended(
    request: CreationRequestView,
    events: Seq<EventView>,
    ended: int,
    index: int,
)
    requires
        0 <= ended <= index < events.len(),
        state_at(request, events, ended).phase == PhaseView::Finished,
    ensures
        state_at(request, events, index).phase == PhaseView::Finished,
        answer_at(request, events, index) == (StepView {
            lines: seq![],
            action: ActionView::Abort { error: ScaffoldErrorView::OutOfTurn },
        }),
    decreases index - ended,
{
    if ended < index {
        ended_run_stays_ended(request, events, ended, index - 1);
        run_unfolds(request, events, index - 1);
    }
}

/// Whether the first two events of `events` say that the path of the project
/// was free and that the generator ran with success.
pub open spec fn generated(events: Seq<EventView>) -> bool {
    &&& events.len() >= 2
    &&& events[0] == (EventView::Existence { exists: false })
    &&& events[1] is GeneratorExited
    &&& events[1]->success
}

/// What the state before the event at `index` tells of the events and
/// answers that led to it.
spec fn remembers(request: CreationRequestView, events: Seq<EventView>, index: int) -> bool {
    let name = request.project_name;
    match state_at(request, events, index).phase {
        PhaseView::AwaitingTargetCheck => index == 0,
        PhaseView::AwaitingGenerator => index == 1 && events[0] == (EventView::Existence {
            exists: false,
        }),
        PhaseView::AwaitingExecutable { .. } => index >= 2 && generated(events),
        PhaseView::AwaitingProbe { template, candidate, path } => {
            &&& generated(events)
            &&& answer_at(request, events, index - 1).action == (ActionView::Probe { path })
            &&& match candidate {
                Candidate::Installed => {
                    &&& index >= 3
                    &&& events[index - 1] is ExecutableLocated
                    &&& path == spec_installed_candidate(
                        events[index - 1]->dir,
                        template.spec_file_name(),
                    )
                },
                Candidate::Local => {
                    &&& index >= 4
                    &&& events[index - 1] == (EventView::Existence { exists: false })
                    &&& path == spec_local_candidate(template.spec_file_name())
                    &&& events[index - 2] is ExecutableLocated
                    &&& answer_at(request, events, index - 2).action == (ActionView::Probe {
                        path: spec_installed_candidate(
                            events[index - 2]->dir,
                            template.spec_file_name(),
                        ),
                    })
                },
            }
        },
        PhaseView::AwaitingContents { path, .. } => {
            &&& index >= 4
            &&& generated(events)
            &&& events[index - 1] == (EventView::Existence { exists: true })
            &&& answer_at(request, events, index - 1).action == (ActionView::Read { path })
            &&& answer_at(request, events, index - 2).action == (ActionView::Probe { path })
        },
        PhaseView::AwaitingWrite { template, path } => {
            &&& index >= 5
            &&& generated(events)
            &&& path == spec_destination(name, template.spec_file_name())
            &&& events[index - 1] is Contents
            &&& answer_at(request, events, index - 1).action == (ActionView::Write {
                path,
                contents: events[index - 1]->text,
            })
        },
        PhaseView::Finished => true,
    }
}

proof fn run_remembers(request: CreationRequestView, events: Seq<EventView>, index: int)
    requires
        0 <= index <= events.len(),
    ensures
        remembers(request, events, index),
        state_at(request, events, index).request == request,
        state_at(request, events, index).well_formed(),
    decreases index,
{
    run_keeps_request(request, events, index);
    if index == 0 {
        assert(events.take(0).len() == 0);
    } else {
        run_remembers(request, events, index - 1);
        run_unfolds(request, events, index - 1);
        if index >= 2 {
            run_unfolds(request, events, index - 2);
        }
    }
}

/// The generator is run at most once, as the answer to the very first
/// event, and only when that event says that nothing is at the project's
/// path. It is handed the request's arguments.
pub proof fn generator_needs_free_target(
    request: CreationRequestView,
    events: Seq<EventView>,
    index: int,
)
    requires
        0 <= index < events.len(),
        answer_at(request, events, index).action is RunGenerator,
    ensures
        index == 0,
        events[0] == (EventView::Existence { exists: false }),
        answer_at(request, events, index) == (StepView {
            lines: seq![],
            action: ActionView::RunGenerator {
                program: GENERATOR@,
                args: request.generator_args(),
            },
        }),
{
    run_remembers(request, events, index);
}

/// If something is at the project's path, the run ends at once with that
/// error: the generator is never run and no file is ever written, whatever
/// is reported afterwards.
pub proof fn occupied_target_stops_run(
    request: CreationRequestView,
    events: Seq<EventView>,
    index: int,
)
    requires
        0 <= index < events.len(),
        events[0] == (EventView::Existence { exists: true }),
    ensures
        answer_at(request, events, 0) == (StepView {
            lines: seq![],
            action: ActionView::Abort {
                error: ScaffoldErrorView::TargetExists { name: request.project_name },
            },
        }),
        answer_at(request, events, index).action is Abort,
        !has_effect(answer_at(request, events, index).action),
        !copies(answer_at(request, events, index).action),
{
    run_unfolds(request, events, 0);
    if index > 0 {
        ended_run_stays_ended(request, events, 1, index);
    }
}

/// No part of a copy is asked for unless the project's path was free and the
/// generator ran with success.
pub proof fn copies_need_generated_project(
    request: CreationRequestView,
    events: Seq<EventView>,
    index: int,
)
    requires
        0 <= index < events.len(),
        copies(answer_at(request, events, index).action),
    ensures
        index >= 1,
        generated(events),
{
    run_remembers(request, events, index);
}

/// If the generator reports failure, the run ends with an error that
/// carries what the generator wrote to its standard error, and no part of a
/// copy is ever asked for.
pub proof fn failed_generator_stops_run(
    request: CreationRequestView,
    events: Seq<EventView>,
    stderr: Seq<char>,
    index: int,
)
    requires
        0 <= index < events.len(),
        events.len() >= 2,
        events[0] == (EventView::Existence { exists: false }),
        events[1] == (EventView::GeneratorExited { success: false, stderr }),
    ensures
        answer_at(request, events, 1) == (StepView {
            lines: seq![],
            action: ActionView::Abort { error: ScaffoldErrorView::GeneratorFailed { stderr } },
        }),
        !copies(answer_at(request, events, index).action),
        !(answer_at(request, events, index).action is Write),
{
    run_unfolds(request, events, 0);
    run_unfolds(request, events, 1);
    if copies(answer_at(request, events, index).action) {
        copies_need_generated_project(request, events, index);
    }
}

/// If the generator cannot be launched, the run ends with that error and
/// its cause.
pub proof fn unlaunched_generator_stops_run(
    request: CreationRequestView,
    events: Seq<EventView>,
    cause: Seq<char>,
    index: int,
)
    requires
        0 <= index < events.len(),
        events.len() >= 2,
        events[0] == (EventView::Existence { exists: false }),
        events[1] == (EventView::Failed { cause }),
    ensures
        answer_at(request, events, 1) == (StepView {
            lines: seq![],
            action: ActionView::Abort { error: ScaffoldErrorView::GeneratorNotStarted { cause } },
        }),
        !copies(answer_at(request, events, index).action),
{
    run_unfolds(request, events, 0);
    run_unfolds(request, events, 1);
    if copies(answer_at(request, events, index).action) {
        copies_need_generated_project(request, events, index);
    }
}

/// The two configuration files never share a path in one project.
pub proof fn destinations_differ(project_name: Seq<char>)
    ensures
        spec_destination(project_name, Template::Formatting.spec_file_name()) != spec_destination(
            project_name,
            Template::Lint.spec_file_name(),
        ),
{
    reveal_strlit("rustfmt.toml");
    reveal_strlit("clippy.toml");
    let formatting = spec_destination(project_name, Template::Formatting.spec_file_name());
    let lint = spec_destination(project_name, Template::Lint.spec_file_name());
    assert(formatting.len() == lint.len() + 1);
}

/// Every file that is written is a verbatim copy: the machine asks for it
/// in answer to the contents it was handed, passes those contents on
/// unchanged, and puts them at the project's path for a template that the
/// request places.
pub proof fn writes_are_verbatim(request: CreationRequestView, events: Seq<EventView>, index: int)
    requires
        0 <= index < events.len(),
        answer_at(request, events, index).action is Write,
    ensures
        events[index] is Contents,
        exists|template: Template|
            request.places(template) && answer_at(request, events, index) == (StepView {
                lines: seq![],
                action: ActionView::Write {
                    path: spec_destination(request.project_name, #[trigger] template.spec_file_name()),
                    contents: events[index]->text,
                },
            }),
{
    run_remembers(request, events, index);
    let template = state_at(request, events, index).template().unwrap();
    assert(request.places(template) && answer_at(request, events, index) == (StepView {
        lines: seq![],
        action: ActionView::Write {
            path: spec_destination(request.project_name, template.spec_file_name()),
            contents: events[index]->text,
        },
    }));
}

/// Unless the request asks for it, the lint configuration is never written:
/// the only path written to is that of the formatting configuration.
pub proof fn lint_config_needs_request(
    request: CreationRequestView,
    events: Seq<EventView>,
    index: int,
)
    requires
        !request.include_clippy_config,
        0 <= index < events.len(),
        answer_at(request, events, index).action is Write,
    ensures
        answer_at(request, events, index).action == (ActionView::Write {
            path: spec_destination(request.project_name, Template::Formatting.spec_file_name()),
            contents: events[index]->text,
        }),
        answer_at(request, events, index).action->Write_path != spec_destination(
            request.project_name,
            Template::Lint.spec_file_name(),
        ),
{
    run_remembers(request, events, index);
    destinations_differ(request.project_name);
}

/// A template is looked for beside the executable first, and below the
/// working directory only after it was not found there.
pub proof fn probes_come_in_order(request: CreationRequestView, events: Seq<EventView>, index: int)
    requires
        0 <= index < events.len(),
        answer_at(request, events, index).action is Probe,
    ensures
        exists|template: Template|
            request.places(template) && {
                let name = #[trigger] template.spec_file_name();
                let path = answer_at(request, events, index).action->Probe_path;
                ||| events[index] is ExecutableLocated && path == spec_installed_candidate(
                    events[index]->dir,
                    name,
                )
                ||| {
                    &&& index >= 1
                    &&& events[index] == (EventView::Existence { exists: false })
                    &&& events[index - 1] is ExecutableLocated
                    &&& answer_at(request, events, index - 1).action == (ActionView::Probe {
                        path: spec_installed_candidate(events[index - 1]->dir, name),
                    })
                    &&& path == spec_local_candidate(name)
                }
            },
{
    run_remembers(request, events, index);
    let template = state_at(request, events, index).template().unwrap();
    assert(request.places(template));
    let name = template.spec_file_name();
    let path = answer_at(request, events, index).action->Probe_path;
    if events[index] is ExecutableLocated {
        assert(path == spec_installed_candidate(events[index]->dir, name));
    } else {
        assert(path == spec_local_candidate(name));
    }
}

/// A template is read from the first place at which it was found: the read
/// answers the report that the path just probed exists, and names that
/// path.
pub proof fn reads_use_first_match(request: CreationRequestView, events: Seq<EventView>, index: int)
    requires
        0 <= index < events.len(),
        answer_at(request, events, index).action is Read,
    ensures
        index >= 1,
        events[index] == (EventView::Existence { exists: true }),
        answer_at(request, events, index - 1).action == (ActionView::Probe {
            path: answer_at(request, events, index).action->Read_path,
        }),
{
    run_remembers(request, events, index);
}

/// A template that is in neither place ends the run with an error that
/// names it. By then the generator has run with success, and nothing is
/// asked for that would undo its work.
pub proof fn missing_template_stops_run(
    request: CreationRequestView,
    events: Seq<EventView>,
    index: int,
)
    requires
        2 <= index < events.len(),
        events[index - 2] is ExecutableLocated,
        answer_at(request, events, index - 2).action is Probe,
        events[index - 1] == (EventView::Existence { exists: false }),
        events[index] == (EventView::Existence { exists: false }),
    ensures
        generated(events),
        exists|template: Template|
            request.places(template) && {
                let name = #[trigger] template.spec_file_name();
                &&& answer_at(request, events, index - 2).action == (ActionView::Probe {
                    path: spec_installed_candidate(events[index - 2]->dir, name),
                })
                &&& answer_at(request, events, index - 1).action == (ActionView::Probe {
                    path: spec_local_candidate(name),
                })
                &&& answer_at(request, events, index) == (StepView {
                    lines: seq![],
                    action: ActionView::Abort {
                        error: ScaffoldErrorView::TemplateNotFound { template },
                    },
                })
            },
{
    run_remembers(request, events, index - 2);
    run_unfolds(request, events, index - 2);
    run_unfolds(request, events, index - 1);
    let template = state_at(request, events, index - 2).template().unwrap();
    let name = template.spec_file_name();
    assert(request.places(template));
    assert(answer_at(request, events, index - 2).action == (ActionView::Probe {
        path: spec_installed_candidate(events[index - 2]->dir, name),
    }));
    assert(answer_at(request, events, index) == (StepView {
        lines: seq![],
        action: ActionView::Abort { error: ScaffoldErrorView::TemplateNotFound { template } },
    }));
}

/// The run reports a missing template only when the template was found in
/// neither place: both probes, in order, were answered with "not there".
pub proof fn missing_template_was_probed_twice(
    request: CreationRequestView,
    events: Seq<EventView>,
    template: Template,
    index: int,
)
    requires
        0 <= index < events.len(),
        answer_at(request, events, index).action == (ActionView::Abort {
            error: ScaffoldErrorView::TemplateNotFound { template },
        }),
    ensures
        index >= 4,
        generated(events),
        request.places(template),
        events[index] == (EventView::Existence { exists: false }),
        events[index - 1] == (EventView::Existence { exists: false }),
        events[index - 2] is ExecutableLocated,
        answer_at(request, events, index - 2).action == (ActionView::Probe {
            path: spec_installed_candidate(events[index - 2]->dir, template.spec_file_name()),
        }),
        answer_at(request, events, index - 1).action == (ActionView::Probe {
            path: spec_local_candidate(template.spec_file_name()),
        }),
{
    run_remembers(request, events, index);
}

/// What is reported while one template is copied without a hitch: where the
/// executable is, that the template is at its first place (`installed`) or
/// only at its second, what it holds, and that the copy was written.
pub open spec fn copy_events(dir: Seq<char>, installed: bool, text: Seq<char>) -> Seq<EventView> {
    let found = if installed {
        seq![EventView::Existence { exists: true }]
    } else {
        seq![EventView::Existence { exists: false }, EventView::Existence { exists: true }]
    };
    seq![EventView::ExecutableLocated { dir }] + found + seq![
        EventView::Contents { text },
        EventView::Written,
    ]
}

/// The place at which a template called `name` is found, given whether it is
/// at its first place.
pub open spec fn found_at(dir: Seq<char>, installed: bool, name: Seq<char>) -> Seq<char> {
    if installed {
        spec_installed_candidate(dir, name)
    } else {
        spec_local_candidate(name)
    }
}

/// What is reported up to the first copy in a run without a hitch: the
/// project's path is free, and the generator ends with success.
pub open spec fn generation_events(stderr: Seq<char>) -> Seq<EventView> {
    seq![
        EventView::Existence { exists: false },
        EventView::GeneratorExited { success: true, stderr },
    ]
}

/// The events of one copy, spelled out one by one.
proof fn copy_events_spelled(dir: Seq<char>, installed: bool, text: Seq<char>)
    ensures
        ({
            let events = copy_events(dir, installed, text);
            let last = events.len() - 1;
            &&& events.len() == if installed { 4int } else { 5int }
            &&& events[0] == (EventView::ExecutableLocated { dir })
            &&& events[1] == (EventView::Existence { exists: installed })
            &&& events[last - 2] == (EventView::Existence { exists: true })
            &&& events[last - 1] == (EventView::Contents { text })
            &&& events[last] == EventView::Written
        }),
{
}

/// A run without a hitch for a request that does not ask for the lint
/// configuration: the generator is run, the formatting template is read
/// from the first place at which it is found and written unchanged into
/// the project, and the run ends with success. No other file is written.
pub proof fn plain_run_places_formatting_config(
    request: CreationRequestView,
    events: Seq<EventView>,
    stderr: Seq<char>,
    dir: Seq<char>,
    installed: bool,
    text: Seq<char>,
)
    requires
        !request.include_clippy_config,
        events == generation_events(stderr) + copy_events(dir, installed, text),
    ensures
        ({
            let name = Template::Formatting.spec_file_name();
            let last = events.len() - 1;
            &&& answer_at(request, events, 0).action == (ActionView::RunGenerator {
                program: GENERATOR@,
                args: request.generator_args(),
            })
            &&& answer_at(request, events, 1) == (StepView {
                lines: seq![created_line(request.project_name)],
                action: ActionView::LocateExecutable,
            })
            &&& answer_at(request, events, last - 2).action == (ActionView::Read {
                path: found_at(dir, installed, name),
            })
            &&& answer_at(request, events, last - 1).action == (ActionView::Write {
                path: spec_destination(request.project_name, name),
                contents: text,
            })
            &&& answer_at(request, events, last) == (StepView {
                lines: seq![added_line(Template::Formatting), success_line(request.project_name)],
                action: ActionView::Finish,
            })
            &&& forall|index: int|
                0 <= index < events.len() && #[trigger] answer_at(request, events, index).action
                    is Write ==> index == last - 1
        }),
{
    let copy = copy_events(dir, installed, text);
    copy_events_spelled(dir, installed, text);
    assert forall|index: int| 2 <= index < events.len() implies events[index] == copy[index - 2] by {}
    run_unfolds(request, events, 0);
    run_unfolds(request, events, 1);
    run_unfolds(request, events, 2);
    run_unfolds(request, events, 3);
    run_unfolds(request, events, 4);
    run_unfolds(request, events, 5);
    if !installed {
        run_unfolds(request, events, 6);
    }
    assert forall|index: int|
        0 <= index < events.len() && #[trigger] answer_at(request, events, index).action
            is Write implies index == events.len() - 2 by {
        writes_are_verbatim(request, events, index);
    }
}

/// A run without a hitch for a request that asks for the lint
/// configuration: after the formatting configuration, the lint template is
/// read from the first place at which it is found and written unchanged
/// into the project, and the run ends with success.
pub proof fn full_run_places_both_configs(
    request: CreationRequestView,
    events: Seq<EventView>,
    stderr: Seq<char>,
    formatting: (Seq<char>, bool, Seq<char>),
    lint: (Seq<char>, bool, Seq<char>),
)
    requires
        request.include_clippy_config,
        events == generation_events(stderr) + copy_events(formatting.0, formatting.1, formatting.2)
            + copy_events(lint.0, lint.1, lint.2),
    ensures
        ({
            let first = copy_events(formatting.0, formatting.1, formatting.2).len() + 1int;
            let last = events.len() - 1;
            &&& answer_at(request, events, 0).action == (ActionView::RunGenerator {
                program: GENERATOR@,
                args: request.generator_args(),
            })
            &&& answer_at(request, events, first - 2).action == (ActionView::Read {
                path: found_at(formatting.0, formatting.1, Template::Formatting.spec_file_name()),
            })
            &&& answer_at(request, events, first - 1).action == (ActionView::Write {
                path: spec_destination(
                    request.project_name,
                    Template::Formatting.spec_file_name(),
                ),
                contents: formatting.2,
            })
            &&& answer_at(request, events, first) == (StepView {
                lines: seq![added_line(Template::Formatting)],
                action: ActionView::LocateExecutable,
            })
            &&& answer_at(request, events, last - 2).action == (ActionView::Read {
                path: found_at(lint.0, lint.1, Template::Lint.spec_file_name()),
            })
            &&& answer_at(request, events, last - 1).action == (ActionView::Write {
                path: spec_destination(request.project_name, Template::Lint.spec_file_name()),
                contents: lint.2,
            })
            &&& answer_at(request, events, last) == (StepView {
                lines: seq![added_line(Template::Lint), success_line(request.project_name)],
                action: ActionView::Finish,
            })
        }),
{
    let first_copy = copy_events(formatting.0, formatting.1, formatting.2);
    let second_copy = copy_events(lint.0, lint.1, lint.2);
    let first = first_copy.len() + 1int;
    let last = events.len() - 1;
    copy_events_spelled(formatting.0, formatting.1, formatting.2);
    copy_events_spelled(lint.0, lint.1, lint.2);
    assert forall|index: int| 2 <= index <= first implies events[index] == first_copy[index - 2] by {}
    assert forall|index: int| first < index <= last implies events[index] == second_copy[index
        - first - 1] by {}
    run_unfolds(request, events, 0);
    run_unfolds(request, events, 1);
    run_unfolds(request, events, 2);
    run_unfolds(request, events, 3);
    run_unfolds(request, events, 4);
    run_unfolds(request, events, 5);
    run_unfolds(request, events, 6);
    run_unfolds(request, events, 7);
    run_unfolds(request, events, 8);
    run_unfolds(request, events, 9);
    if last >= 10 {
        run_unfolds(request, events, 10);
    }
    if last >= 11 {
        run_unfolds(request, events, 11);
    }
}

} // verus!
