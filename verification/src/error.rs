//! What can end a run early.

use vstd::prelude::*;
use vstd::string::*;
use crate::request::Template;

verus! {

/// The half of a copy that failed.
#[derive(Clone, Copy, Debug, PartialEq, Eq, Structural)]
pub enum IoOperation {
    /// Reading the template.
    Read,
    /// Writing the file in the project.
    Write,
}

/// Whether `needle` occurs in `haystack` as a contiguous run of characters.
pub open spec fn occurs_in(needle: Seq<char>, haystack: Seq<char>) -> bool {
    exists|start: int|
        0 <= start && start + needle.len() <= haystack.len() && #[trigger] haystack.subrange(
            start,
            start + needle.len(),
        ) == needle
}

/// A reason for which a run ends early, as mathematics sees it.
pub enum ScaffoldErrorView {
    TargetExists { name: Seq<char> },
    GeneratorNotStarted { cause: Seq<char> },
    GeneratorFailed { stderr: Seq<char> },
    ExecutableUnknown { cause: Seq<char> },
    ExecutableWithoutParent,
    TemplateNotFound { template: Template },
    Io { operation: IoOperation, path: Seq<char>, cause: Seq<char> },
    OutOfTurn,
}

impl ScaffoldErrorView {
    /// The one line that tells the user which step failed.
    pub open spec fn message(self) -> Seq<char> {
        match self {
            ScaffoldErrorView::TargetExists { name } => "Directory '"@ + name
                + "' already exists"@,
            ScaffoldErrorView::GeneratorNotStarted { .. } => "Failed to execute cargo new command"@,
            ScaffoldErrorView::GeneratorFailed { stderr } => "cargo new failed: "@ + stderr,
            ScaffoldErrorView::ExecutableUnknown { .. } => "Failed to get current executable path"@,
            ScaffoldErrorView::ExecutableWithoutParent => "Failed to get executable parent directory"@,
            ScaffoldErrorView::TemplateNotFound { template } => "Template file '"@
                + template.spec_file_name() + "' not found"@,
            ScaffoldErrorView::Io { operation, path, .. } => match operation {
                IoOperation::Read => "Failed to read template file: "@ + path,
                IoOperation::Write => "Failed to write file: "@ + path,
            },
            ScaffoldErrorView::OutOfTurn => "Event does not answer the pending action"@,
        }
    }

    /// What the system said of the failure, where an outside failure lies
    /// under this one.
    pub open spec fn cause(self) -> Option<Seq<char>> {
        match self {
            ScaffoldErrorView::GeneratorNotStarted { cause } => Some(cause),
            ScaffoldErrorView::ExecutableUnknown { cause } => Some(cause),
            ScaffoldErrorView::Io { cause, .. } => Some(cause),
            _ => None,
        }
    }
}

/// A reason for which a run ends early.
#[derive(Clone, Debug, PartialEq, Eq)]
pub enum ScaffoldError {
    /// Something already exists at the path of the project.
    TargetExists { name: String },
    /// The generator could not be launched.
    GeneratorNotStarted { cause: String },
    /// The generator ran and reported failure; `stderr` is what it wrote to
    /// its standard error.
    GeneratorFailed { stderr: String },
    /// The path of the running executable could not be found out.
    ExecutableUnknown { cause: String },
    /// The path of the running executable has no directory above it.
    ExecutableWithoutParent,
    /// The template exists in neither place where it is looked for.
    TemplateNotFound { template: Template },
    /// Reading the template at `path`, or writing the file at `path`, failed.
    Io { operation: IoOperation, path: String, cause: String },
    /// The event handed to the machine does not answer the action that it
    /// had asked for.
    OutOfTurn,
}

impl View for ScaffoldError {
    type V = ScaffoldErrorView;

    open spec fn view(&self) -> ScaffoldErrorView {
        match self {
            ScaffoldError::TargetExists { name } => ScaffoldErrorView::TargetExists { name: name@ },
            ScaffoldError::GeneratorNotStarted { cause } => ScaffoldErrorView::GeneratorNotStarted {
                cause: cause@,
            },
            ScaffoldError::GeneratorFailed { stderr } => ScaffoldErrorView::GeneratorFailed {
                stderr: stderr@,
            },
            ScaffoldError::ExecutableUnknown { cause } => ScaffoldErrorView::ExecutableUnknown {
                cause: cause@,
            },
            ScaffoldError::ExecutableWithoutParent => ScaffoldErrorView::ExecutableWithoutParent,
            ScaffoldError::TemplateNotFound { template } => ScaffoldErrorView::TemplateNotFound {
                template: *template,
            },
            ScaffoldError::Io { operation, path, cause } => ScaffoldErrorView::Io {
                operation: *operation,
                path: path@,
                cause: cause@,
            },
            ScaffoldError::OutOfTurn => ScaffoldErrorView::OutOfTurn,
        }
    }
}

impl ScaffoldError {
    /// The one line that tells the user which step failed.
    pub fn message(&self) -> (text: String)
        ensures
            text@ == self@.message(),
    {
        match self {
            ScaffoldError::TargetExists { name } => {
                let mut text = String::from_str("Directory '");
                text.append(name.as_str());
                text.append("' already exists");
                text
            },
            ScaffoldError::GeneratorNotStarted { .. } => String::from_str(
                "Failed to execute cargo new command",
            ),
            ScaffoldError::GeneratorFailed { stderr } => {
                let mut text = String::from_str("cargo new failed: ");
                text.append(stderr.as_str());
                text
            },
            ScaffoldError::ExecutableUnknown { .. } => String::from_str(
                "Failed to get current executable path",
            ),
            ScaffoldError::ExecutableWithoutParent => String::from_str(
                "Failed to get executable parent directory",
            ),
            ScaffoldError::TemplateNotFound { template } => {
                let mut text = String::from_str("Template file '");
                text.append(template.file_name());
                text.append("' not found");
                text
            },
            ScaffoldError::Io { operation, path, .. } => {
                let mut text = match operation {
                    IoOperation::Read => String::from_str("Failed to read template file: "),
                    IoOperation::Write => String::from_str("Failed to write file: "),
                };
                text.append(path.as_str());
                text
            },
            ScaffoldError::OutOfTurn => String::from_str("Event does not answer the pending action"),
        }
    }

    /// What the system said of the failure, where an outside failure lies
    /// under this one.
    pub fn cause(&self) -> (cause: Option<String>)
        ensures
            cause.is_some() == self@.cause().is_some(),
            cause.is_some() ==> cause.unwrap()@ == self@.cause().unwrap(),
    {
        match self {
            ScaffoldError::GeneratorNotStarted { cause } => Some(cause.clone()),
            ScaffoldError::ExecutableUnknown { cause } => Some(cause.clone()),
            ScaffoldError::Io { cause, .. } => Some(cause.clone()),
            _ => None,
        }
    }
}

/// The message of a failed generation holds all that the generator wrote to
/// its standard error, unchanged and at its end.
pub proof fn generator_failure_quotes_stderr(stderr: Seq<char>)
    ensures
        occurs_in(stderr, (ScaffoldErrorView::GeneratorFailed { stderr }).message()),
        (ScaffoldErrorView::GeneratorFailed { stderr }).message() == "cargo new failed: "@ + stderr,
{
    let message = (ScaffoldErrorView::GeneratorFailed { stderr }).message();
    let start = "cargo new failed: "@.len() as int;
    assert(message.subrange(start, start + stderr.len()) =~= stderr);
}

/// The message of a missing template names the file that is missing.
pub proof fn missing_template_is_named(template: Template)
    ensures
        occurs_in(
            template.spec_file_name(),
            (ScaffoldErrorView::TemplateNotFound { template }).message(),
        ),
{
    let message = (ScaffoldErrorView::TemplateNotFound { template }).message();
    let name = template.spec_file_name();
    let start = "Template file '"@.len() as int;
    assert(message.subrange(start, start + name.len()) =~= name);
}

/// The message of an occupied target names the path that is occupied.
pub proof fn occupied_target_is_named(name: Seq<char>)
    ensures
        occurs_in(name, (ScaffoldErrorView::TargetExists { name }).message()),
{
    let message = (ScaffoldErrorView::TargetExists { name }).message();
    let start = "Directory '"@.len() as int;
    assert(message.subrange(start, start + name.len()) =~= name);
}

/// The message of a failed copy names the path that could not be read or
/// written, and tells reading from writing.
pub proof fn failed_copy_is_named(path: Seq<char>, cause: Seq<char>)
    ensures
        occurs_in(path, (ScaffoldErrorView::Io { operation: IoOperation::Read, path, cause }).message()),
        occurs_in(path, (ScaffoldErrorView::Io { operation: IoOperation::Write, path, cause }).message()),
        (ScaffoldErrorView::Io { operation: IoOperation::Read, path, cause }).message()
            != (ScaffoldErrorView::Io { operation: IoOperation::Write, path, cause }).message(),
{
    let reading = (ScaffoldErrorView::Io { operation: IoOperation::Read, path, cause }).message();
    let writing = (ScaffoldErrorView::Io { operation: IoOperation::Write, path, cause }).message();
    let read_start = "Failed to read template file: "@.len() as int;
    let write_start = "Failed to write file: "@.len() as int;
    assert(reading.subrange(read_start, read_start + path.len()) =~= path);
    assert(writing.subrange(write_start, write_start + path.len()) =~= path);
    reveal_strlit("Failed to read template file: ");
    reveal_strlit("Failed to write file: ");
    assert(reading.len() != writing.len());
}

} // verus!
