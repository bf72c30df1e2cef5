//! What is made of the answers to a shell command sent to remote instances.

use vstd::prelude::*;
use vstd::string::StringExecFns;
use crate::instance::text_view;

verus! {

/// Why a command that was sent did not count as run.
#[derive(Debug, Clone, PartialEq, Eq)]
pub enum CommandError {
    /// The answer to sending the command names no command.
    MissingCommand,
    /// The answer names a command without an identifier.
    MissingCommandId,
    /// An instance's account of the command gives no status.
    MissingStatus,
    /// Waiting for an instance to run the command failed.
    WaitFailed { detail: String },
}

/// A [`CommandError`] as contracts speak of it.
pub enum CommandErrorView {
    MissingCommand,
    MissingCommandId,
    MissingStatus,
    WaitFailed { detail: Seq<char> },
}

impl View for CommandError {
    type V = CommandErrorView;

    open spec fn view(&self) -> CommandErrorView {
        match *self {
            CommandError::MissingCommand => CommandErrorView::MissingCommand,
            CommandError::MissingCommandId => CommandErrorView::MissingCommandId,
            CommandError::MissingStatus => CommandErrorView::MissingStatus,
            CommandError::WaitFailed { detail } => CommandErrorView::WaitFailed { detail: detail@ },
        }
    }
}

/// The text a command failure is reported with.
pub open spec fn command_error_text(e: CommandErrorView) -> Seq<char> {
    match e {
        CommandErrorView::MissingCommand => "missing command in response"@,
        CommandErrorView::MissingCommandId => "missing command id in response"@,
        CommandErrorView::MissingStatus => "missing status in response"@,
        CommandErrorView::WaitFailed { detail } => "error waiting: "@ + detail,
    }
}

impl CommandError {
    /// The failure in words.
    pub fn message(&self) -> (text: String)
        ensures
            text@ == command_error_text(self@),
    {
        match self {
            CommandError::MissingCommand => String::from_str("missing command in response"),
            CommandError::MissingCommandId => String::from_str("missing command id in response"),
            CommandError::MissingStatus => String::from_str("missing status in response"),
            CommandError::WaitFailed { detail } => {
                let mut text = String::from_str("error waiting: ");
                text.append(detail.as_str());
                text
            },
        }
    }
}

/// The answer to sending a command: the command it names, if any, and that command's
/// identifier, if it has one.
#[derive(Debug, Clone, PartialEq, Eq)]
pub struct SentCommand {
    pub command: Option<Option<String>>,
}

/// The identifier under which a command that was sent can be asked about.
pub fn command_id(sent: SentCommand) -> (id: Result<String, CommandError>)
    ensures
        match sent.command {
            None => id == Result::<String, CommandError>::Err(CommandError::MissingCommand),
            Some(None) => id == Result::<String, CommandError>::Err(
                CommandError::MissingCommandId,
            ),
            Some(Some(text)) => id == Result::<String, CommandError>::Ok(text),
        },
{
    match sent.command {
        None => Err(CommandError::MissingCommand),
        Some(None) => Err(CommandError::MissingCommandId),
        Some(Some(text)) => Ok(text),
    }
}

/// One instance's account of a command.
#[derive(Debug, Clone, PartialEq, Eq)]
pub struct Invocation {
    pub standard_output: Option<String>,
    pub standard_error: Option<String>,
    pub status: Option<String>,
}

/// What is to be logged of an instance's account, and whether the command counts as run there.
#[derive(Debug, Clone, PartialEq, Eq)]
pub struct InvocationReport {
    /// What the command wrote to its output; empty where the account has none.
    pub standard_output: String,
    /// What the command wrote to its error output; empty where the account has none.
    pub standard_error: String,
    /// The status, where the account gives one.
    pub status: Option<String>,
    /// Why the command does not count as run on this instance, if it does not.
    pub failure: Option<CommandError>,
}

/// An [`InvocationReport`] as contracts speak of it.
pub struct InvocationReportView {
    pub standard_output: Seq<char>,
    pub standard_error: Seq<char>,
    pub status: Option<Seq<char>>,
    pub failure: Option<CommandErrorView>,
}

impl View for InvocationReport {
    type V = InvocationReportView;

    open spec fn view(&self) -> InvocationReportView {
        InvocationReportView {
            standard_output: self.standard_output@,
            standard_error: self.standard_error@,
            status: text_view(self.status),
            failure: match self.failure {
                Some(error) => Some(error@),
                None => None,
            },
        }
    }
}

/// A text that may be missing, or empty in its place.
pub open spec fn text_or_empty(text: Option<Seq<char>>) -> Seq<char> {
    match text {
        Some(text) => text,
        None => Seq::empty(),
    }
}

/// What is made of an account, and of how waiting for it went: output and error output are
/// logged as they are; an account without a status fails the command; with a status, the
/// command fails if waiting for it failed.
pub open spec fn judged(
    standard_output: Option<Seq<char>>,
    standard_error: Option<Seq<char>>,
    status: Option<Seq<char>>,
    waited: Result<(), Seq<char>>,
) -> InvocationReportView {
    InvocationReportView {
        standard_output: text_or_empty(standard_output),
        standard_error: text_or_empty(standard_error),
        status,
        failure: match status {
            None => Some(CommandErrorView::MissingStatus),
            Some(_) => match waited {
                Err(detail) => Some(CommandErrorView::WaitFailed { detail }),
                Ok(_) => None,
            },
        },
    }
}

/// How waiting went, as contracts speak of it.
pub open spec fn waited_view(waited: Result<(), String>) -> Result<(), Seq<char>> {
    match waited {
        Ok(_) => Ok(()),
        Err(detail) => Err(detail@),
    }
}

/// Judges one instance's account of a command, given how waiting for the command went.
pub fn judge_invocation(invocation: Invocation, waited: Result<(), String>) -> (report:
    InvocationReport)
    ensures
        report@ == judged(
            text_view(invocation.standard_output),
            text_view(invocation.standard_error),
            text_view(invocation.status),
            waited_view(waited),
        ),
{
    let Invocation { standard_output, standard_error, status } = invocation;
    let standard_output = match standard_output {
        Some(text) => text,
        None => String::new(),
    };
    let standard_error = match standard_error {
        Some(text) => text,
        None => String::new(),
    };
    let failure = match &status {
        None => Some(CommandError::MissingStatus),
        Some(_) => match waited {
            Err(detail) => Some(CommandError::WaitFailed { detail }),
            Ok(_) => None,
        },
    };
    InvocationReport { standard_output, standard_error, status, failure }
}

} // verus!
