//! The interactive loop's decisions, as a pure transition function: one
//! line of input takes the session from one state to the next and names
//! the one action the shell must carry out — prompt again, run a
//! filesystem operation on a resolved path, relist, or exit.

use vstd::prelude::*;
use vstd::string::*;
use crate::explorer::{
    FileExplorer, join_display, parent_path, path_display, push_segment_spec,
};
use crate::text::{parse_u32, parse_u32_spec, trim_input, trim_spec};

verus! {

/// Which line of input the session is waiting for: the menu choice
/// itself, or the follow-up argument of the operation just chosen.
pub enum PendingInput {
    MenuChoice,
    DirectoryName,
    CopySource,
    CopyDestination { source: String },
    DeleteName,
    CreateName,
}

/// The mathematical image of a [`PendingInput`].
pub enum PendingModel {
    MenuChoice,
    DirectoryName,
    CopySource,
    CopyDestination { source: Seq<char> },
    DeleteName,
    CreateName,
}

impl View for PendingInput {
    type V = PendingModel;

    open spec fn view(&self) -> PendingModel {
        match self {
            PendingInput::MenuChoice => PendingModel::MenuChoice,
            PendingInput::DirectoryName => PendingModel::DirectoryName,
            PendingInput::CopySource => PendingModel::CopySource,
            PendingInput::CopyDestination { source } => PendingModel::CopyDestination {
                source: source@,
            },
            PendingInput::DeleteName => PendingModel::DeleteName,
            PendingInput::CreateName => PendingModel::CreateName,
        }
    }
}

/// What one step of the loop asks of the shell. The `Requested`
/// variants carry fully resolved paths; everything else is a prompt, a
/// report, or the end of the session.
pub enum Action {
    PromptDirectoryName,
    ChangedDirectory,
    PromptCopySource,
    PromptCopyDestination,
    CopyRequested { source: String, destination: String },
    PromptDeleteName,
    DeleteRequested { path: String },
    PromptCreateName,
    CreateRequested { path: String },
    NavigatedUp { message: String },
    ListRequested,
    ExitRequested,
    InvalidChoice,
}

/// The mathematical image of an [`Action`].
pub enum ActionModel {
    PromptDirectoryName,
    ChangedDirectory,
    PromptCopySource,
    PromptCopyDestination,
    CopyRequested { source: Seq<char>, destination: Seq<char> },
    PromptDeleteName,
    DeleteRequested { path: Seq<char> },
    PromptCreateName,
    CreateRequested { path: Seq<char> },
    NavigatedUp { message: Seq<char> },
    ListRequested,
    ExitRequested,
    InvalidChoice,
}

impl View for Action {
    type V = ActionModel;

    open spec fn view(&self) -> ActionModel {
        match self {
            Action::PromptDirectoryName => ActionModel::PromptDirectoryName,
            Action::ChangedDirectory => ActionModel::ChangedDirectory,
            Action::PromptCopySource => ActionModel::PromptCopySource,
            Action::PromptCopyDestination => ActionModel::PromptCopyDestination,
            Action::CopyRequested { source, destination } => ActionModel::CopyRequested {
                source: source@,
                destination: destination@,
            },
            Action::PromptDeleteName => ActionModel::PromptDeleteName,
            Action::DeleteRequested { path } => ActionModel::DeleteRequested { path: path@ },
            Action::PromptCreateName => ActionModel::PromptCreateName,
            Action::CreateRequested { path } => ActionModel::CreateRequested { path: path@ },
            Action::NavigatedUp { message } => ActionModel::NavigatedUp { message: message@ },
            Action::ListRequested => ActionModel::ListRequested,
            Action::ExitRequested => ActionModel::ExitRequested,
            Action::InvalidChoice => ActionModel::InvalidChoice,
        }
    }
}

/// One interactive session: where it is, and what it waits for.
pub struct Session {
    pub explorer: FileExplorer,
    pub pending: PendingInput,
}

/// The mathematical image of a [`Session`]: the current path's segments
/// and the kind of input awaited.
pub struct SessionModel {
    pub path: Seq<Seq<char>>,
    pub pending: PendingModel,
}

impl View for Session {
    type V = SessionModel;

    open spec fn view(&self) -> SessionModel {
        SessionModel { path: self.explorer@, pending: self.pending@ }
    }
}

/// What navigating up reports: the new path, or that the session is
/// already at the root.
pub open spec fn up_message(path: Seq<Seq<char>>) -> Seq<char> {
    if path.len() == 0 {
        "Already at the root directory."@
    } else {
        "Navigated up to: \""@ + path_display(parent_path(path)) + "\""@
    }
}

/// The whole of the loop's decision, one input line at a time. Menu
/// choices `1` to `4` only change what is awaited; `5` moves to the
/// parent; `6` asks for a listing; `7` ends the session; anything else,
/// an unparsable line included, changes nothing and is reported as an
/// invalid choice. Follow-up lines are trimmed and resolved against the
/// current path.
pub open spec fn step_spec(s: SessionModel, line: Seq<char>) -> (SessionModel, ActionModel) {
    let entry = trim_spec(line);
    match s.pending {
        PendingModel::MenuChoice => match parse_u32_spec(entry) {
            Option::None => (s, ActionModel::InvalidChoice),
            Option::Some(choice) => if choice == 1 {
                (
                    SessionModel { pending: PendingModel::DirectoryName, ..s },
                    ActionModel::PromptDirectoryName,
                )
            } else if choice == 2 {
                (
                    SessionModel { pending: PendingModel::CopySource, ..s },
                    ActionModel::PromptCopySource,
                )
            } else if choice == 3 {
                (
                    SessionModel { pending: PendingModel::DeleteName, ..s },
                    ActionModel::PromptDeleteName,
                )
            } else if choice == 4 {
                (
                    SessionModel { pending: PendingModel::CreateName, ..s },
                    ActionModel::PromptCreateName,
                )
            } else if choice == 5 {
                (
                    SessionModel { path: parent_path(s.path), ..s },
                    ActionModel::NavigatedUp { message: up_message(s.path) },
                )
            } else if choice == 6 {
                (s, ActionModel::ListRequested)
            } else if choice == 7 {
                (s, ActionModel::ExitRequested)
            } else {
                (s, ActionModel::InvalidChoice)
            },
        },
        PendingModel::DirectoryName => (
            SessionModel { path: push_segment_spec(s.path, entry), pending: PendingModel::MenuChoice },
            ActionModel::ChangedDirectory,
        ),
        PendingModel::CopySource => (
            SessionModel { pending: PendingModel::CopyDestination { source: entry }, ..s },
            ActionModel::PromptCopyDestination,
        ),
        PendingModel::CopyDestination { source } => (
            SessionModel { pending: PendingModel::MenuChoice, ..s },
            ActionModel::CopyRequested {
                source: join_display(s.path, source),
                destination: join_display(s.path, entry),
            },
        ),
        PendingModel::DeleteName => (
            SessionModel { pending: PendingModel::MenuChoice, ..s },
            ActionModel::DeleteRequested { path: join_display(s.path, entry) },
        ),
        PendingModel::CreateName => (
            SessionModel { pending: PendingModel::MenuChoice, ..s },
            ActionModel::CreateRequested { path: join_display(s.path, entry) },
        ),
    }
}

impl Session {
    /// Every path segment is a real component: nonempty.
    pub open spec fn wf(&self) -> bool {
        self.explorer.wf()
    }

    /// A fresh session at the given directory, waiting for a menu
    /// choice.
    pub fn new(explorer: FileExplorer) -> (r: Session)
        ensures
            r@.path == explorer@,
            r@.pending == PendingModel::MenuChoice,
            explorer.wf() ==> r.wf(),
    {
        Session { explorer, pending: PendingInput::MenuChoice }
    }

    /// One turn of the loop: consume one input line, move to the next
    /// state, and say what the shell must do — exactly as [`step_spec`]
    /// lays it down.
    pub fn step(&mut self, line: &str) -> (a: Action)
        ensures
            (final(self)@, a@) == step_spec(old(self)@, line@),
            old(self).wf() ==> final(self).wf(),
    {
        let entry: String = trim_input(line);
        let mut pend = PendingInput::MenuChoice;
        core::mem::swap(&mut pend, &mut self.pending);
        match pend {
            PendingInput::MenuChoice => match parse_u32(entry.as_str()) {
                Option::None => Action::InvalidChoice,
                Option::Some(choice) => {
                    if choice == 1 {
                        self.pending = PendingInput::DirectoryName;
                        Action::PromptDirectoryName
                    } else if choice == 2 {
                        self.pending = PendingInput::CopySource;
                        Action::PromptCopySource
                    } else if choice == 3 {
                        self.pending = PendingInput::DeleteName;
                        Action::PromptDeleteName
                    } else if choice == 4 {
                        self.pending = PendingInput::CreateName;
                        Action::PromptCreateName
                    } else if choice == 5 {
                        let message = self.explorer.navigate_up();
                        Action::NavigatedUp { message }
                    } else if choice == 6 {
                        Action::ListRequested
                    } else if choice == 7 {
                        Action::ExitRequested
                    } else {
                        Action::InvalidChoice
                    }
                },
            },
            PendingInput::DirectoryName => {
                self.explorer.change_directory(entry);
                Action::ChangedDirectory
            },
            PendingInput::CopySource => {
                self.pending = PendingInput::CopyDestination { source: entry };
                Action::PromptCopyDestination
            },
            PendingInput::CopyDestination { source } => {
                let resolved_source = self.explorer.resolve(&source);
                let resolved_destination = self.explorer.resolve(&entry);
                Action::CopyRequested {
                    source: resolved_source,
                    destination: resolved_destination,
                }
            },
            PendingInput::DeleteName => {
                let path = self.explorer.resolve(&entry);
                Action::DeleteRequested { path }
            },
            PendingInput::CreateName => {
                let path = self.explorer.resolve(&entry);
                Action::CreateRequested { path }
            },
        }
    }
}

/// A line that does not parse as a menu choice leaves the session — its
/// path and what it awaits — exactly as it was, and only reports the
/// invalid choice; the loop then shows the menu again.
pub proof fn lemma_invalid_choice_preserves_session(s: SessionModel, line: Seq<char>)
    requires
        s.pending == PendingModel::MenuChoice,
        parse_u32_spec(trim_spec(line)) is None,
    ensures
        step_spec(s, line).0 == s,
        step_spec(s, line).1 == ActionModel::InvalidChoice,
{
}

} // verus!
