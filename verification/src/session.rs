//! Sessions: one request to the store, carried out step by step.
//!
//! Every task has a script, the file-system actions it consists of in their
//! order. A session walks its script: it names an action, is told how the
//! action went, and names the next, until it ends with an outcome. The first
//! failure ends the session; what earlier actions did stays done.

use vstd::prelude::*;
use crate::error::{ErrorKind, Fault, StoreError};
use crate::paths::{
    config_file_path, files_dir, get_config_file_path, get_files_dir, get_history_file_path,
    get_metadata_path, get_payload_path, history_file_path, metadata_path, payload_path,
    saved_file_names, saved_names,
};
use crate::protocol::{
    answers, failure_kind, outcome_view, Action, ActionView, Event, EventView, Reply, ReplyView,
    Request, RequestView, Task, TaskView,
};

verus! {

/// The actions that a task consists of, in the order in which they are taken.
pub open spec fn script(task: TaskView) -> Seq<ActionView> {
    match task {
        TaskView::Store { data_dir, request } => {
            let root = ActionView::CreateDirs { path: data_dir };
            let files = ActionView::CreateDirs { path: files_dir(data_dir) };
            match request {
                RequestView::SaveConfig { data } => seq![
                    root,
                    ActionView::WriteText { path: config_file_path(data_dir), text: data },
                ],
                RequestView::LoadConfig => seq![
                    root,
                    ActionView::Probe { path: config_file_path(data_dir) },
                    ActionView::ReadText { path: config_file_path(data_dir) },
                ],
                RequestView::HasConfig => seq![
                    root,
                    ActionView::Probe { path: config_file_path(data_dir) },
                ],
                RequestView::SaveHistory { data } => seq![
                    root,
                    ActionView::WriteText { path: history_file_path(data_dir), text: data },
                ],
                RequestView::LoadHistory => seq![
                    root,
                    ActionView::Probe { path: history_file_path(data_dir) },
                    ActionView::ReadText { path: history_file_path(data_dir) },
                ],
                RequestView::SaveFile { name, data, metadata } => seq![
                    root,
                    files,
                    ActionView::WriteText { path: payload_path(data_dir, name), text: data },
                    ActionView::WriteText { path: metadata_path(data_dir, name), text: metadata },
                    ActionView::SetReadOnly { path: payload_path(data_dir, name), read_only: true },
                    ActionView::SetReadOnly { path: metadata_path(data_dir, name), read_only: true },
                ],
                RequestView::LoadFile { name } => seq![
                    root,
                    files,
                    ActionView::Probe { path: payload_path(data_dir, name) },
                    ActionView::ReadText { path: payload_path(data_dir, name) },
                ],
                RequestView::LoadMetadata { name } => seq![
                    root,
                    files,
                    ActionView::Probe { path: metadata_path(data_dir, name) },
                    ActionView::ReadText { path: metadata_path(data_dir, name) },
                ],
                RequestView::HasFile { name } => seq![
                    root,
                    files,
                    ActionView::Probe { path: payload_path(data_dir, name) },
                ],
                RequestView::DeleteFile { name } => seq![
                    root,
                    files,
                    ActionView::Probe { path: payload_path(data_dir, name) },
                    ActionView::SetReadOnly { path: payload_path(data_dir, name), read_only: false },
                    ActionView::Remove { path: payload_path(data_dir, name) },
                    ActionView::Probe { path: metadata_path(data_dir, name) },
                    ActionView::SetReadOnly { path: metadata_path(data_dir, name), read_only: false },
                    ActionView::Remove { path: metadata_path(data_dir, name) },
                ],
                RequestView::ListFiles => seq![
                    root,
                    files,
                    ActionView::List { path: files_dir(data_dir) },
                ],
            }
        },
        TaskView::Export { path, parent, data } => match parent {
            Some(dir) => seq![
                ActionView::CreateDirs { path: dir },
                ActionView::WriteBytes { path, bytes: data },
            ],
            None => seq![ActionView::WriteBytes { path, bytes: data }],
        },
    }
}

/// What a task that changes the disk replies once its whole script is done.
/// The tasks that only read or ask end with what they found instead.
pub open spec fn confirmation(task: TaskView) -> Seq<char> {
    match task {
        TaskView::Store { request: RequestView::SaveConfig { .. }, .. } =>
            "Configuration saved successfully"@,
        TaskView::Store { request: RequestView::SaveHistory { .. }, .. } =>
            "History saved successfully"@,
        TaskView::Store { request: RequestView::SaveFile { name, .. }, .. } =>
            "File "@ + name + " saved successfully"@,
        TaskView::Store { request: RequestView::DeleteFile { name }, .. } =>
            "File "@ + name + " deleted successfully"@,
        TaskView::Export { path, .. } => "File saved to "@ + path,
        _ => Seq::empty(),
    }
}

/// The error that a task ends with when `action` fails for `reason`. An export
/// says in front of the reason which of its two actions failed; the store
/// hands the reason on as it is.
pub open spec fn failure(task: TaskView, action: ActionView, reason: Seq<char>) -> Fault {
    Fault {
        kind: failure_kind(action),
        message: match task {
            TaskView::Export { .. } => match action {
                ActionView::CreateDirs { .. } => "Failed to create directory: "@ + reason,
                _ => "Failed to write file: "@ + reason,
            },
            TaskView::Store { .. } => reason,
        },
    }
}

/// What a task that needs a file ends with when the file is absent: all but
/// the history, which then reads as empty, fail.
pub open spec fn absent(task: TaskView) -> Result<ReplyView, Fault> {
    match task {
        TaskView::Store { request: RequestView::LoadFile { name }, .. } => Err(
            Fault { kind: ErrorKind::NotFound, message: "File "@ + name + " not found"@ },
        ),
        TaskView::Store { request: RequestView::LoadMetadata { name }, .. } => Err(
            Fault { kind: ErrorKind::NotFound, message: "Metadata for "@ + name + " not found"@ },
        ),
        TaskView::Store { request: RequestView::LoadHistory, .. } => Ok(
            ReplyView::Text(Seq::empty()),
        ),
        _ => Err(Fault { kind: ErrorKind::NotFound, message: "No configuration file found"@ }),
    }
}

/// The end of a session: the cursor goes behind the script, and the action
/// hands over the outcome.
pub open spec fn finish(task: TaskView, outcome: Result<ReplyView, Fault>) -> (int, ActionView) {
    (script(task).len() as int, ActionView::Finish { outcome })
}

/// The session moves to `cursor`: it takes the action there, or, behind the
/// script, ends with the task's confirmation.
pub open spec fn proceed(task: TaskView, cursor: int) -> (int, ActionView) {
    if 0 <= cursor < script(task).len() {
        (cursor, script(task)[cursor])
    } else {
        finish(task, Ok(ReplyView::Text(confirmation(task))))
    }
}

/// The step after a probe. A question of existence is answered. A deletion
/// goes on to unlock and remove what is there, and skips both for what is not.
/// A read goes on if the file is there and ends as [`absent`] says if not.
pub open spec fn probed(task: TaskView, cursor: int, present: bool) -> (int, ActionView) {
    match task {
        TaskView::Store { request: RequestView::HasConfig, .. }
        | TaskView::Store { request: RequestView::HasFile { .. }, .. } => finish(
            task,
            Ok(ReplyView::Flag(present)),
        ),
        TaskView::Store { request: RequestView::DeleteFile { .. }, .. } => proceed(
            task,
            if present {
                cursor + 1
            } else {
                cursor + 3
            },
        ),
        _ => if present {
            proceed(task, cursor + 1)
        } else {
            finish(task, absent(task))
        },
    }
}

/// One step of a session: where the cursor goes and which action comes next,
/// when the action at `cursor` is answered by `event`.
pub open spec fn step(task: TaskView, cursor: int, event: EventView) -> (int, ActionView)
    recommends
        0 <= cursor < script(task).len(),
        answers(script(task)[cursor], event),
{
    match event {
        EventView::Done => proceed(task, cursor + 1),
        EventView::Failed(reason) => finish(
            task,
            Err(failure(task, script(task)[cursor], reason)),
        ),
        EventView::Exists(present) => probed(task, cursor, present),
        EventView::Text(text) => finish(task, Ok(ReplyView::Text(text))),
        EventView::Entries(entries) => finish(task, Ok(ReplyView::Names(saved_names(entries)))),
    }
}

/// The kind of reply that a task ends with when it succeeds: a flag for a
/// question of existence, names for a listing, text for everything else.
pub open spec fn fits(task: TaskView, reply: ReplyView) -> bool {
    match task {
        TaskView::Store { request: RequestView::HasConfig, .. }
        | TaskView::Store { request: RequestView::HasFile { .. }, .. } => reply is Flag,
        TaskView::Store { request: RequestView::ListFiles, .. } => reply is Names,
        _ => reply is Text,
    }
}

/// No script is empty, and none has more than eight actions.
pub proof fn script_is_short(task: TaskView)
    ensures
        1 <= script(task).len() <= 8,
{
}

/// Every answer moves a session forward and never past the end of its script,
/// so a session ends after as many answers as its script has actions, at
/// most. The session hands over its outcome exactly when it reaches the end;
/// before that it asks for the action of its script at which it stands.
pub proof fn step_moves_forward(task: TaskView, cursor: int, event: EventView)
    requires
        0 <= cursor < script(task).len(),
        answers(script(task)[cursor], event),
    ensures
        cursor < step(task, cursor, event).0 <= script(task).len(),
        step(task, cursor, event).1 is Finish <==> step(task, cursor, event).0 == script(
            task,
        ).len(),
        step(task, cursor, event).0 < script(task).len() ==> step(task, cursor, event).1
            == script(task)[step(task, cursor, event).0],
{
}

/// A failure ends the session at once, with an error of the kind that belongs
/// to the action that failed.
pub proof fn failure_ends_session(task: TaskView, cursor: int, reason: Seq<char>)
    requires
        0 <= cursor < script(task).len(),
    ensures
        step(task, cursor, EventView::Failed(reason)).1 matches ActionView::Finish {
            outcome: Err(fault),
        } && fault.kind == failure_kind(script(task)[cursor]),
{
}

/// A session that succeeds replies in the kind that its task calls for.
pub proof fn reply_fits_task(task: TaskView, cursor: int, event: EventView)
    requires
        0 <= cursor < script(task).len(),
        answers(script(task)[cursor], event),
    ensures
        step(task, cursor, event).1 matches ActionView::Finish { outcome: Ok(reply) } ==> fits(
            task,
            reply,
        ),
{
}

/// A task in progress.
#[derive(PartialEq, Eq, Debug)]
pub struct Session {
    task: Task,
    cursor: usize,
}

/// The mathematical value of a [`Session`]: its task and how far it has come
/// in the task's script.
pub struct SessionView {
    pub task: TaskView,
    pub cursor: int,
}

/// A session at the start of `task`.
pub open spec fn fresh(task: TaskView) -> SessionView {
    SessionView { task, cursor: 0 }
}

impl View for Session {
    type V = SessionView;

    closed spec fn view(&self) -> SessionView {
        SessionView { task: self.task@, cursor: self.cursor as int }
    }
}

fn clone_bytes(bytes: &Vec<u8>) -> (copy: Vec<u8>)
    ensures
        copy@ == bytes@,
{
    let copy = bytes.clone();
    assert(copy@ =~= bytes@);
    copy
}

fn script_len(task: &Task) -> (len: usize)
    ensures
        len == script(task@).len(),
        1 <= len <= 8,
{
    match task {
        Task::Store { request, .. } => match request {
            Request::SaveConfig { .. } | Request::HasConfig | Request::SaveHistory { .. } => 2,
            Request::LoadConfig | Request::LoadHistory => 3,
            Request::SaveFile { .. } => 6,
            Request::LoadFile { .. } | Request::LoadMetadata { .. } => 4,
            Request::HasFile { .. } | Request::ListFiles => 3,
            Request::DeleteFile { .. } => 8,
        },
        Task::Export { parent, .. } => match parent {
            Some(_) => 2,
            None => 1,
        },
    }
}

fn store_action_at(data_dir: &String, request: &Request, index: usize) -> (action: Action)
    requires
        2 <= index < script(TaskView::Store { data_dir: data_dir@, request: request@ }).len(),
    ensures
        action@ == script(TaskView::Store { data_dir: data_dir@, request: request@ })[index as int],
{
    let dir = data_dir.as_str();
    match request {
        Request::LoadFile { name } => {
            let path = get_payload_path(dir, name.as_str());
            if index == 2 {
                Action::Probe { path }
            } else {
                Action::ReadText { path }
            }
        },
        Request::LoadMetadata { name } => {
            let path = get_metadata_path(dir, name.as_str());
            if index == 2 {
                Action::Probe { path }
            } else {
                Action::ReadText { path }
            }
        },
        Request::HasFile { name } => Action::Probe { path: get_payload_path(dir, name.as_str()) },
        Request::ListFiles => Action::List { path: get_files_dir(dir) },
        Request::LoadConfig => Action::ReadText { path: get_config_file_path(dir) },
        Request::LoadHistory => Action::ReadText { path: get_history_file_path(dir) },
        Request::SaveFile { name, data, metadata } => {
            if index == 2 {
                Action::WriteText { path: get_payload_path(dir, name.as_str()), text: data.clone() }
            } else if index == 3 {
                Action::WriteText {
                    path: get_metadata_path(dir, name.as_str()),
                    text: metadata.clone(),
                }
            } else if index == 4 {
                Action::SetReadOnly { path: get_payload_path(dir, name.as_str()), read_only: true }
            } else {
                Action::SetReadOnly { path: get_metadata_path(dir, name.as_str()), read_only: true }
            }
        },
        Request::DeleteFile { name } => {
            let path = if index < 5 {
                get_payload_path(dir, name.as_str())
            } else {
                get_metadata_path(dir, name.as_str())
            };
            if index == 2 || index == 5 {
                Action::Probe { path }
            } else if index == 3 || index == 6 {
                Action::SetReadOnly { path, read_only: false }
            } else {
                Action::Remove { path }
            }
        },
        _ => unreached(),
    }
}

fn action_at(task: &Task, index: usize) -> (action: Action)
    requires
        index < script(task@).len(),
    ensures
        action@ == script(task@)[index as int],
{
    match task {
        Task::Store { data_dir, request } => {
            if index == 0 {
                Action::CreateDirs { path: data_dir.clone() }
            } else if index == 1 {
                let dir = data_dir.as_str();
                match request {
                    Request::SaveConfig { data } => Action::WriteText {
                        path: get_config_file_path(dir),
                        text: data.clone(),
                    },
                    Request::SaveHistory { data } => Action::WriteText {
                        path: get_history_file_path(dir),
                        text: data.clone(),
                    },
                    Request::LoadConfig | Request::HasConfig => Action::Probe {
                        path: get_config_file_path(dir),
                    },
                    Request::LoadHistory => Action::Probe { path: get_history_file_path(dir) },
                    _ => Action::CreateDirs { path: get_files_dir(dir) },
                }
            } else {
                store_action_at(data_dir, request, index)
            }
        },
        Task::Export { path, parent, data } => match parent {
            Some(dir) => {
                if index == 0 {
                    Action::CreateDirs { path: dir.clone() }
                } else {
                    Action::WriteBytes { path: path.clone(), bytes: clone_bytes(data) }
                }
            },
            None => Action::WriteBytes { path: path.clone(), bytes: clone_bytes(data) },
        },
    }
}

fn confirmation_of(task: &Task) -> (text: String)
    ensures
        text@ == confirmation(task@),
{
    match task {
        Task::Store { request, .. } => match request {
            Request::SaveConfig { .. } => String::from_str("Configuration saved successfully"),
            Request::SaveHistory { .. } => String::from_str("History saved successfully"),
            Request::SaveFile { name, .. } => String::from_str("File ").concat(
                name.as_str(),
            ).concat(" saved successfully"),
            Request::DeleteFile { name } => String::from_str("File ").concat(
                name.as_str(),
            ).concat(" deleted successfully"),
            _ => String::new(),
        },
        Task::Export { path, .. } => String::from_str("File saved to ").concat(path.as_str()),
    }
}

fn absent_of(task: &Task) -> (outcome: Result<Reply, StoreError>)
    ensures
        outcome_view(outcome) == absent(task@),
{
    match task {
        Task::Store { request: Request::LoadFile { name }, .. } => Err(
            StoreError::new(
                ErrorKind::NotFound,
                String::from_str("File ").concat(name.as_str()).concat(" not found"),
            ),
        ),
        Task::Store { request: Request::LoadMetadata { name }, .. } => Err(
            StoreError::new(
                ErrorKind::NotFound,
                String::from_str("Metadata for ").concat(name.as_str()).concat(" not found"),
            ),
        ),
        Task::Store { request: Request::LoadHistory, .. } => Ok(Reply::Text(String::new())),
        _ => Err(
            StoreError::new(ErrorKind::NotFound, String::from_str("No configuration file found")),
        ),
    }
}

fn failure_of(task: &Task, action: &Action, reason: String) -> (error: StoreError)
    ensures
        error@ == failure(task@, action@, reason@),
{
    let kind = match action {
        Action::CreateDirs { .. } => ErrorKind::DirectoryUnavailable,
        Action::ReadText { .. } | Action::List { .. } => ErrorKind::ReadFailure,
        Action::SetReadOnly { .. } => ErrorKind::PermissionFailure,
        _ => ErrorKind::WriteFailure,
    };
    let message = match task {
        Task::Export { .. } => match action {
            Action::CreateDirs { .. } => String::from_str("Failed to create directory: ").concat(
                reason.as_str(),
            ),
            _ => String::from_str("Failed to write file: ").concat(reason.as_str()),
        },
        Task::Store { .. } => reason,
    };
    StoreError::new(kind, message)
}

impl Session {
    /// The session is somewhere in its script, or behind it.
    #[verifier::type_invariant]
    spec fn in_script(self) -> bool {
        self.cursor <= script(self.task@).len()
    }

    /// The session has ended.
    pub open spec fn finished(&self) -> bool {
        self@.cursor >= script(self@.task).len()
    }

    /// The session waits for an answer to its pending action, and `event` is
    /// one.
    pub open spec fn expects(&self, event: EventView) -> bool {
        0 <= self@.cursor < script(self@.task).len() && answers(
            script(self@.task)[self@.cursor],
            event,
        )
    }

    /// Starts a session on `task`: the session, and the first action of the
    /// task's script.
    pub fn start(task: Task) -> (started: (Session, Action))
        ensures
            started.0@ == fresh(task@),
            started.1@ == script(task@)[0],
    {
        let action = action_at(&task, 0);
        (Session { task, cursor: 0 }, action)
    }

    /// Whether the session has ended.
    pub fn is_finished(&self) -> (done: bool)
        ensures
            done == self.finished(),
    {
        self.cursor >= script_len(&self.task)
    }

    /// Whether `event` answers the action that the session waits on.
    pub fn accepts(&self, event: &Event) -> (fits: bool)
        ensures
            fits == self.expects(event@),
    {
        if self.cursor >= script_len(&self.task) {
            return false;
        }
        let pending = action_at(&self.task, self.cursor);
        match pending {
            Action::Probe { .. } => match event {
                Event::Exists(_) => true,
                _ => false,
            },
            Action::ReadText { .. } => match event {
                Event::Text(_) | Event::Failed(_) => true,
                _ => false,
            },
            Action::List { .. } => match event {
                Event::Entries(_) | Event::Failed(_) => true,
                _ => false,
            },
            Action::Finish { .. } => false,
            _ => match event {
                Event::Done | Event::Failed(_) => true,
                _ => false,
            },
        }
    }

    fn finish(&mut self, outcome: Result<Reply, StoreError>) -> (action: Action)
        ensures
            final(self)@.task == old(self)@.task,
            (final(self)@.cursor, action@) == finish(old(self)@.task, outcome_view(outcome)),
    {
        self.cursor = script_len(&self.task);
        Action::Finish { outcome }
    }

    fn proceed(&mut self, cursor: usize) -> (action: Action)
        ensures
            final(self)@.task == old(self)@.task,
            (final(self)@.cursor, action@) == proceed(old(self)@.task, cursor as int),
    {
        if cursor < script_len(&self.task) {
            self.cursor = cursor;
            action_at(&self.task, cursor)
        } else {
            let text = confirmation_of(&self.task);
            self.finish(Ok(Reply::Text(text)))
        }
    }

    /// Takes the answer to the pending action and names the next one. The
    /// session ends, with the action `Finish`, at the first failure, at the
    /// answer that settles the request, or behind the last action of its
    /// script.
    pub fn advance(&mut self, event: Event) -> (action: Action)
        requires
            old(self).expects(event@),
        ensures
            final(self)@.task == old(self)@.task,
            (final(self)@.cursor, action@) == step(old(self)@.task, old(self)@.cursor, event@),
    {
        match event {
            Event::Done => self.proceed(self.cursor + 1),
            Event::Failed(reason) => {
                let pending = action_at(&self.task, self.cursor);
                let error = failure_of(&self.task, &pending, reason);
                self.finish(Err(error))
            },
            Event::Exists(present) => {
                match &self.task {
                    Task::Store { request: Request::HasConfig, .. }
                    | Task::Store { request: Request::HasFile { .. }, .. } => self.finish(
                        Ok(Reply::Flag(present)),
                    ),
                    Task::Store { request: Request::DeleteFile { .. }, .. } => {
                        if present {
                            self.proceed(self.cursor + 1)
                        } else {
                            self.proceed(self.cursor + 3)
                        }
                    },
                    _ => {
                        if present {
                            self.proceed(self.cursor + 1)
                        } else {
                            let outcome = absent_of(&self.task);
                            self.finish(outcome)
                        }
                    },
                }
            },
            Event::Text(text) => self.finish(Ok(Reply::Text(text))),
            Event::Entries(entries) => {
                let names = saved_file_names(&entries);
                self.finish(Ok(Reply::Names(names)))
            },
        }
    }
}

} // verus!
