//! The vocabulary of a session: the requests the store serves, the file-system
//! actions it asks for, the events that answer them, and what it replies.

use vstd::prelude::*;
use crate::error::{ErrorKind, Fault, StoreError};
use crate::paths::texts;

verus! {

/// A request to the store.
#[derive(PartialEq, Eq, Debug)]
pub enum Request {
    /// Replace the configuration blob.
    SaveConfig { data: String },
    /// Read the configuration blob, which must exist.
    LoadConfig,
    /// Tell whether a configuration blob exists.
    HasConfig,
    /// Replace the history blob.
    SaveHistory { data: String },
    /// Read the history blob; an absent one reads as the empty string.
    LoadHistory,
    /// Store a named file: its payload and its metadata sidecar.
    SaveFile { name: String, data: String, metadata: String },
    /// Read the payload of a named file.
    LoadFile { name: String },
    /// Read the metadata sidecar of a named file.
    LoadMetadata { name: String },
    /// Tell whether the payload of a named file exists.
    HasFile { name: String },
    /// Remove what exists of a named file.
    DeleteFile { name: String },
    /// Name the stored files.
    ListFiles,
}

/// The mathematical value of a [`Request`].
pub enum RequestView {
    SaveConfig { data: Seq<char> },
    LoadConfig,
    HasConfig,
    SaveHistory { data: Seq<char> },
    LoadHistory,
    SaveFile { name: Seq<char>, data: Seq<char>, metadata: Seq<char> },
    LoadFile { name: Seq<char> },
    LoadMetadata { name: Seq<char> },
    HasFile { name: Seq<char> },
    DeleteFile { name: Seq<char> },
    ListFiles,
}

impl View for Request {
    type V = RequestView;

    open spec fn view(&self) -> RequestView {
        match *self {
            Request::SaveConfig { data } => RequestView::SaveConfig { data: data@ },
            Request::LoadConfig => RequestView::LoadConfig,
            Request::HasConfig => RequestView::HasConfig,
            Request::SaveHistory { data } => RequestView::SaveHistory { data: data@ },
            Request::LoadHistory => RequestView::LoadHistory,
            Request::SaveFile { name, data, metadata } => RequestView::SaveFile {
                name: name@,
                data: data@,
                metadata: metadata@,
            },
            Request::LoadFile { name } => RequestView::LoadFile { name: name@ },
            Request::LoadMetadata { name } => RequestView::LoadMetadata { name: name@ },
            Request::HasFile { name } => RequestView::HasFile { name: name@ },
            Request::DeleteFile { name } => RequestView::DeleteFile { name: name@ },
            Request::ListFiles => RequestView::ListFiles,
        }
    }
}

/// What a session works on: a request to the store below a data directory, or
/// the export of bytes to a path of the user's choice.
#[derive(PartialEq, Eq, Debug)]
pub enum Task {
    Store { data_dir: String, request: Request },
    /// `parent` is the directory that holds `path`, where `path` has one.
    Export { path: String, parent: Option<String>, data: Vec<u8> },
}

/// The mathematical value of a [`Task`].
pub enum TaskView {
    Store { data_dir: Seq<char>, request: RequestView },
    Export { path: Seq<char>, parent: Option<Seq<char>>, data: Seq<u8> },
}

/// The text of an optional string.
pub open spec fn optional_text(s: Option<String>) -> Option<Seq<char>> {
    match s {
        Some(s) => Some(s@),
        None => None,
    }
}

impl View for Task {
    type V = TaskView;

    open spec fn view(&self) -> TaskView {
        match *self {
            Task::Store { data_dir, request } => TaskView::Store {
                data_dir: data_dir@,
                request: request@,
            },
            Task::Export { path, parent, data } => TaskView::Export {
                path: path@,
                parent: optional_text(parent),
                data: data@,
            },
        }
    }
}

/// The task of serving `request` below `data_dir`.
pub open spec fn store(data_dir: Seq<char>, request: RequestView) -> TaskView {
    TaskView::Store { data_dir, request }
}

/// What a finished session hands back on success.
#[derive(PartialEq, Eq, Debug)]
pub enum Reply {
    /// A confirmation, or the text that was read.
    Text(String),
    /// The answer to a question of existence.
    Flag(bool),
    /// The names of the stored files.
    Names(Vec<String>),
}

/// The mathematical value of a [`Reply`].
pub enum ReplyView {
    Text(Seq<char>),
    Flag(bool),
    Names(Seq<Seq<char>>),
}

impl View for Reply {
    type V = ReplyView;

    open spec fn view(&self) -> ReplyView {
        match *self {
            Reply::Text(text) => ReplyView::Text(text@),
            Reply::Flag(flag) => ReplyView::Flag(flag),
            Reply::Names(names) => ReplyView::Names(texts(names@)),
        }
    }
}

/// The mathematical value of a session's outcome.
pub open spec fn outcome_view(outcome: Result<Reply, StoreError>) -> Result<ReplyView, Fault> {
    match outcome {
        Ok(reply) => Ok(reply@),
        Err(error) => Err(error@),
    }
}

/// What a session asks its caller to do next.
#[derive(PartialEq, Eq, Debug)]
pub enum Action {
    /// Create the directory and every missing ancestor of it.
    CreateDirs { path: String },
    /// Find out whether anything exists at the path.
    Probe { path: String },
    /// Read the file as text.
    ReadText { path: String },
    /// Write the text to the file, replacing what it held.
    WriteText { path: String, text: String },
    /// Write the bytes to the file, replacing what it held.
    WriteBytes { path: String, bytes: Vec<u8> },
    /// Set or clear the read-only attribute of the file.
    SetReadOnly { path: String, read_only: bool },
    /// Remove the file.
    Remove { path: String },
    /// Enumerate the file names in the directory.
    List { path: String },
    /// Nothing more: the session has ended with this outcome.
    Finish { outcome: Result<Reply, StoreError> },
}

/// The mathematical value of an [`Action`].
pub enum ActionView {
    CreateDirs { path: Seq<char> },
    Probe { path: Seq<char> },
    ReadText { path: Seq<char> },
    WriteText { path: Seq<char>, text: Seq<char> },
    WriteBytes { path: Seq<char>, bytes: Seq<u8> },
    SetReadOnly { path: Seq<char>, read_only: bool },
    Remove { path: Seq<char> },
    List { path: Seq<char> },
    Finish { outcome: Result<ReplyView, Fault> },
}

impl View for Action {
    type V = ActionView;

    open spec fn view(&self) -> ActionView {
        match *self {
            Action::CreateDirs { path } => ActionView::CreateDirs { path: path@ },
            Action::Probe { path } => ActionView::Probe { path: path@ },
            Action::ReadText { path } => ActionView::ReadText { path: path@ },
            Action::WriteText { path, text } => ActionView::WriteText { path: path@, text: text@ },
            Action::WriteBytes { path, bytes } => ActionView::WriteBytes {
                path: path@,
                bytes: bytes@,
            },
            Action::SetReadOnly { path, read_only } => ActionView::SetReadOnly {
                path: path@,
                read_only,
            },
            Action::Remove { path } => ActionView::Remove { path: path@ },
            Action::List { path } => ActionView::List { path: path@ },
            Action::Finish { outcome } => ActionView::Finish { outcome: outcome_view(outcome) },
        }
    }
}

/// How an action went.
#[derive(PartialEq, Eq, Debug)]
pub enum Event {
    /// The action was carried out and has nothing to report.
    Done,
    /// The action failed, for the reason the platform gave.
    Failed(String),
    /// The answer to a probe.
    Exists(bool),
    /// The text that was read.
    Text(String),
    /// The file names that were found.
    Entries(Vec<String>),
}

/// The mathematical value of an [`Event`].
pub enum EventView {
    Done,
    Failed(Seq<char>),
    Exists(bool),
    Text(Seq<char>),
    Entries(Seq<Seq<char>>),
}

impl View for Event {
    type V = EventView;

    open spec fn view(&self) -> EventView {
        match *self {
            Event::Done => EventView::Done,
            Event::Failed(reason) => EventView::Failed(reason@),
            Event::Exists(present) => EventView::Exists(present),
            Event::Text(text) => EventView::Text(text@),
            Event::Entries(entries) => EventView::Entries(texts(entries@)),
        }
    }
}

/// The permission bits that stand for the read-only attribute on a platform
/// that has such bits: everyone may read, and the owner may write besides
/// while the attribute is cleared.
pub open spec fn mode_bits(read_only: bool) -> u32 {
    if read_only {
        0o444
    } else {
        0o644
    }
}

/// The permission bits to give a file whose read-only attribute is to be
/// `read_only`.
pub fn unix_mode(read_only: bool) -> (mode: u32)
    ensures
        mode == mode_bits(read_only),
{
    if read_only {
        0o444
    } else {
        0o644
    }
}

/// Whether an event is an answer to an action. A probe always yields an
/// answer; every other action either succeeds in its own way or fails.
pub open spec fn answers(action: ActionView, event: EventView) -> bool {
    match action {
        ActionView::Probe { .. } => event is Exists,
        ActionView::ReadText { .. } => event is Text || event is Failed,
        ActionView::List { .. } => event is Entries || event is Failed,
        ActionView::Finish { .. } => false,
        _ => event is Done || event is Failed,
    }
}

/// The kind of error that the failure of an action is.
pub open spec fn failure_kind(action: ActionView) -> ErrorKind {
    match action {
        ActionView::CreateDirs { .. } => ErrorKind::DirectoryUnavailable,
        ActionView::ReadText { .. } | ActionView::List { .. } => ErrorKind::ReadFailure,
        ActionView::SetReadOnly { .. } => ErrorKind::PermissionFailure,
        _ => ErrorKind::WriteFailure,
    }
}

} // verus!
