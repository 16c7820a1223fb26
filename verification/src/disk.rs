//! A model of the disk below the store.
//!
//! The store itself never touches a disk: it names actions and is told how
//! they went. What its sessions achieve can therefore only be said relative to
//! a disk that answers. This module describes a faithful one and what a task
//! comes to when its session is run against it.
//!
//! The model knows files, not directories: every directory can be created, a
//! file can be written wherever no read-only file is in the way, and the
//! entries of a directory are the files directly in it. A read-only file can
//! be neither overwritten nor removed.

use vstd::prelude::*;
use crate::error::Fault;
use crate::paths::{join, separator};
use crate::protocol::{ActionView, EventView, ReplyView, TaskView};
use crate::session::{script, step};

verus! {

/// What a file holds.
pub enum Content {
    Text(Seq<char>),
    Bytes(Seq<u8>),
}

/// A file: what it holds, and whether it is read-only.
pub struct File {
    pub content: Content,
    pub read_only: bool,
}

/// A disk: the files on it, by path.
pub struct Disk {
    pub files: Map<Seq<char>, File>,
}

/// The reason the model gives when a read-only file is in the way.
pub open spec fn denied() -> Seq<char> {
    "Permission denied"@
}

/// The reason the model gives when a file is absent or is no text.
pub open spec fn unreadable() -> Seq<char> {
    "No such file"@
}

impl Disk {
    /// There is a file at `path`.
    pub open spec fn holds(self, path: Seq<char>) -> bool {
        self.files.contains_key(path)
    }

    /// There is a read-only file at `path`.
    pub open spec fn locked(self, path: Seq<char>) -> bool {
        self.holds(path) && self.files[path].read_only
    }

    /// There is a file at `path` that holds `text`.
    pub open spec fn holds_text(self, path: Seq<char>, text: Seq<char>) -> bool {
        self.holds(path) && self.files[path].content == Content::Text(text)
    }

    /// The disk after `content` was written to `path`: a writable file.
    pub open spec fn put(self, path: Seq<char>, content: Content) -> Disk {
        Disk { files: self.files.insert(path, File { content, read_only: false }) }
    }

    /// The disk after the read-only attribute of the file at `path` was set to
    /// `read_only`.
    pub open spec fn mark(self, path: Seq<char>, read_only: bool) -> Disk {
        Disk {
            files: self.files.insert(path, File { content: self.files[path].content, read_only }),
        }
    }

    /// The disk without the file at `path`.
    pub open spec fn without(self, path: Seq<char>) -> Disk {
        Disk { files: self.files.remove(path) }
    }

    /// `name` is an entry of the directory `dir`: a single component under
    /// which the directory holds a file.
    pub open spec fn has_entry(self, dir: Seq<char>, name: Seq<char>) -> bool {
        name.len() > 0 && !name.contains(separator()) && self.holds(join(dir, name))
    }

    /// `entries` enumerates the directory `dir`: every entry once, in some
    /// order.
    pub open spec fn lists(self, dir: Seq<char>, entries: Seq<Seq<char>>) -> bool {
        entries.no_duplicates() && forall|name: Seq<char>|
            entries.contains(name) <==> self.has_entry(dir, name)
    }

    /// Some enumeration of the directory `dir`.
    pub open spec fn listing(self, dir: Seq<char>) -> Seq<Seq<char>> {
        choose|entries: Seq<Seq<char>>| self.lists(dir, entries)
    }

    /// How the disk answers an action, and what it is afterwards.
    pub open spec fn respond(self, action: ActionView) -> (Disk, EventView) {
        match action {
            ActionView::CreateDirs { .. } => (self, EventView::Done),
            ActionView::Probe { path } => (self, EventView::Exists(self.holds(path))),
            ActionView::ReadText { path } => if self.holds(path) {
                match self.files[path].content {
                    Content::Text(text) => (self, EventView::Text(text)),
                    Content::Bytes(_) => (self, EventView::Failed(unreadable())),
                }
            } else {
                (self, EventView::Failed(unreadable()))
            },
            ActionView::WriteText { path, text } => if self.locked(path) {
                (self, EventView::Failed(denied()))
            } else {
                (self.put(path, Content::Text(text)), EventView::Done)
            },
            ActionView::WriteBytes { path, bytes } => if self.locked(path) {
                (self, EventView::Failed(denied()))
            } else {
                (self.put(path, Content::Bytes(bytes)), EventView::Done)
            },
            ActionView::SetReadOnly { path, read_only } => if self.holds(path) {
                (self.mark(path, read_only), EventView::Done)
            } else {
                (self, EventView::Failed(unreadable()))
            },
            ActionView::Remove { path } => if self.holds(path) && !self.locked(path) {
                (self.without(path), EventView::Done)
            } else if self.holds(path) {
                (self, EventView::Failed(denied()))
            } else {
                (self, EventView::Failed(unreadable()))
            },
            ActionView::List { path } => (self, EventView::Entries(self.listing(path))),
            ActionView::Finish { .. } => (self, EventView::Done),
        }
    }
}

/// What a session on `task` that stands at `cursor` comes to on `disk`: the
/// disk it leaves behind and its outcome.
pub open spec fn run(task: TaskView, cursor: int, disk: Disk) -> (Disk, Result<ReplyView, Fault>)
    decreases script(task).len() - cursor,
    when 0 <= cursor < script(task).len()
{
    let (after, event) = disk.respond(script(task)[cursor]);
    let (next, action) = step(task, cursor, event);
    match action {
        ActionView::Finish { outcome } => (after, outcome),
        _ => run(task, next, after),
    }
}

/// What `task` comes to on `disk`, from its first action to its outcome.
pub open spec fn perform(task: TaskView, disk: Disk) -> (Disk, Result<ReplyView, Fault>) {
    run(task, 0, disk)
}

} // verus!
