//! The operations the store offers, each as the start of a session.
//!
//! Every function here returns the session and its first action. The caller
//! carries the action out, reports how it went with
//! [`Session::advance`](crate::session::Session::advance), and goes on with the
//! action that comes back, until that action is `Finish`.
//!
//! Each contract names the task the session serves, and says what that task
//! comes to when every action is carried out faithfully: on the disk of
//! [`crate::disk`]. How a session ends when an action fails for another reason
//! is what [`step`](crate::session::step) says.

use vstd::prelude::*;
use crate::disk::{perform, Disk};
use crate::effects::{
    config_asked, config_load_effect, config_loaded, config_save_effect, config_saved,
    export_effect, exported, file_asked, file_delete_effect, file_deleted, file_load_effect,
    file_loaded, file_save_effect, file_saved, files_listed, has_config_effect, has_file_effect,
    history_load_effect, history_loaded, history_save_effect, history_saved, list_effect,
    metadata_load_effect, metadata_loaded,
};
use crate::platform::{parent_directory, parent_of};
use crate::protocol::{
    optional_text, store, Action, ActionView, Request, RequestView, Task, TaskView,
};
use crate::session::{fresh, Session};

verus! {

/// Starts the session that serves `request` below `data_dir`. It begins by
/// creating the data directory.
pub fn begin(data_dir: String, request: Request) -> (started: (Session, Action))
    ensures
        started.0@ == fresh(store(data_dir@, request@)),
        started.1@ == (ActionView::CreateDirs { path: data_dir@ }),
{
    Session::start(Task::Store { data_dir, request })
}

/// Replaces the configuration blob by `encrypted_data`.
pub fn save_encrypted_config(data_dir: String, encrypted_data: String) -> (started: (
    Session,
    Action,
))
    ensures
        started.0@ == fresh(
            store(data_dir@, RequestView::SaveConfig { data: encrypted_data@ }),
        ),
        started.1@ == (ActionView::CreateDirs { path: data_dir@ }),
        forall|disk: Disk| #[trigger]
            perform(started.0@.task, disk) == config_saved(disk, data_dir@, encrypted_data@),
{
    proof {
        assert forall|disk: Disk| #[trigger]
            perform(
                store(data_dir@, RequestView::SaveConfig { data: encrypted_data@ }),
                disk,
            ) == config_saved(disk, data_dir@, encrypted_data@) by {
            config_save_effect(disk, data_dir@, encrypted_data@);
        }
    }
    begin(data_dir, Request::SaveConfig { data: encrypted_data })
}

/// Reads the configuration blob. Without one the session ends in `NotFound`.
pub fn get_encrypted_config(data_dir: String) -> (started: (Session, Action))
    ensures
        started.0@ == fresh(store(data_dir@, RequestView::LoadConfig)),
        started.1@ == (ActionView::CreateDirs { path: data_dir@ }),
        forall|disk: Disk| #[trigger]
            perform(started.0@.task, disk) == config_loaded(disk, data_dir@),
{
    proof {
        assert forall|disk: Disk| #[trigger]
            perform(store(data_dir@, RequestView::LoadConfig), disk) == config_loaded(
                disk,
                data_dir@,
            ) by {
            config_load_effect(disk, data_dir@);
        }
    }
    begin(data_dir, Request::LoadConfig)
}

/// Tells whether a configuration blob exists.
pub fn has_config(data_dir: String) -> (started: (Session, Action))
    ensures
        started.0@ == fresh(store(data_dir@, RequestView::HasConfig)),
        started.1@ == (ActionView::CreateDirs { path: data_dir@ }),
        forall|disk: Disk| #[trigger]
            perform(started.0@.task, disk) == config_asked(disk, data_dir@),
{
    proof {
        assert forall|disk: Disk| #[trigger]
            perform(store(data_dir@, RequestView::HasConfig), disk) == config_asked(
                disk,
                data_dir@,
            ) by {
            has_config_effect(disk, data_dir@);
        }
    }
    begin(data_dir, Request::HasConfig)
}

/// Stores the file `file_name`: its payload `encrypted_data` and its
/// `metadata`, both read-only once written.
pub fn save_encrypted_file(
    data_dir: String,
    file_name: String,
    encrypted_data: String,
    metadata: String,
) -> (started: (Session, Action))
    ensures
        started.0@ == fresh(
            store(
                data_dir@,
                RequestView::SaveFile {
                    name: file_name@,
                    data: encrypted_data@,
                    metadata: metadata@,
                },
            ),
        ),
        started.1@ == (ActionView::CreateDirs { path: data_dir@ }),
        forall|disk: Disk| #[trigger]
            perform(started.0@.task, disk) == file_saved(
                disk,
                data_dir@,
                file_name@,
                encrypted_data@,
                metadata@,
            ),
{
    proof {
        assert forall|disk: Disk| #[trigger]
            perform(
                store(
                    data_dir@,
                    RequestView::SaveFile {
                        name: file_name@,
                        data: encrypted_data@,
                        metadata: metadata@,
                    },
                ),
                disk,
            ) == file_saved(disk, data_dir@, file_name@, encrypted_data@, metadata@) by {
            file_save_effect(disk, data_dir@, file_name@, encrypted_data@, metadata@);
        }
    }
    begin(data_dir, Request::SaveFile { name: file_name, data: encrypted_data, metadata })
}

/// Reads the payload of the file `file_name`. Without one the session ends in
/// `NotFound`.
pub fn get_encrypted_file(data_dir: String, file_name: String) -> (started: (Session, Action))
    ensures
        started.0@ == fresh(store(data_dir@, RequestView::LoadFile { name: file_name@ })),
        started.1@ == (ActionView::CreateDirs { path: data_dir@ }),
        forall|disk: Disk| #[trigger]
            perform(started.0@.task, disk) == file_loaded(disk, data_dir@, file_name@),
{
    proof {
        assert forall|disk: Disk| #[trigger]
            perform(store(data_dir@, RequestView::LoadFile { name: file_name@ }), disk)
                == file_loaded(disk, data_dir@, file_name@) by {
            file_load_effect(disk, data_dir@, file_name@);
        }
    }
    begin(data_dir, Request::LoadFile { name: file_name })
}

/// Reads the metadata of the file `file_name`. Without a sidecar the session
/// ends in `NotFound`.
pub fn get_file_metadata(data_dir: String, file_name: String) -> (started: (Session, Action))
    ensures
        started.0@ == fresh(store(data_dir@, RequestView::LoadMetadata { name: file_name@ })),
        started.1@ == (ActionView::CreateDirs { path: data_dir@ }),
        forall|disk: Disk| #[trigger]
            perform(started.0@.task, disk) == metadata_loaded(disk, data_dir@, file_name@),
{
    proof {
        assert forall|disk: Disk| #[trigger]
            perform(store(data_dir@, RequestView::LoadMetadata { name: file_name@ }), disk)
                == metadata_loaded(disk, data_dir@, file_name@) by {
            metadata_load_effect(disk, data_dir@, file_name@);
        }
    }
    begin(data_dir, Request::LoadMetadata { name: file_name })
}

/// Names the stored files, in the order in which the files directory
/// enumerates them.
pub fn list_saved_files(data_dir: String) -> (started: (Session, Action))
    ensures
        started.0@ == fresh(store(data_dir@, RequestView::ListFiles)),
        started.1@ == (ActionView::CreateDirs { path: data_dir@ }),
        forall|disk: Disk| #[trigger]
            perform(started.0@.task, disk) == files_listed(disk, data_dir@),
{
    proof {
        assert forall|disk: Disk| #[trigger]
            perform(store(data_dir@, RequestView::ListFiles), disk) == files_listed(
                disk,
                data_dir@,
            ) by {
            list_effect(disk, data_dir@);
        }
    }
    begin(data_dir, Request::ListFiles)
}

/// Tells whether the payload of the file `file_name` exists.
pub fn has_saved_file(data_dir: String, file_name: String) -> (started: (Session, Action))
    ensures
        started.0@ == fresh(store(data_dir@, RequestView::HasFile { name: file_name@ })),
        started.1@ == (ActionView::CreateDirs { path: data_dir@ }),
        forall|disk: Disk| #[trigger]
            perform(started.0@.task, disk) == file_asked(disk, data_dir@, file_name@),
{
    proof {
        assert forall|disk: Disk| #[trigger]
            perform(store(data_dir@, RequestView::HasFile { name: file_name@ }), disk)
                == file_asked(disk, data_dir@, file_name@) by {
            has_file_effect(disk, data_dir@, file_name@);
        }
    }
    begin(data_dir, Request::HasFile { name: file_name })
}

/// Removes what exists of the file `file_name`, unlocking each artifact
/// before it is removed.
pub fn delete_saved_file(data_dir: String, file_name: String) -> (started: (Session, Action))
    ensures
        started.0@ == fresh(store(data_dir@, RequestView::DeleteFile { name: file_name@ })),
        started.1@ == (ActionView::CreateDirs { path: data_dir@ }),
        forall|disk: Disk| #[trigger]
            perform(started.0@.task, disk) == file_deleted(disk, data_dir@, file_name@),
{
    proof {
        assert forall|disk: Disk| #[trigger]
            perform(store(data_dir@, RequestView::DeleteFile { name: file_name@ }), disk)
                == file_deleted(disk, data_dir@, file_name@) by {
            file_delete_effect(disk, data_dir@, file_name@);
        }
    }
    begin(data_dir, Request::DeleteFile { name: file_name })
}

/// Replaces the history blob by `encrypted_history`.
pub fn save_file_history(data_dir: String, encrypted_history: String) -> (started: (
    Session,
    Action,
))
    ensures
        started.0@ == fresh(
            store(data_dir@, RequestView::SaveHistory { data: encrypted_history@ }),
        ),
        started.1@ == (ActionView::CreateDirs { path: data_dir@ }),
        forall|disk: Disk| #[trigger]
            perform(started.0@.task, disk) == history_saved(disk, data_dir@, encrypted_history@),
{
    proof {
        assert forall|disk: Disk| #[trigger]
            perform(
                store(data_dir@, RequestView::SaveHistory { data: encrypted_history@ }),
                disk,
            ) == history_saved(disk, data_dir@, encrypted_history@) by {
            history_save_effect(disk, data_dir@, encrypted_history@);
        }
    }
    begin(data_dir, Request::SaveHistory { data: encrypted_history })
}

/// Reads the history blob. Without one the session ends with the empty string.
pub fn get_file_history(data_dir: String) -> (started: (Session, Action))
    ensures
        started.0@ == fresh(store(data_dir@, RequestView::LoadHistory)),
        started.1@ == (ActionView::CreateDirs { path: data_dir@ }),
        forall|disk: Disk| #[trigger]
            perform(started.0@.task, disk) == history_loaded(disk, data_dir@),
{
    proof {
        assert forall|disk: Disk| #[trigger]
            perform(store(data_dir@, RequestView::LoadHistory), disk) == history_loaded(
                disk,
                data_dir@,
            ) by {
            history_load_effect(disk, data_dir@);
        }
    }
    begin(data_dir, Request::LoadHistory)
}

/// Starts the export of `file_data` to `file_path`, given the directory that
/// holds the path, if it has one: that directory is created first, then the
/// bytes are written.
pub fn export_into(parent: Option<String>, file_path: String, file_data: Vec<u8>) -> (started: (
    Session,
    Action,
))
    ensures
        started.0@ == fresh(
            TaskView::Export {
                path: file_path@,
                parent: optional_text(parent),
                data: file_data@,
            },
        ),
        started.1@ == (match parent {
            Some(dir) => ActionView::CreateDirs { path: dir@ },
            None => ActionView::WriteBytes { path: file_path@, bytes: file_data@ },
        }),
        forall|disk: Disk| #[trigger]
            perform(started.0@.task, disk) == exported(disk, file_path@, file_data@),
{
    proof {
        assert forall|disk: Disk| #[trigger]
            perform(
                TaskView::Export {
                    path: file_path@,
                    parent: optional_text(parent),
                    data: file_data@,
                },
                disk,
            ) == exported(disk, file_path@, file_data@) by {
            export_effect(disk, file_path@, optional_text(parent), file_data@);
        }
    }
    Session::start(Task::Export { path: file_path, parent, data: file_data })
}

/// Starts the export of `file_data` to `file_path`, a path of the user's
/// choice outside the store: the directory that holds the path, where it has
/// one, is created first, then the bytes are written.
pub fn save_file_to_user_location(file_path: String, file_data: Vec<u8>) -> (started: (
    Session,
    Action,
))
    ensures
        started.0@ == fresh(
            TaskView::Export {
                path: file_path@,
                parent: parent_of(file_path@),
                data: file_data@,
            },
        ),
        started.1@ == (match parent_of(file_path@) {
            Some(dir) => ActionView::CreateDirs { path: dir },
            None => ActionView::WriteBytes { path: file_path@, bytes: file_data@ },
        }),
        file_path@.len() == 0 ==> parent_of(file_path@) is None,
        forall|disk: Disk| #[trigger]
            perform(started.0@.task, disk) == exported(disk, file_path@, file_data@),
{
    let parent = parent_directory(file_path.as_str());
    export_into(parent, file_path, file_data)
}

} // verus!
