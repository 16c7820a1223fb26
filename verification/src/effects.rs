//! What each operation of the store comes to on a faithful disk.
//!
//! For every operation a function says directly, without steps, which disk it
//! leaves behind and how it ends; a proof beside it shows that the run of the
//! operation's session against the disk of [`crate::disk`] comes to exactly
//! that.

use vstd::prelude::*;
use crate::disk::{denied, perform, run, unreadable, Content, Disk};
use crate::error::{ErrorKind, Fault};
use crate::paths::{
    artifacts_differ, config_file_path, files_dir, history_file_path, metadata_path,
    payload_path, saved_names,
};
use crate::protocol::{store, ReplyView, RequestView, TaskView};

verus! {

/// The error of a write that a read-only file refused.
pub open spec fn write_denied() -> Fault {
    Fault { kind: ErrorKind::WriteFailure, message: denied() }
}

/// The error for a file that should exist.
pub open spec fn not_found(message: Seq<char>) -> Fault {
    Fault { kind: ErrorKind::NotFound, message }
}

/// Writing a blob: the file at `path` holds `text` afterwards and the
/// operation confirms it, unless a read-only file is in the way. Then the
/// disk stays as it is and the operation fails with `WriteFailure`.
pub open spec fn blob_written(
    disk: Disk,
    path: Seq<char>,
    text: Seq<char>,
    confirmation: Seq<char>,
) -> (Disk, Result<ReplyView, Fault>) {
    if disk.locked(path) {
        (disk, Err(write_denied()))
    } else {
        (disk.put(path, Content::Text(text)), Ok(ReplyView::Text(confirmation)))
    }
}

/// Reading a text: the disk stays as it is. Where the file is absent the
/// operation ends as `absent` says; otherwise it yields the text, or fails
/// with `ReadFailure` where the file holds none.
pub open spec fn text_read(disk: Disk, path: Seq<char>, absent: Result<ReplyView, Fault>) -> (
    Disk,
    Result<ReplyView, Fault>,
) {
    if !disk.holds(path) {
        (disk, absent)
    } else {
        match disk.files[path].content {
            Content::Text(text) => (disk, Ok(ReplyView::Text(text))),
            Content::Bytes(_) => (
                disk,
                Err(Fault { kind: ErrorKind::ReadFailure, message: unreadable() }),
            ),
        }
    }
}

/// Asking for a file: the disk stays as it is, and the answer is whether the
/// file exists.
pub open spec fn existence_told(disk: Disk, path: Seq<char>) -> (Disk, Result<ReplyView, Fault>) {
    (disk, Ok(ReplyView::Flag(disk.holds(path))))
}

/// What saving the configuration comes to.
pub open spec fn config_saved(disk: Disk, data_dir: Seq<char>, data: Seq<char>) -> (
    Disk,
    Result<ReplyView, Fault>,
) {
    blob_written(disk, config_file_path(data_dir), data, "Configuration saved successfully"@)
}

/// What reading the configuration comes to: without one, `NotFound`.
pub open spec fn config_loaded(disk: Disk, data_dir: Seq<char>) -> (
    Disk,
    Result<ReplyView, Fault>,
) {
    text_read(disk, config_file_path(data_dir), Err(not_found("No configuration file found"@)))
}

/// What asking for the configuration comes to.
pub open spec fn config_asked(disk: Disk, data_dir: Seq<char>) -> (
    Disk,
    Result<ReplyView, Fault>,
) {
    existence_told(disk, config_file_path(data_dir))
}

/// What saving the history comes to.
pub open spec fn history_saved(disk: Disk, data_dir: Seq<char>, data: Seq<char>) -> (
    Disk,
    Result<ReplyView, Fault>,
) {
    blob_written(disk, history_file_path(data_dir), data, "History saved successfully"@)
}

/// What reading the history comes to: without one, the empty text.
pub open spec fn history_loaded(disk: Disk, data_dir: Seq<char>) -> (
    Disk,
    Result<ReplyView, Fault>,
) {
    text_read(disk, history_file_path(data_dir), Ok(ReplyView::Text(Seq::empty())))
}

/// What saving a file comes to. A read-only payload in the way refuses the
/// save outright. A read-only sidecar in the way refuses it after the payload
/// was written, and the payload stays, writable. Otherwise both artifacts hold
/// what was handed in and both are read-only.
pub open spec fn file_saved(
    disk: Disk,
    data_dir: Seq<char>,
    name: Seq<char>,
    data: Seq<char>,
    metadata: Seq<char>,
) -> (Disk, Result<ReplyView, Fault>) {
    let payload = payload_path(data_dir, name);
    let sidecar = metadata_path(data_dir, name);
    if disk.locked(payload) {
        (disk, Err(write_denied()))
    } else if disk.locked(sidecar) {
        (disk.put(payload, Content::Text(data)), Err(write_denied()))
    } else {
        (
            disk.put(payload, Content::Text(data)).put(sidecar, Content::Text(metadata)).mark(
                payload,
                true,
            ).mark(sidecar, true),
            Ok(ReplyView::Text("File "@ + name + " saved successfully"@)),
        )
    }
}

/// What reading a payload comes to: without one, `NotFound`.
pub open spec fn file_loaded(disk: Disk, data_dir: Seq<char>, name: Seq<char>) -> (
    Disk,
    Result<ReplyView, Fault>,
) {
    text_read(
        disk,
        payload_path(data_dir, name),
        Err(not_found("File "@ + name + " not found"@)),
    )
}

/// What reading a sidecar comes to: without one, `NotFound`.
pub open spec fn metadata_loaded(disk: Disk, data_dir: Seq<char>, name: Seq<char>) -> (
    Disk,
    Result<ReplyView, Fault>,
) {
    text_read(
        disk,
        metadata_path(data_dir, name),
        Err(not_found("Metadata for "@ + name + " not found"@)),
    )
}

/// What asking for a stored file comes to: the payload decides, the sidecar
/// is not looked at.
pub open spec fn file_asked(disk: Disk, data_dir: Seq<char>, name: Seq<char>) -> (
    Disk,
    Result<ReplyView, Fault>,
) {
    existence_told(disk, payload_path(data_dir, name))
}

/// What deleting a file comes to: what exists of it is gone, payload and
/// sidecar, read-only or not, and the deletion is confirmed. It succeeds on
/// every disk.
pub open spec fn file_deleted(disk: Disk, data_dir: Seq<char>, name: Seq<char>) -> (
    Disk,
    Result<ReplyView, Fault>,
) {
    (
        disk.without(payload_path(data_dir, name)).without(metadata_path(data_dir, name)),
        Ok(ReplyView::Text("File "@ + name + " deleted successfully"@)),
    )
}

/// What listing the stored files comes to: the disk stays as it is, and the
/// names are those of the payloads among the entries of the files directory.
pub open spec fn files_listed(disk: Disk, data_dir: Seq<char>) -> (
    Disk,
    Result<ReplyView, Fault>,
) {
    (disk, Ok(ReplyView::Names(saved_names(disk.listing(files_dir(data_dir))))))
}

/// What an export comes to: the file at `path` holds the bytes afterwards and
/// the export confirms it, unless a read-only file is in the way. Then the
/// disk stays as it is and the export fails with `WriteFailure`.
pub open spec fn exported(disk: Disk, path: Seq<char>, data: Seq<u8>) -> (
    Disk,
    Result<ReplyView, Fault>,
) {
    if disk.locked(path) {
        (
            disk,
            Err(
                Fault {
                    kind: ErrorKind::WriteFailure,
                    message: "Failed to write file: "@ + denied(),
                },
            ),
        )
    } else {
        (disk.put(path, Content::Bytes(data)), Ok(ReplyView::Text("File saved to "@ + path)))
    }
}

/// Saving the configuration comes to [`config_saved`].
pub proof fn config_save_effect(disk: Disk, data_dir: Seq<char>, data: Seq<char>)
    ensures
        perform(store(data_dir, RequestView::SaveConfig { data }), disk) == config_saved(
            disk,
            data_dir,
            data,
        ),
{
    reveal_with_fuel(run, 3);
}

/// Reading the configuration comes to [`config_loaded`].
pub proof fn config_load_effect(disk: Disk, data_dir: Seq<char>)
    ensures
        perform(store(data_dir, RequestView::LoadConfig), disk) == config_loaded(disk, data_dir),
{
    reveal_with_fuel(run, 4);
}

/// Asking for the configuration comes to [`config_asked`].
pub proof fn has_config_effect(disk: Disk, data_dir: Seq<char>)
    ensures
        perform(store(data_dir, RequestView::HasConfig), disk) == config_asked(disk, data_dir),
{
    reveal_with_fuel(run, 3);
}

/// Saving the history comes to [`history_saved`].
pub proof fn history_save_effect(disk: Disk, data_dir: Seq<char>, data: Seq<char>)
    ensures
        perform(store(data_dir, RequestView::SaveHistory { data }), disk) == history_saved(
            disk,
            data_dir,
            data,
        ),
{
    reveal_with_fuel(run, 3);
}

/// Reading the history comes to [`history_loaded`].
pub proof fn history_load_effect(disk: Disk, data_dir: Seq<char>)
    ensures
        perform(store(data_dir, RequestView::LoadHistory), disk) == history_loaded(
            disk,
            data_dir,
        ),
{
    reveal_with_fuel(run, 4);
}

/// Saving a file comes to [`file_saved`].
pub proof fn file_save_effect(
    disk: Disk,
    data_dir: Seq<char>,
    name: Seq<char>,
    data: Seq<char>,
    metadata: Seq<char>,
)
    ensures
        perform(store(data_dir, RequestView::SaveFile { name, data, metadata }), disk)
            == file_saved(disk, data_dir, name, data, metadata),
{
    artifacts_differ(data_dir, name);
    reveal_with_fuel(run, 7);
}

/// Reading a payload comes to [`file_loaded`].
pub proof fn file_load_effect(disk: Disk, data_dir: Seq<char>, name: Seq<char>)
    ensures
        perform(store(data_dir, RequestView::LoadFile { name }), disk) == file_loaded(
            disk,
            data_dir,
            name,
        ),
{
    reveal_with_fuel(run, 5);
}

/// Reading a sidecar comes to [`metadata_loaded`].
pub proof fn metadata_load_effect(disk: Disk, data_dir: Seq<char>, name: Seq<char>)
    ensures
        perform(store(data_dir, RequestView::LoadMetadata { name }), disk) == metadata_loaded(
            disk,
            data_dir,
            name,
        ),
{
    reveal_with_fuel(run, 5);
}

/// Asking for a stored file comes to [`file_asked`].
pub proof fn has_file_effect(disk: Disk, data_dir: Seq<char>, name: Seq<char>)
    ensures
        perform(store(data_dir, RequestView::HasFile { name }), disk) == file_asked(
            disk,
            data_dir,
            name,
        ),
{
    reveal_with_fuel(run, 4);
}

/// Deleting a file comes to [`file_deleted`].
pub proof fn file_delete_effect(disk: Disk, data_dir: Seq<char>, name: Seq<char>)
    ensures
        perform(store(data_dir, RequestView::DeleteFile { name }), disk) == file_deleted(
            disk,
            data_dir,
            name,
        ),
{
    artifacts_differ(data_dir, name);
    reveal_with_fuel(run, 9);
    let task = store(data_dir, RequestView::DeleteFile { name });
    assert(perform(task, disk).0.files =~= file_deleted(disk, data_dir, name).0.files);
}

/// Listing the stored files comes to [`files_listed`].
pub proof fn list_effect(disk: Disk, data_dir: Seq<char>)
    ensures
        perform(store(data_dir, RequestView::ListFiles), disk) == files_listed(disk, data_dir),
{
    reveal_with_fuel(run, 4);
}

/// An export comes to [`exported`], whether or not the path has a directory
/// to create first.
pub proof fn export_effect(disk: Disk, path: Seq<char>, parent: Option<Seq<char>>, data: Seq<u8>)
    ensures
        perform(TaskView::Export { path, parent, data }, disk) == exported(disk, path, data),
{
    reveal_with_fuel(run, 3);
}

} // verus!
