//! Laws of the store on a faithful disk: what holds when its operations
//! follow one another.
//!
//! Each law is stated of [`perform`], the run of a whole session against the
//! disk of [`crate::disk`], for every disk and every argument.

use vstd::prelude::*;
use crate::disk::{denied, perform, Disk};
use crate::effects::{
    config_load_effect, config_save_effect, file_delete_effect, file_load_effect,
    file_save_effect, has_config_effect, has_file_effect, history_load_effect,
    history_save_effect, list_effect, metadata_load_effect, not_found, write_denied,
};
use crate::error::Fault;
use crate::paths::{
    artifacts_differ, config_file_path, files_dir, history_file_path, is_plain, join,
    metadata_path, payload_file_name, payload_path, payload_stem, saved_names,
    saved_names_are_distinct, saved_names_are_stems, separator, stem_is_exact,
};
use crate::protocol::{store, ActionView, EventView, ReplyView, RequestView};

verus! {

/// A configuration that was saved is read back exactly, and is there when
/// asked for.
pub proof fn config_round_trip(disk: Disk, data_dir: Seq<char>, data: Seq<char>)
    requires
        perform(store(data_dir, RequestView::SaveConfig { data }), disk).1 is Ok,
    ensures
        ({
            let saved = perform(store(data_dir, RequestView::SaveConfig { data }), disk).0;
            &&& perform(store(data_dir, RequestView::LoadConfig), saved).1 == Ok::<
                ReplyView,
                Fault,
            >(ReplyView::Text(data))
            &&& perform(store(data_dir, RequestView::HasConfig), saved).1 == Ok::<
                ReplyView,
                Fault,
            >(ReplyView::Flag(true))
        }),
{
    config_save_effect(disk, data_dir, data);
    let saved = perform(store(data_dir, RequestView::SaveConfig { data }), disk).0;
    config_load_effect(saved, data_dir);
    has_config_effect(saved, data_dir);
}

/// Saving the configuration succeeds on every disk on which no read-only file
/// lies at its path, and on no other.
pub proof fn config_save_succeeds(disk: Disk, data_dir: Seq<char>, data: Seq<char>)
    ensures
        perform(store(data_dir, RequestView::SaveConfig { data }), disk).1 is Ok <==> !disk.locked(
            config_file_path(data_dir),
        ),
{
    config_save_effect(disk, data_dir, data);
}

/// Before any save there is no configuration: asking for it answers no, and
/// reading it fails with `NotFound`.
pub proof fn config_is_absent_at_first(disk: Disk, data_dir: Seq<char>)
    requires
        !disk.holds(config_file_path(data_dir)),
    ensures
        perform(store(data_dir, RequestView::HasConfig), disk).1 == Ok::<ReplyView, Fault>(
            ReplyView::Flag(false),
        ),
        perform(store(data_dir, RequestView::LoadConfig), disk).1 == Err::<ReplyView, Fault>(
            not_found("No configuration file found"@),
        ),
{
    has_config_effect(disk, data_dir);
    config_load_effect(disk, data_dir);
}

/// Before any save the history reads as the empty text, without error; a
/// history that was saved is read back exactly.
pub proof fn history_round_trip(disk: Disk, data_dir: Seq<char>, data: Seq<char>)
    ensures
        !disk.holds(history_file_path(data_dir)) ==> perform(
            store(data_dir, RequestView::LoadHistory),
            disk,
        ).1 == Ok::<ReplyView, Fault>(ReplyView::Text(Seq::empty())),
        perform(store(data_dir, RequestView::SaveHistory { data }), disk).1 is Ok ==> perform(
            store(data_dir, RequestView::LoadHistory),
            perform(store(data_dir, RequestView::SaveHistory { data }), disk).0,
        ).1 == Ok::<ReplyView, Fault>(ReplyView::Text(data)),
{
    history_load_effect(disk, data_dir);
    history_save_effect(disk, data_dir, data);
    let saved = perform(store(data_dir, RequestView::SaveHistory { data }), disk).0;
    history_load_effect(saved, data_dir);
}

/// A file that was saved is read back exactly, payload and metadata, and is
/// there when asked for.
pub proof fn file_round_trip(
    disk: Disk,
    data_dir: Seq<char>,
    name: Seq<char>,
    data: Seq<char>,
    metadata: Seq<char>,
)
    requires
        perform(store(data_dir, RequestView::SaveFile { name, data, metadata }), disk).1 is Ok,
    ensures
        ({
            let saved = perform(
                store(data_dir, RequestView::SaveFile { name, data, metadata }),
                disk,
            ).0;
            &&& perform(store(data_dir, RequestView::LoadFile { name }), saved).1 == Ok::<
                ReplyView,
                Fault,
            >(ReplyView::Text(data))
            &&& perform(store(data_dir, RequestView::LoadMetadata { name }), saved).1 == Ok::<
                ReplyView,
                Fault,
            >(ReplyView::Text(metadata))
            &&& perform(store(data_dir, RequestView::HasFile { name }), saved).1 == Ok::<
                ReplyView,
                Fault,
            >(ReplyView::Flag(true))
        }),
{
    artifacts_differ(data_dir, name);
    file_save_effect(disk, data_dir, name, data, metadata);
    let saved = perform(store(data_dir, RequestView::SaveFile { name, data, metadata }), disk).0;
    file_load_effect(saved, data_dir, name);
    metadata_load_effect(saved, data_dir, name);
    has_file_effect(saved, data_dir, name);
}

/// Saving a file succeeds on every disk on which neither of its artifacts is
/// a read-only file, and on no other.
pub proof fn file_save_succeeds(
    disk: Disk,
    data_dir: Seq<char>,
    name: Seq<char>,
    data: Seq<char>,
    metadata: Seq<char>,
)
    ensures
        perform(store(data_dir, RequestView::SaveFile { name, data, metadata }), disk).1 is Ok
            <==> !disk.locked(payload_path(data_dir, name)) && !disk.locked(
            metadata_path(data_dir, name),
        ),
{
    file_save_effect(disk, data_dir, name, data, metadata);
}

/// A file that was saved is hardened: both artifacts are read-only, the disk
/// refuses to overwrite either, and saving under the same name again fails
/// with `WriteFailure` and changes nothing.
pub proof fn saved_file_is_read_only(
    disk: Disk,
    data_dir: Seq<char>,
    name: Seq<char>,
    data: Seq<char>,
    metadata: Seq<char>,
)
    requires
        perform(store(data_dir, RequestView::SaveFile { name, data, metadata }), disk).1 is Ok,
    ensures
        ({
            let saved = perform(
                store(data_dir, RequestView::SaveFile { name, data, metadata }),
                disk,
            ).0;
            &&& saved.locked(payload_path(data_dir, name))
            &&& saved.locked(metadata_path(data_dir, name))
            &&& forall|text: Seq<char>|
                #![auto]
                saved.respond(ActionView::WriteText { path: payload_path(data_dir, name), text })
                    == (saved, EventView::Failed(denied()))
            &&& forall|text: Seq<char>|
                #![auto]
                saved.respond(ActionView::WriteText { path: metadata_path(data_dir, name), text })
                    == (saved, EventView::Failed(denied()))
            &&& forall|again: Seq<char>, other: Seq<char>|
                #![auto]
                perform(
                    store(data_dir, RequestView::SaveFile { name, data: again, metadata: other }),
                    saved,
                ) == (saved, Err::<ReplyView, Fault>(write_denied()))
        }),
{
    artifacts_differ(data_dir, name);
    file_save_effect(disk, data_dir, name, data, metadata);
    let saved = perform(store(data_dir, RequestView::SaveFile { name, data, metadata }), disk).0;
    assert forall|again: Seq<char>, other: Seq<char>|
        #![auto]
        perform(
            store(data_dir, RequestView::SaveFile { name, data: again, metadata: other }),
            saved,
        ) == (saved, Err::<ReplyView, Fault>(write_denied())) by {
        file_save_effect(saved, data_dir, name, again, other);
    }
}

/// After a deletion the file is gone, whichever of its artifacts existed
/// before, a payload without sidecar included: the deletion succeeds, asking
/// for the file answers no, and reading it fails with `NotFound`.
pub proof fn deleted_file_is_gone(disk: Disk, data_dir: Seq<char>, name: Seq<char>)
    ensures
        ({
            let after = perform(store(data_dir, RequestView::DeleteFile { name }), disk);
            &&& after.1 is Ok
            &&& !after.0.holds(payload_path(data_dir, name))
            &&& !after.0.holds(metadata_path(data_dir, name))
            &&& perform(store(data_dir, RequestView::HasFile { name }), after.0).1 == Ok::<
                ReplyView,
                Fault,
            >(ReplyView::Flag(false))
            &&& perform(store(data_dir, RequestView::LoadFile { name }), after.0).1 == Err::<
                ReplyView,
                Fault,
            >(not_found("File "@ + name + " not found"@))
        }),
{
    file_delete_effect(disk, data_dir, name);
    let after = perform(store(data_dir, RequestView::DeleteFile { name }), disk);
    has_file_effect(after.0, data_dir, name);
    file_load_effect(after.0, data_dir, name);
}

/// Saving and deleting a file touch nothing but the file's own two artifacts:
/// every other path holds afterwards what it held before. With
/// [`plain_names_keep_apart`](crate::paths::plain_names_keep_apart) this means
/// that plainly named files, the configuration and the history never disturb
/// one another.
pub proof fn file_changes_stay_local(
    disk: Disk,
    data_dir: Seq<char>,
    name: Seq<char>,
    data: Seq<char>,
    metadata: Seq<char>,
    path: Seq<char>,
)
    requires
        path != payload_path(data_dir, name),
        path != metadata_path(data_dir, name),
    ensures
        ({
            let saved = perform(
                store(data_dir, RequestView::SaveFile { name, data, metadata }),
                disk,
            ).0;
            saved.holds(path) == disk.holds(path) && saved.files[path] == disk.files[path]
        }),
        ({
            let deleted = perform(store(data_dir, RequestView::DeleteFile { name }), disk).0;
            deleted.holds(path) == disk.holds(path) && deleted.files[path] == disk.files[path]
        }),
{
    file_save_effect(disk, data_dir, name, data, metadata);
    file_delete_effect(disk, data_dir, name);
}

/// Every finite set of names can be enumerated: each name once, in some order.
proof fn enumerate(names: Set<Seq<char>>) -> (entries: Seq<Seq<char>>)
    requires
        names.finite(),
    ensures
        entries.no_duplicates(),
        forall|name: Seq<char>| entries.contains(name) <==> names.contains(name),
    decreases names.len(),
{
    if names.len() == 0 {
        assert(forall|name: Seq<char>| !names.contains(name)) by {
            if exists|name: Seq<char>| names.contains(name) {
                vstd::set_lib::lemma_set_empty_equivalency_len(names);
            }
        }
        Seq::empty()
    } else {
        let first = names.choose();
        let others = enumerate(names.remove(first));
        let entries = others.push(first);
        assert forall|name: Seq<char>| entries.contains(name) <==> names.contains(name) by {
            if entries.contains(name) {
                let i = choose|i: int| 0 <= i < entries.len() && entries[i] == name;
                if i < others.len() {
                    assert(others.contains(name));
                }
            }
            if names.contains(name) {
                if name == first {
                    assert(entries[others.len() as int] == name);
                } else {
                    assert(others.contains(name));
                    let i = choose|i: int| 0 <= i < others.len() && others[i] == name;
                    assert(entries[i] == name);
                }
            }
        }
        assert(entries.no_duplicates()) by {
            assert forall|i: int, j: int|
                0 <= i < entries.len() && 0 <= j < entries.len() && i != j implies entries[i]
                != entries[j] by {
                if i == others.len() {
                    assert(others.contains(others[j]));
                } else if j == others.len() {
                    assert(others.contains(others[i]));
                }
            }
        }
        entries
    }
}

/// A disk with finitely many files can be listed: of each directory, what the
/// disk answers when asked for its entries is an enumeration of them.
pub proof fn finite_disk_lists(disk: Disk, dir: Seq<char>)
    requires
        disk.files.dom().finite(),
    ensures
        disk.lists(dir, disk.listing(dir)),
{
    let front = join(dir, Seq::empty());
    let strip = |path: Seq<char>| path.subrange(front.len() as int, path.len() as int);
    let names = Set::new(|name: Seq<char>| disk.has_entry(dir, name));
    let images = disk.files.dom().map(strip);
    disk.files.dom().lemma_map_finite(strip);
    assert(names.subset_of(images)) by {
        assert forall|name: Seq<char>| names.contains(name) implies images.contains(name) by {
            let path = join(dir, name);
            assert(name[0] != separator()) by {
                if name[0] == separator() {
                    assert(name.contains(separator()));
                }
            }
            assert(path =~= front + name);
            assert(strip(path) =~= name);
            assert(disk.files.dom().contains(path));
        }
    }
    vstd::set_lib::lemma_set_subset_finite(images, names);
    let entries = enumerate(names);
    assert(disk.lists(dir, entries));
}

/// On a disk with finitely many files the listing is exact: it names the
/// plainly named files whose payload exists, those and no others, and each of
/// them once. After saving `a` and `b` into an empty store it holds `a` and
/// `b` and nothing else; a file that has only a sidecar is not in it.
pub proof fn listed_names_are_stored_files(disk: Disk, data_dir: Seq<char>)
    requires
        disk.files.dom().finite(),
    ensures
        perform(store(data_dir, RequestView::ListFiles), disk).1 matches Ok(
            ReplyView::Names(names),
        ) && names.no_duplicates() && forall|name: Seq<char>|
            names.contains(name) <==> is_plain(name) && disk.holds(payload_path(data_dir, name)),
{
    let dir = files_dir(data_dir);
    let entries = disk.listing(dir);
    list_effect(disk, data_dir);
    finite_disk_lists(disk, dir);
    saved_names_are_distinct(entries);
    reveal_strlit(".enc");
    assert forall|name: Seq<char>|
        saved_names(entries).contains(name) <==> is_plain(name) && disk.holds(
            payload_path(data_dir, name),
        ) by {
        let entry = payload_file_name(name);
        saved_names_are_stems(entries, name);
        if saved_names(entries).contains(name) {
            let i = choose|i: int|
                0 <= i < entries.len() && payload_stem(#[trigger] entries[i]) == Some(name);
            stem_is_exact(entries[i], name);
            assert(entries.contains(entry));
            assert(disk.has_entry(dir, entry));
            assert(!name.contains(separator())) by {
                if name.contains(separator()) {
                    let j = choose|j: int| 0 <= j < name.len() && name[j] == separator();
                    assert(entry[j] == separator());
                    assert(entry.contains(separator()));
                }
            }
        }
        if is_plain(name) && disk.holds(payload_path(data_dir, name)) {
            assert(!entry.contains(separator())) by {
                if entry.contains(separator()) {
                    let j = choose|j: int| 0 <= j < entry.len() && entry[j] == separator();
                    if j < name.len() {
                        assert(name[j] == separator());
                        assert(name.contains(separator()));
                    } else {
                        assert(entry[j] == ".enc"@[j - name.len()]);
                    }
                }
            }
            assert(disk.has_entry(dir, entry));
            assert(entries.contains(entry));
            let i = choose|i: int| 0 <= i < entries.len() && entries[i] == entry;
            stem_is_exact(entries[i], name);
        }
    }
}

} // verus!
