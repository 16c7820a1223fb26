//! Where the artifacts of the store live.
//!
//! A path is a string whose components are separated by `/`, which every
//! supported platform accepts.

use vstd::prelude::*;

verus! {

/// The character that separates the components of a path.
pub open spec fn separator() -> char {
    '/'
}

/// A path is absolute when it starts at the root.
pub open spec fn is_absolute(path: Seq<char>) -> bool {
    path.len() > 0 && path[0] == separator()
}

/// `base` extended by `rel`. An absolute `rel` replaces `base`; otherwise the
/// two are put together with exactly one separator between them, unless `base`
/// is empty or brings its own.
pub open spec fn join(base: Seq<char>, rel: Seq<char>) -> Seq<char> {
    if is_absolute(rel) {
        rel
    } else if base.len() == 0 || base.last() == separator() {
        base + rel
    } else {
        base + seq![separator()] + rel
    }
}

/// The path of the configuration blob below the data directory.
pub open spec fn config_file_path(data_dir: Seq<char>) -> Seq<char> {
    join(data_dir, "config.enc"@)
}

/// The path of the history blob below the data directory.
pub open spec fn history_file_path(data_dir: Seq<char>) -> Seq<char> {
    join(data_dir, "file_history.enc"@)
}

/// The directory of the named files below the data directory.
pub open spec fn files_dir(data_dir: Seq<char>) -> Seq<char> {
    join(data_dir, "files"@)
}

/// The file name of the payload of the stored file `name`.
pub open spec fn payload_file_name(name: Seq<char>) -> Seq<char> {
    name + ".enc"@
}

/// The file name of the metadata sidecar of the stored file `name`.
pub open spec fn metadata_file_name(name: Seq<char>) -> Seq<char> {
    name + ".meta"@
}

/// The path of the payload of the stored file `name`.
pub open spec fn payload_path(data_dir: Seq<char>, name: Seq<char>) -> Seq<char> {
    join(files_dir(data_dir), payload_file_name(name))
}

/// The path of the metadata sidecar of the stored file `name`.
pub open spec fn metadata_path(data_dir: Seq<char>, name: Seq<char>) -> Seq<char> {
    join(files_dir(data_dir), metadata_file_name(name))
}

/// The name of the stored file whose payload a directory entry is: the entry
/// without its `.enc` ending, where something is left in front of it.
pub open spec fn payload_stem(entry: Seq<char>) -> Option<Seq<char>> {
    if entry.len() > 4 && entry.subrange(entry.len() - 4, entry.len() as int) == ".enc"@ {
        Some(entry.subrange(0, entry.len() - 4))
    } else {
        None
    }
}

/// A plain name: one component, with nothing in it that separates paths.
/// Callers are expected to name stored files plainly; the store itself takes
/// any name and puts the artifacts where [`join`] says.
pub open spec fn is_plain(name: Seq<char>) -> bool {
    name.len() > 0 && !name.contains(separator())
}

/// The names of the stored files among the entries of the files directory, in
/// the order of the entries.
pub open spec fn saved_names(entries: Seq<Seq<char>>) -> Seq<Seq<char>>
    decreases entries.len(),
{
    if entries.len() == 0 {
        Seq::empty()
    } else {
        let before = saved_names(entries.drop_last());
        match payload_stem(entries.last()) {
            Some(stem) => before.push(stem),
            None => before,
        }
    }
}

/// The texts of a vector of strings.
pub open spec fn texts(strings: Seq<String>) -> Seq<Seq<char>> {
    strings.map_values(|s: String| s@)
}

/// A path that was joined ends as its last part does.
pub proof fn join_keeps_ending(base: Seq<char>, rel: Seq<char>)
    requires
        rel.len() > 0,
    ensures
        join(base, rel).len() > 0,
        join(base, rel).last() == rel.last(),
{
}

/// The payload and the metadata sidecar of a stored file never share a path,
/// whatever the file is called.
pub proof fn artifacts_differ(data_dir: Seq<char>, name: Seq<char>)
    ensures
        payload_path(data_dir, name) != metadata_path(data_dir, name),
{
    reveal_strlit(".enc");
    reveal_strlit(".meta");
    join_keeps_ending(files_dir(data_dir), payload_file_name(name));
    join_keeps_ending(files_dir(data_dir), metadata_file_name(name));
    assert(payload_file_name(name).last() == 'c');
    assert(metadata_file_name(name).last() == 'a');
}

/// Below one base, different relative paths lead to different places.
pub proof fn join_is_injective(base: Seq<char>, first: Seq<char>, second: Seq<char>)
    requires
        !is_absolute(first),
        !is_absolute(second),
        join(base, first) == join(base, second),
    ensures
        first == second,
{
    let front = join(base, Seq::empty());
    assert(join(base, first) =~= front + first);
    assert(join(base, second) =~= front + second);
    assert(first =~= (front + first).subrange(front.len() as int, (front + first).len() as int));
    assert(second =~= (front + second).subrange(
        front.len() as int,
        (front + second).len() as int,
    ));
}

/// The artifacts of a plainly named file lie directly in the files directory.
pub proof fn plain_names_stay_inside(data_dir: Seq<char>, name: Seq<char>)
    requires
        is_plain(name),
    ensures
        payload_path(data_dir, name) == files_dir(data_dir) + seq![separator()] + name + ".enc"@,
        metadata_path(data_dir, name) == files_dir(data_dir) + seq![separator()] + name
            + ".meta"@,
{
    reveal_strlit("files");
    assert(name[0] != separator()) by {
        if name[0] == separator() {
            assert(name.contains(separator()));
        }
    }
    join_keeps_ending(data_dir, "files"@);
    let dir = files_dir(data_dir);
    assert(dir.last() == 's');
    assert(payload_file_name(name)[0] == name[0]);
    assert(metadata_file_name(name)[0] == name[0]);
    assert(payload_path(data_dir, name) =~= dir + seq![separator()] + name + ".enc"@);
    assert(metadata_path(data_dir, name) =~= dir + seq![separator()] + name + ".meta"@);
}

/// Plainly named files keep apart: two of them share no artifact, and none of
/// their artifacts is the configuration or the history blob.
pub proof fn plain_names_keep_apart(data_dir: Seq<char>, first: Seq<char>, second: Seq<char>)
    requires
        is_plain(first),
        is_plain(second),
        first != second,
    ensures
        payload_path(data_dir, first) != payload_path(data_dir, second),
        metadata_path(data_dir, first) != metadata_path(data_dir, second),
        payload_path(data_dir, first) != metadata_path(data_dir, second),
        metadata_path(data_dir, first) != payload_path(data_dir, second),
        payload_path(data_dir, first) != config_file_path(data_dir),
        payload_path(data_dir, first) != history_file_path(data_dir),
        metadata_path(data_dir, first) != config_file_path(data_dir),
        metadata_path(data_dir, first) != history_file_path(data_dir),
{
    reveal_strlit(".enc");
    reveal_strlit(".meta");
    reveal_strlit("files");
    reveal_strlit("config.enc");
    reveal_strlit("file_history.enc");
    let dir = files_dir(data_dir);
    let front = join(data_dir, Seq::empty());
    assert(first[0] != separator() && second[0] != separator()) by {
        if first[0] == separator() {
            assert(first.contains(separator()));
        }
        if second[0] == separator() {
            assert(second.contains(separator()));
        }
    }
    assert(payload_file_name(first)[0] == first[0]);
    assert(metadata_file_name(first)[0] == first[0]);
    assert(payload_file_name(second)[0] == second[0]);
    assert(metadata_file_name(second)[0] == second[0]);
    if payload_path(data_dir, first) == payload_path(data_dir, second) {
        join_is_injective(dir, payload_file_name(first), payload_file_name(second));
        assert(first =~= payload_file_name(first).subrange(0, first.len() as int));
        assert(second =~= payload_file_name(second).subrange(0, second.len() as int));
    }
    if metadata_path(data_dir, first) == metadata_path(data_dir, second) {
        join_is_injective(dir, metadata_file_name(first), metadata_file_name(second));
        assert(first =~= metadata_file_name(first).subrange(0, first.len() as int));
        assert(second =~= metadata_file_name(second).subrange(0, second.len() as int));
    }
    join_keeps_ending(dir, payload_file_name(first));
    join_keeps_ending(dir, metadata_file_name(first));
    join_keeps_ending(dir, payload_file_name(second));
    join_keeps_ending(dir, metadata_file_name(second));
    assert(payload_file_name(first).last() == 'c');
    assert(payload_file_name(second).last() == 'c');
    assert(metadata_file_name(first).last() == 'a');
    assert(metadata_file_name(second).last() == 'a');
    plain_names_stay_inside(data_dir, first);
    assert(dir =~= front + "files"@);
    assert(config_file_path(data_dir) =~= front + "config.enc"@);
    assert(history_file_path(data_dir) =~= front + "file_history.enc"@);
    let at = front.len() as int;
    assert(config_file_path(data_dir)[at] == 'c');
    assert(history_file_path(data_dir)[at + 4] == '_');
    assert(payload_path(data_dir, first)[at] == 'f');
    assert(metadata_path(data_dir, first)[at] == 'f');
    assert(payload_path(data_dir, first)[at + 4] == 's');
    assert(metadata_path(data_dir, first)[at + 4] == 's');
}

/// The directory entry of a payload names its file, where the file has a
/// name at all; the entry of a sidecar names none.
pub proof fn stem_of_artifacts(name: Seq<char>)
    ensures
        name.len() > 0 ==> payload_stem(payload_file_name(name)) == Some(name),
        payload_stem(metadata_file_name(name)) is None,
{
    reveal_strlit(".enc");
    reveal_strlit(".meta");
    let payload = payload_file_name(name);
    assert(payload.subrange(payload.len() - 4, payload.len() as int) =~= ".enc"@);
    assert(payload.subrange(0, payload.len() - 4) =~= name);
    let sidecar = metadata_file_name(name);
    if sidecar.len() > 4 {
        let tail = sidecar.subrange(sidecar.len() - 4, sidecar.len() as int);
        assert(tail[3] == sidecar[sidecar.len() - 1]);
        assert(sidecar[sidecar.len() - 1] == 'a');
        assert(".enc"@[3] == 'c');
    }
}

/// An entry that names a stored file is that name followed by `.enc`.
pub proof fn stem_is_exact(entry: Seq<char>, name: Seq<char>)
    ensures
        payload_stem(entry) == Some(name) <==> name.len() > 0 && entry == payload_file_name(name),
{
    stem_of_artifacts(name);
    if payload_stem(entry) == Some(name) {
        assert(entry =~= entry.subrange(0, entry.len() - 4) + entry.subrange(
            entry.len() - 4,
            entry.len() as int,
        ));
    }
}

/// The names found among directory entries are exactly the stems of the
/// entries that are payloads.
pub proof fn saved_names_are_stems(entries: Seq<Seq<char>>, name: Seq<char>)
    ensures
        saved_names(entries).contains(name) <==> exists|i: int|
            0 <= i < entries.len() && payload_stem(#[trigger] entries[i]) == Some(name),
    decreases entries.len(),
{
    if entries.len() > 0 {
        let before = entries.drop_last();
        saved_names_are_stems(before, name);
        let names = saved_names(entries);
        if payload_stem(entries.last()) is Some {
            let stem = payload_stem(entries.last())->0;
            assert(names == saved_names(before).push(stem));
            if names.contains(name) {
                let k = choose|k: int| 0 <= k < names.len() && names[k] == name;
                if k < names.len() - 1 {
                    assert(saved_names(before)[k] == name);
                    assert(saved_names(before).contains(name));
                    let i = choose|i: int|
                        0 <= i < before.len() && payload_stem(#[trigger] before[i]) == Some(name);
                    assert(entries[i] == before[i]);
                } else {
                    assert(payload_stem(entries[entries.len() - 1]) == Some(name));
                }
            }
            if exists|i: int|
                0 <= i < entries.len() && payload_stem(#[trigger] entries[i]) == Some(name) {
                let i = choose|i: int|
                    0 <= i < entries.len() && payload_stem(#[trigger] entries[i]) == Some(name);
                if i < entries.len() - 1 {
                    assert(before[i] == entries[i]);
                    assert(saved_names(before).contains(name));
                    let k = choose|k: int|
                        0 <= k < saved_names(before).len() && saved_names(before)[k] == name;
                    assert(names[k] == name);
                } else {
                    assert(names[names.len() - 1] == name);
                }
            }
        } else {
            assert(names == saved_names(before));
            if names.contains(name) {
                let i = choose|i: int|
                    0 <= i < before.len() && payload_stem(#[trigger] before[i]) == Some(name);
                assert(entries[i] == before[i]);
            }
            if exists|i: int|
                0 <= i < entries.len() && payload_stem(#[trigger] entries[i]) == Some(name) {
                let i = choose|i: int|
                    0 <= i < entries.len() && payload_stem(#[trigger] entries[i]) == Some(name);
                assert(i < entries.len() - 1);
                assert(before[i] == entries[i]);
            }
        }
    }
}

/// Entries that differ name different files: where no entry occurs twice, no
/// name is found twice.
pub proof fn saved_names_are_distinct(entries: Seq<Seq<char>>)
    requires
        entries.no_duplicates(),
    ensures
        saved_names(entries).no_duplicates(),
    decreases entries.len(),
{
    if entries.len() > 0 {
        let before = entries.drop_last();
        saved_names_are_distinct(before);
        if payload_stem(entries.last()) is Some {
            let stem = payload_stem(entries.last())->0;
            let names = saved_names(before);
            saved_names_are_stems(before, stem);
            if names.contains(stem) {
                let i = choose|i: int|
                    0 <= i < before.len() && payload_stem(#[trigger] before[i]) == Some(stem);
                stem_is_exact(before[i], stem);
                stem_is_exact(entries.last(), stem);
                assert(entries[i] == entries[entries.len() - 1]);
            }
            assert forall|i: int, j: int|
                0 <= i < names.push(stem).len() && 0 <= j < names.push(stem).len() && i
                    != j implies names.push(stem)[i] != names.push(stem)[j] by {
                if i == names.len() {
                    assert(names.contains(names[j]));
                } else if j == names.len() {
                    assert(names.contains(names[i]));
                }
            }
        }
    }
}

/// Joins two paths.
pub fn join_path(base: &str, rel: &str) -> (path: String)
    ensures
        path@ == join(base@, rel@),
{
    proof {
        reveal_strlit("/");
    }
    let rel_len: usize = rel.unicode_len();
    let base_len: usize = base.unicode_len();
    if rel_len > 0 && rel.get_char(0) == '/' {
        String::from_str(rel)
    } else if base_len == 0 || base.get_char(base_len - 1) == '/' {
        String::from_str(base).concat(rel)
    } else {
        assert("/"@ =~= seq![separator()]);
        String::from_str(base).concat("/").concat(rel)
    }
}

/// The path of the configuration blob below `data_dir`.
pub fn get_config_file_path(data_dir: &str) -> (path: String)
    ensures
        path@ == config_file_path(data_dir@),
{
    join_path(data_dir, "config.enc")
}

/// The path of the history blob below `data_dir`.
pub fn get_history_file_path(data_dir: &str) -> (path: String)
    ensures
        path@ == history_file_path(data_dir@),
{
    join_path(data_dir, "file_history.enc")
}

/// The directory of the named files below `data_dir`.
pub fn get_files_dir(data_dir: &str) -> (path: String)
    ensures
        path@ == files_dir(data_dir@),
{
    join_path(data_dir, "files")
}

/// The path of the payload of the stored file `name` below `data_dir`.
pub fn get_payload_path(data_dir: &str, name: &str) -> (path: String)
    ensures
        path@ == payload_path(data_dir@, name@),
{
    let files = get_files_dir(data_dir);
    let file_name = String::from_str(name).concat(".enc");
    join_path(files.as_str(), file_name.as_str())
}

/// The path of the metadata sidecar of the stored file `name` below `data_dir`.
pub fn get_metadata_path(data_dir: &str, name: &str) -> (path: String)
    ensures
        path@ == metadata_path(data_dir@, name@),
{
    let files = get_files_dir(data_dir);
    let file_name = String::from_str(name).concat(".meta");
    join_path(files.as_str(), file_name.as_str())
}

/// The name of the stored file whose payload the directory entry `entry` is,
/// if it is one.
pub fn stem_of_payload(entry: &str) -> (stem: Option<String>)
    ensures
        match stem {
            Some(s) => payload_stem(entry@) == Some(s@),
            None => payload_stem(entry@) is None,
        },
{
    proof {
        reveal_strlit(".enc");
    }
    let len: usize = entry.unicode_len();
    if len > 4 && entry.get_char(len - 4) == '.' && entry.get_char(len - 3) == 'e'
        && entry.get_char(len - 2) == 'n' && entry.get_char(len - 1) == 'c' {
        assert(entry@.subrange(len - 4, len as int) =~= ".enc"@);
        Some(String::from_str(entry.substring_char(0, len - 4)))
    } else {
        if len > 4 {
            let ghost tail = entry@.subrange(len - 4, len as int);
            assert(tail[0] == entry@[len - 4] && tail[1] == entry@[len - 3] && tail[2]
                == entry@[len - 2] && tail[3] == entry@[len - 1]);
        }
        None
    }
}

/// The names of the stored files among the entries of the files directory, in
/// the order of the entries.
pub fn saved_file_names(entries: &Vec<String>) -> (names: Vec<String>)
    ensures
        texts(names@) == saved_names(texts(entries@)),
{
    let mut names: Vec<String> = Vec::new();
    let mut i: usize = 0;
    assert(texts(entries@).take(0) =~= Seq::<Seq<char>>::empty());
    assert(texts(names@) =~= Seq::<Seq<char>>::empty());
    while i < entries.len()
        invariant
            i <= entries.len(),
            texts(names@) == saved_names(texts(entries@).take(i as int)),
        decreases entries.len() - i,
    {
        let ghost upto = texts(entries@).take(i + 1);
        let ghost before = names@;
        assert(upto.drop_last() =~= texts(entries@).take(i as int));
        assert(upto.last() == entries@[i as int]@);
        match stem_of_payload(entries[i].as_str()) {
            Some(stem) => {
                names.push(stem);
                assert(texts(names@) =~= texts(before).push(stem@));
            },
            None => {},
        }
        i = i + 1;
    }
    assert(texts(entries@).take(i as int) =~= texts(entries@));
    names
}

} // verus!
