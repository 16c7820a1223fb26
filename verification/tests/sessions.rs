use std::collections::BTreeMap;

use secure_store::commands::{
    begin, delete_saved_file, export_into, get_encrypted_config, get_encrypted_file,
    get_file_history, get_file_metadata, has_config, has_saved_file, list_saved_files,
    save_encrypted_config, save_encrypted_file, save_file_history, save_file_to_user_location,
};
use secure_store::error::{ErrorKind, StoreError};
use secure_store::protocol::{unix_mode, Action, Event, Reply, Request, Task};
use secure_store::session::Session;

/// A disk in memory: files with a read-only flag, the directories that were
/// created, and the kinds of action that are made to fail.
struct Disk {
    files: BTreeMap<String, (Vec<u8>, bool)>,
    dirs: Vec<String>,
    broken: Vec<&'static str>,
    log: Vec<String>,
}

impl Disk {
    fn new() -> Disk {
        Disk { files: BTreeMap::new(), dirs: Vec::new(), broken: Vec::new(), log: Vec::new() }
    }

    fn breaking(kinds: &[&'static str]) -> Disk {
        let mut disk = Disk::new();
        disk.broken = kinds.to_vec();
        disk
    }

    fn fails(&self, kind: &'static str) -> bool {
        self.broken.contains(&kind)
    }

    fn write(&mut self, path: &str, bytes: Vec<u8>) -> Event {
        match self.files.get(path) {
            Some((_, true)) => Event::Failed("Permission denied".to_string()),
            _ => {
                self.files.insert(path.to_string(), (bytes, false));
                Event::Done
            }
        }
    }

    fn answer(&mut self, action: &Action) -> Event {
        match action {
            Action::CreateDirs { path } => {
                self.log.push(format!("dirs {}", path));
                if self.fails("dirs") {
                    return Event::Failed("cannot create".to_string());
                }
                self.dirs.push(path.clone());
                Event::Done
            }
            Action::Probe { path } => {
                self.log.push(format!("probe {}", path));
                Event::Exists(self.files.contains_key(path))
            }
            Action::ReadText { path } => {
                self.log.push(format!("read {}", path));
                if self.fails("read") {
                    return Event::Failed("cannot read".to_string());
                }
                match self.files.get(path) {
                    Some((bytes, _)) => match String::from_utf8(bytes.clone()) {
                        Ok(text) => Event::Text(text),
                        Err(_) => Event::Failed("not text".to_string()),
                    },
                    None => Event::Failed("No such file".to_string()),
                }
            }
            Action::WriteText { path, text } => {
                self.log.push(format!("write {}", path));
                if self.fails("write") || (self.fails("sidecar") && path.ends_with(".meta")) {
                    return Event::Failed("cannot write".to_string());
                }
                self.write(path, text.clone().into_bytes())
            }
            Action::WriteBytes { path, bytes } => {
                self.log.push(format!("bytes {}", path));
                if self.fails("write") {
                    return Event::Failed("cannot write".to_string());
                }
                self.write(path, bytes.clone())
            }
            Action::SetReadOnly { path, read_only } => {
                self.log.push(format!("readonly {} {}", read_only, path));
                if self.fails("readonly") {
                    return Event::Failed("cannot change".to_string());
                }
                match self.files.get_mut(path) {
                    Some(file) => {
                        file.1 = *read_only;
                        Event::Done
                    }
                    None => Event::Failed("No such file".to_string()),
                }
            }
            Action::Remove { path } => {
                self.log.push(format!("remove {}", path));
                if self.fails("remove") {
                    return Event::Failed("cannot remove".to_string());
                }
                match self.files.get(path) {
                    Some((_, false)) => {
                        self.files.remove(path);
                        Event::Done
                    }
                    Some((_, true)) => Event::Failed("Permission denied".to_string()),
                    None => Event::Failed("No such file".to_string()),
                }
            }
            Action::List { path } => {
                self.log.push(format!("list {}", path));
                if self.fails("list") {
                    return Event::Failed("cannot list".to_string());
                }
                let front = format!("{}/", path);
                let mut entries = Vec::new();
                for key in self.files.keys() {
                    if let Some(name) = key.strip_prefix(&front) {
                        if !name.contains('/') {
                            entries.push(name.to_string());
                        }
                    }
                }
                Event::Entries(entries)
            }
            Action::Finish { .. } => unreachable!(),
        }
    }

    /// Runs a session to its end and counts the answers it took.
    fn run(&mut self, started: (Session, Action)) -> Result<Reply, StoreError> {
        let (mut session, mut action) = started;
        let mut steps = 0;
        loop {
            if let Action::Finish { outcome } = action {
                assert!(session.is_finished());
                assert!(!session.accepts(&Event::Done));
                return outcome;
            }
            assert!(!session.is_finished());
            let event = self.answer(&action);
            assert!(session.accepts(&event));
            action = session.advance(event);
            steps += 1;
            assert!(steps <= 8);
        }
    }

    fn text(&self, path: &str) -> Option<String> {
        self.files.get(path).map(|file| String::from_utf8(file.0.clone()).unwrap())
    }

    fn read_only(&self, path: &str) -> Option<bool> {
        self.files.get(path).map(|file| file.1)
    }
}

fn dir() -> String {
    "/data".to_string()
}

fn text(s: &str) -> Result<Reply, StoreError> {
    Ok(Reply::Text(s.to_string()))
}

fn error(kind: ErrorKind, message: &str) -> Result<Reply, StoreError> {
    Err(StoreError::new(kind, message.to_string()))
}

fn log(lines: &[&str]) -> Vec<String> {
    lines.iter().map(|line| line.to_string()).collect()
}

#[test]
fn config_round_trip() {
    for blob in ["cipher", "", "ünï©ode ✓", "line1\nline2"] {
        let mut disk = Disk::new();
        let saved = disk.run(save_encrypted_config(dir(), blob.to_string()));
        assert_eq!(saved, text("Configuration saved successfully"));
        assert_eq!(disk.run(get_encrypted_config(dir())), text(blob));
    }
}

#[test]
fn config_save_overwrites() {
    let mut disk = Disk::new();
    disk.run(save_encrypted_config(dir(), "first".to_string())).unwrap();
    disk.run(save_encrypted_config(dir(), "second".to_string())).unwrap();
    assert_eq!(disk.run(get_encrypted_config(dir())), text("second"));
    assert_eq!(disk.read_only("/data/config.enc"), Some(false));
}

#[test]
fn config_save_script() {
    let mut disk = Disk::new();
    disk.run(save_encrypted_config(dir(), "c".to_string())).unwrap();
    assert_eq!(disk.log, log(&["dirs /data", "write /data/config.enc"]));
}

#[test]
fn has_config_before_and_after_save() {
    let mut disk = Disk::new();
    assert_eq!(disk.run(has_config(dir())), Ok(Reply::Flag(false)));
    disk.run(save_encrypted_config(dir(), "c".to_string())).unwrap();
    assert_eq!(disk.run(has_config(dir())), Ok(Reply::Flag(true)));
}

#[test]
fn config_before_any_save_is_not_found() {
    let mut disk = Disk::new();
    assert_eq!(
        disk.run(get_encrypted_config(dir())),
        error(ErrorKind::NotFound, "No configuration file found")
    );
    assert_eq!(disk.log, log(&["dirs /data", "probe /data/config.enc"]));
}

#[test]
fn file_round_trip() {
    for (name, payload, metadata) in
        [("doc", "cipherA", "{}"), ("a b", "", ""), ("ü", "päyload", "{\"k\":1}")]
    {
        let mut disk = Disk::new();
        let saved = disk.run(save_encrypted_file(
            dir(),
            name.to_string(),
            payload.to_string(),
            metadata.to_string(),
        ));
        assert_eq!(saved, text(&format!("File {} saved successfully", name)));
        assert_eq!(disk.run(get_encrypted_file(dir(), name.to_string())), text(payload));
        assert_eq!(disk.run(get_file_metadata(dir(), name.to_string())), text(metadata));
    }
}

#[test]
fn file_save_script() {
    let mut disk = Disk::new();
    disk.run(save_encrypted_file(dir(), "doc".to_string(), "p".to_string(), "m".to_string()))
        .unwrap();
    assert_eq!(
        disk.log,
        log(&[
            "dirs /data",
            "dirs /data/files",
            "write /data/files/doc.enc",
            "write /data/files/doc.meta",
            "readonly true /data/files/doc.enc",
            "readonly true /data/files/doc.meta",
        ])
    );
    assert_eq!(disk.dirs, log(&["/data", "/data/files"]));
}

#[test]
fn saved_file_refuses_a_raw_overwrite() {
    let mut disk = Disk::new();
    disk.run(save_encrypted_file(
        dir(),
        "doc".to_string(),
        "cipherA".to_string(),
        "{}".to_string(),
    ))
    .unwrap();
    assert_eq!(disk.read_only("/data/files/doc.enc"), Some(true));
    assert_eq!(disk.read_only("/data/files/doc.meta"), Some(true));
    assert_eq!(
        disk.write("/data/files/doc.enc", b"cipherB".to_vec()),
        Event::Failed("Permission denied".to_string())
    );
    assert_eq!(disk.text("/data/files/doc.enc"), Some("cipherA".to_string()));
}

#[test]
fn saving_over_a_saved_file_is_a_write_failure() {
    let mut disk = Disk::new();
    disk.run(save_encrypted_file(dir(), "doc".to_string(), "one".to_string(), "{}".to_string()))
        .unwrap();
    let again = disk.run(save_encrypted_file(
        dir(),
        "doc".to_string(),
        "two".to_string(),
        "[]".to_string(),
    ));
    assert_eq!(again, error(ErrorKind::WriteFailure, "Permission denied"));
    assert_eq!(disk.run(get_encrypted_file(dir(), "doc".to_string())), text("one"));
    assert_eq!(disk.run(get_file_metadata(dir(), "doc".to_string())), text("{}"));
}

#[test]
fn failed_sidecar_write_leaves_the_payload() {
    let mut disk = Disk::breaking(&["sidecar"]);
    let saved = disk.run(save_encrypted_file(
        dir(),
        "doc".to_string(),
        "p".to_string(),
        "m".to_string(),
    ));
    assert_eq!(saved, error(ErrorKind::WriteFailure, "cannot write"));
    assert_eq!(disk.text("/data/files/doc.enc"), Some("p".to_string()));
    assert_eq!(disk.read_only("/data/files/doc.enc"), Some(false));
    assert_eq!(disk.text("/data/files/doc.meta"), None);
}

#[test]
fn failed_hardening_is_a_permission_failure() {
    let mut disk = Disk::breaking(&["readonly"]);
    let saved = disk.run(save_encrypted_file(
        dir(),
        "doc".to_string(),
        "p".to_string(),
        "m".to_string(),
    ));
    assert_eq!(saved, error(ErrorKind::PermissionFailure, "cannot change"));
    assert_eq!(disk.read_only("/data/files/doc.enc"), Some(false));
    assert_eq!(disk.read_only("/data/files/doc.meta"), Some(false));
    assert_eq!(disk.text("/data/files/doc.meta"), Some("m".to_string()));
}

#[test]
fn missing_file_is_not_found() {
    let mut disk = Disk::new();
    assert_eq!(
        disk.run(get_encrypted_file(dir(), "doc".to_string())),
        error(ErrorKind::NotFound, "File doc not found")
    );
    assert_eq!(
        disk.run(get_file_metadata(dir(), "doc".to_string())),
        error(ErrorKind::NotFound, "Metadata for doc not found")
    );
}

#[test]
fn has_saved_file_looks_at_the_payload_only() {
    let mut disk = Disk::new();
    assert_eq!(disk.run(has_saved_file(dir(), "doc".to_string())), Ok(Reply::Flag(false)));
    disk.write("/data/files/doc.meta", b"{}".to_vec());
    assert_eq!(disk.run(has_saved_file(dir(), "doc".to_string())), Ok(Reply::Flag(false)));
    disk.write("/data/files/doc.enc", b"p".to_vec());
    assert_eq!(disk.run(has_saved_file(dir(), "doc".to_string())), Ok(Reply::Flag(true)));
}

#[test]
fn delete_with_only_a_payload() {
    let mut disk = Disk::new();
    disk.write("/data/files/doc.enc", b"p".to_vec());
    let deleted = disk.run(delete_saved_file(dir(), "doc".to_string()));
    assert_eq!(deleted, text("File doc deleted successfully"));
    assert_eq!(disk.text("/data/files/doc.enc"), None);
    assert_eq!(disk.run(has_saved_file(dir(), "doc".to_string())), Ok(Reply::Flag(false)));
    assert_eq!(
        disk.log[..6],
        log(&[
            "dirs /data",
            "dirs /data/files",
            "probe /data/files/doc.enc",
            "readonly false /data/files/doc.enc",
            "remove /data/files/doc.enc",
            "probe /data/files/doc.meta",
        ])
    );
}

#[test]
fn delete_with_only_a_sidecar() {
    let mut disk = Disk::new();
    disk.write("/data/files/doc.meta", b"m".to_vec());
    let deleted = disk.run(delete_saved_file(dir(), "doc".to_string()));
    assert_eq!(deleted, text("File doc deleted successfully"));
    assert!(disk.files.is_empty());
}

#[test]
fn delete_of_nothing_succeeds() {
    let mut disk = Disk::new();
    let deleted = disk.run(delete_saved_file(dir(), "ghost".to_string()));
    assert_eq!(deleted, text("File ghost deleted successfully"));
    assert_eq!(
        disk.log,
        log(&[
            "dirs /data",
            "dirs /data/files",
            "probe /data/files/ghost.enc",
            "probe /data/files/ghost.meta",
        ])
    );
}

#[test]
fn delete_unlocks_a_saved_file_first() {
    let mut disk = Disk::new();
    disk.run(save_encrypted_file(dir(), "doc".to_string(), "p".to_string(), "m".to_string()))
        .unwrap();
    disk.log.clear();
    let deleted = disk.run(delete_saved_file(dir(), "doc".to_string()));
    assert_eq!(deleted, text("File doc deleted successfully"));
    assert!(disk.files.is_empty());
    assert_eq!(
        disk.log,
        log(&[
            "dirs /data",
            "dirs /data/files",
            "probe /data/files/doc.enc",
            "readonly false /data/files/doc.enc",
            "remove /data/files/doc.enc",
            "probe /data/files/doc.meta",
            "readonly false /data/files/doc.meta",
            "remove /data/files/doc.meta",
        ])
    );
}

#[test]
fn failed_unlock_stops_the_deletion() {
    let mut disk = Disk::new();
    disk.run(save_encrypted_file(dir(), "doc".to_string(), "p".to_string(), "m".to_string()))
        .unwrap();
    disk.broken = vec!["readonly"];
    let deleted = disk.run(delete_saved_file(dir(), "doc".to_string()));
    assert_eq!(deleted, error(ErrorKind::PermissionFailure, "cannot change"));
    assert_eq!(disk.text("/data/files/doc.enc"), Some("p".to_string()));
    assert_eq!(disk.text("/data/files/doc.meta"), Some("m".to_string()));
}

#[test]
fn failed_removal_is_a_write_failure() {
    let mut disk = Disk::new();
    disk.write("/data/files/doc.enc", b"p".to_vec());
    disk.broken = vec!["remove"];
    let deleted = disk.run(delete_saved_file(dir(), "doc".to_string()));
    assert_eq!(deleted, error(ErrorKind::WriteFailure, "cannot remove"));
}

#[test]
fn list_after_saving_two_files() {
    let mut disk = Disk::new();
    disk.run(save_encrypted_file(dir(), "a".to_string(), "pa".to_string(), "ma".to_string()))
        .unwrap();
    disk.run(save_encrypted_file(dir(), "b".to_string(), "pb".to_string(), "mb".to_string()))
        .unwrap();
    match disk.run(list_saved_files(dir())) {
        Ok(Reply::Names(mut names)) => {
            names.sort();
            assert_eq!(names, vec!["a".to_string(), "b".to_string()]);
        }
        other => panic!("{:?}", other),
    }
}

#[test]
fn list_ignores_sidecars_and_strangers() {
    let mut disk = Disk::new();
    disk.write("/data/files/only.meta", b"m".to_vec());
    disk.write("/data/files/readme.txt", b"t".to_vec());
    disk.write("/data/files/.enc", b"x".to_vec());
    disk.write("/data/config.enc", b"c".to_vec());
    assert_eq!(disk.run(list_saved_files(dir())), Ok(Reply::Names(Vec::new())));
}

#[test]
fn failed_listing_is_a_read_failure() {
    let mut disk = Disk::breaking(&["list"]);
    assert_eq!(
        disk.run(list_saved_files(dir())),
        error(ErrorKind::ReadFailure, "cannot list")
    );
}

#[test]
fn history_is_empty_before_any_save() {
    let mut disk = Disk::new();
    assert_eq!(disk.run(get_file_history(dir())), text(""));
    let saved = disk.run(save_file_history(dir(), "h1".to_string()));
    assert_eq!(saved, text("History saved successfully"));
    assert_eq!(disk.run(get_file_history(dir())), text("h1"));
    assert_eq!(disk.text("/data/file_history.enc"), Some("h1".to_string()));
}

#[test]
fn export_creates_the_directories_and_writes_the_bytes() {
    let mut disk = Disk::new();
    let bytes = vec![0u8, 159, 146, 150, 255];
    let exported = disk.run(save_file_to_user_location(
        "/tmp/export/sub/out.bin".to_string(),
        bytes.clone(),
    ));
    assert_eq!(exported, text("File saved to /tmp/export/sub/out.bin"));
    assert_eq!(disk.dirs, log(&["/tmp/export/sub"]));
    assert_eq!(disk.log, log(&["dirs /tmp/export/sub", "bytes /tmp/export/sub/out.bin"]));
    assert_eq!(disk.files.get("/tmp/export/sub/out.bin"), Some(&(bytes, false)));
}

#[test]
fn export_of_a_path_without_parent_only_writes() {
    let mut disk = Disk::new();
    let exported = disk.run(export_into(None, "/".to_string(), vec![1, 2]));
    assert_eq!(exported, text("File saved to /"));
    assert_eq!(disk.log, log(&["bytes /"]));
}

#[test]
fn export_to_the_empty_path_has_no_parent() {
    let (_, action) = save_file_to_user_location(String::new(), vec![7]);
    assert_eq!(action, Action::WriteBytes { path: String::new(), bytes: vec![7] });
}

#[test]
fn export_overwrites() {
    let mut disk = Disk::new();
    disk.run(export_into(Some("/out".to_string()), "/out/f".to_string(), vec![1])).unwrap();
    disk.run(export_into(Some("/out".to_string()), "/out/f".to_string(), vec![2, 3])).unwrap();
    assert_eq!(disk.files.get("/out/f"), Some(&(vec![2, 3], false)));
}

#[test]
fn export_says_which_step_failed() {
    let mut disk = Disk::breaking(&["dirs"]);
    assert_eq!(
        disk.run(export_into(Some("/out".to_string()), "/out/f".to_string(), vec![1])),
        error(ErrorKind::DirectoryUnavailable, "Failed to create directory: cannot create")
    );
    let mut disk = Disk::breaking(&["write"]);
    assert_eq!(
        disk.run(export_into(Some("/out".to_string()), "/out/f".to_string(), vec![1])),
        error(ErrorKind::WriteFailure, "Failed to write file: cannot write")
    );
}

#[test]
fn unavailable_data_directory_ends_every_store_session() {
    let requests = vec![
        Request::SaveConfig { data: "c".to_string() },
        Request::LoadConfig,
        Request::HasConfig,
        Request::SaveHistory { data: "h".to_string() },
        Request::LoadHistory,
        Request::SaveFile { name: "n".to_string(), data: "d".to_string(), metadata: "m".to_string() },
        Request::LoadFile { name: "n".to_string() },
        Request::LoadMetadata { name: "n".to_string() },
        Request::HasFile { name: "n".to_string() },
        Request::DeleteFile { name: "n".to_string() },
        Request::ListFiles,
    ];
    for request in requests {
        let mut disk = Disk::breaking(&["dirs"]);
        assert_eq!(
            disk.run(begin(dir(), request)),
            error(ErrorKind::DirectoryUnavailable, "cannot create")
        );
        assert_eq!(disk.log, log(&["dirs /data"]));
    }
}

#[test]
fn failed_write_is_a_write_failure() {
    let mut disk = Disk::breaking(&["write"]);
    assert_eq!(
        disk.run(save_encrypted_config(dir(), "c".to_string())),
        error(ErrorKind::WriteFailure, "cannot write")
    );
    assert_eq!(
        disk.run(save_file_history(dir(), "h".to_string())),
        error(ErrorKind::WriteFailure, "cannot write")
    );
}

#[test]
fn failed_read_is_a_read_failure() {
    let mut disk = Disk::new();
    disk.write("/data/config.enc", b"c".to_vec());
    disk.write("/data/file_history.enc", b"h".to_vec());
    disk.write("/data/files/doc.enc", b"p".to_vec());
    disk.broken = vec!["read"];
    assert_eq!(
        disk.run(get_encrypted_config(dir())),
        error(ErrorKind::ReadFailure, "cannot read")
    );
    assert_eq!(disk.run(get_file_history(dir())), error(ErrorKind::ReadFailure, "cannot read"));
    assert_eq!(
        disk.run(get_encrypted_file(dir(), "doc".to_string())),
        error(ErrorKind::ReadFailure, "cannot read")
    );
}

#[test]
fn session_accepts_only_answers_to_its_action() {
    let (mut session, action) = Session::start(Task::Store {
        data_dir: dir(),
        request: Request::LoadConfig,
    });
    assert_eq!(action, Action::CreateDirs { path: "/data".to_string() });
    assert!(session.accepts(&Event::Done));
    assert!(session.accepts(&Event::Failed("x".to_string())));
    assert!(!session.accepts(&Event::Exists(true)));
    assert!(!session.accepts(&Event::Text("t".to_string())));
    assert!(!session.accepts(&Event::Entries(Vec::new())));
    let action = session.advance(Event::Done);
    assert_eq!(action, Action::Probe { path: "/data/config.enc".to_string() });
    assert!(session.accepts(&Event::Exists(false)));
    assert!(!session.accepts(&Event::Done));
    assert!(!session.accepts(&Event::Failed("x".to_string())));
    let action = session.advance(Event::Exists(true));
    assert_eq!(action, Action::ReadText { path: "/data/config.enc".to_string() });
    assert!(session.accepts(&Event::Text("t".to_string())));
    assert!(session.accepts(&Event::Failed("x".to_string())));
    assert!(!session.accepts(&Event::Done));
    assert!(!session.is_finished());
    let action = session.advance(Event::Text("blob".to_string()));
    assert_eq!(action, Action::Finish { outcome: Ok(Reply::Text("blob".to_string())) });
    assert!(session.is_finished());
    assert!(!session.accepts(&Event::Done));
}

#[test]
fn listing_session_accepts_entries() {
    let (mut session, _) = list_saved_files(dir());
    session.advance(Event::Done);
    let action = session.advance(Event::Done);
    assert_eq!(action, Action::List { path: "/data/files".to_string() });
    assert!(session.accepts(&Event::Entries(Vec::new())));
    assert!(!session.accepts(&Event::Text(String::new())));
    let action = session.advance(Event::Entries(vec![
        "z.enc".to_string(),
        "z.meta".to_string(),
        "a.enc".to_string(),
    ]));
    assert_eq!(
        action,
        Action::Finish { outcome: Ok(Reply::Names(vec!["z".to_string(), "a".to_string()])) }
    );
}

#[test]
fn read_only_files_lose_their_write_bits() {
    assert_eq!(unix_mode(true), 0o444);
    assert_eq!(unix_mode(false), 0o644);
}

#[test]
fn export_of_a_bare_file_name_creates_the_empty_parent() {
    let (_, action) = save_file_to_user_location("out.bin".to_string(), vec![1]);
    assert_eq!(action, Action::CreateDirs { path: String::new() });
}

#[test]
fn export_to_a_nested_path_starts_with_its_parent() {
    let (mut session, action) = save_file_to_user_location("a/b/c.bin".to_string(), vec![1, 2]);
    assert_eq!(action, Action::CreateDirs { path: "a/b".to_string() });
    let action = session.advance(Event::Done);
    assert_eq!(action, Action::WriteBytes { path: "a/b/c.bin".to_string(), bytes: vec![1, 2] });
}
