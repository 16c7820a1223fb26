use secure_store::error::{ErrorKind, StoreError};
use secure_store::paths::{
    get_config_file_path, get_files_dir, get_history_file_path, get_metadata_path,
    get_payload_path, join_path, saved_file_names, stem_of_payload,
};
use secure_store::platform::{
    data_dir_from, downloads_path_from, get_data_dir, project_identifier,
};

#[test]
fn config_file_sits_in_the_data_directory() {
    assert_eq!(get_config_file_path("/data/app"), "/data/app/config.enc");
}

#[test]
fn history_file_sits_in_the_data_directory() {
    assert_eq!(get_history_file_path("/data/app"), "/data/app/file_history.enc");
}

#[test]
fn files_directory_sits_in_the_data_directory() {
    assert_eq!(get_files_dir("/data/app"), "/data/app/files");
}

#[test]
fn artifacts_share_a_stem_in_the_files_directory() {
    assert_eq!(get_payload_path("/data/app", "doc"), "/data/app/files/doc.enc");
    assert_eq!(get_metadata_path("/data/app", "doc"), "/data/app/files/doc.meta");
}

#[test]
fn join_adds_one_separator() {
    assert_eq!(join_path("a", "b"), "a/b");
    assert_eq!(join_path("a/", "b"), "a/b");
    assert_eq!(join_path("/", "b"), "/b");
}

#[test]
fn join_with_empty_parts() {
    assert_eq!(join_path("", "b"), "b");
    assert_eq!(join_path("a", ""), "a/");
    assert_eq!(join_path("", ""), "");
}

#[test]
fn join_lets_an_absolute_path_replace_the_base() {
    assert_eq!(join_path("/data", "/etc/passwd"), "/etc/passwd");
}

#[test]
fn join_counts_characters_not_bytes() {
    assert_eq!(join_path("/dönnées", "fichier"), "/dönnées/fichier");
    assert_eq!(join_path("/données/", "é"), "/données/é");
}

#[test]
fn a_name_with_separators_escapes_the_files_directory() {
    assert_eq!(get_payload_path("/data", "../../x"), "/data/files/../../x.enc");
    assert_eq!(get_payload_path("/data", "/tmp/x"), "/tmp/x.enc");
}

#[test]
fn stem_of_a_payload_entry() {
    assert_eq!(stem_of_payload("a.enc"), Some("a".to_string()));
    assert_eq!(stem_of_payload("report.final.enc"), Some("report.final".to_string()));
    assert_eq!(stem_of_payload("..enc"), Some(".".to_string()));
    assert_eq!(stem_of_payload("é.enc"), Some("é".to_string()));
}

#[test]
fn stem_of_other_entries_is_none() {
    assert_eq!(stem_of_payload("a.meta"), None);
    assert_eq!(stem_of_payload(".enc"), None);
    assert_eq!(stem_of_payload("enc"), None);
    assert_eq!(stem_of_payload("a.enc.bak"), None);
    assert_eq!(stem_of_payload("a.ENC"), None);
    assert_eq!(stem_of_payload("aenc"), None);
    assert_eq!(stem_of_payload(""), None);
}

#[test]
fn saved_names_keep_payloads_in_order() {
    let entries = vec![
        "b.enc".to_string(),
        "a.meta".to_string(),
        "notes.txt".to_string(),
        "a.enc".to_string(),
        "b.meta".to_string(),
        ".enc".to_string(),
    ];
    assert_eq!(saved_file_names(&entries), vec!["b".to_string(), "a".to_string()]);
}

#[test]
fn saved_names_of_an_empty_directory() {
    let entries: Vec<String> = Vec::new();
    assert_eq!(saved_file_names(&entries), Vec::<String>::new());
}

#[test]
fn store_error_keeps_kind_and_message() {
    let error = StoreError::new(ErrorKind::ReadFailure, "disk on fire".to_string());
    assert_eq!(error.kind(), ErrorKind::ReadFailure);
    assert_eq!(error.message(), "disk on fire");
}

#[test]
fn data_dir_from_an_answer() {
    assert_eq!(data_dir_from(Some("/home/u/.local/share/client".to_string())),
        Ok("/home/u/.local/share/client".to_string()));
    let error = data_dir_from(None).unwrap_err();
    assert_eq!(error.kind(), ErrorKind::DirectoryUnavailable);
    assert_eq!(error.message(), "Failed to get app directory");
}

#[test]
fn downloads_path_from_an_answer() {
    assert_eq!(downloads_path_from(Some("/home/u/Downloads".to_string())),
        Ok("/home/u/Downloads".to_string()));
    let error = downloads_path_from(None).unwrap_err();
    assert_eq!(error.kind(), ErrorKind::DirectoryUnavailable);
    assert_eq!(error.message(), "Could not find downloads directory");
}

#[test]
fn data_dir_is_a_path_or_unavailable() {
    match get_data_dir() {
        Ok(path) => {
            assert!(!path.is_empty());
            assert!(path.to_lowercase().contains("client"));
        }
        Err(error) => {
            assert_eq!(error.kind(), ErrorKind::DirectoryUnavailable);
            assert_eq!(error.message(), "Failed to get app directory");
        }
    }
}

#[test]
fn project_identifier_names_the_application() {
    assert_eq!(
        project_identifier(),
        ("com".to_string(), "sarha".to_string(), "client".to_string())
    );
}
