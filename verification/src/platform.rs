//! What the platform knows: where application data goes, and which directory
//! holds a path.
//!
//! Where the data directory lies depends on the machine and on the user's
//! environment, so nothing is claimed of it. What the store does with each
//! possible answer is decided in functions that take the answer as an
//! argument; [`downloads_path_from`] does so for the downloads directory,
//! which the caller looks up.

use vstd::prelude::*;
use crate::error::{ErrorKind, Fault, StoreError};
use crate::protocol::optional_text;

verus! {

#[verifier::external_type_specification]
#[verifier::external_body]
pub struct ExProjectDirs(directories::ProjectDirs);

/// The directory that holds `path`, as `std::path::Path::parent` tells it:
/// the path without its final component, where it has one. How a path falls
/// into components is fixed by the platform that the library is built for.
pub uninterp spec fn parent_of(path: Seq<char>) -> Option<Seq<char>>;

/// Calls `directories::ProjectDirs::from`, which yields the directories of a
/// project where the platform knows a home directory. Nothing is claimed of
/// what it returns.
#[verifier::external_body]
fn project_dirs(qualifier: &str, organization: &str, application: &str) -> (dirs: Option<
    directories::ProjectDirs,
>) {
    directories::ProjectDirs::from(qualifier, organization, application)
}

/// Calls `directories::ProjectDirs::data_dir` and hands the path on as a
/// string. Nothing is claimed of it.
#[verifier::external_body]
fn project_data_dir(dirs: &directories::ProjectDirs) -> (path: String) {
    dirs.data_dir().to_string_lossy().into_owned()
}

/// Calls `std::path::Path::parent` and hands the result on as a string. The
/// result is [`parent_of`] the path; of that, std documents that the empty
/// path has no parent.
#[verifier::external_body]
pub(crate) fn parent_directory(path: &str) -> (parent: Option<String>)
    ensures
        optional_text(parent) == parent_of(path@),
        path@.len() == 0 ==> parent is None,
{
    std::path::Path::new(path).parent().map(|p| p.to_string_lossy().into_owned())
}

/// The identifiers under which the platform files the application: the
/// qualifier, the organization and the application's name.
pub open spec fn identifier() -> (Seq<char>, Seq<char>, Seq<char>) {
    ("com"@, "sarha"@, "client"@)
}

/// The error for a platform that names no data directory.
pub open spec fn no_data_dir() -> Fault {
    Fault { kind: ErrorKind::DirectoryUnavailable, message: "Failed to get app directory"@ }
}

/// The error for a platform that names no downloads directory.
pub open spec fn no_downloads_dir() -> Fault {
    Fault {
        kind: ErrorKind::DirectoryUnavailable,
        message: "Could not find downloads directory"@,
    }
}

/// The view of a path that was looked up, or of the error that its absence is.
pub open spec fn found_or(found: Option<String>, fault: Fault) -> Result<Seq<char>, Fault> {
    match found {
        Some(path) => Ok(path@),
        None => Err(fault),
    }
}

/// The view of the result of a lookup.
pub open spec fn lookup_view(result: Result<String, StoreError>) -> Result<Seq<char>, Fault> {
    match result {
        Ok(path) => Ok(path@),
        Err(error) => Err(error@),
    }
}

/// The data directory, given what the platform answered: the path it named,
/// or `DirectoryUnavailable` where it named none.
pub fn data_dir_from(found: Option<String>) -> (result: Result<String, StoreError>)
    ensures
        lookup_view(result) == found_or(found, no_data_dir()),
{
    match found {
        Some(path) => Ok(path),
        None => Err(
            StoreError::new(
                ErrorKind::DirectoryUnavailable,
                String::from_str("Failed to get app directory"),
            ),
        ),
    }
}

/// The downloads directory, given what the platform answered: the path it
/// named, or `DirectoryUnavailable` where it named none.
pub fn downloads_path_from(found: Option<String>) -> (result: Result<String, StoreError>)
    ensures
        lookup_view(result) == found_or(found, no_downloads_dir()),
{
    match found {
        Some(path) => Ok(path),
        None => Err(
            StoreError::new(
                ErrorKind::DirectoryUnavailable,
                String::from_str("Could not find downloads directory"),
            ),
        ),
    }
}

/// The identifiers under which the platform files the application.
pub fn project_identifier() -> (id: (String, String, String))
    ensures
        (id.0@, id.1@, id.2@) == identifier(),
{
    (String::from_str("com"), String::from_str("sarha"), String::from_str("client"))
}

/// The data directory of the application, as the platform names it for the
/// application's [`identifier`]. The directory is not created here: every
/// session on the store begins by creating it.
pub fn get_data_dir() -> (result: Result<String, StoreError>)
    ensures
        result is Err ==> result->Err_0@ == no_data_dir(),
{
    let id = project_identifier();
    let found = match project_dirs(id.0.as_str(), id.1.as_str(), id.2.as_str()) {
        Some(dirs) => Some(project_data_dir(&dirs)),
        None => None,
    };
    data_dir_from(found)
}

} // verus!
