use vstd::prelude::*;

verus! {

/// Declares directories::ProjectDirs, the outside crate's handle for the
/// per-user project directories; opaque here, read only through the
/// wrappers below.
#[verifier::external_type_specification]
#[verifier::external_body]
pub struct ExProjectDirs(directories::ProjectDirs);

/// Relies on directories::ProjectDirs::from for the com.xcap.xcap project:
/// the per-user project directories, when the system knows a home for the
/// current user. The result depends on the environment, so nothing is
/// promised of it.
#[verifier::external_body]
fn project_dirs_lookup() -> Option<directories::ProjectDirs> {
    directories::ProjectDirs::from("com", "xcap", "xcap")
}

/// Relies on directories::ProjectDirs::config_dir: the project's
/// configuration directory, rendered lossily as text.
#[verifier::external_body]
fn config_dir_of(d: &directories::ProjectDirs) -> String {
    d.config_dir().to_string_lossy().into_owned()
}

/// Relies on directories::ProjectDirs::cache_dir: the project's cache
/// directory, rendered lossily as text.
#[verifier::external_body]
fn cache_dir_of(d: &directories::ProjectDirs) -> String {
    d.cache_dir().to_string_lossy().into_owned()
}

/// Relies on directories::ProjectDirs::data_dir: the project's data
/// directory, rendered lossily as text.
#[verifier::external_body]
fn data_dir_of(d: &directories::ProjectDirs) -> String {
    d.data_dir().to_string_lossy().into_owned()
}

/// The per-user configuration directory, when the environment names one.
pub fn config_dir() -> Option<String> {
    match project_dirs_lookup() {
        Some(d) => Some(config_dir_of(&d)),
        None => None,
    }
}

/// The per-user cache directory, when the environment names one.
pub fn cache_dir() -> Option<String> {
    match project_dirs_lookup() {
        Some(d) => Some(cache_dir_of(&d)),
        None => None,
    }
}

/// The per-user data directory — where the restore-token file lives — when
/// the environment names one.
pub fn data_dir() -> Option<String> {
    match project_dirs_lookup() {
        Some(d) => Some(data_dir_of(&d)),
        None => None,
    }
}

} // verus!
