//! The boundary to `steamlocate` and to the paths of the file system.
//!
//! Everything in this file is believed, not proved: the types are opaque to
//! the verifier and the functions are thin calls into code it does not read.
//! What they return depends on what is on this machine's disk, so none of
//! them promises anything about its result; the callers are verified for
//! whatever comes back.

use super::steam::AppManifest;
use std::path::PathBuf;
use steamlocate::{Library, SteamDir};
use vstd::prelude::*;

verus! {

/// `steamlocate::SteamDir`, the handle to a Steam installation directory.
/// Opaque: it is only carried from one call into the crate to the next.
#[verifier::external_type_specification]
#[verifier::external_body]
pub struct ExSteamDir(steamlocate::SteamDir);

/// `steamlocate::Library`, one library folder of a Steam installation.
/// Opaque, like the installation handle.
#[verifier::external_type_specification]
#[verifier::external_body]
pub struct ExLibrary(steamlocate::Library);

/// `steamlocate::Error`. Opaque: the callers only tell failure from success.
#[verifier::external_type_specification]
#[verifier::external_body]
pub struct ExLocateError(steamlocate::Error);

/// `std::path::PathBuf`. Opaque: a path is handed on as it was obtained.
#[verifier::external_type_specification]
#[verifier::external_body]
pub struct ExPathBuf(std::path::PathBuf);

/// Calls `steamlocate::SteamDir::locate`, which probes the places where Steam
/// installs itself on this operating system. Nothing is claimed of the
/// answer.
#[verifier::external_body]
pub(crate) fn locate_steam() -> (located: Result<SteamDir, steamlocate::Error>) {
    SteamDir::locate()
}

/// Calls `steamlocate::SteamDir::libraries` and walks the iterator it returns
/// to its end, keeping every item in order. The outer result is that of
/// reading the list of library folders, each item that of opening one
/// folder. Nothing is claimed of either.
#[verifier::external_body]
pub(crate) fn read_libraries(dir: &SteamDir) -> (libraries: Result<
    Vec<Result<Library, steamlocate::Error>>,
    steamlocate::Error,
>) {
    dir.libraries().map(|libraries| libraries.collect())
}

/// Calls `steamlocate::Library::apps` and walks the iterator it returns to its
/// end, keeping every item in order. Of each manifest that was read, the four
/// fields this crate uses are moved into an [`AppManifest`]; the launcher
/// path becomes text the way `Path::to_string_lossy` renders it. Nothing is
/// claimed of what comes back.
#[verifier::external_body]
pub(crate) fn read_manifests(library: &Library) -> (manifests: Vec<
    Result<AppManifest, steamlocate::Error>,
>) {
    library.apps().map(|app| app.map(|app| AppManifest {
        app_id: app.app_id,
        name: app.name,
        install_dir: app.install_dir,
        launcher_path: app.launcher_path.map(|path| path.to_string_lossy().into_owned()),
    })).collect()
}

/// Calls `steamlocate::SteamDir::path` and copies the path it borrows. Nothing
/// is claimed of the path.
#[verifier::external_body]
pub(crate) fn install_path(dir: &SteamDir) -> (path: PathBuf) {
    dir.path().to_path_buf()
}

/// Calls `std::path::Path::join`. How two paths are joined depends on the
/// operating system, so nothing is claimed of the result.
#[verifier::external_body]
pub(crate) fn join_path(base: &PathBuf, name: &str) -> (joined: PathBuf) {
    base.join(name)
}

/// Calls `std::path::Path::exists`. The answer depends on what is on disk at
/// the moment of the call, so nothing is claimed of it.
#[verifier::external_body]
pub(crate) fn path_exists(path: &PathBuf) -> (present: bool) {
    path.exists()
}

} // verus!
