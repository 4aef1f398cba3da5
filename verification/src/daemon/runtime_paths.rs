//! Per-workspace runtime paths of the daemon and the owner-only rules its
//! directories and lock file must meet.
//!
//! Paths are UTF-8 Unix paths held as strings; the filesystem is read by the
//! caller, which hands the facts it found to the checks here.

use vstd::prelude::*;
use vstd::utf8::encode_utf8;

use crate::digest::{hex_encode, hex_lower, sha256, sha256_digest};
use crate::text::{
    chars_of, has_parent_component, is_absolute_path, join, join_path, path_has_parent_component,
    path_is_absolute, push_all, string_from_chars,
};

verus! {

/// Mode of private directories.
pub const PRIVATE_DIRECTORY_MODE: u32 = 0o700;

/// Mode of private files.
pub const PRIVATE_FILE_MODE: u32 = 0o600;

/// Bytes of the digest kept in a workspace id.
pub const WORKSPACE_ID_BYTES: usize = 16;

/// Domain separator hashed before the repository root.
pub const WORKSPACE_ID_DOMAIN: &'static str = "workbench-workspace-id-v1\0";

/// Why a runtime path was refused.
#[derive(Debug, Clone, PartialEq, Eq)]
pub enum RuntimePathError {
    MissingEnvironment(&'static str),
    UnsafePath(String),
    UnexpectedOwner(String),
    BroadPermissions(String),
    SymbolicLink(String),
    DaemonAlreadyRunning,
    LegacyStateRequiresMigration,
    UnsupportedPlatform,
    Io(String),
}

/// Configuration, state and IPC paths of one workspace.
#[derive(Debug, Clone)]
pub struct RuntimePaths {
    pub configuration_file: String,
    pub state_directory: String,
    pub database_file: String,
    pub endpoint_directory: String,
    pub endpoint: String,
    pub daemon_lock: String,
}

/// An absolute path without a `..` component.
pub open spec fn safe_absolute(path: Seq<char>) -> bool {
    is_absolute_path(path) && !has_parent_component(path)
}

/// Paths derived from the three roots.
pub open spec fn paths_from_parts(
    paths: RuntimePaths,
    configuration_file: Seq<char>,
    state_directory: Seq<char>,
    endpoint_directory: Seq<char>,
) -> bool {
    &&& paths.configuration_file@ == configuration_file
    &&& paths.state_directory@ == state_directory
    &&& paths.database_file@ == join_path(state_directory, "workbench.sqlite3"@)
    &&& paths.daemon_lock@ == join_path(state_directory, "daemon.lock"@)
    &&& paths.endpoint_directory@ == endpoint_directory
    &&& paths.endpoint@ == join_path(endpoint_directory, "workbench.sock"@)
}

/// Checks that a path is absolute and never names a parent directory.
///
/// # Errors
///
/// `UnsafePath` with the path otherwise.
pub fn require_safe_absolute(path: &str) -> (r: Result<(), RuntimePathError>)
    ensures
        safe_absolute(path@) ==> r is Ok,
        !safe_absolute(path@) ==> (r matches Err(RuntimePathError::UnsafePath(p)) && p@ == path@),
{
    let v = chars_of(path);
    if !path_is_absolute(&v) || path_has_parent_component(&v) {
        return Err(RuntimePathError::UnsafePath(path.to_owned()));
    }
    Ok(())
}

impl RuntimePaths {
    /// Builds a path set from explicitly selected absolute roots.
    ///
    /// # Errors
    ///
    /// `UnsafePath` with the first supplied path that is relative or
    /// traverses a parent component.
    pub fn from_parts(
        configuration_file: String,
        state_directory: String,
        endpoint_directory: String,
    ) -> (r: Result<Self, RuntimePathError>)
        ensures
            !safe_absolute(configuration_file@) ==> (r matches Err(RuntimePathError::UnsafePath(p))
                && p@ == configuration_file@),
            safe_absolute(configuration_file@) && !safe_absolute(state_directory@) ==> (r matches Err(
                RuntimePathError::UnsafePath(p),
            ) && p@ == state_directory@),
            safe_absolute(configuration_file@) && safe_absolute(state_directory@) && !safe_absolute(
                endpoint_directory@,
            ) ==> (r matches Err(RuntimePathError::UnsafePath(p)) && p@ == endpoint_directory@),
            safe_absolute(configuration_file@) && safe_absolute(state_directory@) && safe_absolute(
                endpoint_directory@,
            ) ==> (r matches Ok(paths) && paths_from_parts(
                paths,
                configuration_file@,
                state_directory@,
                endpoint_directory@,
            )),
    {
        if let Err(e) = require_safe_absolute(configuration_file.as_str()) {
            return Err(e);
        }
        if let Err(e) = require_safe_absolute(state_directory.as_str()) {
            return Err(e);
        }
        if let Err(e) = require_safe_absolute(endpoint_directory.as_str()) {
            return Err(e);
        }
        Ok(Self {
            configuration_file,
            database_file: join(state_directory.as_str(), "workbench.sqlite3"),
            daemon_lock: join(state_directory.as_str(), "daemon.lock"),
            endpoint: join(endpoint_directory.as_str(), "workbench.sock"),
            state_directory,
            endpoint_directory,
        })
    }

    /// Builds the paths of one workspace: its state lives under
    /// `state_root/<workspace_id>` and its endpoint is
    /// `<endpoint_directory>/<workspace_id>.sock`.
    ///
    /// # Errors
    ///
    /// `UnsafePath` as `from_parts` gives it.
    pub fn from_workspace_parts(
        configuration_file: String,
        state_root: &str,
        endpoint_directory: String,
        workspace_id: &str,
    ) -> (r: Result<Self, RuntimePathError>)
        ensures
            match r {
                Ok(paths) => {
                    &&& safe_absolute(configuration_file@)
                    &&& safe_absolute(join_path(state_root@, workspace_id@))
                    &&& safe_absolute(endpoint_directory@)
                    &&& paths.configuration_file@ == configuration_file@
                    &&& paths.state_directory@ == join_path(state_root@, workspace_id@)
                    &&& paths.database_file@ == join_path(
                        join_path(state_root@, workspace_id@),
                        "workbench.sqlite3"@,
                    )
                    &&& paths.daemon_lock@ == join_path(
                        join_path(state_root@, workspace_id@),
                        "daemon.lock"@,
                    )
                    &&& paths.endpoint_directory@ == endpoint_directory@
                    &&& paths.endpoint@ == join_path(endpoint_directory@, workspace_id@ + ".sock"@)
                },
                Err(RuntimePathError::UnsafePath(p)) => {
                    ||| !safe_absolute(configuration_file@) && p@ == configuration_file@
                    ||| safe_absolute(configuration_file@) && !safe_absolute(
                        join_path(state_root@, workspace_id@),
                    ) && p@ == join_path(state_root@, workspace_id@)
                    ||| safe_absolute(configuration_file@) && safe_absolute(
                        join_path(state_root@, workspace_id@),
                    ) && !safe_absolute(endpoint_directory@) && p@ == endpoint_directory@
                },
                Err(_) => false,
            },
    {
        let state_directory = join(state_root, workspace_id);
        let mut paths = match Self::from_parts(
            configuration_file,
            state_directory,
            endpoint_directory,
        ) {
            Ok(paths) => paths,
            Err(e) => return Err(e),
        };
        let mut name = chars_of(workspace_id);
        push_all(&mut name, &chars_of(".sock"));
        let name = string_from_chars(&name);
        paths.endpoint = join(paths.endpoint_directory.as_str(), name.as_str());
        Ok(paths)
    }
}

/// Refuses to start next to an unmigrated global database: one at the
/// state root while the workspace has none of its own.
///
/// # Errors
///
/// `LegacyStateRequiresMigration` in that case.
pub fn reject_unmigrated_legacy_database(legacy_exists: bool, workspace_exists: bool) -> (r:
    Result<(), RuntimePathError>)
    ensures
        legacy_exists && !workspace_exists ==> r == Err::<(), RuntimePathError>(
            RuntimePathError::LegacyStateRequiresMigration,
        ),
        !(legacy_exists && !workspace_exists) ==> r is Ok,
{
    if legacy_exists && !workspace_exists {
        return Err(RuntimePathError::LegacyStateRequiresMigration);
    }
    Ok(())
}

/// The workspace id of a canonical repository root: the lowercase hex of
/// the first 16 bytes of SHA-256 over the domain separator and the root's
/// UTF-8 bytes.
pub open spec fn workspace_id_spec(canonical_root: Seq<char>) -> Seq<char> {
    hex_lower(
        sha256_digest(encode_utf8(WORKSPACE_ID_DOMAIN@) + encode_utf8(canonical_root)).take(16),
    )
}

/// Derives the stable cross-client identifier for a canonical UTF-8
/// repository root.
pub fn workspace_id_for_canonical_utf8(canonical_root: &str) -> (r: String)
    ensures
        r@ == workspace_id_spec(canonical_root@),
        r@.len() == 32,
{
    let mut input: Vec<u8> = Vec::new();
    input.extend_from_slice(WORKSPACE_ID_DOMAIN.as_bytes());
    input.extend_from_slice(canonical_root.as_bytes());
    assert(input@ =~= encode_utf8(WORKSPACE_ID_DOMAIN@) + encode_utf8(canonical_root@));
    let digest = sha256(input.as_slice());
    let mut kept: Vec<u8> = Vec::new();
    let mut i: usize = 0;
    while i < WORKSPACE_ID_BYTES
        invariant
            i <= 16,
            digest@.len() == 32,
            kept@ == digest@.take(i as int),
        decreases 16 - i,
    {
        kept.push(digest[i]);
        i += 1;
        assert(kept@ =~= digest@.take(i as int));
    }
    proof {
        crate::digest::lemma_hex_lower_len(kept@);
    }
    hex_encode(kept.as_slice())
}

/// Metadata the caller read of a path that should be a private directory.
pub open spec fn private_directory_fault(
    is_symlink: bool,
    is_dir: bool,
    owner_uid: u32,
    daemon_uid: u32,
    mode: u32,
) -> Option<u8> {
    if is_symlink {
        Some(0u8)
    } else if !is_dir {
        Some(1u8)
    } else if owner_uid != daemon_uid {
        Some(2u8)
    } else if mode & 0o077u32 != 0 {
        Some(3u8)
    } else {
        None
    }
}

/// Checks that a directory is private: no symbolic link, a directory,
/// owned by the daemon's user, and without group or other permissions.
///
/// # Errors
///
/// `SymbolicLink`, `UnsafePath`, `UnexpectedOwner` or `BroadPermissions`,
/// with the path, for the first rule broken in that order.
pub fn verify_private_directory(
    path: &str,
    is_symlink: bool,
    is_dir: bool,
    owner_uid: u32,
    daemon_uid: u32,
    mode: u32,
) -> (r: Result<(), RuntimePathError>)
    ensures
        match private_directory_fault(is_symlink, is_dir, owner_uid, daemon_uid, mode) {
            None => r is Ok,
            Some(0u8) => r matches Err(RuntimePathError::SymbolicLink(p)) && p@ == path@,
            Some(1u8) => r matches Err(RuntimePathError::UnsafePath(p)) && p@ == path@,
            Some(2u8) => r matches Err(RuntimePathError::UnexpectedOwner(p)) && p@ == path@,
            Some(_) => r matches Err(RuntimePathError::BroadPermissions(p)) && p@ == path@,
        },
{
    if is_symlink {
        return Err(RuntimePathError::SymbolicLink(path.to_owned()));
    }
    if !is_dir {
        return Err(RuntimePathError::UnsafePath(path.to_owned()));
    }
    if owner_uid != daemon_uid {
        return Err(RuntimePathError::UnexpectedOwner(path.to_owned()));
    }
    if mode & 0o077u32 != 0 {
        return Err(RuntimePathError::BroadPermissions(path.to_owned()));
    }
    Ok(())
}

/// Metadata the caller read of the daemon lock file once it is open.
pub open spec fn lock_file_fault(
    existed: bool,
    is_file: bool,
    owner_uid: u32,
    daemon_uid: u32,
    mode: u32,
) -> Option<u8> {
    if !is_file {
        Some(1u8)
    } else if owner_uid != daemon_uid {
        Some(2u8)
    } else if existed && mode & 0o077u32 != 0 {
        Some(3u8)
    } else {
        None
    }
}

/// Checks the opened daemon lock file: a regular file of the daemon's user,
/// and, when it already existed, without group or other permissions.
///
/// # Errors
///
/// `UnsafePath`, `UnexpectedOwner` or `BroadPermissions`, with the path, for
/// the first rule broken in that order.
pub fn verify_lock_file(
    path: &str,
    existed: bool,
    is_file: bool,
    owner_uid: u32,
    daemon_uid: u32,
    mode: u32,
) -> (r: Result<(), RuntimePathError>)
    ensures
        match lock_file_fault(existed, is_file, owner_uid, daemon_uid, mode) {
            None => r is Ok,
            Some(1u8) => r matches Err(RuntimePathError::UnsafePath(p)) && p@ == path@,
            Some(2u8) => r matches Err(RuntimePathError::UnexpectedOwner(p)) && p@ == path@,
            Some(_) => r matches Err(RuntimePathError::BroadPermissions(p)) && p@ == path@,
        },
{
    if !is_file {
        return Err(RuntimePathError::UnsafePath(path.to_owned()));
    }
    if owner_uid != daemon_uid {
        return Err(RuntimePathError::UnexpectedOwner(path.to_owned()));
    }
    if existed && mode & 0o077u32 != 0 {
        return Err(RuntimePathError::BroadPermissions(path.to_owned()));
    }
    Ok(())
}

/// Path-based durable spend store that opens the workstation database
/// briefly.
#[derive(Debug, Clone)]
pub struct PathSpendStore {
    database: String,
}

impl PathSpendStore {
    /// The database path the store opens.
    pub closed spec fn database_path(&self) -> Seq<char> {
        self.database@
    }

    /// A store for the database at `database`.
    pub fn new(database: String) -> (r: Self)
        ensures
            r.database_path() == database@,
    {
        Self { database }
    }
}

} // verus!
