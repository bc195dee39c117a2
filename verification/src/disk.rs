//! The way from a file identity to the bytes of the file on disk. What
//! touches the file system is handed in: the outcome of preparing a
//! package, what the file system says of a path, and the read itself.

use crate::error::FileError;
use crate::outside::{resolve_path, resolved_path};
use std::path::PathBuf;
use typst::syntax::FileId;
use vstd::prelude::*;

verus! {

/// The path of a file on disk, given what resolving it below its root
/// gave: a path that leaves its root is denied.
pub open spec fn placed(resolved: Option<PathBuf>) -> Result<PathBuf, FileError> {
    match resolved {
        Some(inside) => Ok(inside),
        None => Err(FileError::AccessDenied),
    }
}

/// The path of a file on disk, given what resolving it below its root gave.
pub fn within_root(resolved: Option<PathBuf>) -> (path: Result<PathBuf, FileError>)
    ensures
        path == placed(resolved),
{
    match resolved {
        Some(inside) => Ok(inside),
        None => Err(FileError::AccessDenied),
    }
}

/// Resolves the path of a file on disk.
///
/// A file of the project lies below the project root, and `package_root` is
/// `None`. A file of a package lies below the root of the package, and
/// `package_root` is the outcome of preparing the package; where that
/// failed, its error is the result. A path that leaves its root is denied.
pub fn system_path(
    project_root: &PathBuf,
    id: FileId,
    package_root: Option<Result<PathBuf, FileError>>,
) -> (path: Result<PathBuf, FileError>)
    ensures
        path == match package_root {
            Some(Ok(root)) => placed(resolved_path(id, root)),
            Some(Err(error)) => Err::<PathBuf, FileError>(error),
            None => placed(resolved_path(id, *project_root)),
        },
{
    match package_root {
        Some(Ok(root)) => within_root(resolve_path(id, &root)),
        Some(Err(error)) => Err(error),
        None => within_root(resolve_path(id, project_root)),
    }
}

/// Reads a file, unless its path could not be examined or names a
/// directory. `is_directory` is what the file system says of the path, and
/// `read` reads the file.
pub fn read_from_disk<R>(is_directory: Result<bool, FileError>, read: R) -> (result: Result<
    Vec<u8>,
    FileError,
>) where R: FnOnce() -> Result<Vec<u8>, FileError>
    requires
        call_requires(read, ()),
    ensures
        match is_directory {
            Err(error) => result == Err::<Vec<u8>, FileError>(error),
            Ok(true) => result == Err::<Vec<u8>, FileError>(FileError::IsDirectory),
            Ok(false) => call_ensures(read, (), result),
        },
{
    match is_directory {
        Err(error) => Err(error),
        Ok(true) => Err(FileError::IsDirectory),
        Ok(false) => read(),
    }
}

} // verus!
