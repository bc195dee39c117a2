//! Failures of file access and package resolution.

use vstd::prelude::*;

verus! {

/// The version of a package.
#[derive(Debug, PartialEq, Eq, Hash)]
pub struct PackageVersion {
    pub major: u32,
    pub minor: u32,
    pub patch: u32,
}

/// Names a package: its namespace, name and version.
#[derive(Debug, PartialEq, Eq, Hash)]
pub struct PackageSpec {
    pub namespace: String,
    pub name: String,
    pub version: PackageVersion,
}

/// Why a package could not be resolved to a local directory.
#[derive(Debug, PartialEq, Eq, Hash)]
pub enum PackageError {
    /// The package does not exist.
    NotFound(PackageSpec),
    /// The package exists, but not in this version; the second field is the
    /// latest version that does.
    VersionNotFound(PackageSpec, PackageVersion),
    /// The download failed.
    NetworkFailed(Option<String>),
    /// The archive could not be unpacked.
    MalformedArchive(Option<String>),
    /// Another failure.
    Other(Option<String>),
}

/// Why a file could not be provided.
#[derive(Debug, PartialEq, Eq, Hash)]
pub enum FileError {
    /// No file at this path.
    NotFound(String),
    /// The file may not be read, or its path leaves the root.
    AccessDenied,
    /// The path names a directory.
    IsDirectory,
    /// The file is not a source file.
    NotSource,
    /// The content is not valid UTF-8.
    InvalidUtf8,
    /// The package that the file belongs to could not be resolved.
    Package(PackageError),
    /// Another failure, with details where there are any.
    Other(Option<String>),
}

/// A copy of an optional string.
pub fn clone_detail(detail: &Option<String>) -> (copy: Option<String>)
    ensures
        copy == *detail,
{
    match detail {
        Some(text) => Some(text.clone()),
        None => None,
    }
}

impl Clone for PackageVersion {
    fn clone(&self) -> (copy: Self)
        ensures
            copy == *self,
    {
        PackageVersion { major: self.major, minor: self.minor, patch: self.patch }
    }
}

impl Clone for PackageSpec {
    fn clone(&self) -> (copy: Self)
        ensures
            copy == *self,
    {
        PackageSpec {
            namespace: self.namespace.clone(),
            name: self.name.clone(),
            version: self.version.clone(),
        }
    }
}

impl Clone for PackageError {
    fn clone(&self) -> (copy: Self)
        ensures
            copy == *self,
    {
        match self {
            PackageError::NotFound(spec) => PackageError::NotFound(spec.clone()),
            PackageError::VersionNotFound(spec, latest) => PackageError::VersionNotFound(
                spec.clone(),
                latest.clone(),
            ),
            PackageError::NetworkFailed(detail) => PackageError::NetworkFailed(
                clone_detail(detail),
            ),
            PackageError::MalformedArchive(detail) => PackageError::MalformedArchive(
                clone_detail(detail),
            ),
            PackageError::Other(detail) => PackageError::Other(clone_detail(detail)),
        }
    }
}

impl Clone for FileError {
    fn clone(&self) -> (copy: Self)
        ensures
            copy == *self,
    {
        match self {
            FileError::NotFound(path) => FileError::NotFound(path.clone()),
            FileError::AccessDenied => FileError::AccessDenied,
            FileError::IsDirectory => FileError::IsDirectory,
            FileError::NotSource => FileError::NotSource,
            FileError::InvalidUtf8 => FileError::InvalidUtf8,
            FileError::Package(error) => FileError::Package(error.clone()),
            FileError::Other(detail) => FileError::Other(clone_detail(detail)),
        }
    }
}

} // verus!
