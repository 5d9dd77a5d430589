//! The error type of the library.

use vstd::prelude::*;
use crate::text::concat_str;

verus! {

/// Everything that can go wrong while scanning, planning or executing.
#[derive(Debug, Clone, PartialEq)]
pub enum SyncError {
    /// A filesystem operation failed.
    Io(String),
    /// A path was missing, was not a directory, or lay outside its root.
    Path { path: String, message: String },
    /// An operation was denied or needs privileges.
    Permission { path: String, message: String },
    /// Two files could not be compared.
    Comparison { message: String },
    /// A glob pattern did not compile.
    FilterPattern(String),
    /// A conflict could not be resolved by the configured policy.
    ConflictResolution(String),
    /// A digest could not be computed.
    Hash { path: String, message: String },
    /// A sync operation failed.
    SyncOperation(String),
    /// Progress could not be reported.
    Progress(String),
    /// File attributes could not be applied.
    AttributePreservation { path: String, message: String },
    /// A directory walk failed.
    DirectoryScan { path: String, message: String },
    /// A file copy failed.
    FileCopy { message: String },
    /// A deletion failed.
    FileDeletion { path: String, message: String },
    /// The operation was cancelled.
    Cancelled,
}

fn with_path(head: &str, path: &String, message: &String) -> (r: String)
    ensures
        r@ == head@ + path@ + "': "@ + message@,
{
    let a = concat_str(head, path.as_str());
    let b = concat_str(a.as_str(), "': ");
    concat_str(b.as_str(), message.as_str())
}

/// The description of an error.
pub open spec fn error_text(e: SyncError) -> Seq<char> {
    match e {
        SyncError::Io(m) => "IO error: "@ + m@,
        SyncError::Path { path, message } => "Path error at '"@ + path@ + "': "@ + message@,
        SyncError::Permission { path, message } => "Permission error at '"@ + path@ + "': "@ + message@,
        SyncError::Comparison { message } => "Comparison error: "@ + message@,
        SyncError::FilterPattern(m) => "Filter pattern error: "@ + m@,
        SyncError::ConflictResolution(m) => "Conflict resolution error: "@ + m@,
        SyncError::Hash { path, message } => "Hash computation error for '"@ + path@ + "': "@ + message@,
        SyncError::SyncOperation(m) => "Sync operation failed: "@ + m@,
        SyncError::Progress(m) => "Progress reporting error: "@ + m@,
        SyncError::AttributePreservation { path, message } => "Attribute preservation error for '"@ + path@ + "': "@
            + message@,
        SyncError::DirectoryScan { path, message } => "Directory scan error at '"@ + path@ + "': "@ + message@,
        SyncError::FileCopy { message } => "File copy error: "@ + message@,
        SyncError::FileDeletion { path, message } => "File deletion error at '"@ + path@ + "': "@ + message@,
        SyncError::Cancelled => "Operation was cancelled"@,
    }
}

impl SyncError {
    /// A path error.
    pub fn path_error(path: &str, message: &str) -> (r: SyncError)
        ensures
            r matches SyncError::Path { path: p, message: m } && p@ == path@ && m@ == message@,
    {
        SyncError::Path { path: path.to_owned(), message: message.to_owned() }
    }

    /// A permission error.
    pub fn permission_error(path: &str, message: &str) -> (r: SyncError)
        ensures
            r matches SyncError::Permission { path: p, message: m } && p@ == path@ && m@ == message@,
    {
        SyncError::Permission { path: path.to_owned(), message: message.to_owned() }
    }

    /// A comparison error naming both files.
    pub fn comparison_error(source: &str, dest: &str, message: &str) -> (r: SyncError)
        ensures
            r matches SyncError::Comparison { message: m }
                && m@ == "Comparison error between '"@ + source@ + "' and '"@ + dest@ + "': "@ + message@,
    {
        let a = concat_str("Comparison error between '", source);
        let b = concat_str(a.as_str(), "' and '");
        let c = concat_str(b.as_str(), dest);
        let d = concat_str(c.as_str(), "': ");
        let m = concat_str(d.as_str(), message);
        SyncError::Comparison { message: m }
    }

    /// A digest error.
    pub fn hash_error(path: &str, message: &str) -> (r: SyncError)
        ensures
            r matches SyncError::Hash { path: p, message: m } && p@ == path@ && m@ == message@,
    {
        SyncError::Hash { path: path.to_owned(), message: message.to_owned() }
    }

    /// An attribute preservation error.
    pub fn attribute_error(path: &str, message: &str) -> (r: SyncError)
        ensures
            r matches SyncError::AttributePreservation { path: p, message: m } && p@ == path@
                && m@ == message@,
    {
        SyncError::AttributePreservation { path: path.to_owned(), message: message.to_owned() }
    }

    /// A directory scan error.
    pub fn scan_error(path: &str, message: &str) -> (r: SyncError)
        ensures
            r matches SyncError::DirectoryScan { path: p, message: m } && p@ == path@ && m@ == message@,
    {
        SyncError::DirectoryScan { path: path.to_owned(), message: message.to_owned() }
    }

    /// A copy error naming both files.
    pub fn copy_error(source: &str, dest: &str, message: &str) -> (r: SyncError)
        ensures
            r matches SyncError::FileCopy { message: m }
                && m@ == "File copy error from '"@ + source@ + "' to '"@ + dest@ + "': "@ + message@,
    {
        let a = concat_str("File copy error from '", source);
        let b = concat_str(a.as_str(), "' to '");
        let c = concat_str(b.as_str(), dest);
        let d = concat_str(c.as_str(), "': ");
        let m = concat_str(d.as_str(), message);
        SyncError::FileCopy { message: m }
    }

    /// A deletion error.
    pub fn deletion_error(path: &str, message: &str) -> (r: SyncError)
        ensures
            r matches SyncError::FileDeletion { path: p, message: m } && p@ == path@ && m@ == message@,
    {
        SyncError::FileDeletion { path: path.to_owned(), message: message.to_owned() }
    }

    /// The human-readable description of the error.
    pub fn to_string(&self) -> (r: String)
        ensures
            r@ == error_text(*self),
    {
        match self {
            SyncError::Io(m) => concat_str("IO error: ", m.as_str()),
            SyncError::Path { path, message } => with_path("Path error at '", path, message),
            SyncError::Permission { path, message } => with_path("Permission error at '", path, message),
            SyncError::Comparison { message } => concat_str("Comparison error: ", message.as_str()),
            SyncError::FilterPattern(m) => concat_str("Filter pattern error: ", m.as_str()),
            SyncError::ConflictResolution(m) => concat_str("Conflict resolution error: ", m.as_str()),
            SyncError::Hash { path, message } => with_path("Hash computation error for '", path, message),
            SyncError::SyncOperation(m) => concat_str("Sync operation failed: ", m.as_str()),
            SyncError::Progress(m) => concat_str("Progress reporting error: ", m.as_str()),
            SyncError::AttributePreservation { path, message } =>
                with_path("Attribute preservation error for '", path, message),
            SyncError::DirectoryScan { path, message } => with_path("Directory scan error at '", path, message),
            SyncError::FileCopy { message } => concat_str("File copy error: ", message.as_str()),
            SyncError::FileDeletion { path, message } => with_path("File deletion error at '", path, message),
            SyncError::Cancelled => "Operation was cancelled".to_owned(),
        }
    }
}

} // verus!
