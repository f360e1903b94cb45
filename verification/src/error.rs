//! The error taxonomy of the upload core. The first three variants are
//! batch-fatal: no profile, no upload. The last two are per-file and are
//! carried inside an upload outcome instead of aborting a batch.

use vstd::prelude::*;

verus! {

#[derive(Debug)]
pub enum UploadError {
    /// No profile name was given and no current profile is set.
    NoProfileSelected,
    /// The named profile is not configured; holds the name.
    ProfileNotFound(String),
    /// The storage backend refused its construction; holds its report.
    BackendInitError(String),
    /// The local file could not be read; holds the report.
    LocalReadError(String),
    /// The backend refused the remote write; holds its report.
    RemoteWriteError(String),
}

impl UploadError {
    /// A one-line description, in place of a `Display` impl.
    pub fn message(&self) -> (r: String)
        ensures
            match self {
                UploadError::NoProfileSelected => r@ == "No profile specified and no current profile set"@,
                UploadError::ProfileNotFound(name) => r@ == "Profile '"@ + name@ + "' not found"@,
                UploadError::BackendInitError(m) => r@ == "Failed to build storage backend: "@ + m@,
                UploadError::LocalReadError(m) => r@ == "Failed to read file: "@ + m@,
                UploadError::RemoteWriteError(m) => r@ == "Failed to upload: "@ + m@,
            },
    {
        match self {
            UploadError::NoProfileSelected => String::from_str(
                "No profile specified and no current profile set",
            ),
            UploadError::ProfileNotFound(name) => {
                let mut r = String::from_str("Profile '");
                r.append(name.as_str());
                r.append("' not found");
                r
            },
            UploadError::BackendInitError(m) => {
                let mut r = String::from_str("Failed to build storage backend: ");
                r.append(m.as_str());
                r
            },
            UploadError::LocalReadError(m) => {
                let mut r = String::from_str("Failed to read file: ");
                r.append(m.as_str());
                r
            },
            UploadError::RemoteWriteError(m) => {
                let mut r = String::from_str("Failed to upload: ");
                r.append(m.as_str());
                r
            },
        }
    }
}

} // verus!
