use vstd::prelude::*;

verus! {

/// Why a query produced no result.
#[derive(Clone, Copy, Debug, PartialEq, Eq, Structural)]
pub enum QueryError {
    /// The graphics API runtime library could not be loaded.
    RuntimeUnavailable,
    /// The API instance could not be created.
    InstanceCreation,
    /// The physical devices could not be listed.
    Enumeration,
    /// A device name is not valid UTF-8.
    InvalidDeviceName,
    /// The vendor library could not be opened.
    LibraryOpen,
    /// The loader did not report where it found the vendor library.
    LinkMapQuery,
    /// The resolved library path has no parent directory.
    NoParentDirectory,
}

/// The diagnostic text of each failure.
pub open spec fn message_of(e: QueryError) -> Seq<char> {
    match e {
        QueryError::RuntimeUnavailable => "Failed to load vulkan"@,
        QueryError::InstanceCreation => "Failed to create Vulkan instance"@,
        QueryError::Enumeration => "Failed to enumerate devices"@,
        QueryError::InvalidDeviceName => "device name is not valid UTF-8"@,
        QueryError::LibraryOpen => "dlopen failed"@,
        QueryError::LinkMapQuery => "dlinfo failed"@,
        QueryError::NoParentDirectory => "Failed to get parent path"@,
    }
}

impl QueryError {
    /// A short description of the failure.
    pub fn message(&self) -> (r: String)
        ensures
            r@ == message_of(*self),
    {
        let s = match self {
            QueryError::RuntimeUnavailable => "Failed to load vulkan",
            QueryError::InstanceCreation => "Failed to create Vulkan instance",
            QueryError::Enumeration => "Failed to enumerate devices",
            QueryError::InvalidDeviceName => "device name is not valid UTF-8",
            QueryError::LibraryOpen => "dlopen failed",
            QueryError::LinkMapQuery => "dlinfo failed",
            QueryError::NoParentDirectory => "Failed to get parent path",
        };
        s.to_string()
    }
}

} // verus!
