use vstd::prelude::*;

verus! {

/// Stable classes of failure reported by every layer of the library.
#[derive(Debug, Clone, Copy, PartialEq, Eq, Structural)]
pub enum ErrorCategory {
    StorageAccess,
    PermissionDenied,
    InvalidImage,
    PartitionTable,
    UnsupportedFilesystem,
    UnsupportedFeature,
    FilesystemCorrupt,
    FilesystemNeedsRecovery,
    MountPointUnavailable,
    WinFspUnavailable,
    WinFspFailure,
    Configuration,
    Internal,
}

/// The result of a fallible library operation.
pub type Result<T> = core::result::Result<T, Error>;

/// A categorized error with a human-readable message and an optional
/// description of the lower-level cause.
#[derive(Debug, Clone)]
pub struct Error {
    category: ErrorCategory,
    message: String,
    source: Option<String>,
}

impl Error {
    /// The category this error was created with.
    pub closed spec fn kind(&self) -> ErrorCategory {
        self.category
    }

    /// The message this error was created with.
    pub closed spec fn text(&self) -> Seq<char> {
        self.message@
    }

    /// The description of the lower-level cause, if one was attached.
    pub closed spec fn cause(&self) -> Option<Seq<char>> {
        match self.source {
            Some(s) => Some(s@),
            None => None,
        }
    }

    pub fn new(category: ErrorCategory, message: &str) -> (e: Self)
        ensures
            e.kind() == category,
            e.text() == message@,
            e.cause() is None,
    {
        Error { category, message: message.to_owned(), source: None }
    }

    pub fn with_source(category: ErrorCategory, message: &str, source: &str) -> (e: Self)
        ensures
            e.kind() == category,
            e.text() == message@,
            e.cause() == Some(source@),
    {
        Error { category, message: message.to_owned(), source: Some(source.to_owned()) }
    }

    pub fn category(&self) -> (c: ErrorCategory)
        ensures
            c == self.kind(),
    {
        self.category
    }

    /// The message, as `Display` would show it.
    pub fn to_string(&self) -> (s: String)
        ensures
            s@ == self.text(),
    {
        self.message.clone()
    }
}

} // verus!
