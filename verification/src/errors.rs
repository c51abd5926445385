use vstd::prelude::*;

verus! {

/// The errors a sorting command can report. Every variant except
/// `MoveFailed` is fatal to the current command and is raised before any
/// file is moved; `MoveFailed` concerns one file of a batch and leaves the
/// rest of the batch running.
#[derive(Clone, Copy, Debug, PartialEq, Eq, Structural)]
pub enum SortError {
    /// The supplied path does not exist or cannot be read.
    InvalidPath,
    /// A template name that is not in the fixed set of well-known folders.
    UnknownTemplate,
    /// No predicate was requested, so there is nothing to filter by.
    NoFilterSpecified,
    /// A date argument is not a valid `YYYY-MM-DD` calendar date.
    DateParseError,
    /// A size argument is not a non-negative integer number of kilobytes.
    InvalidSize,
    /// The destination folder could not be created.
    FolderCreationFailed,
    /// The user declined to reuse an existing destination folder.
    UserAborted,
    /// One file could not be renamed into the destination.
    MoveFailed,
}

impl SortError {
    /// The human-readable message printed for this error.
    pub fn message(&self) -> (r: &'static str)
        ensures
            *self is InvalidPath ==> r@ == "ERROR: The path is invalid"@,
            *self is UnknownTemplate ==> r@ == "ERROR: The template does not exist"@,
            *self is NoFilterSpecified ==> r@ == "ERROR: At least one option must be provided"@,
            *self is DateParseError ==> r@ == "ERROR: Invalid date conversion"@,
            *self is InvalidSize ==> r@ == "ERROR: Negative values cannot be used as file sizes"@,
            *self is FolderCreationFailed ==> r@ == "ERROR: There was a problem creating the folder"@,
            *self is UserAborted ==> r@ == "Aborted."@,
            *self is MoveFailed ==> r@ == "There was a problem opening the file"@,
    {
        match self {
            SortError::InvalidPath => "ERROR: The path is invalid",
            SortError::UnknownTemplate => "ERROR: The template does not exist",
            SortError::NoFilterSpecified => "ERROR: At least one option must be provided",
            SortError::DateParseError => "ERROR: Invalid date conversion",
            SortError::InvalidSize => "ERROR: Negative values cannot be used as file sizes",
            SortError::FolderCreationFailed => "ERROR: There was a problem creating the folder",
            SortError::UserAborted => "Aborted.",
            SortError::MoveFailed => "There was a problem opening the file",
        }
    }
}

} // verus!
