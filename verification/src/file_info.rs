//! The record returned for a chosen file, and how it is derived from what the
//! native picker resolved with.

use vstd::prelude::*;

verus! {

/// What the caller learns about the file that was chosen.
///
/// A value is built once, when the picker has resolved with a path, and is
/// never changed afterwards.
#[derive(Debug, PartialEq, Eq)]
pub struct FileInfo {
    /// The chosen path, in the platform's own notation.
    pub path: String,
    /// The final component of the path, or `"Unknown"` where none could be derived.
    pub name: String,
    /// The length of the file in bytes; absent where the lookup failed.
    pub size: Option<u64>,
}

/// The mathematical value of a [`FileInfo`].
pub struct FileInfoView {
    pub path: Seq<char>,
    pub name: Seq<char>,
    pub size: Option<u64>,
}

impl View for FileInfo {
    type V = FileInfoView;

    open spec fn view(&self) -> FileInfoView {
        FileInfoView { path: self.path@, name: self.name@, size: self.size }
    }
}

/// The name given to a file whose path has no final component that can be
/// told as text.
pub const UNKNOWN_NAME: &'static str = "Unknown";

/// The message of the failure raised for a selection that names no path.
pub const UNUSABLE_SELECTION: &'static str = "the selected file has no usable path";

/// What the native picker resolved with when the user chose a file, as far
/// as this crate reads it.
#[derive(Debug, PartialEq, Eq)]
pub enum RawSelection {
    /// A path on the filesystem.
    Path {
        /// The whole path as text, in the platform's own notation.
        text: String,
        /// The final component of the path; `None` where the path has none,
        /// or where that component cannot be decoded as text.
        file_name: Option<String>,
    },
    /// A location that cannot be told as a filesystem path.
    NotAPath,
}

/// The mathematical value of a [`RawSelection`].
pub enum RawSelectionView {
    Path { text: Seq<char>, file_name: Option<Seq<char>> },
    NotAPath,
}

impl View for RawSelection {
    type V = RawSelectionView;

    open spec fn view(&self) -> RawSelectionView {
        match self {
            RawSelection::Path { text, file_name } => RawSelectionView::Path {
                text: text@,
                file_name: file_name.deep_view(),
            },
            RawSelection::NotAPath => RawSelectionView::NotAPath,
        }
    }
}

/// The record for a path with the text `text`, the final component
/// `file_name` and the length `size`: the name falls back to
/// [`UNKNOWN_NAME`], path and size are taken as they are.
pub open spec fn described(
    text: Seq<char>,
    file_name: Option<Seq<char>>,
    size: Option<u64>,
) -> FileInfoView {
    FileInfoView {
        path: text,
        name: match file_name {
            Some(name) => name,
            None => UNKNOWN_NAME@,
        },
        size,
    }
}

/// What a request ends with, given what its slot was resolved with and what
/// the metadata lookup gave: nothing for a dismissed picker, the record for
/// a chosen path, a failure for a selection that names no path.
pub open spec fn completed(outcome: Option<RawSelectionView>, size: Option<u64>) -> Result<
    Option<FileInfoView>,
    Seq<char>,
> {
    match outcome {
        None => Ok(None),
        Some(RawSelectionView::Path { text, file_name }) => Ok(
            Some(described(text, file_name, size)),
        ),
        Some(RawSelectionView::NotAPath) => Err(UNUSABLE_SELECTION@),
    }
}

/// The mathematical value of what a slot was resolved with.
pub open spec fn outcome_view(outcome: Option<RawSelection>) -> Option<RawSelectionView> {
    match outcome {
        Some(selection) => Some(selection@),
        None => None,
    }
}

/// The mathematical value of what a request ends with.
pub open spec fn result_view(result: Result<Option<FileInfo>, String>) -> Result<
    Option<FileInfoView>,
    Seq<char>,
> {
    match result {
        Ok(Some(info)) => Ok(Some(info@)),
        Ok(None) => Ok(None),
        Err(message) => Err(message@),
    }
}

impl FileInfo {
    /// Builds the record for a chosen path.
    ///
    /// `size` is what the metadata lookup gave, `None` where it failed: a
    /// failed lookup leaves path and name as they are.
    pub fn describe(text: String, file_name: Option<String>, size: Option<u64>) -> (info:
        FileInfo)
        ensures
            info@ == described(text@, file_name.deep_view(), size),
    {
        let name = match file_name {
            Some(name) => name,
            None => UNKNOWN_NAME.to_owned(),
        };
        FileInfo { path: text, name, size }
    }
}

/// Ends a request whose slot was resolved with `outcome`.
///
/// `size` is what the metadata lookup on the chosen path gave; it is read
/// only where `outcome` holds a path. A dismissed picker is no failure: the
/// one failure is a selection that names no path.
pub fn complete(outcome: Option<RawSelection>, size: Option<u64>) -> (result: Result<
    Option<FileInfo>,
    String,
>)
    ensures
        result_view(result) == completed(outcome_view(outcome), size),
{
    match outcome {
        None => Ok(None),
        Some(RawSelection::Path { text, file_name }) => Ok(
            Some(FileInfo::describe(text, file_name, size)),
        ),
        Some(RawSelection::NotAPath) => Err(UNUSABLE_SELECTION.to_owned()),
    }
}

} // verus!
