//! The ways in which locating the executable can fail.

use vstd::prelude::*;
use vstd::string::*;
use crate::text::{
    concatenate, debug_quote, debug_quote_path, debug_quoted, debug_quoted_path,
};

verus! {

/// The step of emptying the release cache that failed.
#[derive(Clone, Copy, Debug, PartialEq, Eq, Structural)]
pub enum FilesystemOperation {
    /// Listing the working directory.
    ListDirectory,
    /// Reading one entry of the listing.
    ReadEntry,
    /// Asking whether an entry is a directory.
    Stat,
    /// Removing a directory and everything below it.
    RemoveDirectory,
    /// Removing a single file.
    RemoveFile,
}

/// Why no executable could be located. Only the release cache, the last
/// place that is looked at, can fail.
#[derive(Debug, PartialEq, Eq)]
pub enum ResolveError {
    /// No release archive exists for 32-bit x86. Trying again cannot help.
    UnsupportedArchitecture,
    /// The release index could not name the latest release.
    NetworkOrIndexFailure { detail: String },
    /// The latest release holds no archive of the name that this platform needs.
    AssetNotFound { asset_name: String },
    /// The archive could not be fetched or unpacked.
    DownloadFailure { detail: String },
    /// Emptying the release cache failed at `path`.
    FilesystemFailure { operation: FilesystemOperation, path: String, detail: String },
    /// The host answered a request other than the one that was pending.
    UnexpectedResponse,
}

/// A [`ResolveError`] with its texts as sequences of characters.
pub enum ResolveErrorView {
    UnsupportedArchitecture,
    NetworkOrIndexFailure { detail: Seq<char> },
    AssetNotFound { asset_name: Seq<char> },
    DownloadFailure { detail: Seq<char> },
    FilesystemFailure { operation: FilesystemOperation, path: Seq<char>, detail: Seq<char> },
    UnexpectedResponse,
}

impl View for ResolveError {
    type V = ResolveErrorView;

    open spec fn view(&self) -> ResolveErrorView {
        match self {
            ResolveError::UnsupportedArchitecture => ResolveErrorView::UnsupportedArchitecture,
            ResolveError::NetworkOrIndexFailure { detail } => {
                ResolveErrorView::NetworkOrIndexFailure { detail: detail@ }
            },
            ResolveError::AssetNotFound { asset_name } => ResolveErrorView::AssetNotFound {
                asset_name: asset_name@,
            },
            ResolveError::DownloadFailure { detail } => ResolveErrorView::DownloadFailure {
                detail: detail@,
            },
            ResolveError::FilesystemFailure { operation, path, detail } => {
                ResolveErrorView::FilesystemFailure {
                    operation: *operation,
                    path: path@,
                    detail: detail@,
                }
            },
            ResolveError::UnexpectedResponse => ResolveErrorView::UnexpectedResponse,
        }
    }
}

/// What the user is told where no release archive exists for the platform.
pub const UNSUPPORTED_ARCHITECTURE: &'static str =
    "Unsupported architecture: x86. Consider manually installing dprint on your machine or worktree instead.";

/// What the user is told where the host did not keep to the pending request.
pub const UNEXPECTED_RESPONSE: &'static str = "The host answered a request that was not pending.";

/// How a failed step of emptying the cache is introduced in a message.
pub open spec fn operation_phrase(operation: FilesystemOperation) -> Seq<char> {
    match operation {
        FilesystemOperation::ListDirectory => "Failed to list working directory."@,
        FilesystemOperation::ReadEntry => "Failed to load directory entry."@,
        FilesystemOperation::Stat => "Failed to stat "@,
        FilesystemOperation::RemoveDirectory => "Failed to remove directory "@,
        FilesystemOperation::RemoveFile => "Failed to remove file "@,
    }
}

/// Whether the message of a failed step names the path it failed at.
pub open spec fn operation_names_path(operation: FilesystemOperation) -> bool {
    operation != FilesystemOperation::ListDirectory && operation != FilesystemOperation::ReadEntry
}

/// The message that the user is shown for an error.
pub open spec fn message_of(error: ResolveErrorView) -> Seq<char> {
    match error {
        ResolveErrorView::UnsupportedArchitecture => UNSUPPORTED_ARCHITECTURE@,
        ResolveErrorView::NetworkOrIndexFailure { detail } => detail,
        ResolveErrorView::AssetNotFound { asset_name } => {
            "No compatible asset found for "@ + debug_quoted(asset_name) + "."@
        },
        ResolveErrorView::DownloadFailure { detail } => detail,
        ResolveErrorView::FilesystemFailure { operation, path, detail } => {
            if operation_names_path(operation) {
                operation_phrase(operation) + debug_quoted_path(path) + "."@ + detail
            } else {
                operation_phrase(operation) + detail
            }
        },
        ResolveErrorView::UnexpectedResponse => UNEXPECTED_RESPONSE@,
    }
}

fn phrase(operation: FilesystemOperation) -> (r: &'static str)
    ensures
        r@ == operation_phrase(operation),
{
    match operation {
        FilesystemOperation::ListDirectory => "Failed to list working directory.",
        FilesystemOperation::ReadEntry => "Failed to load directory entry.",
        FilesystemOperation::Stat => "Failed to stat ",
        FilesystemOperation::RemoveDirectory => "Failed to remove directory ",
        FilesystemOperation::RemoveFile => "Failed to remove file ",
    }
}

/// The message for an archive that the release does not hold, given its
/// name as it is to be shown.
pub fn missing_asset_message(shown_name: &str) -> (r: String)
    ensures
        r@ == "No compatible asset found for "@ + shown_name@ + "."@,
{
    let mut r = concatenate("No compatible asset found for ", shown_name);
    r.append(".");
    r
}

/// The message for a failed step of emptying the cache, given the path as it
/// is to be shown and what the host said of the failure.
pub fn filesystem_message(
    operation: FilesystemOperation,
    shown_path: &str,
    detail: &str,
) -> (r: String)
    ensures
        r@ == (if operation_names_path(operation) {
            operation_phrase(operation) + shown_path@ + "."@ + detail@
        } else {
            operation_phrase(operation) + detail@
        }),
{
    let mut r = String::from_str(phrase(operation));
    match operation {
        FilesystemOperation::ListDirectory | FilesystemOperation::ReadEntry => {},
        _ => {
            r.append(shown_path);
            r.append(".");
        },
    }
    r.append(detail);
    r
}

impl ResolveError {
    /// The message that the user is shown for this error. Errors of the host
    /// are passed on in the host's own words, and names and paths are shown
    /// as `{:?}` prints them.
    pub fn message(&self) -> (r: String)
        ensures
            r@ == message_of(self@),
    {
        match self {
            ResolveError::UnsupportedArchitecture => String::from_str(UNSUPPORTED_ARCHITECTURE),
            ResolveError::NetworkOrIndexFailure { detail } => detail.clone(),
            ResolveError::AssetNotFound { asset_name } => {
                let shown = debug_quote(asset_name.as_str());
                missing_asset_message(shown.as_str())
            },
            ResolveError::DownloadFailure { detail } => detail.clone(),
            ResolveError::FilesystemFailure { operation, path, detail } => {
                let shown = debug_quote_path(path.as_str());
                filesystem_message(*operation, shown.as_str(), detail.as_str())
            },
            ResolveError::UnexpectedResponse => String::from_str(UNEXPECTED_RESPONSE),
        }
    }
}

} // verus!
