//! What the library asks of the host, and what the host answers.
//!
//! The library touches neither the file system nor the network. Where a
//! decision needs one of them, it hands the host a [`Request`] and goes on
//! when it is given the [`Response`].

use vstd::prelude::*;
use vstd::string::*;
use crate::platform::{Architecture, Os};
use crate::release::{GithubRelease, GithubReleaseView};

verus! {

/// What the host shows of an installation in progress. It has no influence
/// on what the library does.
#[derive(Clone, Copy, Debug, PartialEq, Eq, Structural)]
pub enum InstallationStatus {
    CheckingForUpdate,
    Downloading,
}

/// How a downloaded file is packed.
#[derive(Clone, Copy, Debug, PartialEq, Eq, Structural)]
pub enum DownloadedFileType {
    Gzip,
    GzipTar,
    Zip,
    Uncompressed,
}

/// One item of a directory listing.
#[derive(Debug, PartialEq, Eq)]
pub enum Listed {
    /// An entry, with its path and, where it has one that is text, its name.
    Entry { path: String, name: Option<String> },
    /// An entry that could not be read.
    Unreadable { detail: String },
}

/// A [`Listed`] with its texts as sequences of characters.
pub enum ListedView {
    Entry { path: Seq<char>, name: Option<Seq<char>> },
    Unreadable { detail: Seq<char> },
}

/// An optional text as a sequence of characters.
pub open spec fn optional_text(text: Option<String>) -> Option<Seq<char>> {
    match text {
        Some(text) => Some(text@),
        None => None,
    }
}

/// What the host reports of an operation, with the reason of a failure as a
/// sequence of characters.
pub open spec fn reported<T>(result: Result<T, String>) -> Result<T, Seq<char>> {
    match result {
        Ok(value) => Ok(value),
        Err(detail) => Err(detail@),
    }
}

impl View for Listed {
    type V = ListedView;

    open spec fn view(&self) -> ListedView {
        match self {
            Listed::Entry { path, name } => ListedView::Entry {
                path: path@,
                name: optional_text(*name),
            },
            Listed::Unreadable { detail } => ListedView::Unreadable { detail: detail@ },
        }
    }
}

/// A listing as a sequence of views.
pub open spec fn listing_view(entries: Vec<Listed>) -> Seq<ListedView> {
    entries@.map_values(|entry: Listed| entry@)
}

/// Something that the host is asked to do.
#[derive(Debug, PartialEq, Eq)]
pub enum Request {
    /// Read a text file of the project, by its path from the project's root.
    ReadTextFile { path: String },
    /// Say where the project's root is.
    RootPath,
    /// Look an executable up on the search path.
    Which { binary_name: String },
    /// Ask the release index for the latest release of a repository.
    LatestGithubRelease { repo: String, require_assets: bool, pre_release: bool },
    /// Say which operating system and architecture the host runs on.
    CurrentPlatform,
    /// Show the status of the installation.
    SetInstallationStatus { status: InstallationStatus },
    /// Say whether a path of the working directory is a regular file.
    IsFile { path: String },
    /// List the working directory.
    ListWorkingDirectory,
    /// Say whether an entry of the working directory is a directory.
    IsDirectory { path: String },
    /// Remove a directory and everything below it.
    RemoveDirectory { path: String },
    /// Remove a single file.
    RemoveFile { path: String },
    /// Fetch a file and unpack it into a new directory of the working directory.
    DownloadFile { url: String, directory: String, file_type: DownloadedFileType },
}

/// A [`Request`] with its texts as sequences of characters.
pub enum RequestView {
    ReadTextFile { path: Seq<char> },
    RootPath,
    Which { binary_name: Seq<char> },
    LatestGithubRelease { repo: Seq<char>, require_assets: bool, pre_release: bool },
    CurrentPlatform,
    SetInstallationStatus { status: InstallationStatus },
    IsFile { path: Seq<char> },
    ListWorkingDirectory,
    IsDirectory { path: Seq<char> },
    RemoveDirectory { path: Seq<char> },
    RemoveFile { path: Seq<char> },
    DownloadFile { url: Seq<char>, directory: Seq<char>, file_type: DownloadedFileType },
}

impl View for Request {
    type V = RequestView;

    open spec fn view(&self) -> RequestView {
        match self {
            Request::ReadTextFile { path } => RequestView::ReadTextFile { path: path@ },
            Request::RootPath => RequestView::RootPath,
            Request::Which { binary_name } => RequestView::Which { binary_name: binary_name@ },
            Request::LatestGithubRelease { repo, require_assets, pre_release } => {
                RequestView::LatestGithubRelease {
                    repo: repo@,
                    require_assets: *require_assets,
                    pre_release: *pre_release,
                }
            },
            Request::CurrentPlatform => RequestView::CurrentPlatform,
            Request::SetInstallationStatus { status } => RequestView::SetInstallationStatus {
                status: *status,
            },
            Request::IsFile { path } => RequestView::IsFile { path: path@ },
            Request::ListWorkingDirectory => RequestView::ListWorkingDirectory,
            Request::IsDirectory { path } => RequestView::IsDirectory { path: path@ },
            Request::RemoveDirectory { path } => RequestView::RemoveDirectory { path: path@ },
            Request::RemoveFile { path } => RequestView::RemoveFile { path: path@ },
            Request::DownloadFile { url, directory, file_type } => RequestView::DownloadFile {
                url: url@,
                directory: directory@,
                file_type: *file_type,
            },
        }
    }
}

impl RequestView {
    /// Whether carrying the request out changes the working directory.
    pub open spec fn changes_files(self) -> bool {
        self is RemoveDirectory || self is RemoveFile || self is DownloadFile
    }
}

/// The host's answer to a [`Request`].
#[derive(Debug, PartialEq, Eq)]
pub enum Response {
    /// To `ReadTextFile`: the file's text, or why it could not be read.
    TextFile { contents: Result<String, String> },
    /// To `RootPath`.
    RootPath { path: String },
    /// To `Which`: where the executable is, if it is on the search path.
    Which { location: Option<String> },
    /// To `LatestGithubRelease`: the release, or why there is none.
    LatestGithubRelease { release: Result<GithubRelease, String> },
    /// To `CurrentPlatform`.
    CurrentPlatform { os: Os, architecture: Architecture },
    /// To `SetInstallationStatus`.
    StatusSet,
    /// To `IsFile`.
    IsFile { is_file: bool },
    /// To `ListWorkingDirectory`: the entries, or why they could not be listed.
    WorkingDirectory { entries: Result<Vec<Listed>, String> },
    /// To `IsDirectory`: the answer, or why the entry could not be examined.
    IsDirectory { is_directory: Result<bool, String> },
    /// To `RemoveDirectory` and to `RemoveFile`.
    Removed { result: Result<(), String> },
    /// To `DownloadFile`.
    Downloaded { result: Result<(), String> },
}

/// A [`Response`] with its texts as sequences of characters.
pub enum ResponseView {
    TextFile { contents: Result<Seq<char>, Seq<char>> },
    RootPath { path: Seq<char> },
    Which { location: Option<Seq<char>> },
    LatestGithubRelease { release: Result<GithubReleaseView, Seq<char>> },
    CurrentPlatform { os: Os, architecture: Architecture },
    StatusSet,
    IsFile { is_file: bool },
    WorkingDirectory { entries: Result<Seq<ListedView>, Seq<char>> },
    IsDirectory { is_directory: Result<bool, Seq<char>> },
    Removed { result: Result<(), Seq<char>> },
    Downloaded { result: Result<(), Seq<char>> },
}

impl View for Response {
    type V = ResponseView;

    open spec fn view(&self) -> ResponseView {
        match self {
            Response::TextFile { contents } => ResponseView::TextFile {
                contents: match contents {
                    Ok(text) => Ok(text@),
                    Err(detail) => Err(detail@),
                },
            },
            Response::RootPath { path } => ResponseView::RootPath { path: path@ },
            Response::Which { location } => ResponseView::Which {
                location: optional_text(*location),
            },
            Response::LatestGithubRelease { release } => ResponseView::LatestGithubRelease {
                release: match release {
                    Ok(release) => Ok(release@),
                    Err(detail) => Err(detail@),
                },
            },
            Response::CurrentPlatform { os, architecture } => ResponseView::CurrentPlatform {
                os: *os,
                architecture: *architecture,
            },
            Response::StatusSet => ResponseView::StatusSet,
            Response::IsFile { is_file } => ResponseView::IsFile { is_file: *is_file },
            Response::WorkingDirectory { entries } => ResponseView::WorkingDirectory {
                entries: match entries {
                    Ok(entries) => Ok(listing_view(*entries)),
                    Err(detail) => Err(detail@),
                },
            },
            Response::IsDirectory { is_directory } => ResponseView::IsDirectory {
                is_directory: reported(*is_directory),
            },
            Response::Removed { result } => ResponseView::Removed { result: reported(*result) },
            Response::Downloaded { result } => ResponseView::Downloaded {
                result: reported(*result),
            },
        }
    }
}

} // verus!
