//! Locating the executable, one request to the host at a time.
//!
//! [`Locator::start`] looks at the user's settings and either knows the
//! executable at once or hands back the first [`Request`]. From then on the
//! host carries each request out and gives the answer to [`Locator::step`],
//! until that says [`Step::Done`]. [`language_server_command`] makes the
//! command to run of what was found. What `start` and `step` do is written
//! down once more as the functions [`begin`] and [`transition`], which the
//! guarantees of this library are stated over.

use vstd::prelude::*;
use vstd::string::*;
use crate::cache::{find_next_target, next_target};
use crate::error::{FilesystemOperation, ResolveError, ResolveErrorView};
use crate::manifest::{deno_json_declares, package_json_declares, worktree_dprint_binary_exists};
use crate::platform::{
    asset_file_name, cached_binary_path, release_directory, Architecture, AutoInstallerConfig,
    AutoInstallerConfigView, InstallerConfig, InstallerConfigView, Os,
};
use crate::protocol::{
    listing_view, optional_text, DownloadedFileType, InstallationStatus, Listed, ListedView,
    Request, RequestView, Response, ResponseView,
};
use crate::release::{matching_asset, GithubRelease, GithubReleaseView};
use crate::text::{join_path, joined_path, texts};

verus! {

/// What the user's settings say of the executable. Both parts are optional.
#[derive(Debug, PartialEq, Eq)]
pub struct BinarySettings {
    /// The executable to run, in place of any that could be found.
    pub path: Option<String>,
    /// The arguments to run it with, in place of the default ones.
    pub arguments: Option<Vec<String>>,
}

/// A [`BinarySettings`] with its texts as sequences of characters.
pub struct BinarySettingsView {
    pub path: Option<Seq<char>>,
    pub arguments: Option<Seq<Seq<char>>>,
}

impl View for BinarySettings {
    type V = BinarySettingsView;

    open spec fn view(&self) -> BinarySettingsView {
        BinarySettingsView {
            path: optional_text(self.path),
            arguments: match self.arguments {
                Some(arguments) => Some(texts(arguments)),
                None => None,
            },
        }
    }
}

/// The executable to run and the arguments to run it with.
#[derive(Debug, PartialEq, Eq)]
pub struct ResolvedBinary {
    pub path: String,
    pub arguments: Vec<String>,
}

/// A [`ResolvedBinary`] with its texts as sequences of characters.
pub struct ResolvedBinaryView {
    pub path: Seq<char>,
    pub arguments: Seq<Seq<char>>,
}

impl View for ResolvedBinary {
    type V = ResolvedBinaryView;

    open spec fn view(&self) -> ResolvedBinaryView {
        ResolvedBinaryView { path: self.path@, arguments: texts(self.arguments) }
    }
}

/// How the host starts the language server: the program, its arguments, and
/// the variables that its environment gets on top of the host's.
#[derive(Debug, PartialEq, Eq)]
pub struct Command {
    pub command: String,
    pub args: Vec<String>,
    pub env: Vec<(String, String)>,
}

/// A [`Command`] with its texts as sequences of characters.
pub struct CommandView {
    pub command: Seq<char>,
    pub args: Seq<Seq<char>>,
    pub env: Seq<(Seq<char>, Seq<char>)>,
}

impl View for Command {
    type V = CommandView;

    open spec fn view(&self) -> CommandView {
        CommandView {
            command: self.command@,
            args: texts(self.args),
            env: self.env@.map_values(|variable: (String, String)| (variable.0@, variable.1@)),
        }
    }
}

/// An installation of the latest release on the host's platform.
#[derive(Debug, PartialEq, Eq)]
pub struct AutoInstaller {
    pub latest_release: GithubRelease,
    pub os: Os,
    pub architecture: Architecture,
    /// Where the release's executable is once the release is installed.
    pub binary_path: String,
}

/// An [`AutoInstaller`] with its texts as sequences of characters.
pub struct AutoInstallerView {
    pub latest_release: GithubReleaseView,
    pub os: Os,
    pub architecture: Architecture,
    pub binary_path: Seq<char>,
}

impl View for AutoInstaller {
    type V = AutoInstallerView;

    open spec fn view(&self) -> AutoInstallerView {
        AutoInstallerView {
            latest_release: self.latest_release@,
            os: self.os,
            architecture: self.architecture,
            binary_path: self.binary_path@,
        }
    }
}

/// Which answer a [`Locator`] is waiting for, with what it has learnt so far.
#[derive(Debug, PartialEq, Eq)]
pub enum Phase {
    /// The text of `package.json`.
    PackageManifest,
    /// The text of `deno.json`.
    DenoManifest { package_json: Result<String, String> },
    /// The project's root.
    WorktreeRoot,
    /// The executable's place on the search path.
    SearchPath,
    /// The latest release.
    LatestRelease,
    /// The host's platform.
    Platform { release: GithubRelease },
    /// That the status "checking for update" is shown.
    CheckingForUpdate { installer: AutoInstaller },
    /// Whether the latest release is installed.
    InstalledCheck { installer: AutoInstaller },
    /// The listing of the working directory.
    Listing { installer: AutoInstaller },
    /// Whether the entry at `path` is a directory. The listing's items before
    /// `next` are dealt with.
    Metadata { installer: AutoInstaller, entries: Vec<Listed>, path: String, next: usize },
    /// That the entry at `path` is removed.
    Removal {
        installer: AutoInstaller,
        entries: Vec<Listed>,
        path: String,
        next: usize,
        directory: bool,
    },
    /// That the status "downloading" is shown.
    Downloading { installer: AutoInstaller, url: String },
    /// That the release is downloaded and unpacked.
    Download { installer: AutoInstaller },
}

/// A [`Phase`] with its texts as sequences of characters.
pub enum PhaseView {
    PackageManifest,
    DenoManifest { package_json: Result<Seq<char>, Seq<char>> },
    WorktreeRoot,
    SearchPath,
    LatestRelease,
    Platform { release: GithubReleaseView },
    CheckingForUpdate { installer: AutoInstallerView },
    InstalledCheck { installer: AutoInstallerView },
    Listing { installer: AutoInstallerView },
    Metadata { installer: AutoInstallerView, entries: Seq<ListedView>, path: Seq<char>, next: int },
    Removal {
        installer: AutoInstallerView,
        entries: Seq<ListedView>,
        path: Seq<char>,
        next: int,
        directory: bool,
    },
    Downloading { installer: AutoInstallerView, url: Seq<char> },
    Download { installer: AutoInstallerView },
}

impl View for Phase {
    type V = PhaseView;

    open spec fn view(&self) -> PhaseView {
        match self {
            Phase::PackageManifest => PhaseView::PackageManifest,
            Phase::DenoManifest { package_json } => PhaseView::DenoManifest {
                package_json: match package_json {
                    Ok(text) => Ok(text@),
                    Err(detail) => Err(detail@),
                },
            },
            Phase::WorktreeRoot => PhaseView::WorktreeRoot,
            Phase::SearchPath => PhaseView::SearchPath,
            Phase::LatestRelease => PhaseView::LatestRelease,
            Phase::Platform { release } => PhaseView::Platform { release: release@ },
            Phase::CheckingForUpdate { installer } => PhaseView::CheckingForUpdate {
                installer: installer@,
            },
            Phase::InstalledCheck { installer } => PhaseView::InstalledCheck {
                installer: installer@,
            },
            Phase::Listing { installer } => PhaseView::Listing { installer: installer@ },
            Phase::Metadata { installer, entries, path, next } => PhaseView::Metadata {
                installer: installer@,
                entries: listing_view(*entries),
                path: path@,
                next: *next as int,
            },
            Phase::Removal { installer, entries, path, next, directory } => PhaseView::Removal {
                installer: installer@,
                entries: listing_view(*entries),
                path: path@,
                next: *next as int,
                directory: *directory,
            },
            Phase::Downloading { installer, url } => PhaseView::Downloading {
                installer: installer@,
                url: url@,
            },
            Phase::Download { installer } => PhaseView::Download { installer: installer@ },
        }
    }
}

/// A search for the executable that is waiting for the host's answer.
#[derive(Debug, PartialEq, Eq)]
pub struct Locator {
    pub config: InstallerConfig,
    /// The arguments that the executable will be run with.
    pub arguments: Vec<String>,
    pub phase: Phase,
}

/// A [`Locator`] with its texts as sequences of characters.
pub struct LocatorView {
    pub config: InstallerConfigView,
    pub arguments: Seq<Seq<char>>,
    pub phase: PhaseView,
}

impl View for Locator {
    type V = LocatorView;

    open spec fn view(&self) -> LocatorView {
        LocatorView { config: self.config@, arguments: texts(self.arguments), phase: self.phase@ }
    }
}

/// How far a search has come.
#[derive(Debug, PartialEq, Eq)]
pub enum Step {
    /// The host is to carry `request` out and to give the answer to `session`.
    Ask { request: Request, session: Locator },
    /// The search is over.
    Done { outcome: Result<ResolvedBinary, ResolveError> },
}

/// A [`Step`] with its texts as sequences of characters.
pub enum StepView {
    Ask { request: RequestView, session: LocatorView },
    Done { outcome: Result<ResolvedBinaryView, ResolveErrorView> },
}

impl View for Step {
    type V = StepView;

    open spec fn view(&self) -> StepView {
        match self {
            Step::Ask { request, session } => StepView::Ask {
                request: request@,
                session: session@,
            },
            Step::Done { outcome } => StepView::Done {
                outcome: match outcome {
                    Ok(binary) => Ok(binary@),
                    Err(error) => Err(error@),
                },
            },
        }
    }
}

} // verus!

verus! {

/// The arguments to run the executable with: the configured ones, or else
/// the one argument that starts the language server.
pub open spec fn invocation_arguments(configured: Option<Seq<Seq<char>>>) -> Seq<Seq<char>> {
    match configured {
        Some(arguments) => arguments,
        None => seq!["lsp"@],
    }
}

/// The step that asks for `request` and goes on in `phase`.
pub open spec fn ask(
    request: RequestView,
    config: InstallerConfigView,
    arguments: Seq<Seq<char>>,
    phase: PhaseView,
) -> StepView {
    StepView::Ask { request, session: LocatorView { config, arguments, phase } }
}

/// The step that ends the search with the executable at `path`.
pub open spec fn found(path: Seq<char>, arguments: Seq<Seq<char>>) -> StepView {
    StepView::Done { outcome: Ok(ResolvedBinaryView { path, arguments }) }
}

/// The step that ends the search with an error.
pub open spec fn failed(error: ResolveErrorView) -> StepView {
    StepView::Done { outcome: Err(error) }
}

/// A failure to empty the release cache.
pub open spec fn filesystem_failure(
    operation: FilesystemOperation,
    path: Seq<char>,
    detail: Seq<char>,
) -> StepView {
    failed(ResolveErrorView::FilesystemFailure { operation, path, detail })
}

/// How a search starts. A configured path is the executable, whatever else
/// there is. Without one the project's manifests are read first.
pub open spec fn begin(config: InstallerConfigView, settings: BinarySettingsView) -> StepView {
    let arguments = invocation_arguments(settings.arguments);
    match settings.path {
        Some(path) => found(path, arguments),
        None => ask(
            RequestView::ReadTextFile { path: "package.json"@ },
            config,
            arguments,
            PhaseView::PackageManifest,
        ),
    }
}

/// The installation of `release` on a platform.
pub open spec fn installer_for(
    config: AutoInstallerConfigView,
    release: GithubReleaseView,
    os: Os,
    architecture: Architecture,
) -> AutoInstallerView {
    AutoInstallerView {
        latest_release: release,
        os,
        architecture,
        binary_path: cached_binary_path(config.release_folder_prefix, release.version, os),
    }
}

/// What happens once it is known whether the latest release is installed.
/// An installed release is used as it is. Otherwise the release cache is
/// emptied first, which starts with listing the working directory.
pub open spec fn installed_or_list(
    config: InstallerConfigView,
    arguments: Seq<Seq<char>>,
    installer: AutoInstallerView,
    is_installed: bool,
) -> StepView {
    if is_installed {
        found(installer.binary_path, arguments)
    } else {
        ask(RequestView::ListWorkingDirectory, config, arguments, PhaseView::Listing { installer })
    }
}

/// What happens once the release cache is empty. The platform's archive is
/// looked up by its exact name among the release's assets. Only when there is
/// one is the status "downloading" shown, and the download follows.
pub open spec fn download(
    config: InstallerConfigView,
    arguments: Seq<Seq<char>>,
    installer: AutoInstallerView,
) -> StepView {
    match asset_file_name(installer.architecture, installer.os) {
        None => failed(ResolveErrorView::UnsupportedArchitecture),
        Some(asset_name) => match matching_asset(installer.latest_release.assets, asset_name) {
            None => failed(ResolveErrorView::AssetNotFound { asset_name }),
            Some(asset) => ask(
                RequestView::SetInstallationStatus { status: InstallationStatus::Downloading },
                config,
                arguments,
                PhaseView::Downloading { installer, url: asset.download_url },
            ),
        },
    }
}

/// Emptying the release cache, from the item `from` of the listing on. The
/// items are taken in the listing's order. One that could not be read ends
/// the search. One whose name begins with the release prefix is examined and
/// then removed. The others are passed over. After the last one the download
/// is prepared.
pub open spec fn purge(
    config: InstallerConfigView,
    arguments: Seq<Seq<char>>,
    installer: AutoInstallerView,
    entries: Seq<ListedView>,
    from: int,
) -> StepView {
    let index = next_target(entries, from, config.auto_installer.release_folder_prefix);
    if index >= entries.len() {
        download(config, arguments, installer)
    } else {
        match entries[index] {
            ListedView::Unreadable { detail } => filesystem_failure(
                FilesystemOperation::ReadEntry,
                "."@,
                detail,
            ),
            ListedView::Entry { path, .. } => ask(
                RequestView::IsDirectory { path },
                config,
                arguments,
                PhaseView::Metadata { installer, entries, path, next: index + 1 },
            ),
        }
    }
}

/// What a search does with the host's answer. An answer to another request
/// than the pending one ends the search with
/// [`ResolveError::UnexpectedResponse`].
pub open spec fn transition(session: LocatorView, response: ResponseView) -> StepView {
    let config = session.config;
    let arguments = session.arguments;
    match (session.phase, response) {
        (PhaseView::PackageManifest, ResponseView::TextFile { contents }) => ask(
            RequestView::ReadTextFile { path: "deno.json"@ },
            config,
            arguments,
            PhaseView::DenoManifest { package_json: contents },
        ),
        (PhaseView::DenoManifest { package_json }, ResponseView::TextFile { contents }) => {
            if package_json_declares(package_json, config.worktree.node_package_name)
                || deno_json_declares(contents, config.worktree.node_package_name) {
                ask(RequestView::RootPath, config, arguments, PhaseView::WorktreeRoot)
            } else {
                ask(
                    RequestView::Which { binary_name: config.worktree.binary_basename },
                    config,
                    arguments,
                    PhaseView::SearchPath,
                )
            }
        },
        (PhaseView::WorktreeRoot, ResponseView::RootPath { path }) => found(
            joined_path(path, config.worktree.worktree_binary_path),
            arguments,
        ),
        (PhaseView::SearchPath, ResponseView::Which { location: Some(path) }) => found(
            path,
            arguments,
        ),
        (PhaseView::SearchPath, ResponseView::Which { location: None }) => ask(
            RequestView::LatestGithubRelease {
                repo: config.auto_installer.github_repo,
                require_assets: true,
                pre_release: false,
            },
            config,
            arguments,
            PhaseView::LatestRelease,
        ),
        (PhaseView::LatestRelease, ResponseView::LatestGithubRelease { release: Err(detail) }) => {
            failed(ResolveErrorView::NetworkOrIndexFailure { detail })
        },
        (PhaseView::LatestRelease, ResponseView::LatestGithubRelease { release: Ok(release) }) => {
            ask(RequestView::CurrentPlatform, config, arguments, PhaseView::Platform { release })
        },
        (PhaseView::Platform { release }, ResponseView::CurrentPlatform { os, architecture }) => {
            ask(
                RequestView::SetInstallationStatus {
                    status: InstallationStatus::CheckingForUpdate,
                },
                config,
                arguments,
                PhaseView::CheckingForUpdate {
                    installer: installer_for(config.auto_installer, release, os, architecture),
                },
            )
        },
        (PhaseView::CheckingForUpdate { installer }, ResponseView::StatusSet) => ask(
            RequestView::IsFile { path: installer.binary_path },
            config,
            arguments,
            PhaseView::InstalledCheck { installer },
        ),
        (PhaseView::InstalledCheck { installer }, ResponseView::IsFile { is_file }) => {
            installed_or_list(config, arguments, installer, is_file)
        },
        (
            PhaseView::Listing { installer },
            ResponseView::WorkingDirectory { entries: Err(detail) },
        ) => filesystem_failure(FilesystemOperation::ListDirectory, "."@, detail),
        (
            PhaseView::Listing { installer },
            ResponseView::WorkingDirectory { entries: Ok(entries) },
        ) => purge(config, arguments, installer, entries, 0),
        (
            PhaseView::Metadata { installer, entries, path, next },
            ResponseView::IsDirectory { is_directory: Err(detail) },
        ) => filesystem_failure(FilesystemOperation::Stat, path, detail),
        (
            PhaseView::Metadata { installer, entries, path, next },
            ResponseView::IsDirectory { is_directory: Ok(directory) },
        ) => ask(
            if directory {
                RequestView::RemoveDirectory { path }
            } else {
                RequestView::RemoveFile { path }
            },
            config,
            arguments,
            PhaseView::Removal { installer, entries, path, next, directory },
        ),
        (
            PhaseView::Removal { installer, entries, path, next, directory },
            ResponseView::Removed { result: Err(detail) },
        ) => filesystem_failure(
            if directory {
                FilesystemOperation::RemoveDirectory
            } else {
                FilesystemOperation::RemoveFile
            },
            path,
            detail,
        ),
        (
            PhaseView::Removal { installer, entries, path, next, directory },
            ResponseView::Removed { result: Ok(_) },
        ) => purge(config, arguments, installer, entries, next),
        (PhaseView::Downloading { installer, url }, ResponseView::StatusSet) => ask(
            RequestView::DownloadFile {
                url,
                directory: release_directory(
                    config.auto_installer.release_folder_prefix,
                    installer.latest_release.version,
                ),
                file_type: DownloadedFileType::Zip,
            },
            config,
            arguments,
            PhaseView::Download { installer },
        ),
        (PhaseView::Download { installer }, ResponseView::Downloaded { result: Err(detail) }) => {
            failed(ResolveErrorView::DownloadFailure { detail })
        },
        (PhaseView::Download { installer }, ResponseView::Downloaded { result: Ok(_) }) => found(
            installer.binary_path,
            arguments,
        ),
        _ => failed(ResolveErrorView::UnexpectedResponse),
    }
}

} // verus!

verus! {

/// The arguments to run the executable with: the configured ones, or else
/// the one argument `lsp`.
pub fn language_server_arguments(configured: Option<Vec<String>>) -> (r: Vec<String>)
    ensures
        texts(r) == invocation_arguments(
            match configured {
                Some(arguments) => Some(texts(arguments)),
                None => None,
            },
        ),
{
    match configured {
        Some(arguments) => arguments,
        None => {
            let mut arguments: Vec<String> = Vec::new();
            arguments.push(String::from_str("lsp"));
            assert(texts(arguments) =~= seq!["lsp"@]);
            arguments
        },
    }
}

/// The command that runs a located executable. It adds nothing to the
/// environment.
pub fn language_server_command(binary: ResolvedBinary) -> (r: Command)
    ensures
        r@ == (CommandView {
            command: binary@.path,
            args: binary@.arguments,
            env: Seq::empty(),
        }),
{
    let ResolvedBinary { path, arguments } = binary;
    let r = Command { command: path, args: arguments, env: Vec::new() };
    assert(r@.env =~= Seq::empty());
    r
}

fn unexpected() -> (r: Step)
    ensures
        r@ == failed(ResolveErrorView::UnexpectedResponse),
{
    Step::Done { outcome: Err(ResolveError::UnexpectedResponse) }
}

fn fail_at(operation: FilesystemOperation, path: String, detail: String) -> (r: Step)
    ensures
        r@ == filesystem_failure(operation, path@, detail@),
{
    Step::Done { outcome: Err(ResolveError::FilesystemFailure { operation, path, detail }) }
}

impl AutoInstaller {
    /// The installation of `latest_release` on a platform.
    pub fn new(
        config: &AutoInstallerConfig,
        latest_release: GithubRelease,
        os: Os,
        architecture: Architecture,
    ) -> (r: AutoInstaller)
        ensures
            r@ == installer_for(config@, latest_release@, os, architecture),
    {
        let binary_path = config.binary_path(latest_release.version.as_str(), os);
        AutoInstaller { latest_release, os, architecture, binary_path }
    }
}

/// Ends a search with the executable at `path`.
pub fn resolved(path: String, arguments: Vec<String>) -> (r: Step)
    ensures
        r@ == found(path@, texts(arguments)),
{
    Step::Done { outcome: Ok(ResolvedBinary { path, arguments }) }
}

/// Goes on once it is known whether the latest release is installed: an
/// installed release is used as it is, and otherwise the working directory is
/// listed.
pub fn ensure_installed(
    config: InstallerConfig,
    arguments: Vec<String>,
    installer: AutoInstaller,
    is_installed: bool,
) -> (r: Step)
    ensures
        r@ == installed_or_list(config@, texts(arguments), installer@, is_installed),
{
    if is_installed {
        resolved(installer.binary_path, arguments)
    } else {
        Step::Ask {
            request: Request::ListWorkingDirectory,
            session: Locator { config, arguments, phase: Phase::Listing { installer } },
        }
    }
}

/// Goes on once the release cache is empty: finds the platform's archive
/// among the assets of the release, and asks for the status "downloading"
/// where there is one.
pub fn download_new_release(
    config: InstallerConfig,
    arguments: Vec<String>,
    installer: AutoInstaller,
) -> (r: Step)
    ensures
        r@ == download(config@, texts(arguments), installer@),
{
    let asset_name = match config.auto_installer.asset_name(installer.architecture, installer.os) {
        Ok(asset_name) => asset_name,
        Err(error) => {
            return Step::Done { outcome: Err(error) };
        },
    };
    let url = match installer.latest_release.find_asset(&asset_name) {
        Some(asset) => Some(asset.download_url.clone()),
        None => None,
    };
    match url {
        Some(url) => Step::Ask {
            request: Request::SetInstallationStatus { status: InstallationStatus::Downloading },
            session: Locator { config, arguments, phase: Phase::Downloading { installer, url } },
        },
        None => Step::Done { outcome: Err(ResolveError::AssetNotFound { asset_name }) },
    }
}

/// Goes on emptying the release cache, from the item `from` of the listing.
pub fn remove_old_releases(
    config: InstallerConfig,
    arguments: Vec<String>,
    installer: AutoInstaller,
    entries: Vec<Listed>,
    from: usize,
) -> (r: Step)
    ensures
        r@ == purge(config@, texts(arguments), installer@, listing_view(entries), from as int),
{
    let index = find_next_target(&entries, from, config.auto_installer.release_folder_prefix);
    if index >= entries.len() {
        return download_new_release(config, arguments, installer);
    }
    let target = match &entries[index] {
        Listed::Entry { path, .. } => Ok(path.clone()),
        Listed::Unreadable { detail } => Err(detail.clone()),
    };
    match target {
        Ok(path) => Step::Ask {
            request: Request::IsDirectory { path: path.clone() },
            session: Locator {
                config,
                arguments,
                phase: Phase::Metadata { installer, entries, path, next: index + 1 },
            },
        },
        Err(detail) => fail_at(FilesystemOperation::ReadEntry, String::from_str("."), detail),
    }
}

impl Locator {
    /// Starts a search. A configured path ends it at once.
    pub fn start(config: InstallerConfig, settings: BinarySettings) -> (r: Step)
        ensures
            r@ == begin(config@, settings@),
    {
        let BinarySettings { path, arguments } = settings;
        let arguments = language_server_arguments(arguments);
        match path {
            Some(path) => resolved(path, arguments),
            None => Step::Ask {
                request: Request::ReadTextFile { path: String::from_str("package.json") },
                session: Locator { config, arguments, phase: Phase::PackageManifest },
            },
        }
    }

    /// Goes on with the host's answer to the pending request.
    pub fn step(self, response: Response) -> (r: Step)
        ensures
            r@ == transition(self@, response@),
    {
        let Locator { config, arguments, phase } = self;
        match phase {
            Phase::PackageManifest => match response {
                Response::TextFile { contents } => Step::Ask {
                    request: Request::ReadTextFile { path: String::from_str("deno.json") },
                    session: Locator {
                        config,
                        arguments,
                        phase: Phase::DenoManifest { package_json: contents },
                    },
                },
                _ => unexpected(),
            },
            Phase::DenoManifest { package_json } => match response {
                Response::TextFile { contents } => {
                    if worktree_dprint_binary_exists(
                        &package_json,
                        &contents,
                        config.worktree.node_package_name,
                    ) {
                        Step::Ask {
                            request: Request::RootPath,
                            session: Locator { config, arguments, phase: Phase::WorktreeRoot },
                        }
                    } else {
                        Step::Ask {
                            request: Request::Which {
                                binary_name: String::from_str(config.worktree.binary_basename),
                            },
                            session: Locator { config, arguments, phase: Phase::SearchPath },
                        }
                    }
                },
                _ => unexpected(),
            },
            Phase::WorktreeRoot => match response {
                Response::RootPath { path } => {
                    let joined = join_path(path.as_str(), config.worktree.worktree_binary_path);
                    resolved(joined, arguments)
                },
                _ => unexpected(),
            },
            Phase::SearchPath => match response {
                Response::Which { location } => match location {
                    Some(path) => resolved(path, arguments),
                    None => Step::Ask {
                        request: Request::LatestGithubRelease {
                            repo: String::from_str(config.auto_installer.github_repo),
                            require_assets: true,
                            pre_release: false,
                        },
                        session: Locator { config, arguments, phase: Phase::LatestRelease },
                    },
                },
                _ => unexpected(),
            },
            Phase::LatestRelease => match response {
                Response::LatestGithubRelease { release } => match release {
                    Ok(release) => Step::Ask {
                        request: Request::CurrentPlatform,
                        session: Locator { config, arguments, phase: Phase::Platform { release } },
                    },
                    Err(detail) => Step::Done {
                        outcome: Err(ResolveError::NetworkOrIndexFailure { detail }),
                    },
                },
                _ => unexpected(),
            },
            Phase::Platform { release } => match response {
                Response::CurrentPlatform { os, architecture } => {
                    let installer = AutoInstaller::new(
                        &config.auto_installer,
                        release,
                        os,
                        architecture,
                    );
                    Step::Ask {
                        request: Request::SetInstallationStatus {
                            status: InstallationStatus::CheckingForUpdate,
                        },
                        session: Locator {
                            config,
                            arguments,
                            phase: Phase::CheckingForUpdate { installer },
                        },
                    }
                },
                _ => unexpected(),
            },
            Phase::CheckingForUpdate { installer } => match response {
                Response::StatusSet => Step::Ask {
                    request: Request::IsFile { path: installer.binary_path.clone() },
                    session: Locator {
                        config,
                        arguments,
                        phase: Phase::InstalledCheck { installer },
                    },
                },
                _ => unexpected(),
            },
            Phase::InstalledCheck { installer } => match response {
                Response::IsFile { is_file } => ensure_installed(
                    config,
                    arguments,
                    installer,
                    is_file,
                ),
                _ => unexpected(),
            },
            Phase::Listing { installer } => match response {
                Response::WorkingDirectory { entries } => match entries {
                    Ok(entries) => remove_old_releases(config, arguments, installer, entries, 0),
                    Err(detail) => fail_at(
                        FilesystemOperation::ListDirectory,
                        String::from_str("."),
                        detail,
                    ),
                },
                _ => unexpected(),
            },
            Phase::Metadata { installer, entries, path, next } => match response {
                Response::IsDirectory { is_directory } => match is_directory {
                    Ok(directory) => Step::Ask {
                        request: if directory {
                            Request::RemoveDirectory { path: path.clone() }
                        } else {
                            Request::RemoveFile { path: path.clone() }
                        },
                        session: Locator {
                            config,
                            arguments,
                            phase: Phase::Removal { installer, entries, path, next, directory },
                        },
                    },
                    Err(detail) => fail_at(FilesystemOperation::Stat, path, detail),
                },
                _ => unexpected(),
            },
            Phase::Removal { installer, entries, path, next, directory } => match response {
                Response::Removed { result } => match result {
                    Ok(_) => remove_old_releases(config, arguments, installer, entries, next),
                    Err(detail) => fail_at(
                        if directory {
                            FilesystemOperation::RemoveDirectory
                        } else {
                            FilesystemOperation::RemoveFile
                        },
                        path,
                        detail,
                    ),
                },
                _ => unexpected(),
            },
            Phase::Downloading { installer, url } => match response {
                Response::StatusSet => {
                    let directory = config.auto_installer.release_folder(
                        installer.latest_release.version.as_str(),
                    );
                    Step::Ask {
                        request: Request::DownloadFile {
                            url,
                            directory,
                            file_type: DownloadedFileType::Zip,
                        },
                        session: Locator {
                            config,
                            arguments,
                            phase: Phase::Download { installer },
                        },
                    }
                },
                _ => unexpected(),
            },
            Phase::Download { installer } => match response {
                Response::Downloaded { result } => match result {
                    Ok(_) => resolved(installer.binary_path, arguments),
                    Err(detail) => Step::Done {
                        outcome: Err(ResolveError::DownloadFailure { detail }),
                    },
                },
                _ => unexpected(),
            },
        }
    }
}

} // verus!
