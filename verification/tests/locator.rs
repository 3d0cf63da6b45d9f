use dprint_locator::error::{FilesystemOperation, ResolveError};
use dprint_locator::locator::{
    download_new_release, ensure_installed, language_server_arguments, language_server_command,
    remove_old_releases, resolved, AutoInstaller, BinarySettings, Command, Locator, Phase,
    ResolvedBinary, Step,
};
use dprint_locator::platform::{Architecture, InstallerConfig, Os};
use dprint_locator::protocol::{
    DownloadedFileType, InstallationStatus, Listed, Request, Response,
};
use dprint_locator::release::{GithubRelease, GithubReleaseAsset};

type Outcome = Result<ResolvedBinary, ResolveError>;

/// Runs a search against a host that gives `answers` in turn. Returns what
/// was asked and, where the search ended, how.
fn run(settings: BinarySettings, answers: Vec<Response>) -> (Vec<Request>, Option<Outcome>) {
    let mut asked = Vec::new();
    let mut answers = answers.into_iter();
    let mut step = Locator::start(InstallerConfig::dprint(), settings);
    loop {
        match step {
            Step::Done { outcome } => {
                assert!(answers.next().is_none(), "the search ended before the answers did");
                return (asked, Some(outcome));
            }
            Step::Ask { request, session } => {
                asked.push(request);
                match answers.next() {
                    Some(answer) => step = session.step(answer),
                    None => return (asked, None),
                }
            }
        }
    }
}

fn no_settings() -> BinarySettings {
    BinarySettings { path: None, arguments: None }
}

fn lsp() -> Vec<String> {
    vec!["lsp".to_string()]
}

fn at(path: &str) -> Option<Outcome> {
    Some(Ok(ResolvedBinary { path: path.to_string(), arguments: lsp() }))
}

fn no_file() -> Response {
    Response::TextFile { contents: Err("no such file".to_string()) }
}

fn file(text: &str) -> Response {
    Response::TextFile { contents: Ok(text.to_string()) }
}

fn read(path: &str) -> Request {
    Request::ReadTextFile { path: path.to_string() }
}

fn which() -> Request {
    Request::Which { binary_name: "dprint".to_string() }
}

fn latest_release() -> Request {
    Request::LatestGithubRelease {
        repo: "dprint/dprint".to_string(),
        require_assets: true,
        pre_release: false,
    }
}

fn status(status: InstallationStatus) -> Request {
    Request::SetInstallationStatus { status }
}

fn is_file(path: &str) -> Request {
    Request::IsFile { path: path.to_string() }
}

fn is_directory(path: &str) -> Request {
    Request::IsDirectory { path: path.to_string() }
}

fn remove_directory(path: &str) -> Request {
    Request::RemoveDirectory { path: path.to_string() }
}

fn remove_file(path: &str) -> Request {
    Request::RemoveFile { path: path.to_string() }
}

fn asset(name: &str) -> GithubReleaseAsset {
    GithubReleaseAsset {
        name: name.to_string(),
        download_url: format!("https://example.test/download/{}", name),
    }
}

fn release(version: &str, assets: Vec<GithubReleaseAsset>) -> Response {
    Response::LatestGithubRelease {
        release: Ok(GithubRelease { version: version.to_string(), assets }),
    }
}

fn all_assets() -> Vec<GithubReleaseAsset> {
    vec![
        asset("dprint-aarch64-apple-darwin.zip"),
        asset("dprint-x86_64-apple-darwin.zip"),
        asset("dprint-x86_64-pc-windows-msvc.zip"),
        asset("dprint-aarch64-unknown-linux-gnu.zip"),
        asset("dprint-x86_64-unknown-linux-gnu.zip"),
    ]
}

fn platform(os: Os, architecture: Architecture) -> Response {
    Response::CurrentPlatform { os, architecture }
}

fn entry(name: &str) -> Listed {
    Listed::Entry { path: format!("./{}", name), name: Some(name.to_string()) }
}

fn listing(entries: Vec<Listed>) -> Response {
    Response::WorkingDirectory { entries: Ok(entries) }
}

fn directory(is_directory: bool) -> Response {
    Response::IsDirectory { is_directory: Ok(is_directory) }
}

fn removed() -> Response {
    Response::Removed { result: Ok(()) }
}

/// The answers that bring a search with nothing configured, declared or on
/// the search path to the question whether the latest release is installed.
fn up_to_installed_check(version: &str, os: Os, architecture: Architecture) -> Vec<Response> {
    vec![
        no_file(),
        no_file(),
        Response::Which { location: None },
        release(version, all_assets()),
        platform(os, architecture),
        Response::StatusSet,
    ]
}

fn asked_up_to_installed_check(binary_path: &str) -> Vec<Request> {
    vec![
        read("package.json"),
        read("deno.json"),
        which(),
        latest_release(),
        Request::CurrentPlatform,
        status(InstallationStatus::CheckingForUpdate),
        is_file(binary_path),
    ]
}

fn fails_with(outcome: Option<Outcome>) -> ResolveError {
    match outcome {
        Some(Err(error)) => error,
        other => panic!("expected a failure, got {:?}", other),
    }
}

#[test]
fn arguments_default_to_lsp() {
    assert_eq!(language_server_arguments(None), vec!["lsp".to_string()]);
}

#[test]
fn configured_arguments_are_used_as_they_are() {
    let configured = vec!["lsp".to_string(), "--verbose".to_string()];
    assert_eq!(language_server_arguments(Some(configured.clone())), configured);
    assert_eq!(language_server_arguments(Some(Vec::new())), Vec::<String>::new());
}

#[test]
fn configured_path_is_used_without_asking() {
    let settings = BinarySettings { path: Some("/opt/tools/dprint".to_string()), arguments: None };
    let (asked, outcome) = run(settings, vec![]);
    assert_eq!(asked, vec![]);
    assert_eq!(outcome, at("/opt/tools/dprint"));
}

#[test]
fn configured_path_is_not_checked() {
    let settings = BinarySettings { path: Some("".to_string()), arguments: None };
    let (asked, outcome) = run(settings, vec![]);
    assert_eq!(asked, vec![]);
    assert_eq!(outcome, at(""));
}

#[test]
fn configured_path_and_arguments_are_both_used() {
    let settings = BinarySettings {
        path: Some("C:\\tools\\dprint.exe".to_string()),
        arguments: Some(vec!["lsp".to_string(), "-L".to_string(), "debug".to_string()]),
    };
    let (asked, outcome) = run(settings, vec![]);
    assert_eq!(asked, vec![]);
    assert_eq!(
        outcome,
        Some(Ok(ResolvedBinary {
            path: "C:\\tools\\dprint.exe".to_string(),
            arguments: vec!["lsp".to_string(), "-L".to_string(), "debug".to_string()],
        }))
    );
}

#[test]
fn configured_arguments_go_with_a_found_path() {
    let settings = BinarySettings { path: None, arguments: Some(vec!["serve".to_string()]) };
    let answers = vec![
        no_file(),
        no_file(),
        Response::Which { location: Some("/usr/bin/dprint".to_string()) },
    ];
    let (_, outcome) = run(settings, answers);
    assert_eq!(
        outcome,
        Some(Ok(ResolvedBinary {
            path: "/usr/bin/dprint".to_string(),
            arguments: vec!["serve".to_string()],
        }))
    );
}

#[test]
fn search_starts_with_package_json() {
    let (asked, outcome) = run(no_settings(), vec![]);
    assert_eq!(asked, vec![read("package.json")]);
    assert_eq!(outcome, None);
}

#[test]
fn declared_in_package_json_uses_the_project_install() {
    let answers = vec![
        file(r#"{"devDependencies": {"dprint": "^0.50.0"}}"#),
        no_file(),
        Response::RootPath { path: "/home/me/site".to_string() },
    ];
    let (asked, outcome) = run(no_settings(), answers);
    assert_eq!(asked, vec![read("package.json"), read("deno.json"), Request::RootPath]);
    assert_eq!(outcome, at("/home/me/site/node_modules/.bin/dprint"));
}

#[test]
fn declared_in_deno_json_uses_the_project_install() {
    let answers = vec![
        file("{}"),
        file(r#"{"imports": {"dprint": "npm:dprint@0.50.0"}}"#),
        Response::RootPath { path: "/work/app/".to_string() },
    ];
    let (asked, outcome) = run(no_settings(), answers);
    assert_eq!(asked, vec![read("package.json"), read("deno.json"), Request::RootPath]);
    assert_eq!(outcome, at("/work/app/node_modules/.bin/dprint"));
}

#[test]
fn project_install_is_joined_to_the_root_as_paths_are() {
    let root = "/srv/project";
    let expected = std::path::Path::new(root)
        .join("node_modules/.bin/dprint")
        .to_string_lossy()
        .to_string();
    let answers = vec![
        file(r#"{"dependencies": {"dprint": "1"}}"#),
        no_file(),
        Response::RootPath { path: root.to_string() },
    ];
    let (_, outcome) = run(no_settings(), answers);
    assert_eq!(outcome, at(&expected));
    assert_ne!(outcome, at(root));
}

#[test]
fn undeclared_tool_is_looked_up_on_the_search_path() {
    let answers = vec![
        file(r#"{"dependencies": {"prettier": "3"}}"#),
        file("not json"),
        Response::Which { location: Some("/usr/local/bin/dprint".to_string()) },
    ];
    let (asked, outcome) = run(no_settings(), answers);
    assert_eq!(asked, vec![read("package.json"), read("deno.json"), which()]);
    assert_eq!(outcome, at("/usr/local/bin/dprint"));
}

#[test]
fn fresh_install_downloads_the_latest_release() {
    let mut answers = up_to_installed_check("0.50.0", Os::Linux, Architecture::X8664);
    answers[3] = release("0.50.0", vec![asset("dprint-x86_64-unknown-linux-gnu.zip")]);
    answers.extend(vec![
        Response::IsFile { is_file: false },
        listing(vec![]),
        Response::StatusSet,
        Response::Downloaded { result: Ok(()) },
    ]);
    let (asked, outcome) = run(no_settings(), answers);
    let mut expected = asked_up_to_installed_check("dprint-0.50.0/dprint");
    expected.extend(vec![
        Request::ListWorkingDirectory,
        status(InstallationStatus::Downloading),
        Request::DownloadFile {
            url: "https://example.test/download/dprint-x86_64-unknown-linux-gnu.zip".to_string(),
            directory: "dprint-0.50.0".to_string(),
            file_type: DownloadedFileType::Zip,
        },
    ]);
    assert_eq!(asked, expected);
    assert_eq!(outcome, at("dprint-0.50.0/dprint"));
}

#[test]
fn fresh_install_on_windows_returns_the_exe() {
    let mut answers = up_to_installed_check("0.50.0", Os::Windows, Architecture::X8664);
    answers.extend(vec![
        Response::IsFile { is_file: false },
        listing(vec![]),
        Response::StatusSet,
        Response::Downloaded { result: Ok(()) },
    ]);
    let (asked, outcome) = run(no_settings(), answers);
    assert_eq!(
        asked.last(),
        Some(&Request::DownloadFile {
            url: "https://example.test/download/dprint-x86_64-pc-windows-msvc.zip".to_string(),
            directory: "dprint-0.50.0".to_string(),
            file_type: DownloadedFileType::Zip,
        })
    );
    assert_eq!(outcome, at("dprint-0.50.0/dprint.exe"));
}

#[test]
fn installed_release_is_returned_without_purge_or_download() {
    let mut answers = up_to_installed_check("0.49.0", Os::Mac, Architecture::Aarch64);
    answers.push(Response::IsFile { is_file: true });
    let (asked, outcome) = run(no_settings(), answers);
    assert_eq!(asked, asked_up_to_installed_check("dprint-0.49.0/dprint"));
    assert_eq!(outcome, at("dprint-0.49.0/dprint"));
}

#[test]
fn second_search_asks_and_returns_the_same_while_installed() {
    let answers = || {
        let mut answers = up_to_installed_check("0.49.0", Os::Linux, Architecture::X8664);
        answers.push(Response::IsFile { is_file: true });
        answers
    };
    let first = run(no_settings(), answers());
    let second = run(no_settings(), answers());
    assert_eq!(first, second);
    for request in &second.0 {
        assert!(!matches!(
            request,
            Request::ListWorkingDirectory
                | Request::RemoveDirectory { .. }
                | Request::RemoveFile { .. }
                | Request::DownloadFile { .. }
        ));
    }
}

#[test]
fn search_after_an_install_finds_what_the_install_returned() {
    let mut install = up_to_installed_check("0.50.0", Os::Linux, Architecture::Aarch64);
    install.extend(vec![
        Response::IsFile { is_file: false },
        listing(vec![entry("dprint-0.49.0")]),
        directory(true),
        removed(),
        Response::StatusSet,
        Response::Downloaded { result: Ok(()) },
    ]);
    let (_, installed) = run(no_settings(), install);
    let mut again = up_to_installed_check("0.50.0", Os::Linux, Architecture::Aarch64);
    again.push(Response::IsFile { is_file: true });
    let (asked, found) = run(no_settings(), again);
    assert_eq!(installed, at("dprint-0.50.0/dprint"));
    assert_eq!(found, installed);
    assert_eq!(asked.len(), 7);
}

#[test]
fn missing_asset_is_named_in_the_failure() {
    let mut answers = up_to_installed_check("0.50.0", Os::Mac, Architecture::Aarch64);
    answers[3] = release(
        "0.50.0",
        vec![
            asset("dprint-x86_64-apple-darwin.zip"),
            asset("dprint-aarch64-unknown-linux-gnu.zip"),
        ],
    );
    answers.extend(vec![Response::IsFile { is_file: false }, listing(vec![])]);
    let (asked, outcome) = run(no_settings(), answers);
    let mut expected = asked_up_to_installed_check("dprint-0.50.0/dprint");
    expected.push(Request::ListWorkingDirectory);
    assert_eq!(asked, expected);
    let error = fails_with(outcome);
    assert_eq!(
        error,
        ResolveError::AssetNotFound { asset_name: "dprint-aarch64-apple-darwin.zip".to_string() }
    );
    assert_eq!(
        error.message(),
        "No compatible asset found for \"dprint-aarch64-apple-darwin.zip\"."
    );
}

#[test]
fn release_without_assets_has_no_asset_for_the_platform() {
    let mut answers = up_to_installed_check("0.50.0", Os::Windows, Architecture::Aarch64);
    answers[3] = release("0.50.0", vec![]);
    answers.extend(vec![Response::IsFile { is_file: false }, listing(vec![])]);
    let (_, outcome) = run(no_settings(), answers);
    assert_eq!(
        fails_with(outcome),
        ResolveError::AssetNotFound { asset_name: "dprint-aarch64-pc-windows-msvc.zip".to_string() }
    );
}

#[test]
fn x86_fails_after_the_cache_is_emptied() {
    let mut answers = up_to_installed_check("0.50.0", Os::Linux, Architecture::X86);
    answers.extend(vec![
        Response::IsFile { is_file: false },
        listing(vec![entry("dprint-0.49.0")]),
        directory(true),
        removed(),
    ]);
    let (asked, outcome) = run(no_settings(), answers);
    let mut expected = asked_up_to_installed_check("dprint-0.50.0/dprint");
    expected.extend(vec![
        Request::ListWorkingDirectory,
        is_directory("./dprint-0.49.0"),
        remove_directory("./dprint-0.49.0"),
    ]);
    assert_eq!(asked, expected);
    assert_eq!(fails_with(outcome), ResolveError::UnsupportedArchitecture);
}

#[test]
fn x86_with_the_release_installed_needs_no_archive() {
    let mut answers = up_to_installed_check("0.50.0", Os::Windows, Architecture::X86);
    answers.push(Response::IsFile { is_file: true });
    let (_, outcome) = run(no_settings(), answers);
    assert_eq!(outcome, at("dprint-0.50.0/dprint.exe"));
}

#[test]
fn failed_release_query_ends_the_search() {
    let answers = vec![
        no_file(),
        no_file(),
        Response::Which { location: None },
        Response::LatestGithubRelease { release: Err("rate limit exceeded".to_string()) },
    ];
    let (asked, outcome) = run(no_settings(), answers);
    assert_eq!(asked, vec![read("package.json"), read("deno.json"), which(), latest_release()]);
    let error = fails_with(outcome);
    assert_eq!(
        error,
        ResolveError::NetworkOrIndexFailure { detail: "rate limit exceeded".to_string() }
    );
    assert_eq!(error.message(), "rate limit exceeded");
}

#[test]
fn purge_removes_every_entry_of_the_prefix_and_nothing_else() {
    let mut answers = up_to_installed_check("0.50.0", Os::Linux, Architecture::X8664);
    answers.extend(vec![
        Response::IsFile { is_file: false },
        listing(vec![
            entry("src"),
            entry("dprint-0.48.0"),
            entry("dprint.json"),
            entry("dprint-0.49.0.zip"),
            Listed::Entry { path: "./dprint-\u{fffd}".to_string(), name: None },
            entry("dprint-0.50.0"),
            entry("node_modules"),
        ]),
        directory(true),
        removed(),
        directory(false),
        removed(),
        directory(true),
        removed(),
        Response::StatusSet,
        Response::Downloaded { result: Ok(()) },
    ]);
    let (asked, outcome) = run(no_settings(), answers);
    let mut expected = asked_up_to_installed_check("dprint-0.50.0/dprint");
    expected.extend(vec![
        Request::ListWorkingDirectory,
        is_directory("./dprint-0.48.0"),
        remove_directory("./dprint-0.48.0"),
        is_directory("./dprint-0.49.0.zip"),
        remove_file("./dprint-0.49.0.zip"),
        is_directory("./dprint-0.50.0"),
        remove_directory("./dprint-0.50.0"),
        status(InstallationStatus::Downloading),
        Request::DownloadFile {
            url: "https://example.test/download/dprint-x86_64-unknown-linux-gnu.zip".to_string(),
            directory: "dprint-0.50.0".to_string(),
            file_type: DownloadedFileType::Zip,
        },
    ]);
    assert_eq!(asked, expected);
    assert_eq!(outcome, at("dprint-0.50.0/dprint"));
}

#[test]
fn failed_listing_ends_the_search() {
    let mut answers = up_to_installed_check("0.50.0", Os::Linux, Architecture::X8664);
    answers.extend(vec![
        Response::IsFile { is_file: false },
        Response::WorkingDirectory { entries: Err("Os { code: 13 }".to_string()) },
    ]);
    let (_, outcome) = run(no_settings(), answers);
    let error = fails_with(outcome);
    assert_eq!(
        error,
        ResolveError::FilesystemFailure {
            operation: FilesystemOperation::ListDirectory,
            path: ".".to_string(),
            detail: "Os { code: 13 }".to_string(),
        }
    );
    assert_eq!(error.message(), "Failed to list working directory.Os { code: 13 }");
}

#[test]
fn unreadable_entry_ends_the_purge_where_it_stands() {
    let mut answers = up_to_installed_check("0.50.0", Os::Linux, Architecture::X8664);
    answers.extend(vec![
        Response::IsFile { is_file: false },
        listing(vec![
            entry("dprint-0.48.0"),
            Listed::Unreadable { detail: "Os { code: 5 }".to_string() },
            entry("dprint-0.49.0"),
        ]),
        directory(true),
        removed(),
    ]);
    let (asked, outcome) = run(no_settings(), answers);
    assert_eq!(
        asked[7..],
        [
            Request::ListWorkingDirectory,
            is_directory("./dprint-0.48.0"),
            remove_directory("./dprint-0.48.0"),
        ]
    );
    let error = fails_with(outcome);
    assert_eq!(
        error,
        ResolveError::FilesystemFailure {
            operation: FilesystemOperation::ReadEntry,
            path: ".".to_string(),
            detail: "Os { code: 5 }".to_string(),
        }
    );
    assert_eq!(error.message(), "Failed to load directory entry.Os { code: 5 }");
}

#[test]
fn failed_stat_ends_the_purge() {
    let mut answers = up_to_installed_check("0.50.0", Os::Linux, Architecture::X8664);
    answers.extend(vec![
        Response::IsFile { is_file: false },
        listing(vec![entry("dprint-0.48.0"), entry("dprint-0.49.0")]),
        Response::IsDirectory { is_directory: Err("gone".to_string()) },
    ]);
    let (asked, outcome) = run(no_settings(), answers);
    assert_eq!(asked[7..], [Request::ListWorkingDirectory, is_directory("./dprint-0.48.0")]);
    let error = fails_with(outcome);
    assert_eq!(
        error,
        ResolveError::FilesystemFailure {
            operation: FilesystemOperation::Stat,
            path: "./dprint-0.48.0".to_string(),
            detail: "gone".to_string(),
        }
    );
    assert_eq!(error.message(), "Failed to stat \"./dprint-0.48.0\".gone");
}

#[test]
fn failed_directory_removal_ends_the_purge() {
    let mut answers = up_to_installed_check("0.50.0", Os::Linux, Architecture::X8664);
    answers.extend(vec![
        Response::IsFile { is_file: false },
        listing(vec![entry("dprint-0.48.0"), entry("dprint-0.49.0")]),
        directory(true),
        Response::Removed { result: Err("busy".to_string()) },
    ]);
    let (asked, outcome) = run(no_settings(), answers);
    assert_eq!(asked.last(), Some(&remove_directory("./dprint-0.48.0")));
    assert_eq!(
        fails_with(outcome),
        ResolveError::FilesystemFailure {
            operation: FilesystemOperation::RemoveDirectory,
            path: "./dprint-0.48.0".to_string(),
            detail: "busy".to_string(),
        }
    );
}

#[test]
fn failed_file_removal_ends_the_purge() {
    let mut answers = up_to_installed_check("0.50.0", Os::Linux, Architecture::X8664);
    answers.extend(vec![
        Response::IsFile { is_file: false },
        listing(vec![entry("dprint-0.48.0"), entry("dprint-stray")]),
        directory(true),
        removed(),
        directory(false),
        Response::Removed { result: Err("denied".to_string()) },
    ]);
    let (asked, outcome) = run(no_settings(), answers);
    assert_eq!(asked.last(), Some(&remove_file("./dprint-stray")));
    assert_eq!(
        fails_with(outcome),
        ResolveError::FilesystemFailure {
            operation: FilesystemOperation::RemoveFile,
            path: "./dprint-stray".to_string(),
            detail: "denied".to_string(),
        }
    );
}

#[test]
fn failed_download_ends_the_search() {
    let mut answers = up_to_installed_check("0.50.0", Os::Mac, Architecture::X8664);
    answers.extend(vec![
        Response::IsFile { is_file: false },
        listing(vec![]),
        Response::StatusSet,
        Response::Downloaded { result: Err("checksum mismatch".to_string()) },
    ]);
    let (_, outcome) = run(no_settings(), answers);
    let error = fails_with(outcome);
    assert_eq!(error, ResolveError::DownloadFailure { detail: "checksum mismatch".to_string() });
    assert_eq!(error.message(), "checksum mismatch");
}

#[test]
fn downloading_is_shown_only_before_a_download() {
    let mut answers = up_to_installed_check("0.50.0", Os::Mac, Architecture::X86);
    answers.extend(vec![Response::IsFile { is_file: false }, listing(vec![])]);
    let (asked, _) = run(no_settings(), answers);
    assert!(!asked.contains(&status(InstallationStatus::Downloading)));
}

#[test]
fn answer_to_another_request_ends_the_search() {
    let (_, outcome) = run(no_settings(), vec![Response::StatusSet]);
    assert_eq!(fails_with(outcome), ResolveError::UnexpectedResponse);
    let (_, outcome) = run(no_settings(), vec![no_file(), Response::IsFile { is_file: true }]);
    assert_eq!(fails_with(outcome), ResolveError::UnexpectedResponse);
    let (_, outcome) = run(no_settings(), vec![no_file(), no_file(), removed()]);
    assert_eq!(fails_with(outcome), ResolveError::UnexpectedResponse);
}

fn installer(os: Os, architecture: Architecture) -> AutoInstaller {
    AutoInstaller::new(
        &InstallerConfig::dprint().auto_installer,
        GithubRelease { version: "0.50.0".to_string(), assets: all_assets() },
        os,
        architecture,
    )
}

#[test]
fn installer_knows_where_the_executable_will_be() {
    let installer = installer(Os::Windows, Architecture::Aarch64);
    assert_eq!(installer.binary_path, "dprint-0.50.0/dprint.exe");
    assert_eq!(installer.os, Os::Windows);
    assert_eq!(installer.architecture, Architecture::Aarch64);
    assert_eq!(installer.latest_release.version, "0.50.0");
    assert_eq!(installer.latest_release.assets, all_assets());
}

#[test]
fn resolved_ends_the_search() {
    assert_eq!(
        resolved("/bin/dprint".to_string(), lsp()),
        Step::Done {
            outcome: Ok(ResolvedBinary { path: "/bin/dprint".to_string(), arguments: lsp() }),
        }
    );
}

#[test]
fn ensure_installed_uses_an_installed_release() {
    let step = ensure_installed(
        InstallerConfig::dprint(),
        lsp(),
        installer(Os::Linux, Architecture::X8664),
        true,
    );
    assert_eq!(step, resolved("dprint-0.50.0/dprint".to_string(), lsp()));
}

#[test]
fn ensure_installed_lists_the_directory_otherwise() {
    let step = ensure_installed(
        InstallerConfig::dprint(),
        lsp(),
        installer(Os::Linux, Architecture::X8664),
        false,
    );
    assert_eq!(
        step,
        Step::Ask {
            request: Request::ListWorkingDirectory,
            session: Locator {
                config: InstallerConfig::dprint(),
                arguments: lsp(),
                phase: Phase::Listing { installer: installer(Os::Linux, Architecture::X8664) },
            },
        }
    );
}

#[test]
fn download_new_release_picks_the_url_of_the_platform() {
    let step = download_new_release(
        InstallerConfig::dprint(),
        lsp(),
        installer(Os::Mac, Architecture::Aarch64),
    );
    assert_eq!(
        step,
        Step::Ask {
            request: status(InstallationStatus::Downloading),
            session: Locator {
                config: InstallerConfig::dprint(),
                arguments: lsp(),
                phase: Phase::Downloading {
                    installer: installer(Os::Mac, Architecture::Aarch64),
                    url: "https://example.test/download/dprint-aarch64-apple-darwin.zip"
                        .to_string(),
                },
            },
        }
    );
}

#[test]
fn remove_old_releases_goes_on_from_an_item() {
    let entries = || vec![entry("dprint-0.1.0"), entry("src"), entry("dprint-0.2.0")];
    let step = remove_old_releases(
        InstallerConfig::dprint(),
        lsp(),
        installer(Os::Linux, Architecture::X8664),
        entries(),
        1,
    );
    assert_eq!(
        step,
        Step::Ask {
            request: is_directory("./dprint-0.2.0"),
            session: Locator {
                config: InstallerConfig::dprint(),
                arguments: lsp(),
                phase: Phase::Metadata {
                    installer: installer(Os::Linux, Architecture::X8664),
                    entries: entries(),
                    path: "./dprint-0.2.0".to_string(),
                    next: 3,
                },
            },
        }
    );
}

#[test]
fn remove_old_releases_past_the_end_prepares_the_download() {
    let step = remove_old_releases(
        InstallerConfig::dprint(),
        lsp(),
        installer(Os::Linux, Architecture::X8664),
        vec![entry("dprint-0.1.0")],
        5,
    );
    assert_eq!(
        step,
        download_new_release(
            InstallerConfig::dprint(),
            lsp(),
            installer(Os::Linux, Architecture::X8664),
        )
    );
}

#[test]
fn command_runs_the_executable_with_its_arguments() {
    let binary = ResolvedBinary {
        path: "dprint-0.50.0/dprint".to_string(),
        arguments: vec!["lsp".to_string(), "--verbose".to_string()],
    };
    assert_eq!(
        language_server_command(binary),
        Command {
            command: "dprint-0.50.0/dprint".to_string(),
            args: vec!["lsp".to_string(), "--verbose".to_string()],
            env: vec![],
        }
    );
}

#[test]
fn command_of_a_search_adds_nothing_to_the_environment() {
    let settings = BinarySettings { path: Some("/opt/dprint".to_string()), arguments: None };
    let (_, outcome) = run(settings, vec![]);
    let command = language_server_command(outcome.unwrap().unwrap());
    assert_eq!(command.command, "/opt/dprint");
    assert_eq!(command.args, lsp());
    assert!(command.env.is_empty());
}

#[test]
fn declared_with_a_null_entry_uses_the_project_install() {
    let answers = vec![
        file(r#"{"dependencies": {"dprint": null}}"#),
        no_file(),
        Response::RootPath { path: "/home/me/site".to_string() },
    ];
    let (asked, outcome) = run(no_settings(), answers);
    assert_eq!(asked, vec![read("package.json"), read("deno.json"), Request::RootPath]);
    assert_eq!(outcome, at("/home/me/site/node_modules/.bin/dprint"));
}
