//! What holds of every search, whatever the host answers.
//!
//! A search is followed through [`begin`] and [`transition`], which are what
//! [`Locator::start`](crate::locator::Locator::start) and
//! [`Locator::step`](crate::locator::Locator::step) compute.

use vstd::prelude::*;
use crate::cache::{
    cached_release_paths, cached_release_paths_are_exact, is_cached_release, next_target,
    next_target_is_first, passed_over_items_hold_no_release,
};
use crate::error::ResolveErrorView;
use crate::locator::{
    ask, begin, download, found, installer_for, invocation_arguments, purge, transition,
    AutoInstallerView, BinarySettingsView, LocatorView, PhaseView, ResolvedBinaryView, StepView,
};
use crate::manifest::{deno_json_declares, package_json_declares};
use crate::platform::{Architecture, InstallerConfigView, Os};
use crate::protocol::{InstallationStatus, ListedView, RequestView, ResponseView};
use crate::release::GithubReleaseView;
use crate::text::joined_path;

verus! {

/// The requests that a search makes from `step` on when the host gives
/// `answers`, one for each request, until the search or the answers end.
pub open spec fn requests(step: StepView, answers: Seq<ResponseView>) -> Seq<RequestView>
    decreases answers.len(),
{
    match step {
        StepView::Done { .. } => Seq::empty(),
        StepView::Ask { request, session } => if answers.len() == 0 {
            seq![request]
        } else {
            seq![request] + requests(transition(session, answers[0]), answers.drop_first())
        },
    }
}

/// How a search ends from `step` on when the host gives `answers`, or `None`
/// where the answers end before the search does.
pub open spec fn outcome(step: StepView, answers: Seq<ResponseView>) -> Option<
    Result<ResolvedBinaryView, ResolveErrorView>,
>
    decreases answers.len(),
{
    match step {
        StepView::Done { outcome } => Some(outcome),
        StepView::Ask { request, session } => if answers.len() == 0 {
            None
        } else {
            outcome(transition(session, answers[0]), answers.drop_first())
        },
    }
}

/// A search that has asked `request` goes on with the first answer.
pub proof fn search_goes_on(
    request: RequestView,
    session: LocatorView,
    first: ResponseView,
    rest: Seq<ResponseView>,
)
    ensures
        requests(StepView::Ask { request, session }, seq![first] + rest) == seq![request]
            + requests(transition(session, first), rest),
        outcome(StepView::Ask { request, session }, seq![first] + rest) == outcome(
            transition(session, first),
            rest,
        ),
{
    let answers = seq![first] + rest;
    assert(answers[0] == first);
    assert(answers.drop_first() =~= rest);
}

/// A configured path is the executable: the search ends with it before the
/// host is asked anything, so nothing that the project, the search path or
/// the release cache hold can change it.
pub proof fn configured_path_wins(
    config: InstallerConfigView,
    settings: BinarySettingsView,
    answers: Seq<ResponseView>,
)
    requires
        settings.path is Some,
    ensures
        begin(config, settings) == found(
            settings.path->0,
            invocation_arguments(settings.arguments),
        ),
        requests(begin(config, settings), answers) == Seq::<RequestView>::empty(),
        outcome(begin(config, settings), answers) == Some(
            Ok::<ResolvedBinaryView, ResolveErrorView>(
                ResolvedBinaryView {
                    path: settings.path->0,
                    arguments: invocation_arguments(settings.arguments),
                },
            ),
        ),
{
}

/// Whether a project with these manifests declares the tool.
pub open spec fn declared(
    config: InstallerConfigView,
    package_json: Result<Seq<char>, Seq<char>>,
    deno_json: Result<Seq<char>, Seq<char>>,
) -> bool {
    package_json_declares(package_json, config.worktree.node_package_name) || deno_json_declares(
        deno_json,
        config.worktree.node_package_name,
    )
}

/// Without a configured path, a project that declares the tool in either
/// manifest gets the executable of its own install: the fixed path below the
/// project's root. The host is asked for the two manifests and for the root,
/// and for nothing else.
pub proof fn declared_dependency_uses_project_install(
    config: InstallerConfigView,
    settings: BinarySettingsView,
    package_json: Result<Seq<char>, Seq<char>>,
    deno_json: Result<Seq<char>, Seq<char>>,
    root: Seq<char>,
)
    requires
        settings.path is None,
        declared(config, package_json, deno_json),
    ensures
        requests(
            begin(config, settings),
            seq![
                ResponseView::TextFile { contents: package_json },
                ResponseView::TextFile { contents: deno_json },
                ResponseView::RootPath { path: root },
            ],
        ) == seq![
            RequestView::ReadTextFile { path: "package.json"@ },
            RequestView::ReadTextFile { path: "deno.json"@ },
            RequestView::RootPath,
        ],
        outcome(
            begin(config, settings),
            seq![
                ResponseView::TextFile { contents: package_json },
                ResponseView::TextFile { contents: deno_json },
                ResponseView::RootPath { path: root },
            ],
        ) == Some(
            Ok::<ResolvedBinaryView, ResolveErrorView>(
                ResolvedBinaryView {
                    path: joined_path(root, config.worktree.worktree_binary_path),
                    arguments: invocation_arguments(settings.arguments),
                },
            ),
        ),
{
    let a1 = ResponseView::TextFile { contents: package_json };
    let a2 = ResponseView::TextFile { contents: deno_json };
    let a3 = ResponseView::RootPath { path: root };
    let none = Seq::<ResponseView>::empty();
    let arguments = invocation_arguments(settings.arguments);
    assert(seq![a1, a2, a3] =~= seq![a1] + (seq![a2] + (seq![a3] + none)));
    let s0 = LocatorView { config, arguments, phase: PhaseView::PackageManifest };
    let s1 = LocatorView {
        config,
        arguments,
        phase: PhaseView::DenoManifest { package_json },
    };
    let s2 = LocatorView { config, arguments, phase: PhaseView::WorktreeRoot };
    let q1 = RequestView::ReadTextFile { path: "package.json"@ };
    let q2 = RequestView::ReadTextFile { path: "deno.json"@ };
    search_goes_on(q1, s0, a1, seq![a2] + (seq![a3] + none));
    search_goes_on(q2, s1, a2, seq![a3] + none);
    search_goes_on(RequestView::RootPath, s2, a3, none);
    assert(requests(begin(config, settings), seq![a1, a2, a3]) =~= seq![
        RequestView::ReadTextFile { path: "package.json"@ },
        RequestView::ReadTextFile { path: "deno.json"@ },
        RequestView::RootPath,
    ]);
}

/// Without a configured path, a search in a project that declares the tool
/// asks for the manifests and for the root, and never for anything else:
/// neither the search path nor the network is gone to, whatever the host
/// answers after the manifests.
pub proof fn declared_dependency_asks_for_nothing_else(
    config: InstallerConfigView,
    settings: BinarySettingsView,
    package_json: Result<Seq<char>, Seq<char>>,
    deno_json: Result<Seq<char>, Seq<char>>,
    later: Seq<ResponseView>,
)
    requires
        settings.path is None,
        declared(config, package_json, deno_json),
    ensures
        ({
            let asked = requests(
                begin(config, settings),
                seq![
                    ResponseView::TextFile { contents: package_json },
                    ResponseView::TextFile { contents: deno_json },
                ] + later,
            );
            forall|j: int|
                0 <= j < asked.len() ==> (#[trigger] asked[j]) is ReadTextFile || asked[j]
                    is RootPath
        }),
{
    let a1 = ResponseView::TextFile { contents: package_json };
    let a2 = ResponseView::TextFile { contents: deno_json };
    let arguments = invocation_arguments(settings.arguments);
    let q1 = RequestView::ReadTextFile { path: "package.json"@ };
    let q2 = RequestView::ReadTextFile { path: "deno.json"@ };
    let s0 = LocatorView { config, arguments, phase: PhaseView::PackageManifest };
    let s1 = LocatorView { config, arguments, phase: PhaseView::DenoManifest { package_json } };
    let s2 = LocatorView { config, arguments, phase: PhaseView::WorktreeRoot };
    assert(seq![a1, a2] + later =~= seq![a1] + (seq![a2] + later));
    search_goes_on(q1, s0, a1, seq![a2] + later);
    search_goes_on(q2, s1, a2, later);
    let found_root = StepView::Ask { request: RequestView::RootPath, session: s2 };
    assert(transition(s1, a2) == found_root);
    if later.len() > 0 {
        assert(transition(s2, later[0]) is Done);
        assert(requests(transition(s2, later[0]), later.drop_first()) =~= Seq::empty());
    }
    assert(requests(found_root, later) =~= seq![RequestView::RootPath]);
    assert(requests(begin(config, settings), seq![a1, a2] + later) =~= seq![
        q1,
        q2,
        RequestView::RootPath,
    ]);
}

/// Whether a request leaves the working directory as it is and fetches
/// nothing.
pub open spec fn is_quiet(request: RequestView) -> bool {
    !request.changes_files() && !(request is ListWorkingDirectory)
}

/// Whether a search has not come to emptying the release cache.
pub open spec fn is_looking(step: StepView) -> bool {
    match step {
        StepView::Done { .. } => true,
        StepView::Ask { request, session } => is_quiet(request) && !(session.phase is Listing)
            && !(session.phase is Metadata) && !(session.phase is Removal)
            && !(session.phase is Downloading) && !(session.phase is Download),
    }
}

/// A search that is still looking stays so, unless it is told that the
/// latest release is not installed.
pub proof fn looking_goes_on(step: StepView, answers: Seq<ResponseView>)
    requires
        is_looking(step),
        forall|i: int|
            0 <= i < answers.len() ==> answers[i] != (ResponseView::IsFile { is_file: false }),
    ensures
        forall|j: int|
            0 <= j < requests(step, answers).len() ==> is_quiet(
                #[trigger] requests(step, answers)[j],
            ),
    decreases answers.len(),
{
    match step {
        StepView::Done { .. } => {},
        StepView::Ask { request, session } => {
            if answers.len() > 0 {
                let next = transition(session, answers[0]);
                assert(answers[0] != (ResponseView::IsFile { is_file: false }));
                assert(is_looking(next));
                let rest = answers.drop_first();
                assert forall|i: int| 0 <= i < rest.len() implies rest[i] != (ResponseView::IsFile {
                    is_file: false,
                }) by {
                    assert(rest[i] == answers[i + 1]);
                }
                looking_goes_on(next, rest);
                let later = requests(next, rest);
                assert(requests(step, answers) == seq![request] + later);
                assert forall|j: int| 0 <= j < requests(step, answers).len() implies is_quiet(
                    #[trigger] requests(step, answers)[j],
                ) by {
                    if j > 0 {
                        assert(requests(step, answers)[j] == later[j - 1]);
                    }
                }
            }
        },
    }
}

/// While the host finds the latest release installed, a search changes
/// nothing: it neither lists the working directory nor removes anything from
/// it, and it downloads nothing. This holds of a first search and of every
/// one after it.
pub proof fn installed_release_is_left_alone(
    config: InstallerConfigView,
    settings: BinarySettingsView,
    answers: Seq<ResponseView>,
)
    requires
        forall|i: int|
            0 <= i < answers.len() ==> answers[i] != (ResponseView::IsFile { is_file: false }),
    ensures
        forall|j: int|
            0 <= j < requests(begin(config, settings), answers).len() ==> is_quiet(
                #[trigger] requests(begin(config, settings), answers)[j],
            ),
{
    looking_goes_on(begin(config, settings), answers);
}

/// What a search that has come to the release cache asks while the latest
/// release is installed, from the release index on: the index is asked
/// once, and that is all that goes to the network. The search ends with the
/// executable of the installed release, and so does every later one that is
/// given the same release and platform.
pub proof fn installed_release_is_reused(
    config: InstallerConfigView,
    arguments: Seq<Seq<char>>,
    release: GithubReleaseView,
    os: Os,
    architecture: Architecture,
)
    ensures
        ({
            let installer = installer_for(config.auto_installer, release, os, architecture);
            let search = ask(
                RequestView::LatestGithubRelease {
                    repo: config.auto_installer.github_repo,
                    require_assets: true,
                    pre_release: false,
                },
                config,
                arguments,
                PhaseView::LatestRelease,
            );
            let answers = seq![
                ResponseView::LatestGithubRelease { release: Ok(release) },
                ResponseView::CurrentPlatform { os, architecture },
                ResponseView::StatusSet,
                ResponseView::IsFile { is_file: true },
            ];
            &&& requests(search, answers) == seq![
                RequestView::LatestGithubRelease {
                    repo: config.auto_installer.github_repo,
                    require_assets: true,
                    pre_release: false,
                },
                RequestView::CurrentPlatform,
                RequestView::SetInstallationStatus {
                    status: InstallationStatus::CheckingForUpdate,
                },
                RequestView::IsFile { path: installer.binary_path },
            ]
            &&& outcome(search, answers) == Some(
                Ok::<ResolvedBinaryView, ResolveErrorView>(
                    ResolvedBinaryView { path: installer.binary_path, arguments },
                ),
            )
        }),
{
    let installer = installer_for(config.auto_installer, release, os, architecture);
    let q1 = RequestView::LatestGithubRelease {
        repo: config.auto_installer.github_repo,
        require_assets: true,
        pre_release: false,
    };
    let q2 = RequestView::CurrentPlatform;
    let q3 = RequestView::SetInstallationStatus { status: InstallationStatus::CheckingForUpdate };
    let q4 = RequestView::IsFile { path: installer.binary_path };
    let a1 = ResponseView::LatestGithubRelease { release: Ok(release) };
    let a2 = ResponseView::CurrentPlatform { os, architecture };
    let a3 = ResponseView::StatusSet;
    let a4 = ResponseView::IsFile { is_file: true };
    let none = Seq::<ResponseView>::empty();
    let s1 = LocatorView { config, arguments, phase: PhaseView::LatestRelease };
    let s2 = LocatorView { config, arguments, phase: PhaseView::Platform { release } };
    let s3 = LocatorView { config, arguments, phase: PhaseView::CheckingForUpdate { installer } };
    let s4 = LocatorView { config, arguments, phase: PhaseView::InstalledCheck { installer } };
    assert(seq![a1, a2, a3, a4] =~= seq![a1] + (seq![a2] + (seq![a3] + (seq![a4] + none))));
    search_goes_on(q1, s1, a1, seq![a2] + (seq![a3] + (seq![a4] + none)));
    search_goes_on(q2, s2, a2, seq![a3] + (seq![a4] + none));
    search_goes_on(q3, s3, a3, seq![a4] + none);
    search_goes_on(q4, s4, a4, none);
    assert(requests(StepView::Ask { request: q1, session: s1 }, seq![a1, a2, a3, a4]) =~= seq![
        q1,
        q2,
        q3,
        q4,
    ]);
}

/// The request that removes the entry at `path`.
pub open spec fn removal(path: Seq<char>, directory: bool) -> RequestView {
    if directory {
        RequestView::RemoveDirectory { path }
    } else {
        RequestView::RemoveFile { path }
    }
}

/// The requests that examine and remove the entries at `paths`, one after the
/// other, where `directories` says which of them are directories.
pub open spec fn removal_requests(paths: Seq<Seq<char>>, directories: Seq<bool>) -> Seq<
    RequestView,
>
    decreases paths.len(),
{
    if paths.len() == 0 || directories.len() == 0 {
        Seq::empty()
    } else {
        seq![RequestView::IsDirectory { path: paths[0] }, removal(paths[0], directories[0])]
            + removal_requests(paths.drop_first(), directories.drop_first())
    }
}

/// The answers of a host that examines and removes every entry it is asked
/// to, where `directories` says which of them are directories.
pub open spec fn removal_answers(directories: Seq<bool>) -> Seq<ResponseView>
    decreases directories.len(),
{
    if directories.len() == 0 {
        Seq::empty()
    } else {
        seq![
            ResponseView::IsDirectory { is_directory: Ok(directories[0]) },
            ResponseView::Removed { result: Ok(()) },
        ] + removal_answers(directories.drop_first())
    }
}

/// Emptying the release cache is complete and touches nothing else. Where
/// every item of the listing could be read and the host removes what it is
/// asked to, the entries that are examined and removed are those whose names
/// begin with the release prefix, each of them once and in the listing's
/// order, directories as directories and the others as files. Only then is
/// the download prepared, so the one entry of that prefix that the working
/// directory holds afterwards is the release that is installed next.
pub proof fn purge_removes_every_cached_release(
    config: InstallerConfigView,
    arguments: Seq<Seq<char>>,
    installer: AutoInstallerView,
    entries: Seq<ListedView>,
    from: int,
    directories: Seq<bool>,
    rest: Seq<ResponseView>,
)
    requires
        0 <= from <= entries.len(),
        forall|i: int| from <= i < entries.len() ==> (#[trigger] entries[i]) is Entry,
        directories.len() == cached_release_paths(
            entries,
            from,
            config.auto_installer.release_folder_prefix,
        ).len(),
    ensures
        requests(
            purge(config, arguments, installer, entries, from),
            removal_answers(directories) + rest,
        ) == removal_requests(
            cached_release_paths(entries, from, config.auto_installer.release_folder_prefix),
            directories,
        ) + requests(download(config, arguments, installer), rest),
        outcome(
            purge(config, arguments, installer, entries, from),
            removal_answers(directories) + rest,
        ) == outcome(download(config, arguments, installer), rest),
    decreases entries.len() - from,
{
    let prefix = config.auto_installer.release_folder_prefix;
    let index = next_target(entries, from, prefix);
    next_target_is_first(entries, from, prefix);
    passed_over_items_hold_no_release(entries, from, index, prefix);
    let paths = cached_release_paths(entries, from, prefix);
    if index >= entries.len() {
        assert(removal_answers(directories) + rest =~= rest);
        assert(removal_requests(paths, directories) + requests(
            download(config, arguments, installer),
            rest,
        ) =~= requests(download(config, arguments, installer), rest));
    } else {
        assert(entries[index] is Entry);
        assert(is_cached_release(entries[index], prefix));
        let path = entries[index]->path;
        let later_paths = cached_release_paths(entries, index + 1, prefix);
        assert(paths == seq![path] + later_paths);
        assert(paths.drop_first() =~= later_paths);
        let directory = directories[0];
        let later = directories.drop_first();
        let a1 = ResponseView::IsDirectory { is_directory: Ok(directory) };
        let a2 = ResponseView::Removed { result: Ok(()) };
        let tail = removal_answers(later) + rest;
        assert(removal_answers(directories) + rest =~= seq![a1] + (seq![a2] + tail));
        let examining = LocatorView {
            config,
            arguments,
            phase: PhaseView::Metadata { installer, entries, path, next: index + 1 },
        };
        let removing = LocatorView {
            config,
            arguments,
            phase: PhaseView::Removal { installer, entries, path, next: index + 1, directory },
        };
        search_goes_on(RequestView::IsDirectory { path }, examining, a1, seq![a2] + tail);
        search_goes_on(removal(path, directory), removing, a2, tail);
        purge_removes_every_cached_release(
            config,
            arguments,
            installer,
            entries,
            index + 1,
            later,
            rest,
        );
        assert(requests(
            purge(config, arguments, installer, entries, from),
            removal_answers(directories) + rest,
        ) =~= removal_requests(paths, directories) + requests(
            download(config, arguments, installer),
            rest,
        ));
    }
}

/// Where each of `paths` is examined and removed, the removal of the one at
/// `index` is asked for.
pub proof fn removal_requests_hold_each_removal(
    paths: Seq<Seq<char>>,
    directories: Seq<bool>,
    index: int,
)
    requires
        paths.len() == directories.len(),
        0 <= index < paths.len(),
    ensures
        2 * index + 1 < removal_requests(paths, directories).len(),
        removal_requests(paths, directories)[2 * index + 1] == removal(
            paths[index],
            directories[index],
        ),
    decreases paths.len(),
{
    if index > 0 {
        removal_requests_hold_each_removal(paths.drop_first(), directories.drop_first(), index - 1);
    }
}

/// Once the release cache is emptied, no entry of the listing whose name
/// begins with the release prefix is left: where every item of the listing
/// could be read and the host removes what it is asked to, the removal of
/// each such entry is among the requests, as a directory or as a file.
pub proof fn every_cached_release_is_removed(
    config: InstallerConfigView,
    arguments: Seq<Seq<char>>,
    installer: AutoInstallerView,
    entries: Seq<ListedView>,
    directories: Seq<bool>,
    rest: Seq<ResponseView>,
    entry: int,
)
    requires
        forall|i: int| 0 <= i < entries.len() ==> (#[trigger] entries[i]) is Entry,
        directories.len() == cached_release_paths(
            entries,
            0,
            config.auto_installer.release_folder_prefix,
        ).len(),
        0 <= entry < entries.len(),
        is_cached_release(entries[entry], config.auto_installer.release_folder_prefix),
    ensures
        ({
            let asked = requests(
                purge(config, arguments, installer, entries, 0),
                removal_answers(directories) + rest,
            );
            asked.contains(RequestView::RemoveDirectory { path: entries[entry]->path })
                || asked.contains(RequestView::RemoveFile { path: entries[entry]->path })
        }),
{
    let prefix = config.auto_installer.release_folder_prefix;
    let paths = cached_release_paths(entries, 0, prefix);
    let asked = requests(
        purge(config, arguments, installer, entries, 0),
        removal_answers(directories) + rest,
    );
    purge_removes_every_cached_release(config, arguments, installer, entries, 0, directories, rest);
    cached_release_paths_are_exact(entries, 0, prefix);
    assert(paths.contains(entries[entry]->path));
    let k = choose|k: int| 0 <= k < paths.len() && paths[k] == entries[entry]->path;
    removal_requests_hold_each_removal(paths, directories, k);
    assert(asked[2 * k + 1] == removal(paths[k], directories[k]));
}

/// Whether a search, if it ends well, ends with `arguments`.
pub open spec fn runs_with(step: StepView, arguments: Seq<Seq<char>>) -> bool {
    match step {
        StepView::Ask { session, .. } => session.arguments == arguments,
        StepView::Done { outcome: Ok(binary) } => binary.arguments == arguments,
        StepView::Done { outcome: Err(_) } => true,
    }
}

/// A search keeps its arguments whatever the host answers.
pub proof fn arguments_are_kept(
    step: StepView,
    arguments: Seq<Seq<char>>,
    answers: Seq<ResponseView>,
)
    requires
        runs_with(step, arguments),
    ensures
        outcome(step, answers) matches Some(Ok(binary)) ==> binary.arguments == arguments,
    decreases answers.len(),
{
    match step {
        StepView::Done { .. } => {},
        StepView::Ask { request, session } => {
            if answers.len() > 0 {
                arguments_are_kept(
                    transition(session, answers[0]),
                    arguments,
                    answers.drop_first(),
                );
            }
        },
    }
}

/// The arguments do not depend on where the executable is found: they are
/// the configured ones, or else the default, in every search that finds one.
pub proof fn arguments_do_not_depend_on_the_path(
    config: InstallerConfigView,
    settings: BinarySettingsView,
    answers: Seq<ResponseView>,
)
    ensures
        outcome(begin(config, settings), answers) matches Some(Ok(binary)) ==> binary.arguments
            == invocation_arguments(settings.arguments),
{
    arguments_are_kept(begin(config, settings), invocation_arguments(settings.arguments), answers);
}

/// Whether a request asks the release index for the latest release.
pub open spec fn asks_release_index(request: RequestView) -> bool {
    request is LatestGithubRelease
}

/// Whether a search has neither failed nor come to the release cache.
pub open spec fn is_before_cache(step: StepView) -> bool {
    match step {
        StepView::Ask { session, .. } => session.phase is PackageManifest
            || session.phase is DenoManifest || session.phase is WorktreeRoot
            || session.phase is SearchPath,
        StepView::Done { outcome } => outcome is Ok,
    }
}

/// A search that fails has asked the release index, unless the host did not
/// keep to the pending request.
pub proof fn failure_follows_release_query(step: StepView, answers: Seq<ResponseView>)
    requires
        is_before_cache(step),
    ensures
        outcome(step, answers) matches Some(Err(error)) ==> error
            == ResolveErrorView::UnexpectedResponse || exists|j: int|
            0 <= j < requests(step, answers).len() && asks_release_index(
                #[trigger] requests(step, answers)[j],
            ),
    decreases answers.len(),
{
    match step {
        StepView::Done { .. } => {},
        StepView::Ask { request, session } => {
            if answers.len() > 0 {
                let next = transition(session, answers[0]);
                let rest = answers.drop_first();
                let asked = requests(step, answers);
                assert(asked == seq![request] + requests(next, rest));
                if is_before_cache(next) {
                    failure_follows_release_query(next, rest);
                    if outcome(step, answers) matches Some(Err(error)) && error
                        != ResolveErrorView::UnexpectedResponse {
                        let j = choose|j: int|
                            0 <= j < requests(next, rest).len() && asks_release_index(
                                #[trigger] requests(next, rest)[j],
                            );
                        assert(asked[j + 1] == requests(next, rest)[j]);
                    }
                } else if next is Ask {
                    assert(session.phase is SearchPath);
                    assert(asks_release_index(next->request));
                    if rest.len() == 0 {
                        assert(asked[1] == next->request);
                    } else {
                        assert(requests(next, rest)[0] == next->request);
                        assert(asked[1] == requests(next, rest)[0]);
                    }
                }
            }
        },
    }
}

/// Only the release cache can fail: a search whose host keeps to the pending
/// request fails only after it has asked the release index, so neither a
/// configured path, nor the project's manifests, nor the search path can make
/// it fail.
pub proof fn only_the_release_cache_fails(
    config: InstallerConfigView,
    settings: BinarySettingsView,
    answers: Seq<ResponseView>,
)
    ensures
        outcome(begin(config, settings), answers) matches Some(Err(error)) ==> error
            == ResolveErrorView::UnexpectedResponse || exists|j: int|
            0 <= j < requests(begin(config, settings), answers).len() && asks_release_index(
                #[trigger] requests(begin(config, settings), answers)[j],
            ),
{
    failure_follows_release_query(begin(config, settings), answers);
}

/// Where a search stands once the host has given `answers`.
pub open spec fn step_after(step: StepView, answers: Seq<ResponseView>) -> StepView
    decreases answers.len(),
{
    match step {
        StepView::Done { .. } => step,
        StepView::Ask { request, session } => if answers.len() == 0 {
            step
        } else {
            step_after(transition(session, answers[0]), answers.drop_first())
        },
    }
}

/// Whether `path` is the path of an entry of the release cache in a listing.
pub open spec fn is_cached_release_path(
    entries: Seq<ListedView>,
    path: Seq<char>,
    prefix: Seq<char>,
) -> bool {
    exists|i: int|
        0 <= i < entries.len() && is_cached_release(#[trigger] entries[i], prefix)
            && entries[i]->path == path
}

/// Whether a search asks to remove nothing but an entry of the release cache
/// that the listing of the working directory holds.
pub open spec fn removes_only_cached_releases(step: StepView) -> bool {
    match step {
        StepView::Done { .. } => true,
        StepView::Ask { request, session } => match session.phase {
            PhaseView::Metadata { entries, path, .. } => {
                &&& request == RequestView::IsDirectory { path }
                &&& is_cached_release_path(
                    entries,
                    path,
                    session.config.auto_installer.release_folder_prefix,
                )
            },
            PhaseView::Removal { entries, path, directory, .. } => {
                &&& request == removal(path, directory)
                &&& is_cached_release_path(
                    entries,
                    path,
                    session.config.auto_installer.release_folder_prefix,
                )
            },
            _ => !(request is RemoveDirectory) && !(request is RemoveFile),
        },
    }
}

/// Emptying the release cache, from any item of a listing on, starts with an
/// entry of the cache or with no removal at all.
pub proof fn purge_targets_a_cached_release(
    config: InstallerConfigView,
    arguments: Seq<Seq<char>>,
    installer: AutoInstallerView,
    entries: Seq<ListedView>,
    from: int,
)
    ensures
        removes_only_cached_releases(purge(config, arguments, installer, entries, from)),
{
    let prefix = config.auto_installer.release_folder_prefix;
    if 0 <= from <= entries.len() {
        next_target_is_first(entries, from, prefix);
    }
}

/// A search that asks to remove nothing but entries of the release cache
/// goes on doing so.
pub proof fn removal_stays_in_the_cache(step: StepView, answers: Seq<ResponseView>)
    requires
        removes_only_cached_releases(step),
    ensures
        removes_only_cached_releases(step_after(step, answers)),
    decreases answers.len(),
{
    match step {
        StepView::Done { .. } => {},
        StepView::Ask { request, session } => {
            if answers.len() > 0 {
                let next = transition(session, answers[0]);
                match (session.phase, answers[0]) {
                    (
                        PhaseView::Listing { installer },
                        ResponseView::WorkingDirectory { entries: Ok(entries) },
                    ) => {
                        purge_targets_a_cached_release(
                            session.config,
                            session.arguments,
                            installer,
                            entries,
                            0,
                        );
                    },
                    (
                        PhaseView::Removal { installer, entries, next: from, .. },
                        ResponseView::Removed { result: Ok(_) },
                    ) => {
                        purge_targets_a_cached_release(
                            session.config,
                            session.arguments,
                            installer,
                            entries,
                            from,
                        );
                    },
                    _ => {},
                }
                removal_stays_in_the_cache(next, answers.drop_first());
            }
        },
    }
}

/// A search never asks to remove anything but an entry of the release cache:
/// whatever the host answers, a path that is to be examined or removed is
/// the path of an entry of the listing whose name begins with the release
/// prefix.
pub proof fn only_cached_releases_are_removed(
    config: InstallerConfigView,
    settings: BinarySettingsView,
    answers: Seq<ResponseView>,
)
    ensures
        removes_only_cached_releases(step_after(begin(config, settings), answers)),
{
    removal_stays_in_the_cache(begin(config, settings), answers);
}

} // verus!
