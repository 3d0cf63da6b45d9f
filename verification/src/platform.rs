//! Where a release of the tool lives: the name of the archive that a platform
//! downloads, and the place of the executable once the archive is unpacked.

use vstd::prelude::*;
use vstd::string::*;
use crate::error::{ResolveError, ResolveErrorView};

verus! {

/// The operating system that the host runs on.
#[derive(Clone, Copy, Debug, PartialEq, Eq, Structural)]
pub enum Os {
    Mac,
    Linux,
    Windows,
}

/// The processor architecture that the host runs on.
#[derive(Clone, Copy, Debug, PartialEq, Eq, Structural)]
pub enum Architecture {
    Aarch64,
    X86,
    X8664,
}

/// Where releases come from and how their directories are named.
#[derive(Clone, Copy, Debug, PartialEq, Eq)]
pub struct AutoInstallerConfig {
    /// The repository whose releases are installed, as `owner/name`.
    pub github_repo: &'static str,
    /// What the name of every release directory begins with.
    pub release_folder_prefix: &'static str,
}

/// An [`AutoInstallerConfig`] with its texts as sequences of characters.
pub struct AutoInstallerConfigView {
    pub github_repo: Seq<char>,
    pub release_folder_prefix: Seq<char>,
}

impl View for AutoInstallerConfig {
    type V = AutoInstallerConfigView;

    open spec fn view(&self) -> AutoInstallerConfigView {
        AutoInstallerConfigView {
            github_repo: self.github_repo@,
            release_folder_prefix: self.release_folder_prefix@,
        }
    }
}

/// The name of the tool: of its executable, and of its archives up to the
/// platform.
pub const TOOL_NAME: &'static str = "dprint";

/// What the executable's file name ends with on an operating system.
pub open spec fn executable_suffix(os: Os) -> Seq<char> {
    match os {
        Os::Windows => ".exe"@,
        Os::Mac | Os::Linux => Seq::empty(),
    }
}

/// The directory that the release `version` is unpacked into.
pub open spec fn release_directory(prefix: Seq<char>, version: Seq<char>) -> Seq<char> {
    prefix + version
}

/// The executable of the release `version`, below its release directory.
pub open spec fn cached_binary_path(prefix: Seq<char>, version: Seq<char>, os: Os) -> Seq<char> {
    release_directory(prefix, version) + "/"@ + TOOL_NAME@ + executable_suffix(os)
}

/// How an archive's name spells an architecture. There are no archives for
/// 32-bit x86.
pub open spec fn architecture_token(architecture: Architecture) -> Option<Seq<char>> {
    match architecture {
        Architecture::X8664 => Some("x86_64"@),
        Architecture::Aarch64 => Some("aarch64"@),
        Architecture::X86 => None,
    }
}

/// How an archive's name spells an operating system.
pub open spec fn os_token(os: Os) -> Seq<char> {
    match os {
        Os::Linux => "unknown-linux-gnu"@,
        Os::Mac => "apple-darwin"@,
        Os::Windows => "pc-windows-msvc"@,
    }
}

/// The name of the archive that a platform downloads, where one exists.
pub open spec fn asset_file_name(architecture: Architecture, os: Os) -> Option<Seq<char>> {
    match architecture_token(architecture) {
        Some(token) => Some(TOOL_NAME@ + "-"@ + token + "-"@ + os_token(os) + ".zip"@),
        None => None,
    }
}

impl AutoInstallerConfig {
    /// The directory that the release `version` is unpacked into.
    pub fn release_folder(&self, version: &str) -> (r: String)
        ensures
            r@ == release_directory(self.release_folder_prefix@, version@),
    {
        let mut r = String::from_str(self.release_folder_prefix);
        r.append(version);
        r
    }

    /// The executable of the release `version`, below its release directory.
    pub fn binary_path(&self, version: &str, os: Os) -> (r: String)
        ensures
            r@ == cached_binary_path(self.release_folder_prefix@, version@, os),
    {
        let file_extension = match os {
            Os::Windows => ".exe",
            Os::Mac | Os::Linux => "",
        };
        proof {
            reveal_strlit("");
            assert(""@ =~= Seq::<char>::empty());
        }
        let mut r = self.release_folder(version);
        r.append("/");
        r.append(TOOL_NAME);
        r.append(file_extension);
        assert(r@ =~= cached_binary_path(self.release_folder_prefix@, version@, os));
        r
    }

    /// The name of the archive to download for a platform. It fails for
    /// 32-bit x86 and for nothing else.
    pub fn asset_name(&self, architecture: Architecture, os: Os) -> (r: Result<
        String,
        ResolveError,
    >)
        ensures
            (match asset_file_name(architecture, os) {
                Some(name) => r matches Ok(s) && s@ == name,
                None => r matches Err(e) && e@ == ResolveErrorView::UnsupportedArchitecture,
            }),
    {
        let architecture = match architecture {
            Architecture::X8664 => "x86_64",
            Architecture::Aarch64 => "aarch64",
            Architecture::X86 => {
                return Err(ResolveError::UnsupportedArchitecture);
            },
        };
        let os = match os {
            Os::Linux => "unknown-linux-gnu",
            Os::Mac => "apple-darwin",
            Os::Windows => "pc-windows-msvc",
        };
        let mut r = String::from_str(TOOL_NAME);
        r.append("-");
        r.append(architecture);
        r.append("-");
        r.append(os);
        r.append(".zip");
        Ok(r)
    }
}

/// Where the project's own install of the tool is looked for.
#[derive(Clone, Copy, Debug, PartialEq, Eq)]
pub struct WorktreeConfig {
    /// The executable's name on the search path.
    pub binary_basename: &'static str,
    /// Where the project's dependencies put the executable, from the
    /// project's root.
    pub worktree_binary_path: &'static str,
    /// The name under which a manifest declares the tool.
    pub node_package_name: &'static str,
}

/// A [`WorktreeConfig`] with its texts as sequences of characters.
pub struct WorktreeConfigView {
    pub binary_basename: Seq<char>,
    pub worktree_binary_path: Seq<char>,
    pub node_package_name: Seq<char>,
}

impl View for WorktreeConfig {
    type V = WorktreeConfigView;

    open spec fn view(&self) -> WorktreeConfigView {
        WorktreeConfigView {
            binary_basename: self.binary_basename@,
            worktree_binary_path: self.worktree_binary_path@,
            node_package_name: self.node_package_name@,
        }
    }
}

/// Everything that is fixed about locating the tool.
#[derive(Clone, Copy, Debug, PartialEq, Eq)]
pub struct InstallerConfig {
    pub auto_installer: AutoInstallerConfig,
    pub worktree: WorktreeConfig,
}

/// An [`InstallerConfig`] with its texts as sequences of characters.
pub struct InstallerConfigView {
    pub auto_installer: AutoInstallerConfigView,
    pub worktree: WorktreeConfigView,
}

impl View for InstallerConfig {
    type V = InstallerConfigView;

    open spec fn view(&self) -> InstallerConfigView {
        InstallerConfigView { auto_installer: self.auto_installer@, worktree: self.worktree@ }
    }
}

/// The configuration for dprint.
pub open spec fn dprint_config() -> InstallerConfigView {
    InstallerConfigView {
        auto_installer: AutoInstallerConfigView {
            github_repo: "dprint/dprint"@,
            release_folder_prefix: "dprint-"@,
        },
        worktree: WorktreeConfigView {
            binary_basename: "dprint"@,
            worktree_binary_path: "node_modules/.bin/dprint"@,
            node_package_name: "dprint"@,
        },
    }
}

impl InstallerConfig {
    /// The configuration for dprint.
    pub fn dprint() -> (r: InstallerConfig)
        ensures
            r@ == dprint_config(),
    {
        InstallerConfig {
            auto_installer: AutoInstallerConfig {
                github_repo: "dprint/dprint",
                release_folder_prefix: "dprint-",
            },
            worktree: WorktreeConfig {
                binary_basename: "dprint",
                worktree_binary_path: "node_modules/.bin/dprint",
                node_package_name: "dprint",
            },
        }
    }
}

/// The executable's path ends in `.exe` on Windows and on no other
/// operating system, whatever the release directory is called.
pub proof fn exe_suffix_marks_windows(prefix: Seq<char>, version: Seq<char>, os: Os)
    ensures
        ".exe"@.is_suffix_of(cached_binary_path(prefix, version, os)) <==> os == Os::Windows,
{
    reveal_strlit(".exe");
    reveal_strlit("dprint");
    let path = cached_binary_path(prefix, version, os);
    let stem = release_directory(prefix, version) + "/"@ + TOOL_NAME@;
    if os == Os::Windows {
        assert(path =~= stem + ".exe"@);
        assert(".exe"@ =~= path.subrange(path.len() - 4, path.len() as int));
    } else {
        assert(path =~= stem);
        if path.len() >= 4 {
            let tail = path.subrange(path.len() - 4, path.len() as int);
            assert(tail[3] == path[path.len() - 1]);
            assert(path[path.len() - 1] == TOOL_NAME@[5]);
            assert(".exe"@[3] == 'e');
            assert(TOOL_NAME@[5] == 't');
        }
    }
}

/// A release directory is an entry of the release cache, and the release's
/// executable lies in it: what an install leaves behind is what the next
/// emptying of the cache removes.
pub proof fn release_directory_is_cached(prefix: Seq<char>, version: Seq<char>, os: Os)
    ensures
        prefix.is_prefix_of(release_directory(prefix, version)),
        (release_directory(prefix, version) + "/"@).is_prefix_of(
            cached_binary_path(prefix, version, os),
        ),
{
    let directory = release_directory(prefix, version);
    let path = cached_binary_path(prefix, version, os);
    assert(prefix =~= directory.subrange(0, prefix.len() as int));
    assert(directory + "/"@ =~= path.subrange(0, (directory + "/"@).len() as int));
}

} // verus!
