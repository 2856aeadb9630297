//! The decisions taken between asking the host for the server and launching it.
//!
//! A [`LaunchSession`] hands out one [`Request`] at a time; whoever drives it
//! performs the request against the host and feeds the [`Answer`] back through
//! [`LaunchSession::step`], until a [`Request::Finish`] carries the launch command
//! or the error to report.
use crate::paths::{
    installed_server_path, is_relative, local_server_path, spec_installed_server_path,
    spec_local_server_path,
};
use crate::platform::{package_name, spec_package_name, Architecture, Os};
use vstd::prelude::*;

verus! {

/// The command that the host runs to start the language server.
#[derive(Debug, PartialEq, Eq)]
pub struct Command {
    pub command: String,
    pub args: Vec<String>,
    pub env: Vec<(String, String)>,
}

/// What the host shows about the server's installation.
#[derive(Clone, Copy, Debug, PartialEq, Eq, Structural)]
pub enum InstallStatus {
    CheckingForUpdate,
    Downloading,
}

/// Work that the session asks the host to do next.
#[derive(Debug, PartialEq, Eq)]
pub enum Request {
    /// Tell whether `path` names a regular file.
    CheckFile { path: String },
    /// Show `status` for the language server.
    ReportStatus { status: InstallStatus },
    /// Tell the host's operating system and architecture.
    QueryPlatform,
    /// Look up the newest published version of an npm package.
    QueryLatestVersion { package: String },
    /// Look up the version of an npm package that the extension has installed.
    QueryInstalledVersion { package: String },
    /// Install `version` of an npm package.
    InstallPackage { package: String, version: String },
    /// Read the user's settings for this language server: the binary path
    /// that they configured, if any.
    ReadSettings,
    /// The session is over: launch this command, or report this error.
    Finish { result: Result<Command, String> },
}

/// The host's answer to the last request.
#[derive(Debug, PartialEq, Eq)]
pub enum Answer {
    FileChecked { is_file: bool },
    StatusReported,
    Platform { os: Os, arch: Architecture },
    LatestVersion { result: Result<String, String> },
    InstalledVersion { result: Result<Option<String>, String> },
    Installed { result: Result<(), String> },
    SettingsRead { result: Result<Option<String>, String> },
}

/// Where a session stands: what it has asked and what it has learned so far.
pub enum Stage {
    CheckingLocal { local: String },
    AnnouncingCheck,
    AwaitingPlatform,
    AwaitingLatest { package: String },
    CheckingInstalled { package: String, version: String },
    AwaitingInstalledVersion { package: String, version: String },
    AnnouncingDownload { package: String, version: String },
    Installing { package: String, version: String },
    ReadingSettings { binary: String },
    Finished,
}

pub ghost struct CommandView {
    pub command: Seq<char>,
    pub args: Seq<Seq<char>>,
    pub env: Seq<(Seq<char>, Seq<char>)>,
}

pub ghost enum RequestView {
    CheckFile { path: Seq<char> },
    ReportStatus { status: InstallStatus },
    QueryPlatform,
    QueryLatestVersion { package: Seq<char> },
    QueryInstalledVersion { package: Seq<char> },
    InstallPackage { package: Seq<char>, version: Seq<char> },
    ReadSettings,
    Finish { result: Result<CommandView, Seq<char>> },
}

pub ghost enum AnswerView {
    FileChecked { is_file: bool },
    StatusReported,
    Platform { os: Os, arch: Architecture },
    LatestVersion { result: Result<Seq<char>, Seq<char>> },
    InstalledVersion { result: Result<Option<Seq<char>>, Seq<char>> },
    Installed { result: Result<(), Seq<char>> },
    SettingsRead { result: Result<Option<Seq<char>>, Seq<char>> },
}

pub ghost enum StageView {
    CheckingLocal { local: Seq<char> },
    AnnouncingCheck,
    AwaitingPlatform,
    AwaitingLatest { package: Seq<char> },
    CheckingInstalled { package: Seq<char>, version: Seq<char> },
    AwaitingInstalledVersion { package: Seq<char>, version: Seq<char> },
    AnnouncingDownload { package: Seq<char>, version: Seq<char> },
    Installing { package: Seq<char>, version: Seq<char> },
    ReadingSettings { binary: Seq<char> },
    Finished,
}

pub open spec fn option_view(o: Option<String>) -> Option<Seq<char>> {
    match o {
        Some(s) => Some(s@),
        None => None,
    }
}

impl View for Command {
    type V = CommandView;

    open spec fn view(&self) -> CommandView {
        CommandView {
            command: self.command@,
            args: self.args@.map_values(|a: String| a@),
            env: self.env@.map_values(|p: (String, String)| (p.0@, p.1@)),
        }
    }
}

impl View for Request {
    type V = RequestView;

    open spec fn view(&self) -> RequestView {
        match self {
            Request::CheckFile { path } => RequestView::CheckFile { path: path@ },
            Request::ReportStatus { status } => RequestView::ReportStatus { status: *status },
            Request::QueryPlatform => RequestView::QueryPlatform,
            Request::QueryLatestVersion { package } => RequestView::QueryLatestVersion {
                package: package@,
            },
            Request::QueryInstalledVersion { package } => RequestView::QueryInstalledVersion {
                package: package@,
            },
            Request::InstallPackage { package, version } => RequestView::InstallPackage {
                package: package@,
                version: version@,
            },
            Request::ReadSettings => RequestView::ReadSettings,
            Request::Finish { result } => RequestView::Finish {
                result: match result {
                    Ok(c) => Ok(c@),
                    Err(e) => Err(e@),
                },
            },
        }
    }
}

impl View for Answer {
    type V = AnswerView;

    open spec fn view(&self) -> AnswerView {
        match self {
            Answer::FileChecked { is_file } => AnswerView::FileChecked { is_file: *is_file },
            Answer::StatusReported => AnswerView::StatusReported,
            Answer::Platform { os, arch } => AnswerView::Platform { os: *os, arch: *arch },
            Answer::LatestVersion { result } => AnswerView::LatestVersion {
                result: match result {
                    Ok(v) => Ok(v@),
                    Err(e) => Err(e@),
                },
            },
            Answer::InstalledVersion { result } => AnswerView::InstalledVersion {
                result: match result {
                    Ok(v) => Ok(option_view(*v)),
                    Err(e) => Err(e@),
                },
            },
            Answer::Installed { result } => AnswerView::Installed {
                result: match result {
                    Ok(u) => Ok(*u),
                    Err(e) => Err(e@),
                },
            },
            Answer::SettingsRead { result } => AnswerView::SettingsRead {
                result: match result {
                    Ok(p) => Ok(option_view(*p)),
                    Err(e) => Err(e@),
                },
            },
        }
    }
}

impl View for Stage {
    type V = StageView;

    open spec fn view(&self) -> StageView {
        match self {
            Stage::CheckingLocal { local } => StageView::CheckingLocal { local: local@ },
            Stage::AnnouncingCheck => StageView::AnnouncingCheck,
            Stage::AwaitingPlatform => StageView::AwaitingPlatform,
            Stage::AwaitingLatest { package } => StageView::AwaitingLatest { package: package@ },
            Stage::CheckingInstalled { package, version } => StageView::CheckingInstalled {
                package: package@,
                version: version@,
            },
            Stage::AwaitingInstalledVersion { package, version } =>
                StageView::AwaitingInstalledVersion { package: package@, version: version@ },
            Stage::AnnouncingDownload { package, version } => StageView::AnnouncingDownload {
                package: package@,
                version: version@,
            },
            Stage::Installing { package, version } => StageView::Installing {
                package: package@,
                version: version@,
            },
            Stage::ReadingSettings { binary } => StageView::ReadingSettings { binary: binary@ },
            Stage::Finished => StageView::Finished,
        }
    }
}

/// The message reported when installing a package fails.
pub open spec fn install_failure(package: Seq<char>, version: Seq<char>, err: Seq<char>) -> Seq<
    char,
> {
    "failed to install package "@ + package + "@"@ + version + ": "@ + err
}

/// The launch command for `binary`, unless the user configured another path.
pub open spec fn spec_launch_command(binary: Seq<char>, configured: Option<Seq<char>>) -> CommandView {
    CommandView {
        command: match configured {
            Some(p) => p,
            None => binary,
        },
        args: Seq::empty(),
        env: Seq::empty(),
    }
}

/// Every package that a stage names is a relative path.
pub open spec fn stage_wf(s: StageView) -> bool {
    match s {
        StageView::AwaitingLatest { package } => is_relative(package),
        StageView::CheckingInstalled { package, .. } => is_relative(package),
        StageView::AwaitingInstalledVersion { package, .. } => is_relative(package),
        StageView::AnnouncingDownload { package, .. } => is_relative(package),
        StageView::Installing { package, .. } => is_relative(package),
        _ => true,
    }
}

/// Whether `a` answers the request that a session in stage `s` has made.
pub open spec fn spec_expects(s: StageView, a: AnswerView) -> bool {
    match s {
        StageView::CheckingLocal { .. } => a is FileChecked,
        StageView::AnnouncingCheck => a is StatusReported,
        StageView::AwaitingPlatform => a is Platform,
        StageView::AwaitingLatest { .. } => a is LatestVersion,
        StageView::CheckingInstalled { .. } => a is FileChecked,
        StageView::AwaitingInstalledVersion { .. } => a is InstalledVersion,
        StageView::AnnouncingDownload { .. } => a is StatusReported,
        StageView::Installing { .. } => a is Installed,
        StageView::ReadingSettings { .. } => a is SettingsRead,
        StageView::Finished => false,
    }
}

/// The session's first stage and request for a project rooted at `root`: look
/// for the project's own install of the server.
pub open spec fn spec_start(root: Seq<char>) -> (StageView, RequestView) {
    let local = spec_local_server_path(root);
    (StageView::CheckingLocal { local }, RequestView::CheckFile { path: local })
}

pub open spec fn finish_with(result: Result<CommandView, Seq<char>>) -> (StageView, RequestView) {
    (StageView::Finished, RequestView::Finish { result })
}

pub open spec fn read_settings_for(binary: Seq<char>) -> (StageView, RequestView) {
    (StageView::ReadingSettings { binary }, RequestView::ReadSettings)
}

pub open spec fn announce_download(package: Seq<char>, version: Seq<char>) -> (
    StageView,
    RequestView,
) {
    (
        StageView::AnnouncingDownload { package, version },
        RequestView::ReportStatus { status: InstallStatus::Downloading },
    )
}

/// The next stage and request after answer `a` in stage `s`.
///
/// The project's own server wins when it exists. Otherwise the platform's
/// package is installed for the extension, unless its server file exists and
/// the installed version is the newest one. Any error of the host ends the
/// session with that error, and a path configured in the settings replaces
/// the binary that was found.
pub open spec fn spec_next(s: StageView, a: AnswerView) -> (StageView, RequestView)
    recommends
        spec_expects(s, a),
{
    match (s, a) {
        (StageView::CheckingLocal { local }, AnswerView::FileChecked { is_file }) => if is_file {
            read_settings_for(local)
        } else {
            (
                StageView::AnnouncingCheck,
                RequestView::ReportStatus { status: InstallStatus::CheckingForUpdate },
            )
        },
        (StageView::AnnouncingCheck, _) => (StageView::AwaitingPlatform, RequestView::QueryPlatform),
        (StageView::AwaitingPlatform, AnswerView::Platform { os, arch }) => match spec_package_name(
            os,
            arch,
        ) {
            Ok(package) => (
                StageView::AwaitingLatest { package },
                RequestView::QueryLatestVersion { package },
            ),
            Err(e) => finish_with(Err(e)),
        },
        (StageView::AwaitingLatest { package }, AnswerView::LatestVersion { result }) => match result {
            Ok(version) => (
                StageView::CheckingInstalled { package, version },
                RequestView::CheckFile { path: spec_installed_server_path(package) },
            ),
            Err(e) => finish_with(Err(e)),
        },
        (
            StageView::CheckingInstalled { package, version },
            AnswerView::FileChecked { is_file },
        ) => if is_file {
            (
                StageView::AwaitingInstalledVersion { package, version },
                RequestView::QueryInstalledVersion { package },
            )
        } else {
            announce_download(package, version)
        },
        (
            StageView::AwaitingInstalledVersion { package, version },
            AnswerView::InstalledVersion { result },
        ) => match result {
            Ok(installed) => if installed == Some(version) {
                read_settings_for(spec_installed_server_path(package))
            } else {
                announce_download(package, version)
            },
            Err(e) => finish_with(Err(e)),
        },
        (StageView::AnnouncingDownload { package, version }, _) => (
            StageView::Installing { package, version },
            RequestView::InstallPackage { package, version },
        ),
        (StageView::Installing { package, version }, AnswerView::Installed { result }) => match result {
            Ok(_) => read_settings_for(spec_installed_server_path(package)),
            Err(e) => finish_with(Err(install_failure(package, version, e))),
        },
        (StageView::ReadingSettings { binary }, AnswerView::SettingsRead { result }) => match result {
            Ok(configured) => finish_with(Ok(spec_launch_command(binary, configured))),
            Err(e) => finish_with(Err(e)),
        },
        // an answer that the stage does not expect
        _ => (s, RequestView::ReadSettings),
    }
}

/// Builds the message reported when installing `version` of `package` fails.
pub fn install_failure_message(package: &str, version: &str, err: &str) -> (r: String)
    ensures
        r@ == install_failure(package@, version@, err@),
{
    let mut msg = "failed to install package ".to_owned();
    msg.append(package);
    msg.append("@");
    msg.append(version);
    msg.append(": ");
    msg.append(err);
    msg
}

/// The command that launches `binary`, or the path that the user configured
/// in its place; it takes no arguments and sets no environment variables.
pub fn launch_command(binary: String, configured: Option<String>) -> (r: Command)
    ensures
        r@ == spec_launch_command(binary@, option_view(configured)),
{
    let command = match configured {
        Some(p) => p,
        None => binary,
    };
    let r = Command { command, args: Vec::new(), env: Vec::new() };
    assert(r@.args =~= Seq::<Seq<char>>::empty());
    assert(r@.env =~= Seq::<(Seq<char>, Seq<char>)>::empty());
    r
}

/// One run of the decisions that lead from a project to its server's launch
/// command.
pub struct LaunchSession {
    stage: Stage,
}

impl View for LaunchSession {
    type V = StageView;

    closed spec fn view(&self) -> StageView {
        self.stage@
    }
}

impl LaunchSession {
    pub closed spec fn wf(&self) -> bool {
        stage_wf(self.stage@)
    }

    /// Starts a session for the project whose root directory is `root`.
    pub fn new(root: &str) -> (r: (LaunchSession, Request))
        ensures
            r.0.wf(),
            (r.0@, r.1@) == spec_start(root@),
    {
        let local = local_server_path(root);
        let path = local.clone();
        (LaunchSession { stage: Stage::CheckingLocal { local } }, Request::CheckFile { path })
    }

    /// Whether `answer` is of the kind that the last request asked for.
    pub fn expects(&self, answer: &Answer) -> (r: bool)
        ensures
            r == spec_expects(self@, answer@),
    {
        match (&self.stage, answer) {
            (Stage::CheckingLocal { .. }, Answer::FileChecked { .. }) => true,
            (Stage::AnnouncingCheck, Answer::StatusReported) => true,
            (Stage::AwaitingPlatform, Answer::Platform { .. }) => true,
            (Stage::AwaitingLatest { .. }, Answer::LatestVersion { .. }) => true,
            (Stage::CheckingInstalled { .. }, Answer::FileChecked { .. }) => true,
            (Stage::AwaitingInstalledVersion { .. }, Answer::InstalledVersion { .. }) => true,
            (Stage::AnnouncingDownload { .. }, Answer::StatusReported) => true,
            (Stage::Installing { .. }, Answer::Installed { .. }) => true,
            (Stage::ReadingSettings { .. }, Answer::SettingsRead { .. }) => true,
            _ => false,
        }
    }

    /// Whether the session has handed out its final request.
    pub fn is_finished(&self) -> (r: bool)
        ensures
            r == (self@ is Finished),
    {
        match &self.stage {
            Stage::Finished => true,
            _ => false,
        }
    }

    /// Takes the host's answer to the last request and returns the next one.
    pub fn step(&mut self, answer: Answer) -> (r: Request)
        requires
            old(self).wf(),
            spec_expects(old(self)@, answer@),
        ensures
            final(self).wf(),
            (final(self)@, r@) == spec_next(old(self)@, answer@),
    {
        let mut stage = Stage::Finished;
        std::mem::swap(&mut stage, &mut self.stage);
        let (next, request) = Self::advance(stage, answer);
        self.stage = next;
        request
    }

    fn advance(stage: Stage, answer: Answer) -> (r: (Stage, Request))
        requires
            stage_wf(stage@),
            spec_expects(stage@, answer@),
        ensures
            stage_wf(r.0@),
            (r.0@, r.1@) == spec_next(stage@, answer@),
    {
        match (stage, answer) {
            (Stage::CheckingLocal { local }, Answer::FileChecked { is_file }) => {
                if is_file {
                    (Stage::ReadingSettings { binary: local }, Request::ReadSettings)
                } else {
                    (
                        Stage::AnnouncingCheck,
                        Request::ReportStatus { status: InstallStatus::CheckingForUpdate },
                    )
                }
            },
            (Stage::AnnouncingCheck, _) => (Stage::AwaitingPlatform, Request::QueryPlatform),
            (Stage::AwaitingPlatform, Answer::Platform { os, arch }) => {
                match package_name(os, arch) {
                    Ok(package) => {
                        proof {
                            reveal_strlit("@oxlint/");
                            assert(package@[0] == '@');
                        }
                        let asked = package.clone();
                        (Stage::AwaitingLatest { package }, Request::QueryLatestVersion {
                            package: asked,
                        })
                    },
                    Err(e) => (Stage::Finished, Request::Finish { result: Err(e) }),
                }
            },
            (Stage::AwaitingLatest { package }, Answer::LatestVersion { result }) => {
                match result {
                    Ok(version) => {
                        let path = installed_server_path(package.as_str());
                        (Stage::CheckingInstalled { package, version }, Request::CheckFile { path })
                    },
                    Err(e) => (Stage::Finished, Request::Finish { result: Err(e) }),
                }
            },
            (Stage::CheckingInstalled { package, version }, Answer::FileChecked { is_file }) => {
                if is_file {
                    let asked = package.clone();
                    (
                        Stage::AwaitingInstalledVersion { package, version },
                        Request::QueryInstalledVersion { package: asked },
                    )
                } else {
                    (
                        Stage::AnnouncingDownload { package, version },
                        Request::ReportStatus { status: InstallStatus::Downloading },
                    )
                }
            },
            (
                Stage::AwaitingInstalledVersion { package, version },
                Answer::InstalledVersion { result },
            ) => {
                match result {
                    Ok(installed) => {
                        let current = match &installed {
                            Some(v) => *v == version,
                            None => false,
                        };
                        if current {
                            let binary = installed_server_path(package.as_str());
                            (Stage::ReadingSettings { binary }, Request::ReadSettings)
                        } else {
                            (
                                Stage::AnnouncingDownload { package, version },
                                Request::ReportStatus { status: InstallStatus::Downloading },
                            )
                        }
                    },
                    Err(e) => (Stage::Finished, Request::Finish { result: Err(e) }),
                }
            },
            (Stage::AnnouncingDownload { package, version }, _) => {
                let p = package.clone();
                let v = version.clone();
                (Stage::Installing { package, version }, Request::InstallPackage {
                    package: p,
                    version: v,
                })
            },
            (Stage::Installing { package, version }, Answer::Installed { result }) => {
                match result {
                    Ok(_) => {
                        let binary = installed_server_path(package.as_str());
                        (Stage::ReadingSettings { binary }, Request::ReadSettings)
                    },
                    Err(e) => {
                        let msg = install_failure_message(
                            package.as_str(),
                            version.as_str(),
                            e.as_str(),
                        );
                        (Stage::Finished, Request::Finish { result: Err(msg) })
                    },
                }
            },
            (Stage::ReadingSettings { binary }, Answer::SettingsRead { result }) => {
                match result {
                    Ok(configured) => (
                        Stage::Finished,
                        Request::Finish { result: Ok(launch_command(binary, configured)) },
                    ),
                    Err(e) => (Stage::Finished, Request::Finish { result: Err(e) }),
                }
            },
            _ => {
                proof {
                    assert(false);
                }
                (Stage::Finished, Request::ReadSettings)
            },
        }
    }
}

} // verus!
