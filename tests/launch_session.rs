use zed_oxlint::launch::{
    install_failure_message, launch_command, Answer, Command, InstallStatus, LaunchSession,
    Request,
};
use zed_oxlint::platform::{Architecture, Os};

const PACKAGE: &str = "@oxlint/linux-x64-gnu";
const INSTALLED: &str = "./node_modules/@oxlint/linux-x64-gnu/oxc_language_server";

fn command(path: &str) -> Command {
    Command {
        command: path.to_string(),
        args: vec![],
        env: vec![],
    }
}

fn feed(session: &mut LaunchSession, answer: Answer) -> Request {
    assert!(session.expects(&answer));
    session.step(answer)
}

/// Drives a session that finds no project install, up to the point where it
/// checks the extension's own install of the Linux x64 package.
fn session_at_installed_check(latest: &str) -> LaunchSession {
    let (mut s, _) = LaunchSession::new("/work/app");
    feed(&mut s, Answer::FileChecked { is_file: false });
    feed(&mut s, Answer::StatusReported);
    feed(
        &mut s,
        Answer::Platform {
            os: Os::Linux,
            arch: Architecture::X8664,
        },
    );
    let r = feed(
        &mut s,
        Answer::LatestVersion {
            result: Ok(latest.to_string()),
        },
    );
    assert_eq!(
        r,
        Request::CheckFile {
            path: INSTALLED.to_string()
        }
    );
    s
}

#[test]
fn first_request_checks_the_project_install() {
    let (s, r) = LaunchSession::new("/work/app");
    assert_eq!(
        r,
        Request::CheckFile {
            path: "/work/app/node_modules/.bin/oxc_language_server".to_string()
        }
    );
    assert!(!s.is_finished());
}

#[test]
fn project_install_is_launched_without_installing() {
    let (mut s, _) = LaunchSession::new("/work/app");
    let r = feed(&mut s, Answer::FileChecked { is_file: true });
    assert_eq!(r, Request::ReadSettings);
    let r = feed(&mut s, Answer::SettingsRead { result: Ok(None) });
    assert_eq!(
        r,
        Request::Finish {
            result: Ok(command("/work/app/node_modules/.bin/oxc_language_server"))
        }
    );
    assert!(s.is_finished());
}

#[test]
fn missing_server_is_installed_then_launched() {
    let (mut s, _) = LaunchSession::new("/work/app");
    let r = feed(&mut s, Answer::FileChecked { is_file: false });
    assert_eq!(
        r,
        Request::ReportStatus {
            status: InstallStatus::CheckingForUpdate
        }
    );
    let r = feed(&mut s, Answer::StatusReported);
    assert_eq!(r, Request::QueryPlatform);
    let r = feed(
        &mut s,
        Answer::Platform {
            os: Os::Linux,
            arch: Architecture::X8664,
        },
    );
    assert_eq!(
        r,
        Request::QueryLatestVersion {
            package: PACKAGE.to_string()
        }
    );
    let r = feed(
        &mut s,
        Answer::LatestVersion {
            result: Ok("1.2.0".to_string()),
        },
    );
    assert_eq!(
        r,
        Request::CheckFile {
            path: INSTALLED.to_string()
        }
    );
    let r = feed(&mut s, Answer::FileChecked { is_file: false });
    assert_eq!(
        r,
        Request::ReportStatus {
            status: InstallStatus::Downloading
        }
    );
    let r = feed(&mut s, Answer::StatusReported);
    assert_eq!(
        r,
        Request::InstallPackage {
            package: PACKAGE.to_string(),
            version: "1.2.0".to_string()
        }
    );
    let r = feed(&mut s, Answer::Installed { result: Ok(()) });
    assert_eq!(r, Request::ReadSettings);
    let r = feed(&mut s, Answer::SettingsRead { result: Ok(None) });
    assert_eq!(
        r,
        Request::Finish {
            result: Ok(command(INSTALLED))
        }
    );
}

#[test]
fn current_install_is_not_reinstalled() {
    let mut s = session_at_installed_check("1.2.0");
    let r = feed(&mut s, Answer::FileChecked { is_file: true });
    assert_eq!(
        r,
        Request::QueryInstalledVersion {
            package: PACKAGE.to_string()
        }
    );
    let r = feed(
        &mut s,
        Answer::InstalledVersion {
            result: Ok(Some("1.2.0".to_string())),
        },
    );
    assert_eq!(r, Request::ReadSettings);
    let r = feed(&mut s, Answer::SettingsRead { result: Ok(None) });
    assert_eq!(
        r,
        Request::Finish {
            result: Ok(command(INSTALLED))
        }
    );
}

#[test]
fn outdated_install_is_replaced() {
    let mut s = session_at_installed_check("1.2.0");
    feed(&mut s, Answer::FileChecked { is_file: true });
    let r = feed(
        &mut s,
        Answer::InstalledVersion {
            result: Ok(Some("1.1.9".to_string())),
        },
    );
    assert_eq!(
        r,
        Request::ReportStatus {
            status: InstallStatus::Downloading
        }
    );
    let r = feed(&mut s, Answer::StatusReported);
    assert_eq!(
        r,
        Request::InstallPackage {
            package: PACKAGE.to_string(),
            version: "1.2.0".to_string()
        }
    );
}

#[test]
fn unknown_installed_version_is_replaced() {
    let mut s = session_at_installed_check("1.2.0");
    feed(&mut s, Answer::FileChecked { is_file: true });
    let r = feed(&mut s, Answer::InstalledVersion { result: Ok(None) });
    assert_eq!(
        r,
        Request::ReportStatus {
            status: InstallStatus::Downloading
        }
    );
}

#[test]
fn configured_path_replaces_the_found_binary() {
    let (mut s, _) = LaunchSession::new("/work/app");
    feed(&mut s, Answer::FileChecked { is_file: true });
    let r = feed(
        &mut s,
        Answer::SettingsRead {
            result: Ok(Some("/opt/oxc/server".to_string())),
        },
    );
    assert_eq!(
        r,
        Request::Finish {
            result: Ok(command("/opt/oxc/server"))
        }
    );
}

#[test]
fn unsupported_architecture_ends_the_session() {
    let (mut s, _) = LaunchSession::new("/work/app");
    feed(&mut s, Answer::FileChecked { is_file: false });
    feed(&mut s, Answer::StatusReported);
    let r = feed(
        &mut s,
        Answer::Platform {
            os: Os::Windows,
            arch: Architecture::X86,
        },
    );
    assert_eq!(
        r,
        Request::Finish {
            result: Err("unsupported architecture: Architecture::X86".to_string())
        }
    );
    assert!(s.is_finished());
    assert!(!s.expects(&Answer::StatusReported));
}

#[test]
fn registry_error_ends_the_session() {
    let (mut s, _) = LaunchSession::new("/work/app");
    feed(&mut s, Answer::FileChecked { is_file: false });
    feed(&mut s, Answer::StatusReported);
    feed(
        &mut s,
        Answer::Platform {
            os: Os::Mac,
            arch: Architecture::Aarch64,
        },
    );
    let r = feed(
        &mut s,
        Answer::LatestVersion {
            result: Err("registry unreachable".to_string()),
        },
    );
    assert_eq!(
        r,
        Request::Finish {
            result: Err("registry unreachable".to_string())
        }
    );
}

#[test]
fn installed_version_error_ends_the_session() {
    let mut s = session_at_installed_check("1.2.0");
    feed(&mut s, Answer::FileChecked { is_file: true });
    let r = feed(
        &mut s,
        Answer::InstalledVersion {
            result: Err("bad package.json".to_string()),
        },
    );
    assert_eq!(
        r,
        Request::Finish {
            result: Err("bad package.json".to_string())
        }
    );
}

#[test]
fn install_error_names_package_and_version() {
    let mut s = session_at_installed_check("1.2.0");
    feed(&mut s, Answer::FileChecked { is_file: false });
    feed(&mut s, Answer::StatusReported);
    let r = feed(
        &mut s,
        Answer::Installed {
            result: Err("disk full".to_string()),
        },
    );
    assert_eq!(
        r,
        Request::Finish {
            result: Err(
                "failed to install package @oxlint/linux-x64-gnu@1.2.0: disk full".to_string()
            )
        }
    );
}

#[test]
fn settings_error_ends_the_session() {
    let (mut s, _) = LaunchSession::new("/work/app");
    feed(&mut s, Answer::FileChecked { is_file: true });
    let r = feed(
        &mut s,
        Answer::SettingsRead {
            result: Err("invalid settings".to_string()),
        },
    );
    assert_eq!(
        r,
        Request::Finish {
            result: Err("invalid settings".to_string())
        }
    );
}

#[test]
fn session_expects_only_the_answer_it_asked_for() {
    let (s, _) = LaunchSession::new("/work/app");
    assert!(s.expects(&Answer::FileChecked { is_file: true }));
    assert!(!s.expects(&Answer::StatusReported));
    assert!(!s.expects(&Answer::SettingsRead { result: Ok(None) }));
}

#[test]
fn install_failure_message_text() {
    assert_eq!(
        install_failure_message("@oxlint/darwin-arm64", "0.9.0", "timeout"),
        "failed to install package @oxlint/darwin-arm64@0.9.0: timeout"
    );
}

#[test]
fn launch_command_prefers_configured_path() {
    assert_eq!(
        launch_command("a".to_string(), Some("b".to_string())),
        command("b")
    );
    assert_eq!(launch_command("a".to_string(), None), command("a"));
}
