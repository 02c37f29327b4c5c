use perseus_tailwind::command::{default_config, CONFIG_FILE};
use perseus_tailwind::error::ErrorKind;
use perseus_tailwind::invoker::{Invoker, Step};
use perseus_tailwind::platform::{Arch, Os};
use perseus_tailwind::protocol::{Action, Event};
use perseus_tailwind::TailwindOptions;

const LINUX_BINARY: &str = "tailwindcss-linux-x64";
const LINUX_URL: &str =
    "https://github.com/tailwindlabs/tailwindcss/releases/latest/download/tailwindcss-linux-x64";

fn options() -> TailwindOptions {
    TailwindOptions { in_file: "a.css".to_string(), out_file: "b.css".to_string() }
}

fn start(os: Os, arch: Arch, release: bool) -> (Invoker, Action) {
    Invoker::new(os, arch, release, &options()).expect("the platform has a binary")
}

/// Feeds the events to a new run in turn and collects what it asks for, up
/// to its result if the events get that far.
fn drive(
    os: Os,
    arch: Arch,
    release: bool,
    events: Vec<Event>,
) -> (Vec<Action>, Option<Result<(), ErrorKind>>) {
    let (mut invoker, opening) = start(os, arch, release);
    let mut actions = vec![opening];
    for event in events {
        match invoker.step(event) {
            Step::Continue(next, action) => {
                invoker = next;
                actions.push(action);
            }
            Step::Finished(result) => return (actions, Some(result)),
        }
    }
    (actions, None)
}

fn asks_whether(path: &str) -> Action {
    Action::PathExists { path: path.to_string() }
}

fn spawn(program: &str, args: &[&str]) -> Action {
    Action::Spawn {
        program: program.to_string(),
        args: args.iter().map(|arg| arg.to_string()).collect(),
    }
}

#[test]
fn no_run_on_a_platform_without_binary() {
    assert!(Invoker::new(Os::MacOs, Arch::Armv7, false, &options()).is_none());
    assert!(Invoker::new(Os::Windows, Arch::Arm64, false, &options()).is_none());
    assert!(Invoker::new(Os::Windows, Arch::Armv7, true, &options()).is_none());
}

#[test]
fn every_run_opens_by_asking_for_the_binary() {
    let (_, opening) = start(Os::Linux, Arch::X86_64, false);
    assert_eq!(opening, asks_whether(LINUX_BINARY));
    let (_, opening) = start(Os::Windows, Arch::X86_64, true);
    assert_eq!(opening, asks_whether("tailwindcss-windows-x64.exe"));
    let (_, opening) = start(Os::MacOs, Arch::Arm64, true);
    assert_eq!(opening, asks_whether("tailwindcss-macos-arm64"));
}

#[test]
fn empty_directory_on_linux_installs_configures_and_runs() {
    let (actions, result) = drive(
        Os::Linux,
        Arch::X86_64,
        false,
        vec![
            Event::Exists(false),
            Event::Fetched(vec![0x7f, b'E', b'L', b'F']),
            Event::Completed,
            Event::Mode(0o644),
            Event::Completed,
            Event::Exists(false),
            Event::Completed,
            Event::Completed,
            Event::Exited(b"Done in 12ms.".to_vec()),
        ],
    );
    assert_eq!(
        actions,
        vec![
            asks_whether(LINUX_BINARY),
            Action::Fetch { url: LINUX_URL.to_string() },
            Action::WriteFile {
                path: LINUX_BINARY.to_string(),
                contents: vec![0x7f, b'E', b'L', b'F'],
            },
            Action::ReadMode { path: LINUX_BINARY.to_string() },
            Action::SetMode { path: LINUX_BINARY.to_string(), mode: 0o754 },
            asks_whether(CONFIG_FILE),
            Action::WriteFile { path: CONFIG_FILE.to_string(), contents: default_config() },
            spawn("./tailwindcss-linux-x64", &["-i", "a.css", "-o", "b.css"]),
            Action::Wait,
        ]
    );
    assert_eq!(result, Some(Ok(())));
}

#[test]
fn windows_sets_no_permission_bits() {
    let (actions, result) = drive(
        Os::Windows,
        Arch::X86_64,
        true,
        vec![
            Event::Exists(false),
            Event::Fetched(vec![b'M', b'Z']),
            Event::Completed,
            Event::Exists(true),
            Event::Completed,
            Event::Exited(Vec::new()),
        ],
    );
    assert_eq!(
        actions,
        vec![
            asks_whether("tailwindcss-windows-x64.exe"),
            Action::Fetch {
                url: "https://github.com/tailwindlabs/tailwindcss/releases/latest/download/tailwindcss-windows-x64.exe"
                    .to_string(),
            },
            Action::WriteFile {
                path: "tailwindcss-windows-x64.exe".to_string(),
                contents: vec![b'M', b'Z'],
            },
            asks_whether(CONFIG_FILE),
            spawn("./tailwindcss-windows-x64.exe", &["-i", "a.css", "-o", "b.css", "--minify"]),
            Action::Wait,
        ]
    );
    assert_eq!(result, Some(Ok(())));
}

#[test]
fn binary_that_is_there_is_not_fetched() {
    let (actions, result) = drive(
        Os::Linux,
        Arch::Arm64,
        false,
        vec![
            Event::Exists(true),
            Event::Exists(false),
            Event::Completed,
            Event::Completed,
            Event::Exited(b"ok".to_vec()),
        ],
    );
    assert_eq!(
        actions,
        vec![
            asks_whether("tailwindcss-linux-arm64"),
            asks_whether(CONFIG_FILE),
            Action::WriteFile { path: CONFIG_FILE.to_string(), contents: default_config() },
            spawn("./tailwindcss-linux-arm64", &["-i", "a.css", "-o", "b.css"]),
            Action::Wait,
        ]
    );
    assert!(!actions.iter().any(|action| matches!(action, Action::Fetch { .. })));
    assert_eq!(result, Some(Ok(())));
}

#[test]
fn config_that_is_there_is_left_alone() {
    let (actions, result) = drive(
        Os::MacOs,
        Arch::X86_64,
        true,
        vec![
            Event::Exists(true),
            Event::Exists(true),
            Event::Completed,
            Event::Exited(b"Done.".to_vec()),
        ],
    );
    assert_eq!(
        actions,
        vec![
            asks_whether("tailwindcss-macos-x64"),
            asks_whether(CONFIG_FILE),
            spawn("./tailwindcss-macos-x64", &["-i", "a.css", "-o", "b.css", "--minify"]),
            Action::Wait,
        ]
    );
    assert_eq!(result, Some(Ok(())));
}

#[test]
fn the_run_waits_while_events_are_missing() {
    let (actions, result) = drive(Os::Linux, Arch::X86_64, false, vec![]);
    assert_eq!(actions, vec![asks_whether(LINUX_BINARY)]);
    assert_eq!(result, None);
    let (actions, result) = drive(Os::Linux, Arch::X86_64, false, vec![Event::Exists(false)]);
    assert_eq!(actions.len(), 2);
    assert_eq!(result, None);
}

#[test]
fn failed_download_ends_the_run() {
    let (actions, result) =
        drive(Os::Linux, Arch::X86_64, false, vec![Event::Exists(false), Event::Failed]);
    assert_eq!(actions, vec![asks_whether(LINUX_BINARY), Action::Fetch { url: LINUX_URL.to_string() }]);
    assert_eq!(result, Some(Err(ErrorKind::DownloadFailed)));
}

#[test]
fn failed_write_of_the_binary_ends_the_run() {
    let (actions, result) = drive(
        Os::Linux,
        Arch::X86_64,
        false,
        vec![Event::Exists(false), Event::Fetched(vec![1, 2, 3]), Event::Failed],
    );
    assert_eq!(actions.len(), 3);
    assert_eq!(result, Some(Err(ErrorKind::WriteFailed)));
}

#[test]
fn failed_read_of_the_mode_ends_the_run() {
    let (actions, result) = drive(
        Os::Linux,
        Arch::X86_64,
        false,
        vec![Event::Exists(false), Event::Fetched(vec![1]), Event::Completed, Event::Failed],
    );
    assert_eq!(actions.last(), Some(&Action::ReadMode { path: LINUX_BINARY.to_string() }));
    assert_eq!(result, Some(Err(ErrorKind::PermissionFailed)));
}

#[test]
fn failed_change_of_the_mode_ends_the_run() {
    let (actions, result) = drive(
        Os::Linux,
        Arch::X86_64,
        false,
        vec![
            Event::Exists(false),
            Event::Fetched(vec![1]),
            Event::Completed,
            Event::Mode(0o600),
            Event::Failed,
        ],
    );
    assert_eq!(
        actions.last(),
        Some(&Action::SetMode { path: LINUX_BINARY.to_string(), mode: 0o710 })
    );
    assert_eq!(result, Some(Err(ErrorKind::PermissionFailed)));
}

#[test]
fn failed_write_of_the_config_ends_the_run() {
    let (actions, result) = drive(
        Os::Linux,
        Arch::X86_64,
        false,
        vec![Event::Exists(true), Event::Exists(false), Event::Failed],
    );
    assert_eq!(
        actions.last(),
        Some(&Action::WriteFile { path: CONFIG_FILE.to_string(), contents: default_config() })
    );
    assert_eq!(result, Some(Err(ErrorKind::WriteFailed)));
}

#[test]
fn failed_spawn_ends_the_run() {
    let (actions, result) = drive(
        Os::Linux,
        Arch::X86_64,
        false,
        vec![Event::Exists(true), Event::Exists(true), Event::Failed],
    );
    assert_eq!(actions.len(), 3);
    assert_eq!(result, Some(Err(ErrorKind::SpawnFailed)));
}

#[test]
fn failed_wait_ends_the_run() {
    let (actions, result) = drive(
        Os::Linux,
        Arch::X86_64,
        false,
        vec![Event::Exists(true), Event::Exists(true), Event::Completed, Event::Failed],
    );
    assert_eq!(actions.last(), Some(&Action::Wait));
    assert_eq!(result, Some(Err(ErrorKind::WaitFailed)));
}

#[test]
fn error_report_of_the_tool_fails_the_run() {
    let report = "{\"error\":\"Cannot read a.css\"}";
    let (_, result) = drive(
        Os::Linux,
        Arch::X86_64,
        false,
        vec![
            Event::Exists(true),
            Event::Exists(true),
            Event::Completed,
            Event::Exited(report.as_bytes().to_vec()),
        ],
    );
    assert_eq!(result, Some(Err(ErrorKind::ToolReportedError(report.to_string()))));
}

#[test]
fn output_that_is_no_text_is_decoded_with_replacements() {
    let (_, result) = drive(
        Os::Linux,
        Arch::X86_64,
        false,
        vec![
            Event::Exists(true),
            Event::Exists(true),
            Event::Completed,
            Event::Exited(vec![b'{', 0xff]),
        ],
    );
    assert_eq!(result, Some(Err(ErrorKind::ToolReportedError("{\u{fffd}".to_string()))));
}

#[test]
fn a_check_that_is_not_confirmed_counts_as_missing() {
    for answer in [Event::Exists(false), Event::Failed, Event::Completed, Event::Mode(0o755)] {
        let (actions, result) = drive(Os::Linux, Arch::X86_64, false, vec![answer]);
        assert_eq!(actions.last(), Some(&Action::Fetch { url: LINUX_URL.to_string() }));
        assert_eq!(result, None);
    }
    for answer in [Event::Exists(false), Event::Failed, Event::Fetched(vec![])] {
        let (actions, _) = drive(Os::Linux, Arch::X86_64, false, vec![Event::Exists(true), answer]);
        assert_eq!(
            actions.last(),
            Some(&Action::WriteFile { path: CONFIG_FILE.to_string(), contents: default_config() })
        );
    }
}

#[test]
fn an_answer_to_another_question_counts_as_failure() {
    let (_, result) =
        drive(Os::Linux, Arch::X86_64, false, vec![Event::Exists(false), Event::Completed]);
    assert_eq!(result, Some(Err(ErrorKind::DownloadFailed)));
    let (_, result) = drive(
        Os::Linux,
        Arch::X86_64,
        false,
        vec![Event::Exists(false), Event::Fetched(vec![]), Event::Exists(true)],
    );
    assert_eq!(result, Some(Err(ErrorKind::WriteFailed)));
    let (_, result) = drive(
        Os::Linux,
        Arch::X86_64,
        false,
        vec![Event::Exists(true), Event::Exists(true), Event::Completed, Event::Completed],
    );
    assert_eq!(result, Some(Err(ErrorKind::WaitFailed)));
}

#[test]
fn events_after_the_end_are_not_looked_at() {
    let (actions, result) = drive(
        Os::Linux,
        Arch::X86_64,
        false,
        vec![Event::Exists(false), Event::Failed, Event::Fetched(vec![9]), Event::Completed],
    );
    assert_eq!(actions.len(), 2);
    assert_eq!(result, Some(Err(ErrorKind::DownloadFailed)));
}

#[test]
fn fresh_binary_gains_execute_for_owner_and_group_only() {
    let (actions, result) = drive(
        Os::Linux,
        Arch::X86_64,
        false,
        vec![
            Event::Exists(false),
            Event::Fetched(vec![0x7f, 0x45, 0x4c, 0x46]),
            Event::Completed,
            Event::Mode(0o664),
        ],
    );
    assert_eq!(
        actions[2],
        Action::WriteFile {
            path: LINUX_BINARY.to_string(),
            contents: vec![0x7f, 0x45, 0x4c, 0x46],
        }
    );
    assert_eq!(
        actions.last(),
        Some(&Action::SetMode { path: LINUX_BINARY.to_string(), mode: 0o774 })
    );
    assert_eq!(result, None);
}
