use bardic_chord::desktop_entry::{desktop_entry, desktop_entry_name, icon_name};
use bardic_chord::logfile::{truncates_before_write, truncates_on_open, LOG_MAX_BYTES};
use bardic_chord::release::{
    archive_entries, checksum_line, checksum_of, ensure_exists, package_version, parse_args,
    ReleaseTarget, Task,
};

fn parse(args: &[&str]) -> Result<Vec<ReleaseTarget>, String> {
    let args = args.iter().map(|arg| arg.to_string()).collect::<Vec<_>>();
    parse_args(&args).map(|task| match task {
        Task::Release { targets } => targets,
    })
}

const LINUX: ReleaseTarget = ReleaseTarget::LinuxX64;
const WINDOWS: ReleaseTarget = ReleaseTarget::WindowsX64Gnu;

#[test]
fn targets_are_named_on_the_command_line() {
    assert_eq!(parse(&[]), Ok(vec![LINUX, WINDOWS]));
    assert_eq!(parse(&["release"]), Ok(vec![LINUX, WINDOWS]));
    assert_eq!(parse(&["release", "--target", "windows"]), Ok(vec![WINDOWS]));
    assert_eq!(
        parse(&["release", "--target", "windows", "--target", "linux", "--target", "linux"]),
        Ok(vec![WINDOWS, LINUX, LINUX])
    );
    assert_eq!(
        parse(&["release", "--target", "windows", "--target", "all"]),
        Ok(vec![LINUX, WINDOWS])
    );
    assert_eq!(
        parse(&["release", "--target", "all", "--target", "linux"]),
        Ok(vec![LINUX, WINDOWS, LINUX])
    );
}

#[test]
fn other_command_lines_are_refused() {
    assert_eq!(
        parse(&["build"]),
        Err("unknown xtask command `build`; supported: release".into())
    );
    assert_eq!(parse(&["release", "linux"]), Err("unsupported argument `linux`".into()));
    assert_eq!(
        parse(&["release", "--target"]),
        Err("missing value after --target; use linux, windows, or all".into())
    );
    assert_eq!(
        parse(&["release", "--target", "mac"]),
        Err("unsupported target `mac`; use linux, windows, or all".into())
    );
}

#[test]
fn targets_have_their_names() {
    assert_eq!(LINUX.cli_name(), "linux");
    assert_eq!(WINDOWS.cli_name(), "windows");
    assert_eq!(LINUX.archive_name(), "bardic-chord-x86_64-unknown-linux-gnu.tar.xz");
    assert_eq!(WINDOWS.archive_name(), "bardic-chord-x86_64-pc-windows-gnu.zip");
    assert_eq!(LINUX.archive_root("0.1.0"), "bardic-chord-0.1.0-x86_64-unknown-linux-gnu");
    assert_eq!(WINDOWS.archive_root("0.1.0"), "bardic-chord-0.1.0-x86_64-pc-windows-gnu");
    assert_eq!(LINUX.binary_name(), "bardic-chord");
    assert_eq!(WINDOWS.binary_name(), "bardic-chord.exe");
    assert_eq!(LINUX.binary_path(), "target/release/bardic-chord");
    assert_eq!(
        WINDOWS.binary_path(),
        "target/x86_64-pc-windows-gnu/release/bardic-chord.exe"
    );
    assert_eq!(LINUX.build_args(), ["build", "-p", "bardic-chord", "--release"]);
    assert_eq!(
        WINDOWS.build_args(),
        ["zigbuild", "-p", "bardic-chord", "--release", "--target", "x86_64-pc-windows-gnu"]
    );
}

#[test]
fn archives_hold_the_program_and_two_texts() {
    let entries = archive_entries(WINDOWS);
    let shown = entries
        .iter()
        .map(|e| (e.source.as_str(), e.name.as_str(), e.mode))
        .collect::<Vec<_>>();
    assert_eq!(
        shown,
        [
            (
                "target/x86_64-pc-windows-gnu/release/bardic-chord.exe",
                "bardic-chord.exe",
                0o755
            ),
            ("README.md", "README.md", 0o644),
            ("LICENSE", "LICENSE", 0o644),
        ]
    );
}

#[test]
fn the_version_of_a_package_is_found() {
    let packages = vec![
        ("xtask".to_string(), "0.0.0".to_string()),
        ("bardic-chord".to_string(), "0.1.0".to_string()),
        ("bardic-chord".to_string(), "9.9.9".to_string()),
    ];
    assert_eq!(package_version(&packages, "bardic-chord"), Ok("0.1.0".into()));
    assert_eq!(
        package_version(&packages, "other"),
        Err("failed to find package version for `other`".into())
    );
    assert_eq!(ensure_exists(true, "x"), Ok(()));
    assert_eq!(ensure_exists(false, "x"), Err("required file does not exist: x".into()));
}

#[test]
fn checksums_are_those_of_sha256() {
    assert_eq!(
        checksum_of(b"", "empty.zip"),
        "e3b0c44298fc1c149afbf4c8996fb92427ae41e4649b934ca495991b7852b855  empty.zip\n"
    );
    assert_eq!(
        checksum_of(b"abc", "abc.zip"),
        "ba7816bf8f01cfea414140de5dae2223b00361a396177a9cb410ff61f20015ad  abc.zip\n"
    );
    assert_eq!(checksum_line(&[0, 9, 10, 0xff], "x"), "00090aff  x\n");
}

#[test]
fn the_log_is_emptied_in_time() {
    assert!(!truncates_on_open(LOG_MAX_BYTES));
    assert!(truncates_on_open(LOG_MAX_BYTES + 1));
    assert!(!truncates_before_write(LOG_MAX_BYTES - 5, 5));
    assert!(truncates_before_write(LOG_MAX_BYTES - 5, 6));
    assert!(truncates_before_write(u64::MAX, u64::MAX));
    assert!(!truncates_before_write(0, LOG_MAX_BYTES));
}

#[test]
fn the_desktop_entry_starts_the_program() {
    assert_eq!(
        desktop_entry("/opt/bardic"),
        "[Desktop Entry]\nType=Application\nVersion=1.0\nName=Bardic Chord\nComment=A mythical desktop relay for routing desktop audio into Discord voice.\nExec=/opt/bardic\nIcon=bardic-chord\nTerminal=false\nCategories=AudioVideo;Utility;\nStartupWMClass=bardic-chord\nStartupNotify=true\n"
    );
    assert_eq!(desktop_entry_name(), "bardic-chord.desktop");
    assert_eq!(icon_name(), "bardic-chord.png");
}
