//! Building the release archives.
use crate::text;
use crate::text::same;
use sha2::{Digest, Sha256};
use vstd::prelude::*;

verus! {

pub const APP_NAME: &'static str = "bardic-chord";

pub const WINDOWS_TARGET: &'static str = "x86_64-pc-windows-gnu";

/// A platform for which an archive is built.
#[derive(Clone, Copy, Debug, PartialEq, Eq, Structural)]
pub enum ReleaseTarget {
    LinuxX64,
    WindowsX64Gnu,
}

impl ReleaseTarget {
    /// The name of the target on the command line.
    pub fn cli_name(self) -> (r: &'static str)
        ensures
            r@ == match self {
                ReleaseTarget::LinuxX64 => "linux"@,
                ReleaseTarget::WindowsX64Gnu => "windows"@,
            },
    {
        match self {
            ReleaseTarget::LinuxX64 => "linux",
            ReleaseTarget::WindowsX64Gnu => "windows",
        }
    }

    /// The name of the archive.
    pub fn archive_name(self) -> (r: &'static str)
        ensures
            r@ == match self {
                ReleaseTarget::LinuxX64 => "bardic-chord-x86_64-unknown-linux-gnu.tar.xz"@,
                ReleaseTarget::WindowsX64Gnu => "bardic-chord-x86_64-pc-windows-gnu.zip"@,
            },
    {
        match self {
            ReleaseTarget::LinuxX64 => "bardic-chord-x86_64-unknown-linux-gnu.tar.xz",
            ReleaseTarget::WindowsX64Gnu => "bardic-chord-x86_64-pc-windows-gnu.zip",
        }
    }

    /// The directory that the archive holds.
    pub fn archive_root(self, version: &str) -> (r: String)
        ensures
            r@ == APP_NAME@ + "-"@ + version@ + match self {
                ReleaseTarget::LinuxX64 => "-x86_64-unknown-linux-gnu"@,
                ReleaseTarget::WindowsX64Gnu => "-x86_64-pc-windows-gnu"@,
            },
    {
        APP_NAME.to_owned().concat("-").concat(version).concat(
            match self {
                ReleaseTarget::LinuxX64 => "-x86_64-unknown-linux-gnu",
                ReleaseTarget::WindowsX64Gnu => "-x86_64-pc-windows-gnu",
            },
        )
    }

    pub open spec fn program(self) -> Seq<char> {
        match self {
            ReleaseTarget::LinuxX64 => APP_NAME@,
            ReleaseTarget::WindowsX64Gnu => "bardic-chord.exe"@,
        }
    }

    /// The name of the program.
    pub fn binary_name(self) -> (r: &'static str)
        ensures
            r@ == self.program(),
    {
        match self {
            ReleaseTarget::LinuxX64 => APP_NAME,
            ReleaseTarget::WindowsX64Gnu => "bardic-chord.exe",
        }
    }

    pub open spec fn built_program(self) -> Seq<char> {
        match self {
            ReleaseTarget::LinuxX64 => "target/release/bardic-chord"@,
            ReleaseTarget::WindowsX64Gnu => "target/"@ + WINDOWS_TARGET@
                + "/release/bardic-chord.exe"@,
        }
    }

    /// Where the program is built, seen from the root of the workspace.
    pub fn binary_path(self) -> (r: String)
        ensures
            r@ == self.built_program(),
    {
        match self {
            ReleaseTarget::LinuxX64 => "target/release/bardic-chord".to_owned(),
            ReleaseTarget::WindowsX64Gnu => "target/".to_owned().concat(WINDOWS_TARGET).concat(
                "/release/bardic-chord.exe",
            ),
        }
    }

    /// The arguments of `cargo` that build the program.
    pub fn build_args(self) -> (r: Vec<String>)
        ensures
            text::texts(r@) == match self {
                ReleaseTarget::LinuxX64 => seq!["build"@, "-p"@, APP_NAME@, "--release"@],
                ReleaseTarget::WindowsX64Gnu => seq![
                    "zigbuild"@,
                    "-p"@,
                    APP_NAME@,
                    "--release"@,
                    "--target"@,
                    WINDOWS_TARGET@,
                ],
            },
    {
        match self {
            ReleaseTarget::LinuxX64 => {
                let r = vec![
                    "build".to_owned(),
                    "-p".to_owned(),
                    APP_NAME.to_owned(),
                    "--release".to_owned(),
                ];
                assert(text::texts(r@) =~= seq!["build"@, "-p"@, APP_NAME@, "--release"@]);
                r
            },
            ReleaseTarget::WindowsX64Gnu => {
                let r = vec![
                    "zigbuild".to_owned(),
                    "-p".to_owned(),
                    APP_NAME.to_owned(),
                    "--release".to_owned(),
                    "--target".to_owned(),
                    WINDOWS_TARGET.to_owned(),
                ];
                assert(text::texts(r@) =~= seq![
                    "zigbuild"@,
                    "-p"@,
                    APP_NAME@,
                    "--release"@,
                    "--target"@,
                    WINDOWS_TARGET@,
                ]);
                r
            },
        }
    }
}

// ---------------------------------------------------------------------------
// The command line
// ---------------------------------------------------------------------------

/// What is asked for on the command line.
#[derive(Debug)]
pub enum Task {
    Release { targets: Vec<ReleaseTarget> },
}

/// Every target.
pub open spec fn all_targets() -> Seq<ReleaseTarget> {
    seq![ReleaseTarget::LinuxX64, ReleaseTarget::WindowsX64Gnu]
}

/// The targets that the arguments name, after those that were named before.
pub open spec fn named_targets(args: Seq<Seq<char>>, before: Seq<ReleaseTarget>) -> Result<
    Seq<ReleaseTarget>,
    Seq<char>,
>
    decreases args.len(),
{
    if args.len() == 0 {
        Ok(before)
    } else if args[0] != "--target"@ {
        Err("unsupported argument `"@ + args[0] + "`"@)
    } else if args.len() == 1 {
        Err("missing value after --target; use linux, windows, or all"@)
    } else if args[1] == "linux"@ {
        named_targets(args.skip(2), before.push(ReleaseTarget::LinuxX64))
    } else if args[1] == "windows"@ {
        named_targets(args.skip(2), before.push(ReleaseTarget::WindowsX64Gnu))
    } else if args[1] == "all"@ {
        named_targets(args.skip(2), all_targets())
    } else {
        Err("unsupported target `"@ + args[1] + "`; use linux, windows, or all"@)
    }
}

/// The targets that are built, where none is named every one.
pub open spec fn requested_targets(args: Seq<Seq<char>>) -> Result<Seq<ReleaseTarget>, Seq<char>> {
    if args.len() == 0 {
        Ok(all_targets())
    } else if args[0] != "release"@ {
        Err("unknown xtask command `"@ + args[0] + "`; supported: release"@)
    } else {
        match named_targets(args.skip(1), Seq::empty()) {
            Ok(targets) => if targets.len() == 0 {
                Ok(all_targets())
            } else {
                Ok(targets)
            },
            Err(message) => Err(message),
        }
    }
}

fn every_target() -> (r: Vec<ReleaseTarget>)
    ensures
        r@ == all_targets(),
{
    let r = vec![ReleaseTarget::LinuxX64, ReleaseTarget::WindowsX64Gnu];
    assert(r@ =~= all_targets());
    r
}

/// Reads the arguments that follow the name of the program.
pub fn parse_args(args: &Vec<String>) -> (r: Result<Task, String>)
    ensures
        match r {
            Ok(Task::Release { targets }) => requested_targets(text::texts(args@)) == Ok::<
                Seq<ReleaseTarget>,
                Seq<char>,
            >(targets@),
            Err(message) => requested_targets(text::texts(args@)) == Err::<
                Seq<ReleaseTarget>,
                Seq<char>,
            >(message@),
        },
{
    let ghost all = text::texts(args@);
    if args.len() == 0 {
        return Ok(Task::Release { targets: every_target() });
    }
    assert(all[0] == args@[0]@);
    if !same(args[0].as_str(), "release") {
        return Err(
            "unknown xtask command `".to_owned().concat(args[0].as_str()).concat(
                "`; supported: release",
            ),
        );
    }
    let count: usize = args.len();
    let mut targets: Vec<ReleaseTarget> = Vec::new();
    let mut i: usize = 1;
    let ghost whole = named_targets(all.skip(1), Seq::empty());
    while i < count
        invariant
            1 <= i <= count,
            count == args@.len(),
            all == text::texts(args@),
            all[0] == "release"@,
            whole == named_targets(all.skip(1), Seq::empty()),
            named_targets(all.skip(i as int), targets@) == whole,
        decreases count - i,
    {
        let ghost left = all.skip(i as int);
        assert(left[0] == args@[i as int]@);
        if !same(args[i].as_str(), "--target") {
            return Err("unsupported argument `".to_owned().concat(args[i].as_str()).concat("`"));
        }
        if i + 1 == count {
            return Err("missing value after --target; use linux, windows, or all".to_owned());
        }
        assert(left[1] == args@[i + 1]@);
        assert(left.skip(2) =~= all.skip(i + 2));
        let value = args[i + 1].as_str();
        if same(value, "linux") {
            targets.push(ReleaseTarget::LinuxX64);
        } else if same(value, "windows") {
            targets.push(ReleaseTarget::WindowsX64Gnu);
        } else if same(value, "all") {
            targets = every_target();
        } else {
            return Err(
                "unsupported target `".to_owned().concat(value).concat(
                    "`; use linux, windows, or all",
                ),
            );
        }
        i += 2;
    }
    assert(all.skip(i as int).len() == 0);
    if targets.len() == 0 {
        targets = every_target();
    }
    Ok(Task::Release { targets })
}

// ---------------------------------------------------------------------------
// Archives
// ---------------------------------------------------------------------------

/// A file that goes into an archive.
#[derive(Debug)]
pub struct ArchiveEntry {
    /// Where it is, seen from the root of the workspace.
    pub source: String,
    /// Its name in the directory that the archive holds.
    pub name: String,
    pub mode: u32,
}

#[verifier::ext_equal]
pub struct EntryView {
    pub source: Seq<char>,
    pub name: Seq<char>,
    pub mode: u32,
}

impl View for ArchiveEntry {
    type V = EntryView;

    open spec fn view(&self) -> EntryView {
        EntryView { source: self.source@, name: self.name@, mode: self.mode }
    }
}

/// The files that go into the archive: the program, which can be run, and two texts.
pub fn archive_entries(target: ReleaseTarget) -> (r: Vec<ArchiveEntry>)
    ensures
        r@.map_values(|e: ArchiveEntry| e@) == seq![
            EntryView { source: target.built_program(), name: target.program(), mode: 0o755 },
            EntryView { source: "README.md"@, name: "README.md"@, mode: 0o644 },
            EntryView { source: "LICENSE"@, name: "LICENSE"@, mode: 0o644 },
        ],
{
    let r = vec![
        ArchiveEntry {
            source: target.binary_path(),
            name: target.binary_name().to_owned(),
            mode: 0o755,
        },
        ArchiveEntry { source: "README.md".to_owned(), name: "README.md".to_owned(), mode: 0o644 },
        ArchiveEntry { source: "LICENSE".to_owned(), name: "LICENSE".to_owned(), mode: 0o644 },
    ];
    assert(r@.map_values(|e: ArchiveEntry| e@) =~= seq![
        EntryView { source: target.built_program(), name: target.program(), mode: 0o755 },
        EntryView { source: "README.md"@, name: "README.md"@, mode: 0o644 },
        EntryView { source: "LICENSE"@, name: "LICENSE"@, mode: 0o644 },
    ]);
    r
}

/// The version of the first package with the name.
pub open spec fn version_of(packages: Seq<(String, String)>, name: Seq<char>) -> Option<Seq<char>>
    decreases packages.len(),
{
    if packages.len() == 0 {
        None
    } else {
        match version_of(packages.drop_last(), name) {
            Some(version) => Some(version),
            None => if packages.last().0@ == name {
                Some(packages.last().1@)
            } else {
                None
            },
        }
    }
}

/// The version of a package, given the names and the versions of the workspace.
pub fn package_version(packages: &Vec<(String, String)>, package_name: &str) -> (r: Result<
    String,
    String,
>)
    ensures
        match r {
            Ok(version) => version_of(packages@, package_name@) == Some(version@),
            Err(message) => version_of(packages@, package_name@) is None && message@
                == "failed to find package version for `"@ + package_name@ + "`"@,
        },
{
    let mut i: usize = 0;
    let mut found: Option<String> = None;
    assert(packages@.take(0) =~= Seq::<(String, String)>::empty());
    while i < packages.len()
        invariant
            i <= packages@.len(),
            text::opt(found) == version_of(packages@.take(i as int), package_name@),
        decreases packages@.len() - i,
    {
        assert(packages@.take(i + 1).drop_last() =~= packages@.take(i as int));
        let package = &packages[i];
        if found.is_none() && same(package.0.as_str(), package_name) {
            found = Some(package.1.clone());
        }
        i += 1;
    }
    assert(packages@.take(i as int) =~= packages@);
    match found {
        Some(version) => Ok(version),
        None => Err(
            "failed to find package version for `".to_owned().concat(package_name).concat("`"),
        ),
    }
}

/// A file that has to be there.
pub fn ensure_exists(exists: bool, path: &str) -> (r: Result<(), String>)
    ensures
        match r {
            Ok(_) => exists,
            Err(message) => !exists && message@ == "required file does not exist: "@ + path@,
        },
{
    if exists {
        Ok(())
    } else {
        Err("required file does not exist: ".to_owned().concat(path))
    }
}

// ---------------------------------------------------------------------------
// Checksums
// ---------------------------------------------------------------------------

/// The SHA-256 digest of the bytes.
pub uninterp spec fn sha256_digest(bytes: Seq<u8>) -> Seq<u8>;

/// `sha2::Digest::digest` of `sha2::Sha256`.
///
/// The result has 32 bytes, and the bytes that are hashed decide it.
#[verifier::external_body]
fn sha256(bytes: &[u8]) -> (r: Vec<u8>)
    ensures
        r@ == sha256_digest(bytes@),
        r@.len() == 32,
{
    Sha256::digest(bytes).to_vec()
}

/// A digit of a number in base sixteen.
pub open spec fn hex_digit(value: int) -> char {
    if value < 10 {
        (48 + value) as char
    } else {
        (87 + value) as char
    }
}

/// The bytes in base sixteen, two digits for each.
pub open spec fn hex(bytes: Seq<u8>) -> Seq<char> {
    Seq::new(
        2 * bytes.len(),
        |i: int|
            if i % 2 == 0 {
                hex_digit(bytes[i / 2] as int / 16)
            } else {
                hex_digit(bytes[i / 2] as int % 16)
            },
    )
}

fn hex_char(value: u8) -> (r: char)
    requires
        value < 16,
    ensures
        r == hex_digit(value as int),
{
    if value < 10 {
        (48 + value) as char
    } else {
        (87 + value) as char
    }
}

/// The line of a checksum file for a file with the digest.
pub fn checksum_line(digest: &[u8], file_name: &str) -> (r: String)
    ensures
        r@ == hex(digest@) + "  "@ + file_name@ + "\n"@,
{
    let count: usize = digest.len();
    let mut digits = String::new();
    let mut i: usize = 0;
    assert(digits@ =~= hex(digest@.take(0)));
    while i < count
        invariant
            i <= count,
            count == digest@.len(),
            digits@ == hex(digest@.take(i as int)),
        decreases count - i,
    {
        let byte: u8 = digest[i];
        let ghost before = digits@;
        digits.push(hex_char(byte / 16));
        digits.push(hex_char(byte % 16));
        assert(digits@ =~= hex(digest@.take(i + 1))) by {
            assert forall|k: int| 0 <= k < 2 * i implies #[trigger] before[k] == hex(
                digest@.take(i + 1),
            )[k] by {
                assert(digest@.take(i as int)[k / 2] == digest@.take(i + 1)[k / 2]);
            }
        }
        i += 1;
    }
    assert(digest@.take(i as int) =~= digest@);
    digits.concat("  ").concat(file_name).concat("\n")
}

/// The line of a checksum file for a file with the contents.
pub fn checksum_of(contents: &[u8], file_name: &str) -> (r: String)
    ensures
        r@ == hex(sha256_digest(contents@)) + "  "@ + file_name@ + "\n"@,
{
    let digest = sha256(contents);
    checksum_line(digest.as_slice(), file_name)
}

// ---------------------------------------------------------------------------
// Laws
// ---------------------------------------------------------------------------

/// A release that is accepted builds something.
pub proof fn accepted_release_builds_something(args: Seq<Seq<char>>)
    ensures
        requested_targets(args) is Ok ==> requested_targets(args)->Ok_0.len() > 0,
{
}

/// Naming every target takes back what was named before.
pub proof fn all_replaces_earlier_targets(args: Seq<Seq<char>>, before: Seq<ReleaseTarget>)
    ensures
        named_targets(seq!["--target"@, "all"@] + args, before) == named_targets(
            args,
            all_targets(),
        ),
{
    let whole = seq!["--target"@, "all"@] + args;
    reveal_strlit("linux");
    reveal_strlit("windows");
    reveal_strlit("all");
    assert("all"@.len() == 3);
    assert("linux"@.len() == 5);
    assert("windows"@.len() == 7);
    assert(whole.skip(2) =~= args);
}

/// Different digests are written differently.
pub proof fn hex_is_injective(a: Seq<u8>, b: Seq<u8>)
    requires
        hex(a) == hex(b),
    ensures
        a == b,
{
    assert(hex(a).len() == 2 * a.len());
    assert(hex(b).len() == 2 * b.len());
    assert forall|i: int| 0 <= i < a.len() implies a[i] == b[i] by {
        assert(hex(a)[2 * i] == hex(b)[2 * i]);
        assert(hex(a)[2 * i + 1] == hex(b)[2 * i + 1]);
        assert((2 * i) / 2 == i && (2 * i) % 2 == 0);
        assert((2 * i + 1) / 2 == i && (2 * i + 1) % 2 == 1);
        assert(hex(a)[2 * i] == hex_digit(a[i] as int / 16));
        assert(hex(b)[2 * i] == hex_digit(b[i] as int / 16));
        assert(hex(a)[2 * i + 1] == hex_digit(a[i] as int % 16));
        assert(hex(b)[2 * i + 1] == hex_digit(b[i] as int % 16));
        lemma_hex_digit(a[i] as int / 16, b[i] as int / 16);
        lemma_hex_digit(a[i] as int % 16, b[i] as int % 16);
    }
    assert(a =~= b);
}

proof fn lemma_hex_digit(a: int, b: int)
    requires
        0 <= a < 16,
        0 <= b < 16,
        hex_digit(a) == hex_digit(b),
    ensures
        a == b,
{
}

/// The name of a target on the command line.
pub open spec fn target_name(target: ReleaseTarget) -> Seq<char> {
    match target {
        ReleaseTarget::LinuxX64 => seq!['l', 'i', 'n', 'u', 'x'],
        ReleaseTarget::WindowsX64Gnu => seq!['w', 'i', 'n', 'd', 'o', 'w', 's'],
    }
}

/// The arguments that ask for the targets, one after another.
pub open spec fn asking_for(targets: Seq<ReleaseTarget>) -> Seq<Seq<char>>
    decreases targets.len(),
{
    if targets.len() == 0 {
        seq![]
    } else {
        seq!["--target"@, target_name(targets[0])] + asking_for(targets.drop_first())
    }
}

proof fn lemma_asked_targets(
    targets: Seq<ReleaseTarget>,
    before: Seq<ReleaseTarget>,
    rest: Seq<Seq<char>>,
)
    ensures
        named_targets(asking_for(targets) + rest, before) == named_targets(rest, before + targets),
    decreases targets.len(),
{
    reveal_strlit("linux");
    reveal_strlit("windows");
    assert("linux"@ =~= target_name(ReleaseTarget::LinuxX64));
    assert("windows"@ =~= target_name(ReleaseTarget::WindowsX64Gnu));
    assert("linux"@.len() != "windows"@.len());
    if targets.len() == 0 {
        assert(asking_for(targets) + rest =~= rest);
        assert(before + targets =~= before);
    } else {
        let later = targets.drop_first();
        let args = asking_for(targets) + rest;
        lemma_asked_targets(later, before.push(targets[0]), rest);
        assert(args.skip(2) =~= asking_for(later) + rest);
        assert(args[0] == "--target"@ && args[1] == target_name(targets[0]));
        assert(before.push(targets[0]) + later =~= before + targets);
    }
}

/// The targets that are asked for are built, in the order in which they are named and
/// as often; where none is, each is built once.
pub proof fn asked_targets_are_built(targets: Seq<ReleaseTarget>)
    ensures
        targets.len() > 0 ==> requested_targets(seq!["release"@] + asking_for(targets)) == Ok::<
            Seq<ReleaseTarget>,
            Seq<char>,
        >(targets),
        requested_targets(seq!["release"@]) == Ok::<Seq<ReleaseTarget>, Seq<char>>(
            seq![ReleaseTarget::LinuxX64, ReleaseTarget::WindowsX64Gnu],
        ),
        requested_targets(seq![]) == Ok::<Seq<ReleaseTarget>, Seq<char>>(
            seq![ReleaseTarget::LinuxX64, ReleaseTarget::WindowsX64Gnu],
        ),
{
    let none = Seq::<ReleaseTarget>::empty();
    let args = seq!["release"@] + asking_for(targets);
    lemma_asked_targets(targets, none, Seq::empty());
    assert(args.skip(1) =~= asking_for(targets) + Seq::<Seq<char>>::empty());
    assert(none + targets =~= targets);
    assert(seq!["release"@].skip(1) =~= Seq::<Seq<char>>::empty());
}

/// Any other command is refused, and so is, wherever it stands, any other argument, any
/// other target, and a target that is missing.
pub proof fn unknown_words_are_refused(
    targets: Seq<ReleaseTarget>,
    word: Seq<char>,
    rest: Seq<Seq<char>>,
)
    ensures
        word != "release"@ ==> requested_targets(seq![word] + rest) is Err && text::occurs(
            requested_targets(seq![word] + rest)->Err_0,
            word,
        ),
        word != "--target"@ ==> requested_targets(
            seq!["release"@] + (asking_for(targets) + (seq![word] + rest)),
        ) is Err,
        word != target_name(ReleaseTarget::LinuxX64) && word != target_name(
            ReleaseTarget::WindowsX64Gnu,
        ) && word != "all"@ ==> requested_targets(
            seq!["release"@] + (asking_for(targets) + (seq!["--target"@, word] + rest)),
        ) is Err,
        requested_targets(seq!["release"@] + (asking_for(targets) + seq!["--target"@])) is Err,
{
    reveal_strlit("linux");
    reveal_strlit("windows");
    assert("linux"@ =~= target_name(ReleaseTarget::LinuxX64));
    assert("windows"@ =~= target_name(ReleaseTarget::WindowsX64Gnu));
    let none = Seq::<ReleaseTarget>::empty();
    let first = seq![word] + rest;
    let second = seq!["--target"@, word] + rest;
    let third = seq!["--target"@];
    assert(first[0] == word);
    assert(second[0] == "--target"@ && second[1] == word);
    if word != "release"@ {
        text::part_occurs("unknown xtask command `"@, word, "`; supported: release"@);
    }
    lemma_asked_targets(targets, none, first);
    lemma_asked_targets(targets, none, second);
    lemma_asked_targets(targets, none, third);
    assert((seq!["release"@] + (asking_for(targets) + first)).skip(1) =~= asking_for(targets)
        + first);
    assert((seq!["release"@] + (asking_for(targets) + second)).skip(1) =~= asking_for(targets)
        + second);
    assert((seq!["release"@] + (asking_for(targets) + third)).skip(1) =~= asking_for(targets)
        + third);
}

/// A package has the version that stands with its name, and of two such packages the
/// first one counts.
pub proof fn version_is_that_of_the_package(packages: Seq<(String, String)>, name: Seq<char>)
    ensures
        match version_of(packages, name) {
            Some(version) => exists|k: int|
                {
                    &&& 0 <= k < packages.len()
                    &&& (#[trigger] packages[k]).0@ == name
                    &&& packages[k].1@ == version
                    &&& forall|j: int| 0 <= j < k ==> (#[trigger] packages[j]).0@ != name
                },
            None => forall|k: int| 0 <= k < packages.len() ==> (#[trigger] packages[k]).0@ != name,
        },
    decreases packages.len(),
{
    if packages.len() > 0 {
        let before = packages.drop_last();
        version_is_that_of_the_package(before, name);
        if let Some(version) = version_of(before, name) {
            let k = choose|k: int|
                {
                    &&& 0 <= k < before.len()
                    &&& (#[trigger] before[k]).0@ == name
                    &&& before[k].1@ == version
                    &&& forall|j: int| 0 <= j < k ==> (#[trigger] before[j]).0@ != name
                };
            assert(packages[k] == before[k]);
            assert forall|j: int| 0 <= j < k implies (#[trigger] packages[j]).0@ != name by {
                assert(before[j] == packages[j]);
            }
        } else {
            assert forall|j: int| 0 <= j < before.len() implies (#[trigger] packages[j]).0@
                != name by {
                assert(before[j] == packages[j]);
            }
            assert(packages[packages.len() - 1] == packages.last());
        }
    }
}

/// The value of a digit in base sixteen.
pub open spec fn hex_value(c: char) -> int {
    if c <= '9' {
        c as int - '0' as int
    } else {
        c as int - 'a' as int + 10
    }
}

/// Each byte is written with two small digits in base sixteen, the higher one first.
pub proof fn bytes_are_written_in_base_sixteen(bytes: Seq<u8>, i: int)
    requires
        0 <= i < bytes.len(),
    ensures
        hex(bytes).len() == 2 * bytes.len(),
        ({
            let high = hex(bytes)[2 * i];
            let low = hex(bytes)[2 * i + 1];
            &&& '0' <= high <= '9' || 'a' <= high <= 'f'
            &&& '0' <= low <= '9' || 'a' <= low <= 'f'
            &&& 16 * hex_value(high) + hex_value(low) == bytes[i]
        }),
{
    assert((2 * i) / 2 == i && (2 * i) % 2 == 0);
    assert((2 * i + 1) / 2 == i && (2 * i + 1) % 2 == 1);
    assert(hex(bytes)[2 * i] == hex_digit(bytes[i] as int / 16));
    assert(hex(bytes)[2 * i + 1] == hex_digit(bytes[i] as int % 16));
}

/// The Windows program is built for its own target, and the two archives never hold
/// programs of one name.
pub proof fn targets_have_their_own_programs()
    ensures
        ReleaseTarget::LinuxX64.program() != ReleaseTarget::WindowsX64Gnu.program(),
        text::occurs(ReleaseTarget::WindowsX64Gnu.built_program(), WINDOWS_TARGET@),
{
    reveal_strlit("bardic-chord");
    reveal_strlit("bardic-chord.exe");
    assert("bardic-chord"@.len() != "bardic-chord.exe"@.len());
    text::part_occurs("target/"@, WINDOWS_TARGET@, "/release/bardic-chord.exe"@);
}

} // verus!
