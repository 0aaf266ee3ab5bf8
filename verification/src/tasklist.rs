//! Reading the process list that `tasklist` prints on Windows.
use crate::command::{CommandOutcome, OutcomeView};
use crate::names;
use crate::names::process_name_matches_target;
use crate::number;
use crate::number::{parse_u32, to_decimal};
use crate::text;
use crate::text::{CharClass, is_blank, lines_of, split_text, strip_class, to_ascii_lowercase, trim};
use std::collections::HashMap;
use vstd::prelude::*;

verus! {

pub const WINDOWS_TASKLIST_ARGS: [&'static str; 3] = ["/fo", "csv", "/nh"];

/// A process from which audio may be captured.
#[derive(Debug, PartialEq, Eq)]
pub struct WindowsProcessCandidate {
    pub image_name: String,
    pub pid: u32,
}

#[verifier::ext_equal]
pub struct CandidateView {
    pub image_name: Seq<char>,
    pub pid: u32,
}

impl View for WindowsProcessCandidate {
    type V = CandidateView;

    open spec fn view(&self) -> CandidateView {
        CandidateView { image_name: self.image_name@, pid: self.pid }
    }
}

impl Clone for WindowsProcessCandidate {
    fn clone(&self) -> (r: WindowsProcessCandidate)
        ensures
            r@ == self@,
    {
        WindowsProcessCandidate { image_name: self.image_name.clone(), pid: self.pid }
    }
}

pub open spec fn candidate_views(candidates: Seq<WindowsProcessCandidate>) -> Seq<CandidateView> {
    candidates.map_values(|c: WindowsProcessCandidate| c@)
}

pub fn clone_candidates(candidates: &Vec<WindowsProcessCandidate>) -> (r: Vec<
    WindowsProcessCandidate,
>)
    ensures
        candidate_views(r@) == candidate_views(candidates@),
{
    let mut r: Vec<WindowsProcessCandidate> = Vec::new();
    let mut i: usize = 0;
    while i < candidates.len()
        invariant
            i <= candidates@.len(),
            r@.len() == i,
            forall|k: int| 0 <= k < i ==> (#[trigger] r@[k])@ == candidates@[k]@,
        decreases candidates@.len() - i,
    {
        r.push(candidates[i].clone());
        i += 1;
    }
    assert(candidate_views(r@) =~= candidate_views(candidates@));
    r
}

// ---------------------------------------------------------------------------
// Lines
// ---------------------------------------------------------------------------

/// The process of which a line speaks: the first column holds its image and the
/// second its number.
pub open spec fn process_of_line(line: Seq<char>) -> Option<CandidateView> {
    let columns = text::split(line, "\",\""@);
    if columns.len() < 2 {
        None
    } else {
        match number::parse_unsigned(text::strip(columns[1], CharClass::Quote), u32::MAX as nat) {
            Ok(pid) => Some(
                CandidateView {
                    image_name: text::strip(columns[0], CharClass::Quote),
                    pid: pid as u32,
                },
            ),
            Err(_) => None,
        }
    }
}

/// The process of which a line speaks, if its image has the name of the target.
pub open spec fn match_of_line(line: Seq<char>, target: Seq<char>) -> Option<CandidateView> {
    match process_of_line(line) {
        Some(process) if names::matches_target(
            process.image_name,
            text::lowered(text::trimmed(target)),
        ) => Some(process),
        _ => None,
    }
}

/// The processes of the list.
pub open spec fn processes(stdout: Seq<char>) -> Seq<CandidateView> {
    text::lines(stdout).filter_map(|line: Seq<char>| process_of_line(line))
}

/// The processes of the list that have the name of the target.
pub open spec fn matches(stdout: Seq<char>, target: Seq<char>) -> Seq<CandidateView> {
    text::lines(stdout).filter_map(|line: Seq<char>| match_of_line(line, target))
}

/// The first process with the number.
pub open spec fn first_with_pid(found: Seq<CandidateView>, pid: u32) -> Option<CandidateView>
    decreases found.len(),
{
    if found.len() == 0 {
        None
    } else {
        match first_with_pid(found.drop_last(), pid) {
            Some(process) => Some(process),
            None => if found.last().pid == pid {
                Some(found.last())
            } else {
                None
            },
        }
    }
}

pub fn parse_windows_tasklist_process_line(line: &str) -> (r: Option<WindowsProcessCandidate>)
    ensures
        match r {
            Some(process) => process_of_line(line@) == Some(process@),
            None => process_of_line(line@) is None,
        },
{
    proof {
        reveal_strlit("\",\"");
    }
    let columns = split_text(line, "\",\"");
    assert(text::texts(columns@).len() == columns@.len());
    if columns.len() < 2 {
        return None;
    }
    assert(text::texts(columns@)[0] == columns@[0]@);
    assert(text::texts(columns@)[1] == columns@[1]@);
    let image_name = strip_class(columns[0].as_str(), CharClass::Quote).to_owned();
    match parse_u32(strip_class(columns[1].as_str(), CharClass::Quote)) {
        Ok(pid) => Some(WindowsProcessCandidate { image_name, pid }),
        Err(_) => None,
    }
}

/// A blank line speaks of no process.
pub proof fn blank_line_has_no_process(line: Seq<char>)
    requires
        text::blank(line),
    ensures
        process_of_line(line) is None,
{
    reveal_strlit("\",\"");
    text::blank_is_all_space(line);
    let mark = "\",\""@;
    assert(!text::is_space(mark[0]));
    text::split_without_separator(line, mark);
}

fn parse_windows_tasklist_match_line(line: &str, capture_target: &str) -> (r: Option<
    WindowsProcessCandidate,
>)
    ensures
        match r {
            Some(process) => match_of_line(line@, capture_target@) == Some(process@),
            None => match_of_line(line@, capture_target@) is None,
        },
{
    if is_blank(line) {
        proof {
            blank_line_has_no_process(line@);
        }
        return None;
    }
    let wanted = to_ascii_lowercase(trim(capture_target));
    match parse_windows_tasklist_process_line(line) {
        Some(process) => if process_name_matches_target(
            process.image_name.as_str(),
            wanted.as_str(),
        ) {
            Some(process)
        } else {
            None
        },
        None => None,
    }
}

// ---------------------------------------------------------------------------
// Lists
// ---------------------------------------------------------------------------

pub fn parse_windows_tasklist_for_target_candidates(stdout: &str, capture_target: &str) -> (r: Vec<
    WindowsProcessCandidate,
>)
    ensures
        candidate_views(r@) == matches(stdout@, capture_target@),
{
    let lines = lines_of(stdout);
    let ghost all = text::lines(stdout@);
    let ghost reads = |line: Seq<char>| match_of_line(line, capture_target@);
    let mut r: Vec<WindowsProcessCandidate> = Vec::new();
    let mut i: usize = 0;
    assert(text::texts(lines@).len() == lines@.len());
    assert(candidate_views(r@) =~= all.take(0).filter_map(reads)) by {
        reveal(Seq::filter_map);
    }
    while i < lines.len()
        invariant
            i <= lines@.len(),
            all == text::texts(lines@),
            reads == (|line: Seq<char>| match_of_line(line, capture_target@)),
            candidate_views(r@) == all.take(i as int).filter_map(reads),
        decreases lines@.len() - i,
    {
        assert(all[i as int] == lines@[i as int]@);
        let ghost before = r@;
        proof {
            all.lemma_filter_map_take_succ(reads, i as int);
        }
        if let Some(process) = parse_windows_tasklist_match_line(
            lines[i].as_str(),
            capture_target,
        ) {
            r.push(process);
            assert(candidate_views(r@) =~= candidate_views(before) + seq![process@]);
        }
        i += 1;
    }
    assert(all.take(i as int) =~= all);
    r
}

pub fn parse_windows_tasklist_for_target_pid(stdout: &str, capture_target: &str) -> (r: Option<u32>)
    ensures
        r == if matches(stdout@, capture_target@).len() > 0 {
            Some(matches(stdout@, capture_target@)[0].pid)
        } else {
            None
        },
{
    let found = parse_windows_tasklist_for_target_candidates(stdout, capture_target);
    assert(candidate_views(found@).len() == found@.len());
    if found.len() > 0 {
        assert(candidate_views(found@)[0] == found@[0]@);
        Some(found[0].pid)
    } else {
        None
    }
}

/// The processes of the list, blank lines and all.
fn parse_windows_tasklist(stdout: &str) -> (r: Vec<WindowsProcessCandidate>)
    ensures
        candidate_views(r@) == processes(stdout@),
{
    let lines = lines_of(stdout);
    let ghost all = text::lines(stdout@);
    let ghost reads = |line: Seq<char>| process_of_line(line);
    let mut r: Vec<WindowsProcessCandidate> = Vec::new();
    let mut i: usize = 0;
    assert(text::texts(lines@).len() == lines@.len());
    assert(candidate_views(r@) =~= all.take(0).filter_map(reads)) by {
        reveal(Seq::filter_map);
    }
    while i < lines.len()
        invariant
            i <= lines@.len(),
            all == text::texts(lines@),
            reads == (|line: Seq<char>| process_of_line(line)),
            candidate_views(r@) == all.take(i as int).filter_map(reads),
        decreases lines@.len() - i,
    {
        assert(all[i as int] == lines@[i as int]@);
        let ghost before = r@;
        proof {
            all.lemma_filter_map_take_succ(reads, i as int);
        }
        if let Some(process) = parse_windows_tasklist_process_line(lines[i].as_str()) {
            r.push(process);
            assert(candidate_views(r@) =~= candidate_views(before) + seq![process@]);
        }
        i += 1;
    }
    assert(all.take(i as int) =~= all);
    r
}

/// The first process with the number.
pub fn find_candidate(found: &Vec<WindowsProcessCandidate>, pid: u32) -> (r: Option<
    WindowsProcessCandidate,
>)
    ensures
        match r {
            Some(process) => first_with_pid(candidate_views(found@), pid) == Some(process@),
            None => first_with_pid(candidate_views(found@), pid) is None,
        },
{
    let ghost all = candidate_views(found@);
    let mut i: usize = 0;
    while i < found.len()
        invariant
            i <= found@.len(),
            all == candidate_views(found@),
            first_with_pid(all.take(i as int), pid) is None,
        decreases found@.len() - i,
    {
        assert(all[i as int] == found@[i as int]@);
        assert(all.take(i + 1).drop_last() =~= all.take(i as int));
        if found[i].pid == pid {
            proof {
                lemma_first_with_pid_stays(all, pid, i + 1);
            }
            return Some(found[i].clone());
        }
        i += 1;
    }
    assert(all.take(i as int) =~= all);
    None
}

proof fn lemma_first_with_pid_stays(found: Seq<CandidateView>, pid: u32, n: int)
    requires
        0 <= n <= found.len(),
        first_with_pid(found.take(n), pid) is Some,
    ensures
        first_with_pid(found, pid) == first_with_pid(found.take(n), pid),
    decreases found.len() - n,
{
    if n < found.len() {
        assert(found.take(n + 1).drop_last() =~= found.take(n));
        lemma_first_with_pid_stays(found, pid, n + 1);
    } else {
        assert(found.take(n) =~= found);
    }
}

pub fn parse_windows_tasklist_for_pid(stdout: &str, target_pid: u32) -> (r: Option<
    WindowsProcessCandidate,
>)
    ensures
        match r {
            Some(process) => first_with_pid(processes(stdout@), target_pid) == Some(process@),
            None => first_with_pid(processes(stdout@), target_pid) is None,
        },
{
    find_candidate(&parse_windows_tasklist(stdout), target_pid)
}

/// The image of each process. A number that is listed twice has the later one.
pub open spec fn images(found: Seq<CandidateView>) -> Map<u32, Seq<char>>
    decreases found.len(),
{
    if found.len() == 0 {
        Map::empty()
    } else {
        images(found.drop_last()).insert(found.last().pid, found.last().image_name)
    }
}

/// The characters of the values.
pub open spec fn image_texts(map: Map<u32, String>) -> Map<u32, Seq<char>> {
    map.map_values(|image: String| image@)
}

/// The image of each process of the list.
pub fn parse_windows_process_map(stdout: &str) -> (r: HashMap<u32, String>)
    ensures
        image_texts(r@) == images(processes(stdout@)),
{
    let found = parse_windows_tasklist(stdout);
    let ghost all = candidate_views(found@);
    let mut r: HashMap<u32, String> = HashMap::new();
    let mut i: usize = 0;
    assert(image_texts(r@) =~= images(all.take(0)));
    while i < found.len()
        invariant
            i <= found@.len(),
            all == candidate_views(found@),
            image_texts(r@) == images(all.take(i as int)),
        decreases found@.len() - i,
    {
        let ghost before = r@;
        assert(all[i as int] == found@[i as int]@);
        assert(all.take(i + 1).drop_last() =~= all.take(i as int));
        r.insert(found[i].pid, found[i].image_name.clone());
        assert(image_texts(r@) =~= image_texts(before).insert(
            all[i as int].pid,
            all[i as int].image_name,
        ));
        i += 1;
    }
    assert(all.take(i as int) =~= all);
    r
}

// ---------------------------------------------------------------------------
// Running the command
// ---------------------------------------------------------------------------

/// What is said where the list could not be had while looking for `subject`.
pub open spec fn tasklist_failure(outcome: OutcomeView, subject: Seq<char>) -> Seq<char> {
    match outcome {
        OutcomeView::NotRun(error) => "failed to run tasklist while "@ + subject + ": "@ + error,
        OutcomeView::Failed(stderr) => "tasklist failed while "@ + subject + ": "@ + text::trimmed(
            stderr,
        ),
        OutcomeView::Done(_) => Seq::empty(),
    }
}

fn tasklist_output(outcome: CommandOutcome, subject: &str) -> (r: Result<String, String>)
    ensures
        match r {
            Ok(stdout) => outcome@ == OutcomeView::Done(stdout@),
            Err(message) => !(outcome@ is Done) && message@ == tasklist_failure(
                outcome@,
                subject@,
            ),
        },
{
    match outcome {
        CommandOutcome::NotRun(error) => Err(
            "failed to run tasklist while ".to_owned().concat(subject).concat(": ").concat(
                error.as_str(),
            ),
        ),
        CommandOutcome::Failed(stderr) => Err(
            "tasklist failed while ".to_owned().concat(subject).concat(": ").concat(
                trim(stderr.as_str()),
            ),
        ),
        CommandOutcome::Done(stdout) => Ok(stdout),
    }
}

/// The processes that have the name of the target, once `tasklist` has run.
pub fn find_windows_target_process_candidates(outcome: CommandOutcome, capture_target: &str) -> (r:
    Result<Vec<WindowsProcessCandidate>, String>)
    ensures
        match r {
            Ok(found) => outcome@ is Done && candidate_views(found@) == matches(
                outcome@->Done_0,
                capture_target@,
            ),
            Err(message) => !(outcome@ is Done) && message@ == tasklist_failure(
                outcome@,
                "looking for `"@ + capture_target@ + "`"@,
            ),
        },
{
    let subject = "looking for `".to_owned().concat(capture_target).concat("`");
    match tasklist_output(outcome, subject.as_str()) {
        Ok(stdout) => Ok(
            parse_windows_tasklist_for_target_candidates(stdout.as_str(), capture_target),
        ),
        Err(message) => Err(message),
    }
}

/// The process with the number, once `tasklist` has run.
pub fn find_windows_process_candidate_by_pid(outcome: CommandOutcome, target_pid: u32) -> (r: Result<
    Option<WindowsProcessCandidate>,
    String,
>)
    ensures
        match r {
            Ok(found) => {
                &&& outcome@ is Done
                &&& match found {
                    Some(process) => first_with_pid(processes(outcome@->Done_0), target_pid)
                        == Some(process@),
                    None => first_with_pid(processes(outcome@->Done_0), target_pid) is None,
                }
            },
            Err(message) => !(outcome@ is Done) && message@ == tasklist_failure(
                outcome@,
                "looking for pid "@ + number::decimal(target_pid as nat),
            ),
        },
{
    let subject = "looking for pid ".to_owned().concat(to_decimal(target_pid as u64).as_str());
    match tasklist_output(outcome, subject.as_str()) {
        Ok(stdout) => Ok(parse_windows_tasklist_for_pid(stdout.as_str(), target_pid)),
        Err(message) => Err(message),
    }
}

/// The image of each process, once `tasklist` has run.
pub fn windows_process_map(outcome: CommandOutcome) -> (r: Result<HashMap<u32, String>, String>)
    ensures
        match r {
            Ok(map) => outcome@ is Done && image_texts(map@) == images(
                processes(outcome@->Done_0),
            ),
            Err(message) => !(outcome@ is Done) && message@ == tasklist_failure(
                outcome@,
                "mapping audio sessions"@,
            ),
        },
{
    match tasklist_output(outcome, "mapping audio sessions") {
        Ok(stdout) => Ok(parse_windows_process_map(stdout.as_str())),
        Err(message) => Err(message),
    }
}

// ---------------------------------------------------------------------------
// Laws
// ---------------------------------------------------------------------------

/// Every match is a process of the list and has the name of the target.
pub proof fn matches_are_processes(stdout: Seq<char>, target: Seq<char>, process: CandidateView)
    requires
        matches(stdout, target).contains(process),
    ensures
        exists|line: Seq<char>| #[trigger]
            text::lines(stdout).contains(line) && process_of_line(line) == Some(process),
        names::matches_target(process.image_name, text::lowered(text::trimmed(target))),
{
    text::lines(stdout).lemma_filter_map_contains(
        |line: Seq<char>| match_of_line(line, target),
        process,
    );
}

proof fn lemma_first_mark(s: Seq<char>, mark: Seq<char>, from: int, at: int)
    requires
        0 <= from <= at,
        text::occurs_at(s, mark, at),
        forall|k: int| from <= k < at ==> !(#[trigger] text::occurs_at(s, mark, k)),
    ensures
        text::find_from(s, mark, from) == Some(at),
    decreases at - from,
{
    if from < at {
        assert(!text::occurs_at(s, mark, from));
        lemma_first_mark(s, mark, from + 1, at);
    }
}

/// A line with an image, a number and further columns, as `tasklist` prints it, is
/// read back. The image holds no quote and does not begin with a comma.
pub proof fn printed_line_is_read(image: Seq<char>, pid: u32, rest: Seq<char>)
    requires
        image.len() > 0,
        image[0] != ',',
        forall|k: int| 0 <= k < image.len() ==> #[trigger] image[k] != '"',
    ensures
        process_of_line(
            seq!['"'] + image + "\",\""@ + (number::decimal(pid as nat) + "\",\""@ + rest),
        ) == Some(CandidateView { image_name: image, pid }),
{
    reveal_strlit("\",\"");
    let mark = "\",\""@;
    assert(mark =~= seq!['"', ',', '"']);
    let digits = number::decimal(pid as nat);
    let tail = digits + mark + rest;
    let first = seq!['"'] + image;
    let line = first + mark + tail;
    number::decimal_is_digits(pid as nat);
    number::parse_inverts_decimal(pid as nat, u32::MAX as nat);

    let at = first.len() as int;
    assert(line.subrange(at, at + 3) =~= mark);
    assert forall|k: int| 0 <= k < at implies !(#[trigger] text::occurs_at(line, mark, k)) by {
        if text::occurs_at(line, mark, k) {
            let piece = line.subrange(k, k + 3);
            assert(piece[0] == line[k] && piece[1] == line[k + 1]);
            if k == 0 {
                assert(line[1] == image[0]);
            } else {
                assert(line[k] == image[k - 1]);
            }
        }
    }
    lemma_first_mark(line, mark, 0, at);
    assert(line.take(at) =~= first);
    assert(line.skip(at + 3) =~= tail);

    let n = digits.len() as int;
    assert(tail.subrange(n, n + 3) =~= mark);
    assert forall|k: int| 0 <= k < n implies !(#[trigger] text::occurs_at(tail, mark, k)) by {
        if text::occurs_at(tail, mark, k) {
            assert(tail.subrange(k, k + 3)[0] == tail[k]);
            assert(tail[k] == digits[k]);
        }
    }
    lemma_first_mark(tail, mark, 0, n);
    assert(tail.take(n) =~= digits);

    let columns = text::split(line, mark);
    assert(columns == seq![first] + text::split(tail, mark));
    assert(text::split(tail, mark) == seq![digits] + text::split(tail.skip(n + 3), mark));
    assert(columns[0] == first);
    assert(columns[1] == digits);
    assert(first =~= seq!['"'] + image + Seq::<char>::empty());
    text::strip_of_padded(seq!['"'], image, Seq::<char>::empty(), CharClass::Quote);
    text::strip_keeps_clean_text(digits, CharClass::Quote);
}

/// Letter case and white space around a target do not matter.
proof fn lemma_plain_target_matches_alike(value: Seq<char>, target: Seq<char>)
    ensures
        names::matches_target(value, text::lowered(text::trimmed(target)))
            == names::matches_target(value, target),
{
    let kept = text::trimmed(target);
    let small = text::lowered(kept);
    text::strip_takes_only_edges(target, CharClass::Space);
    if kept.len() > 0 {
        assert(small[0] == text::lower_char(kept[0]));
        assert(small.last() == text::lower_char(kept.last()));
    }
    text::strip_keeps_clean_text(small, CharClass::Space);
    assert(text::lowered(small) =~= small);
}

proof fn lemma_matches_of_lines(lines: Seq<Seq<char>>, target: Seq<char>)
    ensures
        lines.filter_map(|line: Seq<char>| match_of_line(line, target)) == lines.filter_map(
            |line: Seq<char>| process_of_line(line),
        ).filter(|p: CandidateView| names::matches_target(p.image_name, target)),
    decreases lines.len(),
{
    reveal(Seq::filter);
    reveal(Seq::filter_map);
    let read = |line: Seq<char>| process_of_line(line);
    let fits = |p: CandidateView| names::matches_target(p.image_name, target);
    if lines.len() > 0 {
        let before = lines.drop_last();
        lemma_matches_of_lines(before, target);
        match process_of_line(lines.last()) {
            Some(process) => {
                lemma_plain_target_matches_alike(process.image_name, target);
                let all = before.filter_map(read).push(process);
                assert(lines.filter_map(read) =~= all);
                assert(all.drop_last() =~= before.filter_map(read));
            },
            None => {},
        }
    }
}

/// The matches are all the processes of the list whose image matches the target, in
/// the order of the list, and no others.
pub proof fn every_matching_process_is_a_match(stdout: Seq<char>, target: Seq<char>)
    ensures
        matches(stdout, target) == processes(stdout).filter(
            |p: CandidateView| names::matches_target(p.image_name, target),
        ),
{
    lemma_matches_of_lines(text::lines(stdout), target);
}

proof fn lemma_line_is_read(lines: Seq<Seq<char>>, k: int, process: CandidateView)
    requires
        0 <= k < lines.len(),
        process_of_line(lines[k]) == Some(process),
    ensures
        lines.filter_map(|line: Seq<char>| process_of_line(line)).contains(process),
    decreases lines.len(),
{
    reveal(Seq::filter_map);
    let read = |line: Seq<char>| process_of_line(line);
    let before = lines.drop_last().filter_map(read);
    let all = lines.filter_map(read);
    if k == lines.len() - 1 {
        assert(all == before.push(process));
        assert(all[all.len() - 1] == process);
    } else {
        lemma_line_is_read(lines.drop_last(), k, process);
        let i = choose|i: int| 0 <= i < before.len() && before[i] == process;
        assert(all[i] == process);
    }
}

/// Every line that speaks of a process whose image holds the target, at its beginning
/// or anywhere else and in whatever letter case, gives a match.
pub proof fn image_that_holds_target_is_a_match(
    stdout: Seq<char>,
    k: int,
    front: Seq<char>,
    core: Seq<char>,
    back: Seq<char>,
    pid: u32,
    target: Seq<char>,
)
    requires
        0 <= k < text::lines(stdout).len(),
        process_of_line(text::lines(stdout)[k]) == Some(
            (CandidateView { image_name: front + core + back, pid }),
        ),
        !text::blank(target),
        text::lowered(core) == text::lowered(text::trimmed(target)),
    ensures
        match_of_line(text::lines(stdout)[k], target) == Some(
            (CandidateView { image_name: front + core + back, pid }),
        ),
        matches(stdout, target).contains((CandidateView { image_name: front + core + back, pid })),
{
    let process = CandidateView { image_name: front + core + back, pid };
    let fits = |p: CandidateView| names::matches_target(p.image_name, target);
    names::contained_target_matches(front, core, back, target);
    lemma_plain_target_matches_alike(process.image_name, target);
    every_matching_process_is_a_match(stdout, target);
    lemma_line_is_read(text::lines(stdout), k, process);
    let all = processes(stdout);
    let i = choose|i: int| 0 <= i < all.len() && all[i] == process;
    all.lemma_filter_contains(fits, i);
}

/// A line as `tasklist` prints it, with the columns after the number as they are.
pub open spec fn printed_line(process: CandidateView, rest: Seq<char>) -> Seq<char> {
    seq!['"'] + process.image_name + "\",\""@ + (number::decimal(process.pid as nat) + "\",\""@
        + rest)
}

/// A list of processes that was printed line by line is read back whole, in order.
pub proof fn printed_list_is_read(
    found: Seq<CandidateView>,
    rests: Seq<Seq<char>>,
    end: Seq<char>,
)
    requires
        end == seq!['\n'] || end == seq!['\r', '\n'],
        rests.len() == found.len(),
        forall|k: int|
            0 <= k < found.len() ==> (#[trigger] found[k]).image_name.len() > 0
                && found[k].image_name[0] != ',',
        forall|k: int, i: int|
            0 <= k < found.len() && 0 <= i < found[k].image_name.len() ==> #[trigger]
            found[k].image_name[i] != '"' && found[k].image_name[i] != '\n',
        forall|k: int, i: int|
            0 <= k < rests.len() && 0 <= i < rests[k].len() ==> #[trigger] rests[k][i] != '\n'
                && rests[k][i] != '\r',
    ensures
        processes(
            text::ended_lines(
                Seq::new(found.len(), |k: int| printed_line(found[k], rests[k])),
                end,
            ),
        ) == found,
{
    let lines = Seq::new(found.len(), |k: int| printed_line(found[k], rests[k]));
    let read = |line: Seq<char>| process_of_line(line);
    reveal_strlit("\",\"");
    assert forall|k: int| 0 <= k < lines.len() implies {
        &&& process_of_line(#[trigger] lines[k]) == Some(found[k])
        &&& lines[k].last() != '\r'
        &&& forall|i: int| 0 <= i < lines[k].len() ==> #[trigger] lines[k][i] != '\n'
    } by {
        let image = found[k].image_name;
        let digits = number::decimal(found[k].pid as nat);
        let line = lines[k];
        number::decimal_is_digits(found[k].pid as nat);
        assert(found[k].image_name.len() > 0);
        assert forall|i: int| 0 <= i < image.len() implies #[trigger] image[i] != '"' by {
            assert(found[k].image_name[i] != '"');
        }
        printed_line_is_read(image, found[k].pid, rests[k]);
        assert forall|i: int| 0 <= i < line.len() implies #[trigger] line[i] != '\n' by {
            if 1 <= i < 1 + image.len() {
                assert(line[i] == found[k].image_name[i - 1]);
            } else if 4 + image.len() <= i < 4 + image.len() + digits.len() {
                assert(line[i] == digits[i - 4 - image.len()]);
            } else if i >= 7 + image.len() + digits.len() {
                assert(line[i] == rests[k][i - 7 - image.len() - digits.len()]);
            }
        }
        if rests[k].len() > 0 {
            assert(line.last() == rests[k][rests[k].len() - 1]);
        } else {
            assert(line.last() == '"');
        }
    }
    assert forall|k: int, i: int| 0 <= k < lines.len() && 0 <= i < lines[k].len() implies
        #[trigger] lines[k][i] != '\n' by {
        assert(process_of_line(lines[k]) == Some(found[k]));
    }
    text::written_lines_are_found(lines, end, Seq::empty());
    assert(text::ended_lines(lines, end) + Seq::<char>::empty() =~= text::ended_lines(lines, end));
    assert(lines + Seq::<Seq<char>>::empty() =~= lines);
    assert forall|k: int| 0 <= k < lines.len() implies process_of_line(#[trigger] lines[k]) == Some(
        found[k],
    ) by {
    }
    lemma_all_lines_are_read(lines, found);
}

proof fn lemma_all_lines_are_read(lines: Seq<Seq<char>>, found: Seq<CandidateView>)
    requires
        lines.len() == found.len(),
        forall|k: int|
            0 <= k < lines.len() ==> process_of_line(#[trigger] lines[k]) == Some(found[k]),
    ensures
        lines.filter_map(|line: Seq<char>| process_of_line(line)) == found,
    decreases lines.len(),
{
    reveal(Seq::filter_map);
    if lines.len() > 0 {
        let before = lines.drop_last();
        assert forall|k: int| 0 <= k < before.len() implies process_of_line(#[trigger] before[k])
            == Some(found.drop_last()[k]) by {
            assert(before[k] == lines[k]);
        }
        lemma_all_lines_are_read(before, found.drop_last());
        assert(lines[lines.len() - 1] == lines.last());
        assert(found.drop_last().push(found.last()) =~= found);
    } else {
        assert(found =~= Seq::<CandidateView>::empty());
    }
}

/// The process that is found by its number is the first that has it.
pub proof fn process_is_found_by_pid(found: Seq<CandidateView>, pid: u32)
    ensures
        match first_with_pid(found, pid) {
            Some(process) => exists|k: int|
                {
                    &&& 0 <= k < found.len()
                    &&& #[trigger] found[k] == process
                    &&& process.pid == pid
                    &&& forall|j: int| 0 <= j < k ==> (#[trigger] found[j]).pid != pid
                },
            None => forall|k: int| 0 <= k < found.len() ==> (#[trigger] found[k]).pid != pid,
        },
    decreases found.len(),
{
    if found.len() > 0 {
        let before = found.drop_last();
        process_is_found_by_pid(before, pid);
        if let Some(process) = first_with_pid(before, pid) {
            let k = choose|k: int|
                {
                    &&& 0 <= k < before.len()
                    &&& #[trigger] before[k] == process
                    &&& process.pid == pid
                    &&& forall|j: int| 0 <= j < k ==> (#[trigger] before[j]).pid != pid
                };
            assert(found[k] == before[k]);
            assert forall|j: int| 0 <= j < k implies (#[trigger] found[j]).pid != pid by {
                assert(before[j] == found[j]);
            }
        } else {
            assert forall|j: int| 0 <= j < before.len() implies (#[trigger] found[j]).pid
                != pid by {
                assert(before[j] == found[j]);
            }
            assert(found[found.len() - 1] == found.last());
        }
    }
}

/// The map holds, for each number of the list, the image of the last process with it,
/// and nothing else.
pub proof fn images_are_those_of_the_list(found: Seq<CandidateView>, k: int, pid: u32)
    ensures
        0 <= k < found.len() && (forall|j: int|
            k < j < found.len() ==> (#[trigger] found[j]).pid != found[k].pid) ==> images(
            found,
        ).contains_key(found[k].pid) && images(found)[found[k].pid] == found[k].image_name,
        images(found).contains_key(pid) ==> exists|j: int|
            0 <= j < found.len() && (#[trigger] found[j]).pid == pid,
    decreases found.len(),
{
    if found.len() > 0 {
        let before = found.drop_last();
        images_are_those_of_the_list(before, k, pid);
        if images(found).contains_key(pid) {
            if found.last().pid == pid {
                assert(found[found.len() - 1].pid == pid);
            } else {
                let j = choose|j: int| 0 <= j < before.len() && (#[trigger] before[j]).pid == pid;
                assert(found[j].pid == pid);
            }
        }
        if 0 <= k < before.len() && (forall|j: int|
            k < j < found.len() ==> (#[trigger] found[j]).pid != found[k].pid) {
            assert forall|j: int| k < j < before.len() implies (#[trigger] before[j]).pid
                != before[k].pid by {
                assert(before[j] == found[j]);
            }
            assert(found[found.len() - 1].pid != found[k].pid);
        }
    }
}

/// A line without a quote speaks of no process.
pub proof fn unquoted_line_has_no_process(line: Seq<char>)
    requires
        forall|i: int| 0 <= i < line.len() ==> #[trigger] line[i] != '"',
    ensures
        process_of_line(line) is None,
{
    reveal_strlit("\",\"");
    assert("\",\""@[0] == '"');
    text::split_without_separator(line, "\",\""@);
}

} // verus!
