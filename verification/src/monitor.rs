//! Watching the processes of an application on Windows, and capturing the one that
//! plays.
//!
//! [`CaptureMonitor`] says what to do and takes what came of it.
use crate::capture;
use crate::capture::{StatusView, WindowsCaptureStatus};
use crate::loopback::WindowsCaptureRunResult;
use crate::number;
use crate::number::{to_decimal, usize_to_decimal, wide_to_decimal};
use crate::pcm;
use crate::pcm::order_key;
use crate::probe::{ProbeResultView, WindowsProbeResult};
use crate::tasklist;
use crate::tasklist::{CandidateView, WindowsProcessCandidate, clone_candidates, find_candidate};
use crate::text;
use vstd::prelude::*;

verus! {

/// How long the monitor rests between two looks at the processes.
pub const WINDOWS_MONITOR_MILLIS: u64 = 3_000;

/// The ending of a counted noun.
pub open spec fn plural(count: nat) -> Seq<char> {
    if count == 1 {
        ""@
    } else {
        "es"@
    }
}

/// The ending of a counted noun.
pub fn plural_suffix(count: usize) -> (r: &'static str)
    ensures
        r@ == plural(count as nat),
{
    if count == 1 {
        ""
    } else {
        "es"
    }
}

// ---------------------------------------------------------------------------
// What the probes heard
// ---------------------------------------------------------------------------

pub open spec fn result_views(results: Seq<WindowsProbeResult>) -> Seq<ProbeResultView> {
    results.map_values(|r: WindowsProbeResult| r@)
}

/// How many of the probes heard something.
pub open spec fn audible_count(results: Seq<ProbeResultView>) -> nat
    decreases results.len(),
{
    if results.len() == 0 {
        0
    } else {
        audible_count(results.drop_last()) + if results.last().audible() {
            1nat
        } else {
            0
        }
    }
}

/// How many of the probes failed.
pub open spec fn failed_count(results: Seq<ProbeResultView>) -> nat
    decreases results.len(),
{
    if results.len() == 0 {
        0
    } else {
        failed_count(results.drop_last()) + if results.last().error is Some {
            1nat
        } else {
            0
        }
    }
}

/// How many samples the probes read.
pub open spec fn total_samples(results: Seq<ProbeResultView>) -> nat
    decreases results.len(),
{
    if results.len() == 0 {
        0
    } else {
        total_samples(results.drop_last()) + results.last().stats.samples_seen as nat
    }
}

/// How many of the samples were sound.
pub open spec fn total_loud(results: Seq<ProbeResultView>) -> nat
    decreases results.len(),
{
    if results.len() == 0 {
        0
    } else {
        total_loud(results.drop_last()) + results.last().stats.non_silent_samples as nat
    }
}

/// The probe that heard the loudest sound, and the last of them where several did.
pub open spec fn best_probe(results: Seq<ProbeResultView>) -> Option<int>
    decreases results.len(),
{
    if results.len() == 0 {
        None
    } else {
        let before = best_probe(results.drop_last());
        if !results.last().audible() {
            before
        } else {
            match before {
                Some(i) if pcm::total_order(results[i].stats.peak) > pcm::total_order(
                    results.last().stats.peak,
                ) => Some(i),
                _ => Some(results.len() - 1),
            }
        }
    }
}

/// No probe heard anything louder than the best one, and the probes after it heard
/// less. There is one wherever a probe heard something.
pub proof fn best_probe_is_loudest(results: Seq<ProbeResultView>)
    ensures
        match best_probe(results) {
            Some(i) => {
                &&& 0 <= i < results.len()
                &&& results[i].audible()
                &&& forall|j: int|
                    0 <= j < results.len() && (#[trigger] results[j]).audible()
                        ==> pcm::total_order(results[j].stats.peak) <= pcm::total_order(
                        results[i].stats.peak,
                    )
                &&& forall|j: int|
                    i < j < results.len() && (#[trigger] results[j]).audible()
                        ==> pcm::total_order(results[j].stats.peak) < pcm::total_order(
                        results[i].stats.peak,
                    )
            },
            None => forall|j: int| 0 <= j < results.len() ==> !(#[trigger] results[j]).audible(),
        },
    decreases results.len(),
{
    if results.len() > 0 {
        let front = results.drop_last();
        best_probe_is_loudest(front);
        assert forall|j: int| 0 <= j < front.len() implies front[j] == #[trigger] results[j] by {}
    }
}

/// The probe that heard the loudest sound.
pub fn find_best_probe(results: &Vec<WindowsProbeResult>) -> (r: Option<usize>)
    ensures
        match r {
            Some(i) => i < results@.len() && best_probe(result_views(results@)) == Some(i as int),
            None => best_probe(result_views(results@)) is None,
        },
{
    let ghost all = result_views(results@);
    let mut best: Option<usize> = None;
    let mut i: usize = 0;
    assert(all.take(0) =~= Seq::<ProbeResultView>::empty());
    while i < results.len()
        invariant
            i <= results@.len(),
            all == result_views(results@),
            match best {
                Some(b) => b < i && best_probe(all.take(i as int)) == Some(b as int),
                None => best_probe(all.take(i as int)) is None,
            },
        decreases results@.len() - i,
    {
        assert(all.take(i + 1).drop_last() =~= all.take(i as int));
        assert(all[i as int] == results@[i as int]@);
        if results[i].audible() {
            let better = match best {
                Some(b) => {
                    assert(all[b as int] == results@[b as int]@);
                    assert(all.take(i + 1)[b as int] == all[b as int]);
                    order_key(results[b].stats.peak) <= order_key(results[i].stats.peak)
                },
                None => true,
            };
            if better {
                best = Some(i);
            }
        }
        i += 1;
    }
    assert(all.take(i as int) =~= all);
    best
}

/// What the probes heard, taken together.
struct ProbeTotals {
    audible: usize,
    failed: usize,
    samples: u128,
    loud: u128,
}

proof fn lemma_totals_bounded(results: Seq<ProbeResultView>)
    ensures
        audible_count(results) <= results.len(),
        failed_count(results) <= results.len(),
        total_samples(results) <= results.len() * u64::MAX,
        total_loud(results) <= results.len() * u64::MAX,
    decreases results.len(),
{
    if results.len() > 0 {
        lemma_totals_bounded(results.drop_last());
        let n = results.len();
        assert((n - 1) * u64::MAX + u64::MAX == n * u64::MAX) by (nonlinear_arith);
    }
}

fn probe_totals(results: &Vec<WindowsProbeResult>) -> (r: ProbeTotals)
    ensures
        r.audible == audible_count(result_views(results@)),
        r.failed == failed_count(result_views(results@)),
        r.samples == total_samples(result_views(results@)),
        r.loud == total_loud(result_views(results@)),
{
    let ghost all = result_views(results@);
    let mut r = ProbeTotals { audible: 0, failed: 0, samples: 0, loud: 0 };
    let mut i: usize = 0;
    assert(all.take(0) =~= Seq::<ProbeResultView>::empty());
    while i < results.len()
        invariant
            i <= results@.len(),
            all == result_views(results@),
            r.audible == audible_count(all.take(i as int)),
            r.failed == failed_count(all.take(i as int)),
            r.samples == total_samples(all.take(i as int)),
            r.loud == total_loud(all.take(i as int)),
        decreases results@.len() - i,
    {
        assert(all.take(i + 1).drop_last() =~= all.take(i as int));
        assert(all[i as int] == results@[i as int]@);
        proof {
            lemma_totals_bounded(all.take(i as int));
            let n = i as int;
            assert(n * u64::MAX + u64::MAX <= u128::MAX) by (nonlinear_arith)
                requires
                    0 <= n <= u64::MAX,
            ;
        }
        if results[i].audible() {
            r.audible = r.audible + 1;
        }
        if results[i].error.is_some() {
            r.failed = r.failed + 1;
        }
        r.samples = r.samples + results[i].stats.samples_seen as u128;
        r.loud = r.loud + results[i].stats.non_silent_samples as u128;
        i += 1;
    }
    assert(all.take(i as int) =~= all);
    r
}

// ---------------------------------------------------------------------------
// Messages
// ---------------------------------------------------------------------------

/// What the user is told where none of the probes heard anything.
pub open spec fn silent_message(
    target: Seq<char>,
    probed: nat,
    results: Seq<ProbeResultView>,
    log_path: Seq<char>,
) -> Seq<char> {
    if total_samples(results) > 0 && total_loud(results) == 0 {
        "`"@ + target + "` is open, but every loopback probe is silent. Read "@ + number::decimal(
            total_samples(results),
        ) + " samples from "@ + number::decimal(probed) + " selected/matching process"@ + plural(
            probed,
        )
            + " with peak 0.000. Check Windows Volume Mixer for muted app audio or an unexpected output device; Bardic Chord will keep watching."@
    } else if failed_count(results) > 0 {
        "`"@ + target + "` is open, but "@ + number::decimal(failed_count(results)) + " of "@
            + number::decimal(results.len()) + " loopback probe"@ + plural(failed_count(results))
            + " failed. Check `"@ + log_path
            + "` for details; Bardic Chord will keep watching."@
    } else {
        "`"@ + target + "` is open, but Bardic Chord does not hear app audio yet. Watching "@
            + number::decimal(probed) + " selected/matching process"@ + plural(probed) + "."@
    }
}

fn describe_silence(
    target: &str,
    probed: usize,
    results: &Vec<WindowsProbeResult>,
    log_path: &str,
) -> (r: String)
    ensures
        r@ == silent_message(target@, probed as nat, result_views(results@), log_path@),
{
    let totals = probe_totals(results);
    assert(result_views(results@).len() == results@.len());
    let start = "`".to_owned().concat(target);
    if totals.samples > 0 && totals.loud == 0 {
        start.concat("` is open, but every loopback probe is silent. Read ").concat(
            wide_to_decimal(totals.samples).as_str(),
        ).concat(" samples from ").concat(usize_to_decimal(probed).as_str()).concat(
            " selected/matching process",
        ).concat(plural_suffix(probed)).concat(
            " with peak 0.000. Check Windows Volume Mixer for muted app audio or an unexpected output device; Bardic Chord will keep watching.",
        )
    } else if totals.failed > 0 {
        start.concat("` is open, but ").concat(usize_to_decimal(totals.failed).as_str()).concat(
            " of ",
        ).concat(usize_to_decimal(results.len()).as_str()).concat(" loopback probe").concat(
            plural_suffix(totals.failed),
        ).concat(" failed. Check `").concat(log_path).concat(
            "` for details; Bardic Chord will keep watching.",
        )
    } else {
        start.concat("` is open, but Bardic Chord does not hear app audio yet. Watching ").concat(
            usize_to_decimal(probed).as_str(),
        ).concat(" selected/matching process").concat(plural_suffix(probed)).concat(".")
    }
}

/// What the user sees once the best probe is chosen.
pub open spec fn capturing_status(
    target: Seq<char>,
    best: ProbeResultView,
    audible: nat,
    probed: nat,
    peak_text: Seq<char>,
    now: Seq<char>,
) -> StatusView {
    StatusView {
        message: "Capturing `"@ + target + "` from "@ + best.candidate.image_name + " pid "@
            + number::decimal(best.candidate.pid as nat) + ". Audible matches: "@
            + number::decimal(audible) + " of "@ + number::decimal(probed) + "; peak "@ + peak_text
            + "."@,
        target_pid: Some(best.candidate.pid),
        candidate_count: probed,
        audible_count: audible,
        peak: best.stats.peak,
        updated_at: now,
    }
}

// ---------------------------------------------------------------------------
// The monitor
// ---------------------------------------------------------------------------

/// What the monitor does next.
#[derive(Clone, Copy, Debug, PartialEq, Eq, Structural)]
pub enum MonitorPhase {
    /// See whether the capture was stopped.
    Checking,
    /// List the processes that have the name of the target.
    Listing,
    /// Find the process that the user picked.
    Finding(u32),
    /// Probe the processes.
    Probing,
    /// Capture the process.
    Capturing(u32),
    /// Rest, and look again.
    Resting,
    /// Nothing: the monitor is off.
    Off,
}

/// A capture that watches for an application.
#[derive(Debug)]
pub struct CaptureMonitor {
    target: String,
    preferred: Option<u32>,
    log_path: String,
    phase: MonitorPhase,
    candidates: Vec<WindowsProcessCandidate>,
    probed: Vec<WindowsProcessCandidate>,
    audible: usize,
    peak: u32,
    target_pid: Option<u32>,
    status: WindowsCaptureStatus,
}

#[verifier::ext_equal]
pub struct MonitorView {
    pub target: Seq<char>,
    /// The process that the user picked.
    pub preferred: Option<u32>,
    pub log_path: Seq<char>,
    pub phase: MonitorPhase,
    /// The processes that were found.
    pub candidates: Seq<CandidateView>,
    /// The processes that are probed.
    pub probed: Seq<CandidateView>,
    /// How many of them could be heard.
    pub audible: nat,
    /// The peak of the process that is captured.
    pub peak: u32,
    /// The process that is captured.
    pub target_pid: Option<u32>,
    pub status: StatusView,
}

impl View for CaptureMonitor {
    type V = MonitorView;

    closed spec fn view(&self) -> MonitorView {
        MonitorView {
            target: self.target@,
            preferred: self.preferred,
            log_path: self.log_path@,
            phase: self.phase,
            candidates: tasklist::candidate_views(self.candidates@),
            probed: tasklist::candidate_views(self.probed@),
            audible: self.audible as nat,
            peak: self.peak,
            target_pid: self.target_pid,
            status: self.status@,
        }
    }
}

/// The processes that are probed: the one that the user picked, if it is there, and
/// all of them otherwise.
pub open spec fn chosen_candidates(
    candidates: Seq<CandidateView>,
    preferred: Option<u32>,
) -> Seq<CandidateView> {
    match preferred {
        Some(pid) => match tasklist::first_with_pid(candidates, pid) {
            Some(candidate) => seq![candidate],
            None => candidates,
        },
        None => candidates,
    }
}

impl MonitorView {
    /// The monitor has a status without a process to tell of, and rests.
    pub open spec fn resting(self, message: Seq<char>, candidates: nat, now: Seq<char>) -> MonitorView {
        MonitorView {
            phase: MonitorPhase::Resting,
            status: capture::idle_status(message, candidates, now),
            ..self
        }
    }

    /// The monitor is switched off.
    pub open spec fn switched_off(self, now: Seq<char>) -> MonitorView {
        MonitorView {
            phase: MonitorPhase::Off,
            target_pid: None,
            status: capture::idle_status(
                "Windows capture for `"@ + self.target + "` is off."@,
                0,
                now,
            ),
            ..self
        }
    }

    pub open spec fn after_check(self, stopped: bool, now: Seq<char>) -> MonitorView {
        if stopped {
            self.switched_off(now)
        } else {
            MonitorView { phase: MonitorPhase::Listing, ..self }
        }
    }

    /// The processes are known.
    pub open spec fn with_candidates(self, candidates: Seq<CandidateView>, now: Seq<char>) -> MonitorView {
        let known = MonitorView { candidates, ..self };
        if candidates.len() == 0 {
            MonitorView { target_pid: None, ..known }.resting(
                capture::watching_message(self.target),
                0,
                now,
            )
        } else {
            MonitorView {
                phase: MonitorPhase::Probing,
                probed: chosen_candidates(candidates, self.preferred),
                ..known
            }
        }
    }

    pub open spec fn after_listing(
        self,
        outcome: Result<Seq<CandidateView>, ()>,
        now: Seq<char>,
    ) -> MonitorView {
        match outcome {
            Err(_) => self.resting(
                "Windows capture is still watching for `"@ + self.target
                    + "`, but process discovery failed. Check `"@ + self.log_path
                    + "` for details."@,
                0,
                now,
            ),
            Ok(candidates) => match self.preferred {
                Some(pid) if tasklist::first_with_pid(candidates, pid) is None => MonitorView {
                    phase: MonitorPhase::Finding(pid),
                    candidates,
                    ..self
                },
                _ => self.with_candidates(candidates, now),
            },
        }
    }

    pub open spec fn after_finding(self, found: Option<CandidateView>, now: Seq<char>) -> MonitorView {
        match found {
            Some(candidate) => self.with_candidates(seq![candidate] + self.candidates, now),
            None => self.with_candidates(self.candidates, now),
        }
    }

    pub open spec fn after_probing(
        self,
        results: Seq<ProbeResultView>,
        peak_text: Seq<char>,
        now: Seq<char>,
    ) -> MonitorView {
        match best_probe(results) {
            None => MonitorView { target_pid: None, ..self }.resting(
                silent_message(self.target, self.probed.len(), results, self.log_path),
                self.probed.len(),
                now,
            ),
            Some(i) => MonitorView {
                phase: MonitorPhase::Capturing(results[i].candidate.pid),
                audible: audible_count(results),
                peak: results[i].stats.peak,
                target_pid: Some(results[i].candidate.pid),
                status: capturing_status(
                    self.target,
                    results[i],
                    audible_count(results),
                    self.probed.len(),
                    peak_text,
                    now,
                ),
                ..self
            },
        }
    }

    pub open spec fn after_capture(
        self,
        outcome: Result<WindowsCaptureRunResult, ()>,
        now: Seq<char>,
    ) -> MonitorView {
        match outcome {
            Ok(WindowsCaptureRunResult::Stopped) => self.switched_off(now),
            Ok(WindowsCaptureRunResult::Rescan) => MonitorView {
                phase: MonitorPhase::Checking,
                target_pid: None,
                status: capture::idle_status(
                    "`"@ + self.target
                        + "` went quiet. Bardic Chord is scanning matching processes again."@,
                    self.candidates.len(),
                    now,
                ),
                ..self
            },
            Err(_) => MonitorView {
                phase: MonitorPhase::Resting,
                status: StatusView {
                    message: "Capture from `"@ + self.target + "` pid "@ + number::decimal(
                        self.phase->Capturing_0 as nat,
                    ) + " stopped. Bardic Chord is scanning again."@,
                    target_pid: None,
                    candidate_count: self.candidates.len(),
                    audible_count: self.audible,
                    peak: self.peak,
                    updated_at: now,
                },
                ..self
            },
        }
    }
}

impl CaptureMonitor {
    /// A monitor that watches for the target.
    pub fn new(capture_target: &str, preferred: Option<u32>, log_path: &str, now: &str) -> (r:
        CaptureMonitor)
        ensures
            r@ == (MonitorView {
                target: capture_target@,
                preferred,
                log_path: log_path@,
                phase: MonitorPhase::Checking,
                candidates: Seq::empty(),
                probed: Seq::empty(),
                audible: 0,
                peak: 0,
                target_pid: None,
                status: capture::idle_status(
                    capture::watching_message(capture_target@),
                    0,
                    now@,
                ),
            }),
    {
        let r = CaptureMonitor {
            target: capture_target.to_owned(),
            preferred,
            log_path: log_path.to_owned(),
            phase: MonitorPhase::Checking,
            candidates: Vec::new(),
            probed: Vec::new(),
            audible: 0,
            peak: 0,
            target_pid: None,
            status: WindowsCaptureStatus::watching(capture_target, now),
        };
        assert(r@.candidates =~= Seq::<CandidateView>::empty());
        assert(r@.probed =~= Seq::<CandidateView>::empty());
        r
    }

    /// What is done next.
    pub fn phase(&self) -> (r: MonitorPhase)
        ensures
            r == self@.phase,
    {
        self.phase
    }

    /// What the user sees.
    pub fn status(&self) -> (r: WindowsCaptureStatus)
        ensures
            r@ == self@.status,
    {
        self.status.clone()
    }

    /// The process that is captured.
    pub fn target_pid(&self) -> (r: Option<u32>)
        ensures
            r == self@.target_pid,
    {
        self.target_pid
    }

    /// The processes that are probed.
    pub fn probed(&self) -> (r: Vec<WindowsProcessCandidate>)
        ensures
            tasklist::candidate_views(r@) == self@.probed,
    {
        clone_candidates(&self.probed)
    }

    fn rest(&mut self, message: String, candidates: usize, now: &str)
        ensures
            final(self)@ == old(self)@.resting(message@, candidates as nat, now@),
    {
        self.status = WindowsCaptureStatus::idle(message, candidates, now);
        self.phase = MonitorPhase::Resting;
    }

    fn switch_off(&mut self, now: &str)
        ensures
            final(self)@ == old(self)@.switched_off(now@),
    {
        let message = "Windows capture for `".to_owned().concat(self.target.as_str()).concat(
            "` is off.",
        );
        self.target_pid = None;
        self.status = WindowsCaptureStatus::idle(message, 0, now);
        self.phase = MonitorPhase::Off;
    }

    /// The stop signal was looked at.
    pub fn checked(&mut self, stopped: bool, now: &str)
        requires
            old(self)@.phase == MonitorPhase::Checking,
        ensures
            final(self)@ == old(self)@.after_check(stopped, now@),
    {
        if stopped {
            self.switch_off(now);
        } else {
            self.phase = MonitorPhase::Listing;
        }
    }

    /// The monitor has rested.
    pub fn rested(&mut self)
        requires
            old(self)@.phase == MonitorPhase::Resting,
        ensures
            final(self)@ == (MonitorView { phase: MonitorPhase::Checking, ..old(self)@ }),
    {
        self.phase = MonitorPhase::Checking;
    }

    fn choose_candidates(&mut self, now: &str)
        ensures
            final(self)@ == old(self)@.with_candidates(old(self)@.candidates, now@),
    {
        assert(self@.candidates.len() == self.candidates@.len());
        if self.candidates.len() == 0 {
            self.target_pid = None;
            self.status = WindowsCaptureStatus::watching(self.target.as_str(), now);
            self.phase = MonitorPhase::Resting;
        } else {
            self.probed = match self.preferred {
                Some(pid) => match find_candidate(&self.candidates, pid) {
                    Some(candidate) => {
                        let one = vec![candidate];
                        assert(tasklist::candidate_views(one@) =~= seq![candidate@]);
                        one
                    },
                    None => clone_candidates(&self.candidates),
                },
                None => clone_candidates(&self.candidates),
            };
            self.phase = MonitorPhase::Probing;
        }
    }

    /// The processes were listed, or could not be.
    pub fn listed(&mut self, outcome: Result<Vec<WindowsProcessCandidate>, ()>, now: &str)
        requires
            old(self)@.phase == MonitorPhase::Listing,
        ensures
            final(self)@ == old(self)@.after_listing(
                match outcome {
                    Ok(found) => Ok(tasklist::candidate_views(found@)),
                    Err(_) => Err(()),
                },
                now@,
            ),
    {
        match outcome {
            Err(_) => {
                let message = "Windows capture is still watching for `".to_owned().concat(
                    self.target.as_str(),
                ).concat("`, but process discovery failed. Check `").concat(
                    self.log_path.as_str(),
                ).concat("` for details.");
                self.rest(message, 0, now);
            },
            Ok(found) => {
                self.candidates = found;
                let missing = match self.preferred {
                    Some(pid) => match find_candidate(&self.candidates, pid) {
                        Some(_) => None,
                        None => Some(pid),
                    },
                    None => None,
                };
                match missing {
                    Some(pid) => {
                        self.phase = MonitorPhase::Finding(pid);
                    },
                    None => self.choose_candidates(now),
                }
            },
        }
    }

    /// The process that the user picked was looked for.
    pub fn found(&mut self, candidate: Option<WindowsProcessCandidate>, now: &str)
        requires
            old(self)@.phase is Finding,
        ensures
            final(self)@ == old(self)@.after_finding(
                match candidate {
                    Some(c) => Some(c@),
                    None => None,
                },
                now@,
            ),
    {
        if let Some(c) = candidate {
            let ghost before = self.candidates@;
            self.candidates.insert(0, c);
            assert(tasklist::candidate_views(self.candidates@) =~= seq![c@]
                + tasklist::candidate_views(before));
        }
        self.choose_candidates(now);
    }

    /// The processes were probed. The text is how the peak of the best probe is
    /// shown.
    pub fn heard(&mut self, results: &Vec<WindowsProbeResult>, peak_text: &str, now: &str)
        requires
            old(self)@.phase == MonitorPhase::Probing,
        ensures
            final(self)@ == old(self)@.after_probing(result_views(results@), peak_text@, now@),
    {
        let probed: usize = self.probed.len();
        assert(self@.probed.len() == probed);
        match find_best_probe(results) {
            None => {
                let message = describe_silence(
                    self.target.as_str(),
                    probed,
                    results,
                    self.log_path.as_str(),
                );
                self.target_pid = None;
                self.rest(message, probed, now);
            },
            Some(i) => {
                let best = &results[i];
                assert(result_views(results@)[i as int] == best@);
                let audible: usize = probe_totals(results).audible;
                let message = "Capturing `".to_owned().concat(self.target.as_str()).concat(
                    "` from ",
                ).concat(best.candidate.image_name.as_str()).concat(" pid ").concat(
                    to_decimal(best.candidate.pid as u64).as_str(),
                ).concat(". Audible matches: ").concat(usize_to_decimal(audible).as_str()).concat(
                    " of ",
                ).concat(usize_to_decimal(probed).as_str()).concat("; peak ").concat(
                    peak_text,
                ).concat(".");
                self.status = WindowsCaptureStatus {
                    message,
                    target_pid: Some(best.candidate.pid),
                    candidate_count: probed,
                    audible_count: audible,
                    peak: best.stats.peak,
                    updated_at: now.to_owned(),
                };
                self.audible = audible;
                self.peak = best.stats.peak;
                self.target_pid = Some(best.candidate.pid);
                self.phase = MonitorPhase::Capturing(best.candidate.pid);
            },
        }
    }

    /// While the process is captured, its status is what the capture tells.
    pub fn told(&mut self, status: WindowsCaptureStatus)
        requires
            old(self)@.phase is Capturing,
        ensures
            final(self)@ == (MonitorView { status: status@, ..old(self)@ }),
    {
        self.status = status;
    }

    /// The capture of the process has ended, or has failed.
    pub fn captured(&mut self, outcome: Result<WindowsCaptureRunResult, ()>, now: &str)
        requires
            old(self)@.phase is Capturing,
        ensures
            final(self)@ == old(self)@.after_capture(outcome, now@),
    {
        let pid = match self.phase {
            MonitorPhase::Capturing(pid) => pid,
            _ => {
                return ;
            },
        };
        let count: usize = self.candidates.len();
        assert(self@.candidates.len() == count);
        match outcome {
            Ok(WindowsCaptureRunResult::Stopped) => self.switch_off(now),
            Ok(WindowsCaptureRunResult::Rescan) => {
                let message = "`".to_owned().concat(self.target.as_str()).concat(
                    "` went quiet. Bardic Chord is scanning matching processes again.",
                );
                self.target_pid = None;
                self.status = WindowsCaptureStatus::idle(message, count, now);
                self.phase = MonitorPhase::Checking;
            },
            Err(_) => {
                let message = "Capture from `".to_owned().concat(self.target.as_str()).concat(
                    "` pid ",
                ).concat(to_decimal(pid as u64).as_str()).concat(
                    " stopped. Bardic Chord is scanning again.",
                );
                self.status = WindowsCaptureStatus {
                    message,
                    target_pid: None,
                    candidate_count: count,
                    audible_count: self.audible,
                    peak: self.peak,
                    updated_at: now.to_owned(),
                };
                self.phase = MonitorPhase::Resting;
            },
        }
    }
}

// ---------------------------------------------------------------------------
// Laws
// ---------------------------------------------------------------------------

/// A process is captured only where its probe could be heard.
pub proof fn only_audible_processes_are_captured(
    monitor: MonitorView,
    results: Seq<ProbeResultView>,
    peak_text: Seq<char>,
    now: Seq<char>,
)
    ensures
        match monitor.after_probing(results, peak_text, now).phase {
            MonitorPhase::Capturing(pid) => exists|i: int|
                0 <= i < results.len() && (#[trigger] results[i]).audible()
                    && results[i].candidate.pid == pid,
            _ => forall|i: int| 0 <= i < results.len() ==> !(#[trigger] results[i]).audible(),
        },
{
    best_probe_is_loudest(results);
}

/// Once it is off, the monitor follows no process and says so.
pub proof fn monitor_that_is_off_follows_nothing(monitor: MonitorView, now: Seq<char>)
    ensures
        monitor.switched_off(now).target_pid is None,
        monitor.switched_off(now).status.target_pid is None,
        monitor.after_check(true, now) == monitor.switched_off(now),
        monitor.after_capture(Ok(WindowsCaptureRunResult::Stopped), now)
            == monitor.switched_off(now),
{
}

/// The process that the user picked is probed alone wherever it runs.
pub proof fn picked_process_is_probed_alone(
    monitor: MonitorView,
    candidate: CandidateView,
    now: Seq<char>,
)
    requires
        monitor.preferred == Some(candidate.pid),
    ensures
        monitor.after_finding(Some(candidate), now).phase == MonitorPhase::Probing,
        monitor.after_finding(Some(candidate), now).probed == seq![candidate],
{
    lemma_inserted_is_found(monitor.candidates, candidate);
}

proof fn lemma_inserted_is_found(candidates: Seq<CandidateView>, candidate: CandidateView)
    ensures
        tasklist::first_with_pid(seq![candidate] + candidates, candidate.pid) == Some(candidate),
    decreases candidates.len(),
{
    let all = seq![candidate] + candidates;
    if candidates.len() > 0 {
        lemma_inserted_is_found(candidates.drop_last(), candidate);
        assert(all.drop_last() =~= seq![candidate] + candidates.drop_last());
    } else {
        reveal_with_fuel(tasklist::first_with_pid, 2);
        assert(all.drop_last() =~= Seq::<CandidateView>::empty());
    }
}

/// Whether two states watch for the same target in the same way.
pub open spec fn same_watch(a: MonitorView, b: MonitorView) -> bool {
    a.target == b.target && a.preferred == b.preferred && a.log_path == b.log_path
}

/// Whatever happens, the monitor watches for what it was made for.
pub proof fn monitor_keeps_its_watch(
    monitor: MonitorView,
    stopped: bool,
    listed: Result<Seq<CandidateView>, ()>,
    found: Option<CandidateView>,
    results: Seq<ProbeResultView>,
    outcome: Result<WindowsCaptureRunResult, ()>,
    peak_text: Seq<char>,
    now: Seq<char>,
)
    ensures
        same_watch(monitor, monitor.after_check(stopped, now)),
        same_watch(monitor, monitor.after_listing(listed, now)),
        same_watch(monitor, monitor.after_finding(found, now)),
        same_watch(monitor, monitor.after_probing(results, peak_text, now)),
        same_watch(monitor, monitor.after_capture(outcome, now)),
{
}

/// Where the user picked no process, every process that was found is probed; where none
/// was found, the monitor rests and follows nobody.
pub proof fn without_a_pick_all_are_probed(
    monitor: MonitorView,
    candidates: Seq<CandidateView>,
    now: Seq<char>,
)
    requires
        monitor.preferred is None,
    ensures
        ({
            let after = monitor.after_listing(Ok(candidates), now);
            &&& candidates.len() > 0 ==> after.phase == MonitorPhase::Probing && after.probed
                == candidates
            &&& candidates.len() == 0 ==> after.phase == MonitorPhase::Resting && after.target_pid
                is None && after.status.target_pid is None && after.status.candidate_count == 0
        }),
        monitor.after_listing(Err(()), now).phase == MonitorPhase::Resting,
        monitor.after_listing(Err(()), now).status.target_pid is None,
{
}

/// A picked process that is among those found is probed alone; one that is not is
/// looked for by its number, and where it does not run all others are probed.
pub proof fn picked_process_comes_first(
    monitor: MonitorView,
    candidates: Seq<CandidateView>,
    pid: u32,
    k: int,
    now: Seq<char>,
)
    requires
        monitor.preferred == Some(pid),
        0 <= k <= candidates.len(),
        forall|j: int| 0 <= j < k ==> (#[trigger] candidates[j]).pid != pid,
        k < candidates.len() ==> candidates[k].pid == pid,
    ensures
        ({
            let after = monitor.after_listing(Ok(candidates), now);
            &&& k < candidates.len() ==> after.phase == MonitorPhase::Probing && after.probed
                == seq![candidates[k]]
            &&& k == candidates.len() ==> after.phase == MonitorPhase::Finding(pid)
            &&& k == candidates.len() && candidates.len() > 0 ==> after.after_finding(
                None,
                now,
            ).phase == MonitorPhase::Probing && after.after_finding(None, now).probed == candidates
            &&& candidates.len() == 0 ==> after.after_finding(None, now).phase
                == MonitorPhase::Resting
        }),
{
    tasklist::process_is_found_by_pid(candidates, pid);
    if k < candidates.len() {
        let found = tasklist::first_with_pid(candidates, pid)->Some_0;
        let i = choose|i: int|
            {
                &&& 0 <= i < candidates.len()
                &&& #[trigger] candidates[i] == found
                &&& found.pid == pid
                &&& forall|j: int| 0 <= j < i ==> (#[trigger] candidates[j]).pid != pid
            };
        if i < k {
            assert(candidates[i].pid != pid);
        }
    }
}

/// The process that is captured is one whose probe heard the loudest sound, and the
/// status says which, how loud, and how many of the probed ones could be heard.
pub proof fn loudest_process_is_captured(
    monitor: MonitorView,
    results: Seq<ProbeResultView>,
    peak_text: Seq<char>,
    now: Seq<char>,
)
    requires
        exists|i: int| 0 <= i < results.len() && (#[trigger] results[i]).audible(),
    ensures
        ({
            let after = monitor.after_probing(results, peak_text, now);
            &&& exists|i: int|
                {
                    &&& 0 <= i < results.len()
                    &&& (#[trigger] results[i]).audible()
                    &&& after.phase == MonitorPhase::Capturing(results[i].candidate.pid)
                    &&& after.target_pid == Some(results[i].candidate.pid)
                    &&& after.status.target_pid == Some(results[i].candidate.pid)
                    &&& after.peak == results[i].stats.peak
                    &&& after.status.peak == results[i].stats.peak
                }
            &&& forall|j: int|
                0 <= j < results.len() && (#[trigger] results[j]).audible() ==> pcm::total_order(
                    results[j].stats.peak,
                ) <= pcm::total_order(after.peak)
            &&& after.status.audible_count == audible_count(results)
            &&& after.audible == audible_count(results)
            &&& after.status.candidate_count == monitor.probed.len()
            &&& after.status.updated_at == now
        }),
{
    best_probe_is_loudest(results);
    let i = best_probe(results)->Some_0;
    assert(results[i].audible());
}

/// Where no probe heard anything, the monitor rests, follows nobody, and tells how many
/// processes were probed.
pub proof fn silence_is_watched(
    monitor: MonitorView,
    results: Seq<ProbeResultView>,
    peak_text: Seq<char>,
    now: Seq<char>,
)
    requires
        forall|i: int| 0 <= i < results.len() ==> !(#[trigger] results[i]).audible(),
    ensures
        ({
            let after = monitor.after_probing(results, peak_text, now);
            &&& after.phase == MonitorPhase::Resting
            &&& after.target_pid is None
            &&& after.status.target_pid is None
            &&& after.status.audible_count == 0
            &&& after.status.candidate_count == monitor.probed.len()
            &&& after.status.updated_at == now
            &&& text::occurs(after.status.message, monitor.target)
        }),
{
    best_probe_is_loudest(results);
    let message = monitor.after_probing(results, peak_text, now).status.message;
    let front = "`"@;
    let rest = message.skip((front + monitor.target).len() as int);
    assert(message =~= front + monitor.target + rest);
    text::part_occurs(front, monitor.target, rest);
}

/// A capture that fell silent or failed is followed by another look, at once or after a
/// rest, and the status names no process; one that was stopped ends the monitor. Only a
/// failure keeps the process in mind.
pub proof fn ended_capture_is_followed_by_another_look(
    monitor: MonitorView,
    pid: u32,
    now: Seq<char>,
)
    requires
        monitor.phase == MonitorPhase::Capturing(pid),
    ensures
        ({
            let quiet = monitor.after_capture(Ok(WindowsCaptureRunResult::Rescan), now);
            let failed = monitor.after_capture(Err(()), now);
            let over = monitor.after_capture(Ok(WindowsCaptureRunResult::Stopped), now);
            &&& quiet.phase == MonitorPhase::Checking
            &&& quiet.target_pid is None
            &&& quiet.status.target_pid is None
            &&& quiet.status.candidate_count == monitor.candidates.len()
            &&& failed.phase == MonitorPhase::Resting
            &&& failed.target_pid == monitor.target_pid
            &&& failed.status.target_pid is None
            &&& failed.status.candidate_count == monitor.candidates.len()
            &&& failed.status.audible_count == monitor.audible
            &&& failed.status.peak == monitor.peak
            &&& text::occurs(
                failed.status.message,
                monitor.target + "` pid "@ + number::decimal(pid as nat) + " stopped."@,
            )
            &&& over.phase == MonitorPhase::Off
            &&& over.target_pid is None
        }),
{
    reveal_strlit(" stopped. Bardic Chord is scanning again.");
    reveal_strlit(" stopped.");
    reveal_strlit(" Bardic Chord is scanning again.");
    let message = monitor.after_capture(Err(()), now).status.message;
    let part = monitor.target + "` pid "@ + number::decimal(pid as nat) + " stopped."@;
    let rest = " Bardic Chord is scanning again."@;
    assert(" stopped. Bardic Chord is scanning again."@ =~= " stopped."@ + rest);
    assert(message =~= "Capture from `"@ + part + rest);
    text::part_occurs("Capture from `"@, part, rest);
}

/// Probes are counted one by one.
pub proof fn probes_are_counted_one_by_one(
    a: Seq<ProbeResultView>,
    b: Seq<ProbeResultView>,
    result: ProbeResultView,
)
    ensures
        audible_count(a + b) == audible_count(a) + audible_count(b),
        failed_count(a + b) == failed_count(a) + failed_count(b),
        total_samples(a + b) == total_samples(a) + total_samples(b),
        total_loud(a + b) == total_loud(a) + total_loud(b),
        audible_count(seq![result]) == if result.audible() {
            1nat
        } else {
            0
        },
        failed_count(seq![result]) == if result.error is Some {
            1nat
        } else {
            0
        },
        total_samples(seq![result]) == result.stats.samples_seen,
        total_loud(seq![result]) == result.stats.non_silent_samples,
    decreases b.len(),
{
    reveal_with_fuel(audible_count, 2);
    reveal_with_fuel(failed_count, 2);
    reveal_with_fuel(total_samples, 2);
    reveal_with_fuel(total_loud, 2);
    assert(seq![result].drop_last() =~= Seq::<ProbeResultView>::empty());
    if b.len() == 0 {
        assert(a + b =~= a);
    } else {
        probes_are_counted_one_by_one(a, b.drop_last(), result);
        assert((a + b).drop_last() =~= a + b.drop_last());
    }
}

} // verus!
