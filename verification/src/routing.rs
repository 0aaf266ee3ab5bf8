//! Moving the streams of an application into the output of Bardic Chord on Linux.
//!
//! [`RouteRun`] says which list to read and which stream to move, and takes what
//! came of it.
use crate::command::{CommandOutcome, OutcomeView};
use crate::number;
use crate::number::to_decimal;
use crate::pulse;
use crate::pulse::{
    PulseClient, PulseList, PulseSink, PulseSinkInput, collect_client_properties,
    sink_input_matches_target,
};
use crate::text;
use crate::text::{same, trim};
use crate::textmap::TextMap;
use vstd::prelude::*;

verus! {

/// What came of moving the streams of an application.
#[derive(Clone, Copy, Debug, PartialEq, Eq, Structural)]
pub struct TargetRouteAttempt {
    pub detected_inputs: usize,
    pub moved_inputs: usize,
    pub already_on_target: usize,
}

#[verifier::ext_equal]
pub struct AttemptView {
    pub detected: nat,
    pub moved: nat,
    pub already: nat,
}

impl View for TargetRouteAttempt {
    type V = AttemptView;

    open spec fn view(&self) -> AttemptView {
        AttemptView {
            detected: self.detected_inputs as nat,
            moved: self.moved_inputs as nat,
            already: self.already_on_target as nat,
        }
    }
}

/// Nothing detected yet.
pub open spec fn no_attempt() -> AttemptView {
    AttemptView { detected: 0, moved: 0, already: 0 }
}

impl Default for TargetRouteAttempt {
    fn default() -> (r: TargetRouteAttempt)
        ensures
            r@ == no_attempt(),
    {
        TargetRouteAttempt { detected_inputs: 0, moved_inputs: 0, already_on_target: 0 }
    }
}

/// What the user is told of an attempt.
pub open spec fn attempt_summary(
    attempt: AttemptView,
    output_name: Seq<char>,
    target: Seq<char>,
) -> Seq<char> {
    if attempt.moved > 0 {
        "`"@ + target + "` was detected and moved into `"@ + output_name + "` automatically."@
    } else if attempt.already > 0 {
        "`"@ + target + "` is already routed into `"@ + output_name + "`."@
    } else {
        "`"@ + target
            + "` was not detected yet. Start playback in that app, then Bardic Chord will try again when the party starts."@
    }
}

impl TargetRouteAttempt {
    /// What the user is told of the attempt.
    pub fn summary(&self, output_name: &str, capture_target: &str) -> (r: String)
        ensures
            r@ == attempt_summary(self@, output_name@, capture_target@),
    {
        let start = "`".to_owned().concat(capture_target);
        if self.moved_inputs > 0 {
            start.concat("` was detected and moved into `").concat(output_name).concat(
                "` automatically.",
            )
        } else if self.already_on_target > 0 {
            start.concat("` is already routed into `").concat(output_name).concat("`.")
        } else {
            start.concat(
                "` was not detected yet. Start playback in that app, then Bardic Chord will try again when the party starts.",
            )
        }
    }
}

// ---------------------------------------------------------------------------
// The steps
// ---------------------------------------------------------------------------

/// What is done next.
#[derive(Clone, Copy, Debug, PartialEq, Eq, Structural)]
pub enum RoutePhase {
    /// Read a list of the sound server.
    Listing(PulseList),
    /// Move the stream with the number.
    Moving(u32),
    /// Nothing: every stream was seen to.
    Done,
    /// Nothing: something failed.
    Failed,
}

/// The number of the output with the name.
pub open spec fn sink_with_name(sinks: Seq<PulseSink>, name: Seq<char>) -> Option<u32>
    decreases sinks.len(),
{
    if sinks.len() == 0 {
        None
    } else {
        match sink_with_name(sinks.drop_last(), name) {
            Some(index) => Some(index),
            None => if sinks.last().name@ == name {
                Some(sinks.last().index)
            } else {
                None
            },
        }
    }
}

fn find_sink(sinks: &Vec<PulseSink>, name: &str) -> (r: Option<u32>)
    ensures
        r == sink_with_name(sinks@, name@),
{
    let mut i: usize = 0;
    let mut found: Option<u32> = None;
    assert(sinks@.take(0) =~= Seq::<PulseSink>::empty());
    while i < sinks.len()
        invariant
            i <= sinks@.len(),
            found == sink_with_name(sinks@.take(i as int), name@),
        decreases sinks@.len() - i,
    {
        assert(sinks@.take(i + 1).drop_last() =~= sinks@.take(i as int));
        if found.is_none() && same(sinks[i].name.as_str(), name) {
            found = Some(sinks[i].index);
        }
        i += 1;
    }
    assert(sinks@.take(i as int) =~= sinks@);
    found
}

/// Moving streams, under way.
#[derive(Debug)]
pub struct RouteRun {
    sink_name: String,
    output_name: String,
    target: String,
    phase: RoutePhase,
    sink_index: u32,
    clients: TextMap<TextMap<String>>,
    pending: Vec<PulseSinkInput>,
    attempt: TargetRouteAttempt,
}

#[verifier::ext_equal]
pub struct RouteView {
    pub sink_name: Seq<char>,
    pub output_name: Seq<char>,
    pub target: Seq<char>,
    pub phase: RoutePhase,
    pub sink_index: u32,
    pub clients: Map<Seq<char>, TextMap<String>>,
    /// The streams that were not looked at yet.
    pub pending: Seq<PulseSinkInput>,
    pub attempt: AttemptView,
}

impl View for RouteRun {
    type V = RouteView;

    closed spec fn view(&self) -> RouteView {
        RouteView {
            sink_name: self.sink_name@,
            output_name: self.output_name@,
            target: self.target@,
            phase: self.phase,
            sink_index: self.sink_index,
            clients: self.clients@,
            pending: self.pending@,
            attempt: self.attempt@,
        }
    }
}

impl RouteView {
    /// The counters have room for the streams that are left, and every stream that
    /// was detected was moved, was there already, or is being moved.
    pub open spec fn inv(self) -> bool {
        &&& self.attempt.detected + self.pending.len() <= usize::MAX
        &&& self.phase is Moving ==> self.attempt.detected == self.attempt.moved
            + self.attempt.already + 1
        &&& self.phase is Listing || self.phase is Done ==> self.attempt.detected
            == self.attempt.moved + self.attempt.already
    }

    pub open spec fn matches(self, input: PulseSinkInput) -> bool {
        pulse::input_matches(input, self.clients, self.target)
    }

    pub open spec fn is_there(self, input: PulseSinkInput) -> bool {
        input.sink == Some(self.sink_index)
    }

    /// Looks at the streams up to the next one that has to be moved.
    pub open spec fn scanned(self) -> RouteView
        decreases self.pending.len(),
    {
        if self.pending.len() == 0 {
            RouteView { phase: RoutePhase::Done, ..self }
        } else {
            let input = self.pending[0];
            let rest = RouteView { pending: self.pending.drop_first(), ..self };
            let seen = AttemptView { detected: self.attempt.detected + 1, ..self.attempt };
            if !self.matches(input) {
                rest.scanned()
            } else if self.is_there(input) {
                RouteView {
                    attempt: AttemptView { already: self.attempt.already + 1, ..seen },
                    ..rest
                }.scanned()
            } else {
                RouteView { phase: RoutePhase::Moving(input.index), attempt: seen, ..rest }
            }
        }
    }

    pub open spec fn after_sinks(self, outcome: Result<Seq<PulseSink>, ()>) -> RouteView {
        match outcome {
            Ok(sinks) => match sink_with_name(sinks, self.sink_name) {
                Some(index) => RouteView {
                    phase: RoutePhase::Listing(PulseList::Clients),
                    sink_index: index,
                    ..self
                },
                None => RouteView { phase: RoutePhase::Failed, ..self },
            },
            Err(_) => RouteView { phase: RoutePhase::Failed, ..self },
        }
    }

    pub open spec fn after_clients(self, outcome: Result<Seq<PulseClient>, ()>) -> RouteView {
        match outcome {
            Ok(clients) => RouteView {
                phase: RoutePhase::Listing(PulseList::SinkInputs),
                clients: pulse::client_map(clients),
                ..self
            },
            Err(_) => RouteView { phase: RoutePhase::Failed, ..self },
        }
    }

    pub open spec fn after_inputs(self, outcome: Result<Seq<PulseSinkInput>, ()>) -> RouteView {
        match outcome {
            Ok(inputs) => RouteView { pending: inputs, attempt: no_attempt(), ..self }.scanned(),
            Err(_) => RouteView { phase: RoutePhase::Failed, ..self },
        }
    }

    pub open spec fn after_move(self, outcome: OutcomeView) -> RouteView {
        match outcome {
            OutcomeView::Done(_) => RouteView {
                attempt: AttemptView { moved: self.attempt.moved + 1, ..self.attempt },
                ..self
            }.scanned(),
            _ => RouteView { phase: RoutePhase::Failed, ..self },
        }
    }

    /// What is said where the stream could not be moved.
    pub open spec fn move_failure(self, outcome: OutcomeView) -> Option<Seq<char>> {
        let stream = "` stream `"@ + number::decimal(self.phase->Moving_0 as nat) + "` into `"@
            + self.output_name + "`: "@;
        match outcome {
            OutcomeView::NotRun(error) => Some(
                "failed to move `"@ + self.target + stream + error,
            ),
            OutcomeView::Failed(stderr) => Some(
                "pactl could not move `"@ + self.target + stream + text::trimmed(stderr),
            ),
            OutcomeView::Done(_) => None,
        }
    }
}

impl RouteRun {
    pub fn new(sink_name: &str, output_name: &str, capture_target: &str) -> (r: RouteRun)
        ensures
            r@ == (RouteView {
                sink_name: sink_name@,
                output_name: output_name@,
                target: capture_target@,
                phase: RoutePhase::Listing(PulseList::Sinks),
                sink_index: 0,
                clients: Map::empty(),
                pending: Seq::empty(),
                attempt: no_attempt(),
            }),
            r@.inv(),
    {
        RouteRun {
            sink_name: sink_name.to_owned(),
            output_name: output_name.to_owned(),
            target: capture_target.to_owned(),
            phase: RoutePhase::Listing(PulseList::Sinks),
            sink_index: 0,
            clients: TextMap::new(),
            pending: Vec::new(),
            attempt: TargetRouteAttempt::default(),
        }
    }

    /// What is done next.
    pub fn phase(&self) -> (r: RoutePhase)
        ensures
            r == self@.phase,
    {
        self.phase
    }

    /// What came of it.
    pub fn attempt(&self) -> (r: TargetRouteAttempt)
        ensures
            r@ == self@.attempt,
    {
        self.attempt
    }

    fn scan(&mut self)
        requires
            old(self)@.attempt.detected + old(self)@.pending.len() <= usize::MAX,
            old(self)@.attempt.detected == old(self)@.attempt.moved + old(self)@.attempt.already,
        ensures
            final(self)@ == old(self)@.scanned(),
            final(self)@.inv(),
    {
        while self.pending.len() > 0
            invariant
                self@.attempt.detected + self@.pending.len() <= usize::MAX,
                self@.attempt.detected == self@.attempt.moved + self@.attempt.already,
                self@.scanned() == old(self)@.scanned(),
            decreases self@.pending.len(),
        {
            let ghost before = self@;
            let input = self.pending.remove(0);
            assert(self@.pending =~= before.pending.drop_first());
            if sink_input_matches_target(&input, &self.clients, self.target.as_str()) {
                self.attempt.detected_inputs = self.attempt.detected_inputs + 1;
                let there = match input.sink {
                    Some(index) => index == self.sink_index,
                    None => false,
                };
                if !there {
                    self.phase = RoutePhase::Moving(input.index);
                    return ;
                }
                self.attempt.already_on_target = self.attempt.already_on_target + 1;
            }
        }
        self.phase = RoutePhase::Done;
    }

    /// The outputs were listed. Gives the message where the one of Bardic Chord is
    /// missing, or the failure that is handed in.
    pub fn sinks(&mut self, outcome: Result<Vec<PulseSink>, String>) -> (r: Option<String>)
        requires
            old(self)@.phase == RoutePhase::Listing(PulseList::Sinks),
            old(self)@.inv(),
        ensures
            final(self)@ == old(self)@.after_sinks(
                match outcome {
                    Ok(sinks) => Ok(sinks@),
                    Err(_) => Err(()),
                },
            ),
            final(self)@.inv(),
            text::opt(r) == match outcome {
                Ok(sinks) => if sink_with_name(sinks@, old(self)@.sink_name) is Some {
                    None
                } else {
                    Some(
                        "Target app routing could not find the `"@ + old(self)@.output_name
                            + "` sink after it was created."@,
                    )
                },
                Err(error) => Some(error@),
            },
    {
        match outcome {
            Ok(sinks) => match find_sink(&sinks, self.sink_name.as_str()) {
                Some(index) => {
                    self.sink_index = index;
                    self.phase = RoutePhase::Listing(PulseList::Clients);
                    None
                },
                None => {
                    self.phase = RoutePhase::Failed;
                    Some(
                        "Target app routing could not find the `".to_owned().concat(
                            self.output_name.as_str(),
                        ).concat("` sink after it was created."),
                    )
                },
            },
            Err(error) => {
                self.phase = RoutePhase::Failed;
                Some(error)
            },
        }
    }

    /// The clients were listed. Gives the failure that is handed in.
    pub fn clients(&mut self, outcome: Result<Vec<PulseClient>, String>) -> (r: Option<String>)
        requires
            old(self)@.phase == RoutePhase::Listing(PulseList::Clients),
            old(self)@.inv(),
        ensures
            final(self)@ == old(self)@.after_clients(
                match outcome {
                    Ok(clients) => Ok(clients@),
                    Err(_) => Err(()),
                },
            ),
            final(self)@.inv(),
            text::opt(r) == match outcome {
                Ok(_) => None,
                Err(error) => Some(error@),
            },
    {
        match outcome {
            Ok(clients) => {
                self.clients = collect_client_properties(clients);
                self.phase = RoutePhase::Listing(PulseList::SinkInputs);
                None
            },
            Err(error) => {
                self.phase = RoutePhase::Failed;
                Some(error)
            },
        }
    }

    /// The streams were listed. Gives the failure that is handed in.
    pub fn inputs(&mut self, outcome: Result<Vec<PulseSinkInput>, String>) -> (r: Option<String>)
        requires
            old(self)@.phase == RoutePhase::Listing(PulseList::SinkInputs),
            old(self)@.inv(),
        ensures
            final(self)@ == old(self)@.after_inputs(
                match outcome {
                    Ok(inputs) => Ok(inputs@),
                    Err(_) => Err(()),
                },
            ),
            final(self)@.inv(),
            text::opt(r) == match outcome {
                Ok(_) => None,
                Err(error) => Some(error@),
            },
    {
        match outcome {
            Ok(inputs) => {
                let count: usize = inputs.len();
                self.pending = inputs;
                self.attempt = TargetRouteAttempt::default();
                assert(self@.pending.len() == count);
                self.scan();
                None
            },
            Err(error) => {
                self.phase = RoutePhase::Failed;
                Some(error)
            },
        }
    }

    /// A stream was moved, or was not. Gives the message where it was not.
    pub fn moved(&mut self, outcome: CommandOutcome) -> (r: Option<String>)
        requires
            old(self)@.phase is Moving,
            old(self)@.inv(),
        ensures
            final(self)@ == old(self)@.after_move(outcome@),
            final(self)@.inv(),
            text::opt(r) == old(self)@.move_failure(outcome@),
    {
        let index = match self.phase {
            RoutePhase::Moving(index) => index,
            _ => {
                return None;
            },
        };
        let stream = "` stream `".to_owned().concat(to_decimal(index as u64).as_str()).concat(
            "` into `",
        ).concat(self.output_name.as_str()).concat("`: ");
        match outcome {
            CommandOutcome::Done(_) => {
                self.attempt.moved_inputs = self.attempt.moved_inputs + 1;
                self.scan();
                None
            },
            CommandOutcome::NotRun(error) => {
                self.phase = RoutePhase::Failed;
                Some(
                    "failed to move `".to_owned().concat(self.target.as_str()).concat(
                        stream.as_str(),
                    ).concat(error.as_str()),
                )
            },
            CommandOutcome::Failed(stderr) => {
                self.phase = RoutePhase::Failed;
                Some(
                    "pactl could not move `".to_owned().concat(self.target.as_str()).concat(
                        stream.as_str(),
                    ).concat(trim(stderr.as_str())),
                )
            },
        }
    }
}

// ---------------------------------------------------------------------------
// Laws
// ---------------------------------------------------------------------------

/// How many of the streams have the name of the target and are in the output already.
pub open spec fn already_there(run: RouteView, inputs: Seq<PulseSinkInput>) -> nat
    decreases inputs.len(),
{
    if inputs.len() == 0 {
        0
    } else {
        already_there(run, inputs.drop_first()) + if run.matches(inputs[0]) && run.is_there(
            inputs[0],
        ) {
            1nat
        } else {
            0
        }
    }
}

/// The streams that have the name of the target and are elsewhere, in order.
pub open spec fn elsewhere(run: RouteView, inputs: Seq<PulseSinkInput>) -> Seq<u32>
    decreases inputs.len(),
{
    if inputs.len() == 0 {
        seq![]
    } else if run.matches(inputs[0]) && !run.is_there(inputs[0]) {
        seq![inputs[0].index] + elsewhere(run, inputs.drop_first())
    } else {
        elsewhere(run, inputs.drop_first())
    }
}

/// The stream that is moved next, if there is one.
pub open spec fn next_moved(run: RouteView) -> Seq<u32> {
    match run.phase {
        RoutePhase::Moving(index) => seq![index],
        _ => seq![],
    }
}

/// The streams that are moved, if every move succeeds, and where it ends.
pub open spec fn all_moved(run: RouteView) -> (Seq<u32>, RouteView)
    decreases run.pending.len(),
{
    match run.phase {
        RoutePhase::Moving(index) => {
            let next = run.after_move(OutcomeView::Done(Seq::empty()));
            if next.pending.len() < run.pending.len() {
                let (later, end) = all_moved(next);
                (seq![index] + later, end)
            } else {
                (seq![index], next)
            }
        },
        _ => (seq![], run),
    }
}

proof fn lemma_scan(run: RouteView)
    ensures
        run.scanned().pending.len() <= run.pending.len(),
        run.scanned().phase is Moving ==> run.scanned().pending.len() < run.pending.len(),
        run.scanned().phase is Moving || run.scanned().phase is Done,
        run.scanned().phase is Done ==> run.scanned().pending.len() == 0,
        run.scanned().clients == run.clients,
        run.scanned().target == run.target,
        run.scanned().sink_index == run.sink_index,
        run.scanned().attempt.moved == run.attempt.moved,
        run.scanned().attempt.already + already_there(run, run.scanned().pending)
            == run.attempt.already + already_there(run, run.pending),
        elsewhere(run, run.pending) == next_moved(run.scanned()) + elsewhere(
            run,
            run.scanned().pending,
        ),
    decreases run.pending.len(),
{
    if run.pending.len() > 0 {
        let input = run.pending[0];
        let rest = RouteView { pending: run.pending.drop_first(), ..run };
        let there = RouteView {
            attempt: AttemptView {
                detected: run.attempt.detected + 1,
                already: run.attempt.already + 1,
                ..run.attempt
            },
            ..rest
        };
        if !run.matches(input) {
            lemma_scan(rest);
            lemma_same_streams(run, rest, rest.scanned().pending);
            lemma_same_streams(run, rest, rest.pending);
        } else if run.is_there(input) {
            lemma_scan(there);
            lemma_same_streams(run, there, there.scanned().pending);
            lemma_same_streams(run, there, there.pending);
        }
    }
}

proof fn lemma_same_streams(a: RouteView, b: RouteView, inputs: Seq<PulseSinkInput>)
    requires
        a.clients == b.clients,
        a.target == b.target,
        a.sink_index == b.sink_index,
    ensures
        already_there(a, inputs) == already_there(b, inputs),
        elsewhere(a, inputs) == elsewhere(b, inputs),
    decreases inputs.len(),
{
    if inputs.len() > 0 {
        lemma_same_streams(a, b, inputs.drop_first());
    }
}

proof fn lemma_all_moved(run: RouteView)
    requires
        run.phase is Moving || (run.phase is Done && run.pending.len() == 0),
    ensures
        ({
            let (moved, end) = all_moved(run);
            &&& end.phase == RoutePhase::Done
            &&& moved == next_moved(run) + elsewhere(run, run.pending)
            &&& end.attempt.moved == run.attempt.moved + moved.len()
            &&& end.attempt.already == run.attempt.already + already_there(run, run.pending)
        }),
    decreases run.pending.len(),
{
    if run.phase is Moving {
        let counted = RouteView {
            attempt: AttemptView { moved: run.attempt.moved + 1, ..run.attempt },
            ..run
        };
        let next = counted.scanned();
        lemma_scan(counted);
        lemma_same_streams(run, counted, run.pending);
        lemma_same_streams(run, counted, next.pending);
        lemma_same_streams(run, next, next.pending);
        if next.pending.len() < run.pending.len() {
            lemma_all_moved(next);
        }
    }
    assert(all_moved(run).0 =~= next_moved(run) + elsewhere(run, run.pending));
}

/// Where every move succeeds, exactly the streams of the target that are elsewhere
/// are moved, each once and in order, and the attempt counts them and those that were
/// in the output already.
pub proof fn every_stream_is_seen_to(run: RouteView, inputs: Seq<PulseSinkInput>)
    requires
        run.phase == RoutePhase::Listing(PulseList::SinkInputs),
    ensures
        ({
            let (moved, end) = all_moved(run.after_inputs(Ok(inputs)));
            &&& end.phase == RoutePhase::Done
            &&& moved == elsewhere(run, inputs)
            &&& end.attempt.moved == elsewhere(run, inputs).len()
            &&& end.attempt.already == already_there(run, inputs)
        }),
{
    let start = RouteView { pending: inputs, attempt: no_attempt(), ..run };
    let first = start.scanned();
    lemma_scan(start);
    lemma_same_streams(run, start, inputs);
    lemma_same_streams(run, start, first.pending);
    lemma_same_streams(run, first, first.pending);
    lemma_all_moved(first);
}

/// The output is the first sink that has the name, and there is one where any sink has
/// it.
pub proof fn sink_is_found_by_name(sinks: Seq<PulseSink>, name: Seq<char>)
    ensures
        match sink_with_name(sinks, name) {
            Some(index) => exists|k: int|
                {
                    &&& 0 <= k < sinks.len()
                    &&& (#[trigger] sinks[k]).name@ == name
                    &&& sinks[k].index == index
                    &&& forall|j: int| 0 <= j < k ==> (#[trigger] sinks[j]).name@ != name
                },
            None => forall|k: int| 0 <= k < sinks.len() ==> (#[trigger] sinks[k]).name@ != name,
        },
    decreases sinks.len(),
{
    if sinks.len() > 0 {
        let before = sinks.drop_last();
        sink_is_found_by_name(before, name);
        if let Some(index) = sink_with_name(before, name) {
            let k = choose|k: int|
                {
                    &&& 0 <= k < before.len()
                    &&& (#[trigger] before[k]).name@ == name
                    &&& before[k].index == index
                    &&& forall|j: int| 0 <= j < k ==> (#[trigger] before[j]).name@ != name
                };
            assert(sinks[k] == before[k]);
            assert forall|j: int| 0 <= j < k implies (#[trigger] sinks[j]).name@ != name by {
                assert(before[j] == sinks[j]);
            }
        } else {
            assert forall|j: int| 0 <= j < before.len() implies (#[trigger] sinks[j]).name@
                != name by {
                assert(before[j] == sinks[j]);
            }
            assert(sinks[sinks.len() - 1] == sinks.last());
        }
    }
}

proof fn lemma_elsewhere(run: RouteView, inputs: Seq<PulseSinkInput>, index: u32)
    ensures
        elsewhere(run, inputs).contains(index) <==> exists|k: int|
            {
                &&& 0 <= k < inputs.len()
                &&& (#[trigger] inputs[k]).index == index
                &&& run.matches(inputs[k])
                &&& !run.is_there(inputs[k])
            },
    decreases inputs.len(),
{
    if inputs.len() > 0 {
        let rest = inputs.drop_first();
        lemma_elsewhere(run, rest, index);
        let first = run.matches(inputs[0]) && !run.is_there(inputs[0]);
        let all = elsewhere(run, inputs);
        let later = elsewhere(run, rest);
        if first && inputs[0].index == index {
            assert(all[0] == index);
        }
        if later.contains(index) {
            let i = choose|i: int| 0 <= i < later.len() && later[i] == index;
            assert(all[if first {
                i + 1
            } else {
                i
            }] == index);
            let k = choose|k: int|
                {
                    &&& 0 <= k < rest.len()
                    &&& (#[trigger] rest[k]).index == index
                    &&& run.matches(rest[k])
                    &&& !run.is_there(rest[k])
                };
            assert(inputs[k + 1] == rest[k]);
        }
        if all.contains(index) {
            let i = choose|i: int| 0 <= i < all.len() && all[i] == index;
            if first && i == 0 {
                assert(inputs[0].index == index);
            } else {
                assert(later[if first {
                    i - 1
                } else {
                    i
                }] == index);
            }
        }
        assert forall|k: int|
            0 <= k < inputs.len() && (#[trigger] inputs[k]).index == index && run.matches(inputs[k])
                && !run.is_there(inputs[k]) implies all.contains(index) by {
            if k > 0 {
                assert(rest[k - 1] == inputs[k]);
            }
        }
    }
}

/// A run over these lists, up to the first stream that has to be moved.
pub open spec fn run_over(
    start: RouteView,
    sinks: Seq<PulseSink>,
    clients: Seq<PulseClient>,
    inputs: Seq<PulseSinkInput>,
) -> RouteView {
    start.after_sinks(Ok(sinks)).after_clients(Ok(clients)).after_inputs(Ok(inputs))
}

/// A stream whose own name or own program tells the target is moved into the output,
/// whatever else it or its client says, unless it is there already.
pub proof fn stream_of_target_is_moved(
    start: RouteView,
    sinks: Seq<PulseSink>,
    clients: Seq<PulseClient>,
    inputs: Seq<PulseSinkInput>,
    s: int,
    k: int,
)
    requires
        0 <= s < sinks.len(),
        sinks[s].name@ == start.sink_name,
        forall|j: int| 0 <= j < s ==> (#[trigger] sinks[j]).name@ != start.sink_name,
        0 <= k < inputs.len(),
        inputs[k].sink != Some(sinks[s].index),
        pulse::tells(inputs[k].properties@, "application.name"@, start.target) || pulse::tells(
            inputs[k].properties@,
            "application.process.binary"@,
            start.target,
        ),
    ensures
        all_moved(run_over(start, sinks, clients, inputs)).0.contains(inputs[k].index),
        k == 0 ==> run_over(start, sinks, clients, inputs).phase == RoutePhase::Moving(
            inputs[0].index,
        ),
        run_over(start, sinks, clients, inputs).sink_index == sinks[s].index,
{
    let run = start.after_sinks(Ok(sinks)).after_clients(Ok(clients));
    sink_is_found_by_name(sinks, start.sink_name);
    pulse::stream_is_known_by_any_of_four(inputs[k], run.clients, run.target);
    every_stream_is_seen_to(run, inputs);
    lemma_elsewhere(run, inputs, inputs[k].index);
    lemma_scan(RouteView { pending: inputs, attempt: no_attempt(), ..run });
}

/// So is a stream that belongs to a client whose name or program tells the target.
pub proof fn stream_of_client_is_moved(
    start: RouteView,
    sinks: Seq<PulseSink>,
    clients: Seq<PulseClient>,
    inputs: Seq<PulseSinkInput>,
    s: int,
    c: int,
    k: int,
)
    requires
        0 <= s < sinks.len(),
        sinks[s].name@ == start.sink_name,
        forall|j: int| 0 <= j < s ==> (#[trigger] sinks[j]).name@ != start.sink_name,
        0 <= c < clients.len(),
        forall|j: int| c < j < clients.len() ==> (#[trigger] clients[j]).index != clients[c].index,
        0 <= k < inputs.len(),
        inputs[k].sink != Some(sinks[s].index),
        inputs[k].client is Some,
        inputs[k].client->Some_0@ == number::decimal(clients[c].index as nat),
        pulse::tells(clients[c].properties@, "application.name"@, start.target) || pulse::tells(
            clients[c].properties@,
            "application.process.binary"@,
            start.target,
        ),
    ensures
        all_moved(run_over(start, sinks, clients, inputs)).0.contains(inputs[k].index),
{
    let run = start.after_sinks(Ok(sinks)).after_clients(Ok(clients));
    sink_is_found_by_name(sinks, start.sink_name);
    pulse::client_is_found_by_number(clients, c);
    pulse::stream_is_known_by_any_of_four(inputs[k], run.clients, run.target);
    every_stream_is_seen_to(run, inputs);
    lemma_elsewhere(run, inputs, inputs[k].index);
}

/// A name or a program of the stream, or of a client with the number that it gives,
/// tells the target.
pub open spec fn is_told(
    input: PulseSinkInput,
    clients: Seq<PulseClient>,
    target: Seq<char>,
) -> bool {
    ||| pulse::tells(input.properties@, "application.name"@, target)
    ||| pulse::tells(input.properties@, "application.process.binary"@, target)
    ||| input.client is Some && exists|c: int|
        {
            &&& 0 <= c < clients.len()
            &&& number::decimal((#[trigger] clients[c]).index as nat) == input.client->Some_0@
            &&& (pulse::tells(clients[c].properties@, "application.name"@, target) || pulse::tells(
                clients[c].properties@,
                "application.process.binary"@,
                target,
            ))
        }
}

/// What is moved is a stream that was elsewhere and that its own name or program, or
/// that of its client, tells to be the target's.
pub proof fn only_streams_of_target_are_moved(
    start: RouteView,
    sinks: Seq<PulseSink>,
    clients: Seq<PulseClient>,
    inputs: Seq<PulseSinkInput>,
    s: int,
    index: u32,
) -> (k: int)
    requires
        0 <= s < sinks.len(),
        sinks[s].name@ == start.sink_name,
        forall|j: int| 0 <= j < s ==> (#[trigger] sinks[j]).name@ != start.sink_name,
        all_moved(run_over(start, sinks, clients, inputs)).0.contains(index),
    ensures
        0 <= k < inputs.len(),
        inputs[k].index == index,
        inputs[k].sink != Some(sinks[s].index),
        is_told(inputs[k], clients, start.target),
{
    let run = start.after_sinks(Ok(sinks)).after_clients(Ok(clients));
    sink_is_found_by_name(sinks, start.sink_name);
    every_stream_is_seen_to(run, inputs);
    lemma_elsewhere(run, inputs, index);
    let k = choose|k: int|
        {
            &&& 0 <= k < inputs.len()
            &&& (#[trigger] inputs[k]).index == index
            &&& run.matches(inputs[k])
            &&& !run.is_there(inputs[k])
        };
    pulse::stream_is_known_by_any_of_four(inputs[k], run.clients, run.target);
    if inputs[k].client is Some && run.clients.contains_key(inputs[k].client->Some_0@) {
        let c = pulse::found_client_is_listed(clients, inputs[k].client->Some_0@);
        assert(clients[c].index == clients[c].index);
    }
    k
}

/// Without a sink of that name nothing is listed further.
pub proof fn missing_output_ends_the_run(start: RouteView, sinks: Seq<PulseSink>)
    requires
        forall|j: int| 0 <= j < sinks.len() ==> (#[trigger] sinks[j]).name@ != start.sink_name,
    ensures
        start.after_sinks(Ok(sinks)).phase == RoutePhase::Failed,
{
    sink_is_found_by_name(sinks, start.sink_name);
}

/// A list that could not be had, or a stream that could not be moved, ends the run, and
/// the message names the stream and the cause.
pub proof fn failed_command_ends_the_run(run: RouteView, error: Seq<char>)
    ensures
        run.after_sinks(Err(())).phase == RoutePhase::Failed,
        run.after_clients(Err(())).phase == RoutePhase::Failed,
        run.after_inputs(Err(())).phase == RoutePhase::Failed,
        run.after_move(OutcomeView::NotRun(error)).phase == RoutePhase::Failed,
        run.after_move(OutcomeView::Failed(error)).phase == RoutePhase::Failed,
        run.move_failure(OutcomeView::NotRun(error)) is Some,
        run.move_failure(OutcomeView::Failed(error)) is Some,
        run.move_failure(OutcomeView::Done(error)) is None,
        run.phase is Moving ==> text::occurs(
            run.move_failure(OutcomeView::NotRun(error))->Some_0,
            run.target + "` stream `"@ + number::decimal(run.phase->Moving_0 as nat) + "` into `"@
                + run.output_name + "`: "@ + error,
        ),
        run.phase is Moving ==> text::occurs(
            run.move_failure(OutcomeView::Failed(error))->Some_0,
            run.target + "` stream `"@ + number::decimal(run.phase->Moving_0 as nat) + "` into `"@
                + run.output_name + "`: "@ + text::trimmed(error),
        ),
{
    let none = Seq::<char>::empty();
    let stream = run.target + "` stream `"@ + number::decimal(run.phase->Moving_0 as nat)
        + "` into `"@ + run.output_name + "`: "@;
    let first = run.move_failure(OutcomeView::NotRun(error))->Some_0;
    let second = run.move_failure(OutcomeView::Failed(error))->Some_0;
    assert(first =~= "failed to move `"@ + (stream + error) + none);
    text::part_occurs("failed to move `"@, stream + error, none);
    assert(second =~= "pactl could not move `"@ + (stream + text::trimmed(error)) + none);
    text::part_occurs("pactl could not move `"@, stream + text::trimmed(error), none);
}

/// What the user is told of an attempt names the target and, where a stream is there,
/// the output: moved counts before already there, and either before not found.
pub proof fn summary_tells_what_was_done(
    attempt: AttemptView,
    output_name: Seq<char>,
    target: Seq<char>,
)
    ensures
        ({
            let summary = attempt_summary(attempt, output_name, target);
            &&& attempt.moved > 0 ==> text::occurs(
                summary,
                target + "` was detected and moved into `"@ + output_name,
            )
            &&& attempt.moved == 0 && attempt.already > 0 ==> text::occurs(
                summary,
                target + "` is already routed into `"@ + output_name,
            )
            &&& attempt.moved == 0 && attempt.already == 0 ==> text::occurs(
                summary,
                target + "` was not detected yet."@,
            )
        }),
{
    let summary = attempt_summary(attempt, output_name, target);
    if attempt.moved > 0 {
        let part = target + "` was detected and moved into `"@ + output_name;
        assert(summary =~= "`"@ + part + "` automatically."@);
        text::part_occurs("`"@, part, "` automatically."@);
    } else if attempt.already > 0 {
        let part = target + "` is already routed into `"@ + output_name;
        assert(summary =~= "`"@ + part + "`."@);
        text::part_occurs("`"@, part, "`."@);
    } else {
        reveal_strlit(
            "` was not detected yet. Start playback in that app, then Bardic Chord will try again when the party starts.",
        );
        reveal_strlit("` was not detected yet.");
        reveal_strlit(
            " Start playback in that app, then Bardic Chord will try again when the party starts.",
        );
        let part = target + "` was not detected yet."@;
        let rest =
            " Start playback in that app, then Bardic Chord will try again when the party starts."@;
        assert(summary =~= "`"@ + part + rest);
        text::part_occurs("`"@, part, rest);
    }
}

} // verus!
