//! The sound server of Linux: the output that Bardic Chord adds to it, and the
//! streams that are moved there.
use crate::command::{CommandOutcome, OutcomeView};
use crate::names;
use crate::names::{property_matches_capture_target, pulse_property_escape};
use crate::number;
use crate::number::to_decimal;
use crate::text;
use crate::text::trim;
use crate::textmap::TextMap;
use vstd::prelude::*;

verus! {

// ---------------------------------------------------------------------------
// Commands
// ---------------------------------------------------------------------------

/// The arguments of `pactl` that add an output.
pub open spec fn load_args(sink_name: Seq<char>, output_name: Seq<char>) -> Seq<Seq<char>> {
    seq![
        "load-module"@,
        "module-null-sink"@,
        "sink_name="@ + sink_name,
        "format=s16le"@,
        "channels=2"@,
        "rate=48000"@,
        "sink_properties=device.description='"@ + names::escaped(text::trimmed(output_name))
            + "' node.nick='"@ + names::escaped(text::trimmed(output_name)) + "'"@,
    ]
}

/// The arguments of `pactl` that add an output.
pub fn load_module_args(sink_name: &str, output_name: &str) -> (r: Vec<String>)
    ensures
        text::texts(r@) == load_args(sink_name@, output_name@),
{
    let description = pulse_property_escape(output_name);
    let r = vec![
        "load-module".to_owned(),
        "module-null-sink".to_owned(),
        "sink_name=".to_owned().concat(sink_name),
        "format=s16le".to_owned(),
        "channels=2".to_owned(),
        "rate=48000".to_owned(),
        "sink_properties=device.description='".to_owned().concat(description.as_str()).concat(
            "' node.nick='",
        ).concat(description.as_str()).concat("'"),
    ];
    assert(text::texts(r@) =~= load_args(sink_name@, output_name@));
    r
}

/// The module that the output was added as.
pub open spec fn loaded_module(outcome: OutcomeView) -> Result<Seq<char>, Seq<char>> {
    match outcome {
        OutcomeView::NotRun(error) => Err("failed to run pactl load-module: "@ + error),
        OutcomeView::Failed(stderr) => Err(
            "Bardic Chord could not create the Linux desktop output. `pactl load-module` failed: "@
                + text::trimmed(stderr),
        ),
        OutcomeView::Done(stdout) => if text::blank(stdout) {
            Err(
                "Bardic Chord created the Linux desktop output, but `pactl` did not return a module id."@,
            )
        } else {
            Ok(text::trimmed(stdout))
        },
    }
}

/// The module that the output was added as.
pub fn null_sink_module(outcome: CommandOutcome) -> (r: Result<String, String>)
    ensures
        match r {
            Ok(id) => loaded_module(outcome@) == Ok::<Seq<char>, Seq<char>>(id@),
            Err(message) => loaded_module(outcome@) == Err::<Seq<char>, Seq<char>>(message@),
        },
{
    match outcome {
        CommandOutcome::NotRun(error) => Err(
            "failed to run pactl load-module: ".to_owned().concat(error.as_str()),
        ),
        CommandOutcome::Failed(stderr) => Err(
            "Bardic Chord could not create the Linux desktop output. `pactl load-module` failed: ".to_owned().concat(
                trim(stderr.as_str()),
            ),
        ),
        CommandOutcome::Done(stdout) => {
            let id = trim(stdout.as_str());
            if id.is_empty() {
                Err(
                    "Bardic Chord created the Linux desktop output, but `pactl` did not return a module id.".to_owned(),
                )
            } else {
                Ok(id.to_owned())
            }
        },
    }
}

/// What is said where the output could not be taken away.
pub fn unload_failure(outcome: CommandOutcome, module_id: &str) -> (r: Option<String>)
    ensures
        text::opt(r) == match outcome@ {
            OutcomeView::NotRun(error) => Some("failed to run pactl unload-module: "@ + error),
            OutcomeView::Failed(stderr) => Some(
                "Bardic Chord could not unload the Linux desktop output module `"@ + module_id@
                    + "`: "@ + text::trimmed(stderr),
            ),
            OutcomeView::Done(_) => None,
        },
{
    match outcome {
        CommandOutcome::NotRun(error) => Some(
            "failed to run pactl unload-module: ".to_owned().concat(error.as_str()),
        ),
        CommandOutcome::Failed(stderr) => Some(
            "Bardic Chord could not unload the Linux desktop output module `".to_owned().concat(
                module_id,
            ).concat("`: ").concat(trim(stderr.as_str())),
        ),
        CommandOutcome::Done(_) => None,
    }
}

/// The arguments of `parec` that record what is sent to the output.
pub fn record_args(sink_name: &str) -> (r: Vec<String>)
    ensures
        text::texts(r@) == seq![
            "--device="@ + sink_name@ + ".monitor"@,
            "--format=s16le"@,
            "--channels=2"@,
            "--rate=48000"@,
            "--raw"@,
        ],
{
    let r = vec![
        "--device=".to_owned().concat(sink_name).concat(".monitor"),
        "--format=s16le".to_owned(),
        "--channels=2".to_owned(),
        "--rate=48000".to_owned(),
        "--raw".to_owned(),
    ];
    assert(text::texts(r@) =~= seq![
        "--device="@ + sink_name@ + ".monitor"@,
        "--format=s16le"@,
        "--channels=2"@,
        "--rate=48000"@,
        "--raw"@,
    ]);
    r
}

/// A list that the sound server keeps.
#[derive(Clone, Copy, Debug, PartialEq, Eq, Structural)]
pub enum PulseList {
    Sinks,
    Clients,
    SinkInputs,
}

impl PulseList {
    pub open spec fn text(self) -> Seq<char> {
        match self {
            PulseList::Sinks => "sinks"@,
            PulseList::Clients => "clients"@,
            PulseList::SinkInputs => "sink-inputs"@,
        }
    }

    /// The name by which `pactl` knows the list. It follows `--format=json list`.
    pub fn name(self) -> (r: &'static str)
        ensures
            r@ == self.text(),
    {
        match self {
            PulseList::Sinks => "sinks",
            PulseList::Clients => "clients",
            PulseList::SinkInputs => "sink-inputs",
        }
    }

    /// The arguments with which `pactl` prints the list, as messages show them.
    pub open spec fn shown(self) -> Seq<char> {
        "[\"--format=json\", \"list\", \""@ + self.text() + "\"]"@
    }

    fn show(self) -> (r: String)
        ensures
            r@ == self.shown(),
    {
        "[\"--format=json\", \"list\", \"".to_owned().concat(self.name()).concat("\"]")
    }

    /// What is said where the list could not be printed.
    pub fn failure(self, outcome: &CommandOutcome) -> (r: Option<String>)
        ensures
            text::opt(r) == match outcome@ {
                OutcomeView::NotRun(error) => Some(
                    "failed to run pactl "@ + self.shown() + ": "@ + error,
                ),
                OutcomeView::Failed(stderr) => Some(
                    "pactl "@ + self.shown() + " failed: "@ + text::trimmed(stderr),
                ),
                OutcomeView::Done(_) => None,
            },
    {
        match outcome {
            CommandOutcome::NotRun(error) => Some(
                "failed to run pactl ".to_owned().concat(self.show().as_str()).concat(": ").concat(
                    error.as_str(),
                ),
            ),
            CommandOutcome::Failed(stderr) => Some(
                "pactl ".to_owned().concat(self.show().as_str()).concat(" failed: ").concat(
                    trim(stderr.as_str()),
                ),
            ),
            CommandOutcome::Done(_) => None,
        }
    }

    /// What is said where the list could not be read.
    pub fn parse_failure(self, error: &str) -> (r: String)
        ensures
            r@ == "failed to parse pactl "@ + self.shown() + " JSON output: "@ + error@,
    {
        "failed to parse pactl ".to_owned().concat(self.show().as_str()).concat(
            " JSON output: ",
        ).concat(error)
    }
}

// ---------------------------------------------------------------------------
// Streams
// ---------------------------------------------------------------------------

#[derive(Debug)]
pub struct PulseClient {
    pub index: u32,
    pub properties: TextMap<String>,
}

#[derive(Debug)]
pub struct PulseSink {
    pub index: u32,
    pub name: String,
}

/// A stream that plays into an output.
#[derive(Debug)]
pub struct PulseSinkInput {
    pub index: u32,
    pub client: Option<String>,
    pub sink: Option<u32>,
    pub properties: TextMap<String>,
}

/// A property that says something.
pub open spec fn property(properties: Map<Seq<char>, String>, key: Seq<char>) -> Option<Seq<char>> {
    if properties.contains_key(key) && !text::blank(properties[key]@) {
        Some(text::trimmed(properties[key]@))
    } else {
        None
    }
}

/// Whether the name or the program of something is that of the target.
pub open spec fn properties_match(properties: Map<Seq<char>, String>, target: Seq<char>) -> bool {
    ||| match property(properties, "application.name"@) {
        Some(value) => names::matches_target(value, target),
        None => false,
    }
    ||| match property(properties, "application.process.binary"@) {
        Some(value) => names::matches_target(value, target),
        None => false,
    }
}

/// Whether a stream, or the client that it belongs to, has the name of the target.
pub open spec fn input_matches(
    input: PulseSinkInput,
    clients: Map<Seq<char>, TextMap<String>>,
    target: Seq<char>,
) -> bool {
    ||| properties_match(input.properties@, target)
    ||| match input.client {
        Some(id) => clients.contains_key(id@) && properties_match(clients[id@]@, target),
        None => false,
    }
}

/// A property that says something.
pub fn pulse_property_value<'a>(properties: &'a TextMap<String>, key: &str) -> (r: Option<&'a str>)
    ensures
        match r {
            Some(value) => property(properties@, key@) == Some(value@),
            None => property(properties@, key@) is None,
        },
{
    match properties.get(key) {
        Some(value) => {
            let value = trim(value.as_str());
            if value.is_empty() {
                None
            } else {
                Some(value)
            }
        },
        None => None,
    }
}

fn properties_match_target(properties: &TextMap<String>, capture_target: &str) -> (r: bool)
    ensures
        r == properties_match(properties@, capture_target@),
{
    if let Some(value) = pulse_property_value(properties, "application.name") {
        if property_matches_capture_target(value, capture_target) {
            return true;
        }
    }
    match pulse_property_value(properties, "application.process.binary") {
        Some(value) => property_matches_capture_target(value, capture_target),
        None => false,
    }
}

/// Whether a stream, or the client that it belongs to, has the name of the target.
pub fn sink_input_matches_target(
    input: &PulseSinkInput,
    client_properties: &TextMap<TextMap<String>>,
    capture_target: &str,
) -> (r: bool)
    ensures
        r == input_matches(*input, client_properties@, capture_target@),
{
    if properties_match_target(&input.properties, capture_target) {
        return true;
    }
    match &input.client {
        Some(id) => match client_properties.get(id.as_str()) {
            Some(properties) => properties_match_target(properties, capture_target),
            None => false,
        },
        None => false,
    }
}

/// The properties of the clients, by the decimal number of the client.
pub open spec fn client_map(clients: Seq<PulseClient>) -> Map<Seq<char>, TextMap<String>>
    decreases clients.len(),
{
    if clients.len() == 0 {
        Map::empty()
    } else {
        client_map(clients.drop_last()).insert(
            number::decimal(clients.last().index as nat),
            clients.last().properties,
        )
    }
}

/// The properties of the clients, by the decimal number of the client.
pub fn collect_client_properties(clients: Vec<PulseClient>) -> (r: TextMap<TextMap<String>>)
    ensures
        r@ == client_map(clients@),
{
    let ghost all = clients@;
    let mut left = clients;
    let mut r: TextMap<TextMap<String>> = TextMap::new();
    assert(all.skip(0) =~= all);
    assert(all.take(0) =~= Seq::<PulseClient>::empty());
    while left.len() > 0
        invariant
            left@.len() <= all.len(),
            left@ == all.skip(all.len() - left@.len()),
            r@ == client_map(all.take(all.len() - left@.len())),
        decreases left@.len(),
    {
        let ghost done = all.len() - left@.len();
        assert(left@[0] == all[done]);
        let client = left.remove(0);
        assert(left@ =~= all.skip(done + 1));
        assert(all.take(done + 1).drop_last() =~= all.take(done));
        r.insert(to_decimal(client.index as u64), client.properties);
    }
    assert(all.take(all.len() as int) =~= all);
    r
}

// ---------------------------------------------------------------------------
// Laws
// ---------------------------------------------------------------------------

/// A property under this key is there, is not blank, and matches the target.
pub open spec fn tells(
    properties: Map<Seq<char>, String>,
    key: Seq<char>,
    target: Seq<char>,
) -> bool {
    properties.contains_key(key) && !text::blank(properties[key]@) && names::matches_target(
        properties[key]@,
        target,
    )
}

/// The name alone is enough for a match, the program alone is enough, whatever the
/// other one says, and nothing else is.
pub proof fn name_or_program_decides(properties: Map<Seq<char>, String>, target: Seq<char>)
    ensures
        tells(properties, "application.name"@, target) ==> properties_match(properties, target),
        tells(properties, "application.process.binary"@, target) ==> properties_match(
            properties,
            target,
        ),
        properties_match(properties, target) ==> tells(properties, "application.name"@, target)
            || tells(properties, "application.process.binary"@, target),
{
    let name = "application.name"@;
    let binary = "application.process.binary"@;
    if properties.contains_key(name) {
        lemma_trimmed_value_matches_alike(properties[name]@, target);
    }
    if properties.contains_key(binary) {
        lemma_trimmed_value_matches_alike(properties[binary]@, target);
    }
}

proof fn lemma_trimmed_value_matches_alike(value: Seq<char>, target: Seq<char>)
    ensures
        names::matches_target(text::trimmed(value), target) == names::matches_target(value, target),
{
    text::strip_is_idempotent(value, text::CharClass::Space);
}

/// A property that is added never turns a match into none.
pub proof fn more_properties_hide_no_match(
    properties: Map<Seq<char>, String>,
    key: Seq<char>,
    value: String,
    target: Seq<char>,
)
    requires
        !properties.contains_key(key),
        properties_match(properties, target),
    ensures
        properties_match(properties.insert(key, value), target),
{
    let more = properties.insert(key, value);
    name_or_program_decides(properties, target);
    name_or_program_decides(more, target);
    if tells(properties, "application.name"@, target) {
        assert(tells(more, "application.name"@, target));
    } else {
        assert(tells(more, "application.process.binary"@, target));
    }
}

/// A stream is the target's where its own name or program, or that of the client that
/// it belongs to, tells so: each of the four by itself, and nothing else.
pub proof fn stream_is_known_by_any_of_four(
    input: PulseSinkInput,
    clients: Map<Seq<char>, TextMap<String>>,
    target: Seq<char>,
)
    ensures
        tells(input.properties@, "application.name"@, target) ==> input_matches(
            input,
            clients,
            target,
        ),
        tells(input.properties@, "application.process.binary"@, target) ==> input_matches(
            input,
            clients,
            target,
        ),
        input.client is Some && clients.contains_key(input.client->Some_0@) && tells(
            clients[input.client->Some_0@]@,
            "application.name"@,
            target,
        ) ==> input_matches(input, clients, target),
        input.client is Some && clients.contains_key(input.client->Some_0@) && tells(
            clients[input.client->Some_0@]@,
            "application.process.binary"@,
            target,
        ) ==> input_matches(input, clients, target),
        input_matches(input, clients, target) ==> {
            ||| tells(input.properties@, "application.name"@, target)
            ||| tells(input.properties@, "application.process.binary"@, target)
            ||| input.client is Some && clients.contains_key(input.client->Some_0@) && (tells(
                clients[input.client->Some_0@]@,
                "application.name"@,
                target,
            ) || tells(clients[input.client->Some_0@]@, "application.process.binary"@, target))
        },
{
    name_or_program_decides(input.properties@, target);
    if input.client is Some && clients.contains_key(input.client->Some_0@) {
        name_or_program_decides(clients[input.client->Some_0@]@, target);
    }
}

/// The last client with a number is found under that number.
pub proof fn client_is_found_by_number(clients: Seq<PulseClient>, k: int)
    requires
        0 <= k < clients.len(),
        forall|j: int| k < j < clients.len() ==> (#[trigger] clients[j]).index != clients[k].index,
    ensures
        client_map(clients).contains_key(number::decimal(clients[k].index as nat)),
        client_map(clients)[number::decimal(clients[k].index as nat)] == clients[k].properties,
    decreases clients.len(),
{
    if k + 1 < clients.len() {
        let before = clients.drop_last();
        assert forall|j: int| k < j < before.len() implies (#[trigger] before[j]).index
            != before[k].index by {
            assert(before[j] == clients[j]);
        }
        client_is_found_by_number(before, k);
        assert(clients[clients.len() - 1].index != clients[k].index);
        if number::decimal(clients.last().index as nat) == number::decimal(
            clients[k].index as nat,
        ) {
            number::decimal_is_injective(clients.last().index as nat, clients[k].index as nat);
        }
    }
}

/// What is found under a text belongs to a client with that number.
pub proof fn found_client_is_listed(clients: Seq<PulseClient>, id: Seq<char>) -> (k: int)
    requires
        client_map(clients).contains_key(id),
    ensures
        0 <= k < clients.len(),
        number::decimal(clients[k].index as nat) == id,
        client_map(clients)[id] == clients[k].properties,
    decreases clients.len(),
{
    if number::decimal(clients.last().index as nat) == id {
        clients.len() - 1
    } else {
        found_client_is_listed(clients.drop_last(), id)
    }
}

/// The output is added under the name of the sink and described with the name of the
/// output: whoever reads the quoted description sees that name, but for double quotes.
pub proof fn added_output_has_its_names(sink_name: Seq<char>, output_name: Seq<char>)
    ensures
        ({
            let args = load_args(sink_name, output_name);
            let described = names::escaped(text::trimmed(output_name));
            &&& args.len() == 7
            &&& args[2] == "sink_name="@ + sink_name
            &&& text::occurs(args[6], "device.description='"@ + described + "' node.nick='"@)
            &&& names::unescaped(described) == names::without_double_quotes(
                text::trimmed(output_name),
            )
        }),
{
    let args = load_args(sink_name, output_name);
    let described = names::escaped(text::trimmed(output_name));
    names::escape_keeps_text(text::trimmed(output_name));
    reveal_strlit("sink_properties=device.description='");
    reveal_strlit("sink_properties=");
    reveal_strlit("device.description='");
    assert("sink_properties=device.description='"@ =~= "sink_properties="@
        + "device.description='"@);
    let part = "device.description='"@ + described + "' node.nick='"@;
    assert(args[6] =~= "sink_properties="@ + part + (described + "'"@));
    text::part_occurs("sink_properties="@, part, described + "'"@);
}

/// The module is the one whose number was printed, and there is none where nothing was
/// printed or the command failed.
pub proof fn printed_module_is_kept(
    front: Seq<char>,
    id: Seq<char>,
    back: Seq<char>,
    error: Seq<char>,
)
    requires
        text::CharClass::Space.has_all(front),
        text::CharClass::Space.has_all(back),
        id.len() > 0,
        !text::CharClass::Space.has(id[0]),
        !text::CharClass::Space.has(id.last()),
    ensures
        loaded_module(OutcomeView::Done(front + id + back)) == Ok::<Seq<char>, Seq<char>>(id),
        loaded_module(OutcomeView::Done(front)) is Err,
        loaded_module(OutcomeView::NotRun(error)) is Err,
        loaded_module(OutcomeView::Failed(error)) is Err,
        text::occurs(loaded_module(OutcomeView::NotRun(error))->Err_0, error),
        text::occurs(loaded_module(OutcomeView::Failed(error))->Err_0, text::trimmed(error)),
{
    let none = Seq::<char>::empty();
    text::strip_of_padded(front, id, back, text::CharClass::Space);
    text::blank_is_all_space(front);
    let first = "failed to run pactl load-module: "@;
    let second =
        "Bardic Chord could not create the Linux desktop output. `pactl load-module` failed: "@;
    assert(first + error + none =~= first + error);
    text::part_occurs(first, error, none);
    assert(second + text::trimmed(error) + none =~= second + text::trimmed(error));
    text::part_occurs(second, text::trimmed(error), none);
}

} // verus!
