//! The names that a user types and the forms in which the system takes them.
use crate::text;
use crate::text::{chars_of, is_blank, join_runs, to_ascii_lowercase, trim, CharClass};
use vstd::prelude::*;

verus! {

pub const DEFAULT_AUDIO_OUTPUT_NAME: &'static str = "Bardic_Chord";

pub const DEFAULT_CAPTURE_TARGET: &'static str = "spotify";

/// The display name of the audio output: the words of `value` with `_` between
/// them, and the default where there is no word.
pub open spec fn output_name(value: Seq<char>) -> Seq<char> {
    if text::blank(value) {
        DEFAULT_AUDIO_OUTPUT_NAME@
    } else {
        text::join(
            text::runs(text::trimmed(value), CharClass::NotSpace),
            "_"@,
        )
    }
}

/// The app to capture: `value` without white space at its ends, and the default
/// where nothing is left.
pub open spec fn capture_target(value: Seq<char>) -> Seq<char> {
    if text::blank(value) {
        DEFAULT_CAPTURE_TARGET@
    } else {
        text::trimmed(value)
    }
}

pub fn audio_output_name_or_default(value: &str) -> (r: String)
    ensures
        r@ == output_name(value@),
{
    if is_blank(value) {
        DEFAULT_AUDIO_OUTPUT_NAME.to_owned()
    } else {
        join_runs(trim(value), CharClass::NotSpace, "_")
    }
}

pub fn capture_target_or_default(value: &str) -> (r: String)
    ensures
        r@ == capture_target(value@),
{
    if is_blank(value) {
        DEFAULT_CAPTURE_TARGET.to_owned()
    } else {
        trim(value).to_owned()
    }
}

/// `value` without white space at its ends, if anything is left.
pub fn non_empty(value: &str) -> (r: Option<&str>)
    ensures
        match r {
            Some(kept) => !text::blank(value@) && kept@ == text::trimmed(value@),
            None => text::blank(value@),
        },
{
    let kept = trim(value);
    if kept.is_empty() {
        None
    } else {
        Some(kept)
    }
}

/// The ASCII words of `value` in small letters, with `_` between them.
pub open spec fn sink_words(value: Seq<char>) -> Seq<char> {
    text::join(
        text::runs(text::lowered(value), CharClass::Alphanumeric),
        "_"@,
    )
}

/// The name of the sink that carries the output called `value`.
pub open spec fn sink_name(value: Seq<char>) -> Seq<char> {
    let words = sink_words(value);
    if words.len() == 0 {
        "bardic_chord"@
    } else if text::is_digit(words[0]) {
        "bardic_"@ + words
    } else {
        words
    }
}

/// The name of the sink that carries the output called `value`.
pub fn sanitize_audio_output_name(value: &str) -> (r: String)
    ensures
        r@ == sink_name(value@),
{
    let small = to_ascii_lowercase(value);
    let words = join_runs(small.as_str(), CharClass::Alphanumeric, "_");
    if words.as_str().is_empty() {
        "bardic_chord".to_owned()
    } else if CharClass::Digit.contains(words.as_str().get_char(0)) {
        "bardic_".to_owned().concat(words.as_str())
    } else {
        words
    }
}

/// One character of a property value inside single quotes.
pub open spec fn escaped_char(c: char) -> Seq<char> {
    if c == '\\' {
        seq!['\\', '\\']
    } else if c == '\'' {
        seq!['\\', '\'']
    } else if c == '"' {
        seq![]
    } else {
        seq![c]
    }
}

/// `s` as it stands in a property value inside single quotes.
pub open spec fn escaped(s: Seq<char>) -> Seq<char>
    decreases s.len(),
{
    if s.len() == 0 {
        seq![]
    } else {
        escaped_char(s[0]) + escaped(s.drop_first())
    }
}

/// `value`, without white space at its ends, as it stands in a property value
/// inside single quotes.
pub fn pulse_property_escape(value: &str) -> (r: String)
    ensures
        r@ == escaped(text::trimmed(value@)),
{
    let kept = trim(value);
    let chars = chars_of(kept);
    let mut r = String::new();
    let mut i: usize = 0;
    assert(kept@.skip(0) == kept@);
    assert(r@ + escaped(kept@) == escaped(kept@));
    while i < chars.len()
        invariant
            i <= chars@.len(),
            chars@ == kept@,
            r@ + escaped(kept@.skip(i as int)) == escaped(kept@),
        decreases chars@.len() - i,
    {
        let c = chars[i];
        let ghost before = r@;
        let ghost rest = kept@.skip(i as int);
        assert(rest[0] == c);
        assert(rest.drop_first() == kept@.skip(i + 1));
        assert(before + (escaped_char(c) + escaped(kept@.skip(i + 1))) == (before + escaped_char(c))
            + escaped(kept@.skip(i + 1)));
        if c == '\\' {
            r.push('\\');
            r.push('\\');
        } else if c == '\'' {
            r.push('\\');
            r.push('\'');
        } else if c != '"' {
            r.push(c);
        }
        assert(r@ == before + escaped_char(c));
        i += 1;
    }
    assert(kept@.skip(kept@.len() as int).len() == 0);
    assert(r@ + Seq::<char>::empty() == r@);
    r
}

/// Whether the process or application name `value` belongs to the app that the
/// user named `target`: letter case and a file ending `.exe` do not matter.
pub open spec fn matches_target(value: Seq<char>, target: Seq<char>) -> bool {
    let wanted = text::lowered(text::trimmed(target));
    let found = text::lowered(text::trimmed(value));
    &&& wanted.len() > 0
    &&& {
        ||| text::occurs(found, wanted)
        ||| text::occurs(found, wanted + ".exe"@)
        ||| text::occurs(
            text::without_suffixes(found, ".exe"@),
            text::without_suffixes(wanted, ".exe"@),
        )
    }
}

pub fn property_matches_capture_target(value: &str, capture_target: &str) -> (r: bool)
    ensures
        r == matches_target(value@, capture_target@),
{
    let wanted = to_ascii_lowercase(trim(capture_target));
    if wanted.as_str().is_empty() {
        return false;
    }
    let found = to_ascii_lowercase(trim(value));
    text::contains(found.as_str(), wanted.as_str()) || text::contains(
        found.as_str(),
        wanted.clone().concat(".exe").as_str(),
    ) || text::contains(
        text::trim_end_matches(found.as_str(), ".exe"),
        text::trim_end_matches(wanted.as_str(), ".exe"),
    )
}

pub fn process_name_matches_target(process_name: &str, capture_target: &str) -> (r: bool)
    ensures
        r == matches_target(process_name@, capture_target@),
{
    property_matches_capture_target(process_name, capture_target)
}

// ---------------------------------------------------------------------------
// Laws
// ---------------------------------------------------------------------------

/// A default name is a word: no white space, nothing to strip.
proof fn lemma_defaults_are_words()
    ensures
        CharClass::NotSpace.has_all(DEFAULT_AUDIO_OUTPUT_NAME@),
        CharClass::NotSpace.has_all(DEFAULT_CAPTURE_TARGET@),
        DEFAULT_AUDIO_OUTPUT_NAME@.len() > 0,
        DEFAULT_CAPTURE_TARGET@.len() > 0,
{
    reveal_strlit("Bardic_Chord");
    reveal_strlit("spotify");
}

/// A text without white space is its own trimmed form.
proof fn lemma_word_is_trimmed(s: Seq<char>)
    requires
        CharClass::NotSpace.has_all(s),
    ensures
        text::trimmed(s) == s,
{
    if s.len() > 0 {
        assert(CharClass::NotSpace.has(s[0]));
        assert(CharClass::NotSpace.has(s[s.len() - 1]));
    }
    text::strip_keeps_clean_text(s, CharClass::Space);
}

/// An audio output name is never empty and holds no white space.
pub proof fn output_name_is_a_word(value: Seq<char>)
    ensures
        output_name(value).len() > 0,
        CharClass::NotSpace.has_all(output_name(value)),
{
    lemma_defaults_are_words();
    if !text::blank(value) {
        let kept = text::trimmed(value);
        let words = text::runs(kept, CharClass::NotSpace);
        reveal_strlit("_");
        text::strip_takes_only_edges(value, CharClass::Space);
        text::runs_are_in_class(kept, CharClass::NotSpace);
        text::runs_are_empty_without_members(kept, CharClass::NotSpace);
        assert(CharClass::NotSpace.has(kept[0]));
        assert forall|k: int, i: int|
            0 <= k < words.len() && 0 <= i < words[k].len() implies CharClass::NotSpace.has(
            #[trigger] words[k][i],
        ) by {
            assert(CharClass::NotSpace.has_all(words[k]));
        }
        text::join_keeps(words, "_"@, |c: char| CharClass::NotSpace.has(c));
        assert(words.last() == words[words.len() - 1]);
        assert(output_name(value).len() > 0);
        assert forall|i: int| 0 <= i < output_name(value).len() implies CharClass::NotSpace.has(
            #[trigger] output_name(value)[i],
        ) by {
            let good = |c: char| CharClass::NotSpace.has(c);
            assert(good(text::join(words, "_"@)[i]));
        }
    }
}

/// A name that was made ready once stays as it is.
pub proof fn output_name_is_idempotent(value: Seq<char>)
    ensures
        output_name(output_name(value)) == output_name(value),
{
    let name = output_name(value);
    output_name_is_a_word(value);
    lemma_word_is_trimmed(name);
    text::runs_of_members(name, CharClass::NotSpace);
}

/// A capture target is never empty and has no white space at its ends.
pub proof fn capture_target_is_clean(value: Seq<char>)
    ensures
        capture_target(value).len() > 0,
        text::trimmed(capture_target(value)) == capture_target(value),
        capture_target(capture_target(value)) == capture_target(value),
{
    lemma_defaults_are_words();
    if text::blank(value) {
        lemma_word_is_trimmed(DEFAULT_CAPTURE_TARGET@);
    } else {
        text::strip_is_idempotent(value, CharClass::Space);
    }
}

/// The characters of a sink name.
pub open spec fn is_sink_char(c: char) -> bool {
    'a' <= c <= 'z' || '0' <= c <= '9' || c == '_'
}

/// The ASCII letters and digits after the capitals were made small.
pub open spec fn is_small_alphanumeric(c: char) -> bool {
    'a' <= c <= 'z' || '0' <= c <= '9'
}

proof fn lemma_lowered(s: Seq<char>)
    ensures
        lowered_has_no_capitals(s),
{
}

/// No capital is left in the lowered text.
pub open spec fn lowered_has_no_capitals(s: Seq<char>) -> bool {
    forall|i: int|
        0 <= i < s.len() ==> !('A' <= #[trigger] text::lowered(s)[i] && text::lowered(
            s,
        )[i] <= 'Z')
}

/// The runs of a text come from the characters of the text.
proof fn lemma_runs_members(s: Seq<char>, class: CharClass, good: spec_fn(char) -> bool)
    requires
        forall|i: int| 0 <= i < s.len() ==> good(#[trigger] s[i]),
    ensures
        forall|k: int, i: int|
            0 <= k < text::runs(s, class).len() && 0 <= i < text::runs(
                s,
                class,
            )[k].len() ==> good(#[trigger] text::runs(s, class)[k][i]),
    decreases s.len(),
{
    if s.len() > 0 {
        let rest = s.drop_last();
        assert forall|i: int| 0 <= i < rest.len() implies good(#[trigger] rest[i]) by {
            assert(rest[i] == s[i]);
        }
        lemma_runs_members(rest, class, good);
        assert(good(s[s.len() - 1]));
        let before = text::runs(rest, class);
        let all = text::runs(s, class);
        assert forall|k: int, i: int| 0 <= k < all.len() && 0 <= i < all[k].len() implies good(
            #[trigger] all[k][i],
        ) by {
            if k < before.len() && i < before[k].len() {
                assert(good(before[k][i]));
            }
        }
    }
}

proof fn lemma_sink_runs(value: Seq<char>)
    ensures
        forall|k: int|
            0 <= k < text::runs(
                text::lowered(value),
                CharClass::Alphanumeric,
            ).len() ==> {
                let run = #[trigger] text::runs(
                    text::lowered(value),
                    CharClass::Alphanumeric,
                )[k];
                &&& run.len() > 0
                &&& CharClass::Alphanumeric.has_all(run)
                &&& forall|i: int| 0 <= i < run.len() ==> is_small_alphanumeric(#[trigger] run[i])
            },
{
    let small = text::lowered(value);
    let class = CharClass::Alphanumeric;
    let found = text::runs(small, class);
    let good = |c: char| !('A' <= c <= 'Z');
    lemma_lowered(value);
    text::runs_are_in_class(small, class);
    assert forall|i: int| 0 <= i < small.len() implies good(#[trigger] small[i]) by {
        assert(text::lowered(value)[i] == small[i]);
    }
    lemma_runs_members(small, class, good);
    assert forall|k: int| 0 <= k < found.len() implies {
        let run = #[trigger] found[k];
        &&& run.len() > 0
        &&& class.has_all(run)
        &&& forall|i: int| 0 <= i < run.len() ==> is_small_alphanumeric(#[trigger] run[i])
    } by {
        let run = found[k];
        assert(class.has_all(run));
        assert forall|i: int| 0 <= i < run.len() implies is_small_alphanumeric(
            #[trigger] run[i],
        ) by {
            assert(class.has(run[i]));
            assert(good(found[k][i]));
        }
    }
}

/// The words of which a sink name is joined.
pub open spec fn sink_parts(value: Seq<char>) -> Seq<Seq<char>> {
    let found = text::runs(text::lowered(value), CharClass::Alphanumeric);
    if found.len() == 0 {
        seq!["bardic"@, "chord"@]
    } else if text::is_digit(found[0][0]) {
        seq!["bardic"@] + found
    } else {
        found
    }
}

/// The first part comes first in what the parts are joined to.
proof fn lemma_join_front(parts: Seq<Seq<char>>, separator: Seq<char>)
    requires
        parts.len() > 0,
        parts[0].len() > 0,
    ensures
        text::join(parts, separator).len() > 0,
        text::join(parts, separator)[0] == parts[0][0],
    decreases parts.len(),
{
    if parts.len() > 1 {
        lemma_join_front(parts.drop_last(), separator);
    }
}

/// A sink name is small ASCII words with one `_` between each two, and its first
/// character is a letter.
pub proof fn sink_name_is_well_formed(value: Seq<char>)
    ensures
        sink_name(value) == text::join(sink_parts(value), seq!['_']),
        sink_parts(value).len() > 0,
        forall|k: int|
            0 <= k < sink_parts(value).len() ==> {
                let part = #[trigger] sink_parts(value)[k];
                &&& part.len() > 0
                &&& CharClass::Alphanumeric.has_all(part)
                &&& forall|i: int| 0 <= i < part.len() ==> is_small_alphanumeric(#[trigger] part[i])
            },
        sink_name(value).len() > 0,
        'a' <= sink_name(value)[0] <= 'z',
        forall|i: int| 0 <= i < sink_name(value).len() ==> is_sink_char(#[trigger] sink_name(value)[i]),
{
    let found = text::runs(text::lowered(value), CharClass::Alphanumeric);
    let parts = sink_parts(value);
    let glue = seq!['_'];
    lemma_sink_runs(value);
    reveal_strlit("_");
    reveal_strlit("bardic_");
    reveal_strlit("bardic_chord");
    reveal_strlit("bardic");
    reveal_strlit("chord");
    assert("_"@ =~= glue);
    assert("bardic_"@ =~= "bardic"@ + glue);
    assert("bardic_chord"@ =~= "bardic"@ + glue + "chord"@);
    if found.len() == 0 {
        assert(parts.drop_last() == seq!["bardic"@]);
        assert(text::join(parts.drop_last(), glue) == "bardic"@);
        assert(sink_words(value).len() == 0);
    } else {
        lemma_join_front(found, glue);
        assert(CharClass::Alphanumeric.has_all(found[0]));
        assert(is_small_alphanumeric(found[0][0]));
        if text::is_digit(found[0][0]) {
            text::join_starts_with_first("bardic"@, found, glue);
        }
    }
    lemma_join_front(parts, glue);
    let good = |c: char| is_sink_char(c);
    assert forall|k: int, i: int| 0 <= k < parts.len() && 0 <= i < parts[k].len() implies good(
        #[trigger] parts[k][i],
    ) by {
        assert(is_small_alphanumeric(parts[k][i]));
    }
    text::join_keeps(parts, glue, good);
    assert forall|i: int| 0 <= i < sink_name(value).len() implies is_sink_char(
        #[trigger] sink_name(value)[i],
    ) by {
        assert(good(text::join(parts, glue)[i]));
    }
}

/// A sink name is the sink name of itself.
pub proof fn sink_name_is_idempotent(value: Seq<char>)
    ensures
        sink_name(sink_name(value)) == sink_name(value),
{
    let name = sink_name(value);
    let parts = sink_parts(value);
    sink_name_is_well_formed(value);
    assert forall|i: int| 0 <= i < name.len() implies text::lower_char(
        #[trigger] name[i],
    ) == name[i] by {
        assert(is_sink_char(name[i]));
    }
    assert(text::lowered(name) =~= name);
    text::runs_invert_join(parts, '_', CharClass::Alphanumeric);
    reveal_strlit("_");
    assert("_"@ =~= seq!['_']);
}

/// What a reader of a single-quoted property value sees: a backslash stands for
/// the character after it.
pub open spec fn unescaped(s: Seq<char>) -> Seq<char>
    decreases s.len(),
{
    if s.len() == 0 {
        seq![]
    } else if s[0] == '\\' && s.len() > 1 {
        seq![s[1]] + unescaped(s.skip(2))
    } else {
        seq![s[0]] + unescaped(s.drop_first())
    }
}

/// `s` without its double quotes.
pub open spec fn without_double_quotes(s: Seq<char>) -> Seq<char>
    decreases s.len(),
{
    if s.len() == 0 {
        seq![]
    } else if s[0] == '"' {
        without_double_quotes(s.drop_first())
    } else {
        seq![s[0]] + without_double_quotes(s.drop_first())
    }
}

/// Escaping keeps the whole display name but for its double quotes.
pub proof fn escape_keeps_text(s: Seq<char>)
    ensures
        unescaped(escaped(s)) == without_double_quotes(s),
    decreases s.len(),
{
    if s.len() > 0 {
        let rest = s.drop_first();
        escape_keeps_text(rest);
        let whole = escaped(s);
        let tail = escaped(rest);
        if s[0] == '"' {
            assert(whole == tail);
        } else if s[0] == '\\' || s[0] == '\'' {
            assert(whole.skip(2) == tail);
        } else {
            assert(whole.drop_first() == tail);
        }
    }
}

/// A target of white space alone matches nothing.
pub proof fn blank_target_matches_nothing(value: Seq<char>, target: Seq<char>)
    requires
        text::blank(target),
    ensures
        !matches_target(value, target),
{
}

/// A name matches the target of the same letters, in whatever case either is
/// written, and with whatever white space at its ends.
pub proof fn name_matches_itself(value: Seq<char>, target: Seq<char>)
    requires
        !text::blank(target),
        text::lowered(text::trimmed(value)) == text::lowered(text::trimmed(target)),
    ensures
        matches_target(value, target),
{
    let wanted = text::lowered(text::trimmed(target));
    assert(wanted.subrange(0, wanted.len() as int) == wanted);
    assert(text::occurs_at(wanted, wanted, 0));
}

/// White space at the ends of a name or of a target does not matter.
pub proof fn matching_ignores_edges(value: Seq<char>, target: Seq<char>)
    ensures
        matches_target(text::trimmed(value), text::trimmed(target)) == matches_target(
            value,
            target,
        ),
{
    text::strip_is_idempotent(value, CharClass::Space);
    text::strip_is_idempotent(target, CharClass::Space);
}

/// What stands in a part of a text stands in the text.
proof fn lemma_occurs_in_whole(front: Seq<char>, part: Seq<char>, back: Seq<char>, pattern: Seq<char>)
    requires
        text::occurs(part, pattern),
    ensures
        text::occurs(front + part + back, pattern),
{
    let i = choose|i: int| text::occurs_at(part, pattern, i);
    let whole = front + part + back;
    assert(whole.subrange(front.len() + i, front.len() + i + pattern.len()) =~= part.subrange(
        i,
        i + pattern.len(),
    ));
    assert(text::occurs_at(whole, pattern, front.len() + i));
}

/// A text that holds a longer one holds its beginning.
proof fn lemma_beginning_occurs(s: Seq<char>, start: Seq<char>, rest: Seq<char>)
    requires
        text::occurs(s, start + rest),
    ensures
        text::occurs(s, start),
{
    let i = choose|i: int| text::occurs_at(s, start + rest, i);
    assert(s.subrange(i, i + start.len()) =~= (start + rest).take(start.len() as int));
    assert((start + rest).take(start.len() as int) =~= start);
    assert(text::occurs_at(s, start, i));
}

proof fn lemma_suffixes_are_an_end(s: Seq<char>, suffix: Seq<char>) -> (rest: Seq<char>)
    requires
        suffix.len() > 0,
    ensures
        s == text::without_suffixes(s, suffix) + rest,
    decreases s.len(),
{
    if text::occurs_at(s, suffix, s.len() - suffix.len()) {
        let before = s.take(s.len() - suffix.len());
        let rest = lemma_suffixes_are_an_end(before, suffix);
        assert(s =~= before + suffix);
        assert(before + suffix =~= text::without_suffixes(before, suffix) + (rest + suffix));
        rest + suffix
    } else {
        assert(s =~= s + Seq::<char>::empty());
        Seq::empty()
    }
}

/// A name that holds the target anywhere, letter case aside, matches it, whatever
/// stands before and behind.
pub proof fn contained_target_matches(
    front: Seq<char>,
    core: Seq<char>,
    back: Seq<char>,
    target: Seq<char>,
)
    requires
        !text::blank(target),
        text::lowered(core) == text::lowered(text::trimmed(target)),
    ensures
        matches_target(front + core + back, target),
{
    let class = CharClass::Space;
    let value = front + core + back;
    let wanted = text::lowered(text::trimmed(target));
    let kept = text::trimmed(value);
    let (before, behind) = text::stripped_edges(value, class);
    text::strip_takes_only_edges(target, class);
    assert(text::lowered(core).len() == core.len() && text::trimmed(target).len() > 0);
    assert(wanted[0] == text::lower_char(core[0]));
    assert(wanted.last() == text::lower_char(core.last()));
    assert(!class.has(core[0]) && !class.has(core.last()));
    let first = front.len() as int;
    let last = front.len() + core.len() - 1;
    assert(value[first] == core[0] && value[last] == core.last());
    if first < before.len() {
        assert(class.has(before[first]));
    }
    if last >= before.len() + kept.len() {
        assert(value[last] == behind[last - before.len() - kept.len()]);
    }
    let at = first - before.len();
    assert(kept.subrange(at, at + core.len()) =~= core) by {
        assert forall|i: int| 0 <= i < core.len() implies kept[at + i] == core[i] by {
            assert(value[first + i] == core[i]);
            assert(value[first + i] == kept[at + i]);
        }
    }
    assert(text::lowered(kept).subrange(at, at + wanted.len()) =~= text::lowered(
        kept.subrange(at, at + core.len()),
    ));
    assert(text::occurs_at(text::lowered(kept), wanted, at));
}

/// A name that matches holds the target, letter case and endings `.exe` of the target
/// aside.
pub proof fn matching_name_holds_target(value: Seq<char>, target: Seq<char>)
    requires
        matches_target(value, target),
    ensures
        !text::blank(target),
        text::occurs(
            text::lowered(value),
            text::without_suffixes(text::lowered(text::trimmed(target)), ".exe"@),
        ),
{
    reveal_strlit(".exe");
    let wanted = text::lowered(text::trimmed(target));
    let stem = text::without_suffixes(wanted, ".exe"@);
    let found = text::lowered(text::trimmed(value));
    let ending = lemma_suffixes_are_an_end(wanted, ".exe"@);
    let (before, behind) = text::stripped_edges(value, CharClass::Space);
    assert(text::lowered(value) =~= text::lowered(before) + found + text::lowered(behind));
    if text::occurs(found, wanted) {
        lemma_beginning_occurs(found, stem, ending);
    } else if text::occurs(found, wanted + ".exe"@) {
        assert(wanted + ".exe"@ =~= stem + (ending + ".exe"@));
        lemma_beginning_occurs(found, stem, ending + ".exe"@);
    } else {
        let plain = text::without_suffixes(found, ".exe"@);
        let rest = lemma_suffixes_are_an_end(found, ".exe"@);
        assert(found =~= Seq::<char>::empty() + plain + rest);
        lemma_occurs_in_whole(Seq::empty(), plain, rest, stem);
    }
    lemma_occurs_in_whole(text::lowered(before), found, text::lowered(behind), stem);
}

/// A file ending `.exe` does not matter, on the name, on the target or on both.
pub proof fn exe_ending_does_not_matter(value: Seq<char>, target: Seq<char>)
    requires
        target.len() > 0,
        text::trimmed(target) == target,
        text::trimmed(value) == value,
        text::occurs(text::lowered(value), text::lowered(target)),
        !text::occurs_at(text::lowered(value), ".exe"@, value.len() - 4),
        !text::occurs_at(text::lowered(target), ".exe"@, target.len() - 4),
    ensures
        matches_target(value, target),
        matches_target(value, target + ".exe"@),
        matches_target(value + ".exe"@, target),
        matches_target(value + ".exe"@, target + ".exe"@),
{
    reveal_strlit(".exe");
    let class = CharClass::Space;
    let ending = ".exe"@;
    assert(text::lowered(ending) =~= ending);
    assert(text::lowered(value + ending) =~= text::lowered(value) + ending);
    assert(text::lowered(target + ending) =~= text::lowered(target) + ending);
    text::strip_takes_only_edges(value, class);
    text::strip_takes_only_edges(target, class);
    text::no_affix_is_left(text::lowered(value), ending);
    text::no_affix_is_left(text::lowered(target), ending);
    assert(value.len() > 0);
    assert((value + ending)[0] == value[0] && (value + ending).last() == 'e');
    assert((target + ending)[0] == target[0] && (target + ending).last() == 'e');
    text::strip_keeps_clean_text(value + ending, class);
    text::strip_keeps_clean_text(target + ending, class);
}

/// The words of an output name stand in it in order, whatever white space was between
/// and around them.
pub proof fn output_name_joins_words(
    front: Seq<char>,
    words: Seq<Seq<char>>,
    separator: char,
    back: Seq<char>,
)
    requires
        words.len() > 0,
        forall|k: int|
            0 <= k < words.len() ==> (#[trigger] words[k]).len() > 0
                && CharClass::NotSpace.has_all(words[k]),
        CharClass::Space.has(separator),
        CharClass::Space.has_all(front),
        CharClass::Space.has_all(back),
    ensures
        output_name(front + text::join(words, seq![separator]) + back) == text::join(
            words,
            seq!['_'],
        ),
{
    let core = text::join(words, seq![separator]);
    lemma_join_front(words, seq![separator]);
    assert(words.last() == words[words.len() - 1]);
    assert(core.last() == words.last().last());
    assert(CharClass::NotSpace.has(words[0][0]));
    assert(CharClass::NotSpace.has(words.last().last()));
    text::strip_of_padded(front, core, back, CharClass::Space);
    text::runs_invert_join(words, separator, CharClass::NotSpace);
    reveal_strlit("_");
    assert("_"@ =~= seq!['_']);
}

/// A capture target keeps every character but the white space around it.
pub proof fn capture_target_keeps_text(front: Seq<char>, core: Seq<char>, back: Seq<char>)
    requires
        core.len() > 0,
        !CharClass::Space.has(core[0]),
        !CharClass::Space.has(core.last()),
        CharClass::Space.has_all(front),
        CharClass::Space.has_all(back),
    ensures
        capture_target(front + core + back) == core,
{
    text::strip_of_padded(front, core, back, CharClass::Space);
}

/// The words of a sink name stand in it in small letters and in order, whatever other
/// character was between them; a name that would start with a digit gets the word
/// `bardic` before it.
pub proof fn sink_name_joins_words(value: Seq<char>, words: Seq<Seq<char>>, separator: char)
    requires
        words.len() > 0,
        forall|k: int|
            0 <= k < words.len() ==> (#[trigger] words[k]).len() > 0
                && CharClass::Alphanumeric.has_all(words[k]),
        !CharClass::Alphanumeric.has(separator),
        text::lowered(value) == text::join(words, seq![separator]),
    ensures
        sink_name(value) == if text::is_digit(words[0][0]) {
            seq!['b', 'a', 'r', 'd', 'i', 'c', '_'] + text::join(words, seq!['_'])
        } else {
            text::join(words, seq!['_'])
        },
{
    text::runs_invert_join(words, separator, CharClass::Alphanumeric);
    lemma_join_front(words, seq!['_']);
    reveal_strlit("_");
    reveal_strlit("bardic_");
    assert("_"@ =~= seq!['_']);
    assert("bardic_"@ =~= seq!['b', 'a', 'r', 'd', 'i', 'c', '_']);
}

/// Trimming makes no difference to the words.
proof fn lemma_words_of_trimmed(value: Seq<char>)
    ensures
        text::runs(text::trimmed(value), CharClass::NotSpace) == text::runs(
            value,
            CharClass::NotSpace,
        ),
{
    let (front, back) = text::stripped_edges(value, CharClass::Space);
    assert forall|i: int| 0 <= i < front.len() implies !CharClass::NotSpace.has(
        #[trigger] front[i],
    ) by {
        assert(CharClass::Space.has(front[i]));
    }
    assert forall|i: int| 0 <= i < back.len() implies !CharClass::NotSpace.has(
        #[trigger] back[i],
    ) by {
        assert(CharClass::Space.has(back[i]));
    }
    text::runs_ignore_edges(front, text::trimmed(value), back, CharClass::NotSpace);
}

proof fn lemma_some_word(value: Seq<char>)
    requires
        !text::blank(value),
    ensures
        text::runs(value, CharClass::NotSpace).len() > 0,
{
    let kept = text::trimmed(value);
    text::strip_takes_only_edges(value, CharClass::Space);
    text::runs_are_empty_without_members(kept, CharClass::NotSpace);
    assert(CharClass::NotSpace.has(kept[0]));
    lemma_words_of_trimmed(value);
}

/// However much white space stands between two parts of an output name, one `_` stands
/// for all of it.
pub proof fn output_name_of_two_parts(a: Seq<char>, gap: Seq<char>, b: Seq<char>)
    requires
        !text::blank(a),
        !text::blank(b),
        gap.len() > 0,
        CharClass::Space.has_all(gap),
    ensures
        output_name(a + gap + b) == output_name(a) + seq!['_'] + output_name(b),
{
    let class = CharClass::NotSpace;
    let whole = a + gap + b;
    let rest = gap.drop_first() + b;
    let none = Seq::<char>::empty();
    assert(CharClass::Space.has(gap[0]));
    assert(whole =~= a + seq![gap[0]] + rest);
    text::runs_part_at_others(a, gap[0], rest, class);
    assert forall|i: int| 0 <= i < gap.drop_first().len() implies !class.has(
        #[trigger] gap.drop_first()[i],
    ) by {
        assert(CharClass::Space.has(gap[i + 1]));
    }
    assert(rest =~= gap.drop_first() + b + none);
    text::runs_ignore_edges(gap.drop_first(), b, none, class);
    lemma_words_of_trimmed(whole);
    lemma_words_of_trimmed(a);
    lemma_words_of_trimmed(b);
    lemma_some_word(a);
    lemma_some_word(b);
    text::join_of_two(text::runs(a, class), text::runs(b, class), "_"@);
    text::blank_is_all_space(whole);
    text::blank_is_all_space(a);
    let i = choose|i: int| 0 <= i < a.len() && !CharClass::Space.has(#[trigger] a[i]);
    assert(whole[i] == a[i]);
    reveal_strlit("_");
    assert("_"@ =~= seq!['_']);
}

/// A sink name takes its words from the parts on both sides of any other character, and
/// a part of letters and digits alone is one word, in small letters.
pub proof fn sink_words_of_two_parts(a: Seq<char>, c: char, b: Seq<char>)
    requires
        !CharClass::Alphanumeric.has(c),
    ensures
        sink_words(a + seq![c] + b) == if sink_words(a).len() == 0 {
            sink_words(b)
        } else if sink_words(b).len() == 0 {
            sink_words(a)
        } else {
            sink_words(a) + seq!['_'] + sink_words(b)
        },
        CharClass::Alphanumeric.has_all(a) ==> sink_words(a) == text::lowered(a),
{
    let class = CharClass::Alphanumeric;
    let small = text::lowered(a);
    let other = text::lowered(b);
    reveal_strlit("_");
    assert("_"@ =~= seq!['_']);
    assert(text::lowered(a + seq![c] + b) =~= small + seq![c] + other);
    text::runs_part_at_others(small, c, other, class);
    let first = text::runs(small, class);
    let second = text::runs(other, class);
    text::runs_are_in_class(small, class);
    text::runs_are_in_class(other, class);
    if first.len() > 0 {
        lemma_join_front(first, "_"@);
    }
    if second.len() > 0 {
        lemma_join_front(second, "_"@);
    }
    if first.len() == 0 {
        assert(first + second =~= second);
    } else if second.len() == 0 {
        assert(first + second =~= first);
    } else {
        text::join_of_two(first, second, "_"@);
    }
    if class.has_all(a) {
        if a.len() > 0 {
            assert forall|i: int| 0 <= i < small.len() implies class.has(#[trigger] small[i]) by {
                assert(class.has(a[i]));
            }
            text::runs_of_members(small, class);
        } else {
            assert(small =~= Seq::<char>::empty());
        }
    }
}

/// A name without a letter or a digit gets the usual sink.
pub proof fn wordless_name_gets_the_usual_sink(value: Seq<char>)
    requires
        forall|i: int| 0 <= i < value.len() ==> !CharClass::Alphanumeric.has(#[trigger] value[i]),
    ensures
        sink_name(value) == "bardic_chord"@,
{
    let small = text::lowered(value);
    assert forall|i: int| 0 <= i < small.len() implies !CharClass::Alphanumeric.has(
        #[trigger] small[i],
    ) by {
        assert(!CharClass::Alphanumeric.has(value[i]));
    }
    text::runs_are_empty_without_members(small, CharClass::Alphanumeric);
}

} // verus!
