//! Texts that are shown to the user, and what the user types.
use crate::number;
use crate::number::usize_to_decimal;
use crate::snapshot::{ActivityEntry, ActivityEntryView, HealthTile, HealthTileView};
use crate::text;
use crate::text::{CharClass, chars_of, join_texts, trim};
use vstd::prelude::*;

verus! {

// ---------------------------------------------------------------------------
// Lists
// ---------------------------------------------------------------------------

/// A tile as a paragraph.
pub open spec fn tile_text(tile: HealthTileView) -> Seq<char> {
    tile.label + " - "@ + tile.state + ".\n"@ + tile.detail
}

/// The tiles as paragraphs.
pub open spec fn tiles_text(tiles: Seq<HealthTileView>) -> Seq<char> {
    text::join(tiles.map_values(|t: HealthTileView| tile_text(t)), "\n\n"@)
}

/// The steps, numbered from one.
pub open spec fn numbered(steps: Seq<Seq<char>>) -> Seq<Seq<char>> {
    Seq::new(steps.len(), |i: int| number::decimal((i + 1) as nat) + ". "@ + steps[i])
}

/// The steps as numbered lines.
pub open spec fn steps_text(steps: Seq<Seq<char>>) -> Seq<char> {
    text::join(numbered(steps), "\n"@)
}

/// An entry as a paragraph.
pub open spec fn entry_text(entry: ActivityEntryView) -> Seq<char> {
    entry.timestamp + " - "@ + entry.title + "\n"@ + entry.detail
}

/// The entries as paragraphs.
pub open spec fn activity_text(entries: Seq<ActivityEntryView>) -> Seq<char> {
    text::join(entries.map_values(|e: ActivityEntryView| entry_text(e)), "\n\n"@)
}

/// The tiles as paragraphs.
pub fn format_health_tiles(tiles: &[HealthTile]) -> (r: String)
    ensures
        r@ == tiles_text(tiles@.map_values(|t: HealthTile| t@)),
{
    let ghost all = tiles@.map_values(|t: HealthTile| t@);
    let mut parts: Vec<String> = Vec::new();
    let mut i: usize = 0;
    while i < tiles.len()
        invariant
            i <= tiles@.len(),
            parts@.len() == i,
            forall|k: int| 0 <= k < i ==> (#[trigger] parts@[k])@ == tile_text(tiles@[k]@),
        decreases tiles@.len() - i,
    {
        let tile = &tiles[i];
        parts.push(
            tile.label.clone().concat(" - ").concat(tile.state.as_str()).concat(".\n").concat(
                tile.detail.as_str(),
            ),
        );
        i += 1;
    }
    assert(text::texts(parts@) =~= all.map_values(|t: HealthTileView| tile_text(t)));
    join_texts(&parts, "\n\n")
}

/// The steps as numbered lines.
pub fn format_steps(steps: &[String]) -> (r: String)
    ensures
        r@ == steps_text(text::texts(steps@)),
{
    let mut parts: Vec<String> = Vec::new();
    let mut i: usize = 0;
    while i < steps.len()
        invariant
            i <= steps@.len(),
            parts@.len() == i,
            forall|k: int|
                0 <= k < i ==> (#[trigger] parts@[k])@ == number::decimal((k + 1) as nat) + ". "@
                    + steps@[k]@,
        decreases steps@.len() - i,
    {
        parts.push(usize_to_decimal(i + 1).concat(". ").concat(steps[i].as_str()));
        i += 1;
    }
    assert(text::texts(parts@) =~= numbered(text::texts(steps@)));
    join_texts(&parts, "\n")
}

/// The entries as paragraphs.
pub fn format_activity(entries: &[ActivityEntry]) -> (r: String)
    ensures
        r@ == activity_text(entries@.map_values(|e: ActivityEntry| e@)),
{
    let ghost all = entries@.map_values(|e: ActivityEntry| e@);
    let mut parts: Vec<String> = Vec::new();
    let mut i: usize = 0;
    while i < entries.len()
        invariant
            i <= entries@.len(),
            parts@.len() == i,
            forall|k: int| 0 <= k < i ==> (#[trigger] parts@[k])@ == entry_text(entries@[k]@),
        decreases entries@.len() - i,
    {
        let entry = &entries[i];
        parts.push(
            entry.timestamp.clone().concat(" - ").concat(entry.title.as_str()).concat("\n").concat(
                entry.detail.as_str(),
            ),
        );
        i += 1;
    }
    assert(text::texts(parts@) =~= all.map_values(|e: ActivityEntryView| entry_text(e)));
    join_texts(&parts, "\n\n")
}

// ---------------------------------------------------------------------------
// References to users
// ---------------------------------------------------------------------------

/// The digits of a text, in order.
pub open spec fn digits_of(s: Seq<char>) -> Seq<char> {
    s.filter(|c: char| text::is_digit(c))
}

/// The user whom a text means: the ID where the text is one, or where its digits
/// make up one, as in a mention or a link; the text itself otherwise.
pub open spec fn user_reference(value: Seq<char>) -> Seq<char> {
    let kept = text::trimmed(value);
    let digits = digits_of(kept);
    if CharClass::Digit.has_all(kept) {
        kept
    } else if 15 <= digits.len() <= 21 {
        digits
    } else {
        kept
    }
}

/// The user whom a text means.
pub fn normalize_discord_user_reference(value: &str) -> (r: String)
    ensures
        r@ == user_reference(value@),
{
    let kept = trim(value);
    let chars = chars_of(kept);
    let ghost digit = |c: char| text::is_digit(c);
    let mut digits = String::new();
    let mut count: usize = 0;
    let mut i: usize = 0;
    proof {
        reveal(Seq::filter);
        assert(chars@.take(0) =~= Seq::<char>::empty());
    }
    while i < chars.len()
        invariant
            i <= chars@.len(),
            digit == (|c: char| text::is_digit(c)),
            digits@ == chars@.take(i as int).filter(digit),
            count == digits@.len(),
            count <= i,
            count == i <==> forall|k: int| 0 <= k < i ==> text::is_digit(#[trigger] chars@[k]),
        decreases chars@.len() - i,
    {
        proof {
            reveal(Seq::filter);
            assert(chars@.take(i + 1).drop_last() =~= chars@.take(i as int));
        }
        if CharClass::Digit.contains(chars[i]) {
            digits.push(chars[i]);
            count += 1;
        } else {
            assert(!text::is_digit(chars@[i as int]));
        }
        i += 1;
    }
    assert(chars@.take(i as int) =~= chars@);
    if count == chars.len() {
        kept.to_owned()
    } else if 15 <= count && count <= 21 {
        digits
    } else {
        kept.to_owned()
    }
}

// ---------------------------------------------------------------------------
// Laws
// ---------------------------------------------------------------------------

proof fn lemma_digits_are_clean(s: Seq<char>)
    requires
        CharClass::Digit.has_all(s),
    ensures
        text::trimmed(s) == s,
{
    if s.len() > 0 {
        assert(CharClass::Digit.has(s[0]));
        assert(CharClass::Digit.has(s.last()));
    }
    text::strip_keeps_clean_text(s, CharClass::Space);
}

/// A reference means the same user once it was read.
pub proof fn user_reference_is_idempotent(value: Seq<char>)
    ensures
        user_reference(user_reference(value)) == user_reference(value),
{
    let kept = text::trimmed(value);
    let digits = digits_of(kept);
    text::strip_is_idempotent(value, CharClass::Space);
    if !CharClass::Digit.has_all(kept) && 15 <= digits.len() <= 21 {
        assert forall|i: int| 0 <= i < digits.len() implies CharClass::Digit.has(
            #[trigger] digits[i],
        ) by {
            kept.lemma_filter_pred(|c: char| text::is_digit(c), i);
        }
        lemma_digits_are_clean(digits);
    }
}

/// An ID that stands in a text without other digits is found, whatever surrounds it.
pub proof fn mentioned_user_is_found(front: Seq<char>, id: Seq<char>, back: Seq<char>)
    requires
        15 <= id.len() <= 21,
        CharClass::Digit.has_all(id),
        forall|i: int| 0 <= i < front.len() ==> !text::is_digit(#[trigger] front[i]),
        forall|i: int| 0 <= i < back.len() ==> !text::is_digit(#[trigger] back[i]),
        front.len() > 0 ==> !text::is_space(front[0]),
        back.len() > 0 ==> !text::is_space(back.last()),
    ensures
        user_reference(front + id + back) == id,
{
    let digit = |c: char| text::is_digit(c);
    let whole = front + id + back;
    assert(CharClass::Digit.has(id[0]));
    assert(CharClass::Digit.has(id.last()));
    assert(whole[0] == if front.len() > 0 {
        front[0]
    } else {
        id[0]
    });
    assert(whole.last() == if back.len() > 0 {
        back.last()
    } else {
        id.last()
    });
    text::strip_keeps_clean_text(whole, CharClass::Space);
    Seq::filter_distributes_over_add(front + id, back, digit);
    Seq::filter_distributes_over_add(front, id, digit);
    lemma_filter_none(front, digit);
    lemma_filter_none(back, digit);
    assert forall|i: int| 0 <= i < id.len() implies digit(#[trigger] id[i]) by {
        assert(CharClass::Digit.has(id[i]));
    }
    lemma_filter_all(id, digit);
    assert(digits_of(whole) =~= id);
    if CharClass::Digit.has_all(whole) {
        if front.len() > 0 {
            assert(CharClass::Digit.has(whole[0]));
        }
        if back.len() > 0 {
            assert(CharClass::Digit.has(whole[whole.len() - 1]));
        }
        assert(whole =~= id);
    }
}

proof fn lemma_filter_none(s: Seq<char>, pred: spec_fn(char) -> bool)
    requires
        forall|i: int| 0 <= i < s.len() ==> !pred(#[trigger] s[i]),
    ensures
        s.filter(pred) == Seq::<char>::empty(),
    decreases s.len(),
{
    reveal(Seq::filter);
    if s.len() > 0 {
        assert(!pred(s[s.len() - 1]));
        assert forall|i: int| 0 <= i < s.len() - 1 implies !pred(#[trigger] s.drop_last()[i]) by {
            assert(s.drop_last()[i] == s[i]);
        }
        lemma_filter_none(s.drop_last(), pred);
    }
}

proof fn lemma_filter_all(s: Seq<char>, pred: spec_fn(char) -> bool)
    requires
        forall|i: int| 0 <= i < s.len() ==> pred(#[trigger] s[i]),
    ensures
        s.filter(pred) == s,
    decreases s.len(),
{
    reveal(Seq::filter);
    if s.len() > 0 {
        assert(pred(s[s.len() - 1]));
        assert forall|i: int| 0 <= i < s.len() - 1 implies pred(#[trigger] s.drop_last()[i]) by {
            assert(s.drop_last()[i] == s[i]);
        }
        lemma_filter_all(s.drop_last(), pred);
        assert(s =~= s.drop_last().push(s.last()));
    }
}

proof fn lemma_join_push(parts: Seq<Seq<char>>, part: Seq<char>, separator: Seq<char>)
    ensures
        text::join(parts.push(part), separator) == if parts.len() == 0 {
            part
        } else {
            text::join(parts, separator) + separator + part
        },
{
    assert(parts.push(part).drop_last() =~= parts);
}

/// Steps are numbered from one and stand one below the other, each as it is.
pub proof fn steps_are_numbered(steps: Seq<Seq<char>>, step: Seq<char>)
    ensures
        steps_text(seq![step]) == seq!['1', '.', ' '] + step,
        steps.len() > 0 ==> steps_text(steps.push(step)) == steps_text(steps) + seq!['\n']
            + number::decimal(steps.len() + 1) + seq!['.', ' '] + step,
        steps_text(seq![]).len() == 0,
{
    reveal_strlit("\n");
    reveal_strlit(". ");
    assert("\n"@ =~= seq!['\n']);
    assert(". "@ =~= seq!['.', ' ']);
    let last = number::decimal(steps.len() + 1) + ". "@ + step;
    assert(numbered(steps.push(step)) =~= numbered(steps).push(last));
    lemma_join_push(numbered(steps), last, "\n"@);
    let none = Seq::<Seq<char>>::empty();
    let only = number::decimal(1) + ". "@ + step;
    assert(numbered(seq![step]) =~= numbered(none).push(only));
    lemma_join_push(numbered(none), only, "\n"@);
    assert(number::decimal(1) =~= seq!['1']);
    assert(only =~= seq!['1', '.', ' '] + step);
    if steps.len() > 0 {
        assert(steps_text(steps.push(step)) =~= steps_text(steps) + seq!['\n'] + number::decimal(
            steps.len() + 1,
        ) + seq!['.', ' '] + step);
    }
}

/// Tiles and entries stand one below the other in their order, with an empty line
/// between them: of a tile its label, state and detail, of an entry its time, title and
/// detail.
pub proof fn paragraphs_stand_in_order(
    tiles: Seq<HealthTileView>,
    tile: HealthTileView,
    entries: Seq<ActivityEntryView>,
    entry: ActivityEntryView,
)
    ensures
        tiles_text(seq![tile]) == tile.label + " - "@ + tile.state + ".\n"@ + tile.detail,
        tiles.len() > 0 ==> tiles_text(tiles.push(tile)) == tiles_text(tiles) + "\n\n"@ + (
        tile.label + " - "@ + tile.state + ".\n"@ + tile.detail),
        activity_text(seq![entry]) == entry.timestamp + " - "@ + entry.title + "\n"@
            + entry.detail,
        entries.len() > 0 ==> activity_text(entries.push(entry)) == activity_text(entries)
            + "\n\n"@ + (entry.timestamp + " - "@ + entry.title + "\n"@ + entry.detail),
{
    let shown = |t: HealthTileView| tile_text(t);
    let told = |e: ActivityEntryView| entry_text(e);
    let no_tiles = Seq::<HealthTileView>::empty();
    let no_entries = Seq::<ActivityEntryView>::empty();
    assert(tiles.push(tile).map_values(shown) =~= tiles.map_values(shown).push(tile_text(tile)));
    assert(seq![tile].map_values(shown) =~= no_tiles.map_values(shown).push(tile_text(tile)));
    assert(entries.push(entry).map_values(told) =~= entries.map_values(told).push(
        entry_text(entry),
    ));
    assert(seq![entry].map_values(told) =~= no_entries.map_values(told).push(entry_text(entry)));
    lemma_join_push(tiles.map_values(shown), tile_text(tile), "\n\n"@);
    lemma_join_push(no_tiles.map_values(shown), tile_text(tile), "\n\n"@);
    lemma_join_push(entries.map_values(told), entry_text(entry), "\n\n"@);
    lemma_join_push(no_entries.map_values(told), entry_text(entry), "\n\n"@);
}

/// A text of digits alone means itself, however many they are, and so does a text that
/// has too few or too many digits for an ID; white space around it aside.
pub proof fn other_references_are_kept(front: Seq<char>, core: Seq<char>, back: Seq<char>)
    requires
        CharClass::Space.has_all(front),
        CharClass::Space.has_all(back),
        core.len() > 0,
        !CharClass::Space.has(core[0]),
        !CharClass::Space.has(core.last()),
        CharClass::Digit.has_all(core) || core.filter(|c: char| text::is_digit(c)).len() < 15
            || core.filter(|c: char| text::is_digit(c)).len() > 21,
    ensures
        user_reference(front + core + back) == core,
{
    text::strip_of_padded(front, core, back, CharClass::Space);
}

/// The digits of an ID count together, whatever else stands between them.
pub proof fn scattered_digits_make_one_id(a: Seq<char>, c: char, b: Seq<char>)
    requires
        a.len() > 0,
        b.len() > 0,
        CharClass::Digit.has_all(a),
        CharClass::Digit.has_all(b),
        !CharClass::Digit.has(c),
        15 <= a.len() + b.len() <= 21,
    ensures
        user_reference(a + seq![c] + b) == a + b,
{
    let digit = |x: char| text::is_digit(x);
    let whole = a + seq![c] + b;
    assert(CharClass::Digit.has(a[0]) && CharClass::Digit.has(b[b.len() - 1]));
    text::strip_keeps_clean_text(whole, CharClass::Space);
    assert(whole[a.len() as int] == c);
    Seq::filter_distributes_over_add(a + seq![c], b, digit);
    Seq::filter_distributes_over_add(a, seq![c], digit);
    assert forall|i: int| 0 <= i < a.len() implies digit(#[trigger] a[i]) by {
        assert(CharClass::Digit.has(a[i]));
    }
    assert forall|i: int| 0 <= i < b.len() implies digit(#[trigger] b[i]) by {
        assert(CharClass::Digit.has(b[i]));
    }
    lemma_filter_all(a, digit);
    lemma_filter_all(b, digit);
    lemma_filter_none(seq![c], digit);
    assert(whole.filter(digit) =~= a + b);
}

} // verus!
