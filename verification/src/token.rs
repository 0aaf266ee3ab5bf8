//! The Discord bot token and what can be told from it.
use crate::text;
use crate::text::{split_text, trim, trim_start_matches, CharClass};
use base64::engine::general_purpose::URL_SAFE_NO_PAD;
use base64::Engine;
use vstd::prelude::*;

verus! {

pub const DISCORD_INVITE_PERMISSIONS: &'static str = "3146752";

/// The six bits for which a character of the URL-safe Base64 alphabet stands.
pub open spec fn sextet(c: char) -> Option<int> {
    if 'A' <= c <= 'Z' {
        Some(c as int - 'A' as int)
    } else if 'a' <= c <= 'z' {
        Some(c as int - 'a' as int + 26)
    } else if '0' <= c <= '9' {
        Some(c as int - '0' as int + 52)
    } else if c == '-' {
        Some(62int)
    } else if c == '_' {
        Some(63int)
    } else {
        None
    }
}

/// The byte that stands at `j` in the bits of the characters of `encoded`.
pub open spec fn encoded_byte(encoded: Seq<char>, j: int) -> int {
    let bits = |k: int| sextet(encoded[k])->0;
    let q = j / 3 * 4;
    if j % 3 == 0 {
        bits(q) * 4 + bits(q + 1) / 16
    } else if j % 3 == 1 {
        bits(q + 1) % 16 * 16 + bits(q + 2) / 4
    } else {
        bits(q + 2) % 4 * 64 + bits(q + 3)
    }
}

/// Whether `encoded` is the URL-safe Base64 text of `bytes` without padding:
/// four characters for three bytes, and zeros in the bits that are left over.
pub open spec fn encodes(encoded: Seq<char>, bytes: Seq<u8>) -> bool {
    &&& encoded.len() == (4 * bytes.len() + 2) / 3
    &&& forall|i: int| 0 <= i < encoded.len() ==> sextet(#[trigger] encoded[i]) is Some
    &&& forall|j: int| 0 <= j < bytes.len() ==> #[trigger] bytes[j] == encoded_byte(encoded, j)
    &&& bytes.len() % 3 == 1 ==> sextet(encoded.last())->0 % 16 == 0
    &&& bytes.len() % 3 == 2 ==> sextet(encoded.last())->0 % 4 == 0
}

/// `base64::Engine::decode` with the engine `URL_SAFE_NO_PAD`.
///
/// It gives the bytes of which `encoded` is the URL-safe Base64 text without
/// padding, and an error where there are none: at a character outside the
/// alphabet, at padding, at a length that no bytes give, and where a bit that is
/// left over is set.
#[verifier::external_body]
fn decode_base64_url(encoded: &str) -> (r: Option<Vec<u8>>)
    ensures
        match r {
            Some(bytes) => encodes(encoded@, bytes@),
            None => forall|bytes: Seq<u8>| !encodes(encoded@, bytes),
        },
{
    URL_SAFE_NO_PAD.decode(encoded).ok()
}

/// The token itself: without white space at its ends and without the word `Bot`
/// before it.
pub open spec fn bare_token(bot_token: Seq<char>) -> Seq<char> {
    text::trimmed(text::without_prefixes(text::trimmed(bot_token), "Bot "@))
}

/// The token itself: without white space at its ends and without the word `Bot`
/// before it.
pub fn normalize_discord_bot_token(bot_token: &str) -> (r: &str)
    ensures
        r@ == bare_token(bot_token@),
{
    trim(trim_start_matches(trim(bot_token), "Bot "))
}

/// The part of the token before its first dot, which holds the encoded
/// application ID.
pub open spec fn token_head(bot_token: Seq<char>) -> Seq<char> {
    text::trimmed(text::split(bare_token(bot_token), "."@)[0])
}

pub open spec fn all_digits(bytes: Seq<u8>) -> bool {
    forall|i: int| 0 <= i < bytes.len() ==> 48 <= #[trigger] bytes[i] <= 57
}

/// ASCII bytes as characters.
pub open spec fn ascii_text(bytes: Seq<u8>) -> Seq<char> {
    bytes.map_values(|b: u8| b as char)
}

/// The application ID in the token: the digits of which its head is the Base64
/// text, if it is the text of digits alone.
pub open spec fn application_id(bot_token: Seq<char>) -> Option<Seq<char>> {
    if exists|bytes: Seq<u8>| #[trigger]
        encodes(token_head(bot_token), bytes) && all_digits(bytes) {
        Some(
            ascii_text(
                choose|bytes: Seq<u8>| #[trigger]
                    encodes(token_head(bot_token), bytes) && all_digits(bytes),
            ),
        )
    } else {
        None
    }
}

/// A Base64 text is the text of one sequence of bytes.
pub proof fn encoding_is_injective(encoded: Seq<char>, a: Seq<u8>, b: Seq<u8>)
    requires
        encodes(encoded, a),
        encodes(encoded, b),
    ensures
        a == b,
{
    assert(a.len() == b.len());
    assert forall|j: int| 0 <= j < a.len() implies a[j] == b[j] by {
        assert(a[j] == encoded_byte(encoded, j));
        assert(b[j] == encoded_byte(encoded, j));
    }
    assert(a =~= b);
}

pub fn discord_application_id_from_token(bot_token: &str) -> (r: Option<String>)
    ensures
        match r {
            Some(id) => application_id(bot_token@) == Some(id@),
            None => application_id(bot_token@) is None,
        },
{
    let token = normalize_discord_bot_token(bot_token);
    proof {
        reveal_strlit(".");
    }
    let parts = split_text(token, ".");
    let head = trim(parts[0].as_str());
    assert(text::texts(parts@)[0] == parts@[0]@);
    assert(head@ == token_head(bot_token@));
    match decode_base64_url(head) {
        None => None,
        Some(bytes) => {
            let mut id = String::new();
            let mut i: usize = 0;
            assert(ascii_text(bytes@).take(0) == Seq::<char>::empty());
            while i < bytes.len()
                invariant
                    i <= bytes@.len(),
                    head@ == token_head(bot_token@),
                    encodes(head@, bytes@),
                    id@ == ascii_text(bytes@).take(i as int),
                    forall|k: int| 0 <= k < i ==> 48 <= #[trigger] bytes@[k] <= 57,
                decreases bytes@.len() - i,
            {
                let b: u8 = bytes[i];
                if b < 48 || b > 57 {
                    proof {
                        assert forall|other: Seq<u8>| #[trigger]
                            encodes(head@, other) implies !all_digits(other) by {
                            encoding_is_injective(head@, bytes@, other);
                            assert(other[i as int] == b);
                        }
                    }
                    return None;
                }
                id.push(b as char);
                i += 1;
                assert(ascii_text(bytes@).take(i as int) == ascii_text(bytes@).take(i - 1).push(
                    b as char,
                ));
            }
            proof {
                assert(ascii_text(bytes@).take(bytes@.len() as int) == ascii_text(bytes@));
                let picked = choose|other: Seq<u8>| #[trigger]
                    encodes(token_head(bot_token@), other) && all_digits(other);
                assert(encodes(token_head(bot_token@), bytes@) && all_digits(bytes@));
                encoding_is_injective(head@, bytes@, picked);
            }
            Some(id)
        },
    }
}

/// The page on which the bot with the given application ID is invited.
pub open spec fn invite_url(application_id: Seq<char>) -> Seq<char> {
    "https://discord.com/api/oauth2/authorize?client_id="@ + application_id + "&permissions="@
        + DISCORD_INVITE_PERMISSIONS@ + "&scope=bot%20applications.commands"@
}

/// The page on which the bot with the given application ID is invited.
pub fn discord_invite_url(application_id: &str) -> (r: String)
    ensures
        r@ == invite_url(application_id@),
{
    "https://discord.com/api/oauth2/authorize?client_id=".to_owned().concat(application_id).concat(
        "&permissions=",
    ).concat(DISCORD_INVITE_PERMISSIONS).concat("&scope=bot%20applications.commands")
}

/// The page on which the bot with the given token is invited, if its ID can be told.
pub open spec fn invite_link(bot_token: Seq<char>) -> Option<Seq<char>> {
    match application_id(bot_token) {
        Some(id) => Some(invite_url(id)),
        None => None,
    }
}

/// The page on which the bot with the given token is invited, if its ID can be told.
pub fn discord_invite_url_from_token(bot_token: &str) -> (r: Option<String>)
    ensures
        text::opt(r) == invite_link(bot_token@),
{
    match discord_application_id_from_token(bot_token) {
        Some(id) => Some(discord_invite_url(id.as_str())),
        None => None,
    }
}

// ---------------------------------------------------------------------------
// Laws
// ---------------------------------------------------------------------------

proof fn lemma_first_dot(s: Seq<char>, at: int, from: int)
    requires
        0 <= from <= at < s.len(),
        s[at] == '.',
        forall|i: int| from <= i < at ==> s[i] != '.',
    ensures
        text::find_from(s, seq!['.'], from) == Some(at),
    decreases at - from,
{
    let dot = seq!['.'];
    if from == at {
        assert(s.subrange(at, at + 1) =~= dot);
    } else {
        if text::occurs_at(s, dot, from) {
            assert(s.subrange(from, from + 1)[0] == s[from]);
        }
        lemma_first_dot(s, at, from + 1);
    }
}

/// Whether the text holds no dot.
pub open spec fn dotless(s: Seq<char>) -> bool {
    forall|i: int| 0 <= i < s.len() ==> #[trigger] s[i] != '.'
}

/// A dot stops the taking off at the front.
proof fn lemma_front_stops_at_dot(head: Seq<char>, rest: Seq<char>)
    ensures
        text::strip_start(head + seq!['.'] + rest, CharClass::Space) == text::strip_start(
            head,
            CharClass::Space,
        ) + seq!['.'] + rest,
        dotless(head) ==> dotless(text::strip_start(head, CharClass::Space)),
    decreases head.len(),
{
    let whole = head + seq!['.'] + rest;
    if head.len() == 0 {
        assert(whole[0] == '.');
    } else {
        assert(whole[0] == head[0]);
        if CharClass::Space.has(head[0]) {
            assert(whole.drop_first() =~= head.drop_first() + seq!['.'] + rest);
            lemma_front_stops_at_dot(head.drop_first(), rest);
            assert(dotless(head) ==> dotless(head.drop_first()));
        }
    }
}

/// A dot stops the taking off at the end.
proof fn lemma_end_stops_at_dot(head: Seq<char>, rest: Seq<char>)
    ensures
        text::strip_end(head + seq!['.'] + rest, CharClass::Space) == head + seq!['.']
            + text::strip_end(rest, CharClass::Space),
    decreases rest.len(),
{
    let whole = head + seq!['.'] + rest;
    if rest.len() == 0 {
        assert(whole.last() == '.');
    } else {
        assert(whole.last() == rest.last());
        if CharClass::Space.has(rest.last()) {
            assert(whole.drop_last() =~= head + seq!['.'] + rest.drop_last());
            lemma_end_stops_at_dot(head, rest.drop_last());
        }
    }
}

/// The word `Bot` does not reach over a dot.
proof fn lemma_prefix_stops_at_dot(head: Seq<char>, rest: Seq<char>)
    ensures
        text::without_prefixes(head + seq!['.'] + rest, "Bot "@) == text::without_prefixes(
            head,
            "Bot "@,
        ) + seq!['.'] + rest,
        dotless(head) ==> dotless(text::without_prefixes(head, "Bot "@)),
    decreases head.len(),
{
    reveal_strlit("Bot ");
    let whole = head + seq!['.'] + rest;
    let n = head.len() as int;
    if n < 4 {
        assert(whole[n] == '.');
        if text::occurs_at(whole, "Bot "@, 0) {
            assert(whole.subrange(0, 4)[n] == whole[n]);
        }
    } else {
        assert(whole.subrange(0, 4) =~= head.subrange(0, 4));
        if text::occurs_at(head, "Bot "@, 0) {
            assert(whole.skip(4) =~= head.skip(4) + seq!['.'] + rest);
            lemma_prefix_stops_at_dot(head.skip(4), rest);
            assert(dotless(head) ==> dotless(head.skip(4)));
        }
    }
}

/// What is made of the part of a token before its first dot.
pub open spec fn read_head(head: Seq<char>) -> Seq<char> {
    text::trimmed(
        text::strip_start(
            text::without_prefixes(text::strip_start(head, CharClass::Space), "Bot "@),
            CharClass::Space,
        ),
    )
}

/// The head of a token is read from what stands before its first dot alone.
proof fn lemma_token_head(head: Seq<char>, rest: Seq<char>)
    requires
        dotless(head),
    ensures
        token_head(head + "."@ + rest) == read_head(head),
{
    reveal_strlit(".");
    let space = CharClass::Space;
    let dot = seq!['.'];
    assert("."@ =~= dot);
    let start = text::strip_start(head, space);
    let end = text::strip_end(rest, space);
    lemma_front_stops_at_dot(head, rest);
    lemma_end_stops_at_dot(start, rest);
    let word = text::without_prefixes(start, "Bot "@);
    lemma_prefix_stops_at_dot(start, end);
    let bare = text::strip_start(word, space);
    lemma_front_stops_at_dot(word, end);
    lemma_end_stops_at_dot(bare, end);
    let token = bare + dot + text::strip_end(end, space);
    assert(bare_token(head + "."@ + rest) == token);
    let n = bare.len() as int;
    assert forall|i: int| 0 <= i < n implies token[i] != '.' by {
        assert(token[i] == bare[i]);
    }
    lemma_first_dot(token, n, 0);
    assert(text::split(token, dot)[0] == token.take(n));
    assert(token.take(n) =~= bare);
}

/// A Base64 text is read as it stands.
proof fn lemma_base64_head(head: Seq<char>)
    requires
        forall|i: int| 0 <= i < head.len() ==> sextet(#[trigger] head[i]) is Some,
    ensures
        dotless(head),
        read_head(head) == head,
{
    reveal_strlit("Bot ");
    if head.len() > 0 {
        assert(sextet(head[0]) is Some);
        assert(sextet(head.last()) is Some);
    }
    if text::occurs_at(head, "Bot "@, 0) {
        assert(head.subrange(0, 4)[3] == head[3]);
        assert(sextet(head[3]) is Some);
    }
    assert forall|i: int| 0 <= i < head.len() implies #[trigger] head[i] != '.' by {
        assert(sextet(head[i]) is Some);
    }
    text::strip_keeps_clean_text(head, CharClass::Space);
}

/// What stands after the first dot of a token makes no difference to the application
/// ID, nor to the page on which the bot is invited.
pub proof fn rest_of_token_makes_no_difference(head: Seq<char>, a: Seq<char>, b: Seq<char>)
    requires
        dotless(head),
    ensures
        token_head(head + "."@ + a) == token_head(head + "."@ + b),
        application_id(head + "."@ + a) == application_id(head + "."@ + b),
        invite_link(head + "."@ + a) == invite_link(head + "."@ + b),
{
    lemma_token_head(head, a);
    lemma_token_head(head, b);
}

/// Whatever digits a token's first part encodes are its application ID.
pub proof fn application_id_is_extracted(id: Seq<u8>, encoded: Seq<char>, rest: Seq<char>)
    requires
        all_digits(id),
        encodes(encoded, id),
    ensures
        application_id(encoded + "."@ + rest) == Some(ascii_text(id)),
{
    let token = encoded + "."@ + rest;
    lemma_base64_head(encoded);
    lemma_token_head(encoded, rest);
    let picked = choose|bytes: Seq<u8>| #[trigger]
        encodes(token_head(token), bytes) && all_digits(bytes);
    assert(encodes(token_head(token), id) && all_digits(id));
    encoding_is_injective(encoded, id, picked);
}

/// An application ID that is found is made of digits.
pub proof fn application_id_is_digits(bot_token: Seq<char>)
    requires
        application_id(bot_token) is Some,
    ensures
        CharClass::Digit.has_all(application_id(bot_token)->0),
{
    let picked = choose|bytes: Seq<u8>| #[trigger]
        encodes(token_head(bot_token), bytes) && all_digits(bytes);
    assert forall|i: int| 0 <= i < ascii_text(picked).len() implies CharClass::Digit.has(
        #[trigger] ascii_text(picked)[i],
    ) by {
        assert(48 <= picked[i] <= 57);
    }
}

/// White space around a token and the word `Bot` before it make no difference.
pub proof fn bot_prefix_makes_no_difference(front: Seq<char>, token: Seq<char>, back: Seq<char>)
    requires
        CharClass::Space.has_all(front),
        CharClass::Space.has_all(back),
        text::trimmed(token) == token,
        token.len() > 0,
    ensures
        bare_token(front + "Bot "@ + token + back) == bare_token(token),
{
    reveal_strlit("Bot ");
    let space = CharClass::Space;
    let core = "Bot "@ + token;
    let whole = front + "Bot "@ + token + back;
    text::strip_takes_only_edges(token, space);
    assert(whole =~= front + core + back);
    assert(core[0] == 'B');
    assert(core.last() == token.last());
    text::strip_of_padded(front, core, back, space);
    assert(core.subrange(0, 4) =~= "Bot "@);
    assert(core.skip(4) =~= token);
}

/// A token keeps every character but the white space around it.
pub proof fn plain_token_is_kept(front: Seq<char>, token: Seq<char>, back: Seq<char>)
    requires
        CharClass::Space.has_all(front),
        CharClass::Space.has_all(back),
        token.len() > 0,
        !CharClass::Space.has(token[0]),
        !CharClass::Space.has(token.last()),
        !text::occurs_at(token, seq!['B', 'o', 't', ' '], 0),
    ensures
        bare_token(front + token + back) == token,
{
    reveal_strlit("Bot ");
    assert("Bot "@ =~= seq!['B', 'o', 't', ' ']);
    text::strip_of_padded(front, token, back, CharClass::Space);
    text::strip_keeps_clean_text(token, CharClass::Space);
}

/// The page on which a bot is invited asks for that bot and for the permissions that
/// it needs, and different bots have different pages.
pub proof fn invite_page_is_that_of_the_bot(id: Seq<char>, other: Seq<char>)
    ensures
        text::occurs(invite_url(id), "client_id="@ + id + "&permissions=3146752&scope=bot"@),
        invite_url(id) == invite_url(other) ==> id == other,
{
    reveal_strlit("https://discord.com/api/oauth2/authorize?client_id=");
    reveal_strlit("https://discord.com/api/oauth2/authorize?");
    reveal_strlit("client_id=");
    reveal_strlit("&permissions=");
    reveal_strlit("3146752");
    reveal_strlit("&permissions=3146752&scope=bot");
    reveal_strlit("&scope=bot%20applications.commands");
    reveal_strlit("%20applications.commands");
    let front = "https://discord.com/api/oauth2/authorize?"@;
    let back = "%20applications.commands"@;
    let part = "client_id="@ + id + "&permissions=3146752&scope=bot"@;
    let behind = "&permissions="@ + "3146752"@ + "&scope=bot%20applications.commands"@;
    assert(front + "client_id="@ =~= "https://discord.com/api/oauth2/authorize?client_id="@);
    assert(behind =~= "&permissions=3146752&scope=bot"@ + back);
    assert(invite_url(id) =~= front + "client_id="@ + id + behind);
    assert(invite_url(id) =~= front + part + back);
    text::part_occurs(front, part, back);
    if invite_url(id) == invite_url(other) {
        let start = "https://discord.com/api/oauth2/authorize?client_id="@.len() as int;
        assert(invite_url(id).len() == invite_url(other).len());
        assert(id =~= invite_url(id).subrange(start, start + id.len()));
        assert(other =~= invite_url(other).subrange(start, start + other.len()));
    }
}

/// A page is offered for a token exactly where its ID can be told, and it is the page
/// of that ID.
pub proof fn invite_link_goes_by_the_id(bot_token: Seq<char>)
    ensures
        invite_link(bot_token) is Some <==> application_id(bot_token) is Some,
        application_id(bot_token) is Some ==> text::occurs(
            invite_link(bot_token)->Some_0,
            "client_id="@ + application_id(bot_token)->Some_0 + "&permissions=3146752&scope=bot"@,
        ),
{
    if application_id(bot_token) is Some {
        let id = application_id(bot_token)->Some_0;
        invite_page_is_that_of_the_bot(id, id);
    }
}

} // verus!
