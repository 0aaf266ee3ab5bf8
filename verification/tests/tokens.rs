use base64::{engine::general_purpose::URL_SAFE_NO_PAD, Engine as _};
use bardic_chord::token::{
    discord_application_id_from_token, discord_invite_url, discord_invite_url_from_token,
    normalize_discord_bot_token,
};

#[test]
fn application_ids_of_every_length_are_read_back() {
    let digits = "1494272667946057819";
    for length in 0..=digits.len() {
        let id = &digits[..length];
        let token = format!("Bot {}.rest", URL_SAFE_NO_PAD.encode(id));
        assert_eq!(discord_application_id_from_token(&token).as_deref(), Some(id));
    }
}

#[test]
fn malformed_heads_have_no_application_id() {
    // Padding, a character outside the alphabet, a length that no bytes give, a bit
    // that is left over, and bytes that are no digits.
    for token in ["MTIz=.x", "MT!z.x", "M.x", "MTJ.x", "YWJj.x", "\u{e9}.x"] {
        assert_eq!(discord_application_id_from_token(token), None, "{token}");
    }
    let binary = URL_SAFE_NO_PAD.encode([0xff, 0xfe, 0x31]);
    assert_eq!(discord_application_id_from_token(&binary), None);
}

#[test]
fn a_token_without_dots_is_all_head() {
    assert_eq!(discord_application_id_from_token("MTIz").as_deref(), Some("123"));
    assert_eq!(discord_application_id_from_token("").as_deref(), Some(""));
}

#[test]
fn the_word_before_a_token_makes_no_difference() {
    assert_eq!(normalize_discord_bot_token("Bot Bot  x "), "x");
    assert_eq!(normalize_discord_bot_token("bot x"), "bot x");
    assert_eq!(
        discord_application_id_from_token(" Bot MTIz.y "),
        discord_application_id_from_token("MTIz.y")
    );
}

#[test]
fn invite_pages_hold_the_application_id() {
    let expected = "https://discord.com/api/oauth2/authorize?client_id=123&permissions=3146752&scope=bot%20applications.commands";
    assert_eq!(discord_invite_url("123"), expected);
    assert_eq!(discord_invite_url_from_token("MTIz.a.b").as_deref(), Some(expected));
    assert_eq!(discord_invite_url_from_token("abc!"), None);
}

#[test]
fn the_rest_of_a_token_makes_no_difference() {
    for head in ["MTIz", "", " Bot ", "Bot", "Bot Bot MTIz ", "not base64", "\u{e9}", " MTIz\t"] {
        let id = discord_application_id_from_token(&format!("{head}."));
        let link = discord_invite_url_from_token(&format!("{head}."));
        for rest in ["x", "payload.signature", " . ", "Bot ", "\u{a0}"] {
            let token = format!("{head}.{rest}");
            assert_eq!(discord_application_id_from_token(&token), id, "{token}");
            assert_eq!(discord_invite_url_from_token(&token), link, "{token}");
        }
    }
    assert_eq!(discord_application_id_from_token("Bot Bot MTIz .x").as_deref(), Some("123"));
}
