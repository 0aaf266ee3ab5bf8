use bardic_chord::number::{
    parse_u32, parse_u64, to_decimal, usize_to_decimal, wide_to_decimal, NumberFault,
};
use bardic_chord::text::{
    contains, find_text, is_blank, join_runs, join_texts, lines_of, split_text, to_ascii_lowercase,
    trim, trim_end_matches, trim_start_matches, CharClass,
};
use bardic_chord::textmap::TextMap;

#[test]
fn white_space_is_that_of_the_standard_library() {
    let mut text = String::new();
    for code in 0..=0x10ffff_u32 {
        if let Some(c) = char::from_u32(code) {
            text.clear();
            text.push(c);
            assert_eq!(is_blank(&text), c.is_whitespace(), "{code:x}");
        }
    }
}

const SAMPLES: [&str; 14] = [
    "",
    " ",
    "a",
    "  a b \t c\u{a0}\n",
    "\u{2003}wide\u{3000}",
    "a\nb\r\nc",
    "a\r",
    "a\n\n",
    "\n",
    "x,y,,z,",
    ",,",
    "Bot Bot token",
    "tool.exe.exe",
    "Straße ÄÖ",
];

#[test]
fn trimming_agrees_with_the_standard_library() {
    for sample in SAMPLES {
        assert_eq!(trim(sample), sample.trim());
        assert_eq!(trim_start_matches(sample, "Bot "), sample.trim_start_matches("Bot "));
        assert_eq!(trim_end_matches(sample, ".exe"), sample.trim_end_matches(".exe"));
    }
}

#[test]
fn lines_agree_with_the_standard_library() {
    for sample in SAMPLES {
        assert_eq!(lines_of(sample), sample.lines().collect::<Vec<_>>());
    }
}

#[test]
fn splitting_agrees_with_the_standard_library() {
    for sample in SAMPLES {
        assert_eq!(split_text(sample, ","), sample.split(',').collect::<Vec<_>>());
        assert_eq!(split_text(sample, ",,"), sample.split(",,").collect::<Vec<_>>());
    }
}

#[test]
fn joining_words_agrees_with_the_standard_library() {
    for sample in SAMPLES {
        let words = sample.split_whitespace().collect::<Vec<_>>().join("_");
        assert_eq!(join_runs(sample, CharClass::NotSpace, "_"), words);
    }
}

#[test]
fn searching_agrees_with_the_standard_library() {
    for sample in SAMPLES {
        for pattern in ["", "a", "b", ".exe", "token", ",,", "aa"] {
            assert_eq!(contains(sample, pattern), sample.contains(pattern));
        }
        assert_eq!(to_ascii_lowercase(sample), sample.to_ascii_lowercase());
    }
}

#[test]
fn joined_texts_have_separators_between_them() {
    assert_eq!(join_texts(&vec![], "-"), "");
    assert_eq!(join_texts(&vec!["a".to_string()], "-"), "a");
    let parts = vec!["a".to_string(), String::new(), "b".to_string()];
    assert_eq!(join_texts(&parts, "-"), "a--b");
}

#[test]
fn the_first_place_counts() {
    let values = vec!["x".to_string(), "y".to_string(), "y".to_string()];
    assert_eq!(find_text(&values, "y"), Some(1));
    assert_eq!(find_text(&values, "z"), None);
}

#[test]
fn decimals_agree_with_the_standard_library() {
    for n in [0, 9, 10, 99, 100, 1_048_576, u64::MAX] {
        assert_eq!(to_decimal(n), n.to_string());
    }
    assert_eq!(usize_to_decimal(usize::MAX), usize::MAX.to_string());
    assert_eq!(wide_to_decimal(u128::MAX), u128::MAX.to_string());
}

#[test]
fn numbers_are_read_as_the_standard_library_reads_them() {
    let texts = [
        "",
        "+",
        "-",
        "-1",
        "+1",
        "0",
        "007",
        "1a",
        "a1",
        " 1",
        "4294967295",
        "4294967296",
        "18446744073709551615",
        "18446744073709551616",
        "99999999999999999999x",
        "١",
    ];
    for text in texts {
        match (parse_u64(text), text.parse::<u64>()) {
            (Ok(a), Ok(b)) => assert_eq!(a, b),
            (Err(a), Err(b)) => assert_eq!(a.message(), b.to_string(), "{text}"),
            other => panic!("{text}: {other:?}"),
        }
        match (parse_u32(text), text.parse::<u32>()) {
            (Ok(a), Ok(b)) => assert_eq!(a, b),
            (Err(a), Err(b)) => assert_eq!(a.message(), b.to_string(), "{text}"),
            other => panic!("{text}: {other:?}"),
        }
    }
}

#[test]
fn every_number_fault_occurs() {
    assert_eq!(parse_u32(""), Err(NumberFault::Empty));
    assert_eq!(parse_u32("x"), Err(NumberFault::InvalidDigit));
    assert_eq!(parse_u32("4294967296"), Err(NumberFault::TooLarge));
}

#[test]
fn written_numbers_are_read_back() {
    for n in [0_u64, 7, 1494272667946057819, u64::MAX] {
        assert_eq!(parse_u64(&to_decimal(n)), Ok(n));
    }
}

#[test]
fn later_entries_replace_earlier_ones() {
    let mut map = TextMap::new();
    assert_eq!(map.get("a"), None);
    map.insert("a".into(), 1);
    map.insert("b".into(), 2);
    map.insert("a".into(), 3);
    assert_eq!(map.get("a"), Some(&3));
    assert_eq!(map.get("b"), Some(&2));
    assert_eq!(map.get(""), None);
}
