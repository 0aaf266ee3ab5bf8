//! Text primitives over Unicode scalar values.
//!
//! A string is modelled by the sequence of its characters. Every function here
//! states its result over that sequence.
use vstd::prelude::*;

verus! {

/// `String::push` appends one character at the end of the string.
pub assume_specification[ String::push ](s: &mut String, c: char)
    ensures
        final(s)@ == old(s)@.push(c),
;

/// The classes of characters by which text is cut and cleaned.
#[derive(Clone, Copy, Debug, PartialEq, Eq, Structural)]
pub enum CharClass {
    /// Characters with the Unicode `White_Space` property.
    Space,
    /// Every other character.
    NotSpace,
    /// The double quote.
    Quote,
    /// ASCII letters and digits.
    Alphanumeric,
    /// ASCII digits.
    Digit,
}

/// The Unicode `White_Space` property.
pub open spec fn is_space(c: char) -> bool {
    ||| '\u{9}' <= c <= '\u{d}'
    ||| c == ' '
    ||| c == '\u{85}'
    ||| c == '\u{a0}'
    ||| c == '\u{1680}'
    ||| '\u{2000}' <= c <= '\u{200a}'
    ||| c == '\u{2028}'
    ||| c == '\u{2029}'
    ||| c == '\u{202f}'
    ||| c == '\u{205f}'
    ||| c == '\u{3000}'
}

pub open spec fn is_digit(c: char) -> bool {
    '0' <= c <= '9'
}

pub open spec fn is_alphanumeric(c: char) -> bool {
    is_digit(c) || 'a' <= c <= 'z' || 'A' <= c <= 'Z'
}

impl CharClass {
    pub open spec fn has(self, c: char) -> bool {
        match self {
            CharClass::Space => is_space(c),
            CharClass::NotSpace => !is_space(c),
            CharClass::Quote => c == '"',
            CharClass::Alphanumeric => is_alphanumeric(c),
            CharClass::Digit => is_digit(c),
        }
    }

    /// Whether every character of `s` is in the class.
    pub open spec fn has_all(self, s: Seq<char>) -> bool {
        forall|i: int| 0 <= i < s.len() ==> self.has(#[trigger] s[i])
    }

    pub fn contains(self, c: char) -> (r: bool)
        ensures
            r == self.has(c),
    {
        match self {
            CharClass::Space => space(c),
            CharClass::NotSpace => !space(c),
            CharClass::Quote => c == '"',
            CharClass::Alphanumeric => {
                ('0' <= c && c <= '9') || ('a' <= c && c <= 'z') || ('A' <= c && c <= 'Z')
            },
            CharClass::Digit => '0' <= c && c <= '9',
        }
    }
}

fn space(c: char) -> (r: bool)
    ensures
        r == is_space(c),
{
    ('\u{9}' <= c && c <= '\u{d}') || c == ' ' || c == '\u{85}' || c == '\u{a0}' || c == '\u{1680}'
        || ('\u{2000}' <= c && c <= '\u{200a}') || c == '\u{2028}' || c == '\u{2029}'
        || c == '\u{202f}' || c == '\u{205f}' || c == '\u{3000}'
}

/// The characters of `s`, in order.
pub fn chars_of(s: &str) -> (chars: Vec<char>)
    ensures
        chars@ == s@,
{
    let mut chars: Vec<char> = Vec::new();
    for c in it: s.chars()
        invariant
            it.seq() == s@,
            chars@ == it.seq().take(it.index() as int),
    {
        chars.push(c);
    }
    assert(s@.take(s@.len() as int) == s@);
    chars
}

/// The string with the characters `chars[from..to]`.
pub fn text_of(chars: &Vec<char>, from: usize, to: usize) -> (s: String)
    requires
        from <= to <= chars@.len(),
    ensures
        s@ == chars@.subrange(from as int, to as int),
{
    let mut s = String::new();
    let mut i: usize = from;
    while i < to
        invariant
            from <= i <= to <= chars@.len(),
            s@ == chars@.subrange(from as int, i as int),
        decreases to - i,
    {
        s.push(chars[i]);
        i += 1;
        assert(chars@.subrange(from as int, i as int) == chars@.subrange(
            from as int,
            i - 1,
        ).push(chars@[i - 1]));
    }
    s
}

/// Whether the two strings hold the same characters.
pub fn same(a: &str, b: &str) -> (r: bool)
    ensures
        r == (a@ == b@),
{
    a.to_owned() == b.to_owned()
}

// ---------------------------------------------------------------------------
// Trimming
// ---------------------------------------------------------------------------

/// `s` without its longest prefix of characters in `class`.
pub open spec fn strip_start(s: Seq<char>, class: CharClass) -> Seq<char>
    decreases s.len(),
{
    if s.len() > 0 && class.has(s[0]) {
        strip_start(s.drop_first(), class)
    } else {
        s
    }
}

/// `s` without its longest suffix of characters in `class`.
pub open spec fn strip_end(s: Seq<char>, class: CharClass) -> Seq<char>
    decreases s.len(),
{
    if s.len() > 0 && class.has(s.last()) {
        strip_end(s.drop_last(), class)
    } else {
        s
    }
}

/// `s` without the characters of `class` at both ends.
pub open spec fn strip(s: Seq<char>, class: CharClass) -> Seq<char> {
    strip_end(strip_start(s, class), class)
}

/// `s` without leading and trailing white space.
pub open spec fn trimmed(s: Seq<char>) -> Seq<char> {
    strip(s, CharClass::Space)
}

/// Whether `s` holds nothing but white space.
pub open spec fn blank(s: Seq<char>) -> bool {
    trimmed(s).len() == 0
}

fn strip_span(chars: &Vec<char>, class: CharClass) -> (span: (usize, usize))
    ensures
        span.0 <= span.1 <= chars@.len(),
        strip(chars@, class) == chars@.subrange(span.0 as int, span.1 as int),
{
    let n: usize = chars.len();
    let mut lo: usize = 0;
    assert(chars@.skip(0) == chars@);
    while lo < n && class.contains(chars[lo])
        invariant
            lo <= n == chars@.len(),
            strip_start(chars@.skip(lo as int), class) == strip_start(chars@, class),
        decreases n - lo,
    {
        assert(chars@.skip(lo as int).drop_first() == chars@.skip(lo + 1));
        lo += 1;
    }
    let mut hi: usize = n;
    assert(chars@.subrange(lo as int, n as int) == chars@.skip(lo as int));
    while lo < hi && class.contains(chars[hi - 1])
        invariant
            lo <= hi <= n == chars@.len(),
            strip_start(chars@, class) == chars@.skip(lo as int),
            strip_end(chars@.subrange(lo as int, hi as int), class) == strip_end(
                chars@.skip(lo as int),
                class,
            ),
        decreases hi,
    {
        let ghost part = chars@.subrange(lo as int, hi as int);
        assert(part.last() == chars@[hi - 1]);
        assert(part.drop_last() == chars@.subrange(lo as int, hi - 1));
        hi -= 1;
    }
    (lo, hi)
}

/// `value` without the characters of `class` at both ends.
pub fn strip_class(value: &str, class: CharClass) -> (r: &str)
    ensures
        r@ == strip(value@, class),
{
    let chars = chars_of(value);
    let (lo, hi) = strip_span(&chars, class);
    value.substring_char(lo, hi)
}

/// `value` without leading and trailing white space.
pub fn trim(value: &str) -> (r: &str)
    ensures
        r@ == trimmed(value@),
{
    strip_class(value, CharClass::Space)
}

/// Whether `value` holds nothing but white space.
pub fn is_blank(value: &str) -> (r: bool)
    ensures
        r == blank(value@),
{
    trim(value).is_empty()
}

// ---------------------------------------------------------------------------
// Searching
// ---------------------------------------------------------------------------

/// Whether `pattern` stands in `s` at position `i`.
pub open spec fn occurs_at(s: Seq<char>, pattern: Seq<char>, i: int) -> bool {
    0 <= i && i + pattern.len() <= s.len() && s.subrange(i, i + pattern.len()) == pattern
}

/// Whether `pattern` stands in `s` anywhere.
pub open spec fn occurs(s: Seq<char>, pattern: Seq<char>) -> bool {
    exists|i: int| occurs_at(s, pattern, i)
}

/// The first position at or after `from` where `pattern` stands in `s`.
pub open spec fn find_from(s: Seq<char>, pattern: Seq<char>, from: int) -> Option<int>
    decreases s.len() + 1 - from,
{
    if from + pattern.len() > s.len() {
        None
    } else if occurs_at(s, pattern, from) {
        Some(from)
    } else {
        find_from(s, pattern, from + 1)
    }
}

proof fn lemma_find_from(s: Seq<char>, pattern: Seq<char>, from: int)
    requires
        0 <= from,
    ensures
        match find_from(s, pattern, from) {
            Some(i) => from <= i && occurs_at(s, pattern, i) && forall|j: int|
                from <= j < i ==> !occurs_at(s, pattern, j),
            None => forall|j: int| from <= j ==> !occurs_at(s, pattern, j),
        },
    decreases s.len() + 1 - from,
{
    if from + pattern.len() <= s.len() && !occurs_at(s, pattern, from) {
        lemma_find_from(s, pattern, from + 1);
    }
}

fn stands_at(chars: &Vec<char>, pattern: &Vec<char>, at: usize) -> (r: bool)
    requires
        at <= chars@.len(),
    ensures
        r == occurs_at(chars@, pattern@, at as int),
{
    let n: usize = chars.len();
    if n - at < pattern.len() {
        return false;
    }
    let mut k: usize = 0;
    while k < pattern.len()
        invariant
            k <= pattern@.len(),
            at + pattern@.len() <= chars@.len() == n,
            forall|j: int| 0 <= j < k ==> chars@[at + j] == pattern@[j],
        decreases pattern@.len() - k,
    {
        if chars[at + k] != pattern[k] {
            assert(chars@.subrange(at as int, at + pattern@.len())[k as int] == chars@[at + k]);
            return false;
        }
        k += 1;
    }
    assert(chars@.subrange(at as int, at + pattern@.len()) == pattern@);
    true
}

fn find_chars(chars: &Vec<char>, pattern: &Vec<char>, from: usize) -> (r: Option<usize>)
    requires
        from <= chars@.len(),
    ensures
        match r {
            Some(i) => find_from(chars@, pattern@, from as int) == Some(i as int) && i
                + pattern@.len() <= chars@.len(),
            None => find_from(chars@, pattern@, from as int) is None,
        },
{
    let n: usize = chars.len();
    let mut i: usize = from;
    while i <= n
        invariant
            i <= n + 1,
            n == chars@.len(),
            find_from(chars@, pattern@, i as int) == find_from(chars@, pattern@, from as int),
        decreases n + 1 - i,
    {
        if n - i < pattern.len() {
            return None;
        }
        if stands_at(chars, pattern, i) {
            return Some(i);
        }
        if i == n {
            assert(find_from(chars@, pattern@, i + 1) is None);
            return None;
        }
        i += 1;
    }
    None
}

/// Whether `pattern` stands in `value` anywhere.
pub fn contains(value: &str, pattern: &str) -> (r: bool)
    ensures
        r == occurs(value@, pattern@),
{
    let chars = chars_of(value);
    let wanted = chars_of(pattern);
    proof {
        lemma_find_from(value@, pattern@, 0);
    }
    match find_chars(&chars, &wanted, 0) {
        Some(i) => {
            assert(occurs_at(value@, pattern@, i as int));
            true
        },
        None => false,
    }
}

// ---------------------------------------------------------------------------
// Repeated prefixes and suffixes
// ---------------------------------------------------------------------------

/// `s` with `prefix` taken off the front as often as it stands there.
pub open spec fn without_prefixes(s: Seq<char>, prefix: Seq<char>) -> Seq<char>
    decreases s.len(),
{
    if prefix.len() > 0 && occurs_at(s, prefix, 0) {
        without_prefixes(s.skip(prefix.len() as int), prefix)
    } else {
        s
    }
}

/// `s` with `suffix` taken off the end as often as it stands there.
pub open spec fn without_suffixes(s: Seq<char>, suffix: Seq<char>) -> Seq<char>
    decreases s.len(),
{
    if suffix.len() > 0 && occurs_at(s, suffix, s.len() - suffix.len()) {
        without_suffixes(s.take(s.len() - suffix.len()), suffix)
    } else {
        s
    }
}

/// `value` with `prefix` taken off the front as often as it stands there.
pub fn trim_start_matches<'a>(value: &'a str, prefix: &str) -> (r: &'a str)
    ensures
        r@ == without_prefixes(value@, prefix@),
{
    let chars = chars_of(value);
    let wanted = chars_of(prefix);
    let n: usize = chars.len();
    let mut lo: usize = 0;
    assert(value@.skip(0) == value@);
    if wanted.len() > 0 {
        while stands_at(&chars, &wanted, lo)
            invariant
                chars@ == value@,
                wanted@ == prefix@,
                wanted@.len() > 0,
                lo <= n == chars@.len(),
                without_prefixes(value@.skip(lo as int), prefix@) == without_prefixes(
                    value@,
                    prefix@,
                ),
            ensures
                !occurs_at(value@, prefix@, lo as int),
            decreases n - lo,
        {
            let ghost rest = value@.skip(lo as int);
            assert(rest.subrange(0, prefix@.len() as int) == value@.subrange(
                lo as int,
                lo + prefix@.len(),
            ));
            assert(rest.skip(prefix@.len() as int) == value@.skip(lo + prefix@.len()));
            lo += wanted.len();
        }
        assert(!occurs_at(value@.skip(lo as int), prefix@, 0)) by {
            if lo + prefix@.len() <= value@.len() {
                assert(value@.skip(lo as int).subrange(0, prefix@.len() as int) == value@.subrange(
                    lo as int,
                    lo + prefix@.len(),
                ));
            }
        }
    }
    assert(value@.subrange(lo as int, n as int) == value@.skip(lo as int));
    value.substring_char(lo, n)
}

/// `value` with `suffix` taken off the end as often as it stands there.
pub fn trim_end_matches<'a>(value: &'a str, suffix: &str) -> (r: &'a str)
    ensures
        r@ == without_suffixes(value@, suffix@),
{
    let chars = chars_of(value);
    let wanted = chars_of(suffix);
    let mut hi: usize = chars.len();
    assert(value@.take(value@.len() as int) == value@);
    if wanted.len() > 0 {
        while hi >= wanted.len() && stands_at(&chars, &wanted, hi - wanted.len())
            invariant
                chars@ == value@,
                wanted@ == suffix@,
                wanted@.len() > 0,
                hi <= chars@.len(),
                without_suffixes(value@.take(hi as int), suffix@) == without_suffixes(
                    value@,
                    suffix@,
                ),
            ensures
                hi < suffix@.len() || !occurs_at(value@, suffix@, hi - suffix@.len()),
            decreases hi,
        {
            let ghost rest = value@.take(hi as int);
            assert(rest.subrange(hi - suffix@.len(), hi as int) == value@.subrange(
                hi - suffix@.len(),
                hi as int,
            ));
            assert(rest.take(hi - suffix@.len()) == value@.take(hi - suffix@.len()));
            hi -= wanted.len();
        }
        assert(!occurs_at(value@.take(hi as int), suffix@, hi - suffix@.len())) by {
            if hi >= suffix@.len() {
                assert(value@.take(hi as int).subrange(hi - suffix@.len(), hi as int)
                    == value@.subrange(hi - suffix@.len(), hi as int));
            }
        }
    }
    assert(value@.subrange(0, hi as int) == value@.take(hi as int));
    value.substring_char(0, hi)
}

// ---------------------------------------------------------------------------
// Letter case
// ---------------------------------------------------------------------------

/// `c` with an ASCII capital made small.
pub open spec fn lower_char(c: char) -> char {
    if 'A' <= c <= 'Z' {
        (c as u8 + 32) as char
    } else {
        c
    }
}

/// `s` with every ASCII capital made small.
pub open spec fn lowered(s: Seq<char>) -> Seq<char> {
    s.map_values(|c: char| lower_char(c))
}

/// `c` with an ASCII capital made small.
pub fn lower(c: char) -> (r: char)
    ensures
        r == lower_char(c),
{
    if 'A' <= c && c <= 'Z' {
        (c as u8 + 32) as char
    } else {
        c
    }
}

/// `value` with every ASCII capital made small.
pub fn to_ascii_lowercase(value: &str) -> (r: String)
    ensures
        r@ == lowered(value@),
{
    let chars = chars_of(value);
    let mut r = String::new();
    let mut i: usize = 0;
    while i < chars.len()
        invariant
            i <= chars@.len(),
            chars@ == value@,
            r@ == lowered(value@).take(i as int),
        decreases chars@.len() - i,
    {
        r.push(lower(chars[i]));
        i += 1;
        assert(lowered(value@).take(i as int) == lowered(value@).take(i - 1).push(
            lower_char(value@[i - 1]),
        ));
    }
    assert(lowered(value@).take(value@.len() as int) == lowered(value@));
    r
}

// ---------------------------------------------------------------------------
// Cutting
// ---------------------------------------------------------------------------

/// The characters of each string of `v`.
pub open spec fn texts(v: Seq<String>) -> Seq<Seq<char>> {
    v.map_values(|s: String| s@)
}

/// `s` cut at every `separator`, from left to right.
pub open spec fn split(s: Seq<char>, separator: Seq<char>) -> Seq<Seq<char>>
    decreases s.len(),
{
    match find_from(s, separator, 0) {
        Some(i) => if separator.len() > 0 && 0 <= i && i + separator.len() <= s.len() {
            seq![s.take(i)] + split(s.skip(i + separator.len()), separator)
        } else {
            seq![s]
        },
        None => seq![s],
    }
}

proof fn lemma_nothing_found(s: Seq<char>, pattern: Seq<char>, from: int)
    requires
        pattern.len() > 0,
        0 <= from,
        forall|k: int| 0 <= k < s.len() ==> #[trigger] s[k] != pattern[0],
    ensures
        find_from(s, pattern, from) is None,
    decreases s.len() + 1 - from,
{
    if from + pattern.len() <= s.len() {
        assert(s.subrange(from, from + pattern.len())[0] == s[from]);
        lemma_nothing_found(s, pattern, from + 1);
    }
}

/// A text without the first character of the separator is not cut.
pub proof fn split_without_separator(s: Seq<char>, separator: Seq<char>)
    requires
        separator.len() > 0,
        forall|k: int| 0 <= k < s.len() ==> #[trigger] s[k] != separator[0],
    ensures
        split(s, separator) == seq![s],
{
    lemma_nothing_found(s, separator, 0);
}

/// A line without the carriage return that ends it.
pub open spec fn without_return(line: Seq<char>) -> Seq<char> {
    if line.len() > 0 && line.last() == '\r' {
        line.drop_last()
    } else {
        line
    }
}

/// The lines of `s`: a line ends at a line feed, or at a carriage return and a
/// line feed, or at the end of the text where that leaves anything.
pub open spec fn lines(s: Seq<char>) -> Seq<Seq<char>>
    decreases s.len(),
{
    match find_from(s, seq!['\n'], 0) {
        Some(i) => if 0 <= i < s.len() {
            seq![without_return(s.take(i))] + lines(s.skip(i + 1))
        } else {
            seq![]
        },
        None => if s.len() == 0 {
            seq![]
        } else {
            seq![s]
        },
    }
}

/// Where `pattern` first stands does not depend on what was cut off before it.
proof fn lemma_find_in_rest(s: Seq<char>, pattern: Seq<char>, cut: int, from: int)
    requires
        0 <= cut <= s.len(),
        0 <= from,
    ensures
        find_from(s.skip(cut), pattern, from) == match find_from(s, pattern, cut + from) {
            Some(i) => Some(i - cut),
            None => None,
        },
    decreases s.len() + 1 - cut - from,
{
    let rest = s.skip(cut);
    if from + pattern.len() <= rest.len() {
        assert(rest.subrange(from, from + pattern.len()) == s.subrange(
            cut + from,
            cut + from + pattern.len(),
        ));
        if !occurs_at(rest, pattern, from) {
            lemma_find_in_rest(s, pattern, cut, from + 1);
        }
    }
}

proof fn lemma_texts_push(v: Seq<String>, s: String)
    ensures
        texts(v.push(s)) == texts(v).push(s@),
{
    assert(texts(v.push(s)) =~= texts(v).push(s@));
}

/// `value` cut at every `separator`, from left to right.
pub fn split_text(value: &str, separator: &str) -> (parts: Vec<String>)
    requires
        separator@.len() > 0,
    ensures
        texts(parts@) == split(value@, separator@),
        parts@.len() > 0,
{
    let chars = chars_of(value);
    let wanted = chars_of(separator);
    let n: usize = chars.len();
    let mut parts: Vec<String> = Vec::new();
    let mut cut: usize = 0;
    assert(value@.skip(0) == value@);
    assert(texts(parts@) + split(value@, separator@) == split(value@, separator@));
    loop
        invariant
            chars@ == value@,
            wanted@ == separator@,
            separator@.len() > 0,
            cut <= n == chars@.len(),
            texts(parts@) + split(value@.skip(cut as int), separator@) == split(
                value@,
                separator@,
            ),
        decreases n - cut,
    {
        let ghost before = parts@;
        let ghost rest = value@.skip(cut as int);
        proof {
            lemma_find_in_rest(value@, separator@, cut as int, 0);
            lemma_find_from(value@, separator@, cut as int);
        }
        match find_chars(&chars, &wanted, cut) {
            Some(at) => {
                parts.push(text_of(&chars, cut, at));
                proof {
                    lemma_texts_push(before, parts@.last());
                    assert(rest.take(at - cut) == value@.subrange(cut as int, at as int));
                    assert(rest.skip(at - cut + separator@.len()) == value@.skip(
                        at + separator@.len(),
                    ));
                    let tail = split(value@.skip(at + separator@.len()), separator@);
                    assert(texts(before) + (seq![rest.take(at - cut)] + tail) == texts(before).push(
                        rest.take(at - cut),
                    ) + tail);
                }
                cut = at + wanted.len();
            },
            None => {
                parts.push(text_of(&chars, cut, n));
                proof {
                    lemma_texts_push(before, parts@.last());
                    assert(value@.subrange(cut as int, n as int) == rest);
                    assert(texts(before) + seq![rest] == texts(before).push(rest));
                }
                return parts;
            },
        }
    }
}

/// The lines of `value`, without the line ends.
pub fn lines_of(value: &str) -> (found: Vec<String>)
    ensures
        texts(found@) == lines(value@),
{
    let chars = chars_of(value);
    let mut wanted: Vec<char> = Vec::new();
    wanted.push('\n');
    let ghost newline = seq!['\n'];
    assert(wanted@ == newline);
    let n: usize = chars.len();
    let mut found: Vec<String> = Vec::new();
    let mut cut: usize = 0;
    assert(value@.skip(0) == value@);
    assert(texts(found@) + lines(value@) == lines(value@));
    loop
        invariant
            chars@ == value@,
            newline == seq!['\n'],
            wanted@ == newline,
            cut <= n == chars@.len(),
            texts(found@) + lines(value@.skip(cut as int)) == lines(value@),
        decreases n - cut,
    {
        let ghost before = found@;
        let ghost rest = value@.skip(cut as int);
        proof {
            lemma_find_in_rest(value@, newline, cut as int, 0);
            lemma_find_from(value@, newline, cut as int);
        }
        match find_chars(&chars, &wanted, cut) {
            Some(at) => {
                let end: usize = if at > cut && chars[at - 1] == '\r' {
                    at - 1
                } else {
                    at
                };
                found.push(text_of(&chars, cut, end));
                proof {
                    lemma_texts_push(before, found@.last());
                    let line = rest.take(at - cut);
                    assert(line == value@.subrange(cut as int, at as int));
                    assert(line.len() > 0 ==> line.last() == value@[at - 1]);
                    assert(without_return(line) == value@.subrange(cut as int, end as int));
                    assert(rest.skip(at - cut + 1) == value@.skip(at + 1));
                    let tail = lines(value@.skip(at + 1));
                    assert(texts(before) + (seq![without_return(line)] + tail) == texts(
                        before,
                    ).push(without_return(line)) + tail);
                }
                cut = at + 1;
            },
            None => {
                if cut < n {
                    found.push(text_of(&chars, cut, n));
                    proof {
                        lemma_texts_push(before, found@.last());
                        assert(value@.subrange(cut as int, n as int) == rest);
                        assert(texts(before) + seq![rest] == texts(before).push(rest));
                    }
                } else {
                    assert(texts(before) + seq![] == texts(before));
                }
                return found;
            },
        }
    }
}

/// The longest runs in `s` of characters in `class`, in order.
pub open spec fn runs(s: Seq<char>, class: CharClass) -> Seq<Seq<char>>
    decreases s.len(),
{
    if s.len() == 0 {
        seq![]
    } else {
        let before = runs(s.drop_last(), class);
        if !class.has(s.last()) {
            before
        } else if s.len() > 1 && class.has(s[s.len() - 2]) && before.len() > 0 {
            before.drop_last().push(before.last().push(s.last()))
        } else {
            before.push(seq![s.last()])
        }
    }
}

/// The parts one after another, with `separator` between each two.
pub open spec fn join(parts: Seq<Seq<char>>, separator: Seq<char>) -> Seq<char>
    decreases parts.len(),
{
    if parts.len() == 0 {
        seq![]
    } else if parts.len() == 1 {
        parts[0]
    } else {
        join(parts.drop_last(), separator) + separator + parts.last()
    }
}

/// The strings one after another, with `separator` between each two.
pub fn join_texts(parts: &Vec<String>, separator: &str) -> (r: String)
    ensures
        r@ == join(texts(parts@), separator@),
{
    let mut r = String::new();
    let mut i: usize = 0;
    assert(texts(parts@).take(0) == Seq::<Seq<char>>::empty());
    while i < parts.len()
        invariant
            i <= parts@.len(),
            r@ == join(texts(parts@).take(i as int), separator@),
        decreases parts@.len() - i,
    {
        let ghost all = texts(parts@);
        if i > 0 {
            r.append(separator);
        }
        r.append(parts[i].as_str());
        proof {
            assert(all.take(i + 1).drop_last() == all.take(i as int));
            assert(all.take(i + 1).last() == parts@[i as int]@);
            if i == 0 {
                assert(r@ == parts@[0]@);
            }
        }
        i += 1;
    }
    assert(texts(parts@).take(parts@.len() as int) == texts(parts@));
    r
}

/// The longest runs in `value` of characters in `class`, with `separator`
/// between each two.
pub fn join_runs(value: &str, class: CharClass, separator: &str) -> (r: String)
    ensures
        r@ == join(runs(value@, class), separator@),
{
    let chars = chars_of(value);
    let mut r = String::new();
    let mut started = false;
    let mut i: usize = 0;
    while i < chars.len()
        invariant
            i <= chars@.len(),
            chars@ == value@,
            r@ == join(runs(value@.take(i as int), class), separator@),
            started == (runs(value@.take(i as int), class).len() > 0),
        decreases chars@.len() - i,
    {
        let ghost seen = value@.take(i as int);
        let ghost next = value@.take(i + 1);
        let ghost before = runs(seen, class);
        assert(next.drop_last() == seen);
        assert(next.last() == value@[i as int]);
        proof {
            lemma_runs_after_member(seen, class);
        }
        if class.contains(chars[i]) {
            if i > 0 && class.contains(chars[i - 1]) {
                assert(next[next.len() - 2] == value@[i - 1]);
                assert(seen.last() == value@[i - 1]);
                let ghost grown = before.drop_last().push(before.last().push(value@[i as int]));
                proof {
                    if before.len() == 1 {
                        assert(grown[0] == before[0].push(value@[i as int]));
                    } else {
                        assert(grown.drop_last() == before.drop_last());
                        assert(join(before.drop_last(), separator@) + separator@
                            + before.last().push(value@[i as int]) == (join(
                            before.drop_last(),
                            separator@,
                        ) + separator@ + before.last()).push(value@[i as int]));
                    }
                }
            } else {
                if started {
                    r.append(separator);
                }
                let ghost grown = before.push(seq![value@[i as int]]);
                proof {
                    assert(grown.drop_last() == before);
                    if i > 0 {
                        assert(next[next.len() - 2] == value@[i - 1]);
                    }
                    assert(r@.push(value@[i as int]) == r@ + seq![value@[i as int]]);
                    assert(before.len() == 0 ==> r@.push(value@[i as int]) == seq![
                        value@[i as int],
                    ]);
                }
                started = true;
            }
            r.push(chars[i]);
        }
        i += 1;
    }
    assert(value@.take(value@.len() as int) == value@);
    r
}

/// A text that ends in a member of the class has a run.
proof fn lemma_runs_after_member(s: Seq<char>, class: CharClass)
    ensures
        s.len() > 0 && class.has(s.last()) ==> runs(s, class).len() > 0,
{
}

// ---------------------------------------------------------------------------
// Texts that may be missing
// ---------------------------------------------------------------------------

/// The characters of a string that may be missing.
pub open spec fn opt(value: Option<String>) -> Option<Seq<char>> {
    match value {
        Some(s) => Some(s@),
        None => None,
    }
}

/// The text, or `default` where it is missing.
pub open spec fn opt_or(value: Option<Seq<char>>, default: Seq<char>) -> Seq<char> {
    match value {
        Some(s) => s,
        None => default,
    }
}

pub fn clone_opt(value: &Option<String>) -> (r: Option<String>)
    ensures
        opt(r) == opt(*value),
{
    match value {
        Some(s) => Some(s.clone()),
        None => None,
    }
}

/// The text, or `default` where it is missing.
pub fn text_or(value: &Option<String>, default: &str) -> (r: String)
    ensures
        r@ == opt_or(opt(*value), default@),
{
    match value {
        Some(s) => s.clone(),
        None => default.to_owned(),
    }
}

/// The first place at which `wanted` stands among the texts.
pub open spec fn first_place(values: Seq<Seq<char>>, wanted: Seq<char>) -> Option<int>
    decreases values.len(),
{
    if values.len() == 0 {
        None
    } else {
        match first_place(values.drop_last(), wanted) {
            Some(i) => Some(i),
            None => if values.last() == wanted {
                Some(values.len() - 1)
            } else {
                None
            },
        }
    }
}

/// The first place of `wanted` holds it, and no earlier place does. It has none
/// where it does not stand among the texts.
pub proof fn first_place_is_first(values: Seq<Seq<char>>, wanted: Seq<char>)
    ensures
        match first_place(values, wanted) {
            Some(i) => {
                &&& 0 <= i < values.len()
                &&& values[i] == wanted
                &&& forall|k: int| 0 <= k < i ==> #[trigger] values[k] != wanted
            },
            None => !values.contains(wanted),
        },
    decreases values.len(),
{
    if values.len() > 0 {
        let front = values.drop_last();
        first_place_is_first(front, wanted);
        assert forall|k: int| 0 <= k < front.len() implies #[trigger] values[k] == front[k] by {}
        match first_place(front, wanted) {
            Some(i) => {},
            None => {
                assert forall|k: int| 0 <= k < front.len() implies #[trigger] values[k] != wanted by {
                    assert(front[k] == values[k]);
                    assert(front.contains(front[k]));
                }
            },
        }
    }
}

proof fn lemma_first_place_found(values: Seq<Seq<char>>, wanted: Seq<char>, i: int)
    requires
        0 <= i < values.len(),
        values[i] == wanted,
        forall|k: int| 0 <= k < i ==> #[trigger] values[k] != wanted,
    ensures
        first_place(values, wanted) == Some(i),
{
    first_place_is_first(values, wanted);
    match first_place(values, wanted) {
        Some(j) => {
            assert(values[j] == wanted);
        },
        None => {
            assert(values.contains(values[i]));
        },
    }
}

/// The first place at which `wanted` stands among the texts.
pub fn find_text(values: &Vec<String>, wanted: &str) -> (r: Option<usize>)
    ensures
        match r {
            Some(i) => i < values@.len() && first_place(texts(values@), wanted@) == Some(i as int),
            None => first_place(texts(values@), wanted@) is None,
        },
{
    let ghost all = texts(values@);
    let mut i: usize = 0;
    while i < values.len()
        invariant
            i <= values@.len(),
            all == texts(values@),
            forall|k: int| 0 <= k < i ==> #[trigger] all[k] != wanted@,
        decreases values@.len() - i,
    {
        assert(all[i as int] == values@[i as int]@);
        if same(values[i].as_str(), wanted) {
            proof {
                lemma_first_place_found(all, wanted@, i as int);
            }
            return Some(i);
        }
        i += 1;
    }
    proof {
        first_place_is_first(all, wanted@);
    }
    None
}

pub fn clone_texts(values: &Vec<String>) -> (r: Vec<String>)
    ensures
        texts(r@) == texts(values@),
{
    let mut r: Vec<String> = Vec::new();
    let mut i: usize = 0;
    while i < values.len()
        invariant
            i <= values@.len(),
            r@.len() == i,
            forall|k: int| 0 <= k < i ==> (#[trigger] r@[k])@ == values@[k]@,
        decreases values@.len() - i,
    {
        r.push(values[i].clone());
        i += 1;
    }
    assert(texts(r@) =~= texts(values@));
    r
}

// ---------------------------------------------------------------------------
// Laws
// ---------------------------------------------------------------------------

proof fn lemma_strip_start(s: Seq<char>, class: CharClass)
    ensures
        strip_start(s, class).len() <= s.len(),
        strip_start(s, class) == s.skip(s.len() - strip_start(s, class).len()),
        class.has_all(s.take(s.len() - strip_start(s, class).len())),
        strip_start(s, class).len() > 0 ==> !class.has(strip_start(s, class)[0]),
    decreases s.len(),
{
    if s.len() > 0 && class.has(s[0]) {
        let rest = s.drop_first();
        let kept = strip_start(rest, class);
        lemma_strip_start(rest, class);
        assert(rest.skip(rest.len() - kept.len()) == s.skip(s.len() - kept.len()));
        assert forall|i: int| 0 <= i < s.len() - kept.len() implies class.has(
            #[trigger] s.take(s.len() - kept.len())[i],
        ) by {
            if i > 0 {
                assert(rest.take(rest.len() - kept.len())[i - 1] == s[i]);
            }
        }
    } else {
        assert(s.skip(0) == s);
    }
}

proof fn lemma_strip_end(s: Seq<char>, class: CharClass)
    ensures
        strip_end(s, class).len() <= s.len(),
        strip_end(s, class) == s.take(strip_end(s, class).len() as int),
        class.has_all(s.skip(strip_end(s, class).len() as int)),
        strip_end(s, class).len() > 0 ==> !class.has(strip_end(s, class).last()),
    decreases s.len(),
{
    if s.len() > 0 && class.has(s.last()) {
        let rest = s.drop_last();
        let kept = strip_end(rest, class);
        lemma_strip_end(rest, class);
        assert(rest.take(kept.len() as int) == s.take(kept.len() as int));
        assert forall|i: int| 0 <= i < s.len() - kept.len() implies class.has(
            #[trigger] s.skip(kept.len() as int)[i],
        ) by {
            if i < rest.len() - kept.len() {
                assert(rest.skip(kept.len() as int)[i] == s[kept.len() + i]);
            }
        }
    } else {
        assert(s.take(s.len() as int) == s);
    }
}

/// Stripping leaves a text whose ends are outside the class, and takes off
/// nothing but characters of the class.
pub proof fn strip_takes_only_edges(s: Seq<char>, class: CharClass)
    ensures
        exists|front: Seq<char>, back: Seq<char>|
            {
                &&& #[trigger] class.has_all(front)
                &&& #[trigger] class.has_all(back)
                &&& s == front + strip(s, class) + back
            },
        strip(s, class).len() > 0 ==> !class.has(strip(s, class)[0]) && !class.has(
            strip(s, class).last(),
        ),
{
    let rest = strip_start(s, class);
    let kept = strip_end(rest, class);
    lemma_strip_start(s, class);
    lemma_strip_end(rest, class);
    let front = s.take(s.len() - rest.len());
    let back = rest.skip(kept.len() as int);
    assert(class.has_all(front) && class.has_all(back));
    assert(s =~= front + kept + back);
    if kept.len() > 0 {
        assert(kept[0] == rest[0]);
    }
}

/// A text whose ends are outside the class is stripped to itself.
pub proof fn strip_keeps_clean_text(s: Seq<char>, class: CharClass)
    requires
        s.len() > 0 ==> !class.has(s[0]) && !class.has(s.last()),
    ensures
        strip(s, class) == s,
{
}

proof fn lemma_strip_start_of_padded(front: Seq<char>, rest: Seq<char>, class: CharClass)
    requires
        class.has_all(front),
    ensures
        strip_start(front + rest, class) == strip_start(rest, class),
    decreases front.len(),
{
    let whole = front + rest;
    if front.len() == 0 {
        assert(whole == rest);
    } else {
        assert(class.has(front[0]));
        let shorter = front.drop_first();
        assert forall|i: int| 0 <= i < shorter.len() implies class.has(#[trigger] shorter[i]) by {
            assert(shorter[i] == front[i + 1]);
        }
        assert(whole.drop_first() == shorter + rest);
        lemma_strip_start_of_padded(shorter, rest, class);
    }
}

proof fn lemma_strip_end_of_padded(rest: Seq<char>, back: Seq<char>, class: CharClass)
    requires
        class.has_all(back),
    ensures
        strip_end(rest + back, class) == strip_end(rest, class),
    decreases back.len(),
{
    let whole = rest + back;
    if back.len() == 0 {
        assert(whole == rest);
    } else {
        assert(class.has(back[back.len() - 1]));
        let shorter = back.drop_last();
        assert forall|i: int| 0 <= i < shorter.len() implies class.has(#[trigger] shorter[i]) by {
            assert(shorter[i] == back[i]);
        }
        assert(whole.drop_last() == rest + shorter);
        lemma_strip_end_of_padded(rest, shorter, class);
    }
}

/// Characters of the class around a text whose ends are outside the class are
/// taken off, and no others.
pub proof fn strip_of_padded(front: Seq<char>, core: Seq<char>, back: Seq<char>, class: CharClass)
    requires
        class.has_all(front),
        class.has_all(back),
        core.len() > 0,
        !class.has(core[0]),
        !class.has(core.last()),
    ensures
        strip(front + core + back, class) == core,
{
    assert(front + core + back == front + (core + back));
    lemma_strip_start_of_padded(front, core + back, class);
    assert((core + back)[0] == core[0]);
    lemma_strip_end_of_padded(core, back, class);
}

/// What stood before and behind the stripped text.
pub proof fn stripped_edges(s: Seq<char>, class: CharClass) -> (edges: (Seq<char>, Seq<char>))
    ensures
        class.has_all(edges.0),
        class.has_all(edges.1),
        s == edges.0 + strip(s, class) + edges.1,
{
    strip_takes_only_edges(s, class);
    choose|front: Seq<char>, back: Seq<char>|
        {
            &&& #[trigger] class.has_all(front)
            &&& #[trigger] class.has_all(back)
            &&& s == front + strip(s, class) + back
        }
}

/// Stripping twice is stripping once.
pub proof fn strip_is_idempotent(s: Seq<char>, class: CharClass)
    ensures
        strip(strip(s, class), class) == strip(s, class),
{
    strip_takes_only_edges(s, class);
    strip_keeps_clean_text(strip(s, class), class);
}

/// A text is blank exactly when it holds white space alone.
pub proof fn blank_is_all_space(s: Seq<char>)
    ensures
        blank(s) <==> CharClass::Space.has_all(s),
{
    let class = CharClass::Space;
    strip_takes_only_edges(s, class);
    if blank(s) {
        let (front, back) = choose|front: Seq<char>, back: Seq<char>|
            {
                &&& #[trigger] class.has_all(front)
                &&& #[trigger] class.has_all(back)
                &&& s == front + strip(s, class) + back
            };
        assert forall|i: int| 0 <= i < s.len() implies class.has(#[trigger] s[i]) by {
            if i < front.len() {
                assert(class.has(front[i]));
            } else {
                assert(class.has(back[i - front.len()]));
            }
        }
    } else if class.has_all(s) {
        let rest = strip_start(s, class);
        lemma_strip_start(s, class);
        lemma_strip_end(rest, class);
        assert(rest[0] == s[s.len() - rest.len()]);
        assert(false);
    }
}

/// Every run holds at least one character, and characters of the class alone.
pub proof fn runs_are_in_class(s: Seq<char>, class: CharClass)
    ensures
        forall|k: int|
            0 <= k < runs(s, class).len() ==> (#[trigger] runs(s, class)[k]).len() > 0
                && class.has_all(runs(s, class)[k]),
    decreases s.len(),
{
    if s.len() > 0 {
        let before = runs(s.drop_last(), class);
        let all = runs(s, class);
        runs_are_in_class(s.drop_last(), class);
        assert forall|k: int| 0 <= k < all.len() implies (#[trigger] all[k]).len() > 0
            && class.has_all(all[k]) by {
            if k < before.len() {
                let old_run = before[k];
                assert forall|i: int| 0 <= i < all[k].len() implies class.has(
                    #[trigger] all[k][i],
                ) by {
                    if i < old_run.len() {
                        assert(class.has(old_run[i]));
                    }
                }
            }
        }
    }
}

/// A text has no run exactly when nothing in it is in the class.
pub proof fn runs_are_empty_without_members(s: Seq<char>, class: CharClass)
    ensures
        runs(s, class).len() == 0 <==> forall|i: int|
            0 <= i < s.len() ==> !class.has(#[trigger] s[i]),
    decreases s.len(),
{
    if s.len() > 0 {
        let rest = s.drop_last();
        runs_are_empty_without_members(rest, class);
        if runs(s, class).len() == 0 {
            assert(!class.has(s.last()));
            assert forall|i: int| 0 <= i < s.len() implies !class.has(#[trigger] s[i]) by {
                if i < rest.len() {
                    assert(rest[i] == s[i]);
                }
            }
        } else if forall|i: int| 0 <= i < s.len() ==> !class.has(#[trigger] s[i]) {
            assert(!class.has(s.last()));
            assert forall|i: int| 0 <= i < rest.len() implies !class.has(#[trigger] rest[i]) by {
                assert(rest[i] == s[i]);
            }
        }
    }
}

/// A run that follows on text which does not end in the class is a new run.
proof fn lemma_runs_append(s: Seq<char>, run: Seq<char>, class: CharClass)
    requires
        s.len() > 0 ==> !class.has(s.last()),
        run.len() > 0,
        class.has_all(run),
    ensures
        runs(s + run, class) == runs(s, class).push(run),
    decreases run.len(),
{
    let whole = s + run;
    assert(whole.last() == run.last());
    assert(class.has(run[run.len() - 1]));
    assert(whole.drop_last() == s + run.drop_last());
    if run.len() == 1 {
        assert(run.drop_last().len() == 0);
        assert(whole.drop_last() == s);
        assert(run == seq![run.last()]);
        if s.len() > 0 {
            assert(whole[whole.len() - 2] == s.last());
        }
    } else {
        let shorter = run.drop_last();
        assert forall|i: int| 0 <= i < shorter.len() implies class.has(#[trigger] shorter[i]) by {
            assert(shorter[i] == run[i]);
        }
        lemma_runs_append(s, shorter, class);
        assert(whole[whole.len() - 2] == run[run.len() - 2]);
        let before = runs(s, class).push(shorter);
        assert(before.drop_last() == runs(s, class));
        assert(shorter.push(run.last()) == run);
    }
}

/// Runs that were joined with a character from outside the class are found again.
pub proof fn runs_invert_join(parts: Seq<Seq<char>>, separator: char, class: CharClass)
    requires
        !class.has(separator),
        forall|k: int|
            0 <= k < parts.len() ==> (#[trigger] parts[k]).len() > 0 && class.has_all(parts[k]),
    ensures
        runs(join(parts, seq![separator]), class) == parts,
    decreases parts.len(),
{
    let glue = seq![separator];
    if parts.len() == 0 {
    } else if parts.len() == 1 {
        lemma_runs_append(Seq::empty(), parts[0], class);
        assert(Seq::<char>::empty() + parts[0] == parts[0]);
        assert(runs(Seq::<char>::empty(), class).push(parts[0]) == parts);
    } else {
        let before = parts.drop_last();
        assert forall|k: int| 0 <= k < before.len() implies (#[trigger] before[k]).len() > 0
            && class.has_all(before[k]) by {
            assert(before[k] == parts[k]);
        }
        runs_invert_join(before, separator, class);
        let start = join(before, glue);
        assert((start + glue).drop_last() == start);
        assert((start + glue).last() == separator);
        assert(runs(start + glue, class) == before);
        assert(parts.last() == parts[parts.len() - 1]);
        lemma_runs_append(start + glue, parts.last(), class);
        assert(before.push(parts.last()) == parts);
    }
}

/// What holds of every part and of the separator holds of what they are joined to.
pub proof fn join_keeps(parts: Seq<Seq<char>>, separator: Seq<char>, good: spec_fn(char) -> bool)
    requires
        forall|k: int, i: int|
            0 <= k < parts.len() && 0 <= i < parts[k].len() ==> good(#[trigger] parts[k][i]),
        forall|i: int| 0 <= i < separator.len() ==> good(#[trigger] separator[i]),
    ensures
        forall|i: int|
            0 <= i < join(parts, separator).len() ==> good(#[trigger] join(parts, separator)[i]),
    decreases parts.len(),
{
    if parts.len() > 1 {
        let before = parts.drop_last();
        assert forall|k: int, i: int|
            0 <= k < before.len() && 0 <= i < before[k].len() implies good(
            #[trigger] before[k][i],
        ) by {
            assert(before[k] == parts[k]);
        }
        join_keeps(before, separator, good);
        let whole = join(parts, separator);
        let start = join(before, separator);
        assert forall|i: int| 0 <= i < whole.len() implies good(#[trigger] whole[i]) by {
            if i < start.len() {
                assert(whole[i] == start[i]);
            } else if i < start.len() + separator.len() {
                assert(whole[i] == separator[i - start.len()]);
            } else {
                assert(whole[i] == parts[parts.len() - 1][i - start.len() - separator.len()]);
            }
        }
    } else if parts.len() == 1 {
        assert(join(parts, separator) == parts[0]);
        assert forall|i: int| 0 <= i < parts[0].len() implies good(#[trigger] parts[0][i]) by {
        }
    }
}

/// The text of a class alone is one run.
pub proof fn runs_of_members(s: Seq<char>, class: CharClass)
    requires
        s.len() > 0,
        class.has_all(s),
    ensures
        runs(s, class) == seq![s],
{
    lemma_runs_append(Seq::empty(), s, class);
    assert(Seq::<char>::empty() + s == s);
    assert(runs(Seq::<char>::empty(), class).push(s) == seq![s]);
}

/// Joining goes part by part: the first, the separator, the rest joined.
pub proof fn join_starts_with_first(first: Seq<char>, parts: Seq<Seq<char>>, separator: Seq<char>)
    requires
        parts.len() > 0,
    ensures
        join(seq![first] + parts, separator) == first + separator + join(parts, separator),
    decreases parts.len(),
{
    let all = seq![first] + parts;
    assert(all.last() == parts.last());
    assert(all.drop_last() =~= seq![first] + parts.drop_last());
    if parts.len() == 1 {
        assert(all.drop_last() =~= seq![first]);
        reveal_with_fuel(join, 3);
    } else {
        join_starts_with_first(first, parts.drop_last(), separator);
        let start = join(parts.drop_last(), separator);
        assert(first + separator + start + separator + parts.last() =~= first + separator + (start
            + separator + parts.last()));
    }
}

/// Cutting loses nothing: the parts with the separator between them are the text
/// again, and no part holds the separator.
pub proof fn split_parts_join_again(s: Seq<char>, separator: Seq<char>)
    requires
        separator.len() > 0,
    ensures
        split(s, separator).len() > 0,
        join(split(s, separator), separator) == s,
        forall|k: int|
            0 <= k < split(s, separator).len() ==> !occurs(
                #[trigger] split(s, separator)[k],
                separator,
            ),
    decreases s.len(),
{
    lemma_find_from(s, separator, 0);
    match find_from(s, separator, 0) {
        Some(i) => {
            let front = s.take(i);
            let rest = s.skip(i + separator.len());
            split_parts_join_again(rest, separator);
            join_starts_with_first(front, split(rest, separator), separator);
            assert(s =~= front + s.subrange(i, i + separator.len()) + rest);
            assert forall|j: int| !occurs_at(front, separator, j) by {
                if occurs_at(front, separator, j) {
                    assert(s.subrange(j, j + separator.len()) =~= front.subrange(
                        j,
                        j + separator.len(),
                    ));
                    assert(occurs_at(s, separator, j));
                }
            }
            let all = split(s, separator);
            assert forall|k: int| 0 <= k < all.len() implies !occurs(
                #[trigger] all[k],
                separator,
            ) by {
                if k > 0 {
                    assert(all[k] == split(rest, separator)[k - 1]);
                }
            }
        },
        None => {
            assert forall|j: int| !occurs_at(s, separator, j) by {
            }
            assert(split(s, separator) =~= seq![s]);
        },
    }
}

/// The lines one after another, each with the line end behind it.
pub open spec fn ended_lines(parts: Seq<Seq<char>>, end: Seq<char>) -> Seq<char>
    decreases parts.len(),
{
    if parts.len() == 0 {
        seq![]
    } else {
        parts[0] + end + ended_lines(parts.drop_first(), end)
    }
}

proof fn lemma_first_newline(s: Seq<char>, at: int, from: int)
    requires
        0 <= from <= at < s.len(),
        s[at] == '\n',
        forall|i: int| from <= i < at ==> s[i] != '\n',
    ensures
        find_from(s, seq!['\n'], from) == Some(at),
    decreases at - from,
{
    let newline = seq!['\n'];
    if from == at {
        assert(s.subrange(at, at + 1) =~= newline);
    } else {
        if occurs_at(s, newline, from) {
            assert(s.subrange(from, from + 1)[0] == s[from]);
        }
        lemma_first_newline(s, at, from + 1);
    }
}

/// Lines that were written one after another are found again, whichever of the two
/// line ends was used, and what follows the last line end is a line where it is
/// anything.
pub proof fn written_lines_are_found(parts: Seq<Seq<char>>, end: Seq<char>, tail: Seq<char>)
    requires
        end == seq!['\n'] || end == seq!['\r', '\n'],
        forall|k: int, i: int|
            0 <= k < parts.len() && 0 <= i < parts[k].len() ==> #[trigger] parts[k][i] != '\n',
        forall|k: int|
            0 <= k < parts.len() && (#[trigger] parts[k]).len() > 0 ==> parts[k].last() != '\r',
        forall|i: int| 0 <= i < tail.len() ==> #[trigger] tail[i] != '\n',
    ensures
        lines(ended_lines(parts, end) + tail) == parts + if tail.len() > 0 {
            seq![tail]
        } else {
            seq![]
        },
    decreases parts.len(),
{
    let s = ended_lines(parts, end) + tail;
    if parts.len() == 0 {
        assert(s =~= tail);
        lemma_nothing_found(tail, seq!['\n'], 0);
        assert(lines(s) =~= parts + if tail.len() > 0 {
            seq![tail]
        } else {
            seq![]
        });
    } else {
        let first = parts[0];
        let rest = parts.drop_first();
        assert forall|k: int, i: int| 0 <= k < rest.len() && 0 <= i < rest[k].len() implies
            #[trigger] rest[k][i] != '\n' by {
            assert(rest[k] == parts[k + 1]);
            assert(parts[k + 1][i] != '\n');
        }
        assert forall|k: int| 0 <= k < rest.len() && (#[trigger] rest[k]).len() > 0 implies
            rest[k].last() != '\r' by {
            assert(rest[k] == parts[k + 1]);
        }
        written_lines_are_found(rest, end, tail);
        let at = first.len() + end.len() - 1;
        assert(s =~= first + end + (ended_lines(rest, end) + tail));
        assert forall|i: int| 0 <= i < at implies s[i] != '\n' by {
            if i < first.len() {
                assert(s[i] == parts[0][i]);
            }
        }
        lemma_first_newline(s, at, 0);
        assert(s.skip(at + 1) =~= ended_lines(rest, end) + tail);
        if end.len() == 1 {
            assert(s.take(at) =~= first);
        } else {
            assert(s.take(at) =~= first.push('\r'));
            assert(first.push('\r').drop_last() =~= first);
        }
        assert(without_return(s.take(at)) == first);
        assert(lines(s) == seq![first] + lines(s.skip(at + 1)));
        assert(seq![first] + rest =~= parts);
        assert(lines(s) =~= parts + if tail.len() > 0 {
            seq![tail]
        } else {
            seq![]
        });
    }
}

/// Letters differ in case alone: a capital becomes the small letter at the same place
/// of the alphabet, and nothing else changes.
pub proof fn lowering_changes_capitals_alone(s: Seq<char>, i: int)
    requires
        0 <= i < s.len(),
    ensures
        lowered(s).len() == s.len(),
        'A' <= s[i] <= 'Z' ==> lowered(s)[i] as int - 'a' as int == s[i] as int - 'A' as int,
        !('A' <= s[i] <= 'Z') ==> lowered(s)[i] == s[i],
        lowered(lowered(s)) == lowered(s),
{
    assert(lowered(lowered(s)) =~= lowered(s));
}

/// Prefixes and suffixes are taken off as often as they stand there, and then none is
/// left.
pub proof fn no_affix_is_left(s: Seq<char>, affix: Seq<char>)
    requires
        affix.len() > 0,
    ensures
        without_prefixes(affix + s, affix) == without_prefixes(s, affix),
        without_suffixes(s + affix, affix) == without_suffixes(s, affix),
        !occurs_at(without_prefixes(s, affix), affix, 0),
        !occurs_at(
            without_suffixes(s, affix),
            affix,
            without_suffixes(s, affix).len() - affix.len(),
        ),
        !occurs_at(s, affix, 0) ==> without_prefixes(s, affix) == s,
        !occurs_at(s, affix, s.len() - affix.len()) ==> without_suffixes(s, affix) == s,
{
    assert((affix + s).subrange(0, affix.len() as int) =~= affix);
    assert((affix + s).skip(affix.len() as int) =~= s);
    assert((s + affix).subrange(s.len() as int, (s + affix).len() as int) =~= affix);
    assert((s + affix).take(s.len() as int) =~= s);
    lemma_no_prefix_is_left(s, affix);
    lemma_no_suffix_is_left(s, affix);
}

proof fn lemma_no_prefix_is_left(s: Seq<char>, affix: Seq<char>)
    requires
        affix.len() > 0,
    ensures
        !occurs_at(without_prefixes(s, affix), affix, 0),
    decreases s.len(),
{
    if occurs_at(s, affix, 0) {
        lemma_no_prefix_is_left(s.skip(affix.len() as int), affix);
    }
}

proof fn lemma_no_suffix_is_left(s: Seq<char>, affix: Seq<char>)
    requires
        affix.len() > 0,
    ensures
        !occurs_at(
            without_suffixes(s, affix),
            affix,
            without_suffixes(s, affix).len() - affix.len(),
        ),
    decreases s.len(),
{
    if occurs_at(s, affix, s.len() - affix.len()) {
        lemma_no_suffix_is_left(s.take(s.len() - affix.len()), affix);
    }
}

/// What is put between two texts stands in the whole.
pub proof fn part_occurs(front: Seq<char>, part: Seq<char>, back: Seq<char>)
    ensures
        occurs(front + part + back, part),
{
    let whole = front + part + back;
    assert(whole.subrange(front.len() as int, (front.len() + part.len()) as int) =~= part);
    assert(occurs_at(whole, part, front.len() as int));
}

/// A character from outside the class parts the runs before it from those behind it.
pub proof fn runs_part_at_others(a: Seq<char>, c: char, b: Seq<char>, class: CharClass)
    requires
        !class.has(c),
    ensures
        runs(a + seq![c] + b, class) == runs(a, class) + runs(b, class),
    decreases b.len(),
{
    let start = a + seq![c];
    let whole = start + b;
    if b.len() == 0 {
        assert(whole =~= start);
        assert(start.drop_last() =~= a);
        assert(runs(a, class) + runs(b, class) =~= runs(a, class));
    } else {
        let before = b.drop_last();
        runs_part_at_others(a, c, before, class);
        assert(whole.drop_last() =~= start + before);
        assert(whole.last() == b.last());
        let first = runs(a, class);
        let second = runs(before, class);
        if class.has(b.last()) {
            if b.len() > 1 {
                assert(whole[whole.len() - 2] == b[b.len() - 2]);
                if class.has(b[b.len() - 2]) {
                    runs_are_empty_without_members(before, class);
                    assert(before[before.len() - 1] == b[b.len() - 2]);
                    assert(second.len() > 0);
                    assert((first + second).last() == second.last());
                    assert((first + second).drop_last() =~= first + second.drop_last());
                }
            } else {
                assert(whole[whole.len() - 2] == c);
            }
        }
        assert(runs(whole, class) =~= first + runs(b, class));
    }
}

/// Characters from outside the class at the ends of a text make no difference to its
/// runs.
pub proof fn runs_ignore_edges(front: Seq<char>, s: Seq<char>, back: Seq<char>, class: CharClass)
    requires
        forall|i: int| 0 <= i < front.len() ==> !class.has(#[trigger] front[i]),
        forall|i: int| 0 <= i < back.len() ==> !class.has(#[trigger] back[i]),
    ensures
        runs(front + s + back, class) == runs(s, class),
    decreases front.len() + back.len(),
{
    let none = Seq::<char>::empty();
    if front.len() > 0 {
        let rest = front.drop_first();
        assert forall|i: int| 0 <= i < rest.len() implies !class.has(#[trigger] rest[i]) by {
            assert(rest[i] == front[i + 1]);
        }
        runs_ignore_edges(rest, s, back, class);
        assert(front + s + back =~= none + seq![front[0]] + (rest + s + back));
        assert(!class.has(front[0]));
        runs_part_at_others(none, front[0], rest + s + back, class);
        assert(runs(none, class) + runs(s, class) =~= runs(s, class));
    } else if back.len() > 0 {
        let rest = back.drop_last();
        assert forall|i: int| 0 <= i < rest.len() implies !class.has(#[trigger] rest[i]) by {
            assert(rest[i] == back[i]);
        }
        runs_ignore_edges(front, s, rest, class);
        assert(front + s + back =~= (front + s + rest) + seq![back.last()] + none);
        assert(!class.has(back[back.len() - 1]));
        runs_part_at_others(front + s + rest, back.last(), none, class);
        assert(runs(s, class) + runs(none, class) =~= runs(s, class));
    } else {
        assert(front + s + back =~= s);
    }
}

/// Joining goes on behind what was joined.
pub proof fn join_of_two(a: Seq<Seq<char>>, b: Seq<Seq<char>>, separator: Seq<char>)
    requires
        a.len() > 0,
        b.len() > 0,
    ensures
        join(a + b, separator) == join(a, separator) + separator + join(b, separator),
    decreases b.len(),
{
    assert((a + b).last() == b.last());
    assert((a + b).drop_last() =~= a + b.drop_last());
    if b.len() == 1 {
        assert(a + b.drop_last() =~= a);
    } else {
        join_of_two(a, b.drop_last(), separator);
        let start = join(b.drop_last(), separator);
        assert(join(a, separator) + separator + start + separator + b.last() =~= join(a, separator)
            + separator + (start + separator + b.last()));
    }
}

/// White space is what Unicode calls so, and the other classes are ASCII.
pub proof fn classes_hold_their_characters(c: char)
    ensures
        CharClass::Space.has(c) <==> {
            let n = c as u32;
            9 <= n <= 13 || n == 32 || n == 0x85 || n == 0xa0 || n == 0x1680 || 0x2000 <= n
                <= 0x200a || n == 0x2028 || n == 0x2029 || n == 0x202f || n == 0x205f || n == 0x3000
        },
        CharClass::NotSpace.has(c) <==> !CharClass::Space.has(c),
        CharClass::Quote.has(c) <==> c as u32 == 34,
        CharClass::Digit.has(c) <==> 48 <= c as u32 <= 57,
        CharClass::Alphanumeric.has(c) <==> {
            let n = c as u32;
            48 <= n <= 57 || 65 <= n <= 90 || 97 <= n <= 122
        },
{
}

} // verus!
