use vstd::prelude::*;

use crate::parser::scan::{chars_of, contains_text, holds_text, text_at, text_occurs_at};

verus! {

/// The namespace of Apple's podcast elements.
pub const ITUNES_NAMESPACE: &'static str = "http://www.itunes.com/dtds/podcast-1.0.dtd";

/// The namespace of Media RSS elements.
pub const MEDIA_RSS_NAMESPACE: &'static str = "http://search.yahoo.com/mrss/";

/// The decimal digits other than `0`-`9`: the characters of the Unicode
/// category Decimal_Number (Unicode 16.0) outside ASCII, which the `regex`
/// crate's `\d` also matches.
pub open spec fn non_ascii_decimal_digit(c: char) -> bool {
    let u = c as u32;
    ||| 0x660 <= u <= 0x669
    ||| 0x6F0 <= u <= 0x6F9
    ||| 0x7C0 <= u <= 0x7C9
    ||| 0x966 <= u <= 0x96F
    ||| 0x9E6 <= u <= 0x9EF
    ||| 0xA66 <= u <= 0xA6F
    ||| 0xAE6 <= u <= 0xAEF
    ||| 0xB66 <= u <= 0xB6F
    ||| 0xBE6 <= u <= 0xBEF
    ||| 0xC66 <= u <= 0xC6F
    ||| 0xCE6 <= u <= 0xCEF
    ||| 0xD66 <= u <= 0xD6F
    ||| 0xDE6 <= u <= 0xDEF
    ||| 0xE50 <= u <= 0xE59
    ||| 0xED0 <= u <= 0xED9
    ||| 0xF20 <= u <= 0xF29
    ||| 0x1040 <= u <= 0x1049
    ||| 0x1090 <= u <= 0x1099
    ||| 0x17E0 <= u <= 0x17E9
    ||| 0x1810 <= u <= 0x1819
    ||| 0x1946 <= u <= 0x194F
    ||| 0x19D0 <= u <= 0x19D9
    ||| 0x1A80 <= u <= 0x1A89
    ||| 0x1A90 <= u <= 0x1A99
    ||| 0x1B50 <= u <= 0x1B59
    ||| 0x1BB0 <= u <= 0x1BB9
    ||| 0x1C40 <= u <= 0x1C49
    ||| 0x1C50 <= u <= 0x1C59
    ||| 0xA620 <= u <= 0xA629
    ||| 0xA8D0 <= u <= 0xA8D9
    ||| 0xA900 <= u <= 0xA909
    ||| 0xA9D0 <= u <= 0xA9D9
    ||| 0xA9F0 <= u <= 0xA9F9
    ||| 0xAA50 <= u <= 0xAA59
    ||| 0xABF0 <= u <= 0xABF9
    ||| 0xFF10 <= u <= 0xFF19
    ||| 0x104A0 <= u <= 0x104A9
    ||| 0x10D30 <= u <= 0x10D39
    ||| 0x10D40 <= u <= 0x10D49
    ||| 0x11066 <= u <= 0x1106F
    ||| 0x110F0 <= u <= 0x110F9
    ||| 0x11136 <= u <= 0x1113F
    ||| 0x111D0 <= u <= 0x111D9
    ||| 0x112F0 <= u <= 0x112F9
    ||| 0x11450 <= u <= 0x11459
    ||| 0x114D0 <= u <= 0x114D9
    ||| 0x11650 <= u <= 0x11659
    ||| 0x116C0 <= u <= 0x116C9
    ||| 0x116D0 <= u <= 0x116E3
    ||| 0x11730 <= u <= 0x11739
    ||| 0x118E0 <= u <= 0x118E9
    ||| 0x11950 <= u <= 0x11959
    ||| 0x11BF0 <= u <= 0x11BF9
    ||| 0x11C50 <= u <= 0x11C59
    ||| 0x11D50 <= u <= 0x11D59
    ||| 0x11DA0 <= u <= 0x11DA9
    ||| 0x11F50 <= u <= 0x11F59
    ||| 0x16130 <= u <= 0x16139
    ||| 0x16A60 <= u <= 0x16A69
    ||| 0x16AC0 <= u <= 0x16AC9
    ||| 0x16B50 <= u <= 0x16B59
    ||| 0x16D70 <= u <= 0x16D79
    ||| 0x1CCF0 <= u <= 0x1CCF9
    ||| 0x1D7CE <= u <= 0x1D7FF
    ||| 0x1E140 <= u <= 0x1E149
    ||| 0x1E2F0 <= u <= 0x1E2F9
    ||| 0x1E4F0 <= u <= 0x1E4F9
    ||| 0x1E5F1 <= u <= 0x1E5FA
    ||| 0x1E950 <= u <= 0x1E959
    ||| 0x1FBF0 <= u <= 0x1FBF9
}

/// Whether `c` is a decimal digit outside ASCII.
pub fn is_non_ascii_decimal_digit(c: char) -> (d: bool)
    ensures
        d == non_ascii_decimal_digit(c),
{
    let u = c as u32;
    (0x660 <= u && u <= 0x669) ||
        (0x6F0 <= u && u <= 0x6F9) ||
        (0x7C0 <= u && u <= 0x7C9) ||
        (0x966 <= u && u <= 0x96F) ||
        (0x9E6 <= u && u <= 0x9EF) ||
        (0xA66 <= u && u <= 0xA6F) ||
        (0xAE6 <= u && u <= 0xAEF) ||
        (0xB66 <= u && u <= 0xB6F) ||
        (0xBE6 <= u && u <= 0xBEF) ||
        (0xC66 <= u && u <= 0xC6F) ||
        (0xCE6 <= u && u <= 0xCEF) ||
        (0xD66 <= u && u <= 0xD6F) ||
        (0xDE6 <= u && u <= 0xDEF) ||
        (0xE50 <= u && u <= 0xE59) ||
        (0xED0 <= u && u <= 0xED9) ||
        (0xF20 <= u && u <= 0xF29) ||
        (0x1040 <= u && u <= 0x1049) ||
        (0x1090 <= u && u <= 0x1099) ||
        (0x17E0 <= u && u <= 0x17E9) ||
        (0x1810 <= u && u <= 0x1819) ||
        (0x1946 <= u && u <= 0x194F) ||
        (0x19D0 <= u && u <= 0x19D9) ||
        (0x1A80 <= u && u <= 0x1A89) ||
        (0x1A90 <= u && u <= 0x1A99) ||
        (0x1B50 <= u && u <= 0x1B59) ||
        (0x1BB0 <= u && u <= 0x1BB9) ||
        (0x1C40 <= u && u <= 0x1C49) ||
        (0x1C50 <= u && u <= 0x1C59) ||
        (0xA620 <= u && u <= 0xA629) ||
        (0xA8D0 <= u && u <= 0xA8D9) ||
        (0xA900 <= u && u <= 0xA909) ||
        (0xA9D0 <= u && u <= 0xA9D9) ||
        (0xA9F0 <= u && u <= 0xA9F9) ||
        (0xAA50 <= u && u <= 0xAA59) ||
        (0xABF0 <= u && u <= 0xABF9) ||
        (0xFF10 <= u && u <= 0xFF19) ||
        (0x104A0 <= u && u <= 0x104A9) ||
        (0x10D30 <= u && u <= 0x10D39) ||
        (0x10D40 <= u && u <= 0x10D49) ||
        (0x11066 <= u && u <= 0x1106F) ||
        (0x110F0 <= u && u <= 0x110F9) ||
        (0x11136 <= u && u <= 0x1113F) ||
        (0x111D0 <= u && u <= 0x111D9) ||
        (0x112F0 <= u && u <= 0x112F9) ||
        (0x11450 <= u && u <= 0x11459) ||
        (0x114D0 <= u && u <= 0x114D9) ||
        (0x11650 <= u && u <= 0x11659) ||
        (0x116C0 <= u && u <= 0x116C9) ||
        (0x116D0 <= u && u <= 0x116E3) ||
        (0x11730 <= u && u <= 0x11739) ||
        (0x118E0 <= u && u <= 0x118E9) ||
        (0x11950 <= u && u <= 0x11959) ||
        (0x11BF0 <= u && u <= 0x11BF9) ||
        (0x11C50 <= u && u <= 0x11C59) ||
        (0x11D50 <= u && u <= 0x11D59) ||
        (0x11DA0 <= u && u <= 0x11DA9) ||
        (0x11F50 <= u && u <= 0x11F59) ||
        (0x16130 <= u && u <= 0x16139) ||
        (0x16A60 <= u && u <= 0x16A69) ||
        (0x16AC0 <= u && u <= 0x16AC9) ||
        (0x16B50 <= u && u <= 0x16B59) ||
        (0x16D70 <= u && u <= 0x16D79) ||
        (0x1CCF0 <= u && u <= 0x1CCF9) ||
        (0x1D7CE <= u && u <= 0x1D7FF) ||
        (0x1E140 <= u && u <= 0x1E149) ||
        (0x1E2F0 <= u && u <= 0x1E2F9) ||
        (0x1E4F0 <= u && u <= 0x1E4F9) ||
        (0x1E5F1 <= u && u <= 0x1E5FA) ||
        (0x1E950 <= u && u <= 0x1E959) ||
        (0x1FBF0 <= u && u <= 0x1FBF9)
}

pub open spec fn ascii_digit(c: char) -> bool {
    '0' <= c <= '9'
}

/// The number of ASCII digits that stand right before position `i`.
pub open spec fn digits_before(text: Seq<char>, i: int) -> nat
    decreases i,
{
    if i <= 0 || i > text.len() || !ascii_digit(text[i - 1]) {
        0
    } else {
        1 + digits_before(text, i - 1)
    }
}

/// The ways of declaring the encoding that `feed-rs` then reads as UTF-8.
pub open spec fn utf8_declared_at(text: Seq<char>, i: int) -> bool {
    ||| text_at(text, "=\"UTF-8\""@, i)
    ||| text_at(text, "=\"utf-8\""@, i)
    ||| text_at(text, "='UTF-8'"@, i)
    ||| text_at(text, "='utf-8'"@, i)
}

/// A document in which every play time that feed-rs may read is a text
/// whose digit runs are ASCII, at most 15 long, and taken from the text as
/// written:
///
/// - no character reference (`&#`), which could spell any digit;
/// - no decimal digit outside ASCII (feed-rs cannot read it as a number);
/// - no run of 16 or more ASCII digits (a number of hours that large
///   overflows when it is turned into seconds);
/// - no digit right before markup other than an end tag, or right after the
///   end of a comment, processing instruction, empty element or CDATA
///   section, across which feed-rs joins text;
/// - the encoding, wherever declared, is UTF-8.
pub open spec fn play_times_readable(text: Seq<char>) -> bool {
    &&& !holds_text(text, "&#"@)
    &&& forall|i: int| 0 <= i < text.len() ==> !non_ascii_decimal_digit(#[trigger] text[i])
    &&& forall|i: int| 0 <= i <= text.len() ==> #[trigger] digits_before(text, i) < 16
    &&& forall|i: int|
        0 <= i && i + 1 < text.len() && ascii_digit(#[trigger] text[i]) && text[i + 1] == '<'
            ==> i + 2 < text.len() && text[i + 2] == '/'
    &&& forall|i: int|
        2 <= i < text.len() && ascii_digit(#[trigger] text[i]) && text[i - 1] == '>' ==> {
            &&& text[i - 2] != '-'
            &&& text[i - 2] != '?'
            &&& text[i - 2] != '/'
            &&& text[i - 2] != ']'
        }
    &&& forall|i: int| #[trigger] text_at(text, "encoding"@, i) ==> utf8_declared_at(text, i + 8)
}

/// A document that the feed parser reads without panicking.
///
/// feed-rs reads an iTunes `duration` element, and the `start`, `end` and
/// `time` attributes of Media RSS elements, as play times; it panics on a
/// digit run too long for a `u64` and on a decimal digit outside ASCII. It
/// reads them only when the document binds one of these namespaces, whose
/// name then stands in the text as written. NUL and ESC are left out, since
/// a declared UTF-16 or ISO-2022-JP encoding could spell that name
/// otherwise. In a document that binds one of them, play times must be
/// readable (`play_times_readable`).
pub open spec fn parser_safe(xml: Seq<char>) -> bool {
    &&& !xml.contains('\0')
    &&& !xml.contains('\u{1b}')
    &&& (holds_text(xml, ITUNES_NAMESPACE@) || holds_text(xml, MEDIA_RSS_NAMESPACE@))
        ==> play_times_readable(xml)
}

proof fn lemma_holds_one_char(hay: Seq<char>, c: char)
    ensures
        holds_text(hay, seq![c]) == hay.contains(c),
{
    if hay.contains(c) {
        let i = choose|i: int| 0 <= i < hay.len() && hay[i] == c;
        assert(hay.subrange(i, i + 1) =~= seq![c]);
    }
    if holds_text(hay, seq![c]) {
        let i = choose|i: int|
            0 <= i && i + 1 <= hay.len() && #[trigger] hay.subrange(i, i + 1) == seq![c];
        assert(hay.subrange(i, i + 1)[0] == c);
        assert(hay[i] == c);
    }
}

fn check_digits(text: &Vec<char>) -> (ok: bool)
    ensures
        ok == ((forall|i: int| 0 <= i < text@.len() ==> !non_ascii_decimal_digit(#[trigger] text@[i]))
            && (forall|i: int| 0 <= i <= text@.len() ==> #[trigger] digits_before(text@, i) < 16)),
{
    let mut run: usize = 0;
    let mut i: usize = 0;
    while i < text.len()
        invariant
            i <= text@.len(),
            run == digits_before(text@, i as int),
            forall|k: int| 0 <= k < i ==> !non_ascii_decimal_digit(#[trigger] text@[k]),
            forall|k: int| 0 <= k <= i ==> #[trigger] digits_before(text@, k) < 16,
        decreases text@.len() - i,
    {
        let c = text[i];
        if is_non_ascii_decimal_digit(c) {
            return false;
        }
        if '0' <= c && c <= '9' {
            run = run + 1;
        } else {
            run = 0;
        }
        assert(digits_before(text@, i + 1) == run);
        if run >= 16 {
            return false;
        }
        i = i + 1;
    }
    true
}

fn check_digit_neighbours(text: &Vec<char>) -> (ok: bool)
    ensures
        ok == ((forall|i: int|
            0 <= i && i + 1 < text@.len() && ascii_digit(#[trigger] text@[i]) && text@[i + 1] == '<'
                ==> i + 2 < text@.len() && text@[i + 2] == '/') && (forall|i: int|
            2 <= i < text@.len() && ascii_digit(#[trigger] text@[i]) && text@[i - 1] == '>' ==> {
                &&& text@[i - 2] != '-'
                &&& text@[i - 2] != '?'
                &&& text@[i - 2] != '/'
                &&& text@[i - 2] != ']'
            })),
{
    let n = text.len();
    let mut i: usize = 0;
    while i < n
        invariant
            n == text@.len(),
            i <= n,
            forall|k: int|
                0 <= k < i && k + 1 < n && ascii_digit(#[trigger] text@[k]) && text@[k + 1] == '<'
                    ==> k + 2 < n && text@[k + 2] == '/',
            forall|k: int|
                2 <= k < i && ascii_digit(#[trigger] text@[k]) && text@[k - 1] == '>' ==> {
                    &&& text@[k - 2] != '-'
                    &&& text@[k - 2] != '?'
                    &&& text@[k - 2] != '/'
                    &&& text@[k - 2] != ']'
                },
        decreases n - i,
    {
        let c = text[i];
        if '0' <= c && c <= '9' {
            if i + 1 < n && text[i + 1] == '<' && !(i + 2 < n && text[i + 2] == '/') {
                return false;
            }
            if i >= 2 && text[i - 1] == '>' {
                let before = text[i - 2];
                if before == '-' || before == '?' || before == '/' || before == ']' {
                    return false;
                }
            }
        }
        i = i + 1;
    }
    true
}

fn check_encoding(text: &Vec<char>) -> (ok: bool)
    ensures
        ok == forall|i: int| #[trigger] text_at(text@, "encoding"@, i) ==> utf8_declared_at(text@, i + 8),
{
    let word = chars_of("encoding");
    let forms = [chars_of("=\"UTF-8\""), chars_of("=\"utf-8\""), chars_of("='UTF-8'"), chars_of("='utf-8'")];
    proof {
        reveal_strlit("encoding");
    }
    let n = text.len();
    let mut i: usize = 0;
    while i < n
        invariant
            n == text@.len(),
            i <= n,
            word@ == "encoding"@,
            "encoding"@.len() == 8,
            forms@[0]@ == "=\"UTF-8\""@,
            forms@[1]@ == "=\"utf-8\""@,
            forms@[2]@ == "='UTF-8'"@,
            forms@[3]@ == "='utf-8'"@,
            forall|k: int| 0 <= k < i && #[trigger] text_at(text@, "encoding"@, k) ==> utf8_declared_at(text@, k + 8),
        decreases n - i,
    {
        if text_occurs_at(text, &word, i) {
            let after = i + 8;
            if !(text_occurs_at(text, &forms[0], after) || text_occurs_at(text, &forms[1], after)
                || text_occurs_at(text, &forms[2], after) || text_occurs_at(text, &forms[3], after)) {
                return false;
            }
        }
        i = i + 1;
    }
    assert forall|k: int| #[trigger] text_at(text@, "encoding"@, k) implies utf8_declared_at(text@, k + 8) by {
        assert(0 <= k < n);
    }
    true
}

/// Whether the feed parser can be given `xml` (see `parser_safe`).
pub fn is_parser_safe(xml: &str) -> (safe: bool)
    ensures
        safe == parser_safe(xml@),
{
    let text = chars_of(xml);
    let nul = chars_of("\0");
    let esc = chars_of("\u{1b}");
    proof {
        reveal_strlit("\0");
        reveal_strlit("\u{1b}");
        assert(nul@ =~= seq!['\0']);
        assert(esc@ =~= seq!['\u{1b}']);
        lemma_holds_one_char(text@, '\0');
        lemma_holds_one_char(text@, '\u{1b}');
    }
    if contains_text(&text, &nul) || contains_text(&text, &esc) {
        return false;
    }
    let binds = contains_text(&text, &chars_of(ITUNES_NAMESPACE))
        || contains_text(&text, &chars_of(MEDIA_RSS_NAMESPACE));
    if !binds {
        return true;
    }
    !contains_text(&text, &chars_of("&#")) && check_digits(&text) && check_digit_neighbours(&text)
        && check_encoding(&text)
}

} // verus!
