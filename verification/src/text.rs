//! Text decoding for the string types of the tachograph data dictionary.
//!
//! The character sets are decoded by `textcode`, `encoding_rs` and std; the
//! library states what each decoder returns and trims the result itself,
//! as std's `str::trim` does.
use vstd::prelude::*;
use vstd::utf8::{decode_utf8, valid_utf8};

verus! {

/// Unicode's `White_Space` property, which `str::trim` removes.
pub open spec fn is_white_space(c: char) -> bool {
    let u = c as u32;
    (9 <= u <= 13) || u == 32 || u == 0x85 || u == 0xA0 || u == 0x1680 || (0x2000 <= u <= 0x200A)
        || u == 0x2028 || u == 0x2029 || u == 0x202F || u == 0x205F || u == 0x3000
}

/// `s` without its leading white space.
pub open spec fn trim_start_ws(s: Seq<char>) -> Seq<char>
    decreases s.len(),
{
    if s.len() > 0 && is_white_space(s[0]) {
        trim_start_ws(s.drop_first())
    } else {
        s
    }
}

/// `s` without its trailing white space.
pub open spec fn trim_end_ws(s: Seq<char>) -> Seq<char>
    decreases s.len(),
{
    if s.len() > 0 && is_white_space(s.last()) {
        trim_end_ws(s.drop_last())
    } else {
        s
    }
}

/// `s` without leading and trailing white space.
pub open spec fn trimmed(s: Seq<char>) -> Seq<char> {
    trim_end_ws(trim_start_ws(s))
}

/// `s` without the copies of `c` it starts with.
pub open spec fn trim_start_char(s: Seq<char>, c: char) -> Seq<char>
    decreases s.len(),
{
    if s.len() > 0 && s[0] == c {
        trim_start_char(s.drop_first(), c)
    } else {
        s
    }
}

/// Every byte of `b` is an ASCII code.
pub open spec fn all_ascii(b: Seq<u8>) -> bool {
    forall|i: int| 0 <= i < b.len() ==> b[i] < 0x80
}

/// The ASCII bytes `b` as characters.
pub open spec fn ascii_chars(b: Seq<u8>) -> Seq<char> {
    Seq::new(b.len(), |i: int| b[i] as char)
}

/// The UTF-8 reading of `b`, or a single replacement character when `b` is not UTF-8.
pub open spec fn utf8_text(b: Seq<u8>) -> Seq<char> {
    if valid_utf8(b) {
        decode_utf8(b)
    } else {
        seq!['\u{FFFD}']
    }
}

/// Whether `c` is white space in Unicode's sense.
fn white_space(c: char) -> (r: bool)
    ensures
        r == is_white_space(c),
{
    let u = c as u32;
    (9 <= u && u <= 13) || u == 32 || u == 0x85 || u == 0xA0 || u == 0x1680 || (0x2000 <= u && u
        <= 0x200A) || u == 0x2028 || u == 0x2029 || u == 0x202F || u == 0x205F || u == 0x3000
}

/// Removing trailing white space from `s` ends at the same text as from a
/// prefix of it that only leaves out white space.
proof fn lemma_trim_end_prefix(s: Seq<char>, b: int)
    requires
        0 <= b <= s.len(),
        forall|i: int| b <= i < s.len() ==> is_white_space(#[trigger] s[i]),
    ensures
        trim_end_ws(s) == trim_end_ws(s.subrange(0, b)),
    decreases s.len(),
{
    if b < s.len() {
        assert(s.drop_last().subrange(0, b) =~= s.subrange(0, b));
        lemma_trim_end_prefix(s.drop_last(), b);
    } else {
        assert(s.subrange(0, b) =~= s);
    }
}

/// The string without leading and trailing white space, as `str::trim` gives it.
pub(crate) fn trim_text(s: &str) -> (r: String)
    ensures
        r@ == trimmed(s@),
{
    let n = s.unicode_len();
    let mut a: usize = 0;
    assert(s@.subrange(0, n as int) =~= s@);
    while a < n && white_space(s.get_char(a))
        invariant
            n == s@.len(),
            a <= n,
            trim_start_ws(s@) == trim_start_ws(s@.subrange(a as int, n as int)),
        decreases n - a,
    {
        assert(s@.subrange(a as int, n as int).drop_first() =~= s@.subrange(a + 1, n as int));
        a = a + 1;
    }
    let ghost rest = s@.subrange(a as int, n as int);
    assert(trim_start_ws(rest) == rest);
    let mut b: usize = n;
    while b > a && white_space(s.get_char(b - 1))
        invariant
            n == s@.len(),
            a <= b <= n,
            rest == s@.subrange(a as int, n as int),
            forall|i: int| b - a <= i < rest.len() ==> is_white_space(#[trigger] rest[i]),
        decreases b - a,
    {
        b = b - 1;
    }
    proof {
        lemma_trim_end_prefix(rest, b - a);
        assert(rest.subrange(0, b - a) =~= s@.subrange(a as int, b as int));
    }
    String::from_str(s.substring_char(a, b))
}

/// The string without the copies of `c` it starts with, as
/// `str::trim_start_matches` with a character pattern gives it.
pub(crate) fn trim_start_matching(s: &str, c: char) -> (r: String)
    ensures
        r@ == trim_start_char(s@, c),
{
    let n = s.unicode_len();
    let mut a: usize = 0;
    assert(s@.subrange(0, n as int) =~= s@);
    while a < n && s.get_char(a) == c
        invariant
            n == s@.len(),
            a <= n,
            trim_start_char(s@, c) == trim_start_char(s@.subrange(a as int, n as int), c),
        decreases n - a,
    {
        assert(s@.subrange(a as int, n as int).drop_first() =~= s@.subrange(a + 1, n as int));
        a = a + 1;
    }
    String::from_str(s.substring_char(a, n))
}

/// `textcode::utf8::decode_to_string`: the UTF-8 reading of the bytes, or the
/// single character U+FFFD when they are not valid UTF-8.
#[verifier::external_body]
pub(crate) fn decode_utf8_text(b: &[u8]) -> (r: String)
    ensures
        r@ == utf8_text(b@),
{
    textcode::utf8::decode_to_string(b)
}

/// What `String::from_utf8_lossy` reads from `b`.
pub uninterp spec fn lossy_utf8_text(b: Seq<u8>) -> Seq<char>;

/// `String::from_utf8_lossy`: the bytes read as UTF-8, invalid sequences
/// replaced by U+FFFD. What is stated is that valid UTF-8 is read as such; the
/// replacement of invalid sequences is left to the name.
#[verifier::external_body]
pub(crate) fn decode_lossy_text(b: &[u8]) -> (r: String)
    ensures
        r@ == lossy_utf8_text(b@),
        valid_utf8(b@) ==> r@ == decode_utf8(b@),
{
    String::from_utf8_lossy(b).to_string()
}

/// What `encoding_rs::KOI8_U.decode` reads from `b`.
pub uninterp spec fn koi8_u_text(b: Seq<u8>) -> Seq<char>;

/// `encoding_rs::KOI8_U.decode`: the bytes read as KOI8-U (Ukrainian Cyrillic),
/// after the crate's byte-order-mark sniffing. ASCII bytes are read as
/// themselves; the reading of the other bytes is left to the name.
#[verifier::external_body]
pub(crate) fn decode_koi8_u_text(b: &[u8]) -> (r: String)
    ensures
        r@ == koi8_u_text(b@),
        all_ascii(b@) ==> r@ == ascii_chars(b@),
{
    encoding_rs::KOI8_U.decode(b).0.to_string()
}

/// What `encoding_rs::KOI8_R.decode` reads from `b`.
pub uninterp spec fn koi8_r_text(b: Seq<u8>) -> Seq<char>;

/// `encoding_rs::KOI8_R.decode`: the bytes read as KOI8-R (Russian Cyrillic),
/// after the crate's byte-order-mark sniffing. ASCII bytes are read as
/// themselves; the reading of the other bytes is left to the name.
#[verifier::external_body]
pub(crate) fn decode_koi8_r_text(b: &[u8]) -> (r: String)
    ensures
        r@ == koi8_r_text(b@),
        all_ascii(b@) ==> r@ == ascii_chars(b@),
{
    encoding_rs::KOI8_R.decode(b).0.to_string()
}

/// The bytes `b` without those from 0x80 to 0x9F, which the ISO/IEC 8859
/// decoders of `textcode` leave out.
pub open spec fn without_c1(b: Seq<u8>) -> Seq<u8> {
    b.filter(|c: u8| c < 0x80 || c >= 0xA0)
}

/// The ISO/IEC 8859-1 reading of `b`: each byte up to 0x7F and from 0xA0 on
/// is the character of the same number; bytes 0x80 to 0x9F are left out.
pub open spec fn iso8859_1_text(b: Seq<u8>) -> Seq<char>
    decreases b.len(),
{
    if b.len() == 0 {
        Seq::empty()
    } else {
        let head: Seq<char> = if b[0] < 0x80 || b[0] >= 0xA0 {
            seq![b[0] as char]
        } else {
            Seq::empty()
        };
        head + iso8859_1_text(b.drop_first())
    }
}

/// `textcode::iso8859_1::decode_to_string`: the bytes read as ISO/IEC 8859-1
/// (Western European), whose table gives each byte from 0xA0 on the
/// character of the same number; bytes 0x80 to 0x9F are left out.
#[verifier::external_body]
pub(crate) fn decode_iso8859_1_text(b: &[u8]) -> (r: String)
    ensures
        r@ == iso8859_1_text(b@),
        all_ascii(b@) ==> r@ == ascii_chars(b@),
{
    textcode::iso8859_1::decode_to_string(b)
}

/// What `textcode::iso8859_2::decode_to_string` reads from `b`.
pub uninterp spec fn iso8859_2_text(b: Seq<u8>) -> Seq<char>;

/// `textcode::iso8859_2::decode_to_string`: the bytes read as ISO/IEC 8859-2
/// (Central European). ASCII bytes are read as themselves,
/// bytes 0x80 to 0x9F are left out; the reading of the other bytes is left
/// to the name.
#[verifier::external_body]
pub(crate) fn decode_iso8859_2_text(b: &[u8]) -> (r: String)
    ensures
        r@ == iso8859_2_text(b@),
        r@ == iso8859_2_text(without_c1(b@)),
        all_ascii(b@) ==> r@ == ascii_chars(b@),
{
    textcode::iso8859_2::decode_to_string(b)
}

/// What `textcode::iso8859_3::decode_to_string` reads from `b`.
pub uninterp spec fn iso8859_3_text(b: Seq<u8>) -> Seq<char>;

/// `textcode::iso8859_3::decode_to_string`: the bytes read as ISO/IEC 8859-3
/// (South European). ASCII bytes are read as themselves,
/// bytes 0x80 to 0x9F are left out; the reading of the other bytes is left
/// to the name.
#[verifier::external_body]
pub(crate) fn decode_iso8859_3_text(b: &[u8]) -> (r: String)
    ensures
        r@ == iso8859_3_text(b@),
        r@ == iso8859_3_text(without_c1(b@)),
        all_ascii(b@) ==> r@ == ascii_chars(b@),
{
    textcode::iso8859_3::decode_to_string(b)
}

/// What `textcode::iso8859_4::decode_to_string` reads from `b`.
pub uninterp spec fn iso8859_4_text(b: Seq<u8>) -> Seq<char>;

/// `textcode::iso8859_4::decode_to_string`: the bytes read as ISO/IEC 8859-4
/// (North European). ASCII bytes are read as themselves,
/// bytes 0x80 to 0x9F are left out; the reading of the other bytes is left
/// to the name.
#[verifier::external_body]
pub(crate) fn decode_iso8859_4_text(b: &[u8]) -> (r: String)
    ensures
        r@ == iso8859_4_text(b@),
        r@ == iso8859_4_text(without_c1(b@)),
        all_ascii(b@) ==> r@ == ascii_chars(b@),
{
    textcode::iso8859_4::decode_to_string(b)
}

/// What `textcode::iso8859_5::decode_to_string` reads from `b`.
pub uninterp spec fn iso8859_5_text(b: Seq<u8>) -> Seq<char>;

/// `textcode::iso8859_5::decode_to_string`: the bytes read as ISO/IEC 8859-5
/// (Cyrillic). ASCII bytes are read as themselves,
/// bytes 0x80 to 0x9F are left out; the reading of the other bytes is left
/// to the name.
#[verifier::external_body]
pub(crate) fn decode_iso8859_5_text(b: &[u8]) -> (r: String)
    ensures
        r@ == iso8859_5_text(b@),
        r@ == iso8859_5_text(without_c1(b@)),
        all_ascii(b@) ==> r@ == ascii_chars(b@),
{
    textcode::iso8859_5::decode_to_string(b)
}

/// What `textcode::iso8859_6::decode_to_string` reads from `b`.
pub uninterp spec fn iso8859_6_text(b: Seq<u8>) -> Seq<char>;

/// `textcode::iso8859_6::decode_to_string`: the bytes read as ISO/IEC 8859-6
/// (Arabic). ASCII bytes are read as themselves,
/// bytes 0x80 to 0x9F are left out; the reading of the other bytes is left
/// to the name.
#[verifier::external_body]
pub(crate) fn decode_iso8859_6_text(b: &[u8]) -> (r: String)
    ensures
        r@ == iso8859_6_text(b@),
        r@ == iso8859_6_text(without_c1(b@)),
        all_ascii(b@) ==> r@ == ascii_chars(b@),
{
    textcode::iso8859_6::decode_to_string(b)
}

/// What `textcode::iso8859_7::decode_to_string` reads from `b`.
pub uninterp spec fn iso8859_7_text(b: Seq<u8>) -> Seq<char>;

/// `textcode::iso8859_7::decode_to_string`: the bytes read as ISO/IEC 8859-7
/// (Greek). ASCII bytes are read as themselves,
/// bytes 0x80 to 0x9F are left out; the reading of the other bytes is left
/// to the name.
#[verifier::external_body]
pub(crate) fn decode_iso8859_7_text(b: &[u8]) -> (r: String)
    ensures
        r@ == iso8859_7_text(b@),
        r@ == iso8859_7_text(without_c1(b@)),
        all_ascii(b@) ==> r@ == ascii_chars(b@),
{
    textcode::iso8859_7::decode_to_string(b)
}

/// What `textcode::iso8859_8::decode_to_string` reads from `b`.
pub uninterp spec fn iso8859_8_text(b: Seq<u8>) -> Seq<char>;

/// `textcode::iso8859_8::decode_to_string`: the bytes read as ISO/IEC 8859-8
/// (Hebrew). ASCII bytes are read as themselves,
/// bytes 0x80 to 0x9F are left out; the reading of the other bytes is left
/// to the name.
#[verifier::external_body]
pub(crate) fn decode_iso8859_8_text(b: &[u8]) -> (r: String)
    ensures
        r@ == iso8859_8_text(b@),
        r@ == iso8859_8_text(without_c1(b@)),
        all_ascii(b@) ==> r@ == ascii_chars(b@),
{
    textcode::iso8859_8::decode_to_string(b)
}

/// What `textcode::iso8859_9::decode_to_string` reads from `b`.
pub uninterp spec fn iso8859_9_text(b: Seq<u8>) -> Seq<char>;

/// `textcode::iso8859_9::decode_to_string`: the bytes read as ISO/IEC 8859-9
/// (Turkish). ASCII bytes are read as themselves,
/// bytes 0x80 to 0x9F are left out; the reading of the other bytes is left
/// to the name.
#[verifier::external_body]
pub(crate) fn decode_iso8859_9_text(b: &[u8]) -> (r: String)
    ensures
        r@ == iso8859_9_text(b@),
        r@ == iso8859_9_text(without_c1(b@)),
        all_ascii(b@) ==> r@ == ascii_chars(b@),
{
    textcode::iso8859_9::decode_to_string(b)
}

/// What `textcode::iso8859_13::decode_to_string` reads from `b`.
pub uninterp spec fn iso8859_13_text(b: Seq<u8>) -> Seq<char>;

/// `textcode::iso8859_13::decode_to_string`: the bytes read as ISO/IEC 8859-13
/// (Baltic Rim). ASCII bytes are read as themselves,
/// bytes 0x80 to 0x9F are left out; the reading of the other bytes is left
/// to the name.
#[verifier::external_body]
pub(crate) fn decode_iso8859_13_text(b: &[u8]) -> (r: String)
    ensures
        r@ == iso8859_13_text(b@),
        r@ == iso8859_13_text(without_c1(b@)),
        all_ascii(b@) ==> r@ == ascii_chars(b@),
{
    textcode::iso8859_13::decode_to_string(b)
}

/// What `textcode::iso8859_14::decode_to_string` reads from `b`.
pub uninterp spec fn iso8859_14_text(b: Seq<u8>) -> Seq<char>;

/// `textcode::iso8859_14::decode_to_string`: the bytes read as ISO/IEC 8859-14
/// (Celtic). ASCII bytes are read as themselves,
/// bytes 0x80 to 0x9F are left out; the reading of the other bytes is left
/// to the name.
#[verifier::external_body]
pub(crate) fn decode_iso8859_14_text(b: &[u8]) -> (r: String)
    ensures
        r@ == iso8859_14_text(b@),
        r@ == iso8859_14_text(without_c1(b@)),
        all_ascii(b@) ==> r@ == ascii_chars(b@),
{
    textcode::iso8859_14::decode_to_string(b)
}

/// What `textcode::iso8859_15::decode_to_string` reads from `b`.
pub uninterp spec fn iso8859_15_text(b: Seq<u8>) -> Seq<char>;

/// `textcode::iso8859_15::decode_to_string`: the bytes read as ISO/IEC 8859-15
/// (Western European). ASCII bytes are read as themselves,
/// bytes 0x80 to 0x9F are left out; the reading of the other bytes is left
/// to the name.
#[verifier::external_body]
pub(crate) fn decode_iso8859_15_text(b: &[u8]) -> (r: String)
    ensures
        r@ == iso8859_15_text(b@),
        r@ == iso8859_15_text(without_c1(b@)),
        all_ascii(b@) ==> r@ == ascii_chars(b@),
{
    textcode::iso8859_15::decode_to_string(b)
}

/// What `textcode::iso8859_16::decode_to_string` reads from `b`.
pub uninterp spec fn iso8859_16_text(b: Seq<u8>) -> Seq<char>;

/// `textcode::iso8859_16::decode_to_string`: the bytes read as ISO/IEC 8859-16
/// (South-Eastern European). ASCII bytes are read as themselves,
/// bytes 0x80 to 0x9F are left out; the reading of the other bytes is left
/// to the name.
#[verifier::external_body]
pub(crate) fn decode_iso8859_16_text(b: &[u8]) -> (r: String)
    ensures
        r@ == iso8859_16_text(b@),
        r@ == iso8859_16_text(without_c1(b@)),
        all_ascii(b@) ==> r@ == ascii_chars(b@),
{
    textcode::iso8859_16::decode_to_string(b)
}

/// The text of `b` in the character set that `code_page` names: a part of
/// ISO/IEC 8859, KOI8-U (80) or KOI8-R (85); other values are read as UTF-8,
/// invalid sequences replaced.
pub open spec fn code_page_text(code_page: u8, b: Seq<u8>) -> Seq<char> {
    if code_page == 1 {
        iso8859_1_text(b)
    } else if code_page == 2 {
        iso8859_2_text(b)
    } else if code_page == 3 {
        iso8859_3_text(b)
    } else if code_page == 4 {
        iso8859_4_text(b)
    } else if code_page == 5 {
        iso8859_5_text(b)
    } else if code_page == 6 {
        iso8859_6_text(b)
    } else if code_page == 7 {
        iso8859_7_text(b)
    } else if code_page == 8 {
        iso8859_8_text(b)
    } else if code_page == 9 {
        iso8859_9_text(b)
    } else if code_page == 13 {
        iso8859_13_text(b)
    } else if code_page == 14 {
        iso8859_14_text(b)
    } else if code_page == 15 {
        iso8859_15_text(b)
    } else if code_page == 16 {
        iso8859_16_text(b)
    } else if code_page == 80 {
        koi8_u_text(b)
    } else if code_page == 85 {
        koi8_r_text(b)
    } else {
        lossy_utf8_text(b)
    }
}

/// Decodes `b` in the character set that `code_page` names.
pub fn decode_code_page(b: &[u8], code_page: u8) -> (r: String)
    ensures
        r@ == code_page_text(code_page, b@),
{
    if code_page == 1 {
        decode_iso8859_1_text(b)
    } else if code_page == 2 {
        decode_iso8859_2_text(b)
    } else if code_page == 3 {
        decode_iso8859_3_text(b)
    } else if code_page == 4 {
        decode_iso8859_4_text(b)
    } else if code_page == 5 {
        decode_iso8859_5_text(b)
    } else if code_page == 6 {
        decode_iso8859_6_text(b)
    } else if code_page == 7 {
        decode_iso8859_7_text(b)
    } else if code_page == 8 {
        decode_iso8859_8_text(b)
    } else if code_page == 9 {
        decode_iso8859_9_text(b)
    } else if code_page == 13 {
        decode_iso8859_13_text(b)
    } else if code_page == 14 {
        decode_iso8859_14_text(b)
    } else if code_page == 15 {
        decode_iso8859_15_text(b)
    } else if code_page == 16 {
        decode_iso8859_16_text(b)
    } else if code_page == 80 {
        decode_koi8_u_text(b)
    } else if code_page == 85 {
        decode_koi8_r_text(b)
    } else {
        decode_lossy_text(b)
    }
}

} // verus!
