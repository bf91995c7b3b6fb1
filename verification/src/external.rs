//! The calls this library makes into the clock, the random UUID source, SHA-256, hex and UUID
//! text encodings, calendar formatting, JSON scalar encodings and two std text facilities. Each
//! item here is trusted: its contract is taken from the called crate's source or documentation.
use vstd::prelude::*;

use crate::ids::{representable, Timestamp, Uuid};

verus! {

/// The lowercase hexadecimal digit for a nibble `0..16`.
pub open spec fn hex_digit(n: int) -> char {
    if n < 10 {
        (48 + n) as char
    } else {
        (87 + n) as char
    }
}

/// Two lowercase hex digits per byte, high nibble first.
pub open spec fn hex_lower(bytes: Seq<u8>) -> Seq<char> {
    Seq::new(
        2 * bytes.len(),
        |i: int|
            if i % 2 == 0 {
                hex_digit(bytes[i / 2] as int / 16)
            } else {
                hex_digit(bytes[i / 2] as int % 16)
            },
    )
}

/// 256 to the power `k`.
pub open spec fn pow256(k: nat) -> nat
    decreases k,
{
    if k == 0 {
        1
    } else {
        256 * pow256((k - 1) as nat)
    }
}

/// The 16 big-endian bytes of a 128-bit value.
pub open spec fn be_bytes(x: u128) -> Seq<u8> {
    Seq::new(16, |i: int| ((x as nat / pow256((15 - i) as nat)) % 256) as u8)
}

/// The 32-digit lowercase hex ("simple") text of a UUID.
pub open spec fn uuid_simple_text(id: u128) -> Seq<char> {
    hex_lower(be_bytes(id))
}

/// The 36-character lowercase hyphenated (8-4-4-4-12) text of a UUID.
pub open spec fn uuid_text(id: u128) -> Seq<char> {
    let h = uuid_simple_text(id);
    h.subrange(0, 8) + seq!['-'] + h.subrange(8, 12) + seq!['-'] + h.subrange(12, 16) + seq!['-']
        + h.subrange(16, 20) + seq!['-'] + h.subrange(20, 32)
}

/// The SHA-256 digest of a byte string.
pub uninterp spec fn sha256_of(data: Seq<u8>) -> Seq<u8>;

/// Whether a character has the Unicode `White_Space` property (PropList.txt): the controls
/// U+0009..U+000D, space, U+0085, no-break space, ogham space mark, the spaces U+2000..U+200A,
/// the line and paragraph separators, narrow no-break space, medium mathematical space and
/// ideographic space.
pub open spec fn unicode_whitespace(c: char) -> bool {
    let n = c as u32;
    ||| 0x09 <= n <= 0x0D
    ||| n == 0x20
    ||| n == 0x85
    ||| n == 0xA0
    ||| n == 0x1680
    ||| 0x2000 <= n <= 0x200A
    ||| n == 0x2028
    ||| n == 0x2029
    ||| n == 0x202F
    ||| n == 0x205F
    ||| n == 0x3000
}

/// The `YYYY/MM` calendar path segment of a UTC instant (year at least four digits).
pub uninterp spec fn year_month_path(t: int) -> Seq<char>;

/// The UUID a text denotes in one of the forms `uuid::Uuid::parse_str` reads, if any.
pub uninterp spec fn parsed_uuid(s: Seq<char>) -> Option<u128>;

/// The lowercase equivalent of a text, by the Unicode `Lowercase` mapping of each character
/// (some characters map to several).
pub uninterp spec fn unicode_lowercase(s: Seq<char>) -> Seq<char>;

/// The JSON text (a quoted, escaped string literal) of a string.
pub uninterp spec fn json_quoted(s: Seq<char>) -> Seq<char>;

/// The decimal digits of a natural number, most significant first, with no leading zero.
pub open spec fn decimal_digits(n: nat) -> Seq<char>
    decreases n,
{
    if n < 10 {
        seq![(48 + n) as char]
    } else {
        decimal_digits(n / 10).push((48 + n % 10) as char)
    }
}

/// The JSON text of an integer: its decimal digits, after a `-` when it is negative.
pub open spec fn json_integer(n: int) -> Seq<char> {
    if n < 0 {
        seq!['-'] + decimal_digits((-n) as nat)
    } else {
        decimal_digits(n as nat)
    }
}

/// The JSON text of a UTC instant (a quoted RFC 3339 date-time).
pub uninterp spec fn json_instant(t: int) -> Seq<char>;

/// `uuid::Uuid::parse_str`, as the 128-bit value. The crate documents that the hyphenated
/// lowercase form it writes is read back to the same UUID.
#[verifier::external_body]
pub(crate) fn parse_uuid(s: &str) -> (r: Option<Uuid>)
    ensures
        r == parsed_uuid(s@),
        forall|u: u128| s@ == uuid_text(u) ==> r == Some(u),
{
    match uuid::Uuid::parse_str(s) {
        Ok(u) => Some(u.as_u128()),
        Err(_) => None,
    }
}

/// `chrono::Utc::now`, read as milliseconds since the epoch. Nothing is promised of the value
/// but that it lies in the range every `chrono::DateTime<Utc>` lies in.
#[verifier::external_body]
pub(crate) fn clock_now() -> (t: Timestamp)
    ensures
        representable(t as int),
{
    chrono::Utc::now().timestamp_millis()
}

/// `uuid::Uuid::new_v4`, as its 128-bit value. Random: nothing is promised of the value.
#[verifier::external_body]
pub(crate) fn new_uuid() -> Uuid {
    uuid::Uuid::new_v4().as_u128()
}

/// `sha2::Sha256::digest`: the SHA-256 digest of `data`, 32 bytes long.
#[verifier::external_body]
pub(crate) fn sha256(data: &[u8]) -> (r: Vec<u8>)
    ensures
        r@ == sha256_of(data@),
        r@.len() == 32,
{
    <sha2::Sha256 as sha2::Digest>::digest(data).to_vec()
}

/// `hex::encode`: two lowercase hex digits per byte (the crate's `HEX_CHARS_LOWER` table).
#[verifier::external_body]
pub(crate) fn hex_encode(data: &[u8]) -> (r: String)
    ensures
        r@ == hex_lower(data@),
{
    hex::encode(data)
}

/// `uuid::Uuid::from_u128(id).as_bytes()`: `from_u128` stores `id.to_be_bytes()`.
#[verifier::external_body]
pub(crate) fn uuid_bytes(id: Uuid) -> (r: Vec<u8>)
    ensures
        r@ == be_bytes(id),
{
    uuid::Uuid::from_u128(id).as_bytes().to_vec()
}

/// `Uuid::to_string`: `Display` is the lowercase hyphenated form (`format_hyphenated`).
#[verifier::external_body]
pub(crate) fn uuid_hyphenated(id: Uuid) -> (r: String)
    ensures
        r@ == uuid_text(id),
{
    uuid::Uuid::from_u128(id).to_string()
}

/// `Uuid::as_simple().to_string()`: 32 lowercase hex digits (`format_simple`).
#[verifier::external_body]
pub(crate) fn uuid_simple(id: Uuid) -> (r: String)
    ensures
        r@ == uuid_simple_text(id),
{
    uuid::Uuid::from_u128(id).as_simple().to_string()
}

/// `DateTime::<Utc>::from_timestamp_millis(t).format("%Y/%m")`. `from_timestamp_millis` returns
/// a value exactly for representable instants, which `requires` asks for.
#[verifier::external_body]
pub(crate) fn format_year_month(t: Timestamp) -> (r: String)
    requires
        representable(t as int),
    ensures
        r@ == year_month_path(t as int),
{
    match chrono::DateTime::<chrono::Utc>::from_timestamp_millis(t) {
        Some(at) => at.format("%Y/%m").to_string(),
        None => String::new(),
    }
}

/// `char::is_whitespace` (Unicode `White_Space`).
#[verifier::external_body]
pub(crate) fn char_is_whitespace(c: char) -> (r: bool)
    ensures
        r == unicode_whitespace(c),
{
    c.is_whitespace()
}

/// `str::to_lowercase`: the text with every character replaced by its Unicode lowercase
/// mapping.
#[verifier::external_body]
pub(crate) fn to_lowercase(s: &str) -> (r: String)
    ensures
        r@ == unicode_lowercase(s@),
{
    s.to_lowercase()
}

/// Collecting characters into a `String` (`FromIterator<char>`).
#[verifier::external_body]
pub(crate) fn string_from_chars(chars: &Vec<char>) -> (r: String)
    ensures
        r@ == chars@,
{
    chars.iter().collect()
}

/// `serde_json::to_string` of a `str`. Serializing a string into a byte buffer has no error
/// path in serde_json, so the text is always produced.
#[verifier::external_body]
pub(crate) fn json_string(s: &str) -> (r: String)
    ensures
        r@ == json_quoted(s@),
{
    serde_json::to_string(s).unwrap_or_default()
}

/// `serde_json::to_string` of an `i64`: `itoa`'s decimal text, a `-` before the digits of a
/// negative value (no error path).
#[verifier::external_body]
pub(crate) fn json_i64(n: i64) -> (r: String)
    ensures
        r@ == json_integer(n as int),
{
    serde_json::to_string(&n).unwrap_or_default()
}

/// `serde_json::to_string` of a `chrono::DateTime<Utc>` (an RFC 3339 string; chrono's
/// `Serialize` has no error path for representable instants).
#[verifier::external_body]
pub(crate) fn json_timestamp(t: Timestamp) -> (r: String)
    requires
        representable(t as int),
    ensures
        r@ == json_instant(t as int),
{
    match chrono::DateTime::<chrono::Utc>::from_timestamp_millis(t) {
        Some(at) => serde_json::to_string(&at).unwrap_or_default(),
        None => String::new(),
    }
}

} // verus!
