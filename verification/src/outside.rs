//! The library's trusted boundary: each item below makes one call into an
//! outside crate or into a part of std that vstd does not specify, and its
//! contract is believed, not proved.
use vstd::prelude::*;
use rand::Rng;
use crate::text::{string_views, all_ascii, ascii_lower, ascii_upper, is_ascii_alphanumeric_char, is_lower_hex_char};

verus! {

/// What `sha256::digest` returns for the UTF-8 bytes of a string.
pub uninterp spec fn spec_sha256_hex(s: Seq<char>) -> Seq<char>;

/// `sha256::digest` on a string: the SHA-256 of its UTF-8 bytes, which the
/// crate renders with `hex::encode`, so 64 lower-case hexadecimal digits.
/// The digest itself is named, not stated.
#[verifier::external_body]
pub(crate) fn sha256_hex(s: &str) -> (r: String)
    ensures
        r@ == spec_sha256_hex(s@),
        r@.len() == 64,
        forall|i: int| 0 <= i < r@.len() ==> is_lower_hex_char(#[trigger] r@[i]),
{
    sha256::digest(s)
}

/// What `str::to_uppercase` returns.
pub uninterp spec fn spec_to_uppercase(s: Seq<char>) -> Seq<char>;

/// `str::to_uppercase`. The Unicode case mapping is named; on ASCII input it
/// is the ASCII mapping of `a`..`z` to `A`..`Z`, as std documents.
#[verifier::external_body]
pub(crate) fn to_uppercase(s: &str) -> (r: String)
    ensures
        r@ == spec_to_uppercase(s@),
        all_ascii(s@) ==> r@ == ascii_upper(s@),
{
    s.to_uppercase()
}

/// What `str::to_lowercase` returns.
pub uninterp spec fn spec_to_lowercase(s: Seq<char>) -> Seq<char>;

/// `str::to_lowercase`. The Unicode case mapping is named; on ASCII input it
/// is the ASCII mapping of `A`..`Z` to `a`..`z`.
#[verifier::external_body]
pub(crate) fn to_lowercase(s: &str) -> (r: String)
    ensures
        r@ == spec_to_lowercase(s@),
        all_ascii(s@) ==> r@ == ascii_lower(s@),
{
    s.to_lowercase()
}

/// `len` characters drawn by `rand`'s `Alphanumeric` distribution from the
/// thread-local generator. Which characters come out is left open; that
/// each is an ASCII letter or digit is what the distribution documents.
#[verifier::external_body]
pub(crate) fn random_alphanumeric(len: usize) -> (r: String)
    ensures
        r@.len() == len,
        forall|i: int| 0 <= i < r@.len() ==> is_ascii_alphanumeric_char(#[trigger] r@[i]),
{
    rand::thread_rng().sample_iter(&rand::distributions::Alphanumeric).take(len).map(char::from).collect()
}

/// What the first capture group of `regex::Regex` built from `pattern`
/// holds at its first match in `text`; `None` when the pattern does not
/// compile, does not match, or the group did not take part.
pub uninterp spec fn spec_regex_first_group(pattern: Seq<char>, text: Seq<char>) -> Option<Seq<char>>;

/// `regex::Regex::new(pattern)` then `captures(text)` and group 1. The
/// regular-expression semantics are named, not stated.
#[verifier::external_body]
pub(crate) fn regex_first_group(pattern: &str, text: &str) -> (r: Option<String>)
    ensures
        match r {
            Some(g) => spec_regex_first_group(pattern@, text@) == Some(g@),
            None => spec_regex_first_group(pattern@, text@) is None,
        },
{
    let re = regex::Regex::new(pattern).ok()?;
    let caps = re.captures(text)?;
    Some(caps.get(1)?.as_str().to_string())
}

/// ASCII decimal digit.
pub open spec fn is_digit_char(c: char) -> bool {
    '0' <= c && c <= '9'
}

/// An RFC 3339 UTC time to the whole second, as chrono writes it:
/// `<year>-MM-DDTHH:MM:SS+00:00`, the year being four digits, or a sign and
/// at least four digits when it lies outside 0..=9999.
pub open spec fn is_rfc3339_utc_seconds(s: Seq<char>) -> bool {
    let n = s.len() as int;
    let y = n - 21;
    &&& y >= 4
    &&& forall|i: int| 0 <= i < y ==> is_digit_char(#[trigger] s[i]) || (i == 0 && (s[i] == '+' || s[i] == '-'))
    &&& s[y] == '-' && is_digit_char(s[y + 1]) && is_digit_char(s[y + 2])
    &&& s[y + 3] == '-' && is_digit_char(s[y + 4]) && is_digit_char(s[y + 5])
    &&& s[y + 6] == 'T' && is_digit_char(s[y + 7]) && is_digit_char(s[y + 8])
    &&& s[y + 9] == ':' && is_digit_char(s[y + 10]) && is_digit_char(s[y + 11])
    &&& s[y + 12] == ':' && is_digit_char(s[y + 13]) && is_digit_char(s[y + 14])
    &&& s.subrange(y + 15, n) == "+00:00"@
}

/// `chrono::Utc::now()` rendered by `to_rfc3339_opts(SecondsFormat::Secs,
/// false)`, e.g. `2024-01-26T18:30:09+00:00`. The clock decides which time;
/// every outcome has the shape chrono's writer gives a UTC time to the
/// whole second.
#[verifier::external_body]
pub(crate) fn utc_now_rfc3339_seconds() -> (r: String)
    ensures
        is_rfc3339_utc_seconds(r@),
{
    chrono::Utc::now().to_rfc3339_opts(chrono::SecondsFormat::Secs, false)
}

/// One digit of the standard base64 alphabet.
pub open spec fn base64_digit(v: int) -> char {
    if v < 26 {
        (('A' as int) + v) as char
    } else if v < 52 {
        (('a' as int) + (v - 26)) as char
    } else if v < 62 {
        (('0' as int) + (v - 52)) as char
    } else if v == 62 {
        '+'
    } else {
        '/'
    }
}

/// Standard base64 with `=` padding and no line breaks.
pub open spec fn base64_encode(b: Seq<u8>) -> Seq<char>
    decreases b.len(),
{
    if b.len() == 0 {
        Seq::empty()
    } else {
        let x0 = b[0] as int;
        if b.len() == 1 {
            seq![base64_digit(x0 / 4), base64_digit((x0 % 4) * 16), '=', '=']
        } else {
            let x1 = b[1] as int;
            if b.len() == 2 {
                seq![
                    base64_digit(x0 / 4),
                    base64_digit((x0 % 4) * 16 + x1 / 16),
                    base64_digit((x1 % 16) * 4),
                    '=',
                ]
            } else {
                let x2 = b[2] as int;
                seq![
                    base64_digit(x0 / 4),
                    base64_digit((x0 % 4) * 16 + x1 / 16),
                    base64_digit((x1 % 16) * 4 + x2 / 64),
                    base64_digit(x2 % 64),
                ] + base64_encode(b.skip(3))
            }
        }
    }
}

/// Whether OpenSSL's base64 encoder can size its output for `len` input
/// bytes: four characters per started group of three, plus a terminator,
/// within a C `int`.
pub open spec fn base64_len_fits(len: int) -> bool {
    (len + 2) / 3 * 4 + 1 <= i32::MAX
}

/// `openssl::base64::encode_block`, i.e. OpenSSL's `EVP_EncodeBlock`:
/// standard base64 with padding, no line breaks. It panics when the input
/// length or the output length it computes overflows a C `int`, which
/// `requires` leaves out.
#[verifier::external_body]
pub(crate) fn base64_encode_block(data: &[u8]) -> (r: String)
    requires
        base64_len_fits(data@.len() as int),
    ensures
        r@ == base64_encode(data@),
{
    openssl::base64::encode_block(data)
}

#[verifier::external_type_specification]
#[verifier::external_body]
pub struct ExErrorStack(openssl::error::ErrorStack);

/// Whether `sig` is a SHA-256 signature of `data` under the private key in
/// `key_pem`, as OpenSSL's `Verifier` with the key's public half accepts it.
pub uninterp spec fn spec_sha256_signature_valid(key_pem: Seq<u8>, data: Seq<u8>, sig: Seq<u8>) -> bool;

/// Signs `data` with the private key in `key_pem` over SHA-256:
/// `PKey::private_key_from_pem`, `Signer::new(MessageDigest::sha256(), ..)`,
/// `update`, `sign_to_vec`. A signature it returns is one of `data` under
/// that key. Whether it succeeds, and which signature comes out (ECDSA
/// signatures are randomised), the key and OpenSSL decide; that is left
/// unsaid. Reading the PEM panics for a buffer longer than a C `int`, which
/// `requires` leaves out.
#[verifier::external_body]
pub(crate) fn sign_sha256_with_pem_key(key_pem: &[u8], data: &[u8]) -> (r: Result<Vec<u8>, openssl::error::ErrorStack>)
    requires
        key_pem@.len() <= i32::MAX,
    ensures
        r matches Ok(sig) ==> spec_sha256_signature_valid(key_pem@, data@, sig@),
{
    let key = openssl::pkey::PKey::private_key_from_pem(key_pem)?;
    let mut signer = openssl::sign::Signer::new(openssl::hash::MessageDigest::sha256(), &key)?;
    signer.update(data)?;
    signer.sign_to_vec()
}

/// The `Display` text of an OpenSSL error stack; nothing is promised of it.
#[verifier::external_body]
pub(crate) fn error_stack_text(e: &openssl::error::ErrorStack) -> (r: String) {
    e.to_string()
}

/// What `serde_json::to_string` writes for a list of strings: a JSON array
/// of JSON strings.
pub uninterp spec fn spec_json_string_array(items: Seq<Seq<char>>) -> Seq<char>;

/// `serde_json::to_string` of a list of strings. Its documentation says
/// serialisation fails only when a `Serialize` impl decides to or a map has
/// keys that are not strings; neither can happen for a list of strings, so
/// it succeeds. The JSON text itself is named.
#[verifier::external_body]
pub(crate) fn json_string_array(items: &Vec<String>) -> (r: Option<String>)
    ensures
        r is Some,
        r is Some ==> r->0@ == spec_json_string_array(string_views(items@)),
{
    serde_json::to_string(items).ok()
}

} // verus!
