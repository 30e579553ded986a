//! Calls into std and outside crates that Verus does not read. Each item here
//! is trusted: its contract is believed, not proved.

use vstd::prelude::*;
use sha2::Digest;

verus! {

/// The text that `str::to_lowercase` returns for `s`: the Unicode lowercase
/// mapping of every character. It depends on `s` alone.
pub uninterp spec fn unicode_lowercase(s: Seq<char>) -> Seq<char>;

/// Calls `str::to_lowercase`. Claimed: the result is `unicode_lowercase` of the
/// argument. Nothing more is claimed of the mapping itself.
#[verifier::external_body]
pub(crate) fn lowercase(s: &str) -> (r: String)
    ensures
        r@ == unicode_lowercase(s@),
{
    s.to_lowercase()
}

/// The SHA-256 digest of `data`, as `sha2::Sha256::digest` computes it.
pub uninterp spec fn sha256_digest(data: Seq<u8>) -> Seq<u8>;

/// Calls `sha2::Sha256::digest`. Claimed: the result is `sha256_digest` of the
/// bytes, and it is 32 bytes long (the output size of `Sha256`).
#[verifier::external_body]
pub(crate) fn sha256(data: &[u8]) -> (r: Vec<u8>)
    ensures
        r@ == sha256_digest(data@),
        r@.len() == 32,
{
    sha2::Sha256::digest(data).to_vec()
}

/// The lowercase hexadecimal digit for a value below 16.
pub open spec fn hex_digit(v: int) -> char {
    if v < 10 {
        ((v + 48) as u32) as char
    } else {
        ((v - 10 + 97) as u32) as char
    }
}

/// Lowercase hexadecimal text of `data`: two digits per byte, high nibble
/// first, as `hex::encode` writes it.
pub open spec fn hex_lower(data: Seq<u8>) -> Seq<char>
    decreases data.len(),
{
    if data.len() == 0 {
        Seq::empty()
    } else {
        hex_lower(data.drop_last()) + seq![
            hex_digit((data.last() / 16) as int),
            hex_digit((data.last() % 16) as int),
        ]
    }
}

/// Calls `hex::encode`. Claimed: the text is `hex_lower` of the bytes (the
/// crate maps each byte through the table `0123456789abcdef`, high nibble first).
#[verifier::external_body]
pub(crate) fn hex_encode(data: &[u8]) -> (r: String)
    ensures
        r@ == hex_lower(data@),
{
    hex::encode(data)
}

/// Whether `c` may stand in an HTTP header value: `http` accepts every byte
/// but the control bytes below 32 (tab excepted) and 127; a character above
/// 127 is encoded in UTF-8 with bytes above 127 only.
pub open spec fn header_char_ok(c: char) -> bool {
    (c as u32 >= 32 && c as u32 != 127) || c as u32 == 9
}

/// Calls `reqwest::header::HeaderValue::from_str` (the `http` crate's).
/// Claimed: it succeeds exactly when every character passes `header_char_ok`.
#[verifier::external_body]
pub(crate) fn header_value_accepts(s: &str) -> (r: bool)
    ensures
        r == (forall|i: int| 0 <= i < s@.len() ==> header_char_ok(#[trigger] s@[i])),
{
    reqwest::header::HeaderValue::from_str(s).is_ok()
}

/// What `url::Url::parse` makes of `input`: on success the scheme
/// (`Url::scheme`) and the host (`Url::host_str`), on failure the error's
/// text. It depends on `input` alone.
pub uninterp spec fn url_parse_outcome(input: Seq<char>) -> Result<
    (Seq<char>, Option<Seq<char>>),
    Seq<char>,
>;

/// The view of a parse outcome held in `String`s.
pub open spec fn url_parts_view(r: Result<(String, Option<String>), String>) -> Result<
    (Seq<char>, Option<Seq<char>>),
    Seq<char>,
> {
    match r {
        Ok((scheme, host)) => Ok(
            (
                scheme@,
                match host {
                    Some(h) => Some(h@),
                    None => None,
                },
            ),
        ),
        Err(e) => Err(e@),
    }
}

/// Calls `url::Url::parse`, then `scheme` and `host_str` on the result, or
/// `to_string` on the error. Claimed: the outcome is `url_parse_outcome` of the
/// input; nothing is claimed of how the crate parses.
#[verifier::external_body]
pub(crate) fn parse_url(input: &str) -> (r: Result<(String, Option<String>), String>)
    ensures
        url_parts_view(r) == url_parse_outcome(input@),
{
    match url::Url::parse(input) {
        Ok(u) => Ok((u.scheme().to_string(), u.host_str().map(str::to_owned))),
        Err(e) => Err(e.to_string()),
    }
}

} // verus!
