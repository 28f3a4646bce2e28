//! Cache versions derived from the content of a download locator.
use vstd::prelude::*;
use base64::Engine;
use sha2::Digest;
use vstd::string::StringSliceAdditionalSpecFns;

verus! {

/// The SHA-256 digest of some bytes.
pub uninterp spec fn sha256_of(data: Seq<u8>) -> Seq<u8>;

/// The character of the standard base64 alphabet for a 6-bit value.
pub open spec fn base64_digit(n: int) -> char {
    if 0 <= n < 26 {
        ('A' as int + n) as char
    } else if 26 <= n < 52 {
        ('a' as int + (n - 26)) as char
    } else if 52 <= n < 62 {
        ('0' as int + (n - 52)) as char
    } else if n == 62 {
        '+'
    } else {
        '/'
    }
}

/// The standard base64 text of some bytes, padded with `=`: each group of
/// three bytes gives four characters, a last group of two gives three and
/// one `=`, a last single byte gives two and `==`.
pub open spec fn base64_of(data: Seq<u8>) -> Seq<char>
    decreases data.len(),
{
    if data.len() == 0 {
        Seq::empty()
    } else if data.len() == 1 {
        let a = data[0] as int;
        seq![base64_digit(a / 4), base64_digit((a % 4) * 16), '=', '=']
    } else if data.len() == 2 {
        let a = data[0] as int;
        let b = data[1] as int;
        seq![base64_digit(a / 4), base64_digit((a % 4) * 16 + b / 16), base64_digit((b % 16) * 4), '=']
    } else {
        let a = data[0] as int;
        let b = data[1] as int;
        let c = data[2] as int;
        seq![base64_digit(a / 4), base64_digit((a % 4) * 16 + b / 16), base64_digit((b % 16) * 4 + c / 64), base64_digit(c % 64)]
            + base64_of(data.subrange(3, data.len() as int))
    }
}

/// Relies on `sha2::Sha256` through `digest::Digest::digest`: the 32-byte
/// SHA-256 digest of the input, a function of the input alone.
#[verifier::external_body]
fn sha256_digest(data: &[u8]) -> (r: Vec<u8>)
    ensures
        r@ == sha256_of(data@),
        r@.len() == 32,
{
    sha2::Sha256::digest(data).to_vec()
}

/// Relies on `base64::Engine::encode` of `base64::engine::general_purpose::STANDARD`:
/// the standard alphabet with `=` padding (see `base64_of`). It panics only when the output
/// length overflows `usize`, which the bound on the input excludes.
#[verifier::external_body]
fn base64_standard(data: &[u8]) -> (r: String)
    requires
        data@.len() <= usize::MAX / 2,
    ensures
        r@ == base64_of(data@),
{
    base64::engine::general_purpose::STANDARD.encode(data)
}

pub open spec fn min_int(a: int, b: int) -> int {
    if a <= b {
        a
    } else {
        b
    }
}

/// `v1-` followed by the first 16 characters of an encoded digest.
pub open spec fn version_from_encoded(encoded: Seq<char>) -> Seq<char> {
    "v1-"@ + encoded.subrange(0, min_int(16, encoded.len() as int))
}

/// The cache version for a download locator: the first 16 characters of the
/// base64 text of the SHA-256 digest of its UTF-8 bytes, after `v1-`.
pub open spec fn cache_version_of(locator: Seq<char>) -> Seq<char> {
    version_from_encoded(base64_of(sha256_of(vstd::utf8::encode_utf8(locator))))
}

/// The version string for an already encoded digest.
pub fn version_from_encoded_digest(encoded: &str) -> (r: String)
    ensures
        r@ == version_from_encoded(encoded@),
{
    let n = encoded.unicode_len();
    let take = if n < 16 {
        n
    } else {
        16
    };
    let head = encoded.substring_char(0, take);
    crate::text::concat2("v1-", head)
}

/// The cache version for the download locator `url`.
pub fn cache_version(url: &str) -> (r: String)
    ensures
        r@ == cache_version_of(url@),
{
    let digest = sha256_digest(url.as_bytes());
    let encoded = base64_standard(digest.as_slice());
    version_from_encoded_digest(encoded.as_str())
}

} // verus!
